use crate::layout::{i32_le_bytes, lemma_i32_le_len, OptionName, push_i32, StringField, HEADER_SIZE};
use crate::text::nul_free;
use vstd::prelude::*;
use vstd::utf8::*;

verus! {

/// A resolved option set: what the host's option parser produced for one
/// index. A string option left unset is `None`; integer and boolean options
/// always carry a value, their declared default when not given.
pub struct OptionSet {
    pub url: Option<String>,
    pub index_type_name: Option<String>,
    pub refresh_interval: Option<String>,
    pub alias: Option<String>,
    pub uuid: Option<String>,
    pub optimize_after: i32,
    pub compression_level: i32,
    pub shards: i32,
    pub replicas: i32,
    pub bulk_concurrency: i32,
    pub batch_size: i32,
    pub llapi: bool,
}

pub open spec fn text_of(o: Option<String>) -> Option<Seq<char>> {
    match o {
        Some(s) => Some(s@),
        None => None,
    }
}

/// The bytes a string option occupies after the header: its UTF-8 encoding
/// and a terminating NUL, or nothing when it is unset.
pub open spec fn piece(o: Option<Seq<char>>) -> Seq<u8> {
    match o {
        Some(t) => encode_utf8(t).push(0u8),
        None => Seq::empty(),
    }
}

/// The offset recorded for a string option placed at byte `at`: `at`, or the
/// sentinel 0 when the option is unset.
pub open spec fn offset_for(o: Option<Seq<char>>, at: int) -> int {
    if o is Some {
        at
    } else {
        0
    }
}

impl OptionSet {
    pub open spec fn text(self, f: StringField) -> Option<Seq<char>> {
        match f {
            StringField::Url => text_of(self.url),
            StringField::TypeName => text_of(self.index_type_name),
            StringField::RefreshInterval => text_of(self.refresh_interval),
            StringField::Alias => text_of(self.alias),
            StringField::Uuid => text_of(self.uuid),
        }
    }

    /// Byte at which the string of `f` starts in the encoded block; the
    /// strings follow the header in the order of their slots.
    pub open spec fn start(self, f: StringField) -> int {
        let a0 = HEADER_SIZE as int;
        let a1 = a0 + piece(self.text(StringField::Url)).len();
        let a2 = a1 + piece(self.text(StringField::TypeName)).len();
        let a3 = a2 + piece(self.text(StringField::RefreshInterval)).len();
        let a4 = a3 + piece(self.text(StringField::Alias)).len();
        match f {
            StringField::Url => a0,
            StringField::TypeName => a1,
            StringField::RefreshInterval => a2,
            StringField::Alias => a3,
            StringField::Uuid => a4,
        }
    }

    /// Length in bytes of the encoded block.
    pub open spec fn encoded_len(self) -> int {
        self.start(StringField::Uuid) + piece(self.text(StringField::Uuid)).len()
    }

    /// An option set that a block can hold: its strings hold no NUL, and the
    /// block's length fits the `i32` length prefix.
    pub open spec fn valid(self) -> bool {
        &&& forall|f: StringField| #[trigger] self.text(f) matches Some(t) ==> nul_free(t)
        &&& self.encoded_len() <= i32::MAX
    }

    /// The recorded offset of `f`.
    pub open spec fn offset(self, f: StringField) -> int {
        offset_for(self.text(f), self.start(f))
    }

    /// The fixed header of the encoded block.
    pub open spec fn header(self) -> Seq<u8> {
        i32_le_bytes(self.encoded_len() as i32) + i32_le_bytes(
            self.offset(StringField::Url) as i32,
        ) + i32_le_bytes(self.offset(StringField::TypeName) as i32) + i32_le_bytes(
            self.offset(StringField::RefreshInterval) as i32,
        ) + i32_le_bytes(self.offset(StringField::Alias) as i32) + i32_le_bytes(
            self.offset(StringField::Uuid) as i32,
        ) + i32_le_bytes(self.optimize_after) + i32_le_bytes(self.compression_level)
            + i32_le_bytes(self.shards) + i32_le_bytes(self.replicas) + i32_le_bytes(
            self.bulk_concurrency,
        ) + i32_le_bytes(self.batch_size) + seq![if self.llapi { 1u8 } else { 0u8 }, 0u8, 0u8, 0u8]
    }

    /// The options block that holds this option set.
    pub open spec fn encoded(self) -> Seq<u8> {
        self.header() + piece(self.text(StringField::Url)) + piece(
            self.text(StringField::TypeName),
        ) + piece(self.text(StringField::RefreshInterval)) + piece(
            self.text(StringField::Alias),
        ) + piece(self.text(StringField::Uuid))
    }
}

/// The encoded block is the fixed header followed by the strings that are set.
pub proof fn lemma_encoded_len(s: OptionSet)
    ensures
        s.header().len() == HEADER_SIZE,
        s.encoded().len() == s.encoded_len(),
{
    lemma_i32_le_len();
}

/// A value produced by the host's option parser.
pub enum OptionValue {
    Str(String),
    Int(i32),
    Bool(bool),
}

impl OptionSet {
    /// The option set with `name` given `value`; `None` when the value is not
    /// of the option's type.
    pub open spec fn with(self, name: OptionName, value: OptionValue) -> Option<OptionSet> {
        match (name, value) {
            (OptionName::Url, OptionValue::Str(t)) => Some(OptionSet { url: Some(t), ..self }),
            (OptionName::TypeName, OptionValue::Str(t)) => Some(
                OptionSet { index_type_name: Some(t), ..self },
            ),
            (OptionName::RefreshInterval, OptionValue::Str(t)) => Some(
                OptionSet { refresh_interval: Some(t), ..self },
            ),
            (OptionName::Alias, OptionValue::Str(t)) => Some(OptionSet { alias: Some(t), ..self }),
            (OptionName::Uuid, OptionValue::Str(t)) => Some(OptionSet { uuid: Some(t), ..self }),
            (OptionName::OptimizeAfter, OptionValue::Int(v)) => Some(
                OptionSet { optimize_after: v, ..self },
            ),
            (OptionName::CompressionLevel, OptionValue::Int(v)) => Some(
                OptionSet { compression_level: v, ..self },
            ),
            (OptionName::Shards, OptionValue::Int(v)) => Some(OptionSet { shards: v, ..self }),
            (OptionName::Replicas, OptionValue::Int(v)) => Some(OptionSet { replicas: v, ..self }),
            (OptionName::BulkConcurrency, OptionValue::Int(v)) => Some(
                OptionSet { bulk_concurrency: v, ..self },
            ),
            (OptionName::BatchSize, OptionValue::Int(v)) => Some(
                OptionSet { batch_size: v, ..self },
            ),
            (OptionName::Llapi, OptionValue::Bool(v)) => Some(OptionSet { llapi: v, ..self }),
            _ => None,
        }
    }

    /// Places a parsed value into the option it belongs to. Returns false, and
    /// leaves the set as it was, when the value is not of the option's type.
    pub fn set(&mut self, name: OptionName, value: OptionValue) -> (r: bool)
        ensures
            match old(self).with(name, value) {
                Some(n) => r && *final(self) == n,
                None => !r && *final(self) == *old(self),
            },
    {
        match (name, value) {
            (OptionName::Url, OptionValue::Str(t)) => self.url = Some(t),
            (OptionName::TypeName, OptionValue::Str(t)) => self.index_type_name = Some(t),
            (OptionName::RefreshInterval, OptionValue::Str(t)) => self.refresh_interval = Some(t),
            (OptionName::Alias, OptionValue::Str(t)) => self.alias = Some(t),
            (OptionName::Uuid, OptionValue::Str(t)) => self.uuid = Some(t),
            (OptionName::OptimizeAfter, OptionValue::Int(v)) => self.optimize_after = v,
            (OptionName::CompressionLevel, OptionValue::Int(v)) => self.compression_level = v,
            (OptionName::Shards, OptionValue::Int(v)) => self.shards = v,
            (OptionName::Replicas, OptionValue::Int(v)) => self.replicas = v,
            (OptionName::BulkConcurrency, OptionValue::Int(v)) => self.bulk_concurrency = v,
            (OptionName::BatchSize, OptionValue::Int(v)) => self.batch_size = v,
            (OptionName::Llapi, OptionValue::Bool(v)) => self.llapi = v,
            _ => {
                return false;
            },
        }
        true
    }
}

/// The option set after one parsed pair: the value placed into its option,
/// or no change when the value is not of the option's type.
pub open spec fn apply_pair(s: OptionSet, p: (OptionName, OptionValue)) -> OptionSet {
    match s.with(p.0, p.1) {
        Some(n) => n,
        None => s,
    }
}

/// The option set after the parsed pairs, in order; a later pair for the
/// same option wins.
pub open spec fn apply_pairs(s: OptionSet, pairs: Seq<(OptionName, OptionValue)>) -> OptionSet
    decreases pairs.len(),
{
    if pairs.len() == 0 {
        s
    } else {
        apply_pair(apply_pairs(s, pairs.drop_last()), pairs.last())
    }
}

/// True when `a` and `b` hold the same value for option `f`.
pub open spec fn same_option(a: OptionSet, b: OptionSet, f: OptionName) -> bool {
    match f {
        OptionName::Url => a.url == b.url,
        OptionName::TypeName => a.index_type_name == b.index_type_name,
        OptionName::RefreshInterval => a.refresh_interval == b.refresh_interval,
        OptionName::Alias => a.alias == b.alias,
        OptionName::Uuid => a.uuid == b.uuid,
        OptionName::OptimizeAfter => a.optimize_after == b.optimize_after,
        OptionName::CompressionLevel => a.compression_level == b.compression_level,
        OptionName::Shards => a.shards == b.shards,
        OptionName::Replicas => a.replicas == b.replicas,
        OptionName::BulkConcurrency => a.bulk_concurrency == b.bulk_concurrency,
        OptionName::BatchSize => a.batch_size == b.batch_size,
        OptionName::Llapi => a.llapi == b.llapi,
    }
}

fn clone_value(v: &OptionValue) -> (r: OptionValue)
    ensures
        r == *v,
{
    match v {
        OptionValue::Str(t) => OptionValue::Str(t.clone()),
        OptionValue::Int(i) => OptionValue::Int(*i),
        OptionValue::Bool(b) => OptionValue::Bool(*b),
    }
}

impl OptionSet {
    /// Builds the option set of an index from `defaults` and the pairs the
    /// host's parser produced, placed in order; a pair whose value is not of
    /// its option's type is passed over.
    pub fn from_pairs(defaults: OptionSet, pairs: &Vec<(OptionName, OptionValue)>) -> (r: OptionSet)
        ensures
            r == apply_pairs(defaults, pairs@),
    {
        let mut s = defaults;
        let mut i: usize = 0;
        while i < pairs.len()
            invariant
                i <= pairs@.len(),
                s == apply_pairs(defaults, pairs@.subrange(0, i as int)),
            decreases pairs@.len() - i,
        {
            let name = pairs[i].0;
            let value = clone_value(&pairs[i].1);
            s.set(name, value);
            proof {
                let done = pairs@.subrange(0, i + 1);
                assert(done.drop_last() == pairs@.subrange(0, i as int));
                assert(done.last() == pairs@[i as int]);
            }
            i = i + 1;
        }
        assert(pairs@.subrange(0, pairs@.len() as int) == pairs@);
        s
    }
}

fn piece_len(o: &Option<String>) -> (r: usize)
    requires
        piece(text_of(*o)).len() <= i32::MAX,
    ensures
        r == piece(text_of(*o)).len(),
{
    match o {
        Some(s) => s.as_str().len() + 1,
        None => 0,
    }
}

fn offset_value(o: &Option<String>, at: usize) -> (r: i32)
    requires
        at <= i32::MAX,
    ensures
        r == offset_for(text_of(*o), at as int),
{
    match o {
        Some(_) => at as i32,
        None => 0,
    }
}

/// Appends the bytes of a string option: its UTF-8 encoding and a NUL.
fn push_piece(v: &mut Vec<u8>, o: &Option<String>)
    ensures
        final(v)@ == old(v)@ + piece(text_of(*o)),
{
    match o {
        Some(s) => {
            let bytes = s.as_str().as_bytes();
            let ghost v0 = v@;
            let mut i: usize = 0;
            while i < bytes.len()
                invariant
                    i <= bytes@.len(),
                    v@ == v0 + bytes@.subrange(0, i as int),
                decreases bytes@.len() - i,
            {
                v.push(bytes[i]);
                i = i + 1;
                assert(bytes@.subrange(0, i as int) == bytes@.subrange(0, i - 1) + seq![
                    bytes@[i - 1],
                ]);
            }
            assert(bytes@.subrange(0, bytes@.len() as int) == bytes@);
            v.push(0u8);
        },
        None => {
            assert(v@ + Seq::<u8>::empty() == v@);
        },
    }
}

/// Lays out an option set as one options block: the fixed header, then each
/// string that is set, NUL-terminated, in the order of the header's slots.
/// Unset strings keep the sentinel offset 0.
pub fn encode(s: &OptionSet) -> (r: Vec<u8>)
    requires
        s.valid(),
    ensures
        r@ == s.encoded(),
{
    let l0 = piece_len(&s.url);
    let l1 = piece_len(&s.index_type_name);
    let l2 = piece_len(&s.refresh_interval);
    let l3 = piece_len(&s.alias);
    let l4 = piece_len(&s.uuid);
    let a0 = HEADER_SIZE;
    let a1 = a0 + l0;
    let a2 = a1 + l1;
    let a3 = a2 + l2;
    let a4 = a3 + l3;
    let total = a4 + l4;
    let mut v: Vec<u8> = Vec::new();
    push_i32(&mut v, total as i32);
    push_i32(&mut v, offset_value(&s.url, a0));
    push_i32(&mut v, offset_value(&s.index_type_name, a1));
    push_i32(&mut v, offset_value(&s.refresh_interval, a2));
    push_i32(&mut v, offset_value(&s.alias, a3));
    push_i32(&mut v, offset_value(&s.uuid, a4));
    push_i32(&mut v, s.optimize_after);
    push_i32(&mut v, s.compression_level);
    push_i32(&mut v, s.shards);
    push_i32(&mut v, s.replicas);
    push_i32(&mut v, s.bulk_concurrency);
    push_i32(&mut v, s.batch_size);
    v.push(if s.llapi { 1u8 } else { 0u8 });
    v.push(0u8);
    v.push(0u8);
    v.push(0u8);
    assert(v@ == s.header());
    push_piece(&mut v, &s.url);
    push_piece(&mut v, &s.index_type_name);
    push_piece(&mut v, &s.refresh_interval);
    push_piece(&mut v, &s.alias);
    push_piece(&mut v, &s.uuid);
    v
}

} // verus!
