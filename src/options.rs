use crate::block::{encode, lemma_encoded_len, OptionSet};
use crate::error::OptionsError;
use crate::layout::{
    OptionName,
    header_i32, read_i32, StringField, BATCH_SIZE_AT, BULK_CONCURRENCY_AT, COMPRESSION_LEVEL_AT,
    HEADER_SIZE, LLAPI_AT, OPTIMIZE_AFTER_AT, REPLICAS_AT, SHARDS_AT,
};
use crate::text::string_from_utf8;
use vstd::prelude::*;
use vstd::slice::{slice_subrange, slice_to_vec};
use vstd::utf8::{decode_utf8, valid_utf8};

verus! {

/// Server URL used when none is set.
pub const DEFAULT_URL: &'static str = "default";

/// Document type name used when none is set.
pub const DEFAULT_TYPE_NAME: &'static str = "doc";

/// Refresh interval used when none is set.
pub const DEFAULT_REFRESH_INTERVAL: &'static str = "-1";

pub const DEFAULT_OPTIMIZE_AFTER: i32 = 0;

pub const DEFAULT_COMPRESSION_LEVEL: i32 = 1;

pub const DEFAULT_SHARDS: i32 = 5;

pub const DEFAULT_REPLICAS: i32 = 0;

pub const DEFAULT_BATCH_SIZE: i32 = 8 * 1024 * 1024;

/// The first index at or after `i` where `b` holds a zero byte, or the
/// length of `b` when there is none.
pub open spec fn terminator(b: Seq<u8>, i: int) -> int
    decreases b.len() - i,
{
    if i < 0 || i >= b.len() {
        b.len() as int
    } else if b[i] == 0 {
        i
    } else {
        terminator(b, i + 1)
    }
}

/// True when a string that starts at `off` lies inside `b`, its NUL included.
pub open spec fn span_in_block(b: Seq<u8>, off: int) -> bool {
    0 < off < b.len() && terminator(b, off) < b.len()
}

/// The bytes of the string that starts at `off`, without its NUL.
pub open spec fn span(b: Seq<u8>, off: int) -> Seq<u8> {
    b.subrange(off, terminator(b, off))
}

/// What the block `b` holds for the string field `f`: nothing when its
/// offset is the sentinel 0, else the text that the offset addresses, or
/// the reason it cannot be read.
pub open spec fn stored_text(b: Seq<u8>, f: StringField) -> Result<Option<Seq<char>>, OptionsError> {
    let off = header_i32(b, f.slot()) as int;
    if off == 0 {
        Ok(None)
    } else if !span_in_block(b, off) {
        Err(OptionsError::InvalidOffset(f))
    } else if !valid_utf8(span(b, off)) {
        Err(OptionsError::InvalidEncoding(f))
    } else {
        Ok(Some(decode_utf8(span(b, off))))
    }
}

/// A stored text, with `d` standing in for an unset one.
pub open spec fn text_or(r: Result<Option<Seq<char>>, OptionsError>, d: Seq<char>) -> Result<
    Seq<char>,
    OptionsError,
> {
    match r {
        Ok(Some(t)) => Ok(t),
        Ok(None) => Ok(d),
        Err(e) => Err(e),
    }
}

pub open spec fn optional_text_view(r: Result<Option<String>, OptionsError>) -> Result<
    Option<Seq<char>>,
    OptionsError,
> {
    match r {
        Ok(Some(s)) => Ok(Some(s@)),
        Ok(None) => Ok(None),
        Err(e) => Err(e),
    }
}

pub open spec fn text_view(r: Result<String, OptionsError>) -> Result<Seq<char>, OptionsError> {
    match r {
        Ok(s) => Ok(s@),
        Err(e) => Err(e),
    }
}

/// The defaults that apply to an index whose options were never set.
pub struct DefaultOptions {
    pub optimize_after: i32,
    pub compression_level: i32,
    pub shards: i32,
    pub replicas: i32,
    pub bulk_concurrency: i32,
    pub batch_size: i32,
}

impl DefaultOptions {
    /// The documented defaults, with `bulk_concurrency` requests at a time.
    pub fn standard(bulk_concurrency: i32) -> (r: DefaultOptions)
        ensures
            r.optimize_after == DEFAULT_OPTIMIZE_AFTER,
            r.compression_level == DEFAULT_COMPRESSION_LEVEL,
            r.shards == DEFAULT_SHARDS,
            r.replicas == DEFAULT_REPLICAS,
            r.bulk_concurrency == bulk_concurrency,
            r.batch_size == DEFAULT_BATCH_SIZE,
    {
        DefaultOptions {
            optimize_after: DEFAULT_OPTIMIZE_AFTER,
            compression_level: DEFAULT_COMPRESSION_LEVEL,
            shards: DEFAULT_SHARDS,
            replicas: DEFAULT_REPLICAS,
            bulk_concurrency,
            batch_size: DEFAULT_BATCH_SIZE,
        }
    }

    /// The option set of an index declared without options.
    pub open spec fn spec_option_set(self) -> OptionSet {
        OptionSet {
            url: None,
            index_type_name: None,
            refresh_interval: None,
            alias: None,
            uuid: None,
            optimize_after: self.optimize_after,
            compression_level: self.compression_level,
            shards: self.shards,
            replicas: self.replicas,
            bulk_concurrency: self.bulk_concurrency,
            batch_size: self.batch_size,
            llapi: false,
        }
    }

    pub fn option_set(&self) -> (r: OptionSet)
        ensures
            r == self.spec_option_set(),
    {
        OptionSet {
            url: None,
            index_type_name: None,
            refresh_interval: None,
            alias: None,
            uuid: None,
            optimize_after: self.optimize_after,
            compression_level: self.compression_level,
            shards: self.shards,
            replicas: self.replicas,
            bulk_concurrency: self.bulk_concurrency,
            batch_size: self.batch_size,
            llapi: false,
        }
    }
}

/// Relies on `num_cpus::get`: the number of CPUs this process may run on.
/// Nothing is assumed of the count.
#[verifier::external_body]
fn available_cpus() -> (r: usize) {
    num_cpus::get()
}

/// The number of concurrent bulk requests granted for a host with `n`
/// execution units: `n` itself, at least one and at most `i32::MAX`.
pub open spec fn cores_from(n: usize) -> i32 {
    if n == 0 {
        1
    } else if n > i32::MAX as usize {
        i32::MAX
    } else {
        n as i32
    }
}

impl DefaultOptions {
    /// The documented defaults for a host with `n` execution units.
    pub fn for_cpu_count(n: usize) -> (r: DefaultOptions)
        ensures
            r.optimize_after == DEFAULT_OPTIMIZE_AFTER,
            r.compression_level == DEFAULT_COMPRESSION_LEVEL,
            r.shards == DEFAULT_SHARDS,
            r.replicas == DEFAULT_REPLICAS,
            r.batch_size == DEFAULT_BATCH_SIZE,
            r.bulk_concurrency == cores_from(n),
    {
        let cores: i32 = if n == 0 {
            1
        } else if n > i32::MAX as usize {
            i32::MAX
        } else {
            n as i32
        };
        DefaultOptions::standard(cores)
    }

    /// The documented defaults for this host, which counts its execution
    /// units once per call.
    pub fn for_host() -> (r: DefaultOptions)
        ensures
            r.optimize_after == DEFAULT_OPTIMIZE_AFTER,
            r.compression_level == DEFAULT_COMPRESSION_LEVEL,
            r.shards == DEFAULT_SHARDS,
            r.replicas == DEFAULT_REPLICAS,
            r.batch_size == DEFAULT_BATCH_SIZE,
            1 <= r.bulk_concurrency,
    {
        DefaultOptions::for_cpu_count(available_cpus())
    }
}

impl OptionName {
    pub open spec fn spec_string_default(self) -> Option<Seq<char>> {
        match self {
            OptionName::Url => Some(DEFAULT_URL@),
            OptionName::TypeName => Some(DEFAULT_TYPE_NAME@),
            OptionName::RefreshInterval => Some(DEFAULT_REFRESH_INTERVAL@),
            _ => None,
        }
    }

    /// The declared default of a string option; `None` for an option without
    /// one (alias and uuid, which are derived) and for the other kinds.
    pub fn string_default(self) -> (r: Option<&'static str>)
        ensures
            match self.spec_string_default() {
                Some(d) => r matches Some(s) && s@ == d,
                None => r is None,
            },
    {
        match self {
            OptionName::Url => Some(DEFAULT_URL),
            OptionName::TypeName => Some(DEFAULT_TYPE_NAME),
            OptionName::RefreshInterval => Some(DEFAULT_REFRESH_INTERVAL),
            _ => None,
        }
    }

    pub open spec fn spec_int_default(self, d: DefaultOptions) -> Option<i32> {
        match self {
            OptionName::OptimizeAfter => Some(d.optimize_after),
            OptionName::CompressionLevel => Some(d.compression_level),
            OptionName::Shards => Some(d.shards),
            OptionName::Replicas => Some(d.replicas),
            OptionName::BulkConcurrency => Some(d.bulk_concurrency),
            OptionName::BatchSize => Some(d.batch_size),
            _ => None,
        }
    }

    /// The declared default of an integer option under `d`.
    pub fn int_default(self, d: &DefaultOptions) -> (r: Option<i32>)
        ensures
            r == self.spec_int_default(*d),
    {
        match self {
            OptionName::OptimizeAfter => Some(d.optimize_after),
            OptionName::CompressionLevel => Some(d.compression_level),
            OptionName::Shards => Some(d.shards),
            OptionName::Replicas => Some(d.replicas),
            OptionName::BulkConcurrency => Some(d.bulk_concurrency),
            OptionName::BatchSize => Some(d.batch_size),
            _ => None,
        }
    }
}

/// What the catalog holds for a relation: whether it is an index, and the
/// options block attached to it, if any.
pub struct IndexRelation {
    pub is_index: bool,
    pub options: Option<Vec<u8>>,
}

/// The options of one index, read from its options block.
pub struct ZDBIndexOptions {
    block: Vec<u8>,
}

impl View for ZDBIndexOptions {
    type V = Seq<u8>;

    closed spec fn view(&self) -> Seq<u8> {
        self.block@
    }
}

impl ZDBIndexOptions {
    #[verifier::type_invariant]
    spec fn holds_header(self) -> bool {
        self.block@.len() >= HEADER_SIZE
    }

    /// Reads the options of `relation`. A relation that is not an index is
    /// refused. An index without a block gets `defaults` and every string
    /// option unset; a stored block is taken as it is, once it is known to
    /// hold a whole header.
    pub fn from(relation: IndexRelation, defaults: &DefaultOptions) -> (r: Result<
        ZDBIndexOptions,
        OptionsError,
    >)
        ensures
            !relation.is_index ==> r == Err::<ZDBIndexOptions, OptionsError>(
                OptionsError::InvalidRelationKind,
            ),
            relation.is_index && relation.options is None ==> (r matches Ok(o) && o@
                == defaults.spec_option_set().encoded()),
            relation.is_index ==> (relation.options matches Some(b) ==> if b@.len() < HEADER_SIZE {
                r == Err::<ZDBIndexOptions, OptionsError>(OptionsError::TruncatedBlock)
            } else {
                r matches Ok(o) && o@ == b@
            }),
    {
        if !relation.is_index {
            return Err(OptionsError::InvalidRelationKind);
        }
        match relation.options {
            None => {
                let set = defaults.option_set();
                proof {
                    lemma_encoded_len(set);
                }
                let block = encode(&set);
                Ok(ZDBIndexOptions { block })
            },
            Some(block) => {
                if block.len() < HEADER_SIZE {
                    Err(OptionsError::TruncatedBlock)
                } else {
                    Ok(ZDBIndexOptions { block })
                }
            },
        }
    }

    fn header_field(&self, at: usize) -> (r: i32)
        requires
            at + 4 <= HEADER_SIZE,
        ensures
            r == header_i32(self@, at as int),
    {
        proof {
            use_type_invariant(self);
        }
        read_i32(self.block.as_slice(), at)
    }

    pub fn optimize_after(&self) -> (r: i32)
        ensures
            r == header_i32(self@, OPTIMIZE_AFTER_AT as int),
    {
        self.header_field(OPTIMIZE_AFTER_AT)
    }

    pub fn compression_level(&self) -> (r: i32)
        ensures
            r == header_i32(self@, COMPRESSION_LEVEL_AT as int),
    {
        self.header_field(COMPRESSION_LEVEL_AT)
    }

    pub fn shards(&self) -> (r: i32)
        ensures
            r == header_i32(self@, SHARDS_AT as int),
    {
        self.header_field(SHARDS_AT)
    }

    pub fn replicas(&self) -> (r: i32)
        ensures
            r == header_i32(self@, REPLICAS_AT as int),
    {
        self.header_field(REPLICAS_AT)
    }

    pub fn bulk_concurrency(&self) -> (r: i32)
        ensures
            r == header_i32(self@, BULK_CONCURRENCY_AT as int),
    {
        self.header_field(BULK_CONCURRENCY_AT)
    }

    pub fn batch_size(&self) -> (r: i32)
        ensures
            r == header_i32(self@, BATCH_SIZE_AT as int),
    {
        self.header_field(BATCH_SIZE_AT)
    }

    pub fn llapi(&self) -> (r: bool)
        ensures
            r == (self@[LLAPI_AT as int] != 0),
    {
        proof {
            use_type_invariant(self);
        }
        self.block[LLAPI_AT] != 0
    }

    /// The text stored for `field`, `None` when its offset is the sentinel 0.
    /// An offset that leaves the block, or a string whose NUL is missing,
    /// fails with `InvalidOffset`; bytes that are not UTF-8 fail with
    /// `InvalidEncoding`. Nothing past the block's end is ever read.
    pub fn get_str(&self, field: StringField) -> (r: Result<Option<String>, OptionsError>)
        ensures
            optional_text_view(r) == stored_text(self@, field),
    {
        let off = self.header_field(field.slot_at());
        if off == 0 {
            return Ok(None);
        }
        let n = self.block.len();
        if off < 0 || off as usize >= n {
            return Err(OptionsError::InvalidOffset(field));
        }
        let start = off as usize;
        let mut j = start;
        while j < n && self.block[j] != 0
            invariant
                start <= j <= n,
                n == self@.len(),
                self@ == self.block@,
                terminator(self@, start as int) == terminator(self@, j as int),
            decreases n - j,
        {
            j = j + 1;
        }
        if j == n {
            return Err(OptionsError::InvalidOffset(field));
        }
        let bytes = slice_to_vec(slice_subrange(self.block.as_slice(), start, j));
        assert(bytes@ == span(self@, start as int));
        match string_from_utf8(bytes) {
            Some(s) => Ok(Some(s)),
            None => Err(OptionsError::InvalidEncoding(field)),
        }
    }

    fn text_or_default(&self, field: StringField, default: &str) -> (r: Result<
        String,
        OptionsError,
    >)
        ensures
            text_view(r) == text_or(stored_text(self@, field), default@),
    {
        match self.get_str(field) {
            Ok(Some(s)) => Ok(s),
            Ok(None) => Ok(default.to_owned()),
            Err(e) => Err(e),
        }
    }

    /// The server URL; `"default"` when unset.
    pub fn url(&self) -> (r: Result<String, OptionsError>)
        ensures
            text_view(r) == text_or(stored_text(self@, StringField::Url), DEFAULT_URL@),
    {
        self.text_or_default(StringField::Url, DEFAULT_URL)
    }

    /// The document type name; `"doc"` when unset.
    pub fn index_type_name(&self) -> (r: Result<String, OptionsError>)
        ensures
            text_view(r) == text_or(stored_text(self@, StringField::TypeName), DEFAULT_TYPE_NAME@),
    {
        self.text_or_default(StringField::TypeName, DEFAULT_TYPE_NAME)
    }

    /// The refresh interval; `"-1"` when unset.
    pub fn refresh_interval(&self) -> (r: Result<String, OptionsError>)
        ensures
            text_view(r) == text_or(
                stored_text(self@, StringField::RefreshInterval),
                DEFAULT_REFRESH_INTERVAL@,
            ),
    {
        self.text_or_default(StringField::RefreshInterval, DEFAULT_REFRESH_INTERVAL)
    }
}

} // verus!
