use vstd::bytes::*;
use vstd::prelude::*;
use vstd::slice::slice_subrange;

verus! {

/// Size in bytes of the fixed header that opens every options block.
pub const HEADER_SIZE: usize = 52;

/// Header offset of the block's length prefix.
pub const LENGTH_AT: usize = 0;

/// Header offsets of the five string slots.
pub const URL_AT: usize = 4;
pub const TYPE_NAME_AT: usize = 8;
pub const REFRESH_INTERVAL_AT: usize = 12;
pub const ALIAS_AT: usize = 16;
pub const UUID_AT: usize = 20;

/// Header offsets of the scalar fields.
pub const OPTIMIZE_AFTER_AT: usize = 24;
pub const COMPRESSION_LEVEL_AT: usize = 28;
pub const SHARDS_AT: usize = 32;
pub const REPLICAS_AT: usize = 36;
pub const BULK_CONCURRENCY_AT: usize = 40;
pub const BATCH_SIZE_AT: usize = 44;
pub const LLAPI_AT: usize = 48;

/// The two's complement bit pattern of `x`, as an unsigned word.
pub open spec fn i32_bits(x: i32) -> u32 {
    if x >= 0 {
        x as u32
    } else {
        (x + 0x1_0000_0000) as u32
    }
}

/// The signed value whose two's complement bit pattern is `u`.
pub open spec fn i32_from_bits(u: u32) -> i32 {
    if u < 0x8000_0000 {
        u as i32
    } else {
        (u - 0x1_0000_0000) as i32
    }
}

/// The four little-endian bytes that store `x`.
pub open spec fn i32_le_bytes(x: i32) -> Seq<u8> {
    spec_u32_to_le_bytes(i32_bits(x))
}

/// The `i32` stored little-endian at byte `at` of `b`.
pub open spec fn header_i32(b: Seq<u8>, at: int) -> i32 {
    i32_from_bits(spec_u32_from_le_bytes(b.subrange(at, at + 4)))
}

pub proof fn lemma_i32_le_round_trip(x: i32)
    ensures
        i32_le_bytes(x).len() == 4,
        i32_from_bits(spec_u32_from_le_bytes(i32_le_bytes(x))) == x,
{
    lemma_auto_spec_u32_to_from_le_bytes();
    let u = i32_bits(x);
    assert(spec_u32_to_le_bytes(u).len() == 4);
    assert(spec_u32_from_le_bytes(spec_u32_to_le_bytes(u)) == u);
}

pub proof fn lemma_i32_le_len()
    ensures
        forall|x: i32| #[trigger] i32_le_bytes(x).len() == 4,
{
    lemma_auto_spec_u32_to_from_le_bytes();
    assert forall|x: i32| #[trigger] i32_le_bytes(x).len() == 4 by {
        assert(spec_u32_to_le_bytes(i32_bits(x)).len() == 4);
    }
}

/// Reads the `i32` stored little-endian at byte `at` of `b`.
pub fn read_i32(b: &[u8], at: usize) -> (r: i32)
    requires
        at + 4 <= b@.len(),
    ensures
        r == header_i32(b@, at as int),
{
    let n = b.len();
    assert(at + 4 <= n);
    let u = u32_from_le_bytes(slice_subrange(b, at, at + 4));
    if u < 0x8000_0000 {
        u as i32
    } else {
        (u as i64 - 0x1_0000_0000) as i32
    }
}

/// Appends the four little-endian bytes of `x` to `v`.
pub fn push_i32(v: &mut Vec<u8>, x: i32)
    ensures
        final(v)@ == old(v)@ + i32_le_bytes(x),
{
    let u: u32 = if x >= 0 {
        x as u32
    } else {
        (x as i64 + 0x1_0000_0000) as u32
    };
    let mut bytes = u32_to_le_bytes(u);
    v.append(&mut bytes);
}

/// The kind of value an option holds.
#[derive(Clone, Copy, Debug, PartialEq, Eq, Structural)]
pub enum OptionType {
    Str,
    Int,
    Bool,
}

/// The options an index recognizes.
#[derive(Clone, Copy, Debug, PartialEq, Eq, Structural)]
pub enum OptionName {
    Url,
    TypeName,
    RefreshInterval,
    Shards,
    Replicas,
    BulkConcurrency,
    BatchSize,
    CompressionLevel,
    Alias,
    OptimizeAfter,
    Llapi,
    Uuid,
}

} // verus!

verus! {

/// The five string options, each stored through an offset in the header.
#[derive(Clone, Copy, Debug, PartialEq, Eq, Structural)]
pub enum StringField {
    Url,
    TypeName,
    RefreshInterval,
    Alias,
    Uuid,
}

impl StringField {
    /// Header offset of the slot that holds this field's string offset.
    pub open spec fn slot(self) -> int {
        match self {
            StringField::Url => URL_AT as int,
            StringField::TypeName => TYPE_NAME_AT as int,
            StringField::RefreshInterval => REFRESH_INTERVAL_AT as int,
            StringField::Alias => ALIAS_AT as int,
            StringField::Uuid => UUID_AT as int,
        }
    }

    pub fn slot_at(self) -> (r: usize)
        ensures
            r == self.slot(),
    {
        match self {
            StringField::Url => URL_AT,
            StringField::TypeName => TYPE_NAME_AT,
            StringField::RefreshInterval => REFRESH_INTERVAL_AT,
            StringField::Alias => ALIAS_AT,
            StringField::Uuid => UUID_AT,
        }
    }
}

} // verus!

verus! {

impl OptionName {
    pub open spec fn spec_name(self) -> Seq<char> {
        match self {
            OptionName::Url => "url"@,
            OptionName::TypeName => "type_name"@,
            OptionName::RefreshInterval => "refresh_interval"@,
            OptionName::Shards => "shards"@,
            OptionName::Replicas => "replicas"@,
            OptionName::BulkConcurrency => "bulk_concurrency"@,
            OptionName::BatchSize => "batch_size"@,
            OptionName::CompressionLevel => "compression_level"@,
            OptionName::Alias => "alias"@,
            OptionName::OptimizeAfter => "optimize_after"@,
            OptionName::Llapi => "llapi"@,
            OptionName::Uuid => "uuid"@,
        }
    }

    /// The name under which the option is declared.
    pub fn name(self) -> (r: &'static str)
        ensures
            r@ == self.spec_name(),
    {
        match self {
            OptionName::Url => "url",
            OptionName::TypeName => "type_name",
            OptionName::RefreshInterval => "refresh_interval",
            OptionName::Shards => "shards",
            OptionName::Replicas => "replicas",
            OptionName::BulkConcurrency => "bulk_concurrency",
            OptionName::BatchSize => "batch_size",
            OptionName::CompressionLevel => "compression_level",
            OptionName::Alias => "alias",
            OptionName::OptimizeAfter => "optimize_after",
            OptionName::Llapi => "llapi",
            OptionName::Uuid => "uuid",
        }
    }

    pub open spec fn spec_option_type(self) -> OptionType {
        match self {
            OptionName::Url | OptionName::TypeName | OptionName::RefreshInterval
            | OptionName::Alias | OptionName::Uuid => OptionType::Str,
            OptionName::Llapi => OptionType::Bool,
            _ => OptionType::Int,
        }
    }

    /// The kind of value the option holds.
    pub fn option_type(self) -> (r: OptionType)
        ensures
            r == self.spec_option_type(),
    {
        match self {
            OptionName::Url | OptionName::TypeName | OptionName::RefreshInterval
            | OptionName::Alias | OptionName::Uuid => OptionType::Str,
            OptionName::Llapi => OptionType::Bool,
            _ => OptionType::Int,
        }
    }

    pub open spec fn spec_header_offset(self) -> int {
        match self {
            OptionName::Url => URL_AT as int,
            OptionName::TypeName => TYPE_NAME_AT as int,
            OptionName::RefreshInterval => REFRESH_INTERVAL_AT as int,
            OptionName::Shards => SHARDS_AT as int,
            OptionName::Replicas => REPLICAS_AT as int,
            OptionName::BulkConcurrency => BULK_CONCURRENCY_AT as int,
            OptionName::BatchSize => BATCH_SIZE_AT as int,
            OptionName::CompressionLevel => COMPRESSION_LEVEL_AT as int,
            OptionName::Alias => ALIAS_AT as int,
            OptionName::OptimizeAfter => OPTIMIZE_AFTER_AT as int,
            OptionName::Llapi => LLAPI_AT as int,
            OptionName::Uuid => UUID_AT as int,
        }
    }

    /// The header offset at which the option's value, or for a string its
    /// offset, is stored.
    pub fn header_offset(self) -> (r: usize)
        ensures
            r == self.spec_header_offset(),
    {
        match self {
            OptionName::Url => URL_AT,
            OptionName::TypeName => TYPE_NAME_AT,
            OptionName::RefreshInterval => REFRESH_INTERVAL_AT,
            OptionName::Shards => SHARDS_AT,
            OptionName::Replicas => REPLICAS_AT,
            OptionName::BulkConcurrency => BULK_CONCURRENCY_AT,
            OptionName::BatchSize => BATCH_SIZE_AT,
            OptionName::CompressionLevel => COMPRESSION_LEVEL_AT,
            OptionName::Alias => ALIAS_AT,
            OptionName::OptimizeAfter => OPTIMIZE_AFTER_AT,
            OptionName::Llapi => LLAPI_AT,
            OptionName::Uuid => UUID_AT,
        }
    }

    /// The inclusive bounds of an integer option, where `cores` is the
    /// number of execution units of the host; `None` for the others.
    pub open spec fn spec_int_bounds(self, cores: i32) -> Option<(i32, i32)> {
        match self {
            OptionName::Shards => Some((1i32, 32768i32)),
            OptionName::Replicas => Some((0i32, 32768i32)),
            OptionName::BulkConcurrency => Some((1i32, cores)),
            OptionName::BatchSize => Some((1i32, (i32::MAX / 2 - 1) as i32)),
            OptionName::CompressionLevel => Some((0i32, 9i32)),
            OptionName::OptimizeAfter => Some((0i32, i32::MAX)),
            _ => None,
        }
    }

    pub fn int_bounds(self, cores: i32) -> (r: Option<(i32, i32)>)
        ensures
            r == self.spec_int_bounds(cores),
    {
        match self {
            OptionName::Shards => Some((1, 32768)),
            OptionName::Replicas => Some((0, 32768)),
            OptionName::BulkConcurrency => Some((1, cores)),
            OptionName::BatchSize => Some((1, i32::MAX / 2 - 1)),
            OptionName::CompressionLevel => Some((0, 9)),
            OptionName::OptimizeAfter => Some((0, i32::MAX)),
            _ => None,
        }
    }

    /// Every recognized option, in the order the host's parser is given them.
    pub fn all() -> (r: Vec<OptionName>)
        ensures
            r@ == seq![
                OptionName::Url,
                OptionName::TypeName,
                OptionName::RefreshInterval,
                OptionName::Shards,
                OptionName::Replicas,
                OptionName::BulkConcurrency,
                OptionName::BatchSize,
                OptionName::CompressionLevel,
                OptionName::Alias,
                OptionName::OptimizeAfter,
                OptionName::Llapi,
                OptionName::Uuid,
            ],
    {
        vec![
            OptionName::Url,
            OptionName::TypeName,
            OptionName::RefreshInterval,
            OptionName::Shards,
            OptionName::Replicas,
            OptionName::BulkConcurrency,
            OptionName::BatchSize,
            OptionName::CompressionLevel,
            OptionName::Alias,
            OptionName::OptimizeAfter,
            OptionName::Llapi,
            OptionName::Uuid,
        ]
    }
}

impl OptionName {
    /// Whether the host checks the option's value before it is stored; only
    /// the server URL is checked.
    pub fn validated(self) -> (r: bool)
        ensures
            r == (self == OptionName::Url),
    {
        match self {
            OptionName::Url => true,
            _ => false,
        }
    }

    /// The option declared under `name`, if any.
    pub fn from_name(name: &str) -> (r: Option<OptionName>)
        ensures
            r matches Some(n) ==> n.spec_name() == name@,
            r is None ==> forall|n: OptionName| #[trigger] n.spec_name() != name@,
    {
        let all = OptionName::all();
        let given = name.to_owned();
        let mut i: usize = 0;
        while i < all.len()
            invariant
                all@ == seq![
                    OptionName::Url,
                    OptionName::TypeName,
                    OptionName::RefreshInterval,
                    OptionName::Shards,
                    OptionName::Replicas,
                    OptionName::BulkConcurrency,
                    OptionName::BatchSize,
                    OptionName::CompressionLevel,
                    OptionName::Alias,
                    OptionName::OptimizeAfter,
                    OptionName::Llapi,
                    OptionName::Uuid,
                ],
                given@ == name@,
                i <= all@.len(),
                forall|j: int| 0 <= j < i ==> #[trigger] all@[j].spec_name() != name@,
            decreases all@.len() - i,
        {
            let n = all[i];
            if n.name().to_owned() == given {
                return Some(n);
            }
            i = i + 1;
        }
        assert forall|n: OptionName| #[trigger] n.spec_name() != name@ by {
            match n {
                OptionName::Url => assert(all@[0] == n),
                OptionName::TypeName => assert(all@[1] == n),
                OptionName::RefreshInterval => assert(all@[2] == n),
                OptionName::Shards => assert(all@[3] == n),
                OptionName::Replicas => assert(all@[4] == n),
                OptionName::BulkConcurrency => assert(all@[5] == n),
                OptionName::BatchSize => assert(all@[6] == n),
                OptionName::CompressionLevel => assert(all@[7] == n),
                OptionName::Alias => assert(all@[8] == n),
                OptionName::OptimizeAfter => assert(all@[9] == n),
                OptionName::Llapi => assert(all@[10] == n),
                OptionName::Uuid => assert(all@[11] == n),
            }
        }
        None
    }
}

} // verus!
