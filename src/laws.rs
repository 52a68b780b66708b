use crate::block::{apply_pair, apply_pairs, lemma_encoded_len, piece, same_option, OptionSet, OptionValue};
use crate::error::OptionsError;
use crate::layout::{
    OptionName,
    header_i32, i32_le_bytes, lemma_i32_le_len, lemma_i32_le_round_trip, StringField,
    BATCH_SIZE_AT, BULK_CONCURRENCY_AT, COMPRESSION_LEVEL_AT, HEADER_SIZE, LENGTH_AT, LLAPI_AT,
    OPTIMIZE_AFTER_AT, REPLICAS_AT, SHARDS_AT,
};
use crate::identity::{derived_alias, derived_uuid, ResolvedIdentity};
use crate::options::{
    span, span_in_block, stored_text, terminator, text_or, DefaultOptions, DEFAULT_REFRESH_INTERVAL,
    DEFAULT_TYPE_NAME, DEFAULT_URL,
};
use crate::text::{lemma_encoding_has_no_zero, no_zero_byte, nul_free};
use vstd::prelude::*;
use vstd::utf8::{valid_utf8, decode_utf8, encode_utf8, encode_utf8_decode_utf8, encode_utf8_valid_utf8};

verus! {

proof fn lemma_terminator(b: Seq<u8>, i: int, e: int)
    requires
        0 <= i <= e < b.len(),
        b[e] == 0,
        forall|k: int| i <= k < e ==> b[k] != 0,
    ensures
        terminator(b, i) == e,
    decreases e - i,
{
    if i < e {
        lemma_terminator(b, i + 1, e);
    }
}

/// A NUL-terminated text written at byte `a` of `b` reads back as that text.
proof fn lemma_text_reads_back(b: Seq<u8>, a: int, t: Seq<char>)
    requires
        0 < a,
        a + encode_utf8(t).len() + 1 <= b.len(),
        b.subrange(a, a + encode_utf8(t).len() + 1) == encode_utf8(t).push(0u8),
        nul_free(t),
    ensures
        span_in_block(b, a),
        span(b, a) == encode_utf8(t),
        stored_span_decodes(b, a, t),
{
    let enc = encode_utf8(t);
    let e = a + enc.len();
    lemma_encoding_has_no_zero(t);
    assert forall|k: int| a <= k < e implies b[k] != 0 by {
        assert(b[k] == b.subrange(a, e + 1)[k - a]);
        assert(no_zero_byte(enc));
    }
    assert(b[e] == b.subrange(a, e + 1)[e - a]);
    lemma_terminator(b, a, e);
    assert(span(b, a) =~= enc);
    encode_utf8_valid_utf8(t);
    encode_utf8_decode_utf8(t);
}

spec fn stored_span_decodes(b: Seq<u8>, a: int, t: Seq<char>) -> bool {
    valid_utf8(span(b, a)) && decode_utf8(span(b, a)) == t
}

#[verifier::rlimit(40)]
proof fn lemma_field_reads_back(s: OptionSet, f: StringField)
    requires
        s.valid(),
    ensures
        stored_text(s.encoded(), f) == Ok::<Option<Seq<char>>, OptionsError>(s.text(f)),
{
    lemma_encoded_len(s);
    lemma_i32_le_len();
    let b = s.encoded();
    let h = s.header();
    let piece_url = piece(s.text(StringField::Url));
    let piece_type = piece(s.text(StringField::TypeName));
    let piece_refresh = piece(s.text(StringField::RefreshInterval));
    let piece_alias = piece(s.text(StringField::Alias));
    let piece_uuid = piece(s.text(StringField::Uuid));
    let off = s.offset(f);
    assert(0 <= off <= i32::MAX);
    let slot = f.slot();
    assert(b.subrange(slot, slot + 4) =~= h.subrange(slot, slot + 4));
    assert(h.subrange(slot, slot + 4) =~= i32_le_bytes(off as i32));
    lemma_i32_le_round_trip(off as i32);
    assert(header_i32(b, slot) == off);
    let a = s.start(f);
    let p = piece(s.text(f));
    assert(b.subrange(a, a + p.len()) =~= p) by {
        match f {
            StringField::Url => {},
            StringField::TypeName => {},
            StringField::RefreshInterval => {},
            StringField::Alias => {},
            StringField::Uuid => {},
        }
    }
    assert(s.valid());
    if let Some(t) = s.text(f) {
        assert(nul_free(t));
        lemma_text_reads_back(b, a, t);
    }
}

/// Encoding a valid option set and reading the block back yields exactly
/// the supplied values: each string that was set, nothing for each string
/// left unset, and every scalar; the length prefix states the block's length.
pub proof fn lemma_round_trip(s: OptionSet)
    requires
        s.valid(),
    ensures
        forall|f: StringField| #[trigger]
            stored_text(s.encoded(), f) == Ok::<Option<Seq<char>>, OptionsError>(s.text(f)),
        header_i32(s.encoded(), OPTIMIZE_AFTER_AT as int) == s.optimize_after,
        header_i32(s.encoded(), COMPRESSION_LEVEL_AT as int) == s.compression_level,
        header_i32(s.encoded(), SHARDS_AT as int) == s.shards,
        header_i32(s.encoded(), REPLICAS_AT as int) == s.replicas,
        header_i32(s.encoded(), BULK_CONCURRENCY_AT as int) == s.bulk_concurrency,
        header_i32(s.encoded(), BATCH_SIZE_AT as int) == s.batch_size,
        (s.encoded()[LLAPI_AT as int] != 0) == s.llapi,
        header_i32(s.encoded(), LENGTH_AT as int) == s.encoded().len(),
{
    assert forall|f: StringField| #[trigger]
        stored_text(s.encoded(), f) == Ok::<Option<Seq<char>>, OptionsError>(s.text(f)) by {
        lemma_field_reads_back(s, f);
    }
    lemma_encoded_len(s);
    lemma_i32_le_len();
    let b = s.encoded();
    let h = s.header();
    assert forall|k: int| 0 <= k < HEADER_SIZE implies b[k] == h[k] by {}
    assert(b.subrange(0, 4) =~= i32_le_bytes(s.encoded_len() as i32));
    lemma_i32_le_round_trip(s.encoded_len() as i32);
    assert(b.subrange(24, 28) =~= i32_le_bytes(s.optimize_after));
    lemma_i32_le_round_trip(s.optimize_after);
    assert(b.subrange(28, 32) =~= i32_le_bytes(s.compression_level));
    lemma_i32_le_round_trip(s.compression_level);
    assert(b.subrange(32, 36) =~= i32_le_bytes(s.shards));
    lemma_i32_le_round_trip(s.shards);
    assert(b.subrange(36, 40) =~= i32_le_bytes(s.replicas));
    lemma_i32_le_round_trip(s.replicas);
    assert(b.subrange(40, 44) =~= i32_le_bytes(s.bulk_concurrency));
    lemma_i32_le_round_trip(s.bulk_concurrency);
    assert(b.subrange(44, 48) =~= i32_le_bytes(s.batch_size));
    lemma_i32_le_round_trip(s.batch_size);
    assert(b[48] == h[48]);
}

/// A string field reads back as text only when its offset is non-zero, the
/// NUL-terminated span it addresses lies inside the block, and that span is
/// valid UTF-8; a non-zero offset that breaks either condition fails.
pub proof fn lemma_text_lies_in_block(b: Seq<u8>, f: StringField)
    ensures
        stored_text(b, f) matches Ok(Some(t)) ==> {
            let off = header_i32(b, f.slot()) as int;
            &&& off != 0
            &&& span_in_block(b, off)
            &&& valid_utf8(span(b, off))
            &&& t == decode_utf8(span(b, off))
        },
        ({
            let off = header_i32(b, f.slot()) as int;
            off != 0 && !(span_in_block(b, off) && valid_utf8(span(b, off)))
        }) ==> stored_text(b, f) is Err,
{
}

/// The block made for an index declared without options reads back as the
/// documented defaults: every string unset (so url, type name and refresh
/// interval take their default texts), the integers of `d`, llapi off.
pub proof fn lemma_defaults_read_back(d: DefaultOptions)
    ensures
        ({
            let b = d.spec_option_set().encoded();
            &&& text_or(stored_text(b, StringField::Url), DEFAULT_URL@) == Ok::<
                Seq<char>,
                OptionsError,
            >(DEFAULT_URL@)
            &&& text_or(stored_text(b, StringField::TypeName), DEFAULT_TYPE_NAME@) == Ok::<
                Seq<char>,
                OptionsError,
            >(DEFAULT_TYPE_NAME@)
            &&& text_or(stored_text(b, StringField::RefreshInterval), DEFAULT_REFRESH_INTERVAL@)
                == Ok::<Seq<char>, OptionsError>(DEFAULT_REFRESH_INTERVAL@)
            &&& stored_text(b, StringField::Alias) == Ok::<Option<Seq<char>>, OptionsError>(None)
            &&& stored_text(b, StringField::Uuid) == Ok::<Option<Seq<char>>, OptionsError>(None)
            &&& header_i32(b, OPTIMIZE_AFTER_AT as int) == d.optimize_after
            &&& header_i32(b, COMPRESSION_LEVEL_AT as int) == d.compression_level
            &&& header_i32(b, SHARDS_AT as int) == d.shards
            &&& header_i32(b, REPLICAS_AT as int) == d.replicas
            &&& header_i32(b, BULK_CONCURRENCY_AT as int) == d.bulk_concurrency
            &&& header_i32(b, BATCH_SIZE_AT as int) == d.batch_size
            &&& b[LLAPI_AT as int] == 0
        }),
{
    let s = d.spec_option_set();
    lemma_encoded_len(s);
    assert(s.valid());
    lemma_round_trip(s);
    assert(stored_text(s.encoded(), StringField::Url) == Ok::<Option<Seq<char>>, OptionsError>(s.text(StringField::Url)));
    assert(stored_text(s.encoded(), StringField::TypeName) == Ok::<Option<Seq<char>>, OptionsError>(s.text(StringField::TypeName)));
    assert(stored_text(s.encoded(), StringField::RefreshInterval) == Ok::<Option<Seq<char>>, OptionsError>(s.text(StringField::RefreshInterval)));
    assert(stored_text(s.encoded(), StringField::Alias) == Ok::<Option<Seq<char>>, OptionsError>(s.text(StringField::Alias)));
    assert(stored_text(s.encoded(), StringField::Uuid) == Ok::<Option<Seq<char>>, OptionsError>(s.text(StringField::Uuid)));
}

/// Alias and uuid are functions of the stored field and the identity: two
/// derivations over the same stored values and the same identity agree.
pub proof fn lemma_names_deterministic(
    b1: Seq<u8>,
    b2: Seq<u8>,
    id1: ResolvedIdentity,
    id2: ResolvedIdentity,
)
    requires
        stored_text(b1, StringField::Alias) == stored_text(b2, StringField::Alias),
        stored_text(b1, StringField::Uuid) == stored_text(b2, StringField::Uuid),
        id1.database_name@ == id2.database_name@,
        id1.namespace_name@ == id2.namespace_name@,
        id1.table_name@ == id2.table_name@,
        id1.index_name@ == id2.index_name@,
        id1.index_id == id2.index_id,
        id1.namespace_id == id2.namespace_id,
        id1.database_id == id2.database_id,
        id1.table_id == id2.table_id,
    ensures
        text_or(stored_text(b1, StringField::Alias), derived_alias(id1)) == text_or(
            stored_text(b2, StringField::Alias),
            derived_alias(id2),
        ),
        text_or(stored_text(b1, StringField::Uuid), derived_uuid(id1)) == text_or(
            stored_text(b2, StringField::Uuid),
            derived_uuid(id2),
        ),
{
}

/// An alias and a uuid that were set are read back verbatim, whatever the
/// identity: no name is derived for them.
pub proof fn lemma_explicit_names_kept(s: OptionSet, id: ResolvedIdentity)
    requires
        s.valid(),
    ensures
        s.alias matches Some(a) ==> text_or(
            stored_text(s.encoded(), StringField::Alias),
            derived_alias(id),
        ) == Ok::<Seq<char>, OptionsError>(a@),
        s.uuid matches Some(u) ==> text_or(stored_text(s.encoded(), StringField::Uuid), derived_uuid(id))
            == Ok::<Seq<char>, OptionsError>(u@),
{
    lemma_round_trip(s);
    assert(stored_text(s.encoded(), StringField::Alias) == Ok::<Option<Seq<char>>, OptionsError>(s.text(StringField::Alias)));
    assert(stored_text(s.encoded(), StringField::Uuid) == Ok::<Option<Seq<char>>, OptionsError>(s.text(StringField::Uuid)));
}

/// Placing parsed pairs leaves every option that no pair names as it was.
pub proof fn lemma_unnamed_option_kept(
    s: OptionSet,
    pairs: Seq<(OptionName, OptionValue)>,
    f: OptionName,
)
    requires
        forall|i: int| 0 <= i < pairs.len() ==> (#[trigger] pairs[i]).0 != f,
    ensures
        same_option(apply_pairs(s, pairs), s, f),
    decreases pairs.len(),
{
    if pairs.len() > 0 {
        let rest = pairs.drop_last();
        assert forall|i: int| 0 <= i < rest.len() implies (#[trigger] rest[i]).0 != f by {
            assert(rest[i] == pairs[i]);
        }
        lemma_unnamed_option_kept(s, rest, f);
        let p = pairs.last();
        assert(p == pairs[pairs.len() - 1]);
        let before = apply_pairs(s, rest);
        assert(same_option(apply_pair(before, p), before, f));
    }
}

/// An option that no parsed pair names is stored with its declared default:
/// an integer or llapi reads back as the default of `d`, and a string reads
/// back unset, so its accessor gives its default text or derived name.
pub proof fn lemma_omitted_options_take_defaults(
    d: DefaultOptions,
    pairs: Seq<(OptionName, OptionValue)>,
    f: OptionName,
)
    requires
        forall|i: int| 0 <= i < pairs.len() ==> (#[trigger] pairs[i]).0 != f,
        apply_pairs(d.spec_option_set(), pairs).valid(),
    ensures
        ({
            let s = apply_pairs(d.spec_option_set(), pairs);
            let b = s.encoded();
            &&& f.spec_int_default(d) matches Some(v) ==> header_i32(b, f.spec_header_offset()) == v
            &&& f == OptionName::Llapi ==> b[LLAPI_AT as int] == 0
            &&& f == OptionName::Url ==> stored_text(b, StringField::Url) == Ok::<Option<Seq<char>>, OptionsError>(None)
            &&& f == OptionName::TypeName ==> stored_text(b, StringField::TypeName) == Ok::<Option<Seq<char>>, OptionsError>(None)
            &&& f == OptionName::RefreshInterval ==> stored_text(b, StringField::RefreshInterval) == Ok::<Option<Seq<char>>, OptionsError>(None)
            &&& f == OptionName::Alias ==> stored_text(b, StringField::Alias) == Ok::<Option<Seq<char>>, OptionsError>(None)
            &&& f == OptionName::Uuid ==> stored_text(b, StringField::Uuid) == Ok::<Option<Seq<char>>, OptionsError>(None)
        }),
{
    let s = apply_pairs(d.spec_option_set(), pairs);
    lemma_unnamed_option_kept(d.spec_option_set(), pairs, f);
    lemma_round_trip(s);
    assert(stored_text(s.encoded(), StringField::Url) == Ok::<Option<Seq<char>>, OptionsError>(s.text(StringField::Url)));
    assert(stored_text(s.encoded(), StringField::TypeName) == Ok::<Option<Seq<char>>, OptionsError>(s.text(StringField::TypeName)));
    assert(stored_text(s.encoded(), StringField::RefreshInterval) == Ok::<Option<Seq<char>>, OptionsError>(s.text(StringField::RefreshInterval)));
    assert(stored_text(s.encoded(), StringField::Alias) == Ok::<Option<Seq<char>>, OptionsError>(s.text(StringField::Alias)));
    assert(stored_text(s.encoded(), StringField::Uuid) == Ok::<Option<Seq<char>>, OptionsError>(s.text(StringField::Uuid)));
}

} // verus!
