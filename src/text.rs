use vstd::prelude::*;
use vstd::utf8::*;

verus! {

/// True when no character of `t` is NUL, so that `t` can be stored as a
/// NUL-terminated string.
pub open spec fn nul_free(t: Seq<char>) -> bool {
    forall|i: int| 0 <= i < t.len() ==> t[i] != '\0'
}

/// True when no byte of `b` is zero.
pub open spec fn no_zero_byte(b: Seq<u8>) -> bool {
    forall|i: int| 0 <= i < b.len() ==> b[i] != 0
}

proof fn lemma_scalar_bytes_nonzero(c: u32)
    requires
        is_scalar(c),
        c != 0,
    ensures
        no_zero_byte(encode_scalar(c)),
{
    if has_width_1_encoding(c) {
        assert(c <= 0x7f && c != 0 ==> (c & 0x7f) as u8 != 0) by (bit_vector);
    } else {
        assert((0xC0u8 | ((c >> 6u32) & 0x1Fu32) as u8) != 0u8) by (bit_vector);
        assert((0xE0u8 | ((c >> 12u32) & 0x0Fu32) as u8) != 0u8) by (bit_vector);
        assert((0xF0u8 | ((c >> 18u32) & 0x7u32) as u8) != 0u8) by (bit_vector);
        assert((0x80u8 | (c & 0x3Fu32) as u8) != 0u8) by (bit_vector);
        assert((0x80u8 | ((c >> 6u32) & 0x3Fu32) as u8) != 0u8) by (bit_vector);
        assert((0x80u8 | ((c >> 12u32) & 0x3Fu32) as u8) != 0u8) by (bit_vector);
    }
}

/// The UTF-8 encoding of a NUL-free text holds no zero byte.
pub proof fn lemma_encoding_has_no_zero(t: Seq<char>)
    requires
        nul_free(t),
    ensures
        no_zero_byte(encode_utf8(t)),
    decreases t.len(),
{
    if t.len() > 0 {
        let rest = t.drop_first();
        assert(nul_free(rest)) by {
            assert forall|i: int| 0 <= i < rest.len() implies rest[i] != '\0' by {
                assert(rest[i] == t[i + 1]);
            }
        }
        lemma_encoding_has_no_zero(rest);
        let c = t[0] as u32;
        char_is_scalar(t[0]);
        char_u32_cast(t[0], c);
        if c == 0 {
            assert((0u32 as char) == '\0');
        }
        lemma_scalar_bytes_nonzero(c);
        let head = encode_scalar(c);
        let tail = encode_utf8(rest);
        assert(encode_utf8(t) == head + tail);
        assert forall|i: int| 0 <= i < encode_utf8(t).len() implies encode_utf8(t)[i] != 0 by {
            if i < head.len() {
                assert(encode_utf8(t)[i] == head[i]);
            } else {
                assert(encode_utf8(t)[i] == tail[i - head.len()]);
            }
        }
    }
}

/// Relies on std's `String::from_utf8`: it succeeds exactly when the bytes are
/// valid UTF-8, and the string then holds the characters they encode.
#[verifier::external_body]
pub(crate) fn string_from_utf8(bytes: Vec<u8>) -> (r: Option<String>)
    ensures
        r is Some <==> valid_utf8(bytes@),
        r matches Some(s) ==> s@ == decode_utf8(bytes@),
{
    String::from_utf8(bytes).ok()
}

} // verus!
