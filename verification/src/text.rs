//! Text tokens.
//!
//! A text field's token is the UTF-8 encoding of its characters. Such a
//! token can stand on the wire only when it contains no NUL byte, which for
//! UTF-8 is exactly: no character with code point zero.

use vstd::prelude::*;
use vstd::string::StrSliceExecFns;
use vstd::utf8::decode_utf8;
use vstd::utf8::encode_scalar;
use vstd::utf8::encode_utf8;
use vstd::utf8::has_width_1_encoding;
use vstd::utf8::has_width_2_encoding;
use vstd::utf8::has_width_3_encoding;
use vstd::utf8::is_scalar;
use vstd::utf8::valid_utf8;
use vstd::utf8::char_is_scalar;

use crate::token::nul_free;

verus! {

/// True when no character of `s` has code point zero, so that the UTF-8
/// encoding of `s` can stand as one wire token.
pub open spec fn text_nul_free(s: Seq<char>) -> bool {
    forall|i: int| 0 <= i < s.len() ==> (#[trigger] s[i]) as u32 != 0
}

proof fn lemma_encode_scalar_nul(u: u32)
    requires
        is_scalar(u),
    ensures
        u != 0 ==> nul_free(encode_scalar(u)),
        u == 0 ==> !nul_free(encode_scalar(u)),
{
    let e = encode_scalar(u);
    if has_width_1_encoding(u) {
        assert(e.len() == 1 && e[0] == (u & 0x7F) as u8);
        assert((u & 0x7F) as u8 == 0 <==> u == 0) by (bit_vector)
            requires
                u < 0x80,
        ;
        if u != 0 {
            assert(forall|i: int| 0 <= i < e.len() ==> e[i] != 0u8);
        }
    } else if has_width_2_encoding(u) {
        assert(e.len() == 2);
        assert(0xC0u8 | (((u >> 6) & 0x1F) as u8) != 0) by (bit_vector);
        assert(0x80u8 | ((u & 0x3F) as u8) != 0) by (bit_vector);
        assert(forall|i: int| 0 <= i < e.len() ==> e[i] != 0u8);
        assert(u != 0);
    } else if has_width_3_encoding(u) {
        assert(e.len() == 3);
        assert(0xE0u8 | (((u >> 12) & 0x0F) as u8) != 0) by (bit_vector);
        assert(0x80u8 | (((u >> 6) & 0x3F) as u8) != 0) by (bit_vector);
        assert(0x80u8 | ((u & 0x3F) as u8) != 0) by (bit_vector);
        assert(forall|i: int| 0 <= i < e.len() ==> e[i] != 0u8);
        assert(u != 0);
    } else {
        assert(e.len() == 4);
        assert(0xF0u8 | (((u >> 18) & 0x7) as u8) != 0) by (bit_vector);
        assert(0x80u8 | (((u >> 12) & 0x3F) as u8) != 0) by (bit_vector);
        assert(0x80u8 | (((u >> 6) & 0x3F) as u8) != 0) by (bit_vector);
        assert(0x80u8 | ((u & 0x3F) as u8) != 0) by (bit_vector);
        assert(forall|i: int| 0 <= i < e.len() ==> e[i] != 0u8);
        assert(u != 0);
    }
}

/// The UTF-8 encoding of a character sequence is NUL-free exactly when no
/// character has code point zero.
pub proof fn lemma_text_nul_free(s: Seq<char>)
    ensures
        text_nul_free(s) <==> nul_free(encode_utf8(s)),
    decreases s.len(),
{
    if s.len() > 0 {
        let u = s[0] as u32;
        char_is_scalar(s[0]);
        lemma_encode_scalar_nul(u);
        lemma_text_nul_free(s.drop_first());
        let head = encode_scalar(u);
        let tail = encode_utf8(s.drop_first());
        assert(encode_utf8(s) == head + tail);
        if text_nul_free(s) {
            assert(forall|i: int|
                0 <= i < s.drop_first().len() ==> (#[trigger] s.drop_first()[i]) as u32 != 0) by {
                assert(forall|i: int|
                    0 <= i < s.drop_first().len() ==> s.drop_first()[i] == s[i + 1]);
            }
            assert(forall|i: int| 0 <= i < (head + tail).len() ==> (head + tail)[i] != 0u8) by {
                assert(forall|i: int| 0 <= i < head.len() ==> (head + tail)[i] == head[i]);
                assert(forall|i: int|
                    head.len() <= i < (head + tail).len() ==> (head + tail)[i] == tail[i
                        - head.len()]);
            }
        }
        if nul_free(encode_utf8(s)) {
            assert(nul_free(head)) by {
                assert(forall|i: int| 0 <= i < head.len() ==> head[i] == (head + tail)[i]);
            }
            assert(nul_free(tail)) by {
                assert(forall|i: int| 0 <= i < tail.len() ==> tail[i] == (head + tail)[i
                    + head.len()]);
            }
            assert(u != 0);
            assert(forall|i: int| 0 <= i < s.len() ==> (#[trigger] s[i]) as u32 != 0) by {
                assert(forall|i: int| 1 <= i < s.len() ==> s[i] == s.drop_first()[i - 1]);
            }
        }
    }
}

/// Relies on `String::from_utf8` (std): it succeeds exactly on valid UTF-8
/// input and the returned string's characters are the decoding of the bytes.
#[verifier::external_body]
pub fn bytes_to_string(v: Vec<u8>) -> (r: Option<String>)
    ensures
        r is Some <==> valid_utf8(v@),
        r matches Some(s) ==> s@ == decode_utf8(v@),
{
    String::from_utf8(v).ok()
}

/// The UTF-8 bytes of a string, as a fresh vector.
pub fn string_bytes(s: &String) -> (r: Vec<u8>)
    ensures
        r@ == encode_utf8(s@),
{
    s.as_str().as_bytes_vec()
}

/// Whether the string can stand as one wire token, checked on its bytes.
pub fn string_token_ok(s: &String) -> (r: bool)
    ensures
        r == text_nul_free(s@),
{
    let bytes = s.as_str().as_bytes_vec();
    let mut i: usize = 0;
    let mut ok = true;
    while i < bytes.len()
        invariant
            0 <= i <= bytes@.len(),
            bytes@ == encode_utf8(s@),
            ok == (forall|j: int| 0 <= j < i ==> bytes@[j] != 0u8),
        decreases bytes@.len() - i,
    {
        if bytes[i] == 0 {
            ok = false;
        }
        i = i + 1;
    }
    proof {
        lemma_text_nul_free(s@);
    }
    ok
}

} // verus!
