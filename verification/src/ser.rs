//! The field-stream encoder.
//!
//! Encoding appends one token per field, in schema order: the value's text
//! followed by a NUL. An absent optional field is its type's sentinel token.
//! Encoding is total on well-formed values (NUL-free text, sentinel values
//! excluded from optional-present fields) and never fails.
//!
//! The `lemma_rt_*` proofs state the scalar round trips: reading back what
//! was written yields the written value and leaves the rest of the stream.

use vstd::prelude::*;
use vstd::utf8::encode_utf8;
use vstd::utf8::encode_utf8_valid_utf8;
use vstd::utf8::encode_utf8_decode_utf8;

use crate::de::dbl_sentinel;
use crate::de::i32_sentinel;
use crate::de::i64_sentinel;
use crate::de::spec_read_bool;
use crate::de::spec_read_count;
use crate::de::spec_read_i32;
use crate::de::spec_read_i64;
use crate::de::spec_read_opt_dbl;
use crate::de::spec_read_opt_i32;
use crate::de::spec_read_opt_i64;
use crate::de::spec_read_opt_text;
use crate::de::spec_read_text;
use crate::de::spec_read_u64;
use crate::de::dbl_sentinel_bytes;
use crate::de::fmt_u64_exec;
use crate::num::dec_int;
use crate::num::dec_nat;
use crate::num::int_token_value;
use crate::num::lemma_dec_int_value;
use crate::num::lemma_dec_nat_digits;
use crate::num::lemma_dec_nat_value;
use crate::num::push_dec_i64;
use crate::num::push_dec_u64;
use crate::text::lemma_text_nul_free;
use crate::text::string_bytes;
use crate::text::text_nul_free;
use crate::token::lemma_read_tok;
use crate::token::nul_free;
use crate::token::tok;

verus! {

/// The token of a signed 32-bit field.
pub open spec fn spec_write_i32(v: i32) -> Seq<u8> {
    tok(dec_int(v as int))
}

/// The token of a signed 64-bit field.
pub open spec fn spec_write_i64(v: i64) -> Seq<u8> {
    tok(dec_int(v as int))
}

/// The token of an unsigned 64-bit field.
pub open spec fn spec_write_u64(v: u64) -> Seq<u8> {
    tok(dec_nat(v as nat))
}

/// The token of a boolean field: `1` or `0`.
pub open spec fn spec_write_bool(v: bool) -> Seq<u8> {
    tok(dec_nat(if v { 1nat } else { 0nat }))
}

/// The token of a text field: its UTF-8 bytes.
pub open spec fn spec_write_text(s: Seq<char>) -> Seq<u8> {
    tok(encode_utf8(s))
}

/// The token of an optional 32-bit field: the sentinel when absent.
pub open spec fn spec_write_opt_i32(v: Option<i32>) -> Seq<u8> {
    match v {
        Option::None => tok(i32_sentinel()),
        Option::Some(x) => spec_write_i32(x),
    }
}

/// The token of an optional 64-bit field.
pub open spec fn spec_write_opt_i64(v: Option<i64>) -> Seq<u8> {
    match v {
        Option::None => tok(i64_sentinel()),
        Option::Some(x) => spec_write_i64(x),
    }
}

/// The token of an optional text field: empty when absent.
pub open spec fn spec_write_opt_text(v: Option<Seq<char>>) -> Seq<u8> {
    match v {
        Option::None => tok(Seq::empty()),
        Option::Some(s) => spec_write_text(s),
    }
}

/// The token of an optional double field kept as wire text: the double-max
/// sentinel when absent.
pub open spec fn spec_write_opt_dbl(v: Option<Seq<char>>) -> Seq<u8> {
    match v {
        Option::None => tok(dbl_sentinel()),
        Option::Some(s) => spec_write_text(s),
    }
}

/// A well-formed present text value: NUL-free, so it can stand as a token.
pub open spec fn text_ok(s: Seq<char>) -> bool {
    text_nul_free(s)
}

/// Encodes one field stream into a byte sink.
pub struct Serializer {
    out: Vec<u8>,
}

impl View for Serializer {
    type V = Seq<u8>;

    /// The bytes written so far.
    closed spec fn view(&self) -> Seq<u8> {
        self.out@
    }
}

impl Serializer {
    /// An empty sink.
    pub fn new() -> (r: Serializer)
        ensures
            r@ == Seq::<u8>::empty(),
    {
        let r = Serializer { out: Vec::new() };
        assert(r@ =~= Seq::<u8>::empty());
        r
    }

    /// The bytes written.
    pub fn into_bytes(self) -> (r: Vec<u8>)
        ensures
            r@ == self@,
    {
        self.out
    }

    /// Appends one raw token: the bytes followed by the NUL terminator.
    pub fn write_token(&mut self, t: &Vec<u8>)
        requires
            nul_free(t@),
        ensures
            final(self)@ == old(self)@ + tok(t@),
    {
        let mut i: usize = 0;
        while i < t.len()
            invariant
                0 <= i <= t@.len(),
                self.out@ == old(self)@ + t@.take(i as int),
            decreases t@.len() - i,
        {
            self.out.push(t[i]);
            assert(self.out@ =~= old(self)@ + t@.take(i as int + 1));
            i = i + 1;
        }
        self.out.push(0u8);
        assert(self.out@ =~= old(self)@ + tok(t@)) by {
            assert(t@.take(t@.len() as int) =~= t@);
        }
    }

    /// Writes a signed 32-bit field.
    pub fn write_i32(&mut self, v: i32)
        ensures
            final(self)@ == old(self)@ + spec_write_i32(v),
    {
        push_dec_i64(v as i64, &mut self.out);
        self.out.push(0u8);
        assert(self.out@ =~= old(self)@ + spec_write_i32(v));
    }

    /// Writes a signed 64-bit field.
    pub fn write_i64(&mut self, v: i64)
        ensures
            final(self)@ == old(self)@ + spec_write_i64(v),
    {
        push_dec_i64(v, &mut self.out);
        self.out.push(0u8);
        assert(self.out@ =~= old(self)@ + spec_write_i64(v));
    }

    /// Writes an unsigned 64-bit field.
    pub fn write_u64(&mut self, v: u64)
        ensures
            final(self)@ == old(self)@ + spec_write_u64(v),
    {
        push_dec_u64(v, &mut self.out);
        self.out.push(0u8);
        assert(self.out@ =~= old(self)@ + spec_write_u64(v));
    }

    /// Writes a boolean field as `1` or `0`.
    pub fn write_bool(&mut self, v: bool)
        ensures
            final(self)@ == old(self)@ + spec_write_bool(v),
    {
        self.write_u64(if v { 1u64 } else { 0u64 });
    }

    /// Writes a text field; the text must be NUL-free.
    pub fn write_str(&mut self, s: &String)
        requires
            text_ok(s@),
        ensures
            final(self)@ == old(self)@ + spec_write_text(s@),
    {
        let bytes = string_bytes(s);
        proof {
            lemma_text_nul_free(s@);
        }
        self.write_token(&bytes);
    }

    /// Writes an optional 32-bit field: the sentinel when absent.
    pub fn write_opt_i32(&mut self, v: &Option<i32>)
        ensures
            final(self)@ == old(self)@ + spec_write_opt_i32(*v),
    {
        match v {
            Option::None => {
                let sent = fmt_u64_exec(2147483647u64);
                proof {
                    lemma_dec_nat_digits(2147483647nat);
                }
                self.write_token(&sent);
            },
            Option::Some(x) => self.write_i32(*x),
        }
    }

    /// Writes an optional 64-bit field: the sentinel when absent.
    pub fn write_opt_i64(&mut self, v: &Option<i64>)
        ensures
            final(self)@ == old(self)@ + spec_write_opt_i64(*v),
    {
        match v {
            Option::None => {
                let sent = fmt_u64_exec(9223372036854775807u64);
                proof {
                    lemma_dec_nat_digits(9223372036854775807nat);
                }
                self.write_token(&sent);
            },
            Option::Some(x) => self.write_i64(*x),
        }
    }

    /// Writes an optional text field: the empty token when absent.
    pub fn write_opt_text(&mut self, v: &Option<String>)
        requires
            v matches Some(s) ==> text_ok(s@),
        ensures
            final(self)@ == old(self)@ + spec_write_opt_text(match *v {
                Option::Some(ref s) => Option::Some(s@),
                Option::None => Option::None,
            }),
    {
        match v {
            Option::None => {
                let empty: Vec<u8> = Vec::new();
                self.write_token(&empty);
                assert(self@ =~= old(self)@ + tok(Seq::empty()));
            },
            Option::Some(s) => self.write_str(s),
        }
    }

    /// Writes an optional double field kept as wire text: the double-max
    /// sentinel when absent.
    pub fn write_opt_dbl(&mut self, v: &Option<String>)
        requires
            v matches Some(s) ==> text_ok(s@),
        ensures
            final(self)@ == old(self)@ + spec_write_opt_dbl(match *v {
                Option::Some(ref s) => Option::Some(s@),
                Option::None => Option::None,
            }),
    {
        match v {
            Option::None => {
                let sent = dbl_sentinel_bytes();
                self.write_token(&sent);
            },
            Option::Some(s) => self.write_str(s),
        }
    }
}

/// Round trip of signed 32-bit fields.
pub proof fn lemma_rt_i32(v: i32, rest: Seq<u8>)
    ensures
        spec_read_i32(spec_write_i32(v) + rest) == Some((v, rest)),
{
    lemma_dec_int_value(v as int);
    lemma_read_tok(dec_int(v as int), rest);
}

/// Round trip of signed 64-bit fields.
pub proof fn lemma_rt_i64(v: i64, rest: Seq<u8>)
    ensures
        spec_read_i64(spec_write_i64(v) + rest) == Some((v, rest)),
{
    lemma_dec_int_value(v as int);
    lemma_read_tok(dec_int(v as int), rest);
}

/// Round trip of unsigned 64-bit fields.
pub proof fn lemma_rt_u64(v: u64, rest: Seq<u8>)
    ensures
        spec_read_u64(spec_write_u64(v) + rest) == Some((v, rest)),
{
    lemma_dec_nat_digits(v as nat);
    lemma_dec_nat_value(v as nat);
    lemma_read_tok(dec_nat(v as nat), rest);
}

/// Round trip of boolean fields.
pub proof fn lemma_rt_bool(v: bool, rest: Seq<u8>)
    ensures
        spec_read_bool(spec_write_bool(v) + rest) == Some((v, rest)),
{
    let n: nat = if v {
        1nat
    } else {
        0nat
    };
    lemma_dec_nat_digits(n);
    lemma_dec_nat_value(n);
    lemma_read_tok(dec_nat(n), rest);
    let t = dec_nat(n);
    assert(t[0] != 45u8);
    assert(int_token_value(t) == n);
}

/// Round trip of element counts.
pub proof fn lemma_rt_count(n: usize, rest: Seq<u8>)
    ensures
        spec_read_count(spec_write_u64(n as u64) + rest) == Some((n, rest)),
{
    lemma_rt_u64(n as u64, rest);
}

/// Round trip of text fields, for any NUL-free text.
pub proof fn lemma_rt_text(s: Seq<char>, rest: Seq<u8>)
    requires
        text_ok(s),
    ensures
        spec_read_text(spec_write_text(s) + rest) == Some((s, rest)),
{
    lemma_text_nul_free(s);
    lemma_read_tok(encode_utf8(s), rest);
    encode_utf8_valid_utf8(s);
    encode_utf8_decode_utf8(s);
}

/// The value of the 32-bit sentinel token.
pub proof fn lemma_i32_sentinel_value()
    ensures
        int_token_value(i32_sentinel()) == i32::MAX as int,
        nul_free(i32_sentinel()),
{
    lemma_dec_nat_digits(2147483647nat);
    lemma_dec_nat_value(2147483647nat);
    assert(i32_sentinel()[0] != 45u8);
}

/// The value of the 64-bit sentinel token.
pub proof fn lemma_i64_sentinel_value()
    ensures
        int_token_value(i64_sentinel()) == i64::MAX as int,
        nul_free(i64_sentinel()),
{
    lemma_dec_nat_digits(9223372036854775807nat);
    lemma_dec_nat_value(9223372036854775807nat);
    assert(i64_sentinel()[0] != 45u8);
}

/// Sentinel fidelity and round trip of optional 32-bit fields: an absent
/// value travels as the `2147483647` sentinel and comes back absent; any
/// other value comes back as itself. The sentinel value itself cannot stand
/// as a present value.
pub proof fn lemma_rt_opt_i32(v: Option<i32>, rest: Seq<u8>)
    requires
        v != Some(i32::MAX),
    ensures
        spec_read_opt_i32(spec_write_opt_i32(v) + rest) == Some((v, rest)),
{
    lemma_i32_sentinel_value();
    match v {
        Option::None => {
            lemma_read_tok(i32_sentinel(), rest);
        },
        Option::Some(x) => {
            lemma_dec_int_value(x as int);
            lemma_read_tok(dec_int(x as int), rest);
            assert(dec_int(x as int) != i32_sentinel()) by {
                if dec_int(x as int) == i32_sentinel() {
                    assert(int_token_value(dec_int(x as int)) == x as int);
                }
            }
            lemma_rt_i32(x, rest);
        },
    }
}

/// Round trip of optional 64-bit fields.
pub proof fn lemma_rt_opt_i64(v: Option<i64>, rest: Seq<u8>)
    requires
        v != Some(i64::MAX),
    ensures
        spec_read_opt_i64(spec_write_opt_i64(v) + rest) == Some((v, rest)),
{
    lemma_i64_sentinel_value();
    match v {
        Option::None => {
            lemma_read_tok(i64_sentinel(), rest);
        },
        Option::Some(x) => {
            lemma_dec_int_value(x as int);
            lemma_read_tok(dec_int(x as int), rest);
            assert(dec_int(x as int) != i64_sentinel()) by {
                if dec_int(x as int) == i64_sentinel() {
                    assert(int_token_value(dec_int(x as int)) == x as int);
                }
            }
            lemma_rt_i64(x, rest);
        },
    }
}

/// Nonempty text encodes to a nonempty token.
pub proof fn lemma_encode_utf8_nonempty(s: Seq<char>)
    requires
        s.len() > 0,
    ensures
        encode_utf8(s).len() > 0,
{
    vstd::utf8::char_is_scalar(s[0]);
}

/// Round trip of optional text fields: absent travels as the empty token,
/// so a present value must be nonempty (and NUL-free).
pub proof fn lemma_rt_opt_text(v: Option<Seq<char>>, rest: Seq<u8>)
    requires
        v matches Some(s) ==> text_ok(s) && s.len() > 0,
    ensures
        spec_read_opt_text(spec_write_opt_text(v) + rest) == Some((v, rest)),
{
    match v {
        Option::None => {
            lemma_read_tok(Seq::empty(), rest);
            assert(spec_write_opt_text(v) + rest =~= tok(Seq::empty()) + rest);
        },
        Option::Some(s) => {
            lemma_text_nul_free(s);
            lemma_read_tok(encode_utf8(s), rest);
            lemma_encode_utf8_nonempty(s);
            lemma_rt_text(s, rest);
        },
    }
}

/// Round trip of optional double fields kept as wire text: a present value
/// must differ from the double-max sentinel text.
pub proof fn lemma_rt_opt_dbl(v: Option<Seq<char>>, rest: Seq<u8>)
    requires
        v matches Some(s) ==> text_ok(s) && encode_utf8(s) != dbl_sentinel(),
    ensures
        spec_read_opt_dbl(spec_write_opt_dbl(v) + rest) == Some((v, rest)),
{
    assert(nul_free(dbl_sentinel()));
    match v {
        Option::None => {
            lemma_read_tok(dbl_sentinel(), rest);
        },
        Option::Some(s) => {
            lemma_text_nul_free(s);
            lemma_read_tok(encode_utf8(s), rest);
            lemma_rt_text(s, rest);
        },
    }
}

} // verus!
