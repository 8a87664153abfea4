//! The field-stream decoder.
//!
//! A `Deserializer` walks one fully-buffered field stream token by token.
//! Its abstract state is the byte sequence still to be read (the view); a
//! one-token lookahead buffer supports the peek-then-decide discipline that
//! optional fields need: a peeked token is either discarded (the sentinel
//! case) or replayed so the next read sees it again, and no token is ever
//! interpreted twice or skipped.

use vstd::prelude::*;
use vstd::utf8::decode_utf8;
use vstd::utf8::valid_utf8;

use crate::error::Error;
use crate::error::malformed;
use crate::frame;
use crate::num::dec_nat;
use crate::num::int_token_value;
use crate::num::is_int_token;
use crate::num::is_uint_token;
use crate::num::dec_value;
use crate::num::parse_i32;
use crate::num::parse_i64;
use crate::num::parse_u64;
use crate::token::head_token;
use crate::token::lemma_head_token_nul_free;
use crate::token::lemma_read_tok;
use crate::token::lemma_token_scan;
use crate::token::nul_free;
use crate::token::rest_after;
use crate::token::tok;
use crate::text::bytes_to_string;

verus! {

/// The front token of a stream and what follows it, or nothing on an
/// exhausted stream.
pub open spec fn spec_read_token(s: Seq<u8>) -> Option<(Seq<u8>, Seq<u8>)> {
    if s.len() == 0 {
        None
    } else {
        Some((head_token(s), rest_after(s)))
    }
}

/// Reads a signed 32-bit field: the front token as a decimal integer.
pub open spec fn spec_read_i32(s: Seq<u8>) -> Option<(i32, Seq<u8>)> {
    match spec_read_token(s) {
        Option::None => Option::None,
        Option::Some((t, rest)) => {
            if is_int_token(t) && i32::MIN <= int_token_value(t) <= i32::MAX {
                Option::Some((int_token_value(t) as i32, rest))
            } else {
                Option::None
            }
        },
    }
}

/// Reads a signed 64-bit field.
pub open spec fn spec_read_i64(s: Seq<u8>) -> Option<(i64, Seq<u8>)> {
    match spec_read_token(s) {
        Option::None => Option::None,
        Option::Some((t, rest)) => {
            if is_int_token(t) && i64::MIN <= int_token_value(t) <= i64::MAX {
                Option::Some((int_token_value(t) as i64, rest))
            } else {
                Option::None
            }
        },
    }
}

/// Reads an unsigned 64-bit field.
pub open spec fn spec_read_u64(s: Seq<u8>) -> Option<(u64, Seq<u8>)> {
    match spec_read_token(s) {
        Option::None => Option::None,
        Option::Some((t, rest)) => {
            if is_uint_token(t) && dec_value(t) <= u64::MAX {
                Option::Some((dec_value(t) as u64, rest))
            } else {
                Option::None
            }
        },
    }
}

/// Reads a boolean field: a nonzero integer token is true.
pub open spec fn spec_read_bool(s: Seq<u8>) -> Option<(bool, Seq<u8>)> {
    match spec_read_i32(s) {
        Option::None => Option::None,
        Option::Some((v, rest)) => Option::Some((v != 0, rest)),
    }
}

/// Reads a text field: the front token as UTF-8 characters.
pub open spec fn spec_read_text(s: Seq<u8>) -> Option<(Seq<char>, Seq<u8>)> {
    match spec_read_token(s) {
        Option::None => Option::None,
        Option::Some((t, rest)) => {
            if valid_utf8(t) {
                Option::Some((decode_utf8(t), rest))
            } else {
                Option::None
            }
        },
    }
}

/// Reads an element count for a sequence field.
pub open spec fn spec_read_count(s: Seq<u8>) -> Option<(usize, Seq<u8>)> {
    match spec_read_u64(s) {
        Option::None => Option::None,
        Option::Some((v, rest)) => {
            if v <= usize::MAX {
                Option::Some((v as usize, rest))
            } else {
                Option::None
            }
        },
    }
}

/// The sentinel token meaning "absent" for optional 32-bit integers.
pub open spec fn i32_sentinel() -> Seq<u8> {
    dec_nat(2147483647nat)
}

/// The sentinel token meaning "absent" for optional 64-bit integers.
pub open spec fn i64_sentinel() -> Seq<u8> {
    dec_nat(9223372036854775807nat)
}

/// The sentinel token meaning "absent" for optional double fields: the
/// decimal text of the largest double.
pub open spec fn dbl_sentinel() -> Seq<u8> {
    seq![49u8, 46u8, 55u8, 57u8, 55u8, 54u8, 57u8, 51u8, 49u8, 51u8, 52u8, 56u8, 54u8, 50u8, 51u8,
        49u8, 53u8, 55u8, 69u8, 51u8, 48u8, 56u8]
}

/// Reads an optional 32-bit integer: the sentinel token decodes to absent,
/// any other token must be an integer and decodes to present.
pub open spec fn spec_read_opt_i32(s: Seq<u8>) -> Option<(Option<i32>, Seq<u8>)> {
    match spec_read_token(s) {
        Option::None => Option::None,
        Option::Some((t, rest)) => {
            if t == i32_sentinel() {
                Option::Some((Option::None, rest))
            } else {
                match spec_read_i32(s) {
                    Option::None => Option::None,
                    Option::Some((v, r)) => Option::Some((Option::Some(v), r)),
                }
            }
        },
    }
}

/// Reads an optional 64-bit integer.
pub open spec fn spec_read_opt_i64(s: Seq<u8>) -> Option<(Option<i64>, Seq<u8>)> {
    match spec_read_token(s) {
        Option::None => Option::None,
        Option::Some((t, rest)) => {
            if t == i64_sentinel() {
                Option::Some((Option::None, rest))
            } else {
                match spec_read_i64(s) {
                    Option::None => Option::None,
                    Option::Some((v, r)) => Option::Some((Option::Some(v), r)),
                }
            }
        },
    }
}

/// Reads an optional text field: the empty token decodes to absent.
pub open spec fn spec_read_opt_text(s: Seq<u8>) -> Option<(Option<Seq<char>>, Seq<u8>)> {
    match spec_read_token(s) {
        Option::None => Option::None,
        Option::Some((t, rest)) => {
            if t.len() == 0 {
                Option::Some((Option::None, rest))
            } else {
                match spec_read_text(s) {
                    Option::None => Option::None,
                    Option::Some((v, r)) => Option::Some((Option::Some(v), r)),
                }
            }
        },
    }
}

/// Reads an optional double field, kept as its wire text: the double-max
/// sentinel decodes to absent, any other token to its (UTF-8) text.
pub open spec fn spec_read_opt_dbl(s: Seq<u8>) -> Option<(Option<Seq<char>>, Seq<u8>)> {
    match spec_read_token(s) {
        Option::None => Option::None,
        Option::Some((t, rest)) => {
            if t == dbl_sentinel() {
                Option::Some((Option::None, rest))
            } else {
                match spec_read_text(s) {
                    Option::None => Option::None,
                    Option::Some((v, r)) => Option::Some((Option::Some(v), r)),
                }
            }
        },
    }
}

/// Decodes one field stream. Each field, regardless of type, is one
/// NUL-terminated token.
pub struct Deserializer {
    buf: Vec<u8>,
    pos: usize,
    peeked: Option<Vec<u8>>,
}

impl View for Deserializer {
    type V = Seq<u8>;

    /// The bytes still to be read; a peeked token stands re-terminated at
    /// the front.
    closed spec fn view(&self) -> Seq<u8> {
        match self.peeked {
            Option::Some(t) => tok(t@) + self.buf@.skip(self.pos as int),
            Option::None => self.buf@.skip(self.pos as int),
        }
    }
}

impl Deserializer {
    /// The decoder's internal consistency: the read position is in bounds
    /// and a buffered lookahead token is NUL-free.
    pub closed spec fn wf(&self) -> bool {
        &&& self.pos <= self.buf@.len()
        &&& (self.peeked matches Option::Some(t) ==> nul_free(t@))
    }

    /// Whether a peeked token is buffered.
    pub closed spec fn has_peek(&self) -> bool {
        self.peeked is Some
    }

    /// A decoder over one fully-buffered field stream.
    pub fn new(buf: Vec<u8>) -> (r: Deserializer)
        ensures
            r.wf(),
            r@ == buf@,
            !r.has_peek(),
    {
        let ghost v = buf@;
        let r = Deserializer { buf, pos: 0, peeked: Option::None };
        assert(r@ =~= v);
        r
    }

    /// A decoder over the frame starting at `start` of a buffered stream,
    /// together with the position just past that frame.
    ///
    /// Fails with `Truncated` exactly when the stream ends before the
    /// frame's declared length is complete.
    pub fn new_v100plus(buf: &Vec<u8>, start: usize) -> (r: Result<(Deserializer, usize), Error>)
        requires
            start <= buf@.len(),
        ensures
            match frame::spec_take_frame(buf@.skip(start as int)) {
                Option::Some(p) => r matches Ok((d, next)) && d.wf() && !d.has_peek() && d@ == p.0
                    && start < next <= buf@.len() && buf@.skip(next as int) == p.1,
                Option::None => r matches Err(e) && e is Truncated,
            },
    {
        match frame::take_frame(buf, start) {
            Ok((body, next)) => Ok((Deserializer::new(body), next)),
            Err(e) => Err(e),
        }
    }

    /// Whether any bytes remain to be read.
    pub fn has_remaining(&self) -> (r: bool)
        requires
            self.wf(),
        ensures
            r == (self@.len() > 0),
    {
        match &self.peeked {
            Option::Some(_) => true,
            Option::None => self.pos < self.buf.len(),
        }
    }

    /// Reads one token: the bytes up to and including the next NUL, with the
    /// NUL stripped. A buffered peek is consumed instead, if present.
    ///
    /// Fails with `Truncated` exactly when the stream is exhausted.
    pub fn read_token(&mut self) -> (r: Result<Vec<u8>, Error>)
        requires
            old(self).wf(),
        ensures
            final(self).wf(),
            !final(self).has_peek(),
            match spec_read_token(old(self)@) {
                Option::Some((t, rest)) => r matches Ok(v) && v@ == t && final(self)@ == rest
                    && nul_free(t),
                Option::None => (r matches Err(e) && e is Truncated) && final(self)@ == old(
                    self,
                )@,
            },
    {
        let ghost s = self@;
        match self.peeked.take() {
            Option::Some(t) => {
                proof {
                    lemma_read_tok(t@, self.buf@.skip(self.pos as int));
                }
                Ok(t)
            },
            Option::None => {
                let n = self.buf.len();
                if self.pos == n {
                    assert(self@ =~= s);
                    return Err(Error::Truncated);
                }
                let start = self.pos;
                let mut i = start;
                while i < n && *self.buf.get(i).unwrap() != 0u8
                    invariant
                        start <= i <= n,
                        n == self.buf@.len(),
                        forall|j: int| start <= j < i ==> self.buf@[j] != 0u8,
                    decreases n - i,
                {
                    i = i + 1;
                }
                proof {
                    lemma_token_scan(s, i - start as int);
                    lemma_head_token_nul_free(s);
                }
                if i < n {
                    let t = copy_range(&self.buf, start, i);
                    self.pos = i + 1;
                    assert(t@ =~= s.take(i - start as int));
                    assert(self.buf@.skip(self.pos as int) =~= s.skip(i - start as int + 1));
                    Ok(t)
                } else {
                    let t = copy_range(&self.buf, start, n - 1);
                    self.pos = n;
                    assert(t@ =~= s.take(s.len() - 1));
                    assert(self.buf@.skip(self.pos as int) =~= Seq::<u8>::empty());
                    Ok(t)
                }
            },
        }
    }

    /// Replays an already-read token so the next read sees it again.
    pub fn unread(&mut self, t: Vec<u8>)
        requires
            old(self).wf(),
            !old(self).has_peek(),
            nul_free(t@),
        ensures
            final(self).wf(),
            final(self).has_peek(),
            final(self)@ == tok(t@) + old(self)@,
    {
        self.peeked = Option::Some(t);
    }

    /// Reads one token ahead without consuming it: the returned bytes are
    /// the front token, and the stream still reads the same afterwards.
    pub fn peek(&mut self) -> (r: Result<Vec<u8>, Error>)
        requires
            old(self).wf(),
        ensures
            final(self).wf(),
            match spec_read_token(old(self)@) {
                Option::Some((t, rest)) => r matches Ok(v) && v@ == t && final(self).has_peek()
                    && final(self)@ == tok(t) + rest && spec_read_token(final(self)@)
                    == spec_read_token(old(self)@),
                Option::None => (r matches Err(e) && e is Truncated) && final(self)@ == old(
                    self,
                )@,
            },
    {
        let ghost s = self@;
        match self.read_token() {
            Err(e) => Err(e),
            Ok(t) => {
                let copy = copy_range(&t, 0, t.len());
                assert(copy@ =~= t@);
                proof {
                    lemma_read_tok(t@, rest_after(s));
                }
                self.unread(t);
                Ok(copy)
            },
        }
    }

    /// Drops a buffered peeked token, accepting it as consumed.
    pub fn discard_peek(&mut self)
        requires
            old(self).wf(),
            old(self).has_peek(),
        ensures
            final(self).wf(),
            !final(self).has_peek(),
            final(self)@ == rest_after(old(self)@),
    {
        proof {
            let t = self.peeked->Some_0;
            lemma_read_tok(t@, self.buf@.skip(self.pos as int));
        }
        self.peeked = Option::None;
    }

    /// Reads a signed 32-bit integer field.
    pub fn read_i32(&mut self) -> (r: Result<i32, Error>)
        requires
            old(self).wf(),
        ensures
            final(self).wf(),
            match spec_read_i32(old(self)@) {
                Option::Some((v, rest)) => r matches Ok(x) && x == v && final(self)@ == rest,
                Option::None => r is Err,
            },
            old(self)@.len() == 0 ==> (r matches Err(e) && e is Truncated),
            old(self)@.len() > 0 && spec_read_i32(old(self)@) is None ==> (r matches Err(e)
                && e is Malformed),
    {
        match self.read_token() {
            Err(e) => Err(e),
            Ok(t) => match parse_i32(&t) {
                Option::Some(v) => Ok(v),
                Option::None => Err(malformed("a 32-bit integer", t)),
            },
        }
    }

    /// Reads a signed 64-bit integer field.
    pub fn read_i64(&mut self) -> (r: Result<i64, Error>)
        requires
            old(self).wf(),
        ensures
            final(self).wf(),
            match spec_read_i64(old(self)@) {
                Option::Some((v, rest)) => r matches Ok(x) && x == v && final(self)@ == rest,
                Option::None => r is Err,
            },
            old(self)@.len() == 0 ==> (r matches Err(e) && e is Truncated),
            old(self)@.len() > 0 && spec_read_i64(old(self)@) is None ==> (r matches Err(e)
                && e is Malformed),
    {
        match self.read_token() {
            Err(e) => Err(e),
            Ok(t) => match parse_i64(&t) {
                Option::Some(v) => Ok(v),
                Option::None => Err(malformed("a 64-bit integer", t)),
            },
        }
    }

    /// Reads an unsigned 64-bit integer field.
    pub fn read_u64(&mut self) -> (r: Result<u64, Error>)
        requires
            old(self).wf(),
        ensures
            final(self).wf(),
            match spec_read_u64(old(self)@) {
                Option::Some((v, rest)) => r matches Ok(x) && x == v && final(self)@ == rest,
                Option::None => r is Err,
            },
            old(self)@.len() == 0 ==> (r matches Err(e) && e is Truncated),
            old(self)@.len() > 0 && spec_read_u64(old(self)@) is None ==> (r matches Err(e)
                && e is Malformed),
    {
        match self.read_token() {
            Err(e) => Err(e),
            Ok(t) => match parse_u64(&t) {
                Option::Some(v) => {
                    proof {
                        crate::num::lemma_dec_value_nonneg(t@);
                    }
                    Ok(v)
                },
                Option::None => Err(malformed("an unsigned integer", t)),
            },
        }
    }

    /// Reads a boolean field: a nonzero integer token is true.
    pub fn read_bool(&mut self) -> (r: Result<bool, Error>)
        requires
            old(self).wf(),
        ensures
            final(self).wf(),
            match spec_read_bool(old(self)@) {
                Option::Some((v, rest)) => r matches Ok(x) && x == v && final(self)@ == rest,
                Option::None => r is Err,
            },
            old(self)@.len() == 0 ==> (r matches Err(e) && e is Truncated),
    {
        match self.read_i32() {
            Err(e) => Err(e),
            Ok(v) => Ok(v != 0),
        }
    }

    /// Reads a text field as a `String`; the token must be valid UTF-8.
    pub fn read_text(&mut self) -> (r: Result<String, Error>)
        requires
            old(self).wf(),
        ensures
            final(self).wf(),
            match spec_read_text(old(self)@) {
                Option::Some((v, rest)) => r matches Ok(x) && x@ == v && final(self)@ == rest,
                Option::None => r is Err,
            },
            old(self)@.len() == 0 ==> (r matches Err(e) && e is Truncated),
            old(self)@.len() > 0 && spec_read_text(old(self)@) is None ==> (r matches Err(e)
                && e is Malformed),
    {
        match self.read_token() {
            Err(e) => Err(e),
            Ok(t) => {
                let raw = copy_range(&t, 0, t.len());
                match bytes_to_string(t) {
                    Option::Some(s) => Ok(s),
                    Option::None => Err(malformed("utf-8 text", raw)),
                }
            },
        }
    }

    /// Reads an element count for a sequence field.
    pub fn read_count(&mut self) -> (r: Result<usize, Error>)
        requires
            old(self).wf(),
        ensures
            final(self).wf(),
            match spec_read_count(old(self)@) {
                Option::Some((v, rest)) => r matches Ok(x) && x == v && final(self)@ == rest,
                Option::None => r is Err,
            },
            old(self)@.len() == 0 ==> (r matches Err(e) && e is Truncated),
    {
        match self.read_u64() {
            Err(e) => Err(e),
            Ok(v) => {
                if v <= usize::MAX as u64 {
                    Ok(v as usize)
                } else {
                    let empty: Vec<u8> = Vec::new();
                    Err(malformed("a count in range", empty))
                }
            },
        }
    }

    /// Reads an optional 32-bit integer by the peek-then-decide discipline:
    /// the `2147483647` sentinel is absent, anything else replays into a
    /// normal integer read.
    pub fn read_opt_i32(&mut self) -> (r: Result<Option<i32>, Error>)
        requires
            old(self).wf(),
        ensures
            final(self).wf(),
            match spec_read_opt_i32(old(self)@) {
                Option::Some((v, rest)) => r matches Ok(x) && x == v && final(self)@ == rest,
                Option::None => r is Err,
            },
            old(self)@.len() == 0 ==> (r matches Err(e) && e is Truncated),
    {
        let ghost s = self@;
        match self.read_token() {
            Err(e) => Err(e),
            Ok(t) => {
                let sent = fmt_u64_exec(2147483647u64);
                if bytes_eq(&t, &sent) {
                    Ok(Option::None)
                } else {
                    proof {
                        lemma_read_tok(t@, rest_after(s));
                    }
                    self.unread(t);
                    match self.read_i32() {
                        Err(e) => Err(e),
                        Ok(v) => Ok(Option::Some(v)),
                    }
                }
            },
        }
    }

    /// Reads an optional 64-bit integer (sentinel `9223372036854775807`).
    pub fn read_opt_i64(&mut self) -> (r: Result<Option<i64>, Error>)
        requires
            old(self).wf(),
        ensures
            final(self).wf(),
            match spec_read_opt_i64(old(self)@) {
                Option::Some((v, rest)) => r matches Ok(x) && x == v && final(self)@ == rest,
                Option::None => r is Err,
            },
            old(self)@.len() == 0 ==> (r matches Err(e) && e is Truncated),
    {
        let ghost s = self@;
        match self.read_token() {
            Err(e) => Err(e),
            Ok(t) => {
                let sent = fmt_u64_exec(9223372036854775807u64);
                if bytes_eq(&t, &sent) {
                    Ok(Option::None)
                } else {
                    proof {
                        lemma_read_tok(t@, rest_after(s));
                    }
                    self.unread(t);
                    match self.read_i64() {
                        Err(e) => Err(e),
                        Ok(v) => Ok(Option::Some(v)),
                    }
                }
            },
        }
    }

    /// Reads an optional text field (the empty token is absent).
    pub fn read_opt_text(&mut self) -> (r: Result<Option<String>, Error>)
        requires
            old(self).wf(),
        ensures
            final(self).wf(),
            match spec_read_opt_text(old(self)@) {
                Option::Some((v, rest)) => r matches Ok(x) && final(self)@ == rest && (match v {
                    Option::Some(c) => x matches Some(xs) && xs@ == c,
                    Option::None => x is None,
                }),
                Option::None => r is Err,
            },
            old(self)@.len() == 0 ==> (r matches Err(e) && e is Truncated),
    {
        let ghost s = self@;
        match self.read_token() {
            Err(e) => Err(e),
            Ok(t) => {
                if t.len() == 0 {
                    Ok(Option::None)
                } else {
                    proof {
                        lemma_read_tok(t@, rest_after(s));
                    }
                    self.unread(t);
                    match self.read_text() {
                        Err(e) => Err(e),
                        Ok(v) => Ok(Option::Some(v)),
                    }
                }
            },
        }
    }

    /// Reads an optional double field, kept as its wire text (the double-max
    /// sentinel is absent).
    pub fn read_opt_dbl(&mut self) -> (r: Result<Option<String>, Error>)
        requires
            old(self).wf(),
        ensures
            final(self).wf(),
            match spec_read_opt_dbl(old(self)@) {
                Option::Some((v, rest)) => r matches Ok(x) && final(self)@ == rest && (match v {
                    Option::Some(c) => x matches Some(xs) && xs@ == c,
                    Option::None => x is None,
                }),
                Option::None => r is Err,
            },
            old(self)@.len() == 0 ==> (r matches Err(e) && e is Truncated),
    {
        let ghost s = self@;
        match self.read_token() {
            Err(e) => Err(e),
            Ok(t) => {
                let sent = dbl_sentinel_bytes();
                if bytes_eq(&t, &sent) {
                    Ok(Option::None)
                } else {
                    proof {
                        lemma_read_tok(t@, rest_after(s));
                    }
                    self.unread(t);
                    match self.read_text() {
                        Err(e) => Err(e),
                        Ok(v) => Ok(Option::Some(v)),
                    }
                }
            },
        }
    }
}

/// A fresh copy of `v[from..to]`.
pub fn copy_range(v: &Vec<u8>, from: usize, to: usize) -> (r: Vec<u8>)
    requires
        from <= to <= v@.len(),
    ensures
        r@ == v@.subrange(from as int, to as int),
{
    let mut out: Vec<u8> = Vec::new();
    let mut i = from;
    while i < to
        invariant
            from <= i <= to <= v@.len(),
            out@ == v@.subrange(from as int, i as int),
        decreases to - i,
    {
        out.push(v[i]);
        assert(out@ =~= v@.subrange(from as int, i as int + 1));
        i = i + 1;
    }
    out
}

/// Whether two byte vectors hold the same bytes.
pub fn bytes_eq(a: &Vec<u8>, b: &Vec<u8>) -> (r: bool)
    ensures
        r == (a@ == b@),
{
    if a.len() != b.len() {
        assert(a@ != b@);
        return false;
    }
    let mut i: usize = 0;
    while i < a.len()
        invariant
            0 <= i <= a@.len(),
            a@.len() == b@.len(),
            forall|j: int| 0 <= j < i ==> a@[j] == b@[j],
        decreases a@.len() - i,
    {
        if a[i] != b[i] {
            return false;
        }
        i = i + 1;
    }
    assert(a@ =~= b@);
    true
}

/// The canonical decimal bytes of `n` (executable form of `dec_nat`).
pub fn fmt_u64_exec(n: u64) -> (r: Vec<u8>)
    ensures
        r@ == dec_nat(n as nat),
{
    crate::num::fmt_u64(n)
}

/// The double-max sentinel token, in executable form.
pub fn dbl_sentinel_bytes() -> (r: Vec<u8>)
    ensures
        r@ == dbl_sentinel(),
{
    let mut v: Vec<u8> = Vec::new();
    v.push(49);
    v.push(46);
    v.push(55);
    v.push(57);
    v.push(55);
    v.push(54);
    v.push(57);
    v.push(51);
    v.push(49);
    v.push(51);
    v.push(52);
    v.push(56);
    v.push(54);
    v.push(50);
    v.push(51);
    v.push(49);
    v.push(53);
    v.push(55);
    v.push(69);
    v.push(51);
    v.push(48);
    v.push(56);
    assert(v@ =~= dbl_sentinel());
    v
}

} // verus!
