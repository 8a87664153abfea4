//! The frame layer.
//!
//! One logical message travels as a 4-byte big-endian unsigned length
//! followed by exactly that many bytes of field-stream data. A frame is
//! fully buffered before decoding begins; a stream that ends before the
//! declared length is complete is truncated.

use vstd::prelude::*;

use crate::error::Error;

verus! {

/// The 4-byte big-endian encoding of a length.
pub open spec fn be32(n: u32) -> Seq<u8> {
    seq![(n >> 24) as u8, ((n >> 16) & 0xff) as u8, ((n >> 8) & 0xff) as u8, (n & 0xff) as u8]
}

/// The value of 4 big-endian bytes.
pub open spec fn be32_value(b0: u8, b1: u8, b2: u8, b3: u8) -> u32 {
    ((b0 as u32) << 24) | ((b1 as u32) << 16) | ((b2 as u32) << 8) | (b3 as u32)
}

/// The two big-endian views invert each other.
pub proof fn lemma_be32_value(n: u32)
    ensures
        be32_value(
            (n >> 24) as u8,
            ((n >> 16) & 0xff) as u8,
            ((n >> 8) & 0xff) as u8,
            (n & 0xff) as u8,
        ) == n,
{
    assert((((n >> 24) as u8 as u32) << 24) | ((((n >> 16) & 0xff) as u8 as u32) << 16) | ((((n
        >> 8) & 0xff) as u8 as u32) << 8) | ((n & 0xff) as u8 as u32) == n) by (bit_vector);
}

/// A whole frame: the length prefix followed by the body.
pub open spec fn spec_frame(body: Seq<u8>) -> Seq<u8>
    recommends
        body.len() <= u32::MAX,
{
    be32(body.len() as u32) + body
}

/// The frame at the front of a byte stream: its body and what follows it,
/// or nothing when the stream ends before the declared length is complete.
pub open spec fn spec_take_frame(s: Seq<u8>) -> Option<(Seq<u8>, Seq<u8>)> {
    if s.len() < 4 {
        None
    } else {
        let n = be32_value(s[0], s[1], s[2], s[3]) as int;
        if s.len() >= 4 + n {
            Some((s.subrange(4, 4 + n), s.skip(4 + n)))
        } else {
            None
        }
    }
}

/// Framing round trip: the frame built around any body is taken apart into
/// exactly that body, leaving exactly what followed the frame.
pub proof fn lemma_frame_round_trip(body: Seq<u8>, rest: Seq<u8>)
    requires
        body.len() <= u32::MAX,
    ensures
        spec_take_frame(spec_frame(body) + rest) == Some((body, rest)),
{
    let s = spec_frame(body) + rest;
    let n = body.len() as u32;
    assert(s[0] == (n >> 24) as u8 && s[1] == ((n >> 16) & 0xff) as u8 && s[2] == ((n >> 8)
        & 0xff) as u8 && s[3] == (n & 0xff) as u8);
    lemma_be32_value(n);
    assert(s.subrange(4, 4 + n as int) =~= body);
    assert(s.skip(4 + n as int) =~= rest);
}

/// Wraps one encoded message body in its length prefix.
///
/// The prefix always equals the exact byte length of the body.
pub fn encode_frame(body: &Vec<u8>) -> (r: Vec<u8>)
    requires
        body@.len() <= u32::MAX,
    ensures
        r@ == spec_frame(body@),
        r@.subrange(0, 4) == be32(body@.len() as u32),
        r@.skip(4) == body@,
{
    let n = body.len() as u32;
    let mut out: Vec<u8> = Vec::new();
    out.push((n >> 24) as u8);
    out.push(((n >> 16) & 0xff) as u8);
    out.push(((n >> 8) & 0xff) as u8);
    out.push((n & 0xff) as u8);
    let mut i: usize = 0;
    while i < body.len()
        invariant
            0 <= i <= body@.len(),
            out@ == be32(body@.len() as u32) + body@.take(i as int),
        decreases body@.len() - i,
    {
        out.push(body[i]);
        assert(out@ =~= be32(body@.len() as u32) + body@.take(i as int + 1));
        i = i + 1;
    }
    assert(out@ =~= spec_frame(body@)) by {
        assert(body@.take(body@.len() as int) =~= body@);
    }
    assert(out@.subrange(0, 4) =~= be32(body@.len() as u32));
    assert(out@.skip(4) =~= body@);
    out
}

/// Takes the frame starting at `start` out of a buffered byte stream.
///
/// Returns the frame body and the position just past it. Fails with
/// `Truncated` exactly when fewer bytes remain than the frame declares
/// (a prefix shorter than 4 bytes included).
pub fn take_frame(buf: &Vec<u8>, start: usize) -> (r: Result<(Vec<u8>, usize), Error>)
    requires
        start <= buf@.len(),
    ensures
        match spec_take_frame(buf@.skip(start as int)) {
            Some(p) => r matches Ok((body, next)) && body@ == p.0 && start < next <= buf@.len()
                && buf@.skip(next as int) == p.1 && next - start - 4 == body@.len(),
            None => r matches Err(e) && e is Truncated,
        },
{
    let ghost s = buf@.skip(start as int);
    if buf.len() - start < 4 {
        return Err(Error::Truncated);
    }
    let n = be32_value_exec(buf[start], buf[start + 1], buf[start + 2], buf[start + 3]);
    assert(s[0] == buf@[start as int] && s[1] == buf@[start as int + 1] && s[2] == buf@[start as int
        + 2] && s[3] == buf@[start as int + 3]);
    let avail = buf.len() - start - 4;
    if (n as u64) > (avail as u64) {
        return Err(Error::Truncated);
    }
    let body_start = start + 4;
    let body_end = body_start + (n as usize);
    let mut body: Vec<u8> = Vec::new();
    let mut i = body_start;
    while i < body_end
        invariant
            body_start <= i <= body_end,
            body_end <= buf@.len(),
            body@ == buf@.subrange(body_start as int, i as int),
        decreases body_end - i,
    {
        body.push(buf[i]);
        assert(body@ =~= buf@.subrange(body_start as int, i as int + 1));
        i = i + 1;
    }
    proof {
        let p = spec_take_frame(s).unwrap();
        assert(body@ =~= p.0);
        assert(buf@.skip(body_end as int) =~= p.1);
    }
    Ok((body, body_end))
}

/// The value of 4 big-endian bytes, in executable form.
pub fn be32_value_exec(b0: u8, b1: u8, b2: u8, b3: u8) -> (r: u32)
    ensures
        r == be32_value(b0, b1, b2, b3),
{
    ((b0 as u32) << 24) | ((b1 as u32) << 16) | ((b2 as u32) << 8) | (b3 as u32)
}

} // verus!
