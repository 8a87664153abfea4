//! The token layer of the wire protocol.
//!
//! Every field on the wire is one token: the bytes of its textual form,
//! terminated by a NUL byte. Reading a token takes the bytes up to and
//! including the first NUL and strips the NUL; if the input holds no NUL at
//! all, everything but the last byte is taken (the terminator position is
//! consumed either way) and the input is exhausted.

use vstd::prelude::*;

verus! {

/// True when a byte sequence contains no NUL, so it can stand as one token.
pub open spec fn nul_free(t: Seq<u8>) -> bool {
    forall|i: int| 0 <= i < t.len() ==> t[i] != 0u8
}

/// The token at the front of a byte stream: the bytes before the first NUL,
/// or all but the last byte when no NUL occurs.
pub open spec fn head_token(s: Seq<u8>) -> Seq<u8>
    decreases s.len(),
{
    if s.len() == 0 {
        Seq::empty()
    } else if s[0] == 0u8 {
        Seq::empty()
    } else if s.len() == 1 {
        Seq::empty()
    } else {
        seq![s[0]] + head_token(s.drop_first())
    }
}

/// What remains of a byte stream once its front token and the terminator
/// position are consumed.
pub open spec fn rest_after(s: Seq<u8>) -> Seq<u8>
    decreases s.len(),
{
    if s.len() == 0 {
        Seq::empty()
    } else if s[0] == 0u8 {
        s.drop_first()
    } else if s.len() == 1 {
        Seq::empty()
    } else {
        rest_after(s.drop_first())
    }
}

/// One encoded token: its bytes followed by the NUL terminator.
pub open spec fn tok(t: Seq<u8>) -> Seq<u8> {
    t + seq![0u8]
}

/// Reading the front token of `tok(t) + rest` gives back exactly `t` and
/// leaves exactly `rest`, for any NUL-free `t`.
pub proof fn lemma_read_tok(t: Seq<u8>, rest: Seq<u8>)
    requires
        nul_free(t),
    ensures
        head_token(tok(t) + rest) == t,
        rest_after(tok(t) + rest) == rest,
    decreases t.len(),
{
    let s = tok(t) + rest;
    if t.len() == 0 {
        assert(s[0] == 0u8);
        assert(s.drop_first() =~= rest);
        assert(head_token(s) =~= t);
    } else {
        assert(s[0] == t[0]);
        assert(s[0] != 0u8);
        assert(s.len() >= 2);
        assert(s.drop_first() =~= tok(t.drop_first()) + rest);
        lemma_read_tok(t.drop_first(), rest);
        assert(head_token(s) =~= seq![t[0]] + t.drop_first());
        assert(seq![t[0]] + t.drop_first() =~= t);
    }
}

/// A head token never contains a NUL byte.
pub proof fn lemma_head_token_nul_free(s: Seq<u8>)
    ensures
        nul_free(head_token(s)),
    decreases s.len(),
{
    if s.len() > 1 && s[0] != 0u8 {
        lemma_head_token_nul_free(s.drop_first());
    }
}

/// Where the first `k` bytes of `s` are nonzero and byte `k` is the first NUL
/// (or `k` is the end of the stream), the front token is `s[..k]`, and the
/// remainder is what follows the NUL, or nothing when the stream ran out.
pub proof fn lemma_token_scan(s: Seq<u8>, k: int)
    requires
        0 <= k <= s.len(),
        forall|i: int| 0 <= i < k ==> s[i] != 0u8,
        k < s.len() ==> s[k] == 0u8,
        s.len() > 0,
    ensures
        k < s.len() ==> head_token(s) == s.take(k) && rest_after(s) == s.skip(k + 1),
        k == s.len() ==> head_token(s) == s.take(s.len() - 1) && rest_after(s) == Seq::<
            u8,
        >::empty(),
    decreases s.len(),
{
    if s[0] == 0u8 {
        assert(k == 0);
        assert(head_token(s) =~= s.take(0));
        assert(rest_after(s) =~= s.skip(1));
    } else if s.len() == 1 {
        assert(k == 1);
        assert(head_token(s) =~= s.take(0));
    } else {
        lemma_token_scan(s.drop_first(), k - 1);
        if k < s.len() {
            assert(s.drop_first().take(k - 1) =~= s.take(k).drop_first());
            assert(head_token(s) =~= seq![s[0]] + s.take(k).drop_first());
            assert(seq![s[0]] + s.take(k).drop_first() =~= s.take(k));
            assert(s.drop_first().skip(k) =~= s.skip(k + 1));
        } else {
            assert(s.drop_first().take(s.len() - 2) =~= s.take(s.len() - 1).drop_first());
            assert(head_token(s) =~= seq![s[0]] + s.take(s.len() - 1).drop_first());
            assert(seq![s[0]] + s.take(s.len() - 1).drop_first() =~= s.take(s.len() - 1));
        }
    }
}

} // verus!
