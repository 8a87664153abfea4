//! Decimal integer tokens.
//!
//! Integer fields travel as decimal ASCII text: an optional leading minus
//! sign followed by one or more digits. `dec_nat` / `dec_int` give the
//! canonical text of a value; `dec_value` / `int_token_value` give the value
//! of a text. Parsing accepts any digit string (leading zeros included)
//! whose value fits the target type; formatting emits the canonical form.

use vstd::prelude::*;
use vstd::arithmetic::div_mod::lemma_fundamental_div_mod;

use crate::token::nul_free;

verus! {

/// ASCII decimal digit.
pub open spec fn is_digit(b: u8) -> bool {
    48 <= b <= 57
}

/// The digit byte for a value below ten.
pub open spec fn digit_byte(d: nat) -> u8
    recommends
        d < 10,
{
    (48 + d) as u8
}

/// Canonical decimal text of a natural number (no sign, no leading zeros).
pub open spec fn dec_nat(n: nat) -> Seq<u8>
    decreases n,
{
    if n < 10 {
        seq![digit_byte(n)]
    } else {
        dec_nat(n / 10) + seq![digit_byte(n % 10)]
    }
}

/// Canonical decimal text of an integer: a minus sign for negatives.
pub open spec fn dec_int(i: int) -> Seq<u8> {
    if i < 0 {
        seq![45u8] + dec_nat((-i) as nat)
    } else {
        dec_nat(i as nat)
    }
}

pub open spec fn all_digits(t: Seq<u8>) -> bool {
    forall|i: int| 0 <= i < t.len() ==> is_digit(t[i])
}

/// A token that parses as an unsigned integer: one or more digits.
pub open spec fn is_uint_token(t: Seq<u8>) -> bool {
    t.len() > 0 && all_digits(t)
}

/// A token that parses as a signed integer: digits, optionally after a minus.
pub open spec fn is_int_token(t: Seq<u8>) -> bool {
    is_uint_token(t) || (t.len() > 1 && t[0] == 45u8 && all_digits(t.drop_first()))
}

/// The value of a digit string.
pub open spec fn dec_value(t: Seq<u8>) -> int
    decreases t.len(),
{
    if t.len() == 0 {
        0
    } else {
        dec_value(t.drop_last()) * 10 + t.last() - 48
    }
}

/// The value of a signed integer token.
pub open spec fn int_token_value(t: Seq<u8>) -> int {
    if t.len() > 0 && t[0] == 45u8 {
        -dec_value(t.drop_first())
    } else {
        dec_value(t)
    }
}

/// Digit strings have non-negative value.
pub proof fn lemma_dec_value_nonneg(t: Seq<u8>)
    requires
        all_digits(t),
    ensures
        dec_value(t) >= 0,
    decreases t.len(),
{
    if t.len() > 0 {
        assert(all_digits(t.drop_last()));
        lemma_dec_value_nonneg(t.drop_last());
    }
}

/// A digit string's value never shrinks as more digits are appended.
pub proof fn lemma_dec_value_prefix(t: Seq<u8>, j: int)
    requires
        all_digits(t),
        0 <= j <= t.len(),
    ensures
        dec_value(t) >= dec_value(t.take(j)),
    decreases t.len() - j,
{
    if j < t.len() {
        lemma_dec_value_prefix(t, j + 1);
        let p = t.take(j + 1);
        assert(p.drop_last() =~= t.take(j));
        assert(all_digits(t.take(j)));
        lemma_dec_value_nonneg(t.take(j));
        assert(dec_value(p) == dec_value(t.take(j)) * 10 + t[j] - 48);
    } else {
        assert(t.take(j) =~= t);
    }
}

/// Canonical decimal text is made of digits.
pub proof fn lemma_dec_nat_digits(n: nat)
    ensures
        is_uint_token(dec_nat(n)),
        nul_free(dec_nat(n)),
    decreases n,
{
    if n >= 10 {
        lemma_dec_nat_digits(n / 10);
    }
}

/// Formatting then evaluating a natural number gives it back.
pub proof fn lemma_dec_nat_value(n: nat)
    ensures
        dec_value(dec_nat(n)) == n,
    decreases n,
{
    if n < 10 {
        let t = dec_nat(n);
        assert(t.drop_last() =~= Seq::<u8>::empty());
        assert(dec_value(t) == dec_value(t.drop_last()) * 10 + t.last() - 48);
    } else {
        lemma_dec_nat_value(n / 10);
        let t = dec_nat(n);
        assert(t.drop_last() =~= dec_nat(n / 10));
        assert(t.last() == digit_byte(n % 10));
        lemma_fundamental_div_mod(n as int, 10);
    }
}

/// Formatting then evaluating an integer gives it back.
pub proof fn lemma_dec_int_value(i: int)
    ensures
        is_int_token(dec_int(i)),
        int_token_value(dec_int(i)) == i,
        nul_free(dec_int(i)),
{
    if i < 0 {
        let t = dec_int(i);
        lemma_dec_nat_digits((-i) as nat);
        lemma_dec_nat_value((-i) as nat);
        assert(t.drop_first() =~= dec_nat((-i) as nat));
        assert(t[0] == 45u8);
    } else {
        lemma_dec_nat_digits(i as nat);
        lemma_dec_nat_value(i as nat);
        let t = dec_int(i);
        assert(t[0] != 45u8) by {
            lemma_dec_nat_digits(i as nat);
            assert(is_digit(t[0]));
        }
    }
}

/// Ten to the `k`.
pub open spec fn pow10(k: nat) -> nat
    decreases k,
{
    if k == 0 {
        1
    } else {
        10 * pow10((k - 1) as nat)
    }
}

/// A number below ten to the `k` has at most `k` digits.
pub proof fn lemma_dec_nat_len(n: nat, k: nat)
    requires
        1 <= k,
        n < pow10(k),
    ensures
        dec_nat(n).len() <= k,
    decreases n,
{
    if n >= 10 {
        assert(k >= 2) by {
            reveal_with_fuel(pow10, 3);
            if k == 1 {
                assert(pow10(1nat) == 10);
            }
        }
        assert(pow10(k) == 10 * pow10((k - 1) as nat));
        assert(n / 10 < pow10((k - 1) as nat)) by (nonlinear_arith)
            requires
                n < 10 * pow10((k - 1) as nat),
                n >= 10,
        ;
        lemma_dec_nat_len(n / 10, (k - 1) as nat);
    }
}

/// A 64-bit value has at most twenty digits.
pub proof fn lemma_dec_u64_len(n: u64)
    ensures
        dec_nat(n as nat).len() <= 20,
{
    assert(pow10(20nat) == 100000000000000000000nat) by {
        reveal_with_fuel(pow10, 21);
    }
    lemma_dec_nat_len(n as nat, 20nat);
}

/// A signed 64-bit value's text has at most twenty-one bytes.
pub proof fn lemma_dec_i64_len(i: i64)
    ensures
        dec_int(i as int).len() <= 21,
{
    assert(pow10(20nat) == 100000000000000000000nat) by {
        reveal_with_fuel(pow10, 21);
    }
    if i < 0 {
        lemma_dec_nat_len((-(i as int)) as nat, 20nat);
    } else {
        lemma_dec_nat_len(i as nat, 20nat);
    }
}

/// Appends the canonical decimal text of `n` to `out`.
pub fn push_dec_u64(n: u64, out: &mut Vec<u8>)
    ensures
        final(out)@ == old(out)@ + dec_nat(n as nat),
    decreases n,
{
    if n < 10 {
        out.push(48 + (n as u8));
        assert(final(out)@ =~= old(out)@ + dec_nat(n as nat));
    } else {
        assert(n / 10 < n) by (nonlinear_arith)
            requires
                n >= 10,
        ;
        push_dec_u64(n / 10, out);
        let d = (n % 10) as u8;
        out.push(48 + d);
        assert(final(out)@ =~= old(out)@ + dec_nat(n as nat));
    }
}

/// The canonical decimal text of an unsigned value.
pub fn fmt_u64(n: u64) -> (r: Vec<u8>)
    ensures
        r@ == dec_nat(n as nat),
{
    let mut out: Vec<u8> = Vec::new();
    push_dec_u64(n, &mut out);
    assert(out@ =~= dec_nat(n as nat));
    out
}

/// Appends the canonical decimal text of a signed value to `out`.
pub fn push_dec_i64(n: i64, out: &mut Vec<u8>)
    ensures
        final(out)@ == old(out)@ + dec_int(n as int),
{
    if n >= 0 {
        push_dec_u64(n as u64, out);
    } else {
        out.push(45u8);
        let mag: u64 = (-(n + 1)) as u64 + 1;
        assert(mag == -(n as int));
        push_dec_u64(mag, out);
        assert(final(out)@ =~= old(out)@ + dec_int(n as int));
    }
}

/// Parses a digit string into an unsigned value.
///
/// Succeeds exactly on one-or-more digits whose value fits in the type.
pub fn parse_u64(t: &Vec<u8>) -> (r: Option<u64>)
    ensures
        r is Some <==> is_uint_token(t@) && dec_value(t@) <= u64::MAX,
        r matches Some(v) ==> v == dec_value(t@),
{
    if t.len() == 0 {
        return None;
    }
    let mut acc: u64 = 0;
    let mut i: usize = 0;
    while i < t.len()
        invariant
            0 <= i <= t@.len(),
            all_digits(t@.take(i as int)),
            acc == dec_value(t@.take(i as int)),
        decreases t@.len() - i,
    {
        let b = t[i];
        if b < 48 || b > 57 {
            assert(!is_digit(t@[i as int]));
            return None;
        }
        let d = b - 48;
        proof {
            lemma_dec_value_nonneg(t@.take(i as int));
        }
        if acc > (u64::MAX - (d as u64)) / 10 {
            proof {
                let p = t@.take(i as int + 1);
                assert(p.drop_last() =~= t@.take(i as int));
                assert(dec_value(p) == acc * 10 + d);
                assert(acc * 10 + d > u64::MAX) by (nonlinear_arith)
                    requires
                        acc > (u64::MAX - (d as u64)) / 10,
                        0 <= d <= 9,
                ;
                if i as int + 1 <= t@.len() && all_digits(t@) {
                    lemma_dec_value_prefix(t@, i as int + 1);
                }
            }
            return None;
        }
        assert(acc * 10 + d <= u64::MAX) by (nonlinear_arith)
            requires
                acc <= (u64::MAX - (d as u64)) / 10,
                0 <= d <= 9,
        ;
        let prev = acc;
        acc = acc * 10 + (d as u64);
        proof {
            let p = t@.take(i as int + 1);
            assert(p.drop_last() =~= t@.take(i as int));
            assert(p.last() == b);
            assert(acc == dec_value(p));
        }
        i = i + 1;
    }
    proof {
        assert(t@.take(t@.len() as int) =~= t@);
    }
    Some(acc)
}

/// Parses a signed integer token: optional minus sign, then digits.
///
/// Succeeds exactly on tokens whose value fits in `i64`.
pub fn parse_i64(t: &Vec<u8>) -> (r: Option<i64>)
    ensures
        r is Some <==> is_int_token(t@) && i64::MIN <= int_token_value(t@) <= i64::MAX,
        r matches Some(v) ==> v == int_token_value(t@),
{
    if t.len() >= 1 && t[0] == 45u8 {
        let mut digits: Vec<u8> = Vec::new();
        let mut i: usize = 1;
        while i < t.len()
            invariant
                1 <= i <= t@.len(),
                t@.len() >= 1,
                digits@ == t@.subrange(1, i as int),
            decreases t@.len() - i,
        {
            digits.push(t[i]);
            assert(digits@ =~= t@.subrange(1, i as int + 1));
            i = i + 1;
        }
        assert(digits@ =~= t@.drop_first());
        match parse_u64(&digits) {
            None => {
                proof {
                    if is_int_token(t@) && i64::MIN <= int_token_value(t@) {
                        assert(is_uint_token(t@.drop_first()));
                        assert(dec_value(t@.drop_first()) <= u64::MAX);
                    }
                }
                None
            },
            Some(mag) => {
                if mag > 9223372036854775808u64 {
                    assert(int_token_value(t@) < i64::MIN);
                    None
                } else if mag == 9223372036854775808u64 {
                    Some(i64::MIN)
                } else {
                    Some(-(mag as i64))
                }
            },
        }
    } else {
        match parse_u64(t) {
            None => {
                proof {
                    if is_int_token(t@) {
                        assert(is_uint_token(t@));
                        if int_token_value(t@) <= i64::MAX {
                            assert(dec_value(t@) <= u64::MAX);
                        }
                    }
                }
                None
            },
            Some(v) => {
                if v > i64::MAX as u64 {
                    None
                } else {
                    Some(v as i64)
                }
            },
        }
    }
}

/// Parses a signed integer token whose value fits in `i32`.
pub fn parse_i32(t: &Vec<u8>) -> (r: Option<i32>)
    ensures
        r is Some <==> is_int_token(t@) && i32::MIN <= int_token_value(t@) <= i32::MAX,
        r matches Some(v) ==> v == int_token_value(t@),
{
    match parse_i64(t) {
        None => None,
        Some(v) => {
            if v < i32::MIN as i64 || v > i32::MAX as i64 {
                None
            } else {
                Some(v as i32)
            }
        },
    }
}

} // verus!
