//! Decimal byte-string to integer conversion, defaulting to zero.
//!
//! A buffer is read as an unsigned decimal number, with an optional leading
//! `+`; any other shape, and any value out of range, gives 0. This mirrors
//! the standard unsigned `from_str` behaviour with every failure collapsed
//! to the zero default.

use vstd::prelude::*;

verus! {

pub const PLUS: u8 = 43;
pub const DIGIT_ZERO: u8 = 48;

pub open spec fn is_digit(b: u8) -> bool {
    48 <= b <= 57
}

/// Numeric value of a digit string, most significant digit first.
pub open spec fn digits_value(s: Seq<u8>) -> nat
    decreases s.len(),
{
    if s.len() == 0 {
        0
    } else {
        digits_value(s.drop_last()) * 10 + (s.last() - DIGIT_ZERO) as nat
    }
}

/// The digits of a decimal string: everything after an optional leading `+`.
pub open spec fn decimal_body(s: Seq<u8>) -> Seq<u8> {
    if s.len() > 0 && s[0] == PLUS {
        s.skip(1)
    } else {
        s
    }
}

/// A nonempty all-digit body (after the optional sign).
pub open spec fn is_decimal_string(s: Seq<u8>) -> bool {
    &&& decimal_body(s).len() > 0
    &&& forall|i: int| 0 <= i < decimal_body(s).len() ==> is_digit(decimal_body(s)[i])
}

pub open spec fn spec_vecu8_to_u32(s: Seq<u8>) -> u32 {
    if is_decimal_string(s) && digits_value(decimal_body(s)) <= u32::MAX {
        digits_value(decimal_body(s)) as u32
    } else {
        0
    }
}

pub open spec fn spec_vecu8_to_u128(s: Seq<u8>) -> u128 {
    if is_decimal_string(s) && digits_value(decimal_body(s)) <= u128::MAX {
        digits_value(decimal_body(s)) as u128
    } else {
        0
    }
}

/// A digit-string prefix never exceeds the whole string's value.
proof fn lemma_digits_value_prefix(s: Seq<u8>, n: int)
    requires
        0 <= n <= s.len(),
    ensures
        digits_value(s.take(n)) <= digits_value(s),
    decreases s.len(),
{
    if n < s.len() {
        assert(s.drop_last().take(n) =~= s.take(n));
        lemma_digits_value_prefix(s.drop_last(), n);
    } else {
        assert(s.take(n) =~= s);
    }
}

/// Convert a decimal byte string to a `u32`, yielding 0 on any failure:
/// empty body, a non-digit byte, or overflow.
pub fn vecu8_to_u32(v: &Vec<u8>) -> (r: u32)
    ensures
        r == spec_vecu8_to_u32(v@),
{
    let mut start: usize = 0;
    if v.len() > 0 && v[0] == PLUS {
        start = 1;
    }
    if start >= v.len() {
        return 0;
    }
    let ghost body = decimal_body(v@);
    proof {
        assert(body =~= v@.subrange(start as int, v@.len() as int));
    }
    let mut acc: u32 = 0;
    let mut i = start;
    while i < v.len()
        invariant
            start <= i <= v@.len(),
            body == decimal_body(v@),
            body == v@.subrange(start as int, v@.len() as int),
            forall|t: int| 0 <= t < i - start ==> is_digit(body[t]),
            acc == digits_value(body.take(i - start)),
        decreases v.len() - i,
    {
        let b = v[i];
        if b < 48 || b > 57 {
            proof {
                assert(!is_digit(decimal_body(v@)[i - start]));
                assert(!is_decimal_string(v@));
            }
            return 0;
        }
        proof {
            assert(body.take(i - start + 1) =~= body.take(i - start).push(b));
            assert(body.take(i - start + 1).drop_last() =~= body.take(i - start));
            assert(digits_value(body.take(i - start + 1)) == digits_value(body.take(i - start))
                * 10 + (b - DIGIT_ZERO) as nat);
        }
        let wide: u64 = (acc as u64) * 10 + ((b - 48) as u64);
        if wide > u32::MAX as u64 {
            proof {
                lemma_digits_value_prefix(body, i - start + 1);
            }
            if all_digits(v, i + 1) {
                proof {
                    assert forall|t: int| 0 <= t < body.len() implies is_digit(
                        decimal_body(v@)[t],
                    ) by {
                        assert(body[t] == v@[t + start]);
                    }
                    assert(digits_value(decimal_body(v@)) > u32::MAX);
                }
                return 0;
            } else {
                proof {
                    assert(exists|t: int| i + 1 <= t < v@.len() && !is_digit(v@[t]));
                    let t = choose|t: int| i + 1 <= t < v@.len() && !is_digit(v@[t]);
                    assert(!is_digit(decimal_body(v@)[t - start]));
                    assert(!is_decimal_string(v@));
                }
                return 0;
            }
        }
        acc = wide as u32;
        i = i + 1;
    }
    proof {
        assert(body.take(v@.len() - start) =~= body);
    }
    acc
}

/// True when every byte of `v` from position `from` on is a decimal digit.
fn all_digits(v: &Vec<u8>, from: usize) -> (r: bool)
    ensures
        r == forall|t: int| from <= t < v@.len() ==> is_digit(v@[t]),
{
    let mut i = from;
    while i < v.len()
        invariant
            from <= i <= v@.len() || (from >= v@.len() && i == from),
            forall|t: int| from <= t < i ==> is_digit(v@[t]),
        decreases v.len() - i,
    {
        let b = v[i];
        if b < 48 || b > 57 {
            return false;
        }
        i = i + 1;
    }
    true
}

/// Convert a decimal byte string to a `u128`, yielding 0 on any failure.
pub fn vecu8_to_u128(v: &Vec<u8>) -> (r: u128)
    ensures
        r == spec_vecu8_to_u128(v@),
{
    let mut start: usize = 0;
    if v.len() > 0 && v[0] == PLUS {
        start = 1;
    }
    if start >= v.len() {
        return 0;
    }
    let ghost body = decimal_body(v@);
    proof {
        assert(body =~= v@.subrange(start as int, v@.len() as int));
    }
    let mut acc: u128 = 0;
    let mut i = start;
    while i < v.len()
        invariant
            start <= i <= v@.len(),
            body == decimal_body(v@),
            body == v@.subrange(start as int, v@.len() as int),
            forall|t: int| 0 <= t < i - start ==> is_digit(body[t]),
            acc == digits_value(body.take(i - start)),
        decreases v.len() - i,
    {
        let b = v[i];
        if b < 48 || b > 57 {
            proof {
                assert(!is_digit(decimal_body(v@)[i - start]));
                assert(!is_decimal_string(v@));
            }
            return 0;
        }
        proof {
            assert(body.take(i - start + 1) =~= body.take(i - start).push(b));
            assert(body.take(i - start + 1).drop_last() =~= body.take(i - start));
            assert(digits_value(body.take(i - start + 1)) == digits_value(body.take(i - start))
                * 10 + (b - DIGIT_ZERO) as nat);
        }
        let d = (b - 48) as u128;
        let overflow = acc > u128::MAX / 10 || (acc == u128::MAX / 10 && d > u128::MAX % 10);
        if overflow {
            proof {
                assert(acc * 10 + d > u128::MAX) by (nonlinear_arith)
                    requires
                        acc > u128::MAX / 10 || (acc == u128::MAX / 10 && d > u128::MAX % 10),
                        d >= 0,
                ;
                lemma_digits_value_prefix(body, i - start + 1);
            }
            if all_digits(v, i + 1) {
                proof {
                    assert forall|t: int| 0 <= t < body.len() implies is_digit(
                        decimal_body(v@)[t],
                    ) by {
                        assert(body[t] == v@[t + start]);
                    }
                    assert(digits_value(decimal_body(v@)) > u128::MAX);
                }
                return 0;
            } else {
                proof {
                    assert(exists|t: int| i + 1 <= t < v@.len() && !is_digit(v@[t]));
                    let t = choose|t: int| i + 1 <= t < v@.len() && !is_digit(v@[t]);
                    assert(!is_digit(decimal_body(v@)[t - start]));
                    assert(!is_decimal_string(v@));
                }
                return 0;
            }
        }
        proof {
            assert(acc * 10 + d <= u128::MAX) by (nonlinear_arith)
                requires
                    acc <= u128::MAX / 10,
                    !(acc == u128::MAX / 10 && d > u128::MAX % 10),
                    0 <= d <= 9,
            ;
        }
        acc = acc * 10 + d;
        i = i + 1;
    }
    proof {
        assert(body.take(v@.len() - start) =~= body);
    }
    acc
}

} // verus!
