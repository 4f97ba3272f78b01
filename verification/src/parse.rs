//! Decimal parsing for the protocol headers that carry numbers, such as
//! the deadline in milliseconds.

use vstd::prelude::*;
use vstd::string::StrSliceExecFns;

verus! {

/// Whether `c` is one of the ten decimal digits.
pub open spec fn is_dec_digit(c: char) -> bool {
    48 <= c as u32 <= 57
}

/// The numeric value of the digit `c`.
pub open spec fn dec_digit_val(c: char) -> nat {
    (c as u32 - 48) as nat
}

/// Whether every character of `s` is a decimal digit.
pub open spec fn all_dec_digits(s: Seq<char>) -> bool {
    forall|i: int| 0 <= i < s.len() ==> is_dec_digit(#[trigger] s[i])
}

/// The number written in `s`, read as base-ten digits.
pub open spec fn dec_val(s: Seq<char>) -> nat
    decreases s.len(),
{
    if s.len() == 0 {
        0
    } else {
        dec_val(s.drop_last()) * 10 + dec_digit_val(s.last())
    }
}

/// What a run of digits is worth: the value of a non-empty, all-digit
/// numeral that fits in a `u64`, and nothing otherwise.
pub open spec fn spec_parse_digits(s: Seq<char>) -> Option<u64> {
    if s.len() > 0 && all_dec_digits(s) && dec_val(s) <= u64::MAX {
        Some(dec_val(s) as u64)
    } else {
        None
    }
}

/// What `parse_u64` returns: a numeral with at most one leading plus
/// sign, worth what its digits are worth.
pub open spec fn spec_parse_u64(s: Seq<char>) -> Option<u64> {
    if s.len() > 0 && s[0] == '+' {
        spec_parse_digits(s.subrange(1, s.len() as int))
    } else {
        spec_parse_digits(s)
    }
}

/// Reading more digits never shrinks the value of a numeral.
proof fn lemma_dec_val_prefix_monotone(s: Seq<char>, i: int, j: int)
    requires
        0 <= i <= j <= s.len(),
    ensures
        dec_val(s.subrange(0, i)) <= dec_val(s.subrange(0, j)),
    decreases j - i,
{
    if i < j {
        lemma_dec_val_prefix_monotone(s, i, j - 1);
        assert(s.subrange(0, j).drop_last() =~= s.subrange(0, j - 1));
    }
}

/// Parses a base-ten `u64`: accepts exactly the non-empty strings of
/// decimal digits, with at most one leading plus sign, whose value
/// fits.
pub fn parse_u64(s: &str) -> (r: Option<u64>)
    ensures
        r == spec_parse_u64(s@),
{
    let len = s.unicode_len();
    if len > 0 && s.get_char(0) == '+' {
        parse_digits(s.substring_char(1, len))
    } else {
        parse_digits(s)
    }
}

/// Parses a run of digits.
fn parse_digits(s: &str) -> (r: Option<u64>)
    ensures
        r == spec_parse_digits(s@),
{
    let len = s.unicode_len();
    if len == 0 {
        return None;
    }
    let mut value: u64 = 0;
    let mut i: usize = 0;
    while i < len
        invariant
            0 < len,
            len == s@.len(),
            i <= len,
            all_dec_digits(s@.subrange(0, i as int)),
            value == dec_val(s@.subrange(0, i as int)),
        decreases len - i,
    {
        let c = s.get_char(i);
        let cu = c as u32;
        if cu < 48 || cu > 57 {
            proof {
                assert(!is_dec_digit(s@[i as int]));
                assert(!all_dec_digits(s@));
            }
            return None;
        }
        let d = (cu - 48) as u64;
        proof {
            assert(s@.subrange(0, i + 1).drop_last() =~= s@.subrange(0, i as int));
            assert(s@.subrange(0, i + 1).last() == s@[i as int]);
        }
        let widened = match value.checked_mul(10) {
            Some(v) => v.checked_add(d),
            None => None,
        };
        value = match widened {
            Some(v) => v,
            None => {
                proof {
                    assert(dec_val(s@.subrange(0, i + 1)) > u64::MAX);
                    if all_dec_digits(s@) {
                        lemma_dec_val_prefix_monotone(s@, i + 1, len as int);
                        assert(s@.subrange(0, len as int) =~= s@);
                    }
                }
                return None;
            },
        };
        i = i + 1;
    }
    proof {
        assert(s@.subrange(0, len as int) =~= s@);
    }
    Some(value)
}

} // verus!
