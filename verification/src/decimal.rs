//! Signed decimal numbers in text: the form in which a chat's Telegram
//! identifier is stored.

use vstd::prelude::*;
use vstd::string::StrSliceExecFns;

verus! {

/// Whether `c` is one of the ten ASCII digits.
pub open spec fn is_digit(c: char) -> bool {
    '0' <= c && c <= '9'
}

/// The number that the digit `c` stands for.
pub open spec fn digit_value(c: char) -> int {
    c as int - '0' as int
}

/// Whether `s` holds digits only.
pub open spec fn all_digits(s: Seq<char>) -> bool {
    forall|i: int| 0 <= i < s.len() ==> is_digit(#[trigger] s[i])
}

/// The number that the digits of `s` write in base ten, the empty text
/// standing for 0. Leading zeros do not count.
pub open spec fn decimal_value(s: Seq<char>) -> int
    decreases s.len(),
{
    if s.len() == 0 {
        0
    } else {
        10 * decimal_value(s.drop_last()) + digit_value(s.last())
    }
}

/// Whether `s` begins with a sign, `+` or `-`.
pub open spec fn has_sign(s: Seq<char>) -> bool {
    s.len() > 0 && (s[0] == '-' || s[0] == '+')
}

/// The digits of `s`: all of it but a leading sign.
pub open spec fn unsigned_part(s: Seq<char>) -> Seq<char> {
    if has_sign(s) {
        s.subrange(1, s.len() as int)
    } else {
        s
    }
}

/// The integer that `s` writes, before any limit of size: the value of its
/// digits, negated behind a `-`.
pub open spec fn signed_value(s: Seq<char>) -> int {
    if s.len() > 0 && s[0] == '-' {
        -decimal_value(unsigned_part(s))
    } else {
        decimal_value(unsigned_part(s))
    }
}

/// Whether `s` is a decimal integer: an optional sign and then at least one
/// digit, with nothing before, between or behind.
pub open spec fn is_decimal_integer(s: Seq<char>) -> bool {
    unsigned_part(s).len() > 0 && all_digits(unsigned_part(s))
}

/// What `s` parses to as a signed 64-bit integer: its value where it is a
/// decimal integer within the range of `i64`, else nothing.
pub open spec fn parse_i64_model(s: Seq<char>) -> Option<i64> {
    if is_decimal_integer(s) && i64::MIN <= signed_value(s) <= i64::MAX {
        Some(signed_value(s) as i64)
    } else {
        None
    }
}

/// Largest magnitude of an `i64`: that of `i64::MIN`.
pub const MAGNITUDE_LIMIT: u128 = 0x8000_0000_0000_0000u128;

/// Parses `s` as a signed 64-bit decimal integer.
pub fn parse_i64(s: &str) -> (parsed: Option<i64>)
    ensures
        parsed == parse_i64_model(s@),
{
    let total: usize = s.unicode_len();
    let mut seen: usize = 0;
    let mut negative: bool = false;
    let mut signed: bool = false;
    let mut magnitude: u128 = 0;
    let mut exceeded: bool = false;
    for c in it: s.chars()
        invariant
            it.seq() == s@,
            total == s@.len(),
            seen == it.index(),
            signed ==> seen >= 1,
            seen >= 1 ==> signed == has_sign(s@),
            seen >= 1 ==> negative == (s@[0] == '-'),
            seen == 0 ==> !signed && !negative && magnitude == 0 && !exceeded,
            all_digits(s@.subrange(if signed { 1int } else { 0int }, seen as int)),
            !exceeded ==> magnitude == decimal_value(
                s@.subrange(if signed { 1int } else { 0int }, seen as int),
            ),
            !exceeded ==> magnitude <= MAGNITUDE_LIMIT,
            exceeded ==> decimal_value(s@.subrange(if signed { 1int } else { 0int }, seen as int))
                > MAGNITUDE_LIMIT,
    {
        let ghost from: int = if signed { 1int } else { 0int };
        let ghost before: Seq<char> = s@.subrange(from, seen as int);
        if seen == 0 && (c == '-' || c == '+') {
            signed = true;
            negative = c == '-';
            assert(s@.subrange(1, 1) =~= Seq::<char>::empty());
        } else if c >= '0' && c <= '9' {
            let ghost after: Seq<char> = s@.subrange(from, seen + 1);
            assert(after.drop_last() =~= before);
            assert(after.last() == c);
            assert forall|i: int| 0 <= i < after.len() implies is_digit(#[trigger] after[i]) by {
                if i < before.len() {
                    assert(after[i] == before[i]);
                }
            }
            if !exceeded {
                let digit: u128 = (c as u32 - '0' as u32) as u128;
                magnitude = magnitude * 10 + digit;
                if magnitude > MAGNITUDE_LIMIT {
                    exceeded = true;
                }
            }
        } else {
            proof {
                let digits: Seq<char> = unsigned_part(s@);
                let at: int = seen as int - (if has_sign(s@) { 1int } else { 0int });
                if seen >= 1 {
                    assert(digits[at] == c);
                } else {
                    assert(!has_sign(s@));
                    assert(digits[0] == c);
                }
                assert(!is_digit(c));
                assert(!all_digits(digits));
            }
            return None;
        }
        seen = seen + 1;
    }
    proof {
        let from: int = if signed { 1int } else { 0int };
        if seen == 0 {
            assert(s@.len() == 0);
            assert(unsigned_part(s@).len() == 0);
        } else {
            assert(s@.subrange(from, seen as int) =~= unsigned_part(s@));
        }
    }
    let digits: usize = if signed { seen - 1 } else { seen };
    if digits == 0 || exceeded {
        None
    } else if negative {
        if magnitude == MAGNITUDE_LIMIT {
            Some(i64::MIN)
        } else {
            let positive: i64 = magnitude as i64;
            Some(-positive)
        }
    } else if magnitude == MAGNITUDE_LIMIT {
        None
    } else {
        Some(magnitude as i64)
    }
}

} // verus!
