//! Interpretation of stored configuration values. Fetching the raw strings
//! is the caller's business; turning them into usable values, with the
//! documented fallback to a default, is decided here.
use vstd::prelude::*;

verus! {

use vstd::string::*;

/// An ASCII decimal digit.
pub open spec fn is_dec_digit_char(c: char) -> bool {
    48 <= c as int && c as int <= 57
}

/// The numeric value of a decimal digit character.
pub open spec fn digit_value(c: char) -> int {
    c as int - 48
}

/// The value of a digit string, most significant digit first.
pub open spec fn spec_digits_value(s: Seq<char>) -> int
    decreases s.len(),
{
    if s.len() == 0 {
        0
    } else {
        spec_digits_value(s.drop_last()) * 10 + digit_value(s.last())
    }
}

/// Every character is a decimal digit.
pub open spec fn all_dec_digits(s: Seq<char>) -> bool {
    forall|i: int| 0 <= i < s.len() ==> is_dec_digit_char(s[i])
}

/// The digit part of a decimal spelling: everything after an optional
/// leading plus sign.
pub open spec fn spec_digits_of(s: Seq<char>) -> Seq<char> {
    if s.len() > 0 && s[0] == '+' {
        s.drop_first()
    } else {
        s
    }
}

/// What an unsigned decimal parse accepts: an optional leading plus sign,
/// then at least one digit and nothing else, with a value that fits.
pub open spec fn spec_parse_u64(s: Seq<char>) -> Option<int> {
    if spec_digits_of(s).len() > 0 && all_dec_digits(spec_digits_of(s)) && spec_digits_value(
        spec_digits_of(s),
    ) <= u64::MAX {
        Some(spec_digits_value(spec_digits_of(s)))
    } else {
        None
    }
}

proof fn lemma_digits_value_nonneg(s: Seq<char>)
    requires
        forall|i: int| 0 <= i < s.len() ==> is_dec_digit_char(s[i]),
    ensures
        spec_digits_value(s) >= 0,
    decreases s.len(),
{
    if s.len() > 0 {
        lemma_digits_value_nonneg(s.drop_last());
    }
}

/// Parses an unsigned decimal value: an optional leading plus sign, then
/// digits only; anything else, or a value past the integer limit, is
/// rejected.
pub fn parse_u64(s: &str) -> (r: Option<u64>)
    ensures
        r matches Some(v) ==> spec_parse_u64(s@) == Some(v as int),
        r is None ==> spec_parse_u64(s@) is None,
{
    let n = s.unicode_len();
    let start: usize = if n > 0 && s.get_char(0) == '+' {
        1
    } else {
        0
    };
    let ghost digits = spec_digits_of(s@);
    proof {
        assert(digits.len() == n - start);
        assert(forall|k: int| 0 <= k < digits.len() ==> digits[k] == s@[k + start]);
    }
    if start == n {
        return None;
    }
    let mut acc: u64 = 0;
    let mut overflow = false;
    let mut i: usize = start;
    while i < n
        invariant
            start <= i <= n,
            n == s@.len(),
            start == 1 ==> n > 0 && s@[0] == '+',
            start == 0 ==> !(n > 0 && s@[0] == '+'),
            digits == spec_digits_of(s@),
            digits.len() == n - start,
            forall|k: int| 0 <= k < digits.len() ==> digits[k] == s@[k + start],
            forall|k: int| 0 <= k < i - start ==> is_dec_digit_char(digits[k]),
            !overflow ==> acc == spec_digits_value(digits.subrange(0, i - start)),
            overflow ==> spec_digits_value(digits.subrange(0, i - start)) > u64::MAX,
        decreases n - i,
    {
        let c = s.get_char(i);
        let code = c as u32;
        if code < 48 || code > 57 {
            proof {
                assert(digits[i - start] == c);
                assert(!all_dec_digits(spec_digits_of(s@)));
            }
            return None;
        }
        let d: u64 = (code - 48) as u64;
        let ghost prefix = digits.subrange(0, i - start);
        let ghost prefix_next = digits.subrange(0, i - start + 1);
        proof {
            assert(prefix_next.drop_last() =~= prefix);
            assert(prefix_next.last() == digits[i - start]);
        }
        if !overflow {
            let wide: u128 = acc as u128 * 10 + d as u128;
            if wide > u64::MAX as u128 {
                overflow = true;
            } else {
                acc = wide as u64;
            }
        } else {
            proof {
                lemma_digits_value_nonneg(prefix);
            }
        }
        i = i + 1;
    }
    proof {
        assert(digits.subrange(0, n - start) =~= digits);
    }
    if overflow {
        None
    } else {
        Some(acc)
    }
}

/// A setting's numeric value: the parsed number, or the default when the
/// stored text is not a valid number.
pub fn setting_u64_value(value: &str, default: u64) -> (r: u64)
    ensures
        spec_parse_u64(value@) matches Some(v) ==> r == v,
        spec_parse_u64(value@) is None ==> r == default,
{
    match parse_u64(value) {
        Some(v) => v,
        None => default,
    }
}

} // verus!
