//! Parsing a caller-supplied string as a non-negative index.

use vstd::prelude::*;
use vstd::string::*;

use crate::errors::ParseFailure;

verus! {

/// Whether the character is a decimal digit.
pub open spec fn is_digit(c: char) -> bool {
    48 <= c as u32 <= 57
}

/// The numeric value of a decimal digit.
pub open spec fn digit_value(c: char) -> int {
    c as u32 - 48
}

/// Whether every character of the string is a decimal digit.
pub open spec fn all_digits(s: Seq<char>) -> bool {
    forall|i: int| 0 <= i < s.len() ==> is_digit(#[trigger] s[i])
}

/// The string with an optional leading plus sign removed.
pub open spec fn digit_part(s: Seq<char>) -> Seq<char> {
    if s.len() > 0 && s[0] == '+' {
        s.drop_first()
    } else {
        s
    }
}

/// The number a digit string denotes.
pub open spec fn digits_value(s: Seq<char>) -> int
    decreases s.len(),
{
    if s.len() == 0 {
        0
    } else {
        digits_value(s.drop_last()) * 10 + digit_value(s.last())
    }
}

/// What parsing a string as an index yields: after an optional leading
/// plus sign the string must be one or more decimal digits. The empty
/// string, a missing or non-digit character, and a value beyond `usize`
/// are the three failures.
pub open spec fn spec_parse_index(s: Seq<char>) -> Result<int, ParseFailure> {
    if s.len() == 0 {
        Result::Err(ParseFailure::EmptyInput)
    } else if digit_part(s).len() == 0 || !all_digits(digit_part(s)) {
        Result::Err(ParseFailure::InvalidDigit)
    } else if digits_value(digit_part(s)) > usize::MAX {
        Result::Err(ParseFailure::Overflow)
    } else {
        Result::Ok(digits_value(digit_part(s)))
    }
}

/// A digit string denotes a non-negative number.
proof fn lemma_digits_value_nonneg(s: Seq<char>)
    requires
        all_digits(s),
    ensures
        digits_value(s) >= 0,
    decreases s.len(),
{
    if s.len() > 0 {
        assert(all_digits(s.drop_last())) by {
            assert(forall|i: int|
                0 <= i < s.len() - 1 ==> is_digit(#[trigger] s.drop_last()[i]));
        }
        lemma_digits_value_nonneg(s.drop_last());
    }
}

/// Extending a digit string on the right never shrinks its value.
proof fn lemma_digits_value_prefix_le(s: Seq<char>, i: int)
    requires
        all_digits(s),
        0 <= i <= s.len(),
    ensures
        digits_value(s.subrange(0, i)) <= digits_value(s),
    decreases s.len() - i,
{
    if i < s.len() {
        let shorter = s.subrange(0, i);
        let longer = s.subrange(0, i + 1);
        assert(longer.drop_last() =~= shorter);
        assert(all_digits(shorter));
        lemma_digits_value_nonneg(shorter);
        assert(is_digit(s[i]));
        assert(digits_value(longer) == digits_value(shorter) * 10 + digit_value(s[i]));
        assert(digits_value(shorter) * 10 >= digits_value(shorter));
        lemma_digits_value_prefix_le(s, i + 1);
    } else {
        assert(s.subrange(0, i) =~= s);
    }
}

/// Parses a string as an index, reporting exactly the failure that
/// [`spec_parse_index`] names.
#[verifier::rlimit(60)]
pub fn parse_index(s: &str) -> (parsed: Result<usize, ParseFailure>)
    ensures
        spec_parse_index(s@) matches Ok(v) ==> parsed matches Ok(u) && u == v,
        spec_parse_index(s@) matches Err(f) ==> parsed matches Err(g) && g == f,
{
    let n = s.unicode_len();
    if n == 0 {
        return Err(ParseFailure::EmptyInput);
    }
    let first = s.get_char(0);
    let offset: usize = if first == '+' {
        1
    } else {
        0
    };
    proof {
        assert(digit_part(s@) =~= s@.subrange(offset as int, n as int));
    }
    if n == offset {
        return Err(ParseFailure::InvalidDigit);
    }
    let mut i: usize = offset;
    while i < n
        invariant
            n == s@.len(),
            offset <= i <= n,
            digit_part(s@) == s@.subrange(offset as int, n as int),
            forall|j: int| offset <= j < i ==> is_digit(#[trigger] s@[j]),
        decreases n - i,
    {
        let c = s.get_char(i);
        let code = c as u32;
        if code < 48 || code > 57 {
            proof {
                assert(digit_part(s@)[i - offset] == s@[i as int]);
            }
            return Err(ParseFailure::InvalidDigit);
        }
        i += 1;
    }
    proof {
        assert forall|j: int| 0 <= j < digit_part(s@).len() implies is_digit(
            #[trigger] digit_part(s@)[j],
        ) by {
            assert(digit_part(s@)[j] == s@[j + offset]);
        }
    }
    let mut value: usize = 0;
    let mut k: usize = offset;
    while k < n
        invariant
            n == s@.len(),
            offset <= k <= n,
            digit_part(s@) == s@.subrange(offset as int, n as int),
            all_digits(digit_part(s@)),
            value == digits_value(s@.subrange(offset as int, k as int)),
        decreases n - k,
    {
        let c = s.get_char(k);
        proof {
            assert(digit_part(s@)[k - offset] == s@[k as int]);
            assert(s@.subrange(offset as int, k as int + 1).drop_last() =~= s@.subrange(
                offset as int,
                k as int,
            ));
            assert(digit_part(s@).subrange(0, k as int + 1 - offset) =~= s@.subrange(
                offset as int,
                k as int + 1,
            ));
        }
        let digit = (c as u32 - 48) as usize;
        let scaled = match value.checked_mul(10) {
            Some(scaled) => scaled,
            None => {
                proof {
                    lemma_digits_value_prefix_le(digit_part(s@), k as int + 1 - offset);
                }
                return Err(ParseFailure::Overflow);
            },
        };
        let next = match scaled.checked_add(digit) {
            Some(next) => next,
            None => {
                proof {
                    lemma_digits_value_prefix_le(digit_part(s@), k as int + 1 - offset);
                }
                return Err(ParseFailure::Overflow);
            },
        };
        value = next;
        k += 1;
    }
    proof {
        assert(s@.subrange(offset as int, n as int) =~= digit_part(s@));
    }
    Ok(value)
}

} // verus!
