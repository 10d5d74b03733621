//! The `maxOccurs` bound of a schema particle and its literal form.

use vstd::prelude::*;
use crate::error::{failure, ErrorKind, Failure, GenError};
use crate::text::same_text;

verus! {

/// Upper bound on how often a particle may occur.
#[derive(Clone, Copy, Debug, PartialEq, Eq)]
pub enum MaxOccurences {
    Unbounded,
    Number { value: u32 },
}

impl Default for MaxOccurences {
    fn default() -> (r: Self)
        ensures
            r == MaxOccurences::Unbounded,
    {
        MaxOccurences::Unbounded
    }
}

/// Whether `c` is one of the ten decimal digits.
pub open spec fn is_digit(c: char) -> bool {
    '0' <= c <= '9'
}

/// Whether `s` holds decimal digits only.
pub open spec fn all_digits(s: Seq<char>) -> bool {
    forall|i: int| 0 <= i < s.len() ==> is_digit(#[trigger] s[i])
}

/// The number that the decimal digits `s` denote.
pub open spec fn decimal_value(s: Seq<char>) -> nat
    decreases s.len(),
{
    if s.len() == 0 {
        0
    } else {
        (decimal_value(s.drop_last()) * 10 + (s.last() as u32 - '0' as u32)) as nat
    }
}

/// The digits of an unsigned literal: `s` without one leading `+`.
pub open spec fn unsigned_digits(s: Seq<char>) -> Seq<char> {
    if s.len() > 0 && s[0] == '+' {
        s.subrange(1, s.len() as int)
    } else {
        s
    }
}

/// The value of the unsigned decimal literal `s`, if it is one that fits 32 bits.
pub open spec fn unsigned_literal(s: Seq<char>) -> Option<u32> {
    let digits = unsigned_digits(s);
    if digits.len() > 0 && all_digits(digits) && decimal_value(digits) <= u32::MAX {
        Some(decimal_value(digits) as u32)
    } else {
        None
    }
}

/// What a `maxOccurs` literal means: `unbounded`, or an unsigned decimal number.
pub open spec fn max_occurences_of(s: Seq<char>) -> Result<MaxOccurences, Failure> {
    if s == "unbounded"@ {
        Ok(MaxOccurences::Unbounded)
    } else {
        match unsigned_literal(s) {
            Some(value) => Ok(MaxOccurences::Number { value }),
            None => Err(failure(ErrorKind::Format, s)),
        }
    }
}

/// A longer run of digits denotes no smaller number than its beginning.
proof fn lemma_decimal_value_grows(s: Seq<char>, k: int)
    requires
        0 <= k <= s.len(),
        all_digits(s),
    ensures
        decimal_value(s.subrange(0, k)) <= decimal_value(s),
    decreases s.len() - k,
{
    if k < s.len() {
        let t = s.drop_last();
        assert(all_digits(t)) by {
            assert forall|i: int| 0 <= i < t.len() implies is_digit(#[trigger] t[i]) by {
                assert(t[i] == s[i]);
            }
        }
        lemma_decimal_value_grows(t, k);
        assert(t.subrange(0, k) == s.subrange(0, k));
        assert(is_digit(s[s.len() - 1]));
    } else {
        assert(s.subrange(0, k) == s);
    }
}

/// Reads an unsigned decimal literal: an optional `+`, then digits.
pub fn parse_unsigned(s: &str) -> (r: Option<u32>)
    ensures
        r == unsigned_literal(s@),
{
    let n = s.unicode_len();
    let start: usize = if n > 0 && s.get_char(0) == '+' { 1 } else { 0 };
    let ghost digits = unsigned_digits(s@);
    proof {
        assert(digits == s@.subrange(start as int, n as int));
    }
    if start == n {
        return None;
    }
    let mut value: u64 = 0;
    let mut i: usize = start;
    while i < n
        invariant
            start <= i <= n,
            n == s@.len(),
            digits == s@.subrange(start as int, n as int),
            digits == unsigned_digits(s@),
            all_digits(digits.subrange(0, i - start)),
            value == decimal_value(digits.subrange(0, i - start)),
            value <= u32::MAX,
        decreases n - i,
    {
        let c = s.get_char(i);
        let ghost before = digits.subrange(0, i - start);
        let ghost now = digits.subrange(0, i + 1 - start);
        proof {
            assert(now.drop_last() == before);
            assert(now.last() == c);
        }
        if !(c >= '0' && c <= '9') {
            proof {
                assert(digits[i - start] == c);
                assert(!is_digit(digits[i - start]));
            }
            return None;
        }
        let d: u64 = (c as u32 - '0' as u32) as u64;
        let next: u64 = value * 10 + d;
        proof {
            assert(all_digits(now)) by {
                assert forall|j: int| 0 <= j < now.len() implies is_digit(#[trigger] now[j]) by {
                    if j < before.len() {
                        assert(now[j] == before[j]);
                    }
                }
            }
            assert(next == decimal_value(now));
        }
        if next > 0xffff_ffff {
            proof {
                if all_digits(digits) {
                    lemma_decimal_value_grows(digits, i + 1 - start);
                    assert(decimal_value(digits) > u32::MAX);
                }
            }
            return None;
        }
        value = next;
        i = i + 1;
    }
    proof {
        assert(digits.subrange(0, n - start) == digits);
    }
    Some(value as u32)
}

impl MaxOccurences {
    /// Reads the literal form: `unbounded`, or an unsigned decimal number.
    /// Any other text is a format error that names the text.
    pub fn parse(s: &str) -> (r: Result<MaxOccurences, GenError>)
        ensures
            match max_occurences_of(s@) {
                Ok(m) => r == Ok::<MaxOccurences, GenError>(m),
                Err(f) => r is Err && r->Err_0@ == f,
            },
    {
        if same_text(s, "unbounded") {
            Ok(MaxOccurences::Unbounded)
        } else {
            match parse_unsigned(s) {
                Some(value) => Ok(MaxOccurences::Number { value }),
                None => Err(GenError::new(ErrorKind::Format, s)),
            }
        }
    }
}

} // verus!
