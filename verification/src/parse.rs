//! Parsing of directory-entry names into task identifiers.
//!
//! The process table exposes identifiers as decimal file names, mixed with
//! non-numeric entries ("self", "thread-self") that coexist in the same
//! enumeration space. A name is a valid identifier exactly when it is an
//! optional sign followed by one or more decimal digits whose value fits in
//! an `i32`; anything else is silently skipped by discovery.

use vstd::prelude::*;

verus! {

/// The character is a decimal digit '0'..'9'.
pub open spec fn is_digit(c: char) -> bool {
    0x30 <= c as int && c as int <= 0x39
}

/// Numeric value of a decimal digit character.
pub open spec fn digit_value(c: char) -> int {
    c as int - 0x30
}

/// Every character of the sequence is a decimal digit.
pub open spec fn all_digits(s: Seq<char>) -> bool {
    forall|i: int| 0 <= i < s.len() ==> is_digit(s[i])
}

/// Value of a digit sequence read in base 10 (0 for the empty sequence).
pub open spec fn digits_value(s: Seq<char>) -> int
    decreases s.len(),
{
    if s.len() == 0 {
        0
    } else {
        digits_value(s.drop_last()) * 10 + digit_value(s.last())
    }
}

/// The digit part of a numeral: everything after an optional leading sign.
pub open spec fn numeral_body(s: Seq<char>) -> Seq<char> {
    if s.len() > 0 && (s[0] == '+' || s[0] == '-') {
        s.drop_first()
    } else {
        s
    }
}

/// The numeral carries a leading minus sign.
pub open spec fn numeral_negative(s: Seq<char>) -> bool {
    s.len() > 0 && s[0] == '-'
}

/// The string is a decimal numeral whose value fits in an `i32`: an
/// optional sign, then at least one digit, with the magnitude within
/// `i32` range for the given sign.
pub open spec fn is_i32_numeral(s: Seq<char>) -> bool {
    let b = numeral_body(s);
    b.len() > 0 && all_digits(b) && (if numeral_negative(s) {
        digits_value(b) <= 0x8000_0000
    } else {
        digits_value(b) <= 0x7FFF_FFFF
    })
}

/// The value denoted by a valid `i32` numeral.
pub open spec fn i32_numeral_value(s: Seq<char>) -> int {
    if numeral_negative(s) {
        -digits_value(numeral_body(s))
    } else {
        digits_value(numeral_body(s))
    }
}

/// A digit sequence has a non-negative value.
proof fn lemma_digits_value_nonneg(s: Seq<char>)
    requires
        all_digits(s),
    ensures
        digits_value(s) >= 0,
    decreases s.len(),
{
    if s.len() > 0 {
        assert(all_digits(s.drop_last()));
        lemma_digits_value_nonneg(s.drop_last());
    }
}

/// The value of a valid `i32` numeral lies within `i32` range.
pub proof fn lemma_i32_numeral_value_bounds(s: Seq<char>)
    requires
        is_i32_numeral(s),
    ensures
        -0x8000_0000 <= i32_numeral_value(s) <= 0x7FFF_FFFF,
{
    lemma_digits_value_nonneg(numeral_body(s));
}

/// Appending digits never decreases the value: the value of a prefix is a
/// lower bound on the value of the whole digit sequence.
proof fn lemma_digits_value_prefix(s: Seq<char>, i: int)
    requires
        all_digits(s),
        0 <= i <= s.len(),
    ensures
        digits_value(s.subrange(0, i)) <= digits_value(s),
    decreases s.len() - i,
{
    if i == s.len() {
        assert(s.subrange(0, i) =~= s);
    } else {
        lemma_digits_value_prefix(s, i + 1);
        let t = s.subrange(0, i + 1);
        assert(t.drop_last() =~= s.subrange(0, i));
        assert(all_digits(s.subrange(0, i)));
        lemma_digits_value_nonneg(s.subrange(0, i));
        assert(digits_value(t) == digits_value(s.subrange(0, i)) * 10 + digit_value(s[i]));
    }
}

/// Parses a directory-entry name as a task identifier.
///
/// Returns `Some` exactly when the name is a decimal numeral (optional
/// sign, one or more digits) whose value fits in an `i32`, and then the
/// parsed value; returns `None` for every other name.
pub fn parse_task_from_filename(filename: &str) -> (r: Option<i32>)
    ensures
        r is Some <==> is_i32_numeral(filename@),
        r matches Some(v) ==> v as int == i32_numeral_value(filename@),
{
    let ghost s = filename@;
    let n: usize = filename.unicode_len();
    let mut start: usize = 0;
    let mut neg = false;
    if n > 0 {
        let c0 = filename.get_char(0);
        if c0 == '+' {
            start = 1;
        } else if c0 == '-' {
            start = 1;
            neg = true;
        }
    }
    proof {
        assert(numeral_body(s) =~= s.subrange(start as int, n as int));
    }
    if start >= n {
        // empty digit part: not a numeral
        return None;
    }
    let mut acc: u64 = 0;
    let mut j: usize = start;
    while j < n
        invariant
            start <= j <= n,
            n == s.len(),
            s == filename@,
            numeral_body(s) == s.subrange(start as int, n as int),
            neg == numeral_negative(s),
            all_digits(s.subrange(start as int, j as int)),
            acc == digits_value(s.subrange(start as int, j as int)),
            acc <= 0x8000_0000,
        decreases n - j,
    {
        let c = filename.get_char(j);
        let u: u32 = c as u32;
        if u < 0x30 || u > 0x39 {
            proof {
                // a non-digit inside the body: not a numeral
                assert(numeral_body(s)[j - start] == s[j as int]);
            }
            return None;
        }
        let d: u64 = (u - 0x30) as u64;
        acc = acc * 10 + d;
        proof {
            let t = s.subrange(start as int, j as int + 1);
            assert(t.drop_last() =~= s.subrange(start as int, j as int));
            assert(t.last() == s[j as int]);
            assert(all_digits(t));
        }
        if acc > 0x8000_0000 {
            proof {
                // the magnitude already exceeds every representable i32, and
                // appending further digits can only increase it
                if all_digits(numeral_body(s)) {
                    lemma_digits_value_prefix(numeral_body(s), j as int + 1 - start);
                    assert(numeral_body(s).subrange(0, j as int + 1 - start) =~= s.subrange(
                        start as int,
                        j as int + 1,
                    ));
                }
            }
            return None;
        }
        j += 1;
    }
    proof {
        assert(s.subrange(start as int, j as int) =~= numeral_body(s));
    }
    if neg {
        if acc == 0x8000_0000 {
            Some(i32::MIN)
        } else {
            Some(-(acc as i32))
        }
    } else {
        if acc > 0x7FFF_FFFF {
            // positive magnitude out of range
            return None;
        }
        Some(acc as i32)
    }
}

} // verus!
