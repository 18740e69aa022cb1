//! Reading token text: quotes around string literals and decimal numbers.

use vstd::prelude::*;

verus! {

/// Whether a character is one of `0` to `9`.
pub open spec fn is_digit(c: char) -> bool {
    '0' <= c <= '9'
}

/// Whether every character is a decimal digit.
pub open spec fn all_digits(s: Seq<char>) -> bool {
    forall|i: int| 0 <= i < s.len() ==> is_digit(#[trigger] s[i])
}

/// The number that a run of decimal digits writes, most significant digit first.
pub open spec fn digits_value(s: Seq<char>) -> nat
    decreases s.len(),
{
    if s.len() == 0 {
        0
    } else {
        (digits_value(s.drop_last()) * 10 + (s.last() as u32 - '0' as u32)) as nat
    }
}

/// What a token denotes as an unsigned decimal: its value where it is a
/// non-empty run of digits that fits 64 bits, nothing otherwise.
pub open spec fn decimal_of(s: Seq<char>) -> Option<u64> {
    if s.len() > 0 && all_digits(s) && digits_value(s) <= u64::MAX {
        Some(digits_value(s) as u64)
    } else {
        None
    }
}

/// The value of a number literal with an optional minus sign before it.
pub open spec fn signed_literal(negative: bool, magnitude: u64) -> Option<i64> {
    if negative {
        if magnitude <= 0x8000_0000_0000_0000 {
            Some((-(magnitude as int)) as i64)
        } else {
            None
        }
    } else {
        if magnitude <= i64::MAX {
            Some(magnitude as i64)
        } else {
            None
        }
    }
}

/// A string literal's text without the single quotes around it; any other
/// text, one in double quotes too, stays as it is.
pub open spec fn without_single_quotes(s: Seq<char>) -> Seq<char> {
    if s.len() >= 2 && s[0] == '\'' && s[s.len() - 1] == '\'' {
        s.subrange(1, s.len() - 1)
    } else {
        s
    }
}

/// A longer run of digits never writes a smaller number than its prefix.
pub proof fn lemma_digits_value_grows(s: Seq<char>, n: int)
    requires
        0 <= n <= s.len(),
        all_digits(s),
    ensures
        digits_value(s.take(n)) <= digits_value(s),
    decreases s.len(),
{
    if n == s.len() {
        assert(s.take(n) =~= s);
    } else {
        assert(all_digits(s.drop_last()));
        lemma_digits_value_grows(s.drop_last(), n);
        assert(s.drop_last().take(n) =~= s.take(n));
    }
}

/// The text without the single quotes around it, if it has them.
pub fn strip_single_quotes(text: &str) -> (stripped: String)
    ensures
        stripped@ == without_single_quotes(text@),
{
    let n = text.unicode_len();
    if n >= 2 && text.get_char(0) == '\'' && text.get_char(n - 1) == '\'' {
        let inner = text.substring_char(1, n - 1);
        String::from_str(inner)
    } else {
        String::from_str(text)
    }
}

/// The value of a token that is a run of decimal digits and fits 64 bits.
pub fn parse_decimal(text: &str) -> (value: Option<u64>)
    ensures
        value == decimal_of(text@),
{
    let n = text.unicode_len();
    if n == 0 {
        return None;
    }
    let mut acc: u64 = 0;
    let mut i: usize = 0;
    while i < n
        invariant
            n == text@.len(),
            0 <= i <= n,
            all_digits(text@.take(i as int)),
            acc == digits_value(text@.take(i as int)),
        decreases n - i,
    {
        let c = text.get_char(i);
        if !('0' <= c && c <= '9') {
            assert(!is_digit(text@[i as int]));
            return None;
        }
        let d: u64 = (c as u32 - '0' as u32) as u64;
        proof {
            let next = text@.take(i as int + 1);
            assert(next.drop_last() =~= text@.take(i as int));
            assert(next.last() == c);
            assert forall|j: int| 0 <= j < next.len() implies is_digit(#[trigger] next[j]) by {
                if j < i {
                    assert(next[j] == text@.take(i as int)[j]);
                }
            }
        }
        if acc > (u64::MAX - d) / 10 {
            proof {
                let next = text@.take(i as int + 1);
                assert(digits_value(next) == acc * 10 + d);
                if all_digits(text@) {
                    lemma_digits_value_grows(text@, i as int + 1);
                }
            }
            return None;
        }
        acc = acc * 10 + d;
        i = i + 1;
    }
    assert(text@.take(n as int) =~= text@);
    Some(acc)
}

/// The magnitude under its sign, where that fits a signed 64-bit number.
pub fn literal_number(negative: bool, magnitude: u64) -> (value: Option<i64>)
    ensures
        value == signed_literal(negative, magnitude),
{
    if negative {
        if magnitude == 0x8000_0000_0000_0000 {
            Some(i64::MIN)
        } else if magnitude < 0x8000_0000_0000_0000 {
            Some(-(magnitude as i64))
        } else {
            None
        }
    } else if magnitude <= 0x7fff_ffff_ffff_ffff {
        Some(magnitude as i64)
    } else {
        None
    }
}

/// Whether two texts hold the same characters.
pub fn same_text(a: &str, b: &str) -> (same: bool)
    ensures
        same == (a@ == b@),
{
    let n = a.unicode_len();
    if n != b.unicode_len() {
        return false;
    }
    let mut i: usize = 0;
    while i < n
        invariant
            n == a@.len(),
            n == b@.len(),
            0 <= i <= n,
            a@.take(i as int) == b@.take(i as int),
        decreases n - i,
    {
        if a.get_char(i) != b.get_char(i) {
            return false;
        }
        assert(a@.take(i as int + 1) =~= a@.take(i as int).push(a@[i as int]));
        assert(b@.take(i as int + 1) =~= b@.take(i as int).push(b@[i as int]));
        i = i + 1;
    }
    assert(a@.take(n as int) =~= a@);
    assert(b@.take(n as int) =~= b@);
    true
}

} // verus!
