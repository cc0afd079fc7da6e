//! Text scanning: decimal numbers and whitespace-separated tokens.
//!
//! `spec_parse_u32` states exactly which strings stand for a `u32`: an
//! optional leading `'+'`, then at least one decimal digit, with a value
//! that fits; `parse_u32` is the verified parser for that statement.
//! `spec_tokens` states what the whitespace-separated tokens of a string
//! are; `tokenize` produces them, as the configured command string is
//! tokenized into argv.

use vstd::prelude::*;

verus! {

/// ASCII whitespace: the characters that separate tokens and the columns
/// of a process-table listing.
pub open spec fn is_space(c: char) -> bool {
    c == ' ' || c == '\t' || c == '\n' || c == '\r' || c == '\x0b' || c == '\x0c'
}

/// The index of the first non-whitespace character at or after `i`, or the
/// length when only whitespace remains.
pub open spec fn first_non_space(s: Seq<char>, i: int) -> int
    decreases s.len() - i when 0 <= i <= s.len()
{
    if i >= s.len() {
        s.len() as int
    } else if !is_space(s[i]) {
        i
    } else {
        first_non_space(s, i + 1)
    }
}

/// The index of the first whitespace character at or after `i`, or the
/// length when none follows.
pub open spec fn next_space(s: Seq<char>, i: int) -> int
    decreases s.len() - i when 0 <= i <= s.len()
{
    if i >= s.len() {
        s.len() as int
    } else if is_space(s[i]) {
        i
    } else {
        next_space(s, i + 1)
    }
}

/// Whether `c` separates tokens.
pub(crate) fn is_space_char(c: char) -> (r: bool)
    ensures
        r == is_space(c),
{
    c == ' ' || c == '\t' || c == '\n' || c == '\r' || c == '\x0b' || c == '\x0c'
}

/// `first_non_space` stays within the range it was asked from, and lands on
/// a non-whitespace character whenever it lands inside the string.
proof fn lemma_first_non_space_bounds(s: Seq<char>, i: int)
    requires
        0 <= i <= s.len(),
    ensures
        i <= first_non_space(s, i) <= s.len(),
        first_non_space(s, i) < s.len() ==> !is_space(s[first_non_space(s, i)]),
    decreases s.len() - i,
{
    if i < s.len() && is_space(s[i]) {
        lemma_first_non_space_bounds(s, i + 1);
    }
}

/// `next_space` stays within the range it was asked from.
proof fn lemma_next_space_bounds(s: Seq<char>, i: int)
    requires
        0 <= i <= s.len(),
    ensures
        i <= next_space(s, i) <= s.len(),
    decreases s.len() - i,
{
    if i < s.len() && !is_space(s[i]) {
        lemma_next_space_bounds(s, i + 1);
    }
}

/// The whitespace-separated tokens of `s` from position `i` on: each token
/// a maximal run of non-whitespace characters, in order.
pub open spec fn spec_tokens_from(s: Seq<char>, i: int) -> Seq<Seq<char>>
    decreases s.len() - i when 0 <= i <= s.len()
    via spec_tokens_from_decreases
{
    let start = first_non_space(s, i);
    let end = next_space(s, start);
    if start >= s.len() {
        Seq::empty()
    } else {
        seq![s.subrange(start, end)] + spec_tokens_from(s, end)
    }
}

#[via_fn]
proof fn spec_tokens_from_decreases(s: Seq<char>, i: int) {
    lemma_first_non_space_bounds(s, i);
    let start = first_non_space(s, i);
    if start < s.len() {
        assert(next_space(s, start) == next_space(s, start + 1));
        lemma_next_space_bounds(s, start + 1);
    }
}

/// The whitespace-separated tokens of the whole string.
pub open spec fn spec_tokens(s: Seq<char>) -> Seq<Seq<char>> {
    spec_tokens_from(s, 0)
}

/// The decimal digit characters `'0'` through `'9'`.
pub open spec fn is_digit(c: char) -> bool {
    48 <= c as u32 && c as u32 <= 57
}

/// The numeric value of a digit character.
pub open spec fn digit_value(c: char) -> int {
    c as u32 - 48
}

/// Every character of `s` is a decimal digit.
pub open spec fn all_digits(s: Seq<char>) -> bool {
    forall|i: int| 0 <= i < s.len() ==> is_digit(#[trigger] s[i])
}

/// The value of a string of decimal digits, most significant first.
pub open spec fn dec_value(s: Seq<char>) -> int
    decreases s.len(),
{
    if s.len() == 0 {
        0
    } else {
        dec_value(s.drop_last()) * 10 + digit_value(s.last())
    }
}

/// The strings that stand for a `u32` in decimal: an optional leading
/// `'+'`, then one or more digits, with a value of at most `u32::MAX`.
pub open spec fn spec_parse_u32(s: Seq<char>) -> Option<u32> {
    let digits = if s.len() > 0 && s[0] == '+' {
        s.skip(1)
    } else {
        s
    };
    if digits.len() > 0 && all_digits(digits) && dec_value(digits) <= u32::MAX {
        Some(dec_value(digits) as u32)
    } else {
        None
    }
}

/// A digit string's value is never negative.
proof fn lemma_dec_value_nonneg(s: Seq<char>)
    requires
        all_digits(s),
    ensures
        dec_value(s) >= 0,
    decreases s.len(),
{
    if s.len() > 0 {
        assert forall|i: int| 0 <= i < s.drop_last().len() implies is_digit(
            #[trigger] s.drop_last()[i],
        ) by {
            assert(s.drop_last()[i] == s[i]);
        }
        lemma_dec_value_nonneg(s.drop_last());
        assert(is_digit(s.last()));
    }
}

/// Appending digits never shrinks the value: the value of a prefix bounds
/// the value of the whole digit string from below.
proof fn lemma_dec_value_prefix_le(s: Seq<char>, i: int)
    requires
        all_digits(s),
        0 <= i <= s.len(),
    ensures
        dec_value(s.take(i)) <= dec_value(s),
    decreases s.len() - i,
{
    if i == s.len() {
        assert(s.take(i) =~= s);
    } else {
        assert forall|j: int| 0 <= j < s.drop_last().len() implies is_digit(
            #[trigger] s.drop_last()[j],
        ) by {
            assert(s.drop_last()[j] == s[j]);
        }
        lemma_dec_value_prefix_le(s.drop_last(), i);
        assert(s.drop_last().take(i) =~= s.take(i));
        lemma_dec_value_nonneg(s.drop_last());
        assert(is_digit(s.last()));
        assert(dec_value(s) >= dec_value(s.drop_last()));
    }
}

/// Parse a decimal `u32`, accepting exactly the strings `spec_parse_u32`
/// accepts: an optional leading `'+'`, then at least one digit, value at
/// most `u32::MAX`.
pub fn parse_u32(s: &str) -> (r: Option<u32>)
    ensures
        r == spec_parse_u32(s@),
{
    let n = s.unicode_len();
    let start: usize = if n > 0 && s.get_char(0) == '+' {
        1
    } else {
        0
    };
    let ghost digits: Seq<char> = s@.skip(start as int);
    proof {
        assert(digits =~= s@.subrange(start as int, n as int));
    }
    if start == n {
        return None;
    }
    let mut acc: u32 = 0;
    let mut i: usize = start;
    while i < n
        invariant
            start <= i <= n,
            n == s@.len(),
            start == 1 ==> s@.len() > 0 && s@[0] == '+',
            start == 0 ==> !(s@.len() > 0 && s@[0] == '+'),
            start == 0 || start == 1,
            digits == s@.subrange(start as int, n as int),
            all_digits(s@.subrange(start as int, i as int)),
            acc == dec_value(s@.subrange(start as int, i as int)),
        decreases n - i,
    {
        let c = s.get_char(i);
        let code: u32 = c as u32;
        if code < 48 || code > 57 {
            proof {
                assert(digits[i - start] == s@[i as int]);
                assert(!is_digit(digits[i - start]));
            }
            return None;
        }
        let d: u32 = code - 48;
        let wide: u64 = (acc as u64) * 10 + (d as u64);
        let ghost prefix = s@.subrange(start as int, i as int);
        let ghost prefix1 = s@.subrange(start as int, i as int + 1);
        proof {
            assert(prefix1.drop_last() =~= prefix);
            assert(prefix1.last() == s@[i as int]);
            assert(dec_value(prefix1) == dec_value(prefix) * 10 + digit_value(s@[i as int]));
            assert forall|j: int| 0 <= j < prefix1.len() implies is_digit(
                #[trigger] prefix1[j],
            ) by {
                assert(prefix1[j] == s@[start + j]);
            }
        }
        if wide > 0xFFFF_FFFFu64 {
            proof {
                if start == 0 {
                    assert(digits =~= s@);
                }
                if all_digits(digits) {
                    assert(digits.take(i as int + 1 - start) =~= prefix1);
                    lemma_dec_value_prefix_le(digits, i as int + 1 - start);
                    assert(dec_value(digits) >= dec_value(prefix1));
                    assert(dec_value(prefix1) == wide);
                    assert(dec_value(digits) > u32::MAX);
                }
            }
            return None;
        }
        acc = wide as u32;
        proof {
            assert(acc == dec_value(prefix1));
        }
        i += 1;
    }
    proof {
        if start == 0 {
            assert(digits =~= s@);
        }
        assert(all_digits(digits));
        assert(acc == dec_value(digits));
        assert(digits.len() > 0);
    }
    Some(acc)
}

/// Split `s` into its whitespace-separated tokens, in order — the way the
/// configured command string is tokenized into argv.
pub fn tokenize(s: &str) -> (r: Vec<String>)
    ensures
        r@.map_values(|t: String| t@) == spec_tokens(s@),
{
    let n = s.unicode_len();
    let mut out: Vec<String> = Vec::new();
    let mut i: usize = 0;
    proof {
        assert(out@.map_values(|t: String| t@) + spec_tokens_from(s@, 0) =~= spec_tokens(s@));
    }
    while i < n
        invariant
            i <= n,
            n == s@.len(),
            out@.map_values(|t: String| t@) + spec_tokens_from(s@, i as int) == spec_tokens(s@),
        decreases n - i,
    {
        let ghost entry = i as int;
        let mut start: usize = i;
        while start < n && is_space_char(s.get_char(start))
            invariant
                i <= start <= n,
                n == s@.len(),
                first_non_space(s@, entry) == first_non_space(s@, start as int),
            decreases n - start,
        {
            start += 1;
        }
        proof {
            assert(first_non_space(s@, entry) == start);
        }
        if start == n {
            proof {
                assert(spec_tokens_from(s@, entry) =~= Seq::<Seq<char>>::empty());
                assert(spec_tokens_from(s@, n as int) =~= Seq::<Seq<char>>::empty());
            }
            i = n;
        } else {
            let mut end: usize = start;
            while end < n && !is_space_char(s.get_char(end))
                invariant
                    start <= end <= n,
                    n == s@.len(),
                    next_space(s@, start as int) == next_space(s@, end as int),
                decreases n - end,
            {
                end += 1;
            }
            proof {
                assert(next_space(s@, start as int) == end);
            }
            let token = s.substring_char(start, end);
            let ghost before = out@;
            out.push(token.to_owned());
            proof {
                assert(out@.map_values(|t: String| t@) =~= before.map_values(
                    |t: String| t@,
                ).push(token@));
                assert(spec_tokens_from(s@, entry) == seq![
                    s@.subrange(start as int, end as int),
                ] + spec_tokens_from(s@, end as int));
                assert(out@.map_values(|t: String| t@) + spec_tokens_from(s@, end as int)
                    =~= before.map_values(|t: String| t@) + spec_tokens_from(s@, entry));
            }
            i = end;
        }
    }
    proof {
        assert(spec_tokens_from(s@, n as int) =~= Seq::<Seq<char>>::empty());
        assert(out@.map_values(|t: String| t@) =~= out@.map_values(|t: String| t@)
            + spec_tokens_from(s@, i as int));
    }
    out
}

} // verus!
