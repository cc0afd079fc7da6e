//! Reading a process-table query's answer.
//!
//! The liveness check asks the OS process table for an entry with a given
//! id; the answer comes back as text. A process counts as alive exactly
//! when the answer's first whitespace-separated token is the decimal
//! representation of the queried id — an empty answer, a token that is no
//! number, and a different id all count as not alive.

use vstd::prelude::*;

use crate::parse::first_non_space;
use crate::parse::is_space_char;
use crate::parse::next_space;

verus! {

/// The first whitespace-separated token of `s`; empty when `s` holds only
/// whitespace or nothing.
pub open spec fn first_token(s: Seq<char>) -> Seq<char> {
    s.subrange(first_non_space(s, 0), next_space(s, first_non_space(s, 0)))
}

/// The process-table answer `s` reports the id `pid`: its first token is
/// exactly the decimal representation of `pid`.
pub open spec fn reports_pid(s: Seq<char>, pid: u32) -> bool {
    crate::parse::spec_parse_u32(first_token(s)) == Some(pid)
}

/// Decide from a process-table answer whether the queried process is
/// alive: true exactly when the answer's first token is the decimal form
/// of `pid`. No output, a non-numeric first column and a different id all
/// yield false.
pub fn ps_output_reports_pid(data: &str, pid: u32) -> (r: bool)
    ensures
        r == reports_pid(data@, pid),
{
    let n = data.unicode_len();
    let mut start: usize = 0;
    while start < n && is_space_char(data.get_char(start))
        invariant
            0 <= start <= n,
            n == data@.len(),
            first_non_space(data@, 0) == first_non_space(data@, start as int),
        decreases n - start,
    {
        start += 1;
    }
    proof {
        assert(first_non_space(data@, 0) == start);
    }
    let mut end: usize = start;
    while end < n && !is_space_char(data.get_char(end))
        invariant
            start <= end <= n,
            n == data@.len(),
            next_space(data@, start as int) == next_space(data@, end as int),
        decreases n - end,
    {
        end += 1;
    }
    proof {
        assert(next_space(data@, start as int) == end);
    }
    let token = data.substring_char(start, end);
    proof {
        assert(token@ == first_token(data@));
    }
    match crate::parse::parse_u32(token) {
        Some(v) => v == pid,
        None => false,
    }
}

} // verus!
