//! Extraction of an image URL from the agent's reply.

use vstd::prelude::*;
use crate::process::AgentError;
use crate::text::{is_trimmed, lemma_trim_of_trimmed, starts_http, starts_with_http, trim, trimmed};

verus! {

/// Length of the first line of `s`: the characters before the first `'\n'`.
pub open spec fn line_len(s: Seq<char>) -> nat
    decreases s.len(),
{
    if s.len() == 0 || s[0] == '\n' {
        0
    } else {
        1 + line_len(s.drop_first())
    }
}

/// The first line of `s` that, once trimmed, begins with `http`, trimmed;
/// lines are taken in order and split at `'\n'`.
pub open spec fn first_http_line(s: Seq<char>) -> Option<Seq<char>>
    decreases s.len(),
{
    let k = line_len(s) as int;
    let line = trimmed(s.subrange(0, k));
    if starts_http(line) {
        Some(line)
    } else if k < s.len() {
        first_http_line(s.subrange(k + 1, s.len() as int))
    } else {
        None
    }
}

/// The URL held by a reply: the whole trimmed reply when it begins with
/// `http`, else its first line that does.
pub open spec fn extracted_url(response: Seq<char>) -> Option<Seq<char>> {
    let t = trimmed(response);
    if starts_http(t) {
        Some(t)
    } else {
        first_http_line(t)
    }
}

/// A reply that already is a bare URL (it begins with `http` and has no
/// surrounding whitespace) is its own URL: no line is scanned.
pub proof fn lemma_url_reply_unchanged(response: Seq<char>)
    requires
        starts_http(response),
        is_trimmed(response),
    ensures
        extracted_url(response) == Some(response),
{
    lemma_trim_of_trimmed(response);
}

proof fn lemma_line_len(s: Seq<char>, j: int)
    requires
        0 <= j <= s.len(),
        forall|k: int| 0 <= k < j ==> s[k] != '\n',
        j == s.len() || s[j] == '\n',
    ensures
        line_len(s) == j,
    decreases j,
{
    if j > 0 {
        lemma_line_len(s.drop_first(), j - 1);
    }
}

/// Finds the image URL in a reply of the agent. Where the reply holds none,
/// the error carries the whole trimmed reply.
pub fn extract_url(response: &str) -> (r: Result<String, AgentError>)
    ensures
        match extracted_url(response@) {
            Some(u) => r matches Ok(s) && s@ == u,
            None => r matches Err(AgentError::ExtractionFailure(d)) && d@ == trimmed(response@),
        },
{
    let t = trim(response);
    if starts_with_http(t) {
        return Ok(String::from_str(t));
    }
    let n = t.unicode_len();
    let mut start: usize = 0;
    assert(t@.subrange(0, n as int) =~= t@);
    loop
        invariant
            start <= n,
            n == t@.len(),
            t@ == trimmed(response@),
            !starts_http(t@),
            first_http_line(t@) == first_http_line(t@.subrange(start as int, n as int)),
        decreases n - start,
    {
        let mut end: usize = start;
        while end < n && t.get_char(end) != '\n'
            invariant
                start <= end <= n,
                n == t@.len(),
                forall|k: int| start <= k < end ==> t@[k] != '\n',
            decreases n - end,
        {
            end = end + 1;
        }
        let ghost rest = t@.subrange(start as int, n as int);
        proof {
            lemma_line_len(rest, end - start);
            assert(rest.subrange(0, end - start) =~= t@.subrange(start as int, end as int));
        }
        let line = trim(t.substring_char(start, end));
        if starts_with_http(line) {
            return Ok(String::from_str(line));
        }
        if end == n {
            return Err(AgentError::ExtractionFailure(String::from_str(t)));
        }
        proof {
            assert(rest.subrange(end - start + 1, rest.len() as int) =~= t@.subrange(
                end + 1,
                n as int,
            ));
        }
        start = end + 1;
    }
}

} // verus!
