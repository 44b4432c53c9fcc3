//! Utility functions: splitting a scientific name into name and author, and
//! the shared retry policy for rate-limited remote calls.

use vstd::prelude::*;

use crate::text::{
    chars_to_string, has_upper, is_upper_char, join_chars, join_with, split_whitespace_chars,
    str_chars, words_of,
};

verus! {

// ---------------------------------------------------------------------------
// Scientific names: "Genus species Author, Year" -> name / author
// ---------------------------------------------------------------------------

/// `s` with every parenthesis removed.
pub open spec fn strip_parens(s: Seq<char>) -> Seq<char>
    decreases s.len(),
{
    if s.len() == 0 {
        Seq::empty()
    } else {
        let rest = strip_parens(s.drop_last());
        if s.last() == '(' || s.last() == ')' {
            rest
        } else {
            rest.push(s.last())
        }
    }
}

/// Removes every parenthesis of a character sequence.
pub fn strip_parens_chars(v: &Vec<char>) -> (r: Vec<char>)
    ensures
        r@ == strip_parens(v@),
{
    let mut r: Vec<char> = Vec::new();
    let mut i: usize = 0;
    while i < v.len()
        invariant
            i <= v.len(),
            r@ == strip_parens(v@.take(i as int)),
        decreases v.len() - i,
    {
        let c = v[i];
        proof {
            assert(v@.take(i + 1 as int).drop_last() =~= v@.take(i as int));
            assert(v@.take(i + 1 as int).last() == v@[i as int]);
        }
        if !(c == '(' || c == ')') {
            r.push(c);
        }
        i += 1;
    }
    proof {
        assert(v@.take(v@.len() as int) =~= v@);
    }
    r
}

/// The position of the author in the words of a stripped name: the first word
/// after the first one that contains an uppercase character.
pub open spec fn first_upper_from(ws: Seq<Seq<char>>, i: int) -> Option<int>
    decreases ws.len() - i,
{
    if i < 0 || i >= ws.len() {
        None
    } else if has_upper(ws[i]) {
        Some(i)
    } else {
        first_upper_from(ws, i + 1)
    }
}

/// The words of the name with parentheses removed.
pub open spec fn name_words(valid_name: Seq<char>) -> Seq<Seq<char>> {
    words_of(strip_parens(valid_name))
}

/// What `pretty_name` returns: the words before the author, joined by single
/// spaces, or nothing when no author is found.
pub open spec fn pretty_name_of(valid_name: Seq<char>) -> Option<Seq<char>> {
    let ws = name_words(valid_name);
    match first_upper_from(ws, 1) {
        Some(i) => Some(join_with(ws.take(i), ' ')),
        None => None,
    }
}

/// What `pretty_finder` returns: the words from the author on, joined by
/// single spaces, or nothing when no author is found.
pub open spec fn pretty_finder_of(valid_name: Seq<char>) -> Option<Seq<char>> {
    let ws = name_words(valid_name);
    match first_upper_from(ws, 1) {
        Some(i) => Some(join_with(ws.skip(i), ' ')),
        None => None,
    }
}

/// Whether a word contains an uppercase character.
fn word_has_upper(w: &Vec<char>) -> (r: bool)
    ensures
        r == has_upper(w@),
{
    let mut i: usize = 0;
    while i < w.len()
        invariant
            i <= w.len(),
            forall|j: int| 0 <= j < i ==> !is_upper_char(w@[j]),
        decreases w.len() - i,
    {
        if w[i].is_uppercase() {
            return true;
        }
        i += 1;
    }
    false
}

/// Finds the index of the author word: the first word after the first one
/// with an uppercase character.
fn find_author_index(ws: &Vec<Vec<char>>) -> (r: Option<usize>)
    ensures
        match r {
            Some(i) => first_upper_from(ws.deep_view(), 1) == Some(i as int) && 1 <= i
                < ws.deep_view().len(),
            None => first_upper_from(ws.deep_view(), 1) is None,
        },
{
    let ghost dv = ws.deep_view();
    let mut i: usize = 1;
    while i < ws.len()
        invariant
            1 <= i,
            dv == ws.deep_view(),
            dv.len() == ws.len(),
            first_upper_from(dv, 1) == first_upper_from(dv, i as int),
        decreases ws.len() - i,
    {
        proof {
            assert(dv[i as int] == ws@[i as int].deep_view());
            assert(dv[i as int] =~= ws@[i as int]@);
        }
        if word_has_upper(&ws[i]) {
            return Some(i);
        }
        i += 1;
    }
    None
}

/// Returns the name of the entry, without the author.
///
/// The author is found as the second word (after removing parentheses) that
/// contains an uppercase character; everything before it is the name.
pub fn pretty_name(valid_name: &str) -> (r: Option<String>)
    ensures
        match r {
            Some(s) => pretty_name_of(valid_name@) == Some(s@),
            None => pretty_name_of(valid_name@) is None,
        },
{
    let chars = str_chars(valid_name);
    let stripped = strip_parens_chars(&chars);
    let ws = split_whitespace_chars(&stripped);
    match find_author_index(&ws) {
        None => None,
        Some(i) => {
            let joined = join_chars(&ws, 0, i, ' ');
            proof {
                assert(ws.deep_view().subrange(0, i as int) =~= ws.deep_view().take(i as int));
            }
            Some(chars_to_string(&joined))
        },
    }
}

/// Returns the author of the entry.
pub fn pretty_finder(valid_name: &str) -> (r: Option<String>)
    ensures
        match r {
            Some(s) => pretty_finder_of(valid_name@) == Some(s@),
            None => pretty_finder_of(valid_name@) is None,
        },
{
    let chars = str_chars(valid_name);
    let stripped = strip_parens_chars(&chars);
    let ws = split_whitespace_chars(&stripped);
    match find_author_index(&ws) {
        None => None,
        Some(i) => {
            let joined = join_chars(&ws, i, ws.len(), ' ');
            proof {
                assert(ws.deep_view().subrange(i as int, ws.deep_view().len() as int)
                    =~= ws.deep_view().skip(i as int));
            }
            Some(chars_to_string(&joined))
        },
    }
}

// ---------------------------------------------------------------------------
// Retry policy
// ---------------------------------------------------------------------------

/// The retry policy shared by the occurrence fetcher and the download
/// scheduler: retry rate-limited calls a bounded number of times, with a
/// fixed delay before each new attempt.
pub struct RetryPolicy {
    /// How many retries may follow the first attempt.
    pub max_retries: u32,
    /// How many seconds to wait before each retry.
    pub delay_secs: u64,
}

/// Whether a failure with this HTTP status code is retryable: only rate
/// limiting is.
pub open spec fn retryable(code: i32) -> bool {
    code == 429
}

impl RetryPolicy {
    /// Decides whether one more attempt is made after `retries_done` retries
    /// ended with status `code`: only rate-limited calls are retried, and
    /// only while attempts remain.
    pub fn should_retry(&self, code: i32, retries_done: u32) -> (r: bool)
        ensures
            r == (retryable(code) && retries_done < self.max_retries),
    {
        code == 429 && retries_done < self.max_retries
    }
}

} // verus!
