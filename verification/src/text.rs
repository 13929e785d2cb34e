//! Substring search over character sequences, and the pieces into which a
//! separator cuts a text.
//!
//! Contracts speak of `Seq<char>`. The executable functions work on a
//! `Vec<char>` and on windows `lo..hi` into it, so that cutting a text into
//! pieces allocates nothing.

use vstd::prelude::*;

verus! {

/// `pat` stands in `text` at offset `at`.
pub open spec fn occurs_at(text: Seq<char>, pat: Seq<char>, at: int) -> bool {
    &&& 0 <= at
    &&& at + pat.len() <= text.len()
    &&& text.subrange(at, at + pat.len()) == pat
}

/// `pat` stands somewhere in `text`.
pub open spec fn occurs(text: Seq<char>, pat: Seq<char>) -> bool {
    exists|at: int| occurs_at(text, pat, at)
}

/// `at` is the leftmost offset at which `pat` stands in `text`.
pub open spec fn is_first_at(text: Seq<char>, pat: Seq<char>, at: int) -> bool {
    &&& occurs_at(text, pat, at)
    &&& forall|k: int| 0 <= k < at ==> !occurs_at(text, pat, k)
}

/// The leftmost offset at which `pat` stands in `text`. It is meaningful only
/// where `occurs(text, pat)`.
pub open spec fn first_at(text: Seq<char>, pat: Seq<char>) -> int {
    choose|at: int| is_first_at(text, pat, at)
}

/// The part of `text` before the leftmost `pat`, or all of `text` where `pat`
/// does not occur.
pub open spec fn before_first(text: Seq<char>, pat: Seq<char>) -> Seq<char> {
    if occurs(text, pat) {
        text.take(first_at(text, pat))
    } else {
        text
    }
}

/// The part of `text` behind the leftmost `pat`, if `pat` occurs.
pub open spec fn after_first(text: Seq<char>, pat: Seq<char>) -> Option<Seq<char>> {
    if occurs(text, pat) {
        Some(text.skip(first_at(text, pat) + pat.len()))
    } else {
        None
    }
}

/// The second of the pieces into which the separator `pat` cuts `text`: what
/// stands behind the leftmost `pat` and before the next one that begins
/// after it. There is no second piece where `pat` does not occur.
pub open spec fn second_piece(text: Seq<char>, pat: Seq<char>) -> Option<Seq<char>> {
    match after_first(text, pat) {
        Some(rest) => Some(before_first(rest, pat)),
        None => None,
    }
}

/// A leftmost offset is the only one, and it is what `first_at` names.
pub proof fn lemma_first_at_is(text: Seq<char>, pat: Seq<char>, at: int)
    requires
        is_first_at(text, pat, at),
    ensures
        occurs(text, pat),
        first_at(text, pat) == at,
{
    let chosen = first_at(text, pat);
    assert(is_first_at(text, pat, chosen));
    if chosen < at {
        assert(!occurs_at(text, pat, chosen));
    } else if at < chosen {
        assert(!occurs_at(text, pat, at));
    }
}

/// Where `pat` stands at `at`, there is a leftmost offset, and it is not
/// behind `at`.
pub proof fn lemma_leftmost_exists(text: Seq<char>, pat: Seq<char>, at: int)
    requires
        occurs_at(text, pat, at),
    ensures
        is_first_at(text, pat, first_at(text, pat)),
        first_at(text, pat) <= at,
    decreases at,
{
    if forall|k: int| 0 <= k < at ==> !occurs_at(text, pat, k) {
        assert(is_first_at(text, pat, at));
        lemma_first_at_is(text, pat, at);
    } else {
        let k = choose|k: int| 0 <= k < at && occurs_at(text, pat, k);
        lemma_leftmost_exists(text, pat, k);
    }
}

/// Where `pat` occurs in `text`, `first_at` names its leftmost offset.
pub proof fn lemma_first_at(text: Seq<char>, pat: Seq<char>)
    requires
        occurs(text, pat),
    ensures
        is_first_at(text, pat, first_at(text, pat)),
{
    let at = choose|at: int| occurs_at(text, pat, at);
    lemma_leftmost_exists(text, pat, at);
}

/// What stands before the leftmost `pat` is a beginning of `text`, and it ends
/// no later than any offset at which `pat` stands.
pub proof fn lemma_before_first_is_prefix(text: Seq<char>, pat: Seq<char>)
    ensures
        before_first(text, pat).is_prefix_of(text),
        forall|at: int| occurs_at(text, pat, at) ==> before_first(text, pat).len() <= at,
{
    if occurs(text, pat) {
        lemma_first_at(text, pat);
        assert forall|at: int| occurs_at(text, pat, at) implies before_first(text, pat).len()
            <= at by {
            lemma_leftmost_exists(text, pat, at);
        }
    } else {
        assert(text.subrange(0, text.len() as int) =~= text);
    }
}

/// Copies the characters of `s` into a vector.
pub fn chars_of(s: &str) -> (v: Vec<char>)
    ensures
        v@ == s@,
{
    let mut v: Vec<char> = Vec::new();
    for c in it: s.chars()
        invariant
            it.seq() == s@,
            v@ == s@.take(it.index() as int),
    {
        v.push(c);
    }
    v
}

/// Tells whether `pat` stands in `text` at offset `at`.
pub fn equal_at(text: &Vec<char>, at: usize, pat: &Vec<char>) -> (same: bool)
    requires
        at + pat.len() <= text.len(),
    ensures
        same == occurs_at(text@, pat@, at as int),
{
    let m = pat.len();
    let mut j: usize = 0;
    while j < m
        invariant
            m == pat.len(),
            at + m <= text.len(),
            j <= m,
            forall|i: int| 0 <= i < j ==> text@[at + i] == pat@[i],
        decreases m - j,
    {
        if text[at + j] != pat[j] {
            assert(text@.subrange(at as int, at + m)[j as int] != pat@[j as int]);
            return false;
        }
        j = j + 1;
    }
    assert(text@.subrange(at as int, at + m) =~= pat@);
    true
}

/// Finds the leftmost `pat` in the window `lo..hi` of `text`, and returns the
/// offset in `text` at which it begins.
pub fn find(text: &Vec<char>, lo: usize, hi: usize, pat: &Vec<char>) -> (found: Option<usize>)
    requires
        lo <= hi <= text.len(),
    ensures
        match found {
            Some(at) => {
                &&& lo <= at
                &&& at + pat.len() <= hi
                &&& is_first_at(text@.subrange(lo as int, hi as int), pat@, at - lo)
            },
            None => !occurs(text@.subrange(lo as int, hi as int), pat@),
        },
{
    let ghost window = text@.subrange(lo as int, hi as int);
    let m = pat.len();
    if hi - lo < m {
        return None;
    }
    let last = hi - m;
    let mut at = lo;
    while at <= last
        invariant
            m == pat.len(),
            lo <= at <= last + 1,
            last + m == hi,
            hi <= text.len(),
            window == text@.subrange(lo as int, hi as int),
            forall|k: int| 0 <= k < at - lo ==> !occurs_at(window, pat@, k),
        decreases last + 1 - at,
    {
        let same = equal_at(text, at, pat);
        assert(window.subrange(at - lo, at - lo + m) =~= text@.subrange(at as int, at + m));
        if same {
            return Some(at);
        }
        assert(m > 0) by {
            if m == 0 {
                assert(text@.subrange(at as int, at + m) =~= pat@);
            }
        }
        at = at + 1;
    }
    None
}

/// Cuts the window `lo..hi` of `text` before its leftmost `pat`: the result is
/// where that piece ends.
pub fn cut_before(text: &Vec<char>, lo: usize, hi: usize, pat: &Vec<char>) -> (end: usize)
    requires
        lo <= hi <= text.len(),
    ensures
        lo <= end <= hi,
        text@.subrange(lo as int, end as int) == before_first(
            text@.subrange(lo as int, hi as int),
            pat@,
        ),
{
    let ghost window = text@.subrange(lo as int, hi as int);
    match find(text, lo, hi, pat) {
        Some(at) => {
            proof {
                lemma_first_at_is(window, pat@, at - lo);
                assert(window.take(at - lo) =~= text@.subrange(lo as int, at as int));
            }
            at
        },
        None => hi,
    }
}

/// Cuts the window `lo..hi` of `text` behind its leftmost `pat`: the result is
/// where the rest begins, if `pat` occurs.
pub fn cut_after(text: &Vec<char>, lo: usize, hi: usize, pat: &Vec<char>) -> (start: Option<usize>)
    requires
        lo <= hi <= text.len(),
    ensures
        match start {
            Some(from) => {
                &&& lo <= from <= hi
                &&& after_first(text@.subrange(lo as int, hi as int), pat@) == Some(
                    text@.subrange(from as int, hi as int),
                )
            },
            None => after_first(text@.subrange(lo as int, hi as int), pat@) is None,
        },
{
    let ghost window = text@.subrange(lo as int, hi as int);
    match find(text, lo, hi, pat) {
        Some(at) => {
            let from = at + pat.len();
            proof {
                lemma_first_at_is(window, pat@, at - lo);
                assert(window.skip(at - lo + pat@.len()) =~= text@.subrange(
                    from as int,
                    hi as int,
                ));
            }
            Some(from)
        },
        None => None,
    }
}

/// Finds the second of the pieces into which the separator `pat` cuts the
/// window `lo..hi` of `text`: the result is where that piece begins and ends.
pub fn cut_second(text: &Vec<char>, lo: usize, hi: usize, pat: &Vec<char>) -> (piece: Option<
    (usize, usize),
>)
    requires
        lo <= hi <= text.len(),
    ensures
        match piece {
            Some((from, to)) => {
                &&& lo <= from <= to <= hi
                &&& second_piece(text@.subrange(lo as int, hi as int), pat@) == Some(
                    text@.subrange(from as int, to as int),
                )
            },
            None => second_piece(text@.subrange(lo as int, hi as int), pat@) is None,
        },
{
    match cut_after(text, lo, hi, pat) {
        Some(from) => {
            let to = cut_before(text, from, hi, pat);
            Some((from, to))
        },
        None => None,
    }
}

} // verus!
