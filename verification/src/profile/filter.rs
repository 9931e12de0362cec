//! The profile part of article filtering: how many of an article's tags
//! match the reader's interests, compared without regard to ASCII case.
use vstd::prelude::*;

use crate::text::{chars_of, string_views};

verus! {

/// The code of `c` with an ASCII upper-case letter lowered.
pub open spec fn ascii_lower_code(c: char) -> u32 {
    if 'A' <= c <= 'Z' {
        (c as u32 + 32) as u32
    } else {
        c as u32
    }
}

/// Whether `a` and `b` are equal when ASCII letters are compared without
/// regard to case.
pub open spec fn eq_ignore_ascii_case(a: Seq<char>, b: Seq<char>) -> bool {
    a.len() == b.len() && forall|i: int| 0 <= i < a.len() ==> #[trigger] ascii_lower_code(a[i]) == ascii_lower_code(b[i])
}

/// Whether `tag` equals one of `interests`, ignoring ASCII case.
pub open spec fn matches_interest(tag: Seq<char>, interests: Seq<Seq<char>>) -> bool {
    exists|j: int| 0 <= j < interests.len() && #[trigger] eq_ignore_ascii_case(interests[j], tag)
}

/// How many of `tags` match one of `interests`.
pub open spec fn count_matching(tags: Seq<Seq<char>>, interests: Seq<Seq<char>>) -> nat
    decreases tags.len(),
{
    if tags.len() == 0 {
        0
    } else {
        count_matching(tags.drop_last(), interests) + if matches_interest(tags.last(), interests) { 1nat } else { 0nat }
    }
}

/// Case-insensitive matching compares whole strings: a match has the same
/// length on both sides (so no string matches a longer or shorter one, a
/// prefix included), every string matches itself, and matching is
/// symmetric.
pub proof fn ascii_case_match_is_whole(a: Seq<char>, b: Seq<char>)
    ensures
        eq_ignore_ascii_case(a, b) ==> a.len() == b.len(),
        a.len() != b.len() ==> !eq_ignore_ascii_case(a, b),
        eq_ignore_ascii_case(a, a),
        eq_ignore_ascii_case(a, b) ==> eq_ignore_ascii_case(b, a),
{
    if eq_ignore_ascii_case(a, b) {
        assert forall|i: int| 0 <= i < b.len() implies #[trigger] ascii_lower_code(b[i]) == ascii_lower_code(a[i]) by {
            assert(ascii_lower_code(a[i]) == ascii_lower_code(b[i]));
        }
    }
}

/// A tag matches an interest only when the two have the same length.
pub proof fn interest_match_needs_same_length(tag: Seq<char>, interests: Seq<Seq<char>>)
    ensures
        matches_interest(tag, interests) ==> exists|j: int| 0 <= j < interests.len() && interests[j].len() == tag.len(),
{
    if matches_interest(tag, interests) {
        let j = choose|j: int| 0 <= j < interests.len() && #[trigger] eq_ignore_ascii_case(interests[j], tag);
        assert(interests[j].len() == tag.len());
    }
}

fn lower_code(c: char) -> (r: u32)
    ensures
        r == ascii_lower_code(c),
{
    let n = c as u32;
    if 'A' <= c && c <= 'Z' {
        n + 32
    } else {
        n
    }
}

/// Compares two strings, ignoring ASCII case.
pub fn str_eq_ignore_ascii_case(a: &str, b: &str) -> (r: bool)
    ensures
        r == eq_ignore_ascii_case(a@, b@),
{
    let x = chars_of(a);
    let y = chars_of(b);
    if x.len() != y.len() {
        return false;
    }
    let mut i: usize = 0;
    while i < x.len()
        invariant
            x@ == a@,
            y@ == b@,
            x@.len() == y@.len(),
            0 <= i <= x@.len(),
            forall|k: int| 0 <= k < i ==> #[trigger] ascii_lower_code(x@[k]) == ascii_lower_code(y@[k]),
        decreases x@.len() - i,
    {
        if lower_code(x[i]) != lower_code(y[i]) {
            return false;
        }
        i = i + 1;
    }
    true
}

fn matches_any(tag: &String, interests: &Vec<String>) -> (r: bool)
    ensures
        r == matches_interest(tag@, string_views(interests@)),
{
    let mut j: usize = 0;
    while j < interests.len()
        invariant
            0 <= j <= interests@.len(),
            forall|k: int| 0 <= k < j ==> !#[trigger] eq_ignore_ascii_case(string_views(interests@)[k], tag@),
        decreases interests@.len() - j,
    {
        if str_eq_ignore_ascii_case(interests[j].as_str(), tag.as_str()) {
            assert(eq_ignore_ascii_case(string_views(interests@)[j as int], tag@));
            return true;
        }
        j = j + 1;
    }
    false
}

/// Counts the tags that match one of the interests, ignoring ASCII case.
pub fn count_interest_matches(tags: &Vec<String>, interests: &Vec<String>) -> (n: usize)
    ensures
        n == count_matching(string_views(tags@), string_views(interests@)),
{
    let mut n: usize = 0;
    let mut i: usize = 0;
    while i < tags.len()
        invariant
            0 <= i <= tags@.len(),
            n <= i,
            n == count_matching(string_views(tags@).take(i as int), string_views(interests@)),
        decreases tags@.len() - i,
    {
        let m = matches_any(&tags[i], interests);
        proof {
            let t = string_views(tags@);
            assert(t.take(i + 1).drop_last() =~= t.take(i as int));
            assert(t.take(i + 1).last() == tags@[i as int]@);
        }
        if m {
            n = n + 1;
        }
        i = i + 1;
    }
    proof {
        assert(string_views(tags@).take(tags@.len() as int) =~= string_views(tags@));
    }
    n
}

/// What the profile part of an article's score is made of: `None` where
/// the reader has no interests or the article no tags (the article then
/// passes), else the number of matching tags and the smaller of the two
/// counts, whose quotient, capped at one, is the score.
pub fn profile_match_counts(tags: &Vec<String>, interests: &Vec<String>) -> (r: Option<(usize, usize)>)
    ensures
        (interests@.len() == 0 || tags@.len() == 0) <==> r is None,
        r matches Some((m, d)) ==> {
            &&& m == count_matching(string_views(tags@), string_views(interests@))
            &&& d == if interests@.len() <= tags@.len() { interests@.len() } else { tags@.len() }
        },
{
    if interests.len() == 0 || tags.len() == 0 {
        return None;
    }
    let m = count_interest_matches(tags, interests);
    let d = if interests.len() <= tags.len() { interests.len() } else { tags.len() };
    Some((m, d))
}

} // verus!
