//! Reading the answers of the AI providers, and the checks made before a
//! request is sent.
use vstd::prelude::*;
use vstd::string::StringExecFns;

use crate::ai::providers::{ArticleForSummary, BatchSummaryResult};
use crate::error::Error;
use crate::text::{
    string_views,
    opt_view,
    chars_of, decimal, decimal_string, find, find_first, lowercase, slice_prefix, slice_suffix,
    is_whitespace, split_chars, split_on, str_len, string_of, to_lowercase, trim, trim_chars,
};

verus! {

/// The `[ID]: text` entry on one line of an answer, if the line holds one:
/// after trimming, the line starts with `[`, the ID runs up to the first
/// `]:`, and the text is what follows, trimmed.
pub open spec fn bracket_entry(line: Seq<char>) -> Option<(Seq<char>, Seq<char>)> {
    let t = trim(line);
    if t.len() > 0 && t[0] == '[' {
        match find_first(t, seq![']', ':']) {
            Some(e) => Some((t.subrange(1, e), trim(t.skip(e + 2)))),
            None => None,
        }
    } else {
        None
    }
}

/// The entries found on the given lines, in order.
pub open spec fn bracket_entries(lines: Seq<Seq<char>>) -> Seq<(Seq<char>, Seq<char>)>
    decreases lines.len(),
{
    if lines.len() == 0 {
        Seq::empty()
    } else {
        let rest = bracket_entries(lines.drop_last());
        match bracket_entry(lines.last()) {
            Some(e) => rest.push(e),
            None => rest,
        }
    }
}

/// The `[ID]: text` entries of an answer, line by line. (Lines are split at
/// `\n`; since each is trimmed, a `\r` before the `\n` and an empty last line
/// make no difference to what `str::lines` would give.)
pub open spec fn answer_entries(answer: Seq<char>) -> Seq<(Seq<char>, Seq<char>)> {
    bracket_entries(split_on(answer, '\n'))
}

pub open spec fn entry_views(v: Seq<(String, String)>) -> Seq<(Seq<char>, Seq<char>)> {
    v.map_values(|e: (String, String)| (e.0@, e.1@))
}

/// The `[ID]: text` entry of one line.
pub fn parse_bracket_line(line: &[char]) -> (r: Option<(String, String)>)
    ensures
        r matches Some(e) ==> bracket_entry(line@) == Some((e.0@, e.1@)),
        r is None ==> bracket_entry(line@) is None,
{
    let t = trim_chars(line);
    if t.len() > 0 && t[0] == '[' {
        let mut pat: Vec<char> = Vec::new();
        pat.push(']');
        pat.push(':');
        proof {
            assert(pat@ =~= seq![']', ':']);
        }
        match find(t.as_slice(), pat.as_slice()) {
            Some(e) => {
                proof {
                    assert(t@[0] != ']');
                    if e == 0 {
                        assert(t@.subrange(0, 2)[0] == ']');
                    }
                }
                let prefix = slice_prefix(t.as_slice(), e);
                let id_chars = slice_suffix(prefix.as_slice(), 1);
                let rest = slice_suffix(t.as_slice(), e + 2);
                let text = trim_chars(rest.as_slice());
                proof {
                    assert(id_chars@ =~= t@.subrange(1, e as int));
                }
                Some((string_of(id_chars.as_slice()), string_of(text.as_slice())))
            },
            None => None,
        }
    } else {
        None
    }
}

/// Collects the `[ID]: text` entries of an answer, in order.
pub fn parse_bracket_lines(answer: &str) -> (entries: Vec<(String, String)>)
    ensures
        entry_views(entries@) == answer_entries(answer@),
{
    let chars = chars_of(answer);
    let lines = split_chars(chars.as_slice(), '\n');
    let ghost ls = split_on(answer@, '\n');
    let mut entries: Vec<(String, String)> = Vec::new();
    let mut i: usize = 0;
    while i < lines.len()
        invariant
            0 <= i <= lines@.len(),
            lines@.len() == ls.len(),
            forall|k: int| 0 <= k < lines@.len() ==> #[trigger] lines@[k]@ == ls[k],
            entry_views(entries@) == bracket_entries(ls.take(i as int)),
        decreases lines@.len() - i,
    {
        proof {
            assert(ls.take(i + 1).drop_last() =~= ls.take(i as int));
            assert(ls.take(i + 1).last() == lines@[i as int]@);
        }
        match parse_bracket_line(lines[i].as_slice()) {
            Some(e) => {
                let ghost before = entries@;
                entries.push(e);
                proof {
                    assert(entry_views(entries@) =~= entry_views(before).push((e.0@, e.1@)));
                }
            },
            None => {},
        }
        i = i + 1;
    }
    proof {
        assert(ls.take(ls.len() as int) =~= ls);
    }
    entries
}

/// The text given for `id` among `entries`: the last non-empty one wins, as
/// when the entries are put into a map one after the other.
pub open spec fn lookup_summary(entries: Seq<(Seq<char>, Seq<char>)>, id: Seq<char>) -> Option<Seq<char>>
    decreases entries.len(),
{
    if entries.len() == 0 {
        None
    } else if entries.last().0 == id && entries.last().1.len() > 0 {
        Some(entries.last().1)
    } else {
        lookup_summary(entries.drop_last(), id)
    }
}

/// Whether an article has enough content to be summarized: its trimmed
/// content takes at least `min_len` bytes.
pub open spec fn long_enough(a: ArticleForSummary, min_len: usize) -> bool {
    str_len(trim(a.content@)) >= min_len
}

/// Whether an article has enough content to be summarized.
pub fn is_long_enough(a: &ArticleForSummary, min_len: usize) -> (b: bool)
    ensures
        b == long_enough(*a, min_len),
{
    let c = chars_of(a.content.as_str());
    let t = trim_chars(c.as_slice());
    let ts = string_of(t.as_slice());
    ts.as_str().len() >= min_len
}

pub open spec fn too_short_message(min_len: usize) -> Seq<char> {
    "Content too short (minimum "@ + decimal(min_len as nat) + " chars)"@
}

/// The outcome for one article of a batch summarization whose answer held
/// `entries`: too short, summarized, or missing from the answer.
pub open spec fn summary_outcome(a: ArticleForSummary, entries: Seq<(Seq<char>, Seq<char>)>, min_len: usize) -> (Option<Seq<char>>, Option<Seq<char>>) {
    if !long_enough(a, min_len) {
        (None, Some(too_short_message(min_len)))
    } else {
        match lookup_summary(entries, a.id@) {
            Some(s) => (Some(s), None),
            None => (None, Some("Summary not found in response"@)),
        }
    }
}

/// The last non-empty text given for `id`.
fn find_summary(entries: &Vec<(String, String)>, id: &String) -> (r: Option<String>)
    ensures
        opt_view(r) == lookup_summary(entry_views(entries@), id@),
{
    let mut i = entries.len();
    let ghost ev = entry_views(entries@);
    proof {
        assert(ev.take(i as int) =~= ev);
    }
    while i > 0
        invariant
            0 <= i <= entries@.len(),
            ev == entry_views(entries@),
            lookup_summary(ev, id@) == lookup_summary(ev.take(i as int), id@),
        decreases i,
    {
        let e = &entries[i - 1];
        proof {
            assert(ev.take(i as int).drop_last() =~= ev.take(i - 1));
            assert(ev.take(i as int).last() == (e.0@, e.1@));
        }
        if e.0 == *id && !e.1.as_str().is_empty() {
            return Some(e.1.clone());
        }
        i = i - 1;
    }
    None
}

/// Matches a batch summarization answer to the articles asked about: one
/// result per article, in the order given, each with the article's ID.
pub fn assemble_summary_results(articles: Vec<ArticleForSummary>, answer: &str, min_len: usize) -> (results: Vec<BatchSummaryResult>)
    ensures
        results@.len() == articles@.len(),
        forall|k: int| 0 <= k < results@.len() ==> {
            &&& (#[trigger] results@[k]).id@ == articles@[k].id@
            &&& (opt_view(results@[k].summary), opt_view(results@[k].error))
                == summary_outcome(articles@[k], answer_entries(answer@), min_len)
        },
{
    let entries = parse_bracket_lines(answer);
    let mut results: Vec<BatchSummaryResult> = Vec::new();
    let mut i: usize = 0;
    while i < articles.len()
        invariant
            0 <= i <= articles@.len(),
            entry_views(entries@) == answer_entries(answer@),
            results@.len() == i,
            forall|k: int| 0 <= k < i ==> {
                &&& (#[trigger] results@[k]).id@ == articles@[k].id@
                &&& (opt_view(results@[k].summary), opt_view(results@[k].error))
                    == summary_outcome(articles@[k], answer_entries(answer@), min_len)
            },
        decreases articles@.len() - i,
    {
        let a = &articles[i];
        let r = if !is_long_enough(a, min_len) {
            BatchSummaryResult {
                id: a.id.clone(),
                summary: None,
                error: Some(String::from_str("Content too short (minimum ").concat(decimal_string(min_len as u64).as_str()).concat(" chars)")),
            }
        } else {
            match find_summary(&entries, &a.id) {
                Some(s) => BatchSummaryResult { id: a.id.clone(), summary: Some(s), error: None },
                None => BatchSummaryResult {
                    id: a.id.clone(),
                    summary: None,
                    error: Some(String::from_str("Summary not found in response")),
                },
            }
        };
        results.push(r);
        i = i + 1;
    }
    results
}

/// The id, title and content of an article sent for summarization.
pub open spec fn summary_article_view(a: ArticleForSummary) -> (Seq<char>, Seq<char>, Seq<char>) {
    (a.id@, a.title@, a.content@)
}

/// The articles with enough content to be summarized, in order.
pub open spec fn long_enough_articles(s: Seq<ArticleForSummary>, min_len: usize) -> Seq<ArticleForSummary>
    decreases s.len(),
{
    if s.len() == 0 {
        Seq::empty()
    } else if long_enough(s.last(), min_len) {
        long_enough_articles(s.drop_last(), min_len).push(s.last())
    } else {
        long_enough_articles(s.drop_last(), min_len)
    }
}

/// What a batch summarization does before it asks a model.
#[derive(Debug)]
pub enum SummaryPlan {
    /// There are no articles: there are no results either.
    Nothing,
    /// No article is long enough: each is reported as too short.
    AllTooShort,
    /// Ask the model about these articles, the long-enough ones in order.
    Ask(Vec<ArticleForSummary>),
}

/// Decides what a batch summarization does: nothing for no articles; when
/// none is long enough, report them all too short; otherwise ask about the
/// long-enough ones.
pub fn plan_batch_summary(articles: &Vec<ArticleForSummary>, min_len: usize) -> (p: SummaryPlan)
    ensures
        articles@.len() == 0 ==> p is Nothing,
        articles@.len() > 0 && long_enough_articles(articles@, min_len).len() == 0 ==> p is AllTooShort,
        long_enough_articles(articles@, min_len).len() > 0 ==> (p matches SummaryPlan::Ask(v)
            && v@.map_values(|a: ArticleForSummary| summary_article_view(a))
                == long_enough_articles(articles@, min_len).map_values(|a: ArticleForSummary| summary_article_view(a))),
{
    if articles.len() == 0 {
        proof {
            assert(articles@ =~= Seq::<ArticleForSummary>::empty());
        }
        return SummaryPlan::Nothing;
    }
    let mut valid: Vec<ArticleForSummary> = Vec::new();
    let mut i: usize = 0;
    while i < articles.len()
        invariant
            0 <= i <= articles@.len(),
            valid@.map_values(|a: ArticleForSummary| summary_article_view(a))
                == long_enough_articles(articles@.take(i as int), min_len).map_values(|a: ArticleForSummary| summary_article_view(a)),
            valid@.len() == long_enough_articles(articles@.take(i as int), min_len).len(),
        decreases articles@.len() - i,
    {
        let ghost before = valid@;
        proof {
            assert(articles@.take(i + 1).drop_last() =~= articles@.take(i as int));
            assert(articles@.take(i + 1).last() == articles@[i as int]);
        }
        let a = &articles[i];
        if is_long_enough(a, min_len) {
            let copy = ArticleForSummary {
                id: String::from_str(a.id.as_str()),
                title: String::from_str(a.title.as_str()),
                content: String::from_str(a.content.as_str()),
            };
            valid.push(copy);
            proof {
                assert(summary_article_view(copy) == summary_article_view(articles@[i as int]));
                assert(valid@.map_values(|a: ArticleForSummary| summary_article_view(a))
                    =~= before.map_values(|a: ArticleForSummary| summary_article_view(a)).push(summary_article_view(copy)));
                assert(long_enough_articles(articles@.take(i + 1), min_len).map_values(|a: ArticleForSummary| summary_article_view(a))
                    =~= long_enough_articles(articles@.take(i as int), min_len).map_values(|a: ArticleForSummary| summary_article_view(a))
                        .push(summary_article_view(articles@[i as int])));
            }
        }
        i = i + 1;
    }
    proof {
        assert(articles@.take(articles@.len() as int) =~= articles@);
    }
    if valid.len() == 0 {
        SummaryPlan::AllTooShort
    } else {
        SummaryPlan::Ask(valid)
    }
}

/// The result for every article when none is long enough to be summarized
/// (no request is made then).
pub fn all_too_short(articles: Vec<ArticleForSummary>, min_len: usize) -> (results: Vec<BatchSummaryResult>)
    ensures
        results@.len() == articles@.len(),
        forall|k: int| 0 <= k < results@.len() ==> {
            &&& (#[trigger] results@[k]).id@ == articles@[k].id@
            &&& results@[k].summary is None
            &&& opt_view(results@[k].error) == Some(too_short_message(min_len))
        },
{
    let mut results: Vec<BatchSummaryResult> = Vec::new();
    let mut i: usize = 0;
    while i < articles.len()
        invariant
            0 <= i <= articles@.len(),
            results@.len() == i,
            forall|k: int| 0 <= k < i ==> {
                &&& (#[trigger] results@[k]).id@ == articles@[k].id@
                &&& results@[k].summary is None
                &&& opt_view(results@[k].error) == Some(too_short_message(min_len))
            },
        decreases articles@.len() - i,
    {
        results.push(BatchSummaryResult {
            id: articles[i].id.clone(),
            summary: None,
            error: Some(String::from_str("Content too short (minimum ").concat(decimal_string(min_len as u64).as_str()).concat(" chars)")),
        });
        i = i + 1;
    }
    results
}

/// The candidate tags of an answer: its comma-separated pieces, trimmed and
/// lowercased.
pub open spec fn tag_candidates(answer: Seq<char>) -> Seq<Seq<char>> {
    split_on(answer, ',').map_values(|p: Seq<char>| lowercase(trim(p)))
}

/// Whether a candidate is kept: it must be non-empty and, for the providers
/// that bound tags (`bounded`), shorter than 50 bytes.
pub open spec fn keep_tag(t: Seq<char>, bounded: bool) -> bool {
    t.len() > 0 && (!bounded || str_len(t) < 50)
}

/// The candidates that are kept, in order.
pub open spec fn kept_tags(c: Seq<Seq<char>>, bounded: bool) -> Seq<Seq<char>>
    decreases c.len(),
{
    if c.len() == 0 {
        Seq::empty()
    } else if keep_tag(c.last(), bounded) {
        kept_tags(c.drop_last(), bounded).push(c.last())
    } else {
        kept_tags(c.drop_last(), bounded)
    }
}

/// Most tags kept by the providers that bound tags.
pub const MAX_TAGS: usize = 5;

/// The tags read from an answer: the kept candidates, at most five of them
/// when `bounded`.
pub open spec fn tags_spec(answer: Seq<char>, bounded: bool) -> Seq<Seq<char>> {
    let k = kept_tags(tag_candidates(answer), bounded);
    if bounded && k.len() > 5 {
        k.take(5)
    } else {
        k
    }
}


/// Every kept candidate is a candidate that passes the keeping rule.
proof fn lemma_kept_are_candidates(c: Seq<Seq<char>>, bounded: bool)
    ensures
        forall|t: Seq<char>| #[trigger] kept_tags(c, bounded).contains(t) ==> c.contains(t) && keep_tag(t, bounded),
    decreases c.len(),
{
    if c.len() > 0 {
        lemma_kept_are_candidates(c.drop_last(), bounded);
        assert forall|t: Seq<char>| #[trigger] kept_tags(c, bounded).contains(t) implies c.contains(t) && keep_tag(t, bounded) by {
            let k = kept_tags(c.drop_last(), bounded);
            if keep_tag(c.last(), bounded) && t == c.last() {
                assert(c[c.len() - 1] == t);
            } else {
                if keep_tag(c.last(), bounded) {
                    let i = choose|i: int| 0 <= i < k.push(c.last()).len() && k.push(c.last())[i] == t;
                    assert(k[i] == t);
                }
                assert(k.contains(t));
                let j = choose|j: int| 0 <= j < c.drop_last().len() && c.drop_last()[j] == t;
                assert(c[j] == t);
            }
        }
    }
}

/// Without a bound, every candidate that passes the keeping rule is kept.
proof fn lemma_unbounded_keeps_all(c: Seq<Seq<char>>)
    ensures
        forall|j: int| 0 <= j < c.len() && keep_tag(#[trigger] c[j], false) ==> kept_tags(c, false).contains(c[j]),
    decreases c.len(),
{
    if c.len() > 0 {
        lemma_unbounded_keeps_all(c.drop_last());
        let k = kept_tags(c.drop_last(), false);
        assert forall|j: int| 0 <= j < c.len() && keep_tag(#[trigger] c[j], false) implies kept_tags(c, false).contains(c[j]) by {
            if j == c.len() - 1 {
                assert(k.push(c.last())[k.len() as int] == c[j]);
            } else {
                assert(c.drop_last()[j] == c[j]);
                assert(k.contains(c[j]));
                let i = choose|i: int| 0 <= i < k.len() && k[i] == c[j];
                if keep_tag(c.last(), false) {
                    assert(k.push(c.last())[i] == c[j]);
                }
            }
        }
    }
}

/// The tags of an answer are its comma-separated pieces, each trimmed of
/// white space at both ends and lower-cased, bounded or not: every tag is
/// non-empty and is such a piece. Without a bound, every piece that is not
/// empty after trimming and lower-casing is a tag.
pub proof fn tags_are_trimmed_pieces(answer: Seq<char>, bounded: bool)
    ensures
        forall|t: Seq<char>| #[trigger] tags_spec(answer, bounded).contains(t) ==> t.len() > 0
            && exists|j: int| 0 <= j < split_on(answer, ',').len() && t == lowercase(trim(#[trigger] split_on(answer, ',')[j])),
        forall|j: int| 0 <= j < split_on(answer, ',').len() && lowercase(trim(#[trigger] split_on(answer, ',')[j])).len() > 0
            ==> tags_spec(answer, false).contains(lowercase(trim(split_on(answer, ',')[j]))),
{
    let c = tag_candidates(answer);
    let pieces = split_on(answer, ',');
    lemma_kept_are_candidates(c, bounded);
    lemma_unbounded_keeps_all(c);
    let k = kept_tags(c, bounded);
    assert forall|t: Seq<char>| #[trigger] tags_spec(answer, bounded).contains(t) implies t.len() > 0
        && exists|j: int| 0 <= j < pieces.len() && t == lowercase(trim(#[trigger] pieces[j])) by {
        if bounded && k.len() > 5 {
            let i = choose|i: int| 0 <= i < k.take(5).len() && k.take(5)[i] == t;
            assert(k[i] == t);
        }
        assert(k.contains(t));
        assert(c.contains(t));
        let j = choose|j: int| 0 <= j < c.len() && c[j] == t;
        assert(c[j] == lowercase(trim(pieces[j])));
    }
    assert forall|j: int| 0 <= j < pieces.len() && lowercase(trim(#[trigger] pieces[j])).len() > 0
        implies tags_spec(answer, false).contains(lowercase(trim(pieces[j]))) by {
        assert(c[j] == lowercase(trim(pieces[j])));
        assert(keep_tag(c[j], false));
    }
}

/// Trimming leaves no white space at either end.
pub proof fn trimmed_has_no_edge_whitespace(s: Seq<char>)
    ensures
        trim(s).len() > 0 ==> !is_whitespace(trim(s)[0]) && !is_whitespace(trim(s).last()),
{
    crate::text::lemma_trim_edges(s);
}

/// Reads the tags from a comma-separated answer.
pub fn parse_tags(answer: &str, bounded: bool) -> (tags: Vec<String>)
    ensures
        string_views(tags@) == tags_spec(answer@, bounded),
        bounded ==> tags@.len() <= MAX_TAGS,
{
    let chars = chars_of(answer);
    let pieces = split_chars(chars.as_slice(), ',');
    let ghost cands = tag_candidates(answer@);
    let mut tags: Vec<String> = Vec::new();
    let mut i: usize = 0;
    while i < pieces.len()
        invariant
            0 <= i <= pieces@.len(),
            pieces@.len() == split_on(answer@, ',').len(),
            forall|k: int| 0 <= k < pieces@.len() ==> #[trigger] pieces@[k]@ == split_on(answer@, ',')[k],
            cands == tag_candidates(answer@),
            cands.len() == pieces@.len(),
            string_views(tags@) == kept_tags(cands.take(i as int), bounded),
        decreases pieces@.len() - i,
    {
        let t = trim_chars(pieces[i].as_slice());
        let ts = string_of(t.as_slice());
        let lowered = to_lowercase(ts.as_str());
        proof {
            assert(cands.take(i + 1).drop_last() =~= cands.take(i as int));
            assert(cands[i as int] == lowercase(trim(pieces@[i as int]@)));
            assert(cands.take(i + 1).last() == lowered@);
        }
        let keep = !lowered.as_str().is_empty() && (!bounded || lowered.as_str().len() < 50);
        if keep {
            let ghost before = tags@;
            tags.push(lowered);
            proof {
                assert(string_views(tags@) =~= string_views(before).push(lowered@));
            }
        }
        i = i + 1;
    }
    proof {
        assert(cands.take(cands.len() as int) =~= cands);
    }
    if bounded && tags.len() > MAX_TAGS {
        let ghost all = tags@;
        tags.truncate(MAX_TAGS);
        proof {
            assert(string_views(tags@) =~= string_views(all).take(5));
        }
    }
    tags
}

/// Minimum trimmed content, in bytes, worth a tag extraction request.
pub const MIN_TAGGABLE_LENGTH: usize = 50;

/// Whether the content is long enough for tags to be extracted; shorter
/// content gets no tags and no request.
pub fn worth_tagging(content: &str) -> (b: bool)
    ensures
        b == (str_len(trim(content@)) >= MIN_TAGGABLE_LENGTH),
{
    let c = chars_of(content);
    let t = trim_chars(c.as_slice());
    let ts = string_of(t.as_slice());
    ts.as_str().len() >= MIN_TAGGABLE_LENGTH
}

/// Number of lines of `s`, as `str::lines().count()` gives it: the line
/// breaks, plus one for a last line that does not end in a break.
pub open spec fn line_count(s: Seq<char>) -> nat {
    if s.len() == 0 {
        0
    } else {
        s.filter(|c: char| c == '\n').len() + if s.last() == '\n' { 0nat } else { 1nat }
    }
}

pub open spec fn short_content_message(len: usize, min: usize) -> Seq<char> {
    "Content too short to summarize ("@ + decimal(len as nat) + " chars, minimum "@ + decimal(min as nat) + ")"@
}

/// Whether `s` looks like a bare web address.
pub open spec fn starts_like_url(s: Seq<char>) -> bool {
    "http://"@.is_prefix_of(s) || "https://"@.is_prefix_of(s)
}

/// The check the command-line providers make before a summarization
/// request: the trimmed content must take at least `min_len` bytes, and must
/// not be a web address on at most two lines.
pub open spec fn cli_summary_check_spec(content: Seq<char>, min_len: usize) -> Option<Seq<char>> {
    let t = trim(content);
    if str_len(t) < min_len {
        Some(short_content_message(str_len(t), min_len))
    } else if starts_like_url(t) && line_count(t) <= 2 {
        Some("Content appears to be just a URL"@)
    } else {
        None
    }
}

fn count_newlines(s: &[char]) -> (n: usize)
    ensures
        n == s@.filter(|c: char| c == '\n').len(),
{
    let mut n: usize = 0;
    let mut i: usize = 0;
    while i < s.len()
        invariant
            0 <= i <= s@.len(),
            n == s@.take(i as int).filter(|c: char| c == '\n').len(),
            n <= i,
        decreases s@.len() - i,
    {
        proof {
            assert(s@.take(i + 1).drop_last() =~= s@.take(i as int));
            reveal(Seq::filter);
        }
        if s[i] == '\n' {
            n = n + 1;
        }
        i = i + 1;
    }
    proof {
        assert(s@.take(s@.len() as int) =~= s@);
    }
    n
}

/// Checks content before a command-line summarization request.
pub fn cli_summary_check(content: &str, min_len: usize) -> (r: Result<(), Error>)
    ensures
        r is Ok <==> cli_summary_check_spec(content@, min_len) is None,
        r matches Err(e) ==> e matches Error::AiProvider(m) && Some(m@) == cli_summary_check_spec(content@, min_len),
{
    let c = chars_of(content);
    let t = trim_chars(c.as_slice());
    let ts = string_of(t.as_slice());
    let len = ts.as_str().len();
    if len < min_len {
        return Err(Error::AiProvider(String::from_str("Content too short to summarize (").concat(decimal_string(len as u64).as_str())
            .concat(" chars, minimum ").concat(decimal_string(min_len as u64).as_str()).concat(")")));
    }
    let http = chars_of("http://");
    let https = chars_of("https://");
    if crate::text::starts_with(t.as_slice(), http.as_slice()) || crate::text::starts_with(t.as_slice(), https.as_slice()) {
        let breaks = count_newlines(t.as_slice());
        let at_most_two_lines = if t.len() == 0 { true } else if t[t.len() - 1] == '\n' { breaks <= 2 } else { breaks <= 1 };
        if at_most_two_lines {
            return Err(Error::AiProvider(String::from_str("Content appears to be just a URL")));
        }
    }
    Ok(())
}

/// The check the API providers make before a summarization request: the
/// trimmed content must take at least 1000 bytes.
pub fn api_summary_check(content: &str) -> (r: Result<(), Error>)
    ensures
        r is Ok <==> str_len(trim(content@)) >= crate::ai::providers::API_MIN_CONTENT_LENGTH,
        r matches Err(e) ==> e matches Error::AiProvider(m)
            && m@ == short_content_message(str_len(trim(content@)), crate::ai::providers::API_MIN_CONTENT_LENGTH),
{
    let c = chars_of(content);
    let t = trim_chars(c.as_slice());
    let ts = string_of(t.as_slice());
    let len = ts.as_str().len();
    if len < crate::ai::providers::API_MIN_CONTENT_LENGTH {
        return Err(Error::AiProvider(String::from_str("Content too short to summarize (").concat(decimal_string(len as u64).as_str())
            .concat(" chars, minimum ").concat(decimal_string(crate::ai::providers::API_MIN_CONTENT_LENGTH as u64).as_str()).concat(")")));
    }
    Ok(())
}

/// Whether `c` is stripped from around a JSON answer: a backtick or a
/// line feed.
pub open spec fn is_fence_char(c: char) -> bool {
    c == '`' || c == '\n'
}

/// `s` without its leading backticks and line feeds.
pub open spec fn strip_fence_start(s: Seq<char>) -> Seq<char>
    decreases s.len(),
{
    if s.len() > 0 && is_fence_char(s[0]) {
        strip_fence_start(s.drop_first())
    } else {
        s
    }
}

/// `s` without its trailing backticks and line feeds.
pub open spec fn strip_fence_end(s: Seq<char>) -> Seq<char>
    decreases s.len(),
{
    if s.len() > 0 && is_fence_char(s.last()) {
        strip_fence_end(s.drop_last())
    } else {
        s
    }
}

/// A JSON answer cleaned of white space and of the backticks and line
/// feeds of a code block around it.
pub open spec fn clean_json_answer_spec(answer: Seq<char>) -> Seq<char> {
    strip_fence_end(strip_fence_start(trim(answer)))
}

/// Cleans a model's JSON answer before it is read.
pub fn clean_json_answer(answer: &str) -> (s: String)
    ensures
        s@ == clean_json_answer_spec(answer@),
{
    let chars = chars_of(answer);
    let t = trim_chars(chars.as_slice());
    let mut start: usize = 0;
    proof {
        assert(t@.skip(0) =~= t@);
    }
    while start < t.len() && (t[start] == '`' || t[start] == '\n')
        invariant
            0 <= start <= t@.len(),
            strip_fence_start(t@.skip(start as int)) == strip_fence_start(t@),
        decreases t@.len() - start,
    {
        proof {
            assert(t@.skip(start as int).drop_first() =~= t@.skip(start + 1));
        }
        start = start + 1;
    }
    let u = slice_suffix(t.as_slice(), start);
    let mut end = u.len();
    proof {
        assert(u@.take(end as int) =~= u@);
    }
    while end > 0 && (u[end - 1] == '`' || u[end - 1] == '\n')
        invariant
            0 <= end <= u@.len(),
            strip_fence_end(u@.take(end as int)) == strip_fence_end(u@),
        decreases end,
    {
        proof {
            assert(u@.take(end as int).drop_last() =~= u@.take(end - 1));
        }
        end = end - 1;
    }
    let v = slice_prefix(u.as_slice(), end);
    string_of(v.as_slice())
}

/// What a model API call gives: the API's error as "<provider> API error:
/// <message>", else the text of the first answer, else nothing.
pub fn api_answer(provider: &str, error: Option<String>, first_text: Option<String>) -> (r: Result<String, Error>)
    ensures
        error matches Some(m) ==> (r matches Err(Error::AiProvider(e)) && e@ == provider@ + " API error: "@ + m@),
        error is None ==> (r matches Ok(t) && t@ == match first_text {
            Some(x) => x@,
            None => Seq::empty(),
        }),
{
    match error {
        Some(m) => Err(Error::AiProvider(String::from_str(provider).concat(" API error: ").concat(m.as_str()))),
        None => match first_text {
            Some(t) => Ok(t),
            None => Ok(String::new()),
        },
    }
}

} // verus!
