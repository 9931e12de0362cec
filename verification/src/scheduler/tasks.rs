//! What the background tasks decide: which articles go to the AI, what is
//! sent for them, what is kept of the answers, and how feeds are paced.
//! The database and the AI calls are made by the application.
use vstd::prelude::*;
use vstd::string::StringExecFns;

use crate::ai::providers::{ArticleForScoring, ArticleForSummary, BatchSummaryResult};
use crate::feed::models::Article;
use crate::ids::{parse_uuid, uuid_parsed, uuid_string, uuid_text};
use crate::text::{chars_of, str_len, string_of, take_chars, trim, trim_chars, truncate_chars};

verus! {

/// Maximum content length per article (longer content is cut).
pub const CONTENT_TRUNCATE_LIMIT: usize = 4000;

/// Maximum articles fetched for summarization in one cycle.
pub const MAX_ARTICLES_PER_CYCLE: u32 = 500;

/// How many unread articles the scoring stage looks at.
pub const SCORING_UNREAD_LIMIT: u32 = 1000;

/// How many of the reader's top tags the scoring stage uses.
pub const TOP_INTERESTS: u32 = 10;

/// The id, title and content of an article sent for summarization.
pub open spec fn summary_view(a: ArticleForSummary) -> (Seq<char>, Seq<char>, Seq<char>) {
    (a.id@, a.title@, a.content@)
}

/// What is sent for summarization of `articles`: each article with plain
/// text, under its hyphenated id, with the text cut to 4000 characters.
pub open spec fn summary_inputs(articles: Seq<Article>) -> Seq<(Seq<char>, Seq<char>, Seq<char>)>
    decreases articles.len(),
{
    if articles.len() == 0 {
        Seq::empty()
    } else {
        let rest = summary_inputs(articles.drop_last());
        let a = articles.last();
        match a.content_text {
            Some(c) => rest.push((uuid_text(a.id), a.title@, take_chars(c@, CONTENT_TRUNCATE_LIMIT as int))),
            None => rest,
        }
    }
}

/// The articles to summarize, in the form the summarizer takes.
pub fn articles_to_summarize(articles: &Vec<Article>) -> (r: Vec<ArticleForSummary>)
    ensures
        r@.map_values(|a: ArticleForSummary| summary_view(a)) == summary_inputs(articles@),
{
    let mut r: Vec<ArticleForSummary> = Vec::new();
    let mut i: usize = 0;
    while i < articles.len()
        invariant
            0 <= i <= articles@.len(),
            r@.map_values(|a: ArticleForSummary| summary_view(a)) == summary_inputs(articles@.take(i as int)),
        decreases articles@.len() - i,
    {
        let a = &articles[i];
        proof {
            assert(articles@.take(i + 1).drop_last() =~= articles@.take(i as int));
            assert(articles@.take(i + 1).last() == articles@[i as int]);
        }
        match &a.content_text {
            Some(content) => {
                let truncated = truncate_chars(content.as_str(), CONTENT_TRUNCATE_LIMIT);
                let item = ArticleForSummary {
                    id: uuid_string(a.id),
                    title: a.title.clone(),
                    content: String::from_str(truncated),
                };
                let ghost before = r@;
                r.push(item);
                proof {
                    assert(r@.map_values(|a: ArticleForSummary| summary_view(a)) =~= before.map_values(
                        |a: ArticleForSummary| summary_view(a),
                    ).push(summary_view(item)));
                }
            },
            None => {},
        }
        i = i + 1;
    }
    proof {
        assert(articles@.take(articles@.len() as int) =~= articles@);
    }
    r
}

/// The ids that can be read back from the pending articles, in order.
pub open spec fn readable_ids(pending: Seq<ArticleForSummary>) -> Seq<u128>
    decreases pending.len(),
{
    if pending.len() == 0 {
        Seq::empty()
    } else {
        let rest = readable_ids(pending.drop_last());
        match uuid_parsed(pending.last().id@) {
            Some(id) => rest.push(id),
            None => rest,
        }
    }
}

/// The ids of the pending articles, to ask which are still unread.
pub fn pending_ids(pending: &Vec<ArticleForSummary>) -> (ids: Vec<u128>)
    ensures
        ids@ == readable_ids(pending@),
{
    let mut ids: Vec<u128> = Vec::new();
    let mut i: usize = 0;
    while i < pending.len()
        invariant
            0 <= i <= pending@.len(),
            ids@ == readable_ids(pending@.take(i as int)),
        decreases pending@.len() - i,
    {
        proof {
            assert(pending@.take(i + 1).drop_last() =~= pending@.take(i as int));
        }
        match parse_uuid(pending[i].id.as_str()) {
            Some(id) => ids.push(id),
            None => {},
        }
        i = i + 1;
    }
    proof {
        assert(pending@.take(pending@.len() as int) =~= pending@);
    }
    ids
}

/// Whether a pending article is still to be summarized: its id reads back
/// and is among the unread ones.
pub open spec fn still_unread(a: ArticleForSummary, unread: Seq<u128>) -> bool {
    match uuid_parsed(a.id@) {
        Some(id) => unread.contains(id),
        None => false,
    }
}

fn contains_id(ids: &Vec<u128>, id: u128) -> (b: bool)
    ensures
        b == ids@.contains(id),
{
    let mut j: usize = 0;
    while j < ids.len()
        invariant
            0 <= j <= ids@.len(),
            forall|k: int| 0 <= k < j ==> ids@[k] != id,
        decreases ids@.len() - j,
    {
        if ids[j] == id {
            return true;
        }
        j = j + 1;
    }
    false
}

/// Drops from `pending` the articles that are no longer unread, keeping the
/// order of the others.
pub fn retain_unread(pending: &mut Vec<ArticleForSummary>, unread_ids: &Vec<u128>)
    ensures
        final(pending)@ == old(pending)@.filter(|a: ArticleForSummary| still_unread(a, unread_ids@)),
{
    let ghost orig = pending@;
    let mut all: Vec<ArticleForSummary> = Vec::new();
    std::mem::swap(&mut all, pending);
    let mut kept: Vec<ArticleForSummary> = Vec::new();
    let ghost pred = |a: ArticleForSummary| still_unread(a, unread_ids@);
    let n = all.len();
    let mut i: usize = 0;
    for a in it: all
        invariant
            it.seq() == orig,
            i == it.index(),
            i <= orig.len(),
            n == orig.len(),
            kept@ == orig.take(i as int).filter(pred),
            pred == (|a: ArticleForSummary| still_unread(a, unread_ids@)),
    {
        proof {
            assert(orig.take(i + 1).drop_last() =~= orig.take(i as int));
            assert(orig.take(i + 1).last() == a);
            reveal(Seq::filter);
        }
        let keep = match parse_uuid(a.id.as_str()) {
            Some(id) => contains_id(unread_ids, id),
            None => false,
        };
        if keep {
            kept.push(a);
        }
        i = i + 1;
    }
    proof {
        assert(orig.take(orig.len() as int) =~= orig);
    }
    *pending = kept;
}

/// The summaries of a batch answer that can be stored: those given for an
/// id that reads back, in order.
pub open spec fn storable_summaries(results: Seq<BatchSummaryResult>) -> Seq<(u128, Seq<char>)>
    decreases results.len(),
{
    if results.len() == 0 {
        Seq::empty()
    } else {
        let rest = storable_summaries(results.drop_last());
        let r = results.last();
        match (r.summary, uuid_parsed(r.id@)) {
            (Some(s), Some(id)) => rest.push((id, s@)),
            _ => rest,
        }
    }
}

/// The summaries of a batch answer to store, with their article ids.
pub fn summaries_to_store(results: &Vec<BatchSummaryResult>) -> (r: Vec<(u128, String)>)
    ensures
        r@.map_values(|p: (u128, String)| (p.0, p.1@)) == storable_summaries(results@),
{
    let mut r: Vec<(u128, String)> = Vec::new();
    let mut i: usize = 0;
    while i < results.len()
        invariant
            0 <= i <= results@.len(),
            r@.map_values(|p: (u128, String)| (p.0, p.1@)) == storable_summaries(results@.take(i as int)),
        decreases results@.len() - i,
    {
        proof {
            assert(results@.take(i + 1).drop_last() =~= results@.take(i as int));
            assert(results@.take(i + 1).last() == results@[i as int]);
        }
        let res = &results[i];
        match &res.summary {
            Some(s) => {
                match parse_uuid(res.id.as_str()) {
                    Some(id) => {
                        let ghost before = r@;
                        r.push((id, s.clone()));
                        proof {
                            assert(r@.map_values(|p: (u128, String)| (p.0, p.1@)) =~= before.map_values(
                                |p: (u128, String)| (p.0, p.1@),
                            ).push((id, s@)));
                        }
                    },
                    None => {},
                }
            },
            None => {},
        }
        i = i + 1;
    }
    proof {
        assert(results@.take(results@.len() as int) =~= results@);
    }
    r
}

/// Whether an unread article is scored without a summary: it has none, and
/// its trimmed plain text is shorter than `min_len` bytes (or it has no
/// plain text at all).
pub open spec fn short_unsummarized(a: Article, min_len: usize) -> bool {
    a.summary is None && match a.content_text {
        Some(c) => str_len(trim(c@)) < min_len,
        None => true,
    }
}

/// Whether the article is scored from its own text, not from a summary.
pub fn is_short_unsummarized(a: &Article, min_len: usize) -> (b: bool)
    ensures
        b == short_unsummarized(*a, min_len),
{
    if a.summary.is_some() {
        return false;
    }
    match &a.content_text {
        Some(c) => {
            let chars = chars_of(c.as_str());
            let t = trim_chars(chars.as_slice());
            let ts = string_of(t.as_slice());
            ts.as_str().len() < min_len
        },
        None => true,
    }
}

/// Keeps the unread articles that are scored from their own text.
pub fn select_short_unsummarized(articles: Vec<Article>, min_len: usize) -> (r: Vec<Article>)
    ensures
        r@ == articles@.filter(|a: Article| short_unsummarized(a, min_len)),
{
    let ghost orig = articles@;
    let ghost pred = |a: Article| short_unsummarized(a, min_len);
    let mut kept: Vec<Article> = Vec::new();
    let n = articles.len();
    let mut i: usize = 0;
    for a in it: articles
        invariant
            it.seq() == orig,
            i == it.index(),
            i <= orig.len(),
            n == orig.len(),
            kept@ == orig.take(i as int).filter(pred),
            pred == (|a: Article| short_unsummarized(a, min_len)),
    {
        proof {
            assert(orig.take(i + 1).drop_last() =~= orig.take(i as int));
            assert(orig.take(i + 1).last() == a);
            reveal(Seq::filter);
        }
        if is_short_unsummarized(&a, min_len) {
            kept.push(a);
        }
        i = i + 1;
    }
    proof {
        assert(orig.take(orig.len() as int) =~= orig);
    }
    kept
}

/// The id and text of an article sent for scoring.
pub open spec fn scoring_view(a: ArticleForScoring) -> (Seq<char>, Seq<char>) {
    (a.id@, a.content@)
}

/// What is scored for summarized articles: the title, a blank line and the
/// summary.
pub open spec fn summarized_scoring_inputs(articles: Seq<Article>) -> Seq<(Seq<char>, Seq<char>)>
    decreases articles.len(),
{
    if articles.len() == 0 {
        Seq::empty()
    } else {
        let rest = summarized_scoring_inputs(articles.drop_last());
        let a = articles.last();
        match a.summary {
            Some(s) => rest.push((uuid_text(a.id), a.title@ + "\n\n"@ + s@)),
            None => rest,
        }
    }
}

/// What is scored for short articles: the title, a blank line and the
/// plain text, or the title alone.
pub open spec fn short_scoring_inputs(articles: Seq<Article>) -> Seq<(Seq<char>, Seq<char>)>
    decreases articles.len(),
{
    if articles.len() == 0 {
        Seq::empty()
    } else {
        let rest = short_scoring_inputs(articles.drop_last());
        let a = articles.last();
        match a.content_text {
            Some(t) => rest.push((uuid_text(a.id), a.title@ + "\n\n"@ + t@)),
            None => rest.push((uuid_text(a.id), a.title@)),
        }
    }
}

/// The articles to score: the summarized ones first, then the short ones.
pub fn scoring_inputs(summarized: &Vec<Article>, short: &Vec<Article>) -> (r: Vec<ArticleForScoring>)
    ensures
        r@.map_values(|a: ArticleForScoring| scoring_view(a)) == summarized_scoring_inputs(summarized@)
            + short_scoring_inputs(short@),
{
    let mut r: Vec<ArticleForScoring> = Vec::new();
    let mut i: usize = 0;
    while i < summarized.len()
        invariant
            0 <= i <= summarized@.len(),
            r@.map_values(|a: ArticleForScoring| scoring_view(a)) == summarized_scoring_inputs(summarized@.take(i as int)),
        decreases summarized@.len() - i,
    {
        let a = &summarized[i];
        proof {
            assert(summarized@.take(i + 1).drop_last() =~= summarized@.take(i as int));
            assert(summarized@.take(i + 1).last() == summarized@[i as int]);
        }
        match &a.summary {
            Some(s) => {
                let content = a.title.clone().concat("\n\n").concat(s.as_str());
                let item = ArticleForScoring { id: uuid_string(a.id), content };
                let ghost before = r@;
                r.push(item);
                proof {
                    assert(r@.map_values(|a: ArticleForScoring| scoring_view(a)) =~= before.map_values(
                        |a: ArticleForScoring| scoring_view(a),
                    ).push(scoring_view(item)));
                }
            },
            None => {},
        }
        i = i + 1;
    }
    proof {
        assert(summarized@.take(summarized@.len() as int) =~= summarized@);
    }
    let ghost first = r@.map_values(|a: ArticleForScoring| scoring_view(a));
    let mut j: usize = 0;
    while j < short.len()
        invariant
            0 <= j <= short@.len(),
            first == summarized_scoring_inputs(summarized@),
            r@.map_values(|a: ArticleForScoring| scoring_view(a)) == first + short_scoring_inputs(short@.take(j as int)),
        decreases short@.len() - j,
    {
        let a = &short[j];
        proof {
            assert(short@.take(j + 1).drop_last() =~= short@.take(j as int));
            assert(short@.take(j + 1).last() == short@[j as int]);
        }
        let content = match &a.content_text {
            Some(t) => a.title.clone().concat("\n\n").concat(t.as_str()),
            None => a.title.clone(),
        };
        let item = ArticleForScoring { id: uuid_string(a.id), content };
        let ghost before = r@;
        r.push(item);
        proof {
            assert(r@.map_values(|a: ArticleForScoring| scoring_view(a)) =~= before.map_values(
                |a: ArticleForScoring| scoring_view(a),
            ).push(scoring_view(item)));
        }
        j = j + 1;
    }
    proof {
        assert(short@.take(short@.len() as int) =~= short@);
    }
    r
}

/// Which feeds a refresh goes through.
#[derive(Debug, Clone, Copy, PartialEq, Eq, Structural)]
pub enum RefreshScope {
    /// Only the feeds not fetched within this many seconds.
    Stale { interval_secs: u64 },
    /// Every feed.
    All,
}

/// With a per-feed refresh interval, only stale feeds are refreshed; an
/// interval of 0 refreshes every feed every time.
pub fn refresh_scope(feed_refresh_interval_secs: u64) -> (s: RefreshScope)
    ensures
        feed_refresh_interval_secs > 0 ==> s == (RefreshScope::Stale { interval_secs: feed_refresh_interval_secs }),
        feed_refresh_interval_secs == 0 ==> s == RefreshScope::All,
{
    if feed_refresh_interval_secs > 0 {
        RefreshScope::Stale { interval_secs: feed_refresh_interval_secs }
    } else {
        RefreshScope::All
    }
}

/// Whether to wait the rate limit after the feed at `index` of `count`:
/// between feeds, never after the last one, and only for a limit above 0.
pub fn pause_after_feed(index: usize, count: usize, rate_limit_ms: u64) -> (p: bool)
    requires
        index < count,
    ensures
        p == (rate_limit_ms > 0 && index + 1 < count),
{
    rate_limit_ms > 0 && index < count - 1
}

/// The text an article is classified by: its content, else its title.
pub fn style_input<'a>(content: &'a Option<String>, title: &'a String) -> (s: &'a str)
    ensures
        content matches Some(c) ==> s@ == c@,
        content is None ==> s@ == title@,
{
    match content {
        Some(c) => c.as_str(),
        None => title.as_str(),
    }
}

} // verus!
