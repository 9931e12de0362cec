use vstd::prelude::*;

use crate::ai::providers::{ArticleForScoring, ArticleForSummary};
use crate::text::str_len;

verus! {

/// Prompt overhead counted for each article in a summarization batch.
pub const SUMMARY_OVERHEAD_PER_ARTICLE: usize = 200;

/// Base prompt overhead of a summarization batch.
pub const SUMMARY_BASE_OVERHEAD: usize = 1000;

/// Prompt overhead counted for each article in a scoring batch.
pub const SCORING_OVERHEAD_PER_ARTICLE: usize = 100;

/// Base prompt overhead of a scoring batch.
pub const SCORING_BASE_OVERHEAD: usize = 300;

/// Characters that an article takes in a summarization prompt.
pub open spec fn summary_cost(a: ArticleForSummary) -> int {
    str_len(a.content@) + str_len(a.title@) + SUMMARY_OVERHEAD_PER_ARTICLE
}

/// Characters that an article takes in a scoring prompt.
pub open spec fn scoring_cost(a: ArticleForScoring) -> int {
    str_len(a.content@) + SCORING_OVERHEAD_PER_ARTICLE
}

/// Total summarization cost of the first `k` articles of `s`.
pub open spec fn summary_cost_prefix(s: Seq<ArticleForSummary>, k: int) -> int
    decreases k,
{
    if k <= 0 || s.len() == 0 {
        0
    } else if k > s.len() {
        summary_cost_prefix(s, s.len() as int)
    } else {
        summary_cost_prefix(s, k - 1) + summary_cost(s[k - 1])
    }
}

/// Total scoring cost of the articles in `s`.
pub open spec fn scoring_cost_sum(s: Seq<ArticleForScoring>) -> int
    decreases s.len(),
{
    if s.len() == 0 {
        0
    } else {
        scoring_cost_sum(s.drop_last()) + scoring_cost(s.last())
    }
}

/// The character budget of one summarization batch.
pub open spec fn summary_effective_limit(char_limit: usize) -> int {
    if char_limit >= SUMMARY_BASE_OVERHEAD {
        char_limit - SUMMARY_BASE_OVERHEAD
    } else {
        0
    }
}

/// `k` is the size of the batch that greedy filling takes from the front of
/// `pending`: the first article always goes in, and each further one goes in
/// while the running total stays within `limit`.
pub open spec fn is_greedy_batch_size(pending: Seq<ArticleForSummary>, limit: int, k: int) -> bool {
    &&& 0 <= k <= pending.len()
    &&& (pending.len() > 0 <==> k > 0)
    &&& (k >= 2 ==> summary_cost_prefix(pending, k) <= limit)
    &&& (0 < k < pending.len() ==> summary_cost_prefix(pending, k + 1) > limit)
}

proof fn lemma_summary_prefix_step(s: Seq<ArticleForSummary>, k: int)
    requires
        0 <= k < s.len(),
    ensures
        summary_cost_prefix(s, k + 1) == summary_cost_prefix(s, k) + summary_cost(s[k]),
{
}

proof fn lemma_summary_prefix_nonneg(s: Seq<ArticleForSummary>, k: int)
    requires
        0 <= k <= s.len(),
    ensures
        summary_cost_prefix(s, k) >= 0,
    decreases k,
{
    if k > 0 {
        lemma_summary_prefix_nonneg(s, k - 1);
    }
}

/// Whether the total summarization cost of `pending` can be counted in a
/// `usize`, which `create_single_batch` needs.
pub fn summary_costs_fit(pending: &Vec<ArticleForSummary>) -> (b: bool)
    ensures
        b == (summary_cost_prefix(pending@, pending@.len() as int) <= usize::MAX),
{
    let mut total: usize = 0;
    let mut k: usize = 0;
    while k < pending.len()
        invariant
            0 <= k <= pending@.len(),
            total == summary_cost_prefix(pending@, k as int),
        decreases pending@.len() - k,
    {
        proof {
            lemma_summary_prefix_step(pending@, k as int);
            lemma_summary_prefix_nonneg(pending@, k as int);
        }
        let a = &pending[k];
        let c = a.content.as_str().len().checked_add(a.title.as_str().len());
        let c = match c {
            Some(c) => c.checked_add(SUMMARY_OVERHEAD_PER_ARTICLE),
            None => None,
        };
        let t = match c {
            Some(c) => total.checked_add(c),
            None => None,
        };
        match t {
            Some(t) => {
                total = t;
            },
            None => {
                proof {
                    lemma_summary_prefix_monotone(pending@, k as int + 1, pending@.len() as int);
                }
                return false;
            },
        }
        k = k + 1;
    }
    true
}

/// Removes from the front of `pending` the articles of the next summarization
/// batch and returns them in their original order. The batch is filled
/// greedily: the first pending article always goes in, and each further one
/// goes in while the prompt stays within `char_limit` less the base overhead.
pub fn create_single_batch(pending: &mut Vec<ArticleForSummary>, char_limit: usize) -> (batch: Vec<ArticleForSummary>)
    requires
        summary_cost_prefix(old(pending)@, old(pending)@.len() as int) <= usize::MAX,
    ensures
        is_greedy_batch_size(old(pending)@, summary_effective_limit(char_limit), batch@.len() as int),
        batch@ == old(pending)@.take(batch@.len() as int),
        final(pending)@ == old(pending)@.skip(batch@.len() as int),
{
    let ghost orig = pending@;
    let effective_limit = char_limit.saturating_sub(SUMMARY_BASE_OVERHEAD);
    let n = pending.len();
    let mut current_chars: usize = 0;
    let mut k: usize = 0;
    proof {
        lemma_summary_prefix_nonneg(orig, n as int);
    }
    while k < n
        invariant
            pending@ == orig,
            n == orig.len(),
            0 <= k <= n,
            effective_limit == summary_effective_limit(char_limit),
            current_chars == summary_cost_prefix(orig, k as int),
            summary_cost_prefix(orig, n as int) <= usize::MAX,
            k >= 2 ==> summary_cost_prefix(orig, k as int) <= effective_limit,
        ensures
            k > 0 || n == 0,
            0 <= k <= n,
            k >= 2 ==> summary_cost_prefix(orig, k as int) <= effective_limit,
            0 < k < n ==> summary_cost_prefix(orig, k + 1) > effective_limit,
        decreases n - k,
    {
        let article = &pending[k];
        proof {
            lemma_summary_prefix_step(orig, k as int);
            lemma_summary_prefix_monotone(orig, k as int + 1, n as int);
        }
        let article_chars = article.content.as_str().len() + article.title.as_str().len()
            + SUMMARY_OVERHEAD_PER_ARTICLE;
        if k > 0 && (current_chars > effective_limit || article_chars > effective_limit - current_chars) {
            break;
        }
        current_chars = current_chars + article_chars;
        k = k + 1;
    }
    let mut batch = pending.split_off(k);
    std::mem::swap(pending, &mut batch);
    proof {
        assert(batch@ =~= orig.take(k as int));
        assert(pending@ =~= orig.skip(k as int));
    }
    batch
}

proof fn lemma_summary_prefix_monotone(s: Seq<ArticleForSummary>, j: int, k: int)
    requires
        0 <= j <= k <= s.len(),
    ensures
        summary_cost_prefix(s, j) <= summary_cost_prefix(s, k),
    decreases k - j,
{
    if j < k {
        lemma_summary_prefix_monotone(s, j, k - 1);
    }
}

/// The contents of each batch.
pub open spec fn batch_views(batches: Seq<Vec<ArticleForScoring>>) -> Seq<Seq<ArticleForScoring>> {
    batches.map_values(|b: Vec<ArticleForScoring>| b@)
}

/// `batches` is the greedy split of `items` under `limit`: the batches put
/// together in order give back `items`, none is empty, a batch of two or more
/// articles stays within `limit`, and each batch was closed only because its
/// successor's first article would have pushed it over `limit`.
pub open spec fn is_greedy_partition(items: Seq<ArticleForScoring>, batches: Seq<Seq<ArticleForScoring>>, limit: int) -> bool {
    &&& batches.flatten() == items
    &&& forall|i: int| 0 <= i < batches.len() ==> #[trigger] batches[i].len() > 0
    &&& forall|i: int| 0 <= i < batches.len() && #[trigger] batches[i].len() >= 2
        ==> scoring_cost_sum(batches[i]) <= limit
    &&& forall|i: int| 0 <= i < batches.len() - 1
        ==> scoring_cost_sum(#[trigger] batches[i]) + scoring_cost(batches[i + 1][0]) > limit
}

proof fn lemma_scoring_sum_push(s: Seq<ArticleForScoring>, a: ArticleForScoring)
    ensures
        scoring_cost_sum(s.push(a)) == scoring_cost_sum(s) + scoring_cost(a),
{
    assert(s.push(a).drop_last() =~= s);
}

proof fn lemma_scoring_sum_concat(s: Seq<ArticleForScoring>, t: Seq<ArticleForScoring>)
    ensures
        scoring_cost_sum(s + t) == scoring_cost_sum(s) + scoring_cost_sum(t),
    decreases t.len(),
{
    if t.len() == 0 {
        assert(s + t =~= s);
    } else {
        lemma_scoring_sum_concat(s, t.drop_last());
        assert((s + t).drop_last() =~= s + t.drop_last());
        assert((s + t).last() == t.last());
    }
}

proof fn lemma_scoring_sum_nonneg(s: Seq<ArticleForScoring>)
    ensures
        scoring_cost_sum(s) >= 0,
    decreases s.len(),
{
    if s.len() > 0 {
        lemma_scoring_sum_nonneg(s.drop_last());
    }
}

/// Whether the total scoring cost of `articles` can be counted in a
/// `usize`, which `create_scoring_batches` needs.
pub fn scoring_costs_fit(articles: &Vec<ArticleForScoring>) -> (b: bool)
    ensures
        b == (scoring_cost_sum(articles@) <= usize::MAX),
{
    let mut total: usize = 0;
    let mut k: usize = 0;
    while k < articles.len()
        invariant
            0 <= k <= articles@.len(),
            total == scoring_cost_sum(articles@.take(k as int)),
        decreases articles@.len() - k,
    {
        proof {
            assert(articles@.take(k + 1) =~= articles@.take(k as int).push(articles@[k as int]));
            lemma_scoring_sum_push(articles@.take(k as int), articles@[k as int]);
            lemma_scoring_sum_nonneg(articles@.take(k as int));
        }
        let c = articles[k].content.as_str().len().checked_add(SCORING_OVERHEAD_PER_ARTICLE);
        let t = match c {
            Some(c) => total.checked_add(c),
            None => None,
        };
        match t {
            Some(t) => {
                total = t;
            },
            None => {
                proof {
                    lemma_take_sum_le(articles@, k + 1);
                }
                return false;
            },
        }
        k = k + 1;
    }
    proof {
        assert(articles@.take(articles@.len() as int) =~= articles@);
    }
    true
}

/// Splits the articles to score into batches, each filled greedily: a batch is
/// closed when the next article would push it past `char_limit` less the base
/// prompt overhead.
#[verifier::rlimit(40)]
pub fn create_scoring_batches(articles: Vec<ArticleForScoring>, char_limit: usize) -> (batches: Vec<Vec<ArticleForScoring>>)
    requires
        scoring_cost_sum(articles@) <= usize::MAX,
        articles@.len() >= 2 ==> char_limit >= SCORING_BASE_OVERHEAD,
    ensures
        is_greedy_partition(articles@, batch_views(batches@), char_limit - SCORING_BASE_OVERHEAD),
{
    let ghost items = articles@;
    let ghost limit: int = char_limit - SCORING_BASE_OVERHEAD;
    let mut batches: Vec<Vec<ArticleForScoring>> = Vec::new();
    let mut current_batch: Vec<ArticleForScoring> = Vec::new();
    let mut current_chars: usize = 0;
    let mut consumed: usize = 0;
    let n = articles.len();
    proof {
        lemma_scoring_sum_nonneg(items);
    }
    for article in it: articles
        invariant
            it.seq() == items,
            consumed == it.index(),
            consumed <= items.len(),
            n == items.len(),
            scoring_cost_sum(items) <= usize::MAX,
            limit == char_limit - SCORING_BASE_OVERHEAD,
            items.len() >= 2 ==> char_limit >= SCORING_BASE_OVERHEAD,
            batch_views(batches@).flatten() + current_batch@ == items.take(consumed as int),
            current_chars == scoring_cost_sum(current_batch@),
            consumed > 0 ==> current_batch@.len() > 0,
            consumed == 0 ==> batches@.len() == 0 && current_batch@.len() == 0,
            forall|i: int| 0 <= i < batches@.len() ==> #[trigger] batches@[i]@.len() > 0,
            forall|i: int| 0 <= i < batches@.len() && #[trigger] batches@[i]@.len() >= 2
                ==> scoring_cost_sum(batches@[i]@) <= limit,
            current_batch@.len() >= 2 ==> scoring_cost_sum(current_batch@) <= limit,
            forall|i: int| 0 <= i < batches@.len() - 1
                ==> scoring_cost_sum(#[trigger] batches@[i]@) + scoring_cost(batches@[i + 1]@[0]) > limit,
            batches@.len() > 0 ==> scoring_cost_sum(batches@.last()@) + scoring_cost(current_batch@[0]) > limit,
    {
        proof {
            assert(article == items[consumed as int]);
            lemma_step_bound(items, batch_views(batches@).flatten(), current_batch@, consumed as int);
        }
        let article_chars = article.content.as_str().len() + SCORING_OVERHEAD_PER_ARTICLE;
        if current_batch.len() > 0 && current_chars + article_chars > char_limit - SCORING_BASE_OVERHEAD {
            let ghost old_batches = batches@;
            let ghost closed = current_batch@;
            let mut finished: Vec<ArticleForScoring> = Vec::new();
            std::mem::swap(&mut finished, &mut current_batch);
            batches.push(finished);
            current_chars = 0;
            proof {
                assert(batch_views(batches@) =~= batch_views(old_batches).push(closed));
                Seq::lemma_flatten_push(batch_views(old_batches), closed);
                assert(batches@.last()@ == closed);
            }
        }
        let ghost before = current_batch@;
        current_chars = current_chars + article_chars;
        current_batch.push(article);
        consumed = consumed + 1;
        proof {
            lemma_scoring_sum_push(before, article);
            assert(current_batch@[0] == if before.len() == 0 { article } else { before[0] });
        }
    }
    if current_batch.len() > 0 {
        let ghost old_batches = batches@;
        let ghost closed = current_batch@;
        batches.push(current_batch);
        proof {
            assert(batch_views(batches@) =~= batch_views(old_batches).push(closed));
            Seq::lemma_flatten_push(batch_views(old_batches), closed);
        }
    }
    proof {
        assert(items.take(items.len() as int) =~= items);
        if consumed == 0 {
            assert(batch_views(batches@) =~= Seq::<Seq<ArticleForScoring>>::empty());
        }
    }
    batches
}

proof fn lemma_take_sum_le(items: Seq<ArticleForScoring>, k: int)
    requires
        0 <= k <= items.len(),
    ensures
        scoring_cost_sum(items.take(k)) <= scoring_cost_sum(items),
    decreases items.len(),
{
    if k == items.len() {
        assert(items.take(k) =~= items);
    } else {
        assert(items.take(k) =~= items.drop_last().take(k));
        lemma_take_sum_le(items.drop_last(), k);
    }
}

proof fn lemma_step_bound(
    items: Seq<ArticleForScoring>,
    done: Seq<ArticleForScoring>,
    cur: Seq<ArticleForScoring>,
    k: int,
)
    requires
        0 <= k < items.len(),
        done + cur == items.take(k),
    ensures
        scoring_cost_sum(cur) + scoring_cost(items[k]) <= scoring_cost_sum(items),
        items.take(k + 1) == items.take(k).push(items[k]),
{
    assert(items.take(k + 1) =~= items.take(k).push(items[k]));
    lemma_scoring_sum_push(items.take(k), items[k]);
    lemma_scoring_sum_concat(done, cur);
    lemma_scoring_sum_nonneg(done);
    lemma_take_sum_le(items, k + 1);
}

} // verus!
