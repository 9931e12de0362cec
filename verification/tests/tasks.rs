use kenseader::ai::providers::{ArticleForScoring, ArticleForSummary, BatchSummaryResult};
use kenseader::feed::models::Article;
use kenseader::ids::uuid_string;
use kenseader::scheduler::batching::{create_scoring_batches, create_single_batch, scoring_costs_fit, summary_costs_fit};
use kenseader::scheduler::service::{count_event, filter_event, jobs_for_tick, scheduler_enabled, Job, SchedulerEvent, Timer};
use kenseader::scheduler::tasks::{
    articles_to_summarize, pause_after_feed, pending_ids, refresh_scope, retain_unread, scoring_inputs,
    select_short_unsummarized, summaries_to_store, RefreshScope,
};

fn art(id: u128, title: &str, content: Option<&str>, summary: Option<&str>) -> Article {
    Article {
        id,
        feed_id: 1,
        guid: format!("g{id}"),
        url: None,
        title: title.to_string(),
        author: None,
        content: None,
        content_text: content.map(|s| s.to_string()),
        summary: summary.map(|s| s.to_string()),
        summary_generated_at: None,
        published_at: None,
        fetched_at: 0,
        is_read: false,
        read_at: None,
        is_saved: false,
        created_at: 0,
        image_url: None,
        tags: Vec::new(),
    }
}

fn summary_item(id: &str, n: usize) -> ArticleForSummary {
    ArticleForSummary { id: id.to_string(), title: String::new(), content: "x".repeat(n) }
}

#[test]
fn single_batch_is_filled_greedily_from_the_front() {
    // limit 2000 - 1000 overhead = 1000; each article costs content + 200
    let mut pending = vec![summary_item("a", 300), summary_item("b", 300), summary_item("c", 300)];
    assert!(summary_costs_fit(&pending));
    let batch = create_single_batch(&mut pending, 2000);
    assert_eq!(batch.iter().map(|a| a.id.as_str()).collect::<Vec<_>>(), vec!["a", "b"]);
    assert_eq!(pending.len(), 1);
    assert_eq!(pending[0].id, "c");
}

#[test]
fn an_oversized_article_still_forms_a_batch() {
    let mut pending = vec![summary_item("big", 5000), summary_item("b", 10)];
    let batch = create_single_batch(&mut pending, 2000);
    assert_eq!(batch.len(), 1);
    assert_eq!(pending.len(), 1);
}

#[test]
fn scoring_batches_partition_the_articles() {
    let items: Vec<ArticleForScoring> =
        (0..5).map(|i| ArticleForScoring { id: i.to_string(), content: "y".repeat(400) }).collect();
    assert!(scoring_costs_fit(&items));
    // limit 1300 - 300 = 1000, each costs 500: two per batch
    let batches = create_scoring_batches(items, 1300);
    let sizes: Vec<usize> = batches.iter().map(|b| b.len()).collect();
    assert_eq!(sizes, vec![2, 2, 1]);
    let ids: Vec<String> = batches.into_iter().flatten().map(|a| a.id).collect();
    assert_eq!(ids, vec!["0", "1", "2", "3", "4"]);
}

#[test]
fn articles_to_summarize_need_text_and_are_cut() {
    let long = "é".repeat(4100);
    let articles = vec![art(1, "One", Some(&long), None), art(2, "Two", None, None)];
    let items = articles_to_summarize(&articles);
    assert_eq!(items.len(), 1);
    assert_eq!(items[0].id, "00000000-0000-0000-0000-000000000001");
    assert_eq!(items[0].content.chars().count(), 4000);
}

#[test]
fn ids_of_pending_articles_read_back() {
    let ids: Vec<u128> = vec![0x0123_4567_89ab_cdef_0123_4567_89ab_cdef, 42];
    let mut pending: Vec<ArticleForSummary> = ids.iter().map(|i| summary_item(&uuid_string(*i), 1)).collect();
    pending.push(summary_item("not-a-uuid", 1));
    assert_eq!(pending_ids(&pending), ids);
    retain_unread(&mut pending, &vec![42]);
    assert_eq!(pending.len(), 1);
    assert_eq!(pending[0].id, uuid_string(42));
}

#[test]
fn only_summaries_with_readable_ids_are_stored() {
    let results = vec![
        BatchSummaryResult { id: uuid_string(7), summary: Some("S".to_string()), error: None },
        BatchSummaryResult { id: "bad".to_string(), summary: Some("S".to_string()), error: None },
        BatchSummaryResult { id: uuid_string(8), summary: None, error: Some("E".to_string()) },
    ];
    assert_eq!(summaries_to_store(&results), vec![(7u128, "S".to_string())]);
}

#[test]
fn scoring_uses_summary_or_own_text() {
    let unread = vec![
        art(1, "Long", Some(&"w".repeat(100)), None),
        art(2, "Short", Some("  tiny  "), None),
        art(3, "Bare", None, None),
        art(4, "Done", Some("tiny"), Some("S")),
    ];
    let short = select_short_unsummarized(unread, 10);
    assert_eq!(short.iter().map(|a| a.id).collect::<Vec<_>>(), vec![2, 3]);
    let summarized = vec![art(4, "Done", None, Some("Sum"))];
    let inputs = scoring_inputs(&summarized, &short);
    let contents: Vec<&str> = inputs.iter().map(|a| a.content.as_str()).collect();
    assert_eq!(contents, vec!["Done\n\nSum", "Short\n\n  tiny  ", "Bare"]);
    assert_eq!(inputs[0].id, uuid_string(4));
}

#[test]
fn feeds_are_paced_only_between_fetches() {
    assert!(pause_after_feed(0, 2, 100));
    assert!(!pause_after_feed(1, 2, 100));
    assert!(!pause_after_feed(0, 2, 0));
    assert_eq!(refresh_scope(0), RefreshScope::All);
    assert_eq!(refresh_scope(3600), RefreshScope::Stale { interval_secs: 3600 });
}

#[test]
fn scheduler_jobs_and_events() {
    assert!(!scheduler_enabled(0));
    assert!(scheduler_enabled(60));
    assert_eq!(jobs_for_tick(Timer::Filter, true), vec![Job::Filter, Job::Classify]);
    assert!(jobs_for_tick(Timer::Summarize, false).is_empty());
    assert_eq!(jobs_for_tick(Timer::Refresh, false), vec![Job::Refresh]);
    assert!(matches!(count_event(Job::Refresh, Ok(3)), SchedulerEvent::FeedsRefreshed { new_articles: 3 }));
    match count_event(Job::Classify, Err("db".to_string())) {
        SchedulerEvent::Error { task, message } => {
            assert_eq!(task, "classify");
            assert_eq!(message, "db");
        }
        _ => panic!("expected an error event"),
    }
    assert!(matches!(filter_event(Ok((4, 1))), SchedulerEvent::ArticlesFiltered { scored: 4, filtered: 1 }));
}
