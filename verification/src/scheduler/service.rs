//! The decisions of the background scheduler: whether it runs, which jobs a
//! timer starts, and what event each job's outcome is reported as. The
//! timers, the jobs themselves and the event channel belong to the
//! application.
use vstd::prelude::*;
use vstd::string::StringExecFns;

verus! {

/// How many articles one classification run takes.
pub const CLASSIFY_BATCH_SIZE: usize = 10;

/// Events emitted by the scheduler to notify the UI of changes.
#[derive(Debug, Clone)]
pub enum SchedulerEvent {
    /// Feeds have been refreshed, UI should reload article list
    FeedsRefreshed { new_articles: u32 },
    /// Articles have been cleaned up
    ArticlesCleaned { deleted: u32 },
    /// Articles have been summarized
    ArticlesSummarized { count: u32 },
    /// Articles have been scored and filtered
    ArticlesFiltered { scored: u32, filtered: u32 },
    /// Articles have been classified for style/tone
    ArticlesClassified { count: u32 },
    /// An error occurred during a background task
    Error { task: String, message: String },
}

/// The scheduler's periodic timers.
#[derive(Debug, Clone, Copy, PartialEq, Eq, Structural)]
pub enum Timer {
    Refresh,
    Cleanup,
    Summarize,
    Filter,
}

/// The background jobs.
#[derive(Debug, Clone, Copy, PartialEq, Eq, Structural)]
pub enum Job {
    Refresh,
    Cleanup,
    Summarize,
    Filter,
    Classify,
}

/// The scheduler runs only with a refresh interval above 0; otherwise it
/// just waits for shutdown.
pub fn scheduler_enabled(refresh_interval_secs: u64) -> (b: bool)
    ensures
        b == (refresh_interval_secs != 0),
{
    refresh_interval_secs != 0
}

/// The jobs a timer starts, in order. The AI jobs run only with a
/// summarizer; the filter timer runs filtering, then classification.
pub fn jobs_for_tick(timer: Timer, has_summarizer: bool) -> (jobs: Vec<Job>)
    ensures
        timer == Timer::Refresh ==> jobs@ == seq![Job::Refresh],
        timer == Timer::Cleanup ==> jobs@ == seq![Job::Cleanup],
        timer == Timer::Summarize ==> jobs@ == if has_summarizer { seq![Job::Summarize] } else { Seq::empty() },
        timer == Timer::Filter ==> jobs@ == if has_summarizer { seq![Job::Filter, Job::Classify] } else { Seq::empty() },
{
    match timer {
        Timer::Refresh => vec![Job::Refresh],
        Timer::Cleanup => vec![Job::Cleanup],
        Timer::Summarize => if has_summarizer { vec![Job::Summarize] } else { Vec::new() },
        Timer::Filter => if has_summarizer { vec![Job::Filter, Job::Classify] } else { Vec::new() },
    }
}

/// The name a job's failures are reported under.
pub open spec fn job_name_spec(job: Job) -> Seq<char> {
    match job {
        Job::Refresh => "refresh"@,
        Job::Cleanup => "cleanup"@,
        Job::Summarize => "summarize"@,
        Job::Filter => "filter"@,
        Job::Classify => "classify"@,
    }
}

/// The name a job's failures are reported under.
pub fn job_name(job: Job) -> (s: &'static str)
    ensures
        s@ == job_name_spec(job),
{
    match job {
        Job::Refresh => "refresh",
        Job::Cleanup => "cleanup",
        Job::Summarize => "summarize",
        Job::Filter => "filter",
        Job::Classify => "classify",
    }
}

/// The event for the outcome of a job that counts articles (every job but
/// filtering): its count, or its failure under the job's name.
pub fn count_event(job: Job, outcome: Result<u32, String>) -> (e: SchedulerEvent)
    requires
        job != Job::Filter,
    ensures
        outcome matches Err(m) ==> (e matches SchedulerEvent::Error { task, message }
            && task@ == job_name_spec(job) && message == m),
        outcome matches Ok(n) ==> match job {
            Job::Refresh => e == (SchedulerEvent::FeedsRefreshed { new_articles: n }),
            Job::Cleanup => e == (SchedulerEvent::ArticlesCleaned { deleted: n }),
            Job::Summarize => e == (SchedulerEvent::ArticlesSummarized { count: n }),
            _ => e == (SchedulerEvent::ArticlesClassified { count: n }),
        },
{
    match outcome {
        Err(m) => SchedulerEvent::Error { task: String::from_str(job_name(job)), message: m },
        Ok(n) => match job {
            Job::Refresh => SchedulerEvent::FeedsRefreshed { new_articles: n },
            Job::Cleanup => SchedulerEvent::ArticlesCleaned { deleted: n },
            Job::Summarize => SchedulerEvent::ArticlesSummarized { count: n },
            _ => SchedulerEvent::ArticlesClassified { count: n },
        },
    }
}

/// The event for the outcome of filtering: how many articles were scored
/// and filtered, or the failure.
pub fn filter_event(outcome: Result<(u32, u32), String>) -> (e: SchedulerEvent)
    ensures
        outcome matches Err(m) ==> (e matches SchedulerEvent::Error { task, message }
            && task@ == "filter"@ && message == m),
        outcome matches Ok((s, f)) ==> e == (SchedulerEvent::ArticlesFiltered { scored: s, filtered: f }),
{
    match outcome {
        Err(m) => SchedulerEvent::Error { task: String::from_str("filter"), message: m },
        Ok((s, f)) => SchedulerEvent::ArticlesFiltered { scored: s, filtered: f },
    }
}

} // verus!
