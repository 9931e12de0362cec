//! Retry policy for SQLite operations. When the database lives in a
//! cloud-synced directory, transient I/O and locking errors are retried with
//! exponential backoff.
use std::time::Duration;

use vstd::prelude::*;

use sqlx::Error as SqlError;

verus! {

/// Maximum number of retry attempts for database operations.
pub const MAX_RETRIES: u32 = 5;

/// Delay before the first retry, in milliseconds.
pub const BASE_BACKOFF_MS: u64 = 200;

/// `2^e`.
pub open spec fn exp2(e: nat) -> nat
    decreases e,
{
    if e == 0 {
        1
    } else {
        2 * exp2((e - 1) as nat)
    }
}

/// Backoff before retry number `attempt`: 200 ms, doubling with each attempt
/// (the attempt count saturates at 1 from below).
pub open spec fn backoff_millis(attempt: u32) -> int {
    BASE_BACKOFF_MS * exp2(if attempt >= 1 { (attempt - 1) as nat } else { 0 })
}

/// What `Duration::from_millis` returns for `ms`.
pub uninterp spec fn duration_of_millis(ms: u64) -> Duration;

/// Calls `std::time::Duration::from_millis`, which builds the duration of `ms`
/// milliseconds; the contract claims only that equal arguments give equal durations.
#[verifier::external_body]
fn duration_from_millis(ms: u64) -> (d: Duration)
    ensures
        d == duration_of_millis(ms),
{
    Duration::from_millis(ms)
}

proof fn lemma_exp2_monotone(a: nat, b: nat)
    requires
        a <= b,
    ensures
        exp2(a) <= exp2(b),
        exp2(a) >= 1,
    decreases b,
{
    if b > a {
        lemma_exp2_monotone(a, (b - 1) as nat);
    } else if a > 0 {
        lemma_exp2_monotone((a - 1) as nat, (a - 1) as nat);
    }
}

/// Backoff in milliseconds before retry number `attempt`.
pub fn backoff_delay_ms(attempt: u32) -> (ms: u64)
    requires
        attempt <= 57,
    ensures
        ms == backoff_millis(attempt),
{
    let e: u32 = attempt.saturating_sub(1);
    let mut factor: u64 = 1;
    let mut i: u32 = 0;
    assert(exp2(56) == 72057594037927936) by {
        reveal_with_fuel(exp2, 57);
    }
    while i < e
        invariant
            0 <= i <= e,
            e <= 56,
            factor == exp2(i as nat),
            exp2(56) == 72057594037927936,
        decreases e - i,
    {
        proof {
            lemma_exp2_monotone((i + 1) as nat, 56);
        }
        factor = factor * 2;
        i = i + 1;
    }
    proof {
        lemma_exp2_monotone(e as nat, 56);
    }
    BASE_BACKOFF_MS * factor
}

/// Exponential backoff delay for retry number `attempt`: 200 ms, 400 ms,
/// 800 ms, ... (`attempt` 0 and 1 both give 200 ms).
pub fn backoff_delay(attempt: u32) -> (d: Duration)
    requires
        attempt <= 57,
    ensures
        d == duration_of_millis(backoff_millis(attempt) as u64),
{
    duration_from_millis(backoff_delay_ms(attempt))
}

/// Each further attempt doubles the backoff.
pub proof fn backoff_doubles(attempt: u32)
    requires
        1 <= attempt < 57,
    ensures
        backoff_millis((attempt + 1) as u32) == 2 * backoff_millis(attempt),
{
    assert(exp2(attempt as nat) == 2 * exp2((attempt - 1) as nat));
}

/// SQLite result codes that signal a transient condition worth retrying:
/// BUSY (5), LOCKED (6), IOERR (10), IOERR_READ (266), IOERR_SHORT_READ (522),
/// BUSY_SNAPSHOT (1032), IOERR_WRITE (2314), IOERR_FSYNC (3338),
/// IOERR_DIR_FSYNC (4618), IOERR_LOCK (5386) and IOERR_CLOSE (5642).
pub open spec fn is_transient_code_spec(code: Seq<char>) -> bool {
    ||| code == "5"@
    ||| code == "6"@
    ||| code == "10"@
    ||| code == "266"@
    ||| code == "522"@
    ||| code == "1032"@
    ||| code == "2314"@
    ||| code == "3338"@
    ||| code == "4618"@
    ||| code == "5386"@
    ||| code == "5642"@
}

/// Whether a database error with the given result code (if it has one) is
/// transient and should be retried.
pub fn is_transient_error_code(code: Option<&str>) -> (res: bool)
    ensures
        res == (code matches Some(c) && is_transient_code_spec(c@)),
{
    match code {
        None => false,
        Some(c) => {
            let s = String::from_str(c);
            s == String::from_str("5") || s == String::from_str("6") || s == String::from_str("10")
                || s == String::from_str("266") || s == String::from_str("522")
                || s == String::from_str("1032") || s == String::from_str("2314")
                || s == String::from_str("3338") || s == String::from_str("4618")
                || s == String::from_str("5386") || s == String::from_str("5642")
        }
    }
}

/// The next step of a retried database operation after a failure.
pub enum RetryStep {
    /// Sleep for `delay`, then make retry number `attempt`.
    Retry { attempt: u32, delay: Duration },
    /// Return the error to the caller.
    GiveUp,
}

/// Decides what follows a failed database operation that has already been
/// retried `attempts` times: transient errors are retried with backoff until
/// `MAX_RETRIES` retries have been made; any other error is returned.
pub fn next_retry_step(attempts: u32, transient: bool) -> (step: RetryStep)
    ensures
        transient && attempts < MAX_RETRIES ==> step == (RetryStep::Retry {
            attempt: (attempts + 1) as u32,
            delay: duration_of_millis(backoff_millis((attempts + 1) as u32) as u64),
        }),
        !(transient && attempts < MAX_RETRIES) ==> step == RetryStep::GiveUp,
        // at most MAX_RETRIES retries are ever made
        step matches RetryStep::Retry { attempt, .. } ==> attempts < attempt <= MAX_RETRIES,
{
    if transient && attempts < MAX_RETRIES {
        let attempt = attempts + 1;
        RetryStep::Retry { attempt, delay: backoff_delay(attempt) }
    } else {
        RetryStep::GiveUp
    }
}

#[verifier::external_type_specification]
#[verifier::external_body]
pub struct ExSqlError(SqlError);

/// The result code that a database error reports (`DatabaseError::code`
/// of a `sqlx::Error::Database`, as text), if it reports one.
pub uninterp spec fn sql_error_code(err: SqlError) -> Option<Seq<char>>;

/// The result code of a database error (`sqlx::Error::Database` and its
/// `DatabaseError::code`, as text); `None` for other errors or a database
/// error without a code. The code is read from the error value alone, so it
/// is named as a function of the error; which code an error holds is not
/// stated, the error being opaque here.
#[verifier::external_body]
pub(crate) fn database_error_code(err: &SqlError) -> (r: Option<String>)
    ensures
        crate::text::opt_view(r) == sql_error_code(*err),
{
    match err {
        SqlError::Database(db) => db.code().map(|c| c.to_string()),
        _ => None,
    }
}

/// Whether a database error is transient and worth retrying: a database
/// error whose result code is one of the transient SQLite codes.
pub fn is_transient_error(err: &SqlError) -> (b: bool)
    ensures
        b == (sql_error_code(*err) matches Some(c) && is_transient_code_spec(c)),
{
    let code = database_error_code(err);
    match &code {
        Some(c) => is_transient_error_code(Some(c.as_str())),
        None => false,
    }
}

} // verus!
