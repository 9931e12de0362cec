use kenseader::storage::database::is_duplicate_column_error;
use kenseader::storage::retry::is_transient_error;
use std::time::Duration;

use kenseader::storage::retry::{backoff_delay, is_transient_error_code, next_retry_step, RetryStep, MAX_RETRIES};

#[test]
fn test_backoff_delay() {
    assert_eq!(backoff_delay(1), Duration::from_millis(200));
    assert_eq!(backoff_delay(2), Duration::from_millis(400));
    assert_eq!(backoff_delay(3), Duration::from_millis(800));
    assert_eq!(backoff_delay(4), Duration::from_millis(1600));
    assert_eq!(backoff_delay(5), Duration::from_millis(3200));
}

#[test]
fn backoff_delay_of_attempt_zero_is_the_base() {
    assert_eq!(backoff_delay(0), Duration::from_millis(200));
}

#[test]
fn transient_codes_are_recognised() {
    for code in ["5", "6", "10", "266", "522", "1032", "2314", "3338", "4618", "5386", "5642"] {
        assert!(is_transient_error_code(Some(code)), "{code}");
    }
    assert!(!is_transient_error_code(Some("1")));
    assert!(!is_transient_error_code(Some("2067")));
    assert!(!is_transient_error_code(None));
}

#[test]
fn retries_stop_after_the_limit() {
    match next_retry_step(0, true) {
        RetryStep::Retry { attempt, delay } => {
            assert_eq!(attempt, 1);
            assert_eq!(delay, Duration::from_millis(200));
        }
        RetryStep::GiveUp => panic!("expected a retry"),
    }
    assert!(matches!(next_retry_step(MAX_RETRIES, true), RetryStep::GiveUp));
    assert!(matches!(next_retry_step(0, false), RetryStep::GiveUp));
}

#[test]
fn sqlite_errors_are_classified() {
    let rt = tokio::runtime::Builder::new_current_thread().enable_all().build().unwrap();
    rt.block_on(async {
        let pool = sqlx::sqlite::SqlitePoolOptions::new().max_connections(1).connect("sqlite::memory:").await.unwrap();
        sqlx::query("CREATE TABLE t (a INTEGER)").execute(&pool).await.unwrap();
        sqlx::query("ALTER TABLE t ADD COLUMN b TEXT").execute(&pool).await.unwrap();
        let dup = sqlx::query("ALTER TABLE t ADD COLUMN b TEXT").execute(&pool).await.unwrap_err();
        assert!(is_duplicate_column_error(&dup));
        assert!(!is_transient_error(&dup));
        let missing = sqlx::query("SELECT * FROM nowhere").execute(&pool).await.unwrap_err();
        assert!(!is_duplicate_column_error(&missing));
        assert!(!is_transient_error(&missing));
    });
    assert!(!is_transient_error(&sqlx::Error::RowNotFound));
    assert!(!is_duplicate_column_error(&sqlx::Error::RowNotFound));
}
