use kenseader::config::AppConfig;
use kenseader::error::Error;
use kenseader::feed::fetcher::{
    check_response, ensure_content_size, exhausted_error, fetch_retry_delay_ms, is_cloudflare_challenge,
    next_fetch_step, next_user_agent, response_action, FeedFetcher, FetchEvent, FetchStep, ResponseAction, RetryReason,
};

#[test]
fn test_rsshub_url_conversion() {
    let config = AppConfig::default();
    let fetcher = FeedFetcher::new(&config).unwrap();

    let result = fetcher.resolve_url("rsshub://hackernews").unwrap();
    assert_eq!(result, "https://rsshub.app/hackernews");

    let result = fetcher.resolve_url("rsshub://twitter/user/test").unwrap();
    assert_eq!(result, "https://rsshub.app/twitter/user/test");
}

#[test]
fn test_regular_url_passthrough() {
    let config = AppConfig::default();
    let fetcher = FeedFetcher::new(&config).unwrap();

    let result = fetcher.resolve_url("https://example.com/feed.xml").unwrap();
    assert_eq!(result, "https://example.com/feed.xml");
}

#[test]
fn test_user_agent_rotation() {
    // Start the rotation from the beginning
    let mut counter = 0usize;

    let ua1 = next_user_agent(&mut counter);
    let ua2 = next_user_agent(&mut counter);
    let ua3 = next_user_agent(&mut counter);

    // Should rotate through different user agents
    assert!(ua1.contains("Chrome") && ua1.contains("Macintosh"));
    assert!(ua2.contains("Chrome") && ua2.contains("Windows"));
    assert!(ua3.contains("Firefox") && ua3.contains("Macintosh"));
}

#[test]
fn user_agent_rotation_wraps_after_six() {
    let mut counter = 0usize;
    let first = next_user_agent(&mut counter);
    for _ in 0..5 {
        next_user_agent(&mut counter);
    }
    assert_eq!(counter, 6);
    assert_eq!(next_user_agent(&mut counter), first);
}

#[test]
fn rsshub_app_links_go_to_configured_instance_with_key() {
    let mut config = AppConfig::default();
    config.rsshub.base_url = "https://rss.example.org/".to_string();
    config.rsshub.access_key = Some("SECRET".to_string());
    let fetcher = FeedFetcher::new(&config).unwrap();
    assert_eq!(
        fetcher.resolve_url("https://rsshub.app/github/issue/x").unwrap(),
        "https://rss.example.org/github/issue/x?key=SECRET"
    );
    assert_eq!(
        fetcher.resolve_url("rsshub://a/b?lang=en").unwrap(),
        "https://rss.example.org/a/b?lang=en&key=SECRET"
    );
}

#[test]
fn invalid_url_is_rejected() {
    let config = AppConfig::default();
    let fetcher = FeedFetcher::new(&config).unwrap();
    assert!(matches!(fetcher.resolve_url("not a url"), Err(Error::UrlParse(_))));
}

#[test]
fn oversized_body_is_refused() {
    assert!(ensure_content_size(5 * 1024 * 1024, "u").is_ok());
    match ensure_content_size(5 * 1024 * 1024 + 1, "http://x") {
        Err(Error::FeedParse(m)) => assert_eq!(m, "Feed too large (5242881 bytes) for URL: http://x"),
        _ => panic!("expected an error"),
    }
}

#[test]
fn cloudflare_challenge_is_detected_in_first_bytes() {
    assert!(is_cloudflare_challenge(b"<html><title>Just a moment...</title>"));
    assert!(!is_cloudflare_challenge(b"<rss version=\"2.0\"></rss>"));
}

#[test]
fn retry_delays_double() {
    assert_eq!(fetch_retry_delay_ms(0), 500);
    assert_eq!(fetch_retry_delay_ms(1), 1000);
    assert_eq!(fetch_retry_delay_ms(2), 2000);
}

#[test]
fn throttled_and_forbidden_responses_are_retried() {
    assert_eq!(response_action(429, 0), ResponseAction::RetryThrottled);
    assert_eq!(response_action(503, 2), ResponseAction::RetryThrottled);
    assert_eq!(response_action(403, 0), ResponseAction::RetryForbidden);
    assert_eq!(response_action(403, 2), ResponseAction::Accept);
    assert_eq!(response_action(200, 0), ResponseAction::Accept);
}

#[test]
fn exhausted_error_names_the_attempts() {
    match exhausted_error("http://x") {
        Error::FeedParse(m) => assert_eq!(m, "Failed to fetch URL after 3 retries: http://x"),
        _ => panic!("expected a feed parse error"),
    }
}

#[test]
fn forbidden_cloudflare_response_is_explained() {
    match check_response(403, "403 Forbidden", false, Some("cloudflare-nginx"), b"", "http://x") {
        Err(Error::FeedParse(m)) => assert!(m.starts_with("Cloudflare protection detected for URL: http://x.")),
        _ => panic!("expected an error"),
    }
    match check_response(404, "404 Not Found", false, None, b"", "http://x") {
        Err(Error::FeedParse(m)) => assert_eq!(m, "HTTP 404 Not Found for URL: http://x"),
        _ => panic!("expected an error"),
    }
    assert!(check_response(200, "200 OK", false, None, b"<rss/>", "http://x").is_ok());
}

#[test]
fn fetch_steps_follow_the_retry_rules() {
    use_step(0, FetchEvent::Response { status: 429 }, FetchStep::Retry { reason: RetryReason::Throttled, pause_ms: Some(500), next: Some(1) });
    use_step(2, FetchEvent::Response { status: 503 }, FetchStep::Retry { reason: RetryReason::Throttled, pause_ms: Some(2000), next: None });
    use_step(1, FetchEvent::Response { status: 403 }, FetchStep::Retry { reason: RetryReason::Forbidden, pause_ms: Some(1000), next: Some(2) });
    use_step(2, FetchEvent::Response { status: 403 }, FetchStep::Accept);
    use_step(0, FetchEvent::Response { status: 200 }, FetchStep::Accept);
    use_step(1, FetchEvent::Failure, FetchStep::Retry { reason: RetryReason::Failed, pause_ms: Some(1000), next: Some(2) });
    use_step(2, FetchEvent::Failure, FetchStep::Retry { reason: RetryReason::Failed, pause_ms: None, next: None });
}

fn use_step(attempt: u32, event: FetchEvent, expected: FetchStep) {
    assert_eq!(next_fetch_step(attempt, event), expected);
}
