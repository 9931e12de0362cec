//! Feed fetching: URL resolution (including the `rsshub://` scheme), the
//! rotation of browser User-Agents, the retry policy for requests and the
//! checks on a fetched response. The HTTP requests themselves are made by
//! the application, which asks these functions what to do next.
use vstd::prelude::*;
use vstd::string::StringExecFns;

use crate::config::AppConfig;
use crate::error::Error;
use crate::text::{
    opt_view,
    append_chars, bytes_contain, bytes_contain_within, chars_of, contains_char, decimal,
    decimal_string, slice_suffix, starts_with, string_of, trim_end_char, trim_end_matches_char,
    trim_start_char, trim_start_matches_char,
};

verus! {

/// Largest feed body accepted, in bytes.
pub const MAX_FEED_BYTES: usize = 5242880;

/// Number of attempts made for one feed request.
pub const MAX_FETCH_ATTEMPTS: u32 = 3;

/// Delay before the first retry of a feed request, in milliseconds.
pub const INITIAL_RETRY_DELAY_MS: u64 = 500;

/// Number of User-Agents in the rotation.
pub const USER_AGENT_COUNT: usize = 6;

/// The User-Agent at position `i` of the rotation.
pub open spec fn user_agent_spec(i: int) -> Seq<char> {
    if i == 0 {
        "Mozilla/5.0 (Macintosh; Intel Mac OS X 10_15_7) AppleWebKit/537.36 (KHTML, like Gecko) Chrome/120.0.0.0 Safari/537.36"@
    } else if i == 1 {
        "Mozilla/5.0 (Windows NT 10.0; Win64; x64) AppleWebKit/537.36 (KHTML, like Gecko) Chrome/120.0.0.0 Safari/537.36"@
    } else if i == 2 {
        "Mozilla/5.0 (Macintosh; Intel Mac OS X 10.15; rv:121.0) Gecko/20100101 Firefox/121.0"@
    } else if i == 3 {
        "Mozilla/5.0 (Windows NT 10.0; Win64; x64; rv:121.0) Gecko/20100101 Firefox/121.0"@
    } else if i == 4 {
        "Mozilla/5.0 (Macintosh; Intel Mac OS X 10_15_7) AppleWebKit/605.1.15 (KHTML, like Gecko) Version/17.2 Safari/605.1.15"@
    } else {
        "Mozilla/5.0 (Windows NT 10.0; Win64; x64) AppleWebKit/537.36 (KHTML, like Gecko) Chrome/120.0.0.0 Safari/537.36 Edg/120.0.0.0"@
    }
}

/// The User-Agent at position `i` of the rotation: Chrome, Firefox, Safari
/// and Edge on macOS and Windows.
pub fn user_agent(i: usize) -> (ua: &'static str)
    requires
        i < USER_AGENT_COUNT,
    ensures
        ua@ == user_agent_spec(i as int),
{
    if i == 0 {
        // Chrome on macOS
        "Mozilla/5.0 (Macintosh; Intel Mac OS X 10_15_7) AppleWebKit/537.36 (KHTML, like Gecko) Chrome/120.0.0.0 Safari/537.36"
    } else if i == 1 {
        // Chrome on Windows
        "Mozilla/5.0 (Windows NT 10.0; Win64; x64) AppleWebKit/537.36 (KHTML, like Gecko) Chrome/120.0.0.0 Safari/537.36"
    } else if i == 2 {
        // Firefox on macOS
        "Mozilla/5.0 (Macintosh; Intel Mac OS X 10.15; rv:121.0) Gecko/20100101 Firefox/121.0"
    } else if i == 3 {
        // Firefox on Windows
        "Mozilla/5.0 (Windows NT 10.0; Win64; x64; rv:121.0) Gecko/20100101 Firefox/121.0"
    } else if i == 4 {
        // Safari on macOS
        "Mozilla/5.0 (Macintosh; Intel Mac OS X 10_15_7) AppleWebKit/605.1.15 (KHTML, like Gecko) Version/17.2 Safari/605.1.15"
    } else {
        // Edge on Windows
        "Mozilla/5.0 (Windows NT 10.0; Win64; x64) AppleWebKit/537.36 (KHTML, like Gecko) Chrome/120.0.0.0 Safari/537.36 Edg/120.0.0.0"
    }
}

/// The counter after one step of the rotation (it wraps around like an
/// atomic `fetch_add`).
pub open spec fn next_counter(counter: usize) -> usize {
    if counter == usize::MAX { 0 } else { (counter + 1) as usize }
}

/// Takes the next User-Agent in rotation: the one that `counter` selects,
/// after which `counter` moves on.
pub fn next_user_agent(counter: &mut usize) -> (ua: &'static str)
    ensures
        ua@ == user_agent_spec(*old(counter) as int % USER_AGENT_COUNT as int),
        *final(counter) == next_counter(*old(counter)),
{
    let index = *counter % USER_AGENT_COUNT;
    *counter = if *counter == usize::MAX { 0 } else { *counter + 1 };
    user_agent(index)
}

/// Consecutive counter values select the User-Agents in turn, going back to
/// the first after the sixth.
pub proof fn user_agent_rotation(counter: usize)
    requires
        counter < usize::MAX,
    ensures
        next_counter(counter) as int % USER_AGENT_COUNT as int == (counter as int % USER_AGENT_COUNT as int + 1) % USER_AGENT_COUNT as int,
{
}

/// What `url::Url::parse` makes of `s`: `Ok` when `s` is a valid absolute URL.
pub uninterp spec fn url_parse_ok(s: Seq<char>) -> bool;

/// Calls `url::Url::parse` to check that `s` is a valid absolute URL; the
/// contract names which strings parse and leaves the reported error open.
#[verifier::external_body]
fn check_url(s: &str) -> (r: Result<(), url::ParseError>)
    ensures
        r is Ok <==> url_parse_ok(s@),
{
    url::Url::parse(s).map(|_| ())
}

/// `path` on the RSSHub instance `base`: trailing slashes of the base and
/// leading slashes of the path are dropped and one slash joins them; an
/// access key is appended as the `key` query parameter.
pub open spec fn rsshub_resolve(base: Seq<char>, key: Option<Seq<char>>, path: Seq<char>) -> Seq<char> {
    let url = trim_end_char(base, '/') + seq!['/'] + trim_start_char(path, '/');
    match key {
        None => url,
        Some(k) => url + (if url.contains('?') { seq!['&'] } else { seq!['?'] }) + seq!['k', 'e', 'y', '='] + k,
    }
}

/// Where a subscription URL is fetched from: `rsshub://path` and
/// `https://rsshub.app/path` or `http://rsshub.app/path` go to the configured
/// RSSHub instance; any other URL must be valid and is used as it is.
pub open spec fn resolve_url_spec(base: Seq<char>, key: Option<Seq<char>>, url: Seq<char>) -> Option<Seq<char>> {
    if "rsshub://"@.is_prefix_of(url) {
        Some(rsshub_resolve(base, key, url.skip("rsshub://"@.len() as int)))
    } else if "https://rsshub.app/"@.is_prefix_of(url) {
        Some(rsshub_resolve(base, key, url.skip("https://rsshub.app/"@.len() as int)))
    } else if "http://rsshub.app/"@.is_prefix_of(url) {
        Some(rsshub_resolve(base, key, url.skip("http://rsshub.app/"@.len() as int)))
    } else if url_parse_ok(url) {
        Some(url)
    } else {
        None
    }
}

/// Feed fetcher settings: the RSSHub instance that `rsshub://` URLs go to.
pub struct FeedFetcher {
    pub rsshub_base_url: String,
    pub rsshub_access_key: Option<String>,
}

impl FeedFetcher {
    /// A fetcher configured from the application settings. (The HTTP client,
    /// whose construction can fail, belongs to the application.)
    pub fn new(config: &AppConfig) -> (r: Result<Self, Error>)
        ensures
            r matches Ok(f) && f.rsshub_base_url@ == config.rsshub.base_url@
                && opt_view(f.rsshub_access_key) == opt_view(config.rsshub.access_key),
    {
        let key = match &config.rsshub.access_key {
            Some(k) => Some(String::from_str(k.as_str())),
            None => None,
        };
        Ok(FeedFetcher { rsshub_base_url: String::from_str(config.rsshub.base_url.as_str()), rsshub_access_key: key })
    }

    /// Resolves a URL: `rsshub://` URLs and `rsshub.app` URLs are converted to
    /// the configured instance; other URLs are validated and kept.
    pub fn resolve_url(&self, url: &str) -> (r: Result<String, Error>)
        ensures
            r is Ok <==> resolve_url_spec(self.rsshub_base_url@, opt_view(self.rsshub_access_key), url@) is Some,
            r matches Ok(u) ==> Some(u@) == resolve_url_spec(self.rsshub_base_url@, opt_view(self.rsshub_access_key), url@),
            r matches Err(e) ==> e is UrlParse,
    {
        let chars = chars_of(url);
        let scheme = chars_of("rsshub://");
        let https_host = chars_of("https://rsshub.app/");
        let http_host = chars_of("http://rsshub.app/");
        if starts_with(chars.as_slice(), scheme.as_slice()) {
            self.convert_rsshub_url(url)
        } else if starts_with(chars.as_slice(), https_host.as_slice()) {
            let path = slice_suffix(chars.as_slice(), https_host.len());
            Ok(self.convert_rsshub_path(path.as_slice()))
        } else if starts_with(chars.as_slice(), http_host.as_slice()) {
            let path = slice_suffix(chars.as_slice(), http_host.len());
            Ok(self.convert_rsshub_path(path.as_slice()))
        } else {
            match check_url(url) {
                Ok(()) => Ok(String::from_str(url)),
                Err(e) => Err(Error::UrlParse(e)),
            }
        }
    }

    /// The URL of `path` on the configured RSSHub instance.
    fn convert_rsshub_path(&self, path: &[char]) -> (u: String)
        ensures
            u@ == rsshub_resolve(self.rsshub_base_url@, opt_view(self.rsshub_access_key), path@),
    {
        let base_chars = chars_of(self.rsshub_base_url.as_str());
        let base = trim_end_matches_char(base_chars.as_slice(), '/');
        let trimmed_path = trim_start_matches_char(path, '/');
        let mut resolved = base;
        resolved.push('/');
        append_chars(&mut resolved, trimmed_path.as_slice());
        let ghost url = resolved@;
        proof {
            assert(url =~= trim_end_char(self.rsshub_base_url@, '/') + seq!['/'] + trim_start_char(path@, '/'));
        }
        match &self.rsshub_access_key {
            None => {},
            Some(key) => {
                let sep = if contains_char(resolved.as_slice(), '?') { '&' } else { '?' };
                resolved.push(sep);
                resolved.push('k');
                resolved.push('e');
                resolved.push('y');
                resolved.push('=');
                let key_chars = chars_of(key.as_str());
                append_chars(&mut resolved, key_chars.as_slice());
                proof {
                    assert(resolved@ =~= url + (if url.contains('?') { seq!['&'] } else { seq!['?'] }) + seq!['k', 'e', 'y', '='] + key@);
                }
            },
        }
        string_of(resolved.as_slice())
    }

    /// Converts `rsshub://path` to the configured RSSHub instance.
    fn convert_rsshub_url(&self, url: &str) -> (r: Result<String, Error>)
        requires
            "rsshub://"@.is_prefix_of(url@),
        ensures
            r matches Ok(u) && u@ == rsshub_resolve(
                self.rsshub_base_url@,
                opt_view(self.rsshub_access_key),
                url@.skip("rsshub://"@.len() as int),
            ),
    {
        let chars = chars_of(url);
        let scheme = chars_of("rsshub://");
        if !starts_with(chars.as_slice(), scheme.as_slice()) {
            return Err(Error::InvalidRsshubUrl(String::from_str(url)));
        }
        let path = slice_suffix(chars.as_slice(), scheme.len());
        Ok(self.convert_rsshub_path(path.as_slice()))
    }
}

/// The message for a body larger than `MAX_FEED_BYTES`.
pub open spec fn too_large_message(size: usize, url: Seq<char>) -> Seq<char> {
    "Feed too large ("@ + decimal(size as nat) + " bytes) for URL: "@ + url
}

/// Rejects a response body larger than `MAX_FEED_BYTES`.
pub fn ensure_content_size(size: usize, url: &str) -> (r: Result<(), Error>)
    ensures
        r is Ok <==> size <= MAX_FEED_BYTES,
        r matches Err(e) ==> e matches Error::FeedParse(m) && m@ == too_large_message(size, url@),
{
    if size > MAX_FEED_BYTES {
        let msg = String::from_str("Feed too large (").concat(decimal_string(size as u64).as_str())
            .concat(" bytes) for URL: ").concat(url);
        return Err(Error::FeedParse(msg));
    }
    Ok(())
}

/// Number of leading bytes searched for a Cloudflare challenge page.
pub const CHALLENGE_PREVIEW_BYTES: usize = 2048;

/// Whether the first 2 KiB of a response body hold one of the markers of a
/// Cloudflare JavaScript challenge page. (The markers are ASCII, so searching
/// the raw bytes finds exactly what a search of their lossy UTF-8 decoding finds.)
pub open spec fn is_cloudflare_challenge_spec(content: Seq<u8>) -> bool {
    let preview = content.take(if content.len() < 2048 { content.len() as int } else { 2048 });
    ||| bytes_contain(preview, vstd::utf8::encode_utf8("Just a moment..."@))
    ||| bytes_contain(preview, vstd::utf8::encode_utf8("cf-browser-verification"@))
    ||| bytes_contain(preview, vstd::utf8::encode_utf8("_cf_chl_opt"@))
    ||| bytes_contain(preview, vstd::utf8::encode_utf8("challenge-platform"@))
}

/// Whether a response body is a Cloudflare challenge page.
pub fn is_cloudflare_challenge(content: &[u8]) -> (res: bool)
    ensures
        res == is_cloudflare_challenge_spec(content@),
{
    let check_len = if content.len() < CHALLENGE_PREVIEW_BYTES { content.len() } else { CHALLENGE_PREVIEW_BYTES };
    bytes_contain_within(content, check_len, "Just a moment...".as_bytes())
        || bytes_contain_within(content, check_len, "cf-browser-verification".as_bytes())
        || bytes_contain_within(content, check_len, "_cf_chl_opt".as_bytes())
        || bytes_contain_within(content, check_len, "challenge-platform".as_bytes())
}

pub open spec fn cloudflare_protection_message(url: Seq<char>) -> Seq<char> {
    "Cloudflare protection detected for URL: "@ + url
        + ". The site requires JavaScript verification. If this is an RSSHub URL, please configure your own RSSHub instance in config.toml under [rsshub] base_url, or configure a proxy."@
}

pub open spec fn forbidden_message(url: Seq<char>) -> Seq<char> {
    "HTTP 403 Forbidden for URL: "@ + url
        + ". Try configuring an access_key in [rsshub] section or using a proxy."@
}

pub open spec fn http_status_message(status_text: Seq<char>, url: Seq<char>) -> Seq<char> {
    "HTTP "@ + status_text + " for URL: "@ + url
}

pub open spec fn challenge_message(url: Seq<char>) -> Seq<char> {
    "Cloudflare JavaScript challenge detected for URL: "@ + url
        + ". The site requires browser verification. If this is an RSSHub URL, please configure your own RSSHub instance in config.toml under [rsshub] base_url, or configure a proxy."@
}

/// The text "cloudflare".
pub open spec fn cloudflare_marker() -> Seq<char> {
    seq!['c', 'l', 'o', 'u', 'd', 'f', 'l', 'a', 'r', 'e']
}

/// Whether "cloudflare" occurs in `s`.
pub open spec fn names_cloudflare(s: Seq<char>) -> bool {
    exists|i: int| #[trigger] crate::text::occurs_at(s, cloudflare_marker(), i)
}

/// Whether the `Server` header names Cloudflare.
pub open spec fn server_is_cloudflare(server: Option<Seq<char>>) -> bool {
    match server {
        Some(s) => names_cloudflare(s),
        None => false,
    }
}

/// Whether the `Server` header, if present, contains "cloudflare".
fn server_names_cloudflare(server: Option<&str>) -> (b: bool)
    ensures
        b == server_is_cloudflare(match server { Some(s) => Some(s@), None => None }),
{
    match server {
        Some(s) => {
            let sc = chars_of(s);
            let marker = chars_of("cloudflare");
            proof {
                reveal_strlit("cloudflare");
                assert(marker@ =~= cloudflare_marker());
            }
            match crate::text::find(sc.as_slice(), marker.as_slice()) {
                Some(i) => {
                    proof {
                        assert(crate::text::occurs_at(s@, cloudflare_marker(), i as int));
                        assert(names_cloudflare(s@));
                    }
                    true
                },
                None => {
                    false
                },
            }
        },
        None => false,
    }
}

/// The verdict on a fetched response, checked in this order: the body must be
/// at most `MAX_FEED_BYTES`; a 403 is reported as Cloudflare protection when
/// the response carries `cf-mitigated` or a Cloudflare `Server` header, and as
/// a plain 403 otherwise; any other status outside 2xx is an HTTP error; a
/// 2xx body that is a Cloudflare challenge page is rejected too.
pub open spec fn check_response_spec(
    status: u16,
    status_text: Seq<char>,
    cf_mitigated: bool,
    server: Option<Seq<char>>,
    body: Seq<u8>,
    url: Seq<char>,
) -> Option<Seq<char>> {
    if body.len() > MAX_FEED_BYTES {
        Some(too_large_message(body.len() as usize, url))
    } else if status == 403 {
        if cf_mitigated || server_is_cloudflare(server) {
            Some(cloudflare_protection_message(url))
        } else {
            Some(forbidden_message(url))
        }
    } else if !(200 <= status <= 299) {
        Some(http_status_message(status_text, url))
    } else if is_cloudflare_challenge_spec(body) {
        Some(challenge_message(url))
    } else {
        None
    }
}

/// Checks a fetched response before its body is used. `status_text` is the
/// status as displayed (e.g. "404 Not Found"), `cf_mitigated` tells whether a
/// `cf-mitigated` header is present and `server` is the `Server` header, if
/// any (empty when not printable).
pub fn check_response(
    status: u16,
    status_text: &str,
    cf_mitigated: bool,
    server: Option<&str>,
    body: &[u8],
    url: &str,
) -> (r: Result<(), Error>)
    ensures
        r is Ok <==> check_response_spec(status, status_text@, cf_mitigated, match server { Some(s) => Some(s@), None => None }, body@, url@) is None,
        r matches Err(e) ==> e matches Error::FeedParse(m)
            && Some(m@) == check_response_spec(status, status_text@, cf_mitigated, match server { Some(s) => Some(s@), None => None }, body@, url@),
{
    ensure_content_size(body.len(), url)?;
    if status == 403 {
        let server_cf = server_names_cloudflare(server);
        let is_cloudflare = cf_mitigated || server_cf;
        if is_cloudflare {
            let msg = String::from_str("Cloudflare protection detected for URL: ").concat(url).concat(
                ". The site requires JavaScript verification. If this is an RSSHub URL, please configure your own RSSHub instance in config.toml under [rsshub] base_url, or configure a proxy.",
            );
            return Err(Error::FeedParse(msg));
        }
        let msg = String::from_str("HTTP 403 Forbidden for URL: ").concat(url).concat(
            ". Try configuring an access_key in [rsshub] section or using a proxy.",
        );
        return Err(Error::FeedParse(msg));
    }
    if !(200 <= status && status <= 299) {
        let msg = String::from_str("HTTP ").concat(status_text).concat(" for URL: ").concat(url);
        return Err(Error::FeedParse(msg));
    }
    if is_cloudflare_challenge(body) {
        let msg = String::from_str("Cloudflare JavaScript challenge detected for URL: ").concat(url).concat(
            ". The site requires browser verification. If this is an RSSHub URL, please configure your own RSSHub instance in config.toml under [rsshub] base_url, or configure a proxy.",
        );
        return Err(Error::FeedParse(msg));
    }
    Ok(())
}

/// Delay before the sleep that follows attempt number `attempt` (counted
/// from 0): 500 ms, doubling after each attempt.
pub open spec fn fetch_retry_delay_spec(attempt: u32) -> int {
    INITIAL_RETRY_DELAY_MS * crate::storage::retry::exp2(attempt as nat)
}

/// The delay, in milliseconds, of the pause after attempt `attempt`.
pub fn fetch_retry_delay_ms(attempt: u32) -> (ms: u64)
    requires
        attempt < MAX_FETCH_ATTEMPTS,
    ensures
        ms == fetch_retry_delay_spec(attempt),
{
    if attempt == 0 {
        500
    } else if attempt == 1 {
        proof {
            reveal_with_fuel(crate::storage::retry::exp2, 2);
        }
        1000
    } else {
        proof {
            reveal_with_fuel(crate::storage::retry::exp2, 3);
        }
        2000
    }
}

/// What to do with a response received on attempt `attempt`.
#[derive(Debug, PartialEq, Eq)]
pub enum ResponseAction {
    /// 429 or 503: wait and try again.
    RetryThrottled,
    /// 403 before the last attempt: wait and try again with another User-Agent.
    RetryForbidden,
    /// Read the body and return the response.
    Accept,
}

/// Decides whether a response is retried: throttling (429, 503) always is,
/// a 403 is retried unless it came on the last attempt, anything else is
/// accepted.
pub fn response_action(status: u16, attempt: u32) -> (a: ResponseAction)
    ensures
        (status == 429 || status == 503) ==> a == ResponseAction::RetryThrottled,
        !(status == 429 || status == 503) && status == 403 && attempt + 1 < MAX_FETCH_ATTEMPTS ==> a == ResponseAction::RetryForbidden,
        !(status == 429 || status == 503) && !(status == 403 && attempt + 1 < MAX_FETCH_ATTEMPTS) ==> a == ResponseAction::Accept,
{
    if status == 429 || status == 503 {
        ResponseAction::RetryThrottled
    } else if status == 403 && attempt < MAX_FETCH_ATTEMPTS - 1 {
        ResponseAction::RetryForbidden
    } else {
        ResponseAction::Accept
    }
}

/// Whether a failed request (or an unreadable body) on attempt `attempt` is
/// followed by a pause: every attempt but the last is.
pub fn pause_after_failure(attempt: u32) -> (p: bool)
    ensures
        p == (attempt + 1 < MAX_FETCH_ATTEMPTS),
{
    attempt < MAX_FETCH_ATTEMPTS - 1
}

/// What came of one fetch attempt.
#[derive(Debug, Clone, Copy, PartialEq, Eq, Structural)]
pub enum FetchEvent {
    /// A response arrived with this status (its body not yet read).
    Response { status: u16 },
    /// The request failed, or the body of an accepted response could not be
    /// read.
    Failure,
}

/// Why an attempt did not give the content.
#[derive(Debug, Clone, Copy, PartialEq, Eq, Structural)]
pub enum RetryReason {
    /// 429 or 503.
    Throttled,
    /// 403.
    Forbidden,
    /// The request or the body failed.
    Failed,
}

/// What a fetch does after an attempt.
#[derive(Debug, Clone, Copy, PartialEq, Eq, Structural)]
pub enum FetchStep {
    /// Read the response's body and return the response.
    Accept,
    /// Record the attempt as failed for `reason`, pause for `pause_ms` where
    /// given, then make attempt `next` where given, or else give up.
    Retry { reason: RetryReason, pause_ms: Option<u64>, next: Option<u32> },
}

/// The attempt after `attempt`, if one is left.
pub open spec fn next_attempt(attempt: u32) -> Option<u32> {
    if attempt + 1 < MAX_FETCH_ATTEMPTS {
        Some((attempt + 1) as u32)
    } else {
        None
    }
}

/// The step after attempt `attempt` ended in `event`: a throttled response
/// always pauses and moves on; a 403 does so except on the last attempt,
/// where it is accepted like any other response; a failure moves on,
/// pausing except after the last attempt. Every pause after attempt `k`
/// lasts 500 ms doubled `k` times.
pub open spec fn fetch_step_spec(attempt: u32, event: FetchEvent) -> FetchStep {
    let pause = fetch_retry_delay_spec(attempt) as u64;
    match event {
        FetchEvent::Response { status } => if status == 429 || status == 503 {
            FetchStep::Retry { reason: RetryReason::Throttled, pause_ms: Some(pause), next: next_attempt(attempt) }
        } else if status == 403 && attempt + 1 < MAX_FETCH_ATTEMPTS {
            FetchStep::Retry { reason: RetryReason::Forbidden, pause_ms: Some(pause), next: next_attempt(attempt) }
        } else {
            FetchStep::Accept
        },
        FetchEvent::Failure => FetchStep::Retry {
            reason: RetryReason::Failed,
            pause_ms: if attempt + 1 < MAX_FETCH_ATTEMPTS { Some(pause) } else { None },
            next: next_attempt(attempt),
        },
    }
}

/// Decides what follows attempt `attempt` of a fetch.
pub fn next_fetch_step(attempt: u32, event: FetchEvent) -> (step: FetchStep)
    requires
        attempt < MAX_FETCH_ATTEMPTS,
    ensures
        step == fetch_step_spec(attempt, event),
{
    let pause = fetch_retry_delay_ms(attempt);
    let next = if attempt + 1 < MAX_FETCH_ATTEMPTS { Some(attempt + 1) } else { None };
    match event {
        FetchEvent::Response { status } => match response_action(status, attempt) {
            ResponseAction::RetryThrottled => FetchStep::Retry { reason: RetryReason::Throttled, pause_ms: Some(pause), next },
            ResponseAction::RetryForbidden => FetchStep::Retry { reason: RetryReason::Forbidden, pause_ms: Some(pause), next },
            ResponseAction::Accept => FetchStep::Accept,
        },
        FetchEvent::Failure => FetchStep::Retry {
            reason: RetryReason::Failed,
            pause_ms: if pause_after_failure(attempt) { Some(pause) } else { None },
            next,
        },
    }
}

/// A fetch makes at most `MAX_FETCH_ATTEMPTS` attempts: each step either
/// ends the fetch or moves to the next attempt, and none follows the last.
pub proof fn fetch_attempts_bounded(attempt: u32, event: FetchEvent)
    requires
        attempt < MAX_FETCH_ATTEMPTS,
    ensures
        fetch_step_spec(attempt, event) matches FetchStep::Retry { next: Some(n), .. }
            ==> n == attempt + 1 && n < MAX_FETCH_ATTEMPTS,
{
}

/// The error recorded when a throttled response is retried.
pub fn throttled_error(status_text: &str, url: &str) -> (e: Error)
    ensures
        e matches Error::FeedParse(m) && m@ == http_status_message(status_text@, url@),
{
    Error::FeedParse(String::from_str("HTTP ").concat(status_text).concat(" for URL: ").concat(url))
}

/// The error recorded when a 403 is retried.
pub fn forbidden_retry_error(url: &str) -> (e: Error)
    ensures
        e matches Error::FeedParse(m) && m@ == "HTTP 403 Forbidden for URL: "@ + url@,
{
    Error::FeedParse(String::from_str("HTTP 403 Forbidden for URL: ").concat(url))
}

/// The error returned when every attempt failed and none recorded an error.
pub fn exhausted_error(url: &str) -> (e: Error)
    ensures
        e matches Error::FeedParse(m) && m@ == "Failed to fetch URL after "@ + decimal(MAX_FETCH_ATTEMPTS as nat) + " retries: "@ + url@,
{
    Error::FeedParse(String::from_str("Failed to fetch URL after ").concat(decimal_string(MAX_FETCH_ATTEMPTS as u64).as_str())
        .concat(" retries: ").concat(url))
}

/// The browser-like request headers sent with a fetch: what is accepted
/// (feeds and pages), the languages, the encodings, a search engine as
/// referrer, and the User-Agent of the rotation.
pub open spec fn browser_headers_spec(user_agent: Seq<char>) -> Seq<(Seq<char>, Seq<char>)> {
    seq![
        ("accept"@, "text/html,application/xhtml+xml,application/xml;q=0.9,application/rss+xml,application/atom+xml,*/*;q=0.8"@),
        ("accept-language"@, "en-US,en;q=0.9,zh-CN;q=0.8,zh;q=0.7"@),
        ("accept-encoding"@, "gzip, deflate, br"@),
        ("referer"@, "https://www.google.com/"@),
        ("user-agent"@, user_agent),
    ]
}

/// The request headers for a fetch with the given User-Agent.
pub fn browser_headers(user_agent: &str) -> (h: Vec<(&'static str, String)>)
    ensures
        h@.map_values(|p: (&'static str, String)| (p.0@, p.1@)) == browser_headers_spec(user_agent@),
{
    let h = vec![
        ("accept", String::from_str("text/html,application/xhtml+xml,application/xml;q=0.9,application/rss+xml,application/atom+xml,*/*;q=0.8")),
        ("accept-language", String::from_str("en-US,en;q=0.9,zh-CN;q=0.8,zh;q=0.7")),
        ("accept-encoding", String::from_str("gzip, deflate, br")),
        ("referer", String::from_str("https://www.google.com/")),
        ("user-agent", String::from_str(user_agent)),
    ];
    proof {
        assert(h@.map_values(|p: (&'static str, String)| (p.0@, p.1@)) =~= browser_headers_spec(user_agent@));
    }
    h
}

} // verus!
