//! The decisions the daemon takes on a request; the database work and the
//! socket stay in the application, which hands the outcomes back here.
use vstd::prelude::*;
use vstd::string::StringExecFns;

use crate::ipc::protocol::{
    ArticleListParams, FeedIdParams, Response, ERR_INTERNAL, ERR_INVALID_PARAMS,
    ERR_METHOD_NOT_FOUND, ERR_PARSE,
};
use crate::profile::models::BehaviorEventType;

verus! {

/// Maximum number of concurrent requests the daemon processes.
pub const MAX_CONCURRENT_REQUESTS: usize = 10;

/// How many unread articles an article listing without a feed returns.
pub const UNREAD_LIST_LIMIT: u32 = 1000;

/// Which articles an `article.list` request asks for.
#[derive(Debug, Clone, Copy, PartialEq, Eq, Structural)]
pub enum ListScope {
    /// The articles of one feed, perhaps only the unread ones.
    Feed { feed_id: u128, unread_only: bool },
    /// The unread articles of all feeds, at most this many.
    AllUnread { limit: u32 },
}

/// The listing that the parameters ask for: one feed's articles when a feed
/// is given, else up to 1000 unread articles.
pub fn list_scope(params: &ArticleListParams) -> (s: ListScope)
    ensures
        params.feed_id matches Some(f) ==> s == (ListScope::Feed { feed_id: f, unread_only: params.unread_only }),
        params.feed_id is None ==> s == (ListScope::AllUnread { limit: UNREAD_LIST_LIMIT }),
{
    match params.feed_id {
        Some(f) => ListScope::Feed { feed_id: f, unread_only: params.unread_only },
        None => ListScope::AllUnread { limit: UNREAD_LIST_LIMIT },
    }
}

/// The event recorded after an article was marked read: a click, when the
/// article's feed is known.
pub fn event_after_mark_read(feed_id: Option<u128>) -> (e: Option<(u128, BehaviorEventType)>)
    ensures
        feed_id matches Some(f) ==> e == Some((f, BehaviorEventType::Click)),
        feed_id is None ==> e is None,
{
    match feed_id {
        Some(f) => Some((f, BehaviorEventType::Click)),
        None => None,
    }
}

/// The event recorded after the saved flag was toggled: a save, when the
/// article is now saved and its feed is known. Unsaving records nothing.
pub fn event_after_toggle_saved(is_saved: bool, feed_id: Option<u128>) -> (e: Option<(u128, BehaviorEventType)>)
    ensures
        (is_saved && feed_id is Some) ==> e == Some((feed_id->0, BehaviorEventType::Save)),
        !(is_saved && feed_id is Some) ==> e is None,
{
    if is_saved {
        match feed_id {
            Some(f) => Some((f, BehaviorEventType::Save)),
            None => None,
        }
    } else {
        None
    }
}

/// A refresh of a single feed is refused; a refresh of all feeds goes on
/// (`None`).
pub fn refresh_refusal(id: u128, params: &FeedIdParams) -> (r: Option<Response>)
    ensures
        params.id is Some <==> r is Some,
        r matches Some(resp) ==> resp.id == id && resp.result is None && (resp.error matches Some(e)
            && e.code == ERR_INTERNAL && e.message@ == "Single feed refresh not implemented"@),
{
    if params.id.is_some() {
        Some(Response::error(id, ERR_INTERNAL, String::from_str("Single feed refresh not implemented")))
    } else {
        None
    }
}

/// The reply to a request for a method the daemon does not know.
pub fn method_not_found(id: u128) -> (r: Response)
    ensures
        r.id == id,
        r.result is None,
        r.error matches Some(e) && e.code == ERR_METHOD_NOT_FOUND && e.message@ == "Method not found"@,
{
    Response::error(id, ERR_METHOD_NOT_FOUND, String::from_str("Method not found"))
}

/// The reply to a line that is not a request: the nil id and
/// `Parse error: <reason>`.
pub fn parse_error(reason: &str) -> (r: Response)
    ensures
        r.id == 0,
        r.result is None,
        r.error matches Some(e) && e.code == ERR_PARSE && e.message@ == "Parse error: "@ + reason@,
{
    let m = String::from_str("Parse error: ").concat(reason);
    Response::error(0, ERR_PARSE, m)
}

/// The reply to a request whose parameters do not fit its method.
pub fn invalid_params(id: u128, reason: String) -> (r: Response)
    ensures
        r.id == id,
        r.result is None,
        r.error matches Some(e) && e.code == ERR_INVALID_PARAMS && e.message == reason,
{
    Response::error(id, ERR_INVALID_PARAMS, reason)
}

/// The reply to a request whose work failed.
pub fn internal_error(id: u128, reason: String) -> (r: Response)
    ensures
        r.id == id,
        r.result is None,
        r.error matches Some(e) && e.code == ERR_INTERNAL && e.message == reason,
{
    Response::error(id, ERR_INTERNAL, reason)
}

} // verus!
