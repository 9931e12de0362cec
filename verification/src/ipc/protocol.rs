//! JSON-RPC style requests and responses. Identifiers are UUIDs held as
//! 128-bit integers; request parameters and results are JSON values that
//! the library carries through unread.
use vstd::prelude::*;
use vstd::string::StringExecFns;

use crate::feed::models::{Article, Feed};
use crate::ipc::methods::{
    ARTICLE_GET, ARTICLE_LIST, ARTICLE_MARK_READ, ARTICLE_MARK_UNREAD, ARTICLE_SEARCH,
    ARTICLE_TOGGLE_SAVED, FEED_ADD, FEED_DELETE, FEED_LIST, FEED_REFRESH, PING, STATUS,
};
use crate::text::str_eq;

verus! {

#[verifier::external_type_specification]
#[verifier::external_body]
pub struct ExJsonValue(serde_json::Value);

/// Whether a JSON value is `null` (what `serde_json::Value::is_null`
/// reports of it).
pub uninterp spec fn json_is_null(v: serde_json::Value) -> bool;

/// Builds the JSON value `null` (`serde_json::Value::Null`), which
/// `Value::is_null` reports as null.
#[verifier::external_body]
fn json_null() -> (v: serde_json::Value)
    ensures
        json_is_null(v),
{
    serde_json::Value::Null
}

/// The JSON object whose one entry maps `key` to the boolean `value`.
pub uninterp spec fn json_bool_entry(key: Seq<char>, value: bool) -> serde_json::Value;

/// Builds the JSON object with the one entry `key: value`, by inserting the
/// pair into an empty `serde_json::Map`; the same key and value give the
/// same object.
#[verifier::external_body]
fn json_bool_object(key: &str, value: bool) -> (v: serde_json::Value)
    ensures
        v == json_bool_entry(key@, value),
{
    let mut m = serde_json::Map::new();
    m.insert(key.to_string(), serde_json::Value::Bool(value));
    serde_json::Value::Object(m)
}

/// Draws a fresh random (version 4) UUID with `uuid::Uuid::new_v4`, as its
/// 128-bit value; nothing is known of which one comes out.
#[verifier::external_body]
pub(crate) fn random_uuid() -> u128 {
    uuid::Uuid::new_v4().as_u128()
}

/// JSON-RPC style request.
#[derive(Debug)]
pub struct Request {
    pub id: u128,
    pub method: String,
    pub params: serde_json::Value,
}

impl Request {
    /// A request for `method` under a fresh random id, without parameters.
    pub fn new(method: &str) -> (r: Self)
        ensures
            r.method@ == method@,
            json_is_null(r.params),
    {
        Request { id: random_uuid(), method: String::from_str(method), params: json_null() }
    }

    /// The same request with `params` as its parameters.
    pub fn with_params(self, params: serde_json::Value) -> (r: Self)
        ensures
            r.id == self.id,
            r.method == self.method,
            r.params == params,
    {
        Request { id: self.id, method: self.method, params }
    }
}

/// RPC error.
#[derive(Debug, Clone)]
pub struct RpcError {
    pub code: i32,
    pub message: String,
}

/// JSON-RPC style response: a result or an error.
#[derive(Debug)]
pub struct Response {
    pub id: u128,
    pub result: Option<serde_json::Value>,
    pub error: Option<RpcError>,
}

impl Response {
    pub fn success(id: u128, result: serde_json::Value) -> (r: Self)
        ensures
            r.id == id,
            r.result == Some(result),
            r.error is None,
    {
        Response { id, result: Some(result), error: None }
    }

    pub fn error(id: u128, code: i32, message: String) -> (r: Self)
        ensures
            r.id == id,
            r.result is None,
            r.error matches Some(e) && e.code == code && e.message == message,
    {
        Response { id, result: None, error: Some(RpcError { code, message }) }
    }

    /// A success whose result is the object `{"ok": true}`.
    pub fn ok(id: u128) -> (r: Self)
        ensures
            r.id == id,
            r.result == Some(json_bool_entry("ok"@, true)),
            r.error is None,
    {
        Response::success(id, json_bool_object("ok", true))
    }

    pub fn is_success(&self) -> (b: bool)
        ensures
            b == (self.error is None),
    {
        self.error.is_none()
    }
}

// Error codes
pub const ERR_PARSE: i32 = -32700;
pub const ERR_INVALID_REQUEST: i32 = -32600;
pub const ERR_METHOD_NOT_FOUND: i32 = -32601;
pub const ERR_INVALID_PARAMS: i32 = -32602;
pub const ERR_INTERNAL: i32 = -32603;
pub const ERR_DAEMON_NOT_RUNNING: i32 = -32000;

/// The methods that the daemon answers.
#[derive(Debug, Clone, Copy, PartialEq, Eq, Structural)]
pub enum Method {
    Ping,
    Status,
    ArticleList,
    ArticleGet,
    ArticleMarkRead,
    ArticleMarkUnread,
    ArticleToggleSaved,
    ArticleSearch,
    FeedList,
    FeedAdd,
    FeedDelete,
    FeedRefresh,
}

/// The wire name of each method.
pub open spec fn method_name(m: Method) -> Seq<char> {
    match m {
        Method::Ping => "ping"@,
        Method::Status => "status"@,
        Method::ArticleList => "article.list"@,
        Method::ArticleGet => "article.get"@,
        Method::ArticleMarkRead => "article.mark_read"@,
        Method::ArticleMarkUnread => "article.mark_unread"@,
        Method::ArticleToggleSaved => "article.toggle_saved"@,
        Method::ArticleSearch => "article.search"@,
        Method::FeedList => "feed.list"@,
        Method::FeedAdd => "feed.add"@,
        Method::FeedDelete => "feed.delete"@,
        Method::FeedRefresh => "feed.refresh"@,
    }
}

/// The method with wire name `name`, if any.
pub open spec fn method_named(name: Seq<char>) -> Option<Method> {
    if name == method_name(Method::Ping) {
        Some(Method::Ping)
    } else if name == method_name(Method::Status) {
        Some(Method::Status)
    } else if name == method_name(Method::ArticleList) {
        Some(Method::ArticleList)
    } else if name == method_name(Method::ArticleGet) {
        Some(Method::ArticleGet)
    } else if name == method_name(Method::ArticleMarkRead) {
        Some(Method::ArticleMarkRead)
    } else if name == method_name(Method::ArticleMarkUnread) {
        Some(Method::ArticleMarkUnread)
    } else if name == method_name(Method::ArticleToggleSaved) {
        Some(Method::ArticleToggleSaved)
    } else if name == method_name(Method::ArticleSearch) {
        Some(Method::ArticleSearch)
    } else if name == method_name(Method::FeedList) {
        Some(Method::FeedList)
    } else if name == method_name(Method::FeedAdd) {
        Some(Method::FeedAdd)
    } else if name == method_name(Method::FeedDelete) {
        Some(Method::FeedDelete)
    } else if name == method_name(Method::FeedRefresh) {
        Some(Method::FeedRefresh)
    } else {
        None
    }
}

impl Method {
    /// The wire name of the method.
    pub fn name(&self) -> (s: &'static str)
        ensures
            s@ == method_name(*self),
    {
        match self {
            Method::Ping => PING,
            Method::Status => STATUS,
            Method::ArticleList => ARTICLE_LIST,
            Method::ArticleGet => ARTICLE_GET,
            Method::ArticleMarkRead => ARTICLE_MARK_READ,
            Method::ArticleMarkUnread => ARTICLE_MARK_UNREAD,
            Method::ArticleToggleSaved => ARTICLE_TOGGLE_SAVED,
            Method::ArticleSearch => ARTICLE_SEARCH,
            Method::FeedList => FEED_LIST,
            Method::FeedAdd => FEED_ADD,
            Method::FeedDelete => FEED_DELETE,
            Method::FeedRefresh => FEED_REFRESH,
        }
    }

    /// The method that a request names; `None` for an unknown name.
    pub fn from_name(name: &str) -> (m: Option<Method>)
        ensures
            m == method_named(name@),
    {
        if str_eq(name, PING) {
            Some(Method::Ping)
        } else if str_eq(name, STATUS) {
            Some(Method::Status)
        } else if str_eq(name, ARTICLE_LIST) {
            Some(Method::ArticleList)
        } else if str_eq(name, ARTICLE_GET) {
            Some(Method::ArticleGet)
        } else if str_eq(name, ARTICLE_MARK_READ) {
            Some(Method::ArticleMarkRead)
        } else if str_eq(name, ARTICLE_MARK_UNREAD) {
            Some(Method::ArticleMarkUnread)
        } else if str_eq(name, ARTICLE_TOGGLE_SAVED) {
            Some(Method::ArticleToggleSaved)
        } else if str_eq(name, ARTICLE_SEARCH) {
            Some(Method::ArticleSearch)
        } else if str_eq(name, FEED_LIST) {
            Some(Method::FeedList)
        } else if str_eq(name, FEED_ADD) {
            Some(Method::FeedAdd)
        } else if str_eq(name, FEED_DELETE) {
            Some(Method::FeedDelete)
        } else if str_eq(name, FEED_REFRESH) {
            Some(Method::FeedRefresh)
        } else {
            None
        }
    }
}

/// Each method is found again from its wire name.
pub proof fn method_name_round_trip(m: Method)
    ensures
        method_named(method_name(m)) == Some(m),
{
    reveal_strlit("ping");
    reveal_strlit("status");
    reveal_strlit("article.list");
    reveal_strlit("article.get");
    reveal_strlit("article.mark_read");
    reveal_strlit("article.mark_unread");
    reveal_strlit("article.toggle_saved");
    reveal_strlit("article.search");
    reveal_strlit("feed.list");
    reveal_strlit("feed.add");
    reveal_strlit("feed.delete");
    reveal_strlit("feed.refresh");
    let n = method_name(m);
    assert(n.len() >= 4);
    assert forall|k: Method| #[trigger] method_name(k) == n implies k == m by {
        let a = method_name(k);
        assert(a.len() == n.len());
        assert(a[0] == n[0]);
        assert(a[1] == n[1]);
        assert(a.len() > 8 ==> a[8] == n[8]);
        assert(a.len() > 9 ==> a[9] == n[9]);
        assert(a.len() > 13 ==> a[13] == n[13]);
        assert(a.len() > 5 ==> a[5] == n[5]);
    }
}

// Parameter structures

#[derive(Debug, Clone)]
pub struct ArticleListParams {
    pub feed_id: Option<u128>,
    pub unread_only: bool,
}

#[derive(Debug, Clone)]
pub struct ArticleIdParams {
    pub id: u128,
}

#[derive(Debug, Clone)]
pub struct ArticleSearchParams {
    pub query: String,
    pub feed_id: Option<u128>,
}

#[derive(Debug, Clone)]
pub struct FeedAddParams {
    pub url: String,
    pub name: String,
}

#[derive(Debug, Clone)]
pub struct FeedIdParams {
    pub id: Option<u128>,
}

// Response structures

#[derive(Debug, Clone)]
pub struct PingResponse {
    pub ok: bool,
}

#[derive(Debug, Clone)]
pub struct StatusResponse {
    pub running: bool,
    pub uptime_secs: u64,
    pub scheduler_running: bool,
}

#[derive(Debug, Clone)]
pub struct ArticleListResponse {
    pub articles: Vec<Article>,
}

#[derive(Debug, Clone)]
pub struct ArticleResponse {
    pub article: Option<Article>,
}

#[derive(Debug, Clone)]
pub struct FeedListResponse {
    pub feeds: Vec<Feed>,
}

#[derive(Debug, Clone)]
pub struct FeedAddResponse {
    pub feed: Feed,
}

#[derive(Debug, Clone)]
pub struct ToggleSavedResponse {
    pub is_saved: bool,
}

#[derive(Debug, Clone)]
pub struct RefreshResponse {
    pub new_articles: u32,
}

#[derive(Debug, Clone)]
pub struct SearchResponse {
    pub articles: Vec<Article>,
}

} // verus!
