use kenseader::error::Error;
use kenseader::ids::uuid_string;
use kenseader::ipc::client::{response_result, rpc_error_message, DaemonClient};
use kenseader::ipc::methods::{FEED_REFRESH, PING};
use kenseader::ipc::protocol::{Method, Request, Response, RpcError, ERR_INTERNAL, ERR_METHOD_NOT_FOUND};
use kenseader::ipc::server::{
    event_after_mark_read, event_after_toggle_saved, list_scope, method_not_found, parse_error, refresh_refusal,
    ListScope,
};
use kenseader::ipc::protocol::{ArticleListParams, FeedIdParams};
use kenseader::profile::models::BehaviorEventType;

#[test]
fn test_response_success() {
    let id = uuid::Uuid::new_v4().as_u128();
    let resp = Response::ok(id);
    assert!(resp.is_success());
}

#[test]
fn test_response_error() {
    let id = uuid::Uuid::new_v4().as_u128();
    let resp = Response::error(id, ERR_METHOD_NOT_FOUND, "Method not found".to_string());
    assert!(!resp.is_success());
    assert_eq!(resp.error.unwrap().code, ERR_METHOD_NOT_FOUND);
}

#[test]
fn ok_response_carries_ok_true() {
    let resp = Response::ok(7);
    assert_eq!(resp.id, 7);
    assert_eq!(resp.result.unwrap().to_string(), "{\"ok\":true}");
}

#[test]
fn request_names_its_method() {
    let req = Request::new("ping");
    assert_eq!(req.method, "ping");
    assert!(req.params.is_null());
}

#[test]
fn method_names_round_trip() {
    for m in [Method::Ping, Method::Status, Method::ArticleList, Method::ArticleGet, Method::ArticleMarkRead,
        Method::ArticleMarkUnread, Method::ArticleToggleSaved, Method::ArticleSearch, Method::FeedList,
        Method::FeedAdd, Method::FeedDelete, Method::FeedRefresh]
    {
        assert_eq!(Method::from_name(m.name()), Some(m));
    }
    assert_eq!(Method::from_name(PING), Some(Method::Ping));
    assert_eq!(Method::from_name(FEED_REFRESH), Some(Method::FeedRefresh));
    assert_eq!(Method::from_name("feed.unknown"), None);
}

#[test]
fn rpc_error_is_reported_with_its_code() {
    let e = RpcError { code: -32601, message: "Method not found".to_string() };
    assert_eq!(rpc_error_message(&e), "RPC error -32601: Method not found");
    let resp = Response::error(1, 42, "odd".to_string());
    match response_result(resp) {
        Err(Error::Other(m)) => assert_eq!(m, "RPC error 42: odd"),
        _ => panic!("expected an error"),
    }
}

#[test]
fn empty_response_is_an_error() {
    let resp = Response { id: 1, result: None, error: None };
    match response_result(resp) {
        Err(Error::Other(m)) => assert_eq!(m, "Empty response"),
        _ => panic!("expected an error"),
    }
}

#[test]
fn daemon_client_keeps_its_socket() {
    let c = DaemonClient::new("/tmp/k.sock".to_string());
    assert_eq!(c.socket_path, "/tmp/k.sock");
}

#[test]
fn single_feed_refresh_is_refused() {
    let r = refresh_refusal(3, &FeedIdParams { id: Some(9) }).unwrap();
    let e = r.error.unwrap();
    assert_eq!(e.code, ERR_INTERNAL);
    assert_eq!(e.message, "Single feed refresh not implemented");
    assert!(refresh_refusal(3, &FeedIdParams { id: None }).is_none());
}

#[test]
fn replies_for_unknown_methods_and_bad_lines() {
    let r = method_not_found(5);
    assert_eq!(r.id, 5);
    assert_eq!(r.error.unwrap().message, "Method not found");
    let p = parse_error("expected value");
    assert_eq!(p.id, 0);
    assert_eq!(p.error.unwrap().message, "Parse error: expected value");
}

#[test]
fn listing_scope_follows_parameters() {
    assert_eq!(
        list_scope(&ArticleListParams { feed_id: Some(4), unread_only: true }),
        ListScope::Feed { feed_id: 4, unread_only: true }
    );
    assert_eq!(list_scope(&ArticleListParams { feed_id: None, unread_only: true }), ListScope::AllUnread { limit: 1000 });
}

#[test]
fn behaviour_events_after_reading_and_saving() {
    assert_eq!(event_after_mark_read(Some(2)), Some((2, BehaviorEventType::Click)));
    assert_eq!(event_after_mark_read(None), None);
    assert_eq!(event_after_toggle_saved(true, Some(2)), Some((2, BehaviorEventType::Save)));
    assert_eq!(event_after_toggle_saved(false, Some(2)), None);
    assert_eq!(event_after_toggle_saved(true, None), None);
}

#[test]
fn test_request_serialization() {
    // The request as it travels: its fields under their names, the id in
    // its hyphenated form.
    let req = Request::new("ping");
    let mut wire = serde_json::Map::new();
    wire.insert("id".to_string(), serde_json::Value::String(uuid_string(req.id)));
    wire.insert("method".to_string(), serde_json::Value::String(req.method.clone()));
    wire.insert("params".to_string(), req.params.clone());
    let json = serde_json::to_string(&serde_json::Value::Object(wire)).unwrap();
    assert!(json.contains("\"method\":\"ping\""));
    assert!(req.params.is_null());
}
