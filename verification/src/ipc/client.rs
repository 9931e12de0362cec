//! The client side of the daemon protocol: what a client makes of a reply.
use vstd::prelude::*;
use vstd::string::StringExecFns;

use crate::error::Error;
use crate::ipc::protocol::{Response, RpcError};
use crate::text::{signed_decimal, signed_decimal_string};

verus! {

/// Client for communicating with the daemon over its socket.
#[derive(Debug, Clone)]
pub struct DaemonClient {
    pub socket_path: String,
}

impl DaemonClient {
    /// Create a new daemon client
    pub fn new(socket_path: String) -> (c: Self)
        ensures
            c.socket_path == socket_path,
    {
        DaemonClient { socket_path }
    }
}

/// The message under which a client reports an error reply:
/// `RPC error <code>: <message>`.
pub open spec fn rpc_error_text(code: i32, message: Seq<char>) -> Seq<char> {
    "RPC error "@ + signed_decimal(code as int) + ": "@ + message
}

/// Renders an error reply as the client reports it.
pub fn rpc_error_message(error: &RpcError) -> (s: String)
    ensures
        s@ == rpc_error_text(error.code, error.message@),
{
    let s = String::from_str("RPC error ");
    let code = signed_decimal_string(error.code);
    let s = s.concat(code.as_str());
    let s = s.concat(": ");
    s.concat(error.message.as_str())
}

/// What a call gives back for a reply: the error it carries, else its
/// result, else an "Empty response" error.
pub fn response_result(response: Response) -> (r: Result<serde_json::Value, Error>)
    ensures
        response.error matches Some(e) ==> (r matches Err(Error::Other(m)) && m@ == rpc_error_text(e.code, e.message@)),
        response.error is None ==> match response.result {
            Some(v) => r == Ok::<serde_json::Value, Error>(v),
            None => r matches Err(Error::Other(m)) && m@ == "Empty response"@,
        },
{
    match response.error {
        Some(e) => Err(Error::Other(rpc_error_message(&e))),
        None => match response.result {
            Some(v) => Ok(v),
            None => Err(Error::Other(String::from_str("Empty response"))),
        },
    }
}

/// A ping succeeds exactly when the call gave a result.
pub fn ping_outcome(call: &Result<serde_json::Value, Error>) -> (alive: bool)
    ensures
        alive == call is Ok,
{
    call.is_ok()
}

} // verus!
