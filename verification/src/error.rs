//! The library's error type.
use vstd::prelude::*;

verus! {

#[verifier::external_type_specification]
#[verifier::external_body]
pub struct ExUrlParseError(url::ParseError);

/// Errors of the library. Failures that arise in the application around it
/// (database, HTTP, I/O, JSON) carry their message.
#[derive(Debug)]
pub enum Error {
    Database(String),
    Http(String),
    FeedParse(String),
    Config(String),
    Io(String),
    UrlParse(url::ParseError),
    Json(String),
    AiProvider(String),
    ArticleNotFound(String),
    FeedNotFound(String),
    InvalidRsshubUrl(String),
    Other(String),
}

} // verus!
