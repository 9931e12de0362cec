//! What the database layer decides about the errors it meets while setting
//! up its tables.
use vstd::prelude::*;

use sqlx::Error as SqlError;

use crate::text::{chars_of, find_first, lowercase, to_lowercase};

verus! {

/// The message that a database error reports (`DatabaseError::message` of
/// a `sqlx::Error::Database`), if it is one.
pub uninterp spec fn sql_error_message(err: SqlError) -> Option<Seq<char>>;

/// The message of a database error (`sqlx::Error::Database` and its
/// `DatabaseError::message`); `None` for other errors. The message is read
/// from the error value alone, so it is named as a function of the error;
/// which message an error holds is not stated, the error being opaque here.
#[verifier::external_body]
fn database_error_message(err: &SqlError) -> (r: Option<String>)
    ensures
        crate::text::opt_view(r) == sql_error_message(*err),
{
    match err {
        SqlError::Database(db) => Some(db.message().to_string()),
        _ => None,
    }
}

/// Whether a database error message, lower-cased, mentions a duplicate
/// column (a column added by an earlier run of a migration).
pub open spec fn mentions_duplicate_column(message: Seq<char>) -> bool {
    find_first(lowercase(message), "duplicate column"@) is Some
}

/// Whether the message reports a duplicate column.
pub fn message_mentions_duplicate_column(message: &str) -> (b: bool)
    ensures
        b == mentions_duplicate_column(message@),
{
    let lowered = to_lowercase(message);
    let l = chars_of(lowered.as_str());
    let p = chars_of("duplicate column");
    crate::text::find(l.as_slice(), p.as_slice()).is_some()
}

/// Whether a database error reports a duplicate column, which a migration
/// that adds a column treats as already done.
pub fn is_duplicate_column_error(err: &SqlError) -> (b: bool)
    ensures
        b == (sql_error_message(*err) matches Some(m) && mentions_duplicate_column(m)),
{
    match database_error_message(err) {
        Some(m) => message_mentions_duplicate_column(m.as_str()),
        None => false,
    }
}

} // verus!
