//! Feeds and articles. Identifiers are UUIDs held as 128-bit integers and
//! times are milliseconds since the Unix epoch (UTC).
use vstd::prelude::*;
use vstd::string::StringExecFns;

use crate::text::{chars_of, slice_prefix, string_of};

verus! {

/// An RSS/Atom feed subscription.
#[derive(Debug, Clone)]
pub struct Feed {
    pub id: u128,
    pub url: String,
    pub local_name: String,
    pub title: Option<String>,
    pub description: Option<String>,
    pub site_url: Option<String>,
    pub icon_url: Option<String>,
    pub last_fetched_at: Option<i64>,
    pub fetch_error: Option<String>,
    pub created_at: i64,
    pub updated_at: i64,
    /// Computed field (not stored in the database)
    pub unread_count: u32,
}

/// Data required to create a new feed.
#[derive(Debug, Clone)]
pub struct NewFeed {
    pub url: String,
    pub local_name: String,
}

/// An article from a feed.
#[derive(Debug, Clone)]
pub struct Article {
    pub id: u128,
    pub feed_id: u128,
    pub guid: String,
    pub url: Option<String>,
    pub title: String,
    pub author: Option<String>,
    pub content: Option<String>,
    pub content_text: Option<String>,
    pub summary: Option<String>,
    pub summary_generated_at: Option<i64>,
    pub published_at: Option<i64>,
    pub fetched_at: i64,
    pub is_read: bool,
    pub read_at: Option<i64>,
    pub is_saved: bool,
    pub created_at: i64,
    pub image_url: Option<String>,
    pub tags: Vec<String>,
}

/// Data required to create a new article.
#[derive(Debug, Clone)]
pub struct NewArticle {
    pub feed_id: u128,
    pub guid: String,
    pub url: Option<String>,
    pub title: String,
    pub author: Option<String>,
    pub content: Option<String>,
    pub content_text: Option<String>,
    pub published_at: Option<i64>,
    pub image_url: Option<String>,
}

/// The text an article is previewed from: its plain text, else its summary,
/// else nothing.
pub open spec fn preview_source(a: Article) -> Seq<char> {
    match a.content_text {
        Some(t) => t@,
        None => match a.summary {
            Some(s) => s@,
            None => Seq::empty(),
        },
    }
}

/// A preview of the first `max_len` characters of `text`: nothing for a
/// zero limit, the whole text when it has no more characters than that, and
/// otherwise its first `max_len` characters followed by "...".
pub open spec fn preview_spec(text: Seq<char>, max_len: usize) -> Seq<char> {
    if max_len == 0 {
        Seq::empty()
    } else if text.len() <= max_len {
        text
    } else {
        text.take(max_len as int) + "..."@
    }
}

impl Article {
    /// Whether the article has been summarized.
    pub fn is_summarized(&self) -> (b: bool)
        ensures
            b == self.summary is Some,
    {
        self.summary.is_some()
    }

    /// A preview of the content (first `max_len` characters), followed by
    /// "..." when the text was cut.
    pub fn content_preview(&self, max_len: usize) -> (p: String)
        ensures
            p@ == preview_spec(preview_source(*self), max_len),
    {
        let text: &str = match &self.content_text {
            Some(t) => t.as_str(),
            None => match &self.summary {
                Some(s) => s.as_str(),
                None => "",
            },
        };
        proof {
            reveal_strlit("");
            assert(text@ == preview_source(*self));
        }
        if max_len == 0 {
            return String::new();
        }
        let chars = chars_of(text);
        if chars.len() <= max_len {
            return String::from_str(text);
        }
        let prefix = slice_prefix(chars.as_slice(), max_len);
        string_of(prefix.as_slice()).concat("...")
    }
}

impl Feed {
    /// Whether the last fetch of the feed failed.
    pub fn has_error(&self) -> (b: bool)
        ensures
            b == self.fetch_error is Some,
    {
        self.fetch_error.is_some()
    }
}

} // verus!
