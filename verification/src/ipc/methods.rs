//! The wire names of the daemon's methods.
use vstd::prelude::*;

verus! {

pub const PING: &'static str = "ping";
pub const STATUS: &'static str = "status";
pub const ARTICLE_LIST: &'static str = "article.list";
pub const ARTICLE_GET: &'static str = "article.get";
pub const ARTICLE_MARK_READ: &'static str = "article.mark_read";
pub const ARTICLE_MARK_UNREAD: &'static str = "article.mark_unread";
pub const ARTICLE_TOGGLE_SAVED: &'static str = "article.toggle_saved";
pub const ARTICLE_SEARCH: &'static str = "article.search";
pub const FEED_LIST: &'static str = "feed.list";
pub const FEED_ADD: &'static str = "feed.add";
pub const FEED_DELETE: &'static str = "feed.delete";
pub const FEED_REFRESH: &'static str = "feed.refresh";

} // verus!
