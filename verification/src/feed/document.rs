//! A feed document as `feed_rs` reads it. The document and its entries are
//! held together with the bytes they were read from, so that what is copied
//! out of them can be tied to those bytes; only the functions of this module
//! make such values.
use vstd::prelude::*;

use feed_rs::model::{Entry as FeedEntry, Feed as FeedDocument};

use crate::feed::parser::{EntryFields, FeedHeader, MediaFields};
use crate::text::{opt_view, string_views};

verus! {

#[verifier::external_type_specification]
#[verifier::external_body]
pub struct ExFeedDocument(FeedDocument);

#[verifier::external_type_specification]
#[verifier::external_body]
pub struct ExFeedEntry(FeedEntry);

/// The details of a feed document: title and description texts, link
/// targets, icon and logo addresses.
pub struct HeaderView {
    pub title: Option<Seq<char>>,
    pub description: Option<Seq<char>>,
    pub links: Seq<Seq<char>>,
    pub icon: Option<Seq<char>>,
    pub logo: Option<Seq<char>>,
}

/// One media object of an entry: its thumbnail image addresses and the URLs
/// of its content items.
pub struct MediaView {
    pub thumbnails: Seq<Seq<char>>,
    pub content_urls: Seq<Option<Seq<char>>>,
}

/// One entry of a feed document. `id` is the entry's id where the bytes
/// decide it (the document gives one, or it is derived from the entry's
/// first link and title); it is `None` where the parser makes one up at
/// random. Times are milliseconds since the Unix epoch.
pub struct EntryView {
    pub id: Option<Seq<char>>,
    pub links: Seq<Seq<char>>,
    pub title: Option<Seq<char>>,
    pub authors: Seq<Seq<char>>,
    pub content: Option<Option<Seq<char>>>,
    pub summary: Option<Seq<char>>,
    pub published: Option<i64>,
    pub updated: Option<i64>,
    pub media: Seq<MediaView>,
}

/// A feed document: its details and its entries, in document order.
pub struct FeedView {
    pub header: HeaderView,
    pub entries: Seq<EntryView>,
}

/// What `feed_rs::parser::parse` reads from these bytes: the document, or
/// the message of its error.
pub uninterp spec fn feed_read(content: Seq<u8>) -> Result<FeedView, Seq<char>>;

/// The view of a header copied out of a document.
pub open spec fn header_view(h: FeedHeader) -> HeaderView {
    HeaderView {
        title: opt_view(h.title),
        description: opt_view(h.description),
        links: string_views(h.links@),
        icon: opt_view(h.icon),
        logo: opt_view(h.logo),
    }
}

/// The view of a media object copied out of an entry.
pub open spec fn media_view(m: MediaFields) -> MediaView {
    MediaView {
        thumbnails: string_views(m.thumbnails@),
        content_urls: m.content_urls@.map_values(|u: Option<String>| opt_view(u)),
    }
}

/// The views of the media objects copied out of an entry.
pub open spec fn media_views(m: Seq<MediaFields>) -> Seq<MediaView> {
    m.map_values(|x: MediaFields| media_view(x))
}

/// The fields copied out of an entry agree with the entry `e`: all of them
/// are equal, and so is the id where the bytes decide it.
pub open spec fn fields_agree(f: EntryFields, e: EntryView) -> bool {
    &&& (e.id matches Some(x) ==> f.id@ == x)
    &&& string_views(f.links@) == e.links
    &&& opt_view(f.title) == e.title
    &&& string_views(f.authors@) == e.authors
    &&& match f.content {
        Some(c) => e.content == Some(opt_view(c)),
        None => e.content is None,
    }
    &&& opt_view(f.summary) == e.summary
    &&& f.published == e.published
    &&& f.updated == e.updated
}

/// A document read by `feed_rs`, with the bytes it was read from.
pub struct FeedDoc {
    doc: FeedDocument,
    source: Ghost<Seq<u8>>,
}

impl FeedDoc {
    /// The bytes the document was read from.
    pub closed spec fn source(&self) -> Seq<u8> {
        self.source@
    }
}

/// An entry of a document read by `feed_rs`, with the bytes the document
/// was read from and the entry's place in it.
pub struct DocEntry {
    entry: FeedEntry,
    source: Ghost<Seq<u8>>,
    index: Ghost<nat>,
}

impl DocEntry {
    /// The bytes the entry's document was read from.
    pub closed spec fn source(&self) -> Seq<u8> {
        self.source@
    }

    /// The entry's place in its document.
    pub closed spec fn index(&self) -> nat {
        self.index@
    }
}

/// Calls `feed_rs::parser::parse` on the bytes; a failure becomes its
/// message. Whether it succeeds, the message and what it reads depend on the
/// bytes alone, but for the ids it makes up at random.
#[verifier::external_body]
pub(crate) fn parse_document(content: &[u8]) -> (r: Result<FeedDoc, String>)
    ensures
        r is Ok <==> feed_read(content@) is Ok,
        r matches Err(m) ==> (feed_read(content@) matches Err(x) && x == m@),
        r matches Ok(d) ==> d.source() == content@,
{
    match feed_rs::parser::parse(content) {
        Ok(f) => Ok(FeedDoc { doc: f, source: Ghost(content@) }),
        Err(e) => Err(e.to_string()),
    }
}

/// Copies the title and description texts, the link targets and the icon
/// and logo addresses out of a document.
#[verifier::external_body]
pub(crate) fn document_header(d: &FeedDoc) -> (h: FeedHeader)
    ensures
        feed_read(d.source()) matches Ok(v) ==> header_view(h) == v.header,
{
    let f = &d.doc;
    FeedHeader {
        title: f.title.as_ref().map(|t| t.content.clone()),
        description: f.description.as_ref().map(|t| t.content.clone()),
        links: f.links.iter().map(|l| l.href.clone()).collect(),
        icon: f.icon.as_ref().map(|i| i.uri.clone()),
        logo: f.logo.as_ref().map(|l| l.uri.clone()),
    }
}

/// Takes the entries out of a document, in document order, each with its
/// place.
#[verifier::external_body]
pub(crate) fn document_entries(d: FeedDoc) -> (v: Vec<DocEntry>)
    ensures
        feed_read(d.source()) matches Ok(fv) ==> v@.len() == fv.entries.len(),
        forall|i: int| 0 <= i < v@.len() ==> (#[trigger] v@[i]).source() == d.source() && v@[i].index() == i,
{
    let source = d.source;
    d.doc.entries.into_iter().enumerate().map(|(i, e)| DocEntry { entry: e, source, index: Ghost(i as nat) }).collect()
}

/// Copies the id, link targets, title text, author names, content body,
/// summary text and the two timestamps out of an entry.
#[verifier::external_body]
pub(crate) fn entry_fields(e: &DocEntry) -> (f: EntryFields)
    ensures
        feed_read(e.source()) matches Ok(fv)
            ==> (e.index() < fv.entries.len() ==> fields_agree(f, fv.entries[e.index() as int])),
{
    let x = &e.entry;
    EntryFields {
        id: x.id.clone(),
        links: x.links.iter().map(|l| l.href.clone()).collect(),
        title: x.title.as_ref().map(|t| t.content.clone()),
        authors: x.authors.iter().map(|a| a.name.clone()).collect(),
        content: x.content.as_ref().map(|c| c.body.clone()),
        summary: x.summary.as_ref().map(|t| t.content.clone()),
        published: x.published.map(|d| d.timestamp_millis()),
        updated: x.updated.map(|d| d.timestamp_millis()),
    }
}

/// Copies the thumbnail image addresses and content item URLs of each media
/// object out of an entry, in order.
#[verifier::external_body]
pub(crate) fn entry_media(e: &DocEntry) -> (m: Vec<MediaFields>)
    ensures
        feed_read(e.source()) matches Ok(fv)
            ==> (e.index() < fv.entries.len() ==> media_views(m@) == fv.entries[e.index() as int].media),
{
    e.entry.media.iter().map(|m| MediaFields {
        thumbnails: m.thumbnails.iter().map(|t| t.image.uri.clone()).collect(),
        content_urls: m.content.iter().map(|c| c.url.as_ref().map(|u| u.to_string())).collect(),
    }).collect()
}

} // verus!
