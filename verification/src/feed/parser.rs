//! Reading a feed document into the data the reader stores: the feed's own
//! details and one new article per entry.
use vstd::prelude::*;
use vstd::string::{StringExecFns, StringSliceAdditionalSpecFns};
use vstd::utf8::{decode_utf8, encode_utf8, is_char_boundary};


use crate::error::Error;
use crate::feed::document::{
    document_entries, document_header, entry_fields, entry_media, feed_read, fields_agree, header_view, media_view, media_views, parse_document,
    EntryView, FeedView, HeaderView, MediaView,
};
use crate::feed::models::NewArticle;
use crate::text::{lemma_first_occurrence_from, opt_view, string_views, bytes_contain, bytes_contain_within, bytes_find, first_occurrence, lowercase, to_lowercase};

verus! {

broadcast use vstd::utf8::group_utf8_lib;

/// The UTF-8 bytes of the lower-cased text that `b` encodes.
pub open spec fn lower_bytes(b: Seq<u8>) -> Seq<u8> {
    encode_utf8(lowercase(decode_utf8(b)))
}

/// The bytes of `<img`.
pub open spec fn img_tag() -> Seq<u8> {
    seq![60u8, 105u8, 109u8, 103u8]
}

/// The bytes of `src=`.
pub open spec fn src_attr() -> Seq<u8> {
    seq![115u8, 114u8, 99u8, 61u8]
}

/// Whether the image lookup in the HTML `h` only ever cuts the text between
/// characters. The lookup finds `<img` and `src=` in a lower-cased copy but
/// cuts the original text at the positions found there, which is only
/// possible where lower-casing kept the byte offsets.
pub open spec fn image_cuts_valid(h: Seq<u8>) -> bool {
    match first_occurrence(lower_bytes(h), img_tag()) {
        None => true,
        Some(i) => i <= h.len() && is_char_boundary(h, i) && {
            let r = h.subrange(i, h.len() as int);
            match first_occurrence(lower_bytes(r), src_attr()) {
                None => true,
                Some(j) => j + 4 <= r.len() && is_char_boundary(r, j + 4),
            }
        },
    }
}

/// Whether an image URL looks like an icon or a tracking pixel.
pub open spec fn looks_like_tracker(url: Seq<u8>) -> bool {
    bytes_contain(url, seq![49u8, 120u8, 49u8]) || bytes_contain(url, seq![112u8, 105u8, 120u8, 101u8, 108u8])
        || bytes_contain(url, seq![116u8, 114u8, 97u8, 99u8, 107u8, 105u8, 110u8, 103u8])
}

/// The quoted value that `s` starts with: the bytes after an opening `"` or
/// `'` up to the next same quote.
pub open spec fn quoted_value(s: Seq<u8>) -> Option<Seq<u8>> {
    if s.len() == 0 || (s[0] != 34u8 && s[0] != 39u8) {
        None
    } else {
        let t = s.subrange(1, s.len() as int);
        match first_occurrence(t, seq![s[0]]) {
            None => None,
            Some(k) => Some(t.subrange(0, k)),
        }
    }
}

/// The first image URL of the HTML `h`: the quoted `src` value of the first
/// `<img` tag (tag and attribute found regardless of case), unless it looks
/// like an icon or a tracking pixel.
pub open spec fn first_image_url_spec(h: Seq<u8>) -> Option<Seq<u8>> {
    match first_occurrence(lower_bytes(h), img_tag()) {
        None => None,
        Some(i) => {
            let r = h.subrange(i, h.len() as int);
            match first_occurrence(lower_bytes(r), src_attr()) {
                None => None,
                Some(j) => match quoted_value(r.subrange(j + 4, r.len() as int)) {
                    None => None,
                    Some(url) => if looks_like_tracker(url) { None } else { Some(url) },
                },
            }
        },
    }
}

/// The byte position of the first `<img` (or `src=`) in the lower-cased text.
fn find_lowered(s: &str, pattern: &Vec<u8>) -> (r: Option<usize>)
    ensures
        r matches Some(k) ==> first_occurrence(lower_bytes(s.spec_bytes()), pattern@) == Some(k as int),
        r is None ==> first_occurrence(lower_bytes(s.spec_bytes()), pattern@) is None,
{
    let lowered = to_lowercase(s);
    proof {
        assert(decode_utf8(s.spec_bytes()) == s@);
    }
    bytes_find(lowered.as_str().as_bytes(), pattern.as_slice())
}

/// The first image URL of an HTML text, as `first_image_url_spec` gives
/// it, for a text on which the lookup cuts only between characters.
pub fn extract_first_image_url(html: &str) -> (r: Option<String>)
    requires
        image_cuts_valid(html.spec_bytes()),
    ensures
        r matches Some(u) ==> first_image_url_spec(html.spec_bytes()) == Some(encode_utf8(u@)),
        r is None ==> first_image_url_spec(html.spec_bytes()) is None,
{
    let ghost h = html.spec_bytes();
    let img = vec![60u8, 105u8, 109u8, 103u8];
    let img_start = match find_lowered(html, &img) {
        Some(i) => i,
        None => return None,
    };
    proof {
        assert(img@ == img_tag());
    }
    let (_, remaining) = html.split_at(img_start);
    let ghost r = remaining.spec_bytes();
    let rb = remaining.as_bytes();
    proof {
        assert(rb@.len() == rb.len());
    }
    let src = vec![115u8, 114u8, 99u8, 61u8];
    let src_start = match find_lowered(remaining, &src) {
        Some(j) => j,
        None => return None,
    };
    proof {
        assert(src@ == src_attr());
    }
    let (_, src_remaining) = remaining.split_at(src_start + 4);
    let ghost s = src_remaining.spec_bytes();
    let sb = src_remaining.as_bytes();
    if sb.len() == 0 {
        return None;
    }
    let quote = sb[0];
    if quote != 34u8 && quote != 39u8 {
        return None;
    }
    proof {
        assert(is_char_boundary(s, 1)) by {
            reveal_with_fuel(is_char_boundary, 2);
            if s.len() > 1 {
                vstd::utf8::is_char_boundary_iff_not_is_continuation_byte(s, 1);
            }
        }
    }
    let (_, rest) = src_remaining.split_at(1);
    let ghost t = rest.spec_bytes();
    let q = vec![quote];
    proof {
        assert(q@ == seq![s[0]]);
    }
    let url_end = match bytes_find(rest.as_bytes(), q.as_slice()) {
        Some(k) => k,
        None => return None,
    };
    proof {
        lemma_first_occurrence_from(t, q@, 0);
        assert(t[url_end as int] == quote) by {
            assert(t.subrange(url_end as int, url_end + 1)[0] == t[url_end as int]);
        }
        assert(t == encode_utf8(rest@));
        assert(vstd::utf8::valid_utf8(t));
        vstd::utf8::is_char_boundary_iff_not_is_continuation_byte(t, url_end as int);
    }
    let (url, _) = rest.split_at(url_end);
    let ub = url.as_bytes();
    let one_by_one = vec![49u8, 120u8, 49u8];
    let pixel = vec![112u8, 105u8, 120u8, 101u8, 108u8];
    let tracking = vec![116u8, 114u8, 97u8, 99u8, 107u8, 105u8, 110u8, 103u8];
    let tracker = bytes_contain_within(ub, ub.len(), one_by_one.as_slice())
        || bytes_contain_within(ub, ub.len(), pixel.as_slice())
        || bytes_contain_within(ub, ub.len(), tracking.as_slice());
    proof {
        assert(ub@.take(ub@.len() as int) =~= ub@);
        assert(one_by_one@ == seq![49u8, 120u8, 49u8]);
        assert(pixel@ == seq![112u8, 105u8, 120u8, 101u8, 108u8]);
        assert(tracking@ == seq![116u8, 114u8, 97u8, 99u8, 107u8, 105u8, 110u8, 103u8]);
    }
    if tracker {
        None
    } else {
        Some(String::from_str(url))
    }
}

/// Whether the image lookup in `html` cuts only between characters.
pub fn image_cuts_ok(html: &str) -> (b: bool)
    ensures
        b == image_cuts_valid(html.spec_bytes()),
{
    let img = vec![60u8, 105u8, 109u8, 103u8];
    proof {
        assert(img@ == img_tag());
    }
    let img_start = match find_lowered(html, &img) {
        Some(i) => i,
        None => return true,
    };
    if !html.is_char_boundary(img_start) {
        proof {
            if img_start <= html.spec_bytes().len() {
                assert(!is_char_boundary(html.spec_bytes(), img_start as int));
            }
        }
        return false;
    }
    let (_, remaining) = html.split_at(img_start);
    let src = vec![115u8, 114u8, 99u8, 61u8];
    proof {
        assert(src@ == src_attr());
    }
    let src_start = match find_lowered(remaining, &src) {
        Some(j) => j,
        None => return true,
    };
    let rb = remaining.as_bytes();
    if src_start > rb.len() || rb.len() - src_start < 4 {
        return false;
    }
    remaining.is_char_boundary(src_start + 4)
}

/// The first image URL of the HTML text `html`, as text; `None` also where
/// the lookup would have to cut the text inside a character.
pub open spec fn html_image_url(html: Seq<char>) -> Option<Seq<char>> {
    if !image_cuts_valid(encode_utf8(html)) {
        None
    } else {
        match first_image_url_spec(encode_utf8(html)) {
            Some(b) => Some(decode_utf8(b)),
            None => None,
        }
    }
}

/// The first image URL of an HTML text, or `None` where the lookup would
/// have to cut the text inside a character.
pub fn first_image_url(html: &str) -> (r: Option<String>)
    ensures
        opt_view(r) == html_image_url(html@),
        !image_cuts_valid(html.spec_bytes()) ==> r is None,
        image_cuts_valid(html.spec_bytes()) ==> match r {
            Some(u) => first_image_url_spec(html.spec_bytes()) == Some(encode_utf8(u@)),
            None => first_image_url_spec(html.spec_bytes()) is None,
        },
{
    if image_cuts_ok(html) {
        let r = extract_first_image_url(html);
        proof {
            if r is Some {
                assert(decode_utf8(encode_utf8(r->0@)) == r->0@);
            }
        }
        r
    } else {
        None
    }
}

/// The details of a feed document that the reader keeps.
#[derive(Debug, Clone)]
pub struct FeedHeader {
    pub title: Option<String>,
    pub description: Option<String>,
    pub links: Vec<String>,
    pub icon: Option<String>,
    pub logo: Option<String>,
}

/// The parts of a feed entry that an article is made from. Times are
/// milliseconds since the Unix epoch.
#[derive(Debug, Clone)]
pub struct EntryFields {
    pub id: String,
    pub links: Vec<String>,
    pub title: Option<String>,
    pub authors: Vec<String>,
    /// The entry's content element, if any, with its body, if any.
    pub content: Option<Option<String>>,
    pub summary: Option<String>,
    pub published: Option<i64>,
    pub updated: Option<i64>,
}

/// One media object of a feed entry: its thumbnail images and the
/// addresses of its content items.
#[derive(Debug, Clone)]
pub struct MediaFields {
    pub thumbnails: Vec<String>,
    pub content_urls: Vec<Option<String>>,
}

/// What `html2text::from_read` renders from an HTML text at a given width,
/// if it renders it.
pub uninterp spec fn html_plain_text(html: Seq<char>, width: usize) -> Option<Seq<char>>;

/// Calls `html2text::from_read` on the HTML text; the rendering depends on
/// the text and the width alone.
#[verifier::external_body]
fn render_html(html: &str, width: usize) -> (r: Option<String>)
    ensures
        opt_view(r) == html_plain_text(html@, width),
{
    match html2text::from_read(html.as_bytes(), width) {
        Ok(t) => Some(t),
        Err(_) => None,
    }
}

/// The column width plain text is wrapped at.
pub const TEXT_WIDTH: usize = 80;

/// The plain text of an HTML text, wrapped at 80 columns; the HTML itself
/// where it cannot be rendered.
pub open spec fn plain_text(html: Seq<char>) -> Seq<char> {
    match html_plain_text(html, TEXT_WIDTH) {
        Some(t) => t,
        None => html,
    }
}

/// Converts HTML content to plain text.
pub fn html_to_text(html: &str) -> (s: String)
    ensures
        s@ == plain_text(html@),
{
    match render_html(html, TEXT_WIDTH) {
        Some(t) => t,
        None => String::from_str(html),
    }
}

/// Parsed feed data from RSS/Atom content.
#[derive(Debug, Clone)]
pub struct ParsedFeed {
    pub title: Option<String>,
    pub description: Option<String>,
    pub site_url: Option<String>,
    pub icon_url: Option<String>,
    pub articles: Vec<NewArticle>,
}

/// The view of the fields and media copied out of an entry.
pub open spec fn entry_view(f: EntryFields, media: Seq<MediaFields>) -> EntryView {
    EntryView {
        id: Some(f.id@),
        links: string_views(f.links@),
        title: opt_view(f.title),
        authors: string_views(f.authors@),
        content: match f.content {
            Some(c) => Some(opt_view(c)),
            None => None,
        },
        summary: opt_view(f.summary),
        published: f.published,
        updated: f.updated,
        media: media_views(media),
    }
}

/// The first of a list of texts.
pub open spec fn first_text(v: Seq<Seq<char>>) -> Option<Seq<char>> {
    if v.len() > 0 {
        Some(v[0])
    } else {
        None
    }
}

/// The HTML content of an entry: its content body, else its summary.
pub open spec fn entry_content(e: EntryView) -> Option<Seq<char>> {
    match e.content {
        Some(Some(b)) => Some(b),
        _ => e.summary,
    }
}

/// The image of an entry: the first thumbnail of its first media object,
/// else the address of that object's first content item, else the first
/// image of its HTML content.
pub open spec fn entry_image(media: Seq<MediaView>, content: Option<Seq<char>>) -> Option<Seq<char>> {
    if media.len() > 0 && media[0].thumbnails.len() > 0 {
        Some(media[0].thumbnails[0])
    } else if media.len() > 0 && media[0].content_urls.len() > 0 && media[0].content_urls[0] is Some {
        media[0].content_urls[0]
    } else {
        match content {
            Some(c) => html_image_url(c),
            None => None,
        }
    }
}

/// `a` is the article made from the entry `e` of the feed `feed_id`; its
/// guid is the entry's id wherever the document decides that id.
pub open spec fn article_of(a: NewArticle, feed_id: u128, e: EntryView) -> bool {
    &&& a.feed_id == feed_id
    &&& (e.id matches Some(x) ==> a.guid@ == x)
    &&& opt_view(a.url) == first_text(e.links)
    &&& a.title@ == match e.title {
        Some(t) => t,
        None => "Untitled"@,
    }
    &&& opt_view(a.author) == first_text(e.authors)
    &&& opt_view(a.content) == entry_content(e)
    &&& opt_view(a.content_text) == match entry_content(e) {
        Some(c) => Some(plain_text(c)),
        None => None,
    }
    &&& a.published_at == match e.published {
        Some(t) => Some(t),
        None => e.updated,
    }
    &&& opt_view(a.image_url) == entry_image(e.media, entry_content(e))
}

/// `a` is the article made from the entry fields `f` and media `media` of
/// the feed `feed_id`.
pub open spec fn article_from(a: NewArticle, feed_id: u128, f: EntryFields, media: Seq<MediaFields>) -> bool {
    article_of(a, feed_id, entry_view(f, media))
}

/// An article's content is the entry's content body whenever the entry has
/// one, whatever its summary says; the summary is used only when there is
/// no content body. The plain text is there exactly when the content is.
pub proof fn article_content_prefers_body(a: NewArticle, feed_id: u128, e: EntryView)
    requires
        article_of(a, feed_id, e),
    ensures
        e.content matches Some(Some(b)) ==> opt_view(a.content) == Some(b),
        !(e.content matches Some(Some(_))) ==> opt_view(a.content) == e.summary,
        a.content is Some <==> a.content_text is Some,
{
}

/// An article's image is the first thumbnail of the entry's first media
/// object whenever that object has a thumbnail, whatever its content items
/// are; only without a thumbnail does the first content item's address
/// count, and only without either the first image of the HTML content.
pub proof fn article_image_prefers_thumbnail(a: NewArticle, feed_id: u128, e: EntryView)
    requires
        article_of(a, feed_id, e),
    ensures
        e.media.len() > 0 && e.media[0].thumbnails.len() > 0 ==> opt_view(a.image_url) == Some(e.media[0].thumbnails[0]),
        e.media.len() > 0 && e.media[0].thumbnails.len() == 0 && e.media[0].content_urls.len() > 0
            && e.media[0].content_urls[0] is Some ==> opt_view(a.image_url) == e.media[0].content_urls[0],
{
}

/// The same two rules for an article made from the fields and media copied
/// out of an entry.
pub proof fn article_from_fields_prefers_body_and_thumbnail(a: NewArticle, feed_id: u128, f: EntryFields, media: Seq<MediaFields>)
    requires
        article_from(a, feed_id, f, media),
    ensures
        f.content matches Some(Some(b)) ==> opt_view(a.content) == Some(b@),
        media.len() > 0 && media[0].thumbnails@.len() > 0 ==> opt_view(a.image_url) == Some(media[0].thumbnails@[0]@),
{
    let e = entry_view(f, media);
    article_content_prefers_body(a, feed_id, e);
    article_image_prefers_thumbnail(a, feed_id, e);
    if media.len() > 0 && media[0].thumbnails@.len() > 0 {
        assert(e.media[0] == media_view(media[0]));
        assert(e.media[0].thumbnails[0] == media[0].thumbnails@[0]@);
    }
}

fn first_of(v: &Vec<String>) -> (r: Option<String>)
    ensures
        opt_view(r) == first_text(string_views(v@)),
{
    if v.len() > 0 {
        Some(v[0].clone())
    } else {
        None
    }
}

fn pick_image(media: &Vec<MediaFields>, content: &Option<String>) -> (r: Option<String>)
    ensures
        opt_view(r) == entry_image(media_views(media@), opt_view(*content)),
{
    if media.len() > 0 && media[0].thumbnails.len() > 0 {
        return Some(media[0].thumbnails[0].clone());
    }
    if media.len() > 0 && media[0].content_urls.len() > 0 {
        match &media[0].content_urls[0] {
            Some(u) => return Some(u.clone()),
            None => {},
        }
    }
    match content {
        Some(c) => first_image_url(c.as_str()),
        None => None,
    }
}

/// Makes the new article for an entry of the feed `feed_id`.
pub fn article_from_entry(feed_id: u128, f: EntryFields, media: &Vec<MediaFields>) -> (a: NewArticle)
    ensures
        article_from(a, feed_id, f, media@),
{
    let url = first_of(&f.links);
    let author = first_of(&f.authors);
    let title = match &f.title {
        Some(t) => t.clone(),
        None => String::from_str("Untitled"),
    };
    let content: Option<String> = match &f.content {
        Some(Some(b)) => Some(b.clone()),
        _ => f.summary.clone(),
    };
    let content_text = match &content {
        Some(c) => Some(html_to_text(c.as_str())),
        None => None,
    };
    let published_at = match f.published {
        Some(t) => Some(t),
        None => f.updated,
    };
    let image_url = pick_image(media, &content);
    NewArticle {
        feed_id,
        guid: f.id,
        url,
        title,
        author,
        content,
        content_text,
        published_at,
        image_url,
    }
}

/// `p` holds the feed's details read from the header `h`: the first link
/// as the site, and the icon, else the logo.
pub open spec fn details_of(p: ParsedFeed, h: HeaderView) -> bool {
    &&& opt_view(p.title) == h.title
    &&& opt_view(p.description) == h.description
    &&& opt_view(p.site_url) == first_text(h.links)
    &&& opt_view(p.icon_url) == match h.icon {
        Some(i) => Some(i),
        None => h.logo,
    }
}

/// `p` is the parsed feed assembled from the details `h` and the entries
/// `es` of a document of the feed `feed_id`.
pub open spec fn assembled(p: ParsedFeed, feed_id: u128, h: FeedHeader, es: Seq<(EntryFields, Vec<MediaFields>)>) -> bool {
    &&& details_of(p, header_view(h))
    &&& p.articles@.len() == es.len()
    &&& forall|i: int| 0 <= i < es.len() ==> article_from(#[trigger] p.articles@[i], feed_id, es[i].0, es[i].1@)
}

/// Puts a parsed feed together from the document's details and its
/// entries, one new article per entry, in order.
pub fn assemble_feed(feed_id: u128, header: FeedHeader, entries: Vec<(EntryFields, Vec<MediaFields>)>) -> (p: ParsedFeed)
    ensures
        assembled(p, feed_id, header, entries@),
{
    let site_url = first_of(&header.links);
    let icon_url = match &header.icon {
        Some(i) => Some(i.clone()),
        None => header.logo.clone(),
    };
    let mut articles: Vec<NewArticle> = Vec::new();
    let ghost es = entries@;
    let n = entries.len();
    let mut i: usize = 0;
    for e in it: entries
        invariant
            it.seq() == es,
            i == it.index(),
            i <= es.len(),
            n == es.len(),
            articles@.len() == i,
            forall|k: int| 0 <= k < i ==> article_from(#[trigger] articles@[k], feed_id, es[k].0, es[k].1@),
    {
        let (fields, media) = e;
        let a = article_from_entry(feed_id, fields, &media);
        articles.push(a);
        i = i + 1;
    }
    ParsedFeed { title: header.title, description: header.description, site_url, icon_url, articles }
}

/// `p` is the parsed feed of the document `d` of the feed `feed_id`: its
/// details, and one article per entry, in order.
pub open spec fn parsed_from(p: ParsedFeed, feed_id: u128, d: FeedView) -> bool {
    &&& details_of(p, d.header)
    &&& p.articles@.len() == d.entries.len()
    &&& forall|i: int| 0 <= i < d.entries.len() ==> article_of(#[trigger] p.articles@[i], feed_id, d.entries[i])
}

/// Parses RSS/Atom content into the feed's details and its new articles,
/// one per entry of the document in order; an unreadable document is a
/// feed parsing error with the parser's message.
pub fn parse_feed(content: &[u8], feed_id: u128) -> (r: Result<ParsedFeed, Error>)
    ensures
        r is Err <==> feed_read(content@) is Err,
        r matches Err(e) ==> e matches Error::FeedParse(m)
            && (feed_read(content@) matches Err(x) && x == m@),
        r matches Ok(p) ==> (feed_read(content@) matches Ok(d) && parsed_from(p, feed_id, d)),
{
    let doc = match parse_document(content) {
        Ok(d) => d,
        Err(m) => return Err(Error::FeedParse(m)),
    };
    let ghost fv = feed_read(content@)->Ok_0;
    let header = document_header(&doc);
    let docs = document_entries(doc);
    let ghost ds = docs@;
    let mut entries: Vec<(EntryFields, Vec<MediaFields>)> = Vec::new();
    let mut i: usize = 0;
    while i < docs.len()
        invariant
            0 <= i <= docs@.len(),
            docs@ == ds,
            ds.len() == fv.entries.len(),
            feed_read(content@) == Ok::<FeedView, Seq<char>>(fv),
            forall|j: int| 0 <= j < ds.len() ==> (#[trigger] ds[j]).source() == content@ && ds[j].index() == j,
            entries@.len() == i,
            forall|k: int| 0 <= k < entries@.len() ==> fields_agree(#[trigger] entries@[k].0, fv.entries[k])
                && media_views(entries@[k].1@) == fv.entries[k].media,
        decreases docs@.len() - i,
    {
        let e = &docs[i];
        let fields = entry_fields(e);
        let media = entry_media(e);
        let ghost before = entries@;
        entries.push((fields, media));
        proof {
            assert forall|j: int| 0 <= j < entries@.len() implies fields_agree(#[trigger] entries@[j].0, fv.entries[j])
                && media_views(entries@[j].1@) == fv.entries[j].media by {
                if j < i {
                    assert(entries@[j] == before[j]);
                    assert(fields_agree(before[j].0, fv.entries[j]));
                }
            }
            assert(forall|k: int| 0 <= k < entries@.len() ==> fields_agree(#[trigger] entries@[k].0, fv.entries[k])
                && media_views(entries@[k].1@) == fv.entries[k].media);
        }
        i = i + 1;
    }
    let ghost h = header;
    let ghost es = entries@;
    let p = assemble_feed(feed_id, header, entries);
    proof {
        assert forall|i: int| 0 <= i < fv.entries.len() implies article_of(#[trigger] p.articles@[i], feed_id, fv.entries[i]) by {
            assert(article_from(p.articles@[i], feed_id, es[i].0, es[i].1@));
            assert(fields_agree(es[i].0, fv.entries[i]));
        }
    }
    Ok(p)
}

} // verus!
