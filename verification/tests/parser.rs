use kenseader::error::Error;
use kenseader::feed::parser::{article_from_entry, first_image_url, html_to_text, parse_feed, EntryFields, MediaFields};

const RSS: &str = r#"<?xml version="1.0" encoding="UTF-8"?>
<rss version="2.0">
<channel>
  <title>Example Feed</title>
  <link>https://example.com/</link>
  <description>An example</description>
  <item>
    <title>First post</title>
    <link>https://example.com/1</link>
    <guid>post-1</guid>
    <description>&lt;p&gt;Hello &lt;img src="https://example.com/pic.png"&gt; world&lt;/p&gt;</description>
  </item>
  <item>
    <guid>post-2</guid>
    <description>Plain</description>
  </item>
</channel>
</rss>"#;

#[test]
fn rss_document_becomes_feed_and_articles() {
    let parsed = parse_feed(RSS.as_bytes(), 9).unwrap();
    assert_eq!(parsed.title.as_deref(), Some("Example Feed"));
    assert_eq!(parsed.description.as_deref(), Some("An example"));
    assert_eq!(parsed.site_url.as_deref(), Some("https://example.com/"));
    assert_eq!(parsed.articles.len(), 2);
    let a = &parsed.articles[0];
    assert_eq!(a.feed_id, 9);
    assert_eq!(a.guid, "post-1");
    assert_eq!(a.title, "First post");
    assert_eq!(a.url.as_deref(), Some("https://example.com/1"));
    assert_eq!(a.image_url.as_deref(), Some("https://example.com/pic.png"));
    assert!(a.content_text.as_deref().unwrap().contains("Hello"));
    assert_eq!(parsed.articles[1].title, "Untitled");
}

#[test]
fn unreadable_document_is_a_parse_error() {
    assert!(matches!(parse_feed(b"this is not a feed", 1), Err(Error::FeedParse(_))));
}

#[test]
fn first_image_is_found_regardless_of_case() {
    assert_eq!(first_image_url("<P><IMG alt='x' SRC='a.jpg'></P>").as_deref(), Some("a.jpg"));
    assert_eq!(first_image_url("<img src=\"https://t/pixel.gif\">"), None);
    assert_eq!(first_image_url("<img src=\"https://t/1x1.gif\">"), None);
    assert_eq!(first_image_url("<img src=https://t/a.gif>"), None);
    assert_eq!(first_image_url("no images"), None);
}

#[test]
fn image_lookup_that_would_cut_a_character_gives_none() {
    // The Kelvin sign (three bytes) lower-cases to 'k' (one byte), so "<img"
    // is found two bytes earlier in the lower-cased text: inside the sign.
    assert_eq!(first_image_url("\u{212A}<img src=\"a.png\">"), None);
    // Where the shift lands between characters, the lookup goes on.
    assert_eq!(first_image_url("\u{130}<img src=\"a.png\">").as_deref(), Some("a.png"));
}

#[test]
fn html_is_rendered_as_text() {
    let t = html_to_text("<p>Hello <b>world</b></p>");
    assert!(t.contains("Hello"));
    assert!(t.contains("world"));
    assert!(!t.contains("<p>"));
}

#[test]
fn entry_falls_back_on_summary_updated_time_and_media() {
    let f = EntryFields {
        id: "e".to_string(),
        links: vec![],
        title: None,
        authors: vec!["Ann".to_string(), "Bob".to_string()],
        content: Some(None),
        summary: Some("<img src='x.png'>".to_string()),
        published: None,
        updated: Some(5),
    };
    let media = vec![MediaFields { thumbnails: vec![], content_urls: vec![Some("m.mp4".to_string())] }];
    let a = article_from_entry(3, f, &media);
    assert_eq!(a.title, "Untitled");
    assert_eq!(a.author.as_deref(), Some("Ann"));
    assert_eq!(a.content.as_deref(), Some("<img src='x.png'>"));
    assert_eq!(a.published_at, Some(5));
    assert_eq!(a.image_url.as_deref(), Some("m.mp4"));
    assert!(a.url.is_none());
}

#[test]
fn parse_error_carries_the_parser_message() {
    let content: &[u8] = b"<html><body>not a feed</body></html>";
    let expected = feed_rs::parser::parse(content).err().map(|e| e.to_string());
    match parse_feed(content, 1) {
        Err(Error::FeedParse(m)) => assert_eq!(Some(m), expected),
        _ => panic!("expected a feed parse error"),
    }
}

#[test]
fn entry_ids_follow_the_document() {
    let rss = r#"<?xml version="1.0"?><rss version="2.0"><channel><title>F</title>
<item><title>A</title><link>https://example.com/a</link></item>
<item><title>B</title><guid>given-id</guid></item>
</channel></rss>"#;
    let first = parse_feed(rss.as_bytes(), 1).unwrap();
    let second = parse_feed(rss.as_bytes(), 2).unwrap();
    assert_eq!(first.articles.len(), 2);
    // An id derived from the link and title is the same on every read.
    assert_eq!(first.articles[0].guid, second.articles[0].guid);
    assert!(!first.articles[0].guid.is_empty());
    assert_eq!(first.articles[1].guid, "given-id");
    assert_eq!(second.articles[1].feed_id, 2);
    assert_eq!(first.articles[1].title, "B");
}
