use kenseader::error::Error;
use kenseader::feed::opml::{collect_opml_feeds, outline_feed, parse_opml, XmlEvent};

#[test]
fn test_parse_opml() {
    let opml = r#"<?xml version="1.0" encoding="UTF-8"?>
<opml version="2.0">
  <head><title>Test</title></head>
  <body>
    <outline text="Category">
      <outline text="Feed 1" title="Feed One" xmlUrl="https://example.com/feed1.xml" type="rss"/>
      <outline text="Feed 2" xmlUrl="https://example.com/feed2.xml" type="rss"/>
    </outline>
    <outline text="Direct Feed" xmlUrl="https://example.com/feed3.xml" type="rss"/>
  </body>
</opml>"#;

    let feeds = parse_opml(opml).unwrap();
    assert_eq!(feeds.len(), 3);
    assert_eq!(feeds[0].name, "Feed One"); // title takes precedence
    assert_eq!(feeds[0].url, "https://example.com/feed1.xml");
    assert_eq!(feeds[1].name, "Feed 2"); // fallback to text
    assert_eq!(feeds[2].name, "Direct Feed");
}

#[test]
fn test_parse_opml_empty_category() {
    let opml = r#"<?xml version="1.0" encoding="UTF-8"?>
<opml version="2.0">
  <body>
    <outline text="Empty Category"/>
  </body>
</opml>"#;

    let feeds = parse_opml(opml).unwrap();
    assert_eq!(feeds.len(), 0); // Categories without xmlUrl are skipped
}

fn attr(k: &str, v: &str) -> Option<(String, String)> {
    Some((k.to_string(), v.to_string()))
}

#[test]
fn outline_without_name_is_unnamed() {
    let f = outline_feed(&vec![attr("xmlUrl", "https://x/feed")]).unwrap();
    assert_eq!(f.url, "https://x/feed");
    assert_eq!(f.name, "Unnamed Feed");
}

#[test]
fn title_before_text_keeps_title() {
    let f = outline_feed(&vec![attr("title", "T"), attr("text", "X"), None, attr("xmlUrl", "u")]).unwrap();
    assert_eq!(f.name, "T");
}

#[test]
fn reading_error_is_reported() {
    let events = vec![
        XmlEvent::Element { name: "outline".to_string(), attributes: vec![attr("xmlUrl", "u")] },
        XmlEvent::Failure("bad".to_string()),
    ];
    match collect_opml_feeds(&events) {
        Err(Error::FeedParse(m)) => assert_eq!(m, "Failed to parse OPML: bad"),
        _ => panic!("expected an error"),
    }
}

#[test]
fn events_after_the_end_are_ignored() {
    let events = vec![
        XmlEvent::Other,
        XmlEvent::End,
        XmlEvent::Element { name: "outline".to_string(), attributes: vec![attr("xmlUrl", "u")] },
    ];
    assert_eq!(collect_opml_feeds(&events).unwrap().len(), 0);
}

#[test]
fn malformed_opml_is_an_error() {
    assert!(matches!(parse_opml("<opml><body></opml>"), Err(Error::FeedParse(_))));
}

#[test]
fn first_text_names_an_untitled_feed() {
    let f = outline_feed(&vec![attr("text", "First"), attr("xmlUrl", "https://a/1"), attr("text", "Second")]).unwrap();
    assert_eq!(f.name, "First");
    assert_eq!(f.url, "https://a/1");
    assert!(outline_feed(&vec![attr("text", "T"), attr("title", "A")]).is_none());
    let h = outline_feed(&vec![attr("xmlUrl", "u1"), attr("title", "A"), attr("xmlUrl", "u2"), attr("title", "B")]).unwrap();
    assert_eq!((h.url.as_str(), h.name.as_str()), ("u2", "B"));
}
