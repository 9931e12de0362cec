//! Reading the feed subscriptions of an OPML document.
use vstd::prelude::*;
use vstd::string::StringExecFns;

use crate::error::Error;
use crate::feed::xml::{next_event, set_trim_text, xml_event_at, xml_reader};
use crate::text::str_eq;

verus! {

/// A feed entry extracted from an OPML document.
#[derive(Debug, Clone)]
pub struct OpmlFeed {
    pub url: String,
    pub name: String,
}

/// What the XML reader reports next.
#[derive(Debug, Clone)]
pub enum XmlEvent {
    /// An opening or self-closing element: its name and its attributes as
    /// key and raw value, each `None` where the attribute could not be read.
    Element { name: String, attributes: Vec<Option<(String, String)>> },
    /// The end of the document.
    End,
    /// A reading error, with its message.
    Failure(String),
    /// Anything else (closing tags, text, comments, declarations).
    Other,
}

/// The feed address and name read so far from an outline's attributes:
/// `xmlUrl` gives the address, `title` the name, and `text` the name while
/// none has been given. Unreadable attributes are skipped; a later
/// attribute of the same kind wins.
pub open spec fn outline_state(attrs: Seq<Option<(String, String)>>) -> (Option<Seq<char>>, Option<Seq<char>>)
    decreases attrs.len(),
{
    if attrs.len() == 0 {
        (None, None)
    } else {
        let (url, name) = outline_state(attrs.drop_last());
        match attrs.last() {
            Some((k, v)) => if k@ == "xmlUrl"@ {
                (Some(v@), name)
            } else if k@ == "title"@ {
                (url, Some(v@))
            } else if k@ == "text"@ && name is None {
                (url, Some(v@))
            } else {
                (url, name)
            },
            None => (url, name),
        }
    }
}

/// The feed an outline stands for: only an outline with an `xmlUrl` is a
/// feed (others are categories); it is "Unnamed Feed" without a name.
pub open spec fn outline_feed_spec(attrs: Seq<Option<(String, String)>>) -> Option<(Seq<char>, Seq<char>)> {
    let (url, name) = outline_state(attrs);
    match url {
        Some(u) => Some((u, match name {
            Some(n) => n,
            None => "Unnamed Feed"@,
        })),
        None => None,
    }
}

/// The value of the last readable attribute named `key`.
pub open spec fn last_attribute(attrs: Seq<Option<(String, String)>>, key: Seq<char>) -> Option<Seq<char>>
    decreases attrs.len(),
{
    if attrs.len() == 0 {
        None
    } else {
        match attrs.last() {
            Some((k, v)) => if k@ == key {
                Some(v@)
            } else {
                last_attribute(attrs.drop_last(), key)
            },
            None => last_attribute(attrs.drop_last(), key),
        }
    }
}

/// The value of the first readable attribute named `key`.
pub open spec fn first_attribute(attrs: Seq<Option<(String, String)>>, key: Seq<char>) -> Option<Seq<char>>
    decreases attrs.len(),
{
    if attrs.len() == 0 {
        None
    } else {
        match first_attribute(attrs.drop_last(), key) {
            Some(v) => Some(v),
            None => match attrs.last() {
                Some((k, v)) => if k@ == key {
                    Some(v@)
                } else {
                    None
                },
                None => None,
            },
        }
    }
}

/// How an outline names its feed: the address is its (last) `xmlUrl`; the
/// name is its `title` where it has one, whatever `text` says, and else its
/// first `text`. An outline without `xmlUrl` is a category and gives no
/// feed.
pub proof fn outline_attribute_precedence(attrs: Seq<Option<(String, String)>>)
    ensures
        outline_state(attrs).0 == last_attribute(attrs, "xmlUrl"@),
        last_attribute(attrs, "title"@) is Some ==> outline_state(attrs).1 == last_attribute(attrs, "title"@),
        last_attribute(attrs, "title"@) is None ==> outline_state(attrs).1 == first_attribute(attrs, "text"@),
        last_attribute(attrs, "xmlUrl"@) is None ==> outline_feed_spec(attrs) is None,
    decreases attrs.len(),
{
    reveal_strlit("xmlUrl");
    reveal_strlit("title");
    reveal_strlit("text");
    if attrs.len() > 0 {
        let init = attrs.drop_last();
        outline_attribute_precedence(init);
        assert("xmlUrl"@ != "title"@ && "xmlUrl"@ != "text"@ && "title"@ != "text"@) by {
            assert("xmlUrl"@[1] != "title"@[1]);
            assert("xmlUrl"@[1] != "text"@[1]);
            assert("title"@.len() != "text"@.len());
        }
    }
}

/// The view of a feed entry.
pub open spec fn opml_view(f: OpmlFeed) -> (Seq<char>, Seq<char>) {
    (f.url@, f.name@)
}

/// Reads the feed of an outline element from its attributes.
pub fn outline_feed(attrs: &Vec<Option<(String, String)>>) -> (r: Option<OpmlFeed>)
    ensures
        r matches Some(f) ==> outline_feed_spec(attrs@) == Some(opml_view(f)),
        r is None ==> outline_feed_spec(attrs@) is None,
{
    let mut url: Option<String> = None;
    let mut name: Option<String> = None;
    let mut i: usize = 0;
    while i < attrs.len()
        invariant
            0 <= i <= attrs@.len(),
            (crate::text::opt_view(url), crate::text::opt_view(name)) == outline_state(attrs@.take(i as int)),
        decreases attrs@.len() - i,
    {
        proof {
            assert(attrs@.take(i + 1).drop_last() =~= attrs@.take(i as int));
            assert(attrs@.take(i + 1).last() == attrs@[i as int]);
        }
        match &attrs[i] {
            Some((k, v)) => {
                if str_eq(k.as_str(), "xmlUrl") {
                    url = Some(v.clone());
                } else if str_eq(k.as_str(), "title") {
                    name = Some(v.clone());
                } else if str_eq(k.as_str(), "text") && name.is_none() {
                    name = Some(v.clone());
                }
            },
            None => {},
        }
        i = i + 1;
    }
    proof {
        assert(attrs@.take(attrs@.len() as int) =~= attrs@);
    }
    match url {
        Some(u) => {
            let n = match name {
                Some(n) => n,
                None => String::from_str("Unnamed Feed"),
            };
            Some(OpmlFeed { url: u, name: n })
        },
        None => None,
    }
}

/// The outcome of reading the events of an OPML document from the front:
/// the feeds of its `outline` elements, in order, up to the end of the
/// document; or the message of the first reading error.
pub open spec fn opml_outcome(events: Seq<XmlEvent>) -> Result<Seq<(Seq<char>, Seq<char>)>, Seq<char>>
    decreases events.len(),
{
    if events.len() == 0 {
        Ok(Seq::empty())
    } else {
        match events[0] {
            XmlEvent::End => Ok(Seq::empty()),
            XmlEvent::Failure(m) => Err(m@),
            XmlEvent::Element { name, attributes } => {
                let rest = opml_outcome(events.drop_first());
                if name@ == "outline"@ && outline_feed_spec(attributes@) is Some {
                    match rest {
                        Ok(fs) => Ok(seq![outline_feed_spec(attributes@)->0] + fs),
                        Err(m) => Err(m),
                    }
                } else {
                    rest
                }
            },
            XmlEvent::Other => opml_outcome(events.drop_first()),
        }
    }
}

/// `found` followed by the outcome `r`.
pub open spec fn after(found: Seq<(Seq<char>, Seq<char>)>, r: Result<Seq<(Seq<char>, Seq<char>)>, Seq<char>>) -> Result<Seq<(Seq<char>, Seq<char>)>, Seq<char>> {
    match r {
        Ok(fs) => Ok(found + fs),
        Err(m) => Err(m),
    }
}

/// The message an OPML reading error is reported with.
pub open spec fn opml_error_message(m: Seq<char>) -> Seq<char> {
    "Failed to parse OPML: "@ + m
}

/// Collects the feeds of an OPML document from its events.
pub fn collect_opml_feeds(events: &Vec<XmlEvent>) -> (r: Result<Vec<OpmlFeed>, Error>)
    ensures
        opml_outcome(events@) matches Ok(fs) ==> (r matches Ok(v) && v@.map_values(|f: OpmlFeed| opml_view(f)) == fs),
        opml_outcome(events@) matches Err(m) ==> (r matches Err(Error::FeedParse(msg)) && msg@ == opml_error_message(m)),
{
    let mut feeds: Vec<OpmlFeed> = Vec::new();
    let mut i: usize = 0;
    proof {
        assert(events@.skip(0) =~= events@);
        let r = opml_outcome(events@);
        if r is Ok {
            assert(feeds@.map_values(|f: OpmlFeed| opml_view(f)) + r->Ok_0 =~= r->Ok_0);
        }
    }
    while i < events.len()
        invariant
            0 <= i <= events@.len(),
            opml_outcome(events@) == after(feeds@.map_values(|f: OpmlFeed| opml_view(f)), opml_outcome(events@.skip(i as int))),
        decreases events@.len() - i,
    {
        proof {
            assert(events@.skip(i as int).drop_first() =~= events@.skip(i + 1));
            assert(events@.skip(i as int)[0] == events@[i as int]);
        }
        match &events[i] {
            XmlEvent::End => {
                proof {
                    assert(feeds@.map_values(|f: OpmlFeed| opml_view(f)) + Seq::<(Seq<char>, Seq<char>)>::empty()
                        =~= feeds@.map_values(|f: OpmlFeed| opml_view(f)));
                }
                return Ok(feeds);
            },
            XmlEvent::Failure(m) => {
                let msg = String::from_str("Failed to parse OPML: ").concat(m.as_str());
                return Err(Error::FeedParse(msg));
            },
            XmlEvent::Element { name, attributes } => {
                if str_eq(name.as_str(), "outline") {
                    match outline_feed(attributes) {
                        Some(f) => {
                            let ghost before = feeds@.map_values(|f: OpmlFeed| opml_view(f));
                            feeds.push(f);
                            proof {
                                assert(feeds@.map_values(|f: OpmlFeed| opml_view(f)) =~= before.push(opml_view(f)));
                                let rest = opml_outcome(events@.skip(i + 1));
                                if rest is Ok {
                                    assert(before + (seq![opml_view(f)] + rest->Ok_0) =~= before.push(opml_view(f)) + rest->Ok_0);
                                }
                            }
                        },
                        None => {},
                    }
                }
            },
            XmlEvent::Other => {},
        }
        i = i + 1;
    }
    proof {
        assert(feeds@.map_values(|f: OpmlFeed| opml_view(f)) + Seq::<(Seq<char>, Seq<char>)>::empty()
            =~= feeds@.map_values(|f: OpmlFeed| opml_view(f)));
    }
    Ok(feeds)
}

/// The first `n` events that reading `content` with text trimming reports.
pub open spec fn xml_events(content: Seq<char>, n: nat) -> Seq<XmlEvent> {
    Seq::new(n, |k: int| xml_event_at(content, true, k as nat))
}

/// Whether reading stops at this event: the end of the document or an error.
pub open spec fn ends_reading(e: XmlEvent) -> bool {
    e is End || e is Failure
}

/// Events after one that ends the reading do not change the outcome.
proof fn lemma_outcome_stops(s: Seq<XmlEvent>, m: int)
    requires
        1 <= m <= s.len(),
        ends_reading(s[m - 1]),
    ensures
        opml_outcome(s.take(m)) == opml_outcome(s),
    decreases m,
{
    let t = s.take(m);
    assert(t[0] == s[0]);
    if m > 1 && !ends_reading(s[0]) {
        assert(t.drop_first() =~= s.drop_first().take(m - 1));
        lemma_outcome_stops(s.drop_first(), m - 1);
    }
}

/// Parses the feeds out of an OPML document: the feeds of its `outline`
/// elements, read with text trimming, up to the end of the document; or the
/// first reading error. Events are read at most one more time than the text
/// has bytes: every event before the end takes at least one byte of the
/// text, so a reading that has not ended by then never will.
pub fn parse_opml(content: &str) -> (r: Result<Vec<OpmlFeed>, Error>)
    ensures
        r is Err <==> opml_outcome(xml_events(content@, content.len() as nat + 1)) is Err,
        r matches Ok(v) ==> opml_outcome(xml_events(content@, content.len() as nat + 1))
            == Ok::<Seq<(Seq<char>, Seq<char>)>, Seq<char>>(v@.map_values(|f: OpmlFeed| opml_view(f))),
        r matches Err(e) ==> e matches Error::FeedParse(m)
            && (opml_outcome(xml_events(content@, content.len() as nat + 1)) matches Err(x)
                && m@ == opml_error_message(x)),
{
    let ghost all = xml_events(content@, content.len() as nat + 1);
    let mut reader = xml_reader(content);
    set_trim_text(&mut reader, true);
    let mut events: Vec<XmlEvent> = Vec::new();
    let mut remaining = content.len();
    loop
        invariant_except_break
            reader.text() == content@,
            reader.trims(),
            reader.count() == events@.len(),
            events@.len() + remaining == content.len(),
            events@ == all.take(events@.len() as int),
            all == xml_events(content@, content.len() as nat + 1),
        ensures
            1 <= events@.len() <= all.len(),
            events@ == all.take(events@.len() as int),
            events@.len() == all.len() || ends_reading(events@.last()),
        decreases remaining,
    {
        let e = next_event(&mut reader);
        let last = match &e {
            XmlEvent::End | XmlEvent::Failure(_) => true,
            _ => false,
        };
        proof {
            assert(all[events@.len() as int] == e);
        }
        events.push(e);
        proof {
            assert(events@ =~= all.take(events@.len() as int));
        }
        if last || remaining == 0 {
            break;
        }
        remaining = remaining - 1;
    }
    proof {
        let n = events@.len() as int;
        if n == all.len() {
            assert(all.take(n) =~= all);
        } else {
            assert(events@.last() == all[n - 1]);
            lemma_outcome_stops(all, n);
        }
    }
    collect_opml_feeds(&events)
}

} // verus!
