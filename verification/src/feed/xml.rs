//! A `quick_xml` reader, held together with the text it reads, its text
//! trimming setting and the number of events read so far, so that each
//! event can be tied to the text. Only the functions of this module make or
//! advance such a reader.
use vstd::prelude::*;

use quick_xml::events::Event;
use quick_xml::Reader;

use crate::feed::opml::XmlEvent;

verus! {

#[verifier::external_type_specification]
#[verifier::external_body]
#[verifier::reject_recursive_types(R)]
pub struct ExXmlReader<R>(Reader<R>);

/// The event that a `quick_xml::Reader` made with `Reader::from_str` over
/// `content`, with text trimming set to `trim` before the first read,
/// reports on its read number `index` (counted from 0). Reading a text
/// depends on the text and the configuration alone.
pub uninterp spec fn xml_event_at(content: Seq<char>, trim: bool, index: nat) -> XmlEvent;

/// A `quick_xml` reader over a text, with what has been done with it so far:
/// the text, whether text is trimmed, and how many events have been read.
pub struct XmlReader<'a> {
    reader: Reader<&'a [u8]>,
    text: Ghost<Seq<char>>,
    trim: Ghost<bool>,
    read: Ghost<nat>,
}

impl<'a> XmlReader<'a> {
    pub closed spec fn text(&self) -> Seq<char> {
        self.text@
    }

    pub closed spec fn trims(&self) -> bool {
        self.trim@
    }

    pub closed spec fn count(&self) -> nat {
        self.read@
    }
}

/// Makes a `quick_xml::Reader` over the text (`Reader::from_str`), which
/// starts with the default configuration: no trimming.
#[verifier::external_body]
pub(crate) fn xml_reader<'a>(content: &'a str) -> (r: XmlReader<'a>)
    ensures
        r.text() == content@,
        !r.trims(),
        r.count() == 0,
{
    XmlReader { reader: Reader::from_str(content), text: Ghost(content@), trim: Ghost(false), read: Ghost(0) }
}

/// Sets whether the reader trims white space around text
/// (`Config::trim_text`), before anything has been read.
#[verifier::external_body]
pub(crate) fn set_trim_text(reader: &mut XmlReader, trim: bool)
    requires
        old(reader).count() == 0,
    ensures
        final(reader).text() == old(reader).text(),
        final(reader).trims() == trim,
        final(reader).count() == 0,
{
    reader.reader.config_mut().trim_text(trim);
    reader.trim = Ghost(trim);
}

/// Calls `Reader::read_event` and copies out what the event holds: for an
/// opening or empty tag its name and attributes. The event is the one that
/// reading the text with this configuration reports at this point.
#[verifier::external_body]
pub(crate) fn next_event(reader: &mut XmlReader) -> (e: XmlEvent)
    ensures
        e == xml_event_at(old(reader).text(), old(reader).trims(), old(reader).count()),
        final(reader).text() == old(reader).text(),
        final(reader).trims() == old(reader).trims(),
        final(reader).count() == old(reader).count() + 1,
{
    let e = match reader.reader.read_event() {
        Ok(Event::Start(e)) | Ok(Event::Empty(e)) => XmlEvent::Element {
            name: e.name().as_ref().to_string(),
            attributes: e.attributes().map(|a| a.ok().map(|a| (a.key.as_ref().to_string(), a.value.to_string()))).collect(),
        },
        Ok(Event::Eof) => XmlEvent::End,
        Err(e) => XmlEvent::Failure(e.to_string()),
        Ok(_) => XmlEvent::Other,
    };
    reader.read = Ghost(reader.read@ + 1);
    e
}

} // verus!
