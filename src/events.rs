//! The XML document as a sequence of parse events.
use vstd::prelude::*;
use quick_xml::events::Event;
use quick_xml::Reader;

verus! {

/// One parse event of an XML document, as the scanner sees it.
pub enum XmlEvent {
    /// An opening tag, with its qualified name.
    Start(String),
    /// A closing tag, with its qualified name.
    End(String),
    /// A text node, unescaped.
    Text(String),
    /// A text node whose escapes could not be resolved.
    BadText,
    /// Any other event: an empty element, a comment, a declaration, ...
    Other,
    /// The reader met a structural error; nothing follows but the end.
    Fault,
    /// The end of the document.
    Eof,
}

/// The events that quick_xml reads from a document, text trimmed, up to and
/// including the end of the document.
pub uninterp spec fn events_of(doc: Seq<char>) -> Seq<XmlEvent>;

/// Relies on quick_xml's `Reader::from_str`, `trim_text(true)` and `read_event`:
/// the events of the document, in order, read until the reader reports the end
/// (after an error it reports only the end).
#[verifier::external_body]
pub(crate) fn xml_event_stream(doc: &str) -> (r: Vec<XmlEvent>)
    ensures
        r@ == events_of(doc@),
{
    let mut reader = Reader::from_str(doc);
    reader.trim_text(true);
    let mut out: Vec<XmlEvent> = Vec::new();
    while !matches!(out.last(), Some(XmlEvent::Eof)) {
        out.push(match reader.read_event(&mut Vec::new()) {
            Ok(Event::Start(e)) => XmlEvent::Start(String::from_utf8_lossy(e.name()).into_owned()),
            Ok(Event::End(e)) => XmlEvent::End(String::from_utf8_lossy(e.name()).into_owned()),
            Ok(Event::Text(e)) => e.unescape_and_decode(&reader).map_or(XmlEvent::BadText, XmlEvent::Text),
            Ok(Event::Eof) => XmlEvent::Eof,
            Ok(_) => XmlEvent::Other,
            Err(_) => XmlEvent::Fault,
        });
    }
    out
}

/// What `str::to_uppercase` makes of a text.
pub uninterp spec fn upper_of(s: Seq<char>) -> Seq<char>;

/// Relies on `str::to_uppercase`: the upper-case form of a text, which depends on
/// its characters alone.
#[verifier::external_body]
pub(crate) fn uppercase(s: &str) -> (r: String)
    ensures
        r@ == upper_of(s@),
{
    s.to_uppercase()
}

} // verus!
