//! XML tokenization of inbound messages, by `quick_xml`.
use quick_xml::events::Event::{End, Eof, Start, Text};
use vstd::prelude::*;
use vstd::string::*;

verus! {

/// The `quick_xml` pull reader; opaque here, it is only carried from call to call.
#[verifier::external_type_specification]
#[verifier::external_body]
#[verifier::reject_recursive_types(R)]
pub struct ExXmlReader<R>(quick_xml::Reader<R>);

/// One event of an XML document, as the pain.001 parser reads it.
#[derive(Clone, Debug)]
pub enum XmlEvent {
    /// Start tag, by its qualified name and its whole content (the name followed by the
    /// attributes, as written).
    Start(String, String),
    /// End tag, by its qualified name.
    End(String),
    /// Character data between tags, unescaped.
    Text(String),
    /// End of the document.
    Eof,
    /// Any other event (empty element, CDATA, comment, declaration, ...).
    Other,
}

/// An XML event as character sequences.
pub enum XmlToken {
    Start(Seq<char>, Seq<char>),
    End(Seq<char>),
    Text(Seq<char>),
    Eof,
    Other,
}

impl View for XmlEvent {
    type V = XmlToken;

    open spec fn view(&self) -> XmlToken {
        match self {
            XmlEvent::Start(name, tag) => XmlToken::Start(name@, tag@),
            XmlEvent::End(name) => XmlToken::End(name@),
            XmlEvent::Text(text) => XmlToken::Text(text@),
            XmlEvent::Eof => XmlToken::Eof,
            XmlEvent::Other => XmlToken::Other,
        }
    }
}

/// Why the XML reader stopped.
#[derive(Clone, Debug)]
pub enum XmlReadError {
    /// The document is not well-formed XML.
    Syntax,
    /// Character data holds an escape sequence that cannot be resolved.
    Escape,
}

/// The event that `quick_xml`'s reader over `xml` returns on its call number `index`
/// (counting from 0), with the `trim_text` option set as `trimmed` says; `None` where that
/// call fails. A start tag is given by its name and its whole content (name and
/// attributes), an end tag by its name, both read as UTF-8 (lossily); character data is
/// unescaped.
pub uninterp spec fn xml_event_at(xml: Seq<char>, trimmed: bool, index: nat) -> Option<XmlToken>;

/// A read that returned an event other than the end of the document.
pub open spec fn is_content(read: Option<XmlToken>) -> bool {
    read matches Some(t) && !(t is Eof)
}

/// The reader's first `n` calls on `xml` return events other than the end, without error.
pub open spec fn reads_content(xml: Seq<char>, trimmed: bool, n: nat) -> bool {
    forall|k: nat| k < n ==> is_content(#[trigger] xml_event_at(xml, trimmed, k))
}

/// How `quick_xml` reads one attribute of a start tag.
#[derive(Clone, Debug)]
pub enum AttributeRead {
    /// The attribute's value, as written between its quotes.
    Value(String),
    /// The tag has no such attribute.
    Absent,
    /// The tag's attributes cannot be read up to that attribute.
    Unreadable,
}

/// An attribute read, with the value as a character sequence.
pub enum AttributeToken {
    Value(Seq<char>),
    Absent,
    Unreadable,
}

impl View for AttributeRead {
    type V = AttributeToken;

    open spec fn view(&self) -> AttributeToken {
        match self {
            AttributeRead::Value(v) => AttributeToken::Value(v@),
            AttributeRead::Absent => AttributeToken::Absent,
            AttributeRead::Unreadable => AttributeToken::Unreadable,
        }
    }
}

/// What `quick_xml` reads for the attribute named `attribute` of a start tag whose content
/// (name and attributes) is `tag`, its name taking the first `name_len` bytes: the value
/// (read as UTF-8, lossily), its absence, or an attribute syntax error before it.
pub uninterp spec fn xml_attribute(tag: Seq<char>, name_len: nat, attribute: Seq<char>) -> AttributeToken;

/// Reads the attribute `attribute` of a start tag, by `BytesStart::from_content(tag,
/// name_len)` and `try_get_attribute`.
///
/// Claimed: the outcome is the one [`xml_attribute`] names, one for one: a value, the
/// attribute's absence, or the error `try_get_attribute` reports.
#[verifier::external_body]
pub(crate) fn start_attribute(tag: &str, name_len: usize, attribute: &str) -> (r: AttributeRead)
    requires
        name_len <= tag.spec_bytes().len(),
    ensures
        r@ == xml_attribute(tag@, name_len as nat, attribute@),
{
    match quick_xml::events::BytesStart::from_content(tag, name_len).try_get_attribute(attribute) {
        Ok(Some(a)) => AttributeRead::Value(String::from_utf8_lossy(&a.value).into_owned()),
        Ok(None) => AttributeRead::Absent,
        Err(_) => AttributeRead::Unreadable,
    }
}

/// A `quick_xml` reader over a document, with the document, the `trim_text` option and the
/// number of events read so far kept beside it.
pub struct XmlCursor<'a> {
    reader: quick_xml::Reader<&'a [u8]>,
    source: Ghost<Seq<char>>,
    trimmed: Ghost<bool>,
    consumed: Ghost<nat>,
}

impl<'a> XmlCursor<'a> {
    /// The document being read.
    pub closed spec fn source(&self) -> Seq<char> {
        self.source@
    }

    /// Whether the reader trims whitespace around character data.
    pub closed spec fn trimmed(&self) -> bool {
        self.trimmed@
    }

    /// How many events have been read.
    pub closed spec fn consumed(&self) -> nat {
        self.consumed@
    }
}

/// A reader over `xml`, by `quick_xml::Reader::from_str`, before its first event and with
/// the default configuration (`trim_text` off).
#[verifier::external_body]
pub(crate) fn xml_reader<'a>(xml: &'a str) -> (r: XmlCursor<'a>)
    ensures
        r.source() == xml@,
        !r.trimmed(),
        r.consumed() == 0,
{
    XmlCursor {
        reader: quick_xml::Reader::from_str(xml),
        source: Ghost(xml@),
        trimmed: Ghost(false),
        consumed: Ghost(0),
    }
}

/// Sets the reader's `trim_text` option (by `config_mut().trim_text(true)`) before its first
/// event, so that whitespace around character data is dropped and whitespace-only text
/// yields no event.
#[verifier::external_body]
pub(crate) fn enable_trim_text(cursor: &mut XmlCursor)
    requires
        old(cursor).consumed() == 0,
    ensures
        final(cursor).source() == old(cursor).source(),
        final(cursor).trimmed(),
        final(cursor).consumed() == 0,
{
    cursor.reader.config_mut().trim_text(true);
}

/// The next event of the document, by `quick_xml::Reader::read_event`: tag names and a
/// start tag's content read as UTF-8 (lossily), character data unescaped by
/// `BytesText::unescape`.
///
/// Claimed: the result is the event [`xml_event_at`] names for the document, the option
/// and the number of events read before, or an error where that names none. Every event
/// but the end consumes at least one character of the document (markup up to its `>`, or
/// non-empty text up to the next `<`; empty elements are not expanded), so a run of clean
/// events other than the end is no longer than the document.
#[verifier::external_body]
pub(crate) fn read_xml_event(cursor: &mut XmlCursor) -> (r: Result<XmlEvent, XmlReadError>)
    ensures
        final(cursor).source() == old(cursor).source(),
        final(cursor).trimmed() == old(cursor).trimmed(),
        final(cursor).consumed() == old(cursor).consumed() + 1,
        match xml_event_at(old(cursor).source(), old(cursor).trimmed(), old(cursor).consumed()) {
            Some(t) => r is Ok && r->Ok_0@ == t,
            None => r is Err,
        },
        reads_content(old(cursor).source(), old(cursor).trimmed(), old(cursor).consumed() + 1)
            ==> old(cursor).consumed() < old(cursor).source().len(),
{
    match cursor.reader.read_event() {
        Ok(Start(e)) => Ok(XmlEvent::Start(
            String::from_utf8_lossy(e.name().0).into_owned(),
            String::from_utf8_lossy(&e).into_owned(),
        )),
        Ok(End(e)) => Ok(XmlEvent::End(String::from_utf8_lossy(e.name().0).into_owned())),
        Ok(Text(e)) => match e.unescape() {
            Ok(text) => Ok(XmlEvent::Text(text.into_owned())),
            Err(_) => Err(XmlReadError::Escape),
        },
        Ok(Eof) => Ok(XmlEvent::Eof),
        Ok(_) => Ok(XmlEvent::Other),
        Err(_) => Err(XmlReadError::Syntax),
    }
}

} // verus!
