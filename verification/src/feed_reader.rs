//! The XML reader that the feed parser asks for events and texts. A reader
//! made from a text answers each request as a function of that text and of
//! the requests made before; the reader and its record of requests are held
//! together, and only the functions of this module touch them.
use vstd::prelude::*;
use quick_xml::events::{BytesStart, Event};
use crate::feed::{FeedEvent, FeedTag};

verus! {

#[verifier::external_type_specification]
#[verifier::external_body]
#[verifier::reject_recursive_types(R)]
pub struct ExXmlReader<R>(quick_xml::Reader<R>);

/// A request made of the reader.
pub enum ReaderRequest {
    /// The next event (`Reader::read_event`).
    Event,
    /// The text up to the end tag with this name (`Reader::read_text`).
    Text(Seq<char>),
}

/// An event of the reader, its names and attributes as bytes.
pub enum RawEvent {
    Start(Seq<u8>, Seq<(Seq<u8>, Seq<u8>)>),
    Empty(Seq<u8>, Seq<(Seq<u8>, Seq<u8>)>),
    End(Seq<u8>),
    Eof,
    Other,
}

/// The attributes of a tag as byte strings.
pub open spec fn raw_attrs(a: Seq<(Vec<u8>, Vec<u8>)>) -> Seq<(Seq<u8>, Seq<u8>)> {
    a.map_values(|p: (Vec<u8>, Vec<u8>)| (p.0@, p.1@))
}

/// An event as bytes.
pub open spec fn raw_event(ev: FeedEvent) -> RawEvent {
    match ev {
        FeedEvent::Start(t) => RawEvent::Start(t.name@, raw_attrs(t.attributes@)),
        FeedEvent::Empty(t) => RawEvent::Empty(t.name@, raw_attrs(t.attributes@)),
        FeedEvent::End(n) => RawEvent::End(n@),
        FeedEvent::Eof => RawEvent::Eof,
        FeedEvent::Other => RawEvent::Other,
    }
}

/// What `Reader::read_event` gives on a reader made from `xml` by
/// `Reader::from_str` with `trim_text(true)`, after the requests `earlier`:
/// the event, or the text of the error. Start, empty and end tags are kept
/// with their names and their well-formed attributes; every other event is
/// `Other`.
pub uninterp spec fn xml_event(xml: Seq<char>, earlier: Seq<ReaderRequest>) -> Result<RawEvent, Seq<char>>;

/// What `Reader::read_text` with the end name `end` gives on a reader made
/// from `xml` by `Reader::from_str` with `trim_text(true)`, after the
/// requests `earlier`: the text, or the text of the error.
pub uninterp spec fn xml_text(xml: Seq<char>, earlier: Seq<ReaderRequest>, end: Seq<char>) -> Result<
    Seq<char>,
    Seq<char>,
>;

/// A reader over a feed, with the text it reads and the requests made of it
/// so far.
pub struct FeedReader<'a> {
    reader: quick_xml::Reader<&'a [u8]>,
    source: Ghost<Seq<char>>,
    requests: Ghost<Seq<ReaderRequest>>,
}

impl<'a> FeedReader<'a> {
    /// The text the reader reads.
    pub closed spec fn source(&self) -> Seq<char> {
        self.source@
    }

    /// The requests made of the reader so far, in order.
    pub closed spec fn requests(&self) -> Seq<ReaderRequest> {
        self.requests@
    }
}

/// A reader over a feed, skipping whitespace-only text
/// (`Reader::from_str` with `trim_text(true)`), with no request made yet.
#[verifier::external_body]
pub fn open_feed<'a>(xml: &'a str) -> (r: FeedReader<'a>)
    ensures
        r.source() == xml@,
        r.requests() == Seq::<ReaderRequest>::empty(),
{
    let mut reader = quick_xml::Reader::from_str(xml);
    reader.config_mut().trim_text(true);
    FeedReader { reader, source: Ghost(xml@), requests: Ghost(Seq::empty()) }
}

/// The next event of the reader (`Reader::read_event`), with tag names and
/// attributes copied out as bytes, or the text of the error. The contract
/// says that the result is the one `xml_event` names for the reader's text
/// and the requests made before, and records the request.
#[verifier::external_body]
pub fn next_feed_event(reader: &mut FeedReader) -> (r: Result<FeedEvent, String>)
    ensures
        final(reader).source() == old(reader).source(),
        final(reader).requests() == old(reader).requests().push(ReaderRequest::Event),
        match r {
            Ok(ev) => xml_event(old(reader).source(), old(reader).requests()) == Ok::<RawEvent, Seq<char>>(
                raw_event(ev),
            ),
            Err(m) => xml_event(old(reader).source(), old(reader).requests()) == Err::<RawEvent, Seq<char>>(
                m@,
            ),
        },
{
    let tag = |t: &BytesStart| FeedTag {
        name: t.name().as_ref().to_vec(),
        attributes: t.attributes().flatten().map(|a| (a.key.as_ref().to_vec(), a.value.to_vec())).collect(),
    };
    reader.requests = Ghost(reader.requests@.push(ReaderRequest::Event));
    let event = reader.reader.read_event().map_err(|error| error.to_string())?;
    Ok(match event {
        Event::Start(t) => FeedEvent::Start(tag(&t)),
        Event::Empty(t) => FeedEvent::Empty(tag(&t)),
        Event::End(t) => FeedEvent::End(t.name().as_ref().to_vec()),
        Event::Eof => FeedEvent::Eof,
        _ => FeedEvent::Other,
    })
}

/// The raw text up to the end tag with the given name
/// (`Reader::read_text`), or the text of the error. The contract says that
/// the result is the one `xml_text` names for the reader's text, the
/// requests made before and the name, and records the request.
#[verifier::external_body]
pub fn read_feed_text(reader: &mut FeedReader, end: &str) -> (r: Result<String, String>)
    ensures
        final(reader).source() == old(reader).source(),
        final(reader).requests() == old(reader).requests().push(ReaderRequest::Text(end@)),
        match r {
            Ok(t) => xml_text(old(reader).source(), old(reader).requests(), end@) == Ok::<
                Seq<char>,
                Seq<char>,
            >(t@),
            Err(m) => xml_text(old(reader).source(), old(reader).requests(), end@) == Err::<
                Seq<char>,
                Seq<char>,
            >(m@),
        },
{
    reader.requests = Ghost(reader.requests@.push(ReaderRequest::Text(end@)));
    reader.reader.read_text(quick_xml::name::QName(end.as_bytes())).map(|t| t.into_owned()).map_err(|e| e.to_string())
}

} // verus!
