//! Reading the entries of an arXiv Atom feed: a parser that is fed the
//! events of an XML reader and collects entries, authors and links.
use vstd::prelude::*;
use crate::feed_reader::{
    next_feed_event, open_feed, raw_attrs, raw_event, read_feed_text, xml_event, xml_text, RawEvent,
    ReaderRequest,
};
use crate::arxiv::{
    ArxivAuthor, ArxivEntry, ArxivLink, SearchPaperItem, SearchPaperView, authors_view, links_view,
    extract_arxiv_id_spec, map_entry_spec, search_params_spec, search_results,
};
use crate::model_api::decimal;
use crate::error::{AppError, ErrorKind, upstream};
use crate::text::{owned, str_eq, trim};
use crate::workflow::opt_view;

verus! {

/// A start or empty tag: its name and its attributes, as the feed spells
/// them.
pub struct FeedTag {
    pub name: Vec<u8>,
    pub attributes: Vec<(Vec<u8>, Vec<u8>)>,
}

/// An event of the XML reader, as the feed parser reads it.
pub enum FeedEvent {
    Start(FeedTag),
    Empty(FeedTag),
    End(Vec<u8>),
    Eof,
    Other,
}

/// Bytes read as UTF-8, each invalid sequence replaced by U+FFFD
/// (`String::from_utf8_lossy`).
pub uninterp spec fn utf8_lossy(bytes: Seq<u8>) -> Seq<char>;

/// `String::from_utf8_lossy`, as an owned string. The contract names the
/// result (`utf8_lossy`) and does not restate UTF-8 decoding.
#[verifier::external_body]
fn text_of(bytes: &Vec<u8>) -> (r: String)
    ensures
        r@ == utf8_lossy(bytes@),
{
    String::from_utf8_lossy(bytes).into_owned()
}

/// The field that a requested element text goes to.
#[derive(Clone, Copy, PartialEq, Eq, Structural)]
pub enum TextSlot {
    Id,
    Title,
    Summary,
    Published,
    AuthorName,
}

/// Where the parser is in the feed.
#[derive(Clone, Copy, PartialEq, Eq, Structural)]
pub enum FeedMode {
    /// Between entries.
    Outside,
    /// Inside an entry.
    InEntry,
    /// Inside a link element of an entry, this many link elements deep below
    /// it.
    InLink(usize),
}

/// What the parser needs next.
pub enum FeedNeed {
    /// The next event.
    Event,
    /// The text of the element just opened, up to its end tag with this name.
    Text(String, TextSlot),
    /// Nothing: the feed ended.
    Finished,
    /// Nothing: the feed is broken.
    Failed(AppError),
}

/// The parser's collected entries, the entry being read, and the author
/// being read.
pub struct FeedParser {
    pub entries: Vec<ArxivEntry>,
    pub entry: ArxivEntry,
    pub author: Option<String>,
    pub mode: FeedMode,
}

/// The fields of an entry.
pub struct EntryFields {
    pub id: Seq<char>,
    pub title: Seq<char>,
    pub summary: Seq<char>,
    pub published: Seq<char>,
    pub authors: Seq<Seq<char>>,
    pub links: Seq<(Seq<char>, Option<Seq<char>>)>,
}

pub open spec fn fields_of(e: ArxivEntry) -> EntryFields {
    EntryFields {
        id: e.id@,
        title: e.title@,
        summary: e.summary@,
        published: e.published@,
        authors: authors_view(e.authors@),
        links: links_view(e.links@),
    }
}

/// The state of the parser.
pub struct FeedState {
    pub entries: Seq<EntryFields>,
    pub entry: EntryFields,
    pub author: Option<Seq<char>>,
    pub mode: FeedMode,
}

impl View for FeedParser {
    type V = FeedState;

    open spec fn view(&self) -> FeedState {
        FeedState {
            entries: self.entries@.map_values(|e: ArxivEntry| fields_of(e)),
            entry: fields_of(self.entry),
            author: opt_view(self.author),
            mode: self.mode,
        }
    }
}

/// An event, as text.
pub enum EventView {
    Start(Seq<char>, Seq<(Seq<char>, Seq<char>)>),
    Empty(Seq<char>, Seq<(Seq<char>, Seq<char>)>),
    End(Seq<char>),
    Eof,
    Other,
}

pub open spec fn attrs_view(a: Seq<(Vec<u8>, Vec<u8>)>) -> Seq<(Seq<char>, Seq<char>)> {
    a.map_values(|p: (Vec<u8>, Vec<u8>)| (utf8_lossy(p.0@), utf8_lossy(p.1@)))
}

pub open spec fn event_view(ev: FeedEvent) -> EventView {
    match ev {
        FeedEvent::Start(t) => EventView::Start(utf8_lossy(t.name@), attrs_view(t.attributes@)),
        FeedEvent::Empty(t) => EventView::Empty(utf8_lossy(t.name@), attrs_view(t.attributes@)),
        FeedEvent::End(n) => EventView::End(utf8_lossy(n@)),
        FeedEvent::Eof => EventView::Eof,
        FeedEvent::Other => EventView::Other,
    }
}

/// What the parser needs next, as text.
pub enum NeedView {
    Event,
    Text(Seq<char>, TextSlot),
    Finished,
    Failed(Seq<char>),
}

pub open spec fn need_view(n: FeedNeed) -> NeedView {
    match n {
        FeedNeed::Event => NeedView::Event,
        FeedNeed::Text(name, slot) => NeedView::Text(name@, slot),
        FeedNeed::Finished => NeedView::Finished,
        FeedNeed::Failed(e) => NeedView::Failed(e.msg()),
    }
}

/// The value of the last attribute with the given key.
pub open spec fn last_attr(attrs: Seq<(Seq<char>, Seq<char>)>, key: Seq<char>) -> Option<Seq<char>>
    decreases attrs.len(),
{
    if attrs.len() == 0 {
        None
    } else if attrs.last().0 == key {
        Some(attrs.last().1)
    } else {
        last_attr(attrs.drop_last(), key)
    }
}

/// The link a tag describes: its `href`, with its `title` if it has one; a
/// tag without `href` describes none.
pub open spec fn link_of(attrs: Seq<(Seq<char>, Seq<char>)>) -> Option<(Seq<char>, Option<Seq<char>>)> {
    match last_attr(attrs, "href"@) {
        Some(h) => Some((h, last_attr(attrs, "title"@))),
        None => None,
    }
}

pub open spec fn empty_fields() -> EntryFields {
    EntryFields {
        id: Seq::empty(),
        title: Seq::empty(),
        summary: Seq::empty(),
        published: Seq::empty(),
        authors: Seq::empty(),
        links: Seq::empty(),
    }
}

pub open spec fn with_link(s: FeedState, attrs: Seq<(Seq<char>, Seq<char>)>) -> FeedState {
    match link_of(attrs) {
        Some(l) => FeedState { entry: EntryFields { links: s.entry.links.push(l), ..s.entry }, ..s },
        None => s,
    }
}

/// The slot an element's text goes to, for the elements whose text is read.
pub open spec fn text_slot(name: Seq<char>) -> Option<TextSlot> {
    if name == "id"@ {
        Some(TextSlot::Id)
    } else if name == "title"@ {
        Some(TextSlot::Title)
    } else if name == "summary"@ {
        Some(TextSlot::Summary)
    } else if name == "published"@ {
        Some(TextSlot::Published)
    } else if name == "name"@ {
        Some(TextSlot::AuthorName)
    } else {
        None
    }
}

/// One step of the parser on an event.
pub open spec fn event_step(s: FeedState, ev: EventView) -> (FeedState, NeedView) {
    match s.mode {
        FeedMode::Outside => match ev {
            EventView::Start(n, _) => if n == "entry"@ {
                (FeedState { entry: empty_fields(), author: None, mode: FeedMode::InEntry, ..s }, NeedView::Event)
            } else {
                (s, NeedView::Event)
            },
            EventView::Eof => (s, NeedView::Finished),
            _ => (s, NeedView::Event),
        },
        FeedMode::InEntry => match ev {
            EventView::Start(n, attrs) => match text_slot(n) {
                Some(slot) => (s, NeedView::Text(n, slot)),
                None => if n == "author"@ {
                    (FeedState { author: Some(Seq::empty()), ..s }, NeedView::Event)
                } else if n == "link"@ {
                    (FeedState { mode: FeedMode::InLink(0), ..with_link(s, attrs) }, NeedView::Event)
                } else {
                    (s, NeedView::Event)
                },
            },
            EventView::Empty(n, attrs) => if n == "link"@ {
                (with_link(s, attrs), NeedView::Event)
            } else {
                (s, NeedView::Event)
            },
            EventView::End(n) => if n == "author"@ {
                let authors = match s.author {
                    Some(a) => if a.len() > 0 {
                        s.entry.authors.push(a)
                    } else {
                        s.entry.authors
                    },
                    None => s.entry.authors,
                };
                (
                    FeedState { entry: EntryFields { authors, ..s.entry }, author: None, ..s },
                    NeedView::Event,
                )
            } else if n == "entry"@ {
                (
                    FeedState {
                        entries: s.entries.push(s.entry),
                        entry: empty_fields(),
                        mode: FeedMode::Outside,
                        ..s
                    },
                    NeedView::Event,
                )
            } else {
                (s, NeedView::Event)
            },
            EventView::Eof => (s, NeedView::Failed("unexpected end of arXiv feed"@)),
            EventView::Other => (s, NeedView::Event),
        },
        FeedMode::InLink(d) => match ev {
            EventView::Start(n, _) => if n == "link"@ {
                (FeedState { mode: FeedMode::InLink((d + 1) as usize), ..s }, NeedView::Event)
            } else {
                (s, NeedView::Event)
            },
            EventView::End(n) => if n == "link"@ {
                if d == 0 {
                    (FeedState { mode: FeedMode::InEntry, ..s }, NeedView::Event)
                } else {
                    (FeedState { mode: FeedMode::InLink((d - 1) as usize), ..s }, NeedView::Event)
                }
            } else {
                (s, NeedView::Event)
            },
            EventView::Eof => (s, NeedView::Failed("unexpected end of arXiv feed"@)),
            _ => (s, NeedView::Event),
        },
    }
}

/// Stores the text of an element in its slot; an author name outside an
/// author is dropped.
pub open spec fn text_step(s: FeedState, slot: TextSlot, text: Seq<char>) -> FeedState {
    match slot {
        TextSlot::Id => FeedState { entry: EntryFields { id: text, ..s.entry }, ..s },
        TextSlot::Title => FeedState { entry: EntryFields { title: text, ..s.entry }, ..s },
        TextSlot::Summary => FeedState { entry: EntryFields { summary: text, ..s.entry }, ..s },
        TextSlot::Published => FeedState { entry: EntryFields { published: text, ..s.entry }, ..s },
        TextSlot::AuthorName => match s.author {
            Some(_) => FeedState { author: Some(text), ..s },
            None => s,
        },
    }
}

/// The nesting depth below a link, if inside one.
pub open spec fn link_depth(m: FeedMode) -> nat {
    match m {
        FeedMode::InLink(d) => d as nat,
        _ => 0,
    }
}

fn empty_entry() -> (e: ArxivEntry)
    ensures
        fields_of(e) == empty_fields(),
{
    let e = ArxivEntry {
        id: String::new(),
        title: String::new(),
        summary: String::new(),
        published: String::new(),
        authors: Vec::new(),
        links: Vec::new(),
    };
    assert(fields_of(e) =~= empty_fields()) by {
        assert(authors_view(e.authors@) =~= Seq::<Seq<char>>::empty());
        assert(links_view(e.links@) =~= Seq::<(Seq<char>, Option<Seq<char>>)>::empty());
    }
    e
}

/// Reads the link a tag describes (`parse_link`).
pub fn parse_link(tag: &FeedTag) -> (r: Option<ArxivLink>)
    ensures
        match r {
            Some(l) => link_of(attrs_view(tag.attributes@)) == Some((l.href@, opt_view(l.title))),
            None => link_of(attrs_view(tag.attributes@)) is None,
        },
{
    let mut href: Option<String> = None;
    let mut title: Option<String> = None;
    let mut i: usize = 0;
    let ghost all = attrs_view(tag.attributes@);
    assert(all.take(0) =~= Seq::<(Seq<char>, Seq<char>)>::empty());
    while i < tag.attributes.len()
        invariant
            i <= tag.attributes@.len(),
            all == attrs_view(tag.attributes@),
            opt_view(href) == last_attr(all.take(i as int), "href"@),
            opt_view(title) == last_attr(all.take(i as int), "title"@),
        decreases tag.attributes@.len() - i,
    {
        proof {
            reveal_strlit("href");
            reveal_strlit("title");
            assert("href"@ != "title"@) by {
                assert("href"@.len() != "title"@.len());
            }
            assert(all.take(i + 1).drop_last() =~= all.take(i as int));
            assert(all.take(i + 1).last() == (
                utf8_lossy(tag.attributes@[i as int].0@),
                utf8_lossy(tag.attributes@[i as int].1@),
            ));
        }
        let (key, value) = &tag.attributes[i];
        let key = text_of(key);
        if str_eq(key.as_str(), "href") {
            href = Some(text_of(value));
        } else if str_eq(key.as_str(), "title") {
            title = Some(text_of(value));
        }
        i = i + 1;
    }
    assert(all.take(tag.attributes@.len() as int) =~= all);
    match href {
        Some(h) => Some(ArxivLink { href: h, title }),
        None => None,
    }
}

fn slot_of(name: &str) -> (r: Option<TextSlot>)
    ensures
        r == text_slot(name@),
{
    if str_eq(name, "id") {
        Some(TextSlot::Id)
    } else if str_eq(name, "title") {
        Some(TextSlot::Title)
    } else if str_eq(name, "summary") {
        Some(TextSlot::Summary)
    } else if str_eq(name, "published") {
        Some(TextSlot::Published)
    } else if str_eq(name, "name") {
        Some(TextSlot::AuthorName)
    } else {
        None
    }
}

impl FeedParser {
    /// A parser between entries, with nothing collected.
    pub fn new() -> (p: FeedParser)
        ensures
            p@.entries.len() == 0,
            p@.entry == empty_fields(),
            p@.mode == FeedMode::Outside,
            p@.author is None,
    {
        let p = FeedParser { entries: Vec::new(), entry: empty_entry(), author: None, mode: FeedMode::Outside };
        assert(p@.entries =~= Seq::<EntryFields>::empty());
        p
    }

    fn add_link(&mut self, tag: &FeedTag)
        ensures
            final(self)@ == with_link(old(self)@, attrs_view(tag.attributes@)),
    {
        match parse_link(tag) {
            Some(link) => {
                let ghost before = self.entry.links@;
                self.entry.links.push(link);
                proof {
                    assert(links_view(self.entry.links@) =~= links_view(before).push(
                        (link.href@, opt_view(link.title)),
                    ));
                }
            },
            None => {},
        }
    }

    /// Takes one event of the reader.
    pub fn feed_event(&mut self, ev: FeedEvent) -> (need: FeedNeed)
        requires
            link_depth(old(self).mode) < usize::MAX,
        ensures
            (final(self)@, need_view(need)) == event_step(old(self)@, event_view(ev)),
            need matches FeedNeed::Failed(e) ==> e.kind() == ErrorKind::UpstreamUnavailable,
    {
        let ghost s0 = self@;
        let ghost evv = event_view(ev);
        match self.mode {
            FeedMode::Outside => match ev {
                FeedEvent::Start(tag) => {
                    if str_eq(text_of(&tag.name).as_str(), "entry") {
                        self.entry = empty_entry();
                        self.author = None;
                        self.mode = FeedMode::InEntry;
                    }
                    FeedNeed::Event
                },
                FeedEvent::Eof => FeedNeed::Finished,
                _ => FeedNeed::Event,
            },
            FeedMode::InEntry => match ev {
                FeedEvent::Start(tag) => {
                    let name = text_of(&tag.name);
                    match slot_of(name.as_str()) {
                        Some(slot) => FeedNeed::Text(name, slot),
                        None => {
                            if str_eq(name.as_str(), "author") {
                                self.author = Some(String::new());
                            } else if str_eq(name.as_str(), "link") {
                                self.add_link(&tag);
                                self.mode = FeedMode::InLink(0);
                            }
                            FeedNeed::Event
                        },
                    }
                },
                FeedEvent::Empty(tag) => {
                    if str_eq(text_of(&tag.name).as_str(), "link") {
                        self.add_link(&tag);
                    }
                    FeedNeed::Event
                },
                FeedEvent::End(raw) => {
                    let name = text_of(&raw);
                    if str_eq(name.as_str(), "author") {
                        let taken = self.author.take();
                        match taken {
                            Some(a) => {
                                if a.unicode_len() > 0 {
                                    let ghost before = self.entry.authors@;
                                    let ghost an = a@;
                                    self.entry.authors.push(ArxivAuthor { name: a });
                                    proof {
                                        assert(authors_view(self.entry.authors@) =~= authors_view(
                                            before,
                                        ).push(an));
                                    }
                                }
                            },
                            None => {},
                        }
                    } else if str_eq(name.as_str(), "entry") {
                        let mut done = empty_entry();
                        std::mem::swap(&mut done, &mut self.entry);
                        let ghost before = self.entries@;
                        let ghost df = fields_of(done);
                        self.entries.push(done);
                        proof {
                            assert(self.entries@.map_values(|e: ArxivEntry| fields_of(e)) =~= before.map_values(
                                |e: ArxivEntry| fields_of(e),
                            ).push(df));
                        }
                        self.mode = FeedMode::Outside;
                    }
                    FeedNeed::Event
                },
                FeedEvent::Eof => FeedNeed::Failed(upstream("unexpected end of arXiv feed")),
                FeedEvent::Other => FeedNeed::Event,
            },
            FeedMode::InLink(d) => match ev {
                FeedEvent::Start(tag) => {
                    if str_eq(text_of(&tag.name).as_str(), "link") {
                        self.mode = FeedMode::InLink(d + 1);
                    }
                    FeedNeed::Event
                },
                FeedEvent::End(raw) => {
                    if str_eq(text_of(&raw).as_str(), "link") {
                        if d == 0 {
                            self.mode = FeedMode::InEntry;
                        } else {
                            self.mode = FeedMode::InLink(d - 1);
                        }
                    }
                    FeedNeed::Event
                },
                FeedEvent::Eof => FeedNeed::Failed(upstream("unexpected end of arXiv feed")),
                _ => FeedNeed::Event,
            },
        }
    }

    /// Takes the text of the element that the parser asked for.
    pub fn feed_text(&mut self, slot: TextSlot, text: String)
        ensures
            final(self)@ == text_step(old(self)@, slot, text@),
    {
        match slot {
            TextSlot::Id => self.entry.id = text,
            TextSlot::Title => self.entry.title = text,
            TextSlot::Summary => self.entry.summary = text,
            TextSlot::Published => self.entry.published = text,
            TextSlot::AuthorName => {
                if self.author.is_some() {
                    self.author = Some(text);
                }
            },
        }
    }
}

/// The text of an event read from its bytes.
pub open spec fn raw_event_view(raw: RawEvent) -> EventView {
    let attrs = |a: Seq<(Seq<u8>, Seq<u8>)>|
        a.map_values(|p: (Seq<u8>, Seq<u8>)| (utf8_lossy(p.0), utf8_lossy(p.1)));
    match raw {
        RawEvent::Start(n, a) => EventView::Start(utf8_lossy(n), attrs(a)),
        RawEvent::Empty(n, a) => EventView::Empty(utf8_lossy(n), attrs(a)),
        RawEvent::End(n) => EventView::End(utf8_lossy(n)),
        RawEvent::Eof => EventView::Eof,
        RawEvent::Other => EventView::Other,
    }
}

proof fn lemma_event_view_of_raw(ev: FeedEvent)
    ensures
        event_view(ev) == raw_event_view(raw_event(ev)),
{
    match ev {
        FeedEvent::Start(t) => {
            assert(attrs_view(t.attributes@) =~= raw_attrs(t.attributes@).map_values(
                |p: (Seq<u8>, Seq<u8>)| (utf8_lossy(p.0), utf8_lossy(p.1)),
            ));
        },
        FeedEvent::Empty(t) => {
            assert(attrs_view(t.attributes@) =~= raw_attrs(t.attributes@).map_values(
                |p: (Seq<u8>, Seq<u8>)| (utf8_lossy(p.0), utf8_lossy(p.1)),
            ));
        },
        _ => {},
    }
}

/// The parser before the first event.
pub open spec fn initial_feed_state() -> FeedState {
    FeedState { entries: Seq::empty(), entry: empty_fields(), author: None, mode: FeedMode::Outside }
}

/// How many events a feed of `n` bytes may take before it is treated as
/// broken: two more than it has bytes.
pub open spec fn step_limit(n: nat) -> nat {
    if n < usize::MAX - 2 {
        n + 2
    } else {
        (usize::MAX - 1) as nat
    }
}

/// What reading the feed `xml` comes to from parser state `s`, once the
/// requests `earlier` have been made of the reader and `fuel` more events
/// are allowed: the parser asks for the next event (and, where it needs
/// one, for the text of the element just opened) and takes the reader's
/// answers, until the feed ends (the entries collected) or an error (its
/// message).
pub open spec fn feed_run(xml: Seq<char>, s: FeedState, earlier: Seq<ReaderRequest>, fuel: nat) -> Result<
    Seq<EntryFields>,
    Seq<char>,
>
    decreases fuel,
{
    if fuel == 0 {
        Err("unexpected end of arXiv feed"@)
    } else {
        match xml_event(xml, earlier) {
            Err(m) => Err(m),
            Ok(raw) => {
                let (s2, need) = event_step(s, raw_event_view(raw));
                let asked = earlier.push(ReaderRequest::Event);
                match need {
                    NeedView::Event => feed_run(xml, s2, asked, (fuel - 1) as nat),
                    NeedView::Finished => Ok(s2.entries),
                    NeedView::Failed(m) => Err(m),
                    NeedView::Text(name, slot) => match xml_text(xml, asked, name) {
                        Err(m) => Err(m),
                        Ok(t) => feed_run(
                            xml,
                            text_step(s2, slot, t),
                            asked.push(ReaderRequest::Text(name)),
                            (fuel - 1) as nat,
                        ),
                    },
                }
            },
        }
    }
}

/// The entries read, or the message of the error.
pub open spec fn entries_result(r: Result<Vec<ArxivEntry>, AppError>) -> Result<
    Seq<EntryFields>,
    Seq<char>,
> {
    match r {
        Ok(v) => Ok(v@.map_values(|e: ArxivEntry| fields_of(e))),
        Err(e) => Err(e.msg()),
    }
}

/// Reads the entries of a feed (`parse_arxiv_entries`): the result is what
/// `feed_run` gives on the feed's text from the parser's first state, with
/// at most `step_limit` events (a reader that yields more events than the
/// feed has bytes is treated as a broken feed); every error is reported as
/// an unavailable upstream.
pub fn parse_arxiv_entries(xml: &str) -> (r: Result<Vec<ArxivEntry>, AppError>)
    ensures
        r matches Err(e) ==> e.kind() == ErrorKind::UpstreamUnavailable,
        entries_result(r) == feed_run(
            xml@,
            initial_feed_state(),
            Seq::<ReaderRequest>::empty(),
            step_limit(xml.len() as nat),
        ),
{
    let mut reader = open_feed(xml);
    let mut parser = FeedParser::new();
    assert(parser@.entries =~= initial_feed_state().entries);
    assert(parser@ == initial_feed_state());
    let n = xml.len();
    let limit: usize = if n < usize::MAX - 2 {
        n + 2
    } else {
        usize::MAX - 1
    };
    let ghost whole = feed_run(xml@, initial_feed_state(), Seq::<ReaderRequest>::empty(), limit as nat);
    let mut steps: usize = 0;
    while steps < limit
        invariant
            limit < usize::MAX,
            limit == step_limit(xml.len() as nat),
            steps <= limit,
            link_depth(parser@.mode) <= steps,
            reader.source() == xml@,
            whole == feed_run(xml@, initial_feed_state(), Seq::<ReaderRequest>::empty(), limit as nat),
            whole == feed_run(xml@, parser@, reader.requests(), (limit - steps) as nat),
        decreases limit - steps,
    {
        let ghost s0 = parser@;
        let ghost asked0 = reader.requests();
        let ev = match next_feed_event(&mut reader) {
            Ok(ev) => ev,
            Err(message) => {
                let e = AppError::UpstreamUnavailable(message);
                return Err(e);
            },
        };
        proof {
            lemma_event_view_of_raw(ev);
        }
        let need = parser.feed_event(ev);
        steps = steps + 1;
        match need {
            FeedNeed::Event => {},
            FeedNeed::Text(name, slot) => {
                let text = match read_feed_text(&mut reader, name.as_str()) {
                    Ok(t) => t,
                    Err(message) => {
                        let e = AppError::UpstreamUnavailable(message);
                        return Err(e);
                    },
                };
                parser.feed_text(slot, text);
            },
            FeedNeed::Finished => {
                return Ok(parser.entries);
            },
            FeedNeed::Failed(e) => {
                return Err(e);
            },
        }
    }
    Err(upstream("unexpected end of arXiv feed"))
}

/// The search hit an entry's fields stand for.
pub open spec fn fields_hit(f: EntryFields) -> SearchPaperView {
    map_entry_spec(f.id, f.title, f.summary, f.published, f.authors, f.links)
}

/// What a search makes of the feed that arXiv replied with
/// (`ArxivProvider::search` once the reply body is in): the feed's entries
/// as read by `parse_arxiv_entries`, each as its search hit, in feed order;
/// a feed that cannot be read is an unavailable upstream with the reading's
/// error message.
pub fn search_hits_from_feed(xml: &str) -> (r: Result<Vec<SearchPaperItem>, AppError>)
    ensures
        match feed_run(
            xml@,
            initial_feed_state(),
            Seq::<ReaderRequest>::empty(),
            step_limit(xml.len() as nat),
        ) {
            Ok(es) => r matches Ok(hits) && hits@.map_values(|h: SearchPaperItem| h@) == es.map_values(
                |f: EntryFields| fields_hit(f),
            ),
            Err(m) => r matches Err(e) && e.is(ErrorKind::UpstreamUnavailable, m),
        },
{
    match parse_arxiv_entries(xml) {
        Ok(entries) => {
            let ghost ev = entries@;
            let hits = search_results(entries);
            proof {
                assert(hits@.map_values(|h: SearchPaperItem| h@) =~= ev.map_values(
                    |e: ArxivEntry| fields_of(e),
                ).map_values(|f: EntryFields| fields_hit(f)));
            }
            Ok(hits)
        },
        Err(e) => Err(e),
    }
}

/// A search for `query` (page `page` of `page_size` hits) asks arXiv for the
/// one paper the query names when it names an arXiv identifier, and else
/// for that page of a search in all fields; whatever feed arXiv replies
/// with, the hits are its entries, one each and in feed order, and a feed
/// that cannot be read is reported with the reading's message.
pub proof fn law_arxiv_search(query: Seq<char>, page: nat, page_size: nat, xml: Seq<char>, xml_bytes: nat)
    ensures
        extract_arxiv_id_spec(trim(query)) matches Some(id) ==> search_params_spec(query, page, page_size)
            == seq![("id_list"@, id), ("start"@, "0"@), ("max_results"@, "1"@)],
        extract_arxiv_id_spec(trim(query)) is None ==> search_params_spec(query, page, page_size) == seq![
            ("search_query"@, "all:"@ + trim(query)),
            ("start"@, decimal(crate::library::page_offset_spec(page, page_size))),
            ("max_results"@, decimal(page_size)),
        ],
        feed_run(xml, initial_feed_state(), Seq::<ReaderRequest>::empty(), step_limit(xml_bytes)) matches Ok(
            es,
        ) ==> ({
            let hits = es.map_values(|f: EntryFields| fields_hit(f));
            &&& hits.len() == es.len()
            &&& forall|i: int| 0 <= i < es.len() ==> #[trigger] hits[i] == map_entry_spec(
                es[i].id,
                es[i].title,
                es[i].summary,
                es[i].published,
                es[i].authors,
                es[i].links,
            )
        }),
{
}

/// The parser never loses an entry: every step keeps the entries collected so
/// far, in order, and adds at most the entry just closed.
pub proof fn law_entries_only_grow(s: FeedState, ev: EventView)
    ensures
        ({
            let t = event_step(s, ev).0;
            t.entries == s.entries || t.entries == s.entries.push(s.entry)
        }),
{
}

/// An entry is recorded exactly when its closing tag is read inside it.
pub proof fn law_entry_recorded_on_close(s: FeedState)
    requires
        s.mode == FeedMode::InEntry,
    ensures
        event_step(s, EventView::End("entry"@)).0.entries == s.entries.push(s.entry),
        event_step(s, EventView::End("entry"@)).0.mode == FeedMode::Outside,
{
    reveal_strlit("entry");
    reveal_strlit("author");
    assert("entry"@ != "author"@) by {
        assert("entry"@.len() != "author"@.len());
    }
}

/// Texts never touch the collected entries.
pub proof fn law_texts_keep_entries(s: FeedState, slot: TextSlot, text: Seq<char>)
    ensures
        text_step(s, slot, text).entries == s.entries,
        text_step(s, slot, text).mode == s.mode,
{
}

} // verus!
