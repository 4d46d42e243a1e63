//! Structural events and the stream that extraction reads them from.

use vstd::prelude::*;
use xml::attribute::OwnedAttribute;
use xml::name::OwnedName;
use xml::reader::{EventReader, XmlEvent};

use crate::error::EventKind;

verus! {

/// A qualified element name: a local name and, where the document gives one,
/// a namespace prefix.
#[derive(Debug, PartialEq, Eq)]
pub struct QName {
    pub prefix: Option<String>,
    pub local_name: String,
}

/// The view of [`QName`].
pub struct QNameView {
    pub prefix: Option<Seq<char>>,
    pub local_name: Seq<char>,
}

impl View for QName {
    type V = QNameView;

    open spec fn view(&self) -> QNameView {
        QNameView { prefix: self.prefix.deep_view(), local_name: self.local_name@ }
    }
}

/// An attribute of an opening tag, by its local name.
#[derive(Debug, PartialEq, Eq)]
pub struct Attribute {
    pub local_name: String,
    pub value: String,
}

/// The view of [`Attribute`].
pub struct AttributeView {
    pub local_name: Seq<char>,
    pub value: Seq<char>,
}

impl View for Attribute {
    type V = AttributeView;

    open spec fn view(&self) -> AttributeView {
        AttributeView { local_name: self.local_name@, value: self.value@ }
    }
}

impl DeepView for Attribute {
    type V = AttributeView;

    open spec fn deep_view(&self) -> AttributeView {
        self@
    }
}

/// A structural event of a document.
#[derive(Debug, PartialEq, Eq)]
pub enum Event {
    /// An element opens, with its attributes in document order.
    StartElement { name: QName, attributes: Vec<Attribute> },
    /// An element closes.
    EndElement { name: QName },
    /// Text content.
    Characters(String),
    /// The document ends.
    EndDocument,
    /// Anything else: a comment, white space, a processing instruction.
    Other,
}

/// The view of [`Event`].
pub enum EventView {
    StartElement { name: QNameView, attributes: Seq<AttributeView> },
    EndElement { name: QNameView },
    Characters(Seq<char>),
    EndDocument,
    Other,
}

impl EventView {
    /// The kind of the event.
    pub open spec fn kind(self) -> EventKind {
        match self {
            EventView::StartElement { .. } => EventKind::ElementOpen,
            EventView::EndElement { .. } => EventKind::ElementClose,
            EventView::Characters(_) => EventKind::Text,
            EventView::EndDocument => EventKind::DocumentEnd,
            EventView::Other => EventKind::Other,
        }
    }
}

impl View for Event {
    type V = EventView;

    open spec fn view(&self) -> EventView {
        match *self {
            Event::StartElement { name, attributes } => EventView::StartElement {
                name: name@,
                attributes: attributes.deep_view(),
            },
            Event::EndElement { name } => EventView::EndElement { name: name@ },
            Event::Characters(text) => EventView::Characters(text@),
            Event::EndDocument => EventView::EndDocument,
            Event::Other => EventView::Other,
        }
    }
}

impl DeepView for Event {
    type V = EventView;

    open spec fn deep_view(&self) -> EventView {
        self@
    }
}

impl Event {
    /// The kind of the event.
    pub fn kind(&self) -> (k: EventKind)
        ensures
            k == self@.kind(),
    {
        match self {
            Event::StartElement { .. } => EventKind::ElementOpen,
            Event::EndElement { .. } => EventKind::ElementClose,
            Event::Characters(_) => EventKind::Text,
            Event::EndDocument => EventKind::DocumentEnd,
            Event::Other => EventKind::Other,
        }
    }
}

/// Whether the end of the document occurs in `events` at most once, and then
/// as the last event.
pub open spec fn ends_at_most_once(events: Seq<EventView>) -> bool {
    forall|i: int| 0 <= i < events.len() - 1 ==> !(#[trigger] events[i] is EndDocument)
}

/// The events of a document, and how far they have been read. The view of a
/// stream is the sequence of the events that are still to come.
pub struct EventStream {
    events: Vec<Event>,
    pos: usize,
}

impl View for EventStream {
    type V = Seq<EventView>;

    closed spec fn view(&self) -> Seq<EventView> {
        if self.pos <= self.events.len() {
            self.events.deep_view().skip(self.pos as int)
        } else {
            Seq::empty()
        }
    }
}

/// An `xml::reader::EventReader` over bytes in memory. Verus sees nothing
/// of it but the events that it will still yield, [`pending`].
#[verifier::external_body]
pub struct Tokenizer<'a> {
    reader: EventReader<&'a [u8]>,
}

/// The events that `xml::reader::EventReader` reads from `document`, in
/// order, up to and including the end of the document; for a document that
/// is not well formed, the events before the fault.
pub uninterp spec fn document_events(document: Seq<u8>) -> Seq<EventView>;

/// The events that a reader will still yield, up to and including the end of
/// the document, where `EventReader::next` then stays; for a document that is
/// not well formed, the events before the fault.
pub uninterp spec fn pending(tokenizer: Tokenizer) -> Seq<EventView>;

/// Starts a reader on `bytes` with `EventReader::new`.
///
/// Trusted: what the reader will yield depends on the bytes alone.
#[verifier::external_body]
fn open_tokenizer<'a>(bytes: &'a [u8]) -> (tokenizer: Tokenizer<'a>)
    ensures
        pending(tokenizer) == document_events(bytes@),
{
    Tokenizer { reader: EventReader::new(bytes) }
}

/// Pulls the next event with `EventReader::next` and moves what extraction
/// reads of it into an [`Event`]; `None` stands for the error that a document
/// which is not well formed gives.
///
/// Trusted: the reader yields its events in order. As its documentation
/// says, the end of the document comes after every other event, and once
/// the reader has returned it, or an error, it returns the same again.
#[verifier::external_body]
fn next_event(tokenizer: &mut Tokenizer) -> (event: Option<Event>)
    ensures
        ends_at_most_once(pending(*old(tokenizer))),
        match event {
            Some(e) => pending(*old(tokenizer)).len() > 0 && e@ == pending(*old(tokenizer))[0]
                && pending(*final(tokenizer)) == if e is EndDocument {
                pending(*old(tokenizer))
            } else {
                pending(*old(tokenizer)).drop_first()
            },
            None => pending(*old(tokenizer)).len() == 0 && pending(*final(tokenizer)).len() == 0,
        },
{
    let attribute = |a: OwnedAttribute| Attribute { local_name: a.name.local_name, value: a.value };
    let qname = |n: OwnedName| QName { prefix: n.prefix, local_name: n.local_name };
    match tokenizer.reader.next() {
        Ok(XmlEvent::StartElement { name, attributes, .. }) => Some(Event::StartElement {
            name: qname(name),
            attributes: attributes.into_iter().map(attribute).collect(),
        }),
        Ok(XmlEvent::EndElement { name }) => Some(Event::EndElement { name: qname(name) }),
        Ok(XmlEvent::Characters(text)) => Some(Event::Characters(text)),
        Ok(XmlEvent::EndDocument) => Some(Event::EndDocument),
        Ok(_) => Some(Event::Other),
        Err(_) => None,
    }
}

impl EventStream {
    /// A stream that yields `events` from the first one on.
    pub fn new(events: Vec<Event>) -> (stream: EventStream)
        ensures
            stream@ == events.deep_view(),
    {
        EventStream { events, pos: 0 }
    }

    /// The events of the document in `bytes`, up to and including the end
    /// of the document. Where the document is not well formed, the stream
    /// holds the events before the fault and no end of the document.
    pub fn from_bytes(bytes: &[u8]) -> (stream: EventStream)
        ensures
            stream@ == document_events(bytes@),
            ends_at_most_once(stream@),
    {
        let mut tokenizer = open_tokenizer(bytes);
        let mut events: Vec<Event> = Vec::new();
        let mut reading = true;
        while reading
            invariant
                events.deep_view() + (if reading {
                    pending(tokenizer)
                } else {
                    Seq::empty()
                }) == document_events(bytes@),
                reading ==> forall|i: int|
                    0 <= i < events.len() ==> !(#[trigger] events.deep_view()[i] is EndDocument),
                !reading ==> ends_at_most_once(document_events(bytes@)),
            decreases pending(tokenizer).len() + (if reading { 1int } else { 0int }),
        {
            let ghost before = events.deep_view();
            match next_event(&mut tokenizer) {
                None => {
                    reading = false;
                },
                Some(event) => {
                    if matches!(event, Event::EndDocument) {
                        reading = false;
                    }
                    events.push(event);
                    assert(events.deep_view() =~= before.push(event@));
                },
            }
        }
        EventStream { events, pos: 0 }
    }

    /// The next event, if there is one. The stream stays where it is.
    pub fn peek(&self) -> (event: Option<&Event>)
        ensures
            match event {
                Some(e) => self@.len() > 0 && e@ == self@[0],
                None => self@.len() == 0,
            },
    {
        if self.pos < self.events.len() {
            Some(&self.events[self.pos])
        } else {
            None
        }
    }

    /// Moves past the next event, if there is one.
    pub fn advance(&mut self)
        ensures
            final(self)@ == if old(self)@.len() > 0 {
                old(self)@.drop_first()
            } else {
                old(self)@
            },
    {
        if self.pos < self.events.len() {
            self.pos = self.pos + 1;
        }
    }
}

} // verus!
