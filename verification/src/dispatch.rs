//! The event dispatcher: the traversal that reads a document's events in
//! order, keeps the path stack, looks every opened element up in the binding
//! table and stores the text of those that the table knows.

use vstd::prelude::*;

use crate::bindings::{binding, lookup, Field};
use crate::error::{ExtractError, ExtractErrorView};
use crate::event::{document_events, Attribute, AttributeView, Event, EventStream, EventView};
use crate::model::{XmlData, XmlDataView};
use crate::outcome::{reported, Outcome};
use crate::skip::{extensions_name, skip_ubl_extensions, skipped};
use crate::store::{apply, stored};
use crate::text::{same_text, trim, trimmed};

verus! {

/// The value of the first attribute in `attributes` whose local name is
/// `name`.
pub open spec fn attribute_value(attributes: Seq<AttributeView>, name: Seq<char>) -> Option<
    Seq<char>,
>
    decreases attributes.len(),
{
    if attributes.len() == 0 {
        None
    } else if attributes[0].local_name == name {
        Some(attributes[0].value)
    } else {
        attribute_value(attributes.drop_first(), name)
    }
}

/// The value of the attribute that the binding of `field` reads, where the
/// binding reads one and `attributes` holds it.
pub open spec fn bound_attribute_value(attributes: Seq<AttributeView>, field: Field) -> Option<
    Seq<char>,
> {
    match field.bound_attribute() {
        Some(name) => attribute_value(attributes, name),
        None => None,
    }
}

/// The text of an element at the rendered path `path` whose opening tag was
/// just read: the next event must be text, and the text is trimmed.
pub open spec fn text_read(path: Seq<char>, events: Seq<EventView>) -> Result<
    Seq<char>,
    ExtractErrorView,
> {
    if events.len() == 0 {
        Err(ExtractErrorView::PrematureEnd { path })
    } else {
        match events[0] {
            EventView::Characters(text) => Ok(trimmed(text)),
            other => Err(ExtractErrorView::MissingText { path, found: other.kind() }),
        }
    }
}

/// The traversal of [`main_logic`]: what becomes of the record `model` when
/// `events` are dispatched to it, up to the end of the document.
///
/// An opening tag enters its element; where the binding table knows the
/// path, the text that follows is stored. A closing tag leaves the element.
/// The end of the document ends the traversal. Every other event, and every
/// element that the table does not know, is passed over.
pub open spec fn dispatched(model: XmlDataView, events: Seq<EventView>) -> Outcome
    decreases events.len(),
{
    if events.len() == 0 {
        Outcome {
            model,
            rest: events,
            result: Err(ExtractErrorView::PrematureEnd { path: model.path() }),
        }
    } else {
        let rest = events.drop_first();
        match events[0] {
            EventView::EndDocument => Outcome { model, rest, result: Ok(()) },
            EventView::EndElement { .. } => {
                if model.current_path.len() == 0 {
                    Outcome { model, rest, result: Err(ExtractErrorView::UnbalancedClose) }
                } else {
                    dispatched(model.closed(), rest)
                }
            },
            EventView::StartElement { name, attributes } => {
                let entered = model.opened(name);
                match binding(entered.path()) {
                    None => dispatched(entered, rest),
                    Some(field) => match text_read(entered.path(), rest) {
                        Err(error) => Outcome { model: entered, rest, result: Err(error) },
                        Ok(text) => match stored(
                            entered,
                            field,
                            entered.path(),
                            text,
                            bound_attribute_value(attributes, field),
                        ) {
                            Err(error) => Outcome {
                                model: entered,
                                rest: rest.drop_first(),
                                result: Err(error),
                            },
                            Ok(filled) => dispatched(filled, rest.drop_first()),
                        },
                    },
                }
            },
            _ => dispatched(model, rest),
        }
    }
}

/// The first step of an extraction: from a blank record, the skip of the
/// extension block.
pub open spec fn after_extensions(events: Seq<EventView>) -> Outcome {
    skipped(XmlDataView::blank(), events, extensions_name())
}

/// The whole extraction: from a blank record, skip the extension block, then
/// dispatch what follows it.
pub open spec fn extracted(events: Seq<EventView>) -> Outcome {
    let skipping = after_extensions(events);
    if skipping.result is Ok {
        dispatched(skipping.model, skipping.rest)
    } else {
        skipping
    }
}

/// What an extraction hands back: the whole record, or the error that ended
/// the run.
pub open spec fn extraction(events: Seq<EventView>) -> Result<XmlDataView, ExtractErrorView> {
    match extracted(events).result {
        Ok(_) => Ok(extracted(events).model),
        Err(error) => Err(error),
    }
}

/// The view of what an extraction returns.
pub open spec fn returned(r: Result<XmlData, ExtractError>) -> Result<
    XmlDataView,
    ExtractErrorView,
> {
    match r {
        Ok(xml_data) => Ok(xml_data@),
        Err(error) => Err(error@),
    }
}

/// Finds the first attribute whose local name is `name` and copies its value.
pub fn find_attribute(attributes: &Vec<Attribute>, name: &str) -> (value: Option<String>)
    ensures
        value.deep_view() == attribute_value(attributes.deep_view(), name@),
{
    let mut index: usize = 0;
    assert(attributes.deep_view().skip(0) =~= attributes.deep_view());
    while index < attributes.len()
        invariant
            index <= attributes.len(),
            attribute_value(attributes.deep_view(), name@) == attribute_value(
                attributes.deep_view().skip(index as int),
                name@,
            ),
        decreases attributes.len() - index,
    {
        proof {
            let pending = attributes.deep_view().skip(index as int);
            assert(pending.drop_first() =~= attributes.deep_view().skip(index + 1));
        }
        if same_text(attributes[index].local_name.as_str(), name) {
            return Some(attributes[index].value.clone());
        }
        index = index + 1;
    }
    None
}

/// Reads the text of the element at the rendered path `path` whose opening
/// tag was just read. The next event must be text; it is consumed and its
/// text returned without the white space around it. Any other event stays
/// in the stream and is an error.
pub fn read_string(parser: &mut EventStream, path: &str) -> (r: Result<String, ExtractError>)
    ensures
        match text_read(path@, old(parser)@) {
            Ok(text) => r is Ok && r->Ok_0@ == text && final(parser)@ == old(parser)@.drop_first(),
            Err(error) => r is Err && r->Err_0@ == error && final(parser)@ == old(parser)@,
        },
{
    let text = match parser.peek() {
        None => {
            return Err(ExtractError::PrematureEnd { path: path.to_owned() });
        },
        Some(Event::Characters(text)) => trim(text.as_str()).to_owned(),
        Some(other) => {
            return Err(ExtractError::MissingText { path: path.to_owned(), found: other.kind() });
        },
    };
    parser.advance();
    Ok(text)
}

/// What the dispatcher does about one event.
enum Step {
    /// The document ended.
    Finish,
    /// An element closed.
    Leave,
    /// Nothing: the event is passed over.
    Pass,
    /// An element that the table knows opened: its text is to be stored.
    Store { field: Field, path: String, attribute: Option<String> },
}

/// Dispatches the events of `parser` to `xml_data` until the document ends.
///
/// On an opening tag the element is entered and its path looked up in the
/// binding table; where the table knows it, the text that follows is read
/// and stored. On a closing tag the element is left. Everything else is
/// passed over. The first error ends the run.
pub fn main_logic(parser: &mut EventStream, xml_data: &mut XmlData) -> (r: Result<
    (),
    ExtractError,
>)
    ensures
        ({
            let outcome = dispatched(old(xml_data)@, old(parser)@);
            &&& final(xml_data)@ == outcome.model
            &&& final(parser)@ == outcome.rest
            &&& reported(r) == outcome.result
        }),
{
    loop
        invariant
            dispatched(xml_data@, parser@) == dispatched(old(xml_data)@, old(parser)@),
        decreases parser@.len(),
    {
        let step = match parser.peek() {
            None => {
                return Err(ExtractError::PrematureEnd { path: xml_data.path() });
            },
            Some(Event::EndDocument) => Step::Finish,
            Some(Event::EndElement { .. }) => Step::Leave,
            Some(Event::StartElement { name, attributes }) => {
                xml_data.push_path(name);
                let path = xml_data.path();
                match lookup(path.as_str()) {
                    None => Step::Pass,
                    Some(field) => {
                        let attribute = match field.attribute() {
                            Some(wanted) => find_attribute(attributes, wanted),
                            None => None,
                        };
                        Step::Store { field, path, attribute }
                    },
                }
            },
            Some(_) => Step::Pass,
        };
        parser.advance();
        match step {
            Step::Finish => {
                return Ok(());
            },
            Step::Leave => {
                if xml_data.depth() == 0 {
                    return Err(ExtractError::UnbalancedClose);
                }
                xml_data.pop_path();
            },
            Step::Pass => {},
            Step::Store { field, path, attribute } => {
                let text = match read_string(parser, path.as_str()) {
                    Ok(text) => text,
                    Err(error) => {
                        return Err(error);
                    },
                };
                match apply(xml_data, field, path, text, attribute) {
                    Ok(()) => {},
                    Err(error) => {
                        return Err(error);
                    },
                }
            },
        }
    }
}

/// Extracts the invoice from the events of `parser`: skips the extension
/// block, then dispatches the rest of the document to a fresh record. Either
/// the whole record comes back, or the one error that ended the run.
pub fn extract(parser: &mut EventStream) -> (r: Result<XmlData, ExtractError>)
    ensures
        returned(r) == extraction(old(parser)@),
        final(parser)@ == extracted(old(parser)@).rest,
{
    let mut xml_data = XmlData::default();
    match skip_ubl_extensions(parser, &mut xml_data) {
        Ok(()) => {},
        Err(error) => {
            return Err(error);
        },
    }
    match main_logic(parser, &mut xml_data) {
        Ok(()) => Ok(xml_data),
        Err(error) => Err(error),
    }
}

/// Extracts the invoice from the document in `bytes`: reads its events,
/// then extracts from them.
pub fn extract_document(bytes: &[u8]) -> (r: Result<XmlData, ExtractError>)
    ensures
        returned(r) == extraction(document_events(bytes@)),
{
    let mut parser = EventStream::from_bytes(bytes);
    extract(&mut parser)
}

} // verus!
