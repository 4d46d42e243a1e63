//! The region skipper: moves a stream past a named subtree without
//! interpreting what is in it, keeping the path stack up to date.

use vstd::prelude::*;

use crate::error::{ExtractError, ExtractErrorView};
use crate::event::{Event, EventStream, EventView};
use crate::model::{XmlData, XmlDataView};
use crate::outcome::{reported, Outcome};
use crate::path::{qualified, to_prefixed_name};
use crate::text::same_text;

verus! {

/// The traversal that looks for the first element, in document order and at
/// any depth, whose qualified name is `target`, and stops behind its opening
/// tag. It fails where the events run out, or the document ends, before such
/// an element opens.
pub open spec fn sought_open(
    model: XmlDataView,
    events: Seq<EventView>,
    target: Seq<char>,
) -> Outcome
    decreases events.len(),
{
    if events.len() == 0 {
        Outcome {
            model,
            rest: events,
            result: Err(ExtractErrorView::PrematureEnd { path: model.path() }),
        }
    } else {
        let rest = events.drop_first();
        match events[0] {
            EventView::StartElement { name, .. } => {
                if qualified(name) == target {
                    Outcome { model: model.opened(name), rest, result: Ok(()) }
                } else {
                    sought_open(model.opened(name), rest, target)
                }
            },
            EventView::EndElement { .. } => {
                if model.current_path.len() == 0 {
                    Outcome { model, rest, result: Err(ExtractErrorView::UnbalancedClose) }
                } else {
                    sought_open(model.closed(), rest, target)
                }
            },
            EventView::EndDocument => Outcome {
                model,
                rest,
                result: Err(ExtractErrorView::PrematureEnd { path: model.path() }),
            },
            _ => sought_open(model, rest, target),
        }
    }
}

/// The traversal that looks for the closing tag of the nearest element named
/// `target` that was open when the traversal began, and stops behind it.
/// `floor` is the number of elements that have been open ever since: a
/// closing tag at a greater depth belongs to an element that opened on the
/// way, and is passed over whatever its name.
pub open spec fn sought_close(
    model: XmlDataView,
    events: Seq<EventView>,
    target: Seq<char>,
    floor: nat,
) -> Outcome
    decreases events.len(),
{
    if events.len() == 0 {
        Outcome {
            model,
            rest: events,
            result: Err(ExtractErrorView::PrematureEnd { path: model.path() }),
        }
    } else {
        let rest = events.drop_first();
        let depth = model.current_path.len();
        match events[0] {
            EventView::StartElement { name, .. } => sought_close(
                model.opened(name),
                rest,
                target,
                floor,
            ),
            EventView::EndElement { name } => {
                if depth == 0 {
                    Outcome { model, rest, result: Err(ExtractErrorView::UnbalancedClose) }
                } else if depth <= floor && qualified(name) == target {
                    Outcome { model: model.closed(), rest, result: Ok(()) }
                } else if depth <= floor {
                    sought_close(model.closed(), rest, target, (depth - 1) as nat)
                } else {
                    sought_close(model.closed(), rest, target, floor)
                }
            },
            EventView::EndDocument => Outcome {
                model,
                rest,
                result: Err(ExtractErrorView::PrematureEnd { path: model.path() }),
            },
            _ => sought_close(model, rest, target, floor),
        }
    }
}

/// The traversal of [`move_to_element_w_prefix`].
pub open spec fn moved(
    model: XmlDataView,
    events: Seq<EventView>,
    target: Seq<char>,
    end: bool,
) -> Outcome {
    if end {
        sought_close(model, events, target, model.current_path.len())
    } else {
        sought_open(model, events, target)
    }
}

/// The traversal that skips the first subtree whose root is named `target`:
/// to the opening tag of the first such element, then to the closing tag
/// that matches it.
pub open spec fn skipped(model: XmlDataView, events: Seq<EventView>, target: Seq<char>) -> Outcome {
    let opening = moved(model, events, target, false);
    if opening.result is Ok {
        moved(opening.model, opening.rest, target, true)
    } else {
        opening
    }
}

/// The qualified name of the extension block that leads an invoice.
pub open spec fn extensions_name() -> Seq<char> {
    "ext:UBLExtensions"@
}

/// Reads events until an element named `elem_name` opens (where `end` is
/// false) or until the nearest enclosing element named `elem_name` closes
/// (where `end` is true), and keeps the path of `xml_data` up to date. A
/// closing tag counts only where it closes an element that was open when the
/// call began, so that an element of the same name inside the subtree does
/// not end the search.
pub fn move_to_element_w_prefix(
    parser: &mut EventStream,
    elem_name: &str,
    end: bool,
    xml_data: &mut XmlData,
) -> (r: Result<(), ExtractError>)
    ensures
        ({
            let outcome = moved(old(xml_data)@, old(parser)@, elem_name@, end);
            &&& final(xml_data)@ == outcome.model
            &&& final(parser)@ == outcome.rest
            &&& reported(r) == outcome.result
        }),
{
    let mut floor: usize = xml_data.depth();
    loop
        invariant
            floor <= xml_data@.current_path.len(),
            moved(old(xml_data)@, old(parser)@, elem_name@, end) == if end {
                sought_close(xml_data@, parser@, elem_name@, floor as nat)
            } else {
                sought_open(xml_data@, parser@, elem_name@)
            },
        decreases parser@.len(),
    {
        let arrived = match parser.peek() {
            None => {
                return Err(ExtractError::PrematureEnd { path: xml_data.path() });
            },
            Some(Event::StartElement { name, .. }) => {
                xml_data.push_path(name);
                !end && same_text(to_prefixed_name(name).as_str(), elem_name)
            },
            Some(Event::EndElement { name }) => {
                let depth: usize = xml_data.depth();
                if depth == 0 {
                    parser.advance();
                    return Err(ExtractError::UnbalancedClose);
                }
                xml_data.pop_path();
                if depth <= floor {
                    floor = depth - 1;
                    end && same_text(to_prefixed_name(name).as_str(), elem_name)
                } else {
                    false
                }
            },
            Some(Event::EndDocument) => {
                parser.advance();
                return Err(ExtractError::PrematureEnd { path: xml_data.path() });
            },
            Some(_) => false,
        };
        parser.advance();
        if arrived {
            return Ok(());
        }
    }
}

/// Skips the first subtree whose root is named `elem_name`: reads events
/// up to and including the closing tag that matches the first opening tag
/// of that name, and keeps the path of `xml_data` up to date. It is an error
/// if the events run out, or the document ends, before the subtree has been
/// passed.
pub fn skip_subtree(parser: &mut EventStream, elem_name: &str, xml_data: &mut XmlData) -> (r:
    Result<(), ExtractError>)
    ensures
        ({
            let outcome = skipped(old(xml_data)@, old(parser)@, elem_name@);
            &&& final(xml_data)@ == outcome.model
            &&& final(parser)@ == outcome.rest
            &&& reported(r) == outcome.result
        }),
{
    match move_to_element_w_prefix(parser, elem_name, false, xml_data) {
        Ok(()) => move_to_element_w_prefix(parser, elem_name, true, xml_data),
        Err(error) => Err(error),
    }
}

/// Skips the extension block that leads an invoice: the first subtree whose
/// root is named `ext:UBLExtensions`.
pub fn skip_ubl_extensions(parser: &mut EventStream, xml_data: &mut XmlData) -> (r: Result<
    (),
    ExtractError,
>)
    ensures
        ({
            let outcome = skipped(old(xml_data)@, old(parser)@, extensions_name());
            &&& final(xml_data)@ == outcome.model
            &&& final(parser)@ == outcome.rest
            &&& reported(r) == outcome.result
        }),
{
    skip_subtree(parser, "ext:UBLExtensions", xml_data)
}

} // verus!
