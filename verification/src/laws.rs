//! What holds of every extraction, proved from the definitions of the
//! traversals.

use vstd::prelude::*;

use crate::bindings::{binding, Action, Field, Section};
use crate::dispatch::{
    after_extensions, bound_attribute_value, dispatched, extracted, extraction, text_read,
};
use crate::error::ExtractErrorView;
use crate::event::{document_events, EventView};
use crate::model::{InvoiceLineView, PayeeFinancialAccountView, XmlDataView};
use crate::path::{qualified, rendered};
use crate::skip::{extensions_name, skipped, sought_close, sought_open};
use crate::store::{stored, written};
use crate::text::trimmed;

verus! {

impl Field {
    /// Whether the field collects texts: it starts a member of a repeated
    /// group, or appends to a collection.
    pub open spec fn collects(self) -> bool {
        self.bound_action() == Action::GroupStart || self.bound_action()
            == Action::CollectionAppend
    }

    /// Whether the field holds one text and stands outside every repeated
    /// group.
    pub open spec fn holds_one(self) -> bool {
        !self.collects() && self.bound_section() != Section::Line
    }
}

/// The text that the record holds in `field`, a field that holds one text. A
/// field of invoice lines is read in the line started last.
pub open spec fn value(model: XmlDataView, field: Field) -> Option<Seq<char>> {
    match field {
        Field::Id => Some(model.id),
        Field::IssueDate => Some(model.issue_date),
        Field::InvoiceTypeCode => Some(model.invoice_type_code),
        Field::DocumentCurrencyCode => Some(model.document_currency_code),
        Field::TaxCurrencyCode => model.tax_currency_code,
        Field::TaxPointDate => model.tax_point_date,
        Field::DescriptionCode => model.description_code,
        Field::DueDate => model.due_date,
        Field::BuyerReference => model.buyer_reference,
        Field::AccountingCost => model.accounting_cost,
        Field::InvoicePeriodStartDate => model.invoice_period_state_date,
        Field::InvoicePeriodEndDate => model.invoice_period_end_date,
        Field::InvoicedQuantity => Some(model.invoice_lines.last().invoiced_quantity),
        Field::LineExtensionAmount => Some(model.invoice_lines.last().line_extension_amount),
        Field::PriceAmount => Some(model.invoice_lines.last().price.price_amount),
        Field::BaseQuantity => model.invoice_lines.last().price.base_quantity,
        Field::TaxCategoryId => Some(model.invoice_lines.last().item.classified_tax_category.id),
        Field::TaxCategoryPercent => {
            model.invoice_lines.last().item.classified_tax_category.percent
        },
        Field::TaxSchemeId => {
            model.invoice_lines.last().item.classified_tax_category.tax_scheme_id
        },
        Field::ItemName => Some(model.invoice_lines.last().item.name),
        Field::ItemDescription => model.invoice_lines.last().item.description,
        Field::TotalLineExtensionAmount => Some(model.legal_monetary_total.line_extension_amount),
        Field::TaxExclusiveAmount => Some(model.legal_monetary_total.tax_exclusive_amount),
        Field::TaxInclusiveAmount => Some(model.legal_monetary_total.tax_inclusive_amount),
        Field::PayableAmount => Some(model.legal_monetary_total.payable_amount),
        Field::PaymentMeansCode => Some(model.payment().payment_means_code),
        Field::InstructionNote => model.payment().instruction_note,
        Field::PaymentId => model.payment().payment_id,
        Field::RegistrationName => Some(model.accounting_supplier_party.registration_name),
        Field::CompanyLegalForm => Some(model.accounting_supplier_party.company_legal_form),
        Field::EndpointId => Some(model.accounting_supplier_party.endpoint_id),
        Field::StreetName => model.accounting_supplier_party.postal_address.street_name,
        Field::AdditionalStreetName => {
            model.accounting_supplier_party.postal_address.additional_street_name
        },
        Field::AddressLine => model.accounting_supplier_party.postal_address.line,
        Field::CityName => model.accounting_supplier_party.postal_address.city_name,
        Field::PostalZone => model.accounting_supplier_party.postal_address.postal_zone,
        Field::CountrySubentity => model.accounting_supplier_party.postal_address.country_subentity,
        Field::CountryCode => Some(
            model.accounting_supplier_party.postal_address.identification_code,
        ),
        _ => None,
    }
}

/// What the record holds of the attribute that the binding of `field` reads
/// beside the text.
pub open spec fn attribute_beside(model: XmlDataView, field: Field) -> Option<Seq<char>> {
    match field {
        Field::InvoicedQuantity => Some(model.invoice_lines.last().invoiced_quantity_unit_code),
        Field::BaseQuantity => model.invoice_lines.last().price.base_quantity_unit_code,
        Field::TotalLineExtensionAmount => {
            model.legal_monetary_total.line_extension_amount_currency_id
        },
        Field::TaxExclusiveAmount => model.legal_monetary_total.tax_exclusive_amount_currency_id,
        Field::TaxInclusiveAmount => model.legal_monetary_total.tax_inclusive_amount_currency_id,
        Field::PayableAmount => model.legal_monetary_total.payable_amount_currency_id,
        Field::EndpointId => Some(model.accounting_supplier_party.endpoint_id_scheme_id),
        _ => None,
    }
}

/// The texts that the record has collected in `field`, in the order in
/// which they came: the notes, or the keys of the members of a repeated
/// group.
pub open spec fn collected(model: XmlDataView, field: Field) -> Seq<Seq<char>> {
    match field {
        Field::Note => model.notes,
        Field::InvoiceLineId => model.invoice_lines.map_values(|line: InvoiceLineView| line.id),
        Field::PayeeFinancialAccountId => model.payment().payee_financial_accounts.map_values(
            |account: PayeeFinancialAccountView| account.id,
        ),
        _ => Seq::empty(),
    }
}

/// The trimmed texts of the elements that the table binds to `field`, in
/// document order, from a traversal that starts with the elements of `path`
/// open and reads `events` up to the end of the document. An element counts
/// where text follows its opening tag at once.
pub open spec fn texts_of(path: Seq<Seq<char>>, events: Seq<EventView>, field: Field) -> Seq<
    Seq<char>,
>
    decreases events.len(),
{
    if events.len() == 0 {
        Seq::empty()
    } else {
        let rest = events.drop_first();
        match events[0] {
            EventView::EndDocument => Seq::empty(),
            EventView::EndElement { .. } => texts_of(path.drop_last(), rest, field),
            EventView::StartElement { name, .. } => {
                let entered = path.push(qualified(name));
                if binding(rendered(entered)) == Some(field) && rest.len() > 0
                    && rest[0] is Characters {
                    seq![trimmed(rest[0]->Characters_0)] + texts_of(entered, rest, field)
                } else {
                    texts_of(entered, rest, field)
                }
            },
            _ => texts_of(path, rest, field),
        }
    }
}

/// The number of the elements that the table binds to `field`, from a
/// traversal that starts with the elements of `path` open and reads `events`
/// up to the end of the document.
pub open spec fn occurrences(path: Seq<Seq<char>>, events: Seq<EventView>, field: Field) -> nat
    decreases events.len(),
{
    if events.len() == 0 {
        0
    } else {
        let rest = events.drop_first();
        match events[0] {
            EventView::EndDocument => 0,
            EventView::EndElement { .. } => occurrences(path.drop_last(), rest, field),
            EventView::StartElement { name, .. } => {
                let entered = path.push(qualified(name));
                if binding(rendered(entered)) == Some(field) {
                    1 + occurrences(entered, rest, field)
                } else {
                    occurrences(entered, rest, field)
                }
            },
            _ => occurrences(path, rest, field),
        }
    }
}

/// The path that the opening and closing tags of `events` alone make of
/// `path`, up to the end of the document.
pub open spec fn path_after(path: Seq<Seq<char>>, events: Seq<EventView>) -> Seq<Seq<char>>
    decreases events.len(),
{
    if events.len() == 0 {
        path
    } else {
        let rest = events.drop_first();
        match events[0] {
            EventView::EndDocument => path,
            EventView::EndElement { .. } => path_after(path.drop_last(), rest),
            EventView::StartElement { name, .. } => path_after(path.push(qualified(name)), rest),
            _ => path_after(path, rest),
        }
    }
}

/// The events that follow the first end of the document.
pub open spec fn after_document_end(events: Seq<EventView>) -> Seq<EventView>
    decreases events.len(),
{
    if events.len() == 0 {
        events
    } else if events[0] is EndDocument {
        events.drop_first()
    } else {
        after_document_end(events.drop_first())
    }
}

/// The last of `texts`, or `kept` where there is none.
pub open spec fn last_or(texts: Seq<Seq<char>>, kept: Option<Seq<char>>) -> Option<Seq<char>> {
    if texts.len() > 0 {
        Some(texts.last())
    } else {
        kept
    }
}

/// Storing a text never touches the path. It adds the text to the
/// collection of its own field, or sets its own field, and leaves every other
/// collection and every other field outside the repeated groups as it was.
proof fn lemma_stored(
    model: XmlDataView,
    target: Field,
    path: Seq<char>,
    text: Seq<char>,
    attribute: Option<Seq<char>>,
    field: Field,
)
    requires
        stored(model, target, path, text, attribute) is Ok,
    ensures
        ({
            let filled = stored(model, target, path, text, attribute)->Ok_0;
            &&& filled.current_path == model.current_path
            &&& collected(filled, field) == if target == field && field.collects() {
                collected(model, field).push(text)
            } else {
                collected(model, field)
            }
            &&& field.holds_one() ==> value(filled, field) == if target == field {
                Some(text)
            } else {
                value(model, field)
            }
        }),
{
}

/// One induction along a traversal that succeeds, for all that the laws
/// below say of its end.
proof fn lemma_traversal(model: XmlDataView, events: Seq<EventView>, field: Field)
    requires
        dispatched(model, events).result is Ok,
    ensures
        ({
            let end = dispatched(model, events);
            let path = model.current_path;
            &&& end.model.current_path == path_after(path, events)
            &&& end.rest == after_document_end(events)
            &&& texts_of(path, events, field).len() == occurrences(path, events, field)
            &&& collected(end.model, field) == collected(model, field) + if field.collects() {
                texts_of(path, events, field)
            } else {
                Seq::empty()
            }
            &&& field.holds_one() ==> value(end.model, field) == last_or(
                texts_of(path, events, field),
                value(model, field),
            )
        }),
    decreases events.len(),
{
    if events.len() > 0 {
        let rest = events.drop_first();
        match events[0] {
            EventView::EndDocument => {},
            EventView::EndElement { .. } => {
                lemma_traversal(model.closed(), rest, field);
            },
            EventView::StartElement { name, attributes } => {
                let entered = model.opened(name);
                match binding(entered.path()) {
                    None => {
                        lemma_traversal(entered, rest, field);
                    },
                    Some(target) => {
                        // The text that follows is read with the element: the
                        // traversal goes on behind it.
                        let text = text_read(entered.path(), rest)->Ok_0;
                        let attribute = bound_attribute_value(attributes, target);
                        let filled = stored(entered, target, entered.path(), text, attribute)->Ok_0;
                        let path = entered.current_path;
                        let later = rest.drop_first();
                        lemma_stored(entered, target, entered.path(), text, attribute, field);
                        lemma_traversal(filled, later, field);
                        assert(path_after(path, rest) == path_after(path, later));
                        assert(after_document_end(rest) == after_document_end(later));
                        assert(texts_of(path, rest, field) == texts_of(path, later, field));
                        assert(occurrences(path, rest, field) == occurrences(path, later, field));
                    },
                }
            },
            _ => {
                lemma_traversal(model, rest, field);
            },
        }
    }
}

/// The path follows the elements, and the traversal ends with the document.
///
/// Where a traversal succeeds, it has read the events up to and including
/// the first end of the document and no further, and the path that it
/// leaves is the one that the opening and closing tags on the way make of
/// the path it started with: every opening tag added one segment, every
/// closing tag took one away, and nothing else touched the path.
pub proof fn path_follows_the_elements(model: XmlDataView, events: Seq<EventView>)
    requires
        dispatched(model, events).result is Ok,
    ensures
        dispatched(model, events).model.current_path == path_after(model.current_path, events),
        dispatched(model, events).rest == after_document_end(events),
{
    lemma_traversal(model, events, Field::Id);
}

/// Every bound element of a document that was read to its end had its text.
///
/// Where a traversal succeeds, the texts of the elements bound to `field`
/// are as many as those elements.
pub proof fn every_occurrence_has_text(model: XmlDataView, events: Seq<EventView>, field: Field)
    requires
        dispatched(model, events).result is Ok,
    ensures
        texts_of(model.current_path, events, field).len() == occurrences(
            model.current_path,
            events,
            field,
        ),
{
    lemma_traversal(model, events, field);
}

/// Collections grow by the texts of their elements, in document order.
///
/// Where a traversal succeeds, what the record has collected in `field`
/// afterwards is what it had collected before, followed by the trimmed texts
/// of the elements bound to `field` in the order of the document. For a
/// group-start field this says that the group has one member for every
/// occurrence of the path, in document order, each keyed by its text.
pub proof fn collection_holds_every_occurrence(
    model: XmlDataView,
    events: Seq<EventView>,
    field: Field,
)
    requires
        field.collects(),
        dispatched(model, events).result is Ok,
    ensures
        collected(dispatched(model, events).model, field) == collected(model, field) + texts_of(
            model.current_path,
            events,
            field,
        ),
{
    lemma_traversal(model, events, field);
}

/// A field outside the repeated groups holds the text of its last element.
///
/// Where a traversal succeeds, a field that holds one text and stands
/// outside every repeated group holds afterwards the trimmed text of the last
/// element bound to it, or what it held before where the document has no
/// such element.
pub proof fn field_holds_last_occurrence(model: XmlDataView, events: Seq<EventView>, field: Field)
    requires
        field.holds_one(),
        dispatched(model, events).result is Ok,
    ensures
        value(dispatched(model, events).model, field) == last_or(
            texts_of(model.current_path, events, field),
            value(model, field),
        ),
{
    lemma_traversal(model, events, field);
}

/// A path that occurs once gives its field its text.
///
/// Where a traversal succeeds and exactly one element of the document is
/// bound to `field`, a field outside the repeated groups, the field holds the
/// trimmed text of that element.
pub proof fn field_holds_its_one_occurrence(
    model: XmlDataView,
    events: Seq<EventView>,
    field: Field,
)
    requires
        field.holds_one(),
        dispatched(model, events).result is Ok,
        occurrences(model.current_path, events, field) == 1,
    ensures
        value(dispatched(model, events).model, field) == Some(
            texts_of(model.current_path, events, field)[0],
        ),
{
    field_holds_last_occurrence(model, events, field);
    every_occurrence_has_text(model, events, field);
}

/// A group has one member for each occurrence of its group-start path.
///
/// Where a traversal that starts from a record without members succeeds, the
/// keys of the members of the group that `field` starts are the trimmed texts
/// of the elements bound to `field`, in document order; so the group has as
/// many members as the document has such elements.
pub proof fn group_has_one_member_per_occurrence(
    model: XmlDataView,
    events: Seq<EventView>,
    field: Field,
)
    requires
        field.bound_action() == Action::GroupStart,
        collected(model, field).len() == 0,
        dispatched(model, events).result is Ok,
    ensures
        collected(dispatched(model, events).model, field) == texts_of(
            model.current_path,
            events,
            field,
        ),
        collected(dispatched(model, events).model, field).len() == occurrences(
            model.current_path,
            events,
            field,
        ),
        field == Field::InvoiceLineId ==> dispatched(model, events).model.invoice_lines.len()
            == occurrences(model.current_path, events, field),
{
    collection_holds_every_occurrence(model, events, field);
    every_occurrence_has_text(model, events, field);
}

/// An optional attribute may be absent.
///
/// Where the binding of `field` reads an attribute without requiring it and
/// the element has none, the text is stored all the same and what the record
/// holds of the attribute stays as it was: absent, where it was absent.
pub proof fn optional_attribute_may_be_absent(
    model: XmlDataView,
    field: Field,
    path: Seq<char>,
    text: Seq<char>,
)
    requires
        field.bound_action() == (Action::ScalarWithAttribute { required: false }),
        field.bound_section() == Section::Line ==> model.invoice_lines.len() > 0,
    ensures
        stored(model, field, path, text, None) is Ok,
        value(stored(model, field, path, text, None)->Ok_0, field) == Some(text),
        attribute_beside(stored(model, field, path, text, None)->Ok_0, field) == attribute_beside(
            model,
            field,
        ),
{
}

/// A required attribute must be present.
///
/// Where the binding of `field` requires its attribute and the element has
/// none, storing fails and names the path and the attribute.
pub proof fn required_attribute_must_be_present(
    model: XmlDataView,
    field: Field,
    path: Seq<char>,
    text: Seq<char>,
)
    requires
        field.bound_action() == (Action::ScalarWithAttribute { required: true }),
        field.bound_section() == Section::Line ==> model.invoice_lines.len() > 0,
    ensures
        stored(model, field, path, text, None) == Err::<XmlDataView, ExtractErrorView>(
            ExtractErrorView::MissingAttribute { path, attribute: field.bound_attribute()->0 },
        ),
        field.bound_attribute() is Some,
{
}

/// An element without its required attribute ends the traversal.
///
/// Where text follows the opening tag of an element whose binding requires
/// an attribute that the tag does not have, the traversal fails there and
/// names the path and the attribute, unless the element is a field of invoice
/// lines and no line was started, which is reported first.
pub proof fn element_without_required_attribute_fails(
    model: XmlDataView,
    events: Seq<EventView>,
    field: Field,
)
    requires
        events.len() >= 2,
        events[0] is StartElement,
        events[1] is Characters,
        binding(model.opened(events[0]->StartElement_name).path()) == Some(field),
        field.bound_action() == (Action::ScalarWithAttribute { required: true }),
        bound_attribute_value(events[0]->StartElement_attributes, field) is None,
        field.bound_section() == Section::Line ==> model.invoice_lines.len() > 0,
    ensures
        dispatched(model, events).result == Err::<(), ExtractErrorView>(
            ExtractErrorView::MissingAttribute {
                path: model.opened(events[0]->StartElement_name).path(),
                attribute: field.bound_attribute()->0,
            },
        ),
        dispatched(model, events).model == model.opened(events[0]->StartElement_name),
{
    let entered = model.opened(events[0]->StartElement_name);
    let text = trimmed(events.drop_first()[0]->Characters_0);
    required_attribute_must_be_present(entered, field, entered.path(), text);
}

/// An element that the table does not know changes nothing but the path.
///
/// Where the path of an opening tag is not bound, the traversal goes on with
/// the next event and with the record as it was, but for the element that is
/// now open: no field changes, and the element raises no error.
pub proof fn unbound_element_changes_only_the_path(model: XmlDataView, events: Seq<EventView>)
    requires
        events.len() > 0,
        events[0] is StartElement,
        binding(model.opened(events[0]->StartElement_name).path()) is None,
    ensures
        dispatched(model, events) == dispatched(
            model.opened(events[0]->StartElement_name),
            events.drop_first(),
        ),
        model.opened(events[0]->StartElement_name) == (XmlDataView {
            current_path: model.current_path.push(qualified(events[0]->StartElement_name)),
            ..model
        }),
{
}

/// A leaf that the table does not know can be taken out of the document.
///
/// An element whose path is not bound and that holds nothing but text leaves
/// no trace: the traversal of a document that holds it ends as the traversal
/// of the document without it.
pub proof fn unbound_leaf_leaves_no_trace(
    model: XmlDataView,
    open: EventView,
    text: Seq<char>,
    close: EventView,
    rest: Seq<EventView>,
)
    requires
        open is StartElement,
        close is EndElement,
        binding(model.opened(open->StartElement_name).path()) is None,
    ensures
        dispatched(model, seq![open, EventView::Characters(text), close] + rest) == dispatched(
            model,
            rest,
        ),
        dispatched(model, seq![open, close] + rest) == dispatched(model, rest),
{
    // Entering the element and leaving it again restores the path.
    let entered = model.opened(open->StartElement_name);
    assert(entered.closed() =~= model);
    let with_text = seq![open, EventView::Characters(text), close] + rest;
    let after_open = with_text.drop_first();
    let after_text = after_open.drop_first();
    assert(after_text.drop_first() =~= rest);
    assert(dispatched(entered, after_open) == dispatched(entered, after_text));
    let bare = seq![open, close] + rest;
    let after_bare = bare.drop_first();
    assert(after_bare.drop_first() =~= rest);
    assert(dispatched(entered, after_bare) == dispatched(model, rest));
}

/// Looking for an element moves the path and nothing else, and where it
/// finds the closing tag of an element, no element that opened on the way is
/// still open: the path that remains is a proper beginning of the path at
/// which the search started, shorter than `floor`.
pub proof fn search_moves_only_the_path(
    model: XmlDataView,
    events: Seq<EventView>,
    target: Seq<char>,
    floor: nat,
)
    requires
        floor <= model.current_path.len(),
    ensures
        sought_open(model, events, target).model == (XmlDataView {
            current_path: sought_open(model, events, target).model.current_path,
            ..model
        }),
        sought_close(model, events, target, floor).model == (XmlDataView {
            current_path: sought_close(model, events, target, floor).model.current_path,
            ..model
        }),
        sought_close(model, events, target, floor).result is Ok ==> {
            let left = sought_close(model, events, target, floor).model.current_path;
            left.len() < floor && left == model.current_path.take(left.len() as int)
        },
    decreases events.len(),
{
    if events.len() > 0 {
        let rest = events.drop_first();
        let depth = model.current_path.len();
        match events[0] {
            EventView::StartElement { name, .. } => {
                search_moves_only_the_path(model.opened(name), rest, target, floor);
            },
            EventView::EndElement { .. } => {
                if depth > 0 {
                    let lower: nat = if depth <= floor {
                        (depth - 1) as nat
                    } else {
                        floor
                    };
                    search_moves_only_the_path(model.closed(), rest, target, lower);
                }
            },
            EventView::EndDocument => {},
            _ => {
                search_moves_only_the_path(model, rest, target, floor);
            },
        }
    }
}

/// A skipped region is closed where the skip ends.
///
/// Where the skip of the subtree named `target` succeeds, no field of the
/// record has changed, and the path that remains is a proper beginning of
/// the path of the element that was skipped: the skip ended with the closing
/// tag of that element or of one around it, never with the closing tag of an
/// element inside it, whatever that element's name.
pub proof fn skip_ends_outside_the_region(
    model: XmlDataView,
    events: Seq<EventView>,
    target: Seq<char>,
)
    requires
        skipped(model, events, target).result is Ok,
    ensures
        skipped(model, events, target).model == (XmlDataView {
            current_path: skipped(model, events, target).model.current_path,
            ..model
        }),
        ({
            let region = sought_open(model, events, target).model.current_path;
            let left = skipped(model, events, target).model.current_path;
            left.len() < region.len() && left == region.take(left.len() as int)
        }),
{
    let opening = sought_open(model, events, target);
    search_moves_only_the_path(model, events, target, 0);
    search_moves_only_the_path(
        opening.model,
        opening.rest,
        target,
        opening.model.current_path.len(),
    );
}

/// Without the region there is no extraction.
///
/// Where no element named `target` opens in `events`, the search for it
/// fails, and so does the skip: no field of the record is touched.
pub proof fn missing_region_is_an_error(
    model: XmlDataView,
    events: Seq<EventView>,
    target: Seq<char>,
)
    requires
        forall|i: int|
            0 <= i < events.len() && (#[trigger] events[i]) is StartElement ==> qualified(
                events[i]->StartElement_name,
            ) != target,
    ensures
        sought_open(model, events, target).result is Err,
        skipped(model, events, target).result is Err,
        skipped(model, events, target).model == (XmlDataView {
            current_path: skipped(model, events, target).model.current_path,
            ..model
        }),
    decreases events.len(),
{
    search_moves_only_the_path(model, events, target, 0);
    if events.len() > 0 {
        let rest = events.drop_first();
        match events[0] {
            EventView::StartElement { name, .. } => {
                missing_region_is_an_error(model.opened(name), rest, target);
            },
            EventView::EndElement { .. } => {
                if model.current_path.len() > 0 {
                    missing_region_is_an_error(model.closed(), rest, target);
                }
            },
            EventView::EndDocument => {},
            _ => {
                missing_region_is_an_error(model, rest, target);
            },
        }
    }
}

/// An extraction collects what follows the extension block.
///
/// Where an extraction succeeds, what the record has collected in `field`
/// are the trimmed texts of the elements bound to `field` that follow the
/// extension block, in document order; so a group has as many members as
/// there are such elements.
pub proof fn extraction_collects_every_occurrence(events: Seq<EventView>, field: Field)
    requires
        field.collects(),
        extracted(events).result is Ok,
    ensures
        collected(extracted(events).model, field) == texts_of(
            after_extensions(events).model.current_path,
            after_extensions(events).rest,
            field,
        ),
        collected(extracted(events).model, field).len() == occurrences(
            after_extensions(events).model.current_path,
            after_extensions(events).rest,
            field,
        ),
{
    let skipping = after_extensions(events);
    skip_ends_outside_the_region(XmlDataView::blank(), events, extensions_name());
    collection_holds_every_occurrence(skipping.model, skipping.rest, field);
    every_occurrence_has_text(skipping.model, skipping.rest, field);
}

/// An extraction gives a field the text of its one element.
///
/// Where an extraction succeeds and exactly one element that follows the
/// extension block is bound to `field`, a field outside the repeated groups,
/// the field holds the trimmed text of that element.
pub proof fn extraction_stores_the_one_occurrence(events: Seq<EventView>, field: Field)
    requires
        field.holds_one(),
        extracted(events).result is Ok,
        occurrences(
            after_extensions(events).model.current_path,
            after_extensions(events).rest,
            field,
        ) == 1,
    ensures
        value(extracted(events).model, field) == Some(
            texts_of(
                after_extensions(events).model.current_path,
                after_extensions(events).rest,
                field,
            )[0],
        ),
{
    let skipping = after_extensions(events);
    field_holds_its_one_occurrence(skipping.model, skipping.rest, field);
}

/// Extraction is a function of the document.
///
/// Two documents that hold the same bytes give the same outcome: the same
/// record, field by field, or the same error. The same holds of two
/// sequences of events.
pub proof fn extraction_is_repeatable(first: Seq<u8>, second: Seq<u8>)
    requires
        first == second,
    ensures
        extraction(document_events(first)) == extraction(document_events(second)),
        forall|a: Seq<EventView>, b: Seq<EventView>| a == b ==> extraction(a) == extraction(b),
{
}

} // verus!
