//! Storing a text in the record: the repeated-group cursors and the writers
//! of the parts of the record.

use vstd::prelude::*;

use crate::bindings::{Action, Field, Section};
use crate::error::{ExtractError, ExtractErrorView};
use crate::model::{
    AccountingSupplierParty, AccountingSupplierPartyView, ClassifiedTaxCategoryView, InvoiceLine,
    InvoiceLineView, ItemView, LegalMonetaryTotal, LegalMonetaryTotalView, PayeeFinancialAccount,
    PayeeFinancialAccountView, PaymentMeans, PaymentMeansView, PostalAddressView, PriceView,
    XmlData, XmlDataView,
};

verus! {

/// `given` where there is one, else `kept`.
pub open spec fn given_or<T>(given: Option<T>, kept: T) -> T {
    match given {
        Some(value) => value,
        None => kept,
    }
}

/// `given` where there is one, else `kept`.
pub open spec fn present_or<T>(given: Option<T>, kept: Option<T>) -> Option<T> {
    match given {
        Some(_) => given,
        None => kept,
    }
}

impl PaymentMeansView {
    /// The payment instructions with a new account, keyed `id`, after the
    /// others.
    pub open spec fn with_new_account(self, id: Seq<char>) -> PaymentMeansView {
        PaymentMeansView {
            payee_financial_accounts: self.payee_financial_accounts.push(
                PayeeFinancialAccountView { id },
            ),
            ..self
        }
    }
}

impl XmlDataView {
    /// The record with a new invoice line, keyed `id`, after the others.
    pub open spec fn with_new_line(self, id: Seq<char>) -> XmlDataView {
        XmlDataView {
            invoice_lines: self.invoice_lines.push(
                InvoiceLineView { id, ..InvoiceLineView::blank() },
            ),
            ..self
        }
    }

    /// The payment instructions, blank where the record has none yet.
    pub open spec fn payment(self) -> PaymentMeansView {
        match self.payment_means {
            Some(means) => means,
            None => PaymentMeansView::blank(),
        }
    }

    /// The record with a new payment account, keyed `id`, after the others.
    pub open spec fn with_new_account(self, id: Seq<char>) -> XmlDataView {
        XmlDataView { payment_means: Some(self.payment().with_new_account(id)), ..self }
    }

    /// The record with `line` in place of the invoice line started last.
    pub open spec fn with_current_line(self, line: InvoiceLineView) -> XmlDataView {
        XmlDataView {
            invoice_lines: self.invoice_lines.update(self.invoice_lines.len() - 1, line),
            ..self
        }
    }
}

impl PaymentMeans {
    /// Starts a new payment account with the key `id`.
    pub fn new_account(&mut self, id: String)
        ensures
            final(self)@ == old(self)@.with_new_account(id@),
    {
        let mut account = PayeeFinancialAccount::default();
        account.id = id;
        self.payee_financial_accounts.push(account);
    }
}

impl XmlData {
    /// Starts a new invoice line with the key `id`; it becomes the current
    /// line.
    pub fn new_invoice_line(&mut self, id: String)
        ensures
            final(self)@ == old(self)@.with_new_line(id@),
    {
        let mut line = InvoiceLine::default();
        line.id = id;
        self.invoice_lines.push(line);
    }

    /// The current invoice line: the one started last. A line must have
    /// been started.
    pub fn invoice_line(&mut self) -> (line: &mut InvoiceLine)
        requires
            old(self)@.invoice_lines.len() > 0,
        ensures
            line@ == old(self)@.invoice_lines.last(),
            final(self)@ =~= old(self)@.with_current_line(final(line)@),
    {
        let last: usize = self.invoice_lines.len() - 1;
        &mut self.invoice_lines[last]
    }

    /// Starts a new payment account with the key `id`, in the payment
    /// instructions, which are created where the record has none yet.
    pub fn new_payee_financial_account(&mut self, id: String)
        ensures
            final(self)@ == old(self)@.with_new_account(id@),
    {
        self.payment_means().new_account(id);
    }

    /// The payment instructions, created blank where the record has none
    /// yet.
    pub fn payment_means(&mut self) -> (means: &mut PaymentMeans)
        ensures
            means@ == old(self)@.payment(),
            final(self)@ == (XmlDataView { payment_means: Some(final(means)@), ..old(self)@ }),
    {
        if self.payment_means.is_none() {
            self.payment_means = Some(PaymentMeans::default());
        }
        self.payment_means.as_mut().unwrap()
    }
}

/// The record after `text` was stored in `field`, a field of the record
/// itself.
pub open spec fn written_header(model: XmlDataView, field: Field, text: Seq<char>) -> XmlDataView {
    match field {
        Field::Id => XmlDataView { id: text, ..model },
        Field::IssueDate => XmlDataView { issue_date: text, ..model },
        Field::InvoiceTypeCode => XmlDataView { invoice_type_code: text, ..model },
        Field::DocumentCurrencyCode => XmlDataView { document_currency_code: text, ..model },
        Field::TaxCurrencyCode => XmlDataView { tax_currency_code: Some(text), ..model },
        Field::TaxPointDate => XmlDataView { tax_point_date: Some(text), ..model },
        Field::DescriptionCode => XmlDataView { description_code: Some(text), ..model },
        Field::DueDate => XmlDataView { due_date: Some(text), ..model },
        Field::BuyerReference => XmlDataView { buyer_reference: Some(text), ..model },
        Field::Note => XmlDataView { notes: model.notes.push(text), ..model },
        Field::AccountingCost => XmlDataView { accounting_cost: Some(text), ..model },
        Field::InvoicePeriodStartDate => XmlDataView {
            invoice_period_state_date: Some(text),
            ..model
        },
        Field::InvoicePeriodEndDate => XmlDataView { invoice_period_end_date: Some(text), ..model },
        Field::InvoiceLineId => model.with_new_line(text),
        _ => model,
    }
}

/// An invoice line after `text`, and `attribute` where the binding reads
/// one, were stored in `field`, a field of invoice lines.
pub open spec fn written_line(
    line: InvoiceLineView,
    field: Field,
    text: Seq<char>,
    attribute: Option<Seq<char>>,
) -> InvoiceLineView {
    match field {
        Field::InvoicedQuantity => InvoiceLineView {
            invoiced_quantity: text,
            invoiced_quantity_unit_code: given_or(attribute, line.invoiced_quantity_unit_code),
            ..line
        },
        Field::LineExtensionAmount => InvoiceLineView { line_extension_amount: text, ..line },
        Field::PriceAmount => InvoiceLineView {
            price: PriceView { price_amount: text, ..line.price },
            ..line
        },
        Field::BaseQuantity => InvoiceLineView {
            price: PriceView {
                base_quantity: Some(text),
                base_quantity_unit_code: present_or(attribute, line.price.base_quantity_unit_code),
                ..line.price
            },
            ..line
        },
        Field::TaxCategoryId => InvoiceLineView {
            item: ItemView {
                classified_tax_category: ClassifiedTaxCategoryView {
                    id: text,
                    ..line.item.classified_tax_category
                },
                ..line.item
            },
            ..line
        },
        Field::TaxCategoryPercent => InvoiceLineView {
            item: ItemView {
                classified_tax_category: ClassifiedTaxCategoryView {
                    percent: Some(text),
                    ..line.item.classified_tax_category
                },
                ..line.item
            },
            ..line
        },
        Field::TaxSchemeId => InvoiceLineView {
            item: ItemView {
                classified_tax_category: ClassifiedTaxCategoryView {
                    tax_scheme_id: Some(text),
                    ..line.item.classified_tax_category
                },
                ..line.item
            },
            ..line
        },
        Field::ItemName => InvoiceLineView {
            item: ItemView { name: text, ..line.item },
            ..line
        },
        Field::ItemDescription => InvoiceLineView {
            item: ItemView { description: Some(text), ..line.item },
            ..line
        },
        _ => line,
    }
}

/// The document totals after `text` and `attribute` were stored in `field`,
/// one of their fields.
pub open spec fn written_totals(
    totals: LegalMonetaryTotalView,
    field: Field,
    text: Seq<char>,
    attribute: Option<Seq<char>>,
) -> LegalMonetaryTotalView {
    match field {
        Field::TotalLineExtensionAmount => LegalMonetaryTotalView {
            line_extension_amount: text,
            line_extension_amount_currency_id: present_or(
                attribute,
                totals.line_extension_amount_currency_id,
            ),
            ..totals
        },
        Field::TaxExclusiveAmount => LegalMonetaryTotalView {
            tax_exclusive_amount: text,
            tax_exclusive_amount_currency_id: present_or(
                attribute,
                totals.tax_exclusive_amount_currency_id,
            ),
            ..totals
        },
        Field::TaxInclusiveAmount => LegalMonetaryTotalView {
            tax_inclusive_amount: text,
            tax_inclusive_amount_currency_id: present_or(
                attribute,
                totals.tax_inclusive_amount_currency_id,
            ),
            ..totals
        },
        Field::PayableAmount => LegalMonetaryTotalView {
            payable_amount: text,
            payable_amount_currency_id: present_or(
                attribute,
                totals.payable_amount_currency_id,
            ),
            ..totals
        },
        _ => totals,
    }
}

/// The payment instructions after `text` was stored in `field`, one of their
/// fields.
pub open spec fn written_payment(
    means: PaymentMeansView,
    field: Field,
    text: Seq<char>,
) -> PaymentMeansView {
    match field {
        Field::PaymentMeansCode => PaymentMeansView { payment_means_code: text, ..means },
        Field::InstructionNote => PaymentMeansView { instruction_note: Some(text), ..means },
        Field::PaymentId => PaymentMeansView { payment_id: Some(text), ..means },
        Field::PayeeFinancialAccountId => means.with_new_account(text),
        _ => means,
    }
}

/// The seller after `text`, and `attribute` where the binding reads one, were
/// stored in `field`, a field of the seller.
pub open spec fn written_supplier(
    party: AccountingSupplierPartyView,
    field: Field,
    text: Seq<char>,
    attribute: Option<Seq<char>>,
) -> AccountingSupplierPartyView {
    match field {
        Field::RegistrationName => AccountingSupplierPartyView { registration_name: text, ..party },
        Field::CompanyLegalForm => AccountingSupplierPartyView {
            company_legal_form: text,
            ..party
        },
        Field::EndpointId => AccountingSupplierPartyView {
            endpoint_id: text,
            endpoint_id_scheme_id: given_or(attribute, party.endpoint_id_scheme_id),
            ..party
        },
        Field::StreetName => AccountingSupplierPartyView {
            postal_address: PostalAddressView { street_name: Some(text), ..party.postal_address },
            ..party
        },
        Field::AdditionalStreetName => AccountingSupplierPartyView {
            postal_address: PostalAddressView {
                additional_street_name: Some(text),
                ..party.postal_address
            },
            ..party
        },
        Field::AddressLine => AccountingSupplierPartyView {
            postal_address: PostalAddressView { line: Some(text), ..party.postal_address },
            ..party
        },
        Field::CityName => AccountingSupplierPartyView {
            postal_address: PostalAddressView { city_name: Some(text), ..party.postal_address },
            ..party
        },
        Field::PostalZone => AccountingSupplierPartyView {
            postal_address: PostalAddressView { postal_zone: Some(text), ..party.postal_address },
            ..party
        },
        Field::CountrySubentity => AccountingSupplierPartyView {
            postal_address: PostalAddressView {
                country_subentity: Some(text),
                ..party.postal_address
            },
            ..party
        },
        Field::CountryCode => AccountingSupplierPartyView {
            postal_address: PostalAddressView { identification_code: text, ..party.postal_address },
            ..party
        },
        _ => party,
    }
}

/// The record after `text` and `attribute` were stored in `field`, whatever
/// part of the record `field` belongs to. A field of invoice lines goes to the
/// line started last.
pub open spec fn written(
    model: XmlDataView,
    field: Field,
    text: Seq<char>,
    attribute: Option<Seq<char>>,
) -> XmlDataView {
    match field.bound_section() {
        Section::Header => written_header(model, field, text),
        Section::Line => model.with_current_line(
            written_line(model.invoice_lines.last(), field, text, attribute),
        ),
        Section::Totals => XmlDataView {
            legal_monetary_total: written_totals(
                model.legal_monetary_total,
                field,
                text,
                attribute,
            ),
            ..model
        },
        Section::Payment => XmlDataView {
            payment_means: Some(written_payment(model.payment(), field, text)),
            ..model
        },
        Section::Supplier => XmlDataView {
            accounting_supplier_party: written_supplier(
                model.accounting_supplier_party,
                field,
                text,
                attribute,
            ),
            ..model
        },
    }
}

/// What storing `text` and `attribute` in `field` comes to, for an element at
/// the rendered path `path`: the new record, or the error. A field of invoice
/// lines needs a line that was started; a binding that requires its attribute
/// needs the attribute. An error leaves the record as it is.
pub open spec fn stored(
    model: XmlDataView,
    field: Field,
    path: Seq<char>,
    text: Seq<char>,
    attribute: Option<Seq<char>>,
) -> Result<XmlDataView, ExtractErrorView> {
    if field.bound_section() == Section::Line && model.invoice_lines.len() == 0 {
        Err(ExtractErrorView::FieldOutsideGroup { path })
    } else if field.requires_attribute() && attribute is None {
        Err(
            ExtractErrorView::MissingAttribute {
                path,
                attribute: given_or(field.bound_attribute(), Seq::empty()),
            },
        )
    } else {
        Ok(written(model, field, text, attribute))
    }
}

/// Stores `text` in `field`, a field of the record itself.
fn write_header(xml_data: &mut XmlData, field: Field, text: String)
    ensures
        final(xml_data)@ == written_header(old(xml_data)@, field, text@),
{
    match field {
        Field::Id => {
            xml_data.id = text;
        },
        Field::IssueDate => {
            xml_data.issue_date = text;
        },
        Field::InvoiceTypeCode => {
            xml_data.invoice_type_code = text;
        },
        Field::DocumentCurrencyCode => {
            xml_data.document_currency_code = text;
        },
        Field::TaxCurrencyCode => {
            xml_data.tax_currency_code = Some(text);
        },
        Field::TaxPointDate => {
            xml_data.tax_point_date = Some(text);
        },
        Field::DescriptionCode => {
            xml_data.description_code = Some(text);
        },
        Field::DueDate => {
            xml_data.due_date = Some(text);
        },
        Field::BuyerReference => {
            xml_data.buyer_reference = Some(text);
        },
        Field::Note => {
            xml_data.notes.push(text);
        },
        Field::AccountingCost => {
            xml_data.accounting_cost = Some(text);
        },
        Field::InvoicePeriodStartDate => {
            xml_data.invoice_period_state_date = Some(text);
        },
        Field::InvoicePeriodEndDate => {
            xml_data.invoice_period_end_date = Some(text);
        },
        Field::InvoiceLineId => {
            xml_data.new_invoice_line(text);
        },
        _ => {},
    }
}

/// Stores `text` and `attribute` in `field`, a field of invoice lines.
fn write_line(line: &mut InvoiceLine, field: Field, text: String, attribute: Option<String>)
    ensures
        final(line)@ == written_line(old(line)@, field, text@, attribute.deep_view()),
{
    match field {
        Field::InvoicedQuantity => {
            line.invoiced_quantity = text;
            if let Some(value) = attribute {
                line.invoiced_quantity_unit_code = value;
            }
        },
        Field::LineExtensionAmount => {
            line.line_extension_amount = text;
        },
        Field::PriceAmount => {
            line.price.price_amount = text;
        },
        Field::BaseQuantity => {
            line.price.base_quantity = Some(text);
            if let Some(value) = attribute {
                line.price.base_quantity_unit_code = Some(value);
            }
        },
        Field::TaxCategoryId => {
            line.item.classified_tax_category.id = text;
        },
        Field::TaxCategoryPercent => {
            line.item.classified_tax_category.percent = Some(text);
        },
        Field::TaxSchemeId => {
            line.item.classified_tax_category.tax_scheme_id = Some(text);
        },
        Field::ItemName => {
            line.item.name = text;
        },
        Field::ItemDescription => {
            line.item.description = Some(text);
        },
        _ => {},
    }
}

/// Stores `text` and `attribute` in `field`, a field of the document totals.
fn write_totals(
    totals: &mut LegalMonetaryTotal,
    field: Field,
    text: String,
    attribute: Option<String>,
)
    ensures
        final(totals)@ == written_totals(old(totals)@, field, text@, attribute.deep_view()),
{
    match field {
        Field::TotalLineExtensionAmount => {
            totals.line_extension_amount = text;
            if let Some(value) = attribute {
                totals.line_extension_amount_currency_id = Some(value);
            }
        },
        Field::TaxExclusiveAmount => {
            totals.tax_exclusive_amount = text;
            if let Some(value) = attribute {
                totals.tax_exclusive_amount_currency_id = Some(value);
            }
        },
        Field::TaxInclusiveAmount => {
            totals.tax_inclusive_amount = text;
            if let Some(value) = attribute {
                totals.tax_inclusive_amount_currency_id = Some(value);
            }
        },
        Field::PayableAmount => {
            totals.payable_amount = text;
            if let Some(value) = attribute {
                totals.payable_amount_currency_id = Some(value);
            }
        },
        _ => {},
    }
}

/// Stores `text` in `field`, a field of the payment instructions.
fn write_payment(means: &mut PaymentMeans, field: Field, text: String)
    ensures
        final(means)@ == written_payment(old(means)@, field, text@),
{
    match field {
        Field::PaymentMeansCode => {
            means.payment_means_code = text;
        },
        Field::InstructionNote => {
            means.instruction_note = Some(text);
        },
        Field::PaymentId => {
            means.payment_id = Some(text);
        },
        Field::PayeeFinancialAccountId => {
            means.new_account(text);
        },
        _ => {},
    }
}

/// Stores `text` and `attribute` in `field`, a field of the seller.
fn write_supplier(
    party: &mut AccountingSupplierParty,
    field: Field,
    text: String,
    attribute: Option<String>,
)
    ensures
        final(party)@ == written_supplier(old(party)@, field, text@, attribute.deep_view()),
{
    match field {
        Field::RegistrationName => {
            party.registration_name = text;
        },
        Field::CompanyLegalForm => {
            party.company_legal_form = text;
        },
        Field::EndpointId => {
            party.endpoint_id = text;
            if let Some(value) = attribute {
                party.endpoint_id_scheme_id = value;
            }
        },
        Field::StreetName => {
            party.postal_address.street_name = Some(text);
        },
        Field::AdditionalStreetName => {
            party.postal_address.additional_street_name = Some(text);
        },
        Field::AddressLine => {
            party.postal_address.line = Some(text);
        },
        Field::CityName => {
            party.postal_address.city_name = Some(text);
        },
        Field::PostalZone => {
            party.postal_address.postal_zone = Some(text);
        },
        Field::CountrySubentity => {
            party.postal_address.country_subentity = Some(text);
        },
        Field::CountryCode => {
            party.postal_address.identification_code = text;
        },
        _ => {},
    }
}

/// Stores `text`, the trimmed text of an element at the rendered path `path`,
/// in `field`, together with `attribute`, the value of the attribute that the
/// binding of `field` reads, where the element has it.
pub fn apply(
    xml_data: &mut XmlData,
    field: Field,
    path: String,
    text: String,
    attribute: Option<String>,
) -> (r: Result<(), ExtractError>)
    ensures
        match stored(old(xml_data)@, field, path@, text@, attribute.deep_view()) {
            Ok(model) => r is Ok && final(xml_data)@ == model,
            Err(error) => r is Err && r->Err_0@ == error && final(xml_data)@ == old(xml_data)@,
        },
{
    let section = field.section();
    if matches!(section, Section::Line) && xml_data.invoice_lines.len() == 0 {
        return Err(ExtractError::FieldOutsideGroup { path });
    }
    if attribute.is_none() {
        if let Action::ScalarWithAttribute { required: true } = field.action() {
            let attribute = match field.attribute() {
                Some(name) => name.to_owned(),
                None => String::new(),
            };
            return Err(ExtractError::MissingAttribute { path, attribute });
        }
    }
    match section {
        Section::Header => write_header(xml_data, field, text),
        Section::Line => write_line(xml_data.invoice_line(), field, text, attribute),
        Section::Totals => write_totals(&mut xml_data.legal_monetary_total, field, text, attribute),
        Section::Payment => write_payment(xml_data.payment_means(), field, text),
        Section::Supplier => write_supplier(
            &mut xml_data.accounting_supplier_party,
            field,
            text,
            attribute,
        ),
    }
    Ok(())
}

} // verus!
