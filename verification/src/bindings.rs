//! The field binding table: which paths of the document are of interest, and
//! what is done with the text found at each.

use vstd::prelude::*;

use crate::text::same_text;

verus! {

/// What a binding does with the text of its element.
#[derive(Debug, Clone, Copy, PartialEq, Eq, Structural)]
pub enum Action {
    /// Store the text in a required field.
    ScalarRequired,
    /// Store the text in an optional field, which becomes present.
    ScalarOptional,
    /// Store the text, and beside it one attribute of the opening tag. Where
    /// `required` holds, an element without the attribute is an error;
    /// otherwise the attribute's field is then left as it is.
    ScalarWithAttribute { required: bool },
    /// Append the text to a collection.
    CollectionAppend,
    /// Start a new member of a repeated group, with the text as its key.
    GroupStart,
}

/// The part of the record that a field belongs to.
#[derive(Debug, Clone, Copy, PartialEq, Eq, Structural)]
pub enum Section {
    /// The record itself.
    Header,
    /// The invoice line that was started last.
    Line,
    /// The document totals.
    Totals,
    /// The payment instructions.
    Payment,
    /// The seller.
    Supplier,
}

/// The fields that the table binds, in the order of the table.
#[derive(Debug, Clone, Copy, PartialEq, Eq, Structural)]
pub enum Field {
    /// Invoice number.
    Id,
    /// Issue date.
    IssueDate,
    /// Invoice type code.
    InvoiceTypeCode,
    /// Invoice currency code.
    DocumentCurrencyCode,
    /// VAT accounting currency code.
    TaxCurrencyCode,
    /// Date on which VAT becomes applicable.
    TaxPointDate,
    /// Code of the date on which VAT becomes applicable.
    DescriptionCode,
    /// Payment due date.
    DueDate,
    /// Buyer reference.
    BuyerReference,
    /// A free-text note.
    Note,
    /// Buyer accounting reference.
    AccountingCost,
    /// Start of the invoicing period.
    InvoicePeriodStartDate,
    /// End of the invoicing period.
    InvoicePeriodEndDate,
    /// Identifier of an invoice line; starts a new line.
    InvoiceLineId,
    /// Invoiced quantity of a line, with its unit of measure.
    InvoicedQuantity,
    /// Net amount of a line.
    LineExtensionAmount,
    /// Item net price of a line.
    PriceAmount,
    /// Item price base quantity of a line, with its unit of measure.
    BaseQuantity,
    /// VAT category code of a line.
    TaxCategoryId,
    /// VAT rate of a line.
    TaxCategoryPercent,
    /// Tax scheme identifier of a line.
    TaxSchemeId,
    /// Item name of a line.
    ItemName,
    /// Item description of a line.
    ItemDescription,
    /// Sum of the line net amounts, with its currency.
    TotalLineExtensionAmount,
    /// Invoice total without VAT, with its currency.
    TaxExclusiveAmount,
    /// Invoice total with VAT, with its currency.
    TaxInclusiveAmount,
    /// Amount due for payment, with its currency.
    PayableAmount,
    /// Payment means type code.
    PaymentMeansCode,
    /// Payment means text.
    InstructionNote,
    /// Remittance information.
    PaymentId,
    /// Identifier of a payment account; starts a new account.
    PayeeFinancialAccountId,
    /// Seller name.
    RegistrationName,
    /// Additional legal information of the seller.
    CompanyLegalForm,
    /// Electronic address of the seller, with its scheme.
    EndpointId,
    /// Seller address line 1.
    StreetName,
    /// Seller address line 2.
    AdditionalStreetName,
    /// Seller address line 3.
    AddressLine,
    /// Seller city.
    CityName,
    /// Seller post code.
    PostalZone,
    /// Seller country subdivision.
    CountrySubentity,
    /// Seller country code.
    CountryCode,
}

/// The number of bindings in the table.
pub const BINDING_COUNT: usize = 41;

/// The fields of the table, in its order.
pub open spec fn table() -> Seq<Field> {
    seq![
        Field::Id, Field::IssueDate, Field::InvoiceTypeCode, Field::DocumentCurrencyCode,
        Field::TaxCurrencyCode, Field::TaxPointDate, Field::DescriptionCode, Field::DueDate,
        Field::BuyerReference, Field::Note, Field::AccountingCost,
        Field::InvoicePeriodStartDate, Field::InvoicePeriodEndDate, Field::InvoiceLineId,
        Field::InvoicedQuantity, Field::LineExtensionAmount, Field::PriceAmount,
        Field::BaseQuantity, Field::TaxCategoryId, Field::TaxCategoryPercent,
        Field::TaxSchemeId, Field::ItemName, Field::ItemDescription,
        Field::TotalLineExtensionAmount, Field::TaxExclusiveAmount, Field::TaxInclusiveAmount,
        Field::PayableAmount, Field::PaymentMeansCode, Field::InstructionNote, Field::PaymentId,
        Field::PayeeFinancialAccountId, Field::RegistrationName, Field::CompanyLegalForm,
        Field::EndpointId, Field::StreetName, Field::AdditionalStreetName, Field::AddressLine,
        Field::CityName, Field::PostalZone, Field::CountrySubentity, Field::CountryCode,
    ]
}

impl Field {
    /// The field of the `index`-th binding of the table.
    pub open spec fn at(index: int) -> Field {
        table()[index]
    }

    /// The field of the `index`-th binding of the table.
    pub fn nth(index: usize) -> (field: Field)
        requires
            index < BINDING_COUNT,
        ensures
            field == Field::at(index as int),
    {
        match index {
            0 => Field::Id,
            1 => Field::IssueDate,
            2 => Field::InvoiceTypeCode,
            3 => Field::DocumentCurrencyCode,
            4 => Field::TaxCurrencyCode,
            5 => Field::TaxPointDate,
            6 => Field::DescriptionCode,
            7 => Field::DueDate,
            8 => Field::BuyerReference,
            9 => Field::Note,
            10 => Field::AccountingCost,
            11 => Field::InvoicePeriodStartDate,
            12 => Field::InvoicePeriodEndDate,
            13 => Field::InvoiceLineId,
            14 => Field::InvoicedQuantity,
            15 => Field::LineExtensionAmount,
            16 => Field::PriceAmount,
            17 => Field::BaseQuantity,
            18 => Field::TaxCategoryId,
            19 => Field::TaxCategoryPercent,
            20 => Field::TaxSchemeId,
            21 => Field::ItemName,
            22 => Field::ItemDescription,
            23 => Field::TotalLineExtensionAmount,
            24 => Field::TaxExclusiveAmount,
            25 => Field::TaxInclusiveAmount,
            26 => Field::PayableAmount,
            27 => Field::PaymentMeansCode,
            28 => Field::InstructionNote,
            29 => Field::PaymentId,
            30 => Field::PayeeFinancialAccountId,
            31 => Field::RegistrationName,
            32 => Field::CompanyLegalForm,
            33 => Field::EndpointId,
            34 => Field::StreetName,
            35 => Field::AdditionalStreetName,
            36 => Field::AddressLine,
            37 => Field::CityName,
            38 => Field::PostalZone,
            39 => Field::CountrySubentity,
            _ => Field::CountryCode,
        }
    }

    /// The path that the field is bound to.
    pub open spec fn bound_path(self) -> Seq<char> {
        match self {
            Field::Id => "/Invoice/cbc:ID"@,
            Field::IssueDate => "/Invoice/cbc:IssueDate"@,
            Field::InvoiceTypeCode => "/Invoice/cbc:InvoiceTypeCode"@,
            Field::DocumentCurrencyCode => "/Invoice/cbc:DocumentCurrencyCode"@,
            Field::TaxCurrencyCode => "/Invoice/cbc:TaxCurrencyCode"@,
            Field::TaxPointDate => "/Invoice/cbc:TaxPointDate"@,
            Field::DescriptionCode => "/Invoice/cbc:DescriptionCode"@,
            Field::DueDate => "/Invoice/cbc:DueDate"@,
            Field::BuyerReference => "/Invoice/cbc:BuyerReference"@,
            Field::Note => "/Invoice/cbc:Note"@,
            Field::AccountingCost => "/Invoice/cbc:AccountingCost"@,
            Field::InvoicePeriodStartDate => "/Invoice/cac:InvoicePeriod/cbc:StartDate"@,
            Field::InvoicePeriodEndDate => "/Invoice/cac:InvoicePeriod/cbc:EndDate"@,
            Field::InvoiceLineId => "/Invoice/cac:InvoiceLine/cbc:ID"@,
            Field::InvoicedQuantity => "/Invoice/cac:InvoiceLine/cbc:InvoicedQuantity"@,
            Field::LineExtensionAmount => "/Invoice/cac:InvoiceLine/cbc:LineExtensionAmount"@,
            Field::PriceAmount => "/Invoice/cac:InvoiceLine/cac:Price/cbc:PriceAmount"@,
            Field::BaseQuantity => "/Invoice/cac:InvoiceLine/cac:Price/cbc:BaseQuantity"@,
            Field::TaxCategoryId => "/Invoice/cac:InvoiceLine/cac:Item/cac:ClassifiedTaxCategory/cbc:ID"@,
            Field::TaxCategoryPercent => "/Invoice/cac:InvoiceLine/cac:Item/cac:ClassifiedTaxCategory/cbc:Percent"@,
            Field::TaxSchemeId => "/Invoice/cac:InvoiceLine/cac:Item/cac:ClassifiedTaxCategory/cac:TaxScheme/cbc:ID"@,
            Field::ItemName => "/Invoice/cac:InvoiceLine/cac:Item/cbc:Name"@,
            Field::ItemDescription => "/Invoice/cac:InvoiceLine/cac:Item/cbc:Description"@,
            Field::TotalLineExtensionAmount => "/Invoice/cac:LegalMonetaryTotal/cbc:LineExtensionAmount"@,
            Field::TaxExclusiveAmount => "/Invoice/cac:LegalMonetaryTotal/cbc:TaxExclusiveAmount"@,
            Field::TaxInclusiveAmount => "/Invoice/cac:LegalMonetaryTotal/cbc:TaxInclusiveAmount"@,
            Field::PayableAmount => "/Invoice/cac:LegalMonetaryTotal/cbc:PayableAmount"@,
            Field::PaymentMeansCode => "/Invoice/cac:PaymentMeans/cbc:PaymentMeansCode"@,
            Field::InstructionNote => "/Invoice/cac:PaymentMeans/cbc:InstructionNote"@,
            Field::PaymentId => "/Invoice/cac:PaymentMeans/cbc:PaymentID"@,
            Field::PayeeFinancialAccountId => "/Invoice/cac:PaymentMeans/cac:PayeeFinancialAccount/cbc:ID"@,
            Field::RegistrationName => "/Invoice/cac:AccountingSupplierParty/cac:Party/cac:PartyLegalEntity/cbc:RegistrationName"@,
            Field::CompanyLegalForm => "/Invoice/cac:AccountingSupplierParty/cac:Party/cac:PartyLegalEntity/cbc:CompanyLegalForm"@,
            Field::EndpointId => "/Invoice/cac:AccountingSupplierParty/cac:Party/cbc:EndpointID"@,
            Field::StreetName => "/Invoice/cac:AccountingSupplierParty/cac:Party/cac:PostalAddress/cbc:StreetName"@,
            Field::AdditionalStreetName => "/Invoice/cac:AccountingSupplierParty/cac:Party/cac:PostalAddress/cbc:AdditionalStreetName"@,
            Field::AddressLine => "/Invoice/cac:AccountingSupplierParty/cac:Party/cac:PostalAddress/cac:AddressLine/cbc:Line"@,
            Field::CityName => "/Invoice/cac:AccountingSupplierParty/cac:Party/cac:PostalAddress/cbc:CityName"@,
            Field::PostalZone => "/Invoice/cac:AccountingSupplierParty/cac:Party/cac:PostalAddress/cbc:PostalZone"@,
            Field::CountrySubentity => "/Invoice/cac:AccountingSupplierParty/cac:Party/cac:PostalAddress/cbc:CountrySubentity"@,
            Field::CountryCode => "/Invoice/cac:AccountingSupplierParty/cac:Party/cac:PostalAddress/cac:Country/cbc:IdentificationCode"@,
        }
    }

    /// The path that the field is bound to.
    pub fn path(self) -> (path: &'static str)
        ensures
            path@ == self.bound_path(),
    {
        match self {
            Field::Id => "/Invoice/cbc:ID",
            Field::IssueDate => "/Invoice/cbc:IssueDate",
            Field::InvoiceTypeCode => "/Invoice/cbc:InvoiceTypeCode",
            Field::DocumentCurrencyCode => "/Invoice/cbc:DocumentCurrencyCode",
            Field::TaxCurrencyCode => "/Invoice/cbc:TaxCurrencyCode",
            Field::TaxPointDate => "/Invoice/cbc:TaxPointDate",
            Field::DescriptionCode => "/Invoice/cbc:DescriptionCode",
            Field::DueDate => "/Invoice/cbc:DueDate",
            Field::BuyerReference => "/Invoice/cbc:BuyerReference",
            Field::Note => "/Invoice/cbc:Note",
            Field::AccountingCost => "/Invoice/cbc:AccountingCost",
            Field::InvoicePeriodStartDate => "/Invoice/cac:InvoicePeriod/cbc:StartDate",
            Field::InvoicePeriodEndDate => "/Invoice/cac:InvoicePeriod/cbc:EndDate",
            Field::InvoiceLineId => "/Invoice/cac:InvoiceLine/cbc:ID",
            Field::InvoicedQuantity => "/Invoice/cac:InvoiceLine/cbc:InvoicedQuantity",
            Field::LineExtensionAmount => "/Invoice/cac:InvoiceLine/cbc:LineExtensionAmount",
            Field::PriceAmount => "/Invoice/cac:InvoiceLine/cac:Price/cbc:PriceAmount",
            Field::BaseQuantity => "/Invoice/cac:InvoiceLine/cac:Price/cbc:BaseQuantity",
            Field::TaxCategoryId => "/Invoice/cac:InvoiceLine/cac:Item/cac:ClassifiedTaxCategory/cbc:ID",
            Field::TaxCategoryPercent => "/Invoice/cac:InvoiceLine/cac:Item/cac:ClassifiedTaxCategory/cbc:Percent",
            Field::TaxSchemeId => "/Invoice/cac:InvoiceLine/cac:Item/cac:ClassifiedTaxCategory/cac:TaxScheme/cbc:ID",
            Field::ItemName => "/Invoice/cac:InvoiceLine/cac:Item/cbc:Name",
            Field::ItemDescription => "/Invoice/cac:InvoiceLine/cac:Item/cbc:Description",
            Field::TotalLineExtensionAmount => "/Invoice/cac:LegalMonetaryTotal/cbc:LineExtensionAmount",
            Field::TaxExclusiveAmount => "/Invoice/cac:LegalMonetaryTotal/cbc:TaxExclusiveAmount",
            Field::TaxInclusiveAmount => "/Invoice/cac:LegalMonetaryTotal/cbc:TaxInclusiveAmount",
            Field::PayableAmount => "/Invoice/cac:LegalMonetaryTotal/cbc:PayableAmount",
            Field::PaymentMeansCode => "/Invoice/cac:PaymentMeans/cbc:PaymentMeansCode",
            Field::InstructionNote => "/Invoice/cac:PaymentMeans/cbc:InstructionNote",
            Field::PaymentId => "/Invoice/cac:PaymentMeans/cbc:PaymentID",
            Field::PayeeFinancialAccountId => "/Invoice/cac:PaymentMeans/cac:PayeeFinancialAccount/cbc:ID",
            Field::RegistrationName => "/Invoice/cac:AccountingSupplierParty/cac:Party/cac:PartyLegalEntity/cbc:RegistrationName",
            Field::CompanyLegalForm => "/Invoice/cac:AccountingSupplierParty/cac:Party/cac:PartyLegalEntity/cbc:CompanyLegalForm",
            Field::EndpointId => "/Invoice/cac:AccountingSupplierParty/cac:Party/cbc:EndpointID",
            Field::StreetName => "/Invoice/cac:AccountingSupplierParty/cac:Party/cac:PostalAddress/cbc:StreetName",
            Field::AdditionalStreetName => "/Invoice/cac:AccountingSupplierParty/cac:Party/cac:PostalAddress/cbc:AdditionalStreetName",
            Field::AddressLine => "/Invoice/cac:AccountingSupplierParty/cac:Party/cac:PostalAddress/cac:AddressLine/cbc:Line",
            Field::CityName => "/Invoice/cac:AccountingSupplierParty/cac:Party/cac:PostalAddress/cbc:CityName",
            Field::PostalZone => "/Invoice/cac:AccountingSupplierParty/cac:Party/cac:PostalAddress/cbc:PostalZone",
            Field::CountrySubentity => "/Invoice/cac:AccountingSupplierParty/cac:Party/cac:PostalAddress/cbc:CountrySubentity",
            Field::CountryCode => "/Invoice/cac:AccountingSupplierParty/cac:Party/cac:PostalAddress/cac:Country/cbc:IdentificationCode",
        }
    }

    /// The local name of the attribute that is read beside the text, if
    /// the binding reads one.
    pub open spec fn bound_attribute(self) -> Option<Seq<char>> {
        match self {
            Field::InvoicedQuantity | Field::BaseQuantity => Some("unitCode"@),
            Field::TotalLineExtensionAmount | Field::TaxExclusiveAmount
            | Field::TaxInclusiveAmount | Field::PayableAmount => Some("currencyID"@),
            Field::EndpointId => Some("schemeID"@),
            _ => None,
        }
    }

    /// The local name of the attribute that is read beside the text, if
    /// the binding reads one.
    pub fn attribute(self) -> (name: Option<&'static str>)
        ensures
            match name {
                Some(n) => self.bound_attribute() == Some(n@),
                None => self.bound_attribute() is None,
            },
    {
        match self {
            Field::InvoicedQuantity | Field::BaseQuantity => Some("unitCode"),
            Field::TotalLineExtensionAmount | Field::TaxExclusiveAmount
            | Field::TaxInclusiveAmount | Field::PayableAmount => Some("currencyID"),
            Field::EndpointId => Some("schemeID"),
            _ => None,
        }
    }

    /// What the binding does with the text.
    pub open spec fn bound_action(self) -> Action {
        match self {
            Field::InvoicedQuantity | Field::EndpointId => Action::ScalarWithAttribute {
                required: true,
            },
            Field::BaseQuantity | Field::TotalLineExtensionAmount | Field::TaxExclusiveAmount
            | Field::TaxInclusiveAmount | Field::PayableAmount => Action::ScalarWithAttribute {
                required: false,
            },
            Field::Note => Action::CollectionAppend,
            Field::InvoiceLineId | Field::PayeeFinancialAccountId => Action::GroupStart,
            Field::TaxCurrencyCode | Field::TaxPointDate | Field::DescriptionCode
            | Field::DueDate | Field::BuyerReference | Field::AccountingCost
            | Field::InvoicePeriodStartDate | Field::InvoicePeriodEndDate
            | Field::TaxCategoryPercent | Field::TaxSchemeId | Field::ItemDescription
            | Field::InstructionNote | Field::PaymentId | Field::StreetName
            | Field::AdditionalStreetName | Field::AddressLine | Field::CityName
            | Field::PostalZone | Field::CountrySubentity => Action::ScalarOptional,
            _ => Action::ScalarRequired,
        }
    }

    /// What the binding does with the text.
    pub fn action(self) -> (action: Action)
        ensures
            action == self.bound_action(),
    {
        match self {
            Field::InvoicedQuantity | Field::EndpointId => Action::ScalarWithAttribute {
                required: true,
            },
            Field::BaseQuantity | Field::TotalLineExtensionAmount | Field::TaxExclusiveAmount
            | Field::TaxInclusiveAmount | Field::PayableAmount => Action::ScalarWithAttribute {
                required: false,
            },
            Field::Note => Action::CollectionAppend,
            Field::InvoiceLineId | Field::PayeeFinancialAccountId => Action::GroupStart,
            Field::TaxCurrencyCode | Field::TaxPointDate | Field::DescriptionCode
            | Field::DueDate | Field::BuyerReference | Field::AccountingCost
            | Field::InvoicePeriodStartDate | Field::InvoicePeriodEndDate
            | Field::TaxCategoryPercent | Field::TaxSchemeId | Field::ItemDescription
            | Field::InstructionNote | Field::PaymentId | Field::StreetName
            | Field::AdditionalStreetName | Field::AddressLine | Field::CityName
            | Field::PostalZone | Field::CountrySubentity => Action::ScalarOptional,
            _ => Action::ScalarRequired,
        }
    }

    /// The part of the record that the field belongs to.
    pub open spec fn bound_section(self) -> Section {
        match self {
            Field::InvoicedQuantity | Field::LineExtensionAmount | Field::PriceAmount
            | Field::BaseQuantity | Field::TaxCategoryId | Field::TaxCategoryPercent
            | Field::TaxSchemeId | Field::ItemName | Field::ItemDescription => Section::Line,
            Field::TotalLineExtensionAmount | Field::TaxExclusiveAmount
            | Field::TaxInclusiveAmount | Field::PayableAmount => Section::Totals,
            Field::PaymentMeansCode | Field::InstructionNote | Field::PaymentId
            | Field::PayeeFinancialAccountId => Section::Payment,
            Field::RegistrationName | Field::CompanyLegalForm | Field::EndpointId
            | Field::StreetName | Field::AdditionalStreetName | Field::AddressLine
            | Field::CityName | Field::PostalZone | Field::CountrySubentity
            | Field::CountryCode => Section::Supplier,
            _ => Section::Header,
        }
    }

    /// The part of the record that the field belongs to.
    pub fn section(self) -> (section: Section)
        ensures
            section == self.bound_section(),
    {
        match self {
            Field::InvoicedQuantity | Field::LineExtensionAmount | Field::PriceAmount
            | Field::BaseQuantity | Field::TaxCategoryId | Field::TaxCategoryPercent
            | Field::TaxSchemeId | Field::ItemName | Field::ItemDescription => Section::Line,
            Field::TotalLineExtensionAmount | Field::TaxExclusiveAmount
            | Field::TaxInclusiveAmount | Field::PayableAmount => Section::Totals,
            Field::PaymentMeansCode | Field::InstructionNote | Field::PaymentId
            | Field::PayeeFinancialAccountId => Section::Payment,
            Field::RegistrationName | Field::CompanyLegalForm | Field::EndpointId
            | Field::StreetName | Field::AdditionalStreetName | Field::AddressLine
            | Field::CityName | Field::PostalZone | Field::CountrySubentity
            | Field::CountryCode => Section::Supplier,
            _ => Section::Header,
        }
    }

    /// Whether an element without the attribute of the binding is an error.
    pub open spec fn requires_attribute(self) -> bool {
        self.bound_action() == (Action::ScalarWithAttribute { required: true })
    }
}

/// The field of the first binding at or after `from` whose path is `path`.
pub open spec fn binding_from(path: Seq<char>, from: int) -> Option<Field>
    decreases BINDING_COUNT - from,
{
    if from < 0 || from >= BINDING_COUNT {
        None
    } else if Field::at(from).bound_path() == path {
        Some(Field::at(from))
    } else {
        binding_from(path, from + 1)
    }
}

/// The field that the table binds `path` to, if it binds it.
pub open spec fn binding(path: Seq<char>) -> Option<Field> {
    binding_from(path, 0)
}

/// Enough of a path to tell the paths of the table apart: its length and
/// two of its characters.
spec fn mark(path: Seq<char>) -> (nat, char, char) {
    (path.len(), path[path.len() - 2], path[path.len() - 14])
}

/// No two bindings of the table have the same path.
pub proof fn bound_paths_are_distinct(first: Field, second: Field)
    requires
        first != second,
    ensures
        first.bound_path() != second.bound_path(),
{
    assert(mark(first.bound_path()) != mark(second.bound_path())) by {
        lemma_marks_differ(first, second);
    }
}

/// No two bindings of the table have paths with the same mark.
proof fn lemma_marks_differ(first: Field, second: Field)
    requires
        first != second,
    ensures
        mark(first.bound_path()) != mark(second.bound_path()),
{
    reveal_strlit("/Invoice/cbc:ID");
    reveal_strlit("/Invoice/cbc:IssueDate");
    reveal_strlit("/Invoice/cbc:InvoiceTypeCode");
    reveal_strlit("/Invoice/cbc:DocumentCurrencyCode");
    reveal_strlit("/Invoice/cbc:TaxCurrencyCode");
    reveal_strlit("/Invoice/cbc:TaxPointDate");
    reveal_strlit("/Invoice/cbc:DescriptionCode");
    reveal_strlit("/Invoice/cbc:DueDate");
    reveal_strlit("/Invoice/cbc:BuyerReference");
    reveal_strlit("/Invoice/cbc:Note");
    reveal_strlit("/Invoice/cbc:AccountingCost");
    reveal_strlit("/Invoice/cac:InvoicePeriod/cbc:StartDate");
    reveal_strlit("/Invoice/cac:InvoicePeriod/cbc:EndDate");
    reveal_strlit("/Invoice/cac:InvoiceLine/cbc:ID");
    reveal_strlit("/Invoice/cac:InvoiceLine/cbc:InvoicedQuantity");
    reveal_strlit("/Invoice/cac:InvoiceLine/cbc:LineExtensionAmount");
    reveal_strlit("/Invoice/cac:InvoiceLine/cac:Price/cbc:PriceAmount");
    reveal_strlit("/Invoice/cac:InvoiceLine/cac:Price/cbc:BaseQuantity");
    reveal_strlit("/Invoice/cac:InvoiceLine/cac:Item/cac:ClassifiedTaxCategory/cbc:ID");
    reveal_strlit("/Invoice/cac:InvoiceLine/cac:Item/cac:ClassifiedTaxCategory/cbc:Percent");
    reveal_strlit("/Invoice/cac:InvoiceLine/cac:Item/cac:ClassifiedTaxCategory/cac:TaxScheme/cbc:ID");
    reveal_strlit("/Invoice/cac:InvoiceLine/cac:Item/cbc:Name");
    reveal_strlit("/Invoice/cac:InvoiceLine/cac:Item/cbc:Description");
    reveal_strlit("/Invoice/cac:LegalMonetaryTotal/cbc:LineExtensionAmount");
    reveal_strlit("/Invoice/cac:LegalMonetaryTotal/cbc:TaxExclusiveAmount");
    reveal_strlit("/Invoice/cac:LegalMonetaryTotal/cbc:TaxInclusiveAmount");
    reveal_strlit("/Invoice/cac:LegalMonetaryTotal/cbc:PayableAmount");
    reveal_strlit("/Invoice/cac:PaymentMeans/cbc:PaymentMeansCode");
    reveal_strlit("/Invoice/cac:PaymentMeans/cbc:InstructionNote");
    reveal_strlit("/Invoice/cac:PaymentMeans/cbc:PaymentID");
    reveal_strlit("/Invoice/cac:PaymentMeans/cac:PayeeFinancialAccount/cbc:ID");
    reveal_strlit("/Invoice/cac:AccountingSupplierParty/cac:Party/cac:PartyLegalEntity/cbc:RegistrationName");
    reveal_strlit("/Invoice/cac:AccountingSupplierParty/cac:Party/cac:PartyLegalEntity/cbc:CompanyLegalForm");
    reveal_strlit("/Invoice/cac:AccountingSupplierParty/cac:Party/cbc:EndpointID");
    reveal_strlit("/Invoice/cac:AccountingSupplierParty/cac:Party/cac:PostalAddress/cbc:StreetName");
    reveal_strlit("/Invoice/cac:AccountingSupplierParty/cac:Party/cac:PostalAddress/cbc:AdditionalStreetName");
    reveal_strlit("/Invoice/cac:AccountingSupplierParty/cac:Party/cac:PostalAddress/cac:AddressLine/cbc:Line");
    reveal_strlit("/Invoice/cac:AccountingSupplierParty/cac:Party/cac:PostalAddress/cbc:CityName");
    reveal_strlit("/Invoice/cac:AccountingSupplierParty/cac:Party/cac:PostalAddress/cbc:PostalZone");
    reveal_strlit("/Invoice/cac:AccountingSupplierParty/cac:Party/cac:PostalAddress/cbc:CountrySubentity");
    reveal_strlit("/Invoice/cac:AccountingSupplierParty/cac:Party/cac:PostalAddress/cac:Country/cbc:IdentificationCode");
}

/// Every binding of the table is found by its path: none is hidden behind
/// an earlier binding of the same path.
pub proof fn every_binding_is_found(index: int)
    requires
        0 <= index < BINDING_COUNT,
    ensures
        binding(Field::at(index).bound_path()) == Some(Field::at(index)),
{
    lemma_found_from(index, 0);
}

/// The search for the path of the `index`-th binding, begun at or before
/// that binding, ends there.
proof fn lemma_found_from(index: int, from: int)
    requires
        0 <= from <= index < BINDING_COUNT,
    ensures
        binding_from(Field::at(index).bound_path(), from) == Some(Field::at(index)),
    decreases index - from,
{
    if from < index {
        bound_paths_are_distinct(Field::at(from), Field::at(index));
        lemma_found_from(index, from + 1);
    }
}

/// Looks `path` up in the table.
pub fn lookup(path: &str) -> (field: Option<Field>)
    ensures
        field == binding(path@),
{
    let mut index: usize = 0;
    while index < BINDING_COUNT
        invariant
            index <= BINDING_COUNT,
            binding(path@) == binding_from(path@, index as int),
        decreases BINDING_COUNT - index,
    {
        let field = Field::nth(index);
        if same_text(field.path(), path) {
            return Some(field);
        }
        index = index + 1;
    }
    None
}

} // verus!
