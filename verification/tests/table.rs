use invoice_extract::bindings::BINDING_COUNT;
use invoice_extract::{lookup, Action, Field, Section};

#[test]
fn table_has_forty_one_bindings_with_distinct_paths() {
    assert_eq!(BINDING_COUNT, 41);
    for i in 0..BINDING_COUNT {
        for j in 0..i {
            assert_ne!(Field::nth(i).path(), Field::nth(j).path());
            assert_ne!(Field::nth(i), Field::nth(j));
        }
    }
}

#[test]
fn every_bound_path_is_found_again() {
    for i in 0..BINDING_COUNT {
        let field = Field::nth(i);
        assert_eq!(lookup(field.path()), Some(field));
    }
}

#[test]
fn table_starts_with_the_invoice_number_and_ends_with_the_country_code() {
    assert_eq!(Field::nth(0), Field::Id);
    assert_eq!(Field::nth(13), Field::InvoiceLineId);
    assert_eq!(Field::nth(40), Field::CountryCode);
}

#[test]
fn lookup_knows_the_fields_of_interest() {
    assert_eq!(lookup("/Invoice/cbc:ID"), Some(Field::Id));
    assert_eq!(lookup("/Invoice/cbc:Note"), Some(Field::Note));
    assert_eq!(lookup("/Invoice/cac:InvoiceLine/cbc:ID"), Some(Field::InvoiceLineId));
    assert_eq!(
        lookup("/Invoice/cac:InvoiceLine/cbc:LineExtensionAmount"),
        Some(Field::LineExtensionAmount)
    );
    assert_eq!(
        lookup("/Invoice/cac:LegalMonetaryTotal/cbc:LineExtensionAmount"),
        Some(Field::TotalLineExtensionAmount)
    );
    assert_eq!(
        lookup("/Invoice/cac:PaymentMeans/cac:PayeeFinancialAccount/cbc:ID"),
        Some(Field::PayeeFinancialAccountId)
    );
    assert_eq!(
        lookup("/Invoice/cac:InvoiceLine/cac:Item/cac:ClassifiedTaxCategory/cac:TaxScheme/cbc:ID"),
        Some(Field::TaxSchemeId)
    );
    assert_eq!(
        lookup(
            "/Invoice/cac:AccountingSupplierParty/cac:Party/cac:PostalAddress/cac:Country/\
             cbc:IdentificationCode"
        ),
        Some(Field::CountryCode)
    );
}

#[test]
fn lookup_ignores_what_the_table_does_not_hold() {
    assert_eq!(lookup(""), None);
    assert_eq!(lookup("/Invoice"), None);
    assert_eq!(lookup("/Invoice/cbc:UBLVersionID"), None);
    assert_eq!(lookup("/Invoice/cbc:ID/"), None);
    assert_eq!(lookup("Invoice/cbc:ID"), None);
    assert_eq!(lookup("/Invoice/cbc:id"), None);
    assert_eq!(lookup("/Invoice/cac:AccountingCustomerParty/cac:Party/cbc:EndpointID"), None);
}

#[test]
fn actions_follow_the_kind_of_the_field() {
    assert_eq!(Field::Id.action(), Action::ScalarRequired);
    assert_eq!(Field::CountryCode.action(), Action::ScalarRequired);
    assert_eq!(Field::DueDate.action(), Action::ScalarOptional);
    assert_eq!(Field::ItemDescription.action(), Action::ScalarOptional);
    assert_eq!(Field::Note.action(), Action::CollectionAppend);
    assert_eq!(Field::InvoiceLineId.action(), Action::GroupStart);
    assert_eq!(Field::PayeeFinancialAccountId.action(), Action::GroupStart);
    assert_eq!(Field::InvoicedQuantity.action(), Action::ScalarWithAttribute { required: true });
    assert_eq!(Field::EndpointId.action(), Action::ScalarWithAttribute { required: true });
    assert_eq!(Field::BaseQuantity.action(), Action::ScalarWithAttribute { required: false });
    assert_eq!(Field::PayableAmount.action(), Action::ScalarWithAttribute { required: false });
}

#[test]
fn attributes_are_read_where_the_action_says_so() {
    let mut with_attribute: usize = 0;
    for i in 0..BINDING_COUNT {
        let field = Field::nth(i);
        let reads = matches!(field.action(), Action::ScalarWithAttribute { .. });
        assert_eq!(field.attribute().is_some(), reads);
        if reads {
            with_attribute += 1;
        }
    }
    assert_eq!(with_attribute, 7);
    assert_eq!(Field::InvoicedQuantity.attribute(), Some("unitCode"));
    assert_eq!(Field::BaseQuantity.attribute(), Some("unitCode"));
    assert_eq!(Field::TotalLineExtensionAmount.attribute(), Some("currencyID"));
    assert_eq!(Field::TaxExclusiveAmount.attribute(), Some("currencyID"));
    assert_eq!(Field::TaxInclusiveAmount.attribute(), Some("currencyID"));
    assert_eq!(Field::PayableAmount.attribute(), Some("currencyID"));
    assert_eq!(Field::EndpointId.attribute(), Some("schemeID"));
    assert_eq!(Field::Id.attribute(), None);
}

#[test]
fn sections_follow_the_path() {
    let mut lines: usize = 0;
    for i in 0..BINDING_COUNT {
        let field = Field::nth(i);
        let path = field.path();
        let expected = if field == Field::InvoiceLineId {
            Section::Header
        } else if path.starts_with("/Invoice/cac:InvoiceLine/") {
            lines += 1;
            Section::Line
        } else if path.starts_with("/Invoice/cac:LegalMonetaryTotal/") {
            Section::Totals
        } else if path.starts_with("/Invoice/cac:PaymentMeans/") {
            Section::Payment
        } else if path.starts_with("/Invoice/cac:AccountingSupplierParty/") {
            Section::Supplier
        } else {
            Section::Header
        };
        assert_eq!(field.section(), expected);
    }
    assert_eq!(lines, 9);
}
