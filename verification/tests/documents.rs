use invoice_extract::{
    extract, extract_document, main_logic, skip_ubl_extensions, AccountingSupplierParty,
    Attribute, ClassifiedTaxCategory, Event, EventKind, EventStream, ExtractError, InvoiceLine,
    Item, LegalMonetaryTotal, PayeeFinancialAccount, PaymentMeans, PostalAddress, Price, QName,
    XmlData,
};

const ROOT: &str = "<Invoice xmlns=\"urn:invoice\" xmlns:cac=\"urn:cac\" \
    xmlns:cbc=\"urn:cbc\" xmlns:ext=\"urn:ext\">";

const EXTENSIONS: &str = "<ext:UBLExtensions><ext:UBLExtension><ext:ExtensionContent>\
    <cbc:ID>signature</cbc:ID>\
    </ext:ExtensionContent></ext:UBLExtension></ext:UBLExtensions>";

const FULL: &str = r#"<?xml version="1.0" encoding="UTF-8"?>
<Invoice xmlns="urn:invoice" xmlns:cac="urn:cac" xmlns:cbc="urn:cbc" xmlns:ext="urn:ext">
  <ext:UBLExtensions>
    <ext:UBLExtension>
      <ext:ExtensionContent>
        <cbc:ID>signature</cbc:ID>
        <cbc:Note>not a note</cbc:Note>
      </ext:ExtensionContent>
    </ext:UBLExtension>
  </ext:UBLExtensions>
  <cbc:UBLVersionID>2.1</cbc:UBLVersionID>
  <cbc:ID> 2024-0042 </cbc:ID>
  <cbc:IssueDate>2024-01-31</cbc:IssueDate>
  <cbc:DueDate>2024-02-29</cbc:DueDate>
  <cbc:InvoiceTypeCode>380</cbc:InvoiceTypeCode>
  <cbc:Note>
    Thank you &amp; goodbye
  </cbc:Note>
  <cbc:TaxPointDate>2024-01-30</cbc:TaxPointDate>
  <cbc:DocumentCurrencyCode>EUR</cbc:DocumentCurrencyCode>
  <cbc:TaxCurrencyCode>HRK</cbc:TaxCurrencyCode>
  <cbc:AccountingCost>4217</cbc:AccountingCost>
  <cbc:BuyerReference>PO-9</cbc:BuyerReference>
  <cac:InvoicePeriod>
    <cbc:StartDate>2024-01-01</cbc:StartDate>
    <cbc:EndDate>2024-01-31</cbc:EndDate>
    <cbc:DescriptionCode>35</cbc:DescriptionCode>
  </cac:InvoicePeriod>
  <cbc:DescriptionCode>3</cbc:DescriptionCode>
  <cac:AccountingSupplierParty>
    <cac:Party>
      <cbc:EndpointID schemeID="9934">12345678901</cbc:EndpointID>
      <cac:PostalAddress>
        <cbc:StreetName>Ilica 1</cbc:StreetName>
        <cbc:AdditionalStreetName>2. kat</cbc:AdditionalStreetName>
        <cbc:CityName>Zagreb</cbc:CityName>
        <cbc:PostalZone>10000</cbc:PostalZone>
        <cbc:CountrySubentity>Grad Zagreb</cbc:CountrySubentity>
        <cac:AddressLine>
          <cbc:Line>Ulaz B</cbc:Line>
        </cac:AddressLine>
        <cac:Country>
          <cbc:IdentificationCode>HR</cbc:IdentificationCode>
        </cac:Country>
      </cac:PostalAddress>
      <cac:PartyLegalEntity>
        <cbc:RegistrationName>Vijak d.o.o.</cbc:RegistrationName>
        <cbc:CompanyLegalForm>d.o.o.</cbc:CompanyLegalForm>
      </cac:PartyLegalEntity>
    </cac:Party>
  </cac:AccountingSupplierParty>
  <cac:AccountingCustomerParty>
    <cac:Party>
      <cbc:EndpointID schemeID="9934">98765432109</cbc:EndpointID>
    </cac:Party>
  </cac:AccountingCustomerParty>
  <cac:PaymentMeans>
    <cbc:PaymentMeansCode>30</cbc:PaymentMeansCode>
    <cbc:InstructionNote>Virman</cbc:InstructionNote>
    <cbc:PaymentID>HR00 2024-0042</cbc:PaymentID>
    <cac:PayeeFinancialAccount>
      <cbc:ID>HR1210010051863000160</cbc:ID>
    </cac:PayeeFinancialAccount>
  </cac:PaymentMeans>
  <cac:LegalMonetaryTotal>
    <cbc:LineExtensionAmount currencyID="EUR">100.00</cbc:LineExtensionAmount>
    <cbc:TaxExclusiveAmount currencyID="EUR">100.00</cbc:TaxExclusiveAmount>
    <cbc:TaxInclusiveAmount currencyID="EUR">125.00</cbc:TaxInclusiveAmount>
    <cbc:PayableAmount currencyID="EUR">125.00</cbc:PayableAmount>
  </cac:LegalMonetaryTotal>
  <cac:InvoiceLine>
    <cbc:ID>1</cbc:ID>
    <cbc:InvoicedQuantity unitCode="H87">1000</cbc:InvoicedQuantity>
    <cbc:LineExtensionAmount currencyID="EUR">100.00</cbc:LineExtensionAmount>
    <cac:Item>
      <cbc:Description>Vijak M6 pocinčani</cbc:Description>
      <cbc:Name>Vijak M6</cbc:Name>
      <cac:ClassifiedTaxCategory>
        <cbc:ID>S</cbc:ID>
        <cbc:Percent>25</cbc:Percent>
        <cac:TaxScheme>
          <cbc:ID>VAT</cbc:ID>
        </cac:TaxScheme>
      </cac:ClassifiedTaxCategory>
    </cac:Item>
    <cac:Price>
      <cbc:PriceAmount currencyID="EUR">0.10</cbc:PriceAmount>
      <cbc:BaseQuantity unitCode="H87">1</cbc:BaseQuantity>
    </cac:Price>
  </cac:InvoiceLine>
</Invoice>
"#;

fn some(text: &str) -> Option<String> {
    Some(text.to_string())
}

fn extract_text(document: &str) -> Result<XmlData, ExtractError> {
    let mut stream = EventStream::from_bytes(document.as_bytes());
    extract(&mut stream)
}

fn with_body(body: &str) -> String {
    format!("{}{}{}</Invoice>", ROOT, EXTENSIONS, body)
}

fn all_events(document: &str) -> Vec<Event> {
    let mut stream = EventStream::from_bytes(document.as_bytes());
    let mut seen = Vec::new();
    while let Some(event) = stream.peek() {
        seen.push(match event {
            Event::StartElement { name, attributes } => Event::StartElement {
                name: QName { prefix: name.prefix.clone(), local_name: name.local_name.clone() },
                attributes: attributes
                    .iter()
                    .map(|a| Attribute {
                        local_name: a.local_name.clone(),
                        value: a.value.clone(),
                    })
                    .collect(),
            },
            Event::EndElement { name } => Event::EndElement {
                name: QName { prefix: name.prefix.clone(), local_name: name.local_name.clone() },
            },
            Event::Characters(text) => Event::Characters(text.clone()),
            Event::EndDocument => Event::EndDocument,
            Event::Other => Event::Other,
        });
        stream.advance();
    }
    seen
}

#[test]
fn bytes_become_events_in_document_order() {
    let events =
        all_events("<a xmlns:p=\"urn:p\"><p:b k=\"v\" p:l=\"w\"> t </p:b><!-- c --><c/>\n</a>");
    let kinds: Vec<EventKind> = events.iter().map(|e| e.kind()).collect();
    assert_eq!(
        kinds,
        vec![
            EventKind::Other,
            EventKind::ElementOpen,
            EventKind::ElementOpen,
            EventKind::Text,
            EventKind::ElementClose,
            EventKind::ElementOpen,
            EventKind::ElementClose,
            EventKind::Other,
            EventKind::ElementClose,
            EventKind::DocumentEnd,
        ]
    );
    assert_eq!(
        events[1],
        Event::StartElement {
            name: QName { prefix: None, local_name: "a".to_string() },
            attributes: Vec::new()
        }
    );
    assert_eq!(
        events[2],
        Event::StartElement {
            name: QName { prefix: some("p"), local_name: "b".to_string() },
            attributes: vec![
                Attribute { local_name: "k".to_string(), value: "v".to_string() },
                Attribute { local_name: "l".to_string(), value: "w".to_string() },
            ]
        }
    );
    assert_eq!(events[3], Event::Characters(" t ".to_string()));
    assert_eq!(
        events[4],
        Event::EndElement { name: QName { prefix: some("p"), local_name: "b".to_string() } }
    );
}

#[test]
fn a_document_that_is_not_well_formed_has_no_end() {
    let events = all_events("<a><b>t</a>");
    assert!(!events.is_empty());
    assert!(events.iter().all(|e| e.kind() != EventKind::DocumentEnd));
    let events = all_events("<a><b>t</b>");
    assert!(events.iter().all(|e| e.kind() != EventKind::DocumentEnd));
    let events = all_events("");
    assert!(events.iter().all(|e| e.kind() != EventKind::DocumentEnd));
}

#[test]
fn the_end_of_the_document_is_the_last_event() {
    for document in [FULL, "<a/>", "<a>t</a><!-- c -->\n"] {
        let events = all_events(document);
        let ends = events.iter().filter(|e| e.kind() == EventKind::DocumentEnd).count();
        assert_eq!(ends, 1);
        assert_eq!(events.last(), Some(&Event::EndDocument));
    }
}

#[test]
fn full_invoice_is_extracted_field_by_field() {
    let data = extract_text(FULL).unwrap();
    let expected = XmlData {
        id: "2024-0042".to_string(),
        issue_date: "2024-01-31".to_string(),
        invoice_type_code: "380".to_string(),
        document_currency_code: "EUR".to_string(),
        tax_currency_code: some("HRK"),
        tax_point_date: some("2024-01-30"),
        description_code: some("3"),
        due_date: some("2024-02-29"),
        buyer_reference: some("PO-9"),
        accounting_cost: some("4217"),
        invoice_period_state_date: some("2024-01-01"),
        invoice_period_end_date: some("2024-01-31"),
        notes: vec!["Thank you & goodbye".to_string()],
        legal_monetary_total: LegalMonetaryTotal {
            line_extension_amount: "100.00".to_string(),
            line_extension_amount_currency_id: some("EUR"),
            tax_exclusive_amount: "100.00".to_string(),
            tax_exclusive_amount_currency_id: some("EUR"),
            tax_inclusive_amount: "125.00".to_string(),
            tax_inclusive_amount_currency_id: some("EUR"),
            payable_amount: "125.00".to_string(),
            payable_amount_currency_id: some("EUR"),
        },
        payment_means: Some(PaymentMeans {
            payment_means_code: "30".to_string(),
            instruction_note: some("Virman"),
            payment_id: some("HR00 2024-0042"),
            payee_financial_accounts: vec![PayeeFinancialAccount {
                id: "HR1210010051863000160".to_string(),
            }],
        }),
        accounting_supplier_party: AccountingSupplierParty {
            registration_name: "Vijak d.o.o.".to_string(),
            company_legal_form: "d.o.o.".to_string(),
            endpoint_id: "12345678901".to_string(),
            endpoint_id_scheme_id: "9934".to_string(),
            postal_address: PostalAddress {
                street_name: some("Ilica 1"),
                additional_street_name: some("2. kat"),
                line: some("Ulaz B"),
                city_name: some("Zagreb"),
                postal_zone: some("10000"),
                country_subentity: some("Grad Zagreb"),
                identification_code: "HR".to_string(),
            },
        },
        accounting_customer_party: Default::default(),
        invoice_lines: vec![InvoiceLine {
            id: "1".to_string(),
            invoiced_quantity: "1000".to_string(),
            invoiced_quantity_unit_code: "H87".to_string(),
            line_extension_amount: "100.00".to_string(),
            price: Price {
                price_amount: "0.10".to_string(),
                base_quantity: some("1"),
                base_quantity_unit_code: some("H87"),
            },
            item: Item {
                name: "Vijak M6".to_string(),
                description: some("Vijak M6 pocinčani"),
                classified_tax_category: ClassifiedTaxCategory {
                    id: "S".to_string(),
                    percent: some("25"),
                    tax_scheme_id: some("VAT"),
                },
            },
        }],
        current_path: Vec::new(),
    };
    assert_eq!(data, expected);
}

#[test]
fn document_is_extracted_as_its_events_are() {
    for document in [FULL, "<a/>", "", "<Invoice>"] {
        assert_eq!(extract_document(document.as_bytes()), extract_text(document));
    }
    assert_eq!(extract_document(FULL.as_bytes()).unwrap().id, "2024-0042");
}

#[test]
fn extraction_reads_the_stream_to_its_end() {
    let mut stream = EventStream::from_bytes(FULL.as_bytes());
    assert!(extract(&mut stream).is_ok());
    assert_eq!(stream.peek(), None);
}

#[test]
fn extraction_twice_gives_equal_records() {
    let first = extract_document(FULL.as_bytes());
    let second = extract_document(FULL.as_bytes());
    assert!(first.is_ok());
    assert_eq!(first, second);
    assert_eq!(extract_text(FULL), first);
    let broken = with_body("<cbc:ID></cbc:ID>");
    assert!(extract_text(&broken).is_err());
    assert_eq!(extract_text(&broken), extract_text(&broken));
}

#[test]
fn minimal_document_has_a_blank_record() {
    let data = extract_text(&with_body("")).unwrap();
    assert_eq!(data, XmlData::default());
    assert_eq!(data.id, "");
    assert_eq!(data.due_date, None);
    assert_eq!(data.payment_means, None);
    assert!(data.notes.is_empty());
    assert!(data.invoice_lines.is_empty());
}

#[test]
fn two_lines_document() {
    let body = "<cac:InvoiceLine><cbc:ID>line-1</cbc:ID>\
        <cbc:InvoicedQuantity unitCode=\"H87\"> 3 </cbc:InvoicedQuantity>\
        <cbc:LineExtensionAmount>30.00</cbc:LineExtensionAmount></cac:InvoiceLine>\
        <cac:InvoiceLine><cbc:ID>line-2</cbc:ID>\
        <cbc:LineExtensionAmount>20.00</cbc:LineExtensionAmount></cac:InvoiceLine>";
    let data = extract_text(&with_body(body)).unwrap();
    assert_eq!(data.invoice_lines.len(), 2);
    let first = &data.invoice_lines[0];
    assert_eq!(first.id, "line-1");
    assert_eq!(first.invoiced_quantity, "3");
    assert_eq!(first.invoiced_quantity_unit_code, "H87");
    assert_eq!(first.line_extension_amount, "30.00");
    let second = &data.invoice_lines[1];
    assert_eq!(second.id, "line-2");
    assert_eq!(second.invoiced_quantity, "");
    assert_eq!(second.invoiced_quantity_unit_code, "");
    assert_eq!(second.line_extension_amount, "20.00");
    let mut expected_second = InvoiceLine::default();
    expected_second.id = "line-2".to_string();
    expected_second.line_extension_amount = "20.00".to_string();
    assert_eq!(*second, expected_second);
}

#[test]
fn document_without_the_extension_block_is_a_premature_end() {
    let document = format!("{}<cbc:ID>7</cbc:ID><cbc:Note>n</cbc:Note></Invoice>", ROOT);
    assert_eq!(extract_text(&document), Err(ExtractError::PrematureEnd { path: String::new() }));
    let mut stream = EventStream::from_bytes(document.as_bytes());
    let mut data = XmlData::default();
    assert!(skip_ubl_extensions(&mut stream, &mut data).is_err());
    assert_eq!(data, XmlData::default());
}

#[test]
fn nested_block_of_the_same_name_is_skipped_with_the_outer_block() {
    let document = format!(
        "{}<ext:UBLExtensions><ext:UBLExtension><ext:UBLExtensions><cbc:ID>inner</cbc:ID>\
         </ext:UBLExtensions><cbc:Note>still inside</cbc:Note></ext:UBLExtension>\
         </ext:UBLExtensions><cbc:ID>outer</cbc:ID></Invoice>",
        ROOT
    );
    let mut stream = EventStream::from_bytes(document.as_bytes());
    let mut data = XmlData::default();
    assert_eq!(skip_ubl_extensions(&mut stream, &mut data), Ok(()));
    assert_eq!(data.path(), "/Invoice");
    assert_eq!(
        stream.peek(),
        Some(&Event::StartElement {
            name: QName { prefix: some("cbc"), local_name: "ID".to_string() },
            attributes: Vec::new()
        })
    );
    assert_eq!(main_logic(&mut stream, &mut data), Ok(()));
    let mut expected = XmlData::default();
    expected.id = "outer".to_string();
    assert_eq!(data, expected);
}

#[test]
fn block_is_found_at_any_depth() {
    let document = format!(
        "{}<cac:Wrapper>{}<cbc:ID>deep</cbc:ID></cac:Wrapper><cbc:ID>7</cbc:ID></Invoice>",
        ROOT, EXTENSIONS
    );
    let data = extract_text(&document).unwrap();
    assert_eq!(data.id, "7");
}

#[test]
fn what_stands_before_the_block_is_not_extracted() {
    let document = format!(
        "{}<cbc:ID>early</cbc:ID>{}<cbc:IssueDate>2024-01-31</cbc:IssueDate></Invoice>",
        ROOT, EXTENSIONS
    );
    let data = extract_text(&document).unwrap();
    assert_eq!(data.id, "");
    assert_eq!(data.issue_date, "2024-01-31");
}

#[test]
fn unknown_elements_change_nothing() {
    let plain = extract_text(&with_body("<cbc:ID>7</cbc:ID>")).unwrap();
    let noisy = extract_text(&with_body(
        "<cbc:CustomizationID>urn:x</cbc:CustomizationID><!-- c --><cbc:ID>7</cbc:ID>\
         <cac:OrderReference><cbc:ID>PO</cbc:ID></cac:OrderReference><cbc:Unknown/>\n",
    ))
    .unwrap();
    assert_eq!(noisy, plain);
}

#[test]
fn optional_attribute_may_be_missing_in_a_document() {
    let data = extract_text(&with_body(
        "<cac:LegalMonetaryTotal><cbc:PayableAmount>125.00</cbc:PayableAmount>\
         </cac:LegalMonetaryTotal>",
    ))
    .unwrap();
    assert_eq!(data.legal_monetary_total.payable_amount, "125.00");
    assert_eq!(data.legal_monetary_total.payable_amount_currency_id, None);
}

#[test]
fn required_attribute_must_stand_in_the_document() {
    let result = extract_text(&with_body(
        "<cac:AccountingSupplierParty><cac:Party><cbc:EndpointID>1</cbc:EndpointID>\
         </cac:Party></cac:AccountingSupplierParty>",
    ));
    assert_eq!(
        result,
        Err(ExtractError::MissingAttribute {
            path: "/Invoice/cac:AccountingSupplierParty/cac:Party/cbc:EndpointID".to_string(),
            attribute: "schemeID".to_string()
        })
    );
}

#[test]
fn attribute_is_found_by_its_local_name() {
    let data = extract_text(&with_body(
        "<cac:InvoiceLine><cbc:ID>1</cbc:ID>\
         <cbc:InvoicedQuantity cbc:unitCode=\"KGM\">2</cbc:InvoicedQuantity></cac:InvoiceLine>",
    ))
    .unwrap();
    assert_eq!(data.invoice_lines[0].invoiced_quantity_unit_code, "KGM");
}

#[test]
fn empty_bound_element_is_a_missing_text() {
    assert_eq!(
        extract_text(&with_body("<cbc:ID/>")),
        Err(ExtractError::MissingText {
            path: "/Invoice/cbc:ID".to_string(),
            found: EventKind::ElementClose
        })
    );
    assert_eq!(
        extract_text(&with_body("<cbc:Note>  </cbc:Note>")),
        Err(ExtractError::MissingText {
            path: "/Invoice/cbc:Note".to_string(),
            found: EventKind::Other
        })
    );
    assert_eq!(
        extract_text(&with_body("<cbc:Note><b>bold</b></cbc:Note>")),
        Err(ExtractError::MissingText {
            path: "/Invoice/cbc:Note".to_string(),
            found: EventKind::ElementOpen
        })
    );
}

#[test]
fn line_field_outside_a_line_is_an_error_in_a_document() {
    assert_eq!(
        extract_text(&with_body(
            "<cac:InvoiceLine><cbc:LineExtensionAmount>1</cbc:LineExtensionAmount>\
             <cbc:ID>1</cbc:ID></cac:InvoiceLine>"
        )),
        Err(ExtractError::FieldOutsideGroup {
            path: "/Invoice/cac:InvoiceLine/cbc:LineExtensionAmount".to_string()
        })
    );
}

#[test]
fn truncated_document_is_a_premature_end() {
    let cut = format!("{}{}<cbc:ID>7</cbc:ID><cac:InvoiceLine>", ROOT, EXTENSIONS);
    assert_eq!(
        extract_text(&cut),
        Err(ExtractError::PrematureEnd { path: "/Invoice/cac:InvoiceLine".to_string() })
    );
    let inside_block = format!("{}<ext:UBLExtensions><ext:UBLExtension>", ROOT);
    assert_eq!(
        extract_text(&inside_block),
        Err(ExtractError::PrematureEnd {
            path: "/Invoice/ext:UBLExtensions/ext:UBLExtension".to_string()
        })
    );
    assert_eq!(extract_text(""), Err(ExtractError::PrematureEnd { path: String::new() }));
}

#[test]
fn record_is_whole_or_absent() {
    let result = extract_text(&with_body("<cbc:ID>7</cbc:ID><cbc:Note/>"));
    assert!(matches!(result, Err(ExtractError::MissingText { .. })));
}
