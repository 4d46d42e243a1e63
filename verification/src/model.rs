//! The document model: the typed, nested record that extraction fills.
//!
//! Every record has a view, a ghost record of the same shape that holds
//! sequences of characters in place of strings. Contracts speak of views.
//! A fresh record is blank: texts are empty, optional fields are absent and
//! collections have no member.

use vstd::prelude::*;

verus! {

/// The buyer (BG-7). No field of it is extracted yet.
#[derive(Debug, PartialEq, Eq)]
pub struct AccountingCustomerParty {}

/// The view of [`AccountingCustomerParty`].
#[verifier::ext_equal]
pub struct AccountingCustomerPartyView {}

impl AccountingCustomerPartyView {
    /// The view of a fresh record.
    pub open spec fn blank() -> AccountingCustomerPartyView {
        AccountingCustomerPartyView {}
    }
}

impl View for AccountingCustomerParty {
    type V = AccountingCustomerPartyView;

    open spec fn view(&self) -> AccountingCustomerPartyView {
        AccountingCustomerPartyView {}
    }
}

impl DeepView for AccountingCustomerParty {
    type V = AccountingCustomerPartyView;

    open spec fn deep_view(&self) -> AccountingCustomerPartyView {
        self@
    }
}

impl Default for AccountingCustomerParty {
    fn default() -> (r: AccountingCustomerParty)
        ensures
            r@ == AccountingCustomerPartyView::blank(),
    {
        AccountingCustomerParty {}
    }
}

/// The seller's postal address (BG-5).
#[derive(Debug, PartialEq, Eq)]
pub struct PostalAddress {
    /// Address line 1 (BT-35).
    pub street_name: Option<String>,
    /// Address line 2 (BT-36).
    pub additional_street_name: Option<String>,
    /// Address line 3 (BT-162).
    pub line: Option<String>,
    /// City (BT-37).
    pub city_name: Option<String>,
    /// Post code (BT-38).
    pub postal_zone: Option<String>,
    /// Country subdivision (BT-39).
    pub country_subentity: Option<String>,
    /// Country code (BT-40).
    pub identification_code: String,
}

/// The view of [`PostalAddress`].
#[verifier::ext_equal]
pub struct PostalAddressView {
    pub street_name: Option<Seq<char>>,
    pub additional_street_name: Option<Seq<char>>,
    pub line: Option<Seq<char>>,
    pub city_name: Option<Seq<char>>,
    pub postal_zone: Option<Seq<char>>,
    pub country_subentity: Option<Seq<char>>,
    pub identification_code: Seq<char>,
}

impl PostalAddressView {
    /// The view of a fresh record.
    pub open spec fn blank() -> PostalAddressView {
        PostalAddressView {
            street_name: None,
            additional_street_name: None,
            line: None,
            city_name: None,
            postal_zone: None,
            country_subentity: None,
            identification_code: Seq::empty(),
        }
    }
}

impl View for PostalAddress {
    type V = PostalAddressView;

    open spec fn view(&self) -> PostalAddressView {
        PostalAddressView {
            street_name: self.street_name.deep_view(),
            additional_street_name: self.additional_street_name.deep_view(),
            line: self.line.deep_view(),
            city_name: self.city_name.deep_view(),
            postal_zone: self.postal_zone.deep_view(),
            country_subentity: self.country_subentity.deep_view(),
            identification_code: self.identification_code@,
        }
    }
}

impl DeepView for PostalAddress {
    type V = PostalAddressView;

    open spec fn deep_view(&self) -> PostalAddressView {
        self@
    }
}

impl Default for PostalAddress {
    fn default() -> (r: PostalAddress)
        ensures
            r@ == PostalAddressView::blank(),
    {
        PostalAddress {
            street_name: None,
            additional_street_name: None,
            line: None,
            city_name: None,
            postal_zone: None,
            country_subentity: None,
            identification_code: String::new(),
        }
    }
}

/// The seller (BG-4).
#[derive(Debug, PartialEq, Eq)]
pub struct AccountingSupplierParty {
    /// Seller name (BT-27).
    pub registration_name: String,
    /// Additional legal information (BT-33).
    pub company_legal_form: String,
    /// Electronic address (BT-34).
    pub endpoint_id: String,
    /// Scheme identifier of the electronic address (BT-34).
    pub endpoint_id_scheme_id: String,
    /// Postal address (BG-5).
    pub postal_address: PostalAddress,
}

/// The view of [`AccountingSupplierParty`].
#[verifier::ext_equal]
pub struct AccountingSupplierPartyView {
    pub registration_name: Seq<char>,
    pub company_legal_form: Seq<char>,
    pub endpoint_id: Seq<char>,
    pub endpoint_id_scheme_id: Seq<char>,
    pub postal_address: PostalAddressView,
}

impl AccountingSupplierPartyView {
    /// The view of a fresh record.
    pub open spec fn blank() -> AccountingSupplierPartyView {
        AccountingSupplierPartyView {
            registration_name: Seq::empty(),
            company_legal_form: Seq::empty(),
            endpoint_id: Seq::empty(),
            endpoint_id_scheme_id: Seq::empty(),
            postal_address: PostalAddressView::blank(),
        }
    }
}

impl View for AccountingSupplierParty {
    type V = AccountingSupplierPartyView;

    open spec fn view(&self) -> AccountingSupplierPartyView {
        AccountingSupplierPartyView {
            registration_name: self.registration_name@,
            company_legal_form: self.company_legal_form@,
            endpoint_id: self.endpoint_id@,
            endpoint_id_scheme_id: self.endpoint_id_scheme_id@,
            postal_address: self.postal_address@,
        }
    }
}

impl DeepView for AccountingSupplierParty {
    type V = AccountingSupplierPartyView;

    open spec fn deep_view(&self) -> AccountingSupplierPartyView {
        self@
    }
}

impl Default for AccountingSupplierParty {
    fn default() -> (r: AccountingSupplierParty)
        ensures
            r@ == AccountingSupplierPartyView::blank(),
    {
        AccountingSupplierParty {
            registration_name: String::new(),
            company_legal_form: String::new(),
            endpoint_id: String::new(),
            endpoint_id_scheme_id: String::new(),
            postal_address: PostalAddress::default(),
        }
    }
}

/// A credit transfer account (BG-17).
#[derive(Debug, PartialEq, Eq)]
pub struct PayeeFinancialAccount {
    /// Payment account identifier (BT-84).
    pub id: String,
}

/// The view of [`PayeeFinancialAccount`].
#[verifier::ext_equal]
pub struct PayeeFinancialAccountView {
    pub id: Seq<char>,
}

impl PayeeFinancialAccountView {
    /// The view of a fresh record.
    pub open spec fn blank() -> PayeeFinancialAccountView {
        PayeeFinancialAccountView {
            id: Seq::empty(),
        }
    }
}

impl View for PayeeFinancialAccount {
    type V = PayeeFinancialAccountView;

    open spec fn view(&self) -> PayeeFinancialAccountView {
        PayeeFinancialAccountView {
            id: self.id@,
        }
    }
}

impl DeepView for PayeeFinancialAccount {
    type V = PayeeFinancialAccountView;

    open spec fn deep_view(&self) -> PayeeFinancialAccountView {
        self@
    }
}

impl Default for PayeeFinancialAccount {
    fn default() -> (r: PayeeFinancialAccount)
        ensures
            r@ == PayeeFinancialAccountView::blank(),
    {
        PayeeFinancialAccount {
            id: String::new(),
        }
    }
}

/// Payment instructions (BG-16).
#[derive(Debug, PartialEq, Eq)]
pub struct PaymentMeans {
    /// Payment means type code (BT-81).
    pub payment_means_code: String,
    /// Payment means text (BT-82).
    pub instruction_note: Option<String>,
    /// Remittance information (BT-83).
    pub payment_id: Option<String>,
    /// Credit transfer accounts (BG-17), in document order.
    pub payee_financial_accounts: Vec<PayeeFinancialAccount>,
}

/// The view of [`PaymentMeans`].
#[verifier::ext_equal]
pub struct PaymentMeansView {
    pub payment_means_code: Seq<char>,
    pub instruction_note: Option<Seq<char>>,
    pub payment_id: Option<Seq<char>>,
    pub payee_financial_accounts: Seq<PayeeFinancialAccountView>,
}

impl PaymentMeansView {
    /// The view of a fresh record.
    pub open spec fn blank() -> PaymentMeansView {
        PaymentMeansView {
            payment_means_code: Seq::empty(),
            instruction_note: None,
            payment_id: None,
            payee_financial_accounts: Seq::empty(),
        }
    }
}

impl View for PaymentMeans {
    type V = PaymentMeansView;

    open spec fn view(&self) -> PaymentMeansView {
        PaymentMeansView {
            payment_means_code: self.payment_means_code@,
            instruction_note: self.instruction_note.deep_view(),
            payment_id: self.payment_id.deep_view(),
            payee_financial_accounts: self.payee_financial_accounts.deep_view(),
        }
    }
}

impl DeepView for PaymentMeans {
    type V = PaymentMeansView;

    open spec fn deep_view(&self) -> PaymentMeansView {
        self@
    }
}

impl Default for PaymentMeans {
    fn default() -> (r: PaymentMeans)
        ensures
            r@ == PaymentMeansView::blank(),
    {
        PaymentMeans {
            payment_means_code: String::new(),
            instruction_note: None,
            payment_id: None,
            payee_financial_accounts: Vec::new(),
        }
    }
}

/// Document totals (BG-22).
#[derive(Debug, PartialEq, Eq)]
pub struct LegalMonetaryTotal {
    /// Sum of the invoice line net amounts (BT-106).
    pub line_extension_amount: String,
    /// Currency of the sum of line net amounts.
    pub line_extension_amount_currency_id: Option<String>,
    /// Invoice total without VAT (BT-109).
    pub tax_exclusive_amount: String,
    /// Currency of the total without VAT.
    pub tax_exclusive_amount_currency_id: Option<String>,
    /// Invoice total with VAT (BT-112).
    pub tax_inclusive_amount: String,
    /// Currency of the total with VAT.
    pub tax_inclusive_amount_currency_id: Option<String>,
    /// Amount due for payment (BT-115).
    pub payable_amount: String,
    /// Currency of the amount due.
    pub payable_amount_currency_id: Option<String>,
}

/// The view of [`LegalMonetaryTotal`].
#[verifier::ext_equal]
pub struct LegalMonetaryTotalView {
    pub line_extension_amount: Seq<char>,
    pub line_extension_amount_currency_id: Option<Seq<char>>,
    pub tax_exclusive_amount: Seq<char>,
    pub tax_exclusive_amount_currency_id: Option<Seq<char>>,
    pub tax_inclusive_amount: Seq<char>,
    pub tax_inclusive_amount_currency_id: Option<Seq<char>>,
    pub payable_amount: Seq<char>,
    pub payable_amount_currency_id: Option<Seq<char>>,
}

impl LegalMonetaryTotalView {
    /// The view of a fresh record.
    pub open spec fn blank() -> LegalMonetaryTotalView {
        LegalMonetaryTotalView {
            line_extension_amount: Seq::empty(),
            line_extension_amount_currency_id: None,
            tax_exclusive_amount: Seq::empty(),
            tax_exclusive_amount_currency_id: None,
            tax_inclusive_amount: Seq::empty(),
            tax_inclusive_amount_currency_id: None,
            payable_amount: Seq::empty(),
            payable_amount_currency_id: None,
        }
    }
}

impl View for LegalMonetaryTotal {
    type V = LegalMonetaryTotalView;

    open spec fn view(&self) -> LegalMonetaryTotalView {
        LegalMonetaryTotalView {
            line_extension_amount: self.line_extension_amount@,
            line_extension_amount_currency_id: self.line_extension_amount_currency_id.deep_view(),
            tax_exclusive_amount: self.tax_exclusive_amount@,
            tax_exclusive_amount_currency_id: self.tax_exclusive_amount_currency_id.deep_view(),
            tax_inclusive_amount: self.tax_inclusive_amount@,
            tax_inclusive_amount_currency_id: self.tax_inclusive_amount_currency_id.deep_view(),
            payable_amount: self.payable_amount@,
            payable_amount_currency_id: self.payable_amount_currency_id.deep_view(),
        }
    }
}

impl DeepView for LegalMonetaryTotal {
    type V = LegalMonetaryTotalView;

    open spec fn deep_view(&self) -> LegalMonetaryTotalView {
        self@
    }
}

impl Default for LegalMonetaryTotal {
    fn default() -> (r: LegalMonetaryTotal)
        ensures
            r@ == LegalMonetaryTotalView::blank(),
    {
        LegalMonetaryTotal {
            line_extension_amount: String::new(),
            line_extension_amount_currency_id: None,
            tax_exclusive_amount: String::new(),
            tax_exclusive_amount_currency_id: None,
            tax_inclusive_amount: String::new(),
            tax_inclusive_amount_currency_id: None,
            payable_amount: String::new(),
            payable_amount_currency_id: None,
        }
    }
}

/// VAT information of a line (BG-30).
#[derive(Debug, PartialEq, Eq)]
pub struct ClassifiedTaxCategory {
    /// VAT category code (BT-151).
    pub id: String,
    /// VAT rate (BT-152).
    pub percent: Option<String>,
    /// Tax scheme identifier.
    pub tax_scheme_id: Option<String>,
}

/// The view of [`ClassifiedTaxCategory`].
#[verifier::ext_equal]
pub struct ClassifiedTaxCategoryView {
    pub id: Seq<char>,
    pub percent: Option<Seq<char>>,
    pub tax_scheme_id: Option<Seq<char>>,
}

impl ClassifiedTaxCategoryView {
    /// The view of a fresh record.
    pub open spec fn blank() -> ClassifiedTaxCategoryView {
        ClassifiedTaxCategoryView {
            id: Seq::empty(),
            percent: None,
            tax_scheme_id: None,
        }
    }
}

impl View for ClassifiedTaxCategory {
    type V = ClassifiedTaxCategoryView;

    open spec fn view(&self) -> ClassifiedTaxCategoryView {
        ClassifiedTaxCategoryView {
            id: self.id@,
            percent: self.percent.deep_view(),
            tax_scheme_id: self.tax_scheme_id.deep_view(),
        }
    }
}

impl DeepView for ClassifiedTaxCategory {
    type V = ClassifiedTaxCategoryView;

    open spec fn deep_view(&self) -> ClassifiedTaxCategoryView {
        self@
    }
}

impl Default for ClassifiedTaxCategory {
    fn default() -> (r: ClassifiedTaxCategory)
        ensures
            r@ == ClassifiedTaxCategoryView::blank(),
    {
        ClassifiedTaxCategory {
            id: String::new(),
            percent: None,
            tax_scheme_id: None,
        }
    }
}

/// Item information of a line (BG-31).
#[derive(Debug, PartialEq, Eq)]
pub struct Item {
    /// Item name (BT-153).
    pub name: String,
    /// Item description (BT-154).
    pub description: Option<String>,
    /// VAT information (BG-30).
    pub classified_tax_category: ClassifiedTaxCategory,
}

/// The view of [`Item`].
#[verifier::ext_equal]
pub struct ItemView {
    pub name: Seq<char>,
    pub description: Option<Seq<char>>,
    pub classified_tax_category: ClassifiedTaxCategoryView,
}

impl ItemView {
    /// The view of a fresh record.
    pub open spec fn blank() -> ItemView {
        ItemView {
            name: Seq::empty(),
            description: None,
            classified_tax_category: ClassifiedTaxCategoryView::blank(),
        }
    }
}

impl View for Item {
    type V = ItemView;

    open spec fn view(&self) -> ItemView {
        ItemView {
            name: self.name@,
            description: self.description.deep_view(),
            classified_tax_category: self.classified_tax_category@,
        }
    }
}

impl DeepView for Item {
    type V = ItemView;

    open spec fn deep_view(&self) -> ItemView {
        self@
    }
}

impl Default for Item {
    fn default() -> (r: Item)
        ensures
            r@ == ItemView::blank(),
    {
        Item {
            name: String::new(),
            description: None,
            classified_tax_category: ClassifiedTaxCategory::default(),
        }
    }
}

/// Price details of a line (BG-29).
#[derive(Debug, PartialEq, Eq)]
pub struct Price {
    /// Item net price (BT-146).
    pub price_amount: String,
    /// Item price base quantity (BT-149).
    pub base_quantity: Option<String>,
    /// Unit of measure of the base quantity (BT-150).
    pub base_quantity_unit_code: Option<String>,
}

/// The view of [`Price`].
#[verifier::ext_equal]
pub struct PriceView {
    pub price_amount: Seq<char>,
    pub base_quantity: Option<Seq<char>>,
    pub base_quantity_unit_code: Option<Seq<char>>,
}

impl PriceView {
    /// The view of a fresh record.
    pub open spec fn blank() -> PriceView {
        PriceView {
            price_amount: Seq::empty(),
            base_quantity: None,
            base_quantity_unit_code: None,
        }
    }
}

impl View for Price {
    type V = PriceView;

    open spec fn view(&self) -> PriceView {
        PriceView {
            price_amount: self.price_amount@,
            base_quantity: self.base_quantity.deep_view(),
            base_quantity_unit_code: self.base_quantity_unit_code.deep_view(),
        }
    }
}

impl DeepView for Price {
    type V = PriceView;

    open spec fn deep_view(&self) -> PriceView {
        self@
    }
}

impl Default for Price {
    fn default() -> (r: Price)
        ensures
            r@ == PriceView::blank(),
    {
        Price {
            price_amount: String::new(),
            base_quantity: None,
            base_quantity_unit_code: None,
        }
    }
}

/// An invoice line (BG-25).
#[derive(Debug, PartialEq, Eq)]
pub struct InvoiceLine {
    /// Line identifier (BT-126).
    pub id: String,
    /// Invoiced quantity (BT-129).
    pub invoiced_quantity: String,
    /// Unit of measure of the invoiced quantity (BT-130).
    pub invoiced_quantity_unit_code: String,
    /// Line net amount (BT-131).
    pub line_extension_amount: String,
    /// Price details (BG-29).
    pub price: Price,
    /// Item information (BG-31).
    pub item: Item,
}

/// The view of [`InvoiceLine`].
#[verifier::ext_equal]
pub struct InvoiceLineView {
    pub id: Seq<char>,
    pub invoiced_quantity: Seq<char>,
    pub invoiced_quantity_unit_code: Seq<char>,
    pub line_extension_amount: Seq<char>,
    pub price: PriceView,
    pub item: ItemView,
}

impl InvoiceLineView {
    /// The view of a fresh record.
    pub open spec fn blank() -> InvoiceLineView {
        InvoiceLineView {
            id: Seq::empty(),
            invoiced_quantity: Seq::empty(),
            invoiced_quantity_unit_code: Seq::empty(),
            line_extension_amount: Seq::empty(),
            price: PriceView::blank(),
            item: ItemView::blank(),
        }
    }
}

impl View for InvoiceLine {
    type V = InvoiceLineView;

    open spec fn view(&self) -> InvoiceLineView {
        InvoiceLineView {
            id: self.id@,
            invoiced_quantity: self.invoiced_quantity@,
            invoiced_quantity_unit_code: self.invoiced_quantity_unit_code@,
            line_extension_amount: self.line_extension_amount@,
            price: self.price@,
            item: self.item@,
        }
    }
}

impl DeepView for InvoiceLine {
    type V = InvoiceLineView;

    open spec fn deep_view(&self) -> InvoiceLineView {
        self@
    }
}

impl Default for InvoiceLine {
    fn default() -> (r: InvoiceLine)
        ensures
            r@ == InvoiceLineView::blank(),
    {
        InvoiceLine {
            id: String::new(),
            invoiced_quantity: String::new(),
            invoiced_quantity_unit_code: String::new(),
            line_extension_amount: String::new(),
            price: Price::default(),
            item: Item::default(),
        }
    }
}

/// The invoice record that extraction fills, together with the path stack of the traversal.
#[derive(Debug, PartialEq, Eq)]
pub struct XmlData {
    /// Invoice number (BT-1).
    pub id: String,
    /// Issue date (BT-2).
    pub issue_date: String,
    /// Invoice type code (BT-3).
    pub invoice_type_code: String,
    /// Invoice currency code (BT-5).
    pub document_currency_code: String,
    /// VAT accounting currency code (BT-6).
    pub tax_currency_code: Option<String>,
    /// Date on which VAT becomes applicable (BT-7).
    pub tax_point_date: Option<String>,
    /// Code of the date on which VAT becomes applicable (BT-8).
    pub description_code: Option<String>,
    /// Payment due date (BT-9).
    pub due_date: Option<String>,
    /// Buyer reference (BT-10).
    pub buyer_reference: Option<String>,
    /// Buyer accounting reference (BT-19).
    pub accounting_cost: Option<String>,
    /// Start of the invoicing period (BT-73).
    pub invoice_period_state_date: Option<String>,
    /// End of the invoicing period (BT-74).
    pub invoice_period_end_date: Option<String>,
    /// Free-text notes, in document order.
    pub notes: Vec<String>,
    /// Document totals (BG-22).
    pub legal_monetary_total: LegalMonetaryTotal,
    /// Payment instructions (BG-16); absent until one of their fields is seen.
    pub payment_means: Option<PaymentMeans>,
    /// The seller (BG-4).
    pub accounting_supplier_party: AccountingSupplierParty,
    /// The buyer (BG-7).
    pub accounting_customer_party: AccountingCustomerParty,
    /// Invoice lines (BG-25), in document order.
    pub invoice_lines: Vec<InvoiceLine>,
    /// Qualified names of the elements that are open, outermost first.
    pub current_path: Vec<String>,
}

/// The view of [`XmlData`].
#[verifier::ext_equal]
pub struct XmlDataView {
    pub id: Seq<char>,
    pub issue_date: Seq<char>,
    pub invoice_type_code: Seq<char>,
    pub document_currency_code: Seq<char>,
    pub tax_currency_code: Option<Seq<char>>,
    pub tax_point_date: Option<Seq<char>>,
    pub description_code: Option<Seq<char>>,
    pub due_date: Option<Seq<char>>,
    pub buyer_reference: Option<Seq<char>>,
    pub accounting_cost: Option<Seq<char>>,
    pub invoice_period_state_date: Option<Seq<char>>,
    pub invoice_period_end_date: Option<Seq<char>>,
    pub notes: Seq<Seq<char>>,
    pub legal_monetary_total: LegalMonetaryTotalView,
    pub payment_means: Option<PaymentMeansView>,
    pub accounting_supplier_party: AccountingSupplierPartyView,
    pub accounting_customer_party: AccountingCustomerPartyView,
    pub invoice_lines: Seq<InvoiceLineView>,
    pub current_path: Seq<Seq<char>>,
}

impl XmlDataView {
    /// The view of a fresh record.
    pub open spec fn blank() -> XmlDataView {
        XmlDataView {
            id: Seq::empty(),
            issue_date: Seq::empty(),
            invoice_type_code: Seq::empty(),
            document_currency_code: Seq::empty(),
            tax_currency_code: None,
            tax_point_date: None,
            description_code: None,
            due_date: None,
            buyer_reference: None,
            accounting_cost: None,
            invoice_period_state_date: None,
            invoice_period_end_date: None,
            notes: Seq::empty(),
            legal_monetary_total: LegalMonetaryTotalView::blank(),
            payment_means: None,
            accounting_supplier_party: AccountingSupplierPartyView::blank(),
            accounting_customer_party: AccountingCustomerPartyView::blank(),
            invoice_lines: Seq::empty(),
            current_path: Seq::empty(),
        }
    }
}

impl View for XmlData {
    type V = XmlDataView;

    open spec fn view(&self) -> XmlDataView {
        XmlDataView {
            id: self.id@,
            issue_date: self.issue_date@,
            invoice_type_code: self.invoice_type_code@,
            document_currency_code: self.document_currency_code@,
            tax_currency_code: self.tax_currency_code.deep_view(),
            tax_point_date: self.tax_point_date.deep_view(),
            description_code: self.description_code.deep_view(),
            due_date: self.due_date.deep_view(),
            buyer_reference: self.buyer_reference.deep_view(),
            accounting_cost: self.accounting_cost.deep_view(),
            invoice_period_state_date: self.invoice_period_state_date.deep_view(),
            invoice_period_end_date: self.invoice_period_end_date.deep_view(),
            notes: self.notes.deep_view(),
            legal_monetary_total: self.legal_monetary_total@,
            payment_means: self.payment_means.deep_view(),
            accounting_supplier_party: self.accounting_supplier_party@,
            accounting_customer_party: self.accounting_customer_party@,
            invoice_lines: self.invoice_lines.deep_view(),
            current_path: self.current_path.deep_view(),
        }
    }
}

impl DeepView for XmlData {
    type V = XmlDataView;

    open spec fn deep_view(&self) -> XmlDataView {
        self@
    }
}

impl Default for XmlData {
    fn default() -> (r: XmlData)
        ensures
            r@ == XmlDataView::blank(),
    {
        XmlData {
            id: String::new(),
            issue_date: String::new(),
            invoice_type_code: String::new(),
            document_currency_code: String::new(),
            tax_currency_code: None,
            tax_point_date: None,
            description_code: None,
            due_date: None,
            buyer_reference: None,
            accounting_cost: None,
            invoice_period_state_date: None,
            invoice_period_end_date: None,
            notes: Vec::new(),
            legal_monetary_total: LegalMonetaryTotal::default(),
            payment_means: None,
            accounting_supplier_party: AccountingSupplierParty::default(),
            accounting_customer_party: AccountingCustomerParty::default(),
            invoice_lines: Vec::new(),
            current_path: Vec::new(),
        }
    }
}

} // verus!
