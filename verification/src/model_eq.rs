//! Field-wise comparison of model values: texts by their characters,
//! amounts and rates by their values.
use vstd::prelude::*;
use crate::amount::{InvoiceAmount, UnitPriceAmount};
use crate::attachment::Attachment;
use crate::code::Code;
use crate::date::Date;
use crate::dec::same_value;
use crate::identifier::{DocumentReference, Identifier};
use crate::invoice::{
    AllowanceCharge, Contact, Delivery, DocumentTotals, InvoiceNote, ItemAttribute, Line,
    LineAllowanceCharge, Party, PartyTax, Payee, PaymentInstructions, Period, PostalAddress, Price,
    PrecedingInvoice, SupportingDocument, TaxBreakdown, TaxRepresentative,
};
use crate::numeric::{Percentage, Quantity};
use crate::payment::{CreditTransfer, DirectDebit, PaymentCard, PaymentMeans};
use crate::tax::TaxCategory;
use crate::text::str_eq;

verus! {

/// Both absent, or both present with the same characters.
pub open spec fn same_opt_text(a: Option<String>, b: Option<String>) -> bool {
    match (a, b) {
        (Some(x), Some(y)) => x@ == y@,
        (None, None) => true,
        _ => false,
    }
}

/// Comparison of optional texts.
pub fn eq_opt_text(a: &Option<String>, b: &Option<String>) -> (r: bool)
    ensures
        r == same_opt_text(*a, *b),
{
    match (a, b) {
        (Some(x), Some(y)) => str_eq(x.as_str(), y.as_str()),
        (None, None) => true,
        _ => false,
    }
}

/// Both absent, or both present with the same characters.
pub open spec fn same_opt_code(a: Option<Code>, b: Option<Code>) -> bool {
    match (a, b) {
        (Some(x), Some(y)) => x@ == y@,
        (None, None) => true,
        _ => false,
    }
}

/// Comparison of optional codes.
pub fn eq_opt_code(a: &Option<Code>, b: &Option<Code>) -> (r: bool)
    ensures
        r == same_opt_code(*a, *b),
{
    match (a, b) {
        (Some(x), Some(y)) => str_eq(x.as_str(), y.as_str()),
        (None, None) => true,
        _ => false,
    }
}

/// Comparison of optional dates.
pub fn eq_opt_date(a: Option<Date>, b: Option<Date>) -> (r: bool)
    ensures
        r == (a == b),
{
    match (a, b) {
        (Some(x), Some(y)) => x == y,
        (None, None) => true,
        _ => false,
    }
}

/// Both absent, or both present with the same value.
pub open spec fn same_opt_amount(a: Option<InvoiceAmount>, b: Option<InvoiceAmount>) -> bool {
    match (a, b) {
        (Some(x), Some(y)) => x.cents() == y.cents(),
        (None, None) => true,
        _ => false,
    }
}

/// Comparison of optional amounts by value.
pub fn eq_opt_amount(a: Option<InvoiceAmount>, b: Option<InvoiceAmount>) -> (r: bool)
    ensures
        r == same_opt_amount(a, b),
{
    match (a, b) {
        (Some(x), Some(y)) => x == y,
        (None, None) => true,
        _ => false,
    }
}

/// Both absent, or both present with the same value.
pub open spec fn same_opt_unit(a: Option<UnitPriceAmount>, b: Option<UnitPriceAmount>) -> bool {
    match (a, b) {
        (Some(x), Some(y)) => same_value(x.dec(), y.dec()),
        (None, None) => true,
        _ => false,
    }
}

/// Comparison of optional unit prices by value.
pub fn eq_opt_unit(a: Option<UnitPriceAmount>, b: Option<UnitPriceAmount>) -> (r: bool)
    ensures
        r == same_opt_unit(a, b),
{
    match (a, b) {
        (Some(x), Some(y)) => x == y,
        (None, None) => true,
        _ => false,
    }
}

/// Both absent, or both present with the same value.
pub open spec fn same_opt_quantity(a: Option<Quantity>, b: Option<Quantity>) -> bool {
    match (a, b) {
        (Some(x), Some(y)) => same_value(x.dec(), y.dec()),
        (None, None) => true,
        _ => false,
    }
}

/// Comparison of optional quantities by value.
pub fn eq_opt_quantity(a: Option<Quantity>, b: Option<Quantity>) -> (r: bool)
    ensures
        r == same_opt_quantity(a, b),
{
    match (a, b) {
        (Some(x), Some(y)) => x == y,
        (None, None) => true,
        _ => false,
    }
}

/// Both absent, or both present with the same value.
pub open spec fn same_opt_percent(a: Option<Percentage>, b: Option<Percentage>) -> bool {
    match (a, b) {
        (Some(x), Some(y)) => same_value(x.dec(), y.dec()),
        (None, None) => true,
        _ => false,
    }
}

/// Comparison of optional rates by value.
pub fn eq_opt_percent(a: Option<Percentage>, b: Option<Percentage>) -> (r: bool)
    ensures
        r == same_opt_percent(a, b),
{
    match (a, b) {
        (Some(x), Some(y)) => x == y,
        (None, None) => true,
        _ => false,
    }
}

/// Byte-wise comparison.
pub fn eq_bytes(a: &Vec<u8>, b: &Vec<u8>) -> (r: bool)
    ensures
        r == (a@ == b@),
{
    if a.len() != b.len() {
        return false;
    }
    let mut i: usize = 0;
    while i < a.len()
        invariant
            a.len() == b.len(),
            i <= a.len(),
            forall|k: int| 0 <= k < i ==> a@[k] == b@[k],
        decreases a.len() - i,
    {
        if a[i] != b[i] {
            return false;
        }
        i = i + 1;
    }
    assert(a@ =~= b@);
    true
}

/// Same variant holding the same data.
pub open spec fn same_payment_means(a: PaymentMeans, b: PaymentMeans) -> bool {
    match (a, b) {
        (PaymentMeans::CreditTransfer(x), PaymentMeans::CreditTransfer(y)) => same_vec_credit_transfer(x@, y@),
        (PaymentMeans::Card(x), PaymentMeans::Card(y)) => same_payment_card(x, y),
        (PaymentMeans::DirectDebit(x), PaymentMeans::DirectDebit(y)) => same_direct_debit(x, y),
        _ => false,
    }
}

/// Comparison of payment means.
pub fn eq_payment_means(a: &PaymentMeans, b: &PaymentMeans) -> (r: bool)
    ensures
        r == same_payment_means(*a, *b),
{
    match (a, b) {
        (PaymentMeans::CreditTransfer(x), PaymentMeans::CreditTransfer(y)) => eq_vec_credit_transfer(x, y),
        (PaymentMeans::Card(x), PaymentMeans::Card(y)) => eq_payment_card(x, y),
        (PaymentMeans::DirectDebit(x), PaymentMeans::DirectDebit(y)) => eq_direct_debit(x, y),
        _ => false,
    }
}

/// Two Identifier values hold the same data.
pub open spec fn same_identifier(a: Identifier, b: Identifier) -> bool {
    a.value@ == b.value@
        && same_opt_text(a.scheme, b.scheme)
        && same_opt_text(a.scheme_version, b.scheme_version)
}

/// Field-wise comparison of Identifier values.
pub fn eq_identifier(a: &Identifier, b: &Identifier) -> (r: bool)
    ensures
        r == same_identifier(*a, *b),
{
    str_eq(a.value.as_str(), b.value.as_str())
        && eq_opt_text(&a.scheme, &b.scheme)
        && eq_opt_text(&a.scheme_version, &b.scheme_version)
}

/// Two DocumentReference values hold the same data.
pub open spec fn same_document_reference(a: DocumentReference, b: DocumentReference) -> bool {
    a.0@ == b.0@
}

/// Field-wise comparison of DocumentReference values.
pub fn eq_document_reference(a: &DocumentReference, b: &DocumentReference) -> (r: bool)
    ensures
        r == same_document_reference(*a, *b),
{
    str_eq(a.0.as_str(), b.0.as_str())
}

/// Two PostalAddress values hold the same data.
pub open spec fn same_postal_address(a: PostalAddress, b: PostalAddress) -> bool {
    same_opt_text(a.line1, b.line1)
        && same_opt_text(a.line2, b.line2)
        && same_opt_text(a.line3, b.line3)
        && same_opt_text(a.city, b.city)
        && same_opt_text(a.post_code, b.post_code)
        && same_opt_text(a.subdivision, b.subdivision)
        && same_opt_code(a.country, b.country)
}

/// Field-wise comparison of PostalAddress values.
pub fn eq_postal_address(a: &PostalAddress, b: &PostalAddress) -> (r: bool)
    ensures
        r == same_postal_address(*a, *b),
{
    eq_opt_text(&a.line1, &b.line1)
        && eq_opt_text(&a.line2, &b.line2)
        && eq_opt_text(&a.line3, &b.line3)
        && eq_opt_text(&a.city, &b.city)
        && eq_opt_text(&a.post_code, &b.post_code)
        && eq_opt_text(&a.subdivision, &b.subdivision)
        && eq_opt_code(&a.country, &b.country)
}

/// Two Contact values hold the same data.
pub open spec fn same_contact(a: Contact, b: Contact) -> bool {
    same_opt_text(a.point, b.point)
        && same_opt_text(a.phone, b.phone)
        && same_opt_text(a.email, b.email)
}

/// Field-wise comparison of Contact values.
pub fn eq_contact(a: &Contact, b: &Contact) -> (r: bool)
    ensures
        r == same_contact(*a, *b),
{
    eq_opt_text(&a.point, &b.point)
        && eq_opt_text(&a.phone, &b.phone)
        && eq_opt_text(&a.email, &b.email)
}

/// Two PartyTax values hold the same data.
pub open spec fn same_party_tax(a: PartyTax, b: PartyTax) -> bool {
    same_identifier(a.id, b.id)
        && a.scheme@ == b.scheme@
}

/// Field-wise comparison of PartyTax values.
pub fn eq_party_tax(a: &PartyTax, b: &PartyTax) -> (r: bool)
    ensures
        r == same_party_tax(*a, *b),
{
    eq_identifier(&a.id, &b.id)
        && str_eq(a.scheme.as_str(), b.scheme.as_str())
}

/// Two Party values hold the same data.
pub open spec fn same_party(a: Party, b: Party) -> bool {
    a.name@ == b.name@
        && same_opt_text(a.trading_name, b.trading_name)
        && same_vec_identifier(a.identifiers@, b.identifiers@)
        && same_opt_identifier(a.legal_registration, b.legal_registration)
        && same_opt_identifier(a.vat_identifier, b.vat_identifier)
        && same_opt_identifier(a.tax_registration, b.tax_registration)
        && same_opt_identifier(a.electronic_address, b.electronic_address)
        && same_vec_party_tax(a.party_taxes@, b.party_taxes@)
        && same_opt_text(a.additional_legal, b.additional_legal)
        && same_opt_postal_address(a.address, b.address)
        && same_opt_contact(a.contact, b.contact)
}

/// Field-wise comparison of Party values.
pub fn eq_party(a: &Party, b: &Party) -> (r: bool)
    ensures
        r == same_party(*a, *b),
{
    str_eq(a.name.as_str(), b.name.as_str())
        && eq_opt_text(&a.trading_name, &b.trading_name)
        && eq_vec_identifier(&a.identifiers, &b.identifiers)
        && eq_opt_identifier(&a.legal_registration, &b.legal_registration)
        && eq_opt_identifier(&a.vat_identifier, &b.vat_identifier)
        && eq_opt_identifier(&a.tax_registration, &b.tax_registration)
        && eq_opt_identifier(&a.electronic_address, &b.electronic_address)
        && eq_vec_party_tax(&a.party_taxes, &b.party_taxes)
        && eq_opt_text(&a.additional_legal, &b.additional_legal)
        && eq_opt_postal_address(&a.address, &b.address)
        && eq_opt_contact(&a.contact, &b.contact)
}

/// Two TaxCategory values hold the same data.
pub open spec fn same_tax_category(a: TaxCategory, b: TaxCategory) -> bool {
    a.system == b.system
        && a.code@ == b.code@
        && same_opt_percent(a.percent, b.percent)
}

/// Field-wise comparison of TaxCategory values.
pub fn eq_tax_category(a: &TaxCategory, b: &TaxCategory) -> (r: bool)
    ensures
        r == same_tax_category(*a, *b),
{
    a.system == b.system
        && str_eq(a.code.as_str(), b.code.as_str())
        && eq_opt_percent(a.percent, b.percent)
}

/// Two Price values hold the same data.
pub open spec fn same_price(a: Price, b: Price) -> bool {
    same_value(a.net.dec(), b.net.dec())
        && same_opt_unit(a.discount, b.discount)
        && same_opt_unit(a.gross, b.gross)
        && same_opt_quantity(a.base_qty, b.base_qty)
        && same_opt_code(a.base_unit, b.base_unit)
}

/// Field-wise comparison of Price values.
pub fn eq_price(a: &Price, b: &Price) -> (r: bool)
    ensures
        r == same_price(*a, *b),
{
    a.net == b.net
        && eq_opt_unit(a.discount, b.discount)
        && eq_opt_unit(a.gross, b.gross)
        && eq_opt_quantity(a.base_qty, b.base_qty)
        && eq_opt_code(&a.base_unit, &b.base_unit)
}

/// Two LineAllowanceCharge values hold the same data.
pub open spec fn same_line_allowance_charge(a: LineAllowanceCharge, b: LineAllowanceCharge) -> bool {
    a.amount.cents() == b.amount.cents()
        && same_opt_amount(a.base, b.base)
        && same_opt_percent(a.percent, b.percent)
        && same_opt_text(a.reason, b.reason)
        && same_opt_code(a.reason_code, b.reason_code)
}

/// Field-wise comparison of LineAllowanceCharge values.
pub fn eq_line_allowance_charge(a: &LineAllowanceCharge, b: &LineAllowanceCharge) -> (r: bool)
    ensures
        r == same_line_allowance_charge(*a, *b),
{
    a.amount == b.amount
        && eq_opt_amount(a.base, b.base)
        && eq_opt_percent(a.percent, b.percent)
        && eq_opt_text(&a.reason, &b.reason)
        && eq_opt_code(&a.reason_code, &b.reason_code)
}

/// Two Period values hold the same data.
pub open spec fn same_period(a: Period, b: Period) -> bool {
    a.start == b.start
        && a.end == b.end
}

/// Field-wise comparison of Period values.
pub fn eq_period(a: &Period, b: &Period) -> (r: bool)
    ensures
        r == same_period(*a, *b),
{
    eq_opt_date(a.start, b.start)
        && eq_opt_date(a.end, b.end)
}

/// Two ItemAttribute values hold the same data.
pub open spec fn same_item_attribute(a: ItemAttribute, b: ItemAttribute) -> bool {
    a.name@ == b.name@
        && a.value@ == b.value@
}

/// Field-wise comparison of ItemAttribute values.
pub fn eq_item_attribute(a: &ItemAttribute, b: &ItemAttribute) -> (r: bool)
    ensures
        r == same_item_attribute(*a, *b),
{
    str_eq(a.name.as_str(), b.name.as_str())
        && str_eq(a.value.as_str(), b.value.as_str())
}

/// Two Line values hold the same data.
pub open spec fn same_line(a: Line, b: Line) -> bool {
    a.id@ == b.id@
        && a.name@ == b.name@
        && a.net.cents() == b.net.cents()
        && same_tax_category(a.tax, b.tax)
        && same_opt_quantity(a.quantity, b.quantity)
        && same_opt_code(a.unit, b.unit)
        && same_opt_price(a.price, b.price)
        && same_opt_text(a.note, b.note)
        && same_opt_text(a.description, b.description)
        && same_opt_period(a.period, b.period)
        && same_vec_line_allowance_charge(a.allowances@, b.allowances@)
        && same_vec_line_allowance_charge(a.charges@, b.charges@)
        && same_opt_identifier(a.standard_id, b.standard_id)
        && same_opt_identifier(a.item_id, b.item_id)
        && same_opt_identifier(a.buyer_id, b.buyer_id)
        && same_opt_text(a.order_line, b.order_line)
        && same_opt_text(a.accounting_reference, b.accounting_reference)
        && same_vec_item_attribute(a.attributes@, b.attributes@)
        && same_opt_code(a.origin_country, b.origin_country)
        && same_vec_identifier(a.classifications@, b.classifications@)
        && same_opt_identifier(a.invoiced_object, b.invoiced_object)
        && same_opt_code(a.invoiced_object_code, b.invoiced_object_code)
        && same_vec_tax_category(a.extra_tax@, b.extra_tax@)
        && same_opt_amount(a.tax_total, b.tax_total)
}

/// Field-wise comparison of Line values.
pub fn eq_line(a: &Line, b: &Line) -> (r: bool)
    ensures
        r == same_line(*a, *b),
{
    str_eq(a.id.as_str(), b.id.as_str())
        && str_eq(a.name.as_str(), b.name.as_str())
        && a.net == b.net
        && eq_tax_category(&a.tax, &b.tax)
        && eq_opt_quantity(a.quantity, b.quantity)
        && eq_opt_code(&a.unit, &b.unit)
        && eq_opt_price(&a.price, &b.price)
        && eq_opt_text(&a.note, &b.note)
        && eq_opt_text(&a.description, &b.description)
        && eq_opt_period(&a.period, &b.period)
        && eq_vec_line_allowance_charge(&a.allowances, &b.allowances)
        && eq_vec_line_allowance_charge(&a.charges, &b.charges)
        && eq_opt_identifier(&a.standard_id, &b.standard_id)
        && eq_opt_identifier(&a.item_id, &b.item_id)
        && eq_opt_identifier(&a.buyer_id, &b.buyer_id)
        && eq_opt_text(&a.order_line, &b.order_line)
        && eq_opt_text(&a.accounting_reference, &b.accounting_reference)
        && eq_vec_item_attribute(&a.attributes, &b.attributes)
        && eq_opt_code(&a.origin_country, &b.origin_country)
        && eq_vec_identifier(&a.classifications, &b.classifications)
        && eq_opt_identifier(&a.invoiced_object, &b.invoiced_object)
        && eq_opt_code(&a.invoiced_object_code, &b.invoiced_object_code)
        && eq_vec_tax_category(&a.extra_tax, &b.extra_tax)
        && eq_opt_amount(a.tax_total, b.tax_total)
}

/// Two InvoiceNote values hold the same data.
pub open spec fn same_invoice_note(a: InvoiceNote, b: InvoiceNote) -> bool {
    same_opt_code(a.subject, b.subject)
        && a.text@ == b.text@
}

/// Field-wise comparison of InvoiceNote values.
pub fn eq_invoice_note(a: &InvoiceNote, b: &InvoiceNote) -> (r: bool)
    ensures
        r == same_invoice_note(*a, *b),
{
    eq_opt_code(&a.subject, &b.subject)
        && str_eq(a.text.as_str(), b.text.as_str())
}

/// Two PrecedingInvoice values hold the same data.
pub open spec fn same_preceding_invoice(a: PrecedingInvoice, b: PrecedingInvoice) -> bool {
    same_document_reference(a.reference, b.reference)
        && a.issue_date == b.issue_date
}

/// Field-wise comparison of PrecedingInvoice values.
pub fn eq_preceding_invoice(a: &PrecedingInvoice, b: &PrecedingInvoice) -> (r: bool)
    ensures
        r == same_preceding_invoice(*a, *b),
{
    eq_document_reference(&a.reference, &b.reference)
        && eq_opt_date(a.issue_date, b.issue_date)
}

/// Two Payee values hold the same data.
pub open spec fn same_payee(a: Payee, b: Payee) -> bool {
    a.name@ == b.name@
        && same_opt_identifier(a.identifier, b.identifier)
        && same_opt_identifier(a.legal_registration, b.legal_registration)
}

/// Field-wise comparison of Payee values.
pub fn eq_payee(a: &Payee, b: &Payee) -> (r: bool)
    ensures
        r == same_payee(*a, *b),
{
    str_eq(a.name.as_str(), b.name.as_str())
        && eq_opt_identifier(&a.identifier, &b.identifier)
        && eq_opt_identifier(&a.legal_registration, &b.legal_registration)
}

/// Two TaxRepresentative values hold the same data.
pub open spec fn same_tax_representative(a: TaxRepresentative, b: TaxRepresentative) -> bool {
    a.name@ == b.name@
        && same_opt_identifier(a.vat_identifier, b.vat_identifier)
        && same_opt_postal_address(a.address, b.address)
}

/// Field-wise comparison of TaxRepresentative values.
pub fn eq_tax_representative(a: &TaxRepresentative, b: &TaxRepresentative) -> (r: bool)
    ensures
        r == same_tax_representative(*a, *b),
{
    str_eq(a.name.as_str(), b.name.as_str())
        && eq_opt_identifier(&a.vat_identifier, &b.vat_identifier)
        && eq_opt_postal_address(&a.address, &b.address)
}

/// Two Delivery values hold the same data.
pub open spec fn same_delivery(a: Delivery, b: Delivery) -> bool {
    same_opt_text(a.name, b.name)
        && same_opt_identifier(a.location_id, b.location_id)
        && a.date == b.date
        && same_opt_postal_address(a.address, b.address)
}

/// Field-wise comparison of Delivery values.
pub fn eq_delivery(a: &Delivery, b: &Delivery) -> (r: bool)
    ensures
        r == same_delivery(*a, *b),
{
    eq_opt_text(&a.name, &b.name)
        && eq_opt_identifier(&a.location_id, &b.location_id)
        && eq_opt_date(a.date, b.date)
        && eq_opt_postal_address(&a.address, &b.address)
}

/// Two CreditTransfer values hold the same data.
pub open spec fn same_credit_transfer(a: CreditTransfer, b: CreditTransfer) -> bool {
    same_identifier(a.account_id, b.account_id)
        && same_opt_text(a.account_name, b.account_name)
        && same_opt_text(a.provider, b.provider)
}

/// Field-wise comparison of CreditTransfer values.
pub fn eq_credit_transfer(a: &CreditTransfer, b: &CreditTransfer) -> (r: bool)
    ensures
        r == same_credit_transfer(*a, *b),
{
    eq_identifier(&a.account_id, &b.account_id)
        && eq_opt_text(&a.account_name, &b.account_name)
        && eq_opt_text(&a.provider, &b.provider)
}

/// Two PaymentCard values hold the same data.
pub open spec fn same_payment_card(a: PaymentCard, b: PaymentCard) -> bool {
    a.pan@ == b.pan@
        && same_opt_text(a.holder, b.holder)
}

/// Field-wise comparison of PaymentCard values.
pub fn eq_payment_card(a: &PaymentCard, b: &PaymentCard) -> (r: bool)
    ensures
        r == same_payment_card(*a, *b),
{
    str_eq(a.pan.as_str(), b.pan.as_str())
        && eq_opt_text(&a.holder, &b.holder)
}

/// Two DirectDebit values hold the same data.
pub open spec fn same_direct_debit(a: DirectDebit, b: DirectDebit) -> bool {
    same_opt_text(a.mandate, b.mandate)
        && same_opt_identifier(a.creditor_id, b.creditor_id)
        && same_opt_identifier(a.debited_account, b.debited_account)
}

/// Field-wise comparison of DirectDebit values.
pub fn eq_direct_debit(a: &DirectDebit, b: &DirectDebit) -> (r: bool)
    ensures
        r == same_direct_debit(*a, *b),
{
    eq_opt_text(&a.mandate, &b.mandate)
        && eq_opt_identifier(&a.creditor_id, &b.creditor_id)
        && eq_opt_identifier(&a.debited_account, &b.debited_account)
}

/// Two PaymentInstructions values hold the same data.
pub open spec fn same_payment_instructions(a: PaymentInstructions, b: PaymentInstructions) -> bool {
    same_opt_code(a.means_code, b.means_code)
        && same_opt_text(a.means_text, b.means_text)
        && same_opt_text(a.remittance, b.remittance)
        && same_opt_payment_means(a.means, b.means)
}

/// Field-wise comparison of PaymentInstructions values.
pub fn eq_payment_instructions(a: &PaymentInstructions, b: &PaymentInstructions) -> (r: bool)
    ensures
        r == same_payment_instructions(*a, *b),
{
    eq_opt_code(&a.means_code, &b.means_code)
        && eq_opt_text(&a.means_text, &b.means_text)
        && eq_opt_text(&a.remittance, &b.remittance)
        && eq_opt_payment_means(&a.means, &b.means)
}

/// Two AllowanceCharge values hold the same data.
pub open spec fn same_allowance_charge(a: AllowanceCharge, b: AllowanceCharge) -> bool {
    a.amount.cents() == b.amount.cents()
        && same_opt_amount(a.base, b.base)
        && same_opt_percent(a.percent, b.percent)
        && same_opt_text(a.reason, b.reason)
        && same_opt_code(a.reason_code, b.reason_code)
        && same_opt_tax_category(a.tax, b.tax)
}

/// Field-wise comparison of AllowanceCharge values.
pub fn eq_allowance_charge(a: &AllowanceCharge, b: &AllowanceCharge) -> (r: bool)
    ensures
        r == same_allowance_charge(*a, *b),
{
    a.amount == b.amount
        && eq_opt_amount(a.base, b.base)
        && eq_opt_percent(a.percent, b.percent)
        && eq_opt_text(&a.reason, &b.reason)
        && eq_opt_code(&a.reason_code, &b.reason_code)
        && eq_opt_tax_category(&a.tax, &b.tax)
}

/// Two TaxBreakdown values hold the same data.
pub open spec fn same_tax_breakdown(a: TaxBreakdown, b: TaxBreakdown) -> bool {
    a.system == b.system
        && a.scheme@ == b.scheme@
        && a.category@ == b.category@
        && same_opt_percent(a.rate, b.rate)
        && a.taxable.cents() == b.taxable.cents()
        && a.tax.cents() == b.tax.cents()
        && same_opt_text(a.exemption_reason, b.exemption_reason)
        && same_opt_code(a.exemption_code, b.exemption_code)
}

/// Field-wise comparison of TaxBreakdown values.
pub fn eq_tax_breakdown(a: &TaxBreakdown, b: &TaxBreakdown) -> (r: bool)
    ensures
        r == same_tax_breakdown(*a, *b),
{
    a.system == b.system
        && str_eq(a.scheme.as_str(), b.scheme.as_str())
        && str_eq(a.category.as_str(), b.category.as_str())
        && eq_opt_percent(a.rate, b.rate)
        && a.taxable == b.taxable
        && a.tax == b.tax
        && eq_opt_text(&a.exemption_reason, &b.exemption_reason)
        && eq_opt_code(&a.exemption_code, &b.exemption_code)
}

/// Two DocumentTotals values hold the same data.
pub open spec fn same_document_totals(a: DocumentTotals, b: DocumentTotals) -> bool {
    same_opt_amount(a.line_net, b.line_net)
        && same_opt_amount(a.allowance_total, b.allowance_total)
        && same_opt_amount(a.charge_total, b.charge_total)
        && same_opt_amount(a.without_tax, b.without_tax)
        && same_opt_amount(a.tax_total, b.tax_total)
        && same_opt_amount(a.tax_total_accounting, b.tax_total_accounting)
        && same_opt_amount(a.with_tax, b.with_tax)
        && same_opt_amount(a.paid, b.paid)
        && same_opt_amount(a.rounding, b.rounding)
        && same_opt_amount(a.payable, b.payable)
}

/// Field-wise comparison of DocumentTotals values.
pub fn eq_document_totals(a: &DocumentTotals, b: &DocumentTotals) -> (r: bool)
    ensures
        r == same_document_totals(*a, *b),
{
    eq_opt_amount(a.line_net, b.line_net)
        && eq_opt_amount(a.allowance_total, b.allowance_total)
        && eq_opt_amount(a.charge_total, b.charge_total)
        && eq_opt_amount(a.without_tax, b.without_tax)
        && eq_opt_amount(a.tax_total, b.tax_total)
        && eq_opt_amount(a.tax_total_accounting, b.tax_total_accounting)
        && eq_opt_amount(a.with_tax, b.with_tax)
        && eq_opt_amount(a.paid, b.paid)
        && eq_opt_amount(a.rounding, b.rounding)
        && eq_opt_amount(a.payable, b.payable)
}

/// Two Attachment values hold the same data.
pub open spec fn same_attachment(a: Attachment, b: Attachment) -> bool {
    a.bytes@ == b.bytes@
        && a.mime@ == b.mime@
        && a.filename@ == b.filename@
}

/// Field-wise comparison of Attachment values.
pub fn eq_attachment(a: &Attachment, b: &Attachment) -> (r: bool)
    ensures
        r == same_attachment(*a, *b),
{
    eq_bytes(&a.bytes, &b.bytes)
        && str_eq(a.mime.as_str(), b.mime.as_str())
        && str_eq(a.filename.as_str(), b.filename.as_str())
}

/// Two SupportingDocument values hold the same data.
pub open spec fn same_supporting_document(a: SupportingDocument, b: SupportingDocument) -> bool {
    same_document_reference(a.id, b.id)
        && same_opt_text(a.description, b.description)
        && same_opt_text(a.uri, b.uri)
        && same_opt_attachment(a.attachment, b.attachment)
}

/// Field-wise comparison of SupportingDocument values.
pub fn eq_supporting_document(a: &SupportingDocument, b: &SupportingDocument) -> (r: bool)
    ensures
        r == same_supporting_document(*a, *b),
{
    eq_document_reference(&a.id, &b.id)
        && eq_opt_text(&a.description, &b.description)
        && eq_opt_text(&a.uri, &b.uri)
        && eq_opt_attachment(&a.attachment, &b.attachment)
}

/// Both absent, or both present and the same.
pub open spec fn same_opt_attachment(a: Option<Attachment>, b: Option<Attachment>) -> bool {
    match (a, b) {
        (Some(x), Some(y)) => same_attachment(x, y),
        (None, None) => true,
        _ => false,
    }
}

/// Comparison of optional Attachment values.
pub fn eq_opt_attachment(a: &Option<Attachment>, b: &Option<Attachment>) -> (r: bool)
    ensures
        r == same_opt_attachment(*a, *b),
{
    match (a, b) {
        (Some(x), Some(y)) => eq_attachment(x, y),
        (None, None) => true,
        _ => false,
    }
}

/// Both absent, or both present and the same.
pub open spec fn same_opt_contact(a: Option<Contact>, b: Option<Contact>) -> bool {
    match (a, b) {
        (Some(x), Some(y)) => same_contact(x, y),
        (None, None) => true,
        _ => false,
    }
}

/// Comparison of optional Contact values.
pub fn eq_opt_contact(a: &Option<Contact>, b: &Option<Contact>) -> (r: bool)
    ensures
        r == same_opt_contact(*a, *b),
{
    match (a, b) {
        (Some(x), Some(y)) => eq_contact(x, y),
        (None, None) => true,
        _ => false,
    }
}

/// Both absent, or both present and the same.
pub open spec fn same_opt_delivery(a: Option<Delivery>, b: Option<Delivery>) -> bool {
    match (a, b) {
        (Some(x), Some(y)) => same_delivery(x, y),
        (None, None) => true,
        _ => false,
    }
}

/// Comparison of optional Delivery values.
pub fn eq_opt_delivery(a: &Option<Delivery>, b: &Option<Delivery>) -> (r: bool)
    ensures
        r == same_opt_delivery(*a, *b),
{
    match (a, b) {
        (Some(x), Some(y)) => eq_delivery(x, y),
        (None, None) => true,
        _ => false,
    }
}

/// Both absent, or both present and the same.
pub open spec fn same_opt_document_reference(a: Option<DocumentReference>, b: Option<DocumentReference>) -> bool {
    match (a, b) {
        (Some(x), Some(y)) => same_document_reference(x, y),
        (None, None) => true,
        _ => false,
    }
}

/// Comparison of optional DocumentReference values.
pub fn eq_opt_document_reference(a: &Option<DocumentReference>, b: &Option<DocumentReference>) -> (r: bool)
    ensures
        r == same_opt_document_reference(*a, *b),
{
    match (a, b) {
        (Some(x), Some(y)) => eq_document_reference(x, y),
        (None, None) => true,
        _ => false,
    }
}

/// Both absent, or both present and the same.
pub open spec fn same_opt_document_totals(a: Option<DocumentTotals>, b: Option<DocumentTotals>) -> bool {
    match (a, b) {
        (Some(x), Some(y)) => same_document_totals(x, y),
        (None, None) => true,
        _ => false,
    }
}

/// Comparison of optional DocumentTotals values.
pub fn eq_opt_document_totals(a: &Option<DocumentTotals>, b: &Option<DocumentTotals>) -> (r: bool)
    ensures
        r == same_opt_document_totals(*a, *b),
{
    match (a, b) {
        (Some(x), Some(y)) => eq_document_totals(x, y),
        (None, None) => true,
        _ => false,
    }
}

/// Both absent, or both present and the same.
pub open spec fn same_opt_identifier(a: Option<Identifier>, b: Option<Identifier>) -> bool {
    match (a, b) {
        (Some(x), Some(y)) => same_identifier(x, y),
        (None, None) => true,
        _ => false,
    }
}

/// Comparison of optional Identifier values.
pub fn eq_opt_identifier(a: &Option<Identifier>, b: &Option<Identifier>) -> (r: bool)
    ensures
        r == same_opt_identifier(*a, *b),
{
    match (a, b) {
        (Some(x), Some(y)) => eq_identifier(x, y),
        (None, None) => true,
        _ => false,
    }
}

/// Both absent, or both present and the same.
pub open spec fn same_opt_payee(a: Option<Payee>, b: Option<Payee>) -> bool {
    match (a, b) {
        (Some(x), Some(y)) => same_payee(x, y),
        (None, None) => true,
        _ => false,
    }
}

/// Comparison of optional Payee values.
pub fn eq_opt_payee(a: &Option<Payee>, b: &Option<Payee>) -> (r: bool)
    ensures
        r == same_opt_payee(*a, *b),
{
    match (a, b) {
        (Some(x), Some(y)) => eq_payee(x, y),
        (None, None) => true,
        _ => false,
    }
}

/// Both absent, or both present and the same.
pub open spec fn same_opt_payment_instructions(a: Option<PaymentInstructions>, b: Option<PaymentInstructions>) -> bool {
    match (a, b) {
        (Some(x), Some(y)) => same_payment_instructions(x, y),
        (None, None) => true,
        _ => false,
    }
}

/// Comparison of optional PaymentInstructions values.
pub fn eq_opt_payment_instructions(a: &Option<PaymentInstructions>, b: &Option<PaymentInstructions>) -> (r: bool)
    ensures
        r == same_opt_payment_instructions(*a, *b),
{
    match (a, b) {
        (Some(x), Some(y)) => eq_payment_instructions(x, y),
        (None, None) => true,
        _ => false,
    }
}

/// Both absent, or both present and the same.
pub open spec fn same_opt_payment_means(a: Option<PaymentMeans>, b: Option<PaymentMeans>) -> bool {
    match (a, b) {
        (Some(x), Some(y)) => same_payment_means(x, y),
        (None, None) => true,
        _ => false,
    }
}

/// Comparison of optional PaymentMeans values.
pub fn eq_opt_payment_means(a: &Option<PaymentMeans>, b: &Option<PaymentMeans>) -> (r: bool)
    ensures
        r == same_opt_payment_means(*a, *b),
{
    match (a, b) {
        (Some(x), Some(y)) => eq_payment_means(x, y),
        (None, None) => true,
        _ => false,
    }
}

/// Both absent, or both present and the same.
pub open spec fn same_opt_period(a: Option<Period>, b: Option<Period>) -> bool {
    match (a, b) {
        (Some(x), Some(y)) => same_period(x, y),
        (None, None) => true,
        _ => false,
    }
}

/// Comparison of optional Period values.
pub fn eq_opt_period(a: &Option<Period>, b: &Option<Period>) -> (r: bool)
    ensures
        r == same_opt_period(*a, *b),
{
    match (a, b) {
        (Some(x), Some(y)) => eq_period(x, y),
        (None, None) => true,
        _ => false,
    }
}

/// Both absent, or both present and the same.
pub open spec fn same_opt_postal_address(a: Option<PostalAddress>, b: Option<PostalAddress>) -> bool {
    match (a, b) {
        (Some(x), Some(y)) => same_postal_address(x, y),
        (None, None) => true,
        _ => false,
    }
}

/// Comparison of optional PostalAddress values.
pub fn eq_opt_postal_address(a: &Option<PostalAddress>, b: &Option<PostalAddress>) -> (r: bool)
    ensures
        r == same_opt_postal_address(*a, *b),
{
    match (a, b) {
        (Some(x), Some(y)) => eq_postal_address(x, y),
        (None, None) => true,
        _ => false,
    }
}

/// Both absent, or both present and the same.
pub open spec fn same_opt_price(a: Option<Price>, b: Option<Price>) -> bool {
    match (a, b) {
        (Some(x), Some(y)) => same_price(x, y),
        (None, None) => true,
        _ => false,
    }
}

/// Comparison of optional Price values.
pub fn eq_opt_price(a: &Option<Price>, b: &Option<Price>) -> (r: bool)
    ensures
        r == same_opt_price(*a, *b),
{
    match (a, b) {
        (Some(x), Some(y)) => eq_price(x, y),
        (None, None) => true,
        _ => false,
    }
}

/// Both absent, or both present and the same.
pub open spec fn same_opt_tax_category(a: Option<TaxCategory>, b: Option<TaxCategory>) -> bool {
    match (a, b) {
        (Some(x), Some(y)) => same_tax_category(x, y),
        (None, None) => true,
        _ => false,
    }
}

/// Comparison of optional TaxCategory values.
pub fn eq_opt_tax_category(a: &Option<TaxCategory>, b: &Option<TaxCategory>) -> (r: bool)
    ensures
        r == same_opt_tax_category(*a, *b),
{
    match (a, b) {
        (Some(x), Some(y)) => eq_tax_category(x, y),
        (None, None) => true,
        _ => false,
    }
}

/// Both absent, or both present and the same.
pub open spec fn same_opt_tax_representative(a: Option<TaxRepresentative>, b: Option<TaxRepresentative>) -> bool {
    match (a, b) {
        (Some(x), Some(y)) => same_tax_representative(x, y),
        (None, None) => true,
        _ => false,
    }
}

/// Comparison of optional TaxRepresentative values.
pub fn eq_opt_tax_representative(a: &Option<TaxRepresentative>, b: &Option<TaxRepresentative>) -> (r: bool)
    ensures
        r == same_opt_tax_representative(*a, *b),
{
    match (a, b) {
        (Some(x), Some(y)) => eq_tax_representative(x, y),
        (None, None) => true,
        _ => false,
    }
}

/// Same length and the same item at every place.
pub open spec fn same_vec_allowance_charge(a: Seq<AllowanceCharge>, b: Seq<AllowanceCharge>) -> bool {
    a.len() == b.len() && forall|k: int| 0 <= k < a.len() ==> same_allowance_charge(#[trigger] a[k], b[k])
}

/// Item-wise comparison of AllowanceCharge lists.
pub fn eq_vec_allowance_charge(a: &Vec<AllowanceCharge>, b: &Vec<AllowanceCharge>) -> (r: bool)
    ensures
        r == same_vec_allowance_charge(a@, b@),
{
    if a.len() != b.len() {
        return false;
    }
    let mut i: usize = 0;
    while i < a.len()
        invariant
            a.len() == b.len(),
            i <= a.len(),
            forall|k: int| 0 <= k < i ==> same_allowance_charge(#[trigger] a@[k], b@[k]),
        decreases a.len() - i,
    {
        if !eq_allowance_charge(&a[i], &b[i]) {
            return false;
        }
        i = i + 1;
    }
    true
}

/// Same length and the same item at every place.
pub open spec fn same_vec_identifier(a: Seq<Identifier>, b: Seq<Identifier>) -> bool {
    a.len() == b.len() && forall|k: int| 0 <= k < a.len() ==> same_identifier(#[trigger] a[k], b[k])
}

/// Item-wise comparison of Identifier lists.
pub fn eq_vec_identifier(a: &Vec<Identifier>, b: &Vec<Identifier>) -> (r: bool)
    ensures
        r == same_vec_identifier(a@, b@),
{
    if a.len() != b.len() {
        return false;
    }
    let mut i: usize = 0;
    while i < a.len()
        invariant
            a.len() == b.len(),
            i <= a.len(),
            forall|k: int| 0 <= k < i ==> same_identifier(#[trigger] a@[k], b@[k]),
        decreases a.len() - i,
    {
        if !eq_identifier(&a[i], &b[i]) {
            return false;
        }
        i = i + 1;
    }
    true
}

/// Same length and the same item at every place.
pub open spec fn same_vec_invoice_note(a: Seq<InvoiceNote>, b: Seq<InvoiceNote>) -> bool {
    a.len() == b.len() && forall|k: int| 0 <= k < a.len() ==> same_invoice_note(#[trigger] a[k], b[k])
}

/// Item-wise comparison of InvoiceNote lists.
pub fn eq_vec_invoice_note(a: &Vec<InvoiceNote>, b: &Vec<InvoiceNote>) -> (r: bool)
    ensures
        r == same_vec_invoice_note(a@, b@),
{
    if a.len() != b.len() {
        return false;
    }
    let mut i: usize = 0;
    while i < a.len()
        invariant
            a.len() == b.len(),
            i <= a.len(),
            forall|k: int| 0 <= k < i ==> same_invoice_note(#[trigger] a@[k], b@[k]),
        decreases a.len() - i,
    {
        if !eq_invoice_note(&a[i], &b[i]) {
            return false;
        }
        i = i + 1;
    }
    true
}

/// Same length and the same item at every place.
pub open spec fn same_vec_item_attribute(a: Seq<ItemAttribute>, b: Seq<ItemAttribute>) -> bool {
    a.len() == b.len() && forall|k: int| 0 <= k < a.len() ==> same_item_attribute(#[trigger] a[k], b[k])
}

/// Item-wise comparison of ItemAttribute lists.
pub fn eq_vec_item_attribute(a: &Vec<ItemAttribute>, b: &Vec<ItemAttribute>) -> (r: bool)
    ensures
        r == same_vec_item_attribute(a@, b@),
{
    if a.len() != b.len() {
        return false;
    }
    let mut i: usize = 0;
    while i < a.len()
        invariant
            a.len() == b.len(),
            i <= a.len(),
            forall|k: int| 0 <= k < i ==> same_item_attribute(#[trigger] a@[k], b@[k]),
        decreases a.len() - i,
    {
        if !eq_item_attribute(&a[i], &b[i]) {
            return false;
        }
        i = i + 1;
    }
    true
}

/// Same length and the same item at every place.
pub open spec fn same_vec_line_allowance_charge(a: Seq<LineAllowanceCharge>, b: Seq<LineAllowanceCharge>) -> bool {
    a.len() == b.len() && forall|k: int| 0 <= k < a.len() ==> same_line_allowance_charge(#[trigger] a[k], b[k])
}

/// Item-wise comparison of LineAllowanceCharge lists.
pub fn eq_vec_line_allowance_charge(a: &Vec<LineAllowanceCharge>, b: &Vec<LineAllowanceCharge>) -> (r: bool)
    ensures
        r == same_vec_line_allowance_charge(a@, b@),
{
    if a.len() != b.len() {
        return false;
    }
    let mut i: usize = 0;
    while i < a.len()
        invariant
            a.len() == b.len(),
            i <= a.len(),
            forall|k: int| 0 <= k < i ==> same_line_allowance_charge(#[trigger] a@[k], b@[k]),
        decreases a.len() - i,
    {
        if !eq_line_allowance_charge(&a[i], &b[i]) {
            return false;
        }
        i = i + 1;
    }
    true
}

/// Same length and the same item at every place.
pub open spec fn same_vec_party_tax(a: Seq<PartyTax>, b: Seq<PartyTax>) -> bool {
    a.len() == b.len() && forall|k: int| 0 <= k < a.len() ==> same_party_tax(#[trigger] a[k], b[k])
}

/// Item-wise comparison of PartyTax lists.
pub fn eq_vec_party_tax(a: &Vec<PartyTax>, b: &Vec<PartyTax>) -> (r: bool)
    ensures
        r == same_vec_party_tax(a@, b@),
{
    if a.len() != b.len() {
        return false;
    }
    let mut i: usize = 0;
    while i < a.len()
        invariant
            a.len() == b.len(),
            i <= a.len(),
            forall|k: int| 0 <= k < i ==> same_party_tax(#[trigger] a@[k], b@[k]),
        decreases a.len() - i,
    {
        if !eq_party_tax(&a[i], &b[i]) {
            return false;
        }
        i = i + 1;
    }
    true
}

/// Same length and the same item at every place.
pub open spec fn same_vec_preceding_invoice(a: Seq<PrecedingInvoice>, b: Seq<PrecedingInvoice>) -> bool {
    a.len() == b.len() && forall|k: int| 0 <= k < a.len() ==> same_preceding_invoice(#[trigger] a[k], b[k])
}

/// Item-wise comparison of PrecedingInvoice lists.
pub fn eq_vec_preceding_invoice(a: &Vec<PrecedingInvoice>, b: &Vec<PrecedingInvoice>) -> (r: bool)
    ensures
        r == same_vec_preceding_invoice(a@, b@),
{
    if a.len() != b.len() {
        return false;
    }
    let mut i: usize = 0;
    while i < a.len()
        invariant
            a.len() == b.len(),
            i <= a.len(),
            forall|k: int| 0 <= k < i ==> same_preceding_invoice(#[trigger] a@[k], b@[k]),
        decreases a.len() - i,
    {
        if !eq_preceding_invoice(&a[i], &b[i]) {
            return false;
        }
        i = i + 1;
    }
    true
}

/// Same length and the same item at every place.
pub open spec fn same_vec_supporting_document(a: Seq<SupportingDocument>, b: Seq<SupportingDocument>) -> bool {
    a.len() == b.len() && forall|k: int| 0 <= k < a.len() ==> same_supporting_document(#[trigger] a[k], b[k])
}

/// Item-wise comparison of SupportingDocument lists.
pub fn eq_vec_supporting_document(a: &Vec<SupportingDocument>, b: &Vec<SupportingDocument>) -> (r: bool)
    ensures
        r == same_vec_supporting_document(a@, b@),
{
    if a.len() != b.len() {
        return false;
    }
    let mut i: usize = 0;
    while i < a.len()
        invariant
            a.len() == b.len(),
            i <= a.len(),
            forall|k: int| 0 <= k < i ==> same_supporting_document(#[trigger] a@[k], b@[k]),
        decreases a.len() - i,
    {
        if !eq_supporting_document(&a[i], &b[i]) {
            return false;
        }
        i = i + 1;
    }
    true
}

/// Same length and the same item at every place.
pub open spec fn same_vec_tax_breakdown(a: Seq<TaxBreakdown>, b: Seq<TaxBreakdown>) -> bool {
    a.len() == b.len() && forall|k: int| 0 <= k < a.len() ==> same_tax_breakdown(#[trigger] a[k], b[k])
}

/// Item-wise comparison of TaxBreakdown lists.
pub fn eq_vec_tax_breakdown(a: &Vec<TaxBreakdown>, b: &Vec<TaxBreakdown>) -> (r: bool)
    ensures
        r == same_vec_tax_breakdown(a@, b@),
{
    if a.len() != b.len() {
        return false;
    }
    let mut i: usize = 0;
    while i < a.len()
        invariant
            a.len() == b.len(),
            i <= a.len(),
            forall|k: int| 0 <= k < i ==> same_tax_breakdown(#[trigger] a@[k], b@[k]),
        decreases a.len() - i,
    {
        if !eq_tax_breakdown(&a[i], &b[i]) {
            return false;
        }
        i = i + 1;
    }
    true
}

/// Same length and the same item at every place.
pub open spec fn same_vec_tax_category(a: Seq<TaxCategory>, b: Seq<TaxCategory>) -> bool {
    a.len() == b.len() && forall|k: int| 0 <= k < a.len() ==> same_tax_category(#[trigger] a[k], b[k])
}

/// Item-wise comparison of TaxCategory lists.
pub fn eq_vec_tax_category(a: &Vec<TaxCategory>, b: &Vec<TaxCategory>) -> (r: bool)
    ensures
        r == same_vec_tax_category(a@, b@),
{
    if a.len() != b.len() {
        return false;
    }
    let mut i: usize = 0;
    while i < a.len()
        invariant
            a.len() == b.len(),
            i <= a.len(),
            forall|k: int| 0 <= k < i ==> same_tax_category(#[trigger] a@[k], b@[k]),
        decreases a.len() - i,
    {
        if !eq_tax_category(&a[i], &b[i]) {
            return false;
        }
        i = i + 1;
    }
    true
}

/// Same length and the same item at every place.
pub open spec fn same_vec_credit_transfer(a: Seq<CreditTransfer>, b: Seq<CreditTransfer>) -> bool {
    a.len() == b.len() && forall|k: int| 0 <= k < a.len() ==> same_credit_transfer(#[trigger] a[k], b[k])
}

/// Item-wise comparison of CreditTransfer lists.
pub fn eq_vec_credit_transfer(a: &Vec<CreditTransfer>, b: &Vec<CreditTransfer>) -> (r: bool)
    ensures
        r == same_vec_credit_transfer(a@, b@),
{
    if a.len() != b.len() {
        return false;
    }
    let mut i: usize = 0;
    while i < a.len()
        invariant
            a.len() == b.len(),
            i <= a.len(),
            forall|k: int| 0 <= k < i ==> same_credit_transfer(#[trigger] a@[k], b@[k]),
        decreases a.len() - i,
    {
        if !eq_credit_transfer(&a[i], &b[i]) {
            return false;
        }
        i = i + 1;
    }
    true
}

} // verus!
