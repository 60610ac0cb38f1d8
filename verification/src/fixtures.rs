//! Sample invoices, reconciled: a PINT-MY sales-tax invoice, a PINT GST
//! invoice and a Peppol BIS 3 VAT invoice.
use vstd::prelude::*;
use crate::amount::{InvoiceAmount, UnitPriceAmount};
use crate::code::Code;
use crate::date::Date;
use crate::dec::Dec;
use crate::identifier::{DocumentReference, Identifier};
use crate::invoice::{Invoice, Line, Party, Price};
use crate::numeric::{Percentage, Quantity};
use crate::profile::Profile;
use crate::reconcile::reconcile;
use crate::tax::TaxCategory;
use crate::text::owned;

verus! {

/// A line of one unit (`C62`) at the given net price in cents.
fn priced(line: Line, cents: i64) -> (r: Line)
    ensures
        r.id == line.id,
        r.net == line.net,
        r.tax == line.tax,
        r.quantity is Some && r.unit is Some && r.price is Some,
{
    let mut line = line;
    line.quantity = Some(Quantity::one());
    line.unit = Some(Code::new("C62"));
    line.price = Some(Price {
        net: UnitPriceAmount::new(Dec::new(cents, 2)),
        discount: None,
        gross: None,
        base_qty: None,
        base_unit: None,
    });
    line
}

/// The issue date of the samples, 2026-01-15.
fn sample_date() -> (r: Option<Date>) {
    match Date::new(2026, 1, 15) {
        Ok(d) => Some(d),
        Err(_) => None,
    }
}

/// PINT-MY invoice in MYR: one line of 100.00 under sales tax `SA` at 10 %,
/// seller with TIN, BRN and endpoint, buyer with BRN; reconciled.
pub fn pint_my_sst() -> (r: Invoice)
    ensures
        r.profile == Profile::PintMy,
        r.lines@.len() == 1,
{
    let seller = {
        let mut p = Party::new("Kedai Contoh Sdn Bhd", "MY");
        p.tax_registration = Some(Identifier::new("C12345678901"));
        p.legal_registration = Some(Identifier::new("2023010000001"));
        p.electronic_address = Some(Identifier::schemed("C12345678901", "0230"));
        p
    };
    let buyer = {
        let mut b = Party::new("Pembeli Sdn Bhd", "MY");
        b.legal_registration = Some(Identifier::new("1999010000001"));
        b
    };
    let mut inv = Invoice::blank(Profile::PintMy, "MY-2026-0001", "MYR", seller, buyer);
    let line = Line::new(
        "1",
        "Widget",
        InvoiceAmount::from_minor(10000),
        TaxCategory::sst("SA", Percentage::new(Dec::new(10, 0))),
    );
    inv.lines = vec![priced(line, 10000)];
    inv.issue_date = sample_date();
    inv.type_code = Some(Code::new("380"));
    inv.payment_terms = Some(owned("Net 30"));
    let _ = reconcile(&mut inv);
    inv
}

/// PINT invoice in SGD: one line of 100.00 under GST `SR` at 9 %, seller
/// with a GST registration; reconciled.
pub fn pint_gst_sr() -> (r: Invoice)
    ensures
        r.profile == Profile::Pint,
        r.lines@.len() == 1,
{
    let seller = {
        let mut p = Party::new("Seller Pte Ltd", "SG");
        p.tax_registration = Some(Identifier::new("GST123456789"));
        p
    };
    let mut inv = Invoice::blank(Profile::Pint, "SG-2026-0001", "SGD", seller, Party::new("Buyer Pte Ltd", "SG"));
    let line = Line::new(
        "1",
        "Service",
        InvoiceAmount::from_minor(10000),
        TaxCategory::gst("SR", Percentage::new(Dec::new(9, 0))),
    );
    inv.lines = vec![priced(line, 10000)];
    inv.issue_date = sample_date();
    inv.type_code = Some(Code::new("380"));
    inv.payment_terms = Some(owned("Net 30"));
    let _ = reconcile(&mut inv);
    inv
}

/// Peppol BIS 3 invoice in EUR: one line of 100.00 under VAT `S` at 19 %,
/// both parties with VAT identifiers and endpoints, process and buyer
/// reference set; reconciled.
pub fn peppol_vat() -> (r: Invoice)
    ensures
        r.profile == Profile::PeppolBis3,
        r.lines@.len() == 1,
{
    let seller = {
        let mut p = Party::new("Seller GmbH", "DE");
        p.vat_identifier = Some(Identifier::new("DE123456789"));
        p.electronic_address = Some(Identifier::schemed("1234567890128", "0088"));
        p
    };
    let buyer = {
        let mut b = Party::new("Buyer SARL", "FR");
        b.vat_identifier = Some(Identifier::new("FR12345678901"));
        b.electronic_address = Some(Identifier::schemed("1234567890135", "0088"));
        b
    };
    let mut inv = Invoice::blank(Profile::PeppolBis3, "EU-2026-0001", "EUR", seller, buyer);
    let line = Line::new(
        "1",
        "Service",
        InvoiceAmount::from_minor(10000),
        TaxCategory::vat("S", Percentage::new(Dec::new(19, 0))),
    );
    inv.lines = vec![priced(line, 10000)];
    inv.issue_date = sample_date();
    inv.type_code = Some(Code::new("380"));
    inv.business_process = Some(owned("urn:fdc:peppol.eu:2017:poacc:billing:01:1.0"));
    inv.buyer_reference = Some(DocumentReference::new("PO-1"));
    inv.payment_terms = Some(owned("Net 30"));
    let _ = reconcile(&mut inv);
    inv
}

} // verus!
