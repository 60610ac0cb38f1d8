use core_invoice::amount::{InvoiceAmount, UnitPriceAmount};
use core_invoice::attachment::Attachment;
use core_invoice::code::Code;
use core_invoice::date::Date;
use core_invoice::dec::Dec;
use core_invoice::identifier::{DocumentReference, Identifier};
use core_invoice::invoice::{
    AllowanceCharge, Contact, Delivery, DocumentTotals, Invoice, InvoiceNote, ItemAttribute, Line,
    LineAllowanceCharge, Party, Payee, PaymentInstructions, Period, PostalAddress, Price,
    PrecedingInvoice, SupportingDocument, TaxBreakdown, TaxRepresentative,
};
use core_invoice::kind::DocumentKind;
use core_invoice::numeric::{Percentage, Quantity};
use core_invoice::payment::{CreditTransfer, DirectDebit, PaymentCard, PaymentMeans};
use core_invoice::profile::Profile;
use core_invoice::reconcile::{reconcile, Reconciler};
use core_invoice::report::{Report, Severity};
use core_invoice::tax::{TaxCategory, TaxSystem};
use core_invoice::validate::validate;


#[test]
fn us_dollar_sign_fails_cl04_eur_passes() {
        let mut inv = Invoice::blank(
            Profile::En16931,
            "1",
            "US$",
            Party::new("S", "DE"),
            Party::new("B", "FR"),
        );
        inv.issue_date = core_invoice::date::Date::parse("2026-01-15").ok();
        inv.type_code = Some(core_invoice::code::Code::new("380"));
        inv.lines = vec![core_invoice::invoice::Line::new(
            "1",
            "A",
            core_invoice::amount::InvoiceAmount::parse("1.00").unwrap(),
            core_invoice::tax::TaxCategory::vat("S", Percentage::new(Dec::new(19, 0))),
        )];
        let report = validate(&inv);
        assert!(
            report.findings.iter().any(|f| f.id == "BR-CL-04"),
            "{}", report.to_string()
        );
        inv.currency = "EUR".into();
        let report = validate(&inv);
        assert!(
            report.findings.iter().all(|f| f.id != "BR-CL-04"),
            "{}", report.to_string()
        );
        inv.currency = "XXX".into();
        let report = validate(&inv);
        assert!(
            report.findings.iter().all(|f| f.id != "BR-CL-04"),
            "{}", report.to_string()
        );
    }

#[test]
fn invoice_381_fails_cl01() {
        let mut inv = Invoice::blank(
            Profile::En16931,
            "1",
            "EUR",
            Party::new("S", "DE"),
            Party::new("B", "FR"),
        );
        inv.issue_date = core_invoice::date::Date::parse("2026-01-15").ok();
        inv.type_code = Some(core_invoice::code::Code::new("381"));
        inv.kind = DocumentKind::Invoice;
        inv.lines = vec![core_invoice::invoice::Line::new(
            "1",
            "A",
            core_invoice::amount::InvoiceAmount::parse("1.00").unwrap(),
            core_invoice::tax::TaxCategory::vat("S", Percentage::new(Dec::new(19, 0))),
        )];
        let report = validate(&inv);
        assert!(
            report.findings.iter().any(|f| f.id == "BR-CL-01"),
            "{}", report.to_string()
        );
    }
