use core_invoice::amount::{InvoiceAmount, UnitPriceAmount};
use core_invoice::attachment::Attachment;
use core_invoice::code::Code;
use core_invoice::date::Date;
use core_invoice::dec::Dec;
use core_invoice::identifier::{DocumentReference, Identifier};
use core_invoice::invoice::{
    AllowanceCharge, Contact, Delivery, DocumentTotals, Invoice, InvoiceNote, ItemAttribute, Line,
    LineAllowanceCharge, Party, Payee, PaymentInstructions, Period, PostalAddress, Price,
    PrecedingInvoice, SupportingDocument, TaxBreakdown, TaxRepresentative,
};
use core_invoice::kind::DocumentKind;
use core_invoice::numeric::{Percentage, Quantity};
use core_invoice::payment::{CreditTransfer, DirectDebit, PaymentCard, PaymentMeans};
use core_invoice::profile::Profile;
use core_invoice::reconcile::{reconcile, Reconciler};
use core_invoice::report::{Report, Severity};
use core_invoice::tax::{TaxCategory, TaxSystem};
use core_invoice::validate::validate;


fn peppol() -> Invoice {
        let mut inv = Invoice::blank(
            Profile::PeppolBis3,
            "EU-1",
            "EUR",
            {
                let mut p = Party::new("S", "DE");
                p.vat_identifier = Some(Identifier::new("DE123456789"));
                p
            },
            {
                let mut b = Party::new("B", "FR");
                b.vat_identifier = Some(Identifier::new("FR12345678901"));
                b
            },
        );
        inv.issue_date = Date::parse("2026-01-15").ok();
        inv.type_code = Some(Code::new("380"));
        inv.business_process = Some("urn:fdc:peppol.eu:2017:poacc:billing:01:1.0".into());
        inv.buyer_reference = Some(core_invoice::identifier::DocumentReference::new("PO-1"));
        inv.seller.electronic_address = Some(Identifier::schemed("1234567890128", "0088"));
        inv.buyer.electronic_address = Some(Identifier::schemed("1234567890129", "0088"));
        inv.lines = vec![Line::new(
            "1",
            "A",
            InvoiceAmount::parse("100.00").unwrap(),
            TaxCategory::vat("S", Percentage::new(Dec::new(19, 0))),
        )];
        reconcile(&mut inv).unwrap();
        inv
    }

#[test]
fn r120_fails_at_three_cents_not_on_en16931() {
        let mut inv = peppol();
        inv.lines[0].quantity = Some(Quantity::parse("1").unwrap());
        inv.lines[0].price = Some(Price {
            net: core_invoice::amount::UnitPriceAmount::parse("100.03").unwrap(),
            discount: None,
            gross: None,
            base_qty: None,
            base_unit: None,
        });
        let report = validate(&inv);
        assert!(
            report
                .findings
                .iter()
                .any(|f| f.id == "PEPPOL-EN16931-R120"),
            "{}", report.to_string()
        );
        inv.profile = Profile::En16931;
        inv.specification_id = Some(Profile::En16931.specification_id().into());
        let report = validate(&inv);
        assert!(
            report
                .findings
                .iter()
                .all(|f| f.id != "PEPPOL-EN16931-R120"),
            "{}", report.to_string()
        );
    }

#[test]
fn r120_passes_at_two_cents() {
        let mut inv = peppol();
        inv.lines[0].quantity = Some(Quantity::parse("1").unwrap());
        inv.lines[0].price = Some(Price {
            net: core_invoice::amount::UnitPriceAmount::parse("100.02").unwrap(),
            discount: None,
            gross: None,
            base_qty: None,
            base_unit: None,
        });
        let report = validate(&inv);
        assert!(
            report
                .findings
                .iter()
                .all(|f| f.id != "PEPPOL-EN16931-R120"),
            "{}", report.to_string()
        );
    }

#[test]
fn r010_buyer_endpoint_not_on_en() {
        let mut inv = peppol();
        inv.buyer.electronic_address = None;
        let report = validate(&inv);
        assert!(
            report
                .findings
                .iter()
                .any(|f| f.id == "PEPPOL-EN16931-R010"),
            "{}", report.to_string()
        );
        inv.profile = Profile::En16931;
        inv.specification_id = Some(Profile::En16931.specification_id().into());
        let report = validate(&inv);
        assert!(
            report
                .findings
                .iter()
                .all(|f| f.id != "PEPPOL-EN16931-R010"),
            "{}", report.to_string()
        );
    }

#[test]
fn p0100_forbids_389_on_peppol_not_en() {
        let mut inv = peppol();
        inv.type_code = Some(Code::new("389"));
        let report = validate(&inv);
        assert!(
            report
                .findings
                .iter()
                .any(|f| f.id == "PEPPOL-EN16931-P0100"),
            "{}", report.to_string()
        );
        inv.profile = Profile::En16931;
        inv.specification_id = Some(Profile::En16931.specification_id().into());
        let report = validate(&inv);
        assert!(
            report
                .findings
                .iter()
                .all(|f| f.id != "PEPPOL-EN16931-P0100"),
            "{}", report.to_string()
        );
    }

#[test]
fn r003_bt13_not_preceding() {
        let mut inv = peppol();
        inv.buyer_reference = None;
        inv.preceding.push(core_invoice::invoice::PrecedingInvoice {
            reference: core_invoice::identifier::DocumentReference::new("INV-OLD"),
            issue_date: None,
        });
        let report = validate(&inv);
        assert!(
            report
                .findings
                .iter()
                .any(|f| f.id == "PEPPOL-EN16931-R003"),
            "BG-3 alone must not satisfy R003: {}", report.to_string()
        );
        inv.purchase_order = Some(core_invoice::identifier::DocumentReference::new("PO-13"));
        let report = validate(&inv);
        assert!(
            report
                .findings
                .iter()
                .all(|f| f.id != "PEPPOL-EN16931-R003"),
            "{}", report.to_string()
        );
    }

#[test]
fn r120_includes_line_charges_minus_allowances() {
        let mut inv = peppol();
        inv.lines[0].quantity = Some(Quantity::parse("1").unwrap());
        inv.lines[0].price = Some(Price {
            net: core_invoice::amount::UnitPriceAmount::parse("100.00").unwrap(),
            discount: None,
            gross: None,
            base_qty: None,
            base_unit: None,
        });
        inv.lines[0]
            .charges
            .push(core_invoice::invoice::LineAllowanceCharge {
                amount: InvoiceAmount::parse("5.00").unwrap(),
                base: None,
                percent: None,
                reason: None,
                reason_code: None,
            });
        inv.lines[0].net = InvoiceAmount::parse("105.00").unwrap();
        let _ = reconcile(&mut inv);
        let report = validate(&inv);
        assert!(
            report
                .findings
                .iter()
                .all(|f| f.id != "PEPPOL-EN16931-R120"),
            "{}", report.to_string()
        );
    }

#[test]
fn pint_my_does_not_run_peppol_r001() {
        let mut inv = peppol();
        inv.profile = Profile::PintMy;
        inv.specification_id = Some(Profile::PintMy.specification_id().into());
        inv.business_process = None;
        inv.seller.legal_registration = Some(Identifier::new("2023010000001"));
        inv.seller.tax_registration = Some(Identifier::new("C12345678901"));
        inv.buyer.legal_registration = Some(Identifier::new("1999010000001"));
        inv.lines[0].tax = TaxCategory::sst("SA", Percentage::new(Dec::new(10, 0)));
        let _ = reconcile(&mut inv);
        let report = validate(&inv);
        assert!(
            report
                .findings
                .iter()
                .all(|f| !f.id.starts_with("PEPPOL-EN16931")),
            "{}", report.to_string()
        );
    }
