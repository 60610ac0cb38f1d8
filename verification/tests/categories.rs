use core_invoice::amount::{InvoiceAmount, UnitPriceAmount};
use core_invoice::attachment::Attachment;
use core_invoice::code::Code;
use core_invoice::date::Date;
use core_invoice::dec::Dec;
use core_invoice::identifier::{DocumentReference, Identifier};
use core_invoice::invoice::{
    AllowanceCharge, Contact, Delivery, DocumentTotals, Invoice, InvoiceNote, ItemAttribute, Line,
    LineAllowanceCharge, Party, Payee, PaymentInstructions, Period, PostalAddress, Price,
    PrecedingInvoice, SupportingDocument, TaxBreakdown, TaxRepresentative,
};
use core_invoice::kind::DocumentKind;
use core_invoice::numeric::{Percentage, Quantity};
use core_invoice::payment::{CreditTransfer, DirectDebit, PaymentCard, PaymentMeans};
use core_invoice::profile::Profile;
use core_invoice::reconcile::{reconcile, Reconciler};
use core_invoice::report::{Report, Severity};
use core_invoice::tax::{TaxCategory, TaxSystem};
use core_invoice::validate::validate;


fn amt(s: &str) -> InvoiceAmount {
        InvoiceAmount::parse(s).unwrap()
    }

fn en_s() -> Invoice {
        let mut inv = Invoice::blank(
            Profile::En16931,
            "INV-1",
            "EUR",
            {
                let mut p = Party::new("S", "DE");
                p.vat_identifier = Some(Identifier::new("DE123456789"));
                p
            },
            Party::new("B", "FR"),
        );
        inv.issue_date = Date::parse("2026-01-15").ok();
        inv.type_code = Some(Code::new("380"));
        inv.payment_terms = Some("Net 30".into());
        inv.lines = vec![Line::new(
            "1",
            "A",
            amt("100.00"),
            TaxCategory::vat("S", Percentage::new(Dec::new(19, 0))),
        )];
        reconcile(&mut inv).unwrap();
        inv
    }

#[test]
fn wrong_bt116_fails_br_s_08() {
        let mut inv = en_s();
        inv.tax_breakdown[0].taxable = amt("1.00");
        let report = validate(&inv);
        assert!(
            report.findings.iter().any(|f| f.id == "BR-S-08"),
            "{}", report.to_string()
        );
    }

#[test]
fn exempt_without_reason_fails_br_e_10() {
        let mut inv = en_s();
        inv.lines[0].tax = TaxCategory::vat("E", Percentage::new(Dec::new(0, 0)));
        reconcile(&mut inv).unwrap();
        let report = validate(&inv);
        assert!(
            report.findings.iter().any(|f| f.id == "BR-E-10"),
            "{}", report.to_string()
        );
    }

#[test]
fn zero_rated_with_exemption_fails_br_z_10() {
        let mut inv = en_s();
        inv.lines[0].tax = TaxCategory::vat("Z", Percentage::new(Dec::new(0, 0)));
        reconcile(&mut inv).unwrap();
        inv.tax_breakdown[0].exemption_reason = Some("no".into());
        let report = validate(&inv);
        assert!(
            report.findings.iter().any(|f| f.id == "BR-Z-10"),
            "{}", report.to_string()
        );
    }

#[test]
fn o_mixed_with_s_fails_exclusivity() {
        let mut inv = en_s();
        inv.lines.push(Line::new(
            "2",
            "Out",
            amt("10.00"),
            TaxCategory::vat("O", Percentage::new(Dec::new(0, 0))),
        ));
        reconcile(&mut inv).unwrap();
        let report = validate(&inv);
        assert!(
            report.findings.iter().any(|f| f.id == "BR-O-11"),
            "{}", report.to_string()
        );
    }

#[test]
fn sst_does_not_emit_br_s_08() {
        let mut inv = Invoice::blank(
            Profile::PintMy,
            "MY-1",
            "MYR",
            {
                let mut p = Party::new("Kedai", "MY");
                p.tax_registration = Some(Identifier::new("C12345678901"));
                p.legal_registration = Some(Identifier::new("2023010000001"));
                p
            },
            {
                let mut b = Party::new("Pembeli", "MY");
                b.legal_registration = Some(Identifier::new("1999010000001"));
                b
            },
        );
        inv.issue_date = Date::parse("2026-01-15").ok();
        inv.type_code = Some(Code::new("380"));
        inv.lines = vec![Line::new(
            "1",
            "W",
            amt("100.00"),
            TaxCategory::sst("SA", Percentage::new(Dec::new(10, 0))),
        )];
        inv.tax_breakdown = vec![TaxBreakdown {
            system: TaxSystem::Sst,
            scheme: "VAT".into(),
            category: Code::new("SA"),
            rate: Some(Percentage::new(Dec::new(10, 0))),
            taxable: amt("1.00"),
            tax: amt("10.00"),
            exemption_reason: None,
            exemption_code: None,
        }];
        inv.totals = Some(core_invoice::invoice::DocumentTotals {
            line_net: Some(amt("100.00")),
            allowance_total: None,
            charge_total: None,
            without_tax: Some(amt("100.00")),
            tax_total: Some(amt("10.00")),
            tax_total_accounting: None,
            with_tax: Some(amt("110.00")),
            paid: None,
            rounding: None,
            payable: Some(amt("110.00")),
        });
        let report = validate(&inv);
        assert!(
            report.findings.iter().all(|f| f.id != "BR-S-08"),
            "{}", report.to_string()
        );
        assert!(
            report
                .findings
                .iter()
                .any(|f| f.id == "ALIGNED-IBRP-SA-08-MY"),
            "{}", report.to_string()
        );
    }

#[test]
fn s_line_missing_vat_is_only_br_s_02() {
        let mut inv = en_s();
        inv.seller.vat_identifier = None;
        let report = validate(&inv);
        let ids: Vec<_> = report.findings.iter().map(|f| f.id).collect();
        assert!(ids.contains(&"BR-S-02"), "{}", report.to_string());
        assert!(!ids.contains(&"BR-S-03"), "{}", report.to_string());
        assert!(!ids.contains(&"BR-S-04"), "{}", report.to_string());
    }

#[test]
fn s_charge_missing_vat_is_only_br_s_04() {
        let mut inv = en_s();
        inv.seller.vat_identifier = None;
        inv.lines[0].tax = TaxCategory::vat("Z", Percentage::new(Dec::new(0, 0)));
        inv.document_charges.push(core_invoice::invoice::AllowanceCharge {
            amount: amt("10.00"),
            base: None,
            percent: None,
            reason: None,
            reason_code: None,
            tax: Some(TaxCategory::vat("S", Percentage::new(Dec::new(19, 0)))),
        });
        let _ = reconcile(&mut inv);
        let report = validate(&inv);
        let ids: Vec<_> = report.findings.iter().map(|f| f.id).collect();
        assert!(ids.contains(&"BR-S-04"), "{}", report.to_string());
        assert!(!ids.contains(&"BR-S-02"), "{}", report.to_string());
        assert!(!ids.contains(&"BR-S-03"), "{}", report.to_string());
    }

#[test]
fn o_group_plus_s_group_is_o_11() {
        let mut inv = en_s();
        inv.lines[0].tax = TaxCategory {
            system: TaxSystem::Vat,
            code: "O".into(),
            percent: None,
        };
        reconcile(&mut inv).unwrap();
        inv.tax_breakdown.push(core_invoice::invoice::TaxBreakdown {
            system: TaxSystem::Vat,
            scheme: "VAT".into(),
            category: Code::new("S"),
            rate: Some(Percentage::new(Dec::new(19, 0))),
            taxable: amt("0.00"),
            tax: amt("0.00"),
            exemption_reason: None,
            exemption_code: None,
        });
        let report = validate(&inv);
        assert!(
            report.findings.iter().any(|f| f.id == "BR-O-11"),
            "{}", report.to_string()
        );
    }

#[test]
fn o_group_plus_s_line_is_o_12() {
        let mut inv = en_s();
        inv.lines[0].tax = TaxCategory {
            system: TaxSystem::Vat,
            code: "O".into(),
            percent: None,
        };
        inv.lines.push(Line::new(
            "2",
            "Std",
            amt("10.00"),
            TaxCategory::vat("S", Percentage::new(Dec::new(19, 0))),
        ));
        let _ = reconcile(&mut inv);
        // Keep only the O group so O-12 is the mix on lines, not extra groups.
        inv.tax_breakdown
            .retain(|e| e.category.as_str().eq_ignore_ascii_case("O"));
        let report = validate(&inv);
        assert!(
            report.findings.iter().any(|f| f.id == "BR-O-12"),
            "{}", report.to_string()
        );
    }
