use core_invoice::amount::{InvoiceAmount, UnitPriceAmount};
use core_invoice::attachment::Attachment;
use core_invoice::code::Code;
use core_invoice::date::Date;
use core_invoice::dec::Dec;
use core_invoice::identifier::{DocumentReference, Identifier};
use core_invoice::invoice::{
    AllowanceCharge, Contact, Delivery, DocumentTotals, Invoice, InvoiceNote, ItemAttribute, Line,
    LineAllowanceCharge, Party, Payee, PaymentInstructions, Period, PostalAddress, Price,
    PrecedingInvoice, SupportingDocument, TaxBreakdown, TaxRepresentative,
};
use core_invoice::kind::DocumentKind;
use core_invoice::numeric::{Percentage, Quantity};
use core_invoice::payment::{CreditTransfer, DirectDebit, PaymentCard, PaymentMeans};
use core_invoice::profile::Profile;
use core_invoice::reconcile::{reconcile, Reconciler};
use core_invoice::report::{Report, Severity};
use core_invoice::tax::{TaxCategory, TaxSystem};
use core_invoice::validate::validate;


fn amt(s: &str) -> InvoiceAmount {
        InvoiceAmount::parse(s).unwrap()
    }

fn with_price(mut line: Line, price: &str) -> Line {
        line.quantity = Some(Quantity::parse("1").unwrap());
        line.unit = Some(Code::new("C62"));
        line.price = Some(core_invoice::invoice::Price {
            net: core_invoice::amount::UnitPriceAmount::parse(price).unwrap(),
            discount: None,
            gross: None,
            base_qty: None,
            base_unit: None,
        });
        line
    }

fn en_blank() -> Invoice {
        let mut inv = Invoice::blank(
            Profile::En16931,
            "INV-1",
            "EUR",
            {
                let mut p = Party::new("Seller GmbH", "DE");
                p.vat_identifier = Some(core_invoice::identifier::Identifier::new("DE123456789"));
                p
            },
            Party::new("Buyer SARL", "FR"),
        );
        inv.issue_date = Date::parse("2026-01-15").ok();
        inv.type_code = Some(Code::new("380"));
        inv
    }

#[test]
fn two_standard_rates_are_two_breakdown_rows() {
        let mut inv = en_blank();
        inv.lines = vec![
            with_price(
                Line::new(
                    "1",
                    "A",
                    amt("100.00"),
                    TaxCategory::vat("S", Percentage::new(Dec::new(19, 0))),
                ),
                "100.00",
            ),
            with_price(
                Line::new(
                    "2",
                    "B",
                    amt("50.00"),
                    TaxCategory::vat("S", Percentage::new(Dec::new(7, 0))),
                ),
                "50.00",
            ),
        ];
        reconcile(&mut inv).unwrap();
        assert_eq!(inv.tax_breakdown.len(), 2);
        let totals = inv.totals.as_ref().unwrap();
        assert_eq!(totals.line_net.unwrap(), amt("150.00"));
        assert_eq!(totals.allowance_total, None);
        assert_eq!(totals.charge_total, None);
        assert_eq!(totals.tax_total.unwrap(), amt("22.50"));
        assert_eq!(totals.with_tax.unwrap(), amt("172.50"));
        assert_eq!(totals.payable, Some(amt("172.50")));
        assert!(validate(&inv).ok(), "{}", validate(&inv).to_string());
    }

#[test]
fn empty_document_allowances_leave_bt_107_absent() {
        let mut inv = en_blank();
        inv.lines = vec![Line::new(
            "1",
            "A",
            amt("100.00"),
            TaxCategory::vat("S", Percentage::new(Dec::new(19, 0))),
        )];
        reconcile(&mut inv).unwrap();
        let t = inv.totals.as_ref().unwrap();
        assert_eq!(t.allowance_total, None);
        assert_eq!(t.charge_total, None);
    }

#[test]
fn prepaid_may_make_payable_negative() {
        let mut inv = en_blank();
        inv.lines = vec![with_price(
            Line::new(
                "1",
                "A",
                amt("125.00"),
                TaxCategory::vat("S", Percentage::new(Dec::new(10, 0))),
            ),
            "125.00",
        )];
        Reconciler::new()
            .paid(amt("250.00"))
            .apply(&mut inv)
            .unwrap();
        let t = inv.totals.as_ref().unwrap();
        assert_eq!(t.with_tax.unwrap(), amt("137.50"));
        assert_eq!(t.paid, Some(amt("250.00")));
        assert_eq!(t.payable, Some(amt("-112.50")));
        assert!(validate(&inv).ok(), "{}", validate(&inv).to_string());
    }

#[test]
fn stuffed_payable_fails_real_br_co_16() {
        let mut inv = en_blank();
        inv.lines = vec![with_price(
            Line::new(
                "1",
                "A",
                amt("125.00"),
                TaxCategory::vat("S", Percentage::new(Dec::new(10, 0))),
            ),
            "125.00",
        )];
        Reconciler::new()
            .paid(amt("250.00"))
            .apply(&mut inv)
            .unwrap();
        inv.totals.as_mut().unwrap().payable = Some(amt("137.50"));
        let report = validate(&inv);
        assert!(
            report.findings.iter().any(|f| f.id == "BR-CO-16"),
            "{}", report.to_string()
        );
    }

#[test]
fn credit_note_keeps_positive_amounts() {
        let mut inv = en_blank();
        inv.lines = vec![Line::new(
            "1",
            "A",
            amt("100.00"),
            TaxCategory::vat("S", Percentage::new(Dec::new(19, 0))),
        )];
        reconcile(&mut inv).unwrap();
        let cn = inv.clone().to_credit_note("CN-1", Date::parse("2026-01-16").unwrap());
        assert_eq!(cn.kind, DocumentKind::CreditNote);
        assert_eq!(cn.payable(), inv.payable());
    }

#[test]
fn pint_my_sa_and_se_are_two_rows() {
        let mut inv = Invoice::blank(
            Profile::PintMy,
            "MY-1",
            "MYR",
            {
                let mut p = Party::new("Kedai", "MY");
                p.tax_registration = Some(core_invoice::identifier::Identifier::new("C12345678901"));
                p.legal_registration = Some(core_invoice::identifier::Identifier::new("2023010000001"));
                p
            },
            {
                let mut b = Party::new("Pembeli", "MY");
                b.legal_registration = Some(core_invoice::identifier::Identifier::new("1999010000001"));
                b
            },
        );
        inv.issue_date = Date::parse("2026-01-15").ok();
        inv.type_code = Some(Code::new("380"));
        inv.lines = vec![
            {
                let mut l = Line::new(
                    "1",
                    "Taxed",
                    amt("100.00"),
                    TaxCategory::sst("SA", Percentage::new(Dec::new(10, 0))),
                );
                l.quantity = Some(Quantity::parse("1").unwrap());
                l.unit = Some(Code::new("C62"));
                l.price = Some(core_invoice::invoice::Price {
                    net: core_invoice::amount::UnitPriceAmount::parse("100.00").unwrap(),
                    discount: None,
                    gross: None,
                    base_qty: None,
                    base_unit: None,
                });
                l
            },
            {
                let mut l = Line::new(
                    "2",
                    "Exempt",
                    amt("40.00"),
                    TaxCategory::sst("SE", Percentage::new(Dec::new(8, 0))),
                );
                l.quantity = Some(Quantity::parse("1").unwrap());
                l.unit = Some(Code::new("C62"));
                l.price = Some(core_invoice::invoice::Price {
                    net: core_invoice::amount::UnitPriceAmount::parse("40.00").unwrap(),
                    discount: None,
                    gross: None,
                    base_qty: None,
                    base_unit: None,
                });
                l
            },
        ];
        reconcile(&mut inv).unwrap();
        assert_eq!(inv.tax_breakdown.len(), 2);
        assert!(
            inv.tax_breakdown
                .iter()
                .any(|r| r.category.as_str() == "SA" && r.tax == amt("10.00"))
        );
        assert!(
            inv.tax_breakdown
                .iter()
                .any(|r| r.category.as_str() == "SE" && r.tax == amt("3.20"))
        );
        assert!(validate(&inv).ok(), "{}", validate(&inv).to_string());
    }

#[test]
fn o_is_exclusive_one_group() {
        let mut inv = en_blank();
        inv.lines = vec![with_price(
            Line::new("1", "Out", amt("10.00"), TaxCategory::out_of_scope()),
            "10.00",
        )];
        reconcile(&mut inv).unwrap();
        assert_eq!(inv.tax_breakdown.len(), 1);
        assert_eq!(inv.tax_breakdown[0].category.as_str(), "O");
        assert_eq!(inv.tax_breakdown[0].rate, None);
        assert_eq!(inv.tax_breakdown[0].tax, amt("0.00"));
    }

#[test]
fn does_not_overwrite_existing_exemption_reason() {
        let mut inv = en_blank();
        inv.lines = vec![Line::new(
            "1",
            "Exempt",
            amt("10.00"),
            TaxCategory::vat("E", Percentage::new(Dec::new(0, 0))),
        )];
        inv.tax_breakdown = vec![TaxBreakdown {
            system: TaxSystem::Vat,
            scheme: "VAT".into(),
            category: Code::new("E"),
            rate: Some(Percentage::zero()),
            taxable: amt("10.00"),
            tax: amt("0.00"),
            exemption_reason: Some("exempt goods".into()),
            exemption_code: None,
        }];
        reconcile(&mut inv).unwrap();
        assert_eq!(
            inv.tax_breakdown[0].exemption_reason.as_deref(),
            Some("exempt goods")
        );
    }
