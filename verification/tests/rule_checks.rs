use core_invoice::amount::{InvoiceAmount, UnitPriceAmount};
use core_invoice::attachment::Attachment;
use core_invoice::code::Code;
use core_invoice::date::Date;
use core_invoice::dec::Dec;
use core_invoice::identifier::{DocumentReference, Identifier};
use core_invoice::invoice::{
    AllowanceCharge, Contact, Delivery, DocumentTotals, Invoice, InvoiceNote, ItemAttribute, Line,
    LineAllowanceCharge, Party, Payee, PaymentInstructions, Period, PostalAddress, Price,
    PrecedingInvoice, SupportingDocument, TaxBreakdown, TaxRepresentative,
};
use core_invoice::kind::DocumentKind;
use core_invoice::numeric::{Percentage, Quantity};
use core_invoice::payment::{CreditTransfer, DirectDebit, PaymentCard, PaymentMeans};
use core_invoice::profile::Profile;
use core_invoice::reconcile::{reconcile, Reconciler};
use core_invoice::report::{Report, Severity};
use core_invoice::tax::{TaxCategory, TaxSystem};
use core_invoice::validate::validate;
use core_invoice::rules::{catalogue, explain};


#[test]
fn ibr_03_my_eval_fires_on_missing_buyer_brn() {
        let mut inv = core_invoice::invoice::Invoice::blank(
            core_invoice::profile::Profile::PintMy,
            "MY-1",
            "MYR",
            {
                let mut p = core_invoice::invoice::Party::new("S", "MY");
                p.legal_registration = Some(core_invoice::identifier::Identifier::new("2023010000001"));
                p.tax_registration = Some(core_invoice::identifier::Identifier::new("C12345678901"));
                p
            },
            core_invoice::invoice::Party::new("B", "MY"),
        );
        inv.issue_date = core_invoice::date::Date::parse("2026-01-15").ok();
        inv.type_code = Some(Code::new("380"));
        let report = validate(&inv);
        assert!(
            report.findings.iter().any(|f| f.id == "IBR-03-MY"),
            "{}", report.to_string()
        );
        let check = catalogue()
            .iter()
            .find(|r| r.id == "IBR-03-MY")
            .unwrap()
            .check;
        let mut from_eval = core_invoice::report::Report {
            profile_slug: "pint-my",
            ..core_invoice::report::Report::default()
        };
        core_invoice::validate::run_check(check, &inv, &mut from_eval);
        assert!(from_eval.findings.iter().any(|f| f.id == "IBR-03-MY"));
    }

#[test]
fn present_zero_allowance_total_without_bg20_is_not_br_co_11() {
        let mut inv = core_invoice::invoice::Invoice::blank(
            core_invoice::profile::Profile::En16931,
            "1",
            "EUR",
            {
                let mut p = core_invoice::invoice::Party::new("S", "DE");
                p.vat_identifier = Some(core_invoice::identifier::Identifier::new("DE1"));
                p
            },
            core_invoice::invoice::Party::new("B", "FR"),
        );
        inv.issue_date = core_invoice::date::Date::parse("2026-01-15").ok();
        inv.type_code = Some(Code::new("380"));
        inv.payment_terms = Some("Net 30".into());
        let mut line = core_invoice::invoice::Line::new(
            "1",
            "A",
            core_invoice::amount::InvoiceAmount::parse("100.00").unwrap(),
            core_invoice::tax::TaxCategory::vat("S", Percentage::new(Dec::new(19, 0))),
        );
        line.quantity = Some(core_invoice::numeric::Quantity::parse("1").unwrap());
        line.unit = Some(Code::new("C62"));
        line.price = Some(core_invoice::invoice::Price {
            net: core_invoice::amount::UnitPriceAmount::parse("100.00").unwrap(),
            discount: None,
            gross: None,
            base_qty: None,
            base_unit: None,
        });
        inv.lines = vec![line];
        core_invoice::reconcile::reconcile(&mut inv).unwrap();
        let t = inv.totals.as_mut().unwrap();
        t.allowance_total = Some(core_invoice::amount::InvoiceAmount::zero());
        let report = validate(&inv);
        assert!(
            report.findings.iter().all(|f| f.id != "BR-CO-11"),
            "{}", report.to_string()
        );
    }

#[test]
fn br_23_fires_without_quantity() {
        let mut inv = core_invoice::invoice::Invoice::blank(
            core_invoice::profile::Profile::En16931,
            "1",
            "EUR",
            core_invoice::invoice::Party::new("S", "DE"),
            core_invoice::invoice::Party::new("B", "FR"),
        );
        inv.lines = vec![core_invoice::invoice::Line::new(
            "1",
            "A",
            core_invoice::amount::InvoiceAmount::parse("1.00").unwrap(),
            core_invoice::tax::TaxCategory::vat("S", Percentage::new(Dec::new(19, 0))),
        )];
        let report = validate(&inv);
        assert!(report.findings.iter().any(|f| f.id == "BR-22"), "{}", report.to_string());
        assert!(report.findings.iter().any(|f| f.id == "BR-23"), "{}", report.to_string());
    }

#[test]
fn ibr_cl_05_my_bt6_must_be_myr() {
        let mut inv = core_invoice::invoice::Invoice::blank(
            core_invoice::profile::Profile::PintMy,
            "MY-1",
            "MYR",
            {
                let mut p = core_invoice::invoice::Party::new("S", "MY");
                p.legal_registration = Some(core_invoice::identifier::Identifier::new("2023010000001"));
                p.tax_registration = Some(core_invoice::identifier::Identifier::new("C12345678901"));
                p
            },
            {
                let mut b = core_invoice::invoice::Party::new("B", "MY");
                b.legal_registration = Some(core_invoice::identifier::Identifier::new("1999010000001"));
                b
            },
        );
        inv.issue_date = core_invoice::date::Date::parse("2026-01-15").ok();
        inv.type_code = Some(Code::new("380"));
        inv.tax_currency = Some(Code::new("USD"));
        let report = validate(&inv);
        assert!(
            report.findings.iter().any(|f| f.id == "IBR-CL-05-MY"),
            "{}", report.to_string()
        );
        inv.tax_currency = Some(Code::new("MYR"));
        assert!(
            validate(&inv)
                .findings
                .iter()
                .all(|f| f.id != "IBR-CL-05-MY")
        );
    }

#[test]
fn recargo_half_percent_does_not_take_zero_branch() {

        let mut inv = Invoice::blank(
            Profile::En16931,
            "INV-R",
            "EUR",
            {
                let mut p = Party::new("S", "ES");
                p.vat_identifier = Some(core_invoice::identifier::Identifier::new("ESA12345678"));
                p
            },
            Party::new("B", "ES"),
        );
        inv.issue_date = Date::parse("2026-01-15").ok();
        inv.type_code = Some(Code::new("380"));
        let rate = Percentage::new(Dec::parse("0.5").unwrap());
        inv.lines = vec![Line::new(
            "1",
            "Recargo",
            InvoiceAmount::parse("1000.00").unwrap(),
            TaxCategory::vat("S", rate),
        )];
        inv.tax_breakdown = vec![TaxBreakdown {
            system: TaxSystem::Vat,
            scheme: "VAT".into(),
            category: Code::new("S"),
            rate: Some(rate),
            taxable: InvoiceAmount::parse("1000.00").unwrap(),
            tax: InvoiceAmount::parse("5.00").unwrap(),
            exemption_reason: None,
            exemption_code: None,
        }];
        core_invoice::reconcile::reconcile(&mut inv).unwrap();
        let report = validate(&inv);
        assert!(
            report.findings.iter().all(|f| f.id != "BR-CO-17"),
            "{}", report.to_string()
        );
    }

#[test]
fn br_12_15_fire_when_totals_absent() {
        let inv = core_invoice::invoice::Invoice::blank(
            core_invoice::profile::Profile::En16931,
            "1",
            "EUR",
            {
                let mut p = core_invoice::invoice::Party::new("S", "DE");
                p.vat_identifier = Some(core_invoice::identifier::Identifier::new("DE123456789"));
                p
            },
            core_invoice::invoice::Party::new("B", "FR"),
        );
        let report = validate(&inv);
        for id in ["BR-12", "BR-13", "BR-14", "BR-15"] {
            assert!(report.findings.iter().any(|f| f.id == id), "{}: {}", id, report.to_string());
            assert!(explain(id).is_some());
        }
    }

#[test]
fn br_19_tax_rep_needs_address() {
        let mut inv = core_invoice::invoice::Invoice::blank(
            core_invoice::profile::Profile::En16931,
            "1",
            "EUR",
            core_invoice::invoice::Party::new("S", "DE"),
            core_invoice::invoice::Party::new("B", "FR"),
        );
        inv.tax_representative = Some(core_invoice::invoice::TaxRepresentative {
            name: "R".into(),
            vat_identifier: Some(core_invoice::identifier::Identifier::new("DE1")),
            address: None,
        });
        let report = validate(&inv);
        assert!(report.findings.iter().any(|f| f.id == "BR-19"), "{}", report.to_string());
    }

#[test]
fn br_32_33_on_document_allowance() {
        let mut inv = core_invoice::invoice::Invoice::blank(
            core_invoice::profile::Profile::En16931,
            "1",
            "EUR",
            core_invoice::invoice::Party::new("S", "DE"),
            core_invoice::invoice::Party::new("B", "FR"),
        );
        inv.document_allowances
            .push(core_invoice::invoice::AllowanceCharge {
                amount: core_invoice::amount::InvoiceAmount::parse("1.00").unwrap(),
                base: None,
                percent: None,
                reason: None,
                reason_code: None,
                tax: None,
            });
        let report = validate(&inv);
        assert!(report.findings.iter().any(|f| f.id == "BR-32"), "{}", report.to_string());
        assert!(report.findings.iter().any(|f| f.id == "BR-33"), "{}", report.to_string());
        assert!(explain("BR-31").unwrap().contains("BT-92"));
        assert!(explain("BR-36").unwrap().contains("BT-99"));
        assert!(explain("BR-41").unwrap().contains("BT-136"));
        assert!(explain("BR-43").unwrap().contains("BT-141"));
        assert!(explain("BR-45").unwrap().contains("BT-116"));
        assert!(explain("BR-46").unwrap().contains("BT-117"));
    }

#[test]
fn br_48_skips_o_and_ttx() {
        let mut inv = core_invoice::invoice::Invoice::blank(
            core_invoice::profile::Profile::En16931,
            "1",
            "EUR",
            core_invoice::invoice::Party::new("S", "DE"),
            core_invoice::invoice::Party::new("B", "FR"),
        );
        inv.tax_breakdown.push(TaxBreakdown {
            system: core_invoice::tax::TaxSystem::Vat,
            scheme: "VAT".into(),
            category: Code::new("S"),
            rate: None,
            taxable: core_invoice::amount::InvoiceAmount::parse("1.00").unwrap(),
            tax: core_invoice::amount::InvoiceAmount::zero(),
            exemption_reason: None,
            exemption_code: None,
        });
        let report = validate(&inv);
        assert!(report.findings.iter().any(|f| f.id == "BR-48"), "{}", report.to_string());
        inv.tax_breakdown[0].category = Code::new("O");
        assert!(
            validate(&inv)
                .findings
                .iter()
                .all(|f| f.id != "BR-48")
        );
        inv.tax_breakdown[0].category = Code::new("TTX");
        inv.tax_breakdown[0].scheme = "AAL".into();
        assert!(
            validate(&inv)
                .findings
                .iter()
                .all(|f| f.id != "BR-48")
        );
        inv.tax_breakdown[0].category = Code::new("");
        assert!(
            validate(&inv)
                .findings
                .iter()
                .any(|f| f.id == "BR-47")
        );
    }

#[test]
fn br_49_50_61_payment() {
        let mut inv = core_invoice::invoice::Invoice::blank(
            core_invoice::profile::Profile::En16931,
            "1",
            "EUR",
            core_invoice::invoice::Party::new("S", "DE"),
            core_invoice::invoice::Party::new("B", "FR"),
        );
        inv.payment = Some(core_invoice::invoice::PaymentInstructions {
            means_code: None,
            means_text: None,
            remittance: None,
            means: None,
        });
        let report = validate(&inv);
        assert!(report.findings.iter().any(|f| f.id == "BR-49"), "{}", report.to_string());
        inv.payment = Some(core_invoice::invoice::PaymentInstructions {
            means_code: Some(Code::new("30")),
            means_text: None,
            remittance: None,
            means: Some(core_invoice::payment::PaymentMeans::CreditTransfer(vec![
                core_invoice::payment::CreditTransfer {
                    account_id: core_invoice::identifier::Identifier::new(""),
                    account_name: None,
                    provider: None,
                },
            ])),
        });
        let report = validate(&inv);
        assert!(report.findings.iter().any(|f| f.id == "BR-50"), "{}", report.to_string());
        assert!(report.findings.iter().any(|f| f.id == "BR-61"), "{}", report.to_string());
        inv.payment = Some(core_invoice::invoice::PaymentInstructions {
            means_code: Some(Code::new("48")),
            means_text: None,
            remittance: None,
            means: Some(core_invoice::payment::PaymentMeans::Card(
                core_invoice::payment::PaymentCard {
                    pan: "4111".into(),
                    holder: None,
                },
            )),
        });
        let report = validate(&inv);
        assert!(report.findings.iter().all(|f| f.id != "BR-50"), "{}", report.to_string());
        assert!(report.findings.iter().all(|f| f.id != "BR-61"), "{}", report.to_string());
    }

#[test]
fn br_co_26_seller_identifiable() {
        let mut inv = core_invoice::invoice::Invoice::blank(
            core_invoice::profile::Profile::En16931,
            "1",
            "EUR",
            core_invoice::invoice::Party::new("S", "DE"),
            core_invoice::invoice::Party::new("B", "FR"),
        );
        let report = validate(&inv);
        assert!(
            report.findings.iter().any(|f| f.id == "BR-CO-26"),
            "{}", report.to_string()
        );
        inv.seller.vat_identifier = Some(core_invoice::identifier::Identifier::new("DE123"));
        assert!(
            validate(&inv)
                .findings
                .iter()
                .all(|f| f.id != "BR-CO-26")
        );
        let my = core_invoice::invoice::Invoice::blank(
            core_invoice::profile::Profile::PintMy,
            "1",
            "MYR",
            core_invoice::invoice::Party::new("S", "MY"),
            core_invoice::invoice::Party::new("B", "MY"),
        );
        assert!(
            validate(&my)
                .findings
                .iter()
                .all(|f| f.id != "BR-CO-26")
        );
        assert!(explain("BR-CO-26").unwrap().contains("BT-29"));
        assert!(explain("BR-42").is_some());
        assert!(explain("BR-44").is_some());
        assert!(explain("BR-37").is_some());
        assert!(explain("BR-38").is_some());
    }

#[test]
fn br_42_44_line_ac_reason() {
        let mut inv = core_invoice::invoice::Invoice::blank(
            core_invoice::profile::Profile::En16931,
            "1",
            "EUR",
            core_invoice::invoice::Party::new("S", "DE"),
            core_invoice::invoice::Party::new("B", "FR"),
        );
        let mut line = core_invoice::invoice::Line::new(
            "1",
            "A",
            core_invoice::amount::InvoiceAmount::parse("1.00").unwrap(),
            core_invoice::tax::TaxCategory::vat("S", Percentage::new(Dec::new(19, 0))),
        );
        line.allowances.push(core_invoice::invoice::LineAllowanceCharge {
            amount: core_invoice::amount::InvoiceAmount::parse("1.00").unwrap(),
            base: None,
            percent: None,
            reason: None,
            reason_code: None,
        });
        line.charges.push(core_invoice::invoice::LineAllowanceCharge {
            amount: core_invoice::amount::InvoiceAmount::parse("1.00").unwrap(),
            base: None,
            percent: None,
            reason: None,
            reason_code: None,
        });
        inv.lines = vec![line];
        let report = validate(&inv);
        assert!(report.findings.iter().any(|f| f.id == "BR-42"), "{}", report.to_string());
        assert!(report.findings.iter().any(|f| f.id == "BR-44"), "{}", report.to_string());
    }
