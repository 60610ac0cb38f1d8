use core_invoice::amount::{InvoiceAmount, UnitPriceAmount};
use core_invoice::attachment::Attachment;
use core_invoice::code::Code;
use core_invoice::date::Date;
use core_invoice::dec::Dec;
use core_invoice::identifier::{DocumentReference, Identifier};
use core_invoice::invoice::{
    AllowanceCharge, Contact, Delivery, DocumentTotals, Invoice, InvoiceNote, ItemAttribute, Line,
    LineAllowanceCharge, Party, Payee, PaymentInstructions, Period, PostalAddress, Price,
    PrecedingInvoice, SupportingDocument, TaxBreakdown, TaxRepresentative,
};
use core_invoice::kind::DocumentKind;
use core_invoice::numeric::{Percentage, Quantity};
use core_invoice::payment::{CreditTransfer, DirectDebit, PaymentCard, PaymentMeans};
use core_invoice::profile::Profile;
use core_invoice::reconcile::{reconcile, Reconciler};
use core_invoice::report::{Report, Severity};
use core_invoice::tax::{TaxCategory, TaxSystem};
use core_invoice::validate::validate;


#[test]
fn credit_note_does_not_negate() {
        let mut inv = Invoice::blank(
            Profile::En16931,
            "INV-1",
            "EUR",
            Party::new("S", "DE"),
            Party::new("B", "FR"),
        );
        inv.issue_date = Date::parse("2026-01-15").ok();
        inv.type_code = Some(Code::new("380"));
        inv.lines = vec![Line::new(
            "1",
            "A",
            InvoiceAmount::parse("100.00").unwrap(),
            TaxCategory::vat("S", Percentage::new(Dec::new(19, 0))),
        )];
        let _ = core_invoice::reconcile::reconcile(&mut inv);
        let cn = inv.clone().to_credit_note("CN-1", Date::parse("2026-01-16").unwrap());
        assert_eq!(cn.kind, DocumentKind::CreditNote);
        assert_eq!(cn.payable(), inv.payable());
        assert_eq!(cn.preceding[0].reference.as_str(), "INV-1");
        assert_eq!(cn.type_code.as_ref().map(Code::as_str), Some("381"));
    }

#[test]
fn table2_refs_and_line_groups_exist() {
        let mut inv = Invoice::blank(
            Profile::En16931,
            "INV-1",
            "EUR",
            Party::new("S", "DE"),
            Party::new("B", "FR"),
        );
        inv.tax_point_date = Date::parse("2026-01-10").ok();
        inv.tax_point_code = Some(Code::new("3"));
        inv.purchase_order = Some(DocumentReference::new("PO-9"));
        inv.invoiced_object = Some(Identifier::new("OBJ-1"));
        inv.lines.push({
            let mut line = Line::new(
                "1",
                "A",
                InvoiceAmount::parse("90.00").unwrap(),
                TaxCategory::vat("S", Percentage::new(Dec::new(19, 0))),
            );
            line.period = Some(Period {
                start: Date::parse("2026-01-01").ok(),
                end: Date::parse("2026-01-31").ok(),
            });
            line.allowances.push(LineAllowanceCharge {
                amount: InvoiceAmount::parse("10.00").unwrap(),
                base: None,
                percent: None,
                reason: Some("discount".into()),
                reason_code: None,
            });
            line.standard_id = Some(Identifier::schemed("01234567890128", "0160"));
            line.origin_country = Some(Code::new("DE"));
            line
        });
        assert_eq!(inv.purchase_order.as_ref().unwrap().as_str(), "PO-9");
        assert_eq!(inv.lines[0].allowances.len(), 1);
        assert_eq!(inv.lines[0].origin_country.as_ref().unwrap().as_str(), "DE");
        assert!(inv.invoiced_object.is_some());
    }
