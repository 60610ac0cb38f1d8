use core_invoice::amount::{InvoiceAmount, UnitPriceAmount};
use core_invoice::attachment::Attachment;
use core_invoice::code::Code;
use core_invoice::date::Date;
use core_invoice::dec::Dec;
use core_invoice::identifier::{DocumentReference, Identifier};
use core_invoice::invoice::{
    AllowanceCharge, Contact, Delivery, DocumentTotals, Invoice, InvoiceNote, ItemAttribute, Line,
    LineAllowanceCharge, Party, Payee, PaymentInstructions, Period, PostalAddress, Price,
    PrecedingInvoice, SupportingDocument, TaxBreakdown, TaxRepresentative,
};
use core_invoice::kind::DocumentKind;
use core_invoice::numeric::{Percentage, Quantity};
use core_invoice::payment::{CreditTransfer, DirectDebit, PaymentCard, PaymentMeans};
use core_invoice::profile::Profile;
use core_invoice::reconcile::{reconcile, Reconciler};
use core_invoice::report::{Report, Severity};
use core_invoice::tax::{TaxCategory, TaxSystem};
use core_invoice::validate::validate;
use core_invoice::profile_proof::{Check, En16931, PeppolBis3, ProveError, Validated};


fn peppol_ok() -> Invoice {
        let mut inv = Invoice::blank(
            Profile::PeppolBis3,
            "EU-1",
            "EUR",
            {
                let mut p = Party::new("Seller GmbH", "DE");
                p.vat_identifier = Some(Identifier::new("DE123456789"));
                p
            },
            {
                let mut b = Party::new("Buyer SARL", "FR");
                b.vat_identifier = Some(Identifier::new("FR12345678901"));
                b
            },
        );
        inv.issue_date = Date::parse("2026-01-15").ok();
        inv.type_code = Some(Code::new("380"));
        inv.business_process = Some("urn:fdc:peppol.eu:2017:poacc:billing:01:1.0".into());
        inv.buyer_reference = Some(core_invoice::identifier::DocumentReference::new("PO-1"));
        inv.lines = vec![Line::new(
            "1",
            "A",
            InvoiceAmount::parse("100.00").unwrap(),
            TaxCategory::vat("S", Percentage::new(Dec::new(19, 0))),
        )];
        reconcile(&mut inv).unwrap();
        inv
    }

#[test]
fn invalid_invoice_cannot_produce_validated() {
        let mut inv = peppol_ok();
        inv.number.clear();
        assert!(Validated::<PeppolBis3>::new(inv).is_err());
    }

#[test]
fn suppression_cannot_prove() {
        let inv = peppol_ok();
        let err = Check::new().without("BR-02").prove::<PeppolBis3>(inv);
        assert!(matches!(err, Err(ProveError::Suppressed(_))));
    }

#[test]
fn underlies_pairs_are_cius_only() {
        fn _peppol_to_core(v: Validated<PeppolBis3>) -> Validated<En16931> {
            v.widen()
        }
        // Pint / PintMy do not implement Underlies<En16931> or Underlies<PeppolBis3>.
        // If they did, the following would compile:
        // fn _pint_to_core(v: Validated<Pint>) -> Validated<En16931> { v.widen() }
    }
