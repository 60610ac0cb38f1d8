use core_invoice::attachment::Attachment;
use core_invoice::amount::{InvoiceAmount, UnitPriceAmount};
use core_invoice::code::Code;
use core_invoice::date::Date;
use core_invoice::dec::Dec;
use core_invoice::formats::{
    cii, cii_dropped, cii_write, convert, diff, diff_invoices, prohibitions, read, read_with_trace, ubl,
    ubl_write, write_drops, write_unchecked, FormatError, Syntax,
};
use core_invoice::identifier::{DocumentReference, Identifier};
use core_invoice::invoice::{
    Delivery, Invoice, InvoiceNote, ItemAttribute, LineAllowanceCharge, Party, Payee, PaymentInstructions,
    Period, PostalAddress, Price, SupportingDocument, TaxBreakdown, TaxRepresentative,
};
use core_invoice::kind::DocumentKind;
use core_invoice::numeric::{Percentage, Quantity};
use core_invoice::payment::{CreditTransfer, PaymentMeans};
use core_invoice::profile::Profile;
use core_invoice::tax::{TaxCategory, TaxSystem};
use core_invoice::{reconcile, validate, Line};

fn pct(n: i64) -> Percentage {
    Percentage::new(Dec::new(n, 0))
}


fn ubl_sample() -> Invoice {
        let mut inv = Invoice::blank(
            Profile::PeppolBis3,
            "EU-1",
            "EUR",
            {
                let mut p = Party::new("Seller GmbH", "DE");
                p.vat_identifier = Some(Identifier::new("DE123456789"));
                p.electronic_address = Some(Identifier::schemed("1234567890128", "0088"));
                p
            },
            {
                let mut b = Party::new("Buyer SARL", "FR");
                b.vat_identifier = Some(Identifier::new("FR12345678901"));
                b
            },
        );
        inv.issue_date = Date::parse("2026-01-15").ok();
        inv.type_code = Some(Code::new("380"));
        inv.lines = vec![Line::new(
            "1",
            "Service",
            InvoiceAmount::parse("100.00").unwrap(),
            TaxCategory::vat("S", pct(19)),
        )];
        reconcile(&mut inv).unwrap();
        inv
    }

#[test]
fn round_trip_keeps_model_fields() {
        let inv = ubl_sample();
        let xml = ubl_write::write_unchecked(&inv);
        assert!(xml.contains("IssueDate"));
        assert!(xml.contains("InvoiceTypeCode"));
        assert!(xml.contains("EndpointID"));
        assert!(xml.contains("TaxSubtotal"));
        assert!(xml.contains("LineExtensionAmount"));
        assert!(!xml.contains(">SST<"));
        let back = ubl::read(&xml).unwrap().invoice;
        assert_eq!(back.number, inv.number);
        assert_eq!(back.currency, "EUR");
        assert_eq!(back.kind, DocumentKind::Invoice);
        assert_eq!(back.lines[0].id, "1");
        assert_eq!(back.lines[0].name, "Service");
        assert_eq!(back.lines[0].tax.code, "S");
        assert_eq!(back.seller.name, "Seller GmbH");
        assert_eq!(back.issue_date, inv.issue_date);
        assert_eq!(back.type_code.as_ref().map(Code::as_str), Some("380"));
        assert!(back.totals.is_some());
    }

#[test]
fn round_trip_keeps_line_bt132_133_156_and_bg32() {
        let mut inv = ubl_sample();
        inv.lines[0].order_line = Some("PO-LINE-9".into());
        inv.lines[0].accounting_reference = Some("ACC-441".into());
        inv.lines[0].buyer_id = Some(Identifier::new("BUY-SKU"));
        inv.lines[0].attributes.push(ItemAttribute {
            name: "Colour".into(),
            value: "blue".into(),
        });
        let xml = ubl_write::write_unchecked(&inv);
        assert!(xml.contains("OrderLineReference"), "{xml}");
        assert!(xml.contains("PO-LINE-9"), "{xml}");
        assert!(xml.contains("AccountingCost"), "{xml}");
        assert!(xml.contains("BuyersItemIdentification"), "{xml}");
        assert!(xml.contains("AdditionalItemProperty"), "{xml}");
        let back = ubl::read(&xml).unwrap().invoice;
        assert_eq!(back.lines[0].order_line.as_deref(), Some("PO-LINE-9"));
        assert_eq!(
            back.lines[0].accounting_reference.as_deref(),
            Some("ACC-441")
        );
        assert_eq!(
            back.lines[0].buyer_id.as_ref().map(|i| i.value.as_str()),
            Some("BUY-SKU")
        );
        assert_eq!(back.lines[0].attributes[0].name, "Colour");
        assert_eq!(back.lines[0].attributes[0].value, "blue");
    }

#[test]
fn round_trip_payee_tax_rep_delivery() {
        let mut inv = ubl_sample();
        inv.payee = Some(Payee {
            name: "Payee AG".into(),
            identifier: None,
            legal_registration: None,
        });
        inv.tax_representative = Some(TaxRepresentative {
            name: "TaxRep GmbH".into(),
            vat_identifier: Some(Identifier::new("DE123")),
            address: Some(PostalAddress {
                line1: None,
                line2: None,
                line3: None,
                city: None,
                post_code: None,
                subdivision: None,
                country: Some(Code::new("DE")),
            }),
        });
        inv.delivery = Some(Delivery {
            name: None,
            location_id: None,
            date: Date::parse("2026-01-20").ok(),
            address: Some(PostalAddress {
                line1: None,
                line2: None,
                line3: None,
                city: None,
                post_code: None,
                subdivision: None,
                country: Some(Code::new("DE")),
            }),
        });
        let xml = ubl_write::write_unchecked(&inv);
        assert!(
            !xml.contains("TaxRepresentativeParty><cac:Party>"),
            "PartyType children sit directly under TaxRepresentativeParty: {xml}"
        );
        let back = ubl::read(&xml).unwrap().invoice;
        assert_eq!(
            back.payee.as_ref().map(|p| p.name.as_str()),
            Some("Payee AG")
        );
        assert_eq!(
            back.tax_representative.as_ref().map(|t| t.name.as_str()),
            Some("TaxRep GmbH")
        );
        assert_eq!(
            back.delivery.as_ref().and_then(|d| d.date),
            inv.delivery.as_ref().and_then(|d| d.date)
        );
    }

#[test]
fn invoice_due_date_comes_before_type_code() {
        let mut inv = ubl_sample();
        inv.due_date = Date::parse("2026-02-01").ok();
        inv.notes.push(InvoiceNote {
            subject: Some(Code::new("AAA")),
            text: "hello".into(),
        });
        let xml = ubl_write::write_unchecked(&inv);
        let due = xml.find("DueDate").unwrap();
        let ty = xml.find("InvoiceTypeCode").unwrap();
        let note = xml.find("<cbc:Note>").unwrap();
        assert!(due < ty && ty < note, "{xml}");
        let back = ubl::read(&xml).unwrap().invoice;
        assert_eq!(back.due_date, inv.due_date);
        assert_eq!(
            back.notes[0].subject.as_ref().map(Code::as_str),
            Some("AAA")
        );
        assert_eq!(back.notes[0].text, "hello");
    }

#[test]
fn credit_note_duedate_is_stored_not_written() {
        let mut inv = ubl_sample();
        inv.kind = DocumentKind::CreditNote;
        inv.type_code = Some(Code::new("381"));
        inv.due_date = Date::parse("2026-02-01").ok();
        let xml = ubl_write::write_unchecked(&inv);
        assert!(
            !xml.contains("DueDate"),
            "UBL CreditNote writer omits DueDate"
        );
        let xml = xml.replacen(
            "<cbc:CreditNoteTypeCode>",
            "<cbc:DueDate>2026-02-01</cbc:DueDate><cbc:CreditNoteTypeCode>",
            1,
        );
        let traced = ubl::read(&xml).unwrap();
        assert!(
            traced.malformed.iter().all(|m| !m.contains("DueDate")),
            "{:?}",
            traced.malformed
        );
        assert_eq!(traced.invoice.due_date, Date::parse("2026-02-01").ok());
    }

#[test]
fn payment_credit_transfer_round_trips_iban() {
        let mut inv = ubl_sample();
        inv.payment = Some(PaymentInstructions {
            means_code: Some(Code::new("30")),
            means_text: Some("credit transfer".into()),
            remittance: Some("RF12".into()),
            means: Some(PaymentMeans::CreditTransfer(vec![CreditTransfer {
                account_id: Identifier::new("DE89370400440532013000"),
                account_name: Some("Seller GmbH".into()),
                provider: Some("COBADEFFXXX".into()),
            }])),
        });
        let xml = ubl_write::write_unchecked(&inv);
        assert!(xml.contains("name=\"credit transfer\""));
        assert!(!xml.contains("InstructionNote"));
        let back = ubl::read(&xml).unwrap().invoice;
        match back.payment.unwrap().means.unwrap() {
            PaymentMeans::CreditTransfer(a) => {
                assert_eq!(a[0].account_id.value, "DE89370400440532013000");
                assert_eq!(a[0].provider.as_deref(), Some("COBADEFFXXX"));
            }
            other => panic!("{other:?}"),
        }
    }

#[test]
fn dual_taxtotal_does_not_swap_bt110_bt111() {
        let mut inv = ubl_sample();
        inv.tax_currency = Some(Code::new("USD"));
        inv.totals.as_mut().unwrap().tax_total_accounting = Some(InvoiceAmount::parse("20.00").unwrap());
        let xml = ubl_write::write_unchecked(&inv);
        assert!(xml.matches("<cac:TaxTotal>").count() >= 2);
        let back = ubl::read(&xml).unwrap().invoice;
        assert_eq!(back.tax_currency.as_ref().map(Code::as_str), Some("USD"));
        assert_eq!(
            back.totals.unwrap().tax_total_accounting,
            Some(InvoiceAmount::parse("20.00").unwrap())
        );
    }

#[test]
fn attachment_round_trips() {
        let mut inv = ubl_sample();
        inv.supporting_documents.push(SupportingDocument {
            id: DocumentReference::new("ATT-1"),
            description: Some("terms".into()),
            uri: None,
            attachment: Some(
                Attachment::new(b"%PDF-demo".to_vec(), "application/pdf", "terms.pdf").unwrap(),
            ),
        });
        let xml = ubl_write::write_unchecked(&inv);
        assert!(xml.contains("EmbeddedDocumentBinaryObject"));
        let back = ubl::read(&xml).unwrap().invoice;
        let att = back.supporting_documents[0].attachment.as_ref().unwrap();
        assert_eq!(att.filename, "terms.pdf");
        assert_eq!(att.bytes, b"%PDF-demo");
    }

#[test]
fn missing_currency_is_not_invented_eur() {
        let xml = r#"<Invoice xmlns="urn:oasis:names:specification:ubl:schema:xsd:Invoice-2" xmlns:cbc="urn:oasis:names:specification:ubl:schema:xsd:CommonBasicComponents-2"><cbc:ID>1</cbc:ID></Invoice>"#;
        let inv = ubl::read(xml).unwrap().invoice;
        assert!(inv.currency.is_empty());
        let xml = ubl_write::write_unchecked(&inv);
        assert!(!xml.contains("currencyID=\"EUR\""));
        assert!(!xml.contains("DocumentCurrencyCode"));
    }

#[test]
fn missing_country_is_not_invented_xx() {
        let xml = r#"<Invoice xmlns="urn:oasis:names:specification:ubl:schema:xsd:Invoice-2" xmlns:cbc="urn:oasis:names:specification:ubl:schema:xsd:CommonBasicComponents-2" xmlns:cac="urn:oasis:names:specification:ubl:schema:xsd:CommonAggregateComponents-2"><cbc:ID>1</cbc:ID><cac:AccountingSupplierParty><cac:Party><cac:PartyName><cbc:Name>A</cbc:Name></cac:PartyName></cac:Party></cac:AccountingSupplierParty></Invoice>"#;
        let inv = ubl::read(xml).unwrap().invoice;
        assert!(inv.seller.country().is_empty());
        assert_ne!(inv.seller.country(), "XX");
        let report = validate(&inv);
        assert!(report.findings.iter().any(|f| f.id == "BR-09"), "{}", report.to_string());
    }

#[test]
fn credit_note_root() {
        let mut inv = ubl_sample();
        inv.kind = DocumentKind::CreditNote;
        inv.type_code = Some(Code::new("381"));
        let xml = ubl_write::write_unchecked(&inv);
        assert!(xml.contains("<CreditNote "));
        assert!(xml.contains("CreditNoteTypeCode"));
        assert!(xml.contains("CreditNoteLine"));
        let back = ubl::read(&xml).unwrap().invoice;
        assert_eq!(back.kind, DocumentKind::CreditNote);
    }

#[test]
fn pint_my_never_emits_taxscheme_sst() {
        let mut inv = Invoice::blank(
            Profile::PintMy,
            "MY-1",
            "MYR",
            {
                let mut p = Party::new("Kedai", "MY");
                p.tax_registration = Some(Identifier::new("C12345678901"));
                p.legal_registration = Some(Identifier::new("2023010000001"));
                p.electronic_address = Some(Identifier::schemed("C12345678901", "0230"));
                p
            },
            {
                let mut b = Party::new("Pembeli", "MY");
                b.legal_registration = Some(Identifier::new("1999010000001"));
                b
            },
        );
        inv.issue_date = Date::parse("2026-01-15").ok();
        inv.type_code = Some(Code::new("380"));
        inv.lines = vec![Line::new(
            "1",
            "W",
            InvoiceAmount::parse("100.00").unwrap(),
            TaxCategory::sst("SA", pct(10)),
        )];
        reconcile(&mut inv).unwrap();
        let xml = ubl_write::write_unchecked(&inv);
        assert!(!xml.contains(">SST<"), "{xml}");
        assert!(xml.contains("schemeID=\"GST\""));
        assert!(
            xml.contains("schemeID=\"GST\"") && xml.contains(">VAT<"),
            "{xml}"
        );
        assert!(xml.contains("schemeID=\"0230\""));
        let back = ubl::read(&xml).unwrap().invoice;
        assert_eq!(
            back.seller
                .tax_registration
                .as_ref()
                .map(|i| i.value.as_str()),
            Some("C12345678901")
        );
        assert_eq!(back.lines[0].tax.code, "SA");
        assert_eq!(back.lines[0].tax.system, TaxSystem::Sst);
    }

#[test]
fn legal_monetary_total_follows_xsd_sequence() {
        let mut inv = ubl_sample();
        let t = inv.totals.as_mut().unwrap();
        t.allowance_total = Some(InvoiceAmount::parse("1.00").unwrap());
        t.charge_total = Some(InvoiceAmount::parse("2.00").unwrap());
        t.paid = Some(InvoiceAmount::parse("3.00").unwrap());
        t.rounding = Some(InvoiceAmount::parse("0.01").unwrap());
        let xml = ubl_write::write_unchecked(&inv);
        let line = xml.find("LineExtensionAmount").unwrap();
        let excl = xml.find("TaxExclusiveAmount").unwrap();
        let incl = xml.find("TaxInclusiveAmount").unwrap();
        let allw = xml.find("AllowanceTotalAmount").unwrap();
        let chg = xml.find("ChargeTotalAmount").unwrap();
        let paid = xml.find("PrepaidAmount").unwrap();
        let round = xml.find("PayableRoundingAmount").unwrap();
        let pay = xml.find("PayableAmount").unwrap();
        assert!(
            line < excl
                && excl < incl
                && incl < allw
                && allw < chg
                && chg < paid
                && paid < round
                && round < pay,
            "{xml}"
        );
        assert!(!xml.contains("AllowanceTotalAmount currencyID=\"EUR\">0<"));
    }

#[test]
fn price_discount_gross_round_trip() {
        let mut inv = ubl_sample();
        inv.lines[0].price = Some(Price {
            net: UnitPriceAmount::parse("9.00").unwrap(),
            discount: Some(UnitPriceAmount::parse("1.005").unwrap()),
            gross: Some(UnitPriceAmount::parse("10.005").unwrap()),
            base_qty: None,
            base_unit: None,
        });
        let xml = ubl_write::write_unchecked(&inv);
        assert!(xml.contains("<cbc:ChargeIndicator>false</cbc:ChargeIndicator>"));
        let back = ubl::read(&xml).unwrap().invoice;
        let p = back.lines[0].price.as_ref().unwrap();
        assert_eq!(p.discount.as_ref().unwrap().to_string(), "1.005");
        assert_eq!(p.gross.as_ref().unwrap().to_string(), "10.005");
    }

#[test]
fn credit_note_duedate_write_drop_is_named() {
        let mut inv = ubl_sample();
        inv.kind = DocumentKind::CreditNote;
        inv.type_code = Some(Code::new("381"));
        inv.due_date = Date::parse("2026-02-01").ok();
        let drops = ubl_write::write_drops(&inv);
        assert!(drops.iter().any(|d| d == "CreditNote/DueDate"), "{drops:?}");
        assert!(!ubl_write::write_unchecked(&inv).contains("DueDate"));
    }

fn cii_sample() -> Invoice {
        let mut inv = Invoice::blank(
            Profile::En16931,
            "INV-CII",
            "EUR",
            {
                let mut p = Party::new("Seller GmbH", "DE");
                p.vat_identifier = Some(Identifier::schemed("DE123456789", "VA"));
                p
            },
            Party::new("Buyer SARL", "FR"),
        );
        inv.issue_date = Date::parse("2026-01-15").ok();
        inv.type_code = Some(Code::new("380"));
        inv.lines = vec![{
            let mut line = Line::new(
                "1",
                "Service",
                InvoiceAmount::parse("100.00").unwrap(),
                TaxCategory::vat("S", pct(19)),
            );
            line.quantity = Some(Quantity::parse("1").unwrap());
            line.unit = Some(Code::new("C62"));
            line.price = Some(Price {
                net: UnitPriceAmount::parse("100.00").unwrap(),
                discount: None,
                gross: None,
                base_qty: None,
                base_unit: None,
            });
            line
        }];
        inv.payment_terms = Some("Net 30".into());
        reconcile(&mut inv).unwrap();
        inv
    }

fn cii_with_tail() -> Invoice {
        let mut inv = cii_sample();
        inv.despatch = Some(DocumentReference::new("DES-1"));
        inv.receiving_advice = Some(DocumentReference::new("REC-1"));
        inv.buyer_accounting = Some("ACC-19".into());
        inv.tax_point_date = Date::parse("2026-01-10").ok();
        inv.tax_point_code = Some(Code::new("3"));
        inv.tax_breakdown = vec![
            TaxBreakdown {
                system: TaxSystem::Vat,
                scheme: "VAT".into(),
                category: Code::new("S"),
                rate: Some(Percentage::new(Dec::new(19, 0))),
                taxable: InvoiceAmount::parse("100.00").unwrap(),
                tax: InvoiceAmount::parse("19.00").unwrap(),
                exemption_reason: None,
                exemption_code: None,
            },
            TaxBreakdown {
                system: TaxSystem::Vat,
                scheme: "VAT".into(),
                category: Code::new("E"),
                rate: Some(Percentage::new(Dec::zero())),
                taxable: InvoiceAmount::parse("0.00").unwrap(),
                tax: InvoiceAmount::parse("0.00").unwrap(),
                exemption_reason: None,
                exemption_code: None,
            },
        ];
        let line = &mut inv.lines[0];
        line.note = Some("line note".into());
        line.description = Some("desc".into());
        line.standard_id = Some(Identifier::schemed("01234567890128", "0160"));
        line.item_id = Some(Identifier::new("SELL-1"));
        line.buyer_id = Some(Identifier::new("BUY-1"));
        line.attributes = vec![ItemAttribute {
            name: "Color".into(),
            value: "Blue".into(),
        }];
        line.classifications = vec![Identifier::schemed("12345678", "STI")];
        line.origin_country = Some(Code::new("DE"));
        line.order_line = Some("PO-L-1".into());
        line.period = Some(Period {
            start: Date::parse("2026-01-01").ok(),
            end: Date::parse("2026-01-31").ok(),
        });
        line.allowances = vec![LineAllowanceCharge {
            amount: InvoiceAmount::parse("1.00").unwrap(),
            base: Some(InvoiceAmount::parse("10.00").unwrap()),
            percent: Some(Percentage::new(Dec::new(10, 0))),
            reason: Some("rebate".into()),
            reason_code: Some(Code::new("95")),
        }];
        line.charges = vec![LineAllowanceCharge {
            amount: InvoiceAmount::parse("0.50").unwrap(),
            base: None,
            percent: None,
            reason: Some("pack".into()),
            reason_code: None,
        }];
        line.invoiced_object = Some(Identifier::new("OBJ-1"));
        line.invoiced_object_code = Some(Code::new("130"));
        line.accounting_reference = Some("COST-133".into());
        line.price = Some(Price {
            net: UnitPriceAmount::parse("100.00").unwrap(),
            discount: Some(UnitPriceAmount::parse("5.00").unwrap()),
            gross: Some(UnitPriceAmount::parse("105.00").unwrap()),
            base_qty: Some(Quantity::parse("1").unwrap()),
            base_unit: Some(Code::new("C62")),
        });
        inv
    }

#[test]
fn model_built_en_cii_has_no_prohibition_hits() {
        let xml = cii_write::write_unchecked(&cii_sample()).unwrap();
        let hits = prohibitions::scan_written(&xml, Syntax::Cii);
        assert!(hits.is_empty(), "{hits:?}\n{xml}");
    }

#[test]
fn lines_come_before_header_in_the_transaction() {
        let xml = cii_write::write_unchecked(&cii_sample()).unwrap();
        let line_at = xml.find("IncludedSupplyChainTradeLineItem").unwrap();
        let header_at = xml.find("ApplicableHeaderTradeAgreement").unwrap();
        assert!(line_at < header_at, "CII D16B puts lines before header");
        assert!(xml.contains("format=\"102\">20260115<"));
        assert!(!xml.contains("<Invoice "));
    }

#[test]
fn round_trip_cii() {
        let inv = cii_sample();
        let xml = cii_write::write_unchecked(&inv).unwrap();
        let back = cii::read(&xml).unwrap().invoice;
        assert_eq!(back.number, "INV-CII");
        assert_eq!(back.lines[0].quantity, inv.lines[0].quantity);
        assert_eq!(
            back.lines[0].price.as_ref().map(|p| p.net),
            inv.lines[0].price.as_ref().map(|p| p.net)
        );
        assert_eq!(back.currency, "EUR");
        assert_eq!(back.lines[0].id, "1");
        assert_eq!(back.lines[0].tax.code, "S");
        assert_eq!(back.issue_date, inv.issue_date);
    }

#[test]
fn cii_round_trip_keeps_despatch_and_receiving_advice() {
        let inv = cii_with_tail();
        let xml = cii_write::write_unchecked(&inv).unwrap();
        let back = cii::read(&xml).unwrap().invoice;
        assert_eq!(back.despatch, inv.despatch);
        assert_eq!(back.receiving_advice, inv.receiving_advice);
        let ship = xml.find("ShipToTradeParty");
        let actual = xml.find("ActualDeliverySupplyChainEvent");
        let des = xml.find("DespatchAdviceReferencedDocument").unwrap();
        let rec = xml.find("ReceivingAdviceReferencedDocument").unwrap();
        if let (Some(s), Some(a)) = (ship, actual) {
            assert!(s < a && a < des && des < rec, "{xml}");
        } else {
            assert!(des < rec, "{xml}");
        }
    }

#[test]
fn cii_despatch_without_delivery_does_not_self_close_away_the_ref() {
        let mut inv = cii_sample();
        inv.delivery = None;
        inv.despatch = Some(DocumentReference::new("DES-ONLY"));
        let xml = cii_write::write_unchecked(&inv).unwrap();
        assert!(xml.contains("DespatchAdviceReferencedDocument"), "{xml}");
        assert!(
            !xml.contains("<ram:ApplicableHeaderTradeDelivery/>"),
            "{xml}"
        );
        let back = cii::read(&xml).unwrap().invoice;
        assert_eq!(back.despatch.as_ref().map(|d| d.as_str()), Some("DES-ONLY"));
        assert!(back.delivery.is_none());
    }

#[test]
fn cii_round_trip_keeps_buyer_accounting() {
        let inv = cii_with_tail();
        let xml = cii_write::write_unchecked(&inv).unwrap();
        assert!(xml.contains("ReceivableSpecifiedTradeAccountingAccount"));
        let back = cii::read(&xml).unwrap().invoice;
        assert_eq!(back.buyer_accounting.as_deref(), Some("ACC-19"));
    }

#[test]
fn cii_round_trip_keeps_tax_point_on_each_applicable_trade_tax() {
        let inv = cii_with_tail();
        let xml = cii_write::write_unchecked(&inv).unwrap();
        assert_eq!(
            xml.matches("<ram:DueDateTypeCode>3</ram:DueDateTypeCode>")
                .count(),
            2
        );
        assert_eq!(xml.matches("<ram:TaxPointDate>").count(), 2);
        let back = cii::read(&xml).unwrap().invoice;
        assert_eq!(back.tax_point_code.as_ref().map(Code::as_str), Some("3"));
        assert_eq!(back.tax_point_date, inv.tax_point_date);
    }

#[test]
fn cii_tax_point_sits_before_rate_applicable_percent() {
        let xml = cii_write::write_unchecked(&cii_with_tail()).unwrap();
        let header = xml.split("ApplicableHeaderTradeSettlement").nth(1).unwrap();
        let due = header.find("DueDateTypeCode").unwrap();
        let tp = header.find("TaxPointDate").unwrap();
        let rate = header.find("RateApplicablePercent").unwrap();
        assert!(due < tp && tp < rate, "{header}");
    }

#[test]
fn cii_round_trip_keeps_line_item_ids_attributes_origin() {
        let inv = cii_with_tail();
        let xml = cii_write::write_unchecked(&inv).unwrap();
        let gid = xml.find("GlobalID").unwrap();
        let name = xml.find("<ram:Name>Service</ram:Name>").unwrap();
        let origin = xml.find("OriginTradeCountry").unwrap();
        let class = xml.find("DesignatedProductClassification").unwrap();
        assert!(gid < name && class < origin, "{xml}");
        let back = cii::read(&xml).unwrap().invoice;
        let l = &back.lines[0];
        assert_eq!(l.standard_id, inv.lines[0].standard_id);
        assert_eq!(l.item_id, inv.lines[0].item_id);
        assert_eq!(l.buyer_id, inv.lines[0].buyer_id);
        assert_eq!(l.attributes, inv.lines[0].attributes);
        assert_eq!(l.classifications, inv.lines[0].classifications);
        assert_eq!(l.origin_country, inv.lines[0].origin_country);
    }

#[test]
fn cii_round_trip_keeps_order_line() {
        let inv = cii_with_tail();
        let xml = cii_write::write_unchecked(&inv).unwrap();
        let ol = xml.find("BuyerOrderReferencedDocument").unwrap();
        let gross = xml.find("GrossPriceProductTradePrice").unwrap();
        assert!(ol < gross, "{xml}");
        assert!(
            !xml.split("SpecifiedLineTradeAgreement")
                .nth(1)
                .unwrap()
                .contains("IssuerAssignedID")
        );
        let back = cii::read(&xml).unwrap().invoice;
        assert_eq!(back.lines[0].order_line.as_deref(), Some("PO-L-1"));
    }

#[test]
fn cii_order_line_precedes_gross_and_net_price() {
        let xml = cii_write::write_unchecked(&cii_with_tail()).unwrap();
        let agr = xml.find("SpecifiedLineTradeAgreement").unwrap();
        let slice = &xml[agr..];
        let ol = slice.find("BuyerOrderReferencedDocument").unwrap();
        let g = slice.find("GrossPriceProductTradePrice").unwrap();
        let n = slice.find("NetPriceProductTradePrice").unwrap();
        assert!(ol < g && g < n, "{slice}");
    }

#[test]
fn cii_round_trip_keeps_price_discount_inside_gross() {
        let inv = cii_with_tail();
        let xml = cii_write::write_unchecked(&inv).unwrap();
        assert!(xml.contains("AppliedTradeAllowanceCharge"));
        let back = cii::read(&xml).unwrap().invoice;
        let p = back.lines[0].price.as_ref().unwrap();
        assert_eq!(
            p.discount.as_ref().map(|d| d.to_string()),
            Some("5.00".into())
        );
        assert_eq!(
            p.gross.as_ref().map(|d| d.to_string()),
            Some("105.00".into())
        );
        assert_eq!(p.base_qty, inv.lines[0].price.as_ref().unwrap().base_qty);
        assert_eq!(p.base_unit, inv.lines[0].price.as_ref().unwrap().base_unit);
    }

#[test]
fn cii_price_discount_without_gross_is_not_written() {
        let mut inv = cii_sample();
        inv.lines[0].price = Some(Price {
            net: UnitPriceAmount::parse("100.00").unwrap(),
            discount: Some(UnitPriceAmount::parse("5.00").unwrap()),
            gross: None,
            base_qty: None,
            base_unit: None,
        });
        let xml = cii_write::write_unchecked(&inv).unwrap();
        assert!(!xml.contains("AppliedTradeAllowanceCharge"), "{xml}");
        let back = cii::read(&xml).unwrap().invoice;
        assert!(back.lines[0].price.as_ref().unwrap().discount.is_none());
    }

#[test]
fn cii_round_trip_keeps_line_period() {
        let inv = cii_with_tail();
        let xml = cii_write::write_unchecked(&inv).unwrap();
        let back = cii::read(&xml).unwrap().invoice;
        assert_eq!(back.lines[0].period, inv.lines[0].period);
    }

#[test]
fn cii_empty_line_period_is_not_written() {
        let mut inv = cii_sample();
        inv.lines[0].period = Some(Period {
            start: None,
            end: None,
        });
        let xml = cii_write::write_unchecked(&inv).unwrap();
        assert!(!xml.contains("BillingSpecifiedPeriod"), "{xml}");
    }

#[test]
fn cii_round_trip_keeps_line_allowances_and_charges() {
        let inv = cii_with_tail();
        let xml = cii_write::write_unchecked(&inv).unwrap();
        let back = cii::read(&xml).unwrap().invoice;
        assert_eq!(back.lines[0].allowances, inv.lines[0].allowances);
        assert_eq!(back.lines[0].charges, inv.lines[0].charges);
        let line_xml = xml.split("SpecifiedLineTradeSettlement").nth(1).unwrap();
        assert!(!line_xml.contains("CategoryTradeTax"), "{line_xml}");
    }

#[test]
fn cii_line_allowance_has_no_category_trade_tax() {
        let xml = cii_write::write_unchecked(&cii_with_tail()).unwrap();
        let after_tax = xml.split("SpecifiedLineTradeSettlement").nth(1).unwrap();
        let ac = after_tax
            .split("SpecifiedTradeAllowanceCharge")
            .nth(1)
            .unwrap();
        assert!(!ac.contains("CategoryTradeTax"), "{ac}");
    }

#[test]
fn cii_round_trip_keeps_line_invoiced_object() {
        let inv = cii_with_tail();
        let xml = cii_write::write_unchecked(&inv).unwrap();
        let back = cii::read(&xml).unwrap().invoice;
        assert_eq!(back.lines[0].invoiced_object, inv.lines[0].invoiced_object);
        assert_eq!(
            back.lines[0]
                .invoiced_object_code
                .as_ref()
                .map(Code::as_str),
            Some("130")
        );
    }

#[test]
fn cii_line_invoiced_object_typecode_defaults_to_130() {
        let xml = cii_write::write_unchecked(&cii_with_tail()).unwrap();
        let settle = xml.split("SpecifiedLineTradeSettlement").nth(1).unwrap();
        assert!(
            settle.contains("<ram:TypeCode>130</ram:TypeCode>"),
            "{settle}"
        );
    }

#[test]
fn cii_round_trip_keeps_line_accounting_reference() {
        let inv = cii_with_tail();
        let xml = cii_write::write_unchecked(&inv).unwrap();
        let back = cii::read(&xml).unwrap().invoice;
        assert_eq!(
            back.lines[0].accounting_reference.as_deref(),
            Some("COST-133")
        );
    }

#[test]
fn cii_line_settlement_child_order() {
        let xml = cii_write::write_unchecked(&cii_with_tail()).unwrap();
        let settle = xml.split("SpecifiedLineTradeSettlement").nth(1).unwrap();
        let tax = settle.find("ApplicableTradeTax").unwrap();
        let per = settle.find("BillingSpecifiedPeriod").unwrap();
        let ac = settle.find("SpecifiedTradeAllowanceCharge").unwrap();
        let sum = settle
            .find("SpecifiedTradeSettlementLineMonetarySummation")
            .unwrap();
        let obj = settle.find("AdditionalReferencedDocument").unwrap();
        let acc = settle
            .find("ReceivableSpecifiedTradeAccountingAccount")
            .unwrap();
        assert!(
            tax < per && per < ac && ac < sum && sum < obj && obj < acc,
            "{settle}"
        );
    }

#[test]
fn cii_round_trip_keeps_mapped_line_tail() {
        let inv = cii_with_tail();
        let xml = cii_write::write_unchecked(&inv).unwrap();
        let back = cii::read(&xml).unwrap().invoice;
        let out = diff_invoices(&inv, &back);
        for line in out.lines() {
            if line == "no semantic difference" {
                continue;
            }
            assert!(
                cii_dropped().iter().any(|p| line.contains(p)),
                "unexpected CII drop {line:?} in {out}"
            );
        }
        let line_sum = xml
            .split("SpecifiedTradeSettlementLineMonetarySummation")
            .nth(1)
            .unwrap();
        assert!(
            !line_sum.contains("TaxTotalAmount"),
            "CII-SR-200: {line_sum}"
        );
        assert_eq!(back.despatch, inv.despatch);
        assert_eq!(back.lines[0].order_line, inv.lines[0].order_line);
        assert_eq!(
            back.lines[0].price.as_ref().and_then(|p| p.discount),
            inv.lines[0].price.as_ref().and_then(|p| p.discount)
        );
    }

#[test]
fn ubl_converts_to_real_cii() {
        let ubl = r#"<?xml version="1.0"?><Invoice xmlns="urn:oasis:names:specification:ubl:schema:xsd:Invoice-2" xmlns:cbc="urn:oasis:names:specification:ubl:schema:xsd:CommonBasicComponents-2" xmlns:cac="urn:oasis:names:specification:ubl:schema:xsd:CommonAggregateComponents-2"><cbc:CustomizationID>urn:cen.eu:en16931:2017</cbc:CustomizationID><cbc:ID>1</cbc:ID><cbc:IssueDate>2026-01-15</cbc:IssueDate><cbc:InvoiceTypeCode>380</cbc:InvoiceTypeCode><cbc:DocumentCurrencyCode>EUR</cbc:DocumentCurrencyCode><cac:LegalMonetaryTotal><cbc:PayableAmount currencyID="EUR">0</cbc:PayableAmount></cac:LegalMonetaryTotal></Invoice>"#;
        // Unchecked path: this skeleton would fail prove (missing parties, lines).
        let invoice = read(ubl).unwrap();
        let cii = write_unchecked(&invoice, Syntax::Cii).unwrap();
        assert!(cii.contains("CrossIndustryInvoice"));
        assert!(cii.contains("SupplyChainTradeTransaction"));
        assert!(!cii.contains("<Invoice "));
    }

#[test]
fn pint_my_convert_to_cii_is_cii_not_for_profile() {
        // BT-24 prefix `urn:peppol:pint:billing-1@my-1` selects Profile::PintMy.
        let ubl = r#"<?xml version="1.0"?><Invoice xmlns="urn:oasis:names:specification:ubl:schema:xsd:Invoice-2" xmlns:cbc="urn:oasis:names:specification:ubl:schema:xsd:CommonBasicComponents-2" xmlns:cac="urn:oasis:names:specification:ubl:schema:xsd:CommonAggregateComponents-2"><cbc:CustomizationID>urn:peppol:pint:billing-1@my-1</cbc:CustomizationID><cbc:ID>1</cbc:ID><cbc:IssueDate>2026-01-15</cbc:IssueDate><cbc:InvoiceTypeCode>380</cbc:InvoiceTypeCode><cbc:DocumentCurrencyCode>MYR</cbc:DocumentCurrencyCode><cac:LegalMonetaryTotal><cbc:PayableAmount currencyID="MYR">0</cbc:PayableAmount></cac:LegalMonetaryTotal></Invoice>"#;
        let err = convert(ubl, Syntax::Cii).unwrap_err();
        assert!(matches!(err, FormatError::CiiNotForProfile), "{err:?}");
    }

#[test]
fn missing_line_tax_is_not_s() {
        let xml = r#"<?xml version="1.0"?><Invoice xmlns="urn:oasis:names:specification:ubl:schema:xsd:Invoice-2" xmlns:cbc="urn:oasis:names:specification:ubl:schema:xsd:CommonBasicComponents-2" xmlns:cac="urn:oasis:names:specification:ubl:schema:xsd:CommonAggregateComponents-2"><cbc:CustomizationID>urn:cen.eu:en16931:2017</cbc:CustomizationID><cbc:ID>1</cbc:ID><cbc:IssueDate>2026-01-15</cbc:IssueDate><cbc:InvoiceTypeCode>380</cbc:InvoiceTypeCode><cbc:DocumentCurrencyCode>EUR</cbc:DocumentCurrencyCode><cac:InvoiceLine><cbc:ID>1</cbc:ID><cbc:LineExtensionAmount currencyID="EUR">10.00</cbc:LineExtensionAmount><cac:Item><cbc:Name>A</cbc:Name></cac:Item></cac:InvoiceLine></Invoice>"#;
        let inv = read(xml).unwrap();
        assert_ne!(inv.lines[0].tax.code, "S");
        assert!(inv.lines[0].tax.code.is_empty());
        let report = validate(&inv);
        assert!(
            report.findings.iter().any(|f| f.id == "BR-CO-04"),
            "{}", report.to_string()
        );
    }

#[test]
fn unknown_bt24_is_core_spec_01_not_en16931() {
        let xml = r#"<?xml version="1.0"?><Invoice xmlns="urn:oasis:names:specification:ubl:schema:xsd:Invoice-2" xmlns:cbc="urn:oasis:names:specification:ubl:schema:xsd:CommonBasicComponents-2"><cbc:CustomizationID>urn:example:painting</cbc:CustomizationID><cbc:ID>1</cbc:ID></Invoice>"#;
        let inv = read(xml).unwrap();
        assert_eq!(inv.profile, Profile::Unknown);
        assert_eq!(
            inv.specification_id.as_deref(),
            Some("urn:example:painting")
        );
        let report = validate(&inv);
        assert!(
            report.findings.iter().any(|f| f.id == "CORE-SPEC-01"),
            "{}", report.to_string()
        );
        assert!(!report.findings.iter().any(|f| f.id.starts_with("BR-S-")));
    }

#[test]
fn ubl_to_cii_to_ubl_keeps_qty_price() {
        let ubl = r#"<?xml version="1.0"?><Invoice xmlns="urn:oasis:names:specification:ubl:schema:xsd:Invoice-2" xmlns:cbc="urn:oasis:names:specification:ubl:schema:xsd:CommonBasicComponents-2" xmlns:cac="urn:oasis:names:specification:ubl:schema:xsd:CommonAggregateComponents-2"><cbc:CustomizationID>urn:cen.eu:en16931:2017</cbc:CustomizationID><cbc:ID>1</cbc:ID><cbc:IssueDate>2026-01-15</cbc:IssueDate><cbc:InvoiceTypeCode>380</cbc:InvoiceTypeCode><cbc:DocumentCurrencyCode>EUR</cbc:DocumentCurrencyCode><cac:InvoiceLine><cbc:ID>1</cbc:ID><cbc:InvoicedQuantity unitCode="C62">2</cbc:InvoicedQuantity><cbc:LineExtensionAmount currencyID="EUR">10.00</cbc:LineExtensionAmount><cac:Item><cbc:Name>A</cbc:Name><cac:ClassifiedTaxCategory><cbc:ID>S</cbc:ID><cbc:Percent>19</cbc:Percent><cac:TaxScheme><cbc:ID>VAT</cbc:ID></cac:TaxScheme></cac:ClassifiedTaxCategory></cac:Item><cac:Price><cbc:PriceAmount currencyID="EUR">5.00</cbc:PriceAmount></cac:Price></cac:InvoiceLine></Invoice>"#;
        let inv = read(ubl).unwrap();
        assert!(inv.lines[0].quantity.is_some());
        let cii = write_unchecked(&inv, Syntax::Cii).unwrap();
        let back = read(&cii).unwrap();
        assert_eq!(back.lines[0].quantity, inv.lines[0].quantity);
        assert_eq!(
            back.lines[0].price.as_ref().map(|p| p.net.to_string()),
            Some("5.00".into())
        );
        let ubl2 = write_unchecked(&back, Syntax::Ubl).unwrap();
        let out = diff(ubl, &ubl2).unwrap();
        assert!(!out.contains("quantity"), "qty is mapped on CII: {out}");
        for line in out.lines() {
            if line == "no semantic difference" {
                continue;
            }
            assert!(
                cii_dropped().iter().any(|p| line.contains(p)),
                "unexpected CII drop {line:?} in {out}"
            );
        }
    }

#[test]
fn cii_to_ubl_round_trip_is_named_drops() {
        let inv = read(
            r#"<?xml version="1.0"?><Invoice xmlns="urn:oasis:names:specification:ubl:schema:xsd:Invoice-2" xmlns:cbc="urn:oasis:names:specification:ubl:schema:xsd:CommonBasicComponents-2" xmlns:cac="urn:oasis:names:specification:ubl:schema:xsd:CommonAggregateComponents-2"><cbc:CustomizationID>urn:cen.eu:en16931:2017</cbc:CustomizationID><cbc:ID>1</cbc:ID><cbc:IssueDate>2026-01-15</cbc:IssueDate><cbc:InvoiceTypeCode>380</cbc:InvoiceTypeCode><cbc:DocumentCurrencyCode>EUR</cbc:DocumentCurrencyCode><cac:InvoiceLine><cbc:ID>1</cbc:ID><cbc:InvoicedQuantity unitCode="C62">2</cbc:InvoicedQuantity><cbc:LineExtensionAmount currencyID="EUR">10.00</cbc:LineExtensionAmount><cac:Item><cbc:Name>A</cbc:Name><cac:ClassifiedTaxCategory><cbc:ID>S</cbc:ID><cbc:Percent>19</cbc:Percent><cac:TaxScheme><cbc:ID>VAT</cbc:ID></cac:TaxScheme></cac:ClassifiedTaxCategory></cac:Item><cac:Price><cbc:PriceAmount currencyID="EUR">5.00</cbc:PriceAmount></cac:Price></cac:InvoiceLine></Invoice>"#,
        )
        .unwrap();
        let cii = write_unchecked(&inv, Syntax::Cii).unwrap();
        let from_cii = read(&cii).unwrap();
        let ubl = write_unchecked(&from_cii, Syntax::Ubl).unwrap();
        let back = read(&ubl).unwrap();
        let out = diff_invoices(&inv, &back);
        for line in out.lines() {
            if line == "no semantic difference" {
                continue;
            }
            assert!(
                cii_dropped().iter().any(|p| line.contains(p)),
                "unexpected CII drop {line:?} in {out}"
            );
        }
        assert!(!cii.contains("<Invoice "));
    }

#[test]
fn cii_round_trip_keeps_mapped_header() {
        let ubl = r#"<?xml version="1.0"?><Invoice xmlns="urn:oasis:names:specification:ubl:schema:xsd:Invoice-2" xmlns:cbc="urn:oasis:names:specification:ubl:schema:xsd:CommonBasicComponents-2" xmlns:cac="urn:oasis:names:specification:ubl:schema:xsd:CommonAggregateComponents-2"><cbc:CustomizationID>urn:cen.eu:en16931:2017</cbc:CustomizationID><cbc:ID>1</cbc:ID><cbc:IssueDate>2026-01-15</cbc:IssueDate><cbc:InvoiceTypeCode>380</cbc:InvoiceTypeCode><cbc:Note>#AAA#hello</cbc:Note><cbc:DocumentCurrencyCode>EUR</cbc:DocumentCurrencyCode><cac:AccountingSupplierParty><cac:Party><cac:PostalAddress><cbc:CountrySubentity>DE</cbc:CountrySubentity><cac:Country><cbc:IdentificationCode>DE</cbc:IdentificationCode></cac:Country></cac:PostalAddress><cac:PartyLegalEntity><cbc:RegistrationName>Seller GmbH</cbc:RegistrationName></cac:PartyLegalEntity></cac:Party></cac:AccountingSupplierParty><cac:AccountingCustomerParty><cac:Party><cac:PostalAddress><cac:Country><cbc:IdentificationCode>FR</cbc:IdentificationCode></cac:Country></cac:PostalAddress><cac:PartyLegalEntity><cbc:RegistrationName>Buyer SARL</cbc:RegistrationName></cac:PartyLegalEntity></cac:Party></cac:AccountingCustomerParty><cac:Delivery><cbc:ActualDeliveryDate>2026-01-20</cbc:ActualDeliveryDate><cac:DeliveryLocation><cac:Address><cac:Country><cbc:IdentificationCode>FR</cbc:IdentificationCode></cac:Country></cac:Address></cac:DeliveryLocation></cac:Delivery><cac:PaymentMeans><cbc:PaymentMeansCode>30</cbc:PaymentMeansCode><cac:PayeeFinancialAccount><cbc:ID>DE89370400440532013000</cbc:ID></cac:PayeeFinancialAccount></cac:PaymentMeans><cac:AllowanceCharge><cbc:ChargeIndicator>false</cbc:ChargeIndicator><cbc:Amount currencyID="EUR">1.00</cbc:Amount></cac:AllowanceCharge><cac:InvoiceLine><cbc:ID>1</cbc:ID><cbc:InvoicedQuantity unitCode="C62">2</cbc:InvoicedQuantity><cbc:LineExtensionAmount currencyID="EUR">10.00</cbc:LineExtensionAmount><cac:Item><cbc:Name>A</cbc:Name><cac:ClassifiedTaxCategory><cbc:ID>S</cbc:ID><cbc:Percent>19</cbc:Percent><cac:TaxScheme><cbc:ID>VAT</cbc:ID></cac:TaxScheme></cac:ClassifiedTaxCategory></cac:Item><cac:Price><cbc:PriceAmount currencyID="EUR">5.00</cbc:PriceAmount></cac:Price></cac:InvoiceLine></Invoice>"#;
        let inv = read(ubl).unwrap();
        assert!(inv.delivery.as_ref().and_then(|d| d.date).is_some());
        assert!(inv.payment.is_some());
        assert!(!inv.notes.is_empty());
        assert!(!inv.document_allowances.is_empty());
        let cii = write_unchecked(&inv, Syntax::Cii).unwrap();
        let back = read(&cii).unwrap();
        assert_eq!(
            back.notes.len(),
            inv.notes.len(),
            "notes Content round-trips"
        );
        assert_eq!(
            back.delivery.as_ref().and_then(|d| d.date),
            inv.delivery.as_ref().and_then(|d| d.date)
        );
        assert_eq!(
            back.payment.as_ref().and_then(|p| p.means_code.clone()),
            inv.payment.as_ref().and_then(|p| p.means_code.clone())
        );
        assert_eq!(
            back.document_allowances[0].amount,
            inv.document_allowances[0].amount
        );
        let out = diff_invoices(&inv, &back);
        for line in out.lines() {
            if line == "no semantic difference" {
                continue;
            }
            assert!(
                cii_dropped().iter().any(|p| line.contains(p)),
                "unexpected CII drop {line:?} in {out}"
            );
            assert!(
                !line.starts_with("notes:")
                    || line.contains("notes.subject")
                    || cii_dropped().iter().any(|p| line.contains(p)),
                "{line}"
            );
        }
        assert!(!out.contains("quantity"), "{out}");
    }

#[test]
fn cii_two_ibans_round_trip() {
        let mut inv = read(
            r#"<?xml version="1.0"?><Invoice xmlns="urn:oasis:names:specification:ubl:schema:xsd:Invoice-2" xmlns:cbc="urn:oasis:names:specification:ubl:schema:xsd:CommonBasicComponents-2"><cbc:CustomizationID>urn:cen.eu:en16931:2017</cbc:CustomizationID><cbc:ID>1</cbc:ID><cbc:InvoiceTypeCode>380</cbc:InvoiceTypeCode><cbc:DocumentCurrencyCode>EUR</cbc:DocumentCurrencyCode></Invoice>"#,
        )
        .unwrap();
        inv.payment = Some(PaymentInstructions {
            means_code: Some(Code::new("30")),
            means_text: None,
            remittance: None,
            means: Some(PaymentMeans::CreditTransfer(vec![
                CreditTransfer {
                    account_id: Identifier::new("DE89370400440532013000"),
                    account_name: None,
                    provider: None,
                },
                CreditTransfer {
                    account_id: Identifier::new("FR1420041010050500013M02606"),
                    account_name: None,
                    provider: None,
                },
            ])),
        });
        let cii = write_unchecked(&inv, Syntax::Cii).unwrap();
        assert_eq!(
            cii.matches("<ram:SpecifiedTradeSettlementPaymentMeans>")
                .count(),
            2
        );
        let back = read(&cii).unwrap();
        match back.payment.unwrap().means.unwrap() {
            PaymentMeans::CreditTransfer(a) => {
                assert_eq!(a.len(), 2);
                assert_eq!(a[1].account_id.value, "FR1420041010050500013M02606");
            }
            other => panic!("{other:?}"),
        }
    }

#[test]
fn write_drops_credit_note_duedate() {
        let mut inv = read(
            r#"<?xml version="1.0"?><Invoice xmlns="urn:oasis:names:specification:ubl:schema:xsd:Invoice-2" xmlns:cbc="urn:oasis:names:specification:ubl:schema:xsd:CommonBasicComponents-2"><cbc:ID>1</cbc:ID><cbc:DueDate>2026-02-01</cbc:DueDate></Invoice>"#,
        )
        .unwrap();
        inv.kind = DocumentKind::CreditNote;
        let drops = write_drops(&inv, Syntax::Ubl);
        assert!(drops.iter().any(|d| d == "CreditNote/DueDate"), "{drops:?}");
    }

#[test]
fn written_ubl_does_not_emit_root_uuid() {
        let inv = read(
            r#"<?xml version="1.0"?><Invoice xmlns="urn:oasis:names:specification:ubl:schema:xsd:Invoice-2" xmlns:cbc="urn:oasis:names:specification:ubl:schema:xsd:CommonBasicComponents-2"><cbc:CustomizationID>urn:cen.eu:en16931:2017</cbc:CustomizationID><cbc:ID>1</cbc:ID><cbc:IssueDate>2026-01-15</cbc:IssueDate><cbc:InvoiceTypeCode>380</cbc:InvoiceTypeCode><cbc:DocumentCurrencyCode>EUR</cbc:DocumentCurrencyCode></Invoice>"#,
        )
        .unwrap();
        let xml = write_unchecked(&inv, Syntax::Ubl).unwrap();
        let hits = prohibitions::scan_written(&xml, Syntax::Ubl);
        assert!(hits.iter().all(|h| !h.contains("cbc:UUID")), "{hits:?}");
    }
