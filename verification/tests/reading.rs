use core_invoice::formats::{cii, diff, diff_invoices, read, read_with_trace};
use core_invoice::identifier::DocumentReference;
use core_invoice::date::Date;
use core_invoice::kind::DocumentKind;
use core_invoice::tax::TaxSystem;

#[test]
fn diff_sees_issue_date() {
        let a = r#"<?xml version="1.0"?><Invoice xmlns="urn:oasis:names:specification:ubl:schema:xsd:Invoice-2" xmlns:cbc="urn:oasis:names:specification:ubl:schema:xsd:CommonBasicComponents-2"><cbc:ID>1</cbc:ID><cbc:IssueDate>2026-01-15</cbc:IssueDate><cbc:DocumentCurrencyCode>EUR</cbc:DocumentCurrencyCode></Invoice>"#;
        let b = r#"<?xml version="1.0"?><Invoice xmlns="urn:oasis:names:specification:ubl:schema:xsd:Invoice-2" xmlns:cbc="urn:oasis:names:specification:ubl:schema:xsd:CommonBasicComponents-2"><cbc:ID>1</cbc:ID><cbc:IssueDate>2026-01-16</cbc:IssueDate><cbc:DocumentCurrencyCode>EUR</cbc:DocumentCurrencyCode></Invoice>"#;
        let out = diff(a, b).unwrap();
        assert!(out.contains("issue_date"), "{out}");
        assert_ne!(out, "no semantic difference");
    }

#[test]
fn diff_sees_payee_and_attachment() {
        let a = r#"<?xml version="1.0"?><Invoice xmlns="urn:oasis:names:specification:ubl:schema:xsd:Invoice-2" xmlns:cbc="urn:oasis:names:specification:ubl:schema:xsd:CommonBasicComponents-2" xmlns:cac="urn:oasis:names:specification:ubl:schema:xsd:CommonAggregateComponents-2"><cbc:ID>1</cbc:ID></Invoice>"#;
        let b = r#"<?xml version="1.0"?><Invoice xmlns="urn:oasis:names:specification:ubl:schema:xsd:Invoice-2" xmlns:cbc="urn:oasis:names:specification:ubl:schema:xsd:CommonBasicComponents-2" xmlns:cac="urn:oasis:names:specification:ubl:schema:xsd:CommonAggregateComponents-2"><cbc:ID>1</cbc:ID><cac:PayeeParty><cac:PartyName><cbc:Name>Payee AG</cbc:Name></cac:PartyName></cac:PayeeParty></Invoice>"#;
        let out = diff(a, b).unwrap();
        assert!(out.contains("payee"), "{out}");
        let c = r#"<?xml version="1.0"?><Invoice xmlns="urn:oasis:names:specification:ubl:schema:xsd:Invoice-2" xmlns:cbc="urn:oasis:names:specification:ubl:schema:xsd:CommonBasicComponents-2" xmlns:cac="urn:oasis:names:specification:ubl:schema:xsd:CommonAggregateComponents-2"><cbc:ID>1</cbc:ID><cac:AdditionalDocumentReference><cbc:ID>ATT</cbc:ID><cac:Attachment><cbc:EmbeddedDocumentBinaryObject mimeCode="application/pdf" filename="a.pdf">YQ==</cbc:EmbeddedDocumentBinaryObject></cac:Attachment></cac:AdditionalDocumentReference></Invoice>"#;
        let out = diff(a, c).unwrap();
        assert!(out.contains("supporting_documents"), "{out}");
    }

#[test]
fn comment_cross_industry_does_not_dispatch_as_cii() {
        let xml = r#"<?xml version="1.0"?><!-- CrossIndustryInvoice --><Invoice xmlns="urn:oasis:names:specification:ubl:schema:xsd:Invoice-2" xmlns:cbc="urn:oasis:names:specification:ubl:schema:xsd:CommonBasicComponents-2"><cbc:ID>1</cbc:ID></Invoice>"#;
        let inv = read(xml).unwrap();
        assert_eq!(inv.kind, DocumentKind::Invoice);
    }

#[test]
fn random_bytes_do_not_panic() {
        let _ = read("\0\0<?xml");
        let _ = read("<");
        let _ = read("<<<<<<<<");
        let _ = read(&"a".repeat(100));
        let _ = read("<!DOCTYPE foo [<!ENTITY x SYSTEM 'file:///etc/passwd'>]><Invoice/>");
        let _ = read(&format!("<Invoice>{}</Invoice>", "x".repeat(200_000)));
        let _ = read(&"<a>".repeat(80));
        let _ = read("<?xml version='1.0'?><Invoice>");
        let _ = read(&format!("<Invoice>{}</Invoice>", "\u{0}".repeat(1000)));
        let _ =
            read("<Invoice xmlns='x'><InvoiceLine><Item><Name/></Item></InvoiceLine></Invoice>");
    }

#[test]
fn neither_root_is_parse_error() {
        let xml = r#"<NotAnInvoice/>"#;
        let err = read(xml).unwrap_err();
        assert!(err.to_string().contains("document element"), "{}", err.to_string());
    }

#[test]
fn third_decimal_is_malformed_not_zero() {
        let xml = r#"<?xml version="1.0"?><Invoice xmlns="urn:oasis:names:specification:ubl:schema:xsd:Invoice-2" xmlns:cbc="urn:oasis:names:specification:ubl:schema:xsd:CommonBasicComponents-2" xmlns:cac="urn:oasis:names:specification:ubl:schema:xsd:CommonAggregateComponents-2"><cbc:ID>1</cbc:ID><cac:InvoiceLine><cbc:ID>1</cbc:ID><cbc:LineExtensionAmount currencyID="EUR">0.001</cbc:LineExtensionAmount></cac:InvoiceLine></Invoice>"#;
        let traced = read_with_trace(xml).unwrap();
        assert!(
            traced.malformed.iter().any(|m| m.contains("0.001")),
            "{:?}",
            traced.malformed
        );
        assert!(read(xml).is_err());
    }

#[test]
fn unknown_direct_child_is_unmapped() {
        let xml = r#"<?xml version="1.0"?><Invoice xmlns="urn:oasis:names:specification:ubl:schema:xsd:Invoice-2" xmlns:cbc="urn:oasis:names:specification:ubl:schema:xsd:CommonBasicComponents-2"><cbc:ID>1</cbc:ID><cbc:Foo>bar</cbc:Foo></Invoice>"#;
        let traced = read_with_trace(xml).unwrap();
        assert!(
            traced.unmapped.iter().any(|u| u.contains("Foo")),
            "{:?}",
            traced.unmapped
        );
    }

#[test]
fn cii_dtd_is_refused() {
        let xml = r#"<!DOCTYPE CrossIndustryInvoice [<!ENTITY x "a">]><rsm:CrossIndustryInvoice xmlns:rsm="urn:un:unece:uncefact:data:standard:CrossIndustryInvoice:100"/>"#;
        assert!(read(xml).is_err());
    }

#[test]
fn diff_invoices_names_cii_dropped_line_paths() {
        let mut a = read(
            r#"<?xml version="1.0"?><Invoice xmlns="urn:oasis:names:specification:ubl:schema:xsd:Invoice-2" xmlns:cbc="urn:oasis:names:specification:ubl:schema:xsd:CommonBasicComponents-2" xmlns:cac="urn:oasis:names:specification:ubl:schema:xsd:CommonAggregateComponents-2"><cbc:CustomizationID>urn:cen.eu:en16931:2017</cbc:CustomizationID><cbc:ID>1</cbc:ID><cbc:IssueDate>2026-01-15</cbc:IssueDate><cbc:InvoiceTypeCode>380</cbc:InvoiceTypeCode><cbc:DocumentCurrencyCode>EUR</cbc:DocumentCurrencyCode><cac:InvoiceLine><cbc:ID>1</cbc:ID><cbc:LineExtensionAmount currencyID="EUR">10.00</cbc:LineExtensionAmount><cac:Item><cbc:Name>A</cbc:Name><cac:ClassifiedTaxCategory><cbc:ID>S</cbc:ID><cbc:Percent>19</cbc:Percent><cac:TaxScheme><cbc:ID>VAT</cbc:ID></cac:TaxScheme></cac:ClassifiedTaxCategory></cac:Item></cac:InvoiceLine></Invoice>"#,
        )
        .unwrap();
        let b = a.clone();
        a.lines[0].order_line = Some("L1".into());
        a.despatch = Some(DocumentReference::new("D"));
        a.buyer_accounting = Some("BT19".into());
        let out = diff_invoices(&a, &b);
        assert!(out.contains("lines.order_line"), "{out}");
        assert!(out.contains("despatch"), "{out}");
        assert!(out.contains("buyer_accounting"), "{out}");
    }

#[test]
fn cii_missing_line_tax_is_not_sst() {
        let xml = r#"<?xml version="1.0"?><rsm:CrossIndustryInvoice xmlns:rsm="urn:un:unece:uncefact:data:standard:CrossIndustryInvoice:100" xmlns:ram="urn:un:unece:uncefact:data:standard:ReusableAggregateBusinessInformationEntity:100" xmlns:udt="urn:un:unece:uncefact:data:standard:UnqualifiedDataType:100"><rsm:ExchangedDocumentContext><ram:GuidelineSpecifiedDocumentContextParameter><ram:ID>urn:cen.eu:en16931:2017</ram:ID></ram:GuidelineSpecifiedDocumentContextParameter></rsm:ExchangedDocumentContext><rsm:ExchangedDocument><ram:ID>1</ram:ID><ram:TypeCode>380</ram:TypeCode></rsm:ExchangedDocument><rsm:SupplyChainTradeTransaction><ram:IncludedSupplyChainTradeLineItem><ram:AssociatedDocumentLineDocument><ram:LineID>1</ram:LineID></ram:AssociatedDocumentLineDocument><ram:SpecifiedTradeProduct><ram:Name>A</ram:Name></ram:SpecifiedTradeProduct></ram:IncludedSupplyChainTradeLineItem><ram:ApplicableHeaderTradeAgreement/><ram:ApplicableHeaderTradeDelivery/><ram:ApplicableHeaderTradeSettlement/></rsm:SupplyChainTradeTransaction></rsm:CrossIndustryInvoice>"#;
        let inv = read(xml).unwrap();
        assert_ne!(inv.lines[0].tax.system, TaxSystem::Sst);
        assert!(inv.lines[0].tax.code.is_empty());
    }

#[test]
fn cii_kind_from_credit_note_type_not_only_381() {
        let xml = r#"<?xml version="1.0"?><rsm:CrossIndustryInvoice xmlns:rsm="urn:un:unece:uncefact:data:standard:CrossIndustryInvoice:100" xmlns:ram="urn:un:unece:uncefact:data:standard:ReusableAggregateBusinessInformationEntity:100"><rsm:ExchangedDocumentContext><ram:GuidelineSpecifiedDocumentContextParameter><ram:ID>urn:cen.eu:en16931:2017</ram:ID></ram:GuidelineSpecifiedDocumentContextParameter></rsm:ExchangedDocumentContext><rsm:ExchangedDocument><ram:ID>1</ram:ID><ram:TypeCode>396</ram:TypeCode></rsm:ExchangedDocument><rsm:SupplyChainTradeTransaction><ram:ApplicableHeaderTradeAgreement/><ram:ApplicableHeaderTradeDelivery/><ram:ApplicableHeaderTradeSettlement/></rsm:SupplyChainTradeTransaction></rsm:CrossIndustryInvoice>"#;
        let inv = read(xml).unwrap();
        assert_eq!(inv.kind, DocumentKind::CreditNote);
    }

#[test]
fn cii_non_102_date_is_malformed() {
        let xml = r#"<?xml version="1.0"?><rsm:CrossIndustryInvoice xmlns:rsm="urn:un:unece:uncefact:data:standard:CrossIndustryInvoice:100" xmlns:ram="urn:un:unece:uncefact:data:standard:ReusableAggregateBusinessInformationEntity:100" xmlns:udt="urn:un:unece:uncefact:data:standard:UnqualifiedDataType:100"><rsm:ExchangedDocumentContext><ram:GuidelineSpecifiedDocumentContextParameter><ram:ID>urn:cen.eu:en16931:2017</ram:ID></ram:GuidelineSpecifiedDocumentContextParameter></rsm:ExchangedDocumentContext><rsm:ExchangedDocument><ram:ID>1</ram:ID><ram:TypeCode>380</ram:TypeCode><ram:IssueDateTime><udt:DateTimeString format="616">2026</udt:DateTimeString></ram:IssueDateTime></rsm:ExchangedDocument><rsm:SupplyChainTradeTransaction><ram:ApplicableHeaderTradeAgreement/><ram:ApplicableHeaderTradeDelivery/><ram:ApplicableHeaderTradeSettlement/></rsm:SupplyChainTradeTransaction></rsm:CrossIndustryInvoice>"#;
        let traced = read_with_trace(xml).unwrap();
        assert!(
            traced.malformed.iter().any(|m| m.contains("format=616")),
            "{:?}",
            traced.malformed
        );
        assert!(traced.invoice.issue_date.is_none());
    }

#[test]
fn cii_direct_read_refuses_oversize() {
        let xml = format!(
            r#"<rsm:CrossIndustryInvoice xmlns:rsm="urn:un:unece:uncefact:data:standard:CrossIndustryInvoice:100">{}</rsm:CrossIndustryInvoice>"#,
            "x".repeat(10 * 1024 * 1024 + 1)
        );
        assert!(cii::read(&xml).is_err());
    }

#[test]
fn lib_unit_price_keeps_four_decimals() {
        let xml = r#"<?xml version="1.0"?><Invoice xmlns="urn:oasis:names:specification:ubl:schema:xsd:Invoice-2" xmlns:cbc="urn:oasis:names:specification:ubl:schema:xsd:CommonBasicComponents-2" xmlns:cac="urn:oasis:names:specification:ubl:schema:xsd:CommonAggregateComponents-2"><cbc:ID>1</cbc:ID><cac:InvoiceLine><cbc:ID>1</cbc:ID><cac:Price><cbc:PriceAmount currencyID="EUR">10000.1234</cbc:PriceAmount></cac:Price></cac:InvoiceLine></Invoice>"#;
        let inv = read(xml).unwrap();
        assert_eq!(
            inv.lines[0].price.as_ref().unwrap().net.to_string(),
            "10000.1234"
        );
    }

#[test]
fn dtd_is_refused() {
        let xml = r#"<!DOCTYPE Invoice [<!ENTITY x "a">]><Invoice/>"#;
        assert!(read_with_trace(xml).is_err());
    }

#[test]
fn malformed_issue_date_is_not_silent() {
        let xml = r#"<?xml version="1.0"?><Invoice xmlns="urn:oasis:names:specification:ubl:schema:xsd:Invoice-2" xmlns:cbc="urn:oasis:names:specification:ubl:schema:xsd:CommonBasicComponents-2"><cbc:ID>1</cbc:ID><cbc:IssueDate>2026-01-15Z</cbc:IssueDate></Invoice>"#;
        let traced = read_with_trace(xml).unwrap();
        assert!(
            traced.malformed.iter().any(|m| m.contains("IssueDate")),
            "{:?}",
            traced.malformed
        );
        assert!(traced.invoice.issue_date.is_none());
        let xml = r#"<?xml version="1.0"?><Invoice xmlns="urn:oasis:names:specification:ubl:schema:xsd:Invoice-2" xmlns:cbc="urn:oasis:names:specification:ubl:schema:xsd:CommonBasicComponents-2"><cbc:ID>1</cbc:ID><cbc:DueDate>2026-02-30</cbc:DueDate></Invoice>"#;
        let traced = read_with_trace(xml).unwrap();
        assert!(
            traced.malformed.iter().any(|m| m.contains("DueDate")),
            "{:?}",
            traced.malformed
        );
        assert!(traced.invoice.due_date.is_none());
    }

#[test]
fn duplicate_duedate_is_unmapped() {
        let xml = r#"<?xml version="1.0"?><Invoice xmlns="urn:oasis:names:specification:ubl:schema:xsd:Invoice-2" xmlns:cbc="urn:oasis:names:specification:ubl:schema:xsd:CommonBasicComponents-2"><cbc:ID>1</cbc:ID><cbc:DueDate>2026-02-01</cbc:DueDate><cbc:DueDate>2026-02-02</cbc:DueDate></Invoice>"#;
        let traced = read_with_trace(xml).unwrap();
        assert!(
            traced
                .unmapped
                .iter()
                .any(|u| u.contains("DueDate") && u.contains("duplicate")),
            "{:?}",
            traced.unmapped
        );
        assert_eq!(traced.invoice.due_date, Date::parse("2026-02-01").ok());
    }

#[test]
fn nested_item_unknown_is_unmapped() {
        let xml = r#"<?xml version="1.0"?><Invoice xmlns="urn:oasis:names:specification:ubl:schema:xsd:Invoice-2" xmlns:cbc="urn:oasis:names:specification:ubl:schema:xsd:CommonBasicComponents-2" xmlns:cac="urn:oasis:names:specification:ubl:schema:xsd:CommonAggregateComponents-2"><cbc:ID>1</cbc:ID><cac:InvoiceLine><cbc:ID>1</cbc:ID><cac:Item><cbc:Name>A</cbc:Name><cbc:Foo>x</cbc:Foo></cac:Item></cac:InvoiceLine></Invoice>"#;
        let traced = read_with_trace(xml).unwrap();
        assert!(
            traced.unmapped.iter().any(|u| u.contains("Item/Foo")),
            "{:?}",
            traced.unmapped
        );
        assert!(
            traced.unmapped.iter().all(|u| !u.contains("Item/Name")),
            "{:?}",
            traced.unmapped
        );
    }

#[test]
fn line_taxtotal_and_documentreference_are_mapped() {
        let xml = r#"<?xml version="1.0"?><Invoice xmlns="urn:oasis:names:specification:ubl:schema:xsd:Invoice-2" xmlns:cbc="urn:oasis:names:specification:ubl:schema:xsd:CommonBasicComponents-2" xmlns:cac="urn:oasis:names:specification:ubl:schema:xsd:CommonAggregateComponents-2"><cbc:ID>1</cbc:ID><cac:InvoiceLine><cbc:ID>1</cbc:ID><cac:DocumentReference><cbc:ID>OBJ</cbc:ID><cbc:DocumentTypeCode>130</cbc:DocumentTypeCode></cac:DocumentReference><cac:TaxTotal><cbc:TaxAmount currencyID="EUR">1.00</cbc:TaxAmount></cac:TaxTotal><cac:Item><cbc:Name>A</cbc:Name></cac:Item></cac:InvoiceLine></Invoice>"#;
        let traced = read_with_trace(xml).unwrap();
        assert!(
            traced
                .unmapped
                .iter()
                .all(|u| !u.contains("InvoiceLine/TaxTotal")
                    && !u.contains("InvoiceLine/DocumentReference")),
            "{:?}",
            traced.unmapped
        );
        assert!(traced.invoice.lines[0].tax_total.is_some());
        assert!(traced.invoice.lines[0].invoiced_object.is_some());
    }
