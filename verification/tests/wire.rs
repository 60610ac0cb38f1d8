use core_invoice::formats::validate_xml;
use core_invoice::Profile;
use core_invoice::Report;

fn has_id(report: &Report, id: &str) -> bool {
    report.findings.iter().any(|f| f.id == id)
}

#[test]
fn wire_currencyid_not_iso4217_is_br_cl_03() {
        let xml = r#"<?xml version="1.0"?><Invoice xmlns="urn:oasis:names:specification:ubl:schema:xsd:Invoice-2" xmlns:cbc="urn:oasis:names:specification:ubl:schema:xsd:CommonBasicComponents-2" xmlns:cac="urn:oasis:names:specification:ubl:schema:xsd:CommonAggregateComponents-2"><cbc:CustomizationID>urn:cen.eu:en16931:2017</cbc:CustomizationID><cbc:ID>1</cbc:ID><cbc:InvoiceTypeCode>380</cbc:InvoiceTypeCode><cbc:DocumentCurrencyCode>EUR</cbc:DocumentCurrencyCode><cac:LegalMonetaryTotal><cbc:PayableAmount currencyID="US$">1.00</cbc:PayableAmount></cac:LegalMonetaryTotal></Invoice>"#;
        let report = validate_xml(xml, Some(Profile::En16931)).unwrap();
        assert!(
            report.findings.iter().any(|f| f.id == "BR-CL-03"),
            "{}", report.to_string()
        );
    }

#[test]
fn peppol_mixed_currencyid_is_r051() {
        let xml = r#"<?xml version="1.0"?><Invoice xmlns="urn:oasis:names:specification:ubl:schema:xsd:Invoice-2" xmlns:cbc="urn:oasis:names:specification:ubl:schema:xsd:CommonBasicComponents-2" xmlns:cac="urn:oasis:names:specification:ubl:schema:xsd:CommonAggregateComponents-2"><cbc:CustomizationID>urn:cen.eu:en16931:2017#compliant#urn:fdc:peppol.eu:2017:poacc:billing:3.0</cbc:CustomizationID><cbc:ID>1</cbc:ID><cbc:InvoiceTypeCode>380</cbc:InvoiceTypeCode><cbc:DocumentCurrencyCode>EUR</cbc:DocumentCurrencyCode><cac:LegalMonetaryTotal><cbc:PayableAmount currencyID="USD">1.00</cbc:PayableAmount></cac:LegalMonetaryTotal></Invoice>"#;
        let report = validate_xml(xml, Some(Profile::PeppolBis3)).unwrap();
        assert!(
            report
                .findings
                .iter()
                .any(|f| f.id == "PEPPOL-EN16931-R051"),
            "{}", report.to_string()
        );
    }

#[test]
fn peppol_empty_note_is_r008_not_on_en() {
        let xml = r#"<?xml version="1.0"?><Invoice xmlns="urn:oasis:names:specification:ubl:schema:xsd:Invoice-2" xmlns:cbc="urn:oasis:names:specification:ubl:schema:xsd:CommonBasicComponents-2" xmlns:cac="urn:oasis:names:specification:ubl:schema:xsd:CommonAggregateComponents-2"><cbc:CustomizationID>urn:cen.eu:en16931:2017#compliant#urn:fdc:peppol.eu:2017:poacc:billing:3.0</cbc:CustomizationID><cbc:ID>1</cbc:ID><cbc:InvoiceTypeCode>380</cbc:InvoiceTypeCode><cbc:Note></cbc:Note><cbc:DocumentCurrencyCode>EUR</cbc:DocumentCurrencyCode></Invoice>"#;
        let peppol = validate_xml(xml, Some(Profile::PeppolBis3)).unwrap();
        assert!(has_id(&peppol, "PEPPOL-EN16931-R008"), "{}", peppol.to_string());
        let en = validate_xml(xml, Some(Profile::En16931)).unwrap();
        assert!(!has_id(&en, "PEPPOL-EN16931-R008"), "{}", en.to_string());
    }

#[test]
fn peppol_charge_indicator_one_is_r043() {
        let xml = r#"<?xml version="1.0"?><Invoice xmlns="urn:oasis:names:specification:ubl:schema:xsd:Invoice-2" xmlns:cbc="urn:oasis:names:specification:ubl:schema:xsd:CommonBasicComponents-2" xmlns:cac="urn:oasis:names:specification:ubl:schema:xsd:CommonAggregateComponents-2"><cbc:CustomizationID>urn:cen.eu:en16931:2017#compliant#urn:fdc:peppol.eu:2017:poacc:billing:3.0</cbc:CustomizationID><cbc:ID>1</cbc:ID><cbc:InvoiceTypeCode>380</cbc:InvoiceTypeCode><cbc:DocumentCurrencyCode>EUR</cbc:DocumentCurrencyCode><cac:AllowanceCharge><cbc:ChargeIndicator>1</cbc:ChargeIndicator><cbc:Amount currencyID="EUR">1.00</cbc:Amount></cac:AllowanceCharge></Invoice>"#;
        let peppol = validate_xml(xml, Some(Profile::PeppolBis3)).unwrap();
        assert!(has_id(&peppol, "PEPPOL-EN16931-R043"), "{}", peppol.to_string());
        let en = validate_xml(xml, Some(Profile::En16931)).unwrap();
        assert!(!has_id(&en, "PEPPOL-EN16931-R043"), "{}", en.to_string());
    }

#[test]
fn peppol_price_charge_true_is_r044() {
        let xml = r#"<?xml version="1.0"?><Invoice xmlns="urn:oasis:names:specification:ubl:schema:xsd:Invoice-2" xmlns:cbc="urn:oasis:names:specification:ubl:schema:xsd:CommonBasicComponents-2" xmlns:cac="urn:oasis:names:specification:ubl:schema:xsd:CommonAggregateComponents-2"><cbc:CustomizationID>urn:cen.eu:en16931:2017#compliant#urn:fdc:peppol.eu:2017:poacc:billing:3.0</cbc:CustomizationID><cbc:ID>1</cbc:ID><cbc:InvoiceTypeCode>380</cbc:InvoiceTypeCode><cbc:DocumentCurrencyCode>EUR</cbc:DocumentCurrencyCode><cac:InvoiceLine><cbc:ID>1</cbc:ID><cbc:LineExtensionAmount currencyID="EUR">10.00</cbc:LineExtensionAmount><cac:Item><cbc:Name>A</cbc:Name></cac:Item><cac:Price><cbc:PriceAmount currencyID="EUR">10.00</cbc:PriceAmount><cac:AllowanceCharge><cbc:ChargeIndicator>true</cbc:ChargeIndicator><cbc:Amount currencyID="EUR">1.00</cbc:Amount></cac:AllowanceCharge></cac:Price></cac:InvoiceLine></Invoice>"#;
        let peppol = validate_xml(xml, Some(Profile::PeppolBis3)).unwrap();
        assert!(has_id(&peppol, "PEPPOL-EN16931-R044"), "{}", peppol.to_string());
        let en = validate_xml(xml, Some(Profile::En16931)).unwrap();
        assert!(!has_id(&en, "PEPPOL-EN16931-R044"), "{}", en.to_string());
    }

#[test]
fn peppol_two_taxtotal_with_subtotals_is_r053() {
        let xml = r#"<?xml version="1.0"?><Invoice xmlns="urn:oasis:names:specification:ubl:schema:xsd:Invoice-2" xmlns:cbc="urn:oasis:names:specification:ubl:schema:xsd:CommonBasicComponents-2" xmlns:cac="urn:oasis:names:specification:ubl:schema:xsd:CommonAggregateComponents-2"><cbc:CustomizationID>urn:cen.eu:en16931:2017#compliant#urn:fdc:peppol.eu:2017:poacc:billing:3.0</cbc:CustomizationID><cbc:ID>1</cbc:ID><cbc:InvoiceTypeCode>380</cbc:InvoiceTypeCode><cbc:DocumentCurrencyCode>EUR</cbc:DocumentCurrencyCode><cac:TaxTotal><cbc:TaxAmount currencyID="EUR">1.00</cbc:TaxAmount><cac:TaxSubtotal><cbc:TaxableAmount currencyID="EUR">10.00</cbc:TaxableAmount><cbc:TaxAmount currencyID="EUR">1.00</cbc:TaxAmount></cac:TaxSubtotal></cac:TaxTotal><cac:TaxTotal><cbc:TaxAmount currencyID="EUR">2.00</cbc:TaxAmount><cac:TaxSubtotal><cbc:TaxableAmount currencyID="EUR">20.00</cbc:TaxableAmount><cbc:TaxAmount currencyID="EUR">2.00</cbc:TaxAmount></cac:TaxSubtotal></cac:TaxTotal></Invoice>"#;
        let peppol = validate_xml(xml, Some(Profile::PeppolBis3)).unwrap();
        assert!(has_id(&peppol, "PEPPOL-EN16931-R053"), "{}", peppol.to_string());
        let en = validate_xml(xml, Some(Profile::En16931)).unwrap();
        assert!(!has_id(&en, "PEPPOL-EN16931-R053"), "{}", en.to_string());
    }

#[test]
fn peppol_non_iso_currencyid_is_cl007_and_br_cl_03() {
        let xml = r#"<?xml version="1.0"?><Invoice xmlns="urn:oasis:names:specification:ubl:schema:xsd:Invoice-2" xmlns:cbc="urn:oasis:names:specification:ubl:schema:xsd:CommonBasicComponents-2" xmlns:cac="urn:oasis:names:specification:ubl:schema:xsd:CommonAggregateComponents-2"><cbc:CustomizationID>urn:cen.eu:en16931:2017#compliant#urn:fdc:peppol.eu:2017:poacc:billing:3.0</cbc:CustomizationID><cbc:ID>1</cbc:ID><cbc:InvoiceTypeCode>380</cbc:InvoiceTypeCode><cbc:DocumentCurrencyCode>EUR</cbc:DocumentCurrencyCode><cac:LegalMonetaryTotal><cbc:PayableAmount currencyID="US$">1.00</cbc:PayableAmount></cac:LegalMonetaryTotal></Invoice>"#;
        let peppol = validate_xml(xml, Some(Profile::PeppolBis3)).unwrap();
        assert!(has_id(&peppol, "BR-CL-03"), "{}", peppol.to_string());
        assert!(has_id(&peppol, "PEPPOL-EN16931-CL007"), "{}", peppol.to_string());
        let en = validate_xml(xml, Some(Profile::En16931)).unwrap();
        assert!(has_id(&en, "BR-CL-03"), "{}", en.to_string());
        assert!(!has_id(&en, "PEPPOL-EN16931-CL007"), "{}", en.to_string());
    }

#[test]
fn peppol_cii_two_invoiced_objects_is_r006() {
        let xml = r#"<?xml version="1.0"?><rsm:CrossIndustryInvoice xmlns:rsm="urn:un:unece:uncefact:data:standard:CrossIndustryInvoice:100" xmlns:ram="urn:un:unece:uncefact:data:standard:ReusableAggregateBusinessInformationEntity:100"><rsm:ExchangedDocumentContext><ram:GuidelineSpecifiedDocumentContextParameter><ram:ID>urn:cen.eu:en16931:2017#compliant#urn:fdc:peppol.eu:2017:poacc:billing:3.0</ram:ID></ram:GuidelineSpecifiedDocumentContextParameter></rsm:ExchangedDocumentContext><rsm:ExchangedDocument><ram:ID>1</ram:ID><ram:TypeCode>380</ram:TypeCode></rsm:ExchangedDocument><rsm:SupplyChainTradeTransaction><ram:ApplicableHeaderTradeAgreement><ram:AdditionalReferencedDocument><ram:IssuerAssignedID>A</ram:IssuerAssignedID><ram:TypeCode>130</ram:TypeCode></ram:AdditionalReferencedDocument><ram:AdditionalReferencedDocument><ram:IssuerAssignedID>B</ram:IssuerAssignedID><ram:TypeCode>130</ram:TypeCode></ram:AdditionalReferencedDocument></ram:ApplicableHeaderTradeAgreement><ram:ApplicableHeaderTradeDelivery/><ram:ApplicableHeaderTradeSettlement><ram:InvoiceCurrencyCode>EUR</ram:InvoiceCurrencyCode></ram:ApplicableHeaderTradeSettlement></rsm:SupplyChainTradeTransaction></rsm:CrossIndustryInvoice>"#;
        let peppol = validate_xml(xml, Some(Profile::PeppolBis3)).unwrap();
        assert!(has_id(&peppol, "PEPPOL-EN16931-R006"), "{}", peppol.to_string());
        let en = validate_xml(xml, Some(Profile::En16931)).unwrap();
        assert!(!has_id(&en, "PEPPOL-EN16931-R006"), "{}", en.to_string());
    }

#[test]
fn peppol_two_line_document_refs_is_r100() {
        let xml = r#"<?xml version="1.0"?><Invoice xmlns="urn:oasis:names:specification:ubl:schema:xsd:Invoice-2" xmlns:cbc="urn:oasis:names:specification:ubl:schema:xsd:CommonBasicComponents-2" xmlns:cac="urn:oasis:names:specification:ubl:schema:xsd:CommonAggregateComponents-2"><cbc:CustomizationID>urn:cen.eu:en16931:2017#compliant#urn:fdc:peppol.eu:2017:poacc:billing:3.0</cbc:CustomizationID><cbc:ID>1</cbc:ID><cbc:InvoiceTypeCode>380</cbc:InvoiceTypeCode><cbc:DocumentCurrencyCode>EUR</cbc:DocumentCurrencyCode><cac:InvoiceLine><cbc:ID>1</cbc:ID><cbc:LineExtensionAmount currencyID="EUR">10.00</cbc:LineExtensionAmount><cac:Item><cbc:Name>A</cbc:Name></cac:Item><cac:DocumentReference><cbc:ID>A</cbc:ID><cbc:DocumentTypeCode>130</cbc:DocumentTypeCode></cac:DocumentReference><cac:DocumentReference><cbc:ID>B</cbc:ID><cbc:DocumentTypeCode>130</cbc:DocumentTypeCode></cac:DocumentReference></cac:InvoiceLine></Invoice>"#;
        let peppol = validate_xml(xml, Some(Profile::PeppolBis3)).unwrap();
        assert!(has_id(&peppol, "PEPPOL-EN16931-R100"), "{}", peppol.to_string());
        let en = validate_xml(xml, Some(Profile::En16931)).unwrap();
        assert!(!has_id(&en, "PEPPOL-EN16931-R100"), "{}", en.to_string());
    }
