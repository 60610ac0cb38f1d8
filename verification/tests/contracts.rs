use core_invoice::amount::InvoiceAmount;
use core_invoice::category::pint_gst_category;
use core_invoice::code::Code;
use core_invoice::date::Date;
use core_invoice::dec::Dec;
use core_invoice::formats::{cii, cii_write, convert, read, read_with_trace, ubl_write, FormatError, Syntax};
use core_invoice::invoice::{Invoice, Party};
use core_invoice::kind::DocumentKind;
use core_invoice::numeric::Percentage;
use core_invoice::profile::Profile;
use core_invoice::profile_proof::{En16931, Validated};
use core_invoice::report_json::rules_json;
use core_invoice::{catalogue, reconcile, BtId, Finding, Line, Path, Report, Severity, TaxCategory};

fn sample(profile: Profile, lines: usize) -> Invoice {
    let mut inv = Invoice::blank(profile, "INV-7", "EUR", Party::new("Seller", "DE"), Party::new("Buyer", "FR"));
    inv.issue_date = Date::parse("2026-01-15").ok();
    inv.type_code = Some(Code::new("380"));
    let mut v = Vec::new();
    for i in 0..lines {
        v.push(Line::new(
            &format!("{}", i + 1),
            "Service",
            InvoiceAmount::parse("100.00").unwrap(),
            TaxCategory::vat("S", Percentage::new(Dec::new(19, 0))),
        ));
    }
    inv.lines = v;
    reconcile(&mut inv).unwrap();
    inv
}

#[test]
fn date_with_a_sign_is_refused() {
    assert!(Date::parse("+026-01-15").is_err());
    assert!(Date::parse("-026-01-15").is_err());
    assert_eq!(Date::parse("2026-06-30").unwrap().to_string(), "2026-06-30");
}

#[test]
fn zr_is_not_a_pint_gst_category() {
    for c in ["S", "Z", "AA", "O", "SR"] {
        assert!(pint_gst_category(c), "{c}");
    }
    assert!(!pint_gst_category("ZR"));
    assert!(!pint_gst_category("s"));
}

#[test]
fn sort_keeps_equal_findings_in_their_order() {
    let mut r = Report::default();
    r.push(Finding::fatal("BR-01", Path::term(BtId(24)), "first".to_string()));
    r.push(Finding::warning("BR-02", Path::term(BtId(1)), "w".to_string()));
    r.push(Finding::fatal("BR-01", Path::term(BtId(24)), "second".to_string()));
    r.sort_stable();
    let msgs: Vec<&str> = r.findings.iter().map(|f| f.message.as_str()).collect();
    assert_eq!(msgs, vec!["first", "second", "w"]);
    assert_eq!(r.findings[2].severity, Severity::Warning);
}

#[test]
fn rules_json_lists_each_rule_on_a_line() {
    let rules = catalogue();
    let text = rules_json(&rules);
    assert!(text.starts_with("[\n"));
    assert!(text.ends_with("}\n]\n"));
    let lines: Vec<&str> = text.lines().collect();
    assert_eq!(lines.len(), rules.len() + 2);
    assert!(lines[1].starts_with(&format!("  {{\"id\":\"{}\",\"text\":\"", rules[0].id)));
    assert!(lines[1].ends_with("\"},"));
    assert!(lines[rules.len()].ends_with("\"}"));
}

#[test]
fn cii_credit_note_type_code_and_nothing_malformed() {
    let xml = "<CrossIndustryInvoice><ExchangedDocument><ID>1</ID><TypeCode>396</TypeCode></ExchangedDocument><SupplyChainTradeTransaction/></CrossIndustryInvoice>";
    let r = cii::read(xml).unwrap();
    assert_eq!(r.invoice.kind, DocumentKind::CreditNote);
    assert_eq!(r.invoice.type_code.as_ref().map(|c| c.as_str()), Some("396"));
    assert_eq!(r.invoice.number, "1");
    assert_eq!(r.invoice.profile, Profile::Unknown);
    assert!(r.malformed.is_empty());
    assert!(r.invoice.lines.is_empty());
}

#[test]
fn cii_line_price_and_order_line_are_read() {
    let xml = "<CrossIndustryInvoice><ExchangedDocument><ID>1</ID><TypeCode>380</TypeCode></ExchangedDocument><SupplyChainTradeTransaction><IncludedSupplyChainTradeLineItem><AssociatedDocumentLineDocument><LineID>7</LineID></AssociatedDocumentLineDocument><SpecifiedLineTradeAgreement><BuyerOrderReferencedDocument><LineID>OL-3</LineID></BuyerOrderReferencedDocument><NetPriceProductTradePrice><ChargeAmount>12.50</ChargeAmount></NetPriceProductTradePrice></SpecifiedLineTradeAgreement></IncludedSupplyChainTradeLineItem></SupplyChainTradeTransaction></CrossIndustryInvoice>";
    let r = cii::read(xml).unwrap();
    assert_eq!(r.invoice.lines.len(), 1);
    let line = &r.invoice.lines[0];
    assert_eq!(line.id, "7");
    assert_eq!(line.order_line.as_deref(), Some("OL-3"));
    assert!(line.price.is_some());
    assert!(line.attributes.is_empty());
    assert!(line.allowances.is_empty());
}

#[test]
fn cii_unparsable_net_price_leaves_no_price() {
    let xml = "<CrossIndustryInvoice><ExchangedDocument><ID>1</ID></ExchangedDocument><SupplyChainTradeTransaction><IncludedSupplyChainTradeLineItem><SpecifiedLineTradeAgreement><NetPriceProductTradePrice><ChargeAmount>abc</ChargeAmount></NetPriceProductTradePrice></SpecifiedLineTradeAgreement></IncludedSupplyChainTradeLineItem></SupplyChainTradeTransaction></CrossIndustryInvoice>";
    let r = cii::read(xml).unwrap();
    assert!(r.invoice.lines[0].price.is_none());
}

#[test]
fn ubl_comment_root_reads_as_invoice() {
    let xml = r#"<?xml version="1.0"?><!-- CrossIndustryInvoice --><Invoice xmlns="urn:oasis:names:specification:ubl:schema:xsd:Invoice-2" xmlns:cbc="urn:oasis:names:specification:ubl:schema:xsd:CommonBasicComponents-2"><cbc:ID>1</cbc:ID></Invoice>"#;
    let inv = read(xml).unwrap();
    assert_eq!(inv.kind, DocumentKind::Invoice);
    assert_eq!(inv.number, "1");
}

#[test]
fn read_lists_every_malformed_value() {
    let xml = r#"<Invoice xmlns="urn:oasis:names:specification:ubl:schema:xsd:Invoice-2" xmlns:cbc="urn:oasis:names:specification:ubl:schema:xsd:CommonBasicComponents-2" xmlns:cac="urn:oasis:names:specification:ubl:schema:xsd:CommonAggregateComponents-2"><cbc:ID>1</cbc:ID><cbc:IssueDate>2026-13-40</cbc:IssueDate><cac:InvoiceLine><cbc:ID>1</cbc:ID><cbc:LineExtensionAmount currencyID="EUR">0.001</cbc:LineExtensionAmount></cac:InvoiceLine></Invoice>"#;
    let traced = read_with_trace(xml).unwrap();
    assert!(traced.malformed.len() >= 2, "{:?}", traced.malformed);
    match read(xml) {
        Err(FormatError::Parse(m)) => {
            assert!(m.starts_with("malformed amounts: "));
            for entry in &traced.malformed {
                assert!(m.contains(entry.as_str()), "{m}");
            }
            assert_eq!(m, format!("malformed amounts: {}", traced.malformed.join("; ")));
        }
        other => panic!("{other:?}"),
    }
}

#[test]
fn cii_writer_writes_every_line_item() {
    let inv = sample(Profile::En16931, 3);
    let text = cii_write::write_unchecked(&inv).unwrap();
    assert_eq!(text.matches("<ram:IncludedSupplyChainTradeLineItem>").count(), 3);
    assert!(text.starts_with("<?xml version=\"1.0\" encoding=\"UTF-8\"?>\n<rsm:CrossIndustryInvoice"));
    assert!(text.ends_with("</rsm:CrossIndustryInvoice>\n"));
    assert!(!text.contains("<Invoice "));
}

#[test]
fn ubl_writer_writes_credit_note_tags() {
    let mut inv = sample(Profile::En16931, 2);
    inv.kind = DocumentKind::CreditNote;
    let text = ubl_write::write_unchecked(&inv);
    assert!(text.contains("<CreditNote xmlns="));
    assert_eq!(text.matches("<cac:CreditNoteLine>").count(), 2);
    assert!(text.contains("CreditedQuantity") || !text.contains("InvoicedQuantity"));
    assert!(text.ends_with("</CreditNote>\n"));
}

#[test]
fn conversion_writes_what_the_writer_writes() {
    let inv = sample(Profile::En16931, 1);
    let ubl = ubl_write::write_unchecked(&inv);
    let read_back = read(&ubl).unwrap();
    let mut stamped = read_back.clone();
    stamped.stamp_profile(read_back.profile);
    match convert(&ubl, Syntax::Cii) {
        Ok(cii_text) => assert_eq!(cii_write::write_unchecked(&stamped).unwrap(), cii_text),
        Err(FormatError::Semantic(rep)) => assert!(!rep.0.ok()),
        Err(e) => panic!("{e:?}"),
    }
}

#[test]
fn validated_holds_the_stamped_invoice() {
    let inv = sample(Profile::Unknown, 1);
    let mut stamped = inv.clone();
    stamped.profile = Profile::En16931;
    stamped.specification_id = Some(Profile::En16931.specification_id().to_string());
    match Validated::<En16931>::new(inv) {
        Ok(v) => {
            assert_eq!(*v.invoice(), stamped);
            assert!(core_invoice::validate(v.invoice()).ok());
        }
        Err((i, rep)) => {
            assert_eq!(i, stamped);
            assert!(!rep.ok());
        }
    }
}

#[test]
fn to_credit_note_keeps_other_fields() {
    let inv = sample(Profile::En16931, 2);
    let cn = inv.clone().to_credit_note("CN-1", Date::parse("2026-02-01").unwrap());
    assert_eq!(cn.kind, DocumentKind::CreditNote);
    assert_eq!(cn.number, "CN-1");
    assert_eq!(cn.lines, inv.lines);
    assert_eq!(cn.totals, inv.totals);
    assert_eq!(cn.tax_breakdown, inv.tax_breakdown);
    assert_eq!(cn.seller, inv.seller);
    assert_eq!(cn.currency, inv.currency);
}

fn peppol_two_lines() -> Invoice {
    let mut inv = sample(Profile::PeppolBis3, 3);
    for (i, net) in ["100.03", "100.00", "100.05"].iter().enumerate() {
        inv.lines[i].quantity = Some(core_invoice::numeric::Quantity::parse("1").unwrap());
        inv.lines[i].price = Some(core_invoice::invoice::Price {
            net: core_invoice::amount::UnitPriceAmount::parse(net).unwrap(),
            discount: None,
            gross: None,
            base_qty: None,
            base_unit: None,
        });
    }
    inv
}

#[test]
fn r120_one_finding_per_line_off_on_its_bt131() {
    let inv = peppol_two_lines();
    let mut report = Report::default();
    core_invoice::peppol_checks::r120(&inv, &mut report);
    assert_eq!(report.findings.len(), 2);
    assert!(report.findings.iter().all(|f| f.id == "PEPPOL-EN16931-R120" && f.severity == Severity::Fatal));
    assert_eq!(report.findings[0].path, Path::at_term(core_invoice::Group::Line, 0, BtId(131)));
    assert_eq!(report.findings[1].path, Path::at_term(core_invoice::Group::Line, 2, BtId(131)));
    let mut en = inv.clone();
    en.profile = Profile::En16931;
    let mut quiet = Report::default();
    core_invoice::peppol_checks::r120(&en, &mut quiet);
    assert!(quiet.findings.is_empty());
}

#[test]
fn r040_counts_each_allowance_and_charge_off() {
    let mut inv = sample(Profile::PeppolBis3, 1);
    let ac = |amount: &str| core_invoice::invoice::AllowanceCharge {
        amount: InvoiceAmount::parse(amount).unwrap(),
        base: Some(InvoiceAmount::parse("200.00").unwrap()),
        percent: Some(Percentage::new(Dec::new(10, 0))),
        reason: Some("r".to_string()),
        reason_code: None,
        tax: Some(TaxCategory::vat("S", Percentage::new(Dec::new(19, 0)))),
    };
    inv.document_allowances = vec![ac("20.00"), ac("20.03")];
    inv.document_charges = vec![ac("19.98"), ac("25.00")];
    let mut report = Report::default();
    core_invoice::peppol_checks::r040(&inv, &mut report);
    assert_eq!(report.findings.len(), 2);
    assert_eq!(report.findings[0].path, Path::at_term(core_invoice::Group::DocumentAllowance, 1, BtId(92)));
    assert_eq!(report.findings[1].path, Path::at_term(core_invoice::Group::DocumentAllowance, 3, BtId(92)));
    assert!(report.findings.iter().all(|f| f.id == "PEPPOL-EN16931-R040"));
}

#[test]
fn ubl_line_period_price_and_notes_are_read() {
    let xml = r#"<Invoice xmlns="urn:oasis:names:specification:ubl:schema:xsd:Invoice-2" xmlns:cbc="urn:oasis:names:specification:ubl:schema:xsd:CommonBasicComponents-2" xmlns:cac="urn:oasis:names:specification:ubl:schema:xsd:CommonAggregateComponents-2"><cbc:ID>9</cbc:ID><cbc:InvoiceTypeCode>380</cbc:InvoiceTypeCode><cbc:Note>#AAI#first</cbc:Note><cbc:Note>second</cbc:Note><cac:InvoiceLine><cbc:ID>L1</cbc:ID><cbc:InvoicedQuantity unitCode="C62">2</cbc:InvoicedQuantity><cbc:LineExtensionAmount currencyID="EUR">20.00</cbc:LineExtensionAmount><cac:InvoicePeriod><cbc:StartDate>2026-01-01</cbc:StartDate></cac:InvoicePeriod><cac:Item><cbc:Name>Thing</cbc:Name></cac:Item><cac:Price><cbc:PriceAmount currencyID="EUR">10.00</cbc:PriceAmount></cac:Price></cac:InvoiceLine></Invoice>"#;
    let inv = read(xml).unwrap();
    assert_eq!(inv.type_code.as_ref().map(|c| c.as_str()), Some("380"));
    assert_eq!(inv.notes.len(), 2);
    assert_eq!(inv.notes[0].subject.as_ref().map(|c| c.as_str()), Some("AAI"));
    assert_eq!(inv.notes[0].text, "first");
    assert!(inv.notes[1].subject.is_none());
    assert_eq!(inv.lines.len(), 1);
    let line = &inv.lines[0];
    assert_eq!(line.id, "L1");
    assert_eq!(line.name, "Thing");
    assert_eq!(line.unit.as_ref().map(|c| c.as_str()), Some("C62"));
    assert!(line.price.is_some());
    let period = line.period.as_ref().unwrap();
    assert_eq!(period.start.unwrap().to_string(), "2026-01-01");
    assert!(period.end.is_none());
    assert!(line.allowances.is_empty());
}

#[test]
fn compute_in_range_comes_out_with_the_rated_tax() {
    let mut inv = sample(Profile::En16931, 2);
    inv.lines[1].tax = TaxCategory::vat("S", Percentage::new(Dec::new(75, 1)));
    let rc = core_invoice::Reconciler::new().compute(&inv).unwrap();
    assert_eq!(rc.tax_breakdown.len(), 2);
    let taxes: Vec<String> = rc.tax_breakdown.iter().map(|r| r.tax.to_string()).collect();
    assert!(taxes.contains(&"7.50".to_string()), "{taxes:?}");
    assert!(taxes.contains(&"19.00".to_string()), "{taxes:?}");
    assert_eq!(rc.totals.line_net.unwrap().to_string(), "200.00");
}

#[test]
fn validated_replaces_a_leftover_specification_id_and_keeps_bt23() {
    let mut inv = sample(Profile::Unknown, 1);
    inv.specification_id = Some("urn:example:own".to_string());
    inv.business_process = Some("own-process".to_string());
    let kept = match Validated::<En16931>::new(inv) {
        Ok(v) => v.into_inner(),
        Err((i, _)) => i,
    };
    assert_eq!(kept.specification_id.as_deref(), Some(Profile::En16931.specification_id()));
    assert_eq!(kept.business_process.as_deref(), Some("own-process"));
    assert_eq!(kept.profile, Profile::En16931);
}
