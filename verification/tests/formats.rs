use core_invoice::formats::prohibitions::{path_matches, ubl_forbidden_path};
use core_invoice::formats::ubl::sniff;
use core_invoice::formats::xml;
use core_invoice::formats::{FormatError, Syntax};
use core_invoice::kind::DocumentKind;

#[test]
fn xs_boolean_accepts_one_and_zero() {
    assert_eq!(xml::parse_xs_boolean("1"), Some(true));
    assert_eq!(xml::parse_xs_boolean("0"), Some(false));
    assert_eq!(xml::parse_xs_boolean(" true "), Some(true));
    assert_eq!(xml::parse_xs_boolean("false"), Some(false));
    assert_eq!(xml::parse_xs_boolean("TRUE"), None);
}

#[test]
fn sniff_skips_comment() {
    let xml = "<!-- Invoice in a comment --><CreditNote xmlns='urn:oasis:names:specification:ubl:schema:xsd:CreditNote-2'/>";
    assert_eq!(sniff(xml).unwrap(), DocumentKind::CreditNote);
}

#[test]
fn sniff_refuses_dtd_and_other_roots() {
    assert!(sniff("<!DOCTYPE x><Invoice/>").is_err());
    match sniff("<?xml version='1.0'?><rsm:CrossIndustryInvoice/>") {
        Err(FormatError::Parse(m)) => assert_eq!(m, "not UBL Invoice/CreditNote: CrossIndustryInvoice"),
        other => panic!("{other:?}"),
    }
    assert!(sniff("   ").is_err());
}

#[test]
fn uuid_is_forbidden_on_invoice_root_only() {
    assert_eq!(ubl_forbidden_path("Invoice/cbc:UUID"), Some("UBL-CR-005"));
    assert_eq!(
        ubl_forbidden_path("Invoice/cac:AccountingCustomerParty/cbc:UUID"),
        None
    );
}

#[test]
fn floating_contexts_match_at_any_depth() {
    assert!(path_matches("Invoice/cac:A/cac:B", "//cac:A", "cac:B"));
    assert!(path_matches("cac:A/cac:B", "cac:A", "cac:B"));
    assert!(!path_matches("Invoice/cac:XA/cac:B", "//cac:A", "cac:B"));
    assert!(path_matches("ubl:Invoice/cbc:UUID", "/Invoice", "cbc:UUID"));
}

#[test]
fn prolog_and_document_element() {
    assert_eq!(
        xml::skip_prolog("  <?xml version='1.0'?>\n<!-- c --><!DOCTYPE a><x/>"),
        "<x/>"
    );
    assert_eq!(xml::skip_prolog("<?xml never closed"), "");
    assert_eq!(xml::document_element_local("<a:Invoice xmlns:a='u'/>"), Some("Invoice"));
    assert_eq!(xml::first_element_local("</p:end>"), Some("end"));
    assert_eq!(xml::first_element_local("text"), None);
}

#[test]
fn hygiene_limits() {
    assert!(xml::refuse_dtd("<!doctype html>").is_err());
    assert!(xml::refuse_dtd("<Invoice/>").is_ok());
    assert!(xml::refuse_oversize("<a/>").is_ok());
    assert!(xml::refuse_depth(&"<a>".repeat(80)).is_err());
    assert!(xml::refuse_depth(&"<a/>".repeat(200)).is_ok());
    assert!(!xml::exceeds_depth("<a><b></b></a>", 2));
    assert!(xml::exceeds_depth("<a><b><c/></b></a>", 2));
    assert!(!xml::exceeds_depth("<?x?><!-- --><a/>", 1));
}

#[test]
fn syntax_names() {
    assert_eq!(Syntax::parse(" UN/CEFACT "), Some(Syntax::Cii));
    assert_eq!(Syntax::parse("ubl-2.1"), Some(Syntax::Ubl));
    assert_eq!(Syntax::parse("json"), None);
    assert_eq!(Syntax::Cii.slug(), "cii");
}
