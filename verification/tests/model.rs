use core_invoice::attachment::Attachment;
use core_invoice::bt::{BtId, Group, Path};
use core_invoice::code::Code;
use core_invoice::codes;
use core_invoice::date::Date;
use core_invoice::error::AttachmentError;
use core_invoice::identifier::{DocumentReference, Identifier};
use core_invoice::profile::Profile;
use core_invoice::tax::{wire_scheme, pint_my_category, TaxSystem};

#[test]
fn rejects_blank_mime_or_filename() {
    assert!(Attachment::new(vec![], "", "x.pdf").is_err());
    assert!(Attachment::new(vec![], "application/pdf", "  ").is_err());
    let a = Attachment::new(b"%PDF".to_vec(), "application/pdf", "terms.pdf").unwrap();
    assert!(a.is_universally_accepted());
}

#[test]
fn attachment_errors_name_the_blank_field() {
    assert_eq!(Attachment::new(vec![], " ", "").unwrap_err(), AttachmentError::EmptyMime);
    assert_eq!(Attachment::new(vec![], "text/csv", "\t").unwrap_err(), AttachmentError::EmptyFilename);
    let a = Attachment::new(vec![1], "application/xml", "a.xml").unwrap();
    assert!(!a.is_universally_accepted());
    assert_eq!(a.mime, "application/xml");
}

#[test]
fn display_shapes() {
    assert_eq!(Path::term(BtId(1)).to_string(), "BT-1");
    assert_eq!(Path::group(Group::Totals).to_string(), "BG-22");
    assert_eq!(
        Path {
            group: Group::Totals,
            index: None,
            term: Some(BtId(109))
        }
        .to_string(),
        "BG-22/BT-109"
    );
    assert_eq!(Path::group(Group::Line).to_string(), "BG-25");
    assert_eq!(
        Path::at_term(Group::Line, 2, BtId(151)).to_string(),
        "BG-25[2]/BT-151"
    );
}

#[test]
fn path_text_covers_every_shape() {
    assert_eq!(Path::group(Group::Document).to_string(), "Invoice");
    assert_eq!(
        Path { group: Group::Line, index: Some(0), term: None }.to_string(),
        "BG-25[0]"
    );
    assert_eq!(Path::group_term(Group::Seller, BtId(31)).to_string(), "BG-4/BT-31");
    assert_eq!(Group::Document.bg_id(), None);
    assert_eq!(Group::Attachment.bg_id(), Some(24));
    assert_eq!(BtId(151).to_string(), "BT-151");
}

#[test]
fn parses_iso_day() {
    let d = Date::parse("2026-06-30").unwrap();
    assert_eq!(d.to_string(), "2026-06-30");
    assert!(Date::parse("2026-02-30").is_err());
    assert!(Date::parse("2026-06-01T00:00:00").is_err());
    assert!(Date::parse("2026-01-15Z").is_err());
    assert!(Date::parse("2026-01-15+00:00").is_err());
}

#[test]
fn leap_days_and_padding() {
    assert!(Date::parse("2024-02-29").is_ok());
    assert!(Date::parse("2100-02-29").is_err());
    assert!(Date::parse("2000-02-29").is_ok());
    assert_eq!(Date::new(7, 3, 4).unwrap().to_string(), "0007-03-04");
    assert!(Date::new(10000, 1, 1).is_err());
    assert!(Date::new(2026, 13, 1).is_err());
    assert!(Date::new(2026, 4, 31).is_err());
    let d = Date::parse("  2026-01-15 ").unwrap();
    assert_eq!((d.year(), d.month(), d.day()), (2026, 1, 15));
    assert!(Date::parse("2026-1-15").is_err());
    assert!(Date::parse("-026-01-15").is_err());
}

#[test]
fn vat_cgst_is_not_vat() {
    assert_eq!(TaxSystem::parse("VAT/CGST"), None);
    assert_eq!(TaxSystem::parse("VAT"), Some(TaxSystem::Vat));
}

#[test]
fn tax_system_names() {
    assert_eq!(TaxSystem::parse(" sales "), Some(TaxSystem::Sst));
    assert_eq!(TaxSystem::parse("ct"), Some(TaxSystem::Consumption));
    assert_eq!(TaxSystem::Consumption.as_str(), "CONSUMPTION");
    assert_eq!(wire_scheme(Profile::PintMy, TaxSystem::Sst, "ttx"), "AAL");
    assert_eq!(wire_scheme(Profile::PintMy, TaxSystem::Sst, "SA"), "VAT");
    assert_eq!(wire_scheme(Profile::Pint, TaxSystem::Gst, "S"), "GST");
    assert_eq!(wire_scheme(Profile::PeppolBis3, TaxSystem::Gst, "S"), "VAT");
    assert!(pint_my_category("HVG"));
    assert!(!pint_my_category("hvg"));
}

#[test]
fn profiles_parse_and_stamp() {
    assert_eq!(Profile::parse(" BIS3 "), Some(Profile::PeppolBis3));
    assert_eq!(Profile::parse("xrechnung"), None);
    assert_eq!(Profile::PintMy.slug(), "pint-my");
    assert_eq!(Profile::PintMy.specification_id(), "urn:peppol:pint:billing-1@my-1");
    assert!(Profile::PintMy.allows(TaxSystem::Sst));
    assert!(!Profile::En16931.allows(TaxSystem::Gst));
    assert_eq!(Profile::En16931.process_id(), None);
}

#[test]
fn artefact_pins_are_fully_qualified() {
    assert_eq!(codes::ARTEFACT_VERSION, "validation-1.3.16");
    assert_eq!(codes::PEPPOL_BIS_VERSION, "v3.0.20");
    assert_eq!(codes::PINT_MY_VERSION, "1.3.0");
}

#[test]
fn code_lists() {
    assert!(codes::currency("eur"));
    assert!(!codes::currency("US$"));
    assert!(codes::country("DE"));
    assert!(codes::invoice_type("380"));
    assert!(!codes::invoice_type("381"));
    assert!(codes::credit_note_type("381"));
    assert!(codes::eas("0088"));
    assert!(codes::eas_guard("9958", Profile::En16931).is_err());
    assert!(codes::eas_guard("T", Profile::PintMy).is_err());
    assert!(codes::eas_guard("T", Profile::En16931).is_ok());
}

#[test]
fn codes_and_identifiers_keep_text() {
    let c = Code::new(" S ");
    assert_eq!(c.as_str(), " S ");
    assert!(!c.is_empty());
    assert!(Code::new(" \t").is_empty());
    let i = Identifier::with_version("X", "0088", "1");
    assert_eq!(i.scheme.as_deref(), Some("0088"));
    assert_eq!(i.scheme_version.as_deref(), Some("1"));
    assert_eq!(Identifier::schemed("a", "b").scheme_version, None);
    assert_eq!(DocumentReference::new("PO-1").as_str(), "PO-1");
}
