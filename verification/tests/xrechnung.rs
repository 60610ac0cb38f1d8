use core_invoice::xrechnung::{is_valid_iban_checksum, is_xrechnung_spec, plausible_email};

#[test]
fn detect_kosit_urn() {
    assert!(is_xrechnung_spec(
        "urn:cen.eu:en16931:2017#compliant#urn:xeinkauf.de:kosit:xrechnung_3.0"
    ));
    assert!(is_xrechnung_spec("urn:cen.eu:en16931:2017#compliant#urn:xeinkauf.de:kosit:xrechnung_3.0#conformant#urn:xeinkauf.de:kosit:extension:xrechnung_3.0"));
    assert!(is_xrechnung_spec("urn:cen.eu:en16931:2017#compliant#urn:xeinkauf.de:kosit:xrechnung_3.0#compliant#urn:xeinkauf.de:kosit:xrechnung:cvd_0.9"));
    assert!(is_xrechnung_spec(
        "urn:cen.eu:en16931:2017#compliant#urn:xoev-de:kosit:standard:xrechnung_3.0"
    ));
    assert!(!is_xrechnung_spec("urn:cen.eu:en16931:2017"));
}

#[test]
fn iban_mod_97_accepts_real_ibans_and_rejects_typos() {
    for ok in [
        "DE89370400440532013000",
        "GB82 WEST 1234 5698 7654 32",
        "FR1420041010050500013M02606",
        "NL91ABNA0417164300",
    ] {
        assert!(is_valid_iban_checksum(ok), "{ok} should be valid");
    }
    for bad in [
        "DE89370400440532013001",
        "DE8937040044053201300",
        "XX00",
        "0089370400440532013000",
        "DE89-3704-0044",
        "",
    ] {
        assert!(!is_valid_iban_checksum(bad), "{bad:?} should be invalid");
    }
}

#[test]
fn iban_letters_in_either_case() {
    assert!(is_valid_iban_checksum("gb82west12345698765432"));
}

#[test]
fn br_de_28_is_a_shape_test_not_an_rfc_parser() {
    for ok in ["rechnung@seller.de", "a.b@example.co.uk"] {
        assert!(plausible_email(ok), "{ok}");
    }
    for bad in [
        "no-at-sign",
        "two@@ats.de",
        "a@b.de",
        "ab@c",
        "ab .@seller.de",
        "ab.@seller.de",
        ".ab@seller.de",
        "ab@seller.de.",
    ] {
        assert!(!plausible_email(bad), "{bad:?} should be rejected");
    }
}
