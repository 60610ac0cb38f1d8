use core_invoice::amount::{InvoiceAmount, UnitPriceAmount};
use core_invoice::arith::{derived_vat, within_vat_tolerance, xpath_round};
use core_invoice::dec::Dec;
use core_invoice::invoice::{Invoice, Party};
use core_invoice::numeric::{Percentage, Quantity};
use core_invoice::profile::Profile;
use core_invoice::validate::validate;

fn d(s: &str) -> Dec {
    Dec::parse(s).unwrap()
}

fn same(a: Dec, b: Dec) -> bool {
    a.value_eq(&b)
}

#[test]
fn refuses_third_decimal() {
    assert!(InvoiceAmount::parse("0.005").is_err());
    assert!(InvoiceAmount::try_new(Dec::new(5, 3)).is_err());
}

#[test]
fn accepts_two_or_fewer() {
    assert!(InvoiceAmount::parse("100.00").is_ok());
    assert!(InvoiceAmount::parse("100").is_ok());
    assert!(InvoiceAmount::parse("100.1").is_ok());
    assert!(same(InvoiceAmount::from_minor(10000).raw(), Dec::new(10000, 2)));
}

#[test]
fn amount_unit_price_keeps_four_decimals() {
    let p = UnitPriceAmount::parse("10000.1234").unwrap();
    assert_eq!(p.to_string(), "10000.1234");
}

#[test]
fn checked_add_no_saturate() {
    let a = InvoiceAmount::parse("1.00").unwrap();
    let b = InvoiceAmount::parse("2.50").unwrap();
    assert_eq!(a.checked_add(b).unwrap().to_string(), "3.50");
}

#[test]
fn ties_go_towards_positive_infinity() {
    assert!(same(xpath_round(d("0.5")), d("1")));
    assert!(same(xpath_round(d("2.5")), d("3")));
    assert!(same(xpath_round(d("-0.5")), d("0")));
    assert!(same(xpath_round(d("-1.5")), d("-1")));
    assert!(same(xpath_round(d("0.4")), d("0")));
    assert!(same(xpath_round(d("0.6")), d("1")));
    assert!(same(xpath_round(d("-0.6")), d("-1")));
    assert!(same(xpath_round(d("19")), d("19")));
}

#[test]
fn a_rate_of_half_a_per_cent_is_not_a_zero_rate() {
    assert!(!same(xpath_round(d("0.5")), Dec::zero()));
    assert!(same(derived_vat(d("1000.00"), d("0.5")).unwrap(), d("5")));
}

#[test]
fn the_derivation_is_taken_on_absolute_values() {
    let a = derived_vat(d("-1000.00"), d("19")).unwrap();
    let b = derived_vat(d("1000.00"), d("19")).unwrap();
    assert!(same(a, b));
}

#[test]
fn a_full_currency_unit_of_slack_excludes_its_own_boundary() {
    assert!(within_vat_tolerance(d("190.99"), d("190.00")));
    assert!(!within_vat_tolerance(d("191.00"), d("190.00")));
    assert!(!within_vat_tolerance(d("189.00"), d("190.00")));
}

#[test]
fn quantity_may_be_negative() {
    let q = Quantity::new(Dec::new(-1, 0));
    assert!(q.is_negative());
    assert_eq!(q.to_string(), "-1");
}

#[test]
fn ten_percent_is_not_point_one() {
    let p = Percentage::new(Dec::new(10, 0));
    assert!(same(p.as_percent(), Dec::new(10, 0)));
    assert!(same(p.as_fraction(), Dec::new(10, 2)));
    assert_eq!(Percentage::new(Dec::new(19, 0)), Percentage::new(Dec::new(1900, 2)));
}

#[test]
fn xrechnung_claim_without_feature_does_not_emit_br_de() {
    let mut inv = Invoice::blank(Profile::En16931, "1", "EUR", Party::new("S", "DE"), Party::new("B", "DE"));
    inv.specification_id = Some("urn:cen.eu:en16931:2017#compliant#urn:xeinkauf.de:kosit:xrechnung_3.0".into());
    let report = validate(&inv);
    assert!(
        report.findings.iter().all(|f| !f.id.starts_with("BR-DE-") && f.id != "BR-TMP-2"),
        "{}",
        report.to_string()
    );
}
