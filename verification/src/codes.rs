//! Code lists (code points only) and the artefact pins.
use vstd::prelude::*;
use crate::profile::Profile;
use crate::text::{eq_ic, owned, str_eq, str_eq_ic};

verus! {

/// CEN EN 16931 validation artefacts pin: a fully qualified tag, not a branch.
pub const ARTEFACT_VERSION: &'static str = "validation-1.3.16";

/// Peppol BIS Billing pin.
pub const PEPPOL_BIS_VERSION: &'static str = "v3.0.20";

/// PINT-MY pin.
pub const PINT_MY_VERSION: &'static str = "1.3.0";

/// EN 16931 artefacts release commit.
pub const EN16931_GIT: &'static str = "b6c9e06";

/// PINT pin.
pub const PINT_VERSION: &'static str = "1.1.2";

/// Some entry of the list equals the code up to ASCII case.
pub open spec fn listed_ic(list: Seq<&'static str>, code: Seq<char>) -> bool {
    exists|i: int| 0 <= i < list.len() && eq_ic((#[trigger] list[i])@, code)
}

/// Some entry of the list equals the code exactly.
pub open spec fn listed_exact(list: Seq<&'static str>, code: Seq<char>) -> bool {
    exists|i: int| 0 <= i < list.len() && (#[trigger] list[i])@ == code
}

fn in_list(list: &Vec<&'static str>, code: &str, ignore_case: bool) -> (r: bool)
    ensures
        ignore_case ==> r == listed_ic(list@, code@),
        !ignore_case ==> r == listed_exact(list@, code@),
{
    let mut i: usize = 0;
    while i < list.len()
        invariant
            i <= list.len(),
            ignore_case ==> forall|j: int| 0 <= j < i ==> !eq_ic((#[trigger] list@[j])@, code@),
            !ignore_case ==> forall|j: int| 0 <= j < i ==> (#[trigger] list@[j])@ != code@,
        decreases list.len() - i,
    {
        let hit = if ignore_case { str_eq_ic(list[i], code) } else { str_eq(list[i], code) };
        if hit {
            return true;
        }
        i = i + 1;
    }
    false
}

/// ISO 4217 alpha-3 currency codes. (part 1)
#[verifier::opaque]
pub open spec fn iso_4217_1_spec() -> Seq<&'static str> {
    seq!["AED", "AFN", "ALL", "AMD", "ANG", "AOA", "ARS", "AUD", "AWG", "AZN", "BAM", "BBD", "BDT", "BGN", "BHD", "BIF", "BMD", "BND", "BOB", "BOV"]
}

fn iso_4217_1_list() -> (v: Vec<&'static str>)
    ensures
        v@ == iso_4217_1_spec(),
{
    let mut v: Vec<&'static str> = Vec::new();
    v.push("AED");
    v.push("AFN");
    v.push("ALL");
    v.push("AMD");
    v.push("ANG");
    v.push("AOA");
    v.push("ARS");
    v.push("AUD");
    v.push("AWG");
    v.push("AZN");
    v.push("BAM");
    v.push("BBD");
    v.push("BDT");
    v.push("BGN");
    v.push("BHD");
    v.push("BIF");
    v.push("BMD");
    v.push("BND");
    v.push("BOB");
    v.push("BOV");
    proof { reveal(iso_4217_1_spec); }
    assert(v@ =~= iso_4217_1_spec());
    v
}

/// ISO 4217 alpha-3 currency codes. (part 2)
#[verifier::opaque]
pub open spec fn iso_4217_2_spec() -> Seq<&'static str> {
    seq!["BRL", "BSD", "BTN", "BWP", "BYN", "BZD", "CAD", "CDF", "CHE", "CHF", "CHW", "CLF", "CLP", "CNY", "COP", "COU", "CRC", "CUC", "CUP", "CVE"]
}

fn iso_4217_2_list() -> (v: Vec<&'static str>)
    ensures
        v@ == iso_4217_2_spec(),
{
    let mut v: Vec<&'static str> = Vec::new();
    v.push("BRL");
    v.push("BSD");
    v.push("BTN");
    v.push("BWP");
    v.push("BYN");
    v.push("BZD");
    v.push("CAD");
    v.push("CDF");
    v.push("CHE");
    v.push("CHF");
    v.push("CHW");
    v.push("CLF");
    v.push("CLP");
    v.push("CNY");
    v.push("COP");
    v.push("COU");
    v.push("CRC");
    v.push("CUC");
    v.push("CUP");
    v.push("CVE");
    proof { reveal(iso_4217_2_spec); }
    assert(v@ =~= iso_4217_2_spec());
    v
}

/// ISO 4217 alpha-3 currency codes. (part 3)
#[verifier::opaque]
pub open spec fn iso_4217_3_spec() -> Seq<&'static str> {
    seq!["CZK", "DJF", "DKK", "DOP", "DZD", "EGP", "ERN", "ETB", "EUR", "FJD", "FKP", "GBP", "GEL", "GHS", "GIP", "GMD", "GNF", "GTQ", "GYD", "HKD"]
}

fn iso_4217_3_list() -> (v: Vec<&'static str>)
    ensures
        v@ == iso_4217_3_spec(),
{
    let mut v: Vec<&'static str> = Vec::new();
    v.push("CZK");
    v.push("DJF");
    v.push("DKK");
    v.push("DOP");
    v.push("DZD");
    v.push("EGP");
    v.push("ERN");
    v.push("ETB");
    v.push("EUR");
    v.push("FJD");
    v.push("FKP");
    v.push("GBP");
    v.push("GEL");
    v.push("GHS");
    v.push("GIP");
    v.push("GMD");
    v.push("GNF");
    v.push("GTQ");
    v.push("GYD");
    v.push("HKD");
    proof { reveal(iso_4217_3_spec); }
    assert(v@ =~= iso_4217_3_spec());
    v
}

/// ISO 4217 alpha-3 currency codes. (part 4)
#[verifier::opaque]
pub open spec fn iso_4217_4_spec() -> Seq<&'static str> {
    seq!["HNL", "HRK", "HTG", "HUF", "IDR", "ILS", "INR", "IQD", "IRR", "ISK", "JMD", "JOD", "JPY", "KES", "KGS", "KHR", "KMF", "KPW", "KRW", "KWD"]
}

fn iso_4217_4_list() -> (v: Vec<&'static str>)
    ensures
        v@ == iso_4217_4_spec(),
{
    let mut v: Vec<&'static str> = Vec::new();
    v.push("HNL");
    v.push("HRK");
    v.push("HTG");
    v.push("HUF");
    v.push("IDR");
    v.push("ILS");
    v.push("INR");
    v.push("IQD");
    v.push("IRR");
    v.push("ISK");
    v.push("JMD");
    v.push("JOD");
    v.push("JPY");
    v.push("KES");
    v.push("KGS");
    v.push("KHR");
    v.push("KMF");
    v.push("KPW");
    v.push("KRW");
    v.push("KWD");
    proof { reveal(iso_4217_4_spec); }
    assert(v@ =~= iso_4217_4_spec());
    v
}

/// ISO 4217 alpha-3 currency codes. (part 5)
#[verifier::opaque]
pub open spec fn iso_4217_5_spec() -> Seq<&'static str> {
    seq!["KYD", "KZT", "LAK", "LBP", "LKR", "LRD", "LSL", "LYD", "MAD", "MDL", "MGA", "MKD", "MMK", "MNT", "MOP", "MRU", "MUR", "MVR", "MWK", "MXN"]
}

fn iso_4217_5_list() -> (v: Vec<&'static str>)
    ensures
        v@ == iso_4217_5_spec(),
{
    let mut v: Vec<&'static str> = Vec::new();
    v.push("KYD");
    v.push("KZT");
    v.push("LAK");
    v.push("LBP");
    v.push("LKR");
    v.push("LRD");
    v.push("LSL");
    v.push("LYD");
    v.push("MAD");
    v.push("MDL");
    v.push("MGA");
    v.push("MKD");
    v.push("MMK");
    v.push("MNT");
    v.push("MOP");
    v.push("MRU");
    v.push("MUR");
    v.push("MVR");
    v.push("MWK");
    v.push("MXN");
    proof { reveal(iso_4217_5_spec); }
    assert(v@ =~= iso_4217_5_spec());
    v
}

/// ISO 4217 alpha-3 currency codes. (part 6)
#[verifier::opaque]
pub open spec fn iso_4217_6_spec() -> Seq<&'static str> {
    seq!["MXV", "MYR", "MZN", "NAD", "NGN", "NIO", "NOK", "NPR", "NZD", "OMR", "PAB", "PEN", "PGK", "PHP", "PKR", "PLN", "PYG", "QAR", "RON", "RSD"]
}

fn iso_4217_6_list() -> (v: Vec<&'static str>)
    ensures
        v@ == iso_4217_6_spec(),
{
    let mut v: Vec<&'static str> = Vec::new();
    v.push("MXV");
    v.push("MYR");
    v.push("MZN");
    v.push("NAD");
    v.push("NGN");
    v.push("NIO");
    v.push("NOK");
    v.push("NPR");
    v.push("NZD");
    v.push("OMR");
    v.push("PAB");
    v.push("PEN");
    v.push("PGK");
    v.push("PHP");
    v.push("PKR");
    v.push("PLN");
    v.push("PYG");
    v.push("QAR");
    v.push("RON");
    v.push("RSD");
    proof { reveal(iso_4217_6_spec); }
    assert(v@ =~= iso_4217_6_spec());
    v
}

/// ISO 4217 alpha-3 currency codes. (part 7)
#[verifier::opaque]
pub open spec fn iso_4217_7_spec() -> Seq<&'static str> {
    seq!["RUB", "RWF", "SAR", "SBD", "SCR", "SDG", "SEK", "SGD", "SHP", "SLE", "SLL", "SOS", "SRD", "SSP", "STN", "SVC", "SYP", "SZL", "THB", "TJS"]
}

fn iso_4217_7_list() -> (v: Vec<&'static str>)
    ensures
        v@ == iso_4217_7_spec(),
{
    let mut v: Vec<&'static str> = Vec::new();
    v.push("RUB");
    v.push("RWF");
    v.push("SAR");
    v.push("SBD");
    v.push("SCR");
    v.push("SDG");
    v.push("SEK");
    v.push("SGD");
    v.push("SHP");
    v.push("SLE");
    v.push("SLL");
    v.push("SOS");
    v.push("SRD");
    v.push("SSP");
    v.push("STN");
    v.push("SVC");
    v.push("SYP");
    v.push("SZL");
    v.push("THB");
    v.push("TJS");
    proof { reveal(iso_4217_7_spec); }
    assert(v@ =~= iso_4217_7_spec());
    v
}

/// ISO 4217 alpha-3 currency codes. (part 8)
#[verifier::opaque]
pub open spec fn iso_4217_8_spec() -> Seq<&'static str> {
    seq!["TMT", "TND", "TOP", "TRY", "TTD", "TWD", "TZS", "UAH", "UGX", "USD", "USN", "UYI", "UYU", "UYW", "UZS", "VED", "VES", "VND", "VUV", "WST"]
}

fn iso_4217_8_list() -> (v: Vec<&'static str>)
    ensures
        v@ == iso_4217_8_spec(),
{
    let mut v: Vec<&'static str> = Vec::new();
    v.push("TMT");
    v.push("TND");
    v.push("TOP");
    v.push("TRY");
    v.push("TTD");
    v.push("TWD");
    v.push("TZS");
    v.push("UAH");
    v.push("UGX");
    v.push("USD");
    v.push("USN");
    v.push("UYI");
    v.push("UYU");
    v.push("UYW");
    v.push("UZS");
    v.push("VED");
    v.push("VES");
    v.push("VND");
    v.push("VUV");
    v.push("WST");
    proof { reveal(iso_4217_8_spec); }
    assert(v@ =~= iso_4217_8_spec());
    v
}

/// ISO 4217 alpha-3 currency codes. (part 9)
#[verifier::opaque]
pub open spec fn iso_4217_9_spec() -> Seq<&'static str> {
    seq!["XAF", "XAG", "XAU", "XBA", "XBB", "XBC", "XBD", "XCD", "XDR", "XOF", "XPD", "XPF", "XPT", "XSU", "XTS", "XUA", "XXX", "YER", "ZAR", "ZMW"]
}

fn iso_4217_9_list() -> (v: Vec<&'static str>)
    ensures
        v@ == iso_4217_9_spec(),
{
    let mut v: Vec<&'static str> = Vec::new();
    v.push("XAF");
    v.push("XAG");
    v.push("XAU");
    v.push("XBA");
    v.push("XBB");
    v.push("XBC");
    v.push("XBD");
    v.push("XCD");
    v.push("XDR");
    v.push("XOF");
    v.push("XPD");
    v.push("XPF");
    v.push("XPT");
    v.push("XSU");
    v.push("XTS");
    v.push("XUA");
    v.push("XXX");
    v.push("YER");
    v.push("ZAR");
    v.push("ZMW");
    proof { reveal(iso_4217_9_spec); }
    assert(v@ =~= iso_4217_9_spec());
    v
}

/// ISO 4217 alpha-3 currency codes. (part 10)
#[verifier::opaque]
pub open spec fn iso_4217_10_spec() -> Seq<&'static str> {
    seq!["ZWL"]
}

fn iso_4217_10_list() -> (v: Vec<&'static str>)
    ensures
        v@ == iso_4217_10_spec(),
{
    let mut v: Vec<&'static str> = Vec::new();
    v.push("ZWL");
    proof { reveal(iso_4217_10_spec); }
    assert(v@ =~= iso_4217_10_spec());
    v
}

/// ISO 4217 alpha-3 currency codes.
pub open spec fn iso_4217_spec() -> Seq<&'static str> {
    iso_4217_1_spec() + iso_4217_2_spec() + iso_4217_3_spec() + iso_4217_4_spec() + iso_4217_5_spec() + iso_4217_6_spec() + iso_4217_7_spec() + iso_4217_8_spec() + iso_4217_9_spec() + iso_4217_10_spec()
}

fn iso_4217_list() -> (v: Vec<&'static str>)
    ensures
        v@ == iso_4217_spec(),
{
    let mut v = iso_4217_1_list();
    let mut w = iso_4217_2_list();
    v.append(&mut w);
    let mut w = iso_4217_3_list();
    v.append(&mut w);
    let mut w = iso_4217_4_list();
    v.append(&mut w);
    let mut w = iso_4217_5_list();
    v.append(&mut w);
    let mut w = iso_4217_6_list();
    v.append(&mut w);
    let mut w = iso_4217_7_list();
    v.append(&mut w);
    let mut w = iso_4217_8_list();
    v.append(&mut w);
    let mut w = iso_4217_9_list();
    v.append(&mut w);
    let mut w = iso_4217_10_list();
    v.append(&mut w);
    v
}

/// ISO 3166-1 alpha-2 country codes, with `1A` and `XI`. (part 1)
#[verifier::opaque]
pub open spec fn iso_3166_1_spec() -> Seq<&'static str> {
    seq!["AD", "AE", "AF", "AG", "AI", "AL", "AM", "AO", "AQ", "AR", "AS", "AT", "AU", "AW", "AX", "AZ", "BA", "BB", "BD", "BE"]
}

fn iso_3166_1_list() -> (v: Vec<&'static str>)
    ensures
        v@ == iso_3166_1_spec(),
{
    let mut v: Vec<&'static str> = Vec::new();
    v.push("AD");
    v.push("AE");
    v.push("AF");
    v.push("AG");
    v.push("AI");
    v.push("AL");
    v.push("AM");
    v.push("AO");
    v.push("AQ");
    v.push("AR");
    v.push("AS");
    v.push("AT");
    v.push("AU");
    v.push("AW");
    v.push("AX");
    v.push("AZ");
    v.push("BA");
    v.push("BB");
    v.push("BD");
    v.push("BE");
    proof { reveal(iso_3166_1_spec); }
    assert(v@ =~= iso_3166_1_spec());
    v
}

/// ISO 3166-1 alpha-2 country codes, with `1A` and `XI`. (part 2)
#[verifier::opaque]
pub open spec fn iso_3166_2_spec() -> Seq<&'static str> {
    seq!["BF", "BG", "BH", "BI", "BJ", "BL", "BM", "BN", "BO", "BQ", "BR", "BS", "BT", "BV", "BW", "BY", "BZ", "CA", "CC", "CD"]
}

fn iso_3166_2_list() -> (v: Vec<&'static str>)
    ensures
        v@ == iso_3166_2_spec(),
{
    let mut v: Vec<&'static str> = Vec::new();
    v.push("BF");
    v.push("BG");
    v.push("BH");
    v.push("BI");
    v.push("BJ");
    v.push("BL");
    v.push("BM");
    v.push("BN");
    v.push("BO");
    v.push("BQ");
    v.push("BR");
    v.push("BS");
    v.push("BT");
    v.push("BV");
    v.push("BW");
    v.push("BY");
    v.push("BZ");
    v.push("CA");
    v.push("CC");
    v.push("CD");
    proof { reveal(iso_3166_2_spec); }
    assert(v@ =~= iso_3166_2_spec());
    v
}

/// ISO 3166-1 alpha-2 country codes, with `1A` and `XI`. (part 3)
#[verifier::opaque]
pub open spec fn iso_3166_3_spec() -> Seq<&'static str> {
    seq!["CF", "CG", "CH", "CI", "CK", "CL", "CM", "CN", "CO", "CR", "CU", "CV", "CW", "CX", "CY", "CZ", "DE", "DJ", "DK", "DM"]
}

fn iso_3166_3_list() -> (v: Vec<&'static str>)
    ensures
        v@ == iso_3166_3_spec(),
{
    let mut v: Vec<&'static str> = Vec::new();
    v.push("CF");
    v.push("CG");
    v.push("CH");
    v.push("CI");
    v.push("CK");
    v.push("CL");
    v.push("CM");
    v.push("CN");
    v.push("CO");
    v.push("CR");
    v.push("CU");
    v.push("CV");
    v.push("CW");
    v.push("CX");
    v.push("CY");
    v.push("CZ");
    v.push("DE");
    v.push("DJ");
    v.push("DK");
    v.push("DM");
    proof { reveal(iso_3166_3_spec); }
    assert(v@ =~= iso_3166_3_spec());
    v
}

/// ISO 3166-1 alpha-2 country codes, with `1A` and `XI`. (part 4)
#[verifier::opaque]
pub open spec fn iso_3166_4_spec() -> Seq<&'static str> {
    seq!["DO", "DZ", "EC", "EE", "EG", "EH", "ER", "ES", "ET", "FI", "FJ", "FK", "FM", "FO", "FR", "GA", "GB", "GD", "GE", "GF"]
}

fn iso_3166_4_list() -> (v: Vec<&'static str>)
    ensures
        v@ == iso_3166_4_spec(),
{
    let mut v: Vec<&'static str> = Vec::new();
    v.push("DO");
    v.push("DZ");
    v.push("EC");
    v.push("EE");
    v.push("EG");
    v.push("EH");
    v.push("ER");
    v.push("ES");
    v.push("ET");
    v.push("FI");
    v.push("FJ");
    v.push("FK");
    v.push("FM");
    v.push("FO");
    v.push("FR");
    v.push("GA");
    v.push("GB");
    v.push("GD");
    v.push("GE");
    v.push("GF");
    proof { reveal(iso_3166_4_spec); }
    assert(v@ =~= iso_3166_4_spec());
    v
}

/// ISO 3166-1 alpha-2 country codes, with `1A` and `XI`. (part 5)
#[verifier::opaque]
pub open spec fn iso_3166_5_spec() -> Seq<&'static str> {
    seq!["GG", "GH", "GI", "GL", "GM", "GN", "GP", "GQ", "GR", "GS", "GT", "GU", "GW", "GY", "HK", "HM", "HN", "HR", "HT", "HU"]
}

fn iso_3166_5_list() -> (v: Vec<&'static str>)
    ensures
        v@ == iso_3166_5_spec(),
{
    let mut v: Vec<&'static str> = Vec::new();
    v.push("GG");
    v.push("GH");
    v.push("GI");
    v.push("GL");
    v.push("GM");
    v.push("GN");
    v.push("GP");
    v.push("GQ");
    v.push("GR");
    v.push("GS");
    v.push("GT");
    v.push("GU");
    v.push("GW");
    v.push("GY");
    v.push("HK");
    v.push("HM");
    v.push("HN");
    v.push("HR");
    v.push("HT");
    v.push("HU");
    proof { reveal(iso_3166_5_spec); }
    assert(v@ =~= iso_3166_5_spec());
    v
}

/// ISO 3166-1 alpha-2 country codes, with `1A` and `XI`. (part 6)
#[verifier::opaque]
pub open spec fn iso_3166_6_spec() -> Seq<&'static str> {
    seq!["ID", "IE", "IL", "IM", "IN", "IO", "IQ", "IR", "IS", "IT", "JE", "JM", "JO", "JP", "KE", "KG", "KH", "KI", "KM", "KN"]
}

fn iso_3166_6_list() -> (v: Vec<&'static str>)
    ensures
        v@ == iso_3166_6_spec(),
{
    let mut v: Vec<&'static str> = Vec::new();
    v.push("ID");
    v.push("IE");
    v.push("IL");
    v.push("IM");
    v.push("IN");
    v.push("IO");
    v.push("IQ");
    v.push("IR");
    v.push("IS");
    v.push("IT");
    v.push("JE");
    v.push("JM");
    v.push("JO");
    v.push("JP");
    v.push("KE");
    v.push("KG");
    v.push("KH");
    v.push("KI");
    v.push("KM");
    v.push("KN");
    proof { reveal(iso_3166_6_spec); }
    assert(v@ =~= iso_3166_6_spec());
    v
}

/// ISO 3166-1 alpha-2 country codes, with `1A` and `XI`. (part 7)
#[verifier::opaque]
pub open spec fn iso_3166_7_spec() -> Seq<&'static str> {
    seq!["KP", "KR", "KW", "KY", "KZ", "LA", "LB", "LC", "LI", "LK", "LR", "LS", "LT", "LU", "LV", "LY", "MA", "MC", "MD", "ME"]
}

fn iso_3166_7_list() -> (v: Vec<&'static str>)
    ensures
        v@ == iso_3166_7_spec(),
{
    let mut v: Vec<&'static str> = Vec::new();
    v.push("KP");
    v.push("KR");
    v.push("KW");
    v.push("KY");
    v.push("KZ");
    v.push("LA");
    v.push("LB");
    v.push("LC");
    v.push("LI");
    v.push("LK");
    v.push("LR");
    v.push("LS");
    v.push("LT");
    v.push("LU");
    v.push("LV");
    v.push("LY");
    v.push("MA");
    v.push("MC");
    v.push("MD");
    v.push("ME");
    proof { reveal(iso_3166_7_spec); }
    assert(v@ =~= iso_3166_7_spec());
    v
}

/// ISO 3166-1 alpha-2 country codes, with `1A` and `XI`. (part 8)
#[verifier::opaque]
pub open spec fn iso_3166_8_spec() -> Seq<&'static str> {
    seq!["MF", "MG", "MH", "MK", "ML", "MM", "MN", "MO", "MP", "MQ", "MR", "MS", "MT", "MU", "MV", "MW", "MX", "MY", "MZ", "NA"]
}

fn iso_3166_8_list() -> (v: Vec<&'static str>)
    ensures
        v@ == iso_3166_8_spec(),
{
    let mut v: Vec<&'static str> = Vec::new();
    v.push("MF");
    v.push("MG");
    v.push("MH");
    v.push("MK");
    v.push("ML");
    v.push("MM");
    v.push("MN");
    v.push("MO");
    v.push("MP");
    v.push("MQ");
    v.push("MR");
    v.push("MS");
    v.push("MT");
    v.push("MU");
    v.push("MV");
    v.push("MW");
    v.push("MX");
    v.push("MY");
    v.push("MZ");
    v.push("NA");
    proof { reveal(iso_3166_8_spec); }
    assert(v@ =~= iso_3166_8_spec());
    v
}

/// ISO 3166-1 alpha-2 country codes, with `1A` and `XI`. (part 9)
#[verifier::opaque]
pub open spec fn iso_3166_9_spec() -> Seq<&'static str> {
    seq!["NC", "NE", "NF", "NG", "NI", "NL", "NO", "NP", "NR", "NU", "NZ", "OM", "PA", "PE", "PF", "PG", "PH", "PK", "PL", "PM"]
}

fn iso_3166_9_list() -> (v: Vec<&'static str>)
    ensures
        v@ == iso_3166_9_spec(),
{
    let mut v: Vec<&'static str> = Vec::new();
    v.push("NC");
    v.push("NE");
    v.push("NF");
    v.push("NG");
    v.push("NI");
    v.push("NL");
    v.push("NO");
    v.push("NP");
    v.push("NR");
    v.push("NU");
    v.push("NZ");
    v.push("OM");
    v.push("PA");
    v.push("PE");
    v.push("PF");
    v.push("PG");
    v.push("PH");
    v.push("PK");
    v.push("PL");
    v.push("PM");
    proof { reveal(iso_3166_9_spec); }
    assert(v@ =~= iso_3166_9_spec());
    v
}

/// ISO 3166-1 alpha-2 country codes, with `1A` and `XI`. (part 10)
#[verifier::opaque]
pub open spec fn iso_3166_10_spec() -> Seq<&'static str> {
    seq!["PN", "PR", "PS", "PT", "PW", "PY", "QA", "RE", "RO", "RS", "RU", "RW", "SA", "SB", "SC", "SD", "SE", "SG", "SH", "SI"]
}

fn iso_3166_10_list() -> (v: Vec<&'static str>)
    ensures
        v@ == iso_3166_10_spec(),
{
    let mut v: Vec<&'static str> = Vec::new();
    v.push("PN");
    v.push("PR");
    v.push("PS");
    v.push("PT");
    v.push("PW");
    v.push("PY");
    v.push("QA");
    v.push("RE");
    v.push("RO");
    v.push("RS");
    v.push("RU");
    v.push("RW");
    v.push("SA");
    v.push("SB");
    v.push("SC");
    v.push("SD");
    v.push("SE");
    v.push("SG");
    v.push("SH");
    v.push("SI");
    proof { reveal(iso_3166_10_spec); }
    assert(v@ =~= iso_3166_10_spec());
    v
}

/// ISO 3166-1 alpha-2 country codes, with `1A` and `XI`. (part 11)
#[verifier::opaque]
pub open spec fn iso_3166_11_spec() -> Seq<&'static str> {
    seq!["SJ", "SK", "SL", "SM", "SN", "SO", "SR", "SS", "ST", "SV", "SX", "SY", "SZ", "TC", "TD", "TF", "TG", "TH", "TJ", "TK"]
}

fn iso_3166_11_list() -> (v: Vec<&'static str>)
    ensures
        v@ == iso_3166_11_spec(),
{
    let mut v: Vec<&'static str> = Vec::new();
    v.push("SJ");
    v.push("SK");
    v.push("SL");
    v.push("SM");
    v.push("SN");
    v.push("SO");
    v.push("SR");
    v.push("SS");
    v.push("ST");
    v.push("SV");
    v.push("SX");
    v.push("SY");
    v.push("SZ");
    v.push("TC");
    v.push("TD");
    v.push("TF");
    v.push("TG");
    v.push("TH");
    v.push("TJ");
    v.push("TK");
    proof { reveal(iso_3166_11_spec); }
    assert(v@ =~= iso_3166_11_spec());
    v
}

/// ISO 3166-1 alpha-2 country codes, with `1A` and `XI`. (part 12)
#[verifier::opaque]
pub open spec fn iso_3166_12_spec() -> Seq<&'static str> {
    seq!["TL", "TM", "TN", "TO", "TR", "TT", "TV", "TW", "TZ", "UA", "UG", "UM", "US", "UY", "UZ", "VA", "VC", "VE", "VG", "VI"]
}

fn iso_3166_12_list() -> (v: Vec<&'static str>)
    ensures
        v@ == iso_3166_12_spec(),
{
    let mut v: Vec<&'static str> = Vec::new();
    v.push("TL");
    v.push("TM");
    v.push("TN");
    v.push("TO");
    v.push("TR");
    v.push("TT");
    v.push("TV");
    v.push("TW");
    v.push("TZ");
    v.push("UA");
    v.push("UG");
    v.push("UM");
    v.push("US");
    v.push("UY");
    v.push("UZ");
    v.push("VA");
    v.push("VC");
    v.push("VE");
    v.push("VG");
    v.push("VI");
    proof { reveal(iso_3166_12_spec); }
    assert(v@ =~= iso_3166_12_spec());
    v
}

/// ISO 3166-1 alpha-2 country codes, with `1A` and `XI`. (part 13)
#[verifier::opaque]
pub open spec fn iso_3166_13_spec() -> Seq<&'static str> {
    seq!["VN", "VU", "WF", "WS", "YE", "YT", "ZA", "ZM", "ZW", "1A", "XI"]
}

fn iso_3166_13_list() -> (v: Vec<&'static str>)
    ensures
        v@ == iso_3166_13_spec(),
{
    let mut v: Vec<&'static str> = Vec::new();
    v.push("VN");
    v.push("VU");
    v.push("WF");
    v.push("WS");
    v.push("YE");
    v.push("YT");
    v.push("ZA");
    v.push("ZM");
    v.push("ZW");
    v.push("1A");
    v.push("XI");
    proof { reveal(iso_3166_13_spec); }
    assert(v@ =~= iso_3166_13_spec());
    v
}

/// ISO 3166-1 alpha-2 country codes, with `1A` and `XI`.
pub open spec fn iso_3166_spec() -> Seq<&'static str> {
    iso_3166_1_spec() + iso_3166_2_spec() + iso_3166_3_spec() + iso_3166_4_spec() + iso_3166_5_spec() + iso_3166_6_spec() + iso_3166_7_spec() + iso_3166_8_spec() + iso_3166_9_spec() + iso_3166_10_spec() + iso_3166_11_spec() + iso_3166_12_spec() + iso_3166_13_spec()
}

fn iso_3166_list() -> (v: Vec<&'static str>)
    ensures
        v@ == iso_3166_spec(),
{
    let mut v = iso_3166_1_list();
    let mut w = iso_3166_2_list();
    v.append(&mut w);
    let mut w = iso_3166_3_list();
    v.append(&mut w);
    let mut w = iso_3166_4_list();
    v.append(&mut w);
    let mut w = iso_3166_5_list();
    v.append(&mut w);
    let mut w = iso_3166_6_list();
    v.append(&mut w);
    let mut w = iso_3166_7_list();
    v.append(&mut w);
    let mut w = iso_3166_8_list();
    v.append(&mut w);
    let mut w = iso_3166_9_list();
    v.append(&mut w);
    let mut w = iso_3166_10_list();
    v.append(&mut w);
    let mut w = iso_3166_11_list();
    v.append(&mut w);
    let mut w = iso_3166_12_list();
    v.append(&mut w);
    let mut w = iso_3166_13_list();
    v.append(&mut w);
    v
}

/// UNCL 5305 tax category codes used by EN 16931.
#[verifier::opaque]
pub open spec fn uncl_5305_spec() -> Seq<&'static str> {
    seq!["AE", "E", "S", "Z", "G", "O", "K", "L", "M", "B"]
}

fn uncl_5305_list() -> (v: Vec<&'static str>)
    ensures
        v@ == uncl_5305_spec(),
{
    let mut v: Vec<&'static str> = Vec::new();
    v.push("AE");
    v.push("E");
    v.push("S");
    v.push("Z");
    v.push("G");
    v.push("O");
    v.push("K");
    v.push("L");
    v.push("M");
    v.push("B");
    proof { reveal(uncl_5305_spec); }
    assert(v@ =~= uncl_5305_spec());
    v
}

/// UNCL 1001 invoice type codes. (part 1)
#[verifier::opaque]
pub open spec fn uncl_1001_invoice_1_spec() -> Seq<&'static str> {
    seq!["71", "80", "82", "84", "102", "218", "219", "326", "380", "383", "384", "385", "386", "387", "388", "389", "390", "393", "394", "395"]
}

fn uncl_1001_invoice_1_list() -> (v: Vec<&'static str>)
    ensures
        v@ == uncl_1001_invoice_1_spec(),
{
    let mut v: Vec<&'static str> = Vec::new();
    v.push("71");
    v.push("80");
    v.push("82");
    v.push("84");
    v.push("102");
    v.push("218");
    v.push("219");
    v.push("326");
    v.push("380");
    v.push("383");
    v.push("384");
    v.push("385");
    v.push("386");
    v.push("387");
    v.push("388");
    v.push("389");
    v.push("390");
    v.push("393");
    v.push("394");
    v.push("395");
    proof { reveal(uncl_1001_invoice_1_spec); }
    assert(v@ =~= uncl_1001_invoice_1_spec());
    v
}

/// UNCL 1001 invoice type codes. (part 2)
#[verifier::opaque]
pub open spec fn uncl_1001_invoice_2_spec() -> Seq<&'static str> {
    seq!["456", "457", "527", "575", "623", "633", "751", "780", "935"]
}

fn uncl_1001_invoice_2_list() -> (v: Vec<&'static str>)
    ensures
        v@ == uncl_1001_invoice_2_spec(),
{
    let mut v: Vec<&'static str> = Vec::new();
    v.push("456");
    v.push("457");
    v.push("527");
    v.push("575");
    v.push("623");
    v.push("633");
    v.push("751");
    v.push("780");
    v.push("935");
    proof { reveal(uncl_1001_invoice_2_spec); }
    assert(v@ =~= uncl_1001_invoice_2_spec());
    v
}

/// UNCL 1001 invoice type codes.
pub open spec fn uncl_1001_invoice_spec() -> Seq<&'static str> {
    uncl_1001_invoice_1_spec() + uncl_1001_invoice_2_spec()
}

fn uncl_1001_invoice_list() -> (v: Vec<&'static str>)
    ensures
        v@ == uncl_1001_invoice_spec(),
{
    let mut v = uncl_1001_invoice_1_list();
    let mut w = uncl_1001_invoice_2_list();
    v.append(&mut w);
    v
}

/// UNCL 1001 credit note type codes.
#[verifier::opaque]
pub open spec fn uncl_1001_credit_note_spec() -> Seq<&'static str> {
    seq!["81", "83", "261", "262", "296", "308", "381", "396", "420", "458", "532"]
}

fn uncl_1001_credit_note_list() -> (v: Vec<&'static str>)
    ensures
        v@ == uncl_1001_credit_note_spec(),
{
    let mut v: Vec<&'static str> = Vec::new();
    v.push("81");
    v.push("83");
    v.push("261");
    v.push("262");
    v.push("296");
    v.push("308");
    v.push("381");
    v.push("396");
    v.push("420");
    v.push("458");
    v.push("532");
    proof { reveal(uncl_1001_credit_note_spec); }
    assert(v@ =~= uncl_1001_credit_note_spec());
    v
}

/// Electronic address schemes (EAS). (part 1)
#[verifier::opaque]
pub open spec fn eas_1_spec() -> Seq<&'static str> {
    seq!["0002", "0007", "0009", "0037", "0060", "0088", "0096", "0097", "0106", "0130", "0135", "0142", "0147", "0151", "0154", "0158", "0170", "0183", "0184", "0188"]
}

fn eas_1_list() -> (v: Vec<&'static str>)
    ensures
        v@ == eas_1_spec(),
{
    let mut v: Vec<&'static str> = Vec::new();
    v.push("0002");
    v.push("0007");
    v.push("0009");
    v.push("0037");
    v.push("0060");
    v.push("0088");
    v.push("0096");
    v.push("0097");
    v.push("0106");
    v.push("0130");
    v.push("0135");
    v.push("0142");
    v.push("0147");
    v.push("0151");
    v.push("0154");
    v.push("0158");
    v.push("0170");
    v.push("0183");
    v.push("0184");
    v.push("0188");
    proof { reveal(eas_1_spec); }
    assert(v@ =~= eas_1_spec());
    v
}

/// Electronic address schemes (EAS). (part 2)
#[verifier::opaque]
pub open spec fn eas_2_spec() -> Seq<&'static str> {
    seq!["0190", "0191", "0192", "0193", "0194", "0195", "0196", "0198", "0199", "0200", "0201", "0202", "0203", "0204", "0205", "0208", "0209", "0210", "0211", "0212"]
}

fn eas_2_list() -> (v: Vec<&'static str>)
    ensures
        v@ == eas_2_spec(),
{
    let mut v: Vec<&'static str> = Vec::new();
    v.push("0190");
    v.push("0191");
    v.push("0192");
    v.push("0193");
    v.push("0194");
    v.push("0195");
    v.push("0196");
    v.push("0198");
    v.push("0199");
    v.push("0200");
    v.push("0201");
    v.push("0202");
    v.push("0203");
    v.push("0204");
    v.push("0205");
    v.push("0208");
    v.push("0209");
    v.push("0210");
    v.push("0211");
    v.push("0212");
    proof { reveal(eas_2_spec); }
    assert(v@ =~= eas_2_spec());
    v
}

/// Electronic address schemes (EAS). (part 3)
#[verifier::opaque]
pub open spec fn eas_3_spec() -> Seq<&'static str> {
    seq!["0213", "0215", "0216", "0217", "0218", "0219", "0220", "0221", "0225", "0230", "0235", "0240", "9901", "9910", "9913", "9914", "9915", "9918", "9919", "9920"]
}

fn eas_3_list() -> (v: Vec<&'static str>)
    ensures
        v@ == eas_3_spec(),
{
    let mut v: Vec<&'static str> = Vec::new();
    v.push("0213");
    v.push("0215");
    v.push("0216");
    v.push("0217");
    v.push("0218");
    v.push("0219");
    v.push("0220");
    v.push("0221");
    v.push("0225");
    v.push("0230");
    v.push("0235");
    v.push("0240");
    v.push("9901");
    v.push("9910");
    v.push("9913");
    v.push("9914");
    v.push("9915");
    v.push("9918");
    v.push("9919");
    v.push("9920");
    proof { reveal(eas_3_spec); }
    assert(v@ =~= eas_3_spec());
    v
}

/// Electronic address schemes (EAS). (part 4)
#[verifier::opaque]
pub open spec fn eas_4_spec() -> Seq<&'static str> {
    seq!["9922", "9923", "9924", "9925", "9926", "9927", "9928", "9929", "9930", "9931", "9932", "9933", "9934", "9935", "9936", "9937", "9938", "9939", "9940", "9941"]
}

fn eas_4_list() -> (v: Vec<&'static str>)
    ensures
        v@ == eas_4_spec(),
{
    let mut v: Vec<&'static str> = Vec::new();
    v.push("9922");
    v.push("9923");
    v.push("9924");
    v.push("9925");
    v.push("9926");
    v.push("9927");
    v.push("9928");
    v.push("9929");
    v.push("9930");
    v.push("9931");
    v.push("9932");
    v.push("9933");
    v.push("9934");
    v.push("9935");
    v.push("9936");
    v.push("9937");
    v.push("9938");
    v.push("9939");
    v.push("9940");
    v.push("9941");
    proof { reveal(eas_4_spec); }
    assert(v@ =~= eas_4_spec());
    v
}

/// Electronic address schemes (EAS). (part 5)
#[verifier::opaque]
pub open spec fn eas_5_spec() -> Seq<&'static str> {
    seq!["9942", "9943", "9944", "9945", "9946", "9947", "9948", "9949", "9950", "9951", "9952", "9953", "9957", "9959", "AN", "AQ", "AS", "AU", "EM"]
}

fn eas_5_list() -> (v: Vec<&'static str>)
    ensures
        v@ == eas_5_spec(),
{
    let mut v: Vec<&'static str> = Vec::new();
    v.push("9942");
    v.push("9943");
    v.push("9944");
    v.push("9945");
    v.push("9946");
    v.push("9947");
    v.push("9948");
    v.push("9949");
    v.push("9950");
    v.push("9951");
    v.push("9952");
    v.push("9953");
    v.push("9957");
    v.push("9959");
    v.push("AN");
    v.push("AQ");
    v.push("AS");
    v.push("AU");
    v.push("EM");
    proof { reveal(eas_5_spec); }
    assert(v@ =~= eas_5_spec());
    v
}

/// Electronic address schemes (EAS).
pub open spec fn eas_spec() -> Seq<&'static str> {
    eas_1_spec() + eas_2_spec() + eas_3_spec() + eas_4_spec() + eas_5_spec()
}

fn eas_list() -> (v: Vec<&'static str>)
    ensures
        v@ == eas_spec(),
{
    let mut v = eas_1_list();
    let mut w = eas_2_list();
    v.append(&mut w);
    let mut w = eas_3_list();
    v.append(&mut w);
    let mut w = eas_4_list();
    v.append(&mut w);
    let mut w = eas_5_list();
    v.append(&mut w);
    v
}

/// VAT exemption reason codes (VATEX). (part 1)
#[verifier::opaque]
pub open spec fn vatex_1_spec() -> Seq<&'static str> {
    seq!["VATEX-EU-79-C", "VATEX-EU-132", "VATEX-EU-132-1A", "VATEX-EU-132-1B", "VATEX-EU-132-1C", "VATEX-EU-132-1D", "VATEX-EU-132-1E", "VATEX-EU-132-1F", "VATEX-EU-132-1G", "VATEX-EU-132-1H", "VATEX-EU-132-1I", "VATEX-EU-132-1J", "VATEX-EU-132-1K", "VATEX-EU-132-1L", "VATEX-EU-132-1M", "VATEX-EU-132-1N", "VATEX-EU-132-1O", "VATEX-EU-132-1P", "VATEX-EU-132-1Q", "VATEX-EU-143"]
}

fn vatex_1_list() -> (v: Vec<&'static str>)
    ensures
        v@ == vatex_1_spec(),
{
    let mut v: Vec<&'static str> = Vec::new();
    v.push("VATEX-EU-79-C");
    v.push("VATEX-EU-132");
    v.push("VATEX-EU-132-1A");
    v.push("VATEX-EU-132-1B");
    v.push("VATEX-EU-132-1C");
    v.push("VATEX-EU-132-1D");
    v.push("VATEX-EU-132-1E");
    v.push("VATEX-EU-132-1F");
    v.push("VATEX-EU-132-1G");
    v.push("VATEX-EU-132-1H");
    v.push("VATEX-EU-132-1I");
    v.push("VATEX-EU-132-1J");
    v.push("VATEX-EU-132-1K");
    v.push("VATEX-EU-132-1L");
    v.push("VATEX-EU-132-1M");
    v.push("VATEX-EU-132-1N");
    v.push("VATEX-EU-132-1O");
    v.push("VATEX-EU-132-1P");
    v.push("VATEX-EU-132-1Q");
    v.push("VATEX-EU-143");
    proof { reveal(vatex_1_spec); }
    assert(v@ =~= vatex_1_spec());
    v
}

/// VAT exemption reason codes (VATEX). (part 2)
#[verifier::opaque]
pub open spec fn vatex_2_spec() -> Seq<&'static str> {
    seq!["VATEX-EU-143-1A", "VATEX-EU-143-1B", "VATEX-EU-143-1C", "VATEX-EU-143-1D", "VATEX-EU-143-1E", "VATEX-EU-143-1F", "VATEX-EU-143-1FA", "VATEX-EU-143-1G", "VATEX-EU-143-1H", "VATEX-EU-143-1I", "VATEX-EU-143-1J", "VATEX-EU-143-1K", "VATEX-EU-143-1L", "VATEX-EU-148", "VATEX-EU-148-A", "VATEX-EU-148-B", "VATEX-EU-148-C", "VATEX-EU-148-D", "VATEX-EU-148-E", "VATEX-EU-148-F"]
}

fn vatex_2_list() -> (v: Vec<&'static str>)
    ensures
        v@ == vatex_2_spec(),
{
    let mut v: Vec<&'static str> = Vec::new();
    v.push("VATEX-EU-143-1A");
    v.push("VATEX-EU-143-1B");
    v.push("VATEX-EU-143-1C");
    v.push("VATEX-EU-143-1D");
    v.push("VATEX-EU-143-1E");
    v.push("VATEX-EU-143-1F");
    v.push("VATEX-EU-143-1FA");
    v.push("VATEX-EU-143-1G");
    v.push("VATEX-EU-143-1H");
    v.push("VATEX-EU-143-1I");
    v.push("VATEX-EU-143-1J");
    v.push("VATEX-EU-143-1K");
    v.push("VATEX-EU-143-1L");
    v.push("VATEX-EU-148");
    v.push("VATEX-EU-148-A");
    v.push("VATEX-EU-148-B");
    v.push("VATEX-EU-148-C");
    v.push("VATEX-EU-148-D");
    v.push("VATEX-EU-148-E");
    v.push("VATEX-EU-148-F");
    proof { reveal(vatex_2_spec); }
    assert(v@ =~= vatex_2_spec());
    v
}

/// VAT exemption reason codes (VATEX). (part 3)
#[verifier::opaque]
pub open spec fn vatex_3_spec() -> Seq<&'static str> {
    seq!["VATEX-EU-148-G", "VATEX-EU-151", "VATEX-EU-151-1A", "VATEX-EU-151-1AA", "VATEX-EU-151-1B", "VATEX-EU-151-1C", "VATEX-EU-151-1D", "VATEX-EU-151-1E", "VATEX-EU-309", "VATEX-EU-AE", "VATEX-EU-D", "VATEX-EU-F", "VATEX-EU-G", "VATEX-EU-I", "VATEX-EU-IC", "VATEX-EU-O", "VATEX-EU-J", "VATEX-FR-FRANCHISE", "VATEX-FR-CNWVAT"]
}

fn vatex_3_list() -> (v: Vec<&'static str>)
    ensures
        v@ == vatex_3_spec(),
{
    let mut v: Vec<&'static str> = Vec::new();
    v.push("VATEX-EU-148-G");
    v.push("VATEX-EU-151");
    v.push("VATEX-EU-151-1A");
    v.push("VATEX-EU-151-1AA");
    v.push("VATEX-EU-151-1B");
    v.push("VATEX-EU-151-1C");
    v.push("VATEX-EU-151-1D");
    v.push("VATEX-EU-151-1E");
    v.push("VATEX-EU-309");
    v.push("VATEX-EU-AE");
    v.push("VATEX-EU-D");
    v.push("VATEX-EU-F");
    v.push("VATEX-EU-G");
    v.push("VATEX-EU-I");
    v.push("VATEX-EU-IC");
    v.push("VATEX-EU-O");
    v.push("VATEX-EU-J");
    v.push("VATEX-FR-FRANCHISE");
    v.push("VATEX-FR-CNWVAT");
    proof { reveal(vatex_3_spec); }
    assert(v@ =~= vatex_3_spec());
    v
}

/// VAT exemption reason codes (VATEX).
pub open spec fn vatex_spec() -> Seq<&'static str> {
    vatex_1_spec() + vatex_2_spec() + vatex_3_spec()
}

fn vatex_list() -> (v: Vec<&'static str>)
    ensures
        v@ == vatex_spec(),
{
    let mut v = vatex_1_list();
    let mut w = vatex_2_list();
    v.append(&mut w);
    let mut w = vatex_3_list();
    v.append(&mut w);
    v
}

/// Unit of measure codes (UN/ECE Recommendations 20 and 21, common subset). (part 1)
#[verifier::opaque]
pub open spec fn rec20_1_spec() -> Seq<&'static str> {
    seq!["C62", "EA", "H87", "KGM", "GRM", "MGM", "TNE", "LTR", "MLT", "CLT", "MTQ", "MTK", "MTR", "CMT", "MMT", "KMT", "INH", "FOT", "YRD", "MIL"]
}

fn rec20_1_list() -> (v: Vec<&'static str>)
    ensures
        v@ == rec20_1_spec(),
{
    let mut v: Vec<&'static str> = Vec::new();
    v.push("C62");
    v.push("EA");
    v.push("H87");
    v.push("KGM");
    v.push("GRM");
    v.push("MGM");
    v.push("TNE");
    v.push("LTR");
    v.push("MLT");
    v.push("CLT");
    v.push("MTQ");
    v.push("MTK");
    v.push("MTR");
    v.push("CMT");
    v.push("MMT");
    v.push("KMT");
    v.push("INH");
    v.push("FOT");
    v.push("YRD");
    v.push("MIL");
    proof { reveal(rec20_1_spec); }
    assert(v@ =~= rec20_1_spec());
    v
}

/// Unit of measure codes (UN/ECE Recommendations 20 and 21, common subset). (part 2)
#[verifier::opaque]
pub open spec fn rec20_2_spec() -> Seq<&'static str> {
    seq!["HUR", "MIN", "SEC", "DAY", "WEE", "MON", "ANN", "KWH", "KWT", "MWH", "WTT", "WHR", "SET", "PR", "DZN", "NAR", "NPR", "LS", "ZZ", "XPK"]
}

fn rec20_2_list() -> (v: Vec<&'static str>)
    ensures
        v@ == rec20_2_spec(),
{
    let mut v: Vec<&'static str> = Vec::new();
    v.push("HUR");
    v.push("MIN");
    v.push("SEC");
    v.push("DAY");
    v.push("WEE");
    v.push("MON");
    v.push("ANN");
    v.push("KWH");
    v.push("KWT");
    v.push("MWH");
    v.push("WTT");
    v.push("WHR");
    v.push("SET");
    v.push("PR");
    v.push("DZN");
    v.push("NAR");
    v.push("NPR");
    v.push("LS");
    v.push("ZZ");
    v.push("XPK");
    proof { reveal(rec20_2_spec); }
    assert(v@ =~= rec20_2_spec());
    v
}

/// Unit of measure codes (UN/ECE Recommendations 20 and 21, common subset). (part 3)
#[verifier::opaque]
pub open spec fn rec20_3_spec() -> Seq<&'static str> {
    seq!["XBX", "XCT", "XPL", "XBG", "XRO", "XTU", "XCR", "XBA", "XEA", "XPP", "XPX", "XSA", "XSH", "XZZ", "58", "KTM", "P1", "E48", "XPA"]
}

fn rec20_3_list() -> (v: Vec<&'static str>)
    ensures
        v@ == rec20_3_spec(),
{
    let mut v: Vec<&'static str> = Vec::new();
    v.push("XBX");
    v.push("XCT");
    v.push("XPL");
    v.push("XBG");
    v.push("XRO");
    v.push("XTU");
    v.push("XCR");
    v.push("XBA");
    v.push("XEA");
    v.push("XPP");
    v.push("XPX");
    v.push("XSA");
    v.push("XSH");
    v.push("XZZ");
    v.push("58");
    v.push("KTM");
    v.push("P1");
    v.push("E48");
    v.push("XPA");
    proof { reveal(rec20_3_spec); }
    assert(v@ =~= rec20_3_spec());
    v
}

/// Unit of measure codes (UN/ECE Recommendations 20 and 21, common subset).
pub open spec fn rec20_spec() -> Seq<&'static str> {
    rec20_1_spec() + rec20_2_spec() + rec20_3_spec()
}

fn rec20_list() -> (v: Vec<&'static str>)
    ensures
        v@ == rec20_spec(),
{
    let mut v = rec20_1_list();
    let mut w = rec20_2_list();
    v.append(&mut w);
    let mut w = rec20_3_list();
    v.append(&mut w);
    v
}

/// MIME codes of attached documents.
#[verifier::opaque]
pub open spec fn mime_spec() -> Seq<&'static str> {
    seq!["application/pdf", "image/png", "image/jpeg", "text/csv", "application/vnd.openxmlformats-officedocument.spreadsheetml.sheet", "application/vnd.oasis.opendocument.spreadsheet"]
}

fn mime_list() -> (v: Vec<&'static str>)
    ensures
        v@ == mime_spec(),
{
    let mut v: Vec<&'static str> = Vec::new();
    v.push("application/pdf");
    v.push("image/png");
    v.push("image/jpeg");
    v.push("text/csv");
    v.push("application/vnd.openxmlformats-officedocument.spreadsheetml.sheet");
    v.push("application/vnd.oasis.opendocument.spreadsheet");
    proof { reveal(mime_spec); }
    assert(v@ =~= mime_spec());
    v
}

/// ISO 6523 identifier scheme codes (ICD). (part 1)
#[verifier::opaque]
pub open spec fn icd_1_spec() -> Seq<&'static str> {
    seq!["0002", "0007", "0009", "0037", "0060", "0088", "0096", "0097", "0106", "0130", "0135", "0142", "0147", "0151", "0154", "0158", "0170", "0183", "0184", "0188"]
}

fn icd_1_list() -> (v: Vec<&'static str>)
    ensures
        v@ == icd_1_spec(),
{
    let mut v: Vec<&'static str> = Vec::new();
    v.push("0002");
    v.push("0007");
    v.push("0009");
    v.push("0037");
    v.push("0060");
    v.push("0088");
    v.push("0096");
    v.push("0097");
    v.push("0106");
    v.push("0130");
    v.push("0135");
    v.push("0142");
    v.push("0147");
    v.push("0151");
    v.push("0154");
    v.push("0158");
    v.push("0170");
    v.push("0183");
    v.push("0184");
    v.push("0188");
    proof { reveal(icd_1_spec); }
    assert(v@ =~= icd_1_spec());
    v
}

/// ISO 6523 identifier scheme codes (ICD). (part 2)
#[verifier::opaque]
pub open spec fn icd_2_spec() -> Seq<&'static str> {
    seq!["0190", "0191", "0192", "0193", "0194", "0195", "0196", "0198", "0199", "0200", "0201", "0202", "0203", "0204", "0205", "0208", "0209", "0210", "0211", "0212"]
}

fn icd_2_list() -> (v: Vec<&'static str>)
    ensures
        v@ == icd_2_spec(),
{
    let mut v: Vec<&'static str> = Vec::new();
    v.push("0190");
    v.push("0191");
    v.push("0192");
    v.push("0193");
    v.push("0194");
    v.push("0195");
    v.push("0196");
    v.push("0198");
    v.push("0199");
    v.push("0200");
    v.push("0201");
    v.push("0202");
    v.push("0203");
    v.push("0204");
    v.push("0205");
    v.push("0208");
    v.push("0209");
    v.push("0210");
    v.push("0211");
    v.push("0212");
    proof { reveal(icd_2_spec); }
    assert(v@ =~= icd_2_spec());
    v
}

/// ISO 6523 identifier scheme codes (ICD). (part 3)
#[verifier::opaque]
pub open spec fn icd_3_spec() -> Seq<&'static str> {
    seq!["0213", "0215", "0216", "0217", "0218", "0219", "0220", "0221", "0225", "0230", "0235", "0240"]
}

fn icd_3_list() -> (v: Vec<&'static str>)
    ensures
        v@ == icd_3_spec(),
{
    let mut v: Vec<&'static str> = Vec::new();
    v.push("0213");
    v.push("0215");
    v.push("0216");
    v.push("0217");
    v.push("0218");
    v.push("0219");
    v.push("0220");
    v.push("0221");
    v.push("0225");
    v.push("0230");
    v.push("0235");
    v.push("0240");
    proof { reveal(icd_3_spec); }
    assert(v@ =~= icd_3_spec());
    v
}

/// ISO 6523 identifier scheme codes (ICD).
pub open spec fn icd_spec() -> Seq<&'static str> {
    icd_1_spec() + icd_2_spec() + icd_3_spec()
}

fn icd_list() -> (v: Vec<&'static str>)
    ensures
        v@ == icd_spec(),
{
    let mut v = icd_1_list();
    let mut w = icd_2_list();
    v.append(&mut w);
    let mut w = icd_3_list();
    v.append(&mut w);
    v
}

/// PINT-MY tax category codes.
#[verifier::opaque]
pub open spec fn pint_my_taxcat_spec() -> Seq<&'static str> {
    seq!["SA", "SE", "HVG", "LVG", "TTX", "E", "O"]
}

fn pint_my_taxcat_list() -> (v: Vec<&'static str>)
    ensures
        v@ == pint_my_taxcat_spec(),
{
    let mut v: Vec<&'static str> = Vec::new();
    v.push("SA");
    v.push("SE");
    v.push("HVG");
    v.push("LVG");
    v.push("TTX");
    v.push("E");
    v.push("O");
    proof { reveal(pint_my_taxcat_spec); }
    assert(v@ =~= pint_my_taxcat_spec());
    v
}

/// ISO 4217 currency code (ASCII case ignored).
pub fn currency(code: &str) -> (r: bool)
    ensures
        r == listed_ic(iso_4217_spec(), code@),
{
    let l = iso_4217_list();
    in_list(&l, code, true)
}

/// ISO 3166 country code (ASCII case ignored).
pub fn country(code: &str) -> (r: bool)
    ensures
        r == listed_ic(iso_3166_spec(), code@),
{
    let l = iso_3166_list();
    in_list(&l, code, true)
}

/// UNCL 5305 tax category code (ASCII case ignored).
pub fn uncl_5305(code: &str) -> (r: bool)
    ensures
        r == listed_ic(uncl_5305_spec(), code@),
{
    let l = uncl_5305_list();
    in_list(&l, code, true)
}

/// Invoice type code (exact).
pub fn invoice_type(code: &str) -> (r: bool)
    ensures
        r == listed_exact(uncl_1001_invoice_spec(), code@),
{
    let l = uncl_1001_invoice_list();
    in_list(&l, code, false)
}

/// Credit note type code (exact).
pub fn credit_note_type(code: &str) -> (r: bool)
    ensures
        r == listed_exact(uncl_1001_credit_note_spec(), code@),
{
    let l = uncl_1001_credit_note_list();
    in_list(&l, code, false)
}

/// Electronic address scheme (exact).
pub fn eas(code: &str) -> (r: bool)
    ensures
        r == listed_exact(eas_spec(), code@),
{
    let l = eas_list();
    in_list(&l, code, false)
}

/// VAT exemption reason code (ASCII case ignored).
pub fn vatex(code: &str) -> (r: bool)
    ensures
        r == listed_ic(vatex_spec(), code@),
{
    let l = vatex_list();
    in_list(&l, code, true)
}

/// Unit of measure code (exact).
pub fn unit(code: &str) -> (r: bool)
    ensures
        r == listed_exact(rec20_spec(), code@),
{
    let l = rec20_list();
    in_list(&l, code, false)
}

/// MIME code (exact).
pub fn mime(code: &str) -> (r: bool)
    ensures
        r == listed_exact(mime_spec(), code@),
{
    let l = mime_list();
    in_list(&l, code, false)
}

/// ISO 6523 scheme code (exact).
pub fn icd(code: &str) -> (r: bool)
    ensures
        r == listed_exact(icd_spec(), code@),
{
    let l = icd_list();
    in_list(&l, code, false)
}

/// PINT-MY tax category code (ASCII case ignored).
pub fn pint_my_taxcat(code: &str) -> (r: bool)
    ensures
        r == listed_ic(pint_my_taxcat_spec(), code@),
{
    let l = pint_my_taxcat_list();
    in_list(&l, code, true)
}

/// Withdrawn codes: EAS `9958` (use `0204`), and on PINT-MY the tax category
/// `T` (use SA/SE/HVG/LVG).
pub fn eas_guard(code: &str, profile: Profile) -> (r: Result<(), String>)
    ensures
        code@ == "9958"@ ==> (r matches Err(m) && m@ == "EAS 9958 is withdrawn; use 0204"@),
        code@ != "9958"@ && code@ == "T"@ && profile == Profile::PintMy ==> (r matches Err(m)
            && m@ == "PINT-MY tax category T is withdrawn; use SA/SE/HVG/LVG"@),
        code@ != "9958"@ && !(code@ == "T"@ && profile == Profile::PintMy) ==> r is Ok,
{
    if str_eq(code, "9958") {
        Err(owned("EAS 9958 is withdrawn; use 0204"))
    } else if str_eq(code, "T") && profile == Profile::PintMy {
        Err(owned("PINT-MY tax category T is withdrawn; use SA/SE/HVG/LVG"))
    } else {
        Ok(())
    }
}

#[verifier::opaque]
pub open spec fn uncl_4461_1_spec() -> Seq<&'static str> {
    seq!["1", "2", "3", "4", "5", "6", "7", "8", "9", "10", "11", "12", "13", "14", "15", "16", "17", "18", "19", "20"]
}

fn uncl_4461_1_list() -> (v: Vec<&'static str>)
    ensures
        v@ == uncl_4461_1_spec(),
{
    let mut v: Vec<&'static str> = Vec::new();
    v.push("1");
    v.push("2");
    v.push("3");
    v.push("4");
    v.push("5");
    v.push("6");
    v.push("7");
    v.push("8");
    v.push("9");
    v.push("10");
    v.push("11");
    v.push("12");
    v.push("13");
    v.push("14");
    v.push("15");
    v.push("16");
    v.push("17");
    v.push("18");
    v.push("19");
    v.push("20");
    proof { reveal(uncl_4461_1_spec); }
    assert(v@ =~= uncl_4461_1_spec());
    v
}

#[verifier::opaque]
pub open spec fn uncl_4461_2_spec() -> Seq<&'static str> {
    seq!["21", "22", "23", "24", "25", "26", "27", "28", "29", "30", "31", "32", "33", "34", "35", "36", "37", "38", "39", "40"]
}

fn uncl_4461_2_list() -> (v: Vec<&'static str>)
    ensures
        v@ == uncl_4461_2_spec(),
{
    let mut v: Vec<&'static str> = Vec::new();
    v.push("21");
    v.push("22");
    v.push("23");
    v.push("24");
    v.push("25");
    v.push("26");
    v.push("27");
    v.push("28");
    v.push("29");
    v.push("30");
    v.push("31");
    v.push("32");
    v.push("33");
    v.push("34");
    v.push("35");
    v.push("36");
    v.push("37");
    v.push("38");
    v.push("39");
    v.push("40");
    proof { reveal(uncl_4461_2_spec); }
    assert(v@ =~= uncl_4461_2_spec());
    v
}

#[verifier::opaque]
pub open spec fn uncl_4461_3_spec() -> Seq<&'static str> {
    seq!["41", "42", "43", "44", "45", "46", "47", "48", "49", "50", "51", "52", "53", "54", "55", "56", "57", "58", "59", "60"]
}

fn uncl_4461_3_list() -> (v: Vec<&'static str>)
    ensures
        v@ == uncl_4461_3_spec(),
{
    let mut v: Vec<&'static str> = Vec::new();
    v.push("41");
    v.push("42");
    v.push("43");
    v.push("44");
    v.push("45");
    v.push("46");
    v.push("47");
    v.push("48");
    v.push("49");
    v.push("50");
    v.push("51");
    v.push("52");
    v.push("53");
    v.push("54");
    v.push("55");
    v.push("56");
    v.push("57");
    v.push("58");
    v.push("59");
    v.push("60");
    proof { reveal(uncl_4461_3_spec); }
    assert(v@ =~= uncl_4461_3_spec());
    v
}

#[verifier::opaque]
pub open spec fn uncl_4461_4_spec() -> Seq<&'static str> {
    seq!["61", "62", "63", "64", "65", "66", "67", "68", "70", "74", "75", "76", "77", "78", "91", "92", "93", "94", "95", "96"]
}

fn uncl_4461_4_list() -> (v: Vec<&'static str>)
    ensures
        v@ == uncl_4461_4_spec(),
{
    let mut v: Vec<&'static str> = Vec::new();
    v.push("61");
    v.push("62");
    v.push("63");
    v.push("64");
    v.push("65");
    v.push("66");
    v.push("67");
    v.push("68");
    v.push("70");
    v.push("74");
    v.push("75");
    v.push("76");
    v.push("77");
    v.push("78");
    v.push("91");
    v.push("92");
    v.push("93");
    v.push("94");
    v.push("95");
    v.push("96");
    proof { reveal(uncl_4461_4_spec); }
    assert(v@ =~= uncl_4461_4_spec());
    v
}

#[verifier::opaque]
pub open spec fn uncl_4461_5_spec() -> Seq<&'static str> {
    seq!["97", "ZZZ"]
}

fn uncl_4461_5_list() -> (v: Vec<&'static str>)
    ensures
        v@ == uncl_4461_5_spec(),
{
    let mut v: Vec<&'static str> = Vec::new();
    v.push("97");
    v.push("ZZZ");
    proof { reveal(uncl_4461_5_spec); }
    assert(v@ =~= uncl_4461_5_spec());
    v
}

/// UNCL 4461 payment means codes.
pub open spec fn uncl_4461_spec() -> Seq<&'static str> {
    uncl_4461_1_spec() + uncl_4461_2_spec() + uncl_4461_3_spec() + uncl_4461_4_spec() + uncl_4461_5_spec()
}

fn uncl_4461_list() -> (v: Vec<&'static str>)
    ensures
        v@ == uncl_4461_spec(),
{
    let mut v = uncl_4461_1_list();
    let mut w = uncl_4461_2_list();
    v.append(&mut w);
    let mut w = uncl_4461_3_list();
    v.append(&mut w);
    let mut w = uncl_4461_4_list();
    v.append(&mut w);
    let mut w = uncl_4461_5_list();
    v.append(&mut w);
    v
}

/// Payment means code (exact).
pub fn uncl_4461(code: &str) -> (r: bool)
    ensures
        r == listed_exact(uncl_4461_spec(), code@),
{
    let l = uncl_4461_list();
    in_list(&l, code, false)
}

#[verifier::opaque]
pub open spec fn uncl_2005_1_spec() -> Seq<&'static str> {
    seq!["3", "35", "432"]
}

fn uncl_2005_1_list() -> (v: Vec<&'static str>)
    ensures
        v@ == uncl_2005_1_spec(),
{
    let mut v: Vec<&'static str> = Vec::new();
    v.push("3");
    v.push("35");
    v.push("432");
    proof { reveal(uncl_2005_1_spec); }
    assert(v@ =~= uncl_2005_1_spec());
    v
}

/// UNCL 2005 tax point date codes used by EN 16931.
pub open spec fn uncl_2005_spec() -> Seq<&'static str> {
    uncl_2005_1_spec()
}

fn uncl_2005_list() -> (v: Vec<&'static str>)
    ensures
        v@ == uncl_2005_spec(),
{
    let mut v = uncl_2005_1_list();
    v
}

/// Tax point date code (exact).
pub fn uncl_2005(code: &str) -> (r: bool)
    ensures
        r == listed_exact(uncl_2005_spec(), code@),
{
    let l = uncl_2005_list();
    in_list(&l, code, false)
}

#[verifier::opaque]
pub open spec fn uncl_7143_1_spec() -> Seq<&'static str> {
    seq!["AA", "AB", "AC", "AD", "AE", "AF", "AG", "AH", "AI", "AJ", "AK", "AL", "AM", "AN", "AO", "AP", "AQ", "AR", "AS", "AT"]
}

fn uncl_7143_1_list() -> (v: Vec<&'static str>)
    ensures
        v@ == uncl_7143_1_spec(),
{
    let mut v: Vec<&'static str> = Vec::new();
    v.push("AA");
    v.push("AB");
    v.push("AC");
    v.push("AD");
    v.push("AE");
    v.push("AF");
    v.push("AG");
    v.push("AH");
    v.push("AI");
    v.push("AJ");
    v.push("AK");
    v.push("AL");
    v.push("AM");
    v.push("AN");
    v.push("AO");
    v.push("AP");
    v.push("AQ");
    v.push("AR");
    v.push("AS");
    v.push("AT");
    proof { reveal(uncl_7143_1_spec); }
    assert(v@ =~= uncl_7143_1_spec());
    v
}

#[verifier::opaque]
pub open spec fn uncl_7143_2_spec() -> Seq<&'static str> {
    seq!["AU", "AV", "AW", "AX", "AY", "AZ", "BA", "BB", "BC", "BD", "BE", "BF", "BG", "BH", "BI", "BJ", "BK", "BL", "BM", "BN"]
}

fn uncl_7143_2_list() -> (v: Vec<&'static str>)
    ensures
        v@ == uncl_7143_2_spec(),
{
    let mut v: Vec<&'static str> = Vec::new();
    v.push("AU");
    v.push("AV");
    v.push("AW");
    v.push("AX");
    v.push("AY");
    v.push("AZ");
    v.push("BA");
    v.push("BB");
    v.push("BC");
    v.push("BD");
    v.push("BE");
    v.push("BF");
    v.push("BG");
    v.push("BH");
    v.push("BI");
    v.push("BJ");
    v.push("BK");
    v.push("BL");
    v.push("BM");
    v.push("BN");
    proof { reveal(uncl_7143_2_spec); }
    assert(v@ =~= uncl_7143_2_spec());
    v
}

#[verifier::opaque]
pub open spec fn uncl_7143_3_spec() -> Seq<&'static str> {
    seq!["BO", "BP", "BQ", "BR", "BS", "BT", "BU", "BV", "BW", "BX", "BY", "BZ", "CC", "CG", "CL", "CR", "CV", "DR", "DW", "EC"]
}

fn uncl_7143_3_list() -> (v: Vec<&'static str>)
    ensures
        v@ == uncl_7143_3_spec(),
{
    let mut v: Vec<&'static str> = Vec::new();
    v.push("BO");
    v.push("BP");
    v.push("BQ");
    v.push("BR");
    v.push("BS");
    v.push("BT");
    v.push("BU");
    v.push("BV");
    v.push("BW");
    v.push("BX");
    v.push("BY");
    v.push("BZ");
    v.push("CC");
    v.push("CG");
    v.push("CL");
    v.push("CR");
    v.push("CV");
    v.push("DR");
    v.push("DW");
    v.push("EC");
    proof { reveal(uncl_7143_3_spec); }
    assert(v@ =~= uncl_7143_3_spec());
    v
}

#[verifier::opaque]
pub open spec fn uncl_7143_4_spec() -> Seq<&'static str> {
    seq!["EF", "EMD", "EN", "FS", "GB", "GMN", "GN", "GS", "HS", "IB", "IN", "IS", "IT", "IZ", "MA", "MF", "MN", "MP", "NB", "ON"]
}

fn uncl_7143_4_list() -> (v: Vec<&'static str>)
    ensures
        v@ == uncl_7143_4_spec(),
{
    let mut v: Vec<&'static str> = Vec::new();
    v.push("EF");
    v.push("EMD");
    v.push("EN");
    v.push("FS");
    v.push("GB");
    v.push("GMN");
    v.push("GN");
    v.push("GS");
    v.push("HS");
    v.push("IB");
    v.push("IN");
    v.push("IS");
    v.push("IT");
    v.push("IZ");
    v.push("MA");
    v.push("MF");
    v.push("MN");
    v.push("MP");
    v.push("NB");
    v.push("ON");
    proof { reveal(uncl_7143_4_spec); }
    assert(v@ =~= uncl_7143_4_spec());
    v
}

#[verifier::opaque]
pub open spec fn uncl_7143_5_spec() -> Seq<&'static str> {
    seq!["PD", "PL", "PO", "PV", "QS", "RC", "RN", "RU", "RY", "SA", "SG", "SK", "SN", "SRS", "SRT", "SRU", "SRV", "SRW", "SRX", "SRY"]
}

fn uncl_7143_5_list() -> (v: Vec<&'static str>)
    ensures
        v@ == uncl_7143_5_spec(),
{
    let mut v: Vec<&'static str> = Vec::new();
    v.push("PD");
    v.push("PL");
    v.push("PO");
    v.push("PV");
    v.push("QS");
    v.push("RC");
    v.push("RN");
    v.push("RU");
    v.push("RY");
    v.push("SA");
    v.push("SG");
    v.push("SK");
    v.push("SN");
    v.push("SRS");
    v.push("SRT");
    v.push("SRU");
    v.push("SRV");
    v.push("SRW");
    v.push("SRX");
    v.push("SRY");
    proof { reveal(uncl_7143_5_spec); }
    assert(v@ =~= uncl_7143_5_spec());
    v
}

#[verifier::opaque]
pub open spec fn uncl_7143_6_spec() -> Seq<&'static str> {
    seq!["SRZ", "SS", "SSA", "SSB", "SSC", "SSD", "SSE", "SSF", "SSG", "SSH", "SSI", "SSJ", "SSK", "SSL", "SSM", "SSN", "SSO", "SSP", "SSQ", "SSR"]
}

fn uncl_7143_6_list() -> (v: Vec<&'static str>)
    ensures
        v@ == uncl_7143_6_spec(),
{
    let mut v: Vec<&'static str> = Vec::new();
    v.push("SRZ");
    v.push("SS");
    v.push("SSA");
    v.push("SSB");
    v.push("SSC");
    v.push("SSD");
    v.push("SSE");
    v.push("SSF");
    v.push("SSG");
    v.push("SSH");
    v.push("SSI");
    v.push("SSJ");
    v.push("SSK");
    v.push("SSL");
    v.push("SSM");
    v.push("SSN");
    v.push("SSO");
    v.push("SSP");
    v.push("SSQ");
    v.push("SSR");
    proof { reveal(uncl_7143_6_spec); }
    assert(v@ =~= uncl_7143_6_spec());
    v
}

#[verifier::opaque]
pub open spec fn uncl_7143_7_spec() -> Seq<&'static str> {
    seq!["SSS", "SST", "SSU", "SSV", "SSW", "SSX", "SSY", "SSZ", "ST", "STA", "STB", "STC", "STD", "STE", "STF", "STG", "STH", "STI", "STJ", "STK"]
}

fn uncl_7143_7_list() -> (v: Vec<&'static str>)
    ensures
        v@ == uncl_7143_7_spec(),
{
    let mut v: Vec<&'static str> = Vec::new();
    v.push("SSS");
    v.push("SST");
    v.push("SSU");
    v.push("SSV");
    v.push("SSW");
    v.push("SSX");
    v.push("SSY");
    v.push("SSZ");
    v.push("ST");
    v.push("STA");
    v.push("STB");
    v.push("STC");
    v.push("STD");
    v.push("STE");
    v.push("STF");
    v.push("STG");
    v.push("STH");
    v.push("STI");
    v.push("STJ");
    v.push("STK");
    proof { reveal(uncl_7143_7_spec); }
    assert(v@ =~= uncl_7143_7_spec());
    v
}

#[verifier::opaque]
pub open spec fn uncl_7143_8_spec() -> Seq<&'static str> {
    seq!["STL", "STM", "STN", "STO", "STP", "STQ", "STR", "STS", "STT", "STU", "STV", "STW", "STX", "STY", "STZ", "SUA", "SUB", "SUC", "SUD", "SUE"]
}

fn uncl_7143_8_list() -> (v: Vec<&'static str>)
    ensures
        v@ == uncl_7143_8_spec(),
{
    let mut v: Vec<&'static str> = Vec::new();
    v.push("STL");
    v.push("STM");
    v.push("STN");
    v.push("STO");
    v.push("STP");
    v.push("STQ");
    v.push("STR");
    v.push("STS");
    v.push("STT");
    v.push("STU");
    v.push("STV");
    v.push("STW");
    v.push("STX");
    v.push("STY");
    v.push("STZ");
    v.push("SUA");
    v.push("SUB");
    v.push("SUC");
    v.push("SUD");
    v.push("SUE");
    proof { reveal(uncl_7143_8_spec); }
    assert(v@ =~= uncl_7143_8_spec());
    v
}

#[verifier::opaque]
pub open spec fn uncl_7143_9_spec() -> Seq<&'static str> {
    seq!["SUF", "SUG", "SUH", "SUI", "SUJ", "SUK", "SUL", "SUM", "TG", "TSN", "TSO", "TSP", "TSQ", "TSR", "TSS", "TST", "TSU", "UA", "UP", "VN"]
}

fn uncl_7143_9_list() -> (v: Vec<&'static str>)
    ensures
        v@ == uncl_7143_9_spec(),
{
    let mut v: Vec<&'static str> = Vec::new();
    v.push("SUF");
    v.push("SUG");
    v.push("SUH");
    v.push("SUI");
    v.push("SUJ");
    v.push("SUK");
    v.push("SUL");
    v.push("SUM");
    v.push("TG");
    v.push("TSN");
    v.push("TSO");
    v.push("TSP");
    v.push("TSQ");
    v.push("TSR");
    v.push("TSS");
    v.push("TST");
    v.push("TSU");
    v.push("UA");
    v.push("UP");
    v.push("VN");
    proof { reveal(uncl_7143_9_spec); }
    assert(v@ =~= uncl_7143_9_spec());
    v
}

#[verifier::opaque]
pub open spec fn uncl_7143_10_spec() -> Seq<&'static str> {
    seq!["VP", "VS", "VX", "ZZZ"]
}

fn uncl_7143_10_list() -> (v: Vec<&'static str>)
    ensures
        v@ == uncl_7143_10_spec(),
{
    let mut v: Vec<&'static str> = Vec::new();
    v.push("VP");
    v.push("VS");
    v.push("VX");
    v.push("ZZZ");
    proof { reveal(uncl_7143_10_spec); }
    assert(v@ =~= uncl_7143_10_spec());
    v
}

/// UNCL 7143 item classification scheme codes.
pub open spec fn uncl_7143_spec() -> Seq<&'static str> {
    uncl_7143_1_spec() + uncl_7143_2_spec() + uncl_7143_3_spec() + uncl_7143_4_spec() + uncl_7143_5_spec() + uncl_7143_6_spec() + uncl_7143_7_spec() + uncl_7143_8_spec() + uncl_7143_9_spec() + uncl_7143_10_spec()
}

fn uncl_7143_list() -> (v: Vec<&'static str>)
    ensures
        v@ == uncl_7143_spec(),
{
    let mut v = uncl_7143_1_list();
    let mut w = uncl_7143_2_list();
    v.append(&mut w);
    let mut w = uncl_7143_3_list();
    v.append(&mut w);
    let mut w = uncl_7143_4_list();
    v.append(&mut w);
    let mut w = uncl_7143_5_list();
    v.append(&mut w);
    let mut w = uncl_7143_6_list();
    v.append(&mut w);
    let mut w = uncl_7143_7_list();
    v.append(&mut w);
    let mut w = uncl_7143_8_list();
    v.append(&mut w);
    let mut w = uncl_7143_9_list();
    v.append(&mut w);
    let mut w = uncl_7143_10_list();
    v.append(&mut w);
    v
}

/// Item classification scheme code (exact).
pub fn uncl_7143(code: &str) -> (r: bool)
    ensures
        r == listed_exact(uncl_7143_spec(), code@),
{
    let l = uncl_7143_list();
    in_list(&l, code, false)
}

#[verifier::opaque]
pub open spec fn uncl_5189_1_spec() -> Seq<&'static str> {
    seq!["41", "42", "60", "62", "63", "64", "65", "66", "67", "68", "70", "71", "88", "95", "100", "102", "103", "104", "105"]
}

fn uncl_5189_1_list() -> (v: Vec<&'static str>)
    ensures
        v@ == uncl_5189_1_spec(),
{
    let mut v: Vec<&'static str> = Vec::new();
    v.push("41");
    v.push("42");
    v.push("60");
    v.push("62");
    v.push("63");
    v.push("64");
    v.push("65");
    v.push("66");
    v.push("67");
    v.push("68");
    v.push("70");
    v.push("71");
    v.push("88");
    v.push("95");
    v.push("100");
    v.push("102");
    v.push("103");
    v.push("104");
    v.push("105");
    proof { reveal(uncl_5189_1_spec); }
    assert(v@ =~= uncl_5189_1_spec());
    v
}

/// UNCL 5189 allowance reason codes.
pub open spec fn uncl_5189_spec() -> Seq<&'static str> {
    uncl_5189_1_spec()
}

fn uncl_5189_list() -> (v: Vec<&'static str>)
    ensures
        v@ == uncl_5189_spec(),
{
    let mut v = uncl_5189_1_list();
    v
}

/// Allowance reason code (exact).
pub fn uncl_5189(code: &str) -> (r: bool)
    ensures
        r == listed_exact(uncl_5189_spec(), code@),
{
    let l = uncl_5189_list();
    in_list(&l, code, false)
}

#[verifier::opaque]
pub open spec fn uncl_7161_1_spec() -> Seq<&'static str> {
    seq!["AA", "AAA", "AAC", "AAD", "AAE", "AAF", "AAH", "AAI", "AAS", "AAT", "AAV", "AAY", "AAZ", "ABA", "ABB", "ABC", "ABD", "ABF", "ABK", "ABL"]
}

fn uncl_7161_1_list() -> (v: Vec<&'static str>)
    ensures
        v@ == uncl_7161_1_spec(),
{
    let mut v: Vec<&'static str> = Vec::new();
    v.push("AA");
    v.push("AAA");
    v.push("AAC");
    v.push("AAD");
    v.push("AAE");
    v.push("AAF");
    v.push("AAH");
    v.push("AAI");
    v.push("AAS");
    v.push("AAT");
    v.push("AAV");
    v.push("AAY");
    v.push("AAZ");
    v.push("ABA");
    v.push("ABB");
    v.push("ABC");
    v.push("ABD");
    v.push("ABF");
    v.push("ABK");
    v.push("ABL");
    proof { reveal(uncl_7161_1_spec); }
    assert(v@ =~= uncl_7161_1_spec());
    v
}

#[verifier::opaque]
pub open spec fn uncl_7161_2_spec() -> Seq<&'static str> {
    seq!["ABN", "ABR", "ABS", "ABT", "ABU", "ACF", "ACG", "ACH", "ACI", "ACJ", "ACK", "ACL", "ACM", "ACS", "ADC", "ADE", "ADJ", "ADK", "ADL", "ADM"]
}

fn uncl_7161_2_list() -> (v: Vec<&'static str>)
    ensures
        v@ == uncl_7161_2_spec(),
{
    let mut v: Vec<&'static str> = Vec::new();
    v.push("ABN");
    v.push("ABR");
    v.push("ABS");
    v.push("ABT");
    v.push("ABU");
    v.push("ACF");
    v.push("ACG");
    v.push("ACH");
    v.push("ACI");
    v.push("ACJ");
    v.push("ACK");
    v.push("ACL");
    v.push("ACM");
    v.push("ACS");
    v.push("ADC");
    v.push("ADE");
    v.push("ADJ");
    v.push("ADK");
    v.push("ADL");
    v.push("ADM");
    proof { reveal(uncl_7161_2_spec); }
    assert(v@ =~= uncl_7161_2_spec());
    v
}

#[verifier::opaque]
pub open spec fn uncl_7161_3_spec() -> Seq<&'static str> {
    seq!["ADN", "ADO", "ADP", "ADQ", "ADR", "ADT", "ADW", "ADY", "ADZ", "AEA", "AEB", "AEC", "AED", "AEF", "AEH", "AEI", "AEJ", "AEK", "AEL", "AEM"]
}

fn uncl_7161_3_list() -> (v: Vec<&'static str>)
    ensures
        v@ == uncl_7161_3_spec(),
{
    let mut v: Vec<&'static str> = Vec::new();
    v.push("ADN");
    v.push("ADO");
    v.push("ADP");
    v.push("ADQ");
    v.push("ADR");
    v.push("ADT");
    v.push("ADW");
    v.push("ADY");
    v.push("ADZ");
    v.push("AEA");
    v.push("AEB");
    v.push("AEC");
    v.push("AED");
    v.push("AEF");
    v.push("AEH");
    v.push("AEI");
    v.push("AEJ");
    v.push("AEK");
    v.push("AEL");
    v.push("AEM");
    proof { reveal(uncl_7161_3_spec); }
    assert(v@ =~= uncl_7161_3_spec());
    v
}

#[verifier::opaque]
pub open spec fn uncl_7161_4_spec() -> Seq<&'static str> {
    seq!["AEN", "AEO", "AEP", "AES", "AET", "AEU", "AEV", "AEW", "AEX", "AEY", "AEZ", "AJ", "AU", "CA", "CAB", "CAD", "CAE", "CAF", "CAI", "CAJ"]
}

fn uncl_7161_4_list() -> (v: Vec<&'static str>)
    ensures
        v@ == uncl_7161_4_spec(),
{
    let mut v: Vec<&'static str> = Vec::new();
    v.push("AEN");
    v.push("AEO");
    v.push("AEP");
    v.push("AES");
    v.push("AET");
    v.push("AEU");
    v.push("AEV");
    v.push("AEW");
    v.push("AEX");
    v.push("AEY");
    v.push("AEZ");
    v.push("AJ");
    v.push("AU");
    v.push("CA");
    v.push("CAB");
    v.push("CAD");
    v.push("CAE");
    v.push("CAF");
    v.push("CAI");
    v.push("CAJ");
    proof { reveal(uncl_7161_4_spec); }
    assert(v@ =~= uncl_7161_4_spec());
    v
}

#[verifier::opaque]
pub open spec fn uncl_7161_5_spec() -> Seq<&'static str> {
    seq!["CAK", "CAL", "CAM", "CAN", "CAO", "CAP", "CAQ", "CAR", "CAS", "CAT", "CAU", "CAV", "CAW", "CAX", "CAY", "CAZ", "CD", "CG", "CS", "CT"]
}

fn uncl_7161_5_list() -> (v: Vec<&'static str>)
    ensures
        v@ == uncl_7161_5_spec(),
{
    let mut v: Vec<&'static str> = Vec::new();
    v.push("CAK");
    v.push("CAL");
    v.push("CAM");
    v.push("CAN");
    v.push("CAO");
    v.push("CAP");
    v.push("CAQ");
    v.push("CAR");
    v.push("CAS");
    v.push("CAT");
    v.push("CAU");
    v.push("CAV");
    v.push("CAW");
    v.push("CAX");
    v.push("CAY");
    v.push("CAZ");
    v.push("CD");
    v.push("CG");
    v.push("CS");
    v.push("CT");
    proof { reveal(uncl_7161_5_spec); }
    assert(v@ =~= uncl_7161_5_spec());
    v
}

#[verifier::opaque]
pub open spec fn uncl_7161_6_spec() -> Seq<&'static str> {
    seq!["DAB", "DAC", "DAD", "DAF", "DAG", "DAH", "DAI", "DAJ", "DAK", "DAL", "DAM", "DAN", "DAO", "DAP", "DAQ", "DL", "EG", "EP", "ER", "FAA"]
}

fn uncl_7161_6_list() -> (v: Vec<&'static str>)
    ensures
        v@ == uncl_7161_6_spec(),
{
    let mut v: Vec<&'static str> = Vec::new();
    v.push("DAB");
    v.push("DAC");
    v.push("DAD");
    v.push("DAF");
    v.push("DAG");
    v.push("DAH");
    v.push("DAI");
    v.push("DAJ");
    v.push("DAK");
    v.push("DAL");
    v.push("DAM");
    v.push("DAN");
    v.push("DAO");
    v.push("DAP");
    v.push("DAQ");
    v.push("DL");
    v.push("EG");
    v.push("EP");
    v.push("ER");
    v.push("FAA");
    proof { reveal(uncl_7161_6_spec); }
    assert(v@ =~= uncl_7161_6_spec());
    v
}

#[verifier::opaque]
pub open spec fn uncl_7161_7_spec() -> Seq<&'static str> {
    seq!["FAB", "FAC", "FC", "FH", "FI", "GAA", "HAA", "HD", "HH", "IAA", "IAB", "ID", "IF", "IR", "IS", "KO", "L1", "LA", "LAA", "LAB"]
}

fn uncl_7161_7_list() -> (v: Vec<&'static str>)
    ensures
        v@ == uncl_7161_7_spec(),
{
    let mut v: Vec<&'static str> = Vec::new();
    v.push("FAB");
    v.push("FAC");
    v.push("FC");
    v.push("FH");
    v.push("FI");
    v.push("GAA");
    v.push("HAA");
    v.push("HD");
    v.push("HH");
    v.push("IAA");
    v.push("IAB");
    v.push("ID");
    v.push("IF");
    v.push("IR");
    v.push("IS");
    v.push("KO");
    v.push("L1");
    v.push("LA");
    v.push("LAA");
    v.push("LAB");
    proof { reveal(uncl_7161_7_spec); }
    assert(v@ =~= uncl_7161_7_spec());
    v
}

#[verifier::opaque]
pub open spec fn uncl_7161_8_spec() -> Seq<&'static str> {
    seq!["LF", "MAE", "MI", "ML", "NAA", "OA", "PA", "PAA", "PC", "PL", "RAB", "RAC", "RAD", "RAF", "RE", "RF", "RH", "RV", "SA", "SAA"]
}

fn uncl_7161_8_list() -> (v: Vec<&'static str>)
    ensures
        v@ == uncl_7161_8_spec(),
{
    let mut v: Vec<&'static str> = Vec::new();
    v.push("LF");
    v.push("MAE");
    v.push("MI");
    v.push("ML");
    v.push("NAA");
    v.push("OA");
    v.push("PA");
    v.push("PAA");
    v.push("PC");
    v.push("PL");
    v.push("RAB");
    v.push("RAC");
    v.push("RAD");
    v.push("RAF");
    v.push("RE");
    v.push("RF");
    v.push("RH");
    v.push("RV");
    v.push("SA");
    v.push("SAA");
    proof { reveal(uncl_7161_8_spec); }
    assert(v@ =~= uncl_7161_8_spec());
    v
}

#[verifier::opaque]
pub open spec fn uncl_7161_9_spec() -> Seq<&'static str> {
    seq!["SAD", "SAE", "SAI", "SG", "SH", "SM", "SU", "TAB", "TAC", "TT", "TV", "V1", "V2", "WH", "XAA", "YY", "ZZZ"]
}

fn uncl_7161_9_list() -> (v: Vec<&'static str>)
    ensures
        v@ == uncl_7161_9_spec(),
{
    let mut v: Vec<&'static str> = Vec::new();
    v.push("SAD");
    v.push("SAE");
    v.push("SAI");
    v.push("SG");
    v.push("SH");
    v.push("SM");
    v.push("SU");
    v.push("TAB");
    v.push("TAC");
    v.push("TT");
    v.push("TV");
    v.push("V1");
    v.push("V2");
    v.push("WH");
    v.push("XAA");
    v.push("YY");
    v.push("ZZZ");
    proof { reveal(uncl_7161_9_spec); }
    assert(v@ =~= uncl_7161_9_spec());
    v
}

/// UNCL 7161 charge reason codes.
pub open spec fn uncl_7161_spec() -> Seq<&'static str> {
    uncl_7161_1_spec() + uncl_7161_2_spec() + uncl_7161_3_spec() + uncl_7161_4_spec() + uncl_7161_5_spec() + uncl_7161_6_spec() + uncl_7161_7_spec() + uncl_7161_8_spec() + uncl_7161_9_spec()
}

fn uncl_7161_list() -> (v: Vec<&'static str>)
    ensures
        v@ == uncl_7161_spec(),
{
    let mut v = uncl_7161_1_list();
    let mut w = uncl_7161_2_list();
    v.append(&mut w);
    let mut w = uncl_7161_3_list();
    v.append(&mut w);
    let mut w = uncl_7161_4_list();
    v.append(&mut w);
    let mut w = uncl_7161_5_list();
    v.append(&mut w);
    let mut w = uncl_7161_6_list();
    v.append(&mut w);
    let mut w = uncl_7161_7_list();
    v.append(&mut w);
    let mut w = uncl_7161_8_list();
    v.append(&mut w);
    let mut w = uncl_7161_9_list();
    v.append(&mut w);
    v
}

/// Charge reason code (exact).
pub fn uncl_7161(code: &str) -> (r: bool)
    ensures
        r == listed_exact(uncl_7161_spec(), code@),
{
    let l = uncl_7161_list();
    in_list(&l, code, false)
}


} // verus!
