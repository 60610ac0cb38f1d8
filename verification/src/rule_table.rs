//! The rule table: every registered id with its severity, authority text and provenance.
use vstd::prelude::*;
use crate::report::{Severity, Source};

verus! {

/// One registered rule: id, severity, authority text, provenance, and the
/// check that is its only emitter.
#[derive(Debug, Clone, Copy, PartialEq, Eq)]
pub struct Rule {
    /// Registered id (`BR-02`, `PEPPOL-EN16931-R010`).
    pub id: &'static str,
    /// Fatal fails `Report::ok`; warning and info do not.
    pub severity: Severity,
    /// Authority text returned by `explain`.
    pub text: &'static str,
    /// Provenance of the id.
    pub source: Source,
    /// The check that emits this id.
    pub check: Check,
}

/// The check behind a rule.
#[derive(Debug, Clone, Copy, PartialEq, Eq, Structural)]
pub enum Check {
    SpecLookup,
    CoreProcess01,
    IbrSr63,
    Br01,
    Br02,
    Br03,
    Br04,
    Br08,
    Br09,
    Br10,
    Br11,
    Br21,
    Br25,
    Br22,
    Br23,
    Br24,
    Br26,
    Br27,
    Br28,
    Br51,
    Br17,
    Br18,
    Br20,
    Br56,
    Br29,
    Br30,
    Br52,
    Br54,
    Br55,
    Br57,
    Br62,
    Br63,
    Br64,
    Br65,
    BrCo09,
    BrCo19,
    BrCo20,
    BrCo21,
    BrCo22,
    BrCo23,
    BrCo24,
    Br12,
    Br13,
    Br14,
    Br15,
    Br19,
    Br31,
    Br32,
    Br33,
    Br36,
    Br37,
    Br38,
    Br41,
    Br42,
    Br43,
    Br44,
    Br45,
    Br46,
    Br47,
    Br48,
    Br49,
    Br50,
    Br61,
    BrCo26,
    BrCo03,
    BrCoNlp,
    Br05,
    Br53,
    Br06,
    Br07,
    Br16,
    BrCo04,
    BrCo10,
    BrCo11,
    BrCo12,
    BrCo13,
    BrCo14,
    BrCo15,
    BrCo16,
    BrCo17,
    PintTax,
    Ibr02My,
    Ibr03My,
    Ibr04My,
    IbrCl05My,
    AlignedIbrpCl01My,
    BrCo18,
    BrS01,
    BrS02,
    BrS03,
    BrS04,
    BrS05,
    BrS06,
    BrS07,
    BrS08,
    BrS09,
    BrS10,
    BrZ01,
    BrZ02,
    BrZ03,
    BrZ04,
    BrZ05,
    BrZ06,
    BrZ07,
    BrZ08,
    BrZ09,
    BrZ10,
    BrE01,
    BrE02,
    BrE03,
    BrE04,
    BrE05,
    BrE06,
    BrE07,
    BrE08,
    BrE09,
    BrE10,
    BrAe01,
    BrAe02,
    BrAe03,
    BrAe04,
    BrAe05,
    BrAe06,
    BrAe07,
    BrAe08,
    BrAe09,
    BrAe10,
    BrIc01,
    BrIc02,
    BrIc03,
    BrIc04,
    BrIc05,
    BrIc06,
    BrIc07,
    BrIc11,
    BrIc12,
    BrIc08,
    BrIc09,
    BrIc10,
    BrG01,
    BrG02,
    BrG03,
    BrG04,
    BrG05,
    BrG06,
    BrG07,
    BrG08,
    BrG09,
    BrG10,
    BrO01,
    BrO02,
    BrO03,
    BrO04,
    BrO05,
    BrO06,
    BrO07,
    BrO08,
    BrO09,
    BrO10,
    BrO11,
    BrO12,
    BrO13,
    BrO14,
    BrAf01,
    BrAf02,
    BrAf03,
    BrAf04,
    BrAf05,
    BrAf06,
    BrAf07,
    BrAf08,
    BrAf09,
    BrAf10,
    BrAg01,
    BrAg02,
    BrAg03,
    BrAg04,
    BrAg05,
    BrAg06,
    BrAg07,
    BrAg08,
    BrAg09,
    BrAg10,
    BrB01,
    CheckBNotWithS,
    MySa01,
    MySa08,
    MySa09,
    MySa10,
    MySe01,
    MySe08,
    MySe09,
    MySe10,
    MyHvg08,
    MyHvg09,
    MyLvg08,
    MyLvg09,
    MyE09,
    MyTtx09,
    CheckMyOExclusive,
    My002,
    My046,
    My047,
    My048,
    MyHvg10,
    MyLvg10,
    MyTtx08,
    MyE05,
    MyE08,
    MyO09,
    BrCl01,
    BrCl04,
    BrCl05,
    BrCl14,
    BrCl06,
    BrCl13,
    BrCl15,
    BrCl16,
    BrCl19,
    BrCl20,
    BrCl17,
    BrCl18,
    BrCl22,
    BrCl23,
    BrCl24,
    BrCl25,
    BrDecPass,
    R001,
    R007,
    R004,
    R003,
    R010,
    R020,
    R005,
    R055,
    R061,
    P0100,
    P0104,
    P0105,
    P0106,
    P0107,
    P0108,
    P0109,
    P0110,
    P0111,
    R120,
    R040,
    R046,
    R121,
}

/// General EN 16931 and crate rules. (part 1)
#[verifier::opaque]
pub open spec fn general_rules_1_spec() -> Seq<Rule> {
    seq![
        Rule { id: "CORE-SPEC-01", severity: Severity::Fatal, text: "Unrecognised specification identifier (BT-24).", source: Source::Crate, check: Check::SpecLookup },
        Rule { id: "CORE-PROCESS-01", severity: Severity::Fatal, text: "Self-billing (and other) process URNs are not validated as billing.", source: Source::Crate, check: Check::CoreProcess01 },
        Rule { id: "IBR-SR-63", severity: Severity::Fatal, text: "BT-24 must not contain '*'.", source: Source::Crate, check: Check::IbrSr63 },
        Rule { id: "BR-01", severity: Severity::Fatal, text: "An Invoice shall have a Specification identifier (BT-24).", source: Source::Both, check: Check::Br01 },
        Rule { id: "BR-02", severity: Severity::Fatal, text: "Invoice number (BT-1) shall be present.", source: Source::Both, check: Check::Br02 },
        Rule { id: "BR-03", severity: Severity::Fatal, text: "An Invoice shall have an Invoice issue date (BT-2).", source: Source::Both, check: Check::Br03 },
        Rule { id: "BR-04", severity: Severity::Fatal, text: "An Invoice shall have an Invoice type code (BT-3).", source: Source::Both, check: Check::Br04 },
        Rule { id: "BR-08", severity: Severity::Fatal, text: "The Seller shall have a Seller postal address (BG-5).", source: Source::Both, check: Check::Br08 },
        Rule { id: "BR-09", severity: Severity::Fatal, text: "The Seller postal address shall contain a Seller country code (BT-40).", source: Source::Both, check: Check::Br09 },
        Rule { id: "BR-10", severity: Severity::Fatal, text: "The Buyer shall have a Buyer postal address (BG-8).", source: Source::Both, check: Check::Br10 },
        Rule { id: "BR-11", severity: Severity::Fatal, text: "The Buyer postal address shall contain a Buyer country code (BT-55).", source: Source::Both, check: Check::Br11 },
        Rule { id: "BR-21", severity: Severity::Fatal, text: "Each Invoice line shall have an Invoice line identifier (BT-126).", source: Source::Both, check: Check::Br21 },
        Rule { id: "BR-25", severity: Severity::Fatal, text: "Each Invoice line shall have an Item name (BT-153).", source: Source::Both, check: Check::Br25 },
        Rule { id: "BR-22", severity: Severity::Fatal, text: "Each Invoice line shall have an Invoiced quantity (BT-129).", source: Source::Both, check: Check::Br22 },
        Rule { id: "BR-23", severity: Severity::Fatal, text: "An Invoice line shall have an Invoiced quantity unit of measure code (BT-130).", source: Source::Both, check: Check::Br23 },
        Rule { id: "BR-24", severity: Severity::Fatal, text: "Each Invoice line shall have an Invoice line net amount (BT-131).", source: Source::Both, check: Check::Br24 },
    ]
}

/// General EN 16931 and crate rules. (part 1)
fn general_rules_1() -> (v: Vec<Rule>)
    ensures
        v@ == general_rules_1_spec(),
{
    let mut v: Vec<Rule> = Vec::new();
    v.push(Rule { id: "CORE-SPEC-01", severity: Severity::Fatal, text: "Unrecognised specification identifier (BT-24).", source: Source::Crate, check: Check::SpecLookup });
    v.push(Rule { id: "CORE-PROCESS-01", severity: Severity::Fatal, text: "Self-billing (and other) process URNs are not validated as billing.", source: Source::Crate, check: Check::CoreProcess01 });
    v.push(Rule { id: "IBR-SR-63", severity: Severity::Fatal, text: "BT-24 must not contain '*'.", source: Source::Crate, check: Check::IbrSr63 });
    v.push(Rule { id: "BR-01", severity: Severity::Fatal, text: "An Invoice shall have a Specification identifier (BT-24).", source: Source::Both, check: Check::Br01 });
    v.push(Rule { id: "BR-02", severity: Severity::Fatal, text: "Invoice number (BT-1) shall be present.", source: Source::Both, check: Check::Br02 });
    v.push(Rule { id: "BR-03", severity: Severity::Fatal, text: "An Invoice shall have an Invoice issue date (BT-2).", source: Source::Both, check: Check::Br03 });
    v.push(Rule { id: "BR-04", severity: Severity::Fatal, text: "An Invoice shall have an Invoice type code (BT-3).", source: Source::Both, check: Check::Br04 });
    v.push(Rule { id: "BR-08", severity: Severity::Fatal, text: "The Seller shall have a Seller postal address (BG-5).", source: Source::Both, check: Check::Br08 });
    v.push(Rule { id: "BR-09", severity: Severity::Fatal, text: "The Seller postal address shall contain a Seller country code (BT-40).", source: Source::Both, check: Check::Br09 });
    v.push(Rule { id: "BR-10", severity: Severity::Fatal, text: "The Buyer shall have a Buyer postal address (BG-8).", source: Source::Both, check: Check::Br10 });
    v.push(Rule { id: "BR-11", severity: Severity::Fatal, text: "The Buyer postal address shall contain a Buyer country code (BT-55).", source: Source::Both, check: Check::Br11 });
    v.push(Rule { id: "BR-21", severity: Severity::Fatal, text: "Each Invoice line shall have an Invoice line identifier (BT-126).", source: Source::Both, check: Check::Br21 });
    v.push(Rule { id: "BR-25", severity: Severity::Fatal, text: "Each Invoice line shall have an Item name (BT-153).", source: Source::Both, check: Check::Br25 });
    v.push(Rule { id: "BR-22", severity: Severity::Fatal, text: "Each Invoice line shall have an Invoiced quantity (BT-129).", source: Source::Both, check: Check::Br22 });
    v.push(Rule { id: "BR-23", severity: Severity::Fatal, text: "An Invoice line shall have an Invoiced quantity unit of measure code (BT-130).", source: Source::Both, check: Check::Br23 });
    v.push(Rule { id: "BR-24", severity: Severity::Fatal, text: "Each Invoice line shall have an Invoice line net amount (BT-131).", source: Source::Both, check: Check::Br24 });
    proof { reveal(general_rules_1_spec); }
    assert(v@ =~= general_rules_1_spec());
    v
}

/// General EN 16931 and crate rules. (part 2)
#[verifier::opaque]
pub open spec fn general_rules_2_spec() -> Seq<Rule> {
    seq![
        Rule { id: "BR-26", severity: Severity::Fatal, text: "Each Invoice line shall contain the Item net price (BT-146).", source: Source::Both, check: Check::Br26 },
        Rule { id: "BR-27", severity: Severity::Fatal, text: "The Item net price (BT-146) shall NOT be negative.", source: Source::Both, check: Check::Br27 },
        Rule { id: "BR-28", severity: Severity::Fatal, text: "The Item gross price (BT-148) shall NOT be negative.", source: Source::Both, check: Check::Br28 },
        Rule { id: "BR-51", severity: Severity::Warning, text: "An invoice should never include a full card primary account number (BT-87).", source: Source::Both, check: Check::Br51 },
        Rule { id: "BR-17", severity: Severity::Fatal, text: "Payee name (BT-59) shall be provided if Payee (BG-10) is used.", source: Source::Both, check: Check::Br17 },
        Rule { id: "BR-18", severity: Severity::Fatal, text: "Seller tax representative name (BT-62) shall be provided if BG-11 is used.", source: Source::Both, check: Check::Br18 },
        Rule { id: "BR-20", severity: Severity::Fatal, text: "Tax representative country (BT-69) shall be provided if BG-11 is used.", source: Source::Both, check: Check::Br20 },
        Rule { id: "BR-56", severity: Severity::Fatal, text: "Seller tax representative VAT identifier (BT-63) shall be provided if BG-11 is used.", source: Source::Both, check: Check::Br56 },
        Rule { id: "BR-29", severity: Severity::Fatal, text: "Invoicing period end date shall be on or after start date.", source: Source::Both, check: Check::Br29 },
        Rule { id: "BR-30", severity: Severity::Fatal, text: "Invoice line period end date shall be on or after start date.", source: Source::Both, check: Check::Br30 },
        Rule { id: "BR-52", severity: Severity::Fatal, text: "Each additional supporting document shall contain a reference (BT-122).", source: Source::Both, check: Check::Br52 },
        Rule { id: "BR-54", severity: Severity::Fatal, text: "Each item attribute (BG-32) shall contain name (BT-160) and value (BT-161).", source: Source::Both, check: Check::Br54 },
        Rule { id: "BR-55", severity: Severity::Fatal, text: "Each preceding invoice reference (BG-3) shall contain BT-25.", source: Source::Both, check: Check::Br55 },
        Rule { id: "BR-57", severity: Severity::Fatal, text: "Each deliver-to address (BG-15) shall contain country (BT-80).", source: Source::Both, check: Check::Br57 },
        Rule { id: "BR-62", severity: Severity::Fatal, text: "Seller electronic address (BT-34) shall have a scheme.", source: Source::Both, check: Check::Br62 },
        Rule { id: "BR-63", severity: Severity::Fatal, text: "Buyer electronic address (BT-49) shall have a scheme.", source: Source::Both, check: Check::Br63 },
    ]
}

/// General EN 16931 and crate rules. (part 2)
fn general_rules_2() -> (v: Vec<Rule>)
    ensures
        v@ == general_rules_2_spec(),
{
    let mut v: Vec<Rule> = Vec::new();
    v.push(Rule { id: "BR-26", severity: Severity::Fatal, text: "Each Invoice line shall contain the Item net price (BT-146).", source: Source::Both, check: Check::Br26 });
    v.push(Rule { id: "BR-27", severity: Severity::Fatal, text: "The Item net price (BT-146) shall NOT be negative.", source: Source::Both, check: Check::Br27 });
    v.push(Rule { id: "BR-28", severity: Severity::Fatal, text: "The Item gross price (BT-148) shall NOT be negative.", source: Source::Both, check: Check::Br28 });
    v.push(Rule { id: "BR-51", severity: Severity::Warning, text: "An invoice should never include a full card primary account number (BT-87).", source: Source::Both, check: Check::Br51 });
    v.push(Rule { id: "BR-17", severity: Severity::Fatal, text: "Payee name (BT-59) shall be provided if Payee (BG-10) is used.", source: Source::Both, check: Check::Br17 });
    v.push(Rule { id: "BR-18", severity: Severity::Fatal, text: "Seller tax representative name (BT-62) shall be provided if BG-11 is used.", source: Source::Both, check: Check::Br18 });
    v.push(Rule { id: "BR-20", severity: Severity::Fatal, text: "Tax representative country (BT-69) shall be provided if BG-11 is used.", source: Source::Both, check: Check::Br20 });
    v.push(Rule { id: "BR-56", severity: Severity::Fatal, text: "Seller tax representative VAT identifier (BT-63) shall be provided if BG-11 is used.", source: Source::Both, check: Check::Br56 });
    v.push(Rule { id: "BR-29", severity: Severity::Fatal, text: "Invoicing period end date shall be on or after start date.", source: Source::Both, check: Check::Br29 });
    v.push(Rule { id: "BR-30", severity: Severity::Fatal, text: "Invoice line period end date shall be on or after start date.", source: Source::Both, check: Check::Br30 });
    v.push(Rule { id: "BR-52", severity: Severity::Fatal, text: "Each additional supporting document shall contain a reference (BT-122).", source: Source::Both, check: Check::Br52 });
    v.push(Rule { id: "BR-54", severity: Severity::Fatal, text: "Each item attribute (BG-32) shall contain name (BT-160) and value (BT-161).", source: Source::Both, check: Check::Br54 });
    v.push(Rule { id: "BR-55", severity: Severity::Fatal, text: "Each preceding invoice reference (BG-3) shall contain BT-25.", source: Source::Both, check: Check::Br55 });
    v.push(Rule { id: "BR-57", severity: Severity::Fatal, text: "Each deliver-to address (BG-15) shall contain country (BT-80).", source: Source::Both, check: Check::Br57 });
    v.push(Rule { id: "BR-62", severity: Severity::Fatal, text: "Seller electronic address (BT-34) shall have a scheme.", source: Source::Both, check: Check::Br62 });
    v.push(Rule { id: "BR-63", severity: Severity::Fatal, text: "Buyer electronic address (BT-49) shall have a scheme.", source: Source::Both, check: Check::Br63 });
    proof { reveal(general_rules_2_spec); }
    assert(v@ =~= general_rules_2_spec());
    v
}

/// General EN 16931 and crate rules. (part 3)
#[verifier::opaque]
pub open spec fn general_rules_3_spec() -> Seq<Rule> {
    seq![
        Rule { id: "BR-64", severity: Severity::Fatal, text: "Item standard identifier (BT-157) shall have a scheme.", source: Source::Both, check: Check::Br64 },
        Rule { id: "BR-65", severity: Severity::Fatal, text: "Item classification identifier (BT-158) shall have a scheme (listID).", source: Source::Both, check: Check::Br65 },
        Rule { id: "BR-CO-09", severity: Severity::Fatal, text: "VAT identifiers shall have an ISO 3166-1 alpha-2 prefix (Greece EL). Not PINT-MY TIN.", source: Source::Both, check: Check::BrCo09 },
        Rule { id: "BR-CO-19", severity: Severity::Fatal, text: "If invoicing period (BG-14) is used, start or end shall be present.", source: Source::Both, check: Check::BrCo19 },
        Rule { id: "BR-CO-20", severity: Severity::Fatal, text: "If invoice line period (BG-26) is used, start or end shall be present.", source: Source::Both, check: Check::BrCo20 },
        Rule { id: "BR-CO-21", severity: Severity::Fatal, text: "Document level allowance shall have a reason or reason code.", source: Source::Both, check: Check::BrCo21 },
        Rule { id: "BR-CO-22", severity: Severity::Fatal, text: "Document level charge shall have a reason or reason code.", source: Source::Both, check: Check::BrCo22 },
        Rule { id: "BR-CO-23", severity: Severity::Fatal, text: "Invoice line allowance shall have a reason or reason code.", source: Source::Both, check: Check::BrCo23 },
        Rule { id: "BR-CO-24", severity: Severity::Fatal, text: "Invoice line charge shall have a reason or reason code.", source: Source::Both, check: Check::BrCo24 },
        Rule { id: "BR-12", severity: Severity::Fatal, text: "An Invoice shall have the Sum of Invoice line net amount (BT-106).", source: Source::Both, check: Check::Br12 },
        Rule { id: "BR-13", severity: Severity::Fatal, text: "An Invoice shall have the Invoice total amount without VAT (BT-109).", source: Source::Both, check: Check::Br13 },
        Rule { id: "BR-14", severity: Severity::Fatal, text: "An Invoice shall have the Invoice total amount with VAT (BT-112).", source: Source::Both, check: Check::Br14 },
        Rule { id: "BR-15", severity: Severity::Fatal, text: "An Invoice shall have the Amount due for payment (BT-115).", source: Source::Both, check: Check::Br15 },
        Rule { id: "BR-19", severity: Severity::Fatal, text: "The Seller tax representative postal address (BG-12) shall be provided if BG-11 is used.", source: Source::Both, check: Check::Br19 },
        Rule { id: "BR-31", severity: Severity::Fatal, text: "Each Document level allowance (BG-20) shall have a Document level allowance amount (BT-92).", source: Source::Both, check: Check::Br31 },
        Rule { id: "BR-32", severity: Severity::Fatal, text: "Each Document level allowance (BG-20) shall have a VAT category code (BT-95).", source: Source::Both, check: Check::Br32 },
    ]
}

/// General EN 16931 and crate rules. (part 3)
fn general_rules_3() -> (v: Vec<Rule>)
    ensures
        v@ == general_rules_3_spec(),
{
    let mut v: Vec<Rule> = Vec::new();
    v.push(Rule { id: "BR-64", severity: Severity::Fatal, text: "Item standard identifier (BT-157) shall have a scheme.", source: Source::Both, check: Check::Br64 });
    v.push(Rule { id: "BR-65", severity: Severity::Fatal, text: "Item classification identifier (BT-158) shall have a scheme (listID).", source: Source::Both, check: Check::Br65 });
    v.push(Rule { id: "BR-CO-09", severity: Severity::Fatal, text: "VAT identifiers shall have an ISO 3166-1 alpha-2 prefix (Greece EL). Not PINT-MY TIN.", source: Source::Both, check: Check::BrCo09 });
    v.push(Rule { id: "BR-CO-19", severity: Severity::Fatal, text: "If invoicing period (BG-14) is used, start or end shall be present.", source: Source::Both, check: Check::BrCo19 });
    v.push(Rule { id: "BR-CO-20", severity: Severity::Fatal, text: "If invoice line period (BG-26) is used, start or end shall be present.", source: Source::Both, check: Check::BrCo20 });
    v.push(Rule { id: "BR-CO-21", severity: Severity::Fatal, text: "Document level allowance shall have a reason or reason code.", source: Source::Both, check: Check::BrCo21 });
    v.push(Rule { id: "BR-CO-22", severity: Severity::Fatal, text: "Document level charge shall have a reason or reason code.", source: Source::Both, check: Check::BrCo22 });
    v.push(Rule { id: "BR-CO-23", severity: Severity::Fatal, text: "Invoice line allowance shall have a reason or reason code.", source: Source::Both, check: Check::BrCo23 });
    v.push(Rule { id: "BR-CO-24", severity: Severity::Fatal, text: "Invoice line charge shall have a reason or reason code.", source: Source::Both, check: Check::BrCo24 });
    v.push(Rule { id: "BR-12", severity: Severity::Fatal, text: "An Invoice shall have the Sum of Invoice line net amount (BT-106).", source: Source::Both, check: Check::Br12 });
    v.push(Rule { id: "BR-13", severity: Severity::Fatal, text: "An Invoice shall have the Invoice total amount without VAT (BT-109).", source: Source::Both, check: Check::Br13 });
    v.push(Rule { id: "BR-14", severity: Severity::Fatal, text: "An Invoice shall have the Invoice total amount with VAT (BT-112).", source: Source::Both, check: Check::Br14 });
    v.push(Rule { id: "BR-15", severity: Severity::Fatal, text: "An Invoice shall have the Amount due for payment (BT-115).", source: Source::Both, check: Check::Br15 });
    v.push(Rule { id: "BR-19", severity: Severity::Fatal, text: "The Seller tax representative postal address (BG-12) shall be provided if BG-11 is used.", source: Source::Both, check: Check::Br19 });
    v.push(Rule { id: "BR-31", severity: Severity::Fatal, text: "Each Document level allowance (BG-20) shall have a Document level allowance amount (BT-92).", source: Source::Both, check: Check::Br31 });
    v.push(Rule { id: "BR-32", severity: Severity::Fatal, text: "Each Document level allowance (BG-20) shall have a VAT category code (BT-95).", source: Source::Both, check: Check::Br32 });
    proof { reveal(general_rules_3_spec); }
    assert(v@ =~= general_rules_3_spec());
    v
}

/// General EN 16931 and crate rules. (part 4)
#[verifier::opaque]
pub open spec fn general_rules_4_spec() -> Seq<Rule> {
    seq![
        Rule { id: "BR-33", severity: Severity::Fatal, text: "Each Document level allowance (BG-20) shall have a reason (BT-97) or reason code (BT-98).", source: Source::Both, check: Check::Br33 },
        Rule { id: "BR-36", severity: Severity::Fatal, text: "Each Document level charge (BG-21) shall have a Document level charge amount (BT-99).", source: Source::Both, check: Check::Br36 },
        Rule { id: "BR-37", severity: Severity::Fatal, text: "Each Document level charge (BG-21) shall have a VAT category code (BT-102).", source: Source::Both, check: Check::Br37 },
        Rule { id: "BR-38", severity: Severity::Fatal, text: "Each Document level charge (BG-21) shall have a reason (BT-104) or reason code (BT-105).", source: Source::Both, check: Check::Br38 },
        Rule { id: "BR-41", severity: Severity::Fatal, text: "Each Invoice line allowance (BG-27) shall have an Invoice line allowance amount (BT-136).", source: Source::Both, check: Check::Br41 },
        Rule { id: "BR-42", severity: Severity::Fatal, text: "Each Invoice line allowance (BG-27) shall have a reason or reason code.", source: Source::Both, check: Check::Br42 },
        Rule { id: "BR-43", severity: Severity::Fatal, text: "Each Invoice line charge (BG-28) shall have an Invoice line charge amount (BT-141).", source: Source::Both, check: Check::Br43 },
        Rule { id: "BR-44", severity: Severity::Fatal, text: "Each Invoice line charge shall have a reason or reason code.", source: Source::Both, check: Check::Br44 },
        Rule { id: "BR-45", severity: Severity::Fatal, text: "Each VAT breakdown (BG-23) shall have a VAT category taxable amount (BT-116).", source: Source::Both, check: Check::Br45 },
        Rule { id: "BR-46", severity: Severity::Fatal, text: "Each VAT breakdown (BG-23) shall have a VAT category tax amount (BT-117).", source: Source::Both, check: Check::Br46 },
        Rule { id: "BR-47", severity: Severity::Fatal, text: "Each VAT breakdown (BG-23) shall be defined through a VAT category code (BT-118).", source: Source::Both, check: Check::Br47 },
        Rule { id: "BR-48", severity: Severity::Fatal, text: "Each VAT breakdown (BG-23) shall have a VAT category rate (BT-119), except if not subject to VAT.", source: Source::Both, check: Check::Br48 },
        Rule { id: "BR-49", severity: Severity::Fatal, text: "A Payment instruction (BG-16) shall specify the Payment means type code (BT-81).", source: Source::Both, check: Check::Br49 },
        Rule { id: "BR-50", severity: Severity::Fatal, text: "A Payment account identifier (BT-84) shall be present if Credit transfer (BG-17) is used.", source: Source::Both, check: Check::Br50 },
        Rule { id: "BR-61", severity: Severity::Fatal, text: "If BT-81 is 30 or 58, the Payment account identifier (BT-84) shall be present.", source: Source::Both, check: Check::Br61 },
        Rule { id: "BR-CO-26", severity: Severity::Fatal, text: "Seller identifier (BT-29), legal registration (BT-30) and/or VAT identifier (BT-31) shall be present.", source: Source::Both, check: Check::BrCo26 },
    ]
}

/// General EN 16931 and crate rules. (part 4)
fn general_rules_4() -> (v: Vec<Rule>)
    ensures
        v@ == general_rules_4_spec(),
{
    let mut v: Vec<Rule> = Vec::new();
    v.push(Rule { id: "BR-33", severity: Severity::Fatal, text: "Each Document level allowance (BG-20) shall have a reason (BT-97) or reason code (BT-98).", source: Source::Both, check: Check::Br33 });
    v.push(Rule { id: "BR-36", severity: Severity::Fatal, text: "Each Document level charge (BG-21) shall have a Document level charge amount (BT-99).", source: Source::Both, check: Check::Br36 });
    v.push(Rule { id: "BR-37", severity: Severity::Fatal, text: "Each Document level charge (BG-21) shall have a VAT category code (BT-102).", source: Source::Both, check: Check::Br37 });
    v.push(Rule { id: "BR-38", severity: Severity::Fatal, text: "Each Document level charge (BG-21) shall have a reason (BT-104) or reason code (BT-105).", source: Source::Both, check: Check::Br38 });
    v.push(Rule { id: "BR-41", severity: Severity::Fatal, text: "Each Invoice line allowance (BG-27) shall have an Invoice line allowance amount (BT-136).", source: Source::Both, check: Check::Br41 });
    v.push(Rule { id: "BR-42", severity: Severity::Fatal, text: "Each Invoice line allowance (BG-27) shall have a reason or reason code.", source: Source::Both, check: Check::Br42 });
    v.push(Rule { id: "BR-43", severity: Severity::Fatal, text: "Each Invoice line charge (BG-28) shall have an Invoice line charge amount (BT-141).", source: Source::Both, check: Check::Br43 });
    v.push(Rule { id: "BR-44", severity: Severity::Fatal, text: "Each Invoice line charge shall have a reason or reason code.", source: Source::Both, check: Check::Br44 });
    v.push(Rule { id: "BR-45", severity: Severity::Fatal, text: "Each VAT breakdown (BG-23) shall have a VAT category taxable amount (BT-116).", source: Source::Both, check: Check::Br45 });
    v.push(Rule { id: "BR-46", severity: Severity::Fatal, text: "Each VAT breakdown (BG-23) shall have a VAT category tax amount (BT-117).", source: Source::Both, check: Check::Br46 });
    v.push(Rule { id: "BR-47", severity: Severity::Fatal, text: "Each VAT breakdown (BG-23) shall be defined through a VAT category code (BT-118).", source: Source::Both, check: Check::Br47 });
    v.push(Rule { id: "BR-48", severity: Severity::Fatal, text: "Each VAT breakdown (BG-23) shall have a VAT category rate (BT-119), except if not subject to VAT.", source: Source::Both, check: Check::Br48 });
    v.push(Rule { id: "BR-49", severity: Severity::Fatal, text: "A Payment instruction (BG-16) shall specify the Payment means type code (BT-81).", source: Source::Both, check: Check::Br49 });
    v.push(Rule { id: "BR-50", severity: Severity::Fatal, text: "A Payment account identifier (BT-84) shall be present if Credit transfer (BG-17) is used.", source: Source::Both, check: Check::Br50 });
    v.push(Rule { id: "BR-61", severity: Severity::Fatal, text: "If BT-81 is 30 or 58, the Payment account identifier (BT-84) shall be present.", source: Source::Both, check: Check::Br61 });
    v.push(Rule { id: "BR-CO-26", severity: Severity::Fatal, text: "Seller identifier (BT-29), legal registration (BT-30) and/or VAT identifier (BT-31) shall be present.", source: Source::Both, check: Check::BrCo26 });
    proof { reveal(general_rules_4_spec); }
    assert(v@ =~= general_rules_4_spec());
    v
}

/// General EN 16931 and crate rules. (part 5)
#[verifier::opaque]
pub open spec fn general_rules_5_spec() -> Seq<Rule> {
    seq![
        Rule { id: "BR-CO-03", severity: Severity::Fatal, text: "Value added tax point date (BT-7) and Value added tax point date code (BT-8) are mutually exclusive.", source: Source::Both, check: Check::BrCo03 },
        Rule { id: "BR-CO-05", severity: Severity::Fatal, text: "Document level allowance reason code and reason shall indicate the same type of allowance. Artefact test is true() (NLP).", source: Source::ArtefactOnly, check: Check::BrCoNlp },
        Rule { id: "BR-CO-06", severity: Severity::Fatal, text: "Document level charge reason code and reason shall indicate the same type of charge. Artefact test is true() (NLP).", source: Source::ArtefactOnly, check: Check::BrCoNlp },
        Rule { id: "BR-CO-07", severity: Severity::Fatal, text: "Invoice line allowance reason code and reason shall indicate the same type. Artefact test is true() (NLP).", source: Source::ArtefactOnly, check: Check::BrCoNlp },
        Rule { id: "BR-CO-08", severity: Severity::Fatal, text: "Invoice line charge reason code and reason shall indicate the same type. Artefact test is true() (NLP).", source: Source::ArtefactOnly, check: Check::BrCoNlp },
        Rule { id: "BR-05", severity: Severity::Fatal, text: "Invoice currency code (BT-5) shall be present.", source: Source::Both, check: Check::Br05 },
        Rule { id: "BR-53", severity: Severity::Fatal, text: "If BT-6 is present, a TaxAmount in that currency shall exist (BT-110 when BT-6=BT-5, else BT-111). Never derived.", source: Source::Both, check: Check::Br53 },
        Rule { id: "BR-06", severity: Severity::Fatal, text: "Seller name (BT-27) shall be present.", source: Source::Both, check: Check::Br06 },
        Rule { id: "BR-07", severity: Severity::Fatal, text: "Buyer name (BT-44) shall be present.", source: Source::Both, check: Check::Br07 },
        Rule { id: "BR-16", severity: Severity::Fatal, text: "An Invoice shall have at least one Invoice line (BG-25).", source: Source::Both, check: Check::Br16 },
        Rule { id: "BR-CO-04", severity: Severity::Fatal, text: "Each Invoice line shall have an Invoiced item VAT category code (BT-151).", source: Source::Both, check: Check::BrCo04 },
        Rule { id: "BR-CO-10", severity: Severity::Fatal, text: "Sum of Invoice line net amount (BT-106) = Σ Invoice line net amount (BT-131).", source: Source::Both, check: Check::BrCo10 },
        Rule { id: "BR-CO-11", severity: Severity::Fatal, text: "Sum of allowances on document level (BT-107) = Σ Document level allowance amount (BT-92). Present 0 with no BG-20 is valid (empty sum).", source: Source::Both, check: Check::BrCo11 },
        Rule { id: "BR-CO-12", severity: Severity::Fatal, text: "Sum of charges on document level (BT-108) = Σ Document level charge amount (BT-99). Present 0 with no BG-21 is valid (empty sum).", source: Source::Both, check: Check::BrCo12 },
        Rule { id: "BR-CO-13", severity: Severity::Fatal, text: "Invoice total amount without VAT (BT-109) = BT-106 − BT-107 + BT-108 (four presence branches; absent ≠ 0).", source: Source::Both, check: Check::BrCo13 },
        Rule { id: "BR-CO-14", severity: Severity::Fatal, text: "Invoice total tax amount (BT-110) = Σ tax category tax amount (BT-117). Exact. PINT IBR-CO-14 sums every IBG-23 row, including TTX/AAL.", source: Source::Both, check: Check::BrCo14 },
    ]
}

/// General EN 16931 and crate rules. (part 5)
fn general_rules_5() -> (v: Vec<Rule>)
    ensures
        v@ == general_rules_5_spec(),
{
    let mut v: Vec<Rule> = Vec::new();
    v.push(Rule { id: "BR-CO-03", severity: Severity::Fatal, text: "Value added tax point date (BT-7) and Value added tax point date code (BT-8) are mutually exclusive.", source: Source::Both, check: Check::BrCo03 });
    v.push(Rule { id: "BR-CO-05", severity: Severity::Fatal, text: "Document level allowance reason code and reason shall indicate the same type of allowance. Artefact test is true() (NLP).", source: Source::ArtefactOnly, check: Check::BrCoNlp });
    v.push(Rule { id: "BR-CO-06", severity: Severity::Fatal, text: "Document level charge reason code and reason shall indicate the same type of charge. Artefact test is true() (NLP).", source: Source::ArtefactOnly, check: Check::BrCoNlp });
    v.push(Rule { id: "BR-CO-07", severity: Severity::Fatal, text: "Invoice line allowance reason code and reason shall indicate the same type. Artefact test is true() (NLP).", source: Source::ArtefactOnly, check: Check::BrCoNlp });
    v.push(Rule { id: "BR-CO-08", severity: Severity::Fatal, text: "Invoice line charge reason code and reason shall indicate the same type. Artefact test is true() (NLP).", source: Source::ArtefactOnly, check: Check::BrCoNlp });
    v.push(Rule { id: "BR-05", severity: Severity::Fatal, text: "Invoice currency code (BT-5) shall be present.", source: Source::Both, check: Check::Br05 });
    v.push(Rule { id: "BR-53", severity: Severity::Fatal, text: "If BT-6 is present, a TaxAmount in that currency shall exist (BT-110 when BT-6=BT-5, else BT-111). Never derived.", source: Source::Both, check: Check::Br53 });
    v.push(Rule { id: "BR-06", severity: Severity::Fatal, text: "Seller name (BT-27) shall be present.", source: Source::Both, check: Check::Br06 });
    v.push(Rule { id: "BR-07", severity: Severity::Fatal, text: "Buyer name (BT-44) shall be present.", source: Source::Both, check: Check::Br07 });
    v.push(Rule { id: "BR-16", severity: Severity::Fatal, text: "An Invoice shall have at least one Invoice line (BG-25).", source: Source::Both, check: Check::Br16 });
    v.push(Rule { id: "BR-CO-04", severity: Severity::Fatal, text: "Each Invoice line shall have an Invoiced item VAT category code (BT-151).", source: Source::Both, check: Check::BrCo04 });
    v.push(Rule { id: "BR-CO-10", severity: Severity::Fatal, text: "Sum of Invoice line net amount (BT-106) = Σ Invoice line net amount (BT-131).", source: Source::Both, check: Check::BrCo10 });
    v.push(Rule { id: "BR-CO-11", severity: Severity::Fatal, text: "Sum of allowances on document level (BT-107) = Σ Document level allowance amount (BT-92). Present 0 with no BG-20 is valid (empty sum).", source: Source::Both, check: Check::BrCo11 });
    v.push(Rule { id: "BR-CO-12", severity: Severity::Fatal, text: "Sum of charges on document level (BT-108) = Σ Document level charge amount (BT-99). Present 0 with no BG-21 is valid (empty sum).", source: Source::Both, check: Check::BrCo12 });
    v.push(Rule { id: "BR-CO-13", severity: Severity::Fatal, text: "Invoice total amount without VAT (BT-109) = BT-106 − BT-107 + BT-108 (four presence branches; absent ≠ 0).", source: Source::Both, check: Check::BrCo13 });
    v.push(Rule { id: "BR-CO-14", severity: Severity::Fatal, text: "Invoice total tax amount (BT-110) = Σ tax category tax amount (BT-117). Exact. PINT IBR-CO-14 sums every IBG-23 row, including TTX/AAL.", source: Source::Both, check: Check::BrCo14 });
    proof { reveal(general_rules_5_spec); }
    assert(v@ =~= general_rules_5_spec());
    v
}

/// General EN 16931 and crate rules. (part 6)
#[verifier::opaque]
pub open spec fn general_rules_6_spec() -> Seq<Rule> {
    seq![
        Rule { id: "BR-CO-15", severity: Severity::Fatal, text: "Invoice total amount with VAT (BT-112) = BT-109 + BT-110.", source: Source::Both, check: Check::BrCo15 },
        Rule { id: "BR-CO-16", severity: Severity::Fatal, text: "Amount due for payment (BT-115) = Invoice total amount with VAT (BT-112) − Paid amount (BT-113) + Rounding amount (BT-114).", source: Source::Both, check: Check::BrCo16 },
        Rule { id: "BR-CO-17", severity: Severity::Fatal, text: "VAT category tax amount (BT-117) = VAT category taxable amount (BT-116) × (VAT category rate (BT-119) / 100), rounded to two decimals. Artefact slack ±1.00 exclusive on abs; zero-rate branch has no slack.", source: Source::Both, check: Check::BrCo17 },
        Rule { id: "PINT-TAX", severity: Severity::Fatal, text: "Tax system on a line must be allowed by the profile. EN 16931 / Peppol BIS 3.0: VAT only. PINT: VAT, GST, SST, consumption. PINT-MY: SST only.", source: Source::Crate, check: Check::PintTax },
        Rule { id: "IBR-02-MY", severity: Severity::Fatal, text: "Seller legal registration identifier (BRN / IBT-030) shall be present.", source: Source::Crate, check: Check::Ibr02My },
        Rule { id: "IBR-03-MY", severity: Severity::Fatal, text: "Buyer legal registration identifier (BRN / IBT-047) shall be present.", source: Source::Crate, check: Check::Ibr03My },
        Rule { id: "IBR-04-MY", severity: Severity::Fatal, text: "Seller TIN (IBT-032) shall be present.", source: Source::Crate, check: Check::Ibr04My },
        Rule { id: "IBR-CL-05-MY", severity: Severity::Fatal, text: "If tax accounting currency (IBT-006 / BT-6) is present, it shall be MYR. Invoice currency (BT-5) is not forced to MYR.", source: Source::Crate, check: Check::IbrCl05My },
        Rule { id: "ALIGNED-IBRP-CL-01-MY", severity: Severity::Fatal, text: "Malaysian invoice tax categories shall be SA, SE, HVG, LVG, TTX, E or O.", source: Source::Crate, check: Check::AlignedIbrpCl01My },
    ]
}

/// General EN 16931 and crate rules. (part 6)
fn general_rules_6() -> (v: Vec<Rule>)
    ensures
        v@ == general_rules_6_spec(),
{
    let mut v: Vec<Rule> = Vec::new();
    v.push(Rule { id: "BR-CO-15", severity: Severity::Fatal, text: "Invoice total amount with VAT (BT-112) = BT-109 + BT-110.", source: Source::Both, check: Check::BrCo15 });
    v.push(Rule { id: "BR-CO-16", severity: Severity::Fatal, text: "Amount due for payment (BT-115) = Invoice total amount with VAT (BT-112) − Paid amount (BT-113) + Rounding amount (BT-114).", source: Source::Both, check: Check::BrCo16 });
    v.push(Rule { id: "BR-CO-17", severity: Severity::Fatal, text: "VAT category tax amount (BT-117) = VAT category taxable amount (BT-116) × (VAT category rate (BT-119) / 100), rounded to two decimals. Artefact slack ±1.00 exclusive on abs; zero-rate branch has no slack.", source: Source::Both, check: Check::BrCo17 });
    v.push(Rule { id: "PINT-TAX", severity: Severity::Fatal, text: "Tax system on a line must be allowed by the profile. EN 16931 / Peppol BIS 3.0: VAT only. PINT: VAT, GST, SST, consumption. PINT-MY: SST only.", source: Source::Crate, check: Check::PintTax });
    v.push(Rule { id: "IBR-02-MY", severity: Severity::Fatal, text: "Seller legal registration identifier (BRN / IBT-030) shall be present.", source: Source::Crate, check: Check::Ibr02My });
    v.push(Rule { id: "IBR-03-MY", severity: Severity::Fatal, text: "Buyer legal registration identifier (BRN / IBT-047) shall be present.", source: Source::Crate, check: Check::Ibr03My });
    v.push(Rule { id: "IBR-04-MY", severity: Severity::Fatal, text: "Seller TIN (IBT-032) shall be present.", source: Source::Crate, check: Check::Ibr04My });
    v.push(Rule { id: "IBR-CL-05-MY", severity: Severity::Fatal, text: "If tax accounting currency (IBT-006 / BT-6) is present, it shall be MYR. Invoice currency (BT-5) is not forced to MYR.", source: Source::Crate, check: Check::IbrCl05My });
    v.push(Rule { id: "ALIGNED-IBRP-CL-01-MY", severity: Severity::Fatal, text: "Malaysian invoice tax categories shall be SA, SE, HVG, LVG, TTX, E or O.", source: Source::Crate, check: Check::AlignedIbrpCl01My });
    proof { reveal(general_rules_6_spec); }
    assert(v@ =~= general_rules_6_spec());
    v
}

/// General EN 16931 and crate rules.
pub open spec fn general_rules_spec() -> Seq<Rule> {
    general_rules_1_spec() + general_rules_2_spec() + general_rules_3_spec() + general_rules_4_spec() + general_rules_5_spec() + general_rules_6_spec()
}

/// General EN 16931 and crate rules.
pub fn general_rules() -> (v: Vec<Rule>)
    ensures
        v@ == general_rules_spec(),
{
    let mut v = general_rules_1();
    let mut w = general_rules_2();
    v.append(&mut w);
    let mut w = general_rules_3();
    v.append(&mut w);
    let mut w = general_rules_4();
    v.append(&mut w);
    let mut w = general_rules_5();
    v.append(&mut w);
    let mut w = general_rules_6();
    v.append(&mut w);
    v
}

/// Tax category family rules. (part 1)
#[verifier::opaque]
pub open spec fn category_rules_1_spec() -> Seq<Rule> {
    seq![
        Rule { id: "BR-CO-18", severity: Severity::Fatal, text: "An Invoice shall at least have one tax breakdown group (BG-23).", source: Source::Both, check: Check::BrCo18 },
        Rule { id: "BR-S-01", severity: Severity::Fatal, text: "Standard VAT: at least one BG-23 group per used rate.", source: Source::Both, check: Check::BrS01 },
        Rule { id: "BR-S-02", severity: Severity::Fatal, text: "Standard VAT: seller tax identifier (BT-31, BT-32 or BT-63).", source: Source::Both, check: Check::BrS02 },
        Rule { id: "BR-S-03", severity: Severity::Fatal, text: "Standard VAT: identifier requirement on document allowance.", source: Source::Both, check: Check::BrS03 },
        Rule { id: "BR-S-04", severity: Severity::Fatal, text: "Standard VAT: identifier requirement on document charge.", source: Source::Both, check: Check::BrS04 },
        Rule { id: "BR-S-05", severity: Severity::Fatal, text: "Standard VAT: line rate (BT-152) greater than zero.", source: Source::Both, check: Check::BrS05 },
        Rule { id: "BR-S-06", severity: Severity::Fatal, text: "Standard VAT: allowance rate greater than zero.", source: Source::Both, check: Check::BrS06 },
        Rule { id: "BR-S-07", severity: Severity::Fatal, text: "Standard VAT: charge rate greater than zero.", source: Source::Both, check: Check::BrS07 },
        Rule { id: "BR-S-08", severity: Severity::Fatal, text: "Standard VAT: BT-116 = Σ line net + charges − allowances in the group (±1.00 signed).", source: Source::Both, check: Check::BrS08 },
        Rule { id: "BR-S-09", severity: Severity::Fatal, text: "Standard VAT: BT-117 derived from BT-116 × rate (±1.00 abs).", source: Source::Both, check: Check::BrS09 },
        Rule { id: "BR-S-10", severity: Severity::Fatal, text: "Standard VAT: exemption reason forbidden.", source: Source::Both, check: Check::BrS10 },
        Rule { id: "BR-Z-01", severity: Severity::Fatal, text: "Zero-rated VAT: exactly one BG-23 group.", source: Source::Both, check: Check::BrZ01 },
        Rule { id: "BR-Z-02", severity: Severity::Fatal, text: "Zero-rated VAT: seller tax identifier.", source: Source::Both, check: Check::BrZ02 },
        Rule { id: "BR-Z-03", severity: Severity::Fatal, text: "Zero-rated VAT: identifier on document allowance.", source: Source::Both, check: Check::BrZ03 },
        Rule { id: "BR-Z-04", severity: Severity::Fatal, text: "Zero-rated VAT: identifier on document charge.", source: Source::Both, check: Check::BrZ04 },
        Rule { id: "BR-Z-05", severity: Severity::Fatal, text: "Zero-rated VAT: rate = 0.", source: Source::Both, check: Check::BrZ05 },
    ]
}

/// Tax category family rules. (part 1)
fn category_rules_1() -> (v: Vec<Rule>)
    ensures
        v@ == category_rules_1_spec(),
{
    let mut v: Vec<Rule> = Vec::new();
    v.push(Rule { id: "BR-CO-18", severity: Severity::Fatal, text: "An Invoice shall at least have one tax breakdown group (BG-23).", source: Source::Both, check: Check::BrCo18 });
    v.push(Rule { id: "BR-S-01", severity: Severity::Fatal, text: "Standard VAT: at least one BG-23 group per used rate.", source: Source::Both, check: Check::BrS01 });
    v.push(Rule { id: "BR-S-02", severity: Severity::Fatal, text: "Standard VAT: seller tax identifier (BT-31, BT-32 or BT-63).", source: Source::Both, check: Check::BrS02 });
    v.push(Rule { id: "BR-S-03", severity: Severity::Fatal, text: "Standard VAT: identifier requirement on document allowance.", source: Source::Both, check: Check::BrS03 });
    v.push(Rule { id: "BR-S-04", severity: Severity::Fatal, text: "Standard VAT: identifier requirement on document charge.", source: Source::Both, check: Check::BrS04 });
    v.push(Rule { id: "BR-S-05", severity: Severity::Fatal, text: "Standard VAT: line rate (BT-152) greater than zero.", source: Source::Both, check: Check::BrS05 });
    v.push(Rule { id: "BR-S-06", severity: Severity::Fatal, text: "Standard VAT: allowance rate greater than zero.", source: Source::Both, check: Check::BrS06 });
    v.push(Rule { id: "BR-S-07", severity: Severity::Fatal, text: "Standard VAT: charge rate greater than zero.", source: Source::Both, check: Check::BrS07 });
    v.push(Rule { id: "BR-S-08", severity: Severity::Fatal, text: "Standard VAT: BT-116 = Σ line net + charges − allowances in the group (±1.00 signed).", source: Source::Both, check: Check::BrS08 });
    v.push(Rule { id: "BR-S-09", severity: Severity::Fatal, text: "Standard VAT: BT-117 derived from BT-116 × rate (±1.00 abs).", source: Source::Both, check: Check::BrS09 });
    v.push(Rule { id: "BR-S-10", severity: Severity::Fatal, text: "Standard VAT: exemption reason forbidden.", source: Source::Both, check: Check::BrS10 });
    v.push(Rule { id: "BR-Z-01", severity: Severity::Fatal, text: "Zero-rated VAT: exactly one BG-23 group.", source: Source::Both, check: Check::BrZ01 });
    v.push(Rule { id: "BR-Z-02", severity: Severity::Fatal, text: "Zero-rated VAT: seller tax identifier.", source: Source::Both, check: Check::BrZ02 });
    v.push(Rule { id: "BR-Z-03", severity: Severity::Fatal, text: "Zero-rated VAT: identifier on document allowance.", source: Source::Both, check: Check::BrZ03 });
    v.push(Rule { id: "BR-Z-04", severity: Severity::Fatal, text: "Zero-rated VAT: identifier on document charge.", source: Source::Both, check: Check::BrZ04 });
    v.push(Rule { id: "BR-Z-05", severity: Severity::Fatal, text: "Zero-rated VAT: rate = 0.", source: Source::Both, check: Check::BrZ05 });
    proof { reveal(category_rules_1_spec); }
    assert(v@ =~= category_rules_1_spec());
    v
}

/// Tax category family rules. (part 2)
#[verifier::opaque]
pub open spec fn category_rules_2_spec() -> Seq<Rule> {
    seq![
        Rule { id: "BR-Z-06", severity: Severity::Fatal, text: "Zero-rated VAT: allowance rate.", source: Source::Both, check: Check::BrZ06 },
        Rule { id: "BR-Z-07", severity: Severity::Fatal, text: "Zero-rated VAT: charge rate.", source: Source::Both, check: Check::BrZ07 },
        Rule { id: "BR-Z-08", severity: Severity::Fatal, text: "Zero-rated VAT: BT-116 group sum.", source: Source::Both, check: Check::BrZ08 },
        Rule { id: "BR-Z-09", severity: Severity::Fatal, text: "Zero-rated VAT: BT-117 = 0.", source: Source::Both, check: Check::BrZ09 },
        Rule { id: "BR-Z-10", severity: Severity::Fatal, text: "Zero-rated VAT: exemption reason forbidden.", source: Source::Both, check: Check::BrZ10 },
        Rule { id: "BR-E-01", severity: Severity::Fatal, text: "Exempt VAT: exactly one BG-23 group.", source: Source::Both, check: Check::BrE01 },
        Rule { id: "BR-E-02", severity: Severity::Fatal, text: "Exempt VAT: seller tax identifier.", source: Source::Both, check: Check::BrE02 },
        Rule { id: "BR-E-03", severity: Severity::Fatal, text: "Exempt VAT: identifier on document allowance.", source: Source::Both, check: Check::BrE03 },
        Rule { id: "BR-E-04", severity: Severity::Fatal, text: "Exempt VAT: identifier on document charge.", source: Source::Both, check: Check::BrE04 },
        Rule { id: "BR-E-05", severity: Severity::Fatal, text: "Exempt VAT: rate = 0.", source: Source::Both, check: Check::BrE05 },
        Rule { id: "BR-E-06", severity: Severity::Fatal, text: "Exempt VAT: allowance rate.", source: Source::Both, check: Check::BrE06 },
        Rule { id: "BR-E-07", severity: Severity::Fatal, text: "Exempt VAT: charge rate.", source: Source::Both, check: Check::BrE07 },
        Rule { id: "BR-E-08", severity: Severity::Fatal, text: "Exempt VAT: BT-116 group sum.", source: Source::Both, check: Check::BrE08 },
        Rule { id: "BR-E-09", severity: Severity::Fatal, text: "Exempt VAT: BT-117 = 0.", source: Source::Both, check: Check::BrE09 },
        Rule { id: "BR-E-10", severity: Severity::Fatal, text: "Exempt VAT: exemption reason required.", source: Source::Both, check: Check::BrE10 },
        Rule { id: "BR-AE-01", severity: Severity::Fatal, text: "Reverse charge: exactly one BG-23 group.", source: Source::Both, check: Check::BrAe01 },
    ]
}

/// Tax category family rules. (part 2)
fn category_rules_2() -> (v: Vec<Rule>)
    ensures
        v@ == category_rules_2_spec(),
{
    let mut v: Vec<Rule> = Vec::new();
    v.push(Rule { id: "BR-Z-06", severity: Severity::Fatal, text: "Zero-rated VAT: allowance rate.", source: Source::Both, check: Check::BrZ06 });
    v.push(Rule { id: "BR-Z-07", severity: Severity::Fatal, text: "Zero-rated VAT: charge rate.", source: Source::Both, check: Check::BrZ07 });
    v.push(Rule { id: "BR-Z-08", severity: Severity::Fatal, text: "Zero-rated VAT: BT-116 group sum.", source: Source::Both, check: Check::BrZ08 });
    v.push(Rule { id: "BR-Z-09", severity: Severity::Fatal, text: "Zero-rated VAT: BT-117 = 0.", source: Source::Both, check: Check::BrZ09 });
    v.push(Rule { id: "BR-Z-10", severity: Severity::Fatal, text: "Zero-rated VAT: exemption reason forbidden.", source: Source::Both, check: Check::BrZ10 });
    v.push(Rule { id: "BR-E-01", severity: Severity::Fatal, text: "Exempt VAT: exactly one BG-23 group.", source: Source::Both, check: Check::BrE01 });
    v.push(Rule { id: "BR-E-02", severity: Severity::Fatal, text: "Exempt VAT: seller tax identifier.", source: Source::Both, check: Check::BrE02 });
    v.push(Rule { id: "BR-E-03", severity: Severity::Fatal, text: "Exempt VAT: identifier on document allowance.", source: Source::Both, check: Check::BrE03 });
    v.push(Rule { id: "BR-E-04", severity: Severity::Fatal, text: "Exempt VAT: identifier on document charge.", source: Source::Both, check: Check::BrE04 });
    v.push(Rule { id: "BR-E-05", severity: Severity::Fatal, text: "Exempt VAT: rate = 0.", source: Source::Both, check: Check::BrE05 });
    v.push(Rule { id: "BR-E-06", severity: Severity::Fatal, text: "Exempt VAT: allowance rate.", source: Source::Both, check: Check::BrE06 });
    v.push(Rule { id: "BR-E-07", severity: Severity::Fatal, text: "Exempt VAT: charge rate.", source: Source::Both, check: Check::BrE07 });
    v.push(Rule { id: "BR-E-08", severity: Severity::Fatal, text: "Exempt VAT: BT-116 group sum.", source: Source::Both, check: Check::BrE08 });
    v.push(Rule { id: "BR-E-09", severity: Severity::Fatal, text: "Exempt VAT: BT-117 = 0.", source: Source::Both, check: Check::BrE09 });
    v.push(Rule { id: "BR-E-10", severity: Severity::Fatal, text: "Exempt VAT: exemption reason required.", source: Source::Both, check: Check::BrE10 });
    v.push(Rule { id: "BR-AE-01", severity: Severity::Fatal, text: "Reverse charge: exactly one BG-23 group.", source: Source::Both, check: Check::BrAe01 });
    proof { reveal(category_rules_2_spec); }
    assert(v@ =~= category_rules_2_spec());
    v
}

/// Tax category family rules. (part 3)
#[verifier::opaque]
pub open spec fn category_rules_3_spec() -> Seq<Rule> {
    seq![
        Rule { id: "BR-AE-02", severity: Severity::Fatal, text: "Reverse charge: seller and buyer identifiers.", source: Source::Both, check: Check::BrAe02 },
        Rule { id: "BR-AE-03", severity: Severity::Fatal, text: "Reverse charge: identifier on document allowance.", source: Source::Both, check: Check::BrAe03 },
        Rule { id: "BR-AE-04", severity: Severity::Fatal, text: "Reverse charge: identifier on document charge.", source: Source::Both, check: Check::BrAe04 },
        Rule { id: "BR-AE-05", severity: Severity::Fatal, text: "Reverse charge: rate = 0.", source: Source::Both, check: Check::BrAe05 },
        Rule { id: "BR-AE-06", severity: Severity::Fatal, text: "Reverse charge: allowance rate.", source: Source::Both, check: Check::BrAe06 },
        Rule { id: "BR-AE-07", severity: Severity::Fatal, text: "Reverse charge: charge rate.", source: Source::Both, check: Check::BrAe07 },
        Rule { id: "BR-AE-08", severity: Severity::Fatal, text: "Reverse charge: BT-116 group sum.", source: Source::Both, check: Check::BrAe08 },
        Rule { id: "BR-AE-09", severity: Severity::Fatal, text: "Reverse charge: BT-117 = 0.", source: Source::Both, check: Check::BrAe09 },
        Rule { id: "BR-AE-10", severity: Severity::Fatal, text: "Reverse charge: exemption reason required.", source: Source::Both, check: Check::BrAe10 },
        Rule { id: "BR-IC-01", severity: Severity::Fatal, text: "Intra-community: exactly one BG-23 group.", source: Source::Both, check: Check::BrIc01 },
        Rule { id: "BR-IC-02", severity: Severity::Fatal, text: "Intra-community: seller VAT and buyer VAT.", source: Source::Both, check: Check::BrIc02 },
        Rule { id: "BR-IC-03", severity: Severity::Fatal, text: "Intra-community: identifier on document allowance.", source: Source::Both, check: Check::BrIc03 },
        Rule { id: "BR-IC-04", severity: Severity::Fatal, text: "Intra-community: identifier on document charge.", source: Source::Both, check: Check::BrIc04 },
        Rule { id: "BR-IC-05", severity: Severity::Fatal, text: "Intra-community: rate = 0.", source: Source::Both, check: Check::BrIc05 },
        Rule { id: "BR-IC-06", severity: Severity::Fatal, text: "Intra-community: allowance rate.", source: Source::Both, check: Check::BrIc06 },
        Rule { id: "BR-IC-07", severity: Severity::Fatal, text: "Intra-community: charge rate.", source: Source::Both, check: Check::BrIc07 },
    ]
}

/// Tax category family rules. (part 3)
fn category_rules_3() -> (v: Vec<Rule>)
    ensures
        v@ == category_rules_3_spec(),
{
    let mut v: Vec<Rule> = Vec::new();
    v.push(Rule { id: "BR-AE-02", severity: Severity::Fatal, text: "Reverse charge: seller and buyer identifiers.", source: Source::Both, check: Check::BrAe02 });
    v.push(Rule { id: "BR-AE-03", severity: Severity::Fatal, text: "Reverse charge: identifier on document allowance.", source: Source::Both, check: Check::BrAe03 });
    v.push(Rule { id: "BR-AE-04", severity: Severity::Fatal, text: "Reverse charge: identifier on document charge.", source: Source::Both, check: Check::BrAe04 });
    v.push(Rule { id: "BR-AE-05", severity: Severity::Fatal, text: "Reverse charge: rate = 0.", source: Source::Both, check: Check::BrAe05 });
    v.push(Rule { id: "BR-AE-06", severity: Severity::Fatal, text: "Reverse charge: allowance rate.", source: Source::Both, check: Check::BrAe06 });
    v.push(Rule { id: "BR-AE-07", severity: Severity::Fatal, text: "Reverse charge: charge rate.", source: Source::Both, check: Check::BrAe07 });
    v.push(Rule { id: "BR-AE-08", severity: Severity::Fatal, text: "Reverse charge: BT-116 group sum.", source: Source::Both, check: Check::BrAe08 });
    v.push(Rule { id: "BR-AE-09", severity: Severity::Fatal, text: "Reverse charge: BT-117 = 0.", source: Source::Both, check: Check::BrAe09 });
    v.push(Rule { id: "BR-AE-10", severity: Severity::Fatal, text: "Reverse charge: exemption reason required.", source: Source::Both, check: Check::BrAe10 });
    v.push(Rule { id: "BR-IC-01", severity: Severity::Fatal, text: "Intra-community: exactly one BG-23 group.", source: Source::Both, check: Check::BrIc01 });
    v.push(Rule { id: "BR-IC-02", severity: Severity::Fatal, text: "Intra-community: seller VAT and buyer VAT.", source: Source::Both, check: Check::BrIc02 });
    v.push(Rule { id: "BR-IC-03", severity: Severity::Fatal, text: "Intra-community: identifier on document allowance.", source: Source::Both, check: Check::BrIc03 });
    v.push(Rule { id: "BR-IC-04", severity: Severity::Fatal, text: "Intra-community: identifier on document charge.", source: Source::Both, check: Check::BrIc04 });
    v.push(Rule { id: "BR-IC-05", severity: Severity::Fatal, text: "Intra-community: rate = 0.", source: Source::Both, check: Check::BrIc05 });
    v.push(Rule { id: "BR-IC-06", severity: Severity::Fatal, text: "Intra-community: allowance rate.", source: Source::Both, check: Check::BrIc06 });
    v.push(Rule { id: "BR-IC-07", severity: Severity::Fatal, text: "Intra-community: charge rate.", source: Source::Both, check: Check::BrIc07 });
    proof { reveal(category_rules_3_spec); }
    assert(v@ =~= category_rules_3_spec());
    v
}

/// Tax category family rules. (part 4)
#[verifier::opaque]
pub open spec fn category_rules_4_spec() -> Seq<Rule> {
    seq![
        Rule { id: "BR-IC-11", severity: Severity::Fatal, text: "Intra-community: actual delivery date (BT-72) or invoicing period (BG-14).", source: Source::Both, check: Check::BrIc11 },
        Rule { id: "BR-IC-12", severity: Severity::Fatal, text: "Intra-community: deliver-to country (BT-80).", source: Source::Both, check: Check::BrIc12 },
        Rule { id: "BR-IC-08", severity: Severity::Fatal, text: "Intra-community: BT-116 group sum.", source: Source::Both, check: Check::BrIc08 },
        Rule { id: "BR-IC-09", severity: Severity::Fatal, text: "Intra-community: BT-117 = 0.", source: Source::Both, check: Check::BrIc09 },
        Rule { id: "BR-IC-10", severity: Severity::Fatal, text: "Intra-community: exemption reason required.", source: Source::Both, check: Check::BrIc10 },
        Rule { id: "BR-G-01", severity: Severity::Fatal, text: "Export: exactly one BG-23 group.", source: Source::Both, check: Check::BrG01 },
        Rule { id: "BR-G-02", severity: Severity::Fatal, text: "Export: seller VAT identifier (BT-31 or BT-63).", source: Source::Both, check: Check::BrG02 },
        Rule { id: "BR-G-03", severity: Severity::Fatal, text: "Export: identifier on document allowance.", source: Source::Both, check: Check::BrG03 },
        Rule { id: "BR-G-04", severity: Severity::Fatal, text: "Export: identifier on document charge.", source: Source::Both, check: Check::BrG04 },
        Rule { id: "BR-G-05", severity: Severity::Fatal, text: "Export: rate = 0.", source: Source::Both, check: Check::BrG05 },
        Rule { id: "BR-G-06", severity: Severity::Fatal, text: "Export: allowance rate.", source: Source::Both, check: Check::BrG06 },
        Rule { id: "BR-G-07", severity: Severity::Fatal, text: "Export: charge rate.", source: Source::Both, check: Check::BrG07 },
        Rule { id: "BR-G-08", severity: Severity::Fatal, text: "Export: BT-116 group sum.", source: Source::Both, check: Check::BrG08 },
        Rule { id: "BR-G-09", severity: Severity::Fatal, text: "Export: BT-117 = 0.", source: Source::Both, check: Check::BrG09 },
        Rule { id: "BR-G-10", severity: Severity::Fatal, text: "Export: exemption reason required.", source: Source::Both, check: Check::BrG10 },
        Rule { id: "BR-O-01", severity: Severity::Fatal, text: "Out of scope: exactly one BG-23 group.", source: Source::Both, check: Check::BrO01 },
    ]
}

/// Tax category family rules. (part 4)
fn category_rules_4() -> (v: Vec<Rule>)
    ensures
        v@ == category_rules_4_spec(),
{
    let mut v: Vec<Rule> = Vec::new();
    v.push(Rule { id: "BR-IC-11", severity: Severity::Fatal, text: "Intra-community: actual delivery date (BT-72) or invoicing period (BG-14).", source: Source::Both, check: Check::BrIc11 });
    v.push(Rule { id: "BR-IC-12", severity: Severity::Fatal, text: "Intra-community: deliver-to country (BT-80).", source: Source::Both, check: Check::BrIc12 });
    v.push(Rule { id: "BR-IC-08", severity: Severity::Fatal, text: "Intra-community: BT-116 group sum.", source: Source::Both, check: Check::BrIc08 });
    v.push(Rule { id: "BR-IC-09", severity: Severity::Fatal, text: "Intra-community: BT-117 = 0.", source: Source::Both, check: Check::BrIc09 });
    v.push(Rule { id: "BR-IC-10", severity: Severity::Fatal, text: "Intra-community: exemption reason required.", source: Source::Both, check: Check::BrIc10 });
    v.push(Rule { id: "BR-G-01", severity: Severity::Fatal, text: "Export: exactly one BG-23 group.", source: Source::Both, check: Check::BrG01 });
    v.push(Rule { id: "BR-G-02", severity: Severity::Fatal, text: "Export: seller VAT identifier (BT-31 or BT-63).", source: Source::Both, check: Check::BrG02 });
    v.push(Rule { id: "BR-G-03", severity: Severity::Fatal, text: "Export: identifier on document allowance.", source: Source::Both, check: Check::BrG03 });
    v.push(Rule { id: "BR-G-04", severity: Severity::Fatal, text: "Export: identifier on document charge.", source: Source::Both, check: Check::BrG04 });
    v.push(Rule { id: "BR-G-05", severity: Severity::Fatal, text: "Export: rate = 0.", source: Source::Both, check: Check::BrG05 });
    v.push(Rule { id: "BR-G-06", severity: Severity::Fatal, text: "Export: allowance rate.", source: Source::Both, check: Check::BrG06 });
    v.push(Rule { id: "BR-G-07", severity: Severity::Fatal, text: "Export: charge rate.", source: Source::Both, check: Check::BrG07 });
    v.push(Rule { id: "BR-G-08", severity: Severity::Fatal, text: "Export: BT-116 group sum.", source: Source::Both, check: Check::BrG08 });
    v.push(Rule { id: "BR-G-09", severity: Severity::Fatal, text: "Export: BT-117 = 0.", source: Source::Both, check: Check::BrG09 });
    v.push(Rule { id: "BR-G-10", severity: Severity::Fatal, text: "Export: exemption reason required.", source: Source::Both, check: Check::BrG10 });
    v.push(Rule { id: "BR-O-01", severity: Severity::Fatal, text: "Out of scope: exactly one BG-23 group.", source: Source::Both, check: Check::BrO01 });
    proof { reveal(category_rules_4_spec); }
    assert(v@ =~= category_rules_4_spec());
    v
}

/// Tax category family rules. (part 5)
#[verifier::opaque]
pub open spec fn category_rules_5_spec() -> Seq<Rule> {
    seq![
        Rule { id: "BR-O-02", severity: Severity::Fatal, text: "Out of scope: VAT identifiers shall not be present.", source: Source::Both, check: Check::BrO02 },
        Rule { id: "BR-O-03", severity: Severity::Fatal, text: "Out of scope: identifier on document allowance.", source: Source::Both, check: Check::BrO03 },
        Rule { id: "BR-O-04", severity: Severity::Fatal, text: "Out of scope: identifier on document charge.", source: Source::Both, check: Check::BrO04 },
        Rule { id: "BR-O-05", severity: Severity::Fatal, text: "Out of scope: rate absent.", source: Source::Both, check: Check::BrO05 },
        Rule { id: "BR-O-06", severity: Severity::Fatal, text: "Out of scope: allowance rate.", source: Source::Both, check: Check::BrO06 },
        Rule { id: "BR-O-07", severity: Severity::Fatal, text: "Out of scope: charge rate.", source: Source::Both, check: Check::BrO07 },
        Rule { id: "BR-O-08", severity: Severity::Fatal, text: "Out of scope: BT-116 group sum.", source: Source::Both, check: Check::BrO08 },
        Rule { id: "BR-O-09", severity: Severity::Fatal, text: "Out of scope: BT-117 = 0.", source: Source::Both, check: Check::BrO09 },
        Rule { id: "BR-O-10", severity: Severity::Fatal, text: "Out of scope: exemption reason required.", source: Source::Both, check: Check::BrO10 },
        Rule { id: "BR-O-11", severity: Severity::Fatal, text: "Out of scope VAT breakdown forbids other BG-23 groups.", source: Source::Both, check: Check::BrO11 },
        Rule { id: "BR-O-12", severity: Severity::Fatal, text: "Out of scope VAT breakdown forbids non-O invoice lines.", source: Source::Both, check: Check::BrO12 },
        Rule { id: "BR-O-13", severity: Severity::Fatal, text: "Out of scope VAT breakdown forbids non-O document allowances.", source: Source::Both, check: Check::BrO13 },
        Rule { id: "BR-O-14", severity: Severity::Fatal, text: "Out of scope VAT breakdown forbids non-O document charges.", source: Source::Both, check: Check::BrO14 },
        Rule { id: "BR-AF-01", severity: Severity::Fatal, text: "IGIC: at least one BG-23 group.", source: Source::Both, check: Check::BrAf01 },
        Rule { id: "BR-AF-02", severity: Severity::Fatal, text: "IGIC: seller tax identifier.", source: Source::Both, check: Check::BrAf02 },
        Rule { id: "BR-AF-03", severity: Severity::Fatal, text: "IGIC: identifier on document allowance.", source: Source::Both, check: Check::BrAf03 },
    ]
}

/// Tax category family rules. (part 5)
fn category_rules_5() -> (v: Vec<Rule>)
    ensures
        v@ == category_rules_5_spec(),
{
    let mut v: Vec<Rule> = Vec::new();
    v.push(Rule { id: "BR-O-02", severity: Severity::Fatal, text: "Out of scope: VAT identifiers shall not be present.", source: Source::Both, check: Check::BrO02 });
    v.push(Rule { id: "BR-O-03", severity: Severity::Fatal, text: "Out of scope: identifier on document allowance.", source: Source::Both, check: Check::BrO03 });
    v.push(Rule { id: "BR-O-04", severity: Severity::Fatal, text: "Out of scope: identifier on document charge.", source: Source::Both, check: Check::BrO04 });
    v.push(Rule { id: "BR-O-05", severity: Severity::Fatal, text: "Out of scope: rate absent.", source: Source::Both, check: Check::BrO05 });
    v.push(Rule { id: "BR-O-06", severity: Severity::Fatal, text: "Out of scope: allowance rate.", source: Source::Both, check: Check::BrO06 });
    v.push(Rule { id: "BR-O-07", severity: Severity::Fatal, text: "Out of scope: charge rate.", source: Source::Both, check: Check::BrO07 });
    v.push(Rule { id: "BR-O-08", severity: Severity::Fatal, text: "Out of scope: BT-116 group sum.", source: Source::Both, check: Check::BrO08 });
    v.push(Rule { id: "BR-O-09", severity: Severity::Fatal, text: "Out of scope: BT-117 = 0.", source: Source::Both, check: Check::BrO09 });
    v.push(Rule { id: "BR-O-10", severity: Severity::Fatal, text: "Out of scope: exemption reason required.", source: Source::Both, check: Check::BrO10 });
    v.push(Rule { id: "BR-O-11", severity: Severity::Fatal, text: "Out of scope VAT breakdown forbids other BG-23 groups.", source: Source::Both, check: Check::BrO11 });
    v.push(Rule { id: "BR-O-12", severity: Severity::Fatal, text: "Out of scope VAT breakdown forbids non-O invoice lines.", source: Source::Both, check: Check::BrO12 });
    v.push(Rule { id: "BR-O-13", severity: Severity::Fatal, text: "Out of scope VAT breakdown forbids non-O document allowances.", source: Source::Both, check: Check::BrO13 });
    v.push(Rule { id: "BR-O-14", severity: Severity::Fatal, text: "Out of scope VAT breakdown forbids non-O document charges.", source: Source::Both, check: Check::BrO14 });
    v.push(Rule { id: "BR-AF-01", severity: Severity::Fatal, text: "IGIC: at least one BG-23 group.", source: Source::Both, check: Check::BrAf01 });
    v.push(Rule { id: "BR-AF-02", severity: Severity::Fatal, text: "IGIC: seller tax identifier.", source: Source::Both, check: Check::BrAf02 });
    v.push(Rule { id: "BR-AF-03", severity: Severity::Fatal, text: "IGIC: identifier on document allowance.", source: Source::Both, check: Check::BrAf03 });
    proof { reveal(category_rules_5_spec); }
    assert(v@ =~= category_rules_5_spec());
    v
}

/// Tax category family rules. (part 6)
#[verifier::opaque]
pub open spec fn category_rules_6_spec() -> Seq<Rule> {
    seq![
        Rule { id: "BR-AF-04", severity: Severity::Fatal, text: "IGIC: identifier on document charge.", source: Source::Both, check: Check::BrAf04 },
        Rule { id: "BR-AF-05", severity: Severity::Fatal, text: "IGIC: rate ≥ 0.", source: Source::Both, check: Check::BrAf05 },
        Rule { id: "BR-AF-06", severity: Severity::Fatal, text: "IGIC: allowance rate.", source: Source::Both, check: Check::BrAf06 },
        Rule { id: "BR-AF-07", severity: Severity::Fatal, text: "IGIC: charge rate.", source: Source::Both, check: Check::BrAf07 },
        Rule { id: "BR-AF-08", severity: Severity::Fatal, text: "IGIC: BT-116 group sum.", source: Source::Both, check: Check::BrAf08 },
        Rule { id: "BR-AF-09", severity: Severity::Fatal, text: "IGIC: derived tax.", source: Source::Both, check: Check::BrAf09 },
        Rule { id: "BR-AF-10", severity: Severity::Fatal, text: "IGIC: exemption reason forbidden.", source: Source::Both, check: Check::BrAf10 },
        Rule { id: "BR-AG-01", severity: Severity::Fatal, text: "IPSI: at least one BG-23 group.", source: Source::Both, check: Check::BrAg01 },
        Rule { id: "BR-AG-02", severity: Severity::Fatal, text: "IPSI: seller tax identifier.", source: Source::Both, check: Check::BrAg02 },
        Rule { id: "BR-AG-03", severity: Severity::Fatal, text: "IPSI: identifier on document allowance.", source: Source::Both, check: Check::BrAg03 },
        Rule { id: "BR-AG-04", severity: Severity::Fatal, text: "IPSI: identifier on document charge.", source: Source::Both, check: Check::BrAg04 },
        Rule { id: "BR-AG-05", severity: Severity::Fatal, text: "IPSI: rate ≥ 0.", source: Source::Both, check: Check::BrAg05 },
        Rule { id: "BR-AG-06", severity: Severity::Fatal, text: "IPSI: allowance rate.", source: Source::Both, check: Check::BrAg06 },
        Rule { id: "BR-AG-07", severity: Severity::Fatal, text: "IPSI: charge rate.", source: Source::Both, check: Check::BrAg07 },
        Rule { id: "BR-AG-08", severity: Severity::Fatal, text: "IPSI: BT-116 group sum.", source: Source::Both, check: Check::BrAg08 },
        Rule { id: "BR-AG-09", severity: Severity::Fatal, text: "IPSI: derived tax.", source: Source::Both, check: Check::BrAg09 },
    ]
}

/// Tax category family rules. (part 6)
fn category_rules_6() -> (v: Vec<Rule>)
    ensures
        v@ == category_rules_6_spec(),
{
    let mut v: Vec<Rule> = Vec::new();
    v.push(Rule { id: "BR-AF-04", severity: Severity::Fatal, text: "IGIC: identifier on document charge.", source: Source::Both, check: Check::BrAf04 });
    v.push(Rule { id: "BR-AF-05", severity: Severity::Fatal, text: "IGIC: rate ≥ 0.", source: Source::Both, check: Check::BrAf05 });
    v.push(Rule { id: "BR-AF-06", severity: Severity::Fatal, text: "IGIC: allowance rate.", source: Source::Both, check: Check::BrAf06 });
    v.push(Rule { id: "BR-AF-07", severity: Severity::Fatal, text: "IGIC: charge rate.", source: Source::Both, check: Check::BrAf07 });
    v.push(Rule { id: "BR-AF-08", severity: Severity::Fatal, text: "IGIC: BT-116 group sum.", source: Source::Both, check: Check::BrAf08 });
    v.push(Rule { id: "BR-AF-09", severity: Severity::Fatal, text: "IGIC: derived tax.", source: Source::Both, check: Check::BrAf09 });
    v.push(Rule { id: "BR-AF-10", severity: Severity::Fatal, text: "IGIC: exemption reason forbidden.", source: Source::Both, check: Check::BrAf10 });
    v.push(Rule { id: "BR-AG-01", severity: Severity::Fatal, text: "IPSI: at least one BG-23 group.", source: Source::Both, check: Check::BrAg01 });
    v.push(Rule { id: "BR-AG-02", severity: Severity::Fatal, text: "IPSI: seller tax identifier.", source: Source::Both, check: Check::BrAg02 });
    v.push(Rule { id: "BR-AG-03", severity: Severity::Fatal, text: "IPSI: identifier on document allowance.", source: Source::Both, check: Check::BrAg03 });
    v.push(Rule { id: "BR-AG-04", severity: Severity::Fatal, text: "IPSI: identifier on document charge.", source: Source::Both, check: Check::BrAg04 });
    v.push(Rule { id: "BR-AG-05", severity: Severity::Fatal, text: "IPSI: rate ≥ 0.", source: Source::Both, check: Check::BrAg05 });
    v.push(Rule { id: "BR-AG-06", severity: Severity::Fatal, text: "IPSI: allowance rate.", source: Source::Both, check: Check::BrAg06 });
    v.push(Rule { id: "BR-AG-07", severity: Severity::Fatal, text: "IPSI: charge rate.", source: Source::Both, check: Check::BrAg07 });
    v.push(Rule { id: "BR-AG-08", severity: Severity::Fatal, text: "IPSI: BT-116 group sum.", source: Source::Both, check: Check::BrAg08 });
    v.push(Rule { id: "BR-AG-09", severity: Severity::Fatal, text: "IPSI: derived tax.", source: Source::Both, check: Check::BrAg09 });
    proof { reveal(category_rules_6_spec); }
    assert(v@ =~= category_rules_6_spec());
    v
}

/// Tax category family rules. (part 7)
#[verifier::opaque]
pub open spec fn category_rules_7_spec() -> Seq<Rule> {
    seq![
        Rule { id: "BR-AG-10", severity: Severity::Fatal, text: "IPSI: exemption reason forbidden.", source: Source::Both, check: Check::BrAg10 },
        Rule { id: "BR-B-01", severity: Severity::Fatal, text: "Split payment (B) shall be a domestic Italian invoice.", source: Source::Both, check: Check::BrB01 },
        Rule { id: "BR-B-02", severity: Severity::Fatal, text: "Split payment cannot coexist with standard rated S.", source: Source::Both, check: Check::CheckBNotWithS },
        Rule { id: "ALIGNED-IBRP-SA-01-MY", severity: Severity::Fatal, text: "PINT-MY SA: at least one IBG-23 group.", source: Source::Crate, check: Check::MySa01 },
        Rule { id: "ALIGNED-IBRP-SA-08-MY", severity: Severity::Fatal, text: "PINT-MY SA: IBT-116 = Σ SA lines.", source: Source::Crate, check: Check::MySa08 },
        Rule { id: "ALIGNED-IBRP-SA-09-MY", severity: Severity::Fatal, text: "PINT-MY SA: IBT-117 = IBT-116 × IBT-119 / 100.", source: Source::Crate, check: Check::MySa09 },
        Rule { id: "ALIGNED-IBRP-SA-10-MY", severity: Severity::Fatal, text: "PINT-MY SA: exemption reason forbidden.", source: Source::Crate, check: Check::MySa10 },
        Rule { id: "ALIGNED-IBRP-SE-01-MY", severity: Severity::Fatal, text: "PINT-MY SE: at least one IBG-23 group.", source: Source::Crate, check: Check::MySe01 },
        Rule { id: "ALIGNED-IBRP-SE-08-MY", severity: Severity::Fatal, text: "PINT-MY SE: IBT-116 = Σ SE lines + charges − allowances.", source: Source::Crate, check: Check::MySe08 },
        Rule { id: "ALIGNED-IBRP-SE-09-MY", severity: Severity::Fatal, text: "PINT-MY SE: tax from rate.", source: Source::Crate, check: Check::MySe09 },
        Rule { id: "ALIGNED-IBRP-SE-10-MY", severity: Severity::Fatal, text: "PINT-MY SE: exemption reason forbidden.", source: Source::Crate, check: Check::MySe10 },
        Rule { id: "ALIGNED-IBRP-HVG-08-MY", severity: Severity::Fatal, text: "PINT-MY HVG: IBT-116 group sum.", source: Source::Crate, check: Check::MyHvg08 },
        Rule { id: "ALIGNED-IBRP-HVG-09-MY", severity: Severity::Fatal, text: "PINT-MY HVG: tax from rate.", source: Source::Crate, check: Check::MyHvg09 },
        Rule { id: "ALIGNED-IBRP-LVG-08-MY", severity: Severity::Fatal, text: "PINT-MY LVG: IBT-116 group sum.", source: Source::Crate, check: Check::MyLvg08 },
        Rule { id: "ALIGNED-IBRP-LVG-09-MY", severity: Severity::Fatal, text: "PINT-MY LVG: tax from rate.", source: Source::Crate, check: Check::MyLvg09 },
        Rule { id: "ALIGNED-IBRP-E-09-MY", severity: Severity::Fatal, text: "PINT-MY E: tax = 0.", source: Source::Crate, check: Check::MyE09 },
    ]
}

/// Tax category family rules. (part 7)
fn category_rules_7() -> (v: Vec<Rule>)
    ensures
        v@ == category_rules_7_spec(),
{
    let mut v: Vec<Rule> = Vec::new();
    v.push(Rule { id: "BR-AG-10", severity: Severity::Fatal, text: "IPSI: exemption reason forbidden.", source: Source::Both, check: Check::BrAg10 });
    v.push(Rule { id: "BR-B-01", severity: Severity::Fatal, text: "Split payment (B) shall be a domestic Italian invoice.", source: Source::Both, check: Check::BrB01 });
    v.push(Rule { id: "BR-B-02", severity: Severity::Fatal, text: "Split payment cannot coexist with standard rated S.", source: Source::Both, check: Check::CheckBNotWithS });
    v.push(Rule { id: "ALIGNED-IBRP-SA-01-MY", severity: Severity::Fatal, text: "PINT-MY SA: at least one IBG-23 group.", source: Source::Crate, check: Check::MySa01 });
    v.push(Rule { id: "ALIGNED-IBRP-SA-08-MY", severity: Severity::Fatal, text: "PINT-MY SA: IBT-116 = Σ SA lines.", source: Source::Crate, check: Check::MySa08 });
    v.push(Rule { id: "ALIGNED-IBRP-SA-09-MY", severity: Severity::Fatal, text: "PINT-MY SA: IBT-117 = IBT-116 × IBT-119 / 100.", source: Source::Crate, check: Check::MySa09 });
    v.push(Rule { id: "ALIGNED-IBRP-SA-10-MY", severity: Severity::Fatal, text: "PINT-MY SA: exemption reason forbidden.", source: Source::Crate, check: Check::MySa10 });
    v.push(Rule { id: "ALIGNED-IBRP-SE-01-MY", severity: Severity::Fatal, text: "PINT-MY SE: at least one IBG-23 group.", source: Source::Crate, check: Check::MySe01 });
    v.push(Rule { id: "ALIGNED-IBRP-SE-08-MY", severity: Severity::Fatal, text: "PINT-MY SE: IBT-116 = Σ SE lines + charges − allowances.", source: Source::Crate, check: Check::MySe08 });
    v.push(Rule { id: "ALIGNED-IBRP-SE-09-MY", severity: Severity::Fatal, text: "PINT-MY SE: tax from rate.", source: Source::Crate, check: Check::MySe09 });
    v.push(Rule { id: "ALIGNED-IBRP-SE-10-MY", severity: Severity::Fatal, text: "PINT-MY SE: exemption reason forbidden.", source: Source::Crate, check: Check::MySe10 });
    v.push(Rule { id: "ALIGNED-IBRP-HVG-08-MY", severity: Severity::Fatal, text: "PINT-MY HVG: IBT-116 group sum.", source: Source::Crate, check: Check::MyHvg08 });
    v.push(Rule { id: "ALIGNED-IBRP-HVG-09-MY", severity: Severity::Fatal, text: "PINT-MY HVG: tax from rate.", source: Source::Crate, check: Check::MyHvg09 });
    v.push(Rule { id: "ALIGNED-IBRP-LVG-08-MY", severity: Severity::Fatal, text: "PINT-MY LVG: IBT-116 group sum.", source: Source::Crate, check: Check::MyLvg08 });
    v.push(Rule { id: "ALIGNED-IBRP-LVG-09-MY", severity: Severity::Fatal, text: "PINT-MY LVG: tax from rate.", source: Source::Crate, check: Check::MyLvg09 });
    v.push(Rule { id: "ALIGNED-IBRP-E-09-MY", severity: Severity::Fatal, text: "PINT-MY E: tax = 0.", source: Source::Crate, check: Check::MyE09 });
    proof { reveal(category_rules_7_spec); }
    assert(v@ =~= category_rules_7_spec());
    v
}

/// Tax category family rules. (part 8)
#[verifier::opaque]
pub open spec fn category_rules_8_spec() -> Seq<Rule> {
    seq![
        Rule { id: "ALIGNED-IBRP-TTX-09-MY", severity: Severity::Fatal, text: "PINT-MY TTX: amount = Σ TTX lines.", source: Source::Crate, check: Check::MyTtx09 },
        Rule { id: "ALIGNED-IBRP-O-11-MY", severity: Severity::Fatal, text: "PINT-MY O is exclusive.", source: Source::Crate, check: Check::CheckMyOExclusive },
        Rule { id: "ALIGNED-IBRP-002", severity: Severity::Fatal, text: "PINT-MY BT-23 must be urn:peppol:bis:billing.", source: Source::Crate, check: Check::My002 },
        Rule { id: "ALIGNED-IBRP-046", severity: Severity::Fatal, text: "Each IBG-23 must have IBT-117.", source: Source::Crate, check: Check::My046 },
        Rule { id: "ALIGNED-IBRP-047", severity: Severity::Fatal, text: "VAT subtotals need a category; AAL subtotals must be TTX.", source: Source::Crate, check: Check::My047 },
        Rule { id: "ALIGNED-IBRP-048", severity: Severity::Fatal, text: "VAT subtotals must have a rate except O; TTX/AAL must not.", source: Source::Crate, check: Check::My048 },
        Rule { id: "ALIGNED-IBRP-HVG-10-MY", severity: Severity::Fatal, text: "PINT-MY HVG: exemption reason forbidden.", source: Source::Crate, check: Check::MyHvg10 },
        Rule { id: "ALIGNED-IBRP-LVG-10-MY", severity: Severity::Fatal, text: "PINT-MY LVG: exemption reason forbidden.", source: Source::Crate, check: Check::MyLvg10 },
        Rule { id: "ALIGNED-IBRP-TTX-08-MY", severity: Severity::Fatal, text: "TTX/AAL MUST NOT include a tax percentage.", source: Source::Crate, check: Check::MyTtx08 },
        Rule { id: "ALIGNED-IBRP-E-05-MY", severity: Severity::Fatal, text: "PINT-MY E line rate MUST be 0.", source: Source::Crate, check: Check::MyE05 },
        Rule { id: "ALIGNED-IBRP-E-08-MY", severity: Severity::Fatal, text: "PINT-MY E: IBT-116 group sum.", source: Source::Crate, check: Check::MyE08 },
        Rule { id: "ALIGNED-IBRP-O-09-MY", severity: Severity::Fatal, text: "PINT-MY O: tax = 0.", source: Source::Crate, check: Check::MyO09 },
    ]
}

/// Tax category family rules. (part 8)
fn category_rules_8() -> (v: Vec<Rule>)
    ensures
        v@ == category_rules_8_spec(),
{
    let mut v: Vec<Rule> = Vec::new();
    v.push(Rule { id: "ALIGNED-IBRP-TTX-09-MY", severity: Severity::Fatal, text: "PINT-MY TTX: amount = Σ TTX lines.", source: Source::Crate, check: Check::MyTtx09 });
    v.push(Rule { id: "ALIGNED-IBRP-O-11-MY", severity: Severity::Fatal, text: "PINT-MY O is exclusive.", source: Source::Crate, check: Check::CheckMyOExclusive });
    v.push(Rule { id: "ALIGNED-IBRP-002", severity: Severity::Fatal, text: "PINT-MY BT-23 must be urn:peppol:bis:billing.", source: Source::Crate, check: Check::My002 });
    v.push(Rule { id: "ALIGNED-IBRP-046", severity: Severity::Fatal, text: "Each IBG-23 must have IBT-117.", source: Source::Crate, check: Check::My046 });
    v.push(Rule { id: "ALIGNED-IBRP-047", severity: Severity::Fatal, text: "VAT subtotals need a category; AAL subtotals must be TTX.", source: Source::Crate, check: Check::My047 });
    v.push(Rule { id: "ALIGNED-IBRP-048", severity: Severity::Fatal, text: "VAT subtotals must have a rate except O; TTX/AAL must not.", source: Source::Crate, check: Check::My048 });
    v.push(Rule { id: "ALIGNED-IBRP-HVG-10-MY", severity: Severity::Fatal, text: "PINT-MY HVG: exemption reason forbidden.", source: Source::Crate, check: Check::MyHvg10 });
    v.push(Rule { id: "ALIGNED-IBRP-LVG-10-MY", severity: Severity::Fatal, text: "PINT-MY LVG: exemption reason forbidden.", source: Source::Crate, check: Check::MyLvg10 });
    v.push(Rule { id: "ALIGNED-IBRP-TTX-08-MY", severity: Severity::Fatal, text: "TTX/AAL MUST NOT include a tax percentage.", source: Source::Crate, check: Check::MyTtx08 });
    v.push(Rule { id: "ALIGNED-IBRP-E-05-MY", severity: Severity::Fatal, text: "PINT-MY E line rate MUST be 0.", source: Source::Crate, check: Check::MyE05 });
    v.push(Rule { id: "ALIGNED-IBRP-E-08-MY", severity: Severity::Fatal, text: "PINT-MY E: IBT-116 group sum.", source: Source::Crate, check: Check::MyE08 });
    v.push(Rule { id: "ALIGNED-IBRP-O-09-MY", severity: Severity::Fatal, text: "PINT-MY O: tax = 0.", source: Source::Crate, check: Check::MyO09 });
    proof { reveal(category_rules_8_spec); }
    assert(v@ =~= category_rules_8_spec());
    v
}

/// Tax category family rules.
pub open spec fn category_rules_spec() -> Seq<Rule> {
    category_rules_1_spec() + category_rules_2_spec() + category_rules_3_spec() + category_rules_4_spec() + category_rules_5_spec() + category_rules_6_spec() + category_rules_7_spec() + category_rules_8_spec()
}

/// Tax category family rules.
pub fn category_rules() -> (v: Vec<Rule>)
    ensures
        v@ == category_rules_spec(),
{
    let mut v = category_rules_1();
    let mut w = category_rules_2();
    v.append(&mut w);
    let mut w = category_rules_3();
    v.append(&mut w);
    let mut w = category_rules_4();
    v.append(&mut w);
    let mut w = category_rules_5();
    v.append(&mut w);
    let mut w = category_rules_6();
    v.append(&mut w);
    let mut w = category_rules_7();
    v.append(&mut w);
    let mut w = category_rules_8();
    v.append(&mut w);
    v
}

/// Code list rules.
#[verifier::opaque]
pub open spec fn code_list_rules_spec() -> Seq<Rule> {
    seq![
        Rule { id: "BR-CL-01", severity: Severity::Fatal, text: "Document type code MUST be coded by the invoice and credit note related code lists of UNTDID 1001.", source: Source::ArtefactOnly, check: Check::BrCl01 },
        Rule { id: "BR-CL-04", severity: Severity::Fatal, text: "Invoice currency code MUST be coded using ISO 4217 alpha-3.", source: Source::ArtefactOnly, check: Check::BrCl04 },
        Rule { id: "BR-CL-05", severity: Severity::Fatal, text: "Tax accounting currency MUST be coded using ISO 4217 alpha-3.", source: Source::ArtefactOnly, check: Check::BrCl05 },
        Rule { id: "BR-CL-14", severity: Severity::Fatal, text: "Country codes MUST be coded using ISO 3166-1 alpha-2.", source: Source::ArtefactOnly, check: Check::BrCl14 },
        Rule { id: "BR-CL-06", severity: Severity::Fatal, text: "VAT point date code (BT-8) MUST be coded using UNCL 2005 (3, 35, 432).", source: Source::ArtefactOnly, check: Check::BrCl06 },
        Rule { id: "BR-CL-13", severity: Severity::Fatal, text: "Item classification scheme (BT-158-1) MUST be coded using UNCL 7143.", source: Source::ArtefactOnly, check: Check::BrCl13 },
        Rule { id: "BR-CL-15", severity: Severity::Fatal, text: "Item origin country (BT-159) MUST be coded using ISO 3166-1 alpha-2.", source: Source::ArtefactOnly, check: Check::BrCl15 },
        Rule { id: "BR-CL-16", severity: Severity::Fatal, text: "Payment means code MUST be coded using UNCL 4461.", source: Source::ArtefactOnly, check: Check::BrCl16 },
        Rule { id: "BR-CL-19", severity: Severity::Fatal, text: "Document allowance reason code MUST be coded using UNCL 5189.", source: Source::ArtefactOnly, check: Check::BrCl19 },
        Rule { id: "BR-CL-20", severity: Severity::Fatal, text: "Document charge reason code MUST be coded using UNCL 7161.", source: Source::ArtefactOnly, check: Check::BrCl20 },
        Rule { id: "BR-CL-17", severity: Severity::Fatal, text: "VAT category code (BT-118) MUST be coded using UNCL 5305 (VAT profiles only).", source: Source::ArtefactOnly, check: Check::BrCl17 },
        Rule { id: "BR-CL-18", severity: Severity::Fatal, text: "Invoiced item VAT category code (BT-151) MUST be coded using UNCL 5305 (VAT profiles only).", source: Source::ArtefactOnly, check: Check::BrCl18 },
        Rule { id: "BR-CL-22", severity: Severity::Fatal, text: "VAT exemption reason code MUST be coded using the VATEX list (case-insensitive).", source: Source::ArtefactOnly, check: Check::BrCl22 },
        Rule { id: "BR-CL-23", severity: Severity::Fatal, text: "Unit codes MUST be coded using UNECE Rec 20 / Rec 21 (subset).", source: Source::ArtefactOnly, check: Check::BrCl23 },
        Rule { id: "BR-CL-24", severity: Severity::Fatal, text: "Attachment mime code MUST be from the allowed MIME list (subset).", source: Source::ArtefactOnly, check: Check::BrCl24 },
        Rule { id: "BR-CL-25", severity: Severity::Fatal, text: "Electronic address scheme MUST be from EAS (subset).", source: Source::ArtefactOnly, check: Check::BrCl25 },
    ]
}

/// Code list rules.
pub fn code_list_rules() -> (v: Vec<Rule>)
    ensures
        v@ == code_list_rules_spec(),
{
    let mut v: Vec<Rule> = Vec::new();
    v.push(Rule { id: "BR-CL-01", severity: Severity::Fatal, text: "Document type code MUST be coded by the invoice and credit note related code lists of UNTDID 1001.", source: Source::ArtefactOnly, check: Check::BrCl01 });
    v.push(Rule { id: "BR-CL-04", severity: Severity::Fatal, text: "Invoice currency code MUST be coded using ISO 4217 alpha-3.", source: Source::ArtefactOnly, check: Check::BrCl04 });
    v.push(Rule { id: "BR-CL-05", severity: Severity::Fatal, text: "Tax accounting currency MUST be coded using ISO 4217 alpha-3.", source: Source::ArtefactOnly, check: Check::BrCl05 });
    v.push(Rule { id: "BR-CL-14", severity: Severity::Fatal, text: "Country codes MUST be coded using ISO 3166-1 alpha-2.", source: Source::ArtefactOnly, check: Check::BrCl14 });
    v.push(Rule { id: "BR-CL-06", severity: Severity::Fatal, text: "VAT point date code (BT-8) MUST be coded using UNCL 2005 (3, 35, 432).", source: Source::ArtefactOnly, check: Check::BrCl06 });
    v.push(Rule { id: "BR-CL-13", severity: Severity::Fatal, text: "Item classification scheme (BT-158-1) MUST be coded using UNCL 7143.", source: Source::ArtefactOnly, check: Check::BrCl13 });
    v.push(Rule { id: "BR-CL-15", severity: Severity::Fatal, text: "Item origin country (BT-159) MUST be coded using ISO 3166-1 alpha-2.", source: Source::ArtefactOnly, check: Check::BrCl15 });
    v.push(Rule { id: "BR-CL-16", severity: Severity::Fatal, text: "Payment means code MUST be coded using UNCL 4461.", source: Source::ArtefactOnly, check: Check::BrCl16 });
    v.push(Rule { id: "BR-CL-19", severity: Severity::Fatal, text: "Document allowance reason code MUST be coded using UNCL 5189.", source: Source::ArtefactOnly, check: Check::BrCl19 });
    v.push(Rule { id: "BR-CL-20", severity: Severity::Fatal, text: "Document charge reason code MUST be coded using UNCL 7161.", source: Source::ArtefactOnly, check: Check::BrCl20 });
    v.push(Rule { id: "BR-CL-17", severity: Severity::Fatal, text: "VAT category code (BT-118) MUST be coded using UNCL 5305 (VAT profiles only).", source: Source::ArtefactOnly, check: Check::BrCl17 });
    v.push(Rule { id: "BR-CL-18", severity: Severity::Fatal, text: "Invoiced item VAT category code (BT-151) MUST be coded using UNCL 5305 (VAT profiles only).", source: Source::ArtefactOnly, check: Check::BrCl18 });
    v.push(Rule { id: "BR-CL-22", severity: Severity::Fatal, text: "VAT exemption reason code MUST be coded using the VATEX list (case-insensitive).", source: Source::ArtefactOnly, check: Check::BrCl22 });
    v.push(Rule { id: "BR-CL-23", severity: Severity::Fatal, text: "Unit codes MUST be coded using UNECE Rec 20 / Rec 21 (subset).", source: Source::ArtefactOnly, check: Check::BrCl23 });
    v.push(Rule { id: "BR-CL-24", severity: Severity::Fatal, text: "Attachment mime code MUST be from the allowed MIME list (subset).", source: Source::ArtefactOnly, check: Check::BrCl24 });
    v.push(Rule { id: "BR-CL-25", severity: Severity::Fatal, text: "Electronic address scheme MUST be from EAS (subset).", source: Source::ArtefactOnly, check: Check::BrCl25 });
    proof { reveal(code_list_rules_spec); }
    assert(v@ =~= code_list_rules_spec());
    v
}

/// Two-decimal rows; their check passes on every invoice. (part 1)
#[verifier::opaque]
pub open spec fn decimal_rules_1_spec() -> Seq<Rule> {
    seq![
        Rule { id: "BR-DEC-01", severity: Severity::Fatal, text: "Document level allowance amount (BT-92) has at most 2 decimals.", source: Source::Both, check: Check::BrDecPass },
        Rule { id: "BR-DEC-02", severity: Severity::Fatal, text: "Document level allowance base amount (BT-93) has at most 2 decimals.", source: Source::Both, check: Check::BrDecPass },
        Rule { id: "BR-DEC-05", severity: Severity::Fatal, text: "Document level charge amount (BT-99) has at most 2 decimals.", source: Source::Both, check: Check::BrDecPass },
        Rule { id: "BR-DEC-06", severity: Severity::Fatal, text: "Document level charge base amount (BT-100) has at most 2 decimals.", source: Source::Both, check: Check::BrDecPass },
        Rule { id: "BR-DEC-09", severity: Severity::Fatal, text: "Sum of invoice line net amount (BT-106) has at most 2 decimals.", source: Source::Both, check: Check::BrDecPass },
        Rule { id: "BR-DEC-10", severity: Severity::Fatal, text: "Sum of allowances on document level (BT-107) has at most 2 decimals.", source: Source::Both, check: Check::BrDecPass },
        Rule { id: "BR-DEC-11", severity: Severity::Fatal, text: "Sum of charges on document level (BT-108) has at most 2 decimals.", source: Source::Both, check: Check::BrDecPass },
        Rule { id: "BR-DEC-12", severity: Severity::Fatal, text: "Invoice total amount without VAT (BT-109) has at most 2 decimals.", source: Source::Both, check: Check::BrDecPass },
        Rule { id: "BR-DEC-13", severity: Severity::Fatal, text: "Invoice total VAT amount (BT-110) has at most 2 decimals.", source: Source::Both, check: Check::BrDecPass },
        Rule { id: "BR-DEC-14", severity: Severity::Fatal, text: "Invoice total amount with VAT (BT-112) has at most 2 decimals.", source: Source::Both, check: Check::BrDecPass },
        Rule { id: "BR-DEC-15", severity: Severity::Fatal, text: "Invoice total VAT amount in accounting currency (BT-111) has at most 2 decimals.", source: Source::Both, check: Check::BrDecPass },
        Rule { id: "BR-DEC-16", severity: Severity::Fatal, text: "Paid amount (BT-113) has at most 2 decimals.", source: Source::Both, check: Check::BrDecPass },
        Rule { id: "BR-DEC-17", severity: Severity::Fatal, text: "Rounding amount (BT-114) has at most 2 decimals.", source: Source::Both, check: Check::BrDecPass },
        Rule { id: "BR-DEC-18", severity: Severity::Fatal, text: "Amount due for payment (BT-115) has at most 2 decimals.", source: Source::Both, check: Check::BrDecPass },
        Rule { id: "BR-DEC-19", severity: Severity::Fatal, text: "VAT category taxable amount (BT-116) has at most 2 decimals.", source: Source::Both, check: Check::BrDecPass },
        Rule { id: "BR-DEC-20", severity: Severity::Fatal, text: "VAT category tax amount (BT-117) has at most 2 decimals.", source: Source::Both, check: Check::BrDecPass },
    ]
}

/// Two-decimal rows; their check passes on every invoice. (part 1)
fn decimal_rules_1() -> (v: Vec<Rule>)
    ensures
        v@ == decimal_rules_1_spec(),
{
    let mut v: Vec<Rule> = Vec::new();
    v.push(Rule { id: "BR-DEC-01", severity: Severity::Fatal, text: "Document level allowance amount (BT-92) has at most 2 decimals.", source: Source::Both, check: Check::BrDecPass });
    v.push(Rule { id: "BR-DEC-02", severity: Severity::Fatal, text: "Document level allowance base amount (BT-93) has at most 2 decimals.", source: Source::Both, check: Check::BrDecPass });
    v.push(Rule { id: "BR-DEC-05", severity: Severity::Fatal, text: "Document level charge amount (BT-99) has at most 2 decimals.", source: Source::Both, check: Check::BrDecPass });
    v.push(Rule { id: "BR-DEC-06", severity: Severity::Fatal, text: "Document level charge base amount (BT-100) has at most 2 decimals.", source: Source::Both, check: Check::BrDecPass });
    v.push(Rule { id: "BR-DEC-09", severity: Severity::Fatal, text: "Sum of invoice line net amount (BT-106) has at most 2 decimals.", source: Source::Both, check: Check::BrDecPass });
    v.push(Rule { id: "BR-DEC-10", severity: Severity::Fatal, text: "Sum of allowances on document level (BT-107) has at most 2 decimals.", source: Source::Both, check: Check::BrDecPass });
    v.push(Rule { id: "BR-DEC-11", severity: Severity::Fatal, text: "Sum of charges on document level (BT-108) has at most 2 decimals.", source: Source::Both, check: Check::BrDecPass });
    v.push(Rule { id: "BR-DEC-12", severity: Severity::Fatal, text: "Invoice total amount without VAT (BT-109) has at most 2 decimals.", source: Source::Both, check: Check::BrDecPass });
    v.push(Rule { id: "BR-DEC-13", severity: Severity::Fatal, text: "Invoice total VAT amount (BT-110) has at most 2 decimals.", source: Source::Both, check: Check::BrDecPass });
    v.push(Rule { id: "BR-DEC-14", severity: Severity::Fatal, text: "Invoice total amount with VAT (BT-112) has at most 2 decimals.", source: Source::Both, check: Check::BrDecPass });
    v.push(Rule { id: "BR-DEC-15", severity: Severity::Fatal, text: "Invoice total VAT amount in accounting currency (BT-111) has at most 2 decimals.", source: Source::Both, check: Check::BrDecPass });
    v.push(Rule { id: "BR-DEC-16", severity: Severity::Fatal, text: "Paid amount (BT-113) has at most 2 decimals.", source: Source::Both, check: Check::BrDecPass });
    v.push(Rule { id: "BR-DEC-17", severity: Severity::Fatal, text: "Rounding amount (BT-114) has at most 2 decimals.", source: Source::Both, check: Check::BrDecPass });
    v.push(Rule { id: "BR-DEC-18", severity: Severity::Fatal, text: "Amount due for payment (BT-115) has at most 2 decimals.", source: Source::Both, check: Check::BrDecPass });
    v.push(Rule { id: "BR-DEC-19", severity: Severity::Fatal, text: "VAT category taxable amount (BT-116) has at most 2 decimals.", source: Source::Both, check: Check::BrDecPass });
    v.push(Rule { id: "BR-DEC-20", severity: Severity::Fatal, text: "VAT category tax amount (BT-117) has at most 2 decimals.", source: Source::Both, check: Check::BrDecPass });
    proof { reveal(decimal_rules_1_spec); }
    assert(v@ =~= decimal_rules_1_spec());
    v
}

/// Two-decimal rows; their check passes on every invoice. (part 2)
#[verifier::opaque]
pub open spec fn decimal_rules_2_spec() -> Seq<Rule> {
    seq![
        Rule { id: "BR-DEC-23", severity: Severity::Fatal, text: "Invoice line net amount (BT-131) has at most 2 decimals.", source: Source::Both, check: Check::BrDecPass },
        Rule { id: "BR-DEC-24", severity: Severity::Fatal, text: "Invoice line allowance amount (BT-136) has at most 2 decimals.", source: Source::Both, check: Check::BrDecPass },
        Rule { id: "BR-DEC-25", severity: Severity::Fatal, text: "Invoice line charge amount (BT-141) has at most 2 decimals.", source: Source::Both, check: Check::BrDecPass },
        Rule { id: "BR-DEC-27", severity: Severity::Fatal, text: "Item net price (BT-146) — Amount.Type is two decimals on InvoiceAmount only; unit price is not this row.", source: Source::Both, check: Check::BrDecPass },
        Rule { id: "BR-DEC-28", severity: Severity::Fatal, text: "Item gross price (BT-148) — Amount.Type is two decimals on InvoiceAmount only.", source: Source::Both, check: Check::BrDecPass },
    ]
}

/// Two-decimal rows; their check passes on every invoice. (part 2)
fn decimal_rules_2() -> (v: Vec<Rule>)
    ensures
        v@ == decimal_rules_2_spec(),
{
    let mut v: Vec<Rule> = Vec::new();
    v.push(Rule { id: "BR-DEC-23", severity: Severity::Fatal, text: "Invoice line net amount (BT-131) has at most 2 decimals.", source: Source::Both, check: Check::BrDecPass });
    v.push(Rule { id: "BR-DEC-24", severity: Severity::Fatal, text: "Invoice line allowance amount (BT-136) has at most 2 decimals.", source: Source::Both, check: Check::BrDecPass });
    v.push(Rule { id: "BR-DEC-25", severity: Severity::Fatal, text: "Invoice line charge amount (BT-141) has at most 2 decimals.", source: Source::Both, check: Check::BrDecPass });
    v.push(Rule { id: "BR-DEC-27", severity: Severity::Fatal, text: "Item net price (BT-146) — Amount.Type is two decimals on InvoiceAmount only; unit price is not this row.", source: Source::Both, check: Check::BrDecPass });
    v.push(Rule { id: "BR-DEC-28", severity: Severity::Fatal, text: "Item gross price (BT-148) — Amount.Type is two decimals on InvoiceAmount only.", source: Source::Both, check: Check::BrDecPass });
    proof { reveal(decimal_rules_2_spec); }
    assert(v@ =~= decimal_rules_2_spec());
    v
}

/// Two-decimal rows; their check passes on every invoice.
pub open spec fn decimal_rules_spec() -> Seq<Rule> {
    decimal_rules_1_spec() + decimal_rules_2_spec()
}

/// Two-decimal rows; their check passes on every invoice.
pub fn decimal_rules() -> (v: Vec<Rule>)
    ensures
        v@ == decimal_rules_spec(),
{
    let mut v = decimal_rules_1();
    let mut w = decimal_rules_2();
    v.append(&mut w);
    v
}

/// Peppol BIS Billing 3.0 extra rules. (part 1)
#[verifier::opaque]
pub open spec fn peppol_rules_1_spec() -> Seq<Rule> {
    seq![
        Rule { id: "PEPPOL-EN16931-R001", severity: Severity::Fatal, text: "BT-23 shall be present.", source: Source::Crate, check: Check::R001 },
        Rule { id: "PEPPOL-EN16931-R007", severity: Severity::Fatal, text: "BT-23 shall match urn:fdc:peppol.eu:2017:poacc:billing:NN:1.0.", source: Source::Crate, check: Check::R007 },
        Rule { id: "PEPPOL-EN16931-R004", severity: Severity::Fatal, text: "BT-24 shall start with the official Peppol BIS Billing 3.0 id.", source: Source::Crate, check: Check::R004 },
        Rule { id: "PEPPOL-EN16931-R003", severity: Severity::Fatal, text: "BT-10 or BT-13 shall be present.", source: Source::Crate, check: Check::R003 },
        Rule { id: "PEPPOL-EN16931-R010", severity: Severity::Fatal, text: "Buyer electronic address MUST be provided.", source: Source::Crate, check: Check::R010 },
        Rule { id: "PEPPOL-EN16931-R020", severity: Severity::Fatal, text: "Seller electronic address MUST be provided.", source: Source::Crate, check: Check::R020 },
        Rule { id: "PEPPOL-EN16931-R005", severity: Severity::Fatal, text: "VAT accounting currency MUST differ from invoice currency when provided.", source: Source::Crate, check: Check::R005 },
        Rule { id: "PEPPOL-EN16931-R055", severity: Severity::Fatal, text: "BT-110 and BT-111 MUST have the same operational sign.", source: Source::Crate, check: Check::R055 },
        Rule { id: "PEPPOL-EN16931-R061", severity: Severity::Fatal, text: "Mandate reference MUST be provided for direct debit.", source: Source::Crate, check: Check::R061 },
        Rule { id: "PEPPOL-EN16931-P0100", severity: Severity::Fatal, text: "Invoice type code must be in the Peppol billing profile 01 list (not 389).", source: Source::Crate, check: Check::P0100 },
        Rule { id: "PEPPOL-EN16931-P0104", severity: Severity::Fatal, text: "VATEX-EU-G requires tax category G.", source: Source::Crate, check: Check::P0104 },
        Rule { id: "PEPPOL-EN16931-P0105", severity: Severity::Fatal, text: "VATEX-EU-O requires tax category O.", source: Source::Crate, check: Check::P0105 },
        Rule { id: "PEPPOL-EN16931-P0106", severity: Severity::Fatal, text: "VATEX-EU-IC requires tax category K.", source: Source::Crate, check: Check::P0106 },
        Rule { id: "PEPPOL-EN16931-P0107", severity: Severity::Fatal, text: "VATEX-EU-AE requires tax category AE.", source: Source::Crate, check: Check::P0107 },
        Rule { id: "PEPPOL-EN16931-P0108", severity: Severity::Fatal, text: "VATEX-EU-D requires tax category E.", source: Source::Crate, check: Check::P0108 },
        Rule { id: "PEPPOL-EN16931-P0109", severity: Severity::Fatal, text: "VATEX-EU-F requires tax category E.", source: Source::Crate, check: Check::P0109 },
    ]
}

/// Peppol BIS Billing 3.0 extra rules. (part 1)
fn peppol_rules_1() -> (v: Vec<Rule>)
    ensures
        v@ == peppol_rules_1_spec(),
{
    let mut v: Vec<Rule> = Vec::new();
    v.push(Rule { id: "PEPPOL-EN16931-R001", severity: Severity::Fatal, text: "BT-23 shall be present.", source: Source::Crate, check: Check::R001 });
    v.push(Rule { id: "PEPPOL-EN16931-R007", severity: Severity::Fatal, text: "BT-23 shall match urn:fdc:peppol.eu:2017:poacc:billing:NN:1.0.", source: Source::Crate, check: Check::R007 });
    v.push(Rule { id: "PEPPOL-EN16931-R004", severity: Severity::Fatal, text: "BT-24 shall start with the official Peppol BIS Billing 3.0 id.", source: Source::Crate, check: Check::R004 });
    v.push(Rule { id: "PEPPOL-EN16931-R003", severity: Severity::Fatal, text: "BT-10 or BT-13 shall be present.", source: Source::Crate, check: Check::R003 });
    v.push(Rule { id: "PEPPOL-EN16931-R010", severity: Severity::Fatal, text: "Buyer electronic address MUST be provided.", source: Source::Crate, check: Check::R010 });
    v.push(Rule { id: "PEPPOL-EN16931-R020", severity: Severity::Fatal, text: "Seller electronic address MUST be provided.", source: Source::Crate, check: Check::R020 });
    v.push(Rule { id: "PEPPOL-EN16931-R005", severity: Severity::Fatal, text: "VAT accounting currency MUST differ from invoice currency when provided.", source: Source::Crate, check: Check::R005 });
    v.push(Rule { id: "PEPPOL-EN16931-R055", severity: Severity::Fatal, text: "BT-110 and BT-111 MUST have the same operational sign.", source: Source::Crate, check: Check::R055 });
    v.push(Rule { id: "PEPPOL-EN16931-R061", severity: Severity::Fatal, text: "Mandate reference MUST be provided for direct debit.", source: Source::Crate, check: Check::R061 });
    v.push(Rule { id: "PEPPOL-EN16931-P0100", severity: Severity::Fatal, text: "Invoice type code must be in the Peppol billing profile 01 list (not 389).", source: Source::Crate, check: Check::P0100 });
    v.push(Rule { id: "PEPPOL-EN16931-P0104", severity: Severity::Fatal, text: "VATEX-EU-G requires tax category G.", source: Source::Crate, check: Check::P0104 });
    v.push(Rule { id: "PEPPOL-EN16931-P0105", severity: Severity::Fatal, text: "VATEX-EU-O requires tax category O.", source: Source::Crate, check: Check::P0105 });
    v.push(Rule { id: "PEPPOL-EN16931-P0106", severity: Severity::Fatal, text: "VATEX-EU-IC requires tax category K.", source: Source::Crate, check: Check::P0106 });
    v.push(Rule { id: "PEPPOL-EN16931-P0107", severity: Severity::Fatal, text: "VATEX-EU-AE requires tax category AE.", source: Source::Crate, check: Check::P0107 });
    v.push(Rule { id: "PEPPOL-EN16931-P0108", severity: Severity::Fatal, text: "VATEX-EU-D requires tax category E.", source: Source::Crate, check: Check::P0108 });
    v.push(Rule { id: "PEPPOL-EN16931-P0109", severity: Severity::Fatal, text: "VATEX-EU-F requires tax category E.", source: Source::Crate, check: Check::P0109 });
    proof { reveal(peppol_rules_1_spec); }
    assert(v@ =~= peppol_rules_1_spec());
    v
}

/// Peppol BIS Billing 3.0 extra rules. (part 2)
#[verifier::opaque]
pub open spec fn peppol_rules_2_spec() -> Seq<Rule> {
    seq![
        Rule { id: "PEPPOL-EN16931-P0110", severity: Severity::Fatal, text: "VATEX-EU-I requires tax category E.", source: Source::Crate, check: Check::P0110 },
        Rule { id: "PEPPOL-EN16931-P0111", severity: Severity::Fatal, text: "VATEX-EU-J requires tax category E.", source: Source::Crate, check: Check::P0111 },
        Rule { id: "PEPPOL-EN16931-R120", severity: Severity::Fatal, text: "Line net ≈ qty × (price / base qty), slack ±0.02 inclusive.", source: Source::Crate, check: Check::R120 },
        Rule { id: "PEPPOL-EN16931-R040", severity: Severity::Fatal, text: "Allowance/charge amount ≈ base × percent/100, slack ±0.02 inclusive.", source: Source::Crate, check: Check::R040 },
        Rule { id: "PEPPOL-EN16931-R046", severity: Severity::Fatal, text: "Net price = gross − discount, exact.", source: Source::Crate, check: Check::R046 },
        Rule { id: "PEPPOL-EN16931-R121", severity: Severity::Fatal, text: "Base quantity shall be greater than zero.", source: Source::Crate, check: Check::R121 },
    ]
}

/// Peppol BIS Billing 3.0 extra rules. (part 2)
fn peppol_rules_2() -> (v: Vec<Rule>)
    ensures
        v@ == peppol_rules_2_spec(),
{
    let mut v: Vec<Rule> = Vec::new();
    v.push(Rule { id: "PEPPOL-EN16931-P0110", severity: Severity::Fatal, text: "VATEX-EU-I requires tax category E.", source: Source::Crate, check: Check::P0110 });
    v.push(Rule { id: "PEPPOL-EN16931-P0111", severity: Severity::Fatal, text: "VATEX-EU-J requires tax category E.", source: Source::Crate, check: Check::P0111 });
    v.push(Rule { id: "PEPPOL-EN16931-R120", severity: Severity::Fatal, text: "Line net ≈ qty × (price / base qty), slack ±0.02 inclusive.", source: Source::Crate, check: Check::R120 });
    v.push(Rule { id: "PEPPOL-EN16931-R040", severity: Severity::Fatal, text: "Allowance/charge amount ≈ base × percent/100, slack ±0.02 inclusive.", source: Source::Crate, check: Check::R040 });
    v.push(Rule { id: "PEPPOL-EN16931-R046", severity: Severity::Fatal, text: "Net price = gross − discount, exact.", source: Source::Crate, check: Check::R046 });
    v.push(Rule { id: "PEPPOL-EN16931-R121", severity: Severity::Fatal, text: "Base quantity shall be greater than zero.", source: Source::Crate, check: Check::R121 });
    proof { reveal(peppol_rules_2_spec); }
    assert(v@ =~= peppol_rules_2_spec());
    v
}

/// Peppol BIS Billing 3.0 extra rules.
pub open spec fn peppol_rules_spec() -> Seq<Rule> {
    peppol_rules_1_spec() + peppol_rules_2_spec()
}

/// Peppol BIS Billing 3.0 extra rules.
pub fn peppol_rules() -> (v: Vec<Rule>)
    ensures
        v@ == peppol_rules_spec(),
{
    let mut v = peppol_rules_1();
    let mut w = peppol_rules_2();
    v.append(&mut w);
    v
}


/// Sizes of the rule tables: 250 core rules and 22 Peppol rules.
pub proof fn lemma_rule_counts()
    ensures
        general_rules_spec().len() + category_rules_spec().len() + code_list_rules_spec().len() + decimal_rules_spec().len() == 250,
        peppol_rules_spec().len() == 22,
{
    reveal(general_rules_1_spec);
    reveal(general_rules_2_spec);
    reveal(general_rules_3_spec);
    reveal(general_rules_4_spec);
    reveal(general_rules_5_spec);
    reveal(general_rules_6_spec);
    reveal(category_rules_1_spec);
    reveal(category_rules_2_spec);
    reveal(category_rules_3_spec);
    reveal(category_rules_4_spec);
    reveal(category_rules_5_spec);
    reveal(category_rules_6_spec);
    reveal(category_rules_7_spec);
    reveal(category_rules_8_spec);
    reveal(code_list_rules_spec);
    reveal(decimal_rules_1_spec);
    reveal(decimal_rules_2_spec);
    reveal(peppol_rules_1_spec);
    reveal(peppol_rules_2_spec);
}

} // verus!
