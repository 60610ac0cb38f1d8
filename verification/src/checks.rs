//! Header, party, reference and payment checks of EN 16931 and the crate's own
//! specification-identifier checks. Each check appends findings under its own
//! id only.
use vstd::prelude::*;
use crate::bt::{BtId, Group, Path};
use crate::code::Code;
use crate::emit::{added, emitted, fatal_at, lemma_emitted_none, warning_at};
use crate::identifier::Identifier;
use crate::payment::{CreditTransfer, PaymentMeans};
use crate::date::date_before;
use crate::invoice::{Invoice, PaymentInstructions, PostalAddress, party_country};
use crate::profile::{Profile, ProfileLookup, lookup_spec_id};
use crate::report::Report;
use crate::text::{blank, contains, count_digits, digit_count, eq_ic, is_blank, str_contains, str_eq, str_eq_ic, trim, trim_str};

verus! {

/// Absent or blank text.
pub open spec fn opt_text_blank(o: Option<String>) -> bool {
    match o {
        Some(s) => blank(s@),
        None => true,
    }
}

/// Absent or blank code.
pub open spec fn opt_code_blank(o: Option<Code>) -> bool {
    match o {
        Some(c) => blank(c@),
        None => true,
    }
}

/// A reason text or a reason code that is not blank.
pub open spec fn has_reason(reason: Option<String>, code: Option<Code>) -> bool {
    !opt_text_blank(reason) || !opt_code_blank(code)
}

pub fn text_blank(o: &Option<String>) -> (r: bool)
    ensures
        r == opt_text_blank(*o),
{
    match o {
        Some(s) => is_blank(s.as_str()),
        None => true,
    }
}

pub fn code_blank(o: &Option<Code>) -> (r: bool)
    ensures
        r == opt_code_blank(*o),
{
    match o {
        Some(c) => c.is_empty(),
        None => true,
    }
}

pub fn reason_given(reason: &Option<String>, code: &Option<Code>) -> (r: bool)
    ensures
        r == has_reason(*reason, *code),
{
    !text_blank(reason) || !code_blank(code)
}

/// Appends exactly one finding when `c` holds and none otherwise.
pub open spec fn fires_once(old: Report, new: Report, c: bool) -> bool {
    added(old, new) == if c { 1int } else { 0int }
}

/// Appends some finding exactly when `c` holds.
pub open spec fn fires_some(old: Report, new: Report, c: bool) -> bool {
    added(old, new) > 0 <==> c
}

/// When [`spec_lookup`] appends a finding: exactly when this holds, under [`spec_lookup_bound`].
pub open spec fn spec_lookup_fires(invoice: Invoice) -> bool {
    invoice.specification_id matches Some(t)
        && !contains(t@, "*"@) && lookup_spec_id(t@) == ProfileLookup::Unknown
}

/// Where [`spec_lookup`] states when it appends a finding.
pub open spec fn spec_lookup_bound(invoice: Invoice) -> bool {
    true
}

/// CORE-SPEC-01: a specification identifier that names no known profile.
pub fn spec_lookup(invoice: &Invoice, report: &mut Report)
    ensures
        emitted(*old(report), *final(report), "CORE-SPEC-01"@),
        fires_once(*old(report), *final(report), invoice.specification_id matches Some(t)
            && !contains(t@, "*"@) && lookup_spec_id(t@) == ProfileLookup::Unknown),
{
    match &invoice.specification_id {
        Some(id) => {
            if !str_contains(id.as_str(), "*") {
                if Profile::for_specification_id(id.as_str()) == ProfileLookup::Unknown {
                    fatal_at(report, "CORE-SPEC-01", Path::term(BtId(24)), "Unrecognised specification identifier (BT-24)");
                    return;
                }
            }
        },
        None => {},
    }
    proof {
        lemma_emitted_none(*report, "CORE-SPEC-01"@);
    }
}

/// When [`core_process_01`] appends a finding: exactly when this holds, under [`core_process_01_bound`].
pub open spec fn core_process_01_fires(invoice: Invoice) -> bool {
    invoice.specification_id matches Some(t)
        && lookup_spec_id(t@) == ProfileLookup::WrongProcess
}

/// Where [`core_process_01`] states when it appends a finding.
pub open spec fn core_process_01_bound(invoice: Invoice) -> bool {
    true
}

/// CORE-PROCESS-01: a specification identifier of another process.
pub fn core_process_01(invoice: &Invoice, report: &mut Report)
    ensures
        emitted(*old(report), *final(report), "CORE-PROCESS-01"@),
        fires_once(*old(report), *final(report), invoice.specification_id matches Some(t)
            && lookup_spec_id(t@) == ProfileLookup::WrongProcess),
{
    match &invoice.specification_id {
        Some(id) => {
            if Profile::for_specification_id(id.as_str()) == ProfileLookup::WrongProcess {
                fatal_at(
                    report,
                    "CORE-PROCESS-01",
                    Path::term(BtId(24)),
                    "Specification identifier is a self-billing (or other) process; not billing",
                );
                return;
            }
        },
        None => {},
    }
    proof {
        lemma_emitted_none(*report, "CORE-PROCESS-01"@);
    }
}

/// When [`ibr_sr_63`] appends a finding: exactly when this holds, under [`ibr_sr_63_bound`].
pub open spec fn ibr_sr_63_fires(invoice: Invoice) -> bool {
    invoice.specification_id matches Some(t) && contains(t@, "*"@)
}

/// Where [`ibr_sr_63`] states when it appends a finding.
pub open spec fn ibr_sr_63_bound(invoice: Invoice) -> bool {
    true
}

/// IBR-SR-63: a specification identifier with a wildcard.
pub fn ibr_sr_63(invoice: &Invoice, report: &mut Report)
    ensures
        emitted(*old(report), *final(report), "IBR-SR-63"@),
        fires_once(*old(report), *final(report), invoice.specification_id matches Some(t) && contains(t@, "*"@)),
{
    match &invoice.specification_id {
        Some(id) => {
            if str_contains(id.as_str(), "*") {
                fatal_at(
                    report,
                    "IBR-SR-63",
                    Path::term(BtId(24)),
                    "BT-24 shall not contain '*' (wildcard is an SMP capability, not an instance id)",
                );
                return;
            }
        },
        None => {},
    }
    proof {
        lemma_emitted_none(*report, "IBR-SR-63"@);
    }
}

/// When [`br_01`] appends a finding: exactly when this holds, under [`br_01_bound`].
pub open spec fn br_01_fires(invoice: Invoice) -> bool {
    opt_text_blank(invoice.specification_id)
}

/// Where [`br_01`] states when it appends a finding.
pub open spec fn br_01_bound(invoice: Invoice) -> bool {
    true
}

/// BR-01: specification identifier.
pub fn br_01(invoice: &Invoice, report: &mut Report)
    ensures
        emitted(*old(report), *final(report), "BR-01"@),
        fires_once(*old(report), *final(report), opt_text_blank(invoice.specification_id)),
{
    if text_blank(&invoice.specification_id) {
        fatal_at(report, "BR-01", Path::term(BtId(24)), "An Invoice shall have a Specification identifier (BT-24)");
    } else {
        proof {
            lemma_emitted_none(*report, "BR-01"@);
        }
    }
}

/// When [`br_02`] appends a finding: exactly when this holds, under [`br_02_bound`].
pub open spec fn br_02_fires(invoice: Invoice) -> bool {
    blank(invoice.number@)
}

/// Where [`br_02`] states when it appends a finding.
pub open spec fn br_02_bound(invoice: Invoice) -> bool {
    true
}

/// BR-02: invoice number.
pub fn br_02(invoice: &Invoice, report: &mut Report)
    ensures
        emitted(*old(report), *final(report), "BR-02"@),
        fires_once(*old(report), *final(report), blank(invoice.number@)),
{
    if is_blank(invoice.number.as_str()) {
        fatal_at(report, "BR-02", Path::term(BtId(1)), "Invoice number (BT-1) shall be present");
    } else {
        proof {
            lemma_emitted_none(*report, "BR-02"@);
        }
    }
}

/// When [`br_03`] appends a finding: exactly when this holds, under [`br_03_bound`].
pub open spec fn br_03_fires(invoice: Invoice) -> bool {
    invoice.issue_date is None
}

/// Where [`br_03`] states when it appends a finding.
pub open spec fn br_03_bound(invoice: Invoice) -> bool {
    true
}

/// BR-03: issue date.
pub fn br_03(invoice: &Invoice, report: &mut Report)
    ensures
        emitted(*old(report), *final(report), "BR-03"@),
        fires_once(*old(report), *final(report), invoice.issue_date is None),
{
    if invoice.issue_date.is_none() {
        fatal_at(report, "BR-03", Path::term(BtId(2)), "An Invoice shall have an Invoice issue date (BT-2)");
    } else {
        proof {
            lemma_emitted_none(*report, "BR-03"@);
        }
    }
}

/// When [`br_04`] appends a finding: exactly when this holds, under [`br_04_bound`].
pub open spec fn br_04_fires(invoice: Invoice) -> bool {
    opt_code_blank(invoice.type_code)
}

/// Where [`br_04`] states when it appends a finding.
pub open spec fn br_04_bound(invoice: Invoice) -> bool {
    true
}

/// BR-04: type code.
pub fn br_04(invoice: &Invoice, report: &mut Report)
    ensures
        emitted(*old(report), *final(report), "BR-04"@),
        fires_once(*old(report), *final(report), opt_code_blank(invoice.type_code)),
{
    if code_blank(&invoice.type_code) {
        fatal_at(report, "BR-04", Path::term(BtId(3)), "An Invoice shall have an Invoice type code (BT-3)");
    } else {
        proof {
            lemma_emitted_none(*report, "BR-04"@);
        }
    }
}

/// When [`br_05`] appends a finding: exactly when this holds, under [`br_05_bound`].
pub open spec fn br_05_fires(invoice: Invoice) -> bool {
    blank(invoice.currency@)
}

/// Where [`br_05`] states when it appends a finding.
pub open spec fn br_05_bound(invoice: Invoice) -> bool {
    true
}

/// BR-05: currency code.
pub fn br_05(invoice: &Invoice, report: &mut Report)
    ensures
        emitted(*old(report), *final(report), "BR-05"@),
        fires_once(*old(report), *final(report), blank(invoice.currency@)),
{
    if is_blank(invoice.currency.as_str()) {
        fatal_at(report, "BR-05", Path::term(BtId(5)), "Invoice currency code (BT-5) shall be present");
    } else {
        proof {
            lemma_emitted_none(*report, "BR-05"@);
        }
    }
}

/// When [`br_06`] appends a finding: exactly when this holds, under [`br_06_bound`].
pub open spec fn br_06_fires(invoice: Invoice) -> bool {
    blank(invoice.seller.name@)
}

/// Where [`br_06`] states when it appends a finding.
pub open spec fn br_06_bound(invoice: Invoice) -> bool {
    true
}

/// BR-06: seller name.
pub fn br_06(invoice: &Invoice, report: &mut Report)
    ensures
        emitted(*old(report), *final(report), "BR-06"@),
        fires_once(*old(report), *final(report), blank(invoice.seller.name@)),
{
    if is_blank(invoice.seller.name.as_str()) {
        fatal_at(report, "BR-06", Path::term(BtId(27)), "Seller name (BT-27) shall be present");
    } else {
        proof {
            lemma_emitted_none(*report, "BR-06"@);
        }
    }
}

/// When [`br_07`] appends a finding: exactly when this holds, under [`br_07_bound`].
pub open spec fn br_07_fires(invoice: Invoice) -> bool {
    blank(invoice.buyer.name@)
}

/// Where [`br_07`] states when it appends a finding.
pub open spec fn br_07_bound(invoice: Invoice) -> bool {
    true
}

/// BR-07: buyer name.
pub fn br_07(invoice: &Invoice, report: &mut Report)
    ensures
        emitted(*old(report), *final(report), "BR-07"@),
        fires_once(*old(report), *final(report), blank(invoice.buyer.name@)),
{
    if is_blank(invoice.buyer.name.as_str()) {
        fatal_at(report, "BR-07", Path::term(BtId(44)), "Buyer name (BT-44) shall be present");
    } else {
        proof {
            lemma_emitted_none(*report, "BR-07"@);
        }
    }
}

/// When [`br_08`] appends a finding: exactly when this holds, under [`br_08_bound`].
pub open spec fn br_08_fires(invoice: Invoice) -> bool {
    invoice.seller.address is None
}

/// Where [`br_08`] states when it appends a finding.
pub open spec fn br_08_bound(invoice: Invoice) -> bool {
    true
}

/// BR-08: seller postal address.
pub fn br_08(invoice: &Invoice, report: &mut Report)
    ensures
        emitted(*old(report), *final(report), "BR-08"@),
        fires_once(*old(report), *final(report), invoice.seller.address is None),
{
    if invoice.seller.address.is_none() {
        fatal_at(report, "BR-08", Path::group(Group::Seller), "The Seller shall have a Seller postal address (BG-5)");
    } else {
        proof {
            lemma_emitted_none(*report, "BR-08"@);
        }
    }
}

/// When [`br_09`] appends a finding: exactly when this holds, under [`br_09_bound`].
pub open spec fn br_09_fires(invoice: Invoice) -> bool {
    blank(party_country(invoice.seller))
}

/// Where [`br_09`] states when it appends a finding.
pub open spec fn br_09_bound(invoice: Invoice) -> bool {
    true
}

/// BR-09: seller country code.
pub fn br_09(invoice: &Invoice, report: &mut Report)
    ensures
        emitted(*old(report), *final(report), "BR-09"@),
        fires_once(*old(report), *final(report), blank(party_country(invoice.seller))),
{
    if is_blank(invoice.seller.country()) {
        fatal_at(
            report,
            "BR-09",
            Path::term(BtId(40)),
            "The Seller postal address shall contain a Seller country code (BT-40)",
        );
    } else {
        proof {
            lemma_emitted_none(*report, "BR-09"@);
        }
    }
}

/// When [`br_10`] appends a finding: exactly when this holds, under [`br_10_bound`].
pub open spec fn br_10_fires(invoice: Invoice) -> bool {
    invoice.buyer.address is None
}

/// Where [`br_10`] states when it appends a finding.
pub open spec fn br_10_bound(invoice: Invoice) -> bool {
    true
}

/// BR-10: buyer postal address.
pub fn br_10(invoice: &Invoice, report: &mut Report)
    ensures
        emitted(*old(report), *final(report), "BR-10"@),
        fires_once(*old(report), *final(report), invoice.buyer.address is None),
{
    if invoice.buyer.address.is_none() {
        fatal_at(report, "BR-10", Path::group(Group::Buyer), "The Buyer shall have a Buyer postal address (BG-8)");
    } else {
        proof {
            lemma_emitted_none(*report, "BR-10"@);
        }
    }
}

/// When [`br_11`] appends a finding: exactly when this holds, under [`br_11_bound`].
pub open spec fn br_11_fires(invoice: Invoice) -> bool {
    blank(party_country(invoice.buyer))
}

/// Where [`br_11`] states when it appends a finding.
pub open spec fn br_11_bound(invoice: Invoice) -> bool {
    true
}

/// BR-11: buyer country code.
pub fn br_11(invoice: &Invoice, report: &mut Report)
    ensures
        emitted(*old(report), *final(report), "BR-11"@),
        fires_once(*old(report), *final(report), blank(party_country(invoice.buyer))),
{
    if is_blank(invoice.buyer.country()) {
        fatal_at(
            report,
            "BR-11",
            Path::term(BtId(55)),
            "The Buyer postal address shall contain a Buyer country code (BT-55)",
        );
    } else {
        proof {
            lemma_emitted_none(*report, "BR-11"@);
        }
    }
}

/// When [`br_16`] appends a finding: exactly when this holds, under [`br_16_bound`].
pub open spec fn br_16_fires(invoice: Invoice) -> bool {
    invoice.lines@.len() == 0
}

/// Where [`br_16`] states when it appends a finding.
pub open spec fn br_16_bound(invoice: Invoice) -> bool {
    true
}

/// BR-16: at least one line.
pub fn br_16(invoice: &Invoice, report: &mut Report)
    ensures
        emitted(*old(report), *final(report), "BR-16"@),
        fires_once(*old(report), *final(report), invoice.lines@.len() == 0),
{
    if invoice.lines.len() == 0 {
        fatal_at(report, "BR-16", Path::group(Group::Line), "An invoice shall have at least one Invoice line (BG-25)");
    } else {
        proof {
            lemma_emitted_none(*report, "BR-16"@);
        }
    }
}


/// When [`br_17`] appends a finding: exactly when this holds, under [`br_17_bound`].
pub open spec fn br_17_fires(invoice: Invoice) -> bool {
    invoice.payee matches Some(p) && blank(p.name@)
}

/// Where [`br_17`] states when it appends a finding.
pub open spec fn br_17_bound(invoice: Invoice) -> bool {
    true
}

/// BR-17: a payee has a name.
pub fn br_17(invoice: &Invoice, report: &mut Report)
    ensures
        emitted(*old(report), *final(report), "BR-17"@),
        fires_once(*old(report), *final(report), invoice.payee matches Some(p) && blank(p.name@)),
{
    match &invoice.payee {
        Some(p) => {
            if is_blank(p.name.as_str()) {
                fatal_at(report, "BR-17", Path::term(BtId(59)), "Payee name (BT-59) shall be provided if Payee (BG-10) is used");
                return;
            }
        },
        None => {},
    }
    proof {
        lemma_emitted_none(*report, "BR-17"@);
    }
}

/// When [`br_18`] appends a finding: exactly when this holds, under [`br_18_bound`].
pub open spec fn br_18_fires(invoice: Invoice) -> bool {
    invoice.tax_representative matches Some(t) && blank(t.name@)
}

/// Where [`br_18`] states when it appends a finding.
pub open spec fn br_18_bound(invoice: Invoice) -> bool {
    true
}

/// BR-18: a tax representative has a name.
pub fn br_18(invoice: &Invoice, report: &mut Report)
    ensures
        emitted(*old(report), *final(report), "BR-18"@),
        fires_once(*old(report), *final(report), invoice.tax_representative matches Some(t) && blank(t.name@)),
{
    match &invoice.tax_representative {
        Some(t) => {
            if is_blank(t.name.as_str()) {
                fatal_at(
                    report,
                    "BR-18",
                    Path::term(BtId(62)),
                    "Seller tax representative name (BT-62) shall be provided if BG-11 is used",
                );
                return;
            }
        },
        None => {},
    }
    proof {
        lemma_emitted_none(*report, "BR-18"@);
    }
}

/// Country code of an optional address, blank when absent.
pub open spec fn address_country_blank(a: Option<PostalAddress>) -> bool {
    match a {
        Some(addr) => opt_code_blank(addr.country),
        None => true,
    }
}

fn address_country_is_blank(a: &Option<PostalAddress>) -> (r: bool)
    ensures
        r == address_country_blank(*a),
{
    match a {
        Some(addr) => code_blank(&addr.country),
        None => true,
    }
}

/// When [`br_19`] appends a finding: exactly when this holds, under [`br_19_bound`].
pub open spec fn br_19_fires(invoice: Invoice) -> bool {
    invoice.tax_representative matches Some(t) && t.address is None
}

/// Where [`br_19`] states when it appends a finding.
pub open spec fn br_19_bound(invoice: Invoice) -> bool {
    true
}

/// BR-19: a tax representative has a postal address.
pub fn br_19(invoice: &Invoice, report: &mut Report)
    ensures
        emitted(*old(report), *final(report), "BR-19"@),
        fires_once(*old(report), *final(report), invoice.tax_representative matches Some(t) && t.address is None),
{
    match &invoice.tax_representative {
        Some(t) => {
            if t.address.is_none() {
                fatal_at(
                    report,
                    "BR-19",
                    Path::term(BtId(64)),
                    "The Seller tax representative postal address (BG-12) shall be provided if BG-11 is used",
                );
                return;
            }
        },
        None => {},
    }
    proof {
        lemma_emitted_none(*report, "BR-19"@);
    }
}

/// When [`br_20`] appends a finding: exactly when this holds, under [`br_20_bound`].
pub open spec fn br_20_fires(invoice: Invoice) -> bool {
    invoice.tax_representative matches Some(t)
        && address_country_blank(t.address)
}

/// Where [`br_20`] states when it appends a finding.
pub open spec fn br_20_bound(invoice: Invoice) -> bool {
    true
}

/// BR-20: a tax representative address has a country code.
pub fn br_20(invoice: &Invoice, report: &mut Report)
    ensures
        emitted(*old(report), *final(report), "BR-20"@),
        fires_once(*old(report), *final(report), invoice.tax_representative matches Some(t)
            && address_country_blank(t.address)),
{
    match &invoice.tax_representative {
        Some(t) => {
            if address_country_is_blank(&t.address) {
                fatal_at(
                    report,
                    "BR-20",
                    Path::term(BtId(69)),
                    "Tax representative country (BT-69) shall be provided if BG-11 is used",
                );
                return;
            }
        },
        None => {},
    }
    proof {
        lemma_emitted_none(*report, "BR-20"@);
    }
}

/// When [`br_56`] appends a finding: exactly when this holds, under [`br_56_bound`].
pub open spec fn br_56_fires(invoice: Invoice) -> bool {
    invoice.tax_representative matches Some(t)
        && t.vat_identifier is None
}

/// Where [`br_56`] states when it appends a finding.
pub open spec fn br_56_bound(invoice: Invoice) -> bool {
    true
}

/// BR-56: a tax representative has a VAT identifier.
pub fn br_56(invoice: &Invoice, report: &mut Report)
    ensures
        emitted(*old(report), *final(report), "BR-56"@),
        fires_once(*old(report), *final(report), invoice.tax_representative matches Some(t)
            && t.vat_identifier is None),
{
    match &invoice.tax_representative {
        Some(t) => {
            if t.vat_identifier.is_none() {
                fatal_at(
                    report,
                    "BR-56",
                    Path::term(BtId(63)),
                    "Seller tax representative VAT identifier (BT-63) shall be provided if BG-11 is used",
                );
                return;
            }
        },
        None => {},
    }
    proof {
        lemma_emitted_none(*report, "BR-56"@);
    }
}

/// When [`br_29`] appends a finding: exactly when this holds, under [`br_29_bound`].
pub open spec fn br_29_fires(invoice: Invoice) -> bool {
    invoice.period matches Some(p) && p.start matches Some(s)
        && p.end matches Some(e) && date_before(e, s)
}

/// Where [`br_29`] states when it appends a finding.
pub open spec fn br_29_bound(invoice: Invoice) -> bool {
    true
}

/// BR-29: the invoicing period does not end before it starts.
pub fn br_29(invoice: &Invoice, report: &mut Report)
    ensures
        emitted(*old(report), *final(report), "BR-29"@),
        fires_once(*old(report), *final(report), invoice.period matches Some(p) && p.start matches Some(s)
            && p.end matches Some(e) && date_before(e, s)),
{
    match &invoice.period {
        Some(p) => match (p.start, p.end) {
            (Some(s), Some(e)) => {
                if e.before(s) {
                    fatal_at(report, "BR-29", Path::term(BtId(74)), "Invoicing period end date shall be on or after start date");
                    return;
                }
            },
            _ => {},
        },
        None => {},
    }
    proof {
        lemma_emitted_none(*report, "BR-29"@);
    }
}

/// When [`br_57`] appends a finding: exactly when this holds, under [`br_57_bound`].
pub open spec fn br_57_fires(invoice: Invoice) -> bool {
    invoice.delivery matches Some(d) && d.address matches Some(a)
        && opt_code_blank(a.country)
}

/// Where [`br_57`] states when it appends a finding.
pub open spec fn br_57_bound(invoice: Invoice) -> bool {
    true
}

/// BR-57: a deliver-to address has a country code.
pub fn br_57(invoice: &Invoice, report: &mut Report)
    ensures
        emitted(*old(report), *final(report), "BR-57"@),
        fires_once(*old(report), *final(report), invoice.delivery matches Some(d) && d.address matches Some(a)
            && opt_code_blank(a.country)),
{
    match &invoice.delivery {
        Some(d) => match &d.address {
            Some(a) => {
                if code_blank(&a.country) {
                    fatal_at(report, "BR-57", Path::term(BtId(80)), "Each deliver-to address (BG-15) shall contain country (BT-80)");
                    return;
                }
            },
            None => {},
        },
        None => {},
    }
    proof {
        lemma_emitted_none(*report, "BR-57"@);
    }
}

/// When [`br_62`] appends a finding: exactly when this holds, under [`br_62_bound`].
pub open spec fn br_62_fires(invoice: Invoice) -> bool {
    invoice.seller.electronic_address matches Some(e)
        && opt_text_blank(e.scheme)
}

/// Where [`br_62`] states when it appends a finding.
pub open spec fn br_62_bound(invoice: Invoice) -> bool {
    true
}

/// BR-62: the seller's electronic address has a scheme.
pub fn br_62(invoice: &Invoice, report: &mut Report)
    ensures
        emitted(*old(report), *final(report), "BR-62"@),
        fires_once(*old(report), *final(report), invoice.seller.electronic_address matches Some(e)
            && opt_text_blank(e.scheme)),
{
    match &invoice.seller.electronic_address {
        Some(e) => {
            if text_blank(&e.scheme) {
                fatal_at(report, "BR-62", Path::group_term(Group::Seller, BtId(34)), "Seller electronic address (BT-34) shall have a scheme");
                return;
            }
        },
        None => {},
    }
    proof {
        lemma_emitted_none(*report, "BR-62"@);
    }
}

/// When [`br_63`] appends a finding: exactly when this holds, under [`br_63_bound`].
pub open spec fn br_63_fires(invoice: Invoice) -> bool {
    invoice.buyer.electronic_address matches Some(e)
        && opt_text_blank(e.scheme)
}

/// Where [`br_63`] states when it appends a finding.
pub open spec fn br_63_bound(invoice: Invoice) -> bool {
    true
}

/// BR-63: the buyer's electronic address has a scheme.
pub fn br_63(invoice: &Invoice, report: &mut Report)
    ensures
        emitted(*old(report), *final(report), "BR-63"@),
        fires_once(*old(report), *final(report), invoice.buyer.electronic_address matches Some(e)
            && opt_text_blank(e.scheme)),
{
    match &invoice.buyer.electronic_address {
        Some(e) => {
            if text_blank(&e.scheme) {
                fatal_at(report, "BR-63", Path::group_term(Group::Buyer, BtId(49)), "Buyer electronic address (BT-49) shall have a scheme");
                return;
            }
        },
        None => {},
    }
    proof {
        lemma_emitted_none(*report, "BR-63"@);
    }
}

/// When [`br_co_19`] appends a finding: exactly when this holds, under [`br_co_19_bound`].
pub open spec fn br_co_19_fires(invoice: Invoice) -> bool {
    invoice.period matches Some(p) && p.start is None
        && p.end is None && invoice.tax_point_code is None
}

/// Where [`br_co_19`] states when it appends a finding.
pub open spec fn br_co_19_bound(invoice: Invoice) -> bool {
    true
}

/// BR-CO-19: an invoicing period has a start, an end or a tax point code.
pub fn br_co_19(invoice: &Invoice, report: &mut Report)
    ensures
        emitted(*old(report), *final(report), "BR-CO-19"@),
        fires_once(*old(report), *final(report), invoice.period matches Some(p) && p.start is None
            && p.end is None && invoice.tax_point_code is None),
{
    match &invoice.period {
        Some(p) => {
            if p.start.is_none() && p.end.is_none() && invoice.tax_point_code.is_none() {
                fatal_at(
                    report,
                    "BR-CO-19",
                    Path::term(BtId(73)),
                    "If invoicing period (BG-14) is used, start or end shall be present",
                );
                return;
            }
        },
        None => {},
    }
    proof {
        lemma_emitted_none(*report, "BR-CO-19"@);
    }
}

/// When [`br_co_03`] appends a finding: exactly when this holds, under [`br_co_03_bound`].
pub open spec fn br_co_03_fires(invoice: Invoice) -> bool {
    invoice.tax_point_date is Some && invoice.tax_point_code is Some
}

/// Where [`br_co_03`] states when it appends a finding.
pub open spec fn br_co_03_bound(invoice: Invoice) -> bool {
    true
}

/// BR-CO-03: tax point date and tax point code exclude each other.
pub fn br_co_03(invoice: &Invoice, report: &mut Report)
    ensures
        emitted(*old(report), *final(report), "BR-CO-03"@),
        fires_once(*old(report), *final(report), invoice.tax_point_date is Some && invoice.tax_point_code is Some),
{
    if invoice.tax_point_date.is_some() && invoice.tax_point_code.is_some() {
        fatal_at(
            report,
            "BR-CO-03",
            Path::term(BtId(7)),
            "Value added tax point date (BT-7) and Value added tax point date code (BT-8) are mutually exclusive",
        );
    } else {
        proof {
            lemma_emitted_none(*report, "BR-CO-03"@);
        }
    }
}

/// When [`br_12`] appends a finding: exactly when this holds, under [`br_12_bound`].
pub open spec fn br_12_fires(invoice: Invoice) -> bool {
    !(invoice.totals matches Some(t) && t.line_net is Some)
}

/// Where [`br_12`] states when it appends a finding.
pub open spec fn br_12_bound(invoice: Invoice) -> bool {
    true
}

/// Sum of line net amounts (BT-106).
pub fn br_12(invoice: &Invoice, report: &mut Report)
    ensures
        emitted(*old(report), *final(report), "BR-12"@),
        fires_once(*old(report), *final(report), !(invoice.totals matches Some(t) && t.line_net is Some)),
{
    let present = match &invoice.totals {
        Some(t) => t.line_net.is_some(),
        None => false,
    };
    if !present {
        fatal_at(report, "BR-12", Path::term(BtId(106)), "An Invoice shall have the Sum of Invoice line net amount (BT-106)");
    } else {
        proof {
            lemma_emitted_none(*report, "BR-12"@);
        }
    }
}

/// When [`br_13`] appends a finding: exactly when this holds, under [`br_13_bound`].
pub open spec fn br_13_fires(invoice: Invoice) -> bool {
    !(invoice.totals matches Some(t) && t.without_tax is Some)
}

/// Where [`br_13`] states when it appends a finding.
pub open spec fn br_13_bound(invoice: Invoice) -> bool {
    true
}

/// BR-13: total without VAT (BT-109).
pub fn br_13(invoice: &Invoice, report: &mut Report)
    ensures
        emitted(*old(report), *final(report), "BR-13"@),
        fires_once(*old(report), *final(report), !(invoice.totals matches Some(t) && t.without_tax is Some)),
{
    let present = match &invoice.totals {
        Some(t) => t.without_tax.is_some(),
        None => false,
    };
    if !present {
        fatal_at(report, "BR-13", Path::term(BtId(109)), "An Invoice shall have the Invoice total amount without VAT (BT-109)");
    } else {
        proof {
            lemma_emitted_none(*report, "BR-13"@);
        }
    }
}

/// When [`br_14`] appends a finding: exactly when this holds, under [`br_14_bound`].
pub open spec fn br_14_fires(invoice: Invoice) -> bool {
    !(invoice.totals matches Some(t) && t.with_tax is Some)
}

/// Where [`br_14`] states when it appends a finding.
pub open spec fn br_14_bound(invoice: Invoice) -> bool {
    true
}

/// BR-14: total with VAT (BT-112).
pub fn br_14(invoice: &Invoice, report: &mut Report)
    ensures
        emitted(*old(report), *final(report), "BR-14"@),
        fires_once(*old(report), *final(report), !(invoice.totals matches Some(t) && t.with_tax is Some)),
{
    let present = match &invoice.totals {
        Some(t) => t.with_tax.is_some(),
        None => false,
    };
    if !present {
        fatal_at(report, "BR-14", Path::term(BtId(112)), "An Invoice shall have the Invoice total amount with VAT (BT-112)");
    } else {
        proof {
            lemma_emitted_none(*report, "BR-14"@);
        }
    }
}

/// When [`br_15`] appends a finding: exactly when this holds, under [`br_15_bound`].
pub open spec fn br_15_fires(invoice: Invoice) -> bool {
    !(invoice.totals matches Some(t) && t.payable is Some)
}

/// Where [`br_15`] states when it appends a finding.
pub open spec fn br_15_bound(invoice: Invoice) -> bool {
    true
}

/// BR-15: amount due for payment (BT-115).
pub fn br_15(invoice: &Invoice, report: &mut Report)
    ensures
        emitted(*old(report), *final(report), "BR-15"@),
        fires_once(*old(report), *final(report), !(invoice.totals matches Some(t) && t.payable is Some)),
{
    let present = match &invoice.totals {
        Some(t) => t.payable.is_some(),
        None => false,
    };
    if !present {
        fatal_at(report, "BR-15", Path::term(BtId(115)), "An Invoice shall have the Amount due for payment (BT-115)");
    } else {
        proof {
            lemma_emitted_none(*report, "BR-15"@);
        }
    }
}


/// When [`br_49`] appends a finding: exactly when this holds, under [`br_49_bound`].
pub open spec fn br_49_fires(invoice: Invoice) -> bool {
    invoice.payment matches Some(p) && opt_code_blank(p.means_code)
}

/// Where [`br_49`] states when it appends a finding.
pub open spec fn br_49_bound(invoice: Invoice) -> bool {
    true
}

/// BR-49: payment instructions carry a means type code.
pub fn br_49(invoice: &Invoice, report: &mut Report)
    ensures
        emitted(*old(report), *final(report), "BR-49"@),
        fires_once(*old(report), *final(report), invoice.payment matches Some(p) && opt_code_blank(p.means_code)),
{
    match &invoice.payment {
        Some(p) => {
            if code_blank(&p.means_code) {
                fatal_at(
                    report,
                    "BR-49",
                    Path::term(BtId(81)),
                    "A Payment instruction (BG-16) shall specify the Payment means type code (BT-81)",
                );
                return;
            }
        },
        None => {},
    }
    proof {
        lemma_emitted_none(*report, "BR-49"@);
    }
}

/// Some account of the list has a blank identifier.
pub open spec fn some_blank_account(a: Seq<CreditTransfer>) -> bool {
    exists|i: int| #![trigger a[i]] 0 <= i < a.len() && blank(a[i].account_id.value@)
}

/// Some account of the list has an identifier that is not blank.
pub open spec fn some_account(a: Seq<CreditTransfer>) -> bool {
    exists|i: int| #![trigger a[i]] 0 <= i < a.len() && !blank(a[i].account_id.value@)
}

fn accounts_scan(a: &Vec<CreditTransfer>) -> (r: (bool, bool))
    ensures
        r.0 == some_blank_account(a@),
        r.1 == some_account(a@),
{
    let mut any_blank = false;
    let mut any_set = false;
    let mut i: usize = 0;
    while i < a.len()
        invariant
            i <= a.len(),
            any_blank == exists|k: int| #![trigger a@[k]] 0 <= k < i && blank(a@[k].account_id.value@),
            any_set == exists|k: int| #![trigger a@[k]] 0 <= k < i && !blank(a@[k].account_id.value@),
        decreases a.len() - i,
    {
        if is_blank(a[i].account_id.value.as_str()) {
            any_blank = true;
        } else {
            any_set = true;
        }
        i = i + 1;
    }
    (any_blank, any_set)
}

/// When [`br_50`] appends a finding: exactly when this holds, under [`br_50_bound`].
pub open spec fn br_50_fires(invoice: Invoice) -> bool {
    invoice.payment matches Some(p)
        && p.means matches Some(PaymentMeans::CreditTransfer(a)) && (a@.len() == 0 || some_blank_account(a@))
}

/// Where [`br_50`] states when it appends a finding.
pub open spec fn br_50_bound(invoice: Invoice) -> bool {
    true
}

/// BR-50: credit transfer names accounts, none of them blank.
pub fn br_50(invoice: &Invoice, report: &mut Report)
    ensures
        emitted(*old(report), *final(report), "BR-50"@),
        fires_once(*old(report), *final(report), invoice.payment matches Some(p)
            && p.means matches Some(PaymentMeans::CreditTransfer(a)) && (a@.len() == 0 || some_blank_account(a@))),
{
    match &invoice.payment {
        Some(p) => match &p.means {
            Some(PaymentMeans::CreditTransfer(a)) => {
                let (any_blank, _) = accounts_scan(a);
                if a.len() == 0 || any_blank {
                    fatal_at(
                        report,
                        "BR-50",
                        Path::term(BtId(84)),
                        "A Payment account identifier (BT-84) shall be present if Credit transfer (BG-17) is used",
                    );
                    return;
                }
            },
            _ => {},
        },
        None => {},
    }
    proof {
        lemma_emitted_none(*report, "BR-50"@);
    }
}

/// Trimmed means code of payment instructions, empty when absent.
pub open spec fn means_code_text(p: PaymentInstructions) -> Seq<char> {
    match p.means_code {
        Some(c) => trim(c@),
        None => Seq::empty(),
    }
}

/// When [`br_61`] appends a finding: exactly when this holds, under [`br_61_bound`].
pub open spec fn br_61_fires(invoice: Invoice) -> bool {
    invoice.payment matches Some(p) && (means_code_text(p) == "30"@
        || means_code_text(p) == "58"@) && !(p.means matches Some(PaymentMeans::CreditTransfer(a))
        && some_account(a@))
}

/// Where [`br_61`] states when it appends a finding.
pub open spec fn br_61_bound(invoice: Invoice) -> bool {
    true
}

/// BR-61: means code 30 or 58 needs an account identifier.
pub fn br_61(invoice: &Invoice, report: &mut Report)
    ensures
        emitted(*old(report), *final(report), "BR-61"@),
        fires_once(*old(report), *final(report), invoice.payment matches Some(p) && (means_code_text(p) == "30"@
            || means_code_text(p) == "58"@) && !(p.means matches Some(PaymentMeans::CreditTransfer(a))
            && some_account(a@))),
{
    match &invoice.payment {
        Some(p) => {
            let transfer_code = match &p.means_code {
                Some(c) => {
                    let t = trim_str(c.as_str());
                    let r = str_eq(t, "30") || str_eq(t, "58");
                    assert(means_code_text(*p) == t@);
                    r
                },
                None => {
                    proof {
                        reveal_strlit("30");
                        reveal_strlit("58");
                        assert("30"@.len() == 2);
                        assert("58"@.len() == 2);
                    }
                    false
                },
            };
            assert(transfer_code == (means_code_text(*p) == "30"@ || means_code_text(*p) == "58"@));
            if transfer_code {
                let has_account = match &p.means {
                    Some(PaymentMeans::CreditTransfer(a)) => {
                        let (_, any_set) = accounts_scan(a);
                        any_set
                    },
                    _ => false,
                };
                if !has_account {
                    fatal_at(
                        report,
                        "BR-61",
                        Path::term(BtId(84)),
                        "If BT-81 is 30 or 58 (credit transfer), the Payment account identifier (BT-84) shall be present",
                    );
                    return;
                }
            }
        },
        None => {},
    }
    proof {
        lemma_emitted_none(*report, "BR-61"@);
    }
}

/// An identifier present with a value that is not blank.
pub open spec fn id_given(o: Option<Identifier>) -> bool {
    o matches Some(i) && !blank(i.value@)
}

/// Some party identifier outside the SEPA scheme has a value.
pub open spec fn some_party_identifier(ids: Seq<Identifier>) -> bool {
    exists|i: int| #![trigger ids[i]] 0 <= i < ids.len() && !(ids[i].scheme matches Some(s) && s@ == "SEPA"@)
        && !blank(ids[i].value@)
}

fn id_is_given(o: &Option<Identifier>) -> (r: bool)
    ensures
        r == id_given(*o),
{
    match o {
        Some(i) => !is_blank(i.value.as_str()),
        None => false,
    }
}

fn has_party_identifier(ids: &Vec<Identifier>) -> (r: bool)
    ensures
        r == some_party_identifier(ids@),
{
    let mut i: usize = 0;
    while i < ids.len()
        invariant
            i <= ids.len(),
            forall|k: int| #![trigger ids@[k]] 0 <= k < i ==> !(!(ids@[k].scheme matches Some(s) && s@ == "SEPA"@)
                && !blank(ids@[k].value@)),
        decreases ids.len() - i,
    {
        let sepa = match &ids[i].scheme {
            Some(s) => str_eq(s.as_str(), "SEPA"),
            None => false,
        };
        if !sepa && !is_blank(ids[i].value.as_str()) {
            return true;
        }
        i = i + 1;
    }
    false
}

/// When [`br_co_26`] appends a finding: exactly when this holds, under [`br_co_26_bound`].
pub open spec fn br_co_26_fires(invoice: Invoice) -> bool {
    invoice.profile != Profile::Pint && invoice.profile != Profile::PintMy
        && !id_given(invoice.seller.vat_identifier) && !id_given(invoice.seller.legal_registration)
        && !some_party_identifier(invoice.seller.identifiers@)
}

/// Where [`br_co_26`] states when it appends a finding.
pub open spec fn br_co_26_bound(invoice: Invoice) -> bool {
    true
}

/// BR-CO-26: outside PINT the seller is identified by an identifier, a
/// legal registration or a VAT identifier.
pub fn br_co_26(invoice: &Invoice, report: &mut Report)
    ensures
        emitted(*old(report), *final(report), "BR-CO-26"@),
        fires_once(*old(report), *final(report), invoice.profile != Profile::Pint && invoice.profile != Profile::PintMy
            && !id_given(invoice.seller.vat_identifier) && !id_given(invoice.seller.legal_registration)
            && !some_party_identifier(invoice.seller.identifiers@)),
{
    if invoice.profile == Profile::Pint || invoice.profile == Profile::PintMy {
        proof {
            lemma_emitted_none(*report, "BR-CO-26"@);
        }
        return;
    }
    let p = &invoice.seller;
    if !(id_is_given(&p.vat_identifier) || id_is_given(&p.legal_registration) || has_party_identifier(&p.identifiers)) {
        fatal_at(
            report,
            "BR-CO-26",
            Path::group_term(Group::Seller, BtId(29)),
            "Seller identifier (BT-29), legal registration (BT-30) and/or VAT identifier (BT-31) shall be present",
        );
    } else {
        proof {
            lemma_emitted_none(*report, "BR-CO-26"@);
        }
    }
}

/// When [`br_51`] appends a finding: exactly when this holds, under [`br_51_bound`].
pub open spec fn br_51_fires(invoice: Invoice) -> bool {
    invoice.payment matches Some(p)
        && p.means matches Some(PaymentMeans::Card(c)) && digit_count(c.pan@) > 10
}

/// Where [`br_51`] states when it appends a finding.
pub open spec fn br_51_bound(invoice: Invoice) -> bool {
    true
}

/// BR-51: a card number with more than ten digits is a full card number.
pub fn br_51(invoice: &Invoice, report: &mut Report)
    ensures
        emitted(*old(report), *final(report), "BR-51"@),
        fires_once(*old(report), *final(report), invoice.payment matches Some(p)
            && p.means matches Some(PaymentMeans::Card(c)) && digit_count(c.pan@) > 10),
{
    match &invoice.payment {
        Some(p) => match &p.means {
            Some(PaymentMeans::Card(c)) => {
                if count_digits(c.pan.as_str()) > 10 {
                    warning_at(
                        report,
                        "BR-51",
                        Path::term(BtId(87)),
                        "An invoice should never include a full card primary account number (BT-87)",
                    );
                    return;
                }
            },
            _ => {},
        },
        None => {},
    }
    proof {
        lemma_emitted_none(*report, "BR-51"@);
    }
}

/// When [`br_53`] appends a finding: exactly when this holds, under [`br_53_bound`].
pub open spec fn br_53_fires(invoice: Invoice) -> bool {
    invoice.tax_currency matches Some(c) && !blank(c@) && !(
    if eq_ic(c@, invoice.currency@) {
        invoice.totals matches Some(t) && t.tax_total is Some
    } else {
        invoice.totals matches Some(t) && t.tax_total_accounting is Some
    })
}

/// Where [`br_53`] states when it appends a finding.
pub open spec fn br_53_bound(invoice: Invoice) -> bool {
    true
}

/// BR-53: an accounting currency code needs a tax total in that currency.
pub fn br_53(invoice: &Invoice, report: &mut Report)
    ensures
        emitted(*old(report), *final(report), "BR-53"@),
        fires_once(*old(report), *final(report), invoice.tax_currency matches Some(c) && !blank(c@) && !(
        if eq_ic(c@, invoice.currency@) {
            invoice.totals matches Some(t) && t.tax_total is Some
        } else {
            invoice.totals matches Some(t) && t.tax_total_accounting is Some
        })),
{
    match &invoice.tax_currency {
        Some(c) => {
            if !c.is_empty() {
                let same = str_eq_ic(c.as_str(), invoice.currency.as_str());
                let has_amount = match &invoice.totals {
                    Some(t) => if same {
                        t.tax_total.is_some()
                    } else {
                        t.tax_total_accounting.is_some()
                    },
                    None => false,
                };
                if !has_amount {
                    fatal_at(
                        report,
                        "BR-53",
                        Path::term(BtId(111)),
                        "If the VAT accounting currency code (BT-6) is present, then a TaxAmount in that currency shall be provided",
                    );
                    return;
                }
            }
        },
        None => {},
    }
    proof {
        lemma_emitted_none(*report, "BR-53"@);
    }
}

/// When [`ibr_02_my`] appends a finding: exactly when this holds, under [`ibr_02_my_bound`].
pub open spec fn ibr_02_my_fires(invoice: Invoice) -> bool {
    invoice.profile == Profile::PintMy
        && invoice.seller.legal_registration is None
}

/// Where [`ibr_02_my`] states when it appends a finding.
pub open spec fn ibr_02_my_bound(invoice: Invoice) -> bool {
    true
}

/// IBR-02-MY: on PINT-MY the seller has a legal registration.
pub fn ibr_02_my(invoice: &Invoice, report: &mut Report)
    ensures
        emitted(*old(report), *final(report), "IBR-02-MY"@),
        fires_once(*old(report), *final(report), invoice.profile == Profile::PintMy
            && invoice.seller.legal_registration is None),
{
    if invoice.profile == Profile::PintMy && invoice.seller.legal_registration.is_none() {
        fatal_at(report, "IBR-02-MY", Path::term(BtId(30)), "Seller legal registration identifier (BRN) shall be present");
    } else {
        proof {
            lemma_emitted_none(*report, "IBR-02-MY"@);
        }
    }
}

/// When [`ibr_03_my`] appends a finding: exactly when this holds, under [`ibr_03_my_bound`].
pub open spec fn ibr_03_my_fires(invoice: Invoice) -> bool {
    invoice.profile == Profile::PintMy
        && invoice.buyer.legal_registration is None
}

/// Where [`ibr_03_my`] states when it appends a finding.
pub open spec fn ibr_03_my_bound(invoice: Invoice) -> bool {
    true
}

/// IBR-03-MY: on PINT-MY the buyer has a legal registration.
pub fn ibr_03_my(invoice: &Invoice, report: &mut Report)
    ensures
        emitted(*old(report), *final(report), "IBR-03-MY"@),
        fires_once(*old(report), *final(report), invoice.profile == Profile::PintMy
            && invoice.buyer.legal_registration is None),
{
    if invoice.profile == Profile::PintMy && invoice.buyer.legal_registration.is_none() {
        fatal_at(report, "IBR-03-MY", Path::term(BtId(47)), "Buyer legal registration identifier (BRN) shall be present");
    } else {
        proof {
            lemma_emitted_none(*report, "IBR-03-MY"@);
        }
    }
}

/// When [`ibr_04_my`] appends a finding: exactly when this holds, under [`ibr_04_my_bound`].
pub open spec fn ibr_04_my_fires(invoice: Invoice) -> bool {
    invoice.profile == Profile::PintMy
        && invoice.seller.tax_registration is None
}

/// Where [`ibr_04_my`] states when it appends a finding.
pub open spec fn ibr_04_my_bound(invoice: Invoice) -> bool {
    true
}

/// IBR-04-MY: on PINT-MY the seller has a tax registration (TIN).
pub fn ibr_04_my(invoice: &Invoice, report: &mut Report)
    ensures
        emitted(*old(report), *final(report), "IBR-04-MY"@),
        fires_once(*old(report), *final(report), invoice.profile == Profile::PintMy
            && invoice.seller.tax_registration is None),
{
    if invoice.profile == Profile::PintMy && invoice.seller.tax_registration.is_none() {
        fatal_at(report, "IBR-04-MY", Path::term(BtId(32)), "Seller TIN (tax registration) shall be present");
    } else {
        proof {
            lemma_emitted_none(*report, "IBR-04-MY"@);
        }
    }
}

/// When [`ibr_cl_05_my`] appends a finding: exactly when this holds, under [`ibr_cl_05_my_bound`].
pub open spec fn ibr_cl_05_my_fires(invoice: Invoice) -> bool {
    invoice.profile == Profile::PintMy
        && (invoice.tax_currency matches Some(c) && !eq_ic(c@, "MYR"@))
}

/// Where [`ibr_cl_05_my`] states when it appends a finding.
pub open spec fn ibr_cl_05_my_bound(invoice: Invoice) -> bool {
    true
}

/// IBR-CL-05-MY: on PINT-MY a tax currency is MYR.
pub fn ibr_cl_05_my(invoice: &Invoice, report: &mut Report)
    ensures
        emitted(*old(report), *final(report), "IBR-CL-05-MY"@),
        fires_once(*old(report), *final(report), invoice.profile == Profile::PintMy
            && (invoice.tax_currency matches Some(c) && !eq_ic(c@, "MYR"@))),
{
    if invoice.profile == Profile::PintMy {
        match &invoice.tax_currency {
            Some(c) => {
                if !str_eq_ic(c.as_str(), "MYR") {
                    fatal_at(
                        report,
                        "IBR-CL-05-MY",
                        Path::term(BtId(6)),
                        "If tax currency (BT-6 / IBT-006) is present it shall be MYR",
                    );
                    return;
                }
            },
            None => {},
        }
    }
    proof {
        lemma_emitted_none(*report, "IBR-CL-05-MY"@);
    }
}

/// A check that the registry keeps for its text only; it appends nothing.
pub fn no_finding(invoice: &Invoice, report: &mut Report)
    ensures
        *final(report) == *old(report),
{
}

} // verus!
