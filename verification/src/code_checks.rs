//! Code list checks (BR-CL-*): each appends findings under its own id only.
use vstd::prelude::*;
use crate::bt::{BtId, Group, Path};
use crate::checks::{fires_once, fires_some};
use crate::codes::{
    country, credit_note_type, currency, eas, invoice_type, iso_3166_spec, iso_4217_spec, listed_exact, listed_ic,
    mime, mime_spec, rec20_spec, uncl_1001_credit_note_spec, uncl_1001_invoice_spec, uncl_2005, uncl_2005_spec,
    uncl_4461, uncl_4461_spec, uncl_5189, uncl_5189_spec, uncl_5305, uncl_5305_spec, uncl_7143, uncl_7143_spec,
    uncl_7161, uncl_7161_spec, unit, vatex, vatex_spec, eas_spec,
};
use crate::emit::{added, emitted, fatal_msg, lemma_emitted_none, lemma_emitted_trans};
use crate::invoice::{Invoice, Line, Party, party_country};
use crate::kind::DocumentKind;
use crate::profile::Profile;
use crate::report::Report;
use crate::tax::TaxSystem;
use crate::text::{blank, concat3, is_blank, str_eq};

verus! {

/// When [`br_cl_17`] appends a finding: exactly when this holds, under [`br_cl_17_bound`].
pub open spec fn br_cl_17_fires(invoice: Invoice) -> bool {
    vat_profile(invoice) && exists|k: int| #![trigger invoice.tax_breakdown@[k]] 0 <= k < invoice.tax_breakdown@.len() && !listed_ic(uncl_5305_spec(), invoice.tax_breakdown@[k].category@)
}

/// Where [`br_cl_17`] states when it appends a finding.
pub open spec fn br_cl_17_bound(invoice: Invoice) -> bool {
    true
}

/// BR-CL-17: on EN 16931 and Peppol, breakdown categories are UNCL 5305 codes.
pub fn br_cl_17(invoice: &Invoice, report: &mut Report)
    ensures
        emitted(*old(report), *final(report), "BR-CL-17"@),
        fires_some(*old(report), *final(report), vat_profile(*invoice) && exists|k: int| #![trigger invoice.tax_breakdown@[k]] 0 <= k < invoice.tax_breakdown@.len() && !listed_ic(uncl_5305_spec(), invoice.tax_breakdown@[k].category@)),
{
    let ghost start = *report;
    proof {
        lemma_emitted_none(start, "BR-CL-17"@);
    }
    if !(vat_profile_exec(invoice)) {
        return;
    }
    let mut i: usize = 0;
    while i < invoice.tax_breakdown.len()
        invariant
            i <= invoice.tax_breakdown.len(),
            vat_profile(*invoice),
            emitted(start, *report, "BR-CL-17"@),
            added(start, *report) > 0 <==> exists|k: int| #![trigger invoice.tax_breakdown@[k]] 0 <= k < i && !listed_ic(uncl_5305_spec(), invoice.tax_breakdown@[k].category@),
        decreases invoice.tax_breakdown.len() - i,
    {
        let it = &invoice.tax_breakdown[i];
        if !uncl_5305(it.category.as_str()) {
            let ghost before = *report;
            fatal_msg(report, "BR-CL-17", Path::at_term(Group::TaxBreakdown, i, BtId(118)), concat3("BT-118 ", it.category.as_str(), " is not UNCL 5305"));
            proof {
                lemma_emitted_trans(start, before, *report, "BR-CL-17"@);
            }
        }
        i = i + 1;
    }
}

/// When [`br_cl_18`] appends a finding: exactly when this holds, under [`br_cl_18_bound`].
pub open spec fn br_cl_18_fires(invoice: Invoice) -> bool {
    vat_profile(invoice) && exists|k: int| #![trigger invoice.lines@[k]] 0 <= k < invoice.lines@.len() && (invoice.lines@[k].tax.system == TaxSystem::Vat && !listed_ic(uncl_5305_spec(), invoice.lines@[k].tax.code@))
}

/// Where [`br_cl_18`] states when it appends a finding.
pub open spec fn br_cl_18_bound(invoice: Invoice) -> bool {
    true
}

/// BR-CL-18: on EN 16931 and Peppol, VAT line categories are UNCL 5305 codes.
pub fn br_cl_18(invoice: &Invoice, report: &mut Report)
    ensures
        emitted(*old(report), *final(report), "BR-CL-18"@),
        fires_some(*old(report), *final(report), vat_profile(*invoice) && exists|k: int| #![trigger invoice.lines@[k]] 0 <= k < invoice.lines@.len() && (invoice.lines@[k].tax.system == TaxSystem::Vat && !listed_ic(uncl_5305_spec(), invoice.lines@[k].tax.code@))),
{
    let ghost start = *report;
    proof {
        lemma_emitted_none(start, "BR-CL-18"@);
    }
    if !(vat_profile_exec(invoice)) {
        return;
    }
    let mut i: usize = 0;
    while i < invoice.lines.len()
        invariant
            i <= invoice.lines.len(),
            vat_profile(*invoice),
            emitted(start, *report, "BR-CL-18"@),
            added(start, *report) > 0 <==> exists|k: int| #![trigger invoice.lines@[k]] 0 <= k < i && (invoice.lines@[k].tax.system == TaxSystem::Vat && !listed_ic(uncl_5305_spec(), invoice.lines@[k].tax.code@)),
        decreases invoice.lines.len() - i,
    {
        let it = &invoice.lines[i];
        if it.tax.system == TaxSystem::Vat && !uncl_5305(it.tax.code.as_str()) {
            let ghost before = *report;
            fatal_msg(report, "BR-CL-18", Path::at_term(Group::Line, i, BtId(151)), concat3("BT-151 ", it.tax.code.as_str(), " is not UNCL 5305"));
            proof {
                lemma_emitted_trans(start, before, *report, "BR-CL-18"@);
            }
        }
        i = i + 1;
    }
}

/// When [`br_cl_22`] appends a finding: exactly when this holds, under [`br_cl_22_bound`].
pub open spec fn br_cl_22_fires(invoice: Invoice) -> bool {
    exists|k: int| #![trigger invoice.tax_breakdown@[k]] 0 <= k < invoice.tax_breakdown@.len() && (invoice.tax_breakdown@[k].exemption_code matches Some(c) && !listed_ic(vatex_spec(), c@))
}

/// Where [`br_cl_22`] states when it appends a finding.
pub open spec fn br_cl_22_bound(invoice: Invoice) -> bool {
    true
}

/// BR-CL-22: exemption reason codes are VATEX codes.
pub fn br_cl_22(invoice: &Invoice, report: &mut Report)
    ensures
        emitted(*old(report), *final(report), "BR-CL-22"@),
        fires_some(*old(report), *final(report), exists|k: int| #![trigger invoice.tax_breakdown@[k]] 0 <= k < invoice.tax_breakdown@.len() && (invoice.tax_breakdown@[k].exemption_code matches Some(c) && !listed_ic(vatex_spec(), c@))),
{
    let ghost start = *report;
    proof {
        lemma_emitted_none(start, "BR-CL-22"@);
    }
    let mut i: usize = 0;
    while i < invoice.tax_breakdown.len()
        invariant
            i <= invoice.tax_breakdown.len(),
            emitted(start, *report, "BR-CL-22"@),
            added(start, *report) > 0 <==> exists|k: int| #![trigger invoice.tax_breakdown@[k]] 0 <= k < i && (invoice.tax_breakdown@[k].exemption_code matches Some(c) && !listed_ic(vatex_spec(), c@)),
        decreases invoice.tax_breakdown.len() - i,
    {
        let it = &invoice.tax_breakdown[i];
        match &it.exemption_code {
            Some(c) => {
                if !vatex(c.as_str()) {
                    let ghost before = *report;
            fatal_msg(report, "BR-CL-22", Path::at_term(Group::TaxBreakdown, i, BtId(121)), concat3("BT-121 ", c.as_str(), " is not a VATEX code"));
            proof {
                lemma_emitted_trans(start, before, *report, "BR-CL-22"@);
            }
                }
            },
            None => {},
        }
        i = i + 1;
    }
}

/// When [`br_cl_23`] appends a finding: exactly when this holds, under [`br_cl_23_bound`].
pub open spec fn br_cl_23_fires(invoice: Invoice) -> bool {
    exists|k: int| #![trigger invoice.lines@[k]] 0 <= k < invoice.lines@.len() && (invoice.lines@[k].unit matches Some(u) && !listed_exact(rec20_spec(), u@))
}

/// Where [`br_cl_23`] states when it appends a finding.
pub open spec fn br_cl_23_bound(invoice: Invoice) -> bool {
    true
}

/// BR-CL-23: unit codes are UN/ECE Recommendation 20/21 codes.
pub fn br_cl_23(invoice: &Invoice, report: &mut Report)
    ensures
        emitted(*old(report), *final(report), "BR-CL-23"@),
        fires_some(*old(report), *final(report), exists|k: int| #![trigger invoice.lines@[k]] 0 <= k < invoice.lines@.len() && (invoice.lines@[k].unit matches Some(u) && !listed_exact(rec20_spec(), u@))),
{
    let ghost start = *report;
    proof {
        lemma_emitted_none(start, "BR-CL-23"@);
    }
    let mut i: usize = 0;
    while i < invoice.lines.len()
        invariant
            i <= invoice.lines.len(),
            emitted(start, *report, "BR-CL-23"@),
            added(start, *report) > 0 <==> exists|k: int| #![trigger invoice.lines@[k]] 0 <= k < i && (invoice.lines@[k].unit matches Some(u) && !listed_exact(rec20_spec(), u@)),
        decreases invoice.lines.len() - i,
    {
        let it = &invoice.lines[i];
        match &it.unit {
            Some(u) => {
                if !unit(u.as_str()) {
                    let ghost before = *report;
            fatal_msg(report, "BR-CL-23", Path::at_term(Group::Line, i, BtId(130)), concat3("BT-130 ", u.as_str(), " is not UNECE Rec 20/21"));
            proof {
                lemma_emitted_trans(start, before, *report, "BR-CL-23"@);
            }
                }
            },
            None => {},
        }
        i = i + 1;
    }
}

/// When [`br_cl_24`] appends a finding: exactly when this holds, under [`br_cl_24_bound`].
pub open spec fn br_cl_24_fires(invoice: Invoice) -> bool {
    exists|k: int| #![trigger invoice.supporting_documents@[k]] 0 <= k < invoice.supporting_documents@.len() && (invoice.supporting_documents@[k].attachment matches Some(a) && !listed_exact(mime_spec(), a.mime@))
}

/// Where [`br_cl_24`] states when it appends a finding.
pub open spec fn br_cl_24_bound(invoice: Invoice) -> bool {
    true
}

/// BR-CL-24: attachment MIME codes are in the allowed subset.
pub fn br_cl_24(invoice: &Invoice, report: &mut Report)
    ensures
        emitted(*old(report), *final(report), "BR-CL-24"@),
        fires_some(*old(report), *final(report), exists|k: int| #![trigger invoice.supporting_documents@[k]] 0 <= k < invoice.supporting_documents@.len() && (invoice.supporting_documents@[k].attachment matches Some(a) && !listed_exact(mime_spec(), a.mime@))),
{
    let ghost start = *report;
    proof {
        lemma_emitted_none(start, "BR-CL-24"@);
    }
    let mut i: usize = 0;
    while i < invoice.supporting_documents.len()
        invariant
            i <= invoice.supporting_documents.len(),
            emitted(start, *report, "BR-CL-24"@),
            added(start, *report) > 0 <==> exists|k: int| #![trigger invoice.supporting_documents@[k]] 0 <= k < i && (invoice.supporting_documents@[k].attachment matches Some(a) && !listed_exact(mime_spec(), a.mime@)),
        decreases invoice.supporting_documents.len() - i,
    {
        let it = &invoice.supporting_documents[i];
        match &it.attachment {
            Some(a) => {
                if !mime(a.mime.as_str()) {
                    let ghost before = *report;
            fatal_msg(report, "BR-CL-24", Path::at_term(Group::Attachment, i, BtId(125)), concat3("mime ", a.mime.as_str(), " is not in the subset"));
            proof {
                lemma_emitted_trans(start, before, *report, "BR-CL-24"@);
            }
                }
            },
            None => {},
        }
        i = i + 1;
    }
}

/// When [`br_cl_15`] appends a finding: exactly when this holds, under [`br_cl_15_bound`].
pub open spec fn br_cl_15_fires(invoice: Invoice) -> bool {
    exists|k: int| #![trigger invoice.lines@[k]] 0 <= k < invoice.lines@.len() && (invoice.lines@[k].origin_country matches Some(c) && !listed_ic(iso_3166_spec(), c@))
}

/// Where [`br_cl_15`] states when it appends a finding.
pub open spec fn br_cl_15_bound(invoice: Invoice) -> bool {
    true
}

/// BR-CL-15: item country of origin is an ISO 3166-1 code.
pub fn br_cl_15(invoice: &Invoice, report: &mut Report)
    ensures
        emitted(*old(report), *final(report), "BR-CL-15"@),
        fires_some(*old(report), *final(report), exists|k: int| #![trigger invoice.lines@[k]] 0 <= k < invoice.lines@.len() && (invoice.lines@[k].origin_country matches Some(c) && !listed_ic(iso_3166_spec(), c@))),
{
    let ghost start = *report;
    proof {
        lemma_emitted_none(start, "BR-CL-15"@);
    }
    let mut i: usize = 0;
    while i < invoice.lines.len()
        invariant
            i <= invoice.lines.len(),
            emitted(start, *report, "BR-CL-15"@),
            added(start, *report) > 0 <==> exists|k: int| #![trigger invoice.lines@[k]] 0 <= k < i && (invoice.lines@[k].origin_country matches Some(c) && !listed_ic(iso_3166_spec(), c@)),
        decreases invoice.lines.len() - i,
    {
        let it = &invoice.lines[i];
        match &it.origin_country {
            Some(c) => {
                if !country(c.as_str()) {
                    let ghost before = *report;
            fatal_msg(report, "BR-CL-15", Path::at_term(Group::Line, i, BtId(159)), concat3("BT-159 ", c.as_str(), " is not ISO 3166-1 alpha-2"));
            proof {
                lemma_emitted_trans(start, before, *report, "BR-CL-15"@);
            }
                }
            },
            None => {},
        }
        i = i + 1;
    }
}

/// When [`br_cl_19`] appends a finding: exactly when this holds, under [`br_cl_19_bound`].
pub open spec fn br_cl_19_fires(invoice: Invoice) -> bool {
    exists|k: int| #![trigger invoice.document_allowances@[k]] 0 <= k < invoice.document_allowances@.len() && (invoice.document_allowances@[k].reason_code matches Some(c) && !listed_exact(uncl_5189_spec(), c@))
}

/// Where [`br_cl_19`] states when it appends a finding.
pub open spec fn br_cl_19_bound(invoice: Invoice) -> bool {
    true
}

/// BR-CL-19: allowance reason codes are UNCL 5189 codes.
pub fn br_cl_19(invoice: &Invoice, report: &mut Report)
    ensures
        emitted(*old(report), *final(report), "BR-CL-19"@),
        fires_some(*old(report), *final(report), exists|k: int| #![trigger invoice.document_allowances@[k]] 0 <= k < invoice.document_allowances@.len() && (invoice.document_allowances@[k].reason_code matches Some(c) && !listed_exact(uncl_5189_spec(), c@))),
{
    let ghost start = *report;
    proof {
        lemma_emitted_none(start, "BR-CL-19"@);
    }
    let mut i: usize = 0;
    while i < invoice.document_allowances.len()
        invariant
            i <= invoice.document_allowances.len(),
            emitted(start, *report, "BR-CL-19"@),
            added(start, *report) > 0 <==> exists|k: int| #![trigger invoice.document_allowances@[k]] 0 <= k < i && (invoice.document_allowances@[k].reason_code matches Some(c) && !listed_exact(uncl_5189_spec(), c@)),
        decreases invoice.document_allowances.len() - i,
    {
        let it = &invoice.document_allowances[i];
        match &it.reason_code {
            Some(c) => {
                if !uncl_5189(c.as_str()) {
                    let ghost before = *report;
            fatal_msg(report, "BR-CL-19", Path::at_term(Group::DocumentAllowance, i, BtId(98)), concat3("BT-98 ", c.as_str(), " is not UNCL 5189"));
            proof {
                lemma_emitted_trans(start, before, *report, "BR-CL-19"@);
            }
                }
            },
            None => {},
        }
        i = i + 1;
    }
}

/// When [`br_cl_20`] appends a finding: exactly when this holds, under [`br_cl_20_bound`].
pub open spec fn br_cl_20_fires(invoice: Invoice) -> bool {
    exists|k: int| #![trigger invoice.document_charges@[k]] 0 <= k < invoice.document_charges@.len() && (invoice.document_charges@[k].reason_code matches Some(c) && !listed_exact(uncl_7161_spec(), c@))
}

/// Where [`br_cl_20`] states when it appends a finding.
pub open spec fn br_cl_20_bound(invoice: Invoice) -> bool {
    true
}

/// BR-CL-20: charge reason codes are UNCL 7161 codes.
pub fn br_cl_20(invoice: &Invoice, report: &mut Report)
    ensures
        emitted(*old(report), *final(report), "BR-CL-20"@),
        fires_some(*old(report), *final(report), exists|k: int| #![trigger invoice.document_charges@[k]] 0 <= k < invoice.document_charges@.len() && (invoice.document_charges@[k].reason_code matches Some(c) && !listed_exact(uncl_7161_spec(), c@))),
{
    let ghost start = *report;
    proof {
        lemma_emitted_none(start, "BR-CL-20"@);
    }
    let mut i: usize = 0;
    while i < invoice.document_charges.len()
        invariant
            i <= invoice.document_charges.len(),
            emitted(start, *report, "BR-CL-20"@),
            added(start, *report) > 0 <==> exists|k: int| #![trigger invoice.document_charges@[k]] 0 <= k < i && (invoice.document_charges@[k].reason_code matches Some(c) && !listed_exact(uncl_7161_spec(), c@)),
        decreases invoice.document_charges.len() - i,
    {
        let it = &invoice.document_charges[i];
        match &it.reason_code {
            Some(c) => {
                if !uncl_7161(c.as_str()) {
                    let ghost before = *report;
            fatal_msg(report, "BR-CL-20", Path::at_term(Group::DocumentCharge, i, BtId(105)), concat3("BT-105 ", c.as_str(), " is not UNCL 7161"));
            proof {
                lemma_emitted_trans(start, before, *report, "BR-CL-20"@);
            }
                }
            },
            None => {},
        }
        i = i + 1;
    }
}


/// The profile checks EN 16931 code lists (EN 16931 and Peppol).
pub open spec fn vat_profile(inv: Invoice) -> bool {
    inv.profile == Profile::En16931 || inv.profile == Profile::PeppolBis3
}

fn vat_profile_exec(inv: &Invoice) -> (r: bool)
    ensures
        r == vat_profile(*inv),
{
    inv.profile == Profile::En16931 || inv.profile == Profile::PeppolBis3
}

/// A type code outside the UNTDID 1001 list of the document kind.
pub open spec fn type_code_bad(kind: DocumentKind, c: Seq<char>) -> bool {
    match kind {
        DocumentKind::Invoice => !listed_exact(uncl_1001_invoice_spec(), c),
        DocumentKind::CreditNote => !listed_exact(uncl_1001_credit_note_spec(), c),
    }
}

/// When [`br_cl_01`] appends a finding: exactly when this holds, under [`br_cl_01_bound`].
pub open spec fn br_cl_01_fires(invoice: Invoice) -> bool {
    invoice.type_code matches Some(c) && type_code_bad(invoice.kind, c@)
}

/// Where [`br_cl_01`] states when it appends a finding.
pub open spec fn br_cl_01_bound(invoice: Invoice) -> bool {
    true
}

/// BR-CL-01: the type code is in the UNTDID 1001 list of the document kind.
pub fn br_cl_01(invoice: &Invoice, report: &mut Report)
    ensures
        emitted(*old(report), *final(report), "BR-CL-01"@),
        fires_once(*old(report), *final(report), invoice.type_code matches Some(c) && type_code_bad(invoice.kind, c@)),
{
    match &invoice.type_code {
        Some(c) => {
            let (ok, kind) = match invoice.kind {
                DocumentKind::Invoice => (invoice_type(c.as_str()), "Invoice"),
                DocumentKind::CreditNote => (credit_note_type(c.as_str()), "CreditNote"),
            };
            if !ok {
                let mut m = concat3("type code ", c.as_str(), " is not in the UNTDID 1001 list for ");
                m.append(kind);
                fatal_msg(report, "BR-CL-01", Path::term(BtId(3)), m);
                return;
            }
        },
        None => {},
    }
    proof {
        lemma_emitted_none(*report, "BR-CL-01"@);
    }
}

/// When [`br_cl_04`] appends a finding: exactly when this holds, under [`br_cl_04_bound`].
pub open spec fn br_cl_04_fires(invoice: Invoice) -> bool {
    !blank(invoice.currency@) && !listed_ic(iso_4217_spec(), invoice.currency@)
}

/// Where [`br_cl_04`] states when it appends a finding.
pub open spec fn br_cl_04_bound(invoice: Invoice) -> bool {
    true
}

/// BR-CL-04: a non-blank currency code is an ISO 4217 code.
pub fn br_cl_04(invoice: &Invoice, report: &mut Report)
    ensures
        emitted(*old(report), *final(report), "BR-CL-04"@),
        fires_once(*old(report), *final(report), !blank(invoice.currency@) && !listed_ic(iso_4217_spec(), invoice.currency@)),
{
    if !is_blank(invoice.currency.as_str()) && !currency(invoice.currency.as_str()) {
        fatal_msg(report, "BR-CL-04", Path::term(BtId(5)), concat3("BT-5 ", invoice.currency.as_str(), " is not an ISO 4217 alphabetic code"));
    } else {
        proof {
            lemma_emitted_none(*report, "BR-CL-04"@);
        }
    }
}

/// When [`br_cl_05`] appends a finding: exactly when this holds, under [`br_cl_05_bound`].
pub open spec fn br_cl_05_fires(invoice: Invoice) -> bool {
    invoice.tax_currency matches Some(c) && !listed_ic(iso_4217_spec(), c@)
}

/// Where [`br_cl_05`] states when it appends a finding.
pub open spec fn br_cl_05_bound(invoice: Invoice) -> bool {
    true
}

/// BR-CL-05: an accounting currency code is an ISO 4217 code.
pub fn br_cl_05(invoice: &Invoice, report: &mut Report)
    ensures
        emitted(*old(report), *final(report), "BR-CL-05"@),
        fires_once(*old(report), *final(report), invoice.tax_currency matches Some(c) && !listed_ic(iso_4217_spec(), c@)),
{
    match &invoice.tax_currency {
        Some(c) => {
            if !currency(c.as_str()) {
                fatal_msg(report, "BR-CL-05", Path::term(BtId(6)), concat3("BT-6 ", c.as_str(), " is not an ISO 4217 alphabetic code"));
                return;
            }
        },
        None => {},
    }
    proof {
        lemma_emitted_none(*report, "BR-CL-05"@);
    }
}

/// When [`br_cl_06`] appends a finding: exactly when this holds, under [`br_cl_06_bound`].
pub open spec fn br_cl_06_fires(invoice: Invoice) -> bool {
    invoice.tax_point_code matches Some(c) && !listed_exact(uncl_2005_spec(), c@)
}

/// Where [`br_cl_06`] states when it appends a finding.
pub open spec fn br_cl_06_bound(invoice: Invoice) -> bool {
    true
}

/// BR-CL-06: a tax point date code is a UNCL 2005 code.
pub fn br_cl_06(invoice: &Invoice, report: &mut Report)
    ensures
        emitted(*old(report), *final(report), "BR-CL-06"@),
        fires_once(*old(report), *final(report), invoice.tax_point_code matches Some(c) && !listed_exact(uncl_2005_spec(), c@)),
{
    match &invoice.tax_point_code {
        Some(c) => {
            if !uncl_2005(c.as_str()) {
                fatal_msg(report, "BR-CL-06", Path::term(BtId(8)), concat3("BT-8 ", c.as_str(), " is not UNCL 2005 (3, 35, 432)"));
                return;
            }
        },
        None => {},
    }
    proof {
        lemma_emitted_none(*report, "BR-CL-06"@);
    }
}

/// A party country that is given and is not an ISO 3166-1 code.
pub open spec fn country_bad(p: Party) -> bool {
    !blank(party_country(p)) && !listed_ic(iso_3166_spec(), party_country(p))
}

fn party_country_check(p: &Party, group: Group, bt: u16, report: &mut Report)
    ensures
        emitted(*old(report), *final(report), "BR-CL-14"@),
        fires_once(*old(report), *final(report), country_bad(*p)),
{
    let c = p.country();
    if !is_blank(c) && !country(c) {
        fatal_msg(report, "BR-CL-14", Path::group_term(group, BtId(bt)), concat3("country ", c, " is not ISO 3166-1 alpha-2"));
    } else {
        proof {
            lemma_emitted_none(*report, "BR-CL-14"@);
        }
    }
}

/// BR-CL-14: seller and buyer countries are ISO 3166-1 codes; one finding per party.
pub fn br_cl_14(invoice: &Invoice, report: &mut Report)
    ensures
        emitted(*old(report), *final(report), "BR-CL-14"@),
        added(*old(report), *final(report)) == (if country_bad(invoice.seller) { 1int } else { 0int }) + (if country_bad(
            invoice.buyer,
        ) {
            1int
        } else {
            0int
        }),
{
    let ghost start = *report;
    party_country_check(&invoice.seller, Group::Seller, 40, report);
    let ghost mid = *report;
    party_country_check(&invoice.buyer, Group::Buyer, 55, report);
    proof {
        lemma_emitted_trans(start, mid, *report, "BR-CL-14"@);
    }
}

/// PINT-MY payment means extras.
pub open spec fn my_payment_code(c: Seq<char>) -> bool {
    c == "Z01"@ || c == "Z03"@ || c == "Z04"@ || c == "Z05"@ || c == "Z06"@ || c == "Z07"@ || c == "Z08"@
}

fn my_payment_code_exec(c: &str) -> (r: bool)
    ensures
        r == my_payment_code(c@),
{
    str_eq(c, "Z01") || str_eq(c, "Z03") || str_eq(c, "Z04") || str_eq(c, "Z05") || str_eq(c, "Z06") || str_eq(c, "Z07")
        || str_eq(c, "Z08")
}

/// When [`br_cl_16`] appends a finding: exactly when this holds, under [`br_cl_16_bound`].
pub open spec fn br_cl_16_fires(invoice: Invoice) -> bool {
    invoice.payment matches Some(p) && p.means_code matches Some(c)
        && !(listed_exact(uncl_4461_spec(), c@) || (invoice.profile == Profile::PintMy && my_payment_code(c@)))
}

/// Where [`br_cl_16`] states when it appends a finding.
pub open spec fn br_cl_16_bound(invoice: Invoice) -> bool {
    true
}

/// BR-CL-16: a payment means code is a UNCL 4461 code (and on PINT-MY also Z01, Z03–Z08).
pub fn br_cl_16(invoice: &Invoice, report: &mut Report)
    ensures
        emitted(*old(report), *final(report), "BR-CL-16"@),
        fires_once(*old(report), *final(report), invoice.payment matches Some(p) && p.means_code matches Some(c)
            && !(listed_exact(uncl_4461_spec(), c@) || (invoice.profile == Profile::PintMy && my_payment_code(c@)))),
{
    match &invoice.payment {
        Some(p) => match &p.means_code {
            Some(c) => {
                let ok = uncl_4461(c.as_str()) || (invoice.profile == Profile::PintMy && my_payment_code_exec(c.as_str()));
                if !ok {
                    fatal_msg(
                        report,
                        "BR-CL-16",
                        Path::group_term(Group::Payment, BtId(81)),
                        concat3("BT-81 ", c.as_str(), " is not in UNCL 4461 (MY Z0x are profile extras)"),
                    );
                    return;
                }
            },
            None => {},
        },
        None => {},
    }
    proof {
        lemma_emitted_none(*report, "BR-CL-16"@);
    }
}

/// An electronic address whose scheme is given and is not an EAS code.
pub open spec fn eas_bad(p: Party) -> bool {
    p.electronic_address matches Some(e) && e.scheme matches Some(s) && !listed_exact(eas_spec(), s@)
}

fn party_eas_check(p: &Party, group: Group, bt: u16, report: &mut Report)
    ensures
        emitted(*old(report), *final(report), "BR-CL-25"@),
        fires_once(*old(report), *final(report), eas_bad(*p)),
{
    match &p.electronic_address {
        Some(e) => match &e.scheme {
            Some(s) => {
                if !eas(s.as_str()) {
                    fatal_msg(
                        report,
                        "BR-CL-25",
                        Path::group_term(group, BtId(bt)),
                        concat3("EAS ", s.as_str(), " is not in the Electronic Address Identifier Scheme list"),
                    );
                    return;
                }
            },
            None => {},
        },
        None => {},
    }
    proof {
        lemma_emitted_none(*report, "BR-CL-25"@);
    }
}

/// BR-CL-25: electronic address schemes are EAS codes; one finding per party.
pub fn br_cl_25(invoice: &Invoice, report: &mut Report)
    ensures
        emitted(*old(report), *final(report), "BR-CL-25"@),
        added(*old(report), *final(report)) == (if eas_bad(invoice.seller) { 1int } else { 0int }) + (if eas_bad(
            invoice.buyer,
        ) {
            1int
        } else {
            0int
        }),
{
    let ghost start = *report;
    party_eas_check(&invoice.seller, Group::Seller, 34, report);
    let ghost mid = *report;
    party_eas_check(&invoice.buyer, Group::Buyer, 49, report);
    proof {
        lemma_emitted_trans(start, mid, *report, "BR-CL-25"@);
    }
}

/// A line with a classification whose scheme is given and is not UNCL 7143.
pub open spec fn classification_bad(l: Line) -> bool {
    exists|j: int| #![trigger l.classifications@[j]] 0 <= j < l.classifications@.len()
        && (l.classifications@[j].scheme matches Some(s) && !listed_exact(uncl_7143_spec(), s@))
}

fn line_classifications(l: &Line, i: usize, report: &mut Report)
    ensures
        emitted(*old(report), *final(report), "BR-CL-13"@),
        fires_some(*old(report), *final(report), classification_bad(*l)),
{
    let ghost start = *report;
    proof {
        lemma_emitted_none(start, "BR-CL-13"@);
    }
    let mut j: usize = 0;
    while j < l.classifications.len()
        invariant
            j <= l.classifications.len(),
            emitted(start, *report, "BR-CL-13"@),
            added(start, *report) > 0 <==> exists|q: int| #![trigger l.classifications@[q]] 0 <= q < j
                && (l.classifications@[q].scheme matches Some(s) && !listed_exact(uncl_7143_spec(), s@)),
        decreases l.classifications.len() - j,
    {
        match &l.classifications[j].scheme {
            Some(s) => {
                if !uncl_7143(s.as_str()) {
                    let ghost before = *report;
                    fatal_msg(
                        report,
                        "BR-CL-13",
                        Path::at_term(Group::Line, i, BtId(158)),
                        concat3("classification listID ", s.as_str(), " is not UNCL 7143"),
                    );
                    proof {
                        lemma_emitted_trans(start, before, *report, "BR-CL-13"@);
                    }
                }
            },
            None => {},
        }
        j = j + 1;
    }
}

/// When [`br_cl_13`] appends a finding: exactly when this holds, under [`br_cl_13_bound`].
pub open spec fn br_cl_13_fires(invoice: Invoice) -> bool {
    exists|k: int| #![trigger invoice.lines@[k]] 0 <= k < invoice.lines@.len()
        && classification_bad(invoice.lines@[k])
}

/// Where [`br_cl_13`] states when it appends a finding.
pub open spec fn br_cl_13_bound(invoice: Invoice) -> bool {
    true
}

/// BR-CL-13: item classification schemes are UNCL 7143 codes.
pub fn br_cl_13(invoice: &Invoice, report: &mut Report)
    ensures
        emitted(*old(report), *final(report), "BR-CL-13"@),
        fires_some(*old(report), *final(report), exists|k: int| #![trigger invoice.lines@[k]] 0 <= k < invoice.lines@.len()
            && classification_bad(invoice.lines@[k])),
{
    let ghost start = *report;
    proof {
        lemma_emitted_none(start, "BR-CL-13"@);
    }
    let mut i: usize = 0;
    while i < invoice.lines.len()
        invariant
            i <= invoice.lines.len(),
            emitted(start, *report, "BR-CL-13"@),
            added(start, *report) > 0 <==> exists|k: int| #![trigger invoice.lines@[k]] 0 <= k < i && classification_bad(
                invoice.lines@[k],
            ),
        decreases invoice.lines.len() - i,
    {
        let ghost before = *report;
        line_classifications(&invoice.lines[i], i, report);
        proof {
            lemma_emitted_trans(start, before, *report, "BR-CL-13"@);
        }
        i = i + 1;
    }
}

} // verus!
