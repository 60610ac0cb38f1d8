//! Checks that walk the lines, allowances, charges, references and tax rows
//! of an invoice; each appends findings under its own id only.
use vstd::prelude::*;
use crate::bt::{BtId, Group, Path};
use crate::checks::{fires_once, fires_some, has_reason, opt_text_blank, reason_given, text_blank};
use crate::date::date_before;
use crate::emit::{added, emitted, fatal_at, fatal_msg, lemma_emitted_none, lemma_emitted_trans};
use crate::codes::{country, iso_3166_spec, listed_ic};
use crate::identifier::Identifier;
use crate::profile::{Profile, profile_tax_systems};
use crate::tax::{is_pint_my_category, pint_my_category};
use crate::invoice::{Invoice, Line};
use crate::report::Report;
use crate::text::{blank, chars_of, concat, concat3, eq_ic, is_blank, push_char, str_eq, str_eq_ic, trim, trim_str};

verus! {

/// When [`br_21`] appends a finding: exactly when this holds, under [`br_21_bound`].
pub open spec fn br_21_fires(invoice: Invoice) -> bool {
    exists|k: int| #![trigger invoice.lines@[k]] 0 <= k < invoice.lines@.len() && blank(invoice.lines@[k].id@)
}

/// Where [`br_21`] states when it appends a finding.
pub open spec fn br_21_bound(invoice: Invoice) -> bool {
    true
}

/// BR-21: each line has an identifier.
pub fn br_21(invoice: &Invoice, report: &mut Report)
    ensures
        emitted(*old(report), *final(report), "BR-21"@),
        fires_some(*old(report), *final(report), exists|k: int| #![trigger invoice.lines@[k]] 0 <= k < invoice.lines@.len() && blank(invoice.lines@[k].id@)),
{
    let ghost start = *report;
    proof {
        lemma_emitted_none(start, "BR-21"@);
    }
    let mut i: usize = 0;
    while i < invoice.lines.len()
        invariant
            i <= invoice.lines.len(),
            emitted(start, *report, "BR-21"@),
            added(start, *report) > 0 <==> exists|k: int| #![trigger invoice.lines@[k]] 0 <= k < i && blank(invoice.lines@[k].id@),
        decreases invoice.lines.len() - i,
    {
        let it = &invoice.lines[i];
        if is_blank(it.id.as_str()) {
            let ghost before = *report;
            fatal_at(report, "BR-21", Path::at_term(Group::Line, i, BtId(126)), "Each Invoice line shall have an Invoice line identifier (BT-126)");
            proof {
                lemma_emitted_trans(start, before, *report, "BR-21"@);
            }
        }
        i = i + 1;
    }
}

/// When [`br_22`] appends a finding: exactly when this holds, under [`br_22_bound`].
pub open spec fn br_22_fires(invoice: Invoice) -> bool {
    exists|k: int| #![trigger invoice.lines@[k]] 0 <= k < invoice.lines@.len() && invoice.lines@[k].quantity is None
}

/// Where [`br_22`] states when it appends a finding.
pub open spec fn br_22_bound(invoice: Invoice) -> bool {
    true
}

/// BR-22: each line has a quantity.
pub fn br_22(invoice: &Invoice, report: &mut Report)
    ensures
        emitted(*old(report), *final(report), "BR-22"@),
        fires_some(*old(report), *final(report), exists|k: int| #![trigger invoice.lines@[k]] 0 <= k < invoice.lines@.len() && invoice.lines@[k].quantity is None),
{
    let ghost start = *report;
    proof {
        lemma_emitted_none(start, "BR-22"@);
    }
    let mut i: usize = 0;
    while i < invoice.lines.len()
        invariant
            i <= invoice.lines.len(),
            emitted(start, *report, "BR-22"@),
            added(start, *report) > 0 <==> exists|k: int| #![trigger invoice.lines@[k]] 0 <= k < i && invoice.lines@[k].quantity is None,
        decreases invoice.lines.len() - i,
    {
        let it = &invoice.lines[i];
        if it.quantity.is_none() {
            let ghost before = *report;
            fatal_at(report, "BR-22", Path::at_term(Group::Line, i, BtId(129)), "Each Invoice line shall have an Invoiced quantity (BT-129)");
            proof {
                lemma_emitted_trans(start, before, *report, "BR-22"@);
            }
        }
        i = i + 1;
    }
}

/// When [`br_23`] appends a finding: exactly when this holds, under [`br_23_bound`].
pub open spec fn br_23_fires(invoice: Invoice) -> bool {
    exists|k: int| #![trigger invoice.lines@[k]] 0 <= k < invoice.lines@.len() && invoice.lines@[k].unit is None
}

/// Where [`br_23`] states when it appends a finding.
pub open spec fn br_23_bound(invoice: Invoice) -> bool {
    true
}

/// BR-23: each line has a unit code, whether or not it has a quantity.
pub fn br_23(invoice: &Invoice, report: &mut Report)
    ensures
        emitted(*old(report), *final(report), "BR-23"@),
        fires_some(*old(report), *final(report), exists|k: int| #![trigger invoice.lines@[k]] 0 <= k < invoice.lines@.len() && invoice.lines@[k].unit is None),
{
    let ghost start = *report;
    proof {
        lemma_emitted_none(start, "BR-23"@);
    }
    let mut i: usize = 0;
    while i < invoice.lines.len()
        invariant
            i <= invoice.lines.len(),
            emitted(start, *report, "BR-23"@),
            added(start, *report) > 0 <==> exists|k: int| #![trigger invoice.lines@[k]] 0 <= k < i && invoice.lines@[k].unit is None,
        decreases invoice.lines.len() - i,
    {
        let it = &invoice.lines[i];
        if it.unit.is_none() {
            let ghost before = *report;
            fatal_at(report, "BR-23", Path::at_term(Group::Line, i, BtId(130)), "An Invoice line shall have an Invoiced quantity unit of measure code (BT-130)");
            proof {
                lemma_emitted_trans(start, before, *report, "BR-23"@);
            }
        }
        i = i + 1;
    }
}

/// When [`br_25`] appends a finding: exactly when this holds, under [`br_25_bound`].
pub open spec fn br_25_fires(invoice: Invoice) -> bool {
    exists|k: int| #![trigger invoice.lines@[k]] 0 <= k < invoice.lines@.len() && blank(invoice.lines@[k].name@)
}

/// Where [`br_25`] states when it appends a finding.
pub open spec fn br_25_bound(invoice: Invoice) -> bool {
    true
}

/// BR-25: each line has an item name.
pub fn br_25(invoice: &Invoice, report: &mut Report)
    ensures
        emitted(*old(report), *final(report), "BR-25"@),
        fires_some(*old(report), *final(report), exists|k: int| #![trigger invoice.lines@[k]] 0 <= k < invoice.lines@.len() && blank(invoice.lines@[k].name@)),
{
    let ghost start = *report;
    proof {
        lemma_emitted_none(start, "BR-25"@);
    }
    let mut i: usize = 0;
    while i < invoice.lines.len()
        invariant
            i <= invoice.lines.len(),
            emitted(start, *report, "BR-25"@),
            added(start, *report) > 0 <==> exists|k: int| #![trigger invoice.lines@[k]] 0 <= k < i && blank(invoice.lines@[k].name@),
        decreases invoice.lines.len() - i,
    {
        let it = &invoice.lines[i];
        if is_blank(it.name.as_str()) {
            let ghost before = *report;
            fatal_at(report, "BR-25", Path::at_term(Group::Line, i, BtId(153)), "Each Invoice line shall have an Item name (BT-153)");
            proof {
                lemma_emitted_trans(start, before, *report, "BR-25"@);
            }
        }
        i = i + 1;
    }
}

/// When [`br_26`] appends a finding: exactly when this holds, under [`br_26_bound`].
pub open spec fn br_26_fires(invoice: Invoice) -> bool {
    exists|k: int| #![trigger invoice.lines@[k]] 0 <= k < invoice.lines@.len() && invoice.lines@[k].price is None
}

/// Where [`br_26`] states when it appends a finding.
pub open spec fn br_26_bound(invoice: Invoice) -> bool {
    true
}

/// BR-26: each line has a net price.
pub fn br_26(invoice: &Invoice, report: &mut Report)
    ensures
        emitted(*old(report), *final(report), "BR-26"@),
        fires_some(*old(report), *final(report), exists|k: int| #![trigger invoice.lines@[k]] 0 <= k < invoice.lines@.len() && invoice.lines@[k].price is None),
{
    let ghost start = *report;
    proof {
        lemma_emitted_none(start, "BR-26"@);
    }
    let mut i: usize = 0;
    while i < invoice.lines.len()
        invariant
            i <= invoice.lines.len(),
            emitted(start, *report, "BR-26"@),
            added(start, *report) > 0 <==> exists|k: int| #![trigger invoice.lines@[k]] 0 <= k < i && invoice.lines@[k].price is None,
        decreases invoice.lines.len() - i,
    {
        let it = &invoice.lines[i];
        if it.price.is_none() {
            let ghost before = *report;
            fatal_at(report, "BR-26", Path::at_term(Group::Line, i, BtId(146)), "Each Invoice line shall contain the Item net price (BT-146)");
            proof {
                lemma_emitted_trans(start, before, *report, "BR-26"@);
            }
        }
        i = i + 1;
    }
}

/// When [`br_27`] appends a finding: exactly when this holds, under [`br_27_bound`].
pub open spec fn br_27_fires(invoice: Invoice) -> bool {
    exists|k: int| #![trigger invoice.lines@[k]] 0 <= k < invoice.lines@.len() && (invoice.lines@[k].price matches Some(p) && p.net.dec().m() < 0)
}

/// Where [`br_27`] states when it appends a finding.
pub open spec fn br_27_bound(invoice: Invoice) -> bool {
    true
}

/// BR-27: no negative net price.
pub fn br_27(invoice: &Invoice, report: &mut Report)
    ensures
        emitted(*old(report), *final(report), "BR-27"@),
        fires_some(*old(report), *final(report), exists|k: int| #![trigger invoice.lines@[k]] 0 <= k < invoice.lines@.len() && (invoice.lines@[k].price matches Some(p) && p.net.dec().m() < 0)),
{
    let ghost start = *report;
    proof {
        lemma_emitted_none(start, "BR-27"@);
    }
    let mut i: usize = 0;
    while i < invoice.lines.len()
        invariant
            i <= invoice.lines.len(),
            emitted(start, *report, "BR-27"@),
            added(start, *report) > 0 <==> exists|k: int| #![trigger invoice.lines@[k]] 0 <= k < i && (invoice.lines@[k].price matches Some(p) && p.net.dec().m() < 0),
        decreases invoice.lines.len() - i,
    {
        let it = &invoice.lines[i];
        if match &it.price { Some(p) => p.net.raw().is_sign_negative(), None => false } {
            let ghost before = *report;
            fatal_at(report, "BR-27", Path::at_term(Group::Line, i, BtId(146)), "The Item net price (BT-146) shall NOT be negative");
            proof {
                lemma_emitted_trans(start, before, *report, "BR-27"@);
            }
        }
        i = i + 1;
    }
}

/// When [`br_28`] appends a finding: exactly when this holds, under [`br_28_bound`].
pub open spec fn br_28_fires(invoice: Invoice) -> bool {
    exists|k: int| #![trigger invoice.lines@[k]] 0 <= k < invoice.lines@.len() && (invoice.lines@[k].price matches Some(p) && p.gross matches Some(g) && g.dec().m() < 0)
}

/// Where [`br_28`] states when it appends a finding.
pub open spec fn br_28_bound(invoice: Invoice) -> bool {
    true
}

/// BR-28: no negative gross price.
pub fn br_28(invoice: &Invoice, report: &mut Report)
    ensures
        emitted(*old(report), *final(report), "BR-28"@),
        fires_some(*old(report), *final(report), exists|k: int| #![trigger invoice.lines@[k]] 0 <= k < invoice.lines@.len() && (invoice.lines@[k].price matches Some(p) && p.gross matches Some(g) && g.dec().m() < 0)),
{
    let ghost start = *report;
    proof {
        lemma_emitted_none(start, "BR-28"@);
    }
    let mut i: usize = 0;
    while i < invoice.lines.len()
        invariant
            i <= invoice.lines.len(),
            emitted(start, *report, "BR-28"@),
            added(start, *report) > 0 <==> exists|k: int| #![trigger invoice.lines@[k]] 0 <= k < i && (invoice.lines@[k].price matches Some(p) && p.gross matches Some(g) && g.dec().m() < 0),
        decreases invoice.lines.len() - i,
    {
        let it = &invoice.lines[i];
        if match &it.price { Some(p) => match p.gross { Some(g) => g.raw().is_sign_negative(), None => false }, None => false } {
            let ghost before = *report;
            fatal_at(report, "BR-28", Path::at_term(Group::Line, i, BtId(148)), "The Item gross price (BT-148) shall NOT be negative");
            proof {
                lemma_emitted_trans(start, before, *report, "BR-28"@);
            }
        }
        i = i + 1;
    }
}

/// When [`br_30`] appends a finding: exactly when this holds, under [`br_30_bound`].
pub open spec fn br_30_fires(invoice: Invoice) -> bool {
    exists|k: int| #![trigger invoice.lines@[k]] 0 <= k < invoice.lines@.len() && (invoice.lines@[k].period matches Some(p) && p.start matches Some(s) && p.end matches Some(e) && date_before(e, s))
}

/// Where [`br_30`] states when it appends a finding.
pub open spec fn br_30_bound(invoice: Invoice) -> bool {
    true
}

/// BR-30: a line period does not end before it starts.
pub fn br_30(invoice: &Invoice, report: &mut Report)
    ensures
        emitted(*old(report), *final(report), "BR-30"@),
        fires_some(*old(report), *final(report), exists|k: int| #![trigger invoice.lines@[k]] 0 <= k < invoice.lines@.len() && (invoice.lines@[k].period matches Some(p) && p.start matches Some(s) && p.end matches Some(e) && date_before(e, s))),
{
    let ghost start = *report;
    proof {
        lemma_emitted_none(start, "BR-30"@);
    }
    let mut i: usize = 0;
    while i < invoice.lines.len()
        invariant
            i <= invoice.lines.len(),
            emitted(start, *report, "BR-30"@),
            added(start, *report) > 0 <==> exists|k: int| #![trigger invoice.lines@[k]] 0 <= k < i && (invoice.lines@[k].period matches Some(p) && p.start matches Some(s) && p.end matches Some(e) && date_before(e, s)),
        decreases invoice.lines.len() - i,
    {
        let it = &invoice.lines[i];
        if match &it.period { Some(p) => match (p.start, p.end) { (Some(s), Some(e)) => e.before(s), _ => false }, None => false } {
            let ghost before = *report;
            fatal_at(report, "BR-30", Path::at_term(Group::Line, i, BtId(135)), "Invoice line period end date shall be on or after start date");
            proof {
                lemma_emitted_trans(start, before, *report, "BR-30"@);
            }
        }
        i = i + 1;
    }
}

/// When [`br_64`] appends a finding: exactly when this holds, under [`br_64_bound`].
pub open spec fn br_64_fires(invoice: Invoice) -> bool {
    exists|k: int| #![trigger invoice.lines@[k]] 0 <= k < invoice.lines@.len() && (invoice.lines@[k].standard_id matches Some(s) && opt_text_blank(s.scheme))
}

/// Where [`br_64`] states when it appends a finding.
pub open spec fn br_64_bound(invoice: Invoice) -> bool {
    true
}

/// BR-64: a standard item identifier has a scheme.
pub fn br_64(invoice: &Invoice, report: &mut Report)
    ensures
        emitted(*old(report), *final(report), "BR-64"@),
        fires_some(*old(report), *final(report), exists|k: int| #![trigger invoice.lines@[k]] 0 <= k < invoice.lines@.len() && (invoice.lines@[k].standard_id matches Some(s) && opt_text_blank(s.scheme))),
{
    let ghost start = *report;
    proof {
        lemma_emitted_none(start, "BR-64"@);
    }
    let mut i: usize = 0;
    while i < invoice.lines.len()
        invariant
            i <= invoice.lines.len(),
            emitted(start, *report, "BR-64"@),
            added(start, *report) > 0 <==> exists|k: int| #![trigger invoice.lines@[k]] 0 <= k < i && (invoice.lines@[k].standard_id matches Some(s) && opt_text_blank(s.scheme)),
        decreases invoice.lines.len() - i,
    {
        let it = &invoice.lines[i];
        if match &it.standard_id { Some(s) => text_blank(&s.scheme), None => false } {
            let ghost before = *report;
            fatal_at(report, "BR-64", Path::at_term(Group::Line, i, BtId(157)), "Item standard identifier (BT-157) shall have a scheme");
            proof {
                lemma_emitted_trans(start, before, *report, "BR-64"@);
            }
        }
        i = i + 1;
    }
}

/// When [`br_co_04`] appends a finding: exactly when this holds, under [`br_co_04_bound`].
pub open spec fn br_co_04_fires(invoice: Invoice) -> bool {
    exists|k: int| #![trigger invoice.lines@[k]] 0 <= k < invoice.lines@.len() && blank(invoice.lines@[k].tax.code@)
}

/// Where [`br_co_04`] states when it appends a finding.
pub open spec fn br_co_04_bound(invoice: Invoice) -> bool {
    true
}

/// BR-CO-04: each line has a tax category code.
pub fn br_co_04(invoice: &Invoice, report: &mut Report)
    ensures
        emitted(*old(report), *final(report), "BR-CO-04"@),
        fires_some(*old(report), *final(report), exists|k: int| #![trigger invoice.lines@[k]] 0 <= k < invoice.lines@.len() && blank(invoice.lines@[k].tax.code@)),
{
    let ghost start = *report;
    proof {
        lemma_emitted_none(start, "BR-CO-04"@);
    }
    let mut i: usize = 0;
    while i < invoice.lines.len()
        invariant
            i <= invoice.lines.len(),
            emitted(start, *report, "BR-CO-04"@),
            added(start, *report) > 0 <==> exists|k: int| #![trigger invoice.lines@[k]] 0 <= k < i && blank(invoice.lines@[k].tax.code@),
        decreases invoice.lines.len() - i,
    {
        let it = &invoice.lines[i];
        if is_blank(it.tax.code.as_str()) {
            let ghost before = *report;
            fatal_at(report, "BR-CO-04", Path::at_term(Group::Line, i, BtId(151)), "Invoiced item VAT category code (BT-151) shall be present");
            proof {
                lemma_emitted_trans(start, before, *report, "BR-CO-04"@);
            }
        }
        i = i + 1;
    }
}

/// When [`br_co_20`] appends a finding: exactly when this holds, under [`br_co_20_bound`].
pub open spec fn br_co_20_fires(invoice: Invoice) -> bool {
    exists|k: int| #![trigger invoice.lines@[k]] 0 <= k < invoice.lines@.len() && (invoice.lines@[k].period matches Some(p) && p.start is None && p.end is None)
}

/// Where [`br_co_20`] states when it appends a finding.
pub open spec fn br_co_20_bound(invoice: Invoice) -> bool {
    true
}

/// BR-CO-20: a line period has a start or an end.
pub fn br_co_20(invoice: &Invoice, report: &mut Report)
    ensures
        emitted(*old(report), *final(report), "BR-CO-20"@),
        fires_some(*old(report), *final(report), exists|k: int| #![trigger invoice.lines@[k]] 0 <= k < invoice.lines@.len() && (invoice.lines@[k].period matches Some(p) && p.start is None && p.end is None)),
{
    let ghost start = *report;
    proof {
        lemma_emitted_none(start, "BR-CO-20"@);
    }
    let mut i: usize = 0;
    while i < invoice.lines.len()
        invariant
            i <= invoice.lines.len(),
            emitted(start, *report, "BR-CO-20"@),
            added(start, *report) > 0 <==> exists|k: int| #![trigger invoice.lines@[k]] 0 <= k < i && (invoice.lines@[k].period matches Some(p) && p.start is None && p.end is None),
        decreases invoice.lines.len() - i,
    {
        let it = &invoice.lines[i];
        if match &it.period { Some(p) => p.start.is_none() && p.end.is_none(), None => false } {
            let ghost before = *report;
            fatal_at(report, "BR-CO-20", Path::at_term(Group::Line, i, BtId(134)), "If invoice line period (BG-26) is used, start or end shall be present");
            proof {
                lemma_emitted_trans(start, before, *report, "BR-CO-20"@);
            }
        }
        i = i + 1;
    }
}

/// When [`br_co_21`] appends a finding: exactly when this holds, under [`br_co_21_bound`].
pub open spec fn br_co_21_fires(invoice: Invoice) -> bool {
    exists|k: int| #![trigger invoice.document_allowances@[k]] 0 <= k < invoice.document_allowances@.len() && !has_reason(invoice.document_allowances@[k].reason, invoice.document_allowances@[k].reason_code)
}

/// Where [`br_co_21`] states when it appends a finding.
pub open spec fn br_co_21_bound(invoice: Invoice) -> bool {
    true
}

/// BR-CO-21: a document allowance has a reason or a reason code.
pub fn br_co_21(invoice: &Invoice, report: &mut Report)
    ensures
        emitted(*old(report), *final(report), "BR-CO-21"@),
        fires_some(*old(report), *final(report), exists|k: int| #![trigger invoice.document_allowances@[k]] 0 <= k < invoice.document_allowances@.len() && !has_reason(invoice.document_allowances@[k].reason, invoice.document_allowances@[k].reason_code)),
{
    let ghost start = *report;
    proof {
        lemma_emitted_none(start, "BR-CO-21"@);
    }
    let mut i: usize = 0;
    while i < invoice.document_allowances.len()
        invariant
            i <= invoice.document_allowances.len(),
            emitted(start, *report, "BR-CO-21"@),
            added(start, *report) > 0 <==> exists|k: int| #![trigger invoice.document_allowances@[k]] 0 <= k < i && !has_reason(invoice.document_allowances@[k].reason, invoice.document_allowances@[k].reason_code),
        decreases invoice.document_allowances.len() - i,
    {
        let it = &invoice.document_allowances[i];
        if !reason_given(&it.reason, &it.reason_code) {
            let ghost before = *report;
            fatal_at(report, "BR-CO-21", Path::at_term(Group::DocumentAllowance, i, BtId(97)), "Document level allowance shall have a reason or reason code");
            proof {
                lemma_emitted_trans(start, before, *report, "BR-CO-21"@);
            }
        }
        i = i + 1;
    }
}

/// When [`br_co_22`] appends a finding: exactly when this holds, under [`br_co_22_bound`].
pub open spec fn br_co_22_fires(invoice: Invoice) -> bool {
    exists|k: int| #![trigger invoice.document_charges@[k]] 0 <= k < invoice.document_charges@.len() && !has_reason(invoice.document_charges@[k].reason, invoice.document_charges@[k].reason_code)
}

/// Where [`br_co_22`] states when it appends a finding.
pub open spec fn br_co_22_bound(invoice: Invoice) -> bool {
    true
}

/// BR-CO-22: a document charge has a reason or a reason code.
pub fn br_co_22(invoice: &Invoice, report: &mut Report)
    ensures
        emitted(*old(report), *final(report), "BR-CO-22"@),
        fires_some(*old(report), *final(report), exists|k: int| #![trigger invoice.document_charges@[k]] 0 <= k < invoice.document_charges@.len() && !has_reason(invoice.document_charges@[k].reason, invoice.document_charges@[k].reason_code)),
{
    let ghost start = *report;
    proof {
        lemma_emitted_none(start, "BR-CO-22"@);
    }
    let mut i: usize = 0;
    while i < invoice.document_charges.len()
        invariant
            i <= invoice.document_charges.len(),
            emitted(start, *report, "BR-CO-22"@),
            added(start, *report) > 0 <==> exists|k: int| #![trigger invoice.document_charges@[k]] 0 <= k < i && !has_reason(invoice.document_charges@[k].reason, invoice.document_charges@[k].reason_code),
        decreases invoice.document_charges.len() - i,
    {
        let it = &invoice.document_charges[i];
        if !reason_given(&it.reason, &it.reason_code) {
            let ghost before = *report;
            fatal_at(report, "BR-CO-22", Path::at_term(Group::DocumentCharge, i, BtId(104)), "Document level charge shall have a reason or reason code");
            proof {
                lemma_emitted_trans(start, before, *report, "BR-CO-22"@);
            }
        }
        i = i + 1;
    }
}

/// When [`br_32`] appends a finding: exactly when this holds, under [`br_32_bound`].
pub open spec fn br_32_fires(invoice: Invoice) -> bool {
    exists|k: int| #![trigger invoice.document_allowances@[k]] 0 <= k < invoice.document_allowances@.len() && (match invoice.document_allowances@[k].tax { Some(t) => blank(t.code@), None => true })
}

/// Where [`br_32`] states when it appends a finding.
pub open spec fn br_32_bound(invoice: Invoice) -> bool {
    true
}

/// BR-32: a document allowance has a tax category code.
pub fn br_32(invoice: &Invoice, report: &mut Report)
    ensures
        emitted(*old(report), *final(report), "BR-32"@),
        fires_some(*old(report), *final(report), exists|k: int| #![trigger invoice.document_allowances@[k]] 0 <= k < invoice.document_allowances@.len() && (match invoice.document_allowances@[k].tax { Some(t) => blank(t.code@), None => true })),
{
    let ghost start = *report;
    proof {
        lemma_emitted_none(start, "BR-32"@);
    }
    let mut i: usize = 0;
    while i < invoice.document_allowances.len()
        invariant
            i <= invoice.document_allowances.len(),
            emitted(start, *report, "BR-32"@),
            added(start, *report) > 0 <==> exists|k: int| #![trigger invoice.document_allowances@[k]] 0 <= k < i && (match invoice.document_allowances@[k].tax { Some(t) => blank(t.code@), None => true }),
        decreases invoice.document_allowances.len() - i,
    {
        let it = &invoice.document_allowances[i];
        if match &it.tax { Some(t) => is_blank(t.code.as_str()), None => true } {
            let ghost before = *report;
            fatal_at(report, "BR-32", Path::at_term(Group::DocumentAllowance, i, BtId(95)), "Each Document level allowance (BG-20) shall have a VAT category code (BT-95)");
            proof {
                lemma_emitted_trans(start, before, *report, "BR-32"@);
            }
        }
        i = i + 1;
    }
}

/// When [`br_33`] appends a finding: exactly when this holds, under [`br_33_bound`].
pub open spec fn br_33_fires(invoice: Invoice) -> bool {
    exists|k: int| #![trigger invoice.document_allowances@[k]] 0 <= k < invoice.document_allowances@.len() && !has_reason(invoice.document_allowances@[k].reason, invoice.document_allowances@[k].reason_code)
}

/// Where [`br_33`] states when it appends a finding.
pub open spec fn br_33_bound(invoice: Invoice) -> bool {
    true
}

/// BR-33: a document allowance has a reason or a reason code.
pub fn br_33(invoice: &Invoice, report: &mut Report)
    ensures
        emitted(*old(report), *final(report), "BR-33"@),
        fires_some(*old(report), *final(report), exists|k: int| #![trigger invoice.document_allowances@[k]] 0 <= k < invoice.document_allowances@.len() && !has_reason(invoice.document_allowances@[k].reason, invoice.document_allowances@[k].reason_code)),
{
    let ghost start = *report;
    proof {
        lemma_emitted_none(start, "BR-33"@);
    }
    let mut i: usize = 0;
    while i < invoice.document_allowances.len()
        invariant
            i <= invoice.document_allowances.len(),
            emitted(start, *report, "BR-33"@),
            added(start, *report) > 0 <==> exists|k: int| #![trigger invoice.document_allowances@[k]] 0 <= k < i && !has_reason(invoice.document_allowances@[k].reason, invoice.document_allowances@[k].reason_code),
        decreases invoice.document_allowances.len() - i,
    {
        let it = &invoice.document_allowances[i];
        if !reason_given(&it.reason, &it.reason_code) {
            let ghost before = *report;
            fatal_at(report, "BR-33", Path::at_term(Group::DocumentAllowance, i, BtId(97)), "Each Document level allowance (BG-20) shall have a reason (BT-97) or reason code (BT-98)");
            proof {
                lemma_emitted_trans(start, before, *report, "BR-33"@);
            }
        }
        i = i + 1;
    }
}

/// When [`br_37`] appends a finding: exactly when this holds, under [`br_37_bound`].
pub open spec fn br_37_fires(invoice: Invoice) -> bool {
    exists|k: int| #![trigger invoice.document_charges@[k]] 0 <= k < invoice.document_charges@.len() && (match invoice.document_charges@[k].tax { Some(t) => blank(t.code@), None => true })
}

/// Where [`br_37`] states when it appends a finding.
pub open spec fn br_37_bound(invoice: Invoice) -> bool {
    true
}

/// BR-37: a document charge has a tax category code.
pub fn br_37(invoice: &Invoice, report: &mut Report)
    ensures
        emitted(*old(report), *final(report), "BR-37"@),
        fires_some(*old(report), *final(report), exists|k: int| #![trigger invoice.document_charges@[k]] 0 <= k < invoice.document_charges@.len() && (match invoice.document_charges@[k].tax { Some(t) => blank(t.code@), None => true })),
{
    let ghost start = *report;
    proof {
        lemma_emitted_none(start, "BR-37"@);
    }
    let mut i: usize = 0;
    while i < invoice.document_charges.len()
        invariant
            i <= invoice.document_charges.len(),
            emitted(start, *report, "BR-37"@),
            added(start, *report) > 0 <==> exists|k: int| #![trigger invoice.document_charges@[k]] 0 <= k < i && (match invoice.document_charges@[k].tax { Some(t) => blank(t.code@), None => true }),
        decreases invoice.document_charges.len() - i,
    {
        let it = &invoice.document_charges[i];
        if match &it.tax { Some(t) => is_blank(t.code.as_str()), None => true } {
            let ghost before = *report;
            fatal_at(report, "BR-37", Path::at_term(Group::DocumentCharge, i, BtId(102)), "Each Document level charge (BG-21) shall have a VAT category code (BT-102)");
            proof {
                lemma_emitted_trans(start, before, *report, "BR-37"@);
            }
        }
        i = i + 1;
    }
}

/// When [`br_38`] appends a finding: exactly when this holds, under [`br_38_bound`].
pub open spec fn br_38_fires(invoice: Invoice) -> bool {
    exists|k: int| #![trigger invoice.document_charges@[k]] 0 <= k < invoice.document_charges@.len() && !has_reason(invoice.document_charges@[k].reason, invoice.document_charges@[k].reason_code)
}

/// Where [`br_38`] states when it appends a finding.
pub open spec fn br_38_bound(invoice: Invoice) -> bool {
    true
}

/// BR-38: a document charge has a reason or a reason code.
pub fn br_38(invoice: &Invoice, report: &mut Report)
    ensures
        emitted(*old(report), *final(report), "BR-38"@),
        fires_some(*old(report), *final(report), exists|k: int| #![trigger invoice.document_charges@[k]] 0 <= k < invoice.document_charges@.len() && !has_reason(invoice.document_charges@[k].reason, invoice.document_charges@[k].reason_code)),
{
    let ghost start = *report;
    proof {
        lemma_emitted_none(start, "BR-38"@);
    }
    let mut i: usize = 0;
    while i < invoice.document_charges.len()
        invariant
            i <= invoice.document_charges.len(),
            emitted(start, *report, "BR-38"@),
            added(start, *report) > 0 <==> exists|k: int| #![trigger invoice.document_charges@[k]] 0 <= k < i && !has_reason(invoice.document_charges@[k].reason, invoice.document_charges@[k].reason_code),
        decreases invoice.document_charges.len() - i,
    {
        let it = &invoice.document_charges[i];
        if !reason_given(&it.reason, &it.reason_code) {
            let ghost before = *report;
            fatal_at(report, "BR-38", Path::at_term(Group::DocumentCharge, i, BtId(104)), "Each Document level charge (BG-21) shall have a reason (BT-104) or reason code (BT-105)");
            proof {
                lemma_emitted_trans(start, before, *report, "BR-38"@);
            }
        }
        i = i + 1;
    }
}

/// When [`br_52`] appends a finding: exactly when this holds, under [`br_52_bound`].
pub open spec fn br_52_fires(invoice: Invoice) -> bool {
    exists|k: int| #![trigger invoice.supporting_documents@[k]] 0 <= k < invoice.supporting_documents@.len() && blank(invoice.supporting_documents@[k].id.0@)
}

/// Where [`br_52`] states when it appends a finding.
pub open spec fn br_52_bound(invoice: Invoice) -> bool {
    true
}

/// BR-52: a supporting document has a reference.
pub fn br_52(invoice: &Invoice, report: &mut Report)
    ensures
        emitted(*old(report), *final(report), "BR-52"@),
        fires_some(*old(report), *final(report), exists|k: int| #![trigger invoice.supporting_documents@[k]] 0 <= k < invoice.supporting_documents@.len() && blank(invoice.supporting_documents@[k].id.0@)),
{
    let ghost start = *report;
    proof {
        lemma_emitted_none(start, "BR-52"@);
    }
    let mut i: usize = 0;
    while i < invoice.supporting_documents.len()
        invariant
            i <= invoice.supporting_documents.len(),
            emitted(start, *report, "BR-52"@),
            added(start, *report) > 0 <==> exists|k: int| #![trigger invoice.supporting_documents@[k]] 0 <= k < i && blank(invoice.supporting_documents@[k].id.0@),
        decreases invoice.supporting_documents.len() - i,
    {
        let it = &invoice.supporting_documents[i];
        if is_blank(it.id.as_str()) {
            let ghost before = *report;
            fatal_at(report, "BR-52", Path::at_term(Group::Attachment, i, BtId(122)), "Each additional supporting document shall contain a reference (BT-122)");
            proof {
                lemma_emitted_trans(start, before, *report, "BR-52"@);
            }
        }
        i = i + 1;
    }
}

/// When [`br_55`] appends a finding: exactly when this holds, under [`br_55_bound`].
pub open spec fn br_55_fires(invoice: Invoice) -> bool {
    exists|k: int| #![trigger invoice.preceding@[k]] 0 <= k < invoice.preceding@.len() && blank(invoice.preceding@[k].reference.0@)
}

/// Where [`br_55`] states when it appends a finding.
pub open spec fn br_55_bound(invoice: Invoice) -> bool {
    true
}

/// BR-55: a preceding invoice reference is not blank.
pub fn br_55(invoice: &Invoice, report: &mut Report)
    ensures
        emitted(*old(report), *final(report), "BR-55"@),
        fires_some(*old(report), *final(report), exists|k: int| #![trigger invoice.preceding@[k]] 0 <= k < invoice.preceding@.len() && blank(invoice.preceding@[k].reference.0@)),
{
    let ghost start = *report;
    proof {
        lemma_emitted_none(start, "BR-55"@);
    }
    let mut i: usize = 0;
    while i < invoice.preceding.len()
        invariant
            i <= invoice.preceding.len(),
            emitted(start, *report, "BR-55"@),
            added(start, *report) > 0 <==> exists|k: int| #![trigger invoice.preceding@[k]] 0 <= k < i && blank(invoice.preceding@[k].reference.0@),
        decreases invoice.preceding.len() - i,
    {
        let it = &invoice.preceding[i];
        if is_blank(it.reference.as_str()) {
            let ghost before = *report;
            fatal_at(report, "BR-55", Path::at_term(Group::Document, i, BtId(25)), "Each preceding invoice reference (BG-3) shall contain BT-25");
            proof {
                lemma_emitted_trans(start, before, *report, "BR-55"@);
            }
        }
        i = i + 1;
    }
}

/// When [`br_47`] appends a finding: exactly when this holds, under [`br_47_bound`].
pub open spec fn br_47_fires(invoice: Invoice) -> bool {
    exists|k: int| #![trigger invoice.tax_breakdown@[k]] 0 <= k < invoice.tax_breakdown@.len() && blank(invoice.tax_breakdown@[k].category@)
}

/// Where [`br_47`] states when it appends a finding.
pub open spec fn br_47_bound(invoice: Invoice) -> bool {
    true
}

/// BR-47: a tax breakdown row has a category code.
pub fn br_47(invoice: &Invoice, report: &mut Report)
    ensures
        emitted(*old(report), *final(report), "BR-47"@),
        fires_some(*old(report), *final(report), exists|k: int| #![trigger invoice.tax_breakdown@[k]] 0 <= k < invoice.tax_breakdown@.len() && blank(invoice.tax_breakdown@[k].category@)),
{
    let ghost start = *report;
    proof {
        lemma_emitted_none(start, "BR-47"@);
    }
    let mut i: usize = 0;
    while i < invoice.tax_breakdown.len()
        invariant
            i <= invoice.tax_breakdown.len(),
            emitted(start, *report, "BR-47"@),
            added(start, *report) > 0 <==> exists|k: int| #![trigger invoice.tax_breakdown@[k]] 0 <= k < i && blank(invoice.tax_breakdown@[k].category@),
        decreases invoice.tax_breakdown.len() - i,
    {
        let it = &invoice.tax_breakdown[i];
        if it.category.is_empty() {
            let ghost before = *report;
            fatal_at(report, "BR-47", Path::at_term(Group::TaxBreakdown, i, BtId(118)), "Each VAT breakdown (BG-23) shall be defined through a VAT category code (BT-118)");
            proof {
                lemma_emitted_trans(start, before, *report, "BR-47"@);
            }
        }
        i = i + 1;
    }
}

/// When [`br_48`] appends a finding: exactly when this holds, under [`br_48_bound`].
pub open spec fn br_48_fires(invoice: Invoice) -> bool {
    exists|k: int| #![trigger invoice.tax_breakdown@[k]] 0 <= k < invoice.tax_breakdown@.len() && (!(invoice.tax_breakdown@[k].category@ == "O"@ || invoice.tax_breakdown@[k].category@ == "TTX"@ || eq_ic(invoice.tax_breakdown@[k].scheme@, "AAL"@)) && invoice.tax_breakdown@[k].rate is None)
}

/// Where [`br_48`] states when it appends a finding.
pub open spec fn br_48_bound(invoice: Invoice) -> bool {
    true
}

/// BR-48: a tax breakdown row has a rate, except for O, TTX and the AAL scheme.
pub fn br_48(invoice: &Invoice, report: &mut Report)
    ensures
        emitted(*old(report), *final(report), "BR-48"@),
        fires_some(*old(report), *final(report), exists|k: int| #![trigger invoice.tax_breakdown@[k]] 0 <= k < invoice.tax_breakdown@.len() && (!(invoice.tax_breakdown@[k].category@ == "O"@ || invoice.tax_breakdown@[k].category@ == "TTX"@ || eq_ic(invoice.tax_breakdown@[k].scheme@, "AAL"@)) && invoice.tax_breakdown@[k].rate is None)),
{
    let ghost start = *report;
    proof {
        lemma_emitted_none(start, "BR-48"@);
    }
    let mut i: usize = 0;
    while i < invoice.tax_breakdown.len()
        invariant
            i <= invoice.tax_breakdown.len(),
            emitted(start, *report, "BR-48"@),
            added(start, *report) > 0 <==> exists|k: int| #![trigger invoice.tax_breakdown@[k]] 0 <= k < i && (!(invoice.tax_breakdown@[k].category@ == "O"@ || invoice.tax_breakdown@[k].category@ == "TTX"@ || eq_ic(invoice.tax_breakdown@[k].scheme@, "AAL"@)) && invoice.tax_breakdown@[k].rate is None),
        decreases invoice.tax_breakdown.len() - i,
    {
        let it = &invoice.tax_breakdown[i];
        if !(str_eq(it.category.as_str(), "O") || str_eq(it.category.as_str(), "TTX") || str_eq_ic(it.scheme.as_str(), "AAL")) && it.rate.is_none() {
            let ghost before = *report;
            fatal_at(report, "BR-48", Path::at_term(Group::TaxBreakdown, i, BtId(119)), "Each VAT breakdown (BG-23) shall have a VAT category rate (BT-119), except if not subject to VAT");
            proof {
                lemma_emitted_trans(start, before, *report, "BR-48"@);
            }
        }
        i = i + 1;
    }
}

/// A line has an item under `attributes` that BR-54 refuses.
pub open spec fn br_54_line_bad(ln: Line) -> bool {
    exists|j: int| #![trigger ln.attributes@[j]] 0 <= j < ln.attributes@.len() && (blank(ln.attributes@[j].name@) || blank(ln.attributes@[j].value@))
}

fn br_54_line(ln: &Line, i: usize, report: &mut Report)
    ensures
        emitted(*old(report), *final(report), "BR-54"@),
        fires_some(*old(report), *final(report), br_54_line_bad(*ln)),
{
    let ghost start = *report;
    proof {
        lemma_emitted_none(start, "BR-54"@);
    }
    let mut j: usize = 0;
    while j < ln.attributes.len()
        invariant
            j <= ln.attributes.len(),
            emitted(start, *report, "BR-54"@),
            added(start, *report) > 0 <==> exists|q: int| #![trigger ln.attributes@[q]] 0 <= q < j && (blank(ln.attributes@[q].name@) || blank(ln.attributes@[q].value@)),
        decreases ln.attributes.len() - j,
    {
        let it = &ln.attributes[j];
        if is_blank(it.name.as_str()) || is_blank(it.value.as_str()) {
            let ghost before = *report;
            fatal_at(report, "BR-54", Path::at_term(Group::Line, i, BtId(160)), "Each item attribute (BG-32) shall contain name (BT-160) and value (BT-161)");
            proof {
                lemma_emitted_trans(start, before, *report, "BR-54"@);
            }
        }
        j = j + 1;
    }
}

/// When [`br_54`] appends a finding: exactly when this holds, under [`br_54_bound`].
pub open spec fn br_54_fires(invoice: Invoice) -> bool {
    exists|k: int| 0 <= k < invoice.lines@.len() && br_54_line_bad(invoice.lines@[k])
}

/// Where [`br_54`] states when it appends a finding.
pub open spec fn br_54_bound(invoice: Invoice) -> bool {
    true
}

/// BR-54: an item attribute has a name and a value.
pub fn br_54(invoice: &Invoice, report: &mut Report)
    ensures
        emitted(*old(report), *final(report), "BR-54"@),
        fires_some(*old(report), *final(report), exists|k: int| 0 <= k < invoice.lines@.len() && br_54_line_bad(invoice.lines@[k])),
{
    let ghost start = *report;
    proof {
        lemma_emitted_none(start, "BR-54"@);
    }
    let mut i: usize = 0;
    while i < invoice.lines.len()
        invariant
            i <= invoice.lines.len(),
            emitted(start, *report, "BR-54"@),
            added(start, *report) > 0 <==> exists|k: int| 0 <= k < i && br_54_line_bad(invoice.lines@[k]),
        decreases invoice.lines.len() - i,
    {
        let ghost before = *report;
        br_54_line(&invoice.lines[i], i, report);
        proof {
            lemma_emitted_trans(start, before, *report, "BR-54"@);
        }
        i = i + 1;
    }
}

/// A line has an item under `classifications` that BR-65 refuses.
pub open spec fn br_65_line_bad(ln: Line) -> bool {
    exists|j: int| #![trigger ln.classifications@[j]] 0 <= j < ln.classifications@.len() && opt_text_blank(ln.classifications@[j].scheme)
}

fn br_65_line(ln: &Line, i: usize, report: &mut Report)
    ensures
        emitted(*old(report), *final(report), "BR-65"@),
        fires_some(*old(report), *final(report), br_65_line_bad(*ln)),
{
    let ghost start = *report;
    proof {
        lemma_emitted_none(start, "BR-65"@);
    }
    let mut j: usize = 0;
    while j < ln.classifications.len()
        invariant
            j <= ln.classifications.len(),
            emitted(start, *report, "BR-65"@),
            added(start, *report) > 0 <==> exists|q: int| #![trigger ln.classifications@[q]] 0 <= q < j && opt_text_blank(ln.classifications@[q].scheme),
        decreases ln.classifications.len() - j,
    {
        let it = &ln.classifications[j];
        if text_blank(&it.scheme) {
            let ghost before = *report;
            fatal_at(report, "BR-65", Path::at_term(Group::Line, i, BtId(158)), "Item classification identifier (BT-158) shall have a scheme (listID)");
            proof {
                lemma_emitted_trans(start, before, *report, "BR-65"@);
            }
        }
        j = j + 1;
    }
}

/// When [`br_65`] appends a finding: exactly when this holds, under [`br_65_bound`].
pub open spec fn br_65_fires(invoice: Invoice) -> bool {
    exists|k: int| 0 <= k < invoice.lines@.len() && br_65_line_bad(invoice.lines@[k])
}

/// Where [`br_65`] states when it appends a finding.
pub open spec fn br_65_bound(invoice: Invoice) -> bool {
    true
}

/// BR-65: an item classification has a scheme.
pub fn br_65(invoice: &Invoice, report: &mut Report)
    ensures
        emitted(*old(report), *final(report), "BR-65"@),
        fires_some(*old(report), *final(report), exists|k: int| 0 <= k < invoice.lines@.len() && br_65_line_bad(invoice.lines@[k])),
{
    let ghost start = *report;
    proof {
        lemma_emitted_none(start, "BR-65"@);
    }
    let mut i: usize = 0;
    while i < invoice.lines.len()
        invariant
            i <= invoice.lines.len(),
            emitted(start, *report, "BR-65"@),
            added(start, *report) > 0 <==> exists|k: int| 0 <= k < i && br_65_line_bad(invoice.lines@[k]),
        decreases invoice.lines.len() - i,
    {
        let ghost before = *report;
        br_65_line(&invoice.lines[i], i, report);
        proof {
            lemma_emitted_trans(start, before, *report, "BR-65"@);
        }
        i = i + 1;
    }
}

/// A line has an item under `allowances` that BR-CO-23 refuses.
pub open spec fn br_co_23_line_bad(ln: Line) -> bool {
    exists|j: int| #![trigger ln.allowances@[j]] 0 <= j < ln.allowances@.len() && !has_reason(ln.allowances@[j].reason, ln.allowances@[j].reason_code)
}

fn br_co_23_line(ln: &Line, i: usize, report: &mut Report)
    ensures
        emitted(*old(report), *final(report), "BR-CO-23"@),
        fires_some(*old(report), *final(report), br_co_23_line_bad(*ln)),
{
    let ghost start = *report;
    proof {
        lemma_emitted_none(start, "BR-CO-23"@);
    }
    let mut j: usize = 0;
    while j < ln.allowances.len()
        invariant
            j <= ln.allowances.len(),
            emitted(start, *report, "BR-CO-23"@),
            added(start, *report) > 0 <==> exists|q: int| #![trigger ln.allowances@[q]] 0 <= q < j && !has_reason(ln.allowances@[q].reason, ln.allowances@[q].reason_code),
        decreases ln.allowances.len() - j,
    {
        let it = &ln.allowances[j];
        if !reason_given(&it.reason, &it.reason_code) {
            let ghost before = *report;
            fatal_at(report, "BR-CO-23", Path::at_term(Group::Line, i, BtId(139)), "Invoice line allowance shall have a reason or reason code");
            proof {
                lemma_emitted_trans(start, before, *report, "BR-CO-23"@);
            }
        }
        j = j + 1;
    }
}

/// When [`br_co_23`] appends a finding: exactly when this holds, under [`br_co_23_bound`].
pub open spec fn br_co_23_fires(invoice: Invoice) -> bool {
    exists|k: int| 0 <= k < invoice.lines@.len() && br_co_23_line_bad(invoice.lines@[k])
}

/// Where [`br_co_23`] states when it appends a finding.
pub open spec fn br_co_23_bound(invoice: Invoice) -> bool {
    true
}

/// BR-CO-23: a line allowance has a reason or a reason code.
pub fn br_co_23(invoice: &Invoice, report: &mut Report)
    ensures
        emitted(*old(report), *final(report), "BR-CO-23"@),
        fires_some(*old(report), *final(report), exists|k: int| 0 <= k < invoice.lines@.len() && br_co_23_line_bad(invoice.lines@[k])),
{
    let ghost start = *report;
    proof {
        lemma_emitted_none(start, "BR-CO-23"@);
    }
    let mut i: usize = 0;
    while i < invoice.lines.len()
        invariant
            i <= invoice.lines.len(),
            emitted(start, *report, "BR-CO-23"@),
            added(start, *report) > 0 <==> exists|k: int| 0 <= k < i && br_co_23_line_bad(invoice.lines@[k]),
        decreases invoice.lines.len() - i,
    {
        let ghost before = *report;
        br_co_23_line(&invoice.lines[i], i, report);
        proof {
            lemma_emitted_trans(start, before, *report, "BR-CO-23"@);
        }
        i = i + 1;
    }
}

/// A line has an item under `charges` that BR-CO-24 refuses.
pub open spec fn br_co_24_line_bad(ln: Line) -> bool {
    exists|j: int| #![trigger ln.charges@[j]] 0 <= j < ln.charges@.len() && !has_reason(ln.charges@[j].reason, ln.charges@[j].reason_code)
}

fn br_co_24_line(ln: &Line, i: usize, report: &mut Report)
    ensures
        emitted(*old(report), *final(report), "BR-CO-24"@),
        fires_some(*old(report), *final(report), br_co_24_line_bad(*ln)),
{
    let ghost start = *report;
    proof {
        lemma_emitted_none(start, "BR-CO-24"@);
    }
    let mut j: usize = 0;
    while j < ln.charges.len()
        invariant
            j <= ln.charges.len(),
            emitted(start, *report, "BR-CO-24"@),
            added(start, *report) > 0 <==> exists|q: int| #![trigger ln.charges@[q]] 0 <= q < j && !has_reason(ln.charges@[q].reason, ln.charges@[q].reason_code),
        decreases ln.charges.len() - j,
    {
        let it = &ln.charges[j];
        if !reason_given(&it.reason, &it.reason_code) {
            let ghost before = *report;
            fatal_at(report, "BR-CO-24", Path::at_term(Group::Line, i, BtId(144)), "Invoice line charge shall have a reason or reason code");
            proof {
                lemma_emitted_trans(start, before, *report, "BR-CO-24"@);
            }
        }
        j = j + 1;
    }
}

/// When [`br_co_24`] appends a finding: exactly when this holds, under [`br_co_24_bound`].
pub open spec fn br_co_24_fires(invoice: Invoice) -> bool {
    exists|k: int| 0 <= k < invoice.lines@.len() && br_co_24_line_bad(invoice.lines@[k])
}

/// Where [`br_co_24`] states when it appends a finding.
pub open spec fn br_co_24_bound(invoice: Invoice) -> bool {
    true
}

/// BR-CO-24: a line charge has a reason or a reason code.
pub fn br_co_24(invoice: &Invoice, report: &mut Report)
    ensures
        emitted(*old(report), *final(report), "BR-CO-24"@),
        fires_some(*old(report), *final(report), exists|k: int| 0 <= k < invoice.lines@.len() && br_co_24_line_bad(invoice.lines@[k])),
{
    let ghost start = *report;
    proof {
        lemma_emitted_none(start, "BR-CO-24"@);
    }
    let mut i: usize = 0;
    while i < invoice.lines.len()
        invariant
            i <= invoice.lines.len(),
            emitted(start, *report, "BR-CO-24"@),
            added(start, *report) > 0 <==> exists|k: int| 0 <= k < i && br_co_24_line_bad(invoice.lines@[k]),
        decreases invoice.lines.len() - i,
    {
        let ghost before = *report;
        br_co_24_line(&invoice.lines[i], i, report);
        proof {
            lemma_emitted_trans(start, before, *report, "BR-CO-24"@);
        }
        i = i + 1;
    }
}

/// A line has an item under `allowances` that BR-42 refuses.
pub open spec fn br_42_line_bad(ln: Line) -> bool {
    exists|j: int| #![trigger ln.allowances@[j]] 0 <= j < ln.allowances@.len() && !has_reason(ln.allowances@[j].reason, ln.allowances@[j].reason_code)
}

fn br_42_line(ln: &Line, i: usize, report: &mut Report)
    ensures
        emitted(*old(report), *final(report), "BR-42"@),
        fires_some(*old(report), *final(report), br_42_line_bad(*ln)),
{
    let ghost start = *report;
    proof {
        lemma_emitted_none(start, "BR-42"@);
    }
    let mut j: usize = 0;
    while j < ln.allowances.len()
        invariant
            j <= ln.allowances.len(),
            emitted(start, *report, "BR-42"@),
            added(start, *report) > 0 <==> exists|q: int| #![trigger ln.allowances@[q]] 0 <= q < j && !has_reason(ln.allowances@[q].reason, ln.allowances@[q].reason_code),
        decreases ln.allowances.len() - j,
    {
        let it = &ln.allowances[j];
        if !reason_given(&it.reason, &it.reason_code) {
            let ghost before = *report;
            fatal_at(report, "BR-42", Path::at_term(Group::Line, i, BtId(139)), "Each Invoice line allowance (BG-27) shall have a reason or reason code");
            proof {
                lemma_emitted_trans(start, before, *report, "BR-42"@);
            }
        }
        j = j + 1;
    }
}

/// When [`br_42`] appends a finding: exactly when this holds, under [`br_42_bound`].
pub open spec fn br_42_fires(invoice: Invoice) -> bool {
    exists|k: int| 0 <= k < invoice.lines@.len() && br_42_line_bad(invoice.lines@[k])
}

/// Where [`br_42`] states when it appends a finding.
pub open spec fn br_42_bound(invoice: Invoice) -> bool {
    true
}

/// BR-42: a line allowance has a reason or a reason code.
pub fn br_42(invoice: &Invoice, report: &mut Report)
    ensures
        emitted(*old(report), *final(report), "BR-42"@),
        fires_some(*old(report), *final(report), exists|k: int| 0 <= k < invoice.lines@.len() && br_42_line_bad(invoice.lines@[k])),
{
    let ghost start = *report;
    proof {
        lemma_emitted_none(start, "BR-42"@);
    }
    let mut i: usize = 0;
    while i < invoice.lines.len()
        invariant
            i <= invoice.lines.len(),
            emitted(start, *report, "BR-42"@),
            added(start, *report) > 0 <==> exists|k: int| 0 <= k < i && br_42_line_bad(invoice.lines@[k]),
        decreases invoice.lines.len() - i,
    {
        let ghost before = *report;
        br_42_line(&invoice.lines[i], i, report);
        proof {
            lemma_emitted_trans(start, before, *report, "BR-42"@);
        }
        i = i + 1;
    }
}

/// A line has an item under `charges` that BR-44 refuses.
pub open spec fn br_44_line_bad(ln: Line) -> bool {
    exists|j: int| #![trigger ln.charges@[j]] 0 <= j < ln.charges@.len() && !has_reason(ln.charges@[j].reason, ln.charges@[j].reason_code)
}

fn br_44_line(ln: &Line, i: usize, report: &mut Report)
    ensures
        emitted(*old(report), *final(report), "BR-44"@),
        fires_some(*old(report), *final(report), br_44_line_bad(*ln)),
{
    let ghost start = *report;
    proof {
        lemma_emitted_none(start, "BR-44"@);
    }
    let mut j: usize = 0;
    while j < ln.charges.len()
        invariant
            j <= ln.charges.len(),
            emitted(start, *report, "BR-44"@),
            added(start, *report) > 0 <==> exists|q: int| #![trigger ln.charges@[q]] 0 <= q < j && !has_reason(ln.charges@[q].reason, ln.charges@[q].reason_code),
        decreases ln.charges.len() - j,
    {
        let it = &ln.charges[j];
        if !reason_given(&it.reason, &it.reason_code) {
            let ghost before = *report;
            fatal_at(report, "BR-44", Path::at_term(Group::Line, i, BtId(144)), "Each Invoice line charge shall have a reason or reason code");
            proof {
                lemma_emitted_trans(start, before, *report, "BR-44"@);
            }
        }
        j = j + 1;
    }
}

/// When [`br_44`] appends a finding: exactly when this holds, under [`br_44_bound`].
pub open spec fn br_44_fires(invoice: Invoice) -> bool {
    exists|k: int| 0 <= k < invoice.lines@.len() && br_44_line_bad(invoice.lines@[k])
}

/// Where [`br_44`] states when it appends a finding.
pub open spec fn br_44_bound(invoice: Invoice) -> bool {
    true
}

/// BR-44: a line charge has a reason or a reason code.
pub fn br_44(invoice: &Invoice, report: &mut Report)
    ensures
        emitted(*old(report), *final(report), "BR-44"@),
        fires_some(*old(report), *final(report), exists|k: int| 0 <= k < invoice.lines@.len() && br_44_line_bad(invoice.lines@[k])),
{
    let ghost start = *report;
    proof {
        lemma_emitted_none(start, "BR-44"@);
    }
    let mut i: usize = 0;
    while i < invoice.lines.len()
        invariant
            i <= invoice.lines.len(),
            emitted(start, *report, "BR-44"@),
            added(start, *report) > 0 <==> exists|k: int| 0 <= k < i && br_44_line_bad(invoice.lines@[k]),
        decreases invoice.lines.len() - i,
    {
        let ghost before = *report;
        br_44_line(&invoice.lines[i], i, report);
        proof {
            lemma_emitted_trans(start, before, *report, "BR-44"@);
        }
        i = i + 1;
    }
}


/// When [`pint_tax`] appends a finding: exactly when this holds, under [`pint_tax_bound`].
pub open spec fn pint_tax_fires(invoice: Invoice) -> bool {
    invoice.profile != Profile::Unknown && exists|k: int|
        #![trigger invoice.lines@[k]] 0 <= k < invoice.lines@.len() && !blank(invoice.lines@[k].tax.code@)
            && !profile_tax_systems(invoice.profile).contains(invoice.lines@[k].tax.system)
}

/// Where [`pint_tax`] states when it appends a finding.
pub open spec fn pint_tax_bound(invoice: Invoice) -> bool {
    true
}

/// PINT-TAX: outside an unknown profile, a line's tax system is one the
/// profile allows.
pub fn pint_tax(invoice: &Invoice, report: &mut Report)
    ensures
        emitted(*old(report), *final(report), "PINT-TAX"@),
        fires_some(*old(report), *final(report), invoice.profile != Profile::Unknown && exists|k: int|
            #![trigger invoice.lines@[k]] 0 <= k < invoice.lines@.len() && !blank(invoice.lines@[k].tax.code@)
                && !profile_tax_systems(invoice.profile).contains(invoice.lines@[k].tax.system)),
{
    let ghost start = *report;
    proof {
        lemma_emitted_none(start, "PINT-TAX"@);
    }
    if invoice.profile == Profile::Unknown {
        return;
    }
    let mut i: usize = 0;
    while i < invoice.lines.len()
        invariant
            i <= invoice.lines.len(),
            invoice.profile != Profile::Unknown,
            emitted(start, *report, "PINT-TAX"@),
            added(start, *report) > 0 <==> exists|k: int| #![trigger invoice.lines@[k]] 0 <= k < i
                && !blank(invoice.lines@[k].tax.code@) && !profile_tax_systems(invoice.profile).contains(
                invoice.lines@[k].tax.system),
        decreases invoice.lines.len() - i,
    {
        let it = &invoice.lines[i];
        if !is_blank(it.tax.code.as_str()) && !invoice.profile.allows(it.tax.system) {
            let mut m = concat("Tax system ", it.tax.system.as_str());
            m.append(" is not allowed on profile ");
            m.append(invoice.profile.slug());
            let ghost before = *report;
            fatal_msg(report, "PINT-TAX", Path::at_term(Group::Line, i, BtId(151)), m);
            proof {
                lemma_emitted_trans(start, before, *report, "PINT-TAX"@);
            }
        }
        i = i + 1;
    }
}

/// When [`aligned_ibrp_cl_01_my`] appends a finding: exactly when this holds, under [`aligned_ibrp_cl_01_my_bound`].
pub open spec fn aligned_ibrp_cl_01_my_fires(invoice: Invoice) -> bool {
    invoice.profile == Profile::PintMy && exists|k: int|
        #![trigger invoice.lines@[k]] 0 <= k < invoice.lines@.len() && !blank(invoice.lines@[k].tax.code@)
            && !is_pint_my_category(invoice.lines@[k].tax.code@)
}

/// Where [`aligned_ibrp_cl_01_my`] states when it appends a finding.
pub open spec fn aligned_ibrp_cl_01_my_bound(invoice: Invoice) -> bool {
    true
}

/// ALIGNED-IBRP-CL-01-MY: on PINT-MY a line's category is a PINT-MY code.
pub fn aligned_ibrp_cl_01_my(invoice: &Invoice, report: &mut Report)
    ensures
        emitted(*old(report), *final(report), "ALIGNED-IBRP-CL-01-MY"@),
        fires_some(*old(report), *final(report), invoice.profile == Profile::PintMy && exists|k: int|
            #![trigger invoice.lines@[k]] 0 <= k < invoice.lines@.len() && !blank(invoice.lines@[k].tax.code@)
                && !is_pint_my_category(invoice.lines@[k].tax.code@)),
{
    let ghost start = *report;
    proof {
        lemma_emitted_none(start, "ALIGNED-IBRP-CL-01-MY"@);
    }
    if invoice.profile != Profile::PintMy {
        return;
    }
    let mut i: usize = 0;
    while i < invoice.lines.len()
        invariant
            i <= invoice.lines.len(),
            emitted(start, *report, "ALIGNED-IBRP-CL-01-MY"@),
            added(start, *report) > 0 <==> exists|k: int| #![trigger invoice.lines@[k]] 0 <= k < i
                && !blank(invoice.lines@[k].tax.code@) && !is_pint_my_category(invoice.lines@[k].tax.code@),
        decreases invoice.lines.len() - i,
    {
        let it = &invoice.lines[i];
        if !is_blank(it.tax.code.as_str()) && !pint_my_category(it.tax.code.as_str()) {
            let m = concat3("Tax category ", it.tax.code.as_str(), " is not a PINT-MY code (SA SE HVG LVG TTX E O)");
            let ghost before = *report;
            fatal_msg(report, "ALIGNED-IBRP-CL-01-MY", Path::at_term(Group::Line, i, BtId(151)), m);
            proof {
                lemma_emitted_trans(start, before, *report, "ALIGNED-IBRP-CL-01-MY"@);
            }
        }
        i = i + 1;
    }
}

/// A VAT identifier whose first two characters, after trimming, are neither
/// `EL` nor an ISO 3166-1 country code.
pub open spec fn vat_prefix_bad(v: Seq<char>) -> bool {
    trim(v).len() < 2 || !(eq_ic(trim(v).take(2), "EL"@) || listed_ic(iso_3166_spec(), trim(v).take(2)))
}

/// A VAT identifier present and badly prefixed.
pub open spec fn vat_id_bad(o: Option<Identifier>) -> bool {
    o matches Some(i) && vat_prefix_bad(i.value@)
}

fn check_vat_prefix(o: &Option<Identifier>, report: &mut Report)
    ensures
        emitted(*old(report), *final(report), "BR-CO-09"@),
        fires_once(*old(report), *final(report), vat_id_bad(*o)),
{
    match o {
        Some(id) => {
            let v = trim_str(id.value.as_str());
            let c = chars_of(v);
            let bad = if c.len() < 2 {
                true
            } else {
                let mut prefix = String::new();
                push_char(&mut prefix, c[0]);
                push_char(&mut prefix, c[1]);
                assert(prefix@ =~= trim(id.value@).take(2));
                !(str_eq_ic(prefix.as_str(), "EL") || country(prefix.as_str()))
            };
            if bad {
                fatal_at(
                    report,
                    "BR-CO-09",
                    Path::term(BtId(31)),
                    "VAT identifier shall have an ISO 3166-1 alpha-2 prefix (Greece EL)",
                );
                return;
            }
        },
        None => {},
    }
    proof {
        lemma_emitted_none(*report, "BR-CO-09"@);
    }
}

/// BR-CO-09: outside PINT-MY, each VAT identifier (seller, buyer, tax
/// representative) starts with a country prefix; one finding per bad identifier.
pub fn br_co_09(invoice: &Invoice, report: &mut Report)
    ensures
        emitted(*old(report), *final(report), "BR-CO-09"@),
        invoice.profile == Profile::PintMy ==> added(*old(report), *final(report)) == 0,
        invoice.profile != Profile::PintMy ==> added(*old(report), *final(report)) == (if vat_id_bad(
            invoice.seller.vat_identifier) { 1int } else { 0int }) + (if vat_id_bad(invoice.buyer.vat_identifier) {
            1int
        } else {
            0int
        }) + (if invoice.tax_representative matches Some(t) && vat_id_bad(t.vat_identifier) {
            1int
        } else {
            0int
        }),
{
    let ghost start = *report;
    if invoice.profile == Profile::PintMy {
        proof {
            lemma_emitted_none(start, "BR-CO-09"@);
        }
        return;
    }
    check_vat_prefix(&invoice.seller.vat_identifier, report);
    let ghost a = *report;
    check_vat_prefix(&invoice.buyer.vat_identifier, report);
    let ghost b = *report;
    proof {
        lemma_emitted_trans(start, a, b, "BR-CO-09"@);
    }
    match &invoice.tax_representative {
        Some(t) => {
            check_vat_prefix(&t.vat_identifier, report);
            proof {
                lemma_emitted_trans(start, b, *report, "BR-CO-09"@);
            }
        },
        None => {},
    }
}

} // verus!
