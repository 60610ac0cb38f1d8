//! The VAT category family checks (BR-S-*, BR-Z-*, ... BR-AG-*) and the
//! checks that tie categories together (BR-O-11..14, BR-B-*, BR-IC-11/12,
//! BR-CO-18). A family check runs only when the invoice has totals or tax
//! breakdown rows and its profile is neither PINT-MY nor unknown.
use vstd::prelude::*;
use crate::arith::{derived_cents, derived_fits, derived_vat, within_vat_tolerance};
use crate::bt::{BtId, Group, Path};
use crate::category::{CategoryProfile, Groups, RateRule, TaxRule, VatCategory, bars_reason, category_code, family, needs_reason};
use crate::checks::{fires_once, fires_some, opt_code_blank, opt_text_blank, code_blank, text_blank};
use crate::dec::{Dec, abs_int, fits96, same_value};
use crate::emit::{added, emitted, fatal_at, fatal_msg, lemma_emitted_none, lemma_emitted_trans};
use crate::invoice::{AllowanceCharge, Invoice, Line, TaxBreakdown, party_country};
use crate::numeric::Percentage;
use crate::profile::Profile;
use crate::report::Report;
use crate::tax::{TaxCategory, TaxSystem};
use crate::text::{blank, concat, concat3, eq_ic, str_eq_ic};

verus! {

/// The invoice has totals or tax breakdown rows.
pub open spec fn families_ready(inv: Invoice) -> bool {
    inv.totals is Some || inv.tax_breakdown@.len() > 0
}

/// The VAT family checks run on this invoice.
pub open spec fn vat_apply(inv: Invoice) -> bool {
    families_ready(inv) && inv.profile != Profile::PintMy && inv.profile != Profile::Unknown
}

/// A VAT category of the given code (ASCII case ignored).
pub open spec fn vat_is(t: TaxCategory, code: Seq<char>) -> bool {
    t.system == TaxSystem::Vat && eq_ic(t.code@, code)
}

/// An optional category that is a VAT category of the given code.
pub open spec fn opt_vat_is(t: Option<TaxCategory>, code: Seq<char>) -> bool {
    t matches Some(c) && vat_is(c, code)
}

/// Some line has the VAT category.
pub open spec fn uses_line(inv: Invoice, code: Seq<char>) -> bool {
    exists|i: int| #![trigger inv.lines@[i]] 0 <= i < inv.lines@.len() && vat_is(inv.lines@[i].tax, code)
}

/// Some allowance or charge of the list has the VAT category.
pub open spec fn uses_ac(acs: Seq<AllowanceCharge>, code: Seq<char>) -> bool {
    exists|i: int| #![trigger acs[i]] 0 <= i < acs.len() && opt_vat_is(acs[i].tax, code)
}

/// Some line, document allowance or document charge has the VAT category.
pub open spec fn uses_any(inv: Invoice, code: Seq<char>) -> bool {
    uses_line(inv, code) || uses_ac(inv.document_allowances@, code) || uses_ac(inv.document_charges@, code)
}

/// Number of breakdown rows of the category (ASCII case ignored).
pub open spec fn rows_of(rows: Seq<TaxBreakdown>, code: Seq<char>) -> nat
    decreases rows.len(),
{
    if rows.len() == 0 {
        0
    } else {
        rows_of(rows.drop_last(), code) + if eq_ic(rows.last().category@, code) { 1nat } else { 0nat }
    }
}

/// A rate acceptable under the family's rate rule.
pub open spec fn rate_ok(rule: RateRule, rate: Option<Percentage>) -> bool {
    match rule {
        RateRule::Positive => rate matches Some(r) && r.dec().m() > 0,
        RateRule::Zero => rate matches Some(r) && r.dec().m() == 0,
        RateRule::ZeroOrPositive => rate matches Some(r) && r.dec().m() >= 0,
        RateRule::Absent => rate is None || (rate matches Some(r) && r.dec().m() == 0),
    }
}

fn rate_is_ok(rule: RateRule, rate: Option<Percentage>) -> (r: bool)
    ensures
        r == rate_ok(rule, rate),
{
    match rule {
        RateRule::Positive => match rate {
            Some(r) => r.is_positive(),
            None => false,
        },
        RateRule::Zero => match rate {
            Some(r) => r.is_zero(),
            None => false,
        },
        RateRule::ZeroOrPositive => match rate {
            Some(r) => !r.is_negative(),
            None => false,
        },
        RateRule::Absent => match rate {
            Some(r) => r.is_zero(),
            None => true,
        },
    }
}

pub fn families_are_ready(inv: &Invoice) -> (r: bool)
    ensures
        r == families_ready(*inv),
{
    inv.totals.is_some() || inv.tax_breakdown.len() > 0
}

pub fn vat_applies(inv: &Invoice) -> (r: bool)
    ensures
        r == vat_apply(*inv),
{
    families_are_ready(inv) && inv.profile != Profile::PintMy && inv.profile != Profile::Unknown
}

fn is_vat(t: &TaxCategory, code: &str) -> (r: bool)
    ensures
        r == vat_is(*t, code@),
{
    t.system == TaxSystem::Vat && str_eq_ic(t.code.as_str(), code)
}

fn opt_is_vat(t: &Option<TaxCategory>, code: &str) -> (r: bool)
    ensures
        r == opt_vat_is(*t, code@),
{
    match t {
        Some(c) => is_vat(c, code),
        None => false,
    }
}

pub fn uses_line_exec(inv: &Invoice, code: &str) -> (r: bool)
    ensures
        r == uses_line(*inv, code@),
{
    let mut i: usize = 0;
    while i < inv.lines.len()
        invariant
            i <= inv.lines.len(),
            forall|k: int| #![trigger inv.lines@[k]] 0 <= k < i ==> !vat_is(inv.lines@[k].tax, code@),
        decreases inv.lines.len() - i,
    {
        if is_vat(&inv.lines[i].tax, code) {
            return true;
        }
        i = i + 1;
    }
    false
}

pub fn uses_ac_exec(acs: &Vec<AllowanceCharge>, code: &str) -> (r: bool)
    ensures
        r == uses_ac(acs@, code@),
{
    let mut i: usize = 0;
    while i < acs.len()
        invariant
            i <= acs.len(),
            forall|k: int| #![trigger acs@[k]] 0 <= k < i ==> !opt_vat_is(acs@[k].tax, code@),
        decreases acs.len() - i,
    {
        if opt_is_vat(&acs[i].tax, code) {
            return true;
        }
        i = i + 1;
    }
    false
}

pub fn uses_any_exec(inv: &Invoice, code: &str) -> (r: bool)
    ensures
        r == uses_any(*inv, code@),
{
    uses_line_exec(inv, code) || uses_ac_exec(&inv.document_allowances, code) || uses_ac_exec(
        &inv.document_charges,
        code,
    )
}

fn count_rows(rows: &Vec<TaxBreakdown>, code: &str) -> (r: usize)
    ensures
        r == rows_of(rows@, code@),
{
    let mut n: usize = 0;
    let mut i: usize = 0;
    while i < rows.len()
        invariant
            i <= rows.len(),
            n == rows_of(rows@.take(i as int), code@),
            n <= i,
        decreases rows.len() - i,
    {
        assert(rows@.take(i + 1).drop_last() =~= rows@.take(i as int));
        if str_eq_ic(rows[i].category.as_str(), code) {
            n = n + 1;
        }
        i = i + 1;
    }
    assert(rows@.take(rows.len() as int) =~= rows@);
    n
}

/// The breakdown group count a family asks for.
pub open spec fn groups_ok(g: Groups, n: nat) -> bool {
    match g {
        Groups::AtLeastOne => n >= 1,
        Groups::ExactlyOne => n == 1,
    }
}

/// When [`check_groups`] appends a finding: exactly when this holds, under [`check_groups_bound`].
pub open spec fn check_groups_fires(inv: Invoice, p: CategoryProfile, id: &'static str) -> bool {
    vat_apply(inv) && uses_any(inv, category_code(p.category))
        && !groups_ok(p.groups, rows_of(inv.tax_breakdown@, category_code(p.category)))
}

/// Where [`check_groups`] states when it appends a finding.
pub open spec fn check_groups_bound(inv: Invoice, p: CategoryProfile, id: &'static str) -> bool {
    true
}

/// `-01`: a used category has the breakdown groups its family asks for.
pub fn check_groups(inv: &Invoice, report: &mut Report, p: CategoryProfile, id: &'static str)
    ensures
        emitted(*old(report), *final(report), id@),
        fires_once(*old(report), *final(report), vat_apply(*inv) && uses_any(*inv, category_code(p.category))
            && !groups_ok(p.groups, rows_of(inv.tax_breakdown@, category_code(p.category)))),
{
    let code = p.category.code();
    if !vat_applies(inv) || !uses_any_exec(inv, code) {
        proof {
            lemma_emitted_none(*report, id@);
        }
        return;
    }
    let n = count_rows(&inv.tax_breakdown, code);
    let ok = match p.groups {
        Groups::AtLeastOne => n >= 1,
        Groups::ExactlyOne => n == 1,
    };
    if !ok {
        let need = match p.groups {
            Groups::AtLeastOne => " requires AtLeastOne BG-23 group(s), found ",
            Groups::ExactlyOne => " requires ExactlyOne BG-23 group(s), found ",
        };
        let mut m = concat3("category ", code, need);
        m.append(crate::text::u64_text(n as u64).as_str());
        fatal_msg(report, id, Path::group(Group::TaxBreakdown), m);
    } else {
        proof {
            lemma_emitted_none(*report, id@);
        }
    }
}

/// A line category the family's rate rule refuses: for O, a positive rate;
/// otherwise a rate outside the rule.
pub open spec fn line_rate_bad(p: CategoryProfile, t: TaxCategory) -> bool {
    if p.category == VatCategory::OutOfScope {
        t.percent matches Some(r) && r.dec().m() > 0
    } else {
        !rate_ok(p.rate, t.percent)
    }
}

/// When [`check_rate_line`] appends a finding: exactly when this holds, under [`check_rate_line_bound`].
pub open spec fn check_rate_line_fires(inv: Invoice, p: CategoryProfile, id: &'static str) -> bool {
    vat_apply(inv) && exists|k: int| #![trigger inv.lines@[k]]
        0 <= k < inv.lines@.len() && vat_is(inv.lines@[k].tax, category_code(p.category)) && line_rate_bad(
        p,
        inv.lines@[k].tax,
    )
}

/// Where [`check_rate_line`] states when it appends a finding.
pub open spec fn check_rate_line_bound(inv: Invoice, p: CategoryProfile, id: &'static str) -> bool {
    true
}

/// `-05`: each line of the category has a rate the family allows.
pub fn check_rate_line(inv: &Invoice, report: &mut Report, p: CategoryProfile, id: &'static str)
    ensures
        emitted(*old(report), *final(report), id@),
        fires_some(*old(report), *final(report), vat_apply(*inv) && exists|k: int| #![trigger inv.lines@[k]]
            0 <= k < inv.lines@.len() && vat_is(inv.lines@[k].tax, category_code(p.category)) && line_rate_bad(
            p,
            inv.lines@[k].tax,
        )),
{
    let ghost start = *report;
    proof {
        lemma_emitted_none(start, id@);
    }
    if !vat_applies(inv) {
        return;
    }
    let code = p.category.code();
    let mut i: usize = 0;
    while i < inv.lines.len()
        invariant
            i <= inv.lines.len(),
            vat_apply(*inv),
            code@ == category_code(p.category),
            emitted(start, *report, id@),
            added(start, *report) > 0 <==> exists|k: int| #![trigger inv.lines@[k]] 0 <= k < i && vat_is(
                inv.lines@[k].tax,
                code@,
            ) && line_rate_bad(p, inv.lines@[k].tax),
        decreases inv.lines.len() - i,
    {
        let t = &inv.lines[i].tax;
        if is_vat(t, code) {
            let ghost before = *report;
            if p.category == VatCategory::OutOfScope {
                let positive = match t.percent {
                    Some(r) => r.is_positive(),
                    None => false,
                };
                if positive {
                    fatal_at(report, id, Path::at_term(Group::Line, i, BtId(152)), "category O shall not contain a positive rate");
                    proof {
                        lemma_emitted_trans(start, before, *report, id@);
                    }
                }
            } else if !rate_is_ok(p.rate, t.percent) {
                let m = concat3("BT-152 rate is not valid for ", code, "");
                fatal_msg(report, id, Path::at_term(Group::Line, i, BtId(152)), m);
                proof {
                    lemma_emitted_trans(start, before, *report, id@);
                }
            }
        }
        i = i + 1;
    }
}

/// An allowance or charge of the family's category with a rate the family refuses.
pub open spec fn ac_rate_bad(p: CategoryProfile, a: AllowanceCharge) -> bool {
    match a.tax {
        Some(t) => vat_is(t, category_code(p.category)) && !rate_ok(p.rate, t.percent),
        None => false,
    }
}

/// Some of the first `n` allowances or charges has a rate the family refuses.
pub open spec fn any_ac_rate_bad(p: CategoryProfile, acs: Seq<AllowanceCharge>, n: int) -> bool {
    exists|k: int| #![trigger acs[k]] 0 <= k < n && ac_rate_bad(p, acs[k])
}

/// When [`check_rate_ac`] appends a finding: exactly when this holds, under [`check_rate_ac_bound`].
pub open spec fn check_rate_ac_fires(inv: Invoice, p: CategoryProfile, id: &'static str, charges: bool) -> bool {
    vat_apply(inv) && {
        let acs = if charges { inv.document_charges@ } else { inv.document_allowances@ };
        any_ac_rate_bad(p, acs, acs.len() as int)
    }
}

/// Where [`check_rate_ac`] states when it appends a finding.
pub open spec fn check_rate_ac_bound(inv: Invoice, p: CategoryProfile, id: &'static str, charges: bool) -> bool {
    true
}

/// `-06`/`-07`: each document allowance or charge of the category has a rate
/// the family allows.
pub fn check_rate_ac(
    inv: &Invoice,
    report: &mut Report,
    p: CategoryProfile,
    id: &'static str,
    charges: bool,
)
    ensures
        emitted(*old(report), *final(report), id@),
        fires_some(*old(report), *final(report), vat_apply(*inv) && {
            let acs = if charges { inv.document_charges@ } else { inv.document_allowances@ };
            any_ac_rate_bad(p, acs, acs.len() as int)
        }),
{
    let ghost start = *report;
    proof {
        lemma_emitted_none(start, id@);
    }
    if !vat_applies(inv) {
        return;
    }
    let code = p.category.code();
    let acs = if charges { &inv.document_charges } else { &inv.document_allowances };
    let group = if charges { Group::DocumentCharge } else { Group::DocumentAllowance };
    let mut i: usize = 0;
    while i < acs.len()
        invariant
            i <= acs.len(),
            vat_apply(*inv),
            acs@ == (if charges { inv.document_charges@ } else { inv.document_allowances@ }),
            code@ == category_code(p.category),
            emitted(start, *report, id@),
            added(start, *report) > 0 <==> any_ac_rate_bad(p, acs@, i as int),
        decreases acs.len() - i,
    {
        match &acs[i].tax {
            Some(t) => {
                if is_vat(t, code) && !rate_is_ok(p.rate, t.percent) {
                    let ghost before = *report;
                    let m = concat3("rate is not valid for ", code, " in this context");
                    fatal_msg(report, id, Path::at_term(group, i, BtId(96)), m);
                    proof {
                        lemma_emitted_trans(start, before, *report, id@);
                    }
                }
            },
            None => {},
        }
        i = i + 1;
    }
}

/// The tax identifiers a category asks of the parties.
pub open spec fn identifiers_ok(c: VatCategory, inv: Invoice) -> bool {
    let seller_vat = inv.seller.vat_identifier is Some;
    let seller_tax = inv.seller.tax_registration is Some;
    let rep_vat = inv.tax_representative matches Some(r) && r.vat_identifier is Some;
    let buyer_vat = inv.buyer.vat_identifier is Some;
    match c {
        VatCategory::Export => seller_vat || rep_vat,
        VatCategory::ReverseCharge => (seller_vat || seller_tax || rep_vat) && (buyer_vat
            || inv.buyer.legal_registration is Some),
        VatCategory::IntraCommunity => (seller_vat || rep_vat) && buyer_vat,
        VatCategory::OutOfScope => !seller_vat && !rep_vat && !buyer_vat,
        _ => seller_vat || seller_tax || rep_vat,
    }
}

fn identifiers_hold(c: VatCategory, inv: &Invoice) -> (r: bool)
    ensures
        r == identifiers_ok(c, *inv),
{
    let seller_vat = inv.seller.vat_identifier.is_some();
    let seller_tax = inv.seller.tax_registration.is_some();
    let rep_vat = match &inv.tax_representative {
        Some(r) => r.vat_identifier.is_some(),
        None => false,
    };
    let buyer_vat = inv.buyer.vat_identifier.is_some();
    match c {
        VatCategory::Export => seller_vat || rep_vat,
        VatCategory::ReverseCharge => (seller_vat || seller_tax || rep_vat) && (buyer_vat
            || inv.buyer.legal_registration.is_some()),
        VatCategory::IntraCommunity => (seller_vat || rep_vat) && buyer_vat,
        VatCategory::OutOfScope => !seller_vat && !rep_vat && !buyer_vat,
        _ => seller_vat || seller_tax || rep_vat,
    }
}

/// Where a category is used: 0 lines, 1 document allowances, 2 document charges.
pub open spec fn uses_in(inv: Invoice, code: Seq<char>, ctx: u8) -> bool {
    if ctx == 0 {
        uses_line(inv, code)
    } else if ctx == 1 {
        uses_ac(inv.document_allowances@, code)
    } else {
        uses_ac(inv.document_charges@, code)
    }
}

/// When [`check_identifiers_in`] appends a finding: exactly when this holds, under [`check_identifiers_in_bound`].
pub open spec fn check_identifiers_in_fires(inv: Invoice, p: CategoryProfile, id: &'static str, ctx: u8) -> bool {
    vat_apply(inv) && uses_in(inv, category_code(p.category), ctx)
        && !identifiers_ok(p.category, inv)
}

/// Where [`check_identifiers_in`] states when it appends a finding.
pub open spec fn check_identifiers_in_bound(inv: Invoice, p: CategoryProfile, id: &'static str, ctx: u8) -> bool {
    true
}

/// `-02`/`-03`/`-04`: a category used on lines, allowances or charges comes
/// with the tax identifiers it asks for.
pub fn check_identifiers_in(inv: &Invoice, report: &mut Report, p: CategoryProfile, id: &'static str, ctx: u8)
    ensures
        emitted(*old(report), *final(report), id@),
        fires_once(*old(report), *final(report), vat_apply(*inv) && uses_in(*inv, category_code(p.category), ctx)
            && !identifiers_ok(p.category, *inv)),
{
    let code = p.category.code();
    let used = if ctx == 0 {
        uses_line_exec(inv, code)
    } else if ctx == 1 {
        uses_ac_exec(&inv.document_allowances, code)
    } else {
        uses_ac_exec(&inv.document_charges, code)
    };
    if vat_applies(inv) && used && !identifiers_hold(p.category, inv) {
        let m = concat3("tax identifier requirement for category ", code, " is not met");
        fatal_msg(report, id, Path::group_term(Group::Seller, BtId(31)), m);
    } else {
        proof {
            lemma_emitted_none(*report, id@);
        }
    }
}

/// An exemption reason text or code that is not blank.
pub open spec fn has_exemption(e: TaxBreakdown) -> bool {
    !opt_text_blank(e.exemption_reason) || !opt_code_blank(e.exemption_code)
}

/// A breakdown row of the category whose exemption reason the family refuses.
pub open spec fn exemption_bad(c: VatCategory, e: TaxBreakdown) -> bool {
    (needs_reason(c) && !has_exemption(e)) || (bars_reason(c) && has_exemption(e))
}

/// A breakdown row of a category that carries no tax and is not zero-rated
/// (so of E, AE, K, G or O), with neither a reason text nor a reason code,
/// is refused by the family's exemption check.
pub proof fn lemma_untaxed_row_needs_reason(c: VatCategory, e: TaxBreakdown)
    requires
        family(c).tax == TaxRule::Zero,
        c != VatCategory::ZeroRated,
        !has_exemption(e),
    ensures
        exemption_bad(c, e),
{
}

/// When [`check_exemption`] appends a finding: exactly when this holds, under [`check_exemption_bound`].
pub open spec fn check_exemption_fires(inv: Invoice, p: CategoryProfile, id: &'static str) -> bool {
    vat_apply(inv) && exists|k: int|
        #![trigger inv.tax_breakdown@[k]] 0 <= k < inv.tax_breakdown@.len() && eq_ic(
            inv.tax_breakdown@[k].category@,
            category_code(p.category),
        ) && exemption_bad(p.category, inv.tax_breakdown@[k])
}

/// Where [`check_exemption`] states when it appends a finding.
pub open spec fn check_exemption_bound(inv: Invoice, p: CategoryProfile, id: &'static str) -> bool {
    true
}

/// `-10`: breakdown rows of the category carry an exemption reason exactly
/// when the family asks for one.
pub fn check_exemption(inv: &Invoice, report: &mut Report, p: CategoryProfile, id: &'static str)
    ensures
        emitted(*old(report), *final(report), id@),
        fires_some(*old(report), *final(report), vat_apply(*inv) && exists|k: int|
            #![trigger inv.tax_breakdown@[k]] 0 <= k < inv.tax_breakdown@.len() && eq_ic(
                inv.tax_breakdown@[k].category@,
                category_code(p.category),
            ) && exemption_bad(p.category, inv.tax_breakdown@[k])),
{
    let ghost start = *report;
    proof {
        lemma_emitted_none(start, id@);
    }
    if !vat_applies(inv) {
        return;
    }
    let code = p.category.code();
    let needs = p.category.requires_exemption_reason();
    let bars = p.category.forbids_exemption_reason();
    let mut i: usize = 0;
    while i < inv.tax_breakdown.len()
        invariant
            i <= inv.tax_breakdown.len(),
            code@ == category_code(p.category),
            needs == needs_reason(p.category),
            bars == bars_reason(p.category),
            emitted(start, *report, id@),
            added(start, *report) > 0 <==> exists|k: int| #![trigger inv.tax_breakdown@[k]] 0 <= k < i && eq_ic(
                inv.tax_breakdown@[k].category@,
                code@,
            ) && exemption_bad(p.category, inv.tax_breakdown@[k]),
        decreases inv.tax_breakdown.len() - i,
    {
        let e = &inv.tax_breakdown[i];
        if str_eq_ic(e.category.as_str(), code) {
            let has = !text_blank(&e.exemption_reason) || !code_blank(&e.exemption_code);
            if (needs && !has) || (bars && has) {
                let ghost before = *report;
                let m = concat3("exemption reason rule ", id, " failed");
                fatal_msg(report, id, Path::at_term(Group::TaxBreakdown, i, BtId(120)), m);
                proof {
                    lemma_emitted_trans(start, before, *report, id@);
                }
            }
        }
        i = i + 1;
    }
}

/// The derived tax of a breakdown row in hundredths; a row without a rate
/// derives zero.
pub open spec fn derived_of(e: TaxBreakdown) -> int {
    match e.rate {
        Some(p) => derived_cents(e.taxable.dec(), p.dec()),
        None => 0,
    }
}

/// The row's tax is not within ±1.00 (exclusive) of its derived tax.
pub open spec fn fails_derived(e: TaxBreakdown) -> bool {
    abs_int(abs_int(e.tax.cents()) - derived_of(e)) >= 100
}

/// The arithmetic of the derivation on a row stays within the decimal type.
pub open spec fn derived_row_fits(e: TaxBreakdown) -> bool {
    &&& fits96(e.tax.cents())
    &&& fits96(abs_int(e.tax.cents()) - derived_of(e))
    &&& match e.rate {
        Some(p) => derived_fits(e.taxable.dec(), p.dec()),
        None => true,
    }
}

/// Whether the row's tax is off its derived tax (exact where
/// [`derived_row_fits`] holds; `false` where the derivation overflows).
pub fn tax_not_derived(e: &TaxBreakdown) -> (r: bool)
    ensures
        derived_row_fits(*e) ==> r == fails_derived(*e),
{
    let rate = match e.rate {
        Some(r) => r.as_percent(),
        None => Dec::zero(),
    };
    let base = e.taxable.raw();
    proof {
        if e.rate is None {
            let b = base;
            let q = crate::dec::pow10(b.s());
            crate::dec::lemma_pow10_pos(b.s());
            assert(q <= 100) by {
                reveal_with_fuel(crate::dec::pow10, 3);
            }
            assert(crate::arith::derived_product(b, rate) == 0);
            vstd::arithmetic::div_mod::lemma_basic_div(q, 2 * q);
            assert(crate::dec::floor_div(2 * 0 + q, 2 * q) == 0);
            assert(derived_cents(b, rate) == 0);
            assert(derived_fits(b, rate));
        }
    }
    match derived_vat(base, rate) {
        Some(expected) => {
            let stated = e.tax.raw().abs();
            proof {
                if derived_row_fits(*e) {
                    crate::dec::lemma_pow10_pos((2 - e.tax.dec().s()) as nat);
                    crate::total_checks::lemma_abs_scaled(e.tax.dec().m(), crate::dec::pow10((2 - e.tax.dec().s()) as nat));
                    assert(crate::dec::scaled(stated, 2) == abs_int(e.tax.cents()));
                    crate::arith::lemma_within_cents(stated, expected);
                }
            }
            !within_vat_tolerance(stated, expected)
        },
        None => false,
    }
}

/// When [`check_tax`] appends a finding: exactly when this holds, under [`check_tax_bound`].
pub open spec fn check_tax_fires(inv: Invoice, p: CategoryProfile, id: &'static str) -> bool {
    vat_apply(inv) && exists|k: int|
        #![trigger inv.tax_breakdown@[k]] 0 <= k < inv.tax_breakdown@.len() && eq_ic(
            inv.tax_breakdown@[k].category@,
            category_code(p.category),
        ) && inv.tax_breakdown@[k].tax.cents() != 0
}

/// Where [`check_tax`] states when it appends a finding.
pub open spec fn check_tax_bound(inv: Invoice, p: CategoryProfile, id: &'static str) -> bool {
    p.tax == TaxRule::Zero
}

/// `-09`: breakdown rows of the category carry zero tax where the family's
/// tax is zero, and the derived tax (within the artefacts' ±1.00) otherwise.
/// At most one finding per row.
pub fn check_tax(inv: &Invoice, report: &mut Report, p: CategoryProfile, id: &'static str)
    ensures
        emitted(*old(report), *final(report), id@),
        !vat_apply(*inv) ==> added(*old(report), *final(report)) == 0,
        added(*old(report), *final(report)) <= rows_of(inv.tax_breakdown@, category_code(p.category)),
        p.tax == TaxRule::Zero ==> fires_some(*old(report), *final(report), vat_apply(*inv) && exists|k: int|
            #![trigger inv.tax_breakdown@[k]] 0 <= k < inv.tax_breakdown@.len() && eq_ic(
                inv.tax_breakdown@[k].category@,
                category_code(p.category),
            ) && inv.tax_breakdown@[k].tax.cents() != 0),
        p.tax == TaxRule::Derived && (forall|k: int| 0 <= k < inv.tax_breakdown@.len() ==> derived_row_fits(#[trigger] inv.tax_breakdown@[k]))
            ==> fires_some(*old(report), *final(report), vat_apply(*inv) && exists|k: int|
            #![trigger inv.tax_breakdown@[k]] 0 <= k < inv.tax_breakdown@.len() && eq_ic(
                inv.tax_breakdown@[k].category@,
                category_code(p.category),
            ) && fails_derived(inv.tax_breakdown@[k])),
{
    let ghost start = *report;
    proof {
        lemma_emitted_none(start, id@);
    }
    if !vat_applies(inv) {
        return;
    }
    let code = p.category.code();
    let mut i: usize = 0;
    while i < inv.tax_breakdown.len()
        invariant
            i <= inv.tax_breakdown.len(),
            code@ == category_code(p.category),
            emitted(start, *report, id@),
            added(start, *report) <= rows_of(inv.tax_breakdown@.take(i as int), code@),
            p.tax == TaxRule::Zero ==> (added(start, *report) > 0 <==> exists|k: int|
                #![trigger inv.tax_breakdown@[k]] 0 <= k < i && eq_ic(inv.tax_breakdown@[k].category@, code@)
                    && inv.tax_breakdown@[k].tax.cents() != 0),
            p.tax == TaxRule::Derived && (forall|k: int| 0 <= k < inv.tax_breakdown@.len() ==> derived_row_fits(#[trigger] inv.tax_breakdown@[k]))
                ==> (added(start, *report) > 0 <==> exists|k: int|
                #![trigger inv.tax_breakdown@[k]] 0 <= k < i && eq_ic(inv.tax_breakdown@[k].category@, code@)
                    && fails_derived(inv.tax_breakdown@[k])),
        decreases inv.tax_breakdown.len() - i,
    {
        assert(inv.tax_breakdown@.take(i + 1).drop_last() =~= inv.tax_breakdown@.take(i as int));
        let e = &inv.tax_breakdown[i];
        if str_eq_ic(e.category.as_str(), code) {
            let path = Path::at_term(Group::TaxBreakdown, i, BtId(117));
            let ghost before = *report;
            match p.tax {
                TaxRule::Zero => {
                    if !e.tax.is_zero() {
                        let m = concat("BT-117 shall be 0 for category ", code);
                        fatal_msg(report, id, path, m);
                        proof {
                            lemma_emitted_trans(start, before, *report, id@);
                        }
                    }
                },
                TaxRule::Derived => {
                    if tax_not_derived(e) {
                        let m = concat3("BT-117 ", e.tax.to_string().as_str(), " is not derived from BT-116 × rate");
                        fatal_msg(report, id, path, m);
                        proof {
                            lemma_emitted_trans(start, before, *report, id@);
                        }
                    }
                },
            }
        }
        i = i + 1;
    }
    assert(inv.tax_breakdown@.take(inv.tax_breakdown.len() as int) =~= inv.tax_breakdown@);
}


/// Same rate, or both absent.
pub open spec fn same_rate(a: Option<Percentage>, b: Option<Percentage>) -> bool {
    match (a, b) {
        (None, None) => true,
        (Some(x), Some(y)) => same_value(x.dec(), y.dec()),
        _ => false,
    }
}

fn rates_equal(a: Option<Percentage>, b: Option<Percentage>) -> (r: bool)
    ensures
        r == same_rate(a, b),
{
    match (a, b) {
        (None, None) => true,
        (Some(x), Some(y)) => x == y,
        _ => false,
    }
}

/// A category that belongs to a breakdown row of the family: same category,
/// and same rate where the family keys its rows on the rate.
pub open spec fn in_row(t: TaxCategory, p: CategoryProfile, rate: Option<Percentage>) -> bool {
    vat_is(t, category_code(p.category)) && (p.groups != Groups::AtLeastOne || same_rate(t.percent, rate))
}

fn belongs(t: &TaxCategory, p: CategoryProfile, code: &str, rate: Option<Percentage>) -> (r: bool)
    requires
        code@ == category_code(p.category),
    ensures
        r == in_row(*t, p, rate),
{
    is_vat(t, code) && (!p.grouped_by_rate() || rates_equal(t.percent, rate))
}

/// An optional category that belongs to the family's row of the rate.
pub open spec fn opt_in_row(t: Option<TaxCategory>, p: CategoryProfile, rate: Option<Percentage>) -> bool {
    t matches Some(c) && in_row(c, p, rate)
}

/// Hundredths of the net amounts of the lines that belong to the row.
pub open spec fn row_line_cents(lines: Seq<Line>, p: CategoryProfile, rate: Option<Percentage>) -> int
    decreases lines.len(),
{
    if lines.len() == 0 {
        0
    } else {
        row_line_cents(lines.drop_last(), p, rate) + if in_row(lines.last().tax, p, rate) {
            lines.last().net.cents()
        } else {
            0
        }
    }
}

/// Hundredths of the allowances or charges of the list that belong to the row.
pub open spec fn row_ac_cents(acs: Seq<AllowanceCharge>, p: CategoryProfile, rate: Option<Percentage>) -> int
    decreases acs.len(),
{
    if acs.len() == 0 {
        0
    } else {
        row_ac_cents(acs.drop_last(), p, rate) + if opt_in_row(acs.last().tax, p, rate) {
            acs.last().amount.cents()
        } else {
            0
        }
    }
}

/// The sum a breakdown row of the family and rate is held to: its lines and
/// document charges less its document allowances, in hundredths.
pub open spec fn row_group_cents(inv: Invoice, p: CategoryProfile, rate: Option<Percentage>) -> int {
    row_line_cents(inv.lines@, p, rate) + row_ac_cents(inv.document_charges@, p, rate) - row_ac_cents(
        inv.document_allowances@,
        p,
        rate,
    )
}

/// Every amount summed, and every running total of the sum, is representable.
pub open spec fn row_group_fits(inv: Invoice, p: CategoryProfile, rate: Option<Percentage>) -> bool {
    let lines = inv.lines@;
    let charges = inv.document_charges@;
    let allowances = inv.document_allowances@;
    &&& forall|i: int| 0 <= i < lines.len() ==> fits96(#[trigger] lines[i].net.cents())
    &&& forall|i: int| 0 <= i < charges.len() ==> fits96(#[trigger] charges[i].amount.cents())
    &&& forall|i: int| 0 <= i < allowances.len() ==> fits96(#[trigger] allowances[i].amount.cents())
    &&& forall|k: int| 0 <= k <= lines.len() ==> fits96(#[trigger] row_line_cents(lines.take(k), p, rate))
    &&& forall|k: int| 0 <= k <= charges.len() ==> fits96(
        row_line_cents(lines, p, rate) + #[trigger] row_ac_cents(charges.take(k), p, rate),
    )
    &&& forall|k: int| 0 <= k <= allowances.len() ==> fits96(#[trigger] row_ac_cents(allowances.take(k), p, rate))
    &&& fits96(row_group_cents(inv, p, rate))
}

fn row_sum(inv: &Invoice, p: CategoryProfile, code: &str, rate: Option<Percentage>) -> (r: Option<crate::amount::InvoiceAmount>)
    requires
        code@ == category_code(p.category),
    ensures
        row_group_fits(*inv, p, rate) ==> (r matches Some(v) && v.cents() == row_group_cents(*inv, p, rate)),
{
    let ghost fits = row_group_fits(*inv, p, rate);
    let ghost lines = inv.lines@;
    let ghost charges = inv.document_charges@;
    let ghost allowances = inv.document_allowances@;
    let mut pos = crate::amount::InvoiceAmount::zero();
    let mut i: usize = 0;
    proof {
        assert(lines.take(0) =~= Seq::<Line>::empty());
    }
    while i < inv.lines.len()
        invariant
            i <= inv.lines.len(),
            lines == inv.lines@,
            code@ == category_code(p.category),
            fits == row_group_fits(*inv, p, rate),
            fits ==> pos.cents() == row_line_cents(lines.take(i as int), p, rate),
        decreases inv.lines.len() - i,
    {
        assert(lines.take(i + 1).drop_last() =~= lines.take(i as int));
        if belongs(&inv.lines[i].tax, p, code, rate) {
            proof {
                if fits {
                    assert(fits96(row_line_cents(lines.take(i as int), p, rate)));
                    assert(fits96(row_line_cents(lines.take(i + 1), p, rate)));
                    assert(fits96(lines[i as int].net.cents()));
                }
            }
            pos = match pos.checked_add(inv.lines[i].net) {
                Some(v) => v,
                None => {
                    return None;
                },
            };
        }
        i = i + 1;
    }
    proof {
        assert(lines.take(lines.len() as int) =~= lines);
        assert(charges.take(0) =~= Seq::<AllowanceCharge>::empty());
    }
    let mut c: usize = 0;
    while c < inv.document_charges.len()
        invariant
            c <= inv.document_charges.len(),
            lines == inv.lines@,
            charges == inv.document_charges@,
            code@ == category_code(p.category),
            fits == row_group_fits(*inv, p, rate),
            fits ==> pos.cents() == row_line_cents(lines, p, rate) + row_ac_cents(charges.take(c as int), p, rate),
        decreases inv.document_charges.len() - c,
    {
        assert(charges.take(c + 1).drop_last() =~= charges.take(c as int));
        let hit = match &inv.document_charges[c].tax {
            Some(t) => belongs(t, p, code, rate),
            None => false,
        };
        if hit {
            proof {
                if fits {
                    assert(fits96(row_line_cents(lines, p, rate) + row_ac_cents(charges.take(c as int), p, rate)));
                    assert(fits96(row_line_cents(lines, p, rate) + row_ac_cents(charges.take(c + 1), p, rate)));
                    assert(fits96(charges[c as int].amount.cents()));
                }
            }
            pos = match pos.checked_add(inv.document_charges[c].amount) {
                Some(v) => v,
                None => {
                    return None;
                },
            };
        }
        c = c + 1;
    }
    proof {
        assert(charges.take(charges.len() as int) =~= charges);
        assert(allowances.take(0) =~= Seq::<AllowanceCharge>::empty());
    }
    let mut neg = crate::amount::InvoiceAmount::zero();
    let mut a: usize = 0;
    while a < inv.document_allowances.len()
        invariant
            a <= inv.document_allowances.len(),
            allowances == inv.document_allowances@,
            code@ == category_code(p.category),
            fits == row_group_fits(*inv, p, rate),
            fits ==> neg.cents() == row_ac_cents(allowances.take(a as int), p, rate),
        decreases inv.document_allowances.len() - a,
    {
        assert(allowances.take(a + 1).drop_last() =~= allowances.take(a as int));
        let hit = match &inv.document_allowances[a].tax {
            Some(t) => belongs(t, p, code, rate),
            None => false,
        };
        if hit {
            proof {
                if fits {
                    assert(fits96(row_ac_cents(allowances.take(a as int), p, rate)));
                    assert(fits96(row_ac_cents(allowances.take(a + 1), p, rate)));
                    assert(fits96(allowances[a as int].amount.cents()));
                }
            }
            neg = match neg.checked_add(inv.document_allowances[a].amount) {
                Some(v) => v,
                None => {
                    return None;
                },
            };
        }
        a = a + 1;
    }
    proof {
        assert(allowances.take(allowances.len() as int) =~= allowances);
        if fits {
            assert(fits96(row_ac_cents(allowances.take(allowances.len() as int), p, rate)));
            assert(fits96(row_line_cents(lines, p, rate) + row_ac_cents(charges.take(charges.len() as int), p, rate)));
        }
    }
    pos.checked_sub(neg)
}

/// The row's taxable amount is not within ±1.00 (exclusive) of the sum of
/// its group.
pub open spec fn fails_taxable(inv: Invoice, p: CategoryProfile, e: TaxBreakdown) -> bool {
    abs_int(e.taxable.cents() - row_group_cents(inv, p, e.rate)) >= 100
}

/// The arithmetic of the comparison on a row stays within the decimal type.
pub open spec fn taxable_row_fits(inv: Invoice, p: CategoryProfile, e: TaxBreakdown) -> bool {
    &&& row_group_fits(inv, p, e.rate)
    &&& fits96(e.taxable.cents())
    &&& fits96(e.taxable.cents() - row_group_cents(inv, p, e.rate))
}

/// When [`check_taxable`] appends a finding: exactly when this holds, under [`check_taxable_bound`].
pub open spec fn check_taxable_fires(inv: Invoice, p: CategoryProfile, id: &'static str) -> bool {
    vat_apply(inv) && exists|k: int|
        #![trigger inv.tax_breakdown@[k]] 0 <= k < inv.tax_breakdown@.len() && eq_ic(
            inv.tax_breakdown@[k].category@,
            category_code(p.category),
        ) && fails_taxable(inv, p, inv.tax_breakdown@[k])
}

/// Where [`check_taxable`] states when it appends a finding.
pub open spec fn check_taxable_bound(inv: Invoice, p: CategoryProfile, id: &'static str) -> bool {
    (forall|k: int| 0 <= k < inv.tax_breakdown@.len() ==> taxable_row_fits(inv, p, #[trigger] inv.tax_breakdown@[k]))
}

/// `-08`: a breakdown row's taxable amount is within the artefacts' ±1.00 of
/// its lines and charges less its allowances. At most one finding per row.
pub fn check_taxable(inv: &Invoice, report: &mut Report, p: CategoryProfile, id: &'static str)
    ensures
        emitted(*old(report), *final(report), id@),
        !vat_apply(*inv) ==> added(*old(report), *final(report)) == 0,
        added(*old(report), *final(report)) <= rows_of(inv.tax_breakdown@, category_code(p.category)),
        (forall|k: int| 0 <= k < inv.tax_breakdown@.len() ==> taxable_row_fits(*inv, p, #[trigger] inv.tax_breakdown@[k]))
            ==> fires_some(*old(report), *final(report), vat_apply(*inv) && exists|k: int|
            #![trigger inv.tax_breakdown@[k]] 0 <= k < inv.tax_breakdown@.len() && eq_ic(
                inv.tax_breakdown@[k].category@,
                category_code(p.category),
            ) && fails_taxable(*inv, p, inv.tax_breakdown@[k])),
{
    let ghost start = *report;
    proof {
        lemma_emitted_none(start, id@);
    }
    if !vat_applies(inv) {
        return;
    }
    let ghost all_fit = forall|k: int| 0 <= k < inv.tax_breakdown@.len() ==> taxable_row_fits(*inv, p, #[trigger] inv.tax_breakdown@[k]);
    let code = p.category.code();
    let mut i: usize = 0;
    while i < inv.tax_breakdown.len()
        invariant
            i <= inv.tax_breakdown.len(),
            code@ == category_code(p.category),
            emitted(start, *report, id@),
            added(start, *report) <= rows_of(inv.tax_breakdown@.take(i as int), code@),
            all_fit == forall|k: int| 0 <= k < inv.tax_breakdown@.len() ==> taxable_row_fits(*inv, p, #[trigger] inv.tax_breakdown@[k]),
            all_fit ==> (added(start, *report) > 0 <==> exists|k: int|
                #![trigger inv.tax_breakdown@[k]] 0 <= k < i && eq_ic(inv.tax_breakdown@[k].category@, code@)
                    && fails_taxable(*inv, p, inv.tax_breakdown@[k])),
        decreases inv.tax_breakdown.len() - i,
    {
        assert(inv.tax_breakdown@.take(i + 1).drop_last() =~= inv.tax_breakdown@.take(i as int));
        let e = &inv.tax_breakdown[i];
        if str_eq_ic(e.category.as_str(), code) {
            match row_sum(inv, p, code, e.rate) {
                Some(expected) => {
                    let stated = e.taxable.raw();
                    let want = expected.raw();
                    proof {
                        if all_fit {
                            assert(taxable_row_fits(*inv, p, inv.tax_breakdown@[i as int]));
                            crate::arith::lemma_within_cents(stated, want);
                        }
                    }
                    if !within_vat_tolerance(stated, want) {
                        let ghost before = *report;
                        let mut m = concat3("BT-116 ", e.taxable.to_string().as_str(), " is not within ±1.00 of group sum ");
                        m.append(expected.to_string().as_str());
                        fatal_msg(report, id, Path::at_term(Group::TaxBreakdown, i, BtId(116)), m);
                        proof {
                            lemma_emitted_trans(start, before, *report, id@);
                        }
                    }
                },
                None => {
                    proof {
                        if all_fit {
                            assert(taxable_row_fits(*inv, p, inv.tax_breakdown@[i as int]));
                        }
                    }
                },
            }
        }
        i = i + 1;
    }
    assert(inv.tax_breakdown@.take(inv.tax_breakdown.len() as int) =~= inv.tax_breakdown@);
}

/// A breakdown row of category O (ASCII case ignored).
pub open spec fn o_group_present(inv: Invoice) -> bool {
    exists|i: int| #![trigger inv.tax_breakdown@[i]] 0 <= i < inv.tax_breakdown@.len() && eq_ic(
        inv.tax_breakdown@[i].category@,
        "O"@,
    )
}

fn any_row(rows: &Vec<TaxBreakdown>, code: &str, is: bool) -> (r: bool)
    ensures
        r == exists|i: int| #![trigger rows@[i]] 0 <= i < rows@.len() && eq_ic(rows@[i].category@, code@) == is,
{
    let mut i: usize = 0;
    while i < rows.len()
        invariant
            i <= rows.len(),
            forall|k: int| #![trigger rows@[k]] 0 <= k < i ==> eq_ic(rows@[k].category@, code@) != is,
        decreases rows.len() - i,
    {
        if str_eq_ic(rows[i].category.as_str(), code) == is {
            return true;
        }
        i = i + 1;
    }
    false
}

/// When [`br_o_11`] appends a finding: exactly when this holds, under [`br_o_11_bound`].
pub open spec fn br_o_11_fires(inv: Invoice) -> bool {
    vat_apply(inv) && o_group_present(inv) && exists|i: int|
        #![trigger inv.tax_breakdown@[i]] 0 <= i < inv.tax_breakdown@.len() && !eq_ic(
            inv.tax_breakdown@[i].category@,
            "O"@,
        )
}

/// Where [`br_o_11`] states when it appends a finding.
pub open spec fn br_o_11_bound(inv: Invoice) -> bool {
    true
}

/// BR-O-11: with an O group there is no other breakdown group.
pub fn br_o_11(inv: &Invoice, report: &mut Report)
    ensures
        emitted(*old(report), *final(report), "BR-O-11"@),
        fires_once(*old(report), *final(report), vat_apply(*inv) && o_group_present(*inv) && exists|i: int|
            #![trigger inv.tax_breakdown@[i]] 0 <= i < inv.tax_breakdown@.len() && !eq_ic(
                inv.tax_breakdown@[i].category@,
                "O"@,
            )),
{
    if vat_applies(inv) && any_row(&inv.tax_breakdown, "O", true) && any_row(&inv.tax_breakdown, "O", false) {
        fatal_at(
            report,
            "BR-O-11",
            Path::group(Group::TaxBreakdown),
            "An Invoice with VAT category O shall not contain other VAT breakdown groups",
        );
    } else {
        proof {
            lemma_emitted_none(*report, "BR-O-11"@);
        }
    }
}

/// A VAT category other than O.
pub open spec fn vat_not_o(t: TaxCategory) -> bool {
    t.system == TaxSystem::Vat && !eq_ic(t.code@, "O"@)
}

fn is_vat_not_o(t: &TaxCategory) -> (r: bool)
    ensures
        r == vat_not_o(*t),
{
    t.system == TaxSystem::Vat && !str_eq_ic(t.code.as_str(), "O")
}

/// When [`br_o_12`] appends a finding: exactly when this holds, under [`br_o_12_bound`].
pub open spec fn br_o_12_fires(inv: Invoice) -> bool {
    vat_apply(inv) && o_group_present(inv) && exists|i: int|
        #![trigger inv.lines@[i]] 0 <= i < inv.lines@.len() && vat_not_o(inv.lines@[i].tax)
}

/// Where [`br_o_12`] states when it appends a finding.
pub open spec fn br_o_12_bound(inv: Invoice) -> bool {
    true
}

/// BR-O-12: with an O group every VAT line is O.
pub fn br_o_12(inv: &Invoice, report: &mut Report)
    ensures
        emitted(*old(report), *final(report), "BR-O-12"@),
        fires_once(*old(report), *final(report), vat_apply(*inv) && o_group_present(*inv) && exists|i: int|
            #![trigger inv.lines@[i]] 0 <= i < inv.lines@.len() && vat_not_o(inv.lines@[i].tax)),
{
    let mut found = false;
    let mut i: usize = 0;
    while i < inv.lines.len()
        invariant
            i <= inv.lines.len(),
            found == exists|k: int| #![trigger inv.lines@[k]] 0 <= k < i && vat_not_o(inv.lines@[k].tax),
        decreases inv.lines.len() - i,
    {
        if is_vat_not_o(&inv.lines[i].tax) {
            found = true;
        }
        i = i + 1;
    }
    if vat_applies(inv) && any_row(&inv.tax_breakdown, "O", true) && found {
        fatal_at(
            report,
            "BR-O-12",
            Path::group(Group::Line),
            "An Invoice with VAT category O shall not contain a line that is not O",
        );
    } else {
        proof {
            lemma_emitted_none(*report, "BR-O-12"@);
        }
    }
}

/// Some allowance or charge of the list has a VAT category other than O.
pub open spec fn ac_not_o(acs: Seq<AllowanceCharge>) -> bool {
    exists|i: int| #![trigger acs[i]] 0 <= i < acs.len() && (acs[i].tax matches Some(t) && vat_not_o(t))
}

fn any_ac_not_o(acs: &Vec<AllowanceCharge>) -> (r: bool)
    ensures
        r == ac_not_o(acs@),
{
    let mut i: usize = 0;
    while i < acs.len()
        invariant
            i <= acs.len(),
            forall|k: int| #![trigger acs@[k]] 0 <= k < i ==> !(acs@[k].tax matches Some(t) && vat_not_o(t)),
        decreases acs.len() - i,
    {
        let hit = match &acs[i].tax {
            Some(t) => is_vat_not_o(t),
            None => false,
        };
        if hit {
            return true;
        }
        i = i + 1;
    }
    false
}

/// When [`br_o_13`] appends a finding: exactly when this holds, under [`br_o_13_bound`].
pub open spec fn br_o_13_fires(inv: Invoice) -> bool {
    vat_apply(inv) && o_group_present(inv) && ac_not_o(
        inv.document_allowances@,
    )
}

/// Where [`br_o_13`] states when it appends a finding.
pub open spec fn br_o_13_bound(inv: Invoice) -> bool {
    true
}

/// BR-O-13: with an O group every VAT document allowance is O.
pub fn br_o_13(inv: &Invoice, report: &mut Report)
    ensures
        emitted(*old(report), *final(report), "BR-O-13"@),
        fires_once(*old(report), *final(report), vat_apply(*inv) && o_group_present(*inv) && ac_not_o(
            inv.document_allowances@,
        )),
{
    if vat_applies(inv) && any_row(&inv.tax_breakdown, "O", true) && any_ac_not_o(&inv.document_allowances) {
        fatal_at(
            report,
            "BR-O-13",
            Path::group(Group::DocumentAllowance),
            "An Invoice with VAT category O shall not contain a document allowance that is not O",
        );
    } else {
        proof {
            lemma_emitted_none(*report, "BR-O-13"@);
        }
    }
}

/// When [`br_o_14`] appends a finding: exactly when this holds, under [`br_o_14_bound`].
pub open spec fn br_o_14_fires(inv: Invoice) -> bool {
    vat_apply(inv) && o_group_present(inv) && ac_not_o(
        inv.document_charges@,
    )
}

/// Where [`br_o_14`] states when it appends a finding.
pub open spec fn br_o_14_bound(inv: Invoice) -> bool {
    true
}

/// BR-O-14: with an O group every VAT document charge is O.
pub fn br_o_14(inv: &Invoice, report: &mut Report)
    ensures
        emitted(*old(report), *final(report), "BR-O-14"@),
        fires_once(*old(report), *final(report), vat_apply(*inv) && o_group_present(*inv) && ac_not_o(
            inv.document_charges@,
        )),
{
    if vat_applies(inv) && any_row(&inv.tax_breakdown, "O", true) && any_ac_not_o(&inv.document_charges) {
        fatal_at(
            report,
            "BR-O-14",
            Path::group(Group::DocumentCharge),
            "An Invoice with VAT category O shall not contain a document charge that is not O",
        );
    } else {
        proof {
            lemma_emitted_none(*report, "BR-O-14"@);
        }
    }
}

/// When [`check_b_not_with_s`] appends a finding: exactly when this holds, under [`check_b_not_with_s_bound`].
pub open spec fn check_b_not_with_s_fires(inv: Invoice) -> bool {
    vat_apply(inv) && uses_any(inv, "B"@) && uses_any(inv, "S"@)
}

/// Where [`check_b_not_with_s`] states when it appends a finding.
pub open spec fn check_b_not_with_s_bound(inv: Invoice) -> bool {
    true
}

/// BR-B-02: split payment (B) and standard rate (S) do not meet.
pub fn check_b_not_with_s(inv: &Invoice, report: &mut Report)
    ensures
        emitted(*old(report), *final(report), "BR-B-02"@),
        fires_once(*old(report), *final(report), vat_apply(*inv) && uses_any(*inv, "B"@) && uses_any(*inv, "S"@)),
{
    if vat_applies(inv) && uses_any_exec(inv, "B") && uses_any_exec(inv, "S") {
        fatal_at(report, "BR-B-02", Path::group(Group::TaxBreakdown), "category B cannot coexist with S");
    } else {
        proof {
            lemma_emitted_none(*report, "BR-B-02"@);
        }
    }
}

/// When [`br_b_01`] appends a finding: exactly when this holds, under [`br_b_01_bound`].
pub open spec fn br_b_01_fires(inv: Invoice) -> bool {
    vat_apply(inv) && uses_any(inv, "B"@) && !(eq_ic(
        party_country(inv.seller),
        "IT"@,
    ) && eq_ic(party_country(inv.buyer), "IT"@))
}

/// Where [`br_b_01`] states when it appends a finding.
pub open spec fn br_b_01_bound(inv: Invoice) -> bool {
    true
}

/// BR-B-01: split payment (B) is domestic Italian.
pub fn br_b_01(inv: &Invoice, report: &mut Report)
    ensures
        emitted(*old(report), *final(report), "BR-B-01"@),
        fires_once(*old(report), *final(report), vat_apply(*inv) && uses_any(*inv, "B"@) && !(eq_ic(
            party_country(inv.seller),
            "IT"@,
        ) && eq_ic(party_country(inv.buyer), "IT"@))),
{
    if vat_applies(inv) && uses_any_exec(inv, "B") && !(str_eq_ic(inv.seller.country(), "IT") && str_eq_ic(
        inv.buyer.country(),
        "IT",
    )) {
        fatal_at(report, "BR-B-01", Path::term(BtId(118)), "Split payment (B) shall be a domestic Italian invoice");
    } else {
        proof {
            lemma_emitted_none(*report, "BR-B-01"@);
        }
    }
}

/// When [`br_ic_11`] appends a finding: exactly when this holds, under [`br_ic_11_bound`].
pub open spec fn br_ic_11_fires(inv: Invoice) -> bool {
    vat_apply(inv) && uses_any(inv, "K"@) && !(inv.delivery matches Some(
        d,
    ) && d.date is Some) && !(inv.period matches Some(p) && (p.start is Some || p.end is Some))
}

/// Where [`br_ic_11`] states when it appends a finding.
pub open spec fn br_ic_11_bound(inv: Invoice) -> bool {
    true
}

/// BR-IC-11: intra-community supply has a delivery date or an invoicing period date.
pub fn br_ic_11(inv: &Invoice, report: &mut Report)
    ensures
        emitted(*old(report), *final(report), "BR-IC-11"@),
        fires_once(*old(report), *final(report), vat_apply(*inv) && uses_any(*inv, "K"@) && !(inv.delivery matches Some(
            d,
        ) && d.date is Some) && !(inv.period matches Some(p) && (p.start is Some || p.end is Some))),
{
    let has_delivery = match &inv.delivery {
        Some(d) => d.date.is_some(),
        None => false,
    };
    let has_period = match &inv.period {
        Some(p) => p.start.is_some() || p.end.is_some(),
        None => false,
    };
    if vat_applies(inv) && uses_any_exec(inv, "K") && !has_delivery && !has_period {
        fatal_at(
            report,
            "BR-IC-11",
            Path::term(BtId(72)),
            "Intra-community: actual delivery date (BT-72) or invoicing period (BG-14) shall not be blank",
        );
    } else {
        proof {
            lemma_emitted_none(*report, "BR-IC-11"@);
        }
    }
}

/// When [`br_ic_12`] appends a finding: exactly when this holds, under [`br_ic_12_bound`].
pub open spec fn br_ic_12_fires(inv: Invoice) -> bool {
    vat_apply(inv) && uses_any(inv, "K"@) && !(inv.delivery matches Some(
        d,
    ) && d.address matches Some(a) && !opt_code_blank(a.country))
}

/// Where [`br_ic_12`] states when it appends a finding.
pub open spec fn br_ic_12_bound(inv: Invoice) -> bool {
    true
}

/// BR-IC-12: intra-community supply has a deliver-to country.
pub fn br_ic_12(inv: &Invoice, report: &mut Report)
    ensures
        emitted(*old(report), *final(report), "BR-IC-12"@),
        fires_once(*old(report), *final(report), vat_apply(*inv) && uses_any(*inv, "K"@) && !(inv.delivery matches Some(
            d,
        ) && d.address matches Some(a) && !opt_code_blank(a.country))),
{
    let has_country = match &inv.delivery {
        Some(d) => match &d.address {
            Some(a) => !code_blank(&a.country),
            None => false,
        },
        None => false,
    };
    if vat_applies(inv) && uses_any_exec(inv, "K") && !has_country {
        fatal_at(
            report,
            "BR-IC-12",
            Path::term(BtId(80)),
            "Intra-community: deliver-to country (BT-80) shall not be blank",
        );
    } else {
        proof {
            lemma_emitted_none(*report, "BR-IC-12"@);
        }
    }
}

/// When [`br_co_18`] appends a finding: exactly when this holds, under [`br_co_18_bound`].
pub open spec fn br_co_18_fires(inv: Invoice) -> bool {
    inv.tax_breakdown@.len() == 0 && inv.lines@.len() > 0
}

/// Where [`br_co_18`] states when it appends a finding.
pub open spec fn br_co_18_bound(inv: Invoice) -> bool {
    true
}

/// BR-CO-18: an invoice with lines has a tax breakdown group.
pub fn br_co_18(inv: &Invoice, report: &mut Report)
    ensures
        emitted(*old(report), *final(report), "BR-CO-18"@),
        fires_once(*old(report), *final(report), inv.tax_breakdown@.len() == 0 && inv.lines@.len() > 0),
{
    if inv.tax_breakdown.len() == 0 && inv.lines.len() > 0 {
        fatal_at(
            report,
            "BR-CO-18",
            Path::group(Group::TaxBreakdown),
            "An Invoice shall at least have one tax breakdown group (BG-23)",
        );
    } else {
        proof {
            lemma_emitted_none(*report, "BR-CO-18"@);
        }
    }
}

} // verus!
