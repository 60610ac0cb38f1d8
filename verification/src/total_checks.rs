//! Document totals checks BR-CO-10 to BR-CO-17. Each appends findings under
//! its own id only; where the sums are representable, the contracts say
//! exactly when a check fires.
use vstd::prelude::*;
use crate::amount::{InvoiceAmount, cents_sum, sum_fits};
use crate::arith::{derived_cents, derived_fits, derived_vat, round_fits, within_vat_tolerance, xpath_round, xpath_round_value};
use crate::bt::{BtId, Group, Path};
use crate::checks::{fires_once, fires_some};
use crate::dec::{Dec, abs_int, fits96};
use crate::emit::{added, emitted, fatal_msg, lemma_emitted_none, lemma_emitted_trans};
use crate::invoice::{AllowanceCharge, Invoice, Line, TaxBreakdown};
use crate::report::Report;
use crate::text::{concat, eq_ic, str_eq_ic};

verus! {

/// Net amounts of the lines.
pub open spec fn line_nets(lines: Seq<Line>) -> Seq<InvoiceAmount> {
    Seq::new(lines.len(), |i: int| lines[i].net)
}

/// Amounts of document allowances or charges.
pub open spec fn ac_amounts(acs: Seq<AllowanceCharge>) -> Seq<InvoiceAmount> {
    Seq::new(acs.len(), |i: int| acs[i].amount)
}

/// Tax amounts of the breakdown rows.
pub open spec fn row_taxes(rows: Seq<TaxBreakdown>) -> Seq<InvoiceAmount> {
    Seq::new(rows.len(), |i: int| rows[i].tax)
}

/// Hundredths of an optional amount, zero when absent.
pub open spec fn opt_cents(o: Option<InvoiceAmount>) -> int {
    match o {
        Some(a) => a.cents(),
        None => 0,
    }
}

/// `base - minus + plus` and its steps are representable.
pub open spec fn chain_fits(base: InvoiceAmount, minus: Option<InvoiceAmount>, plus: Option<InvoiceAmount>) -> bool {
    &&& fits96(base.cents())
    &&& fits96(opt_cents(minus))
    &&& fits96(opt_cents(plus))
    &&& fits96(base.cents() - opt_cents(minus))
    &&& fits96(base.cents() - opt_cents(minus) + opt_cents(plus))
}

/// A stated amount that is absent or differs from `expected` hundredths.
pub open spec fn differs(stated: Option<InvoiceAmount>, expected: int) -> bool {
    !(stated matches Some(s) && s.cents() == expected)
}

pub fn nets(lines: &Vec<Line>) -> (r: Vec<InvoiceAmount>)
    ensures
        r@ == line_nets(lines@),
{
    let mut v: Vec<InvoiceAmount> = Vec::new();
    let mut i: usize = 0;
    while i < lines.len()
        invariant
            i <= lines.len(),
            v@ == line_nets(lines@).take(i as int),
        decreases lines.len() - i,
    {
        v.push(lines[i].net);
        assert(line_nets(lines@).take(i + 1) =~= line_nets(lines@).take(i as int).push(lines@[i as int].net));
        i = i + 1;
    }
    assert(line_nets(lines@).take(lines.len() as int) =~= line_nets(lines@));
    v
}

pub fn amounts(acs: &Vec<AllowanceCharge>) -> (r: Vec<InvoiceAmount>)
    ensures
        r@ == ac_amounts(acs@),
{
    let mut v: Vec<InvoiceAmount> = Vec::new();
    let mut i: usize = 0;
    while i < acs.len()
        invariant
            i <= acs.len(),
            v@ == ac_amounts(acs@).take(i as int),
        decreases acs.len() - i,
    {
        v.push(acs[i].amount);
        assert(ac_amounts(acs@).take(i + 1) =~= ac_amounts(acs@).take(i as int).push(acs@[i as int].amount));
        i = i + 1;
    }
    assert(ac_amounts(acs@).take(acs.len() as int) =~= ac_amounts(acs@));
    v
}

pub fn taxes(rows: &Vec<TaxBreakdown>) -> (r: Vec<InvoiceAmount>)
    ensures
        r@ == row_taxes(rows@),
{
    let mut v: Vec<InvoiceAmount> = Vec::new();
    let mut i: usize = 0;
    while i < rows.len()
        invariant
            i <= rows.len(),
            v@ == row_taxes(rows@).take(i as int),
        decreases rows.len() - i,
    {
        v.push(rows[i].tax);
        assert(row_taxes(rows@).take(i + 1) =~= row_taxes(rows@).take(i as int).push(rows@[i as int].tax));
        i = i + 1;
    }
    assert(row_taxes(rows@).take(rows.len() as int) =~= row_taxes(rows@));
    v
}

fn overflow(report: &mut Report, id: &'static str, term: u16, label: &str)
    ensures
        emitted(*old(report), *final(report), id@),
        added(*old(report), *final(report)) == 1,
{
    fatal_msg(report, id, Path::group_term(Group::Totals, BtId(term)), concat(label, " overflowed; amounts are not representable"));
}

fn mismatch(report: &mut Report, id: &'static str, term: u16, stated: Option<InvoiceAmount>, rule: &str, expected: InvoiceAmount)
    ensures
        emitted(*old(report), *final(report), id@),
        added(*old(report), *final(report)) == 1,
{
    let mut m = String::new();
    match stated {
        Some(s) => {
            m.append("BT-");
            m.append(crate::text::u64_text(term as u64).as_str());
            m.append(" ");
            m.append(s.to_string().as_str());
            m.append(" ≠ ");
            m.append(rule);
            m.append(" ");
            m.append(expected.to_string().as_str());
        },
        None => {
            m.append("BT-");
            m.append(crate::text::u64_text(term as u64).as_str());
            m.append(" is absent; expected ");
            m.append(expected.to_string().as_str());
        },
    }
    fatal_msg(report, id, Path::group_term(Group::Totals, BtId(term)), m);
}

/// When [`br_co_10`] appends a finding: exactly when this holds, under [`br_co_10_bound`].
pub open spec fn br_co_10_fires(invoice: Invoice) -> bool {
    match invoice.totals {
        Some(t) => (differs(t.line_net, cents_sum(line_nets(invoice.lines@)))),
        None => false,
    }
}

/// Where [`br_co_10`] states when it appends a finding.
pub open spec fn br_co_10_bound(invoice: Invoice) -> bool {
    match invoice.totals {
        Some(t) => (sum_fits(line_nets(invoice.lines@))),
        None => true,
    }
}

/// BR-CO-10: the sum of line net amounts (BT-106) equals the lines' net amounts.
pub fn br_co_10(invoice: &Invoice, report: &mut Report)
    ensures
        emitted(*old(report), *final(report), "BR-CO-10"@),
        added(*old(report), *final(report)) <= 1,
        invoice.totals is None ==> added(*old(report), *final(report)) == 0,
        match invoice.totals {
            Some(t) => sum_fits(line_nets(invoice.lines@)) ==> fires_once(
                *old(report),
                *final(report),
                differs(t.line_net, cents_sum(line_nets(invoice.lines@))),
            ),
            None => true,
        },
{
    let totals = match &invoice.totals {
        Some(t) => t,
        None => {
            proof {
                lemma_emitted_none(*report, "BR-CO-10"@);
            }
            return;
        },
    };
    let v = nets(&invoice.lines);
    let expected = match InvoiceAmount::checked_sum(v.as_slice()) {
        Some(e) => e,
        None => {
            overflow(report, "BR-CO-10", 106, "BT-106");
            return;
        },
    };
    let bad = match totals.line_net {
        Some(s) => !(s == expected),
        None => true,
    };
    if bad {
        mismatch(report, "BR-CO-10", 106, totals.line_net, "Σ BT-131", expected);
    } else {
        proof {
            lemma_emitted_none(*report, "BR-CO-10"@);
        }
    }
}

fn ac_total_check(acs: &Vec<AllowanceCharge>, stated: Option<InvoiceAmount>, id: &'static str, term: u16, rule: &str, report: &mut Report)
    ensures
        emitted(*old(report), *final(report), id@),
        added(*old(report), *final(report)) <= 1,
        sum_fits(ac_amounts(acs@)) ==> fires_once(
            *old(report),
            *final(report),
            match stated {
                None => acs@.len() > 0,
                Some(s) => s.cents() != cents_sum(ac_amounts(acs@)),
            },
        ),
{
    let v = amounts(acs);
    let expected = match InvoiceAmount::checked_sum(v.as_slice()) {
        Some(e) => e,
        None => {
            overflow(report, id, term, "BT total");
            return;
        },
    };
    let bad = match stated {
        Some(s) => !(s == expected),
        None => acs.len() > 0,
    };
    if bad {
        mismatch(report, id, term, stated, rule, expected);
    } else {
        proof {
            lemma_emitted_none(*report, id@);
        }
    }
}

/// When [`br_co_11`] appends a finding: exactly when this holds, under [`br_co_11_bound`].
pub open spec fn br_co_11_fires(invoice: Invoice) -> bool {
    match invoice.totals {
        Some(t) => (match t.allowance_total {
                None => invoice.document_allowances@.len() > 0,
                Some(s) => s.cents() != cents_sum(ac_amounts(invoice.document_allowances@)),
            }),
        None => false,
    }
}

/// Where [`br_co_11`] states when it appends a finding.
pub open spec fn br_co_11_bound(invoice: Invoice) -> bool {
    match invoice.totals {
        Some(t) => (sum_fits(ac_amounts(invoice.document_allowances@))),
        None => true,
    }
}

/// BR-CO-11: the allowance total (BT-107) equals the document allowances;
/// with no allowances it is absent or zero.
pub fn br_co_11(invoice: &Invoice, report: &mut Report)
    ensures
        emitted(*old(report), *final(report), "BR-CO-11"@),
        added(*old(report), *final(report)) <= 1,
        invoice.totals is None ==> added(*old(report), *final(report)) == 0,
        match invoice.totals {
            Some(t) => sum_fits(ac_amounts(invoice.document_allowances@)) ==> fires_once(
                *old(report),
                *final(report),
                match t.allowance_total {
                    None => invoice.document_allowances@.len() > 0,
                    Some(s) => s.cents() != cents_sum(ac_amounts(invoice.document_allowances@)),
                },
            ),
            None => true,
        },
{
    match &invoice.totals {
        Some(t) => ac_total_check(&invoice.document_allowances, t.allowance_total, "BR-CO-11", 107, "Σ BT-92", report),
        None => {
            proof {
                lemma_emitted_none(*report, "BR-CO-11"@);
            }
        },
    }
}

/// When [`br_co_12`] appends a finding: exactly when this holds, under [`br_co_12_bound`].
pub open spec fn br_co_12_fires(invoice: Invoice) -> bool {
    match invoice.totals {
        Some(t) => (match t.charge_total {
                None => invoice.document_charges@.len() > 0,
                Some(s) => s.cents() != cents_sum(ac_amounts(invoice.document_charges@)),
            }),
        None => false,
    }
}

/// Where [`br_co_12`] states when it appends a finding.
pub open spec fn br_co_12_bound(invoice: Invoice) -> bool {
    match invoice.totals {
        Some(t) => (sum_fits(ac_amounts(invoice.document_charges@))),
        None => true,
    }
}

/// BR-CO-12: the charge total (BT-108) equals the document charges; with no
/// charges it is absent or zero.
pub fn br_co_12(invoice: &Invoice, report: &mut Report)
    ensures
        emitted(*old(report), *final(report), "BR-CO-12"@),
        added(*old(report), *final(report)) <= 1,
        invoice.totals is None ==> added(*old(report), *final(report)) == 0,
        match invoice.totals {
            Some(t) => sum_fits(ac_amounts(invoice.document_charges@)) ==> fires_once(
                *old(report),
                *final(report),
                match t.charge_total {
                    None => invoice.document_charges@.len() > 0,
                    Some(s) => s.cents() != cents_sum(ac_amounts(invoice.document_charges@)),
                },
            ),
            None => true,
        },
{
    match &invoice.totals {
        Some(t) => ac_total_check(&invoice.document_charges, t.charge_total, "BR-CO-12", 108, "Σ BT-99", report),
        None => {
            proof {
                lemma_emitted_none(*report, "BR-CO-12"@);
            }
        },
    }
}

pub fn chain(base: InvoiceAmount, minus: Option<InvoiceAmount>, plus: Option<InvoiceAmount>) -> (r: Option<InvoiceAmount>)
    ensures
        chain_fits(base, minus, plus) ==> (r matches Some(v) && v.cents() == base.cents() - opt_cents(minus)
            + opt_cents(plus)),
{
    let after_minus = match minus {
        Some(m) => match base.checked_sub(m) {
            Some(v) => v,
            None => {
                return None;
            },
        },
        None => base,
    };
    match plus {
        Some(p) => after_minus.checked_add(p),
        None => Some(after_minus),
    }
}

/// When [`br_co_13`] appends a finding: exactly when this holds, under [`br_co_13_bound`].
pub open spec fn br_co_13_fires(invoice: Invoice) -> bool {
    match invoice.totals {
        Some(t) => match t.line_net {
            Some(n) => (differs(t.without_tax, n.cents() - opt_cents(t.allowance_total) + opt_cents(t.charge_total))),
            None => false,
        },
        None => false,
    }
}

/// Where [`br_co_13`] states when it appends a finding.
pub open spec fn br_co_13_bound(invoice: Invoice) -> bool {
    match invoice.totals {
        Some(t) => match t.line_net {
            Some(n) => (chain_fits(n, t.allowance_total, t.charge_total)),
            None => true,
        },
        None => true,
    }
}

/// BR-CO-13: total without tax (BT-109) = BT-106 − BT-107 + BT-108.
pub fn br_co_13(invoice: &Invoice, report: &mut Report)
    ensures
        emitted(*old(report), *final(report), "BR-CO-13"@),
        added(*old(report), *final(report)) <= 1,
        !(invoice.totals matches Some(t) && t.line_net is Some) ==> added(*old(report), *final(report)) == 0,
        match invoice.totals {
            Some(t) => match t.line_net {
                Some(n) => chain_fits(n, t.allowance_total, t.charge_total) ==> fires_once(
                    *old(report),
                    *final(report),
                    differs(t.without_tax, n.cents() - opt_cents(t.allowance_total) + opt_cents(t.charge_total)),
                ),
                None => true,
            },
            None => true,
        },
{
    let (totals, line_net) = match &invoice.totals {
        Some(t) => match t.line_net {
            Some(n) => (t, n),
            None => {
                proof {
                    lemma_emitted_none(*report, "BR-CO-13"@);
                }
                return;
            },
        },
        None => {
            proof {
                lemma_emitted_none(*report, "BR-CO-13"@);
            }
            return;
        },
    };
    let expected = match chain(line_net, totals.allowance_total, totals.charge_total) {
        Some(e) => e,
        None => {
            overflow(report, "BR-CO-13", 109, "BT-109");
            return;
        },
    };
    let bad = match totals.without_tax {
        Some(s) => !(s == expected),
        None => true,
    };
    if bad {
        mismatch(report, "BR-CO-13", 109, totals.without_tax, "BT-106 − BT-107 + BT-108 =", expected);
    } else {
        proof {
            lemma_emitted_none(*report, "BR-CO-13"@);
        }
    }
}

/// When [`br_co_14`] appends a finding: exactly when this holds, under [`br_co_14_bound`].
pub open spec fn br_co_14_fires(invoice: Invoice) -> bool {
    match invoice.totals {
        Some(t) => (match t.tax_total {
                None => cents_sum(row_taxes(invoice.tax_breakdown@)) != 0,
                Some(s) => s.cents() != cents_sum(row_taxes(invoice.tax_breakdown@)),
            }),
        None => false,
    }
}

/// Where [`br_co_14`] states when it appends a finding.
pub open spec fn br_co_14_bound(invoice: Invoice) -> bool {
    match invoice.totals {
        Some(t) => (sum_fits(row_taxes(invoice.tax_breakdown@))),
        None => true,
    }
}

/// BR-CO-14: the tax total (BT-110) equals the sum of every breakdown row's
/// tax; absent, it is allowed only when that sum is zero.
pub fn br_co_14(invoice: &Invoice, report: &mut Report)
    ensures
        emitted(*old(report), *final(report), "BR-CO-14"@),
        added(*old(report), *final(report)) <= 1,
        invoice.totals is None ==> added(*old(report), *final(report)) == 0,
        match invoice.totals {
            Some(t) => sum_fits(row_taxes(invoice.tax_breakdown@)) ==> fires_once(
                *old(report),
                *final(report),
                match t.tax_total {
                    None => cents_sum(row_taxes(invoice.tax_breakdown@)) != 0,
                    Some(s) => s.cents() != cents_sum(row_taxes(invoice.tax_breakdown@)),
                },
            ),
            None => true,
        },
{
    let totals = match &invoice.totals {
        Some(t) => t,
        None => {
            proof {
                lemma_emitted_none(*report, "BR-CO-14"@);
            }
            return;
        },
    };
    let v = taxes(&invoice.tax_breakdown);
    let expected = match InvoiceAmount::checked_sum(v.as_slice()) {
        Some(e) => e,
        None => {
            overflow(report, "BR-CO-14", 110, "BT-110");
            return;
        },
    };
    let bad = match totals.tax_total {
        Some(s) => !(s == expected),
        None => !expected.is_zero(),
    };
    if bad {
        mismatch(report, "BR-CO-14", 110, totals.tax_total, "Σ BT-117", expected);
    } else {
        proof {
            lemma_emitted_none(*report, "BR-CO-14"@);
        }
    }
}

/// When [`br_co_15`] appends a finding: exactly when this holds, under [`br_co_15_bound`].
pub open spec fn br_co_15_fires(invoice: Invoice) -> bool {
    match invoice.totals {
        Some(t) => match t.without_tax {
            Some(w) => (differs(t.with_tax, w.cents() + opt_cents(t.tax_total))),
            None => false,
        },
        None => false,
    }
}

/// Where [`br_co_15`] states when it appends a finding.
pub open spec fn br_co_15_bound(invoice: Invoice) -> bool {
    match invoice.totals {
        Some(t) => match t.without_tax {
            Some(w) => (chain_fits(w, None, t.tax_total)),
            None => true,
        },
        None => true,
    }
}

/// BR-CO-15: total with tax (BT-112) = BT-109 + BT-110 (an absent BT-110 counts as zero).
pub fn br_co_15(invoice: &Invoice, report: &mut Report)
    ensures
        emitted(*old(report), *final(report), "BR-CO-15"@),
        added(*old(report), *final(report)) <= 1,
        !(invoice.totals matches Some(t) && t.without_tax is Some) ==> added(*old(report), *final(report)) == 0,
        match invoice.totals {
            Some(t) => match t.without_tax {
                Some(w) => chain_fits(w, None, t.tax_total) ==> fires_once(
                    *old(report),
                    *final(report),
                    differs(t.with_tax, w.cents() + opt_cents(t.tax_total)),
                ),
                None => true,
            },
            None => true,
        },
{
    let (totals, without) = match &invoice.totals {
        Some(t) => match t.without_tax {
            Some(w) => (t, w),
            None => {
                proof {
                    lemma_emitted_none(*report, "BR-CO-15"@);
                }
                return;
            },
        },
        None => {
            proof {
                lemma_emitted_none(*report, "BR-CO-15"@);
            }
            return;
        },
    };
    let expected = match chain(without, None, totals.tax_total) {
        Some(e) => e,
        None => {
            overflow(report, "BR-CO-15", 112, "BT-112");
            return;
        },
    };
    let bad = match totals.with_tax {
        Some(s) => !(s == expected),
        None => true,
    };
    if bad {
        mismatch(report, "BR-CO-15", 112, totals.with_tax, "BT-109 + BT-110 =", expected);
    } else {
        proof {
            lemma_emitted_none(*report, "BR-CO-15"@);
        }
    }
}

/// When [`br_co_16`] appends a finding: exactly when this holds, under [`br_co_16_bound`].
pub open spec fn br_co_16_fires(invoice: Invoice) -> bool {
    match invoice.totals {
        Some(t) => match t.with_tax {
            Some(w) => (t.payable matches Some(p) && p.cents() != w.cents() - opt_cents(t.paid) + opt_cents(t.rounding)),
            None => false,
        },
        None => false,
    }
}

/// Where [`br_co_16`] states when it appends a finding.
pub open spec fn br_co_16_bound(invoice: Invoice) -> bool {
    match invoice.totals {
        Some(t) => match t.with_tax {
            Some(w) => (chain_fits(w, t.paid, t.rounding)),
            None => true,
        },
        None => true,
    }
}

/// BR-CO-16: amount due (BT-115) = BT-112 − BT-113 + BT-114, when stated.
pub fn br_co_16(invoice: &Invoice, report: &mut Report)
    ensures
        emitted(*old(report), *final(report), "BR-CO-16"@),
        added(*old(report), *final(report)) <= 1,
        !(invoice.totals matches Some(t) && t.with_tax is Some) ==> added(*old(report), *final(report)) == 0,
        match invoice.totals {
            Some(t) => match t.with_tax {
                Some(w) => chain_fits(w, t.paid, t.rounding) ==> fires_once(
                    *old(report),
                    *final(report),
                    t.payable matches Some(p) && p.cents() != w.cents() - opt_cents(t.paid) + opt_cents(t.rounding),
                ),
                None => true,
            },
            None => true,
        },
{
    let (totals, with_tax) = match &invoice.totals {
        Some(t) => match t.with_tax {
            Some(w) => (t, w),
            None => {
                proof {
                    lemma_emitted_none(*report, "BR-CO-16"@);
                }
                return;
            },
        },
        None => {
            proof {
                lemma_emitted_none(*report, "BR-CO-16"@);
            }
            return;
        },
    };
    let expected = match chain(with_tax, totals.paid, totals.rounding) {
        Some(e) => e,
        None => {
            overflow(report, "BR-CO-16", 115, "BT-115");
            return;
        },
    };
    match totals.payable {
        Some(s) => {
            if !(s == expected) {
                mismatch(report, "BR-CO-16", 115, totals.payable, "BT-112 − BT-113 + BT-114 =", expected);
                return;
            }
        },
        None => {},
    }
    proof {
        lemma_emitted_none(*report, "BR-CO-16"@);
    }
}

/// A breakdown row whose rate rounds to zero, or that has no rate.
pub open spec fn zero_rated(e: TaxBreakdown) -> bool {
    match e.rate {
        Some(p) => xpath_round_value(p.dec().m(), p.dec().s()) == 0,
        None => true,
    }
}

/// BR-CO-17 fails on a row: a zero-rate row whose tax does not round to
/// zero, or a rated row whose tax is not within ±1.00 (exclusive) of the
/// derived tax.
pub open spec fn fails_co_17(e: TaxBreakdown) -> bool {
    if zero_rated(e) {
        xpath_round_value(e.tax.dec().m(), e.tax.dec().s()) != 0
    } else {
        abs_int(abs_int(e.tax.cents()) - derived_cents(e.taxable.dec(), e.rate->Some_0.dec())) >= 100
    }
}

/// The arithmetic of BR-CO-17 on a row stays within the decimal type.
pub open spec fn co_17_fits(e: TaxBreakdown) -> bool {
    &&& round_fits(e.tax.dec())
    &&& fits96(e.tax.cents())
    &&& match e.rate {
        Some(p) => round_fits(p.dec()) && derived_fits(e.taxable.dec(), p.dec()) && fits96(
            abs_int(e.tax.cents()) - derived_cents(e.taxable.dec(), p.dec()),
        ),
        None => true,
    }
}

/// A row of another category than TTX on which BR-CO-17 fails.
pub open spec fn co_17_row(e: TaxBreakdown) -> bool {
    !eq_ic(e.category@, "TTX"@) && fails_co_17(e)
}

/// `|m| · 10^k == |m · 10^k|`.
pub proof fn lemma_abs_scaled(m: int, p: int)
    requires
        p > 0,
    ensures
        abs_int(m) * p == abs_int(m * p),
{
    if m < 0 {
        assert((-m) * p == -(m * p)) by (nonlinear_arith);
        assert(m * p < 0) by (nonlinear_arith)
            requires
                m < 0,
                p > 0,
        ;
    } else {
        assert(m * p >= 0) by (nonlinear_arith)
            requires
                m >= 0,
                p > 0,
        ;
    }
}

/// The finding message when BR-CO-17 fails on the row (exact where
/// [`co_17_fits`] holds).
fn row_fails_co_17(e: &TaxBreakdown) -> (r: Option<String>)
    ensures
        co_17_fits(*e) ==> (r is Some <==> fails_co_17(*e)),
{
    let rate = match e.rate {
        Some(p) => p.as_percent(),
        None => Dec::zero(),
    };
    proof {
        if e.rate is None {
            reveal_with_fuel(crate::dec::pow10, 2);
            assert(crate::dec::pow10(0) == 1);
            assert(round_fits(rate));
            assert(crate::dec::floor_div(1, 2) == 0);
            assert(xpath_round_value(0, 0) == 0);
        }
    }
    if xpath_round(rate).is_zero() {
        if !xpath_round(e.tax.raw()).is_zero() {
            let mut m = concat("zero-rate group must have tax 0 (found ", e.tax.to_string().as_str());
            m.append(")");
            Some(m)
        } else {
            None
        }
    } else {
        match derived_vat(e.taxable.raw(), rate) {
            Some(expected) => {
                let stated = e.tax.raw().abs();
                proof {
                    if co_17_fits(*e) {
                        crate::dec::lemma_pow10_pos((2 - e.tax.dec().s()) as nat);
                        lemma_abs_scaled(e.tax.dec().m(), crate::dec::pow10((2 - e.tax.dec().s()) as nat));
                        assert(crate::dec::scaled(stated, 2) == abs_int(e.tax.cents()));
                        crate::dec::lemma_pow10_pos(e.taxable.dec().s() + rate.s());
                        crate::arith::lemma_within_cents(stated, expected);
                    }
                }
                if !within_vat_tolerance(stated, expected) {
                    let mut m = concat("BT-117 ", e.tax.to_string().as_str());
                    m.append(" is not within ±1.00 exclusive of derived ");
                    m.append(expected.to_string().as_str());
                    Some(m)
                } else {
                    None
                }
            },
            None => None,
        }
    }
}

/// When [`br_co_17`] appends a finding: exactly when this holds, under [`br_co_17_bound`].
pub open spec fn br_co_17_fires(invoice: Invoice) -> bool {
    exists|k: int|
        0 <= k < invoice.tax_breakdown@.len() && co_17_row(#[trigger] invoice.tax_breakdown@[k])
}

/// Where [`br_co_17`] states when it appends a finding.
pub open spec fn br_co_17_bound(invoice: Invoice) -> bool {
    (forall|k: int| 0 <= k < invoice.tax_breakdown@.len() ==> co_17_fits(#[trigger] invoice.tax_breakdown@[k]))
}

/// BR-CO-17: each breakdown row other than TTX carries the derived tax,
/// within the artefacts' exclusive ±1.00; a zero-rate row carries zero tax.
/// At most one finding per row. Where the arithmetic of every row fits,
/// some finding comes exactly when some such row fails.
pub fn br_co_17(invoice: &Invoice, report: &mut Report)
    ensures
        emitted(*old(report), *final(report), "BR-CO-17"@),
        added(*old(report), *final(report)) <= invoice.tax_breakdown@.len(),
        (forall|k: int| 0 <= k < invoice.tax_breakdown@.len() ==> co_17_fits(#[trigger] invoice.tax_breakdown@[k]))
            ==> fires_some(*old(report), *final(report), exists|k: int|
            0 <= k < invoice.tax_breakdown@.len() && co_17_row(#[trigger] invoice.tax_breakdown@[k])),
{
    let ghost start = *report;
    let ghost rows = invoice.tax_breakdown@;
    let ghost all_fit = forall|k: int| 0 <= k < rows.len() ==> co_17_fits(#[trigger] rows[k]);
    proof {
        lemma_emitted_none(start, "BR-CO-17"@);
    }
    let mut i: usize = 0;
    while i < invoice.tax_breakdown.len()
        invariant
            rows == invoice.tax_breakdown@,
            all_fit == forall|k: int| 0 <= k < rows.len() ==> co_17_fits(#[trigger] rows[k]),
            i <= invoice.tax_breakdown.len(),
            emitted(start, *report, "BR-CO-17"@),
            added(start, *report) <= i,
            all_fit ==> (added(start, *report) > 0 <==> exists|k: int| 0 <= k < i && co_17_row(#[trigger] rows[k])),
        decreases invoice.tax_breakdown.len() - i,
    {
        let e = &invoice.tax_breakdown[i];
        let ghost before = *report;
        if !str_eq_ic(e.category.as_str(), "TTX") {
            match row_fails_co_17(e) {
                Some(m) => {
                    let path = Path::at_term(Group::TaxBreakdown, i, BtId(117));
                    fatal_msg(report, "BR-CO-17", path, m);
                    proof {
                        lemma_emitted_trans(start, before, *report, "BR-CO-17"@);
                    }
                },
                None => {},
            }
        }
        proof {
            if all_fit {
                assert(co_17_fits(rows[i as int]));
                if exists|k: int| 0 <= k < i + 1 && co_17_row(#[trigger] rows[k]) {
                    let k = choose|k: int| 0 <= k < i + 1 && co_17_row(#[trigger] rows[k]);
                    if k < i {
                        assert(exists|k: int| 0 <= k < i && co_17_row(#[trigger] rows[k]));
                    }
                }
            }
        }
        i = i + 1;
    }
}

} // verus!
