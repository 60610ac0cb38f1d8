//! PINT-MY aligned checks (ALIGNED-IBRP-*-MY and ALIGNED-IBRP-0xx). They run
//! only on PINT-MY invoices that have totals or tax breakdown rows.
use vstd::prelude::*;
use crate::amount::{InvoiceAmount, sub_fits_cents};
use crate::bt::{BtId, Group, Path};
use crate::checks::{fires_once, fires_some};
use crate::dec::{abs_int, fits96};
use crate::emit::{added, emitted, fatal_at, fatal_msg, lemma_emitted_none, lemma_emitted_trans};
use crate::family_checks::{derived_row_fits, fails_derived, families_are_ready, families_ready, rows_of, tax_not_derived};
use crate::invoice::{Invoice, Line, TaxBreakdown};
use crate::profile::Profile;
use crate::reconcile::{GroupKey, content, group_cents, items, row_items, row_key, small, taxable_for};
use crate::report::Report;
use crate::text::{blank, concat, concat3, eq_ic, is_blank, owned, starts_with, str_eq_ic, str_starts_with, trim, trim_str};

verus! {

/// The PINT-MY checks run on this invoice.
pub open spec fn my_apply(inv: Invoice) -> bool {
    families_ready(inv) && inv.profile == Profile::PintMy
}

pub fn my_applies(inv: &Invoice) -> (r: bool)
    ensures
        r == my_apply(*inv),
{
    families_are_ready(inv) && inv.profile == Profile::PintMy
}

/// Some line has the category (ASCII case ignored), whatever its tax system.
pub open spec fn my_uses(inv: Invoice, code: Seq<char>) -> bool {
    exists|i: int| #![trigger inv.lines@[i]] 0 <= i < inv.lines@.len() && eq_ic(inv.lines@[i].tax.code@, code)
}

fn my_uses_exec(inv: &Invoice, code: &str) -> (r: bool)
    ensures
        r == my_uses(*inv, code@),
{
    let mut i: usize = 0;
    while i < inv.lines.len()
        invariant
            i <= inv.lines.len(),
            forall|k: int| #![trigger inv.lines@[k]] 0 <= k < i ==> !eq_ic(inv.lines@[k].tax.code@, code@),
        decreases inv.lines.len() - i,
    {
        if str_eq_ic(inv.lines[i].tax.code.as_str(), code) {
            return true;
        }
        i = i + 1;
    }
    false
}

fn count_code_rows(rows: &Vec<TaxBreakdown>, code: &str) -> (r: usize)
    ensures
        r == rows_of(rows@, code@),
{
    let mut n: usize = 0;
    let mut i: usize = 0;
    while i < rows.len()
        invariant
            i <= rows.len(),
            n == rows_of(rows@.take(i as int), code@),
            n <= i,
        decreases rows.len() - i,
    {
        assert(rows@.take(i + 1).drop_last() =~= rows@.take(i as int));
        if str_eq_ic(rows[i].category.as_str(), code) {
            n = n + 1;
        }
        i = i + 1;
    }
    assert(rows@.take(rows.len() as int) =~= rows@);
    n
}

/// When [`check_my_groups`] appends a finding: exactly when this holds, under [`check_my_groups_bound`].
pub open spec fn check_my_groups_fires(inv: Invoice, code: &str, id: &'static str) -> bool {
    my_apply(inv) && my_uses(inv, code@) && rows_of(
        inv.tax_breakdown@,
        code@,
    ) == 0
}

/// Where [`check_my_groups`] states when it appends a finding.
pub open spec fn check_my_groups_bound(inv: Invoice, code: &str, id: &'static str) -> bool {
    true
}

/// `-01`: a used PINT-MY category has a breakdown group.
pub fn check_my_groups(inv: &Invoice, report: &mut Report, code: &str, id: &'static str)
    ensures
        emitted(*old(report), *final(report), id@),
        fires_once(*old(report), *final(report), my_apply(*inv) && my_uses(*inv, code@) && rows_of(
            inv.tax_breakdown@,
            code@,
        ) == 0),
{
    if my_applies(inv) && my_uses_exec(inv, code) && count_code_rows(&inv.tax_breakdown, code) == 0 {
        let m = concat3("PINT-MY category ", code, " needs at least one IBG-23 group");
        fatal_msg(report, id, Path::group(Group::TaxBreakdown), m);
    } else {
        proof {
            lemma_emitted_none(*report, id@);
        }
    }
}

/// Taxable amount of an existing breakdown row as the content gives it.
pub fn taxable_for_breakdown(inv: &Invoice, row: &TaxBreakdown) -> (r: Result<InvoiceAmount, crate::reconcile::ReconcileError>)
    ensures
        small(items(*inv)) ==> (r matches Ok(v) && v.cents() == group_cents(
            inv.profile,
            items(*inv),
            row_key(*row),
            items(*inv).len() as int,
        )),
{
    let rows = content(inv);
    assert(row_items(rows@) =~= items(*inv));
    let key = GroupKey {
        scheme: owned(row.scheme.as_str()),
        category: owned(row.category.as_str()),
        rate: row.rate,
        system: row.system,
    };
    assert(key@ == row_key(*row));
    taxable_for(inv.profile, &rows, &key)
}

/// When [`check_my_taxable`] appends a finding: exactly when this holds, under [`check_my_taxable_bound`].
pub open spec fn check_my_taxable_fires(inv: Invoice, code: &str, id: &'static str) -> bool {
    my_apply(inv) && exists|k: int|
        #![trigger inv.tax_breakdown@[k]] 0 <= k < inv.tax_breakdown@.len() && eq_ic(
            inv.tax_breakdown@[k].category@,
            code@,
        ) && inv.tax_breakdown@[k].taxable.cents() != group_cents(
            inv.profile,
            items(inv),
            row_key(inv.tax_breakdown@[k]),
            items(inv).len() as int,
        )
}

/// Where [`check_my_taxable`] states when it appends a finding.
pub open spec fn check_my_taxable_bound(inv: Invoice, code: &str, id: &'static str) -> bool {
    small(items(inv))
}

/// `-08`: a breakdown row's taxable amount is exactly its lines and charges
/// less its allowances.
pub fn check_my_taxable(inv: &Invoice, report: &mut Report, code: &str, id: &'static str)
    ensures
        emitted(*old(report), *final(report), id@),
        !my_apply(*inv) ==> added(*old(report), *final(report)) == 0,
        small(items(*inv)) ==> fires_some(*old(report), *final(report), my_apply(*inv) && exists|k: int|
            #![trigger inv.tax_breakdown@[k]] 0 <= k < inv.tax_breakdown@.len() && eq_ic(
                inv.tax_breakdown@[k].category@,
                code@,
            ) && inv.tax_breakdown@[k].taxable.cents() != group_cents(
                inv.profile,
                items(*inv),
                row_key(inv.tax_breakdown@[k]),
                items(*inv).len() as int,
            )),
{
    let ghost start = *report;
    proof {
        lemma_emitted_none(start, id@);
    }
    if !my_applies(inv) {
        return;
    }
    let mut i: usize = 0;
    while i < inv.tax_breakdown.len()
        invariant
            i <= inv.tax_breakdown.len(),
            my_apply(*inv),
            emitted(start, *report, id@),
            small(items(*inv)) ==> (added(start, *report) > 0 <==> exists|k: int| #![trigger inv.tax_breakdown@[k]] 0
                <= k < i && eq_ic(inv.tax_breakdown@[k].category@, code@) && inv.tax_breakdown@[k].taxable.cents()
                != group_cents(inv.profile, items(*inv), row_key(inv.tax_breakdown@[k]), items(*inv).len() as int)),
        decreases inv.tax_breakdown.len() - i,
    {
        let e = &inv.tax_breakdown[i];
        if str_eq_ic(e.category.as_str(), code) {
            match taxable_for_breakdown(inv, e) {
                Ok(expected) => {
                    if !(e.taxable == expected) {
                        let ghost before = *report;
                        let mut m = concat3("IBT-116 ", e.taxable.to_string().as_str(), " ≠ Σ lines + charges − allowances ");
                        m.append(expected.to_string().as_str());
                        fatal_msg(report, id, Path::at_term(Group::TaxBreakdown, i, BtId(116)), m);
                        proof {
                            lemma_emitted_trans(start, before, *report, id@);
                        }
                    }
                },
                Err(_) => {},
            }
        }
        i = i + 1;
    }
}

/// The line carries TTX as its category or as an extra tax.
pub open spec fn line_has_ttx(l: Line) -> bool {
    eq_ic(l.tax.code@, "TTX"@) || exists|j: int| #![trigger l.extra_tax@[j]] 0 <= j < l.extra_tax@.len() && eq_ic(
        l.extra_tax@[j].code@,
        "TTX"@,
    )
}

fn line_has_ttx_exec(l: &Line) -> (r: bool)
    ensures
        r == line_has_ttx(*l),
{
    if str_eq_ic(l.tax.code.as_str(), "TTX") {
        return true;
    }
    let mut j: usize = 0;
    while j < l.extra_tax.len()
        invariant
            j <= l.extra_tax.len(),
            !eq_ic(l.tax.code@, "TTX"@),
            forall|k: int| #![trigger l.extra_tax@[k]] 0 <= k < j ==> !eq_ic(l.extra_tax@[k].code@, "TTX"@),
        decreases l.extra_tax.len() - j,
    {
        if str_eq_ic(l.extra_tax[j].code.as_str(), "TTX") {
            return true;
        }
        j = j + 1;
    }
    false
}

/// A TTX line that states its tax total.
pub open spec fn ttx_counted(l: Line) -> bool {
    line_has_ttx(l) && l.tax_total is Some
}

/// Hundredths of the tax totals of the TTX lines.
pub open spec fn ttx_tax_cents(lines: Seq<Line>) -> int
    decreases lines.len(),
{
    if lines.len() == 0 {
        0
    } else {
        ttx_tax_cents(lines.drop_last()) + if ttx_counted(lines.last()) {
            lines.last().tax_total.unwrap().cents()
        } else {
            0
        }
    }
}

/// Some TTX line states its tax total.
pub open spec fn ttx_any(lines: Seq<Line>) -> bool {
    exists|i: int| #![trigger lines[i]] 0 <= i < lines.len() && ttx_counted(lines[i])
}

/// Every tax total summed, and every running total, is representable.
pub open spec fn ttx_fits(lines: Seq<Line>) -> bool {
    &&& forall|i: int| 0 <= i < lines.len() && ttx_counted(lines[i]) ==> fits96(
        #[trigger] lines[i].tax_total.unwrap().cents(),
    )
    &&& forall|k: int| 0 <= k <= lines.len() ==> fits96(#[trigger] ttx_tax_cents(lines.take(k)))
}

/// Sum of the line tax totals of the TTX lines (`None` if it is not
/// representable), and whether any TTX line states one.
fn ttx_line_tax_sum(inv: &Invoice) -> (r: (Option<InvoiceAmount>, bool))
    ensures
        r.1 == ttx_any(inv.lines@),
        ttx_fits(inv.lines@) ==> (r.0 matches Some(v) && v.cents() == ttx_tax_cents(inv.lines@)),
{
    let ghost lines = inv.lines@;
    let mut acc = InvoiceAmount::zero();
    let mut any = false;
    let mut i: usize = 0;
    proof {
        assert(lines.take(0) =~= Seq::<Line>::empty());
    }
    while i < inv.lines.len()
        invariant
            i <= inv.lines.len(),
            lines == inv.lines@,
            any == exists|k: int| #![trigger lines[k]] 0 <= k < i && ttx_counted(lines[k]),
            ttx_fits(lines) ==> acc.cents() == ttx_tax_cents(lines.take(i as int)),
        decreases inv.lines.len() - i,
    {
        assert(lines.take(i + 1).drop_last() =~= lines.take(i as int));
        let l = &inv.lines[i];
        if line_has_ttx_exec(l) {
            match l.tax_total {
                Some(t) => {
                    any = true;
                    proof {
                        if ttx_fits(lines) {
                            assert(ttx_counted(lines[i as int]));
                            assert(fits96(lines[i as int].tax_total.unwrap().cents()));
                            assert(fits96(ttx_tax_cents(lines.take(i as int))));
                            assert(fits96(ttx_tax_cents(lines.take(i + 1))));
                        }
                    }
                    acc = match acc.checked_add(t) {
                        Some(v) => v,
                        None => {
                            return (None, true);
                        },
                    };
                },
                None => {},
            }
        }
        i = i + 1;
    }
    proof {
        assert(lines.take(lines.len() as int) =~= lines);
    }
    (Some(acc), any)
}

/// The row of the category misses its rule: derived tax (within ±1.00) for a
/// rated category, zero for the others, and for TTX the lines' tax totals
/// within ±0.02 where some TTX line states one.
pub open spec fn my_tax_fails(inv: Invoice, code: Seq<char>, derived: bool, e: TaxBreakdown) -> bool {
    if derived {
        fails_derived(e)
    } else if eq_ic(code, "TTX"@) {
        ttx_any(inv.lines@) && abs_int(e.tax.cents() - ttx_tax_cents(inv.lines@)) > 2
    } else {
        e.tax.cents() != 0
    }
}

/// The arithmetic of the check on a row stays within the decimal type.
pub open spec fn my_tax_fits(inv: Invoice, code: Seq<char>, derived: bool, e: TaxBreakdown) -> bool {
    if derived {
        derived_row_fits(e)
    } else if eq_ic(code, "TTX"@) {
        ttx_fits(inv.lines@) && fits96(e.tax.cents()) && fits96(e.tax.cents() - ttx_tax_cents(inv.lines@))
    } else {
        true
    }
}

/// Whether `|tax - expected| > 0.02` (`true` where the difference is not
/// representable).
fn ttx_far(tax: InvoiceAmount, expected: InvoiceAmount) -> (r: bool)
    ensures
        sub_fits_cents(tax, expected) ==> r == (abs_int(tax.cents() - expected.cents()) > 2),
{
    match tax.checked_sub(expected) {
        Some(d) => {
            let two = InvoiceAmount::from_minor(2);
            let a = d.abs();
            match two.checked_sub(a) {
                Some(x) => {
                    let xd = x.raw();
                    proof {
                        crate::amount::lemma_cents_sign(xd);
                    }
                    xd.is_sign_negative()
                },
                None => true,
            }
        },
        None => true,
    }
}

/// When [`check_my_tax`] appends a finding: exactly when this holds, under [`check_my_tax_bound`].
pub open spec fn check_my_tax_fires(inv: Invoice, code: &str, id: &'static str, derived: bool) -> bool {
    my_apply(inv) && exists|k: int|
        #![trigger inv.tax_breakdown@[k]] 0 <= k < inv.tax_breakdown@.len() && eq_ic(
            inv.tax_breakdown@[k].category@,
            code@,
        ) && my_tax_fails(inv, code@, derived, inv.tax_breakdown@[k])
}

/// Where [`check_my_tax`] states when it appends a finding.
pub open spec fn check_my_tax_bound(inv: Invoice, code: &str, id: &'static str, derived: bool) -> bool {
    (forall|k: int| 0 <= k < inv.tax_breakdown@.len() ==> my_tax_fits(inv, code@, derived, #[trigger] inv.tax_breakdown@[k]))
}

/// `-09`: breakdown rows of the category carry the derived tax (within the
/// artefacts' ±1.00) for rated categories, zero for the others, and for TTX
/// the lines' tax totals within ±0.02. At most one finding per row.
pub fn check_my_tax(inv: &Invoice, report: &mut Report, code: &str, id: &'static str, derived: bool)
    ensures
        emitted(*old(report), *final(report), id@),
        !my_apply(*inv) ==> added(*old(report), *final(report)) == 0,
        added(*old(report), *final(report)) <= rows_of(inv.tax_breakdown@, code@),
        (forall|k: int| 0 <= k < inv.tax_breakdown@.len() ==> my_tax_fits(*inv, code@, derived, #[trigger] inv.tax_breakdown@[k]))
            ==> fires_some(*old(report), *final(report), my_apply(*inv) && exists|k: int|
            #![trigger inv.tax_breakdown@[k]] 0 <= k < inv.tax_breakdown@.len() && eq_ic(
                inv.tax_breakdown@[k].category@,
                code@,
            ) && my_tax_fails(*inv, code@, derived, inv.tax_breakdown@[k])),
{
    let ghost start = *report;
    proof {
        lemma_emitted_none(start, id@);
    }
    if !my_applies(inv) {
        return;
    }
    let ghost all_fit = forall|k: int| 0 <= k < inv.tax_breakdown@.len() ==> my_tax_fits(*inv, code@, derived, #[trigger] inv.tax_breakdown@[k]);
    let is_ttx = str_eq_ic(code, "TTX");
    let mut i: usize = 0;
    while i < inv.tax_breakdown.len()
        invariant
            i <= inv.tax_breakdown.len(),
            is_ttx == eq_ic(code@, "TTX"@),
            emitted(start, *report, id@),
            added(start, *report) <= rows_of(inv.tax_breakdown@.take(i as int), code@),
            all_fit == forall|k: int| 0 <= k < inv.tax_breakdown@.len() ==> my_tax_fits(*inv, code@, derived, #[trigger] inv.tax_breakdown@[k]),
            all_fit ==> (added(start, *report) > 0 <==> exists|k: int|
                #![trigger inv.tax_breakdown@[k]] 0 <= k < i && eq_ic(inv.tax_breakdown@[k].category@, code@)
                    && my_tax_fails(*inv, code@, derived, inv.tax_breakdown@[k])),
        decreases inv.tax_breakdown.len() - i,
    {
        assert(inv.tax_breakdown@.take(i + 1).drop_last() =~= inv.tax_breakdown@.take(i as int));
        let e = &inv.tax_breakdown[i];
        if str_eq_ic(e.category.as_str(), code) {
            proof {
                if all_fit {
                    assert(my_tax_fits(*inv, code@, derived, inv.tax_breakdown@[i as int]));
                }
            }
            let path = Path::at_term(Group::TaxBreakdown, i, BtId(117));
            let ghost before = *report;
            if !derived {
                if !is_ttx {
                    if !e.tax.is_zero() {
                        fatal_msg(report, id, path, concat("IBT-117 shall be 0 for ", code));
                        proof {
                            lemma_emitted_trans(start, before, *report, id@);
                        }
                    }
                } else {
                    let (sum, any) = ttx_line_tax_sum(inv);
                    proof {
                        if all_fit {
                            assert(inv.lines@.take(inv.lines@.len() as int) =~= inv.lines@);
                            assert(fits96(ttx_tax_cents(inv.lines@.take(inv.lines@.len() as int))));
                        }
                    }
                    if any {
                        let (far, shown) = match sum {
                            Some(expected) => (ttx_far(e.tax, expected), expected.to_string()),
                            None => (true, String::new()),
                        };
                        if far {
                            let mut m = concat3("TTX IBT-117 ", e.tax.to_string().as_str(), " ≠ Σ line TaxTotal on TTX lines ");
                            m.append(shown.as_str());
                            fatal_msg(report, id, path, m);
                            proof {
                                lemma_emitted_trans(start, before, *report, id@);
                            }
                        }
                    }
                }
            } else {
                if tax_not_derived(e) {
                    let m = concat3("IBT-117 ", e.tax.to_string().as_str(), " ≠ IBT-116 × IBT-119 / 100");
                    fatal_msg(report, id, path, m);
                    proof {
                        lemma_emitted_trans(start, before, *report, id@);
                    }
                }
            }
        }
        i = i + 1;
    }
    assert(inv.tax_breakdown@.take(inv.tax_breakdown.len() as int) =~= inv.tax_breakdown@);
}

/// When [`check_my_no_exemption`] appends a finding: exactly when this holds, under [`check_my_no_exemption_bound`].
pub open spec fn check_my_no_exemption_fires(inv: Invoice, code: &str, id: &'static str) -> bool {
    my_apply(inv) && exists|k: int| #![trigger inv.tax_breakdown@[k]] 0 <= k
        < inv.tax_breakdown@.len() && eq_ic(inv.tax_breakdown@[k].category@, code@) && (
    inv.tax_breakdown@[k].exemption_reason is Some || inv.tax_breakdown@[k].exemption_code is Some)
}

/// Where [`check_my_no_exemption`] states when it appends a finding.
pub open spec fn check_my_no_exemption_bound(inv: Invoice, code: &str, id: &'static str) -> bool {
    true
}

/// `-10`: breakdown rows of the category carry no exemption reason.
pub fn check_my_no_exemption(inv: &Invoice, report: &mut Report, code: &str, id: &'static str)
    ensures
        emitted(*old(report), *final(report), id@),
        fires_some(*old(report), *final(report), my_apply(*inv) && exists|k: int| #![trigger inv.tax_breakdown@[k]] 0 <= k
            < inv.tax_breakdown@.len() && eq_ic(inv.tax_breakdown@[k].category@, code@) && (
        inv.tax_breakdown@[k].exemption_reason is Some || inv.tax_breakdown@[k].exemption_code is Some)),
{
    let ghost start = *report;
    proof {
        lemma_emitted_none(start, id@);
    }
    if !my_applies(inv) {
        return;
    }
    let mut i: usize = 0;
    while i < inv.tax_breakdown.len()
        invariant
            i <= inv.tax_breakdown.len(),
            my_apply(*inv),
            emitted(start, *report, id@),
            added(start, *report) > 0 <==> exists|k: int| #![trigger inv.tax_breakdown@[k]] 0 <= k < i && eq_ic(
                inv.tax_breakdown@[k].category@,
                code@,
            ) && (inv.tax_breakdown@[k].exemption_reason is Some || inv.tax_breakdown@[k].exemption_code is Some),
        decreases inv.tax_breakdown.len() - i,
    {
        let e = &inv.tax_breakdown[i];
        if str_eq_ic(e.category.as_str(), code) && (e.exemption_reason.is_some() || e.exemption_code.is_some()) {
            let ghost before = *report;
            fatal_msg(report, id, Path::at_term(Group::TaxBreakdown, i, BtId(120)), concat(code, " shall not carry an exemption reason"));
            proof {
                lemma_emitted_trans(start, before, *report, id@);
            }
        }
        i = i + 1;
    }
}

/// When [`check_my_o_exclusive`] appends a finding: exactly when this holds, under [`check_my_o_exclusive_bound`].
pub open spec fn check_my_o_exclusive_fires(inv: Invoice) -> bool {
    my_apply(inv) && my_uses(inv, "O"@) && exists|k: int|
        #![trigger inv.lines@[k]] 0 <= k < inv.lines@.len() && !eq_ic(inv.lines@[k].tax.code@, "O"@)
}

/// Where [`check_my_o_exclusive`] states when it appends a finding.
pub open spec fn check_my_o_exclusive_bound(inv: Invoice) -> bool {
    true
}

/// ALIGNED-IBRP-O-11-MY: category O excludes every other line category.
pub fn check_my_o_exclusive(inv: &Invoice, report: &mut Report)
    ensures
        emitted(*old(report), *final(report), "ALIGNED-IBRP-O-11-MY"@),
        fires_once(*old(report), *final(report), my_apply(*inv) && my_uses(*inv, "O"@) && exists|k: int|
            #![trigger inv.lines@[k]] 0 <= k < inv.lines@.len() && !eq_ic(inv.lines@[k].tax.code@, "O"@)),
{
    let mut other = false;
    let mut i: usize = 0;
    while i < inv.lines.len()
        invariant
            i <= inv.lines.len(),
            other == exists|k: int| #![trigger inv.lines@[k]] 0 <= k < i && !eq_ic(inv.lines@[k].tax.code@, "O"@),
        decreases inv.lines.len() - i,
    {
        if !str_eq_ic(inv.lines[i].tax.code.as_str(), "O") {
            other = true;
        }
        i = i + 1;
    }
    if my_applies(inv) && my_uses_exec(inv, "O") && other {
        fatal_at(report, "ALIGNED-IBRP-O-11-MY", Path::group(Group::TaxBreakdown), "PINT-MY category O is exclusive");
    } else {
        proof {
            lemma_emitted_none(*report, "ALIGNED-IBRP-O-11-MY"@);
        }
    }
}

/// When [`my_e_05`] appends a finding: exactly when this holds, under [`my_e_05_bound`].
pub open spec fn my_e_05_fires(inv: Invoice) -> bool {
    my_apply(inv) && exists|k: int| #![trigger inv.lines@[k]] 0 <= k
        < inv.lines@.len() && eq_ic(inv.lines@[k].tax.code@, "E"@) && (inv.lines@[k].tax.percent matches Some(p)
        && p.dec().m() != 0)
}

/// Where [`my_e_05`] states when it appends a finding.
pub open spec fn my_e_05_bound(inv: Invoice) -> bool {
    true
}

/// ALIGNED-IBRP-E-05-MY: an E line has no rate other than zero.
pub fn my_e_05(inv: &Invoice, report: &mut Report)
    ensures
        emitted(*old(report), *final(report), "ALIGNED-IBRP-E-05-MY"@),
        fires_some(*old(report), *final(report), my_apply(*inv) && exists|k: int| #![trigger inv.lines@[k]] 0 <= k
            < inv.lines@.len() && eq_ic(inv.lines@[k].tax.code@, "E"@) && (inv.lines@[k].tax.percent matches Some(p)
            && p.dec().m() != 0)),
{
    let ghost start = *report;
    proof {
        lemma_emitted_none(start, "ALIGNED-IBRP-E-05-MY"@);
    }
    if !my_applies(inv) {
        return;
    }
    let mut i: usize = 0;
    while i < inv.lines.len()
        invariant
            i <= inv.lines.len(),
            my_apply(*inv),
            emitted(start, *report, "ALIGNED-IBRP-E-05-MY"@),
            added(start, *report) > 0 <==> exists|k: int| #![trigger inv.lines@[k]] 0 <= k < i && eq_ic(
                inv.lines@[k].tax.code@,
                "E"@,
            ) && (inv.lines@[k].tax.percent matches Some(p) && p.dec().m() != 0),
        decreases inv.lines.len() - i,
    {
        let l = &inv.lines[i];
        let nonzero = match l.tax.percent {
            Some(p) => !p.is_zero(),
            None => false,
        };
        if str_eq_ic(l.tax.code.as_str(), "E") && nonzero {
            let ghost before = *report;
            fatal_at(report, "ALIGNED-IBRP-E-05-MY", Path::at_term(Group::Line, i, BtId(152)), "PINT-MY E line rate MUST be 0");
            proof {
                lemma_emitted_trans(start, before, *report, "ALIGNED-IBRP-E-05-MY"@);
            }
        }
        i = i + 1;
    }
}

/// A TTX row: scheme AAL or category TTX.
pub open spec fn ttx_row(e: TaxBreakdown) -> bool {
    eq_ic(e.scheme@, "AAL"@) || eq_ic(e.category@, "TTX"@)
}

/// When [`my_ttx_08`] appends a finding: exactly when this holds, under [`my_ttx_08_bound`].
pub open spec fn my_ttx_08_fires(inv: Invoice) -> bool {
    my_apply(inv) && exists|k: int| #![trigger inv.tax_breakdown@[k]] 0 <= k
        < inv.tax_breakdown@.len() && ttx_row(inv.tax_breakdown@[k]) && inv.tax_breakdown@[k].rate is Some
}

/// Where [`my_ttx_08`] states when it appends a finding.
pub open spec fn my_ttx_08_bound(inv: Invoice) -> bool {
    true
}

/// ALIGNED-IBRP-TTX-08-MY: a TTX row has no rate.
pub fn my_ttx_08(inv: &Invoice, report: &mut Report)
    ensures
        emitted(*old(report), *final(report), "ALIGNED-IBRP-TTX-08-MY"@),
        fires_some(*old(report), *final(report), my_apply(*inv) && exists|k: int| #![trigger inv.tax_breakdown@[k]] 0 <= k
            < inv.tax_breakdown@.len() && ttx_row(inv.tax_breakdown@[k]) && inv.tax_breakdown@[k].rate is Some),
{
    let ghost start = *report;
    proof {
        lemma_emitted_none(start, "ALIGNED-IBRP-TTX-08-MY"@);
    }
    if !my_applies(inv) {
        return;
    }
    let mut i: usize = 0;
    while i < inv.tax_breakdown.len()
        invariant
            i <= inv.tax_breakdown.len(),
            my_apply(*inv),
            emitted(start, *report, "ALIGNED-IBRP-TTX-08-MY"@),
            added(start, *report) > 0 <==> exists|k: int| #![trigger inv.tax_breakdown@[k]] 0 <= k < i && ttx_row(
                inv.tax_breakdown@[k],
            ) && inv.tax_breakdown@[k].rate is Some,
        decreases inv.tax_breakdown.len() - i,
    {
        let e = &inv.tax_breakdown[i];
        let ttx = str_eq_ic(e.scheme.as_str(), "AAL") || str_eq_ic(e.category.as_str(), "TTX");
        if ttx && e.rate.is_some() {
            let ghost before = *report;
            fatal_at(report, "ALIGNED-IBRP-TTX-08-MY", Path::at_term(Group::TaxBreakdown, i, BtId(119)), "TTX/AAL MUST NOT include a tax percentage");
            proof {
                lemma_emitted_trans(start, before, *report, "ALIGNED-IBRP-TTX-08-MY"@);
            }
        }
        i = i + 1;
    }
}

/// When [`my_002`] appends a finding: exactly when this holds, under [`my_002_bound`].
pub open spec fn my_002_fires(inv: Invoice) -> bool {
    my_apply(inv) && (inv.business_process matches Some(p) && !blank(
        p@,
    ) && !starts_with(trim(p@), "urn:peppol:bis:billing"@))
}

/// Where [`my_002`] states when it appends a finding.
pub open spec fn my_002_bound(inv: Invoice) -> bool {
    true
}

/// ALIGNED-IBRP-002: a business process identifier, when given, is the PINT billing process.
pub fn my_002(inv: &Invoice, report: &mut Report)
    ensures
        emitted(*old(report), *final(report), "ALIGNED-IBRP-002"@),
        fires_once(*old(report), *final(report), my_apply(*inv) && (inv.business_process matches Some(p) && !blank(
            p@,
        ) && !starts_with(trim(p@), "urn:peppol:bis:billing"@))),
{
    if my_applies(inv) {
        match &inv.business_process {
            Some(p) => {
                let t = trim_str(p.as_str());
                if !is_blank(p.as_str()) && !str_starts_with(t, "urn:peppol:bis:billing") {
                    fatal_at(report, "ALIGNED-IBRP-002", Path::term(BtId(23)), "PINT-MY BT-23 must be urn:peppol:bis:billing");
                    return;
                }
            },
            None => {},
        }
    }
    proof {
        lemma_emitted_none(*report, "ALIGNED-IBRP-002"@);
    }
}

/// A row ALIGNED-IBRP-047 refuses: no category, or an AAL scheme on a category other than TTX.
pub open spec fn row_047_bad(e: TaxBreakdown) -> bool {
    blank(e.category@) || (eq_ic(e.scheme@, "AAL"@) && !eq_ic(e.category@, "TTX"@))
}

/// When [`my_047`] appends a finding: exactly when this holds, under [`my_047_bound`].
pub open spec fn my_047_fires(inv: Invoice) -> bool {
    my_apply(inv) && exists|k: int| #![trigger inv.tax_breakdown@[k]] 0 <= k
        < inv.tax_breakdown@.len() && row_047_bad(inv.tax_breakdown@[k])
}

/// Where [`my_047`] states when it appends a finding.
pub open spec fn my_047_bound(inv: Invoice) -> bool {
    true
}

/// ALIGNED-IBRP-047: each row has a category, and AAL rows are TTX.
pub fn my_047(inv: &Invoice, report: &mut Report)
    ensures
        emitted(*old(report), *final(report), "ALIGNED-IBRP-047"@),
        fires_some(*old(report), *final(report), my_apply(*inv) && exists|k: int| #![trigger inv.tax_breakdown@[k]] 0 <= k
            < inv.tax_breakdown@.len() && row_047_bad(inv.tax_breakdown@[k])),
{
    let ghost start = *report;
    proof {
        lemma_emitted_none(start, "ALIGNED-IBRP-047"@);
    }
    if !my_applies(inv) {
        return;
    }
    let mut i: usize = 0;
    while i < inv.tax_breakdown.len()
        invariant
            i <= inv.tax_breakdown.len(),
            my_apply(*inv),
            emitted(start, *report, "ALIGNED-IBRP-047"@),
            added(start, *report) > 0 <==> exists|k: int| #![trigger inv.tax_breakdown@[k]] 0 <= k < i && row_047_bad(
                inv.tax_breakdown@[k],
            ),
        decreases inv.tax_breakdown.len() - i,
    {
        let e = &inv.tax_breakdown[i];
        let path = Path::at_term(Group::TaxBreakdown, i, BtId(118));
        let ghost before = *report;
        if e.category.is_empty() {
            fatal_at(report, "ALIGNED-IBRP-047", path, "Each IBG-23 must have a category code");
        }
        let ghost mid = *report;
        if str_eq_ic(e.scheme.as_str(), "AAL") && !str_eq_ic(e.category.as_str(), "TTX") {
            fatal_at(report, "ALIGNED-IBRP-047", path, "AAL subtotals must be category TTX");
        }
        proof {
            lemma_emitted_none(before, "ALIGNED-IBRP-047"@);
            lemma_emitted_none(mid, "ALIGNED-IBRP-047"@);
            lemma_emitted_trans(before, mid, *report, "ALIGNED-IBRP-047"@);
            lemma_emitted_trans(start, before, *report, "ALIGNED-IBRP-047"@);
        }
        i = i + 1;
    }
}

/// A row ALIGNED-IBRP-048 refuses: a TTX row with a rate, or a row other
/// than TTX and O without one.
pub open spec fn row_048_bad(e: TaxBreakdown) -> bool {
    (ttx_row(e) && e.rate is Some) || (!ttx_row(e) && !eq_ic(e.category@, "O"@) && e.rate is None)
}

/// When [`my_048`] appends a finding: exactly when this holds, under [`my_048_bound`].
pub open spec fn my_048_fires(inv: Invoice) -> bool {
    my_apply(inv) && exists|k: int| #![trigger inv.tax_breakdown@[k]] 0 <= k
        < inv.tax_breakdown@.len() && row_048_bad(inv.tax_breakdown@[k])
}

/// Where [`my_048`] states when it appends a finding.
pub open spec fn my_048_bound(inv: Invoice) -> bool {
    true
}

/// ALIGNED-IBRP-048: TTX rows have no rate; other rows except O have one.
pub fn my_048(inv: &Invoice, report: &mut Report)
    ensures
        emitted(*old(report), *final(report), "ALIGNED-IBRP-048"@),
        fires_some(*old(report), *final(report), my_apply(*inv) && exists|k: int| #![trigger inv.tax_breakdown@[k]] 0 <= k
            < inv.tax_breakdown@.len() && row_048_bad(inv.tax_breakdown@[k])),
{
    let ghost start = *report;
    proof {
        lemma_emitted_none(start, "ALIGNED-IBRP-048"@);
    }
    if !my_applies(inv) {
        return;
    }
    let mut i: usize = 0;
    while i < inv.tax_breakdown.len()
        invariant
            i <= inv.tax_breakdown.len(),
            my_apply(*inv),
            emitted(start, *report, "ALIGNED-IBRP-048"@),
            added(start, *report) > 0 <==> exists|k: int| #![trigger inv.tax_breakdown@[k]] 0 <= k < i && row_048_bad(
                inv.tax_breakdown@[k],
            ),
        decreases inv.tax_breakdown.len() - i,
    {
        let e = &inv.tax_breakdown[i];
        let ttx = str_eq_ic(e.scheme.as_str(), "AAL") || str_eq_ic(e.category.as_str(), "TTX");
        let o = str_eq_ic(e.category.as_str(), "O");
        let path = Path::at_term(Group::TaxBreakdown, i, BtId(119));
        if ttx && e.rate.is_some() {
            let ghost before = *report;
            fatal_at(report, "ALIGNED-IBRP-048", path, "AAL/TTX must not have a rate");
            proof {
                lemma_emitted_trans(start, before, *report, "ALIGNED-IBRP-048"@);
            }
        }
        if !ttx && !o && e.rate.is_none() {
            let ghost before = *report;
            fatal_at(report, "ALIGNED-IBRP-048", path, "VAT subtotals must have a rate except O");
            proof {
                lemma_emitted_trans(start, before, *report, "ALIGNED-IBRP-048"@);
            }
        }
        i = i + 1;
    }
}

} // verus!
