//! Deriving the tax breakdown (BG-23) and the document totals (BG-22) from
//! an invoice's lines, document allowances and document charges.
//!
//! Rows are grouped by scheme, category, rate and tax system: on rate for the
//! families that may repeat, on category alone for the zero-tax families, and
//! never on rate for O and TTX. Printed tax amounts use commercial rounding.
//! With no document allowances (charges) the allowance (charge) total is
//! absent, not zero.
use vstd::prelude::*;
use crate::amount::{InvoiceAmount, cents_sum, sum_fits};
use crate::total_checks::{ac_amounts, amounts, chain, line_nets, nets, opt_cents, row_taxes, taxes};
use crate::bt::{BtId, Group, Path};
use crate::category::{grouped_by_rate, keyed_on_rate};
use crate::code::Code;
use crate::dec::{Dec, MAX_MANTISSA, abs_int, fits96, same_value, value_lt, zero_dec, hundred_dec, dec_product, dec_quotient, mul_fits, round_half_away, pow10};
use crate::amount::{cents_of, lemma_pow10_small};
use crate::invoice::{DocumentTotals, Invoice, TaxBreakdown};
use crate::numeric::Percentage;
use crate::profile::Profile;
use crate::report::{lemma_text_le_antisym, lemma_text_le_total, text_le, text_le_exec};
use crate::tax::{TaxSystem, wire_scheme, wire_scheme_of};
use crate::text::{concat, eq_ic, owned, str_eq, str_eq_ic};

verus! {

/// Why an invoice could not be reconciled. Not a validation finding.
#[derive(Debug, Clone, PartialEq, Eq)]
pub enum ReconcileError {
    /// A sum or product left the representable range.
    Overflow { term: &'static str },
    /// A taxed category with no rate (or a zero rate) where the rate is needed.
    MissingRate { at: Path, category: String },
}

impl ReconcileError {
    /// Human-readable text.
    pub fn to_string(&self) -> (r: String) {
        match self {
            ReconcileError::Overflow { term } => concat(
                term,
                " overflowed while reconciling; the amounts involved are not representable",
            ),
            ReconcileError::MissingRate { at, category } => {
                let _ = category;
                concat(
                    at.to_string().as_str(),
                    " is a taxed category with no rate; defaulting it to zero would silently under-declare tax",
                )
            },
        }
    }
}

/// One amount that feeds a breakdown row: a line, a document allowance or a
/// document charge.
pub struct ContentRow {
    pub path: Path,
    pub system: TaxSystem,
    pub category: String,
    pub percent: Option<Percentage>,
    pub net: InvoiceAmount,
    pub is_allowance: bool,
}

/// A content row as plain values.
pub struct Item {
    pub path: Path,
    pub system: TaxSystem,
    pub category: Seq<char>,
    pub percent: Option<Percentage>,
    pub net: InvoiceAmount,
    pub is_allowance: bool,
}

impl View for ContentRow {
    type V = Item;

    open spec fn view(&self) -> Item {
        Item {
            path: self.path,
            system: self.system,
            category: self.category@,
            percent: self.percent,
            net: self.net,
            is_allowance: self.is_allowance,
        }
    }
}

/// The content of an invoice: lines, then document allowances, then
/// document charges. An allowance or charge without a category is VAT with
/// an empty code.
pub open spec fn items(inv: Invoice) -> Seq<Item> {
    let lines = Seq::new(
        inv.lines@.len(),
        |i: int|
            Item {
                path: Path { group: Group::Line, index: Some(i as usize), term: Some(BtId(131)) },
                system: inv.lines@[i].tax.system,
                category: inv.lines@[i].tax.code@,
                percent: inv.lines@[i].tax.percent,
                net: inv.lines@[i].net,
                is_allowance: false,
            },
    );
    let allowances = Seq::new(
        inv.document_allowances@.len(),
        |i: int|
            {
                let a = inv.document_allowances@[i];
                Item {
                    path: Path { group: Group::DocumentAllowance, index: Some(i as usize), term: Some(BtId(92)) },
                    system: match a.tax {
                        Some(t) => t.system,
                        None => TaxSystem::Vat,
                    },
                    category: match a.tax {
                        Some(t) => t.code@,
                        None => Seq::empty(),
                    },
                    percent: match a.tax {
                        Some(t) => t.percent,
                        None => None,
                    },
                    net: a.amount,
                    is_allowance: true,
                }
            },
    );
    let charges = Seq::new(
        inv.document_charges@.len(),
        |i: int|
            {
                let c = inv.document_charges@[i];
                Item {
                    path: Path { group: Group::DocumentCharge, index: Some(i as usize), term: Some(BtId(99)) },
                    system: match c.tax {
                        Some(t) => t.system,
                        None => TaxSystem::Vat,
                    },
                    category: match c.tax {
                        Some(t) => t.code@,
                        None => Seq::empty(),
                    },
                    percent: match c.tax {
                        Some(t) => t.percent,
                        None => None,
                    },
                    net: c.amount,
                    is_allowance: false,
                }
            },
    );
    lines + allowances + charges
}

/// Build the content rows of an invoice.
pub fn content(inv: &Invoice) -> (r: Vec<ContentRow>)
    ensures
        r@.len() == items(*inv).len(),
        forall|i: int| 0 <= i < r@.len() ==> #[trigger] r@[i]@ == items(*inv)[i],
{
    let ghost all = items(*inv);
    let ghost nl = inv.lines@.len() as int;
    let ghost na = inv.document_allowances@.len() as int;
    let mut rows: Vec<ContentRow> = Vec::new();
    let mut i: usize = 0;
    while i < inv.lines.len()
        invariant
            i <= inv.lines.len(),
            all == items(*inv),
            nl == inv.lines@.len(),
            rows@.len() == i,
            forall|k: int| 0 <= k < i ==> #[trigger] rows@[k]@ == all[k],
        decreases inv.lines.len() - i,
    {
        let l = &inv.lines[i];
        rows.push(
            ContentRow {
                path: Path::at_term(Group::Line, i, BtId(131)),
                system: l.tax.system,
                category: owned(l.tax.code.as_str()),
                percent: l.tax.percent,
                net: l.net,
                is_allowance: false,
            },
        );
        i = i + 1;
    }
    let mut a: usize = 0;
    while a < inv.document_allowances.len()
        invariant
            a <= inv.document_allowances.len(),
            all == items(*inv),
            nl == inv.lines@.len(),
            rows@.len() == nl + a,
            forall|k: int| 0 <= k < nl + a ==> #[trigger] rows@[k]@ == all[k],
        decreases inv.document_allowances.len() - a,
    {
        let x = &inv.document_allowances[a];
        let row = match &x.tax {
            Some(t) => ContentRow {
                path: Path::at_term(Group::DocumentAllowance, a, BtId(92)),
                system: t.system,
                category: owned(t.code.as_str()),
                percent: t.percent,
                net: x.amount,
                is_allowance: true,
            },
            None => ContentRow {
                path: Path::at_term(Group::DocumentAllowance, a, BtId(92)),
                system: TaxSystem::Vat,
                category: String::new(),
                percent: None,
                net: x.amount,
                is_allowance: true,
            },
        };
        rows.push(row);
        a = a + 1;
    }
    let mut c: usize = 0;
    while c < inv.document_charges.len()
        invariant
            c <= inv.document_charges.len(),
            all == items(*inv),
            nl == inv.lines@.len(),
            na == inv.document_allowances@.len(),
            rows@.len() == nl + na + c,
            forall|k: int| 0 <= k < nl + na + c ==> #[trigger] rows@[k]@ == all[k],
        decreases inv.document_charges.len() - c,
    {
        let x = &inv.document_charges[c];
        let row = match &x.tax {
            Some(t) => ContentRow {
                path: Path::at_term(Group::DocumentCharge, c, BtId(99)),
                system: t.system,
                category: owned(t.code.as_str()),
                percent: t.percent,
                net: x.amount,
                is_allowance: false,
            },
            None => ContentRow {
                path: Path::at_term(Group::DocumentCharge, c, BtId(99)),
                system: TaxSystem::Vat,
                category: String::new(),
                percent: None,
                net: x.amount,
                is_allowance: false,
            },
        };
        rows.push(row);
        c = c + 1;
    }
    rows
}


/// Categories whose breakdown rows need a rate.
pub open spec fn needs_rate(c: Seq<char>) -> bool {
    c == "S"@ || c == "L"@ || c == "M"@ || c == "B"@ || c == "SA"@ || c == "SE"@ || c == "HVG"@ || c == "LVG"@
        || c == "s"@ || c == "l"@ || c == "m"@ || c == "b"@ || c == "sa"@ || c == "se"@ || c == "hvg"@
        || c == "lvg"@
}

/// Categories whose tax is zero.
pub open spec fn zero_tax_family(c: Seq<char>) -> bool {
    c == "Z"@ || c == "E"@ || c == "AE"@ || c == "K"@ || c == "G"@ || c == "O"@ || c == "z"@ || c == "e"@
        || c == "ae"@ || c == "k"@ || c == "g"@ || c == "o"@
}

/// Categories that never carry an exemption reason.
pub open spec fn forbids_exemption(c: Seq<char>) -> bool {
    c == "S"@ || c == "Z"@ || c == "L"@ || c == "M"@ || c == "SA"@ || c == "SE"@ || c == "HVG"@ || c == "LVG"@
        || c == "s"@ || c == "z"@ || c == "l"@ || c == "m"@ || c == "sa"@ || c == "se"@ || c == "hvg"@
        || c == "lvg"@
}

pub fn needs_rate_exec(c: &str) -> (r: bool)
    ensures
        r == needs_rate(c@),
{
    str_eq(c, "S") || str_eq(c, "L") || str_eq(c, "M") || str_eq(c, "B") || str_eq(c, "SA") || str_eq(c, "SE")
        || str_eq(c, "HVG") || str_eq(c, "LVG") || str_eq(c, "s") || str_eq(c, "l") || str_eq(c, "m")
        || str_eq(c, "b") || str_eq(c, "sa") || str_eq(c, "se") || str_eq(c, "hvg") || str_eq(c, "lvg")
}

pub fn zero_tax_family_exec(c: &str) -> (r: bool)
    ensures
        r == zero_tax_family(c@),
{
    str_eq(c, "Z") || str_eq(c, "E") || str_eq(c, "AE") || str_eq(c, "K") || str_eq(c, "G") || str_eq(c, "O")
        || str_eq(c, "z") || str_eq(c, "e") || str_eq(c, "ae") || str_eq(c, "k") || str_eq(c, "g") || str_eq(c, "o")
}

pub fn forbids_exemption_exec(c: &str) -> (r: bool)
    ensures
        r == forbids_exemption(c@),
{
    str_eq(c, "S") || str_eq(c, "Z") || str_eq(c, "L") || str_eq(c, "M") || str_eq(c, "SA") || str_eq(c, "SE")
        || str_eq(c, "HVG") || str_eq(c, "LVG") || str_eq(c, "s") || str_eq(c, "z") || str_eq(c, "l")
        || str_eq(c, "m") || str_eq(c, "sa") || str_eq(c, "se") || str_eq(c, "hvg") || str_eq(c, "lvg")
}

/// Key of a breakdown row.
pub struct GroupKey {
    pub scheme: String,
    pub category: String,
    pub rate: Option<Percentage>,
    pub system: TaxSystem,
}

/// A key as plain values.
pub struct KeyV {
    pub scheme: Seq<char>,
    pub category: Seq<char>,
    pub rate: Option<Percentage>,
    pub system: TaxSystem,
}

impl View for GroupKey {
    type V = KeyV;

    open spec fn view(&self) -> KeyV {
        KeyV { scheme: self.scheme@, category: self.category@, rate: self.rate, system: self.system }
    }
}

/// Same rate value, or both absent.
pub open spec fn same_rate(a: Option<Percentage>, b: Option<Percentage>) -> bool {
    match (a, b) {
        (None, None) => true,
        (Some(x), Some(y)) => same_value(x.dec(), y.dec()),
        _ => false,
    }
}

/// Two keys that name the same breakdown row.
#[verifier::opaque]
pub open spec fn key_same(a: KeyV, b: KeyV) -> bool {
    a.scheme == b.scheme && a.category == b.category && same_rate(a.rate, b.rate) && a.system == b.system
}

/// A rate is absent, or zero.
pub open spec fn rate_missing(p: Option<Percentage>) -> bool {
    match p {
        Some(r) => r.dec().m() == 0,
        None => true,
    }
}

/// The item's category needs a rate here and has none.
#[verifier::opaque]
pub open spec fn missing_rate(profile: Profile, it: Item) -> bool {
    keyed_on_rate(profile, it.category) && needs_rate(it.category) && rate_missing(it.percent)
        && !zero_tax_family(it.category)
}

/// Key of an item under a profile (meaningful when the rate is not missing):
/// rate-keyed families keep the item's rate, O and TTX have none, the other
/// families have zero.
#[verifier::opaque]
pub open spec fn key_matches(profile: Profile, it: Item, k: KeyV) -> bool {
    &&& k.scheme == wire_scheme_of(profile, it.system, it.category)
    &&& k.category == it.category
    &&& k.system == it.system
    &&& if keyed_on_rate(profile, it.category) {
        k.rate == it.percent
    } else if eq_ic(it.category, "O"@) || eq_ic(it.category, "TTX"@) {
        k.rate is None
    } else {
        k.rate matches Some(z) && z.dec().m() == 0 && z.dec().s() == 0
    }
}

/// Key of a content row, or the missing-rate error.
pub fn group_key(profile: Profile, row: &ContentRow) -> (r: Result<GroupKey, ReconcileError>)
    ensures
        missing_rate(profile, row@) <==> r is Err,
        r matches Err(e) ==> e matches ReconcileError::MissingRate { at, category } && at == row.path
            && category@ == row.category@,
        r matches Ok(k) ==> key_matches(profile, row@, k@),
{
    proof {
        reveal(missing_rate);
        reveal(key_matches);
    }
    let scheme = owned(wire_scheme(profile, row.system, row.category.as_str()));
    let cat = row.category.as_str();
    let rate = if grouped_by_rate(profile, cat) {
        let missing = match row.percent {
            Some(p) => p.is_zero(),
            None => true,
        };
        if needs_rate_exec(cat) && missing && !zero_tax_family_exec(cat) {
            return Err(ReconcileError::MissingRate { at: row.path, category: owned(cat) });
        }
        row.percent
    } else if str_eq_ic(cat, "O") || str_eq_ic(cat, "TTX") {
        None
    } else {
        Some(Percentage::zero())
    };
    Ok(GroupKey { scheme, category: owned(cat), rate, system: row.system })
}

/// Rank of a tax system in declaration order.
pub open spec fn system_rank(s: TaxSystem) -> int {
    match s {
        TaxSystem::Vat => 0,
        TaxSystem::Gst => 1,
        TaxSystem::Sst => 2,
        TaxSystem::Consumption => 3,
    }
}

/// Strict text order.
pub open spec fn text_lt(a: Seq<char>, b: Seq<char>) -> bool {
    text_le(a, b) && a != b
}

/// Strict rate order: absent first, then by value.
pub open spec fn rate_lt(a: Option<Percentage>, b: Option<Percentage>) -> bool {
    match (a, b) {
        (None, Some(_)) => true,
        (Some(x), Some(y)) => value_lt(x.dec(), y.dec()),
        _ => false,
    }
}

/// Strict key order: scheme, category, rate, tax system.
pub open spec fn key_lt(a: KeyV, b: KeyV) -> bool {
    ||| text_lt(a.scheme, b.scheme)
    ||| a.scheme == b.scheme && text_lt(a.category, b.category)
    ||| a.scheme == b.scheme && a.category == b.category && rate_lt(a.rate, b.rate)
    ||| a.scheme == b.scheme && a.category == b.category && same_rate(a.rate, b.rate) && system_rank(a.system)
        < system_rank(b.system)
}

/// Any two keys are ordered one way or the other, or name the same row.
pub proof fn lemma_key_total(a: KeyV, b: KeyV)
    ensures
        key_lt(a, b) || key_same(a, b) || key_lt(b, a),
{
    reveal(key_same);
    lemma_text_le_total(a.scheme, b.scheme);
    lemma_text_le_total(a.category, b.category);
    if text_le(a.scheme, b.scheme) && text_le(b.scheme, a.scheme) {
        lemma_text_le_antisym(a.scheme, b.scheme);
    }
    if text_le(a.category, b.category) && text_le(b.category, a.category) {
        lemma_text_le_antisym(a.category, b.category);
    }
}

fn rank_of(s: TaxSystem) -> (r: u8)
    ensures
        r == system_rank(s),
{
    match s {
        TaxSystem::Vat => 0,
        TaxSystem::Gst => 1,
        TaxSystem::Sst => 2,
        TaxSystem::Consumption => 3,
    }
}

fn text_lt_exec(a: &str, b: &str) -> (r: bool)
    ensures
        r == text_lt(a@, b@),
{
    text_le_exec(a, b) && !str_eq(a, b)
}

fn same_rate_exec(a: Option<Percentage>, b: Option<Percentage>) -> (r: bool)
    ensures
        r == same_rate(a, b),
{
    match (a, b) {
        (None, None) => true,
        (Some(x), Some(y)) => x.as_percent().value_eq(&y.as_percent()),
        _ => false,
    }
}

fn rate_lt_exec(a: Option<Percentage>, b: Option<Percentage>) -> (r: bool)
    ensures
        r == rate_lt(a, b),
{
    match (a, b) {
        (None, Some(_)) => true,
        (Some(x), Some(y)) => x.as_percent().value_lt(&y.as_percent()),
        _ => false,
    }
}

pub fn key_same_exec(a: &GroupKey, b: &GroupKey) -> (r: bool)
    ensures
        r == key_same(a@, b@),
{
    proof {
        reveal(key_same);
    }
    str_eq(a.scheme.as_str(), b.scheme.as_str()) && str_eq(a.category.as_str(), b.category.as_str())
        && same_rate_exec(a.rate, b.rate) && rank_of(a.system) == rank_of(b.system)
}

pub fn key_lt_exec(a: &GroupKey, b: &GroupKey) -> (r: bool)
    ensures
        r == key_lt(a@, b@),
{
    let same_scheme = str_eq(a.scheme.as_str(), b.scheme.as_str());
    let same_cat = str_eq(a.category.as_str(), b.category.as_str());
    text_lt_exec(a.scheme.as_str(), b.scheme.as_str()) || (same_scheme && text_lt_exec(
        a.category.as_str(),
        b.category.as_str(),
    )) || (same_scheme && same_cat && rate_lt_exec(a.rate, b.rate)) || (same_scheme && same_cat
        && same_rate_exec(a.rate, b.rate) && rank_of(a.system) < rank_of(b.system))
}

/// Keys in strictly ascending order (each key before the next).
pub open spec fn ascending(s: Seq<KeyV>) -> bool {
    forall|i: int| 0 <= i < s.len() - 1 ==> key_lt(#[trigger] s[i], s[i + 1])
}

/// Views of keys.
pub open spec fn key_views(s: Seq<GroupKey>) -> Seq<KeyV> {
    Seq::new(s.len(), |i: int| s[i]@)
}

/// Put `k` in its place among ascending keys, unless a key for the same row is
/// there already.
pub fn insert_key(keys: &mut Vec<GroupKey>, k: GroupKey)
    requires
        ascending(key_views(old(keys)@)),
    ensures
        ascending(key_views(final(keys)@)),
        (exists|i: int| 0 <= i < key_views(old(keys)@).len() && key_same(key_views(old(keys)@)[i], k@) && key_views(
            final(keys)@,
        ) == key_views(old(keys)@)) || (exists|i: int| 0 <= i <= key_views(old(keys)@).len() && key_views(
            final(keys)@,
        ) == key_views(old(keys)@).insert(i, k@)),
{
    let ghost before = key_views(keys@);
    let mut i: usize = 0;
    while i < keys.len()
        invariant
            i <= keys.len(),
            keys@ == old(keys)@,
            before == key_views(keys@),
            ascending(before),
            forall|j: int| 0 <= j < i ==> !key_same(#[trigger] keys@[j]@, k@) && !key_lt(k@, keys@[j]@),
        decreases keys.len() - i,
    {
        if key_same_exec(&keys[i], &k) {
            assert(key_same(key_views(old(keys)@)[i as int], k@));
            assert(0 <= i < key_views(old(keys)@).len() && key_same(key_views(old(keys)@)[i as int], k@) && key_views(keys@) == key_views(old(keys)@));
            return;
        }
        if key_lt_exec(&k, &keys[i]) {
            proof {
                if i > 0 {
                    lemma_key_total(keys@[i - 1]@, k@);
                }
            }
            keys.insert(i, k);
            proof {
                let after = key_views(keys@);
                assert(after =~= before.insert(i as int, k@));
                assert forall|j: int| 0 <= j < after.len() - 1 implies key_lt(#[trigger] after[j], after[j + 1]) by {
                    if j + 1 < i {
                    } else if j + 1 == i {
                    } else if j == i {
                    } else {
                        assert(after[j] == before[j - 1]);
                        assert(after[j + 1] == before[j]);
                    }
                }
                assert(key_views(keys@) == key_views(old(keys)@).insert(i as int, k@));
            }
            return;
        }
        i = i + 1;
    }
    proof {
        if keys.len() > 0 {
            lemma_key_total(keys@[keys.len() - 1]@, k@);
        }
    }
    keys.push(k);
    proof {
        let after = key_views(keys@);
        assert(after =~= before.insert(before.len() as int, k@));
        assert forall|j: int| 0 <= j < after.len() - 1 implies key_lt(#[trigger] after[j], after[j + 1]) by {
            if j + 1 < before.len() {
            } else {
            }
        }
        assert(key_views(keys@) == key_views(old(keys)@).insert(old(keys)@.len() as int, k@));
    }
}


/// The item belongs to the breakdown row keyed `k`.
#[verifier::opaque]
pub open spec fn in_group(profile: Profile, it: Item, k: KeyV) -> bool {
    &&& !missing_rate(profile, it)
    &&& k.scheme == wire_scheme_of(profile, it.system, it.category)
    &&& k.category == it.category
    &&& k.system == it.system
    &&& if keyed_on_rate(profile, it.category) {
        same_rate(it.percent, k.rate)
    } else if eq_ic(it.category, "O"@) || eq_ic(it.category, "TTX"@) {
        k.rate is None
    } else {
        k.rate matches Some(z) && z.dec().m() == 0
    }
}

/// An item's own key names the rows it belongs to.
pub proof fn lemma_in_group(profile: Profile, it: Item, j: KeyV, k: KeyV)
    requires
        !missing_rate(profile, it),
        key_matches(profile, it, j),
    ensures
        key_same(j, k) <==> in_group(profile, it, k),
{
    reveal(key_matches);
    reveal(in_group);
    reveal(key_same);
    if !keyed_on_rate(profile, it.category) && !(eq_ic(it.category, "O"@) || eq_ic(it.category, "TTX"@)) {
        if k.rate is Some {
            let z = j.rate->0;
            let y = k.rate->0;
            crate::dec::lemma_pow10_pos(z.dec().s() as nat);
            crate::dec::lemma_pow10_pos(y.dec().s() as nat);
            if same_value(z.dec(), y.dec()) {
                assert(y.dec().m() * crate::dec::pow10(z.dec().s() as nat) == 0);
                vstd::arithmetic::mul::lemma_mul_is_commutative(y.dec().m(), crate::dec::pow10(z.dec().s() as nat));
                assert(y.dec().m() == 0) by (nonlinear_arith)
                    requires
                        y.dec().m() * crate::dec::pow10(z.dec().s() as nat) == 0,
                        crate::dec::pow10(z.dec().s() as nat) > 0,
                ;
            }
        }
    }
}

/// Signed hundredths of an item: allowances count against their group.
pub open spec fn signed_cents(it: Item) -> int {
    if it.is_allowance {
        -it.net.cents()
    } else {
        it.net.cents()
    }
}

/// Sum over the first `n` items of those in the row keyed `k`.
pub open spec fn group_cents(profile: Profile, its: Seq<Item>, k: KeyV, n: int) -> int
    decreases n,
{
    if n <= 0 {
        0
    } else {
        group_cents(profile, its, k, n - 1) + if in_group(profile, its[n - 1], k) {
            signed_cents(its[n - 1])
        } else {
            0
        }
    }
}

fn same_group(profile: Profile, row: &ContentRow, key: &GroupKey) -> (r: bool)
    ensures
        r == in_group(profile, row@, key@),
{
    match group_key(profile, row) {
        Ok(k) => {
            proof {
                lemma_in_group(profile, row@, k@, key@);
            }
            key_same_exec(&k, key)
        },
        Err(_) => {
            proof {
                reveal(in_group);
            }
            false
        },
    }
}

/// Sum of the magnitudes of the first `n` items, in hundredths.
pub open spec fn abs_total(its: Seq<Item>, n: int) -> int
    decreases n,
{
    if n <= 0 {
        0
    } else {
        abs_total(its, n - 1) + abs_int(its[n - 1].net.cents())
    }
}

/// Every sum over the items is representable.
pub open spec fn small(its: Seq<Item>) -> bool {
    abs_total(its, its.len() as int) <= MAX_MANTISSA
}

proof fn lemma_abs_total_mono(its: Seq<Item>, a: int, b: int)
    requires
        0 <= a <= b <= its.len(),
    ensures
        abs_total(its, a) <= abs_total(its, b),
    decreases b - a,
{
    if a < b {
        lemma_abs_total_mono(its, a, b - 1);
    }
}

/// Taxable amount of the row keyed `key`: its lines and charges less its
/// allowances, exact.
pub fn taxable_for(profile: Profile, rows: &Vec<ContentRow>, key: &GroupKey) -> (r: Result<InvoiceAmount, ReconcileError>)
    ensures
        small(Seq::new(rows@.len(), |i: int| rows@[i]@)) ==> (r matches Ok(v) && v.cents() == group_cents(
            profile,
            Seq::new(rows@.len(), |i: int| rows@[i]@),
            key@,
            rows@.len() as int,
        ) && abs_int(v.cents()) <= abs_total(Seq::new(rows@.len(), |i: int| rows@[i]@), rows@.len() as int)),
        r matches Err(e) ==> e is Overflow,
{
    let ghost its = Seq::new(rows@.len(), |i: int| rows@[i]@);
    let mut pos = InvoiceAmount::zero();
    let mut neg = InvoiceAmount::zero();
    let mut i: usize = 0;
    while i < rows.len()
        invariant
            i <= rows.len(),
            its == Seq::new(rows@.len(), |i: int| rows@[i]@),
            small(its) ==> pos.cents() - neg.cents() == group_cents(profile, its, key@, i as int),
            small(its) ==> 0 <= abs_int(pos.cents()) + abs_int(neg.cents()) <= abs_total(its, i as int),
        decreases rows.len() - i,
    {
        proof {
            if small(its) {
                lemma_abs_total_mono(its, i + 1, its.len() as int);
                assert(its[i as int] == rows@[i as int]@);
            }
        }
        let row = &rows[i];
        if same_group(profile, row, key) {
            if row.is_allowance {
                neg = match neg.checked_add(row.net) {
                    Some(v) => v,
                    None => {
                        return Err(ReconcileError::Overflow { term: "BT-116" });
                    },
                };
            } else {
                pos = match pos.checked_add(row.net) {
                    Some(v) => v,
                    None => {
                        return Err(ReconcileError::Overflow { term: "BT-116" });
                    },
                };
            }
        }
        i = i + 1;
    }
    match pos.checked_sub(neg) {
        Some(v) => Ok(v),
        None => Err(ReconcileError::Overflow { term: "BT-116" }),
    }
}


/// Sum of the signed hundredths of items: allowances count against.
pub open spec fn signed_sum(its: Seq<Item>) -> int
    decreases its.len(),
{
    if its.len() == 0 {
        0
    } else {
        signed_sum(its.drop_last()) + signed_cents(its.last())
    }
}

proof fn lemma_signed_sum_append(a: Seq<Item>, b: Seq<Item>)
    ensures
        signed_sum(a + b) == signed_sum(a) + signed_sum(b),
    decreases b.len(),
{
    if b.len() == 0 {
        assert(a + b =~= a);
    } else {
        lemma_signed_sum_append(a, b.drop_last());
        assert((a + b).drop_last() =~= a + b.drop_last());
    }
}

proof fn lemma_signed_sum_of(its: Seq<Item>, s: Seq<InvoiceAmount>, against: bool)
    requires
        its.len() == s.len(),
        forall|i: int| 0 <= i < its.len() ==> (#[trigger] its[i]).net == s[i] && its[i].is_allowance == against,
    ensures
        signed_sum(its) == if against { -cents_sum(s) } else { cents_sum(s) },
    decreases its.len(),
{
    if its.len() > 0 {
        lemma_signed_sum_of(its.drop_last(), s.drop_last(), against);
        assert(its.last() == its[its.len() - 1]);
    }
}

proof fn lemma_group_prefix(profile: Profile, its: Seq<Item>, k: KeyV, n: int)
    requires
        0 <= n <= its.len(),
    ensures
        group_cents(profile, its, k, n) == signed_sum(its.take(n).filter(|it: Item| in_group(profile, it, k))),
    decreases n,
{
    let f = |it: Item| in_group(profile, it, k);
    if n == 0 {
        reveal_with_fuel(Seq::filter, 1);
        assert(its.take(0).filter(f) =~= Seq::<Item>::empty());
    } else {
        lemma_group_prefix(profile, its, k, n - 1);
        let t = its.take(n);
        assert(t.drop_last() =~= its.take(n - 1));
        assert(t.last() == its[n - 1]);
        reveal_with_fuel(Seq::filter, 1);
        let sub = its.take(n - 1).filter(f);
        if f(its[n - 1]) {
            assert(t.filter(f) == sub.push(its[n - 1]));
            assert(sub.push(its[n - 1]).drop_last() =~= sub);
        } else {
            assert(t.filter(f) == sub);
        }
    }
}

/// The taxable amount a breakdown row is given is the signed sum of exactly
/// the items of its group: its lines and charges, less its allowances.
pub proof fn lemma_group_is_its_items(profile: Profile, its: Seq<Item>, k: KeyV)
    ensures
        group_cents(profile, its, k, its.len() as int) == signed_sum(its.filter(|it: Item| in_group(profile, it, k))),
{
    lemma_group_prefix(profile, its, k, its.len() as int);
    assert(its.take(its.len() as int) =~= its);
}

/// The content of an invoice balances to BT-109: its amounts, allowances
/// taken away and charges added, sum to the line net amounts less the
/// document allowances plus the document charges.
pub proof fn lemma_content_balance(inv: Invoice)
    ensures
        signed_sum(items(inv)) == cents_sum(line_nets(inv.lines@)) - cents_sum(ac_amounts(inv.document_allowances@))
            + cents_sum(ac_amounts(inv.document_charges@)),
        items(inv).len() == inv.lines@.len() + inv.document_allowances@.len() + inv.document_charges@.len(),
{
    let its = items(inv);
    let nl = inv.lines@.len() as int;
    let na = inv.document_allowances@.len() as int;
    let nc = inv.document_charges@.len() as int;
    assert(its.len() == nl + na + nc);
    let s1 = its.subrange(0, nl);
    let s2 = its.subrange(nl, nl + na);
    let s3 = its.subrange(nl + na, nl + na + nc);
    assert(its =~= s1 + s2 + s3);
    lemma_signed_sum_append(s1 + s2, s3);
    lemma_signed_sum_append(s1, s2);
    assert forall|i: int| 0 <= i < s1.len() implies (#[trigger] s1[i]).net == line_nets(inv.lines@)[i]
        && s1[i].is_allowance == false by {
        assert(s1[i] == its[i]);
    }
    lemma_signed_sum_of(s1, line_nets(inv.lines@), false);
    assert forall|i: int| 0 <= i < s2.len() implies (#[trigger] s2[i]).net == ac_amounts(inv.document_allowances@)[i]
        && s2[i].is_allowance == true by {
        assert(s2[i] == its[nl + i]);
    }
    lemma_signed_sum_of(s2, ac_amounts(inv.document_allowances@), true);
    assert forall|i: int| 0 <= i < s3.len() implies (#[trigger] s3[i]).net == ac_amounts(inv.document_charges@)[i]
        && s3[i].is_allowance == false by {
        assert(s3[i] == its[nl + na + i]);
    }
    lemma_signed_sum_of(s3, ac_amounts(inv.document_charges@), false);
}

/// An exemption reason supplied for one category.
#[derive(Debug, Clone, PartialEq, Eq)]
pub struct Exemption {
    pub scheme: String,
    pub category: String,
    pub text: Option<String>,
    pub code: Option<Code>,
}

/// Computes BG-23 and BG-22 from an invoice's lines, allowances and charges.
#[derive(Debug, Clone)]
pub struct Reconciler {
    pub exemptions: Vec<Exemption>,
    pub paid: Option<InvoiceAmount>,
    pub rounding: Option<InvoiceAmount>,
    pub tax_total_accounting: Option<InvoiceAmount>,
}

/// What reconciliation produced, before it is written back.
#[derive(Debug, Clone)]
pub struct Reconciled {
    pub tax_breakdown: Vec<TaxBreakdown>,
    pub totals: DocumentTotals,
}

/// Text of an optional string.
pub open spec fn opt_view(o: Option<String>) -> Option<Seq<char>> {
    match o {
        Some(s) => Some(s@),
        None => None,
    }
}

/// Text of an optional code.
pub open spec fn opt_code_view(o: Option<Code>) -> Option<Seq<char>> {
    match o {
        Some(c) => Some(c@),
        None => None,
    }
}

fn copy_text(o: &Option<String>) -> (r: Option<String>)
    ensures
        opt_view(r) == opt_view(*o),
{
    match o {
        Some(s) => Some(owned(s.as_str())),
        None => None,
    }
}

fn copy_code(o: &Option<Code>) -> (r: Option<Code>)
    ensures
        opt_code_view(r) == opt_code_view(*o),
{
    match o {
        Some(c) => Some(Code::new(c.as_str())),
        None => None,
    }
}

/// First supplied exemption for the category (ASCII case ignored), among the first `n`.
pub open spec fn first_exemption(exs: Seq<Exemption>, c: Seq<char>, n: int) -> Option<int>
    decreases n,
{
    if n <= 0 {
        None
    } else {
        match first_exemption(exs, c, n - 1) {
            Some(i) => Some(i),
            None => if eq_ic(exs[n - 1].category@, c) {
                Some(n - 1)
            } else {
                None
            },
        }
    }
}

/// An existing breakdown row of the same category and scheme with a reason.
pub open spec fn reason_row(e: TaxBreakdown, k: KeyV) -> bool {
    e.category@ == k.category && e.scheme@ == k.scheme && (e.exemption_reason is Some || e.exemption_code is Some)
}

/// First existing breakdown row that carries a reason for the key, among the first `n`.
pub open spec fn first_reason_row(rows: Seq<TaxBreakdown>, k: KeyV, n: int) -> Option<int>
    decreases n,
{
    if n <= 0 {
        None
    } else {
        match first_reason_row(rows, k, n - 1) {
            Some(i) => Some(i),
            None => if reason_row(rows[n - 1], k) {
                Some(n - 1)
            } else {
                None
            },
        }
    }
}

/// Exemption reason text and code of a new row: none where the category
/// forbids one; otherwise the first supplied one for the category; otherwise
/// the first one already on the invoice for the category and scheme.
pub open spec fn exemption_of(exs: Seq<Exemption>, old_rows: Seq<TaxBreakdown>, k: KeyV) -> (
    Option<Seq<char>>,
    Option<Seq<char>>,
) {
    if forbids_exemption(k.category) {
        (None, None)
    } else {
        match first_exemption(exs, k.category, exs.len() as int) {
            Some(i) => (opt_view(exs[i].text), opt_code_view(exs[i].code)),
            None => match first_reason_row(old_rows, k, old_rows.len() as int) {
                Some(j) => (opt_view(old_rows[j].exemption_reason), opt_code_view(old_rows[j].exemption_code)),
                None => (None, None),
            },
        }
    }
}

impl Reconciler {
    /// No exemption reasons, no prepaid amount, no rounding, no accounting-currency tax.
    pub fn new() -> (r: Reconciler)
        ensures
            r.exemptions@.len() == 0,
            r.paid is None,
            r.rounding is None,
            r.tax_total_accounting is None,
    {
        Reconciler { exemptions: Vec::new(), paid: None, rounding: None, tax_total_accounting: None }
    }

    /// BT-120 / BT-121 for one category. Categories that forbid a reason drop it.
    pub fn exemption(self, category: &str, text: Option<&str>, code: Option<&str>) -> (r: Reconciler)
        ensures
            r.exemptions@.len() == self.exemptions@.len() + 1,
            r.exemptions@.take(self.exemptions@.len() as int) == self.exemptions@,
            r.exemptions@.last().category@ == category@,
            r.exemptions@.last().scheme@ == Seq::<char>::empty(),
            opt_view(r.exemptions@.last().text) == match text {
                Some(t) => Some(t@),
                None => None::<Seq<char>>,
            },
            opt_code_view(r.exemptions@.last().code) == match code {
                Some(c) => Some(c@),
                None => None::<Seq<char>>,
            },
            r.paid == self.paid,
            r.rounding == self.rounding,
            r.tax_total_accounting == self.tax_total_accounting,
    {
        let mut me = self;
        let e = Exemption {
            scheme: String::new(),
            category: owned(category),
            text: match text {
                Some(t) => Some(owned(t)),
                None => None,
            },
            code: match code {
                Some(c) => Some(Code::new(c)),
                None => None,
            },
        };
        me.exemptions.push(e);
        me
    }

    /// BT-113. Absent is not zero.
    pub fn paid(self, amount: InvoiceAmount) -> (r: Reconciler)
        ensures
            r.paid == Some(amount),
            r.exemptions == self.exemptions,
            r.rounding == self.rounding,
            r.tax_total_accounting == self.tax_total_accounting,
    {
        let mut me = self;
        me.paid = Some(amount);
        me
    }

    /// BT-114 (for instance Malaysian 5-sen cash rounding).
    pub fn rounding(self, amount: InvoiceAmount) -> (r: Reconciler)
        ensures
            r.rounding == Some(amount),
            r.exemptions == self.exemptions,
            r.paid == self.paid,
            r.tax_total_accounting == self.tax_total_accounting,
    {
        let mut me = self;
        me.rounding = Some(amount);
        me
    }

    /// BT-111. Not derived.
    pub fn tax_total_accounting(self, amount: InvoiceAmount) -> (r: Reconciler)
        ensures
            r.tax_total_accounting == Some(amount),
            r.exemptions == self.exemptions,
            r.paid == self.paid,
            r.rounding == self.rounding,
    {
        let mut me = self;
        me.tax_total_accounting = Some(amount);
        me
    }

    fn exemption_for(&self, old_rows: &Vec<TaxBreakdown>, key: &GroupKey) -> (r: (Option<String>, Option<Code>))
        ensures
            (opt_view(r.0), opt_code_view(r.1)) == exemption_of(self.exemptions@, old_rows@, key@),
    {
        if forbids_exemption_exec(key.category.as_str()) {
            return (None, None);
        }
        let mut i: usize = 0;
        while i < self.exemptions.len()
            invariant
                i <= self.exemptions.len(),
                !forbids_exemption(key.category@),
                first_exemption(self.exemptions@, key.category@, i as int) is None,
            decreases self.exemptions.len() - i,
        {
            if str_eq_ic(self.exemptions[i].category.as_str(), key.category.as_str()) {
                assert(first_exemption(self.exemptions@, key.category@, i + 1) == Some(i as int));
                proof {
                    lemma_first_exemption_stays(self.exemptions@, key.category@, i + 1, self.exemptions@.len() as int);
                }
                return (copy_text(&self.exemptions[i].text), copy_code(&self.exemptions[i].code));
            }
            i = i + 1;
        }
        let mut j: usize = 0;
        while j < old_rows.len()
            invariant
                j <= old_rows.len(),
                !forbids_exemption(key.category@),
                first_exemption(self.exemptions@, key.category@, self.exemptions@.len() as int) is None,
                first_reason_row(old_rows@, key@, j as int) is None,
            decreases old_rows.len() - j,
        {
            let e = &old_rows[j];
            if str_eq(e.category.as_str(), key.category.as_str()) && str_eq(e.scheme.as_str(), key.scheme.as_str())
                && (e.exemption_reason.is_some() || e.exemption_code.is_some()) {
                assert(first_reason_row(old_rows@, key@, j + 1) == Some(j as int));
                proof {
                    lemma_first_reason_row_stays(old_rows@, key@, j + 1, old_rows@.len() as int);
                }
                return (copy_text(&e.exemption_reason), copy_code(&e.exemption_code));
            }
            j = j + 1;
        }
        (None, None)
    }
}

proof fn lemma_first_exemption_stays(exs: Seq<Exemption>, c: Seq<char>, a: int, b: int)
    requires
        0 <= a <= b,
        first_exemption(exs, c, a) is Some,
    ensures
        first_exemption(exs, c, b) == first_exemption(exs, c, a),
    decreases b - a,
{
    if a < b {
        lemma_first_exemption_stays(exs, c, a, b - 1);
    }
}

proof fn lemma_first_reason_row_stays(rows: Seq<TaxBreakdown>, k: KeyV, a: int, b: int)
    requires
        0 <= a <= b,
        first_reason_row(rows, k, a) is Some,
    ensures
        first_reason_row(rows, k, b) == first_reason_row(rows, k, a),
    decreases b - a,
{
    if a < b {
        lemma_first_reason_row_stays(rows, k, a, b - 1);
    }
}


/// The rate a row's tax is computed at: its rate, zero without one.
pub open spec fn rate_dec(rate: Option<Percentage>) -> Dec {
    match rate {
        Some(p) => p.dec(),
        None => zero_dec(),
    }
}

/// A rated tax: taxable × rate ÷ 100 as the decimal calls give it, kept
/// where it has at most two decimals, else rounded half away from zero to
/// two.
pub open spec fn rated_tax(taxable: Dec, rate: Option<Percentage>, tax: InvoiceAmount) -> bool {
    match dec_product(taxable, rate_dec(rate)) {
        Some(v) => match dec_quotient(v, hundred_dec()) {
            Some(x) => (x.s() <= 2 ==> tax.dec() == x) && (x.s() > 2 ==> tax.dec().s() == 2 && tax.dec().m()
                == round_half_away(x, 2)),
            None => false,
        },
        None => false,
    }
}

/// A taxable amount in hundredths times the rate's mantissa fits, and the
/// rate has at most 26 decimals: the rated product is representable.
pub open spec fn product_in_range(cents: int, rate: Option<Percentage>) -> bool {
    fits96(cents * rate_dec(rate).m()) && rate_dec(rate).s() <= 26
}

proof fn lemma_product_fits(d: Dec, r: Dec)
    requires
        0 <= d.s() <= 2,
        fits96(cents_of(d) * r.m()),
        r.s() <= 26,
    ensures
        mul_fits(d, r),
{
    lemma_pow10_small();
    let m = d.m() as int;
    let rm = r.m() as int;
    if d.s() == 0 {
        assert(cents_of(d) == m * 100);
        assert(abs_int(m * rm) <= abs_int(m * 100 * rm)) by (nonlinear_arith);
    } else if d.s() == 1 {
        assert(cents_of(d) == m * 10);
        assert(abs_int(m * rm) <= abs_int(m * 10 * rm)) by (nonlinear_arith);
    } else {
        assert(cents_of(d) == m);
    }
}

/// Tax of a row: the taxable amount for TTX, zero for the zero-tax families,
/// otherwise taxable × rate / 100 rounded half away from zero to cents. A
/// rated tax is refused only where the product is out of range.
pub fn tax_amount(category: &str, taxable: InvoiceAmount, rate: Option<Percentage>) -> (r: Result<InvoiceAmount, ReconcileError>)
    ensures
        eq_ic(category@, "TTX"@) ==> r == Ok::<InvoiceAmount, ReconcileError>(taxable),
        !eq_ic(category@, "TTX"@) && zero_tax_family(category@) ==> (r matches Ok(v) && v.cents() == 0),
        !eq_ic(category@, "TTX"@) && !zero_tax_family(category@) ==> (r matches Ok(v) ==> rated_tax(taxable.dec(), rate, v)),
        r is Err ==> !product_in_range(taxable.cents(), rate),
        r matches Err(e) ==> e is Overflow,
{
    if str_eq_ic(category, "TTX") {
        return Ok(taxable);
    }
    if zero_tax_family_exec(category) {
        return Ok(InvoiceAmount::zero());
    }
    let r = match rate {
        Some(p) => p.as_percent(),
        None => Dec::zero(),
    };
    assert(r == rate_dec(rate));
    let t = taxable.raw();
    let product = match t.checked_mul(&r) {
        Some(v) => v,
        None => {
            proof {
                if product_in_range(taxable.cents(), rate) {
                    lemma_product_fits(t, r);
                }
            }
            return Err(ReconcileError::Overflow { term: "BT-117" });
        },
    };
    let exact = match product.checked_div(&Dec::hundred()) {
        Some(v) => v,
        None => {
            return Err(ReconcileError::Overflow { term: "BT-117" });
        },
    };
    match InvoiceAmount::from_decimal_rounded(exact) {
        Ok(v) => Ok(v),
        Err(_) => Err(ReconcileError::Overflow { term: "BT-117" }),
    }
}

/// First item, among the first `n`, whose rate is missing.
pub open spec fn first_missing(profile: Profile, its: Seq<Item>, n: int) -> Option<int>
    decreases n,
{
    if n <= 0 {
        None
    } else {
        match first_missing(profile, its, n - 1) {
            Some(i) => Some(i),
            None => if missing_rate(profile, its[n - 1]) {
                Some(n - 1)
            } else {
                None
            },
        }
    }
}

/// Items of an invoice's content rows.
pub open spec fn row_items(rows: Seq<ContentRow>) -> Seq<Item> {
    Seq::new(rows.len(), |i: int| rows[i]@)
}

/// Every one of the first `n` items belongs to one of the keys.
pub open spec fn covered(profile: Profile, its: Seq<Item>, n: int, kv: Seq<KeyV>) -> bool {
    forall|j: int| 0 <= j < n ==> #[trigger] in_some_group(profile, its[j], kv)
}

/// The item belongs to one of the keys.
pub open spec fn in_some_group(profile: Profile, it: Item, kv: Seq<KeyV>) -> bool {
    exists|r: int| 0 <= r < kv.len() && #[trigger] in_group(profile, it, kv[r])
}

/// Every key is the key of one of the first `n` items.
pub open spec fn sourced(profile: Profile, its: Seq<Item>, n: int, kv: Seq<KeyV>) -> bool {
    forall|r: int| 0 <= r < kv.len() ==> #[trigger] key_of_some(profile, its, n, kv[r])
}

/// The key is the key of one of the first `n` items.
pub open spec fn key_of_some(profile: Profile, its: Seq<Item>, n: int, k: KeyV) -> bool {
    exists|j: int| 0 <= j < n && #[trigger] key_matches(profile, its[j], k)
}

proof fn lemma_key_same_refl(k: KeyV)
    ensures
        key_same(k, k),
{
    reveal(key_same);
}

proof fn lemma_key_same_sym(a: KeyV, b: KeyV)
    requires
        key_same(a, b),
    ensures
        key_same(b, a),
{
    reveal(key_same);
}

proof fn lemma_witnessed(profile: Profile, its: Seq<Item>, n: int, kv: Seq<KeyV>, wit: Seq<int>, src: Seq<int>)
    requires
        wit.len() == n,
        forall|j: int| 0 <= j < n ==> 0 <= #[trigger] wit[j] < kv.len() && in_group(profile, its[j], kv[wit[j]]),
        src.len() == kv.len(),
        forall|r: int| 0 <= r < kv.len() ==> 0 <= #[trigger] src[r] < n && key_matches(profile, its[src[r]], kv[r]),
    ensures
        covered(profile, its, n, kv),
        sourced(profile, its, n, kv),
{
    assert forall|j: int| 0 <= j < n implies #[trigger] in_some_group(profile, its[j], kv) by {
        assert(in_group(profile, its[j], kv[wit[j]]));
    }
    assert forall|r: int| 0 <= r < kv.len() implies #[trigger] key_of_some(profile, its, n, kv[r]) by {
        assert(key_matches(profile, its[src[r]], kv[r]));
    }
}

/// The keys of the breakdown rows of an invoice, ascending, or the first
/// item with a missing rate.
pub fn group_keys(profile: Profile, rows: &Vec<ContentRow>) -> (r: Result<Vec<GroupKey>, ReconcileError>)
    ensures
        match first_missing(profile, row_items(rows@), rows@.len() as int) {
            Some(i) => r matches Err(ReconcileError::MissingRate { at, category }) && at == rows@[i].path
                && category@ == rows@[i].category@,
            None => r matches Ok(keys) && ascending(key_views(keys@)) && covered(
                profile,
                row_items(rows@),
                rows@.len() as int,
                key_views(keys@),
            ) && sourced(profile, row_items(rows@), rows@.len() as int, key_views(keys@)),
        },
{
    let ghost its = row_items(rows@);
    let ghost mut wit: Seq<int> = Seq::empty();
    let ghost mut src: Seq<int> = Seq::empty();
    let mut keys: Vec<GroupKey> = Vec::new();
    let mut i: usize = 0;
    while i < rows.len()
        invariant
            i <= rows.len(),
            its == row_items(rows@),
            first_missing(profile, its, i as int) is None,
            ascending(key_views(keys@)),
            wit.len() == i,
            forall|j: int| 0 <= j < i ==> 0 <= #[trigger] wit[j] < keys@.len() && in_group(profile, its[j], key_views(keys@)[wit[j]]),
            src.len() == keys@.len(),
            forall|r: int| 0 <= r < keys@.len() ==> 0 <= #[trigger] src[r] < i && key_matches(profile, its[src[r]], key_views(keys@)[r]),
        decreases rows.len() - i,
    {
        assert(its[i as int] == rows@[i as int]@);
        match group_key(profile, &rows[i]) {
            Ok(k) => {
                let ghost old_kv = key_views(keys@);
                let ghost kk = k@;
                insert_key(&mut keys, k);
                proof {
                    let kv = key_views(keys@);
                    if exists|q: int| 0 <= q < old_kv.len() && key_same(old_kv[q], kk) && kv == old_kv {
                        let q = choose|q: int| 0 <= q < old_kv.len() && key_same(old_kv[q], kk) && kv == old_kv;
                        lemma_key_same_sym(old_kv[q], kk);
                        lemma_in_group(profile, its[i as int], kk, old_kv[q]);
                        wit = wit.push(q);
                    } else {
                        let q = choose|q: int| 0 <= q <= old_kv.len() && kv == old_kv.insert(q, kk);
                        lemma_key_same_refl(kk);
                        lemma_in_group(profile, its[i as int], kk, kk);
                        assert(kv[q] == kk);
                        let old_wit = wit;
                        wit = Seq::new((i + 1) as nat, |j: int| if j == i { q } else if old_wit[j] >= q { old_wit[j] + 1 } else { old_wit[j] });
                        assert forall|j: int| 0 <= j < i + 1 implies 0 <= #[trigger] wit[j] < keys@.len() && in_group(profile, its[j], kv[wit[j]]) by {
                            if j < i {
                                if old_wit[j] >= q {
                                    assert(kv[old_wit[j] + 1] == old_kv[old_wit[j]]);
                                } else {
                                    assert(kv[old_wit[j]] == old_kv[old_wit[j]]);
                                }
                            }
                        }
                        let old_src = src;
                        src = old_src.insert(q, i as int);
                        assert forall|r: int| 0 <= r < keys@.len() implies 0 <= #[trigger] src[r] < i + 1 && key_matches(profile, its[src[r]], kv[r]) by {
                            if r < q {
                                assert(kv[r] == old_kv[r]);
                            } else if r > q {
                                assert(kv[r] == old_kv[r - 1]);
                                assert(src[r] == old_src[r - 1]);
                            }
                        }
                    }
                }
            },
            Err(e) => {
                assert(first_missing(profile, its, i + 1) == Some(i as int));
                proof {
                    lemma_first_missing_stays(profile, its, i + 1, rows@.len() as int);
                }
                return Err(e);
            },
        }
        i = i + 1;
    }
    proof {
        lemma_witnessed(profile, its, rows@.len() as int, key_views(keys@), wit, src);
    }
    Ok(keys)
}

proof fn lemma_first_missing_range(profile: Profile, its: Seq<Item>, n: int)
    ensures
        first_missing(profile, its, n) matches Some(i) ==> 0 <= i < n,
    decreases n,
{
    if n > 0 {
        lemma_first_missing_range(profile, its, n - 1);
    }
}

proof fn lemma_first_missing_stays(profile: Profile, its: Seq<Item>, a: int, b: int)
    requires
        0 <= a <= b,
        first_missing(profile, its, a) is Some,
    ensures
        first_missing(profile, its, b) == first_missing(profile, its, a),
    decreases b - a,
{
    if a < b {
        lemma_first_missing_stays(profile, its, a, b - 1);
    }
}


/// Key of an existing breakdown row.
pub open spec fn row_key(e: TaxBreakdown) -> KeyV {
    KeyV { scheme: e.scheme@, category: e.category@, rate: e.rate, system: e.system }
}

/// Keys of breakdown rows.
pub open spec fn row_keys(rows: Seq<TaxBreakdown>) -> Seq<KeyV> {
    Seq::new(rows.len(), |i: int| row_key(rows[i]))
}

/// What each derived row states: its taxable amount is its group's exact
/// sum (where the amounts are representable), TTX pays its taxable amount,
/// the zero-tax families pay nothing, and its exemption reason follows
/// [`exemption_of`].
pub open spec fn row_derived(
    profile: Profile,
    its: Seq<Item>,
    exs: Seq<Exemption>,
    old_rows: Seq<TaxBreakdown>,
    e: TaxBreakdown,
) -> bool {
    &&& small(its) ==> e.taxable.cents() == group_cents(profile, its, row_key(e), its.len() as int)
    &&& eq_ic(e.category@, "TTX"@) ==> e.tax == e.taxable
    &&& !eq_ic(e.category@, "TTX"@) && zero_tax_family(e.category@) ==> e.tax.cents() == 0
    &&& !eq_ic(e.category@, "TTX"@) && !zero_tax_family(e.category@) ==> rated_tax(e.taxable.dec(), e.rate, e.tax)
    &&& (opt_view(e.exemption_reason), opt_code_view(e.exemption_code)) == exemption_of(exs, old_rows, row_key(e))
}

/// The tax breakdown of an invoice: one row per key, keys ascending; every
/// content amount belongs to a row; every row is the key of some content.
pub open spec fn breakdown_ok(
    profile: Profile,
    its: Seq<Item>,
    exs: Seq<Exemption>,
    old_rows: Seq<TaxBreakdown>,
    rows: Seq<TaxBreakdown>,
) -> bool {
    &&& ascending(row_keys(rows))
    &&& covered(profile, its, its.len() as int, row_keys(rows))
    &&& sourced(profile, its, its.len() as int, row_keys(rows))
    &&& forall|i: int| 0 <= i < rows.len() ==> #[trigger] row_derived(profile, its, exs, old_rows, rows[i])
}

/// Every rate an item is keyed on, times the sum of all content amounts in
/// hundredths, fits, and has at most 26 decimals: no rated tax product can
/// be out of range.
pub open spec fn rates_fit(profile: Profile, its: Seq<Item>) -> bool {
    forall|j: int| 0 <= j < its.len() && keyed_on_rate(profile, #[trigger] its[j].category) ==> match its[j].percent {
        Some(p) => fits96(abs_total(its, its.len() as int) * p.dec().m()) && p.dec().s() <= 26,
        None => true,
    }
}

proof fn lemma_scaled_fits(c: int, a: int, m: int)
    requires
        abs_int(c) <= a,
        fits96(a * m),
    ensures
        fits96(c * m),
{
    assert(abs_int(c * m) <= abs_int(a * m)) by (nonlinear_arith)
        requires
            abs_int(c) <= a,
    ;
}

/// A key of some item, under the bounds, leaves the rated product in range
/// for any taxable amount whose hundredths are within the content's sum.
proof fn lemma_key_in_range(profile: Profile, its: Seq<Item>, k: KeyV, cents: int)
    requires
        key_of_some(profile, its, its.len() as int, k),
        rates_fit(profile, its),
        abs_int(cents) <= abs_total(its, its.len() as int),
    ensures
        product_in_range(cents, k.rate),
{
    reveal(key_matches);
    crate::dec::lemma_zero_dec();
    let j = choose|j: int| 0 <= j < its.len() && #[trigger] key_matches(profile, its[j], k);
    if keyed_on_rate(profile, its[j].category) {
        match its[j].percent {
            Some(p) => {
                lemma_scaled_fits(cents, abs_total(its, its.len() as int), p.dec().m() as int);
            },
            None => {},
        }
    }
}

impl Reconciler {
    /// Derive the tax breakdown rows. Where no rate is missing, the content
    /// amounts sum within range and the rates fit, the rows come out.
    pub fn breakdown(&self, inv: &Invoice) -> (r: Result<Vec<TaxBreakdown>, ReconcileError>)
        ensures
            first_missing(inv.profile, items(*inv), items(*inv).len() as int) is None && small(items(*inv))
                && rates_fit(inv.profile, items(*inv)) ==> r is Ok,
            match first_missing(inv.profile, items(*inv), items(*inv).len() as int) {
                Some(i) => r matches Err(ReconcileError::MissingRate { at, category }) && at == items(*inv)[i].path
                    && category@ == items(*inv)[i].category,
                None => r is Ok || r matches Err(ReconcileError::Overflow { .. }),
            },
            r matches Ok(rows) ==> breakdown_ok(inv.profile, items(*inv), self.exemptions@, inv.tax_breakdown@, rows@),
    {
        let rows = content(inv);
        let ghost its = items(*inv);
        assert(row_items(rows@) =~= its);
        let profile = inv.profile;
        let keys = match group_keys(profile, &rows) {
            Ok(k) => k,
            Err(e) => {
                proof {
                    lemma_first_missing_range(profile, its, its.len() as int);
                    let i = first_missing(profile, its, its.len() as int)->0;
                    assert(rows@[i]@ == row_items(rows@)[i]);
                }
                return Err(e);
            },
        };
        let ghost kv = key_views(keys@);
        let mut out: Vec<TaxBreakdown> = Vec::new();
        let mut i: usize = 0;
        while i < keys.len()
            invariant
                i <= keys.len(),
                its == items(*inv),
                row_items(rows@) == its,
                first_missing(profile, its, its.len() as int) is None,
                profile == inv.profile,
                kv == key_views(keys@),
                sourced(profile, its, its.len() as int, kv),
                out@.len() == i,
                forall|j: int| 0 <= j < i ==> #[trigger] row_key(out@[j]) == kv[j],
                forall|j: int| 0 <= j < i ==> #[trigger] row_derived(profile, its, self.exemptions@, inv.tax_breakdown@, out@[j]),
            decreases keys.len() - i,
        {
            let k = &keys[i];
            assert(Seq::new(rows@.len(), |j: int| rows@[j]@) =~= its);
            let taxable = match taxable_for(profile, &rows, k) {
                Ok(v) => v,
                Err(e) => {
                    return Err(e);
                },
            };
            let tax = match tax_amount(k.category.as_str(), taxable, k.rate) {
                Ok(v) => v,
                Err(e) => {
                    proof {
                        if small(its) && rates_fit(profile, its) {
                            assert(kv[i as int] == k@);
                            assert(key_of_some(profile, its, its.len() as int, kv[i as int]));
                            lemma_key_in_range(profile, its, k@, taxable.cents());
                        }
                    }
                    return Err(e);
                },
            };
            let (exemption_reason, exemption_code) = self.exemption_for(&inv.tax_breakdown, k);
            let row = TaxBreakdown {
                system: k.system,
                scheme: owned(k.scheme.as_str()),
                category: Code::new(k.category.as_str()),
                rate: k.rate,
                taxable,
                tax,
                exemption_reason,
                exemption_code,
            };
            assert(row_key(row) == k@);
            out.push(row);
            i = i + 1;
        }
        assert(row_keys(out@) =~= kv);
        Ok(out)
    }
}


/// The sums behind the document totals are representable.
pub open spec fn totals_fit(inv: Invoice, bd: Seq<TaxBreakdown>, paid: Option<InvoiceAmount>, rounding: Option<InvoiceAmount>) -> bool {
    let ln = cents_sum(line_nets(inv.lines@));
    let al = cents_sum(ac_amounts(inv.document_allowances@));
    let ch = cents_sum(ac_amounts(inv.document_charges@));
    let tx = cents_sum(row_taxes(bd));
    let w = ln - al + ch;
    let wt = w + tx;
    &&& sum_fits(line_nets(inv.lines@))
    &&& sum_fits(ac_amounts(inv.document_allowances@))
    &&& sum_fits(ac_amounts(inv.document_charges@))
    &&& sum_fits(row_taxes(bd))
    &&& fits96(ln) && fits96(al) && fits96(ch) && fits96(ln - al) && fits96(w) && fits96(tx) && fits96(wt)
    &&& fits96(opt_cents(paid)) && fits96(opt_cents(rounding)) && fits96(wt - opt_cents(paid))
    &&& fits96(wt - opt_cents(paid) + opt_cents(rounding))
}

/// The document totals as the lines, allowances, charges and breakdown rows
/// give them: BT-106 the line sum; BT-107 and BT-108 absent without
/// allowances (charges), otherwise their sums; BT-109 = BT-106 − BT-107 +
/// BT-108; BT-110 absent without rows, otherwise the sum of row taxes;
/// BT-112 = BT-109 + BT-110; BT-115 = BT-112 − BT-113 + BT-114.
pub open spec fn totals_derived(inv: Invoice, bd: Seq<TaxBreakdown>, t: DocumentTotals) -> bool {
    let ln = cents_sum(line_nets(inv.lines@));
    let al = cents_sum(ac_amounts(inv.document_allowances@));
    let ch = cents_sum(ac_amounts(inv.document_charges@));
    let tx = cents_sum(row_taxes(bd));
    &&& t.line_net matches Some(v) && v.cents() == ln
    &&& if inv.document_allowances@.len() == 0 {
        t.allowance_total is None
    } else {
        t.allowance_total matches Some(v) && v.cents() == al
    }
    &&& if inv.document_charges@.len() == 0 {
        t.charge_total is None
    } else {
        t.charge_total matches Some(v) && v.cents() == ch
    }
    &&& t.without_tax matches Some(v) && v.cents() == ln - al + ch
    &&& if bd.len() == 0 {
        t.tax_total is None
    } else {
        t.tax_total matches Some(v) && v.cents() == tx
    }
    &&& t.with_tax matches Some(v) && v.cents() == ln - al + ch + tx
    &&& t.payable matches Some(v) && v.cents() == ln - al + ch + tx - opt_cents(t.paid) + opt_cents(t.rounding)
}

proof fn lemma_empty_sum(s: Seq<InvoiceAmount>)
    requires
        s.len() == 0,
    ensures
        cents_sum(s) == 0,
{
}

impl Reconciler {
    /// Derive the document totals from the invoice and its derived rows.
    pub fn totals(&self, inv: &Invoice, breakdown: &Vec<TaxBreakdown>) -> (r: Result<DocumentTotals, ReconcileError>)
        ensures
            r matches Ok(t) ==> t.paid == self.paid && t.rounding == self.rounding && t.tax_total_accounting
                == self.tax_total_accounting,
            r matches Err(e) ==> e is Overflow,
            totals_fit(*inv, breakdown@, self.paid, self.rounding) ==> (r matches Ok(t) && totals_derived(
                *inv,
                breakdown@,
                t,
            )),
    {
        proof {
            if inv.document_allowances@.len() == 0 {
                lemma_empty_sum(ac_amounts(inv.document_allowances@));
            }
            if inv.document_charges@.len() == 0 {
                lemma_empty_sum(ac_amounts(inv.document_charges@));
            }
            if breakdown@.len() == 0 {
                lemma_empty_sum(row_taxes(breakdown@));
            }
        }
        let nv = nets(&inv.lines);
        let line_net = match InvoiceAmount::checked_sum(nv.as_slice()) {
            Some(v) => v,
            None => {
                return Err(ReconcileError::Overflow { term: "BT-106" });
            },
        };
        let allowance_total = if inv.document_allowances.len() == 0 {
            None
        } else {
            let av = amounts(&inv.document_allowances);
            match InvoiceAmount::checked_sum(av.as_slice()) {
                Some(v) => Some(v),
                None => {
                    return Err(ReconcileError::Overflow { term: "BT-107" });
                },
            }
        };
        let charge_total = if inv.document_charges.len() == 0 {
            None
        } else {
            let cv = amounts(&inv.document_charges);
            match InvoiceAmount::checked_sum(cv.as_slice()) {
                Some(v) => Some(v),
                None => {
                    return Err(ReconcileError::Overflow { term: "BT-108" });
                },
            }
        };
        let without_tax = match chain(line_net, allowance_total, charge_total) {
            Some(v) => v,
            None => {
                return Err(ReconcileError::Overflow { term: "BT-109" });
            },
        };
        let tax_total = if breakdown.len() == 0 {
            None
        } else {
            let tv = taxes(breakdown);
            match InvoiceAmount::checked_sum(tv.as_slice()) {
                Some(v) => Some(v),
                None => {
                    return Err(ReconcileError::Overflow { term: "BT-110" });
                },
            }
        };
        let with_tax = match chain(without_tax, None, tax_total) {
            Some(v) => v,
            None => {
                return Err(ReconcileError::Overflow { term: "BT-112" });
            },
        };
        let payable = match chain(with_tax, self.paid, self.rounding) {
            Some(v) => v,
            None => {
                return Err(ReconcileError::Overflow { term: "BT-115" });
            },
        };
        Ok(
            DocumentTotals {
                line_net: Some(line_net),
                allowance_total,
                charge_total,
                without_tax: Some(without_tax),
                tax_total,
                tax_total_accounting: self.tax_total_accounting,
                with_tax: Some(with_tax),
                paid: self.paid,
                rounding: self.rounding,
                payable: Some(payable),
            },
        )
    }
}


/// No rate is missing, the content amounts sum within range and the rates
/// fit: the breakdown rows come out, and the totals do where their sums fit.
pub open spec fn in_range(inv: Invoice) -> bool {
    &&& first_missing(inv.profile, items(inv), items(inv).len() as int) is None
    &&& small(items(inv))
    &&& rates_fit(inv.profile, items(inv))
}

/// What computing the reconciliation of `inv` with `rc` may give: the first
/// item with a missing rate is refused; otherwise the result is derived rows
/// and totals, or an overflow. The rows follow [`breakdown_ok`]; the totals
/// carry the reconciler's prepaid, rounding and accounting-currency tax, and
/// where the sums are representable are the derived ones.
pub open spec fn computed(rc: Reconciler, inv: Invoice, r: Result<Reconciled, ReconcileError>) -> bool {
    &&& match first_missing(inv.profile, items(inv), items(inv).len() as int) {
        Some(i) => r matches Err(ReconcileError::MissingRate { at, category }) && at == items(inv)[i].path
            && category@ == items(inv)[i].category,
        None => r is Ok || r matches Err(ReconcileError::Overflow { .. }),
    }
    &&& r matches Ok(res) ==> breakdown_ok(inv.profile, items(inv), rc.exemptions@, inv.tax_breakdown@, res.tax_breakdown@)
        && res.totals.paid == rc.paid && res.totals.rounding == rc.rounding && res.totals.tax_total_accounting
        == rc.tax_total_accounting && (totals_fit(inv, res.tax_breakdown@, rc.paid, rc.rounding)
        ==> totals_derived(inv, res.tax_breakdown@, res.totals))
}

impl Reconciler {
    /// Derive the tax breakdown and the document totals without touching the invoice.
    pub fn compute(&self, inv: &Invoice) -> (r: Result<Reconciled, ReconcileError>)
        ensures
            computed(*self, *inv, r),
            in_range(*inv) ==> (r is Ok || exists|bd: Seq<TaxBreakdown>| breakdown_ok(
                inv.profile,
                items(*inv),
                self.exemptions@,
                inv.tax_breakdown@,
                bd,
            ) && !totals_fit(*inv, bd, self.paid, self.rounding)),
            match first_missing(inv.profile, items(*inv), items(*inv).len() as int) {
                Some(i) => r matches Err(ReconcileError::MissingRate { at, category }) && at == items(*inv)[i].path
                    && category@ == items(*inv)[i].category,
                None => r is Ok || r matches Err(ReconcileError::Overflow { .. }),
            },
            r matches Ok(rc) ==> breakdown_ok(inv.profile, items(*inv), self.exemptions@, inv.tax_breakdown@, rc.tax_breakdown@)
                && rc.totals.paid == self.paid && rc.totals.rounding == self.rounding && rc.totals.tax_total_accounting
                == self.tax_total_accounting && (totals_fit(*inv, rc.tax_breakdown@, self.paid, self.rounding)
                ==> totals_derived(*inv, rc.tax_breakdown@, rc.totals)),
    {
        let tax_breakdown = match self.breakdown(inv) {
            Ok(b) => b,
            Err(e) => {
                return Err(e);
            },
        };
        let totals = match self.totals(inv, &tax_breakdown) {
            Ok(t) => t,
            Err(e) => {
                proof {
                    assert(breakdown_ok(inv.profile, items(*inv), self.exemptions@, inv.tax_breakdown@, tax_breakdown@));
                    assert(!totals_fit(*inv, tax_breakdown@, self.paid, self.rounding));
                }
                return Err(e);
            },
        };
        Ok(Reconciled { tax_breakdown, totals })
    }

    /// Write the derived tax breakdown and totals onto the invoice; on an
    /// error the invoice is left as it was. Exemption reasons already on
    /// matching rows are kept unless this reconciler supplies one.
    pub fn apply(&self, inv: &mut Invoice) -> (r: Result<(), ReconcileError>)
        ensures
            r matches Err(e) ==> computed(*self, *old(inv), Err(e)),
            r is Ok ==> exists|res: Reconciled| #[trigger] computed(*self, *old(inv), Ok(res))
                && final(inv).tax_breakdown == res.tax_breakdown && final(inv).totals == Some(res.totals),
            r is Err ==> *final(inv) == *old(inv),
            match first_missing(old(inv).profile, items(*old(inv)), items(*old(inv)).len() as int) {
                Some(i) => r matches Err(ReconcileError::MissingRate { at, category }) && at == items(*old(inv))[i].path
                    && category@ == items(*old(inv))[i].category,
                None => r is Ok || r matches Err(ReconcileError::Overflow { .. }),
            },
            r is Ok ==> *final(inv) == (Invoice {
                tax_breakdown: final(inv).tax_breakdown,
                totals: final(inv).totals,
                ..*old(inv)
            }),
            r is Ok ==> breakdown_ok(old(inv).profile, items(*old(inv)), self.exemptions@, old(inv).tax_breakdown@, final(inv).tax_breakdown@),
            r is Ok ==> (final(inv).totals matches Some(t) && t.paid == self.paid && t.rounding == self.rounding
                && t.tax_total_accounting == self.tax_total_accounting && (totals_fit(
                *old(inv),
                final(inv).tax_breakdown@,
                self.paid,
                self.rounding,
            ) ==> totals_derived(*old(inv), final(inv).tax_breakdown@, t))),
    {
        match self.compute(inv) {
            Ok(rc) => {
                inv.tax_breakdown = rc.tax_breakdown;
                inv.totals = Some(rc.totals);
                Ok(())
            },
            Err(e) => Err(e),
        }
    }
}

/// Reconcile with every default: no exemption reasons, nothing prepaid, no rounding.
pub fn reconcile(inv: &mut Invoice) -> (r: Result<(), ReconcileError>)
    ensures
        r is Err ==> *final(inv) == *old(inv),
        match first_missing(old(inv).profile, items(*old(inv)), items(*old(inv)).len() as int) {
            Some(i) => r matches Err(ReconcileError::MissingRate { at, category }) && at == items(*old(inv))[i].path
                && category@ == items(*old(inv))[i].category,
            None => r is Ok || r matches Err(ReconcileError::Overflow { .. }),
        },
        r is Ok ==> *final(inv) == (Invoice {
            tax_breakdown: final(inv).tax_breakdown,
            totals: final(inv).totals,
            ..*old(inv)
        }),
        r is Ok ==> breakdown_ok(old(inv).profile, items(*old(inv)), Seq::empty(), old(inv).tax_breakdown@, final(inv).tax_breakdown@),
        r is Ok ==> (final(inv).totals matches Some(t) && t.paid is None && t.rounding is None
            && t.tax_total_accounting is None && (totals_fit(*old(inv), final(inv).tax_breakdown@, None, None)
            ==> totals_derived(*old(inv), final(inv).tax_breakdown@, t))),
{
    let rc = Reconciler::new();
    assert(rc.exemptions@ =~= Seq::<Exemption>::empty());
    rc.apply(inv)
}

/// Totals that reconciliation derived satisfy the document totals rules
/// BR-CO-10 to BR-CO-16: where the sums are representable, none of those
/// checks fires on them.
pub proof fn lemma_derived_totals_pass(inv: Invoice, t: DocumentTotals)
    requires
        totals_derived(inv, inv.tax_breakdown@, t),
    ensures
        sum_fits(line_nets(inv.lines@)) ==> !crate::total_checks::differs(t.line_net, cents_sum(line_nets(inv.lines@))),
        !(match t.allowance_total {
            None => inv.document_allowances@.len() > 0,
            Some(s) => s.cents() != cents_sum(ac_amounts(inv.document_allowances@)),
        }),
        !(match t.charge_total {
            None => inv.document_charges@.len() > 0,
            Some(s) => s.cents() != cents_sum(ac_amounts(inv.document_charges@)),
        }),
        t.line_net matches Some(n) ==> !crate::total_checks::differs(
            t.without_tax,
            n.cents() - opt_cents(t.allowance_total) + opt_cents(t.charge_total),
        ),
        !(match t.tax_total {
            None => cents_sum(row_taxes(inv.tax_breakdown@)) != 0,
            Some(s) => s.cents() != cents_sum(row_taxes(inv.tax_breakdown@)),
        }),
        t.without_tax matches Some(w) ==> !crate::total_checks::differs(t.with_tax, w.cents() + opt_cents(t.tax_total)),
        t.with_tax matches Some(w) ==> !(t.payable matches Some(p) && p.cents() != w.cents() - opt_cents(t.paid)
            + opt_cents(t.rounding)),
{
    if inv.document_allowances@.len() == 0 {
        lemma_empty_sum(ac_amounts(inv.document_allowances@));
    }
    if inv.document_charges@.len() == 0 {
        lemma_empty_sum(ac_amounts(inv.document_charges@));
    }
    if inv.tax_breakdown@.len() == 0 {
        lemma_empty_sum(row_taxes(inv.tax_breakdown@));
    }
}

} // verus!
