//! Rounding and slack used by VAT/GST/SST derivation.
//!
//! The CEN artefacts spell derived tax in XPath:
//! `round(abs(TaxableAmount) * (Percent div 100) * 10 * 10) div 100`, where
//! `round` is XPath's `fn:round`: closest integer, ties toward +∞ =
//! `floor(x + 0.5)`. The ±1.00 slack on the VAT derivation family is
//! exclusive on absolute values. The producer ([`crate::reconcile`]) may use
//! commercial rounding for the printed numbers; the validator uses
//! [`xpath_round`].
use vstd::prelude::*;
use crate::dec::{Dec, MAX_SCALE, abs_int, add_fits, mul_fits, fits96, floor_div, lemma_pow10_add, lemma_pow10_mono, lemma_pow10_pos, max_scale, pow10, scaled, sub_fits};
use vstd::arithmetic::div_mod::{lemma_fundamental_div_mod, lemma_fundamental_div_mod_converse};

verus! {

/// `floor(m / 10^s + 1/2)`: XPath `fn:round` of `m / 10^s`.
pub open spec fn xpath_round_value(m: int, s: nat) -> int {
    floor_div(2 * m + pow10(s), 2 * pow10(s))
}

/// `x + 0.5` is exactly representable (the condition under which [`xpath_round`] is exact).
pub open spec fn round_fits(x: Dec) -> bool {
    let k: nat = if x.s() >= 1 { x.s() } else { 1 };
    &&& x.s() <= MAX_SCALE
    &&& fits96(scaled(x, k))
    &&& fits96(scaled(x, k) + 5 * pow10((k - 1) as nat))
}

/// `|stated - expected| < 1` on values.
pub open spec fn within_one(a: Dec, b: Dec) -> bool {
    abs_int(scaled(a, max_scale(a, b)) - scaled(b, max_scale(a, b))) < pow10(max_scale(a, b))
}

/// Product of mantissas of `|base| × rate`.
pub open spec fn derived_product(base: Dec, rate: Dec) -> int {
    abs_int(base.m()) * rate.m()
}

/// Artefact derived tax `round(|base| × rate) / 100`, in hundredths.
pub open spec fn derived_cents(base: Dec, rate: Dec) -> int {
    xpath_round_value(derived_product(base, rate), base.s() + rate.s())
}

/// Range in which [`derived_vat`] computes [`derived_cents`] exactly.
pub open spec fn derived_fits(base: Dec, rate: Dec) -> bool {
    &&& base.s() + rate.s() <= 26
    &&& fits96(10 * abs_int(derived_product(base, rate)) + 5 * pow10(base.s() + rate.s()))
    &&& fits96(100 * derived_cents(base, rate))
}

/// `(a·c) / (b·c) == a / b` for positive `b`, `c`.
pub proof fn lemma_div_scale(a: int, b: int, c: int)
    requires
        b > 0,
        c > 0,
    ensures
        (a * c) / (b * c) == a / b,
{
    let q = a / b;
    let r = a % b;
    lemma_fundamental_div_mod(a, b);
    assert(0 <= r < b);
    assert(a * c == q * (b * c) + r * c && 0 <= r * c < b * c) by (nonlinear_arith)
        requires
            a == b * q + r,
            0 <= r < b,
            c > 0,
    ;
    lemma_fundamental_div_mod_converse(a * c, b * c, q, r * c);
}

/// [`xpath_round_value`] depends on the value only, not on the scale it is written at.
pub proof fn lemma_xpath_round_scaled(m: int, s: nat, k: nat)
    ensures
        xpath_round_value(m * pow10(k), s + k) == xpath_round_value(m, s),
{
    lemma_pow10_add(s, k);
    lemma_pow10_pos(s);
    lemma_pow10_pos(k);
    let p = pow10(s);
    let c = pow10(k);
    assert(2 * (m * c) + p * c == (2 * m + p) * c) by (nonlinear_arith);
    assert(2 * (p * c) == (2 * p) * c) by (nonlinear_arith);
    lemma_div_scale(2 * m + p, 2 * p, c);
}

/// `5 · 10^27` is below `2^96`.
proof fn lemma_half_fits(k: nat)
    requires
        1 <= k <= MAX_SCALE,
    ensures
        fits96(5 * pow10((k - 1) as nat)),
        5 * pow10((k - 1) as nat) >= 0,
{
    reveal_with_fuel(pow10, 28);
    assert(pow10(27) == 1000000000000000000000000000);
    lemma_pow10_mono((k - 1) as nat, 27);
    lemma_pow10_pos((k - 1) as nat);
}

/// The ±1.00 the artefacts allow on the VAT derivation family (not in the standard).
pub fn vat_tolerance() -> (r: Dec)
    ensures
        r.m() == 1,
        r.s() == 0,
{
    Dec::one()
}

/// XPath `fn:round` — closest integer, ties toward +∞ (`floor(x + 0.5)`).
/// If `x + 0.5` overflows, returns `x`.
pub fn xpath_round(x: Dec) -> (r: Dec)
    ensures
        round_fits(x) ==> r.s() == 0 && r.m() == xpath_round_value(x.m(), x.s()),
{
    let half = Dec::new(5, 1);
    match x.checked_add(&half) {
        Some(shifted) => {
            let f = shifted.floor();
            proof {
                if round_fits(x) {
                    lemma_round_fits_add(x, half);
                    lemma_round_exact(x, half, shifted, f);
                }
            }
            f
        },
        None => {
            proof {
                if round_fits(x) {
                    lemma_round_fits_add(x, half);
                }
            }
            x
        },
    }
}

proof fn lemma_round_fits_add(x: Dec, half: Dec)
    requires
        round_fits(x),
        half.m() == 5,
        half.s() == 1,
    ensures
        add_fits(x, half),
{
    let k: nat = if x.s() >= 1 { x.s() } else { 1 };
    lemma_half_fits(k);
    reveal_with_fuel(pow10, 2);
    assert(max_scale(x, half) == k);
    assert(scaled(half, k) == 5 * pow10((k - 1) as nat));
}

proof fn lemma_round_exact(x: Dec, half: Dec, y: Dec, f: Dec)
    requires
        round_fits(x),
        half.m() == 5,
        half.s() == 1,
        y.s() <= max_scale(x, half),
        scaled(y, max_scale(x, half)) == scaled(x, max_scale(x, half)) + scaled(half, max_scale(x, half)),
        f.s() == 0,
        f.m() == floor_div(y.m(), pow10(y.s())),
    ensures
        f.m() == xpath_round_value(x.m(), x.s()),
{
    let k = max_scale(x, half);
    assert(k == if x.s() >= 1 { x.s() } else { 1nat });
    reveal_with_fuel(pow10, 2);
    assert(scaled(half, k) == 5 * pow10((k - 1) as nat));
    lemma_pow10_add(y.s(), (k - y.s()) as nat);
    lemma_pow10_pos(y.s());
    lemma_pow10_pos((k - y.s()) as nat);
    lemma_div_scale(y.m(), pow10(y.s()), pow10((k - y.s()) as nat));
    assert(f.m() == scaled(y, k) / pow10(k));
    lemma_pow10_add(1, (k - 1) as nat);
    assert(pow10(k) == 10 * pow10((k - 1) as nat));
    lemma_pow10_pos((k - 1) as nat);
    if x.s() >= 1 {
        assert(scaled(x, k) == x.m());
        let t = x.m() + 5 * pow10((k - 1) as nat);
        assert(t * 2 == 2 * x.m() + pow10(k));
        lemma_div_scale(t, pow10(k), 2);
        assert((t * 2) / (pow10(k) * 2) == t / pow10(k));
        assert(pow10(k) * 2 == 2 * pow10(x.s()));
    } else {
        assert(k == 1);
        assert(scaled(x, k) == x.m() * 10);
        assert(pow10(0) == 1);
        lemma_div_scale(2 * x.m() + 1, 2, 5);
        assert((2 * x.m() + 1) * 5 == x.m() * 10 + 5);
    }
}

/// For values with at most two decimals, [`within_one`] compares hundredths,
/// and the difference is representable when the hundredths are.
pub proof fn lemma_within_cents(a: Dec, b: Dec)
    requires
        a.s() <= 2,
        b.s() <= 2,
        fits96(scaled(a, 2)),
        fits96(scaled(b, 2)),
        fits96(scaled(a, 2) - scaled(b, 2)),
    ensures
        sub_fits(a, b),
        within_one(a, b) == (abs_int(scaled(a, 2) - scaled(b, 2)) < 100),
{
    reveal_with_fuel(pow10, 3);
    assert(pow10(0) == 1);
    assert(pow10(1) == 10);
    assert(pow10(2) == 100);
    let k = max_scale(a, b);
    if a.s() == 0 {
        assert(scaled(a, 2) == a.m() * 100);
    } else if a.s() == 1 {
        assert(scaled(a, 2) == a.m() * 10);
    } else {
        assert(scaled(a, 2) == a.m());
    }
    if b.s() == 0 {
        assert(scaled(b, 2) == b.m() * 100);
    } else if b.s() == 1 {
        assert(scaled(b, 2) == b.m() * 10);
    } else {
        assert(scaled(b, 2) == b.m());
    }
    if k == 0 {
        assert(scaled(a, k) == a.m() && scaled(b, k) == b.m());
    } else if k == 1 {
        assert(scaled(a, k) * 10 == scaled(a, 2));
        assert(scaled(b, k) * 10 == scaled(b, 2));
    } else {
        assert(scaled(a, k) == scaled(a, 2));
        assert(scaled(b, k) == scaled(b, 2));
    }
}

/// Artefact derived tax: `round(|base| × rate) / 100`.
///
/// `rate` is a per cent (`19`, not `0.19`). `None` only on overflow.
pub fn derived_vat(base: Dec, rate: Dec) -> (r: Option<Dec>)
    ensures
        derived_fits(base, rate) ==> (r matches Some(v) && v.s() <= 2 && scaled(v, 2) == derived_cents(
            base,
            rate,
        )),
{
    let a = base.abs();
    match a.checked_mul(&rate) {
        Some(p) => {
            let ghost big_s: nat = base.s() + rate.s();
            proof {
                if derived_fits(base, rate) {
                    lemma_product_fits(base, rate, a);
                    lemma_product_round_fits(base, rate, p);
                }
            }
            let n = xpath_round(p);
            proof {
                if derived_fits(base, rate) {
                    lemma_pow10_add(p.s(), (big_s - p.s()) as nat);
                    lemma_xpath_round_scaled(p.m(), p.s(), (big_s - p.s()) as nat);
                    assert(p.s() + (big_s - p.s()) == big_s);
                }
            }
            let hundred = Dec::hundred();
            n.checked_div(&hundred)
        },
        None => {
            proof {
                if derived_fits(base, rate) {
                    lemma_product_fits(base, rate, a);
                }
            }
            None
        },
    }
}

proof fn lemma_product_fits(base: Dec, rate: Dec, a: Dec)
    requires
        derived_fits(base, rate),
        a.m() == abs_int(base.m()),
        a.s() == base.s(),
    ensures
        mul_fits(a, rate),
{
    lemma_pow10_pos(base.s() + rate.s());
    assert(abs_int(derived_product(base, rate)) <= 10 * abs_int(derived_product(base, rate)) + 5 * pow10(
        base.s() + rate.s(),
    ));
    assert(derived_product(base, rate) == a.m() * rate.m());
}

proof fn lemma_product_round_fits(base: Dec, rate: Dec, p: Dec)
    requires
        derived_fits(base, rate),
        p.s() <= base.s() + rate.s(),
        scaled(p, (base.s() + rate.s()) as nat) == derived_product(base, rate),
    ensures
        round_fits(p),
{
    let big_s: nat = base.s() + rate.s();
    let mm = derived_product(base, rate);
    let c = pow10((big_s - p.s()) as nat);
    lemma_pow10_pos((big_s - p.s()) as nat);
    assert(mm == p.m() * c);
    assert(abs_int(p.m()) <= abs_int(mm)) by (nonlinear_arith)
        requires
            mm == p.m() * c,
            c >= 1,
    ;
    lemma_pow10_pos(big_s);
    let k: nat = if p.s() >= 1 { p.s() } else { 1 };
    lemma_half_fits(k);
    lemma_pow10_mono((k - 1) as nat, big_s);
    reveal_with_fuel(pow10, 2);
    if p.s() >= 1 {
        assert(scaled(p, k) == p.m());
    } else {
        assert(scaled(p, k) == p.m() * 10);
    }
}

/// Whether `stated` is within the artefacts' ±1.00 of `expected` (**exclusive**):
/// a difference of exactly 1.00 is a finding. A difference that cannot be
/// represented is not within the slack.
pub fn within_vat_tolerance(stated: Dec, expected: Dec) -> (r: bool)
    ensures
        sub_fits(stated, expected) ==> r == within_one(stated, expected),
{
    match stated.checked_sub(&expected) {
        Some(d) => {
            let a = d.abs();
            let one = vat_tolerance();
            let res = a.value_lt(&one);
            proof {
                if sub_fits(stated, expected) {
                    let k = max_scale(stated, expected);
                    let c = pow10((k - d.s()) as nat);
                    lemma_pow10_pos((k - d.s()) as nat);
                    lemma_pow10_add(d.s(), (k - d.s()) as nat);
                    lemma_pow10_pos(d.s());
                    assert(pow10(0) == 1);
                    let q = pow10(d.s());
                    assert(res == (abs_int(d.m()) < q));
                    assert((abs_int(d.m()) < q) == (abs_int(d.m() * c) < q * c)) by (nonlinear_arith)
                        requires
                            c > 0,
                            q > 0,
                    ;
                }
            }
            res
        },
        None => false,
    }
}

} // verus!
