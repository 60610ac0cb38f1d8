//! [`Dec`]: a decimal number held as plain values (mantissa and scale).
//!
//! The value of `Dec { m, s }` is `m / 10^s`. Arithmetic that the library
//! needs is carried out by `rust_decimal`; the wrappers below convert one
//! for one between [`Dec`] and `rust_decimal::Decimal` around each call.
use vstd::prelude::*;
use rust_decimal::Decimal;
use std::str::FromStr;

verus! {

/// Largest magnitude of a 96-bit mantissa.
pub const MAX_MANTISSA: i128 = 79228162514264337593543950335i128;

/// Largest scale (number of fraction digits).
pub const MAX_SCALE: u32 = 28u32;

/// Decimal number `m / 10^s` with `|m| < 2^96` and `s <= 28`.
#[derive(Debug, Clone, Copy)]
pub struct Dec {
    mantissa: i128,
    scale: u32,
}

impl Dec {
    /// Signed mantissa.
    pub closed spec fn m(self) -> int {
        self.mantissa as int
    }

    /// Number of fraction digits.
    pub closed spec fn s(self) -> nat {
        self.scale as nat
    }

    #[verifier::type_invariant]
    closed spec fn inv(self) -> bool {
        dec_wf(self)
    }
}

/// `10^n`.
pub open spec fn pow10(n: nat) -> int
    decreases n,
{
    if n == 0 {
        1
    } else {
        10 * pow10((n - 1) as nat)
    }
}

/// Mantissa and scale within the 96-bit / 28-digit limits.
pub open spec fn dec_wf(d: Dec) -> bool {
    -MAX_MANTISSA <= d.m() <= MAX_MANTISSA && d.s() <= MAX_SCALE
}

/// The mantissa of `d` when written at scale `k` (`k >= d.s()`).
pub open spec fn scaled(d: Dec, k: nat) -> int {
    d.m() * pow10((k - d.s()) as nat)
}

/// Larger of two scales.
pub open spec fn max_scale(a: Dec, b: Dec) -> nat {
    if a.s() >= b.s() { a.s() as nat } else { b.s() as nat }
}

/// A value given by its hundredths-like scaling `d` at scale `k` equals
/// `net` exactly when `d · 10^net.s == net.m · 10^k`.
pub proof fn lemma_same_value_at(x: Dec, k: nat, d: int, net: Dec)
    requires
        x.s() <= k,
        scaled(x, k) == d,
    ensures
        same_value(x, net) == (d * pow10(net.s()) == net.m() * pow10(k)),
{
    let p = pow10((k - x.s()) as nat);
    lemma_pow10_pos((k - x.s()) as nat);
    lemma_pow10_add(x.s(), (k - x.s()) as nat);
    assert(pow10(k) == pow10(x.s()) * p);
    let a = x.m() * pow10(net.s());
    let b = net.m() * pow10(x.s());
    assert(d * pow10(net.s()) == a * p) by (nonlinear_arith)
        requires
            d == x.m() * p,
            a == x.m() * pow10(net.s()),
    ;
    assert(net.m() * pow10(k) == b * p) by (nonlinear_arith)
        requires
            pow10(k) == pow10(x.s()) * p,
            b == net.m() * pow10(x.s()),
    ;
    assert((a == b) == (a * p == b * p)) by (nonlinear_arith)
        requires
            p > 0,
    ;
}

/// The decimal zero (mantissa 0, scale 0).
pub closed spec fn zero_dec() -> Dec {
    Dec { mantissa: 0, scale: 0 }
}

/// Decimals with the same mantissa and scale are the same.
pub proof fn lemma_dec_eq(a: Dec, b: Dec)
    requires
        a.m() == b.m(),
        a.s() == b.s(),
    ensures
        a == b,
{
}

/// The parts of [`zero_dec`].
pub proof fn lemma_zero_dec()
    ensures
        zero_dec().m() == 0,
        zero_dec().s() == 0,
{
}

/// No trailing zero in the fraction: the normal form of a value.
pub open spec fn is_normal(n: Dec) -> bool {
    n.s() == 0 || n.m() % 10 != 0
}

/// Text of the normal form of a value (`19.00` shows as `19`).
pub open spec fn normal_text(d: Dec) -> Seq<char> {
    decimal_text(choose|n: Dec| same_value(n, d) && is_normal(n))
}

proof fn lemma_normal_unique_le(a: Dec, b: Dec)
    requires
        same_value(a, b),
        is_normal(b),
        a.s() <= b.s(),
    ensures
        a.m() == b.m(),
        a.s() == b.s(),
{
    let k = (b.s() - a.s()) as nat;
    lemma_pow10_add(a.s(), k);
    lemma_pow10_pos(a.s());
    let pa = pow10(a.s());
    let pk = pow10(k);
    assert(a.m() * pow10(b.s()) == b.m() * pa);
    assert((a.m() * pk) * pa == b.m() * pa) by (nonlinear_arith)
        requires
            a.m() * pow10(b.s()) == b.m() * pa,
            pow10(b.s()) == pa * pk,
    ;
    lemma_cancel(a.m() * pk, b.m(), pa);
    if k > 0 {
        assert(pk == 10 * pow10((k - 1) as nat));
        let q = a.m() * pow10((k - 1) as nat);
        assert(b.m() == 10 * q) by (nonlinear_arith)
            requires
                b.m() == a.m() * pk,
                pk == 10 * pow10((k - 1) as nat),
                q == a.m() * pow10((k - 1) as nat),
        ;
        assert((10 * q) % 10 == 0) by (nonlinear_arith);
    }
}

/// Two normal forms of one value are the same.
pub proof fn lemma_normal_unique(a: Dec, b: Dec)
    requires
        same_value(a, b),
        is_normal(a),
        is_normal(b),
    ensures
        a.m() == b.m(),
        a.s() == b.s(),
{
    if a.s() <= b.s() {
        lemma_normal_unique_le(a, b);
    } else {
        lemma_normal_unique_le(b, a);
    }
}

/// The text of a normal form of the value is [`normal_text`].
pub proof fn lemma_normal_text(n: Dec, d: Dec)
    requires
        same_value(n, d),
        is_normal(n),
    ensures
        decimal_text(n) == normal_text(d),
{
    let c = choose|x: Dec| same_value(x, d) && is_normal(x);
    assert(same_value(c, d) && is_normal(c));
    lemma_same_value_sym_trans(n, c, d);
    lemma_normal_unique(n, c);
}

/// `same_value(a, d)` and `same_value(b, d)` give `same_value(a, b)`.
proof fn lemma_same_value_sym_trans(a: Dec, b: Dec, d: Dec)
    requires
        same_value(a, d),
        same_value(b, d),
    ensures
        same_value(a, b),
{
    let pa = pow10(a.s());
    let pb = pow10(b.s());
    let pd = pow10(d.s());
    lemma_pow10_pos(d.s());
    assert(a.m() * pb * pd == b.m() * pa * pd) by (nonlinear_arith)
        requires
            a.m() * pd == d.m() * pa,
            b.m() * pd == d.m() * pb,
    ;
    lemma_cancel(a.m() * pb, b.m() * pa, pd);
}

/// `10^(a+b) == 10^a * 10^b`.
pub proof fn lemma_pow10_add(a: nat, b: nat)
    ensures
        pow10(a + b) == pow10(a) * pow10(b),
    decreases b,
{
    if b > 0 {
        lemma_pow10_add(a, (b - 1) as nat);
        assert(pow10(a + b) == 10 * pow10((a + b - 1) as nat));
        assert(pow10(a) * pow10(b) == pow10(a) * (10 * pow10((b - 1) as nat)));
        assert(pow10(a) * (10 * pow10((b - 1) as nat)) == 10 * (pow10(a) * pow10((b - 1) as nat)))
            by (nonlinear_arith);
    }
}

/// `10^n` is positive.
pub proof fn lemma_pow10_pos(n: nat)
    ensures
        pow10(n) > 0,
    decreases n,
{
    if n > 0 {
        lemma_pow10_pos((n - 1) as nat);
    }
}

/// `10^n` grows with `n`.
pub proof fn lemma_pow10_mono(a: nat, b: nat)
    requires
        a <= b,
    ensures
        pow10(a) <= pow10(b),
    decreases b,
{
    if a < b {
        lemma_pow10_mono(a, (b - 1) as nat);
        lemma_pow10_pos((b - 1) as nat);
    }
}

/// Cancel a positive factor.
pub proof fn lemma_cancel(x: int, y: int, p: int)
    requires
        p > 0,
        x * p == y * p,
    ensures
        x == y,
{
    assert(x == y) by (nonlinear_arith)
        requires
            p > 0,
            x * p == y * p,
    ;
}

/// Equal values have equal mantissas at any common larger scale.
pub proof fn lemma_same_value_scaled(a: Dec, b: Dec, k: nat)
    requires
        same_value(a, b),
        a.s() <= k,
        b.s() <= k,
    ensures
        scaled(a, k) == scaled(b, k),
{
    let pa = pow10((k - a.s()) as nat);
    let pb = pow10((k - b.s()) as nat);
    lemma_pow10_add((k - a.s()) as nat, a.s());
    lemma_pow10_add((k - b.s()) as nat, b.s());
    lemma_pow10_pos(b.s());
    lemma_pow10_pos(a.s());
    let qa = pow10(a.s());
    let qb = pow10(b.s());
    assert(a.m() * qb == b.m() * qa);
    assert(pa * qa == pow10(k));
    assert(pb * qb == pow10(k));
    assert((a.m() * pa) * qb == (b.m() * pb) * qb) by (nonlinear_arith)
        requires
            a.m() * qb == b.m() * qa,
            pa * qa == pb * qb,
    ;
    lemma_cancel(a.m() * pa, b.m() * pb, qb);
}

/// Both operands and their sum representable at the larger scale.
pub open spec fn add_fits(a: Dec, b: Dec) -> bool {
    &&& fits96(scaled(a, max_scale(a, b)))
    &&& fits96(scaled(b, max_scale(a, b)))
    &&& fits96(scaled(a, max_scale(a, b)) + scaled(b, max_scale(a, b)))
}

/// Both operands and their difference representable at the larger scale.
pub open spec fn sub_fits(a: Dec, b: Dec) -> bool {
    &&& fits96(scaled(a, max_scale(a, b)))
    &&& fits96(scaled(b, max_scale(a, b)))
    &&& fits96(scaled(a, max_scale(a, b)) - scaled(b, max_scale(a, b)))
}

/// Product of mantissas within 96 bits and the scales' sum within 28.
pub open spec fn mul_fits(a: Dec, b: Dec) -> bool {
    fits96(a.m() * b.m()) && a.s() + b.s() <= MAX_SCALE
}

/// Division by the integer 100 whose quotient is exact at two more digits.
pub open spec fn div100_exact(a: Dec, b: Dec) -> bool {
    b.m() == 100 && b.s() == 0 && fits96(a.m() * 100) && a.s() + 2 <= MAX_SCALE
}

/// Value equality (`19 == 19.00`).
pub open spec fn same_value(a: Dec, b: Dec) -> bool {
    a.m() * pow10(b.s() as nat) == b.m() * pow10(a.s() as nat)
}

/// Value order `a < b`.
pub open spec fn value_lt(a: Dec, b: Dec) -> bool {
    a.m() * pow10(b.s() as nat) < b.m() * pow10(a.s() as nat)
}

/// Magnitude below 2^96.
pub open spec fn fits96(x: int) -> bool {
    -MAX_MANTISSA <= x <= MAX_MANTISSA
}

/// `|x|`.
pub open spec fn abs_int(x: int) -> int {
    if x < 0 { -x } else { x }
}

/// Floor division by a positive divisor.
pub open spec fn floor_div(x: int, d: int) -> int {
    x / d
}

/// `Decimal::from_str` on a text (its result depends on the text alone).
pub uninterp spec fn decimal_parse(s: Seq<char>) -> Option<Dec>;

/// The decimal one (mantissa 1, scale 0).
pub closed spec fn unit_dec() -> Dec {
    Dec { mantissa: 1, scale: 0 }
}

/// The decimal one hundred (mantissa 100, scale 0).
pub closed spec fn hundred_dec() -> Dec {
    Dec { mantissa: 100, scale: 0 }
}

/// What `Decimal::checked_add` gives for two decimals.
pub uninterp spec fn dec_sum(a: Dec, b: Dec) -> Option<Dec>;

/// What `Decimal::checked_sub` gives for two decimals.
pub uninterp spec fn dec_difference(a: Dec, b: Dec) -> Option<Dec>;

/// What `Decimal::checked_mul` gives for two decimals.
pub uninterp spec fn dec_product(a: Dec, b: Dec) -> Option<Dec>;

/// What `Decimal::checked_div` gives for two decimals.
pub uninterp spec fn dec_quotient(a: Dec, b: Dec) -> Option<Dec>;

/// Decimal digits of a natural number, most significant first (`0` is `"0"`).
pub open spec fn digits(n: nat) -> Seq<char>
    decreases n,
{
    if n < 10 {
        seq![(('0' as u8) + (n as u8)) as char]
    } else {
        digits(n / 10).push((('0' as u8) + ((n % 10) as u8)) as char)
    }
}

/// `digits(n)` left-padded with zeros to at least `w` characters.
pub open spec fn padded(n: nat, w: nat) -> Seq<char> {
    let d = digits(n);
    if d.len() >= w {
        d
    } else {
        Seq::new((w - d.len()) as nat, |i: int| '0') + d
    }
}

/// The text `Display` writes for `m / 10^s`: sign, whole digits, and exactly
/// `s` fraction digits after a point when `s > 0`.
pub open spec fn decimal_text(d: Dec) -> Seq<char> {
    let mag = abs_int(d.m() as int) as nat;
    let sign = if d.m() < 0 { seq!['-'] } else { Seq::<char>::empty() };
    if d.s() == 0 {
        sign + digits(mag)
    } else {
        let p = pow10(d.s() as nat) as nat;
        sign + digits(mag / p) + seq!['.'] + padded(mag % p, d.s() as nat)
    }
}

/// Mantissa of `d` rounded half away from zero to `dp` fraction digits (`d.s() > dp`).
pub open spec fn round_half_away(d: Dec, dp: nat) -> int {
    let p = pow10((d.s() - dp) as nat);
    let mag = abs_int(d.m() as int);
    let r = (mag + p / 2) / p;
    if d.m() < 0 { -r } else { r }
}


/// Error of [`Dec::parse`].
#[derive(Debug, Clone, Copy, PartialEq, Eq)]
pub enum DecimalError {
    /// Not a decimal number that `rust_decimal` accepts.
    Invalid,
}

impl Dec {
    /// `m / 10^s` (as `Decimal::new`).
    pub fn new(m: i64, s: u32) -> (r: Dec)
        requires
            s <= MAX_SCALE,
        ensures
            r.m() == m,
            r.s() == s,
    {
        Dec { mantissa: m as i128, scale: s }
    }

    /// Zero.
    pub fn zero() -> (r: Dec)
        ensures
            r.m() == 0,
            r.s() == 0,
            r == zero_dec(),
    {
        Dec { mantissa: 0, scale: 0 }
    }

    /// One.
    pub fn one() -> (r: Dec)
        ensures
            r.m() == 1,
            r.s() == 0,
            r == unit_dec(),
    {
        Dec { mantissa: 1, scale: 0 }
    }

    /// One hundred.
    pub fn hundred() -> (r: Dec)
        ensures
            r.m() == 100,
            r.s() == 0,
            r == hundred_dec(),
    {
        Dec { mantissa: 100, scale: 0 }
    }

    /// Parse decimal text with `rust_decimal` (`Decimal::from_str`).
    pub fn parse(s: &str) -> (r: Result<Dec, DecimalError>)
        ensures
            r is Ok <==> decimal_parse(s@) is Some,
            r matches Ok(d) ==> decimal_parse(s@) == Some(d),
    {
        match decimal_from_str(s) {
            Ok(d) => Ok(d),
            Err(_) => Err(DecimalError::Invalid),
        }
    }

    /// Signed mantissa.
    pub fn mantissa(&self) -> (r: i128)
        ensures
            r == self.m(),
            fits96(r as int),
    {
        proof {
            use_type_invariant(self);
        }
        self.mantissa
    }

    /// Number of fraction digits.
    pub fn scale(&self) -> (r: u32)
        ensures
            r == self.s(),
            r <= MAX_SCALE,
    {
        proof {
            use_type_invariant(self);
        }
        self.scale
    }

    /// Whether the value is zero.
    pub fn is_zero(&self) -> (r: bool)
        ensures
            r == (self.m() == 0),
    {
        self.mantissa == 0
    }

    /// Whether the value is below zero.
    pub fn is_sign_negative(&self) -> (r: bool)
        ensures
            r == (self.m() < 0),
    {
        self.mantissa < 0
    }

    /// Absolute value, same scale.
    pub fn abs(&self) -> (r: Dec)
        ensures
            r.m() == abs_int(self.m()),
            r.s() == self.s(),
    {
        proof {
            use_type_invariant(self);
        }
        if self.mantissa < 0 {
            Dec { mantissa: -self.mantissa, scale: self.scale }
        } else {
            *self
        }
    }

    /// `Decimal::checked_add`.
    pub fn checked_add(&self, other: &Dec) -> (r: Option<Dec>)
        ensures
            r == dec_sum(*self, *other),
            r is None ==> !add_fits(*self, *other),
            r matches Some(x) ==> (add_fits(*self, *other) ==> x.s() <= max_scale(*self, *other) && scaled(
                x,
                max_scale(*self, *other),
            ) == scaled(*self, max_scale(*self, *other)) + scaled(*other, max_scale(*self, *other))),
    {
        proof {
            use_type_invariant(self);
            use_type_invariant(other);
        }
        decimal_checked_add(*self, *other)
    }

    /// `Decimal::checked_sub`.
    pub fn checked_sub(&self, other: &Dec) -> (r: Option<Dec>)
        ensures
            r == dec_difference(*self, *other),
            r is None ==> !sub_fits(*self, *other),
            r matches Some(x) ==> (sub_fits(*self, *other) ==> x.s() <= max_scale(*self, *other) && scaled(
                x,
                max_scale(*self, *other),
            ) == scaled(*self, max_scale(*self, *other)) - scaled(*other, max_scale(*self, *other))),
    {
        proof {
            use_type_invariant(self);
            use_type_invariant(other);
        }
        decimal_checked_sub(*self, *other)
    }

    /// `Decimal::checked_mul`.
    pub fn checked_mul(&self, other: &Dec) -> (r: Option<Dec>)
        ensures
            r == dec_product(*self, *other),
            r is None ==> !mul_fits(*self, *other),
            r matches Some(x) ==> (mul_fits(*self, *other) ==> x.s() <= self.s() + other.s() && scaled(
                x,
                (self.s() + other.s()) as nat,
            ) == self.m() * other.m()),
    {
        proof {
            use_type_invariant(self);
            use_type_invariant(other);
        }
        decimal_checked_mul(*self, *other)
    }

    /// `Decimal::checked_div`.
    pub fn checked_div(&self, other: &Dec) -> (r: Option<Dec>)
        ensures
            r == dec_quotient(*self, *other),
            r is None ==> !(other.m() == 100 && other.s() == 0),
            r matches Some(x) ==> (div100_exact(*self, *other) ==> x.s() <= self.s() + 2 && scaled(
                x,
                (self.s() + 2) as nat,
            ) == self.m()),
    {
        proof {
            use_type_invariant(self);
            use_type_invariant(other);
        }
        decimal_checked_div(*self, *other)
    }

    /// `Decimal::floor`.
    pub fn floor(&self) -> (r: Dec)
        ensures
            r.s() == 0,
            r.m() == floor_div(self.m(), pow10(self.s())),
    {
        proof {
            use_type_invariant(self);
        }
        decimal_floor(*self)
    }

    /// `Decimal::round_dp_with_strategy(dp, MidpointAwayFromZero)`.
    pub fn round_dp_half_away(&self, dp: u32) -> (r: Dec)
        ensures
            self.s() <= dp ==> r == *self,
            self.s() > dp ==> r.s() == dp && r.m() == round_half_away(*self, dp as nat),
    {
        proof {
            use_type_invariant(self);
        }
        decimal_round_half_away(*self, dp)
    }

    /// `Decimal::normalize`.
    pub fn normalize(&self) -> (r: Dec)
        ensures
            same_value(r, *self),
            r.s() <= self.s(),
            r.s() == 0 || r.m() % 10 != 0,
    {
        proof {
            use_type_invariant(self);
        }
        decimal_normalize(*self)
    }

    /// Value equality (`19 == 19.00`).
    pub fn value_eq(&self, other: &Dec) -> (r: bool)
        ensures
            r == same_value(*self, *other),
    {
        proof {
            use_type_invariant(self);
            use_type_invariant(other);
        }
        decimal_eq(*self, *other)
    }

    /// Value order.
    pub fn value_lt(&self, other: &Dec) -> (r: bool)
        ensures
            r == value_lt(*self, *other),
    {
        proof {
            use_type_invariant(self);
            use_type_invariant(other);
        }
        decimal_lt(*self, *other)
    }

    /// `Display` text.
    pub fn to_string(&self) -> (r: String)
        ensures
            r@ == decimal_text(*self),
    {
        proof {
            use_type_invariant(self);
        }
        decimal_to_string(*self)
    }
}

impl PartialEq for Dec {
    fn eq(&self, other: &Self) -> (r: bool) {
        self.value_eq(other)
    }
}

impl vstd::std_specs::cmp::PartialEqSpecImpl for Dec {
    open spec fn obeys_eq_spec() -> bool {
        true
    }

    open spec fn eq_spec(&self, other: &Self) -> bool {
        same_value(*self, *other)
    }
}

/// Outside `Decimal` carried only as the error of a parse.
#[verifier::external_type_specification]
#[verifier::external_body]
pub struct ExDecimalError(rust_decimal::Error);

/// Calls `Decimal::from_str`. Claims only that the outcome is the named
/// [`decimal_parse`] of the text, and that an accepted value is well formed.
#[verifier::external_body]
pub(crate) fn decimal_from_str(s: &str) -> (r: Result<Dec, rust_decimal::Error>)
    ensures
        r is Ok <==> decimal_parse(s@) is Some,
        r matches Ok(d) ==> decimal_parse(s@) == Some(d) && dec_wf(d),
{
    match Decimal::from_str(s) {
        Ok(d) => Ok(Dec { mantissa: d.mantissa(), scale: d.scale() }),
        Err(e) => Err(e),
    }
}

/// Calls `Decimal::checked_add`. When both operands and their sum are
/// representable at the larger scale, the result is the exact sum at a scale
/// no larger than that; any result is well formed. Otherwise (rounding to a
/// smaller scale, or `None`) nothing more is claimed than that the outcome is
/// [`dec_sum`] of the operands, the same for the same operands.
#[verifier::external_body]
pub(crate) fn decimal_checked_add(a: Dec, b: Dec) -> (r: Option<Dec>)
    requires
        dec_wf(a),
        dec_wf(b),
    ensures
        r == dec_sum(a, b),
        r matches Some(x) ==> dec_wf(x),
        r is None ==> !add_fits(a, b),
        r matches Some(x) ==> (add_fits(a, b) ==> x.s() <= max_scale(a, b) && scaled(x, max_scale(a, b))
            == scaled(a, max_scale(a, b)) + scaled(b, max_scale(a, b))),
{
    let x = Decimal::from_i128_with_scale(a.mantissa, a.scale);
    let y = Decimal::from_i128_with_scale(b.mantissa, b.scale);
    x.checked_add(y).map(|d| Dec { mantissa: d.mantissa(), scale: d.scale() })
}

/// Calls `Decimal::checked_sub`; the same claims as [`decimal_checked_add`]
/// for the exact difference, the outcome named [`dec_difference`].
#[verifier::external_body]
pub(crate) fn decimal_checked_sub(a: Dec, b: Dec) -> (r: Option<Dec>)
    requires
        dec_wf(a),
        dec_wf(b),
    ensures
        r == dec_difference(a, b),
        r matches Some(x) ==> dec_wf(x),
        r is None ==> !sub_fits(a, b),
        r matches Some(x) ==> (sub_fits(a, b) ==> x.s() <= max_scale(a, b) && scaled(x, max_scale(a, b))
            == scaled(a, max_scale(a, b)) - scaled(b, max_scale(a, b))),
{
    let x = Decimal::from_i128_with_scale(a.mantissa, a.scale);
    let y = Decimal::from_i128_with_scale(b.mantissa, b.scale);
    x.checked_sub(y).map(|d| Dec { mantissa: d.mantissa(), scale: d.scale() })
}

/// Calls `Decimal::checked_mul`. When the product of the mantissas fits 96
/// bits and the scales add up to at most 28, the result is the exact product
/// at a scale no larger than their sum; any result is well formed. The
/// outcome is [`dec_product`] of the operands.
#[verifier::external_body]
pub(crate) fn decimal_checked_mul(a: Dec, b: Dec) -> (r: Option<Dec>)
    requires
        dec_wf(a),
        dec_wf(b),
    ensures
        r == dec_product(a, b),
        r matches Some(x) ==> dec_wf(x),
        r is None ==> !mul_fits(a, b),
        r matches Some(x) ==> (mul_fits(a, b) ==> x.s() <= a.s() + b.s() && scaled(x, (a.s() + b.s()) as nat)
            == a.m() * b.m()),
{
    let x = Decimal::from_i128_with_scale(a.mantissa, a.scale);
    let y = Decimal::from_i128_with_scale(b.mantissa, b.scale);
    x.checked_mul(y).map(|d| Dec { mantissa: d.mantissa(), scale: d.scale() })
}

/// Calls `Decimal::checked_div`. Claimed: any result is well formed; a
/// division by a hundred always succeeds, and is exact when the dividend's
/// mantissa times a hundred still fits 96 bits and its scale is at most 26.
/// For any divisor the outcome is [`dec_quotient`] of the operands.
#[verifier::external_body]
pub(crate) fn decimal_checked_div(a: Dec, b: Dec) -> (r: Option<Dec>)
    requires
        dec_wf(a),
        dec_wf(b),
    ensures
        r == dec_quotient(a, b),
        r matches Some(x) ==> dec_wf(x),
        r is None ==> !(b.m() == 100 && b.s() == 0),
        r matches Some(x) ==> (div100_exact(a, b) ==> x.s() <= a.s() + 2 && scaled(x, (a.s() + 2) as nat)
            == a.m()),
{
    let x = Decimal::from_i128_with_scale(a.mantissa, a.scale);
    let y = Decimal::from_i128_with_scale(b.mantissa, b.scale);
    x.checked_div(y).map(|d| Dec { mantissa: d.mantissa(), scale: d.scale() })
}

/// Calls `Decimal::floor`: the largest integer not above the value, at scale 0.
#[verifier::external_body]
pub(crate) fn decimal_floor(a: Dec) -> (r: Dec)
    requires
        dec_wf(a),
    ensures
        dec_wf(r),
        r.s() == 0,
        r.m() == floor_div(a.m() as int, pow10(a.s() as nat)),
{
    let d = Decimal::from_i128_with_scale(a.mantissa, a.scale).floor();
    Dec { mantissa: d.mantissa(), scale: d.scale() }
}

/// Calls `Decimal::round_dp_with_strategy(dp, MidpointAwayFromZero)`:
/// unchanged when it has at most `dp` fraction digits, else rounded half away
/// from zero to exactly `dp` digits.
#[verifier::external_body]
pub(crate) fn decimal_round_half_away(a: Dec, dp: u32) -> (r: Dec)
    requires
        dec_wf(a),
    ensures
        dec_wf(r),
        a.s() <= dp ==> r == a,
        a.s() > dp ==> r.s() == dp && r.m() == round_half_away(a, dp as nat),
{
    let d = Decimal::from_i128_with_scale(a.mantissa, a.scale).round_dp_with_strategy(
        dp,
        rust_decimal::RoundingStrategy::MidpointAwayFromZero,
    );
    Dec { mantissa: d.mantissa(), scale: d.scale() }
}

/// Calls `Decimal::normalize`: the same value without trailing fraction zeros.
#[verifier::external_body]
pub(crate) fn decimal_normalize(a: Dec) -> (r: Dec)
    requires
        dec_wf(a),
    ensures
        dec_wf(r),
        same_value(r, a),
        r.s() <= a.s(),
        r.s() == 0 || r.m() % 10 != 0,
{
    let d = Decimal::from_i128_with_scale(a.mantissa, a.scale).normalize();
    Dec { mantissa: d.mantissa(), scale: d.scale() }
}

/// Calls `Decimal == Decimal`, which compares values.
#[verifier::external_body]
pub(crate) fn decimal_eq(a: Dec, b: Dec) -> (r: bool)
    requires
        dec_wf(a),
        dec_wf(b),
    ensures
        r == same_value(a, b),
{
    Decimal::from_i128_with_scale(a.mantissa, a.scale) == Decimal::from_i128_with_scale(b.mantissa, b.scale)
}

/// Calls `Decimal < Decimal`, which compares values.
#[verifier::external_body]
pub(crate) fn decimal_lt(a: Dec, b: Dec) -> (r: bool)
    requires
        dec_wf(a),
        dec_wf(b),
    ensures
        r == value_lt(a, b),
{
    Decimal::from_i128_with_scale(a.mantissa, a.scale) < Decimal::from_i128_with_scale(b.mantissa, b.scale)
}

/// Calls `Decimal`'s `Display` through `format!`.
#[verifier::external_body]
pub(crate) fn decimal_to_string(a: Dec) -> (r: String)
    requires
        dec_wf(a),
    ensures
        r@ == decimal_text(a),
{
    format!("{}", Decimal::from_i128_with_scale(a.mantissa, a.scale))
}

} // verus!
