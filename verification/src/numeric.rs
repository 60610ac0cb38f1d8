//! [`Quantity`] (signed, not money) and [`Percentage`] (per cent, not a fraction).
use vstd::prelude::*;
use crate::dec::{Dec, DecimalError, MAX_SCALE, decimal_parse, decimal_text, fits96, normal_text, same_value, scaled, value_lt};
use crate::text::{trim, trim_str};

verus! {

/// Signed quantity (BT-129, BT-149). May be negative. Not money.
#[derive(Debug, Clone, Copy)]
pub struct Quantity(Dec);

impl Quantity {
    /// The decimal held.
    pub closed spec fn dec(self) -> Dec {
        self.0
    }

    /// Zero quantity.
    pub fn zero() -> (r: Self)
        ensures
            r.dec().m() == 0,
            r.dec().s() == 0,
    {
        Quantity(Dec::zero())
    }

    /// Quantity one.
    pub fn one() -> (r: Self)
        ensures
            r.dec().m() == 1,
            r.dec().s() == 0,
    {
        Quantity(Dec::one())
    }

    /// Signed quantity. May be negative. Not money.
    pub fn new(value: Dec) -> (r: Self)
        ensures
            r.dec() == value,
    {
        Quantity(value)
    }

    /// Parse a decimal text (surrounding whitespace ignored). Negatives allowed.
    pub fn parse(s: &str) -> (r: Result<Self, DecimalError>)
        ensures
            r is Ok <==> decimal_parse(trim(s@)) is Some,
            r matches Ok(q) ==> decimal_parse(trim(s@)) == Some(q.dec()),
    {
        let t = trim_str(s);
        match Dec::parse(t) {
            Ok(d) => Ok(Quantity(d)),
            Err(e) => Err(e),
        }
    }

    /// Underlying decimal.
    pub fn raw(self) -> (r: Dec)
        ensures
            r == self.dec(),
    {
        self.0
    }

    /// True when the value is strictly negative.
    pub fn is_negative(self) -> (r: bool)
        ensures
            r == (self.dec().m() < 0),
    {
        self.0.is_sign_negative() && !self.0.is_zero()
    }

    /// Display text.
    pub fn to_string(self) -> (r: String)
        ensures
            r@ == decimal_text(self.dec()),
    {
        self.0.to_string()
    }
}

impl PartialEq for Quantity {
    fn eq(&self, other: &Self) -> (r: bool) {
        self.0.value_eq(&other.0)
    }
}

impl vstd::std_specs::cmp::PartialEqSpecImpl for Quantity {
    open spec fn obeys_eq_spec() -> bool {
        true
    }

    open spec fn eq_spec(&self, other: &Self) -> bool {
        same_value(self.dec(), other.dec())
    }
}

/// Per cent (`19` means 19%), not a fraction. `19` and `19.00` compare equal.
#[derive(Debug, Clone, Copy)]
pub struct Percentage(Dec);

impl Percentage {
    /// The decimal held (per cent).
    pub closed spec fn dec(self) -> Dec {
        self.0
    }

    /// Zero per cent.
    pub fn zero() -> (r: Self)
        ensures
            r.dec().m() == 0,
            r.dec().s() == 0,
    {
        Percentage(Dec::zero())
    }

    /// Per cent (`19` means 19%), not a fraction.
    pub fn new(percent: Dec) -> (r: Self)
        ensures
            r.dec() == percent,
    {
        Percentage(percent)
    }

    /// Convert a fraction (`0.19` → 19%), trailing zeros dropped. `None` on overflow.
    pub fn from_fraction(fraction: Dec) -> (r: Option<Self>)
        ensures
            r is None ==> !(fits96(fraction.m() * 100) && fraction.s() <= MAX_SCALE),
            r matches Some(p) ==> (fits96(fraction.m() * 100) && fraction.s() <= MAX_SCALE ==> scaled(
                p.dec(),
                fraction.s(),
            ) == fraction.m() * 100 && p.dec().s() <= fraction.s()),
    {
        let hundred = Dec::hundred();
        match fraction.checked_mul(&hundred) {
            Some(d) => {
                let n = d.normalize();
                proof {
                    if fits96(fraction.m() * 100) && fraction.s() <= MAX_SCALE {
                        crate::dec::lemma_same_value_scaled(n, d, fraction.s());
                    }
                }
                Some(Percentage(n))
            },
            None => None,
        }
    }

    /// Stored per-cent value (`19` for 19%).
    pub fn as_percent(self) -> (r: Dec)
        ensures
            r == self.dec(),
    {
        self.0
    }

    /// Fraction (`0.19` for 19%).
    pub fn as_fraction(self) -> (r: Dec)
        ensures
            fits96(self.dec().m() * 100) && self.dec().s() + 2 <= MAX_SCALE ==> r.s() <= self.dec().s() + 2 && scaled(
                r,
                (self.dec().s() + 2) as nat,
            ) == self.dec().m(),
    {
        let hundred = Dec::hundred();
        match self.0.checked_div(&hundred) {
            Some(d) => d,
            None => self.0,
        }
    }

    /// Whether the rate is 0%.
    pub fn is_zero(self) -> (r: bool)
        ensures
            r == (self.dec().m() == 0),
    {
        self.0.is_zero()
    }

    /// Whether the rate is strictly greater than 0%.
    pub fn is_positive(self) -> (r: bool)
        ensures
            r == (self.dec().m() > 0),
    {
        let z = Dec::zero();
        z.value_lt(&self.0)
    }

    /// Whether the rate is strictly less than 0%.
    pub fn is_negative(self) -> (r: bool)
        ensures
            r == (self.dec().m() < 0),
    {
        let z = Dec::zero();
        self.0.value_lt(&z)
    }

    /// Value order.
    pub fn lt(self, other: Self) -> (r: bool)
        ensures
            r == value_lt(self.dec(), other.dec()),
    {
        self.0.value_lt(&other.0)
    }

    /// Display text of the normalized value (`19.00` shows as `19`).
    pub fn to_string(self) -> (r: String)
        ensures
            exists|n: Dec| same_value(n, self.dec()) && r@ == decimal_text(n) && (n.s() == 0 || n.m() % 10
                != 0),
            r@ == normal_text(self.dec()),
    {
        let n = self.0.normalize();
        proof {
            crate::dec::lemma_normal_text(n, self.dec());
        }
        n.to_string()
    }
}

impl PartialEq for Percentage {
    fn eq(&self, other: &Self) -> (r: bool) {
        self.0.value_eq(&other.0)
    }
}

impl vstd::std_specs::cmp::PartialEqSpecImpl for Percentage {
    open spec fn obeys_eq_spec() -> bool {
        true
    }

    open spec fn eq_spec(&self, other: &Self) -> bool {
        same_value(self.dec(), other.dec())
    }
}

} // verus!
