//! [`InvoiceAmount`] (at most two fraction digits, refuse excess) and
//! [`UnitPriceAmount`] (uncapped).
use vstd::prelude::*;
use crate::dec::{Dec, DecimalError, abs_int, add_fits, decimal_parse, decimal_text, fits96, max_scale, pow10, round_half_away, same_value, scaled, sub_fits};
use crate::error::AmountError;
use crate::text::{trim, trim_str};

verus! {

/// The value of a decimal with at most two fraction digits, in hundredths.
pub open spec fn cents_of(d: Dec) -> int {
    scaled(d, 2)
}

/// `10^0`, `10^1`, `10^2`.
pub proof fn lemma_pow10_small()
    ensures
        pow10(0) == 1,
        pow10(1) == 10,
        pow10(2) == 100,
{
    reveal_with_fuel(pow10, 3);
}

/// Hundredths carry the sign of the mantissa.
pub proof fn lemma_cents_sign(d: Dec)
    requires
        d.s() <= 2,
    ensures
        (d.m() < 0) == (cents_of(d) < 0),
{
    let p = pow10((2 - d.s()) as nat);
    crate::dec::lemma_pow10_pos((2 - d.s()) as nat);
    assert((d.m() < 0) == (d.m() * p < 0)) by (nonlinear_arith)
        requires
            p > 0,
    ;
}

/// At most one fraction digit: hundredths are ten times tenths.
pub proof fn lemma_cents_scale1(d: Dec)
    requires
        d.s() <= 1,
    ensures
        cents_of(d) == 10 * scaled(d, 1),
{
    lemma_pow10_small();
    if d.s() == 0 {
        assert(scaled(d, 1) == d.m() * 10);
        assert(cents_of(d) == d.m() * 100);
    } else {
        assert(scaled(d, 1) == d.m());
        assert(cents_of(d) == d.m() * 10);
    }
}

/// With two digits at most, addition that fits in hundredths fits at the larger scale,
/// and an exact result at the larger scale is the exact sum in hundredths.
pub proof fn lemma_add_cents(a: Dec, b: Dec, x: Dec)
    requires
        a.s() <= 2,
        b.s() <= 2,
        fits96(cents_of(a)),
        fits96(cents_of(b)),
        fits96(cents_of(a) + cents_of(b)),
    ensures
        add_fits(a, b),
        x.s() <= max_scale(a, b) && scaled(x, max_scale(a, b)) == scaled(a, max_scale(a, b)) + scaled(
            b,
            max_scale(a, b),
        ) ==> cents_of(x) == cents_of(a) + cents_of(b),
{
    lemma_pow10_small();
    let k = max_scale(a, b);
    assert(k <= 2);
    if k == 2 {
    } else if k == 1 {
        lemma_cents_scale1(a);
        lemma_cents_scale1(b);
        if x.s() <= 1 {
            lemma_cents_scale1(x);
        }
    } else {
        assert(a.s() == 0 && b.s() == 0);
        if x.s() == 0 {
        }
    }
}

/// The subtraction counterpart of [`lemma_add_cents`].
pub proof fn lemma_sub_cents(a: Dec, b: Dec, x: Dec)
    requires
        a.s() <= 2,
        b.s() <= 2,
        fits96(cents_of(a)),
        fits96(cents_of(b)),
        fits96(cents_of(a) - cents_of(b)),
    ensures
        sub_fits(a, b),
        x.s() <= max_scale(a, b) && scaled(x, max_scale(a, b)) == scaled(a, max_scale(a, b)) - scaled(
            b,
            max_scale(a, b),
        ) ==> cents_of(x) == cents_of(a) - cents_of(b),
{
    lemma_pow10_small();
    let k = max_scale(a, b);
    assert(k <= 2);
    if k == 2 {
        assert(scaled(a, k) == cents_of(a));
        assert(scaled(b, k) == cents_of(b));
        assert(scaled(x, k) == cents_of(x));
    } else if k == 1 {
        lemma_cents_scale1(a);
        lemma_cents_scale1(b);
        if x.s() <= 1 {
            lemma_cents_scale1(x);
        }
        assert(scaled(a, k) == scaled(a, 1));
        assert(scaled(b, k) == scaled(b, 1));
        assert(scaled(x, k) == scaled(x, 1));
    } else {
        assert(a.s() == 0 && b.s() == 0);
        assert(scaled(a, k) == a.m());
        assert(scaled(b, k) == b.m());
        assert(cents_of(a) == 100 * a.m());
        assert(cents_of(b) == 100 * b.m());
        if x.s() == 0 {
            assert(scaled(x, k) == x.m());
            assert(cents_of(x) == 100 * x.m());
        }
    }
}

/// Value equality of two-digit decimals is equality in hundredths.
pub proof fn lemma_same_value_cents(a: Dec, b: Dec)
    requires
        a.s() <= 2,
        b.s() <= 2,
    ensures
        same_value(a, b) <==> cents_of(a) == cents_of(b),
{
    lemma_pow10_small();
    if a.s() == 0 {
        if b.s() == 0 {
        } else if b.s() == 1 {
        } else {
        }
    } else if a.s() == 1 {
        if b.s() == 0 {
        } else if b.s() == 1 {
        } else {
        }
    } else {
        if b.s() == 0 {
        } else if b.s() == 1 {
        } else {
        }
    }
}

/// EN 16931 Amount.Type: at most two fraction digits. Never rounds.
#[derive(Debug, Clone, Copy)]
pub struct InvoiceAmount(Dec);

/// Sum in hundredths of a sequence of amounts.
pub open spec fn cents_sum(s: Seq<InvoiceAmount>) -> int
    decreases s.len(),
{
    if s.len() == 0 {
        0
    } else {
        cents_sum(s.drop_last()) + s.last().cents()
    }
}

/// Every amount and every running total of `s` is representable in hundredths.
pub open spec fn sum_fits(s: Seq<InvoiceAmount>) -> bool {
    &&& forall|i: int| 0 <= i < s.len() ==> fits96(#[trigger] s[i].cents())
    &&& forall|k: int| 0 <= k <= s.len() ==> fits96(#[trigger] cents_sum(s.take(k)))
}

/// Two amounts and their sum representable in hundredths.
pub open spec fn add_fits_cents(a: InvoiceAmount, b: InvoiceAmount) -> bool {
    fits96(a.cents()) && fits96(b.cents()) && fits96(a.cents() + b.cents())
}

/// Two amounts and their difference representable in hundredths.
pub open spec fn sub_fits_cents(a: InvoiceAmount, b: InvoiceAmount) -> bool {
    fits96(a.cents()) && fits96(b.cents()) && fits96(a.cents() - b.cents())
}

impl InvoiceAmount {
    #[verifier::type_invariant]
    spec fn inv(self) -> bool {
        self.0.s() <= 2
    }

    /// The decimal held.
    pub closed spec fn dec(self) -> Dec {
        self.0
    }

    /// The value in hundredths.
    pub open spec fn cents(self) -> int {
        cents_of(self.dec())
    }

    /// Zero amount.
    pub fn zero() -> (r: Self)
        ensures
            r.dec().m() == 0,
            r.dec().s() == 0,
            r.cents() == 0,
    {
        InvoiceAmount(Dec::zero())
    }

    /// Integer minor units (cents) as a two-decimal amount.
    pub fn from_minor(cents: i64) -> (r: Self)
        ensures
            r.dec().m() == cents,
            r.dec().s() == 2,
            r.cents() == cents,
    {
        proof {
            lemma_pow10_small();
        }
        InvoiceAmount(Dec::new(cents, 2))
    }

    /// Accepts at most two fraction digits. Refuses excess; never rounds.
    pub fn try_new(value: Dec) -> (r: Result<Self, AmountError>)
        ensures
            r is Ok <==> value.s() <= 2,
            r matches Ok(a) ==> a.dec() == value,
            r matches Err(e) ==> e == AmountError::TooManyDecimals,
    {
        if value.scale() > 2 {
            return Err(AmountError::TooManyDecimals);
        }
        Ok(InvoiceAmount(value))
    }

    /// Parse a decimal text (surrounding whitespace ignored). Text that is not a
    /// decimal, and excess fraction digits, are refused; never rounds.
    pub fn parse(s: &str) -> (r: Result<Self, AmountError>)
        ensures
            match decimal_parse(trim(s@)) {
                Some(d) => if d.s() <= 2 {
                    r matches Ok(a) && a.dec() == d
                } else {
                    r == Err::<Self, AmountError>(AmountError::TooManyDecimals)
                },
                None => r == Err::<Self, AmountError>(AmountError::TooManyDecimals),
            },
    {
        let t = trim_str(s);
        match Dec::parse(t) {
            Ok(d) => Self::try_new(d),
            Err(_) => Err(AmountError::TooManyDecimals),
        }
    }

    /// Underlying decimal.
    pub fn raw(self) -> (r: Dec)
        ensures
            r == self.dec(),
            r.s() <= 2,
    {
        proof {
            use_type_invariant(&self);
        }
        self.0
    }

    /// Whether the value is zero.
    pub fn is_zero(self) -> (r: bool)
        ensures
            r == (self.cents() == 0),
    {
        proof {
            use_type_invariant(&self);
            lemma_pow10_small();
            if self.0.s() == 0 {
                assert(self.cents() == self.0.m() * 100);
            } else if self.0.s() == 1 {
                assert(self.cents() == self.0.m() * 10);
            } else {
                assert(self.cents() == self.0.m());
            }
        }
        self.0.is_zero()
    }

    /// Sum, or `None` on overflow. Does not saturate.
    pub fn checked_add(self, other: Self) -> (r: Option<Self>)
        ensures
            add_fits_cents(self, other) ==> (r matches Some(c) && c.cents() == self.cents()
                + other.cents()),
    {
        proof {
            use_type_invariant(&self);
            use_type_invariant(&other);
        }
        match self.0.checked_add(&other.0) {
            Some(d) => {
                proof {
                    if add_fits_cents(self, other) {
                        lemma_add_cents(self.0, other.0, d);
                    }
                }
                match Self::try_new(d) {
                    Ok(a) => Some(a),
                    Err(_) => None,
                }
            },
            None => {
                proof {
                    if add_fits_cents(self, other) {
                        lemma_add_cents(self.0, other.0, self.0);
                    }
                }
                None
            },
        }
    }

    /// Difference, or `None` on overflow. Does not saturate.
    pub fn checked_sub(self, other: Self) -> (r: Option<Self>)
        ensures
            sub_fits_cents(self, other) ==> (r matches Some(c) && c.cents() == self.cents()
                - other.cents()),
    {
        proof {
            use_type_invariant(&self);
            use_type_invariant(&other);
        }
        match self.0.checked_sub(&other.0) {
            Some(d) => {
                proof {
                    if sub_fits_cents(self, other) {
                        lemma_sub_cents(self.0, other.0, d);
                    }
                }
                match Self::try_new(d) {
                    Ok(a) => Some(a),
                    Err(_) => None,
                }
            },
            None => {
                proof {
                    if sub_fits_cents(self, other) {
                        lemma_sub_cents(self.0, other.0, self.0);
                    }
                }
                None
            },
        }
    }

    /// Absolute value.
    pub fn abs(self) -> (r: Self)
        ensures
            r.cents() == abs_int(self.cents()),
            r.dec().s() == self.dec().s(),
    {
        proof {
            use_type_invariant(&self);
            lemma_pow10_small();
        }
        let d = self.0.abs();
        proof {
            assert(cents_of(d) == abs_int(cents_of(self.0))) by {
                if self.0.s() == 0 {
                } else if self.0.s() == 1 {
                } else {
                }
            }
        }
        InvoiceAmount(d)
    }

    /// Sum of amounts, or `None` on overflow. Does not saturate.
    pub fn checked_sum(amounts: &[InvoiceAmount]) -> (r: Option<Self>)
        ensures
            sum_fits(amounts@) ==> (r matches Some(c) && c.cents() == cents_sum(amounts@)),
    {
        let mut acc = Self::zero();
        let mut i: usize = 0;
        while i < amounts.len()
            invariant
                i <= amounts.len(),
                sum_fits(amounts@) ==> acc.cents() == cents_sum(amounts@.take(i as int)),
            decreases amounts.len() - i,
        {
            proof {
                assert(amounts@.take(i + 1).drop_last() =~= amounts@.take(i as int));
                if sum_fits(amounts@) {
                    assert(fits96(cents_sum(amounts@.take(i as int))));
                    assert(fits96(cents_sum(amounts@.take(i + 1))));
                    assert(fits96(amounts@[i as int].cents()));
                }
            }
            match acc.checked_add(amounts[i]) {
                Some(v) => {
                    acc = v;
                },
                None => {
                    return None;
                },
            }
            i = i + 1;
        }
        proof {
            assert(amounts@.take(amounts.len() as int) =~= amounts@);
        }
        Some(acc)
    }

    /// Commercial rounding (half away from zero) to two decimals — producer
    /// presentation. Validators use [`crate::arith::xpath_round`].
    pub fn from_decimal_rounded(value: Dec) -> (r: Result<Self, AmountError>)
        ensures
            r matches Ok(a) && (value.s() <= 2 ==> a.dec() == value) && (value.s() > 2 ==> a.dec().s()
                == 2 && a.dec().m() == round_half_away(value, 2)),
    {
        let rounded = value.round_dp_half_away(2);
        Self::try_new(rounded)
    }

    /// Display text.
    pub fn to_string(self) -> (r: String)
        ensures
            r@ == decimal_text(self.dec()),
    {
        self.0.to_string()
    }
}

impl PartialEq for InvoiceAmount {
    fn eq(&self, other: &Self) -> (r: bool) {
        proof {
            use_type_invariant(self);
            use_type_invariant(other);
            lemma_same_value_cents(self.0, other.0);
        }
        self.0.value_eq(&other.0)
    }
}

impl vstd::std_specs::cmp::PartialEqSpecImpl for InvoiceAmount {
    open spec fn obeys_eq_spec() -> bool {
        true
    }

    open spec fn eq_spec(&self, other: &Self) -> bool {
        self.cents() == other.cents()
    }
}

/// EN 16931 Unit Price Amount.Type — no two-digit cap (example `10000.1234`).
#[derive(Debug, Clone, Copy)]
pub struct UnitPriceAmount(Dec);

impl UnitPriceAmount {
    /// The decimal held.
    pub closed spec fn dec(self) -> Dec {
        self.0
    }

    /// Zero unit price.
    pub fn zero() -> (r: Self)
        ensures
            r.dec().m() == 0,
            r.dec().s() == 0,
    {
        UnitPriceAmount(Dec::zero())
    }

    /// Uncapped fraction digits (BT-146, BT-147, BT-148).
    pub fn new(value: Dec) -> (r: Self)
        ensures
            r.dec() == value,
    {
        UnitPriceAmount(value)
    }

    /// Parse a decimal text (surrounding whitespace ignored). No scale cap.
    pub fn parse(s: &str) -> (r: Result<Self, DecimalError>)
        ensures
            r is Ok <==> decimal_parse(trim(s@)) is Some,
            r matches Ok(p) ==> decimal_parse(trim(s@)) == Some(p.dec()),
    {
        let t = trim_str(s);
        match Dec::parse(t) {
            Ok(d) => Ok(UnitPriceAmount(d)),
            Err(e) => Err(e),
        }
    }

    /// Underlying decimal.
    pub fn raw(self) -> (r: Dec)
        ensures
            r == self.dec(),
    {
        self.0
    }

    /// Display text.
    pub fn to_string(self) -> (r: String)
        ensures
            r@ == decimal_text(self.dec()),
    {
        self.0.to_string()
    }
}

impl PartialEq for UnitPriceAmount {
    fn eq(&self, other: &Self) -> (r: bool) {
        self.0.value_eq(&other.0)
    }
}

impl vstd::std_specs::cmp::PartialEqSpecImpl for UnitPriceAmount {
    open spec fn obeys_eq_spec() -> bool {
        true
    }

    open spec fn eq_spec(&self, other: &Self) -> bool {
        same_value(self.dec(), other.dec())
    }
}

} // verus!
