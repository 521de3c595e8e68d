use vstd::prelude::*;

verus! {

/// Largest magnitude allowed for a product of two field values during
/// exact-rational arithmetic; chosen so that a sum of two such products
/// still fits in an `i128`.
pub const RAT_PRODUCT_BOUND: i128 = 0x2000_0000_0000_0000_0000_0000_0000_0000;

/// An exact rational number `num / den` with a positive denominator.
///
/// Values are not kept normalised: two `Rat`s denote the same rational
/// exactly when [`frac_eq`] holds of their fraction pairs.
#[derive(Clone, Copy, Debug, PartialEq, Eq, Structural)]
pub struct Rat {
    pub num: i128,
    pub den: i128,
}

/// Two fraction pairs denote the same rational value (cross multiplication).
pub open spec fn frac_eq(a: (int, int), b: (int, int)) -> bool {
    a.0 * b.1 == b.0 * a.1
}

/// The product of two fraction pairs.
pub open spec fn frac_mul(a: (int, int), b: (int, int)) -> (int, int) {
    (a.0 * b.0, a.1 * b.1)
}

/// The sum of two fraction pairs.
pub open spec fn frac_add(a: (int, int), b: (int, int)) -> (int, int) {
    (a.0 * b.1 + b.0 * a.1, a.1 * b.1)
}

/// The rational clamped into `[0, 1]`: values at or below zero become
/// `0`, values at or above one become `1`, everything in between is
/// unchanged.
pub open spec fn spec_clamp01(r: Rat) -> Rat {
    if r.num <= 0 {
        Rat { num: 0, den: 1 }
    } else if r.num >= r.den {
        Rat { num: 1, den: 1 }
    } else {
        r
    }
}

impl Rat {
    /// Validity: the denominator is positive.
    pub open spec fn wf(self) -> bool {
        self.den > 0
    }

    /// The fraction as a pair of mathematical integers.
    pub open spec fn frac(self) -> (int, int) {
        (self.num as int, self.den as int)
    }

    /// The rational is strictly positive.
    pub open spec fn spec_is_positive(self) -> bool {
        self.num > 0
    }

    pub fn new(num: i128, den: i128) -> (r: Rat)
        requires
            den > 0,
        ensures
            r.wf(),
            r.num == num,
            r.den == den,
    {
        Rat { num, den }
    }

    pub fn zero() -> (r: Rat)
        ensures
            r.wf(),
            r.num == 0,
            r.den == 1,
    {
        Rat { num: 0, den: 1 }
    }

    pub fn one() -> (r: Rat)
        ensures
            r.wf(),
            r.num == 1,
            r.den == 1,
    {
        Rat { num: 1, den: 1 }
    }

    pub fn is_positive(&self) -> (b: bool)
        requires
            self.wf(),
        ensures
            b == self.spec_is_positive(),
    {
        self.num > 0
    }

    /// Clamp the value into `[0, 1]`: values at or below zero become `0`,
    /// values at or above one become `1`, everything else is unchanged.
    pub fn clamp01(&self) -> (r: Rat)
        requires
            self.wf(),
        ensures
            r.wf(),
            r == spec_clamp01(*self),
    {
        if self.num <= 0 {
            Rat { num: 0, den: 1 }
        } else if self.num >= self.den {
            Rat { num: 1, den: 1 }
        } else {
            *self
        }
    }

    /// Exact product; the caller shows that the field products stay
    /// representable.
    pub fn mul(&self, other: &Rat) -> (r: Rat)
        requires
            self.wf(),
            other.wf(),
            -RAT_PRODUCT_BOUND <= self.num * other.num <= RAT_PRODUCT_BOUND,
            self.den * other.den <= RAT_PRODUCT_BOUND,
        ensures
            r.wf(),
            r.frac() == frac_mul(self.frac(), other.frac()),
    {
        proof {
            assert(self.den * other.den > 0) by (nonlinear_arith)
                requires
                    self.den > 0,
                    other.den > 0,
            ;
        }
        Rat { num: self.num * other.num, den: self.den * other.den }
    }

    /// Exact sum; the caller shows that the cross products stay
    /// representable.
    pub fn add(&self, other: &Rat) -> (r: Rat)
        requires
            self.wf(),
            other.wf(),
            -RAT_PRODUCT_BOUND <= self.num * other.den <= RAT_PRODUCT_BOUND,
            -RAT_PRODUCT_BOUND <= other.num * self.den <= RAT_PRODUCT_BOUND,
            self.den * other.den <= RAT_PRODUCT_BOUND,
        ensures
            r.wf(),
            r.frac() == frac_add(self.frac(), other.frac()),
    {
        proof {
            assert(self.den * other.den > 0) by (nonlinear_arith)
                requires
                    self.den > 0,
                    other.den > 0,
            ;
        }
        Rat {
            num: self.num * other.den + other.num * self.den,
            den: self.den * other.den,
        }
    }

    /// Exact value equality by cross multiplication; the bounds keep the
    /// products representable.
    pub fn eq_value(&self, other: &Rat) -> (b: bool)
        requires
            self.wf(),
            other.wf(),
            -RAT_PRODUCT_BOUND <= self.num * other.den <= RAT_PRODUCT_BOUND,
            -RAT_PRODUCT_BOUND <= other.num * self.den <= RAT_PRODUCT_BOUND,
        ensures
            b == frac_eq(self.frac(), other.frac()),
    {
        self.num * other.den == other.num * self.den
    }
}

/// A product of values bounded in magnitude is bounded by the product of the
/// bounds.
pub proof fn lemma_mul_bounds(a: int, b: int, bound_a: int, bound_b: int)
    by (nonlinear_arith)
    requires
        0 <= bound_a,
        0 <= bound_b,
        -bound_a <= a <= bound_a,
        -bound_b <= b <= bound_b,
    ensures
        -(bound_a * bound_b) <= a * b <= bound_a * bound_b,
{
}

} // verus!
