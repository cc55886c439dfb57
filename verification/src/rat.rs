//! Exact rational scalars.
//!
//! The viewport math (translate, uniform scale, and their inverses) is stated
//! over mathematical fractions [`Rat`] and executed on [`Frac`], a fraction of
//! two `i64`s with a positive denominator. Every executable operation returns
//! exactly the fraction its specification names, so the transform round-trip
//! holds with no tolerance.

use vstd::prelude::*;

verus! {

/// Mathematical value of a scalar: the fraction `n / d`.
pub ghost struct Rat {
    pub n: int,
    pub d: int,
}

/// A well-formed fraction keeps its denominator positive.
pub open spec fn rat_wf(a: Rat) -> bool {
    a.d > 0
}

/// Two fractions denote the same value (cross multiplication).
pub open spec fn rat_eq(a: Rat, b: Rat) -> bool {
    a.n * b.d == b.n * a.d
}

/// `a + b` as a fraction over the common denominator.
pub open spec fn rat_add(a: Rat, b: Rat) -> Rat {
    Rat { n: a.n * b.d + b.n * a.d, d: a.d * b.d }
}

/// `a - b` as a fraction over the common denominator.
pub open spec fn rat_sub(a: Rat, b: Rat) -> Rat {
    Rat { n: a.n * b.d - b.n * a.d, d: a.d * b.d }
}

/// `a * b`.
pub open spec fn rat_mul(a: Rat, b: Rat) -> Rat {
    Rat { n: a.n * b.n, d: a.d * b.d }
}

/// `a / b`, keeping the denominator positive. Meaningful only for `b.n != 0`.
pub open spec fn rat_div(a: Rat, b: Rat) -> Rat {
    if b.n >= 0 {
        Rat { n: a.n * b.d, d: a.d * b.n }
    } else {
        Rat { n: -(a.n * b.d), d: a.d * -b.n }
    }
}

/// The value is strictly positive (for a well-formed fraction).
pub open spec fn rat_pos(a: Rat) -> bool {
    a.n > 0
}

/// Half the value: the zoom-out step.
pub open spec fn rat_halved(a: Rat) -> Rat {
    Rat { n: a.n, d: 2 * a.d }
}

/// Twice the value: the zoom-in step.
pub open spec fn rat_doubled(a: Rat) -> Rat {
    Rat { n: 2 * a.n, d: a.d }
}

/// The constant two, used to state the zoom laws.
pub open spec fn rat_two() -> Rat {
    Rat { n: 2, d: 1 }
}

/// Magnitude bound on the fractions an operation accepts. Generous for screen
/// coordinates, and small enough that every product a composed viewport
/// operation forms stays inside `i64`.
pub const COORD_BOUND: i64 = 0x10_0000;

/// The fraction is well-formed and within the magnitude bound.
pub open spec fn rat_in_range(a: Rat) -> bool {
    &&& -(COORD_BOUND as int) <= a.n <= COORD_BOUND as int
    &&& 0 < a.d <= COORD_BOUND as int
}

/// One coordinate of the event remap: `(q - t) / s`, the inverse of the
/// paint transform.
pub open spec fn remap_rat(q: Rat, t: Rat, s: Rat) -> Rat {
    rat_div(rat_sub(q, t), s)
}

/// One coordinate of the paint transform: `q * s + t` (scale, then translate).
pub open spec fn forward_rat(q: Rat, t: Rat, s: Rat) -> Rat {
    rat_add(rat_mul(q, s), t)
}

/// One coordinate of drag accumulation: `t + (p - l)`, the old translation
/// plus the pointer delta since the last recorded position.
pub open spec fn shift_rat(t: Rat, p: Rat, l: Rat) -> Rat {
    rat_add(t, rat_sub(p, l))
}

/// An executable scalar: the exact fraction `num / den`, `den > 0`.
#[derive(Clone, Copy, PartialEq, Eq, Structural, Debug)]
pub struct Frac {
    pub num: i64,
    pub den: i64,
}

impl View for Frac {
    type V = Rat;

    open spec fn view(&self) -> Rat {
        Rat { n: self.num as int, d: self.den as int }
    }
}

impl Frac {
    /// The fraction `num / den`.
    pub fn new(num: i64, den: i64) -> (r: Frac)
        requires
            den > 0,
        ensures
            r@ == (Rat { n: num as int, d: den as int }),
    {
        Frac { num, den }
    }

    /// The integer `i` as a fraction.
    pub fn from_int(i: i64) -> (r: Frac)
        ensures
            r@ == (Rat { n: i as int, d: 1int }),
    {
        Frac { num: i, den: 1 }
    }

    /// The denominator is positive.
    pub open spec fn wf(&self) -> bool {
        rat_wf(self@)
    }

    /// Whether the stored fraction is inside the operating range; callers
    /// outside verified code can test a precondition with this.
    pub fn in_range(&self) -> (r: bool)
        ensures
            r == rat_in_range(self@),
    {
        -COORD_BOUND <= self.num && self.num <= COORD_BOUND && 0 < self.den
            && self.den <= COORD_BOUND
    }

    /// The value is strictly positive.
    pub fn is_positive(&self) -> (r: bool)
        requires
            self.wf(),
        ensures
            r == rat_pos(self@),
    {
        self.num > 0
    }

    /// Exact halving: the denominator doubles.
    pub fn halved(&self) -> (r: Frac)
        requires
            self.den < 0x4000_0000_0000_0000,
            self.wf(),
        ensures
            r@ == rat_halved(self@),
            r.wf(),
    {
        Frac { num: self.num, den: 2 * self.den }
    }

    /// Exact doubling: the numerator doubles.
    pub fn doubled(&self) -> (r: Frac)
        requires
            -0x4000_0000_0000_0000 < self.num < 0x4000_0000_0000_0000,
            self.wf(),
        ensures
            r@ == rat_doubled(self@),
            r.wf(),
    {
        Frac { num: 2 * self.num, den: self.den }
    }

    /// Whether the two fractions denote the same value.
    pub fn same_value(&self, other: &Frac) -> (r: bool)
        requires
            -0x4000_0000_0000_0000 < self.num < 0x4000_0000_0000_0000,
            -0x4000_0000_0000_0000 < other.num < 0x4000_0000_0000_0000,
            0 < self.den < 0x4000_0000_0000_0000,
            0 < other.den < 0x4000_0000_0000_0000,
        ensures
            r == rat_eq(self@, other@),
    {
        proof {
            assert((self.num as i128) * (other.den as i128) < 0x4000_0000_0000_0000_0000_0000_0000_0000i128
                && -0x4000_0000_0000_0000_0000_0000_0000_0000i128 < (self.num as i128) * (other.den as i128))
                by (nonlinear_arith)
                requires
                    -0x4000_0000_0000_0000 < self.num < 0x4000_0000_0000_0000,
                    0 < other.den < 0x4000_0000_0000_0000,
            ;
            assert((other.num as i128) * (self.den as i128) < 0x4000_0000_0000_0000_0000_0000_0000_0000i128
                && -0x4000_0000_0000_0000_0000_0000_0000_0000i128 < (other.num as i128) * (self.den as i128))
                by (nonlinear_arith)
                requires
                    -0x4000_0000_0000_0000 < other.num < 0x4000_0000_0000_0000,
                    0 < self.den < 0x4000_0000_0000_0000,
            ;
        }
        (self.num as i128) * (other.den as i128) == (other.num as i128) * (self.den as i128)
    }
}

/// Exact remap of one coordinate: `(q - t) / s`.
pub fn remap(q: &Frac, t: &Frac, s: &Frac) -> (r: Frac)
    requires
        rat_in_range(q@),
        rat_in_range(t@),
        rat_in_range(s@),
        rat_pos(s@),
    ensures
        r@ == remap_rat(q@, t@, s@),
        r.wf(),
{
    proof {
        assert(-0x100_0000_0000 <= q@.n * t@.d <= 0x100_0000_0000) by (nonlinear_arith)
            requires
                -0x10_0000 <= q@.n <= 0x10_0000,
                0 < t@.d <= 0x10_0000,
        ;
        assert(-0x100_0000_0000 <= t@.n * q@.d <= 0x100_0000_0000) by (nonlinear_arith)
            requires
                -0x10_0000 <= t@.n <= 0x10_0000,
                0 < q@.d <= 0x10_0000,
        ;
        assert(0 < q@.d * t@.d <= 0x100_0000_0000) by (nonlinear_arith)
            requires
                0 < q@.d <= 0x10_0000,
                0 < t@.d <= 0x10_0000,
        ;
    }
    let dn: i64 = q.num * t.den - t.num * q.den;
    let dd: i64 = q.den * t.den;
    proof {
        assert(-0x2000_0000_0000_0000 <= dn * s@.d <= 0x2000_0000_0000_0000) by (nonlinear_arith)
            requires
                -0x200_0000_0000 <= dn <= 0x200_0000_0000,
                0 < s@.d <= 0x10_0000,
        ;
        assert(0 < dd * s@.n <= 0x1000_0000_0000_0000) by (nonlinear_arith)
            requires
                0 < dd <= 0x100_0000_0000,
                0 < s@.n <= 0x10_0000,
        ;
    }
    Frac { num: dn * s.den, den: dd * s.num }
}

/// Exact division of one coordinate by a positive scale: `q / s`.
pub fn divide(q: &Frac, s: &Frac) -> (r: Frac)
    requires
        rat_in_range(q@),
        rat_in_range(s@),
        rat_pos(s@),
    ensures
        r@ == rat_div(q@, s@),
        r.wf(),
{
    proof {
        assert(-0x100_0000_0000 <= q@.n * s@.d <= 0x100_0000_0000) by (nonlinear_arith)
            requires
                -0x10_0000 <= q@.n <= 0x10_0000,
                0 < s@.d <= 0x10_0000,
        ;
        assert(0 < q@.d * s@.n <= 0x100_0000_0000) by (nonlinear_arith)
            requires
                0 < q@.d <= 0x10_0000,
                0 < s@.n <= 0x10_0000,
        ;
    }
    Frac { num: q.num * s.den, den: q.den * s.num }
}

/// Exact paint transform of one coordinate: `q * s + t`.
pub fn forward(q: &Frac, t: &Frac, s: &Frac) -> (r: Frac)
    requires
        rat_in_range(q@),
        rat_in_range(t@),
        rat_in_range(s@),
    ensures
        r@ == forward_rat(q@, t@, s@),
        r.wf(),
{
    proof {
        assert(-0x100_0000_0000 <= q@.n * s@.n <= 0x100_0000_0000) by (nonlinear_arith)
            requires
                -0x10_0000 <= q@.n <= 0x10_0000,
                -0x10_0000 <= s@.n <= 0x10_0000,
        ;
        assert(0 < q@.d * s@.d <= 0x100_0000_0000) by (nonlinear_arith)
            requires
                0 < q@.d <= 0x10_0000,
                0 < s@.d <= 0x10_0000,
        ;
    }
    let mn: i64 = q.num * s.num;
    let md: i64 = q.den * s.den;
    proof {
        assert(-0x1000_0000_0000_0000 <= mn * t@.d <= 0x1000_0000_0000_0000) by (nonlinear_arith)
            requires
                -0x100_0000_0000 <= mn <= 0x100_0000_0000,
                0 < t@.d <= 0x10_0000,
        ;
        assert(-0x1000_0000_0000_0000 <= t@.n * md <= 0x1000_0000_0000_0000) by (nonlinear_arith)
            requires
                -0x10_0000 <= t@.n <= 0x10_0000,
                0 < md <= 0x100_0000_0000,
        ;
        assert(0 < md * t@.d <= 0x1000_0000_0000_0000) by (nonlinear_arith)
            requires
                0 < md <= 0x100_0000_0000,
                0 < t@.d <= 0x10_0000,
        ;
    }
    Frac { num: mn * t.den + t.num * md, den: md * t.den }
}

/// Exact drag accumulation of one coordinate: `t + (p - l)`.
pub fn accumulate(t: &Frac, p: &Frac, l: &Frac) -> (r: Frac)
    requires
        rat_in_range(t@),
        rat_in_range(p@),
        rat_in_range(l@),
    ensures
        r@ == shift_rat(t@, p@, l@),
        r.wf(),
{
    proof {
        assert(-0x100_0000_0000 <= p@.n * l@.d <= 0x100_0000_0000) by (nonlinear_arith)
            requires
                -0x10_0000 <= p@.n <= 0x10_0000,
                0 < l@.d <= 0x10_0000,
        ;
        assert(-0x100_0000_0000 <= l@.n * p@.d <= 0x100_0000_0000) by (nonlinear_arith)
            requires
                -0x10_0000 <= l@.n <= 0x10_0000,
                0 < p@.d <= 0x10_0000,
        ;
        assert(0 < p@.d * l@.d <= 0x100_0000_0000) by (nonlinear_arith)
            requires
                0 < p@.d <= 0x10_0000,
                0 < l@.d <= 0x10_0000,
        ;
    }
    let dn: i64 = p.num * l.den - l.num * p.den;
    let dd: i64 = p.den * l.den;
    proof {
        assert(-0x1000_0000_0000_0000 <= t@.n * dd <= 0x1000_0000_0000_0000) by (nonlinear_arith)
            requires
                -0x10_0000 <= t@.n <= 0x10_0000,
                0 < dd <= 0x100_0000_0000,
        ;
        assert(-0x2000_0000_0000_0000 <= dn * t@.d <= 0x2000_0000_0000_0000) by (nonlinear_arith)
            requires
                -0x200_0000_0000 <= dn <= 0x200_0000_0000,
                0 < t@.d <= 0x10_0000,
        ;
        assert(0 < t@.d * dd <= 0x1000_0000_0000_0000) by (nonlinear_arith)
            requires
                0 < t@.d <= 0x10_0000,
                0 < dd <= 0x100_0000_0000,
        ;
    }
    Frac { num: t.num * dd + dn * t.den, den: t.den * dd }
}

} // verus!
