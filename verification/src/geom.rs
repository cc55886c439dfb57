//! Two-dimensional vectors of exact rational coordinates.

use vstd::prelude::*;

use crate::rat::{
    accumulate, forward, forward_rat, rat_add, rat_eq, rat_in_range, rat_sub, rat_wf, remap,
    remap_rat, shift_rat, Frac, Rat,
};

verus! {

/// Mathematical value of a vector: a pair of fractions.
pub ghost struct V2 {
    pub x: Rat,
    pub y: Rat,
}

/// Both coordinates are well-formed fractions.
pub open spec fn v2_wf(v: V2) -> bool {
    rat_wf(v.x) && rat_wf(v.y)
}

/// Both coordinates denote the same values.
pub open spec fn v2_eq(a: V2, b: V2) -> bool {
    rat_eq(a.x, b.x) && rat_eq(a.y, b.y)
}

/// Both coordinates are inside the operating range.
pub open spec fn v2_in_range(v: V2) -> bool {
    rat_in_range(v.x) && rat_in_range(v.y)
}

/// Vector sum, coordinatewise.
pub open spec fn v2_add(a: V2, b: V2) -> V2 {
    V2 { x: rat_add(a.x, b.x), y: rat_add(a.y, b.y) }
}

/// Vector difference, coordinatewise.
pub open spec fn v2_sub(a: V2, b: V2) -> V2 {
    V2 { x: rat_sub(a.x, b.x), y: rat_sub(a.y, b.y) }
}

/// The zero vector.
pub open spec fn v2_zero() -> V2 {
    V2 { x: Rat { n: 0, d: 1 }, y: Rat { n: 0, d: 1 } }
}

/// Event remap of a point: `(q - t) / s` in each coordinate.
pub open spec fn remap_v2(q: V2, t: V2, s: Rat) -> V2 {
    V2 { x: remap_rat(q.x, t.x, s), y: remap_rat(q.y, t.y, s) }
}

/// Paint transform of a point: `q * s + t` in each coordinate.
pub open spec fn forward_v2(q: V2, t: V2, s: Rat) -> V2 {
    V2 { x: forward_rat(q.x, t.x, s), y: forward_rat(q.y, t.y, s) }
}

/// Drag accumulation: `t + (p - l)` in each coordinate.
pub open spec fn shift_v2(t: V2, p: V2, l: V2) -> V2 {
    V2 { x: shift_rat(t.x, p.x, l.x), y: shift_rat(t.y, p.y, l.y) }
}

/// An executable vector of two exact fractions.
#[derive(Clone, Copy, PartialEq, Eq, Structural, Debug)]
pub struct Vec2 {
    pub x: Frac,
    pub y: Frac,
}

impl View for Vec2 {
    type V = V2;

    open spec fn view(&self) -> V2 {
        V2 { x: self.x@, y: self.y@ }
    }
}

impl Vec2 {
    /// The vector `(x, y)`.
    pub fn new(x: Frac, y: Frac) -> (r: Vec2)
        ensures
            r@ == (V2 { x: x@, y: y@ }),
    {
        Vec2 { x, y }
    }

    /// The zero vector.
    pub fn zero() -> (r: Vec2)
        ensures
            r@ == (V2 { x: Rat { n: 0, d: 1 }, y: Rat { n: 0, d: 1 } }),
    {
        Vec2 { x: Frac::from_int(0), y: Frac::from_int(0) }
    }

    /// Both coordinates are well-formed.
    pub open spec fn wf(&self) -> bool {
        v2_wf(self@)
    }

    /// Whether both stored coordinates are inside the operating range;
    /// callers outside verified code can test a precondition with this.
    pub fn in_range(&self) -> (r: bool)
        ensures
            r == v2_in_range(self@),
    {
        self.x.in_range() && self.y.in_range()
    }

    /// Whether the two vectors denote the same point.
    pub fn same_value(&self, other: &Vec2) -> (r: bool)
        requires
            -0x4000_0000_0000_0000 < self.x.num < 0x4000_0000_0000_0000,
            -0x4000_0000_0000_0000 < self.y.num < 0x4000_0000_0000_0000,
            -0x4000_0000_0000_0000 < other.x.num < 0x4000_0000_0000_0000,
            -0x4000_0000_0000_0000 < other.y.num < 0x4000_0000_0000_0000,
            0 < self.x.den < 0x4000_0000_0000_0000,
            0 < self.y.den < 0x4000_0000_0000_0000,
            0 < other.x.den < 0x4000_0000_0000_0000,
            0 < other.y.den < 0x4000_0000_0000_0000,
        ensures
            r == v2_eq(self@, other@),
    {
        self.x.same_value(&other.x) && self.y.same_value(&other.y)
    }
}

/// Division of a point by a positive scale, coordinatewise.
pub open spec fn div_v2(q: V2, s: Rat) -> V2 {
    V2 { x: crate::rat::rat_div(q.x, s), y: crate::rat::rat_div(q.y, s) }
}

/// Exact division of a point by a positive scale: `q / s` coordinatewise.
pub fn divide_point(q: &Vec2, s: &Frac) -> (r: Vec2)
    requires
        v2_in_range(q@),
        rat_in_range(s@),
        crate::rat::rat_pos(s@),
    ensures
        r@ == div_v2(q@, s@),
        r.wf(),
{
    Vec2 { x: crate::rat::divide(&q.x, s), y: crate::rat::divide(&q.y, s) }
}

/// Exact remap of a point: `(q - t) / s` coordinatewise.
pub fn remap_point(q: &Vec2, t: &Vec2, s: &Frac) -> (r: Vec2)
    requires
        v2_in_range(q@),
        v2_in_range(t@),
        rat_in_range(s@),
        crate::rat::rat_pos(s@),
    ensures
        r@ == remap_v2(q@, t@, s@),
        r.wf(),
{
    Vec2 { x: remap(&q.x, &t.x, s), y: remap(&q.y, &t.y, s) }
}

/// Exact paint transform of a point: `q * s + t` coordinatewise.
pub fn forward_point(q: &Vec2, t: &Vec2, s: &Frac) -> (r: Vec2)
    requires
        v2_in_range(q@),
        v2_in_range(t@),
        rat_in_range(s@),
    ensures
        r@ == forward_v2(q@, t@, s@),
        r.wf(),
{
    Vec2 { x: forward(&q.x, &t.x, s), y: forward(&q.y, &t.y, s) }
}

/// Exact drag accumulation: `t + (p - l)` coordinatewise.
pub fn shift_point(t: &Vec2, p: &Vec2, l: &Vec2) -> (r: Vec2)
    requires
        v2_in_range(t@),
        v2_in_range(p@),
        v2_in_range(l@),
    ensures
        r@ == shift_v2(t@, p@, l@),
        r.wf(),
{
    Vec2 { x: accumulate(&t.x, &p.x, &l.x), y: accumulate(&t.y, &p.y, &l.y) }
}

} // verus!
