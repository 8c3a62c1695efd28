//! 2D vectors over exact rational scalars.

use vstd::prelude::*;

use crate::rational::{
    qv_add, qv_addsub_fits, qv_in_range, qv_mul, qv_muldiv_fits, qv_sub, qv_wf, Q, Qv,
};

verus! {

/// Mathematical value of a 2D vector.
pub struct V2v {
    pub x: Qv,
    pub y: Qv,
}

pub open spec fn v2_wf(v: V2v) -> bool {
    qv_wf(v.x) && qv_wf(v.y)
}

pub open spec fn v2_in_range(v: V2v) -> bool {
    qv_in_range(v.x) && qv_in_range(v.y)
}

/// An immutable 2D vector; components are exact rationals.
#[derive(Clone, Copy)]
pub struct Vec2 {
    pub x: Q,
    pub y: Q,
}

impl View for Vec2 {
    type V = V2v;

    open spec fn view(&self) -> V2v {
        V2v { x: self.x@, y: self.y@ }
    }
}

impl Vec2 {
    pub open spec fn wf(self) -> bool {
        v2_wf(self@)
    }

    pub fn new(x: Q, y: Q) -> (r: Vec2)
        ensures
            r.x == x,
            r.y == y,
    {
        Vec2 { x, y }
    }

    /// Componentwise sum.
    pub fn plus(&self, other: &Vec2) -> (r: Vec2)
        requires
            self.wf(),
            other.wf(),
            qv_addsub_fits(self@.x, other@.x),
            qv_addsub_fits(self@.y, other@.y),
        ensures
            r.wf(),
            r@.x == qv_add(self@.x, other@.x),
            r@.y == qv_add(self@.y, other@.y),
    {
        Vec2 { x: self.x.plus(&other.x), y: self.y.plus(&other.y) }
    }

    /// Componentwise difference.
    pub fn minus(&self, other: &Vec2) -> (r: Vec2)
        requires
            self.wf(),
            other.wf(),
            qv_addsub_fits(self@.x, other@.x),
            qv_addsub_fits(self@.y, other@.y),
        ensures
            r.wf(),
            r@.x == qv_sub(self@.x, other@.x),
            r@.y == qv_sub(self@.y, other@.y),
    {
        Vec2 { x: self.x.minus(&other.x), y: self.y.minus(&other.y) }
    }

    /// Both components scaled by `k`.
    pub fn scaled(&self, k: &Q) -> (r: Vec2)
        requires
            self.wf(),
            k.wf(),
            qv_muldiv_fits(self@.x, k@),
            qv_muldiv_fits(self@.y, k@),
        ensures
            r.wf(),
            r@.x == qv_mul(self@.x, k@),
            r@.y == qv_mul(self@.y, k@),
    {
        Vec2 { x: self.x.times(k), y: self.y.times(k) }
    }
}

} // verus!
