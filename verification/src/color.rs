//! RGB(A) colour values.
//!
//! Channels are normalized scalars; values are expected in `[0, 1]` but are
//! passed through uninterpreted — clamping is the caller's policy.

use vstd::prelude::*;

use crate::rational::{qv_int, qv_wf, Q, Qv};

verus! {

/// Mathematical value of a colour.
pub struct ColorV {
    pub r: Qv,
    pub g: Qv,
    pub b: Qv,
    pub a: Qv,
}

/// An RGB(A) colour with exact rational channels.
#[derive(Clone, Copy)]
pub struct Color {
    pub r: Q,
    pub g: Q,
    pub b: Q,
    pub a: Q,
}

impl View for Color {
    type V = ColorV;

    open spec fn view(&self) -> ColorV {
        ColorV { r: self.r@, g: self.g@, b: self.b@, a: self.a@ }
    }
}

impl Color {
    pub open spec fn wf(self) -> bool {
        qv_wf(self@.r) && qv_wf(self@.g) && qv_wf(self@.b) && qv_wf(self@.a)
    }

    /// An opaque colour from its three channels, taken as given.
    pub fn from_rgb(r: Q, g: Q, b: Q) -> (c: Color)
        requires
            r.wf(),
            g.wf(),
            b.wf(),
        ensures
            c.wf(),
            c@.r == r@,
            c@.g == g@,
            c@.b == b@,
            c@.a == qv_int(1),
    {
        Color { r, g, b, a: Q::from_int(1) }
    }

    /// Full white, opaque.
    pub fn white() -> (c: Color)
        ensures
            c.wf(),
            c@.r == qv_int(1),
            c@.g == qv_int(1),
            c@.b == qv_int(1),
            c@.a == qv_int(1),
    {
        Color {
            r: Q::from_int(1),
            g: Q::from_int(1),
            b: Q::from_int(1),
            a: Q::from_int(1),
        }
    }
}

} // verus!
