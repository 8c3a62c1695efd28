//! A 2D camera: a world-space center, a positive scale, and a pixel
//! viewport.  It maps world coordinates to screen coordinates and back, and
//! zooms toward an arbitrary screen point while keeping the world point
//! under that screen point fixed.
//!
//! `world_to_screen(w) = (w - center) * scale + viewport / 2`, and
//! `screen_to_world` is its exact inverse.  Scale is never clamped here:
//! min/max zoom is the caller's policy, applied after `zoom_at` returns.

use vstd::prelude::*;

use crate::rational::{
    lemma_add_sub_cancel, lemma_div_mul_cancel, lemma_eq_add_left, lemma_eq_add_right,
    lemma_eq_div_right, lemma_eq_mul_right, lemma_mul_dist_add, lemma_mul_dist_add_sub,
    lemma_mul_dist_sub, lemma_mul_div_cancel, lemma_qv_eq_trans,
    lemma_qv_op_bounds, lemma_qv_wf_ops, lemma_sub_add_cancel, lemma_sub_sub_cancel, qv_add,
    qv_div, qv_eq, qv_half, qv_in_range, qv_int, qv_mul, qv_pos, qv_sub, qv_wf, Q, Qv,
};
use crate::vec2::{v2_in_range, v2_wf, V2v, Vec2};

verus! {

/// Mathematical value of a camera.
pub struct CamV {
    pub center: V2v,
    pub scale: Qv,
    pub viewport: V2v,
}

/// A well-formed camera has well-formed components and a strictly positive
/// scale.
pub open spec fn cam_wf(c: CamV) -> bool {
    v2_wf(c.center) && qv_wf(c.scale) && qv_pos(c.scale) && v2_wf(c.viewport)
}

/// All camera components lie in the working range, so a whole transform
/// can be computed without leaving `i128`.
pub open spec fn cam_in_range(c: CamV) -> bool {
    v2_in_range(c.center) && qv_in_range(c.scale) && v2_in_range(c.viewport)
}

/// One axis of the world-to-screen map: `(w - c) * s + vh`.
pub open spec fn wts1(c: Qv, s: Qv, vh: Qv, w: Qv) -> Qv {
    qv_add(qv_mul(qv_sub(w, c), s), vh)
}

/// One axis of the screen-to-world map: `(p - vh) / s + c`.
pub open spec fn stw1(c: Qv, s: Qv, vh: Qv, p: Qv) -> Qv {
    qv_add(qv_div(qv_sub(p, vh), s), c)
}

/// One axis of the center after zooming by `f` at screen point `p`: the
/// world point under `p` before the zoom, minus `p`'s offset from the
/// viewport midpoint divided by the new scale.
pub open spec fn zoom_center1(c: Qv, s: Qv, vh: Qv, f: Qv, p: Qv) -> Qv {
    qv_sub(stw1(c, s, vh, p), qv_div(qv_sub(p, vh), qv_mul(s, f)))
}

/// The world-to-screen map, both axes.
pub open spec fn wts_v(cam: CamV, w: V2v) -> V2v {
    V2v {
        x: wts1(cam.center.x, cam.scale, qv_half(cam.viewport.x), w.x),
        y: wts1(cam.center.y, cam.scale, qv_half(cam.viewport.y), w.y),
    }
}

/// The screen-to-world map, both axes.
pub open spec fn stw_v(cam: CamV, p: V2v) -> V2v {
    V2v {
        x: stw1(cam.center.x, cam.scale, qv_half(cam.viewport.x), p.x),
        y: stw1(cam.center.y, cam.scale, qv_half(cam.viewport.y), p.y),
    }
}

/// The camera after zooming by `f` at screen point `p`.
pub open spec fn zoom_v(cam: CamV, f: Qv, p: V2v) -> CamV {
    CamV {
        center: V2v {
            x: zoom_center1(cam.center.x, cam.scale, qv_half(cam.viewport.x), f, p.x),
            y: zoom_center1(cam.center.y, cam.scale, qv_half(cam.viewport.y), f, p.y),
        },
        scale: qv_mul(cam.scale, f),
        viewport: cam.viewport,
    }
}

/// A 2D camera over exact rational coordinates.
#[derive(Clone, Copy)]
pub struct Camera2D {
    pub center: Vec2,
    pub scale: Q,
    pub viewport: Vec2,
}

impl View for Camera2D {
    type V = CamV;

    open spec fn view(&self) -> CamV {
        CamV { center: self.center@, scale: self.scale@, viewport: self.viewport@ }
    }
}

impl Camera2D {
    pub open spec fn wf(self) -> bool {
        cam_wf(self@)
    }

    pub open spec fn in_range(self) -> bool {
        cam_in_range(self@)
    }

    /// A camera looking at `center` with the given scale and pixel viewport.
    /// The scale must be strictly positive: a zero scale would make
    /// `screen_to_world` meaningless.
    pub fn new(center: Vec2, scale: Q, viewport: Vec2) -> (cam: Camera2D)
        requires
            center.wf(),
            scale.wf(),
            qv_pos(scale@),
            viewport.wf(),
        ensures
            cam.wf(),
            cam@.center == center@,
            cam@.scale == scale@,
            cam@.viewport == viewport@,
    {
        Camera2D { center, scale, viewport }
    }

    pub fn center(&self) -> (r: Vec2)
        ensures
            r@ == self@.center,
    {
        self.center
    }

    pub fn scale(&self) -> (r: Q)
        ensures
            r@ == self@.scale,
    {
        self.scale
    }

    pub fn viewport(&self) -> (r: Vec2)
        ensures
            r@ == self@.viewport,
    {
        self.viewport
    }

    /// Replace the scale; callers use this to apply their own zoom clamp
    /// after `zoom_at`.
    pub fn set_scale(&mut self, scale: Q)
        requires
            scale.wf(),
            qv_pos(scale@),
        ensures
            final(self)@.scale == scale@,
            final(self)@.center == old(self)@.center,
            final(self)@.viewport == old(self)@.viewport,
            old(self).wf() ==> final(self).wf(),
    {
        self.scale = scale;
    }

    /// Replace the world-space center.
    pub fn set_center(&mut self, center: Vec2)
        requires
            center.wf(),
        ensures
            final(self)@.center == center@,
            final(self)@.scale == old(self)@.scale,
            final(self)@.viewport == old(self)@.viewport,
            old(self).wf() ==> final(self).wf(),
    {
        self.center = center;
    }

    /// Map a world point to screen coordinates:
    /// `(w - center) * scale + viewport / 2`.
    pub fn world_to_screen(&self, w: Vec2) -> (r: Vec2)
        requires
            self.wf(),
            self.in_range(),
            w.wf(),
            v2_in_range(w@),
        ensures
            r.wf(),
            r@ == wts_v(self@, w@),
    {
        proof {
            lemma_qv_op_bounds(w@.x, self@.center.x, 0x100000, 0x100000);
            lemma_qv_op_bounds(w@.y, self@.center.y, 0x100000, 0x100000);
        }
        let u = w.minus(&self.center);
        proof {
            lemma_qv_op_bounds(u@.x, self@.scale, 2int * 0x100000int * 0x100000, 0x100000);
            lemma_qv_op_bounds(u@.y, self@.scale, 2int * 0x100000int * 0x100000, 0x100000);
        }
        let t = u.scaled(&self.scale);
        let vh = Vec2::new(self.viewport.x.half(), self.viewport.y.half());
        proof {
            lemma_qv_op_bounds(
                t@.x,
                vh@.x,
                2int * 0x100000 * 0x100000int * 0x100000,
                2int * 0x100000,
            );
            lemma_qv_op_bounds(
                t@.y,
                vh@.y,
                2int * 0x100000 * 0x100000int * 0x100000,
                2int * 0x100000,
            );
        }
        t.plus(&vh)
    }

    /// Map a screen point to world coordinates:
    /// `(p - viewport / 2) / scale + center`.  Exact inverse of
    /// `world_to_screen`.
    pub fn screen_to_world(&self, p: Vec2) -> (r: Vec2)
        requires
            self.wf(),
            self.in_range(),
            p.wf(),
            v2_in_range(p@),
        ensures
            r.wf(),
            r@ == stw_v(self@, p@),
    {
        let vh = Vec2::new(self.viewport.x.half(), self.viewport.y.half());
        proof {
            lemma_qv_op_bounds(p@.x, vh@.x, 0x100000, 2int * 0x100000);
            lemma_qv_op_bounds(p@.y, vh@.y, 0x100000, 2int * 0x100000);
        }
        let u = p.minus(&vh);
        proof {
            lemma_qv_op_bounds(u@.x, self@.scale, 4int * 0x100000int * 0x100000, 0x100000);
            lemma_qv_op_bounds(u@.y, self@.scale, 4int * 0x100000int * 0x100000, 0x100000);
        }
        let w = Vec2::new(u.x.div_by(&self.scale), u.y.div_by(&self.scale));
        proof {
            lemma_qv_op_bounds(
                w@.x,
                self@.center.x,
                4int * 0x100000 * 0x100000int * 0x100000,
                0x100000,
            );
            lemma_qv_op_bounds(
                w@.y,
                self@.center.y,
                4int * 0x100000 * 0x100000int * 0x100000,
                0x100000,
            );
        }
        w.plus(&self.center)
    }

    /// Zoom by `factor` toward screen point `p`: the scale is multiplied by
    /// `factor`, and the center is recomputed so that the world point that
    /// was under `p` stays under `p` (see `lemma_zoom_fixed_point`).
    pub fn zoom_at(&mut self, factor: Q, p: Vec2)
        requires
            old(self).wf(),
            old(self).in_range(),
            factor.wf(),
            qv_pos(factor@),
            qv_in_range(factor@),
            p.wf(),
            v2_in_range(p@),
        ensures
            final(self).wf(),
            final(self)@.viewport == old(self)@.viewport,
            final(self)@.scale == qv_mul(old(self)@.scale, factor@),
            qv_eq(final(self)@.center.x, zoom_v(old(self)@, factor@, p@).center.x),
            qv_eq(final(self)@.center.y, zoom_v(old(self)@, factor@, p@).center.y),
    {
        let one = Q::from_int(1);
        proof {
            lemma_qv_op_bounds(factor@, qv_int(1), 0x100000, 1);
            lemma_qv_op_bounds(self@.scale, factor@, 0x100000, 0x100000);
            assert(self@.scale.n * factor@.n > 0) by (nonlinear_arith)
                requires self@.scale.n > 0, factor@.n > 0;
        }
        let f1 = factor.minus(&one);
        let sf = self.scale.times(&factor);
        proof {
            lemma_qv_op_bounds(f1@, sf@, 2int * 0x100000, 0x100000int * 0x100000);
        }
        let f2 = f1.div_by(&sf);
        let vh = Vec2::new(self.viewport.x.half(), self.viewport.y.half());
        proof {
            lemma_qv_op_bounds(p@.x, vh@.x, 0x100000, 2int * 0x100000);
            lemma_qv_op_bounds(p@.y, vh@.y, 0x100000, 2int * 0x100000);
        }
        let u = p.minus(&vh);
        proof {
            lemma_qv_op_bounds(
                u@.x,
                f2@,
                4int * 0x100000int * 0x100000,
                2int * 0x100000 * 0x100000int * 0x100000,
            );
            lemma_qv_op_bounds(
                u@.y,
                f2@,
                4int * 0x100000int * 0x100000,
                2int * 0x100000 * 0x100000int * 0x100000,
            );
        }
        let t = u.scaled(&f2);
        proof {
            lemma_qv_op_bounds(
                self@.center.x,
                t@.x,
                0x100000,
                8int * 0x100000 * 0x100000 * 0x100000 * 0x100000int * 0x100000,
            );
            lemma_qv_op_bounds(
                self@.center.y,
                t@.y,
                0x100000,
                8int * 0x100000 * 0x100000 * 0x100000 * 0x100000int * 0x100000,
            );
        }
        let c2 = self.center.plus(&t);
        proof {
            lemma_zoom_center_equiv(self@.center.x, self@.scale, qv_half(self@.viewport.x),
                factor@, p@.x);
            lemma_zoom_center_equiv(self@.center.y, self@.scale, qv_half(self@.viewport.y),
                factor@, p@.y);
        }
        self.center = c2;
        self.scale = sf;
    }
}

/// Rearrangement: `(x + c) - y` denotes `c + (x - y)`.
#[verifier::rlimit(50)]
proof fn lemma_sub_of_add(x: Qv, c: Qv, y: Qv)
    ensures
        qv_eq(qv_sub(qv_add(x, c), y), qv_add(c, qv_sub(x, y))),
{
    lemma_mul_dist_add(x.n * c.d, c.n * x.d, y.d);
    lemma_mul_dist_sub(x.n * y.d, y.n * x.d, c.d);
    lemma_mul_dist_add_sub(
        (x.n * c.d) * y.d,
        (c.n * x.d) * y.d,
        y.n * (x.d * c.d),
        c.d * (x.d * y.d),
    );
    lemma_mul_dist_add_sub(
        c.n * (x.d * y.d),
        (x.n * y.d) * c.d,
        (y.n * x.d) * c.d,
        (x.d * c.d) * y.d,
    );
    assert(((x.n * c.d) * y.d) * (c.d * (x.d * y.d)) == ((x.n * y.d) * c.d) * ((x.d * c.d) * y.d))
        by (nonlinear_arith);
    assert(((c.n * x.d) * y.d) * (c.d * (x.d * y.d)) == (c.n * (x.d * y.d)) * ((x.d * c.d) * y.d))
        by (nonlinear_arith);
    assert((y.n * (x.d * c.d)) * (c.d * (x.d * y.d)) == ((y.n * x.d) * c.d) * ((x.d * c.d) * y.d))
        by (nonlinear_arith);
}

/// Monomial shuffle on four atoms: `(a*b*c) * (b*d*c) == (a*d*c) * (b*b*c)`.
proof fn lemma_mono_zoom1(a: int, b: int, c: int, d: int)
    ensures
        ((a * b) * c) * ((b * d) * c) == (a * (d * c)) * ((b * b) * c),
{
    assert(((a * b) * c) * ((b * d) * c) == (a * (d * c)) * ((b * b) * c))
        by (nonlinear_arith);
}

/// Monomial shuffle on four atoms: `(a*b*d) * (b*d*c) == (a*d*d) * (b*b*c)`.
proof fn lemma_mono_zoom2(a: int, b: int, c: int, d: int)
    ensures
        ((a * b) * d) * ((b * d) * c) == (a * (d * d)) * ((b * b) * c),
{
    assert(((a * b) * d) * ((b * d) * c) == (a * (d * d)) * ((b * b) * c))
        by (nonlinear_arith);
}

/// Factoring: `u/s - u/(s*f)` denotes `u * ((f - 1) / (s*f))`.
#[verifier::rlimit(50)]
proof fn lemma_div_difference_factor(u: Qv, s: Qv, f: Qv)
    ensures
        qv_eq(
            qv_sub(qv_div(u, s), qv_div(u, qv_mul(s, f))),
            qv_mul(u, qv_div(qv_sub(f, qv_int(1)), qv_mul(s, f))),
        ),
{
    // each numerator is a difference of two monomials
    assert((u.n * s.d) * (u.d * (s.n * f.n)) == (u.n * u.d) * ((s.n * s.d) * f.n))
        by (nonlinear_arith);
    assert((u.n * (s.d * f.d)) * (u.d * s.n) == (u.n * u.d) * ((s.n * s.d) * f.d))
        by (nonlinear_arith);
    assert(u.n * ((f.n * 1 - 1 * f.d) * (s.d * f.d))
        == (u.n * s.d) * (f.d * f.n) - (u.n * s.d) * (f.d * f.d)) by (nonlinear_arith);
    assert((u.d * s.n) * (u.d * (s.n * f.n)) == ((u.d * u.d) * (s.n * s.n)) * f.n)
        by (nonlinear_arith);
    assert(u.d * ((f.d * 1) * (s.n * f.n)) == ((u.d * f.d) * s.n) * f.n) by (nonlinear_arith);
    // cross-multiply the differences monomial by monomial
    lemma_mul_dist_sub(
        (u.n * u.d) * ((s.n * s.d) * f.n),
        (u.n * u.d) * ((s.n * s.d) * f.d),
        ((u.d * f.d) * s.n) * f.n,
    );
    lemma_mul_dist_sub(
        (u.n * s.d) * (f.d * f.n),
        (u.n * s.d) * (f.d * f.d),
        ((u.d * u.d) * (s.n * s.n)) * f.n,
    );
    // regroup every monomial over the pair products `u.n * s.d` and `u.d * s.n`
    assert((u.n * u.d) * ((s.n * s.d) * f.n) == ((u.n * s.d) * (u.d * s.n)) * f.n)
        by (nonlinear_arith);
    assert((u.n * u.d) * ((s.n * s.d) * f.d) == ((u.n * s.d) * (u.d * s.n)) * f.d)
        by (nonlinear_arith);
    assert(((u.d * f.d) * s.n) * f.n == ((u.d * s.n) * f.d) * f.n) by (nonlinear_arith);
    assert(((u.d * u.d) * (s.n * s.n)) * f.n == ((u.d * s.n) * (u.d * s.n)) * f.n)
        by (nonlinear_arith);
    lemma_mono_zoom1(u.n * s.d, u.d * s.n, f.n, f.d);
    lemma_mono_zoom2(u.n * s.d, u.d * s.n, f.n, f.d);
    assert(((u.n * u.d) * ((s.n * s.d) * f.n)) * (((u.d * f.d) * s.n) * f.n)
        == ((u.n * s.d) * (f.d * f.n)) * (((u.d * u.d) * (s.n * s.n)) * f.n));
    assert(((u.n * u.d) * ((s.n * s.d) * f.d)) * (((u.d * f.d) * s.n) * f.n)
        == ((u.n * s.d) * (f.d * f.d)) * (((u.d * u.d) * (s.n * s.n)) * f.n));
}

/// The center computed by `zoom_at` (the factored form it evaluates)
/// denotes the same value as the specification form `zoom_center1`.
proof fn lemma_zoom_center_equiv(c: Qv, s: Qv, vh: Qv, f: Qv, p: Qv)
    requires
        qv_wf(c),
        qv_wf(s),
        qv_pos(s),
        qv_wf(vh),
        qv_wf(f),
        qv_pos(f),
        qv_wf(p),
    ensures
        qv_eq(
            qv_add(c, qv_mul(qv_sub(p, vh), qv_div(qv_sub(f, qv_int(1)), qv_mul(s, f)))),
            zoom_center1(c, s, vh, f, p),
        ),
{
    let u = qv_sub(p, vh);
    let sf = qv_mul(s, f);
    let x = qv_div(u, s);
    let y = qv_div(u, sf);
    let alt = qv_add(c, qv_mul(u, qv_div(qv_sub(f, qv_int(1)), sf)));
    let mid = qv_add(c, qv_sub(x, y));
    // well-formedness of the intermediate representations
    lemma_qv_wf_ops(p, vh);
    lemma_qv_wf_ops(s, f);
    assert(qv_pos(sf)) by {
        assert(s.n * f.n > 0) by (nonlinear_arith)
            requires s.n > 0, f.n > 0;
    }
    lemma_qv_wf_ops(u, s);
    lemma_qv_wf_ops(u, sf);
    lemma_qv_wf_ops(x, y);
    lemma_qv_wf_ops(c, qv_sub(x, y));
    // (x + c) - y  ~  c + (x - y)
    lemma_sub_of_add(x, c, y);
    // x - y  ~  u * ((f - 1) / (s*f))
    lemma_div_difference_factor(u, s, f);
    lemma_eq_add_left(c, qv_sub(x, y), qv_mul(u, qv_div(qv_sub(f, qv_int(1)), sf)));
    lemma_qv_eq_trans(qv_sub(qv_add(x, c), y), mid, alt);
    assert(qv_eq(alt, zoom_center1(c, s, vh, f, p)));
}

/// Transform inverse (one axis): mapping a world point to the screen and
/// back yields the same world point.
proof fn lemma_transform_inverse1(c: Qv, s: Qv, vh: Qv, w: Qv)
    requires
        qv_wf(c),
        qv_wf(s),
        qv_pos(s),
        qv_wf(vh),
        qv_wf(w),
    ensures
        qv_eq(stw1(c, s, vh, wts1(c, s, vh, w)), w),
{
    let a = qv_sub(w, c);
    let b = qv_mul(a, s);
    // well-formedness of the intermediate representations
    lemma_qv_wf_ops(w, c);
    lemma_qv_wf_ops(a, s);
    lemma_qv_wf_ops(b, s);
    lemma_qv_wf_ops(b, vh);
    lemma_qv_wf_ops(qv_add(b, vh), vh);
    lemma_qv_wf_ops(qv_sub(qv_add(b, vh), vh), s);
    // ((b + vh) - vh)  ~  b
    lemma_add_sub_cancel(b, vh);
    lemma_eq_div_right(qv_sub(qv_add(b, vh), vh), b, s);
    // (a * s) / s  ~  a
    lemma_mul_div_cancel(a, s);
    lemma_qv_eq_trans(qv_div(qv_sub(qv_add(b, vh), vh), s), qv_div(b, s), a);
    lemma_eq_add_right(qv_div(qv_sub(qv_add(b, vh), vh), s), a, c);
    // (w - c) + c  ~  w
    lemma_sub_add_cancel(w, c);
    lemma_qv_wf_ops(a, c);
    lemma_qv_eq_trans(
        qv_add(qv_div(qv_sub(qv_add(b, vh), vh), s), c),
        qv_add(a, c),
        w,
    );
}

/// Law (transform inverse): for every well-formed camera and world point,
/// `screen_to_world(world_to_screen(w))` denotes exactly `w` on both axes.
pub proof fn lemma_transform_inverse(cam: CamV, w: V2v)
    requires
        cam_wf(cam),
        v2_wf(w),
    ensures
        qv_eq(stw_v(cam, wts_v(cam, w)).x, w.x),
        qv_eq(stw_v(cam, wts_v(cam, w)).y, w.y),
{
    lemma_qv_wf_ops(cam.viewport.x, cam.viewport.x);
    lemma_qv_wf_ops(cam.viewport.y, cam.viewport.y);
    lemma_transform_inverse1(cam.center.x, cam.scale, qv_half(cam.viewport.x), w.x);
    lemma_transform_inverse1(cam.center.y, cam.scale, qv_half(cam.viewport.y), w.y);
}

/// Zoom fixed point (one axis): after zooming at screen point `p`, the
/// world point that was under `p` maps back to `p`.
proof fn lemma_zoom_fixed_point1(c: Qv, s: Qv, vh: Qv, f: Qv, p: Qv)
    requires
        qv_wf(c),
        qv_wf(s),
        qv_pos(s),
        qv_wf(vh),
        qv_wf(f),
        qv_pos(f),
        qv_wf(p),
    ensures
        qv_eq(
            wts1(zoom_center1(c, s, vh, f, p), qv_mul(s, f), vh, stw1(c, s, vh, p)),
            p,
        ),
{
    let wb = stw1(c, s, vh, p);
    let sf = qv_mul(s, f);
    let u = qv_sub(p, vh);
    let y = qv_div(u, sf);
    let cz = qv_sub(wb, y);
    assert(qv_pos(sf)) by {
        assert(s.n * f.n > 0) by (nonlinear_arith)
            requires s.n > 0, f.n > 0;
    }
    // well-formedness of the intermediates
    lemma_qv_wf_ops(p, vh);
    lemma_qv_wf_ops(s, f);
    lemma_qv_wf_ops(u, s);
    lemma_qv_wf_ops(qv_div(u, s), c);
    lemma_qv_wf_ops(u, sf);
    lemma_qv_wf_ops(wb, y);
    lemma_qv_wf_ops(wb, cz);
    lemma_qv_wf_ops(y, sf);
    // wb - (wb - y)  ~  y
    lemma_sub_sub_cancel(wb, y);
    lemma_eq_mul_right(qv_sub(wb, cz), y, sf);
    // (u / sf) * sf  ~  u
    lemma_div_mul_cancel(u, sf);
    lemma_qv_eq_trans(qv_mul(qv_sub(wb, cz), sf), qv_mul(y, sf), u);
    lemma_eq_add_right(qv_mul(qv_sub(wb, cz), sf), u, vh);
    // (p - vh) + vh  ~  p
    lemma_sub_add_cancel(p, vh);
    lemma_qv_wf_ops(u, vh);
    lemma_qv_eq_trans(
        qv_add(qv_mul(qv_sub(wb, cz), sf), vh),
        qv_add(u, vh),
        p,
    );
}

/// Law (zoom fixed point): for every well-formed camera, screen point `p`
/// and positive factor `f`, the world point under `p` before `zoom_at`
/// is mapped back to `p` by the zoomed camera, on both axes.
pub proof fn lemma_zoom_fixed_point(cam: CamV, f: Qv, p: V2v)
    requires
        cam_wf(cam),
        qv_wf(f),
        qv_pos(f),
        v2_wf(p),
    ensures
        qv_eq(wts_v(zoom_v(cam, f, p), stw_v(cam, p)).x, p.x),
        qv_eq(wts_v(zoom_v(cam, f, p), stw_v(cam, p)).y, p.y),
{
    lemma_qv_wf_ops(cam.viewport.x, cam.viewport.x);
    lemma_qv_wf_ops(cam.viewport.y, cam.viewport.y);
    lemma_zoom_fixed_point1(cam.center.x, cam.scale, qv_half(cam.viewport.x), f, p.x);
    lemma_zoom_fixed_point1(cam.center.y, cam.scale, qv_half(cam.viewport.y), f, p.y);
}

} // verus!
