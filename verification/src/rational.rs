//! Exact rational scalars.
//!
//! The engine's coordinates, scales and colour channels are exact rationals
//! `n / d` with a positive denominator.  Working over rationals instead of
//! machine reals lets the camera algebra (transform inverses, the zoom
//! fixed point) be stated and proved exactly.

use vstd::prelude::*;

verus! {

/// Mathematical value of a rational scalar: numerator over denominator.
pub struct Qv {
    pub n: int,
    pub d: int,
}

/// A representation is well formed when its denominator is positive.
pub open spec fn qv_wf(a: Qv) -> bool {
    a.d > 0
}

/// Two representations denote the same rational value (cross multiplication).
pub open spec fn qv_eq(a: Qv, b: Qv) -> bool {
    a.n * b.d == b.n * a.d
}

/// The rational denoted is strictly positive (for a well-formed value).
pub open spec fn qv_pos(a: Qv) -> bool {
    a.n > 0
}

pub open spec fn qv_int(i: int) -> Qv {
    Qv { n: i, d: 1 }
}

pub open spec fn qv_add(a: Qv, b: Qv) -> Qv {
    Qv { n: a.n * b.d + b.n * a.d, d: a.d * b.d }
}

pub open spec fn qv_sub(a: Qv, b: Qv) -> Qv {
    Qv { n: a.n * b.d - b.n * a.d, d: a.d * b.d }
}

pub open spec fn qv_mul(a: Qv, b: Qv) -> Qv {
    Qv { n: a.n * b.n, d: a.d * b.d }
}

pub open spec fn qv_div(a: Qv, b: Qv) -> Qv {
    Qv { n: a.n * b.d, d: a.d * b.n }
}

/// Half of a rational; used for the viewport midpoint.
pub open spec fn qv_half(a: Qv) -> Qv {
    Qv { n: a.n, d: 2 * a.d }
}

/// Numerator and denominator both bounded in magnitude by `m`.
pub open spec fn qv_bounded(a: Qv, m: int) -> bool {
    -m <= a.n <= m && 0 < a.d <= m
}

/// The working range of the camera subsystem: inputs this small can be
/// pushed through a whole transform without the intermediates leaving
/// `i128`.
pub open spec fn qv_in_range(a: Qv) -> bool {
    qv_bounded(a, 0x100000)
}

pub open spec fn in_i128(x: int) -> bool {
    i128::MIN <= x <= i128::MAX
}

/// The products formed by `qv_add`/`qv_sub` on these operands fit in `i128`.
pub open spec fn qv_addsub_fits(a: Qv, b: Qv) -> bool {
    &&& in_i128(a.n * b.d)
    &&& in_i128(b.n * a.d)
    &&& in_i128(a.n * b.d + b.n * a.d)
    &&& in_i128(a.n * b.d - b.n * a.d)
    &&& in_i128(a.d * b.d)
}

/// The cross products compared by `qv_eq` fit in `i128`.
pub open spec fn qv_cmp_fits(a: Qv, b: Qv) -> bool {
    in_i128(a.n * b.d) && in_i128(b.n * a.d)
}

/// The products formed by `qv_mul`/`qv_div` on these operands fit in `i128`.
pub open spec fn qv_muldiv_fits(a: Qv, b: Qv) -> bool {
    &&& in_i128(a.n * b.n)
    &&& in_i128(a.n * b.d)
    &&& in_i128(a.d * b.d)
    &&& in_i128(a.d * b.n)
}

/// Bounds propagate through the rational operations; this also discharges
/// the `i128` fit obligations whenever the derived bound itself fits.
pub proof fn lemma_qv_op_bounds(a: Qv, b: Qv, ma: int, mb: int)
    requires
        qv_bounded(a, ma),
        qv_bounded(b, mb),
        1 <= ma,
        1 <= mb,
    ensures
        qv_bounded(qv_add(a, b), 2 * ma * mb),
        qv_bounded(qv_sub(a, b), 2 * ma * mb),
        qv_bounded(qv_mul(a, b), ma * mb),
        qv_pos(b) ==> qv_bounded(qv_div(a, b), ma * mb),
        2 * ma * mb <= i128::MAX ==> qv_addsub_fits(a, b),
        ma * mb <= i128::MAX ==> qv_muldiv_fits(a, b),
{
    assert(-(ma * mb) <= a.n * b.d <= ma * mb) by (nonlinear_arith)
        requires -ma <= a.n <= ma, 0 < b.d <= mb, 1 <= ma, 1 <= mb;
    assert(-(ma * mb) <= b.n * a.d <= ma * mb) by (nonlinear_arith)
        requires -mb <= b.n <= mb, 0 < a.d <= ma, 1 <= ma, 1 <= mb;
    assert(-(ma * mb) <= a.n * b.n <= ma * mb) by (nonlinear_arith)
        requires -ma <= a.n <= ma, -mb <= b.n <= mb, 1 <= ma, 1 <= mb;
    assert(0 < a.d * b.d <= ma * mb) by (nonlinear_arith)
        requires 0 < a.d <= ma, 0 < b.d <= mb, 1 <= ma, 1 <= mb;
    assert(b.n > 0 ==> 0 < a.d * b.n <= ma * mb) by (nonlinear_arith)
        requires 0 < a.d <= ma, -mb <= b.n <= mb, 1 <= ma, 1 <= mb;
    assert(-(ma * mb) <= a.d * b.n <= ma * mb) by (nonlinear_arith)
        requires 0 < a.d <= ma, -mb <= b.n <= mb, 1 <= ma, 1 <= mb;
    assert(ma * mb >= 1) by (nonlinear_arith)
        requires 1 <= ma, 1 <= mb;
    assert(2 * ma * mb == 2 * (ma * mb)) by (nonlinear_arith);
}

/// Distributivity instance: `(p + q) * k`.
pub proof fn lemma_mul_dist_add(p: int, q: int, k: int)
    ensures
        (p + q) * k == p * k + q * k,
{
    assert((p + q) * k == p * k + q * k) by (nonlinear_arith);
}

/// Distributivity instance: `(p - q) * k`.
pub proof fn lemma_mul_dist_sub(p: int, q: int, k: int)
    ensures
        (p - q) * k == p * k - q * k,
{
    assert((p - q) * k == p * k - q * k) by (nonlinear_arith);
}

/// Distributivity instance: `(p + q - r) * k`.
pub proof fn lemma_mul_dist_add_sub(p: int, q: int, r: int, k: int)
    ensures
        (p + q - r) * k == p * k + q * k - r * k,
{
    assert((p + q - r) * k == p * k + q * k - r * k) by (nonlinear_arith);
}

/// Value equality is transitive (through a representation whose denominator
/// is not zero).
#[verifier::rlimit(50)]
pub proof fn lemma_qv_eq_trans(a: Qv, b: Qv, c: Qv)
    requires
        qv_eq(a, b),
        qv_eq(b, c),
        b.d != 0,
    ensures
        qv_eq(a, c),
{
    assert(a.n * c.d == c.n * a.d) by (nonlinear_arith)
        requires
            a.n * b.d == b.n * a.d,
            b.n * c.d == c.n * b.d,
            b.d != 0;
}

/// The operations keep denominators positive.
pub proof fn lemma_qv_wf_ops(a: Qv, b: Qv)
    requires
        qv_wf(a),
        qv_wf(b),
    ensures
        qv_wf(qv_add(a, b)),
        qv_wf(qv_sub(a, b)),
        qv_wf(qv_mul(a, b)),
        qv_wf(qv_half(a)),
        qv_pos(b) ==> qv_wf(qv_div(a, b)),
{
    assert(a.d * b.d > 0) by (nonlinear_arith)
        requires a.d > 0, b.d > 0;
    assert(b.n > 0 ==> a.d * b.n > 0) by (nonlinear_arith)
        requires a.d > 0;
}

/// `(a + b) - b` denotes `a`.
#[verifier::rlimit(50)]
pub proof fn lemma_add_sub_cancel(a: Qv, b: Qv)
    ensures
        qv_eq(qv_sub(qv_add(a, b), b), a),
{
    assert(((a.n * b.d + b.n * a.d) * b.d - b.n * (a.d * b.d)) * a.d
        == a.n * ((a.d * b.d) * b.d)) by (nonlinear_arith);
}

/// `(a - b) + b` denotes `a`.
#[verifier::rlimit(50)]
pub proof fn lemma_sub_add_cancel(a: Qv, b: Qv)
    ensures
        qv_eq(qv_add(qv_sub(a, b), b), a),
{
    assert(((a.n * b.d - b.n * a.d) * b.d + b.n * (a.d * b.d)) * a.d
        == a.n * ((a.d * b.d) * b.d)) by (nonlinear_arith);
}

/// `a - (a - b)` denotes `b`.
#[verifier::rlimit(50)]
pub proof fn lemma_sub_sub_cancel(a: Qv, b: Qv)
    ensures
        qv_eq(qv_sub(a, qv_sub(a, b)), b),
{
    assert((a.n * (a.d * b.d) - (a.n * b.d - b.n * a.d) * a.d) * b.d
        == b.n * (a.d * (a.d * b.d))) by (nonlinear_arith);
}

/// `(a / b) * b` denotes `a`.
#[verifier::rlimit(50)]
pub proof fn lemma_div_mul_cancel(a: Qv, b: Qv)
    ensures
        qv_eq(qv_mul(qv_div(a, b), b), a),
{
    assert(((a.n * b.d) * b.n) * a.d == a.n * ((a.d * b.n) * b.d)) by (nonlinear_arith);
}

/// `(a * b) / b` denotes `a`.
#[verifier::rlimit(50)]
pub proof fn lemma_mul_div_cancel(a: Qv, b: Qv)
    ensures
        qv_eq(qv_div(qv_mul(a, b), b), a),
{
    assert(((a.n * b.n) * b.d) * a.d == a.n * ((a.d * b.d) * b.n)) by (nonlinear_arith);
}

/// Adding the same value on the left respects value equality.
#[verifier::rlimit(50)]
pub proof fn lemma_eq_add_left(c: Qv, x: Qv, y: Qv)
    requires
        qv_eq(x, y),
    ensures
        qv_eq(qv_add(c, x), qv_add(c, y)),
{
    assert((c.n * x.d + x.n * c.d) * (c.d * y.d)
        == (c.n * x.d) * (c.d * y.d) + (x.n * c.d) * (c.d * y.d)) by (nonlinear_arith);
    assert((c.n * y.d + y.n * c.d) * (c.d * x.d)
        == (c.n * y.d) * (c.d * x.d) + (y.n * c.d) * (c.d * x.d)) by (nonlinear_arith);
    assert((c.n * x.d) * (c.d * y.d) == (c.n * y.d) * (c.d * x.d)) by (nonlinear_arith);
    assert((x.n * c.d) * (c.d * y.d) == (x.n * y.d) * (c.d * c.d)) by (nonlinear_arith);
    assert((y.n * c.d) * (c.d * x.d) == (y.n * x.d) * (c.d * c.d)) by (nonlinear_arith);
}

/// Multiplying by the same value on the right respects value equality.
#[verifier::rlimit(50)]
pub proof fn lemma_eq_mul_right(x: Qv, y: Qv, s: Qv)
    requires
        qv_eq(x, y),
    ensures
        qv_eq(qv_mul(x, s), qv_mul(y, s)),
{
    assert((x.n * s.n) * (y.d * s.d) == (x.n * y.d) * (s.n * s.d)) by (nonlinear_arith);
    assert((y.n * s.n) * (x.d * s.d) == (y.n * x.d) * (s.n * s.d)) by (nonlinear_arith);
}

/// Adding the same value on the right respects value equality.
#[verifier::rlimit(50)]
pub proof fn lemma_eq_add_right(x: Qv, y: Qv, c: Qv)
    requires
        qv_eq(x, y),
    ensures
        qv_eq(qv_add(x, c), qv_add(y, c)),
{
    assert((x.n * c.d + c.n * x.d) * (y.d * c.d)
        == (x.n * c.d) * (y.d * c.d) + (c.n * x.d) * (y.d * c.d)) by (nonlinear_arith);
    assert((y.n * c.d + c.n * y.d) * (x.d * c.d)
        == (y.n * c.d) * (x.d * c.d) + (c.n * y.d) * (x.d * c.d)) by (nonlinear_arith);
    assert((x.n * c.d) * (y.d * c.d) == (x.n * y.d) * (c.d * c.d)) by (nonlinear_arith);
    assert((y.n * c.d) * (x.d * c.d) == (y.n * x.d) * (c.d * c.d)) by (nonlinear_arith);
    assert((c.n * x.d) * (y.d * c.d) == (c.n * y.d) * (x.d * c.d)) by (nonlinear_arith);
}

/// Dividing by the same value respects value equality.
#[verifier::rlimit(50)]
pub proof fn lemma_eq_div_right(x: Qv, y: Qv, s: Qv)
    requires
        qv_eq(x, y),
    ensures
        qv_eq(qv_div(x, s), qv_div(y, s)),
{
    assert((x.n * s.d) * (y.d * s.n) == (x.n * y.d) * (s.d * s.n)) by (nonlinear_arith);
    assert((y.n * s.d) * (x.d * s.n) == (y.n * x.d) * (s.d * s.n)) by (nonlinear_arith);
}

/// An exact rational scalar, `n / d` with `d > 0`.
#[derive(Clone, Copy)]
pub struct Q {
    pub n: i128,
    pub d: i128,
}

impl View for Q {
    type V = Qv;

    open spec fn view(&self) -> Qv {
        Qv { n: self.n as int, d: self.d as int }
    }
}

impl Q {
    pub open spec fn wf(self) -> bool {
        qv_wf(self@)
    }

    /// The rational `n / d`.
    pub fn new(n: i64, d: i64) -> (r: Q)
        requires
            d > 0,
        ensures
            r.wf(),
            r@.n == n,
            r@.d == d,
    {
        Q { n: n as i128, d: d as i128 }
    }

    /// The rational denoting the integer `i`.
    pub fn from_int(i: i64) -> (r: Q)
        ensures
            r.wf(),
            r@ == qv_int(i as int),
    {
        Q { n: i as i128, d: 1 }
    }

    /// True when this value lies in the camera subsystem's working range.
    pub fn in_range(&self) -> (r: bool)
        ensures
            r == qv_in_range(self@),
    {
        -0x100000 <= self.n && self.n <= 0x100000 && 0 < self.d && self.d <= 0x100000
    }

    pub fn plus(&self, other: &Q) -> (r: Q)
        requires
            self.wf(),
            other.wf(),
            qv_addsub_fits(self@, other@),
        ensures
            r.wf(),
            r@ == qv_add(self@, other@),
    {
        proof {
            assert(self.d * other.d > 0) by (nonlinear_arith)
                requires self.d > 0, other.d > 0;
        }
        Q { n: self.n * other.d + other.n * self.d, d: self.d * other.d }
    }

    pub fn minus(&self, other: &Q) -> (r: Q)
        requires
            self.wf(),
            other.wf(),
            qv_addsub_fits(self@, other@),
        ensures
            r.wf(),
            r@ == qv_sub(self@, other@),
    {
        proof {
            assert(self.d * other.d > 0) by (nonlinear_arith)
                requires self.d > 0, other.d > 0;
        }
        Q { n: self.n * other.d - other.n * self.d, d: self.d * other.d }
    }

    pub fn times(&self, other: &Q) -> (r: Q)
        requires
            self.wf(),
            other.wf(),
            qv_muldiv_fits(self@, other@),
        ensures
            r.wf(),
            r@ == qv_mul(self@, other@),
    {
        proof {
            assert(self.d * other.d > 0) by (nonlinear_arith)
                requires self.d > 0, other.d > 0;
        }
        Q { n: self.n * other.n, d: self.d * other.d }
    }

    pub fn div_by(&self, other: &Q) -> (r: Q)
        requires
            self.wf(),
            other.wf(),
            qv_pos(other@),
            qv_muldiv_fits(self@, other@),
        ensures
            r.wf(),
            r@ == qv_div(self@, other@),
    {
        proof {
            assert(self.d * other.n > 0) by (nonlinear_arith)
                requires self.d > 0, other.n > 0;
        }
        Q { n: self.n * other.d, d: self.d * other.n }
    }

    /// True when the two representations denote the same rational value.
    pub fn eq_val(&self, other: &Q) -> (r: bool)
        requires
            self.wf(),
            other.wf(),
            qv_cmp_fits(self@, other@),
        ensures
            r == qv_eq(self@, other@),
    {
        self.n * other.d == other.n * self.d
    }

    pub fn half(&self) -> (r: Q)
        requires
            self.wf(),
            in_i128(2 * self@.d),
        ensures
            r.wf(),
            r@ == qv_half(self@),
    {
        Q { n: self.n, d: 2 * self.d }
    }
}

} // verus!
