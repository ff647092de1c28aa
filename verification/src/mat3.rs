//! 3-by-3 matrices of scaled scalars, and the rotation laws they obey.

use vstd::prelude::*;
use crate::fx::{fx_mul, fx_mul_s, mag, SCALE};
use crate::vec3::{vec_bounded, Vec3};

verus! {

/// A 3-by-3 matrix of scaled scalars; `mIJ` is the entry in row `I`, column `J`.
#[derive(Clone, Copy, PartialEq, Eq, Structural, Debug)]
pub struct Mat3 {
    pub m00: i128,
    pub m01: i128,
    pub m02: i128,
    pub m10: i128,
    pub m11: i128,
    pub m12: i128,
    pub m20: i128,
    pub m21: i128,
    pub m22: i128,
}

/// Every entry has magnitude at most `k`.
pub open spec fn mat_bounded(m: Mat3, k: int) -> bool {
    mag(m.m00 as int) <= k && mag(m.m01 as int) <= k && mag(m.m02 as int) <= k && mag(
    m.m10 as int) <= k && mag(m.m11 as int) <= k && mag(m.m12 as int) <= k && mag(m.m20 as int)
        <= k && mag(m.m21 as int) <= k && mag(m.m22 as int) <= k
}

/// Row `i` of a matrix, as a triple of unbounded integers.
pub open spec fn row_s(m: Mat3, i: int) -> (int, int, int) {
    if i == 0 {
        (m.m00 as int, m.m01 as int, m.m02 as int)
    } else if i == 1 {
        (m.m10 as int, m.m11 as int, m.m12 as int)
    } else {
        (m.m20 as int, m.m21 as int, m.m22 as int)
    }
}

/// Column `j` of a matrix, as a triple of unbounded integers.
pub open spec fn col_s(m: Mat3, j: int) -> (int, int, int) {
    if j == 0 {
        (m.m00 as int, m.m10 as int, m.m20 as int)
    } else if j == 1 {
        (m.m01 as int, m.m11 as int, m.m21 as int)
    } else {
        (m.m02 as int, m.m12 as int, m.m22 as int)
    }
}

/// Exact dot product of two integer triples (no scaling).
pub open spec fn dot3e(u: (int, int, int), v: (int, int, int)) -> int {
    u.0 * v.0 + u.1 * v.1 + u.2 * v.2
}

/// Scaled dot product: each pairwise product is scaled back down before summing,
/// exactly as the executable matrix routines compute it.
pub open spec fn dot3_s(u: (int, int, int), v: (int, int, int)) -> int {
    fx_mul_s(u.0, v.0) + fx_mul_s(u.1, v.1) + fx_mul_s(u.2, v.2)
}

/// Entry `(i, j)` of the scaled matrix product.
pub open spec fn mm_entry_s(a: Mat3, b: Mat3, i: int, j: int) -> int {
    dot3_s(row_s(a, i), col_s(b, j))
}

/// Gram entry: the exact dot product of columns `i` and `j`.
pub open spec fn gram_s(m: Mat3, i: int, j: int) -> int {
    dot3e(col_s(m, i), col_s(m, j))
}

/// Exact determinant of a matrix of scaled entries (itself scaled by `SCALE^3`
/// when the entries represent a real matrix).
pub open spec fn det_s(m: Mat3) -> int {
    m.m00 * (m.m11 * m.m22 - m.m12 * m.m21) - m.m01 * (m.m10 * m.m22 - m.m12 * m.m20) + m.m02 * (
    m.m10 * m.m21 - m.m11 * m.m20)
}

/// The columns are pairwise orthogonal and each has squared length `sq`.
pub open spec fn orthonormal_s(m: Mat3, sq: int) -> bool {
    gram_s(m, 0, 0) == sq && gram_s(m, 1, 1) == sq && gram_s(m, 2, 2) == sq && gram_s(m, 0, 1)
        == 0 && gram_s(m, 0, 2) == 0 && gram_s(m, 1, 2) == 0 && gram_s(m, 1, 0) == 0 && gram_s(
    m, 2, 0) == 0 && gram_s(m, 2, 1) == 0
}

impl Mat3 {
    /// Build a matrix from its rows.
    #[allow(clippy::too_many_arguments)]
    pub fn new(
        m00: i128,
        m01: i128,
        m02: i128,
        m10: i128,
        m11: i128,
        m12: i128,
        m20: i128,
        m21: i128,
        m22: i128,
    ) -> (r: Mat3)
        ensures
            r == (Mat3 { m00, m01, m02, m10, m11, m12, m20, m21, m22 }),
    {
        Mat3 { m00, m01, m02, m10, m11, m12, m20, m21, m22 }
    }

    /// Transpose: rows and columns exchanged, entries unchanged.
    pub fn transpose(&self) -> (r: Mat3)
        ensures
            r.m00 == self.m00 && r.m01 == self.m10 && r.m02 == self.m20,
            r.m10 == self.m01 && r.m11 == self.m11 && r.m12 == self.m21,
            r.m20 == self.m02 && r.m21 == self.m12 && r.m22 == self.m22,
            forall|i: int| 0 <= i < 3 ==> row_s(r, i) == col_s(*self, i),
    {
        Mat3 {
            m00: self.m00,
            m01: self.m10,
            m02: self.m20,
            m10: self.m01,
            m11: self.m11,
            m12: self.m21,
            m20: self.m02,
            m21: self.m12,
            m22: self.m22,
        }
    }

    /// Scaled matrix product: entry `(i, j)` is the scaled dot product of
    /// row `i` of `self` with column `j` of `other`.
    pub fn mat_mul(&self, other: &Mat3) -> (r: Mat3)
        requires
            mat_bounded(*self, 2_000_000_000_000_000_000),
            mat_bounded(*other, 2_000_000_000_000_000_000),
        ensures
            r.m00 == mm_entry_s(*self, *other, 0, 0),
            r.m01 == mm_entry_s(*self, *other, 0, 1),
            r.m02 == mm_entry_s(*self, *other, 0, 2),
            r.m10 == mm_entry_s(*self, *other, 1, 0),
            r.m11 == mm_entry_s(*self, *other, 1, 1),
            r.m12 == mm_entry_s(*self, *other, 1, 2),
            r.m20 == mm_entry_s(*self, *other, 2, 0),
            r.m21 == mm_entry_s(*self, *other, 2, 1),
            r.m22 == mm_entry_s(*self, *other, 2, 2),
            mat_bounded(r, 120_000_000_000_000_000_000_000),
    {
        let r00: i128 = dot_row_col(self.m00, self.m01, self.m02, other.m00, other.m10, other.m20);
        let r01: i128 = dot_row_col(self.m00, self.m01, self.m02, other.m01, other.m11, other.m21);
        let r02: i128 = dot_row_col(self.m00, self.m01, self.m02, other.m02, other.m12, other.m22);
        let r10: i128 = dot_row_col(self.m10, self.m11, self.m12, other.m00, other.m10, other.m20);
        let r11: i128 = dot_row_col(self.m10, self.m11, self.m12, other.m01, other.m11, other.m21);
        let r12: i128 = dot_row_col(self.m10, self.m11, self.m12, other.m02, other.m12, other.m22);
        let r20: i128 = dot_row_col(self.m20, self.m21, self.m22, other.m00, other.m10, other.m20);
        let r21: i128 = dot_row_col(self.m20, self.m21, self.m22, other.m01, other.m11, other.m21);
        let r22: i128 = dot_row_col(self.m20, self.m21, self.m22, other.m02, other.m12, other.m22);
        Mat3 {
            m00: r00,
            m01: r01,
            m02: r02,
            m10: r10,
            m11: r11,
            m12: r12,
            m20: r20,
            m21: r21,
            m22: r22,
        }
    }

    /// Apply the matrix to a vector: scaled dot product of each row with `v`.
    pub fn apply(&self, v: &Vec3) -> (r: Vec3)
        requires
            mat_bounded(*self, 130_000_000_000_000_000_000_000),
            vec_bounded(*v, 1_000_000_000_000_000),
        ensures
            r.x == dot3_s(row_s(*self, 0), (v.x as int, v.y as int, v.z as int)),
            r.y == dot3_s(row_s(*self, 1), (v.x as int, v.y as int, v.z as int)),
            r.z == dot3_s(row_s(*self, 2), (v.x as int, v.y as int, v.z as int)),
    {
        proof {
            let bm: int = 130_000_000_000_000_000_000_000;
            let bv: int = 1_000_000_000_000_000;
            crate::fx::lemma_fx_mul_s_bound(self.m00 as int, v.x as int, bm, bv);
            crate::fx::lemma_fx_mul_s_bound(self.m01 as int, v.y as int, bm, bv);
            crate::fx::lemma_fx_mul_s_bound(self.m02 as int, v.z as int, bm, bv);
            crate::fx::lemma_fx_mul_s_bound(self.m10 as int, v.x as int, bm, bv);
            crate::fx::lemma_fx_mul_s_bound(self.m11 as int, v.y as int, bm, bv);
            crate::fx::lemma_fx_mul_s_bound(self.m12 as int, v.z as int, bm, bv);
            crate::fx::lemma_fx_mul_s_bound(self.m20 as int, v.x as int, bm, bv);
            crate::fx::lemma_fx_mul_s_bound(self.m21 as int, v.y as int, bm, bv);
            crate::fx::lemma_fx_mul_s_bound(self.m22 as int, v.z as int, bm, bv);
        }
        let rx: i128 = fx_mul(self.m00, v.x) + fx_mul(self.m01, v.y) + fx_mul(self.m02, v.z);
        let ry: i128 = fx_mul(self.m10, v.x) + fx_mul(self.m11, v.y) + fx_mul(self.m12, v.z);
        let rz: i128 = fx_mul(self.m20, v.x) + fx_mul(self.m21, v.y) + fx_mul(self.m22, v.z);
        Vec3 { x: rx, y: ry, z: rz }
    }
}

/// Scaled dot product of one row with one column.
fn dot_row_col(a0: i128, a1: i128, a2: i128, b0: i128, b1: i128, b2: i128) -> (r: i128)
    requires
        mag(a0 as int) <= 2_000_000_000_000_000_000,
        mag(a1 as int) <= 2_000_000_000_000_000_000,
        mag(a2 as int) <= 2_000_000_000_000_000_000,
        mag(b0 as int) <= 2_000_000_000_000_000_000,
        mag(b1 as int) <= 2_000_000_000_000_000_000,
        mag(b2 as int) <= 2_000_000_000_000_000_000,
    ensures
        r == dot3_s((a0 as int, a1 as int, a2 as int), (b0 as int, b1 as int, b2 as int)),
        mag(r as int) <= 120_000_000_000_000_000_000_000,
{
    proof {
        let bb: int = 2_000_000_000_000_000_000;
        crate::fx::lemma_fx_mul_s_bound(a0 as int, b0 as int, bb, bb);
        crate::fx::lemma_fx_mul_s_bound(a1 as int, b1 as int, bb, bb);
        crate::fx::lemma_fx_mul_s_bound(a2 as int, b2 as int, bb, bb);
    }
    fx_mul(a0, b0) + fx_mul(a1, b1) + fx_mul(a2, b2)
}

/// Rotation about the third coordinate axis, given the cosine `c` and sine
/// `s` of an angle as scaled scalars: rows `(c, s, 0)`, `(-s, c, 0)`,
/// `(0, 0, 1)`, with 1 represented by `SCALE` — the rotation by *minus* that
/// angle in the right-handed sense.
pub fn rot_axis3(c: i128, s: i128) -> (r: Mat3)
    requires
        mag(c as int) <= 2 * SCALE,
        mag(s as int) <= 2 * SCALE,
    ensures
        r.m00 == c && r.m01 == s && r.m02 == 0,
        r.m10 == -s && r.m11 == c && r.m12 == 0,
        r.m20 == 0 && r.m21 == 0 && r.m22 == SCALE,
        mat_bounded(r, 2_000_000_000_000_000_000),
{
    Mat3 { m00: c, m01: s, m02: 0, m10: -s, m11: c, m12: 0, m20: 0, m21: 0, m22: SCALE }
}

/// Orthonormality of the axis rotation, to the accuracy of its trigonometric
/// inputs: if `c^2 + s^2` misses `SCALE^2` by at most `d`, every Gram entry of
/// the rotation misses the scaled identity by at most `d`, and the determinant
/// misses `SCALE^3` by at most `d * SCALE`.
pub proof fn lemma_rot_axis3_orthonormal(m: Mat3, c: int, s: int, d: int)
    requires
        m.m00 == c && m.m01 == s && m.m02 == 0,
        m.m10 == -s && m.m11 == c && m.m12 == 0,
        m.m20 == 0 && m.m21 == 0 && m.m22 == SCALE,
        mag(c * c + s * s - (SCALE as int) * (SCALE as int)) <= d,
    ensures
        mag(gram_s(m, 0, 0) - (SCALE as int) * (SCALE as int)) <= d,
        mag(gram_s(m, 1, 1) - (SCALE as int) * (SCALE as int)) <= d,
        gram_s(m, 2, 2) == (SCALE as int) * (SCALE as int),
        gram_s(m, 0, 1) == 0 && gram_s(m, 1, 0) == 0,
        gram_s(m, 0, 2) == 0 && gram_s(m, 2, 0) == 0,
        gram_s(m, 1, 2) == 0 && gram_s(m, 2, 1) == 0,
        mag(det_s(m) - (SCALE as int) * (SCALE as int) * (SCALE as int)) <= d * (SCALE as int),
{
    let sq = (SCALE as int) * (SCALE as int);
    assert(gram_s(m, 0, 0) == c * c + s * s) by (nonlinear_arith)
        requires
            m.m00 == c && m.m10 == -s && m.m20 == 0,
    {}
    assert(gram_s(m, 1, 1) == c * c + s * s) by (nonlinear_arith)
        requires
            m.m01 == s && m.m11 == c && m.m21 == 0,
    {}
    assert(gram_s(m, 2, 2) == sq) by (nonlinear_arith)
        requires
            m.m02 == 0 && m.m12 == 0 && m.m22 == SCALE,
            sq == (SCALE as int) * (SCALE as int),
    {}
    assert(gram_s(m, 0, 1) == 0 && gram_s(m, 1, 0) == 0) by (nonlinear_arith)
        requires
            m.m00 == c && m.m10 == -s && m.m20 == 0,
            m.m01 == s && m.m11 == c && m.m21 == 0,
    {}
    assert(gram_s(m, 0, 2) == 0 && gram_s(m, 2, 0) == 0 && gram_s(m, 1, 2) == 0 && gram_s(m, 2, 1)
        == 0);
    assert(det_s(m) == (c * c + s * s) * (SCALE as int)) by (nonlinear_arith)
        requires
            m.m00 == c && m.m01 == s && m.m02 == 0,
            m.m10 == -s && m.m11 == c && m.m12 == 0,
            m.m20 == 0 && m.m21 == 0 && m.m22 == SCALE,
    {}
    assert(mag(det_s(m) - sq * (SCALE as int)) <= d * (SCALE as int)) by (nonlinear_arith)
        requires
            det_s(m) == (c * c + s * s) * (SCALE as int),
            sq == (SCALE as int) * (SCALE as int),
            mag(c * c + s * s - sq) <= d,
            SCALE > 0,
    {}
}

/// A matrix with orthogonal columns of equal squared length scales every dot
/// product by that squared length: the key step behind composition of rotations.
proof fn lemma_expand_row_product(
    a0: int,
    a1: int,
    a2: int,
    v0: int,
    v1: int,
    v2: int,
    w0: int,
    w1: int,
    w2: int,
)
    ensures
        (a0 * v0 + a1 * v1 + a2 * v2) * (a0 * w0 + a1 * w1 + a2 * w2) == (a0 * a0) * (v0 * w0) + (
        a0 * a1) * (v0 * w1) + (a0 * a2) * (v0 * w2) + (a1 * a0) * (v1 * w0) + (a1 * a1) * (v1
            * w1) + (a1 * a2) * (v1 * w2) + (a2 * a0) * (v2 * w0) + (a2 * a1) * (v2 * w1) + (a2
            * a2) * (v2 * w2),
{
    let l = a0 * v0 + a1 * v1 + a2 * v2;
    assert(l * (a0 * w0 + a1 * w1 + a2 * w2) == l * (a0 * w0) + l * (a1 * w1) + l * (a2 * w2))
        by (nonlinear_arith)
    {}
    lemma_group3(a0 * v0, a1 * v1, a2 * v2, l, a0 * w0);
    lemma_group3(a0 * v0, a1 * v1, a2 * v2, l, a1 * w1);
    lemma_group3(a0 * v0, a1 * v1, a2 * v2, l, a2 * w2);
    lemma_reassoc(a0, v0, a0, w0);
    lemma_reassoc(a1, v1, a0, w0);
    lemma_reassoc(a2, v2, a0, w0);
    lemma_reassoc(a0, v0, a1, w1);
    lemma_reassoc(a1, v1, a1, w1);
    lemma_reassoc(a2, v2, a1, w1);
    lemma_reassoc(a0, v0, a2, w2);
    lemma_reassoc(a1, v1, a2, w2);
    lemma_reassoc(a2, v2, a2, w2);
}

/// Reassociation of a product of two products.
pub(crate) proof fn lemma_reassoc(p: int, q: int, r: int, s: int)
    by (nonlinear_arith)
    ensures
        (p * q) * (r * s) == (p * r) * (q * s),
{
}

/// Gram entry of the *scaled* matrix product: the exact dot product of its
/// computed columns `i` and `j`.
pub open spec fn mm_gram_s(a: Mat3, b: Mat3, i: int, j: int) -> int {
    mm_entry_s(a, b, 0, i) * mm_entry_s(a, b, 0, j) + mm_entry_s(a, b, 1, i) * mm_entry_s(
        a,
        b,
        1,
        j,
    ) + mm_entry_s(a, b, 2, i) * mm_entry_s(a, b, 2, j)
}

/// A scaled dot product lies within three units of the exact dot product
/// scaled down: each of its three terms truncates away less than one unit.
proof fn lemma_dot3_s_close(u: (int, int, int), v: (int, int, int))
    ensures
        mag((SCALE as int) * dot3_s(u, v) - dot3e(u, v)) <= 3 * SCALE,
{
    crate::fx::lemma_tdiv(u.0 * v.0, SCALE as int);
    crate::fx::lemma_tdiv(u.1 * v.1, SCALE as int);
    crate::fx::lemma_tdiv(u.2 * v.2, SCALE as int);
}

/// The exact dot product of componentwise-bounded triples is bounded.
proof fn lemma_dot3e_bound(u: (int, int, int), v: (int, int, int), bu: int, bv: int)
    requires
        mag(u.0) <= bu && mag(u.1) <= bu && mag(u.2) <= bu,
        mag(v.0) <= bv && mag(v.1) <= bv && mag(v.2) <= bv,
        bu >= 0,
        bv >= 0,
    ensures
        mag(dot3e(u, v)) <= 3 * (bu * bv),
{
    crate::fx::lemma_mag_mul(u.0, v.0);
    crate::fx::lemma_mag_mul(u.1, v.1);
    crate::fx::lemma_mag_mul(u.2, v.2);
    assert(mag(u.0) * mag(v.0) <= bu * bv) by (nonlinear_arith)
        requires
            0 <= mag(u.0) <= bu,
            0 <= mag(v.0) <= bv,
    {}
    assert(mag(u.1) * mag(v.1) <= bu * bv) by (nonlinear_arith)
        requires
            0 <= mag(u.1) <= bu,
            0 <= mag(v.1) <= bv,
    {}
    assert(mag(u.2) * mag(v.2) <= bu * bv) by (nonlinear_arith)
        requires
            0 <= mag(u.2) <= bu,
            0 <= mag(v.2) <= bv,
    {}
}

/// Products of nearby bounded factors are nearby.
pub(crate) proof fn lemma_prod_close(x: int, xh: int, y: int, yh: int, d: int, bb: int)
    by (nonlinear_arith)
    requires
        mag(x - xh) <= d,
        mag(y - yh) <= d,
        mag(xh) <= bb,
        mag(yh) <= bb,
        d >= 0,
        bb >= 0,
    ensures
        mag(x * y - xh * yh) <= 2 * (d * bb) + d * d,
{
}

/// Orthonormality of the *computed* composition, truncation included: when
/// the left factor has orthogonal columns of squared length `SCALE^2` (as the
/// transposed frame rotation and the transposed Earth rotation do), every
/// Gram entry of the scaled matrix product stays within `250 * SCALE` of the
/// corresponding Gram entry of the right factor.  With an orthonormal right
/// factor the computed composition is therefore orthonormal to a relative
/// accuracy of a few times `1 / SCALE`, and the rotation it applies preserves
/// Euclidean norms to that accuracy.
pub proof fn lemma_scaled_composition_gram(a: Mat3, b: Mat3, i: int, j: int)
    requires
        orthonormal_s(a, (SCALE as int) * (SCALE as int)),
        mat_bounded(a, 2 * SCALE),
        mat_bounded(b, 2 * SCALE),
        0 <= i < 3,
        0 <= j < 3,
    ensures
        mag(mm_gram_s(a, b, i, j) - gram_s(b, i, j)) <= 250 * SCALE,
{
    let s = SCALE as int;
    let u = col_s(b, i);
    let v = col_s(b, j);
    let e0i = mm_entry_s(a, b, 0, i);
    let e1i = mm_entry_s(a, b, 1, i);
    let e2i = mm_entry_s(a, b, 2, i);
    let e0j = mm_entry_s(a, b, 0, j);
    let e1j = mm_entry_s(a, b, 1, j);
    let e2j = mm_entry_s(a, b, 2, j);
    let h0i = dot3e(row_s(a, 0), u);
    let h1i = dot3e(row_s(a, 1), u);
    let h2i = dot3e(row_s(a, 2), u);
    let h0j = dot3e(row_s(a, 0), v);
    let h1j = dot3e(row_s(a, 1), v);
    let h2j = dot3e(row_s(a, 2), v);
    lemma_dot3_s_close(row_s(a, 0), u);
    lemma_dot3_s_close(row_s(a, 1), u);
    lemma_dot3_s_close(row_s(a, 2), u);
    lemma_dot3_s_close(row_s(a, 0), v);
    lemma_dot3_s_close(row_s(a, 1), v);
    lemma_dot3_s_close(row_s(a, 2), v);
    lemma_dot3e_bound(row_s(a, 0), u, 200_000_000_000_000, 200_000_000_000_000);
    lemma_dot3e_bound(row_s(a, 1), u, 200_000_000_000_000, 200_000_000_000_000);
    lemma_dot3e_bound(row_s(a, 2), u, 200_000_000_000_000, 200_000_000_000_000);
    lemma_dot3e_bound(row_s(a, 0), v, 200_000_000_000_000, 200_000_000_000_000);
    lemma_dot3e_bound(row_s(a, 1), v, 200_000_000_000_000, 200_000_000_000_000);
    lemma_dot3e_bound(row_s(a, 2), v, 200_000_000_000_000, 200_000_000_000_000);
    lemma_prod_close(
        s * e0i,
        h0i,
        s * e0j,
        h0j,
        300_000_000_000_000,
        120_000_000_000_000_000_000_000_000_000,
    );
    lemma_prod_close(
        s * e1i,
        h1i,
        s * e1j,
        h1j,
        300_000_000_000_000,
        120_000_000_000_000_000_000_000_000_000,
    );
    lemma_prod_close(
        s * e2i,
        h2i,
        s * e2j,
        h2j,
        300_000_000_000_000,
        120_000_000_000_000_000_000_000_000_000,
    );
    lemma_reassoc(s, e0i, s, e0j);
    lemma_reassoc(s, e1i, s, e1j);
    lemma_reassoc(s, e2i, s, e2j);
    lemma_group3(e0i * e0j, e1i * e1j, e2i * e2j, mm_gram_s(a, b, i, j), s * s);
    lemma_rotate_dot(a, u, v, s * s);
    assert(dot3e(u, v) == gram_s(b, i, j));
    assert(mag(mm_gram_s(a, b, i, j) * (s * s) - gram_s(b, i, j) * (s * s))
        <= 219_000_000_000_000_000_000_000_000_000_000_000_000_000_000);
    assert(mag(mm_gram_s(a, b, i, j) - gram_s(b, i, j)) <= 250 * s) by (nonlinear_arith)
        requires
            mag(mm_gram_s(a, b, i, j) * (s * s) - gram_s(b, i, j) * (s * s))
                <= 219_000_000_000_000_000_000_000_000_000_000_000_000_000_000,
            s == 100_000_000_000_000,
    {}
}

/// Grouping step: three equal-coefficient terms collapse onto their common factor.
proof fn lemma_group3(x0: int, x1: int, x2: int, g: int, p: int)
    by (nonlinear_arith)
    requires
        g == x0 + x1 + x2,
    ensures
        x0 * p + x1 * p + x2 * p == g * p,
{
}

proof fn lemma_rotate_dot(a: Mat3, v: (int, int, int), w: (int, int, int), sq: int)
    requires
        orthonormal_s(a, sq),
    ensures
        dot3e(
            (dot3e(row_s(a, 0), v), dot3e(row_s(a, 1), v), dot3e(row_s(a, 2), v)),
            (dot3e(row_s(a, 0), w), dot3e(row_s(a, 1), w), dot3e(row_s(a, 2), w)),
        ) == sq * dot3e(v, w),
{
    lemma_expand_row_product(
        a.m00 as int,
        a.m01 as int,
        a.m02 as int,
        v.0,
        v.1,
        v.2,
        w.0,
        w.1,
        w.2,
    );
    lemma_expand_row_product(
        a.m10 as int,
        a.m11 as int,
        a.m12 as int,
        v.0,
        v.1,
        v.2,
        w.0,
        w.1,
        w.2,
    );
    lemma_expand_row_product(
        a.m20 as int,
        a.m21 as int,
        a.m22 as int,
        v.0,
        v.1,
        v.2,
        w.0,
        w.1,
        w.2,
    );
    lemma_group3(
        (a.m00 as int) * (a.m00 as int),
        (a.m10 as int) * (a.m10 as int),
        (a.m20 as int) * (a.m20 as int),
        gram_s(a, 0, 0),
        v.0 * w.0,
    );
    lemma_group3(
        (a.m01 as int) * (a.m01 as int),
        (a.m11 as int) * (a.m11 as int),
        (a.m21 as int) * (a.m21 as int),
        gram_s(a, 1, 1),
        v.1 * w.1,
    );
    lemma_group3(
        (a.m02 as int) * (a.m02 as int),
        (a.m12 as int) * (a.m12 as int),
        (a.m22 as int) * (a.m22 as int),
        gram_s(a, 2, 2),
        v.2 * w.2,
    );
    lemma_group3(
        (a.m00 as int) * (a.m01 as int),
        (a.m10 as int) * (a.m11 as int),
        (a.m20 as int) * (a.m21 as int),
        gram_s(a, 0, 1),
        v.0 * w.1,
    );
    lemma_group3(
        (a.m00 as int) * (a.m02 as int),
        (a.m10 as int) * (a.m12 as int),
        (a.m20 as int) * (a.m22 as int),
        gram_s(a, 0, 2),
        v.0 * w.2,
    );
    lemma_group3(
        (a.m01 as int) * (a.m00 as int),
        (a.m11 as int) * (a.m10 as int),
        (a.m21 as int) * (a.m20 as int),
        gram_s(a, 1, 0),
        v.1 * w.0,
    );
    lemma_group3(
        (a.m01 as int) * (a.m02 as int),
        (a.m11 as int) * (a.m12 as int),
        (a.m21 as int) * (a.m22 as int),
        gram_s(a, 1, 2),
        v.1 * w.2,
    );
    lemma_group3(
        (a.m02 as int) * (a.m00 as int),
        (a.m12 as int) * (a.m10 as int),
        (a.m22 as int) * (a.m20 as int),
        gram_s(a, 2, 0),
        v.2 * w.0,
    );
    lemma_group3(
        (a.m02 as int) * (a.m01 as int),
        (a.m12 as int) * (a.m11 as int),
        (a.m22 as int) * (a.m21 as int),
        gram_s(a, 2, 1),
        v.2 * w.1,
    );
    assert(sq * (v.0 * w.0) + sq * (v.1 * w.1) + sq * (v.2 * w.2) == sq * dot3e(v, w))
        by (nonlinear_arith)
    {}
}

/// Composition law: the exact product of two matrices with orthogonal columns
/// of squared length `sq` again has orthogonal columns, of squared length
/// `sq * sq`.  With `sq == SCALE * SCALE` this is the orthonormality of the
/// composed frame rotation.
pub proof fn lemma_rotation_composition_orthonormal(a: Mat3, b: Mat3, p: Mat3, sq: int)
    requires
        orthonormal_s(a, sq),
        orthonormal_s(b, sq),
        p.m00 == dot3e(row_s(a, 0), col_s(b, 0)),
        p.m01 == dot3e(row_s(a, 0), col_s(b, 1)),
        p.m02 == dot3e(row_s(a, 0), col_s(b, 2)),
        p.m10 == dot3e(row_s(a, 1), col_s(b, 0)),
        p.m11 == dot3e(row_s(a, 1), col_s(b, 1)),
        p.m12 == dot3e(row_s(a, 1), col_s(b, 2)),
        p.m20 == dot3e(row_s(a, 2), col_s(b, 0)),
        p.m21 == dot3e(row_s(a, 2), col_s(b, 1)),
        p.m22 == dot3e(row_s(a, 2), col_s(b, 2)),
    ensures
        orthonormal_s(p, sq * sq),
{
    let c0 = col_s(b, 0);
    let c1 = col_s(b, 1);
    let c2 = col_s(b, 2);
    lemma_rotate_dot(a, c0, c0, sq);
    lemma_rotate_dot(a, c1, c1, sq);
    lemma_rotate_dot(a, c2, c2, sq);
    lemma_rotate_dot(a, c0, c1, sq);
    lemma_rotate_dot(a, c0, c2, sq);
    lemma_rotate_dot(a, c1, c2, sq);
    lemma_rotate_dot(a, c1, c0, sq);
    lemma_rotate_dot(a, c2, c0, sq);
    lemma_rotate_dot(a, c2, c1, sq);
    assert(dot3e(c0, c0) == sq && dot3e(c1, c1) == sq && dot3e(c2, c2) == sq);
    assert(dot3e(c0, c1) == 0 && dot3e(c0, c2) == 0 && dot3e(c1, c2) == 0);
    assert(dot3e(c1, c0) == 0 && dot3e(c2, c0) == 0 && dot3e(c2, c1) == 0);
}

} // verus!
