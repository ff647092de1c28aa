//! Three-component vectors of scaled scalars.

use vstd::prelude::*;
use crate::fx::{fx_mul, fx_mul_s, mag};

verus! {

/// A 3-component vector; each component is a scaled scalar (see [`crate::fx`]).
#[derive(Clone, Copy, PartialEq, Eq, Structural, Debug)]
pub struct Vec3 {
    pub x: i128,
    pub y: i128,
    pub z: i128,
}

/// Every component has magnitude at most `k`.
pub open spec fn vec_bounded(v: Vec3, k: int) -> bool {
    mag(v.x as int) <= k && mag(v.y as int) <= k && mag(v.z as int) <= k
}

/// First component of the scaled cross product.
pub open spec fn cross_x_s(a: Vec3, b: Vec3) -> int {
    fx_mul_s(a.y as int, b.z as int) - fx_mul_s(a.z as int, b.y as int)
}

/// Second component of the scaled cross product.
pub open spec fn cross_y_s(a: Vec3, b: Vec3) -> int {
    fx_mul_s(a.z as int, b.x as int) - fx_mul_s(a.x as int, b.z as int)
}

/// Third component of the scaled cross product.
pub open spec fn cross_z_s(a: Vec3, b: Vec3) -> int {
    fx_mul_s(a.x as int, b.y as int) - fx_mul_s(a.y as int, b.x as int)
}

impl Vec3 {
    /// Build a vector from its components.
    pub fn new(x: i128, y: i128, z: i128) -> (r: Vec3)
        ensures
            r.x == x && r.y == y && r.z == z,
    {
        Vec3 { x, y, z }
    }

    /// The zero vector.
    pub fn zeros() -> (r: Vec3)
        ensures
            r.x == 0 && r.y == 0 && r.z == 0,
    {
        Vec3 { x: 0, y: 0, z: 0 }
    }

    /// Cross product of two scaled vectors.
    pub fn cross(&self, other: &Vec3) -> (r: Vec3)
        requires
            vec_bounded(*self, 1_000_000_000_000_000_000),
            vec_bounded(*other, 1_000_000_000_000_000_000),
        ensures
            r.x == cross_x_s(*self, *other),
            r.y == cross_y_s(*self, *other),
            r.z == cross_z_s(*self, *other),
            vec_bounded(r, 20_000_000_000_000_000_000_000),
    {
        proof {
            let bb: int = 1_000_000_000_000_000_000;
            crate::fx::lemma_fx_mul_s_bound(self.y as int, other.z as int, bb, bb);
            crate::fx::lemma_fx_mul_s_bound(self.z as int, other.y as int, bb, bb);
            crate::fx::lemma_fx_mul_s_bound(self.z as int, other.x as int, bb, bb);
            crate::fx::lemma_fx_mul_s_bound(self.x as int, other.z as int, bb, bb);
            crate::fx::lemma_fx_mul_s_bound(self.x as int, other.y as int, bb, bb);
            crate::fx::lemma_fx_mul_s_bound(self.y as int, other.x as int, bb, bb);
        }
        let rx: i128 = fx_mul(self.y, other.z) - fx_mul(self.z, other.y);
        let ry: i128 = fx_mul(self.z, other.x) - fx_mul(self.x, other.z);
        let rz: i128 = fx_mul(self.x, other.y) - fx_mul(self.y, other.x);
        Vec3 { x: rx, y: ry, z: rz }
    }
}

} // verus!
