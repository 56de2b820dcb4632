//! Triples of fixed-point scalars: positions, directions and displacements.
use vstd::prelude::*;
use crate::fixed::{fx_add, fx_mul, fx_sub, minus, plus, times};

verus! {

/// A point or a displacement in world space, one scalar per axis.
#[derive(Clone, Copy, Debug, PartialEq, Eq, Structural)]
pub struct Vec3 {
    pub x: i64,
    pub y: i64,
    pub z: i64,
}

impl Vec3 {
    /// Componentwise saturating sum.
    pub open spec fn translated(self, by: Vec3) -> Vec3 {
        Vec3 {
            x: plus(self.x as int, by.x as int) as i64,
            y: plus(self.y as int, by.y as int) as i64,
            z: plus(self.z as int, by.z as int) as i64,
        }
    }

    /// Componentwise saturating difference `self - other`.
    pub open spec fn offset_from(self, other: Vec3) -> Vec3 {
        Vec3 {
            x: minus(self.x as int, other.x as int) as i64,
            y: minus(self.y as int, other.y as int) as i64,
            z: minus(self.z as int, other.z as int) as i64,
        }
    }

    /// Every component multiplied by the scalar `k`.
    pub open spec fn scaled(self, k: int) -> Vec3 {
        Vec3 {
            x: times(self.x as int, k) as i64,
            y: times(self.y as int, k) as i64,
            z: times(self.z as int, k) as i64,
        }
    }

    /// Squared length: the saturating sum of the squared components.
    pub open spec fn norm_squared(self) -> int {
        plus(
            plus(times(self.x as int, self.x as int), times(self.y as int, self.y as int)),
            times(self.z as int, self.z as int),
        )
    }

    /// Whether the point lies in the closed box spanned by `lo` and `hi`.
    pub open spec fn within(self, lo: Vec3, hi: Vec3) -> bool {
        &&& lo.x <= self.x <= hi.x
        &&& lo.y <= self.y <= hi.y
        &&& lo.z <= self.z <= hi.z
    }

    pub fn new(x: i64, y: i64, z: i64) -> (v: Vec3)
        ensures
            v == (Vec3 { x, y, z }),
    {
        Vec3 { x, y, z }
    }

    /// The origin, which is also the zero displacement.
    pub fn zero() -> (v: Vec3)
        ensures
            v == (Vec3 { x: 0, y: 0, z: 0 }),
    {
        Vec3 { x: 0, y: 0, z: 0 }
    }

    pub fn translate(self, by: Vec3) -> (v: Vec3)
        ensures
            v == self.translated(by),
    {
        Vec3 { x: fx_add(self.x, by.x), y: fx_add(self.y, by.y), z: fx_add(self.z, by.z) }
    }

    pub fn difference(self, other: Vec3) -> (v: Vec3)
        ensures
            v == self.offset_from(other),
    {
        Vec3 { x: fx_sub(self.x, other.x), y: fx_sub(self.y, other.y), z: fx_sub(self.z, other.z) }
    }

    pub fn scale(self, k: i64) -> (v: Vec3)
        ensures
            v == self.scaled(k as int),
    {
        Vec3 { x: fx_mul(self.x, k), y: fx_mul(self.y, k), z: fx_mul(self.z, k) }
    }

    pub fn magnitude2(self) -> (m: i64)
        ensures
            m == self.norm_squared(),
    {
        fx_add(fx_add(fx_mul(self.x, self.x), fx_mul(self.y, self.y)), fx_mul(self.z, self.z))
    }

    pub fn is_within(self, lo: Vec3, hi: Vec3) -> (b: bool)
        ensures
            b == self.within(lo, hi),
    {
        self.x <= hi.x && self.x >= lo.x && self.y <= hi.y && self.y >= lo.y && self.z <= hi.z
            && self.z >= lo.z
    }
}

} // verus!
