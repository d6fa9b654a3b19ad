//! Three-component fixed-point vectors: positions, velocities, directions.

use vstd::prelude::*;

verus! {

use crate::fixed::{
    in_range, isqrt, lemma_scale_mag, lemma_sq_le, mag, scale_mul, sqrt, tdiv, FIX_MAX,
};

/// A vector of three fixed-point scalars (millionths of a world unit).
#[derive(Clone, Copy, Debug, PartialEq, Eq, Structural)]
pub struct Vec3 {
    pub x: i64,
    pub y: i64,
    pub z: i64,
}

impl Vec3 {
    /// Every component within the magnitude bound the controller admits.
    pub open spec fn wf(self) -> bool {
        in_range(self.x as int) && in_range(self.y as int) && in_range(self.z as int)
    }

    /// Squared length, exact.
    pub open spec fn len2(self) -> int {
        self.x * self.x + self.y * self.y + self.z * self.z
    }

    /// Squared length of the horizontal (gravity-orthogonal) part.
    pub open spec fn xz_len2(self) -> int {
        self.x * self.x + self.z * self.z
    }

    pub fn zero() -> (r: Vec3)
        ensures
            r.x == 0 && r.y == 0 && r.z == 0,
            r.wf(),
    {
        Vec3 { x: 0, y: 0, z: 0 }
    }

    /// The vector with the vertical component dropped.
    pub fn horizontal(&self) -> (r: Vec3)
        ensures
            r.x == self.x && r.y == 0 && r.z == self.z,
            r.len2() == self.xz_len2(),
            self.wf() ==> r.wf(),
    {
        Vec3 { x: self.x, y: 0, z: self.z }
    }

    /// Squared length in executable code.
    pub fn len_sq(&self) -> (r: i64)
        requires
            self.wf(),
        ensures
            r == self.len2(),
            0 <= r <= 3_000_000_000_000_000_000,
    {
        proof {
            lemma_sq_bound(self.x as int);
            lemma_sq_bound(self.y as int);
            lemma_sq_bound(self.z as int);
        }
        self.x * self.x + self.y * self.y + self.z * self.z
    }

    /// Componentwise sum.
    pub fn plus(&self, o: &Vec3) -> (r: Vec3)
        requires
            in_range(self.x + o.x),
            in_range(self.y + o.y),
            in_range(self.z + o.z),
        ensures
            r.x == self.x + o.x && r.y == self.y + o.y && r.z == self.z + o.z,
            r.wf(),
    {
        Vec3 { x: self.x + o.x, y: self.y + o.y, z: self.z + o.z }
    }

    /// Componentwise difference.
    pub fn minus(&self, o: &Vec3) -> (r: Vec3)
        requires
            in_range(self.x - o.x),
            in_range(self.y - o.y),
            in_range(self.z - o.z),
        ensures
            r.x == self.x - o.x && r.y == self.y - o.y && r.z == self.z - o.z,
            r.wf(),
    {
        Vec3 { x: self.x - o.x, y: self.y - o.y, z: self.z - o.z }
    }

    /// The vector rescaled so its length becomes `target`: each component is
    /// `c * target / sqrt(len2)`, truncated toward zero. This is the
    /// fixed-point image of `normalize() * target`.
    pub fn scaled_to(&self, target: i64) -> (r: Vec3)
        requires
            self.wf(),
            0 <= target <= FIX_MAX,
            self.len2() >= 1,
        ensures
            ({
                let n = sqrt(self.len2() as nat) as int;
                r.x == tdiv(self.x * target, n) && r.y == tdiv(self.y * target, n) && r.z == tdiv(
                    self.z * target,
                    n,
                )
            }),
            -target <= r.x <= target,
            -target <= r.y <= target,
            -target <= r.z <= target,
            r.wf(),
    {
        let lsq = self.len_sq();
        let n = isqrt(lsq);
        proof {
            assert(n >= 1) by (nonlinear_arith)
                requires
                    n >= 0,
                    lsq >= 1,
                    lsq < (n + 1) * (n + 1),
            ;
            lemma_sq_nonneg(self.x as int, self.z as int);
            lemma_sq_nonneg(self.y as int, self.y as int);
            lemma_sq_le(self.x as int, n as int, lsq as int);
            lemma_sq_le(self.y as int, n as int, lsq as int);
            lemma_sq_le(self.z as int, n as int, lsq as int);
            lemma_mag_mul_bound(self.x as int, target as int);
            lemma_mag_mul_bound(self.y as int, target as int);
            lemma_mag_mul_bound(self.z as int, target as int);
            lemma_scale_mag(self.x as int, target as int, n as int);
            lemma_scale_mag(self.y as int, target as int, n as int);
            lemma_scale_mag(self.z as int, target as int, n as int);
        }
        Vec3 {
            x: scale_mul(self.x, target, n),
            y: scale_mul(self.y, target, n),
            z: scale_mul(self.z, target, n),
        }
    }
}

/// A square of an admissible scalar fits comfortably in `i64`.
proof fn lemma_sq_bound(a: int)
    requires
        in_range(a),
    ensures
        0 <= a * a <= 1_000_000_000_000_000_000,
{
    assert(0 <= a * a <= 1_000_000_000_000_000_000) by (nonlinear_arith)
        requires
            -1_000_000_000 <= a <= 1_000_000_000,
    ;
}

/// Squares never lower a sum they are part of.
proof fn lemma_sq_nonneg(a: int, b: int)
    ensures
        a * a >= 0,
        b * b >= 0,
{
    assert(a * a >= 0 && b * b >= 0) by (nonlinear_arith);
}

/// The product of two admissible magnitudes fits in `i64`.
proof fn lemma_mag_mul_bound(a: int, b: int)
    requires
        in_range(a),
        in_range(b),
    ensures
        mag(a) * mag(b) <= i64::MAX,
{
    assert(mag(a) * mag(b) <= i64::MAX) by (nonlinear_arith)
        requires
            0 <= mag(a) <= 1_000_000_000,
            0 <= mag(b) <= 1_000_000_000,
    ;
}

} // verus!
