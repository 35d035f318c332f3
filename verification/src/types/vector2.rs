//! Two-dimensional vectors in fixed-point coordinates.

use crate::fixed::{
    div_i64, div_trunc, fp_mul, fp_mul_spec, is_sqrt_floor, isqrt_u64, lemma_sqrt_floor_is,
    lemma_sqrt_floor_pos, sqrt_floor, SCALE,
};
use vstd::prelude::*;

verus! {

/// Largest component magnitude for which the metric operations
/// (`length`, `normalized`, `distance`, `dot`) stay within `i64`.
pub const VEC_LIMIT: i64 = 1_500_000_000;

/// A pair of fixed-point coordinates (thousandths of a unit).
#[derive(Clone, Copy, Debug, PartialEq, Eq, Structural)]
pub struct Vector2 {
    pub x: i64,
    pub y: i64,
}

impl Vector2 {
    /// The zero vector, the default value.
    pub fn new() -> (r: Self)
        ensures
            r == (Vector2 { x: 0 as i64, y: 0 as i64 }),
    {
        Self { x: 0, y: 0 }
    }

    /// The zero vector.
    pub fn zero() -> (r: Self)
        ensures
            r == (Vector2 { x: 0 as i64, y: 0 as i64 }),
    {
        Self { x: 0, y: 0 }
    }

    /// The vector `(1.0, 1.0)`.
    pub fn identity() -> (r: Self)
        ensures
            r == (Vector2 { x: SCALE, y: SCALE }),
    {
        Self { x: SCALE, y: SCALE }
    }

    /// The unit vector along the x axis.
    pub fn unit_x() -> (r: Self)
        ensures
            r == (Vector2 { x: SCALE, y: 0 as i64 }),
    {
        Self { x: SCALE, y: 0 }
    }

    /// The unit vector along the y axis.
    pub fn unit_y() -> (r: Self)
        ensures
            r == (Vector2 { x: 0 as i64, y: SCALE }),
    {
        Self { x: 0, y: SCALE }
    }

    /// Whether both components are small enough for the metric operations.
    pub open spec fn in_metric_range(self) -> bool {
        &&& -VEC_LIMIT <= self.x <= VEC_LIMIT
        &&& -VEC_LIMIT <= self.y <= VEC_LIMIT
    }

    /// Componentwise sum.
    pub fn add(self, rhs: Vector2) -> (r: Vector2)
        requires
            i64::MIN <= self.x + rhs.x <= i64::MAX,
            i64::MIN <= self.y + rhs.y <= i64::MAX,
        ensures
            r.x == self.x + rhs.x,
            r.y == self.y + rhs.y,
    {
        Vector2 { x: self.x + rhs.x, y: self.y + rhs.y }
    }

    /// Componentwise difference.
    pub fn sub(self, rhs: Vector2) -> (r: Vector2)
        requires
            i64::MIN <= self.x - rhs.x <= i64::MAX,
            i64::MIN <= self.y - rhs.y <= i64::MAX,
        ensures
            r.x == self.x - rhs.x,
            r.y == self.y - rhs.y,
    {
        Vector2 { x: self.x - rhs.x, y: self.y - rhs.y }
    }

    /// Componentwise fixed-point product.
    pub fn mul(self, rhs: Vector2) -> (r: Vector2)
        requires
            self.in_metric_range(),
            rhs.in_metric_range(),
        ensures
            r.x == fp_mul_spec(self.x as int, rhs.x as int),
            r.y == fp_mul_spec(self.y as int, rhs.y as int),
    {
        Vector2 { x: fp_mul(self.x, rhs.x), y: fp_mul(self.y, rhs.y) }
    }

    /// Componentwise fixed-point quotient.
    pub fn div(self, rhs: Vector2) -> (r: Vector2)
        requires
            self.in_metric_range(),
            rhs.x != 0,
            rhs.y != 0,
            rhs.x != i64::MIN,
            rhs.y != i64::MIN,
        ensures
            r.x == div_trunc(self.x * SCALE, rhs.x as int),
            r.y == div_trunc(self.y * SCALE, rhs.y as int),
    {
        Vector2 { x: div_i64(self.x * SCALE, rhs.x), y: div_i64(self.y * SCALE, rhs.y) }
    }

    /// Both components shifted by a fixed-point scalar.
    pub fn add_scalar(self, rhs: i64) -> (r: Vector2)
        requires
            i64::MIN <= self.x + rhs <= i64::MAX,
            i64::MIN <= self.y + rhs <= i64::MAX,
        ensures
            r.x == self.x + rhs,
            r.y == self.y + rhs,
    {
        Vector2 { x: self.x + rhs, y: self.y + rhs }
    }

    /// Both components shifted down by a fixed-point scalar.
    pub fn sub_scalar(self, rhs: i64) -> (r: Vector2)
        requires
            i64::MIN <= self.x - rhs <= i64::MAX,
            i64::MIN <= self.y - rhs <= i64::MAX,
        ensures
            r.x == self.x - rhs,
            r.y == self.y - rhs,
    {
        Vector2 { x: self.x - rhs, y: self.y - rhs }
    }

    /// Both components scaled by a fixed-point scalar.
    pub fn mul_scalar(self, rhs: i64) -> (r: Vector2)
        requires
            self.in_metric_range(),
            -VEC_LIMIT <= rhs <= VEC_LIMIT,
        ensures
            r.x == fp_mul_spec(self.x as int, rhs as int),
            r.y == fp_mul_spec(self.y as int, rhs as int),
    {
        Vector2 { x: fp_mul(self.x, rhs), y: fp_mul(self.y, rhs) }
    }

    /// Both components divided by a fixed-point scalar.
    pub fn div_scalar(self, rhs: i64) -> (r: Vector2)
        requires
            self.in_metric_range(),
            rhs != 0,
            rhs != i64::MIN,
        ensures
            r.x == div_trunc(self.x * SCALE, rhs as int),
            r.y == div_trunc(self.y * SCALE, rhs as int),
    {
        Vector2 { x: div_i64(self.x * SCALE, rhs), y: div_i64(self.y * SCALE, rhs) }
    }

    /// The opposite vector.
    pub fn neg(self) -> (r: Vector2)
        requires
            self.x != i64::MIN,
            self.y != i64::MIN,
        ensures
            r.x == -self.x,
            r.y == -self.y,
    {
        Vector2 { x: -self.x, y: -self.y }
    }

    /// Length of the vector, rounded down to the nearest fixed-point step.
    pub fn length(&mut self) -> (r: i64)
        requires
            old(self).in_metric_range(),
        ensures
            *final(self) == *old(self),
            r == sqrt_floor(old(self).x * old(self).x + old(self).y * old(self).y),
            is_sqrt_floor(old(self).x * old(self).x + old(self).y * old(self).y, r as int),
    {
        proof {
            assert(0 <= self.x * self.x <= 2_250_000_000_000_000_000) by (nonlinear_arith)
                requires
                    -VEC_LIMIT <= self.x <= VEC_LIMIT,
            ;
            assert(0 <= self.y * self.y <= 2_250_000_000_000_000_000) by (nonlinear_arith)
                requires
                    -VEC_LIMIT <= self.y <= VEC_LIMIT,
            ;
        }
        let sq: u64 = ((self.x * self.x) as u64) + ((self.y * self.y) as u64);
        let root: u64 = isqrt_u64(sq);
        proof {
            lemma_sqrt_floor_is(sq as int, root as int);
            assert(root * root <= sq < 0x1_0000_0000_0000_0000);
            assert(root <= 0xFFFF_FFFFu64) by (nonlinear_arith)
                requires
                    root * root < 0x1_0000_0000_0000_0000,
            ;
        }
        root as i64
    }

    /// The vector scaled to length one; the zero vector stays zero,
    /// avoiding a division by zero.
    pub fn normalized(&mut self) -> (r: Vector2)
        requires
            old(self).in_metric_range(),
        ensures
            *final(self) == *old(self),
            old(self).x == 0 && old(self).y == 0 ==> r == (Vector2 { x: 0 as i64, y: 0 as i64 }),
            !(old(self).x == 0 && old(self).y == 0) ==> {
                let len = sqrt_floor(old(self).x * old(self).x + old(self).y * old(self).y);
                r.x == div_trunc(old(self).x * SCALE, len) && r.y == div_trunc(
                    old(self).y * SCALE,
                    len,
                )
            },
    {
        if self.x == 0 && self.y == 0 {
            return Vector2::zero();
        }
        let len: i64 = self.length();
        proof {
            let n = self.x * self.x + self.y * self.y;
            assert(n >= 1) by (nonlinear_arith)
                requires
                    n == self.x * self.x + self.y * self.y,
                    !(self.x == 0 && self.y == 0),
            ;
            lemma_sqrt_floor_pos(n, len as int);
        }
        Vector2 { x: div_i64(self.x * SCALE, len), y: div_i64(self.y * SCALE, len) }
    }

    /// Distance to another vector, rounded down.
    pub fn distance(&mut self, other: Vector2) -> (r: i64)
        requires
            old(self).in_metric_range(),
            other.in_metric_range(),
        ensures
            *final(self) == *old(self),
            is_sqrt_floor(
                (old(self).x - other.x) * (old(self).x - other.x) + (old(self).y - other.y) * (
                old(self).y - other.y),
                r as int,
            ),
    {
        let dx: i64 = self.x - other.x;
        let dy: i64 = self.y - other.y;
        proof {
            assert(dx * dx <= 3_000_000_000i64 * 3_000_000_000i64) by (nonlinear_arith)
                requires
                    -3_000_000_000 <= dx <= 3_000_000_000,
            ;
            assert(dy * dy <= 3_000_000_000i64 * 3_000_000_000i64) by (nonlinear_arith)
                requires
                    -3_000_000_000 <= dy <= 3_000_000_000,
            ;
        }
        let dxm: u64 = if dx >= 0 {
            dx as u64
        } else {
            (-dx) as u64
        };
        let dym: u64 = if dy >= 0 {
            dy as u64
        } else {
            (-dy) as u64
        };
        proof {
            assert(dxm * dxm == dx * dx) by (nonlinear_arith)
                requires
                    dxm == dx || dxm as int == -(dx as int),
            ;
            assert(dym * dym == dy * dy) by (nonlinear_arith)
                requires
                    dym == dy || dym as int == -(dy as int),
            ;
        }
        let sq: u64 = dxm * dxm + dym * dym;
        let root: u64 = isqrt_u64(sq);
        proof {
            assert(root * root <= sq < 0x1_0000_0000_0000_0000);
            assert(root <= 0xFFFF_FFFFu64) by (nonlinear_arith)
                requires
                    root * root < 0x1_0000_0000_0000_0000,
            ;
        }
        root as i64
    }

    /// Fixed-point dot product.
    pub fn dot(&mut self, other: Vector2) -> (r: i64)
        requires
            old(self).in_metric_range(),
            other.in_metric_range(),
        ensures
            *final(self) == *old(self),
            r == div_trunc(old(self).x * other.x + old(self).y * other.y, SCALE as int),
    {
        proof {
            assert(-3_000_000_000_000_000_000 <= self.x * other.x <= 3_000_000_000_000_000_000)
                by (nonlinear_arith)
                requires
                    -VEC_LIMIT <= self.x <= VEC_LIMIT,
                    -VEC_LIMIT <= other.x <= VEC_LIMIT,
            ;
            assert(-3_000_000_000_000_000_000 <= self.y * other.y <= 3_000_000_000_000_000_000)
                by (nonlinear_arith)
                requires
                    -VEC_LIMIT <= self.y <= VEC_LIMIT,
                    -VEC_LIMIT <= other.y <= VEC_LIMIT,
            ;
        }
        div_i64(self.x * other.x + self.y * other.y, SCALE)
    }

    /// Shift this vector in place by a difference vector.
    pub fn translate(&mut self, difference: Vector2)
        requires
            i64::MIN <= old(self).x + difference.x <= i64::MAX,
            i64::MIN <= old(self).y + difference.y <= i64::MAX,
        ensures
            final(self).x == old(self).x + difference.x,
            final(self).y == old(self).y + difference.y,
    {
        self.x = self.x + difference.x;
        self.y = self.y + difference.y;
    }
}

} // verus!
