//! The geometric transform primitive consumed by the shading core.
//!
//! A [`Transform`] is an affine map of the plane with integer entries,
//! written row-major as `[ sx kx tx; ky sy ty ]`.  The shading core only
//! needs two things from it: an identity value and a composition operation
//! that either yields the composed transform or fails (entry overflow or a
//! non-invertible result) without mutating either input.

use vstd::prelude::*;

verus! {

/// An affine transformation `[ sx kx tx; ky sy ty ]` with integer entries.
#[derive(Copy, Clone, Debug, PartialEq, Eq, Structural)]
pub struct Transform {
    pub sx: i32,
    pub kx: i32,
    pub ky: i32,
    pub sy: i32,
    pub tx: i32,
    pub ty: i32,
}

impl Transform {
    /// Determinant of the linear part, as a mathematical integer.
    pub open spec fn det(self) -> int {
        self.sx * self.sy - self.kx * self.ky
    }

    /// A transform is usable for sampling only if its linear part is invertible.
    pub open spec fn is_invertible_spec(self) -> bool {
        self.det() != 0
    }

    pub open spec fn identity_spec() -> Transform {
        Transform { sx: 1, kx: 0, ky: 0, sy: 1, tx: 0, ty: 0 }
    }

    /// The result of applying `self` first and `ts` after it (`ts * self`),
    /// or `None` when an entry of the product leaves the representable range
    /// or the product is not invertible.
    pub open spec fn post_concat_spec(self, ts: Transform) -> Option<Transform> {
        let sx = ts.sx * self.sx + ts.kx * self.ky;
        let kx = ts.sx * self.kx + ts.kx * self.sy;
        let tx = ts.sx * self.tx + ts.kx * self.ty + ts.tx;
        let ky = ts.ky * self.sx + ts.sy * self.ky;
        let sy = ts.ky * self.kx + ts.sy * self.sy;
        let ty = ts.ky * self.tx + ts.sy * self.ty + ts.ty;
        if i32::MIN <= sx <= i32::MAX
            && i32::MIN <= kx <= i32::MAX
            && i32::MIN <= tx <= i32::MAX
            && i32::MIN <= ky <= i32::MAX
            && i32::MIN <= sy <= i32::MAX
            && i32::MIN <= ty <= i32::MAX
            && sx * sy - kx * ky != 0
        {
            Some(Transform {
                sx: sx as i32,
                kx: kx as i32,
                ky: ky as i32,
                sy: sy as i32,
                tx: tx as i32,
                ty: ty as i32,
            })
        } else {
            None
        }
    }

    /// Identity transform.
    pub fn identity() -> (r: Transform)
        ensures
            r == Transform::identity_spec(),
    {
        Transform { sx: 1, kx: 0, ky: 0, sy: 1, tx: 0, ty: 0 }
    }

    /// Builds a transform from its entries, given in the order
    /// `sx, ky, kx, sy, tx, ty`.
    pub fn from_row(sx: i32, ky: i32, kx: i32, sy: i32, tx: i32, ty: i32) -> (r: Transform)
        ensures
            r == (Transform { sx, kx, ky, sy, tx, ty }),
    {
        Transform { sx, kx, ky, sy, tx, ty }
    }

    pub fn is_invertible(&self) -> (r: bool)
        ensures
            r == self.is_invertible_spec(),
    {
        let det: i128 = (mul_wide(self.sx, self.sy) as i128)
            - (mul_wide(self.kx, self.ky) as i128);
        det != 0
    }

    /// Composes `ts` after `self`; fails (returning `None`) rather than
    /// produce an out-of-range or non-invertible transform.
    pub fn post_concat(&self, ts: &Transform) -> (r: Option<Transform>)
        ensures
            r == self.post_concat_spec(*ts),
    {
        let sx: i128 = (mul_wide(ts.sx, self.sx) as i128) + (mul_wide(ts.kx, self.ky) as i128);
        let kx: i128 = (mul_wide(ts.sx, self.kx) as i128) + (mul_wide(ts.kx, self.sy) as i128);
        let tx: i128 = (mul_wide(ts.sx, self.tx) as i128) + (mul_wide(ts.kx, self.ty) as i128)
            + (ts.tx as i128);
        let ky: i128 = (mul_wide(ts.ky, self.sx) as i128) + (mul_wide(ts.sy, self.ky) as i128);
        let sy: i128 = (mul_wide(ts.ky, self.kx) as i128) + (mul_wide(ts.sy, self.sy) as i128);
        let ty: i128 = (mul_wide(ts.ky, self.tx) as i128) + (mul_wide(ts.sy, self.ty) as i128)
            + (ts.ty as i128);
        let lo: i128 = i32::MIN as i128;
        let hi: i128 = i32::MAX as i128;
        if lo <= sx && sx <= hi
            && lo <= kx && kx <= hi
            && lo <= tx && tx <= hi
            && lo <= ky && ky <= hi
            && lo <= sy && sy <= hi
            && lo <= ty && ty <= hi
        {
            let rsx: i32 = sx as i32;
            let rkx: i32 = kx as i32;
            let rtx: i32 = tx as i32;
            let rky: i32 = ky as i32;
            let rsy: i32 = sy as i32;
            let rty: i32 = ty as i32;
            let det: i128 = (mul_wide(rsx, rsy) as i128) - (mul_wide(rkx, rky) as i128);
            if det != 0 {
                Some(Transform { sx: rsx, kx: rkx, ky: rky, sy: rsy, tx: rtx, ty: rty })
            } else {
                None
            }
        } else {
            None
        }
    }
}

/// Multiplies two 32-bit entries exactly, widening so that the product
/// cannot overflow.
fn mul_wide(a: i32, b: i32) -> (r: i64)
    ensures
        r == a * b,
{
    proof {
        assert(-0x4000_0000_0000_0000 <= (a as int) * (b as int) <= 0x4000_0000_0000_0000)
            by (nonlinear_arith)
            requires
                -0x8000_0000 <= a as int <= 0x7FFF_FFFF,
                -0x8000_0000 <= b as int <= 0x7FFF_FFFF,
        ;
    }
    (a as i64) * (b as i64)
}

/// Composing the identity after any transform either gives back that very
/// transform (when it is invertible) or fails (when it is not); in both
/// cases an update driven by the composition leaves the transform unchanged.
pub proof fn lemma_post_concat_identity(t: Transform)
    ensures
        t.post_concat_spec(Transform::identity_spec()) == if t.is_invertible_spec() {
            Some(t)
        } else {
            None::<Transform>
        },
{
}

} // verus!
