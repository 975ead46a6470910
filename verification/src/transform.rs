//! Affine transforms over fixed-point integer coordinates.
//!
//! The transform operations the scene graph offers — identity, translation
//! and per-axis scaling — generate exactly the diagonal affine maps
//! `p |-> s * p + t` (the 4x4 homogeneous matrices whose linear part is
//! diagonal). A `Transform` stores that class directly: one scale and one
//! translation component per axis. Composition is written parent-first:
//! `compose(a, b)` is the map that applies `b` first and `a` second.

use vstd::prelude::*;

verus! {

/// A point or displacement in 3-space, with integer coordinates.
///
/// Callers pick a fixed-point interpretation (say, thousandths of a unit);
/// the library never divides, so every operation is exact in that scale.
#[derive(Clone, Copy, PartialEq, Eq, Structural, Debug)]
pub struct Vec3 {
    pub x: i64,
    pub y: i64,
    pub z: i64,
}

/// Mathematical model of a `Vec3`: the same point over unbounded integers.
pub struct Vec3M {
    pub x: int,
    pub y: int,
    pub z: int,
}

impl View for Vec3 {
    type V = Vec3M;

    open spec fn view(&self) -> Vec3M {
        Vec3M { x: self.x as int, y: self.y as int, z: self.z as int }
    }
}

impl Vec3 {
    pub fn new(x: i64, y: i64, z: i64) -> (r: Vec3)
        ensures
            r@ == (Vec3M { x: x as int, y: y as int, z: z as int }),
    {
        Vec3 { x, y, z }
    }
}

/// A homogeneous affine transform with diagonal linear part: per axis,
/// `p |-> s * p + t`. Immutable value type; every operation returns a new
/// `Transform`.
#[derive(Clone, Copy, PartialEq, Eq, Structural, Debug)]
pub struct Transform {
    pub sx: i64,
    pub sy: i64,
    pub sz: i64,
    pub tx: i64,
    pub ty: i64,
    pub tz: i64,
}

/// Mathematical model of a `Transform`, over unbounded integers.
pub struct TransformM {
    pub sx: int,
    pub sy: int,
    pub sz: int,
    pub tx: int,
    pub ty: int,
    pub tz: int,
}

impl View for Transform {
    type V = TransformM;

    open spec fn view(&self) -> TransformM {
        TransformM {
            sx: self.sx as int,
            sy: self.sy as int,
            sz: self.sz as int,
            tx: self.tx as int,
            ty: self.ty as int,
            tz: self.tz as int,
        }
    }
}

/// The identity transform.
pub open spec fn identity_m() -> TransformM {
    TransformM { sx: 1, sy: 1, sz: 1, tx: 0, ty: 0, tz: 0 }
}

/// Apply a transform to a point: per axis, `s * p + t`.
pub open spec fn apply_m(t: TransformM, p: Vec3M) -> Vec3M {
    Vec3M {
        x: t.sx * p.x + t.tx,
        y: t.sy * p.y + t.ty,
        z: t.sz * p.z + t.tz,
    }
}

/// Parent-first composition: `compose_m(a, b)` applies `b` first, then `a`.
pub open spec fn compose_m(a: TransformM, b: TransformM) -> TransformM {
    TransformM {
        sx: a.sx * b.sx,
        sy: a.sy * b.sy,
        sz: a.sz * b.sz,
        tx: a.sx * b.tx + a.tx,
        ty: a.sy * b.ty + a.ty,
        tz: a.sz * b.tz + a.tz,
    }
}

/// Whether an unbounded integer is representable as an `i64`.
pub open spec fn in_i64(v: int) -> bool {
    i64::MIN <= v <= i64::MAX
}

/// Whether the composition of two transforms is representable.
pub open spec fn compose_fits(a: TransformM, b: TransformM) -> bool {
    let c = compose_m(a, b);
    in_i64(c.sx) && in_i64(c.sy) && in_i64(c.sz) && in_i64(c.tx) && in_i64(c.ty) && in_i64(c.tz)
}

/// Whether a transform applied to a point is representable.
pub open spec fn apply_fits(t: TransformM, p: Vec3M) -> bool {
    let q = apply_m(t, p);
    in_i64(q.x) && in_i64(q.y) && in_i64(q.z)
}

/// The product of two `i64`-sized values stays well inside `i128` range.
proof fn lemma_mul_i64_in_i128(a: int, b: int)
    requires
        i64::MIN <= a <= i64::MAX,
        i64::MIN <= b <= i64::MAX,
    ensures
        -0x4000_0000_0000_0000_0000_0000_0000_0000 <= a * b
            <= 0x4000_0000_0000_0000_0000_0000_0000_0000,
{
    assert(-0x4000_0000_0000_0000_0000_0000_0000_0000 <= a * b
        <= 0x4000_0000_0000_0000_0000_0000_0000_0000) by (nonlinear_arith)
        requires
            -0x8000_0000_0000_0000 <= a <= 0x7fff_ffff_ffff_ffff,
            -0x8000_0000_0000_0000 <= b <= 0x7fff_ffff_ffff_ffff,
    ;
}

impl Transform {
    /// The identity transform: leaves every point unchanged.
    pub fn identity() -> (r: Transform)
        ensures
            r@ == identity_m(),
    {
        Transform { sx: 1, sy: 1, sz: 1, tx: 0, ty: 0, tz: 0 }
    }

    /// A pure translation by `(dx, dy, dz)`.
    pub fn translate(dx: i64, dy: i64, dz: i64) -> (r: Transform)
        ensures
            r@ == (TransformM {
                sx: 1,
                sy: 1,
                sz: 1,
                tx: dx as int,
                ty: dy as int,
                tz: dz as int,
            }),
    {
        Transform { sx: 1, sy: 1, sz: 1, tx: dx, ty: dy, tz: dz }
    }

    /// A pure per-axis scaling by `(sx, sy, sz)`. A zero factor is legal and
    /// produces a degenerate (collapsing) transform.
    pub fn scale(sx: i64, sy: i64, sz: i64) -> (r: Transform)
        ensures
            r@ == (TransformM {
                sx: sx as int,
                sy: sy as int,
                sz: sz as int,
                tx: 0,
                ty: 0,
                tz: 0,
            }),
    {
        Transform { sx, sy, sz, tx: 0, ty: 0, tz: 0 }
    }

    /// Compose two transforms, parent-first: the result applies `other`
    /// first, then `self`. Requires the composed components to be
    /// representable; see [`Transform::try_compose`] for the total version.
    pub fn compose(&self, other: &Transform) -> (r: Transform)
        requires
            compose_fits(self@, other@),
        ensures
            r@ == compose_m(self@, other@),
    {
        proof {
            lemma_mul_i64_in_i128(self.sx as int, other.sx as int);
            lemma_mul_i64_in_i128(self.sy as int, other.sy as int);
            lemma_mul_i64_in_i128(self.sz as int, other.sz as int);
            lemma_mul_i64_in_i128(self.sx as int, other.tx as int);
            lemma_mul_i64_in_i128(self.sy as int, other.ty as int);
            lemma_mul_i64_in_i128(self.sz as int, other.tz as int);
        }
        let sx = ((self.sx as i128) * (other.sx as i128)) as i64;
        let sy = ((self.sy as i128) * (other.sy as i128)) as i64;
        let sz = ((self.sz as i128) * (other.sz as i128)) as i64;
        let tx = ((self.sx as i128) * (other.tx as i128) + (self.tx as i128)) as i64;
        let ty = ((self.sy as i128) * (other.ty as i128) + (self.ty as i128)) as i64;
        let tz = ((self.sz as i128) * (other.tz as i128) + (self.tz as i128)) as i64;
        Transform { sx, sy, sz, tx, ty, tz }
    }

    /// Compose two transforms, reporting `None` exactly when the composed
    /// components overflow the representable range.
    pub fn try_compose(&self, other: &Transform) -> (r: Option<Transform>)
        ensures
            r is Some <==> compose_fits(self@, other@),
            r matches Some(t) ==> t@ == compose_m(self@, other@),
    {
        proof {
            lemma_mul_i64_in_i128(self.sx as int, other.sx as int);
            lemma_mul_i64_in_i128(self.sy as int, other.sy as int);
            lemma_mul_i64_in_i128(self.sz as int, other.sz as int);
            lemma_mul_i64_in_i128(self.sx as int, other.tx as int);
            lemma_mul_i64_in_i128(self.sy as int, other.ty as int);
            lemma_mul_i64_in_i128(self.sz as int, other.tz as int);
        }
        let sx = (self.sx as i128) * (other.sx as i128);
        let sy = (self.sy as i128) * (other.sy as i128);
        let sz = (self.sz as i128) * (other.sz as i128);
        let tx = (self.sx as i128) * (other.tx as i128) + (self.tx as i128);
        let ty = (self.sy as i128) * (other.ty as i128) + (self.ty as i128);
        let tz = (self.sz as i128) * (other.tz as i128) + (self.tz as i128);
        let lo = i64::MIN as i128;
        let hi = i64::MAX as i128;
        if lo <= sx && sx <= hi && lo <= sy && sy <= hi && lo <= sz && sz <= hi && lo <= tx
            && tx <= hi && lo <= ty && ty <= hi && lo <= tz && tz <= hi {
            Some(
                Transform {
                    sx: sx as i64,
                    sy: sy as i64,
                    sz: sz as i64,
                    tx: tx as i64,
                    ty: ty as i64,
                    tz: tz as i64,
                },
            )
        } else {
            None
        }
    }

    /// Apply the transform to a point. Requires the transformed coordinates
    /// to be representable; see [`Transform::try_apply`] for the total
    /// version.
    pub fn apply(&self, p: &Vec3) -> (r: Vec3)
        requires
            apply_fits(self@, p@),
        ensures
            r@ == apply_m(self@, p@),
    {
        proof {
            lemma_mul_i64_in_i128(self.sx as int, p.x as int);
            lemma_mul_i64_in_i128(self.sy as int, p.y as int);
            lemma_mul_i64_in_i128(self.sz as int, p.z as int);
        }
        let x = ((self.sx as i128) * (p.x as i128) + (self.tx as i128)) as i64;
        let y = ((self.sy as i128) * (p.y as i128) + (self.ty as i128)) as i64;
        let z = ((self.sz as i128) * (p.z as i128) + (self.tz as i128)) as i64;
        Vec3 { x, y, z }
    }

    /// Apply the transform to a point, reporting `None` exactly when a
    /// transformed coordinate overflows the representable range.
    pub fn try_apply(&self, p: &Vec3) -> (r: Option<Vec3>)
        ensures
            r is Some <==> apply_fits(self@, p@),
            r matches Some(q) ==> q@ == apply_m(self@, p@),
    {
        proof {
            lemma_mul_i64_in_i128(self.sx as int, p.x as int);
            lemma_mul_i64_in_i128(self.sy as int, p.y as int);
            lemma_mul_i64_in_i128(self.sz as int, p.z as int);
        }
        let x = (self.sx as i128) * (p.x as i128) + (self.tx as i128);
        let y = (self.sy as i128) * (p.y as i128) + (self.ty as i128);
        let z = (self.sz as i128) * (p.z as i128) + (self.tz as i128);
        let lo = i64::MIN as i128;
        let hi = i64::MAX as i128;
        if lo <= x && x <= hi && lo <= y && y <= hi && lo <= z && z <= hi {
            Some(Vec3 { x: x as i64, y: y as i64, z: z as i64 })
        } else {
            None
        }
    }
}

/// Law: composing two transforms and then applying the result to a point
/// equals applying the second transform first and the first transform
/// second.
pub proof fn lemma_compose_apply(t1: TransformM, t2: TransformM, p: Vec3M)
    ensures
        apply_m(compose_m(t1, t2), p) == apply_m(t1, apply_m(t2, p)),
{
    assert((t1.sx * t2.sx) * p.x + (t1.sx * t2.tx + t1.tx) == t1.sx * (t2.sx * p.x + t2.tx)
        + t1.tx) by (nonlinear_arith);
    assert((t1.sy * t2.sy) * p.y + (t1.sy * t2.ty + t1.ty) == t1.sy * (t2.sy * p.y + t2.ty)
        + t1.ty) by (nonlinear_arith);
    assert((t1.sz * t2.sz) * p.z + (t1.sz * t2.tz + t1.tz) == t1.sz * (t2.sz * p.z + t2.tz)
        + t1.tz) by (nonlinear_arith);
}

} // verus!
