//! Fixed-point scalars and three-component vectors.
//!
//! A quantity is an `i128` counting thousandths of a unit: `1500` stands for
//! 1.5. Products are rescaled and truncated toward zero, so negating one factor
//! negates the product exactly.

use vstd::prelude::*;

verus! {

/// Fixed-point units in one whole unit.
pub const SCALE: i128 = 1000;

/// Bound on the magnitude of every quantity handed to the library from outside
/// (positions, velocities, tunables, mass): one million whole units.
pub const LIMIT: i128 = 1_000_000_000;

/// Bound on an intermediate product: every exact product stays below it, so
/// it fits in an `i128`.
pub const PRODUCT_LIMIT: i128 = 100_000_000_000_000_000_000_000_000_000_000_000_000;

/// A spatial vector in its mathematical form.
pub type IVec = (int, int, int);

pub open spec fn fits(x: int, bound: int) -> bool {
    -bound <= x <= bound
}

pub open spec fn vfits(v: IVec, bound: int) -> bool {
    fits(v.0, bound) && fits(v.1, bound) && fits(v.2, bound)
}

/// Divides a product of two fixed-point values by `SCALE`, rounding toward zero.
pub open spec fn rescale(p: int) -> int {
    if p >= 0 {
        p / (SCALE as int)
    } else {
        -((-p) / (SCALE as int))
    }
}

/// Fixed-point product, truncated toward zero.
pub open spec fn fx_mul(a: int, b: int) -> int {
    rescale(a * b)
}

/// The executable vector with the given components.
pub open spec fn vec_of(v: IVec) -> Vec3 {
    Vec3 { x: v.0 as i128, y: v.1 as i128, z: v.2 as i128 }
}

pub open spec fn vzero() -> IVec {
    (0, 0, 0)
}

pub open spec fn vadd(a: IVec, b: IVec) -> IVec {
    (a.0 + b.0, a.1 + b.1, a.2 + b.2)
}

pub open spec fn vsub(a: IVec, b: IVec) -> IVec {
    (a.0 - b.0, a.1 - b.1, a.2 - b.2)
}

/// Each component multiplied by the fixed-point scalar `k`.
pub open spec fn vscale(a: IVec, k: int) -> IVec {
    (fx_mul(a.0, k), fx_mul(a.1, k), fx_mul(a.2, k))
}

/// Fixed-point dot product: the exact sum of products, rescaled once.
pub open spec fn vdot(a: IVec, b: IVec) -> int {
    rescale(a.0 * b.0 + a.1 * b.1 + a.2 * b.2)
}

/// Fixed-point cross product, each component rescaled once.
pub open spec fn vcross(a: IVec, b: IVec) -> IVec {
    (
        rescale(a.1 * b.2 - a.2 * b.1),
        rescale(a.2 * b.0 - a.0 * b.2),
        rescale(a.0 * b.1 - a.1 * b.0),
    )
}

pub proof fn lemma_mul_fits(a: int, b: int, ba: int, bb: int) by (nonlinear_arith)
    requires
        fits(a, ba),
        fits(b, bb),
    ensures
        fits(a * b, ba * bb),
{
}

pub proof fn lemma_rescale_fits(p: int, bound: int)
    requires
        fits(p, bound),
    ensures
        fits(rescale(p), bound / (SCALE as int)),
{
}

/// Rescaling commutes with negation and keeps the sign.
pub proof fn lemma_rescale_neg(p: int)
    ensures
        rescale(-p) == -rescale(p),
        p >= 0 ==> rescale(p) >= 0,
        p <= 0 ==> rescale(p) <= 0,
        rescale(0) == 0,
{
}

/// Rescaling keeps order, and keeps a product of at least one unit nonzero.
pub proof fn lemma_rescale_monotone(p: int, q: int)
    ensures
        p <= q ==> rescale(p) <= rescale(q),
        p >= SCALE ==> rescale(p) >= 1,
        p <= -SCALE ==> rescale(p) <= -1,
{
}

pub proof fn lemma_fx_mul_fits(a: int, b: int, ba: int, bb: int)
    requires
        fits(a, ba),
        fits(b, bb),
    ensures
        fits(a * b, ba * bb),
        fits(fx_mul(a, b), (ba * bb) / (SCALE as int)),
{
    lemma_mul_fits(a, b, ba, bb);
    lemma_rescale_fits(a * b, ba * bb);
}

/// Negating either factor negates the product; a zero factor gives zero.
pub proof fn lemma_fx_mul_neg(a: int, b: int)
    ensures
        fx_mul(-a, b) == -fx_mul(a, b),
        fx_mul(a, -b) == -fx_mul(a, b),
        fx_mul(0, b) == 0,
        fx_mul(a, 0) == 0,
{
    assert((-a) * b == -(a * b)) by (nonlinear_arith);
    assert(a * (-b) == -(a * b)) by (nonlinear_arith);
    lemma_rescale_neg(a * b);
}

pub proof fn lemma_dot_fits(a: IVec, b: IVec, ba: int, bb: int)
    requires
        vfits(a, ba),
        vfits(b, bb),
    ensures
        fits(a.0 * b.0, ba * bb),
        fits(a.1 * b.1, ba * bb),
        fits(a.2 * b.2, ba * bb),
        fits(a.0 * b.0 + a.1 * b.1 + a.2 * b.2, 3 * (ba * bb)),
        fits(vdot(a, b), (3 * (ba * bb)) / (SCALE as int)),
{
    lemma_mul_fits(a.0, b.0, ba, bb);
    lemma_mul_fits(a.1, b.1, ba, bb);
    lemma_mul_fits(a.2, b.2, ba, bb);
    lemma_rescale_fits(a.0 * b.0 + a.1 * b.1 + a.2 * b.2, 3 * (ba * bb));
}

pub proof fn lemma_cross_fits(a: IVec, b: IVec, ba: int, bb: int)
    requires
        vfits(a, ba),
        vfits(b, bb),
    ensures
        fits(a.1 * b.2, ba * bb),
        fits(a.2 * b.1, ba * bb),
        fits(a.2 * b.0, ba * bb),
        fits(a.0 * b.2, ba * bb),
        fits(a.0 * b.1, ba * bb),
        fits(a.1 * b.0, ba * bb),
        fits(a.1 * b.2 - a.2 * b.1, 2 * (ba * bb)),
        fits(a.2 * b.0 - a.0 * b.2, 2 * (ba * bb)),
        fits(a.0 * b.1 - a.1 * b.0, 2 * (ba * bb)),
        vfits(vcross(a, b), (2 * (ba * bb)) / (SCALE as int)),
{
    lemma_mul_fits(a.1, b.2, ba, bb);
    lemma_mul_fits(a.2, b.1, ba, bb);
    lemma_mul_fits(a.2, b.0, ba, bb);
    lemma_mul_fits(a.0, b.2, ba, bb);
    lemma_mul_fits(a.0, b.1, ba, bb);
    lemma_mul_fits(a.1, b.0, ba, bb);
    lemma_rescale_fits(a.1 * b.2 - a.2 * b.1, 2 * (ba * bb));
    lemma_rescale_fits(a.2 * b.0 - a.0 * b.2, 2 * (ba * bb));
    lemma_rescale_fits(a.0 * b.1 - a.1 * b.0, 2 * (ba * bb));
}

/// A cross product with a zero factor is zero.
pub proof fn lemma_cross_zero(a: IVec)
    ensures
        vcross(a, vzero()) == vzero(),
        vcross(vzero(), a) == vzero(),
{
    assert(a.1 * 0 == 0 && a.2 * 0 == 0 && a.0 * 0 == 0);
    assert(0 * a.1 == 0 && 0 * a.2 == 0 && 0 * a.0 == 0);
}

/// Rescaled exact product of two fixed-point values.
pub fn mul_fx(a: i128, b: i128) -> (r: i128)
    requires
        fits(a * b, PRODUCT_LIMIT as int),
    ensures
        r == fx_mul(a as int, b as int),
{
    let p = a * b;
    if p >= 0 {
        p / SCALE
    } else {
        -((-p) / SCALE)
    }
}

fn rescale_exec(p: i128) -> (r: i128)
    requires
        fits(p as int, PRODUCT_LIMIT as int),
    ensures
        r == rescale(p as int),
{
    if p >= 0 {
        p / SCALE
    } else {
        -((-p) / SCALE)
    }
}

/// A vector of fixed-point components.
#[derive(Clone, Copy, Debug, PartialEq, Eq, Structural)]
pub struct Vec3 {
    pub x: i128,
    pub y: i128,
    pub z: i128,
}

impl View for Vec3 {
    type V = IVec;

    open spec fn view(&self) -> IVec {
        (self.x as int, self.y as int, self.z as int)
    }
}

impl Vec3 {
    /// Whether every component lies within `[-bound, bound]`.
    pub fn is_within(&self, bound: i128) -> (r: bool)
        requires
            bound >= 0,
        ensures
            r == vfits(self@, bound as int),
    {
        -bound <= self.x && self.x <= bound && -bound <= self.y && self.y <= bound && -bound <= self.z
            && self.z <= bound
    }

    pub fn new(x: i128, y: i128, z: i128) -> (r: Vec3)
        ensures
            r@ == (x as int, y as int, z as int),
    {
        Vec3 { x, y, z }
    }

    pub fn zero() -> (r: Vec3)
        ensures
            r@ == vzero(),
    {
        Vec3 { x: 0, y: 0, z: 0 }
    }

    pub fn add(&self, o: &Vec3) -> (r: Vec3)
        requires
            vfits(self@, PRODUCT_LIMIT as int / 2),
            vfits(o@, PRODUCT_LIMIT as int / 2),
        ensures
            r@ == vadd(self@, o@),
    {
        Vec3 { x: self.x + o.x, y: self.y + o.y, z: self.z + o.z }
    }

    pub fn sub(&self, o: &Vec3) -> (r: Vec3)
        requires
            vfits(self@, PRODUCT_LIMIT as int / 2),
            vfits(o@, PRODUCT_LIMIT as int / 2),
        ensures
            r@ == vsub(self@, o@),
    {
        Vec3 { x: self.x - o.x, y: self.y - o.y, z: self.z - o.z }
    }

    pub fn scale(&self, k: i128) -> (r: Vec3)
        requires
            fits(self.x * k, PRODUCT_LIMIT as int),
            fits(self.y * k, PRODUCT_LIMIT as int),
            fits(self.z * k, PRODUCT_LIMIT as int),
        ensures
            r@ == vscale(self@, k as int),
    {
        Vec3 { x: mul_fx(self.x, k), y: mul_fx(self.y, k), z: mul_fx(self.z, k) }
    }

    pub fn dot(&self, o: &Vec3) -> (r: i128)
        requires
            fits(self.x * o.x, PRODUCT_LIMIT as int / 3),
            fits(self.y * o.y, PRODUCT_LIMIT as int / 3),
            fits(self.z * o.z, PRODUCT_LIMIT as int / 3),
        ensures
            r == vdot(self@, o@),
    {
        rescale_exec(self.x * o.x + self.y * o.y + self.z * o.z)
    }

    pub fn cross(&self, o: &Vec3) -> (r: Vec3)
        requires
            fits(self.y * o.z, PRODUCT_LIMIT as int / 2),
            fits(self.z * o.y, PRODUCT_LIMIT as int / 2),
            fits(self.z * o.x, PRODUCT_LIMIT as int / 2),
            fits(self.x * o.z, PRODUCT_LIMIT as int / 2),
            fits(self.x * o.y, PRODUCT_LIMIT as int / 2),
            fits(self.y * o.x, PRODUCT_LIMIT as int / 2),
        ensures
            r@ == vcross(self@, o@),
    {
        Vec3 {
            x: rescale_exec(self.y * o.z - self.z * o.y),
            y: rescale_exec(self.z * o.x - self.x * o.z),
            z: rescale_exec(self.x * o.y - self.y * o.x),
        }
    }
}

} // verus!
