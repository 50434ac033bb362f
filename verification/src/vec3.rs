//! Three-component fixed-point vectors and the horizontal/vertical
//! decomposition along a character's up axis.
//!
//! A vector's components live on the micro scale. An up axis lives on the
//! milli scale and satisfies [`is_up_axis`]: its squared length is exactly
//! [`crate::fixed::MICRO`]. Multiplying a milli-scale axis component by a
//! milli-scale speed therefore lands exactly on the micro scale, which is
//! what makes the decomposition laws below exact rather than approximate.

use vstd::prelude::*;
use vstd::arithmetic::div_mod::lemma_fundamental_div_mod;
use vstd::arithmetic::div_mod::lemma_mod_division_less_than_divisor;
use vstd::arithmetic::div_mod::lemma_div_multiples_vanish;
use vstd::arithmetic::div_mod::lemma_hoist_over_denominator;
use crate::fixed::MICRO;
use crate::fixed::MILLI;

verus! {

/// Mathematical counterpart of [`Vec3`]: unbounded integer components.
pub ghost struct Vec3i {
    pub x: int,
    pub y: int,
    pub z: int,
}

impl Vec3i {
    pub open spec fn plus(self, o: Vec3i) -> Vec3i {
        Vec3i { x: self.x + o.x, y: self.y + o.y, z: self.z + o.z }
    }

    pub open spec fn minus(self, o: Vec3i) -> Vec3i {
        Vec3i { x: self.x - o.x, y: self.y - o.y, z: self.z - o.z }
    }

    pub open spec fn times(self, k: int) -> Vec3i {
        Vec3i { x: self.x * k, y: self.y * k, z: self.z * k }
    }

    pub open spec fn dotp(self, o: Vec3i) -> int {
        self.x * o.x + self.y * o.y + self.z * o.z
    }

    pub open spec fn neg(self) -> Vec3i {
        Vec3i { x: -self.x, y: -self.y, z: -self.z }
    }

    pub open spec fn zero() -> Vec3i {
        Vec3i { x: 0, y: 0, z: 0 }
    }

    /// Every component lies in `[-b, b]`.
    pub open spec fn bounded(self, b: int) -> bool {
        &&& -b <= self.x <= b
        &&& -b <= self.y <= b
        &&& -b <= self.z <= b
    }
}

/// A direction that can serve as a character's local vertical: milli-scale
/// components whose squared length is exactly one (`MICRO` raw).
pub open spec fn is_up_axis(u: Vec3i) -> bool {
    u.dotp(u) == MICRO
}

/// Milli-scale speed of `v` along the axis `u` (floor-rounded).
pub open spec fn vspeed(v: Vec3i, u: Vec3i) -> int {
    v.dotp(u) / (MICRO as int)
}

/// Component of `v` parallel to the axis `u`.
pub open spec fn vert(v: Vec3i, u: Vec3i) -> Vec3i {
    u.times(vspeed(v, u))
}

/// Component of `v` orthogonal to the axis `u` (up to floor rounding).
pub open spec fn horiz(v: Vec3i, u: Vec3i) -> Vec3i {
    v.minus(vert(v, u))
}

/// `|a| <= aa` and `|b| <= bb` bound the product by `aa * bb`.
pub proof fn lemma_abs_mul_le(a: int, b: int, aa: int, bb: int)
    by (nonlinear_arith)
    requires
        -aa <= a <= aa,
        -bb <= b <= bb,
        0 <= aa,
        0 <= bb,
    ensures
        -(aa * bb) <= a * b <= aa * bb,
{
}

/// The product of two `i64` values fits comfortably inside `i128`.
proof fn lemma_i64_mul_in_range(a: i64, b: i64)
    by (nonlinear_arith)
    ensures
        -0x4000_0000_0000_0000_0000_0000_0000_0000
            <= (a as int) * (b as int)
            <= 0x4000_0000_0000_0000_0000_0000_0000_0000,
{
}

/// Each component of an up axis is at most one milli unit in magnitude.
pub proof fn lemma_axis_bounded(u: Vec3i)
    by (nonlinear_arith)
    requires
        is_up_axis(u),
    ensures
        u.bounded(MILLI as int),
{
}

/// The dot product distributes over vector addition.
pub proof fn lemma_dot_plus(a: Vec3i, b: Vec3i, c: Vec3i)
    by (nonlinear_arith)
    ensures
        a.plus(b).dotp(c) == a.dotp(c) + b.dotp(c),
{
}

/// The dot product distributes over vector subtraction.
pub proof fn lemma_dot_minus(a: Vec3i, b: Vec3i, c: Vec3i)
    by (nonlinear_arith)
    ensures
        a.minus(b).dotp(c) == a.dotp(c) - b.dotp(c),
{
}

/// Scaling one argument scales the dot product.
pub proof fn lemma_dot_times(a: Vec3i, k: int, c: Vec3i)
    ensures
        a.times(k).dotp(c) == k * a.dotp(c),
{
    assert((a.x * k) * c.x == k * (a.x * c.x)) by (nonlinear_arith);
    assert((a.y * k) * c.y == k * (a.y * c.y)) by (nonlinear_arith);
    assert((a.z * k) * c.z == k * (a.z * c.z)) by (nonlinear_arith);
    assert(k * (a.x * c.x) + k * (a.y * c.y) + k * (a.z * c.z)
        == k * (a.x * c.x + a.y * c.y + a.z * c.z)) by (nonlinear_arith);
}

/// The speed of the vertical part along the axis is the speed of the whole
/// vector: extracting the vertical component loses nothing along the axis.
pub proof fn lemma_vspeed_of_vert(v: Vec3i, u: Vec3i)
    requires
        is_up_axis(u),
    ensures
        vspeed(vert(v, u), u) == vspeed(v, u),
{
    let q = vspeed(v, u);
    lemma_dot_times(u, q, u);
    assert(vert(v, u).dotp(u) == q * (MICRO as int));
    lemma_div_multiples_vanish(q, MICRO as int);
}

/// Snapping a vector to its vertical part leaves no horizontal remainder:
/// the horizontal part of `vert(v, u)` is exactly the zero vector.
pub proof fn lemma_horiz_of_vert_is_zero(v: Vec3i, u: Vec3i)
    requires
        is_up_axis(u),
    ensures
        horiz(vert(v, u), u) == Vec3i::zero(),
{
    lemma_vspeed_of_vert(v, u);
}

/// The horizontal part carries no whole milli unit of axis speed: its speed
/// along the axis is exactly zero.
pub proof fn lemma_vspeed_of_horiz(v: Vec3i, u: Vec3i)
    requires
        is_up_axis(u),
    ensures
        vspeed(horiz(v, u), u) == 0,
        0 <= horiz(v, u).dotp(u) < MICRO,
{
    let d = v.dotp(u);
    let q = vspeed(v, u);
    lemma_dot_minus(v, vert(v, u), u);
    lemma_dot_times(u, q, u);
    assert(horiz(v, u).dotp(u) == d - q * (MICRO as int));
    lemma_fundamental_div_mod(d, MICRO as int);
    lemma_mod_division_less_than_divisor(d, MICRO as int);
    assert(horiz(v, u).dotp(u) == d % (MICRO as int));
    assert((d % (MICRO as int)) / (MICRO as int) == 0) by {
        lemma_fundamental_div_mod(d % (MICRO as int), MICRO as int);
        lemma_mod_division_less_than_divisor(d % (MICRO as int), MICRO as int);
        let r = d % (MICRO as int);
        let q2 = r / (MICRO as int);
        assert(q2 == 0) by (nonlinear_arith)
            requires
                r == (MICRO as int) * q2 + r % (MICRO as int),
                0 <= r % (MICRO as int) < MICRO,
                0 <= r < MICRO,
        ;
    }
}

/// Launching along the axis after the vertical part has been removed gives a
/// vertical speed of exactly the launch speed, whatever the vector was
/// before: the jump height does not depend on the prior vertical velocity.
pub proof fn lemma_launch_vertical_speed(v: Vec3i, u: Vec3i, launch: int)
    requires
        is_up_axis(u),
    ensures
        vspeed(horiz(v, u).plus(u.times(launch)), u) == launch,
{
    lemma_vspeed_of_horiz(v, u);
    let h = horiz(v, u);
    let r = h.dotp(u);
    lemma_dot_plus(h, u.times(launch), u);
    lemma_dot_times(u, launch, u);
    assert(h.plus(u.times(launch)).dotp(u) == r + launch * (MICRO as int));
    lemma_hoist_over_denominator(r, launch, MICRO as nat);
    assert((r + launch * (MICRO as int)) / (MICRO as int) == r / (MICRO as int) + launch);
}

/// The decomposition loses nothing: vertical and horizontal part add back
/// up to the original vector.
pub proof fn lemma_decomposition_recomposes(v: Vec3i, u: Vec3i)
    ensures
        vert(v, u).plus(horiz(v, u)) == v,
{
}

/// Removing the horizontal part twice is the same as removing it once.
pub proof fn lemma_horiz_idempotent(v: Vec3i, u: Vec3i)
    requires
        is_up_axis(u),
    ensures
        horiz(horiz(v, u), u) == horiz(v, u),
{
    lemma_vspeed_of_horiz(v, u);
    assert(vert(horiz(v, u), u) == u.times(0));
    assert(u.times(0) == Vec3i::zero()) by (nonlinear_arith);
}

/// A fixed-point vector: three micro-scale components.
#[derive(Clone, Copy, Debug, PartialEq, Eq, Structural)]
pub struct Vec3 {
    pub x: i64,
    pub y: i64,
    pub z: i64,
}

impl View for Vec3 {
    type V = Vec3i;

    open spec fn view(&self) -> Vec3i {
        Vec3i { x: self.x as int, y: self.y as int, z: self.z as int }
    }
}

impl Vec3 {
    pub fn new(x: i64, y: i64, z: i64) -> (r: Vec3)
        ensures
            r@ == (Vec3i { x: x as int, y: y as int, z: z as int }),
    {
        Vec3 { x, y, z }
    }

    pub fn zero() -> (r: Vec3)
        ensures
            r@ == Vec3i::zero(),
    {
        Vec3 { x: 0, y: 0, z: 0 }
    }

    pub fn plus(self, o: Vec3) -> (r: Vec3)
        requires
            self@.plus(o@).bounded(i64::MAX as int),
        ensures
            r@ == self@.plus(o@),
    {
        Vec3 { x: self.x + o.x, y: self.y + o.y, z: self.z + o.z }
    }

    pub fn minus(self, o: Vec3) -> (r: Vec3)
        requires
            self@.minus(o@).bounded(i64::MAX as int),
        ensures
            r@ == self@.minus(o@),
    {
        Vec3 { x: self.x - o.x, y: self.y - o.y, z: self.z - o.z }
    }

    pub fn neg(self) -> (r: Vec3)
        requires
            self@.neg().bounded(i64::MAX as int),
        ensures
            r@ == self@.neg(),
    {
        Vec3 { x: -self.x, y: -self.y, z: -self.z }
    }

    pub fn times(self, k: i64) -> (r: Vec3)
        requires
            self@.times(k as int).bounded(i64::MAX as int),
        ensures
            r@ == self@.times(k as int),
    {
        proof {
            lemma_i64_mul_in_range(self.x, k);
            lemma_i64_mul_in_range(self.y, k);
            lemma_i64_mul_in_range(self.z, k);
        }
        let x = ((self.x as i128) * (k as i128)) as i64;
        let y = ((self.y as i128) * (k as i128)) as i64;
        let z = ((self.z as i128) * (k as i128)) as i64;
        Vec3 { x, y, z }
    }

    /// Dot product, exact as long as the mathematical result fits in `i64`.
    pub fn dot(self, o: Vec3) -> (r: i64)
        requires
            -(i64::MAX as int) <= self@.dotp(o@) <= i64::MAX as int,
        ensures
            r == self@.dotp(o@),
    {
        proof {
            lemma_i64_mul_in_range(self.x, o.x);
            lemma_i64_mul_in_range(self.y, o.y);
            lemma_i64_mul_in_range(self.z, o.z);
        }
        let px = (self.x as i128) * (o.x as i128);
        let py = (self.y as i128) * (o.y as i128);
        let pz = (self.z as i128) * (o.z as i128);
        (px + py + pz) as i64
    }
}

} // verus!
