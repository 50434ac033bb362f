//! The physics engine's writeback, at its interface: once per tick the
//! engine integrates the force accumulator into the velocity, applies the
//! impulse accumulator as an instantaneous velocity change, clears both,
//! and copies the result back into externally visible state.
//!
//! The simulation step itself (collision resolution, gravity, drag) is the
//! engine's own business; this module states only the accumulator
//! semantics the movement stages rely on: forces act over the tick's
//! duration scaled by mass, impulses act directly, and both accumulators
//! are empty when the next tick's writers run.

use vstd::prelude::*;
use crate::fixed::fdiv;
use crate::fixed::MILLI;
use crate::vec3::Vec3;
use crate::vec3::Vec3i;
use crate::vec3::lemma_abs_mul_le;
use crate::components::Character;
use crate::components::MASS_LIMIT;
use crate::components::VEC_LIMIT;

verus! {

/// Velocity change the force accumulator produces over a tick of `dt`:
/// `force * dt / mass`, component by component, floor-rounded.
pub open spec fn force_velocity_delta(c: Character, dt: int) -> Vec3i {
    Vec3i {
        x: c.force_accumulator@.x * dt / (c.mass as int),
        y: c.force_accumulator@.y * dt / (c.mass as int),
        z: c.force_accumulator@.z * dt / (c.mass as int),
    }
}

/// The velocity the writeback hands back: the old velocity plus the
/// force-driven change plus the accumulated impulse.
pub open spec fn integrated_velocity(c: Character, dt: int) -> Vec3i {
    c.linear_velocity@.plus(force_velocity_delta(c, dt)).plus(c.impulse_velocity_delta@)
}

/// Integrate the accumulators into the velocity and clear them.
///
/// The two `bounded` requirements on the integrated values state the
/// engine-side guarantee that a single tick keeps velocities within the
/// readback limit; a caller that cannot meet them must skip the entity
/// for this tick.
pub fn integrate_writeback(c: &mut Character, dt: i64)
    requires
        0 < old(c).mass <= MASS_LIMIT,
        0 < dt <= MILLI,
        old(c).linear_velocity@.bounded(2_000_000_000),
        old(c).force_accumulator@.bounded(9_000_000_000_000_000),
        old(c).impulse_velocity_delta@.bounded(12_000_000_000),
        force_velocity_delta(*old(c), dt as int).bounded(VEC_LIMIT as int),
        integrated_velocity(*old(c), dt as int).bounded(VEC_LIMIT as int),
    ensures
        final(c).linear_velocity@ == integrated_velocity(*old(c), dt as int),
        final(c).linear_velocity@.bounded(VEC_LIMIT as int),
        final(c).force_accumulator@ == Vec3i::zero(),
        final(c).impulse_velocity_delta@ == Vec3i::zero(),
        final(c).up == old(c).up,
        final(c).mass == old(c).mass,
        final(c).grounded == old(c).grounded,
        final(c).animations == old(c).animations,
        final(c).animation_target == old(c).animation_target,
{
    proof {
        let f = c.force_accumulator@;
        lemma_abs_mul_le(f.x, dt as int, 9_000_000_000_000_000, MILLI as int);
        lemma_abs_mul_le(f.y, dt as int, 9_000_000_000_000_000, MILLI as int);
        lemma_abs_mul_le(f.z, dt as int, 9_000_000_000_000_000, MILLI as int);
    }
    let dvx = fdiv(c.force_accumulator.x * dt, c.mass);
    let dvy = fdiv(c.force_accumulator.y * dt, c.mass);
    let dvz = fdiv(c.force_accumulator.z * dt, c.mass);
    let dv = Vec3::new(dvx, dvy, dvz);
    c.linear_velocity = c.linear_velocity.plus(dv).plus(c.impulse_velocity_delta);
    c.force_accumulator = Vec3::zero();
    c.impulse_velocity_delta = Vec3::zero();
}

} // verus!
