//! The per-tick movement stages: grounding detection, walking and jumping
//! force resolution, animation selection, and intent reset.
//!
//! Forces on a character going right:
//!
//! ```text
//! +------------------------------+
//! |            Gravity           |
//! |               v              |
//! |              +-+             |
//! |   Walking -> | | <- Drag     |
//! |              +-+             |
//! |                              |
//! +------------------------------+
//! ```
//!
//! Walking applies a continuous force (`acceleration * mass`); jumping
//! applies an instantaneous impulse. There is no explicit maximum speed:
//! the physics engine's drag counteracts the walking force until an
//! equilibrium is reached. The grounding detector decides whether the
//! character is on the ground from the physics engine's shape-cast result.

use vstd::prelude::*;
use crate::fixed::fdiv;
use crate::fixed::isqrt;
use crate::fixed::sqrt_floor;
use crate::fixed::lemma_fdiv_bound;
use crate::fixed::MICRO;
use crate::fixed::MILLI;
use crate::vec3::Vec3;
use crate::vec3::Vec3i;
use crate::vec3::is_up_axis;
use crate::vec3::vspeed;
use crate::vec3::vert;
use crate::vec3::horiz;
use crate::vec3::lemma_abs_mul_le;
use crate::vec3::lemma_axis_bounded;
use crate::components::Character;
use crate::components::Walk;
use crate::components::Jump;
use crate::components::Sprinting;
use crate::components::AnimationState;
use crate::components::CharacterAnimations;
use crate::components::MovementError;
use crate::components::SCALAR_LIMIT;
use crate::components::IMPULSE_LIMIT;
use crate::components::MASS_LIMIT;
use crate::components::VEC_LIMIT;
use crate::components::character_wf;
use crate::components::walk_wf;

verus! {

/// Bound on velocity components accepted by the decomposition helpers:
/// wide enough for a velocity that walking has already snapped.
pub const DECOMP_LIMIT: i64 = 400_000_000;

/// Decomposition of a vector bounded by the readback limit: the axis speed,
/// vertical part and horizontal part stay in narrow ranges.
pub proof fn lemma_decomp_bounds_input(v: Vec3i, u: Vec3i)
    requires
        is_up_axis(u),
        v.bounded(100_000_000),
    ensures
        -300_000_000_000 <= v.dotp(u) <= 300_000_000_000,
        -300_000 <= vspeed(v, u) <= 300_000,
        vert(v, u).bounded(300_000_000),
        horiz(v, u).bounded(400_000_000),
{
    lemma_axis_bounded(u);
    lemma_abs_mul_le(v.x, u.x, 100_000_000, 1_000);
    lemma_abs_mul_le(v.y, u.y, 100_000_000, 1_000);
    lemma_abs_mul_le(v.z, u.z, 100_000_000, 1_000);
    lemma_fdiv_bound(v.dotp(u), MICRO as int, 300_000);
    let q = vspeed(v, u);
    lemma_abs_mul_le(u.x, q, 1_000, 300_000);
    lemma_abs_mul_le(u.y, q, 1_000, 300_000);
    lemma_abs_mul_le(u.z, q, 1_000, 300_000);
}

/// The same bounds for a vector that may already have been snapped to its
/// vertical part by the walking stage.
pub proof fn lemma_decomp_bounds_wide(v: Vec3i, u: Vec3i)
    requires
        is_up_axis(u),
        v.bounded(400_000_000),
    ensures
        -1_200_000_000_000 <= v.dotp(u) <= 1_200_000_000_000,
        -1_200_000 <= vspeed(v, u) <= 1_200_000,
        vert(v, u).bounded(1_200_000_000),
        horiz(v, u).bounded(1_600_000_000),
{
    lemma_axis_bounded(u);
    lemma_abs_mul_le(v.x, u.x, 400_000_000, 1_000);
    lemma_abs_mul_le(v.y, u.y, 400_000_000, 1_000);
    lemma_abs_mul_le(v.z, u.z, 400_000_000, 1_000);
    lemma_fdiv_bound(v.dotp(u), MICRO as int, 1_200_000);
    let q = vspeed(v, u);
    lemma_abs_mul_le(u.x, q, 1_000, 1_200_000);
    lemma_abs_mul_le(u.y, q, 1_000, 1_200_000);
    lemma_abs_mul_le(u.z, q, 1_000, 1_200_000);
}

/// Milli-scale speed of `v` along the up axis `u`.
pub fn vertical_speed_milli(v: &Vec3, u: &Vec3) -> (r: i64)
    requires
        is_up_axis(u@),
        v@.bounded(DECOMP_LIMIT as int),
    ensures
        r == vspeed(v@, u@),
        -1_200_000 <= r <= 1_200_000,
{
    proof {
        lemma_decomp_bounds_wide(v@, u@);
    }
    let d = v.dot(*u);
    fdiv(d, MICRO)
}

/// Component of `v` parallel to the up axis `u`.
pub fn vertical_part(v: &Vec3, u: &Vec3) -> (r: Vec3)
    requires
        is_up_axis(u@),
        v@.bounded(DECOMP_LIMIT as int),
    ensures
        r@ == vert(v@, u@),
        r@.bounded(1_200_000_000),
{
    proof {
        lemma_decomp_bounds_wide(v@, u@);
    }
    let q = vertical_speed_milli(v, u);
    u.times(q)
}

/// Component of `v` orthogonal to the up axis `u` (up to one floor-rounded
/// milli unit of axis speed).
pub fn horizontal_part(v: &Vec3, u: &Vec3) -> (r: Vec3)
    requires
        is_up_axis(u@),
        v@.bounded(DECOMP_LIMIT as int),
    ensures
        r@ == horiz(v@, u@),
        r@.bounded(1_600_000_000),
{
    proof {
        lemma_decomp_bounds_wide(v@, u@);
    }
    let w = vertical_part(v, u);
    v.minus(w)
}

/// Squared horizontal speed of `v` with respect to the up axis `u`
/// (squared micro scale).
pub fn horizontal_speed_squared(v: &Vec3, u: &Vec3) -> (r: i64)
    requires
        is_up_axis(u@),
        v@.bounded(100_000_000),
    ensures
        r == horiz(v@, u@).dotp(horiz(v@, u@)),
        r >= 0,
{
    proof {
        lemma_decomp_bounds_input(v@, u@);
        let h = horiz(v@, u@);
        lemma_abs_mul_le(h.x, h.x, 400_000_000, 400_000_000);
        lemma_abs_mul_le(h.y, h.y, 400_000_000, 400_000_000);
        lemma_abs_mul_le(h.z, h.z, 400_000_000, 400_000_000);
        assert(h.x * h.x >= 0 && h.y * h.y >= 0 && h.z * h.z >= 0) by (nonlinear_arith);
    }
    let h = horizontal_part(v, u);
    h.dot(h)
}

/// Grounded state the detector writes for a given cast outcome: a hit
/// within the grace distance grounds the character, a hit beyond it does
/// not, and no hit at all leaves the stored state untouched for this tick.
pub open spec fn grounded_after_cast(
    was: bool,
    cast_hit: Option<i64>,
    grace_distance: int,
) -> bool {
    match cast_hit {
        Some(toi) => 0 <= toi <= grace_distance,
        None => was,
    }
}

/// Grounding detector: decide grounded/airborne from this tick's downward
/// shape-cast result.
///
/// `cast_hit` is the time of impact reported by the physics engine for a
/// cast of the collision volume along the velocity, excluding the character
/// itself and all sensors; `None` means the backend reported no hit (or was
/// unavailable for this entity), and the stored state falls through
/// unchanged. The grace distance is configurable by the caller; deriving it
/// from the collision volume is the spawning collaborator's business.
///
/// Writes nothing but the grounded flag, with change detection.
pub fn update_grounded(c: &mut Character, cast_hit: Option<i64>, grace_distance: i64)
    ensures
        final(c).grounded.grounded == grounded_after_cast(
            old(c).grounded.grounded,
            cast_hit,
            grace_distance as int,
        ),
        final(c).grounded.changed_this_tick == (cast_hit is Some
            && old(c).grounded.grounded != final(c).grounded.grounded),
        final(c).up == old(c).up,
        final(c).mass == old(c).mass,
        final(c).linear_velocity == old(c).linear_velocity,
        final(c).force_accumulator == old(c).force_accumulator,
        final(c).impulse_velocity_delta == old(c).impulse_velocity_delta,
        final(c).animations == old(c).animations,
        final(c).animation_target == old(c).animation_target,
{
    match cast_hit {
        Some(toi) => {
            let hit_in_range = 0 <= toi && toi <= grace_distance;
            c.grounded.force_set(hit_in_range);
        }
        None => {
            c.grounded.changed_this_tick = false;
        }
    }
}

/// Launch speed that reaches `height` against the downward acceleration
/// `gravity`, by energy conservation; negative intent values count as zero.
pub open spec fn launch_speed(gravity: int, height: int) -> int {
    sqrt_floor(2 * (if gravity > 0 { gravity } else { 0 }) * (if height > 0 {
        height
    } else {
        0
    }))
}

/// Milli-scale launch speed for a jump of `height` under `gravity`.
pub fn launch_speed_milli(gravity: i64, height: i64) -> (r: i64)
    requires
        gravity <= SCALAR_LIMIT,
        height <= SCALAR_LIMIT,
    ensures
        r == launch_speed(gravity as int, height as int),
        0 <= r <= 2_000_000,
{
    let g: i64 = if gravity > 0 { gravity } else { 0 };
    let h: i64 = if height > 0 { height } else { 0 };
    proof {
        lemma_abs_mul_le(g as int, h as int, SCALAR_LIMIT as int, SCALAR_LIMIT as int);
        assert(g as int * h as int >= 0) by (nonlinear_arith)
            requires
                g >= 0,
                h >= 0,
        ;
    }
    let p: i64 = g * h;
    let n: u64 = (2 * p) as u64;
    let r = isqrt(n);
    proof {
        assert(2 * (g as int * h as int) == 2 * g as int * h as int) by (nonlinear_arith);
        assert(r <= 2_000_000) by (nonlinear_arith)
            requires
                r * r <= n,
                n <= 2_000_000_000_000,
        ;
    }
    r as i64
}

/// Force resolver, jumping half: a requested jump on the ground launches
/// the character along its up axis at [`launch_speed`].
///
/// The launch is applied as an instantaneous impulse: the vertical
/// component of the velocity is removed first, so the jump height is
/// deterministic whatever vertical velocity (for instance from resting on
/// a slope) existed before, and the launch speed is appended to the
/// impulse accumulator for the physics writeback to integrate. An airborne
/// request is silently ignored — not queued, not an error — and the intent
/// reset stage still clears it.
pub fn apply_jumping(c: &mut Character, jump: &Jump, gravity: i64)
    requires
        is_up_axis(old(c).up@),
        old(c).linear_velocity@.bounded(DECOMP_LIMIT as int),
        old(c).impulse_velocity_delta@.bounded(IMPULSE_LIMIT as int),
        -SCALAR_LIMIT <= jump.target_height <= SCALAR_LIMIT,
        -SCALAR_LIMIT <= gravity <= SCALAR_LIMIT,
    ensures
        jump.requested && old(c).grounded.grounded ==> {
            &&& final(c).linear_velocity@ == horiz(old(c).linear_velocity@, old(c).up@)
            &&& final(c).impulse_velocity_delta@ == old(c).impulse_velocity_delta@.plus(
                old(c).up@.times(launch_speed(gravity as int, jump.target_height as int)),
            )
        },
        !(jump.requested && old(c).grounded.grounded) ==> *final(c) == *old(c),
        final(c).linear_velocity@.bounded(1_600_000_000),
        final(c).impulse_velocity_delta@.bounded(IMPULSE_LIMIT as int + 2_000_000_000),
        final(c).up == old(c).up,
        final(c).mass == old(c).mass,
        final(c).grounded == old(c).grounded,
        final(c).force_accumulator == old(c).force_accumulator,
        final(c).animations == old(c).animations,
        final(c).animation_target == old(c).animation_target,
{
    if jump.requested && c.grounded.is_grounded() {
        let launch = launch_speed_milli(gravity, jump.target_height);
        proof {
            lemma_axis_bounded(c.up@);
            lemma_abs_mul_le(c.up@.x, launch as int, 1_000, 2_000_000);
            lemma_abs_mul_le(c.up@.y, launch as int, 1_000, 2_000_000);
            lemma_abs_mul_le(c.up@.z, launch as int, 1_000, 2_000_000);
        }
        let kick = c.up.times(launch);
        c.impulse_velocity_delta = c.impulse_velocity_delta.plus(kick);
        // Kill the vertical velocity so repeated jumps always reach the
        // same height: a leftover falling speed would dampen the launch.
        c.linear_velocity = horizontal_part(&c.linear_velocity, &c.up);
    }
}

/// Negative per-tick intent values are advisory and carry no invariant:
/// they count as zero rather than erring.
pub open spec fn max0(x: int) -> int {
    if x > 0 {
        x
    } else {
        0
    }
}

/// `h` rescaled to magnitude `mag` (milli scale in, micro scale out):
/// each component is multiplied by `mag` and divided by the vector's
/// micro-scale length, rounding toward negative infinity.
pub open spec fn scaled_to(h: Vec3i, mag: int) -> Vec3i {
    let m = sqrt_floor(h.dotp(h));
    Vec3i {
        x: h.x * mag * MILLI / m,
        y: h.y * mag * MILLI / m,
        z: h.z * mag * MILLI / m,
    }
}

/// The force that accelerates a body of `mass` at `acc`: each micro-scale
/// component times the milli-scale mass, floor-divided back to micro scale.
pub open spec fn accel_force(acc: Vec3i, mass: int) -> Vec3i {
    Vec3i {
        x: acc.x * mass / (MILLI as int),
        y: acc.y * mass / (MILLI as int),
        z: acc.z * mass / (MILLI as int),
    }
}

/// Normalize `h` and scale it to the milli-scale magnitude `mag`, or
/// report that `h` is the zero vector and has no direction.
pub fn scale_to_length(h: &Vec3, mag: i64) -> (r: Option<Vec3>)
    requires
        h@.bounded(400_000_000),
        0 <= mag <= SCALAR_LIMIT,
    ensures
        (match r {
            Some(w) => {
                &&& h@ != Vec3i::zero()
                &&& w@ == scaled_to(h@, mag as int)
                &&& w@.bounded(mag * MILLI)
            }
            None => h@ == Vec3i::zero(),
        }),
{
    proof {
        lemma_abs_mul_le(h@.x, h@.x, 400_000_000, 400_000_000);
        lemma_abs_mul_le(h@.y, h@.y, 400_000_000, 400_000_000);
        lemma_abs_mul_le(h@.z, h@.z, 400_000_000, 400_000_000);
        assert(h@.x * h@.x >= 0 && h@.y * h@.y >= 0 && h@.z * h@.z >= 0) by (nonlinear_arith);
    }
    let d = h.dot(*h);
    if d == 0 {
        proof {
            assert(h@.x == 0 && h@.y == 0 && h@.z == 0) by (nonlinear_arith)
                requires
                    h@.x * h@.x + h@.y * h@.y + h@.z * h@.z == 0,
                    h@.x * h@.x >= 0,
                    h@.y * h@.y >= 0,
                    h@.z * h@.z >= 0,
            ;
        }
        return None;
    }
    let m_u = isqrt(d as u64);
    proof {
        assert(m_u * m_u <= d);
        assert(m_u <= 700_000_000) by (nonlinear_arith)
            requires
                m_u * m_u <= 480_000_000_000_000_000,
        ;
    }
    let m = m_u as i64;
    proof {
        let mi = m as int;
        assert(mi >= 1) by (nonlinear_arith)
            requires
                (d as u64) < (mi + 1) * (mi + 1),
                d >= 1,
                mi >= 0,
        ;
        assert(h@.x * h@.x <= h@.dotp(h@) && h@.y * h@.y <= h@.dotp(h@) && h@.z * h@.z
            <= h@.dotp(h@)) by (nonlinear_arith);
        assert(-mi <= h@.x <= mi && -mi <= h@.y <= mi && -mi <= h@.z <= mi)
            by (nonlinear_arith)
            requires
                h@.x * h@.x <= d,
                h@.y * h@.y <= d,
                h@.z * h@.z <= d,
                mi * mi <= d < (mi + 1) * (mi + 1),
                mi >= 0,
        ;
        lemma_abs_mul_le(h@.x, mag as int, m as int, mag as int);
        lemma_abs_mul_le(h@.y, mag as int, m as int, mag as int);
        lemma_abs_mul_le(h@.z, mag as int, m as int, mag as int);
        assert(m as int * mag as int * MILLI == m as int * (mag as int * MILLI))
            by (nonlinear_arith);
        lemma_abs_mul_le(h@.x, mag as int, 400_000_000, SCALAR_LIMIT as int);
        lemma_abs_mul_le(h@.y, mag as int, 400_000_000, SCALAR_LIMIT as int);
        lemma_abs_mul_le(h@.z, mag as int, 400_000_000, SCALAR_LIMIT as int);
    }
    let nx = h.x * mag * MILLI;
    let ny = h.y * mag * MILLI;
    let nz = h.z * mag * MILLI;
    proof {
        lemma_fdiv_bound(nx as int, m as int, mag as int * MILLI);
        lemma_fdiv_bound(ny as int, m as int, mag as int * MILLI);
        lemma_fdiv_bound(nz as int, m as int, mag as int * MILLI);
    }
    let w = Vec3::new(fdiv(nx, m), fdiv(ny, m), fdiv(nz, m));
    proof {
        assert(h@ != Vec3i::zero()) by {
            if h@ == Vec3i::zero() {
                assert(h@.dotp(h@) == 0);
            }
        }
        assert(w@ == scaled_to(h@, mag as int));
        assert(w@.bounded(mag * MILLI));
    }
    Some(w)
}

/// The force that accelerates this character at `acc`.
pub fn force_from_acceleration(acc: &Vec3, mass: i64) -> (r: Vec3)
    requires
        acc@.bounded(1_000_000_000),
        0 < mass <= MASS_LIMIT,
    ensures
        r@ == accel_force(acc@, mass as int),
        r@.bounded(1_000_000_000_000_000),
{
    proof {
        lemma_abs_mul_le(acc@.x, mass as int, 1_000_000_000, MASS_LIMIT as int);
        lemma_abs_mul_le(acc@.y, mass as int, 1_000_000_000, MASS_LIMIT as int);
        lemma_abs_mul_le(acc@.z, mass as int, 1_000_000_000, MASS_LIMIT as int);
        lemma_fdiv_bound(acc@.x * mass as int, MILLI as int, 1_000_000_000_000_000);
        lemma_fdiv_bound(acc@.y * mass as int, MILLI as int, 1_000_000_000_000_000);
        lemma_fdiv_bound(acc@.z * mass as int, MILLI as int, 1_000_000_000_000_000);
    }
    Vec3::new(fdiv(acc.x * mass, MILLI), fdiv(acc.y * mass, MILLI), fdiv(acc.z * mass, MILLI))
}

/// Force resolver, walking half.
///
/// With a direction this tick, accelerate toward it: the intent direction
/// is projected onto the plane orthogonal to the up axis, normalized, and
/// scaled so the character approaches the target speed, and the resulting
/// force (`acceleration * mass`) is appended to the force accumulator.
/// With no direction while grounded, brake: a horizontal speed below the
/// stopping threshold snaps the velocity to its vertical part (a hard stop
/// instead of an asymptotic crawl); otherwise a braking force opposes the
/// horizontal velocity. With no direction while airborne, momentum is
/// preserved: only the engine's gravity and drag act.
pub fn apply_walking(c: &mut Character, walk: &Walk)
    requires
        character_wf(*old(c)),
        walk_wf(*walk),
    ensures
        final(c).up == old(c).up,
        final(c).mass == old(c).mass,
        final(c).grounded == old(c).grounded,
        final(c).impulse_velocity_delta == old(c).impulse_velocity_delta,
        final(c).animations == old(c).animations,
        final(c).animation_target == old(c).animation_target,
        final(c).linear_velocity@.bounded(DECOMP_LIMIT as int),
        final(c).force_accumulator@.bounded(9_000_000_000_000_000),
        (match walk.direction {
            Some(dir) => {
                let hd = horiz(dir@, old(c).up@);
                &&& final(c).linear_velocity == old(c).linear_velocity
                &&& if hd == Vec3i::zero() {
                    final(c).force_accumulator == old(c).force_accumulator
                } else {
                    final(c).force_accumulator@ == old(c).force_accumulator@.plus(
                        accel_force(
                            scaled_to(hd, max0(walk.target_speed as int)),
                            old(c).mass as int,
                        ),
                    )
                }
            }
            None => {
                if !old(c).grounded.grounded {
                    *final(c) == *old(c)
                } else {
                    let h = horiz(old(c).linear_velocity@, old(c).up@);
                    let t = max0(walk.stopping_speed_threshold as int);
                    if h.dotp(h) < t * t * MICRO {
                        &&& final(c).linear_velocity@ == vert(
                            old(c).linear_velocity@,
                            old(c).up@,
                        )
                        &&& final(c).force_accumulator == old(c).force_accumulator
                    } else if h == Vec3i::zero() {
                        *final(c) == *old(c)
                    } else {
                        &&& final(c).linear_velocity == old(c).linear_velocity
                        &&& final(c).force_accumulator@ == old(c).force_accumulator@.plus(
                            accel_force(
                                scaled_to(h.neg(), max0(walk.braking_acceleration as int)),
                                old(c).mass as int,
                            ),
                        )
                    }
                }
            }
        }),
{
    match walk.direction {
        Some(dir) => {
            proof {
                lemma_decomp_bounds_input(dir@, c.up@);
            }
            let hd = horizontal_part(&dir, &c.up);
            let speed: i64 = if walk.target_speed > 0 {
                walk.target_speed
            } else {
                0
            };
            match scale_to_length(&hd, speed) {
                Some(acc) => {
                    let f = force_from_acceleration(&acc, c.mass);
                    c.force_accumulator = c.force_accumulator.plus(f);
                }
                None => {}
            }
        }
        None => {
            if c.grounded.is_grounded() {
                let hsq = horizontal_speed_squared(&c.linear_velocity, &c.up);
                let t: i64 = if walk.stopping_speed_threshold > 0 {
                    walk.stopping_speed_threshold
                } else {
                    0
                };
                proof {
                    lemma_abs_mul_le(t as int, t as int, SCALAR_LIMIT as int, SCALAR_LIMIT as int);
                }
                let threshold = t * t * MICRO;
                if hsq < threshold {
                    proof {
                        lemma_decomp_bounds_input(c.linear_velocity@, c.up@);
                    }
                    c.linear_velocity = vertical_part(&c.linear_velocity, &c.up);
                } else {
                    proof {
                        lemma_decomp_bounds_input(c.linear_velocity@, c.up@);
                    }
                    let h = horizontal_part(&c.linear_velocity, &c.up);
                    let hneg = h.neg();
                    let b: i64 = if walk.braking_acceleration > 0 {
                        walk.braking_acceleration
                    } else {
                        0
                    };
                    match scale_to_length(&hneg, b) {
                        Some(acc) => {
                            let f = force_from_acceleration(&acc, c.mass);
                            c.force_accumulator = c.force_accumulator.plus(f);
                        }
                        None => {}
                    }
                }
            }
        }
    }
}

/// Squared micro-scale speed below which a horizontal velocity counts as
/// approximately zero (one hundredth of a unit per second, squared); an
/// exact-zero test would flicker on rounding noise.
pub const APPROX_ZERO_SPEED_SQ: i64 = 100_000_000;

/// Animation selection is a pure function of the grounded flag and the
/// squared horizontal speed: airborne characters are aerial, grounded ones
/// walk while the horizontal speed is above the approximately-zero
/// threshold, and are idle otherwise.
pub open spec fn animation_for(grounded: bool, horizontal_speed_sq: int) -> AnimationState {
    if !grounded {
        AnimationState::Aerial
    } else if horizontal_speed_sq > APPROX_ZERO_SPEED_SQ {
        AnimationState::Walk
    } else {
        AnimationState::Idle
    }
}

/// The clip handle bound to an animation state.
pub open spec fn clip_for(a: CharacterAnimations, s: AnimationState) -> u64 {
    match s {
        AnimationState::Idle => a.idle,
        AnimationState::Walk => a.walk,
        AnimationState::Aerial => a.aerial,
    }
}

/// Animation selector: recomputed every tick from the physical state, with
/// no hidden state of its own, so re-running it on unchanged inputs always
/// yields the same choice.
pub fn select_animation(grounded: bool, horizontal_speed_sq: i64) -> (r: AnimationState)
    ensures
        r == animation_for(grounded, horizontal_speed_sq as int),
{
    if !grounded {
        AnimationState::Aerial
    } else if horizontal_speed_sq > APPROX_ZERO_SPEED_SQ {
        AnimationState::Walk
    } else {
        AnimationState::Idle
    }
}

/// An order to the externally owned animation player: play `clip`,
/// repeating, on the player entity `player`.
#[derive(Clone, Copy, Debug, PartialEq, Eq, Structural)]
pub struct AnimationCommand {
    pub player: u64,
    pub clip: u64,
}

/// What the animation stage does with one character: an order for its
/// linked player, or a per-entity soft failure when the back-reference to
/// the animation player is missing.
pub open spec fn resolve_animation_spec(c: Character) -> Result<AnimationCommand, MovementError> {
    match c.animation_target {
        None => Err(MovementError::MissingAnimationTarget),
        Some(player) => Ok(
            AnimationCommand {
                player,
                clip: clip_for(
                    c.animations,
                    animation_for(
                        c.grounded.grounded,
                        horiz(c.linear_velocity@, c.up@).dotp(horiz(c.linear_velocity@, c.up@)),
                    ),
                ),
            },
        ),
    }
}

/// Select this character's animation and address its animation player.
pub fn resolve_animation(c: &Character) -> (r: Result<AnimationCommand, MovementError>)
    requires
        is_up_axis(c.up@),
        c.linear_velocity@.bounded(VEC_LIMIT as int),
    ensures
        r == resolve_animation_spec(*c),
{
    match c.animation_target {
        None => Err(MovementError::MissingAnimationTarget),
        Some(player) => {
            let hsq = horizontal_speed_squared(&c.linear_velocity, &c.up);
            let state = select_animation(c.grounded.is_grounded(), hsq);
            let clip = match state {
                AnimationState::Idle => c.animations.idle,
                AnimationState::Walk => c.animations.walk,
                AnimationState::Aerial => c.animations.aerial,
            };
            Ok(AnimationCommand { player, clip })
        }
    }
}

/// Animation stage over all characters: a failure for one entity is
/// reported in its slot and never aborts the others.
pub fn play_animations(characters: &Vec<Character>) -> (out: Vec<
    Result<AnimationCommand, MovementError>,
>)
    requires
        forall|i: int|
            0 <= i < characters@.len() ==> {
                &&& is_up_axis(#[trigger] characters@[i].up@)
                &&& characters@[i].linear_velocity@.bounded(VEC_LIMIT as int)
            },
    ensures
        out@.len() == characters@.len(),
        forall|i: int|
            0 <= i < characters@.len() ==> #[trigger] out@[i] == resolve_animation_spec(
                characters@[i],
            ),
{
    let mut out: Vec<Result<AnimationCommand, MovementError>> = Vec::new();
    let mut k: usize = 0;
    while k < characters.len()
        invariant
            k <= characters@.len(),
            out@.len() == k,
            forall|i: int|
                0 <= i < characters@.len() ==> {
                    &&& is_up_axis(#[trigger] characters@[i].up@)
                    &&& characters@[i].linear_velocity@.bounded(VEC_LIMIT as int)
                },
            forall|i: int|
                0 <= i < k ==> #[trigger] out@[i] == resolve_animation_spec(characters@[i]),
        decreases characters@.len() - k,
    {
        let r = resolve_animation(&characters[k]);
        out.push(r);
        k = k + 1;
    }
    out
}

/// Blend weight for turning the model toward its movement this tick
/// (milli scale, clamped to one): asymptotic averaging at a smoothness of
/// four per second.
pub open spec fn rotation_blend(dt: int) -> int {
    if 4 * max0(dt) > MILLI {
        MILLI as int
    } else {
        4 * max0(dt)
    }
}

/// Milli-scale blend weight for this tick's model turn.
pub fn rotation_blend_milli(dt: i64) -> (r: i64)
    requires
        dt <= SCALAR_LIMIT,
    ensures
        r == rotation_blend(dt as int),
        0 <= r <= MILLI,
{
    let d: i64 = if dt > 0 {
        dt
    } else {
        0
    };
    if 4 * d > MILLI {
        MILLI
    } else {
        4 * d
    }
}

/// The horizontal direction a character's model should turn toward, or
/// `None` while its horizontal movement is approximately zero (the model
/// keeps its facing). The quaternion interpolation that performs the turn
/// belongs to the presentation layer.
pub fn rotation_target(v: &Vec3, u: &Vec3) -> (r: Option<Vec3>)
    requires
        is_up_axis(u@),
        v@.bounded(VEC_LIMIT as int),
    ensures
        (match r {
            Some(h) => {
                &&& h@ == horiz(v@, u@)
                &&& h@.dotp(h@) > APPROX_ZERO_SPEED_SQ
            }
            None => horiz(v@, u@).dotp(horiz(v@, u@)) <= APPROX_ZERO_SPEED_SQ,
        }),
{
    let hsq = horizontal_speed_squared(v, u);
    if hsq > APPROX_ZERO_SPEED_SQ {
        proof {
            lemma_decomp_bounds_input(v@, u@);
        }
        Some(horizontal_part(v, u))
    } else {
        None
    }
}

/// A grounded character that requested a jump ends the tick with a
/// vertical speed of exactly the derived launch speed once the writeback
/// integrates the impulse: removing the vertical component first makes the
/// jump height independent of whatever vertical velocity existed before.
pub proof fn lemma_jump_vertical_speed(c: Character, jump: Jump, gravity: int)
    requires
        is_up_axis(c.up@),
        jump.requested,
        c.grounded.grounded,
    ensures
        vspeed(
            horiz(c.linear_velocity@, c.up@).plus(
                c.up@.times(launch_speed(gravity, jump.target_height as int)),
            ),
            c.up@,
        ) == launch_speed(gravity, jump.target_height as int),
{
    crate::vec3::lemma_launch_vertical_speed(
        c.linear_velocity@,
        c.up@,
        launch_speed(gravity, jump.target_height as int),
    );
}

/// When the walking stage snaps an intent-less, grounded, slow character
/// to the vertical part of its velocity, the horizontal part of the new
/// velocity is exactly the zero vector, not merely small.
pub proof fn lemma_stop_zeroes_horizontal(c: Character)
    requires
        is_up_axis(c.up@),
    ensures
        horiz(vert(c.linear_velocity@, c.up@), c.up@) == Vec3i::zero(),
{
    crate::vec3::lemma_horiz_of_vert_is_zero(c.linear_velocity@, c.up@);
}

/// Everything the intent reset stage must leave untouched: grounded state,
/// velocity, mass, orientation and the animation binding are owned by the
/// detector and the physics engine, not by the reset.
pub open spec fn reset_preserves(c1: Character, c2: Character) -> bool {
    &&& c2.up == c1.up
    &&& c2.mass == c1.mass
    &&& c2.linear_velocity == c1.linear_velocity
    &&& c2.grounded == c1.grounded
    &&& c2.animations == c1.animations
    &&& c2.animation_target == c1.animation_target
}

/// The state the intent reset stage establishes: no pending one-shot
/// requests, no pending walk direction, empty accumulators.
pub open spec fn intents_cleared(c: Character, w: Walk, j: Jump, s: Sprinting) -> bool {
    &&& c.force_accumulator@ == Vec3i::zero()
    &&& c.impulse_velocity_delta@ == Vec3i::zero()
    &&& w.direction is None
    &&& !j.requested
    &&& !s.requested
}

/// Intent reset: clear the one-shot intents and the transient accumulators
/// once per tick, after all consumers and before the next tick's
/// producers, so stale intent never carries into the next tick.
///
/// Total (no precondition) and idempotent: a second run in the same state
/// changes nothing.
pub fn reset_movement_components(
    c: &mut Character,
    walk: &mut Walk,
    jump: &mut Jump,
    sprint: &mut Sprinting,
)
    ensures
        intents_cleared(*final(c), *final(walk), *final(jump), *final(sprint)),
        reset_preserves(*old(c), *final(c)),
        final(walk).target_speed == old(walk).target_speed,
        final(walk).stopping_speed_threshold == old(walk).stopping_speed_threshold,
        final(walk).braking_acceleration == old(walk).braking_acceleration,
        final(jump).target_height == old(jump).target_height,
        final(sprint).multiplier == old(sprint).multiplier,
        intents_cleared(*old(c), *old(walk), *old(jump), *old(sprint)) ==> {
            &&& *final(c) == *old(c)
            &&& *final(walk) == *old(walk)
            &&& *final(jump) == *old(jump)
            &&& *final(sprint) == *old(sprint)
        },
{
    c.force_accumulator = Vec3::zero();
    c.impulse_velocity_delta = Vec3::zero();
    walk.direction = None;
    jump.requested = false;
    sprint.requested = false;
}

/// Everything that must happen before the engine's step, in the order the
/// schedule fixes: grounding from this tick's cast, then walking, then
/// jumping. The single ensures below is the composed effect of the three
/// stages — what the force and impulse accumulators hold, and what the
/// velocity is, when the engine starts integrating.
pub fn pre_physics_update(
    c: &mut Character,
    walk: &Walk,
    jump: &Jump,
    gravity: i64,
    cast_hit: Option<i64>,
    grace_distance: i64,
)
    requires
        character_wf(*old(c)),
        walk_wf(*walk),
        -SCALAR_LIMIT <= jump.target_height <= SCALAR_LIMIT,
        -SCALAR_LIMIT <= gravity <= SCALAR_LIMIT,
    ensures
        final(c).grounded.grounded == grounded_after_cast(
            old(c).grounded.grounded,
            cast_hit,
            grace_distance as int,
        ),
        final(c).up == old(c).up,
        final(c).mass == old(c).mass,
        final(c).animations == old(c).animations,
        final(c).animation_target == old(c).animation_target,
        final(c).linear_velocity@.bounded(1_600_000_000),
        final(c).force_accumulator@.bounded(9_000_000_000_000_000),
        final(c).impulse_velocity_delta@.bounded(12_000_000_000),
        ({
            let g = grounded_after_cast(
                old(c).grounded.grounded,
                cast_hit,
                grace_distance as int,
            );
            let v0 = old(c).linear_velocity@;
            let u = old(c).up@;
            let f0 = old(c).force_accumulator@;
            let walked: (Vec3i, Vec3i) = match walk.direction {
                Some(dir) => {
                    let hd = horiz(dir@, u);
                    if hd == Vec3i::zero() {
                        (v0, f0)
                    } else {
                        (
                            v0,
                            f0.plus(
                                accel_force(
                                    scaled_to(hd, max0(walk.target_speed as int)),
                                    old(c).mass as int,
                                ),
                            ),
                        )
                    }
                }
                None => {
                    if !g {
                        (v0, f0)
                    } else {
                        let h = horiz(v0, u);
                        let t = max0(walk.stopping_speed_threshold as int);
                        if h.dotp(h) < t * t * MICRO {
                            (vert(v0, u), f0)
                        } else if h == Vec3i::zero() {
                            (v0, f0)
                        } else {
                            (
                                v0,
                                f0.plus(
                                    accel_force(
                                        scaled_to(
                                            h.neg(),
                                            max0(walk.braking_acceleration as int),
                                        ),
                                        old(c).mass as int,
                                    ),
                                ),
                            )
                        }
                    }
                }
            };
            let jumped: (Vec3i, Vec3i) = if jump.requested && g {
                (
                    horiz(walked.0, u),
                    old(c).impulse_velocity_delta@.plus(
                        u.times(launch_speed(gravity as int, jump.target_height as int)),
                    ),
                )
            } else {
                (walked.0, old(c).impulse_velocity_delta@)
            };
            &&& final(c).linear_velocity@ == jumped.0
            &&& final(c).force_accumulator@ == walked.1
            &&& final(c).impulse_velocity_delta@ == jumped.1
        }),
{
    update_grounded(c, cast_hit, grace_distance);
    apply_walking(c, walk);
    apply_jumping(c, jump, gravity);
}

/// Everything that happens after the engine's writeback, in the order the
/// schedule fixes: the animation selector reads the integrated state, then
/// the intent reset clears what this tick consumed — strictly after the
/// selector, strictly before the next tick's producers.
pub fn post_physics_update(
    c: &mut Character,
    walk: &mut Walk,
    jump: &mut Jump,
    sprint: &mut Sprinting,
) -> (r: Result<AnimationCommand, MovementError>)
    requires
        is_up_axis(old(c).up@),
        old(c).linear_velocity@.bounded(VEC_LIMIT as int),
    ensures
        r == resolve_animation_spec(*old(c)),
        intents_cleared(*final(c), *final(walk), *final(jump), *final(sprint)),
        reset_preserves(*old(c), *final(c)),
        final(walk).target_speed == old(walk).target_speed,
        final(walk).stopping_speed_threshold == old(walk).stopping_speed_threshold,
        final(walk).braking_acceleration == old(walk).braking_acceleration,
        final(jump).target_height == old(jump).target_height,
        final(sprint).multiplier == old(sprint).multiplier,
{
    let r = resolve_animation(c);
    reset_movement_components(c, walk, jump, sprint);
    r
}

} // verus!
