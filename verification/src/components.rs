//! Per-character data: intents, grounded state, physical readback, and the
//! animation binding.
//!
//! Intents are per-tick, producer-written desires consumed at most once
//! before being cleared by the intent reset stage. The grounded flag is
//! written only by the grounding detector; every other stage treats it as
//! read-only. The force and impulse accumulators are append-only within a
//! tick and cleared by the physics writeback.

use vstd::prelude::*;
use crate::vec3::Vec3;
use crate::vec3::is_up_axis;

verus! {

/// Bound on a velocity or intent-direction component handed to the core
/// (micro scale: one hundred metres per second).
pub const VEC_LIMIT: i64 = 100_000_000;

/// Bound on a scalar intent value: speed, acceleration, height, gravity,
/// duration (milli scale: one thousand in real units).
pub const SCALAR_LIMIT: i64 = 1_000_000;

/// Bound on a mass (milli scale: one million kilograms).
pub const MASS_LIMIT: i64 = 1_000_000_000;

/// Bound on a force-accumulator component when a stage starts appending
/// to it (micro scale).
pub const FORCE_LIMIT: i64 = 8_000_000_000_000_000;

/// Bound on an impulse-accumulator component when a stage starts appending
/// to it (micro scale).
pub const IMPULSE_LIMIT: i64 = 10_000_000_000;

/// The three logical animation states a character can be in.
#[derive(Clone, Copy, Debug, PartialEq, Eq, Structural)]
pub enum AnimationState {
    Idle,
    Walk,
    Aerial,
}

/// Opaque clip handles for the three animation states; immutable after
/// spawn and owned by the character.
#[derive(Clone, Copy, Debug, PartialEq, Eq, Structural)]
pub struct CharacterAnimations {
    pub idle: u64,
    pub walk: u64,
    pub aerial: u64,
}

/// Grounded state with explicit change detection: `changed_this_tick` is
/// true exactly when the last write flipped the value.
#[derive(Clone, Copy, Debug, PartialEq, Eq, Structural)]
pub struct Grounded {
    pub grounded: bool,
    pub changed_this_tick: bool,
}

impl Grounded {
    pub fn is_grounded(&self) -> (r: bool)
        ensures
            r == self.grounded,
    {
        self.grounded
    }

    /// Write the flag, recording whether the written value differs from the
    /// stored one so downstream systems can react only on transitions.
    pub fn force_set(&mut self, value: bool)
        ensures
            final(self).grounded == value,
            final(self).changed_this_tick == (old(self).grounded != value),
    {
        self.changed_this_tick = self.grounded != value;
        self.grounded = value;
    }
}

impl Default for Grounded {
    fn default() -> (r: Self)
        ensures
            r.grounded == false,
            r.changed_this_tick == false,
    {
        Grounded { grounded: false, changed_this_tick: false }
    }
}

/// Walking intent: where to go this tick and how the character slows down
/// when no direction is given.
///
/// `direction` is `None` when there is no intent this tick; the intent
/// reset stage returns it to `None` every tick whether or not it was
/// consumed. While grounded and intent-less, a horizontal speed whose
/// square is below `stopping_speed_threshold` squared makes the velocity
/// snap to its vertical part instead of decelerating asymptotically.
#[derive(Clone, Copy, Debug, PartialEq, Eq, Structural)]
pub struct Walk {
    /// Speed the character should approach on the ground (milli scale).
    pub target_speed: i64,
    /// Direction in which to walk this tick, if any (micro scale).
    pub direction: Option<Vec3>,
    /// Below this grounded horizontal speed the velocity snaps to purely
    /// vertical (milli scale).
    pub stopping_speed_threshold: i64,
    /// Magnitude of the braking deceleration while grounded and intent-less
    /// (milli scale).
    pub braking_acceleration: i64,
}

/// The neutral walking intent a freshly spawned character carries: a
/// target speed of eight units per second and no direction.
pub open spec fn walk_default() -> Walk {
    Walk {
        target_speed: 8_000,
        direction: None,
        stopping_speed_threshold: 1_000,
        braking_acceleration: 10_000,
    }
}

impl Default for Walk {
    /// A character walks at eight units per second by default.
    fn default() -> (r: Self)
        ensures
            r == walk_default(),
    {
        Walk {
            target_speed: 8_000,
            direction: None,
            stopping_speed_threshold: 1_000,
            braking_acceleration: 10_000,
        }
    }
}

/// Jumping intent: a one-shot request and the full height the jump should
/// reach, from which the launch speed is derived by energy conservation.
#[derive(Clone, Copy, Debug, PartialEq, Eq, Structural)]
pub struct Jump {
    /// The full achievable height of the jump (milli scale).
    pub target_height: i64,
    /// Was a jump requested this tick?
    pub requested: bool,
}

/// The neutral jumping intent: one unit of height, nothing requested.
pub open spec fn jump_default() -> Jump {
    Jump { target_height: 1_000, requested: false }
}

impl Default for Jump {
    /// A character jumps one unit high by default.
    fn default() -> (r: Self)
        ensures
            r == jump_default(),
    {
        Jump { target_height: 1_000, requested: false }
    }
}

/// Sprinting intent: a one-shot request and the speed multiplier that the
/// input-mapping collaborator applies while it is held.
#[derive(Clone, Copy, Debug, PartialEq, Eq, Structural)]
pub struct Sprinting {
    /// Speed multiplier while sprinting (milli scale).
    pub multiplier: i64,
    /// Was sprinting requested this tick?
    pub requested: bool,
}

/// The neutral sprinting intent: a multiplier of one and a half, nothing
/// requested.
pub open spec fn sprinting_default() -> Sprinting {
    Sprinting { multiplier: 1_500, requested: false }
}

impl Default for Sprinting {
    /// Sprinting multiplies the target speed by one and a half by default.
    fn default() -> (r: Self)
        ensures
            r == sprinting_default(),
    {
        Sprinting { multiplier: 1_500, requested: false }
    }
}

/// One simulated actor: orientation, physical readback, accumulators, the
/// grounded flag, and the animation binding.
#[derive(Clone, Copy, Debug, PartialEq, Eq, Structural)]
pub struct Character {
    /// Local vertical (milli scale, squared length exactly one); not assumed
    /// to be world-up for rotated bodies.
    pub up: Vec3,
    /// Mass read back from the physics engine each tick (milli scale).
    pub mass: i64,
    /// Linear velocity, owned jointly with the physics engine (micro scale).
    pub linear_velocity: Vec3,
    /// Written only by the grounding detector.
    pub grounded: Grounded,
    /// Force accumulator, append-only within a tick (micro scale).
    pub force_accumulator: Vec3,
    /// Impulse accumulator: an instantaneous velocity change consumed and
    /// cleared by the physics writeback (micro scale).
    pub impulse_velocity_delta: Vec3,
    /// Clip handles for the animation selector.
    pub animations: CharacterAnimations,
    /// Back-reference to the externally owned animation player, if linked.
    pub animation_target: Option<u64>,
}

/// What the core relies on of a character at the start of a stage: a true
/// up axis, bounded readback values, a positive mass, and room left in the
/// accumulators.
pub open spec fn character_wf(c: Character) -> bool {
    &&& is_up_axis(c.up@)
    &&& c.linear_velocity@.bounded(VEC_LIMIT as int)
    &&& 0 < c.mass <= MASS_LIMIT
    &&& c.force_accumulator@.bounded(FORCE_LIMIT as int)
    &&& c.impulse_velocity_delta@.bounded(IMPULSE_LIMIT as int)
}

/// What the core relies on of a walking intent: bounded scalar values and a
/// bounded direction.
pub open spec fn walk_wf(w: Walk) -> bool {
    &&& -SCALAR_LIMIT <= w.target_speed <= SCALAR_LIMIT
    &&& -SCALAR_LIMIT <= w.stopping_speed_threshold <= SCALAR_LIMIT
    &&& -SCALAR_LIMIT <= w.braking_acceleration <= SCALAR_LIMIT
    &&& match w.direction {
        Some(d) => d@.bounded(VEC_LIMIT as int),
        None => true,
    }
}

/// Per-entity failures of a tick stage and typed spawn failures.
#[derive(Clone, Copy, Debug, PartialEq, Eq, Structural)]
pub enum MovementError {
    /// The character's animation-player back-reference is missing: the
    /// entity is skipped for the animation stage, others proceed.
    MissingAnimationTarget,
    /// Collision-volume construction from authoring data was handed a
    /// degenerate size; surfaced to the spawning caller as a typed result.
    GeometryConstructionFailure,
}

} // verus!
