//! Construction of a character controller from authoring data: intents at
//! neutral defaults, a capsule collision volume sized from the captured
//! height, radius and scale, a slightly shrunk sensor shape for ground
//! probes, and the cast distance the grounding detector uses.

use vstd::prelude::*;
use crate::fixed::fdiv;
use crate::fixed::MILLI;
use crate::components::Grounded;
use crate::components::Jump;
use crate::components::MovementError;
use crate::components::SCALAR_LIMIT;
use crate::components::Sprinting;
use crate::components::Walk;

verus! {

/// Default capsule length of a player-sized character (milli scale).
pub const PLAYER_HEIGHT: i64 = 400;

/// Default capsule radius of a player-sized character (milli scale).
pub const PLAYER_RADIUS: i64 = 300;

/// A capsule lying along the model's forward axis: `length` between the
/// two cap centres, plus a cap of `radius` at each end (milli scale).
#[derive(Clone, Copy, Debug, PartialEq, Eq, Structural)]
pub struct CapsuleDims {
    pub length: i64,
    pub radius: i64,
}

/// Everything the spawning collaborator inserts for one character
/// controller: neutral intents, the collision volume, the shrunk ground
/// sensor shape, the float height, and an ungrounded grounded flag.
#[derive(Clone, Copy, Debug, PartialEq, Eq, Structural)]
pub struct CharacterControllerBundle {
    pub walking: Walk,
    pub sprinting: Sprinting,
    pub jumping: Jump,
    pub collider: CapsuleDims,
    pub sensor_shape: CapsuleDims,
    pub float_height: i64,
    pub grounded: Grounded,
}

impl CharacterControllerBundle {
    /// Build a capsule-shaped controller from captured authoring data.
    ///
    /// The sensor shape is the collider shrunk to ninety-five percent so
    /// ground probes do not catch on walls the collider itself touches;
    /// the float height is half the radius scaled by the model's vertical
    /// scale. A non-positive dimension is degenerate authoring data and is
    /// surfaced as a typed failure rather than a panic.
    pub fn capsule(height: i64, radius: i64, scale_y: i64) -> (r: Result<
        Self,
        MovementError,
    >)
        requires
            height <= SCALAR_LIMIT,
            radius <= SCALAR_LIMIT,
            scale_y <= SCALAR_LIMIT,
        ensures
            (height <= 0 || radius <= 0 || scale_y <= 0) <==> r is Err,
            (match r {
                Err(e) => e == MovementError::GeometryConstructionFailure,
                Ok(b) => {
                    &&& b.collider == (CapsuleDims { length: height, radius })
                    &&& b.sensor_shape.length == (height * 95) / 100
                    &&& b.sensor_shape.radius == (radius * 95) / 100
                    &&& b.float_height == (radius * scale_y) / ((2 * MILLI) as int)
                    &&& b.walking == crate::components::walk_default()
                    &&& b.sprinting == crate::components::sprinting_default()
                    &&& b.jumping == crate::components::jump_default()
                    &&& !b.grounded.grounded
                },
            }),
    {
        if height <= 0 || radius <= 0 || scale_y <= 0 {
            return Err(MovementError::GeometryConstructionFailure);
        }
        proof {
            crate::vec3::lemma_abs_mul_le(
                radius as int,
                scale_y as int,
                SCALAR_LIMIT as int,
                SCALAR_LIMIT as int,
            );
        }
        let collider = CapsuleDims { length: height, radius };
        let sensor_shape = CapsuleDims {
            length: fdiv(height * 95, 100),
            radius: fdiv(radius * 95, 100),
        };
        let float_height = fdiv(radius * scale_y, 2 * MILLI);
        Ok(
            CharacterControllerBundle {
                walking: Walk::default(),
                sprinting: Sprinting::default(),
                jumping: Jump::default(),
                collider,
                sensor_shape,
                float_height,
                grounded: Grounded { grounded: false, changed_this_tick: false },
            },
        )
    }
}

/// Distance of the grounding detector's downward cast: half the capsule
/// length plus the cap radius as margin.
pub fn grounding_cast_distance(height: i64, radius: i64) -> (r: i64)
    requires
        0 <= height <= SCALAR_LIMIT,
        0 <= radius <= SCALAR_LIMIT,
    ensures
        r == height / 2 + radius,
{
    fdiv(height, 2) + radius
}

} // verus!
