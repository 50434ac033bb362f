//! The tick scheduler: a fixed total order over the stages of one
//! simulation tick, sandwiching the external physics step.
//!
//! The order is a hard correctness requirement, not a tuning choice:
//! grounding must be decided before walking reads it, all force and
//! impulse writers must finish before the engine integrates them, the
//! animation selector must read the integrated velocity, and the intent
//! reset must run after every consumer and before the next tick's
//! producers — otherwise intents are consumed twice (a jump fires twice)
//! or grounding arrives one tick late (a jump is accepted while airborne).
//! Camera follow runs after the writeback and before the final transform
//! propagation so presentation never lags the simulation by a frame.

use vstd::prelude::*;

verus! {

/// The stages of one simulation tick, in no particular order; their
/// execution order is fixed by [`stage_rank`] and [`tick_schedule`].
#[derive(Clone, Copy, Debug, PartialEq, Eq, Structural)]
pub enum TickStage {
    /// Input mapping writes walk/jump/sprint intents.
    IntentProduction,
    /// The grounding detector casts and writes the grounded flag.
    GroundingDetection,
    /// Walking intent becomes a force (or braking, or a stop).
    WalkingForces,
    /// A grounded jump request becomes an impulse.
    JumpingForces,
    /// The engine reads the accumulators and external state.
    PhysicsSync,
    /// The engine's opaque simulation step.
    PhysicsStep,
    /// The engine writes velocity and position back and clears the
    /// accumulators.
    PhysicsWriteback,
    /// The animation selector reads the integrated state.
    AnimationSelection,
    /// Camera follow reads the written-back transform.
    CameraFollow,
    /// Final transform propagation to presentation.
    TransformPropagation,
    /// One-shot intents and transient accumulators are cleared.
    IntentReset,
}

/// Position of each stage in the tick's total order.
pub open spec fn stage_rank(s: TickStage) -> int {
    match s {
        TickStage::IntentProduction => 0,
        TickStage::GroundingDetection => 1,
        TickStage::WalkingForces => 2,
        TickStage::JumpingForces => 3,
        TickStage::PhysicsSync => 4,
        TickStage::PhysicsStep => 5,
        TickStage::PhysicsWriteback => 6,
        TickStage::AnimationSelection => 7,
        TickStage::CameraFollow => 8,
        TickStage::TransformPropagation => 9,
        TickStage::IntentReset => 10,
    }
}

/// The tick's schedule as a sequence: every stage exactly once, sorted by
/// its rank.
pub open spec fn schedule_seq() -> Seq<TickStage> {
    seq![
        TickStage::IntentProduction,
        TickStage::GroundingDetection,
        TickStage::WalkingForces,
        TickStage::JumpingForces,
        TickStage::PhysicsSync,
        TickStage::PhysicsStep,
        TickStage::PhysicsWriteback,
        TickStage::AnimationSelection,
        TickStage::CameraFollow,
        TickStage::TransformPropagation,
        TickStage::IntentReset,
    ]
}

/// The fixed schedule a tick runner must follow, materialized.
pub fn tick_schedule() -> (v: Vec<TickStage>)
    ensures
        v@ == schedule_seq(),
{
    let mut v: Vec<TickStage> = Vec::new();
    v.push(TickStage::IntentProduction);
    v.push(TickStage::GroundingDetection);
    v.push(TickStage::WalkingForces);
    v.push(TickStage::JumpingForces);
    v.push(TickStage::PhysicsSync);
    v.push(TickStage::PhysicsStep);
    v.push(TickStage::PhysicsWriteback);
    v.push(TickStage::AnimationSelection);
    v.push(TickStage::CameraFollow);
    v.push(TickStage::TransformPropagation);
    v.push(TickStage::IntentReset);
    proof {
        assert(v@ =~= schedule_seq());
    }
    v
}

/// The schedule lists every stage exactly once, at its rank.
pub proof fn lemma_schedule_is_total_order()
    ensures
        schedule_seq().len() == 11,
        forall|i: int| 0 <= i < 11 ==> stage_rank(#[trigger] schedule_seq()[i]) == i,
        forall|s: TickStage| 0 <= #[trigger] stage_rank(s) < 11,
        forall|i: int, j: int|
            0 <= i < 11 && 0 <= j < 11 && i != j ==> schedule_seq()[i] != schedule_seq()[j],
{
    assert forall|i: int| 0 <= i < 11 implies stage_rank(#[trigger] schedule_seq()[i]) == i by {
        if i == 0 {
        } else if i == 1 {
        } else if i == 2 {
        } else if i == 3 {
        } else if i == 4 {
        } else if i == 5 {
        } else if i == 6 {
        } else if i == 7 {
        } else if i == 8 {
        } else if i == 9 {
        } else {
            assert(i == 10);
        }
    }
    assert forall|s: TickStage| 0 <= #[trigger] stage_rank(s) < 11 by {
    }
}

/// The ordering contract of one tick, stated over the ranks: grounding
/// before walking; walking and jumping before the engine's step; the
/// writeback before the animation selector, the camera and the reset; the
/// reset after the animation selector and strictly last, so it precedes
/// the next tick's intent production, which is strictly first.
pub proof fn lemma_schedule_orders_stages()
    ensures
        stage_rank(TickStage::GroundingDetection) < stage_rank(TickStage::WalkingForces),
        stage_rank(TickStage::WalkingForces) < stage_rank(TickStage::PhysicsStep),
        stage_rank(TickStage::JumpingForces) < stage_rank(TickStage::PhysicsStep),
        stage_rank(TickStage::PhysicsSync) < stage_rank(TickStage::PhysicsStep),
        stage_rank(TickStage::PhysicsStep) < stage_rank(TickStage::PhysicsWriteback),
        stage_rank(TickStage::PhysicsWriteback) < stage_rank(TickStage::AnimationSelection),
        stage_rank(TickStage::AnimationSelection) < stage_rank(TickStage::IntentReset),
        stage_rank(TickStage::PhysicsWriteback) < stage_rank(TickStage::IntentReset),
        stage_rank(TickStage::PhysicsWriteback) < stage_rank(TickStage::CameraFollow),
        stage_rank(TickStage::CameraFollow) < stage_rank(TickStage::TransformPropagation),
        stage_rank(TickStage::IntentProduction) == 0,
        forall|s: TickStage|
            s != TickStage::IntentReset ==> #[trigger] stage_rank(s) < stage_rank(
                TickStage::IntentReset,
            ),
{
}

} // verus!
