use locomotion::character_controller::grounding_cast_distance;
use locomotion::character_controller::CharacterControllerBundle;
use locomotion::components::AnimationState;
use locomotion::components::Character;
use locomotion::components::CharacterAnimations;
use locomotion::components::Grounded;
use locomotion::components::Jump;
use locomotion::components::MovementError;
use locomotion::components::Sprinting;
use locomotion::components::Walk;
use locomotion::general_movement::apply_jumping;
use locomotion::general_movement::apply_walking;
use locomotion::general_movement::launch_speed_milli;
use locomotion::general_movement::play_animations;
use locomotion::general_movement::pre_physics_update;
use locomotion::general_movement::post_physics_update;
use locomotion::general_movement::reset_movement_components;
use locomotion::general_movement::resolve_animation;
use locomotion::general_movement::rotation_blend_milli;
use locomotion::general_movement::rotation_target;
use locomotion::general_movement::select_animation;
use locomotion::general_movement::update_grounded;
use locomotion::general_movement::vertical_speed_milli;
use locomotion::general_movement::horizontal_speed_squared;
use locomotion::physics::integrate_writeback;
use locomotion::vec3::Vec3;

fn character_at(velocity: Vec3, grounded: bool) -> Character {
    Character {
        up: Vec3::new(0, 1_000, 0),
        mass: 1_000,
        linear_velocity: velocity,
        grounded: Grounded { grounded, changed_this_tick: false },
        force_accumulator: Vec3::zero(),
        impulse_velocity_delta: Vec3::zero(),
        animations: CharacterAnimations { idle: 1, walk: 2, aerial: 3 },
        animation_target: Some(7),
    }
}

#[test]
fn walk_intent_becomes_forward_force_and_walk_animation() {
    // A character at rest on the ground walks forward at a target speed of
    // eight units per second.
    let mut c = character_at(Vec3::zero(), true);
    let walk = Walk {
        target_speed: 8_000,
        direction: Some(Vec3::new(1_000_000, 0, 0)),
        stopping_speed_threshold: 1_000,
        braking_acceleration: 10_000,
    };
    apply_walking(&mut c, &walk);
    // acceleration of 8 units/s^2 times one unit of mass: a forward force
    // of magnitude exactly acceleration * mass.
    assert_eq!(c.force_accumulator, Vec3::new(8_000_000, 0, 0));
    assert_eq!(c.linear_velocity, Vec3::zero());
    // After the engine integrates the force over a tenth of a second the
    // character moves and the selector picks the walk clip.
    integrate_writeback(&mut c, 100);
    assert_eq!(c.linear_velocity, Vec3::new(800_000, 0, 0));
    assert_eq!(c.force_accumulator, Vec3::zero());
    let cmd = resolve_animation(&c).unwrap();
    assert_eq!(cmd.player, 7);
    assert_eq!(cmd.clip, 2);
}

#[test]
fn airborne_jump_request_is_ignored_and_still_cleared() {
    // No ground hit this tick: the jump must not fire, the animation is
    // aerial, and the reset still clears the request.
    let mut c = character_at(Vec3::new(0, -2_000_000, 0), false);
    update_grounded(&mut c, None, 500);
    assert!(!c.grounded.grounded);
    let before = c;
    let jump = Jump { target_height: 1_000, requested: true };
    apply_jumping(&mut c, &jump, 9_800);
    assert_eq!(c, before);
    let cmd = resolve_animation(&c).unwrap();
    assert_eq!(cmd.clip, 3);
    let mut walk = Walk::default();
    let mut jump = jump;
    let mut sprint = Sprinting::default();
    reset_movement_components(&mut c, &mut walk, &mut jump, &mut sprint);
    assert!(!jump.requested);
}

#[test]
fn jump_launch_speed_is_exact_and_independent_of_prior_fall() {
    // Height one unit, gravity 9.8: launch speed floor(sqrt(2 * 9.8)) in
    // milli units, i.e. 4.427 units per second.
    assert_eq!(launch_speed_milli(9_800, 1_000), 4_427);
    let up = Vec3::new(0, 1_000, 0);
    for pre in [-3_000_000i64, 3_000_000i64] {
        let mut c = character_at(Vec3::new(0, pre, 0), true);
        let jump = Jump { target_height: 1_000, requested: true };
        apply_jumping(&mut c, &jump, 9_800);
        // the old vertical velocity is gone and the impulse carries the
        // launch speed
        assert_eq!(c.linear_velocity, Vec3::zero());
        assert_eq!(c.impulse_velocity_delta, Vec3::new(0, 4_427_000, 0));
        integrate_writeback(&mut c, 17);
        assert_eq!(vertical_speed_milli(&c.linear_velocity, &up), 4_427);
    }
}

#[test]
fn jump_on_tilted_axis_still_lands_on_exact_launch_speed() {
    // A 3-4-5 up axis: grounded jump, arbitrary initial velocity; the
    // vertical speed after the impulse is exactly the launch speed.
    let up = Vec3::new(600, 800, 0);
    let mut c = character_at(Vec3::new(1_234_567, -2_345_678, 345_678), true);
    c.up = up;
    let jump = Jump { target_height: 1_000, requested: true };
    apply_jumping(&mut c, &jump, 9_800);
    integrate_writeback(&mut c, 17);
    assert_eq!(vertical_speed_milli(&c.linear_velocity, &up), 4_427);
}

#[test]
fn negative_jump_height_counts_as_zero() {
    assert_eq!(launch_speed_milli(9_800, -5), 0);
    assert_eq!(launch_speed_milli(-9_800, 1_000), 0);
}

#[test]
fn slow_grounded_character_snaps_to_exact_stop() {
    // Grounded, no intent, horizontal speed 0.4 below the stopping
    // threshold of 1.0: the horizontal velocity becomes exactly zero, the
    // vertical part stays.
    let up = Vec3::new(0, 1_000, 0);
    let mut c = character_at(Vec3::new(400_000, -2_000_000, 0), true);
    let walk = Walk { direction: None, ..Walk::default() };
    apply_walking(&mut c, &walk);
    assert_eq!(c.linear_velocity, Vec3::new(0, -2_000_000, 0));
    assert_eq!(horizontal_speed_squared(&c.linear_velocity, &up), 0);
    assert_eq!(c.force_accumulator, Vec3::zero());
}

#[test]
fn fast_grounded_character_brakes_against_its_heading() {
    // Grounded, no intent, horizontal speed 5.0 above the threshold: a
    // braking force of magnitude braking_acceleration * mass opposes the
    // horizontal velocity.
    let mut c = character_at(Vec3::new(5_000_000, 0, 0), true);
    let walk = Walk { direction: None, ..Walk::default() };
    apply_walking(&mut c, &walk);
    assert_eq!(c.force_accumulator, Vec3::new(-10_000_000, 0, 0));
    assert_eq!(c.linear_velocity, Vec3::new(5_000_000, 0, 0));
}

#[test]
fn airborne_character_keeps_its_momentum() {
    let mut c = character_at(Vec3::new(5_000_000, 0, 0), false);
    let walk = Walk { direction: None, ..Walk::default() };
    let before = c;
    apply_walking(&mut c, &walk);
    assert_eq!(c, before);
}

#[test]
fn diagonal_walk_force_keeps_the_intent_direction() {
    // A 3-4-5 diagonal intent: the force keeps the direction and has
    // magnitude acceleration times mass.
    let mut c = character_at(Vec3::zero(), true);
    let walk = Walk { direction: Some(Vec3::new(600_000, 0, 800_000)), ..Walk::default() };
    apply_walking(&mut c, &walk);
    assert_eq!(c.force_accumulator, Vec3::new(4_800_000, 0, 6_400_000));
}

#[test]
fn walk_intent_parallel_to_up_gives_no_force() {
    // The projection of the intent direction onto the ground plane is the
    // zero vector, so there is no direction to accelerate in.
    let mut c = character_at(Vec3::zero(), true);
    let walk = Walk { direction: Some(Vec3::new(0, 1_000_000, 0)), ..Walk::default() };
    apply_walking(&mut c, &walk);
    assert_eq!(c.force_accumulator, Vec3::zero());
}

#[test]
fn negative_target_speed_counts_as_zero() {
    let mut c = character_at(Vec3::zero(), true);
    let walk = Walk {
        target_speed: -8_000,
        direction: Some(Vec3::new(1_000_000, 0, 0)),
        ..Walk::default()
    };
    apply_walking(&mut c, &walk);
    assert_eq!(c.force_accumulator, Vec3::zero());
}

#[test]
fn intent_reset_is_total_and_idempotent() {
    let mut c = character_at(Vec3::new(1_000_000, 2_000_000, 0), true);
    c.force_accumulator = Vec3::new(5, -7, 9);
    c.impulse_velocity_delta = Vec3::new(1, 2, 3);
    let mut walk = Walk { direction: Some(Vec3::new(1_000_000, 0, 0)), ..Walk::default() };
    let mut jump = Jump { target_height: 1_000, requested: true };
    let mut sprint = Sprinting { multiplier: 1_500, requested: true };
    reset_movement_components(&mut c, &mut walk, &mut jump, &mut sprint);
    assert_eq!(c.force_accumulator, Vec3::zero());
    assert_eq!(c.impulse_velocity_delta, Vec3::zero());
    assert_eq!(walk.direction, None);
    assert!(!jump.requested);
    assert!(!sprint.requested);
    // what the reset does not own is untouched
    assert_eq!(c.linear_velocity, Vec3::new(1_000_000, 2_000_000, 0));
    assert!(c.grounded.grounded);
    assert_eq!(walk.target_speed, 8_000);
    // a second run changes nothing at all
    let (c1, w1, j1, s1) = (c, walk, jump, sprint);
    reset_movement_components(&mut c, &mut walk, &mut jump, &mut sprint);
    assert_eq!((c, walk, jump, sprint), (c1, w1, j1, s1));
}

#[test]
fn grounding_follows_the_cast_within_grace_distance() {
    let mut c = character_at(Vec3::zero(), false);
    update_grounded(&mut c, Some(300), 500);
    assert!(c.grounded.grounded);
    assert!(c.grounded.changed_this_tick);
    update_grounded(&mut c, Some(200), 500);
    assert!(c.grounded.grounded);
    assert!(!c.grounded.changed_this_tick);
    update_grounded(&mut c, Some(900), 500);
    assert!(!c.grounded.grounded);
    assert!(c.grounded.changed_this_tick);
    // no hit reported: the stored state falls through unchanged
    update_grounded(&mut c, None, 500);
    assert!(!c.grounded.grounded);
    assert!(!c.grounded.changed_this_tick);
    // a hit with a negative time of impact does not ground
    update_grounded(&mut c, Some(-1), 500);
    assert!(!c.grounded.grounded);
}

#[test]
fn animation_selection_is_pure_and_thresholded() {
    assert_eq!(select_animation(false, 0), AnimationState::Aerial);
    assert_eq!(select_animation(false, 1_000_000_000), AnimationState::Aerial);
    assert_eq!(select_animation(true, 100_000_000), AnimationState::Idle);
    assert_eq!(select_animation(true, 100_000_001), AnimationState::Walk);
    assert_eq!(select_animation(true, 0), AnimationState::Idle);
    // re-running with unchanged inputs cannot drift
    for _ in 0..3 {
        assert_eq!(select_animation(true, 640_000_000_000), AnimationState::Walk);
    }
}

#[test]
fn missing_animation_target_is_a_soft_per_entity_failure() {
    let mut linked = character_at(Vec3::zero(), true);
    linked.animation_target = Some(42);
    let mut unlinked = character_at(Vec3::zero(), false);
    unlinked.animation_target = None;
    let out = play_animations(&vec![linked, unlinked, linked]);
    assert_eq!(out.len(), 3);
    assert_eq!(out[0].unwrap().clip, 1);
    assert_eq!(out[1], Err(MovementError::MissingAnimationTarget));
    assert_eq!(out[2].unwrap().player, 42);
}

#[test]
fn rotation_decision_skips_nearly_still_characters() {
    let up = Vec3::new(0, 1_000, 0);
    assert_eq!(rotation_target(&Vec3::new(0, -3_000_000, 0), &up), None);
    let r = rotation_target(&Vec3::new(2_000_000, -3_000_000, 0), &up);
    assert_eq!(r, Some(Vec3::new(2_000_000, 0, 0)));
    assert_eq!(rotation_blend_milli(100), 400);
    assert_eq!(rotation_blend_milli(300), 1_000);
    assert_eq!(rotation_blend_milli(-5), 0);
}

#[test]
fn capsule_bundle_is_sized_from_authoring_data() {
    let b = CharacterControllerBundle::capsule(400, 300, 1_000).unwrap();
    assert_eq!(b.collider.length, 400);
    assert_eq!(b.collider.radius, 300);
    assert_eq!(b.sensor_shape.length, 380);
    assert_eq!(b.sensor_shape.radius, 285);
    assert_eq!(b.float_height, 150);
    assert!(!b.grounded.grounded);
    assert_eq!(b.walking, Walk::default());
    assert_eq!(b.jumping, Jump::default());
    assert_eq!(b.sprinting, Sprinting::default());
    assert_eq!(grounding_cast_distance(400, 300), 500);
}

#[test]
fn degenerate_capsule_is_a_typed_failure() {
    assert_eq!(
        CharacterControllerBundle::capsule(0, 300, 1_000),
        Err(MovementError::GeometryConstructionFailure)
    );
    assert_eq!(
        CharacterControllerBundle::capsule(400, -1, 1_000),
        Err(MovementError::GeometryConstructionFailure)
    );
    assert_eq!(
        CharacterControllerBundle::capsule(400, 300, 0),
        Err(MovementError::GeometryConstructionFailure)
    );
}

#[test]
fn one_tick_walks_forward_and_selects_the_walk_clip() {
    // The whole pre-step / step / post-step pipeline for the walking
    // scenario: the tick ends with a forward velocity, the walk clip, and
    // cleared intents.
    let mut c = character_at(Vec3::zero(), false);
    let mut walk = Walk { direction: Some(Vec3::new(1_000_000, 0, 0)), ..Walk::default() };
    let mut jump = Jump::default();
    let mut sprint = Sprinting::default();
    pre_physics_update(&mut c, &walk, &jump, 9_800, Some(100), 500);
    assert!(c.grounded.grounded);
    assert_eq!(c.force_accumulator, Vec3::new(8_000_000, 0, 0));
    integrate_writeback(&mut c, 100);
    let cmd = post_physics_update(&mut c, &mut walk, &mut jump, &mut sprint);
    assert_eq!(cmd.unwrap().clip, 2);
    assert_eq!(walk.direction, None);
    assert_eq!(c.force_accumulator, Vec3::zero());
    assert_eq!(c.linear_velocity, Vec3::new(800_000, 0, 0));
}

#[test]
fn one_tick_ignores_an_airborne_jump_and_clears_it() {
    // No ground hit: the jump request must not fire, the clip is aerial,
    // and the request is still cleared before the next tick.
    let mut c = character_at(Vec3::new(0, -1_000_000, 0), false);
    let mut walk = Walk::default();
    let mut jump = Jump { target_height: 1_000, requested: true };
    let mut sprint = Sprinting::default();
    pre_physics_update(&mut c, &walk, &jump, 9_800, None, 500);
    assert!(!c.grounded.grounded);
    assert_eq!(c.impulse_velocity_delta, Vec3::zero());
    integrate_writeback(&mut c, 100);
    let cmd = post_physics_update(&mut c, &mut walk, &mut jump, &mut sprint);
    assert_eq!(cmd.unwrap().clip, 3);
    assert!(!jump.requested);
}

#[test]
fn intent_defaults_are_neutral() {
    let w = Walk::default();
    assert_eq!(w.target_speed, 8_000);
    assert_eq!(w.direction, None);
    let j = Jump::default();
    assert_eq!(j.target_height, 1_000);
    assert!(!j.requested);
    let s = Sprinting::default();
    assert_eq!(s.multiplier, 1_500);
    assert!(!s.requested);
}
