use controller_core::components::{GroundNormal, JumpImpulse, MaxSlopeAngle, MovementDampingFactor};
use controller_core::fixed::SCALE;
use controller_core::input::MovementAction;
use controller_core::physics::{
    apply_movement_damping, enhanced_gravity, movement, update_grounded, GroundHit,
};
use controller_core::player::Player;
use controller_core::vecs::{AngleBasis, Vec2Fp, Vec3Fp};

const DT: i64 = 1_000; // one sixtieth of a second

#[test]
fn damping_scales_horizontal_velocity_exactly() {
    // MovementDampingFactor 0.9 on prior velocity (10, 0, 5): exactly
    // (9, 0, 4.5), the vertical component untouched.
    let damping = MovementDampingFactor(54_000);
    let mut velocity = Vec3Fp::new(600_000, 0, 300_000);
    let events: Vec<MovementAction> = vec![];
    apply_movement_damping(&events, &damping, &mut velocity);
    assert_eq!(velocity.x, 540_000); // 9.0
    assert_eq!(velocity.y, 0);
    assert_eq!(velocity.z, 270_000); // 4.5
}

#[test]
fn damping_leaves_vertical_velocity_to_gravity() {
    let damping = MovementDampingFactor(54_000);
    let mut velocity = Vec3Fp::new(600_000, -240_000, 300_000);
    let events: Vec<MovementAction> = vec![];
    apply_movement_damping(&events, &damping, &mut velocity);
    assert_eq!(velocity.y, -240_000);
}

#[test]
fn damping_skipped_while_moving() {
    let damping = MovementDampingFactor(54_000);
    let mut velocity = Vec3Fp::new(600_000, 0, 300_000);
    let events = vec![MovementAction::Move(Vec2Fp::new(0, SCALE), false)];
    apply_movement_damping(&events, &damping, &mut velocity);
    assert_eq!(velocity.x, 600_000);
    assert_eq!(velocity.z, 300_000);
}

#[test]
fn enhanced_gravity_raises_fall_gravity() {
    let p = Player::default(); // fall multiplier 2.5
    assert_eq!(enhanced_gravity(&p, -1_000), 300_000); // 2.0 * 2.5 = 5.0
    assert_eq!(enhanced_gravity(&p, 0), 120_000); // base 2.0
    assert_eq!(enhanced_gravity(&p, 1_000), 120_000);
}

#[test]
fn rolling_drives_horizontal_velocity_alone() {
    // While rolling, a concurrent Move intent plays no part: the velocity is
    // roll_direction * roll_speed * dt.
    let mut p = Player::default();
    p.is_rolling = true;
    p.roll_direction = Vec3Fp::new(0, 0, -SCALE);
    let yaw = AngleBasis::zero();
    let mut velocity = Vec3Fp::new(123, 456, 789);
    let events = vec![MovementAction::Move(Vec2Fp::new(SCALE, 0), true)];
    movement(
        &mut p,
        &events,
        &yaw,
        &mut velocity,
        &JumpImpulse(420_000),
        &GroundNormal::new(),
        true,
        true,
        DT,
    );
    // roll speed 1000: -1000 * 1/60 = -16.666... exactly -1_000_000 here.
    assert_eq!(velocity.x, 0);
    assert_eq!(velocity.z, -1_000_000);
    assert_eq!(velocity.y, 456); // untouched
}

#[test]
fn movement_locking_block_zeroes_horizontal_velocity() {
    let mut p = Player::default();
    p.is_blocking = true;
    p.can_move_while_blocking = false;
    let yaw = AngleBasis::zero();
    let mut velocity = Vec3Fp::new(600_000, -120_000, 300_000);
    let events = vec![MovementAction::Move(Vec2Fp::new(0, SCALE), false)];
    movement(
        &mut p,
        &events,
        &yaw,
        &mut velocity,
        &JumpImpulse(420_000),
        &GroundNormal::new(),
        true,
        true,
        DT,
    );
    assert_eq!(velocity.x, 0);
    assert_eq!(velocity.z, 0);
    assert_eq!(velocity.y, -120_000);
}

#[test]
fn forward_move_writes_exact_velocity() {
    // Walking forward at 200 with the camera at yaw zero: velocity
    // (0, _, -200/60).
    let mut p = Player::default();
    let yaw = AngleBasis::zero();
    let mut velocity = Vec3Fp::new(0, 0, 0);
    let events = vec![MovementAction::Move(Vec2Fp::new(0, SCALE), false)];
    movement(
        &mut p,
        &events,
        &yaw,
        &mut velocity,
        &JumpImpulse(420_000),
        &GroundNormal::new(),
        true,
        true,
        DT,
    );
    assert_eq!(velocity.x, 0);
    assert_eq!(velocity.z, -200_000);
    // The normalized world direction is stored for the facing slerp.
    assert_eq!(p.movement_direction, Vec3Fp::new(0, 0, -SCALE));
}

#[test]
fn jump_works_when_grounded_and_consumes_nothing_extra_on_flat_ground() {
    let mut p = Player::default();
    let yaw = AngleBasis::zero();
    let mut velocity = Vec3Fp::new(100, 0, 200);
    let events = vec![MovementAction::Jump];
    movement(
        &mut p,
        &events,
        &yaw,
        &mut velocity,
        &JumpImpulse(420_000),
        &GroundNormal::new(),
        true,
        true,
        DT,
    );
    assert_eq!(velocity.y, 420_000); // impulse 7.0
    assert_eq!(velocity.x, 100); // flat normal adds no horizontal push
    assert_eq!(velocity.z, 200);
    assert_eq!(p.coyote_timer, 0);
}

#[test]
fn coyote_jump_succeeds_within_grace_and_only_once() {
    let mut p = Player::default();
    p.coyote_timer = 3_000; // airborne, grace still running
    let yaw = AngleBasis::zero();
    let mut velocity = Vec3Fp::new(0, -50_000, 0);
    let events = vec![MovementAction::Jump, MovementAction::Jump];
    movement(
        &mut p,
        &events,
        &yaw,
        &mut velocity,
        &JumpImpulse(420_000),
        &GroundNormal::new(),
        false,
        false,
        DT,
    );
    // The first jump consumed the grace; the second found none left.
    assert_eq!(velocity.y, 420_000);
    assert_eq!(p.coyote_timer, 0);
}

#[test]
fn jump_fails_after_coyote_grace_ran_out() {
    let mut p = Player::default();
    p.coyote_timer = 0;
    let yaw = AngleBasis::zero();
    let mut velocity = Vec3Fp::new(0, -50_000, 0);
    let events = vec![MovementAction::Jump];
    movement(
        &mut p,
        &events,
        &yaw,
        &mut velocity,
        &JumpImpulse(420_000),
        &GroundNormal::new(),
        false,
        false,
        DT,
    );
    assert_eq!(velocity.y, -50_000); // only gravity governs the fall
}

#[test]
fn leaving_the_ground_arms_the_coyote_timer() {
    let mut p = Player::default();
    assert_eq!(p.coyote_timer, 0);
    let yaw = AngleBasis::zero();
    let mut velocity = Vec3Fp::new(0, 0, 0);
    let events: Vec<MovementAction> = vec![];
    movement(
        &mut p,
        &events,
        &yaw,
        &mut velocity,
        &JumpImpulse(420_000),
        &GroundNormal::new(),
        false,
        true,
        DT,
    );
    assert_eq!(p.coyote_timer, 6_000); // the full grace window
}

#[test]
fn flat_contact_grounds_the_sensor() {
    let hits = vec![GroundHit { normal: Vec3Fp::new(0, SCALE, 0), angle: 0 }];
    let facing = Vec3Fp::new(0, 0, -SCALE);
    let max = MaxSlopeAngle(31_416); // 30 degrees
    let mut normal = GroundNormal::new();
    let (sensor, marker) = update_grounded(&hits, &facing, &max, &mut normal);
    assert!(sensor.is_grounded);
    assert!(marker.is_some());
    assert_eq!(sensor.best_normal, Vec3Fp::new(0, SCALE, 0));
    assert_eq!(sensor.best_slope_angle, 0);
    assert_eq!(normal.normal(), Vec3Fp::new(0, SCALE, 0)); // already there
}

#[test]
fn too_steep_contact_does_not_ground() {
    // 100000 (about 95 degrees) is beyond 1.2x the 30-degree limit.
    let hits = vec![GroundHit { normal: Vec3Fp::new(SCALE, 0, 0), angle: 100_000 }];
    let facing = Vec3Fp::new(0, 0, -SCALE);
    let max = MaxSlopeAngle(31_416);
    let mut normal = GroundNormal::new();
    let (sensor, marker) = update_grounded(&hits, &facing, &max, &mut normal);
    assert!(!sensor.is_grounded);
    assert!(marker.is_none());
    assert_eq!(sensor.best_normal, Vec3Fp::new(0, SCALE, 0)); // the default up
}

#[test]
fn lenient_contact_tilts_but_does_not_ground() {
    // Between the limit (31416) and 1.2x the limit (37699): the normal is
    // tracked for visual tilt but the sensor stays ungrounded.
    let hits = vec![GroundHit { normal: Vec3Fp::new(33_000, 50_000, 0), angle: 35_000 }];
    let facing = Vec3Fp::new(0, 0, -SCALE); // heading is not uphill
    let max = MaxSlopeAngle(31_416);
    let mut normal = GroundNormal::new();
    let (sensor, marker) = update_grounded(&hits, &facing, &max, &mut normal);
    assert!(!sensor.is_grounded);
    assert!(marker.is_none());
    assert_eq!(sensor.best_normal, Vec3Fp::new(33_000, 50_000, 0));
}

#[test]
fn airborne_sensor_blends_normal_back_toward_vertical() {
    let hits: Vec<GroundHit> = vec![];
    let facing = Vec3Fp::new(0, 0, -SCALE);
    let max = MaxSlopeAngle(31_416);
    let mut normal = GroundNormal(Vec3Fp::new(30_000, 51_961, 0));
    let (sensor, marker) = update_grounded(&hits, &facing, &max, &mut normal);
    assert!(!sensor.is_grounded);
    assert!(marker.is_none());
    // One step of the 0.1 blend toward (0, SCALE, 0):
    // x: 30000 + (0 - 30000) * 0.1 = 27000
    // y: 51961 + (60000 - 51961) * 0.1 = 51961 + 803 = 52764
    assert_eq!(normal.normal(), Vec3Fp::new(27_000, 52_764, 0));
}
