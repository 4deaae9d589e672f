use controller_core::components::CharacterController;
use controller_core::fixed::{fp_clamp, fp_div, fp_lerp, fp_mul, isqrt, SCALE};
use controller_core::vecs::{normalize_or, rotate_input_to_world, AngleBasis, Vec2Fp, Vec3Fp};

#[test]
fn multiplication_is_exact_on_scale_values() {
    assert_eq!(fp_mul(600_000, 54_000), 540_000); // 10 * 0.9 = 9
    assert_eq!(fp_mul(900_000, 1_000), 15_000); // 15 per second over 1/60 s
    assert_eq!(fp_mul(SCALE, SCALE), SCALE); // 1 * 1 = 1
    assert_eq!(fp_mul(0, 123_456), 0);
}

#[test]
fn multiplication_rounds_toward_zero() {
    assert_eq!(fp_mul(1, 30_000), 0); // tiny positive truncates to 0
    assert_eq!(fp_mul(-1, 30_000), 0); // tiny negative truncates to 0, not -1
    assert_eq!(fp_mul(-600_000, 54_000), -540_000);
    assert_eq!(fp_mul(-100_001, 30_000), -50_000); // -1.66668.. * 0.5
}

#[test]
fn division_matches_multiplication() {
    assert_eq!(fp_div(540_000, 54_000), 600_000); // 9 / 0.9 = 10
    assert_eq!(fp_div(-540_000, 54_000), -600_000);
    assert_eq!(fp_div(SCALE, 3 * SCALE), 20_000); // a third
}

#[test]
fn clamp_and_lerp() {
    assert_eq!(fp_clamp(5, 0, 10), 5);
    assert_eq!(fp_clamp(-5, 0, 10), 0);
    assert_eq!(fp_clamp(15, 0, 10), 10);
    assert_eq!(fp_lerp(0, SCALE, 30_000), 30_000); // halfway
    assert_eq!(fp_lerp(SCALE, 0, 30_000), 30_000); // halfway back
    assert_eq!(fp_lerp(100, 100, 42_000), 100); // nothing to cover
}

#[test]
fn integer_square_root_brackets_its_input() {
    assert_eq!(isqrt(0), 0);
    assert_eq!(isqrt(1), 1);
    assert_eq!(isqrt(3), 1);
    assert_eq!(isqrt(4), 2);
    assert_eq!(isqrt(3_600_000_000), 60_000);
    assert_eq!(isqrt(7_199_999_999), 84_852);
    assert_eq!(isqrt(u64::MAX), 0xFFFF_FFFF);
}

#[test]
fn rotation_by_quarter_turns() {
    let forward = Vec2Fp::new(0, SCALE);
    // Yaw zero: forward input points along negative z.
    let w = rotate_input_to_world(&AngleBasis::zero(), &forward);
    assert_eq!(w, Vec3Fp::new(0, 0, -SCALE));
    // A quarter turn (sin 1, cos 0) swings it onto the negative x axis.
    let quarter = AngleBasis::new(SCALE, 0);
    let w = rotate_input_to_world(&quarter, &forward);
    assert_eq!(w, Vec3Fp::new(-SCALE, 0, 0));
    // Half a turn flips it.
    let half = AngleBasis::new(0, -SCALE);
    let w = rotate_input_to_world(&half, &forward);
    assert_eq!(w, Vec3Fp::new(0, 0, SCALE));
}

#[test]
fn normalization_and_fallback() {
    let v = Vec3Fp::new(0, 0, -360_000);
    let fallback = Vec3Fp::new(0, 0, -SCALE);
    assert_eq!(normalize_or(&v, &fallback), Vec3Fp::new(0, 0, -SCALE));

    let zero = Vec3Fp::new(0, 0, 0);
    assert_eq!(normalize_or(&zero, &fallback), fallback);

    let diagonal = Vec3Fp::new(60_000, 0, 60_000);
    let n = normalize_or(&diagonal, &fallback);
    assert_eq!(n, Vec3Fp::new(42_426, 0, 42_426));
}

#[test]
fn stick_clamp_in_two_dimensions() {
    let short = Vec2Fp::new(30_000, 0);
    assert_eq!(short.clamp_unit(), short);
    let long = Vec2Fp::new(SCALE, SCALE);
    assert_eq!(long.clamp_unit(), Vec2Fp::new(42_426, 42_426));
}

#[test]
fn controller_bundle_defaults() {
    let b = CharacterController::new();
    assert_eq!(b.acceleration.0, 1_800_000); // 30.0
    assert_eq!(b.damping.0, 54_000); // 0.9
    assert_eq!(b.jump_impulse.0, 420_000); // 7.0
    assert_eq!(b.max_slope_angle.0, 31_416); // 30 degrees in radians
    assert_eq!(b.ground_normal.normal(), Vec3Fp::new(0, SCALE, 0));
    assert_eq!(b.caster.shape_scale, 57_000); // collider shrunk to 95%
    assert_eq!(b.caster.max_distance, 18_000); // cast 0.3 down
    assert_eq!(b.caster.max_hits, 5);

    let custom = CharacterController::with_movement(1_200_000, 48_000, 300_000, 26_180);
    assert_eq!(custom.acceleration.0, 1_200_000);
    assert_eq!(custom.damping.0, 48_000);
    assert_eq!(custom.jump_impulse.0, 300_000);
    assert_eq!(custom.max_slope_angle.0, 26_180);
}
