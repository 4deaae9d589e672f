use controller_core::camera::{
    camera_ceiling_adjust, camera_collision_smoothness, camera_floor_adjust, camera_orbit_target,
    camera_overlap_fallback, camera_ray_params, camera_wall_adjust, smooth_nudge,
    third_person_camera, PadLook, ThirdPersonCamera, PITCH_MAX, PITCH_MIN,
};
use controller_core::fixed::SCALE;
use controller_core::vecs::{AngleBasis, Vec2Fp, Vec3Fp};

const DT: i64 = 1_000; // one sixtieth of a second

fn no_pads() -> Vec<PadLook> {
    vec![]
}

#[test]
fn default_camera_values() {
    let c = ThirdPersonCamera::default();
    assert_eq!(c.pitch, 24_000); // 0.4 radians
    assert_eq!(c.yaw, 0);
    assert_eq!(c.distance, 300_000); // 5.0
    assert_eq!(c.height_offset, 90_000); // 1.5
    assert_eq!(c.rotation_speed, 240); // 0.004
    assert_eq!(c.zoom_speed, 30_000); // 0.5
    assert_eq!(c.smoothness, 300_000); // 5.0
    assert!(!c.invert_x && !c.invert_y);
}

#[test]
fn mouse_look_turns_yaw_and_clamps_pitch() {
    let mut c = ThirdPersonCamera::default();
    let mouse = vec![Vec2Fp::new(SCALE, 600_000)];
    let wheel: Vec<i64> = vec![];
    third_person_camera(&mut c, &mouse, &wheel, &no_pads(), true, DT);
    // yaw -= 1.0 px * 0.004; pitch += 10 px * 0.004 = 0.04, then the clamp
    // raises the default 0.4 pitch to the band's lower edge 0.5.
    assert_eq!(c.yaw, -240);
    assert_eq!(c.pitch, PITCH_MIN);
}

#[test]
fn pitch_stays_in_band_for_any_look_sequence() {
    let mut c = ThirdPersonCamera::default();
    c.pitch = 60_000;
    let mouse = vec![
        Vec2Fp::new(0, 90_000_000),
        Vec2Fp::new(0, 90_000_000),
        Vec2Fp::new(0, -900_000_000),
        Vec2Fp::new(0, 30_000_000),
    ];
    let wheel: Vec<i64> = vec![];
    third_person_camera(&mut c, &mouse, &wheel, &no_pads(), true, DT);
    assert!(PITCH_MIN <= c.pitch && c.pitch <= PITCH_MAX);
    // The huge downward delta pinned it to the bottom, the last one pulled
    // it back up by exactly 500 px * 0.004 = 2.0 -> clamped to the top.
    assert_eq!(c.pitch, PITCH_MAX);
}

#[test]
fn unfocused_window_ignores_mouse_and_wheel() {
    let mut c = ThirdPersonCamera::default();
    let mouse = vec![Vec2Fp::new(SCALE, SCALE)];
    let wheel: Vec<i64> = vec![SCALE];
    third_person_camera(&mut c, &mouse, &wheel, &no_pads(), false, DT);
    assert_eq!(c.yaw, 0);
    assert_eq!(c.pitch, 24_000);
    assert_eq!(c.distance, 300_000);
}

#[test]
fn wheel_zoom_clamps_to_range() {
    let mut c = ThirdPersonCamera::default();
    let mouse: Vec<Vec2Fp> = vec![];
    // Ten wheel steps out, then twenty back in.
    let wheel: Vec<i64> = vec![-600_000, 600_000, 600_000];
    third_person_camera(&mut c, &mouse, &wheel, &no_pads(), true, DT);
    // 5.0 zooms out to 10.0, back to 5.0, and the last ten steps pin the
    // distance at the low edge of the zoom range.
    assert_eq!(c.distance, 120_000);
}

#[test]
fn gamepad_presence_clamps_distance() {
    let mut c = ThirdPersonCamera::default();
    c.distance = 900_000; // zoomed out far with the mouse
    let mouse: Vec<Vec2Fp> = vec![];
    let wheel: Vec<i64> = vec![];
    let pads = vec![PadLook { x: 0, y: 0 }]; // stick inside the deadzone
    third_person_camera(&mut c, &mouse, &wheel, &pads, true, DT);
    assert_eq!(c.distance, 300_000); // the gamepad zoom range tops out at 5.0
    assert_eq!(c.pitch, 24_000); // the neutral stick moved nothing
}

#[test]
fn gamepad_stick_adjusts_look() {
    let mut c = ThirdPersonCamera::default();
    c.pitch = 60_000;
    c.distance = 240_000;
    let mouse: Vec<Vec2Fp> = vec![];
    let wheel: Vec<i64> = vec![];
    let pads = vec![PadLook { x: SCALE, y: 0 }];
    third_person_camera(&mut c, &mouse, &wheel, &pads, true, DT);
    // yaw -= 1.0 * 0.05 * (dt * 60) = 0.05 at a sixtieth of a second.
    assert_eq!(c.yaw, -3_000);
    assert_eq!(c.pitch, 60_000);
    assert_eq!(c.distance, 240_000);
}

#[test]
fn orbit_target_at_zero_angles_sits_behind_and_above() {
    let c = ThirdPersonCamera::default();
    let player = Vec3Fp::new(0, 0, 0);
    // pitch 0: sin 0, cos 1; yaw 0: sin 0, cos 1.
    let basis0 = AngleBasis::zero();
    let (target, focus) = camera_orbit_target(&c, &player, &basis0, &basis0);
    // offset = (0, height, distance) -> target = player - offset.
    assert_eq!(target, Vec3Fp::new(0, -90_000, -300_000));
    // focus = player + half the height offset.
    assert_eq!(focus, Vec3Fp::new(0, 45_000, 0));
}

#[test]
fn smooth_nudge_moves_a_decaying_fraction() {
    let current = Vec3Fp::new(0, 0, 0);
    let target = Vec3Fp::new(SCALE, 0, 0);
    let r = smooth_nudge(&current, &target, 300_000, DT);
    // rate = 5 * dt / (1 + 5 * dt) at dt = 1/60: 5000/65000 of the way.
    assert_eq!(r, Vec3Fp::new(4_615, 0, 0));
    // Nudging never overshoots.
    let again = smooth_nudge(&r, &target, 300_000, DT);
    assert!(r.x < again.x && again.x < SCALE);
}

#[test]
fn ray_params_give_direction_and_distance() {
    let player = Vec3Fp::new(0, 0, 0);
    let cam = Vec3Fp::new(0, 0, 360_000); // six units behind
    let r = camera_ray_params(&player, &cam);
    let (dir, dist) = r.expect("camera is far enough to cast");
    assert_eq!(dir, Vec3Fp::new(0, 0, -SCALE));
    assert_eq!(dist, 360_000);
}

#[test]
fn ray_params_skip_when_camera_hugs_player() {
    let player = Vec3Fp::new(0, 0, 0);
    let cam = Vec3Fp::new(0, 0, 20_000); // only a third of a unit away
    assert!(camera_ray_params(&player, &cam).is_none());
}

#[test]
fn wall_hit_pulls_camera_in_but_not_below_safe_distance() {
    // A wall directly between the ideal camera position and the player: the
    // adjusted distance is strictly smaller than before and at least the
    // safe minimum.
    let player = Vec3Fp::new(0, 0, 0);
    let dir = Vec3Fp::new(0, 0, -SCALE); // from the camera toward the player
    let ideal = Vec3Fp::new(0, 0, 360_000);
    let (target, collided) = camera_wall_adjust(&player, &dir, 360_000, &ideal, Some(120_000));
    assert!(collided);
    // 6.0 - 2.0 * 0.8 = 4.4 units behind the player.
    assert_eq!(target, Vec3Fp::new(0, 0, 264_000));
    assert!(target.z < 360_000 && target.z >= 90_000);

    // A hit right at the player pins the camera to the safe minimum.
    let (close, _) = camera_wall_adjust(&player, &dir, 360_000, &ideal, Some(360_000));
    assert_eq!(close, Vec3Fp::new(0, 0, 90_000));

    // No hit keeps the ideal position.
    let (kept, collided2) = camera_wall_adjust(&player, &dir, 360_000, &ideal, None);
    assert_eq!(kept, ideal);
    assert!(!collided2);
}

#[test]
fn floor_and_ceiling_clearance() {
    let target = Vec3Fp::new(0, 60_000, 0);
    // The floor is 0.2 below: lift to keep the 0.5 clearance.
    let lifted = camera_floor_adjust(&target, Some(12_000));
    assert_eq!(lifted, Vec3Fp::new(0, 78_000, 0));
    // A distant floor changes nothing.
    assert_eq!(camera_floor_adjust(&target, Some(120_000)), target);
    assert_eq!(camera_floor_adjust(&target, None), target);

    // The ceiling is 0.1 above: duck to keep the 0.3 clearance.
    let lowered = camera_ceiling_adjust(&target, Some(6_000));
    assert_eq!(lowered, Vec3Fp::new(0, 48_000, 0));
    assert_eq!(camera_ceiling_adjust(&target, None), target);
}

#[test]
fn overlap_falls_back_to_safe_position_near_player() {
    let c = ThirdPersonCamera::default();
    let player = Vec3Fp::new(0, 0, 0);
    let cam = Vec3Fp::new(0, 0, 360_000);
    let proposed = Vec3Fp::new(0, 0, 300_000);
    let (pos, collided) = camera_overlap_fallback(&player, &cam, &c, &proposed, true);
    assert!(collided);
    // 40% of the 5.0 orbit distance along the view line, raised by 80% of
    // the 1.5 height offset.
    assert_eq!(pos, Vec3Fp::new(0, 72_000, 120_000));

    let (kept, collided2) = camera_overlap_fallback(&player, &cam, &c, &proposed, false);
    assert_eq!(kept, proposed);
    assert!(!collided2);
}

#[test]
fn collision_doubles_smoothing() {
    let c = ThirdPersonCamera::default();
    assert_eq!(camera_collision_smoothness(&c, false), 300_000);
    assert_eq!(camera_collision_smoothness(&c, true), 600_000);
}
