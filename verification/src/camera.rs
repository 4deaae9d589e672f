//! The third-person camera rig: orbit control from look input, smoothed
//! following, and the collision pass that keeps the camera out of geometry.
//!
//! The windowing and device layer outside the library hands in the tick's
//! mouse deltas, wheel steps and gamepad right-stick values; the spatial
//! query engine performs the ray casts and overlap test between the stages
//! of the collision pass, each cast's origin coming from the previous
//! stage's result.

use vstd::prelude::*;

verus! {

use crate::components::PI_FP;
use crate::fixed::{
    abs_spec,
    clamp_spec,
    fp_clamp,
    fp_div,
    fp_div_spec,
    fp_lerp,
    fp_mul,
    fp_mul_spec,
    lemma_fp_mul_between,
    lemma_fp_mul_bound,
    lemma_fp_mul_le_left,
    FP_MAX,
    SCALE,
};
use crate::physics::lerp3_spec;
use crate::player::CFG_MAX;
use crate::vecs::{normalize_or_spec, sqrt_floor, len_sq_3, AngleBasis, Vec2Fp, Vec3Fp};

/// Lowest pitch the camera may look from (0.5 radians above horizontal).
pub const PITCH_MIN: i64 = 30_000;

/// Highest pitch, short of flipping over the top (1.4 radians).
pub const PITCH_MAX: i64 = 84_000;

/// Closest orbit distance the mouse wheel may zoom to (2.0).
pub const ZOOM_MIN: i64 = 120_000;

/// Farthest orbit distance the mouse wheel may zoom to (15.0).
pub const ZOOM_MAX: i64 = 900_000;

/// Closest orbit distance while a gamepad is connected (1.0).
pub const PAD_ZOOM_MIN: i64 = 60_000;

/// Farthest orbit distance while a gamepad is connected (5.0).
pub const PAD_ZOOM_MAX: i64 = 300_000;

/// Gamepad look sensitivity (0.05 per stick unit per sixtieth of a second).
pub const PAD_SENSITIVITY: i64 = 3_000;

/// Deadzone of the right stick (0.1).
pub const PAD_DEADZONE: i64 = 6_000;

/// Sixty, the factor that scales gamepad look by `dt` against a sixtieth of
/// a second.
pub const SIXTY: i64 = 3_600_000;

/// How much of the wall-hit distance the camera is pulled in by (0.8).
pub const WALL_ADJUSTMENT: i64 = 48_000;

/// The closest the collision pass may pull the camera toward the player
/// (1.5).
pub const CAM_MIN_SAFE_DIST: i64 = 90_000;

/// Below this camera-to-player distance the collision ray is not cast (0.5).
pub const MIN_TRACK_DIST: i64 = 30_000;

/// Minimum clearance kept above the floor (0.5).
pub const FLOOR_MIN_CLEARANCE: i64 = 30_000;

/// Minimum clearance kept below the ceiling (0.3).
pub const CEILING_MIN_CLEARANCE: i64 = 18_000;

/// Fraction of the orbit distance used for the fallback position when the
/// camera would sit inside geometry (0.4).
pub const OVERLAP_DIST_FACTOR: i64 = 24_000;

/// Fraction of the height offset added to the fallback position (0.8).
pub const OVERLAP_HEIGHT_FACTOR: i64 = 48_000;

/// The third-person orbit camera's parameters. Angles are fixed-point
/// radians; `yaw` accumulates freely while `pitch` is clamped to its band.
#[derive(Clone, Copy, Debug, PartialEq, Eq, Structural)]
pub struct ThirdPersonCamera {
    /// Orbit angle above horizontal.
    pub pitch: i64,
    /// Orbit angle around the player; grows without bound.
    pub yaw: i64,
    /// Orbit distance behind the player.
    pub distance: i64,
    /// Camera height above the player.
    pub height_offset: i64,
    /// Mouse sensitivity.
    pub rotation_speed: i64,
    /// Wheel zoom sensitivity.
    pub zoom_speed: i64,
    /// Exponential-decay rate of the position lag (higher follows faster).
    pub smoothness: i64,
    /// Invert horizontal look.
    pub invert_x: bool,
    /// Invert vertical look.
    pub invert_y: bool,
}

/// One gamepad's right-stick values, each within `[-1, 1]`.
#[derive(Clone, Copy, Debug, PartialEq, Eq, Structural)]
pub struct PadLook {
    pub x: i64,
    pub y: i64,
}

impl PadLook {
    pub open spec fn wf(self) -> bool {
        -SCALE <= self.x <= SCALE && -SCALE <= self.y <= SCALE
    }
}

impl ThirdPersonCamera {
    /// Well-formedness: the pitch is a sane angle, the distances and rates
    /// sit in their configuration ranges.
    pub open spec fn wf(self) -> bool {
        &&& -PI_FP <= self.pitch <= PI_FP
        &&& 0 <= self.distance <= CFG_MAX
        &&& 0 <= self.height_offset <= CFG_MAX
        &&& 0 <= self.rotation_speed <= SCALE
        &&& 0 <= self.zoom_speed <= SCALE
        &&& 0 <= self.smoothness <= CFG_MAX
    }

    /// The default rig: a gentle downward angle five units behind the
    /// player.
    pub open spec fn initial() -> ThirdPersonCamera {
        ThirdPersonCamera {
            pitch: 24_000,  // 0.4 radians
            yaw: 0,
            distance: 300_000,  // 5.0 behind the player
            height_offset: 90_000,  // 1.5 above the player
            rotation_speed: 240,  // 0.004 per pixel
            zoom_speed: 30_000,  // 0.5 per wheel step
            smoothness: 300_000,  // decay rate 5.0
            invert_x: false,
            invert_y: false,
        }
    }
}

impl Default for ThirdPersonCamera {
    fn default() -> (r: ThirdPersonCamera)
        ensures
            r == ThirdPersonCamera::initial(),
            r.wf(),
    {
        ThirdPersonCamera {
            pitch: 24_000,
            yaw: 0,
            distance: 300_000,
            height_offset: 90_000,
            rotation_speed: 240,
            zoom_speed: 30_000,
            smoothness: 300_000,
            invert_x: false,
            invert_y: false,
        }
    }
}

/// The look-controlled slice of the camera: yaw, pitch and orbit distance.
pub ghost struct LookState {
    pub yaw: int,
    pub pitch: int,
    pub distance: int,
}

impl ThirdPersonCamera {
    pub open spec fn look(self) -> LookState {
        LookState { yaw: self.yaw as int, pitch: self.pitch as int, distance: self.distance as int }
    }
}

/// One mouse event applied to the look state: yaw turns against the
/// horizontal delta, pitch follows the vertical one and is clamped into its
/// band.
pub open spec fn mouse_step(cam: ThirdPersonCamera, st: LookState, e: Vec2Fp) -> LookState {
    let dx = if cam.invert_x {
        -e.x as int
    } else {
        e.x as int
    };
    let dy = if cam.invert_y {
        -e.y as int
    } else {
        e.y as int
    };
    LookState {
        yaw: st.yaw - fp_mul_spec(dx, cam.rotation_speed as int),
        pitch: clamp_spec(
            st.pitch + fp_mul_spec(dy, cam.rotation_speed as int),
            PITCH_MIN as int,
            PITCH_MAX as int,
        ),
        distance: st.distance,
    }
}

/// All mouse events folded over the look state, in order.
pub open spec fn mouse_fold(cam: ThirdPersonCamera, st: LookState, evs: Seq<Vec2Fp>) -> LookState
    decreases evs.len(),
{
    if evs.len() == 0 {
        st
    } else {
        mouse_step(cam, mouse_fold(cam, st, evs.drop_last()), evs.last())
    }
}

/// One wheel event: the orbit distance zooms against the step, clamped to
/// its range.
pub open spec fn wheel_step(cam: ThirdPersonCamera, st: LookState, e: int) -> LookState {
    LookState {
        distance: clamp_spec(
            st.distance - fp_mul_spec(e, cam.zoom_speed as int),
            ZOOM_MIN as int,
            ZOOM_MAX as int,
        ),
        ..st
    }
}

/// All wheel events folded over the look state, in order.
pub open spec fn wheel_fold(cam: ThirdPersonCamera, st: LookState, evs: Seq<i64>) -> LookState
    decreases evs.len(),
{
    if evs.len() == 0 {
        st
    } else {
        wheel_step(cam, wheel_fold(cam, st, evs.drop_last()), evs.last() as int)
    }
}

/// One gamepad applied to the look state: outside the deadzone the right
/// stick turns yaw and pitch (vertical inverted once by convention, then by
/// the user's flag), scaled by sensitivity and the tick length; pitch is
/// clamped. The orbit distance is clamped to the gamepad zoom range either
/// way.
pub open spec fn pad_step(cam: ThirdPersonCamera, st: LookState, p: PadLook, dt: int) -> LookState {
    let outside = abs_spec(p.x as int) > PAD_DEADZONE || abs_spec(p.y as int) > PAD_DEADZONE;
    let st1 = if outside {
        let inv_y = -p.y as int;
        let dx = if cam.invert_x {
            -p.x as int
        } else {
            p.x as int
        };
        let dy = if cam.invert_y {
            -inv_y
        } else {
            inv_y
        };
        let scale = fp_mul_spec(dt, SIXTY as int);
        LookState {
            yaw: st.yaw - fp_mul_spec(fp_mul_spec(dx, PAD_SENSITIVITY as int), scale),
            pitch: clamp_spec(
                st.pitch + fp_mul_spec(fp_mul_spec(dy, PAD_SENSITIVITY as int), scale),
                PITCH_MIN as int,
                PITCH_MAX as int,
            ),
            distance: st.distance,
        }
    } else {
        st
    };
    LookState {
        distance: clamp_spec(st1.distance, PAD_ZOOM_MIN as int, PAD_ZOOM_MAX as int),
        ..st1
    }
}

/// All gamepads folded over the look state, in order.
pub open spec fn pad_fold(
    cam: ThirdPersonCamera,
    st: LookState,
    pads: Seq<PadLook>,
    dt: int,
) -> LookState
    decreases pads.len(),
{
    if pads.len() == 0 {
        st
    } else {
        pad_step(cam, pad_fold(cam, st, pads.drop_last(), dt), pads.last(), dt)
    }
}

/// The whole look update: mouse and wheel only while the window is focused,
/// then every gamepad.
pub open spec fn look_spec(
    cam: ThirdPersonCamera,
    mouse: Seq<Vec2Fp>,
    wheel: Seq<i64>,
    pads: Seq<PadLook>,
    focused: bool,
    dt: int,
) -> LookState {
    let st0 = cam.look();
    let st1 = if focused {
        wheel_fold(cam, mouse_fold(cam, st0, mouse), wheel)
    } else {
        st0
    };
    pad_fold(cam, st1, pads, dt)
}

/// The total magnitude of a tick's mouse deltas.
pub open spec fn mouse_abs_sum(evs: Seq<Vec2Fp>) -> int
    decreases evs.len(),
{
    if evs.len() == 0 {
        0
    } else {
        mouse_abs_sum(evs.drop_last()) + abs_spec(evs.last().x as int) + abs_spec(
            evs.last().y as int,
        )
    }
}

/// Every mouse delta and wheel step is a representable scalar.
pub open spec fn look_events_wf(mouse: Seq<Vec2Fp>, wheel: Seq<i64>) -> bool {
    &&& forall|i: int| 0 <= i < mouse.len() ==> (#[trigger] mouse[i]).in_range(FP_MAX as int)
    &&& forall|i: int| 0 <= i < wheel.len() ==> abs_spec(#[trigger] wheel[i] as int) <= FP_MAX
}

/// All pads are well-formed.
pub open spec fn pads_wf(pads: Seq<PadLook>) -> bool {
    forall|i: int| 0 <= i < pads.len() ==> (#[trigger] pads[i]).wf()
}

/// Updates the camera's yaw, pitch and orbit distance from this tick's look
/// input, per [`look_spec`]: mouse and wheel when the window is focused,
/// then the gamepads' right sticks. The caller keeps `yaw` away from the
/// representable edge (it grows by at most the mouse magnitude plus a small
/// gamepad term per tick).
#[verifier::rlimit(60)]
pub fn third_person_camera(
    cam: &mut ThirdPersonCamera,
    mouse: &Vec<Vec2Fp>,
    wheel: &Vec<i64>,
    pads: &Vec<PadLook>,
    window_focused: bool,
    dt: i64,
)
    requires
        old(cam).wf(),
        look_events_wf(mouse@, wheel@),
        pads_wf(pads@),
        0 < dt <= SCALE,
        abs_spec(old(cam).yaw as int) + mouse_abs_sum(mouse@) + (pads@.len() as int) * 180_000
            <= FP_MAX,
        pads@.len() <= 16,
    ensures
        final(cam).wf(),
        final(cam).look() == look_spec(*old(cam), mouse@, wheel@, pads@, window_focused, dt as int),
        *final(cam) == (ThirdPersonCamera {
            pitch: final(cam).pitch,
            yaw: final(cam).yaw,
            distance: final(cam).distance,
            ..*old(cam)
        }),
{
    let ghost cfg: ThirdPersonCamera = *cam;
    let ghost st0: LookState = cfg.look();

    if window_focused {
        let mut i: usize = 0;
        proof {
            lemma_mouse_abs_sum_mono(mouse@, 0);
        }
        while i < mouse.len()
            invariant
                i <= mouse@.len(),
                cfg.wf(),
                look_events_wf(mouse@, wheel@),
                abs_spec(cfg.yaw as int) + mouse_abs_sum(mouse@) <= FP_MAX,
                cam.look() == mouse_fold(cfg, st0, mouse@.take(i as int)),
                *cam == (ThirdPersonCamera {
                    pitch: cam.pitch,
                    yaw: cam.yaw,
                    distance: cam.distance,
                    ..cfg
                }),
                abs_spec(cam.yaw as int) <= abs_spec(cfg.yaw as int) + mouse_abs_sum(
                    mouse@.take(i as int),
                ),
                mouse_abs_sum(mouse@.take(i as int)) <= mouse_abs_sum(mouse@),
                abs_spec(cam.pitch as int) <= PI_FP,
                cam.distance == cfg.distance,
            decreases mouse@.len() - i,
        {
            proof {
                assert(mouse@.take(i + 1 as int).drop_last() =~= mouse@.take(i as int));
                assert(mouse@.take(i + 1 as int).last() == mouse@[i as int]);
                lemma_mouse_abs_sum_mono(mouse@, i + 1 as int);
            }
            let e = *(&mouse[i]);
            proof {
                assert(mouse@[i as int].in_range(FP_MAX as int));
            }
            let dx = if cam.invert_x {
                -e.x
            } else {
                e.x
            };
            let dy = if cam.invert_y {
                -e.y
            } else {
                e.y
            };
            proof {
                lemma_fp_mul_le_left(dx as int, cfg.rotation_speed as int);
                lemma_fp_mul_le_left(dy as int, cfg.rotation_speed as int);
            }
            cam.yaw = cam.yaw - fp_mul(dx, cam.rotation_speed);
            cam.pitch = fp_clamp(cam.pitch + fp_mul(dy, cam.rotation_speed), PITCH_MIN, PITCH_MAX);
            i = i + 1;
        }
        proof {
            assert(mouse@.take(mouse@.len() as int) =~= mouse@);
        }

        let mut j: usize = 0;
        while j < wheel.len()
            invariant
                j <= wheel@.len(),
                cfg.wf(),
                look_events_wf(mouse@, wheel@),
                abs_spec(cfg.yaw as int) + mouse_abs_sum(mouse@) <= FP_MAX,
                cam.look() == wheel_fold(cfg, mouse_fold(cfg, st0, mouse@), wheel@.take(j as int)),
                *cam == (ThirdPersonCamera {
                    pitch: cam.pitch,
                    yaw: cam.yaw,
                    distance: cam.distance,
                    ..cfg
                }),
                abs_spec(cam.yaw as int) <= abs_spec(cfg.yaw as int) + mouse_abs_sum(mouse@),
                abs_spec(cam.pitch as int) <= PI_FP,
                j > 0 ==> ZOOM_MIN <= cam.distance <= ZOOM_MAX,
                j == 0 ==> cam.distance == cfg.distance,
            decreases wheel@.len() - j,
        {
            proof {
                assert(wheel@.take(j + 1 as int).drop_last() =~= wheel@.take(j as int));
                assert(wheel@.take(j + 1 as int).last() == wheel@[j as int]);
            }
            let e = *(&wheel[j]);
            proof {
                lemma_fp_mul_le_left(e as int, cfg.zoom_speed as int);
            }
            cam.distance = fp_clamp(cam.distance - fp_mul(e, cam.zoom_speed), ZOOM_MIN, ZOOM_MAX);
            j = j + 1;
        }
        proof {
            assert(wheel@.take(wheel@.len() as int) =~= wheel@);
        }
    }
    let ghost st1: LookState = if window_focused {
        wheel_fold(cfg, mouse_fold(cfg, st0, mouse@), wheel@)
    } else {
        st0
    };
    proof {
        assert(cam.look() == st1);
        lemma_mouse_abs_sum_nonneg(mouse@);
        assert(abs_spec(st1.yaw) <= abs_spec(cfg.yaw as int) + mouse_abs_sum(mouse@));
    }

    let mut k: usize = 0;
    while k < pads.len()
        invariant
            k <= pads@.len(),
            pads@.len() <= 16,
            cfg.wf(),
            pads_wf(pads@),
            0 < dt <= SCALE,
            abs_spec(st1.yaw) + (pads@.len() as int) * 180_000 <= FP_MAX,
            cam.look() == pad_fold(cfg, st1, pads@.take(k as int), dt as int),
            *cam == (ThirdPersonCamera {
                pitch: cam.pitch,
                yaw: cam.yaw,
                distance: cam.distance,
                ..cfg
            }),
            abs_spec(cam.yaw as int) <= abs_spec(st1.yaw) + (k as int) * 180_000,
            abs_spec(cam.pitch as int) <= PI_FP,
            abs_spec(cam.distance as int) <= CFG_MAX,
        decreases pads@.len() - k,
    {
        proof {
            assert(pads@.take(k + 1 as int).drop_last() =~= pads@.take(k as int));
            assert(pads@.take(k + 1 as int).last() == pads@[k as int]);
            assert(pads@[k as int].wf());
        }
        let p = *(&pads[k]);
        let ax = if p.x < 0 {
            -p.x
        } else {
            p.x
        };
        let ay = if p.y < 0 {
            -p.y
        } else {
            p.y
        };
        if ax > PAD_DEADZONE || ay > PAD_DEADZONE {
            let inv_y = -p.y;
            let dx = if cam.invert_x {
                -p.x
            } else {
                p.x
            };
            let dy = if cam.invert_y {
                -inv_y
            } else {
                inv_y
            };
            let scale = fp_mul(dt, SIXTY);
            proof {
                lemma_fp_mul_bound(dt as int, SIXTY as int, SCALE as int, SIXTY as int);
                lemma_fp_mul_bound(dx as int, PAD_SENSITIVITY as int, SCALE as int, PAD_SENSITIVITY as int);
                lemma_fp_mul_bound(dy as int, PAD_SENSITIVITY as int, SCALE as int, PAD_SENSITIVITY as int);
                lemma_fp_mul_bound(
                    fp_mul_spec(dx as int, PAD_SENSITIVITY as int),
                    fp_mul_spec(dt as int, SIXTY as int),
                    PAD_SENSITIVITY as int,
                    SIXTY as int,
                );
                lemma_fp_mul_bound(
                    fp_mul_spec(dy as int, PAD_SENSITIVITY as int),
                    fp_mul_spec(dt as int, SIXTY as int),
                    PAD_SENSITIVITY as int,
                    SIXTY as int,
                );
            }
            cam.yaw = cam.yaw - fp_mul(fp_mul(dx, PAD_SENSITIVITY), scale);
            cam.pitch = fp_clamp(
                cam.pitch + fp_mul(fp_mul(dy, PAD_SENSITIVITY), scale),
                PITCH_MIN,
                PITCH_MAX,
            );
        }
        cam.distance = fp_clamp(cam.distance, PAD_ZOOM_MIN, PAD_ZOOM_MAX);
        k = k + 1;
    }
    proof {
        assert(pads@.take(pads@.len() as int) =~= pads@);
    }
}

/// Largest world position (about 6 666 units from the origin) the camera
/// math accepts.
pub const CAM_POS_RANGE: i64 = 400_000_000;

/// Largest camera-to-player distance (30 000 units) the collision pass
/// accepts; real rigs stay far below it.
pub const CAM_DIST_LIMIT: i64 = 1_800_000_000;

/// Bound on the positions the collision stages produce.
pub const CAM_TARGET_RANGE: i64 = 2_300_000_000;

/// The orbital offset from the player to the ideal camera position: the
/// local vector (0, height, distance) pitched about the lateral axis, then
/// turned by the yaw.
pub open spec fn orbit_offset_spec(
    cam: ThirdPersonCamera,
    pitch: AngleBasis,
    yaw: AngleBasis,
) -> Vec3Fp {
    let zl = fp_mul_spec(cam.height_offset as int, pitch.sin as int) + fp_mul_spec(
        cam.distance as int,
        pitch.cos as int,
    );
    let yl = fp_mul_spec(cam.height_offset as int, pitch.cos as int) - fp_mul_spec(
        cam.distance as int,
        pitch.sin as int,
    );
    Vec3Fp {
        x: fp_mul_spec(zl, yaw.sin as int) as i64,
        y: yl as i64,
        z: fp_mul_spec(zl, yaw.cos as int) as i64,
    }
}

/// Where the camera looks: the player position, raised by half the height
/// offset.
pub open spec fn focus_spec(cam: ThirdPersonCamera, player_pos: Vec3Fp) -> Vec3Fp {
    Vec3Fp {
        x: player_pos.x,
        y: (player_pos.y + fp_mul_spec(cam.height_offset as int, 30_000)) as i64,
        z: player_pos.z,
    }
}

/// Computes the ideal orbital camera position (the player position minus the
/// orbital offset) and the focus point the camera should look at.
/// `pitch`/`yaw` are the camera angles' sine/cosine pairs.
pub fn camera_orbit_target(
    cam: &ThirdPersonCamera,
    player_pos: &Vec3Fp,
    pitch: &AngleBasis,
    yaw: &AngleBasis,
) -> (r: (Vec3Fp, Vec3Fp))
    requires
        cam.wf(),
        pitch.wf(),
        yaw.wf(),
        player_pos.in_range(CAM_POS_RANGE as int),
    ensures
        r.0.x == player_pos.x - orbit_offset_spec(*cam, *pitch, *yaw).x,
        r.0.y == player_pos.y - orbit_offset_spec(*cam, *pitch, *yaw).y,
        r.0.z == player_pos.z - orbit_offset_spec(*cam, *pitch, *yaw).z,
        r.1 == focus_spec(*cam, *player_pos),
        r.0.in_range(1_000_000_000),
        r.1.in_range(1_000_000_000),
{
    proof {
        lemma_fp_mul_le_left(cam.height_offset as int, pitch.sin as int);
        lemma_fp_mul_le_left(cam.height_offset as int, pitch.cos as int);
        lemma_fp_mul_le_left(cam.distance as int, pitch.sin as int);
        lemma_fp_mul_le_left(cam.distance as int, pitch.cos as int);
    }
    let zl = fp_mul(cam.height_offset, pitch.sin) + fp_mul(cam.distance, pitch.cos);
    let yl = fp_mul(cam.height_offset, pitch.cos) - fp_mul(cam.distance, pitch.sin);
    proof {
        lemma_fp_mul_le_left(zl as int, yaw.sin as int);
        lemma_fp_mul_le_left(zl as int, yaw.cos as int);
        lemma_fp_mul_between(cam.height_offset as int, 30_000);
    }
    let ox = fp_mul(zl, yaw.sin);
    let oz = fp_mul(zl, yaw.cos);
    let target = Vec3Fp::new(player_pos.x - ox, player_pos.y - yl, player_pos.z - oz);
    let focus = Vec3Fp::new(
        player_pos.x,
        player_pos.y + fp_mul(cam.height_offset, 30_000),
        player_pos.z,
    );
    (target, focus)
}

/// The fraction of the remaining gap the camera covers this tick: an
/// exponential-decay step of rate `decay`, computed as
/// `decay * dt / (1 + decay * dt)`; always within `[0, 1)`.
pub open spec fn smooth_blend_spec(decay: int, dt: int) -> int {
    let a = fp_mul_spec(decay, dt);
    fp_div_spec(a, (SCALE as int) + a)
}

/// Moves `current` a decaying fraction of the way toward `target`: the
/// camera lags smoothly instead of snapping.
pub fn smooth_nudge(current: &Vec3Fp, target: &Vec3Fp, decay: i64, dt: i64) -> (r: Vec3Fp)
    requires
        current.in_range(700_000_000),
        target.in_range(CAM_TARGET_RANGE as int),
        0 <= decay <= 2 * CFG_MAX,
        0 < dt <= SCALE,
    ensures
        r == lerp3_spec(*current, *target, smooth_blend_spec(decay as int, dt as int)),
        r.in_range(CAM_TARGET_RANGE as int),
{
    proof {
        lemma_fp_mul_between(decay as int, dt as int);
    }
    let a = fp_mul(decay, dt);
    let denom = SCALE + a;
    proof {
        lemma_blend_in_unit(a as int, denom as int);
    }
    let rate = fp_div(a, denom);
    let x = fp_lerp(current.x, target.x, rate);
    let y = fp_lerp(current.y, target.y, rate);
    let z = fp_lerp(current.z, target.z, rate);
    Vec3Fp::new(x, y, z)
}

/// A nonnegative numerator over a strictly larger positive denominator gives
/// a fraction within `[0, 1)`.
proof fn lemma_blend_in_unit(a: int, denom: int)
    requires
        0 <= a <= FP_MAX,
        denom == (SCALE as int) + a,
    ensures
        0 <= fp_div_spec(a, denom) < SCALE,
        abs_spec(fp_div_spec(a, denom)) <= FP_MAX,
{
    vstd::arithmetic::mul::lemma_mul_nonnegative(a, SCALE as int);
    vstd::arithmetic::div_mod::lemma_div_pos_is_pos(a * (SCALE as int), denom);
    assert(a * (SCALE as int) < denom * (SCALE as int)) by (nonlinear_arith)
        requires
            0 <= a,
            denom == (SCALE as int) + a,
    ;
    assert(a * (SCALE as int) <= denom * (SCALE as int) - denom) by (nonlinear_arith)
        requires
            0 <= a <= FP_MAX,
            denom == (SCALE as int) + a,
    ;
    vstd::arithmetic::div_mod::lemma_div_is_ordered(
        a * (SCALE as int),
        denom * (SCALE as int) - denom,
        denom,
    );
    assert((denom * (SCALE as int) - denom) / denom == (SCALE as int) - 1) by {
        vstd::arithmetic::div_mod::lemma_div_multiples_vanish((SCALE as int) - 1, denom);
        assert(denom * ((SCALE as int) - 1) == denom * (SCALE as int) - denom)
            by (nonlinear_arith);
    }
}

/// The camera-to-player difference vector.
pub open spec fn cam_diff_spec(player_pos: Vec3Fp, cam_pos: Vec3Fp) -> Vec3Fp {
    Vec3Fp {
        x: (player_pos.x - cam_pos.x) as i64,
        y: (player_pos.y - cam_pos.y) as i64,
        z: (player_pos.z - cam_pos.z) as i64,
    }
}

/// Prepares the wall cast: the unit direction from the camera toward the
/// player and the distance between them, or nothing when the camera is
/// already closer than [`MIN_TRACK_DIST`] (no cast is made then).
pub fn camera_ray_params(player_pos: &Vec3Fp, cam_pos: &Vec3Fp) -> (r: Option<(Vec3Fp, i64)>)
    requires
        player_pos.in_range(CAM_POS_RANGE as int),
        cam_pos.in_range(600_000_000),
    ensures
        ({
            let diff = cam_diff_spec(*player_pos, *cam_pos);
            let dist = sqrt_floor(len_sq_3(diff));
            &&& (r is Some <==> dist > MIN_TRACK_DIST)
            &&& r matches Some(p) ==> p.0 == normalize_or_spec(diff, crate::physics::forward_world())
                && p.1 == dist && p.0.in_range(SCALE as int) && MIN_TRACK_DIST < p.1 <= CAM_DIST_LIMIT
        }),
{
    let diff = player_pos.sub(cam_pos);
    proof {
        assert(diff == cam_diff_spec(*player_pos, *cam_pos));
        lemma_square_bound_3(diff);
    }
    let dist = diff.length();
    proof {
        crate::vecs::lemma_sqrt_floor_bounds(len_sq_3(diff));
        if dist as int > CAM_DIST_LIMIT as int {
            assert(false) by (nonlinear_arith)
                requires
                    (dist as int) * (dist as int) <= len_sq_3(diff),
                    len_sq_3(diff) <= 3_000_000_000_000_000_000,
                    dist as int > 1_800_000_000,
            ;
        }
    }
    if dist > MIN_TRACK_DIST {
        let fallback = Vec3Fp::new(0, 0, -SCALE);
        let dir = crate::vecs::normalize_or(&diff, &fallback);
        Some((dir, dist))
    } else {
        None
    }
}

/// The squared length of a camera difference vector is bounded by its
/// components' bound.
proof fn lemma_square_bound_3(v: Vec3Fp)
    requires
        v.in_range(1_000_000_000),
    ensures
        0 <= len_sq_3(v) <= 3_000_000_000_000_000_000,
{
    crate::vecs::lemma_square_bound(v.x as int, 1_000_000_000);
    crate::vecs::lemma_square_bound(v.y as int, 1_000_000_000);
    crate::vecs::lemma_square_bound(v.z as int, 1_000_000_000);
}

/// The camera's distance to the player after a wall blocked the view: pulled
/// in by [`WALL_ADJUSTMENT`] of the hit distance, but never closer than
/// [`CAM_MIN_SAFE_DIST`].
pub open spec fn wall_pulled_distance(dist: int, wall: int) -> int {
    let nd = dist - fp_mul_spec(wall, WALL_ADJUSTMENT as int);
    if nd < CAM_MIN_SAFE_DIST as int {
        CAM_MIN_SAFE_DIST as int
    } else {
        nd
    }
}

/// Applies the wall cast's result: a hit pulls the camera in toward the
/// player along the cast direction, to [`wall_pulled_distance`]; no hit
/// keeps the ideal orbital position.
pub fn camera_wall_adjust(
    player_pos: &Vec3Fp,
    direction: &Vec3Fp,
    dist_to_player: i64,
    ideal: &Vec3Fp,
    wall_hit: Option<i64>,
) -> (r: (Vec3Fp, bool))
    requires
        player_pos.in_range(CAM_POS_RANGE as int),
        direction.in_range(SCALE as int),
        0 <= dist_to_player <= CAM_DIST_LIMIT,
        ideal.in_range(1_000_000_000),
        wall_hit matches Some(w) ==> 0 <= w <= dist_to_player,
    ensures
        wall_hit is None ==> r.0 == *ideal && !r.1,
        wall_hit matches Some(w) ==> {
            let pulled = wall_pulled_distance(dist_to_player as int, w as int);
            &&& r.1
            &&& r.0.x == player_pos.x - fp_mul_spec(direction.x as int, pulled)
            &&& r.0.y == player_pos.y - fp_mul_spec(direction.y as int, pulled)
            &&& r.0.z == player_pos.z - fp_mul_spec(direction.z as int, pulled)
        },
        r.0.in_range(2_200_000_000),
{
    match wall_hit {
        Some(w) => {
            proof {
                lemma_fp_mul_between(w as int, WALL_ADJUSTMENT as int);
            }
            let nd = dist_to_player - fp_mul(w, WALL_ADJUSTMENT);
            let pulled = if nd < CAM_MIN_SAFE_DIST {
                CAM_MIN_SAFE_DIST
            } else {
                nd
            };
            proof {
                lemma_fp_mul_le_left(pulled as int, direction.x as int);
                lemma_fp_mul_le_left(pulled as int, direction.y as int);
                lemma_fp_mul_le_left(pulled as int, direction.z as int);
                lemma_fp_mul_comm(direction.x as int, pulled as int);
                lemma_fp_mul_comm(direction.y as int, pulled as int);
                lemma_fp_mul_comm(direction.z as int, pulled as int);
            }
            let target = Vec3Fp::new(
                player_pos.x - fp_mul(direction.x, pulled),
                player_pos.y - fp_mul(direction.y, pulled),
                player_pos.z - fp_mul(direction.z, pulled),
            );
            (target, true)
        },
        None => (*ideal, false),
    }
}

/// The fixed-point product does not depend on the order of its factors.
pub proof fn lemma_fp_mul_comm(a: int, b: int)
    ensures
        fp_mul_spec(a, b) == fp_mul_spec(b, a),
{
    assert(a * b == b * a) by (nonlinear_arith);
}

/// Applies the downward cast from the proposed position: a floor closer than
/// [`FLOOR_MIN_CLEARANCE`] pushes the camera up to keep that clearance.
pub fn camera_floor_adjust(target: &Vec3Fp, floor_hit: Option<i64>) -> (r: Vec3Fp)
    requires
        target.in_range(2_200_000_000),
        floor_hit matches Some(h) ==> 0 <= h <= 300_000,
    ensures
        ({
            let lifted = floor_hit matches Some(h) && h < FLOOR_MIN_CLEARANCE;
            &&& lifted ==> r == (Vec3Fp {
                y: (target.y - floor_hit.unwrap() + FLOOR_MIN_CLEARANCE) as i64,
                ..*target
            })
            &&& !lifted ==> r == *target
        }),
        r.in_range(2_250_000_000),
{
    match floor_hit {
        Some(h) => {
            if h < FLOOR_MIN_CLEARANCE {
                Vec3Fp::new(target.x, target.y - h + FLOOR_MIN_CLEARANCE, target.z)
            } else {
                *target
            }
        },
        None => *target,
    }
}

/// Applies the upward cast from the proposed position: a ceiling closer than
/// [`CEILING_MIN_CLEARANCE`] pushes the camera down to keep that clearance.
pub fn camera_ceiling_adjust(target: &Vec3Fp, ceiling_hit: Option<i64>) -> (r: Vec3Fp)
    requires
        target.in_range(2_250_000_000),
        ceiling_hit matches Some(h) ==> 0 <= h <= 300_000,
    ensures
        ({
            let lowered = ceiling_hit matches Some(h) && h < CEILING_MIN_CLEARANCE;
            &&& lowered ==> r == (Vec3Fp {
                y: (target.y - (CEILING_MIN_CLEARANCE - ceiling_hit.unwrap())) as i64,
                ..*target
            })
            &&& !lowered ==> r == *target
        }),
        r.in_range(CAM_TARGET_RANGE as int),
{
    match ceiling_hit {
        Some(h) => {
            if h < CEILING_MIN_CLEARANCE {
                Vec3Fp::new(target.x, target.y - (CEILING_MIN_CLEARANCE - h), target.z)
            } else {
                *target
            }
        },
        None => *target,
    }
}

/// Applies the overlap test at the proposed position: if the camera would
/// sit inside geometry, it falls back to a safe spot close to the player
/// (a fraction of the orbit distance along the camera-to-player direction,
/// raised by most of the height offset).
pub fn camera_overlap_fallback(
    player_pos: &Vec3Fp,
    cam_pos: &Vec3Fp,
    cam: &ThirdPersonCamera,
    target: &Vec3Fp,
    overlapping: bool,
) -> (r: (Vec3Fp, bool))
    requires
        player_pos.in_range(CAM_POS_RANGE as int),
        cam_pos.in_range(600_000_000),
        cam.wf(),
        target.in_range(CAM_TARGET_RANGE as int),
    ensures
        !overlapping ==> r.0 == *target && !r.1,
        overlapping ==> {
            let dir = normalize_or_spec(
                cam_diff_spec(*player_pos, *cam_pos),
                crate::physics::forward_world(),
            );
            let safe_dist = fp_mul_spec(cam.distance as int, OVERLAP_DIST_FACTOR as int);
            &&& r.1
            &&& r.0.x == player_pos.x - fp_mul_spec(dir.x as int, safe_dist)
            &&& r.0.y == player_pos.y - fp_mul_spec(dir.y as int, safe_dist) + fp_mul_spec(
                cam.height_offset as int,
                OVERLAP_HEIGHT_FACTOR as int,
            )
            &&& r.0.z == player_pos.z - fp_mul_spec(dir.z as int, safe_dist)
        },
        r.0.in_range(CAM_TARGET_RANGE as int),
{
    if overlapping {
        let diff = player_pos.sub(cam_pos);
        let fallback = Vec3Fp::new(0, 0, -SCALE);
        let dir = crate::vecs::normalize_or(&diff, &fallback);
        proof {
            assert(diff == cam_diff_spec(*player_pos, *cam_pos));
            lemma_fp_mul_between(cam.distance as int, OVERLAP_DIST_FACTOR as int);
        }
        let safe_dist = fp_mul(cam.distance, OVERLAP_DIST_FACTOR);
        proof {
            lemma_fp_mul_le_left(safe_dist as int, dir.x as int);
            lemma_fp_mul_le_left(safe_dist as int, dir.y as int);
            lemma_fp_mul_le_left(safe_dist as int, dir.z as int);
            lemma_fp_mul_comm(dir.x as int, safe_dist as int);
            lemma_fp_mul_comm(dir.y as int, safe_dist as int);
            lemma_fp_mul_comm(dir.z as int, safe_dist as int);
            lemma_fp_mul_between(cam.height_offset as int, OVERLAP_HEIGHT_FACTOR as int);
        }
        let lift = fp_mul(cam.height_offset, OVERLAP_HEIGHT_FACTOR);
        let pos = Vec3Fp::new(
            player_pos.x - fp_mul(dir.x, safe_dist),
            player_pos.y - fp_mul(dir.y, safe_dist) + lift,
            player_pos.z - fp_mul(dir.z, safe_dist),
        );
        (pos, true)
    } else {
        (*target, false)
    }
}

/// The smoothing rate the camera uses this tick: doubled while a collision
/// adjustment is active, so the camera leaves the obstruction quickly.
pub fn camera_collision_smoothness(cam: &ThirdPersonCamera, collided: bool) -> (r: i64)
    requires
        cam.wf(),
    ensures
        collided ==> r == 2 * cam.smoothness,
        !collided ==> r == cam.smoothness,
        0 <= r <= 2 * CFG_MAX,
{
    if collided {
        2 * cam.smoothness
    } else {
        cam.smoothness
    }
}

/// Camera collision: a wall hit strictly between the player and the camera
/// pulls the camera strictly closer than it was, but never inside the
/// configured minimum safe distance.
pub proof fn lemma_camera_collision(dist: int, wall: int)
    requires
        CAM_MIN_SAFE_DIST < dist,
        2 <= wall,
    ensures
        CAM_MIN_SAFE_DIST <= wall_pulled_distance(dist, wall) < dist,
{
    assert(fp_mul_spec(wall, WALL_ADJUSTMENT as int) >= 1) by {
        vstd::arithmetic::mul::lemma_mul_inequality(2, wall, WALL_ADJUSTMENT as int);
        vstd::arithmetic::div_mod::lemma_div_is_ordered(
            96_000,
            wall * (WALL_ADJUSTMENT as int),
            SCALE as int,
        );
    }
}

/// A tick's mouse magnitude is nonnegative./// A tick's mouse magnitude is nonnegative.
proof fn lemma_mouse_abs_sum_nonneg(evs: Seq<Vec2Fp>)
    ensures
        mouse_abs_sum(evs) >= 0,
    decreases evs.len(),
{
    if evs.len() > 0 {
        lemma_mouse_abs_sum_nonneg(evs.drop_last());
    }
}

/// A prefix's mouse magnitude is at most the whole tick's.
proof fn lemma_mouse_abs_sum_mono(evs: Seq<Vec2Fp>, i: int)
    requires
        0 <= i <= evs.len(),
    ensures
        mouse_abs_sum(evs.take(i)) <= mouse_abs_sum(evs),
    decreases evs.len() - i,
{
    if i < evs.len() {
        lemma_mouse_abs_sum_mono(evs, i + 1);
        assert(evs.take(i + 1).drop_last() =~= evs.take(i));
        assert(mouse_abs_sum(evs.take(i)) <= mouse_abs_sum(evs.take(i + 1)));
    } else {
        assert(evs.take(i) =~= evs);
    }
}

/// Camera pitch clamp: for any sequence of look inputs, a pitch that starts
/// within its band is still within the band after the whole look update; and
/// a focused tick with at least one mouse event puts the pitch into the band
/// wherever it started.
pub proof fn lemma_camera_pitch_clamp(
    cam: ThirdPersonCamera,
    mouse: Seq<Vec2Fp>,
    wheel: Seq<i64>,
    pads: Seq<PadLook>,
    focused: bool,
    dt: int,
)
    ensures
        PITCH_MIN <= cam.pitch <= PITCH_MAX ==> PITCH_MIN <= look_spec(
            cam,
            mouse,
            wheel,
            pads,
            focused,
            dt,
        ).pitch <= PITCH_MAX,
        focused && mouse.len() > 0 ==> PITCH_MIN <= look_spec(
            cam,
            mouse,
            wheel,
            pads,
            focused,
            dt,
        ).pitch <= PITCH_MAX,
{
    lemma_mouse_fold_pitch(cam, cam.look(), mouse);
    let st1 = if focused {
        wheel_fold(cam, mouse_fold(cam, cam.look(), mouse), wheel)
    } else {
        cam.look()
    };
    lemma_wheel_fold_pitch(cam, mouse_fold(cam, cam.look(), mouse), wheel);
    if PITCH_MIN <= st1.pitch <= PITCH_MAX {
        lemma_pad_fold_pitch(cam, st1, pads, dt);
    } else {
        lemma_pad_fold_pitch_keeps(cam, st1, pads, dt);
    }
}

/// Mouse events keep the pitch band, and any event at all establishes it.
proof fn lemma_mouse_fold_pitch(cam: ThirdPersonCamera, st: LookState, evs: Seq<Vec2Fp>)
    ensures
        PITCH_MIN <= st.pitch <= PITCH_MAX ==> PITCH_MIN <= mouse_fold(cam, st, evs).pitch
            <= PITCH_MAX,
        evs.len() > 0 ==> PITCH_MIN <= mouse_fold(cam, st, evs).pitch <= PITCH_MAX,
    decreases evs.len(),
{
    if evs.len() > 0 {
        lemma_mouse_fold_pitch(cam, st, evs.drop_last());
    }
}

/// Gamepads leave a pitch outside the band alone or bring it into the band.
proof fn lemma_pad_fold_pitch_keeps(
    cam: ThirdPersonCamera,
    st: LookState,
    pads: Seq<PadLook>,
    dt: int,
)
    ensures
        pad_fold(cam, st, pads, dt).pitch == st.pitch || PITCH_MIN <= pad_fold(
            cam,
            st,
            pads,
            dt,
        ).pitch <= PITCH_MAX,
    decreases pads.len(),
{
    if pads.len() > 0 {
        lemma_pad_fold_pitch_keeps(cam, st, pads.drop_last(), dt);
        if PITCH_MIN <= pad_fold(cam, st, pads.drop_last(), dt).pitch <= PITCH_MAX {
            lemma_pad_step_pitch(cam, pad_fold(cam, st, pads.drop_last(), dt), pads.last(), dt);
        }
    }
}

/// One gamepad keeps the pitch band.
proof fn lemma_pad_step_pitch(cam: ThirdPersonCamera, st: LookState, p: PadLook, dt: int)
    requires
        PITCH_MIN <= st.pitch <= PITCH_MAX,
    ensures
        PITCH_MIN <= pad_step(cam, st, p, dt).pitch <= PITCH_MAX,
{
}

/// Wheel events do not touch the pitch.
proof fn lemma_wheel_fold_pitch(cam: ThirdPersonCamera, st: LookState, evs: Seq<i64>)
    ensures
        wheel_fold(cam, st, evs).pitch == st.pitch,
    decreases evs.len(),
{
    if evs.len() > 0 {
        lemma_wheel_fold_pitch(cam, st, evs.drop_last());
    }
}

/// Gamepads keep the pitch band.
proof fn lemma_pad_fold_pitch(cam: ThirdPersonCamera, st: LookState, pads: Seq<PadLook>, dt: int)
    requires
        PITCH_MIN <= st.pitch <= PITCH_MAX,
    ensures
        PITCH_MIN <= pad_fold(cam, st, pads, dt).pitch <= PITCH_MAX,
    decreases pads.len(),
{
    if pads.len() > 0 {
        lemma_pad_fold_pitch(cam, st, pads.drop_last(), dt);
    }
}

} // verus!
