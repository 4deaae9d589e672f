//! The physics integration layer: ground sensing and slope classification,
//! gravity shaping, movement resolution and damping.
//!
//! The rigid-body engine outside the library performs the downward
//! shape-cast and hands its contacts in as [`GroundHit`] values (each
//! contact's world-space unit normal together with its angle from vertical,
//! both plain fixed-point values); the functions here classify them, write
//! the body's velocity, and report the gravity scale back.

use vstd::prelude::*;

verus! {

use crate::components::{
    Grounded,
    GroundNormal,
    JumpImpulse,
    MaxSlopeAngle,
    MovementDampingFactor,
    PI_FP,
};
use crate::fixed::{
    abs_spec,
    fp_div,
    fp_div_spec,
    fp_lerp,
    fp_mul,
    fp_mul_spec,
    lemma_fp_mul_between,
    lemma_fp_mul_bound,
    lemma_fp_mul_le_left,
    FP_MAX,
    SCALE,
};
use crate::input::MovementAction;
use crate::player::Player;
use crate::states::any_move;
use crate::vecs::{normalize_or_spec, up_spec, yaw_world_x, yaw_world_z, AngleBasis, Vec2Fp, Vec3Fp};

/// Blend rate toward the best contact normal when it is far from the
/// current one (a large correction is taken quickly).
pub const NORMAL_FAST_BLEND: i64 = 18_000;

/// Blend rate toward the best contact normal for fine adjustment.
pub const NORMAL_SLOW_BLEND: i64 = 9_000;

/// Blend rate back toward vertical while airborne.
pub const NORMAL_RESET_BLEND: i64 = 6_000;

/// Squared distance between the current and the target unit normal beyond
/// which the fast blend rate is used; for unit vectors this distance is
/// close to the angle between them, so the threshold matches a 0.2-radian
/// gap.
pub const NORMAL_SNAP_DIST_SQ: i64 = 144_000_000;

/// One contact of the downward ground-sensing shape-cast: its world-space
/// unit normal and that normal's angle from vertical, in fixed-point
/// radians.
#[derive(Clone, Copy, Debug, PartialEq, Eq, Structural)]
pub struct GroundHit {
    pub normal: Vec3Fp,
    pub angle: i64,
}

impl GroundHit {
    pub open spec fn wf(self) -> bool {
        self.normal.in_range(SCALE as int) && 0 <= self.angle <= PI_FP
    }
}

/// All hits carry unit normals and angles within half a turn.
pub open spec fn hits_wf(hits: Seq<GroundHit>) -> bool {
    forall|i: int| 0 <= i < hits.len() ==> #[trigger] hits[i].wf()
}

/// What the ground sensor concluded this tick: whether the steepest
/// acceptable contact is walkable, and the best contact normal with its
/// angle from vertical (straight up when there was no contact).
#[derive(Clone, Copy, Debug, PartialEq, Eq, Structural)]
pub struct GroundSensorResult {
    pub is_grounded: bool,
    pub best_normal: Vec3Fp,
    pub best_slope_angle: i64,
}

/// The running state of the contact scan.
pub ghost struct GroundScan {
    pub grounded: bool,
    pub best_normal: Vec3Fp,
    pub best_angle: int,
}

/// Whether walking along `facing` climbs the slope whose normal this is:
/// the horizontal projections point away from each other.
pub open spec fn uphill_spec(facing: Vec3Fp, normal: Vec3Fp) -> bool {
    (facing.x as int) * (normal.x as int) + (facing.z as int) * (normal.z as int) < 0
}

/// How much of the allowed slope the angle uses, capped at 1.
pub open spec fn slope_ratio_spec(angle: int, max: int) -> int {
    if angle >= max {
        SCALE as int
    } else {
        fp_div_spec(angle, max)
    }
}

/// The angle a hit is judged by: uphill contacts are judged leniently (the
/// angle is shrunk by up to ten percent, the more the steeper), so climbing
/// stays possible near the limit.
pub open spec fn effective_angle_spec(h: GroundHit, facing: Vec3Fp, max: int) -> int {
    if uphill_spec(facing, h.normal) {
        fp_mul_spec(h.angle as int, 54_000 - fp_mul_spec(slope_ratio_spec(h.angle as int, max), 6_000))
    } else {
        h.angle as int
    }
}

/// Fold one hit into the scan: contacts within 1.2 times the allowed angle
/// compete by effective angle; the shallowest wins and supplies the normal,
/// and the sensor counts as grounded once any winner is within the allowed
/// angle itself.
pub open spec fn scan_step(st: GroundScan, h: GroundHit, facing: Vec3Fp, max: int) -> GroundScan {
    if h.angle as int <= fp_mul_spec(max, 72_000) {
        let eff = effective_angle_spec(h, facing, max);
        if eff < st.best_angle {
            GroundScan {
                grounded: st.grounded || h.angle as int <= max,
                best_normal: h.normal,
                best_angle: eff,
            }
        } else {
            st
        }
    } else {
        st
    }
}

/// The scan over all hits, in order, starting from "no contact": not
/// grounded, normal straight up, worst-case angle.
pub open spec fn ground_scan(hits: Seq<GroundHit>, facing: Vec3Fp, max: int) -> GroundScan
    decreases hits.len(),
{
    if hits.len() == 0 {
        GroundScan { grounded: false, best_normal: up_spec(), best_angle: PI_FP as int }
    } else {
        scan_step(ground_scan(hits.drop_last(), facing, max), hits.last(), facing, max)
    }
}

/// One step of blending the smoothed normal toward a target.
pub open spec fn lerp3_spec(c: Vec3Fp, t: Vec3Fp, rate: int) -> Vec3Fp {
    Vec3Fp {
        x: (c.x + fp_mul_spec(t.x - c.x, rate)) as i64,
        y: (c.y + fp_mul_spec(t.y - c.y, rate)) as i64,
        z: (c.z + fp_mul_spec(t.z - c.z, rate)) as i64,
    }
}

/// The squared distance between two vectors.
pub open spec fn dist_sq_3(a: Vec3Fp, b: Vec3Fp) -> int {
    (a.x - b.x) * (a.x - b.x) + (a.y - b.y) * (a.y - b.y) + (a.z - b.z) * (a.z - b.z)
}

/// The blend rate toward a target normal: fast when the gap is large, slow
/// for refinement.
pub open spec fn normal_blend_rate(c: Vec3Fp, t: Vec3Fp) -> int {
    if dist_sq_3(c, t) > NORMAL_SNAP_DIST_SQ {
        NORMAL_FAST_BLEND as int
    } else {
        NORMAL_SLOW_BLEND as int
    }
}

/// Classifies this tick's shape-cast contacts and smooths the stored ground
/// normal toward the best one (or back toward vertical when there was no
/// contact). `facing` is the character's current flat heading, used to judge
/// uphill contacts leniently. Returns the sensor result and the grounded
/// marker to attach, `None` when it must be removed.
pub fn update_grounded(
    hits: &Vec<GroundHit>,
    facing: &Vec3Fp,
    max_slope_angle: &MaxSlopeAngle,
    ground_normal: &mut GroundNormal,
) -> (r: (GroundSensorResult, Option<Grounded>))
    requires
        hits_wf(hits@),
        facing.in_range(SCALE as int),
        max_slope_angle.wf(),
        old(ground_normal).wf(),
    ensures
        ({
            let scan = ground_scan(hits@, *facing, max_slope_angle.0 as int);
            &&& r.0.is_grounded == scan.grounded
            &&& r.0.best_normal == scan.best_normal
            &&& r.0.best_slope_angle == scan.best_angle
            &&& (r.1 is Some <==> scan.grounded)
            &&& hits@.len() > 0 ==> final(ground_normal).0 == lerp3_spec(
                old(ground_normal).0,
                scan.best_normal,
                normal_blend_rate(old(ground_normal).0, scan.best_normal),
            )
        }),
        hits@.len() == 0 ==> final(ground_normal).0 == lerp3_spec(
            old(ground_normal).0,
            up_spec(),
            NORMAL_RESET_BLEND as int,
        ),
        final(ground_normal).wf(),
{
    let ghost max: int = max_slope_angle.0 as int;
    let mut grounded = false;
    let mut best_normal = Vec3Fp::up();
    let mut best_angle: i64 = PI_FP;

    let lenient_max = fp_mul(max_slope_angle.0, 72_000);

    let mut i: usize = 0;
    while i < hits.len()
        invariant
            i <= hits@.len(),
            hits_wf(hits@),
            facing.in_range(SCALE as int),
            0 < max_slope_angle.0 <= PI_FP,
            max == max_slope_angle.0 as int,
            lenient_max == fp_mul_spec(max, 72_000),
            ground_scan(hits@.take(i as int), *facing, max) == (GroundScan {
                grounded,
                best_normal,
                best_angle: best_angle as int,
            }),
            0 <= best_angle <= PI_FP,
            best_normal.in_range(SCALE as int),
        decreases hits@.len() - i,
    {
        proof {
            assert(hits@.take(i + 1 as int).drop_last() =~= hits@.take(i as int));
            assert(hits@.take(i + 1 as int).last() == hits@[i as int]);
            assert(hits@[i as int].wf());
        }
        let hit = hits[i];
        if hit.angle <= lenient_max {
            proof {
                assert(abs_spec((facing.x as int) * (hit.normal.x as int)) <= 3_600_000_000
                    && abs_spec((facing.z as int) * (hit.normal.z as int)) <= 3_600_000_000)
                    by (nonlinear_arith)
                    requires
                        abs_spec(facing.x as int) <= 60_000,
                        abs_spec(hit.normal.x as int) <= 60_000,
                        abs_spec(facing.z as int) <= 60_000,
                        abs_spec(hit.normal.z as int) <= 60_000,
                ;
            }
            let uphill = facing.x * hit.normal.x + facing.z * hit.normal.z < 0;
            let effective = if uphill {
                let ratio = if hit.angle >= max_slope_angle.0 {
                    SCALE
                } else {
                    proof {
                        lemma_ratio_in_range(hit.angle as int, max);
                    }
                    fp_div(hit.angle, max_slope_angle.0)
                };
                let leniency = fp_mul(ratio, 6_000);
                proof {
                    lemma_fp_mul_between(ratio as int, 6_000);
                    lemma_fp_mul_between(hit.angle as int, 54_000 - leniency as int);
                }
                fp_mul(hit.angle, 54_000 - leniency)
            } else {
                hit.angle
            };
            proof {
                assert(effective as int == effective_angle_spec(hit, *facing, max));
            }
            if effective < best_angle {
                if hit.angle <= max_slope_angle.0 {
                    grounded = true;
                }
                best_normal = hit.normal;
                best_angle = effective;
            }
        }
        i = i + 1;
    }
    proof {
        assert(hits@.take(hits@.len() as int) =~= hits@);
    }

    let sensor = GroundSensorResult {
        is_grounded: grounded,
        best_normal,
        best_slope_angle: best_angle,
    };

    // Smooth the stored normal: toward the best contact while there is one,
    // gently back toward vertical otherwise.
    let current = ground_normal.normal();
    if hits.len() > 0 {
        let diff = current.sub(&best_normal);
        let d2 = diff.length_squared();
        let rate = if d2 > NORMAL_SNAP_DIST_SQ {
            NORMAL_FAST_BLEND
        } else {
            NORMAL_SLOW_BLEND
        };
        let blended = Vec3Fp::new(
            fp_lerp(current.x, best_normal.x, rate),
            fp_lerp(current.y, best_normal.y, rate),
            fp_lerp(current.z, best_normal.z, rate),
        );
        ground_normal.set_normal(blended);
    } else {
        let up = Vec3Fp::up();
        let blended = Vec3Fp::new(
            fp_lerp(current.x, up.x, NORMAL_RESET_BLEND),
            fp_lerp(current.y, up.y, NORMAL_RESET_BLEND),
            fp_lerp(current.z, up.z, NORMAL_RESET_BLEND),
        );
        ground_normal.set_normal(blended);
    }

    if grounded {
        (sensor, Some(Grounded))
    } else {
        (sensor, None)
    }
}

/// An angle strictly inside the allowed slope divides into it with a
/// quotient of at most one.
proof fn lemma_ratio_in_range(angle: int, max: int)
    requires
        0 <= angle < max,
        0 < max,
    ensures
        0 <= fp_div_spec(angle, max) <= SCALE,
        abs_spec(fp_div_spec(angle, max)) <= FP_MAX,
{
    vstd::arithmetic::mul::lemma_mul_inequality(angle, max, SCALE as int);
    vstd::arithmetic::div_mod::lemma_div_is_ordered(
        angle * (SCALE as int),
        max * (SCALE as int),
        max,
    );
    vstd::arithmetic::div_mod::lemma_div_multiples_vanish(SCALE as int, max);
    vstd::arithmetic::mul::lemma_mul_nonnegative(angle, SCALE as int);
    vstd::arithmetic::div_mod::lemma_div_pos_is_pos(angle * (SCALE as int), max);
}

/// Largest velocity component (25 000 units per second) the movement update
/// accepts; the engine's solver keeps real speeds far below this.
pub const VEL_LIMIT: i64 = 1_500_000_000;

/// Squared distance from the up vector under which ground counts as flat and
/// no slope scaling applies.
pub const FLAT_EPS_SQ: i64 = 3_600_000;

/// How strongly moving upslope slows the character: 0.4 per unit of slope
/// alignment.
pub const UPHILL_PENALTY: i64 = 24_000;

/// How strongly moving downslope speeds the character up: 0.3 per unit of
/// slope alignment.
pub const DOWNHILL_BONUS: i64 = 18_000;

/// The fraction of the jump impulse pushed along the ground normal's
/// horizontal part when jumping off a slope.
pub const JUMP_NORMAL_PUSH: i64 = 18_000;

/// The canonical world-space forward direction, substituted for a degenerate
/// movement vector.
pub open spec fn forward_world() -> Vec3Fp {
    Vec3Fp { x: 0, y: 0, z: (-SCALE) as i64 }
}

/// A planar input direction rotated into world space by the camera yaw.
pub open spec fn world_of(yaw: AngleBasis, d: Vec2Fp) -> Vec3Fp {
    Vec3Fp { x: yaw_world_x(yaw, d) as i64, y: 0, z: yaw_world_z(yaw, d) as i64 }
}

/// The state the movement events fold over: the body's velocity, the stored
/// movement direction, and the coyote grace timer.
pub ghost struct MoveState {
    pub vx: int,
    pub vy: int,
    pub vz: int,
    pub dir: Vec3Fp,
    pub coyote: int,
}

/// The slope speed factor: on flat ground, in the air, or against a
/// degenerate normal it is one; on a slope, movement aligned with the
/// normal's horizontal part (downhill) is sped up by [`DOWNHILL_BONUS`] per
/// unit of alignment and movement against it (uphill) slowed by
/// [`UPHILL_PENALTY`].
pub open spec fn slope_factor_spec(dir: Vec3Fp, normal: Vec3Fp, grounded: bool) -> int {
    if grounded && dist_sq_3(normal, up_spec()) > FLAT_EPS_SQ {
        let flat = normalize_or_spec(
            Vec3Fp { x: normal.x, y: 0, z: normal.z },
            Vec3Fp { x: 0, y: 0, z: 0 },
        );
        let dot = fp_mul_spec(dir.x as int, flat.x as int) + fp_mul_spec(
            dir.z as int,
            flat.z as int,
        );
        if dot < 0 {
            (SCALE as int) - fp_mul_spec(-dot, UPHILL_PENALTY as int)
        } else {
            (SCALE as int) + fp_mul_spec(dot, DOWNHILL_BONUS as int)
        }
    } else {
        SCALE as int
    }
}

/// One movement event applied to the state: a nonzero move writes the
/// slope-scaled horizontal velocity (vertical untouched) and the normalized
/// direction; a jump, allowed while grounded or within the coyote grace,
/// sets the upward velocity to the impulse, pushes off the slope when
/// grounded, and consumes the grace.
pub open spec fn move_step(
    cfg: Player,
    st: MoveState,
    ev: MovementAction,
    yaw: AngleBasis,
    normal: Vec3Fp,
    grounded: bool,
    jump: int,
    dt: int,
) -> MoveState {
    match ev {
        MovementAction::Move(d, _) => if !d.is_zero_spec() {
            let world = world_of(yaw, d);
            let dir = normalize_or_spec(world, forward_world());
            let factor = slope_factor_spec(dir, normal, grounded);
            MoveState {
                vx: fp_mul_spec(
                    fp_mul_spec(fp_mul_spec(world.x as int, cfg.current_speed as int), dt),
                    factor,
                ),
                vz: fp_mul_spec(
                    fp_mul_spec(fp_mul_spec(world.z as int, cfg.current_speed as int), dt),
                    factor,
                ),
                dir,
                ..st
            }
        } else {
            st
        },
        MovementAction::Jump => if grounded || st.coyote > 0 {
            MoveState {
                vx: if grounded {
                    st.vx + fp_mul_spec(
                        fp_mul_spec(normal.x as int, jump),
                        JUMP_NORMAL_PUSH as int,
                    )
                } else {
                    st.vx
                },
                vy: jump,
                vz: if grounded {
                    st.vz + fp_mul_spec(
                        fp_mul_spec(normal.z as int, jump),
                        JUMP_NORMAL_PUSH as int,
                    )
                } else {
                    st.vz
                },
                coyote: 0,
                ..st
            }
        } else {
            st
        },
        _ => st,
    }
}

/// The movement events folded over the state, in order.
pub open spec fn move_fold(
    cfg: Player,
    evs: Seq<MovementAction>,
    st: MoveState,
    yaw: AngleBasis,
    normal: Vec3Fp,
    grounded: bool,
    jump: int,
    dt: int,
) -> MoveState
    decreases evs.len(),
{
    if evs.len() == 0 {
        st
    } else {
        move_step(
            cfg,
            move_fold(cfg, evs.drop_last(), st, yaw, normal, grounded, jump, dt),
            evs.last(),
            yaw,
            normal,
            grounded,
            jump,
            dt,
        )
    }
}

/// The whole movement update. A roll in progress drives the horizontal
/// velocity alone, from the roll direction and speed, whatever the events
/// say; a movement-locking block zeroes it; otherwise the events are folded
/// over the incoming state, and leaving the ground arms the coyote grace
/// timer.
pub open spec fn movement_spec(
    cfg: Player,
    evs: Seq<MovementAction>,
    yaw: AngleBasis,
    v0: Vec3Fp,
    jump: int,
    normal: Vec3Fp,
    grounded: bool,
    was_grounded: bool,
    dt: int,
) -> MoveState {
    if cfg.is_rolling {
        MoveState {
            vx: fp_mul_spec(
                fp_mul_spec(cfg.roll_direction.x as int, cfg.roll_speed as int),
                dt,
            ),
            vy: v0.y as int,
            vz: fp_mul_spec(
                fp_mul_spec(cfg.roll_direction.z as int, cfg.roll_speed as int),
                dt,
            ),
            dir: cfg.movement_direction,
            coyote: cfg.coyote_timer as int,
        }
    } else if cfg.is_blocking && !cfg.can_move_while_blocking {
        MoveState {
            vx: 0,
            vy: v0.y as int,
            vz: 0,
            dir: cfg.movement_direction,
            coyote: cfg.coyote_timer as int,
        }
    } else {
        let st0 = MoveState {
            vx: v0.x as int,
            vy: v0.y as int,
            vz: v0.z as int,
            dir: cfg.movement_direction,
            coyote: cfg.coyote_timer as int,
        };
        let st = move_fold(cfg, evs, st0, yaw, normal, grounded, jump, dt);
        if !grounded && was_grounded {
            MoveState { coyote: cfg.coyote_time as int, ..st }
        } else {
            st
        }
    }
}

/// Resolves this tick's movement events into the body's velocity, the stored
/// movement direction and the coyote grace timer, per [`movement_spec`].
/// `grounded`/`was_grounded` are the ground sensor's verdicts for this tick
/// and the previous one; leaving the ground arms the grace timer.
#[verifier::rlimit(100)]
pub fn movement(
    player: &mut Player,
    events: &Vec<MovementAction>,
    camera_yaw: &AngleBasis,
    velocity: &mut Vec3Fp,
    jump_impulse: &JumpImpulse,
    ground_normal: &GroundNormal,
    grounded: bool,
    was_grounded: bool,
    dt: i64,
)
    requires
        old(player).wf(),
        camera_yaw.wf(),
        crate::states::events_wf(events@),
        events@.len() <= 16,
        old(velocity).in_range(VEL_LIMIT as int),
        jump_impulse.wf(),
        ground_normal.wf(),
        0 < dt <= SCALE,
    ensures
        final(player).wf(),
        final(velocity).in_range(FP_MAX as int),
        *final(player) == (Player {
            movement_direction: final(player).movement_direction,
            coyote_timer: final(player).coyote_timer,
            ..*old(player)
        }),
        ({
            let o = movement_spec(
                *old(player),
                events@,
                *camera_yaw,
                *old(velocity),
                jump_impulse.0 as int,
                ground_normal.0,
                grounded,
                was_grounded,
                dt as int,
            );
            &&& final(velocity).x == o.vx
            &&& final(velocity).y == o.vy
            &&& final(velocity).z == o.vz
            &&& final(player).movement_direction == o.dir
            &&& final(player).coyote_timer == o.coyote
        }),
{
    let ghost cfg: Player = *player;
    let ghost evs: Seq<MovementAction> = events@;
    let ghost v0: Vec3Fp = *velocity;

    // A roll in progress drives the horizontal velocity alone.
    if player.is_rolling {
        proof {
            lemma_fp_mul_bound(
                cfg.roll_direction.x as int,
                cfg.roll_speed as int,
                2 * SCALE as int,
                crate::player::CFG_MAX as int,
            );
            lemma_fp_mul_bound(
                cfg.roll_direction.z as int,
                cfg.roll_speed as int,
                2 * SCALE as int,
                crate::player::CFG_MAX as int,
            );
            lemma_fp_mul_le_left(
                fp_mul_spec(cfg.roll_direction.x as int, cfg.roll_speed as int),
                dt as int,
            );
            lemma_fp_mul_le_left(
                fp_mul_spec(cfg.roll_direction.z as int, cfg.roll_speed as int),
                dt as int,
            );
        }
        velocity.x = fp_mul(fp_mul(player.roll_direction.x, player.roll_speed), dt);
        velocity.z = fp_mul(fp_mul(player.roll_direction.z, player.roll_speed), dt);
        return;
    }

    // A movement-locking block zeroes the horizontal velocity.
    if player.is_blocking && !player.can_move_while_blocking {
        velocity.x = 0;
        velocity.z = 0;
        return;
    }

    let ghost st0 = MoveState {
        vx: v0.x as int,
        vy: v0.y as int,
        vz: v0.z as int,
        dir: cfg.movement_direction,
        coyote: cfg.coyote_timer as int,
    };

    let mut i: usize = 0;
    while i < events.len()
        invariant
            i <= evs.len(),
            evs == events@,
            evs.len() <= 16,
            crate::states::events_wf(evs),
            cfg.wf(),
            camera_yaw.wf(),
            jump_impulse.wf(),
            ground_normal.wf(),
            0 < dt <= SCALE,
            ({
                let st = move_fold(
                    cfg,
                    evs.take(i as int),
                    st0,
                    *camera_yaw,
                    ground_normal.0,
                    grounded,
                    jump_impulse.0 as int,
                    dt as int,
                );
                &&& velocity.x == st.vx
                &&& velocity.y == st.vy
                &&& velocity.z == st.vz
                &&& player.movement_direction == st.dir
                &&& player.coyote_timer == st.coyote
            }),
            *player == (Player {
                movement_direction: player.movement_direction,
                coyote_timer: player.coyote_timer,
                ..cfg
            }),
            player.wf(),
            abs_spec(velocity.x as int) <= VEL_LIMIT + i * 90_000_000,
            abs_spec(velocity.z as int) <= VEL_LIMIT + i * 90_000_000,
            abs_spec(velocity.y as int) <= VEL_LIMIT,
        decreases evs.len() - i,
    {
        proof {
            assert(evs.take(i + 1 as int).drop_last() =~= evs.take(i as int));
            assert(evs.take(i + 1 as int).last() == evs[i as int]);
        }
        match *(&events[i]) {
            MovementAction::Move(d, _) => {
                if !d.is_zero() {
                    let world = crate::vecs::rotate_input_to_world(camera_yaw, &d);
                    proof {
                        assert(world == world_of(*camera_yaw, d));
                    }
                    let fallback = Vec3Fp::new(0, 0, -SCALE);
                    let dir = crate::vecs::normalize_or(&world, &fallback);
                    player.movement_direction = dir;

                    let factor: i64 = if grounded {
                        let up = Vec3Fp::up();
                        let diff = ground_normal.0.sub(&up);
                        let d2 = diff.length_squared();
                        if d2 > FLAT_EPS_SQ {
                            let flat_raw = Vec3Fp::new(ground_normal.0.x, 0, ground_normal.0.z);
                            let zero = Vec3Fp::new(0, 0, 0);
                            let flat = crate::vecs::normalize_or(&flat_raw, &zero);
                            proof {
                                lemma_fp_mul_le_left(dir.x as int, flat.x as int);
                                lemma_fp_mul_le_left(dir.z as int, flat.z as int);
                            }
                            let dot = fp_mul(dir.x, flat.x) + fp_mul(dir.z, flat.z);
                            proof {
                                lemma_fp_mul_bound(-(dot as int), UPHILL_PENALTY as int, 2 * SCALE as int, UPHILL_PENALTY as int);
                                lemma_fp_mul_bound(dot as int, DOWNHILL_BONUS as int, 2 * SCALE as int, DOWNHILL_BONUS as int);
                            }
                            if dot < 0 {
                                SCALE - fp_mul(-dot, UPHILL_PENALTY)
                            } else {
                                SCALE + fp_mul(dot, DOWNHILL_BONUS)
                            }
                        } else {
                            SCALE
                        }
                    } else {
                        SCALE
                    };
                    proof {
                        assert(factor as int == slope_factor_spec(dir, ground_normal.0, grounded));
                        assert(abs_spec(factor as int) <= 2 * SCALE as int);
                        lemma_fp_mul_bound(
                            world.x as int,
                            cfg.current_speed as int,
                            2 * SCALE as int,
                            crate::player::CFG_MAX as int,
                        );
                        lemma_fp_mul_bound(
                            world.z as int,
                            cfg.current_speed as int,
                            2 * SCALE as int,
                            crate::player::CFG_MAX as int,
                        );
                        lemma_fp_mul_le_left(
                            fp_mul_spec(world.x as int, cfg.current_speed as int),
                            dt as int,
                        );
                        lemma_fp_mul_le_left(
                            fp_mul_spec(world.z as int, cfg.current_speed as int),
                            dt as int,
                        );
                        lemma_fp_mul_bound(
                            fp_mul_spec(
                                fp_mul_spec(world.x as int, cfg.current_speed as int),
                                dt as int,
                            ),
                            factor as int,
                            2 * (crate::player::CFG_MAX as int),
                            2 * SCALE as int,
                        );
                        lemma_fp_mul_bound(
                            fp_mul_spec(
                                fp_mul_spec(world.z as int, cfg.current_speed as int),
                                dt as int,
                            ),
                            factor as int,
                            2 * (crate::player::CFG_MAX as int),
                            2 * SCALE as int,
                        );
                    }
                    velocity.x = fp_mul(fp_mul(fp_mul(world.x, player.current_speed), dt), factor);
                    velocity.z = fp_mul(fp_mul(fp_mul(world.z, player.current_speed), dt), factor);
                }
            },
            MovementAction::Jump => {
                let can_jump = grounded || player.coyote_timer > 0;
                if can_jump {
                    velocity.y = jump_impulse.0;
                    if grounded {
                        proof {
                            lemma_fp_mul_bound(
                                ground_normal.0.x as int,
                                jump_impulse.0 as int,
                                SCALE as int,
                                crate::player::CFG_MAX as int,
                            );
                            lemma_fp_mul_bound(
                                ground_normal.0.z as int,
                                jump_impulse.0 as int,
                                SCALE as int,
                                crate::player::CFG_MAX as int,
                            );
                            lemma_fp_mul_bound(
                                fp_mul_spec(ground_normal.0.x as int, jump_impulse.0 as int),
                                JUMP_NORMAL_PUSH as int,
                                crate::player::CFG_MAX as int,
                                JUMP_NORMAL_PUSH as int,
                            );
                            lemma_fp_mul_bound(
                                fp_mul_spec(ground_normal.0.z as int, jump_impulse.0 as int),
                                JUMP_NORMAL_PUSH as int,
                                crate::player::CFG_MAX as int,
                                JUMP_NORMAL_PUSH as int,
                            );
                        }
                        velocity.x = velocity.x + fp_mul(
                            fp_mul(ground_normal.0.x, jump_impulse.0),
                            JUMP_NORMAL_PUSH,
                        );
                        velocity.z = velocity.z + fp_mul(
                            fp_mul(ground_normal.0.z, jump_impulse.0),
                            JUMP_NORMAL_PUSH,
                        );
                    }
                    player.coyote_timer = 0;
                }
            },
            _ => {},
        }
        i = i + 1;
    }
    proof {
        assert(evs.take(evs.len() as int) =~= evs);
    }

    // Leaving the ground arms the coyote grace timer.
    if !grounded && was_grounded {
        player.coyote_timer = player.coyote_time;
    }
}

/// Roll exclusivity: while a roll is in progress, the horizontal velocity is
/// the roll direction times the roll speed (per tick), whatever movement
/// events arrive and whatever the incoming horizontal velocity was.
pub proof fn lemma_roll_exclusivity(
    cfg: Player,
    evs1: Seq<MovementAction>,
    evs2: Seq<MovementAction>,
    yaw: AngleBasis,
    v1: Vec3Fp,
    v2: Vec3Fp,
    jump: int,
    normal: Vec3Fp,
    grounded: bool,
    was_grounded: bool,
    dt: int,
)
    requires
        cfg.is_rolling,
        v1.y == v2.y,
    ensures
        movement_spec(cfg, evs1, yaw, v1, jump, normal, grounded, was_grounded, dt).vx
            == fp_mul_spec(fp_mul_spec(cfg.roll_direction.x as int, cfg.roll_speed as int), dt),
        movement_spec(cfg, evs1, yaw, v1, jump, normal, grounded, was_grounded, dt).vz
            == fp_mul_spec(fp_mul_spec(cfg.roll_direction.z as int, cfg.roll_speed as int), dt),
        movement_spec(cfg, evs1, yaw, v1, jump, normal, grounded, was_grounded, dt)
            == movement_spec(cfg, evs2, yaw, v2, jump, normal, grounded, was_grounded, dt),
{
}

/// Coyote-time jump: airborne with grace remaining, a single jump event sets
/// the upward velocity to the impulse and consumes the grace; a second jump
/// the same tick changes nothing more; and once the grace has reached zero,
/// an airborne jump leaves the velocity entirely alone.
pub proof fn lemma_coyote_jump(
    cfg: Player,
    yaw: AngleBasis,
    v0: Vec3Fp,
    jump: int,
    normal: Vec3Fp,
    dt: int,
)
    requires
        !cfg.is_rolling,
        !(cfg.is_blocking && !cfg.can_move_while_blocking),
    ensures
        cfg.coyote_timer > 0 ==> {
            let o = movement_spec(
                cfg,
                seq![MovementAction::Jump],
                yaw,
                v0,
                jump,
                normal,
                false,
                false,
                dt,
            );
            o.vy == jump && o.coyote == 0 && o.vx == v0.x && o.vz == v0.z
        },
        cfg.coyote_timer > 0 ==> movement_spec(
            cfg,
            seq![MovementAction::Jump, MovementAction::Jump],
            yaw,
            v0,
            jump,
            normal,
            false,
            false,
            dt,
        ) == movement_spec(cfg, seq![MovementAction::Jump], yaw, v0, jump, normal, false, false, dt),
        cfg.coyote_timer <= 0 ==> {
            let o = movement_spec(
                cfg,
                seq![MovementAction::Jump],
                yaw,
                v0,
                jump,
                normal,
                false,
                false,
                dt,
            );
            o.vx == v0.x && o.vy == v0.y && o.vz == v0.z && o.coyote == cfg.coyote_timer
        },
{
    let one = seq![MovementAction::Jump];
    let two = seq![MovementAction::Jump, MovementAction::Jump];
    assert(one.drop_last() =~= Seq::<MovementAction>::empty());
    assert(two.drop_last() =~= one);
    assert(one.last() == MovementAction::Jump);
    assert(two.last() == MovementAction::Jump);
    let st0 = MoveState {
        vx: v0.x as int,
        vy: v0.y as int,
        vz: v0.z as int,
        dir: cfg.movement_direction,
        coyote: cfg.coyote_timer as int,
    };
    assert(move_fold(cfg, Seq::<MovementAction>::empty(), st0, yaw, normal, false, jump, dt)
        == st0);
    let s1 = move_step(cfg, st0, MovementAction::Jump, yaw, normal, false, jump, dt);
    assert(move_fold(cfg, one, st0, yaw, normal, false, jump, dt) == s1);
    let s2 = move_step(cfg, s1, MovementAction::Jump, yaw, normal, false, jump, dt);
    assert(move_fold(cfg, two, st0, yaw, normal, false, jump, dt) == s2);
    assert(s2 == s1);
}

/// Gravity shaping for a snappier jump/// Gravity shaping for a snappier jump/// Gravity shaping for a snappier jump: the scale is a base of 2, raised by
/// the fall multiplier while the body is falling.
pub fn enhanced_gravity(player: &Player, velocity_y: i64) -> (r: i64)
    requires
        player.wf(),
    ensures
        velocity_y < 0 ==> r == fp_mul_spec(120_000, player.fall_multiplier as int),
        velocity_y >= 0 ==> r == 120_000,
{
    if velocity_y < 0 {
        fp_mul(120_000, player.fall_multiplier)
    } else {
        120_000
    }
}

/// Slows horizontal movement when no movement input arrived this tick: the
/// damping factor multiplies the horizontal velocity, and the vertical
/// component stays untouched so gravity keeps governing it.
pub fn apply_movement_damping(
    events: &Vec<MovementAction>,
    damping: &MovementDampingFactor,
    velocity: &mut Vec3Fp,
)
    requires
        damping.wf(),
        old(velocity).in_range(FP_MAX as int),
    ensures
        any_move(events@) ==> *final(velocity) == *old(velocity),
        !any_move(events@) ==> {
            &&& final(velocity).x == fp_mul_spec(old(velocity).x as int, damping.0 as int)
            &&& final(velocity).y == old(velocity).y
            &&& final(velocity).z == fp_mul_spec(old(velocity).z as int, damping.0 as int)
        },
        final(velocity).in_range(FP_MAX as int),
{
    let mut moving = false;
    let mut i: usize = 0;
    while i < events.len()
        invariant
            i <= events@.len(),
            moving == any_move(events@.take(i as int)),
        decreases events@.len() - i,
    {
        proof {
            assert(events@.take(i + 1 as int).drop_last() =~= events@.take(i as int));
            assert(events@.take(i + 1 as int).last() == events@[i as int]);
        }
        match *(&events[i]) {
            MovementAction::Move(d, _) => {
                if !d.is_zero() {
                    moving = true;
                }
            },
            _ => {},
        }
        i = i + 1;
    }
    proof {
        assert(events@.take(events@.len() as int) =~= events@);
    }

    if !moving {
        proof {
            lemma_fp_mul_between(old(velocity).x as int, damping.0 as int);
            lemma_fp_mul_between(old(velocity).z as int, damping.0 as int);
        }
        velocity.x = fp_mul(velocity.x, damping.0);
        velocity.z = fp_mul(velocity.z, damping.0);
    }
}

} // verus!
