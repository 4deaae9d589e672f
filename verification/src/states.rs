//! The player state machine: the authoritative per-tick update of every
//! transient flag, timer and resource pool, driven by the tick's
//! movement-intent events.
//!
//! The update is specified as a pipeline of small ghost steps over
//! [`PlayerModel`], in the fixed order that correctness requires: scan the
//! events, advance the roll timers, start a requested roll, apply block
//! changes, charge block upkeep, resolve sprinting (with exhaustion and
//! regeneration), and advance the coyote timer.

use vstd::prelude::*;

verus! {

use crate::fixed::{fp_mul, fp_mul_spec, lemma_fp_mul_between, SCALE};
use crate::input::{forward_input, MovementAction};
use crate::player::{Player, EXHAUSTION_LOCKOUT};
use crate::vecs::{yaw_world_x, yaw_world_z, AngleBasis, Vec2Fp};

/// The mutable slice of the player state, as the state machine sees it; the
/// configuration fields stay on [`Player`] and never change.
pub ghost struct PlayerModel {
    pub is_moving: bool,
    pub is_sprinting: bool,
    pub is_rolling: bool,
    pub is_blocking: bool,
    pub exhausted: bool,
    pub can_roll: bool,
    pub current_speed: int,
    pub stamina: int,
    pub roll_timer: int,
    pub roll_cooldown_timer: int,
    pub exhaustion_timer: int,
    pub coyote_timer: int,
    pub roll_direction_x: int,
    pub roll_direction_y: int,
    pub roll_direction_z: int,
}

impl Player {
    /// The state-machine view of the player.
    pub open spec fn state(self) -> PlayerModel {
        PlayerModel {
            is_moving: self.is_moving,
            is_sprinting: self.is_sprinting,
            is_rolling: self.is_rolling,
            is_blocking: self.is_blocking,
            exhausted: self.exhausted,
            can_roll: self.can_roll,
            current_speed: self.current_speed as int,
            stamina: self.stamina as int,
            roll_timer: self.roll_timer as int,
            roll_cooldown_timer: self.roll_cooldown_timer as int,
            exhaustion_timer: self.exhaustion_timer as int,
            coyote_timer: self.coyote_timer as int,
            roll_direction_x: self.roll_direction.x as int,
            roll_direction_y: self.roll_direction.y as int,
            roll_direction_z: self.roll_direction.z as int,
        }
    }
}

/// Whether the events hold a movement input with a nonzero direction.
pub open spec fn any_move(evs: Seq<MovementAction>) -> bool
    decreases evs.len(),
{
    if evs.len() == 0 {
        false
    } else {
        any_move(evs.drop_last()) || match evs.last() {
            MovementAction::Move(d, _) => !d.is_zero_spec(),
            _ => false,
        }
    }
}

/// Whether the events hold a sprinting movement input with a nonzero
/// direction.
pub open spec fn sprint_requested(evs: Seq<MovementAction>) -> bool
    decreases evs.len(),
{
    if evs.len() == 0 {
        false
    } else {
        sprint_requested(evs.drop_last()) || match evs.last() {
            MovementAction::Move(d, s) => s && !d.is_zero_spec(),
            _ => false,
        }
    }
}

/// Whether the events hold a roll request.
pub open spec fn roll_requested(evs: Seq<MovementAction>) -> bool
    decreases evs.len(),
{
    if evs.len() == 0 {
        false
    } else {
        roll_requested(evs.drop_last()) || evs.last() is Roll
    }
}

/// The direction of the last roll request, zero when there is none.
pub open spec fn last_roll_dir(evs: Seq<MovementAction>) -> Vec2Fp
    decreases evs.len(),
{
    if evs.len() == 0 {
        Vec2Fp { x: 0, y: 0 }
    } else {
        match evs.last() {
            MovementAction::Roll(d) => d,
            _ => last_roll_dir(evs.drop_last()),
        }
    }
}

/// Whether the events ask to start blocking.
pub open spec fn block_start_requested(evs: Seq<MovementAction>) -> bool
    decreases evs.len(),
{
    if evs.len() == 0 {
        false
    } else {
        block_start_requested(evs.drop_last()) || evs.last() is StartBlock
    }
}

/// Whether the events ask to stop blocking.
pub open spec fn block_end_requested(evs: Seq<MovementAction>) -> bool
    decreases evs.len(),
{
    if evs.len() == 0 {
        false
    } else {
        block_end_requested(evs.drop_last()) || evs.last() is EndBlock
    }
}

/// Every direction the events carry is at most unit length per component.
pub open spec fn events_wf(evs: Seq<MovementAction>) -> bool {
    forall|i: int|
        0 <= i < evs.len() ==> match #[trigger] evs[i] {
            MovementAction::Move(d, _) => d.in_range(SCALE as int),
            MovementAction::Roll(d) => d.in_range(SCALE as int),
            _ => true,
        }
}

/// Advance the roll in progress, or the cooldown after one: a roll whose
/// timer runs out ends and starts the cooldown with rolling disallowed; an
/// elapsed cooldown allows rolling again.
pub open spec fn step_roll_timers(cfg: Player, m: PlayerModel, dt: int) -> PlayerModel {
    if m.is_rolling {
        if m.roll_timer - dt <= 0 {
            PlayerModel {
                is_rolling: false,
                roll_timer: 0,
                roll_cooldown_timer: cfg.roll_cooldown as int,
                can_roll: false,
                ..m
            }
        } else {
            PlayerModel { roll_timer: m.roll_timer - dt, ..m }
        }
    } else if !m.can_roll {
        if m.roll_cooldown_timer - dt <= 0 {
            PlayerModel { can_roll: true, roll_cooldown_timer: 0, ..m }
        } else {
            PlayerModel { roll_cooldown_timer: m.roll_cooldown_timer - dt, ..m }
        }
    } else {
        m
    }
}

/// Whether a roll request is honored: rolling must be allowed, none in
/// progress, the player not exhausted, and the stamina must cover the cost.
pub open spec fn roll_accepted(cfg: Player, m: PlayerModel, requested: bool) -> bool {
    requested && m.can_roll && !m.is_rolling && !m.exhausted && m.stamina
        >= cfg.roll_stamina_cost as int
}

/// Start an accepted roll: the timer is armed, the input direction (forward
/// when none was given) is rotated into world space by the camera yaw, the
/// flat stamina cost is deducted (floored at zero), and blocking ends.
pub open spec fn step_start_roll(
    cfg: Player,
    m: PlayerModel,
    requested: bool,
    dir: Vec2Fp,
    yaw: AngleBasis,
) -> PlayerModel {
    if roll_accepted(cfg, m, requested) {
        let d = if dir.is_zero_spec() {
            forward_input()
        } else {
            dir
        };
        let s = m.stamina - cfg.roll_stamina_cost as int;
        PlayerModel {
            is_rolling: true,
            roll_timer: cfg.roll_duration as int,
            roll_direction_x: yaw_world_x(yaw, d),
            roll_direction_y: 0,
            roll_direction_z: yaw_world_z(yaw, d),
            stamina: if s < 0 {
                0
            } else {
                s
            },
            is_blocking: false,
            ..m
        }
    } else {
        m
    }
}

/// Apply block start/end requests: starting is gated by "not rolling, not
/// exhausted", and a roll in progress or an end request forces blocking off.
pub open spec fn step_block(m: PlayerModel, start: bool, end: bool) -> PlayerModel {
    let m1 = if start && !m.is_rolling && !m.exhausted {
        PlayerModel { is_blocking: true, ..m }
    } else {
        m
    };
    if end || m1.is_rolling {
        PlayerModel { is_blocking: false, ..m1 }
    } else {
        m1
    }
}

/// Charge block upkeep: blocking drains stamina at its per-second rate, and
/// depletion to zero forces exhaustion and ends the block.
pub open spec fn step_block_stamina(cfg: Player, m: PlayerModel, dt: int) -> PlayerModel {
    if m.is_blocking {
        let s = m.stamina - fp_mul_spec(cfg.block_stamina_cost_per_sec as int, dt);
        if s <= 0 {
            PlayerModel {
                stamina: 0,
                exhausted: true,
                exhaustion_timer: EXHAUSTION_LOCKOUT as int,
                is_blocking: false,
                ..m
            }
        } else {
            PlayerModel { stamina: s, ..m }
        }
    } else {
        m
    }
}

/// Whether a sprint request is honored this tick.
pub open spec fn sprint_honored(m: PlayerModel, requested: bool) -> bool {
    !m.is_rolling && !m.is_blocking && requested && !m.exhausted && m.stamina > 0
}

/// Resolve sprinting: an honored sprint runs at `run_speed` and drains
/// stamina, with depletion forcing exhaustion; otherwise the speed falls back
/// to walking (scaled by the block penalty while blocking and movable), the
/// exhaustion timer counts down, and stamina regenerates while no ability
/// uses it.
pub open spec fn step_sprint(cfg: Player, m: PlayerModel, requested: bool, dt: int) -> PlayerModel {
    if sprint_honored(m, requested) {
        let s = m.stamina - fp_mul_spec(cfg.stamina_use_rate as int, dt);
        if s <= 0 {
            PlayerModel {
                is_sprinting: true,
                current_speed: cfg.run_speed as int,
                stamina: 0,
                exhausted: true,
                exhaustion_timer: EXHAUSTION_LOCKOUT as int,
                ..m
            }
        } else {
            PlayerModel {
                is_sprinting: true,
                current_speed: cfg.run_speed as int,
                stamina: s,
                ..m
            }
        }
    } else if !m.is_rolling {
        let speed = if m.is_blocking && cfg.can_move_while_blocking {
            fp_mul_spec(cfg.walk_speed as int, cfg.block_movement_penalty as int)
        } else if !m.is_blocking {
            cfg.walk_speed as int
        } else {
            m.current_speed
        };
        let m1 = PlayerModel { is_sprinting: false, current_speed: speed, ..m };
        if m1.exhausted {
            if m1.exhaustion_timer - dt <= 0 {
                PlayerModel { exhausted: false, exhaustion_timer: 0, ..m1 }
            } else {
                PlayerModel { exhaustion_timer: m1.exhaustion_timer - dt, ..m1 }
            }
        } else if !requested && !m1.is_blocking && m1.stamina < cfg.max_stamina as int {
            let s = m1.stamina + fp_mul_spec(cfg.stamina_regen_rate as int, dt);
            PlayerModel {
                stamina: if s > cfg.max_stamina as int {
                    cfg.max_stamina as int
                } else {
                    s
                },
                ..m1
            }
        } else {
            m1
        }
    } else {
        m
    }
}

/// Advance the coyote grace timer while it is running (its arming happens in
/// the physics layer when the player leaves the ground).
pub open spec fn step_coyote(m: PlayerModel, dt: int) -> PlayerModel {
    if m.coyote_timer > 0 {
        PlayerModel {
            coyote_timer: if m.coyote_timer - dt < 0 {
                0
            } else {
                m.coyote_timer - dt
            },
            ..m
        }
    } else {
        m
    }
}

/// The whole per-tick state update, in the order that correctness requires.
pub open spec fn update_states_spec(
    cfg: Player,
    evs: Seq<MovementAction>,
    yaw: AngleBasis,
    dt: int,
) -> PlayerModel {
    let m0 = PlayerModel { is_moving: any_move(evs), ..cfg.state() };
    let m1 = step_roll_timers(cfg, m0, dt);
    let m2 = step_start_roll(cfg, m1, roll_requested(evs), last_roll_dir(evs), yaw);
    let m3 = step_block(m2, block_start_requested(evs), block_end_requested(evs));
    let m4 = step_block_stamina(cfg, m3, dt);
    let m5 = step_sprint(cfg, m4, sprint_requested(evs), dt);
    step_coyote(m5, dt)
}

/// Updates the player's flags, timers and resource pools from this tick's
/// events. `camera_yaw` is the camera's current yaw (for rotating a roll
/// direction into world space) and `dt` the tick length, at most one second.
/// What the event scan found: the richest signal of each kind.
#[derive(Clone, Copy, Debug, PartialEq, Eq, Structural)]
pub struct EventScan {
    /// A nonzero movement input was seen.
    pub is_moving: bool,
    /// A sprinting movement input was seen.
    pub sprint_req: bool,
    /// A roll was requested.
    pub roll_req: bool,
    /// The last requested roll direction (zero when none).
    pub roll_dir: Vec2Fp,
    /// A block start was requested.
    pub block_start: bool,
    /// A block end was requested.
    pub block_end: bool,
}

impl EventScan {
    /// The scan agrees with the event predicates.
    pub open spec fn matches(self, evs: Seq<MovementAction>) -> bool {
        &&& self.is_moving == any_move(evs)
        &&& self.sprint_req == sprint_requested(evs)
        &&& self.roll_req == roll_requested(evs)
        &&& self.roll_dir == last_roll_dir(evs)
        &&& self.block_start == block_start_requested(evs)
        &&& self.block_end == block_end_requested(evs)
    }
}

/// Scans the tick's events for the richest signal of each kind.
fn scan_events(events: &Vec<MovementAction>) -> (r: EventScan)
    requires
        events_wf(events@),
    ensures
        r.matches(events@),
        r.roll_dir.in_range(SCALE as int),
{
    let ghost evs: Seq<MovementAction> = events@;
    let mut r = EventScan {
        is_moving: false,
        sprint_req: false,
        roll_req: false,
        roll_dir: Vec2Fp::new(0, 0),
        block_start: false,
        block_end: false,
    };
    let mut i: usize = 0;
    while i < events.len()
        invariant
            i <= evs.len(),
            evs == events@,
            events_wf(evs),
            r.matches(evs.take(i as int)),
            r.roll_dir.in_range(SCALE as int),
        decreases evs.len() - i,
    {
        proof {
            assert(evs.take(i + 1 as int).drop_last() =~= evs.take(i as int));
            assert(evs.take(i + 1 as int).last() == evs[i as int]);
        }
        match *(&events[i]) {
            MovementAction::Move(d, sprinting) => {
                if !d.is_zero() {
                    r.is_moving = true;
                    if sprinting {
                        r.sprint_req = true;
                    }
                }
            },
            MovementAction::Roll(d) => {
                r.roll_req = true;
                r.roll_dir = d;
            },
            MovementAction::StartBlock => {
                r.block_start = true;
            },
            MovementAction::EndBlock => {
                r.block_end = true;
            },
            MovementAction::Jump => {},
        }
        i = i + 1;
    }
    proof {
        assert(evs.take(evs.len() as int) =~= evs);
    }
    r
}

/// Updates the player's flags, timers and resource pools from this tick's
/// events. `camera_yaw` is the camera's current yaw (for rotating a roll
/// direction into world space) and `dt` the tick length, at most one second.
#[verifier::rlimit(100)]
pub fn update_player_states(
    player: &mut Player,
    events: &Vec<MovementAction>,
    camera_yaw: &AngleBasis,
    dt: i64,
)
    requires
        old(player).wf(),
        camera_yaw.wf(),
        events_wf(events@),
        0 < dt <= SCALE,
    ensures
        final(player).wf(),
        old(player).same_config(*final(player)),
        final(player).movement_direction == old(player).movement_direction,
        final(player).state() == update_states_spec(*old(player), events@, *camera_yaw, dt as int),
{
    let ghost cfg: Player = *player;
    let ghost evs: Seq<MovementAction> = events@;

    // Scan the events for the richest signal of each kind.
    let scan = scan_events(events);
    player.is_moving = scan.is_moving;
    proof {
        assert(player.state() == (PlayerModel { is_moving: any_move(evs), ..cfg.state() }));
    }
    let ghost m0 = PlayerModel { is_moving: any_move(evs), ..cfg.state() };

    roll_timer_phase(player, dt);
    let ghost m1 = step_roll_timers(cfg, m0, dt as int);
    proof {
        assert(player.state() == m1);
    }

    roll_start_phase(player, scan.roll_req, scan.roll_dir, camera_yaw);
    let ghost m2 = step_start_roll(cfg, m1, scan.roll_req, last_roll_dir(evs), *camera_yaw);
    proof {
        assert(player.state() == m2);
    }

    block_phase(player, scan.block_start, scan.block_end);
    let ghost m3 = step_block(m2, block_start_requested(evs), block_end_requested(evs));
    proof {
        assert(player.state() == m3);
    }

    block_stamina_phase(player, dt);
    let ghost m4 = step_block_stamina(cfg, m3, dt as int);
    proof {
        assert(player.state() == m4);
    }

    sprint_phase(player, scan.sprint_req, dt);
    let ghost m5 = step_sprint(cfg, m4, sprint_requested(evs), dt as int);
    proof {
        assert(player.state() == m5);
    }

    coyote_phase(player, dt);
    proof {
        assert(player.state() == step_coyote(m5, dt as int));
        assert(update_states_spec(cfg, evs, *camera_yaw, dt as int) == step_coyote(m5, dt as int));
    }
}

/// Advance the roll in progress, or the cooldown after one.
fn roll_timer_phase(player: &mut Player, dt: i64)
    requires
        old(player).wf(),
        0 < dt <= SCALE,
    ensures
        final(player).wf(),
        old(player).same_config(*final(player)),
        final(player).movement_direction == old(player).movement_direction,
        final(player).state() == step_roll_timers(*old(player), old(player).state(), dt as int),
{
    if player.is_rolling {
        if player.roll_timer <= dt {
            player.is_rolling = false;
            player.roll_timer = 0;
            player.roll_cooldown_timer = player.roll_cooldown;
            player.can_roll = false;
        } else {
            player.roll_timer = player.roll_timer - dt;
        }
    } else if !player.can_roll {
        if player.roll_cooldown_timer <= dt {
            player.can_roll = true;
            player.roll_cooldown_timer = 0;
        } else {
            player.roll_cooldown_timer = player.roll_cooldown_timer - dt;
        }
    }
}

/// Start a requested roll if it is allowed and affordable.
fn roll_start_phase(player: &mut Player, roll_req: bool, roll_dir: Vec2Fp, camera_yaw: &AngleBasis)
    requires
        old(player).wf(),
        camera_yaw.wf(),
        roll_dir.in_range(SCALE as int),
    ensures
        final(player).wf(),
        old(player).same_config(*final(player)),
        final(player).movement_direction == old(player).movement_direction,
        final(player).state() == step_start_roll(
            *old(player),
            old(player).state(),
            roll_req,
            roll_dir,
            *camera_yaw,
        ),
{
    if roll_req && player.can_roll && !player.is_rolling && !player.exhausted && player.stamina
        >= player.roll_stamina_cost {
        player.is_rolling = true;
        player.roll_timer = player.roll_duration;

        let local_dir = if roll_dir.is_zero() {
            Vec2Fp::new(0, SCALE)
        } else {
            roll_dir
        };
        player.roll_direction = crate::vecs::rotate_input_to_world(camera_yaw, &local_dir);

        player.stamina = player.stamina - player.roll_stamina_cost;
        if player.stamina < 0 {
            player.stamina = 0;
        }
        player.is_blocking = false;
    }
}

/// Apply block start/end requests.
fn block_phase(player: &mut Player, block_start: bool, block_end: bool)
    requires
        old(player).wf(),
    ensures
        final(player).wf(),
        old(player).same_config(*final(player)),
        final(player).movement_direction == old(player).movement_direction,
        final(player).state() == step_block(old(player).state(), block_start, block_end),
{
    if block_start && !player.is_rolling && !player.exhausted {
        player.is_blocking = true;
    }
    if block_end || player.is_rolling {
        player.is_blocking = false;
    }
}

/// Charge block upkeep; depletion to zero forces exhaustion.
fn block_stamina_phase(player: &mut Player, dt: i64)
    requires
        old(player).wf(),
        0 < dt <= SCALE,
    ensures
        final(player).wf(),
        old(player).same_config(*final(player)),
        final(player).movement_direction == old(player).movement_direction,
        final(player).state() == step_block_stamina(*old(player), old(player).state(), dt as int),
{
    if player.is_blocking {
        let upkeep = fp_mul(player.block_stamina_cost_per_sec, dt);
        proof {
            lemma_fp_mul_between(old(player).block_stamina_cost_per_sec as int, dt as int);
        }
        player.stamina = player.stamina - upkeep;
        if player.stamina <= 0 {
            player.stamina = 0;
            player.exhausted = true;
            player.exhaustion_timer = EXHAUSTION_LOCKOUT;
            player.is_blocking = false;
        }
    }
}

/// Resolve sprinting, exhaustion and regeneration.
fn sprint_phase(player: &mut Player, sprint_req: bool, dt: i64)
    requires
        old(player).wf(),
        0 < dt <= SCALE,
    ensures
        final(player).wf(),
        old(player).same_config(*final(player)),
        final(player).movement_direction == old(player).movement_direction,
        final(player).state() == step_sprint(*old(player), old(player).state(), sprint_req, dt as int),
{
    if !player.is_rolling && !player.is_blocking && sprint_req && !player.exhausted
        && player.stamina > 0 {
        player.is_sprinting = true;
        player.current_speed = player.run_speed;

        let usage = fp_mul(player.stamina_use_rate, dt);
        proof {
            lemma_fp_mul_between(old(player).stamina_use_rate as int, dt as int);
        }
        player.stamina = player.stamina - usage;
        if player.stamina <= 0 {
            player.stamina = 0;
            player.exhausted = true;
            player.exhaustion_timer = EXHAUSTION_LOCKOUT;
        }
    } else if !player.is_rolling {
        player.is_sprinting = false;
        if player.is_blocking && player.can_move_while_blocking {
            let penalized = fp_mul(player.walk_speed, player.block_movement_penalty);
            proof {
                lemma_fp_mul_between(
                    old(player).walk_speed as int,
                    old(player).block_movement_penalty as int,
                );
            }
            player.current_speed = penalized;
        } else if !player.is_blocking {
            player.current_speed = player.walk_speed;
        }
        if player.exhausted {
            if player.exhaustion_timer <= dt {
                player.exhausted = false;
                player.exhaustion_timer = 0;
            } else {
                player.exhaustion_timer = player.exhaustion_timer - dt;
            }
        } else if !sprint_req && !player.is_blocking && player.stamina < player.max_stamina {
            let regen = fp_mul(player.stamina_regen_rate, dt);
            proof {
                lemma_fp_mul_between(old(player).stamina_regen_rate as int, dt as int);
            }
            player.stamina = player.stamina + regen;
            if player.stamina > player.max_stamina {
                player.stamina = player.max_stamina;
            }
        }
    }
}

/// Advance the coyote grace timer.
fn coyote_phase(player: &mut Player, dt: i64)
    requires
        old(player).wf(),
        0 < dt <= SCALE,
    ensures
        final(player).wf(),
        old(player).same_config(*final(player)),
        final(player).movement_direction == old(player).movement_direction,
        final(player).state() == step_coyote(old(player).state(), dt as int),
{
    if player.coyote_timer > 0 {
        if player.coyote_timer <= dt {
            player.coyote_timer = 0;
        } else {
            player.coyote_timer = player.coyote_timer - dt;
        }
    }
}

/// Stamina invariant: whatever this tick's events are, the update keeps
/// stamina within `[0, max_stamina]`.
pub proof fn lemma_stamina_invariant(
    cfg: Player,
    evs: Seq<MovementAction>,
    yaw: AngleBasis,
    dt: int,
)
    requires
        cfg.wf(),
        0 < dt <= SCALE,
    ensures
        0 <= update_states_spec(cfg, evs, yaw, dt).stamina <= cfg.max_stamina,
{
    lemma_fp_mul_between(cfg.block_stamina_cost_per_sec as int, dt);
    lemma_fp_mul_between(cfg.stamina_use_rate as int, dt);
    lemma_fp_mul_between(cfg.stamina_regen_rate as int, dt);
}

/// Roll cooldown sequencing: a roll that completes this tick disallows
/// rolling and arms the cooldown; while the cooldown still runs, a roll
/// request is ignored; once it has run down, rolling is allowed again.
pub proof fn lemma_roll_cooldown_sequencing(
    cfg: Player,
    evs: Seq<MovementAction>,
    yaw: AngleBasis,
    dt: int,
)
    requires
        cfg.wf(),
        0 < dt <= SCALE,
    ensures
        cfg.is_rolling && cfg.roll_timer <= dt ==> {
            let m = update_states_spec(cfg, evs, yaw, dt);
            !m.is_rolling && !m.can_roll && m.roll_cooldown_timer == cfg.roll_cooldown
        },
        !cfg.is_rolling && !cfg.can_roll && cfg.roll_cooldown_timer > dt ==> {
            let m = update_states_spec(cfg, evs, yaw, dt);
            !m.is_rolling && !m.can_roll && m.roll_cooldown_timer == cfg.roll_cooldown_timer - dt
        },
        !cfg.is_rolling && !cfg.can_roll && cfg.roll_cooldown_timer <= dt ==> update_states_spec(
            cfg,
            evs,
            yaw,
            dt,
        ).can_roll,
{
}

/// A roll request that stamina cannot cover is rejected: a player who is not
/// rolling and cannot afford the cost is still not rolling after the update.
pub proof fn lemma_roll_requires_stamina(
    cfg: Player,
    evs: Seq<MovementAction>,
    yaw: AngleBasis,
    dt: int,
)
    requires
        cfg.wf(),
        0 < dt <= SCALE,
        !cfg.is_rolling,
        cfg.stamina < cfg.roll_stamina_cost,
    ensures
        !update_states_spec(cfg, evs, yaw, dt).is_rolling,
        update_states_spec(cfg, evs, yaw, dt).roll_direction_x == cfg.roll_direction.x,
        update_states_spec(cfg, evs, yaw, dt).roll_direction_z == cfg.roll_direction.z,
{
}

/// Exhaustion lockout: an honored sprint that drains the last stamina sets
/// `exhausted`; while the lockout timer runs, sprint and block requests are
/// rejected; once it has run down, the lockout ends.
pub proof fn lemma_exhaustion_lockout(
    cfg: Player,
    evs: Seq<MovementAction>,
    yaw: AngleBasis,
    dt: int,
)
    requires
        cfg.wf(),
        0 < dt <= SCALE,
        !cfg.is_rolling,
        !cfg.is_blocking,
        !roll_requested(evs),
    ensures
        !cfg.exhausted && sprint_requested(evs) && !block_start_requested(evs) && cfg.stamina > 0
            && fp_mul_spec(cfg.stamina_use_rate as int, dt) >= cfg.stamina ==> {
            let m = update_states_spec(cfg, evs, yaw, dt);
            m.exhausted && m.stamina == 0 && m.exhaustion_timer == EXHAUSTION_LOCKOUT
        },
        cfg.exhausted && cfg.exhaustion_timer > dt ==> {
            let m = update_states_spec(cfg, evs, yaw, dt);
            !m.is_sprinting && !m.is_blocking && m.exhausted && m.exhaustion_timer
                == cfg.exhaustion_timer - dt
        },
        cfg.exhausted && cfg.exhaustion_timer <= dt ==> {
            let m = update_states_spec(cfg, evs, yaw, dt);
            !m.exhausted && m.exhaustion_timer == 0
        },
{
    lemma_fp_mul_between(cfg.block_stamina_cost_per_sec as int, dt);
    lemma_fp_mul_between(cfg.stamina_use_rate as int, dt);
    lemma_fp_mul_between(cfg.stamina_regen_rate as int, dt);
}

} // verus!
