//! The player: movement configuration, transient flags, resource pools and
//! timers.
//!
//! One live instance exists per session. The state machine
//! ([`crate::states`]) and the physics layer ([`crate::physics`]) mutate it
//! each tick; everything else only reads it.

use vstd::prelude::*;

verus! {

use crate::fixed::SCALE;
use crate::vecs::Vec3Fp;

/// Largest magnitude allowed for a configuration scalar (5 000.0 in real
/// units): speeds, rates, costs, durations and stamina capacity. Keeping the
/// configuration this far under [`crate::fixed::FP_MAX`] leaves room for the
/// products and sums the simulation forms from it.
pub const CFG_MAX: i64 = 300_000_000;

/// How long exhaustion locks sprinting and blocking out once stamina is fully
/// depleted: one second.
pub const EXHAUSTION_LOCKOUT: i64 = 60_000;

/// The player entity's state. All scalars are fixed-point
/// ([`crate::fixed::SCALE`] units per 1.0); durations are in seconds, speeds
/// in world units per second.
#[derive(Clone, Copy, Debug, PartialEq, Eq, Structural)]
pub struct Player {
    /// Whether a nonzero movement input was seen this tick.
    pub is_moving: bool,
    /// The world-space direction of the last movement input, unit length.
    pub movement_direction: Vec3Fp,
    /// Horizontal speed while walking.
    pub walk_speed: i64,
    /// Horizontal speed while sprinting.
    pub run_speed: i64,
    /// The speed movement currently uses (derived each tick).
    pub current_speed: i64,
    /// Whether sprint was honored this tick.
    pub is_sprinting: bool,
    /// Whether a roll is in progress.
    pub is_rolling: bool,
    /// Horizontal speed during a roll.
    pub roll_speed: i64,
    /// How long a roll lasts.
    pub roll_duration: i64,
    /// How long after a roll before the next one is allowed.
    pub roll_cooldown: i64,
    /// Remaining time of the roll in progress.
    pub roll_timer: i64,
    /// Remaining cooldown before rolling is allowed again.
    pub roll_cooldown_timer: i64,
    /// World-space direction of the roll in progress (horizontal).
    pub roll_direction: Vec3Fp,
    /// Whether a new roll may start right now.
    pub can_roll: bool,
    /// Gravity is scaled by this factor while falling, for a snappier jump.
    pub fall_multiplier: i64,
    /// Grace period after leaving the ground during which a jump still works.
    pub coyote_time: i64,
    /// Remaining grace period.
    pub coyote_timer: i64,
    /// Whether a block is being held.
    pub is_blocking: bool,
    /// Whether movement is allowed while blocking.
    pub can_move_while_blocking: bool,
    /// Speed factor (0 to 1) applied while blocking and moving.
    pub block_movement_penalty: i64,
    /// Current stamina, always within `[0, max_stamina]`.
    pub stamina: i64,
    /// Stamina capacity.
    pub max_stamina: i64,
    /// Stamina regained per second while resting.
    pub stamina_regen_rate: i64,
    /// Stamina spent per second while sprinting.
    pub stamina_use_rate: i64,
    /// Whether stamina depletion currently locks sprint and block out.
    pub exhausted: bool,
    /// Remaining lockout time.
    pub exhaustion_timer: i64,
    /// Flat stamina cost of one roll.
    pub roll_stamina_cost: i64,
    /// Stamina spent per second while blocking.
    pub block_stamina_cost_per_sec: i64,
}

impl Player {
    /// A configuration scalar: nonnegative and at most [`CFG_MAX`].
    pub open spec fn cfg_scalar(x: int) -> bool {
        0 <= x <= CFG_MAX
    }

    /// Well-formedness: the configuration is in range, the resource pools and
    /// timers sit within their defining intervals, and the cached directions
    /// are bounded.
    pub open spec fn wf(self) -> bool {
        &&& Self::cfg_scalar(self.walk_speed as int)
        &&& Self::cfg_scalar(self.run_speed as int)
        &&& Self::cfg_scalar(self.current_speed as int)
        &&& Self::cfg_scalar(self.roll_speed as int)
        &&& Self::cfg_scalar(self.roll_duration as int)
        &&& Self::cfg_scalar(self.roll_cooldown as int)
        &&& Self::cfg_scalar(self.fall_multiplier as int)
        &&& Self::cfg_scalar(self.coyote_time as int)
        &&& Self::cfg_scalar(self.max_stamina as int)
        &&& Self::cfg_scalar(self.stamina_regen_rate as int)
        &&& Self::cfg_scalar(self.stamina_use_rate as int)
        &&& Self::cfg_scalar(self.roll_stamina_cost as int)
        &&& Self::cfg_scalar(self.block_stamina_cost_per_sec as int)
        &&& 0 <= self.block_movement_penalty <= SCALE
        &&& 0 <= self.stamina <= self.max_stamina
        &&& 0 <= self.roll_timer <= self.roll_duration
        &&& 0 <= self.roll_cooldown_timer <= self.roll_cooldown
        &&& 0 <= self.exhaustion_timer <= EXHAUSTION_LOCKOUT
        &&& 0 <= self.coyote_timer <= self.coyote_time
        &&& self.roll_direction.in_range(2 * SCALE as int)
        &&& self.movement_direction.in_range(SCALE as int)
    }

    /// The starting state: full stamina, standing still, every ability
    /// available.
    pub open spec fn initial() -> Player {
        Player {
            is_moving: false,
            movement_direction: Vec3Fp { x: 0, y: 0, z: 0 },
            walk_speed: 12_000_000,  // 200.0
            run_speed: 21_000_000,  // 350.0
            current_speed: 12_000_000,
            is_sprinting: false,
            is_rolling: false,
            roll_speed: 60_000_000,  // 1000.0
            roll_duration: 6_000,  // 0.1 s
            roll_cooldown: 30_000,  // 0.5 s
            roll_timer: 0,
            roll_cooldown_timer: 0,
            roll_direction: Vec3Fp { x: 0, y: 0, z: 0 },
            can_roll: true,
            fall_multiplier: 150_000,  // 2.5
            coyote_time: 6_000,  // 0.1 s
            coyote_timer: 0,
            is_blocking: false,
            can_move_while_blocking: true,
            block_movement_penalty: 30_000,  // half speed
            stamina: 6_000_000,  // 100.0
            max_stamina: 6_000_000,
            stamina_regen_rate: 1_800_000,  // 30.0 per second
            stamina_use_rate: 900_000,  // 15.0 per second
            exhausted: false,
            exhaustion_timer: 0,
            roll_stamina_cost: 1_200_000,  // 20.0
            block_stamina_cost_per_sec: 300_000,  // 5.0 per second
        }
    }

    /// The two states agree on every configuration field and on the cached
    /// movement direction; only transient flags, timers and pools may differ.
    pub open spec fn same_config(self, other: Player) -> bool {
        &&& self.walk_speed == other.walk_speed
        &&& self.run_speed == other.run_speed
        &&& self.roll_speed == other.roll_speed
        &&& self.roll_duration == other.roll_duration
        &&& self.roll_cooldown == other.roll_cooldown
        &&& self.fall_multiplier == other.fall_multiplier
        &&& self.coyote_time == other.coyote_time
        &&& self.can_move_while_blocking == other.can_move_while_blocking
        &&& self.block_movement_penalty == other.block_movement_penalty
        &&& self.max_stamina == other.max_stamina
        &&& self.stamina_regen_rate == other.stamina_regen_rate
        &&& self.stamina_use_rate == other.stamina_use_rate
        &&& self.roll_stamina_cost == other.roll_stamina_cost
        &&& self.block_stamina_cost_per_sec == other.block_stamina_cost_per_sec
    }
}

impl Default for Player {
    /// The default tuning of the prototype.
    fn default() -> (r: Player)
        ensures
            r == Player::initial(),
            r.wf(),
    {
        Player {
            is_moving: false,
            movement_direction: Vec3Fp { x: 0, y: 0, z: 0 },
            walk_speed: 12_000_000,
            run_speed: 21_000_000,
            current_speed: 12_000_000,
            is_sprinting: false,
            is_rolling: false,
            roll_speed: 60_000_000,
            roll_duration: 6_000,
            roll_cooldown: 30_000,
            roll_timer: 0,
            roll_cooldown_timer: 0,
            roll_direction: Vec3Fp { x: 0, y: 0, z: 0 },
            can_roll: true,
            fall_multiplier: 150_000,
            coyote_time: 6_000,
            coyote_timer: 0,
            is_blocking: false,
            can_move_while_blocking: true,
            block_movement_penalty: 30_000,
            stamina: 6_000_000,
            max_stamina: 6_000_000,
            stamina_regen_rate: 1_800_000,
            stamina_use_rate: 900_000,
            exhausted: false,
            exhaustion_timer: 0,
            roll_stamina_cost: 1_200_000,
            block_stamina_cost_per_sec: 300_000,
        }
    }
}

} // verus!
