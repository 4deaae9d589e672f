//! The character controller's components: the marker, its tuning values,
//! and the entity description that assembles them in one call.

use vstd::prelude::*;

verus! {

use crate::fixed::{SCALE};
use crate::player::CFG_MAX;
use crate::vecs::{up_spec, Vec3Fp};

/// A fixed-point angle of half a turn (pi radians), the largest angle a
/// surface normal can make with vertical.
pub const PI_FP: i64 = 188_496;

/// A marker indicating that an entity is using a character controller.
#[derive(Clone, Copy, Debug, PartialEq, Eq, Structural)]
pub struct CharacterController;

/// A marker indicating that an entity is on the ground: the ground sensor
/// attaches it while the steepest acceptable contact is walkable.
#[derive(Clone, Copy, Debug, PartialEq, Eq, Structural)]
pub struct Grounded;

/// The maximum angle (fixed-point radians from vertical) a slope can have
/// for the controller to stand and jump on it; steeper ground does not count
/// as grounded.
#[derive(Clone, Copy, Debug, PartialEq, Eq, Structural)]
pub struct MaxSlopeAngle(pub i64);

impl MaxSlopeAngle {
    /// A usable threshold: a positive angle, at most half a turn.
    pub open spec fn wf(self) -> bool {
        0 < self.0 <= PI_FP
    }
}

/// The acceleration used for character movement.
#[derive(Clone, Copy, Debug, PartialEq, Eq, Structural)]
pub struct MovementAcceleration(pub i64);

/// The factor (0 to 1) that horizontal velocity is multiplied by each tick
/// without movement input, to slow the character down.
#[derive(Clone, Copy, Debug, PartialEq, Eq, Structural)]
pub struct MovementDampingFactor(pub i64);

impl MovementDampingFactor {
    /// A damping factor keeps its fraction of the velocity: it lies in
    /// `[0, 1]`.
    pub open spec fn wf(self) -> bool {
        0 <= self.0 <= SCALE
    }
}

/// The upward velocity a jump applies.
#[derive(Clone, Copy, Debug, PartialEq, Eq, Structural)]
pub struct JumpImpulse(pub i64);

impl JumpImpulse {
    pub open spec fn wf(self) -> bool {
        0 <= self.0 <= CFG_MAX
    }
}

/// The smoothed ground normal under the character, blended toward each
/// tick's best contact normal to avoid visual popping.
#[derive(Clone, Copy, Debug, PartialEq, Eq, Structural)]
pub struct GroundNormal(pub Vec3Fp);

impl GroundNormal {
    /// A unit-scale normal.
    pub open spec fn wf(self) -> bool {
        self.0.in_range(SCALE as int)
    }

    /// The initial normal: straight up.
    pub fn new() -> (r: GroundNormal)
        ensures
            r.0 == up_spec(),
            r.wf(),
    {
        GroundNormal(Vec3Fp { x: 0, y: SCALE, z: 0 })
    }

    /// The current smoothed normal.
    pub fn normal(&self) -> (r: Vec3Fp)
        ensures
            r == self.0,
    {
        self.0
    }

    /// Replaces the smoothed normal.
    pub fn set_normal(&mut self, normal: Vec3Fp)
        ensures
            final(self).0 == normal,
    {
        self.0 = normal;
    }
}

/// How the downward ground-sensing shape-cast is configured: the body's
/// collider, slightly shrunk, swept down a short distance, reporting several
/// hits so the best contact can be chosen.
#[derive(Clone, Copy, Debug, PartialEq, Eq, Structural)]
pub struct ShapeCasterConfig {
    /// The caster shape's scale relative to the body collider (just under 1).
    pub shape_scale: i64,
    /// How far down the cast sweeps.
    pub max_distance: i64,
    /// How many hits the cast may report.
    pub max_hits: u32,
}

/// A complete character-controller entity description: the marker, the
/// ground-sensing cast configuration, and the movement tuning. The physics
/// engine around the library turns it into a dynamic body with locked
/// rotation and the described caster.
#[derive(Clone, Copy, Debug, PartialEq, Eq, Structural)]
pub struct CharacterBundle {
    pub controller: CharacterController,
    pub caster: ShapeCasterConfig,
    pub acceleration: MovementAcceleration,
    pub damping: MovementDampingFactor,
    pub jump_impulse: JumpImpulse,
    pub max_slope_angle: MaxSlopeAngle,
    pub ground_normal: GroundNormal,
}

impl CharacterBundle {
    pub open spec fn wf(self) -> bool {
        &&& self.damping.wf()
        &&& self.jump_impulse.wf()
        &&& self.max_slope_angle.wf()
        &&& self.ground_normal.wf()
    }
}

/// The ground-sensing cast every controller uses: the collider shrunk to
/// 95%, swept 0.3 units down, keeping up to five hits.
pub open spec fn default_caster() -> ShapeCasterConfig {
    ShapeCasterConfig { shape_scale: 57_000, max_distance: 18_000, max_hits: 5 }
}

impl CharacterController {
    /// A controller with the default movement tuning: acceleration 30,
    /// damping 0.9, jump impulse 7, maximum slope 30 degrees.
    pub fn new() -> (r: CharacterBundle)
        ensures
            r.caster == default_caster(),
            r.acceleration.0 == 1_800_000,
            r.damping.0 == 54_000,
            r.jump_impulse.0 == 420_000,
            r.max_slope_angle.0 == 31_416,
            r.ground_normal.0 == up_spec(),
            r.wf(),
    {
        CharacterBundle {
            controller: CharacterController,
            caster: ShapeCasterConfig { shape_scale: 57_000, max_distance: 18_000, max_hits: 5 },
            acceleration: MovementAcceleration(1_800_000),
            damping: MovementDampingFactor(54_000),
            jump_impulse: JumpImpulse(420_000),
            max_slope_angle: MaxSlopeAngle(31_416),
            ground_normal: GroundNormal::new(),
        }
    }

    /// A controller with the given movement tuning.
    pub fn with_movement(
        acceleration: i64,
        damping: i64,
        jump_impulse: i64,
        max_slope_angle: i64,
    ) -> (r: CharacterBundle)
        requires
            0 <= damping <= SCALE,
            0 <= jump_impulse <= CFG_MAX,
            0 < max_slope_angle <= PI_FP,
        ensures
            r.caster == default_caster(),
            r.acceleration.0 == acceleration,
            r.damping.0 == damping,
            r.jump_impulse.0 == jump_impulse,
            r.max_slope_angle.0 == max_slope_angle,
            r.ground_normal.0 == up_spec(),
            r.wf(),
    {
        CharacterBundle {
            controller: CharacterController,
            caster: ShapeCasterConfig { shape_scale: 57_000, max_distance: 18_000, max_hits: 5 },
            acceleration: MovementAcceleration(acceleration),
            damping: MovementDampingFactor(damping),
            jump_impulse: JumpImpulse(jump_impulse),
            max_slope_angle: MaxSlopeAngle(max_slope_angle),
            ground_normal: GroundNormal::new(),
        }
    }
}

} // verus!
