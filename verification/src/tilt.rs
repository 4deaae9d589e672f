//! Visual tilt: the cosmetic decision that leans the character model into
//! slopes.
//!
//! The rotation itself is quaternion work done by the render layer outside
//! the library; what is decided here is whether a tilt is needed at all
//! (flat ground is skipped to avoid needless computation and numerical
//! noise) and how large a fraction of the way toward the slope-aligned
//! rotation this tick's interpolation step covers.

use vstd::prelude::*;

verus! {

use crate::fixed::{fp_mul, fp_mul_spec, lemma_fp_mul_between, SCALE};
use crate::physics::{dist_sq_3, FLAT_EPS_SQ};
use crate::vecs::{up_spec, Vec3Fp};

/// How quickly the player model leans into a slope (8.0 per second).
pub const PLAYER_TILT_RATE: i64 = 480_000;

/// How quickly any other model leans (5.0 per second).
pub const PROP_TILT_RATE: i64 = 300_000;

/// The interpolation rate a model tilts at: the player snaps faster than
/// other entities.
pub open spec fn tilt_rate(is_player: bool) -> int {
    if is_player {
        PLAYER_TILT_RATE as int
    } else {
        PROP_TILT_RATE as int
    }
}

/// Decides this tick's visual tilt from the smoothed ground normal: `None`
/// when the normal is within a small epsilon of vertical (flat ground, no
/// rotation applied), otherwise the fraction of the way toward the
/// slope-aligned rotation to interpolate — the tilt rate times the tick
/// length.
pub fn update_character_visual_tilt(normal: &Vec3Fp, is_player: bool, dt: i64) -> (r: Option<i64>)
    requires
        normal.in_range(SCALE as int),
        0 < dt <= SCALE,
    ensures
        (r is None <==> dist_sq_3(*normal, up_spec()) < FLAT_EPS_SQ),
        r matches Some(step) ==> step == fp_mul_spec(tilt_rate(is_player), dt as int) && 0 <= step
            <= tilt_rate(is_player),
{
    let up = Vec3Fp::up();
    let diff = normal.sub(&up);
    let d2 = diff.length_squared();
    if d2 < FLAT_EPS_SQ {
        return None;
    }
    let rate = if is_player {
        PLAYER_TILT_RATE
    } else {
        PROP_TILT_RATE
    };
    proof {
        lemma_fp_mul_between(rate as int, dt as int);
    }
    Some(fp_mul(rate, dt))
}

} // verus!
