//! The input mapper: raw device snapshots become movement-intent events.
//!
//! The device layer outside the library reads the keyboard, mouse and
//! gamepads once per tick (including edge detection for presses and
//! releases) and hands the snapshot in; the mapper turns it into zero or
//! more [`MovementAction`] events, gated by the player's current flags. It
//! never mutates the player itself.

use vstd::prelude::*;

verus! {

use crate::fixed::SCALE;
use crate::player::Player;
use crate::vecs::{clamp_unit_spec, len_sq_2, Vec2Fp};

/// A movement-intent event, consumed the same tick by the state machine and
/// the physics layer.
#[derive(Clone, Copy, Debug, PartialEq, Eq, Structural)]
pub enum MovementAction {
    /// Move in a planar direction (clamped to unit length), sprinting or not.
    Move(Vec2Fp, bool),
    /// Jump.
    Jump,
    /// Roll in a planar direction.
    Roll(Vec2Fp),
    /// Start holding a block.
    StartBlock,
    /// Stop holding a block.
    EndBlock,
}

/// The component of a unit diagonal direction: one over the square root of
/// two, rounded down so that the squared length of a diagonal stays within
/// one.
pub const DIAG: i64 = 42_426;

/// The deadzone of an analog stick: inputs with squared length at most 0.01
/// are ignored.
pub const STICK_DEADZONE_SQ: i64 = 36_000_000;

/// The canonical forward direction, substituted for a missing roll
/// direction.
pub open spec fn forward_input() -> Vec2Fp {
    Vec2Fp { x: 0, y: SCALE }
}

/// One keyboard-and-mouse snapshot: held directional and sprint keys, and
/// the edge-triggered action buttons.
#[derive(Clone, Copy, Debug, PartialEq, Eq, Structural)]
pub struct KeyboardState {
    /// Forward key held.
    pub up: bool,
    /// Backward key held.
    pub down: bool,
    /// Left key held.
    pub left: bool,
    /// Right key held.
    pub right: bool,
    /// Sprint modifier held.
    pub sprint: bool,
    /// Jump key pressed this tick.
    pub jump_pressed: bool,
    /// Roll key pressed this tick.
    pub roll_pressed: bool,
    /// Block button pressed this tick.
    pub block_pressed: bool,
    /// Block button released this tick.
    pub block_released: bool,
}

/// One gamepad snapshot: the left stick and the edge-triggered buttons.
#[derive(Clone, Copy, Debug, PartialEq, Eq, Structural)]
pub struct GamepadState {
    /// Left stick, rightward; a fixed-point value in `[-1, 1]`.
    pub stick_x: i64,
    /// Left stick, forward; a fixed-point value in `[-1, 1]`.
    pub stick_y: i64,
    /// Sprint trigger held.
    pub sprint: bool,
    /// Jump button pressed this tick.
    pub jump_pressed: bool,
    /// Roll button pressed this tick.
    pub roll_pressed: bool,
    /// Block trigger pressed this tick.
    pub block_pressed: bool,
    /// Block trigger released this tick.
    pub block_released: bool,
}

impl GamepadState {
    /// The stick values are within `[-1, 1]`.
    pub open spec fn wf(self) -> bool {
        -SCALE <= self.stick_x <= SCALE && -SCALE <= self.stick_y <= SCALE
    }
}

/// One digital axis: +1 when only the positive key is held, -1 when only the
/// negative one is.
pub open spec fn digital_axis(pos: bool, neg: bool) -> int {
    (if pos {
        1int
    } else {
        0int
    }) - (if neg {
        1int
    } else {
        0int
    })
}

/// The movement direction of a keyboard snapshot: the two digital axes,
/// clamped to unit length (a diagonal has both components at [`DIAG`]).
pub open spec fn keyboard_direction(k: KeyboardState) -> Vec2Fp {
    let h = digital_axis(k.right, k.left);
    let v = digital_axis(k.up, k.down);
    if h != 0 && v != 0 {
        Vec2Fp { x: (h * (DIAG as int)) as i64, y: (v * (DIAG as int)) as i64 }
    } else {
        Vec2Fp { x: (h * (SCALE as int)) as i64, y: (v * (SCALE as int)) as i64 }
    }
}

/// The events a keyboard snapshot produces, in order: a move (with the
/// sprint flag) when there is a nonzero direction and no roll in progress; a
/// jump on its key unless rolling; a roll on its key when allowed, in the
/// movement direction or forward; block start/end on the block button's
/// edges.
pub open spec fn keyboard_events(k: KeyboardState, p: Player) -> Seq<MovementAction> {
    let d = keyboard_direction(k);
    let s0 = Seq::<MovementAction>::empty();
    let s1 = if !d.is_zero_spec() && !p.is_rolling {
        s0.push(MovementAction::Move(d, k.sprint))
    } else {
        s0
    };
    let s2 = if k.jump_pressed && !p.is_rolling {
        s1.push(MovementAction::Jump)
    } else {
        s1
    };
    let s3 = if k.roll_pressed && p.can_roll && !p.is_rolling && !p.exhausted {
        s2.push(
            MovementAction::Roll(
                if d.is_zero_spec() {
                    forward_input()
                } else {
                    d
                },
            ),
        )
    } else {
        s2
    };
    let s4 = if k.block_pressed && !p.is_rolling {
        s3.push(MovementAction::StartBlock)
    } else {
        s3
    };
    if k.block_released && p.is_blocking {
        s4.push(MovementAction::EndBlock)
    } else {
        s4
    }
}

/// Sends [`MovementAction`] events based on a keyboard snapshot.
pub fn keyboard_input(keys: &KeyboardState, player: &Player) -> (r: Vec<MovementAction>)
    ensures
        r@ == keyboard_events(*keys, *player),
{
    let mut out: Vec<MovementAction> = Vec::new();

    let h: i64 = (if keys.right {
        1
    } else {
        0
    }) - (if keys.left {
        1
    } else {
        0
    });
    let v: i64 = (if keys.up {
        1
    } else {
        0
    }) - (if keys.down {
        1
    } else {
        0
    });
    let direction = if h != 0 && v != 0 {
        Vec2Fp::new(h * DIAG, v * DIAG)
    } else {
        Vec2Fp::new(h * SCALE, v * SCALE)
    };
    proof {
        assert(direction == keyboard_direction(*keys));
    }

    if !direction.is_zero() && !player.is_rolling {
        out.push(MovementAction::Move(direction, keys.sprint));
    }
    if keys.jump_pressed && !player.is_rolling {
        out.push(MovementAction::Jump);
    }
    if keys.roll_pressed && player.can_roll && !player.is_rolling && !player.exhausted {
        let roll_direction = if direction.is_zero() {
            Vec2Fp::new(0, SCALE)
        } else {
            direction
        };
        out.push(MovementAction::Roll(roll_direction));
    }
    if keys.block_pressed && !player.is_rolling {
        out.push(MovementAction::StartBlock);
    }
    if keys.block_released && player.is_blocking {
        out.push(MovementAction::EndBlock);
    }
    proof {
        assert(out@ =~= keyboard_events(*keys, *player));
    }
    out
}

/// The events one gamepad produces: a move from the left stick (clamped to
/// unit length) when it is outside the deadzone and no roll is in progress;
/// jump, roll and block from the buttons, gated as on the keyboard; the roll
/// direction falls back to forward when the stick is neutral.
pub open spec fn gamepad_events(g: GamepadState, p: Player) -> Seq<MovementAction> {
    let raw = Vec2Fp { x: g.stick_x, y: g.stick_y };
    let outside = len_sq_2(raw) > STICK_DEADZONE_SQ;
    let s0 = Seq::<MovementAction>::empty();
    let s1 = if outside && !p.is_rolling {
        s0.push(MovementAction::Move(clamp_unit_spec(raw), g.sprint))
    } else {
        s0
    };
    let s2 = if g.jump_pressed && !p.is_rolling {
        s1.push(MovementAction::Jump)
    } else {
        s1
    };
    let s3 = if g.roll_pressed && p.can_roll && !p.is_rolling && !p.exhausted {
        s2.push(
            MovementAction::Roll(
                if outside {
                    clamp_unit_spec(raw)
                } else {
                    forward_input()
                },
            ),
        )
    } else {
        s2
    };
    let s4 = if g.block_pressed && !p.is_rolling {
        s3.push(MovementAction::StartBlock)
    } else {
        s3
    };
    if g.block_released && p.is_blocking {
        s4.push(MovementAction::EndBlock)
    } else {
        s4
    }
}

/// The events of a sequence of gamepads, first pad first.
pub open spec fn gamepads_events(pads: Seq<GamepadState>, p: Player) -> Seq<MovementAction>
    decreases pads.len(),
{
    if pads.len() == 0 {
        Seq::<MovementAction>::empty()
    } else {
        gamepads_events(pads.drop_last(), p) + gamepad_events(pads.last(), p)
    }
}

/// Sends [`MovementAction`] events based on the connected gamepads'
/// snapshots.
pub fn gamepad_input(pads: &Vec<GamepadState>, player: &Player) -> (r: Vec<MovementAction>)
    requires
        forall|i: int| 0 <= i < pads@.len() ==> #[trigger] pads@[i].wf(),
    ensures
        r@ == gamepads_events(pads@, *player),
{
    let mut out: Vec<MovementAction> = Vec::new();
    let mut i: usize = 0;
    while i < pads.len()
        invariant
            i <= pads@.len(),
            forall|j: int| 0 <= j < pads@.len() ==> #[trigger] pads@[j].wf(),
            out@ == gamepads_events(pads@.take(i as int), *player),
        decreases pads@.len() - i,
    {
        let mut evs = one_gamepad_input(&pads[i], player);
        out.append(&mut evs);
        proof {
            assert(pads@.take(i + 1 as int).drop_last() =~= pads@.take(i as int));
            assert(pads@.take(i + 1 as int).last() == pads@[i as int]);
        }
        i = i + 1;
    }
    proof {
        assert(pads@.take(pads@.len() as int) =~= pads@);
    }
    out
}

/// The events of a single gamepad snapshot.
fn one_gamepad_input(pad: &GamepadState, player: &Player) -> (r: Vec<MovementAction>)
    requires
        pad.wf(),
    ensures
        r@ == gamepad_events(*pad, *player),
{
    let mut out: Vec<MovementAction> = Vec::new();
    let raw = Vec2Fp::new(pad.stick_x, pad.stick_y);
    let outside = raw.length_squared() > STICK_DEADZONE_SQ;

    if outside && !player.is_rolling {
        let direction = raw.clamp_unit();
        proof {
            assert(direction == clamp_unit_spec(raw));
        }
        out.push(MovementAction::Move(direction, pad.sprint));
    }
    if pad.jump_pressed && !player.is_rolling {
        out.push(MovementAction::Jump);
    }
    if pad.roll_pressed && player.can_roll && !player.is_rolling && !player.exhausted {
        let roll_direction = if outside {
            let d = raw.clamp_unit();
            proof {
                assert(d == clamp_unit_spec(raw));
            }
            d
        } else {
            Vec2Fp::new(0, SCALE)
        };
        out.push(MovementAction::Roll(roll_direction));
    }
    if pad.block_pressed && !player.is_rolling {
        out.push(MovementAction::StartBlock);
    }
    if pad.block_released && player.is_blocking {
        out.push(MovementAction::EndBlock);
    }
    proof {
        assert(out@ =~= gamepad_events(*pad, *player));
    }
    out
}

} // verus!
