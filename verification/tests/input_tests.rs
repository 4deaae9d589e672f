use controller_core::fixed::SCALE;
use controller_core::game_states::{menu, AppState, ButtonVisual, GameStatePlugin, Interaction};
use controller_core::input::{
    gamepad_input, keyboard_input, GamepadState, KeyboardState, MovementAction, DIAG,
};
use controller_core::player::Player;
use controller_core::tilt::update_character_visual_tilt;
use controller_core::vecs::{Vec2Fp, Vec3Fp};

fn idle_keys() -> KeyboardState {
    KeyboardState {
        up: false,
        down: false,
        left: false,
        right: false,
        sprint: false,
        jump_pressed: false,
        roll_pressed: false,
        block_pressed: false,
        block_released: false,
    }
}

fn idle_pad() -> GamepadState {
    GamepadState {
        stick_x: 0,
        stick_y: 0,
        sprint: false,
        jump_pressed: false,
        roll_pressed: false,
        block_pressed: false,
        block_released: false,
    }
}

#[test]
fn forward_key_gives_unit_move() {
    let mut keys = idle_keys();
    keys.up = true;
    let events = keyboard_input(&keys, &Player::default());
    assert_eq!(events, vec![MovementAction::Move(Vec2Fp::new(0, SCALE), false)]);
}

#[test]
fn diagonal_keys_are_clamped_to_unit_length() {
    let mut keys = idle_keys();
    keys.up = true;
    keys.right = true;
    let events = keyboard_input(&keys, &Player::default());
    assert_eq!(events, vec![MovementAction::Move(Vec2Fp::new(DIAG, DIAG), false)]);
    // The clamped diagonal is not longer than one.
    assert!(2 * DIAG * DIAG <= SCALE * SCALE);
}

#[test]
fn opposed_keys_cancel_out() {
    let mut keys = idle_keys();
    keys.up = true;
    keys.down = true;
    let events = keyboard_input(&keys, &Player::default());
    assert!(events.is_empty());
}

#[test]
fn sprint_flag_rides_on_the_move_event() {
    let mut keys = idle_keys();
    keys.up = true;
    keys.sprint = true;
    let events = keyboard_input(&keys, &Player::default());
    assert_eq!(events, vec![MovementAction::Move(Vec2Fp::new(0, SCALE), true)]);
}

#[test]
fn rolling_player_gets_no_move_or_jump_events() {
    let mut keys = idle_keys();
    keys.up = true;
    keys.jump_pressed = true;
    let mut p = Player::default();
    p.is_rolling = true;
    let events = keyboard_input(&keys, &p);
    assert!(events.is_empty());
}

#[test]
fn roll_key_uses_movement_direction_or_forward() {
    let mut keys = idle_keys();
    keys.roll_pressed = true;
    let events = keyboard_input(&keys, &Player::default());
    // No direction held: the roll falls back to forward.
    assert_eq!(events, vec![MovementAction::Roll(Vec2Fp::new(0, SCALE))]);

    keys.right = true;
    let events = keyboard_input(&keys, &Player::default());
    assert_eq!(
        events,
        vec![
            MovementAction::Move(Vec2Fp::new(SCALE, 0), false),
            MovementAction::Roll(Vec2Fp::new(SCALE, 0)),
        ]
    );
}

#[test]
fn roll_key_is_gated_by_cooldown_and_exhaustion() {
    let mut keys = idle_keys();
    keys.roll_pressed = true;

    let mut on_cooldown = Player::default();
    on_cooldown.can_roll = false;
    assert!(keyboard_input(&keys, &on_cooldown).is_empty());

    let mut tired = Player::default();
    tired.exhausted = true;
    assert!(keyboard_input(&keys, &tired).is_empty());
}

#[test]
fn block_button_edges_become_block_events() {
    let mut keys = idle_keys();
    keys.block_pressed = true;
    let events = keyboard_input(&keys, &Player::default());
    assert_eq!(events, vec![MovementAction::StartBlock]);

    let mut keys = idle_keys();
    keys.block_released = true;
    // Releasing only matters while a block is held.
    assert!(keyboard_input(&keys, &Player::default()).is_empty());
    let mut blocking = Player::default();
    blocking.is_blocking = true;
    let events = keyboard_input(&keys, &blocking);
    assert_eq!(events, vec![MovementAction::EndBlock]);
}

#[test]
fn stick_inside_deadzone_sends_nothing() {
    let mut pad = idle_pad();
    pad.stick_x = 5_000; // 0.083, inside the 0.1 deadzone
    let events = gamepad_input(&vec![pad], &Player::default());
    assert!(events.is_empty());
}

#[test]
fn long_stick_vector_is_clamped_to_unit_length() {
    let mut pad = idle_pad();
    pad.stick_x = SCALE;
    pad.stick_y = SCALE;
    let events = gamepad_input(&vec![pad], &Player::default());
    assert_eq!(events, vec![MovementAction::Move(Vec2Fp::new(42_426, 42_426), false)]);
}

#[test]
fn short_stick_vector_passes_unchanged() {
    let mut pad = idle_pad();
    pad.stick_x = 30_000;
    pad.stick_y = 0;
    pad.sprint = true;
    let events = gamepad_input(&vec![pad], &Player::default());
    assert_eq!(events, vec![MovementAction::Move(Vec2Fp::new(30_000, 0), true)]);
}

#[test]
fn neutral_stick_roll_falls_back_to_forward() {
    let mut pad = idle_pad();
    pad.roll_pressed = true;
    let events = gamepad_input(&vec![pad], &Player::default());
    assert_eq!(events, vec![MovementAction::Roll(Vec2Fp::new(0, SCALE))]);
}

#[test]
fn several_gamepads_contribute_in_order() {
    let mut first = idle_pad();
    first.jump_pressed = true;
    let mut second = idle_pad();
    second.block_pressed = true;
    let events = gamepad_input(&vec![first, second], &Player::default());
    assert_eq!(events, vec![MovementAction::Jump, MovementAction::StartBlock]);
}

#[test]
fn visual_tilt_skips_flat_ground() {
    let up = Vec3Fp::new(0, SCALE, 0);
    assert!(update_character_visual_tilt(&up, true, 1_000).is_none());

    let slope = Vec3Fp::new(30_000, 51_961, 0);
    // The player leans at 8.0 per second, other entities at 5.0.
    assert_eq!(update_character_visual_tilt(&slope, true, 1_000), Some(8_000));
    assert_eq!(update_character_visual_tilt(&slope, false, 1_000), Some(5_000));
}

#[test]
fn menu_press_starts_the_game() {
    assert_eq!(menu(Interaction::Pressed), (ButtonVisual::Pressed, Some(AppState::InGame)));
    assert_eq!(menu(Interaction::Hovered), (ButtonVisual::Hovered, None));
    assert_eq!(menu(Interaction::Idle), (ButtonVisual::Normal, None));
}

#[test]
fn sessions_start_in_the_menu() {
    assert_eq!(AppState::default(), AppState::Menu);
    assert_eq!(GameStatePlugin.initial_state(), AppState::Menu);
}
