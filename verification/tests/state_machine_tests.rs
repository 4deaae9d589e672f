use controller_core::fixed::SCALE;
use controller_core::input::MovementAction;
use controller_core::player::Player;
use controller_core::states::update_player_states;
use controller_core::vecs::{AngleBasis, Vec2Fp};

fn forward_move(sprint: bool) -> MovementAction {
    MovementAction::Move(Vec2Fp::new(0, SCALE), sprint)
}

const DT: i64 = 1_000; // one sixtieth of a second

#[test]
fn default_player_values() {
    let p = Player::default();
    assert_eq!(p.walk_speed, 12_000_000); // 200.0
    assert_eq!(p.run_speed, 21_000_000); // 350.0
    assert_eq!(p.current_speed, 12_000_000);
    assert_eq!(p.stamina, 6_000_000); // 100.0
    assert_eq!(p.max_stamina, 6_000_000);
    assert_eq!(p.stamina_use_rate, 900_000); // 15.0 per second
    assert_eq!(p.stamina_regen_rate, 1_800_000); // 30.0 per second
    assert_eq!(p.roll_stamina_cost, 1_200_000); // 20.0
    assert_eq!(p.block_stamina_cost_per_sec, 300_000); // 5.0 per second
    assert_eq!(p.roll_duration, 6_000); // 0.1 s
    assert_eq!(p.roll_cooldown, 30_000); // 0.5 s
    assert_eq!(p.coyote_time, 6_000); // 0.1 s
    assert!(p.can_roll);
    assert!(!p.is_rolling && !p.is_blocking && !p.is_sprinting && !p.exhausted);
}

#[test]
fn sprint_drains_stamina_to_ten_in_six_seconds() {
    // walk 200, run 350, use rate 15/s, max 100: six seconds of sprinting
    // drain 100 - 15*6 = 10.
    let mut p = Player::default();
    let yaw = AngleBasis::zero();
    let events = vec![forward_move(true)];
    for _ in 0..360 {
        update_player_states(&mut p, &events, &yaw, DT);
        assert!(p.is_sprinting);
        assert_eq!(p.current_speed, 21_000_000);
    }
    assert_eq!(p.stamina, 600_000); // exactly 10.0
    assert!(!p.exhausted);

    // Two thirds of a second more empties the pool and trips exhaustion.
    for _ in 0..40 {
        assert!(!p.exhausted);
        update_player_states(&mut p, &events, &yaw, DT);
    }
    assert_eq!(p.stamina, 0);
    assert!(p.exhausted);
    assert_eq!(p.exhaustion_timer, 60_000); // one second lockout

    // While exhausted the sprint request is rejected.
    update_player_states(&mut p, &events, &yaw, DT);
    assert!(!p.is_sprinting);
    assert_eq!(p.current_speed, 12_000_000);
}

#[test]
fn roll_rejected_when_stamina_below_cost() {
    // roll cost 20, stamina 15: the request must be ignored.
    let mut p = Player::default();
    p.stamina = 900_000; // 15.0
    let yaw = AngleBasis::zero();
    let events = vec![MovementAction::Roll(Vec2Fp::new(0, SCALE))];
    update_player_states(&mut p, &events, &yaw, DT);
    assert!(!p.is_rolling);
    assert_eq!(p.roll_timer, 0);
    // The tick still regenerates stamina (nothing is using it): +30/60 = 0.5.
    assert_eq!(p.stamina, 930_000);
}

#[test]
fn roll_starts_and_costs_stamina() {
    let mut p = Player::default();
    let yaw = AngleBasis::zero();
    let events = vec![MovementAction::Roll(Vec2Fp::new(0, SCALE))];
    update_player_states(&mut p, &events, &yaw, DT);
    assert!(p.is_rolling);
    assert_eq!(p.roll_timer, 6_000);
    assert_eq!(p.stamina, 4_800_000); // 100 - 20 = 80
    // Rolling forward with the camera at yaw zero points along negative z.
    assert_eq!(p.roll_direction.x, 0);
    assert_eq!(p.roll_direction.y, 0);
    assert_eq!(p.roll_direction.z, -SCALE);
}

#[test]
fn roll_cooldown_blocks_and_then_allows_rolling() {
    let mut p = Player::default();
    let yaw = AngleBasis::zero();
    let roll = vec![MovementAction::Roll(Vec2Fp::new(0, SCALE))];
    let none: Vec<MovementAction> = vec![];

    update_player_states(&mut p, &roll, &yaw, DT);
    assert!(p.is_rolling);

    // The roll runs out: the cooldown is armed and rolling disallowed.
    update_player_states(&mut p, &none, &yaw, 6_000);
    assert!(!p.is_rolling);
    assert!(!p.can_roll);
    assert_eq!(p.roll_cooldown_timer, 30_000);

    // A roll request during the cooldown is ignored.
    update_player_states(&mut p, &roll, &yaw, DT);
    assert!(!p.is_rolling);
    assert!(!p.can_roll);
    assert_eq!(p.roll_cooldown_timer, 29_000);

    // Once the cooldown has run down, the same request is honored again.
    update_player_states(&mut p, &roll, &yaw, 29_000);
    assert!(p.can_roll);
    assert!(p.is_rolling);
}

#[test]
fn blocking_drains_stamina_and_slows_movement() {
    let mut p = Player::default();
    let yaw = AngleBasis::zero();
    update_player_states(&mut p, &vec![MovementAction::StartBlock], &yaw, DT);
    assert!(p.is_blocking);
    assert_eq!(p.stamina, 5_995_000); // minus 5/60
    assert_eq!(p.current_speed, 6_000_000); // walking at half speed

    update_player_states(&mut p, &vec![MovementAction::EndBlock], &yaw, DT);
    assert!(!p.is_blocking);
}

#[test]
fn block_depletion_forces_exhaustion_and_ends_block() {
    let mut p = Player::default();
    p.stamina = 4_000; // less than one tick of upkeep (5_000)
    let yaw = AngleBasis::zero();
    update_player_states(&mut p, &vec![MovementAction::StartBlock], &yaw, DT);
    assert!(!p.is_blocking);
    assert!(p.exhausted);
    assert_eq!(p.stamina, 0);
    // The lockout was armed at one second and already ticked once.
    assert_eq!(p.exhaustion_timer, 59_000);
}

#[test]
fn exhaustion_clears_after_lockout() {
    let mut p = Player::default();
    p.exhausted = true;
    p.exhaustion_timer = 60_000;
    p.stamina = 0;
    let yaw = AngleBasis::zero();
    let none: Vec<MovementAction> = vec![];
    for _ in 0..59 {
        update_player_states(&mut p, &none, &yaw, DT);
        assert!(p.exhausted);
    }
    update_player_states(&mut p, &none, &yaw, DT);
    assert!(!p.exhausted);
    assert_eq!(p.exhaustion_timer, 0);
}

#[test]
fn regeneration_clamps_at_maximum() {
    let mut p = Player::default();
    p.stamina = 5_990_000; // 0.5 per tick would overshoot
    let yaw = AngleBasis::zero();
    let none: Vec<MovementAction> = vec![];
    update_player_states(&mut p, &none, &yaw, DT);
    assert_eq!(p.stamina, 6_000_000);
    update_player_states(&mut p, &none, &yaw, DT);
    assert_eq!(p.stamina, 6_000_000);
}

#[test]
fn roll_forces_blocking_off() {
    let mut p = Player::default();
    p.is_blocking = true;
    let yaw = AngleBasis::zero();
    let events = vec![MovementAction::Roll(Vec2Fp::new(0, SCALE))];
    update_player_states(&mut p, &events, &yaw, DT);
    assert!(p.is_rolling);
    assert!(!p.is_blocking);
}

#[test]
fn coyote_timer_counts_down_in_state_update() {
    let mut p = Player::default();
    p.coyote_timer = 2_500;
    let yaw = AngleBasis::zero();
    let none: Vec<MovementAction> = vec![];
    update_player_states(&mut p, &none, &yaw, DT);
    assert_eq!(p.coyote_timer, 1_500);
    update_player_states(&mut p, &none, &yaw, DT);
    assert_eq!(p.coyote_timer, 500);
    update_player_states(&mut p, &none, &yaw, DT);
    assert_eq!(p.coyote_timer, 0);
}
