use squeeze_core::game_state::advance_to_playing_on_connected_and_replication;
use squeeze_core::game_state::GameState;
use squeeze_core::input::{fire_weapon_action, ActionState, PlayerAction};
use squeeze_core::player::{player_actions, Thruster, Velocity, PLAYER_TURN_RATE};
use squeeze_core::powerup::Debuff;
use squeeze_core::weapons::{Weapon, WeaponType};

#[test]
fn thruster_ramps_and_stays_clamped() {
    let mut t = Thruster::default();
    t.update(true, false, 300);
    assert_eq!(t.val_milli, 300);
    t.update(true, false, 900);
    assert_eq!(t.val_milli, 1000); // clamped at full strength
    t.update(false, false, 250);
    assert_eq!(t.val_milli, 750);
    t.update(true, true, 800); // slowed players cannot thrust
    assert_eq!(t.val_milli, 0); // and never below zero
}

#[test]
fn thrust_accelerates_along_the_facing_unless_slowed() {
    let mut v = Velocity::default();
    let mut actions = ActionState::default();
    actions.press(PlayerAction::Thrust);

    // facing straight up, 100 ms at 50 units per second squared: 5 units
    let thrusted = player_actions(&mut v, &actions, None, 0, 1000, 100);
    assert!(thrusted);
    assert_eq!(v.linvel_x_milli, 0);
    assert_eq!(v.linvel_y_milli, 5_000);

    let before = v.linvel_y_milli;
    let thrusted = player_actions(&mut v, &actions, Some(Debuff::Slowed), 0, 1000, 100);
    assert!(!thrusted);
    assert_eq!(v.linvel_y_milli, before);
}

#[test]
fn turning_sets_the_spin_right_wins_and_idle_stops() {
    let mut v = Velocity::default();
    let mut actions = ActionState::default();
    actions.press(PlayerAction::TurnLeft);
    player_actions(&mut v, &actions, None, 0, 1000, 16);
    assert_eq!(v.angvel_milli, PLAYER_TURN_RATE * 16);

    actions.press(PlayerAction::TurnRight); // both held: right is checked first
    player_actions(&mut v, &actions, None, 0, 1000, 16);
    assert_eq!(v.angvel_milli, -(PLAYER_TURN_RATE * 16));

    let idle = ActionState::default();
    player_actions(&mut v, &idle, None, 0, 1000, 16);
    assert_eq!(v.angvel_milli, 0);
}

#[test]
fn the_trigger_only_fires_while_shoot_is_held() {
    let mut w = Weapon::new(WeaponType::Laser { fire_rate_milli: 1000 });
    let idle = ActionState::default();
    assert!(fire_weapon_action(&mut w, &idle, 5_000).is_none());
    assert_eq!(w.last_fire_ms, 0);

    let mut shooting = ActionState::default();
    shooting.press(PlayerAction::Shoot);
    let plan = fire_weapon_action(&mut w, &shooting, 5_000).expect("held shoot fires");
    assert_eq!(plan.offsets_milli_rad, vec![0]);
    assert_eq!(w.last_fire_ms, 5_000);
    assert!(fire_weapon_action(&mut w, &shooting, 5_500).is_none());

    // a scattergun fired through the same system spreads its full pellet count
    let mut sg = Weapon::new(WeaponType::Scattergun { fire_rate_milli: 1000, count: 4 });
    let plan = fire_weapon_action(&mut sg, &shooting, 9_000).expect("scattergun fires");
    assert_eq!(plan.offsets_milli_rad.len(), 4);
    assert_eq!(sg.weapon_type, WeaponType::Scattergun { fire_rate_milli: 1000, count: 4 });
}

#[test]
fn clients_enter_play_once_connected_and_replicated() {
    assert_eq!(
        advance_to_playing_on_connected_and_replication(true, 3),
        Some(GameState::Playing)
    );
    assert_eq!(advance_to_playing_on_connected_and_replication(true, 0), None);
    assert_eq!(advance_to_playing_on_connected_and_replication(false, 3), None);
}
