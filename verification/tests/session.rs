use squeeze_core::audio::{SqueezeAudioPlugin, SHOT_RATE_MAX_MILLI, SHOT_RATE_MIN_MILLI};
use squeeze_core::game_state::{
    end_game_last_man_standing, load_state, pregame_listen_for_player_connect,
    return_to_pregame_if_no_clients, update_restart_countdown, CountdownStep, GameEvent, GameState,
    RestartCountdown, RESTART_DELAY_MS,
};
use squeeze_core::input::{process_action_diffs, ActionDiff, ActionState, PlayerAction};
use squeeze_core::matchmaking::{
    absorb_server_list, listen_effects, lobby_for_listen, update_lobby_info,
    update_matchmaking_state, MatchmakingState, RepeatTimer, ServerList, MATCHMAKING_POLL_PERIOD_MS,
};
use squeeze_core::net::{
    apply_message_size_to_channels, cli_session_plan, connect_defaults, connect_effects,
    controls_entity, disconnect_effects, listen_defaults, Channel, IpAddrKind, IpV4, IpV6,
    SessionPlan, CLI_MAX_CLIENTS, DEFAULT_PORT, MAX_MESSAGE_SIZE, PROTOCOL_ID, SERVER_ID,
};
use squeeze_core::player::{despawn_on_player_disconnect, spawn_player, PlayerColor, Players};

#[test]
fn loading_advances_to_the_menu() {
    assert_eq!(load_state(), GameState::MainMenu);
}

#[test]
fn round_ends_exactly_when_one_or_zero_remain() {
    let two = vec![PlayerColor::Red, PlayerColor::Blue];
    assert!(end_game_last_man_standing(&two).is_none());

    let one = vec![PlayerColor::Cyan];
    let (event, next) = end_game_last_man_standing(&one).expect("a lone survivor ends the round");
    assert_eq!(event, GameEvent::RoundWon { winner: PlayerColor::Cyan });
    assert_eq!(next, GameState::PostGame);

    let none: Vec<PlayerColor> = vec![];
    let (event, next) = end_game_last_man_standing(&none).expect("an empty field ends the round");
    assert_eq!(event, GameEvent::Tie);
    assert_eq!(next, GameState::PostGame);
}

#[test]
fn restart_countdown_counts_whole_seconds_up() {
    let c = RestartCountdown::new(10_000);
    assert_eq!(c.restart_at_ms, 10_000 + RESTART_DELAY_MS);
    assert_eq!(
        update_restart_countdown(&c, 10_000),
        CountdownStep::Waiting { seconds_left: 5 }
    );
    assert_eq!(
        update_restart_countdown(&c, 11_001),
        CountdownStep::Waiting { seconds_left: 4 }
    );
    assert_eq!(
        update_restart_countdown(&c, 14_999),
        CountdownStep::Waiting { seconds_left: 1 }
    );
    assert_eq!(update_restart_countdown(&c, 15_000), CountdownStep::RestartNow);
}

#[test]
fn an_empty_server_returns_to_the_lobby() {
    assert_eq!(return_to_pregame_if_no_clients(true, 0), Some(GameState::PreGame));
    assert_eq!(return_to_pregame_if_no_clients(true, 2), None);
    assert_eq!(return_to_pregame_if_no_clients(false, 0), None);
}

#[test]
fn a_connect_in_the_lobby_starts_play() {
    assert_eq!(pregame_listen_for_player_connect(GameState::PreGame), Some(GameState::Playing));
    assert_eq!(pregame_listen_for_player_connect(GameState::Playing), None);
}

#[test]
fn the_registry_pairs_clients_and_colors() {
    let mut players = Players::new();
    assert_eq!(players.available_color(), Some(PlayerColor::Red));

    players.insert(PlayerColor::Red, 100);
    players.insert(PlayerColor::Blue, 200);
    assert_eq!(players.color(100), Some(PlayerColor::Red));
    assert_eq!(players.color(200), Some(PlayerColor::Blue));
    assert_eq!(players.color(300), None);
    assert_eq!(players.client(PlayerColor::Red), Some(100));
    assert_eq!(players.available_color(), Some(PlayerColor::Green));

    // a client changing color gives its old slot up
    players.insert(PlayerColor::Green, 100);
    assert_eq!(players.client(PlayerColor::Red), None);
    assert_eq!(players.color(100), Some(PlayerColor::Green));

    players.remove_client(200);
    assert_eq!(players.client(PlayerColor::Blue), None);

    players.remove_color(PlayerColor::Green);
    assert_eq!(players.color(100), None);

    players.insert(PlayerColor::Orange, 7);
    players.reset();
    assert_eq!(players.color(7), None);
    assert_eq!(players.available_color(), Some(PlayerColor::Red));
}

#[test]
fn all_colors_taken_leaves_none_available() {
    let mut players = Players::new();
    for i in 0..6u64 {
        players.insert(PlayerColor::get(i as usize), 1000 + i);
    }
    assert_eq!(players.available_color(), None);
}

#[test]
fn spawned_players_start_full_and_slow_firing() {
    let mut players = Players::new();
    let spawn = spawn_player(PlayerColor::Blue, 42, &mut players);
    assert_eq!(players.color(42), Some(PlayerColor::Blue));
    assert_eq!(spawn.owner, 42);
    assert_eq!(spawn.health.current, 10_000);
    assert!(spawn.player.powerup.is_none());
    assert_eq!(spawn.weapon.last_fire_ms, 0);
    assert_eq!((spawn.x_milli, spawn.y_milli, spawn.rotation_deg), (-440_000, -350_000, -45));
}

#[test]
fn action_diffs_reach_only_their_owner() {
    let mut states = vec![
        (ActionState::default(), 1u64),
        (ActionState::default(), 2u64),
    ];
    let diffs = vec![
        ActionDiff::Pressed { action: PlayerAction::Thrust, id: 2 },
        ActionDiff::Pressed { action: PlayerAction::Shoot, id: 1 },
        ActionDiff::Released { action: PlayerAction::Thrust, id: 2 },
    ];
    process_action_diffs(&mut states, &diffs);
    assert!(!states[0].0.thrust);
    assert!(states[0].0.shoot);
    assert!(!states[1].0.thrust); // pressed, then released by a later diff
    assert!(!states[1].0.shoot);
}

#[test]
fn pressing_and_releasing_actions_is_exact() {
    let mut s = ActionState::default();
    s.press(PlayerAction::TurnLeft);
    assert!(s.pressed(PlayerAction::TurnLeft));
    assert!(!s.pressed(PlayerAction::TurnRight));
    s.release(PlayerAction::TurnLeft);
    assert!(!s.pressed(PlayerAction::TurnLeft));
}

#[test]
fn global_ipv4_classification_matches_the_special_ranges() {
    let global = |a, b, c, d| IpV4 { a, b, c, d }.is_global_unstable();
    assert!(global(8, 8, 8, 8));
    assert!(global(172, 32, 0, 1));
    assert!(!global(0, 1, 2, 3)); // "this network"
    assert!(!global(10, 0, 0, 1)); // private
    assert!(!global(172, 16, 5, 5)); // private
    assert!(!global(192, 168, 1, 1)); // private
    assert!(!global(100, 64, 0, 1)); // shared
    assert!(!global(127, 0, 0, 1)); // loopback
    assert!(!global(169, 254, 0, 1)); // link local
    assert!(!global(192, 0, 0, 9)); // future protocols
    assert!(!global(203, 0, 113, 7)); // documentation
    assert!(!global(198, 18, 0, 1)); // benchmarking
    assert!(!global(240, 0, 0, 1)); // reserved
    assert!(!global(255, 255, 255, 255)); // broadcast
}

#[test]
fn global_ipv6_classification_matches_the_special_ranges() {
    let seg = |s0, s1, s7| IpV6 { s0, s1, s2: 0, s3: 0, s4: 0, s5: 0, s6: 0, s7 };
    assert!(seg(0x2606, 0x4700, 0x1111).is_global_unstable());
    assert!(!seg(0, 0, 0).is_global_unstable()); // unspecified
    assert!(!seg(0, 0, 1).is_global_unstable()); // loopback
    assert!(!seg(0x2001, 0xdb8, 1).is_global_unstable()); // documentation
    assert!(!seg(0xfe80, 0, 1).is_global_unstable()); // link local
    assert!(!seg(0xfc00, 0, 1).is_global_unstable()); // unique local
    assert!(!seg(0x2001, 2, 0).is_global_unstable()); // protocol assignments
    assert!(seg(0x2001, 1, 1).is_global_unstable()); // port control anycast is reachable
    assert!(seg(0x2001, 0x20, 0).is_global_unstable()); // ORCHID range is reachable
    let mapped = IpV6 { s0: 0, s1: 0, s2: 0, s3: 0, s4: 0, s5: 0xffff, s6: 1, s7: 1 };
    assert!(!mapped.is_global_unstable());
}

#[test]
fn command_line_flags_pick_the_session() {
    let bind = IpAddrKind::V4(IpV4 { a: 0, b: 0, c: 0, d: 0 });
    let public = IpAddrKind::V4(IpV4 { a: 8, b: 8, c: 8, d: 8 });

    let plan = cli_session_plan(Some(public), None, bind, DEFAULT_PORT);
    assert_eq!(
        plan,
        SessionPlan::Server {
            bind,
            public,
            port: DEFAULT_PORT,
            max_clients: CLI_MAX_CLIENTS,
            protocol_id: PROTOCOL_ID,
            host_color: PlayerColor::Red,
        }
    );

    let plan = cli_session_plan(None, Some(public), bind, 9000);
    assert_eq!(
        plan,
        SessionPlan::Client { server: public, bind, port: 9000, protocol_id: PROTOCOL_ID }
    );

    assert_eq!(cli_session_plan(None, None, bind, DEFAULT_PORT), SessionPlan::ShowGui);
}

#[test]
fn unreliable_channels_get_the_message_budget() {
    let mut channels = vec![
        Channel { unreliable: true, max_message_size: 1, packet_budget: 1 },
        Channel { unreliable: false, max_message_size: 7, packet_budget: 9 },
    ];
    apply_message_size_to_channels(&mut channels);
    assert_eq!(channels[0].max_message_size, MAX_MESSAGE_SIZE);
    assert_eq!(channels[0].packet_budget, 2 * MAX_MESSAGE_SIZE);
    assert_eq!(channels[1].max_message_size, 7);
    assert_eq!(channels[1].packet_budget, 9);
}

#[test]
fn connect_and_disconnect_move_the_state_machine() {
    let (state, client_id) = connect_effects(1_700_000_000_123u128);
    assert_eq!(state, GameState::PreGame);
    assert_eq!(client_id, 1_700_000_000_123u64);

    let mut players = Players::new();
    players.insert(PlayerColor::Red, SERVER_ID);
    let next = disconnect_effects(&mut players);
    assert_eq!(next, GameState::MainMenu);
    assert_eq!(players.client(PlayerColor::Red), None);
}

#[test]
fn the_join_form_defaults_to_the_local_host() {
    let (bind, target, port) = connect_defaults();
    assert_eq!(bind, IpAddrKind::V4(IpV4 { a: 0, b: 0, c: 0, d: 0 }));
    assert_eq!(target, IpAddrKind::V4(IpV4 { a: 127, b: 0, c: 0, d: 1 }));
    assert_eq!(port, DEFAULT_PORT);
}

#[test]
fn input_maps_attach_to_what_this_process_controls() {
    assert!(controls_entity(5, Some(5)));
    assert!(!controls_entity(5, Some(6)));
    assert!(controls_entity(SERVER_ID, None));
    assert!(!controls_entity(5, None));
}

#[test]
fn the_poll_timer_fires_once_per_period() {
    let mut t = RepeatTimer::new(MATCHMAKING_POLL_PERIOD_MS);
    assert!(!t.tick(2999));
    assert!(t.tick(1));
    assert_eq!(t.elapsed_ms, 0);
    assert!(t.tick(6500)); // two periods and a half: fires, remainder carries
    assert_eq!(t.elapsed_ms, 500);
}

#[test]
fn matchmaking_posts_when_hosting_and_fetches_in_the_browser() {
    let mut state = MatchmakingState::default();
    // timer has not fired: nothing happens even while hosting
    state.lobby = Some(lobby_for_listen("1.2.3.4".to_string(), "lobby".to_string()));
    let d = update_matchmaking_state(&mut state, 100, true);
    assert!(!d.post_lobby && !d.fetch_list);

    // timer fires: the hosted lobby is posted; the list only in the browser
    let d = update_matchmaking_state(&mut state, 2900, false);
    assert!(d.post_lobby && !d.fetch_list);

    state.lobby = None;
    let d = update_matchmaking_state(&mut state, 3000, true);
    assert!(!d.post_lobby && d.fetch_list);
}

#[test]
fn the_advertised_lobby_tracks_the_player_count() {
    let mut state = MatchmakingState::default();
    state.lobby = Some(lobby_for_listen("1.2.3.4".to_string(), "lobby".to_string()));
    update_lobby_info(&mut state, 3);
    let lobby = state.lobby.as_ref().expect("still advertising");
    assert_eq!(lobby.slots_occupied, 3);
    assert_eq!(lobby.player_capacity, 6);

    // a count matching the advertised occupancy changes nothing
    update_lobby_info(&mut state, 3);
    assert_eq!(state.lobby.as_ref().expect("still advertising").slots_occupied, 3);

    // a lobby that fills to capacity advertises the full count too
    update_lobby_info(&mut state, 6);
    assert_eq!(state.lobby.as_ref().expect("still advertising").slots_occupied, 6);

    // with no lobby the update is a no-op
    let mut idle = MatchmakingState::default();
    update_lobby_info(&mut idle, 3);
    assert!(idle.lobby.is_none());
}

#[test]
fn hosting_advertises_a_fresh_lobby_public_iff_routable() {
    let mut state = MatchmakingState::default();
    let public_ip = IpAddrKind::V4(IpV4 { a: 8, b: 8, c: 8, d: 8 });
    let (next, host) =
        listen_effects(&mut state, &public_ip, "8.8.8.8".to_string(), "my game".to_string());
    assert_eq!(next, GameState::PreGame);
    assert_eq!(host, PlayerColor::Red);
    assert!(state.lobby_public);
    let lobby = state.lobby.as_ref().expect("advertising");
    assert_eq!(lobby.ip, "8.8.8.8");
    assert_eq!(lobby.name, "my game");
    assert_eq!(lobby.slots_occupied, 1);
    assert!(lobby.auto_restart);
    assert!(!lobby.has_password);

    let private_ip = IpAddrKind::V4(IpV4 { a: 192, b: 168, c: 0, d: 2 });
    let mut state = MatchmakingState::default();
    listen_effects(&mut state, &private_ip, "192.168.0.2".to_string(), "lan".to_string());
    assert!(!state.lobby_public);
}

#[test]
fn a_parsed_server_list_replaces_the_shown_one() {
    let mut list = ServerList::default();
    let fetched = vec![(
        "alpha".to_string(),
        lobby_for_listen("1.1.1.1".to_string(), "alpha".to_string()),
    )];
    assert!(absorb_server_list(&mut list, Some(fetched)));
    assert_eq!(list.servers.len(), 1);
    assert_eq!(list.servers[0].0, "alpha");

    // a response that did not parse leaves the last known list standing
    assert!(!absorb_server_list(&mut list, None));
    assert_eq!(list.servers.len(), 1);
}

#[test]
fn the_shot_sound_varies_within_its_band() {
    assert_eq!(SqueezeAudioPlugin::music_track(), "stellar_squeezebox.mp3");
    assert_eq!(SqueezeAudioPlugin::shot_sound(), "laserShoot.mp3");
    for _ in 0..50 {
        let rate = SqueezeAudioPlugin::shot_playback_rate_milli();
        assert!(SHOT_RATE_MIN_MILLI <= rate && rate < SHOT_RATE_MAX_MILLI);
    }
}

#[test]
fn color_names_and_palette_order() {
    assert_eq!(PlayerColor::get(0), PlayerColor::Red);
    assert_eq!(PlayerColor::get(5), PlayerColor::Orange);
    assert_eq!(PlayerColor::get(99), PlayerColor::Red);
    assert_eq!(PlayerColor::Purple.index(), 3);
    assert_eq!(PlayerColor::Cyan.name(), "Cyan");
}

#[test]
fn a_disconnect_frees_the_color_and_lists_its_ships() {
    let mut players = Players::new();
    players.insert(PlayerColor::Red, 10);
    players.insert(PlayerColor::Blue, 20);
    let ships = vec![
        (0usize, PlayerColor::Red),
        (1usize, PlayerColor::Blue),
        (2usize, PlayerColor::Blue),
    ];
    let despawn = despawn_on_player_disconnect(&mut players, 20, &ships);
    assert_eq!(despawn, vec![1, 2]);
    assert_eq!(players.client(PlayerColor::Blue), None);
    assert_eq!(players.color(10), Some(PlayerColor::Red));

    // an unknown client despawns nothing
    let despawn = despawn_on_player_disconnect(&mut players, 999, &ships);
    assert!(despawn.is_empty());
}

#[test]
fn the_host_form_prefers_the_public_address() {
    let public = IpAddrKind::V4(IpV4 { a: 8, b: 8, c: 4, d: 4 });
    let (advertised, bind, port) = listen_defaults(Some(public));
    assert_eq!(advertised, public);
    assert_eq!(bind, IpAddrKind::V4(IpV4 { a: 0, b: 0, c: 0, d: 0 }));
    assert_eq!(port, DEFAULT_PORT);
    let (advertised, _, _) = listen_defaults(None);
    assert_eq!(advertised, IpAddrKind::V4(IpV4 { a: 127, b: 0, c: 0, d: 1 }));
}
