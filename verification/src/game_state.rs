//! The server-authoritative round state machine: Loading, the menu, a
//! pre-game lobby, play, and the post-game countdown back into play.

use vstd::prelude::*;
use crate::player::PlayerColor;

verus! {

/// Milliseconds between the end of a round and the restart.
pub const RESTART_DELAY_MS: u64 = 5000;

#[derive(Clone, Copy, Debug, PartialEq, Eq, Hash, Structural)]
pub enum GameState {
    Loading,
    MainMenu,
    PreGame,
    Playing,
    PostGame,
}

impl Default for GameState {
    fn default() -> (s: Self)
        ensures
            s == GameState::Loading,
    {
        GameState::Loading
    }
}

/// What the server broadcasts to every client when a round turns over.
#[derive(Clone, Copy, Debug, PartialEq, Eq, Structural)]
pub enum GameEvent {
    RoundWon { winner: PlayerColor },
    Tie,
    Restart,
}

/// Loading is over as soon as assets are in: the game advances to the menu.
pub fn load_state() -> (next: GameState)
    ensures
        next == GameState::MainMenu,
{
    GameState::MainMenu
}

/// The round-over rule: a round of play ends exactly when one or zero
/// players remain. A lone survivor wins; an empty field is a tie. With two or
/// more players alive the round goes on.
pub fn end_game_last_man_standing(alive: &Vec<PlayerColor>) -> (r: Option<(GameEvent, GameState)>)
    ensures
        r.is_some() <==> alive@.len() <= 1,
        alive@.len() == 1 ==> r == Some((GameEvent::RoundWon { winner: alive@[0] }, GameState::PostGame)),
        alive@.len() == 0 ==> r == Some((GameEvent::Tie, GameState::PostGame)),
{
    if alive.len() == 1 {
        Some((GameEvent::RoundWon { winner: alive[0] }, GameState::PostGame))
    } else if alive.len() == 0 {
        Some((GameEvent::Tie, GameState::PostGame))
    } else {
        None
    }
}

/// The countdown a finished round starts: the moment play resumes.
#[derive(Clone, Copy, Debug, PartialEq, Eq, Structural)]
pub struct RestartCountdown {
    pub restart_at_ms: u64,
}

impl RestartCountdown {
    pub fn new(now_ms: u64) -> (c: RestartCountdown)
        requires
            now_ms + RESTART_DELAY_MS <= u64::MAX,
        ensures
            c.restart_at_ms == now_ms + RESTART_DELAY_MS,
    {
        RestartCountdown { restart_at_ms: now_ms + RESTART_DELAY_MS }
    }
}

/// One look at a running restart countdown.
#[derive(Clone, Copy, Debug, PartialEq, Eq, Structural)]
pub enum CountdownStep {
    /// Still counting: how many whole seconds to show, rounded up.
    Waiting { seconds_left: u64 },
    /// Time is up: the server returns to play and broadcasts the restart.
    RestartNow,
}

/// Checks the countdown at `now_ms`. While time remains it reports the
/// seconds left (rounded up); once none does, the round restarts.
pub fn update_restart_countdown(countdown: &RestartCountdown, now_ms: u64) -> (r: CountdownStep)
    ensures
        now_ms < countdown.restart_at_ms ==> r == (CountdownStep::Waiting {
            seconds_left: ((countdown.restart_at_ms - now_ms + 999) / 1000) as u64,
        }),
        now_ms >= countdown.restart_at_ms ==> r == CountdownStep::RestartNow,
{
    if now_ms < countdown.restart_at_ms {
        let remaining = countdown.restart_at_ms - now_ms;
        let seconds = remaining / 1000 + (if remaining % 1000 > 0 { 1u64 } else { 0u64 });
        CountdownStep::Waiting { seconds_left: seconds }
    } else {
        CountdownStep::RestartNow
    }
}

/// After the post-game countdown, a server nobody is connected to goes back
/// to the lobby instead of restarting.
pub fn return_to_pregame_if_no_clients(countdown_finished: bool, client_count: usize) -> (r: Option<
    GameState,
>)
    ensures
        r == (if countdown_finished && client_count == 0 {
            Some(GameState::PreGame)
        } else {
            Option::<GameState>::None
        }),
{
    if countdown_finished && client_count == 0 {
        Some(GameState::PreGame)
    } else {
        None
    }
}

/// A client connecting while the server waits in the lobby starts play.
pub fn pregame_listen_for_player_connect(current: GameState) -> (r: Option<GameState>)
    ensures
        r == (if current != GameState::Playing {
            Some(GameState::Playing)
        } else {
            Option::<GameState>::None
        }),
{
    if current != GameState::Playing {
        Some(GameState::Playing)
    } else {
        None
    }
}

/// A client advances into play once it is connected and the first replicated
/// entity has arrived.
pub fn advance_to_playing_on_connected_and_replication(
    connected: bool,
    replicated_count: usize,
) -> (r: Option<GameState>)
    ensures
        r == (if connected && replicated_count > 0 {
            Some(GameState::Playing)
        } else {
            Option::<GameState>::None
        }),
{
    if connected && replicated_count > 0 {
        Some(GameState::Playing)
    } else {
        None
    }
}

} // verus!
