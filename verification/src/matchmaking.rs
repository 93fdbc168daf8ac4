//! Advertising a hosted lobby to the matchmaking directory and keeping the
//! fetched server list. The HTTP traffic itself stays outside; these are the
//! rules for when to post, when to fetch, and what to keep.

use vstd::prelude::*;
use crate::game_state::GameState;
use crate::net::{IpAddrKind, MAX_CLIENTS};
use crate::player::PlayerColor;

verus! {

/// Milliseconds between matchmaking polls.
pub const MATCHMAKING_POLL_PERIOD_MS: u64 = 3000;

/// A lobby as the directory lists it.
#[derive(Clone, Debug)]
pub struct EphemeralMatchmakingLobby {
    pub ip: String,
    pub name: String,
    pub player_capacity: u8,
    pub slots_occupied: u8,
    pub auto_restart: bool,
    pub has_password: bool,
    pub last_updated: u64,
}

/// A timer that fires once per period and starts over.
#[derive(Clone, Copy, Debug, PartialEq, Eq, Structural)]
pub struct RepeatTimer {
    pub period_ms: u64,
    pub elapsed_ms: u64,
}

impl RepeatTimer {
    /// The period is positive and no longer than a day, and the elapsed part
    /// never reaches it.
    pub open spec fn wf(self) -> bool {
        &&& 0 < self.period_ms <= 86_400_000
        &&& self.elapsed_ms < self.period_ms
    }

    pub fn new(period_ms: u64) -> (t: RepeatTimer)
        requires
            0 < period_ms <= 86_400_000,
        ensures
            t == (RepeatTimer { period_ms, elapsed_ms: 0u64 }),
            t.wf(),
    {
        RepeatTimer { period_ms, elapsed_ms: 0 }
    }

    /// Advances the timer by `dt_ms` and reports whether it finished (one or
    /// more whole periods passed); the remainder carries over.
    pub fn tick(&mut self, dt_ms: u32) -> (just_finished: bool)
        requires
            old(self).wf(),
        ensures
            final(self).wf(),
            final(self).period_ms == old(self).period_ms,
            just_finished == (old(self).elapsed_ms + dt_ms >= old(self).period_ms),
            final(self).elapsed_ms == (old(self).elapsed_ms + dt_ms) as int % old(
                self,
            ).period_ms as int,
    {
        let total = self.elapsed_ms + (dt_ms as u64);
        if total >= self.period_ms {
            self.elapsed_ms = total % self.period_ms;
            true
        } else {
            proof {
                let t = total as int;
                let p = self.period_ms as int;
                assert(t % p == t) by (nonlinear_arith)
                    requires
                        0 <= t,
                        t < p,
                ;
            }
            self.elapsed_ms = total;
            false
        }
    }
}

/// The matchmaking side of the process: the lobby it advertises (when
/// hosting), whether that lobby's address is public, and the poll timer.
pub struct MatchmakingState {
    pub lobby: Option<EphemeralMatchmakingLobby>,
    pub lobby_public: bool,
    pub timer: RepeatTimer,
}

impl Default for MatchmakingState {
    /// No lobby advertised; the poll timer starts a fresh period.
    fn default() -> (s: Self)
        ensures
            s.lobby.is_none(),
            !s.lobby_public,
            s.timer == (RepeatTimer { period_ms: MATCHMAKING_POLL_PERIOD_MS, elapsed_ms: 0u64 }),
            s.timer.wf(),
    {
        MatchmakingState {
            lobby: None,
            lobby_public: false,
            timer: RepeatTimer::new(MATCHMAKING_POLL_PERIOD_MS),
        }
    }
}

/// What one matchmaking poll decides to do.
#[derive(Clone, Copy, Debug, PartialEq, Eq, Structural)]
pub struct PollDecision {
    /// Post the advertised lobby to the directory.
    pub post_lobby: bool,
    /// Fetch the directory's lobby list.
    pub fetch_list: bool,
}

/// One tick of the matchmaking system: nothing happens until the poll timer
/// fires; then a hosted lobby is posted, and the list is fetched while the
/// lobby browser is open.
pub fn update_matchmaking_state(
    state: &mut MatchmakingState,
    dt_ms: u32,
    browser_open: bool,
) -> (r: PollDecision)
    requires
        old(state).timer.wf(),
    ensures
        final(state).timer.wf(),
        final(state).lobby == old(state).lobby,
        final(state).lobby_public == old(state).lobby_public,
        r.post_lobby == (old(state).timer.elapsed_ms + dt_ms >= old(state).timer.period_ms && old(
            state,
        ).lobby.is_some()),
        r.fetch_list == (old(state).timer.elapsed_ms + dt_ms >= old(state).timer.period_ms
            && browser_open),
{
    let fired = state.timer.tick(dt_ms);
    PollDecision {
        post_lobby: fired && state.lobby.is_some(),
        fetch_list: fired && browser_open,
    }
}

/// Entering the main menu stops advertising: the lobby is dropped so the
/// directory is no longer notified.
pub fn remove_lobby_info(state: &mut MatchmakingState)
    ensures
        final(state).lobby.is_none(),
        final(state).lobby_public == old(state).lobby_public,
        final(state).timer == old(state).timer,
{
    state.lobby = None;
}

/// Keeps the advertised player count current: whenever the count of live
/// players differs from the occupancy the lobby already advertises, the
/// occupied slots are set to the live count.
pub fn update_lobby_info(state: &mut MatchmakingState, player_count: usize)
    requires
        player_count <= u8::MAX,
    ensures
        final(state).timer == old(state).timer,
        final(state).lobby_public == old(state).lobby_public,
        match old(state).lobby {
            Some(lobby) => if player_count != lobby.slots_occupied {
                final(state).lobby == Some(
                    EphemeralMatchmakingLobby {
                        slots_occupied: player_count as u8,
                        ..lobby
                    },
                )
            } else {
                final(state).lobby == old(state).lobby
            },
            None => final(state).lobby.is_none(),
        },
{
    let update = match &state.lobby {
        Some(lobby) => player_count != lobby.slots_occupied as usize,
        None => false,
    };
    if update {
        match &mut state.lobby {
            Some(lobby) => {
                lobby.slots_occupied = player_count as u8;
            },
            None => {},
        }
    }
}

/// The lobby a freshly hosted server advertises: its address as text, the
/// full slot count with one seat (the host's) taken, auto-restarting, open.
pub fn lobby_for_listen(ip_text: String, server_name: String) -> (lobby: EphemeralMatchmakingLobby)
    ensures
        lobby.ip@ == ip_text@,
        lobby.name@ == server_name@,
        lobby.player_capacity == MAX_CLIENTS,
        lobby.slots_occupied == 1,
        lobby.auto_restart,
        !lobby.has_password,
        lobby.last_updated == 0,
{
    EphemeralMatchmakingLobby {
        ip: ip_text,
        name: server_name,
        player_capacity: 6,
        slots_occupied: 1,
        auto_restart: true,
        has_password: false,
        last_updated: 0,
    }
}

/// Opening a hosted session: the game moves to the pre-game lobby, the host
/// takes the first color, and the lobby goes up for advertisement — publicly
/// listed exactly when the address it gives out is globally routable.
pub fn listen_effects(
    state: &mut MatchmakingState,
    ip: &IpAddrKind,
    ip_text: String,
    server_name: String,
) -> (r: (GameState, PlayerColor))
    ensures
        r.0 == GameState::PreGame,
        r.1 == PlayerColor::spec_get(0),
        final(state).timer == old(state).timer,
        final(state).lobby_public == ip.spec_is_global(),
        match final(state).lobby {
            Some(lobby) => {
                &&& lobby.ip@ == ip_text@
                &&& lobby.name@ == server_name@
                &&& lobby.player_capacity == MAX_CLIENTS
                &&& lobby.slots_occupied == 1
                &&& lobby.auto_restart
                &&& !lobby.has_password
                &&& lobby.last_updated == 0
            },
            None => false,
        },
{
    state.lobby = Some(lobby_for_listen(ip_text, server_name));
    state.lobby_public = ip.is_global_unstable();
    (GameState::PreGame, PlayerColor::get(0))
}

/// No two entries share a name: what keying the directory's answer by name
/// guarantees.
pub open spec fn spec_distinct_names(s: Seq<(String, EphemeralMatchmakingLobby)>) -> bool {
    forall|i: int, j: int|
        #![trigger s[i], s[j]]
        0 <= i < j < s.len() ==> s[i].0@ != s[j].0@
}

/// The lobby browser's list of advertised servers, keyed by name.
pub struct ServerList {
    pub servers: Vec<(String, EphemeralMatchmakingLobby)>,
}

impl ServerList {
    pub open spec fn wf(&self) -> bool {
        spec_distinct_names(self.servers@)
    }
}

impl Default for ServerList {
    fn default() -> (s: Self)
        ensures
            s.servers@.len() == 0,
            s.wf(),
    {
        ServerList { servers: Vec::new() }
    }
}

/// Absorbs one directory response: a list that parsed replaces what is
/// shown; a response that did not parse leaves the last known list standing.
/// A parsed list comes out of a name-keyed answer, so its names are distinct,
/// and the shown list stays that way.
pub fn absorb_server_list(
    list: &mut ServerList,
    parsed: Option<Vec<(String, EphemeralMatchmakingLobby)>>,
) -> (replaced: bool)
    requires
        old(list).wf(),
        match parsed {
            Some(servers) => spec_distinct_names(servers@),
            None => true,
        },
    ensures
        final(list).wf(),
        match parsed {
            Some(servers) => final(list).servers@ == servers@ && replaced,
            None => final(list).servers@ == old(list).servers@ && !replaced,
        },
{
    match parsed {
        Some(servers) => {
            list.servers = servers;
            true
        },
        None => false,
    }
}

} // verus!
