//! Connection bootstrap decisions: which kind of session the command line
//! asks for, whether an address is globally routable (so a hosted lobby is
//! worth advertising), and the channel budgets replication runs under.

use vstd::prelude::*;
use crate::game_state::GameState;
use crate::player::{Players, PlayerColor};

verus! {

/// UDP port used when none is given.
pub const DEFAULT_PORT: u16 = 4761;

/// Compatibility constant both ends must agree on.
pub const PROTOCOL_ID: u64 = 0;

/// Player slots a hosted lobby offers.
pub const MAX_CLIENTS: usize = 6;

/// Player slots a dedicated command-line server offers.
pub const CLI_MAX_CLIENTS: usize = 1;

/// Largest replication message allowed on an unreliable channel, in bytes.
pub const MAX_MESSAGE_SIZE: u64 = 40000;

/// Client identifier attached to any entity a particular connection controls.
#[derive(Clone, Copy, Debug, PartialEq, Eq, Structural)]
pub struct NetworkOwner(pub u64);

impl Default for NetworkOwner {
    /// No connection: the largest id, which no client ever draws.
    fn default() -> (o: Self)
        ensures
            o == NetworkOwner(u64::MAX),
    {
        NetworkOwner(u64::MAX)
    }
}

/// An IPv4 address `a.b.c.d`.
#[derive(Clone, Copy, Debug, PartialEq, Eq, Structural)]
pub struct IpV4 {
    pub a: u8,
    pub b: u8,
    pub c: u8,
    pub d: u8,
}

impl IpV4 {
    pub open spec fn spec_is_private(self) -> bool {
        ||| self.a == 10
        ||| self.a == 172 && 16 <= self.b <= 31
        ||| self.a == 192 && self.b == 168
    }

    pub open spec fn spec_is_loopback(self) -> bool {
        self.a == 127
    }

    pub open spec fn spec_is_link_local(self) -> bool {
        self.a == 169 && self.b == 254
    }

    pub open spec fn spec_is_shared(self) -> bool {
        self.a == 100 && 64 <= self.b <= 127
    }

    pub open spec fn spec_is_documentation(self) -> bool {
        ||| self.a == 192 && self.b == 0 && self.c == 2
        ||| self.a == 198 && self.b == 51 && self.c == 100
        ||| self.a == 203 && self.b == 0 && self.c == 113
    }

    pub open spec fn spec_is_benchmarking(self) -> bool {
        self.a == 198 && 18 <= self.b <= 19
    }

    pub open spec fn spec_is_broadcast(self) -> bool {
        self.a == 255 && self.b == 255 && self.c == 255 && self.d == 255
    }

    /// Globally routable: none of the special-purpose IPv4 ranges.
    pub open spec fn spec_is_global(self) -> bool {
        !(self.a == 0 || self.spec_is_private() || self.spec_is_shared()
            || self.spec_is_loopback() || self.spec_is_link_local() || (self.a == 192 && self.b
            == 0 && self.c == 0) || self.spec_is_documentation() || self.spec_is_benchmarking() || (
        self.a >= 240 && !self.spec_is_broadcast()) || self.spec_is_broadcast())
    }

    pub fn is_global_unstable(&self) -> (r: bool)
        ensures
            r == self.spec_is_global(),
    {
        !(self.a == 0 || self.a == 10 || (self.a == 172 && 16 <= self.b && self.b <= 31) || (self.a
            == 192 && self.b == 168) || (self.a == 100 && 64 <= self.b && self.b <= 127) || self.a
            == 127 || (self.a == 169 && self.b == 254) || (self.a == 192 && self.b == 0 && self.c
            == 0) || (self.a == 192 && self.b == 0 && self.c == 2) || (self.a == 198 && self.b == 51
            && self.c == 100) || (self.a == 203 && self.b == 0 && self.c == 113) || (self.a == 198
            && (self.b == 18 || self.b == 19)) || self.a >= 240)
    }
}

/// An IPv6 address of eight 16-bit segments.
#[derive(Clone, Copy, Debug, PartialEq, Eq, Structural)]
pub struct IpV6 {
    pub s0: u16,
    pub s1: u16,
    pub s2: u16,
    pub s3: u16,
    pub s4: u16,
    pub s5: u16,
    pub s6: u16,
    pub s7: u16,
}

impl IpV6 {
    pub open spec fn spec_is_unspecified(self) -> bool {
        self.s0 == 0 && self.s1 == 0 && self.s2 == 0 && self.s3 == 0 && self.s4 == 0 && self.s5
            == 0 && self.s6 == 0 && self.s7 == 0
    }

    pub open spec fn spec_is_loopback(self) -> bool {
        self.s0 == 0 && self.s1 == 0 && self.s2 == 0 && self.s3 == 0 && self.s4 == 0 && self.s5
            == 0 && self.s6 == 0 && self.s7 == 1
    }

    /// An IPv4 address mapped into IPv6 (`::ffff:0:0/96`).
    pub open spec fn spec_is_v4_mapped(self) -> bool {
        self.s0 == 0 && self.s1 == 0 && self.s2 == 0 && self.s3 == 0 && self.s4 == 0 && self.s5
            == 0xffff
    }

    /// IPv4/IPv6 translation (`64:ff9b:1::/48`).
    pub open spec fn spec_is_v4_v6_translation(self) -> bool {
        self.s0 == 0x64 && self.s1 == 0xff9b && self.s2 == 1
    }

    /// The discard-only block (`100::/64`).
    pub open spec fn spec_is_discard_only(self) -> bool {
        self.s0 == 0x100 && self.s1 == 0 && self.s2 == 0 && self.s3 == 0
    }

    /// IETF protocol assignments (`2001::/23`), except the handful that are
    /// meant to be reachable.
    pub open spec fn spec_is_unreachable_protocol_assignment(self) -> bool {
        (self.s0 == 0x2001 && self.s1 < 0x200) && !(self.spec_is_port_control_anycast()
            || self.spec_is_nat_traversal_anycast() || (self.s0 == 0x2001 && self.s1 == 3) || (
        self.s0 == 0x2001 && self.s1 == 4 && self.s2 == 0x112) || (self.s0 == 0x2001 && 0x20
            <= self.s1 <= 0x2F))
    }

    /// The port control protocol anycast address (`2001:1::1`).
    pub open spec fn spec_is_port_control_anycast(self) -> bool {
        self.s0 == 0x2001 && self.s1 == 1 && self.s2 == 0 && self.s3 == 0 && self.s4 == 0
            && self.s5 == 0 && self.s6 == 0 && self.s7 == 1
    }

    /// The NAT traversal relay anycast address (`2001:1::2`).
    pub open spec fn spec_is_nat_traversal_anycast(self) -> bool {
        self.s0 == 0x2001 && self.s1 == 1 && self.s2 == 0 && self.s3 == 0 && self.s4 == 0
            && self.s5 == 0 && self.s6 == 0 && self.s7 == 2
    }

    pub open spec fn spec_is_documentation(self) -> bool {
        self.s0 == 0x2001 && self.s1 == 0xdb8
    }

    /// Unique local addresses (`fc00::/7`).
    pub open spec fn spec_is_unique_local(self) -> bool {
        0xfc00 <= self.s0 <= 0xfdff
    }

    /// Link-local unicast (`fe80::/10`).
    pub open spec fn spec_is_link_local(self) -> bool {
        0xfe80 <= self.s0 <= 0xfebf
    }

    /// Globally routable: none of the special-purpose IPv6 ranges.
    pub open spec fn spec_is_global(self) -> bool {
        !(self.spec_is_unspecified() || self.spec_is_loopback() || self.spec_is_v4_mapped()
            || self.spec_is_v4_v6_translation() || self.spec_is_discard_only()
            || self.spec_is_unreachable_protocol_assignment() || self.spec_is_documentation()
            || self.spec_is_unique_local() || self.spec_is_link_local())
    }

    pub fn is_global_unstable(&self) -> (r: bool)
        ensures
            r == self.spec_is_global(),
    {
        let low_zero = self.s2 == 0 && self.s3 == 0 && self.s4 == 0 && self.s5 == 0 && self.s6 == 0;
        let unspecified = low_zero && self.s0 == 0 && self.s1 == 0 && self.s7 == 0;
        let loopback = low_zero && self.s0 == 0 && self.s1 == 0 && self.s7 == 1;
        let v4_mapped = self.s0 == 0 && self.s1 == 0 && self.s2 == 0 && self.s3 == 0 && self.s4 == 0
            && self.s5 == 0xffff;
        let translation = self.s0 == 0x64 && self.s1 == 0xff9b && self.s2 == 1;
        let discard = self.s0 == 0x100 && self.s1 == 0 && self.s2 == 0 && self.s3 == 0;
        let pcp = low_zero && self.s0 == 0x2001 && self.s1 == 1 && self.s7 == 1;
        let turn = low_zero && self.s0 == 0x2001 && self.s1 == 1 && self.s7 == 2;
        let assignments = (self.s0 == 0x2001 && self.s1 < 0x200) && !(pcp || turn || (self.s0
            == 0x2001 && self.s1 == 3) || (self.s0 == 0x2001 && self.s1 == 4 && self.s2 == 0x112)
            || (self.s0 == 0x2001 && 0x20 <= self.s1 && self.s1 <= 0x2F));
        let documentation = self.s0 == 0x2001 && self.s1 == 0xdb8;
        let unique_local = 0xfc00 <= self.s0 && self.s0 <= 0xfdff;
        let link_local = 0xfe80 <= self.s0 && self.s0 <= 0xfebf;
        !(unspecified || loopback || v4_mapped || translation || discard || assignments
            || documentation || unique_local || link_local)
    }
}

/// An address of either family.
#[derive(Clone, Copy, Debug, PartialEq, Eq, Structural)]
pub enum IpAddrKind {
    V4(IpV4),
    V6(IpV6),
}

impl IpAddrKind {
    pub open spec fn spec_is_global(self) -> bool {
        match self {
            IpAddrKind::V4(ip) => ip.spec_is_global(),
            IpAddrKind::V6(ip) => ip.spec_is_global(),
        }
    }

    pub fn is_global_unstable(&self) -> (r: bool)
        ensures
            r == self.spec_is_global(),
    {
        match self {
            IpAddrKind::V4(ip) => ip.is_global_unstable(),
            IpAddrKind::V6(ip) => ip.is_global_unstable(),
        }
    }
}

/// What kind of session the process should open, from the command line.
#[derive(Clone, Copy, Debug, PartialEq, Eq, Structural)]
pub enum SessionPlan {
    Server {
        bind: IpAddrKind,
        public: IpAddrKind,
        port: u16,
        max_clients: usize,
        protocol_id: u64,
        host_color: PlayerColor,
    },
    Client { server: IpAddrKind, bind: IpAddrKind, port: u16, protocol_id: u64 },
    ShowGui,
}

/// The command-line rule: `--listen` starts a dedicated server (which also
/// seats a local player on the first color), else `--connect` joins one, else
/// the menu is shown.
pub fn cli_session_plan(
    listen: Option<IpAddrKind>,
    connect: Option<IpAddrKind>,
    bind: IpAddrKind,
    port: u16,
) -> (r: SessionPlan)
    ensures
        r == match listen {
            Some(public) => SessionPlan::Server {
                bind,
                public,
                port,
                max_clients: CLI_MAX_CLIENTS,
                protocol_id: PROTOCOL_ID,
                host_color: PlayerColor::spec_get(0),
            },
            None => match connect {
                Some(server) => SessionPlan::Client {
                    server,
                    bind,
                    port,
                    protocol_id: PROTOCOL_ID,
                },
                None => SessionPlan::ShowGui,
            },
        },
{
    match listen {
        Some(public) => SessionPlan::Server {
            bind,
            public,
            port,
            max_clients: CLI_MAX_CLIENTS,
            protocol_id: PROTOCOL_ID,
            host_color: PlayerColor::get(0),
        },
        None => match connect {
            Some(server) => SessionPlan::Client { server, bind, port, protocol_id: PROTOCOL_ID },
            None => SessionPlan::ShowGui,
        },
    }
}

/// One replication channel's budget, as the transport configures it.
#[derive(Clone, Copy, Debug, PartialEq, Eq, Structural)]
pub struct Channel {
    pub unreliable: bool,
    pub max_message_size: u64,
    pub packet_budget: u64,
}

/// Raises every unreliable channel to the replication message budget: the
/// full message size, and twice that per packet. Reliable channels keep
/// their configuration.
pub fn apply_message_size_to_channels(channels: &mut Vec<Channel>)
    ensures
        final(channels)@.len() == old(channels)@.len(),
        forall|i: int|
            0 <= i < old(channels)@.len() ==> #[trigger] final(channels)@[i] == (if old(
                channels,
            )@[i].unreliable {
                Channel {
                    unreliable: true,
                    max_message_size: MAX_MESSAGE_SIZE,
                    packet_budget: (2 * MAX_MESSAGE_SIZE) as u64,
                }
            } else {
                old(channels)@[i]
            }),
{
    let n = channels.len();
    let mut i: usize = 0;
    while i < n
        invariant
            i <= n,
            n == channels@.len(),
            n == old(channels)@.len(),
            forall|j: int| i <= j < n ==> channels@[j] == old(channels)@[j],
            forall|j: int|
                0 <= j < i ==> #[trigger] channels@[j] == (if old(channels)@[j].unreliable {
                    Channel {
                        unreliable: true,
                        max_message_size: MAX_MESSAGE_SIZE,
                        packet_budget: (2 * MAX_MESSAGE_SIZE) as u64,
                    }
                } else {
                    old(channels)@[j]
                }),
        decreases n - i,
    {
        let c = channels[i];
        if c.unreliable {
            channels.set(
                i,
                Channel {
                    unreliable: true,
                    max_message_size: MAX_MESSAGE_SIZE,
                    packet_budget: 2 * MAX_MESSAGE_SIZE,
                },
            );
        }
        i = i + 1;
    }
}

/// Joining a session: the game moves to the pre-game lobby, and the
/// connection takes the milliseconds of wall-clock time (truncated to 64
/// bits) as its client id.
pub fn connect_effects(unix_time_ms: u128) -> (r: (GameState, u64))
    ensures
        r.0 == GameState::PreGame,
        r.1 == unix_time_ms as u64,
{
    (GameState::PreGame, #[verifier::truncate] (unix_time_ms as u64))
}

/// The client id the server itself plays under.
pub const SERVER_ID: u64 = 0;

/// Whether this process controls an entity, and so should read local input
/// for it: a client controls its own entities; the server (no local client)
/// controls those owned under the server's id.
pub fn controls_entity(owner: u64, local_client: Option<u64>) -> (r: bool)
    ensures
        r == match local_client {
            Some(id) => owner == id,
            None => owner == SERVER_ID,
        },
{
    match local_client {
        Some(id) => owner == id,
        None => owner == SERVER_ID,
    }
}

/// The join form's defaults: bind anywhere, aim at the local host, on the
/// default port.
pub fn connect_defaults() -> (r: (IpAddrKind, IpAddrKind, u16))
    ensures
        r.0 == IpAddrKind::V4(IpV4 { a: 0u8, b: 0u8, c: 0u8, d: 0u8 }),
        r.1 == IpAddrKind::V4(IpV4 { a: 127u8, b: 0u8, c: 0u8, d: 1u8 }),
        r.2 == DEFAULT_PORT,
{
    (
        IpAddrKind::V4(IpV4 { a: 0, b: 0, c: 0, d: 0 }),
        IpAddrKind::V4(IpV4 { a: 127, b: 0, c: 0, d: 1 }),
        DEFAULT_PORT,
    )
}

/// The host form's defaults: advertise the public address where the lookup
/// found one (the local host otherwise), bind anywhere, on the default port.
pub fn listen_defaults(public_ip: Option<IpAddrKind>) -> (r: (IpAddrKind, IpAddrKind, u16))
    ensures
        r.0 == match public_ip {
            Some(ip) => ip,
            None => IpAddrKind::V4(IpV4 { a: 127u8, b: 0u8, c: 0u8, d: 1u8 }),
        },
        r.1 == IpAddrKind::V4(IpV4 { a: 0u8, b: 0u8, c: 0u8, d: 0u8 }),
        r.2 == DEFAULT_PORT,
{
    let advertised = match public_ip {
        Some(ip) => ip,
        None => IpAddrKind::V4(IpV4 { a: 127, b: 0, c: 0, d: 1 }),
    };
    (advertised, IpAddrKind::V4(IpV4 { a: 0, b: 0, c: 0, d: 0 }), DEFAULT_PORT)
}

/// Tearing a session down: every registered player is forgotten and the game
/// returns to the main menu.
pub fn disconnect_effects(players: &mut Players) -> (next: GameState)
    ensures
        next == GameState::MainMenu,
        final(players).wf(),
        forall|i: int| 0 <= i < 6 ==> final(players)@[i].is_none(),
{
    players.reset();
    GameState::MainMenu
}

} // verus!
