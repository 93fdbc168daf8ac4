//! Players: their fixed palette of colors, the server's registry pairing
//! connected clients with colors, spawn placement, and flight controls.

use vstd::prelude::*;
use crate::health::Health;
use crate::input::ActionState;
use crate::input::PlayerAction;
use crate::powerup::{Debuff, PowerUp};
use crate::projectiles::{sat_add_i64, spec_sat_add_i64};
use crate::weapons::{Weapon, WeaponType, SPAWN_LASER_RATE_MILLI};

verus! {

/// Highest color index: the palette has `MAX_PLAYER_COLOR_INDEX + 1` colors.
pub const MAX_PLAYER_COLOR_INDEX: usize = 5;

#[derive(Clone, Copy, Debug, PartialEq, Eq, Hash, Structural)]
pub enum PlayerColor {
    Red,
    Blue,
    Green,
    Purple,
    Cyan,
    Orange,
}

impl Default for PlayerColor {
    fn default() -> (c: Self)
        ensures
            c == PlayerColor::Red,
    {
        PlayerColor::Red
    }
}

impl PlayerColor {
    /// The position of this color in the palette.
    pub open spec fn spec_index(self) -> int {
        match self {
            PlayerColor::Red => 0,
            PlayerColor::Blue => 1,
            PlayerColor::Green => 2,
            PlayerColor::Purple => 3,
            PlayerColor::Cyan => 4,
            PlayerColor::Orange => 5,
        }
    }

    /// The color at a palette position; an index past the palette falls back
    /// to the first color.
    pub open spec fn spec_get(player_index: int) -> PlayerColor {
        if player_index == 0 {
            PlayerColor::Red
        } else if player_index == 1 {
            PlayerColor::Blue
        } else if player_index == 2 {
            PlayerColor::Green
        } else if player_index == 3 {
            PlayerColor::Purple
        } else if player_index == 4 {
            PlayerColor::Cyan
        } else if player_index == 5 {
            PlayerColor::Orange
        } else {
            PlayerColor::Red
        }
    }

    pub fn get(player_index: usize) -> (c: PlayerColor)
        ensures
            c == Self::spec_get(player_index as int),
    {
        match player_index {
            0 => PlayerColor::Red,
            1 => PlayerColor::Blue,
            2 => PlayerColor::Green,
            3 => PlayerColor::Purple,
            4 => PlayerColor::Cyan,
            5 => PlayerColor::Orange,
            _ => PlayerColor::Red,
        }
    }

    pub fn index(&self) -> (i: usize)
        ensures
            i == self.spec_index(),
            i <= MAX_PLAYER_COLOR_INDEX,
    {
        match self {
            PlayerColor::Red => 0,
            PlayerColor::Blue => 1,
            PlayerColor::Green => 2,
            PlayerColor::Purple => 3,
            PlayerColor::Cyan => 4,
            PlayerColor::Orange => 5,
        }
    }

    /// The color's name, as shown to players.
    pub fn name(&self) -> (s: String)
        ensures
            self == PlayerColor::Red ==> s@ == "Red"@,
            self == PlayerColor::Blue ==> s@ == "Blue"@,
            self == PlayerColor::Green ==> s@ == "Green"@,
            self == PlayerColor::Purple ==> s@ == "Purple"@,
            self == PlayerColor::Cyan ==> s@ == "Cyan"@,
            self == PlayerColor::Orange ==> s@ == "Orange"@,
    {
        match self {
            PlayerColor::Red => "Red".to_string(),
            PlayerColor::Blue => "Blue".to_string(),
            PlayerColor::Green => "Green".to_string(),
            PlayerColor::Purple => "Purple".to_string(),
            PlayerColor::Cyan => "Cyan".to_string(),
            PlayerColor::Orange => "Orange".to_string(),
        }
    }
}

/// Where a ship of each color spawns: its position in thousandths of a world
/// unit and its facing in whole degrees.
pub open spec fn spec_spawn_location(color: PlayerColor) -> (i64, i64, i64) {
    match color {
        PlayerColor::Red => (440_000i64, 350_000i64, 135i64),
        PlayerColor::Blue => ((-440_000) as i64, (-350_000) as i64, (-45) as i64),
        PlayerColor::Green => (440_000i64, (-350_000) as i64, 45i64),
        PlayerColor::Purple => ((-440_000) as i64, 350_000i64, (-135) as i64),
        PlayerColor::Cyan => (0i64, 350_000i64, 180i64),
        PlayerColor::Orange => (0i64, (-350_000) as i64, 0i64),
    }
}

pub fn spawn_location(color: PlayerColor) -> (r: (i64, i64, i64))
    ensures
        r == spec_spawn_location(color),
{
    match color {
        PlayerColor::Red => (440_000, 350_000, 135),
        PlayerColor::Blue => (-440_000, -350_000, -45),
        PlayerColor::Green => (440_000, -350_000, 45),
        PlayerColor::Purple => (-440_000, 350_000, -135),
        PlayerColor::Cyan => (0, 350_000, 180),
        PlayerColor::Orange => (0, -350_000, 0),
    }
}

/// A player in the world: its color and whatever modifier pair it carries.
#[derive(Clone, Copy, Debug)]
pub struct Player {
    pub color: PlayerColor,
    pub powerup: Option<PowerUp>,
    pub debuff: Option<Debuff>,
}

impl Default for Player {
    fn default() -> (p: Self)
        ensures
            p.color == PlayerColor::Red,
            p.powerup.is_none(),
            p.debuff.is_none(),
    {
        Player { color: PlayerColor::Red, powerup: None, debuff: None }
    }
}

/// The server's registry of connected players: which client id holds which
/// color. One slot per palette color; a client holds at most one color.
pub struct Players {
    slots: Vec<Option<u64>>,
}

impl Players {
    /// Slot `i` belongs to the color with palette index `i`.
    pub closed spec fn view(&self) -> Seq<Option<u64>> {
        self.slots@
    }

    pub open spec fn wf(&self) -> bool {
        &&& self@.len() == 6
        &&& forall|i: int, j: int|
            #![trigger self@[i], self@[j]]
            0 <= i < 6 && 0 <= j < 6 && i != j && self@[i].is_some() ==> self@[i] != self@[j]
    }

    pub fn new() -> (r: Players)
        ensures
            r.wf(),
            forall|i: int| 0 <= i < 6 ==> r@[i].is_none(),
    {
        let mut slots: Vec<Option<u64>> = Vec::new();
        let mut i: usize = 0;
        while i < 6
            invariant
                i <= 6,
                slots@.len() == i,
                forall|j: int| 0 <= j < i ==> slots@[j].is_none(),
            decreases 6 - i,
        {
            slots.push(None);
            i = i + 1;
        }
        Players { slots }
    }

    /// The color held by `client_id`, if any.
    pub fn color(&self, client_id: u64) -> (r: Option<PlayerColor>)
        requires
            self.wf(),
        ensures
            match r {
                Some(c) => self@[c.spec_index()] == Some(client_id),
                None => forall|i: int| 0 <= i < 6 ==> self@[i] != Some(client_id),
            },
    {
        let mut i: usize = 0;
        while i < 6
            invariant
                i <= 6,
                self@.len() == 6,
                forall|j: int| 0 <= j < i ==> self@[j] != Some(client_id),
            decreases 6 - i,
        {
            match self.slots[i] {
                Some(id) if id == client_id => {
                    return Some(PlayerColor::get(i));
                },
                _ => {},
            }
            i = i + 1;
        }
        None
    }

    /// The client id holding `color`, if any.
    pub fn client(&self, color: PlayerColor) -> (r: Option<u64>)
        requires
            self.wf(),
        ensures
            r == self@[color.spec_index()],
    {
        self.slots[color.index()]
    }

    /// Grants `color` to `client_id`. Any slot the client held before is
    /// cleared, so a client never holds two colors.
    pub fn insert(&mut self, color: PlayerColor, client_id: u64)
        requires
            old(self).wf(),
        ensures
            final(self).wf(),
            final(self)@[color.spec_index()] == Some(client_id),
            forall|j: int|
                0 <= j < 6 && j != color.spec_index() ==> final(self)@[j] == (if old(self)@[j]
                    == Some(client_id) {
                    Option::<u64>::None
                } else {
                    old(self)@[j]
                }),
    {
        let mut i: usize = 0;
        while i < 6
            invariant
                i <= 6,
                self@.len() == 6,
                forall|j: int| 0 <= j < i ==> self@[j] != Some(client_id),
                forall|j: int|
                    0 <= j < 6 ==> self@[j] == (if old(self)@[j] == Some(client_id) && j < i {
                        Option::<u64>::None
                    } else {
                        old(self)@[j]
                    }),
            decreases 6 - i,
        {
            let clear = match self.slots[i] {
                Some(id) if id == client_id => true,
                _ => false,
            };
            if clear {
                self.slots.set(i, None);
            }
            i = i + 1;
        }
        self.slots.set(color.index(), Some(client_id));
    }

    /// Clears whatever color `client_id` holds.
    pub fn remove_client(&mut self, client_id: u64)
        requires
            old(self).wf(),
        ensures
            final(self).wf(),
            forall|j: int|
                0 <= j < 6 ==> final(self)@[j] == (if old(self)@[j] == Some(client_id) {
                    Option::<u64>::None
                } else {
                    old(self)@[j]
                }),
    {
        let mut i: usize = 0;
        while i < 6
            invariant
                i <= 6,
                self@.len() == 6,
                forall|j: int|
                    0 <= j < 6 ==> self@[j] == (if old(self)@[j] == Some(client_id) && j < i {
                        Option::<u64>::None
                    } else {
                        old(self)@[j]
                    }),
            decreases 6 - i,
        {
            let clear = match self.slots[i] {
                Some(id) if id == client_id => true,
                _ => false,
            };
            if clear {
                self.slots.set(i, None);
            }
            i = i + 1;
        }
    }

    /// Frees `color`, whoever held it.
    pub fn remove_color(&mut self, color: PlayerColor)
        requires
            old(self).wf(),
        ensures
            final(self).wf(),
            final(self)@[color.spec_index()].is_none(),
            forall|j: int|
                0 <= j < 6 && j != color.spec_index() ==> final(self)@[j] == old(self)@[j],
    {
        self.slots.set(color.index(), None);
    }

    /// The first palette color no client holds, if any is free.
    pub fn available_color(&self) -> (r: Option<PlayerColor>)
        requires
            self.wf(),
        ensures
            match r {
                Some(c) => self@[c.spec_index()].is_none() && (forall|j: int|
                    0 <= j < c.spec_index() ==> self@[j].is_some()),
                None => forall|j: int| 0 <= j < 6 ==> self@[j].is_some(),
            },
    {
        let mut i: usize = 0;
        while i < 6
            invariant
                i <= 6,
                self@.len() == 6,
                forall|j: int| 0 <= j < i ==> self@[j].is_some(),
            decreases 6 - i,
        {
            if self.slots[i].is_none() {
                return Some(PlayerColor::get(i));
            }
            i = i + 1;
        }
        None
    }

    /// Forgets every player.
    pub fn reset(&mut self)
        ensures
            final(self).wf(),
            forall|i: int| 0 <= i < 6 ==> final(self)@[i].is_none(),
    {
        *self = Players::new();
    }
}

/// Everything the server attaches to a freshly spawned ship: its replicated
/// components and where it stands.
pub struct PlayerSpawn {
    pub player: Player,
    pub health: Health,
    pub weapon: Weapon,
    pub owner: u64,
    pub x_milli: i64,
    pub y_milli: i64,
    pub rotation_deg: i64,
}

/// Seats a player: registers the color for the owning client and lays out
/// the ship at that color's spawn point, with full health, the slow spawn
/// laser, and no modifiers.
pub fn spawn_player(color: PlayerColor, owner: u64, players: &mut Players) -> (s: PlayerSpawn)
    requires
        old(players).wf(),
    ensures
        final(players).wf(),
        final(players)@[color.spec_index()] == Some(owner),
        forall|j: int|
            0 <= j < 6 && j != color.spec_index() ==> final(players)@[j] == (if old(players)@[j]
                == Some(owner) {
                Option::<u64>::None
            } else {
                old(players)@[j]
            }),
        s.player.color == color,
        s.player.powerup.is_none(),
        s.player.debuff.is_none(),
        s.health == (Health { current: crate::health::DEFAULT_HEALTH_CENTI, max: crate::health::DEFAULT_HEALTH_CENTI }),
        s.weapon == (Weapon {
            weapon_type: WeaponType::Laser { fire_rate_milli: SPAWN_LASER_RATE_MILLI },
            last_fire_ms: 0u64,
        }),
        s.owner == owner,
        (s.x_milli, s.y_milli, s.rotation_deg) == spec_spawn_location(color),
{
    players.insert(color, owner);
    let (x, y, rot) = spawn_location(color);
    PlayerSpawn {
        player: Player { color, powerup: None, debuff: None },
        health: Health::default(),
        weapon: Weapon {
            weapon_type: WeaponType::Laser { fire_rate_milli: SPAWN_LASER_RATE_MILLI },
            last_fire_ms: 0,
        },
        owner,
        x_milli: x,
        y_milli: y,
        rotation_deg: rot,
    }
}

/// Thrust flame strength, in thousandths of full strength; always in [0, 1000].
#[derive(Clone, Copy, Debug, PartialEq, Eq, Structural)]
pub struct Thruster {
    pub val_milli: u32,
}

impl Default for Thruster {
    fn default() -> (t: Self)
        ensures
            t == (Thruster { val_milli: 0u32 }),
    {
        Thruster { val_milli: 0 }
    }
}

impl Thruster {
    pub open spec fn wf(self) -> bool {
        self.val_milli <= 1000
    }

    /// Ramps the flame up while thrust is held (and the player is not slowed),
    /// down otherwise, clamped to [0, 1000], moving by one unit per second.
    pub fn update(&mut self, thrusting: bool, slowed: bool, dt_ms: u32)
        requires
            old(self).wf(),
        ensures
            final(self).wf(),
            thrusting && !slowed ==> final(self).val_milli == (if old(self).val_milli + dt_ms
                > 1000 {
                1000int
            } else {
                old(self).val_milli + dt_ms
            }),
            !(thrusting && !slowed) ==> final(self).val_milli == (if old(self).val_milli >= dt_ms {
                old(self).val_milli - dt_ms
            } else {
                0int
            }),
    {
        if thrusting && !slowed {
            if dt_ms > 1000 - self.val_milli {
                self.val_milli = 1000;
            } else {
                self.val_milli = self.val_milli + dt_ms;
            }
        } else {
            if self.val_milli >= dt_ms {
                self.val_milli = self.val_milli - dt_ms;
            } else {
                self.val_milli = 0;
            }
        }
    }
}

/// Scaling a fixed-point product back down by a thousand, rounding toward
/// zero as machine division does.
pub open spec fn spec_milli_scale(a: int) -> int {
    if a >= 0 {
        a / 1000
    } else {
        -((-a) / 1000)
    }
}

fn milli_scale(a: i64) -> (r: i64)
    requires
        i64::MIN < a,
    ensures
        r == spec_milli_scale(a as int),
{
    if a >= 0 {
        a / 1000
    } else {
        -((-a) / 1000)
    }
}

/// How hard thrust accelerates the ship, in world units per second squared.
pub const PLAYER_THRUST_ACCEL: i64 = 50;

/// How fast a held turn spins the ship, per second of held input.
pub const PLAYER_TURN_RATE: i64 = 700;

/// A ship's physics velocity: linear parts in thousandths of a world unit
/// per second, the angular part in thousandths of the turn unit per second.
#[derive(Clone, Copy, Debug, PartialEq, Eq, Structural)]
pub struct Velocity {
    pub linvel_x_milli: i64,
    pub linvel_y_milli: i64,
    pub angvel_milli: i64,
}

impl Default for Velocity {
    fn default() -> (v: Self)
        ensures
            v == (Velocity { linvel_x_milli: 0i64, linvel_y_milli: 0i64, angvel_milli: 0i64 }),
    {
        Velocity { linvel_x_milli: 0, linvel_y_milli: 0, angvel_milli: 0 }
    }
}

/// The flight controls, applied for one tick: held thrust accelerates the
/// ship along its facing (unless the slow debuff holds it back), saturating
/// at the numeric limits; a held turn sets the spin, right before left, and
/// no turn stops it.
pub fn player_actions(
    velocity: &mut Velocity,
    actions: &ActionState,
    debuff: Option<Debuff>,
    forward_x_milli: i64,
    forward_y_milli: i64,
    dt_ms: u32,
) -> (thrusted: bool)
    requires
        -1000 <= forward_x_milli <= 1000,
        -1000 <= forward_y_milli <= 1000,
    ensures
        thrusted == (actions.spec_pressed(PlayerAction::Thrust) && debuff != Some(Debuff::Slowed)),
        thrusted ==> final(velocity).linvel_x_milli == spec_sat_add_i64(
            old(velocity).linvel_x_milli as int,
            spec_milli_scale(forward_x_milli as int * dt_ms as int * PLAYER_THRUST_ACCEL as int),
        ) && final(velocity).linvel_y_milli == spec_sat_add_i64(
            old(velocity).linvel_y_milli as int,
            spec_milli_scale(forward_y_milli as int * dt_ms as int * PLAYER_THRUST_ACCEL as int),
        ),
        !thrusted ==> final(velocity).linvel_x_milli == old(velocity).linvel_x_milli
            && final(velocity).linvel_y_milli == old(velocity).linvel_y_milli,
        final(velocity).angvel_milli == (if actions.spec_pressed(PlayerAction::TurnRight) {
            -PLAYER_TURN_RATE * dt_ms as int
        } else if actions.spec_pressed(PlayerAction::TurnLeft) {
            PLAYER_TURN_RATE * dt_ms as int
        } else {
            0int
        }),
{
    let slowed = match debuff {
        Some(Debuff::Slowed) => true,
        _ => false,
    };
    let thrusted = actions.pressed(PlayerAction::Thrust) && !slowed;
    if thrusted {
        proof {
            assert(-1000 * (dt_ms as int) <= forward_x_milli as int * (dt_ms as int) <= 1000 * (
            dt_ms as int)) by (nonlinear_arith)
                requires
                    -1000 <= forward_x_milli as int <= 1000,
                    dt_ms as int >= 0,
            ;
            assert(-1000 * (dt_ms as int) <= forward_y_milli as int * (dt_ms as int) <= 1000 * (
            dt_ms as int)) by (nonlinear_arith)
                requires
                    -1000 <= forward_y_milli as int <= 1000,
                    dt_ms as int >= 0,
            ;
        }
        let px = forward_x_milli * (dt_ms as i64) * PLAYER_THRUST_ACCEL;
        let py = forward_y_milli * (dt_ms as i64) * PLAYER_THRUST_ACCEL;
        let dx = milli_scale(px);
        let dy = milli_scale(py);
        velocity.linvel_x_milli = sat_add_i64(velocity.linvel_x_milli, dx);
        velocity.linvel_y_milli = sat_add_i64(velocity.linvel_y_milli, dy);
    }
    let spin = PLAYER_TURN_RATE * (dt_ms as i64);
    if actions.pressed(PlayerAction::TurnRight) {
        velocity.angvel_milli = -spin;
    } else if actions.pressed(PlayerAction::TurnLeft) {
        velocity.angvel_milli = spin;
    } else {
        velocity.angvel_milli = 0;
    }
    thrusted
}

/// The seats filled again when a round reloads: every registered client with
/// its color, in palette order, considering the first `upto` slots.
pub open spec fn spec_roster(slots: Seq<Option<u64>>, upto: int) -> Seq<(PlayerColor, u64)>
    decreases upto,
{
    if upto <= 0 {
        Seq::empty()
    } else {
        spec_roster(slots, upto - 1) + (match slots[upto - 1] {
            Some(id) => seq![(PlayerColor::spec_get(upto - 1), id)],
            None => Seq::<(PlayerColor, u64)>::empty(),
        })
    }
}

impl Players {
    /// Every seated player, in palette order: what the server respawns when
    /// a new round loads with the same clients connected.
    pub fn roster(&self) -> (r: Vec<(PlayerColor, u64)>)
        requires
            self.wf(),
        ensures
            r@ == spec_roster(self@, 6),
    {
        let mut r: Vec<(PlayerColor, u64)> = Vec::new();
        let mut i: usize = 0;
        while i < 6
            invariant
                i <= 6,
                self@.len() == 6,
                r@ == spec_roster(self@, i as int),
            decreases 6 - i,
        {
            let ghost before = r@;
            match self.slots[i] {
                Some(id) => {
                    r.push((PlayerColor::get(i), id));
                    proof {
                        assert(r@ =~= before + seq![(PlayerColor::spec_get(i as int), id)]);
                    }
                },
                None => {
                    proof {
                        assert(r@ =~= before + Seq::<(PlayerColor, u64)>::empty());
                    }
                },
            }
            i = i + 1;
        }
        r
    }
}

/// The color a client holds in a slot table, if any.
pub open spec fn spec_color_of(slots: Seq<Option<u64>>, client_id: u64) -> Option<PlayerColor> {
    if exists|i: int| 0 <= i < 6 && slots[i] == Some(client_id) {
        Some(
            PlayerColor::spec_get(choose|i: int| 0 <= i < 6 && slots[i] == Some(client_id)),
        )
    } else {
        None
    }
}

/// The ships to take down when a client disconnects: every entity whose
/// player wears that client's color, in order; given as pairs of an entity
/// and its color.
pub open spec fn spec_ships_of_color(
    ships: Seq<(usize, PlayerColor)>,
    color: PlayerColor,
) -> Seq<usize>
    decreases ships.len(),
{
    if ships.len() == 0 {
        Seq::empty()
    } else {
        let rest = spec_ships_of_color(ships.drop_last(), color);
        if ships.last().1 == color {
            rest.push(ships.last().0)
        } else {
            rest
        }
    }
}

/// A client disconnected: its color slot is freed, and every ship wearing
/// that color is listed for despawning. A client the registry does not know
/// despawns nothing.
pub fn despawn_on_player_disconnect(
    players: &mut Players,
    client_id: u64,
    ships: &Vec<(usize, PlayerColor)>,
) -> (despawn: Vec<usize>)
    requires
        old(players).wf(),
    ensures
        final(players).wf(),
        forall|j: int|
            0 <= j < 6 ==> final(players)@[j] == (if old(players)@[j] == Some(client_id) {
                Option::<u64>::None
            } else {
                old(players)@[j]
            }),
        match spec_color_of(old(players)@, client_id) {
            Some(color) => despawn@ == spec_ships_of_color(ships@, color),
            None => despawn@.len() == 0,
        },
{
    let color = players.color(client_id);
    proof {
        match color {
            Some(c) => {
                assert(players@[c.spec_index()] == Some(client_id));
                assert(exists|i: int| 0 <= i < 6 && players@[i] == Some(client_id));
                let i = choose|i: int| 0 <= i < 6 && players@[i] == Some(client_id);
                assert(i == c.spec_index());
                assert(PlayerColor::spec_get(c.spec_index()) == c);
                assert(spec_color_of(players@, client_id) == Some(c));
            },
            None => {
                assert(spec_color_of(players@, client_id).is_none());
            },
        }
    }
    let mut despawn: Vec<usize> = Vec::new();
    match color {
        Some(c) => {
            let mut i: usize = 0;
            while i < ships.len()
                invariant
                    i <= ships@.len(),
                    despawn@ == spec_ships_of_color(ships@.take(i as int), c),
                decreases ships@.len() - i,
            {
                let e = ships[i];
                if e.1 == c {
                    despawn.push(e.0);
                }
                proof {
                    assert(ships@.take(i + 1).drop_last() =~= ships@.take(i as int));
                    assert(ships@.take(i + 1).last() == e);
                }
                i = i + 1;
            }
            proof {
                assert(ships@.take(ships@.len() as int) =~= ships@);
            }
        },
        None => {},
    }
    players.remove_client(client_id);
    despawn
}

} // verus!
