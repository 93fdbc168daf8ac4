//! Weapons and their rate limit: a weapon may fire again only after more than
//! one cooldown (the reciprocal of its fire rate) has passed since its last shot.

use vstd::prelude::*;
use crate::rng::rand_range_i64;

verus! {

/// Fire rate of the default laser, in thousandths of shots per second (10 per second).
pub const DEFAULT_LASER_RATE_MILLI: u32 = 10000;

/// Fire rate of the laser a fresh ship spawns with (1.5 shots per second).
pub const SPAWN_LASER_RATE_MILLI: u32 = 1500;

/// How far a laser travels in a second, in world units.
pub const LASER_UNITS_PER_SECOND: u64 = 1000;

/// Damage a laser deals on a hit, in hundredths of a hit point.
pub const LASER_DAMAGE_CENTI: u32 = 5000;

/// Magnitude of the knockback a laser hit applies, in world units of impulse.
pub const LASER_DAMAGE_IMPULSE: i64 = 50;

/// Half-width of the scattergun's spread, in thousandths of a radian
/// (one third of a full turn).
pub const SCATTER_SPREAD_MILLI_RAD: i64 = 2094;

#[derive(Clone, Copy, Debug, PartialEq, Eq, Structural)]
pub enum WeaponType {
    Laser {
        /// How often this can fire, in thousandths of shots per second.
        fire_rate_milli: u32,
    },
    Scattergun {
        fire_rate_milli: u32,
        /// How many pellets one trigger pull spreads.
        count: u8,
    },
}

impl WeaponType {
    pub open spec fn spec_fire_rate_milli(self) -> u32 {
        match self {
            WeaponType::Laser { fire_rate_milli } => fire_rate_milli,
            WeaponType::Scattergun { fire_rate_milli, .. } => fire_rate_milli,
        }
    }

    /// A fire rate of zero would never allow a shot; it is ruled out.
    pub open spec fn wf(self) -> bool {
        self.spec_fire_rate_milli() > 0
    }
}

impl Default for WeaponType {
    /// The standard ten-shots-per-second laser.
    fn default() -> (t: Self)
        ensures
            t == (WeaponType::Laser { fire_rate_milli: DEFAULT_LASER_RATE_MILLI }),
            t.wf(),
    {
        WeaponType::Laser { fire_rate_milli: DEFAULT_LASER_RATE_MILLI }
    }
}

/// A weapon instance: its type and when it last fired, in milliseconds of
/// elapsed game time.
#[derive(Clone, Copy, Debug, PartialEq, Eq, Structural)]
pub struct Weapon {
    pub weapon_type: WeaponType,
    pub last_fire_ms: u64,
}

/// One trigger pull's worth of projectiles: for each, its heading offset from
/// the ship's facing, in thousandths of a radian.
pub struct FirePlan {
    pub offsets_milli_rad: Vec<i64>,
}

impl Weapon {
    pub open spec fn wf(self) -> bool {
        self.weapon_type.wf()
    }

    /// Milliseconds that must pass between shots: the reciprocal of the fire rate.
    pub open spec fn spec_cooldown_ms(self) -> int {
        1_000_000int / self.weapon_type.spec_fire_rate_milli() as int
    }

    /// The rate limit: more than one cooldown must lie between `last_fire_ms`
    /// and `now_ms`.
    pub open spec fn spec_can_fire(self, now_ms: u64) -> bool {
        now_ms > self.last_fire_ms + self.spec_cooldown_ms()
    }

    pub fn new(weapon_type: WeaponType) -> (w: Weapon)
        ensures
            w == (Weapon { weapon_type, last_fire_ms: 0u64 }),
    {
        Weapon { weapon_type, last_fire_ms: 0 }
    }

    /// Pulls the trigger at `now_ms`. Fires exactly when the rate limit allows
    /// it, recording the shot time; a laser sends one projectile straight
    /// ahead, a scattergun sends `count` pellets at random spread offsets.
    pub fn try_fire(&mut self, now_ms: u64) -> (r: Option<FirePlan>)
        requires
            old(self).wf(),
        ensures
            r.is_some() == old(self).spec_can_fire(now_ms),
            final(self).weapon_type == old(self).weapon_type,
            final(self).wf(),
            r.is_some() ==> final(self).last_fire_ms == now_ms,
            r.is_none() ==> *final(self) == *old(self),
            match r {
                Some(plan) => match old(self).weapon_type {
                    WeaponType::Laser { .. } => plan.offsets_milli_rad@ =~= seq![0i64],
                    WeaponType::Scattergun { count, .. } => {
                        &&& plan.offsets_milli_rad@.len() == count
                        &&& forall|i: int|
                            0 <= i < plan.offsets_milli_rad@.len()
                                ==> -SCATTER_SPREAD_MILLI_RAD
                                    <= #[trigger] plan.offsets_milli_rad@[i]
                                    <= SCATTER_SPREAD_MILLI_RAD
                    },
                },
                None => true,
            },
    {
        let fire_rate_milli = match self.weapon_type {
            WeaponType::Laser { fire_rate_milli } => fire_rate_milli,
            WeaponType::Scattergun { fire_rate_milli, .. } => fire_rate_milli,
        };
        let cooldown_ms: u64 = 1_000_000 / fire_rate_milli as u64;
        if now_ms <= self.last_fire_ms || now_ms - self.last_fire_ms <= cooldown_ms {
            return None;
        }
        let plan = match self.weapon_type {
            WeaponType::Laser { .. } => {
                let mut offsets: Vec<i64> = Vec::new();
                offsets.push(0);
                assert(offsets@ =~= seq![0i64]);
                FirePlan { offsets_milli_rad: offsets }
            },
            WeaponType::Scattergun { count, .. } => {
                let mut offsets: Vec<i64> = Vec::new();
                let mut fired: u8 = 0;
                while fired < count
                    invariant
                        fired <= count,
                        offsets@.len() == fired,
                        forall|i: int|
                            0 <= i < offsets@.len()
                                ==> -SCATTER_SPREAD_MILLI_RAD <= #[trigger] offsets@[i]
                                    <= SCATTER_SPREAD_MILLI_RAD,
                    decreases count - fired,
                {
                    let offset = rand_range_i64(
                        -SCATTER_SPREAD_MILLI_RAD,
                        SCATTER_SPREAD_MILLI_RAD + 1,
                    );
                    offsets.push(offset);
                    fired = fired + 1;
                }
                FirePlan { offsets_milli_rad: offsets }
            },
        };
        self.last_fire_ms = now_ms;
        Some(plan)
    }
}

/// The rate limit holds across calls: a weapon that fires at `t1` and, with
/// that shot recorded, fires again at `t2`, waited more than one cooldown.
pub proof fn lemma_fire_rate_limited(w: Weapon, t1: u64, t2: u64)
    requires
        w.spec_can_fire(t1),
        (Weapon { last_fire_ms: t1, ..w }).spec_can_fire(t2),
    ensures
        t2 - t1 > w.spec_cooldown_ms(),
{
}

/// Decision taken when a laser's swept ray strikes an entity: everything but
/// the shooter's own property takes laser damage; a hit on it is ignored.
pub fn laser_strike(laser_owner: u64, struck_owner: Option<u64>) -> (damage: Option<u32>)
    ensures
        damage == (if struck_owner == Some(laser_owner) {
            Option::<u32>::None
        } else {
            Some(LASER_DAMAGE_CENTI)
        }),
{
    match struck_owner {
        Some(o) if o == laser_owner => None,
        _ => Some(LASER_DAMAGE_CENTI),
    }
}

impl Default for Weapon {
    /// The standard laser, never yet fired.
    fn default() -> (w: Self)
        ensures
            w == (Weapon {
                weapon_type: WeaponType::Laser { fire_rate_milli: DEFAULT_LASER_RATE_MILLI },
                last_fire_ms: 0u64,
            }),
    {
        Weapon {
            weapon_type: WeaponType::Laser { fire_rate_milli: DEFAULT_LASER_RATE_MILLI },
            last_fire_ms: 0,
        }
    }
}

/// The knockback a laser hit adds to the struck body: the laser's facing
/// (a unit vector scaled by 1000) times the impulse magnitude.
pub fn laser_impulse(dir_x_milli: i64, dir_y_milli: i64) -> (r: (i64, i64))
    requires
        -1000 <= dir_x_milli <= 1000,
        -1000 <= dir_y_milli <= 1000,
    ensures
        r.0 == dir_x_milli * LASER_DAMAGE_IMPULSE,
        r.1 == dir_y_milli * LASER_DAMAGE_IMPULSE,
{
    (dir_x_milli * LASER_DAMAGE_IMPULSE, dir_y_milli * LASER_DAMAGE_IMPULSE)
}

} // verus!
