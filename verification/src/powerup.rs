//! Power-ups and their paired debuffs. Consuming one applies the pair to the
//! colliding player and resets that player's weapon.

use vstd::prelude::*;
use crate::player::Player;
use crate::weapons::{Weapon, WeaponType, DEFAULT_LASER_RATE_MILLI};

verus! {

#[derive(Clone, Copy, Debug, PartialEq, Eq, Structural)]
pub enum PowerUp {
    HitherThither,
    TripleShot,
    RapidFire,
    Shield,
    Scattergun,
}

impl Default for PowerUp {
    fn default() -> (p: Self)
        ensures
            p == PowerUp::RapidFire,
    {
        PowerUp::RapidFire
    }
}

#[derive(Clone, Copy, Debug, PartialEq, Eq, Structural)]
pub enum Debuff {
    Slowed,
    Inaccuracy,
    HealthBurn,
    ReversedControls,
}

impl Default for Debuff {
    fn default() -> (d: Self)
        ensures
            d == Debuff::Slowed,
    {
        Debuff::Slowed
    }
}

/// What a collectible sitting in the world carries: a power-up and its debuff.
#[derive(Clone, Copy, Debug, PartialEq, Eq, Structural)]
pub struct Collectible {
    pub powerup: PowerUp,
    pub debuff: Debuff,
    pub pos_x_milli: i64,
    pub pos_y_milli: i64,
}

/// A player drove into a collectible: the pair lands on the player, and the
/// player's weapon is replaced by the standard laser, cooldown cleared.
pub fn collect_powerup(player: &mut Player, weapon: &mut Weapon, powerup: PowerUp, debuff: Debuff)
    ensures
        final(player).powerup == Some(powerup),
        final(player).debuff == Some(debuff),
        final(player).color == old(player).color,
        *final(weapon) == (Weapon {
            weapon_type: WeaponType::Laser { fire_rate_milli: DEFAULT_LASER_RATE_MILLI },
            last_fire_ms: 0u64,
        }),
{
    player.powerup = Some(powerup);
    player.debuff = Some(debuff);
    *weapon = Weapon {
        weapon_type: WeaponType::Laser { fire_rate_milli: DEFAULT_LASER_RATE_MILLI },
        last_fire_ms: 0,
    };
}

} // verus!
