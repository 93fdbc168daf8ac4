//! Asteroids: their replicated state and the values derived from it when one
//! enters the world.

use vstd::prelude::*;
use crate::health::Health;

verus! {

/// Hit points an asteroid enters the world with, in hundredths of a point.
pub const ASTEROID_HEALTH_CENTI: u32 = 20000;

/// Which of the two fixed outline shapes an asteroid wears.
#[derive(Clone, Copy, Debug, PartialEq, Eq, Structural)]
pub enum RoidPath {
    One,
    Two,
}

/// Replicated state of an asteroid: its size, in thousandths of a world
/// unit, and its outline.
#[derive(Clone, Copy, Debug, PartialEq, Eq, Structural)]
pub struct Asteroid {
    pub scale_milli: i64,
    pub path: RoidPath,
}

impl Default for Asteroid {
    fn default() -> (a: Self)
        ensures
            a == (Asteroid { scale_milli: 16_000i64, path: RoidPath::One }),
    {
        Asteroid { scale_milli: 16_000, path: RoidPath::One }
    }
}

/// What the server attaches to a fresh asteroid: a square collider of half
/// its scale on each side, and a full health bar.
#[derive(Clone, Copy, Debug, PartialEq, Eq, Structural)]
pub struct AsteroidSetup {
    pub collider_half_milli: i64,
    pub health: Health,
}

pub fn asteroid_setup(asteroid: &Asteroid) -> (r: AsteroidSetup)
    requires
        asteroid.scale_milli >= 0,
    ensures
        r.collider_half_milli == asteroid.scale_milli / 2,
        r.health == (Health { current: ASTEROID_HEALTH_CENTI, max: ASTEROID_HEALTH_CENTI }),
        r.health.wf(),
{
    AsteroidSetup {
        collider_half_milli: asteroid.scale_milli / 2,
        health: Health { current: ASTEROID_HEALTH_CENTI, max: ASTEROID_HEALTH_CENTI },
    }
}

} // verus!
