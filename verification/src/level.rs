//! Building a round's level: the arena, a handful of power-ups, and a field
//! of asteroids, all placed by random draw inside the spawn box.

use vstd::prelude::*;
use crate::arena::{Arena, Force, ARENA_START_HEIGHT_MILLI, ARENA_START_WIDTH_MILLI};
use crate::asteroid::{Asteroid, RoidPath};
use crate::powerup::{Debuff, PowerUp};
use crate::rng::{rand_range_i64, rand_range_u64};

verus! {

/// Horizontal half-extent of the spawn box, in thousandths of a world unit.
pub const SPAWN_BOX_HALF_WIDTH_MILLI: i64 = 850_000;

/// Vertical half-extent of the spawn box, in thousandths of a world unit.
pub const SPAWN_BOX_HALF_HEIGHT_MILLI: i64 = 400_000;

/// Fewest power-ups a level starts with.
pub const LEVEL_MIN_POWERUPS: u64 = 1;

/// One more than the most power-ups a level starts with.
pub const LEVEL_MAX_POWERUPS: u64 = 5;

/// Fewest asteroids a level starts with.
pub const LEVEL_MIN_ASTEROIDS: u64 = 30;

/// One more than the most asteroids a level starts with.
pub const LEVEL_MAX_ASTEROIDS: u64 = 45;

/// Smallest asteroid scale drawn, in thousandths of a world unit.
pub const ASTEROID_MIN_SCALE_MILLI: i64 = 16_000;

/// Exclusive upper bound on the asteroid scale drawn.
pub const ASTEROID_MAX_SCALE_MILLI: i64 = 64_000;

/// A full turn, in thousandths of a radian; rotations are drawn below it.
pub const TAU_MILLI_RAD: i64 = 6283;

/// A power-up waiting in the world, with the debuff it is paired with.
#[derive(Clone, Copy, Debug, PartialEq, Eq, Structural)]
pub struct PowerupSpawn {
    pub x_milli: i64,
    pub y_milli: i64,
    pub powerup: PowerUp,
    pub debuff: Debuff,
}

impl PowerupSpawn {
    /// Spawned power-ups come in exactly two fixed pairs.
    pub open spec fn wf(self) -> bool {
        &&& -SPAWN_BOX_HALF_WIDTH_MILLI <= self.x_milli < SPAWN_BOX_HALF_WIDTH_MILLI
        &&& -SPAWN_BOX_HALF_HEIGHT_MILLI <= self.y_milli < SPAWN_BOX_HALF_HEIGHT_MILLI
        &&& (self.powerup == PowerUp::RapidFire && self.debuff == Debuff::Slowed) || (self.powerup
            == PowerUp::Scattergun && self.debuff == Debuff::Inaccuracy)
    }
}

/// An asteroid placed at round start.
#[derive(Clone, Copy, Debug, PartialEq, Eq, Structural)]
pub struct AsteroidSpawn {
    pub x_milli: i64,
    pub y_milli: i64,
    pub rotation_milli_rad: i64,
    pub asteroid: Asteroid,
}

impl AsteroidSpawn {
    pub open spec fn wf(self) -> bool {
        &&& -SPAWN_BOX_HALF_WIDTH_MILLI <= self.x_milli < SPAWN_BOX_HALF_WIDTH_MILLI
        &&& -SPAWN_BOX_HALF_HEIGHT_MILLI <= self.y_milli < SPAWN_BOX_HALF_HEIGHT_MILLI
        &&& 0 <= self.rotation_milli_rad < TAU_MILLI_RAD
        &&& ASTEROID_MIN_SCALE_MILLI <= self.asteroid.scale_milli < ASTEROID_MAX_SCALE_MILLI
    }
}

/// Everything the server spawns when play begins.
pub struct LevelPlan {
    pub arena: Arena,
    pub powerups: Vec<PowerupSpawn>,
    pub asteroids: Vec<AsteroidSpawn>,
}

impl LevelPlan {
    pub open spec fn wf(self) -> bool {
        &&& self.arena == (Arena {
            starting_width_milli: ARENA_START_WIDTH_MILLI,
            starting_height_milli: ARENA_START_HEIGHT_MILLI,
            current_width_milli: ARENA_START_WIDTH_MILLI,
            current_height_milli: ARENA_START_HEIGHT_MILLI,
            time_spawned_ms: self.arena.time_spawned_ms,
            friendly_force: Force::Neutral,
        })
        &&& LEVEL_MIN_POWERUPS <= self.powerups@.len() < LEVEL_MAX_POWERUPS
        &&& LEVEL_MIN_ASTEROIDS <= self.asteroids@.len() < LEVEL_MAX_ASTEROIDS
        &&& forall|i: int| 0 <= i < self.powerups@.len() ==> (#[trigger] self.powerups@[i]).wf()
        &&& forall|i: int| 0 <= i < self.asteroids@.len() ==> (#[trigger] self.asteroids@[i]).wf()
    }
}

/// Lays out a fresh level at `now_ms`: the full-size arena, one to four
/// power-ups of the two fixed pairs, and thirty to forty-four asteroids, all
/// placed uniformly inside the spawn box.
pub fn build_level(now_ms: u64) -> (plan: LevelPlan)
    ensures
        plan.wf(),
        plan.arena.time_spawned_ms == now_ms,
        plan.arena.wf(),
{
    let arena = Arena::new(ARENA_START_WIDTH_MILLI, ARENA_START_HEIGHT_MILLI, now_ms, Force::Neutral);

    let mut powerups: Vec<PowerupSpawn> = Vec::new();
    let n_powerups = rand_range_u64(LEVEL_MIN_POWERUPS, LEVEL_MAX_POWERUPS);
    let mut i: u64 = 0;
    while i < n_powerups
        invariant
            i <= n_powerups,
            n_powerups < LEVEL_MAX_POWERUPS,
            powerups@.len() == i,
            forall|k: int| 0 <= k < powerups@.len() ==> (#[trigger] powerups@[k]).wf(),
        decreases n_powerups - i,
    {
        let x = rand_range_i64(-SPAWN_BOX_HALF_WIDTH_MILLI, SPAWN_BOX_HALF_WIDTH_MILLI);
        let y = rand_range_i64(-SPAWN_BOX_HALF_HEIGHT_MILLI, SPAWN_BOX_HALF_HEIGHT_MILLI);
        let (powerup, debuff) = if rand_range_u64(0, 2) == 0 {
            (PowerUp::RapidFire, Debuff::Slowed)
        } else {
            (PowerUp::Scattergun, Debuff::Inaccuracy)
        };
        powerups.push(PowerupSpawn { x_milli: x, y_milli: y, powerup, debuff });
        i = i + 1;
    }

    let mut asteroids: Vec<AsteroidSpawn> = Vec::new();
    let n_asteroids = rand_range_u64(LEVEL_MIN_ASTEROIDS, LEVEL_MAX_ASTEROIDS);
    let mut j: u64 = 0;
    while j < n_asteroids
        invariant
            j <= n_asteroids,
            n_asteroids < LEVEL_MAX_ASTEROIDS,
            asteroids@.len() == j,
            forall|k: int| 0 <= k < asteroids@.len() ==> (#[trigger] asteroids@[k]).wf(),
        decreases n_asteroids - j,
    {
        let path = if rand_range_u64(0, 10) % 2 == 0 {
            RoidPath::One
        } else {
            RoidPath::Two
        };
        let x = rand_range_i64(-SPAWN_BOX_HALF_WIDTH_MILLI, SPAWN_BOX_HALF_WIDTH_MILLI);
        let y = rand_range_i64(-SPAWN_BOX_HALF_HEIGHT_MILLI, SPAWN_BOX_HALF_HEIGHT_MILLI);
        let scale = rand_range_i64(ASTEROID_MIN_SCALE_MILLI, ASTEROID_MAX_SCALE_MILLI);
        let rotation = rand_range_i64(0, TAU_MILLI_RAD);
        asteroids.push(
            AsteroidSpawn {
                x_milli: x,
                y_milli: y,
                rotation_milli_rad: rotation,
                asteroid: Asteroid { scale_milli: scale, path },
            },
        );
        j = j + 1;
    }

    LevelPlan { arena, powerups, asteroids }
}

} // verus!
