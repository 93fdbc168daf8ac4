//! What the game plays: the looping soundtrack and the laser shot, the
//! latter at a slightly random playback rate so shots do not all sound alike.

use vstd::prelude::*;
use crate::rng::rand_range_u64;

verus! {

/// Slowest laser-shot playback rate, in thousandths of normal speed.
pub const SHOT_RATE_MIN_MILLI: u64 = 750;

/// Exclusive upper bound on the laser-shot playback rate.
pub const SHOT_RATE_MAX_MILLI: u64 = 1125;

/// The game's audio: one looping music track, and a pitch-varied laser shot.
pub struct SqueezeAudioPlugin;

impl SqueezeAudioPlugin {
    /// The soundtrack started at launch, played in a loop.
    pub fn music_track() -> (s: String)
        ensures
            s@ == "stellar_squeezebox.mp3"@,
    {
        "stellar_squeezebox.mp3".to_string()
    }

    /// The sound a laser shot plays.
    pub fn shot_sound() -> (s: String)
        ensures
            s@ == "laserShoot.mp3"@,
    {
        "laserShoot.mp3".to_string()
    }

    /// The playback rate drawn for one laser shot, in thousandths of normal
    /// speed: always within the fixed band around normal.
    pub fn shot_playback_rate_milli() -> (r: u64)
        ensures
            SHOT_RATE_MIN_MILLI <= r < SHOT_RATE_MAX_MILLI,
    {
        rand_range_u64(SHOT_RATE_MIN_MILLI, SHOT_RATE_MAX_MILLI)
    }
}

} // verus!
