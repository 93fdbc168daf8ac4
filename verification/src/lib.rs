//! Server-authoritative rules of a small multiplayer space-combat arcade game.
//!
//! The crate models the game's state on plain values: times are milliseconds,
//! distances are thousandths of a world unit, hit points are hundredths of a
//! point. The host engine (rendering, physics, scheduling, networking) stays
//! outside; it hands these functions plain values and applies their decisions.

pub mod arena;
pub mod asteroid;
pub mod audio;
pub mod game_state;
pub mod health;
pub mod input;
pub mod ip_text;
pub mod level;
pub mod matchmaking;
pub mod net;
pub mod player;
pub mod powerup;
pub mod projectiles;
pub mod weapons;

mod rng;
