//! In-memory session registry for a turn-based two-player game service.
//!
//! The library is split into a pure board engine ([`game`]), a bounded
//! session registry that owns players and games ([`game_manager`]), and the
//! typed request/response shapes of the service boundary
//! ([`request_response`]). Pseudo-random choices are drawn from a
//! deterministic generator that is reseeded on every draw ([`rng`]), so a
//! whole game is reproducible from its inputs.

use vstd::prelude::*;

pub mod error;
pub mod game;
pub mod game_manager;
pub mod request_response;
pub mod rng;

verus! {

/// Capacity of the games collection: inserting past it evicts the oldest game.
pub const GAMES_MAX_COUNT: usize = 1024;

/// Capacity of the players collection: inserting past it evicts the oldest player.
pub const PLAYERS_MAX_COUNT: usize = 1024;

/// Longest accepted display name, in bytes.
pub const USER_NAME_MAX_LEN: usize = 1024;

} // verus!
