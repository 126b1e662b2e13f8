//! Server core for a two-player, turn-based card game played over a
//! line-delimited text protocol.
//!
//! The library holds the verified heart of the system: the per-connection
//! protocol state machine (Intro -> Home -> Roles -> Game), the room roster
//! with login, role assignment and reconnection, the turn engine of a game
//! session, and the message-dispatch discipline that keeps every message
//! inside its own context. Socket handling, JSON framing and the actor
//! plumbing live outside, and talk to this library through plain values.

pub mod client;
pub mod game;
pub mod peer;
pub mod protocol;
pub mod room;
pub mod server;
pub mod session;
pub mod shared;

use vstd::prelude::*;

verus! {

/// The number of seats in the room; a match always runs with this many players.
pub const MAX_PLAYER_COUNT: usize = 2;

} // verus!
