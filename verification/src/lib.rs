//! A turn-based, single-player text-game engine.
//!
//! The library is the deterministic core of the game: the world's fixed
//! topology, the closed set of player actions and semantic events, the
//! availability resolver that lists the legal actions per location, and the
//! state-transition engine that applies one action per turn, promotes pending
//! job applications after a day boundary, and records every change in an
//! append-only event log.

pub mod action;
pub mod business;
pub mod location;
pub mod laws;
pub mod replay;
pub mod state;
