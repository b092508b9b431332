//! GeekCraft core library: authentication with interchangeable storage
//! backends, procedural zone generation, world state, campaign runs and the
//! player-code script store.

pub mod api;
pub mod auth;
pub mod clock;
pub mod config;
pub mod game;
pub mod network;
pub mod scripting;
pub mod strutil;
