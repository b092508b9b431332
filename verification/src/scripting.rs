//! Scripting module: sandbox store for player-submitted code.

pub mod sandbox;

pub use sandbox::Sandbox;
pub use sandbox::ScriptEngine;
