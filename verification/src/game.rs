//! Game module: world management, campaign system, zone generation and the
//! tick simulation.

pub mod campaign;
pub mod simulation;
pub mod world;
pub mod zone;
