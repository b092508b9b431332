//! Network module: the plain request and response records that the HTTP,
//! WebSocket and campaign endpoints exchange.

pub mod campaign_routes;
pub mod server;
pub mod zone_routes;
