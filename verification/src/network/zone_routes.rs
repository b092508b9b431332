//! Request and response records for the zone endpoints.

use vstd::prelude::*;
use crate::game::zone::Zone;

verus! {

/// Request to generate a new zone
#[derive(Debug, Clone)]
pub struct GenerateZoneRequest {
    pub player_id: String,
}

/// Response for zone generation
#[derive(Debug, Clone)]
pub struct GenerateZoneResponse {
    pub success: bool,
    pub message: String,
    pub zone_id: Option<String>,
}

/// Response for getting a zone
#[derive(Debug, Clone)]
pub struct GetZoneResponse {
    pub success: bool,
    pub message: String,
    pub zone: Option<Zone>,
}

/// Response for listing all zones
#[derive(Debug, Clone)]
pub struct ListZonesResponse {
    pub success: bool,
    pub message: String,
    pub zone_ids: Vec<String>,
}

} // verus!
