//! Request and response records for the campaign endpoints.

use vstd::prelude::*;
use crate::game::campaign::CampaignRun;

verus! {

/// Request to start a campaign run
#[derive(Debug, Clone)]
pub struct StartRunRequest {
    pub run_id: String,
}

/// Response for start run
#[derive(Debug, Clone)]
pub struct StartRunResponse {
    pub success: bool,
    pub message: String,
    pub run_id: Option<String>,
}

/// Query parameters for getting run state
#[derive(Debug, Clone)]
pub struct RunStateQuery {
    pub run_id: String,
}

/// Response for run state
#[derive(Debug, Clone)]
pub struct RunStateResponse {
    pub success: bool,
    pub message: String,
    pub run: Option<CampaignRun>,
}

/// Request to stop a run
#[derive(Debug, Clone)]
pub struct StopRunRequest {
    pub run_id: String,
}

/// Response for stop run
#[derive(Debug, Clone)]
pub struct StopRunResponse {
    pub success: bool,
    pub message: String,
}

/// Request to save a run
#[derive(Debug, Clone)]
pub struct SaveRunRequest {
    pub run_id: String,
}

/// Response for save run
#[derive(Debug, Clone)]
pub struct SaveRunResponse {
    pub success: bool,
    pub message: String,
}

/// Response for listing saves
#[derive(Debug, Clone)]
pub struct ListSavesResponse {
    pub success: bool,
    pub message: String,
    pub saves: Vec<String>,
}

/// Request to load a run
#[derive(Debug, Clone)]
pub struct LoadRunRequest {
    pub run_id: String,
}

/// Response for load run
#[derive(Debug, Clone)]
pub struct LoadRunResponse {
    pub success: bool,
    pub message: String,
    pub run: Option<CampaignRun>,
}

} // verus!
