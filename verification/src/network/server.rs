//! Request and response records for the HTTP and WebSocket endpoints, and
//! the plain TCP echo server's configuration.  The transport itself (axum
//! routing, sockets, JSON) lives in the embedding application; these are
//! the values it exchanges with the library.

use vstd::prelude::*;

verus! {

/// A plain TCP server's configuration: the address it will listen on.
pub struct Server {
    address: String,
}

impl Server {
    /// The configured listen address.
    pub closed spec fn spec_address(&self) -> Seq<char> {
        self.address@
    }

    /// Create a server bound (later) to the given address.
    pub fn new(address: &str) -> (r: Self)
        ensures
            r.spec_address() == address@,
    {
        Server { address: address.to_owned() }
    }

    /// The configured listen address.
    pub fn address(&self) -> (r: &String)
        ensures
            r@ == self.spec_address(),
    {
        &self.address
    }
}

/// Request to submit player code
#[derive(Debug, Clone)]
pub struct CodeSubmission {
    pub code: String,
}

/// Response after code submission
#[derive(Debug, Clone)]
pub struct CodeSubmissionResponse {
    pub success: bool,
    pub message: String,
}

/// Response for getting player code
#[derive(Debug, Clone)]
pub struct PlayerCodeResponse {
    pub player_id: String,
    pub code: Option<String>,
}

/// Response for listing players
#[derive(Debug, Clone)]
pub struct PlayersListResponse {
    pub players: Vec<String>,
}

/// Game state response
#[derive(Debug, Clone)]
pub struct GameStateResponse {
    pub tick: u64,
    pub players: Vec<String>,
}

} // verus!
