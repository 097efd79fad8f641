//! Timing traces recorded while serving gateway requests.

use vstd::prelude::*;

verus! {

/// Timestamps collected while electing a gateway.
#[derive(Debug, Clone, Copy, PartialEq, Eq, Structural)]
pub struct ElectGatewayTrace {
    pub receive: u64,
    pub deserialize: u64,
    pub validation_complete: u64,
    pub gateway_election_saved: u64,
}

/// Timestamps collected while fetching a gateway.
#[derive(Debug, Clone, Copy, PartialEq, Eq, Structural)]
pub struct GetGatewayTrace {
    pub receive: u64,
    pub gateway_fetched: u64,
}

impl Default for ElectGatewayTrace {
    /// All timestamps zero: nothing recorded yet.
    fn default() -> (t: Self)
        ensures
            t.receive == 0,
            t.deserialize == 0,
            t.validation_complete == 0,
            t.gateway_election_saved == 0,
    {
        ElectGatewayTrace { receive: 0, deserialize: 0, validation_complete: 0, gateway_election_saved: 0 }
    }
}

impl Default for GetGatewayTrace {
    /// All timestamps zero: nothing recorded yet.
    fn default() -> (t: Self)
        ensures
            t.receive == 0,
            t.gateway_fetched == 0,
    {
        GetGatewayTrace { receive: 0, gateway_fetched: 0 }
    }
}

} // verus!
