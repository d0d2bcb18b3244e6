//! The query surface exposed upward: application logic asks for the
//! worker's port and gets either the port or a fixed "not ready" answer.

use crate::readiness::ReadinessState;
use vstd::prelude::*;

verus! {

/// Snapshot of the sidecar's readiness as the command layer sees it.
pub struct SidecarState {
    pub port: Option<u16>,
}

impl SidecarState {
    /// Snapshot taken from a readiness state.
    pub fn from_readiness(r: ReadinessState) -> (s: SidecarState)
        ensures
            s.port == r.spec_port(),
    {
        SidecarState { port: r.port() }
    }
}

/// The port of a ready sidecar; while the readiness signal has not arrived,
/// the fixed "not ready" message instead. Never blocks, never panics.
pub fn get_sidecar_port(state: &SidecarState) -> (r: Result<u16, String>)
    ensures
        state.port is Some ==> r == Ok::<u16, String>(state.port->0),
        state.port is None ==> r is Err && r->Err_0@ == "Sidecar not ready"@,
{
    match state.port {
        Some(p) => Ok(p),
        None => Err("Sidecar not ready".to_owned()),
    }
}

} // verus!
