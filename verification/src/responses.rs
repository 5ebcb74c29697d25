//! Replies the state machine returns to client-facing endpoints.

use vstd::prelude::*;

verus! {

/// Reply to a rendez-vous request.
#[derive(PartialEq, Eq, Structural, Debug)]
pub enum RendezVousResponse {
    /// The coordinator accepts the client.
    Accept,
    /// The coordinator rejects the client.
    Reject,
}

/// Reply to a heartbeat.
#[derive(PartialEq, Eq, Structural, Debug)]
pub enum HeartBeatResponse {
    /// The client is unknown or inactive; it must rendez-vous again.
    Reject,
    /// The client is alive but has nothing to do.
    StandBy,
    /// The client is selected for the given round and should train.
    Round(u32),
    /// The campaign is over; the client may disconnect.
    Finish,
}

/// Marker for a request that arrived in a state the protocol cannot
/// accept. The verified entry points exclude such requests by
/// precondition; a host facade may use this value as its error when it
/// guards them.
#[derive(PartialEq, Eq, Structural, Debug)]
pub struct InvalidState;

/// Reply to a start-training request.
#[derive(PartialEq, Eq, Structural, Debug)]
pub enum StartTrainingResponse {
    /// The client is not expected to train now.
    Reject,
    /// The client may start training.
    Accept,
}

} // verus!
