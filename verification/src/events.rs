//! Side-effect intents the state machine emits for the host to apply.

use vstd::prelude::*;
use crate::client::{ClientId, ClientState};

verus! {

/// One outbound intent. The host drains the queue in first-in-first-out
/// order after every entry-point call and applies each intent to its
/// collaborators: registry, selector, aggregator or timer service.
#[derive(PartialEq, Eq, Structural, Debug)]
pub enum Event {
    /// Register the client as `Waiting`.
    Accept(ClientId),
    /// Forget the client entirely.
    Remove(ClientId),
    /// Update the client's state in the registry.
    SetState(ClientId, ClientState),
    /// Move every surviving client to `Waiting`; discard the inactive ones.
    ResetAll,
    /// Restart the heartbeat timer for the client.
    ResetHeartBeat(ClientId),
    /// Invoke the aggregator on the current round's results.
    RunAggregation,
    /// Ask the selector to nominate this many `Waiting` clients.
    RunSelection(u32),
    /// The given round completed successfully.
    EndRound(u32),
}

} // verus!
