//! Client identifiers and the lifecycle states the coordinator distinguishes.

use vstd::prelude::*;

verus! {

/// Opaque identifier for a client. The coordinator never inspects it; it only
/// copies it into the events it emits, so hosts may choose any numbering.
#[derive(Copy, Clone, PartialEq, Eq, Structural, Hash, Debug)]
pub struct ClientId {
    pub id: u32,
}

impl ClientId {
    /// The default identifier. Hosts that track several clients give each one
    /// a distinct value through `with_id`.
    pub fn new() -> (c: ClientId)
        ensures
            c.id == 0,
    {
        ClientId { id: 0 }
    }

    /// An identifier with the given value.
    pub fn with_id(id: u32) -> (c: ClientId)
        ensures
            c.id == id,
    {
        ClientId { id }
    }
}

/// The state of a client as the caller reports it. The registry that owns the
/// (identifier, state) mapping lives outside the core; every entry point takes
/// the current state as an argument.
#[derive(Copy, Clone, PartialEq, Eq, Structural, Hash, Debug)]
pub enum ClientState {
    /// Never seen, or forgotten; the coordinator holds no record.
    Unknown,
    /// Admitted and eligible for selection in the current round.
    Waiting,
    /// Chosen for the current round; expected to train.
    Selected,
    /// Finished training in the current round, still alive.
    Done,
    /// Finished training, then went silent.
    DoneAndInactive,
    /// Alive but excluded from the current round.
    Ignored,
}

} // verus!
