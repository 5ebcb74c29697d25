//! Population counters: how many clients sit in each lifecycle bucket.

use vstd::prelude::*;

verus! {

/// Counts of the clients presently in each state. `Unknown` is the absence
/// of a record and is not counted.
#[derive(Copy, Clone, PartialEq, Eq, Structural, Default, Debug)]
pub struct Counters {
    /// Admitted clients waiting to be selected.
    pub waiting: u32,
    /// Clients selected for the current round that have not finished
    /// training yet.
    pub selected: u32,
    /// Clients that finished training in the current round and are alive.
    pub done: u32,
    /// Clients that finished training and then went silent.
    pub done_and_inactive: u32,
    /// Clients excluded from the current round.
    pub ignored: u32,
}

impl Counters {
    /// All buckets empty.
    pub open spec fn spec_zero() -> Counters {
        Counters { waiting: 0, selected: 0, done: 0, done_and_inactive: 0, ignored: 0 }
    }

    /// Fresh counters, all buckets empty.
    pub fn new() -> (c: Counters)
        ensures
            c == Counters::spec_zero(),
    {
        Counters { waiting: 0, selected: 0, done: 0, done_and_inactive: 0, ignored: 0 }
    }

    /// Number of clients participating in the current round.
    pub open spec fn participants(self) -> int {
        self.selected + self.done + self.done_and_inactive
    }

    /// Number of clients known to the current round: the participants plus
    /// those still waiting. Ignored clients are not part of it.
    pub open spec fn known_clients(self) -> int {
        self.participants() + self.waiting
    }

    /// Every client the coordinator holds a record of.
    pub open spec fn total(self) -> int {
        self.waiting + self.selected + self.done + self.done_and_inactive + self.ignored
    }
}

} // verus!
