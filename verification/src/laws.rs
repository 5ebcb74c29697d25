//! Protocol-wide laws, stated over the entry points' transition relations
//! and the selection policy, and proved once and for all.

use vstd::prelude::*;
use crate::client::{ClientId, ClientState};
use crate::counters::Counters;
use crate::events::Event;
use crate::policy::{
    lemma_full_ratio_exact, lemma_select_needed_bounds, select_needed_in, selection_events_in,
};
use crate::protocol::{
    end_training_transition, heartbeat_transition, rendez_vous_transition, Protocol,
};
use crate::responses::{HeartBeatResponse, RendezVousResponse};
use crate::settings::FederatedLearningSettings;

verus! {

/// Every counter is non-negative, in every state the driver can hold.
pub proof fn lemma_counters_nonnegative(c: Counters)
    ensures
        c.waiting >= 0,
        c.selected >= 0,
        c.done >= 0,
        c.done_and_inactive >= 0,
        c.ignored >= 0,
{
}

/// Once training is complete, every rendez-vous is rejected and leaves the
/// driver untouched. Completion itself is never cleared by any transition,
/// so this holds of every subsequent call.
pub proof fn lemma_complete_rejects_rendez_vous(
    pre: Protocol,
    post: Protocol,
    id: ClientId,
    client_state: ClientState,
    r: RendezVousResponse,
)
    requires
        pre.is_training_complete,
        rendez_vous_transition(pre, post, id, client_state, r),
    ensures
        r == RendezVousResponse::Reject,
        post.is_training_complete,
        post.counters == pre.counters,
        post.events@ == pre.events@,
{
}

/// Once training is complete, every heartbeat is answered with `Finish`,
/// whatever the client's state.
pub proof fn lemma_complete_finishes_heartbeat(
    pre: Protocol,
    post: Protocol,
    id: ClientId,
    client_state: ClientState,
    r: HeartBeatResponse,
)
    requires
        pre.is_training_complete,
        heartbeat_transition(pre, post, id, client_state, r),
    ensures
        r == HeartBeatResponse::Finish,
        post.is_training_complete,
        post.counters == pre.counters,
{
}

/// While an aggregation is pending, an end-training request is a no-op:
/// counters, flags, round and queue all stay as they were.
pub proof fn lemma_end_training_noop_during_aggregation(
    pre: Protocol,
    post: Protocol,
    id: ClientId,
    success: bool,
    client_state: ClientState,
)
    requires
        pre.waiting_for_aggregation,
        end_training_transition(pre, post, id, success, client_state),
    ensures
        post.counters == pre.counters,
        post.events@ == pre.events@,
        post.waiting_for_aggregation == pre.waiting_for_aggregation,
        post.is_training_complete == pre.is_training_complete,
        post.current_round == pre.current_round,
{
}

/// Whenever an end-training call emits `ResetAll`, the counters it leaves
/// behind have `selected`, `done`, `done_and_inactive` and `ignored` all
/// zero: every surviving client is back in the waiting pool. No other
/// entry point emits `ResetAll`.
pub proof fn lemma_reset_all_zeroes_counters(
    pre: Protocol,
    post: Protocol,
    id: ClientId,
    success: bool,
    client_state: ClientState,
)
    requires
        end_training_transition(pre, post, id, success, client_state),
        exists|i: int|
            pre.events@.len() <= i < post.events@.len() && post.events@[i] == Event::ResetAll,
    ensures
        post.counters.selected == 0,
        post.counters.done == 0,
        post.counters.done_and_inactive == 0,
        post.counters.ignored == 0,
{
    let i = choose|i: int|
        pre.events@.len() <= i < post.events@.len() && post.events@[i] == Event::ResetAll;
    if pre.is_training_complete || pre.waiting_for_aggregation || client_state
        != ClientState::Selected {
        assert(post.events@.len() == pre.events@.len());
    } else {
        let stepped = Counters { selected: (pre.counters.selected - 1) as u32, ..pre.counters };
        let sel = selection_events_in(
            post.settings,
            post.counters,
            post.is_training_complete,
            post.waiting_for_aggregation,
        );
        assert(sel.len() <= 1 && (sel.len() == 1 ==> !(sel[0] is ResetAll)));
        if success {
            let finished = Counters { done: (stepped.done + 1) as u32, ..stepped };
            if finished.selected == 0 && select_needed_in(pre.settings, finished, false, false)
                == 0 {
                // The branch that does emit ResetAll: it also zeroes the
                // four buckets.
            } else {
                assert(post.events@[i] == (seq![Event::SetState(id, ClientState::Done)] + sel)[i
                    - pre.events@.len()]);
                assert(false);
            }
        } else {
            assert(post.events@[i] == (seq![Event::SetState(id, ClientState::Ignored)] + sel)[i
                - pre.events@.len()]);
            assert(false);
        }
    }
}

/// The selection policy never emits a `RunSelection(0)` and never asks for
/// more clients than are waiting: one re-evaluation appends at most one
/// event, and that event carries a positive count bounded by the waiting
/// pool.
pub proof fn lemma_run_selection_events_bounded(
    s: FederatedLearningSettings,
    c: Counters,
    training_complete: bool,
    waiting_for_aggregation: bool,
)
    requires
        s.wf(),
    ensures
        ({
            let evs = selection_events_in(s, c, training_complete, waiting_for_aggregation);
            let needed = select_needed_in(s, c, training_complete, waiting_for_aggregation);
            &&& evs.len() <= 1
            &&& evs.len() == 1 ==> evs[0] == Event::RunSelection(needed as u32) && 0 < needed
                <= c.waiting
        }),
{
    lemma_select_needed_bounds(s, c, training_complete, waiting_for_aggregation);
}

/// Two successive rendez-vous calls for a waiting client are
/// observationally equivalent to one: same reply, same counters, same
/// flags and round, and the second call appends exactly the events the
/// first one appended. When no selection is pending, the second call
/// appends nothing at all.
pub proof fn lemma_rendez_vous_waiting_idempotent(
    p0: Protocol,
    p1: Protocol,
    p2: Protocol,
    id: ClientId,
    r1: RendezVousResponse,
    r2: RendezVousResponse,
)
    requires
        rendez_vous_transition(p0, p1, id, ClientState::Waiting, r1),
        rendez_vous_transition(p1, p2, id, ClientState::Waiting, r2),
    ensures
        r1 == r2,
        p2.counters == p1.counters,
        p2.is_training_complete == p1.is_training_complete,
        p2.waiting_for_aggregation == p1.waiting_for_aggregation,
        p2.current_round == p1.current_round,
        p2.settings == p1.settings,
        p2.events@.skip(p1.events@.len() as int) == p1.events@.skip(p0.events@.len() as int),
        p0.select_needed() == 0 ==> p2.events@ == p1.events@,
{
    if p0.is_training_complete {
        assert(p1.events@.skip(p0.events@.len() as int) =~= Seq::<Event>::empty());
        assert(p2.events@.skip(p1.events@.len() as int) =~= Seq::<Event>::empty());
    } else {
        let sel = selection_events_in(
            p0.settings,
            p0.counters,
            p0.is_training_complete,
            p0.waiting_for_aggregation,
        );
        assert(p1.events@ =~= p0.events@ + sel);
        assert(p2.events@ =~= p1.events@ + sel);
        assert(p1.events@.skip(p0.events@.len() as int) =~= sel);
        assert(p2.events@.skip(p1.events@.len() as int) =~= sel);
        if p0.select_needed() == 0 {
            assert(p2.events@ =~= p1.events@);
        }
    }
}

/// With the selection share at 1, selection fires exactly once the waiting
/// pool reaches `min_clients`, and it then asks for the whole pool: from a
/// round with no participants yet, the policy's need is `waiting` when
/// `waiting >= min_clients` and zero below that threshold.
pub proof fn lemma_full_ratio_selection_threshold(s: FederatedLearningSettings, c: Counters)
    requires
        s.wf(),
        s.participants_ratio.numerator == s.participants_ratio.denominator,
        c.participants() == 0,
    ensures
        select_needed_in(s, c, false, false) == if c.waiting >= s.min_clients {
            c.waiting as int
        } else {
            0
        },
{
    lemma_full_ratio_exact(s.participants_ratio, c.known_clients());
    lemma_full_ratio_exact(s.participants_ratio, s.min_clients as int);
}

} // verus!
