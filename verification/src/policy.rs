//! The selection policy: whether, and how many, additional clients to select.

use vstd::prelude::*;
use vstd::arithmetic::div_mod::{
    lemma_div_is_ordered, lemma_div_multiples_vanish, lemma_div_multiples_vanish_fancy,
    lemma_div_pos_is_pos,
};
use vstd::arithmetic::mul::{lemma_mul_inequality, lemma_mul_nonnegative};
use crate::counters::Counters;
use crate::events::Event;
use crate::settings::{ceil_ratio, floor_ratio, FederatedLearningSettings, Ratio};

verus! {

/// How many more clients the current round should select, given the
/// configuration, the counters and the two phase flags. Zero means the
/// policy asks for nobody: the campaign is complete, an aggregation is
/// pending, enough clients already participate, or the population is still
/// too small. Otherwise the target participant count is
/// `ceil(participants_ratio * known_clients)` and the policy asks for the
/// difference to the current participants.
pub open spec fn select_needed_in(
    s: FederatedLearningSettings,
    c: Counters,
    training_complete: bool,
    waiting_for_aggregation: bool,
) -> int {
    if training_complete || waiting_for_aggregation {
        0
    } else if c.participants() >= s.spec_minimum_participants() {
        0
    } else if c.known_clients() < s.min_clients {
        0
    } else {
        ceil_ratio(s.participants_ratio, c.known_clients()) - c.participants()
    }
}

/// The events that one re-evaluation of the selection policy appends: a
/// single `RunSelection` when more clients are needed, nothing otherwise.
pub open spec fn selection_events_in(
    s: FederatedLearningSettings,
    c: Counters,
    training_complete: bool,
    waiting_for_aggregation: bool,
) -> Seq<Event> {
    if select_needed_in(s, c, training_complete, waiting_for_aggregation) > 0 {
        seq![
            Event::RunSelection(
                select_needed_in(s, c, training_complete, waiting_for_aggregation) as u32,
            ),
        ]
    } else {
        Seq::empty()
    }
}

/// For a ratio in (0, 1], `ceil(ratio * n)` lies between 0 and `n`.
pub proof fn lemma_ceil_ratio_bounds(r: Ratio, n: int)
    requires
        r.wf(),
        0 <= n,
    ensures
        0 <= ceil_ratio(r, n) <= n,
{
    let num = r.numerator as int;
    let den = r.denominator as int;
    lemma_mul_nonnegative(num, n);
    lemma_div_pos_is_pos(num * n + den - 1, den);
    lemma_mul_inequality(num, den, n);
    lemma_div_is_ordered(num * n + den - 1, den * n + den - 1, den);
    lemma_div_multiples_vanish_fancy(n, den - 1, den);
    assert(den * n + (den - 1) == den * n + den - 1);
}

/// For a ratio in (0, 1], `ceil(ratio * n)` is exactly `n` when the ratio
/// is 1, and `floor(ratio * n)` is then also `n`.
pub proof fn lemma_full_ratio_exact(r: Ratio, n: int)
    requires
        r.wf(),
        r.numerator == r.denominator,
        0 <= n,
    ensures
        ceil_ratio(r, n) == n,
        floor_ratio(r, n) == n,
{
    let den = r.denominator as int;
    lemma_div_multiples_vanish_fancy(n, den - 1, den);
    assert(den * n + (den - 1) == den * n + den - 1);
    lemma_div_multiples_vanish(n, den);
    assert((r.numerator as int) * n == den * n);
}

/// The policy never asks for more clients than are waiting, and it asks
/// for at least one exactly when all of its guards pass.
pub proof fn lemma_select_needed_bounds(
    s: FederatedLearningSettings,
    c: Counters,
    training_complete: bool,
    waiting_for_aggregation: bool,
)
    requires
        s.wf(),
    ensures
        0 <= select_needed_in(s, c, training_complete, waiting_for_aggregation) <= c.waiting,
        select_needed_in(s, c, training_complete, waiting_for_aggregation) > 0 <==> {
            &&& !training_complete
            &&& !waiting_for_aggregation
            &&& c.participants() < s.spec_minimum_participants()
            &&& c.known_clients() >= s.min_clients
        },
{
    let num = s.participants_ratio.numerator as int;
    let den = s.participants_ratio.denominator as int;
    let p = c.participants();
    let t = c.known_clients();
    let m = s.min_clients as int;
    if !training_complete && !waiting_for_aggregation && p < s.spec_minimum_participants()
        && t >= m {
        lemma_ceil_ratio_bounds(s.participants_ratio, t);
        lemma_mul_inequality(m, t, num);
        assert(num * m <= num * t);
        lemma_div_is_ordered(num * m, num * t, den);
        lemma_div_is_ordered(num * t, num * t + den - 1, den);
        assert(floor_ratio(s.participants_ratio, m) <= ceil_ratio(s.participants_ratio, t));
    }
}

} // verus!
