//! The protocol driver: a synchronous state machine that admits clients,
//! advances rounds and decides when selection and aggregation run.

use vstd::prelude::*;
use crate::client::{ClientId, ClientState};
use crate::counters::Counters;
use crate::events::Event;
use crate::policy::{lemma_select_needed_bounds, select_needed_in, selection_events_in};
use crate::responses::{HeartBeatResponse, RendezVousResponse, StartTrainingResponse};
use crate::settings::FederatedLearningSettings;

verus! {

/// The state machine. One instance exists per training campaign; it is
/// created with fresh counters, round 0, both flags false and an empty
/// queue, and is never reset.
pub struct Protocol {
    /// Population counters.
    pub counters: Counters,
    /// Latches true once the configured number of rounds has aggregated
    /// successfully; never cleared.
    pub is_training_complete: bool,
    /// Coordinator configuration.
    pub settings: FederatedLearningSettings,
    /// Current training round, zero-based; never decreases.
    pub current_round: u32,
    /// Pending outbound events, oldest first.
    pub events: Vec<Event>,
    /// True while an aggregation has been requested but not concluded.
    pub waiting_for_aggregation: bool,
}

/// The two states agree on everything but the event queue.
pub open spec fn only_events_differ(pre: Protocol, post: Protocol) -> bool {
    &&& post.counters == pre.counters
    &&& post.is_training_complete == pre.is_training_complete
    &&& post.settings == pre.settings
    &&& post.current_round == pre.current_round
    &&& post.waiting_for_aggregation == pre.waiting_for_aggregation
}

impl Protocol {
    /// What holds of the driver at every quiescent point: the configuration
    /// is recognized, the known population fits the counters' machine
    /// width, the round index never passes the configured number of rounds
    /// and reaches it only with training complete, and no aggregation is
    /// pending once training is complete.
    pub open spec fn wf(self) -> bool {
        &&& self.settings.wf()
        &&& self.counters.total() <= u32::MAX
        &&& self.current_round <= self.settings.rounds
        &&& (self.current_round == self.settings.rounds ==> self.is_training_complete)
        &&& (self.waiting_for_aggregation ==> !self.is_training_complete)
    }

    /// The selection policy applied to the driver's own state.
    pub open spec fn select_needed(self) -> int {
        select_needed_in(
            self.settings,
            self.counters,
            self.is_training_complete,
            self.waiting_for_aggregation,
        )
    }

    /// The events one policy re-evaluation appends in this state.
    pub open spec fn selection_events(self) -> Seq<Event> {
        selection_events_in(
            self.settings,
            self.counters,
            self.is_training_complete,
            self.waiting_for_aggregation,
        )
    }

    /// Append an event to the outbound queue.
    fn emit_event(&mut self, event: Event)
        ensures
            only_events_differ(*old(self), *final(self)),
            final(self).events@ == old(self).events@.push(event),
    {
        self.events.push(event);
    }

    /// How many more clients to select, or `None` when the policy asks for
    /// nobody.
    fn number_of_clients_to_select(&self) -> (n: Option<u32>)
        requires
            self.wf(),
        ensures
            0 <= self.select_needed() <= self.counters.waiting,
            self.select_needed() > 0 ==> n == Some(self.select_needed() as u32),
            self.select_needed() == 0 ==> n == None::<u32>,
    {
        proof {
            lemma_select_needed_bounds(
                self.settings,
                self.counters,
                self.is_training_complete,
                self.waiting_for_aggregation,
            );
        }
        if self.is_training_complete || self.waiting_for_aggregation {
            return None;
        }
        let c = self.counters;
        let total_participants = c.selected as u64 + c.done as u64 + c.done_and_inactive as u64;
        let minimum = self.settings.minimum_participants();
        if total_participants >= minimum as u64 {
            return None;
        }
        let total_clients = total_participants + c.waiting as u64;
        if total_clients < self.settings.min_clients as u64 {
            return None;
        }
        let num = self.settings.participants_ratio.numerator as u128;
        let den = self.settings.participants_ratio.denominator as u128;
        let known = total_clients as u128;
        proof {
            assert(num * known <= 0xffff_ffff * 0x4_0000_0000) by (nonlinear_arith)
                requires
                    num <= 0xffff_ffff,
                    known <= 0x4_0000_0000,
            ;
        }
        let target = (num * known + (den - 1)) / den;
        Some((target - total_participants as u128) as u32)
    }

    /// Re-evaluate the selection policy and, when more clients are needed,
    /// ask the selector for them.
    fn maybe_start_selection(&mut self)
        requires
            old(self).wf(),
        ensures
            only_events_differ(*old(self), *final(self)),
            final(self).events@ == old(self).events@ + old(self).selection_events(),
    {
        let n = self.number_of_clients_to_select();
        match n {
            Some(count) => {
                self.emit_event(Event::RunSelection(count));
            },
            None => {},
        }
        proof {
            assert(self.events@ =~= old(self).events@ + old(self).selection_events());
        }
    }

    /// Whether the round is over: nobody is still training and the policy
    /// would select nobody further.
    fn is_end_of_round(&self) -> (r: bool)
        requires
            self.wf(),
        ensures
            r == (self.counters.selected == 0 && self.select_needed() == 0),
    {
        proof {
            lemma_select_needed_bounds(
                self.settings,
                self.counters,
                self.is_training_complete,
                self.waiting_for_aggregation,
            );
        }
        self.counters.selected == 0 && self.number_of_clients_to_select().is_none()
    }
}

// Host-facing interface.
impl Protocol {
    /// A snapshot of the population counters.
    pub fn counters(&self) -> (c: Counters)
        ensures
            c == self.counters,
    {
        self.counters
    }

    /// A fresh driver for one campaign.
    pub fn new(settings: FederatedLearningSettings) -> (p: Protocol)
        requires
            settings.wf(),
        ensures
            p.wf(),
            p.settings == settings,
            p.counters == Counters::spec_zero(),
            !p.is_training_complete,
            !p.waiting_for_aggregation,
            p.current_round == 0,
            p.events@ == Seq::<Event>::empty(),
    {
        Protocol {
            settings,
            counters: Counters::new(),
            is_training_complete: false,
            waiting_for_aggregation: false,
            current_round: 0,
            events: Vec::new(),
        }
    }

    /// Pop the oldest pending event, or `None` when the queue is drained.
    pub fn next_event(&mut self) -> (e: Option<Event>)
        ensures
            only_events_differ(*old(self), *final(self)),
            old(self).events@.len() == 0 ==> e == None::<Event> && final(self).events@
                == old(self).events@,
            old(self).events@.len() > 0 ==> e == Some(old(self).events@[0]) && final(self).events@
                == old(self).events@.drop_first(),
    {
        if self.events.len() == 0 {
            None
        } else {
            let event = self.events.remove(0);
            proof {
                assert(self.events@ =~= old(self).events@.drop_first());
            }
            Some(event)
        }
    }
}

// Counter effect of one rendez-vous request, per the client's prior state.
pub open spec fn rendez_vous_counters(c: Counters, client_state: ClientState) -> Counters {
    match client_state {
        ClientState::Unknown => Counters { waiting: (c.waiting + 1) as u32, ..c },
        ClientState::Waiting => c,
        ClientState::Selected => Counters {
            selected: (c.selected - 1) as u32,
            ignored: (c.ignored + 1) as u32,
            ..c
        },
        ClientState::Done => Counters { ignored: (c.ignored + 1) as u32, ..c },
        ClientState::DoneAndInactive => Counters { ignored: (c.ignored + 1) as u32, ..c },
        ClientState::Ignored => c,
    }
}

// Events of one rendez-vous request, before the selection re-evaluation.
pub open spec fn rendez_vous_base_events(id: ClientId, client_state: ClientState) -> Seq<Event> {
    match client_state {
        ClientState::Unknown => seq![Event::Accept(id)],
        ClientState::Waiting => Seq::empty(),
        ClientState::Selected => seq![Event::SetState(id, ClientState::Ignored)],
        ClientState::Done => seq![Event::SetState(id, ClientState::Ignored)],
        ClientState::DoneAndInactive => seq![Event::SetState(id, ClientState::Ignored)],
        ClientState::Ignored => Seq::empty(),
    }
}

/// Exactly what one rendez-vous call does: after completion it rejects and
/// changes nothing; otherwise it accepts, moves the client's bucket per its
/// prior state, emits the matching registry intents, and re-evaluates the
/// selection policy.
pub open spec fn rendez_vous_transition(
    pre: Protocol,
    post: Protocol,
    id: ClientId,
    client_state: ClientState,
    r: RendezVousResponse,
) -> bool {
    &&& post.settings == pre.settings
    &&& post.current_round == pre.current_round
    &&& post.is_training_complete == pre.is_training_complete
    &&& post.waiting_for_aggregation == pre.waiting_for_aggregation
    &&& if pre.is_training_complete {
        &&& r == RendezVousResponse::Reject
        &&& post.counters == pre.counters
        &&& post.events@ == pre.events@
    } else {
        &&& r == RendezVousResponse::Accept
        &&& post.counters == rendez_vous_counters(pre.counters, client_state)
        &&& post.events@ == pre.events@ + rendez_vous_base_events(id, client_state)
            + selection_events_in(
            post.settings,
            post.counters,
            post.is_training_complete,
            post.waiting_for_aggregation,
        )
    }
}

/// Exactly what one heartbeat does: counters never change; after completion
/// every client is told to finish; otherwise unknown and inactive clients
/// are rejected, selected clients learn the round, and the rest stand by.
pub open spec fn heartbeat_transition(
    pre: Protocol,
    post: Protocol,
    id: ClientId,
    client_state: ClientState,
    r: HeartBeatResponse,
) -> bool {
    &&& only_events_differ(pre, post)
    &&& if pre.is_training_complete {
        &&& r == HeartBeatResponse::Finish
        &&& post.events@ == pre.events@ + seq![Event::ResetHeartBeat(id)]
    } else {
        match client_state {
            ClientState::Unknown => r == HeartBeatResponse::Reject && post.events@ == pre.events@,
            ClientState::DoneAndInactive => r == HeartBeatResponse::Reject && post.events@
                == pre.events@,
            ClientState::Selected => r == HeartBeatResponse::Round(pre.current_round)
                && post.events@ == pre.events@ + seq![Event::ResetHeartBeat(id)],
            _ => r == HeartBeatResponse::StandBy && post.events@ == pre.events@
                + seq![Event::ResetHeartBeat(id)],
        }
    }
}

impl Protocol {
    /// Handle a rendez-vous request for the given client.
    ///
    /// A selected client that rendez-vouses again is dropped from the
    /// current round but stays eligible for the next one: trusting it
    /// invites drop-out attacks, denying it punishes honest restarts.
    /// Clients that already finished the round are kept out of selection
    /// by marking them ignored.
    pub fn rendez_vous(&mut self, id: ClientId, client_state: ClientState) -> (r:
        RendezVousResponse)
        requires
            old(self).wf(),
            !old(self).is_training_complete && client_state == ClientState::Selected ==> old(
                self,
            ).counters.selected >= 1,
            !old(self).is_training_complete && (client_state == ClientState::Unknown
                || client_state == ClientState::Done || client_state
                == ClientState::DoneAndInactive) ==> old(self).counters.total() < u32::MAX,
        ensures
            final(self).wf(),
            rendez_vous_transition(*old(self), *final(self), id, client_state, r),
            old(self).is_training_complete ==> r == RendezVousResponse::Reject && *final(self)
                == *old(self),
            final(self).is_training_complete == old(self).is_training_complete,
            final(self).current_round == old(self).current_round,
    {
        if self.is_training_complete {
            return RendezVousResponse::Reject;
        }
        let response = match client_state {
            ClientState::Unknown => {
                // Accept new clients and make them selectable.
                self.counters.waiting = self.counters.waiting + 1;
                self.emit_event(Event::Accept(id));
                RendezVousResponse::Accept
            },
            ClientState::Waiting => {
                // A waiting client re-sent its rendez-vous, most likely
                // after a restart: accept it again.
                RendezVousResponse::Accept
            },
            ClientState::Selected => {
                self.counters.selected = self.counters.selected - 1;
                self.counters.ignored = self.counters.ignored + 1;
                self.emit_event(Event::SetState(id, ClientState::Ignored));
                RendezVousResponse::Accept
            },
            ClientState::Done | ClientState::DoneAndInactive => {
                self.counters.ignored = self.counters.ignored + 1;
                self.emit_event(Event::SetState(id, ClientState::Ignored));
                RendezVousResponse::Accept
            },
            ClientState::Ignored => RendezVousResponse::Accept,
        };
        proof {
            assert(self.events@ =~= old(self).events@ + rendez_vous_base_events(
                id,
                client_state,
            ));
        }
        self.maybe_start_selection();
        proof {
            assert(self.events@ =~= old(self).events@ + rendez_vous_base_events(id, client_state)
                + selection_events_in(
                self.settings,
                self.counters,
                self.is_training_complete,
                self.waiting_for_aggregation,
            ));
        }
        response
    }

    /// Handle a heartbeat for the given client and return the reply to
    /// send back. Counters are never touched here.
    pub fn heartbeat(&mut self, id: ClientId, client_state: ClientState) -> (r: HeartBeatResponse)
        requires
            old(self).wf(),
        ensures
            final(self).wf(),
            heartbeat_transition(*old(self), *final(self), id, client_state, r),
            final(self).counters == old(self).counters,
            old(self).is_training_complete ==> r == HeartBeatResponse::Finish,
    {
        if self.is_training_complete {
            self.emit_event(Event::ResetHeartBeat(id));
            proof {
                assert(self.events@ =~= old(self).events@ + seq![Event::ResetHeartBeat(id)]);
            }
            return HeartBeatResponse::Finish;
        }
        match client_state {
            // A client the coordinator knows nothing about must first
            // rendez-vous to be recognized.
            ClientState::Unknown => HeartBeatResponse::Reject,
            // Once a client has gone inactive it has to rendez-vous again
            // and be re-admitted, so its heartbeat is rejected.
            ClientState::DoneAndInactive => HeartBeatResponse::Reject,
            ClientState::Ignored | ClientState::Waiting | ClientState::Done => {
                self.emit_event(Event::ResetHeartBeat(id));
                proof {
                    assert(self.events@ =~= old(self).events@ + seq![Event::ResetHeartBeat(id)]);
                }
                HeartBeatResponse::StandBy
            },
            // A selected client is told which round to train for.
            ClientState::Selected => {
                self.emit_event(Event::ResetHeartBeat(id));
                proof {
                    assert(self.events@ =~= old(self).events@ + seq![Event::ResetHeartBeat(id)]);
                }
                HeartBeatResponse::Round(self.current_round)
            },
        }
    }
}

// Counter effect of one heartbeat timeout. A timed-out `Done` client keeps
// its `done` count and is counted inactive on top, a deliberate quirk of
// the protocol even though it double-counts that client.
pub open spec fn heartbeat_timeout_counters(c: Counters, client_state: ClientState) -> Counters {
    match client_state {
        ClientState::Waiting => Counters { waiting: (c.waiting - 1) as u32, ..c },
        ClientState::Selected => Counters { selected: (c.selected - 1) as u32, ..c },
        ClientState::Ignored => Counters { ignored: (c.ignored - 1) as u32, ..c },
        ClientState::Done => Counters {
            done_and_inactive: (c.done_and_inactive + 1) as u32,
            ..c
        },
        _ => c,
    }
}

/// Exactly what one heartbeat timeout does for a live state: the client is
/// removed from the registry, its bucket is adjusted — a `Done` client is
/// recorded inactive instead — and the selection policy is re-evaluated.
/// Timeouts for `Unknown` or `DoneAndInactive` clients are host bugs and
/// are not part of the relation; the entry point excludes them.
pub open spec fn heartbeat_timeout_transition(
    pre: Protocol,
    post: Protocol,
    id: ClientId,
    client_state: ClientState,
) -> bool {
    &&& post.settings == pre.settings
    &&& post.current_round == pre.current_round
    &&& post.is_training_complete == pre.is_training_complete
    &&& post.waiting_for_aggregation == pre.waiting_for_aggregation
    &&& post.counters == heartbeat_timeout_counters(pre.counters, client_state)
    &&& post.events@ == pre.events@ + seq![Event::Remove(id)] + (if client_state
        == ClientState::Done {
        seq![Event::SetState(id, ClientState::DoneAndInactive)]
    } else {
        Seq::empty()
    }) + selection_events_in(
        post.settings,
        post.counters,
        post.is_training_complete,
        post.waiting_for_aggregation,
    )
}

/// Exactly what one end-training call does: nothing after completion or
/// while an aggregation is pending, nothing for a client that was not
/// selected; otherwise the client leaves the `selected` bucket and is
/// counted done or ignored, and when the round is over the counters are
/// reset and an aggregation is requested.
pub open spec fn end_training_transition(
    pre: Protocol,
    post: Protocol,
    id: ClientId,
    success: bool,
    client_state: ClientState,
) -> bool {
    &&& post.settings == pre.settings
    &&& post.current_round == pre.current_round
    &&& post.is_training_complete == pre.is_training_complete
    &&& if pre.is_training_complete || pre.waiting_for_aggregation || client_state
        != ClientState::Selected {
        &&& post.waiting_for_aggregation == pre.waiting_for_aggregation
        &&& post.counters == pre.counters
        &&& post.events@ == pre.events@
    } else {
        let stepped = Counters { selected: (pre.counters.selected - 1) as u32, ..pre.counters };
        if success {
            let finished = Counters { done: (stepped.done + 1) as u32, ..stepped };
            if finished.selected == 0 && select_needed_in(pre.settings, finished, false, false)
                == 0 {
                // End of round: request aggregation and move every
                // surviving client back to the waiting pool.
                &&& post.waiting_for_aggregation
                &&& post.counters == (Counters {
                    waiting: (finished.waiting + finished.done + finished.ignored) as u32,
                    selected: 0u32,
                    done: 0u32,
                    done_and_inactive: 0u32,
                    ignored: 0u32,
                })
                &&& post.events@ == pre.events@ + seq![
                    Event::SetState(id, ClientState::Done),
                    Event::RunAggregation,
                    Event::ResetAll,
                ] + selection_events_in(
                    post.settings,
                    post.counters,
                    post.is_training_complete,
                    post.waiting_for_aggregation,
                )
            } else {
                &&& !post.waiting_for_aggregation
                &&& post.counters == finished
                &&& post.events@ == pre.events@ + seq![Event::SetState(id, ClientState::Done)]
                    + selection_events_in(
                    post.settings,
                    post.counters,
                    post.is_training_complete,
                    post.waiting_for_aggregation,
                )
            }
        } else {
            &&& !post.waiting_for_aggregation
            &&& post.counters == (Counters { ignored: (stepped.ignored + 1) as u32, ..stepped })
            &&& post.events@ == pre.events@ + seq![Event::SetState(id, ClientState::Ignored)]
                + selection_events_in(
                post.settings,
                post.counters,
                post.is_training_complete,
                post.waiting_for_aggregation,
            )
        }
    }
}

/// Exactly what one end-aggregation call does: nothing when no aggregation
/// is pending; otherwise the pending flag clears, a successful aggregation
/// ends the round and advances it — latching completion after the last
/// round — and in every other case the selection policy is re-evaluated.
pub open spec fn end_aggregation_transition(
    pre: Protocol,
    post: Protocol,
    success: bool,
) -> bool {
    &&& post.settings == pre.settings
    &&& post.counters == pre.counters
    &&& if !pre.waiting_for_aggregation {
        &&& post.current_round == pre.current_round
        &&& post.is_training_complete == pre.is_training_complete
        &&& post.waiting_for_aggregation == pre.waiting_for_aggregation
        &&& post.events@ == pre.events@
    } else {
        &&& !post.waiting_for_aggregation
        &&& post.current_round == if success {
            (pre.current_round + 1) as u32
        } else {
            pre.current_round
        }
        &&& post.is_training_complete == (pre.is_training_complete || post.current_round
            == pre.settings.rounds)
        &&& post.events@ == pre.events@ + (if success {
            seq![Event::EndRound(pre.current_round)]
        } else {
            Seq::empty()
        }) + (if post.current_round == pre.settings.rounds {
            Seq::empty()
        } else {
            selection_events_in(
                post.settings,
                post.counters,
                post.is_training_complete,
                post.waiting_for_aggregation,
            )
        })
    }
}

impl Protocol {
    /// Handle a heartbeat timeout for the given client. The host must not
    /// have armed a timer for an `Unknown` or `DoneAndInactive` client;
    /// such a timeout is a host bug and is excluded here, so a host facade
    /// should abort on it before calling.
    pub fn heartbeat_timeout(&mut self, id: ClientId, client_state: ClientState)
        requires
            old(self).wf(),
            client_state != ClientState::Unknown,
            client_state != ClientState::DoneAndInactive,
            client_state == ClientState::Waiting ==> old(self).counters.waiting >= 1,
            client_state == ClientState::Selected ==> old(self).counters.selected >= 1,
            client_state == ClientState::Ignored ==> old(self).counters.ignored >= 1,
            client_state == ClientState::Done ==> old(self).counters.total() < u32::MAX,
        ensures
            final(self).wf(),
            heartbeat_timeout_transition(*old(self), *final(self), id, client_state),
            final(self).is_training_complete == old(self).is_training_complete,
            final(self).current_round == old(self).current_round,
    {
        self.emit_event(Event::Remove(id));
        match client_state {
            ClientState::Selected => {
                self.counters.selected = self.counters.selected - 1;
            },
            ClientState::Waiting => {
                self.counters.waiting = self.counters.waiting - 1;
            },
            ClientState::Done => {
                // The contribution is still valid for aggregation; the
                // client merely cannot receive further messages.
                self.emit_event(Event::SetState(id, ClientState::DoneAndInactive));
                self.counters.done_and_inactive = self.counters.done_and_inactive + 1;
            },
            ClientState::Ignored => {
                self.counters.ignored = self.counters.ignored - 1;
            },
            _ => {},
        }
        self.maybe_start_selection();
        proof {
            assert(self.events@ =~= old(self).events@ + seq![Event::Remove(id)] + (if client_state
                == ClientState::Done {
                seq![Event::SetState(id, ClientState::DoneAndInactive)]
            } else {
                Seq::<Event>::empty()
            }) + selection_events_in(
                self.settings,
                self.counters,
                self.is_training_complete,
                self.waiting_for_aggregation,
            ));
        }
    }

    /// Handle a start-training request: accepted exactly for a selected
    /// client while training is not complete. Nothing is mutated and no
    /// event is emitted.
    pub fn start_training(&mut self, client_state: ClientState) -> (r: StartTrainingResponse)
        ensures
            *final(self) == *old(self),
            r == (if client_state == ClientState::Selected && !old(self).is_training_complete {
                StartTrainingResponse::Accept
            } else {
                StartTrainingResponse::Reject
            }),
    {
        if client_state == ClientState::Selected && !self.is_training_complete {
            StartTrainingResponse::Accept
        } else {
            StartTrainingResponse::Reject
        }
    }

    /// Handle an end-training request for the given client.
    pub fn end_training(&mut self, id: ClientId, success: bool, client_state: ClientState)
        requires
            old(self).wf(),
            !old(self).is_training_complete && !old(self).waiting_for_aggregation && client_state
                == ClientState::Selected ==> old(self).counters.selected >= 1,
        ensures
            final(self).wf(),
            end_training_transition(*old(self), *final(self), id, success, client_state),
            old(self).waiting_for_aggregation ==> *final(self) == *old(self),
            old(self).is_training_complete ==> *final(self) == *old(self),
            final(self).is_training_complete == old(self).is_training_complete,
            final(self).current_round == old(self).current_round,
    {
        if self.is_training_complete || self.waiting_for_aggregation {
            // A late request from a slow network path: ignore it.
            return ;
        }
        if client_state == ClientState::Selected {
            self.counters.selected = self.counters.selected - 1;
            if success {
                self.emit_event(Event::SetState(id, ClientState::Done));
                self.counters.done = self.counters.done + 1;
                if self.is_end_of_round() {
                    self.emit_event(Event::RunAggregation);
                    self.waiting_for_aggregation = true;
                    self.emit_event(Event::ResetAll);
                    self.counters.waiting = self.counters.waiting + self.counters.done;
                    self.counters.waiting = self.counters.waiting + self.counters.ignored;
                    self.counters.done_and_inactive = 0;
                    self.counters.done = 0;
                    self.counters.ignored = 0;
                }
            } else {
                self.emit_event(Event::SetState(id, ClientState::Ignored));
                self.counters.ignored = self.counters.ignored + 1;
            }
            self.maybe_start_selection();
            proof {
                let stepped = Counters {
                    selected: (old(self).counters.selected - 1) as u32,
                    ..old(self).counters
                };
                if success {
                    let finished = Counters { done: (stepped.done + 1) as u32, ..stepped };
                    if finished.selected == 0 && select_needed_in(
                        old(self).settings,
                        finished,
                        false,
                        false,
                    ) == 0 {
                        assert(self.events@ =~= old(self).events@ + seq![
                            Event::SetState(id, ClientState::Done),
                            Event::RunAggregation,
                            Event::ResetAll,
                        ] + selection_events_in(
                            self.settings,
                            self.counters,
                            self.is_training_complete,
                            self.waiting_for_aggregation,
                        ));
                    } else {
                        assert(self.events@ =~= old(self).events@ + seq![
                            Event::SetState(id, ClientState::Done),
                        ] + selection_events_in(
                            self.settings,
                            self.counters,
                            self.is_training_complete,
                            self.waiting_for_aggregation,
                        ));
                    }
                } else {
                    assert(self.events@ =~= old(self).events@ + seq![
                        Event::SetState(id, ClientState::Ignored),
                    ] + selection_events_in(
                        self.settings,
                        self.counters,
                        self.is_training_complete,
                        self.waiting_for_aggregation,
                    ));
                }
            }
        }
    }

    /// Handle the aggregator's verdict on the requested aggregation.
    pub fn end_aggregation(&mut self, success: bool)
        requires
            old(self).wf(),
        ensures
            final(self).wf(),
            end_aggregation_transition(*old(self), *final(self), success),
            !old(self).waiting_for_aggregation ==> *final(self) == *old(self),
            old(self).is_training_complete ==> final(self).is_training_complete,
            old(self).current_round <= final(self).current_round,
            old(self).waiting_for_aggregation && success && old(self).current_round + 1 == old(
                self,
            ).settings.rounds ==> final(self).is_training_complete,
    {
        if !self.waiting_for_aggregation {
            // No aggregation is pending: a host error, ignored.
            return ;
        }
        self.waiting_for_aggregation = false;
        if success {
            self.emit_event(Event::EndRound(self.current_round));
            self.current_round = self.current_round + 1;
        }
        if self.current_round == self.settings.rounds {
            self.is_training_complete = true;
        } else {
            self.maybe_start_selection();
        }
        proof {
            assert(self.events@ =~= old(self).events@ + (if success {
                seq![Event::EndRound(old(self).current_round)]
            } else {
                Seq::<Event>::empty()
            }) + (if self.current_round == old(self).settings.rounds {
                Seq::<Event>::empty()
            } else {
                selection_events_in(
                    self.settings,
                    self.counters,
                    self.is_training_complete,
                    self.waiting_for_aggregation,
                )
            }));
        }
    }
}

// What consuming candidates does, front to back: each waiting candidate is
// selected and costs one unit of need; any other candidate is a stale
// nomination and is discarded; consumption stops when the need is met or
// the candidates run out.
pub open spec fn select_step(
    c: Counters,
    candidates: Seq<(ClientId, ClientState)>,
    needed: int,
) -> (Counters, Seq<Event>)
    decreases candidates.len(),
{
    if needed <= 0 || candidates.len() == 0 {
        (c, Seq::empty())
    } else {
        let (id, state) = candidates[0];
        if state == ClientState::Waiting {
            let picked = Counters {
                selected: (c.selected + 1) as u32,
                waiting: (c.waiting - 1) as u32,
                ..c
            };
            let rest = select_step(picked, candidates.drop_first(), needed - 1);
            (rest.0, seq![Event::SetState(id, ClientState::Selected)] + rest.1)
        } else {
            select_step(c, candidates.drop_first(), needed)
        }
    }
}

/// Exactly what one selection round does: the candidates are consumed per
/// `select_step` with the policy's current need, and the policy is then
/// re-evaluated — asking again when the offered candidates did not cover
/// the need.
pub open spec fn select_transition(
    pre: Protocol,
    post: Protocol,
    candidates: Seq<(ClientId, ClientState)>,
) -> bool {
    let stepped = select_step(pre.counters, candidates, pre.select_needed());
    &&& post.settings == pre.settings
    &&& post.current_round == pre.current_round
    &&& post.is_training_complete == pre.is_training_complete
    &&& post.waiting_for_aggregation == pre.waiting_for_aggregation
    &&& post.counters == stepped.0
    &&& post.events@ == pre.events@ + stepped.1 + selection_events_in(
        post.settings,
        post.counters,
        post.is_training_complete,
        post.waiting_for_aggregation,
    )
}

impl Protocol {
    /// Consume the selector's candidates: select waiting ones until the
    /// policy's need is met or the candidates run out, then re-evaluate the
    /// policy so the host may be asked to retry.
    pub fn select(&mut self, candidates: Vec<(ClientId, ClientState)>)
        requires
            old(self).wf(),
        ensures
            final(self).wf(),
            select_transition(*old(self), *final(self), candidates@),
            final(self).is_training_complete == old(self).is_training_complete,
            final(self).current_round == old(self).current_round,
    {
        let ghost pre = *self;
        let n = self.number_of_clients_to_select();
        if let Some(mut total_needed) = n {
            let mut i: usize = 0;
            proof {
                assert(candidates@.skip(0) =~= candidates@);
            }
            while i < candidates.len() && total_needed > 0
                invariant
                    0 <= i <= candidates@.len(),
                    self.settings == pre.settings,
                    self.current_round == pre.current_round,
                    self.is_training_complete == pre.is_training_complete,
                    self.waiting_for_aggregation == pre.waiting_for_aggregation,
                    pre.wf(),
                    self.counters.total() == pre.counters.total(),
                    self.counters.done == pre.counters.done,
                    self.counters.done_and_inactive == pre.counters.done_and_inactive,
                    self.counters.ignored == pre.counters.ignored,
                    total_needed <= self.counters.waiting,
                    select_step(pre.counters, candidates@, pre.select_needed()).0 == select_step(
                        self.counters,
                        candidates@.skip(i as int),
                        total_needed as int,
                    ).0,
                    pre.events@ + select_step(pre.counters, candidates@, pre.select_needed()).1
                        == self.events@ + select_step(
                        self.counters,
                        candidates@.skip(i as int),
                        total_needed as int,
                    ).1,
                decreases candidates@.len() - i,
            {
                let (id, state) = candidates[i];
                proof {
                    assert(candidates@.skip(i as int)[0] == candidates@[i as int]);
                    assert(candidates@.skip(i as int).drop_first() =~= candidates@.skip(
                        i as int + 1,
                    ));
                }
                if state == ClientState::Waiting {
                    let ghost mid = self.counters;
                    let ghost mid_events = self.events@;
                    self.counters.selected = self.counters.selected + 1;
                    self.counters.waiting = self.counters.waiting - 1;
                    total_needed = total_needed - 1;
                    self.emit_event(Event::SetState(id, ClientState::Selected));
                    proof {
                        let after = select_step(
                            self.counters,
                            candidates@.skip(i as int + 1),
                            total_needed as int,
                        );
                        assert(select_step(mid, candidates@.skip(i as int), total_needed + 1)
                            == (after.0, seq![Event::SetState(id, ClientState::Selected)]
                            + after.1));
                        assert(mid_events + (seq![Event::SetState(id, ClientState::Selected)]
                            + after.1) =~= self.events@ + after.1);
                    }
                } else {
                    // A stale candidate: its state changed since the
                    // selector enumerated it. Discard it.
                }
                i = i + 1;
            }
            proof {
                assert(select_step(
                    self.counters,
                    candidates@.skip(i as int),
                    total_needed as int,
                ).1 =~= Seq::<Event>::empty());
            }
        }
        proof {
            lemma_select_needed_bounds(
                pre.settings,
                pre.counters,
                pre.is_training_complete,
                pre.waiting_for_aggregation,
            );
            if pre.select_needed() == 0 {
                assert(select_step(pre.counters, candidates@, pre.select_needed()).1
                    =~= Seq::<Event>::empty());
            }
        }
        self.maybe_start_selection();
        proof {
            let stepped = select_step(pre.counters, candidates@, pre.select_needed());
            assert(self.events@ =~= pre.events@ + stepped.1 + selection_events_in(
                self.settings,
                self.counters,
                self.is_training_complete,
                self.waiting_for_aggregation,
            ));
        }
    }
}

} // verus!
