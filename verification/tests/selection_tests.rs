use coordinator_core::{
    ClientId, ClientState, Counters, Event, FederatedLearningSettings, HeartBeatResponse,
    Protocol, Ratio, RendezVousResponse, StartTrainingResponse,
};

/// With the selection share at 1 and `min_clients = 3`, selection fires
/// exactly when the waiting pool reaches 3 and asks for all 3.
#[test]
fn test_selection_fires_at_min_clients() {
    let settings = FederatedLearningSettings {
        rounds: 1,
        participants_ratio: Ratio::one(),
        min_clients: 3,
        heartbeat_timeout: 15,
    };
    let mut protocol = Protocol::new(settings);

    let c1 = ClientId::with_id(1);
    let c2 = ClientId::with_id(2);
    let c3 = ClientId::with_id(3);

    protocol.rendez_vous(c1, ClientState::Unknown);
    assert_eq!(protocol.next_event().unwrap(), Event::Accept(c1));
    assert!(protocol.next_event().is_none());

    protocol.rendez_vous(c2, ClientState::Unknown);
    assert_eq!(protocol.next_event().unwrap(), Event::Accept(c2));
    assert!(protocol.next_event().is_none());

    protocol.rendez_vous(c3, ClientState::Unknown);
    assert_eq!(protocol.next_event().unwrap(), Event::Accept(c3));
    assert_eq!(protocol.next_event().unwrap(), Event::RunSelection(3));
    assert!(protocol.next_event().is_none());
}

/// With a fractional share the target uses a ceiling: share 2/3 over 4
/// known clients asks for ceil(8/3) = 3, never more than are waiting.
#[test]
fn test_fractional_ratio_selection_target() {
    let settings = FederatedLearningSettings {
        rounds: 1,
        participants_ratio: Ratio::new(2, 3),
        min_clients: 4,
        heartbeat_timeout: 15,
    };
    let mut protocol = Protocol::new(settings);

    for n in 1..4u32 {
        protocol.rendez_vous(ClientId::with_id(n), ClientState::Unknown);
        assert_eq!(protocol.next_event().unwrap(), Event::Accept(ClientId::with_id(n)));
        assert!(protocol.next_event().is_none());
    }

    protocol.rendez_vous(ClientId::with_id(4), ClientState::Unknown);
    assert_eq!(protocol.next_event().unwrap(), Event::Accept(ClientId::with_id(4)));
    let selection = protocol.next_event().unwrap();
    assert_eq!(selection, Event::RunSelection(3));
    if let Event::RunSelection(n) = selection {
        assert!(n > 0);
        assert!(n <= protocol.counters().waiting);
    }
    assert!(protocol.next_event().is_none());
}

/// Selection halts once the participants reach the floor of the share
/// times `min_clients`: with share 2/3 and `min_clients = 4` the minimum
/// is floor(8/3) = 2, so two participants suppress any further selection.
#[test]
fn test_fractional_ratio_selection_halts() {
    let settings = FederatedLearningSettings {
        rounds: 1,
        participants_ratio: Ratio::new(2, 3),
        min_clients: 4,
        heartbeat_timeout: 15,
    };
    let mut protocol = Protocol::new(settings);
    protocol.counters = Counters { waiting: 6, selected: 2, ..Default::default() };

    let client_id = ClientId::new();
    protocol.rendez_vous(client_id, ClientState::Waiting);

    assert!(protocol.next_event().is_none());
}

/// Stale candidates are discarded without consuming the need, and the
/// policy asks again when the offered candidates leave it unmet.
#[test]
fn test_select_discards_stale_candidates() {
    let settings = FederatedLearningSettings {
        rounds: 1,
        participants_ratio: Ratio::one(),
        min_clients: 2,
        heartbeat_timeout: 15,
    };
    let mut protocol = Protocol::new(settings);
    let c1 = ClientId::with_id(1);
    let c2 = ClientId::with_id(2);
    protocol.rendez_vous(c1, ClientState::Unknown);
    protocol.rendez_vous(c2, ClientState::Unknown);
    assert_eq!(protocol.next_event().unwrap(), Event::Accept(c1));
    assert_eq!(protocol.next_event().unwrap(), Event::Accept(c2));
    assert_eq!(protocol.next_event().unwrap(), Event::RunSelection(2));
    assert!(protocol.next_event().is_none());

    // c1's state is stale: it is no longer waiting, so only c2 is taken
    // and the remaining need is requested again.
    protocol.select(vec![(c1, ClientState::Ignored), (c2, ClientState::Waiting)]);

    assert_eq!(protocol.counters(), Counters { waiting: 1, selected: 1, ..Default::default() });
    assert_eq!(protocol.next_event().unwrap(), Event::SetState(c2, ClientState::Selected));
    assert_eq!(protocol.next_event().unwrap(), Event::RunSelection(1));
    assert!(protocol.next_event().is_none());
}

/// With a single round configured, one successful aggregation completes
/// the training: rendez-vous is rejected and heartbeats say finish.
#[test]
fn test_single_round_completes() {
    let settings = FederatedLearningSettings {
        rounds: 1,
        participants_ratio: Ratio::one(),
        min_clients: 1,
        heartbeat_timeout: 15,
    };
    let mut protocol = Protocol::new(settings);
    let c1 = ClientId::new();

    protocol.rendez_vous(c1, ClientState::Unknown);
    protocol.select(vec![(c1, ClientState::Waiting)]);
    assert_eq!(protocol.start_training(ClientState::Selected), StartTrainingResponse::Accept);
    protocol.end_training(c1, true, ClientState::Selected);
    assert!(protocol.waiting_for_aggregation);

    protocol.end_aggregation(true);

    assert!(protocol.is_training_complete);
    assert_eq!(protocol.current_round, 1);
    assert_eq!(protocol.rendez_vous(c1, ClientState::Waiting), RendezVousResponse::Reject);
    while let Some(_) = protocol.next_event() {}
    assert_eq!(protocol.heartbeat(c1, ClientState::Waiting), HeartBeatResponse::Finish);
    assert_eq!(protocol.next_event().unwrap(), Event::ResetHeartBeat(c1));
    assert!(protocol.next_event().is_none());
    assert_eq!(protocol.start_training(ClientState::Selected), StartTrainingResponse::Reject);
}

/// A failed aggregation clears the pending flag but keeps the round: the
/// already-reset waiting pool is selected again for the same round.
#[test]
fn test_failed_aggregation_restarts_same_round() {
    let settings = FederatedLearningSettings {
        rounds: 1,
        participants_ratio: Ratio::one(),
        min_clients: 1,
        heartbeat_timeout: 15,
    };
    let mut protocol = Protocol::new(settings);
    let c1 = ClientId::new();

    protocol.rendez_vous(c1, ClientState::Unknown);
    protocol.select(vec![(c1, ClientState::Waiting)]);
    protocol.end_training(c1, true, ClientState::Selected);
    while let Some(_) = protocol.next_event() {}

    protocol.end_aggregation(false);

    assert!(!protocol.waiting_for_aggregation);
    assert!(!protocol.is_training_complete);
    assert_eq!(protocol.current_round, 0);
    assert_eq!(protocol.counters(), Counters { waiting: 1, ..Default::default() });
    // The surviving pool is immediately eligible again.
    assert_eq!(protocol.next_event().unwrap(), Event::RunSelection(1));
    assert!(protocol.next_event().is_none());
}
