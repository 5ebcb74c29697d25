use coordinator_core::{
    ClientId, ClientState, Counters, Event, FederatedLearningSettings, HeartBeatResponse,
    Protocol, Ratio,
};

fn get_default_fl_settings() -> FederatedLearningSettings {
    FederatedLearningSettings {
        rounds: 2,
        participants_ratio: Ratio::one(),
        min_clients: 1,
        heartbeat_timeout: 15,
    }
}

/// Test the outcome of a heartbeat timeout for a client that has not yet
/// been selected.
#[test]
fn test_heartbeat_timeout_waiting_participant() {
    let mut protocol = Protocol::new(get_default_fl_settings());
    let client_id = ClientId::new();

    let _ = protocol.rendez_vous(client_id, ClientState::Unknown);

    let counters = protocol.counters();
    let expected = Counters { waiting: 1, ..Default::default() };

    assert_eq!(counters, expected);

    protocol.heartbeat_timeout(client_id, ClientState::Waiting);

    let counters = protocol.counters();
    let expected = Counters { waiting: 0, ..Default::default() };

    assert_eq!(counters, expected);
    assert_eq!(protocol.next_event().unwrap(), Event::Accept(client_id));
    assert_eq!(protocol.next_event().unwrap(), Event::RunSelection(1));
    assert_eq!(protocol.next_event().unwrap(), Event::Remove(client_id));
    assert!(protocol.next_event().is_none());
}

/// Test the outcome of a heartbeat timeout for a client that has already
/// been selected.
#[test]
fn test_heartbeat_timeout_selected_participant() {
    let mut protocol = Protocol::new(get_default_fl_settings());
    let client_id = ClientId::new();
    let _ = protocol.rendez_vous(client_id, ClientState::Unknown);
    let candidates = vec![(client_id, ClientState::Waiting)];

    protocol.select(candidates);

    let counters = protocol.counters();
    let expected = Counters { selected: 1, ..Default::default() };

    assert_eq!(counters, expected);

    protocol.heartbeat_timeout(client_id, ClientState::Selected);

    let counters = protocol.counters();
    let expected = Counters { selected: 0, ..Default::default() };

    assert_eq!(counters, expected);
    assert_eq!(protocol.next_event().unwrap(), Event::Accept(client_id));
    assert_eq!(protocol.next_event().unwrap(), Event::RunSelection(1));
    assert_eq!(
        protocol.next_event().unwrap(),
        Event::SetState(client_id, ClientState::Selected)
    );
    assert_eq!(protocol.next_event().unwrap(), Event::Remove(client_id));
    assert!(protocol.next_event().is_none());
}

/// Test the outcome of a heartbeat timeout for a client that finished
/// training. The protocol keeps the `done` count while also counting the
/// client inactive.
#[test]
fn test_heartbeat_timeout_done_participant() {
    let mut protocol = Protocol::new(get_default_fl_settings());
    let client_id = ClientId::new();
    protocol.counters = Counters { done: 1, ..Default::default() };

    protocol.heartbeat_timeout(client_id, ClientState::Done);

    let counters = protocol.counters();
    let expected = Counters { done: 1, done_and_inactive: 1, ..Default::default() };

    assert_eq!(counters, expected);
    assert_eq!(protocol.next_event().unwrap(), Event::Remove(client_id));
    assert_eq!(
        protocol.next_event().unwrap(),
        Event::SetState(client_id, ClientState::DoneAndInactive)
    );
    assert!(protocol.next_event().is_none());
}

/// Test the outcome of a heartbeat timeout for a client that the protocol
/// ignores.
#[test]
fn test_heartbeat_timeout_ignore_participant() {
    let mut protocol = Protocol::new(get_default_fl_settings());
    let client_id = ClientId::new();
    protocol.counters = Counters { ignored: 1, ..Default::default() };

    protocol.heartbeat_timeout(client_id, ClientState::Ignored);

    let counters = protocol.counters();
    let expected = Counters { ignored: 0, ..Default::default() };

    assert_eq!(counters, expected);
    assert_eq!(protocol.next_event().unwrap(), Event::Remove(client_id));
    assert!(protocol.next_event().is_none());
}

/// Test the outcome of a heartbeat from a client that the protocol doesn't
/// know about.
#[test]
fn test_heartbeat_unknown_participant() {
    let mut protocol = Protocol::new(get_default_fl_settings());
    let client_id = ClientId::new();

    let resp = protocol.heartbeat(client_id, ClientState::Unknown);

    assert_eq!(HeartBeatResponse::Reject, resp);
    assert!(protocol.next_event().is_none());
}

/// Test the outcome of a heartbeat from a client that finished training
/// and dropped out already.
#[test]
fn test_heartbeat_done_and_inactive_participant() {
    let mut protocol = Protocol::new(get_default_fl_settings());
    let client_id = ClientId::new();

    let resp = protocol.heartbeat(client_id, ClientState::DoneAndInactive);

    assert_eq!(HeartBeatResponse::Reject, resp);
    assert!(protocol.next_event().is_none());
}

/// Test the outcome of a heartbeat from a client that the protocol
/// ignores.
#[test]
fn test_heartbeat_ignore_participant() {
    let mut protocol = Protocol::new(get_default_fl_settings());
    let client_id = ClientId::new();

    let resp = protocol.heartbeat(client_id, ClientState::Ignored);

    assert_eq!(HeartBeatResponse::StandBy, resp);
    assert_eq!(protocol.next_event().unwrap(), Event::ResetHeartBeat(client_id));
    assert!(protocol.next_event().is_none());
}

/// Test the outcome of a heartbeat from a client that has not been
/// selected yet.
#[test]
fn test_heartbeat_waiting_participant() {
    let mut protocol = Protocol::new(get_default_fl_settings());
    let client_id = ClientId::new();

    let resp = protocol.heartbeat(client_id, ClientState::Waiting);

    assert_eq!(HeartBeatResponse::StandBy, resp);
    assert_eq!(protocol.next_event().unwrap(), Event::ResetHeartBeat(client_id));
    assert!(protocol.next_event().is_none());
}

/// Test the outcome of a heartbeat from a client that finished training
/// and is still active.
#[test]
fn test_heartbeat_done_participant() {
    let mut protocol = Protocol::new(get_default_fl_settings());
    let client_id = ClientId::new();

    let resp = protocol.heartbeat(client_id, ClientState::Done);

    assert_eq!(HeartBeatResponse::StandBy, resp);
    assert_eq!(protocol.next_event().unwrap(), Event::ResetHeartBeat(client_id));
    assert!(protocol.next_event().is_none());
}

/// Test the outcome of a heartbeat from a client that has been selected
/// but hasn't finished training yet.
#[test]
fn test_heartbeat_selected_participant() {
    let mut protocol = Protocol::new(get_default_fl_settings());
    let client_id = ClientId::new();

    let resp = protocol.heartbeat(client_id, ClientState::Selected);

    assert_eq!(HeartBeatResponse::Round(0), resp);
    assert_eq!(protocol.next_event().unwrap(), Event::ResetHeartBeat(client_id));
    assert!(protocol.next_event().is_none());
}

/// Test the outcome of a heartbeat from a client in any state after all
/// the rounds have been completed already.
#[test]
fn test_heartbeat_training_complete() {
    let mut protocol = Protocol::new(get_default_fl_settings());
    let client_id = ClientId::new();
    protocol.is_training_complete = true;
    let client_states = vec![
        ClientState::Unknown,
        ClientState::Ignored,
        ClientState::Done,
        ClientState::DoneAndInactive,
        ClientState::Selected,
        ClientState::Waiting,
    ];

    for state in client_states.iter() {
        let resp = protocol.heartbeat(client_id, *state);

        assert_eq!(HeartBeatResponse::Finish, resp);
        assert_eq!(protocol.next_event().unwrap(), Event::ResetHeartBeat(client_id));
    }
    assert!(protocol.next_event().is_none());
}

/// A heartbeat never mutates the counters, in any state and any phase.
#[test]
fn test_heartbeat_never_mutates_counters() {
    let mut protocol = Protocol::new(get_default_fl_settings());
    let client_id = ClientId::new();
    let preset = Counters { waiting: 2, selected: 1, done: 3, done_and_inactive: 1, ignored: 2 };
    protocol.counters = preset;

    let client_states = vec![
        ClientState::Unknown,
        ClientState::Ignored,
        ClientState::Done,
        ClientState::DoneAndInactive,
        ClientState::Selected,
        ClientState::Waiting,
    ];
    for state in client_states.iter() {
        protocol.heartbeat(client_id, *state);
        assert_eq!(protocol.counters(), preset);
    }

    protocol.is_training_complete = true;
    for state in client_states.iter() {
        protocol.heartbeat(client_id, *state);
        assert_eq!(protocol.counters(), preset);
    }
}
