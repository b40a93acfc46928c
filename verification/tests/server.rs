use http_serve::server::{ServerAction, ServerEvent, ServerPhase, ServerState};

#[test]
fn new_server_accepts_with_nothing_open() {
    let state = ServerState::new(Some(true));
    assert_eq!(state.phase(), ServerPhase::Accepting);
    assert_eq!(state.open_connections(), 0);
}

#[test]
fn accepted_connection_is_served_with_configured_nodelay() {
    let mut state = ServerState::new(Some(false));
    assert_eq!(
        state.step(ServerEvent::ConnectionAccepted),
        ServerAction::ServeConnection { set_nodelay: Some(false) }
    );
    assert_eq!(state.open_connections(), 1);
    let mut default = ServerState::new(None);
    assert_eq!(
        default.step(ServerEvent::ConnectionAccepted),
        ServerAction::ServeConnection { set_nodelay: None }
    );
}

#[test]
fn shutdown_with_no_connection_finishes_at_once() {
    let mut state = ServerState::new(None);
    assert_eq!(state.step(ServerEvent::ShutdownSignalled), ServerAction::Finish);
    assert_eq!(state.phase(), ServerPhase::Stopped);
}

#[test]
fn shutdown_waits_for_every_connection() {
    let mut state = ServerState::new(Some(true));
    state.step(ServerEvent::ConnectionAccepted);
    state.step(ServerEvent::ConnectionAccepted);
    state.step(ServerEvent::ConnectionAccepted);
    assert_eq!(state.step(ServerEvent::ConnectionClosed), ServerAction::Ignore);
    assert_eq!(state.open_connections(), 2);
    assert_eq!(state.step(ServerEvent::ShutdownSignalled), ServerAction::StopAccepting);
    assert_eq!(state.phase(), ServerPhase::Draining);
    assert_eq!(state.step(ServerEvent::ConnectionAccepted), ServerAction::Ignore);
    assert_eq!(state.step(ServerEvent::ShutdownSignalled), ServerAction::Ignore);
    assert_eq!(state.open_connections(), 2);
    assert_eq!(state.step(ServerEvent::ConnectionClosed), ServerAction::Ignore);
    assert_eq!(state.phase(), ServerPhase::Draining);
    assert_eq!(state.step(ServerEvent::ConnectionClosed), ServerAction::Finish);
    assert_eq!(state.phase(), ServerPhase::Stopped);
    assert_eq!(state.open_connections(), 0);
}

#[test]
fn stopped_server_ignores_everything() {
    let mut state = ServerState::new(None);
    state.step(ServerEvent::ShutdownSignalled);
    for event in [
        ServerEvent::ConnectionAccepted,
        ServerEvent::ShutdownSignalled,
        ServerEvent::ConnectionClosed,
    ] {
        assert_eq!(state.step(event), ServerAction::Ignore);
        assert_eq!(state.phase(), ServerPhase::Stopped);
        assert_eq!(state.open_connections(), 0);
    }
}

#[test]
fn unmatched_closing_while_accepting_is_ignored() {
    let mut state = ServerState::new(None);
    assert_eq!(state.step(ServerEvent::ConnectionClosed), ServerAction::Ignore);
    assert_eq!(state.open_connections(), 0);
    assert_eq!(state.phase(), ServerPhase::Accepting);
}

#[test]
fn counted_connections_match_served_less_closed() {
    let events = [
        ServerEvent::ConnectionAccepted,
        ServerEvent::ConnectionAccepted,
        ServerEvent::ConnectionClosed,
        ServerEvent::ConnectionAccepted,
        ServerEvent::ConnectionAccepted,
        ServerEvent::ConnectionClosed,
    ];
    let mut state = ServerState::new(Some(true));
    let mut served = 0u64;
    let mut closed = 0u64;
    for event in events {
        if event == ServerEvent::ConnectionClosed {
            closed += 1;
        }
        if let ServerAction::ServeConnection { set_nodelay } = state.step(event) {
            assert_eq!(set_nodelay, Some(true));
            served += 1;
        }
    }
    assert_eq!(state.open_connections(), served - closed);
    assert_eq!(state.open_connections(), 2);
}
