use http_serve::connection::{ConnectionAction, ConnectionEvent, ConnectionPhase, ConnectionState};

#[test]
fn new_connection_is_served() {
    assert_eq!(ConnectionState::new().phase(), ConnectionPhase::Serving);
}

#[test]
fn finished_connection_closes_without_failure() {
    let mut conn = ConnectionState::new();
    assert_eq!(
        conn.step(ConnectionEvent::Finished { failed: false }),
        ConnectionAction::Close { report_failure: false }
    );
    assert_eq!(conn.phase(), ConnectionPhase::Closed);
}

#[test]
fn failed_connection_reports_its_failure() {
    let mut conn = ConnectionState::new();
    assert_eq!(
        conn.step(ConnectionEvent::Finished { failed: true }),
        ConnectionAction::Close { report_failure: true }
    );
}

#[test]
fn signal_asks_once_for_graceful_shutdown() {
    let mut conn = ConnectionState::new();
    assert_eq!(conn.step(ConnectionEvent::ShutdownSignalled), ConnectionAction::GracefulShutdown);
    assert_eq!(conn.phase(), ConnectionPhase::ShuttingDown);
    assert_eq!(conn.step(ConnectionEvent::ShutdownSignalled), ConnectionAction::Ignore);
    assert_eq!(
        conn.step(ConnectionEvent::Finished { failed: false }),
        ConnectionAction::Close { report_failure: false }
    );
    assert_eq!(conn.phase(), ConnectionPhase::Closed);
}

#[test]
fn closed_connection_ignores_everything() {
    let mut conn = ConnectionState::new();
    conn.step(ConnectionEvent::Finished { failed: true });
    assert_eq!(conn.step(ConnectionEvent::ShutdownSignalled), ConnectionAction::Ignore);
    assert_eq!(conn.step(ConnectionEvent::Finished { failed: true }), ConnectionAction::Ignore);
    assert_eq!(conn.phase(), ConnectionPhase::Closed);
}
