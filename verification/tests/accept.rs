use http_serve::accept::{is_connection_error, on_accept_error, AcceptRetry, ErrorKind, ACCEPT_ERROR_BACKOFF_MILLIS};

#[test]
fn connection_errors_are_refused_aborted_and_reset() {
    assert!(is_connection_error(&ErrorKind::ConnectionRefused));
    assert!(is_connection_error(&ErrorKind::ConnectionAborted));
    assert!(is_connection_error(&ErrorKind::ConnectionReset));
}

#[test]
fn other_errors_are_not_connection_errors() {
    let others = [
        ErrorKind::NotFound,
        ErrorKind::PermissionDenied,
        ErrorKind::HostUnreachable,
        ErrorKind::NetworkUnreachable,
        ErrorKind::NotConnected,
        ErrorKind::AddrInUse,
        ErrorKind::AddrNotAvailable,
        ErrorKind::NetworkDown,
        ErrorKind::BrokenPipe,
        ErrorKind::AlreadyExists,
        ErrorKind::WouldBlock,
        ErrorKind::InvalidInput,
        ErrorKind::InvalidData,
        ErrorKind::TimedOut,
        ErrorKind::WriteZero,
        ErrorKind::Interrupted,
        ErrorKind::Unsupported,
        ErrorKind::UnexpectedEof,
        ErrorKind::OutOfMemory,
        ErrorKind::Other,
    ];
    for kind in others.iter() {
        assert!(!is_connection_error(kind), "{:?}", kind);
    }
}

#[test]
fn connection_error_retries_at_once() {
    assert_eq!(on_accept_error(&ErrorKind::ConnectionReset), AcceptRetry::Immediately);
    assert_eq!(on_accept_error(&ErrorKind::ConnectionRefused), AcceptRetry::Immediately);
    assert_eq!(on_accept_error(&ErrorKind::ConnectionAborted), AcceptRetry::Immediately);
}

#[test]
fn other_error_backs_off_one_second() {
    assert_eq!(ACCEPT_ERROR_BACKOFF_MILLIS, 1000);
    assert_eq!(
        on_accept_error(&ErrorKind::Other),
        AcceptRetry::AfterBackoff { millis: 1000 }
    );
    assert_eq!(
        on_accept_error(&ErrorKind::OutOfMemory),
        AcceptRetry::AfterBackoff { millis: 1000 }
    );
}
