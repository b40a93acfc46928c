//! What to do when accepting a TCP connection fails.
use vstd::prelude::*;

verus! {

/// The kind of an I/O error, as reported by the operating system.
///
/// The variants follow those of `std::io::ErrorKind`; kinds that the accept
/// policy does not distinguish may be reported as `Other`.
#[derive(Clone, Copy, Debug, PartialEq, Eq)]
pub enum ErrorKind {
    NotFound,
    PermissionDenied,
    ConnectionRefused,
    ConnectionReset,
    HostUnreachable,
    NetworkUnreachable,
    ConnectionAborted,
    NotConnected,
    AddrInUse,
    AddrNotAvailable,
    NetworkDown,
    BrokenPipe,
    AlreadyExists,
    WouldBlock,
    InvalidInput,
    InvalidData,
    TimedOut,
    WriteZero,
    Interrupted,
    Unsupported,
    UnexpectedEof,
    OutOfMemory,
    Other,
}

/// The kinds of error that concern one incoming connection only: the peer
/// went away while the connection was being accepted.
pub open spec fn concerns_one_connection(kind: ErrorKind) -> bool {
    ||| kind == ErrorKind::ConnectionRefused
    ||| kind == ErrorKind::ConnectionAborted
    ||| kind == ErrorKind::ConnectionReset
}

/// Whether an error of this kind is a connection error: refused, aborted or
/// reset by the peer.
pub fn is_connection_error(kind: &ErrorKind) -> (res: bool)
    ensures
        res == concerns_one_connection(*kind),
        res == (*kind == ErrorKind::ConnectionRefused || *kind == ErrorKind::ConnectionAborted
            || *kind == ErrorKind::ConnectionReset),
{
    match kind {
        ErrorKind::ConnectionRefused | ErrorKind::ConnectionAborted
        | ErrorKind::ConnectionReset => true,
        _ => false,
    }
}

/// How long the accept loop pauses after an error that is not a connection
/// error (for instance when the process has run out of file descriptors).
pub const ACCEPT_ERROR_BACKOFF_MILLIS: u64 = 1000;

/// What the accept loop does after a failed `accept`.
#[derive(Clone, Copy, Debug, PartialEq, Eq)]
pub enum AcceptRetry {
    /// Try to accept the next connection at once.
    Immediately,
    /// Report the error, wait this many milliseconds, then try again.
    AfterBackoff { millis: u64 },
}

/// The retry that the accept loop makes after an error of this kind.
pub open spec fn retry_for(kind: ErrorKind) -> AcceptRetry {
    if concerns_one_connection(kind) {
        AcceptRetry::Immediately
    } else {
        AcceptRetry::AfterBackoff { millis: ACCEPT_ERROR_BACKOFF_MILLIS }
    }
}

/// Decides how the accept loop goes on after `accept` failed with an error of
/// this kind: a connection error only loses that connection, so the loop
/// goes on at once; any other error is reported and the loop pauses for
/// `ACCEPT_ERROR_BACKOFF_MILLIS` before it tries again.
pub fn on_accept_error(kind: &ErrorKind) -> (retry: AcceptRetry)
    ensures
        retry == retry_for(*kind),
        (retry == AcceptRetry::Immediately) == (*kind == ErrorKind::ConnectionRefused || *kind
            == ErrorKind::ConnectionAborted || *kind == ErrorKind::ConnectionReset),
        retry != AcceptRetry::Immediately ==> retry == (AcceptRetry::AfterBackoff { millis: 1000 }),
{
    if is_connection_error(kind) {
        AcceptRetry::Immediately
    } else {
        AcceptRetry::AfterBackoff { millis: ACCEPT_ERROR_BACKOFF_MILLIS }
    }
}

/// Exactly the connection errors (refused, aborted, reset) are retried at
/// once; every other kind of error is followed by a pause of one second.
pub proof fn law_accept_retry(kind: ErrorKind)
    ensures
        concerns_one_connection(kind) == (kind == ErrorKind::ConnectionRefused || kind
            == ErrorKind::ConnectionAborted || kind == ErrorKind::ConnectionReset),
        (retry_for(kind) == AcceptRetry::Immediately) == (kind == ErrorKind::ConnectionRefused || kind
            == ErrorKind::ConnectionAborted || kind == ErrorKind::ConnectionReset),
        retry_for(kind) != AcceptRetry::Immediately ==> retry_for(kind) == (AcceptRetry::AfterBackoff {
            millis: 1000,
        }),
        ACCEPT_ERROR_BACKOFF_MILLIS == 1000,
{
}

} // verus!
