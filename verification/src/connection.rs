//! The life cycle of one connection of a server that shuts down gracefully:
//! the connection is served until it finishes; if the shutdown signal
//! arrives first, the connection is asked once to shut down gracefully and
//! is then served until it finishes.
use vstd::prelude::*;

verus! {

/// Where a connection is in its life cycle.
#[derive(Clone, Copy, Debug, PartialEq, Eq)]
pub enum ConnectionPhase {
    /// Being served.
    Serving,
    /// Asked to shut down gracefully; still being served.
    ShuttingDown,
    /// Finished.
    Closed,
}

/// What happened to a connection.
#[derive(Clone, Copy, Debug, PartialEq, Eq)]
pub enum ConnectionEvent {
    /// The server's shutdown signal completed.
    ShutdownSignalled,
    /// Serving the connection ended, with an error if `failed`.
    Finished { failed: bool },
}

/// What to do with a connection in response to an event.
#[derive(Clone, Copy, Debug, PartialEq, Eq)]
pub enum ConnectionAction {
    /// Ask the connection to shut down gracefully: finish the requests in
    /// flight and accept no new ones.
    GracefulShutdown,
    /// Stop serving the connection and report that it closed; report the
    /// failure first if `report_failure`.
    Close { report_failure: bool },
    /// Nothing to do.
    Ignore,
}

/// The phase and the action that follow `event` in `phase`.
pub open spec fn connection_next(phase: ConnectionPhase, event: ConnectionEvent) -> (
    ConnectionPhase,
    ConnectionAction,
) {
    match phase {
        ConnectionPhase::Closed => (phase, ConnectionAction::Ignore),
        _ => match event {
            ConnectionEvent::Finished { failed } => (
                ConnectionPhase::Closed,
                ConnectionAction::Close { report_failure: failed },
            ),
            ConnectionEvent::ShutdownSignalled => if phase == ConnectionPhase::Serving {
                (ConnectionPhase::ShuttingDown, ConnectionAction::GracefulShutdown)
            } else {
                (phase, ConnectionAction::Ignore)
            },
        },
    }
}

/// The state of one connection.
pub struct ConnectionState {
    phase: ConnectionPhase,
}

impl View for ConnectionState {
    type V = ConnectionPhase;

    closed spec fn view(&self) -> ConnectionPhase {
        self.phase
    }
}

impl ConnectionState {
    /// A connection that has just been accepted and is being served.
    pub fn new() -> (res: Self)
        ensures
            res@ == ConnectionPhase::Serving,
    {
        ConnectionState { phase: ConnectionPhase::Serving }
    }

    /// Where the connection is in its life cycle.
    pub fn phase(&self) -> (res: ConnectionPhase)
        ensures
            res == self@,
    {
        self.phase
    }

    /// Moves the connection on by `event` and returns what to do.
    pub fn step(&mut self, event: ConnectionEvent) -> (action: ConnectionAction)
        ensures
            (final(self)@, action) == connection_next(old(self)@, event),
            (action == ConnectionAction::GracefulShutdown) == (old(self)@ == ConnectionPhase::Serving
                && event == ConnectionEvent::ShutdownSignalled),
            old(self)@ != ConnectionPhase::Closed && event is Finished ==> {
                &&& final(self)@ == ConnectionPhase::Closed
                &&& action == (ConnectionAction::Close { report_failure: event->failed })
            },
            action is Close ==> old(self)@ != ConnectionPhase::Closed && event is Finished,
            old(self)@ == ConnectionPhase::Closed ==> final(self)@ == ConnectionPhase::Closed
                && action == ConnectionAction::Ignore,
            event == ConnectionEvent::ShutdownSignalled && old(self)@ != ConnectionPhase::Closed
                ==> final(self)@ == ConnectionPhase::ShuttingDown,
    {
        match (self.phase, event) {
            (ConnectionPhase::Closed, _) => ConnectionAction::Ignore,
            (_, ConnectionEvent::Finished { failed }) => {
                self.phase = ConnectionPhase::Closed;
                ConnectionAction::Close { report_failure: failed }
            },
            (ConnectionPhase::Serving, ConnectionEvent::ShutdownSignalled) => {
                self.phase = ConnectionPhase::ShuttingDown;
                ConnectionAction::GracefulShutdown
            },
            (ConnectionPhase::ShuttingDown, ConnectionEvent::ShutdownSignalled) => {
                ConnectionAction::Ignore
            },
        }
    }
}

/// The phase reached and the actions taken when `events` happen in order,
/// starting from `phase`.
pub open spec fn connection_run(phase: ConnectionPhase, events: Seq<ConnectionEvent>) -> (
    ConnectionPhase,
    Seq<ConnectionAction>,
)
    decreases events.len(),
{
    if events.len() == 0 {
        (phase, Seq::empty())
    } else {
        let (after, action) = connection_next(phase, events[0]);
        let (last, actions) = connection_run(after, events.drop_first());
        (last, seq![action] + actions)
    }
}

/// The number of graceful shutdown requests among `actions`.
pub open spec fn shutdown_requests(actions: Seq<ConnectionAction>) -> nat
    decreases actions.len(),
{
    if actions.len() == 0 {
        0
    } else {
        (if actions[0] is GracefulShutdown { 1nat } else { 0nat }) + shutdown_requests(
            actions.drop_first(),
        )
    }
}

/// The number of closings among `actions`.
pub open spec fn close_actions(actions: Seq<ConnectionAction>) -> nat
    decreases actions.len(),
{
    if actions.len() == 0 {
        0
    } else {
        (if actions[0] is Close { 1nat } else { 0nat }) + close_actions(actions.drop_first())
    }
}

/// A closed connection stays closed and is left alone, whatever happens.
pub proof fn law_closed_is_final(events: Seq<ConnectionEvent>)
    ensures
        connection_run(ConnectionPhase::Closed, events).0 == ConnectionPhase::Closed,
        shutdown_requests(connection_run(ConnectionPhase::Closed, events).1) == 0,
        close_actions(connection_run(ConnectionPhase::Closed, events).1) == 0,
    decreases events.len(),
{
    if events.len() > 0 {
        law_closed_is_final(events.drop_first());
        let rest = connection_run(ConnectionPhase::Closed, events.drop_first()).1;
        assert((seq![ConnectionAction::Ignore] + rest).drop_first() =~= rest);
    }
}

/// A connection is asked to shut down gracefully at most once, and only
/// while it is being served; it is closed at most once, and exactly when it
/// ends up closed having not been closed before.
pub proof fn law_connection_requests_at_most_once(phase: ConnectionPhase, events: Seq<ConnectionEvent>)
    ensures
        shutdown_requests(connection_run(phase, events).1) <= (if phase == ConnectionPhase::Serving {
            1nat
        } else {
            0nat
        }),
        close_actions(connection_run(phase, events).1) == (if phase != ConnectionPhase::Closed
            && connection_run(phase, events).0 == ConnectionPhase::Closed { 1nat } else { 0nat }),
    decreases events.len(),
{
    if events.len() > 0 {
        let (after, action) = connection_next(phase, events[0]);
        law_connection_requests_at_most_once(after, events.drop_first());
        if after == ConnectionPhase::Closed {
            law_closed_is_final(events.drop_first());
        }
        let rest = connection_run(after, events.drop_first()).1;
        assert((seq![action] + rest).drop_first() =~= rest);
        assert((seq![action] + rest)[0] == action);
    }
}

/// A connection that is being served when the shutdown signal arrives is
/// asked to shut down gracefully; a connection that finishes is closed, and
/// its failure, if any, is reported.
pub proof fn law_connection_responses(phase: ConnectionPhase, failed: bool)
    ensures
        phase == ConnectionPhase::Serving ==> connection_next(phase, ConnectionEvent::ShutdownSignalled)
            == (ConnectionPhase::ShuttingDown, ConnectionAction::GracefulShutdown),
        phase != ConnectionPhase::Closed ==> connection_next(phase, ConnectionEvent::Finished { failed })
            == (ConnectionPhase::Closed, ConnectionAction::Close { report_failure: failed }),
{
}

/// What one step does to a connection: a graceful shutdown is asked for
/// exactly when the signal finds the connection being served; a connection
/// is closed exactly when it finishes while not yet closed, and its failure
/// is reported exactly when serving it failed; a closed connection is left
/// alone.
pub proof fn law_connection_step(phase: ConnectionPhase, event: ConnectionEvent)
    ensures
        (connection_next(phase, event).1 == ConnectionAction::GracefulShutdown) == (phase
            == ConnectionPhase::Serving && event == ConnectionEvent::ShutdownSignalled),
        (connection_next(phase, event).1 is Close) == (phase != ConnectionPhase::Closed
            && event is Finished),
        connection_next(phase, event).1 is Close ==> connection_next(phase, event).1
            == (ConnectionAction::Close { report_failure: event->failed }),
        (connection_next(phase, event).0 == ConnectionPhase::Closed) == (phase == ConnectionPhase::Closed
            || event is Finished),
        event == ConnectionEvent::ShutdownSignalled && phase != ConnectionPhase::Closed
            ==> connection_next(phase, event).0 == ConnectionPhase::ShuttingDown,
        phase == ConnectionPhase::Closed ==> connection_next(phase, event) == (
            ConnectionPhase::Closed,
            ConnectionAction::Ignore,
        ),
{
}

} // verus!
