//! The life cycle of a server that shuts down gracefully: it accepts
//! connections until the shutdown signal arrives, then stops accepting and
//! waits until every connection it accepted has closed.
//!
//! The caller runs the loop: it waits for the next event (a connection was
//! accepted, the signal arrived, a connection closed), hands it to
//! `ServerState::step`, and performs the action that comes back.
use vstd::prelude::*;

verus! {

/// Where a server is in its life cycle.
#[derive(Clone, Copy, Debug, PartialEq, Eq)]
pub enum ServerPhase {
    /// Accepting connections.
    Accepting,
    /// The shutdown signal arrived; connections are still open.
    Draining,
    /// Every connection has closed; the server is done.
    Stopped,
}

/// What happened to a server.
#[derive(Clone, Copy, Debug, PartialEq, Eq)]
pub enum ServerEvent {
    /// The listener accepted a connection.
    ConnectionAccepted,
    /// The shutdown signal completed.
    ShutdownSignalled,
    /// A connection that the server was serving has closed.
    ConnectionClosed,
}

/// What a server does in response to an event.
#[derive(Clone, Copy, Debug, PartialEq, Eq)]
pub enum ServerAction {
    /// Serve the accepted connection, after setting `TCP_NODELAY` on it to
    /// the given value if there is one.
    ServeConnection { set_nodelay: Option<bool> },
    /// Close the listener and accept nothing more; wait for the open
    /// connections to close.
    StopAccepting,
    /// Close the listener if it is still open and complete successfully.
    Finish,
    /// Nothing to do.
    Ignore,
}

/// The abstract state of a server.
pub struct ServerView {
    pub phase: ServerPhase,
    pub tcp_nodelay: Option<bool>,
    /// The number of accepted connections that have not closed yet.
    pub open: nat,
}

impl ServerView {
    /// A server is stopped exactly when it has drained every connection.
    pub open spec fn inv(self) -> bool {
        &&& (self.phase == ServerPhase::Stopped ==> self.open == 0)
        &&& (self.phase == ServerPhase::Draining ==> self.open > 0)
    }

    /// The state and the action that follow `event`.
    pub open spec fn next(self, event: ServerEvent) -> (ServerView, ServerAction) {
        match self.phase {
            ServerPhase::Accepting => match event {
                ServerEvent::ConnectionAccepted => (
                    ServerView { open: self.open + 1, ..self },
                    ServerAction::ServeConnection { set_nodelay: self.tcp_nodelay },
                ),
                ServerEvent::ShutdownSignalled => if self.open == 0 {
                    (ServerView { phase: ServerPhase::Stopped, ..self }, ServerAction::Finish)
                } else {
                    (ServerView { phase: ServerPhase::Draining, ..self }, ServerAction::StopAccepting)
                },
                ServerEvent::ConnectionClosed => if self.open == 0 {
                    (self, ServerAction::Ignore)
                } else {
                    (ServerView { open: (self.open - 1) as nat, ..self }, ServerAction::Ignore)
                },
            },
            ServerPhase::Draining => match event {
                ServerEvent::ConnectionClosed => if self.open <= 1 {
                    (ServerView { phase: ServerPhase::Stopped, open: 0, ..self }, ServerAction::Finish)
                } else {
                    (ServerView { open: (self.open - 1) as nat, ..self }, ServerAction::Ignore)
                },
                _ => (self, ServerAction::Ignore),
            },
            ServerPhase::Stopped => (self, ServerAction::Ignore),
        }
    }
}

/// A running server's state: its phase, the `TCP_NODELAY` value that it sets
/// on every accepted connection, and how many of its connections are open.
pub struct ServerState {
    phase: ServerPhase,
    tcp_nodelay: Option<bool>,
    open_connections: u64,
}

impl View for ServerState {
    type V = ServerView;

    closed spec fn view(&self) -> ServerView {
        ServerView {
            phase: self.phase,
            tcp_nodelay: self.tcp_nodelay,
            open: self.open_connections as nat,
        }
    }
}

impl ServerState {
    #[verifier::type_invariant]
    closed spec fn well_formed(self) -> bool {
        self@.inv()
    }

    /// The state of a server that starts accepting connections, with no
    /// connection open.
    pub fn new(tcp_nodelay: Option<bool>) -> (res: Self)
        ensures
            res@ == (ServerView { phase: ServerPhase::Accepting, tcp_nodelay, open: 0 }),
    {
        ServerState { phase: ServerPhase::Accepting, tcp_nodelay, open_connections: 0 }
    }

    /// Where the server is in its life cycle.
    pub fn phase(&self) -> (res: ServerPhase)
        ensures
            res == self@.phase,
    {
        self.phase
    }

    /// The number of accepted connections that have not closed yet.
    pub fn open_connections(&self) -> (res: u64)
        ensures
            res == self@.open,
    {
        self.open_connections
    }

    /// Moves the server on by `event` and returns what to do.
    pub fn step(&mut self, event: ServerEvent) -> (action: ServerAction)
        requires
            old(self)@.phase == ServerPhase::Accepting && event == ServerEvent::ConnectionAccepted
                ==> old(self)@.open < u64::MAX,
        ensures
            (final(self)@, action) == old(self)@.next(event),
            final(self)@.inv(),
            final(self)@.tcp_nodelay == old(self)@.tcp_nodelay,
            old(self)@.phase == ServerPhase::Accepting && event == ServerEvent::ConnectionAccepted ==> {
                &&& action == (ServerAction::ServeConnection { set_nodelay: old(self)@.tcp_nodelay })
                &&& final(self)@.phase == ServerPhase::Accepting
                &&& final(self)@.open == old(self)@.open + 1
            },
            old(self)@.phase == ServerPhase::Accepting && event == ServerEvent::ConnectionClosed
                && old(self)@.open > 0 ==> {
                &&& action == ServerAction::Ignore
                &&& final(self)@.phase == ServerPhase::Accepting
                &&& final(self)@.open == old(self)@.open - 1
            },
            action is ServeConnection ==> event == ServerEvent::ConnectionAccepted,
            action == ServerAction::StopAccepting ==> event == ServerEvent::ShutdownSignalled,
            action == ServerAction::Finish ==> event == ServerEvent::ShutdownSignalled || (event
                == ServerEvent::ConnectionClosed && old(self)@.phase == ServerPhase::Draining),
            old(self)@.phase == ServerPhase::Accepting && event != ServerEvent::ShutdownSignalled
                ==> final(self)@.phase == ServerPhase::Accepting,
    {
        proof {
            use_type_invariant(&*self);
        }
        let tcp_nodelay = self.tcp_nodelay;
        let open = self.open_connections;
        match self.phase {
            ServerPhase::Accepting => match event {
                ServerEvent::ConnectionAccepted => {
                    *self = ServerState {
                        phase: ServerPhase::Accepting,
                        tcp_nodelay,
                        open_connections: open + 1,
                    };
                    ServerAction::ServeConnection { set_nodelay: tcp_nodelay }
                },
                ServerEvent::ShutdownSignalled => {
                    if open == 0 {
                        *self = ServerState { phase: ServerPhase::Stopped, tcp_nodelay, open_connections: 0 };
                        ServerAction::Finish
                    } else {
                        *self = ServerState {
                            phase: ServerPhase::Draining,
                            tcp_nodelay,
                            open_connections: open,
                        };
                        ServerAction::StopAccepting
                    }
                },
                ServerEvent::ConnectionClosed => {
                    if open > 0 {
                        *self = ServerState {
                            phase: ServerPhase::Accepting,
                            tcp_nodelay,
                            open_connections: open - 1,
                        };
                    }
                    ServerAction::Ignore
                },
            },
            ServerPhase::Draining => match event {
                ServerEvent::ConnectionClosed => {
                    if open <= 1 {
                        *self = ServerState { phase: ServerPhase::Stopped, tcp_nodelay, open_connections: 0 };
                        ServerAction::Finish
                    } else {
                        *self = ServerState {
                            phase: ServerPhase::Draining,
                            tcp_nodelay,
                            open_connections: open - 1,
                        };
                        ServerAction::Ignore
                    }
                },
                _ => ServerAction::Ignore,
            },
            ServerPhase::Stopped => ServerAction::Ignore,
        }
    }
}

/// The state reached and the actions taken when `events` happen in order,
/// starting from `state`.
pub open spec fn run(state: ServerView, events: Seq<ServerEvent>) -> (ServerView, Seq<ServerAction>)
    decreases events.len(),
{
    if events.len() == 0 {
        (state, Seq::empty())
    } else {
        let (after, action) = state.next(events[0]);
        let (last, actions) = run(after, events.drop_first());
        (last, seq![action] + actions)
    }
}

/// The number of connections served among `actions`.
pub open spec fn served(actions: Seq<ServerAction>) -> nat
    decreases actions.len(),
{
    if actions.len() == 0 {
        0
    } else {
        (if actions[0] is ServeConnection { 1nat } else { 0nat }) + served(actions.drop_first())
    }
}

/// The number of times the server finished among `actions`.
pub open spec fn finishes(actions: Seq<ServerAction>) -> nat
    decreases actions.len(),
{
    if actions.len() == 0 {
        0
    } else {
        (if actions[0] is Finish { 1nat } else { 0nat }) + finishes(actions.drop_first())
    }
}

/// The number of connection closings among `events`.
pub open spec fn closings(events: Seq<ServerEvent>) -> nat
    decreases events.len(),
{
    if events.len() == 0 {
        0
    } else {
        (if events[0] == ServerEvent::ConnectionClosed { 1nat } else { 0nat }) + closings(
            events.drop_first(),
        )
    }
}

/// Every closing in `events`, starting from `state`, is that of a connection
/// that is open at that moment: connections close only after they were
/// accepted, and once each.
pub open spec fn closings_match_connections(state: ServerView, events: Seq<ServerEvent>) -> bool
    decreases events.len(),
{
    events.len() > 0 ==> {
        &&& (events[0] == ServerEvent::ConnectionClosed ==> state.open > 0)
        &&& closings_match_connections(state.next(events[0]).0, events.drop_first())
    }
}

/// The state of a server that has just started.
pub open spec fn started(tcp_nodelay: Option<bool>) -> ServerView {
    ServerView { phase: ServerPhase::Accepting, tcp_nodelay, open: 0 }
}

/// A run takes one action per event.
proof fn lemma_run_len(state: ServerView, events: Seq<ServerEvent>)
    ensures
        run(state, events).1.len() == events.len(),
    decreases events.len(),
{
    if events.len() > 0 {
        lemma_run_len(state.next(events[0]).0, events.drop_first());
    }
}

/// Every step keeps the server's invariant and its `TCP_NODELAY` setting,
/// and a server that stopped accepting never accepts again.
pub proof fn law_step_keeps_invariant(state: ServerView, event: ServerEvent)
    requires
        state.inv(),
    ensures
        state.next(event).0.inv(),
        state.next(event).0.tcp_nodelay == state.tcp_nodelay,
        state.phase != ServerPhase::Accepting ==> state.next(event).0.phase != ServerPhase::Accepting,
        state.phase == ServerPhase::Stopped ==> state.next(event) == (state, ServerAction::Ignore),
{
}

/// The shutdown signal always ends accepting.
pub proof fn law_shutdown_stops_accepting(state: ServerView)
    ensures
        state.next(ServerEvent::ShutdownSignalled).0.phase != ServerPhase::Accepting,
        state.phase == ServerPhase::Accepting ==> {
            ||| state.next(ServerEvent::ShutdownSignalled).1 == ServerAction::StopAccepting
            ||| state.next(ServerEvent::ShutdownSignalled).1 == ServerAction::Finish
        },
{
}

/// Every connection that a server serves gets the server's `TCP_NODELAY`
/// setting.
pub proof fn law_served_with_configured_nodelay(state: ServerView, events: Seq<ServerEvent>, i: int)
    requires
        0 <= i < run(state, events).1.len(),
        run(state, events).1[i] is ServeConnection,
    ensures
        run(state, events).1[i] == (ServerAction::ServeConnection { set_nodelay: state.tcp_nodelay }),
    decreases events.len(),
{
    if events.len() > 0 && i > 0 {
        let after = state.next(events[0]).0;
        law_served_with_configured_nodelay(after, events.drop_first(), i - 1);
    }
}

/// A server that has stopped accepting serves no further connection,
/// whatever happens next.
pub proof fn law_nothing_served_after_shutdown(state: ServerView, events: Seq<ServerEvent>)
    requires
        state.phase != ServerPhase::Accepting,
    ensures
        served(run(state, events).1) == 0,
        run(state, events).0.phase != ServerPhase::Accepting,
        forall|j: int| 0 <= j < run(state, events).1.len() ==> !(run(state, events).1[j] is ServeConnection),
    decreases events.len(),
{
    if events.len() > 0 {
        let (after, action) = state.next(events[0]);
        law_nothing_served_after_shutdown(after, events.drop_first());
        let rest = run(after, events.drop_first()).1;
        assert((seq![action] + rest).drop_first() =~= rest);
        assert forall|j: int| 0 <= j < run(state, events).1.len() implies !(run(state, events).1[j] is ServeConnection) by {
            if j > 0 {
                assert(run(state, events).1[j] == rest[j - 1]);
            }
        }
    }
}

/// Running `prefix` and then `suffix` is running their concatenation.
proof fn lemma_run_append(state: ServerView, prefix: Seq<ServerEvent>, suffix: Seq<ServerEvent>)
    ensures
        run(state, prefix + suffix).0 == run(run(state, prefix).0, suffix).0,
        run(state, prefix + suffix).1 == run(state, prefix).1 + run(run(state, prefix).0, suffix).1,
    decreases prefix.len(),
{
    if prefix.len() == 0 {
        assert(prefix + suffix =~= suffix);
        assert(run(state, prefix).1 + run(state, suffix).1 =~= run(state, suffix).1);
    } else {
        let (after, action) = state.next(prefix[0]);
        lemma_run_append(after, prefix.drop_first(), suffix);
        assert((prefix + suffix).drop_first() =~= prefix.drop_first() + suffix);
        assert((prefix + suffix)[0] == prefix[0]);
        let a = run(after, prefix.drop_first()).1;
        let b = run(run(after, prefix.drop_first()).0, suffix).1;
        assert(seq![action] + (a + b) =~= (seq![action] + a) + b);
    }
}

/// Running a single event takes one step.
proof fn lemma_run_single(state: ServerView, event: ServerEvent)
    ensures
        run(state, seq![event]) == (state.next(event).0, seq![state.next(event).1]),
{
    let after = state.next(event).0;
    assert(seq![event].drop_first() =~= Seq::<ServerEvent>::empty());
    assert(seq![event][0] == event);
    assert(run(after, Seq::<ServerEvent>::empty()) == (after, Seq::<ServerAction>::empty()));
    assert(seq![state.next(event).1] + Seq::<ServerAction>::empty() =~= seq![state.next(event).1]);
}

/// Once the shutdown signal has arrived, no connection that is accepted
/// afterwards is served.
pub proof fn law_no_connection_served_after_signal(
    state: ServerView,
    events: Seq<ServerEvent>,
    i: int,
    j: int,
)
    requires
        0 <= i < j < events.len(),
        events[i] == ServerEvent::ShutdownSignalled,
    ensures
        !(run(state, events).1[j] is ServeConnection),
{
    let prefix = events.take(i + 1);
    let suffix = events.skip(i + 1);
    assert(events =~= prefix + suffix);
    lemma_run_append(state, prefix, suffix);
    lemma_run_len(state, prefix);
    let before = run(state, events.take(i));
    assert(prefix =~= events.take(i) + seq![ServerEvent::ShutdownSignalled]);
    lemma_run_append(state, events.take(i), seq![ServerEvent::ShutdownSignalled]);
    lemma_run_single(before.0, ServerEvent::ShutdownSignalled);
    law_shutdown_stops_accepting(before.0);
    let at_signal = run(state, prefix).0;
    law_nothing_served_after_shutdown(at_signal, suffix);
    lemma_run_len(state, events);
    lemma_run_len(at_signal, suffix);
    assert(run(state, events).1[j] == run(at_signal, suffix).1[j - (i + 1)]);
}

/// Counting open connections: after any run in which every closing is that
/// of an open connection, the connections open at the end are those open at
/// the start, plus those served, less those closed.
pub proof fn law_open_connections_counted(state: ServerView, events: Seq<ServerEvent>)
    requires
        state.inv(),
        closings_match_connections(state, events),
    ensures
        run(state, events).0.open + closings(events) == state.open + served(run(state, events).1),
    decreases events.len(),
{
    if events.len() > 0 {
        let (after, action) = state.next(events[0]);
        law_step_keeps_invariant(state, events[0]);
        law_open_connections_counted(after, events.drop_first());
        let rest = run(after, events.drop_first()).1;
        assert((seq![action] + rest).drop_first() =~= rest);
    }
}

/// `value` occurs in a non-empty sequence exactly when it is the first
/// element or occurs in the rest.
proof fn lemma_contains_split(events: Seq<ServerEvent>, value: ServerEvent)
    requires
        events.len() > 0,
    ensures
        events.contains(value) == (events[0] == value || events.drop_first().contains(value)),
{
    if events.contains(value) && events[0] != value {
        let i = choose|i: int| 0 <= i < events.len() && events[i] == value;
        assert(events.drop_first()[i - 1] == value);
    }
    if events.drop_first().contains(value) {
        let i = choose|i: int| 0 <= i < events.drop_first().len() && events.drop_first()[i] == value;
        assert(events[i + 1] == value);
    }
    if events[0] == value {
        assert(events[0] == value);
    }
}

/// The phase that a run ends in: a server stops accepting exactly when it
/// had already stopped or the shutdown signal arrives, and it finishes
/// exactly once, on the step that takes it to `Stopped`.
pub proof fn law_run_phases(state: ServerView, events: Seq<ServerEvent>)
    requires
        state.inv(),
    ensures
        run(state, events).0.inv(),
        run(state, events).0.tcp_nodelay == state.tcp_nodelay,
        (run(state, events).0.phase != ServerPhase::Accepting) == (state.phase != ServerPhase::Accepting
            || events.contains(ServerEvent::ShutdownSignalled)),
        state.phase == ServerPhase::Stopped ==> run(state, events).0.phase == ServerPhase::Stopped,
        finishes(run(state, events).1) == (if state.phase != ServerPhase::Stopped
            && run(state, events).0.phase == ServerPhase::Stopped { 1nat } else { 0nat }),
    decreases events.len(),
{
    if events.len() == 0 {
        assert(!events.contains(ServerEvent::ShutdownSignalled));
    } else {
        let (after, action) = state.next(events[0]);
        law_step_keeps_invariant(state, events[0]);
        law_run_phases(after, events.drop_first());
        lemma_contains_split(events, ServerEvent::ShutdownSignalled);
        let rest = run(after, events.drop_first()).1;
        assert((seq![action] + rest).drop_first() =~= rest);
        assert((seq![action] + rest)[0] == action);
    }
}

/// What graceful shutdown promises: a server that started with no
/// connection, and whose connections close only while open, has stopped
/// exactly when the shutdown signal has arrived and every connection that it
/// served has closed; it then has finished exactly once, and otherwise not
/// at all.
pub proof fn law_stops_when_signalled_and_drained(tcp_nodelay: Option<bool>, events: Seq<ServerEvent>)
    requires
        closings_match_connections(started(tcp_nodelay), events),
    ensures
        (run(started(tcp_nodelay), events).0.phase == ServerPhase::Stopped) == (events.contains(
            ServerEvent::ShutdownSignalled,
        ) && served(run(started(tcp_nodelay), events).1) == closings(events)),
        finishes(run(started(tcp_nodelay), events).1) == (if run(started(tcp_nodelay), events).0.phase
            == ServerPhase::Stopped { 1nat } else { 0nat }),
{
    law_run_phases(started(tcp_nodelay), events);
    law_open_connections_counted(started(tcp_nodelay), events);
}

/// What one step does, stated case by case and as relations between event,
/// phase and action: an accepted connection is always served while
/// accepting, with the configured `TCP_NODELAY`, and counted once; a closing
/// uncounts exactly one connection; only the signal ends accepting, and the
/// server finishes only on the signal with nothing open or on the last
/// closing while draining.
pub proof fn law_server_step(state: ServerView, event: ServerEvent)
    requires
        state.inv(),
    ensures
        state.phase == ServerPhase::Accepting && event == ServerEvent::ConnectionAccepted
            ==> state.next(event) == (
            ServerView { phase: ServerPhase::Accepting, tcp_nodelay: state.tcp_nodelay, open: state.open + 1 },
            ServerAction::ServeConnection { set_nodelay: state.tcp_nodelay },
        ),
        state.phase == ServerPhase::Accepting && event == ServerEvent::ConnectionClosed && state.open > 0
            ==> state.next(event) == (
            ServerView {
                phase: ServerPhase::Accepting,
                tcp_nodelay: state.tcp_nodelay,
                open: (state.open - 1) as nat,
            },
            ServerAction::Ignore,
        ),
        state.phase == ServerPhase::Accepting && event == ServerEvent::ShutdownSignalled && state.open > 0
            ==> state.next(event) == (
            ServerView { phase: ServerPhase::Draining, tcp_nodelay: state.tcp_nodelay, open: state.open },
            ServerAction::StopAccepting,
        ),
        state.phase == ServerPhase::Accepting && event == ServerEvent::ShutdownSignalled && state.open == 0
            ==> state.next(event) == (
            ServerView { phase: ServerPhase::Stopped, tcp_nodelay: state.tcp_nodelay, open: 0 },
            ServerAction::Finish,
        ),
        state.phase == ServerPhase::Draining && event == ServerEvent::ConnectionClosed ==> {
            &&& state.next(event).0.open == state.open - 1
            &&& state.next(event).0.tcp_nodelay == state.tcp_nodelay
            &&& state.open == 1 ==> state.next(event).0.phase == ServerPhase::Stopped
                && state.next(event).1 == ServerAction::Finish
            &&& state.open > 1 ==> state.next(event).0.phase == ServerPhase::Draining
                && state.next(event).1 == ServerAction::Ignore
        },
        state.phase != ServerPhase::Accepting && event != ServerEvent::ConnectionClosed ==> state.next(event)
            == (state, ServerAction::Ignore),
        (state.next(event).1 is ServeConnection) == (state.phase == ServerPhase::Accepting && event
            == ServerEvent::ConnectionAccepted),
        (state.next(event).1 == ServerAction::StopAccepting) == (state.phase == ServerPhase::Accepting
            && event == ServerEvent::ShutdownSignalled && state.open > 0),
        (state.next(event).1 == ServerAction::Finish) == ((state.phase == ServerPhase::Accepting && event
            == ServerEvent::ShutdownSignalled && state.open == 0) || (state.phase == ServerPhase::Draining
            && event == ServerEvent::ConnectionClosed && state.open == 1)),
        state.phase == ServerPhase::Accepting && event != ServerEvent::ShutdownSignalled
            ==> state.next(event).0.phase == ServerPhase::Accepting,
        state.next(event).0.tcp_nodelay == state.tcp_nodelay,
{
}

} // verus!
