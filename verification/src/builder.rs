//! The server builder: a listener and a service factory, with the options
//! that shape how accepted connections are served.
use core::future::Future;
use core::marker::PhantomData;
use tokio::net::TcpListener;
use vstd::prelude::*;

verus! {

/// The listening socket of a server; it is only carried through here.
#[verifier::external_type_specification]
#[verifier::external_body]
pub struct ExTcpListener(tokio::net::TcpListener);

/// A server that is configured but not yet running: it accepts connections
/// from `tcp_listener` and serves each with a service that `make_service`
/// produces.
pub struct Serve<M, S> {
    tcp_listener: TcpListener,
    make_service: M,
    tcp_nodelay: Option<bool>,
    _marker: PhantomData<S>,
}

impl<M, S> Serve<M, S> {
    /// The socket that the server accepts connections from.
    pub closed spec fn listener(&self) -> TcpListener {
        self.tcp_listener
    }

    /// The factory of per-connection services.
    pub closed spec fn service_factory(&self) -> M {
        self.make_service
    }

    /// The value of `TCP_NODELAY` to set on every accepted connection, or
    /// `None` to leave the operating system's default.
    pub closed spec fn nodelay_setting(&self) -> Option<bool> {
        self.tcp_nodelay
    }

    /// This server with `TCP_NODELAY` set to `nodelay`.
    pub closed spec fn with_nodelay(self, nodelay: bool) -> Self {
        Serve { tcp_nodelay: Some(nodelay), ..self }
    }

    /// This server with graceful shutdown on `signal`.
    pub closed spec fn with_shutdown_signal<F>(self, signal: F) -> WithGracefulShutdown<M, S, F> {
        WithGracefulShutdown {
            tcp_listener: self.tcp_listener,
            make_service: self.make_service,
            signal,
            tcp_nodelay: self.tcp_nodelay,
            _marker: PhantomData,
        }
    }
}

/// Prepares a server that accepts connections from `tcp_listener` and serves
/// each with a service from `make_service`, over HTTP/1 or HTTP/2; no
/// option is set yet.
pub fn serve<M, S>(tcp_listener: TcpListener, make_service: M) -> (res: Serve<M, S>)
    ensures
        res.listener() == tcp_listener,
        res.service_factory() == make_service,
        res.nodelay_setting() == None::<bool>,
{
    Serve { tcp_listener, make_service, tcp_nodelay: None, _marker: PhantomData }
}

impl<M, S> Serve<M, S> {
    /// Prepares the server to shut down gracefully once `signal` completes:
    /// the listener, the service factory and the options are kept.
    pub fn with_graceful_shutdown<F>(self, signal: F) -> (res: WithGracefulShutdown<M, S, F>)
        where F: Future<Output = ()> + Send + 'static,
        ensures
            res == self.with_shutdown_signal(signal),
            res.listener() == self.listener(),
            res.service_factory() == self.service_factory(),
            res.shutdown_signal() == signal,
            res.nodelay_setting() == self.nodelay_setting(),
    {
        WithGracefulShutdown {
            tcp_listener: self.tcp_listener,
            make_service: self.make_service,
            signal,
            tcp_nodelay: self.tcp_nodelay,
            _marker: PhantomData,
        }
    }

    /// Sets the value of `TCP_NODELAY` on every accepted connection; the
    /// rest is kept.
    pub fn tcp_nodelay(self, nodelay: bool) -> (res: Self)
        ensures
            res == self.with_nodelay(nodelay),
            res.listener() == self.listener(),
            res.service_factory() == self.service_factory(),
            res.nodelay_setting() == Some(nodelay),
    {
        Serve { tcp_nodelay: Some(nodelay), ..self }
    }

    /// The socket that the server accepts connections from.
    pub fn tcp_listener(&self) -> (res: &TcpListener)
        ensures
            *res == self.listener(),
    {
        &self.tcp_listener
    }

    /// The factory of per-connection services.
    pub fn make_service(&self) -> (res: &M)
        ensures
            *res == self.service_factory(),
    {
        &self.make_service
    }

    /// The value of `TCP_NODELAY` set on every accepted connection, if any.
    pub fn nodelay(&self) -> (res: Option<bool>)
        ensures
            res == self.nodelay_setting(),
    {
        self.tcp_nodelay
    }

    /// Takes the server apart into its listener, its service factory and its
    /// `TCP_NODELAY` setting, so that it can be run.
    pub fn into_parts(self) -> (res: (TcpListener, M, Option<bool>))
        ensures
            res.0 == self.listener(),
            res.1 == self.service_factory(),
            res.2 == self.nodelay_setting(),
    {
        (self.tcp_listener, self.make_service, self.tcp_nodelay)
    }
}

/// A server that shuts down gracefully once `signal` completes: it stops
/// accepting connections, asks each open connection to finish, and waits for
/// all of them to close.
pub struct WithGracefulShutdown<M, S, F> {
    tcp_listener: TcpListener,
    make_service: M,
    signal: F,
    tcp_nodelay: Option<bool>,
    _marker: PhantomData<S>,
}

impl<M, S, F> WithGracefulShutdown<M, S, F> {
    /// The socket that the server accepts connections from.
    pub closed spec fn listener(&self) -> TcpListener {
        self.tcp_listener
    }

    /// The factory of per-connection services.
    pub closed spec fn service_factory(&self) -> M {
        self.make_service
    }

    /// The future whose completion starts the shutdown.
    pub closed spec fn shutdown_signal(&self) -> F {
        self.signal
    }

    /// The value of `TCP_NODELAY` to set on every accepted connection, or
    /// `None` to leave the operating system's default.
    pub closed spec fn nodelay_setting(&self) -> Option<bool> {
        self.tcp_nodelay
    }

    /// This server with `TCP_NODELAY` set to `nodelay`.
    pub closed spec fn with_nodelay(self, nodelay: bool) -> Self {
        WithGracefulShutdown { tcp_nodelay: Some(nodelay), ..self }
    }

    /// Sets the value of `TCP_NODELAY` on every accepted connection; the
    /// rest is kept.
    pub fn tcp_nodelay(self, nodelay: bool) -> (res: Self)
        ensures
            res == self.with_nodelay(nodelay),
            res.listener() == self.listener(),
            res.service_factory() == self.service_factory(),
            res.shutdown_signal() == self.shutdown_signal(),
            res.nodelay_setting() == Some(nodelay),
    {
        WithGracefulShutdown { tcp_nodelay: Some(nodelay), ..self }
    }

    /// The socket that the server accepts connections from.
    pub fn tcp_listener(&self) -> (res: &TcpListener)
        ensures
            *res == self.listener(),
    {
        &self.tcp_listener
    }

    /// The factory of per-connection services.
    pub fn make_service(&self) -> (res: &M)
        ensures
            *res == self.service_factory(),
    {
        &self.make_service
    }

    /// The value of `TCP_NODELAY` set on every accepted connection, if any.
    pub fn nodelay(&self) -> (res: Option<bool>)
        ensures
            res == self.nodelay_setting(),
    {
        self.tcp_nodelay
    }

    /// The future whose completion starts the shutdown.
    pub fn signal(&self) -> (res: &F)
        ensures
            *res == self.shutdown_signal(),
    {
        &self.signal
    }

    /// Takes the server apart into its listener, its service factory, its
    /// shutdown signal and its `TCP_NODELAY` setting, so that it can be run.
    pub fn into_parts(self) -> (res: (TcpListener, M, F, Option<bool>))
        ensures
            res.0 == self.listener(),
            res.1 == self.service_factory(),
            res.2 == self.shutdown_signal(),
            res.3 == self.nodelay_setting(),
    {
        (self.tcp_listener, self.make_service, self.signal, self.tcp_nodelay)
    }
}

/// Setting `TCP_NODELAY` twice keeps the second value only.
pub proof fn law_tcp_nodelay_last_wins<M, S>(s: Serve<M, S>, first: bool, second: bool)
    ensures
        s.with_nodelay(first).with_nodelay(second) == s.with_nodelay(second),
{
}

/// Setting `TCP_NODELAY` twice on a gracefully stopping server keeps the
/// second value only.
pub proof fn law_graceful_tcp_nodelay_last_wins<M, S, F>(
    s: WithGracefulShutdown<M, S, F>,
    first: bool,
    second: bool,
)
    ensures
        s.with_nodelay(first).with_nodelay(second) == s.with_nodelay(second),
{
}

/// `TCP_NODELAY` may be set before or after graceful shutdown is enabled:
/// both orders give the same server.
pub proof fn law_tcp_nodelay_commutes_with_graceful_shutdown<M, S, F>(
    s: Serve<M, S>,
    nodelay: bool,
    signal: F,
)
    ensures
        s.with_nodelay(nodelay).with_shutdown_signal(signal)
            == s.with_shutdown_signal(signal).with_nodelay(nodelay),
{
}

} // verus!
