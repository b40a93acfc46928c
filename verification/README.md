# http_serve

The decision logic of an HTTP server built on axum and tokio, verified with
Verus.

- `src/accept.rs`: the kinds of I/O error, which of them are connection
  errors, and how the accept loop goes on after a failed `accept`.
- `src/builder.rs`: `serve`, `Serve` and `WithGracefulShutdown`, the options
  of a server (its listener, its service factory, `TCP_NODELAY`, the shutdown
  signal) and the laws that relate the builder methods.
- `src/server.rs`: the life cycle of a server with graceful shutdown, as a
  state machine from event to action, with the laws of its runs: nothing is
  served after the signal, every connection gets the configured
  `TCP_NODELAY`, and the server finishes exactly once, when the signal has
  arrived and every served connection has closed.
- `src/connection.rs`: the life cycle of one connection during a graceful
  shutdown, with its laws.
- `app/lib.rs`: the async runtime around the library: accepting, spawning
  connection tasks, awaiting the signal, and the axum service impls.
