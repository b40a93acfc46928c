//! Decision logic of an HTTP server's accept loop: the builder that
//! configures a server, the policy applied to failed `accept` calls, and the
//! state machines that drive a server and each of its connections through a
//! graceful shutdown.
pub mod accept;
pub mod builder;
pub mod connection;
pub mod server;
