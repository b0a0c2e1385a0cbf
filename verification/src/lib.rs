//! A minimal HTTP server stub, verified.
//!
//! The server binds a fixed loopback address, announces itself once, and
//! answers every request from a single immutable route table: a GET of the
//! root path returns a fixed string, everything else falls through to the
//! framework defaults (404 for an unknown path, 405 for a known path with
//! the wrong method). This crate holds the decision logic — route dispatch
//! and the reaction to the bind outcome — with contracts that pin the exact
//! status and body of every response; the socket work around it is plain
//! wiring kept outside the library.

pub mod routing;
pub mod server;
