//! A readiness bridge between a non-blocking, descriptor-based message
//! transport and a cooperative, poll-driven scheduler.
//!
//! The crate holds the decisions of the bridge and performs no I/O itself.
//! A driver owns the transport handle and the reactor registrations. It asks
//! the [`Socket`] what to do next, performs that one operation, and hands the
//! outcome back. Every transition is a total function of the socket's state
//! and of the outcome it is given, and is verified against a mathematical
//! model of the socket.
//!
//! * [`evented`] tracks, per direction, whether the reactor has to be
//!   consulted again before the transport may be tried.
//! * [`socket`] composes one or two trackers with the one-shot endpoint
//!   lifecycle and yields message-oriented stream and sink results.
//! * [`model`] is the socket as the contracts see it, and [`laws`] is what
//!   holds of every socket.
//! * [`error`] names what the transport reports and what the adapter itself
//!   rejects.

pub mod error;
pub mod evented;
pub mod laws;
pub mod model;
pub mod socket;

pub use socket::Socket;
