//! Core of a transparent forwarding relay.
//!
//! The relay accepts inbound connections on a plaintext port and a
//! TLS-terminating port; for each accepted connection it dials one fixed
//! upstream address and copies bytes in both directions until either side
//! closes. This crate holds the verified core: the per-direction copy state
//! machine with its byte accounting, the per-connection and accept-loop
//! decision logic, validation of the server's TLS identity, and the
//! combinators that join the outcomes of concurrent parts. The surrounding
//! process (sockets, the TLS library, the async runtime) drives these state
//! machines by reporting each I/O outcome as an event and performing the
//! action each step returns.

pub mod accept;
pub mod conn;
pub mod copier;
pub mod lanes;
pub mod tls;
