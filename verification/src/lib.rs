//! Core logic of a live-reloading static file server.
//!
//! The crate covers the coordination subsystem of such a server: the
//! startup policy that acquires a listening port (with bounded fallback
//! to neighbouring ports), the debouncing of raw filesystem events into
//! single reload signals, the fan-out of those signals to an arbitrary
//! set of connected clients, and the per-connection relay that turns a
//! received signal into a reload notification.
//!
//! Plumbing that Verus cannot look at — the async runtime, sockets, the
//! filesystem — lives outside this crate and drives these types with
//! plain values (ports, milliseconds, event kinds, receive outcomes).

pub mod bind;

pub mod config;

pub mod debounce;

pub mod fanout;

pub mod channel;
