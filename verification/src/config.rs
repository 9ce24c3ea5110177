//! The server's configuration: an immutable triple fixed at startup.
//!
//! Host, port and served root are set exactly once, before the watcher and
//! the server tasks start, and only read afterwards. When startup falls back
//! to another port, the effective port is fixed — by replacing the
//! configuration — before either task sees it, so no task ever observes a
//! change.

use vstd::prelude::*;

verus! {

/// What the whole process serves: a host address, a port, and the root
/// directory whose files are served and watched. The fields are never
/// mutated; a port fallback builds a new value via
/// [`ServeConfig::with_effective_port`] before any task starts.
pub struct ServeConfig {
    /// The network address to bind, e.g. `127.0.0.1`.
    pub host: String,
    /// The TCP port to serve on.
    pub port: u16,
    /// The directory served and watched, as given by the caller.
    pub root: String,
}

impl ServeConfig {
    /// The configuration exactly as requested by the caller.
    pub fn new(host: String, port: u16, root: String) -> (c: ServeConfig)
        ensures
            c.host@ == host@,
            c.port == port,
            c.root@ == root@,
    {
        ServeConfig { host, port, root }
    }

    /// The same configuration with the port the startup sequencer actually
    /// bound; host and root are kept as they were.
    pub fn with_effective_port(self, port: u16) -> (c: ServeConfig)
        ensures
            c.host@ == self.host@,
            c.port == port,
            c.root@ == self.root@,
    {
        ServeConfig { port, ..self }
    }
}

} // verus!
