//! Server mode: the owner of a loaded configuration that registers one
//! persistent overlay destination and relays each inbound overlay stream to
//! the configured local TCP backend.

use vstd::prelude::*;

use crate::config::Configuration;

verus! {

/// The Server mode instance. Its accept loop, session registration, and
/// per-connection relays are driven by the surrounding process through
/// [`crate::session::ControlSession`], [`crate::listener::ListenerLoop`]
/// and [`crate::relay::Connection`].
pub struct Server {
    pub cfg: Configuration,
}

impl Server {
    /// A server owning the given configuration, unchanged.
    pub fn new(cfg: Configuration) -> (s: Self)
        ensures
            s.cfg == cfg,
    {
        Server { cfg }
    }
}

} // verus!
