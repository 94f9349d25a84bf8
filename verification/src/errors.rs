//! The error taxonomy and its propagation policy: which failures end the
//! mode (and so the process), and which stay local to one connection.

use vstd::prelude::*;

verus! {

/// Every failure the system distinguishes: an unreadable or malformed
/// configuration; an unreachable control-protocol endpoint or a listener
/// bind failure; a malformed control-protocol exchange (bad key material,
/// refused registration); a read or write failure on an established stream;
/// a control-protocol call that exceeded its deadline.
#[derive(Clone, Copy, Debug, PartialEq, Eq, Structural)]
pub enum ErrorKind {
    Config,
    Connection,
    Protocol,
    Io,
    Timeout,
}

/// When an error arises: while a mode is starting up (binding its listener,
/// reaching the control endpoint, registering its session), or after it is
/// running, on behalf of one connection.
#[derive(Clone, Copy, Debug, PartialEq, Eq, Structural)]
pub enum Phase {
    Startup,
    PerConnection,
}

/// The propagation policy. A configuration error is always fatal.
/// Connection and protocol errors are fatal while the mode is starting up,
/// and local to the affected connection afterwards. Stream I/O failures and
/// per-attempt timeouts never propagate beyond one connection.
pub fn is_fatal(kind: ErrorKind, phase: Phase) -> (r: bool)
    ensures
        r <==> (kind is Config || ((kind is Connection || kind is Protocol)
            && phase is Startup)),
{
    match kind {
        ErrorKind::Config => true,
        ErrorKind::Connection => matches!(phase, Phase::Startup),
        ErrorKind::Protocol => matches!(phase, Phase::Startup),
        ErrorKind::Io => false,
        ErrorKind::Timeout => false,
    }
}

} // verus!
