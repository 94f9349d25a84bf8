//! The listener-loop policy shared by both modes: Forwarder mode accepts
//! TCP connections and opens one overlay stream per accepted connection;
//! Server mode accepts overlay streams and opens one TCP connection to the
//! local backend per accepted stream. In both, a failure on behalf of one
//! accepted stream never stops the loop.

use vstd::prelude::*;

verus! {

/// What to do with one accepted stream once the matching outbound connect
/// attempt has resolved.
#[derive(Clone, Copy, Debug, PartialEq, Eq, Structural)]
pub enum ForwardDecision {
    /// The outbound stream exists: pair the two streams and start a relay.
    StartRelay,
    /// The connect attempt failed: close the accepted stream and keep
    /// accepting. The attempt is not retried.
    DropStream,
}

/// The state of one accept loop: whether it is still accepting, and counts
/// of the relays it started, the accepted streams it dropped, and the
/// accept attempts that failed.
pub struct ListenerLoop {
    pub running: bool,
    pub relays_started: Ghost<nat>,
    pub streams_dropped: Ghost<nat>,
    pub accept_failures: Ghost<nat>,
}

impl ListenerLoop {
    /// A loop whose listener is bound and accepting.
    pub fn new() -> (l: Self)
        ensures
            l.running,
            l.relays_started@ == 0,
            l.streams_dropped@ == 0,
            l.accept_failures@ == 0,
    {
        ListenerLoop {
            running: true,
            relays_started: Ghost(0),
            streams_dropped: Ghost(0),
            accept_failures: Ghost(0),
        }
    }

    /// Decide the fate of one accepted stream from the outcome of its
    /// outbound connect attempt. A failed connect drops that stream alone:
    /// the loop keeps running either way, so later, unrelated streams are
    /// still accepted and relayed.
    pub fn on_connect_result(&mut self, connected: bool) -> (d: ForwardDecision)
        requires
            old(self).running,
        ensures
            final(self).running,
            connected ==> d == ForwardDecision::StartRelay
                && final(self).relays_started@ == old(self).relays_started@ + 1
                && final(self).streams_dropped@ == old(self).streams_dropped@,
            !connected ==> d == ForwardDecision::DropStream
                && final(self).streams_dropped@ == old(self).streams_dropped@ + 1
                && final(self).relays_started@ == old(self).relays_started@,
            final(self).accept_failures@ == old(self).accept_failures@,
    {
        if connected {
            self.relays_started = Ghost(self.relays_started@ + 1);
            ForwardDecision::StartRelay
        } else {
            self.streams_dropped = Ghost(self.streams_dropped@ + 1);
            ForwardDecision::DropStream
        }
    }

    /// A failed accept of a single inbound stream is recoverable once the
    /// mode is running: the sequence of inbound streams is restartable
    /// across errors, so the loop stays running and accepts again.
    pub fn on_accept_error(&mut self)
        requires
            old(self).running,
        ensures
            final(self).running,
            final(self).relays_started@ == old(self).relays_started@,
            final(self).streams_dropped@ == old(self).streams_dropped@,
            final(self).accept_failures@ == old(self).accept_failures@ + 1,
    {
        self.accept_failures = Ghost(self.accept_failures@ + 1);
    }

    /// Stop accepting: terminating a mode stops its accept loop and lets
    /// in-flight connections drain on their own.
    pub fn stop(&mut self)
        ensures
            !final(self).running,
            final(self).relays_started@ == old(self).relays_started@,
            final(self).streams_dropped@ == old(self).streams_dropped@,
            final(self).accept_failures@ == old(self).accept_failures@,
    {
        self.running = false;
    }
}

} // verus!
