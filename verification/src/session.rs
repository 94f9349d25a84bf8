//! Control-protocol session identity management: a session owns at most one
//! registered persistent destination, and a second registration on the same
//! session must fail deterministically rather than silently replace the
//! first.

use vstd::prelude::*;

use crate::errors::ErrorKind;

verus! {

/// An overlay destination: an opaque address derived from a public key, in
/// its canonical text encoding. Immutable once generated.
#[derive(Clone, Debug)]
pub struct Destination {
    pub text: String,
}

/// A session-management failure.
#[derive(Clone, Copy, Debug, PartialEq, Eq, Structural)]
pub enum SessionError {
    /// A persistent registration already exists (or is underway) on this
    /// session; it is not replaced.
    AlreadyRegistered,
}

impl SessionError {
    /// Where this failure falls in the error taxonomy: a refused
    /// registration is a protocol-level failure.
    pub fn kind(self) -> (k: ErrorKind)
        ensures
            k == ErrorKind::Protocol,
    {
        ErrorKind::Protocol
    }
}

/// The signature-algorithm identifier this system selects when asking the
/// control endpoint for a fresh destination key pair. The identifier is
/// opaque data passed through to the control protocol, not interpreted
/// locally.
pub fn default_signature_algorithm() -> (s: String)
    ensures
        s@ == "EdDSA_SHA512_Ed25519"@,
{
    "EdDSA_SHA512_Ed25519".to_owned()
}

/// Where a session stands with respect to a persistent identity: none yet,
/// one being established with the control endpoint, or one registered.
#[derive(Clone, Debug)]
pub enum SessionPhase {
    Idle,
    Registering,
    Registered(Destination),
}

/// The identity state of one connection to the control-protocol endpoint.
/// Key-pair generation and outbound stream creation are transient calls and
/// need no registration; accepting inbound streams requires one. At most
/// one registration ever exists per session.
pub struct ControlSession {
    pub phase: SessionPhase,
}

impl ControlSession {
    /// A fresh session: connected, but holding no identity.
    pub fn new() -> (s: Self)
        ensures
            s.phase is Idle,
    {
        ControlSession { phase: SessionPhase::Idle }
    }

    /// Claim the session's one registration slot before asking the control
    /// endpoint to bind the persistent destination. On a session that
    /// already holds (or is establishing) a registration this fails
    /// deterministically and changes nothing: the first registration is
    /// never replaced.
    pub fn begin_registration(&mut self) -> (r: Result<(), SessionError>)
        ensures
            old(self).phase is Idle ==> r is Ok && final(self).phase is Registering,
            !(old(self).phase is Idle) ==> r == Err::<(), SessionError>(
                SessionError::AlreadyRegistered,
            ) && *final(self) == *old(self),
    {
        match self.phase {
            SessionPhase::Idle => {
                self.phase = SessionPhase::Registering;
                Ok(())
            },
            _ => Err(SessionError::AlreadyRegistered),
        }
    }

    /// Record the destination the control endpoint bound for the claimed
    /// registration. The same private key always yields the same
    /// destination; the endpoint is the source of truth for reachability.
    pub fn complete_registration(&mut self, dest: Destination)
        requires
            old(self).phase is Registering,
        ensures
            final(self).phase == SessionPhase::Registered(dest),
    {
        self.phase = SessionPhase::Registered(dest);
    }

    /// Give the claimed registration slot back after the control endpoint
    /// refused to bind the destination. The failure itself is fatal to the
    /// owning mode and is reported by the caller, not retried silently.
    pub fn abort_registration(&mut self)
        requires
            old(self).phase is Registering,
        ensures
            final(self).phase is Idle,
    {
        self.phase = SessionPhase::Idle;
    }

    /// Whether inbound overlay streams may be accepted: only a session
    /// holding a registered destination produces them.
    pub fn may_accept(&self) -> (b: bool)
        ensures
            b <==> self.phase is Registered,
    {
        matches!(self.phase, SessionPhase::Registered(_))
    }

    /// The registered destination, if any.
    pub fn destination(&self) -> (d: Option<&Destination>)
        ensures
            match d {
                Some(dest) => self.phase == SessionPhase::Registered(*dest),
                None => !(self.phase is Registered),
            },
    {
        match &self.phase {
            SessionPhase::Registered(dest) => Some(dest),
            _ => None,
        }
    }
}

} // verus!
