//! A bidirectional relay between plain TCP and an anonymity-overlay
//! transport reached through a local session-oriented control protocol.
//!
//! The library holds the verified core: the configuration record, the
//! control-protocol session registration state, the per-connection duplex
//! relay state machine, the listener-loop policy, and the error taxonomy
//! with its propagation policy. The surrounding process (socket and
//! control-protocol I/O, argument handling) drives these state machines
//! and performs the reads and writes they decide on.

pub mod config;
pub mod echo;
pub mod errors;
pub mod listener;
pub mod relay;
pub mod server;
pub mod session;
