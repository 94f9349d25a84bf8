//! The diagnostic plain-TCP echo backend, outside the relay core: it reads
//! chunks from one socket and writes each chunk back unchanged until the
//! peer closes.

use vstd::prelude::*;

verus! {

/// What the echo loop must do with one read outcome.
#[derive(Debug)]
pub enum EchoAction {
    /// Write these bytes back to the same socket.
    Reply(Vec<u8>),
    /// A zero-length read: the peer is done; shut the socket down.
    Finish,
}

/// One step of the echo backend: a non-empty chunk is echoed back
/// byte-identical; a zero-length read finishes the socket.
pub fn echo_step(buf: Vec<u8>) -> (a: EchoAction)
    ensures
        buf@.len() == 0 ==> a is Finish,
        buf@.len() > 0 ==> (a matches EchoAction::Reply(r) && r@ == buf@),
{
    if buf.len() == 0 {
        EchoAction::Finish
    } else {
        EchoAction::Reply(buf)
    }
}

} // verus!
