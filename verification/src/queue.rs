//! What the parts of the relay tell its main loop.

use vstd::prelude::*;

verus! {

/// A message to the main loop.
///
/// `C` is the way in which the client that asked for a connection is answered, `A` the way in
/// which a client's reader is told to go on, and `S` a client that has been accepted.
#[derive(Debug)]
pub enum Queue<C, A, S> {
    /// A client asks for a connection to an IPv4 address and a port.
    CreateTCPConnection(C, [u8; 4], u16),
    /// The client of a connection has been accepted.
    LinkSocket(usize, S),
    /// A client sent octets for its connection.
    ReceiveFromProxyClient(usize, Vec<u8>, A),
    /// A client is gone.
    DisconnectFromProxyClient(usize),
    /// A packet came out of the tunnel.
    ReceiveFromBoringTun(),
    /// The stack is due to be polled, if this round is still going on.
    ForcePoll(u64),
}

} // verus!
