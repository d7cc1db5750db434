//! How a datagram gets into the TCP stack.

use crate::tunnel::OVERHEAD;
use crate::tunnel::TunnelOutcome;
use std::collections::VecDeque;
use vstd::prelude::*;

verus! {

/// A packet for the stack.
pub struct RxToken {
    pub buffer: Vec<u8>,
}

/// A datagram that is being worked off.
pub struct Burst {
    datagram: Vec<u8>,
    room: usize,
}

/// What there is to do after a step of working off a datagram.
#[derive(Debug)]
pub enum RecvAction {
    /// Send a datagram to the peer, and go on.
    Send(Vec<u8>),
    /// Tell the main loop that there is a packet for the stack, and go on.
    Notify,
    /// Go on, after telling what the tunnel asked for.
    Report(TunnelOutcome),
    /// Stop: the datagram has been worked off.
    Finish,
    /// Stop, after telling why the tunnel failed.
    Fail(String),
}

impl Burst {
    /// No more is pending than the datagram held.
    #[verifier::type_invariant]
    spec fn holds(self) -> bool {
        self.datagram@.len() <= self.room
    }

    /// What of the datagram is still to be handed to the tunnel.
    pub closed spec fn pending(self) -> Seq<u8> {
        self.datagram@
    }

    /// How long the datagram was.
    pub closed spec fn room(self) -> nat {
        self.room as nat
    }

    /// Starts to work off a datagram.
    pub fn new(datagram: Vec<u8>) -> (r: Burst)
        ensures
            r.pending() == datagram@,
            r.room() == datagram@.len(),
    {
        let room: usize = datagram.len();
        Burst { datagram, room }
    }

    /// What is to be handed to the tunnel next.
    pub(crate) fn next_datagram(&self) -> (r: &[u8])
        ensures
            r@ == self.pending(),
    {
        self.datagram.as_slice()
    }

    /// How long the buffer has to be for what comes out of the tunnel, and for a packet of
    /// `longest` octets that goes into it.
    pub(crate) fn buffer_len(&self, longest: usize) -> (r: usize)
        requires
            longest + OVERHEAD <= usize::MAX,
        ensures
            r == room_for(*self, longest as nat),
            r >= self.pending().len(),
            r >= longest + OVERHEAD,
    {
        proof {
            use_type_invariant(self);
        }
        if longest + OVERHEAD < self.room {
            self.room
        } else {
            longest + OVERHEAD
        }
    }
}

/// How long the buffer is for what comes out of the tunnel, and for a packet of `longest` octets
/// that goes into it.
pub open spec fn room_for(burst: Burst, longest: nat) -> nat {
    if longest + OVERHEAD < burst.room() {
        burst.room()
    } else {
        longest + OVERHEAD as nat
    }
}

/// What is done with what the tunnel asks for when a datagram is worked off.
pub open spec fn recv_action(outcome: TunnelOutcome) -> RecvAction {
    match outcome {
        TunnelOutcome::WriteToNetwork(data) => RecvAction::Send(data),
        TunnelOutcome::WriteToTunnelV4(_) => RecvAction::Notify,
        TunnelOutcome::WriteToTunnelV6(_) => RecvAction::Report(outcome),
        TunnelOutcome::Done | TunnelOutcome::InvalidCounter => RecvAction::Finish,
        TunnelOutcome::Failed(error) => RecvAction::Fail(error),
    }
}

/// What of a datagram is still to be handed to the tunnel: nothing, once the tunnel has had
/// something to send; before that, all of it.
pub open spec fn still_pending(outcome: TunnelOutcome, pending: Seq<u8>) -> Seq<u8> {
    if outcome is WriteToNetwork {
        Seq::empty()
    } else {
        pending
    }
}

/// The packet for the stack, where one came out of the tunnel.
pub open spec fn delivered(outcome: TunnelOutcome, inbound: Seq<Seq<u8>>) -> Seq<Seq<u8>> {
    match outcome {
        TunnelOutcome::WriteToTunnelV4(packet) => inbound.push(packet@),
        _ => inbound,
    }
}

/// The octets of each of `packets`.
pub open spec fn octets(packets: Seq<Vec<u8>>) -> Seq<Seq<u8>> {
    packets.map_values(|packet: Vec<u8>| packet@)
}

/// What to do with what the tunnel asks for when a datagram is worked off. A packet for the
/// stack goes behind those that are there.
pub fn recv_decision(
    outcome: TunnelOutcome,
    burst: &mut Burst,
    inbound: &mut VecDeque<Vec<u8>>,
) -> (r: RecvAction)
    ensures
        r == recv_action(outcome),
        final(burst).pending() == still_pending(outcome, old(burst).pending()),
        final(burst).room() == old(burst).room(),
        octets(final(inbound)@) == delivered(outcome, octets(old(inbound)@)),
{
    match outcome {
        TunnelOutcome::WriteToNetwork(data) => {
            burst.datagram = Vec::new();
            RecvAction::Send(data)
        },
        TunnelOutcome::WriteToTunnelV4(packet) => {
            inbound.push_back(packet);
            RecvAction::Notify
        },
        TunnelOutcome::Done => RecvAction::Finish,
        TunnelOutcome::InvalidCounter => RecvAction::Finish,
        TunnelOutcome::Failed(error) => RecvAction::Fail(error),
        outcome => RecvAction::Report(outcome),
    }
}

} // verus!
