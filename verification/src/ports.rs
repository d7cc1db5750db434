//! The local ports that connections into the tunnel are made from.

use rand::seq::SliceRandom;
use std::collections::VecDeque;
use vstd::prelude::*;

verus! {

/// The lowest local port that is handed out.
pub const FIRST_PORT: u16 = 49152;

/// The end of the local ports that are handed out; this port is not one of them.
pub const PORT_END: u16 = 65535;

/// Whether `port` is one of the local ports that are handed out.
pub open spec fn is_local_port(port: u16) -> bool {
    FIRST_PORT <= port < PORT_END
}

/// Whether `ports` holds every local port once and nothing else.
pub open spec fn is_full_order(ports: Seq<u16>) -> bool {
    &&& ports.no_duplicates()
    &&& forall|p: u16| #[trigger] ports.contains(p) <==> is_local_port(p)
}

/// `rand::seq::SliceRandom::shuffle`, with the generator of `rand::thread_rng`: reorders the
/// elements. In which order they end up is left to chance.
#[verifier::external_body]
fn shuffle(ports: &mut Vec<u16>)
    ensures
        final(ports)@.to_multiset() == old(ports)@.to_multiset(),
{
    ports.shuffle(&mut rand::thread_rng())
}

/// The local ports that no connection uses, in the order in which they will be handed out.
pub struct PortPool {
    free: VecDeque<u16>,
}

impl View for PortPool {
    type V = Seq<u16>;

    closed spec fn view(&self) -> Seq<u16> {
        self.free@
    }
}

/// Every local port once, in ascending order.
fn ascending_ports() -> (r: Vec<u16>)
    ensures
        is_full_order(r@),
{
    let mut ports: Vec<u16> = Vec::new();
    let mut port: u16 = FIRST_PORT;
    while port < PORT_END
        invariant
            FIRST_PORT <= port <= PORT_END,
            ports@.len() == port - FIRST_PORT,
            forall|i: int| 0 <= i < ports@.len() ==> #[trigger] ports@[i] == FIRST_PORT + i,
        decreases PORT_END - port,
    {
        ports.push(port);
        port = port + 1;
    }
    assert forall|p: u16| is_local_port(p) implies #[trigger] ports@.contains(p) by {
        assert(ports@[p - FIRST_PORT] == p);
    }
    ports
}

/// Reordering keeps what a full order of the local ports is.
proof fn lemma_reordered_is_full(before: Seq<u16>, after: Seq<u16>)
    requires
        is_full_order(before),
        after.to_multiset() == before.to_multiset(),
    ensures
        is_full_order(after),
{
    broadcast use vstd::seq_lib::group_to_multiset_ensures;

    before.lemma_multiset_has_no_duplicates();
    assert forall|p: u16| #[trigger] after.contains(p) <==> is_local_port(p) by {
        assert(after.contains(p) <==> after.to_multiset().count(p) > 0);
        assert(before.contains(p) <==> before.to_multiset().count(p) > 0);
    }
    after.lemma_multiset_has_no_duplicates_conv();
}

impl PortPool {
    /// A pool of all local ports, in an order that is left to chance.
    pub fn new() -> (r: PortPool)
        ensures
            is_full_order(r@),
    {
        let mut ports = ascending_ports();
        let ghost ordered = ports@;
        shuffle(&mut ports);
        proof {
            lemma_reordered_is_full(ordered, ports@);
        }
        PortPool::from_order(ports)
    }

    /// A pool that hands out `ports`, the first of them first.
    pub fn from_order(ports: Vec<u16>) -> (r: PortPool)
        ensures
            r@ == ports@,
    {
        let mut free: VecDeque<u16> = VecDeque::new();
        let mut i: usize = 0;
        while i < ports.len()
            invariant
                i <= ports@.len(),
                free@ == ports@.take(i as int),
            decreases ports.len() - i,
        {
            free.push_back(ports[i]);
            assert(ports@.take(i + 1) == ports@.take(i as int).push(ports@[i as int]));
            i = i + 1;
        }
        assert(ports@.take(ports@.len() as int) == ports@);
        PortPool { free }
    }

    /// Whether no port is left.
    pub fn is_empty(&self) -> (r: bool)
        ensures
            r == (self@.len() == 0),
    {
        self.free.len() == 0
    }

    /// The port that will be handed out next.
    pub fn next(&self) -> (r: Option<u16>)
        ensures
            r == (if self@.len() == 0 {
                None
            } else {
                Some(self@[0])
            }),
    {
        if self.free.len() == 0 {
            None
        } else {
            Some(self.free[0])
        }
    }

    /// Hands out the port at the front.
    pub fn take(&mut self) -> (r: Option<u16>)
        ensures
            old(self)@.len() == 0 ==> r is None && final(self)@ == old(self)@,
            old(self)@.len() > 0 ==> r == Some(old(self)@[0]) && final(self)@ == old(self)@.skip(1),
    {
        self.free.pop_front()
    }

    /// Takes `port` back, behind the ports that are free already.
    pub fn give_back(&mut self, port: u16)
        ensures
            final(self)@ == old(self)@.push(port),
    {
        self.free.push_back(port);
    }
}

} // verus!
