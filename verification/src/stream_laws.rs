//! What becomes of the octets of a client on their way to the server, and of the server's on
//! their way back.

use crate::hub;
use crate::hub::Fate;
use crate::tcp::TcpModel;
use vstd::prelude::*;

verus! {

/// The octets of a client on their way to its connection.
pub struct Stream {
    /// How often the client may be read from.
    pub permits: nat,
    /// What was read from the client.
    pub read: Seq<u8>,
    /// The messages of the client that are queued, the oldest first.
    pub queued: Seq<Seq<u8>>,
    /// What the connection has taken.
    pub taken: Seq<u8>,
    /// Whether octets were lost, since the connection takes none any more.
    pub lost: bool,
}

/// Something that happens to the octets of a client.
pub enum Move {
    /// The client is read from, with a permit, and what it sent is queued.
    Read(Seq<u8>),
    /// The client's oldest message is worked off, for a socket that holds this.
    Forward(TcpModel),
}

/// A client that was read from not even once, and may be.
pub open spec fn fresh() -> Stream {
    Stream {
        permits: 1,
        read: Seq::empty(),
        queued: Seq::empty(),
        taken: Seq::empty(),
        lost: false,
    }
}

impl Stream {
    /// Whether `next` can happen.
    pub open spec fn admits(self, next: Move) -> bool {
        match next {
            Move::Read(_) => self.permits > 0,
            Move::Forward(_) => self.queued.len() > 0,
        }
    }

    /// The octets once `next` has happened.
    pub open spec fn after(self, next: Move) -> Stream {
        match next {
            Move::Read(data) => Stream {
                permits: (self.permits - 1) as nat,
                read: self.read + data,
                queued: self.queued.push(data),
                ..self
            },
            Move::Forward(sock) => {
                let data = self.queued[0];
                let others = self.queued.skip(1);
                let taken = self.taken + hub::taken(sock, data);
                match hub::fate(sock, data) {
                    Fate::Sent => Stream { permits: self.permits + 1, queued: others, taken, ..self },
                    Fate::Left(rest) => Stream { queued: others.push(rest), taken, ..self },
                    Fate::Lost => Stream { queued: others, taken, lost: true, ..self },
                }
            },
        }
    }

    /// The octets once all of `moves` have happened.
    pub open spec fn after_all(self, moves: Seq<Move>) -> Stream
        decreases moves.len(),
    {
        if moves.len() == 0 {
            self
        } else {
            self.after_all(moves.drop_last()).after(moves.last())
        }
    }

    /// Whether all of `moves` can happen, one after the other.
    pub open spec fn admits_all(self, moves: Seq<Move>) -> bool
        decreases moves.len(),
    {
        moves.len() == 0 || (self.admits_all(moves.drop_last()) && self.after_all(
            moves.drop_last(),
        ).admits(moves.last()))
    }

    /// The octets that are queued.
    pub open spec fn pending(self) -> Seq<u8> {
        if self.queued.len() == 0 {
            Seq::empty()
        } else {
            self.queued[0]
        }
    }
}

/// Whatever happens, the connection takes the octets of its client in the order in which they were
/// sent, and none twice; until octets are lost, what it has not taken is queued, in at most one
/// message, and the client is read from only when there is none.
pub proof fn law_octets_keep_their_order(moves: Seq<Move>)
    requires
        fresh().admits_all(moves),
    ensures
        ({
            let stream = fresh().after_all(moves);
            &&& stream.taken.is_prefix_of(stream.read)
            &&& !stream.lost ==> stream.read == stream.taken + stream.pending()
            &&& !stream.lost ==> stream.permits + stream.queued.len() == 1
            &&& stream.lost ==> stream.permits + stream.queued.len() == 0
        }),
    decreases moves.len(),
{
    if moves.len() > 0 {
        law_octets_keep_their_order(moves.drop_last());
        let before = fresh().after_all(moves.drop_last());
        match moves.last() {
            Move::Read(data) => {
                assert(before.pending().len() == 0);
                assert(before.read == before.taken);
            },
            Move::Forward(sock) => {
                let data = before.queued[0];
                assert(before.read == before.taken + data);
                match hub::fate(sock, data) {
                    Fate::Sent => {
                        assert(hub::taken(sock, data) == data);
                    },
                    Fate::Left(rest) => {
                        assert(hub::taken(sock, data) + rest == data);
                        assert(before.taken + hub::taken(sock, data) + rest == before.read);
                    },
                    Fate::Lost => {},
                }
            },
        }
    }
}

/// The octets of a server on their way to the client.
pub struct Backlog {
    /// What arrived from the server.
    pub arrived: Seq<u8>,
    /// What the socket holds.
    pub sock: TcpModel,
    /// What the client has taken.
    pub taken: Seq<u8>,
}

impl Backlog {
    /// Whether this becomes `after` when the octets `data` arrive.
    pub open spec fn arrives(self, data: Seq<u8>, after: Backlog) -> bool {
        &&& after.arrived == self.arrived + data
        &&& after.sock.incoming == self.sock.incoming + data
        &&& after.taken == self.taken
    }

    /// Whether this becomes `after` when the client takes `n` octets.
    pub open spec fn takes(self, n: nat, after: Backlog) -> bool {
        &&& n <= self.sock.incoming.len()
        &&& after.arrived == self.arrived
        &&& self.sock.taking(n as int, after.sock)
        &&& after.taken == self.taken + self.sock.incoming.take(n as int)
    }

    /// Whether this becomes `after` in one step.
    pub open spec fn becomes(self, after: Backlog) -> bool {
        ||| exists|data: Seq<u8>| self.arrives(data, after)
        ||| exists|n: nat| self.takes(n, after)
    }
}

/// Whether the octets of a server go through `states`, one after the other, from none at all.
pub open spec fn passes(states: Seq<Backlog>) -> bool {
    &&& states.len() > 0
    &&& states[0].arrived.len() == 0
    &&& states[0].sock.incoming.len() == 0
    &&& states[0].taken.len() == 0
    &&& forall|i: int| 0 < i < states.len() ==> states[i - 1].becomes(#[trigger] states[i])
}

/// Whatever happens, the client takes the octets of the server in the order in which they arrived,
/// and none twice; what it has not taken is still held.
pub proof fn law_server_octets_keep_their_order(states: Seq<Backlog>, i: int)
    requires
        passes(states),
        0 <= i < states.len(),
    ensures
        states[i].arrived == states[i].taken + states[i].sock.incoming,
    decreases i,
{
    if i > 0 {
        law_server_octets_keep_their_order(states, i - 1);
        let before = states[i - 1];
        let after = states[i];
        assert(before.becomes(after));
        if exists|n: nat| before.takes(n, after) {
            let n = choose|n: nat| before.takes(n, after);
            let held = before.sock.incoming;
            assert(held.take(n as int) + held.skip(n as int) == held);
        }
    }
}

} // verus!
