//! The main loop of the relay: what each message and each turn of the TCP stack leads to.
//!
//! The loop runs in rounds. A round works off queued messages until it is time to poll the
//! stack, polls it, looks after every connection if something may have changed, and settles
//! how long the next round may wait for a message.

use crate::ports;
use crate::ports::PortPool;
use crate::queue::Queue;
use crate::socks::OpenSocketResponse;
use crate::tcp;
use crate::tcp::StackError;
use crate::tcp::TcpState;
use smoltcp::iface::Context;
use smoltcp::socket::TcpSocket;
use std::collections::HashMap;
use std::collections::HashSet;
use vstd::prelude::*;

verus! {

broadcast use vstd::std_specs::hash::group_hash_axioms;

/// How many octets each of the two buffers of a connection holds.
pub const BUFFER_LEN: usize = 16384;

/// How many microseconds a second has.
pub const MICROS_PER_SECOND: i64 = 1_000_000;

/// The state of the main loop.
pub struct HubView {
    /// The number of the round.
    pub cnt: u64,
    /// Whether a message that ends the round has been queued in it.
    pub have_force_poll: bool,
    /// Whether the stack is to be asked for its next deadline at the end of the round.
    pub check_poll_at: bool,
    /// Until when, in microseconds, the loop may wait for a message.
    pub should_block: Option<i64>,
    /// The connections whose client has not been told that they are up.
    pub not_connected: Set<usize>,
    /// The connections whose client takes nothing any more.
    pub client_disconnected: Set<usize>,
    /// The connections, each with its local port.
    pub ports: Map<usize, u16>,
    /// The local ports that no connection uses, in the order in which they are handed out.
    pub free: Seq<u16>,
}

impl HubView {
    /// Every local port is either free or used by one connection, and no client has failed but
    /// those of connections.
    pub open spec fn wf(self) -> bool {
        &&& self.free.no_duplicates()
        &&& forall|p: u16| #[trigger] self.free.contains(p) ==> ports::is_local_port(p)
        &&& forall|h: usize| #[trigger]
            self.ports.contains_key(h) ==> ports::is_local_port(self.ports[h]) && !self.free.contains(
                self.ports[h],
            )
        &&& forall|g: usize, h: usize|
            #![trigger self.ports[g], self.ports[h]]
            self.ports.contains_key(g) && self.ports.contains_key(h) && g != h ==> self.ports[g]
                != self.ports[h]
        &&& forall|p: u16| #[trigger] ports::is_local_port(p) ==> self.free.contains(p) || self.uses(p)
        &&& self.ports.dom().finite()
        &&& forall|h: usize| #[trigger]
            self.client_disconnected.contains(h) ==> self.ports.contains_key(h)
    }

    /// Whether a connection uses the local port `p`.
    pub open spec fn uses(self, p: u16) -> bool {
        exists|h: usize| #[trigger] self.ports.contains_key(h) && self.ports[h] == p
    }

    /// The round whose end is to be queued: none, where that was done before.
    pub open spec fn poll_request(self) -> Option<u64> {
        if self.have_force_poll {
            None
        } else {
            Some(self.cnt)
        }
    }

    /// The state at the start of the next round.
    pub open spec fn next_round(self) -> HubView {
        HubView { cnt: (self.cnt + 1) as u64, have_force_poll: false, ..self }
    }

    /// The state once the end of the round has been queued.
    pub open spec fn poll_requested(self) -> HubView {
        HubView { have_force_poll: true, ..self }
    }

    /// The state once the connection `handle`, whose socket holds `sock`, has been looked after.
    pub open spec fn swept(self, handle: usize, sock: tcp::TcpModel) -> HubView {
        if self.plan(handle, sock).announce {
            HubView { not_connected: self.not_connected.remove(handle), ..self }
        } else {
            self
        }
    }

    /// The state once the client of the connection `handle` has failed to take octets.
    pub open spec fn without_client(self, handle: usize) -> HubView {
        HubView { client_disconnected: self.client_disconnected.insert(handle), ..self }
    }

    /// What there is to do for the connection `handle`, whose socket holds `sock`.
    pub open spec fn plan(self, handle: usize, sock: tcp::TcpModel) -> SweepPlan {
        SweepPlan {
            announce: sock.may_recv() && self.not_connected.contains(handle),
            drain: sock.can_recv() && !self.client_disconnected.contains(handle),
            finished: sock.state is Closed,
        }
    }

    /// Until when the next round may wait for a message. A deadline of the stack that falls on
    /// a whole second (the stack writes "now" as the instant zero) is not waited for.
    pub open spec fn next_block(self, next: Option<i64>, now: i64) -> Option<i64> {
        if !self.check_poll_at {
            None
        } else {
            match next {
                Some(t) => if t as int % MICROS_PER_SECOND as int != 0 {
                    Some(t)
                } else {
                    None
                },
                None => Some((now + MICROS_PER_SECOND) as i64),
            }
        }
    }

    /// The state with a connection `handle` added, on the first free port.
    pub open spec fn opened(self, handle: usize) -> HubView {
        HubView {
            ports: self.ports.insert(handle, self.free[0]),
            free: self.free.skip(1),
            not_connected: self.not_connected.insert(handle),
            ..self
        }
    }

    /// The state without the connection `handle`, whose port is the last to be handed out. That
    /// its client has failed is forgotten.
    pub open spec fn released(self, handle: usize) -> HubView {
        HubView {
            ports: self.ports.remove(handle),
            free: self.free.push(self.ports[handle]),
            client_disconnected: self.client_disconnected.remove(handle),
            ..self
        }
    }

    /// The state without the connections `handles`, given up one after the other.
    pub open spec fn released_all(self, handles: Seq<usize>) -> HubView
        decreases handles.len(),
    {
        if handles.len() == 0 {
            self
        } else {
            self.released_all(handles.drop_last()).released(handles.last())
        }
    }
}

/// The main loop's bookkeeping.
pub struct Hub {
    pool: PortPool,
    connection_port_map: HashMap<usize, u16>,
    not_connected_handles: HashSet<usize>,
    client_disconnected_handles: HashSet<usize>,
    cnt: u64,
    have_force_poll: bool,
    check_poll_at: bool,
    should_block: Option<i64>,
}

impl View for Hub {
    type V = HubView;

    closed spec fn view(&self) -> HubView {
        HubView {
            cnt: self.cnt,
            have_force_poll: self.have_force_poll,
            check_poll_at: self.check_poll_at,
            should_block: self.should_block,
            not_connected: self.not_connected_handles@,
            client_disconnected: self.client_disconnected_handles@,
            ports: self.connection_port_map@,
            free: self.pool@,
        }
    }
}

/// How the loop gets its next message.
#[derive(Clone, Copy, Debug, PartialEq, Eq, Structural)]
pub enum Wait {
    /// Only if there is one already.
    Immediate,
    /// Waiting for at most this many microseconds.
    Timeout(u64),
}

/// Whether a round goes on with the next message.
#[derive(Clone, Copy, Debug, PartialEq, Eq, Structural)]
pub enum Flow {
    /// It takes the next message.
    Continue,
    /// It goes on to poll the stack.
    Poll,
}

/// What becomes of octets that a client sent.
#[derive(Debug)]
pub enum Forward<C, A, S> {
    /// All of them are on their way: the client's reader may go on.
    Acknowledge(A),
    /// Some of them are left: `message`, which carries them, goes to the end of the queue,
    /// behind a message that ends the round `poll`, where there is one.
    Requeue { poll: Option<u64>, message: Queue<C, A, S> },
    /// The connection is closed, and they are lost.
    Dropped,
    /// The connection takes nothing in this state, and they are lost.
    CannotSend(TcpState),
}

/// What polling the stack brought.
#[derive(Clone, Copy, Debug, PartialEq, Eq, Structural)]
pub struct PollReport {
    /// Whether the state of a socket may have changed.
    pub readiness_changed: bool,
    /// An error worth telling.
    pub error: Option<StackError>,
}

/// What there is to do for a connection.
#[derive(Clone, Copy, Debug, PartialEq, Eq, Structural)]
pub struct SweepPlan {
    /// The client is to be told that the connection is up, and its reader started.
    pub announce: bool,
    /// Octets that came from the server are to be handed to the client.
    pub drain: bool,
    /// The connection is over.
    pub finished: bool,
}

/// How far apart the two instants are.
pub open spec fn distance(a: i64, b: i64) -> int {
    if a < b {
        b - a
    } else {
        a - b
    }
}

/// Whether `forward` queues `poll` and, behind it, the octets `rest` for the connection
/// `handle`, with the reader `ack` still to be told.
pub open spec fn is_requeue<C, A, S>(
    forward: Forward<C, A, S>,
    poll: Option<u64>,
    handle: usize,
    rest: Seq<u8>,
    ack: A,
) -> bool {
    &&& forward matches Forward::Requeue { poll: p, message }
    &&& p == poll
    &&& message matches Queue::ReceiveFromProxyClient(h, data, a)
    &&& h == handle
    &&& data@ == rest
    &&& a == ack
}

/// What becomes of octets for a socket.
pub enum Fate {
    /// The socket has taken all of them.
    Sent,
    /// These are left, and go to the end of the queue.
    Left(Seq<u8>),
    /// The socket takes none, now or later.
    Lost,
}

/// What becomes of the octets `data` for a socket that holds `sock`.
pub open spec fn fate(sock: tcp::TcpModel, data: Seq<u8>) -> Fate {
    if sock.can_send() {
        if tcp::accepted(sock, data.len()) == data.len() {
            Fate::Sent
        } else {
            Fate::Left(data.skip(tcp::accepted(sock, data.len())))
        }
    } else if sock.may_send() {
        Fate::Left(data)
    } else {
        Fate::Lost
    }
}

/// The octets of `data` that a socket takes that holds `sock`.
pub open spec fn taken(sock: tcp::TcpModel, data: Seq<u8>) -> Seq<u8> {
    if sock.can_send() {
        data.take(tcp::accepted(sock, data.len()))
    } else {
        Seq::empty()
    }
}

/// What is to be told of a poll with this result.
pub open spec fn poll_report(result: Result<bool, smoltcp::Error>) -> PollReport {
    match result {
        Ok(readiness_changed) => PollReport { readiness_changed, error: None },
        Err(e) => PollReport {
            readiness_changed: false,
            error: if tcp::error_kind(e) is Unrecognized {
                None
            } else {
                Some(tcp::error_kind(e))
            },
        },
    }
}

/// Whether an instant, in microseconds, lies between two whole seconds.
fn has_fraction(instant: i64) -> (r: bool)
    ensures
        r == (instant as int % MICROS_PER_SECOND as int != 0),
{
    instant % MICROS_PER_SECOND != 0
}

impl Hub {
    /// The loop before its first round.
    pub fn new(pool: PortPool) -> (r: Hub)
        requires
            ports::is_full_order(pool@),
        ensures
            r@.wf(),
            r@ == (HubView {
                cnt: 0,
                have_force_poll: false,
                check_poll_at: true,
                should_block: None,
                not_connected: Set::empty(),
                client_disconnected: Set::empty(),
                ports: Map::empty(),
                free: pool@,
            }),
    {
        Hub {
            pool,
            connection_port_map: HashMap::new(),
            not_connected_handles: HashSet::new(),
            client_disconnected_handles: HashSet::new(),
            cnt: 0,
            have_force_poll: false,
            check_poll_at: true,
            should_block: None,
        }
    }

    /// The number of the round.
    pub fn round(&self) -> (r: u64)
        ensures
            r == self@.cnt,
    {
        self.cnt
    }

    /// Until when, in microseconds, the loop may wait for a message.
    pub fn deadline(&self) -> (r: Option<i64>)
        ensures
            r == self@.should_block,
    {
        self.should_block
    }

    /// Starts a round.
    pub fn begin_round(&mut self)
        requires
            old(self)@.cnt < u64::MAX,
        ensures
            final(self)@ == old(self)@.next_round(),
    {
        self.cnt = self.cnt + 1;
        self.have_force_poll = false;
    }

    /// How to get the next message: a deadline that has been set is used up by it. The time to
    /// wait is the distance between the deadline and `now`, whichever of them comes first.
    pub fn next_wait(&mut self, now: i64) -> (r: Wait)
        requires
            old(self)@.should_block matches Some(t) ==> distance(t, now) <= i64::MAX,
        ensures
            r == (match old(self)@.should_block {
                Some(t) => Wait::Timeout(distance(t, now) as u64),
                None => Wait::Immediate,
            }),
            final(self)@ == (HubView { should_block: None, ..old(self)@ }),
    {
        match self.should_block {
            None => Wait::Immediate,
            Some(timeout) => {
                self.should_block = None;
                if timeout < now {
                    Wait::Timeout((now - timeout) as u64)
                } else {
                    Wait::Timeout((timeout - now) as u64)
                }
            },
        }
    }

    /// No message came: the round goes on to poll the stack.
    pub fn queue_empty(&mut self) -> (r: Flow)
        ensures
            r is Poll,
            final(self)@ == (HubView { check_poll_at: true, ..old(self)@ }),
    {
        self.check_poll_at = true;
        Flow::Poll
    }

    /// A client asks for a connection: the socket to make it with, or the answer to the client
    /// where no local port is left.
    pub fn create_tcp_connection(&self) -> (r: Result<TcpSocket<'static>, OpenSocketResponse>)
        ensures
            match r {
                Ok(sock) => {
                    &&& self@.free.len() > 0
                    &&& tcp::tcp_model(sock) == tcp::unused_socket(
                        BUFFER_LEN as nat,
                        BUFFER_LEN as nat,
                    )
                },
                Err(response) => {
                    &&& self@.free.len() == 0
                    &&& response is FailureNoPort
                },
            },
    {
        if self.pool.is_empty() {
            Err(OpenSocketResponse::FailureNoPort)
        } else {
            let incoming: Vec<u8> = vec![0; BUFFER_LEN];
            let outgoing: Vec<u8> = vec![0; BUFFER_LEN];
            Ok(tcp::new_socket(incoming, outgoing))
        }
    }

    /// Lets `sock`, which the stack knows as `handle`, connect to `addr` and `port` from the
    /// next local port, which is returned. Where the stack refuses, nothing has changed.
    pub fn open_connection(
        &mut self,
        handle: usize,
        sock: &mut TcpSocket<'static>,
        cx: &mut Context<'static>,
        addr: [u8; 4],
        port: u16,
    ) -> (r: Result<u16, StackError>)
        requires
            old(self)@.wf(),
            old(self)@.free.len() > 0,
            !old(self)@.ports.contains_key(handle),
        ensures
            final(self)@.wf(),
            ({
                let before = tcp::tcp_model(*old(sock));
                let after = tcp::tcp_model(*final(sock));
                let local_port = old(self)@.free[0];
                if before.is_open() {
                    &&& r == Err::<u16, StackError>(StackError::Illegal)
                    &&& after == before
                    &&& final(self)@ == old(self)@
                } else if !tcp::is_addressable(addr@, port) {
                    &&& r == Err::<u16, StackError>(StackError::Unaddressable)
                    &&& after == before
                    &&& final(self)@ == old(self)@
                } else {
                    &&& r == Ok::<u16, StackError>(local_port)
                    &&& after == before.connecting(addr@, port, local_port)
                    &&& final(self)@ == old(self)@.opened(handle)
                }
            }),
    {
        proof {
            let free = self@.free;
            assert(free.contains(free[0]));
            lemma_opened_wf(self@, handle);
        }
        let local_port: u16 = match self.pool.next() {
            Some(local_port) => local_port,
            None => unreached(),
        };
        match tcp::connect(sock, cx, addr, port, local_port) {
            Err(error) => Err(tcp::stack_error(error)),
            Ok(()) => {
                self.pool.take();
                self.connection_port_map.insert(handle, local_port);
                self.not_connected_handles.insert(handle);
                Ok(local_port)
            },
        }
    }

    /// Hands octets of a client to its connection.
    pub fn receive_from_proxy_client<C, A, S>(
        &mut self,
        handle: usize,
        sock: &mut TcpSocket<'static>,
        data: Vec<u8>,
        ack: A,
    ) -> (r: Forward<C, A, S>)
        ensures
            ({
                let before = tcp::tcp_model(*old(sock));
                let after = tcp::tcp_model(*final(sock));
                let sent = tcp::accepted(before, data@.len());
                if before.can_send() {
                    &&& after == before.sending(data@)
                    &&& final(self)@ == old(self)@
                    &&& sent == data@.len() ==> r == Forward::<C, A, S>::Acknowledge(ack)
                    &&& sent < data@.len() ==> is_requeue(
                        r,
                        Some(old(self)@.cnt),
                        handle,
                        data@.skip(sent),
                        ack,
                    )
                } else if before.state is Closed {
                    &&& after == before
                    &&& final(self)@ == old(self)@
                    &&& r is Dropped
                } else if before.may_send() {
                    &&& after == before
                    &&& final(self)@ == old(self)@.poll_requested()
                    &&& is_requeue(r, old(self)@.poll_request(), handle, data@, ack)
                } else {
                    &&& after == before
                    &&& final(self)@ == old(self)@
                    &&& r == Forward::<C, A, S>::CannotSend(before.state)
                }
            }),
            tcp::tcp_model(*final(sock)).outgoing == tcp::tcp_model(*old(sock)).outgoing + taken(
                tcp::tcp_model(*old(sock)),
                data@,
            ),
            match fate(tcp::tcp_model(*old(sock)), data@) {
                Fate::Sent => r == Forward::<C, A, S>::Acknowledge(ack),
                Fate::Left(rest) => is_requeue(r, r->poll, handle, rest, ack),
                Fate::Lost => r is Dropped || r is CannotSend,
            },
    {
        if tcp::can_send(sock) {
            let size: usize = match tcp::send_slice(sock, data.as_slice()) {
                Ok(size) => size,
                Err(_) => unreached(),
            };
            if size != data.len() {
                let mut data = data;
                let rest = data.split_off(size);
                Forward::Requeue {
                    poll: Some(self.cnt),
                    message: Queue::ReceiveFromProxyClient(handle, rest, ack),
                }
            } else {
                Forward::Acknowledge(ack)
            }
        } else {
            let state = tcp::state(sock);
            if state == TcpState::Closed {
                Forward::Dropped
            } else if tcp::may_send(sock) {
                let poll: Option<u64> = self.request_poll();
                Forward::Requeue { poll, message: Queue::ReceiveFromProxyClient(handle, data, ack) }
            } else {
                Forward::CannotSend(state)
            }
        }
    }

    /// The number of the round whose end is to be queued: none, where that was done before.
    fn request_poll(&mut self) -> (r: Option<u64>)
        ensures
            r == old(self)@.poll_request(),
            final(self)@ == old(self)@.poll_requested(),
    {
        if !self.have_force_poll {
            self.have_force_poll = true;
            Some(self.cnt)
        } else {
            None
        }
    }

    /// The client of the connection `handle` is gone: what it sent will still be delivered, and
    /// nothing more. Where `handle` is no connection, nothing is done.
    pub fn disconnect_from_proxy_client(&self, handle: usize, sock: &mut TcpSocket<'static>)
        ensures
            tcp::tcp_model(*final(sock)) == if self@.ports.contains_key(handle) {
                tcp::tcp_model(*old(sock)).closing()
            } else {
                tcp::tcp_model(*old(sock))
            },
    {
        if self.contains_connection(handle) {
            tcp::close(sock);
        }
    }

    /// A packet came out of the tunnel: the message to queue, if the round's end has not been
    /// queued before.
    pub fn receive_from_boringtun<C, A, S>(&mut self) -> (r: Option<Queue<C, A, S>>)
        ensures
            r == (match old(self)@.poll_request() {
                Some(cnt) => Some(Queue::<C, A, S>::ForcePoll(cnt)),
                None => None,
            }),
            final(self)@ == old(self)@.poll_requested(),
    {
        match self.request_poll() {
            Some(cnt) => Some(Queue::ForcePoll(cnt)),
            None => None,
        }
    }

    /// A message that ends the round `c`; a round other than the current one is over already.
    pub fn force_poll(&mut self, c: u64) -> (r: Flow)
        ensures
            old(self)@.cnt == c ==> r is Poll && final(self)@ == (HubView {
                check_poll_at: true,
                ..old(self)@
            }),
            old(self)@.cnt != c ==> r is Continue && final(self)@ == old(self)@,
    {
        if self.cnt == c {
            self.check_poll_at = true;
            Flow::Poll
        } else {
            Flow::Continue
        }
    }

    /// The stack has been polled. An unrecognized packet is nothing to tell.
    pub fn poll_finished(&mut self, result: Result<bool, smoltcp::Error>) -> (r: PollReport)
        ensures
            r == poll_report(result),
            final(self)@ == (HubView {
                check_poll_at: old(self)@.check_poll_at || !r.readiness_changed,
                ..old(self)@
            }),
    {
        let report = match result {
            Ok(readiness_changed) => PollReport { readiness_changed, error: None },
            Err(error) => {
                let kind = tcp::stack_error(error);
                if kind == StackError::Unrecognized {
                    PollReport { readiness_changed: false, error: None }
                } else {
                    PollReport { readiness_changed: false, error: Some(kind) }
                }
            },
        };
        if !report.readiness_changed {
            self.check_poll_at = true;
        }
        report
    }

    /// The connections, in no particular order.
    pub fn handles(&self) -> (r: Vec<usize>)
        ensures
            r@.no_duplicates(),
            forall|h: usize| #[trigger] r@.contains(h) <==> self@.ports.contains_key(h),
    {
        let mut handles: Vec<usize> = Vec::new();
        let keys = self.connection_port_map.keys();
        let ghost all = vstd::std_specs::iter::IteratorSpec::remaining(&keys).unref();
        for handle in iter: keys
            invariant
                handles@.len() == iter.index(),
                forall|i: int| 0 <= i < handles@.len() ==> handles@[i] == *iter.seq()[i],
        {
            handles.push(*handle);
        }
        proof {
            assert(handles@ == all);
            assert forall|h: usize| #[trigger] handles@.contains(h) <==> self@.ports.contains_key(h)
                by {
                assert(all.contains(h) <==> all.to_set().contains(h));
            }
        }
        handles
    }

    /// Looks after the connection `handle`, whose socket is `sock`.
    pub fn sweep(&mut self, handle: usize, sock: &TcpSocket<'static>) -> (r: SweepPlan)
        ensures
            r == old(self)@.plan(handle, tcp::tcp_model(*sock)),
            r.drain <==> tcp::tcp_model(*sock).incoming.len() > 0
                && !old(self)@.client_disconnected.contains(handle),
            r.finished <==> tcp::tcp_model(*sock).state is Closed,
            final(self)@ == old(self)@.swept(handle, tcp::tcp_model(*sock)),
    {
        let announce = tcp::may_recv(sock) && self.not_connected_handles.contains(&handle);
        if announce {
            self.not_connected_handles.remove(&handle);
        }
        let drain = tcp::can_recv(sock) && !self.client_disconnected_handles.contains(&handle);
        let finished = tcp::state(sock) == TcpState::Closed;
        SweepPlan { announce, drain, finished }
    }

    /// The octets of the server to hand to a client: as many of the oldest ones as can be taken
    /// out of its socket at once.
    pub fn offer(&self, sock: &mut TcpSocket<'static>) -> (r: Result<Vec<u8>, StackError>)
        ensures
            tcp::tcp_model(*final(sock)) == tcp::tcp_model(*old(sock)),
            match r {
                Ok(octets) => {
                    let held = tcp::tcp_model(*old(sock));
                    &&& held.may_recv()
                    &&& octets@.len() == held.front
                    &&& octets@.is_prefix_of(held.incoming)
                    &&& held.can_recv() ==> octets@.len() > 0
                },
                Err(error) => {
                    &&& !tcp::tcp_model(*old(sock)).may_recv()
                    &&& error is Finished || error is Illegal
                },
            },
    {
        match tcp::peek(sock) {
            Ok(octets) => Ok(octets),
            Err(error) => Err(tcp::stack_error(error)),
        }
    }

    /// Octets of the server have been offered to the client of the connection `handle`, which
    /// took `written` of them, or failed. Those it took are taken out of its socket. A client
    /// that failed is offered nothing more, and its connection closed: that is the message to
    /// queue.
    pub fn drained<C, A, S>(
        &mut self,
        handle: usize,
        sock: &mut TcpSocket<'static>,
        written: Option<usize>,
    ) -> (r: Option<Queue<C, A, S>>)
        requires
            old(self)@.wf(),
            old(self)@.ports.contains_key(handle),
            tcp::tcp_model(*old(sock)).may_recv(),
            written matches Some(n) ==> n <= tcp::tcp_model(*old(sock)).front,
        ensures
            final(self)@.wf(),
            match written {
                Some(n) => {
                    &&& r is None
                    &&& tcp::tcp_model(*old(sock)).taking(n as int, tcp::tcp_model(*final(sock)))
                    &&& final(self)@ == old(self)@
                },
                None => {
                    &&& r == Some(Queue::<C, A, S>::DisconnectFromProxyClient(handle))
                    &&& tcp::tcp_model(*final(sock)) == tcp::tcp_model(*old(sock))
                    &&& final(self)@ == old(self)@.without_client(handle)
                },
            },
    {
        proof {
            lemma_without_client_wf(self@, handle);
        }
        match written {
            Some(n) => match tcp::recv(sock, n) {
                Ok(()) => None,
                Err(_) => unreached(),
            },
            None => {
                self.client_disconnected_handles.insert(handle);
                Some(Queue::DisconnectFromProxyClient(handle))
            },
        }
    }

    /// Gives up the connections `handles`, one after the other: the local port of each goes
    /// behind the ports that are free, and that its client has failed is forgotten.
    pub fn release_all(&mut self, handles: &Vec<usize>)
        requires
            old(self)@.wf(),
            handles@.no_duplicates(),
            forall|i: int|
                0 <= i < handles@.len() ==> old(self)@.ports.contains_key(#[trigger] handles@[i]),
        ensures
            final(self)@.wf(),
            final(self)@ == old(self)@.released_all(handles@),
    {
        let ghost before = self@;
        let mut i: usize = 0;
        while i < handles.len()
            invariant
                i <= handles@.len(),
                handles@.no_duplicates(),
                self@ == before.released_all(handles@.take(i as int)),
                self@.wf(),
                forall|j: int|
                    i <= j < handles@.len() ==> self@.ports.contains_key(#[trigger] handles@[j]),
            decreases handles@.len() - i,
        {
            let handle: usize = handles[i];
            let ghost now = self@;
            proof {
                let done = handles@.take(i + 1);
                assert(done.drop_last() == handles@.take(i as int));
                assert(done.last() == handle);
                lemma_released_wf(now, handle);
            }
            match self.connection_port_map.remove(&handle) {
                Some(local_port) => {
                    self.pool.give_back(local_port);
                },
                None => unreached(),
            }
            self.client_disconnected_handles.remove(&handle);
            assert(self@ == now.released(handle));
            i = i + 1;
        }
        assert(handles@.take(handles@.len() as int) == handles@);
    }

    /// Whether the stack is to be asked for its next deadline at the end of this round.
    pub fn wants_deadline(&self) -> (r: bool)
        ensures
            r == self@.check_poll_at,
    {
        self.check_poll_at
    }

    /// Ends a round: settles until when the next one may wait for a message. `next` is the
    /// stack's next deadline, where it was asked for and has one.
    pub fn end_round(&mut self, next: Option<i64>, now: i64)
        requires
            old(self)@.check_poll_at && next is None ==> now + MICROS_PER_SECOND <= i64::MAX,
        ensures
            final(self)@ == (HubView {
                check_poll_at: false,
                should_block: old(self)@.next_block(next, now),
                ..old(self)@
            }),
    {
        if self.check_poll_at {
            match next {
                Some(next_time) => {
                    if has_fraction(next_time) {
                        self.should_block = Some(next_time);
                    } else {
                        self.should_block = None;
                    }
                },
                None => {
                    self.should_block = Some(now + MICROS_PER_SECOND);
                },
            }
            self.check_poll_at = false;
        } else {
            self.should_block = None;
        }
    }

    /// Whether `handle` is a connection.
    pub fn contains_connection(&self, handle: usize) -> (r: bool)
        ensures
            r == self@.ports.contains_key(handle),
    {
        self.connection_port_map.contains_key(&handle)
    }
}

/// Adding a connection keeps every local port accounted for.
proof fn lemma_opened_wf(hub: HubView, handle: usize)
    requires
        hub.wf(),
        hub.free.len() > 0,
        !hub.ports.contains_key(handle),
    ensures
        hub.opened(handle).wf(),
{
    let after = hub.opened(handle);
    let port = hub.free[0];
    assert(hub.free.contains(port));
    assert forall|p: u16| #[trigger] after.free.contains(p) implies ports::is_local_port(p) && p
        != port && hub.free.contains(p) by {
        let i = choose|i: int| 0 <= i < after.free.len() && after.free[i] == p;
        assert(hub.free[i + 1] == p);
        assert(hub.free.contains(hub.free[i + 1]));
        assert(hub.free[0] != hub.free[i + 1]);
    }
    assert forall|p: u16| #[trigger] ports::is_local_port(p) implies after.free.contains(p)
        || after.uses(p) by {
        if hub.free.contains(p) {
            let i = choose|i: int| 0 <= i < hub.free.len() && hub.free[i] == p;
            if i == 0 {
                assert(after.ports.contains_key(handle));
            } else {
                assert(after.free[i - 1] == p);
            }
        } else {
            let h = choose|h: usize| #[trigger] hub.ports.contains_key(h) && hub.ports[h] == p;
            assert(after.ports.contains_key(h));
        }
    }
}

/// That the client of a connection fails keeps every local port accounted for.
proof fn lemma_without_client_wf(hub: HubView, handle: usize)
    requires
        hub.wf(),
        hub.ports.contains_key(handle),
    ensures
        hub.without_client(handle).wf(),
{
    let after = hub.without_client(handle);
    assert forall|p: u16| #[trigger] ports::is_local_port(p) implies after.free.contains(p)
        || after.uses(p) by {
        if !hub.free.contains(p) {
            let h = choose|h: usize| #[trigger] hub.ports.contains_key(h) && hub.ports[h] == p;
            assert(after.ports.contains_key(h));
        }
    }
}

/// Giving up a connection keeps every local port accounted for.
proof fn lemma_released_wf(hub: HubView, handle: usize)
    requires
        hub.wf(),
        hub.ports.contains_key(handle),
    ensures
        hub.released(handle).wf(),
{
    let after = hub.released(handle);
    let port = hub.ports[handle];
    assert forall|p: u16| #[trigger] after.free.contains(p) <==> hub.free.contains(p) || p
        == port by {
        if hub.free.contains(p) {
            let i = choose|i: int| 0 <= i < hub.free.len() && hub.free[i] == p;
            assert(after.free[i] == p);
        }
        assert(after.free[after.free.len() - 1] == port);
        if after.free.contains(p) && p != port {
            let i = choose|i: int| 0 <= i < after.free.len() && after.free[i] == p;
            assert(hub.free[i] == p);
        }
    }
    assert forall|i: int, j: int|
        0 <= i < after.free.len() && 0 <= j < after.free.len() && i != j implies after.free[i]
        != after.free[j] by {
        assert(forall|k: int| 0 <= k < hub.free.len() ==> hub.free.contains(#[trigger] hub.free[k]));
    }
    assert forall|p: u16| #[trigger] ports::is_local_port(p) implies after.free.contains(p)
        || after.uses(p) by {
        if !hub.free.contains(p) && p != port {
            let h = choose|h: usize| #[trigger] hub.ports.contains_key(h) && hub.ports[h] == p;
            assert(after.ports.contains_key(h));
        }
    }
    assert forall|h: usize| #[trigger] after.ports.contains_key(h) implies ports::is_local_port(
        after.ports[h],
    ) && !after.free.contains(after.ports[h]) by {
        assert(hub.ports.contains_key(h));
        assert(hub.ports[h] != hub.ports[handle]);
    }
}

} // verus!
