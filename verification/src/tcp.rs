//! The TCP sockets of the user-space stack, as the relay sees them.

use smoltcp::iface::Context;
use smoltcp::socket::{TcpSocket, TcpSocketBuffer};
use smoltcp::wire::IpAddress;
use vstd::prelude::*;

verus! {

/// A state of the TCP state machine.
#[derive(Clone, Copy, Debug, PartialEq, Eq, Structural)]
pub enum TcpState {
    Closed,
    Listen,
    SynSent,
    SynReceived,
    Established,
    FinWait1,
    FinWait2,
    CloseWait,
    Closing,
    LastAck,
    TimeWait,
}

/// Why the stack turned an operation on a socket down.
#[derive(Clone, Copy, Debug, PartialEq, Eq, Structural)]
pub enum StackError {
    Exhausted,
    Illegal,
    Unaddressable,
    Finished,
    Truncated,
    Checksum,
    Unrecognized,
    Fragmented,
    Malformed,
    Dropped,
    NotSupported,
}

/// What a TCP socket holds, in plain values.
pub struct TcpModel {
    /// Where the socket stands in the TCP state machine.
    pub state: TcpState,
    /// The octets handed over for sending that the peer has not acknowledged.
    pub outgoing: Seq<u8>,
    /// How many octets `outgoing` may hold.
    pub capacity: nat,
    /// The octets received that nobody has taken out.
    pub incoming: Seq<u8>,
    /// How many octets `incoming` may hold.
    pub room: nat,
    /// How many of these can be taken out at once.
    pub front: nat,
    /// The peer's IPv4 address and port, where the socket was given one.
    pub remote: Option<(Seq<u8>, u16)>,
    /// The local port; zero where the socket was given none.
    pub local_port: u16,
}

impl TcpModel {
    /// Whether the transmit half of the connection is open.
    pub open spec fn may_send(self) -> bool {
        self.state is Established || self.state is CloseWait
    }

    /// Whether the transmit half is open and another octet fits.
    pub open spec fn can_send(self) -> bool {
        self.may_send() && self.outgoing.len() < self.capacity
    }

    /// Whether the receive half is open, or holds octets still to be taken out.
    pub open spec fn may_recv(self) -> bool {
        ||| self.state is Established
        ||| self.state is FinWait1
        ||| self.state is FinWait2
        ||| self.incoming.len() > 0
    }

    /// Whether there is an octet to be taken out.
    pub open spec fn can_recv(self) -> bool {
        self.incoming.len() > 0
    }

    /// Whether the socket takes part in a connection, or waits for one.
    pub open spec fn is_open(self) -> bool {
        self.state !is Closed && self.state !is TimeWait
    }

    /// The socket once it has taken as much of `data` for sending as fits.
    pub open spec fn sending(self, data: Seq<u8>) -> TcpModel {
        TcpModel { outgoing: self.outgoing + data.take(accepted(self, data.len())), ..self }
    }

    /// The socket once its transmit half has been closed.
    pub open spec fn closing(self) -> TcpModel {
        TcpModel { state: after_close(self.state), ..self }
    }

    /// Whether this is `after` once `n` octets have been taken out of it. How many octets can be
    /// taken out at once after that depends on where they lie.
    pub open spec fn taking(self, n: int, after: TcpModel) -> bool {
        after == (TcpModel { incoming: self.incoming.skip(n), front: after.front, ..self })
    }

    /// The socket once it has been told to connect to `addr` and `port` from `local_port`.
    pub open spec fn connecting(self, addr: Seq<u8>, port: u16, local_port: u16) -> TcpModel {
        TcpModel {
            state: TcpState::SynSent,
            outgoing: Seq::empty(),
            capacity: self.capacity,
            incoming: Seq::empty(),
            room: self.room,
            front: 0,
            remote: Some((addr, port)),
            local_port,
        }
    }
}

/// A socket that has not been used, with room for `room` octets received and `capacity` octets to
/// send.
pub open spec fn unused_socket(room: nat, capacity: nat) -> TcpModel {
    TcpModel {
        state: TcpState::Closed,
        outgoing: Seq::empty(),
        capacity,
        incoming: Seq::empty(),
        room,
        front: 0,
        remote: None,
        local_port: 0,
    }
}

/// The state that a socket is in after its transmit half has been closed in state `state`.
pub open spec fn after_close(state: TcpState) -> TcpState {
    match state {
        TcpState::Listen | TcpState::SynSent => TcpState::Closed,
        TcpState::SynReceived | TcpState::Established => TcpState::FinWait1,
        TcpState::CloseWait => TcpState::LastAck,
        _ => state,
    }
}

/// How many of `len` octets the send queue of `sock` takes.
pub open spec fn accepted(sock: TcpModel, len: nat) -> int {
    if len < sock.capacity - sock.outgoing.len() {
        len as int
    } else {
        sock.capacity - sock.outgoing.len()
    }
}

/// Whether the stack takes `addr` and `port` for the far end of a connection: no address that
/// starts with a zero octet, and no port zero.
pub open spec fn is_addressable(addr: Seq<u8>, port: u16) -> bool {
    addr[0] != 0 && port != 0
}

/// The TCP socket of smoltcp.
#[verifier::external_type_specification]
#[verifier::external_body]
pub struct ExTcpSocket<'a>(TcpSocket<'a>);

/// The part of smoltcp's interface that a connecting socket draws on.
#[verifier::external_type_specification]
#[verifier::external_body]
pub struct ExContext<'a>(Context<'a>);

/// The error of smoltcp's operations.
#[verifier::external_type_specification]
#[verifier::external_body]
pub struct ExError(smoltcp::Error);

/// What `sock` holds.
pub uninterp spec fn tcp_model(sock: TcpSocket<'static>) -> TcpModel;

/// Which of its variants `error` is.
pub uninterp spec fn error_kind(error: smoltcp::Error) -> StackError;

/// Tells the variants of `smoltcp::Error` apart; the result names the variant of `error`.
#[verifier::external_body]
pub(crate) fn stack_error(error: smoltcp::Error) -> (r: StackError)
    ensures
        r == error_kind(error),
{
    match error {
        smoltcp::Error::Exhausted => StackError::Exhausted,
        smoltcp::Error::Illegal => StackError::Illegal,
        smoltcp::Error::Unaddressable => StackError::Unaddressable,
        smoltcp::Error::Finished => StackError::Finished,
        smoltcp::Error::Truncated => StackError::Truncated,
        smoltcp::Error::Checksum => StackError::Checksum,
        smoltcp::Error::Unrecognized => StackError::Unrecognized,
        smoltcp::Error::Fragmented => StackError::Fragmented,
        smoltcp::Error::Malformed => StackError::Malformed,
        smoltcp::Error::Dropped => StackError::Dropped,
        _ => StackError::NotSupported,
    }
}

/// `TcpSocket::new`, over buffers of `TcpSocketBuffer::new`: a closed socket without endpoints,
/// whose queues are empty; the receive queue has room for as many octets as `incoming` has, and
/// the send queue for as many as `outgoing` has.
/// It panics where the receive buffer is larger than one gibibyte.
#[verifier::external_body]
pub(crate) fn new_socket(incoming: Vec<u8>, outgoing: Vec<u8>) -> (r: TcpSocket<'static>)
    requires
        incoming.len() <= 0x4000_0000,
    ensures
        tcp_model(r) == unused_socket(incoming@.len(), outgoing@.len()),
{
    TcpSocket::new(TcpSocketBuffer::new(incoming), TcpSocketBuffer::new(outgoing))
}

/// `TcpSocket::connect`, from an unspecified local address: refuses an open socket, then a far
/// end that is no address; otherwise empties the queues, notes both ends and enters `SynSent`.
/// The initial sequence number, which comes out of `cx`, is not part of the model.
#[verifier::external_body]
pub(crate) fn connect(
    sock: &mut TcpSocket<'static>,
    cx: &mut Context<'static>,
    addr: [u8; 4],
    port: u16,
    local_port: u16,
) -> (r: Result<(), smoltcp::Error>)
    ensures
        ({
            let before = tcp_model(*old(sock));
            let after = tcp_model(*final(sock));
            if before.is_open() {
                &&& r matches Err(e) && error_kind(e) is Illegal
                &&& after == before
            } else if !is_addressable(addr@, port) || local_port == 0 {
                &&& r matches Err(e) && error_kind(e) is Unaddressable
                &&& after == before
            } else {
                &&& r is Ok
                &&& after == before.connecting(addr@, port, local_port)
            }
        }),
{
    let remote = IpAddress::v4(addr[0], addr[1], addr[2], addr[3]);
    sock.connect(cx, (remote, port), (IpAddress::Unspecified, local_port))
}

/// `TcpSocket::close`: closes the transmit half; the queues and both ends stay as they are.
#[verifier::external_body]
pub(crate) fn close(sock: &mut TcpSocket<'static>)
    ensures
        tcp_model(*final(sock)) == tcp_model(*old(sock)).closing(),
{
    sock.close()
}

/// `TcpSocket::state`.
#[verifier::external_body]
pub(crate) fn state(sock: &TcpSocket<'static>) -> (r: TcpState)
    ensures
        r == tcp_model(*sock).state,
{
    match sock.state() {
        smoltcp::socket::TcpState::Closed => TcpState::Closed,
        smoltcp::socket::TcpState::Listen => TcpState::Listen,
        smoltcp::socket::TcpState::SynSent => TcpState::SynSent,
        smoltcp::socket::TcpState::SynReceived => TcpState::SynReceived,
        smoltcp::socket::TcpState::Established => TcpState::Established,
        smoltcp::socket::TcpState::FinWait1 => TcpState::FinWait1,
        smoltcp::socket::TcpState::FinWait2 => TcpState::FinWait2,
        smoltcp::socket::TcpState::CloseWait => TcpState::CloseWait,
        smoltcp::socket::TcpState::Closing => TcpState::Closing,
        smoltcp::socket::TcpState::LastAck => TcpState::LastAck,
        smoltcp::socket::TcpState::TimeWait => TcpState::TimeWait,
    }
}

/// `TcpSocket::may_send`: whether the state is `Established` or `CloseWait`.
#[verifier::external_body]
pub(crate) fn may_send(sock: &TcpSocket<'static>) -> (r: bool)
    ensures
        r == tcp_model(*sock).may_send(),
{
    sock.may_send()
}

/// `TcpSocket::can_send`: whether `may_send` holds and the send queue is not full.
#[verifier::external_body]
pub(crate) fn can_send(sock: &TcpSocket<'static>) -> (r: bool)
    ensures
        r == tcp_model(*sock).can_send(),
{
    sock.can_send()
}

/// `TcpSocket::may_recv`: whether the state is `Established`, `FinWait1` or `FinWait2`, or the
/// receive queue is not empty.
#[verifier::external_body]
pub(crate) fn may_recv(sock: &TcpSocket<'static>) -> (r: bool)
    ensures
        r == tcp_model(*sock).may_recv(),
{
    sock.may_recv()
}

/// `TcpSocket::can_recv`: whether the receive queue is not empty.
#[verifier::external_body]
pub(crate) fn can_recv(sock: &TcpSocket<'static>) -> (r: bool)
    ensures
        r == tcp_model(*sock).can_recv(),
{
    sock.can_recv()
}

/// `TcpSocket::send_slice`: refuses where the transmit half is closed; otherwise appends as
/// much of `data` to the send queue as fits, and returns how much that was.
#[verifier::external_body]
pub(crate) fn send_slice(sock: &mut TcpSocket<'static>, data: &[u8]) -> (r: Result<
    usize,
    smoltcp::Error,
>)
    ensures
        ({
            let before = tcp_model(*old(sock));
            let after = tcp_model(*final(sock));
            if before.may_send() {
                &&& r matches Ok(n) && n == accepted(before, data@.len())
                &&& after == before.sending(data@)
            } else {
                &&& r matches Err(e) && error_kind(e) is Illegal
                &&& after == before
            }
        }),
{
    sock.send_slice(data)
}

/// `TcpSocket::peek`, without a limit: a copy of the octets that can be taken out at once, which
/// are the oldest ones; there are some where there is any octet to be taken out. It refuses where
/// the receive half is closed and empty: with `Finished` where the peer closed it, and otherwise
/// with `Illegal`.
#[verifier::external_body]
pub(crate) fn peek(sock: &mut TcpSocket<'static>) -> (r: Result<Vec<u8>, smoltcp::Error>)
    ensures
        tcp_model(*final(sock)) == tcp_model(*old(sock)),
        r is Ok <==> tcp_model(*old(sock)).may_recv(),
        r matches Ok(octets) ==> {
            let before = tcp_model(*old(sock));
            &&& octets@.len() == before.front
            &&& before.front <= before.incoming.len()
            &&& octets@ == before.incoming.take(before.front as int)
            &&& before.can_recv() ==> octets@.len() > 0
        },
        r matches Err(e) ==> error_kind(e) is Finished || error_kind(e) is Illegal,
{
    sock.peek(usize::MAX).map(|octets| octets.to_vec())
}

/// `TcpSocket::recv`, with a function that takes `n` octets: takes out the oldest `n` octets. It
/// refuses where the receive half is closed and empty, and panics where `n` is more than can be
/// taken out at once.
#[verifier::external_body]
pub(crate) fn recv(sock: &mut TcpSocket<'static>, n: usize) -> (r: Result<(), smoltcp::Error>)
    requires
        n <= tcp_model(*old(sock)).front,
    ensures
        ({
            let before = tcp_model(*old(sock));
            let after = tcp_model(*final(sock));
            if before.may_recv() {
                r is Ok && before.taking(n as int, after)
            } else {
                r is Err && after == before
            }
        }),
{
    sock.recv(|_| (n, ()))
}

} // verus!
