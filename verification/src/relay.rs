//! The two halves of a client whose connection is up: one reads what the client sends, the other
//! writes what the server sends.

use crate::queue::Queue;
use crate::socks::Reply;
use vstd::prelude::*;

verus! {

/// How many octets are read from a client at once.
pub const READ_LEN: usize = 1024;

/// What happens to the half that reads.
#[derive(Debug)]
pub enum ReadEvent {
    /// It may read on.
    Permit,
    /// Nobody will let it read on.
    PermitsClosed,
    /// The client sent these octets; none stand for the end.
    Data(Vec<u8>),
    /// Reading from the client failed.
    ReadFailed,
    /// The message was queued.
    Queued,
    /// The message could not be queued.
    QueueClosed,
}

/// What the half that reads does next.
#[derive(Debug)]
pub enum ReadStep<C, A, S> {
    /// It waits until it may read on.
    AwaitPermit,
    /// It reads at most this many octets.
    Read(usize),
    /// It queues a message, and goes on.
    Forward(Queue<C, A, S>),
    /// It queues a last message, and stops.
    Disconnect(Queue<C, A, S>),
    /// It stops.
    Stop,
}

/// What happens to the half that writes.
#[derive(Debug)]
pub enum WriteEvent {
    /// It starts.
    Started,
    /// The server sent these octets; none stand for the end.
    Packet(Vec<u8>),
    /// Nobody will hand it octets any more.
    PacketsClosed,
    /// What was to be written was written.
    Written,
    /// Writing to the client failed.
    WriteFailed,
}

/// What the half that writes does next.
#[derive(Debug)]
pub enum WriteStep<C, A, S> {
    /// It writes these octets to the client.
    Write(Vec<u8>),
    /// It waits for octets of the server.
    AwaitPacket,
    /// It notes that the server is gone, and stops.
    Finish,
    /// It notes that the server is gone, queues a last message, and stops.
    Disconnect(Queue<C, A, S>),
    /// It gives up at once: the client was not even told that its connection is up.
    Abort,
}

/// Whether `step` forwards the octets `data` for the connection `handle`, with the reader `ack`
/// to be told when they are on their way.
pub open spec fn forwards<C, A, S>(
    step: ReadStep<C, A, S>,
    handle: usize,
    data: Seq<u8>,
    ack: A,
) -> bool {
    &&& step matches ReadStep::Forward(message)
    &&& message matches Queue::ReceiveFromProxyClient(h, octets, a)
    &&& h == handle
    &&& octets@ == data
    &&& a == ack
}

/// What the half that reads does after `event`, for the connection `handle`; `server_closed` says
/// whether the server is gone, and `ack` is the way in which this half is told to read on.
pub open spec fn is_read_step<C, A, S>(
    step: ReadStep<C, A, S>,
    event: ReadEvent,
    handle: usize,
    server_closed: bool,
    ack: A,
) -> bool {
    match event {
        ReadEvent::Permit => step == ReadStep::<C, A, S>::Read(READ_LEN),
        ReadEvent::Queued => step is AwaitPermit,
        ReadEvent::Data(data) => if data@.len() == 0 {
            step == ReadStep::<C, A, S>::Disconnect(Queue::DisconnectFromProxyClient(handle))
        } else if server_closed {
            step is Stop
        } else {
            forwards(step, handle, data@, ack)
        },
        _ => step == ReadStep::<C, A, S>::Disconnect(Queue::DisconnectFromProxyClient(handle)),
    }
}

/// What the half that writes does after `event`, for the connection `handle`; `told` says whether
/// the client has been told that its connection is up.
pub open spec fn is_write_step<C, A, S>(
    step: WriteStep<C, A, S>,
    event: WriteEvent,
    handle: usize,
    told: bool,
) -> bool {
    match event {
        WriteEvent::Started => step matches WriteStep::Write(data) && data@
            == Reply::Succeeded.octets(),
        WriteEvent::Packet(packet) => if packet@.len() == 0 {
            step is Finish
        } else {
            step matches WriteStep::Write(data) && data@ == packet@
        },
        WriteEvent::Written => step is AwaitPacket,
        WriteEvent::WriteFailed => if told {
            step == WriteStep::<C, A, S>::Disconnect(Queue::DisconnectFromProxyClient(handle))
        } else {
            step is Abort
        },
        WriteEvent::PacketsClosed => step == WriteStep::<C, A, S>::Disconnect(
            Queue::DisconnectFromProxyClient(handle),
        ),
    }
}

/// What the half that reads is to do after `event`.
pub fn read_step<C, A, S>(handle: usize, event: ReadEvent, server_closed: bool, ack: A) -> (r:
    ReadStep<C, A, S>)
    ensures
        is_read_step(r, event, handle, server_closed, ack),
{
    match event {
        ReadEvent::Permit => ReadStep::Read(READ_LEN),
        ReadEvent::Queued => ReadStep::AwaitPermit,
        ReadEvent::Data(data) => if data.len() == 0 {
            ReadStep::Disconnect(Queue::DisconnectFromProxyClient(handle))
        } else if server_closed {
            ReadStep::Stop
        } else {
            ReadStep::Forward(Queue::ReceiveFromProxyClient(handle, data, ack))
        },
        _ => ReadStep::Disconnect(Queue::DisconnectFromProxyClient(handle)),
    }
}

/// What the half that writes is to do after `event`.
pub fn write_step<C, A, S>(handle: usize, event: WriteEvent, told: bool) -> (r: WriteStep<C, A, S>)
    ensures
        is_write_step(r, event, handle, told),
{
    match event {
        WriteEvent::Started => WriteStep::Write(Reply::Succeeded.encode()),
        WriteEvent::Packet(packet) => if packet.len() == 0 {
            WriteStep::Finish
        } else {
            WriteStep::Write(packet)
        },
        WriteEvent::Written => WriteStep::AwaitPacket,
        WriteEvent::WriteFailed => if told {
            WriteStep::Disconnect(Queue::DisconnectFromProxyClient(handle))
        } else {
            WriteStep::Abort
        },
        WriteEvent::PacketsClosed => WriteStep::Disconnect(
            Queue::DisconnectFromProxyClient(handle),
        ),
    }
}

} // verus!
