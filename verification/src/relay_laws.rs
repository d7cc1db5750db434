//! What holds of the two halves of a client over more than one of their steps.

use crate::queue::Queue;
use crate::relay;
use crate::relay::ReadEvent;
use crate::relay::ReadStep;
use crate::relay::WriteEvent;
use crate::relay::WriteStep;
use crate::socks::Reply;
use vstd::prelude::*;

verus! {

/// Whether `event` can come of `step`.
pub open spec fn read_admits<C, A, S>(step: ReadStep<C, A, S>, event: ReadEvent) -> bool {
    match step {
        ReadStep::AwaitPermit => event is Permit || event is PermitsClosed,
        ReadStep::Read(len) => match event {
            ReadEvent::Data(data) => data@.len() <= len,
            event => event is ReadFailed,
        },
        ReadStep::Forward(_) => event is Queued || event is QueueClosed,
        ReadStep::Disconnect(_) => false,
        ReadStep::Stop => false,
    }
}

/// Whether the half that reads, for the connection `handle`, can see `events` and then does
/// `steps`; `closed` says at which of them the server is gone. It starts by waiting until it may
/// read.
pub open spec fn reads<C, A, S>(
    handle: usize,
    ack: A,
    events: Seq<ReadEvent>,
    closed: Seq<bool>,
    steps: Seq<ReadStep<C, A, S>>,
) -> bool {
    &&& events.len() == steps.len()
    &&& closed.len() == steps.len()
    &&& forall|i: int|
        0 <= i < steps.len() ==> relay::is_read_step(
            #[trigger] steps[i],
            events[i],
            handle,
            closed[i],
            ack,
        )
    &&& events.len() > 0 ==> read_admits(ReadStep::<C, A, S>::AwaitPermit, events[0])
    &&& forall|i: int|
        0 < i < steps.len() ==> read_admits(steps[i - 1], #[trigger] events[i])
}

/// Every message that is forwarded carries just what was read before it, and was read with a
/// permit of its own: there is a permit between any two messages.
pub proof fn law_one_message_for_each_permit<C, A, S>(
    handle: usize,
    ack: A,
    events: Seq<ReadEvent>,
    closed: Seq<bool>,
    steps: Seq<ReadStep<C, A, S>>,
    i: int,
    j: int,
)
    requires
        reads(handle, ack, events, closed, steps),
        -1 <= i < j < steps.len(),
        i >= 0 ==> steps[i] is Forward,
        steps[j] is Forward,
    ensures
        i < j - 1,
        events[j - 1] is Permit,
        events[j] matches ReadEvent::Data(data) && 0 < data@.len() <= relay::READ_LEN
            && relay::forwards(steps[j], handle, data@, ack),
{
    assert(read_admits(ReadStep::<C, A, S>::AwaitPermit, events[0]));
    assert(relay::is_read_step(steps[j], events[j], handle, closed[j], ack));
    assert(events[j] is Data);
    assert(j > 0);
    assert(read_admits(steps[j - 1], events[j]));
    assert(relay::is_read_step(steps[j - 1], events[j - 1], handle, closed[j - 1], ack));
}

/// The half that reads says last, and once, that the client is gone; after that it does nothing.
/// It says nothing only where the server is gone already.
pub proof fn law_reader_says_goodbye<C, A, S>(
    handle: usize,
    ack: A,
    events: Seq<ReadEvent>,
    closed: Seq<bool>,
    steps: Seq<ReadStep<C, A, S>>,
    i: int,
)
    requires
        reads(handle, ack, events, closed, steps),
        0 <= i < steps.len(),
        steps[i] is Disconnect || steps[i] is Stop,
    ensures
        i == steps.len() - 1,
        steps[i] is Disconnect ==> steps[i] == ReadStep::<C, A, S>::Disconnect(
            Queue::DisconnectFromProxyClient(handle),
        ),
        steps[i] is Stop ==> closed[i] && (events[i] matches ReadEvent::Data(data) && data@.len() > 0),
        steps[i] is Disconnect ==> match events[i] {
            ReadEvent::Data(data) => data@.len() == 0,
            event => event is ReadFailed || event is PermitsClosed || event is QueueClosed,
        },
{
    assert(relay::is_read_step(steps[i], events[i], handle, closed[i], ack));
    if i < steps.len() - 1 {
        assert(read_admits(steps[i + 1 - 1], events[i + 1]));
    }
}

/// All that was read from the client.
pub open spec fn read(events: Seq<ReadEvent>) -> Seq<u8>
    decreases events.len(),
{
    if events.len() == 0 {
        Seq::empty()
    } else {
        match events.last() {
            ReadEvent::Data(data) => read(events.drop_last()) + data@,
            _ => read(events.drop_last()),
        }
    }
}

/// All that was forwarded to the connection.
pub open spec fn forwarded<C, A, S>(steps: Seq<ReadStep<C, A, S>>) -> Seq<u8>
    decreases steps.len(),
{
    if steps.len() == 0 {
        Seq::empty()
    } else {
        match steps.last() {
            ReadStep::Forward(Queue::ReceiveFromProxyClient(_, data, _)) => forwarded(
                steps.drop_last(),
            ) + data@,
            _ => forwarded(steps.drop_last()),
        }
    }
}

/// All that is read from a client is forwarded, in its order, as long as the server is not gone:
/// reads of whatever length lose nothing and add nothing.
pub proof fn law_all_that_is_read_is_forwarded<C, A, S>(
    handle: usize,
    ack: A,
    events: Seq<ReadEvent>,
    closed: Seq<bool>,
    steps: Seq<ReadStep<C, A, S>>,
)
    requires
        reads(handle, ack, events, closed, steps),
        forall|i: int| 0 <= i < closed.len() ==> !#[trigger] closed[i],
    ensures
        forwarded(steps) == read(events),
    decreases steps.len(),
{
    if steps.len() > 0 {
        let last = steps.len() - 1;
        assert(relay::is_read_step(steps[last], events[last], handle, closed[last], ack));
        assert forall|i: int| 0 <= i < last implies relay::is_read_step(
            #[trigger] steps.drop_last()[i],
            events.drop_last()[i],
            handle,
            closed.drop_last()[i],
            ack,
        ) by {
            assert(relay::is_read_step(steps[i], events[i], handle, closed[i], ack));
        }
        assert forall|i: int| 0 < i < last implies read_admits(
            steps.drop_last()[i - 1],
            #[trigger] events.drop_last()[i],
        ) by {
            assert(read_admits(steps[i - 1], events[i]));
        }
        assert forall|i: int| 0 <= i < last implies !#[trigger] closed.drop_last()[i] by {
            assert(!closed[i]);
        }
        law_all_that_is_read_is_forwarded(
            handle,
            ack,
            events.drop_last(),
            closed.drop_last(),
            steps.drop_last(),
        );
    }
}

/// A permit is used for a read of up to 1024 octets, and a message that was queued is followed by
/// the wait for the next permit. The end of the client, or of the way to or from it, is told at
/// once; octets that come when the server is gone end the reading in silence.
pub proof fn law_reader_goes_on<C, A, S>(
    handle: usize,
    ack: A,
    events: Seq<ReadEvent>,
    closed: Seq<bool>,
    steps: Seq<ReadStep<C, A, S>>,
    i: int,
)
    requires
        reads(handle, ack, events, closed, steps),
        0 <= i < steps.len(),
    ensures
        events[i] is Permit ==> (steps[i] matches ReadStep::Read(len) && len == 1024),
        events[i] is Queued ==> steps[i] is AwaitPermit,
        events[i] is ReadFailed || events[i] is PermitsClosed || events[i] is QueueClosed ==> steps[i]
            is Disconnect,
        events[i] matches ReadEvent::Data(data) ==> {
            &&& data@.len() == 0 ==> steps[i] is Disconnect
            &&& data@.len() > 0 && closed[i] ==> steps[i] is Stop
            &&& data@.len() > 0 && !closed[i] ==> steps[i] is Forward
        },
{
    assert(relay::is_read_step(steps[i], events[i], handle, closed[i], ack));
}

/// What the half that writes has written to the client.
pub open spec fn written<C, A, S>(steps: Seq<WriteStep<C, A, S>>) -> Seq<u8>
    decreases steps.len(),
{
    if steps.len() == 0 {
        Seq::empty()
    } else {
        match steps.last() {
            WriteStep::Write(data) => written(steps.drop_last()) + data@,
            _ => written(steps.drop_last()),
        }
    }
}

/// What the server has sent to the client.
pub open spec fn sent(events: Seq<WriteEvent>) -> Seq<u8>
    decreases events.len(),
{
    if events.len() == 0 {
        Seq::empty()
    } else {
        match events.last() {
            WriteEvent::Packet(packet) => sent(events.drop_last()) + packet@,
            _ => sent(events.drop_last()),
        }
    }
}

/// Whether `event` can come of `step`.
pub open spec fn write_admits<C, A, S>(step: WriteStep<C, A, S>, event: WriteEvent) -> bool {
    match step {
        WriteStep::Write(_) => event is Written || event is WriteFailed,
        WriteStep::AwaitPacket => event is Packet || event is PacketsClosed,
        WriteStep::Finish => false,
        WriteStep::Disconnect(_) => false,
        WriteStep::Abort => false,
    }
}

/// Whether the half that writes, for the connection `handle`, can see `events` and then does
/// `steps`; `told` says at which of them the client has been told that its connection is up.
pub open spec fn writes<C, A, S>(
    handle: usize,
    events: Seq<WriteEvent>,
    told: Seq<bool>,
    steps: Seq<WriteStep<C, A, S>>,
) -> bool {
    &&& events.len() == steps.len()
    &&& told.len() == steps.len()
    &&& forall|i: int|
        0 <= i < steps.len() ==> relay::is_write_step(
            #[trigger] steps[i],
            events[i],
            handle,
            told[i],
        )
    &&& events.len() > 0 ==> events[0] is Started
    &&& forall|i: int|
        0 < i < steps.len() ==> write_admits(steps[i - 1], #[trigger] events[i])
}

/// The half that writes stops once, and does nothing after that. It says that the client is gone
/// unless the server is, or the client was never told that its connection is up.
pub proof fn law_writer_says_goodbye<C, A, S>(
    handle: usize,
    events: Seq<WriteEvent>,
    told: Seq<bool>,
    steps: Seq<WriteStep<C, A, S>>,
    i: int,
)
    requires
        writes(handle, events, told, steps),
        0 <= i < steps.len(),
        steps[i] is Finish || steps[i] is Disconnect || steps[i] is Abort,
    ensures
        i == steps.len() - 1,
        steps[i] is Disconnect ==> steps[i] == WriteStep::<C, A, S>::Disconnect(
            Queue::DisconnectFromProxyClient(handle),
        ),
        steps[i] is Disconnect ==> events[i] is WriteFailed || events[i] is PacketsClosed,
        steps[i] is Finish ==> (events[i] matches WriteEvent::Packet(packet) && packet@.len() == 0),
        steps[i] is Abort ==> events[i] is WriteFailed && !told[i],
{
    assert(relay::is_write_step(steps[i], events[i], handle, told[i]));
    if i < steps.len() - 1 {
        assert(write_admits(steps[i + 1 - 1], events[i + 1]));
    }
}

/// The client gets the word that its connection is up, then all that the server sent, in its
/// order, and nothing else.
pub proof fn law_client_gets_what_the_server_sent<C, A, S>(
    handle: usize,
    events: Seq<WriteEvent>,
    told: Seq<bool>,
    steps: Seq<WriteStep<C, A, S>>,
)
    requires
        writes(handle, events, told, steps),
        steps.len() > 0,
    ensures
        written(steps) == Reply::Succeeded.octets() + sent(events),
    decreases steps.len(),
{
    let last = steps.len() - 1;
    assert(relay::is_write_step(steps[last], events[last], handle, told[last]));
    if steps.len() == 1 {
        assert(steps.drop_last().len() == 0);
        assert(events[0] is Started);
        assert(sent(events.drop_last()) == Seq::<u8>::empty());
        assert(written(steps.drop_last()) == Seq::<u8>::empty());
    } else {
        assert(write_admits(steps[last - 1], events[last]));
        assert forall|i: int| 0 <= i < last implies relay::is_write_step(
            #[trigger] steps.drop_last()[i],
            events.drop_last()[i],
            handle,
            told.drop_last()[i],
        ) by {
            assert(relay::is_write_step(steps[i], events[i], handle, told[i]));
        }
        assert forall|i: int| 0 < i < last implies write_admits(
            steps.drop_last()[i - 1],
            #[trigger] events.drop_last()[i],
        ) by {
            assert(write_admits(steps[i - 1], events[i]));
        }
        law_client_gets_what_the_server_sent(
            handle,
            events.drop_last(),
            told.drop_last(),
            steps.drop_last(),
        );
    }
}

/// After each write the next octets of the server are waited for. The end of the server is taken
/// note of in silence, and the end of the client or of the way to it is told, unless the client was
/// never told that its connection is up.
pub proof fn law_writer_goes_on<C, A, S>(
    handle: usize,
    events: Seq<WriteEvent>,
    told: Seq<bool>,
    steps: Seq<WriteStep<C, A, S>>,
    i: int,
)
    requires
        writes(handle, events, told, steps),
        0 <= i < steps.len(),
    ensures
        events[i] is Written ==> steps[i] is AwaitPacket,
        events[i] is PacketsClosed ==> steps[i] is Disconnect,
        events[i] is WriteFailed && told[i] ==> steps[i] is Disconnect,
        events[i] is WriteFailed && !told[i] ==> steps[i] is Abort,
        events[i] matches WriteEvent::Packet(packet) ==> {
            &&& packet@.len() == 0 ==> steps[i] is Finish
            &&& packet@.len() > 0 ==> (steps[i] matches WriteStep::Write(data) && data@ == packet@)
        },
{
    assert(relay::is_write_step(steps[i], events[i], handle, told[i]));
}

/// A forwarded message names its connection, holds just what was read, and keeps the way to the
/// reader.
pub proof fn law_forwarded_message_is_the_clients<C, A, S>(
    step: ReadStep<C, A, S>,
    handle: usize,
    read: Seq<u8>,
    ack: A,
)
    requires
        relay::forwards(step, handle, read, ack),
    ensures
        step matches ReadStep::Forward(Queue::ReceiveFromProxyClient(to, data, way)) && to == handle
            && data@ == read && way == ack,
{
}

} // verus!
