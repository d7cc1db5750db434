//! What holds of the device over more than one of its steps.

use crate::tunnel;
use crate::tunnel::OutcomeView;
use crate::tunnel::HANDSHAKE_LEN;
use crate::tunnel::QUEUE_DEPTH;
use crate::tunnel::TunnModel;
use crate::tunnel::TunnelOutcome;
use crate::config;
use crate::config::Config;
use crate::wg_device;
use crate::wg_device::recv;
use crate::wg_device::recv::Burst;
use crate::wg_device::recv::RecvAction;
use crate::wg_device::SendAction;
use crate::wg_device::WGDevice;
use boringtun::noise::Tunn;
use vstd::prelude::*;

verus! {

/// A packet sent without a session is not lost while there is room for it: it waits behind those
/// that wait already. Where no handshake is under way, one is started.
pub proof fn law_packet_waits_for_a_session(
    tunnel: TunnModel,
    packet: Seq<u8>,
    room: nat,
    after: TunnModel,
    outcome: TunnelOutcome,
)
    requires
        tunnel.session is None,
        tunnel.waiting.len() < QUEUE_DEPTH,
        room >= HANDSHAKE_LEN,
        tunnel.encapsulates(packet, room, after, outcome),
    ensures
        after.waiting == tunnel.waiting.push(packet),
        after.handshake is Underway,
        outcome is Done <==> tunnel.handshake is Underway,
        tunnel.handshake !is Underway ==> outcome.initiates(),
{
}

/// Whether `tunnels` are the states of a tunnel, and `outcomes` what it asked for, while its
/// waiting packets are sent one after the other.
pub open spec fn drained(tunnels: Seq<Tunn>, room: nat, outcomes: Seq<TunnelOutcome>) -> bool {
    &&& tunnels.len() == outcomes.len() + 1
    &&& forall|i: int|
        0 <= i < outcomes.len() ==> tunnel::resumes(
            tunnels[i],
            room,
            tunnels[i + 1],
            #[trigger] outcomes[i],
        )
}

/// Once there is a session, the waiting packets are sent in the order in which they came, each
/// once and each in just the datagram that carries it; when all of them are sent, the datagram
/// that brought the session has been worked off.
pub proof fn law_waiting_packets_are_sent_in_order(
    tunnels: Seq<Tunn>,
    room: nat,
    outcomes: Seq<TunnelOutcome>,
    i: int,
)
    requires
        drained(tunnels, room, outcomes),
        tunnel::tunn_model(tunnels[0]).session is Some,
        0 <= i < outcomes.len(),
    ensures
        ({
            let first = tunnel::tunn_model(tunnels[0]);
            let now = tunnel::tunn_model(tunnels[i]);
            &&& now.session is Some
            &&& i <= first.waiting.len() ==> now.waiting == first.waiting.skip(i)
            &&& i < first.waiting.len() ==> outcomes[i]@ == OutcomeView::WriteToNetwork(
                tunnel::sealed(tunnels[i], first.waiting[i]),
            )
            &&& i < first.waiting.len() ==> outcomes[i].carries(
                first.waiting[i].len(),
                now.session->Some_0 as int,
            )
            &&& i == first.waiting.len() ==> recv::recv_action(outcomes[i]) is Finish
        }),
    decreases i,
{
    let first = tunnel::tunn_model(tunnels[0]);
    assert(tunnel::resumes(tunnels[i], room, tunnels[i + 1], outcomes[i]));
    if i > 0 {
        law_waiting_packets_are_sent_in_order(tunnels, room, outcomes, i - 1);
        assert(tunnel::resumes(tunnels[i - 1], room, tunnels[i - 1 + 1], outcomes[i - 1]));
        if i <= first.waiting.len() {
            assert(tunnel::tunn_model(tunnels[i - 1]).waiting.skip(1) == first.waiting.skip(i));
        }
    } else {
        assert(first.waiting.skip(0) == first.waiting);
    }
}

/// Whether `tunnels` are the states of a tunnel, and `outcomes` what it asked for, while `packets`
/// are sent one after the other, with buffers of `rooms` octets.
pub open spec fn sent(
    tunnels: Seq<Tunn>,
    packets: Seq<Seq<u8>>,
    rooms: Seq<nat>,
    outcomes: Seq<TunnelOutcome>,
) -> bool {
    &&& tunnels.len() == packets.len() + 1
    &&& outcomes.len() == packets.len()
    &&& forall|i: int|
        0 <= i < packets.len() ==> tunnel::seals(
            tunnels[i],
            packets[i],
            rooms[i],
            tunnels[i + 1],
            #[trigger] outcomes[i],
        )
}

/// In a session every packet goes into the tunnel once, in its turn: the packets are numbered one
/// after the other, none is left out and none is numbered that was not sent, and for each just the
/// datagram that carries it is to be sent. The numbers must not start anew on the way.
pub proof fn law_each_packet_is_sent_once(
    tunnels: Seq<Tunn>,
    packets: Seq<Seq<u8>>,
    rooms: Seq<nat>,
    outcomes: Seq<TunnelOutcome>,
    first: usize,
    i: int,
)
    requires
        sent(tunnels, packets, rooms, outcomes),
        tunnel::tunn_model(tunnels[0]).session == Some(first),
        first + packets.len() <= usize::MAX,
        0 <= i <= packets.len(),
    ensures
        tunnel::tunn_model(tunnels[i]).session == Some((first + i) as usize),
        tunnel::tunn_model(tunnels[i]).waiting == tunnel::tunn_model(tunnels[0]).waiting,
        i < packets.len() ==> outcomes[i].carries(packets[i].len(), first + i),
        i < packets.len() ==> outcomes[i]@ == OutcomeView::WriteToNetwork(
            tunnel::sealed(tunnels[i], packets[i]),
        ),
    decreases i,
{
    if i > 0 {
        law_each_packet_is_sent_once(tunnels, packets, rooms, outcomes, first, i - 1);
        assert(tunnel::seals(
            tunnels[i - 1],
            packets[i - 1],
            rooms[i - 1],
            tunnels[i - 1 + 1],
            outcomes[i - 1],
        ));
    }
    if i < packets.len() {
        assert(tunnel::seals(tunnels[i], packets[i], rooms[i], tunnels[i + 1], outcomes[i]));
    }
}

/// A response that the tunnel accepts lets the packets go that waited for the session: none of the
/// response is left to be worked off, and the steps that follow send these packets in the order in
/// which they came, each once and in just the datagram that carries it, until all are sent.
pub proof fn law_accepted_response_sends_what_waited(
    before: Tunn,
    response: Seq<u8>,
    answer: TunnelOutcome,
    tunnels: Seq<Tunn>,
    room: nat,
    outcomes: Seq<TunnelOutcome>,
    i: int,
)
    requires
        tunnel::is_response(response),
        tunnel::handles(before, response, tunnels[0], answer),
        answer is WriteToNetwork,
        drained(tunnels, room, outcomes),
        0 <= i < outcomes.len(),
    ensures
        ({
            let waiting = tunnel::tunn_model(before).waiting;
            &&& recv::still_pending(answer, response).len() == 0
            &&& i < waiting.len() ==> outcomes[i]@ == OutcomeView::WriteToNetwork(
                tunnel::sealed(tunnels[i], waiting[i]),
            )
            &&& i == waiting.len() ==> recv::recv_action(outcomes[i]) is Finish
        }),
{
    law_waiting_packets_are_sent_in_order(tunnels, room, outcomes, i);
}

/// The packets that come out of a tunnel, in the states `tunnels`, when it is handed `datagrams`.
pub open spec fn yields(tunnels: Seq<Tunn>, datagrams: Seq<Seq<u8>>) -> Seq<Seq<u8>>
    decreases datagrams.len(),
{
    if datagrams.len() == 0 {
        Seq::empty()
    } else {
        let last = datagrams.len() - 1;
        let before = yields(tunnels, datagrams.drop_last());
        match tunnel::yielded(tunnels[last], datagrams[last]) {
            Some(packet) => before.push(packet),
            None => before,
        }
    }
}

/// Whether `inbound` is what the stack has not taken, before and after each of `datagrams` was
/// handed to a tunnel in the states `tunnels`.
pub open spec fn received(
    tunnels: Seq<Tunn>,
    datagrams: Seq<Seq<u8>>,
    inbound: Seq<Seq<Seq<u8>>>,
) -> bool {
    &&& inbound.len() == datagrams.len() + 1
    &&& forall|i: int|
        0 <= i < datagrams.len() ==> inbound[i + 1] == match tunnel::yielded(
            tunnels[i],
            #[trigger] datagrams[i],
        ) {
            Some(packet) => inbound[i].push(packet),
            None => inbound[i],
        }
}

/// The stack gets exactly the IPv4 packets that the tunnel yields for the datagrams, octet for
/// octet and in the order in which the datagrams arrived.
pub proof fn law_stack_gets_what_the_tunnel_yields(
    tunnels: Seq<Tunn>,
    datagrams: Seq<Seq<u8>>,
    inbound: Seq<Seq<Seq<u8>>>,
)
    requires
        received(tunnels, datagrams, inbound),
    ensures
        inbound.last() == inbound[0] + yields(tunnels, datagrams),
    decreases datagrams.len(),
{
    if datagrams.len() > 0 {
        let last = datagrams.len() - 1;
        assert forall|i: int| 0 <= i < last implies inbound.drop_last()[i + 1]
            == match tunnel::yielded(tunnels[i], #[trigger] datagrams.drop_last()[i]) {
            Some(packet) => inbound.drop_last()[i].push(packet),
            None => inbound.drop_last()[i],
        } by {
            assert(datagrams[i] == datagrams.drop_last()[i]);
        }
        law_stack_gets_what_the_tunnel_yields(
            tunnels,
            datagrams.drop_last(),
            inbound.drop_last(),
        );
        assert(datagrams[last] == datagrams.last());
        assert(inbound[last + 1] == inbound.last());
    } else {
        assert(inbound[0] + yields(tunnels, datagrams) == inbound[0]);
    }
}

/// No packet is delivered twice: a datagram out of which a packet came, handed to the tunnel
/// again, yields none and has been worked off.
pub proof fn law_packet_is_delivered_once(
    tunnel: Tunn,
    datagram: Seq<u8>,
    outcome: TunnelOutcome,
)
    requires
        tunnel::is_data(datagram),
        tunnel::opened(tunnel, datagram).outcome is InvalidCounter,
        tunnel::asks(tunnel, datagram, outcome),
    ensures
        tunnel::yielded(tunnel, datagram) is None,
        recv::recv_action(outcome) is Finish,
{
    assert(datagram.take(4)[0] == 4);
}

/// The packets for the stack that came out of a tunnel that asked for `outcomes`.
pub open spec fn packets(outcomes: Seq<TunnelOutcome>) -> Seq<Seq<u8>>
    decreases outcomes.len(),
{
    if outcomes.len() == 0 {
        Seq::empty()
    } else {
        recv::delivered(outcomes.last(), packets(outcomes.drop_last()))
    }
}

/// The stack takes the packets in the order in which they came out of the tunnel: where it has
/// taken the first `taken` of them, the others are there, the next one in front, and another one
/// that comes out of the tunnel goes behind them.
pub proof fn law_packets_are_taken_in_order(
    outcomes: Seq<TunnelOutcome>,
    taken: int,
    next: TunnelOutcome,
)
    requires
        0 <= taken <= packets(outcomes).len(),
    ensures
        recv::delivered(next, packets(outcomes).skip(taken)) == packets(outcomes.push(next)).skip(
            taken,
        ),
        taken < packets(outcomes).len() ==> packets(outcomes).skip(taken)[0] == packets(
            outcomes,
        )[taken],
        taken < packets(outcomes).len() ==> packets(outcomes).skip(taken).skip(1) == packets(
            outcomes,
        ).skip(taken + 1),
{
    assert(outcomes.push(next).drop_last() == outcomes);
}

/// A datagram that made the tunnel answer is not handed to it again, whatever comes after; one
/// that did not stays pending.
pub proof fn law_answered_datagram_is_used_up(
    first: TunnelOutcome,
    second: TunnelOutcome,
    datagram: Seq<u8>,
)
    ensures
        first is WriteToNetwork ==> recv::still_pending(
            second,
            recv::still_pending(first, datagram),
        ).len() == 0,
        first !is WriteToNetwork ==> recv::still_pending(first, datagram) == datagram,
{
}

/// The packets that tokens handed out, one after the other, to be sent.
pub open spec fn handed_out(packets: Seq<Option<Vec<u8>>>) -> Seq<Seq<u8>>
    decreases packets.len(),
{
    if packets.len() == 0 {
        Seq::empty()
    } else {
        match packets.last() {
            Some(packet) => handed_out(packets.drop_last()).push(packet@),
            None => handed_out(packets.drop_last()),
        }
    }
}

/// What was left in the buffers of the tokens whose filling succeeded; `left` is what was left in
/// each of them.
pub open spec fn filled<R, E>(results: Seq<Result<R, E>>, left: Seq<Seq<u8>>) -> Seq<Seq<u8>>
    decreases results.len(),
{
    if results.len() == 0 {
        Seq::empty()
    } else if results.last() is Ok {
        filled(results.drop_last(), left).push(left[results.len() - 1])
    } else {
        filled(results.drop_last(), left)
    }
}

/// The packets to be sent are exactly what the successful fillings left in their buffers, in the
/// order in which the tokens were used, one packet each; a filling that failed leaves no trace.
pub proof fn law_successful_fillings_are_sent_in_order<R, E>(
    results: Seq<Result<R, E>>,
    left: Seq<Seq<u8>>,
    packets: Seq<Option<Vec<u8>>>,
)
    requires
        results.len() == packets.len(),
        forall|i: int|
            0 <= i < results.len() ==> (#[trigger] packets[i] is Some <==> results[i] is Ok),
        forall|i: int|
            0 <= i < results.len() && #[trigger] packets[i] is Some ==> packets[i]->Some_0@ == left[i],
    ensures
        handed_out(packets) == filled(results, left),
    decreases results.len(),
{
    if results.len() > 0 {
        assert(packets.last() == packets[results.len() - 1]);
        assert(forall|i: int|
            0 <= i < results.len() - 1 ==> #[trigger] packets.drop_last()[i] == packets[i]);
        law_successful_fillings_are_sent_in_order(
            results.drop_last(),
            left,
            packets.drop_last(),
        );
    }
}

/// Whatever datagram the tunnel asks to be sent is sent, octet for octet, and nothing else is: after
/// a packet went into the tunnel, after its timers were looked after, and after a datagram was
/// handed to it.
pub proof fn law_asked_for_datagrams_are_sent(outcome: TunnelOutcome)
    ensures
        match outcome {
            TunnelOutcome::WriteToNetwork(data) => {
                &&& wg_device::send_action(outcome) == SendAction::Send(data)
                &&& wg_device::timer_action(outcome) == SendAction::Send(data)
                &&& recv::recv_action(outcome) == RecvAction::Send(data)
            },
            _ => {
                &&& wg_device::send_action(outcome) !is Send
                &&& wg_device::timer_action(outcome) !is Send
                &&& recv::recv_action(outcome) !is Send
            },
        },
{
}

/// The timers pass in silence if and only if the tunnel asks for nothing; what else it asks for is
/// told as it is.
pub proof fn law_timers_hide_nothing(outcome: TunnelOutcome)
    ensures
        wg_device::timer_action(outcome) is Nothing <==> outcome is Done,
        wg_device::send_action(outcome) !is Nothing,
        wg_device::timer_action(outcome) matches SendAction::Report(told) ==> told == outcome,
        wg_device::send_action(outcome) matches SendAction::Report(told) ==> told == outcome,
{
}

/// Work on a datagram goes on if and only if the tunnel has something to send or a packet came out
/// of it, and a failure is told as it is.
pub proof fn law_datagram_is_worked_off_to_the_end(outcome: TunnelOutcome)
    ensures
        recv::recv_action(outcome) is Finish <==> outcome is Done || outcome is InvalidCounter,
        recv::recv_action(outcome) is Notify <==> outcome is WriteToTunnelV4,
        recv::recv_action(outcome) is Report <==> outcome is WriteToTunnelV6,
        recv::recv_action(outcome) is Fail <==> outcome is Failed,
        recv::recv_action(outcome) matches RecvAction::Report(told) ==> told == outcome,
        recv::recv_action(outcome) matches RecvAction::Fail(error) ==> outcome
            == TunnelOutcome::Failed(error),
{
}

/// An IPv4 packet that comes out of the tunnel goes, as it is, behind those that wait for the stack;
/// nothing else does.
pub proof fn law_ipv4_packets_go_to_the_stack(
    outcome: TunnelOutcome,
    inbound: Seq<Seq<u8>>,
)
    ensures
        outcome matches TunnelOutcome::WriteToTunnelV4(packet) ==> recv::delivered(outcome, inbound)
            == inbound + seq![packet@],
        outcome !is WriteToTunnelV4 ==> recv::delivered(outcome, inbound) == inbound,
{
}

/// A packet is yielded if and only if the datagram is a message that carries one, and the tunnel
/// asks that it be delivered as an IPv4 packet; it is that packet, of whatever length.
pub proof fn law_yielded_packet_is_the_tunnels(tunnel: Tunn, datagram: Seq<u8>, packet: Seq<u8>)
    ensures
        tunnel::yielded(tunnel, datagram) == Some(packet) <==> tunnel::is_data(datagram)
            && tunnel::opened(tunnel, datagram).outcome == OutcomeView::WriteToTunnelV4(packet),
{
}

/// A step with a message that carries an IPv4 packet hands that packet to the stack and tells the
/// main loop; a step with any other datagram hands it nothing.
pub proof fn law_step_delivers_what_the_tunnel_opens(
    before: WGDevice,
    burst: Burst,
    after: WGDevice,
    rest: Burst,
    action: RecvAction,
)
    requires
        wg_device::works_off(before, burst, after, rest, action),
    ensures
        match tunnel::opened(before.engine(), burst.pending()).outcome {
            OutcomeView::WriteToTunnelV4(packet) => tunnel::is_data(burst.pending()) ==> action
                is Notify && after.inbound() == before.inbound() + seq![packet],
            _ => action !is Notify && after.inbound() == before.inbound(),
        },
        action is Notify ==> after.inbound().len() == before.inbound().len() + 1,
        action !is Send ==> rest.pending() == burst.pending(),
        action is Send ==> rest.pending().len() == 0,
        burst.pending().len() > 0 ==> after.tunnel().waiting == before.tunnel().waiting,
{
}

/// The types and lengths of the messages are those of the protocol.
pub proof fn law_messages_are_those_of_the_protocol(datagram: Seq<u8>)
    ensures
        tunnel::is_data(datagram) <==> datagram.len() >= 32 && datagram[0] == 4 && datagram[1] == 0
            && datagram[2] == 0 && datagram[3] == 0,
        tunnel::is_initiation(datagram) <==> datagram.len() == 148 && datagram[0] == 1 && datagram[1]
            == 0 && datagram[2] == 0 && datagram[3] == 0,
        tunnel::is_response(datagram) <==> datagram.len() == 92 && datagram[0] == 2 && datagram[1]
            == 0 && datagram[2] == 0 && datagram[3] == 0,
        tunnel::is_message(datagram) && !tunnel::is_data(datagram) && !tunnel::is_initiation(
            datagram,
        ) && !tunnel::is_response(datagram) <==> datagram.len() == 64 && datagram[0] == 3
            && datagram[1] == 0 && datagram[2] == 0 && datagram[3] == 0,
{
    lemma_type_octets(datagram, 1);
    lemma_type_octets(datagram, 2);
    lemma_type_octets(datagram, 3);
    lemma_type_octets(datagram, 4);
}

/// A message is of a type if its first octets are, one by one.
proof fn lemma_type_octets(datagram: Seq<u8>, kind: u8)
    ensures
        tunnel::has_type(datagram, kind) <==> datagram.len() >= 4 && datagram[0] == kind
            && datagram[1] == 0 && datagram[2] == 0 && datagram[3] == 0,
{
    if datagram.len() >= 4 {
        let head = datagram.take(4);
        let typed = seq![kind, 0u8, 0u8, 0u8];
        assert(head[0] == datagram[0] && head[1] == datagram[1]);
        assert(head[2] == datagram[2] && head[3] == datagram[3]);
        assert(typed[0] == kind && typed[1] == 0 && typed[2] == 0 && typed[3] == 0);
        if datagram[0] == kind && datagram[1] == 0 && datagram[2] == 0 && datagram[3] == 0 {
            assert(head == typed);
        }
    }
}

/// The number of a packet has its eight octets in the message, the lowest one first, and every
/// number up to 1024 below the greatest one can be counted to.
pub proof fn law_numbers_are_written_low_octet_first(datagram: Seq<u8>)
    requires
        tunnel::is_data(datagram),
    ensures
        ({
            let n = tunnel::counter(datagram);
            &&& n % 0x100 == datagram[8]
            &&& n / 0x100 % 0x100 == datagram[9]
            &&& n / 0x1_0000 % 0x100 == datagram[10]
            &&& n / 0x100_0000 % 0x100 == datagram[11]
            &&& n / 0x1_0000_0000 % 0x100 == datagram[12]
            &&& n / 0x100_0000_0000 % 0x100 == datagram[13]
            &&& n / 0x1_0000_0000_0000 % 0x100 == datagram[14]
            &&& n / 0x100_0000_0000_0000 == datagram[15]
        }),
        tunnel::countable(datagram) <==> tunnel::counter(datagram) + 1024 <= u64::MAX,
{
    let n = tunnel::counter(datagram);
    let h7 = datagram[15] as int;
    let h6 = datagram[14] + 0x100 * h7;
    let h5 = datagram[13] + 0x100 * h6;
    let h4 = datagram[12] + 0x100 * h5;
    let h3 = datagram[11] + 0x100 * h4;
    let h2 = datagram[10] + 0x100 * h3;
    let h1 = datagram[9] + 0x100 * h2;
    let l2 = datagram[8] + 0x100 * datagram[9];
    let l3 = l2 + 0x1_0000 * datagram[10];
    let l4 = l3 + 0x100_0000 * datagram[11];
    let l5 = l4 + 0x1_0000_0000 * datagram[12];
    let l6 = l5 + 0x100_0000_0000 * datagram[13];
    let l7 = l6 + 0x1_0000_0000_0000 * datagram[14];
    lemma_quotient(n, 0x100, h1, datagram[8] as int);
    lemma_quotient(n, 0x1_0000, h2, l2);
    lemma_quotient(n, 0x100_0000, h3, l3);
    lemma_quotient(n, 0x1_0000_0000, h4, l4);
    lemma_quotient(n, 0x100_0000_0000, h5, l5);
    lemma_quotient(n, 0x1_0000_0000_0000, h6, l6);
    lemma_quotient(n, 0x100_0000_0000_0000, h7, l7);
    lemma_quotient(h1, 0x100, h2, datagram[9] as int);
    lemma_quotient(h2, 0x100, h3, datagram[10] as int);
    lemma_quotient(h3, 0x100, h4, datagram[11] as int);
    lemma_quotient(h4, 0x100, h5, datagram[12] as int);
    lemma_quotient(h5, 0x100, h6, datagram[13] as int);
    lemma_quotient(h6, 0x100, h7, datagram[14] as int);
}

/// A number that is made up of a multiple and less than one more has these as quotient and rest.
proof fn lemma_quotient(n: int, unit: int, high: int, low: int)
    requires
        n == unit * high + low,
        0 <= low < unit,
    ensures
        n / unit == high,
        n % unit == low,
{
    assert(unit * high == high * unit) by (nonlinear_arith);
    vstd::arithmetic::div_mod::lemma_fundamental_div_mod_converse(n, unit, high, low);
}

/// The tunnel is made of the keys that the configuration has for either end, and of nothing else.
pub proof fn law_tunnel_is_made_as_configured(config: Config)
    requires
        config::is_key(config.private_key@),
        config::is_key(config.peer.public_key@),
    ensures
        ({
            let made = wg_device::configured(config);
            &&& config::decoded(config.private_key@) == Some(made.private_key)
            &&& config::decoded(config.peer.public_key@) == Some(made.peer_key)
            &&& made.private_key.len() == 32 && made.peer_key.len() == 32
            &&& made.preshared_key is None && made.keepalive is None && made.index == 0
            &&& made.session is None && made.handshake is Idle && made.waiting.len() == 0
        }),
{
}

/// The buffer for a datagram is long enough for the datagram and for any packet that may be sent,
/// and as long as one of these takes.
pub proof fn law_buffer_is_long_enough(burst: Burst, longest: nat)
    ensures
        recv::room_for(burst, longest) >= burst.room(),
        recv::room_for(burst, longest) >= longest + 32,
        recv::room_for(burst, longest) == burst.room() || recv::room_for(burst, longest) == longest
            + 32,
{
}

/// The greater of two numbers is one of them, and neither is greater.
pub proof fn law_greater_is_an_upper_bound(a: nat, b: nat)
    ensures
        wg_device::greater(a, b) >= a,
        wg_device::greater(a, b) >= b,
        wg_device::greater(a, b) == a || wg_device::greater(a, b) == b,
{
}

/// The packets for the stack are seen octet for octet.
pub proof fn law_packets_are_seen_as_they_are(packets: Seq<Vec<u8>>, i: int)
    requires
        0 <= i < packets.len(),
    ensures
        recv::octets(packets).len() == packets.len(),
        recv::octets(packets)[i] == packets[i]@,
{
}

/// A packet can go into the tunnel if and only if it can be encrypted and its datagram held.
pub proof fn law_packet_lengths(len: nat)
    ensures
        wg_device::fits_tunnel(len) <==> len + 32 <= usize::MAX && len <= 274_877_906_880,
{
}

/// A step with a datagram does what the tunnel asks for when it is handed the datagram, whatever
/// its length and type: what is to be sent is sent, a failure is told by its name, and the tunnel is
/// left as that datagram leaves it.
pub proof fn law_step_does_what_the_tunnel_asks(
    before: WGDevice,
    burst: Burst,
    after: WGDevice,
    rest: Burst,
    action: RecvAction,
)
    requires
        wg_device::works_off(before, burst, after, rest, action),
        burst.pending().len() > 0,
    ensures
        match tunnel::opened(before.engine(), burst.pending()).outcome {
            OutcomeView::WriteToNetwork(data) => action matches RecvAction::Send(sent) && (if tunnel::is_initiation(
                burst.pending(),
            ) {
                tunnel::is_response(sent@)
            } else {
                sent@ == data
            }),
            OutcomeView::Done => action is Finish,
            OutcomeView::InvalidCounter => action is Finish,
            OutcomeView::Failed(error) => action matches RecvAction::Fail(told) && told@ == error,
            OutcomeView::WriteToTunnelV4(_) => action is Notify,
            OutcomeView::WriteToTunnelV6(packet) => action matches RecvAction::Report(told) && told@
                == OutcomeView::WriteToTunnelV6(packet),
        },
        after.tunnel() == tunnel::opened(before.engine(), burst.pending()).tunnel,
        after.configuration() == before.configuration(),
{
}

/// A step with nothing left of a datagram sends the packet that has waited longest, in a session
/// just in the datagram that carries it, and ends the work where none waits; the stack gets nothing
/// by it.
pub proof fn law_step_without_a_datagram_sends_what_waits(
    before: WGDevice,
    burst: Burst,
    after: WGDevice,
    rest: Burst,
    action: RecvAction,
)
    requires
        wg_device::works_off(before, burst, after, rest, action),
        burst.pending().len() == 0,
    ensures
        before.tunnel().waiting.len() == 0 ==> action is Finish && after.tunnel() == before.tunnel(),
        before.tunnel().waiting.len() > 0 && before.tunnel().session is Some ==> {
            &&& action matches RecvAction::Send(sent) && sent@ == tunnel::sealed(
                before.engine(),
                before.tunnel().waiting[0],
            )
            &&& seq![before.tunnel().waiting[0]] + after.tunnel().waiting == before.tunnel().waiting
        },
        after.inbound() == before.inbound(),
        rest.pending().len() == 0,
{
}

} // verus!
