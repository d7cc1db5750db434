//! What holds of the main loop over more than one of its steps.

use crate::hub;
use crate::hub::Fate;
use crate::hub::Forward;
use crate::hub::HubView;
use crate::queue::Queue;
use crate::ports;
use crate::tcp;
use crate::tcp::StackError;
use crate::tcp::TcpState;
use vstd::prelude::*;

verus! {

/// No two connections use the same local port, and no port in use is free.
pub proof fn law_ports_are_not_shared(hub: HubView, g: usize, h: usize)
    requires
        hub.wf(),
        hub.ports.contains_key(g),
        hub.ports.contains_key(h),
        g != h,
    ensures
        hub.ports[g] != hub.ports[h],
        !hub.free.contains(hub.ports[g]),
{
}

/// The free ports and the connections together are as many as there are local ports.
pub proof fn law_ports_are_conserved(hub: HubView)
    requires
        hub.wf(),
    ensures
        hub.free.len() + hub.ports.dom().len() == ports::PORT_END - ports::FIRST_PORT,
        hub.free.len() + hub.ports.dom().len() == 16383,
{
    let count = (ports::PORT_END - ports::FIRST_PORT) as nat;
    let ascending = Seq::new(count, |i: int| (ports::FIRST_PORT + i) as u16);
    let used = hub.ports.dom().map(|h: usize| hub.ports[h]);
    vstd::set_lib::lemma_map_size(hub.ports.dom(), used, |h: usize| hub.ports[h]);
    hub.free.unique_seq_to_set();
    vstd::seq_lib::seq_to_set_is_finite(hub.free);
    vstd::seq_lib::seq_to_set_is_finite(ascending);
    ascending.unique_seq_to_set();
    assert forall|p: u16| #[trigger] used.contains(p) <==> hub.uses(p) by {
        if hub.uses(p) {
            let h = choose|h: usize| #[trigger] hub.ports.contains_key(h) && hub.ports[h] == p;
            assert(hub.ports.dom().contains(h));
        }
    }
    assert(hub.free.to_set().disjoint(used));
    assert forall|p: u16| #[trigger] ascending.to_set().contains(p) <==> ports::is_local_port(p) by {
        if ports::is_local_port(p) {
            assert(ascending[p - ports::FIRST_PORT] == p);
        }
    }
    assert(hub.free.to_set() + used == ascending.to_set()) by {
        assert forall|p: u16| #[trigger] (hub.free.to_set() + used).contains(p)
            <==> ascending.to_set().contains(p) by {
            assert(hub.free.to_set().contains(p) <==> hub.free.contains(p));
            assert(ports::is_local_port(p) ==> hub.free.contains(p) || hub.uses(p));
        }
    }
    vstd::set_lib::lemma_set_disjoint_lens(hub.free.to_set(), used);
}

/// A request for a connection is refused for want of a port only while every local port is used
/// by a connection.
pub proof fn law_refused_only_when_all_ports_are_used(hub: HubView, p: u16)
    requires
        hub.wf(),
        hub.free.len() == 0,
        ports::is_local_port(p),
    ensures
        hub.uses(p),
{
}

/// Opening a connection and giving it up leaves the connections as they were; its port is now
/// the last one to be handed out again.
pub proof fn law_release_undoes_open(hub: HubView, handle: usize)
    requires
        hub.wf(),
        hub.free.len() > 0,
        !hub.ports.contains_key(handle),
    ensures
        hub.opened(handle).released(handle).ports == hub.ports,
        hub.opened(handle).released(handle).free == hub.free.skip(1).push(hub.free[0]),
{
}

/// The ports of connections given up together are handed out again behind all ports that were
/// free, in the order in which the connections were given up; no other connection is touched.
pub proof fn law_released_ports_queue_up(hub: HubView, handles: Seq<usize>)
    requires
        handles.no_duplicates(),
        forall|i: int| 0 <= i < handles.len() ==> hub.ports.contains_key(#[trigger] handles[i]),
    ensures
        hub.released_all(handles).free == hub.free + handles.map_values(|h: usize| hub.ports[h]),
        hub.released_all(handles).ports == hub.ports.remove_keys(handles.to_set()),
    decreases handles.len(),
{
    if handles.len() == 0 {
        assert(hub.ports.remove_keys(handles.to_set()) == hub.ports);
    } else {
        let front = handles.drop_last();
        let last = handles.last();
        law_released_ports_queue_up(hub, front);
        assert(!front.contains(last));
        assert(!front.to_set().contains(last));
        assert(hub.released_all(front).ports[last] == hub.ports[last]);
        assert forall|h: usize| #[trigger] handles.to_set().contains(h) <==> front.to_set().contains(h)
            || h == last by {
            assert(handles == front.push(last));
            if front.contains(h) {
                let i = choose|i: int| 0 <= i < front.len() && front[i] == h;
                assert(handles[i] == h);
            }
            assert(handles[handles.len() - 1] == last);
        }
        assert(hub.ports.remove_keys(handles.to_set()) == hub.ports.remove_keys(
            front.to_set(),
        ).remove(last));
        assert(handles.map_values(|h: usize| hub.ports[h]) == front.map_values(
            |h: usize| hub.ports[h],
        ).push(hub.ports[last]));
    }
}

/// What a socket takes of a client's octets and what is queued again make up exactly those
/// octets, in their order, behind what the socket held before.
pub proof fn law_forwarding_loses_nothing(sock: tcp::TcpModel, data: Seq<u8>)
    requires
        sock.outgoing.len() <= sock.capacity,
    ensures
        sock.sending(data).outgoing + data.skip(tcp::accepted(sock, data.len())) == sock.outgoing
            + data,
        sock.sending(data).outgoing.len() <= sock.capacity,
        sock.sending(data).outgoing.len() < sock.capacity ==> sock.sending(data).outgoing
            == sock.outgoing + data,
{
}

/// A socket that can send takes at least one octet, so that octets queued again become fewer.
pub proof fn law_forwarding_makes_progress(sock: tcp::TcpModel, data: Seq<u8>)
    requires
        sock.can_send(),
        data.len() > 0,
    ensures
        data.skip(tcp::accepted(sock, data.len())).len() < data.len(),
{
}

/// The end of a round is asked for once; the next round may ask anew, under its own number.
pub proof fn law_poll_is_requested_once(hub: HubView)
    requires
        hub.cnt < u64::MAX,
    ensures
        hub.poll_requested().poll_request() is None,
        hub.poll_requested().next_round().poll_request() == Some((hub.cnt + 1) as u64),
{
}

/// A client is told once that its connection is up.
pub proof fn law_announced_once(
    hub: HubView,
    handle: usize,
    sock: tcp::TcpModel,
    later: tcp::TcpModel,
)
    requires
        hub.plan(handle, sock).announce,
    ensures
        !hub.swept(handle, sock).plan(handle, later).announce,
{
}

/// A new connection is not announced before its socket may receive, and then it is.
pub proof fn law_announced_when_up(hub: HubView, handle: usize, sock: tcp::TcpModel)
    ensures
        hub.opened(handle).plan(handle, sock).announce <==> sock.may_recv(),
{
}

/// A client that failed to take octets is offered none any more, whatever the socket holds; the
/// other clients are looked after as before.
pub proof fn law_failed_client_gets_nothing(
    hub: HubView,
    handle: usize,
    other: usize,
    sock: tcp::TcpModel,
)
    requires
        other != handle,
    ensures
        !hub.without_client(handle).plan(handle, sock).drain,
        hub.without_client(handle).plan(other, sock) == hub.plan(other, sock),
{
}

/// A new connection is served, whatever became of an earlier one under the same handle: its client
/// is offered the octets of the server whenever there are any.
pub proof fn law_new_connection_is_served(hub: HubView, handle: usize, sock: tcp::TcpModel)
    requires
        hub.wf(),
        !hub.ports.contains_key(handle),
    ensures
        hub.opened(handle).plan(handle, sock).drain <==> sock.can_recv(),
{
}

/// Closing the transmit half of a connection that has not come up ends it; otherwise what was
/// handed over before is kept, and nothing more is taken.
pub proof fn law_disconnect_keeps_what_was_sent(sock: tcp::TcpModel)
    ensures
        sock.closing().outgoing == sock.outgoing,
        sock.closing().incoming == sock.incoming,
        !sock.closing().may_send(),
        sock.state is SynSent ==> sock.closing().state is Closed,
        sock.state is Established ==> sock.closing().state is FinWait1,
        sock.state is CloseWait ==> sock.closing().state is LastAck,
{
}

/// Whether the client of the connection `handle` is offered octets depends only on whether there are
/// any, and on whether that client has failed: not on the state of the socket, and not on what the
/// connection was looked after for before.
pub proof fn law_octets_are_offered_in_every_state(
    hub: HubView,
    handle: usize,
    sock: tcp::TcpModel,
    later: tcp::TcpModel,
)
    ensures
        hub.plan(handle, sock).drain <==> sock.incoming.len() > 0 && !hub.client_disconnected.contains(
            handle,
        ),
        hub.swept(handle, sock).plan(handle, later).drain <==> later.incoming.len() > 0
            && !hub.client_disconnected.contains(handle),
        hub.next_round().plan(handle, sock).drain == hub.plan(handle, sock).drain,
        hub.poll_requested().plan(handle, sock).drain == hub.plan(handle, sock).drain,
{
}

/// A client that has not been told is told as soon as its connection is up, or octets of the server
/// are there; one that has been told is not told again.
pub proof fn law_client_is_told_when_octets_can_come(
    hub: HubView,
    handle: usize,
    sock: tcp::TcpModel,
)
    ensures
        hub.not_connected.contains(handle) && (sock.state is Established || sock.incoming.len() > 0)
            ==> hub.plan(handle, sock).announce,
        hub.not_connected.contains(handle) && (sock.state is FinWait1 || sock.state is FinWait2)
            ==> hub.plan(handle, sock).announce,
        hub.plan(handle, sock).announce ==> hub.not_connected.contains(handle),
        hub.plan(handle, sock).announce && sock.incoming.len() == 0 ==> sock.state is Established
            || sock.state is FinWait1 || sock.state is FinWait2,
{
}

/// A connection is over if and only if its socket is closed, whatever else is known of it.
pub proof fn law_closed_connection_is_over(hub: HubView, handle: usize, sock: tcp::TcpModel)
    ensures
        hub.plan(handle, sock).finished <==> sock.state is Closed,
{
}

/// Looking after a connection changes nothing but that its client has been told, if it has.
pub proof fn law_looking_after_one_leaves_the_others(
    hub: HubView,
    handle: usize,
    other: usize,
    sock: tcp::TcpModel,
    later: tcp::TcpModel,
)
    requires
        other != handle,
    ensures
        hub.swept(handle, sock).plan(other, later) == hub.plan(other, later),
        hub.swept(handle, sock) == (HubView {
            not_connected: hub.swept(handle, sock).not_connected,
            ..hub
        }),
        !hub.plan(handle, sock).announce ==> hub.swept(handle, sock) == hub,
        !hub.swept(handle, sock).not_connected.contains(handle) || !hub.plan(handle, sock).announce,
{
}

/// A failed client changes nothing but that it is known to have failed.
pub proof fn law_failure_concerns_one_client(hub: HubView, handle: usize, other: usize)
    requires
        other != handle,
    ensures
        hub.without_client(handle).client_disconnected.contains(handle),
        hub.without_client(handle).client_disconnected.contains(other)
            == hub.client_disconnected.contains(other),
        hub.without_client(handle) == (HubView {
            client_disconnected: hub.without_client(handle).client_disconnected,
            ..hub
        }),
{
}

/// A new connection gets the port that has been free longest, no other connection is touched, and
/// its client is still to be told.
pub proof fn law_open_takes_the_first_free_port(hub: HubView, handle: usize, other: usize)
    requires
        hub.free.len() > 0,
        other != handle,
    ensures
        ({
            let after = hub.opened(handle);
            &&& after.ports.contains_key(handle) && after.ports[handle] == hub.free[0]
            &&& seq![hub.free[0]] + after.free == hub.free
            &&& after.ports.contains_key(other) == hub.ports.contains_key(other)
            &&& hub.ports.contains_key(other) ==> after.ports[other] == hub.ports[other]
            &&& after.not_connected.contains(handle)
            &&& after.not_connected.contains(other) == hub.not_connected.contains(other)
            &&& after.client_disconnected == hub.client_disconnected
            &&& after.cnt == hub.cnt && after.have_force_poll == hub.have_force_poll
            &&& after.check_poll_at == hub.check_poll_at && after.should_block == hub.should_block
        }),
{
}

/// Giving up a connection touches no other connection, and the clients of the others stay as they
/// are.
pub proof fn law_release_leaves_the_others(hub: HubView, handle: usize, other: usize)
    requires
        hub.ports.contains_key(handle),
        other != handle,
    ensures
        ({
            let after = hub.released(handle);
            &&& !after.ports.contains_key(handle)
            &&& !after.client_disconnected.contains(handle)
            &&& after.free == hub.free + seq![hub.ports[handle]]
            &&& after.ports.contains_key(other) == hub.ports.contains_key(other)
            &&& hub.ports.contains_key(other) ==> after.ports[other] == hub.ports[other]
            &&& after.client_disconnected.contains(other) == hub.client_disconnected.contains(other)
            &&& after.not_connected == hub.not_connected
            &&& after.cnt == hub.cnt && after.have_force_poll == hub.have_force_poll
            &&& after.check_poll_at == hub.check_poll_at && after.should_block == hub.should_block
        }),
{
}

/// A round has the number that follows that of the round before, and nothing else is new in it but
/// that its end may be asked for.
pub proof fn law_rounds_follow_each_other(hub: HubView)
    requires
        hub.cnt < u64::MAX,
    ensures
        hub.next_round().cnt == hub.cnt + 1,
        hub.next_round().poll_request() == Some((hub.cnt + 1) as u64),
        hub.next_round() == (HubView {
            cnt: hub.next_round().cnt,
            have_force_poll: false,
            ..hub
        }),
        hub.poll_requested() == (HubView { have_force_poll: true, ..hub }),
        hub.poll_request() is Some <==> !hub.have_force_poll,
        hub.poll_request() matches Some(round) ==> round == hub.cnt,
{
}

/// The loop waits for just the deadline of the stack, unless it falls on a whole second; for a
/// second where there is none; and not at all where the stack was not asked.
pub proof fn law_loop_waits_for_the_deadline(hub: HubView, deadline: i64, now: i64)
    requires
        now + 1_000_000 <= i64::MAX,
    ensures
        hub.check_poll_at && deadline as int % 1_000_000 != 0 ==> hub.next_block(Some(deadline), now)
            == Some(deadline),
        hub.check_poll_at && deadline as int % 1_000_000 == 0 ==> hub.next_block(Some(deadline), now)
            is None,
        hub.check_poll_at ==> (hub.next_block(None, now) matches Some(until) && until - now
            == 1_000_000),
        !hub.check_poll_at ==> hub.next_block(Some(deadline), now) is None && hub.next_block(
            None,
            now,
        ) is None,
{
}

/// The distance of two instants leads from the earlier one to the later one, and is the same from
/// both sides.
pub proof fn law_distance_leads_to_the_later_instant(a: i64, b: i64)
    ensures
        hub::distance(a, b) >= 0,
        a <= b ==> a + hub::distance(a, b) == b,
        b <= a ==> b + hub::distance(a, b) == a,
        hub::distance(a, b) == hub::distance(b, a),
{
}

/// Octets are lost if and only if the transmit half of the connection is not open; what an open one
/// does not take is queued again, and all of it is taken where it fits.
pub proof fn law_octets_are_lost_only_by_a_closed_connection(sock: tcp::TcpModel, data: Seq<u8>)
    requires
        sock.outgoing.len() <= sock.capacity,
    ensures
        hub::fate(sock, data) is Lost <==> sock.state !is Established && sock.state !is CloseWait,
        hub::fate(sock, data) is Lost ==> hub::taken(sock, data).len() == 0,
        hub::fate(sock, data) matches Fate::Left(rest) ==> hub::taken(sock, data) + rest == data,
        hub::fate(sock, data) is Sent ==> hub::taken(sock, data) == data,
        hub::fate(sock, data) is Left ==> sock.outgoing.len() + hub::taken(sock, data).len()
            == sock.capacity,
{
}

/// A message that is queued again names its connection, holds just the octets that are left, and
/// keeps the way to the reader; the end of the round that is queued before it is the one asked for.
pub proof fn law_requeued_message_holds_what_is_left<C, A, S>(
    named: Option<u64>,
    to: usize,
    data: Vec<u8>,
    way: A,
    poll: Option<u64>,
    handle: usize,
    rest: Seq<u8>,
    ack: A,
)
    requires
        hub::is_requeue(
            Forward::<C, A, S>::Requeue {
                poll: named,
                message: Queue::ReceiveFromProxyClient(to, data, way),
            },
            poll,
            handle,
            rest,
            ack,
        ),
    ensures
        named == poll,
        to == handle,
        data@ == rest,
        way == ack,
{
}

/// That the stack may have changed is told just as it says; a failure to poll is told by its kind,
/// unless a packet was not recognized, and then nothing has changed.
pub proof fn law_poll_is_told_as_it_went(changed: bool, error: smoltcp::Error)
    ensures
        hub::poll_report(Ok(changed)).readiness_changed == changed,
        hub::poll_report(Ok(changed)).error is None,
        !hub::poll_report(Err(error)).readiness_changed,
        hub::poll_report(Err(error)).error is None <==> tcp::error_kind(error)
            == StackError::Unrecognized,
        hub::poll_report(Err(error)).error matches Some(kind) ==> kind == tcp::error_kind(error),
{
}

/// The local ports are those from 49152 up to 65534.
pub proof fn law_local_ports(p: u16)
    ensures
        ports::is_local_port(p) <==> 49152 <= p <= 65534,
{
}

/// Which halves of a connection are open depends on its state as TCP has it.
pub proof fn law_open_halves(sock: tcp::TcpModel)
    ensures
        sock.may_send() <==> sock.state == TcpState::Established || sock.state
            == TcpState::CloseWait,
        sock.may_recv() <==> sock.state == TcpState::Established || sock.state == TcpState::FinWait1
            || sock.state == TcpState::FinWait2 || sock.incoming.len() > 0,
        sock.can_send() <==> sock.may_send() && sock.outgoing.len() < sock.capacity,
        sock.can_recv() <==> sock.incoming.len() > 0,
{
}

/// A new socket is closed and empty, knows no peer, and has room for 16384 octets either way.
pub proof fn law_new_socket_has_room_both_ways()
    ensures
        ({
            let sock = tcp::unused_socket(hub::BUFFER_LEN as nat, hub::BUFFER_LEN as nat);
            &&& sock.state is Closed
            &&& sock.incoming.len() == 0 && sock.room == 16384
            &&& sock.outgoing.len() == 0 && sock.capacity == 16384
            &&& sock.remote is None && sock.local_port == 0
        }),
{
}

/// A socket that connects goes to just the address and the port it was told, from just the local
/// port it was told, with its queues empty and as roomy as before.
pub proof fn law_connecting_goes_where_it_is_told(
    sock: tcp::TcpModel,
    addr: Seq<u8>,
    port: u16,
    local_port: u16,
)
    ensures
        ({
            let after = sock.connecting(addr, port, local_port);
            &&& after.remote == Some((addr, port)) && after.local_port == local_port
            &&& after.state is SynSent
            &&& after.incoming.len() == 0 && after.room == sock.room
            &&& after.outgoing.len() == 0 && after.capacity == sock.capacity
        }),
        tcp::is_addressable(addr, port) <==> addr[0] != 0 && port != 0,
{
}

/// A full order of the local ports holds each of them, from 49152 up to 65534, and each once.
pub proof fn law_full_order_holds_each_port_once(order: Seq<u16>, p: u16, i: int, j: int)
    requires
        ports::is_full_order(order),
    ensures
        order.contains(p) <==> 49152 <= p <= 65534,
        0 <= i < order.len() && 0 <= j < order.len() && order[i] == order[j] ==> i == j,
{
}

} // verus!
