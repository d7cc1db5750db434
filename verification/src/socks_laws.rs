//! What holds of a SOCKS session as a whole.

use crate::config::DNSConfig;
use crate::config::Endpoint;
use crate::socks;
use crate::socks::OpenSocketResponse;
use crate::socks::RefusedAddress;
use crate::socks::Reply;
use crate::socks::SocksError;
use crate::socks::SocksEventView;
use crate::socks::SocksFault;
use crate::socks::StageView;
use crate::socks::Wants;
use vstd::prelude::*;

verus! {

/// The stage that a session is in after `events`.
pub open spec fn reached(dns: Option<DNSConfig>, events: Seq<SocksEventView>) -> StageView
    decreases events.len(),
{
    if events.len() == 0 {
        StageView::Greeting
    } else {
        reached(dns, events.drop_last()).next(dns, events.last())
    }
}

/// Whether each of `events` can come of what the session wants at that time.
pub open spec fn possible(dns: Option<DNSConfig>, events: Seq<SocksEventView>) -> bool
    decreases events.len(),
{
    events.len() == 0 || (possible(dns, events.drop_last()) && reached(
        dns,
        events.drop_last(),
    ).admits(events.last()))
}

/// Whether `event` is the arrival of the `len` octets `data`.
pub open spec fn arrives(event: SocksEventView, data: Seq<u8>, len: nat) -> bool {
    event == SocksEventView::Read(data) && data.len() == len
}

/// Whether a client that sent `events` greeted with `count` methods, and sent nothing else.
pub open spec fn greeted(events: Seq<SocksEventView>, count: u8) -> bool {
    events.len() == 1 && arrives(events[0], seq![socks::VERSION, count], 2)
}

/// Whether a client that sent `events` went on with its methods, of which one is to need no
/// authentication.
pub open spec fn offered(events: Seq<SocksEventView>) -> bool {
    &&& events.len() == 2
    &&& events[1] matches SocksEventView::Read(methods)
    &&& methods.len() < 256
    &&& greeted(events.take(1), methods.len() as u8)
    &&& methods.contains(socks::NO_AUTHENTICATION)
}

/// Whether a client that sent `events` was told that it need not authenticate itself.
pub open spec fn chosen(events: Seq<SocksEventView>) -> bool {
    events.len() == 3 && offered(events.take(2)) && events[2] is Written
}

/// Whether a client that sent `events` went on with a request for a connection, to an address of
/// this type.
pub open spec fn asked(events: Seq<SocksEventView>, kind: u8) -> bool {
    &&& events.len() == 4
    &&& chosen(events.take(3))
    &&& arrives(events[3], seq![socks::VERSION, socks::CONNECT, 0u8, kind], 4)
}

/// Whether a client that sent `events` asked for a connection to the IPv4 address `addr`.
pub open spec fn gave_address(events: Seq<SocksEventView>, addr: Seq<u8>) -> bool {
    &&& events.len() == 5
    &&& asked(events.take(4), socks::TYPE_IPV4)
    &&& arrives(events[4], addr, 4)
}

/// Whether a client that sent `events` asked for a connection to the host `name`.
pub open spec fn gave_name(events: Seq<SocksEventView>, name: Seq<u8>) -> bool {
    &&& events.len() == 6
    &&& asked(events.take(4), socks::TYPE_DOMAIN)
    &&& arrives(events[4], seq![name.len() as u8], 1)
    &&& name.len() < 256
    &&& events[5] == SocksEventView::Read(name)
}

/// Whether `addr` is an IPv4 address, at the place `i` among `addrs`, and only IPv6 addresses stand
/// before it.
pub open spec fn is_first_ipv4(addrs: Seq<Endpoint>, i: int, addr: Seq<u8>) -> bool {
    &&& 0 <= i < addrs.len()
    &&& addrs[i] matches Endpoint::V4 { octets, .. } && octets@ == addr
    &&& forall|j: int| 0 <= j < i ==> #[trigger] addrs[j] is V6
}

/// Whether a client that sent `events` asked for a connection to a host whose first IPv4 address
/// was found to be `addr`.
pub open spec fn gave_host(
    dns: Option<DNSConfig>,
    events: Seq<SocksEventView>,
    addr: Seq<u8>,
) -> bool {
    &&& events.len() == 7
    &&& dns is Some
    &&& events[5] matches SocksEventView::Read(name)
    &&& gave_name(events.take(6), name)
    &&& vstd::utf8::valid_utf8(name)
    &&& events[6] matches SocksEventView::Resolved(Some(addrs))
    &&& exists|i: int| is_first_ipv4(addrs, i, addr)
}

/// Whether a client that sent `events` asked for a connection to `addr` and `port`.
pub open spec fn asked_for(
    dns: Option<DNSConfig>,
    events: Seq<SocksEventView>,
    addr: Seq<u8>,
    port: u16,
) -> bool {
    &&& gave_address(events.drop_last(), addr) || gave_host(dns, events.drop_last(), addr)
    &&& events.len() > 0
    &&& events.last() matches SocksEventView::Read(octets)
    &&& octets.len() == 2
    &&& port as int / 256 == octets[0]
    &&& port as int % 256 == octets[1]
}

/// How many events a session can still see.
pub open spec fn left(stage: StageView) -> int {
    match stage {
        StageView::Greeting => 10,
        StageView::Methods(_) => 9,
        StageView::Choice => 8,
        StageView::Request => 7,
        StageView::DomainLength => 6,
        StageView::Domain(_) => 5,
        StageView::Lookup(_) => 4,
        StageView::Ipv4 => 4,
        StageView::Port(_) => 3,
        StageView::Opening(..) => 2,
        StageView::Refusal(_) => 1,
        StageView::Failure => 1,
        _ => 0,
    }
}

proof fn lemma_greeting(dns: Option<DNSConfig>, events: Seq<SocksEventView>)
    requires
        possible(dns, events),
    ensures
        reached(dns, events) is Greeting <==> events.len() == 0,
{
}

proof fn lemma_methods(dns: Option<DNSConfig>, events: Seq<SocksEventView>, count: u8)
    ensures
        possible(dns, events) && reached(dns, events) == StageView::Methods(count) <==> greeted(
            events,
            count,
        ),
{
    if events.len() > 0 {
        let before = events.drop_last();
        if possible(dns, before) {
            lemma_greeting(dns, before);
        }
        if let SocksEventView::Read(data) = events.last() {
            if data.len() == 2 && data[0] == socks::VERSION {
                assert(data == seq![socks::VERSION, data[1]]);
            }
        }
    }
}

proof fn lemma_choice(dns: Option<DNSConfig>, events: Seq<SocksEventView>)
    ensures
        possible(dns, events) && reached(dns, events) is Choice <==> offered(events),
{
    if events.len() > 0 {
        let before = events.drop_last();
        if let StageView::Methods(count) = reached(dns, before) {
            lemma_methods(dns, before, count);
        }
        if let SocksEventView::Read(methods) = events.last() {
            lemma_methods(dns, before, methods.len() as u8);
            if events.len() == 2 {
                assert(events.take(1) == before);
            }
        }
        if events.len() == 2 {
            assert(before == events.take(1));
        }
        if possible(dns, events) && reached(dns, events) is Choice {
            assert(reached(dns, before) is Methods);
        }
    }
}

proof fn lemma_request(dns: Option<DNSConfig>, events: Seq<SocksEventView>)
    ensures
        possible(dns, events) && reached(dns, events) is Request <==> chosen(events),
{
    if events.len() > 0 {
        lemma_choice(dns, events.drop_last());
        if events.len() == 3 {
            assert(events.take(2) == events.drop_last());
        }
    }
}

proof fn lemma_asked(dns: Option<DNSConfig>, events: Seq<SocksEventView>)
    ensures
        possible(dns, events) && reached(dns, events) is Ipv4 <==> asked(events, socks::TYPE_IPV4),
        possible(dns, events) && reached(dns, events) is DomainLength <==> asked(
            events,
            socks::TYPE_DOMAIN,
        ),
{
    if events.len() > 0 {
        lemma_request(dns, events.drop_last());
        if events.len() == 4 {
            assert(events.take(3) == events.drop_last());
        }
        if let SocksEventView::Read(data) = events.last() {
            if data.len() == 4 && data[0] == socks::VERSION && data[1] == socks::CONNECT && data[2]
                == 0 {
                assert(data == seq![socks::VERSION, socks::CONNECT, 0u8, data[3]]);
            }
        }
    }
}

proof fn lemma_domain(dns: Option<DNSConfig>, events: Seq<SocksEventView>, len: u8)
    ensures
        possible(dns, events) && reached(dns, events) == StageView::Domain(len) <==> {
            &&& events.len() == 5
            &&& asked(events.take(4), socks::TYPE_DOMAIN)
            &&& arrives(events[4], seq![len], 1)
        },
{
    if events.len() > 0 {
        lemma_asked(dns, events.drop_last());
        if events.len() == 5 {
            assert(events.take(4) == events.drop_last());
        }
        if let SocksEventView::Read(data) = events.last() {
            if data.len() == 1 {
                assert(data == seq![data[0]]);
            }
        }
    }
}

proof fn lemma_lookup(dns: Option<DNSConfig>, events: Seq<SocksEventView>)
    ensures
        possible(dns, events) && reached(dns, events) is Lookup <==> {
            &&& dns is Some
            &&& events.len() == 6
            &&& events[5] matches SocksEventView::Read(name)
            &&& gave_name(events, name)
            &&& vstd::utf8::valid_utf8(name)
        },
{
    if events.len() > 0 {
        let before = events.drop_last();
        if let StageView::Domain(len) = reached(dns, before) {
            lemma_domain(dns, before, len);
        }
        if events.len() == 6 {
            assert(events.take(4) == before.take(4));
        }
        if let SocksEventView::Read(name) = events.last() {
            lemma_domain(dns, before, name.len() as u8);
        }
    }
}

proof fn lemma_port(dns: Option<DNSConfig>, events: Seq<SocksEventView>, addr: Seq<u8>)
    ensures
        possible(dns, events) && reached(dns, events) == StageView::Port(addr) <==> gave_address(
            events,
            addr,
        ) || gave_host(dns, events, addr),
{
    if events.len() > 0 {
        let before = events.drop_last();
        lemma_asked(dns, before);
        lemma_lookup(dns, before);
        if let SocksEventView::Resolved(Some(addrs)) = events.last() {
            law_first_ipv4_address_is_taken(addrs);
            assert forall|i: int| is_first_ipv4(addrs, i, addr) implies socks::first_ipv4(addrs)
                == Some(addr) by {
                lemma_first_ipv4_is_unique(addrs, i, addr);
            }
        }
        if events.len() == 5 {
            assert(events.take(4) == before);
        }
        if events.len() == 7 {
            assert(events.take(6) == before);
        }
    }
}

/// The address of a host is the first IPv4 address among those that were found, at whatever place
/// it stands and whatever stands behind it; there is none only where all of them are IPv6 addresses.
pub proof fn law_first_ipv4_address_is_taken(addrs: Seq<Endpoint>)
    ensures
        match socks::first_ipv4(addrs) {
            Some(addr) => exists|i: int| is_first_ipv4(addrs, i, addr),
            None => forall|i: int| 0 <= i < addrs.len() ==> #[trigger] addrs[i] is V6,
        },
    decreases addrs.len(),
{
    if addrs.len() > 0 {
        let rest = addrs.skip(1);
        law_first_ipv4_address_is_taken(rest);
        if addrs[0] is V6 {
            match socks::first_ipv4(addrs) {
                Some(addr) => {
                    let i = choose|i: int| is_first_ipv4(rest, i, addr);
                    assert forall|j: int| 0 <= j < i + 1 implies #[trigger] addrs[j] is V6 by {
                        if j > 0 {
                            assert(rest[j - 1] is V6);
                        }
                    }
                    assert(rest[i] == addrs[i + 1]);
                    assert(is_first_ipv4(addrs, i + 1, addr));
                },
                None => {
                    assert forall|i: int| 0 <= i < addrs.len() implies #[trigger] addrs[i] is V6 by {
                        if i > 0 {
                            assert(rest[i - 1] is V6);
                        }
                    }
                },
            }
        } else {
            assert(is_first_ipv4(addrs, 0, socks::first_ipv4(addrs)->Some_0));
        }
    }
}

/// A list of addresses has one first IPv4 address at most.
proof fn lemma_first_ipv4_is_unique(addrs: Seq<Endpoint>, i: int, addr: Seq<u8>)
    requires
        is_first_ipv4(addrs, i, addr),
    ensures
        socks::first_ipv4(addrs) == Some(addr),
{
    law_first_ipv4_address_is_taken(addrs);
    assert(addrs[i] is V4);
    let found = socks::first_ipv4(addrs)->Some_0;
    let k = choose|k: int| is_first_ipv4(addrs, k, found);
    assert(addrs[k] is V4);
    assert(k == i);
}

/// The first of the two octets of a port is its high octet, and the second its low octet.
pub proof fn law_port_is_read_high_octet_first(octets: Seq<u8>)
    requires
        octets.len() == 2,
    ensures
        socks::big_endian(octets) as int / 256 == octets[0],
        socks::big_endian(octets) as int % 256 == octets[1],
        forall|port: u16|
            #![trigger port as int / 256]
            port as int / 256 == octets[0] && port as int % 256 == octets[1] ==> port
                == socks::big_endian(octets),
{
}

/// Different octets stand for different ports.
pub proof fn law_ports_are_told_apart(a: Seq<u8>, b: Seq<u8>)
    requires
        a.len() == 2,
        b.len() == 2,
        socks::big_endian(a) == socks::big_endian(b),
    ensures
        a == b,
{
    law_port_is_read_high_octet_first(a);
    law_port_is_read_high_octet_first(b);
}

/// A connection to an address and a port is asked for if and only if the client greeted, offered
/// to go without authentication, and requested just that address, or a host that it was found to
/// be the first IPv4 address of, and just that port.
pub proof fn law_opens_what_was_asked_for(
    dns: Option<DNSConfig>,
    events: Seq<SocksEventView>,
    addr: Seq<u8>,
    port: u16,
)
    ensures
        possible(dns, events) && reached(dns, events) == StageView::Opening(addr, port)
            <==> asked_for(dns, events, addr, port),
{
    if events.len() > 0 {
        let before = events.drop_last();
        lemma_port(dns, before, addr);
        if let SocksEventView::Read(octets) = events.last() {
            if octets.len() == 2 {
                law_port_is_read_high_octet_first(octets);
            }
        }
    }
}

/// A session ends with a connection if and only if that connection was asked for, and came up
/// under the handle that the session ends with.
pub proof fn law_links_what_came_up(
    dns: Option<DNSConfig>,
    events: Seq<SocksEventView>,
    handle: usize,
    addr: Seq<u8>,
    port: u16,
)
    ensures
        possible(dns, events) && reached(dns, events) == StageView::Linked(handle, addr, port) <==> {
            &&& events.len() > 0
            &&& asked_for(dns, events.drop_last(), addr, port)
            &&& events.last() == SocksEventView::Opened(OpenSocketResponse::Success(handle))
        },
{
    if events.len() > 0 {
        law_opens_what_was_asked_for(dns, events.drop_last(), addr, port);
    }
}

/// A client whose address is refused is answered so, and then the session ends with an error: the
/// client's port is not read, and no connection is asked for.
pub proof fn law_refused_address_is_answered(dns: Option<DNSConfig>, stage: StageView)
    requires
        stage is Refusal,
    ensures
        stage.wants() == Wants::Write(Reply::AddressRefused),
        Reply::AddressRefused.octets() == seq![5u8, 3u8, 0u8, 1u8, 0u8, 0u8, 0u8, 0u8, 0u8, 0u8],
        stage.next(dns, SocksEventView::Written) == StageView::Errored(SocksError::InvalidAddress),
        StageView::Errored(SocksError::InvalidAddress).wants() is Nothing,
{
}

/// A client for whose connection there is no local port is answered so, and then the session ends
/// with an error.
pub proof fn law_failed_connection_is_answered(dns: Option<DNSConfig>, stage: StageView)
    requires
        stage is Opening,
    ensures
        ({
            let failed = stage.next(
                dns,
                SocksEventView::Opened(OpenSocketResponse::FailureNoPort),
            );
            &&& failed.wants() == Wants::Write(Reply::ConnectFailed)
            &&& failed.next(dns, SocksEventView::Written) == StageView::Errored(
                SocksError::FailedToConnect,
            )
        }),
        Reply::ConnectFailed.octets() == seq![5u8, 1u8, 0u8, 1u8, 0u8, 0u8, 0u8, 0u8, 0u8, 0u8],
        StageView::Errored(SocksError::FailedToConnect).wants() is Nothing,
{
}

/// A session ends after at most ten events, whatever they are.
pub proof fn law_session_ends(dns: Option<DNSConfig>, events: Seq<SocksEventView>)
    requires
        possible(dns, events),
    ensures
        events.len() + left(reached(dns, events)) <= 10,
        left(reached(dns, events)) == 0 <==> reached(dns, events).wants() is Nothing,
    decreases events.len(),
{
    if events.len() > 0 {
        law_session_ends(dns, events.drop_last());
    }
}

/// A client can tell the replies apart.
pub proof fn law_replies_differ(a: Reply, b: Reply)
    requires
        a.octets() == b.octets(),
    ensures
        a == b,
{
    assert(Reply::MethodAccepted.octets().len() == 2);
    assert(socks::answer(0).len() == 10 && socks::answer(0)[1] == 0);
    assert(socks::answer(1).len() == 10 && socks::answer(1)[1] == 1);
    assert(socks::answer(3).len() == 10 && socks::answer(3)[1] == 3);
}

/// What is said to a client is what the protocol has for it, octet for octet.
pub proof fn law_replies_are_those_of_the_protocol()
    ensures
        Reply::MethodAccepted.octets() == seq![5u8, 0u8],
        Reply::Succeeded.octets() == seq![5u8, 0u8, 0u8, 1u8, 0u8, 0u8, 0u8, 0u8, 0u8, 0u8],
        Reply::ConnectFailed.octets() == seq![5u8, 1u8, 0u8, 1u8, 0u8, 0u8, 0u8, 0u8, 0u8, 0u8],
        Reply::AddressRefused.octets() == seq![5u8, 3u8, 0u8, 1u8, 0u8, 0u8, 0u8, 0u8, 0u8, 0u8],
{
}

/// A greeting of version five is taken whatever the number of methods, and just as many methods
/// are then read; a greeting of another version gives the session up.
pub proof fn law_greeting_is_judged_by_its_version(dns: Option<DNSConfig>, greeting: Seq<u8>)
    requires
        greeting.len() == 2,
    ensures
        StageView::Greeting.wants() == Wants::Read(2),
        ({
            let next = StageView::Greeting.next(dns, SocksEventView::Read(greeting));
            &&& greeting[0] == 5 ==> next.wants() == Wants::Read(greeting[1] as usize) && next
                == StageView::Methods(greeting[1])
            &&& greeting[0] != 5 ==> next == StageView::Faulted(SocksFault::Version(greeting[0]))
        }),
{
}

/// A client is let in if and only if it offers to go without authentication, at whatever place
/// among its methods.
pub proof fn law_client_is_let_in_without_authentication(
    dns: Option<DNSConfig>,
    count: u8,
    methods: Seq<u8>,
)
    ensures
        ({
            let next = StageView::Methods(count).next(dns, SocksEventView::Read(methods));
            &&& next.wants() == Wants::Write(Reply::MethodAccepted) <==> exists|i: int|
                0 <= i < methods.len() && #[trigger] methods[i] == 0
            &&& next.wants() != Wants::Write(Reply::MethodAccepted) ==> next == StageView::Faulted(
                SocksFault::NoMethod,
            )
            &&& next.wants() == Wants::Write(Reply::MethodAccepted) ==> next.next(
                dns,
                SocksEventView::Written,
            ).wants() == Wants::Read(4)
        }),
{
}

/// A request is taken if and only if it is one for a connection: for each type of address, what is
/// read next is what such an address starts with. What else is wrong with it is told by the first
/// octet that is.
pub proof fn law_request_is_judged_octet_by_octet(dns: Option<DNSConfig>, request: Seq<u8>)
    requires
        request.len() == 4,
    ensures
        ({
            let next = StageView::Request.next(dns, SocksEventView::Read(request));
            &&& next is Ipv4 <==> request == seq![5u8, 1u8, 0u8, 1u8]
            &&& next is DomainLength <==> request == seq![5u8, 1u8, 0u8, 3u8]
            &&& next == StageView::Refusal(RefusedAddress::Ipv6) <==> request == seq![
                5u8,
                1u8,
                0u8,
                4u8,
            ]
            &&& next == StageView::Faulted(SocksFault::RequestVersion) <==> request[0] != 5
            &&& next == StageView::Faulted(SocksFault::Command) <==> request[0] == 5 && request[1]
                != 1
            &&& next == StageView::Faulted(SocksFault::Reserved) <==> request[0] == 5 && request[1]
                == 1 && request[2] != 0
            &&& next == StageView::Faulted(SocksFault::AddressType(request[3])) <==> request[0] == 5
                && request[1] == 1 && request[2] == 0 && request[3] != 1 && request[3] != 3
                && request[3] != 4
            &&& next is Ipv4 ==> next.wants() == Wants::Read(4)
            &&& next is DomainLength ==> next.wants() == Wants::Read(1)
        }),
{
    lemma_request_octets(request, 1);
    lemma_request_octets(request, 3);
    lemma_request_octets(request, 4);
}

/// A request for a connection is one whose octets are, one by one.
proof fn lemma_request_octets(request: Seq<u8>, kind: u8)
    requires
        request.len() == 4,
    ensures
        request == seq![5u8, 1u8, 0u8, kind] <==> request[0] == 5 && request[1] == 1 && request[2]
            == 0 && request[3] == kind,
{
    let asked = seq![5u8, 1u8, 0u8, kind];
    assert(asked[0] == 5 && asked[1] == 1 && asked[2] == 0 && asked[3] == kind);
    if request[0] == 5 && request[1] == 1 && request[2] == 0 && request[3] == kind {
        assert(request == asked);
    }
}

/// The octets of an IPv4 address are kept as they come, and the port is read next.
pub proof fn law_address_is_kept(dns: Option<DNSConfig>, octets: Seq<u8>, port: Seq<u8>)
    requires
        octets.len() == 4,
        port.len() == 2,
    ensures
        ({
            let next = StageView::Ipv4.next(dns, SocksEventView::Read(octets));
            let asked = next.next(dns, SocksEventView::Read(port));
            &&& next.wants() == Wants::Read(2)
            &&& asked matches StageView::Opening(addr, number) && addr == octets && number as int
                / 256 == port[0] && number as int % 256 == port[1]
        }),
{
    law_port_is_read_high_octet_first(port);
}

/// A domain name is looked up if and only if it is UTF-8 and names are resolved: just as many
/// octets are read as it is said to have, and what is looked up is the name, followed by the port
/// of HTTPS.
pub proof fn law_domain_name_is_looked_up(
    dns: Option<DNSConfig>,
    len: Seq<u8>,
    name: Seq<u8>,
)
    requires
        len.len() == 1,
    ensures
        ({
            let due = StageView::DomainLength.next(dns, SocksEventView::Read(len));
            let next = due.next(dns, SocksEventView::Read(name));
            &&& due.wants() == Wants::Read(len[0] as usize)
            &&& next is Lookup <==> vstd::utf8::valid_utf8(name) && dns is Some
            &&& next == StageView::Refusal(RefusedAddress::NotUtf8) <==> !vstd::utf8::valid_utf8(
                name,
            )
            &&& next == StageView::Refusal(RefusedAddress::NoResolver) <==> vstd::utf8::valid_utf8(
                name,
            ) && dns is None
            &&& next matches StageView::Lookup(text) ==> {
                &&& text.len() >= 4
                &&& vstd::utf8::encode_utf8(text.take(text.len() - 4)) == name
                &&& text.skip(text.len() - 4) == seq![':', '4', '4', '3']
            }
        }),
{
    reveal_strlit(":443");
    if vstd::utf8::valid_utf8(name) {
        let text = vstd::utf8::decode_utf8(name) + ":443"@;
        vstd::utf8::decode_utf8_encode_utf8(name);
        assert(text.take(text.len() - 4) == vstd::utf8::decode_utf8(name));
        assert(text.skip(text.len() - 4) == seq![':', '4', '4', '3']);
    }
}

/// A host that has an IPv4 address is connected to, at the first one; a host that has none, or
/// cannot be resolved, is refused.
pub proof fn law_host_with_an_ipv4_address_is_connected_to(
    dns: Option<DNSConfig>,
    name: Seq<char>,
    addrs: Seq<Endpoint>,
    next: StageView,
)
    requires
        next == StageView::Lookup(name).next(dns, SocksEventView::Resolved(Some(addrs))),
    ensures
        next is Port <==> exists|i: int| 0 <= i < addrs.len() && #[trigger] addrs[i] is V4,
        next matches StageView::Port(addr) ==> exists|i: int| is_first_ipv4(addrs, i, addr),
        next !is Port ==> next == StageView::Refusal(RefusedAddress::NoIpv4),
        StageView::Lookup(name).next(dns, SocksEventView::Resolved(None)) == StageView::Refusal(
            RefusedAddress::Unresolved,
        ),
{
    law_first_ipv4_address_is_taken(addrs);
    match socks::first_ipv4(addrs) {
        Some(addr) => {
            let i = choose|i: int| is_first_ipv4(addrs, i, addr);
            assert(addrs[i] is V4);
            assert(is_first_ipv4(addrs, i, next->Port_0));
        },
        None => {
            assert forall|i: int| 0 <= i < addrs.len() implies !(#[trigger] addrs[i] is V4) by {
                assert(addrs[i] is V6);
            }
        },
    }
}

/// A client that cannot be read from or written to ends the session with that error up to the
/// request, and has it given up after that.
pub proof fn law_lost_client_ends_the_session(dns: Option<DNSConfig>, stage: StageView)
    requires
        stage.admits(SocksEventView::Failed),
    ensures
        ({
            let next = stage.next(dns, SocksEventView::Failed);
            &&& next.wants() is Nothing
            &&& next is IoError <==> stage is Greeting || stage is Methods || stage is Choice
                || stage is Request
            &&& next !is IoError ==> next == StageView::Faulted(SocksFault::Io)
        }),
{
}

/// A name is resolved and a connection asked for in their stages, and nothing is wanted any more
/// when the session is over.
pub proof fn law_stages_want_what_they_are_for(stage: StageView)
    ensures
        stage.wants() is Resolve <==> stage is Lookup,
        stage.wants() is Open <==> stage is Opening,
        stage.wants() is Nothing <==> stage is Linked || stage is Errored || stage is IoError || stage
            is Faulted,
        stage is Choice ==> stage.wants() == Wants::Write(Reply::MethodAccepted),
        stage matches StageView::Methods(count) ==> stage.wants() == Wants::Read(count as usize),
        stage matches StageView::Domain(len) ==> stage.wants() == Wants::Read(len as usize),
        stage is Ipv4 || stage is Request ==> stage.wants() == Wants::Read(4),
        stage is Port || stage is Greeting ==> stage.wants() == Wants::Read(2),
        stage is DomainLength ==> stage.wants() == Wants::Read(1),
{
}

/// Whatever can come of what a stage wants is admitted: octets of just the wanted length, the end of
/// a write, any answer of the resolver and of the main loop, and the loss of the client.
pub proof fn law_stages_admit_what_can_come(
    stage: StageView,
    data: Seq<u8>,
    addrs: Option<Seq<Endpoint>>,
    response: OpenSocketResponse,
)
    ensures
        stage.admits(SocksEventView::Read(data)) <==> (stage.wants() matches Wants::Read(len)
            && data.len() == len),
        stage.admits(SocksEventView::Written) <==> stage.wants() is Write,
        stage.admits(SocksEventView::Failed) <==> stage.wants() is Read || stage.wants() is Write,
        stage.admits(SocksEventView::Resolved(addrs)) <==> stage.wants() is Resolve,
        stage.admits(SocksEventView::Opened(response)) <==> stage.wants() is Open,
{
}

} // verus!
