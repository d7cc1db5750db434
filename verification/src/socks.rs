//! The SOCKS server: what is said to a client until its connection is up, after RFC 1928.
//!
//! A session is in one stage at a time. A stage wants one thing to be done (octets to be read, a
//! reply to be written, a name to be resolved, a connection to be opened), and what comes of it
//! leads to the next stage.

use crate::config::DNSConfig;
use crate::config::Endpoint;
use crate::queue::Queue;
use vstd::prelude::*;

verus! {

/// The version of the protocol.
pub const VERSION: u8 = 5;

/// The method "no authentication required".
pub const NO_AUTHENTICATION: u8 = 0;

/// The command to open a connection.
pub const CONNECT: u8 = 1;

/// The type of an IPv4 address.
pub const TYPE_IPV4: u8 = 1;

/// The type of a domain name.
pub const TYPE_DOMAIN: u8 = 3;

/// The type of an IPv6 address.
pub const TYPE_IPV6: u8 = 4;

/// A client whose connection is up.
#[derive(Debug)]
pub struct ClientSocket<T> {
    /// Where the client is.
    pub peer: Endpoint,
    /// The address that it is connected to.
    pub addr: [u8; 4],
    /// The port that it is connected to.
    pub port: u16,
    /// Where the octets go that come from the server.
    pub tx: T,
}

/// What became of the request for a connection.
#[derive(Clone, Copy, Debug, PartialEq, Eq, Structural)]
pub enum OpenSocketResponse {
    /// There was no local port for it.
    FailureNoPort,
    /// It is up, under this handle.
    Success(usize),
}

/// What is written to a client.
#[derive(Clone, Copy, Debug, PartialEq, Eq, Structural)]
pub enum Reply {
    /// No authentication is required.
    MethodAccepted,
    /// The address cannot be reached.
    AddressRefused,
    /// The connection cannot be opened.
    ConnectFailed,
    /// The connection is up.
    Succeeded,
}

/// Why a session ended with an error.
#[derive(Clone, Copy, Debug, PartialEq, Eq, Structural)]
pub enum SocksError {
    /// The client asked for an address that cannot be reached.
    InvalidAddress,
    /// The connection could not be opened.
    FailedToConnect,
}

/// Why a session is given up at once.
#[derive(Clone, Copy, Debug, PartialEq, Eq, Structural)]
pub enum SocksFault {
    /// The client speaks this version of the protocol.
    Version(u8),
    /// The client wants to authenticate itself.
    NoMethod,
    /// The request is of another version than the greeting.
    RequestVersion,
    /// The client asks for something other than a connection.
    Command,
    /// The reserved octet is not zero.
    Reserved,
    /// The address is of this type.
    AddressType(u8),
    /// The client could not be read from or written to.
    Io,
}

/// Why an address is refused.
#[derive(Clone, Copy, Debug, PartialEq, Eq, Structural)]
pub enum RefusedAddress {
    /// It is an IPv6 address.
    Ipv6,
    /// It is a domain name that is not UTF-8.
    NotUtf8,
    /// It is a domain name, and names are not resolved.
    NoResolver,
    /// It is a domain name that could not be resolved.
    Unresolved,
    /// It is a domain name that no IPv4 address belongs to.
    NoIpv4,
}

/// What a stage wants to be done.
#[derive(Clone, Copy, Debug, PartialEq, Eq, Structural)]
pub enum Wants {
    /// Exactly this many octets of the client.
    Read(usize),
    /// A reply to the client.
    Write(Reply),
    /// A name to be resolved.
    Resolve,
    /// A connection to be opened.
    Open,
    /// Nothing: the session is over.
    Nothing,
}

/// What came of what a stage wanted.
#[derive(Debug)]
pub enum SocksEvent {
    /// The client's octets.
    Read(Vec<u8>),
    /// The reply was written.
    Written,
    /// The client could not be read from or written to.
    Failed,
    /// The addresses that the name was resolved to, if it was.
    Resolved(Option<Vec<Endpoint>>),
    /// The answer to the request for a connection.
    Opened(OpenSocketResponse),
}

/// What came of what a stage wanted, in plain values.
pub enum SocksEventView {
    Read(Seq<u8>),
    Written,
    Failed,
    Resolved(Option<Seq<Endpoint>>),
    Opened(OpenSocketResponse),
}

impl View for SocksEvent {
    type V = SocksEventView;

    open spec fn view(&self) -> SocksEventView {
        match *self {
            SocksEvent::Read(data) => SocksEventView::Read(data@),
            SocksEvent::Written => SocksEventView::Written,
            SocksEvent::Failed => SocksEventView::Failed,
            SocksEvent::Resolved(Some(addrs)) => SocksEventView::Resolved(Some(addrs@)),
            SocksEvent::Resolved(None) => SocksEventView::Resolved(None),
            SocksEvent::Opened(response) => SocksEventView::Opened(response),
        }
    }
}

/// A stage of a session.
#[derive(Debug)]
pub enum Stage {
    /// The client's greeting is due.
    Greeting,
    /// As many of the client's methods are due.
    Methods(u8),
    /// The client is to be told the method.
    Choice,
    /// The client's request is due.
    Request,
    /// The octets of an IPv4 address are due.
    Ipv4,
    /// The length of a domain name is due.
    DomainLength,
    /// A domain name of this length is due.
    Domain(u8),
    /// This name, with a port, is to be resolved.
    Lookup(String),
    /// The client is to be told that the address is refused.
    Refusal(RefusedAddress),
    /// The port is due; this is the address.
    Port([u8; 4]),
    /// A connection to this address and port is to be opened.
    Opening([u8; 4], u16),
    /// The client is to be told that the connection cannot be opened.
    Failure,
    /// The connection to this address and port is up, under this handle.
    Linked(usize, [u8; 4], u16),
    /// The session is over, with this error.
    Errored(SocksError),
    /// The session is over, with the error of reading from or writing to the client.
    IoError,
    /// The session is given up.
    Faulted(SocksFault),
}

/// A stage of a session, in plain values.
pub enum StageView {
    Greeting,
    Methods(u8),
    Choice,
    Request,
    Ipv4,
    DomainLength,
    Domain(u8),
    Lookup(Seq<char>),
    Refusal(RefusedAddress),
    Port(Seq<u8>),
    Opening(Seq<u8>, u16),
    Failure,
    Linked(usize, Seq<u8>, u16),
    Errored(SocksError),
    IoError,
    Faulted(SocksFault),
}

impl View for Stage {
    type V = StageView;

    open spec fn view(&self) -> StageView {
        match *self {
            Stage::Greeting => StageView::Greeting,
            Stage::Methods(count) => StageView::Methods(count),
            Stage::Choice => StageView::Choice,
            Stage::Request => StageView::Request,
            Stage::Ipv4 => StageView::Ipv4,
            Stage::DomainLength => StageView::DomainLength,
            Stage::Domain(len) => StageView::Domain(len),
            Stage::Lookup(name) => StageView::Lookup(name@),
            Stage::Refusal(reason) => StageView::Refusal(reason),
            Stage::Port(addr) => StageView::Port(addr@),
            Stage::Opening(addr, port) => StageView::Opening(addr@, port),
            Stage::Failure => StageView::Failure,
            Stage::Linked(handle, addr, port) => StageView::Linked(handle, addr@, port),
            Stage::Errored(error) => StageView::Errored(error),
            Stage::IoError => StageView::IoError,
            Stage::Faulted(fault) => StageView::Faulted(fault),
        }
    }
}

/// The octets of the answer to a request, with this code in it: no address and no port are given.
pub open spec fn answer(code: u8) -> Seq<u8> {
    seq![VERSION, code, 0u8, TYPE_IPV4, 0u8, 0u8, 0u8, 0u8, 0u8, 0u8]
}

impl Reply {
    /// What is written.
    pub open spec fn octets(self) -> Seq<u8> {
        match self {
            Reply::MethodAccepted => seq![VERSION, NO_AUTHENTICATION],
            Reply::AddressRefused => answer(3),
            Reply::ConnectFailed => answer(1),
            Reply::Succeeded => answer(0),
        }
    }

    /// What is to be written.
    pub fn encode(&self) -> (r: Vec<u8>)
        ensures
            r@ == self.octets(),
    {
        match self {
            Reply::MethodAccepted => vec![VERSION, NO_AUTHENTICATION],
            Reply::AddressRefused => vec![VERSION, 3, 0, TYPE_IPV4, 0, 0, 0, 0, 0, 0],
            Reply::ConnectFailed => vec![VERSION, 1, 0, TYPE_IPV4, 0, 0, 0, 0, 0, 0],
            Reply::Succeeded => vec![VERSION, 0, 0, TYPE_IPV4, 0, 0, 0, 0, 0, 0],
        }
    }
}

impl SocksError {
    /// The error in words.
    pub fn message(&self) -> (r: &'static str)
        ensures
            r@ == (match self {
                SocksError::InvalidAddress => "Invalid address"@,
                SocksError::FailedToConnect => "Failed to connect"@,
            }),
    {
        match self {
            SocksError::InvalidAddress => "Invalid address",
            SocksError::FailedToConnect => "Failed to connect",
        }
    }
}

/// The first IPv4 address among `addrs`.
pub open spec fn first_ipv4(addrs: Seq<Endpoint>) -> Option<Seq<u8>>
    decreases addrs.len(),
{
    if addrs.len() == 0 {
        None
    } else {
        match addrs[0] {
            Endpoint::V4 { octets, .. } => Some(octets@),
            Endpoint::V6 { .. } => first_ipv4(addrs.skip(1)),
        }
    }
}

/// The number that two octets stand for, the more significant one first.
pub open spec fn big_endian(octets: Seq<u8>) -> u16 {
    (octets[0] * 256 + octets[1]) as u16
}

/// The stage that a request leads to.
pub open spec fn requested(request: Seq<u8>) -> StageView {
    if request[0] != VERSION {
        StageView::Faulted(SocksFault::RequestVersion)
    } else if request[1] != CONNECT {
        StageView::Faulted(SocksFault::Command)
    } else if request[2] != 0 {
        StageView::Faulted(SocksFault::Reserved)
    } else if request[3] == TYPE_IPV4 {
        StageView::Ipv4
    } else if request[3] == TYPE_DOMAIN {
        StageView::DomainLength
    } else if request[3] == TYPE_IPV6 {
        StageView::Refusal(RefusedAddress::Ipv6)
    } else {
        StageView::Faulted(SocksFault::AddressType(request[3]))
    }
}

/// The stage that a domain name leads to. It is resolved together with a port, which is that of
/// HTTPS whatever the client will ask for.
pub open spec fn named(name: Seq<u8>, dns: Option<DNSConfig>) -> StageView {
    if !vstd::utf8::valid_utf8(name) {
        StageView::Refusal(RefusedAddress::NotUtf8)
    } else if dns is None {
        StageView::Refusal(RefusedAddress::NoResolver)
    } else {
        StageView::Lookup(vstd::utf8::decode_utf8(name) + ":443"@)
    }
}

/// The stage that the addresses of a domain name lead to.
pub open spec fn resolved(addrs: Option<Seq<Endpoint>>) -> StageView {
    match addrs {
        None => StageView::Refusal(RefusedAddress::Unresolved),
        Some(addrs) => match first_ipv4(addrs) {
            None => StageView::Refusal(RefusedAddress::NoIpv4),
            Some(addr) => StageView::Port(addr),
        },
    }
}

impl StageView {
    /// What the stage wants.
    pub open spec fn wants(self) -> Wants {
        match self {
            StageView::Greeting => Wants::Read(2),
            StageView::Methods(count) => Wants::Read(count as usize),
            StageView::Choice => Wants::Write(Reply::MethodAccepted),
            StageView::Request => Wants::Read(4),
            StageView::Ipv4 => Wants::Read(4),
            StageView::DomainLength => Wants::Read(1),
            StageView::Domain(len) => Wants::Read(len as usize),
            StageView::Lookup(_) => Wants::Resolve,
            StageView::Refusal(_) => Wants::Write(Reply::AddressRefused),
            StageView::Port(_) => Wants::Read(2),
            StageView::Opening(..) => Wants::Open,
            StageView::Failure => Wants::Write(Reply::ConnectFailed),
            _ => Wants::Nothing,
        }
    }

    /// Whether `event` can come of what the stage wants.
    pub open spec fn admits(self, event: SocksEventView) -> bool {
        match self.wants() {
            Wants::Read(len) => match event {
                SocksEventView::Read(data) => data.len() == len,
                event => event is Failed,
            },
            Wants::Write(_) => event is Written || event is Failed,
            Wants::Resolve => event is Resolved,
            Wants::Open => event is Opened,
            Wants::Nothing => false,
        }
    }

    /// The stage that a client leads to that cannot be read from or written to. Up to the request
    /// the session ends; after it, it is given up.
    pub open spec fn failed(self) -> StageView {
        if self is Greeting || self is Methods || self is Choice || self is Request {
            StageView::IoError
        } else {
            StageView::Faulted(SocksFault::Io)
        }
    }

    /// The next stage.
    pub open spec fn next(self, dns: Option<DNSConfig>, event: SocksEventView) -> StageView {
        match (self, event) {
            (_, SocksEventView::Failed) => self.failed(),
            (StageView::Greeting, SocksEventView::Read(data)) => if data[0] != VERSION {
                StageView::Faulted(SocksFault::Version(data[0]))
            } else {
                StageView::Methods(data[1])
            },
            (StageView::Methods(_), SocksEventView::Read(data)) => if data.contains(
                NO_AUTHENTICATION,
            ) {
                StageView::Choice
            } else {
                StageView::Faulted(SocksFault::NoMethod)
            },
            (StageView::Choice, SocksEventView::Written) => StageView::Request,
            (StageView::Request, SocksEventView::Read(data)) => requested(data),
            (StageView::Ipv4, SocksEventView::Read(data)) => StageView::Port(data),
            (StageView::DomainLength, SocksEventView::Read(data)) => StageView::Domain(data[0]),
            (StageView::Domain(_), SocksEventView::Read(data)) => named(data, dns),
            (StageView::Lookup(_), SocksEventView::Resolved(addrs)) => resolved(addrs),
            (StageView::Refusal(_), SocksEventView::Written) => StageView::Errored(
                SocksError::InvalidAddress,
            ),
            (StageView::Port(addr), SocksEventView::Read(data)) => StageView::Opening(
                addr,
                big_endian(data),
            ),
            (
                StageView::Opening(..),
                SocksEventView::Opened(OpenSocketResponse::FailureNoPort),
            ) => StageView::Failure,
            (
                StageView::Opening(addr, port),
                SocksEventView::Opened(OpenSocketResponse::Success(handle)),
            ) => StageView::Linked(handle, addr, port),
            (StageView::Failure, SocksEventView::Written) => StageView::Errored(
                SocksError::FailedToConnect,
            ),
            _ => self,
        }
    }
}

/// `String::from_utf8`: the text that `octets` encode, or nothing where they are not UTF-8.
#[verifier::external_body]
fn text(octets: Vec<u8>) -> (r: Option<String>)
    ensures
        r is Some <==> vstd::utf8::valid_utf8(octets@),
        r matches Some(s) ==> s@ == vstd::utf8::decode_utf8(octets@),
{
    String::from_utf8(octets).ok()
}

/// Whether a client that offers `methods` need not authenticate itself.
pub fn offers_no_authentication(methods: &Vec<u8>) -> (r: bool)
    ensures
        r == methods@.contains(NO_AUTHENTICATION),
{
    let mut i: usize = 0;
    while i < methods.len()
        invariant
            i <= methods@.len(),
            forall|j: int| 0 <= j < i ==> methods@[j] != NO_AUTHENTICATION,
        decreases methods@.len() - i,
    {
        if methods[i] == NO_AUTHENTICATION {
            return true;
        }
        i = i + 1;
    }
    false
}

/// The first IPv4 address among `addrs`.
pub fn pick_ipv4(addrs: &Vec<Endpoint>) -> (r: Option<[u8; 4]>)
    ensures
        r is Some <==> first_ipv4(addrs@) is Some,
        r matches Some(addr) ==> addr@ == first_ipv4(addrs@)->Some_0,
        r is None <==> forall|i: int| 0 <= i < addrs@.len() ==> #[trigger] addrs@[i] is V6,
        r matches Some(addr) ==> exists|i: int|
            {
                &&& 0 <= i < addrs@.len()
                &&& #[trigger] addrs@[i] matches Endpoint::V4 { octets, .. } && octets == addr
                &&& forall|j: int| 0 <= j < i ==> #[trigger] addrs@[j] is V6
            },
{
    let mut i: usize = 0;
    assert(addrs@.skip(0) == addrs@);
    while i < addrs.len()
        invariant
            i <= addrs@.len(),
            first_ipv4(addrs@.skip(i as int)) == first_ipv4(addrs@),
            forall|j: int| 0 <= j < i ==> #[trigger] addrs@[j] is V6,
        decreases addrs@.len() - i,
    {
        match addrs[i] {
            Endpoint::V4 { octets, .. } => return Some(octets),
            Endpoint::V6 { .. } => {},
        }
        assert(addrs@.skip(i as int).skip(1) == addrs@.skip(i + 1));
        i = i + 1;
    }
    None
}

/// The stage that a request leads to.
fn after_request(request: &Vec<u8>) -> (r: Stage)
    requires
        request@.len() == 4,
    ensures
        r@ == requested(request@),
{
    if request[0] != VERSION {
        Stage::Faulted(SocksFault::RequestVersion)
    } else if request[1] != CONNECT {
        Stage::Faulted(SocksFault::Command)
    } else if request[2] != 0 {
        Stage::Faulted(SocksFault::Reserved)
    } else if request[3] == TYPE_IPV4 {
        Stage::Ipv4
    } else if request[3] == TYPE_DOMAIN {
        Stage::DomainLength
    } else if request[3] == TYPE_IPV6 {
        Stage::Refusal(RefusedAddress::Ipv6)
    } else {
        Stage::Faulted(SocksFault::AddressType(request[3]))
    }
}

/// The stage that a domain name leads to.
fn after_name(name: Vec<u8>, dns: Option<DNSConfig>) -> (r: Stage)
    ensures
        r@ == named(name@, dns),
{
    match text(name) {
        None => Stage::Refusal(RefusedAddress::NotUtf8),
        Some(name) => match dns {
            None => Stage::Refusal(RefusedAddress::NoResolver),
            Some(_) => Stage::Lookup(name.concat(":443")),
        },
    }
}

/// The stage that the addresses of a domain name lead to.
fn after_lookup(addrs: Option<Vec<Endpoint>>) -> (r: Stage)
    ensures
        r@ == resolved(SocksEvent::Resolved(addrs)@->Resolved_0),
{
    match addrs {
        None => Stage::Refusal(RefusedAddress::Unresolved),
        Some(addrs) => match pick_ipv4(&addrs) {
            None => Stage::Refusal(RefusedAddress::NoIpv4),
            Some(addr) => Stage::Port(addr),
        },
    }
}

impl Stage {
    /// What the stage wants.
    pub fn wants(&self) -> (r: Wants)
        ensures
            r == self@.wants(),
    {
        match self {
            Stage::Greeting => Wants::Read(2),
            Stage::Methods(count) => Wants::Read(*count as usize),
            Stage::Choice => Wants::Write(Reply::MethodAccepted),
            Stage::Request => Wants::Read(4),
            Stage::Ipv4 => Wants::Read(4),
            Stage::DomainLength => Wants::Read(1),
            Stage::Domain(len) => Wants::Read(*len as usize),
            Stage::Lookup(_) => Wants::Resolve,
            Stage::Refusal(_) => Wants::Write(Reply::AddressRefused),
            Stage::Port(_) => Wants::Read(2),
            Stage::Opening(..) => Wants::Open,
            Stage::Failure => Wants::Write(Reply::ConnectFailed),
            _ => Wants::Nothing,
        }
    }

    /// The stage that a client leads to that cannot be read from or written to.
    fn after_failure(&self) -> (r: Stage)
        ensures
            r@ == self@.failed(),
    {
        match self {
            Stage::Greeting => Stage::IoError,
            Stage::Methods(_) => Stage::IoError,
            Stage::Choice => Stage::IoError,
            Stage::Request => Stage::IoError,
            _ => Stage::Faulted(SocksFault::Io),
        }
    }

    /// The next stage, where domain names are resolved as `dns` says.
    pub fn advance(self, dns: Option<DNSConfig>, event: SocksEvent) -> (r: Stage)
        requires
            self@.admits(event@),
        ensures
            r@ == self@.next(dns, event@),
            (self@, event@) matches (StageView::Port(addr), SocksEventView::Read(octets)) ==> (r@
                matches StageView::Opening(to, port) && to == addr && port as int / 256
                == octets[0] && port as int % 256 == octets[1]),
    {
        match (self, event) {
            (stage, SocksEvent::Failed) => stage.after_failure(),
            (Stage::Greeting, SocksEvent::Read(data)) => if data[0] != VERSION {
                Stage::Faulted(SocksFault::Version(data[0]))
            } else {
                Stage::Methods(data[1])
            },
            (Stage::Methods(_), SocksEvent::Read(data)) => if offers_no_authentication(&data) {
                Stage::Choice
            } else {
                Stage::Faulted(SocksFault::NoMethod)
            },
            (Stage::Choice, SocksEvent::Written) => Stage::Request,
            (Stage::Request, SocksEvent::Read(data)) => after_request(&data),
            (Stage::Ipv4, SocksEvent::Read(data)) => {
                let addr: [u8; 4] = [data[0], data[1], data[2], data[3]];
                assert(addr@ == data@);
                Stage::Port(addr)
            },
            (Stage::DomainLength, SocksEvent::Read(data)) => Stage::Domain(data[0]),
            (Stage::Domain(_), SocksEvent::Read(data)) => after_name(data, dns),
            (Stage::Lookup(_), SocksEvent::Resolved(addrs)) => after_lookup(addrs),
            (Stage::Refusal(_), SocksEvent::Written) => Stage::Errored(SocksError::InvalidAddress),
            (Stage::Port(addr), SocksEvent::Read(data)) => Stage::Opening(
                addr,
                data[0] as u16 * 256 + data[1] as u16,
            ),
            (Stage::Opening(addr, port), SocksEvent::Opened(response)) => match response {
                OpenSocketResponse::FailureNoPort => Stage::Failure,
                OpenSocketResponse::Success(handle) => Stage::Linked(handle, addr, port),
            },
            (Stage::Failure, SocksEvent::Written) => Stage::Errored(SocksError::FailedToConnect),
            (stage, _) => stage,
        }
    }

    /// The message that asks for the connection that the stage wants, if it wants one; `answer`
    /// is the way in which the session is told what became of it.
    pub fn request<C, A, S>(&self, answer: C) -> (r: Option<Queue<C, A, S>>)
        ensures
            match *self {
                Stage::Opening(addr, port) => r == Some(
                    Queue::<C, A, S>::CreateTCPConnection(answer, addr, port),
                ),
                _ => r is None,
            },
    {
        match self {
            Stage::Opening(addr, port) => Some(Queue::CreateTCPConnection(answer, *addr, *port)),
            _ => None,
        }
    }

    /// The message that links the client to its connection, if it is up; `peer` is where the
    /// client is, and `tx` where the octets go that come from the server.
    pub fn link<C, A, T>(&self, peer: Endpoint, tx: T) -> (r: Option<
        Queue<C, A, ClientSocket<T>>,
    >)
        ensures
            match *self {
                Stage::Linked(handle, addr, port) => r == Some(
                    Queue::<C, A, ClientSocket<T>>::LinkSocket(
                        handle,
                        (ClientSocket { peer, addr, port, tx }),
                    ),
                ),
                _ => r is None,
            },
    {
        match self {
            Stage::Linked(handle, addr, port) => Some(
                Queue::LinkSocket(*handle, ClientSocket { peer, addr: *addr, port: *port, tx }),
            ),
            _ => None,
        }
    }
}

} // verus!
