use wgsocks::config::DNSConfig;
use wgsocks::config::Endpoint;
use wgsocks::config::SpecialDNSTypes;
use wgsocks::queue::Queue;
use wgsocks::socks::offers_no_authentication;
use wgsocks::socks::pick_ipv4;
use wgsocks::socks::ClientSocket;
use wgsocks::socks::OpenSocketResponse;
use wgsocks::socks::RefusedAddress;
use wgsocks::socks::Reply;
use wgsocks::socks::SocksError;
use wgsocks::socks::SocksEvent;
use wgsocks::socks::SocksFault;
use wgsocks::socks::Stage;
use wgsocks::socks::Wants;

const SYSTEM: Option<DNSConfig> = Some(DNSConfig::Special(SpecialDNSTypes::System));

fn read(data: &[u8]) -> SocksEvent {
    SocksEvent::Read(data.to_vec())
}

fn v4(octets: [u8; 4]) -> Endpoint {
    Endpoint::V4 { octets, port: 443 }
}

fn v6() -> Endpoint {
    Endpoint::V6 { segments: [0x2001, 0xdb8, 0, 0, 0, 0, 0, 1], port: 443, flowinfo: 0, scope_id: 0 }
}

/// A session whose client has greeted and been told the method.
fn greeted(dns: Option<DNSConfig>) -> Stage {
    let stage = Stage::Greeting;
    assert_eq!(stage.wants(), Wants::Read(2));
    let stage = stage.advance(dns, read(&[5, 2]));
    assert_eq!(stage.wants(), Wants::Read(2));
    let stage = stage.advance(dns, read(&[2, 0]));
    assert_eq!(stage.wants(), Wants::Write(Reply::MethodAccepted));
    let stage = stage.advance(dns, SocksEvent::Written);
    assert_eq!(stage.wants(), Wants::Read(4));
    stage
}

/// A session whose client has sent a domain name.
fn named(dns: Option<DNSConfig>, name: &[u8]) -> Stage {
    let stage = greeted(dns).advance(dns, read(&[5, 1, 0, 3]));
    assert_eq!(stage.wants(), Wants::Read(1));
    let stage = stage.advance(dns, read(&[name.len() as u8]));
    assert_eq!(stage.wants(), Wants::Read(name.len()));
    stage.advance(dns, read(name))
}

fn refused(stage: Stage, reason: RefusedAddress) {
    assert!(matches!(stage, Stage::Refusal(r) if r == reason));
    assert_eq!(stage.wants(), Wants::Write(Reply::AddressRefused));
    let stage = stage.advance(None, SocksEvent::Written);
    assert!(matches!(stage, Stage::Errored(SocksError::InvalidAddress)));
    assert_eq!(stage.wants(), Wants::Nothing);
}

fn faulted(stage: Stage, fault: SocksFault) {
    assert!(matches!(stage, Stage::Faulted(f) if f == fault));
    assert_eq!(stage.wants(), Wants::Nothing);
}

#[test]
fn replies_are_encoded() {
    assert_eq!(Reply::MethodAccepted.encode(), vec![5, 0]);
    assert_eq!(Reply::AddressRefused.encode(), vec![5, 3, 0, 1, 0, 0, 0, 0, 0, 0]);
    assert_eq!(Reply::ConnectFailed.encode(), vec![5, 1, 0, 1, 0, 0, 0, 0, 0, 0]);
    assert_eq!(Reply::Succeeded.encode(), vec![5, 0, 0, 1, 0, 0, 0, 0, 0, 0]);
}

#[test]
fn ipv4_address_is_opened() {
    let stage = greeted(None).advance(None, read(&[5, 1, 0, 1]));
    assert_eq!(stage.wants(), Wants::Read(4));
    let stage = stage.advance(None, read(&[192, 0, 2, 7]));
    assert_eq!(stage.wants(), Wants::Read(2));
    let stage = stage.advance(None, read(&[0x1f, 0x90]));
    assert_eq!(stage.wants(), Wants::Open);
    match stage.request::<&str, (), ClientSocket<()>>("answer") {
        Some(Queue::CreateTCPConnection(answer, addr, port)) => {
            assert_eq!((answer, addr, port), ("answer", [192, 0, 2, 7], 8080));
        },
        other => panic!("{:?}", other),
    }
    let stage = stage.advance(None, SocksEvent::Opened(OpenSocketResponse::Success(12)));
    assert!(matches!(stage, Stage::Linked(12, [192, 0, 2, 7], 8080)));
    assert_eq!(stage.wants(), Wants::Nothing);
}

#[test]
fn client_is_linked_to_its_connection() {
    let stage = Stage::Linked(12, [192, 0, 2, 7], 8080);
    match stage.link::<(), (), &str>(v4([127, 0, 0, 1]), "tx") {
        Some(Queue::LinkSocket(12, client)) => {
            assert_eq!((client.addr, client.port, client.tx), ([192, 0, 2, 7], 8080, "tx"));
            assert!(matches!(client.peer, Endpoint::V4 { octets: [127, 0, 0, 1], port: 443 }));
        },
        other => panic!("{:?}", other),
    }
    let stage = Stage::Opening([192, 0, 2, 7], 8080);
    assert!(stage.link::<(), (), &str>(v4([127, 0, 0, 1]), "tx").is_none());
}

#[test]
fn only_an_opening_stage_asks_for_a_connection() {
    assert!(Stage::Greeting.request::<(), (), ()>(()).is_none());
    assert!(Stage::Linked(1, [1, 2, 3, 4], 5).request::<(), (), ()>(()).is_none());
}

#[test]
fn domain_name_is_resolved_and_opened() {
    let stage = named(SYSTEM, b"example.net");
    assert_eq!(stage.wants(), Wants::Resolve);
    assert!(matches!(&stage, Stage::Lookup(name) if name == "example.net:443"));
    let addrs = vec![v6(), v4([198, 51, 100, 3]), v4([198, 51, 100, 4])];
    let stage = stage.advance(SYSTEM, SocksEvent::Resolved(Some(addrs)));
    assert!(matches!(stage, Stage::Port([198, 51, 100, 3])));
    let stage = stage.advance(SYSTEM, read(&[0, 80]));
    assert!(matches!(stage, Stage::Opening([198, 51, 100, 3], 80)));
}

#[test]
fn domain_name_may_hold_any_utf8() {
    let stage = named(SYSTEM, "例え.jp".as_bytes());
    assert!(matches!(&stage, Stage::Lookup(name) if name == "例え.jp:443"));
}

#[test]
fn empty_domain_name_is_looked_up() {
    let stage = named(SYSTEM, b"");
    assert!(matches!(&stage, Stage::Lookup(name) if name == ":443"));
}

#[test]
fn domain_name_without_a_resolver_is_refused() {
    refused(named(None, b"example.net"), RefusedAddress::NoResolver);
}

#[test]
fn domain_name_outside_utf8_is_refused() {
    refused(named(SYSTEM, &[0xff, 0xfe]), RefusedAddress::NotUtf8);
    refused(named(None, &[0xc0, 0x80]), RefusedAddress::NotUtf8);
    refused(named(SYSTEM, &[0xed, 0xa0, 0x80]), RefusedAddress::NotUtf8);
}

#[test]
fn unknown_domain_name_is_refused() {
    let stage = named(SYSTEM, b"example.net").advance(SYSTEM, SocksEvent::Resolved(None));
    refused(stage, RefusedAddress::Unresolved);
}

#[test]
fn domain_name_without_an_ipv4_address_is_refused() {
    let stage = named(SYSTEM, b"example.net");
    refused(
        stage.advance(SYSTEM, SocksEvent::Resolved(Some(vec![v6(), v6()]))),
        RefusedAddress::NoIpv4,
    );
    let stage = named(SYSTEM, b"example.net");
    refused(stage.advance(SYSTEM, SocksEvent::Resolved(Some(vec![]))), RefusedAddress::NoIpv4);
}

#[test]
fn ipv6_address_is_refused() {
    refused(greeted(SYSTEM).advance(SYSTEM, read(&[5, 1, 0, 4])), RefusedAddress::Ipv6);
}

#[test]
fn client_without_a_port_is_told() {
    let stage = Stage::Opening([192, 0, 2, 7], 8080);
    let stage = stage.advance(None, SocksEvent::Opened(OpenSocketResponse::FailureNoPort));
    assert_eq!(stage.wants(), Wants::Write(Reply::ConnectFailed));
    let stage = stage.advance(None, SocksEvent::Written);
    assert!(matches!(stage, Stage::Errored(SocksError::FailedToConnect)));
}

#[test]
fn errors_have_a_message() {
    assert_eq!(SocksError::InvalidAddress.message(), "Invalid address");
    assert_eq!(SocksError::FailedToConnect.message(), "Failed to connect");
}

#[test]
fn other_versions_are_given_up() {
    faulted(Stage::Greeting.advance(None, read(&[4, 1])), SocksFault::Version(4));
    faulted(greeted(None).advance(None, read(&[4, 1, 0, 1])), SocksFault::RequestVersion);
}

#[test]
fn client_that_authenticates_itself_is_given_up() {
    let stage = Stage::Greeting.advance(None, read(&[5, 2]));
    faulted(stage.advance(None, read(&[1, 2])), SocksFault::NoMethod);
    let stage = Stage::Greeting.advance(None, read(&[5, 0]));
    assert_eq!(stage.wants(), Wants::Read(0));
    faulted(stage.advance(None, read(&[])), SocksFault::NoMethod);
}

#[test]
fn malformed_requests_are_given_up() {
    faulted(greeted(None).advance(None, read(&[5, 2, 0, 1])), SocksFault::Command);
    faulted(greeted(None).advance(None, read(&[5, 1, 7, 1])), SocksFault::Reserved);
    faulted(greeted(None).advance(None, read(&[5, 1, 0, 2])), SocksFault::AddressType(2));
}

#[test]
fn version_is_looked_at_before_the_command() {
    faulted(greeted(None).advance(None, read(&[6, 9, 9, 9])), SocksFault::RequestVersion);
    faulted(greeted(None).advance(None, read(&[5, 9, 9, 9])), SocksFault::Command);
}

#[test]
fn failure_up_to_the_request_ends_the_session() {
    for stage in [Stage::Greeting, Stage::Methods(3), Stage::Choice, Stage::Request] {
        assert!(matches!(stage.advance(None, SocksEvent::Failed), Stage::IoError));
    }
}

#[test]
fn failure_after_the_request_gives_the_session_up() {
    let stages = vec![
        Stage::Ipv4,
        Stage::DomainLength,
        Stage::Domain(4),
        Stage::Refusal(RefusedAddress::Ipv6),
        Stage::Port([1, 2, 3, 4]),
        Stage::Failure,
    ];
    for stage in stages {
        faulted(stage.advance(None, SocksEvent::Failed), SocksFault::Io);
    }
}

#[test]
fn no_authentication_may_be_offered_anywhere() {
    assert!(offers_no_authentication(&vec![0]));
    assert!(offers_no_authentication(&vec![2, 1, 0]));
    assert!(!offers_no_authentication(&vec![2, 1, 255]));
    assert!(!offers_no_authentication(&vec![]));
}

#[test]
fn first_ipv4_address_is_picked() {
    assert_eq!(pick_ipv4(&vec![v6(), v4([1, 2, 3, 4]), v4([5, 6, 7, 8])]), Some([1, 2, 3, 4]));
    assert_eq!(pick_ipv4(&vec![v6()]), None);
}

#[test]
fn longest_session_sees_ten_events() {
    let events = vec![
        read(&[5, 1]),
        read(&[0]),
        SocksEvent::Written,
        read(&[5, 1, 0, 3]),
        read(&[1]),
        read(b"h"),
        SocksEvent::Resolved(Some(vec![v4([192, 0, 2, 1])])),
        read(&[1, 0]),
        SocksEvent::Opened(OpenSocketResponse::FailureNoPort),
        SocksEvent::Written,
    ];
    let mut stage = Stage::Greeting;
    for event in events {
        assert_ne!(stage.wants(), Wants::Nothing);
        stage = stage.advance(SYSTEM, event);
    }
    assert_eq!(stage.wants(), Wants::Nothing);
}
