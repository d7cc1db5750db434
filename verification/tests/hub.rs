use smoltcp::iface::Interface;
use smoltcp::iface::InterfaceBuilder;
use smoltcp::iface::SocketHandle;
use smoltcp::phy::Loopback;
use smoltcp::phy::Medium;
use smoltcp::socket::TcpSocket;
use smoltcp::socket::TcpSocketBuffer;
use smoltcp::time::Instant;
use smoltcp::wire::IpAddress;
use smoltcp::wire::IpCidr;
use wgsocks::hub::Flow;
use wgsocks::hub::Forward;
use wgsocks::hub::Hub;
use wgsocks::hub::PollReport;
use wgsocks::hub::SweepPlan;
use wgsocks::hub::Wait;
use wgsocks::ports::PortPool;
use wgsocks::queue::Queue;
use wgsocks::socks::OpenSocketResponse;
use wgsocks::tcp::StackError;
use wgsocks::tcp::TcpState;

type Message = Queue<(), u32, ()>;

type Outcome = Forward<(), u32, ()>;

const HERE: [u8; 4] = [127, 0, 0, 1];

const PORT: u16 = 8080;

fn all_ports() -> Vec<u16> {
    (49152..65535).collect()
}

fn hub() -> Hub {
    Hub::new(PortPool::from_order(all_ports()))
}

fn stack() -> Interface<'static, Loopback> {
    InterfaceBuilder::new(Loopback::new(Medium::Ip), vec![])
        .ip_addrs([IpCidr::new(IpAddress::v4(127, 0, 0, 1), 8)])
        .finalize()
}

fn server(iface: &mut Interface<'static, Loopback>) -> SocketHandle {
    let mut sock = TcpSocket::new(
        TcpSocketBuffer::new(vec![0; 65536]),
        TcpSocketBuffer::new(vec![0; 65536]),
    );
    sock.listen(PORT).unwrap();
    iface.add_socket(sock)
}

fn settle(iface: &mut Interface<'static, Loopback>, clock: &mut i64) {
    for _ in 0..50 {
        *clock += 20_000;
        let _ = iface.poll(Instant::from_micros(*clock));
    }
}

fn open(
    hub: &mut Hub,
    iface: &mut Interface<'static, Loopback>,
    id: usize,
    addr: [u8; 4],
    port: u16,
) -> (SocketHandle, Result<u16, StackError>) {
    let sock = match hub.create_tcp_connection() {
        Ok(sock) => sock,
        Err(response) => panic!("{:?}", response),
    };
    let handle = iface.add_socket(sock);
    let (sock, cx) = iface.get_socket_and_context::<TcpSocket>(handle);
    let result = hub.open_connection(id, sock, cx, addr, port);
    (handle, result)
}

#[test]
fn rounds_are_numbered() {
    let mut hub = hub();
    assert_eq!(hub.round(), 0);
    hub.begin_round();
    assert_eq!(hub.round(), 1);
    assert!(matches!(hub.receive_from_boringtun(), Some(Message::ForcePoll(1))));
    assert!(matches!(hub.receive_from_boringtun::<(), u32, ()>(), None));
    assert_eq!(hub.force_poll(0), Flow::Continue);
    assert_eq!(hub.force_poll(1), Flow::Poll);
    hub.begin_round();
    assert!(matches!(hub.receive_from_boringtun(), Some(Message::ForcePoll(2))));
    assert_eq!(hub.force_poll(1), Flow::Continue);
}

#[test]
fn loop_waits_until_the_deadline() {
    let mut hub = hub();
    assert_eq!(hub.next_wait(0), Wait::Immediate);
    assert!(hub.wants_deadline());
    hub.end_round(Some(5_250_000), 5_000_000);
    assert!(!hub.wants_deadline());
    assert_eq!(hub.deadline(), Some(5_250_000));
    assert_eq!(hub.next_wait(5_000_001), Wait::Timeout(249_999));
    assert_eq!(hub.next_wait(5_000_001), Wait::Immediate);
}

#[test]
fn deadline_that_is_past_is_waited_for_as_long() {
    let mut hub = hub();
    hub.end_round(Some(5_250_000), 5_000_000);
    assert_eq!(hub.next_wait(5_250_040), Wait::Timeout(40));
}

#[test]
fn deadline_on_a_whole_second_is_not_waited_for() {
    let mut hub = hub();
    hub.end_round(Some(7_000_000), 5_000_000);
    assert_eq!(hub.next_wait(5_000_000), Wait::Immediate);
    assert_eq!(hub.queue_empty(), Flow::Poll);
    hub.end_round(Some(0), 5_000_000);
    assert_eq!(hub.next_wait(5_000_000), Wait::Immediate);
}

#[test]
fn loop_waits_a_second_without_a_deadline() {
    let mut hub = hub();
    hub.end_round(None, 5_000_000);
    assert_eq!(hub.next_wait(5_000_000), Wait::Timeout(1_000_000));
}

#[test]
fn loop_does_not_wait_when_something_changed() {
    let mut hub = hub();
    hub.end_round(None, 0);
    hub.begin_round();
    assert_eq!(
        hub.poll_finished(Ok(true)),
        PollReport { readiness_changed: true, error: None },
    );
    assert!(!hub.wants_deadline());
    hub.end_round(None, 0);
    assert_eq!(hub.next_wait(0), Wait::Immediate);
    assert_eq!(
        hub.poll_finished(Ok(false)),
        PollReport { readiness_changed: false, error: None },
    );
    assert!(hub.wants_deadline());
}

#[test]
fn unrecognized_packet_is_not_told() {
    let mut hub = hub();
    assert_eq!(
        hub.poll_finished(Err(smoltcp::Error::Unrecognized)),
        PollReport { readiness_changed: false, error: None },
    );
}

#[test]
fn errors_of_the_stack_are_told() {
    let mut hub = hub();
    let cases = vec![
        (smoltcp::Error::Exhausted, StackError::Exhausted),
        (smoltcp::Error::Illegal, StackError::Illegal),
        (smoltcp::Error::Unaddressable, StackError::Unaddressable),
        (smoltcp::Error::Finished, StackError::Finished),
        (smoltcp::Error::Truncated, StackError::Truncated),
        (smoltcp::Error::Checksum, StackError::Checksum),
        (smoltcp::Error::Fragmented, StackError::Fragmented),
        (smoltcp::Error::Malformed, StackError::Malformed),
        (smoltcp::Error::Dropped, StackError::Dropped),
        (smoltcp::Error::NotSupported, StackError::NotSupported),
    ];
    for (error, kind) in cases {
        assert_eq!(
            hub.poll_finished(Err(error)),
            PollReport { readiness_changed: false, error: Some(kind) },
        );
    }
}

#[test]
fn connection_is_announced_once_when_it_is_up() {
    let mut hub = hub();
    let mut iface = stack();
    let mut clock = 1_000;
    server(&mut iface);
    let (handle, opened) = open(&mut hub, &mut iface, 7, HERE, PORT);
    assert_eq!(opened, Ok(49152));
    assert!(hub.contains_connection(7));
    assert!(!hub.contains_connection(8));
    let sock = iface.get_socket::<TcpSocket>(handle);
    assert_eq!(sock.local_endpoint().port, 49152);
    assert_eq!(sock.remote_endpoint().port, PORT);
    assert_eq!(sock.remote_endpoint().addr, IpAddress::v4(127, 0, 0, 1));
    let nothing = SweepPlan { announce: false, drain: false, finished: false };
    assert_eq!(hub.sweep(7, iface.get_socket::<TcpSocket>(handle)), nothing);
    settle(&mut iface, &mut clock);
    let announced = SweepPlan { announce: true, drain: false, finished: false };
    assert_eq!(hub.sweep(7, iface.get_socket::<TcpSocket>(handle)), announced);
    assert_eq!(hub.sweep(7, iface.get_socket::<TcpSocket>(handle)), nothing);
}

#[test]
fn new_socket_has_room_both_ways() {
    let hub = hub();
    let sock = match hub.create_tcp_connection() {
        Ok(sock) => sock,
        Err(response) => panic!("{:?}", response),
    };
    assert_eq!(sock.recv_capacity(), 16384);
    assert_eq!(sock.send_capacity(), 16384);
    assert!(!sock.is_open());
}

#[test]
fn unaddressable_destination_is_refused() {
    let mut hub = hub();
    let mut iface = stack();
    let (_, opened) = open(&mut hub, &mut iface, 0, HERE, 0);
    assert_eq!(opened, Err(StackError::Unaddressable));
    let (_, opened) = open(&mut hub, &mut iface, 0, [0, 1, 2, 3], PORT);
    assert_eq!(opened, Err(StackError::Unaddressable));
    assert!(!hub.contains_connection(0));
    let (_, opened) = open(&mut hub, &mut iface, 0, HERE, PORT);
    assert_eq!(opened, Ok(49152));
}

#[test]
fn open_socket_cannot_connect_again() {
    let mut hub = hub();
    let mut iface = stack();
    let (handle, opened) = open(&mut hub, &mut iface, 0, HERE, PORT);
    assert_eq!(opened, Ok(49152));
    let (sock, cx) = iface.get_socket_and_context::<TcpSocket>(handle);
    assert_eq!(hub.open_connection(1, sock, cx, HERE, PORT), Err(StackError::Illegal));
    assert_eq!(hub.handles(), vec![0]);
}

#[test]
fn request_is_refused_when_all_ports_are_used() {
    let mut hub = hub();
    let mut iface = stack();
    let (handle, _) = open(&mut hub, &mut iface, 0, HERE, PORT);
    iface.remove_socket(handle);
    for id in 1..16383 {
        let (handle, opened) = open(&mut hub, &mut iface, id, HERE, PORT);
        assert_eq!(opened, Ok(49152 + id as u16));
        iface.remove_socket(handle);
    }
    assert!(matches!(hub.create_tcp_connection(), Err(OpenSocketResponse::FailureNoPort)));
    hub.release_all(&vec![5000]);
    assert!(hub.create_tcp_connection().is_ok());
}

#[test]
fn released_ports_queue_up() {
    let mut pool = vec![50001, 50002, 50003];
    for port in 49152..65535 {
        if !pool.contains(&port) {
            pool.push(port);
        }
    }
    let mut hub = Hub::new(PortPool::from_order(pool));
    let mut iface = stack();
    for id in 0..16382 {
        let (handle, opened) = open(&mut hub, &mut iface, id, HERE, PORT);
        assert!(opened.is_ok());
        iface.remove_socket(handle);
    }
    hub.release_all(&vec![2, 0]);
    let (_, last) = open(&mut hub, &mut iface, 20000, HERE, PORT);
    assert_eq!(last, Ok(65534));
    let (_, opened) = open(&mut hub, &mut iface, 20001, HERE, PORT);
    assert_eq!(opened, Ok(50003));
    let (_, opened) = open(&mut hub, &mut iface, 20002, HERE, PORT);
    assert_eq!(opened, Ok(50001));
}

#[test]
fn octets_reach_the_server_in_their_order() {
    let mut hub = hub();
    let mut iface = stack();
    let mut clock = 1_000;
    let listening = server(&mut iface);
    let (handle, _) = open(&mut hub, &mut iface, 3, HERE, PORT);
    settle(&mut iface, &mut clock);
    hub.begin_round();
    let all: Vec<u8> = (0..40_000u32).map(|i| (i % 251) as u8).collect();
    let mut received = vec![];
    let mut left = all.clone();
    let mut requeued = 0;
    loop {
        let sock = iface.get_socket::<TcpSocket>(handle);
        let outcome: Outcome = hub.receive_from_proxy_client(3, sock, left, 77);
        match outcome {
            Forward::Acknowledge(ack) => {
                assert_eq!(ack, 77);
                break;
            },
            Forward::Requeue { poll, message } => {
                assert_eq!(poll, Some(1));
                match message {
                    Queue::ReceiveFromProxyClient(id, rest, ack) => {
                        assert_eq!((id, ack), (3, 77));
                        left = rest;
                    },
                    other => panic!("{:?}", other),
                }
                requeued += 1;
            },
            other => panic!("{:?}", other),
        }
        settle(&mut iface, &mut clock);
        let sock = iface.get_socket::<TcpSocket>(listening);
        while sock.can_recv() {
            sock.recv(|buf| {
                received.extend_from_slice(buf);
                (buf.len(), ())
            }).unwrap();
        }
    }
    assert!(requeued > 0);
    settle(&mut iface, &mut clock);
    let sock = iface.get_socket::<TcpSocket>(listening);
    while sock.can_recv() {
        sock.recv(|buf| {
            received.extend_from_slice(buf);
            (buf.len(), ())
        }).unwrap();
    }
    assert_eq!(received, all);
}

#[test]
fn full_socket_asks_for_a_poll_once() {
    let mut hub = hub();
    let mut iface = stack();
    let mut clock = 1_000;
    server(&mut iface);
    let (handle, _) = open(&mut hub, &mut iface, 0, HERE, PORT);
    settle(&mut iface, &mut clock);
    hub.begin_round();
    let sock = iface.get_socket::<TcpSocket>(handle);
    let first: Outcome = hub.receive_from_proxy_client(0, sock, vec![1; 16384], 0);
    assert!(matches!(first, Forward::Acknowledge(0)));
    let second: Outcome = hub.receive_from_proxy_client(0, sock, vec![2; 3], 0);
    match second {
        Forward::Requeue { poll: Some(1), message: Queue::ReceiveFromProxyClient(0, data, 0) } => {
            assert_eq!(data, vec![2; 3]);
        },
        other => panic!("{:?}", other),
    }
    let third: Outcome = hub.receive_from_proxy_client(0, sock, vec![2; 3], 0);
    assert!(matches!(third, Forward::Requeue { poll: None, .. }));
    assert!(matches!(hub.receive_from_boringtun::<(), u32, ()>(), None));
}

#[test]
fn partly_taken_octets_ask_for_a_poll_each_time() {
    let mut hub = hub();
    let mut iface = stack();
    let mut clock = 1_000;
    server(&mut iface);
    let (handle, _) = open(&mut hub, &mut iface, 0, HERE, PORT);
    settle(&mut iface, &mut clock);
    hub.begin_round();
    assert!(matches!(hub.receive_from_boringtun(), Some(Message::ForcePoll(1))));
    let sock = iface.get_socket::<TcpSocket>(handle);
    let outcome: Outcome = hub.receive_from_proxy_client(0, sock, vec![9; 16385], 4);
    match outcome {
        Forward::Requeue { poll: Some(1), message: Queue::ReceiveFromProxyClient(0, data, 4) } => {
            assert_eq!(data, vec![9]);
        },
        other => panic!("{:?}", other),
    }
}

#[test]
fn octets_for_a_connection_that_takes_none_are_lost() {
    let mut hub = hub();
    let mut iface = stack();
    let mut clock = 1_000;
    server(&mut iface);
    let (handle, _) = open(&mut hub, &mut iface, 0, HERE, PORT);
    let sock = iface.get_socket::<TcpSocket>(handle);
    let outcome: Outcome = hub.receive_from_proxy_client(0, sock, vec![1], 0);
    assert!(matches!(outcome, Forward::CannotSend(TcpState::SynSent)));
    settle(&mut iface, &mut clock);
    let sock = iface.get_socket::<TcpSocket>(handle);
    hub.disconnect_from_proxy_client(0, sock);
    let outcome: Outcome = hub.receive_from_proxy_client(0, sock, vec![1], 0);
    assert!(matches!(outcome, Forward::CannotSend(TcpState::FinWait1)));
    sock.abort();
    let outcome: Outcome = hub.receive_from_proxy_client(0, sock, vec![1], 0);
    assert!(matches!(outcome, Forward::Dropped));
}

#[test]
fn client_that_leaves_early_ends_its_connection() {
    let mut hub = hub();
    let mut iface = stack();
    let (handle, _) = open(&mut hub, &mut iface, 0, HERE, PORT);
    let sock = iface.get_socket::<TcpSocket>(handle);
    hub.disconnect_from_proxy_client(0, sock);
    assert_eq!(
        hub.sweep(0, sock),
        SweepPlan { announce: false, drain: false, finished: true },
    );
}

#[test]
fn unknown_client_closes_nothing() {
    let mut hub = hub();
    let mut iface = stack();
    let (handle, _) = open(&mut hub, &mut iface, 0, HERE, PORT);
    let sock = iface.get_socket::<TcpSocket>(handle);
    hub.disconnect_from_proxy_client(1, sock);
    assert!(!hub.sweep(0, sock).finished);
    hub.disconnect_from_proxy_client(0, sock);
    assert!(hub.sweep(0, sock).finished);
}

#[test]
fn what_was_sent_before_leaving_arrives() {
    let mut hub = hub();
    let mut iface = stack();
    let mut clock = 1_000;
    let listening = server(&mut iface);
    let (handle, _) = open(&mut hub, &mut iface, 0, HERE, PORT);
    settle(&mut iface, &mut clock);
    let sock = iface.get_socket::<TcpSocket>(handle);
    let outcome: Outcome = hub.receive_from_proxy_client(0, sock, vec![1, 2, 3], 0);
    assert!(matches!(outcome, Forward::Acknowledge(0)));
    hub.disconnect_from_proxy_client(0, sock);
    settle(&mut iface, &mut clock);
    let sock = iface.get_socket::<TcpSocket>(listening);
    let received = sock.recv(|buf| (buf.len(), buf.to_vec())).unwrap();
    assert_eq!(received, vec![1, 2, 3]);
}

#[test]
fn failed_client_is_offered_nothing() {
    let mut hub = hub();
    let mut iface = stack();
    let mut clock = 1_000;
    let listening = server(&mut iface);
    let (handle, _) = open(&mut hub, &mut iface, 0, HERE, PORT);
    settle(&mut iface, &mut clock);
    iface.get_socket::<TcpSocket>(listening).send_slice(b"hello").unwrap();
    settle(&mut iface, &mut clock);
    let sock = iface.get_socket::<TcpSocket>(handle);
    assert_eq!(hub.sweep(0, sock), SweepPlan { announce: true, drain: true, finished: false });
    let message: Option<Message> = hub.drained(0, sock, Some(3));
    assert!(message.is_none());
    assert_eq!(hub.sweep(0, sock), SweepPlan { announce: false, drain: true, finished: false });
    let message: Option<Message> = hub.drained(0, sock, None);
    assert!(matches!(message, Some(Queue::DisconnectFromProxyClient(0))));
    assert_eq!(hub.offer(sock), Ok(b"lo".to_vec()));
    assert_eq!(hub.sweep(0, sock), SweepPlan { announce: false, drain: false, finished: false });
}

#[test]
fn failed_client_does_not_hinder_others() {
    let mut hub = hub();
    let mut iface = stack();
    let mut clock = 1_000;
    let first = server(&mut iface);
    let (failing, _) = open(&mut hub, &mut iface, 0, HERE, PORT);
    settle(&mut iface, &mut clock);
    let second = server(&mut iface);
    let (other, _) = open(&mut hub, &mut iface, 1, HERE, PORT);
    settle(&mut iface, &mut clock);
    for listening in [first, second] {
        iface.get_socket::<TcpSocket>(listening).send_slice(b"hello").unwrap();
    }
    settle(&mut iface, &mut clock);
    hub.drained::<(), u32, ()>(0, iface.get_socket::<TcpSocket>(failing), None);
    assert!(!hub.sweep(0, iface.get_socket::<TcpSocket>(failing)).drain);
    assert!(hub.sweep(1, iface.get_socket::<TcpSocket>(other)).drain);
}

#[test]
fn octets_of_the_server_are_offered_in_their_order() {
    let mut hub = hub();
    let mut iface = stack();
    let mut clock = 1_000;
    let listening = server(&mut iface);
    let (handle, _) = open(&mut hub, &mut iface, 0, HERE, PORT);
    assert_eq!(hub.offer(iface.get_socket::<TcpSocket>(handle)), Err(StackError::Illegal));
    settle(&mut iface, &mut clock);
    assert_eq!(hub.offer(iface.get_socket::<TcpSocket>(handle)), Ok(vec![]));
    let all: Vec<u8> = (0..50_000u32).map(|i| (i % 241) as u8).collect();
    let mut unsent = &all[..];
    let mut client = vec![];
    while client.len() < all.len() {
        let sock = iface.get_socket::<TcpSocket>(listening);
        let n = sock.send_slice(unsent).unwrap();
        unsent = &unsent[n..];
        settle(&mut iface, &mut clock);
        let sock = iface.get_socket::<TcpSocket>(handle);
        while sock.can_recv() {
            let octets = hub.offer(sock).unwrap();
            assert!(!octets.is_empty());
            let n = octets.len().min(700);
            client.extend_from_slice(&octets[..n]);
            let message: Option<Message> = hub.drained(0, sock, Some(n));
            assert!(message.is_none());
        }
    }
    assert_eq!(client, all);
}

#[test]
fn nothing_is_offered_after_the_end() {
    let mut hub = hub();
    let mut iface = stack();
    let mut clock = 1_000;
    let listening = server(&mut iface);
    let (handle, _) = open(&mut hub, &mut iface, 0, HERE, PORT);
    settle(&mut iface, &mut clock);
    iface.get_socket::<TcpSocket>(listening).send_slice(b"bye").unwrap();
    iface.get_socket::<TcpSocket>(listening).close();
    settle(&mut iface, &mut clock);
    let sock = iface.get_socket::<TcpSocket>(handle);
    assert_eq!(hub.offer(sock), Ok(b"bye".to_vec()));
    assert!(hub.drained::<(), u32, ()>(0, sock, Some(3)).is_none());
    assert_eq!(hub.offer(sock), Err(StackError::Finished));
}

#[test]
fn every_connection_is_listed_once() {
    let mut hub = hub();
    let mut iface = stack();
    for id in [4, 9, 2] {
        open(&mut hub, &mut iface, id, HERE, PORT).1.unwrap();
    }
    let mut handles = hub.handles();
    handles.sort();
    assert_eq!(handles, vec![2, 4, 9]);
    hub.release_all(&vec![9]);
    let mut handles = hub.handles();
    handles.sort();
    assert_eq!(handles, vec![2, 4]);
}

#[test]
fn failure_is_forgotten_with_its_connection() {
    let mut hub = hub();
    let mut iface = stack();
    let mut clock = 1_000;
    let listening = server(&mut iface);
    let (handle, _) = open(&mut hub, &mut iface, 0, HERE, PORT);
    settle(&mut iface, &mut clock);
    hub.drained::<(), u32, ()>(0, iface.get_socket::<TcpSocket>(handle), None);
    hub.release_all(&vec![0]);
    iface.remove_socket(handle);
    iface.remove_socket(listening);
    let listening = server(&mut iface);
    let (handle, _) = open(&mut hub, &mut iface, 0, HERE, PORT);
    settle(&mut iface, &mut clock);
    iface.get_socket::<TcpSocket>(listening).send_slice(b"hello").unwrap();
    settle(&mut iface, &mut clock);
    let sock = iface.get_socket::<TcpSocket>(handle);
    assert!(hub.sweep(0, sock).drain);
    assert_eq!(hub.offer(sock), Ok(b"hello".to_vec()));
}
