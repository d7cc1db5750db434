use std::collections::VecDeque;
use wgsocks::config::Config;
use wgsocks::config::Endpoint;
use wgsocks::config::PeerConfig;
use wgsocks::tunnel::can_count;
use wgsocks::tunnel::TunnelOutcome;
use wgsocks::wg_device::recv::recv_decision;
use wgsocks::wg_device::recv::Burst;
use wgsocks::wg_device::recv::RecvAction;
use wgsocks::wg_device::send::TxToken;
use wgsocks::wg_device::send_buffer_len;
use wgsocks::wg_device::send_decision;
use wgsocks::wg_device::timer_decision;
use wgsocks::wg_device::DeviceError;
use wgsocks::wg_device::SendAction;
use wgsocks::wg_device::WGDevice;
use x25519_dalek::PublicKey;
use x25519_dalek::StaticSecret;

fn config(private_key: [u8; 32], peer: [u8; 32]) -> Config {
    let public_key = PublicKey::from(&StaticSecret::from(peer));
    Config {
        private_key: base64::encode(private_key),
        peer: PeerConfig {
            endpoint: Endpoint::V4 { octets: [192, 0, 2, 1], port: 51820 },
            public_key: base64::encode(public_key.as_bytes()),
        },
        mtu: 1420,
        ip4: [10, 0, 0, 2],
        dns: None,
    }
}

fn pair() -> (WGDevice, WGDevice) {
    (WGDevice::new(config([7; 32], [9; 32])), WGDevice::new(config([9; 32], [7; 32])))
}

fn ipv4_packet(len: u8, fill: u8) -> Vec<u8> {
    let mut packet = vec![fill; len as usize];
    packet[0] = 0x45;
    packet[2] = 0;
    packet[3] = len;
    packet
}

fn sent(action: SendAction) -> Vec<u8> {
    match action {
        SendAction::Send(data) => data,
        other => panic!("{:?}", other),
    }
}

fn answered(action: RecvAction) -> Vec<u8> {
    match action {
        RecvAction::Send(data) => data,
        other => panic!("{:?}", other),
    }
}

fn connected() -> (WGDevice, WGDevice) {
    let (mut a, mut b) = pair();
    let first = sent(a.start_handshake());
    let mut burst = Burst::new(first);
    let second = answered(b.recv_step(&mut burst));
    assert!(matches!(b.recv_step(&mut burst), RecvAction::Finish));
    let mut burst = Burst::new(second);
    let keepalive = answered(a.recv_step(&mut burst));
    assert!(matches!(a.recv_step(&mut burst), RecvAction::Finish));
    assert!(matches!(b.recv_step(&mut Burst::new(keepalive)), RecvAction::Finish));
    (a, b)
}

#[test]
fn handshake_is_started_once() {
    let (mut a, _) = pair();
    let first = sent(a.start_handshake());
    assert_eq!(first.len(), 148);
    assert_eq!(&first[..4], &[1, 0, 0, 0]);
    assert!(matches!(a.start_handshake(), SendAction::Report(TunnelOutcome::Done)));
}

#[test]
fn handshake_is_made_with_the_configured_keys() {
    let (mut a, mut b) = pair();
    let first = sent(a.start_handshake());
    let second = answered(b.recv_step(&mut Burst::new(first)));
    assert_eq!(second.len(), 92);
    let mut stranger = WGDevice::new(config([5; 32], [9; 32]));
    let foreign = sent(stranger.start_handshake());
    match b.recv_step(&mut Burst::new(foreign)) {
        RecvAction::Fail(error) => assert_eq!(error, "WrongKey"),
        other => panic!("{:?}", other),
    }
}

#[test]
fn packet_arrives_as_it_was_sent() {
    let (mut a, mut b) = connected();
    let packet = ipv4_packet(60, 3);
    let datagram = sent(a.send_step(&packet));
    assert_eq!(datagram.len(), 92);
    assert_ne!(&datagram[16..76], &packet[..]);
    let mut burst = Burst::new(datagram);
    assert!(matches!(b.recv_step(&mut burst), RecvAction::Notify));
    assert!(matches!(b.recv_step(&mut burst), RecvAction::Finish));
    assert_eq!(b.receive().unwrap().0.buffer, packet);
    assert!(b.receive().is_none());
}

#[test]
fn packets_wait_for_a_session_and_keep_their_order() {
    let (mut a, mut b) = pair();
    let packets = vec![ipv4_packet(40, 1), ipv4_packet(200, 2), ipv4_packet(20, 3)];
    let first = sent(a.send_step(&packets[0]));
    assert_eq!(first.len(), 148);
    for packet in &packets[1..] {
        assert!(matches!(a.send_step(packet), SendAction::Report(TunnelOutcome::Done)));
    }
    let second = answered(b.recv_step(&mut Burst::new(first)));
    let mut burst = Burst::new(second);
    let keepalive = answered(a.recv_step(&mut burst));
    assert_eq!(keepalive.len(), 32);
    assert!(matches!(b.recv_step(&mut Burst::new(keepalive)), RecvAction::Finish));
    for packet in &packets {
        let datagram = answered(a.recv_step(&mut burst));
        assert_eq!(datagram.len(), packet.len() + 32);
        assert!(matches!(b.recv_step(&mut Burst::new(datagram)), RecvAction::Notify));
    }
    assert!(matches!(a.recv_step(&mut burst), RecvAction::Finish));
    for packet in &packets {
        assert_eq!(&b.receive().unwrap().0.buffer, packet);
    }
    assert!(b.receive().is_none());
}

#[test]
fn ipv6_packet_is_only_told() {
    let (mut a, mut b) = connected();
    let mut packet = vec![0u8; 40];
    packet[0] = 0x60;
    let datagram = sent(a.send_step(&packet));
    let mut burst = Burst::new(datagram);
    match b.recv_step(&mut burst) {
        RecvAction::Report(TunnelOutcome::WriteToTunnelV6(data)) => assert_eq!(data, packet),
        other => panic!("{:?}", other),
    }
    assert!(matches!(b.recv_step(&mut burst), RecvAction::Finish));
    assert!(b.receive().is_none());
}

#[test]
fn noise_is_a_failure() {
    let (mut a, _) = pair();
    match a.recv_step(&mut Burst::new(vec![1, 2, 3])) {
        RecvAction::Fail(error) => assert_eq!(error, "InvalidPacket"),
        other => panic!("{:?}", other),
    }
}

fn data_message(counter: u64) -> Vec<u8> {
    let mut datagram = vec![4, 0, 0, 0, 1, 0, 0, 0];
    datagram.extend_from_slice(&counter.to_le_bytes());
    datagram.extend_from_slice(&[0; 16]);
    datagram
}

#[test]
fn packet_beyond_counting_is_not_handed_over() {
    let (mut a, _) = pair();
    for counter in [u64::MAX, u64::MAX - 1023] {
        let mut burst = Burst::new(data_message(counter));
        assert!(a.try_recv_step(&mut burst).is_none());
    }
    for counter in [0, 1 << 32, u64::MAX - 1024] {
        match a.try_recv_step(&mut Burst::new(data_message(counter))) {
            Some(RecvAction::Fail(error)) => assert_eq!(error, "NoCurrentSession"),
            other => panic!("{:?}", other),
        }
    }
}

#[test]
fn packet_beyond_counting_is_turned_down_without_a_session() {
    let (mut a, _) = pair();
    for counter in [u64::MAX, u64::MAX - 1023] {
        match a.recv_step(&mut Burst::new(data_message(counter))) {
            RecvAction::Fail(error) => assert_eq!(error, "NoCurrentSession"),
            other => panic!("{:?}", other),
        }
    }
}

#[test]
fn forged_packet_beyond_counting_is_turned_down() {
    let (mut a, mut b) = connected();
    let mut datagram = sent(a.send_step(&ipv4_packet(30, 5)));
    datagram[8..16].copy_from_slice(&u64::MAX.to_le_bytes());
    match b.recv_step(&mut Burst::new(datagram)) {
        RecvAction::Fail(error) => assert_eq!(error, "InvalidAeadTag"),
        other => panic!("{:?}", other),
    }
    assert!(b.receive().is_none());
}

fn number(datagram: &[u8]) -> u8 {
    assert_eq!(&datagram[9..16], &[0; 7]);
    datagram[8]
}

#[test]
fn session_numbers_each_packet_once() {
    let (mut a, mut b) = pair();
    let first = sent(a.send_step(&ipv4_packet(20, 1)));
    let second = answered(b.recv_step(&mut Burst::new(first)));
    let mut burst = Burst::new(second);
    assert_eq!(number(&answered(a.recv_step(&mut burst))), 0);
    assert_eq!(number(&answered(a.recv_step(&mut burst))), 1);
    assert!(matches!(a.recv_step(&mut burst), RecvAction::Finish));
    for n in 2..20 {
        assert_eq!(number(&sent(a.send_step(&ipv4_packet(20, n)))), n);
    }
}

#[test]
fn messages_bear_their_type() {
    let (mut a, mut b) = pair();
    let first = sent(a.start_handshake());
    assert_eq!(&first[..4], &[1, 0, 0, 0]);
    let second = answered(b.recv_step(&mut Burst::new(first)));
    assert_eq!((&second[..4], second.len()), (&[2u8, 0, 0, 0][..], 92));
    let third = answered(a.recv_step(&mut Burst::new(second)));
    assert_eq!((&third[..4], third.len()), (&[4u8, 0, 0, 0][..], 32));
    let fourth = sent(a.send_step(&ipv4_packet(20, 1)));
    assert_eq!((&fourth[..4], fourth.len()), (&[4u8, 0, 0, 0][..], 52));
}

#[test]
fn counting_concerns_packets_only() {
    assert!(can_count(&[255; 40]));
    assert!(can_count(&[4, 0, 0, 0, 255, 255, 255, 255]));
    assert!(can_count(&[]));
    assert!(!can_count(&data_message(u64::MAX)));
}

#[test]
fn session_datagrams_differ_though_packets_do_not() {
    let (mut a, mut b) = connected();
    let packet = ipv4_packet(30, 5);
    let first = sent(a.send_step(&packet));
    let second = sent(a.send_step(&packet));
    assert_ne!(first, second);
    for datagram in [first, second] {
        assert!(matches!(b.recv_step(&mut Burst::new(datagram)), RecvAction::Notify));
    }
    assert_eq!(b.receive().unwrap().0.buffer, packet);
    assert_eq!(b.receive().unwrap().0.buffer, packet);
    assert!(b.receive().is_none());
}

#[test]
fn empty_datagram_is_worked_off_at_once() {
    let (mut a, _) = pair();
    assert!(matches!(a.recv_step(&mut Burst::new(vec![])), RecvAction::Finish));
}

#[test]
fn fresh_timers_have_nothing_to_do() {
    let (mut a, _) = pair();
    assert!(matches!(a.timer_step(), SendAction::Nothing));
}

#[test]
fn unusable_keys_are_told_apart() {
    let mut wrong = config([7; 32], [9; 32]);
    wrong.private_key = String::from("short");
    assert!(matches!(WGDevice::try_new(wrong), Err(DeviceError::PrivateKey)));
    let mut wrong = config([7; 32], [9; 32]);
    wrong.peer.public_key = String::from("AQID");
    assert!(matches!(WGDevice::try_new(wrong), Err(DeviceError::PublicKey)));
    assert!(WGDevice::try_new(config([7; 32], [9; 32])).is_ok());
}

#[test]
fn device_sends_at_any_time() {
    let (a, _) = pair();
    assert!(a.transmit().is_some());
    assert_eq!(a.max_transmission_unit(), 1420);
}

#[test]
fn send_buffer_is_long_enough_for_a_handshake() {
    assert_eq!(send_buffer_len(0), 148);
    assert_eq!(send_buffer_len(116), 148);
    assert_eq!(send_buffer_len(117), 149);
    assert_eq!(send_buffer_len(1420), 1452);
}

#[test]
fn token_sends_what_was_filled_in() {
    let (result, packet) = TxToken {}.consume(4, |buf: &mut [u8]| -> Result<u32, &'static str> {
        assert_eq!(buf, &[0, 0, 0, 0]);
        buf[1] = 8;
        Ok(5)
    });
    assert_eq!(result, Ok(5));
    assert_eq!(packet, Some(vec![0, 8, 0, 0]));
}

#[test]
fn token_hands_out_an_empty_packet() {
    let (result, packet) = TxToken {}.consume(0, |buf: &mut [u8]| -> Result<usize, ()> {
        Ok(buf.len())
    });
    assert_eq!(result, Ok(0));
    assert_eq!(packet, Some(vec![]));
}

#[test]
fn token_sends_nothing_after_a_failure() {
    let (result, packet) = TxToken {}.consume(4, |buf: &mut [u8]| -> Result<u32, &'static str> {
        buf[1] = 8;
        Err("no")
    });
    assert_eq!(result, Err("no"));
    assert_eq!(packet, None);
}

#[test]
fn sending_is_decided() {
    assert!(matches!(
        send_decision(TunnelOutcome::WriteToNetwork(vec![1])),
        SendAction::Send(data) if data == vec![1],
    ));
    assert!(matches!(
        send_decision(TunnelOutcome::Done),
        SendAction::Report(TunnelOutcome::Done),
    ));
    assert!(matches!(
        send_decision(TunnelOutcome::Failed(String::from("x"))),
        SendAction::Report(TunnelOutcome::Failed(error)) if error == "x",
    ));
}

#[test]
fn timers_are_decided() {
    assert!(matches!(
        timer_decision(TunnelOutcome::WriteToNetwork(vec![1])),
        SendAction::Send(data) if data == vec![1],
    ));
    assert!(matches!(timer_decision(TunnelOutcome::Done), SendAction::Nothing));
    assert!(matches!(
        timer_decision(TunnelOutcome::InvalidCounter),
        SendAction::Report(TunnelOutcome::InvalidCounter),
    ));
    assert!(matches!(
        timer_decision(TunnelOutcome::WriteToTunnelV6(vec![6])),
        SendAction::Report(TunnelOutcome::WriteToTunnelV6(data)) if data == vec![6],
    ));
}

#[test]
fn receiving_is_decided() {
    let mut inbound = VecDeque::new();
    let mut burst = Burst::new(vec![4; 60]);
    assert!(matches!(
        recv_decision(TunnelOutcome::WriteToTunnelV4(vec![1]), &mut burst, &mut inbound),
        RecvAction::Notify,
    ));
    assert!(matches!(
        recv_decision(TunnelOutcome::WriteToTunnelV4(vec![2]), &mut burst, &mut inbound),
        RecvAction::Notify,
    ));
    assert!(matches!(
        recv_decision(TunnelOutcome::WriteToTunnelV6(vec![6]), &mut burst, &mut inbound),
        RecvAction::Report(TunnelOutcome::WriteToTunnelV6(data)) if data == vec![6],
    ));
    assert!(matches!(
        recv_decision(TunnelOutcome::WriteToNetwork(vec![3]), &mut burst, &mut inbound),
        RecvAction::Send(data) if data == vec![3],
    ));
    assert!(matches!(
        recv_decision(TunnelOutcome::Done, &mut burst, &mut inbound),
        RecvAction::Finish,
    ));
    assert!(matches!(
        recv_decision(TunnelOutcome::InvalidCounter, &mut burst, &mut inbound),
        RecvAction::Finish,
    ));
    assert!(matches!(
        recv_decision(TunnelOutcome::Failed(String::from("x")), &mut burst, &mut inbound),
        RecvAction::Fail(error) if error == "x",
    ));
    assert_eq!(inbound, VecDeque::from(vec![vec![1], vec![2]]));
}
