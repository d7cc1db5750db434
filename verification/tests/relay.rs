use wgsocks::queue::Queue;
use wgsocks::relay::read_step;
use wgsocks::relay::write_step;
use wgsocks::relay::ReadEvent;
use wgsocks::relay::ReadStep;
use wgsocks::relay::WriteEvent;
use wgsocks::relay::WriteStep;

fn reader(event: ReadEvent, server_closed: bool) -> ReadStep<(), &'static str, ()> {
    read_step(6, event, server_closed, "ack")
}

fn writer(event: WriteEvent, told: bool) -> WriteStep<(), &'static str, ()> {
    write_step(6, event, told)
}

fn says_goodbye(step: ReadStep<(), &'static str, ()>) -> bool {
    matches!(step, ReadStep::Disconnect(Queue::DisconnectFromProxyClient(6)))
}

#[test]
fn reader_forwards_what_it_read() {
    assert!(matches!(reader(ReadEvent::Permit, false), ReadStep::Read(1024)));
    match reader(ReadEvent::Data(vec![1, 2]), false) {
        ReadStep::Forward(Queue::ReceiveFromProxyClient(6, data, "ack")) => {
            assert_eq!(data, vec![1, 2]);
        },
        other => panic!("{:?}", other),
    }
    assert!(matches!(reader(ReadEvent::Queued, false), ReadStep::AwaitPermit));
}

#[test]
fn reader_says_that_the_client_is_gone() {
    assert!(says_goodbye(reader(ReadEvent::Data(vec![]), false)));
    assert!(says_goodbye(reader(ReadEvent::Data(vec![]), true)));
    assert!(says_goodbye(reader(ReadEvent::ReadFailed, false)));
    assert!(says_goodbye(reader(ReadEvent::PermitsClosed, false)));
    assert!(says_goodbye(reader(ReadEvent::QueueClosed, false)));
}

#[test]
fn reader_stops_when_the_server_is_gone() {
    assert!(matches!(reader(ReadEvent::Data(vec![1]), true), ReadStep::Stop));
}

#[test]
fn client_is_told_then_served() {
    let mut client = vec![];
    let events = vec![
        WriteEvent::Started,
        WriteEvent::Written,
        WriteEvent::Packet(vec![7, 8]),
        WriteEvent::Written,
        WriteEvent::Packet(vec![9]),
        WriteEvent::Written,
    ];
    for event in events {
        match writer(event, true) {
            WriteStep::Write(data) => client.extend(data),
            WriteStep::AwaitPacket => {},
            other => panic!("{:?}", other),
        }
    }
    assert_eq!(client, vec![5, 0, 0, 1, 0, 0, 0, 0, 0, 0, 7, 8, 9]);
}

#[test]
fn writer_finishes_when_the_server_is_gone() {
    assert!(matches!(writer(WriteEvent::Packet(vec![]), true), WriteStep::Finish));
}

#[test]
fn writer_says_that_the_client_is_gone() {
    for event in [WriteEvent::WriteFailed, WriteEvent::PacketsClosed] {
        assert!(matches!(
            writer(event, true),
            WriteStep::Disconnect(Queue::DisconnectFromProxyClient(6)),
        ));
    }
}

#[test]
fn client_that_cannot_be_told_is_given_up() {
    assert!(matches!(writer(WriteEvent::WriteFailed, false), WriteStep::Abort));
}
