use ps_protocol::packet::error::PacketError;
use ps_protocol::packet::resolver::PacketResolver;
use ps_protocol::packet::types::PacketType;
use ps_protocol::packet::{Packet, Payload};
use std::cell::RefCell;
use std::rc::Rc;

struct Ping;

impl Payload for Ping {
    fn packet_type() -> PacketType {
        7
    }
}

/// A connection that records what its handler was given.
struct Recorder {
    seen: Rc<RefCell<Vec<Vec<u8>>>>,
}

struct PingResolver;

impl PacketResolver for PingResolver {
    type Target = Ping;
    type Connection = Recorder;

    fn resolve(packet: &[u8], connection: Self::Connection) -> Result<(), PacketError> {
        connection.seen.borrow_mut().push(packet.to_vec());
        if packet.first() == Some(&0xff) {
            return Err(PacketError::UnsupportedProtocolVersion(0xff));
        }
        Ok(())
    }
}

fn recorder() -> (Recorder, Rc<RefCell<Vec<Vec<u8>>>>) {
    let seen = Rc::new(RefCell::new(Vec::new()));
    (Recorder { seen: Rc::clone(&seen) }, seen)
}

fn seen(log: Rc<RefCell<Vec<Vec<u8>>>>) -> Vec<Vec<u8>> {
    log.borrow().clone()
}

#[test]
fn resolve_bytes_hands_the_archive_to_the_handler() {
    let frame = Packet::<Ping>::serialize(&[1, 2, 3, 4]).unwrap();
    let (connection, log) = recorder();
    assert!(PingResolver::resolve_bytes(&frame, connection).is_ok());
    assert_eq!(seen(log), vec![vec![1u8, 2, 3, 4]]);
}

#[test]
fn resolve_bytes_returns_what_the_handler_returns() {
    let frame = Packet::<Ping>::serialize(&[0xff, 0]).unwrap();
    let (connection, log) = recorder();
    assert!(matches!(
        PingResolver::resolve_bytes(&frame, connection),
        Err(PacketError::UnsupportedProtocolVersion(0xff))
    ));
    assert_eq!(seen(log), vec![vec![0xffu8, 0]]);
}

#[test]
fn resolve_bytes_does_not_run_the_handler_on_a_bad_checksum() {
    let mut frame = Packet::<Ping>::serialize(&[1, 2, 3, 4]).unwrap().to_vec();
    frame[17] ^= 0x40;
    let (connection, log) = recorder();
    assert!(matches!(
        PingResolver::resolve_bytes(&frame, connection),
        Err(PacketError::IncorrectChecksum(_, _))
    ));
    assert!(seen(log).is_empty());
}

#[test]
fn resolve_bytes_does_not_run_the_handler_on_a_cut_frame() {
    let frame = Packet::<Ping>::serialize(&[1, 2, 3, 4]).unwrap();
    let (connection, log) = recorder();
    assert!(matches!(
        PingResolver::resolve_bytes(&frame[..19], connection),
        Err(PacketError::IncorrectLengthPrefix(20, 19))
    ));
    assert!(seen(log).is_empty());

    let (connection, log) = recorder();
    assert!(matches!(
        PingResolver::resolve_bytes(&frame[..3], connection),
        Err(PacketError::TryFromSliceError(_))
    ));
    assert!(seen(log).is_empty());
}

#[test]
fn resolve_bytes_does_not_run_the_handler_on_a_newer_version() {
    let mut frame = Packet::<Ping>::serialize(&[1, 2, 3, 4]).unwrap().to_vec();
    frame[4] = 2;
    let (connection, log) = recorder();
    assert!(matches!(
        PingResolver::resolve_bytes(&frame, connection),
        Err(PacketError::UnsupportedProtocolVersion(2))
    ));
    assert!(seen(log).is_empty());
}

#[test]
fn two_resolves_touch_only_their_own_connection() {
    let first = Packet::<Ping>::serialize(&[10, 11]).unwrap();
    let second = Packet::<Ping>::serialize(&[20, 21, 22]).unwrap();
    let (first_connection, first_log) = recorder();
    let (second_connection, second_log) = recorder();

    assert!(PingResolver::resolve_bytes(&first, first_connection).is_ok());
    assert!(PingResolver::resolve_bytes(&second, second_connection).is_ok());

    assert_eq!(seen(first_log), vec![vec![10u8, 11]]);
    assert_eq!(seen(second_log), vec![vec![20u8, 21, 22]]);
}

#[test]
fn resolve_takes_a_checked_archive_directly() {
    let frame = Packet::<Ping>::serialize(&[5, 6]).unwrap();
    let archive = Packet::<Ping>::access(&frame).unwrap();
    let (connection, log) = recorder();
    assert!(PingResolver::resolve(archive, connection).is_ok());
    assert_eq!(seen(log), vec![vec![5u8, 6]]);
}

#[test]
fn interleaved_resolves_keep_their_effects_apart() {
    let first = Packet::<Ping>::serialize(&[1; 64]).unwrap();
    let second = Packet::<Ping>::serialize(&[2; 48]).unwrap();
    let (_, first_log) = recorder();
    let (_, second_log) = recorder();

    for _ in 0..100 {
        let first_connection = Recorder { seen: Rc::clone(&first_log) };
        let second_connection = Recorder { seen: Rc::clone(&second_log) };
        assert!(PingResolver::resolve_bytes(&first, first_connection).is_ok());
        assert!(PingResolver::resolve_bytes(&second, second_connection).is_ok());
    }

    assert_eq!(seen(first_log), vec![vec![1u8; 64]; 100]);
    assert_eq!(seen(second_log), vec![vec![2u8; 48]; 100]);
}
