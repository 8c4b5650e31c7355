use ps_protocol::packet::constants::{PACKET_PREFIX_LENGTH, PROTOCOL_VERSION};
use ps_protocol::packet::error::PacketError;
use ps_protocol::packet::utils::checksum;
use ps_protocol::packet::Packet;

/// A frame put together by hand, field by field.
fn frame_with(length: u32, version: u32, sum: u64, archive: &[u8]) -> Vec<u8> {
    let mut frame = Vec::new();
    frame.extend_from_slice(&length.to_le_bytes());
    frame.extend_from_slice(&version.to_le_bytes());
    frame.extend_from_slice(&sum.to_le_bytes());
    frame.extend_from_slice(archive);
    frame
}

fn sound_frame(archive: &[u8]) -> Vec<u8> {
    frame_with(
        (archive.len() + PACKET_PREFIX_LENGTH) as u32,
        PROTOCOL_VERSION,
        checksum(archive),
        archive,
    )
}

fn sample_archive() -> Vec<u8> {
    (0..37u8).map(|i| i.wrapping_mul(29).wrapping_add(5)).collect()
}

#[test]
fn constants_describe_the_prefix() {
    assert_eq!(PACKET_PREFIX_LENGTH, 16);
    assert_eq!(PACKET_PREFIX_LENGTH, 4 + 4 + 8);
    assert_eq!(PROTOCOL_VERSION, 1);
}

#[test]
fn serialize_writes_the_exact_frame() {
    let frame = Packet::<()>::serialize(&[1, 2, 3]).unwrap();
    let expected: [u8; 19] = [
        19, 0, 0, 0, // total length
        1, 0, 0, 0, // protocol version
        171, 245, 44, 103, 24, 98, 170, 208, // checksum, 0xd0aa6218672cf5ab
        1, 2, 3, // archive
    ];
    assert_eq!(frame.as_slice(), &expected[..]);
}

#[test]
fn serialize_of_an_empty_archive_is_the_bare_prefix() {
    let frame = Packet::<()>::serialize(&[]).unwrap();
    let expected: [u8; 16] = [16, 0, 0, 0, 1, 0, 0, 0, 37, 35, 34, 132, 228, 156, 242, 203];
    assert_eq!(frame.as_slice(), &expected[..]);
}

#[test]
fn serialize_lays_out_length_version_checksum_archive() {
    let archive = sample_archive();
    let frame = Packet::<()>::serialize(&archive).unwrap();
    assert_eq!(frame.len(), archive.len() + PACKET_PREFIX_LENGTH);
    assert_eq!(&frame[0..4], &(frame.len() as u32).to_le_bytes()[..]);
    assert_eq!(&frame[4..8], &PROTOCOL_VERSION.to_le_bytes()[..]);
    assert_eq!(&frame[8..16], &checksum(&archive).to_le_bytes()[..]);
    assert_eq!(&frame[16..], &archive[..]);
    assert_eq!(frame.as_slice(), &sound_frame(&archive)[..]);
}

#[test]
fn serialize_multi_byte_length_is_little_endian() {
    let archive = vec![0xabu8; 0x0102_03 - 16];
    let frame = Packet::<()>::serialize(&archive).unwrap();
    assert_eq!(&frame[0..4], &[0x03, 0x02, 0x01, 0x00]);
}

#[test]
fn serialize_gives_a_frame_whose_length_field_is_its_length() {
    for length in [0usize, 1, 239, 240, 65519, 65520, 65521, 1 << 20] {
        let archive = vec![0x5au8; length];
        let frame = Packet::<()>::serialize(&archive).unwrap();
        let declared = u32::from_le_bytes([frame[0], frame[1], frame[2], frame[3]]);
        assert_eq!(declared as usize, frame.len(), "length {length}");
        assert_eq!(frame.len(), length + PACKET_PREFIX_LENGTH);
        assert_eq!(Packet::<()>::access(&frame).unwrap(), &archive[..]);
    }
}

#[test]
fn serialize_twice_gives_identical_frames() {
    let archive = sample_archive();
    let first = Packet::<()>::serialize(&archive).unwrap();
    let second = Packet::<()>::serialize(&archive.clone()).unwrap();
    assert_eq!(first.as_slice(), second.as_slice());
}

#[test]
fn access_returns_the_archive_of_a_serialized_frame() {
    for length in [0usize, 1, 2, 15, 16, 17, 255, 256, 1000] {
        let archive: Vec<u8> = (0..length).map(|i| (i * 13 + 1) as u8).collect();
        let frame = Packet::<()>::serialize(&archive).unwrap();
        let accessed = Packet::<()>::access(&frame).unwrap();
        assert_eq!(accessed, &archive[..]);
    }
}

#[test]
fn access_borrows_from_the_input() {
    let frame = sound_frame(&sample_archive());
    let accessed = Packet::<()>::access(&frame).unwrap();
    assert_eq!(accessed.as_ptr(), frame[16..].as_ptr());
    assert_eq!(accessed.len(), frame.len() - 16);
}

#[test]
fn access_accepts_an_older_version() {
    let archive = sample_archive();
    let frame = frame_with((archive.len() + 16) as u32, 0, checksum(&archive), &archive);
    assert_eq!(Packet::<()>::access(&frame).unwrap(), &archive[..]);
}

#[test]
fn access_rejects_the_next_version() {
    let archive = sample_archive();
    let frame = frame_with(
        (archive.len() + 16) as u32,
        PROTOCOL_VERSION + 1,
        checksum(&archive),
        &archive,
    );
    assert!(matches!(
        Packet::<()>::access(&frame),
        Err(PacketError::UnsupportedProtocolVersion(got)) if got == PROTOCOL_VERSION + 1
    ));
}

#[test]
fn access_rejects_the_next_version_written_into_a_serialized_frame() {
    let mut frame = Packet::<()>::serialize(&sample_archive()).unwrap().to_vec();
    frame[4..8].copy_from_slice(&(PROTOCOL_VERSION + 1).to_le_bytes());
    assert!(matches!(
        Packet::<()>::access(&frame),
        Err(PacketError::UnsupportedProtocolVersion(2))
    ));
}

#[test]
fn access_checks_the_version_before_length_and_checksum() {
    let frame = frame_with(7, u32::MAX, 0, &[9, 9, 9]);
    assert!(matches!(
        Packet::<()>::access(&frame),
        Err(PacketError::UnsupportedProtocolVersion(u32::MAX))
    ));
    // Eight bytes are enough to read the version.
    assert!(matches!(
        Packet::<()>::access(&frame[..8]),
        Err(PacketError::UnsupportedProtocolVersion(u32::MAX))
    ));
}

#[test]
fn access_rejects_a_wrong_length_prefix() {
    let archive = sample_archive();
    let actual = (archive.len() + 16) as u32;
    for declared in [0, 16, actual - 1, actual + 1, u32::MAX] {
        let frame = frame_with(declared, PROTOCOL_VERSION, checksum(&archive), &archive);
        assert!(matches!(
            Packet::<()>::access(&frame),
            Err(PacketError::IncorrectLengthPrefix(d, a)) if d == declared && a == actual
        ));
    }
}

#[test]
fn access_checks_the_length_before_the_checksum() {
    let archive = sample_archive();
    let frame = frame_with(3, PROTOCOL_VERSION, !checksum(&archive), &archive);
    assert!(matches!(
        Packet::<()>::access(&frame),
        Err(PacketError::IncorrectLengthPrefix(3, 53))
    ));
}

#[test]
fn access_rejects_every_truncation_that_keeps_length_and_version() {
    let frame = Packet::<()>::serialize(&sample_archive()).unwrap();
    let declared = frame.len() as u32;
    for kept in 8..frame.len() {
        assert!(
            matches!(
                Packet::<()>::access(&frame[..kept]),
                Err(PacketError::IncorrectLengthPrefix(d, a)) if d == declared && a == kept as u32
            ),
            "kept {kept}"
        );
    }
}

#[test]
fn access_reports_a_slice_error_where_length_or_version_is_cut() {
    let frame = Packet::<()>::serialize(&sample_archive()).unwrap();
    for kept in 0..8 {
        assert!(
            matches!(
                Packet::<()>::access(&frame[..kept]),
                Err(PacketError::TryFromSliceError(_))
            ),
            "kept {kept}"
        );
    }
}

#[test]
fn access_reports_a_slice_error_where_the_checksum_is_cut() {
    // Version and length hold, but the input ends inside the checksum field.
    for length in 8u32..16 {
        let mut frame = frame_with(length, PROTOCOL_VERSION, 0, &[]);
        frame.truncate(length as usize);
        assert!(
            matches!(Packet::<()>::access(&frame), Err(PacketError::TryFromSliceError(_))),
            "length {length}"
        );
    }
}

#[test]
fn access_rejects_an_empty_input() {
    assert!(matches!(Packet::<()>::access(&[]), Err(PacketError::TryFromSliceError(_))));
}

#[test]
fn access_rejects_a_wrong_checksum() {
    let archive = sample_archive();
    let sum = checksum(&archive);
    let frame = frame_with((archive.len() + 16) as u32, PROTOCOL_VERSION, sum ^ 1, &archive);
    assert!(matches!(
        Packet::<()>::access(&frame),
        Err(PacketError::IncorrectChecksum(carried, computed)) if carried == sum ^ 1 && computed == sum
    ));
}

#[test]
fn access_rejects_every_single_bit_flip_in_the_archive() {
    let frame = Packet::<()>::serialize(&sample_archive()).unwrap().to_vec();
    let carried = checksum(&frame[16..]);
    for index in 16..frame.len() {
        for bit in 0..8 {
            let mut flipped = frame.clone();
            flipped[index] ^= 1 << bit;
            let computed = checksum(&flipped[16..]);
            assert!(
                matches!(
                    Packet::<()>::access(&flipped),
                    Err(PacketError::IncorrectChecksum(c, r)) if c == carried && r == computed
                ),
                "byte {index}, bit {bit}"
            );
        }
    }
}

#[test]
fn access_rejects_every_single_bit_flip_in_the_checksum_field() {
    let frame = Packet::<()>::serialize(&sample_archive()).unwrap().to_vec();
    for index in 8..16 {
        for bit in 0..8 {
            let mut flipped = frame.clone();
            flipped[index] ^= 1 << bit;
            assert!(matches!(
                Packet::<()>::access(&flipped),
                Err(PacketError::IncorrectChecksum(_, _))
            ));
        }
    }
}

#[test]
fn access_accepts_the_smallest_frame() {
    let frame = sound_frame(&[]);
    assert_eq!(frame.len(), 16);
    let empty: &[u8] = &[];
    assert_eq!(Packet::<()>::access(&frame).unwrap(), empty);
}

#[test]
fn access_does_not_depend_on_the_body_type() {
    let frame = sound_frame(&sample_archive());
    assert_eq!(
        Packet::<u64>::access(&frame).unwrap(),
        Packet::<(u32, u32)>::access(&frame).unwrap()
    );
}
