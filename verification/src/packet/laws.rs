use super::constants::{PACKET_PREFIX_LENGTH, PROTOCOL_VERSION};
use super::utils::{lemma_checksum_detects_one_byte, spec_checksum};
use super::wire::{
    declared_checksum, declared_length, declared_version, frame_archive, inspect,
    lemma_u32_read_then_written, lemma_u32_written_then_read, lemma_u64_read_then_written,
    lemma_u64_written_then_read, spec_frame, spec_u32_to_le_bytes,
    spec_u64_to_le_bytes, FrameStatus,
};
use super::buffer::buffer_bytes;
use super::Packet;
use ps_buffer::Buffer;
use vstd::prelude::*;

verus! {

/// An archive has a frame exactly when the length field can say how long the frame
/// is. The frame is 16 bytes longer than the archive, and it gives back the three
/// fields and the archive that it was made of.
pub proof fn lemma_frame_fields(archive: Seq<u8>)
    ensures
        spec_frame(archive) is Some <==> archive.len() + PACKET_PREFIX_LENGTH <= u32::MAX,
        spec_frame(archive) matches Some(frame) ==> {
            &&& frame.len() == archive.len() + PACKET_PREFIX_LENGTH
            &&& declared_length(frame) == frame.len()
            &&& declared_version(frame) == PROTOCOL_VERSION
            &&& declared_checksum(frame) == spec_checksum(archive)
            &&& frame_archive(frame) == archive
        },
{
    if let Some(frame) = spec_frame(archive) {
        let total = (archive.len() + PACKET_PREFIX_LENGTH) as u32;
        lemma_u32_written_then_read(total);
        lemma_u32_written_then_read(PROTOCOL_VERSION);
        lemma_u64_written_then_read(spec_checksum(archive));
        assert(frame.subrange(0, 4) =~= spec_u32_to_le_bytes(total));
        assert(frame.subrange(4, 8) =~= spec_u32_to_le_bytes(PROTOCOL_VERSION));
        assert(frame.subrange(8, 16) =~= spec_u64_to_le_bytes(spec_checksum(archive)));
        assert(frame_archive(frame) =~= archive);
    }
}

/// Round trip of the frame codec: the frame of an archive passes every structural
/// check and hands out that archive again, byte for byte.
pub proof fn lemma_frame_round_trip(archive: Seq<u8>)
    ensures
        spec_frame(archive) matches Some(frame) ==> inspect(frame) is Sound && frame_archive(
            frame,
        ) == archive,
{
    lemma_frame_fields(archive);
}

/// The frame of an archive is the only sound frame of the current version that
/// holds it: a received frame that passes the checks and declares the current
/// version is, byte for byte, what [`Packet::serialize`] writes for its archive.
pub proof fn lemma_sound_frame_is_serialized(frame: Seq<u8>)
    requires
        inspect(frame) is Sound,
        declared_version(frame) == PROTOCOL_VERSION,
    ensures
        spec_frame(frame_archive(frame)) == Some(frame),
{
    let archive = frame_archive(frame);
    lemma_u32_read_then_written(frame.subrange(0, 4));
    lemma_u32_read_then_written(frame.subrange(4, 8));
    lemma_u64_read_then_written(frame.subrange(8, 16));
    assert(spec_u32_to_le_bytes(declared_length(frame)) == frame.subrange(0, 4));
    assert(spec_u32_to_le_bytes(declared_version(frame)) == frame.subrange(4, 8));
    assert(spec_u64_to_le_bytes(declared_checksum(frame)) == frame.subrange(8, 16));
    assert(archive.len() + PACKET_PREFIX_LENGTH == frame.len());
    assert(frame =~= frame.subrange(0, 4) + frame.subrange(4, 8) + frame.subrange(8, 16)
        + archive);
}

/// Determinism: whatever two runs of [`Packet::serialize`] return for the same archive,
/// the two buffers hold the same bytes. The frame depends on the archive alone.
pub proof fn lemma_frames_identical(archive: Seq<u8>, first: Buffer, second: Buffer)
    requires
        spec_frame(archive) == Some(buffer_bytes(first)),
        spec_frame(archive) == Some(buffer_bytes(second)),
    ensures
        buffer_bytes(first) == buffer_bytes(second),
        buffer_bytes(first).len() == archive.len() + PACKET_PREFIX_LENGTH,
{
    lemma_frame_fields(archive);
}

/// Checksum sensitivity: a frame that passes the checks fails with the checksum
/// error once any one byte of its archive is changed, whatever the change.
pub proof fn lemma_archive_change_detected(frame: Seq<u8>, index: int, byte: u8)
    requires
        inspect(frame) is Sound,
        PACKET_PREFIX_LENGTH <= index < frame.len(),
        byte != frame[index],
    ensures
        inspect(frame.update(index, byte)) == FrameStatus::WrongChecksum(
            declared_checksum(frame),
            spec_checksum(frame_archive(frame.update(index, byte))),
        ),
{
    let changed = frame.update(index, byte);
    assert(changed.subrange(0, 4) =~= frame.subrange(0, 4));
    assert(changed.subrange(4, 8) =~= frame.subrange(4, 8));
    assert(changed.subrange(8, 16) =~= frame.subrange(8, 16));
    lemma_checksum_detects_one_byte(
        frame_archive(frame),
        frame_archive(changed),
        index - PACKET_PREFIX_LENGTH,
    );
}

/// One bit of a byte, flipped.
pub open spec fn flip_bit(byte: u8, bit: u8) -> u8 {
    byte ^ (1u8 << bit)
}

/// Checksum sensitivity, bit by bit: flipping any single bit in the archive of a
/// frame that passes the checks makes it fail with the checksum error.
pub proof fn lemma_bit_flip_detected(frame: Seq<u8>, index: int, bit: u8)
    requires
        inspect(frame) is Sound,
        PACKET_PREFIX_LENGTH <= index < frame.len(),
        bit < 8,
    ensures
        inspect(frame.update(index, flip_bit(frame[index], bit))) == FrameStatus::WrongChecksum(
            declared_checksum(frame),
            spec_checksum(frame_archive(frame.update(index, flip_bit(frame[index], bit)))),
        ),
{
    let byte = frame[index];
    assert(byte ^ (1u8 << bit) != byte) by (bit_vector)
        requires
            bit < 8,
    ;
    lemma_archive_change_detected(frame, index, flip_bit(byte, bit));
}

/// Length enforcement: a frame that passes the checks fails with the length error
/// once bytes are cut from its end, as long as the length and the version can still
/// be read. The checksum is not looked at.
pub proof fn lemma_truncation_detected(frame: Seq<u8>, kept: int)
    requires
        inspect(frame) is Sound,
        8 <= kept < frame.len(),
    ensures
        inspect(frame.take(kept)) == FrameStatus::WrongLength(
            declared_length(frame),
            kept as u32,
        ),
{
    let cut = frame.take(kept);
    assert(cut.subrange(0, 4) =~= frame.subrange(0, 4));
    assert(cut.subrange(4, 8) =~= frame.subrange(4, 8));
}

/// Version gating: a frame that declares a newer version than this build reads is
/// refused for that, whatever its length and its checksum say.
pub proof fn lemma_newer_version_rejected(frame: Seq<u8>)
    requires
        8 <= frame.len(),
        declared_version(frame) > PROTOCOL_VERSION,
    ensures
        inspect(frame) == FrameStatus::UnsupportedVersion(declared_version(frame)),
{
}

/// Version gating of a sound frame: with the version after the current one written
/// into it, a frame that passed the checks is refused with that version.
pub proof fn lemma_next_version_rejected(frame: Seq<u8>)
    requires
        inspect(frame) is Sound,
    ensures
        inspect(
            frame.subrange(0, 4) + spec_u32_to_le_bytes((PROTOCOL_VERSION + 1) as u32)
                + frame.subrange(8, frame.len() as int),
        ) == FrameStatus::UnsupportedVersion((PROTOCOL_VERSION + 1) as u32),
{
    let version = spec_u32_to_le_bytes((PROTOCOL_VERSION + 1) as u32);
    lemma_u32_written_then_read((PROTOCOL_VERSION + 1) as u32);
    let newer = frame.subrange(0, 4) + version + frame.subrange(8, frame.len() as int);
    assert(newer.subrange(4, 8) =~= version);
}

} // verus!
