use super::constants::{PACKET_PREFIX_LENGTH, PROTOCOL_VERSION};
use super::error::PacketError;
use super::utils::spec_checksum;
use std::array::TryFromSliceError;
use vstd::prelude::*;
use vstd::slice::slice_subrange;

verus! {

/// The four bytes of a `u32`, least significant first: the byte at place `i` is the
/// number divided `i` times by 256, modulo 256.
pub open spec fn spec_u32_to_le_bytes(value: u32) -> Seq<u8> {
    seq![
        (value % 0x100) as u8,
        (value / 0x100 % 0x100) as u8,
        (value / 0x100 / 0x100 % 0x100) as u8,
        (value / 0x100 / 0x100 / 0x100) as u8,
    ]
}

/// The `u32` that four bytes stand for, least significant first.
pub open spec fn spec_u32_from_le_bytes(bytes: Seq<u8>) -> u32 {
    (bytes[0] + 0x100 * (bytes[1] + 0x100 * (bytes[2] + 0x100 * bytes[3]))) as u32
}

/// The eight bytes of a `u64`, least significant first: those of its low half, then
/// those of its high half.
pub open spec fn spec_u64_to_le_bytes(value: u64) -> Seq<u8> {
    spec_u32_to_le_bytes((value % 0x1_0000_0000) as u32) + spec_u32_to_le_bytes(
        (value / 0x1_0000_0000) as u32,
    )
}

/// The `u64` that eight bytes stand for, least significant first.
pub open spec fn spec_u64_from_le_bytes(bytes: Seq<u8>) -> u64 {
    (spec_u32_from_le_bytes(bytes.subrange(0, 4)) + 0x1_0000_0000 * spec_u32_from_le_bytes(
        bytes.subrange(4, 8),
    )) as u64
}

/// The 16 bytes in front of an archive: the total length of the frame, the protocol
/// version and the checksum of the archive, each little-endian.
pub open spec fn spec_prefix(length: u32, version: u32, sum: u64) -> Seq<u8> {
    spec_u32_to_le_bytes(length) + spec_u32_to_le_bytes(version) + spec_u64_to_le_bytes(sum)
}

/// The wire frame of `archive`: its prefix, then the archive itself.
///
/// The length field counts the whole frame, prefix included. An archive whose frame
/// would be longer than the field can say has no frame.
pub open spec fn spec_frame(archive: Seq<u8>) -> Option<Seq<u8>> {
    if archive.len() + PACKET_PREFIX_LENGTH <= u32::MAX {
        Some(
            spec_prefix(
                (archive.len() + PACKET_PREFIX_LENGTH) as u32,
                PROTOCOL_VERSION,
                spec_checksum(archive),
            ) + archive,
        )
    } else {
        None
    }
}

/// The total length that a frame declares, at offset 0.
pub open spec fn declared_length(frame: Seq<u8>) -> u32 {
    spec_u32_from_le_bytes(frame.subrange(0, 4))
}

/// The protocol version that a frame declares, at offset 4.
pub open spec fn declared_version(frame: Seq<u8>) -> u32 {
    spec_u32_from_le_bytes(frame.subrange(4, 8))
}

/// The checksum that a frame carries, at offset 8.
pub open spec fn declared_checksum(frame: Seq<u8>) -> u64 {
    spec_u64_from_le_bytes(frame.subrange(8, 16))
}

/// What follows the prefix of a frame.
pub open spec fn frame_archive(frame: Seq<u8>) -> Seq<u8> {
    frame.subrange(PACKET_PREFIX_LENGTH as int, frame.len() as int)
}

/// What the structural checks find in a received byte sequence.
pub enum FrameStatus {
    /// The input ends before a prefix field that the next check reads.
    Truncated,
    /// The declared version is newer than [`PROTOCOL_VERSION`].
    UnsupportedVersion(u32),
    /// The declared length is not the length of the input: (declared, actual).
    WrongLength(u32, u32),
    /// The archive does not hash to the carried checksum: (carried, computed).
    WrongChecksum(u64, u64),
    /// Version, length and checksum all hold.
    Sound,
}

/// The structural checks on a received byte sequence, in their order: the version
/// first, then the length, then the checksum. The first one that fails decides.
pub open spec fn inspect(frame: Seq<u8>) -> FrameStatus {
    if frame.len() < 8 {
        FrameStatus::Truncated
    } else if declared_version(frame) > PROTOCOL_VERSION {
        FrameStatus::UnsupportedVersion(declared_version(frame))
    } else if declared_length(frame) != frame.len() {
        FrameStatus::WrongLength(declared_length(frame), frame.len() as u32)
    } else if frame.len() < PACKET_PREFIX_LENGTH {
        FrameStatus::Truncated
    } else if spec_checksum(frame_archive(frame)) != declared_checksum(frame) {
        FrameStatus::WrongChecksum(declared_checksum(frame), spec_checksum(frame_archive(frame)))
    } else {
        FrameStatus::Sound
    }
}

/// Whether `error` is the error that stands for a failed check.
pub open spec fn reports(error: PacketError, status: FrameStatus) -> bool {
    match status {
        FrameStatus::Truncated => error is TryFromSliceError,
        FrameStatus::UnsupportedVersion(got) => error == PacketError::UnsupportedProtocolVersion(
            got,
        ),
        FrameStatus::WrongLength(declared, actual) => error == PacketError::IncorrectLengthPrefix(
            declared,
            actual,
        ),
        FrameStatus::WrongChecksum(carried, computed) => error == PacketError::IncorrectChecksum(
            carried,
            computed,
        ),
        FrameStatus::Sound => false,
    }
}

/// `<[u8; N] as TryFrom<&[u8]>>::try_from`.
///
/// Trusted: the conversion succeeds exactly on a slice of `N` bytes and copies them.
#[verifier::external_body]
fn array_from_slice<const N: usize>(bytes: &[u8]) -> (array: Result<[u8; N], TryFromSliceError>)
    ensures
        array is Ok <==> bytes@.len() == N,
        array matches Ok(copied) ==> copied@ == bytes@,
{
    <[u8; N]>::try_from(bytes)
}

/// The part of `data` from `offset` on, at most `width` bytes long. It is shorter than
/// `width` where the input ends early.
fn field_at(data: &[u8], offset: usize, width: usize) -> (field: &[u8])
    requires
        0 < width,
        offset + width <= usize::MAX,
    ensures
        offset + width <= data@.len() ==> field@ == data@.subrange(
            offset as int,
            offset + width,
        ),
        offset + width > data@.len() ==> field@.len() < width,
{
    let len = data.len();
    if offset + width <= len {
        slice_subrange(data, offset, offset + width)
    } else if offset <= len {
        slice_subrange(data, offset, len)
    } else {
        slice_subrange(data, len, len)
    }
}

/// Writes a `u32` as four bytes, least significant first.
pub(crate) fn u32_to_le_bytes(value: u32) -> (bytes: [u8; 4])
    ensures
        bytes@ == spec_u32_to_le_bytes(value),
{
    let bytes = [
        (value % 0x100) as u8,
        (value / 0x100 % 0x100) as u8,
        (value / 0x100 / 0x100 % 0x100) as u8,
        (value / 0x100 / 0x100 / 0x100) as u8,
    ];
    assert(bytes@ =~= spec_u32_to_le_bytes(value));
    bytes
}

/// Reads a `u32` from four bytes, least significant first.
pub(crate) fn u32_from_le_bytes(bytes: &[u8; 4]) -> (value: u32)
    ensures
        value == spec_u32_from_le_bytes(bytes@),
{
    let high = bytes[2] as u32 + 0x100 * (bytes[3] as u32);
    bytes[0] as u32 + 0x100 * (bytes[1] as u32 + 0x100 * high)
}

/// Writes a `u64` as eight bytes, least significant first.
pub(crate) fn u64_to_le_bytes(value: u64) -> (bytes: [u8; 8])
    ensures
        bytes@ == spec_u64_to_le_bytes(value),
{
    let low = u32_to_le_bytes((value % 0x1_0000_0000) as u32);
    let high = u32_to_le_bytes((value / 0x1_0000_0000) as u32);
    let bytes = [low[0], low[1], low[2], low[3], high[0], high[1], high[2], high[3]];
    assert(bytes@ =~= low@ + high@);
    bytes
}

/// Reads a `u64` from eight bytes, least significant first.
pub(crate) fn u64_from_le_bytes(bytes: &[u8; 8]) -> (value: u64)
    ensures
        value == spec_u64_from_le_bytes(bytes@),
{
    let low = [bytes[0], bytes[1], bytes[2], bytes[3]];
    let high = [bytes[4], bytes[5], bytes[6], bytes[7]];
    assert(low@ =~= bytes@.subrange(0, 4));
    assert(high@ =~= bytes@.subrange(4, 8));
    u32_from_le_bytes(&low) as u64 + 0x1_0000_0000 * (u32_from_le_bytes(&high) as u64)
}

/// Reads the little-endian `u32` at `offset`, or fails where the input ends before it does.
pub(crate) fn read_u32(data: &[u8], offset: usize) -> (field: Result<u32, TryFromSliceError>)
    requires
        offset + 4 <= usize::MAX,
    ensures
        field is Ok <==> offset + 4 <= data@.len(),
        field matches Ok(value) ==> value == spec_u32_from_le_bytes(
            data@.subrange(offset as int, offset + 4),
        ),
{
    let bytes = array_from_slice::<4>(field_at(data, offset, 4))?;
    Ok(u32_from_le_bytes(&bytes))
}

/// Reads the little-endian `u64` at `offset`, or fails where the input ends before it does.
pub(crate) fn read_u64(data: &[u8], offset: usize) -> (field: Result<u64, TryFromSliceError>)
    requires
        offset + 8 <= usize::MAX,
    ensures
        field is Ok <==> offset + 8 <= data@.len(),
        field matches Ok(value) ==> value == spec_u64_from_le_bytes(
            data@.subrange(offset as int, offset + 8),
        ),
{
    let bytes = array_from_slice::<8>(field_at(data, offset, 8))?;
    Ok(u64_from_le_bytes(&bytes))
}

/// A number below 256, under any multiple of 256, is found again by dividing.
proof fn lemma_lowest_byte(low: int, rest: int)
    requires
        0 <= low < 0x100,
    ensures
        (low + 0x100 * rest) % 0x100 == low,
        (low + 0x100 * rest) / 0x100 == rest,
{
}

/// Writing a `u32` and reading it again gives the same number.
pub proof fn lemma_u32_written_then_read(value: u32)
    ensures
        spec_u32_to_le_bytes(value).len() == 4,
        spec_u32_from_le_bytes(spec_u32_to_le_bytes(value)) == value,
{
    let second = value / 0x100;
    let third = second / 0x100;
    let fourth = third / 0x100;
    assert(value == value % 0x100 + 0x100 * second);
    assert(second == second % 0x100 + 0x100 * third);
    assert(third == third % 0x100 + 0x100 * fourth);
    assert(fourth < 0x100);
}

/// The four bytes of a number are the only four that stand for it.
pub proof fn lemma_u32_read_then_written(bytes: Seq<u8>)
    requires
        bytes.len() == 4,
    ensures
        spec_u32_to_le_bytes(spec_u32_from_le_bytes(bytes)) == bytes,
{
    let third = bytes[2] + 0x100 * bytes[3];
    let second = bytes[1] + 0x100 * third;
    let value = bytes[0] + 0x100 * second;
    lemma_lowest_byte(bytes[2] as int, bytes[3] as int);
    lemma_lowest_byte(bytes[1] as int, third);
    lemma_lowest_byte(bytes[0] as int, second);
    assert(0 <= value <= u32::MAX);
    assert(spec_u32_from_le_bytes(bytes) == value);
    assert(spec_u32_to_le_bytes(value as u32) =~= bytes);
}

/// Writing a `u64` and reading it again gives the same number.
pub proof fn lemma_u64_written_then_read(value: u64)
    ensures
        spec_u64_to_le_bytes(value).len() == 8,
        spec_u64_from_le_bytes(spec_u64_to_le_bytes(value)) == value,
{
    let low = (value % 0x1_0000_0000) as u32;
    let high = (value / 0x1_0000_0000) as u32;
    let written = spec_u64_to_le_bytes(value);
    lemma_u32_written_then_read(low);
    lemma_u32_written_then_read(high);
    assert(written.subrange(0, 4) =~= spec_u32_to_le_bytes(low));
    assert(written.subrange(4, 8) =~= spec_u32_to_le_bytes(high));
    assert(value == low + 0x1_0000_0000 * high);
}

/// The eight bytes of a number are the only eight that stand for it.
pub proof fn lemma_u64_read_then_written(bytes: Seq<u8>)
    requires
        bytes.len() == 8,
    ensures
        spec_u64_to_le_bytes(spec_u64_from_le_bytes(bytes)) == bytes,
{
    let first = bytes.subrange(0, 4);
    let second = bytes.subrange(4, 8);
    let low = spec_u32_from_le_bytes(first);
    let high = spec_u32_from_le_bytes(second);
    let value = low + 0x1_0000_0000 * high;
    lemma_u32_read_then_written(first);
    lemma_u32_read_then_written(second);
    assert(0 <= value <= u64::MAX);
    assert(value % 0x1_0000_0000 == low);
    assert(value / 0x1_0000_0000 == high);
    assert(spec_u64_from_le_bytes(bytes) == value);
    assert(spec_u64_to_le_bytes(value as u64) == first + second);
    assert(first + second =~= bytes);
}

} // verus!
