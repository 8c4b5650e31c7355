pub mod body;
pub mod buffer;
pub mod constants;
pub mod error;
pub mod head;
pub mod laws;
pub mod resolver;
pub mod types;
pub mod utils;
pub mod wire;

use buffer::{buffer_bytes, extend, BUFFER_LIMIT};
use constants::{PACKET_PREFIX_LENGTH, PROTOCOL_VERSION};
use error::PacketError;
use head::PacketHead;
use laws::lemma_frame_round_trip;
use ps_buffer::Buffer;
use types::PacketType;
use utils::checksum;
use vstd::prelude::*;
use vstd::slice::slice_subrange;
use vstd::std_specs::convert::FromSpecImpl;
use wire::{
    frame_archive, inspect, read_u32, read_u64, reports, spec_frame, u32_to_le_bytes,
    u64_to_le_bytes, FrameStatus,
};

verus! {

/// What a type must offer to travel as the body of a packet: its own type tag.
///
/// The tag belongs to the type, not to a value, and has to stay the same across
/// protocol versions. Two payload types must not share one.
pub trait Payload {
    /// Reports the tag of this payload type.
    fn packet_type() -> PacketType;
}

/// The envelope of one message: a header and the payload it describes.
#[derive(Clone, Copy, Debug, Eq, Hash, Ord, PartialEq, PartialOrd)]
pub struct Packet<T> {
    pub head: PacketHead,
    pub body: T,
}

impl<T> Packet<T> {
    /// Frames an archive for the wire: the prefix, then the archive, as [`spec_frame`]
    /// lays them out.
    ///
    /// `archive` is the encoded form of a packet, as the serialization engine gave it.
    /// The frame is built in a buffer of its own, and either the whole frame is returned
    /// or an error. A frame that is returned passes every check of [`Packet::access`],
    /// which hands out the archive again.
    ///
    /// The error is that of the buffer: where the allocator fails, and always where the
    /// frame would be longer than its 32-bit length field can say or than a buffer can
    /// safely grow ([`BUFFER_LIMIT`]).
    pub fn serialize(archive: &[u8]) -> (framed: Result<Buffer, PacketError>)
        ensures
            framed matches Ok(buffer) ==> spec_frame(archive@) == Some(buffer_bytes(buffer)),
            framed matches Ok(buffer) ==> inspect(buffer_bytes(buffer)) is Sound && frame_archive(
                buffer_bytes(buffer),
            ) == archive@,
            framed matches Err(error) ==> error is BufferError,
            archive@.len() + PACKET_PREFIX_LENGTH > u32::MAX ==> framed is Err,
            archive@.len() + PACKET_PREFIX_LENGTH > BUFFER_LIMIT ==> framed is Err,
    {
        // A frame too long for its length field or for a buffer is asked for as the
        // largest capacity there is, which the allocator always refuses.
        let fits = archive.len() <= u32::MAX as usize - PACKET_PREFIX_LENGTH && archive.len()
            <= BUFFER_LIMIT - PACKET_PREFIX_LENGTH;
        let length = if fits {
            archive.len() + PACKET_PREFIX_LENGTH
        } else {
            usize::MAX
        };
        let mut buffer = match Buffer::with_capacity(length) {
            Ok(buffer) => buffer,
            Err(error) => return Err(PacketError::BufferError(error)),
        };
        let length_field = u32_to_le_bytes(length as u32);
        let version_field = u32_to_le_bytes(PROTOCOL_VERSION);
        let checksum_field = u64_to_le_bytes(checksum(archive));
        if let Err(error) = extend(&mut buffer, length_field.as_slice()) {
            return Err(PacketError::BufferError(error));
        }
        if let Err(error) = extend(&mut buffer, version_field.as_slice()) {
            return Err(PacketError::BufferError(error));
        }
        if let Err(error) = extend(&mut buffer, checksum_field.as_slice()) {
            return Err(PacketError::BufferError(error));
        }
        if let Err(error) = extend(&mut buffer, archive) {
            return Err(PacketError::BufferError(error));
        }
        proof {
            lemma_frame_round_trip(archive@);
        }
        Ok(buffer)
    }

    /// Checks a received frame and hands out its archive, without copying.
    ///
    /// The checks run in the order of [`inspect`] and stop at the first that fails:
    /// version, length, checksum. The archive is returned exactly when all hold.
    pub fn access(data: &[u8]) -> (accessed: Result<&[u8], PacketError>)
        ensures
            match accessed {
                Ok(archive) => inspect(data@) is Sound && archive@ == frame_archive(data@),
                Err(error) => reports(error, inspect(data@)),
            },
    {
        let length = match read_u32(data, 0) {
            Ok(length) => length,
            Err(error) => return Err(PacketError::TryFromSliceError(error)),
        };
        let proto_ver = match read_u32(data, 4) {
            Ok(proto_ver) => proto_ver,
            Err(error) => return Err(PacketError::TryFromSliceError(error)),
        };
        if proto_ver > PROTOCOL_VERSION {
            return Err(PacketError::UnsupportedProtocolVersion(proto_ver));
        }
        let real_length = data.len() as u32;
        if length as usize != data.len() {
            return Err(PacketError::IncorrectLengthPrefix(length, real_length));
        }
        let read_checksum = match read_u64(data, 8) {
            Ok(read_checksum) => read_checksum,
            Err(error) => return Err(PacketError::TryFromSliceError(error)),
        };
        let archive = slice_subrange(data, PACKET_PREFIX_LENGTH, data.len());
        let real_checksum = checksum(archive);
        if real_checksum != read_checksum {
            return Err(PacketError::IncorrectChecksum(read_checksum, real_checksum));
        }
        Ok(archive)
    }
}

impl<T: Default> Default for Packet<T> {
    fn default() -> (packet: Self)
        ensures
            packet.head.packet_type == 0,
            packet.head.serial_number is None,
            call_ensures(T::default, (), packet.body),
    {
        Packet { head: PacketHead::default(), body: T::default() }
    }
}

impl<T: Payload> From<T> for Packet<T> {
    /// Wraps a payload: the header takes the tag that the payload's type reports, and
    /// no serial number.
    fn from(value: T) -> (packet: Self)
        ensures
            call_ensures(T::packet_type, (), packet.head.packet_type),
            packet.head.serial_number is None,
            packet.body == value,
    {
        Packet { head: PacketHead { packet_type: T::packet_type(), serial_number: None }, body: value }
    }
}

/// What a payload type reports as its tag is known only once it is asked, so the
/// conversion is described by the contract of `from` and not by a spec function.
impl<T: Payload> FromSpecImpl<T> for Packet<T> {
    open spec fn obeys_from_spec() -> bool {
        false
    }

    open spec fn from_spec(value: T) -> Self {
        Packet {
            head: PacketHead {
                packet_type: choose|tag: PacketType| call_ensures(T::packet_type, (), tag),
                serial_number: None,
            },
            body: value,
        }
    }
}

} // verus!
