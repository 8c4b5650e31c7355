use ps_buffer::BufferError;
use std::array::TryFromSliceError;
use vstd::prelude::*;
use vstd::std_specs::convert::FromSpecImpl;

verus! {

/// `rkyv::rancor::Error`: the error of the serialization engine. It is carried
/// through unread.
#[verifier::external_type_specification]
#[verifier::external_body]
pub struct ExRancorError(rkyv::rancor::Error);

/// `std::array::TryFromSliceError`: the error of converting a slice of the wrong
/// length into an array. It is carried through unread.
#[verifier::external_type_specification]
#[verifier::external_body]
pub struct ExTryFromSliceError(std::array::TryFromSliceError);

/// Why a frame could not be built, read or resolved. Each is final for its frame.
#[derive(Debug)]
pub enum PacketError {
    /// The output buffer could not be allocated or grown.
    BufferError(BufferError),
    /// The serialization engine could not encode or validate an archive.
    Rancor(rkyv::rancor::Error),
    /// The input ends before a prefix field does.
    TryFromSliceError(TryFromSliceError),
    /// The archive does not hash to the checksum of the prefix: (transmitted, computed).
    IncorrectChecksum(u64, u64),
    /// The length of the prefix is not the length of the input: (declared, actual).
    IncorrectLengthPrefix(u32, u32),
    /// The frame was written by a newer protocol than this build reads.
    UnsupportedProtocolVersion(u32),
}

impl From<BufferError> for PacketError {
    fn from(error: BufferError) -> (wrapped: Self) {
        PacketError::BufferError(error)
    }
}

impl FromSpecImpl<BufferError> for PacketError {
    open spec fn obeys_from_spec() -> bool {
        true
    }

    open spec fn from_spec(error: BufferError) -> Self {
        PacketError::BufferError(error)
    }
}

impl From<rkyv::rancor::Error> for PacketError {
    fn from(error: rkyv::rancor::Error) -> (wrapped: Self) {
        PacketError::Rancor(error)
    }
}

impl FromSpecImpl<rkyv::rancor::Error> for PacketError {
    open spec fn obeys_from_spec() -> bool {
        true
    }

    open spec fn from_spec(error: rkyv::rancor::Error) -> Self {
        PacketError::Rancor(error)
    }
}

impl From<TryFromSliceError> for PacketError {
    fn from(error: TryFromSliceError) -> (wrapped: Self) {
        PacketError::TryFromSliceError(error)
    }
}

impl FromSpecImpl<TryFromSliceError> for PacketError {
    open spec fn obeys_from_spec() -> bool {
        true
    }

    open spec fn from_spec(error: TryFromSliceError) -> Self {
        PacketError::TryFromSliceError(error)
    }
}

} // verus!
