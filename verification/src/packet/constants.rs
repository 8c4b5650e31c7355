use vstd::prelude::*;

verus! {

/// Size in bytes of the fixed frame prefix: length (4), protocol version (4), checksum (8).
pub const PACKET_PREFIX_LENGTH: usize = 16;

/// Version of the framing protocol that this build writes, and the newest one it reads.
pub const PROTOCOL_VERSION: u32 = 1;

} // verus!
