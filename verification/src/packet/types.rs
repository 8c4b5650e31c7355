use vstd::prelude::*;

verus! {

/// Tag that tells payload schemas apart. Each payload type picks its own.
pub type PacketType = u32;

/// Ordering tag for transports that may reorder packets.
pub type SerialNumber = u64;

} // verus!
