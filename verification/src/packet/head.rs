use super::types::{PacketType, SerialNumber};
use vstd::prelude::*;

verus! {

/// The fixed header of a packet. It is made once, when the envelope is, and not changed.
#[derive(Clone, Copy, Debug, Eq, Hash, Ord, PartialEq, PartialOrd, Structural)]
pub struct PacketHead {
    /// The payload's type tag.
    pub packet_type: PacketType,
    /// Used for packet ordering in unreliable protocols; absent otherwise.
    pub serial_number: Option<SerialNumber>,
}

impl Default for PacketHead {
    fn default() -> (head: Self)
        ensures
            head.packet_type == 0,
            head.serial_number is None,
    {
        PacketHead { packet_type: 0, serial_number: None }
    }
}

} // verus!
