use super::error::PacketError;
use super::wire::{frame_archive, inspect, reports, FrameStatus};
use super::{Packet, Payload};
use vstd::prelude::*;

verus! {

/// The handler of one payload type. A transport finds it by the type tag of a
/// header and gives it the frame, or the archive of a frame that was checked before.
pub trait PacketResolver {
    /// The payload type whose packets this handler takes.
    type Target: Payload;

    /// The handle of the connection that a packet arrived on. The handler owns it
    /// for the call and shares nothing else.
    type Connection;

    /// Acts on the archive of a frame that passed [`Packet::access`]. It reads the
    /// archive and does not check the frame again.
    fn resolve(packet: &[u8], connection: Self::Connection) -> Result<(), PacketError>;

    /// Checks a received frame, then resolves its archive.
    ///
    /// Where a check fails its error is returned and the handler does not run;
    /// otherwise the answer is the handler's, for the archive of the frame.
    fn resolve_bytes(bytes: &[u8], connection: Self::Connection) -> (outcome: Result<
        (),
        PacketError,
    >)
        ensures
            inspect(bytes@) is Sound ==> exists|packet: &[u8]|
                packet@ == frame_archive(bytes@) && call_ensures(
                    Self::resolve,
                    (packet, connection),
                    outcome,
                ),
            !(inspect(bytes@) is Sound) ==> outcome is Err && reports(
                outcome->Err_0,
                inspect(bytes@),
            ),
    {
        match Packet::<Self::Target>::access(bytes) {
            Ok(packet) => Self::resolve(packet, connection),
            Err(error) => Err(error),
        }
    }
}

} // verus!
