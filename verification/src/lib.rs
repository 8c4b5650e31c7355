//! A binary wire framing protocol for point-to-point messages.
//!
//! A frame is a fixed 16-byte prefix (total length, protocol version, checksum) followed
//! by an archive: the encoded header and body of one packet. The [`packet`] module holds
//! the envelope types, the frame codec and the resolver contract.

pub mod packet;
