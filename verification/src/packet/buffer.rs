use ps_buffer::{Buffer, BufferError};
use vstd::prelude::*;

verus! {

/// `ps_buffer::Buffer`: an aligned heap buffer of bytes. Nothing is known of a value
/// but what [`buffer_bytes`] names.
#[verifier::external_type_specification]
#[verifier::external_body]
pub struct ExBuffer(ps_buffer::Buffer);

/// `ps_buffer::BufferError`: why an allocation or a release failed. It is carried
/// through unread.
#[verifier::external_type_specification]
#[verifier::external_body]
pub struct ExBufferError(ps_buffer::BufferError);

/// The bytes that a buffer holds: what it dereferences to, in order.
pub uninterp spec fn buffer_bytes(buffer: Buffer) -> Seq<u8>;

/// The longest content that [`extend`] may be asked to produce.
///
/// `ps_buffer` grows a buffer to the next power of two above its length plus a
/// 16-byte header, and caps that size at a quarter of the address space less the
/// header. Above the cap it copies without having reserved the room.
pub const BUFFER_LIMIT: usize = usize::MAX / 4 - 31;

/// `ps_buffer::Buffer::with_capacity`.
///
/// Trusted: on success the buffer is empty. The call fails where the allocator does,
/// and always where the capacity and the allocator's 16-byte header together
/// overflow `usize`.
pub assume_specification[ Buffer::with_capacity ](capacity: usize) -> (made: Result<
    Buffer,
    BufferError,
>)
    ensures
        made matches Ok(buffer) ==> buffer_bytes(buffer) == Seq::<u8>::empty(),
        capacity + 16 > usize::MAX ==> made is Err,
;

/// `ps_buffer::Buffer::extend_from_slice`.
///
/// Trusted: on success the bytes are appended to the content, which is otherwise kept.
/// The call fails where the allocator does.
#[verifier::external_body]
pub(crate) fn extend(buffer: &mut Buffer, bytes: &[u8]) -> (done: Result<(), BufferError>)
    requires
        buffer_bytes(*old(buffer)).len() + bytes@.len() <= BUFFER_LIMIT,
    ensures
        done is Ok ==> buffer_bytes(*final(buffer)) == buffer_bytes(*old(buffer)) + bytes@,
{
    match buffer.extend_from_slice(bytes) {
        Ok(_) => Ok(()),
        Err(error) => Err(error),
    }
}

} // verus!
