//! The kinds of buffer of the graphics API, by which a buffer type chooses
//! the target that it is bound to.

use vstd::prelude::*;

verus! {

/// The target of vertex attributes.
pub const ARRAY_BUFFER: u32 = 0x8892;

/// The target of vertex array indices.
pub const ELEMENT_ARRAY_BUFFER: u32 = 0x8893;

/// The target of pixel read operations.
pub const PIXEL_PACK_BUFFER: u32 = 0x88EB;

/// A kind of buffer: it names the target that buffers of its kind are bound
/// to.
pub trait BufferType {
    const BUFFER_TYPE: u32;
}

/// Buffers of vertex attributes.
pub struct BufferTypeArray;

impl BufferType for BufferTypeArray {
    const BUFFER_TYPE: u32 = ARRAY_BUFFER;
}

/// Buffers of vertex array indices.
pub struct BufferTypeElementArray;

impl BufferType for BufferTypeElementArray {
    const BUFFER_TYPE: u32 = ELEMENT_ARRAY_BUFFER;
}

/// Buffers that pixels are read back into.
pub struct BufferTypePixel;

impl BufferType for BufferTypePixel {
    const BUFFER_TYPE: u32 = PIXEL_PACK_BUFFER;
}

/// The target of each kind of buffer.
pub proof fn buffer_targets()
    ensures
        BufferTypeArray::BUFFER_TYPE == ARRAY_BUFFER,
        BufferTypeElementArray::BUFFER_TYPE == ELEMENT_ARRAY_BUFFER,
        BufferTypePixel::BUFFER_TYPE == PIXEL_PACK_BUFFER,
{
}

/// The number of bytes that `len` items of `item_size` bytes take, or `None`
/// where the graphics API cannot be told so large a size.
pub fn byte_size(len: usize, item_size: usize) -> (r: Option<isize>)
    ensures
        r is Some <==> len * item_size <= isize::MAX,
        r matches Some(n) ==> n == len * item_size,
{
    match len.checked_mul(item_size) {
        Some(n) => {
            if n <= isize::MAX as usize {
                Some(n as isize)
            } else {
                None
            }
        },
        None => None,
    }
}

} // verus!
