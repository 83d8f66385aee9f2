//! What a material binds for its shaders: the layout of its bind group and
//! the buffers that fill it.

use bevy::math::Vec4;
use bevy::render::render_resource::std140::AsStd140;
use vstd::prelude::*;

verus! {

/// The shader stages that may read a binding.
#[derive(Clone, Copy, Debug, PartialEq, Eq)]
pub struct StageSet {
    pub vertex: bool,
    pub fragment: bool,
    pub compute: bool,
}

/// One entry of a bind group layout: a single uniform buffer.
#[derive(Clone, Copy, Debug, PartialEq, Eq)]
pub struct UniformLayoutEntry {
    /// Index of the binding, as the shader names it.
    pub binding: u32,
    pub visibility: StageSet,
    /// Whether the buffer is bound at an offset that each draw call gives.
    pub has_dynamic_offset: bool,
    /// Least number of bytes that a buffer bound here must hold, if the
    /// layout fixes one.
    pub min_binding_size: Option<u64>,
}

/// A uniform buffer to create and to bind whole at one binding.
#[derive(Debug, PartialEq, Eq)]
pub struct UniformBuffer {
    /// Index of the binding that the buffer fills.
    pub binding: u32,
    /// The bytes that the buffer holds from the start.
    pub contents: Vec<u8>,
    /// Whether the buffer may later be written to by a copy.
    pub copy_dst: bool,
}

/// Whether a buffer can be bound at a layout entry: the binding is the same
/// and the buffer is as large as the entry asks.
pub open spec fn fills_entry(buffer: UniformBuffer, entry: UniformLayoutEntry) -> bool {
    &&& buffer.binding == entry.binding
    &&& entry.min_binding_size matches Some(size) ==> buffer.contents@.len() >= size
}

/// Whether buffers make up a bind group of a layout: one buffer for each
/// entry, in the order of the entries.
pub open spec fn fills_layout(buffers: Seq<UniformBuffer>, layout: Seq<UniformLayoutEntry>) -> bool {
    &&& buffers.len() == layout.len()
    &&& forall|i: int| 0 <= i < layout.len() ==> fills_entry(#[trigger] buffers[i], layout[i])
}

/// Size in bytes of a vector of four single-precision numbers in a uniform
/// buffer.
pub open spec fn vec4_block_size() -> nat {
    16
}

/// Calls `std140_size_static` of `AsStd140` for `Vec4`, which is the size in
/// memory of the vector's counterpart in the std140 layout: four
/// single-precision fields in a row, 16 bytes.
#[verifier::external_body]
pub(crate) fn vec4_std140_size() -> (size: usize)
    ensures
        size == vec4_block_size(),
{
    Vec4::std140_size_static()
}

/// The least size that a layout asks of a buffer that is to hold `len`
/// bytes: none where there is nothing to hold.
pub fn min_binding_size(len: usize) -> (size: Option<u64>)
    ensures
        len == 0 ==> size is None,
        len > 0 ==> size == Some(len as u64),
{
    if len == 0 {
        None
    } else {
        Some(len as u64)
    }
}

} // verus!
