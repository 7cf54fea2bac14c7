//! The vertex buffer and the index buffer: how large they are made.

use imgui::{DrawIdx, DrawVert};
use vstd::prelude::*;

use crate::d3d11::{
    BufferDesc, D3D11_BIND_INDEX_BUFFER, D3D11_BIND_VERTEX_BUFFER, D3D11_CPU_ACCESS_WRITE,
    D3D11_USAGE_DYNAMIC,
};
use crate::renderer::Renderer;

verus! {

/// How many vertices a new vertex buffer has room for beyond those that are needed
pub const VERTEX_BUF_ADD_CAPACITY: usize = 5000;

/// How many indices a new index buffer has room for beyond those that are needed
pub const INDEX_BUF_ADD_CAPACITY: usize = 10000;

/// The size of a vertex in bytes
pub const VERTEX_SIZE: usize = 20;

/// The size of an index in bytes
pub const INDEX_SIZE: usize = 2;

/// The number that a 32-bit word keeps of `n`.
pub open spec fn low_word(n: nat) -> u32 {
    (n % 0x1_0000_0000) as u32
}

/// Keeps the low 32 bits of a number.
pub(crate) fn truncate(n: usize) -> (word: u32)
    ensures
        word == low_word(n as nat),
{
    let wide: u64 = n as u64;
    assert(wide as u32 == wide % 0x1_0000_0000) by (bit_vector);
    wide as u32
}

/// Calls `core::mem::size_of` for `imgui::DrawVert`, a `repr(C)` struct of four single-precision
/// numbers and four bytes, which has therefore a size of twenty bytes.
#[verifier::external_body]
pub(crate) fn vertex_size() -> (size: usize)
    ensures
        size == VERTEX_SIZE,
{
    core::mem::size_of::<DrawVert>()
}

/// The size of `imgui::DrawIdx`, a 16-bit number.
pub(crate) fn index_size() -> (size: usize)
    ensures
        size == INDEX_SIZE,
{
    core::mem::size_of::<DrawIdx>()
}

/// A buffer of the device and the number of items that it has room for
#[derive(Debug)]
pub struct Buffer(u64, usize);

/// What a buffer is: its handle and its room
pub struct BufferView {
    pub object: u64,
    pub len: usize,
}

impl View for Buffer {
    type V = BufferView;

    closed spec fn view(&self) -> BufferView {
        BufferView { object: self.0, len: self.1 }
    }
}

impl Buffer {
    /// The buffer with the given handle and the given room.
    pub fn new(object: u64, len: usize) -> (buffer: Self)
        ensures
            buffer@ == (BufferView { object, len }),
    {
        Buffer(object, len)
    }

    /// The number of items that the buffer has room for.
    pub fn len(&self) -> (len: usize)
        ensures
            len == self@.len,
    {
        self.1
    }

    /// The handle of the buffer.
    pub fn get_buf(&self) -> (object: u64)
        ensures
            object == self@.object,
    {
        self.0
    }
}

/// A buffer that is to be created: its description, and the number of items that it will have room
/// for
#[derive(Clone, Copy, Debug, PartialEq, Eq)]
pub struct BufferPlan {
    pub desc: BufferDesc,
    pub len: usize,
}

/// A dynamic buffer that the processor writes and the given pipeline stage reads, of as many bytes
/// as a 32-bit word keeps of the size of its items.
pub open spec fn buffer_plan(len: nat, item_size: nat, bind_flags: u32) -> BufferPlan {
    BufferPlan {
        desc: BufferDesc {
            byte_width: low_word(len * item_size),
            usage: D3D11_USAGE_DYNAMIC,
            bind_flags,
            cpu_access_flags: D3D11_CPU_ACCESS_WRITE,
            misc_flags: 0,
            structure_byte_stride: 0,
        },
        len: len as usize,
    }
}

/// The vertex buffer that is created where the given number of vertices is needed.
pub open spec fn vertex_buffer_plan(vtx_count: nat) -> BufferPlan {
    buffer_plan(
        vtx_count + VERTEX_BUF_ADD_CAPACITY as nat,
        VERTEX_SIZE as nat,
        D3D11_BIND_VERTEX_BUFFER,
    )
}

/// The index buffer that is created where the given number of indices is needed.
pub open spec fn index_buffer_plan(idx_count: nat) -> BufferPlan {
    buffer_plan(
        idx_count + INDEX_BUF_ADD_CAPACITY as nat,
        INDEX_SIZE as nat,
        D3D11_BIND_INDEX_BUFFER,
    )
}

/// Whether the size of a vertex buffer for so many vertices is a machine number.
pub open spec fn vertex_buffer_fits(vtx_count: nat) -> bool {
    (vtx_count + VERTEX_BUF_ADD_CAPACITY) * VERTEX_SIZE <= usize::MAX
}

/// Whether the size of an index buffer for so many indices is a machine number.
pub open spec fn index_buffer_fits(idx_count: nat) -> bool {
    (idx_count + INDEX_BUF_ADD_CAPACITY) * INDEX_SIZE <= usize::MAX
}

/// Whether so many items, and a reserve, have a size that is a machine number.
pub(crate) fn fits(count: usize, reserve: usize, item_size: usize) -> (result: bool)
    requires
        item_size > 0,
    ensures
        result == ((count + reserve) * item_size <= usize::MAX),
{
    match count.checked_add(reserve) {
        Some(len) => len.checked_mul(item_size).is_some(),
        None => {
            assert((count + reserve) * item_size >= count + reserve) by (nonlinear_arith)
                requires
                    item_size > 0,
            ;
            false
        },
    }
}

/// Describes a dynamic buffer for `len` items of the given size.
fn plan_buffer(len: usize, item_size: usize, bind_flags: u32) -> (plan: BufferPlan)
    requires
        len * item_size <= usize::MAX,
    ensures
        plan == buffer_plan(len as nat, item_size as nat, bind_flags),
{
    let bytes: usize = len * item_size;
    BufferPlan {
        desc: BufferDesc {
            byte_width: truncate(bytes),
            usage: D3D11_USAGE_DYNAMIC,
            bind_flags,
            cpu_access_flags: D3D11_CPU_ACCESS_WRITE,
            misc_flags: 0,
            structure_byte_stride: 0,
        },
        len,
    }
}

impl Renderer {
    /// Describes a vertex buffer with room for the given number of vertices and some more.
    pub fn create_vertex_buffer(vtx_count: usize) -> (plan: BufferPlan)
        requires
            vertex_buffer_fits(vtx_count as nat),
        ensures
            plan == vertex_buffer_plan(vtx_count as nat),
            plan.len == vtx_count + 5000,
            plan.desc.byte_width == (vtx_count + 5000) * 20 % 0x1_0000_0000,
    {
        plan_buffer(vtx_count + VERTEX_BUF_ADD_CAPACITY, vertex_size(), D3D11_BIND_VERTEX_BUFFER)
    }

    /// Describes an index buffer with room for the given number of indices and some more.
    pub fn create_index_buffer(idx_count: usize) -> (plan: BufferPlan)
        requires
            index_buffer_fits(idx_count as nat),
        ensures
            plan == index_buffer_plan(idx_count as nat),
            plan.len == idx_count + 10000,
            plan.desc.byte_width == (idx_count + 10000) * 2 % 0x1_0000_0000,
    {
        plan_buffer(idx_count + INDEX_BUF_ADD_CAPACITY, index_size(), D3D11_BIND_INDEX_BUFFER)
    }
}

/// A new vertex buffer has room for all that is needed, and its bytes hold all that it has room
/// for, wherever the number of these bytes is a 32-bit number. The same holds of a new index
/// buffer.
pub proof fn new_buffers_hold_what_they_count(vtx_count: nat, idx_count: nat)
    requires
        vertex_buffer_fits(vtx_count),
        index_buffer_fits(idx_count),
        (vtx_count + VERTEX_BUF_ADD_CAPACITY) * VERTEX_SIZE <= u32::MAX,
        (idx_count + INDEX_BUF_ADD_CAPACITY) * INDEX_SIZE <= u32::MAX,
    ensures
        vertex_buffer_plan(vtx_count).len >= vtx_count,
        vertex_buffer_plan(vtx_count).desc.byte_width == vertex_buffer_plan(vtx_count).len
            * VERTEX_SIZE,
        index_buffer_plan(idx_count).len >= idx_count,
        index_buffer_plan(idx_count).desc.byte_width == index_buffer_plan(idx_count).len
            * INDEX_SIZE,
{
}

/// A new vertex buffer has room for five thousand vertices more than are needed, of twenty bytes
/// each; and a new index buffer has room for ten thousand indices more than are needed, of two bytes
/// each. The number of bytes is what a 32-bit word keeps of it. Both are dynamic, written by the
/// processor, and bound for vertices and for indices.
pub proof fn new_buffers_have_a_reserve(vtx_count: nat, idx_count: nat)
    requires
        vertex_buffer_fits(vtx_count),
        index_buffer_fits(idx_count),
    ensures
        vertex_buffer_plan(vtx_count).len == vtx_count + 5000,
        vertex_buffer_plan(vtx_count).desc.byte_width == (vtx_count + 5000) * 20 % 0x1_0000_0000,
        vertex_buffer_plan(vtx_count).desc.usage == D3D11_USAGE_DYNAMIC,
        vertex_buffer_plan(vtx_count).desc.bind_flags == D3D11_BIND_VERTEX_BUFFER,
        vertex_buffer_plan(vtx_count).desc.cpu_access_flags == D3D11_CPU_ACCESS_WRITE,
        vertex_buffer_plan(vtx_count).desc.misc_flags == 0,
        vertex_buffer_plan(vtx_count).desc.structure_byte_stride == 0,
        index_buffer_plan(idx_count).len == idx_count + 10000,
        index_buffer_plan(idx_count).desc.byte_width == (idx_count + 10000) * 2 % 0x1_0000_0000,
        index_buffer_plan(idx_count).desc.usage == D3D11_USAGE_DYNAMIC,
        index_buffer_plan(idx_count).desc.bind_flags == D3D11_BIND_INDEX_BUFFER,
        index_buffer_plan(idx_count).desc.cpu_access_flags == D3D11_CPU_ACCESS_WRITE,
        index_buffer_plan(idx_count).desc.misc_flags == 0,
        index_buffer_plan(idx_count).desc.structure_byte_stride == 0,
{
}

/// The size of a buffer, with its reserve, is a machine number just where this holds.
pub proof fn buffers_fit_in_machine_numbers(vtx_count: nat, idx_count: nat)
    ensures
        vertex_buffer_fits(vtx_count) <==> vtx_count * 20 + 100000 <= usize::MAX,
        index_buffer_fits(idx_count) <==> idx_count * 2 + 20000 <= usize::MAX,
{
}

} // verus!
