//! The upload buffers: how large they are made, and what goes into them.

use crate::device::DeviceOp;
use crate::device::INDEX_SIZE;
use crate::device::VERTEX_SIZE;
use crate::draw_data::total_indices;
use crate::draw_data::total_vertices;
use crate::draw_data::DrawList;
use crate::draw_data::MAX_INDEX_COUNT;
use crate::draw_data::MAX_VERTEX_COUNT;
use crate::vertex::convert_vertex;
use crate::vertex::device_vertex;
use crate::vertex::CustomVertex;
use crate::vertex::DrawIdx;
use vstd::prelude::*;

verus! {

/// Room for this many vertices is added to what a frame needs whenever the
/// vertex buffer is made anew.
pub const VERTEX_BUF_ADD_CAPACITY: usize = 5000;

/// Room for this many indices is added to what a frame needs whenever the
/// index buffer is made anew.
pub const INDEX_BUF_ADD_CAPACITY: usize = 10000;

/// The request for a vertex buffer that holds `vtx_count` vertices and the
/// spare room.
pub open spec fn vertex_buffer_for(vtx_count: nat) -> DeviceOp {
    DeviceOp::CreateVertexBuffer {
        capacity: (vtx_count + VERTEX_BUF_ADD_CAPACITY) as usize,
        length: ((vtx_count + VERTEX_BUF_ADD_CAPACITY) * VERTEX_SIZE) as u32,
    }
}

/// The request for an index buffer that holds `idx_count` indices and the
/// spare room.
pub open spec fn index_buffer_for(idx_count: nat) -> DeviceOp {
    DeviceOp::CreateIndexBuffer {
        capacity: (idx_count + INDEX_BUF_ADD_CAPACITY) as usize,
        length: ((idx_count + INDEX_BUF_ADD_CAPACITY) * INDEX_SIZE) as u32,
    }
}

/// The buffers to make before a frame of `vtx_count` vertices and `idx_count`
/// indices can be uploaded: one for each kind whose buffer is too small, none
/// for a buffer that is large enough.
pub open spec fn growth_ops(
    vertex_capacity: usize,
    index_capacity: usize,
    vtx_count: nat,
    idx_count: nat,
) -> Seq<DeviceOp> {
    let vertex = if vertex_capacity < vtx_count {
        seq![vertex_buffer_for(vtx_count)]
    } else {
        seq![]
    };
    let index = if index_capacity < idx_count {
        seq![index_buffer_for(idx_count)]
    } else {
        seq![]
    };
    vertex + index
}

/// Requests a vertex buffer with room for `vtx_count` vertices and the spare
/// capacity.
pub fn create_vertex_buffer(vtx_count: usize) -> (op: DeviceOp)
    requires
        vtx_count <= MAX_VERTEX_COUNT,
    ensures
        op == vertex_buffer_for(vtx_count as nat),
        op matches DeviceOp::CreateVertexBuffer { capacity, length } && capacity == vtx_count
            + VERTEX_BUF_ADD_CAPACITY && length == capacity * VERTEX_SIZE,
{
    let capacity: usize = vtx_count + VERTEX_BUF_ADD_CAPACITY;
    let length: u32 = (capacity as u32) * VERTEX_SIZE;
    DeviceOp::CreateVertexBuffer { capacity, length }
}

/// Requests an index buffer with room for `idx_count` indices and the spare
/// capacity.
pub fn create_index_buffer(idx_count: usize) -> (op: DeviceOp)
    requires
        idx_count <= MAX_INDEX_COUNT,
    ensures
        op == index_buffer_for(idx_count as nat),
        op matches DeviceOp::CreateIndexBuffer { capacity, length } && capacity == idx_count
            + INDEX_BUF_ADD_CAPACITY && length == capacity * INDEX_SIZE,
{
    let capacity: usize = idx_count + INDEX_BUF_ADD_CAPACITY;
    let length: u32 = (capacity as u32) * INDEX_SIZE;
    DeviceOp::CreateIndexBuffer { capacity, length }
}

/// Appends the requests for the buffers that are too small for the frame.
pub fn grow_buffers(
    ops: &mut Vec<DeviceOp>,
    vertex_capacity: usize,
    index_capacity: usize,
    vtx_count: usize,
    idx_count: usize,
)
    requires
        vtx_count <= MAX_VERTEX_COUNT,
        idx_count <= MAX_INDEX_COUNT,
    ensures
        final(ops)@ == old(ops)@ + growth_ops(
            vertex_capacity,
            index_capacity,
            vtx_count as nat,
            idx_count as nat,
        ),
{
    if vertex_capacity < vtx_count {
        ops.push(create_vertex_buffer(vtx_count));
    }
    if index_capacity < idx_count {
        ops.push(create_index_buffer(idx_count));
    }
    assert(ops@ =~= old(ops)@ + growth_ops(
        vertex_capacity,
        index_capacity,
        vtx_count as nat,
        idx_count as nat,
    ));
}

/// The locks that open both buffers for a frame of `vtx_count` vertices and
/// `idx_count` indices.
pub open spec fn lock_ops(vtx_count: nat, idx_count: nat) -> Seq<DeviceOp> {
    seq![
        DeviceOp::LockVertexBuffer { length: (vtx_count * VERTEX_SIZE) as u32 },
        DeviceOp::LockIndexBuffer { length: (idx_count * INDEX_SIZE) as u32 },
    ]
}

/// The upload of a frame: lock both buffers, fill them, unlock them, and make
/// them the device's sources with the vertex layout.
pub open spec fn upload_ops(vtx_count: nat, idx_count: nat) -> Seq<DeviceOp> {
    lock_ops(vtx_count, idx_count) + seq![
        DeviceOp::FillBuffers,
        DeviceOp::UnlockVertexBuffer,
        DeviceOp::UnlockIndexBuffer,
        DeviceOp::SetStreamSource { stride: VERTEX_SIZE },
        DeviceOp::SetIndices,
        DeviceOp::SetVertexFormat,
    ]
}

/// Appends the locks of both buffers, each over what the frame fills. The
/// lengths in bytes have to fit the device's 32-bit sizes.
pub fn lock_buffers(ops: &mut Vec<DeviceOp>, vtx_count: usize, idx_count: usize)
    requires
        vtx_count * VERTEX_SIZE <= u32::MAX,
        idx_count * INDEX_SIZE <= u32::MAX,
    ensures
        final(ops)@ == old(ops)@ + lock_ops(vtx_count as nat, idx_count as nat),
{
    let vertex_bytes: u32 = (vtx_count as u32) * VERTEX_SIZE;
    let index_bytes: u32 = (idx_count as u32) * INDEX_SIZE;
    ops.push(DeviceOp::LockVertexBuffer { length: vertex_bytes });
    ops.push(DeviceOp::LockIndexBuffer { length: index_bytes });
    assert(ops@ =~= old(ops)@ + lock_ops(vtx_count as nat, idx_count as nat));
}

/// Appends the upload of a frame of `vtx_count` vertices and `idx_count`
/// indices.
pub fn write_buffers(ops: &mut Vec<DeviceOp>, vtx_count: usize, idx_count: usize)
    requires
        vtx_count * VERTEX_SIZE <= u32::MAX,
        idx_count * INDEX_SIZE <= u32::MAX,
    ensures
        final(ops)@ == old(ops)@ + upload_ops(vtx_count as nat, idx_count as nat),
{
    lock_buffers(ops, vtx_count, idx_count);
    ops.push(DeviceOp::FillBuffers);
    ops.push(DeviceOp::UnlockVertexBuffer);
    ops.push(DeviceOp::UnlockIndexBuffer);
    ops.push(DeviceOp::SetStreamSource { stride: VERTEX_SIZE });
    ops.push(DeviceOp::SetIndices);
    ops.push(DeviceOp::SetVertexFormat);
    assert(ops@ =~= old(ops)@ + upload_ops(vtx_count as nat, idx_count as nat));
}

/// A list's vertices in the device's format.
pub open spec fn list_vertices(list: DrawList) -> Seq<CustomVertex> {
    list.vtx_buffer@.map_values(|v| device_vertex(v))
}

/// What fills the vertex buffer: every list's vertices in the device's
/// format, list after list.
pub open spec fn frame_vertices(lists: Seq<DrawList>) -> Seq<CustomVertex>
    decreases lists.len(),
{
    if lists.len() == 0 {
        Seq::empty()
    } else {
        frame_vertices(lists.drop_last()) + list_vertices(lists.last())
    }
}

/// What fills the index buffer: every list's indices as they are, list after
/// list.
pub open spec fn frame_indices(lists: Seq<DrawList>) -> Seq<DrawIdx>
    decreases lists.len(),
{
    if lists.len() == 0 {
        Seq::empty()
    } else {
        frame_indices(lists.drop_last()) + lists.last().idx_buffer@
    }
}

/// The buffers' contents are as long as the frame's totals.
pub proof fn lemma_geometry_len(lists: Seq<DrawList>)
    ensures
        frame_vertices(lists).len() == total_vertices(lists),
        frame_indices(lists).len() == total_indices(lists),
    decreases lists.len(),
{
    if lists.len() > 0 {
        lemma_geometry_len(lists.drop_last());
    }
}

/// A frame's vertices lie in the buffer list after list: vertex `k` of list
/// `i` stands behind all the vertices of the lists before it, converted to the
/// device's format.
pub proof fn lemma_vertex_position(lists: Seq<DrawList>, i: int, k: int)
    requires
        0 <= i < lists.len(),
        0 <= k < lists[i].vtx_buffer@.len(),
    ensures
        total_vertices(lists.take(i)) + k < frame_vertices(lists).len(),
        frame_vertices(lists)[total_vertices(lists.take(i)) + k] == device_vertex(
            lists[i].vtx_buffer@[k],
        ),
    decreases lists.len(),
{
    lemma_geometry_len(lists.drop_last());
    if i == lists.len() - 1 {
        assert(lists.take(i) =~= lists.drop_last());
    } else {
        assert(lists.drop_last().take(i) =~= lists.take(i));
        lemma_vertex_position(lists.drop_last(), i, k);
    }
}

/// A frame's indices lie in the buffer list after list, unchanged.
pub proof fn lemma_index_position(lists: Seq<DrawList>, i: int, k: int)
    requires
        0 <= i < lists.len(),
        0 <= k < lists[i].idx_buffer@.len(),
    ensures
        total_indices(lists.take(i)) + k < frame_indices(lists).len(),
        frame_indices(lists)[total_indices(lists.take(i)) + k] == lists[i].idx_buffer@[k],
    decreases lists.len(),
{
    lemma_geometry_len(lists.drop_last());
    if i == lists.len() - 1 {
        assert(lists.take(i) =~= lists.drop_last());
    } else {
        assert(lists.drop_last().take(i) =~= lists.take(i));
        lemma_index_position(lists.drop_last(), i, k);
    }
}

/// Converts every list's vertices to the device's format, in order.
pub fn convert_vertices(lists: &Vec<DrawList>) -> (out: Vec<CustomVertex>)
    ensures
        out@ == frame_vertices(lists@),
        out@.len() == total_vertices(lists@),
{
    let mut out: Vec<CustomVertex> = Vec::new();
    let mut i: usize = 0;
    while i < lists.len()
        invariant
            i <= lists.len(),
            out@ == frame_vertices(lists@.take(i as int)),
        decreases lists.len() - i,
    {
        let list = &lists[i];
        let ghost before = out@;
        let mut j: usize = 0;
        while j < list.vtx_buffer.len()
            invariant
                j <= list.vtx_buffer.len(),
                out@ == before + list_vertices(*list).take(j as int),
            decreases list.vtx_buffer.len() - j,
        {
            out.push(convert_vertex(&list.vtx_buffer[j]));
            assert(out@ =~= before + list_vertices(*list).take(j + 1));
            j = j + 1;
        }
        proof {
            assert(list_vertices(*list).take(j as int) =~= list_vertices(*list));
            assert(lists@.take(i + 1).drop_last() =~= lists@.take(i as int));
        }
        i = i + 1;
    }
    proof {
        assert(lists@.take(i as int) =~= lists@);
        lemma_geometry_len(lists@);
    }
    out
}

/// Gathers every list's indices, in order.
pub fn gather_indices(lists: &Vec<DrawList>) -> (out: Vec<DrawIdx>)
    ensures
        out@ == frame_indices(lists@),
        out@.len() == total_indices(lists@),
{
    let mut out: Vec<DrawIdx> = Vec::new();
    let mut i: usize = 0;
    while i < lists.len()
        invariant
            i <= lists.len(),
            out@ == frame_indices(lists@.take(i as int)),
        decreases lists.len() - i,
    {
        let list = &lists[i];
        let ghost before = out@;
        let mut j: usize = 0;
        while j < list.idx_buffer.len()
            invariant
                j <= list.idx_buffer.len(),
                out@ == before + list.idx_buffer@.take(j as int),
            decreases list.idx_buffer.len() - j,
        {
            out.push(list.idx_buffer[j]);
            assert(out@ =~= before + list.idx_buffer@.take(j + 1));
            j = j + 1;
        }
        proof {
            assert(list.idx_buffer@.take(j as int) =~= list.idx_buffer@);
            assert(lists@.take(i + 1).drop_last() =~= lists@.take(i as int));
        }
        i = i + 1;
    }
    proof {
        assert(lists@.take(i as int) =~= lists@);
        lemma_geometry_len(lists@);
    }
    out
}

} // verus!
