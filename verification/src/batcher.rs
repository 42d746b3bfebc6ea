//! The render batch: several mesh sources merged into one vertex buffer
//! and one index buffer, with each source's indices offset by a running
//! total so every sub-mesh indexes into the combined vertex stream.

use vstd::prelude::*;
use vstd::layout::size_of;
use crate::buffer::Buffer;
use crate::buffer::AllocError;
use crate::buffer::some_memory_type_matches;
use crate::flags::BUFFER_USAGE_VERTEX;
use crate::flags::BUFFER_USAGE_INDEX;
use crate::flags::MEMORY_HOST_VISIBLE;
use crate::flags::MEMORY_HOST_COHERENT;
use crate::mesh::VulkanIndexable;

verus! {

/// One merged buffer pair: every pushed vertex stream back to back, and
/// every pushed index stream offset into the combined vertices.
pub struct RenderBatch<V, I> {
    /// The combined vertex buffer, host-mapped and fully written.
    pub vertices: Buffer<V>,
    /// The combined index buffer, host-mapped and fully written.
    pub indices: Buffer<I>,
    /// Number of indices in the combined index buffer.
    pub index_count: u32,
}

/// Accumulates vertex and index streams and the running index offset.
pub struct RenderBatchBuilder<V, I> {
    /// The vertices accumulated so far.
    pub vertices: Vec<V>,
    /// The indices accumulated so far, already offset.
    pub indices: Vec<I>,
    /// The offset the next pushed index stream is moved up by.
    pub index_offset: I,
}

impl<V: Copy, I: VulkanIndexable> RenderBatchBuilder<V, I> {
    /// An empty batch under construction.
    pub fn new() -> (r: Self)
        ensures
            r.vertices@ == Seq::<V>::empty(),
            r.indices@ == Seq::<I>::empty(),
            r.index_offset.as_int() == 0,
    {
        let r = Self { vertices: Vec::new(), indices: Vec::new(), index_offset: I::zero() };
        proof {
            assert(r.vertices@ =~= Seq::<V>::empty());
            assert(r.indices@ =~= Seq::<I>::empty());
        }
        r
    }

    /// Append one mesh source's streams: its vertices go after the
    /// accumulated vertices, its indices are each moved up by the
    /// running offset, and the offset advances by the number of
    /// vertices pushed, so the next source's indices point at its own
    /// vertices within the combined stream.  Every moved index and the
    /// advanced offset must stay in the index type's range.
    pub fn push(self, vertices: &Vec<V>, indices: &Vec<I>) -> (r: Self)
        requires
            forall|k: int| 0 <= k < indices@.len()
                ==> (#[trigger] indices@[k]).as_int() + self.index_offset.as_int()
                    <= I::max_value(),
            self.index_offset.as_int() + vertices@.len() <= I::max_value(),
        ensures
            r.vertices@ == self.vertices@ + vertices@,
            r.indices@.len() == self.indices@.len() + indices@.len(),
            forall|k: int| 0 <= k < self.indices@.len()
                ==> #[trigger] r.indices@[k] == self.indices@[k],
            forall|k: int| 0 <= k < indices@.len()
                ==> (#[trigger] r.indices@[self.indices@.len() + k]).as_int()
                    == indices@[k].as_int() + self.index_offset.as_int(),
            r.index_offset.as_int() == self.index_offset.as_int() + vertices@.len(),
    {
        let mut out = self;
        let ghost base = out.vertices@;
        let mut i: usize = 0;
        while i < vertices.len()
            invariant
                i <= vertices@.len(),
                out.vertices@ == base + vertices@.take(i as int),
                out.indices@ == self.indices@,
                out.index_offset == self.index_offset,
            decreases vertices@.len() - i,
        {
            out.vertices.push(vertices[i]);
            proof {
                assert(vertices@.take(i + 1) =~= vertices@.take(i as int).push(vertices@[i as int]));
                assert(base + vertices@.take(i + 1)
                    =~= (base + vertices@.take(i as int)).push(vertices@[i as int]));
            }
            i = i + 1;
        }
        proof {
            assert(vertices@.take(vertices@.len() as int) =~= vertices@);
        }

        let ghost ibase = out.indices@;
        let mut j: usize = 0;
        while j < indices.len()
            invariant
                j <= indices@.len(),
                out.vertices@ == base + vertices@,
                out.indices@.len() == ibase.len() + j,
                forall|k: int| 0 <= k < ibase.len() ==> #[trigger] out.indices@[k] == ibase[k],
                forall|k: int| 0 <= k < j
                    ==> (#[trigger] out.indices@[ibase.len() + k]).as_int()
                        == indices@[k].as_int() + self.index_offset.as_int(),
                out.index_offset == self.index_offset,
                forall|k: int| 0 <= k < indices@.len()
                    ==> (#[trigger] indices@[k]).as_int() + self.index_offset.as_int()
                        <= I::max_value(),
            decreases indices@.len() - j,
        {
            let moved = indices[j].offset_by(&out.index_offset);
            out.indices.push(moved);
            j = j + 1;
        }

        let advanced = out.index_offset.bump(vertices.len());
        out.index_offset = advanced;
        out
    }

    /// Allocate the combined buffer pair from host-visible, host-
    /// coherent memory and write every accumulated element into it.
    /// `vertex_type_bits` and `index_type_bits` are the memory-type
    /// bitmasks the driver reports for the two buffers.  Fails exactly
    /// when no memory type suits one of them.
    pub fn build(
        self,
        vertex_type_bits: u32,
        index_type_bits: u32,
        memory_types: &Vec<u32>,
    ) -> (r: Result<RenderBatch<V, I>, AllocError>)
        requires
            1 <= size_of::<V>(),
            1 <= size_of::<I>(),
            memory_types@.len() <= 32,
            self.vertices@.len() * size_of::<V>() <= usize::MAX as int,
            self.indices@.len() * size_of::<I>() <= usize::MAX as int,
            self.indices@.len() <= u32::MAX,
        ensures
            match r {
                Ok(b) => {
                    &&& b.vertices.spec_contents() == self.vertices@
                    &&& b.vertices.wf()
                    &&& b.indices.spec_contents() == self.indices@
                    &&& b.indices.wf()
                    &&& b.index_count == self.indices@.len()
                },
                Err(e) => {
                    &&& e == AllocError::NoSuitableMemoryType
                    &&& (!some_memory_type_matches(vertex_type_bits, memory_types@,
                        MEMORY_HOST_VISIBLE | MEMORY_HOST_COHERENT)
                        || !some_memory_type_matches(index_type_bits, memory_types@,
                        MEMORY_HOST_VISIBLE | MEMORY_HOST_COHERENT))
                },
            },
    {
        let index_count = self.indices.len() as u32;
        let vertices = Buffer::<V>::from_vec(
            BUFFER_USAGE_VERTEX,
            MEMORY_HOST_VISIBLE | MEMORY_HOST_COHERENT,
            vertex_type_bits,
            memory_types,
            &self.vertices,
        )?;
        let indices = Buffer::<I>::from_vec(
            BUFFER_USAGE_INDEX,
            MEMORY_HOST_VISIBLE | MEMORY_HOST_COHERENT,
            index_type_bits,
            memory_types,
            &self.indices,
        )?;
        Ok(RenderBatch { vertices, indices, index_count })
    }
}

} // verus!
