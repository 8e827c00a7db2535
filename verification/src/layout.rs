//! The fixed vertex layout and the buffer-size arithmetic.
//!
//! The sample draws with one pipeline whose vertex has two attributes,
//! a three-float position followed by a three-float color, packed into
//! one buffer. This module states that layout as data, proves it well
//! formed, and carries the byte arithmetic with which the sample sizes
//! its vertex and index buffers and its depth texture.

use vstd::prelude::*;

verus! {

/// Byte stride of one packed vertex: two three-float attributes.
pub const VERTEX_STRIDE: u64 = 24;

/// Byte size of one three-float attribute.
pub const FLOAT3_SIZE: u64 = 12;

/// Byte size of one 32-bit index.
pub const INDEX_SIZE: u64 = 4;

/// Byte size of the uniform record: one four-by-four float matrix,
/// aligned to sixteen bytes.
pub const UNIFORM_SIZE: u64 = 64;

/// One vertex attribute: where it sits in the vertex and which vertex
/// buffer feeds it.
#[derive(Clone, Copy, Debug, PartialEq, Eq, Structural)]
pub struct VertexAttributeDesc {
    pub offset: u64,
    pub size: u64,
    pub buffer_index: u64,
}

/// The vertex layout of the pipeline: its attributes and the byte
/// stride between consecutive vertices.
pub struct VertexLayoutDesc {
    pub attributes: Vec<VertexAttributeDesc>,
    pub stride: u64,
}

/// Every attribute lies within the stride and no two attributes
/// overlap.
pub open spec fn layout_well_formed(l: VertexLayoutDesc) -> bool {
    &&& forall|i: int|
        0 <= i < l.attributes@.len() ==> l.attributes@[i].offset + l.attributes@[i].size
            <= l.stride
    &&& forall|i: int, j: int|
        0 <= i < l.attributes@.len() && 0 <= j < l.attributes@.len() && i != j ==> {
            ||| l.attributes@[i].offset + l.attributes@[i].size <= l.attributes@[j].offset
            ||| l.attributes@[j].offset + l.attributes@[j].size <= l.attributes@[i].offset
        }
}

/// The vertex layout the sample builds its pipeline with: position at
/// offset zero, color right after it, both fed from vertex buffer
/// zero, packed without padding.
pub fn pipeline_vertex_layout() -> (l: VertexLayoutDesc)
    ensures
        layout_well_formed(l),
        l.stride == VERTEX_STRIDE,
        l.attributes@.len() == 2,
        l.attributes@[0] == (VertexAttributeDesc { offset: 0, size: FLOAT3_SIZE, buffer_index: 0 }),
        l.attributes@[1] == (VertexAttributeDesc {
            offset: FLOAT3_SIZE,
            size: FLOAT3_SIZE,
            buffer_index: 0,
        }),
{
    let mut attributes: Vec<VertexAttributeDesc> = Vec::new();
    attributes.push(VertexAttributeDesc { offset: 0, size: FLOAT3_SIZE, buffer_index: 0 });
    attributes.push(
        VertexAttributeDesc { offset: FLOAT3_SIZE, size: FLOAT3_SIZE, buffer_index: 0 },
    );
    VertexLayoutDesc { attributes, stride: VERTEX_STRIDE }
}

/// Byte length of a vertex buffer holding `count` packed vertices, or
/// nothing where that length does not fit a 64-bit number.
pub fn vertex_buffer_length(count: usize) -> (r: Option<u64>)
    ensures
        match r {
            Some(n) => n == count * VERTEX_STRIDE,
            None => count * VERTEX_STRIDE > u64::MAX,
        },
{
    if count as u64 > u64::MAX / VERTEX_STRIDE {
        proof {
            assert((u64::MAX / VERTEX_STRIDE) as int * VERTEX_STRIDE as int + VERTEX_STRIDE as int
                > u64::MAX);
            assert(count as int * VERTEX_STRIDE as int >= ((u64::MAX / VERTEX_STRIDE) as int + 1)
                * VERTEX_STRIDE as int) by (nonlinear_arith)
                requires
                    count as int > (u64::MAX / VERTEX_STRIDE) as int,
            ;
        }
        None
    } else {
        proof {
            assert(count as int * VERTEX_STRIDE as int <= (u64::MAX / VERTEX_STRIDE) as int
                * VERTEX_STRIDE as int) by (nonlinear_arith)
                requires
                    0 <= count as int <= (u64::MAX / VERTEX_STRIDE) as int,
            ;
        }
        Some((count as u64) * VERTEX_STRIDE)
    }
}

/// Byte length of an index buffer holding `count` 32-bit indices, or
/// nothing where that length does not fit a 64-bit number.
pub fn index_buffer_length(count: usize) -> (r: Option<u64>)
    ensures
        match r {
            Some(n) => n == count * INDEX_SIZE,
            None => count * INDEX_SIZE > u64::MAX,
        },
{
    if count as u64 > u64::MAX / INDEX_SIZE {
        proof {
            assert((u64::MAX / INDEX_SIZE) as int * INDEX_SIZE as int + INDEX_SIZE as int
                > u64::MAX);
            assert(count as int * INDEX_SIZE as int >= ((u64::MAX / INDEX_SIZE) as int + 1)
                * INDEX_SIZE as int) by (nonlinear_arith)
                requires
                    count as int > (u64::MAX / INDEX_SIZE) as int,
            ;
        }
        None
    } else {
        proof {
            assert(count as int * INDEX_SIZE as int <= (u64::MAX / INDEX_SIZE) as int
                * INDEX_SIZE as int) by (nonlinear_arith)
                requires
                    0 <= count as int <= (u64::MAX / INDEX_SIZE) as int,
            ;
        }
        Some((count as u64) * INDEX_SIZE)
    }
}

/// One dimension of the depth texture: the drawable dimension, but
/// never zero, since the graphics API refuses an empty texture.
pub fn depth_texture_extent(dim: u64) -> (r: u64)
    ensures
        dim == 0 ==> r == 1,
        dim > 0 ==> r == dim,
{
    if dim == 0 {
        1
    } else {
        dim
    }
}

} // verus!
