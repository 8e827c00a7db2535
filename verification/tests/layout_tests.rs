use metal_obj::layout::{
    depth_texture_extent, index_buffer_length, pipeline_vertex_layout, vertex_buffer_length,
    VertexAttributeDesc, FLOAT3_SIZE, INDEX_SIZE, UNIFORM_SIZE, VERTEX_STRIDE,
};

#[test]
fn vertex_layout_is_two_packed_float3() {
    let layout = pipeline_vertex_layout();
    assert_eq!(layout.stride, VERTEX_STRIDE);
    assert_eq!(layout.attributes.len(), 2);
    assert_eq!(
        layout.attributes[0],
        VertexAttributeDesc {
            offset: 0,
            size: FLOAT3_SIZE,
            buffer_index: 0,
        }
    );
    assert_eq!(
        layout.attributes[1],
        VertexAttributeDesc {
            offset: FLOAT3_SIZE,
            size: FLOAT3_SIZE,
            buffer_index: 0,
        }
    );
}

#[test]
fn layout_sizes_match_the_packed_records() {
    // Two three-float attributes, four bytes per float, no padding.
    assert_eq!(FLOAT3_SIZE, 12);
    assert_eq!(VERTEX_STRIDE, 2 * FLOAT3_SIZE);
    assert_eq!(INDEX_SIZE, std::mem::size_of::<u32>() as u64);
    // A four-by-four float matrix.
    assert_eq!(UNIFORM_SIZE, 16 * std::mem::size_of::<f32>() as u64);
}

#[test]
fn buffer_lengths_scale_by_element_size() {
    assert_eq!(vertex_buffer_length(0), Some(0));
    assert_eq!(vertex_buffer_length(3), Some(72));
    assert_eq!(index_buffer_length(0), Some(0));
    assert_eq!(index_buffer_length(3), Some(12));
}

#[test]
fn vertex_buffer_length_rejects_overflow() {
    assert_eq!(vertex_buffer_length(usize::MAX), None);
}

#[test]
fn depth_extent_never_zero() {
    assert_eq!(depth_texture_extent(0), 1);
    assert_eq!(depth_texture_extent(1), 1);
    assert_eq!(depth_texture_extent(800), 800);
}
