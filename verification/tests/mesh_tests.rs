use metal_obj::mesh::{
    collect_positions, count_indices, flatten_mesh, CoordBits, MeshError, MeshSource,
};

fn coord(x: u32, y: u32, z: u32) -> CoordBits {
    CoordBits { x, y, z }
}

#[test]
fn flatten_one_model() {
    let models = vec![MeshSource {
        positions: vec![10, 11, 12, 20, 21, 22],
        indices: vec![1, 0, 1],
    }];
    let flat = flatten_mesh(&models).unwrap();
    assert_eq!(
        flat.vertices,
        vec![coord(20, 21, 22), coord(10, 11, 12), coord(20, 21, 22)]
    );
    assert_eq!(flat.indices, vec![0, 1, 2]);
}

#[test]
fn flatten_concatenates_models_in_order() {
    let models = vec![
        MeshSource {
            positions: vec![1, 2, 3, 4, 5, 6],
            indices: vec![1, 0],
        },
        MeshSource {
            positions: vec![7, 8, 9],
            indices: vec![0],
        },
    ];
    let flat = flatten_mesh(&models).unwrap();
    assert_eq!(
        flat.vertices,
        vec![coord(4, 5, 6), coord(1, 2, 3), coord(7, 8, 9)]
    );
    assert_eq!(flat.indices, vec![0, 1, 2]);
}

#[test]
fn flatten_carries_float_bits_unchanged() {
    let p = [0.25f32, -1.5f32, 3.75f32];
    let models = vec![MeshSource {
        positions: vec![p[0].to_bits(), p[1].to_bits(), p[2].to_bits()],
        indices: vec![0, 0],
    }];
    let flat = flatten_mesh(&models).unwrap();
    for v in &flat.vertices {
        assert_eq!(f32::from_bits(v.x), 0.25);
        assert_eq!(f32::from_bits(v.y), -1.5);
        assert_eq!(f32::from_bits(v.z), 3.75);
    }
}

#[test]
fn flatten_rejects_ragged_positions() {
    let models = vec![MeshSource {
        positions: vec![1, 2, 3, 4],
        indices: vec![0],
    }];
    assert_eq!(flatten_mesh(&models), Err(MeshError::RaggedPositions));
}

#[test]
fn flatten_rejects_empty_positions() {
    let no_models: Vec<MeshSource> = Vec::new();
    assert_eq!(flatten_mesh(&no_models), Err(MeshError::NoPositions));
    let models = vec![MeshSource {
        positions: Vec::new(),
        indices: vec![0],
    }];
    assert_eq!(flatten_mesh(&models), Err(MeshError::NoPositions));
}

#[test]
fn flatten_rejects_index_out_of_range() {
    let models = vec![MeshSource {
        positions: vec![1, 2, 3],
        indices: vec![0, 1],
    }];
    assert_eq!(flatten_mesh(&models), Err(MeshError::IndexOutOfRange));
}

#[test]
fn flatten_rejects_empty_indices() {
    let models = vec![MeshSource {
        positions: vec![1, 2, 3],
        indices: Vec::new(),
    }];
    assert_eq!(flatten_mesh(&models), Err(MeshError::NoIndices));
}

#[test]
fn ragged_positions_reported_before_bad_index() {
    let models = vec![
        MeshSource {
            positions: vec![1, 2, 3],
            indices: vec![5],
        },
        MeshSource {
            positions: vec![1, 2],
            indices: Vec::new(),
        },
    ];
    assert_eq!(flatten_mesh(&models), Err(MeshError::RaggedPositions));
}

#[test]
fn collect_groups_triples_across_models() {
    let models = vec![
        MeshSource {
            positions: vec![1, 2, 3, 4, 5, 6],
            indices: Vec::new(),
        },
        MeshSource {
            positions: vec![7, 8, 9],
            indices: vec![0],
        },
    ];
    let all = collect_positions(&models);
    assert_eq!(all, vec![coord(1, 2, 3), coord(4, 5, 6), coord(7, 8, 9)]);
}

#[test]
fn count_sums_indices_of_all_models() {
    let models = vec![
        MeshSource {
            positions: vec![1, 2, 3],
            indices: vec![0, 0, 0],
        },
        MeshSource {
            positions: vec![1, 2, 3],
            indices: vec![0],
        },
    ];
    assert_eq!(count_indices(&models), Some(4));
}
