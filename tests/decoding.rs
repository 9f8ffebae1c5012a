use mesh_raycast::error::MeshError;
use mesh_raycast::faces::decode_faces;
use mesh_raycast::mesh::build_mesh_data;
use mesh_raycast::vertices::group_vertices;

#[test]
fn groups_coordinates_in_threes() {
    let data = [1.0f32, 2.0, 3.0, 4.0, 5.0, 6.0];
    let v = group_vertices(&data).unwrap();
    assert_eq!(v, vec![(1.0, 2.0, 3.0), (4.0, 5.0, 6.0)]);
}

#[test]
fn groups_empty_coordinates() {
    let data: [f32; 0] = [];
    assert_eq!(group_vertices(&data), Some(vec![]));
}

#[test]
fn rejects_coordinates_not_in_threes() {
    assert_eq!(group_vertices(&[1.0f32, 2.0, 3.0, 4.0]), None);
    assert_eq!(group_vertices(&[1.0f32]), None);
}

#[test]
fn decodes_single_triangle_to_zero_based() {
    assert_eq!(decode_faces(&[3, 1, 2, 3], 3), Ok(vec![(0, 1, 2)]));
}

#[test]
fn decodes_quad_as_fan() {
    assert_eq!(decode_faces(&[4, 1, 2, 3, 4], 4), Ok(vec![(0, 1, 2), (0, 2, 3)]));
}

#[test]
fn decodes_pentagon_as_fan_around_first_vertex() {
    assert_eq!(
        decode_faces(&[5, 5, 4, 3, 2, 1], 5),
        Ok(vec![(4, 3, 2), (4, 2, 1), (4, 1, 0)])
    );
}

#[test]
fn decodes_several_polygons_in_order() {
    let faces = [3, 1, 2, 3, 4, 2, 3, 4, 5, 3, 5, 4, 1];
    assert_eq!(
        decode_faces(&faces, 5),
        Ok(vec![(0, 1, 2), (1, 2, 3), (1, 3, 4), (4, 3, 0)])
    );
}

#[test]
fn degenerate_polygons_give_no_triangle() {
    assert_eq!(decode_faces(&[0, 1, 1, 2, 1, 2, 3, 1, 2, 3], 3), Ok(vec![(0, 1, 2)]));
}

#[test]
fn empty_face_stream_gives_no_triangle() {
    assert_eq!(decode_faces(&[], 0), Ok(vec![]));
    assert_eq!(decode_faces(&[], 7), Ok(vec![]));
}

#[test]
fn truncated_record_is_rejected() {
    assert_eq!(decode_faces(&[3, 1, 2], 3), Err(MeshError::TruncatedFace { at: 0 }));
    assert_eq!(
        decode_faces(&[3, 1, 2, 3, 4, 1, 2], 3),
        Err(MeshError::TruncatedFace { at: 4 })
    );
}

#[test]
fn huge_count_is_truncation() {
    assert_eq!(decode_faces(&[u32::MAX, 1, 2, 3], 3), Err(MeshError::TruncatedFace { at: 0 }));
}

#[test]
fn zero_reference_is_rejected() {
    assert_eq!(decode_faces(&[3, 1, 0, 2], 3), Err(MeshError::IndexOutOfRange { at: 2 }));
}

#[test]
fn reference_past_last_vertex_is_rejected() {
    assert_eq!(decode_faces(&[3, 1, 2, 4], 3), Err(MeshError::IndexOutOfRange { at: 3 }));
    assert_eq!(decode_faces(&[3, 1, 2, 3], 3), Ok(vec![(0, 1, 2)]));
}

#[test]
fn first_fault_in_stream_order_is_reported() {
    assert_eq!(
        decode_faces(&[3, 1, 9, 9, 3, 1, 2], 3),
        Err(MeshError::IndexOutOfRange { at: 2 })
    );
    assert_eq!(
        decode_faces(&[3, 1, 2, 3, 3, 0, 2], 3),
        Err(MeshError::TruncatedFace { at: 4 })
    );
}

#[test]
fn builds_mesh_data() {
    let vertices = [0.0f32, 0.0, 0.0, 1.0, 0.0, 0.0, 1.0, 1.0, 0.0, 0.0, 1.0, 0.0];
    let m = build_mesh_data(&vertices, &[4, 1, 2, 3, 4]).unwrap();
    assert_eq!(
        m.vertices,
        vec![(0.0, 0.0, 0.0), (1.0, 0.0, 0.0), (1.0, 1.0, 0.0), (0.0, 1.0, 0.0)]
    );
    assert_eq!(m.triangles, vec![(0, 1, 2), (0, 2, 3)]);
}

#[test]
fn mesh_rejects_bad_vertex_length() {
    let r = build_mesh_data(&[0.0f32, 1.0], &[3, 1, 2, 3]);
    assert!(matches!(r, Err(MeshError::VertexDataLength)));
}

#[test]
fn mesh_checks_references_against_vertex_count() {
    let vertices = [0.0f32, 0.0, 0.0, 1.0, 0.0, 0.0, 1.0, 1.0, 0.0];
    let r = build_mesh_data(&vertices, &[3, 1, 2, 4]);
    assert!(matches!(r, Err(MeshError::IndexOutOfRange { at: 3 })));
    let r = build_mesh_data(&vertices, &[3, 1, 2]);
    assert!(matches!(r, Err(MeshError::TruncatedFace { at: 0 })));
}

#[test]
fn short_polygon_references_are_not_read() {
    let vertices = [0.0f32, 0.0, 0.0, 1.0, 0.0, 0.0, 0.0, 1.0, 0.0];
    let m = build_mesh_data(&vertices, &[0, 2, 7, 9, 3, 1, 2, 3]).unwrap();
    assert_eq!(m.vertices.len(), 3);
    assert_eq!(m.triangles, vec![(0, 1, 2)]);
    assert_eq!(decode_faces(&[1, 0, 3, 1, 2, 3], 3), Ok(vec![(0, 1, 2)]));
}

#[test]
fn short_polygon_past_the_end_ends_the_stream() {
    assert_eq!(decode_faces(&[3, 1, 2, 3, 2, 1], 3), Ok(vec![(0, 1, 2)]));
    assert_eq!(decode_faces(&[2], 3), Ok(vec![]));
    assert_eq!(decode_faces(&[3, 1, 2, 3, 1], 3), Ok(vec![(0, 1, 2)]));
}
