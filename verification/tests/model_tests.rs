use framekit::error::RenderError;
use framekit::mesh::Mesh;
use framekit::model::Model;
use framekit::vertex::{Vec2h, Vec3h, Vertex};

fn plain_vertex(x: i32, y: i32) -> Vertex {
    Vertex {
        position: Vec3h { x, y, z: 0 },
        normal: Vec3h { x: 0, y: 0, z: 2 },
        color: Vec3h { x: 2, y: 2, z: 2 },
        texcoord: Vec2h { x: 0, y: 0 },
    }
}

fn unindexed_mesh() -> Mesh {
    Mesh::new(vec![plain_vertex(0, 0), plain_vertex(2, 0), plain_vertex(0, 2)], None)
}

#[test]
fn model_from_empty_mesh_list_is_rejected() {
    let result = Model::new(Vec::new());
    assert!(matches!(result, Err(RenderError::EmptyModel)));
}

#[test]
fn model_with_mixed_indexing_is_rejected() {
    let meshes = vec![Mesh::new_triangle(), unindexed_mesh()];
    let result = Model::new(meshes);
    assert!(matches!(result, Err(RenderError::MixedMeshIndexing)));

    let meshes = vec![unindexed_mesh(), Mesh::new_quad()];
    let result = Model::new(meshes);
    assert!(matches!(result, Err(RenderError::MixedMeshIndexing)));
}

#[test]
fn model_with_uniform_indexing_succeeds() {
    let indexed = Model::new(vec![Mesh::new_triangle(), Mesh::new_quad()]).unwrap();
    assert!(indexed.index_buffer.is_some());

    let unindexed = Model::new(vec![unindexed_mesh(), unindexed_mesh()]).unwrap();
    assert!(unindexed.index_buffer.is_none());
}

#[test]
fn model_concatenates_vertices_in_mesh_order() {
    let model = Model::new(vec![Mesh::new_triangle(), Mesh::new_quad()]).unwrap();
    let merged = model.get_vertices_merged();
    assert_eq!(merged.len(), 9);
    let triangle = Mesh::new_triangle();
    let quad = Mesh::new_quad();
    assert_eq!(&merged[..3], &triangle.vertices[..]);
    assert_eq!(&merged[3..], &quad.vertices[..]);
    assert_eq!(model.vertex_buffer.len(), 9);
}

#[test]
fn model_concatenates_indices_without_offsetting() {
    let model = Model::new(vec![Mesh::new_triangle(), Mesh::new_quad()]).unwrap();
    let merged = model.get_indices_merged().unwrap();
    assert_eq!(merged, vec![0, 1, 2, 0, 1, 2, 3, 4, 5]);
}

#[test]
fn unindexed_model_has_no_merged_indices() {
    let model = Model::new(vec![unindexed_mesh()]).unwrap();
    assert!(model.get_indices_merged().is_none());
}

#[test]
fn vertex_buffer_holds_half_unit_positions_over_two() {
    let model = Model::new(vec![Mesh::new_triangle()]).unwrap();
    let first = &model.vertex_buffer[0];
    assert_eq!(first.position.x.num, -1);
    assert_eq!(first.position.x.den, 2);
    assert_eq!(first.position.z.num, 0);
    assert_eq!(first.position.z.den, 2);
}
