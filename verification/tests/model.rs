use flight_core::model::{Mesh, Model, ModelMgr};
use flight_core::vector::Vec3;

fn triangle() -> Vec<Vec3> {
    vec![Vec3::new(1, 5, -3), Vec3::new(-2, 7, 0), Vec3::new(4, -1, 9), Vec3::new(100, 100, 100)]
}

#[test]
fn mesh_box_spans_the_vertices_in_use() {
    let mesh = Mesh::new(triangle(), &vec![0, 1, 2]).unwrap();
    // Vertex 3 is part of no triangle and does not count.
    assert_eq!(mesh.min, Vec3::new(-2, -1, -3));
    assert_eq!(mesh.max, Vec3::new(4, 7, 9));
    assert_eq!(mesh.vertices, triangle());
    let mesh = Mesh::new(triangle(), &vec![0, 1, 2, 3, 3, 3]).unwrap();
    assert_eq!(mesh.min, Vec3::new(-2, -1, -3));
    assert_eq!(mesh.max, Vec3::new(100, 100, 100));
}

#[test]
fn mesh_without_triangles_has_an_inverted_box() {
    let mesh = Mesh::new(triangle(), &Vec::new()).unwrap();
    assert_eq!(mesh.min, Vec3::new(i64::MAX, i64::MAX, i64::MAX));
    assert_eq!(mesh.max, Vec3::new(i64::MIN, i64::MIN, i64::MIN));
}

#[test]
fn mesh_with_bad_indices_is_refused() {
    assert!(Mesh::new(triangle(), &vec![0, 1]).is_none());
    assert!(Mesh::new(triangle(), &vec![0, 1, 2, 3]).is_none());
    assert!(Mesh::new(triangle(), &vec![0, 1, 4]).is_none());
    assert!(Mesh::new(Vec::new(), &vec![0, 0, 0]).is_none());
    assert!(Mesh::new(Vec::new(), &Vec::new()).is_some());
}

#[test]
fn model_box_spans_its_meshes() {
    let low = Mesh::new(triangle(), &vec![0, 1, 2]).unwrap();
    let high = Mesh::new(triangle(), &vec![3, 3, 3]).unwrap();
    let model = Model::new(vec![low, high]);
    assert_eq!(model.min, Vec3::new(-2, -1, -3));
    assert_eq!(model.max, Vec3::new(100, 100, 100));
    assert_eq!(model.meshes.len(), 2);
    let nothing = Model::new(Vec::new());
    assert_eq!(nothing.min, Vec3::new(i64::MAX, i64::MAX, i64::MAX));
    assert_eq!(nothing.max, Vec3::new(i64::MIN, i64::MIN, i64::MIN));
}

#[test]
fn models_are_found_by_name() {
    let mut models = ModelMgr::new();
    assert_eq!(models.len(), 0);
    assert_eq!(models.get_with_name("a"), None);
    assert_eq!(models.add(Model::new(Vec::new()), "a"), 0);
    assert_eq!(models.add(Model::new(Vec::new()), "b"), 1);
    assert_eq!(models.add(Model::new(Vec::new()), "a"), 2);
    assert_eq!(models.len(), 3);
    assert_eq!(models.get_with_name("a"), Some(0));
    assert_eq!(models.get_with_name("b"), Some(1));
    assert_eq!(models.get_with_name("c"), None);
    assert_eq!(models.get_with_name(""), None);
    assert_eq!(models.get_with_name("A"), None);
    assert_eq!(models.name, vec!["a".to_string(), "b".to_string(), "a".to_string()]);
}
