use cgmath::{One, Quaternion};
use flight_core::collider::{ColliderError, ColliderMgr, ColliderType, NO_COLLISION};
use flight_core::fixed::UNIT;
use flight_core::model::{Mesh, Model, ModelMgr};
use flight_core::transform::TransformMgr;
use flight_core::vector::Vec3;

/// Raw value of a number given in thousandths.
fn milli(v: i64) -> i64 {
    v * 1000
}

fn point(x: i64, y: i64, z: i64) -> Vec3 {
    Vec3::new(milli(x), milli(y), milli(z))
}

/// A model with one triangle whose box spans `min` to `max`.
fn box_model(min: Vec3, max: Vec3) -> Model {
    let vertices = vec![min, max, Vec3::new(min.x, max.y, min.z)];
    let mesh = Mesh::new(vertices, &vec![0, 1, 2]).unwrap();
    Model::new(vec![mesh])
}

struct Stage {
    transforms: TransformMgr<Quaternion<f32>>,
    models: ModelMgr,
    colliders: ColliderMgr,
}

fn stage() -> Stage {
    Stage { transforms: TransformMgr::new(), models: ModelMgr::new(), colliders: ColliderMgr::new() }
}

fn place(
    stage: &mut Stage,
    min: Vec3,
    max: Vec3,
    position: Vec3,
    kind: ColliderType,
    source: bool,
    target: bool,
) -> usize {
    let model = stage.models.add(box_model(min, max), "box");
    let transform = stage.transforms.add(position, Quaternion::one());
    stage
        .colliders
        .add_from_model(model, transform, kind, source, target, false, &stage.transforms, &stage.models)
        .unwrap()
}

fn unit_cube(stage: &mut Stage, position: Vec3, source: bool, target: bool) -> usize {
    place(stage, point(0, 0, 0), point(1000, 1000, 1000), position, ColliderType::Box, source, target)
}

#[test]
fn overlapping_boxes_record_each_other() {
    let mut s = stage();
    let a = unit_cube(&mut s, point(0, 0, 0), true, true);
    let b = place(
        &mut s,
        point(500, 500, 500),
        point(2000, 2000, 2000),
        point(0, 0, 0),
        ColliderType::Box,
        true,
        true,
    );
    s.colliders.update(&s.transforms, &s.models);
    assert_eq!(s.colliders.colliding_indices[a], [b as isize, -1, -1, -1]);
    assert_eq!(s.colliders.colliding_indices[b], [a as isize, -1, -1, -1]);
}

#[test]
fn boxes_moved_apart_record_nothing() {
    let mut s = stage();
    let a = unit_cube(&mut s, point(0, 0, 0), true, true);
    let b = place(
        &mut s,
        point(500, 500, 500),
        point(2000, 2000, 2000),
        point(10_000, 0, 0),
        ColliderType::Box,
        true,
        true,
    );
    s.colliders.update(&s.transforms, &s.models);
    assert_eq!(s.colliders.colliding_indices[a], [NO_COLLISION; 4]);
    assert_eq!(s.colliders.colliding_indices[b], [NO_COLLISION; 4]);
}

#[test]
fn records_follow_the_transforms() {
    let mut s = stage();
    let a = unit_cube(&mut s, point(0, 0, 0), true, true);
    let b = unit_cube(&mut s, point(5000, 0, 0), true, true);
    s.colliders.update(&s.transforms, &s.models);
    assert_eq!(s.colliders.colliding_indices[a], [-1, -1, -1, -1]);
    // Touching faces count as overlap.
    s.transforms.translate(1, point(-4000, 0, 0));
    s.colliders.update(&s.transforms, &s.models);
    assert_eq!(s.colliders.colliding_indices[a], [b as isize, -1, -1, -1]);
    assert_eq!(s.colliders.colliding_indices[b], [a as isize, -1, -1, -1]);
    // One thousandth further and they part again; the old record is gone.
    s.transforms.translate(1, point(1, 0, 0));
    s.colliders.update(&s.transforms, &s.models);
    assert_eq!(s.colliders.colliding_indices[a], [-1, -1, -1, -1]);
    assert_eq!(s.colliders.colliding_indices[b], [-1, -1, -1, -1]);
}

#[test]
fn separation_on_one_axis_is_enough() {
    for offset in [point(1500, 0, 0), point(0, 1500, 0), point(0, 0, 1500), point(0, -1500, 0)] {
        let mut s = stage();
        let a = unit_cube(&mut s, point(0, 0, 0), true, true);
        unit_cube(&mut s, offset, true, true);
        s.colliders.update(&s.transforms, &s.models);
        assert_eq!(s.colliders.colliding_indices[a], [-1, -1, -1, -1]);
    }
}

#[test]
fn target_only_collider_never_acts() {
    let mut s = stage();
    let source = unit_cube(&mut s, point(0, 0, 0), true, false);
    let ground = unit_cube(&mut s, point(500, 0, 0), false, true);
    s.colliders.update(&s.transforms, &s.models);
    // The source records the target; the target records nothing, and the
    // source, being no target, is recorded by nobody.
    assert_eq!(s.colliders.colliding_indices[source], [ground as isize, -1, -1, -1]);
    assert_eq!(s.colliders.colliding_indices[ground], [-1, -1, -1, -1]);
}

#[test]
fn sources_do_not_record_non_targets() {
    let mut s = stage();
    let a = unit_cube(&mut s, point(0, 0, 0), true, false);
    let b = unit_cube(&mut s, point(0, 0, 0), true, false);
    s.colliders.update(&s.transforms, &s.models);
    assert_eq!(s.colliders.colliding_indices[a], [-1, -1, -1, -1]);
    assert_eq!(s.colliders.colliding_indices[b], [-1, -1, -1, -1]);
}

#[test]
fn record_holds_the_first_four_partners() {
    let mut s = stage();
    // Colliders 0..3 and 5..6 surround collider 4.
    for k in 0..7 {
        unit_cube(&mut s, point(100 * k, 0, 0), true, true);
    }
    s.colliders.update(&s.transforms, &s.models);
    assert_eq!(s.colliders.colliding_indices[4], [0, 1, 2, 3]);
    assert_eq!(s.colliders.colliding_indices[0], [1, 2, 3, 4]);
    assert_eq!(s.colliders.colliding_indices[6], [0, 1, 2, 3]);
    let named = s.colliders.colliding_indices[4].iter().filter(|j| **j != NO_COLLISION).count();
    assert_eq!(named, 4);
}

#[test]
fn check_collisions_skips_itself() {
    let mut s = stage();
    let a = unit_cube(&mut s, point(0, 0, 0), true, true);
    assert_eq!(s.colliders.check_collisions(a, &s.transforms, &s.models), [-1, -1, -1, -1]);
    let b = unit_cube(&mut s, point(0, 0, 0), false, true);
    assert_eq!(s.colliders.check_collisions(a, &s.transforms, &s.models), [b as isize, -1, -1, -1]);
    // `update` has not run: the stored records are still empty.
    assert_eq!(s.colliders.colliding_indices[a], [-1, -1, -1, -1]);
}

#[test]
fn box_against_mesh_needs_a_vertex_inside() {
    let mut s = stage();
    // A wide mesh whose box covers everything, with vertices far from the cube.
    let ground = place(
        &mut s,
        point(-100_000, -1000, -100_000),
        point(100_000, 0, 100_000),
        point(0, 0, 0),
        ColliderType::Vertex,
        false,
        true,
    );
    let cube = unit_cube(&mut s, point(0, -500, 0), true, true);
    s.colliders.update(&s.transforms, &s.models);
    assert_eq!(s.colliders.colliding_indices[cube], [-1, -1, -1, -1]);
    assert!(!s.colliders.check_collision_box_mesh(cube, ground, &s.transforms, &s.models));
    // Move the cube over the corner vertex of the mesh.
    s.transforms.translate(1, point(99_500, 0, 99_500));
    s.colliders.update(&s.transforms, &s.models);
    assert_eq!(s.colliders.colliding_indices[cube], [ground as isize, -1, -1, -1]);
    assert!(s.colliders.check_collision_box_mesh(cube, ground, &s.transforms, &s.models));
}

#[test]
fn mesh_source_is_tested_against_the_box_of_the_target() {
    let mut s = stage();
    let mesh = place(
        &mut s,
        point(0, 0, 0),
        point(10_000, 10_000, 10_000),
        point(0, 0, 0),
        ColliderType::Vertex,
        true,
        false,
    );
    // A cube in the middle of the mesh's box holds none of its vertices.
    let inner = unit_cube(&mut s, point(4000, 4000, 4000), false, true);
    // A cube around the mesh's greatest corner holds one.
    let corner = unit_cube(&mut s, point(9500, 9500, 9500), false, true);
    s.colliders.update(&s.transforms, &s.models);
    assert_eq!(s.colliders.colliding_indices[mesh], [corner as isize, -1, -1, -1]);
    assert_eq!(s.colliders.colliding_indices[inner], [-1, -1, -1, -1]);
}

#[test]
fn mesh_vertices_are_read_in_model_space() {
    let mut s = stage();
    // The mesh entity sits far away, its vertices are stored around the origin.
    let mesh = place(
        &mut s,
        point(0, 0, 0),
        point(1000, 1000, 1000),
        point(50_000, 0, 0),
        ColliderType::Vertex,
        false,
        true,
    );
    let cube = unit_cube(&mut s, point(50_500, 0, 0), true, false);
    s.colliders.update(&s.transforms, &s.models);
    // The boxes overlap, but no stored vertex lies in the cube's world box.
    assert_eq!(s.colliders.colliding_indices[cube], [-1, -1, -1, -1]);
    assert!(!s.colliders.check_collision_box_mesh(cube, mesh, &s.transforms, &s.models));
}

#[test]
fn two_meshes_collide_on_box_overlap() {
    let mut s = stage();
    let a = place(
        &mut s,
        point(0, 0, 0),
        point(10_000, 10_000, 10_000),
        point(0, 0, 0),
        ColliderType::Vertex,
        true,
        true,
    );
    let b = place(
        &mut s,
        point(0, 0, 0),
        point(1000, 1000, 1000),
        point(4000, 4000, 4000),
        ColliderType::Vertex,
        true,
        true,
    );
    s.colliders.update(&s.transforms, &s.models);
    assert_eq!(s.colliders.colliding_indices[a], [b as isize, -1, -1, -1]);
    assert_eq!(s.colliders.colliding_indices[b], [a as isize, -1, -1, -1]);
}

#[test]
fn boxes_ignore_orientation() {
    let mut s = stage();
    let a = place(
        &mut s,
        point(0, 0, 0),
        point(4000, 1000, 1000),
        point(0, 0, 0),
        ColliderType::Box,
        true,
        true,
    );
    let b = unit_cube(&mut s, point(3500, 0, 0), true, true);
    // A quarter turn about the up axis would swing the long box away.
    s.transforms.set_rotation(0, Quaternion::new(0.70710677, 0.0, 0.70710677, 0.0));
    s.colliders.update(&s.transforms, &s.models);
    assert_eq!(s.colliders.colliding_indices[a], [b as isize, -1, -1, -1]);
}

#[test]
fn translated_corners() {
    let mut s = stage();
    let a = place(
        &mut s,
        point(-1000, -2000, -3000),
        point(1000, 2000, 3000),
        point(0, 0, 0),
        ColliderType::Box,
        true,
        true,
    );
    let here = point(10_000, 20_000, 30_000);
    assert_eq!(s.colliders.get_translated_min_pos(a, here), point(9000, 18_000, 27_000));
    assert_eq!(s.colliders.get_translated_max_pos(a, here), point(11_000, 22_000, 33_000));
    assert_eq!(
        s.colliders.get_translated_position(point(1, 2, 3), point(10, 20, 30)),
        point(11, 22, 33)
    );
    assert_eq!(
        s.colliders.get_translated_position(Vec3::new(i64::MAX, 0, i64::MIN), Vec3::new(1, 0, -1)),
        Vec3::new(i64::MAX, 0, i64::MIN)
    );
}

#[test]
fn collider_of_an_empty_model_is_refused() {
    let mut s = stage();
    let empty = s.models.add(Model::new(Vec::new()), "empty");
    let transform = s.transforms.add(point(0, 0, 0), Quaternion::one());
    let refused = s.colliders.add_from_model(
        empty,
        transform,
        ColliderType::Box,
        true,
        true,
        false,
        &s.transforms,
        &s.models,
    );
    assert_eq!(refused, Err(ColliderError::InvertedBounds));
    assert_eq!(s.colliders.len(), 0);
}

#[test]
fn new_collider_copies_the_model_box() {
    let mut s = stage();
    let a = place(
        &mut s,
        point(-1000, 0, 0),
        point(1000, 2000, 3000),
        point(0, 0, 0),
        ColliderType::Vertex,
        false,
        true,
    );
    assert_eq!(a, 0);
    assert_eq!(s.colliders.len(), 1);
    assert_eq!(s.colliders.bounding_box_min[a], point(-1000, 0, 0));
    assert_eq!(s.colliders.bounding_box_max[a], point(1000, 2000, 3000));
    assert_eq!(s.colliders.collider_type[a], ColliderType::Vertex);
    assert!(!s.colliders.is_collision_source[a]);
    assert!(s.colliders.is_collision_target[a]);
    assert!(!s.colliders.should_render_bounding_box[a]);
    assert_eq!(s.colliders.transform_i[a], 0);
    assert_eq!(s.colliders.model_i[a], Some(0));
    assert_eq!(s.colliders.colliding_indices[a], [-1, -1, -1, -1]);
    assert_eq!(UNIT, 1_000_000);
}
