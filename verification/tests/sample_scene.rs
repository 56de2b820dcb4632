use flight_core::aircraft::{AircraftMgr, SpawnError, AIRCRAFT_MODEL};
use flight_core::aircraft_input::{AircraftInputMgr, AircraftPilot};
use flight_core::building::{BuildingMgr, BuildingType, BUILDING_MODEL};
use flight_core::collider::{ColliderError, ColliderMgr, ColliderType};
use flight_core::fixed::UNIT;
use flight_core::inventory::InventoryMgr;
use flight_core::model::{Mesh, Model, ModelMgr};
use flight_core::sample_scene::{
    create, site_from, SceneError, AIRCRAFT, SCATTERED, SCATTER_SEED, TERRAIN_MODEL,
};
use flight_core::terrain::Terrain;
use flight_core::transform::TransformMgr;
use flight_core::vector::Vec3;

struct Stores {
    aircraft: AircraftMgr<u8>,
    transforms: TransformMgr<u8>,
    colliders: ColliderMgr,
    inputs: AircraftInputMgr,
    buildings: BuildingMgr,
    inventories: InventoryMgr,
}

fn stores() -> Stores {
    Stores {
        aircraft: AircraftMgr::new(),
        transforms: TransformMgr::new(),
        colliders: ColliderMgr::new(),
        inputs: AircraftInputMgr::new(),
        buildings: BuildingMgr::new(),
        inventories: InventoryMgr::new(),
    }
}

fn solid(half: i64) -> Model {
    let vertices = vec![Vec3::new(-half, -half, -half), Vec3::new(half, half, half), Vec3::zero()];
    Model::new(vec![Mesh::new(vertices, &vec![0, 1, 2]).unwrap()])
}

fn run(s: &mut Stores, models: &ModelMgr) -> Result<Terrain, SceneError> {
    create(
        &mut s.aircraft,
        &mut s.transforms,
        &mut s.colliders,
        &mut s.inputs,
        &mut s.buildings,
        &mut s.inventories,
        models,
        3u8,
        9,
    )
}

fn assert_empty(s: &Stores) {
    assert_eq!(s.aircraft.len(), 0);
    assert_eq!(s.transforms.len(), 0);
    assert_eq!(s.colliders.len(), 0);
    assert_eq!(s.inputs.len(), 0);
    assert_eq!(s.buildings.len(), 0);
    assert_eq!(s.inventories.len(), 0);
}

#[test]
fn scene_is_created() {
    let mut models = ModelMgr::new();
    models.add(solid(500 * UNIT), TERRAIN_MODEL);
    models.add(solid(UNIT), AIRCRAFT_MODEL);
    let mut s = stores();
    let terrain = run(&mut s, &models).unwrap();
    assert_eq!((terrain.transform_i, terrain.collider_i, terrain.mesh_renderer_i), (0, 0, 9));
    assert_eq!(AIRCRAFT, 12);
    assert_eq!(s.aircraft.len(), 12);
    assert_eq!(s.transforms.len(), 14);
    assert_eq!(s.colliders.len(), 13);
    assert_eq!(s.inputs.len(), 12);
    assert_eq!(s.inventories.len(), 13);
    assert_eq!(s.buildings.len(), 1);
    // Every entity has the orientation that was passed in.
    assert!(s.transforms.rotation.iter().all(|r| *r == 3));
    assert_eq!(s.aircraft.start_rotation, vec![3u8; 12]);

    // The terrain: tested per vertex, target only.
    assert_eq!(s.transforms.position[0], Vec3::zero());
    assert_eq!(s.colliders.collider_type[0], ColliderType::Vertex);
    assert!(!s.colliders.is_collision_source[0] && s.colliders.is_collision_target[0]);
    assert_eq!(s.colliders.model_i[0], Some(0));

    // The player is aircraft 0.
    assert_eq!(s.aircraft.get_player_aircraft_index(), 0);
    assert_eq!(s.aircraft.pilot_type[0], AircraftPilot::Player);
    assert!(s.aircraft.pilot_type[1..].iter().all(|p| *p == AircraftPilot::Ai));
    assert_eq!(s.aircraft.start_position[0], Vec3::new(0, 6 * UNIT, 10 * UNIT));
    assert_eq!(s.aircraft.start_position[1], Vec3::new(30 * UNIT, 6 * UNIT, 30 * UNIT));
    assert_eq!((s.aircraft.max_speed[0], s.aircraft.min_speed[0]), (6 * UNIT, 0));
    assert_eq!((s.aircraft.yaw_max_speed[0], s.aircraft.yaw_acceleration[0]), (2 * UNIT, 5 * UNIT));
    assert_eq!(s.aircraft.throttle[0], 0);
    for i in 1..12 {
        assert_eq!((s.aircraft.max_speed[i], s.aircraft.min_speed[i]), (20 * UNIT, UNIT));
        assert_eq!(s.aircraft.acceleration[i], 5 * UNIT);
        assert_eq!(
            (s.aircraft.yaw_max_speed[i], s.aircraft.yaw_acceleration[i]),
            (5 * UNIT, 10 * UNIT)
        );
        assert_eq!(
            (s.aircraft.pitch_max_speed[i], s.aircraft.pitch_acceleration[i]),
            (3 * UNIT, 6 * UNIT)
        );
        assert_eq!(s.aircraft.throttle[i], UNIT);
    }
    for i in 0..12 {
        assert_eq!(s.aircraft.transform_i[i], Some(i + 1));
        assert_eq!(s.aircraft.collider_i[i], Some(i + 1));
        assert_eq!(s.aircraft.input_i[i], Some(i));
        assert_eq!(s.aircraft.inventory_i[i], Some(i));
        assert_eq!(s.aircraft.mesh_renderer_i[i], None);
        assert_eq!(s.transforms.position[i + 1], s.aircraft.start_position[i]);
        assert_eq!(s.colliders.model_i[i + 1], Some(1));
        assert_eq!(s.colliders.collider_type[i + 1], ColliderType::Box);
        assert!(s.colliders.is_collision_source[i + 1] && s.colliders.is_collision_target[i + 1]);
        assert!(!s.colliders.should_render_bounding_box[i + 1]);
        assert_eq!(s.colliders.transform_i[i + 1], i + 1);
        assert_eq!(s.colliders.bounding_box_min[i + 1], Vec3::new(-UNIT, -UNIT, -UNIT));
        assert_eq!(s.colliders.bounding_box_max[i + 1], Vec3::new(UNIT, UNIT, UNIT));
        assert_eq!(s.colliders.colliding_indices[i + 1], [-1, -1, -1, -1]);
        assert_eq!(s.inputs.pilot_type[i], s.aircraft.pilot_type[i]);
        assert_eq!(s.inputs.aircraft_i[i], Some(i));
        assert_eq!(
            (s.inputs.input_pitch[i], s.inputs.input_yaw[i], s.inputs.input_throttle[i]),
            (0, 0, 0)
        );
        assert!(!s.inputs.input_reset_transform[i]);
        assert_eq!((s.inputs.yaw_prev_dot[i], s.inputs.yaw_prev_sign[i]), (-UNIT, UNIT));
    }

    // The scattered opponents follow the generator.
    let mut reference = oorandom::Rand32::new(SCATTER_SEED);
    assert_eq!(SCATTERED, 10);
    for i in 2..12 {
        let x = reference.rand_range(0..1000) as i64 - 500;
        let y = reference.rand_range(10..100) as i64;
        let z = reference.rand_range(0..1000) as i64 - 500;
        assert_eq!(s.aircraft.start_position[i], Vec3::new(x * UNIT, y * UNIT, z * UNIT));
        assert!(-500 <= x && x < 500 && 10 <= y && y < 100 && -500 <= z && z < 500);
    }

    // The factory.
    assert_eq!(s.buildings.building_type, vec![BuildingType::Factory]);
    assert_eq!(s.buildings.supply_range, vec![Some(10 * UNIT)]);
    assert_eq!(s.buildings.supply_period_ms, vec![Some(1000)]);
    assert_eq!(s.buildings.transform_i, vec![Some(13)]);
    assert_eq!(s.buildings.inventory_i, vec![Some(12)]);
    assert_eq!(s.buildings.mesh_renderer_i, vec![None]);
    assert_eq!(s.inventories.item_ammo_bullets, vec![0; 13]);
    assert_eq!(s.inventories.item_ammo_rockets, vec![0; 13]);
    assert_eq!(s.inventories.item_ammo_energy_cells, vec![0; 13]);
    assert_eq!(s.transforms.position[13], Vec3::new(0, UNIT, 0));
    assert_eq!(BUILDING_MODEL, "models/cube.obj");
}

#[test]
fn draws_become_sites() {
    assert_eq!(site_from(0, 10, 0), Vec3::new(-500 * UNIT, 10 * UNIT, -500 * UNIT));
    assert_eq!(site_from(999, 99, 999), Vec3::new(499 * UNIT, 99 * UNIT, 499 * UNIT));
    assert_eq!(site_from(500, 42, 123), Vec3::new(0, 42 * UNIT, -377 * UNIT));
}

#[test]
fn scene_needs_its_models() {
    let mut s = stores();
    let mut models = ModelMgr::new();
    assert_eq!(run(&mut s, &models).err(), Some(SceneError::TerrainModelMissing));
    models.add(solid(UNIT), AIRCRAFT_MODEL);
    assert_eq!(run(&mut s, &models).err(), Some(SceneError::TerrainModelMissing));
    models.add(Model::new(Vec::new()), TERRAIN_MODEL);
    assert_eq!(
        run(&mut s, &models).err(),
        Some(SceneError::Terrain(ColliderError::InvertedBounds))
    );
    assert_empty(&s);

    let mut models = ModelMgr::new();
    models.add(solid(UNIT), TERRAIN_MODEL);
    assert_eq!(run(&mut s, &models).err(), Some(SceneError::Aircraft(SpawnError::ModelMissing)));
    models.add(Model::new(Vec::new()), AIRCRAFT_MODEL);
    assert_eq!(
        run(&mut s, &models).err(),
        Some(SceneError::Aircraft(SpawnError::Collider(ColliderError::InvertedBounds)))
    );
    assert_empty(&s);
}

#[test]
fn scene_is_appended_to_what_is_there() {
    let mut models = ModelMgr::new();
    models.add(solid(500 * UNIT), TERRAIN_MODEL);
    models.add(solid(UNIT), AIRCRAFT_MODEL);
    let mut s = stores();
    s.transforms.add(Vec3::new(1, 2, 3), 0);
    s.inventories.add();
    let terrain = run(&mut s, &models).unwrap();
    assert_eq!(terrain.transform_i, 1);
    assert_eq!(s.transforms.position[0], Vec3::new(1, 2, 3));
    assert_eq!(s.transforms.rotation[0], 0);
    assert!(s.transforms.rotation[1..].iter().all(|r| *r == 3));
    assert_eq!(s.aircraft.start_rotation, vec![3u8; 12]);
    assert_eq!(s.aircraft.transform_i[0], Some(2));
    assert_eq!(s.aircraft.inventory_i[0], Some(1));
    assert_eq!(s.buildings.transform_i, vec![Some(14)]);
}

#[test]
fn terrain_is_a_target_only() {
    let mut models = ModelMgr::new();
    let ground = models.add(solid(UNIT), "ground");
    let hole = models.add(Model::new(Vec::new()), "hole");
    let mut transforms: TransformMgr<u8> = TransformMgr::new();
    let mut colliders = ColliderMgr::new();
    let refused =
        Terrain::new(hole, Vec3::zero(), 0, &mut transforms, &mut colliders, &models, 4);
    assert_eq!(refused.err(), Some(ColliderError::InvertedBounds));
    assert_eq!((transforms.len(), colliders.len()), (0, 0));
    let terrain =
        Terrain::new(ground, Vec3::new(1, 2, 3), 5, &mut transforms, &mut colliders, &models, 4)
            .unwrap();
    assert_eq!((terrain.transform_i, terrain.collider_i, terrain.mesh_renderer_i), (0, 0, 4));
    assert_eq!(transforms.position, vec![Vec3::new(1, 2, 3)]);
    assert_eq!(transforms.rotation, vec![5]);
    assert_eq!(colliders.collider_type, vec![ColliderType::Vertex]);
    assert_eq!(colliders.is_collision_source, vec![false]);
    assert_eq!(colliders.is_collision_target, vec![true]);
    assert_eq!(colliders.model_i, vec![Some(ground)]);
}

#[test]
fn buildings_are_placed() {
    let mut buildings = BuildingMgr::new();
    let mut inventories = InventoryMgr::new();
    let mut transforms: TransformMgr<u8> = TransformMgr::new();
    assert_eq!(buildings.len(), 0);
    let index = buildings.add(
        BuildingType::Factory,
        None,
        Some(250),
        Vec3::new(1, 2, 3),
        6,
        &mut inventories,
        &mut transforms,
        Some(11),
    );
    assert_eq!(index, 0);
    assert_eq!(buildings.len(), 1);
    assert_eq!(buildings.supply_range, vec![None]);
    assert_eq!(buildings.supply_period_ms, vec![Some(250)]);
    assert_eq!(buildings.inventory_i, vec![Some(0)]);
    assert_eq!(buildings.transform_i, vec![Some(0)]);
    assert_eq!(buildings.mesh_renderer_i, vec![Some(11)]);
    assert_eq!(transforms.position, vec![Vec3::new(1, 2, 3)]);
    assert_eq!(transforms.rotation, vec![6]);
    assert_eq!(inventories.len(), 1);
}
