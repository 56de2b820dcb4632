use flight_core::aircraft::{SpawnError, AIRCRAFT_MODEL};
use flight_core::aircraft_input::KeyBindings;
use flight_core::fixed::UNIT;
use flight_core::flight::{Attitude, FlightAction};
use flight_core::game_state::{GameError, GameState};
use flight_core::model::{Mesh, Model, ModelMgr};
use flight_core::sample_scene::{SceneError, TERRAIN_MODEL};
use flight_core::vector::Vec3;

fn solid(half: i64) -> Model {
    let vertices = vec![Vec3::new(-half, -half, -half), Vec3::new(half, half, half), Vec3::zero()];
    Model::new(vec![Mesh::new(vertices, &vec![0, 1, 2]).unwrap()])
}

fn models() -> ModelMgr {
    let mut models = ModelMgr::new();
    models.add(solid(600 * UNIT), TERRAIN_MODEL);
    models.add(solid(UNIT), AIRCRAFT_MODEL);
    models
}

fn bindings() -> KeyBindings {
    KeyBindings {
        pitch_down: 1,
        pitch_up: 2,
        yaw_left: 3,
        yaw_right: 4,
        throttle_up: 5,
        throttle_down: 6,
        reset: 7,
    }
}

fn level() -> Attitude {
    Attitude { forward: Vec3::new(0, 0, UNIT), right: Vec3::new(UNIT, 0, 0) }
}

fn session() -> GameState<u8> {
    GameState::new(models(), bindings(), 1u8, 0).unwrap()
}

#[test]
fn session_starts_with_the_sample_scene() {
    let game = session();
    assert!(game.is_wf());
    assert_eq!(game.aircraft_mgr.len(), 12);
    assert_eq!(game.transform_mgr.len(), 14);
    assert_eq!(game.collider_mgr.len(), 13);
    assert_eq!(game.building_mgr.len(), 1);
    assert_eq!(game.model_mgr.len(), 2);
    assert_eq!(game.key_bindings, bindings());
    assert_eq!(game.terrain.transform_i, 0);
    assert!(game.keyboard_mgr.key_pressed.iter().all(|k| !*k));
    assert!(game.keyboard_mgr.key_down.iter().all(|k| !*k));
    assert!(game.keyboard_mgr.key_up.iter().all(|k| !*k));
    // Every entity is level, and the aircraft are what the scene makes them.
    assert!(game.transform_mgr.rotation.iter().all(|r| *r == 1));
    assert_eq!(game.aircraft_mgr.start_rotation, vec![1u8; 12]);
    assert_eq!(game.aircraft_mgr.throttle[0], 0);
    assert_eq!(game.aircraft_mgr.throttle[1..], vec![UNIT; 11][..]);
    assert_eq!(game.aircraft_mgr.start_position[0], Vec3::new(0, 6 * UNIT, 10 * UNIT));
    assert_eq!(game.transform_mgr.position[13], Vec3::new(0, UNIT, 0));
    assert_eq!(game.transform_of(0), 1);
    assert_eq!(game.transform_of(11), 12);
}

#[test]
fn session_does_not_start_without_bindings_or_models() {
    let broken = KeyBindings { reset: 512, ..bindings() };
    assert_eq!(GameState::new(models(), broken, 1u8, 0).err(), Some(GameError::KeyBindings));
    // The bindings are looked at first.
    assert_eq!(GameState::new(ModelMgr::new(), broken, 1u8, 0).err(), Some(GameError::KeyBindings));
    assert_eq!(
        GameState::new(ModelMgr::new(), bindings(), 1u8, 0).err(),
        Some(GameError::Scene(SceneError::TerrainModelMissing))
    );
    let mut only_terrain = ModelMgr::new();
    only_terrain.add(solid(UNIT), TERRAIN_MODEL);
    assert_eq!(
        GameState::new(only_terrain, bindings(), 1u8, 0).err(),
        Some(GameError::Scene(SceneError::Aircraft(SpawnError::ModelMissing)))
    );
}

#[test]
fn keys_reach_the_keyboard_state_only() {
    let mut game = session();
    assert!(game.input(5, true));
    assert!(game.keyboard_mgr.key_pressed[5] && game.keyboard_mgr.key_down[5]);
    assert!(!game.input(512, true));
    // Nothing is steered before the next tick.
    assert_eq!(game.aircraft_input_mgr.input_throttle[0], 0);
    assert_eq!(game.aircraft_mgr.throttle[0], 0);
}

#[test]
fn tick_reads_keys_flies_and_finds_collisions() {
    let mut game = session();
    game.input(5, true); // throttle up
    game.input(4, true); // yaw right
    let attitudes = vec![level(); 12];
    let start = game.transform_mgr.position.clone();
    let actions = game.update(&attitudes, 100_000);
    assert!(game.is_wf());
    assert_eq!(actions.len(), 12);
    // The player: throttle 0.5, flown 0.05 ahead, yaw rate 0.5.
    assert_eq!(game.aircraft_mgr.throttle[0], 500_000);
    assert_eq!(game.aircraft_mgr.yaw_speed[0], 500_000);
    assert_eq!(game.transform_mgr.position[1], Vec3::new(0, 6 * UNIT, 10_050_000));
    assert_eq!(
        actions[0],
        FlightAction::Rotate { pitch_delta: 0, yaw_delta: 50_000, current_roll: 0, bank: 250_000 }
    );
    // The commands were consumed within the tick.
    assert_eq!(game.aircraft_input_mgr.input_throttle[0], 0);
    assert_eq!(game.aircraft_input_mgr.input_yaw[0], 0);
    // Every opponent pursues the player where the player is now.
    for i in 1..12 {
        let here = start[i + 1];
        let toward = Vec3::new(0 - here.x, 0, 10_050_000 - here.z);
        assert_eq!(actions[i], FlightAction::Pursue { toward, fraction: 300_000 });
        assert_ne!(game.transform_mgr.position[i + 1], here);
    }
    // The terrain and the factory stay where they are.
    assert_eq!(game.transform_mgr.position[0], start[0]);
    assert_eq!(game.transform_mgr.position[13], start[13]);
    // The terrain, a target only, records nothing.
    assert_eq!(game.collider_mgr.colliding_indices[0], [-1, -1, -1, -1]);
    // The keys are still held at the next tick.
    game.update(&attitudes, 100_000);
    assert_eq!(game.aircraft_mgr.throttle[0], UNIT);
}

#[test]
fn aircraft_on_the_ground_vertex_collides_with_the_terrain() {
    let mut models = ModelMgr::new();
    // A terrain whose third vertex lies where the player starts.
    let vertices = vec![
        Vec3::new(-600 * UNIT, -UNIT, -600 * UNIT),
        Vec3::new(600 * UNIT, 200 * UNIT, 600 * UNIT),
        Vec3::new(0, 6 * UNIT, 10 * UNIT),
    ];
    models.add(Model::new(vec![Mesh::new(vertices, &vec![0, 1, 2]).unwrap()]), TERRAIN_MODEL);
    models.add(solid(UNIT), AIRCRAFT_MODEL);
    let mut game: GameState<u8> = GameState::new(models, bindings(), 1u8, 0).unwrap();
    game.update(&vec![level(); 12], 0);
    // Collider 1 is the player's; the terrain is collider 0.
    assert_eq!(game.collider_mgr.colliding_indices[1][0], 0);
    assert_eq!(game.collider_mgr.colliding_indices[0], [-1, -1, -1, -1]);
}

#[test]
fn camera_follows_the_first_opponent() {
    let mut game = session();
    let pose = game.camera_pose();
    assert_eq!(pose, Some((Vec3::new(30 * UNIT, 6 * UNIT, 30 * UNIT), 1u8)));
}
