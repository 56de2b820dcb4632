use cgmath::{One, Quaternion};
use flight_core::aircraft::{AircraftMgr, SpawnError, AIRCRAFT_MODEL};
use flight_core::aircraft_input::{AircraftInputMgr, AircraftPilot};
use flight_core::player_camera::PlayerCameraController;
use flight_core::collider::{ColliderError, ColliderMgr, ColliderType};
use flight_core::fixed::UNIT;
use flight_core::flight::{Attitude, EnvelopeError, FlightAction};
use flight_core::inventory::InventoryMgr;
use flight_core::model::{Mesh, Model, ModelMgr};
use flight_core::transform::TransformMgr;
use flight_core::vector::Vec3;

type Rotation = Quaternion<f32>;

struct Game {
    aircraft: AircraftMgr<Rotation>,
    transforms: TransformMgr<Rotation>,
    colliders: ColliderMgr,
    inputs: AircraftInputMgr,
    inventories: InventoryMgr,
    models: ModelMgr,
}

fn hull() -> Model {
    let vertices = vec![
        Vec3::new(-UNIT, -UNIT / 2, -UNIT),
        Vec3::new(UNIT, UNIT / 2, UNIT),
        Vec3::new(0, 0, 0),
    ];
    Model::new(vec![Mesh::new(vertices, &vec![0, 1, 2]).unwrap()])
}

fn game() -> Game {
    let mut models = ModelMgr::new();
    models.add(hull(), AIRCRAFT_MODEL);
    Game {
        aircraft: AircraftMgr::new(),
        transforms: TransformMgr::new(),
        colliders: ColliderMgr::new(),
        inputs: AircraftInputMgr::new(),
        inventories: InventoryMgr::new(),
        models,
    }
}

fn turned() -> Rotation {
    Quaternion::new(0.0, 0.0, 1.0, 0.0)
}

fn spawn(game: &mut Game, pilot: AircraftPilot, at: Vec3) -> Result<usize, SpawnError> {
    let (max_speed, min_speed) = match pilot {
        AircraftPilot::Player => (6 * UNIT, 0),
        AircraftPilot::Ai => (20 * UNIT, UNIT),
    };
    game.aircraft.add(
        pilot,
        max_speed,
        min_speed,
        5 * UNIT,
        2 * UNIT,
        5 * UNIT,
        3 * UNIT,
        6 * UNIT,
        at,
        turned(),
        &mut game.inventories,
        &game.models,
        &mut game.transforms,
        &mut game.colliders,
        &mut game.inputs,
        Some(7),
    )
}

fn level() -> Attitude {
    Attitude { forward: Vec3::new(0, 0, UNIT), right: Vec3::new(UNIT, 0, 0) }
}

#[test]
fn spawned_aircraft_is_wired_into_every_store() {
    let mut g = game();
    g.transforms.add(Vec3::zero(), Quaternion::one());
    g.inventories.add();
    let at = Vec3::new(0, 6 * UNIT, 10 * UNIT);
    assert_eq!(spawn(&mut g, AircraftPilot::Player, at), Ok(0));
    assert_eq!(spawn(&mut g, AircraftPilot::Ai, Vec3::new(UNIT, UNIT, UNIT)), Ok(1));
    assert_eq!(g.aircraft.len(), 2);
    assert_eq!(g.aircraft.get_player_aircraft_index(), 0);
    assert_eq!(g.aircraft.pilot_type, vec![AircraftPilot::Player, AircraftPilot::Ai]);
    // An aircraft starts at its minimal speed and without turning.
    assert_eq!(g.aircraft.throttle, vec![0, UNIT]);
    assert_eq!(g.aircraft.pitch_speed, vec![0, 0]);
    assert_eq!(g.aircraft.yaw_speed, vec![0, 0]);
    assert_eq!(g.aircraft.max_speed, vec![6 * UNIT, 20 * UNIT]);
    assert_eq!(g.aircraft.min_speed, vec![0, UNIT]);
    assert_eq!(g.aircraft.acceleration, vec![5 * UNIT, 5 * UNIT]);
    assert_eq!(g.aircraft.yaw_max_speed, vec![2 * UNIT, 2 * UNIT]);
    assert_eq!(g.aircraft.yaw_acceleration, vec![5 * UNIT, 5 * UNIT]);
    assert_eq!(g.aircraft.pitch_max_speed, vec![3 * UNIT, 3 * UNIT]);
    assert_eq!(g.aircraft.pitch_acceleration, vec![6 * UNIT, 6 * UNIT]);
    assert_eq!(g.aircraft.start_position[0], at);
    assert_eq!(g.aircraft.start_rotation[0], turned());
    assert_eq!(g.aircraft.inventory_i, vec![Some(1), Some(2)]);
    assert_eq!(g.aircraft.transform_i, vec![Some(1), Some(2)]);
    assert_eq!(g.aircraft.input_i, vec![Some(0), Some(1)]);
    assert_eq!(g.aircraft.collider_i, vec![Some(0), Some(1)]);
    assert_eq!(g.aircraft.mesh_renderer_i, vec![Some(7), Some(7)]);
    assert_eq!(g.transforms.position[1], at);
    assert_eq!(g.transforms.rotation[1], turned());
    assert_eq!(g.inputs.pilot_type, vec![AircraftPilot::Player, AircraftPilot::Ai]);
    assert_eq!(g.inputs.aircraft_i, vec![Some(0), Some(1)]);
    assert_eq!(g.inventories.len(), 3);
    assert_eq!(g.colliders.len(), 2);
    assert_eq!(g.colliders.transform_i, vec![1, 2]);
    assert_eq!(g.colliders.collider_type[0], ColliderType::Box);
    assert!(g.colliders.is_collision_source[0] && g.colliders.is_collision_target[0]);
    assert_eq!(g.colliders.bounding_box_min[0], Vec3::new(-UNIT, -UNIT / 2, -UNIT));
    assert_eq!(g.colliders.bounding_box_max[0], Vec3::new(UNIT, UNIT / 2, UNIT));
}

fn spawn_with(
    g: &mut Game,
    max_speed: i64,
    min_speed: i64,
    yaw_max_speed: i64,
    pitch_max_speed: i64,
) -> Result<usize, SpawnError> {
    g.aircraft.add(
        AircraftPilot::Player,
        max_speed,
        min_speed,
        5 * UNIT,
        yaw_max_speed,
        5 * UNIT,
        pitch_max_speed,
        6 * UNIT,
        Vec3::zero(),
        Quaternion::one(),
        &mut g.inventories,
        &g.models,
        &mut g.transforms,
        &mut g.colliders,
        &mut g.inputs,
        None,
    )
}

fn assert_untouched(g: &Game) {
    assert_eq!(g.aircraft.len(), 0);
    assert_eq!(g.transforms.len(), 0);
    assert_eq!(g.colliders.len(), 0);
    assert_eq!(g.inputs.len(), 0);
    assert_eq!(g.inventories.len(), 0);
}

#[test]
fn invalid_envelopes_are_refused() {
    let mut g = game();
    assert_eq!(
        spawn_with(&mut g, 6 * UNIT, 0, 0, 3 * UNIT),
        Err(SpawnError::Envelope(EnvelopeError::YawMaxSpeedNotPositive))
    );
    assert_eq!(
        spawn_with(&mut g, 6 * UNIT, 0, 2 * UNIT, -1),
        Err(SpawnError::Envelope(EnvelopeError::PitchMaxSpeedNegative))
    );
    assert_eq!(
        spawn_with(&mut g, 6 * UNIT, 6 * UNIT + 1, 2 * UNIT, 3 * UNIT),
        Err(SpawnError::Envelope(EnvelopeError::SpeedRangeEmpty))
    );
    assert_untouched(&g);
    assert_eq!(spawn_with(&mut g, 6 * UNIT, 6 * UNIT, 1, 0), Ok(0));
}

#[test]
fn aircraft_needs_its_model() {
    let mut g = game();
    g.models = ModelMgr::new();
    g.models.add(hull(), "models/cube.obj");
    assert_eq!(spawn(&mut g, AircraftPilot::Player, Vec3::zero()), Err(SpawnError::ModelMissing));
    // The envelope is looked at before the model.
    assert_eq!(
        spawn_with(&mut g, 6 * UNIT, 0, 0, 3 * UNIT),
        Err(SpawnError::Envelope(EnvelopeError::YawMaxSpeedNotPositive))
    );
    assert_untouched(&g);
    g.models.add(Model::new(Vec::new()), AIRCRAFT_MODEL);
    assert_eq!(
        spawn(&mut g, AircraftPilot::Player, Vec3::zero()),
        Err(SpawnError::Collider(ColliderError::InvertedBounds))
    );
    assert_untouched(&g);
}

#[test]
fn first_model_of_the_name_is_used() {
    let mut g = game();
    g.models.add(Model::new(Vec::new()), AIRCRAFT_MODEL);
    assert_eq!(spawn(&mut g, AircraftPilot::Player, Vec3::zero()), Ok(0));
    assert_eq!(g.colliders.model_i, vec![Some(0)]);
}

#[test]
fn throttle_scenario_through_the_stores() {
    let mut g = game();
    spawn(&mut g, AircraftPilot::Player, Vec3::zero()).unwrap();
    g.inputs.input_throttle[0] = UNIT;
    let action = g.aircraft.update_player(0, &mut g.transforms, &mut g.inputs, level(), UNIT);
    assert_eq!(g.aircraft.throttle[0], 5 * UNIT);
    assert_eq!(g.transforms.position[0], Vec3::new(0, 0, 5 * UNIT));
    assert_eq!(
        action,
        FlightAction::Rotate { pitch_delta: 0, yaw_delta: 0, current_roll: 0, bank: 0 }
    );
    // The command was consumed.
    assert_eq!(g.inputs.input_throttle[0], 0);
    g.inputs.input_throttle[0] = UNIT;
    g.aircraft.update_player(0, &mut g.transforms, &mut g.inputs, level(), UNIT);
    assert_eq!(g.aircraft.throttle[0], 6 * UNIT);
    assert_eq!(g.transforms.position[0], Vec3::new(0, 0, 11 * UNIT));
    // Without a command the throttle stays where it is.
    g.aircraft.update_player(0, &mut g.transforms, &mut g.inputs, level(), UNIT);
    assert_eq!(g.aircraft.throttle[0], 6 * UNIT);
}

#[test]
fn reset_restores_the_start_pose() {
    let mut g = game();
    let start = Vec3::new(0, 6 * UNIT, 10 * UNIT);
    spawn(&mut g, AircraftPilot::Player, start).unwrap();
    g.inputs.input_throttle[0] = UNIT;
    g.inputs.input_pitch[0] = UNIT;
    g.inputs.input_yaw[0] = -UNIT;
    g.aircraft.update_player(0, &mut g.transforms, &mut g.inputs, level(), 100_000);
    g.transforms.set_rotation(0, Quaternion::one());
    assert_ne!(g.transforms.position[0], start);
    let pitch_speed = g.aircraft.pitch_speed[0];
    let yaw_speed = g.aircraft.yaw_speed[0];
    assert_eq!((pitch_speed, yaw_speed), (600_000, -500_000));

    g.inputs.input_reset_transform[0] = true;
    g.inputs.input_pitch[0] = UNIT;
    let action = g.aircraft.update_player(0, &mut g.transforms, &mut g.inputs, level(), 100_000);
    assert_eq!(action, FlightAction::Reset);
    assert_eq!(g.transforms.position[0], start);
    assert_eq!(g.transforms.rotation[0], turned());
    // Only the throttle was integrated (it coasts), the rates are untouched.
    assert_eq!(g.aircraft.throttle[0], 500_000);
    assert_eq!(g.aircraft.pitch_speed[0], pitch_speed);
    assert_eq!(g.aircraft.yaw_speed[0], yaw_speed);
    // All commands were consumed, the reset command too.
    assert_eq!(g.inputs.input_pitch[0], 0);
    assert_eq!(g.inputs.input_yaw[0], 0);
    assert_eq!(g.inputs.input_throttle[0], 0);
    assert!(!g.inputs.input_reset_transform[0]);
}

#[test]
fn reset_transform_sets_the_pose() {
    let mut transforms: TransformMgr<Rotation> = TransformMgr::new();
    transforms.add(Vec3::new(1, 2, 3), Quaternion::one());
    transforms.add(Vec3::new(4, 5, 6), Quaternion::one());
    AircraftMgr::reset_transform(1, Vec3::new(7, 8, 9), turned(), &mut transforms);
    assert_eq!(transforms.position, vec![Vec3::new(1, 2, 3), Vec3::new(7, 8, 9)]);
    assert_eq!(transforms.rotation, vec![Quaternion::one(), turned()]);
}

#[test]
fn pitch_limit_through_the_stores() {
    let mut g = game();
    spawn(&mut g, AircraftPilot::Player, Vec3::zero()).unwrap();
    g.aircraft.pitch_speed[0] = UNIT;
    g.inputs.input_pitch[0] = UNIT;
    let steep = Attitude { forward: Vec3::new(0, 950_000, 312_250), right: Vec3::new(UNIT, 0, 0) };
    let action = g.aircraft.update_player(0, &mut g.transforms, &mut g.inputs, steep, 100_000);
    assert_eq!(g.aircraft.pitch_speed[0], 0);
    assert_eq!(
        action,
        FlightAction::Rotate { pitch_delta: 0, yaw_delta: 0, current_roll: 0, bank: 0 }
    );
}

#[test]
fn computer_pilot_pursues_the_player() {
    let mut g = game();
    spawn(&mut g, AircraftPilot::Player, Vec3::new(0, 8 * UNIT, 10 * UNIT)).unwrap();
    spawn(&mut g, AircraftPilot::Ai, Vec3::new(30 * UNIT, 6 * UNIT, 30 * UNIT)).unwrap();
    let before = g.aircraft.throttle.clone();
    let action = g.aircraft.update_ai(1, &mut g.transforms, level(), 100_000);
    assert_eq!(g.transforms.position[1], Vec3::new(30 * UNIT, 7_300_000, 31_300_000));
    assert_eq!(g.transforms.position[0], Vec3::new(0, 8 * UNIT, 10 * UNIT));
    assert_eq!(
        action,
        FlightAction::Pursue { toward: Vec3::new(-30 * UNIT, 0, -20 * UNIT), fraction: 300_000 }
    );
    assert_eq!(g.aircraft.throttle, before);
    assert_eq!(g.transforms.rotation[1], turned());
}

#[test]
fn update_flies_every_aircraft_in_order() {
    let mut g = game();
    spawn(&mut g, AircraftPilot::Player, Vec3::new(0, 6 * UNIT, 0)).unwrap();
    spawn(&mut g, AircraftPilot::Ai, Vec3::new(0, 6 * UNIT, 100 * UNIT)).unwrap();
    g.aircraft.throttle[0] = 6 * UNIT;
    g.inputs.input_yaw[0] = UNIT;
    g.inputs.input_yaw[1] = UNIT;
    let attitudes = vec![level(), level()];
    let actions = g.aircraft.update(&mut g.transforms, &mut g.inputs, &attitudes, UNIT);
    assert_eq!(actions.len(), 2);
    // The player moved six units ahead before the opponent looked at it:
    // the distance left is 94, its square over 100 is 88.36, limited to 20.
    assert_eq!(g.transforms.position[0], Vec3::new(0, 6 * UNIT, 6 * UNIT));
    assert_eq!(
        actions[1],
        FlightAction::Pursue { toward: Vec3::new(0, 0, -94 * UNIT), fraction: 3 * UNIT }
    );
    assert_eq!(g.transforms.position[1], Vec3::new(0, 6 * UNIT, 120 * UNIT));
    assert_eq!(
        actions[0],
        FlightAction::Rotate { pitch_delta: 0, yaw_delta: 2 * UNIT, current_roll: 0, bank: UNIT }
    );
    assert_eq!(g.aircraft.yaw_speed, vec![2 * UNIT, 0]);
    // The player's commands were consumed, the opponent's slot was left alone.
    assert_eq!(g.inputs.input_yaw, vec![0, UNIT]);
}

#[test]
fn update_of_an_empty_fleet_does_nothing() {
    let mut g = game();
    let actions = g.aircraft.update(&mut g.transforms, &mut g.inputs, &Vec::new(), UNIT);
    assert!(actions.is_empty());
    assert_untouched(&g);
}

#[test]
fn camera_follows_the_second_aircraft() {
    let mut g = game();
    spawn(&mut g, AircraftPilot::Player, Vec3::new(1, 2, 3)).unwrap();
    spawn(&mut g, AircraftPilot::Ai, Vec3::new(4, 5, 6)).unwrap();
    let mut camera = PlayerCameraController::new();
    assert_eq!(camera.update(&g.aircraft, &g.transforms), (Vec3::new(4, 5, 6), turned()));
}
