//! The scene that a session starts with: the terrain, the player's aircraft,
//! its opponents and a factory.
use vstd::prelude::*;
use crate::aircraft::{AircraftMgr, SpawnError, AIRCRAFT_MODEL};
use crate::aircraft_input::{neutral, AircraftInputMgr, AircraftPilot};
use crate::building::{BuildingMgr, BuildingType};
use crate::collider::{record, ColliderError, ColliderMgr, ColliderType};
use crate::fixed::UNIT;
use crate::flight::Envelope;
use crate::inventory::InventoryMgr;
use crate::model::ModelMgr;
use crate::terrain::Terrain;
use crate::transform::TransformMgr;
use crate::vector::Vec3;

verus! {

/// Name of the model of the terrain.
pub const TERRAIN_MODEL: &'static str = "models/Terrain_1.obj";

/// Seed of the generator that scatters the opponents.
pub const SCATTER_SEED: u64 = 1234;

/// Number of opponents scattered at random, besides the one placed by hand.
pub const SCATTERED: usize = 10;

/// Number of aircraft in the scene.
pub const AIRCRAFT: usize = 12;

/// Reason for which the scene is not created.
#[derive(Clone, Copy, Debug, PartialEq, Eq, Structural)]
pub enum SceneError {
    /// No model of the name `TERRAIN_MODEL` is loaded.
    TerrainModelMissing,
    /// The collider of the terrain is refused.
    Terrain(ColliderError),
    /// An aircraft is refused.
    Aircraft(SpawnError),
}

/// Envelope of the player's aircraft.
pub open spec fn player_envelope() -> Envelope {
    Envelope {
        max_speed: 6_000_000,
        min_speed: 0,
        acceleration: 5_000_000,
        yaw_max_speed: 2_000_000,
        yaw_acceleration: 5_000_000,
        pitch_max_speed: 3_000_000,
        pitch_acceleration: 6_000_000,
    }
}

/// Envelope of every opponent.
pub open spec fn opponent_envelope() -> Envelope {
    Envelope {
        max_speed: 20_000_000,
        min_speed: 1_000_000,
        acceleration: 5_000_000,
        yaw_max_speed: 5_000_000,
        yaw_acceleration: 10_000_000,
        pitch_max_speed: 3_000_000,
        pitch_acceleration: 6_000_000,
    }
}

/// Where the player starts.
pub open spec fn player_start() -> Vec3 {
    Vec3 { x: 0, y: 6_000_000, z: 10_000_000 }
}

/// Where the opponent placed by hand starts.
pub open spec fn opponent_start() -> Vec3 {
    Vec3 { x: 30_000_000, y: 6_000_000, z: 30_000_000 }
}

/// Where the factory stands.
pub open spec fn factory_site() -> Vec3 {
    Vec3 { x: 0, y: 1_000_000, z: 0 }
}

/// Whether `p` is a place where a scattered opponent may start: whole units,
/// less than 500 from the origin along `x` and `z` (the lower end included),
/// at a height from 10 up to but not 100.
pub open spec fn scatter_site(p: Vec3) -> bool {
    &&& p.x % UNIT == 0
    &&& p.y % UNIT == 0
    &&& p.z % UNIT == 0
    &&& -500 * UNIT <= p.x < 500 * UNIT
    &&& 10 * UNIT <= p.y < 100 * UNIT
    &&& -500 * UNIT <= p.z < 500 * UNIT
}

/// Index of the first model called `name`; meaningful where there is one.
pub open spec fn first_named(model_mgr: &ModelMgr, name: Seq<char>) -> int {
    choose|i: int|
        0 <= i < model_mgr.name.len() && (#[trigger] model_mgr.name[i])@ == name && forall|j: int|
            0 <= j < i ==> (#[trigger] model_mgr.name[j])@ != name
}

/// Whether some model is called `name`.
pub open spec fn is_loaded(model_mgr: &ModelMgr, name: Seq<char>) -> bool {
    exists|i: int| 0 <= i < model_mgr.name.len() && (#[trigger] model_mgr.name[i])@ == name
}

/// The first reason for which the scene is not created, given the models and
/// the number of colliders there are: what stands in the way of the terrain,
/// then what stands in the way of the aircraft.
pub open spec fn refusal(model_mgr: &ModelMgr, colliders: nat) -> Option<SceneError> {
    if !is_loaded(model_mgr, TERRAIN_MODEL@) {
        Some(SceneError::TerrainModelMissing)
    } else if !model_mgr.model[first_named(model_mgr, TERRAIN_MODEL@)].bounded() {
        Some(SceneError::Terrain(ColliderError::InvertedBounds))
    } else if colliders >= isize::MAX {
        Some(SceneError::Terrain(ColliderError::Full))
    } else if !is_loaded(model_mgr, AIRCRAFT_MODEL@) {
        Some(SceneError::Aircraft(SpawnError::ModelMissing))
    } else if !model_mgr.model[first_named(model_mgr, AIRCRAFT_MODEL@)].bounded() {
        Some(SceneError::Aircraft(SpawnError::Collider(ColliderError::InvertedBounds)))
    } else if colliders + 1 + AIRCRAFT > isize::MAX {
        Some(SceneError::Aircraft(SpawnError::Collider(ColliderError::Full)))
    } else {
        None
    }
}

/// The site that three draws give: `x` and `z`, drawn from `0..1000`, are
/// moved down by 500, and `y`, drawn from `10..100`, is the height; each in
/// whole units.
pub open spec fn site_of(x: int, y: int, z: int) -> Vec3 {
    Vec3 {
        x: ((x - 500) * 1_000_000) as i64,
        y: (y * 1_000_000) as i64,
        z: ((z - 500) * 1_000_000) as i64,
    }
}

/// Turns three draws into the site of a scattered opponent.
pub fn site_from(x: u32, y: u32, z: u32) -> (p: Vec3)
    requires
        x < 1000,
        10 <= y < 100,
        z < 1000,
    ensures
        p == site_of(x as int, y as int, z as int),
        scatter_site(p),
{
    Vec3 { x: (x as i64 - 500) * UNIT, y: (y as i64) * UNIT, z: (z as i64 - 500) * UNIT }
}

/// Draws the site of a scattered opponent: `x` from `0..1000`, then `y` from
/// `10..100`, then `z` from `0..1000`.
fn scatter(rng: &mut oorandom::Rand32) -> (p: Vec3)
    ensures
        scatter_site(p),
        exists|x: int, y: int, z: int|
            0 <= x < 1000 && 10 <= y < 100 && 0 <= z < 1000 && p == #[trigger] site_of(x, y, z),
{
    let x = rng.rand_range(0..1000);
    let y = rng.rand_range(10..100);
    let z = rng.rand_range(0..1000);
    let p = site_from(x, y, z);
    assert(p == site_of(x as int, y as int, z as int));
    p
}

/// Whether aircraft `i` has, besides its transform `t`, what an aircraft of
/// the scene is spawned with: the collider `c`, a box with the bounds of the
/// aircraft model on that transform, collision source and target, with
/// nothing recorded; the input slot `s`, neutral and with the heuristic
/// state of a new slot; the inventory `v`, empty; and no renderable.
pub open spec fn equipped<R: Copy>(
    aircraft_mgr: &AircraftMgr<R>,
    collider_mgr: &ColliderMgr,
    input_mgr: &AircraftInputMgr,
    inventory_mgr: &InventoryMgr,
    model_mgr: &ModelMgr,
    i: int,
    t: int,
    c: int,
    s: int,
    v: int,
) -> bool {
    let model = first_named(model_mgr, AIRCRAFT_MODEL@);
    &&& 0 <= c < collider_mgr.count()
    &&& 0 <= s < input_mgr.count()
    &&& 0 <= v < inventory_mgr.count()
    &&& aircraft_mgr.collider_i[i] == Some(c as usize)
    &&& aircraft_mgr.input_i[i] == Some(s as usize)
    &&& aircraft_mgr.inventory_i[i] == Some(v as usize)
    &&& aircraft_mgr.mesh_renderer_i[i].is_none()
    &&& collider_mgr.collider_type[c] == ColliderType::Box
    &&& collider_mgr.is_collision_source[c]
    &&& collider_mgr.is_collision_target[c]
    &&& !collider_mgr.should_render_bounding_box[c]
    &&& collider_mgr.transform_i[c] == t
    &&& collider_mgr.model_i[c] == Some(model as usize)
    &&& collider_mgr.bounding_box_min[c] == model_mgr.model[model].min
    &&& collider_mgr.bounding_box_max[c] == model_mgr.model[model].max
    &&& collider_mgr.colliding_indices[c]@ == record(Seq::empty())
    &&& input_mgr.pilot_type[s] == aircraft_mgr.pilot_type[i]
    &&& input_mgr.aircraft_i[s] == Some(i as usize)
    &&& input_mgr.control(s) == neutral()
    &&& input_mgr.yaw_prev_dot[s] == -UNIT
    &&& input_mgr.yaw_prev_sign[s] == UNIT
    &&& inventory_mgr.item_ammo_bullets[v] == 0
    &&& inventory_mgr.item_ammo_rockets[v] == 0
    &&& inventory_mgr.item_ammo_energy_cells[v] == 0
}

/// Whether collider `c` is the terrain's: tested per vertex, with the bounds
/// of the terrain model, on transform `t`, a collision target only, with
/// nothing recorded.
pub open spec fn grounded(collider_mgr: &ColliderMgr, model_mgr: &ModelMgr, c: int, t: int)
    -> bool {
    let land = first_named(model_mgr, TERRAIN_MODEL@);
    &&& 0 <= c < collider_mgr.count()
    &&& collider_mgr.collider_type[c] == ColliderType::Vertex
    &&& !collider_mgr.is_collision_source[c]
    &&& collider_mgr.is_collision_target[c]
    &&& !collider_mgr.should_render_bounding_box[c]
    &&& collider_mgr.transform_i[c] == t
    &&& collider_mgr.model_i[c] == Some(land as usize)
    &&& collider_mgr.bounding_box_min[c] == model_mgr.model[land].min
    &&& collider_mgr.bounding_box_max[c] == model_mgr.model[land].max
    &&& collider_mgr.colliding_indices[c]@ == record(Seq::empty())
}

/// Whether aircraft `i` of a scene is equipped with the transform, the
/// collider, the input slot and the inventory that its place in the scene
/// gives it: the scene's aircraft start at index `first`, its transforms at
/// `ground`, its colliders at `hull`, its input slots at `slots` and its
/// inventories at `stock`, and the terrain comes before the aircraft.
pub open spec fn fitted<R: Copy>(
    aircraft_mgr: &AircraftMgr<R>,
    collider_mgr: &ColliderMgr,
    input_mgr: &AircraftInputMgr,
    inventory_mgr: &InventoryMgr,
    model_mgr: &ModelMgr,
    first: int,
    ground: int,
    hull: int,
    slots: int,
    stock: int,
    i: int,
) -> bool {
    equipped(
        aircraft_mgr,
        collider_mgr,
        input_mgr,
        inventory_mgr,
        model_mgr,
        i,
        ground + 1 + (i - first),
        hull + 1 + (i - first),
        slots + (i - first),
        stock + (i - first),
    )
}

/// Whether the stores hold what belongs to the entities of the scene besides
/// their transforms: the terrain's collider, then per aircraft a collider, an
/// input slot and an inventory, and the inventory of the factory, which has
/// no renderable.
pub open spec fn holds_fittings<R: Copy>(
    aircraft_mgr: &AircraftMgr<R>,
    collider_mgr: &ColliderMgr,
    input_mgr: &AircraftInputMgr,
    inventory_mgr: &InventoryMgr,
    building_mgr: &BuildingMgr,
    model_mgr: &ModelMgr,
    first: int,
    ground: int,
    hull: int,
    slots: int,
    stock: int,
) -> bool {
    &&& collider_mgr.count() == hull + 1 + AIRCRAFT
    &&& input_mgr.count() == slots + AIRCRAFT
    &&& inventory_mgr.count() == stock + AIRCRAFT + 1
    &&& building_mgr.count() >= 1
    &&& grounded(collider_mgr, model_mgr, hull, ground)
    &&& forall|i: int|
        first <= i < first + AIRCRAFT ==> #[trigger] fitted(
            aircraft_mgr,
            collider_mgr,
            input_mgr,
            inventory_mgr,
            model_mgr,
            first,
            ground,
            hull,
            slots,
            stock,
            i,
        )
    &&& building_mgr.inventory_i@.last() == Some((stock + AIRCRAFT) as usize)
    &&& building_mgr.mesh_renderer_i@.last().is_none()
    &&& inventory_mgr.item_ammo_bullets[stock + AIRCRAFT] == 0
    &&& inventory_mgr.item_ammo_rockets[stock + AIRCRAFT] == 0
    &&& inventory_mgr.item_ammo_energy_cells[stock + AIRCRAFT] == 0
}

/// What an aircraft is equipped with stays as it is while the stores grow.
proof fn lemma_equipped_kept<R: Copy>(
    aircraft_mgr: &AircraftMgr<R>,
    collider_mgr: &ColliderMgr,
    input_mgr: &AircraftInputMgr,
    inventory_mgr: &InventoryMgr,
    aircraft_before: &AircraftMgr<R>,
    colliders_before: &ColliderMgr,
    inputs_before: &AircraftInputMgr,
    inventories_before: &InventoryMgr,
    transform_mgr: &TransformMgr<R>,
    model_mgr: &ModelMgr,
    i: int,
    t: int,
    c: int,
    s: int,
    v: int,
)
    requires
        aircraft_mgr.wf(),
        collider_mgr.wf(),
        input_mgr.wf(),
        inventory_mgr.wf(),
        aircraft_before.wf(),
        colliders_before.wf(),
        inputs_before.wf(),
        inventories_before.wf(),
        aircraft_mgr.extends(aircraft_before),
        collider_mgr.extends(colliders_before),
        input_mgr.extends(inputs_before),
        inventory_mgr.extends(inventories_before),
        0 <= i < aircraft_before.count(),
        equipped(
            aircraft_before,
            colliders_before,
            inputs_before,
            inventories_before,
            model_mgr,
            i,
            t,
            c,
            s,
            v,
        ),
    ensures
        equipped(aircraft_mgr, collider_mgr, input_mgr, inventory_mgr, model_mgr, i, t, c, s, v),
{
    assert(transform_mgr.position@.take(transform_mgr.position@.len() as int)
        =~= transform_mgr.position@);
    aircraft_mgr.lemma_extends_keeps(
        aircraft_before,
        transform_mgr,
        transform_mgr,
        i,
        AircraftPilot::Ai,
        opponent_envelope(),
        Vec3 { x: 0, y: 0, z: 0 },
    );
    collider_mgr.lemma_extends_keeps(colliders_before, c);
    input_mgr.lemma_extends_keeps(inputs_before, s);
    inventory_mgr.lemma_extends_keeps(inventories_before, v);
}

/// The terrain's collider stays as it is while the colliders grow.
proof fn lemma_grounded_kept(
    collider_mgr: &ColliderMgr,
    colliders_before: &ColliderMgr,
    model_mgr: &ModelMgr,
    c: int,
    t: int,
)
    requires
        collider_mgr.wf(),
        colliders_before.wf(),
        collider_mgr.extends(colliders_before),
        grounded(colliders_before, model_mgr, c, t),
    ensures
        grounded(collider_mgr, model_mgr, c, t),
{
    collider_mgr.lemma_extends_keeps(colliders_before, c);
}

/// What the aircraft of a scene are equipped with stays as it is while the
/// stores grow.
proof fn lemma_fitted_kept<R: Copy>(
    aircraft_mgr: &AircraftMgr<R>,
    collider_mgr: &ColliderMgr,
    input_mgr: &AircraftInputMgr,
    inventory_mgr: &InventoryMgr,
    aircraft_before: &AircraftMgr<R>,
    colliders_before: &ColliderMgr,
    inputs_before: &AircraftInputMgr,
    inventories_before: &InventoryMgr,
    transform_mgr: &TransformMgr<R>,
    model_mgr: &ModelMgr,
    first: int,
    ground: int,
    hull: int,
    slots: int,
    stock: int,
    upto: int,
)
    requires
        aircraft_mgr.wf(),
        collider_mgr.wf(),
        input_mgr.wf(),
        inventory_mgr.wf(),
        aircraft_before.wf(),
        colliders_before.wf(),
        inputs_before.wf(),
        inventories_before.wf(),
        aircraft_mgr.extends(aircraft_before),
        collider_mgr.extends(colliders_before),
        input_mgr.extends(inputs_before),
        inventory_mgr.extends(inventories_before),
        0 <= first <= upto <= aircraft_before.count(),
        forall|i: int|
            first <= i < upto ==> #[trigger] fitted(
                aircraft_before,
                colliders_before,
                inputs_before,
                inventories_before,
                model_mgr,
                first,
                ground,
                hull,
                slots,
                stock,
                i,
            ),
    ensures
        forall|i: int|
            first <= i < upto ==> #[trigger] fitted(
                aircraft_mgr,
                collider_mgr,
                input_mgr,
                inventory_mgr,
                model_mgr,
                first,
                ground,
                hull,
                slots,
                stock,
                i,
            ),
{
    assert forall|i: int| first <= i < upto implies #[trigger] fitted(
        aircraft_mgr,
        collider_mgr,
        input_mgr,
        inventory_mgr,
        model_mgr,
        first,
        ground,
        hull,
        slots,
        stock,
        i,
    ) by {
        assert(fitted(
            aircraft_before,
            colliders_before,
            inputs_before,
            inventories_before,
            model_mgr,
            first,
            ground,
            hull,
            slots,
            stock,
            i,
        ));
        lemma_equipped_kept(
            aircraft_mgr,
            collider_mgr,
            input_mgr,
            inventory_mgr,
            aircraft_before,
            colliders_before,
            inputs_before,
            inventories_before,
            transform_mgr,
            model_mgr,
            i,
            ground + 1 + (i - first),
            hull + 1 + (i - first),
            slots + (i - first),
            stock + (i - first),
        );
    }
}

/// Whether the stores hold the scene, its aircraft from index `first` on and
/// its transforms from index `ground` on, every entity with the orientation
/// `level`:
///
/// - the terrain's transform at the origin;
/// - the player's aircraft, then the opponent placed by hand, then the
///   scattered opponents, each as it is spawned and each on the transform
///   that follows that of the aircraft before it;
/// - the factory, the building added last, on the last transform.
pub open spec fn holds_scene<R: Copy>(
    aircraft_mgr: &AircraftMgr<R>,
    transform_mgr: &TransformMgr<R>,
    building_mgr: &BuildingMgr,
    first: int,
    ground: int,
    level: R,
) -> bool {
    &&& aircraft_mgr.count() == first + AIRCRAFT
    &&& transform_mgr.position@.len() == ground + 2 + AIRCRAFT
    &&& transform_mgr.rotation@.len() == ground + 2 + AIRCRAFT
    &&& building_mgr.count() >= 1
    &&& transform_mgr.position[ground] == (Vec3 { x: 0, y: 0, z: 0 })
    &&& aircraft_mgr.spawned_as(
        transform_mgr,
        first,
        AircraftPilot::Player,
        player_envelope(),
        player_start(),
    )
    &&& aircraft_mgr.spawned_as(
        transform_mgr,
        first + 1,
        AircraftPilot::Ai,
        opponent_envelope(),
        opponent_start(),
    )
    &&& forall|i: int|
        first + 1 < i < first + AIRCRAFT ==> {
            &&& scatter_site(#[trigger] aircraft_mgr.start_position[i])
            &&& aircraft_mgr.spawned_as(
                transform_mgr,
                i,
                AircraftPilot::Ai,
                opponent_envelope(),
                aircraft_mgr.start_position[i],
            )
        }
    &&& forall|i: int|
        first <= i < first + AIRCRAFT ==> (#[trigger] aircraft_mgr.transform_i[i]) == Some(
            (ground + 1 + (i - first)) as usize,
        )
    &&& forall|i: int|
        first <= i < first + AIRCRAFT ==> (#[trigger] aircraft_mgr.start_rotation[i]) == level
    &&& forall|j: int|
        ground <= j < ground + 2 + AIRCRAFT ==> (#[trigger] transform_mgr.rotation[j]) == level
    &&& building_mgr.building_type@.last() == BuildingType::Factory
    &&& building_mgr.supply_range@.last() == Some(10_000_000i64)
    &&& building_mgr.supply_period_ms@.last() == Some(1000u32)
    &&& building_mgr.transform_i@.last() == Some((ground + 1 + AIRCRAFT) as usize)
    &&& transform_mgr.position[ground + 1 + AIRCRAFT] == factory_site()
}

/// Spawns one aircraft of the scene. The models and the room for its
/// collider have been checked before, so it cannot be refused.
fn spawn<R: Copy>(
    pilot: AircraftPilot,
    envelope: Envelope,
    site: Vec3,
    level: R,
    aircraft_mgr: &mut AircraftMgr<R>,
    transform_mgr: &mut TransformMgr<R>,
    collider_mgr: &mut ColliderMgr,
    aircraft_input_mgr: &mut AircraftInputMgr,
    inventory_mgr: &mut InventoryMgr,
    model_mgr: &ModelMgr,
)
    requires
        old(aircraft_mgr).wf(),
        old(transform_mgr).wf(),
        old(collider_mgr).wf(),
        old(aircraft_input_mgr).wf(),
        old(inventory_mgr).wf(),
        model_mgr.wf(),
        old(aircraft_mgr).linked(
            old(transform_mgr).position@.len(),
            old(aircraft_input_mgr).count(),
        ),
        old(collider_mgr).linked(old(transform_mgr).position@.len(), model_mgr.model@.len()),
        AircraftMgr::<R>::refusal(envelope, model_mgr, old(collider_mgr).count()).is_none(),
        AircraftMgr::<R>::aircraft_model(model_mgr) == first_named(model_mgr, AIRCRAFT_MODEL@),
    ensures
        final(aircraft_mgr).wf(),
        final(transform_mgr).wf(),
        final(collider_mgr).wf(),
        final(aircraft_input_mgr).wf(),
        final(inventory_mgr).wf(),
        final(aircraft_mgr).linked(
            final(transform_mgr).position@.len(),
            final(aircraft_input_mgr).count(),
        ),
        final(collider_mgr).linked(final(transform_mgr).position@.len(), model_mgr.model@.len()),
        final(aircraft_mgr).extends(old(aircraft_mgr)),
        final(aircraft_mgr).count() == old(aircraft_mgr).count() + 1,
        final(aircraft_mgr).spawned_as(
            final(transform_mgr),
            old(aircraft_mgr).count() as int,
            pilot,
            envelope,
            site,
        ),
        final(aircraft_mgr).transform_i@.last() == Some(old(transform_mgr).position.len()),
        final(aircraft_mgr).start_rotation@.last() == level,
        final(collider_mgr).extends(old(collider_mgr)),
        final(aircraft_input_mgr).extends(old(aircraft_input_mgr)),
        final(inventory_mgr).extends(old(inventory_mgr)),
        equipped(
            final(aircraft_mgr),
            final(collider_mgr),
            final(aircraft_input_mgr),
            final(inventory_mgr),
            model_mgr,
            old(aircraft_mgr).count() as int,
            old(transform_mgr).position@.len() as int,
            old(collider_mgr).count() as int,
            old(aircraft_input_mgr).count() as int,
            old(inventory_mgr).count() as int,
        ),
        final(transform_mgr).position@ == old(transform_mgr).position@.push(site),
        final(transform_mgr).rotation@ == old(transform_mgr).rotation@.push(level),
        final(collider_mgr).count() == old(collider_mgr).count() + 1,
        final(aircraft_input_mgr).count() == old(aircraft_input_mgr).count() + 1,
        final(inventory_mgr).item_ammo_bullets@.len() == old(inventory_mgr).item_ammo_bullets@.len()
            + 1,
{
    let spawned = aircraft_mgr.add(
        pilot,
        envelope.max_speed,
        envelope.min_speed,
        envelope.acceleration,
        envelope.yaw_max_speed,
        envelope.yaw_acceleration,
        envelope.pitch_max_speed,
        envelope.pitch_acceleration,
        site,
        level,
        inventory_mgr,
        model_mgr,
        transform_mgr,
        collider_mgr,
        aircraft_input_mgr,
        None,
    );
    proof {
        let n = old(aircraft_mgr).count() as int;
        assert(spawned.is_ok());
        assert(aircraft_mgr.state(n) == aircraft_mgr.states()[n]);
        assert(aircraft_mgr.pilot_type@.take(n) =~= old(aircraft_mgr).pilot_type@);
        assert(aircraft_mgr.start_position@.take(n) =~= old(aircraft_mgr).start_position@);
        assert(aircraft_mgr.start_rotation@.take(n) =~= old(aircraft_mgr).start_rotation@);
        assert(aircraft_mgr.inventory_i@.take(n) =~= old(aircraft_mgr).inventory_i@);
        assert(aircraft_mgr.transform_i@.take(n) =~= old(aircraft_mgr).transform_i@);
        assert(aircraft_mgr.collider_i@.take(n) =~= old(aircraft_mgr).collider_i@);
        assert(aircraft_mgr.input_i@.take(n) =~= old(aircraft_mgr).input_i@);
        assert(aircraft_mgr.mesh_renderer_i@.take(n) =~= old(aircraft_mgr).mesh_renderer_i@);
        assert forall|i: int| 0 <= i < n implies {
            &&& aircraft_mgr.throttle[i] == old(aircraft_mgr).throttle[i]
            &&& aircraft_mgr.pitch_speed[i] == old(aircraft_mgr).pitch_speed[i]
            &&& aircraft_mgr.yaw_speed[i] == old(aircraft_mgr).yaw_speed[i]
            &&& aircraft_mgr.max_speed[i] == old(aircraft_mgr).max_speed[i]
            &&& aircraft_mgr.min_speed[i] == old(aircraft_mgr).min_speed[i]
            &&& aircraft_mgr.acceleration[i] == old(aircraft_mgr).acceleration[i]
            &&& aircraft_mgr.yaw_max_speed[i] == old(aircraft_mgr).yaw_max_speed[i]
            &&& aircraft_mgr.yaw_acceleration[i] == old(aircraft_mgr).yaw_acceleration[i]
            &&& aircraft_mgr.pitch_max_speed[i] == old(aircraft_mgr).pitch_max_speed[i]
            &&& aircraft_mgr.pitch_acceleration[i] == old(aircraft_mgr).pitch_acceleration[i]
        } by {
            assert(aircraft_mgr.states()[i] == aircraft_mgr.state(i));
            assert(old(aircraft_mgr).states()[i] == old(aircraft_mgr).state(i));
            assert(aircraft_mgr.envelope(i) == old(aircraft_mgr).envelope(i));
        }
        assert(aircraft_mgr.throttle@.take(n) =~= old(aircraft_mgr).throttle@);
        assert(aircraft_mgr.pitch_speed@.take(n) =~= old(aircraft_mgr).pitch_speed@);
        assert(aircraft_mgr.yaw_speed@.take(n) =~= old(aircraft_mgr).yaw_speed@);
        assert(aircraft_mgr.max_speed@.take(n) =~= old(aircraft_mgr).max_speed@);
        assert(aircraft_mgr.min_speed@.take(n) =~= old(aircraft_mgr).min_speed@);
        assert(aircraft_mgr.acceleration@.take(n) =~= old(aircraft_mgr).acceleration@);
        assert(aircraft_mgr.yaw_max_speed@.take(n) =~= old(aircraft_mgr).yaw_max_speed@);
        assert(aircraft_mgr.yaw_acceleration@.take(n) =~= old(aircraft_mgr).yaw_acceleration@);
        assert(aircraft_mgr.pitch_max_speed@.take(n) =~= old(aircraft_mgr).pitch_max_speed@);
        assert(aircraft_mgr.pitch_acceleration@.take(n) =~= old(
            aircraft_mgr,
        ).pitch_acceleration@);

        let c = old(collider_mgr).count() as int;
        assert(collider_mgr.bounding_box_min@.take(c) =~= old(collider_mgr).bounding_box_min@);
        assert(collider_mgr.bounding_box_max@.take(c) =~= old(collider_mgr).bounding_box_max@);
        assert(collider_mgr.should_render_bounding_box@.take(c) =~= old(
            collider_mgr,
        ).should_render_bounding_box@);
        assert(collider_mgr.collider_type@.take(c) =~= old(collider_mgr).collider_type@);
        assert(collider_mgr.is_collision_source@.take(c) =~= old(
            collider_mgr,
        ).is_collision_source@);
        assert(collider_mgr.is_collision_target@.take(c) =~= old(
            collider_mgr,
        ).is_collision_target@);
        assert(collider_mgr.colliding_indices@.take(c) =~= collider_mgr.colliding_indices@.drop_last());
        assert(collider_mgr.transform_i@.take(c) =~= old(collider_mgr).transform_i@);
        assert(collider_mgr.model_i@.take(c) =~= old(collider_mgr).model_i@);

        let s = old(aircraft_input_mgr).count() as int;
        assert(aircraft_input_mgr.pilot_type@.take(s) =~= old(aircraft_input_mgr).pilot_type@);
        assert(aircraft_input_mgr.controls().take(s) =~= old(aircraft_input_mgr).controls());
        assert(aircraft_input_mgr.yaw_prev_dot@.take(s) =~= old(aircraft_input_mgr).yaw_prev_dot@);
        assert(aircraft_input_mgr.yaw_prev_sign@.take(s) =~= old(
            aircraft_input_mgr,
        ).yaw_prev_sign@);
        assert(aircraft_input_mgr.aircraft_i@.take(s) =~= old(aircraft_input_mgr).aircraft_i@);
        assert(aircraft_input_mgr.ai_target_y_diff@.take(s)
            =~= aircraft_input_mgr.ai_target_y_diff@.drop_last());
        assert(aircraft_input_mgr.controls()[s] == aircraft_input_mgr.control(s));

        let v = old(inventory_mgr).count() as int;
        assert(inventory_mgr.item_ammo_bullets@.take(v) =~= old(inventory_mgr).item_ammo_bullets@);
        assert(inventory_mgr.item_ammo_rockets@.take(v) =~= old(inventory_mgr).item_ammo_rockets@);
        assert(inventory_mgr.item_ammo_energy_cells@.take(v) =~= old(
            inventory_mgr,
        ).item_ammo_energy_cells@);
    }
}

/// Creates the scene in the given stores: the terrain at the origin, the
/// player's aircraft, one opponent placed by hand and `SCATTERED` opponents
/// at random sites, and a factory. Every entity has the orientation `level`.
/// `terrain_renderable` is the renderable of the terrain; the aircraft and
/// the factory get none.
///
/// What stands in the way of the scene is said by `refusal`; a refusal
/// changes nothing. What the stores hold afterwards is said by `holds_scene`
/// and `holds_fittings`. What was in the stores before stays as it is.
pub fn create<R: Copy>(
    aircraft_mgr: &mut AircraftMgr<R>,
    transform_mgr: &mut TransformMgr<R>,
    collider_mgr: &mut ColliderMgr,
    aircraft_input_mgr: &mut AircraftInputMgr,
    building_mgr: &mut BuildingMgr,
    inventory_mgr: &mut InventoryMgr,
    model_mgr: &ModelMgr,
    level: R,
    terrain_renderable: usize,
) -> (r: Result<Terrain, SceneError>)
    requires
        old(aircraft_mgr).wf(),
        old(transform_mgr).wf(),
        old(collider_mgr).wf(),
        old(aircraft_input_mgr).wf(),
        old(building_mgr).wf(),
        old(inventory_mgr).wf(),
        model_mgr.wf(),
        old(aircraft_mgr).linked(
            old(transform_mgr).position@.len(),
            old(aircraft_input_mgr).count(),
        ),
        old(collider_mgr).linked(old(transform_mgr).position@.len(), model_mgr.model@.len()),
    ensures
        final(aircraft_mgr).wf(),
        final(transform_mgr).wf(),
        final(collider_mgr).wf(),
        final(aircraft_input_mgr).wf(),
        final(building_mgr).wf(),
        final(inventory_mgr).wf(),
        final(aircraft_mgr).linked(
            final(transform_mgr).position@.len(),
            final(aircraft_input_mgr).count(),
        ),
        final(collider_mgr).linked(final(transform_mgr).position@.len(), model_mgr.model@.len()),
        match r {
            Err(e) => {
                &&& refusal(model_mgr, old(collider_mgr).count()) == Some(e)
                &&& *final(aircraft_mgr) == *old(aircraft_mgr)
                &&& *final(transform_mgr) == *old(transform_mgr)
                &&& *final(collider_mgr) == *old(collider_mgr)
                &&& *final(aircraft_input_mgr) == *old(aircraft_input_mgr)
                &&& *final(building_mgr) == *old(building_mgr)
                &&& *final(inventory_mgr) == *old(inventory_mgr)
            },
            Ok(terrain) => {
                let first = old(aircraft_mgr).count() as int;
                let ground = old(transform_mgr).position@.len() as int;
                &&& refusal(model_mgr, old(collider_mgr).count()).is_none()
                &&& terrain.transform_i == ground
                &&& terrain.collider_i == old(collider_mgr).count()
                &&& terrain.mesh_renderer_i == terrain_renderable
                &&& final(aircraft_mgr).extends(old(aircraft_mgr))
                &&& final(collider_mgr).extends(old(collider_mgr))
                &&& final(aircraft_input_mgr).extends(old(aircraft_input_mgr))
                &&& final(inventory_mgr).extends(old(inventory_mgr))
                &&& final(building_mgr).extends(old(building_mgr))
                &&& final(building_mgr).count() == old(building_mgr).count() + 1
                &&& holds_fittings(
                    final(aircraft_mgr),
                    final(collider_mgr),
                    final(aircraft_input_mgr),
                    final(inventory_mgr),
                    final(building_mgr),
                    model_mgr,
                    first,
                    ground,
                    old(collider_mgr).count() as int,
                    old(aircraft_input_mgr).count() as int,
                    old(inventory_mgr).count() as int,
                )
                &&& final(transform_mgr).position@.take(ground) == old(transform_mgr).position@
                &&& final(transform_mgr).rotation@.take(ground) == old(transform_mgr).rotation@
                &&& holds_scene(
                    final(aircraft_mgr),
                    final(transform_mgr),
                    final(building_mgr),
                    first,
                    ground,
                    level,
                )
            },
        },
{
    let terrain_model = match model_mgr.get_with_name(TERRAIN_MODEL) {
        Some(model_i) => model_i,
        None => {
            return Err(SceneError::TerrainModelMissing);
        },
    };
    assert(terrain_model == first_named(model_mgr, TERRAIN_MODEL@));
    let ground_model = &model_mgr.model[terrain_model];
    if !(ground_model.min.x <= ground_model.max.x && ground_model.min.y <= ground_model.max.y
        && ground_model.min.z <= ground_model.max.z) {
        return Err(SceneError::Terrain(ColliderError::InvertedBounds));
    }
    if collider_mgr.len() >= isize::MAX as usize {
        return Err(SceneError::Terrain(ColliderError::Full));
    }
    let aircraft_model = match model_mgr.get_with_name(AIRCRAFT_MODEL) {
        Some(model_i) => model_i,
        None => {
            return Err(SceneError::Aircraft(SpawnError::ModelMissing));
        },
    };
    assert(aircraft_model == first_named(model_mgr, AIRCRAFT_MODEL@));
    assert(aircraft_model == AircraftMgr::<R>::aircraft_model(model_mgr));
    let hull = &model_mgr.model[aircraft_model];
    if !(hull.min.x <= hull.max.x && hull.min.y <= hull.max.y && hull.min.z <= hull.max.z) {
        return Err(SceneError::Aircraft(SpawnError::Collider(ColliderError::InvertedBounds)));
    }
    if collider_mgr.len() > isize::MAX as usize - 1 - AIRCRAFT {
        return Err(SceneError::Aircraft(SpawnError::Collider(ColliderError::Full)));
    }
    let ghost first = aircraft_mgr.count() as int;
    let ghost ground = transform_mgr.position@.len() as int;
    let ghost hull = collider_mgr.count() as int;
    let ghost slots = aircraft_input_mgr.count() as int;
    let ghost stock = inventory_mgr.count() as int;

    let terrain = Terrain::new(
        terrain_model,
        Vec3 { x: 0, y: 0, z: 0 },
        level,
        transform_mgr,
        collider_mgr,
        model_mgr,
        terrain_renderable,
    ).unwrap();

    let player = Envelope {
        max_speed: 6 * UNIT,
        min_speed: 0,
        acceleration: 5 * UNIT,
        yaw_max_speed: 2 * UNIT,
        yaw_acceleration: 5 * UNIT,
        pitch_max_speed: 3 * UNIT,
        pitch_acceleration: 6 * UNIT,
    };
    let opponent = Envelope {
        max_speed: 20 * UNIT,
        min_speed: UNIT,
        acceleration: 5 * UNIT,
        yaw_max_speed: 5 * UNIT,
        yaw_acceleration: 10 * UNIT,
        pitch_max_speed: 3 * UNIT,
        pitch_acceleration: 6 * UNIT,
    };
    assert(player == player_envelope());
    assert(opponent == opponent_envelope());
    proof {
        aircraft_mgr.lemma_extends_self();
        aircraft_input_mgr.lemma_extends_self();
        inventory_mgr.lemma_extends_self();
        assert(transform_mgr.position@.take(ground) =~= old(transform_mgr).position@);
        assert(transform_mgr.rotation@.take(ground) =~= old(transform_mgr).rotation@);
        assert(collider_mgr.bounding_box_min@.take(hull) =~= old(collider_mgr).bounding_box_min@);
        assert(collider_mgr.bounding_box_max@.take(hull) =~= old(collider_mgr).bounding_box_max@);
        assert(collider_mgr.should_render_bounding_box@.take(hull) =~= old(
            collider_mgr,
        ).should_render_bounding_box@);
        assert(collider_mgr.collider_type@.take(hull) =~= old(collider_mgr).collider_type@);
        assert(collider_mgr.is_collision_source@.take(hull) =~= old(
            collider_mgr,
        ).is_collision_source@);
        assert(collider_mgr.is_collision_target@.take(hull) =~= old(
            collider_mgr,
        ).is_collision_target@);
        assert(collider_mgr.colliding_indices@.take(hull)
            =~= collider_mgr.colliding_indices@.drop_last());
        assert(collider_mgr.transform_i@.take(hull) =~= old(collider_mgr).transform_i@);
        assert(collider_mgr.model_i@.take(hull) =~= old(collider_mgr).model_i@);
        assert(collider_mgr.extends(old(collider_mgr)));
        assert(grounded(collider_mgr, model_mgr, hull, ground));
    }

    let ghost fleet = *aircraft_mgr;
    let ghost places = *transform_mgr;
    let ghost colliders = *collider_mgr;
    let ghost inputs = *aircraft_input_mgr;
    let ghost inventories = *inventory_mgr;
    spawn(
        AircraftPilot::Player,
        player,
        Vec3 { x: 0, y: 6 * UNIT, z: 10 * UNIT },
        level,
        aircraft_mgr,
        transform_mgr,
        collider_mgr,
        aircraft_input_mgr,
        inventory_mgr,
        model_mgr,
    );
    proof {
        aircraft_mgr.lemma_extends_chain(&fleet, old(aircraft_mgr));
        collider_mgr.lemma_extends_chain(&colliders, old(collider_mgr));
        aircraft_input_mgr.lemma_extends_chain(&inputs, old(aircraft_input_mgr));
        inventory_mgr.lemma_extends_chain(&inventories, old(inventory_mgr));
        lemma_grounded_kept(collider_mgr, &colliders, model_mgr, hull, ground);
        assert(transform_mgr.position@.take(ground) =~= old(transform_mgr).position@);
        assert(transform_mgr.rotation@.take(ground) =~= old(transform_mgr).rotation@);
        assert(fitted(
            aircraft_mgr,
            collider_mgr,
            aircraft_input_mgr,
            inventory_mgr,
            model_mgr,
            first,
            ground,
            hull,
            slots,
            stock,
            first,
        ));
    }

    let ghost fleet = *aircraft_mgr;
    let ghost places = *transform_mgr;
    let ghost colliders = *collider_mgr;
    let ghost inputs = *aircraft_input_mgr;
    let ghost inventories = *inventory_mgr;
    spawn(
        AircraftPilot::Ai,
        opponent,
        Vec3 { x: 30 * UNIT, y: 6 * UNIT, z: 30 * UNIT },
        level,
        aircraft_mgr,
        transform_mgr,
        collider_mgr,
        aircraft_input_mgr,
        inventory_mgr,
        model_mgr,
    );
    proof {
        aircraft_mgr.lemma_extends_chain(&fleet, old(aircraft_mgr));
        collider_mgr.lemma_extends_chain(&colliders, old(collider_mgr));
        aircraft_input_mgr.lemma_extends_chain(&inputs, old(aircraft_input_mgr));
        inventory_mgr.lemma_extends_chain(&inventories, old(inventory_mgr));
        lemma_grounded_kept(collider_mgr, &colliders, model_mgr, hull, ground);
        lemma_fitted_kept(
            aircraft_mgr,
            collider_mgr,
            aircraft_input_mgr,
            inventory_mgr,
            &fleet,
            &colliders,
            &inputs,
            &inventories,
            transform_mgr,
            model_mgr,
            first,
            ground,
            hull,
            slots,
            stock,
            first + 1,
        );
        assert(fitted(
            aircraft_mgr,
            collider_mgr,
            aircraft_input_mgr,
            inventory_mgr,
            model_mgr,
            first,
            ground,
            hull,
            slots,
            stock,
            first + 1,
        ));
        assert(transform_mgr.position@.take(ground) =~= old(transform_mgr).position@);
        assert(transform_mgr.rotation@.take(ground) =~= old(transform_mgr).rotation@);
        assert(transform_mgr.position@.take(places.position@.len() as int)
            =~= places.position@);
        aircraft_mgr.lemma_extends_keeps(
            &fleet,
            transform_mgr,
            &places,
            first,
            AircraftPilot::Player,
            player_envelope(),
            player_start(),
        );
    }

    let mut rng = oorandom::Rand32::new(SCATTER_SEED);
    let mut k: usize = 0;
    while k < SCATTERED
        invariant
            k <= SCATTERED,
            first == old(aircraft_mgr).count(),
            ground == old(transform_mgr).position@.len(),
            hull == old(collider_mgr).count(),
            slots == old(aircraft_input_mgr).count(),
            stock == old(inventory_mgr).count(),
            opponent == opponent_envelope(),
            aircraft_mgr.wf(),
            transform_mgr.wf(),
            collider_mgr.wf(),
            aircraft_input_mgr.wf(),
            inventory_mgr.wf(),
            model_mgr.wf(),
            old(aircraft_mgr).wf(),
            old(collider_mgr).wf(),
            old(aircraft_input_mgr).wf(),
            old(inventory_mgr).wf(),
            AircraftMgr::<R>::refusal(opponent, model_mgr, 0).is_none(),
            AircraftMgr::<R>::aircraft_model(model_mgr) == first_named(model_mgr, AIRCRAFT_MODEL@),
            aircraft_mgr.linked(transform_mgr.position@.len(), aircraft_input_mgr.count()),
            collider_mgr.linked(transform_mgr.position@.len(), model_mgr.model@.len()),
            aircraft_mgr.extends(old(aircraft_mgr)),
            collider_mgr.extends(old(collider_mgr)),
            aircraft_input_mgr.extends(old(aircraft_input_mgr)),
            inventory_mgr.extends(old(inventory_mgr)),
            aircraft_mgr.count() == first + 2 + k,
            transform_mgr.position@.len() == ground + 3 + k,
            collider_mgr.count() == hull + 3 + k,
            hull + 1 + AIRCRAFT <= isize::MAX,
            aircraft_input_mgr.count() == slots + 2 + k,
            inventory_mgr.count() == stock + 2 + k,
            transform_mgr.position@.take(ground) == old(transform_mgr).position@,
            transform_mgr.rotation@.take(ground) == old(transform_mgr).rotation@,
            transform_mgr.position[ground] == (Vec3 { x: 0, y: 0, z: 0 }),
            grounded(collider_mgr, model_mgr, hull, ground),
            forall|i: int|
                first <= i < first + 2 + k ==> #[trigger] fitted(
                    aircraft_mgr,
                    collider_mgr,
                    aircraft_input_mgr,
                    inventory_mgr,
                    model_mgr,
                    first,
                    ground,
                    hull,
                    slots,
                    stock,
                    i,
                ),
            forall|i: int|
                first <= i < first + 2 + k ==> (#[trigger] aircraft_mgr.start_rotation[i])
                    == level,
            forall|j: int|
                ground <= j < ground + 3 + k ==> (#[trigger] transform_mgr.rotation[j]) == level,
            aircraft_mgr.spawned_as(
                transform_mgr,
                first,
                AircraftPilot::Player,
                player_envelope(),
                player_start(),
            ),
            aircraft_mgr.spawned_as(
                transform_mgr,
                first + 1,
                AircraftPilot::Ai,
                opponent_envelope(),
                opponent_start(),
            ),
            forall|i: int|
                first + 1 < i < first + 2 + k ==> {
                    &&& scatter_site(#[trigger] aircraft_mgr.start_position[i])
                    &&& aircraft_mgr.spawned_as(
                        transform_mgr,
                        i,
                        AircraftPilot::Ai,
                        opponent_envelope(),
                        aircraft_mgr.start_position[i],
                    )
                },
            forall|i: int|
                first <= i < first + 2 + k ==> (#[trigger] aircraft_mgr.transform_i[i]) == Some(
                    (ground + 1 + (i - first)) as usize,
                ),
        decreases SCATTERED - k,
    {
        let site = scatter(&mut rng);
        let ghost fleet = *aircraft_mgr;
        let ghost places = *transform_mgr;
        let ghost colliders = *collider_mgr;
        let ghost inputs = *aircraft_input_mgr;
        let ghost inventories = *inventory_mgr;
        spawn(
            AircraftPilot::Ai,
            opponent,
            site,
            level,
            aircraft_mgr,
            transform_mgr,
            collider_mgr,
            aircraft_input_mgr,
            inventory_mgr,
            model_mgr,
        );
        proof {
            aircraft_mgr.lemma_extends_chain(&fleet, old(aircraft_mgr));
            collider_mgr.lemma_extends_chain(&colliders, old(collider_mgr));
            aircraft_input_mgr.lemma_extends_chain(&inputs, old(aircraft_input_mgr));
            inventory_mgr.lemma_extends_chain(&inventories, old(inventory_mgr));
            lemma_grounded_kept(collider_mgr, &colliders, model_mgr, hull, ground);
            lemma_fitted_kept(
                aircraft_mgr,
                collider_mgr,
                aircraft_input_mgr,
                inventory_mgr,
                &fleet,
                &colliders,
                &inputs,
                &inventories,
                transform_mgr,
                model_mgr,
                first,
                ground,
                hull,
                slots,
                stock,
                first + 2 + k,
            );
            assert(fitted(
                aircraft_mgr,
                collider_mgr,
                aircraft_input_mgr,
                inventory_mgr,
                model_mgr,
                first,
                ground,
                hull,
                slots,
                stock,
                first + 2 + k,
            ));
            assert(transform_mgr.position@.take(ground) =~= old(transform_mgr).position@);
            assert(transform_mgr.rotation@.take(ground) =~= old(transform_mgr).rotation@);
            assert(transform_mgr.position@.take(places.position@.len() as int)
                =~= places.position@);
            aircraft_mgr.lemma_extends_keeps(
                &fleet,
                transform_mgr,
                &places,
                first,
                AircraftPilot::Player,
                player_envelope(),
                player_start(),
            );
            aircraft_mgr.lemma_extends_keeps(
                &fleet,
                transform_mgr,
                &places,
                first + 1,
                AircraftPilot::Ai,
                opponent_envelope(),
                opponent_start(),
            );
            assert forall|i: int| first + 1 < i < first + 3 + k implies {
                &&& scatter_site(#[trigger] aircraft_mgr.start_position[i])
                &&& aircraft_mgr.spawned_as(
                    transform_mgr,
                    i,
                    AircraftPilot::Ai,
                    opponent_envelope(),
                    aircraft_mgr.start_position[i],
                )
            } by {
                if i < first + 2 + k {
                    aircraft_mgr.lemma_extends_keeps(
                        &fleet,
                        transform_mgr,
                        &places,
                        i,
                        AircraftPilot::Ai,
                        opponent_envelope(),
                        fleet.start_position[i],
                    );
                }
            }
            assert forall|i: int| first <= i < first + 3 + k implies (
            #[trigger] aircraft_mgr.start_rotation[i]) == level by {
                if i < first + 2 + k {
                    aircraft_mgr.lemma_extends_keeps(
                        &fleet,
                        transform_mgr,
                        &places,
                        i,
                        AircraftPilot::Ai,
                        opponent_envelope(),
                        fleet.start_position[i],
                    );
                }
            }
            assert forall|i: int| first <= i < first + 3 + k implies (
            #[trigger] aircraft_mgr.transform_i[i]) == Some(
                (ground + 1 + (i - first)) as usize,
            ) by {
                if i < first + 2 + k {
                    aircraft_mgr.lemma_extends_keeps(
                        &fleet,
                        transform_mgr,
                        &places,
                        i,
                        AircraftPilot::Ai,
                        opponent_envelope(),
                        fleet.start_position[i],
                    );
                }
            }
        }
        k = k + 1;
    }

    let ghost fleet = *aircraft_mgr;
    let ghost places = *transform_mgr;
    let ghost colliders = *collider_mgr;
    let ghost inputs = *aircraft_input_mgr;
    let ghost inventories = *inventory_mgr;
    building_mgr.add(
        BuildingType::Factory,
        Some(10 * UNIT),
        Some(1000),
        Vec3 { x: 0, y: UNIT, z: 0 },
        level,
        inventory_mgr,
        transform_mgr,
        None,
    );
    proof {
        let b = old(building_mgr).count() as int;
        assert(building_mgr.building_type@.take(b) =~= old(building_mgr).building_type@);
        assert(building_mgr.supply_range@.take(b) =~= old(building_mgr).supply_range@);
        assert(building_mgr.supply_period_ms@.take(b) =~= old(building_mgr).supply_period_ms@);
        assert(building_mgr.inventory_i@.take(b) =~= old(building_mgr).inventory_i@);
        assert(building_mgr.transform_i@.take(b) =~= old(building_mgr).transform_i@);
        assert(building_mgr.mesh_renderer_i@.take(b) =~= old(building_mgr).mesh_renderer_i@);
        let v = inventories.count() as int;
        assert(inventory_mgr.item_ammo_bullets@.take(v) =~= inventories.item_ammo_bullets@);
        assert(inventory_mgr.item_ammo_rockets@.take(v) =~= inventories.item_ammo_rockets@);
        assert(inventory_mgr.item_ammo_energy_cells@.take(v)
            =~= inventories.item_ammo_energy_cells@);
        inventory_mgr.lemma_extends_chain(&inventories, old(inventory_mgr));
        aircraft_mgr.lemma_extends_self();
        collider_mgr.lemma_extends_self();
        aircraft_input_mgr.lemma_extends_self();
        lemma_fitted_kept(
            aircraft_mgr,
            collider_mgr,
            aircraft_input_mgr,
            inventory_mgr,
            &fleet,
            &colliders,
            &inputs,
            &inventories,
            transform_mgr,
            model_mgr,
            first,
            ground,
            hull,
            slots,
            stock,
            first + AIRCRAFT,
        );
        assert(transform_mgr.position@.take(ground) =~= old(transform_mgr).position@);
        assert(transform_mgr.rotation@.take(ground) =~= old(transform_mgr).rotation@);
        assert(transform_mgr.position@.take(places.position@.len() as int)
            =~= places.position@);
        assert forall|i: int| first <= i < first + AIRCRAFT implies aircraft_mgr.spawned_as(
            transform_mgr,
            i,
            aircraft_mgr.pilot_type[i],
            aircraft_mgr.envelope(i),
            aircraft_mgr.start_position[i],
        ) by {
            let t = aircraft_mgr.transform_i[i].unwrap() as int;
            assert(transform_mgr.position@.take(places.position@.len() as int)[t]
                == transform_mgr.position[t]);
        }
    }
    Ok(terrain)
}

} // verus!
