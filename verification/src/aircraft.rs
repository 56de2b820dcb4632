//! The aircraft: their envelopes and flight state, their references into the
//! other stores, and the per-tick update that flies them.
use vstd::prelude::*;
use crate::aircraft_input::{neutral, standoff_of, AircraftInputMgr, AircraftPilot};
use crate::collider::{record, ColliderError, ColliderMgr, ColliderType};
use crate::fixed::UNIT;
use crate::flight::{
    ai_tick, plan_ai_tick, plan_player_tick, player_tick, AiTick, Attitude, ControlInput,
    Envelope, EnvelopeError, FlightAction, FlightState,
};
use crate::inventory::InventoryMgr;
use crate::model::ModelMgr;
use crate::transform::TransformMgr;
use crate::vector::Vec3;

verus! {

pub const MAX_INSTANCE_COUNT: usize = 128;

/// Name of the model that every aircraft is drawn and bounded with.
pub const AIRCRAFT_MODEL: &'static str = "models/Aircraft_1.obj";

/// Reason for which an aircraft is not spawned.
#[derive(Clone, Copy, Debug, PartialEq, Eq, Structural)]
pub enum SpawnError {
    /// The envelope cannot be flown.
    Envelope(EnvelopeError),
    /// No model of the name `AIRCRAFT_MODEL` is loaded.
    ModelMissing,
    /// The collider of the aircraft is refused.
    Collider(ColliderError),
}

/// What a tick of the aircraft reads and writes, as plain sequences: the
/// flight states by aircraft, positions and orientations by transform, and
/// commands by input slot.
#[verifier::ext_equal]
pub struct World<R> {
    pub states: Seq<FlightState>,
    pub positions: Seq<Vec3>,
    pub rotations: Seq<R>,
    pub inputs: Seq<ControlInput>,
}

/// Represents aircraft, both player and enemy.
/// Aircraft index 0 is always the player.
pub struct AircraftMgr<R> {
    pub pilot_type: Vec<AircraftPilot>,
    pub throttle: Vec<i64>,
    pub max_speed: Vec<i64>,
    pub min_speed: Vec<i64>,
    pub acceleration: Vec<i64>,
    pub yaw_speed: Vec<i64>,
    pub yaw_max_speed: Vec<i64>,
    pub yaw_acceleration: Vec<i64>,
    pub pitch_speed: Vec<i64>,
    pub pitch_max_speed: Vec<i64>,
    pub pitch_acceleration: Vec<i64>,
    pub start_position: Vec<Vec3>,
    pub start_rotation: Vec<R>,
    pub inventory_i: Vec<Option<usize>>,
    pub transform_i: Vec<Option<usize>>,
    pub collider_i: Vec<Option<usize>>,
    pub input_i: Vec<Option<usize>>,
    pub mesh_renderer_i: Vec<Option<usize>>,
}

impl<R: Copy> AircraftMgr<R> {
    /// Number of aircraft, as a specification.
    pub open spec fn count(&self) -> nat {
        self.pilot_type@.len()
    }

    /// The envelope of aircraft `i`.
    pub open spec fn envelope(&self, i: int) -> Envelope {
        Envelope {
            max_speed: self.max_speed[i],
            min_speed: self.min_speed[i],
            acceleration: self.acceleration[i],
            yaw_max_speed: self.yaw_max_speed[i],
            yaw_acceleration: self.yaw_acceleration[i],
            pitch_max_speed: self.pitch_max_speed[i],
            pitch_acceleration: self.pitch_acceleration[i],
        }
    }

    /// The flight state of aircraft `i`.
    pub open spec fn state(&self, i: int) -> FlightState {
        FlightState {
            throttle: self.throttle[i],
            pitch_speed: self.pitch_speed[i],
            yaw_speed: self.yaw_speed[i],
        }
    }

    /// The flight states of all aircraft.
    pub open spec fn states(&self) -> Seq<FlightState> {
        Seq::new(self.pilot_type@.len(), |i: int| self.state(i))
    }

    /// Every array has one entry per aircraft, every envelope is valid, and
    /// every aircraft has a transform and an input slot.
    pub open spec fn wf(&self) -> bool {
        &&& self.throttle.len() == self.count()
        &&& self.max_speed.len() == self.count()
        &&& self.min_speed.len() == self.count()
        &&& self.acceleration.len() == self.count()
        &&& self.yaw_speed.len() == self.count()
        &&& self.yaw_max_speed.len() == self.count()
        &&& self.yaw_acceleration.len() == self.count()
        &&& self.pitch_speed.len() == self.count()
        &&& self.pitch_max_speed.len() == self.count()
        &&& self.pitch_acceleration.len() == self.count()
        &&& self.start_position.len() == self.count()
        &&& self.start_rotation.len() == self.count()
        &&& self.inventory_i.len() == self.count()
        &&& self.transform_i.len() == self.count()
        &&& self.collider_i.len() == self.count()
        &&& self.input_i.len() == self.count()
        &&& self.mesh_renderer_i.len() == self.count()
        &&& forall|i: int| 0 <= i < self.count() ==> (#[trigger] self.envelope(i)).valid()
        &&& forall|i: int| 0 <= i < self.count() ==> (#[trigger] self.transform_i[i]).is_some()
        &&& forall|i: int| 0 <= i < self.count() ==> (#[trigger] self.input_i[i]).is_some()
    }

    /// Every aircraft refers to a transform among `transforms`.
    pub open spec fn placed(&self, transforms: nat) -> bool {
        forall|i: int|
            0 <= i < self.count() ==> (#[trigger] self.transform_i[i]).unwrap() < transforms
    }

    /// Every aircraft refers to a transform among `transforms` and to an
    /// input slot among `inputs`.
    pub open spec fn linked(&self, transforms: nat, inputs: nat) -> bool {
        &&& self.placed(transforms)
        &&& forall|i: int| 0 <= i < self.count() ==> (#[trigger] self.input_i[i]).unwrap() < inputs
    }

    /// Whether `other` holds the same aircraft; their flight states may
    /// differ.
    pub open spec fn same_fleet(&self, other: &AircraftMgr<R>) -> bool {
        &&& self.pilot_type@ == other.pilot_type@
        &&& self.max_speed@ == other.max_speed@
        &&& self.min_speed@ == other.min_speed@
        &&& self.acceleration@ == other.acceleration@
        &&& self.yaw_max_speed@ == other.yaw_max_speed@
        &&& self.yaw_acceleration@ == other.yaw_acceleration@
        &&& self.pitch_max_speed@ == other.pitch_max_speed@
        &&& self.pitch_acceleration@ == other.pitch_acceleration@
        &&& self.start_position@ == other.start_position@
        &&& self.start_rotation@ == other.start_rotation@
        &&& self.inventory_i@ == other.inventory_i@
        &&& self.transform_i@ == other.transform_i@
        &&& self.collider_i@ == other.collider_i@
        &&& self.input_i@ == other.input_i@
        &&& self.mesh_renderer_i@ == other.mesh_renderer_i@
    }

    /// Whether aircraft `i` is as an aircraft is when it has just been
    /// spawned at `site` with the pilot `pilot` and the envelope `envelope`:
    /// at rest but for its minimal speed, with `site` as its start position
    /// and as the position of its transform.
    pub open spec fn spawned_as(
        &self,
        transform_mgr: &TransformMgr<R>,
        i: int,
        pilot: AircraftPilot,
        envelope: Envelope,
        site: Vec3,
    ) -> bool {
        &&& self.pilot_type[i] == pilot
        &&& self.envelope(i) == envelope
        &&& self.state(i) == (FlightState {
            throttle: envelope.min_speed,
            pitch_speed: 0,
            yaw_speed: 0,
        })
        &&& self.start_position[i] == site
        &&& self.transform_i[i].is_some()
        &&& self.transform_i[i].unwrap() < transform_mgr.position.len()
        &&& transform_mgr.position[self.transform_i[i].unwrap() as int] == site
    }

    /// Whether the aircraft of `earlier` are the first aircraft of `self`,
    /// unchanged.
    pub open spec fn extends(&self, earlier: &AircraftMgr<R>) -> bool {
        &&& earlier.count() <= self.count()
        &&& self.pilot_type@.take(earlier.count() as int) == earlier.pilot_type@
        &&& self.throttle@.take(earlier.count() as int) == earlier.throttle@
        &&& self.max_speed@.take(earlier.count() as int) == earlier.max_speed@
        &&& self.min_speed@.take(earlier.count() as int) == earlier.min_speed@
        &&& self.acceleration@.take(earlier.count() as int) == earlier.acceleration@
        &&& self.yaw_speed@.take(earlier.count() as int) == earlier.yaw_speed@
        &&& self.yaw_max_speed@.take(earlier.count() as int) == earlier.yaw_max_speed@
        &&& self.yaw_acceleration@.take(earlier.count() as int) == earlier.yaw_acceleration@
        &&& self.pitch_speed@.take(earlier.count() as int) == earlier.pitch_speed@
        &&& self.pitch_max_speed@.take(earlier.count() as int) == earlier.pitch_max_speed@
        &&& self.pitch_acceleration@.take(earlier.count() as int) == earlier.pitch_acceleration@
        &&& self.start_position@.take(earlier.count() as int) == earlier.start_position@
        &&& self.start_rotation@.take(earlier.count() as int) == earlier.start_rotation@
        &&& self.inventory_i@.take(earlier.count() as int) == earlier.inventory_i@
        &&& self.transform_i@.take(earlier.count() as int) == earlier.transform_i@
        &&& self.collider_i@.take(earlier.count() as int) == earlier.collider_i@
        &&& self.input_i@.take(earlier.count() as int) == earlier.input_i@
        &&& self.mesh_renderer_i@.take(earlier.count() as int) == earlier.mesh_renderer_i@
    }

    /// An aircraft of `earlier` is in `self` what it was in `earlier`, given
    /// that the transforms of before are still where they were.
    pub proof fn lemma_extends_keeps(
        &self,
        earlier: &AircraftMgr<R>,
        transform_mgr: &TransformMgr<R>,
        transforms_earlier: &TransformMgr<R>,
        i: int,
        pilot: AircraftPilot,
        envelope: Envelope,
        site: Vec3,
    )
        requires
            self.wf(),
            earlier.wf(),
            self.extends(earlier),
            0 <= i < earlier.count(),
            transforms_earlier.position@.len() <= transform_mgr.position@.len(),
            transform_mgr.position@.take(transforms_earlier.position@.len() as int)
                == transforms_earlier.position@,
        ensures
            self.pilot_type[i] == earlier.pilot_type[i],
            self.envelope(i) == earlier.envelope(i),
            self.state(i) == earlier.state(i),
            self.start_position[i] == earlier.start_position[i],
            self.start_rotation[i] == earlier.start_rotation[i],
            self.transform_i[i] == earlier.transform_i[i],
            self.input_i[i] == earlier.input_i[i],
            self.collider_i[i] == earlier.collider_i[i],
            self.inventory_i[i] == earlier.inventory_i[i],
            self.mesh_renderer_i[i] == earlier.mesh_renderer_i[i],
            earlier.spawned_as(transforms_earlier, i, pilot, envelope, site) ==> self.spawned_as(
                transform_mgr,
                i,
                pilot,
                envelope,
                site,
            ),
    {
        let n = earlier.count() as int;
        assert(self.pilot_type@.take(n)[i] == self.pilot_type[i]);
        assert(self.throttle@.take(n)[i] == self.throttle[i]);
        assert(self.max_speed@.take(n)[i] == self.max_speed[i]);
        assert(self.min_speed@.take(n)[i] == self.min_speed[i]);
        assert(self.acceleration@.take(n)[i] == self.acceleration[i]);
        assert(self.yaw_speed@.take(n)[i] == self.yaw_speed[i]);
        assert(self.yaw_max_speed@.take(n)[i] == self.yaw_max_speed[i]);
        assert(self.yaw_acceleration@.take(n)[i] == self.yaw_acceleration[i]);
        assert(self.pitch_speed@.take(n)[i] == self.pitch_speed[i]);
        assert(self.pitch_max_speed@.take(n)[i] == self.pitch_max_speed[i]);
        assert(self.pitch_acceleration@.take(n)[i] == self.pitch_acceleration[i]);
        assert(self.start_position@.take(n)[i] == self.start_position[i]);
        assert(self.start_rotation@.take(n)[i] == self.start_rotation[i]);
        assert(self.transform_i@.take(n)[i] == self.transform_i[i]);
        assert(self.input_i@.take(n)[i] == self.input_i[i]);
        assert(self.collider_i@.take(n)[i] == self.collider_i[i]);
        assert(self.inventory_i@.take(n)[i] == self.inventory_i[i]);
        assert(self.mesh_renderer_i@.take(n)[i] == self.mesh_renderer_i[i]);
        if earlier.spawned_as(transforms_earlier, i, pilot, envelope, site) {
            let t = earlier.transform_i[i].unwrap() as int;
            assert(transform_mgr.position@.take(transforms_earlier.position@.len() as int)[t]
                == transform_mgr.position[t]);
        }
    }

    /// Extending is transitive.
    pub proof fn lemma_extends_chain(&self, middle: &AircraftMgr<R>, earlier: &AircraftMgr<R>)
        requires
            self.wf(),
            middle.wf(),
            earlier.wf(),
            self.extends(middle),
            middle.extends(earlier),
        ensures
            self.extends(earlier),
    {
        let n = earlier.count() as int;
        let m = middle.count() as int;
        assert(self.pilot_type@.take(n) =~= self.pilot_type@.take(m).take(n));
        assert(self.throttle@.take(n) =~= self.throttle@.take(m).take(n));
        assert(self.max_speed@.take(n) =~= self.max_speed@.take(m).take(n));
        assert(self.min_speed@.take(n) =~= self.min_speed@.take(m).take(n));
        assert(self.acceleration@.take(n) =~= self.acceleration@.take(m).take(n));
        assert(self.yaw_speed@.take(n) =~= self.yaw_speed@.take(m).take(n));
        assert(self.yaw_max_speed@.take(n) =~= self.yaw_max_speed@.take(m).take(n));
        assert(self.yaw_acceleration@.take(n) =~= self.yaw_acceleration@.take(m).take(n));
        assert(self.pitch_speed@.take(n) =~= self.pitch_speed@.take(m).take(n));
        assert(self.pitch_max_speed@.take(n) =~= self.pitch_max_speed@.take(m).take(n));
        assert(self.pitch_acceleration@.take(n) =~= self.pitch_acceleration@.take(m).take(n));
        assert(self.start_position@.take(n) =~= self.start_position@.take(m).take(n));
        assert(self.start_rotation@.take(n) =~= self.start_rotation@.take(m).take(n));
        assert(self.inventory_i@.take(n) =~= self.inventory_i@.take(m).take(n));
        assert(self.transform_i@.take(n) =~= self.transform_i@.take(m).take(n));
        assert(self.collider_i@.take(n) =~= self.collider_i@.take(m).take(n));
        assert(self.input_i@.take(n) =~= self.input_i@.take(m).take(n));
        assert(self.mesh_renderer_i@.take(n) =~= self.mesh_renderer_i@.take(m).take(n));
    }

    /// Every fleet extends itself.
    pub proof fn lemma_extends_self(&self)
        requires
            self.wf(),
        ensures
            self.extends(self),
    {
        let k = self.count() as int;
        assert(self.pilot_type@.take(k) =~= self.pilot_type@);
        assert(self.throttle@.take(k) =~= self.throttle@);
        assert(self.max_speed@.take(k) =~= self.max_speed@);
        assert(self.min_speed@.take(k) =~= self.min_speed@);
        assert(self.acceleration@.take(k) =~= self.acceleration@);
        assert(self.yaw_speed@.take(k) =~= self.yaw_speed@);
        assert(self.yaw_max_speed@.take(k) =~= self.yaw_max_speed@);
        assert(self.yaw_acceleration@.take(k) =~= self.yaw_acceleration@);
        assert(self.pitch_speed@.take(k) =~= self.pitch_speed@);
        assert(self.pitch_max_speed@.take(k) =~= self.pitch_max_speed@);
        assert(self.pitch_acceleration@.take(k) =~= self.pitch_acceleration@);
        assert(self.start_position@.take(k) =~= self.start_position@);
        assert(self.start_rotation@.take(k) =~= self.start_rotation@);
        assert(self.inventory_i@.take(k) =~= self.inventory_i@);
        assert(self.transform_i@.take(k) =~= self.transform_i@);
        assert(self.collider_i@.take(k) =~= self.collider_i@);
        assert(self.input_i@.take(k) =~= self.input_i@);
        assert(self.mesh_renderer_i@.take(k) =~= self.mesh_renderer_i@);
    }

    /// The world as the three stores hold it.
    pub open spec fn world(
        &self,
        transform_mgr: &TransformMgr<R>,
        input_mgr: &AircraftInputMgr,
    ) -> World<R> {
        World {
            states: self.states(),
            positions: transform_mgr.position@,
            rotations: transform_mgr.rotation@,
            inputs: input_mgr.controls(),
        }
    }

    /// The world after a tick of aircraft `i` flown by a human, and what is
    /// left to do to its orientation.
    ///
    /// The flight state is that of `player_tick`. A reset command restores
    /// the spawn pose; otherwise the aircraft moves by the translation of the
    /// tick. In both cases its commands return to neutral.
    pub open spec fn player_step(&self, world: World<R>, i: int, attitude: Attitude, dt: int) -> (
        World<R>,
        FlightAction,
    ) {
        let transform = self.transform_i[i].unwrap() as int;
        let slot = self.input_i[i].unwrap() as int;
        let input = world.inputs[slot];
        let tick = player_tick(world.states[i], self.envelope(i), input, attitude, dt);
        (
            World {
                states: world.states.update(i, tick.state),
                positions: if input.reset_transform {
                    world.positions.update(transform, self.start_position[i])
                } else {
                    world.positions.update(
                        transform,
                        world.positions[transform].translated(tick.translation),
                    )
                },
                rotations: if input.reset_transform {
                    world.rotations.update(transform, self.start_rotation[i])
                } else {
                    world.rotations
                },
                inputs: world.inputs.update(slot, neutral()),
            },
            tick.action,
        )
    }

    /// The tick of aircraft `i` flown by the computer, given the positions
    /// of all transforms: it pursues the aircraft with the player's index.
    pub open spec fn pursuit_tick(
        &self,
        positions: Seq<Vec3>,
        i: int,
        attitude: Attitude,
        dt: int,
    ) -> AiTick {
        ai_tick(
            positions[self.transform_i[i].unwrap() as int],
            positions[self.transform_i[0].unwrap() as int],
            attitude.forward,
            self.envelope(i),
            dt,
        )
    }

    /// The world after a tick of aircraft `i` flown by the computer, and
    /// what is left to do to its orientation. The aircraft moves by the
    /// translation of its tick; nothing else changes.
    pub open spec fn ai_step(&self, world: World<R>, i: int, attitude: Attitude, dt: int) -> (
        World<R>,
        FlightAction,
    ) {
        let transform = self.transform_i[i].unwrap() as int;
        let tick = self.pursuit_tick(world.positions, i, attitude, dt);
        (
            World {
                positions: world.positions.update(
                    transform,
                    world.positions[transform].translated(tick.translation),
                ),
                ..world
            },
            tick.action,
        )
    }

    /// The world after a tick of aircraft `i`, by the kind of its pilot.
    pub open spec fn step(&self, world: World<R>, i: int, attitude: Attitude, dt: int) -> (
        World<R>,
        FlightAction,
    ) {
        match self.pilot_type[i] {
            AircraftPilot::Player => self.player_step(world, i, attitude, dt),
            AircraftPilot::Ai => self.ai_step(world, i, attitude, dt),
        }
    }

    /// The world after the ticks of the aircraft below `upto`, taken in the
    /// order of their indices, and the actions that they leave.
    pub open spec fn run(
        &self,
        world: World<R>,
        attitudes: Seq<Attitude>,
        dt: int,
        upto: int,
    ) -> (World<R>, Seq<FlightAction>)
        decreases upto,
    {
        if upto <= 0 {
            (world, Seq::empty())
        } else {
            let (before, actions) = self.run(world, attitudes, dt, upto - 1);
            let (after, action) = self.step(before, upto - 1, attitudes[upto - 1], dt);
            (after, actions.push(action))
        }
    }

    /// Checks `wf`.
    pub fn is_wf(&self) -> (ok: bool)
        ensures
            ok == self.wf(),
    {
        let n = self.pilot_type.len();
        if !(self.throttle.len() == n && self.max_speed.len() == n && self.min_speed.len() == n
            && self.acceleration.len() == n && self.yaw_speed.len() == n
            && self.yaw_max_speed.len() == n && self.yaw_acceleration.len() == n
            && self.pitch_speed.len() == n && self.pitch_max_speed.len() == n
            && self.pitch_acceleration.len() == n && self.start_position.len() == n
            && self.start_rotation.len() == n && self.inventory_i.len() == n
            && self.transform_i.len() == n && self.collider_i.len() == n && self.input_i.len()
            == n && self.mesh_renderer_i.len() == n) {
            return false;
        }
        let mut i: usize = 0;
        while i < n
            invariant
                i <= n,
                n == self.count(),
                self.max_speed.len() == n,
                self.min_speed.len() == n,
                self.yaw_max_speed.len() == n,
                self.pitch_max_speed.len() == n,
                self.transform_i.len() == n,
                self.input_i.len() == n,
                forall|k: int| 0 <= k < i ==> (#[trigger] self.envelope(k)).valid(),
                forall|k: int| 0 <= k < i ==> (#[trigger] self.transform_i[k]).is_some(),
                forall|k: int| 0 <= k < i ==> (#[trigger] self.input_i[k]).is_some(),
            decreases n - i,
        {
            if !(self.yaw_max_speed[i] > 0 && self.pitch_max_speed[i] >= 0 && self.min_speed[i]
                <= self.max_speed[i]) || self.transform_i[i].is_none()
                || self.input_i[i].is_none() {
                assert(!self.envelope(i as int).valid() || self.transform_i[i as int].is_none()
                    || self.input_i[i as int].is_none());
                return false;
            }
            assert(self.envelope(i as int).valid());
            i = i + 1;
        }
        true
    }

    /// Checks `linked` for a well-formed fleet.
    pub fn is_linked(&self, transforms: usize, inputs: usize) -> (ok: bool)
        requires
            self.wf(),
        ensures
            ok == self.linked(transforms as nat, inputs as nat),
    {
        let n = self.pilot_type.len();
        let mut i: usize = 0;
        while i < n
            invariant
                i <= n,
                n == self.count(),
                self.wf(),
                forall|k: int|
                    0 <= k < i ==> (#[trigger] self.transform_i[k]).unwrap() < transforms,
                forall|k: int| 0 <= k < i ==> (#[trigger] self.input_i[k]).unwrap() < inputs,
            decreases n - i,
        {
            if self.transform_i[i].unwrap() >= transforms || self.input_i[i].unwrap() >= inputs {
                return false;
            }
            i = i + 1;
        }
        true
    }

    pub fn new() -> (mgr: AircraftMgr<R>)
        ensures
            mgr.wf(),
            mgr.count() == 0,
    {
        AircraftMgr {
            pilot_type: Vec::with_capacity(MAX_INSTANCE_COUNT),
            throttle: Vec::with_capacity(MAX_INSTANCE_COUNT),
            max_speed: Vec::with_capacity(MAX_INSTANCE_COUNT),
            min_speed: Vec::with_capacity(MAX_INSTANCE_COUNT),
            acceleration: Vec::with_capacity(MAX_INSTANCE_COUNT),
            yaw_speed: Vec::with_capacity(MAX_INSTANCE_COUNT),
            yaw_max_speed: Vec::with_capacity(MAX_INSTANCE_COUNT),
            yaw_acceleration: Vec::with_capacity(MAX_INSTANCE_COUNT),
            pitch_speed: Vec::with_capacity(MAX_INSTANCE_COUNT),
            pitch_max_speed: Vec::with_capacity(MAX_INSTANCE_COUNT),
            pitch_acceleration: Vec::with_capacity(MAX_INSTANCE_COUNT),
            start_position: Vec::with_capacity(MAX_INSTANCE_COUNT),
            start_rotation: Vec::with_capacity(MAX_INSTANCE_COUNT),
            inventory_i: Vec::with_capacity(MAX_INSTANCE_COUNT),
            transform_i: Vec::with_capacity(MAX_INSTANCE_COUNT),
            collider_i: Vec::with_capacity(MAX_INSTANCE_COUNT),
            input_i: Vec::with_capacity(MAX_INSTANCE_COUNT),
            mesh_renderer_i: Vec::with_capacity(MAX_INSTANCE_COUNT),
        }
    }

    /// The first reason for which an aircraft with the envelope `envelope`
    /// is not spawned, given the models and the number of colliders: a
    /// defect of the envelope, then a missing aircraft model, then an
    /// inverted box of that model, then a full collider store.
    pub open spec fn refusal(envelope: Envelope, model_mgr: &ModelMgr, colliders: nat) -> Option<
        SpawnError,
    > {
        if let Some(defect) = envelope.defect() {
            Some(SpawnError::Envelope(defect))
        } else if forall|j: int|
            0 <= j < model_mgr.name.len() ==> (#[trigger] model_mgr.name[j])@ != AIRCRAFT_MODEL@ {
            Some(SpawnError::ModelMissing)
        } else if !model_mgr.model[Self::aircraft_model(model_mgr)].bounded() {
            Some(SpawnError::Collider(ColliderError::InvertedBounds))
        } else if colliders >= isize::MAX {
            Some(SpawnError::Collider(ColliderError::Full))
        } else {
            None
        }
    }

    /// Index of the first model of the name `AIRCRAFT_MODEL`.
    pub open spec fn aircraft_model(model_mgr: &ModelMgr) -> int {
        choose|i: int|
            0 <= i < model_mgr.name.len() && (#[trigger] model_mgr.name[i])@ == AIRCRAFT_MODEL@
                && forall|j: int| 0 <= j < i ==> (#[trigger] model_mgr.name[j])@ != AIRCRAFT_MODEL@
    }

    /// Spawns an aircraft at its start pose, at rest but for its minimal
    /// speed, together with its inventory, transform, input slot and collider
    /// (a box that is both collision source and target), and returns its
    /// index. `mesh_renderer_i` is the renderable of the aircraft, if it has
    /// one.
    ///
    /// What is refused, and in which order, is said by `refusal`; a refusal
    /// changes nothing.
    pub fn add(
        &mut self,
        pilot_type: AircraftPilot,
        max_speed: i64,
        min_speed: i64,
        acceleration: i64,
        yaw_max_speed: i64,
        yaw_acceleration: i64,
        pitch_max_speed: i64,
        pitch_acceleration: i64,
        start_position: Vec3,
        start_rotation: R,
        inventory_mgr: &mut InventoryMgr,
        model_mgr: &ModelMgr,
        transform_mgr: &mut TransformMgr<R>,
        collider_mgr: &mut ColliderMgr,
        input_mgr: &mut AircraftInputMgr,
        mesh_renderer_i: Option<usize>,
    ) -> (r: Result<usize, SpawnError>)
        requires
            old(self).wf(),
            old(inventory_mgr).wf(),
            model_mgr.wf(),
            old(transform_mgr).wf(),
            old(collider_mgr).wf(),
            old(input_mgr).wf(),
        ensures
            final(self).wf(),
            final(inventory_mgr).wf(),
            final(transform_mgr).wf(),
            final(collider_mgr).wf(),
            final(input_mgr).wf(),
            old(self).linked(old(transform_mgr).position@.len(), old(input_mgr).count())
                ==> final(self).linked(
                final(transform_mgr).position@.len(),
                final(input_mgr).count(),
            ),
            old(collider_mgr).linked(old(transform_mgr).position@.len(), model_mgr.model@.len())
                ==> final(collider_mgr).linked(
                final(transform_mgr).position@.len(),
                model_mgr.model@.len(),
            ),
            match r {
                Err(e) => {
                    &&& Self::refusal(
                        Envelope {
                            max_speed,
                            min_speed,
                            acceleration,
                            yaw_max_speed,
                            yaw_acceleration,
                            pitch_max_speed,
                            pitch_acceleration,
                        },
                        model_mgr,
                        old(collider_mgr).count(),
                    ) == Some(e)
                    &&& *final(self) == *old(self)
                    &&& *final(inventory_mgr) == *old(inventory_mgr)
                    &&& *final(transform_mgr) == *old(transform_mgr)
                    &&& *final(collider_mgr) == *old(collider_mgr)
                    &&& *final(input_mgr) == *old(input_mgr)
                },
                Ok(index) => {
                    &&& Self::refusal(
                        Envelope {
                            max_speed,
                            min_speed,
                            acceleration,
                            yaw_max_speed,
                            yaw_acceleration,
                            pitch_max_speed,
                            pitch_acceleration,
                        },
                        model_mgr,
                        old(collider_mgr).count(),
                    ).is_none()
                    &&& index == old(self).count()
                    &&& final(self).count() == old(self).count() + 1
                    &&& final(self).pilot_type@ == old(self).pilot_type@.push(pilot_type)
                    &&& final(self).states() == old(self).states().push(
                        FlightState { throttle: min_speed, pitch_speed: 0, yaw_speed: 0 },
                    )
                    &&& final(self).envelope(index as int) == (Envelope {
                        max_speed,
                        min_speed,
                        acceleration,
                        yaw_max_speed,
                        yaw_acceleration,
                        pitch_max_speed,
                        pitch_acceleration,
                    })
                    &&& forall|i: int|
                        0 <= i < old(self).count() ==> #[trigger] final(self).envelope(i) == old(
                            self,
                        ).envelope(i)
                    &&& final(self).start_position@ == old(self).start_position@.push(
                        start_position,
                    )
                    &&& final(self).start_rotation@ == old(self).start_rotation@.push(
                        start_rotation,
                    )
                    &&& final(self).inventory_i@ == old(self).inventory_i@.push(
                        Some(old(inventory_mgr).item_ammo_bullets.len()),
                    )
                    &&& final(self).transform_i@ == old(self).transform_i@.push(
                        Some(old(transform_mgr).position.len()),
                    )
                    &&& final(self).input_i@ == old(self).input_i@.push(
                        Some(old(input_mgr).pilot_type.len()),
                    )
                    &&& final(self).collider_i@ == old(self).collider_i@.push(
                        Some(old(collider_mgr).bounding_box_min.len()),
                    )
                    &&& final(self).mesh_renderer_i@ == old(self).mesh_renderer_i@.push(
                        mesh_renderer_i,
                    )
                    &&& final(inventory_mgr).item_ammo_bullets@ == old(
                        inventory_mgr,
                    ).item_ammo_bullets@.push(0)
                    &&& final(inventory_mgr).item_ammo_rockets@ == old(
                        inventory_mgr,
                    ).item_ammo_rockets@.push(0)
                    &&& final(inventory_mgr).item_ammo_energy_cells@ == old(
                        inventory_mgr,
                    ).item_ammo_energy_cells@.push(0)
                    &&& final(transform_mgr).position@ == old(transform_mgr).position@.push(
                        start_position,
                    )
                    &&& final(transform_mgr).rotation@ == old(transform_mgr).rotation@.push(
                        start_rotation,
                    )
                    &&& final(input_mgr).pilot_type@ == old(input_mgr).pilot_type@.push(pilot_type)
                    &&& final(input_mgr).aircraft_i@ == old(input_mgr).aircraft_i@.push(
                        Some(index),
                    )
                    &&& final(input_mgr).controls() == old(input_mgr).controls().push(neutral())
                    &&& final(input_mgr).yaw_prev_dot@ == old(input_mgr).yaw_prev_dot@.push(
                        (-UNIT) as i64,
                    )
                    &&& final(input_mgr).yaw_prev_sign@ == old(input_mgr).yaw_prev_sign@.push(UNIT)
                    &&& final(input_mgr).ai_target_y_diff@.len() == old(
                        input_mgr,
                    ).ai_target_y_diff@.len() + 1
                    &&& final(input_mgr).ai_target_y_diff@.drop_last() == old(
                        input_mgr,
                    ).ai_target_y_diff@
                    &&& exists|whole: int, word: int|
                        1 <= whole < 20 && 0 <= word <= u32::MAX && #[trigger] standoff_of(
                            whole,
                            word,
                        ) == final(input_mgr).ai_target_y_diff@.last()
                    &&& final(collider_mgr).count() == old(collider_mgr).count() + 1
                    &&& final(collider_mgr).should_render_bounding_box@ == old(
                        collider_mgr,
                    ).should_render_bounding_box@.push(false)
                    &&& final(collider_mgr).colliding_indices@.len() == old(
                        collider_mgr,
                    ).count() + 1
                    &&& final(collider_mgr).colliding_indices@.drop_last() == old(
                        collider_mgr,
                    ).colliding_indices@
                    &&& final(collider_mgr).colliding_indices@.last()@ == record(Seq::empty())
                    &&& final(collider_mgr).transform_i@ == old(collider_mgr).transform_i@.push(
                        old(transform_mgr).position.len(),
                    )
                    &&& final(collider_mgr).model_i@ == old(collider_mgr).model_i@.push(
                        Some(Self::aircraft_model(model_mgr) as usize),
                    )
                    &&& final(collider_mgr).bounding_box_min@ == old(
                        collider_mgr,
                    ).bounding_box_min@.push(model_mgr.model[Self::aircraft_model(model_mgr)].min)
                    &&& final(collider_mgr).bounding_box_max@ == old(
                        collider_mgr,
                    ).bounding_box_max@.push(model_mgr.model[Self::aircraft_model(model_mgr)].max)
                    &&& final(collider_mgr).collider_type@ == old(collider_mgr).collider_type@.push(
                        ColliderType::Box,
                    )
                    &&& final(collider_mgr).is_collision_source@ == old(
                        collider_mgr,
                    ).is_collision_source@.push(true)
                    &&& final(collider_mgr).is_collision_target@ == old(
                        collider_mgr,
                    ).is_collision_target@.push(true)
                },
            },
    {
        let envelope = Envelope {
            max_speed,
            min_speed,
            acceleration,
            yaw_max_speed,
            yaw_acceleration,
            pitch_max_speed,
            pitch_acceleration,
        };
        match envelope.validate() {
            Err(defect) => {
                return Err(SpawnError::Envelope(defect));
            },
            Ok(_) => {},
        }
        let model_i = match model_mgr.get_with_name(AIRCRAFT_MODEL) {
            Some(model_i) => model_i,
            None => {
                return Err(SpawnError::ModelMissing);
            },
        };
        assert(model_i == Self::aircraft_model(model_mgr));
        let model = &model_mgr.model[model_i];
        if !(model.min.x <= model.max.x && model.min.y <= model.max.y && model.min.z
            <= model.max.z) {
            return Err(SpawnError::Collider(ColliderError::InvertedBounds));
        }
        if collider_mgr.len() >= isize::MAX as usize {
            return Err(SpawnError::Collider(ColliderError::Full));
        }
        self.pilot_type.push(pilot_type);
        self.throttle.push(min_speed);
        self.max_speed.push(max_speed);
        self.min_speed.push(min_speed);
        self.acceleration.push(acceleration);
        self.yaw_speed.push(0);
        self.yaw_max_speed.push(yaw_max_speed);
        self.yaw_acceleration.push(yaw_acceleration);
        self.pitch_speed.push(0);
        self.pitch_max_speed.push(pitch_max_speed);
        self.pitch_acceleration.push(pitch_acceleration);
        self.start_position.push(start_position);
        self.start_rotation.push(start_rotation);
        let index = self.len() - 1;

        self.inventory_i.push(Some(inventory_mgr.add()));
        let transform_i = transform_mgr.add(start_position, start_rotation);
        self.transform_i.push(Some(transform_i));
        self.input_i.push(Some(input_mgr.add(pilot_type, index)));
        let collider = collider_mgr.add_from_model(
            model_i,
            transform_i,
            ColliderType::Box,
            true,
            true,
            false,
            transform_mgr,
            model_mgr,
        );
        self.collider_i.push(Some(collider.unwrap()));
        self.mesh_renderer_i.push(mesh_renderer_i);
        proof {
            assert(self.states() =~= old(self).states().push(
                FlightState { throttle: min_speed, pitch_speed: 0, yaw_speed: 0 },
            ));
            assert forall|k: int| 0 <= k < self.count() implies (#[trigger] self.envelope(
                k,
            )).valid() by {
                if k < old(self).count() {
                    assert(self.envelope(k) == old(self).envelope(k));
                    assert(old(self).envelope(k).valid());
                } else {
                    assert(self.envelope(k) == envelope);
                }
            }
        }
        Ok(index)
    }

    /// Index of the aircraft that the player flies.
    pub fn get_player_aircraft_index(&self) -> (index: usize)
        ensures
            index == 0,
    {
        0
    }

    /// Number of aircraft.
    pub fn len(&self) -> (n: usize)
        ensures
            n == self.count(),
    {
        self.pilot_type.len()
    }

    /// Puts the transform `transform_i` back to a start pose.
    pub fn reset_transform(
        transform_i: usize,
        start_position: Vec3,
        start_rotation: R,
        transform_mgr: &mut TransformMgr<R>,
    )
        requires
            old(transform_mgr).wf(),
            transform_i < old(transform_mgr).position.len(),
        ensures
            final(transform_mgr).wf(),
            final(transform_mgr).position@ == old(transform_mgr).position@.update(
                transform_i as int,
                start_position,
            ),
            final(transform_mgr).rotation@ == old(transform_mgr).rotation@.update(
                transform_i as int,
                start_rotation,
            ),
    {
        transform_mgr.set_pose(transform_i, start_position, start_rotation);
    }

    fn envelope_of(&self, index: usize) -> (e: Envelope)
        requires
            self.wf(),
            index < self.count(),
        ensures
            e == self.envelope(index as int),
    {
        Envelope {
            max_speed: self.max_speed[index],
            min_speed: self.min_speed[index],
            acceleration: self.acceleration[index],
            yaw_max_speed: self.yaw_max_speed[index],
            yaw_acceleration: self.yaw_acceleration[index],
            pitch_max_speed: self.pitch_max_speed[index],
            pitch_acceleration: self.pitch_acceleration[index],
        }
    }

    /// Advances the human-piloted aircraft `index` by one tick of length
    /// `dt`, given the attitude derived from its orientation, and returns
    /// what the caller has to do to that orientation.
    pub fn update_player(
        &mut self,
        index: usize,
        transform_mgr: &mut TransformMgr<R>,
        input_mgr: &mut AircraftInputMgr,
        attitude: Attitude,
        dt: i64,
    ) -> (action: FlightAction)
        requires
            old(self).wf(),
            old(transform_mgr).wf(),
            old(input_mgr).wf(),
            old(self).linked(old(transform_mgr).position@.len(), old(input_mgr).count()),
            index < old(self).count(),
        ensures
            final(self).wf(),
            final(self).same_fleet(old(self)),
            final(transform_mgr).wf(),
            final(input_mgr).wf(),
            final(input_mgr).same_roster(old(input_mgr)),
            final(transform_mgr).position@.len() == old(transform_mgr).position@.len(),
            final(self).world(final(transform_mgr), final(input_mgr)) =~= old(self).player_step(
                old(self).world(old(transform_mgr), old(input_mgr)),
                index as int,
                attitude,
                dt as int,
            ).0,
            action == old(self).player_step(
                old(self).world(old(transform_mgr), old(input_mgr)),
                index as int,
                attitude,
                dt as int,
            ).1,
    {
        let i = index;
        let input_i = self.input_i[i].unwrap();
        let transform_i = self.transform_i[i].unwrap();
        let input = ControlInput {
            pitch: input_mgr.input_pitch[input_i],
            yaw: input_mgr.input_yaw[input_i],
            throttle: input_mgr.input_throttle[input_i],
            reset_transform: input_mgr.input_reset_transform[input_i],
        };
        let state = FlightState {
            throttle: self.throttle[i],
            pitch_speed: self.pitch_speed[i],
            yaw_speed: self.yaw_speed[i],
        };
        let envelope = self.envelope_of(i);
        assert(self.envelope(i as int).valid());
        let tick = plan_player_tick(state, envelope, input, attitude, dt);
        self.throttle.set(i, tick.state.throttle);
        self.pitch_speed.set(i, tick.state.pitch_speed);
        self.yaw_speed.set(i, tick.state.yaw_speed);
        if input.reset_transform {
            Self::reset_transform(
                transform_i,
                self.start_position[i],
                self.start_rotation[i],
                transform_mgr,
            );
        } else {
            transform_mgr.translate(transform_i, tick.translation);
        }
        input_mgr.cleanup(input_i);
        proof {
            assert(self.states() =~= old(self).states().update(i as int, tick.state));
            assert forall|k: int| 0 <= k < self.count() implies (#[trigger] self.envelope(
                k,
            )).valid() by {
                assert(self.envelope(k) == old(self).envelope(k));
            }
        }
        tick.action
    }

    /// Advances the computer-piloted aircraft `index` by one tick of length
    /// `dt`, given the attitude derived from its orientation, and returns
    /// what the caller has to do to that orientation. The aircraft moves by
    /// the translation of `ai_tick` toward the player's aircraft; nothing else
    /// changes.
    pub fn update_ai(
        &mut self,
        index: usize,
        transform_mgr: &mut TransformMgr<R>,
        attitude: Attitude,
        dt: i64,
    ) -> (action: FlightAction)
        requires
            old(self).wf(),
            old(transform_mgr).wf(),
            old(self).placed(old(transform_mgr).position@.len()),
            index < old(self).count(),
        ensures
            *final(self) == *old(self),
            final(transform_mgr).wf(),
            final(transform_mgr).rotation@ == old(transform_mgr).rotation@,
            final(transform_mgr).position@ == old(transform_mgr).position@.update(
                old(self).transform_i[index as int].unwrap() as int,
                old(transform_mgr).position[old(self).transform_i[index as int].unwrap()
                    as int].translated(
                    old(self).pursuit_tick(
                        old(transform_mgr).position@,
                        index as int,
                        attitude,
                        dt as int,
                    ).translation,
                ),
            ),
            action == old(self).pursuit_tick(
                old(transform_mgr).position@,
                index as int,
                attitude,
                dt as int,
            ).action,
    {
        let transform_i = self.transform_i[index].unwrap();
        let position = transform_mgr.position[transform_i];
        let player_index = self.get_player_aircraft_index();
        let player_transform_i = self.transform_i[player_index].unwrap();
        let player_position = transform_mgr.position[player_transform_i];
        let envelope = self.envelope_of(index);
        assert(self.envelope(index as int).valid());
        let tick = plan_ai_tick(position, player_position, attitude.forward, envelope, dt);
        transform_mgr.translate(transform_i, tick.translation);
        tick.action
    }

    /// Advances every aircraft by one tick of length `dt`, in the order of
    /// their indices, given one attitude per aircraft, and returns the action
    /// that each of them leaves.
    pub fn update(
        &mut self,
        transform_mgr: &mut TransformMgr<R>,
        input_mgr: &mut AircraftInputMgr,
        attitudes: &Vec<Attitude>,
        dt: i64,
    ) -> (actions: Vec<FlightAction>)
        requires
            old(self).wf(),
            old(transform_mgr).wf(),
            old(input_mgr).wf(),
            old(self).linked(old(transform_mgr).position@.len(), old(input_mgr).count()),
            attitudes.len() == old(self).count(),
        ensures
            final(self).wf(),
            final(self).same_fleet(old(self)),
            final(transform_mgr).wf(),
            final(input_mgr).wf(),
            final(input_mgr).same_roster(old(input_mgr)),
            final(transform_mgr).position@.len() == old(transform_mgr).position@.len(),
            final(self).world(final(transform_mgr), final(input_mgr)) =~= old(self).run(
                old(self).world(old(transform_mgr), old(input_mgr)),
                attitudes@,
                dt as int,
                old(self).count() as int,
            ).0,
            actions@ == old(self).run(
                old(self).world(old(transform_mgr), old(input_mgr)),
                attitudes@,
                dt as int,
                old(self).count() as int,
            ).1,
    {
        let n = self.len();
        let mut actions: Vec<FlightAction> = Vec::new();
        let ghost start = self.world(transform_mgr, input_mgr);
        let mut i: usize = 0;
        while i < n
            invariant
                i <= n,
                n == old(self).count(),
                attitudes.len() == n,
                self.wf(),
                self.same_fleet(old(self)),
                transform_mgr.wf(),
                transform_mgr.position@.len() == old(transform_mgr).position@.len(),
                input_mgr.wf(),
                input_mgr.same_roster(old(input_mgr)),
                self.linked(transform_mgr.position@.len(), input_mgr.count()),
                start == old(self).world(old(transform_mgr), old(input_mgr)),
                self.world(transform_mgr, input_mgr) =~= old(self).run(
                    start,
                    attitudes@,
                    dt as int,
                    i as int,
                ).0,
                actions@ == old(self).run(start, attitudes@, dt as int, i as int).1,
            decreases n - i,
        {
            let ghost before = self.world(transform_mgr, input_mgr);
            let ghost fleet = *self;
            let action = match self.pilot_type[i] {
                AircraftPilot::Player => self.update_player(
                    i,
                    transform_mgr,
                    input_mgr,
                    attitudes[i],
                    dt,
                ),
                AircraftPilot::Ai => self.update_ai(i, transform_mgr, attitudes[i], dt),
            };
            proof {
                old(self).lemma_step_same(&fleet, before, i as int, attitudes@[i as int], dt as int);
            }
            actions.push(action);
            i = i + 1;
        }
        actions
    }

    /// A step reads of the fleet only what stays the same from tick to tick.
    pub proof fn lemma_step_same(
        &self,
        other: &AircraftMgr<R>,
        world: World<R>,
        i: int,
        attitude: Attitude,
        dt: int,
    )
        requires
            self.same_fleet(other),
            0 <= i < self.count(),
        ensures
            self.step(world, i, attitude, dt) == other.step(world, i, attitude, dt),
    {
    }

    /// A reset command puts the aircraft back to its start pose exactly,
    /// whatever the tick would have done to it otherwise, leaves its angular
    /// rates as they are, and is consumed with the other commands.
    pub proof fn law_reset_restores_pose(
        &self,
        world: World<R>,
        i: int,
        attitude: Attitude,
        dt: int,
    )
        requires
            self.wf(),
            0 <= i < self.count(),
            self.transform_i[i].unwrap() < world.positions.len(),
            world.positions.len() == world.rotations.len(),
            self.input_i[i].unwrap() < world.inputs.len(),
            world.states.len() == self.count(),
            world.inputs[self.input_i[i].unwrap() as int].reset_transform,
        ensures
            ({
                let (after, action) = self.player_step(world, i, attitude, dt);
                let transform = self.transform_i[i].unwrap() as int;
                &&& action == FlightAction::Reset
                &&& after.positions[transform] == self.start_position[i]
                &&& after.rotations[transform] == self.start_rotation[i]
                &&& after.states[i].pitch_speed == world.states[i].pitch_speed
                &&& after.states[i].yaw_speed == world.states[i].yaw_speed
                &&& after.inputs[self.input_i[i].unwrap() as int] == neutral()
            }),
    {
    }

    /// A tick of one aircraft changes no flight state but its own, no
    /// transform but its own, and no orientation at all unless it is reset.
    pub proof fn law_step_is_local(
        &self,
        world: World<R>,
        i: int,
        attitude: Attitude,
        dt: int,
        other: int,
        elsewhere: int,
    )
        requires
            self.wf(),
            0 <= i < self.count(),
            0 <= other < self.count(),
            other != i,
            world.states.len() == self.count(),
            self.transform_i[i].unwrap() < world.positions.len(),
            world.positions.len() == world.rotations.len(),
            0 <= elsewhere < world.positions.len(),
            elsewhere != self.transform_i[i].unwrap(),
        ensures
            self.step(world, i, attitude, dt).0.states[other] == world.states[other],
            self.step(world, i, attitude, dt).0.positions[elsewhere] == world.positions[elsewhere],
            self.step(world, i, attitude, dt).0.rotations[elsewhere] == world.rotations[elsewhere],
            self.step(world, i, attitude, dt).0.positions.len() == world.positions.len(),
            self.step(world, i, attitude, dt).0.states.len() == world.states.len(),
    {
    }

    /// A tick computes no orientation: after it every transform has the
    /// orientation that it had, or the start orientation of the aircraft that
    /// was reset. Turning an aircraft is left to the caller, by the action
    /// that the tick returns.
    pub proof fn law_orientations_are_kept(
        &self,
        world: World<R>,
        i: int,
        attitude: Attitude,
        dt: int,
        transform: int,
    )
        requires
            self.wf(),
            0 <= i < self.count(),
            world.states.len() == self.count(),
            self.transform_i[i].unwrap() < world.positions.len(),
            world.positions.len() == world.rotations.len(),
            0 <= transform < world.rotations.len(),
        ensures
            self.step(world, i, attitude, dt).0.rotations.len() == world.rotations.len(),
            self.step(world, i, attitude, dt).0.rotations[transform] == world.rotations[transform]
                || self.step(world, i, attitude, dt).0.rotations[transform]
                == self.start_rotation[i],
    {
    }

    /// A run of ticks leaves one action per aircraft.
    pub proof fn law_one_action_each(
        &self,
        world: World<R>,
        attitudes: Seq<Attitude>,
        dt: int,
        upto: int,
    )
        requires
            0 <= upto,
        ensures
            self.run(world, attitudes, dt, upto).1.len() == upto,
        decreases upto,
    {
        if upto > 0 {
            self.law_one_action_each(world, attitudes, dt, upto - 1);
        }
    }
}

} // verus!
