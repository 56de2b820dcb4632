//! The state of a session: all stores together, created with the sample
//! scene and advanced tick by tick.
use vstd::prelude::*;
use crate::aircraft::{AircraftMgr, World};
use crate::aircraft_input::{AircraftInputMgr, KeyBindings};
use crate::building::BuildingMgr;
use crate::collider::ColliderMgr;
use crate::flight::{Attitude, FlightAction};
use crate::inventory::InventoryMgr;
use crate::keyboard_manager::KeyboardMgr;
use crate::model::ModelMgr;
use crate::player_camera::{PlayerCameraController, FOLLOWED_AIRCRAFT};
use crate::sample_scene::{create, holds_fittings, holds_scene, refusal, SceneError};
use crate::terrain::Terrain;
use crate::transform::TransformMgr;
use crate::vector::Vec3;

verus! {

/// Reason for which a session does not start.
#[derive(Clone, Copy, Debug, PartialEq, Eq, Structural)]
pub enum GameError {
    /// A key binding is no key code of the keyboard state.
    KeyBindings,
    /// The scene cannot be created.
    Scene(SceneError),
}

pub struct GameState<R> {
    pub keyboard_mgr: KeyboardMgr,
    pub key_bindings: KeyBindings,
    pub player_camera: PlayerCameraController,
    pub transform_mgr: TransformMgr<R>,
    pub collider_mgr: ColliderMgr,
    pub model_mgr: ModelMgr,
    pub aircraft_mgr: AircraftMgr<R>,
    pub aircraft_input_mgr: AircraftInputMgr,
    pub building_mgr: BuildingMgr,
    pub inventory_mgr: InventoryMgr,
    pub terrain: Terrain,
}

impl<R: Copy> GameState<R> {
    /// Every store is well-formed, the references between the stores lead
    /// somewhere, and the key bindings are key codes.
    pub open spec fn wf(&self) -> bool {
        &&& self.key_bindings.valid()
        &&& self.transform_mgr.wf()
        &&& self.collider_mgr.wf()
        &&& self.model_mgr.wf()
        &&& self.aircraft_mgr.wf()
        &&& self.aircraft_input_mgr.wf()
        &&& self.building_mgr.wf()
        &&& self.inventory_mgr.wf()
        &&& self.aircraft_mgr.linked(
            self.transform_mgr.position@.len(),
            self.aircraft_input_mgr.count(),
        )
        &&& self.collider_mgr.linked(self.transform_mgr.position@.len(), self.model_mgr.model@.len())
    }

    /// The world that a tick of the aircraft starts from.
    pub open spec fn world(&self) -> World<R> {
        self.aircraft_mgr.world(&self.transform_mgr, &self.aircraft_input_mgr)
    }

    /// The world that the aircraft fly in after the keyboard has been read:
    /// the world as it is, with the commands that the keys give.
    pub open spec fn steered_world(&self) -> World<R> {
        World {
            inputs: self.aircraft_input_mgr.steered_controls(
                &self.keyboard_mgr,
                self.key_bindings,
                self.aircraft_input_mgr.count() as int,
            ),
            ..self.world()
        }
    }

    /// Checks `wf`.
    pub fn is_wf(&self) -> (ok: bool)
        ensures
            ok == self.wf(),
    {
        self.key_bindings.is_valid() && self.transform_mgr.is_wf() && self.collider_mgr.is_wf()
            && self.model_mgr.is_wf() && self.aircraft_mgr.is_wf()
            && self.aircraft_input_mgr.is_wf() && self.building_mgr.is_wf()
            && self.inventory_mgr.is_wf() && self.aircraft_mgr.is_linked(
            self.transform_mgr.len(),
            self.aircraft_input_mgr.len(),
        ) && self.collider_mgr.is_linked(self.transform_mgr.len(), self.model_mgr.len())
    }

    /// Starts a session with the sample scene, built from the models in
    /// `model_mgr`, in stores that hold nothing else: `holds_scene` and
    /// `holds_fittings` from the first row of every store on. Every entity
    /// has the orientation `level`, and no key is held.
    ///
    /// The session does not start with key bindings that are no key codes,
    /// nor where the scene is refused; the bindings are looked at first.
    pub fn new(
        model_mgr: ModelMgr,
        key_bindings: KeyBindings,
        level: R,
        terrain_renderable: usize,
    ) -> (r: Result<GameState<R>, GameError>)
        requires
            model_mgr.wf(),
        ensures
            match r {
                Ok(game) => {
                    &&& key_bindings.valid()
                    &&& refusal(&model_mgr, 0).is_none()
                    &&& game.wf()
                    &&& game.key_bindings == key_bindings
                    &&& game.model_mgr == model_mgr
                    &&& game.terrain.transform_i == 0
                    &&& game.terrain.collider_i == 0
                    &&& game.terrain.mesh_renderer_i == terrain_renderable
                    &&& holds_scene(
                        &game.aircraft_mgr,
                        &game.transform_mgr,
                        &game.building_mgr,
                        0,
                        0,
                        level,
                    )
                    &&& holds_fittings(
                        &game.aircraft_mgr,
                        &game.collider_mgr,
                        &game.aircraft_input_mgr,
                        &game.inventory_mgr,
                        &game.building_mgr,
                        &game.model_mgr,
                        0,
                        0,
                        0,
                        0,
                        0,
                    )
                    &&& game.building_mgr.count() == 1
                    &&& forall|k: int|
                        0 <= k < crate::keyboard_manager::KEYCODE_COUNT ==> !(
                        #[trigger] game.keyboard_mgr.key_pressed@[k])
                            && !game.keyboard_mgr.key_down@[k] && !game.keyboard_mgr.key_up@[k]
                },
                Err(e) => {
                    &&& !key_bindings.valid() ==> e == GameError::KeyBindings
                    &&& key_bindings.valid() ==> (refusal(&model_mgr, 0) matches Some(reason) && e
                        == GameError::Scene(reason))
                },
            },
    {
        if !key_bindings.is_valid() {
            return Err(GameError::KeyBindings);
        }
        let keyboard_mgr = KeyboardMgr::new();
        let player_camera = PlayerCameraController::new();
        let mut transform_mgr = TransformMgr::new();
        let mut collider_mgr = ColliderMgr::new();
        let mut aircraft_mgr = AircraftMgr::new();
        let mut aircraft_input_mgr = AircraftInputMgr::new();
        let mut building_mgr = BuildingMgr::new();
        let mut inventory_mgr = InventoryMgr::new();

        let created = create(
            &mut aircraft_mgr,
            &mut transform_mgr,
            &mut collider_mgr,
            &mut aircraft_input_mgr,
            &mut building_mgr,
            &mut inventory_mgr,
            &model_mgr,
            level,
            terrain_renderable,
        );
        match created {
            Ok(terrain) => Ok(
                GameState {
                    keyboard_mgr,
                    key_bindings,
                    player_camera,
                    transform_mgr,
                    collider_mgr,
                    model_mgr,
                    aircraft_mgr,
                    aircraft_input_mgr,
                    building_mgr,
                    inventory_mgr,
                    terrain,
                },
            ),
            Err(e) => Err(GameError::Scene(e)),
        }
    }

    /// Records a key event, if `key` is a key code of the keyboard state, and
    /// says whether it is. Nothing but the keyboard state changes.
    pub fn input(&mut self, key: usize, is_pressed: bool) -> (known: bool)
        requires
            old(self).wf(),
        ensures
            final(self).wf(),
            known == (key < crate::keyboard_manager::KEYCODE_COUNT),
            known ==> {
                &&& final(self).keyboard_mgr.key_pressed@ == old(
                    self,
                ).keyboard_mgr.key_pressed@.update(key as int, is_pressed)
                &&& final(self).keyboard_mgr.key_down@ == old(self).keyboard_mgr.key_down@.update(
                    key as int,
                    !old(self).keyboard_mgr.key_pressed@[key as int] && is_pressed,
                )
                &&& final(self).keyboard_mgr.key_up@ == old(self).keyboard_mgr.key_up@.update(
                    key as int,
                    old(self).keyboard_mgr.key_pressed@[key as int] && !is_pressed,
                )
            },
            !known ==> final(self).keyboard_mgr == old(self).keyboard_mgr,
            final(self).world() == old(self).world(),
            final(self).aircraft_mgr == old(self).aircraft_mgr,
            final(self).transform_mgr == old(self).transform_mgr,
            final(self).aircraft_input_mgr == old(self).aircraft_input_mgr,
            final(self).collider_mgr == old(self).collider_mgr,
            final(self).model_mgr == old(self).model_mgr,
            final(self).building_mgr == old(self).building_mgr,
            final(self).inventory_mgr == old(self).inventory_mgr,
            final(self).terrain == old(self).terrain,
            final(self).player_camera == old(self).player_camera,
            final(self).key_bindings == old(self).key_bindings,
    {
        self.keyboard_mgr.input(key, is_pressed)
    }

    /// Advances the session by one tick of length `dt`, given one attitude
    /// per aircraft, and returns the action that each aircraft leaves.
    ///
    /// The tick has three stages, in this order and with this one time step:
    /// the keyboard steers the control input of the human-piloted aircraft;
    /// the aircraft fly, one after the other, and consume their input; and
    /// the collision records are found again from the positions that the
    /// aircraft have reached.
    pub fn update(&mut self, attitudes: &Vec<Attitude>, dt: i64) -> (actions: Vec<FlightAction>)
        requires
            old(self).wf(),
            attitudes.len() == old(self).aircraft_mgr.count(),
        ensures
            final(self).wf(),
            final(self).aircraft_mgr.same_fleet(&old(self).aircraft_mgr),
            final(self).aircraft_input_mgr.same_roster(&old(self).aircraft_input_mgr),
            final(self).collider_mgr.same_colliders(&old(self).collider_mgr),
            final(self).keyboard_mgr == old(self).keyboard_mgr,
            final(self).key_bindings == old(self).key_bindings,
            final(self).model_mgr == old(self).model_mgr,
            final(self).building_mgr == old(self).building_mgr,
            final(self).inventory_mgr == old(self).inventory_mgr,
            final(self).terrain == old(self).terrain,
            final(self).player_camera == old(self).player_camera,
            final(self).world() =~= old(self).aircraft_mgr.run(
                old(self).steered_world(),
                attitudes@,
                dt as int,
                old(self).aircraft_mgr.count() as int,
            ).0,
            actions@ == old(self).aircraft_mgr.run(
                old(self).steered_world(),
                attitudes@,
                dt as int,
                old(self).aircraft_mgr.count() as int,
            ).1,
            forall|i: int|
                0 <= i < old(self).collider_mgr.count() ==> (#[trigger] final(self).collider_mgr.colliding_indices[i])@ == old(self).collider_mgr.recorded(
                    i,
                    final(self).transform_mgr.position@,
                    old(self).model_mgr.model@,
                ),
    {
        self.aircraft_input_mgr.update(&self.keyboard_mgr, &self.key_bindings);
        assert(self.world() =~= old(self).steered_world());
        let actions = self.aircraft_mgr.update(
            &mut self.transform_mgr,
            &mut self.aircraft_input_mgr,
            attitudes,
            dt,
        );
        self.transform_mgr.update();
        self.collider_mgr.update(&self.transform_mgr, &self.model_mgr);
        actions
    }

    /// Index of the transform of aircraft `aircraft`, whose orientation the
    /// attitude of the aircraft derives from.
    pub fn transform_of(&self, aircraft: usize) -> (transform: usize)
        requires
            self.wf(),
            aircraft < self.aircraft_mgr.count(),
        ensures
            transform == self.aircraft_mgr.transform_i[aircraft as int].unwrap(),
            transform < self.transform_mgr.position@.len(),
    {
        self.aircraft_mgr.transform_i[aircraft].unwrap()
    }

    /// The pose of the camera, if there is an aircraft for it to follow.
    pub fn camera_pose(&mut self) -> (pose: Option<(Vec3, R)>)
        requires
            old(self).wf(),
        ensures
            *final(self) == *old(self),
            pose.is_some() <==> FOLLOWED_AIRCRAFT < old(self).aircraft_mgr.count(),
            pose matches Some(p) ==> {
                let transform = old(self).aircraft_mgr.transform_i[FOLLOWED_AIRCRAFT
                    as int].unwrap() as int;
                p.0 == old(self).transform_mgr.position[transform] && p.1 == old(
                    self,
                ).transform_mgr.rotation[transform]
            },
    {
        if FOLLOWED_AIRCRAFT < self.aircraft_mgr.len() {
            Some(self.player_camera.update(&self.aircraft_mgr, &self.transform_mgr))
        } else {
            None
        }
    }
}

} // verus!
