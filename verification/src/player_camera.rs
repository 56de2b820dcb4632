//! The camera that rides along with an aircraft.
use vstd::prelude::*;
use crate::aircraft::AircraftMgr;
use crate::transform::TransformMgr;
use crate::vector::Vec3;

verus! {

/// Index of the aircraft that the camera follows.
pub const FOLLOWED_AIRCRAFT: usize = 1;

pub struct PlayerCameraController {}

impl PlayerCameraController {
    pub fn new() -> (controller: PlayerCameraController) {
        PlayerCameraController {  }
    }

    /// The pose that the camera takes this tick: position and orientation of
    /// the aircraft that it follows.
    pub fn update<R: Copy>(
        &mut self,
        aircraft_mgr: &AircraftMgr<R>,
        transform_mgr: &TransformMgr<R>,
    ) -> (pose: (Vec3, R))
        requires
            aircraft_mgr.wf(),
            transform_mgr.wf(),
            FOLLOWED_AIRCRAFT < aircraft_mgr.count(),
            aircraft_mgr.transform_i[FOLLOWED_AIRCRAFT as int].unwrap()
                < transform_mgr.position.len(),
        ensures
            pose.0 == transform_mgr.position[aircraft_mgr.transform_i[FOLLOWED_AIRCRAFT
                as int].unwrap() as int],
            pose.1 == transform_mgr.rotation[aircraft_mgr.transform_i[FOLLOWED_AIRCRAFT
                as int].unwrap() as int],
    {
        let i = FOLLOWED_AIRCRAFT;
        let transform_i = aircraft_mgr.transform_i[i].unwrap();
        (transform_mgr.position[transform_i], transform_mgr.rotation[transform_i])
    }
}

} // verus!
