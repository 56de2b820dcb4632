//! Buildings on the ground.
use vstd::prelude::*;
use crate::inventory::InventoryMgr;
use crate::transform::TransformMgr;
use crate::vector::Vec3;

verus! {

pub const MAX_INSTANCE_COUNT: usize = 128;

/// Name of the model that buildings are drawn with.
pub const BUILDING_MODEL: &'static str = "models/cube.obj";

#[derive(Clone, Copy, Debug, PartialEq, Eq, Structural)]
pub enum BuildingType {
    Factory,
}

pub struct BuildingMgr {
    pub building_type: Vec<BuildingType>,
    /// Distance up to which the building supplies, if it does.
    pub supply_range: Vec<Option<i64>>,
    /// Time between two supplies in milliseconds, if the building supplies.
    pub supply_period_ms: Vec<Option<u32>>,
    pub inventory_i: Vec<Option<usize>>,
    pub transform_i: Vec<Option<usize>>,
    pub mesh_renderer_i: Vec<Option<usize>>,
}

impl BuildingMgr {
    /// Number of buildings, as a specification.
    pub open spec fn count(&self) -> nat {
        self.building_type@.len()
    }

    /// Every array has one entry per building.
    pub open spec fn wf(&self) -> bool {
        &&& self.supply_range.len() == self.count()
        &&& self.supply_period_ms.len() == self.count()
        &&& self.inventory_i.len() == self.count()
        &&& self.transform_i.len() == self.count()
        &&& self.mesh_renderer_i.len() == self.count()
    }

    /// Whether the buildings of `earlier` are the first buildings of `self`,
    /// unchanged.
    pub open spec fn extends(&self, earlier: &BuildingMgr) -> bool {
        &&& earlier.count() <= self.count()
        &&& self.building_type@.take(earlier.count() as int) == earlier.building_type@
        &&& self.supply_range@.take(earlier.count() as int) == earlier.supply_range@
        &&& self.supply_period_ms@.take(earlier.count() as int) == earlier.supply_period_ms@
        &&& self.inventory_i@.take(earlier.count() as int) == earlier.inventory_i@
        &&& self.transform_i@.take(earlier.count() as int) == earlier.transform_i@
        &&& self.mesh_renderer_i@.take(earlier.count() as int) == earlier.mesh_renderer_i@
    }

    /// Checks `wf`.
    pub fn is_wf(&self) -> (ok: bool)
        ensures
            ok == self.wf(),
    {
        let n = self.building_type.len();
        self.supply_range.len() == n && self.supply_period_ms.len() == n && self.inventory_i.len()
            == n && self.transform_i.len() == n && self.mesh_renderer_i.len() == n
    }

    pub fn new() -> (mgr: BuildingMgr)
        ensures
            mgr.wf(),
            mgr.count() == 0,
    {
        BuildingMgr {
            building_type: Vec::with_capacity(MAX_INSTANCE_COUNT),
            supply_range: Vec::with_capacity(MAX_INSTANCE_COUNT),
            supply_period_ms: Vec::with_capacity(MAX_INSTANCE_COUNT),
            inventory_i: Vec::with_capacity(MAX_INSTANCE_COUNT),
            transform_i: Vec::with_capacity(MAX_INSTANCE_COUNT),
            mesh_renderer_i: Vec::with_capacity(MAX_INSTANCE_COUNT),
        }
    }

    /// Places a building with a new inventory and a new transform, and
    /// returns its index. `mesh_renderer_i` is the renderable of the
    /// building, if it has one.
    pub fn add<R: Copy>(
        &mut self,
        building_type: BuildingType,
        supply_range: Option<i64>,
        supply_period_ms: Option<u32>,
        position: Vec3,
        rotation: R,
        inventory_mgr: &mut InventoryMgr,
        transform_mgr: &mut TransformMgr<R>,
        mesh_renderer_i: Option<usize>,
    ) -> (index: usize)
        requires
            old(self).wf(),
            old(inventory_mgr).wf(),
            old(transform_mgr).wf(),
        ensures
            final(self).wf(),
            final(inventory_mgr).wf(),
            final(transform_mgr).wf(),
            index == old(self).count(),
            final(self).building_type@ == old(self).building_type@.push(building_type),
            final(self).supply_range@ == old(self).supply_range@.push(supply_range),
            final(self).supply_period_ms@ == old(self).supply_period_ms@.push(supply_period_ms),
            final(self).inventory_i@ == old(self).inventory_i@.push(
                Some(old(inventory_mgr).item_ammo_bullets.len()),
            ),
            final(self).transform_i@ == old(self).transform_i@.push(
                Some(old(transform_mgr).position.len()),
            ),
            final(self).mesh_renderer_i@ == old(self).mesh_renderer_i@.push(mesh_renderer_i),
            final(inventory_mgr).item_ammo_bullets@ == old(inventory_mgr).item_ammo_bullets@.push(
                0,
            ),
            final(inventory_mgr).item_ammo_rockets@ == old(inventory_mgr).item_ammo_rockets@.push(
                0,
            ),
            final(inventory_mgr).item_ammo_energy_cells@ == old(
                inventory_mgr,
            ).item_ammo_energy_cells@.push(0),
            final(transform_mgr).position@ == old(transform_mgr).position@.push(position),
            final(transform_mgr).rotation@ == old(transform_mgr).rotation@.push(rotation),
    {
        self.building_type.push(building_type);
        self.inventory_i.push(Some(inventory_mgr.add()));
        self.supply_range.push(supply_range);
        self.supply_period_ms.push(supply_period_ms);
        self.transform_i.push(Some(transform_mgr.add(position, rotation)));
        self.mesh_renderer_i.push(mesh_renderer_i);
        self.len() - 1
    }

    /// Number of buildings.
    pub fn len(&self) -> (n: usize)
        ensures
            n == self.count(),
    {
        self.building_type.len()
    }
}

} // verus!
