//! Ammunition counters, one row per owner.
use vstd::prelude::*;

verus! {

pub const MAX_INSTANCE_COUNT: usize = 128;

pub struct InventoryMgr {
    pub item_ammo_bullets: Vec<usize>,
    pub item_ammo_rockets: Vec<usize>,
    pub item_ammo_energy_cells: Vec<usize>,
}

impl InventoryMgr {
    /// The three counters have one entry per inventory.
    pub open spec fn wf(&self) -> bool {
        &&& self.item_ammo_rockets.len() == self.item_ammo_bullets.len()
        &&& self.item_ammo_energy_cells.len() == self.item_ammo_bullets.len()
    }

    /// Number of inventories, as a specification.
    pub open spec fn count(&self) -> nat {
        self.item_ammo_bullets@.len()
    }

    /// Whether the inventories of `earlier` are the first inventories of `self`,
    /// unchanged.
    pub open spec fn extends(&self, earlier: &InventoryMgr) -> bool {
        &&& earlier.count() <= self.count()
        &&& self.item_ammo_bullets@.take(earlier.count() as int) == earlier.item_ammo_bullets@
        &&& self.item_ammo_rockets@.take(earlier.count() as int) == earlier.item_ammo_rockets@
        &&& self.item_ammo_energy_cells@.take(earlier.count() as int) == earlier.item_ammo_energy_cells@
    }

    /// Extending is transitive.
    pub proof fn lemma_extends_chain(&self, middle: &InventoryMgr, earlier: &InventoryMgr)
        requires
            self.wf(),
            middle.wf(),
            earlier.wf(),
            self.extends(middle),
            middle.extends(earlier),
        ensures
            self.extends(earlier),
    {
        let n = earlier.count() as int;
        let m = middle.count() as int;
        assert(self.item_ammo_bullets@.take(n) =~= self.item_ammo_bullets@.take(m).take(n));
        assert(self.item_ammo_rockets@.take(n) =~= self.item_ammo_rockets@.take(m).take(n));
        assert(self.item_ammo_energy_cells@.take(n) =~= self.item_ammo_energy_cells@.take(m).take(n));
    }

    /// Every store extends itself.
    pub proof fn lemma_extends_self(&self)
        requires
            self.wf(),
        ensures
            self.extends(self),
    {
        let k = self.count() as int;
        assert(self.item_ammo_bullets@.take(k) =~= self.item_ammo_bullets@);
        assert(self.item_ammo_rockets@.take(k) =~= self.item_ammo_rockets@);
        assert(self.item_ammo_energy_cells@.take(k) =~= self.item_ammo_energy_cells@);
    }

    /// An inventory of `earlier` is in `self` what it was in `earlier`.
    pub proof fn lemma_extends_keeps(&self, earlier: &InventoryMgr, v: int)
        requires
            self.wf(),
            earlier.wf(),
            self.extends(earlier),
            0 <= v < earlier.count(),
        ensures
            self.item_ammo_bullets[v] == earlier.item_ammo_bullets[v],
            self.item_ammo_rockets[v] == earlier.item_ammo_rockets[v],
            self.item_ammo_energy_cells[v] == earlier.item_ammo_energy_cells[v],
    {
        let n = earlier.count() as int;
        assert(self.item_ammo_bullets@.take(n)[v] == self.item_ammo_bullets[v]);
        assert(self.item_ammo_rockets@.take(n)[v] == self.item_ammo_rockets[v]);
        assert(self.item_ammo_energy_cells@.take(n)[v] == self.item_ammo_energy_cells[v]);
    }

    /// Checks `wf`.
    pub fn is_wf(&self) -> (ok: bool)
        ensures
            ok == self.wf(),
    {
        self.item_ammo_rockets.len() == self.item_ammo_bullets.len()
            && self.item_ammo_energy_cells.len() == self.item_ammo_bullets.len()
    }

    pub fn new() -> (mgr: InventoryMgr)
        ensures
            mgr.wf(),
            mgr.item_ammo_bullets@.len() == 0,
    {
        InventoryMgr {
            item_ammo_bullets: Vec::with_capacity(MAX_INSTANCE_COUNT),
            item_ammo_rockets: Vec::with_capacity(MAX_INSTANCE_COUNT),
            item_ammo_energy_cells: Vec::with_capacity(MAX_INSTANCE_COUNT),
        }
    }

    /// Creates an inventory with every counter at zero and returns its index.
    pub fn add(&mut self) -> (index: usize)
        requires
            old(self).wf(),
        ensures
            final(self).wf(),
            index == old(self).item_ammo_bullets.len(),
            final(self).item_ammo_bullets@ == old(self).item_ammo_bullets@.push(0),
            final(self).item_ammo_rockets@ == old(self).item_ammo_rockets@.push(0),
            final(self).item_ammo_energy_cells@ == old(self).item_ammo_energy_cells@.push(0),
    {
        self.item_ammo_bullets.push(0);
        self.item_ammo_rockets.push(0);
        self.item_ammo_energy_cells.push(0);
        self.len() - 1
    }

    /// Number of inventories.
    pub fn len(&self) -> (n: usize)
        ensures
            n == self.item_ammo_bullets.len(),
    {
        self.item_ammo_bullets.len()
    }
}

} // verus!
