//! Position and orientation of every spatial entity.
//!
//! The store is generic in the orientation type `R`: it keeps and hands back
//! orientations but never computes on them. Deriving direction vectors from
//! an orientation and composing rotations is the caller's part.
use vstd::prelude::*;
use crate::vector::Vec3;

verus! {

pub const MAX_INSTANCE_COUNT: usize = 128;

/// Parallel arrays of positions and orientations; an entity is its index.
pub struct TransformMgr<R> {
    pub position: Vec<Vec3>,
    pub rotation: Vec<R>,
}

impl<R: Copy> TransformMgr<R> {
    /// Both arrays have one entry per entity.
    pub open spec fn wf(&self) -> bool {
        self.position.len() == self.rotation.len()
    }

    /// Checks `wf`.
    pub fn is_wf(&self) -> (ok: bool)
        ensures
            ok == self.wf(),
    {
        self.position.len() == self.rotation.len()
    }

    pub fn new() -> (mgr: TransformMgr<R>)
        ensures
            mgr.wf(),
            mgr.position@.len() == 0,
            mgr.rotation@.len() == 0,
    {
        TransformMgr {
            position: Vec::with_capacity(MAX_INSTANCE_COUNT),
            rotation: Vec::with_capacity(MAX_INSTANCE_COUNT),
        }
    }

    /// Appends a transform and returns its index.
    pub fn add(&mut self, position: Vec3, rotation: R) -> (index: usize)
        requires
            old(self).wf(),
        ensures
            final(self).wf(),
            index == old(self).position.len(),
            final(self).position@ == old(self).position@.push(position),
            final(self).rotation@ == old(self).rotation@.push(rotation),
    {
        self.position.push(position);
        self.rotation.push(rotation);
        self.position.len() - 1
    }

    /// Number of transforms.
    pub fn len(&self) -> (n: usize)
        ensures
            n == self.position.len(),
    {
        self.position.len()
    }

    /// Per-tick hook of the store; a transform has nothing to advance by itself.
    pub fn update(&mut self)
        ensures
            final(self).position@ == old(self).position@,
            final(self).rotation@ == old(self).rotation@,
    {
    }

    /// Moves the entity by `translation`; its orientation and all other
    /// entities stay as they are.
    pub fn translate(&mut self, index: usize, translation: Vec3)
        requires
            index < old(self).position.len(),
        ensures
            final(self).position@ == old(self).position@.update(
                index as int,
                old(self).position[index as int].translated(translation),
            ),
            final(self).rotation@ == old(self).rotation@,
    {
        let moved = self.position[index].translate(translation);
        self.position.set(index, moved);
    }

    /// Replaces the entity's orientation.
    pub fn set_rotation(&mut self, index: usize, rotation: R)
        requires
            index < old(self).rotation.len(),
        ensures
            final(self).rotation@ == old(self).rotation@.update(index as int, rotation),
            final(self).position@ == old(self).position@,
    {
        self.rotation.set(index, rotation);
    }

    /// Replaces position and orientation of the entity at once.
    pub fn set_pose(&mut self, index: usize, position: Vec3, rotation: R)
        requires
            old(self).wf(),
            index < old(self).position.len(),
        ensures
            final(self).position@ == old(self).position@.update(index as int, position),
            final(self).rotation@ == old(self).rotation@.update(index as int, rotation),
    {
        self.position.set(index, position);
        self.rotation.set(index, rotation);
    }
}

} // verus!
