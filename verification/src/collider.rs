//! Collision detection between axis-aligned boxes.
//!
//! Every collider has a box in the space of its model, which moves with the
//! position of its transform and never turns with it. Once per tick every
//! collision source is tested against every collision target, and the first
//! few targets it touches are recorded for it.
use vstd::prelude::*;
use crate::model::{Mesh, Model, ModelMgr};
use crate::transform::TransformMgr;
use crate::vector::Vec3;

verus! {

pub const MAX_INSTANCE_COUNT: usize = 128;

/// Maximum simultaneous collisions per instance.
pub const MAX_COLLISIONS: usize = 4;

/// Entry of a collision record that names no partner.
pub const NO_COLLISION: isize = -1;

/// How precisely a collider is tested once the boxes touch.
#[derive(Clone, Copy, Debug, PartialEq, Eq, Structural)]
pub enum ColliderType {
    /// Bounding box collision check.
    Box,
    /// Per-vertex collision check.
    Vertex,
}

/// Reason for which a collider is refused.
#[derive(Clone, Copy, Debug, PartialEq, Eq, Structural)]
pub enum ColliderError {
    /// The box of the model has a least corner above its greatest corner.
    InvertedBounds,
    /// The store holds as many colliders as a collision record can name.
    Full,
}

/// Whether `min` is no greater than `max` on any axis.
pub open spec fn ordered(min: Vec3, max: Vec3) -> bool {
    &&& min.x <= max.x
    &&& min.y <= max.y
    &&& min.z <= max.z
}

/// Whether two boxes share a point: on no axis does one end before the other
/// begins.
pub open spec fn boxes_overlap(min: Vec3, max: Vec3, other_min: Vec3, other_max: Vec3) -> bool {
    &&& min.x <= other_max.x
    &&& max.x >= other_min.x
    &&& min.y <= other_max.y
    &&& max.y >= other_min.y
    &&& min.z <= other_max.z
    &&& max.z >= other_min.z
}

/// Whether some vertex of some mesh lies in the box from `min` to `max`.
pub open spec fn any_vertex_within(meshes: Seq<Mesh>, min: Vec3, max: Vec3) -> bool {
    exists|m: int, v: int|
        0 <= m < meshes.len() && 0 <= v < meshes[m].vertices.len() && (
        #[trigger] meshes[m].vertices[v]).within(min, max)
}

/// The record of the partners `found`: their indices in the order found,
/// then `NO_COLLISION` up to the length of a record.
pub open spec fn record(found: Seq<int>) -> Seq<isize> {
    Seq::new(
        MAX_COLLISIONS as nat,
        |k: int|
            if k < found.len() {
                found[k] as isize
            } else {
                NO_COLLISION
            },
    )
}

/// Manages bounding boxes and collisions.
pub struct ColliderMgr {
    pub bounding_box_min: Vec<Vec3>,
    pub bounding_box_max: Vec<Vec3>,
    pub should_render_bounding_box: Vec<bool>,
    pub collider_type: Vec<ColliderType>,
    /// Whether the collider checks for collision with other colliders or not.
    pub is_collision_source: Vec<bool>,
    /// Whether the collider is checked for collision by other colliders or not.
    pub is_collision_target: Vec<bool>,
    /// Updated each tick: per collider, the colliders it touches.
    pub colliding_indices: Vec<[isize; 4]>,
    pub transform_i: Vec<usize>,
    pub model_i: Vec<Option<usize>>,
}

impl ColliderMgr {
    /// Number of colliders, as a specification.
    pub open spec fn count(&self) -> nat {
        self.bounding_box_min@.len()
    }

    /// Every array has one entry per collider, every box is ordered, every
    /// collider has a model, and an index of a collider fits in a record.
    pub open spec fn wf(&self) -> bool {
        &&& self.bounding_box_max.len() == self.count()
        &&& self.should_render_bounding_box.len() == self.count()
        &&& self.collider_type.len() == self.count()
        &&& self.is_collision_source.len() == self.count()
        &&& self.is_collision_target.len() == self.count()
        &&& self.colliding_indices.len() == self.count()
        &&& self.transform_i.len() == self.count()
        &&& self.model_i.len() == self.count()
        &&& self.count() <= isize::MAX
        &&& forall|i: int|
            0 <= i < self.count() ==> ordered(
                #[trigger] self.bounding_box_min[i],
                self.bounding_box_max[i],
            )
        &&& forall|i: int| 0 <= i < self.count() ==> (#[trigger] self.model_i[i]).is_some()
    }

    /// Every collider refers to a transform among `transforms` and to a model
    /// among `models`.
    pub open spec fn linked(&self, transforms: nat, models: nat) -> bool {
        &&& forall|i: int| 0 <= i < self.count() ==> (#[trigger] self.transform_i[i]) < transforms
        &&& forall|i: int|
            0 <= i < self.count() ==> (#[trigger] self.model_i[i]).unwrap() < models
    }

    /// Whether `other` holds the same colliders; the collision records may
    /// differ.
    pub open spec fn same_colliders(&self, other: &ColliderMgr) -> bool {
        &&& self.bounding_box_min@ == other.bounding_box_min@
        &&& self.bounding_box_max@ == other.bounding_box_max@
        &&& self.should_render_bounding_box@ == other.should_render_bounding_box@
        &&& self.collider_type@ == other.collider_type@
        &&& self.is_collision_source@ == other.is_collision_source@
        &&& self.is_collision_target@ == other.is_collision_target@
        &&& self.transform_i@ == other.transform_i@
        &&& self.model_i@ == other.model_i@
    }

    /// Whether the colliders of `earlier` are the first colliders of `self`,
    /// unchanged.
    pub open spec fn extends(&self, earlier: &ColliderMgr) -> bool {
        &&& earlier.count() <= self.count()
        &&& self.bounding_box_min@.take(earlier.count() as int) == earlier.bounding_box_min@
        &&& self.bounding_box_max@.take(earlier.count() as int) == earlier.bounding_box_max@
        &&& self.should_render_bounding_box@.take(earlier.count() as int) == earlier.should_render_bounding_box@
        &&& self.collider_type@.take(earlier.count() as int) == earlier.collider_type@
        &&& self.is_collision_source@.take(earlier.count() as int) == earlier.is_collision_source@
        &&& self.is_collision_target@.take(earlier.count() as int) == earlier.is_collision_target@
        &&& self.colliding_indices@.take(earlier.count() as int) == earlier.colliding_indices@
        &&& self.transform_i@.take(earlier.count() as int) == earlier.transform_i@
        &&& self.model_i@.take(earlier.count() as int) == earlier.model_i@
    }

    /// Extending is transitive.
    pub proof fn lemma_extends_chain(&self, middle: &ColliderMgr, earlier: &ColliderMgr)
        requires
            self.wf(),
            middle.wf(),
            earlier.wf(),
            self.extends(middle),
            middle.extends(earlier),
        ensures
            self.extends(earlier),
    {
        let n = earlier.count() as int;
        let m = middle.count() as int;
        assert(self.bounding_box_min@.take(n) =~= self.bounding_box_min@.take(m).take(n));
        assert(self.bounding_box_max@.take(n) =~= self.bounding_box_max@.take(m).take(n));
        assert(self.should_render_bounding_box@.take(n) =~= self.should_render_bounding_box@.take(m).take(n));
        assert(self.collider_type@.take(n) =~= self.collider_type@.take(m).take(n));
        assert(self.is_collision_source@.take(n) =~= self.is_collision_source@.take(m).take(n));
        assert(self.is_collision_target@.take(n) =~= self.is_collision_target@.take(m).take(n));
        assert(self.colliding_indices@.take(n) =~= self.colliding_indices@.take(m).take(n));
        assert(self.transform_i@.take(n) =~= self.transform_i@.take(m).take(n));
        assert(self.model_i@.take(n) =~= self.model_i@.take(m).take(n));
    }

    /// Every store extends itself.
    pub proof fn lemma_extends_self(&self)
        requires
            self.wf(),
        ensures
            self.extends(self),
    {
        let k = self.count() as int;
        assert(self.bounding_box_min@.take(k) =~= self.bounding_box_min@);
        assert(self.bounding_box_max@.take(k) =~= self.bounding_box_max@);
        assert(self.should_render_bounding_box@.take(k) =~= self.should_render_bounding_box@);
        assert(self.collider_type@.take(k) =~= self.collider_type@);
        assert(self.is_collision_source@.take(k) =~= self.is_collision_source@);
        assert(self.is_collision_target@.take(k) =~= self.is_collision_target@);
        assert(self.colliding_indices@.take(k) =~= self.colliding_indices@);
        assert(self.transform_i@.take(k) =~= self.transform_i@);
        assert(self.model_i@.take(k) =~= self.model_i@);
    }

    /// A collider of `earlier` is in `self` what it was in `earlier`.
    pub proof fn lemma_extends_keeps(&self, earlier: &ColliderMgr, c: int)
        requires
            self.wf(),
            earlier.wf(),
            self.extends(earlier),
            0 <= c < earlier.count(),
        ensures
            self.bounding_box_min[c] == earlier.bounding_box_min[c],
            self.bounding_box_max[c] == earlier.bounding_box_max[c],
            self.should_render_bounding_box[c] == earlier.should_render_bounding_box[c],
            self.collider_type[c] == earlier.collider_type[c],
            self.is_collision_source[c] == earlier.is_collision_source[c],
            self.is_collision_target[c] == earlier.is_collision_target[c],
            self.colliding_indices[c] == earlier.colliding_indices[c],
            self.transform_i[c] == earlier.transform_i[c],
            self.model_i[c] == earlier.model_i[c],
    {
        let n = earlier.count() as int;
        assert(self.bounding_box_min@.take(n)[c] == self.bounding_box_min[c]);
        assert(self.bounding_box_max@.take(n)[c] == self.bounding_box_max[c]);
        assert(self.should_render_bounding_box@.take(n)[c] == self.should_render_bounding_box[c]);
        assert(self.collider_type@.take(n)[c] == self.collider_type[c]);
        assert(self.is_collision_source@.take(n)[c] == self.is_collision_source[c]);
        assert(self.is_collision_target@.take(n)[c] == self.is_collision_target[c]);
        assert(self.colliding_indices@.take(n)[c] == self.colliding_indices[c]);
        assert(self.transform_i@.take(n)[c] == self.transform_i[c]);
        assert(self.model_i@.take(n)[c] == self.model_i[c]);
    }

    /// Least corner of the box of collider `i` in world space.
    pub open spec fn world_min(&self, i: int, positions: Seq<Vec3>) -> Vec3 {
        positions[self.transform_i[i] as int].translated(self.bounding_box_min[i])
    }

    /// Greatest corner of the box of collider `i` in world space.
    pub open spec fn world_max(&self, i: int, positions: Seq<Vec3>) -> Vec3 {
        positions[self.transform_i[i] as int].translated(self.bounding_box_max[i])
    }

    /// Whether a vertex of the model of collider `mesh`, as the model stores
    /// it, lies in the world-space box of collider `boxed`.
    pub open spec fn box_meets_mesh(
        &self,
        boxed: int,
        mesh: int,
        positions: Seq<Vec3>,
        models: Seq<Model>,
    ) -> bool {
        any_vertex_within(
            models[self.model_i[mesh].unwrap() as int].meshes@,
            self.world_min(boxed, positions),
            self.world_max(boxed, positions),
        )
    }

    /// Whether colliders `i` and `j` collide: their world-space boxes
    /// overlap and, where exactly one of them is tested per vertex, one of
    /// its vertices lies in the box of the other. Two per-vertex colliders
    /// collide as soon as their boxes overlap.
    pub open spec fn collides(&self, i: int, j: int, positions: Seq<Vec3>, models: Seq<Model>)
        -> bool {
        &&& boxes_overlap(
            self.world_min(i, positions),
            self.world_max(i, positions),
            self.world_min(j, positions),
            self.world_max(j, positions),
        )
        &&& match (self.collider_type[i], self.collider_type[j]) {
            (ColliderType::Box, ColliderType::Box) => true,
            (ColliderType::Box, ColliderType::Vertex) => self.box_meets_mesh(
                i,
                j,
                positions,
                models,
            ),
            (ColliderType::Vertex, ColliderType::Box) => self.box_meets_mesh(
                j,
                i,
                positions,
                models,
            ),
            (ColliderType::Vertex, ColliderType::Vertex) => true,
        }
    }

    /// Whether collider `j` counts as a partner of collider `i`: another
    /// collider, a collision target, and in collision with `i`.
    pub open spec fn is_partner(&self, i: int, j: int, positions: Seq<Vec3>, models: Seq<Model>)
        -> bool {
        &&& j != i
        &&& self.is_collision_target[j]
        &&& self.collides(i, j, positions, models)
    }

    /// The partners of collider `i` among the colliders below `upto`, in
    /// rising order, cut off after `MAX_COLLISIONS` of them.
    pub open spec fn partners(
        &self,
        i: int,
        positions: Seq<Vec3>,
        models: Seq<Model>,
        upto: int,
    ) -> Seq<int>
        decreases upto,
    {
        if upto <= 0 {
            Seq::empty()
        } else {
            let before = self.partners(i, positions, models, upto - 1);
            if before.len() < MAX_COLLISIONS && self.is_partner(i, upto - 1, positions, models) {
                before.push(upto - 1)
            } else {
                before
            }
        }
    }

    /// What a tick records for collider `i`: its partners if it is a
    /// collision source, nothing otherwise.
    pub open spec fn recorded(&self, i: int, positions: Seq<Vec3>, models: Seq<Model>) -> Seq<
        isize,
    > {
        if self.is_collision_source[i] {
            record(self.partners(i, positions, models, self.count() as int))
        } else {
            record(Seq::empty())
        }
    }

    /// Checks `wf`.
    pub fn is_wf(&self) -> (ok: bool)
        ensures
            ok == self.wf(),
    {
        let n = self.bounding_box_min.len();
        if !(self.bounding_box_max.len() == n && self.should_render_bounding_box.len() == n
            && self.collider_type.len() == n && self.is_collision_source.len() == n
            && self.is_collision_target.len() == n && self.colliding_indices.len() == n
            && self.transform_i.len() == n && self.model_i.len() == n && n <= isize::MAX
            as usize) {
            return false;
        }
        let mut i: usize = 0;
        while i < n
            invariant
                i <= n,
                n == self.count(),
                self.bounding_box_max.len() == n,
                self.model_i.len() == n,
                forall|k: int|
                    0 <= k < i ==> ordered(
                        #[trigger] self.bounding_box_min[k],
                        self.bounding_box_max[k],
                    ),
                forall|k: int| 0 <= k < i ==> (#[trigger] self.model_i[k]).is_some(),
            decreases n - i,
        {
            let min = self.bounding_box_min[i];
            let max = self.bounding_box_max[i];
            if !(min.x <= max.x && min.y <= max.y && min.z <= max.z) || self.model_i[i].is_none() {
                return false;
            }
            i = i + 1;
        }
        true
    }

    /// Checks `linked` for a well-formed store.
    pub fn is_linked(&self, transforms: usize, models: usize) -> (ok: bool)
        requires
            self.wf(),
        ensures
            ok == self.linked(transforms as nat, models as nat),
    {
        let n = self.bounding_box_min.len();
        let mut i: usize = 0;
        while i < n
            invariant
                i <= n,
                n == self.count(),
                self.wf(),
                forall|k: int| 0 <= k < i ==> (#[trigger] self.transform_i[k]) < transforms,
                forall|k: int| 0 <= k < i ==> (#[trigger] self.model_i[k]).unwrap() < models,
            decreases n - i,
        {
            if self.transform_i[i] >= transforms || self.model_i[i].unwrap() >= models {
                return false;
            }
            i = i + 1;
        }
        true
    }

    pub fn new() -> (mgr: ColliderMgr)
        ensures
            mgr.wf(),
            mgr.count() == 0,
    {
        ColliderMgr {
            bounding_box_min: Vec::with_capacity(MAX_INSTANCE_COUNT),
            bounding_box_max: Vec::with_capacity(MAX_INSTANCE_COUNT),
            collider_type: Vec::with_capacity(MAX_INSTANCE_COUNT),
            is_collision_source: Vec::with_capacity(MAX_INSTANCE_COUNT),
            is_collision_target: Vec::with_capacity(MAX_INSTANCE_COUNT),
            colliding_indices: Vec::with_capacity(MAX_INSTANCE_COUNT),
            should_render_bounding_box: Vec::with_capacity(MAX_INSTANCE_COUNT),
            transform_i: Vec::with_capacity(MAX_INSTANCE_COUNT),
            model_i: Vec::with_capacity(MAX_INSTANCE_COUNT),
        }
    }

    /// Number of colliders.
    pub fn len(&self) -> (n: usize)
        ensures
            n == self.count(),
    {
        self.bounding_box_min.len()
    }

    /// Adds a collider with the box of model `model_i` to the entity whose
    /// transform is `transform_i`, and returns its index.
    ///
    /// A model whose box is inverted is refused, and so is a collider beyond
    /// the number that a collision record can name; a refusal changes
    /// nothing. The new collider has an empty collision record.
    pub fn add_from_model<R: Copy>(
        &mut self,
        model_i: usize,
        transform_i: usize,
        collider_type: ColliderType,
        is_collision_source: bool,
        is_collision_target: bool,
        render_bounding_box: bool,
        transform_mgr: &TransformMgr<R>,
        model_mgr: &ModelMgr,
    ) -> (r: Result<usize, ColliderError>)
        requires
            old(self).wf(),
            model_i < model_mgr.model.len(),
            transform_i < transform_mgr.position.len(),
        ensures
            final(self).wf(),
            r.is_ok() <==> model_mgr.model[model_i as int].bounded() && old(self).count()
                < isize::MAX,
            r == Err::<usize, ColliderError>(ColliderError::InvertedBounds)
                <==> !model_mgr.model[model_i as int].bounded(),
            r == Err::<usize, ColliderError>(ColliderError::Full)
                <==> model_mgr.model[model_i as int].bounded() && old(self).count()
                >= isize::MAX,
            r.is_err() ==> *final(self) == *old(self),
            r matches Ok(index) ==> {
                &&& index == old(self).count()
                &&& final(self).bounding_box_min@ == old(self).bounding_box_min@.push(
                    model_mgr.model[model_i as int].min,
                )
                &&& final(self).bounding_box_max@ == old(self).bounding_box_max@.push(
                    model_mgr.model[model_i as int].max,
                )
                &&& final(self).collider_type@ == old(self).collider_type@.push(collider_type)
                &&& final(self).is_collision_source@ == old(self).is_collision_source@.push(
                    is_collision_source,
                )
                &&& final(self).is_collision_target@ == old(self).is_collision_target@.push(
                    is_collision_target,
                )
                &&& final(self).should_render_bounding_box@
                    == old(self).should_render_bounding_box@.push(render_bounding_box)
                &&& final(self).transform_i@ == old(self).transform_i@.push(transform_i)
                &&& final(self).model_i@ == old(self).model_i@.push(Some(model_i))
                &&& final(self).colliding_indices@.len() == old(self).count() + 1
                &&& final(self).colliding_indices@.drop_last() == old(self).colliding_indices@
                &&& final(self).colliding_indices@.last()@ == record(Seq::empty())
            },
    {
        let model = &model_mgr.model[model_i];
        let bbox_min = model.min;
        let bbox_max = model.max;
        if !(bbox_min.x <= bbox_max.x && bbox_min.y <= bbox_max.y && bbox_min.z <= bbox_max.z) {
            return Err(ColliderError::InvertedBounds);
        }
        if self.len() >= isize::MAX as usize {
            return Err(ColliderError::Full);
        }
        self.bounding_box_min.push(bbox_min);
        self.bounding_box_max.push(bbox_max);
        self.collider_type.push(collider_type);
        self.is_collision_source.push(is_collision_source);
        self.is_collision_target.push(is_collision_target);
        self.should_render_bounding_box.push(render_bounding_box);
        let empty: [isize; 4] = [NO_COLLISION, NO_COLLISION, NO_COLLISION, NO_COLLISION];
        assert(empty@ =~= record(Seq::empty()));
        self.colliding_indices.push(empty);
        self.transform_i.push(transform_i);
        self.model_i.push(Some(model_i));
        assert(final(self).colliding_indices@.drop_last() =~= old(self).colliding_indices@);
        let index = self.len() - 1;
        Ok(index)
    }

    /// Translates `offset` by `reference_position`, usually the position of
    /// a transform.
    pub fn get_translated_position(&self, reference_position: Vec3, offset: Vec3) -> (p: Vec3)
        ensures
            p == reference_position.translated(offset),
    {
        reference_position.translate(offset)
    }

    /// Least corner of the box of collider `index` moved to
    /// `reference_position`.
    pub fn get_translated_min_pos(&self, index: usize, reference_position: Vec3) -> (p: Vec3)
        requires
            index < self.count(),
        ensures
            p == reference_position.translated(self.bounding_box_min[index as int]),
    {
        let bounding_box_min = self.bounding_box_min[index];
        self.get_translated_position(reference_position, bounding_box_min)
    }

    /// Greatest corner of the box of collider `index` moved to
    /// `reference_position`.
    pub fn get_translated_max_pos(&self, index: usize, reference_position: Vec3) -> (p: Vec3)
        requires
            index < self.bounding_box_max.len(),
        ensures
            p == reference_position.translated(self.bounding_box_max[index as int]),
    {
        let bounding_box_max = self.bounding_box_max[index];
        self.get_translated_position(reference_position, bounding_box_max)
    }

    /// Tests the box of collider `index` against the vertices of the model
    /// of collider `other_index`.
    pub fn check_collision_box_mesh<R: Copy>(
        &self,
        index: usize,
        other_index: usize,
        transform_mgr: &TransformMgr<R>,
        model_mgr: &ModelMgr,
    ) -> (hit: bool)
        requires
            self.wf(),
            self.linked(transform_mgr.position@.len(), model_mgr.model@.len()),
            index < self.count(),
            other_index < self.count(),
        ensures
            hit == self.box_meets_mesh(
                index as int,
                other_index as int,
                transform_mgr.position@,
                model_mgr.model@,
            ),
    {
        let transform_i = self.transform_i[index];
        let position = transform_mgr.position[transform_i];
        let min_pos = self.get_translated_min_pos(index, position);
        let max_pos = self.get_translated_max_pos(index, position);
        let other_model_i = self.model_i[other_index].unwrap();
        let other_model = &model_mgr.model[other_model_i];
        let ghost meshes = other_model.meshes@;
        let ghost goal = self.box_meets_mesh(
            index as int,
            other_index as int,
            transform_mgr.position@,
            model_mgr.model@,
        );
        assert(goal == any_vertex_within(meshes, min_pos, max_pos));
        let mut m: usize = 0;
        while m < other_model.meshes.len()
            invariant
                m <= other_model.meshes.len(),
                meshes == other_model.meshes@,
                goal == any_vertex_within(meshes, min_pos, max_pos),
                goal == self.box_meets_mesh(
                    index as int,
                    other_index as int,
                    transform_mgr.position@,
                    model_mgr.model@,
                ),
                forall|a: int, b: int|
                    0 <= a < m && 0 <= b < meshes[a].vertices.len() ==> !(
                    #[trigger] meshes[a].vertices[b]).within(min_pos, max_pos),
            decreases other_model.meshes.len() - m,
        {
            let mesh = &other_model.meshes[m];
            let mut v: usize = 0;
            while v < mesh.vertices.len()
                invariant
                    v <= mesh.vertices.len(),
                    m < meshes.len(),
                    *mesh == meshes[m as int],
                    goal == any_vertex_within(meshes, min_pos, max_pos),
                    goal == self.box_meets_mesh(
                        index as int,
                        other_index as int,
                        transform_mgr.position@,
                        model_mgr.model@,
                    ),
                    forall|b: int|
                        0 <= b < v ==> !(#[trigger] mesh.vertices[b]).within(min_pos, max_pos),
                decreases mesh.vertices.len() - v,
            {
                if mesh.vertices[v].is_within(min_pos, max_pos) {
                    assert(meshes[m as int].vertices[v as int].within(min_pos, max_pos));
                    return true;
                }
                v = v + 1;
            }
            m = m + 1;
        }
        false
    }

    /// Finds the partners of collider `index` and returns their record.
    /// An entry of `NO_COLLISION` names no partner.
    pub fn check_collisions<R: Copy>(
        &self,
        index: usize,
        transform_mgr: &TransformMgr<R>,
        model_mgr: &ModelMgr,
    ) -> (collisions: [isize; 4])
        requires
            self.wf(),
            self.linked(transform_mgr.position@.len(), model_mgr.model@.len()),
            index < self.count(),
        ensures
            collisions@ == record(
                self.partners(
                    index as int,
                    transform_mgr.position@,
                    model_mgr.model@,
                    self.count() as int,
                ),
            ),
    {
        let transform_i = self.transform_i[index];
        let position = transform_mgr.position[transform_i];
        let min_pos = self.get_translated_min_pos(index, position);
        let max_pos = self.get_translated_max_pos(index, position);
        let ghost positions = transform_mgr.position@;
        let ghost models = model_mgr.model@;

        let mut collisions: [isize; 4] = [NO_COLLISION, NO_COLLISION, NO_COLLISION, NO_COLLISION];
        let mut collisions_found: usize = 0;
        let n = self.len();
        let mut other_index: usize = 0;
        assert(collisions@ =~= record(self.partners(index as int, positions, models, 0)));
        while other_index < n && collisions_found < MAX_COLLISIONS
            invariant
                self.wf(),
                self.linked(positions.len(), models.len()),
                positions == transform_mgr.position@,
                models == model_mgr.model@,
                n == self.count(),
                index < n,
                other_index <= n,
                min_pos == self.world_min(index as int, positions),
                max_pos == self.world_max(index as int, positions),
                collisions_found == self.partners(
                    index as int,
                    positions,
                    models,
                    other_index as int,
                ).len(),
                collisions_found <= MAX_COLLISIONS,
                collisions@ == record(
                    self.partners(index as int, positions, models, other_index as int),
                ),
            decreases n - other_index,
        {
            let ghost before = self.partners(index as int, positions, models, other_index as int);
            let mut is_colliding = false;
            if index != other_index && self.is_collision_target[other_index] {
                let other_transform_i = self.transform_i[other_index];
                let other_position = transform_mgr.position[other_transform_i];
                let other_min_pos = self.get_translated_min_pos(other_index, other_position);
                let other_max_pos = self.get_translated_max_pos(other_index, other_position);
                if min_pos.x <= other_max_pos.x && max_pos.x >= other_min_pos.x && min_pos.y
                    <= other_max_pos.y && max_pos.y >= other_min_pos.y && min_pos.z
                    <= other_max_pos.z && max_pos.z >= other_min_pos.z {
                    is_colliding =
                    match (self.collider_type[index], self.collider_type[other_index]) {
                        (ColliderType::Box, ColliderType::Box) => true,
                        (ColliderType::Box, ColliderType::Vertex) => self.check_collision_box_mesh(
                            index,
                            other_index,
                            transform_mgr,
                            model_mgr,
                        ),
                        (ColliderType::Vertex, ColliderType::Box) => self.check_collision_box_mesh(
                            other_index,
                            index,
                            transform_mgr,
                            model_mgr,
                        ),
                        (ColliderType::Vertex, ColliderType::Vertex) => true,
                    };
                }
            }
            assert(is_colliding == self.is_partner(
                index as int,
                other_index as int,
                positions,
                models,
            ));
            if is_colliding {
                collisions[collisions_found] = other_index as isize;
                collisions_found = collisions_found + 1;
                assert(collisions@ =~= record(before.push(other_index as int)));
            }
            other_index = other_index + 1;
        }
        proof {
            self.lemma_partners_full(
                index as int,
                positions,
                models,
                other_index as int,
                n as int,
            );
        }
        collisions
    }

    /// Once `MAX_COLLISIONS` partners are found below `from`, looking further
    /// finds no more.
    pub proof fn lemma_partners_full(
        &self,
        i: int,
        positions: Seq<Vec3>,
        models: Seq<Model>,
        from: int,
        upto: int,
    )
        requires
            0 <= from <= upto,
            from == upto || self.partners(i, positions, models, from).len() >= MAX_COLLISIONS,
        ensures
            self.partners(i, positions, models, upto) == self.partners(i, positions, models, from),
        decreases upto - from,
    {
        if from < upto {
            self.lemma_partners_full(i, positions, models, from, upto - 1);
        }
    }

    /// Recomputes the collision record of every collider from the current
    /// positions: a collision source gets its partners, any other collider
    /// an empty record. Nothing else changes.
    pub fn update<R: Copy>(&mut self, transform_mgr: &TransformMgr<R>, model_mgr: &ModelMgr)
        requires
            old(self).wf(),
            old(self).linked(transform_mgr.position@.len(), model_mgr.model@.len()),
        ensures
            final(self).wf(),
            final(self).same_colliders(old(self)),
            forall|i: int|
                0 <= i < old(self).count() ==> (#[trigger] final(self).colliding_indices[i])@
                    == old(self).recorded(i, transform_mgr.position@, model_mgr.model@),
    {
        let n = self.len();
        let ghost positions = transform_mgr.position@;
        let ghost models = model_mgr.model@;
        let mut index: usize = 0;
        while index < n
            invariant
                index <= n,
                n == self.count(),
                self.wf(),
                self.same_colliders(old(self)),
                forall|i: int|
                    0 <= i < index ==> (#[trigger] self.colliding_indices[i])@ == record(
                        Seq::empty(),
                    ),
            decreases n - index,
        {
            let empty: [isize; 4] = [NO_COLLISION, NO_COLLISION, NO_COLLISION, NO_COLLISION];
            assert(empty@ =~= record(Seq::empty()));
            self.colliding_indices.set(index, empty);
            index = index + 1;
        }
        index = 0;
        while index < n
            invariant
                index <= n,
                n == self.count(),
                self.wf(),
                self.same_colliders(old(self)),
                positions == transform_mgr.position@,
                models == model_mgr.model@,
                self.linked(positions.len(), models.len()),
                forall|i: int|
                    0 <= i < index ==> (#[trigger] self.colliding_indices[i])@ == old(
                        self,
                    ).recorded(i, positions, models),
                forall|i: int|
                    index <= i < n ==> (#[trigger] self.colliding_indices[i])@ == record(
                        Seq::empty(),
                    ),
            decreases n - index,
        {
            if self.is_collision_source[index] {
                let found = self.check_collisions(index, transform_mgr, model_mgr);
                proof {
                    self.lemma_partners_same(old(self), index as int, positions, models, n as int);
                }
                self.colliding_indices.set(index, found);
            }
            index = index + 1;
        }
    }

    /// Partners depend on the colliders and not on the collision records.
    pub proof fn lemma_partners_same(
        &self,
        other: &ColliderMgr,
        i: int,
        positions: Seq<Vec3>,
        models: Seq<Model>,
        upto: int,
    )
        requires
            self.same_colliders(other),
        ensures
            self.partners(i, positions, models, upto) == other.partners(
                i,
                positions,
                models,
                upto,
            ),
        decreases upto,
    {
        if upto > 0 {
            self.lemma_partners_same(other, i, positions, models, upto - 1);
        }
    }

    /// A collider has at most `MAX_COLLISIONS` partners, each of them
    /// another collider below `upto` that is a collision target and collides
    /// with it, in rising order.
    pub proof fn law_partners_sound(
        &self,
        i: int,
        positions: Seq<Vec3>,
        models: Seq<Model>,
        upto: int,
    )
        ensures
            self.partners(i, positions, models, upto).len() <= MAX_COLLISIONS,
            forall|k: int|
                0 <= k < self.partners(i, positions, models, upto).len() ==> {
                    let j = #[trigger] self.partners(i, positions, models, upto)[k];
                    0 <= j < upto && self.is_partner(i, j, positions, models)
                },
            forall|k: int, l: int|
                0 <= k < l < self.partners(i, positions, models, upto).len() ==> self.partners(
                    i,
                    positions,
                    models,
                    upto,
                )[k] < self.partners(i, positions, models, upto)[l],
        decreases upto,
    {
        if upto > 0 {
            self.law_partners_sound(i, positions, models, upto - 1);
        }
    }

    /// Unless the record is full, no partner below `upto` is left out.
    pub proof fn law_partners_complete(
        &self,
        i: int,
        positions: Seq<Vec3>,
        models: Seq<Model>,
        upto: int,
        j: int,
    )
        requires
            0 <= j < upto,
            self.is_partner(i, j, positions, models),
            self.partners(i, positions, models, upto).len() < MAX_COLLISIONS,
        ensures
            self.partners(i, positions, models, upto).contains(j),
        decreases upto,
    {
        let before = self.partners(i, positions, models, upto - 1);
        let all = self.partners(i, positions, models, upto);
        if j == upto - 1 {
            assert(all == before.push(j));
            assert(all[before.len() as int] == j);
        } else {
            self.law_partners_complete(i, positions, models, upto - 1, j);
            let k = choose|k: int| 0 <= k < before.len() && before[k] == j;
            assert(all[k] == j);
        }
    }

    /// A collider with `MAX_COLLISIONS` or more partners below `upto` has
    /// exactly `MAX_COLLISIONS` of them recorded, however many more there are.
    pub proof fn law_record_full(
        &self,
        i: int,
        positions: Seq<Vec3>,
        models: Seq<Model>,
        upto: int,
        a: int,
        b: int,
        c: int,
        d: int,
    )
        requires
            0 <= a < b < c < d < upto,
            self.is_partner(i, a, positions, models),
            self.is_partner(i, b, positions, models),
            self.is_partner(i, c, positions, models),
            self.is_partner(i, d, positions, models),
        ensures
            self.partners(i, positions, models, upto).len() == MAX_COLLISIONS,
    {
        let found = self.partners(i, positions, models, upto);
        self.law_partners_sound(i, positions, models, upto);
        if found.len() < MAX_COLLISIONS {
            self.law_partners_complete(i, positions, models, upto, a);
            self.law_partners_complete(i, positions, models, upto, b);
            self.law_partners_complete(i, positions, models, upto, c);
            self.law_partners_complete(i, positions, models, upto, d);
            let ka = choose|k: int| 0 <= k < found.len() && found[k] == a;
            let kb = choose|k: int| 0 <= k < found.len() && found[k] == b;
            let kc = choose|k: int| 0 <= k < found.len() && found[k] == c;
            let kd = choose|k: int| 0 <= k < found.len() && found[k] == d;
            assert(ka != kb && ka != kc && ka != kd && kb != kc && kb != kd && kc != kd);
        }
    }

    /// A collider that is no collision source records nothing, whatever
    /// touches it. What a collision source records are collision targets
    /// other than itself, whether or not they are sources themselves.
    pub proof fn law_sources_record_targets(
        &self,
        i: int,
        positions: Seq<Vec3>,
        models: Seq<Model>,
    )
        requires
            self.wf(),
            0 <= i < self.count(),
        ensures
            !self.is_collision_source[i] ==> forall|k: int|
                0 <= k < MAX_COLLISIONS ==> #[trigger] self.recorded(i, positions, models)[k]
                    == NO_COLLISION,
            forall|k: int|
                0 <= k < MAX_COLLISIONS ==> {
                    let j = #[trigger] self.recorded(i, positions, models)[k];
                    j == NO_COLLISION || (0 <= j < self.count() && j != i
                        && self.is_collision_target[j as int] && self.collides(
                        i,
                        j as int,
                        positions,
                        models,
                    ))
                },
    {
        self.law_partners_sound(i, positions, models, self.count() as int);
        let found = self.partners(i, positions, models, self.count() as int);
        assert forall|k: int| 0 <= k < MAX_COLLISIONS implies {
            let j = #[trigger] self.recorded(i, positions, models)[k];
            j == NO_COLLISION || (0 <= j < self.count() && j != i
                && self.is_collision_target[j as int] && self.collides(
                i,
                j as int,
                positions,
                models,
            ))
        } by {
            if self.is_collision_source[i] && k < found.len() {
                let j = found[k];
                assert(0 <= j < self.count() && self.is_partner(i, j, positions, models));
                assert(self.recorded(i, positions, models)[k] == j as isize);
            }
        }
    }

    /// The number of partners that a record names: as many as were found,
    /// and never more than `MAX_COLLISIONS`.
    pub proof fn law_record_cap(found: Seq<int>)
        requires
            found.len() <= MAX_COLLISIONS,
            forall|k: int| 0 <= k < found.len() ==> 0 <= #[trigger] found[k] <= isize::MAX,
        ensures
            record(found).len() == MAX_COLLISIONS,
            forall|k: int|
                0 <= k < MAX_COLLISIONS ==> ((#[trigger] record(found)[k]) != NO_COLLISION <==> k
                    < found.len()),
    {
    }
}

} // verus!
