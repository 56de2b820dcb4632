//! The ground: one static entity that others collide with.
use vstd::prelude::*;
use crate::collider::{record, ColliderError, ColliderMgr, ColliderType};
use crate::model::ModelMgr;
use crate::transform::TransformMgr;
use crate::vector::Vec3;

verus! {

/// The terrain's references into the stores.
pub struct Terrain {
    pub transform_i: usize,
    pub collider_i: usize,
    pub mesh_renderer_i: usize,
}

impl Terrain {
    /// Places the terrain with the geometry of model `model_i`: a new
    /// transform, and a collider on it that is tested per vertex and is a
    /// collision target only. `mesh_renderer_i` is its renderable.
    ///
    /// The terrain is refused where its collider is; a refusal changes
    /// nothing.
    pub fn new<R: Copy>(
        model_i: usize,
        position: Vec3,
        rotation: R,
        transform_mgr: &mut TransformMgr<R>,
        collider_mgr: &mut ColliderMgr,
        model_mgr: &ModelMgr,
        mesh_renderer_i: usize,
    ) -> (r: Result<Terrain, ColliderError>)
        requires
            old(transform_mgr).wf(),
            old(collider_mgr).wf(),
            model_i < model_mgr.model.len(),
        ensures
            final(transform_mgr).wf(),
            final(collider_mgr).wf(),
            r.is_ok() <==> model_mgr.model[model_i as int].bounded() && old(collider_mgr).count()
                < isize::MAX,
            r matches Err(e) ==> {
                &&& e == ColliderError::InvertedBounds
                    <==> !model_mgr.model[model_i as int].bounded()
                &&& *final(transform_mgr) == *old(transform_mgr)
                &&& *final(collider_mgr) == *old(collider_mgr)
            },
            r matches Ok(terrain) ==> {
                &&& terrain.transform_i == old(transform_mgr).position.len()
                &&& terrain.collider_i == old(collider_mgr).count()
                &&& terrain.mesh_renderer_i == mesh_renderer_i
                &&& final(transform_mgr).position@ == old(transform_mgr).position@.push(position)
                &&& final(transform_mgr).rotation@ == old(transform_mgr).rotation@.push(rotation)
                &&& final(collider_mgr).count() == old(collider_mgr).count() + 1
                &&& final(collider_mgr).bounding_box_min@ == old(
                    collider_mgr,
                ).bounding_box_min@.push(model_mgr.model[model_i as int].min)
                &&& final(collider_mgr).bounding_box_max@ == old(
                    collider_mgr,
                ).bounding_box_max@.push(model_mgr.model[model_i as int].max)
                &&& final(collider_mgr).collider_type@ == old(collider_mgr).collider_type@.push(
                    ColliderType::Vertex,
                )
                &&& final(collider_mgr).is_collision_source@ == old(
                    collider_mgr,
                ).is_collision_source@.push(false)
                &&& final(collider_mgr).is_collision_target@ == old(
                    collider_mgr,
                ).is_collision_target@.push(true)
                &&& final(collider_mgr).transform_i@ == old(collider_mgr).transform_i@.push(
                    terrain.transform_i,
                )
                &&& final(collider_mgr).model_i@ == old(collider_mgr).model_i@.push(Some(model_i))
                &&& final(collider_mgr).should_render_bounding_box@ == old(
                    collider_mgr,
                ).should_render_bounding_box@.push(false)
                &&& final(collider_mgr).colliding_indices@.len() == old(collider_mgr).count() + 1
                &&& final(collider_mgr).colliding_indices@.drop_last() == old(
                    collider_mgr,
                ).colliding_indices@
                &&& final(collider_mgr).colliding_indices@.last()@ == record(Seq::empty())
            },
    {
        let model = &model_mgr.model[model_i];
        if !(model.min.x <= model.max.x && model.min.y <= model.max.y && model.min.z
            <= model.max.z) {
            return Err(ColliderError::InvertedBounds);
        }
        if collider_mgr.len() >= isize::MAX as usize {
            return Err(ColliderError::Full);
        }
        let transform_i = transform_mgr.add(position, rotation);
        let collider = collider_mgr.add_from_model(
            model_i,
            transform_i,
            ColliderType::Vertex,
            false,
            true,
            false,
            transform_mgr,
            model_mgr,
        );
        let collider_i = collider.unwrap();
        Ok(Terrain { transform_i, collider_i, mesh_renderer_i })
    }
}

} // verus!
