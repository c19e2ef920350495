//! The per-frame render system: one pass over the entities, one draw
//! call per entity, no sorting and no culling — depth testing resolves
//! overlap, so correctness does not depend on iteration order.
//!
//! The library builds the frame plan; a graphics backend executes it:
//! clear color and depth, depth test "closer fragments win" with depth
//! writes on, one draw per entry, then present. Submission failures are
//! the backend's to handle: the policy is to skip the rejected draw,
//! keep going, and always reach present.

use crate::cache::{has_live_id, owner_of, Handle};
use crate::camera::CameraResource;
use crate::draw::DrawComponent;
use crate::mat::{
    lemma_bounded_widen, lemma_mat_mul_bounded, mat_mul, mat_mul_spec, trs_inverse,
    trs_inverse_spec, trs_mat_spec, Mat4, Vec4, MAT_BIG_BOUND, MAT_SMALL_BOUND, MVP_BOUND,
    PROJ_BOUND, PV_BOUND, TRS_BOUND, VINV_BOUND,
};
use crate::resource_manager::ResourceManager;
use crate::resources::SunResource;
use crate::transform::TransformComponent;
use vstd::prelude::*;

verus! {

/// The depth test convention: closer fragments, smaller depth, win.
#[derive(Clone, Copy, PartialEq, Eq, Structural, Debug)]
pub enum DepthTest {
    IfLess,
}

/// One GPU submission: uniforms and resource handles for one entity.
#[derive(Clone, Copy, PartialEq, Eq, Structural, Debug)]
pub struct DrawCall {
    /// The combined model-view-projection matrix.
    pub mvp: Mat4,
    /// The entity's own model matrix.
    pub model_mat: Mat4,
    pub mesh: Handle,
    pub shader: Handle,
    pub texture: Handle,
    /// Issue an indexed draw; otherwise a triangle list over the raw
    /// vertex stream.
    pub indexed: bool,
}

/// A whole frame, ready for a backend to execute and present.
pub struct FramePlan {
    /// The camera matrix uniform: projection times inverse pose.
    pub camera_mat: Mat4,
    /// The light position uniform.
    pub light_pos: Vec4,
    /// The depth convention the backend must configure.
    pub depth_test: DepthTest,
    pub draws: Vec<DrawCall>,
}

/// Whether the mesh behind a live handle carries an index buffer.
pub open spec fn mesh_indexed_spec(manager: ResourceManager, h: Handle) -> bool {
    manager.meshes.table()[owner_of(manager.meshes.table(), h.id as int)].data->0.indices is Some
}

/// Build the frame plan: for every entity with a transform and a draw
/// component, in input order, one draw call whose matrices are exactly
/// the camera composition of that entity's transform.
pub fn build_frame(
    camera: &CameraResource,
    sun: &SunResource,
    entities: &Vec<(TransformComponent, DrawComponent)>,
    manager: &ResourceManager,
) -> (r: FramePlan)
    requires
        camera.wf(),
        manager.wf(),
        forall|i: int|
            0 <= i < entities@.len() ==> {
                &&& (#[trigger] entities@[i]).0.wf()
                &&& has_live_id(manager.meshes.table(), entities@[i].1.mesh.id as int)
            },
    ensures
        r.camera_mat == mat_mul_spec(
            camera.projection,
            trs_inverse_spec(camera.translation, camera.rotation, camera.scale),
        ),
        r.camera_mat.bounded(PV_BOUND as int),
        r.light_pos == sun.0,
        r.depth_test == DepthTest::IfLess,
        r.draws@.len() == entities@.len(),
        forall|i: int|
            0 <= i < entities@.len() ==> {
                &&& (#[trigger] r.draws@[i]).mesh == entities@[i].1.mesh
                &&& r.draws@[i].shader == entities@[i].1.shader
                &&& r.draws@[i].texture == entities@[i].1.texture
                &&& r.draws@[i].model_mat == trs_mat_spec(
                    entities@[i].0.translation,
                    entities@[i].0.rotation,
                    entities@[i].0.scale,
                )
                &&& r.draws@[i].mvp == camera.mvp_spec(entities@[i].0)
                &&& r.draws@[i].mvp.bounded(MVP_BOUND as int)
                &&& r.draws@[i].indexed == mesh_indexed_spec(*manager, entities@[i].1.mesh)
            },
{
    let vinv = trs_inverse(&camera.translation, &camera.rotation, &camera.scale);
    proof {
        lemma_bounded_widen(camera.projection, PROJ_BOUND as int, MAT_SMALL_BOUND as int);
        lemma_bounded_widen(camera.projection, PROJ_BOUND as int, MAT_BIG_BOUND as int);
        lemma_bounded_widen(vinv, VINV_BOUND as int, MAT_BIG_BOUND as int);
    }
    let pv = mat_mul(&camera.projection, &vinv);
    proof {
        lemma_mat_mul_bounded(camera.projection, vinv, PROJ_BOUND as int, VINV_BOUND as int);
        lemma_bounded_widen(
            pv,
            (4 * (PROJ_BOUND as int) * (VINV_BOUND as int)) / 65536,
            PV_BOUND as int,
        );
        lemma_bounded_widen(pv, PV_BOUND as int, MAT_BIG_BOUND as int);
    }
    let mut draws: Vec<DrawCall> = Vec::new();
    let n = entities.len();
    let mut i: usize = 0;
    while i < n
        invariant
            camera.wf(),
            manager.wf(),
            n == entities@.len(),
            0 <= i <= n,
            pv == mat_mul_spec(
                camera.projection,
                trs_inverse_spec(camera.translation, camera.rotation, camera.scale),
            ),
            pv.bounded(PV_BOUND as int),
            pv.bounded(MAT_BIG_BOUND as int),
            forall|j: int|
                0 <= j < n ==> {
                    &&& (#[trigger] entities@[j]).0.wf()
                    &&& has_live_id(manager.meshes.table(), entities@[j].1.mesh.id as int)
                },
            draws@.len() == i,
            forall|j: int|
                0 <= j < i ==> {
                    &&& (#[trigger] draws@[j]).mesh == entities@[j].1.mesh
                    &&& draws@[j].shader == entities@[j].1.shader
                    &&& draws@[j].texture == entities@[j].1.texture
                    &&& draws@[j].model_mat == trs_mat_spec(
                        entities@[j].0.translation,
                        entities@[j].0.rotation,
                        entities@[j].0.scale,
                    )
                    &&& draws@[j].mvp == camera.mvp_spec(entities@[j].0)
                    &&& draws@[j].mvp.bounded(MVP_BOUND as int)
                    &&& draws@[j].indexed == mesh_indexed_spec(*manager, entities@[j].1.mesh)
                },
        decreases n - i,
    {
        let transform = &entities[i].0;
        let dc = &entities[i].1;
        let mm = transform.matrix();
        proof {
            lemma_bounded_widen(mm, TRS_BOUND as int, MAT_SMALL_BOUND as int);
            lemma_bounded_widen(mm, TRS_BOUND as int, MAT_BIG_BOUND as int);
        }
        let mvp = mat_mul(&pv, &mm);
        proof {
            lemma_mat_mul_bounded(pv, mm, PV_BOUND as int, TRS_BOUND as int);
            lemma_bounded_widen(
                mvp,
                (4 * (PV_BOUND as int) * (TRS_BOUND as int)) / 65536,
                MVP_BOUND as int,
            );
        }
        let indexed: bool = match manager.get_mesh(dc.mesh) {
            Some(mesh) => mesh.indices.is_some(),
            None => false,
        };
        draws.push(
            DrawCall {
                mvp,
                model_mat: mm,
                mesh: dc.mesh,
                shader: dc.shader,
                texture: dc.texture,
                indexed,
            },
        );
        i = i + 1;
    }
    FramePlan { camera_mat: pv, light_pos: sun.0, depth_test: DepthTest::IfLess, draws }
}

} // verus!
