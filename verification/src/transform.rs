//! Per-entity spatial transforms: translation, rotation and non-uniform
//! scale, composing to a model matrix by standard TRS composition.

use crate::mat::{
    trs_mat_spec, trs_matrix, trs_wf, Mat4, Quat, Vec3, TRANS_BOUND, TRS_BOUND,
};
use vstd::prelude::*;

verus! {

/// An entity's model transform.
#[derive(Clone, Copy, PartialEq, Eq, Structural, Debug)]
#[verifier::ext_equal]
pub struct TransformComponent {
    pub translation: Vec3,
    pub rotation: Quat,
    pub scale: Vec3,
}

impl TransformComponent {
    /// Well-formed: all components within the fixed-point working ranges.
    pub open spec fn wf(self) -> bool {
        trs_wf(self.translation, self.rotation, self.scale)
    }

    /// The transform that leaves a model where it is.
    pub open spec fn identity_spec() -> TransformComponent {
        TransformComponent {
            translation: Vec3::zero_spec(),
            rotation: Quat::identity_spec(),
            scale: Vec3::one_spec(),
        }
    }

    pub fn new() -> (t: TransformComponent)
        ensures
            t == TransformComponent::identity_spec(),
            t.wf(),
    {
        TransformComponent {
            translation: Vec3::zero(),
            rotation: Quat::identity(),
            scale: Vec3::one(),
        }
    }

    /// A transform that only moves the model to `(x, y, z)`.
    pub fn from_position(x: i64, y: i64, z: i64) -> (t: TransformComponent)
        requires
            -TRANS_BOUND <= x <= TRANS_BOUND,
            -TRANS_BOUND <= y <= TRANS_BOUND,
            -TRANS_BOUND <= z <= TRANS_BOUND,
        ensures
            t.translation == (Vec3 { x, y, z }),
            t.rotation == Quat::identity_spec(),
            t.scale == Vec3::one_spec(),
            t.wf(),
    {
        TransformComponent {
            translation: Vec3 { x, y, z },
            rotation: Quat::identity(),
            scale: Vec3::one(),
        }
    }

    /// The model matrix of this transform.
    pub fn matrix(&self) -> (m: Mat4)
        requires
            self.wf(),
        ensures
            m == trs_mat_spec(self.translation, self.rotation, self.scale),
            m.bounded(TRS_BOUND as int),
    {
        trs_matrix(&self.translation, &self.rotation, &self.scale)
    }
}

} // verus!
