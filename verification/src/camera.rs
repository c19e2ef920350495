//! The world camera: field of view, aspect-dependent perspective projection
//! and a TRS pose whose inverse gives the view matrix.
//!
//! Convention: left-handed clip space with an infinite far plane; the near
//! plane sits at one tenth. `transform_model` composes
//! `Projection * inverse(Pose) * Model`, the same convention the internal
//! shaders expect.

use crate::fx::{
    clamp_spec, div_floor_nonneg, fx_clamp, fx_div, fx_div_spec, fx_mul, fx_mul_spec,
    lemma_scale_down_nonneg, FX_ONE,
};
use crate::mat::{
    lemma_bounded_widen, lemma_fields_bounded, lemma_fx_mul_bound, lemma_mat_mul_bounded,
    lemma_mul_identity_right, mat_mul, mat_mul_spec, trs_inverse, trs_inverse_spec, trs_mat_spec,
    Mat4, Quat, Vec3, Vec4, MAT_BIG_BOUND, MAT_SMALL_BOUND, MVP_BOUND, PROJ_BOUND, PV_BOUND,
    TRS_BOUND, VINV_BOUND,
};
use crate::transform::TransformComponent;
use vstd::arithmetic::div_mod::{
    lemma_div_is_ordered, lemma_div_is_ordered_by_denominator, lemma_div_pos_is_pos,
};
use vstd::prelude::*;

verus! {

/// Smallest accepted field of view (about three and a half degrees).
pub const FOV_MIN: i64 = 4096;

/// Largest accepted field of view (about 172 degrees).
pub const FOV_MAX: i64 = 196608;

/// Smallest accepted aspect ratio (one eighth).
pub const ASPECT_MIN: i64 = 8192;

/// Largest accepted aspect ratio (eight).
pub const ASPECT_MAX: i64 = 524288;

/// Near plane distance (one tenth).
pub const NEAR_PLANE: i64 = 6554;

/// Smallest focal length the projection uses (one sixteenth).
pub const FOCAL_MIN: i64 = 4096;

/// Largest focal length the projection uses (sixteen).
pub const FOCAL_MAX: i64 = 1048576;

/// Polynomial approximation of the sine on `[0, 3/2]`.
pub open spec fn sin_spec(x: int) -> int {
    let x2 = fx_mul_spec(x, x);
    let x3 = fx_mul_spec(x2, x);
    let x5 = fx_mul_spec(x3, x2);
    let x7 = fx_mul_spec(x5, x2);
    x - x3 / 6 + x5 / 120 - x7 / 5040
}

/// Polynomial approximation of the cosine on `[0, 3/2]`.
pub open spec fn cos_spec(x: int) -> int {
    let x2 = fx_mul_spec(x, x);
    let x4 = fx_mul_spec(x2, x2);
    let x6 = fx_mul_spec(x4, x2);
    FX_ONE - x2 / 2 + x4 / 24 - x6 / 720
}

/// The projection's focal length: the cotangent of half the field of view,
/// computed from the polynomial sine and cosine and clamped to
/// `[FOCAL_MIN, FOCAL_MAX]`.
pub open spec fn focal_spec(fov: int) -> int {
    let half = fov / 2;
    let s = sin_spec(half);
    let c = cos_spec(half);
    if s < 256 {
        FOCAL_MAX as int
    } else {
        clamp_spec(fx_div_spec(c, s), FOCAL_MIN as int, FOCAL_MAX as int)
    }
}

/// Left-handed perspective projection with an infinite far plane.
pub open spec fn perspective_spec(fov: int, aspect: int) -> Mat4 {
    let f = focal_spec(fov);
    Mat4 {
        c0: Vec4 { x: fx_div_spec(f, aspect) as i64, y: 0, z: 0, w: 0 },
        c1: Vec4 { x: 0, y: f as i64, z: 0, w: 0 },
        c2: Vec4 { x: 0, y: 0, z: FX_ONE, w: FX_ONE },
        c3: Vec4 { x: 0, y: 0, z: (-(NEAR_PLANE as int)) as i64, w: 0 },
    }
}

/// Power facts used by the polynomial sine and cosine.
proof fn lemma_trig_powers(x: int)
    requires
        0 <= x <= 103000,
    ensures
        0 <= fx_mul_spec(x, x) <= 162000,
        0 <= fx_mul_spec(fx_mul_spec(x, x), x) <= 410000,
        0 <= fx_mul_spec(fx_mul_spec(fx_mul_spec(x, x), x), fx_mul_spec(x, x)) <= 1020000,
        0 <= fx_mul_spec(
            fx_mul_spec(fx_mul_spec(fx_mul_spec(x, x), x), fx_mul_spec(x, x)),
            fx_mul_spec(x, x),
        ) <= 2530000,
        0 <= fx_mul_spec(fx_mul_spec(x, x), fx_mul_spec(x, x)) <= 410000,
        0 <= fx_mul_spec(fx_mul_spec(fx_mul_spec(x, x), fx_mul_spec(x, x)), fx_mul_spec(x, x))
            <= 1020000,
{
    let x2 = fx_mul_spec(x, x);
    lemma_fx_mul_bound(x, x, 103000, 103000);
    assert(0 <= x * x) by (nonlinear_arith)
        requires
            0 <= x,
    ;
    lemma_scale_down_nonneg(x * x);
    let x3 = fx_mul_spec(x2, x);
    lemma_fx_mul_bound(x2, x, 162000, 103000);
    assert(0 <= x2 * x) by (nonlinear_arith)
        requires
            0 <= x2 && 0 <= x,
    ;
    lemma_scale_down_nonneg(x2 * x);
    let x5 = fx_mul_spec(x3, x2);
    lemma_fx_mul_bound(x3, x2, 410000, 162000);
    assert(0 <= x3 * x2) by (nonlinear_arith)
        requires
            0 <= x3 && 0 <= x2,
    ;
    lemma_scale_down_nonneg(x3 * x2);
    let x7 = fx_mul_spec(x5, x2);
    lemma_fx_mul_bound(x5, x2, 1020000, 162000);
    assert(0 <= x5 * x2) by (nonlinear_arith)
        requires
            0 <= x5 && 0 <= x2,
    ;
    lemma_scale_down_nonneg(x5 * x2);
    let x4 = fx_mul_spec(x2, x2);
    lemma_fx_mul_bound(x2, x2, 162000, 162000);
    assert(0 <= x2 * x2) by (nonlinear_arith)
        requires
            0 <= x2,
    ;
    lemma_scale_down_nonneg(x2 * x2);
    let x6 = fx_mul_spec(x4, x2);
    lemma_fx_mul_bound(x4, x2, 410000, 162000);
    assert(0 <= x4 * x2) by (nonlinear_arith)
        requires
            0 <= x4 && 0 <= x2,
    ;
    lemma_scale_down_nonneg(x4 * x2);
}

/// The polynomial sine, exact per `sin_spec`.
pub fn sin_fx(x: i64) -> (r: i64)
    requires
        0 <= x <= 103000,
    ensures
        r == sin_spec(x as int),
        -70000 <= r <= 115000,
{
    proof {
        lemma_trig_powers(x as int);
    }
    let x2 = fx_mul(x, x);
    let x3 = fx_mul(x2, x);
    let x5 = fx_mul(x3, x2);
    let x7 = fx_mul(x5, x2);
    let t3 = div_floor_nonneg(x3, 6);
    let t5 = div_floor_nonneg(x5, 120);
    let t7 = div_floor_nonneg(x7, 5040);
    proof {
        lemma_div_is_ordered(x3 as int, 410000, 6);
        lemma_div_is_ordered(x5 as int, 1020000, 120);
        lemma_div_is_ordered(x7 as int, 2530000, 5040);
    }
    x - t3 + t5 - t7
}

/// The polynomial cosine, exact per `cos_spec`.
pub fn cos_fx(x: i64) -> (r: i64)
    requires
        0 <= x <= 103000,
    ensures
        r == cos_spec(x as int),
        -20000 <= r <= 85000,
{
    proof {
        lemma_trig_powers(x as int);
    }
    let x2 = fx_mul(x, x);
    let x4 = fx_mul(x2, x2);
    let x6 = fx_mul(x4, x2);
    let t2 = div_floor_nonneg(x2, 2);
    let t4 = div_floor_nonneg(x4, 24);
    let t6 = div_floor_nonneg(x6, 720);
    proof {
        lemma_div_is_ordered(x2 as int, 162000, 2);
        lemma_div_is_ordered(x4 as int, 410000, 24);
        lemma_div_is_ordered(x6 as int, 1020000, 720);
    }
    FX_ONE - t2 + t4 - t6
}

/// The focal length, exact per `focal_spec`.
pub fn focal_fx(fov: i64) -> (r: i64)
    requires
        FOV_MIN <= fov <= FOV_MAX,
    ensures
        r == focal_spec(fov as int),
        FOCAL_MIN <= r <= FOCAL_MAX,
{
    let half = div_floor_nonneg(fov, 2);
    let s = sin_fx(half);
    let c = cos_fx(half);
    if s < 256 {
        FOCAL_MAX
    } else {
        proof {
            if c >= 0 {
                lemma_div_is_ordered((c as int) * 65536, 85000int * 65536, s as int);
                lemma_div_is_ordered_by_denominator(85000int * 65536, 256, s as int);
                lemma_div_pos_is_pos((c as int) * 65536, s as int);
            } else {
                lemma_div_is_ordered((-(c as int)) * 65536, 85000int * 65536, s as int);
                lemma_div_is_ordered_by_denominator(85000int * 65536, 256, s as int);
                lemma_div_pos_is_pos((-(c as int)) * 65536, s as int);
            }
        }
        fx_clamp(fx_div(c, s), FOCAL_MIN, FOCAL_MAX)
    }
}

/// The perspective projection matrix, exact per `perspective_spec`.
pub fn perspective(fov: i64, aspect_ratio: i64) -> (m: Mat4)
    requires
        FOV_MIN <= fov <= FOV_MAX,
        ASPECT_MIN <= aspect_ratio <= ASPECT_MAX,
    ensures
        m == perspective_spec(fov as int, aspect_ratio as int),
        m.bounded(PROJ_BOUND as int),
{
    let f = focal_fx(fov);
    proof {
        lemma_div_is_ordered((f as int) * 65536, (FOCAL_MAX as int) * 65536int, aspect_ratio as int);
        lemma_div_is_ordered_by_denominator(
            (FOCAL_MAX as int) * 65536int,
            ASPECT_MIN as int,
            aspect_ratio as int,
        );
        lemma_div_pos_is_pos((f as int) * 65536, aspect_ratio as int);
    }
    let fa = fx_div(f, aspect_ratio);
    let m = Mat4 {
        c0: Vec4 { x: fa, y: 0, z: 0, w: 0 },
        c1: Vec4 { x: 0, y: f, z: 0, w: 0 },
        c2: Vec4 { x: 0, y: 0, z: FX_ONE, w: FX_ONE },
        c3: Vec4 { x: 0, y: 0, z: -NEAR_PLANE, w: 0 },
    };
    proof {
        assert(m =~= perspective_spec(fov as int, aspect_ratio as int));
        lemma_fields_bounded(m, PROJ_BOUND as int);
    }
    m
}

/// The camera resource: projection state plus a TRS pose.
#[derive(Clone, Copy, PartialEq, Eq, Structural, Debug)]
#[verifier::ext_equal]
pub struct CameraResource {
    pub fov: i64,
    pub projection: Mat4,
    pub translation: Vec3,
    pub rotation: Quat,
    pub scale: Vec3,
}

impl CameraResource {
    /// Well-formed: field of view in range, projection entries bounded,
    /// pose within the fixed-point working ranges.
    pub open spec fn wf(self) -> bool {
        &&& FOV_MIN <= self.fov <= FOV_MAX
        &&& self.projection.bounded(PROJ_BOUND as int)
        &&& crate::mat::trs_wf(self.translation, self.rotation, self.scale)
    }

    /// A camera at the origin looking down the positive z axis.
    pub fn new(fov: i64, aspect_ratio: i64) -> (c: CameraResource)
        requires
            FOV_MIN <= fov <= FOV_MAX,
            ASPECT_MIN <= aspect_ratio <= ASPECT_MAX,
        ensures
            c.wf(),
            c.fov == fov,
            c.projection == perspective_spec(fov as int, aspect_ratio as int),
            c.translation == Vec3::zero_spec(),
            c.rotation == Quat::identity_spec(),
            c.scale == Vec3::one_spec(),
    {
        CameraResource {
            fov,
            projection: perspective(fov, aspect_ratio),
            translation: Vec3::zero(),
            rotation: Quat::identity(),
            scale: Vec3::one(),
        }
    }

    /// What `resize` does: only the projection changes, recomputed from the
    /// stored field of view and the new aspect ratio.
    pub open spec fn resize_post(pre: CameraResource, post: CameraResource, aspect: int) -> bool {
        &&& post.fov == pre.fov
        &&& post.translation == pre.translation
        &&& post.rotation == pre.rotation
        &&& post.scale == pre.scale
        &&& post.projection == perspective_spec(pre.fov as int, aspect)
    }

    /// Recompute the projection for a new aspect ratio; the pose is untouched.
    pub fn resize(&mut self, aspect_ratio: i64)
        requires
            old(self).wf(),
            ASPECT_MIN <= aspect_ratio <= ASPECT_MAX,
        ensures
            final(self).wf(),
            CameraResource::resize_post(*old(self), *final(self), aspect_ratio as int),
    {
        self.projection = perspective(self.fov, aspect_ratio);
    }

    /// The model-view-projection matrix:
    /// `Projection * inverse(Pose) * Model`.
    pub open spec fn mvp_spec(self, model: TransformComponent) -> Mat4 {
        mat_mul_spec(
            mat_mul_spec(
                self.projection,
                trs_inverse_spec(self.translation, self.rotation, self.scale),
            ),
            trs_mat_spec(model.translation, model.rotation, model.scale),
        )
    }

    /// Compose this camera with a model transform, exact per `mvp_spec`.
    pub fn transform_model(&self, model: &TransformComponent) -> (m: Mat4)
        requires
            self.wf(),
            model.wf(),
        ensures
            m == self.mvp_spec(*model),
            m.bounded(MVP_BOUND as int),
    {
        let vinv = trs_inverse(&self.translation, &self.rotation, &self.scale);
        proof {
            lemma_bounded_widen(self.projection, PROJ_BOUND as int, MAT_SMALL_BOUND as int);
            lemma_bounded_widen(self.projection, PROJ_BOUND as int, MAT_BIG_BOUND as int);
            lemma_bounded_widen(vinv, VINV_BOUND as int, MAT_BIG_BOUND as int);
        }
        let pv = mat_mul(&self.projection, &vinv);
        proof {
            lemma_mat_mul_bounded(self.projection, vinv, PROJ_BOUND as int, VINV_BOUND as int);
            lemma_bounded_widen(pv, (4 * (PROJ_BOUND as int) * (VINV_BOUND as int)) / 65536,
                PV_BOUND as int);
            lemma_bounded_widen(pv, PV_BOUND as int, MAT_BIG_BOUND as int);
        }
        let mm = model.matrix();
        proof {
            lemma_bounded_widen(mm, TRS_BOUND as int, MAT_SMALL_BOUND as int);
            lemma_bounded_widen(mm, TRS_BOUND as int, MAT_BIG_BOUND as int);
        }
        let m = mat_mul(&pv, &mm);
        proof {
            lemma_mat_mul_bounded(pv, mm, PV_BOUND as int, TRS_BOUND as int);
            lemma_bounded_widen(m, (4 * (PV_BOUND as int) * (TRS_BOUND as int)) / 65536,
                MVP_BOUND as int);
        }
        m
    }
}

/// Resizing twice with the same aspect ratio gives the very camera a single
/// resize gives: recomputing the projection does not drift.
pub proof fn lemma_resize_idempotent(
    c0: CameraResource,
    c1: CameraResource,
    c2: CameraResource,
    aspect: int,
)
    requires
        CameraResource::resize_post(c0, c1, aspect),
        CameraResource::resize_post(c1, c2, aspect),
    ensures
        c2 == c1,
{
    assert(c2 =~= c1);
}

/// The identity transform's model matrix is the identity matrix.
pub proof fn lemma_trs_identity()
    ensures
        trs_mat_spec(Vec3::zero_spec(), Quat::identity_spec(), Vec3::one_spec())
            == Mat4::identity_spec(),
{
    crate::fx::lemma_scale_down_exact(0);
    crate::fx::lemma_scale_down_exact(65536);
    assert(fx_mul_spec(0, 0) == 0);
    assert(fx_mul_spec(65536, 0) == 0);
    assert(fx_mul_spec(0, 65536) == 0);
    assert(fx_mul_spec(65536, 65536) == 65536);
    assert(trs_mat_spec(Vec3::zero_spec(), Quat::identity_spec(), Vec3::one_spec())
        =~= Mat4::identity_spec());
}

/// The model-view-projection of the identity model transform is exactly
/// `Projection * inverse(Pose)`.
pub proof fn lemma_mvp_of_identity(c: CameraResource)
    ensures
        c.mvp_spec(TransformComponent::identity_spec()) == mat_mul_spec(
            c.projection,
            trs_inverse_spec(c.translation, c.rotation, c.scale),
        ),
{
    lemma_trs_identity();
    lemma_mul_identity_right(
        mat_mul_spec(c.projection, trs_inverse_spec(c.translation, c.rotation, c.scale)),
    );
}

} // verus!
