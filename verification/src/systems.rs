//! Per-tick gameplay systems: camera look and movement, the close flag,
//! and the demo spin. Each is a pure decision function from resource
//! state to resource state; the frame loop outside runs them in order
//! before the render system reads their output.

use crate::camera::{cos_spec, sin_spec, CameraResource};
use crate::fx::{
    clamp_spec, div_floor_nonneg, fx_clamp, fx_div, fx_div_spec, fx_mul, fx_mul_spec, int_sqrt,
    isqrt64, lemma_fx_div_bound, lemma_scale_down_nonneg, FX_ONE,
};
use crate::input::{InputResource, KEY_A, KEY_D, KEY_E, KEY_Q, KEY_S, KEY_W, KEY_ESCAPE};
use crate::mat::{
    lemma_fx_mul_bound, quat_bounded, quat_mul, quat_mul_spec, quat_normalize_or_identity,
    quat_normalize_spec, trs_mat_spec, trs_matrix, Quat, Vec3, TRANS_BOUND,
};
use crate::resources::ExitResource;
use crate::time::TimerResource;
use crate::transform::TransformComponent;
use vstd::prelude::*;

verus! {

/// Pi in 16.16 fixed point.
pub const PI_FX: i64 = 205887;

/// Half pi in 16.16 fixed point.
pub const HALF_PI_FX: i64 = 102943;

/// Two pi in 16.16 fixed point.
pub const TWO_PI_FX: i64 = 411774;

/// Radians of camera turn per fixed-point unit of mouse travel.
pub const CAMERA_SENS: i64 = 66;

/// Camera speed: five units per second.
pub const CAMERA_SPEED: i64 = 327680;

/// Demo spin rate: a quarter-pi-ish turn per second (45 degrees).
pub const SPIN_RATE: i64 = 51472;

/// An angle folded into `[-pi, pi)`.
pub open spec fn wrap_spec(a: int) -> int {
    (a + PI_FX) % (TWO_PI_FX as int) - PI_FX
}

/// Fold an angle into `[-pi, pi)`, exact per `wrap_spec`.
pub fn wrap_angle(a: i64) -> (r: i64)
    requires
        -0x4000_0000 <= a <= 0x4000_0000,
    ensures
        r == wrap_spec(a as int),
        -PI_FX <= r < PI_FX,
{
    let t: i64 = a + PI_FX;
    let shifted: i64 = t + TWO_PI_FX * 4096;
    proof {
        vstd::arithmetic::div_mod::lemma_mod_multiples_vanish(
            4096,
            t as int,
            TWO_PI_FX as int,
        );
        vstd::arithmetic::div_mod::lemma_mod_division_less_than_divisor(
            shifted as int,
            TWO_PI_FX as int,
        );
    }
    let m: u64 = (shifted as u64) % (TWO_PI_FX as u64);
    (m as i64) - PI_FX
}

/// Half an angle, rounded toward zero.
pub open spec fn halve_spec(a: int) -> int {
    if a >= 0 {
        a / 2
    } else {
        -((-a) / 2)
    }
}

/// Half an angle, exact per `halve_spec`.
pub fn halve(a: i64) -> (r: i64)
    requires
        i64::MIN < a,
    ensures
        r == halve_spec(a as int),
        -a <= 2 * r <= a || a <= 2 * r <= -a,
{
    if a >= 0 {
        div_floor_nonneg(a, 2)
    } else {
        proof {
            vstd::arithmetic::div_mod::lemma_div_nonincreasing(-(a as int), 2);
            vstd::arithmetic::div_mod::lemma_div_pos_is_pos(-(a as int), 2);
        }
        -(((-(a as i128)) as u64 / 2) as i64)
    }
}

/// The sine extended to negative angles (odd symmetry).
pub open spec fn sin_signed_spec(x: int) -> int {
    if x >= 0 {
        sin_spec(x)
    } else {
        -sin_spec(-x)
    }
}

/// The cosine extended to negative angles (even symmetry).
pub open spec fn cos_signed_spec(x: int) -> int {
    if x >= 0 {
        cos_spec(x)
    } else {
        cos_spec(-x)
    }
}

/// The signed sine, exact per `sin_signed_spec`.
pub fn sin_signed(x: i64) -> (r: i64)
    requires
        -103000 <= x <= 103000,
    ensures
        r == sin_signed_spec(x as int),
        -115000 <= r <= 115000,
{
    if x >= 0 {
        crate::camera::sin_fx(x)
    } else {
        -crate::camera::sin_fx(-x)
    }
}

/// The signed cosine, exact per `cos_signed_spec`.
pub fn cos_signed(x: i64) -> (r: i64)
    requires
        -103000 <= x <= 103000,
    ensures
        r == cos_signed_spec(x as int),
        -20000 <= r <= 85000,
{
    if x >= 0 {
        crate::camera::cos_fx(x)
    } else {
        crate::camera::cos_fx(-x)
    }
}

/// The rotation about the x axis by `angle` (components clamped to one).
pub open spec fn quat_about_x_spec(angle: int) -> Quat {
    let half = halve_spec(angle);
    Quat {
        x: clamp_spec(sin_signed_spec(half), -65536, 65536) as i64,
        y: 0,
        z: 0,
        w: clamp_spec(cos_signed_spec(half), -65536, 65536) as i64,
    }
}

/// The rotation about the y axis by `angle` (components clamped to one).
pub open spec fn quat_about_y_spec(angle: int) -> Quat {
    let half = halve_spec(angle);
    Quat {
        x: 0,
        y: clamp_spec(sin_signed_spec(half), -65536, 65536) as i64,
        z: 0,
        w: clamp_spec(cos_signed_spec(half), -65536, 65536) as i64,
    }
}

/// Rotation about the x axis, exact per `quat_about_x_spec`.
pub fn quat_about_x(angle: i64) -> (q: Quat)
    requires
        -206000 <= angle <= 206000,
    ensures
        q == quat_about_x_spec(angle as int),
        quat_bounded(q),
{
    let half = halve(angle);
    Quat {
        x: fx_clamp(sin_signed(half), -FX_ONE, FX_ONE),
        y: 0,
        z: 0,
        w: fx_clamp(cos_signed(half), -FX_ONE, FX_ONE),
    }
}

/// Rotation about the y axis, exact per `quat_about_y_spec`.
pub fn quat_about_y(angle: i64) -> (q: Quat)
    requires
        -206000 <= angle <= 206000,
    ensures
        q == quat_about_y_spec(angle as int),
        quat_bounded(q),
{
    let half = halve(angle);
    Quat {
        x: 0,
        y: fx_clamp(sin_signed(half), -FX_ONE, FX_ONE),
        z: 0,
        w: fx_clamp(cos_signed(half), -FX_ONE, FX_ONE),
    }
}

/// The camera orientation for a yaw (about y) and pitch (about x):
/// yaw applied after pitch, normalized.
pub open spec fn quat_from_yaw_pitch_spec(yaw: int, pitch: int) -> Quat {
    quat_normalize_spec(quat_mul_spec(quat_about_y_spec(yaw), quat_about_x_spec(pitch)))
}

/// The yaw-pitch orientation, exact per `quat_from_yaw_pitch_spec`.
pub fn quat_from_yaw_pitch(yaw: i64, pitch: i64) -> (q: Quat)
    requires
        -206000 <= yaw <= 206000,
        -206000 <= pitch <= 206000,
    ensures
        q == quat_from_yaw_pitch_spec(yaw as int, pitch as int),
        quat_bounded(q),
{
    let qy = quat_about_y(yaw);
    let qx = quat_about_x(pitch);
    let m = quat_mul(&qy, &qx);
    quat_normalize_or_identity(&m)
}

/// A per-tick delta in nanoseconds as fixed-point seconds.
pub open spec fn dt_fx_spec(nanos: int) -> int {
    nanos * 65536 / 1000000000
}

/// Convert a capped delta to fixed-point seconds, exact per `dt_fx_spec`.
pub fn nanos_to_fx(nanos: u64) -> (r: i64)
    requires
        nanos <= 1_000_000_000,
    ensures
        r == dt_fx_spec(nanos as int),
        0 <= r <= 65536,
{
    proof {
        vstd::arithmetic::div_mod::lemma_div_is_ordered(
            nanos as int * 65536,
            1_000_000_000int * 65536,
            1000000000,
        );
        vstd::arithmetic::div_mod::lemma_div_multiples_vanish(65536, 1000000000);
        vstd::arithmetic::div_mod::lemma_div_pos_is_pos(nanos as int * 65536, 1000000000);
    }
    ((nanos * 65536) / 1000000000) as i64
}

/// The axis value a pair of keys produces: plus one, minus one, or zero.
pub open spec fn key_axis_spec(input: InputResource, plus: u32, minus: u32) -> int {
    (if input.keys()[plus as int] {
        65536int
    } else {
        0int
    }) - (if input.keys()[minus as int] {
        65536int
    } else {
        0int
    })
}

/// The raw movement direction the held keys ask for.
pub open spec fn key_dir_spec(input: InputResource) -> (int, int, int) {
    (
        key_axis_spec(input, KEY_D, KEY_A),
        key_axis_spec(input, KEY_E, KEY_Q),
        key_axis_spec(input, KEY_W, KEY_S),
    )
}

/// A direction rotated by the orientation `q` (the rotation part of the
/// TRS matrix applied to the vector).
pub open spec fn rotate_dir_spec(q: Quat, v: (int, int, int)) -> (int, int, int) {
    let m = trs_mat_spec(Vec3::zero_spec(), q, Vec3::one_spec());
    (
        fx_mul_spec(m.c0.x as int, v.0) + fx_mul_spec(m.c1.x as int, v.1) + fx_mul_spec(
            m.c2.x as int,
            v.2,
        ),
        fx_mul_spec(m.c0.y as int, v.0) + fx_mul_spec(m.c1.y as int, v.1) + fx_mul_spec(
            m.c2.y as int,
            v.2,
        ),
        fx_mul_spec(m.c0.z as int, v.0) + fx_mul_spec(m.c1.z as int, v.1) + fx_mul_spec(
            m.c2.z as int,
            v.2,
        ),
    )
}

/// A direction scaled back to unit length (components clamped to one);
/// the zero direction stays zero.
pub open spec fn normalize_dir_spec(v: (int, int, int)) -> (int, int, int) {
    let m2 = fx_mul_spec(v.0, v.0) + fx_mul_spec(v.1, v.1) + fx_mul_spec(v.2, v.2);
    let n = int_sqrt(m2 * 65536);
    if n <= 0 {
        (0int, 0int, 0int)
    } else {
        (
            clamp_spec(fx_div_spec(v.0, n), -65536, 65536),
            clamp_spec(fx_div_spec(v.1, n), -65536, 65536),
            clamp_spec(fx_div_spec(v.2, n), -65536, 65536),
        )
    }
}

/// One translation component stepped along the movement direction and
/// kept within the camera's working range.
pub open spec fn step_spec(t: int, dir: int, dt_nanos: int) -> int {
    clamp_spec(
        t + fx_mul_spec(fx_mul_spec(dir, CAMERA_SPEED as int), dt_fx_spec(dt_nanos)),
        -TRANS_BOUND as int,
        TRANS_BOUND as int,
    )
}

/// The camera translation after one movement tick with orientation `q`.
pub open spec fn camera_move_spec(
    camera: CameraResource,
    q: Quat,
    input: InputResource,
    dt_nanos: int,
) -> Vec3 {
    let dir = normalize_dir_spec(rotate_dir_spec(q, key_dir_spec(input)));
    Vec3 {
        x: step_spec(camera.translation.x as int, dir.0, dt_nanos) as i64,
        y: step_spec(camera.translation.y as int, dir.1, dt_nanos) as i64,
        z: step_spec(camera.translation.z as int, dir.2, dt_nanos) as i64,
    }
}

/// The free-look camera system: mouse motion turns the camera (pitch
/// clamped to straight up and down), held keys move it along its own
/// axes at a fixed speed.
#[derive(Clone, Copy, PartialEq, Eq, Structural, Debug)]
pub struct CameraSystem {
    pub yaw: i64,
    pub pitch: i64,
}

impl Default for CameraSystem {
    /// Level and centered.
    fn default() -> (s: CameraSystem)
        ensures
            s.yaw == 0 && s.pitch == 0,
    {
        CameraSystem { yaw: 0, pitch: 0 }
    }
}

impl CameraSystem {
    /// Yaw wrapped, pitch clamped.
    pub open spec fn wf(self) -> bool {
        &&& -PI_FX <= self.yaw <= PI_FX
        &&& -HALF_PI_FX <= self.pitch <= HALF_PI_FX
    }

    /// The yaw after one tick's mouse travel, wrapped into `[-pi, pi)`.
    pub open spec fn yaw_after(self, input: InputResource) -> int {
        wrap_spec(self.yaw + fx_mul_spec(input.mouse_dx as int, CAMERA_SENS as int))
    }

    /// The pitch after one tick's mouse travel, clamped to half pi.
    pub open spec fn pitch_after(self, input: InputResource) -> int {
        clamp_spec(
            self.pitch + fx_mul_spec(input.mouse_dy as int, CAMERA_SENS as int),
            -HALF_PI_FX as int,
            HALF_PI_FX as int,
        )
    }

    /// One camera tick: update yaw and pitch from the mouse delta,
    /// recompute the orientation, then move along the held keys'
    /// direction; projection, field of view and scale are untouched.
    pub fn run(
        &mut self,
        camera: &mut CameraResource,
        input: &InputResource,
        timer: &TimerResource,
    )
        requires
            old(self).wf(),
            old(camera).wf(),
            input.wf(),
            timer.wf(),
            timer.max_duration_nanos <= 1_000_000_000,
        ensures
            final(self).wf(),
            final(camera).wf(),
            final(self).yaw == old(self).yaw_after(*input),
            final(self).pitch == old(self).pitch_after(*input),
            final(camera).rotation == quat_from_yaw_pitch_spec(
                final(self).yaw as int,
                final(self).pitch as int,
            ),
            final(camera).translation == camera_move_spec(
                *old(camera),
                final(camera).rotation,
                *input,
                timer.dt_nanos as int,
            ),
            final(camera).fov == old(camera).fov,
            final(camera).projection == old(camera).projection,
            final(camera).scale == old(camera).scale,
    {
        let (mdx, mdy) = input.get_mouse_delta();
        proof {
            lemma_fx_mul_bound(mdx as int, CAMERA_SENS as int, 0x2_0000_0000, 66);
            lemma_fx_mul_bound(mdy as int, CAMERA_SENS as int, 0x2_0000_0000, 66);
        }
        self.yaw = wrap_angle(self.yaw + fx_mul(mdx, CAMERA_SENS));
        self.pitch = fx_clamp(
            self.pitch + fx_mul(mdy, CAMERA_SENS),
            -HALF_PI_FX,
            HALF_PI_FX,
        );
        camera.rotation = quat_from_yaw_pitch(self.yaw, self.pitch);

        let vx = key_axis(input, KEY_D, KEY_A);
        let vy = key_axis(input, KEY_E, KEY_Q);
        let vz = key_axis(input, KEY_W, KEY_S);
        let m = trs_matrix(&Vec3::zero(), &camera.rotation, &Vec3::one());
        proof {
            crate::mat::lemma_bounded_fields(m, crate::mat::TRS_BOUND as int);
            lemma_fx_mul_bound(m.c0.x as int, vx as int, 0x40_0000, 65536);
            lemma_fx_mul_bound(m.c1.x as int, vy as int, 0x40_0000, 65536);
            lemma_fx_mul_bound(m.c2.x as int, vz as int, 0x40_0000, 65536);
            lemma_fx_mul_bound(m.c0.y as int, vx as int, 0x40_0000, 65536);
            lemma_fx_mul_bound(m.c1.y as int, vy as int, 0x40_0000, 65536);
            lemma_fx_mul_bound(m.c2.y as int, vz as int, 0x40_0000, 65536);
            lemma_fx_mul_bound(m.c0.z as int, vx as int, 0x40_0000, 65536);
            lemma_fx_mul_bound(m.c1.z as int, vy as int, 0x40_0000, 65536);
            lemma_fx_mul_bound(m.c2.z as int, vz as int, 0x40_0000, 65536);
        }
        let dx = fx_mul(m.c0.x, vx) + fx_mul(m.c1.x, vy) + fx_mul(m.c2.x, vz);
        let dy = fx_mul(m.c0.y, vx) + fx_mul(m.c1.y, vy) + fx_mul(m.c2.y, vz);
        let dz = fx_mul(m.c0.z, vx) + fx_mul(m.c1.z, vy) + fx_mul(m.c2.z, vz);
        let (nx, ny, nz) = normalize_dir(dx, dy, dz);

        let dt = nanos_to_fx(timer.get_dt_nanos());
        proof {
            lemma_fx_mul_bound(nx as int, CAMERA_SPEED as int, 65536, 327680);
            lemma_fx_mul_bound(ny as int, CAMERA_SPEED as int, 65536, 327680);
            lemma_fx_mul_bound(nz as int, CAMERA_SPEED as int, 65536, 327680);
            lemma_fx_mul_bound(fx_mul_spec(nx as int, CAMERA_SPEED as int), dt as int, 327680,
                65536);
            lemma_fx_mul_bound(fx_mul_spec(ny as int, CAMERA_SPEED as int), dt as int, 327680,
                65536);
            lemma_fx_mul_bound(fx_mul_spec(nz as int, CAMERA_SPEED as int), dt as int, 327680,
                65536);
        }
        camera.translation = Vec3 {
            x: fx_clamp(
                camera.translation.x + fx_mul(fx_mul(nx, CAMERA_SPEED), dt),
                -TRANS_BOUND,
                TRANS_BOUND,
            ),
            y: fx_clamp(
                camera.translation.y + fx_mul(fx_mul(ny, CAMERA_SPEED), dt),
                -TRANS_BOUND,
                TRANS_BOUND,
            ),
            z: fx_clamp(
                camera.translation.z + fx_mul(fx_mul(nz, CAMERA_SPEED), dt),
                -TRANS_BOUND,
                TRANS_BOUND,
            ),
        };
    }
}

/// The axis value a pair of keys produces, exact per `key_axis_spec`.
pub fn key_axis(input: &InputResource, plus: u32, minus: u32) -> (r: i64)
    requires
        input.wf(),
        plus < 256,
        minus < 256,
    ensures
        r == key_axis_spec(*input, plus, minus),
        -65536 <= r <= 65536,
{
    let p: i64 = if input.key_pressed(plus) {
        FX_ONE
    } else {
        0
    };
    let m: i64 = if input.key_pressed(minus) {
        FX_ONE
    } else {
        0
    };
    p - m
}

/// Scale a direction back to unit length, exact per `normalize_dir_spec`.
pub fn normalize_dir(x: i64, y: i64, z: i64) -> (r: (i64, i64, i64))
    requires
        -0x100_0000 <= x <= 0x100_0000,
        -0x100_0000 <= y <= 0x100_0000,
        -0x100_0000 <= z <= 0x100_0000,
    ensures
        (r.0 as int, r.1 as int, r.2 as int) == normalize_dir_spec((x as int, y as int, z as int)),
        -65536 <= r.0 <= 65536,
        -65536 <= r.1 <= 65536,
        -65536 <= r.2 <= 65536,
{
    proof {
        lemma_fx_mul_bound(x as int, x as int, 0x100_0000, 0x100_0000);
        lemma_fx_mul_bound(y as int, y as int, 0x100_0000, 0x100_0000);
        lemma_fx_mul_bound(z as int, z as int, 0x100_0000, 0x100_0000);
        assert(0 <= (x as int) * (x as int)) by (nonlinear_arith);
        assert(0 <= (y as int) * (y as int)) by (nonlinear_arith);
        assert(0 <= (z as int) * (z as int)) by (nonlinear_arith);
        lemma_scale_down_nonneg((x as int) * (x as int));
        lemma_scale_down_nonneg((y as int) * (y as int));
        lemma_scale_down_nonneg((z as int) * (z as int));
    }
    let m2: i64 = fx_mul(x, x) + fx_mul(y, y) + fx_mul(z, z);
    let n: u64 = isqrt64((m2 as u64) * 65536);
    if n == 0 {
        (0, 0, 0)
    } else {
        proof {
            lemma_fx_div_bound(x as int, n as int);
            lemma_fx_div_bound(y as int, n as int);
            lemma_fx_div_bound(z as int, n as int);
        }
        (
            fx_clamp(fx_div(x, n as i64), -FX_ONE, FX_ONE),
            fx_clamp(fx_div(y, n as i64), -FX_ONE, FX_ONE),
            fx_clamp(fx_div(z, n as i64), -FX_ONE, FX_ONE),
        )
    }
}

/// The system that raises the exit flag when the escape key is held.
pub struct CloseSystem;

impl CloseSystem {
    /// The flag, once set, stays set; escape sets it.
    pub fn run(input: &InputResource, exit: &mut ExitResource)
        requires
            input.wf(),
        ensures
            final(exit).0 == (old(exit).0 || input.keys()[KEY_ESCAPE as int]),
    {
        if input.key_pressed(KEY_ESCAPE) {
            exit.0 = true;
        }
    }
}

/// The demo system that spins every entity about x and y at the fixed
/// rate, scaled by the tick delta.
pub struct SpinCube;

/// The incremental spin rotation for one tick.
pub open spec fn spin_delta_spec(dt_nanos: int) -> Quat {
    let angle = fx_mul_spec(SPIN_RATE as int, dt_fx_spec(dt_nanos));
    quat_normalize_spec(
        quat_mul_spec(quat_about_x_spec(angle), quat_about_y_spec(angle)),
    )
}

/// One entity's rotation after a tick of spinning.
pub open spec fn spin_after_spec(r: Quat, dt_nanos: int) -> Quat {
    quat_normalize_spec(quat_mul_spec(r, spin_delta_spec(dt_nanos)))
}

impl SpinCube {
    /// Spin every transform in place; translation and scale stay, and
    /// every rotation stays well-formed.
    pub fn run(transforms: &mut Vec<TransformComponent>, timer: &TimerResource)
        requires
            timer.wf(),
            timer.max_duration_nanos <= 1_000_000_000,
            forall|i: int|
                0 <= i < old(transforms)@.len() ==> (#[trigger] old(transforms)@[i]).wf(),
        ensures
            final(transforms)@.len() == old(transforms)@.len(),
            forall|i: int|
                0 <= i < old(transforms)@.len() ==> {
                    &&& (#[trigger] final(transforms)@[i]).wf()
                    &&& final(transforms)@[i].rotation == spin_after_spec(
                        old(transforms)@[i].rotation,
                        timer.dt_nanos as int,
                    )
                    &&& final(transforms)@[i].translation == old(transforms)@[i].translation
                    &&& final(transforms)@[i].scale == old(transforms)@[i].scale
                },
    {
        let dt = nanos_to_fx(timer.get_dt_nanos());
        proof {
            lemma_fx_mul_bound(SPIN_RATE as int, dt as int, 51472, 65536);
        }
        let angle = fx_mul(SPIN_RATE, dt);
        let qx = quat_about_x(angle);
        let qy = quat_about_y(angle);
        let dm = quat_mul(&qx, &qy);
        let dq = quat_normalize_or_identity(&dm);
        let ghost orig = transforms@;
        let n = transforms.len();
        let mut i: usize = 0;
        while i < n
            invariant
                n == transforms@.len(),
                orig.len() == n,
                0 <= i <= n,
                quat_bounded(dq),
                dq == spin_delta_spec(timer.dt_nanos as int),
                forall|j: int| 0 <= j < n ==> (#[trigger] orig[j]).wf(),
                forall|j: int| i <= j < n ==> #[trigger] transforms@[j] == orig[j],
                forall|j: int|
                    0 <= j < i ==> {
                        &&& (#[trigger] transforms@[j]).wf()
                        &&& transforms@[j].rotation == spin_after_spec(
                            orig[j].rotation,
                            timer.dt_nanos as int,
                        )
                        &&& transforms@[j].translation == orig[j].translation
                        &&& transforms@[j].scale == orig[j].scale
                    },
            decreases n - i,
        {
            let t = transforms[i];
            let nm = quat_mul(&t.rotation, &dq);
            let nr = quat_normalize_or_identity(&nm);
            transforms[i] = TransformComponent {
                translation: t.translation,
                rotation: nr,
                scale: t.scale,
            };
            i = i + 1;
        }
    }
}

} // verus!
