//! Fixed-point vectors, quaternions and 4x4 matrices.
//!
//! Matrices are column-major, as the shader uniforms expect. Every
//! executable operation is specified exactly by a spec function over the
//! integer model, so composition laws (such as multiplying by the identity)
//! can be proved rather than assumed.

use crate::fx::{
    fx_clamp, fx_div, fx_div_spec, fx_mul, fx_mul_spec, lemma_fx_div_bound,
    lemma_scale_down_bound, lemma_scale_down_exact, scale_down, FX_ONE,
};
use vstd::prelude::*;

verus! {

/// Largest magnitude either factor of a matrix product may have.
pub const MAT_BIG_BOUND: i64 = 0x1000_0000_0000;

/// Magnitude at least one factor of a matrix product must stay within.
pub const MAT_SMALL_BOUND: i64 = 0x400_0000;

/// Bound on the entries of a well-formed model (TRS) matrix.
pub const TRS_BOUND: i64 = 0x40_0000;

/// Largest magnitude of a well-formed translation component.
pub const TRANS_BOUND: i64 = 0x40_0000;

/// Smallest well-formed scale component (one eighth).
pub const SCALE_MIN: i64 = 8192;

/// Largest well-formed scale component (eight).
pub const SCALE_MAX: i64 = 524288;

/// Bound on the entries of an inverted pose matrix.
pub const VINV_BOUND: i64 = 0x2000_0000;

/// Bound on the entries of a projection matrix.
pub const PROJ_BOUND: i64 = 0x100_0000;

/// Bound on the entries of a projection-times-inverse-pose product.
pub const PV_BOUND: i64 = 0x80_0000_0000;

/// Bound on the entries of a full model-view-projection product.
pub const MVP_BOUND: i64 = 0x8000_0000_0000;

#[derive(Clone, Copy, PartialEq, Eq, Structural, Debug)]
#[verifier::ext_equal]
pub struct Vec3 {
    pub x: i64,
    pub y: i64,
    pub z: i64,
}

#[derive(Clone, Copy, PartialEq, Eq, Structural, Debug)]
#[verifier::ext_equal]
pub struct Vec4 {
    pub x: i64,
    pub y: i64,
    pub z: i64,
    pub w: i64,
}

/// A quaternion in fixed point; rotations keep components within one.
#[derive(Clone, Copy, PartialEq, Eq, Structural, Debug)]
#[verifier::ext_equal]
pub struct Quat {
    pub x: i64,
    pub y: i64,
    pub z: i64,
    pub w: i64,
}

/// A column-major 4x4 fixed-point matrix.
#[derive(Clone, Copy, PartialEq, Eq, Structural, Debug)]
#[verifier::ext_equal]
pub struct Mat4 {
    pub c0: Vec4,
    pub c1: Vec4,
    pub c2: Vec4,
    pub c3: Vec4,
}

pub open spec fn vec3_bounded(v: Vec3, b: int) -> bool {
    &&& -b <= v.x <= b
    &&& -b <= v.y <= b
    &&& -b <= v.z <= b
}

pub open spec fn scale_ok(s: Vec3) -> bool {
    &&& SCALE_MIN <= s.x <= SCALE_MAX
    &&& SCALE_MIN <= s.y <= SCALE_MAX
    &&& SCALE_MIN <= s.z <= SCALE_MAX
}

/// Quaternion components within one: the shape every rotation here keeps.
pub open spec fn quat_bounded(q: Quat) -> bool {
    &&& -FX_ONE <= q.x <= FX_ONE
    &&& -FX_ONE <= q.y <= FX_ONE
    &&& -FX_ONE <= q.z <= FX_ONE
    &&& -FX_ONE <= q.w <= FX_ONE
}

impl Quat {
    /// The rotation that leaves everything in place.
    pub open spec fn identity_spec() -> Quat {
        Quat { x: 0, y: 0, z: 0, w: FX_ONE }
    }

    pub fn identity() -> (q: Quat)
        ensures
            q == Quat::identity_spec(),
    {
        Quat { x: 0, y: 0, z: 0, w: FX_ONE }
    }
}

impl Vec3 {
    pub open spec fn zero_spec() -> Vec3 {
        Vec3 { x: 0, y: 0, z: 0 }
    }

    pub open spec fn one_spec() -> Vec3 {
        Vec3 { x: FX_ONE, y: FX_ONE, z: FX_ONE }
    }

    pub fn zero() -> (v: Vec3)
        ensures
            v == Vec3::zero_spec(),
    {
        Vec3 { x: 0, y: 0, z: 0 }
    }

    pub fn one() -> (v: Vec3)
        ensures
            v == Vec3::one_spec(),
    {
        Vec3 { x: FX_ONE, y: FX_ONE, z: FX_ONE }
    }
}

impl Mat4 {
    pub open spec fn col(self, c: int) -> Vec4 {
        if c == 0 {
            self.c0
        } else if c == 1 {
            self.c1
        } else if c == 2 {
            self.c2
        } else {
            self.c3
        }
    }

    /// Entry in row `r`, column `c`.
    pub open spec fn entry(self, r: int, c: int) -> int {
        let v = self.col(c);
        if r == 0 {
            v.x as int
        } else if r == 1 {
            v.y as int
        } else if r == 2 {
            v.z as int
        } else {
            v.w as int
        }
    }

    pub open spec fn bounded(self, b: int) -> bool {
        forall|r: int, c: int|
            0 <= r < 4 && 0 <= c < 4 ==> -b <= #[trigger] self.entry(r, c) <= b
    }

    pub open spec fn identity_spec() -> Mat4 {
        Mat4 {
            c0: Vec4 { x: FX_ONE, y: 0, z: 0, w: 0 },
            c1: Vec4 { x: 0, y: FX_ONE, z: 0, w: 0 },
            c2: Vec4 { x: 0, y: 0, z: FX_ONE, w: 0 },
            c3: Vec4 { x: 0, y: 0, z: 0, w: FX_ONE },
        }
    }

    pub fn identity() -> (m: Mat4)
        ensures
            m == Mat4::identity_spec(),
    {
        Mat4 {
            c0: Vec4 { x: FX_ONE, y: 0, z: 0, w: 0 },
            c1: Vec4 { x: 0, y: FX_ONE, z: 0, w: 0 },
            c2: Vec4 { x: 0, y: 0, z: FX_ONE, w: 0 },
            c3: Vec4 { x: 0, y: 0, z: 0, w: FX_ONE },
        }
    }
}

/// The fixed-point dot product of two rows of four.
pub open spec fn dot4_spec(
    a0: int,
    a1: int,
    a2: int,
    a3: int,
    b0: int,
    b1: int,
    b2: int,
    b3: int,
) -> int {
    scale_down(a0 * b0 + a1 * b1 + a2 * b2 + a3 * b3)
}

pub proof fn lemma_mul_magnitude(a: int, b: int, ba: int, bb: int)
    by (nonlinear_arith)
    requires
        -ba <= a <= ba,
        -bb <= b <= bb,
        0 <= ba,
        0 <= bb,
    ensures
        -(ba * bb) <= a * b <= ba * bb,
{
}

/// The dot product of rows bounded by `ba` and `bb` stays within
/// `4 * ba * bb` scaled down.
pub proof fn lemma_dot4_bound(
    a0: int,
    a1: int,
    a2: int,
    a3: int,
    b0: int,
    b1: int,
    b2: int,
    b3: int,
    ba: int,
    bb: int,
)
    requires
        0 <= ba,
        0 <= bb,
        -ba <= a0 <= ba,
        -ba <= a1 <= ba,
        -ba <= a2 <= ba,
        -ba <= a3 <= ba,
        -bb <= b0 <= bb,
        -bb <= b1 <= bb,
        -bb <= b2 <= bb,
        -bb <= b3 <= bb,
    ensures
        -((4 * ba * bb) / 65536) <= dot4_spec(a0, a1, a2, a3, b0, b1, b2, b3) <= (4 * ba * bb)
            / 65536,
{
    lemma_mul_magnitude(a0, b0, ba, bb);
    lemma_mul_magnitude(a1, b1, ba, bb);
    lemma_mul_magnitude(a2, b2, ba, bb);
    lemma_mul_magnitude(a3, b3, ba, bb);
    assert(4 * ba * bb == 4 * (ba * bb)) by (nonlinear_arith);
    lemma_scale_down_bound(a0 * b0 + a1 * b1 + a2 * b2 + a3 * b3, 4 * ba * bb);
}

/// A fixed-point product of bounded factors stays within the scaled bound.
pub proof fn lemma_fx_mul_bound(a: int, b: int, ba: int, bb: int)
    requires
        0 <= ba,
        0 <= bb,
        -ba <= a <= ba,
        -bb <= b <= bb,
    ensures
        -((ba * bb) / 65536) <= fx_mul_spec(a, b) <= (ba * bb) / 65536,
{
    lemma_mul_magnitude(a, b, ba, bb);
    lemma_scale_down_bound(a * b, ba * bb);
}

/// Rescale a wide accumulator down to a scalar, rounding toward zero.
fn scale_down_i128(s: i128) -> (r: i64)
    requires
        i64::MIN <= scale_down(s as int) <= i64::MAX,
    ensures
        r == scale_down(s as int),
{
    if s >= 0 {
        assert(s as int <= 0x8000_0000_0000_0000_0000int) by {
            if s as int > 0x8000_0000_0000_0000_0000int {
                vstd::arithmetic::div_mod::lemma_div_is_ordered(
                    0x8000_0000_0000_0000_0000int,
                    s as int,
                    65536,
                );
            }
        }
        ((s as u128) / 65536) as i64
    } else {
        assert(-(s as int) <= 0x1_0000_0000_0000_0000_0000int) by {
            if -(s as int) > 0x1_0000_0000_0000_0000_0000int {
                vstd::arithmetic::div_mod::lemma_div_is_ordered(
                    0x1_0000_0000_0000_0000_0000int,
                    -(s as int),
                    65536,
                );
            }
        }
        let m: u128 = (-s) as u128;
        let q: u128 = m / 65536;
        (-(q as i128)) as i64
    }
}

/// The fixed-point dot product of two rows of four scalars.
///
/// One of the two rows must stay within the small bound so the wide
/// accumulator cannot overflow.
pub fn dot4(a0: i64, a1: i64, a2: i64, a3: i64, b0: i64, b1: i64, b2: i64, b3: i64) -> (r: i64)
    requires
        -MAT_BIG_BOUND <= a0 <= MAT_BIG_BOUND,
        -MAT_BIG_BOUND <= a1 <= MAT_BIG_BOUND,
        -MAT_BIG_BOUND <= a2 <= MAT_BIG_BOUND,
        -MAT_BIG_BOUND <= a3 <= MAT_BIG_BOUND,
        -MAT_BIG_BOUND <= b0 <= MAT_BIG_BOUND,
        -MAT_BIG_BOUND <= b1 <= MAT_BIG_BOUND,
        -MAT_BIG_BOUND <= b2 <= MAT_BIG_BOUND,
        -MAT_BIG_BOUND <= b3 <= MAT_BIG_BOUND,
        (-MAT_SMALL_BOUND <= a0 <= MAT_SMALL_BOUND && -MAT_SMALL_BOUND <= a1 <= MAT_SMALL_BOUND
            && -MAT_SMALL_BOUND <= a2 <= MAT_SMALL_BOUND && -MAT_SMALL_BOUND <= a3
            <= MAT_SMALL_BOUND) || (-MAT_SMALL_BOUND <= b0 <= MAT_SMALL_BOUND && -MAT_SMALL_BOUND
            <= b1 <= MAT_SMALL_BOUND && -MAT_SMALL_BOUND <= b2 <= MAT_SMALL_BOUND
            && -MAT_SMALL_BOUND <= b3 <= MAT_SMALL_BOUND),
    ensures
        r == dot4_spec(a0 as int, a1 as int, a2 as int, a3 as int, b0 as int, b1 as int, b2 as int,
            b3 as int),
{
    proof {
        lemma_mul_magnitude(a0 as int, b0 as int, MAT_BIG_BOUND as int, MAT_BIG_BOUND as int);
        lemma_mul_magnitude(a1 as int, b1 as int, MAT_BIG_BOUND as int, MAT_BIG_BOUND as int);
        lemma_mul_magnitude(a2 as int, b2 as int, MAT_BIG_BOUND as int, MAT_BIG_BOUND as int);
        lemma_mul_magnitude(a3 as int, b3 as int, MAT_BIG_BOUND as int, MAT_BIG_BOUND as int);
        if -MAT_SMALL_BOUND <= a0 <= MAT_SMALL_BOUND && -MAT_SMALL_BOUND <= a1 <= MAT_SMALL_BOUND
            && -MAT_SMALL_BOUND <= a2 <= MAT_SMALL_BOUND && -MAT_SMALL_BOUND <= a3
            <= MAT_SMALL_BOUND {
            lemma_dot4_bound(
                a0 as int,
                a1 as int,
                a2 as int,
                a3 as int,
                b0 as int,
                b1 as int,
                b2 as int,
                b3 as int,
                MAT_SMALL_BOUND as int,
                MAT_BIG_BOUND as int,
            );
        } else {
            lemma_dot4_bound(
                a0 as int,
                a1 as int,
                a2 as int,
                a3 as int,
                b0 as int,
                b1 as int,
                b2 as int,
                b3 as int,
                MAT_BIG_BOUND as int,
                MAT_SMALL_BOUND as int,
            );
        }
    }
    let s: i128 = (a0 as i128) * (b0 as i128) + (a1 as i128) * (b1 as i128) + (a2 as i128) * (b2
        as i128) + (a3 as i128) * (b3 as i128);
    scale_down_i128(s)
}

/// Entry `(r, c)` of the product of `a` and `b`.
pub open spec fn mul_entry_spec(a: Mat4, b: Mat4, r: int, c: int) -> int {
    dot4_spec(
        a.entry(r, 0),
        a.entry(r, 1),
        a.entry(r, 2),
        a.entry(r, 3),
        b.entry(0, c),
        b.entry(1, c),
        b.entry(2, c),
        b.entry(3, c),
    )
}

/// The matrix product of `a` and `b`.
pub open spec fn mat_mul_spec(a: Mat4, b: Mat4) -> Mat4 {
    Mat4 {
        c0: Vec4 {
            x: mul_entry_spec(a, b, 0, 0) as i64,
            y: mul_entry_spec(a, b, 1, 0) as i64,
            z: mul_entry_spec(a, b, 2, 0) as i64,
            w: mul_entry_spec(a, b, 3, 0) as i64,
        },
        c1: Vec4 {
            x: mul_entry_spec(a, b, 0, 1) as i64,
            y: mul_entry_spec(a, b, 1, 1) as i64,
            z: mul_entry_spec(a, b, 2, 1) as i64,
            w: mul_entry_spec(a, b, 3, 1) as i64,
        },
        c2: Vec4 {
            x: mul_entry_spec(a, b, 0, 2) as i64,
            y: mul_entry_spec(a, b, 1, 2) as i64,
            z: mul_entry_spec(a, b, 2, 2) as i64,
            w: mul_entry_spec(a, b, 3, 2) as i64,
        },
        c3: Vec4 {
            x: mul_entry_spec(a, b, 0, 3) as i64,
            y: mul_entry_spec(a, b, 1, 3) as i64,
            z: mul_entry_spec(a, b, 2, 3) as i64,
            w: mul_entry_spec(a, b, 3, 3) as i64,
        },
    }
}

/// Bounded factors give a bounded, untruncated product.
pub proof fn lemma_mat_mul_bounded(a: Mat4, b: Mat4, ba: int, bb: int)
    requires
        0 <= ba,
        0 <= bb,
        a.bounded(ba),
        b.bounded(bb),
        (4 * ba * bb) / 65536 <= i64::MAX,
    ensures
        mat_mul_spec(a, b).bounded((4 * ba * bb) / 65536),
        forall|r: int, c: int|
            0 <= r < 4 && 0 <= c < 4 ==> #[trigger] mat_mul_spec(a, b).entry(r, c)
                == mul_entry_spec(a, b, r, c),
{
    assert forall|r: int, c: int| 0 <= r < 4 && 0 <= c < 4 implies -((4 * ba * bb) / 65536)
        <= #[trigger] mul_entry_spec(a, b, r, c) <= (4 * ba * bb) / 65536 by {
        assert(a.entry(r, 0) == a.entry(r, 0));
        assert(b.entry(0, c) == b.entry(0, c));
        lemma_dot4_bound(
            a.entry(r, 0),
            a.entry(r, 1),
            a.entry(r, 2),
            a.entry(r, 3),
            b.entry(0, c),
            b.entry(1, c),
            b.entry(2, c),
            b.entry(3, c),
            ba,
            bb,
        );
    }
    assert forall|r: int, c: int| 0 <= r < 4 && 0 <= c < 4 implies #[trigger] mat_mul_spec(
        a,
        b,
    ).entry(r, c) == mul_entry_spec(a, b, r, c) by {
        assert(-((4 * ba * bb) / 65536) <= mul_entry_spec(a, b, r, c) <= (4 * ba * bb) / 65536);
    }
}

/// A bound on a matrix also holds for any looser bound.
pub proof fn lemma_bounded_widen(m: Mat4, b1: int, b2: int)
    requires
        m.bounded(b1),
        b1 <= b2,
    ensures
        m.bounded(b2),
{
    assert forall|r: int, c: int| 0 <= r < 4 && 0 <= c < 4 implies -b2 <= #[trigger] m.entry(r, c)
        <= b2 by {
        assert(-b1 <= m.entry(r, c) <= b1);
    }
}

/// A matrix bound restated on the sixteen fields themselves.
pub proof fn lemma_bounded_fields(m: Mat4, b: int)
    requires
        m.bounded(b),
    ensures
        -b <= m.c0.x <= b,
        -b <= m.c0.y <= b,
        -b <= m.c0.z <= b,
        -b <= m.c0.w <= b,
        -b <= m.c1.x <= b,
        -b <= m.c1.y <= b,
        -b <= m.c1.z <= b,
        -b <= m.c1.w <= b,
        -b <= m.c2.x <= b,
        -b <= m.c2.y <= b,
        -b <= m.c2.z <= b,
        -b <= m.c2.w <= b,
        -b <= m.c3.x <= b,
        -b <= m.c3.y <= b,
        -b <= m.c3.z <= b,
        -b <= m.c3.w <= b,
{
    assert(m.entry(0, 0) == m.c0.x as int);
    assert(m.entry(1, 0) == m.c0.y as int);
    assert(m.entry(2, 0) == m.c0.z as int);
    assert(m.entry(3, 0) == m.c0.w as int);
    assert(m.entry(0, 1) == m.c1.x as int);
    assert(m.entry(1, 1) == m.c1.y as int);
    assert(m.entry(2, 1) == m.c1.z as int);
    assert(m.entry(3, 1) == m.c1.w as int);
    assert(m.entry(0, 2) == m.c2.x as int);
    assert(m.entry(1, 2) == m.c2.y as int);
    assert(m.entry(2, 2) == m.c2.z as int);
    assert(m.entry(3, 2) == m.c2.w as int);
    assert(m.entry(0, 3) == m.c3.x as int);
    assert(m.entry(1, 3) == m.c3.y as int);
    assert(m.entry(2, 3) == m.c3.z as int);
    assert(m.entry(3, 3) == m.c3.w as int);
}

/// The converse: sixteen field bounds give the matrix bound.
pub proof fn lemma_fields_bounded(m: Mat4, b: int)
    requires
        -b <= m.c0.x <= b,
        -b <= m.c0.y <= b,
        -b <= m.c0.z <= b,
        -b <= m.c0.w <= b,
        -b <= m.c1.x <= b,
        -b <= m.c1.y <= b,
        -b <= m.c1.z <= b,
        -b <= m.c1.w <= b,
        -b <= m.c2.x <= b,
        -b <= m.c2.y <= b,
        -b <= m.c2.z <= b,
        -b <= m.c2.w <= b,
        -b <= m.c3.x <= b,
        -b <= m.c3.y <= b,
        -b <= m.c3.z <= b,
        -b <= m.c3.w <= b,
    ensures
        m.bounded(b),
{
    assert forall|r: int, c: int| 0 <= r < 4 && 0 <= c < 4 implies -b <= #[trigger] m.entry(r, c)
        <= b by {
        assert(m.entry(r, c) == m.entry(r, c));
    }
}

/// The matrix product, exact per `mat_mul_spec`.
///
/// At least one factor must stay within the small bound; both within the
/// big bound.
pub fn mat_mul(a: &Mat4, b: &Mat4) -> (m: Mat4)
    requires
        a.bounded(MAT_BIG_BOUND as int),
        b.bounded(MAT_BIG_BOUND as int),
        a.bounded(MAT_SMALL_BOUND as int) || b.bounded(MAT_SMALL_BOUND as int),
    ensures
        m == mat_mul_spec(*a, *b),
        forall|r: int, c: int|
            0 <= r < 4 && 0 <= c < 4 ==> #[trigger] m.entry(r, c) == mul_entry_spec(*a, *b, r, c),
{
    proof {
        lemma_bounded_fields(*a, MAT_BIG_BOUND as int);
        lemma_bounded_fields(*b, MAT_BIG_BOUND as int);
        if a.bounded(MAT_SMALL_BOUND as int) {
            lemma_bounded_fields(*a, MAT_SMALL_BOUND as int);
        } else {
            lemma_bounded_fields(*b, MAT_SMALL_BOUND as int);
        }
    }
    let m = Mat4 {
        c0: Vec4 {
            x: dot4(a.c0.x, a.c1.x, a.c2.x, a.c3.x, b.c0.x, b.c0.y, b.c0.z, b.c0.w),
            y: dot4(a.c0.y, a.c1.y, a.c2.y, a.c3.y, b.c0.x, b.c0.y, b.c0.z, b.c0.w),
            z: dot4(a.c0.z, a.c1.z, a.c2.z, a.c3.z, b.c0.x, b.c0.y, b.c0.z, b.c0.w),
            w: dot4(a.c0.w, a.c1.w, a.c2.w, a.c3.w, b.c0.x, b.c0.y, b.c0.z, b.c0.w),
        },
        c1: Vec4 {
            x: dot4(a.c0.x, a.c1.x, a.c2.x, a.c3.x, b.c1.x, b.c1.y, b.c1.z, b.c1.w),
            y: dot4(a.c0.y, a.c1.y, a.c2.y, a.c3.y, b.c1.x, b.c1.y, b.c1.z, b.c1.w),
            z: dot4(a.c0.z, a.c1.z, a.c2.z, a.c3.z, b.c1.x, b.c1.y, b.c1.z, b.c1.w),
            w: dot4(a.c0.w, a.c1.w, a.c2.w, a.c3.w, b.c1.x, b.c1.y, b.c1.z, b.c1.w),
        },
        c2: Vec4 {
            x: dot4(a.c0.x, a.c1.x, a.c2.x, a.c3.x, b.c2.x, b.c2.y, b.c2.z, b.c2.w),
            y: dot4(a.c0.y, a.c1.y, a.c2.y, a.c3.y, b.c2.x, b.c2.y, b.c2.z, b.c2.w),
            z: dot4(a.c0.z, a.c1.z, a.c2.z, a.c3.z, b.c2.x, b.c2.y, b.c2.z, b.c2.w),
            w: dot4(a.c0.w, a.c1.w, a.c2.w, a.c3.w, b.c2.x, b.c2.y, b.c2.z, b.c2.w),
        },
        c3: Vec4 {
            x: dot4(a.c0.x, a.c1.x, a.c2.x, a.c3.x, b.c3.x, b.c3.y, b.c3.z, b.c3.w),
            y: dot4(a.c0.y, a.c1.y, a.c2.y, a.c3.y, b.c3.x, b.c3.y, b.c3.z, b.c3.w),
            z: dot4(a.c0.z, a.c1.z, a.c2.z, a.c3.z, b.c3.x, b.c3.y, b.c3.z, b.c3.w),
            w: dot4(a.c0.w, a.c1.w, a.c2.w, a.c3.w, b.c3.x, b.c3.y, b.c3.z, b.c3.w),
        },
    };
    proof {
        assert(m =~= mat_mul_spec(*a, *b));
    }
    m
}

/// Quaternion components within an arbitrary bound.
pub open spec fn quat_bounded_by(q: Quat, b: int) -> bool {
    &&& -b <= q.x <= b
    &&& -b <= q.y <= b
    &&& -b <= q.z <= b
    &&& -b <= q.w <= b
}

/// The Hamilton product of two quaternions.
pub open spec fn quat_mul_spec(a: Quat, b: Quat) -> Quat {
    Quat {
        x: (fx_mul_spec(a.w as int, b.x as int) + fx_mul_spec(a.x as int, b.w as int)
            + fx_mul_spec(a.y as int, b.z as int) - fx_mul_spec(a.z as int, b.y as int)) as i64,
        y: (fx_mul_spec(a.w as int, b.y as int) - fx_mul_spec(a.x as int, b.z as int)
            + fx_mul_spec(a.y as int, b.w as int) + fx_mul_spec(a.z as int, b.x as int)) as i64,
        z: (fx_mul_spec(a.w as int, b.z as int) + fx_mul_spec(a.x as int, b.y as int)
            - fx_mul_spec(a.y as int, b.x as int) + fx_mul_spec(a.z as int, b.w as int)) as i64,
        w: (fx_mul_spec(a.w as int, b.w as int) - fx_mul_spec(a.x as int, b.x as int)
            - fx_mul_spec(a.y as int, b.y as int) - fx_mul_spec(a.z as int, b.z as int)) as i64,
    }
}

/// The Hamilton product, exact per `quat_mul_spec`.
pub fn quat_mul(a: &Quat, b: &Quat) -> (r: Quat)
    requires
        quat_bounded(*a),
        quat_bounded(*b),
    ensures
        r == quat_mul_spec(*a, *b),
        quat_bounded_by(r, 4 * FX_ONE),
{
    proof {
        lemma_fx_mul_bound(a.w as int, b.x as int, 65536, 65536);
        lemma_fx_mul_bound(a.x as int, b.w as int, 65536, 65536);
        lemma_fx_mul_bound(a.y as int, b.z as int, 65536, 65536);
        lemma_fx_mul_bound(a.z as int, b.y as int, 65536, 65536);
        lemma_fx_mul_bound(a.w as int, b.y as int, 65536, 65536);
        lemma_fx_mul_bound(a.x as int, b.z as int, 65536, 65536);
        lemma_fx_mul_bound(a.y as int, b.w as int, 65536, 65536);
        lemma_fx_mul_bound(a.z as int, b.x as int, 65536, 65536);
        lemma_fx_mul_bound(a.w as int, b.z as int, 65536, 65536);
        lemma_fx_mul_bound(a.x as int, b.y as int, 65536, 65536);
        lemma_fx_mul_bound(a.y as int, b.x as int, 65536, 65536);
        lemma_fx_mul_bound(a.z as int, b.w as int, 65536, 65536);
        lemma_fx_mul_bound(a.w as int, b.w as int, 65536, 65536);
        lemma_fx_mul_bound(a.x as int, b.x as int, 65536, 65536);
        lemma_fx_mul_bound(a.y as int, b.y as int, 65536, 65536);
        lemma_fx_mul_bound(a.z as int, b.z as int, 65536, 65536);
    }
    let x = fx_mul(a.w, b.x) + fx_mul(a.x, b.w) + fx_mul(a.y, b.z) - fx_mul(a.z, b.y);
    let y = fx_mul(a.w, b.y) - fx_mul(a.x, b.z) + fx_mul(a.y, b.w) + fx_mul(a.z, b.x);
    let z = fx_mul(a.w, b.z) + fx_mul(a.x, b.y) - fx_mul(a.y, b.x) + fx_mul(a.z, b.w);
    let w = fx_mul(a.w, b.w) - fx_mul(a.x, b.x) - fx_mul(a.y, b.y) - fx_mul(a.z, b.z);
    Quat { x, y, z, w }
}

/// The squared magnitude of a quaternion, in fixed point.
pub open spec fn quat_mag2_spec(q: Quat) -> int {
    fx_mul_spec(q.x as int, q.x as int) + fx_mul_spec(q.y as int, q.y as int) + fx_mul_spec(
        q.z as int,
        q.z as int,
    ) + fx_mul_spec(q.w as int, q.w as int)
}

/// The quaternion scaled back to unit length (components clamped to
/// one); the zero quaternion normalizes to the identity rotation.
pub open spec fn quat_normalize_spec(q: Quat) -> Quat {
    let n = crate::fx::int_sqrt(quat_mag2_spec(q) * 65536);
    if n <= 0 {
        Quat::identity_spec()
    } else {
        Quat {
            x: crate::fx::clamp_spec(fx_div_spec(q.x as int, n), -65536, 65536) as i64,
            y: crate::fx::clamp_spec(fx_div_spec(q.y as int, n), -65536, 65536) as i64,
            z: crate::fx::clamp_spec(fx_div_spec(q.z as int, n), -65536, 65536) as i64,
            w: crate::fx::clamp_spec(fx_div_spec(q.w as int, n), -65536, 65536) as i64,
        }
    }
}

/// Normalize a quaternion, exact per `quat_normalize_spec`; the result
/// always has components within one.
pub fn quat_normalize_or_identity(q: &Quat) -> (r: Quat)
    requires
        quat_bounded_by(*q, 4 * FX_ONE),
    ensures
        r == quat_normalize_spec(*q),
        quat_bounded(r),
{
    proof {
        lemma_fx_mul_bound(q.x as int, q.x as int, 262144, 262144);
        lemma_fx_mul_bound(q.y as int, q.y as int, 262144, 262144);
        lemma_fx_mul_bound(q.z as int, q.z as int, 262144, 262144);
        lemma_fx_mul_bound(q.w as int, q.w as int, 262144, 262144);
        assert(0 <= (q.x as int) * (q.x as int)) by (nonlinear_arith);
        assert(0 <= (q.y as int) * (q.y as int)) by (nonlinear_arith);
        assert(0 <= (q.z as int) * (q.z as int)) by (nonlinear_arith);
        assert(0 <= (q.w as int) * (q.w as int)) by (nonlinear_arith);
        crate::fx::lemma_scale_down_nonneg((q.x as int) * (q.x as int));
        crate::fx::lemma_scale_down_nonneg((q.y as int) * (q.y as int));
        crate::fx::lemma_scale_down_nonneg((q.z as int) * (q.z as int));
        crate::fx::lemma_scale_down_nonneg((q.w as int) * (q.w as int));
    }
    let m2: i64 = fx_mul(q.x, q.x) + fx_mul(q.y, q.y) + fx_mul(q.z, q.z) + fx_mul(q.w, q.w);
    let n: u64 = crate::fx::isqrt64((m2 as u64) * 65536);
    if n == 0 {
        Quat::identity()
    } else {
        proof {
            lemma_fx_div_bound(q.x as int, n as int);
            lemma_fx_div_bound(q.y as int, n as int);
            lemma_fx_div_bound(q.z as int, n as int);
            lemma_fx_div_bound(q.w as int, n as int);
        }
        Quat {
            x: fx_clamp(fx_div(q.x, n as i64), -FX_ONE, FX_ONE),
            y: fx_clamp(fx_div(q.y, n as i64), -FX_ONE, FX_ONE),
            z: fx_clamp(fx_div(q.z, n as i64), -FX_ONE, FX_ONE),
            w: fx_clamp(fx_div(q.w, n as i64), -FX_ONE, FX_ONE),
        }
    }
}

/// Well-formed translation-rotation-scale data: translation within range,
/// rotation components within one, scale positive and within range.
pub open spec fn trs_wf(t: Vec3, r: Quat, s: Vec3) -> bool {
    &&& vec3_bounded(t, TRANS_BOUND as int)
    &&& quat_bounded(r)
    &&& scale_ok(s)
}

/// The model matrix `Translate(t) * Rotate(r) * Scale(s)`.
pub open spec fn trs_mat_spec(t: Vec3, r: Quat, s: Vec3) -> Mat4 {
    let xx = fx_mul_spec(r.x as int, r.x as int);
    let yy = fx_mul_spec(r.y as int, r.y as int);
    let zz = fx_mul_spec(r.z as int, r.z as int);
    let xy = fx_mul_spec(r.x as int, r.y as int);
    let xz = fx_mul_spec(r.x as int, r.z as int);
    let yz = fx_mul_spec(r.y as int, r.z as int);
    let wx = fx_mul_spec(r.w as int, r.x as int);
    let wy = fx_mul_spec(r.w as int, r.y as int);
    let wz = fx_mul_spec(r.w as int, r.z as int);
    Mat4 {
        c0: Vec4 {
            x: fx_mul_spec(65536 - 2 * yy - 2 * zz, s.x as int) as i64,
            y: fx_mul_spec(2 * xy + 2 * wz, s.x as int) as i64,
            z: fx_mul_spec(2 * xz - 2 * wy, s.x as int) as i64,
            w: 0,
        },
        c1: Vec4 {
            x: fx_mul_spec(2 * xy - 2 * wz, s.y as int) as i64,
            y: fx_mul_spec(65536 - 2 * xx - 2 * zz, s.y as int) as i64,
            z: fx_mul_spec(2 * yz + 2 * wx, s.y as int) as i64,
            w: 0,
        },
        c2: Vec4 {
            x: fx_mul_spec(2 * xz + 2 * wy, s.z as int) as i64,
            y: fx_mul_spec(2 * yz - 2 * wx, s.z as int) as i64,
            z: fx_mul_spec(65536 - 2 * xx - 2 * yy, s.z as int) as i64,
            w: 0,
        },
        c3: Vec4 { x: t.x, y: t.y, z: t.z, w: FX_ONE },
    }
}

/// The inverse of the same TRS matrix: `Scale(1/s) * Rotate(r)^T *
/// Translate(-t)`, correct also for non-uniform scale.
pub open spec fn trs_inverse_spec(t: Vec3, r: Quat, s: Vec3) -> Mat4 {
    let xx = fx_mul_spec(r.x as int, r.x as int);
    let yy = fx_mul_spec(r.y as int, r.y as int);
    let zz = fx_mul_spec(r.z as int, r.z as int);
    let xy = fx_mul_spec(r.x as int, r.y as int);
    let xz = fx_mul_spec(r.x as int, r.z as int);
    let yz = fx_mul_spec(r.y as int, r.z as int);
    let wx = fx_mul_spec(r.w as int, r.x as int);
    let wy = fx_mul_spec(r.w as int, r.y as int);
    let wz = fx_mul_spec(r.w as int, r.z as int);
    let isx = fx_div_spec(65536, s.x as int);
    let isy = fx_div_spec(65536, s.y as int);
    let isz = fx_div_spec(65536, s.z as int);
    let e00 = fx_mul_spec(isx, 65536 - 2 * yy - 2 * zz);
    let e01 = fx_mul_spec(isx, 2 * xy + 2 * wz);
    let e02 = fx_mul_spec(isx, 2 * xz - 2 * wy);
    let e10 = fx_mul_spec(isy, 2 * xy - 2 * wz);
    let e11 = fx_mul_spec(isy, 65536 - 2 * xx - 2 * zz);
    let e12 = fx_mul_spec(isy, 2 * yz + 2 * wx);
    let e20 = fx_mul_spec(isz, 2 * xz + 2 * wy);
    let e21 = fx_mul_spec(isz, 2 * yz - 2 * wx);
    let e22 = fx_mul_spec(isz, 65536 - 2 * xx - 2 * yy);
    Mat4 {
        c0: Vec4 { x: e00 as i64, y: e10 as i64, z: e20 as i64, w: 0 },
        c1: Vec4 { x: e01 as i64, y: e11 as i64, z: e21 as i64, w: 0 },
        c2: Vec4 { x: e02 as i64, y: e12 as i64, z: e22 as i64, w: 0 },
        c3: Vec4 {
            x: (0 - fx_mul_spec(e00, t.x as int) - fx_mul_spec(e01, t.y as int) - fx_mul_spec(
                e02,
                t.z as int,
            )) as i64,
            y: (0 - fx_mul_spec(e10, t.x as int) - fx_mul_spec(e11, t.y as int) - fx_mul_spec(
                e12,
                t.z as int,
            )) as i64,
            z: (0 - fx_mul_spec(e20, t.x as int) - fx_mul_spec(e21, t.y as int) - fx_mul_spec(
                e22,
                t.z as int,
            )) as i64,
            w: FX_ONE,
        },
    }
}

/// Products of rotation components stay within one.
proof fn lemma_quat_products(r: Quat)
    requires
        quat_bounded(r),
    ensures
        0 <= fx_mul_spec(r.x as int, r.x as int) <= 65536,
        0 <= fx_mul_spec(r.y as int, r.y as int) <= 65536,
        0 <= fx_mul_spec(r.z as int, r.z as int) <= 65536,
        -65536 <= fx_mul_spec(r.x as int, r.y as int) <= 65536,
        -65536 <= fx_mul_spec(r.x as int, r.z as int) <= 65536,
        -65536 <= fx_mul_spec(r.y as int, r.z as int) <= 65536,
        -65536 <= fx_mul_spec(r.w as int, r.x as int) <= 65536,
        -65536 <= fx_mul_spec(r.w as int, r.y as int) <= 65536,
        -65536 <= fx_mul_spec(r.w as int, r.z as int) <= 65536,
{
    lemma_fx_mul_bound(r.x as int, r.x as int, 65536, 65536);
    lemma_fx_mul_bound(r.y as int, r.y as int, 65536, 65536);
    lemma_fx_mul_bound(r.z as int, r.z as int, 65536, 65536);
    lemma_fx_mul_bound(r.x as int, r.y as int, 65536, 65536);
    lemma_fx_mul_bound(r.x as int, r.z as int, 65536, 65536);
    lemma_fx_mul_bound(r.y as int, r.z as int, 65536, 65536);
    lemma_fx_mul_bound(r.w as int, r.x as int, 65536, 65536);
    lemma_fx_mul_bound(r.w as int, r.y as int, 65536, 65536);
    lemma_fx_mul_bound(r.w as int, r.z as int, 65536, 65536);
    assert(0 <= (r.x as int) * (r.x as int)) by (nonlinear_arith);
    assert(0 <= (r.y as int) * (r.y as int)) by (nonlinear_arith);
    assert(0 <= (r.z as int) * (r.z as int)) by (nonlinear_arith);
    assert(scale_down((r.x as int) * (r.x as int)) >= 0);
    assert(scale_down((r.y as int) * (r.y as int)) >= 0);
    assert(scale_down((r.z as int) * (r.z as int)) >= 0);
}

/// The composed TRS model matrix, exact per `trs_mat_spec`.
pub fn trs_matrix(t: &Vec3, r: &Quat, s: &Vec3) -> (m: Mat4)
    requires
        trs_wf(*t, *r, *s),
    ensures
        m == trs_mat_spec(*t, *r, *s),
        m.bounded(TRS_BOUND as int),
{
    proof {
        lemma_quat_products(*r);
    }
    let xx = fx_mul(r.x, r.x);
    let yy = fx_mul(r.y, r.y);
    let zz = fx_mul(r.z, r.z);
    let xy = fx_mul(r.x, r.y);
    let xz = fx_mul(r.x, r.z);
    let yz = fx_mul(r.y, r.z);
    let wx = fx_mul(r.w, r.x);
    let wy = fx_mul(r.w, r.y);
    let wz = fx_mul(r.w, r.z);
    let r00: i64 = FX_ONE - 2 * yy - 2 * zz;
    let r10: i64 = 2 * xy + 2 * wz;
    let r20: i64 = 2 * xz - 2 * wy;
    let r01: i64 = 2 * xy - 2 * wz;
    let r11: i64 = FX_ONE - 2 * xx - 2 * zz;
    let r21: i64 = 2 * yz + 2 * wx;
    let r02: i64 = 2 * xz + 2 * wy;
    let r12: i64 = 2 * yz - 2 * wx;
    let r22: i64 = FX_ONE - 2 * xx - 2 * yy;
    proof {
        lemma_fx_mul_bound(r00 as int, s.x as int, 262144, SCALE_MAX as int);
        lemma_fx_mul_bound(r10 as int, s.x as int, 262144, SCALE_MAX as int);
        lemma_fx_mul_bound(r20 as int, s.x as int, 262144, SCALE_MAX as int);
        lemma_fx_mul_bound(r01 as int, s.y as int, 262144, SCALE_MAX as int);
        lemma_fx_mul_bound(r11 as int, s.y as int, 262144, SCALE_MAX as int);
        lemma_fx_mul_bound(r21 as int, s.y as int, 262144, SCALE_MAX as int);
        lemma_fx_mul_bound(r02 as int, s.z as int, 262144, SCALE_MAX as int);
        lemma_fx_mul_bound(r12 as int, s.z as int, 262144, SCALE_MAX as int);
        lemma_fx_mul_bound(r22 as int, s.z as int, 262144, SCALE_MAX as int);
    }
    let m = Mat4 {
        c0: Vec4 { x: fx_mul(r00, s.x), y: fx_mul(r10, s.x), z: fx_mul(r20, s.x), w: 0 },
        c1: Vec4 { x: fx_mul(r01, s.y), y: fx_mul(r11, s.y), z: fx_mul(r21, s.y), w: 0 },
        c2: Vec4 { x: fx_mul(r02, s.z), y: fx_mul(r12, s.z), z: fx_mul(r22, s.z), w: 0 },
        c3: Vec4 { x: t.x, y: t.y, z: t.z, w: FX_ONE },
    };
    proof {
        assert(m =~= trs_mat_spec(*t, *r, *s));
        lemma_fields_bounded(m, TRS_BOUND as int);
    }
    m
}

/// The inverse of the TRS matrix, exact per `trs_inverse_spec`.
pub fn trs_inverse(t: &Vec3, r: &Quat, s: &Vec3) -> (m: Mat4)
    requires
        trs_wf(*t, *r, *s),
    ensures
        m == trs_inverse_spec(*t, *r, *s),
        m.bounded(VINV_BOUND as int),
{
    proof {
        lemma_quat_products(*r);
        vstd::arithmetic::div_mod::lemma_div_is_ordered_by_denominator(
            0x1_0000_0000,
            SCALE_MIN as int,
            s.x as int,
        );
        vstd::arithmetic::div_mod::lemma_div_is_ordered_by_denominator(
            0x1_0000_0000,
            SCALE_MIN as int,
            s.y as int,
        );
        vstd::arithmetic::div_mod::lemma_div_is_ordered_by_denominator(
            0x1_0000_0000,
            SCALE_MIN as int,
            s.z as int,
        );
        vstd::arithmetic::div_mod::lemma_div_pos_is_pos(0x1_0000_0000, s.x as int);
        vstd::arithmetic::div_mod::lemma_div_pos_is_pos(0x1_0000_0000, s.y as int);
        vstd::arithmetic::div_mod::lemma_div_pos_is_pos(0x1_0000_0000, s.z as int);
    }
    let xx = fx_mul(r.x, r.x);
    let yy = fx_mul(r.y, r.y);
    let zz = fx_mul(r.z, r.z);
    let xy = fx_mul(r.x, r.y);
    let xz = fx_mul(r.x, r.z);
    let yz = fx_mul(r.y, r.z);
    let wx = fx_mul(r.w, r.x);
    let wy = fx_mul(r.w, r.y);
    let wz = fx_mul(r.w, r.z);
    let r00: i64 = FX_ONE - 2 * yy - 2 * zz;
    let r10: i64 = 2 * xy + 2 * wz;
    let r20: i64 = 2 * xz - 2 * wy;
    let r01: i64 = 2 * xy - 2 * wz;
    let r11: i64 = FX_ONE - 2 * xx - 2 * zz;
    let r21: i64 = 2 * yz + 2 * wx;
    let r02: i64 = 2 * xz + 2 * wy;
    let r12: i64 = 2 * yz - 2 * wx;
    let r22: i64 = FX_ONE - 2 * xx - 2 * yy;
    let isx = fx_div(FX_ONE, s.x);
    let isy = fx_div(FX_ONE, s.y);
    let isz = fx_div(FX_ONE, s.z);
    proof {
        lemma_fx_mul_bound(isx as int, r00 as int, SCALE_MAX as int, 262144);
        lemma_fx_mul_bound(isx as int, r10 as int, SCALE_MAX as int, 262144);
        lemma_fx_mul_bound(isx as int, r20 as int, SCALE_MAX as int, 262144);
        lemma_fx_mul_bound(isy as int, r01 as int, SCALE_MAX as int, 262144);
        lemma_fx_mul_bound(isy as int, r11 as int, SCALE_MAX as int, 262144);
        lemma_fx_mul_bound(isy as int, r21 as int, SCALE_MAX as int, 262144);
        lemma_fx_mul_bound(isz as int, r02 as int, SCALE_MAX as int, 262144);
        lemma_fx_mul_bound(isz as int, r12 as int, SCALE_MAX as int, 262144);
        lemma_fx_mul_bound(isz as int, r22 as int, SCALE_MAX as int, 262144);
    }
    let e00 = fx_mul(isx, r00);
    let e01 = fx_mul(isx, r10);
    let e02 = fx_mul(isx, r20);
    let e10 = fx_mul(isy, r01);
    let e11 = fx_mul(isy, r11);
    let e12 = fx_mul(isy, r21);
    let e20 = fx_mul(isz, r02);
    let e21 = fx_mul(isz, r12);
    let e22 = fx_mul(isz, r22);
    proof {
        lemma_fx_mul_bound(e00 as int, t.x as int, 0x20_0000, TRANS_BOUND as int);
        lemma_fx_mul_bound(e01 as int, t.y as int, 0x20_0000, TRANS_BOUND as int);
        lemma_fx_mul_bound(e02 as int, t.z as int, 0x20_0000, TRANS_BOUND as int);
        lemma_fx_mul_bound(e10 as int, t.x as int, 0x20_0000, TRANS_BOUND as int);
        lemma_fx_mul_bound(e11 as int, t.y as int, 0x20_0000, TRANS_BOUND as int);
        lemma_fx_mul_bound(e12 as int, t.z as int, 0x20_0000, TRANS_BOUND as int);
        lemma_fx_mul_bound(e20 as int, t.x as int, 0x20_0000, TRANS_BOUND as int);
        lemma_fx_mul_bound(e21 as int, t.y as int, 0x20_0000, TRANS_BOUND as int);
        lemma_fx_mul_bound(e22 as int, t.z as int, 0x20_0000, TRANS_BOUND as int);
    }
    let tx: i64 = -(fx_mul(e00, t.x) + fx_mul(e01, t.y) + fx_mul(e02, t.z));
    let ty: i64 = -(fx_mul(e10, t.x) + fx_mul(e11, t.y) + fx_mul(e12, t.z));
    let tz: i64 = -(fx_mul(e20, t.x) + fx_mul(e21, t.y) + fx_mul(e22, t.z));
    let m = Mat4 {
        c0: Vec4 { x: e00, y: e10, z: e20, w: 0 },
        c1: Vec4 { x: e01, y: e11, z: e21, w: 0 },
        c2: Vec4 { x: e02, y: e12, z: e22, w: 0 },
        c3: Vec4 { x: tx, y: ty, z: tz, w: FX_ONE },
    };
    proof {
        assert(m =~= trs_inverse_spec(*t, *r, *s));
        lemma_fields_bounded(m, VINV_BOUND as int);
    }
    m
}

/// Multiplying by the identity on the right changes nothing.
pub proof fn lemma_mul_identity_right(a: Mat4)
    ensures
        mat_mul_spec(a, Mat4::identity_spec()) == a,
{
    assert forall|r: int, c: int| 0 <= r < 4 && 0 <= c < 4 implies #[trigger] mul_entry_spec(
        a,
        Mat4::identity_spec(),
        r,
        c,
    ) == a.entry(r, c) by {
        let i = Mat4::identity_spec();
        lemma_scale_down_exact(a.entry(r, c));
        if c == 0 {
            assert(i.entry(0, 0) == 65536 && i.entry(1, 0) == 0 && i.entry(2, 0) == 0 && i.entry(
                3,
                0,
            ) == 0);
            assert(mul_entry_spec(a, i, r, 0) == scale_down(a.entry(r, 0) * 65536));
        } else if c == 1 {
            assert(i.entry(0, 1) == 0 && i.entry(1, 1) == 65536 && i.entry(2, 1) == 0 && i.entry(
                3,
                1,
            ) == 0);
            assert(mul_entry_spec(a, i, r, 1) == scale_down(a.entry(r, 1) * 65536));
        } else if c == 2 {
            assert(i.entry(0, 2) == 0 && i.entry(1, 2) == 0 && i.entry(2, 2) == 65536 && i.entry(
                3,
                2,
            ) == 0);
            assert(mul_entry_spec(a, i, r, 2) == scale_down(a.entry(r, 2) * 65536));
        } else {
            assert(i.entry(0, 3) == 0 && i.entry(1, 3) == 0 && i.entry(2, 3) == 0 && i.entry(3, 3)
                == 65536);
            assert(mul_entry_spec(a, i, r, 3) == scale_down(a.entry(r, 3) * 65536));
        }
    }
    assert(mat_mul_spec(a, Mat4::identity_spec()) =~= a);
}

} // verus!
