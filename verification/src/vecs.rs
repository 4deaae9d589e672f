//! Fixed-point vectors and angles.
//!
//! Directions, velocities, positions and surface normals are vectors of
//! fixed-point scalars. An angle that the simulation needs to rotate by is
//! carried as its sine/cosine pair ([`AngleBasis`]), so that every rotation
//! is plain linear arithmetic; the trigonometric evaluation itself happens
//! outside the library, where the angle is produced.

use vstd::prelude::*;

verus! {

use crate::fixed::{
    abs_spec,
    div_trunc,
    fp_mul,
    fp_mul_spec,
    isqrt,
    lemma_fp_mul_le_left,
    FP_MAX,
    SCALE,
};

/// A planar input direction (sticks, movement keys): `x` is rightward,
/// `y` forward.
#[derive(Clone, Copy, Debug, PartialEq, Eq, Structural)]
pub struct Vec2Fp {
    pub x: i64,
    pub y: i64,
}

/// A world-space vector: `x`/`z` horizontal, `y` up.
#[derive(Clone, Copy, Debug, PartialEq, Eq, Structural)]
pub struct Vec3Fp {
    pub x: i64,
    pub y: i64,
    pub z: i64,
}

/// The sine and cosine of an angle, as fixed-point scalars in
/// `[-SCALE, SCALE]`.
#[derive(Clone, Copy, Debug, PartialEq, Eq, Structural)]
pub struct AngleBasis {
    pub sin: i64,
    pub cos: i64,
}

impl Vec2Fp {
    /// Both components have magnitude at most `m`.
    pub open spec fn in_range(self, m: int) -> bool {
        abs_spec(self.x as int) <= m && abs_spec(self.y as int) <= m
    }

    pub open spec fn is_zero_spec(self) -> bool {
        self.x == 0 && self.y == 0
    }

    pub fn new(x: i64, y: i64) -> (r: Vec2Fp)
        ensures
            r.x == x,
            r.y == y,
    {
        Vec2Fp { x, y }
    }

    /// Whether this is the zero vector (equivalently, whether its squared
    /// length is zero).
    pub fn is_zero(&self) -> (r: bool)
        ensures
            r == self.is_zero_spec(),
    {
        self.x == 0 && self.y == 0
    }

    /// The squared length, exactly.
    pub fn length_squared(&self) -> (r: i64)
        requires
            self.in_range(2_000_000_000),
        ensures
            r == len_sq_2(*self),
            r >= 0,
    {
        proof {
            lemma_square_bound(self.x as int, 2_000_000_000);
            lemma_square_bound(self.y as int, 2_000_000_000);
        }
        self.x * self.x + self.y * self.y
    }

    /// The vector clamped to (fixed-point) unit length: left alone when its
    /// length is at most 1, scaled down to length 1 (components rounded
    /// toward zero) when longer.
    pub fn clamp_unit(&self) -> (r: Vec2Fp)
        requires
            self.in_range(2_000_000_000),
        ensures
            r == clamp_unit_spec(*self),
            r.in_range(SCALE as int),
    {
        let n = self.length_squared();
        proof {
            assert(len_sq_2(*self) >= 0 && (self.x as int) * (self.x as int) <= len_sq_2(*self)
                && (self.y as int) * (self.y as int) <= len_sq_2(*self)) by (nonlinear_arith);
        }
        if n <= SCALE * SCALE {
            proof {
                assert(abs_spec(self.x as int) <= SCALE && abs_spec(self.y as int) <= SCALE)
                    by (nonlinear_arith)
                    requires
                        (self.x as int) * (self.x as int) <= (SCALE as int) * (SCALE as int),
                        (self.y as int) * (self.y as int) <= (SCALE as int) * (SCALE as int),
                ;
            }
            return *self;
        }
        let len = isqrt(n as u64);
        proof {
            lemma_square_bound(self.x as int, 2_000_000_000);
            lemma_square_bound(self.y as int, 2_000_000_000);
            lemma_sqrt_floor_unique(n as int, len as int);
            assert(len >= SCALE) by (nonlinear_arith)
                requires
                    (n as int) < ((len as int) + 1) * ((len as int) + 1),
                    (n as int) > (SCALE as int) * (SCALE as int),
                    len >= 0,
            ;
            assert(len as int <= FP_MAX) by (nonlinear_arith)
                requires
                    (len as int) * (len as int) <= n as int,
                    n as int <= 8_000_000_000_000_000_000,
                    len >= 0,
            ;
            lemma_component_le_length(self.x as int, n as int, len as int);
            lemma_component_le_length(self.y as int, n as int, len as int);
            lemma_scaled_div_le_scale(self.x as int, len as int);
            lemma_scaled_div_le_scale(self.y as int, len as int);
        }
        let x = scaled_div(self.x, len as i64);
        let y = scaled_div(self.y, len as i64);
        proof {
            assert(div_trunc((self.x as int) * (SCALE as int), len as int) == x as int);
            assert(div_trunc((self.y as int) * (SCALE as int), len as int) == y as int);
        }
        Vec2Fp { x, y }
    }
}

impl Vec3Fp {
    /// All components have magnitude at most `m`.
    pub open spec fn in_range(self, m: int) -> bool {
        abs_spec(self.x as int) <= m && abs_spec(self.y as int) <= m && abs_spec(self.z as int)
            <= m
    }

    pub open spec fn is_zero_spec(self) -> bool {
        self.x == 0 && self.y == 0 && self.z == 0
    }

    /// The unit vector pointing up, the default surface normal.
    pub fn up() -> (r: Vec3Fp)
        ensures
            r == up_spec(),
    {
        Vec3Fp { x: 0, y: SCALE, z: 0 }
    }

    pub fn new(x: i64, y: i64, z: i64) -> (r: Vec3Fp)
        ensures
            r.x == x,
            r.y == y,
            r.z == z,
    {
        Vec3Fp { x, y, z }
    }

    pub fn is_zero(&self) -> (r: bool)
        ensures
            r == self.is_zero_spec(),
    {
        self.x == 0 && self.y == 0 && self.z == 0
    }

    /// The squared length, exactly.
    pub fn length_squared(&self) -> (r: i64)
        requires
            self.in_range(1_500_000_000),
        ensures
            r == len_sq_3(*self),
            r >= 0,
    {
        proof {
            lemma_square_bound(self.x as int, 1_500_000_000);
            lemma_square_bound(self.y as int, 1_500_000_000);
            lemma_square_bound(self.z as int, 1_500_000_000);
        }
        self.x * self.x + self.y * self.y + self.z * self.z
    }

    /// The vector difference `self - other`.
    pub fn sub(&self, other: &Vec3Fp) -> (r: Vec3Fp)
        requires
            self.in_range(FP_MAX as int),
            other.in_range(FP_MAX as int),
        ensures
            r.x == self.x - other.x,
            r.y == self.y - other.y,
            r.z == self.z - other.z,
    {
        Vec3Fp { x: self.x - other.x, y: self.y - other.y, z: self.z - other.z }
    }

    /// The length, rounded down: the largest `r` with `r * r` at most the
    /// squared length.
    pub fn length(&self) -> (r: i64)
        requires
            self.in_range(1_500_000_000),
        ensures
            r == sqrt_floor(len_sq_3(*self)),
            0 <= r <= FP_MAX,
    {
        proof {
            lemma_square_bound(self.x as int, 1_500_000_000);
            lemma_square_bound(self.y as int, 1_500_000_000);
            lemma_square_bound(self.z as int, 1_500_000_000);
        }
        let n: u64 = (self.x * self.x) as u64 + (self.y * self.y) as u64 + (self.z * self.z) as u64;
        let r = isqrt(n);
        proof {
            assert((FP_MAX as int) * (FP_MAX as int) >= n as int);
            if r as int > FP_MAX as int {
                vstd::arithmetic::mul::lemma_mul_upper_bound(
                    FP_MAX as int + 1,
                    r as int,
                    FP_MAX as int + 1,
                    r as int,
                );
            }
            lemma_sqrt_floor_unique(n as int, r as int);
        }
        r as i64
    }
}

/// The squared length of a planar vector.
pub open spec fn len_sq_2(v: Vec2Fp) -> int {
    (v.x as int) * (v.x as int) + (v.y as int) * (v.y as int)
}

/// What [`Vec2Fp::clamp_unit`] returns: the vector unchanged within unit
/// length, scaled down to unit length (components rounded toward zero)
/// beyond it.
pub open spec fn clamp_unit_spec(v: Vec2Fp) -> Vec2Fp {
    if len_sq_2(v) <= (SCALE as int) * (SCALE as int) {
        v
    } else {
        let len = sqrt_floor(len_sq_2(v));
        Vec2Fp {
            x: div_trunc((v.x as int) * (SCALE as int), len) as i64,
            y: div_trunc((v.y as int) * (SCALE as int), len) as i64,
        }
    }
}

/// What [`normalize_or`] returns: `fallback` for the zero vector, otherwise
/// each component times `SCALE` over the rounded-down length.
pub open spec fn normalize_or_spec(v: Vec3Fp, fallback: Vec3Fp) -> Vec3Fp {
    if v.is_zero_spec() {
        fallback
    } else {
        let len = sqrt_floor(len_sq_3(v));
        Vec3Fp {
            x: div_trunc((v.x as int) * (SCALE as int), len) as i64,
            y: div_trunc((v.y as int) * (SCALE as int), len) as i64,
            z: div_trunc((v.z as int) * (SCALE as int), len) as i64,
        }
    }
}

/// The spec-level up vector.
pub open spec fn up_spec() -> Vec3Fp {
    Vec3Fp { x: 0, y: SCALE, z: 0 }
}

/// The squared length of a three-component vector.
pub open spec fn len_sq_3(v: Vec3Fp) -> int {
    (v.x as int) * (v.x as int) + (v.y as int) * (v.y as int) + (v.z as int) * (v.z as int)
}

/// Whether `r` is the square root of `n`, rounded down.
pub open spec fn is_sqrt_floor(n: int, r: int) -> bool {
    0 <= r && r * r <= n && n < (r + 1) * (r + 1)
}

/// The square root of `n`, rounded down.
pub open spec fn sqrt_floor(n: int) -> int {
    choose|r: int| is_sqrt_floor(n, r)
}

/// Any integer `r` whose square brackets `n` is the rounded-down square root.
pub proof fn lemma_sqrt_floor_unique(n: int, r: int)
    requires
        is_sqrt_floor(n, r),
    ensures
        sqrt_floor(n) == r,
{
    assert(exists|q: int| is_sqrt_floor(n, q)) by {
        assert(is_sqrt_floor(n, r));
    }
    let q = sqrt_floor(n);
    if q < r {
        assert((q + 1) * (q + 1) <= r * r) by (nonlinear_arith)
            requires
                0 <= q < r,
        ;
    }
    if r < q {
        assert((r + 1) * (r + 1) <= q * q) by (nonlinear_arith)
            requires
                0 <= r < q,
        ;
    }
}

/// The rounded-down square root satisfies its defining property.
pub proof fn lemma_sqrt_floor_bounds(n: int)
    requires
        n >= 0,
    ensures
        is_sqrt_floor(n, sqrt_floor(n)),
{
    lemma_sqrt_floor_exists(n);
}

/// A square of a scalar of magnitude at most `m` is at most `m * m`.
pub proof fn lemma_square_bound(x: int, m: int)
    requires
        abs_spec(x) <= m,
    ensures
        0 <= x * x <= m * m,
{
    assert(0 <= x * x <= m * m) by (nonlinear_arith)
        requires
            abs_spec(x) <= m,
    ;
}

impl AngleBasis {
    /// A usable basis: both components within `[-SCALE, SCALE]`, as the sine
    /// and cosine of any angle are.
    pub open spec fn wf(self) -> bool {
        abs_spec(self.sin as int) <= SCALE && abs_spec(self.cos as int) <= SCALE
    }

    pub fn new(sin: i64, cos: i64) -> (r: AngleBasis)
        requires
            abs_spec(sin as int) <= SCALE,
            abs_spec(cos as int) <= SCALE,
        ensures
            r.sin == sin,
            r.cos == cos,
            r.wf(),
    {
        AngleBasis { sin, cos }
    }

    /// The basis of angle zero.
    pub fn zero() -> (r: AngleBasis)
        ensures
            r.sin == 0,
            r.cos == SCALE,
            r.wf(),
    {
        AngleBasis { sin: 0, cos: SCALE }
    }
}

/// The world-space `x` component of a planar input direction rotated by the
/// camera yaw: the input `(x, y)` becomes the local vector `(x, 0, -y)` and
/// is turned about the vertical axis.
pub open spec fn yaw_world_x(yaw: AngleBasis, d: Vec2Fp) -> int {
    fp_mul_spec(d.x as int, yaw.cos as int) - fp_mul_spec(d.y as int, yaw.sin as int)
}

/// The world-space `z` component of the same rotation.
pub open spec fn yaw_world_z(yaw: AngleBasis, d: Vec2Fp) -> int {
    -fp_mul_spec(d.x as int, yaw.sin as int) - fp_mul_spec(d.y as int, yaw.cos as int)
}

/// Rotates a planar input direction into world space using the camera's yaw:
/// input `(x, y)` is read as the local horizontal vector `(x, 0, -y)` and
/// rotated about the vertical axis. Purely horizontal: the `y` component of
/// the result is zero.
pub fn rotate_input_to_world(yaw: &AngleBasis, d: &Vec2Fp) -> (r: Vec3Fp)
    requires
        yaw.wf(),
        d.in_range(FP_MAX as int),
    ensures
        r.x == yaw_world_x(*yaw, *d),
        r.y == 0,
        r.z == yaw_world_z(*yaw, *d),
        r.in_range(abs_spec(d.x as int) + abs_spec(d.y as int)),
{
    proof {
        lemma_fp_mul_le_left(d.x as int, yaw.cos as int);
        lemma_fp_mul_le_left(d.y as int, yaw.sin as int);
        lemma_fp_mul_le_left(d.x as int, yaw.sin as int);
        lemma_fp_mul_le_left(d.y as int, yaw.cos as int);
    }
    let xc = fp_mul(d.x, yaw.cos);
    let ys = fp_mul(d.y, yaw.sin);
    let xs = fp_mul(d.x, yaw.sin);
    let yc = fp_mul(d.y, yaw.cos);
    Vec3Fp { x: xc - ys, y: 0, z: -xs - yc }
}

/// Normalizes `v` to (fixed-point) unit length, rounding each component
/// toward zero; a zero vector becomes `fallback` instead, the canonical
/// substitute for a degenerate direction.
pub fn normalize_or(v: &Vec3Fp, fallback: &Vec3Fp) -> (r: Vec3Fp)
    requires
        v.in_range(1_500_000_000),
        fallback.in_range(SCALE as int),
    ensures
        r == normalize_or_spec(*v, *fallback),
        r.in_range(SCALE as int),
{
    if v.is_zero() {
        return *fallback;
    }
    let len = v.length();
    proof {
        assert(len_sq_3(*v) >= 0 && (v.x as int) * (v.x as int) <= len_sq_3(*v) && (v.y as int)
            * (v.y as int) <= len_sq_3(*v) && (v.z as int) * (v.z as int) <= len_sq_3(*v))
            by (nonlinear_arith);
        lemma_sqrt_positive(*v);
        lemma_sqrt_floor_bounds(len_sq_3(*v));
    }
    let x = scaled_div(v.x, len);
    let y = scaled_div(v.y, len);
    let z = scaled_div(v.z, len);
    proof {
        lemma_component_le_length(v.x as int, len_sq_3(*v), len as int);
        lemma_component_le_length(v.y as int, len_sq_3(*v), len as int);
        lemma_component_le_length(v.z as int, len_sq_3(*v), len as int);
        lemma_scaled_div_le_scale(v.x as int, len as int);
        lemma_scaled_div_le_scale(v.y as int, len as int);
        lemma_scaled_div_le_scale(v.z as int, len as int);
    }
    Vec3Fp { x, y, z }
}

/// `a * SCALE / b` rounded toward zero, for positive `b`.
fn scaled_div(a: i64, b: i64) -> (r: i64)
    requires
        abs_spec(a as int) <= 2_000_000_000,
        0 < b <= FP_MAX,
    ensures
        r == div_trunc((a as int) * (SCALE as int), b as int),
{
    let neg = a < 0;
    let ua: u64 = (if a < 0 {
        -a
    } else {
        a
    }) as u64;
    proof {
        vstd::arithmetic::mul::lemma_mul_upper_bound(
            ua as int,
            2_000_000_000,
            SCALE as int,
            SCALE as int,
        );
        assert((ua as int) * (SCALE as int) == abs_spec((a as int) * (SCALE as int)))
            by (nonlinear_arith)
            requires
                ua == abs_spec(a as int),
        ;
        if (a as int) * (SCALE as int) >= 0 {
            vstd::arithmetic::div_mod::lemma_div_pos_is_pos((a as int) * (SCALE as int), b as int);
        } else {
            vstd::arithmetic::div_mod::lemma_div_pos_is_pos(
                -((a as int) * (SCALE as int)),
                b as int,
            );
        }
        vstd::arithmetic::div_mod::lemma_div_is_ordered(
            (ua as int) * (SCALE as int),
            2_000_000_000 * (SCALE as int),
            b as int,
        );
    }
    let n: u64 = ua * (SCALE as u64);
    let q: u64 = n / (b as u64);
    let qi: i64 = q as i64;
    if neg {
        -qi
    } else {
        qi
    }
}

/// A nonzero vector has a positive rounded-down length.
proof fn lemma_sqrt_positive(v: Vec3Fp)
    requires
        !v.is_zero_spec(),
    ensures
        sqrt_floor(len_sq_3(v)) >= 1,
{
    let n = len_sq_3(v);
    assert(n >= 1) by (nonlinear_arith)
        requires
            n == len_sq_3(v),
            !(v.x == 0 && v.y == 0 && v.z == 0),
    ;
    lemma_sqrt_floor_bounds(n);
    let r = sqrt_floor(n);
    if r == 0 {
        assert(n < (0 + 1) * (0 + 1));
        assert(false);
    }
}

/// Every nonnegative integer has a rounded-down square root.
proof fn lemma_sqrt_floor_exists(n: int)
    requires
        n >= 0,
    ensures
        exists|q: int| is_sqrt_floor(n, q),
    decreases n,
{
    if n == 0 {
        assert(is_sqrt_floor(n, 0));
    } else {
        lemma_sqrt_floor_exists(n - 1);
        let q = sqrt_floor(n - 1);
        assert(is_sqrt_floor(n - 1, q));
        if (q + 1) * (q + 1) <= n {
            assert(n < (q + 1 + 1) * (q + 1 + 1)) by (nonlinear_arith)
                requires
                    n - 1 < (q + 1) * (q + 1),
                    0 <= q,
            ;
            assert(is_sqrt_floor(n, q + 1));
        } else {
            assert(is_sqrt_floor(n, q));
        }
    }
}

/// A component of a vector is bounded by the vector's rounded-down length.
proof fn lemma_component_le_length(x: int, n: int, len: int)
    requires
        x * x <= n,
        0 <= len,
        len * len <= n < (len + 1) * (len + 1),
    ensures
        abs_spec(x) <= len,
{
    if abs_spec(x) > len {
        assert((len + 1) * (len + 1) <= x * x) by (nonlinear_arith)
            requires
                0 <= len,
                abs_spec(x) >= len + 1,
        ;
    }
}

/// Dividing `x * SCALE` by a length at least `|x|` keeps the quotient within
/// `[-SCALE, SCALE]`.
proof fn lemma_scaled_div_le_scale(x: int, len: int)
    requires
        0 < len,
        abs_spec(x) <= len,
    ensures
        abs_spec(div_trunc(x * (SCALE as int), len)) <= SCALE,
{
    assert(abs_spec(x * (SCALE as int)) == abs_spec(x) * (SCALE as int)) by (nonlinear_arith);
    vstd::arithmetic::mul::lemma_mul_inequality(abs_spec(x), len, SCALE as int);
    vstd::arithmetic::div_mod::lemma_div_is_ordered(
        abs_spec(x) * (SCALE as int),
        len * (SCALE as int),
        len,
    );
    assert(len * (SCALE as int) / len == SCALE as int) by {
        vstd::arithmetic::div_mod::lemma_div_multiples_vanish(SCALE as int, len);
    }
    if x * (SCALE as int) >= 0 {
        vstd::arithmetic::div_mod::lemma_div_pos_is_pos(x * (SCALE as int), len);
        assert(x >= 0 || x * (SCALE as int) == 0) by (nonlinear_arith)
            requires
                x * (SCALE as int) >= 0,
        ;
    } else {
        vstd::arithmetic::div_mod::lemma_div_pos_is_pos(-(x * (SCALE as int)), len);
    }
}


} // verus!
