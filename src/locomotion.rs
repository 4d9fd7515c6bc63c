//! Movement intent and the locomotion basis derived from it.

use vstd::prelude::*;
use crate::arith::{floor_sqrt, floor_sqrt_spec, lemma_floor_sqrt};
use crate::input::{Action, ActionState};
use crate::vector::Vector3;

verus! {

/// The length of a unit direction.
pub const DIRECTION_SCALE: i64 = 10_000_000_000;

/// The square of `DIRECTION_SCALE`.
pub const DIRECTION_SCALE_SQ: u128 = 100_000_000_000_000_000_000;

/// The horizontal direction of travel in units of `1 / DIRECTION_SCALE`.
#[derive(Clone, Copy, Debug, PartialEq, Eq, Structural)]
pub struct MovementIntent {
    /// Rightward component.
    pub dx: i64,
    /// Forward component.
    pub dz: i64,
}

/// The magnitude of `x`.
pub open spec fn abs(x: int) -> int {
    if x >= 0 {
        x
    } else {
        -x
    }
}

/// The magnitude `m` with the sign of `c`.
pub open spec fn with_sign_of(c: int, m: int) -> int {
    if c >= 0 {
        m
    } else {
        -m
    }
}

/// `a / s` rounded to the nearest integer, halves away from zero.
pub open spec fn div_nearest(a: int, s: int) -> int {
    with_sign_of(a, (abs(a) + s / 2) / s)
}

/// Component `c` of the axis input `(x, z)` normalised to `DIRECTION_SCALE`: the exact value
/// `c * DIRECTION_SCALE / sqrt(x * x + z * z)` rounded toward zero.
pub open spec fn direction_component(c: int, x: int, z: int) -> int {
    if x == 0 && z == 0 {
        0
    } else {
        with_sign_of(
            c,
            floor_sqrt_spec(c * c * DIRECTION_SCALE * DIRECTION_SCALE / (x * x + z * z)),
        )
    }
}

/// The intent that the axis input `(x, z)` gives.
pub open spec fn intent_of_axes(x: int, z: int) -> MovementIntent {
    MovementIntent {
        dx: direction_component(x, x, z) as i64,
        dz: direction_component(z, x, z) as i64,
    }
}

/// The rightward axis value of the held directional actions.
pub open spec fn axis_x(s: ActionState) -> int {
    (if s.move_right.is_active { 1int } else { 0int }) - (if s.move_left.is_active { 1int } else { 0int })
}

/// The forward axis value of the held directional actions.
pub open spec fn axis_z(s: ActionState) -> int {
    (if s.move_forward.is_active { 1int } else { 0int }) - (if s.move_back.is_active { 1int } else { 0int })
}

/// The locomotion basis that `compute` yields: the direction times `max_speed`, to the nearest
/// mm/s.
pub open spec fn basis_of(intent: MovementIntent, max_speed: u32, float_height: u32) -> LocomotionBasis {
    LocomotionBasis {
        desired_velocity: Vector3 {
            x: div_nearest(intent.dx * max_speed, DIRECTION_SCALE as int) as i64,
            y: 0,
            z: div_nearest(intent.dz * max_speed, DIRECTION_SCALE as int) as i64,
        },
        target_float_height: float_height,
    }
}

proof fn lemma_abs_square(x: int)
    ensures
        abs(x) * abs(x) == x * x,
        abs(x) >= 0,
{
    assert((-x) * (-x) == x * x) by (nonlinear_arith);
}

/// The rounded-down root of `c * c * s * s / w` for `c * c <= w` is at most `s`, and its
/// square is at most that quotient.
proof fn lemma_direction_magnitude(c: int, w: int, s: int)
    requires
        w > 0,
        s > 0,
        c * c <= w,
    ensures
        0 <= floor_sqrt_spec(c * c * s * s / w) <= s,
        floor_sqrt_spec(c * c * s * s / w) * floor_sqrt_spec(c * c * s * s / w) <= c * c * s * s / w,
        (c * c * s * s / w) * w <= c * c * s * s,
{
    let q = c * c * s * s / w;
    assert(0 <= q && q * w <= c * c * s * s && q <= s * s) by (nonlinear_arith)
        requires
            w > 0,
            c * c <= w,
            q == c * c * s * s / w,
    {
        assert(c * c * s * s <= w * (s * s));
    }
    lemma_floor_sqrt(q as nat);
    let d = floor_sqrt_spec(q);
    assert(d <= s) by (nonlinear_arith)
        requires
            d >= 0,
            s > 0,
            d * d <= q,
            q <= s * s,
    ;
}

/// Normalising any axis input gives a direction no longer than the unit length, so diagonal
/// input is never faster than input along one axis.
pub proof fn lemma_direction_within_unit(x: int, z: int)
    ensures
        direction_component(x, x, z) * direction_component(x, x, z)
            + direction_component(z, x, z) * direction_component(z, x, z)
            <= DIRECTION_SCALE * DIRECTION_SCALE,
        -DIRECTION_SCALE <= direction_component(x, x, z) <= DIRECTION_SCALE,
        -DIRECTION_SCALE <= direction_component(z, x, z) <= DIRECTION_SCALE,
{
    if x != 0 || z != 0 {
        let s = DIRECTION_SCALE as int;
        let w = x * x + z * z;
        assert(x * x >= 0 && z * z >= 0 && w > 0) by (nonlinear_arith)
            requires
                x != 0 || z != 0,
                w == x * x + z * z,
        ;
        lemma_direction_magnitude(x, w, s);
        lemma_direction_magnitude(z, w, s);
        let qx = x * x * s * s / w;
        let qz = z * z * s * s / w;
        let dx = floor_sqrt_spec(qx);
        let dz = floor_sqrt_spec(qz);
        assert(qx + qz <= s * s) by (nonlinear_arith)
            requires
                w > 0,
                qx * w <= x * x * s * s,
                qz * w <= z * z * s * s,
                w == x * x + z * z,
        {
            assert((qx + qz) * w <= w * (s * s));
        }
        let cx = direction_component(x, x, z);
        let cz = direction_component(z, x, z);
        assert(cx * cx == dx * dx && cz * cz == dz * dz) by (nonlinear_arith)
            requires
                cx == dx || cx == -dx,
                cz == dz || cz == -dz,
        ;
    }
}

/// One normalised component times `m`, rounded to the nearest integer, lies within one of
/// the exact `c * m / sqrt(w)`: below it by less than one, and above it by less than one.
proof fn lemma_speed_component(c: int, w: int, m: int, s: int)
    requires
        w > 0,
        c * c <= w,
        s == DIRECTION_SCALE,
        0 <= m <= 0xffffffff,
    ensures
        ({
            let u = (floor_sqrt_spec(c * c * s * s / w) * m + s / 2) / s;
            &&& u >= 0
            &&& c * c * (m * m) < (u + 1) * (u + 1) * w
            &&& u >= 1 ==> (u - 1) * (u - 1) * w < c * c * (m * m)
        }),
{
    let q = c * c * s * s / w;
    lemma_direction_magnitude(c, w, s);
    lemma_floor_sqrt(q as nat);
    let d = floor_sqrt_spec(q);
    let u = (d * m + s / 2) / s;
    let h = s / 2;
    assert(h == 5_000_000_000);
    assert(d * m >= 0) by (nonlinear_arith)
        requires
            d >= 0,
            m >= 0,
    ;
    assert(u >= 0 && u * s <= d * m + h && d * m + h < (u + 1) * s) by (nonlinear_arith)
        requires
            s > 0,
            d * m + h >= 0,
            u == (d * m + h) / s,
    ;
    // From the rounding of the root: d * d * w <= c * c * s * s < (d + 1) * (d + 1) * w.
    assert(d * d * w <= c * c * s * s) by (nonlinear_arith)
        requires
            w > 0,
            d * d <= q,
            q * w <= c * c * s * s,
    ;
    assert(c * c * s * s < (q + 1) * w) by (nonlinear_arith)
        requires
            w > 0,
            q == c * c * s * s / w,
    ;
    assert(c * c * s * s < (d + 1) * (d + 1) * w) by (nonlinear_arith)
        requires
            w > 0,
            q + 1 <= (d + 1) * (d + 1),
            c * c * s * s < (q + 1) * w,
    {
        assert((q + 1) * w <= (d + 1) * (d + 1) * w);
    }
    // Upper side: m * (d + 1) <= s * (u + 1), since m is less than s / 2.
    assert(m * (d + 1) <= s * (u + 1)) by (nonlinear_arith)
        requires
            d * m + h < (u + 1) * s,
            m <= h,
    ;
    let p = m * (d + 1);
    let r = s * (u + 1);
    assert(p * p <= r * r) by (nonlinear_arith)
        requires
            0 <= p <= r,
    ;
    assert(p * p * w <= r * r * w) by (nonlinear_arith)
        requires
            p * p <= r * r,
            w > 0,
    ;
    assert(p * p * w == (d + 1) * (d + 1) * w * (m * m)) by (nonlinear_arith)
        requires
            p == m * (d + 1),
    ;
    assert(r * r * w == (u + 1) * (u + 1) * w * (s * s)) by (nonlinear_arith)
        requires
            r == s * (u + 1),
    ;
    if m > 0 {
        assert(c * c * s * s * (m * m) < (d + 1) * (d + 1) * w * (m * m)) by (nonlinear_arith)
            requires
                m > 0,
                c * c * s * s < (d + 1) * (d + 1) * w,
        ;
        assert(c * c * (m * m) * (s * s) < (u + 1) * (u + 1) * w * (s * s)) by (nonlinear_arith)
            requires
                c * c * s * s * (m * m) < (d + 1) * (d + 1) * w * (m * m),
                (d + 1) * (d + 1) * w * (m * m) <= (u + 1) * (u + 1) * w * (s * s),
        ;
        assert(c * c * (m * m) < (u + 1) * (u + 1) * w) by (nonlinear_arith)
            requires
                c * c * (m * m) * (s * s) < (u + 1) * (u + 1) * w * (s * s),
                s > 0,
        ;
    } else {
        assert(c * c * (m * m) < (u + 1) * (u + 1) * w) by (nonlinear_arith)
            requires
                m == 0,
                u >= 0,
                w > 0,
        ;
    }
    // Lower side: (u - 1) * s < d * m.
    if u >= 1 {
        assert((u - 1) * (u - 1) * w < c * c * (m * m)) by (nonlinear_arith)
            requires
                w > 0,
                s > 0,
                u >= 1,
                u * s <= d * m + h,
                h < s,
                d * d * w <= c * c * s * s,
                m >= 0,
                d >= 0,
        {
            assert(0 <= (u - 1) * s < d * m);
            assert(((u - 1) * s) * ((u - 1) * s) < (d * m) * (d * m));
            assert((u - 1) * (u - 1) * w * (s * s) < d * d * w * (m * m));
            assert(d * d * w * (m * m) <= c * c * s * s * (m * m));
            assert((u - 1) * (u - 1) * w * (s * s) < c * c * (m * m) * (s * s));
        }
    }
}

/// Each component of the velocity that `compute` gives for a normalised axis input lies
/// within 1 mm/s of the exact `c * max_speed / sqrt(x * x + z * z)`, on the same side of zero:
/// diagonal input moves as fast as input along one axis, up to the rounding to whole mm/s.
pub proof fn lemma_velocity_within_one(x: i16, z: i16, max_speed: u32, float_height: u32)
    requires
        x != 0 || z != 0,
    ensures
        ({
            let v = basis_of(intent_of_axes(x as int, z as int), max_speed, float_height).desired_velocity;
            let w = x * x + z * z;
            let m = max_speed as int;
            &&& v.y == 0
            &&& v.x * x >= 0 && v.z * z >= 0
            &&& x * x * (m * m) < (abs(v.x as int) + 1) * (abs(v.x as int) + 1) * w
            &&& abs(v.x as int) >= 1 ==> (abs(v.x as int) - 1) * (abs(v.x as int) - 1) * w < x * x * (m * m)
            &&& z * z * (m * m) < (abs(v.z as int) + 1) * (abs(v.z as int) + 1) * w
            &&& abs(v.z as int) >= 1 ==> (abs(v.z as int) - 1) * (abs(v.z as int) - 1) * w < z * z * (m * m)
        }),
{
    let w = x * x + z * z;
    assert(x * x >= 0 && z * z >= 0 && w > 0 && x * x <= w && z * z <= w) by (nonlinear_arith)
        requires
            x != 0 || z != 0,
            w == x * x + z * z,
    ;
    lemma_speed_component_signed(x as int, w, max_speed, float_height, z as int, true);
    lemma_speed_component_signed(z as int, w, max_speed, float_height, x as int, false);
}

/// `lemma_speed_component` carried through the signs of the direction and the rounding.
proof fn lemma_speed_component_signed(c: int, w: int, max_speed: u32, float_height: u32, other: int, c_is_x: bool)
    requires
        w > 0,
        c * c <= w,
        w == if c_is_x { c * c + other * other } else { other * other + c * c },
    ensures
        ({
            let i = if c_is_x { intent_of_axes(c, other) } else { intent_of_axes(other, c) };
            let v = basis_of(i, max_speed, float_height).desired_velocity;
            let vc = if c_is_x { v.x as int } else { v.z as int };
            let m = max_speed as int;
            &&& vc * c >= 0
            &&& c * c * (m * m) < (abs(vc) + 1) * (abs(vc) + 1) * w
            &&& abs(vc) >= 1 ==> (abs(vc) - 1) * (abs(vc) - 1) * w < c * c * (m * m)
        }),
{
    let s = DIRECTION_SCALE as int;
    let m = max_speed as int;
    lemma_direction_magnitude(c, w, s);
    lemma_speed_component(c, w, m, s);
    let (x, z) = if c_is_x { (c, other) } else { (other, c) };
    assert(x != 0 || z != 0) by (nonlinear_arith)
        requires
            w > 0,
            w == x * x + z * z,
    ;
    assert(x * x + z * z == w);
    let d = floor_sqrt_spec(c * c * s * s / w);
    assert(direction_component(c, x, z) == with_sign_of(c, d));
    let dc = with_sign_of(c, d);
    let a = dc * m;
    assert(abs(a) == d * m && (a >= 0 || c < 0) && (a <= 0 || c >= 0)) by (nonlinear_arith)
        requires
            d >= 0,
            m >= 0,
            dc == d || dc == -d,
            c >= 0 ==> dc == d,
            c < 0 ==> dc == -d,
            a == dc * m,
    ;
    let u = (d * m + s / 2) / s;
    assert(d * m <= s * 0xffffffff) by (nonlinear_arith)
        requires
            0 <= d <= s,
            0 <= m <= 0xffffffff,
    ;
    assert(div_nearest(a, s) == with_sign_of(a, u));
    assert(u <= 0x100000000) by (nonlinear_arith)
        requires
            s == 10_000_000_000,
            0 <= d * m <= s * 0xffffffff,
            u == (d * m + s / 2) / s,
    ;
    let vc = with_sign_of(a, u);
    assert(abs(vc) == u);
    if d * m == 0 {
        assert(u == 0);
    }
    assert(vc * c >= 0) by (nonlinear_arith)
        requires
            c >= 0 ==> vc == u,
            c < 0 ==> vc == -u || vc == 0,
            u >= 0,
    ;
}

impl MovementIntent {
    /// Holds of an intent no longer than the unit length.
    pub open spec fn wf(&self) -> bool {
        self.dx * self.dx + self.dz * self.dz <= DIRECTION_SCALE * DIRECTION_SCALE
    }

    /// No movement.
    pub fn none() -> (r: MovementIntent)
        ensures
            r.dx == 0 && r.dz == 0,
            r.wf(),
    {
        MovementIntent { dx: 0, dz: 0 }
    }

    /// The direction of the axis input `(x, z)`, normalised to `DIRECTION_SCALE` with each
    /// component rounded toward zero; zero input gives no movement.
    pub fn from_axes(x: i16, z: i16) -> (r: MovementIntent)
        ensures
            r.dx == direction_component(x as int, x as int, z as int),
            r.dz == direction_component(z as int, x as int, z as int),
            r.wf(),
    {
        proof {
            lemma_direction_within_unit(x as int, z as int);
        }
        if x == 0 && z == 0 {
            return MovementIntent { dx: 0, dz: 0 };
        }
        let ax: u128 = if x >= 0 { x as u128 } else { (-(x as i32)) as u128 };
        let az: u128 = if z >= 0 { z as u128 } else { (-(z as i32)) as u128 };
        proof {
            lemma_abs_square(x as int);
            lemma_abs_square(z as int);
            assert(ax == abs(x as int) && az == abs(z as int));
        }
        assert(ax * ax <= 0x40000000 && az * az <= 0x40000000) by (nonlinear_arith)
            requires
                ax <= 0x8000,
                az <= 0x8000,
        ;
        let w: u128 = ax * ax + az * az;
        assert(w > 0) by (nonlinear_arith)
            requires
                ax > 0 || az > 0,
                w == ax * ax + az * az,
        ;
        assert(DIRECTION_SCALE * DIRECTION_SCALE == DIRECTION_SCALE_SQ);
        let dx: i64 = Self::component(ax, w, x >= 0);
        let dz: i64 = Self::component(az, w, z >= 0);
        assert(w == x * x + z * z);
        MovementIntent { dx, dz }
    }

    /// `a * DIRECTION_SCALE / sqrt(w)` rounded down, with the sign given by `nonnegative`.
    fn component(a: u128, w: u128, nonnegative: bool) -> (r: i64)
        requires
            a * a <= w,
            0 < w <= 0x80000000,
        ensures
            r == with_sign_of(
                if nonnegative { a as int } else { -a },
                floor_sqrt_spec(a * a * DIRECTION_SCALE * DIRECTION_SCALE / w as int),
            ),
    {
        proof {
            lemma_direction_magnitude(a as int, w as int, DIRECTION_SCALE as int);
            assert((-a) * (-a) == a * a) by (nonlinear_arith);
        }
        assert(a * a * DIRECTION_SCALE_SQ <= 0x80000000 * DIRECTION_SCALE_SQ) by (nonlinear_arith)
            requires
                a * a <= 0x80000000,
        ;
        let n: u128 = a * a * DIRECTION_SCALE_SQ;
        assert(a * a * DIRECTION_SCALE * DIRECTION_SCALE == n);
        let q: u128 = n / w;
        assert(q <= DIRECTION_SCALE_SQ) by (nonlinear_arith)
            requires
                w > 0,
                a * a <= w,
                n == a * a * DIRECTION_SCALE_SQ,
                q == n / w,
        {
            assert(n <= w * DIRECTION_SCALE_SQ);
        }
        let d: u64 = floor_sqrt(q);
        assert(q as int == a * a * DIRECTION_SCALE * DIRECTION_SCALE / w as int);
        assert(d <= DIRECTION_SCALE);
        if a == 0 {
            assert(q == 0) by (nonlinear_arith)
                requires
                    a == 0,
                    n == a * a * DIRECTION_SCALE_SQ,
                    q == n / w,
                    w > 0,
            ;
            assert(d == 0) by (nonlinear_arith)
                requires
                    d * d <= q,
                    q == 0,
            ;
        }
        if nonnegative {
            d as i64
        } else {
            -(d as i64)
        }
    }

    /// The direction of the held directional actions: forward against back, right against left.
    pub fn from_actions(state: &ActionState) -> (r: MovementIntent)
        ensures
            r == intent_of_axes(axis_x(*state), axis_z(*state)),
            r.wf(),
    {
        let mut x: i16 = 0;
        let mut z: i16 = 0;
        if state.pressed(Action::MoveRight) {
            x = x + 1;
        }
        if state.pressed(Action::MoveLeft) {
            x = x - 1;
        }
        if state.pressed(Action::MoveForward) {
            z = z + 1;
        }
        if state.pressed(Action::MoveBack) {
            z = z - 1;
        }
        MovementIntent::from_axes(x, z)
    }
}

/// The steering signal resupplied to the body driver on every tick.
#[derive(Clone, Copy, Debug, PartialEq, Eq, Structural)]
pub struct LocomotionBasis {
    /// Horizontal velocity to hold, in mm/s; `y` is always zero.
    pub desired_velocity: Vector3,
    /// Height in mm to keep between the body's center and the ground.
    pub target_float_height: u32,
}

/// The basis of `intent` at `max_speed` mm/s, hovering `float_height` mm above the ground.
pub fn compute(intent: MovementIntent, max_speed: u32, float_height: u32) -> (r: LocomotionBasis)
    requires
        intent.wf(),
    ensures
        r == basis_of(intent, max_speed, float_height),
        r.desired_velocity.y == 0,
{
    proof {
        assert(-DIRECTION_SCALE <= intent.dx <= DIRECTION_SCALE && -DIRECTION_SCALE <= intent.dz
            <= DIRECTION_SCALE) by (nonlinear_arith)
            requires
                intent.dx * intent.dx + intent.dz * intent.dz <= DIRECTION_SCALE * DIRECTION_SCALE,
        ;
    }
    LocomotionBasis {
        desired_velocity: Vector3 {
            x: scale_speed(intent.dx, max_speed),
            y: 0,
            z: scale_speed(intent.dz, max_speed),
        },
        target_float_height: float_height,
    }
}

/// Direction component `d` times `max_speed`, to the nearest mm/s.
fn scale_speed(d: i64, max_speed: u32) -> (r: i64)
    requires
        -DIRECTION_SCALE <= d <= DIRECTION_SCALE,
    ensures
        r == div_nearest(d * max_speed, DIRECTION_SCALE as int),
{
    let m: u128 = max_speed as u128;
    let a: u128 = if d >= 0 { d as u128 } else { (-d) as u128 };
    assert(a * m <= 10_000_000_000 * 0xffffffff) by (nonlinear_arith)
        requires
            a <= 10_000_000_000,
            m <= 0xffffffff,
    ;
    assert(abs(d * max_speed) == a * m) by (nonlinear_arith)
        requires
            d >= 0 ==> a == d,
            d < 0 ==> a == -d,
            m == max_speed,
            m >= 0,
    ;
    let s: u128 = DIRECTION_SCALE as u128;
    let q: u128 = (a * m + 5_000_000_000) / s;
    assert(q <= 0x100000000) by (nonlinear_arith)
        requires
            s == 10_000_000_000,
            a * m <= s * 0xffffffff,
            q == (a * m + 5_000_000_000) / (s as int),
    ;
    if d >= 0 {
        assert(d * max_speed >= 0) by (nonlinear_arith)
            requires
                d >= 0,
        ;
        q as i64
    } else {
        if max_speed == 0 {
            assert(d * max_speed == 0) by (nonlinear_arith)
                requires
                    max_speed == 0,
            ;
            return 0;
        }
        assert(d * max_speed < 0) by (nonlinear_arith)
            requires
                d < 0,
                max_speed > 0,
        ;
        -(q as i64)
    }
}

/// Computing the basis is a function of its inputs alone: two calls on the same intent and
/// settings, with nothing between them, give the same basis.
pub proof fn lemma_compute_is_idempotent(
    first: LocomotionBasis,
    second: LocomotionBasis,
    intent: MovementIntent,
    max_speed: u32,
    float_height: u32,
)
    requires
        first == basis_of(intent, max_speed, float_height),
        second == basis_of(intent, max_speed, float_height),
    ensures
        first == second,
{
}

} // verus!
