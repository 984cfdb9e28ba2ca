use vstd::prelude::*;
use crate::types::{Vector2D, Vec2I};

verus! {

/// Fixed-point scale: one display unit is `ONE` sub-units.
pub const ONE: i32 = 256;
/// Number of angle units in a full turn, before fixed-point scaling.
pub const ANGLE: i32 = 256;
/// A full turn in fixed-point angle units (`ANGLE * ONE`).
pub const FULL_TURN: i32 = 65536;
/// Number of discrete facings an angle is quantized to.
pub const FACINGS: i32 = 16;
/// Largest speed magnitude (fixed point) the kinematic model accepts.
pub const MAX_SPEED: i32 = 4096;

pub open spec fn clamp_spec(v: int, lo: int, hi: int) -> int {
    if v < lo {
        lo
    } else if v > hi {
        hi
    } else {
        v
    }
}

pub fn clamp(v: i32, lo: i32, hi: i32) -> (r: i32)
    requires
        lo <= hi,
    ensures
        r == clamp_spec(v as int, lo as int, hi as int),
{
    if v < lo {
        lo
    } else if v > hi {
        hi
    } else {
        v
    }
}

/// Fixed-point value to display units, rounding halves up.
pub open spec fn round_up_spec(v: int) -> int {
    (v + ONE / 2) / (ONE as int)
}

pub fn round_up_scalar(v: i32) -> (r: i32)
    ensures
        r == round_up_spec(v as int),
{
    let w: i64 = v as i64 + 128;
    match w.checked_div_euclid(256) {
        Some(q) => {
            assert(i32::MIN <= q <= i32::MAX) by (nonlinear_arith)
                requires q == w / 256, i32::MIN + 128 <= w <= i32::MAX + 128;
            q as i32
        },
        None => 0,
    }
}

pub open spec fn round_up_vec(v: Vec2I) -> Vec2I {
    Vector2D { x: round_up_spec(v.x as int) as i32, y: round_up_spec(v.y as int) as i32 }
}

/// Converts a fixed-point position to display units.
pub fn round_up(v: &Vec2I) -> (r: Vec2I)
    ensures
        r == round_up_vec(*v),
        r.x == round_up_spec(v.x as int),
        r.y == round_up_spec(v.y as int),
{
    Vector2D { x: round_up_scalar(v.x), y: round_up_scalar(v.y) }
}

/// The facing (0 up to `div` - 1) nearest to a fixed-point angle.
pub open spec fn facing_of(angle: int, div: int) -> int {
    ((angle + (FULL_TURN as int) / (2 * div)) / ((FULL_TURN as int) / div)) % div
}

/// Quantizes an angle to one of `div` facings.
pub fn quantize_angle(angle: i32, div: i32) -> (r: i32)
    requires
        0 <= angle < FULL_TURN,
        div == 16 || div == 32,
    ensures
        r == facing_of(angle as int, div as int),
        0 <= r < div,
{
    let step: i32 = FULL_TURN / div;
    let half: i32 = FULL_TURN / (2 * div);
    ((angle + half) / step) % div
}

/// An angle reduced to one turn, `[0, FULL_TURN)`; for a power of two this
/// is the same as masking off the bits above a turn.
pub fn wrap_turn(angle: i32) -> (r: i32)
    ensures
        r == (angle as int) % (FULL_TURN as int),
        0 <= r < FULL_TURN,
{
    match angle.checked_rem_euclid(FULL_TURN) {
        Some(r) => r,
        None => 0,
    }
}

/// Sine of facing `f` (of sixteen), scaled by `ONE`.
pub open spec fn sin16(f: int) -> int {
    if f == 0 || f == 8 {
        0
    } else if f == 1 || f == 7 {
        98
    } else if f == 2 || f == 6 {
        181
    } else if f == 3 || f == 5 {
        237
    } else if f == 4 {
        256
    } else if f == 9 || f == 15 {
        -98
    } else if f == 10 || f == 14 {
        -181
    } else if f == 11 || f == 13 {
        -237
    } else {
        -256
    }
}

fn sin_table(f: i32) -> (r: i32)
    requires
        0 <= f < 16,
    ensures
        r == sin16(f as int),
        -256 <= r <= 256,
{
    if f == 0 || f == 8 {
        0
    } else if f == 1 || f == 7 {
        98
    } else if f == 2 || f == 6 {
        181
    } else if f == 3 || f == 5 {
        237
    } else if f == 4 {
        256
    } else if f == 9 || f == 15 {
        -98
    } else if f == 10 || f == 14 {
        -181
    } else if f == 11 || f == 13 {
        -237
    } else {
        -256
    }
}

/// `t * s / ONE`, rounded toward zero.
pub open spec fn scale_spec(t: int, s: int) -> int {
    crate::types::trunc_div(t * s, ONE as int)
}

fn scale(t: i32, s: i32) -> (r: i32)
    requires
        -256 <= t <= 256,
        -MAX_SPEED <= s <= MAX_SPEED,
    ensures
        r == scale_spec(t as int, s as int),
        -MAX_SPEED <= r <= MAX_SPEED,
{
    assert(-MAX_SPEED * 256 <= t * s <= MAX_SPEED * 256) by (nonlinear_arith)
        requires -256 <= t <= 256, -MAX_SPEED <= s <= MAX_SPEED;
    let r = crate::types::div_toward_zero(t * s, ONE);
    assert(-MAX_SPEED <= r <= MAX_SPEED) by (nonlinear_arith)
        requires
            -MAX_SPEED * 256 <= t * s <= MAX_SPEED * 256,
            r == crate::types::trunc_div(t * s, 256);
    r
}

/// Velocity for moving at `speed` in direction `angle` (0 is up, the angle grows
/// clockwise), with the direction quantized to sixteen facings.
pub open spec fn velocity_spec(angle: int, speed: int) -> Vec2I {
    let f = facing_of(angle, 16);
    Vector2D {
        x: scale_spec(sin16(f), speed) as i32,
        y: (-scale_spec(sin16((f + 4) % 16), speed)) as i32,
    }
}

pub fn calc_velocity(angle: i32, speed: i32) -> (r: Vec2I)
    requires
        0 <= angle < FULL_TURN,
        -MAX_SPEED <= speed <= MAX_SPEED,
    ensures
        r == velocity_spec(angle as int, speed as int),
        -MAX_SPEED <= r.x <= MAX_SPEED,
        -MAX_SPEED <= r.y <= MAX_SPEED,
{
    let f = quantize_angle(angle, FACINGS);
    let vx = scale(sin_table(f), speed);
    let vy = scale(sin_table((f + 4) % 16), speed);
    Vector2D { x: vx, y: -vy }
}

} // verus!
