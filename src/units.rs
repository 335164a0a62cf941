//! Fixed-point unit conversions.
//!
//! Angles are held in microradians and angular speeds in microradians per second,
//! both as `i64`. A position register holds encoder ticks, 4096 to the turn, with tick
//! 2048 at zero radians; a speed register holds signed ticks per second. How a register
//! carries the sign of its value is the codec's matter (see [`crate::codec`]).
use vstd::arithmetic::div_mod::lemma_div_is_ordered;
use vstd::arithmetic::div_mod::lemma_fundamental_div_mod;
use vstd::arithmetic::div_mod::lemma_fundamental_div_mod_converse;
use vstd::prelude::*;

verus! {

/// Encoder ticks in one turn of the output shaft.
pub const TICKS_PER_TURN: i64 = 4096;

/// The tick that stands for zero radians.
pub const CENTER_TICK: i64 = 2048;

/// One turn (two pi radians) in microradians, rounded to the nearest one.
pub const MICRORADIANS_PER_TURN: i64 = 6283185;

/// Angles beyond this many microradians map past every tick that an `i32` holds.
const ANGLE_SATURATION: i64 = 4_000_000_000_000;

/// Speeds beyond this many microradians per second map past every tick rate that an
/// `i32` holds.
const SPEED_SATURATION: i64 = 4_000_000_000_000;

/// `n / d` rounded to the nearest integer, a half rounded up.
pub open spec fn round_div(n: int, d: int) -> int {
    (2 * n + d) / (2 * d)
}

/// `x` limited to the range of `i32`.
pub open spec fn clamp_i32(x: int) -> int {
    if x < i32::MIN {
        i32::MIN as int
    } else if x > i32::MAX {
        i32::MAX as int
    } else {
        x
    }
}

/// The angle of a position tick, in microradians, to the nearest one.
pub open spec fn tick_angle(t: int) -> int {
    round_div((t - CENTER_TICK) * MICRORADIANS_PER_TURN, TICKS_PER_TURN as int)
}

/// The tick nearest to an angle in microradians, saturated to the range of `i32`.
pub open spec fn angle_tick(a: int) -> int {
    clamp_i32(CENTER_TICK + round_div(a * TICKS_PER_TURN, MICRORADIANS_PER_TURN as int))
}

/// A magnitude in ticks per second, as microradians per second, to the nearest one.
pub open spec fn steps_speed(m: int) -> int {
    round_div(m * MICRORADIANS_PER_TURN, TICKS_PER_TURN as int)
}

/// The speed of a signed tick rate, in microradians per second; the rounding is
/// symmetric about zero.
pub open spec fn step_speed(s: int) -> int {
    if s < 0 {
        -steps_speed(-s)
    } else {
        steps_speed(s)
    }
}

/// The magnitude in ticks per second nearest to a speed magnitude, saturated to the
/// range of `i32`.
pub open spec fn speed_magnitude(v: int) -> int {
    let m = round_div(v * TICKS_PER_TURN, MICRORADIANS_PER_TURN as int);
    if m > i32::MAX {
        i32::MAX as int
    } else {
        m
    }
}

/// The signed tick rate nearest to a speed in microradians per second; the rounding is
/// symmetric about zero.
pub open spec fn speed_step(v: int) -> int {
    if v < 0 {
        -speed_magnitude(-v)
    } else {
        speed_magnitude(v)
    }
}

proof fn lemma_round_div_is(n: int, d: int, q: int)
    requires
        d > 0,
        2 * d * q <= 2 * n + d < 2 * d * q + 2 * d,
    ensures
        round_div(n, d) == q,
{
    let r = 2 * n + d - q * (2 * d);
    assert(q * (2 * d) == 2 * d * q) by (nonlinear_arith);
    lemma_fundamental_div_mod_converse(2 * n + d, 2 * d, q, r);
}

proof fn lemma_round_div_bounds(n: int, d: int)
    requires
        d > 0,
    ensures
        2 * d * round_div(n, d) <= 2 * n + d < 2 * d * round_div(n, d) + 2 * d,
{
    lemma_fundamental_div_mod(2 * n + d, 2 * d);
    let q = round_div(n, d);
    assert((2 * d) * q == 2 * d * q) by (nonlinear_arith);
}

proof fn lemma_round_div_monotonic(x: int, y: int, d: int)
    requires
        d > 0,
        x <= y,
    ensures
        round_div(x, d) <= round_div(y, d),
{
    lemma_div_is_ordered(2 * x + d, 2 * y + d, 2 * d);
}

/// `n / d` rounded down, with Rust's division on non-negative operands only.
fn floor_div(n: i64, d: i64) -> (q: i64)
    requires
        d > 0,
        d < 0x4000_0000_0000_0000,
        n >= -0x4000_0000_0000_0000,
    ensures
        q == n as int / d as int,
{
    if n >= 0 {
        (n as u64 / d as u64) as i64
    } else {
        let m: i64 = -n;
        let p: i64 = ((m + d - 1) as u64 / d as u64) as i64;
        proof {
            let x = (m + d - 1) as int;
            lemma_fundamental_div_mod(x, d as int);
            let r = x % (d as int);
            assert(x == d * p + r);
            assert(n == (-p) * d + (d - 1 - r)) by (nonlinear_arith)
                requires
                    x == d * p + r,
                    x == -n + d - 1,
            ;
            lemma_fundamental_div_mod_converse(n as int, d as int, -p, d - 1 - r);
        }
        -p
    }
}

/// Every tick lies within this many microradians of zero.
pub const MAX_TICK_ANGLE: i64 = 3_300_000_000_000;

/// The angle of every tick that an `i32` holds is within [`MAX_TICK_ANGLE`] of zero.
pub proof fn lemma_tick_angle_bounds(t: int)
    requires
        i32::MIN <= t <= i32::MAX,
    ensures
        -MAX_TICK_ANGLE <= tick_angle(t) <= MAX_TICK_ANGLE,
{
    let lo = (i32::MIN - CENTER_TICK) * MICRORADIANS_PER_TURN;
    let hi = (i32::MAX - CENTER_TICK) * MICRORADIANS_PER_TURN;
    let p = (t - CENTER_TICK) * MICRORADIANS_PER_TURN;
    assert(lo <= p <= hi) by (nonlinear_arith)
        requires
            i32::MIN <= t <= i32::MAX,
            p == (t - CENTER_TICK) * MICRORADIANS_PER_TURN,
            lo == (i32::MIN - CENTER_TICK) * MICRORADIANS_PER_TURN,
            hi == (i32::MAX - CENTER_TICK) * MICRORADIANS_PER_TURN,
    ;
    lemma_round_div_monotonic(lo, p, TICKS_PER_TURN as int);
    lemma_round_div_monotonic(p, hi, TICKS_PER_TURN as int);
    lemma_round_div_bounds(lo, TICKS_PER_TURN as int);
    lemma_round_div_bounds(hi, TICKS_PER_TURN as int);
}

/// The angle of a position tick, in microradians.
pub fn ticks_to_microradians(t: i32) -> (a: i64)
    ensures
        a == tick_angle(t as int),
        -MAX_TICK_ANGLE <= a <= MAX_TICK_ANGLE,
{
    proof {
        lemma_tick_angle_bounds(t as int);
    }
    let n: i64 = (t as i64 - CENTER_TICK) * MICRORADIANS_PER_TURN;
    floor_div(2 * n + TICKS_PER_TURN, 2 * TICKS_PER_TURN)
}

/// The position tick nearest to an angle in microradians; an angle past the range of
/// `i32` gives its nearest end.
pub fn microradians_to_ticks(a: i64) -> (t: i32)
    ensures
        t == angle_tick(a as int),
{
    let c: i64 = if a > ANGLE_SATURATION {
        ANGLE_SATURATION
    } else if a < -ANGLE_SATURATION {
        -ANGLE_SATURATION
    } else {
        a
    };
    let k: i64 = floor_div(2 * c * TICKS_PER_TURN + MICRORADIANS_PER_TURN, 2 * MICRORADIANS_PER_TURN);
    let x: i64 = CENTER_TICK + k;
    proof {
        lemma_round_div_bounds(ANGLE_SATURATION * TICKS_PER_TURN, MICRORADIANS_PER_TURN as int);
        lemma_round_div_bounds(-ANGLE_SATURATION * TICKS_PER_TURN, MICRORADIANS_PER_TURN as int);
        if a > ANGLE_SATURATION {
            lemma_round_div_monotonic(ANGLE_SATURATION * TICKS_PER_TURN, a * TICKS_PER_TURN, MICRORADIANS_PER_TURN as int);
        } else if a < -ANGLE_SATURATION {
            lemma_round_div_monotonic(a * TICKS_PER_TURN, -ANGLE_SATURATION * TICKS_PER_TURN, MICRORADIANS_PER_TURN as int);
        }
    }
    if x > i32::MAX as i64 {
        i32::MAX
    } else if x < i32::MIN as i64 {
        i32::MIN
    } else {
        x as i32
    }
}

/// Converting a tick to an angle and back gives the same tick.
pub proof fn lemma_tick_round_trip(t: i32)
    ensures
        angle_tick(tick_angle(t as int)) == t,
{
    let d = t - CENTER_TICK;
    let p = d * MICRORADIANS_PER_TURN;
    let a = tick_angle(t as int);
    lemma_round_div_bounds(p, TICKS_PER_TURN as int);
    lemma_round_div_is(a * TICKS_PER_TURN, MICRORADIANS_PER_TURN as int, d);
}

/// The speed of a signed tick rate, in microradians per second.
pub fn steps_to_speed(s: i32) -> (v: i64)
    ensures
        v == step_speed(s as int),
{
    let m: i64 = if s < 0 {
        -(s as i64)
    } else {
        s as i64
    };
    let magnitude = floor_div(2 * m * MICRORADIANS_PER_TURN + TICKS_PER_TURN, 2 * TICKS_PER_TURN);
    if s < 0 {
        -magnitude
    } else {
        magnitude
    }
}

/// The signed tick rate nearest to a speed in microradians per second; a speed past the
/// range of `i32` gives its nearest end, but for `i32::MIN`, which has no positive
/// counterpart.
pub fn speed_to_steps(v: i64) -> (s: i32)
    ensures
        s == speed_step(v as int),
{
    let a: i64 = if v < 0 {
        if v < -SPEED_SATURATION {
            SPEED_SATURATION
        } else {
            -v
        }
    } else if v > SPEED_SATURATION {
        SPEED_SATURATION
    } else {
        v
    };
    let r: i64 = floor_div(2 * a * TICKS_PER_TURN + MICRORADIANS_PER_TURN, 2 * MICRORADIANS_PER_TURN);
    proof {
        let lim = SPEED_SATURATION * TICKS_PER_TURN;
        lemma_round_div_bounds(lim, MICRORADIANS_PER_TURN as int);
        lemma_round_div_bounds(0, MICRORADIANS_PER_TURN as int);
        lemma_round_div_monotonic(0, a * TICKS_PER_TURN, MICRORADIANS_PER_TURN as int);
        if v > SPEED_SATURATION {
            lemma_round_div_monotonic(lim, v * TICKS_PER_TURN, MICRORADIANS_PER_TURN as int);
        } else if v < -SPEED_SATURATION {
            lemma_round_div_monotonic(lim, -v * TICKS_PER_TURN, MICRORADIANS_PER_TURN as int);
        }
    }
    let m: i32 = if r > i32::MAX as i64 {
        i32::MAX
    } else {
        r as i32
    };
    if v < 0 {
        -m
    } else {
        m
    }
}

/// Converting a tick rate to a speed and back gives the same tick rate, for every
/// `i32` but `i32::MIN`.
pub proof fn lemma_speed_round_trip(s: i32)
    requires
        s != i32::MIN,
    ensures
        speed_step(step_speed(s as int)) == s,
{
    let m: int = if s < 0 {
        -s
    } else {
        s as int
    };
    let p = m * MICRORADIANS_PER_TURN;
    let v = steps_speed(m);
    lemma_round_div_bounds(p, TICKS_PER_TURN as int);
    assert(0 <= p) by (nonlinear_arith)
        requires
            p == m * MICRORADIANS_PER_TURN,
            0 <= m,
    ;
    assert(m >= 1 ==> p >= MICRORADIANS_PER_TURN) by (nonlinear_arith)
        requires
            p == m * MICRORADIANS_PER_TURN,
    ;
    lemma_round_div_is(v * TICKS_PER_TURN, MICRORADIANS_PER_TURN as int, m);
}

/// Smallest angle, in microradians, that [`lemma_angle_round_trip`] speaks of.
pub const MIN_TICK_RANGE_ANGLE: i64 = -3_000_000_000_000;

/// Largest angle, in microradians, that [`lemma_angle_round_trip`] speaks of.
pub const MAX_TICK_RANGE_ANGLE: i64 = 3_000_000_000_000;

/// Converting an angle within the range of the ticks to its nearest tick and back lands
/// within half a tick of it: at most 767 microradians away.
pub proof fn lemma_angle_round_trip(a: int)
    requires
        MIN_TICK_RANGE_ANGLE <= a <= MAX_TICK_RANGE_ANGLE,
    ensures
        -767 <= tick_angle(angle_tick(a)) - a <= 767,
{
    let q = round_div(a * 4096, 6283185);
    lemma_round_div_bounds(a * 4096, 6283185);
    lemma_round_div_monotonic(MIN_TICK_RANGE_ANGLE * 4096, a * 4096, 6283185);
    lemma_round_div_monotonic(a * 4096, MAX_TICK_RANGE_ANGLE * 4096, 6283185);
    lemma_round_div_bounds(MIN_TICK_RANGE_ANGLE * 4096, 6283185);
    lemma_round_div_bounds(MAX_TICK_RANGE_ANGLE * 4096, 6283185);
    assert(angle_tick(a) == CENTER_TICK + q);
    lemma_round_div_bounds(q * 6283185, 4096);
}

/// Converting a speed within the range of the tick rates to its nearest tick rate and
/// back lands within half a tick per second of it: at most 767 microradians per second
/// away, with the same sign or zero.
pub proof fn lemma_speed_accuracy(v: int)
    requires
        MIN_TICK_RANGE_ANGLE <= v <= MAX_TICK_RANGE_ANGLE,
    ensures
        -767 <= step_speed(speed_step(v)) - v <= 767,
        v < 0 ==> step_speed(speed_step(v)) <= 0,
        v >= 0 ==> step_speed(speed_step(v)) >= 0,
{
    let a = if v < 0 { -v } else { v };
    let m = round_div(a * 4096, 6283185);
    lemma_round_div_bounds(a * 4096, 6283185);
    lemma_round_div_monotonic(0, a * 4096, 6283185);
    lemma_round_div_bounds(0, 6283185);
    lemma_round_div_monotonic(a * 4096, MAX_TICK_RANGE_ANGLE * 4096, 6283185);
    lemma_round_div_bounds(MAX_TICK_RANGE_ANGLE * 4096, 6283185);
    assert(speed_magnitude(a) == m);
    lemma_round_div_bounds(m * 6283185, 4096);
    lemma_round_div_monotonic(0, m * 6283185, 4096);
    lemma_round_div_bounds(0, 4096);
    assert(m * 6283185 >= 0) by (nonlinear_arith)
        requires
            m >= 0,
    ;
}

} // verus!
