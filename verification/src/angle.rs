//! Angles, and the rules that keep a committed angle valid.
//!
//! An angle is an `i64` count of millionths of a degree, so that a full turn,
//! a degree and every usual snap step are whole numbers and no rounding hides
//! in a comparison. Positive angles turn from the screen's x axis towards its
//! y axis.

use vstd::arithmetic::div_mod::{
    lemma_fundamental_div_mod, lemma_fundamental_div_mod_converse, lemma_mod_bound,
    lemma_mod_multiples_basic, lemma_mod_multiples_vanish, lemma_small_mod,
};
use vstd::prelude::*;

verus! {

/// One degree.
pub const DEGREE: i64 = 1_000_000;

/// A quarter of a turn.
pub const QUARTER_TURN: i64 = 90_000_000;

/// Half a turn.
pub const HALF_TURN: i64 = 180_000_000;

/// One full turn.
pub const TURN: i64 = 360_000_000;

/// The largest magnitude of an angle that the controls accept. It leaves room
/// for the sum of two angles and a turn in an `i64`.
pub const ANGLE_MAX: i64 = 4_000_000_000_000_000_000;

/// How a committed angle is folded.
#[derive(Clone, Copy, Debug, PartialEq, Eq, Structural)]
pub enum AngleKnobMode {
    /// The angle is kept as it is.
    Unbounded,
    /// The angle is folded into the half-open turn that ends at `HALF_TURN`.
    Signed,
    /// The angle is folded into the half-open turn that starts at zero.
    Unsigned,
    /// The angle continues the previous one over any number of turns.
    SpinAround,
}

/// Whether `x` is an angle that the controls accept.
pub open spec fn is_angle(x: int) -> bool {
    -ANGLE_MAX <= x <= ANGLE_MAX
}

/// The distance between `a` and `b`.
pub open spec fn distance(a: int, b: int) -> int {
    if a >= b {
        a - b
    } else {
        b - a
    }
}

/// The angle in `[0, TURN)` that differs from `x` by whole turns.
pub open spec fn wrap_unsigned(x: int) -> int {
    x % (TURN as int)
}

/// The angle in `(-HALF_TURN, HALF_TURN]` that differs from `x` by whole turns.
pub open spec fn wrap_signed(x: int) -> int {
    let r = (x + HALF_TURN) % (TURN as int) - HALF_TURN;
    if r == -HALF_TURN {
        HALF_TURN as int
    } else {
        r
    }
}

/// `a / b` rounded to the nearest whole number, a tie going away from zero.
pub open spec fn round_div(a: int, b: int) -> int
    recommends
        b > 0,
{
    if a >= 0 {
        (2 * a + b) / (2 * b)
    } else {
        -((b - 2 * a) / (2 * b))
    }
}

/// The multiple of `step` nearest to `value`, a tie going away from zero.
pub open spec fn snap_to(value: int, step: int) -> int
    recommends
        step > 0,
{
    round_div(value, step) * step
}

/// What is left of `previous` once its nearest whole number of turns is taken
/// away; it lies within half a turn of zero.
pub open spec fn spin_phase(previous: int) -> int {
    previous - round_div(previous, TURN as int) * TURN
}

/// `candidate`, moved by the whole turns of `previous` and then by at most one
/// turn more towards `previous`.
pub open spec fn spin_around(candidate: int, previous: int) -> int {
    let x = candidate + round_div(previous, TURN as int) * TURN;
    if x - previous > HALF_TURN {
        x - TURN
    } else if x - previous < -HALF_TURN {
        x + TURN
    } else {
        x
    }
}

/// `candidate` folded as `mode` asks; only `SpinAround` looks at `previous`.
pub open spec fn wrapped(candidate: int, mode: AngleKnobMode, previous: int) -> int {
    match mode {
        AngleKnobMode::Unbounded => candidate,
        AngleKnobMode::Signed => wrap_signed(candidate),
        AngleKnobMode::Unsigned => wrap_unsigned(candidate),
        AngleKnobMode::SpinAround => spin_around(candidate, previous),
    }
}

/// `x` raised to `min` where it lies below, and then lowered to `max` where it
/// lies above. With `min > max` the result is `max`.
pub open spec fn clamped(x: int, min: Option<i64>, max: Option<i64>) -> int {
    let raised = match min {
        Some(lo) => if x < lo { lo as int } else { x },
        None => x,
    };
    match max {
        Some(hi) => if raised > hi { hi as int } else { raised },
        None => raised,
    }
}

/// The committed angle for `candidate`: folded as `mode` asks, then clamped.
pub open spec fn constrained(
    candidate: int,
    mode: AngleKnobMode,
    previous: int,
    min: Option<i64>,
    max: Option<i64>,
) -> int {
    clamped(wrapped(candidate, mode, previous), min, max)
}

/// The snap step in force: the second one while shift is held.
pub open spec fn chosen_step(shift: bool, snap: Option<i64>, shift_snap: Option<i64>) -> Option<
    i64,
> {
    if shift {
        shift_snap
    } else {
        snap
    }
}

/// `value` snapped to the step, where there is one.
pub open spec fn snapped(value: int, step: Option<i64>) -> int {
    match step {
        Some(s) => snap_to(value, s as int),
        None => value,
    }
}

/// How the two folds go together: the signed fold is the unsigned one, less
/// a turn where that lies beyond half a turn. Both differ from `x` by whole
/// turns.
pub proof fn lemma_wrap_signed_unsigned(x: int)
    ensures
        0 <= wrap_unsigned(x) < TURN,
        wrap_signed(x) == if wrap_unsigned(x) > HALF_TURN {
            wrap_unsigned(x) - TURN
        } else {
            wrap_unsigned(x)
        },
        (x - wrap_unsigned(x)) % (TURN as int) == 0,
        (x - wrap_signed(x)) % (TURN as int) == 0,
{
    let t = TURN as int;
    let q = x / t;
    let u = x % t;
    lemma_fundamental_div_mod(x, t);
    lemma_mod_bound(x, t);
    if u + HALF_TURN >= t {
        lemma_fundamental_div_mod_converse(x + HALF_TURN, t, q + 1, u + HALF_TURN - t);
    } else {
        lemma_fundamental_div_mod_converse(x + HALF_TURN, t, q, u + HALF_TURN);
    }
    lemma_mod_multiples_basic(q, t);
    lemma_mod_multiples_basic(q + 1, t);
}

/// An angle that lies in the range of a fold is left as it is by that fold.
proof fn lemma_wrap_fixed(x: int)
    ensures
        0 <= x < TURN ==> wrap_unsigned(x) == x,
        -HALF_TURN < x <= HALF_TURN ==> wrap_signed(x) == x,
{
    lemma_wrap_signed_unsigned(x);
    if 0 <= x < TURN {
        lemma_small_mod(x as nat, TURN as nat);
    } else if -HALF_TURN < x < 0 {
        lemma_fundamental_div_mod_converse(x, TURN as int, -1, x + TURN);
    }
}

/// Whole turns added to an angle do not change what it folds to.
pub proof fn lemma_wrap_whole_turns(x: int, k: int)
    ensures
        wrap_signed(x + k * TURN) == wrap_signed(x),
        wrap_unsigned(x + k * TURN) == wrap_unsigned(x),
{
    lemma_mod_multiples_vanish(k, x + HALF_TURN, TURN as int);
    lemma_mod_multiples_vanish(k, x, TURN as int);
}

/// The quotient and the remainder of a division by twice `b`:
/// `n == 2 * (q * b) + r` with `0 <= r < 2 * b`.
proof fn lemma_halves(n: int, b: int)
    requires
        b > 0,
    ensures
        n == 2 * ((n / (2 * b)) * b) + n % (2 * b),
        0 <= n % (2 * b) < 2 * b,
        n >= 0 ==> n / (2 * b) >= 0,
        n < 2 * b ==> n / (2 * b) <= 0,
{
    let q = n / (2 * b);
    let r = n % (2 * b);
    lemma_fundamental_div_mod(n, 2 * b);
    lemma_mod_bound(n, 2 * b);
    assert((2 * b) * q == 2 * (q * b)) by (nonlinear_arith);
    assert(q * b > -b ==> q >= 0) by (nonlinear_arith)
        requires
            b > 0,
    ;
    assert(q * b < b ==> q <= 0) by (nonlinear_arith)
        requires
            b > 0,
    ;
}

/// `round_div(a, b) * b` lies within half of `b` of `a`, and a tie is settled
/// away from zero.
pub proof fn lemma_round_div_near(a: int, b: int)
    requires
        b > 0,
    ensures
        2 * distance(round_div(a, b) * b, a) <= b,
        a >= 0 ==> round_div(a, b) >= 0 && 2 * (round_div(a, b) * b - a) > -b,
        a <= 0 ==> round_div(a, b) <= 0 && 2 * (round_div(a, b) * b - a) < b,
{
    if a >= 0 {
        lemma_halves(2 * a + b, b);
    } else {
        let q = (b - 2 * a) / (2 * b);
        lemma_halves(b - 2 * a, b);
        assert((-q) * b == -(q * b)) by (nonlinear_arith);
    }
}

/// Two different multiples of `b` lie at least `b` apart.
proof fn lemma_multiples_apart(j: int, k: int, b: int)
    requires
        b > 0,
    ensures
        j > k ==> j * b - k * b >= b,
        j < k ==> k * b - j * b >= b,
        j == k ==> j * b == k * b,
{
    assert(j * b - k * b == (j - k) * b) by (nonlinear_arith);
    assert(j - k >= 1 ==> (j - k) * b >= b) by (nonlinear_arith)
        requires
            b > 0,
    ;
    assert(j - k <= -1 ==> (j - k) * b <= -b) by (nonlinear_arith)
        requires
            b > 0,
    ;
}

/// A whole multiple of `b` divides by `b` without rounding.
pub proof fn lemma_round_div_exact(k: int, b: int)
    requires
        b > 0,
    ensures
        round_div(k * b, b) == k,
{
    lemma_round_div_near(k * b, b);
    lemma_multiples_apart(round_div(k * b, b), k, b);
}

/// A rounded quotient is no farther from zero than what was divided.
pub proof fn lemma_round_div_bound(a: int, b: int)
    requires
        b > 0,
    ensures
        a >= 0 ==> 0 <= round_div(a, b) <= a,
        a <= 0 ==> a <= round_div(a, b) <= 0,
{
    let q = round_div(a, b);
    lemma_round_div_near(a, b);
    assert(q >= a + 1 && a >= 0 ==> q * b >= a + b) by (nonlinear_arith)
        requires
            b >= 1,
    ;
    assert(q <= a - 1 && a <= 0 ==> q * b <= a - b) by (nonlinear_arith)
        requires
            b >= 1,
    ;
}

/// The largest magnitude that the crate's own intermediate results reach.
pub(crate) const WIDE_MAX: i128 = 0x1_0000_0000_0000_0000_0000_0000;

/// The quotient, rounded down, and the remainder, never negative, of `a` by `b`.
pub(crate) fn floor_div_rem(a: i128, b: i128) -> (qr: (i128, i128))
    requires
        b > 0,
        a > i128::MIN,
    ensures
        qr.0 == (a as int) / (b as int),
        qr.1 == (a as int) % (b as int),
        0 <= qr.1 < b,
{
    if a >= 0 {
        proof {
            lemma_mod_bound(a as int, b as int);
        }
        (a / b, a % b)
    } else {
        let n: i128 = -(a + 1);
        let q: i128 = n / b;
        let r: i128 = n % b;
        proof {
            lemma_fundamental_div_mod(n as int, b as int);
            lemma_mod_bound(n as int, b as int);
            assert((-q - 1) * b + (b - 1 - r) == -(b * q) - r - 1) by (nonlinear_arith);
            lemma_fundamental_div_mod_converse(a as int, b as int, -q - 1, b - 1 - r);
        }
        (-q - 1, b - 1 - r)
    }
}

/// `a / b` rounded to the nearest whole number, on machine integers.
pub(crate) fn rounded_quotient(a: i128, b: i128) -> (q: i128)
    requires
        0 < b <= 0x1000_0000_0000_0000_0000_0000_0000_0000,
        -0x1000_0000_0000_0000_0000_0000_0000_0000 <= a
            <= 0x1000_0000_0000_0000_0000_0000_0000_0000,
    ensures
        q == round_div(a as int, b as int),
        a >= 0 ==> 0 <= q <= a,
        a <= 0 ==> a <= q <= 0,
{
    proof {
        lemma_round_div_bound(a as int, b as int);
    }
    if a >= 0 {
        (2 * a + b) / (2 * b)
    } else {
        -((b - 2 * a) / (2 * b))
    }
}

/// `wrap_unsigned` on an intermediate result.
pub(crate) fn wrap_unsigned_wide(x: i128) -> (r: i64)
    requires
        -WIDE_MAX <= x <= WIDE_MAX,
    ensures
        r == wrap_unsigned(x as int),
        0 <= r < TURN,
        (x - r) % (TURN as int) == 0,
{
    proof {
        lemma_wrap_signed_unsigned(x as int);
    }
    floor_div_rem(x, TURN as i128).1 as i64
}

/// `wrap_signed` on an intermediate result.
pub(crate) fn wrap_signed_wide(x: i128) -> (r: i64)
    requires
        -WIDE_MAX <= x <= WIDE_MAX,
    ensures
        r == wrap_signed(x as int),
        -HALF_TURN < r <= HALF_TURN,
        (x - r) % (TURN as int) == 0,
{
    proof {
        lemma_wrap_signed_unsigned(x as int);
    }
    let u: i64 = wrap_unsigned_wide(x);
    if u > HALF_TURN {
        u - TURN
    } else {
        u
    }
}

/// `snap_to` on an intermediate result.
pub(crate) fn snap_wide(value: i128, step: i64) -> (r: i128)
    requires
        step > 0,
        -WIDE_MAX <= value <= WIDE_MAX,
    ensures
        r == snap_to(value as int, step as int),
        (r as int) % (step as int) == 0,
        2 * distance(r as int, value as int) <= step,
{
    let q: i128 = rounded_quotient(value, step as i128);
    proof {
        lemma_round_div_near(value as int, step as int);
        lemma_mod_multiples_basic(q as int, step as int);
    }
    q * (step as i128)
}

/// Folds `x` into `[0, TURN)`.
pub fn normalized_angle_unsigned(x: i64) -> (r: i64)
    ensures
        r == wrap_unsigned(x as int),
        0 <= r < TURN,
        (x - r) % (TURN as int) == 0,
{
    wrap_unsigned_wide(x as i128)
}

/// Folds `x` into `(-HALF_TURN, HALF_TURN]`.
pub fn normalized_angle_signed(x: i64) -> (r: i64)
    ensures
        r == wrap_signed(x as int),
        -HALF_TURN < r <= HALF_TURN,
        (x - r) % (TURN as int) == 0,
{
    wrap_signed_wide(x as i128)
}

/// Rounds `value` to the nearest multiple of `step`; halfway between two
/// multiples it takes the one farther from zero.
pub fn snap(value: i64, step: i64) -> (r: i64)
    requires
        step > 0,
        is_angle(value as int),
    ensures
        r == snap_to(value as int, step as int),
        r % step == 0,
        2 * distance(r as int, value as int) <= step,
{
    snap_wide(value as i128, step) as i64
}

/// Continues `previous` with the direction `candidate`.
fn spin(candidate: i64, previous: i64) -> (r: i64)
    requires
        is_angle(candidate as int),
        is_angle(previous as int),
    ensures
        r == spin_around(candidate as int, previous as int),
{
    let turns: i128 = rounded_quotient(previous as i128, TURN as i128);
    proof {
        lemma_round_div_near(previous as int, TURN as int);
    }
    let x: i128 = candidate as i128 + turns * (TURN as i128);
    let delta: i128 = x - previous as i128;
    if delta > HALF_TURN as i128 {
        (x - TURN as i128) as i64
    } else if delta < -(HALF_TURN as i128) {
        (x + TURN as i128) as i64
    } else {
        x as i64
    }
}

/// Raises `x` to `min`, then lowers it to `max`.
fn clamp(x: i64, min: Option<i64>, max: Option<i64>) -> (r: i64)
    ensures
        r == clamped(x as int, min, max),
{
    let mut r: i64 = x;
    if let Some(lo) = min {
        if r < lo {
            r = lo;
        }
    }
    if let Some(hi) = max {
        if r > hi {
            r = hi;
        }
    }
    r
}

/// The angle to commit for `candidate`: folded as `mode` asks, with `previous`
/// as the angle that `SpinAround` continues, then clamped to `min` and `max`.
pub fn constrain(
    candidate: i64,
    mode: AngleKnobMode,
    previous: i64,
    min: Option<i64>,
    max: Option<i64>,
) -> (r: i64)
    requires
        mode is SpinAround ==> is_angle(candidate as int) && is_angle(previous as int),
    ensures
        r == constrained(candidate as int, mode, previous as int, min, max),
{
    let folded: i64 = match mode {
        AngleKnobMode::Unbounded => candidate,
        AngleKnobMode::Signed => normalized_angle_signed(candidate),
        AngleKnobMode::Unsigned => normalized_angle_unsigned(candidate),
        AngleKnobMode::SpinAround => spin(candidate, previous),
    };
    clamp(folded, min, max)
}

/// Folding into the signed range lands in `(-HALF_TURN, HALF_TURN]`, moves the
/// angle by whole turns only, and leaves an angle of that range as it is.
pub proof fn lemma_wrap_signed(x: int)
    ensures
        -HALF_TURN < wrap_signed(x) <= HALF_TURN,
        (x - wrap_signed(x)) % (TURN as int) == 0,
        -HALF_TURN < x <= HALF_TURN ==> wrap_signed(x) == x,
        wrap_signed(wrap_signed(x)) == wrap_signed(x),
{
    lemma_wrap_signed_unsigned(x);
    lemma_wrap_fixed(x);
    lemma_wrap_fixed(wrap_signed(x));
}

/// Folding into the unsigned range lands in `[0, TURN)`, moves the angle by
/// whole turns only, and leaves an angle of that range as it is.
pub proof fn lemma_wrap_unsigned(x: int)
    ensures
        0 <= wrap_unsigned(x) < TURN,
        (x - wrap_unsigned(x)) % (TURN as int) == 0,
        0 <= x < TURN ==> wrap_unsigned(x) == x,
        wrap_unsigned(wrap_unsigned(x)) == wrap_unsigned(x),
{
    lemma_wrap_signed_unsigned(x);
    lemma_wrap_fixed(x);
    lemma_wrap_fixed(wrap_unsigned(x));
}

/// Without bounds, every angle constrained in `Signed` mode lies in
/// `(-HALF_TURN, HALF_TURN]`, and constraining it once more changes nothing,
/// whatever the previous angles were.
pub proof fn lemma_signed_constrain_is_canonical(x: int, previous: int, later: int)
    ensures
        ({
            let y = constrained(x, AngleKnobMode::Signed, previous, None, None);
            &&& -HALF_TURN < y <= HALF_TURN
            &&& constrained(y, AngleKnobMode::Signed, later, None, None) == y
        }),
{
    lemma_wrap_signed(x);
}

/// Without bounds, every angle constrained in `Unsigned` mode lies in
/// `[0, TURN)`, and constraining it once more changes nothing, whatever the
/// previous angles were.
pub proof fn lemma_unsigned_constrain_is_canonical(x: int, previous: int, later: int)
    ensures
        ({
            let y = constrained(x, AngleKnobMode::Unsigned, previous, None, None);
            &&& 0 <= y < TURN
            &&& constrained(y, AngleKnobMode::Unsigned, later, None, None) == y
        }),
{
    lemma_wrap_unsigned(x);
}

/// With `min <= max`, a constrained angle lies between the two, in every mode.
pub proof fn lemma_constrained_within_bounds(
    candidate: int,
    mode: AngleKnobMode,
    previous: int,
    min: Option<i64>,
    max: Option<i64>,
)
    requires
        min is Some && max is Some ==> min->0 <= max->0,
    ensures
        min is Some ==> constrained(candidate, mode, previous, min, max) >= min->0,
        max is Some ==> constrained(candidate, mode, previous, min, max) <= max->0,
{
}

/// A snapped value is a multiple of the step, and no multiple of the step is
/// nearer to the value: `k * step` stands for any of them.
pub proof fn lemma_snap_is_nearest_multiple(value: int, step: int, k: int)
    requires
        step > 0,
    ensures
        snap_to(value, step) % step == 0,
        distance(snap_to(value, step), value) <= distance(k * step, value),
{
    let q = round_div(value, step);
    lemma_round_div_near(value, step);
    lemma_mod_multiples_basic(q, step);
    lemma_multiples_apart(k, q, step);
}

/// A multiple of the step snaps to itself, so snapping twice is snapping once.
pub proof fn lemma_snap_is_idempotent(value: int, step: int)
    requires
        step > 0,
    ensures
        snap_to(snap_to(value, step), step) == snap_to(value, step),
{
    lemma_round_div_exact(round_div(value, step), step);
}

/// `SpinAround` moves the candidate by whole turns only. Where the candidate
/// is no farther than a turn and a half from the phase of the previous angle,
/// which holds of every candidate within a turn of zero, the result lies
/// within half a turn of the previous angle.
pub proof fn lemma_spin_around_continues(candidate: int, previous: int)
    ensures
        (spin_around(candidate, previous) - candidate) % (TURN as int) == 0,
        -HALF_TURN <= spin_phase(previous) <= HALF_TURN,
        distance(candidate, spin_phase(previous)) <= TURN + HALF_TURN ==> distance(
            spin_around(candidate, previous),
            previous,
        ) <= HALF_TURN,
        -TURN <= candidate <= TURN ==> distance(spin_around(candidate, previous), previous)
            <= HALF_TURN,
{
    let turns = round_div(previous, TURN as int);
    lemma_round_div_near(previous, TURN as int);
    lemma_mod_multiples_basic(turns, TURN as int);
    lemma_mod_multiples_basic(turns - 1, TURN as int);
    lemma_mod_multiples_basic(turns + 1, TURN as int);
}

} // verus!
