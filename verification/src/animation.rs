//! The displayed value of a control: the committed value, or a value on its
//! way there.
//!
//! The state of one control's animation is a value of [`Animation`] that the
//! caller keeps between frames. Time is a count of milliseconds from a clock
//! that does not run backwards. The displayed value approaches the committed
//! one by halves, and is there after a fixed time.

use crate::angle::{
    distance, lemma_round_div_bound, lemma_round_div_exact, lemma_round_div_near, round_div,
    rounded_quotient,
};
use vstd::prelude::*;

verus! {

/// How long the displayed value takes to reach a newly committed one.
pub const SETTLE_TIME: u64 = 100;

/// The time in which the displayed value covers half of what is left of its
/// way.
pub const HALF_LIFE: u64 = 10;

/// Two to the power `k`.
pub open spec fn halvings(k: nat) -> int
    decreases k,
{
    if k == 0 {
        1
    } else {
        2 * halvings((k - 1) as nat)
    }
}

/// What is left of the way from `origin` to `target` after `elapsed`
/// milliseconds: all of it at the start, half as much with every `HALF_LIFE`
/// that has gone by, rounded to a whole number, and nothing from `SETTLE_TIME`
/// on. It has the sign of `target - origin`.
pub open spec fn remaining(origin: int, target: int, elapsed: int) -> int {
    if elapsed >= SETTLE_TIME {
        0
    } else if elapsed <= 0 {
        target - origin
    } else {
        round_div(target - origin, halvings((elapsed / (HALF_LIFE as int)) as nat))
    }
}

/// The value displayed `elapsed` milliseconds after the displayed value set out
/// from `origin` for `target`.
pub open spec fn interpolated(origin: int, target: int, elapsed: int) -> int {
    target - remaining(origin, target, elapsed)
}

/// The animation of one control's displayed value.
#[derive(Clone, Copy, Debug, PartialEq, Eq, Structural)]
pub struct Animation {
    /// The value that was displayed when the animation set out.
    pub origin: i64,
    /// The committed value that the animation moves to.
    pub target: i64,
    /// When the animation set out.
    pub started: u64,
}

/// A power of two is at least one, and within the settling time no greater
/// than 512.
proof fn lemma_halvings(k: nat)
    ensures
        halvings(k) >= 1,
        k <= 9 ==> halvings(k) <= 512,
        halvings(k + 1) == 2 * halvings(k),
    decreases k,
{
    reveal_with_fuel(halvings, 11);
    if k > 9 {
        lemma_halvings((k - 1) as nat);
    }
}

/// The displayed value never leaves the span between origin and target; it is
/// the origin at the start and the target from `SETTLE_TIME` on.
pub proof fn lemma_interpolated_between(origin: int, target: int, elapsed: int)
    ensures
        origin <= target ==> origin <= interpolated(origin, target, elapsed) <= target,
        origin >= target ==> origin >= interpolated(origin, target, elapsed) >= target,
        elapsed <= 0 ==> interpolated(origin, target, elapsed) == origin,
        elapsed >= SETTLE_TIME ==> interpolated(origin, target, elapsed) == target,
{
    if 0 < elapsed < SETTLE_TIME {
        let k = (elapsed / (HALF_LIFE as int)) as nat;
        lemma_halvings(k);
        lemma_round_div_bound(target - origin, halvings(k));
    }
}

/// With every `HALF_LIFE` that goes by, what is left of the way is halved, but
/// for the rounding: twice what is left afterwards exceeds what was left
/// before by one at most.
pub proof fn lemma_remaining_halves(origin: int, target: int, elapsed: int)
    requires
        0 <= elapsed,
    ensures
        2 * distance(remaining(origin, target, elapsed + HALF_LIFE), 0) <= distance(
            remaining(origin, target, elapsed),
            0,
        ) + 1,
{
    let gap = target - origin;
    let k = (elapsed / (HALF_LIFE as int)) as nat;
    assert((elapsed + HALF_LIFE) / (HALF_LIFE as int) == k + 1);
    lemma_halvings(k);
    let d = halvings(k);
    lemma_round_div_near(gap, d);
    lemma_round_div_near(gap, 2 * d);
    lemma_round_div_bound(gap, d);
    lemma_round_div_bound(gap, 2 * d);
    let before = round_div(gap, d);
    let after = round_div(gap, 2 * d);
    assert(after * (2 * d) == (2 * after) * d) by (nonlinear_arith);
    assert((2 * after) * d - before * d == (2 * after - before) * d) by (nonlinear_arith);
    assert(2 * after - before >= 2 ==> (2 * after - before) * d >= 2 * d) by (nonlinear_arith)
        requires
            d >= 1,
    ;
    assert(2 * after - before <= -2 ==> (2 * after - before) * d <= -2 * d) by (nonlinear_arith)
        requires
            d >= 1,
    ;
    if elapsed == 0 {
        assert(halvings(1) == 2 * halvings(0));
        lemma_round_div_exact(gap, 1);
        assert(gap * 1 == gap);
    }
}

impl Animation {
    /// An animation at rest on `value`.
    pub fn new(value: i64) -> (a: Animation)
        ensures
            a == (Animation { origin: value, target: value, started: 0 }),
    {
        Animation { origin: value, target: value, started: 0 }
    }

    /// The time since the animation set out; none if the clock reads less.
    pub open spec fn elapsed_at(&self, now: u64) -> int {
        if now >= self.started {
            now - self.started
        } else {
            0
        }
    }

    /// The value that the animation displays at `now`.
    pub open spec fn value_at(&self, now: u64) -> int {
        interpolated(self.origin as int, self.target as int, self.elapsed_at(now))
    }

    /// The value to display at `now` for the committed value: the committed
    /// value itself while the control is dragged or is not animated, and
    /// otherwise the value that the animation displays.
    pub open spec fn displayed_value(
        &self,
        now: u64,
        committed: i64,
        enabled: bool,
        is_dragging: bool,
    ) -> int {
        if is_dragging || !enabled {
            committed as int
        } else {
            self.value_at(now)
        }
    }

    /// The animation after it gave the value to display at `now`: at rest on
    /// the committed value while the control is dragged or is not animated;
    /// set out anew, from the value displayed, where the committed value is
    /// not the one that it moved to; and unchanged otherwise.
    pub open spec fn advanced(
        &self,
        now: u64,
        committed: i64,
        enabled: bool,
        is_dragging: bool,
    ) -> Animation {
        if is_dragging || !enabled {
            Animation { origin: committed, target: committed, started: now }
        } else if committed != self.target {
            Animation { origin: self.value_at(now) as i64, target: committed, started: now }
        } else {
            *self
        }
    }

    /// The value that the animation displays at `now`.
    pub fn current(&self, now: u64) -> (shown: i64)
        ensures
            shown == self.value_at(now),
    {
        let elapsed: u64 = if now >= self.started { now - self.started } else { 0 };
        if elapsed >= SETTLE_TIME {
            self.target
        } else if elapsed == 0 {
            self.origin
        } else {
            let gap: i128 = self.target as i128 - self.origin as i128;
            let steps: u64 = elapsed / HALF_LIFE;
            let mut divisor: i128 = 1;
            let mut k: u64 = 0;
            while k < steps
                invariant
                    k <= steps <= 9,
                    divisor == halvings(k as nat),
                    1 <= divisor <= 512,
                decreases steps - k,
            {
                proof {
                    lemma_halvings(k as nat);
                    lemma_halvings((k + 1) as nat);
                }
                divisor = 2 * divisor;
                k = k + 1;
            }
            let left: i128 = rounded_quotient(gap, divisor);
            (self.target as i128 - left) as i64
        }
    }

    /// The value to display at `now` for the committed value.
    ///
    /// While the control is dragged, or while it is not animated, that is the
    /// committed value itself, and the animation comes to rest on it. Otherwise
    /// it is the value that the animation displays at `now`; where the
    /// committed value is not the one that the animation moves to, the
    /// animation sets out anew, from the value displayed, for the committed
    /// value.
    pub fn display_value(&mut self, now: u64, committed: i64, enabled: bool, is_dragging: bool) -> (shown:
        i64)
        ensures
            shown == old(self).displayed_value(now, committed, enabled, is_dragging),
            *final(self) == old(self).advanced(now, committed, enabled, is_dragging),
    {
        if is_dragging || !enabled {
            self.origin = committed;
            self.target = committed;
            self.started = now;
            committed
        } else {
            let shown: i64 = self.current(now);
            if committed != self.target {
                self.origin = shown;
                self.target = committed;
                self.started = now;
            }
            shown
        }
    }
}

} // verus!
