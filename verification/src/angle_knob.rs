//! The angle dial: a pointer's direction around the dial's centre becomes the
//! committed angle, and the committed angle places the dial's parts.

use crate::angle::{
    chosen_step, clamped, constrain, distance, is_angle, lemma_spin_around_continues,
    lemma_wrap_signed_unsigned, lemma_wrap_whole_turns, snap_wide, snapped, wrap_signed,
    wrap_signed_wide, wrap_unsigned, wrap_unsigned_wide, wrapped, AngleKnobMode, HALF_TURN,
    QUARTER_TURN, TURN,
};
use vstd::arithmetic::mul::lemma_mul_upper_bound;
use vstd::prelude::*;

verus! {

/// Where the dial's zero points on the screen.
#[derive(Clone, Copy, Debug, PartialEq, Eq, Structural)]
pub enum AngleKnobOrientation {
    Right,
    Bottom,
    Left,
    Top,
    /// Zero points in this screen direction.
    Custom(i64),
}

/// A rotation of the screen plane, held as its angle.
#[derive(Clone, Copy, Debug, PartialEq, Eq, Structural)]
pub struct Rotation {
    /// The angle of the rotation, in `[0, TURN)`.
    pub angle: i64,
}

impl Rotation {
    /// Whether the angle lies in `[0, TURN)`.
    pub open spec fn wf(&self) -> bool {
        0 <= self.angle < TURN
    }

    /// The rotation by `angle`.
    pub fn from_angle(angle: i64) -> (r: Rotation)
        ensures
            r.wf(),
            r.angle == wrap_unsigned(angle as int),
    {
        Rotation { angle: wrap_unsigned_wide(angle as i128) }
    }

    /// The rotation that undoes this one.
    pub fn inverse(&self) -> (r: Rotation)
        requires
            self.wf(),
        ensures
            r.wf(),
            r.angle == wrap_unsigned(-self.angle),
            wrap_unsigned(self.angle + r.angle) == 0,
    {
        Rotation { angle: wrap_unsigned_wide(-(self.angle as i128)) }
    }

    /// The direction, in `(-HALF_TURN, HALF_TURN]`, in which a vector points
    /// after the rotation, when it pointed in `direction` before.
    pub fn apply(&self, direction: i64) -> (r: i64)
        requires
            self.wf(),
        ensures
            r == wrap_signed(direction + self.angle),
    {
        wrap_signed_wide(direction as i128 + self.angle as i128)
    }
}

impl AngleKnobOrientation {
    /// The screen direction of the dial's zero, in `[0, TURN)`.
    pub open spec fn zero_direction(&self) -> int {
        match *self {
            AngleKnobOrientation::Right => 0,
            AngleKnobOrientation::Bottom => QUARTER_TURN as int,
            AngleKnobOrientation::Left => HALF_TURN as int,
            AngleKnobOrientation::Top => HALF_TURN + QUARTER_TURN,
            AngleKnobOrientation::Custom(angle) => wrap_unsigned(angle as int),
        }
    }

    /// The rotation that turns the screen's x axis onto the dial's zero.
    pub fn rot2(&self) -> (r: Rotation)
        ensures
            r.wf(),
            r.angle == self.zero_direction(),
    {
        match *self {
            AngleKnobOrientation::Right => Rotation { angle: 0 },
            AngleKnobOrientation::Bottom => Rotation { angle: QUARTER_TURN },
            AngleKnobOrientation::Left => Rotation { angle: HALF_TURN },
            AngleKnobOrientation::Top => Rotation { angle: HALF_TURN + QUARTER_TURN },
            AngleKnobOrientation::Custom(angle) => Rotation::from_angle(angle),
        }
    }
}

/// Which way the value grows as the pointer turns.
#[derive(Clone, Copy, Debug, PartialEq, Eq, Structural)]
pub enum AngleKnobDirection {
    Clockwise,
    Counterclockwise,
}

impl AngleKnobDirection {
    /// `1` for clockwise, `-1` for counterclockwise.
    pub open spec fn sign_of(&self) -> int {
        match *self {
            AngleKnobDirection::Clockwise => 1,
            AngleKnobDirection::Counterclockwise => -1,
        }
    }

    /// The factor between a screen angle and a value.
    pub fn sign(&self) -> (s: i64)
        ensures
            s == self.sign_of(),
    {
        match *self {
            AngleKnobDirection::Clockwise => 1,
            AngleKnobDirection::Counterclockwise => -1,
        }
    }
}

/// Orientation, direction and mode as some well-known programs combine them.
#[non_exhaustive]
#[derive(Clone, Copy, Debug, PartialEq, Eq, Structural)]
pub enum AngleKnobPreset {
    AdobePhotoshop,
    AdobePremierePro,
    Gimp,
    GoogleChromeDevTools,
    Krita,
    LibreOffice,
    QtWidgets,
}

impl AngleKnobPreset {
    /// The orientation, direction and mode of the preset.
    pub fn properties(&self) -> (p: (AngleKnobOrientation, AngleKnobDirection, AngleKnobMode))
        ensures
            p.0 is Top <==> *self is AdobePremierePro || *self is GoogleChromeDevTools,
            p.0 is Bottom <==> *self is QtWidgets,
            p.0 is Top || p.0 is Bottom || p.0 is Right,
            p.1 is Counterclockwise <==> p.0 is Right,
            p.2 is Signed <==> *self is AdobePhotoshop || *self is Krita,
            p.2 is SpinAround <==> *self is AdobePremierePro,
            p.2 is Signed || p.2 is SpinAround || p.2 is Unsigned,
    {
        match *self {
            AngleKnobPreset::AdobePhotoshop => (
                AngleKnobOrientation::Right,
                AngleKnobDirection::Counterclockwise,
                AngleKnobMode::Signed,
            ),
            AngleKnobPreset::AdobePremierePro => (
                AngleKnobOrientation::Top,
                AngleKnobDirection::Clockwise,
                AngleKnobMode::SpinAround,
            ),
            AngleKnobPreset::Gimp => (
                AngleKnobOrientation::Right,
                AngleKnobDirection::Counterclockwise,
                AngleKnobMode::Unsigned,
            ),
            AngleKnobPreset::GoogleChromeDevTools => (
                AngleKnobOrientation::Top,
                AngleKnobDirection::Clockwise,
                AngleKnobMode::Unsigned,
            ),
            AngleKnobPreset::Krita => (
                AngleKnobOrientation::Right,
                AngleKnobDirection::Counterclockwise,
                AngleKnobMode::Signed,
            ),
            AngleKnobPreset::LibreOffice => (
                AngleKnobOrientation::Right,
                AngleKnobDirection::Counterclockwise,
                AngleKnobMode::Unsigned,
            ),
            AngleKnobPreset::QtWidgets => (
                AngleKnobOrientation::Bottom,
                AngleKnobDirection::Clockwise,
                AngleKnobMode::Unsigned,
            ),
        }
    }
}

/// The angular distance from the value at which a stop has faded out: three
/// quarters of a turn.
pub const FADE_SPAN: i64 = 270_000_000;

/// The opacity of a stop that is fully drawn; opacities are millionths.
pub const OPAQUE: u32 = 1_000_000;

/// A stop mark of the dial: a radius drawn at a bound of the value.
#[derive(Clone, Copy, Debug, PartialEq, Eq, Structural)]
pub struct DialStop {
    /// The screen direction of the radius, in `(-HALF_TURN, HALF_TURN]`.
    pub direction: i64,
    /// How strongly the radius is drawn, from `0` to `OPAQUE`.
    pub opacity: u32,
}

/// Where the parts of a dial are drawn, as lengths and screen directions from
/// the dial's centre.
#[derive(Clone, Copy, Debug, PartialEq, Eq, Structural)]
pub struct DialLayout {
    /// The radius of the dial's body, and the length of every radius drawn.
    pub radius: u32,
    /// The radius of the hubs at the centre and at the end of the value's radius.
    pub hub_radius: u32,
    /// The direction of the dashed axis that stands across the dial's zero;
    /// it is drawn through the centre.
    pub cross_axis: i64,
    /// The direction of the dashed axis through the dial's zero; it is drawn
    /// through the centre.
    pub zero_axis: i64,
    /// The stop at the lower bound, where there is one.
    pub min_stop: Option<DialStop>,
    /// The stop at the upper bound, where there is one.
    pub max_stop: Option<DialStop>,
    /// The direction of the radius that shows the value.
    pub value_direction: i64,
}

/// Where the pointer is while it is pressed on a dial or drags it.
#[derive(Clone, Copy, Debug, PartialEq, Eq, Structural)]
pub struct DialPointer {
    /// How far to the right of the dial's centre the pointer is.
    pub dx: i64,
    /// How far below the dial's centre the pointer is.
    pub dy: i64,
    /// The screen direction from the dial's centre to the pointer. The host,
    /// which has the arc tangent, gives it; on the centre it means nothing.
    pub direction: i64,
}

/// The screen direction in which a pointer aims, if it aims at all: there is
/// none without a pointer, and none while the pointer rests on the centre.
pub open spec fn aim(pointer: Option<DialPointer>) -> Option<i64> {
    match pointer {
        Some(at) => if at.dx == 0 && at.dy == 0 {
            None
        } else {
            Some(at.direction)
        },
        None => None,
    }
}

/// What one frame of a dial gives back.
#[derive(Clone, Copy, Debug, PartialEq, Eq, Structural)]
pub struct AngleKnobResponse {
    /// Whether the pointer set the value in this frame.
    pub changed: bool,
    /// Where to draw the dial for the value as it now stands.
    pub layout: DialLayout,
}

/// The value at which a pointer in screen direction `pointer` points: the
/// direction as seen from the dial's zero, folded into
/// `(-HALF_TURN, HALF_TURN]`, with the sign of the winding.
pub open spec fn pointed_value(
    pointer: int,
    orientation: AngleKnobOrientation,
    direction: AngleKnobDirection,
) -> int {
    direction.sign_of() * wrap_signed(pointer - orientation.zero_direction())
}

/// The value that a dial commits for a pointer: the pointed value, folded as
/// the mode asks, then snapped, then clamped.
pub open spec fn dial_value(
    pointer: int,
    orientation: AngleKnobOrientation,
    direction: AngleKnobDirection,
    mode: AngleKnobMode,
    previous: int,
    min: Option<i64>,
    max: Option<i64>,
    step: Option<i64>,
) -> int {
    clamped(
        snapped(wrapped(pointed_value(pointer, orientation, direction), mode, previous), step),
        min,
        max,
    )
}

/// The screen direction in which the dial shows `value`.
pub open spec fn screen_direction(
    value: int,
    orientation: AngleKnobOrientation,
    direction: AngleKnobDirection,
) -> int {
    wrap_signed(direction.sign_of() * value + orientation.zero_direction())
}

/// The fifth power.
pub open spec fn pow5(r: int) -> int {
    r * r * r * r * r
}

/// The share of `FADE_SPAN`, in millionths and cut to a whole number, that
/// lies between a stop and the value; a full share beyond the span.
pub open spec fn fade_ratio(stop: int, value: int) -> int {
    let d = distance(stop, value);
    (if d > FADE_SPAN { FADE_SPAN as int } else { d }) * OPAQUE / (FADE_SPAN as int)
}

/// The opacity of a stop: full where the value stands on it, and less by the
/// fifth power of `fade_ratio`, cut to whole millionths.
pub open spec fn stop_opacity_of(stop: int, value: int) -> int {
    OPAQUE - pow5(fade_ratio(stop, value)) / 1_000_000_000_000_000_000_000_000
}

/// The stop drawn at the bound `stop` of a dial that shows `value`.
pub open spec fn dial_stop_of(
    stop: int,
    value: int,
    orientation: AngleKnobOrientation,
    direction: AngleKnobDirection,
) -> DialStop {
    DialStop {
        direction: screen_direction(stop, orientation, direction) as i64,
        opacity: stop_opacity_of(stop, value) as u32,
    }
}

/// The layout of a dial of the given diameter that shows `value`.
pub open spec fn dial_layout_of(
    diameter: u32,
    orientation: AngleKnobOrientation,
    direction: AngleKnobDirection,
    value: int,
    min: Option<i64>,
    max: Option<i64>,
) -> DialLayout {
    DialLayout {
        radius: diameter / 2,
        hub_radius: diameter / 24,
        cross_axis: wrap_signed(QUARTER_TURN + orientation.zero_direction()) as i64,
        zero_axis: wrap_signed(orientation.zero_direction()) as i64,
        min_stop: match min {
            Some(stop) => Some(dial_stop_of(stop as int, value, orientation, direction)),
            None => None,
        },
        max_stop: match max {
            Some(stop) => Some(dial_stop_of(stop as int, value, orientation, direction)),
            None => None,
        },
        value_direction: screen_direction(value, orientation, direction) as i64,
    }
}

/// Whatever the pointer, a dial with bounds in order commits a value between
/// them.
pub proof fn lemma_dial_value_within_bounds(
    pointer: int,
    orientation: AngleKnobOrientation,
    direction: AngleKnobDirection,
    mode: AngleKnobMode,
    previous: int,
    min: Option<i64>,
    max: Option<i64>,
    step: Option<i64>,
)
    requires
        min is Some && max is Some ==> min->0 <= max->0,
    ensures
        min is Some ==> dial_value(pointer, orientation, direction, mode, previous, min, max, step)
            >= min->0,
        max is Some ==> dial_value(pointer, orientation, direction, mode, previous, min, max, step)
            <= max->0,
{
}

/// A pointed value lies within half a turn of zero, so a dial in `SpinAround`
/// mode, without snap step and bounds, never moves its value by more than half
/// a turn in one frame, and always to where the pointer points.
pub proof fn lemma_dial_spins_continuously(
    pointer: int,
    orientation: AngleKnobOrientation,
    direction: AngleKnobDirection,
    previous: int,
)
    ensures
        -HALF_TURN <= pointed_value(pointer, orientation, direction) <= HALF_TURN,
        distance(
            dial_value(
                pointer,
                orientation,
                direction,
                AngleKnobMode::SpinAround,
                previous,
                None,
                None,
                None,
            ),
            previous,
        ) <= HALF_TURN,
        (dial_value(
            pointer,
            orientation,
            direction,
            AngleKnobMode::SpinAround,
            previous,
            None,
            None,
            None,
        ) - pointed_value(pointer, orientation, direction)) % (TURN as int) == 0,
{
    let seen = wrap_signed(pointer - orientation.zero_direction());
    lemma_wrap_signed_unsigned(pointer - orientation.zero_direction());
    assert(direction.sign_of() * seen == seen || direction.sign_of() * seen == -seen);
    lemma_spin_around_continues(pointed_value(pointer, orientation, direction), previous);
}

/// A stop fades as the value moves away from it: the opacity at the farther
/// value is never the greater.
pub proof fn lemma_stop_opacity_fades(stop: int, near: int, far: int)
    requires
        distance(stop, near) <= distance(stop, far),
    ensures
        stop_opacity_of(stop, near) >= stop_opacity_of(stop, far),
        0 <= stop_opacity_of(stop, far) <= OPAQUE,
{
    let a = fade_ratio(stop, near);
    let b = fade_ratio(stop, far);
    lemma_pow5_bounds(a);
    lemma_pow5_bounds(b);
    lemma_mul_upper_bound(a, b, a, b);
    lemma_mul_upper_bound(a * a, b * b, a, b);
    lemma_mul_upper_bound(a * a * a, b * b * b, a, b);
    lemma_mul_upper_bound(a * a * a * a, b * b * b * b, a, b);
}

/// The fifth power of a ratio lies between zero and the fifth power of one.
proof fn lemma_pow5_bounds(r: int)
    requires
        0 <= r <= 1_000_000,
    ensures
        0 <= r * r <= 1_000_000_000_000,
        0 <= r * r * r <= 1_000_000_000_000_000_000,
        0 <= r * r * r * r <= 1_000_000_000_000_000_000_000_000,
        0 <= pow5(r) <= 1_000_000_000_000_000_000_000_000_000_000,
        r == 0 ==> pow5(r) == 0,
        r == 1_000_000 ==> pow5(r) == 1_000_000_000_000_000_000_000_000_000_000,
{
    let r2 = r * r;
    let r3 = r2 * r;
    let r4 = r3 * r;
    lemma_mul_upper_bound(r, 1_000_000, r, 1_000_000);
    lemma_mul_upper_bound(r2, 1_000_000_000_000, r, 1_000_000);
    lemma_mul_upper_bound(r3, 1_000_000_000_000_000_000, r, 1_000_000);
    lemma_mul_upper_bound(r4, 1_000_000_000_000_000_000_000_000, r, 1_000_000);
    assert(r2 >= 0 && r3 >= 0 && r4 >= 0 && r4 * r >= 0) by (nonlinear_arith)
        requires
            r >= 0,
            r2 == r * r,
            r3 == r2 * r,
            r4 == r3 * r,
    ;
}

/// How strongly the stop at `stop` is drawn on a dial that shows `value`: in
/// full where the value stands on the stop, not at all from `FADE_SPAN` on.
pub fn stop_opacity(stop: i64, value: i64) -> (opacity: u32)
    ensures
        opacity == stop_opacity_of(stop as int, value as int),
        opacity <= OPAQUE,
        stop == value ==> opacity == OPAQUE,
        distance(stop as int, value as int) >= FADE_SPAN ==> opacity == 0,
{
    let gap: i128 = stop as i128 - value as i128;
    let d: i128 = if gap < 0 { -gap } else { gap };
    let within: i128 = if d > FADE_SPAN as i128 { FADE_SPAN as i128 } else { d };
    assert(0 <= within * OPAQUE <= FADE_SPAN * OPAQUE) by (nonlinear_arith)
        requires
            0 <= within <= FADE_SPAN,
    ;
    let r: i128 = within * (OPAQUE as i128) / (FADE_SPAN as i128);
    proof {
        lemma_pow5_bounds(r as int);
    }
    let fade: i128 = r * r * r * r * r / 1_000_000_000_000_000_000_000_000;
    (OPAQUE as i128 - fade) as u32
}

/// The stop at the bound `stop` of a dial that shows `value`.
fn dial_stop(
    stop: i64,
    value: i64,
    orientation: AngleKnobOrientation,
    direction: AngleKnobDirection,
) -> (s: DialStop)
    ensures
        s == dial_stop_of(stop as int, value as int, orientation, direction),
{
    DialStop {
        direction: show(stop, orientation, direction),
        opacity: stop_opacity(stop, value),
    }
}

/// The screen direction in which the dial shows `value`.
fn show(value: i64, orientation: AngleKnobOrientation, direction: AngleKnobDirection) -> (r: i64)
    ensures
        r == screen_direction(value as int, orientation, direction),
        -HALF_TURN < r <= HALF_TURN,
{
    let zero: i64 = orientation.rot2().angle;
    let turned: i128 = match direction {
        AngleKnobDirection::Clockwise => value as i128,
        AngleKnobDirection::Counterclockwise => -(value as i128),
    };
    wrap_signed_wide(turned + zero as i128)
}

/// Where to draw a dial of the given diameter that shows `value`, with a stop
/// at each bound that is set.
pub fn dial_layout(
    diameter: u32,
    orientation: AngleKnobOrientation,
    direction: AngleKnobDirection,
    value: i64,
    min: Option<i64>,
    max: Option<i64>,
) -> (layout: DialLayout)
    ensures
        layout == dial_layout_of(diameter, orientation, direction, value as int, min, max),
{
    let rotation: Rotation = orientation.rot2();
    DialLayout {
        radius: diameter / 2,
        hub_radius: diameter / 24,
        cross_axis: rotation.apply(QUARTER_TURN),
        zero_axis: rotation.apply(0),
        min_stop: match min {
            Some(stop) => Some(dial_stop(stop, value, orientation, direction)),
            None => None,
        },
        max_stop: match max {
            Some(stop) => Some(dial_stop(stop, value, orientation, direction)),
            None => None,
        },
        value_direction: show(value, orientation, direction),
    }
}

/// The value at which a pointer in screen direction `pointer` points.
pub fn pointed(pointer: i64, orientation: AngleKnobOrientation, direction: AngleKnobDirection) -> (r:
    i64)
    ensures
        r == pointed_value(pointer as int, orientation, direction),
        -HALF_TURN <= r <= HALF_TURN,
{
    let back: Rotation = orientation.rot2().inverse();
    let seen: i64 = back.apply(pointer);
    proof {
        let zero = orientation.zero_direction();
        lemma_wrap_whole_turns(pointer - zero, -((-zero) / (TURN as int)));
    }
    match direction {
        AngleKnobDirection::Clockwise => seen,
        AngleKnobDirection::Counterclockwise => -seen,
    }
}

/// One frame of an angle dial.
///
/// `pointer` says where the pointer is while it is pressed on the dial or
/// drags it, and is `None` otherwise. `shift` says whether the shift key alone
/// is held.
///
/// Where the pointer aims, the value becomes the pointed value, folded as
/// `mode` asks with the old value as the one that `SpinAround` continues,
/// snapped to the step in force, and clamped. Without a pointer, and while
/// the pointer rests on the centre, the value stays. The layout is that of
/// the new value.
pub fn angle_knob(
    pointer: Option<DialPointer>,
    shift: bool,
    diameter: u32,
    orientation: AngleKnobOrientation,
    direction: AngleKnobDirection,
    mode: AngleKnobMode,
    value: &mut i64,
    min: Option<i64>,
    max: Option<i64>,
    snap_angle: Option<i64>,
    shift_snap_angle: Option<i64>,
) -> (response: AngleKnobResponse)
    requires
        aim(pointer) is Some && mode is SpinAround ==> is_angle(*old(value) as int),
        aim(pointer) is Some ==> match chosen_step(shift, snap_angle, shift_snap_angle) {
            Some(step) => step > 0,
            None => true,
        },
    ensures
        response.changed == aim(pointer) is Some,
        aim(pointer) is None ==> *final(value) == *old(value),
        aim(pointer) is Some ==> *final(value) == dial_value(
            aim(pointer)->0 as int,
            orientation,
            direction,
            mode,
            *old(value) as int,
            min,
            max,
            chosen_step(shift, snap_angle, shift_snap_angle),
        ),
        response.layout == dial_layout_of(
            diameter,
            orientation,
            direction,
            *final(value) as int,
            min,
            max,
        ),
{
    let aimed: Option<i64> = match pointer {
        Some(at) => if at.dx == 0 && at.dy == 0 {
            None
        } else {
            Some(at.direction)
        },
        None => None,
    };
    let mut changed: bool = false;
    if let Some(towards) = aimed {
        let raw: i64 = pointed(towards, orientation, direction);
        let folded: i64 = constrain(raw, mode, *value, None, None);
        proof {
            lemma_spin_around_continues(raw as int, *value as int);
        }
        let step: Option<i64> = if shift { shift_snap_angle } else { snap_angle };
        let wide: i128 = match step {
            Some(s) => snap_wide(folded as i128, s),
            None => folded as i128,
        };
        let lowest: i128 = match min {
            Some(lo) => if wide < lo as i128 { lo as i128 } else { wide },
            None => wide,
        };
        let bounded: i128 = match max {
            Some(hi) => if lowest > hi as i128 { hi as i128 } else { lowest },
            None => lowest,
        };
        *value = bounded as i64;
        changed = true;
    }
    AngleKnobResponse {
        changed,
        layout: dial_layout(diameter, orientation, direction, *value, min, max),
    }
}

} // verus!
