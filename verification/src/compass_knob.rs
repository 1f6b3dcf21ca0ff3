//! The compass ribbon: a strip that shows a window of headings and scrolls as
//! it is dragged.
//!
//! Screen positions are whole numbers of a unit that the caller chooses; the
//! strip's width and height are counted in the same unit.

use crate::angle::{
    chosen_step, constrained, floor_div_rem, lemma_round_div_exact, lemma_wrap_signed,
    lemma_wrap_unsigned, round_div, rounded_quotient, snap_to, snap_wide, wrap_signed_wide,
    wrap_unsigned, wrap_unsigned_wide, AngleKnobMode, DEGREE, HALF_TURN, TURN,
};
use crate::animation::Animation;
use crate::color::{tint_towards, tinted, Color};
use vstd::arithmetic::div_mod::{
    lemma_fundamental_div_mod, lemma_mod_bound, lemma_mod_multiples_basic,
    lemma_mod_multiples_vanish,
};
use vstd::prelude::*;

verus! {

/// The shape of a marker.
#[derive(Clone, Copy, Debug, PartialEq, Eq, Structural)]
pub enum CompassKnobMarkerShape {
    Square,
    Circle,
    RightArrow,
    UpArrow,
    LeftArrow,
    DownArrow,
    Diamond,
    /// A star with this many points, whose inner corners reach this many
    /// millionths of the way to the outer ones.
    Star(u8, u32),
    /// A character, drawn in place of an outline.
    Emoji(char),
}

/// How far from the marker's centre an outer corner lies, in millionths of
/// the marker's radius.
pub const FULL_REACH: u32 = 1_000_000;

/// A corner of a marker's outline, as seen from the marker's centre.
#[derive(Clone, Copy, Debug, PartialEq, Eq, Structural)]
pub struct Corner {
    /// The screen direction from the centre to the corner, in `[0, TURN)`.
    pub direction: i64,
    /// The distance from the centre to the corner, in millionths of the
    /// marker's radius.
    pub reach: u32,
}

/// Corner `k` of a ring of `count` corners that are spread evenly over the
/// turn, the first in direction `start`: the corners with an even number
/// reach all the way out, the others as far as `inner`.
pub open spec fn ring_corner(start: int, count: int, inner: u32, k: int) -> Corner {
    Corner {
        direction: wrap_unsigned(start + k * TURN / count) as i64,
        reach: if k % 2 == 0 {
            FULL_REACH
        } else {
            inner
        },
    }
}

/// The ring of `count` corners, in order.
pub open spec fn ring(start: int, count: int, inner: u32) -> Seq<Corner> {
    Seq::new(count as nat, |k: int| ring_corner(start, count, inner, k))
}

impl CompassKnobMarkerShape {
    /// The corners of the outline, in the order in which the outline joins
    /// them. Squares, diamonds and arrows are regular, an arrow pointing
    /// where its name says; a star has an inner corner between two points,
    /// and its first point at the top. A circle and a character have no
    /// corners.
    pub open spec fn corners_of(&self) -> Seq<Corner> {
        match *self {
            CompassKnobMarkerShape::Square => ring(45_000_000, 4, FULL_REACH),
            CompassKnobMarkerShape::Circle => Seq::empty(),
            CompassKnobMarkerShape::RightArrow => ring(0, 3, FULL_REACH),
            CompassKnobMarkerShape::UpArrow => ring(30_000_000, 3, FULL_REACH),
            CompassKnobMarkerShape::LeftArrow => ring(60_000_000, 3, FULL_REACH),
            CompassKnobMarkerShape::DownArrow => ring(90_000_000, 3, FULL_REACH),
            CompassKnobMarkerShape::Diamond => ring(0, 4, FULL_REACH),
            CompassKnobMarkerShape::Star(points, inner) => ring(270_000_000, 2 * points, inner),
            CompassKnobMarkerShape::Emoji(_) => Seq::empty(),
        }
    }

    /// The corners of the outline, in the order in which the outline joins
    /// them.
    pub fn corners(&self) -> (c: Vec<Corner>)
        ensures
            c@ == self.corners_of(),
    {
        match *self {
            CompassKnobMarkerShape::Square => corners_of_ring(45_000_000, 4, FULL_REACH),
            CompassKnobMarkerShape::Circle => Vec::new(),
            CompassKnobMarkerShape::RightArrow => corners_of_ring(0, 3, FULL_REACH),
            CompassKnobMarkerShape::UpArrow => corners_of_ring(30_000_000, 3, FULL_REACH),
            CompassKnobMarkerShape::LeftArrow => corners_of_ring(60_000_000, 3, FULL_REACH),
            CompassKnobMarkerShape::DownArrow => corners_of_ring(90_000_000, 3, FULL_REACH),
            CompassKnobMarkerShape::Diamond => corners_of_ring(0, 4, FULL_REACH),
            CompassKnobMarkerShape::Star(points, inner) => corners_of_ring(
                270_000_000,
                2 * (points as u16),
                inner,
            ),
            CompassKnobMarkerShape::Emoji(_) => Vec::new(),
        }
    }
}

/// The ring of `count` corners, in order.
fn corners_of_ring(start: i64, count: u16, inner: u32) -> (c: Vec<Corner>)
    requires
        0 <= start < TURN,
    ensures
        c@ == ring(start as int, count as int, inner),
{
    let mut c: Vec<Corner> = Vec::new();
    let mut k: u16 = 0;
    while k < count
        invariant
            0 <= start < TURN,
            k <= count,
            c@.len() == k,
            forall|j: int| 0 <= j < k ==> #[trigger] c@[j] == ring_corner(
                start as int,
                count as int,
                inner,
                j,
            ),
        decreases count - k,
    {
        proof {
            lemma_ring_is_evenly_spread(start as int, count as int, inner, k as int);
        }
        let turned: i128 = (k as i128) * 360_000_000 / (count as i128);
        c.push(
            Corner {
                direction: wrap_unsigned_wide(start as i128 + turned),
                reach: if k % 2 == 0 {
                    FULL_REACH
                } else {
                    inner
                },
            },
        );
        k = k + 1;
    }
    assert(c@ =~= ring(start as int, count as int, inner));
    c
}

/// The corners of a ring lie on the outline in the order of their directions,
/// from the first one round: each lies as far round from the first as its
/// number is of the count, cut to a whole unit.
pub proof fn lemma_ring_is_evenly_spread(start: int, count: int, inner: u32, k: int)
    requires
        0 <= k < count,
    ensures
        ring(start, count, inner)[k] == ring_corner(start, count, inner, k),
        0 <= k * TURN / count < TURN,
        count * (k * TURN / count) <= k * TURN < count * (k * TURN / count + 1),
        0 <= ring(start, count, inner)[k].direction < TURN,
{
    let turned = k * TURN / count;
    lemma_fundamental_div_mod(k * TURN, count);
    lemma_mod_bound(k * TURN, count);
    assert(count * (turned + 1) == count * turned + count) by (nonlinear_arith);
    assert(count * turned >= 0 ==> turned >= 0) by (nonlinear_arith)
        requires
            count > 0,
            count * turned > -count,
    ;
    assert(turned < TURN) by (nonlinear_arith)
        requires
            count > 0,
            0 <= k < count,
            count * turned <= k * TURN,
    ;
    lemma_wrap_unsigned(start + turned);
}

/// A mark at a heading of the ribbon.
#[derive(Debug)]
pub struct CompassKnobMarker {
    /// The heading, in `[0, TURN)`.
    pub angle: i64,
    pub shape: CompassKnobMarkerShape,
    pub label: Option<String>,
    pub color: Color,
}

impl CompassKnobMarker {
    /// A grey square at the heading `angle`, folded into `[0, TURN)`, without
    /// a label.
    pub fn new(angle: i64) -> (m: CompassKnobMarker)
        ensures
            m.angle == wrap_unsigned(angle as int),
            0 <= m.angle < TURN,
            m.shape == CompassKnobMarkerShape::Square,
            m.label is None,
            m.color == (Color { r: 160, g: 160, b: 160, a: 255 }),
    {
        CompassKnobMarker {
            angle: wrap_unsigned_wide(angle as i128),
            shape: CompassKnobMarkerShape::Square,
            label: None,
            color: Color::gray(),
        }
    }

    /// The marker with the given shape.
    pub fn shape(self, shape: CompassKnobMarkerShape) -> (m: CompassKnobMarker)
        ensures
            m == (CompassKnobMarker { shape, ..self }),
    {
        let mut m = self;
        m.shape = shape;
        m
    }

    /// The marker with the given label.
    pub fn label(self, label: &str) -> (m: CompassKnobMarker)
        ensures
            m.label is Some,
            m.label->0@ == label@,
            m.angle == self.angle,
            m.shape == self.shape,
            m.color == self.color,
    {
        let mut m = self;
        m.label = Some(label.to_owned());
        m
    }

    /// The marker with the given colour.
    pub fn color(self, color: Color) -> (m: CompassKnobMarker)
        ensures
            m == (CompassKnobMarker { color, ..self }),
    {
        let mut m = self;
        m.color = color;
        m
    }
}

/// How long a tick is, as a share of the longest.
#[derive(Clone, Copy, Debug, PartialEq, Eq, Structural)]
pub enum TickScale {
    Full,
    ThreeQuarters,
    Half,
    ThreeTenths,
}

/// The scale of the tick at a whole number of degrees: full at the multiples
/// of 90, three quarters at the other multiples of 30, half at the other
/// multiples of 10, three tenths elsewhere.
pub open spec fn tick_scale_of(degrees: int) -> TickScale {
    if degrees % 90 == 0 {
        TickScale::Full
    } else if degrees % 30 == 0 {
        TickScale::ThreeQuarters
    } else if degrees % 10 == 0 {
        TickScale::Half
    } else {
        TickScale::ThreeTenths
    }
}

/// Which of the four cardinal labels the tick at a whole number of degrees
/// carries: the multiples of 90 carry them in turn, 0 the first, and no other
/// tick carries one.
pub open spec fn tick_label_of(degrees: int) -> Option<u8> {
    if degrees % 90 == 0 {
        Some(((degrees / 90) % 4) as u8)
    } else {
        None
    }
}

impl TickScale {
    /// The length of a tick of this scale on a ribbon of the given height:
    /// the share of a quarter of the height, cut to a whole number.
    pub open spec fn length_of(&self, height: u32) -> int {
        let h = height as int;
        match *self {
            TickScale::Full => h / 4,
            TickScale::ThreeQuarters => h * 3 / 16,
            TickScale::Half => h / 8,
            TickScale::ThreeTenths => h * 3 / 40,
        }
    }

    /// The length of a tick of this scale on a ribbon of the given height.
    pub fn length(&self, height: u32) -> (l: u32)
        ensures
            l == self.length_of(height),
    {
        let h: u64 = height as u64;
        match *self {
            TickScale::Full => (h / 4) as u32,
            TickScale::ThreeQuarters => (h * 3 / 16) as u32,
            TickScale::Half => (h / 8) as u32,
            TickScale::ThreeTenths => (h * 3 / 40) as u32,
        }
    }
}

/// The scale and the cardinal label of the tick at `degrees`, a multiple of 5.
pub fn classify_tick(degrees: i64) -> (tick: (TickScale, Option<u8>))
    requires
        degrees % 5 == 0,
    ensures
        tick.0 == tick_scale_of(degrees as int),
        tick.1 == tick_label_of(degrees as int),
        tick.1 is Some ==> tick.1->0 < 4,
{
    let (quarters, rest) = floor_div_rem(degrees as i128, 90);
    proof {
        lemma_fundamental_div_mod(degrees as int, 90);
        lemma_mod_multiples_vanish(3 * quarters, rest as int, 30);
        lemma_mod_multiples_vanish(9 * quarters, rest as int, 10);
    }
    if rest == 0 {
        let (_, which) = floor_div_rem(quarters, 4);
        (TickScale::Full, Some(which as u8))
    } else if rest % 30 == 0 {
        (TickScale::ThreeQuarters, None)
    } else if rest % 10 == 0 {
        (TickScale::Half, None)
    } else {
        (TickScale::ThreeTenths, None)
    }
}

/// `x`, or the end of the range of `i64` that `x` lies beyond.
pub open spec fn saturated(x: int) -> int {
    if x < i64::MIN {
        i64::MIN as int
    } else if x > i64::MAX {
        i64::MAX as int
    } else {
        x
    }
}

/// Where the heading `angle` is drawn on a ribbon that shows `displayed` at
/// `center_x` and `spread` over `width`: as far right of the centre as the
/// heading lies beyond the displayed one, rounded to a whole unit.
pub open spec fn screen_x_of(angle: int, displayed: int, center_x: int, width: int, spread: int) -> int
    recommends
        spread > 0,
{
    saturated(center_x - round_div((displayed - angle) * width, spread))
}

/// By how much a drag of `dx` units changes the value of a ribbon that shows
/// `spread` over `width`: a drag to the right lowers it.
pub open spec fn ribbon_delta(dx: int, width: int, spread: int) -> int
    recommends
        width > 0,
{
    -round_div(dx * spread, width)
}

/// `x` cut to the range of `i64`.
fn saturate(x: i128) -> (r: i64)
    ensures
        r == saturated(x as int),
{
    if x < i64::MIN as i128 {
        i64::MIN
    } else if x > i64::MAX as i128 {
        i64::MAX
    } else {
        x as i64
    }
}

/// `screen_x_of` for a heading that may lie beyond the range of `i64`.
fn screen_x_wide(angle: i128, displayed: i64, center_x: i64, width: u32, spread: i64) -> (x: i64)
    requires
        spread > 0,
        -0x1_0000_0000_0000_0000 <= angle <= 0x1_0000_0000_0000_0000,
    ensures
        x == screen_x_of(angle as int, displayed as int, center_x as int, width as int, spread as int),
{
    let off: i128 = displayed as i128 - angle;
    assert(-0x2_0000_0000_0000_0000 * 0x1_0000_0000 <= off * width <= 0x2_0000_0000_0000_0000
        * 0x1_0000_0000) by (nonlinear_arith)
        requires
            -0x2_0000_0000_0000_0000 <= off <= 0x2_0000_0000_0000_0000,
            0 <= width <= 0x1_0000_0000,
    ;
    let shift: i128 = rounded_quotient(off * (width as i128), spread as i128);
    saturate(center_x as i128 - shift)
}

/// Where the heading `angle` is drawn on a ribbon that shows `displayed` at
/// `center_x` and `spread` over `width`.
pub fn screen_x(angle: i64, displayed: i64, center_x: i64, width: u32, spread: i64) -> (x: i64)
    requires
        spread > 0,
    ensures
        x == screen_x_of(angle as int, displayed as int, center_x as int, width as int, spread as int),
{
    screen_x_wide(angle as i128, displayed, center_x, width, spread)
}

/// The displayed heading is drawn at the centre. A heading half the spread
/// beyond it is drawn half the width to the right of the centre, and one half
/// the spread short of it as far to the left: at the ends of the ribbon, where
/// the centre is in the middle of the width.
pub proof fn lemma_screen_x_round_trip(
    displayed: i64,
    center_x: i64,
    half_width: int,
    half_spread: int,
)
    requires
        half_spread > 0,
        half_width >= 0,
        i64::MIN <= center_x - half_width,
        center_x + half_width <= i64::MAX,
    ensures
        screen_x_of(displayed as int, displayed as int, center_x as int, 2 * half_width, 2 * half_spread)
            == center_x,
        screen_x_of(
            displayed + half_spread,
            displayed as int,
            center_x as int,
            2 * half_width,
            2 * half_spread,
        ) == center_x + half_width,
        screen_x_of(
            displayed - half_spread,
            displayed as int,
            center_x as int,
            2 * half_width,
            2 * half_spread,
        ) == center_x - half_width,
{
    let w = 2 * half_width;
    let s = 2 * half_spread;
    assert(0 * w == 0);
    lemma_round_div_exact(0, s);
    assert((-half_spread) * w == (-half_width) * s) by (nonlinear_arith)
        requires
            w == 2 * half_width,
            s == 2 * half_spread,
    ;
    assert(half_spread * w == half_width * s) by (nonlinear_arith)
        requires
            w == 2 * half_width,
            s == 2 * half_spread,
    ;
    lemma_round_div_exact(-half_width, s);
    lemma_round_div_exact(half_width, s);
}

/// A drag across the whole width changes the value by the whole spread.
pub proof fn lemma_ribbon_delta_of_width(width: int, spread: int)
    requires
        width > 0,
    ensures
        ribbon_delta(width, width, spread) == -spread,
        ribbon_delta(-width, width, spread) == spread,
        ribbon_delta(0, width, spread) == 0,
{
    assert(width * spread == spread * width) by (nonlinear_arith);
    assert((-width) * spread == (-spread) * width) by (nonlinear_arith);
    assert(0 * spread == 0 * width) by (nonlinear_arith);
    lemma_round_div_exact(spread, width);
    lemma_round_div_exact(-spread, width);
    lemma_round_div_exact(0, width);
}

/// A compass ribbon with its value: what one frame works on.
#[derive(Debug)]
pub struct CompassKnob {
    /// The committed heading.
    pub value: i64,
    /// How the heading is folded; a ribbon takes `SpinAround` as `Unbounded`,
    /// since a drag has no turns to continue.
    pub mode: AngleKnobMode,
    /// The width of the ribbon on the screen.
    pub width: u32,
    /// The height of the ribbon on the screen.
    pub height: u32,
    /// The span of headings that the width shows.
    pub spread: i64,
    /// The labels of the ticks at 0, 90, 180 and 270 degrees.
    pub labels: [String; 4],
    /// The step that the value snaps to when a drag ends.
    pub snap: Option<i64>,
    /// The step that the value snaps to when a drag ends while shift is held.
    pub shift_snap: Option<i64>,
    /// The least value.
    pub min: Option<i64>,
    /// The greatest value.
    pub max: Option<i64>,
    /// Whether the displayed heading moves to a new value over a short time.
    pub animated: bool,
    /// The marks drawn at fixed headings.
    pub markers: Vec<CompassKnobMarker>,
}

/// What the host hands to a ribbon for one frame.
#[derive(Clone, Copy, Debug, PartialEq, Eq, Structural)]
pub struct CompassKnobInput {
    /// The left edge of the rectangle allocated to the ribbon.
    pub left: i32,
    /// The top edge of the rectangle allocated to the ribbon.
    pub top: i32,
    /// Whether the ribbon is being dragged.
    pub dragged: bool,
    /// How far the pointer moved to the right since the last frame.
    pub drag_delta_x: i32,
    /// Whether a drag ended in this frame.
    pub drag_released: bool,
    /// Whether the shift key alone is held.
    pub shift: bool,
    /// The time of the frame, in milliseconds.
    pub now: u64,
    /// The colour of text, towards which the outlines of markers are tinted.
    pub text_color: Color,
}

/// Where one tick of the ribbon is drawn.
#[derive(Clone, Copy, Debug, PartialEq, Eq, Structural)]
pub struct TickLayout {
    /// The heading of the tick, in whole degrees.
    pub degrees: i64,
    /// The horizontal position of the tick.
    pub x: i64,
    /// How far the tick reaches down from the middle of the ribbon.
    pub length: u32,
    /// Which of the four cardinal labels stands under the tick.
    pub label: Option<u8>,
}

/// Where one marker of the ribbon is drawn, and how.
#[derive(Debug)]
pub struct MarkerLayout {
    /// The horizontal position of the marker and of its label.
    pub x: i64,
    pub shape: CompassKnobMarkerShape,
    pub label: Option<String>,
    /// The colour that fills the shape.
    pub fill: Color,
    /// The colour of the outline and of the label.
    pub stroke: Color,
}

/// Where the parts of a ribbon are drawn.
#[derive(Debug)]
pub struct CompassLayout {
    /// The middle of the ribbon, where the displayed heading is drawn.
    pub center_x: i64,
    /// The height at which the labels of markers are centred.
    pub label_y: i64,
    /// The height at which markers are centred.
    pub marker_y: i64,
    /// The distance from a marker's centre to its corners.
    pub marker_radius: u32,
    /// The height at which ticks begin.
    pub tick_y: i64,
    /// The height at which the labels of ticks are centred.
    pub tick_label_y: i64,
    /// The size of every label.
    pub font_size: u32,
    /// The displayed heading in whole degrees, the label of the cursor.
    pub cursor_degrees: i64,
    /// The markers, in the order in which the ribbon holds them.
    pub markers: Vec<MarkerLayout>,
    /// The ticks, from left to right.
    pub ticks: Vec<TickLayout>,
    /// Where the line of the least value is drawn, if there is one.
    pub min_stop_x: Option<i64>,
    /// Where the line of the greatest value is drawn, if there is one.
    pub max_stop_x: Option<i64>,
}

/// What one frame of a ribbon gives back.
#[derive(Debug)]
pub struct CompassKnobResponse {
    /// The committed heading after the frame.
    pub value: i64,
    /// Whether the frame set the value.
    pub changed: bool,
    /// The heading that the ribbon shows in this frame.
    pub displayed: i64,
    /// Where to draw the ribbon for the displayed heading.
    pub layout: CompassLayout,
    /// The four cardinal labels, for the ticks that carry one.
    pub labels: [String; 4],
}

/// The first tick of the window that `spread` opens around `displayed`: the
/// left end of the window, rounded down to a multiple of ten degrees.
pub open spec fn first_tick(displayed: int, spread: int) -> int {
    (displayed - spread / 2) / (10 * DEGREE) * 10
}

/// The last tick of the window that `spread` opens around `displayed`: the
/// right end of the window, rounded up to a multiple of ten degrees.
pub open spec fn last_tick(displayed: int, spread: int) -> int {
    -((-(displayed + spread / 2)) / (10 * DEGREE)) * 10
}

/// The tick at `degrees` on a ribbon as described.
pub open spec fn tick_layout_of(
    degrees: int,
    displayed: int,
    center_x: int,
    width: u32,
    height: u32,
    spread: int,
) -> TickLayout {
    TickLayout {
        degrees: degrees as i64,
        x: screen_x_of(degrees * DEGREE, displayed, center_x, width as int, spread) as i64,
        length: tick_scale_of(degrees).length_of(height) as u32,
        label: tick_label_of(degrees),
    }
}

/// Whether `ticks` are the ticks of the ribbon as described: one every five
/// degrees from the first tick to the last, both drawn.
pub open spec fn are_ticks_of(
    ticks: Seq<TickLayout>,
    displayed: int,
    center_x: int,
    width: u32,
    height: u32,
    spread: int,
) -> bool {
    &&& ticks.len() == (last_tick(displayed, spread) - first_tick(displayed, spread)) / 5 + 1
    &&& forall|i: int|
        0 <= i < ticks.len() ==> #[trigger] ticks[i] == tick_layout_of(
            first_tick(displayed, spread) + 5 * i,
            displayed,
            center_x,
            width,
            height,
            spread,
        )
}

/// Whether `laid` shows `marker` on the ribbon as described: at the marker's
/// heading, in its shape, filled with its colour, outlined and labelled in that
/// colour tinted towards the colour of text.
pub open spec fn is_marker_layout_of(
    laid: MarkerLayout,
    marker: CompassKnobMarker,
    displayed: int,
    center_x: int,
    width: u32,
    spread: int,
    text_color: Color,
) -> bool {
    &&& laid.x == screen_x_of(marker.angle as int, displayed, center_x, width as int, spread)
    &&& laid.shape == marker.shape
    &&& laid.fill == marker.color
    &&& laid.stroke@ == tinted(marker.color@, text_color@)
    &&& laid.label is Some <==> marker.label is Some
    &&& laid.label is Some ==> laid.label->0@ == marker.label->0@
}

/// Where the bound `stop` is drawn, if there is one.
pub open spec fn stop_x_of(
    stop: Option<i64>,
    displayed: int,
    center_x: int,
    width: u32,
    spread: int,
) -> Option<i64> {
    match stop {
        Some(angle) => Some(
            screen_x_of(angle as int, displayed, center_x, width as int, spread) as i64,
        ),
        None => None,
    }
}

impl CompassKnob {
    /// Whether the ribbon has a width and a spread to map by.
    pub open spec fn wf(&self) -> bool {
        &&& self.width > 0
        &&& self.spread > 0
    }

    /// The mode as a ribbon takes it.
    pub open spec fn ribbon_mode(&self) -> AngleKnobMode {
        match self.mode {
            AngleKnobMode::SpinAround => AngleKnobMode::Unbounded,
            mode => mode,
        }
    }

    /// The value to commit for `candidate`: folded and clamped, and cut to the
    /// range of `i64`.
    pub open spec fn commit_of(&self, candidate: int) -> int {
        saturated(constrained(candidate, self.ribbon_mode(), 0, self.min, self.max))
    }

    /// The value after a drag of `dx`.
    pub open spec fn dragged_value(&self, dx: int) -> int {
        self.commit_of(self.value + ribbon_delta(dx, self.width as int, self.spread as int))
    }

    /// The value after the end of a drag that left it at `value`.
    pub open spec fn released_value(&self, value: int, shift: bool) -> int {
        match chosen_step(shift, self.snap, self.shift_snap) {
            Some(step) => self.commit_of(snap_to(value, step as int)),
            None => value,
        }
    }

    /// The value after a frame with the given input.
    pub open spec fn value_after(&self, input: CompassKnobInput) -> int {
        let held = if input.dragged {
            self.dragged_value(input.drag_delta_x as int)
        } else {
            self.value as int
        };
        if input.drag_released {
            self.released_value(held, input.shift)
        } else {
            held
        }
    }

    /// The middle of the ribbon whose left edge is at `left`.
    pub open spec fn center_x_of(&self, left: int) -> int {
        left + self.width / 2
    }

    /// Whether `layout` is the layout of the ribbon, with its top left corner
    /// at `left` and `top`, for the heading `displayed`.
    pub open spec fn is_layout(
        &self,
        layout: CompassLayout,
        left: int,
        top: int,
        displayed: int,
        text_color: Color,
    ) -> bool {
        let center_x = self.center_x_of(left);
        &&& layout.center_x == center_x
        &&& layout.label_y == top + self.height / 8
        &&& layout.marker_y == top + self.height * 3 / 8
        &&& layout.marker_radius == self.height / 6
        &&& layout.tick_y == top + self.height / 2
        &&& layout.tick_label_y == top + self.height * 7 / 8
        &&& layout.font_size == self.height / 4
        &&& layout.cursor_degrees == round_div(displayed, DEGREE as int)
        &&& layout.markers@.len() == self.markers@.len()
        &&& forall|i: int|
            0 <= i < self.markers@.len() ==> is_marker_layout_of(
                #[trigger] layout.markers@[i],
                self.markers@[i],
                displayed,
                center_x,
                self.width,
                self.spread as int,
                text_color,
            )
        &&& are_ticks_of(
            layout.ticks@,
            displayed,
            center_x,
            self.width,
            self.height,
            self.spread as int,
        )
        &&& layout.min_stop_x == stop_x_of(
            self.min,
            displayed,
            center_x,
            self.width,
            self.spread as int,
        )
        &&& layout.max_stop_x == stop_x_of(
            self.max,
            displayed,
            center_x,
            self.width,
            self.spread as int,
        )
    }
}

/// What a ribbon commits is folded as its mode asks: without bounds it lies
/// in `(-HALF_TURN, HALF_TURN]` in `Signed` mode and in `[0, TURN)` in
/// `Unsigned` mode, and committing it again changes nothing. With bounds in
/// order it lies between them in every mode.
pub proof fn lemma_commit_is_canonical(knob: CompassKnob, candidate: int)
    requires
        knob.min is Some && knob.max is Some ==> knob.min->0 <= knob.max->0,
    ensures
        knob.min is None && knob.max is None && knob.mode is Signed ==> -HALF_TURN
            < knob.commit_of(candidate) <= HALF_TURN,
        knob.min is None && knob.max is None && knob.mode is Unsigned ==> 0 <= knob.commit_of(
            candidate,
        ) < TURN,
        knob.min is None && knob.max is None && (knob.mode is Signed || knob.mode is Unsigned)
            ==> knob.commit_of(knob.commit_of(candidate)) == knob.commit_of(candidate),
        knob.min is Some ==> knob.commit_of(candidate) >= knob.min->0,
        knob.max is Some ==> knob.commit_of(candidate) <= knob.max->0,
{
    lemma_wrap_signed(candidate);
    lemma_wrap_unsigned(candidate);
}

/// The ticks reach over the whole window that the spread opens around the
/// displayed heading, and less than ten degrees beyond it at either end; the
/// first and the last stand on multiples of ten degrees.
pub proof fn lemma_ticks_cover_the_window(displayed: int, spread: int)
    requires
        spread > 0,
    ensures
        first_tick(displayed, spread) % 10 == 0,
        last_tick(displayed, spread) % 10 == 0,
        first_tick(displayed, spread) * DEGREE <= displayed - spread / 2 < (first_tick(
            displayed,
            spread,
        ) + 10) * DEGREE,
        (last_tick(displayed, spread) - 10) * DEGREE < displayed + spread / 2 <= last_tick(
            displayed,
            spread,
        ) * DEGREE,
        first_tick(displayed, spread) <= last_tick(displayed, spread),
{
    let ten: int = 10_000_000;
    let low = displayed - spread / 2;
    let high = displayed + spread / 2;
    let below = low / ten;
    let above = -((-high) / ten);
    assert(10 * DEGREE == ten);
    lemma_fundamental_div_mod(low, ten);
    lemma_mod_bound(low, ten);
    lemma_fundamental_div_mod(-high, ten);
    lemma_mod_bound(-high, ten);
    lemma_mod_multiples_basic(below, 10);
    lemma_mod_multiples_basic(above, 10);
    assert(first_tick(displayed, spread) == below * 10);
    assert(last_tick(displayed, spread) == above * 10);
    assert(below * 10 * DEGREE == ten * below);
    assert(above * 10 * DEGREE == -(ten * ((-high) / ten)));
}

/// A copy of a label.
fn copy_label(label: &Option<String>) -> (copy: Option<String>)
    ensures
        copy is Some <==> label is Some,
        copy is Some ==> copy->0@ == label->0@,
{
    match label {
        Some(text) => Some(text.clone()),
        None => None,
    }
}

impl CompassKnob {
    /// A ribbon for `value` as it is drawn unless told otherwise: unsigned,
    /// 256 wide and 48 high, half a turn wide in headings, labelled N, E, S
    /// and W, snapping to ten degrees with shift only, unbounded, not
    /// animated, without markers.
    pub fn new(value: i64) -> (knob: CompassKnob)
        ensures
            knob.wf(),
            knob.value == value,
            knob.mode == AngleKnobMode::Unsigned,
            knob.width == 256,
            knob.height == 48,
            knob.spread == TURN / 2,
            knob.labels@[0]@ == "N"@,
            knob.labels@[1]@ == "E"@,
            knob.labels@[2]@ == "S"@,
            knob.labels@[3]@ == "W"@,
            knob.snap is None,
            knob.shift_snap == Some(10_000_000i64),
            knob.min is None,
            knob.max is None,
            !knob.animated,
            knob.markers@.len() == 0,
    {
        CompassKnob {
            value,
            mode: AngleKnobMode::Unsigned,
            width: 256,
            height: 48,
            spread: TURN / 2,
            labels: ["N".to_owned(), "E".to_owned(), "S".to_owned(), "W".to_owned()],
            snap: None,
            shift_snap: Some(TURN / 36),
            min: None,
            max: None,
            animated: false,
            markers: Vec::new(),
        }
    }

    /// The ribbon with the given mode.
    pub fn mode(self, mode: AngleKnobMode) -> (knob: CompassKnob)
        ensures
            knob == (CompassKnob { mode, ..self }),
    {
        let mut knob = self;
        knob.mode = mode;
        knob
    }

    /// The ribbon with the given width.
    pub fn width(self, width: u32) -> (knob: CompassKnob)
        ensures
            knob == (CompassKnob { width, ..self }),
    {
        let mut knob = self;
        knob.width = width;
        knob
    }

    /// The ribbon with the given height.
    pub fn height(self, height: u32) -> (knob: CompassKnob)
        ensures
            knob == (CompassKnob { height, ..self }),
    {
        let mut knob = self;
        knob.height = height;
        knob
    }

    /// The ribbon with the given spread.
    pub fn spread(self, spread: i64) -> (knob: CompassKnob)
        ensures
            knob == (CompassKnob { spread, ..self }),
    {
        let mut knob = self;
        knob.spread = spread;
        knob
    }

    /// The ribbon with the given cardinal labels.
    pub fn labels(self, labels: [String; 4]) -> (knob: CompassKnob)
        ensures
            knob == (CompassKnob { labels, ..self }),
    {
        let mut knob = self;
        knob.labels = labels;
        knob
    }

    /// The ribbon with the given least value.
    pub fn min(self, min: Option<i64>) -> (knob: CompassKnob)
        ensures
            knob == (CompassKnob { min, ..self }),
    {
        let mut knob = self;
        knob.min = min;
        knob
    }

    /// The ribbon with the given greatest value.
    pub fn max(self, max: Option<i64>) -> (knob: CompassKnob)
        ensures
            knob == (CompassKnob { max, ..self }),
    {
        let mut knob = self;
        knob.max = max;
        knob
    }

    /// The ribbon with the given snap step.
    pub fn snap(self, snap: Option<i64>) -> (knob: CompassKnob)
        ensures
            knob == (CompassKnob { snap, ..self }),
    {
        let mut knob = self;
        knob.snap = snap;
        knob
    }

    /// The ribbon with the given snap step for a release with shift.
    pub fn shift_snap(self, shift_snap: Option<i64>) -> (knob: CompassKnob)
        ensures
            knob == (CompassKnob { shift_snap, ..self }),
    {
        let mut knob = self;
        knob.shift_snap = shift_snap;
        knob
    }

    /// The ribbon, animated or not.
    pub fn animated(self, animated: bool) -> (knob: CompassKnob)
        ensures
            knob == (CompassKnob { animated, ..self }),
    {
        let mut knob = self;
        knob.animated = animated;
        knob
    }

    /// The ribbon with the given markers.
    pub fn markers(self, markers: Vec<CompassKnobMarker>) -> (knob: CompassKnob)
        ensures
            knob == (CompassKnob { markers, ..self }),
    {
        let mut knob = self;
        knob.markers = markers;
        knob
    }

    /// The value to commit for `candidate`.
    fn commit(&self, candidate: i128) -> (value: i64)
        requires
            -0x1_0000_0000_0000_0000_0000_0000 <= candidate <= 0x1_0000_0000_0000_0000_0000_0000,
        ensures
            value == self.commit_of(candidate as int),
    {
        let folded: i128 = match self.mode {
            AngleKnobMode::Signed => wrap_signed_wide(candidate) as i128,
            AngleKnobMode::Unsigned => wrap_unsigned_wide(candidate) as i128,
            AngleKnobMode::Unbounded => candidate,
            AngleKnobMode::SpinAround => candidate,
        };
        let raised: i128 = match self.min {
            Some(lo) => if folded < lo as i128 { lo as i128 } else { folded },
            None => folded,
        };
        let bounded: i128 = match self.max {
            Some(hi) => if raised > hi as i128 { hi as i128 } else { raised },
            None => raised,
        };
        saturate(bounded)
    }

    /// Where to draw the ribbon, with its top left corner at `left` and `top`,
    /// for the heading `displayed`.
    pub fn layout(&self, left: i32, top: i32, displayed: i64, text_color: Color) -> (layout:
        CompassLayout)
        requires
            self.wf(),
        ensures
            self.is_layout(layout, left as int, top as int, displayed as int, text_color),
    {
        let center_x: i64 = left as i64 + (self.width / 2) as i64;
        let h: i64 = self.height as i64;

        let mut markers: Vec<MarkerLayout> = Vec::new();
        let mut i: usize = 0;
        while i < self.markers.len()
            invariant
                self.wf(),
                i <= self.markers@.len(),
                markers@.len() == i,
                forall|j: int|
                    0 <= j < i ==> is_marker_layout_of(
                        #[trigger] markers@[j],
                        self.markers@[j],
                        displayed as int,
                        center_x as int,
                        self.width,
                        self.spread as int,
                        text_color,
                    ),
            decreases self.markers@.len() - i,
        {
            let marker = &self.markers[i];
            markers.push(
                MarkerLayout {
                    x: screen_x(marker.angle, displayed, center_x, self.width, self.spread),
                    shape: marker.shape,
                    label: copy_label(&marker.label),
                    fill: marker.color,
                    stroke: tint_towards(marker.color, text_color),
                },
            );
            i = i + 1;
        }

        let half: i128 = (self.spread / 2) as i128;
        let below: i128 = floor_div_rem(displayed as i128 - half, 10_000_000).0;
        let above: i128 = -floor_div_rem(-(displayed as i128 + half), 10_000_000).0;
        proof {
            lemma_ticks_cover_the_window(displayed as int, self.spread as int);
        }
        let first: i64 = (below * 10) as i64;
        let last: i64 = (above * 10) as i64;
        let mut ticks: Vec<TickLayout> = Vec::new();
        let mut degrees: i64 = first;
        while degrees <= last
            invariant
                self.wf(),
                first == first_tick(displayed as int, self.spread as int),
                last == last_tick(displayed as int, self.spread as int),
                first % 10 == 0,
                last % 10 == 0,
                -14_000_000_000_000 <= first <= last <= 14_000_000_000_000,
                first <= degrees <= last + 5,
                (degrees - first) % 5 == 0,
                ticks@.len() == (degrees - first) / 5,
                forall|j: int|
                    0 <= j < ticks@.len() ==> #[trigger] ticks@[j] == tick_layout_of(
                        first + 5 * j,
                        displayed as int,
                        center_x as int,
                        self.width,
                        self.height,
                        self.spread as int,
                    ),
            decreases last + 5 - degrees,
        {
            let (scale, label) = classify_tick(degrees);
            ticks.push(
                TickLayout {
                    degrees,
                    x: screen_x_wide(
                        degrees as i128 * 1_000_000,
                        displayed,
                        center_x,
                        self.width,
                        self.spread,
                    ),
                    length: scale.length(self.height),
                    label,
                },
            );
            degrees = degrees + 5;
        }

        CompassLayout {
            center_x,
            label_y: top as i64 + h / 8,
            marker_y: top as i64 + h * 3 / 8,
            marker_radius: self.height / 6,
            tick_y: top as i64 + h / 2,
            tick_label_y: top as i64 + h * 7 / 8,
            font_size: self.height / 4,
            cursor_degrees: rounded_quotient(displayed as i128, DEGREE as i128) as i64,
            markers,
            ticks,
            min_stop_x: match self.min {
                Some(angle) => Some(screen_x(angle, displayed, center_x, self.width, self.spread)),
                None => None,
            },
            max_stop_x: match self.max {
                Some(angle) => Some(screen_x(angle, displayed, center_x, self.width, self.spread)),
                None => None,
            },
        }
    }

    /// One frame of the ribbon.
    ///
    /// A drag moves the value against the pointer, by the spread for the whole
    /// width, and the result is folded and clamped. The end of a drag snaps
    /// the value to the step in force, if there is one, and folds and clamps
    /// it again. The ribbon then shows the value that `animation` displays
    /// for the committed one, and is laid out for it.
    pub fn ui(self, input: CompassKnobInput, animation: &mut Animation) -> (response:
        CompassKnobResponse)
        requires
            self.wf(),
            input.drag_released ==> match chosen_step(input.shift, self.snap, self.shift_snap) {
                Some(step) => step > 0,
                None => true,
            },
        ensures
            response.value == self.value_after(input),
            response.changed == (input.dragged || (input.drag_released && chosen_step(
                input.shift,
                self.snap,
                self.shift_snap,
            ) is Some)),
            response.displayed == old(animation).displayed_value(
                input.now,
                response.value,
                self.animated,
                input.dragged,
            ),
            *final(animation) == old(animation).advanced(
                input.now,
                response.value,
                self.animated,
                input.dragged,
            ),
            self.is_layout(
                response.layout,
                input.left as int,
                input.top as int,
                response.displayed as int,
                input.text_color,
            ),
            response.labels == self.labels,
    {
        let mut value: i64 = self.value;
        let mut changed: bool = false;
        if input.dragged {
            let dx: i128 = input.drag_delta_x as i128;
            assert(-0x8000_0000 * 0x8000_0000_0000_0000 <= dx * self.spread <= 0x8000_0000
                * 0x8000_0000_0000_0000) by (nonlinear_arith)
                requires
                    -0x8000_0000 <= dx <= 0x8000_0000,
                    0 <= self.spread <= 0x8000_0000_0000_0000,
            ;
            let moved: i128 = rounded_quotient(dx * (self.spread as i128), self.width as i128);
            value = self.commit(value as i128 - moved);
            changed = true;
        }
        if input.drag_released {
            let step: Option<i64> = if input.shift { self.shift_snap } else { self.snap };
            if let Some(step) = step {
                value = self.commit(snap_wide(value as i128, step));
                changed = true;
            }
        }
        let displayed: i64 = animation.display_value(
            input.now,
            value,
            self.animated,
            input.dragged,
        );
        let layout: CompassLayout = self.layout(input.left, input.top, displayed, input.text_color);
        CompassKnobResponse { value, changed, displayed, layout, labels: self.labels }
    }
}

} // verus!
