//! Knob-style angle inputs: an angle dial and a scrolling compass ribbon.
//!
//! The crate holds the arithmetic of both controls: how a pointer position or
//! a drag becomes a committed angle, and where the parts of a control are
//! drawn for a displayed angle. Angles and screen coordinates are whole
//! numbers (see [`angle`]), so every result is exact and every contract is
//! stated over the integers.

pub mod angle;
pub mod angle_knob;
pub mod animation;
pub mod color;
pub mod compass_knob;
pub mod package_info;

pub use angle::{
    constrain, normalized_angle_signed, normalized_angle_unsigned, snap, AngleKnobMode,
    ANGLE_MAX, DEGREE, HALF_TURN, QUARTER_TURN, TURN,
};
pub use angle_knob::{
    angle_knob, dial_layout, pointed, stop_opacity, AngleKnobDirection, AngleKnobOrientation,
    AngleKnobPreset, AngleKnobResponse, DialLayout, DialPointer, DialStop, Rotation, FADE_SPAN,
    OPAQUE,
};
pub use animation::{Animation, HALF_LIFE, SETTLE_TIME};
pub use color::Color;
pub use compass_knob::{
    classify_tick, screen_x, CompassKnob, CompassKnobInput, CompassKnobMarker,
    CompassKnobMarkerShape, CompassKnobResponse, CompassLayout, Corner, MarkerLayout,
    TickLayout, TickScale, FULL_REACH,
};
pub use package_info::{is_no_reply, PackageInfo};
