use std::f32::consts::{PI, TAU};

use eframe::emath::{normalized_angle, Rot2, Vec2};
use eframe::epaint::color::tint_color_towards;
use eframe::epaint::Color32;
use egui_knobs::angle::{
    constrain, normalized_angle_signed, normalized_angle_unsigned, snap, AngleKnobMode, HALF_TURN,
    TURN,
};
use egui_knobs::angle_knob::{pointed, AngleKnobDirection, AngleKnobOrientation};
use egui_knobs::color::Color;
use egui_knobs::compass_knob::{screen_x, CompassKnob, CompassKnobMarker};

/// Radians as millionths of a degree.
fn units(radians: f64) -> i64 {
    (radians.to_degrees() * 1.0e6).round() as i64
}

/// The distance between two angles, the shorter way round.
fn apart(a: i64, b: i64) -> i64 {
    let d = (a - b).rem_euclid(TURN);
    d.min(TURN - d)
}

#[test]
fn grey_is_the_grey_of_epaint() {
    let [r, g, b, a] = Color32::GRAY.to_array();
    assert_eq!(Color::gray(), Color { r, g, b, a });
    let [r, g, b, a] = Color32::from_rgb(1, 2, 3).to_array();
    assert_eq!(Color::from_rgb(1, 2, 3), Color { r, g, b, a });
}

#[test]
fn marker_outline_is_tinted_as_epaint_tints() {
    let channels = [0u8, 1, 2, 84, 85, 127, 128, 169, 170, 171, 254, 255];
    for &alpha in &channels {
        for &own in &channels {
            for &other in &channels {
                let color = Color { r: own, g: other, b: 255 - own, a: alpha };
                let text = Color { r: other, g: 255 - other, b: own, a: 255 - alpha };
                let knob = CompassKnob::new(0).markers(vec![CompassKnobMarker::new(0).color(color)]);
                let layout = knob.layout(0, 0, 0, text);
                let expected = tint_color_towards(
                    Color32::from_rgba_premultiplied(color.r, color.g, color.b, color.a),
                    Color32::from_rgba_premultiplied(text.r, text.g, text.b, text.a),
                )
                .to_array();
                let stroke = layout.markers[0].stroke;
                assert_eq!([stroke.r, stroke.g, stroke.b, stroke.a], expected);
                assert_eq!(layout.markers[0].fill, color);
            }
        }
    }
}

#[test]
fn signed_fold_agrees_with_emath_off_the_ends() {
    let mut x = -20.0f32;
    while x < 20.0 {
        let folded = normalized_angle(x);
        if folded.abs() < PI - 1.0e-3 {
            let here = normalized_angle_signed(units(f64::from(x)));
            assert!(apart(here, units(f64::from(folded))) <= 200, "{x}");
            assert!((here - units(f64::from(folded))).abs() <= 200, "{x}");
        }
        x += 0.0371;
    }
}

#[test]
fn unsigned_fold_agrees_with_the_remainder_of_floats() {
    let mut x = -20.0f64;
    while x < 20.0 {
        let folded = x.rem_euclid(f64::from(TAU));
        let here = normalized_angle_unsigned(units(x));
        assert!(apart(here, units(folded)) <= 200, "{x}");
        x += 0.0371;
    }
}

#[test]
fn dial_agrees_with_the_rotation_of_emath() {
    let orientations = [
        (AngleKnobOrientation::Right, PI * 0.0),
        (AngleKnobOrientation::Bottom, PI * 0.5),
        (AngleKnobOrientation::Left, PI * 1.0),
        (AngleKnobOrientation::Top, PI * 1.5),
        (AngleKnobOrientation::Custom(units(0.3)), 0.3),
        (AngleKnobOrientation::Custom(units(-2.5)), -2.5),
    ];
    let directions =
        [(AngleKnobDirection::Clockwise, 1.0f32), (AngleKnobDirection::Counterclockwise, -1.0)];
    for (orientation, angle) in orientations {
        for (direction, sign) in directions {
            let mut theta = -3.1f32;
            while theta < 3.1 {
                let offset = Vec2::angled(theta) * 40.0;
                let value = (Rot2::from_angle(angle).inverse() * offset).angle() * sign;
                let here = pointed(units(f64::from(offset.angle())), orientation, direction);
                assert!(
                    apart(here, units(f64::from(value))) <= 200,
                    "{orientation:?} {direction:?} {theta}"
                );
                theta += 0.0173;
            }
        }
    }
}

#[test]
fn top_clockwise_dial_agrees_with_emath_in_the_four_directions() {
    let rotation = Rot2::from_angle(PI * 1.5);
    for (offset, expected) in [
        (Vec2::RIGHT, HALF_TURN / 2),
        (Vec2::DOWN, HALF_TURN),
        (Vec2::LEFT, -HALF_TURN / 2),
        (Vec2::UP, 0),
    ] {
        let by_emath = (rotation.inverse() * offset).angle();
        let here = pointed(
            units(f64::from(offset.angle())),
            AngleKnobOrientation::Top,
            AngleKnobDirection::Clockwise,
        );
        assert!(apart(here, expected) <= 200);
        assert!(apart(here, units(f64::from(by_emath))) <= 200);
    }
}

#[test]
fn spin_around_agrees_with_the_arithmetic_of_floats() {
    let tau = f64::from(TAU);
    let pi = f64::from(PI);
    let mut previous = -30.0f64;
    while previous < 30.0 {
        let mut raw = -3.1f64;
        while raw < 3.1 {
            let mut new_value = raw + (previous / tau).round() * tau;
            if new_value - previous > pi {
                new_value -= tau;
            } else if new_value - previous < -pi {
                new_value += tau;
            }
            // Off the two ends, where the float and the whole number may
            // choose differently.
            if ((new_value - previous).abs() - pi).abs() > 1.0e-3
                && ((previous / tau).fract().abs() - 0.5).abs() > 1.0e-3
            {
                let here =
                    constrain(units(raw), AngleKnobMode::SpinAround, units(previous), None, None);
                assert!((here - units(new_value)).abs() <= 200, "{raw} after {previous}");
            }
            raw += 0.0917;
        }
        previous += 0.731;
    }
}

#[test]
fn snap_agrees_with_the_rounding_of_floats() {
    for step in [0.1f64, 0.25, f64::from(TAU) / 36.0, 1.0, 2.5] {
        let mut value = -20.0f64;
        while value < 20.0 {
            let snapped = (value / step).round() * step;
            if ((value / step).fract().abs() - 0.5).abs() > 1.0e-3 {
                let here = snap(units(value), units(step));
                assert!(
                    (here - units(snapped)).abs() <= 500,
                    "{value} by {step}: {here} and {}",
                    units(snapped)
                );
            }
            value += 0.0371;
        }
    }
}

#[test]
fn screen_x_agrees_with_the_mapping_of_floats() {
    // A unit is a 256th of a point.
    let width = 512.0f64;
    let center = 300.0f64;
    for spread in [f64::from(PI), 1.0, 0.2] {
        for displayed in [-4.0f64, -0.3, 0.0, 1.7, 9.0] {
            let mut angle = displayed - spread;
            while angle < displayed + spread {
                let x = center - (displayed - angle) * (width / spread);
                let here = screen_x(
                    units(angle),
                    units(displayed),
                    (center * 256.0) as i64,
                    (width * 256.0) as u32,
                    units(spread),
                );
                assert!((here as f64 / 256.0 - x).abs() < 0.01, "{angle} {displayed} {spread}");
                angle += spread / 37.0;
            }
        }
    }
}
