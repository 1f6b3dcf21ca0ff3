use egui_knobs::angle::{
    constrain, normalized_angle_signed, normalized_angle_unsigned, snap, AngleKnobMode, ANGLE_MAX,
    DEGREE, HALF_TURN, QUARTER_TURN, TURN,
};

const SAMPLES: [i64; 17] = [
    i64::MIN,
    -ANGLE_MAX,
    -3 * TURN - 1,
    -TURN,
    -HALF_TURN - 1,
    -HALF_TURN,
    -HALF_TURN + 1,
    -1,
    0,
    1,
    HALF_TURN - 1,
    HALF_TURN,
    HALF_TURN + 1,
    TURN - 1,
    TURN,
    ANGLE_MAX,
    i64::MAX,
];

#[test]
fn units_fit_together() {
    assert_eq!(TURN, 360 * DEGREE);
    assert_eq!(HALF_TURN * 2, TURN);
    assert_eq!(QUARTER_TURN * 4, TURN);
}

#[test]
fn signed_constrain_lands_in_range_and_is_idempotent() {
    for x in SAMPLES {
        let y = constrain(x, AngleKnobMode::Signed, 0, None, None);
        assert!(-HALF_TURN < y && y <= HALF_TURN, "{x} gave {y}");
        assert_eq!((x as i128 - y as i128).rem_euclid(TURN as i128), 0);
        assert_eq!(constrain(y, AngleKnobMode::Signed, 77, None, None), y);
    }
}

#[test]
fn unsigned_constrain_lands_in_range_and_is_idempotent() {
    for x in SAMPLES {
        let y = constrain(x, AngleKnobMode::Unsigned, 0, None, None);
        assert!(0 <= y && y < TURN, "{x} gave {y}");
        assert_eq!((x as i128 - y as i128).rem_euclid(TURN as i128), 0);
        assert_eq!(constrain(y, AngleKnobMode::Unsigned, 77, None, None), y);
    }
}

#[test]
fn signed_fold_keeps_the_upper_end() {
    assert_eq!(normalized_angle_signed(HALF_TURN), HALF_TURN);
    assert_eq!(normalized_angle_signed(-HALF_TURN), HALF_TURN);
    assert_eq!(normalized_angle_signed(-HALF_TURN + 1), -HALF_TURN + 1);
    assert_eq!(normalized_angle_signed(HALF_TURN + 1), -HALF_TURN + 1);
    assert_eq!(normalized_angle_signed(3 * TURN + 5), 5);
    assert_eq!(normalized_angle_signed(-3 * TURN - 5), -5);
}

#[test]
fn unsigned_fold_keeps_the_lower_end() {
    assert_eq!(normalized_angle_unsigned(0), 0);
    assert_eq!(normalized_angle_unsigned(TURN), 0);
    assert_eq!(normalized_angle_unsigned(-1), TURN - 1);
    assert_eq!(normalized_angle_unsigned(370 * DEGREE), 10 * DEGREE);
    assert_eq!(normalized_angle_unsigned(-370 * DEGREE), 350 * DEGREE);
}

#[test]
fn unbounded_constrain_passes_the_candidate_through() {
    for x in SAMPLES {
        assert_eq!(constrain(x, AngleKnobMode::Unbounded, 0, None, None), x);
    }
}

#[test]
fn constrain_clamps_after_folding() {
    let lo = Some(-90 * DEGREE);
    let hi = Some(90 * DEGREE);
    assert_eq!(constrain(181 * DEGREE, AngleKnobMode::Signed, 0, lo, hi), -90 * DEGREE);
    assert_eq!(constrain(179 * DEGREE, AngleKnobMode::Signed, 0, lo, hi), 90 * DEGREE);
    assert_eq!(constrain(45 * DEGREE, AngleKnobMode::Signed, 0, lo, hi), 45 * DEGREE);
    assert_eq!(constrain(350 * DEGREE, AngleKnobMode::Unsigned, 0, lo, hi), 90 * DEGREE);
    assert_eq!(constrain(-500 * DEGREE, AngleKnobMode::Unbounded, 0, lo, None), -90 * DEGREE);
    assert_eq!(constrain(500 * DEGREE, AngleKnobMode::Unbounded, 0, None, hi), 90 * DEGREE);
}

#[test]
fn constrain_with_inverted_bounds_gives_the_upper_one() {
    let lo = Some(50 * DEGREE);
    let hi = Some(10 * DEGREE);
    assert_eq!(constrain(0, AngleKnobMode::Unbounded, 0, lo, hi), 10 * DEGREE);
    assert_eq!(constrain(30 * DEGREE, AngleKnobMode::Unbounded, 0, lo, hi), 10 * DEGREE);
    assert_eq!(constrain(70 * DEGREE, AngleKnobMode::Unbounded, 0, lo, hi), 10 * DEGREE);
}

#[test]
fn spin_around_avoids_the_large_jump() {
    // A tenth of a radian before, and a little more than a turn as candidate.
    let previous: i64 = 5_729_578;
    let candidate: i64 = 360_963_411;
    let result = constrain(candidate, AngleKnobMode::SpinAround, previous, None, None);
    assert_eq!(result, 963_411);
    assert!((result - previous).abs() <= HALF_TURN);
    assert_eq!(result.rem_euclid(TURN), candidate.rem_euclid(TURN));
}

#[test]
fn spin_around_continues_over_turns() {
    let spin = |candidate: i64, previous: i64| {
        constrain(candidate, AngleKnobMode::SpinAround, previous, None, None)
    };
    assert_eq!(spin(10 * DEGREE, 725 * DEGREE), 730 * DEGREE);
    assert_eq!(spin(-170 * DEGREE, 170 * DEGREE), 190 * DEGREE);
    assert_eq!(spin(170 * DEGREE, 3 * TURN - 170 * DEGREE), 890 * DEGREE);
    assert_eq!(spin(0, 0), 0);
    assert_eq!(spin(HALF_TURN, 0), HALF_TURN);
    assert_eq!(spin(-HALF_TURN, 0), -HALF_TURN);
}

#[test]
fn spin_around_stays_within_half_a_turn_of_the_previous_value() {
    let previous = [0, 1, -1, HALF_TURN, -HALF_TURN, 7 * TURN + 3, -9 * TURN - 4, ANGLE_MAX, -ANGLE_MAX];
    let candidates = [-TURN, -HALF_TURN, -HALF_TURN + 1, -1, 0, 1, QUARTER_TURN, HALF_TURN, TURN];
    for p in previous {
        for c in candidates {
            let r = constrain(c, AngleKnobMode::SpinAround, p, None, None);
            assert!((r as i128 - p as i128).abs() <= HALF_TURN as i128, "{c} after {p} gave {r}");
            assert_eq!((r as i128 - c as i128).rem_euclid(TURN as i128), 0);
        }
    }
}

#[test]
fn snap_rounds_to_the_nearest_multiple() {
    let step = 10 * DEGREE;
    assert_eq!(snap(14 * DEGREE, step), 10 * DEGREE);
    assert_eq!(snap(16 * DEGREE, step), 20 * DEGREE);
    assert_eq!(snap(-14 * DEGREE, step), -10 * DEGREE);
    assert_eq!(snap(-16 * DEGREE, step), -20 * DEGREE);
    assert_eq!(snap(0, step), 0);
    assert_eq!(snap(4 * DEGREE, step), 0);
    assert_eq!(snap(-4 * DEGREE, step), 0);
    assert_eq!(snap(30 * DEGREE, step), 30 * DEGREE);
    assert_eq!(snap(7, 1), 7);
    assert_eq!(snap(14_999_999, step), 10 * DEGREE);
}

#[test]
fn snap_settles_a_tie_away_from_zero() {
    let step = 10 * DEGREE;
    assert_eq!(snap(15 * DEGREE, step), 20 * DEGREE);
    assert_eq!(snap(-15 * DEGREE, step), -20 * DEGREE);
    assert_eq!(snap(5 * DEGREE, step), 10 * DEGREE);
    assert_eq!(snap(-5 * DEGREE, step), -10 * DEGREE);
    assert_eq!(snap(1, 2), 2);
    assert_eq!(snap(-1, 2), -2);
}

#[test]
fn snap_is_nearest_among_all_multiples() {
    let values = [-ANGLE_MAX, -123_456_789, -1, 0, 1, 5, 123_456_789, ANGLE_MAX];
    let steps = [1, 2, 3, 7, DEGREE, 10 * DEGREE, TURN, ANGLE_MAX];
    for v in values {
        for s in steps {
            let r = snap(v, s);
            assert_eq!(r % s, 0, "{v} by {s} gave {r}");
            assert!(2 * (r as i128 - v as i128).abs() <= s as i128, "{v} by {s} gave {r}");
            if -ANGLE_MAX <= r && r <= ANGLE_MAX {
                assert_eq!(snap(r, s), r);
            }
        }
    }
}
