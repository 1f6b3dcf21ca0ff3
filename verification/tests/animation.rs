use egui_knobs::animation::{Animation, HALF_LIFE, SETTLE_TIME};

#[test]
fn new_animation_rests_on_its_value() {
    let a = Animation::new(42);
    assert_eq!(a, Animation { origin: 42, target: 42, started: 0 });
    assert_eq!(a.current(0), 42);
    assert_eq!(a.current(1_000_000), 42);
}

#[test]
fn animation_approaches_by_halves() {
    assert_eq!(SETTLE_TIME, 100);
    assert_eq!(HALF_LIFE, 10);
    let a = Animation { origin: 0, target: 10_000_000, started: 1_000 };
    assert_eq!(a.current(1_000), 0);
    assert_eq!(a.current(1_001), 0);
    assert_eq!(a.current(1_009), 0);
    assert_eq!(a.current(1_010), 5_000_000);
    assert_eq!(a.current(1_019), 5_000_000);
    assert_eq!(a.current(1_020), 7_500_000);
    assert_eq!(a.current(1_050), 9_687_500);
    assert_eq!(a.current(1_099), 9_980_469);
    assert_eq!(a.current(1_100), 10_000_000);
    assert_eq!(a.current(9_999), 10_000_000);
    let back = Animation { origin: 10_000_000, target: 0, started: 0 };
    assert_eq!(back.current(25), 2_500_000);
    assert_eq!(back.current(99), 19_531);
    assert_eq!(back.current(100), 0);
}

#[test]
fn animation_rounds_what_is_left_to_the_nearest_value() {
    assert_eq!(Animation { origin: 0, target: 7, started: 0 }.current(10), 3);
    assert_eq!(Animation { origin: 0, target: -7, started: 0 }.current(10), -3);
    assert_eq!(Animation { origin: 5, target: 6, started: 0 }.current(1), 5);
    assert_eq!(Animation { origin: 5, target: 6, started: 0 }.current(10), 5);
    assert_eq!(Animation { origin: 5, target: 6, started: 0 }.current(20), 6);
}

#[test]
fn what_is_left_is_halved_with_every_half_life() {
    for (origin, target) in [(0, 1_000_003), (77, -1_000_000), (i64::MIN, i64::MAX), (3, 4)] {
        let a = Animation { origin, target, started: 0 };
        for now in 0..=110 {
            let before = (target as i128 - a.current(now) as i128).abs();
            let after = (target as i128 - a.current(now + HALF_LIFE) as i128).abs();
            assert!(2 * after <= before + 1, "{origin} to {target} at {now}");
        }
    }
}

#[test]
fn animation_ignores_a_clock_that_reads_less_than_its_start() {
    let a = Animation { origin: 3, target: 9, started: 500 };
    assert_eq!(a.current(499), 3);
    assert_eq!(a.current(0), 3);
}

#[test]
fn animation_stays_between_origin_and_target() {
    for (origin, target) in [(i64::MIN, i64::MAX), (i64::MAX, i64::MIN), (-5, 5), (5, -5), (0, 1)] {
        let a = Animation { origin, target, started: 10 };
        let (lo, hi) = if origin <= target { (origin, target) } else { (target, origin) };
        let mut last = origin;
        for now in 0..=120 {
            let v = a.current(now);
            assert!(lo <= v && v <= hi);
            if origin <= target {
                assert!(v >= last);
            } else {
                assert!(v <= last);
            }
            last = v;
        }
        assert_eq!(last, target);
    }
}

#[test]
fn dragging_shows_the_committed_value() {
    let mut a = Animation { origin: 0, target: 100, started: 0 };
    assert_eq!(a.display_value(10, 55, true, true), 55);
    assert_eq!(a, Animation { origin: 55, target: 55, started: 10 });
}

#[test]
fn disabled_animation_shows_the_committed_value() {
    let mut a = Animation { origin: 0, target: 100, started: 0 };
    assert_eq!(a.display_value(10, 55, false, false), 55);
    assert_eq!(a, Animation { origin: 55, target: 55, started: 10 });
    assert_eq!(a.display_value(20, 70, false, true), 70);
    assert_eq!(a, Animation { origin: 70, target: 70, started: 20 });
}

#[test]
fn a_new_committed_value_restarts_the_animation() {
    let mut a = Animation::new(0);
    // The drag ends on 1000 and the value snaps to 2000.
    assert_eq!(a.display_value(500, 1_000, true, true), 1_000);
    assert_eq!(a.display_value(516, 2_000, true, false), 1_000);
    assert_eq!(a, Animation { origin: 1_000, target: 2_000, started: 516 });
    assert_eq!(a.display_value(526, 2_000, true, false), 1_500);
    assert_eq!(a, Animation { origin: 1_000, target: 2_000, started: 516 });
    // A new value on the way: the animation sets out from where it is.
    assert_eq!(a.display_value(536, 0, true, false), 1_750);
    assert_eq!(a, Animation { origin: 1_750, target: 0, started: 536 });
    assert_eq!(a.display_value(546, 0, true, false), 875);
    assert_eq!(a.display_value(636, 0, true, false), 0);
    assert_eq!(a.display_value(5_000, 0, true, false), 0);
    assert_eq!(a, Animation { origin: 1_750, target: 0, started: 536 });
}
