use lander::fixed::ONE;
use lander::trig::{cos, sin, HALF_PI, PI, TAU};

#[test]
fn sine_and_cosine_at_the_axes() {
    assert_eq!(sin(0), 0);
    assert_eq!(cos(0), ONE);
    assert_eq!(sin(HALF_PI), ONE);
    assert_eq!(cos(HALF_PI), 0);
    assert_eq!(sin(PI), 0);
    assert_eq!(cos(PI), -ONE);
    assert_eq!(sin(-HALF_PI), -ONE);
    assert_eq!(cos(-HALF_PI), 0);
    assert_eq!(sin(TAU), 0);
    assert_eq!(cos(TAU), ONE);
}

#[test]
fn sine_of_an_eighth_turn() {
    assert_eq!(sin(785_398), 707_107);
    assert_eq!(cos(785_398), 707_107);
}

#[test]
fn sine_and_cosine_follow_the_real_functions() {
    let mut angle: i64 = -20_000_000;
    while angle <= 20_000_000 {
        let turns = angle.div_euclid(TAU);
        let reduced = (angle - turns * TAU) as f64 / 1_000_000.0;
        let quarter = 1.570796_f64;
        let exact = reduced / quarter * std::f64::consts::FRAC_PI_2;
        let s = sin(angle) as f64 / 1_000_000.0;
        let c = cos(angle) as f64 / 1_000_000.0;
        assert!((s - exact.sin()).abs() < 0.000_003, "sin({}) = {}", angle, s);
        assert!((c - exact.cos()).abs() < 0.000_003, "cos({}) = {}", angle, c);
        angle += 7_919;
    }
}

#[test]
fn sine_and_cosine_stay_within_one() {
    for angle in [i64::MIN, i64::MIN + 1, -1, 0, 1, 1_570_795, 1_570_797, i64::MAX - 1, i64::MAX] {
        assert!(-ONE <= sin(angle) && sin(angle) <= ONE);
        assert!(-ONE <= cos(angle) && cos(angle) <= ONE);
    }
}

#[test]
fn a_full_turn_changes_nothing() {
    for angle in [-5_000_000_i64, -1, 0, 1, 123_456, 3_000_000, 6_283_183] {
        assert_eq!(sin(angle + TAU), sin(angle));
        assert_eq!(cos(angle + TAU), cos(angle));
        assert_eq!(cos(angle), sin(angle + HALF_PI));
    }
}

#[test]
fn within_one_turn_the_error_is_below_three_millionths() {
    let mut angle: i64 = -TAU;
    while angle <= TAU {
        let exact = angle as f64 / 1_000_000.0;
        let s = sin(angle) as f64 / 1_000_000.0;
        let c = cos(angle) as f64 / 1_000_000.0;
        assert!((s - exact.sin()).abs() < 0.000_003, "sin({}) = {}", angle, s);
        assert!((c - exact.cos()).abs() < 0.000_003, "cos({}) = {}", angle, c);
        angle += 97;
    }
}

#[test]
fn after_many_turns_the_error_is_still_small() {
    let mut angle: i64 = -100_000_000;
    while angle <= 100_000_000 {
        let exact = angle as f64 / 1_000_000.0;
        let s = sin(angle) as f64 / 1_000_000.0;
        assert!((s - exact.sin()).abs() < 0.000_03, "sin({}) = {}", angle, s);
        angle += 9_973;
    }
}
