use fan_control::curve::{CurveParameters, DutyCycle, DUTY_SCALE};

fn duty(millionths: u32) -> DutyCycle {
    DutyCycle::new(millionths).unwrap()
}

#[test]
fn below_off_temp_the_fan_is_off() {
    let params = CurveParameters::standard();
    assert_eq!(params.evaluate(35_000).millionths(), 0);
    assert_eq!(params.evaluate(39_999).millionths(), 0);
    assert_eq!(params.evaluate(0).millionths(), 0);
    assert_eq!(params.evaluate(-273_150).millionths(), 0);
    assert_eq!(params.evaluate(i32::MIN).millionths(), 0);
}

#[test]
fn between_off_and_min_temp_the_fan_runs_at_its_floor() {
    let params = CurveParameters::standard();
    assert_eq!(params.evaluate(40_000).millionths(), 100_000);
    assert_eq!(params.evaluate(42_000).millionths(), 100_000);
    assert_eq!(params.evaluate(44_999).millionths(), 100_000);
}

#[test]
fn from_max_temp_on_the_fan_runs_at_full_speed() {
    let params = CurveParameters::standard();
    assert_eq!(params.evaluate(75_000).millionths(), 1_000_000);
    assert_eq!(params.evaluate(80_000).millionths(), 1_000_000);
    assert_eq!(params.evaluate(1_000_000_000).millionths(), 1_000_000);
    assert_eq!(params.evaluate(i32::MAX).millionths(), 1_000_000);
}

#[test]
fn linear_ramp_at_sixty_degrees_is_fifty_five_percent() {
    let params = CurveParameters::standard();
    assert_eq!(params.evaluate(60_000).millionths(), 550_000);
    assert_eq!(params.evaluate(60_000).percent_hundredths(), 5_500);
}

#[test]
fn linear_ramp_starts_at_the_floor_and_ends_below_full_speed() {
    let params = CurveParameters::standard();
    assert_eq!(params.evaluate(45_000).millionths(), 100_000);
    assert_eq!(params.evaluate(45_001).millionths(), 100_030);
    assert_eq!(params.evaluate(74_999).millionths(), 999_970);
}

#[test]
fn linear_ramp_rounds_down() {
    let params = CurveParameters::new(0, 10, 13, duty(100), duty(110)).unwrap();
    assert_eq!(params.evaluate(10).millionths(), 100);
    assert_eq!(params.evaluate(11).millionths(), 103);
    assert_eq!(params.evaluate(12).millionths(), 106);
    assert_eq!(params.evaluate(13).millionths(), 110);
}

#[test]
fn linear_ramp_agrees_with_the_gain_formula() {
    let params = CurveParameters::standard();
    let gain = (1.0 - 0.1) / (75.0 - 45.0);
    let mut temp = 45_000;
    while temp < 75_000 {
        let expected = 0.1 + (temp as f64 / 1000.0 - 45.0) * gain;
        let got = params.evaluate(temp).millionths() as f64 / 1e6;
        assert!((got - expected).abs() < 2e-6, "at {temp}: {got} vs {expected}");
        temp += 77;
    }
}

#[test]
fn duty_is_always_within_a_full_cycle() {
    let params = CurveParameters::standard();
    let mut temp: i64 = -200_000;
    while temp <= 300_000 {
        let t = temp as i32;
        assert!(params.evaluate(t).millionths() <= DUTY_SCALE);
        assert!(params.evaluate_blended(t, DutyCycle::off()).millionths() <= DUTY_SCALE);
        assert!(params.evaluate_blended(t, DutyCycle::full()).millionths() <= DUTY_SCALE);
        temp += 131;
    }
}

#[test]
fn linear_curve_never_falls_as_the_temperature_rises() {
    let params = CurveParameters::standard();
    let mut last = 0;
    let mut temp = 30_000;
    while temp <= 90_000 {
        let now = params.evaluate(temp).millionths();
        assert!(now >= last);
        last = now;
        temp += 13;
    }
}

#[test]
fn blended_curve_is_the_mean_of_shaping_and_ramp() {
    let params = CurveParameters::standard();
    assert_eq!(params.evaluate_blended(60_000, duty(200_000)).millionths(), 375_000);
    assert_eq!(params.evaluate_blended(60_000, duty(200_001)).millionths(), 375_000);
    assert_eq!(params.evaluate_blended(60_000, DutyCycle::off()).millionths(), 275_000);
    assert_eq!(params.evaluate_blended(60_000, DutyCycle::full()).millionths(), 775_000);
    assert_eq!(params.evaluate_blended(45_000, duty(300_000)).millionths(), 200_000);
}

#[test]
fn blended_curve_ignores_shaping_outside_the_ramp() {
    let params = CurveParameters::standard();
    for shaping in [0, 1, 123_456, 1_000_000] {
        let s = duty(shaping);
        assert_eq!(params.evaluate_blended(35_000, s).millionths(), 0);
        assert_eq!(params.evaluate_blended(42_000, s).millionths(), 100_000);
        assert_eq!(params.evaluate_blended(75_000, s).millionths(), 1_000_000);
        assert_eq!(params.evaluate_blended(80_000, s).millionths(), 1_000_000);
    }
}

#[test]
fn blended_curve_agrees_with_the_sinusoid_formula() {
    let params = CurveParameters::standard();
    let gain = (1.0 - 0.1) / (75.0 - 45.0);
    let mut temp = 45_000;
    while temp < 75_000 {
        let t = temp as f64 / 1000.0;
        let wave = 0.5 * (1.0 - (std::f64::consts::PI * t / 50.0).sin());
        let shaping = duty((wave * 1e6).round() as u32);
        let expected = (wave + (0.1 + (t - 45.0) * gain)) / 2.0;
        let got = params.evaluate_blended(temp, shaping).millionths() as f64 / 1e6;
        assert!((got - expected).abs() < 3e-6, "at {temp}: {got} vs {expected}");
        temp += 211;
    }
}

#[test]
fn needs_shaping_only_on_the_ramp() {
    let params = CurveParameters::standard();
    assert!(!params.needs_shaping(44_999));
    assert!(params.needs_shaping(45_000));
    assert!(params.needs_shaping(74_999));
    assert!(!params.needs_shaping(75_000));
    assert!(!params.needs_shaping(i32::MIN));
    assert!(!params.needs_shaping(i32::MAX));
}

#[test]
fn duty_cycle_is_at_most_a_full_cycle() {
    assert_eq!(DutyCycle::new(0), Some(DutyCycle::off()));
    assert_eq!(DutyCycle::new(1_000_000), Some(DutyCycle::full()));
    assert_eq!(DutyCycle::new(1_000_001), None);
    assert_eq!(DutyCycle::new(u32::MAX), None);
    assert_eq!(duty(123_456).millionths(), 123_456);
    assert_eq!(duty(123_456).percent_hundredths(), 1_234);
    assert_eq!(DutyCycle::full().percent_hundredths(), 10_000);
}

#[test]
fn parameters_must_rise_strictly() {
    let low = duty(100_000);
    let high = duty(1_000_000);
    assert!(CurveParameters::new(40_000, 45_000, 75_000, low, high).is_some());
    assert_eq!(
        CurveParameters::new(40_000, 45_000, 75_000, low, high),
        Some(CurveParameters::standard())
    );
    assert!(CurveParameters::new(45_000, 45_000, 75_000, low, high).is_none());
    assert!(CurveParameters::new(46_000, 45_000, 75_000, low, high).is_none());
    assert!(CurveParameters::new(40_000, 75_000, 75_000, low, high).is_none());
    assert!(CurveParameters::new(40_000, 76_000, 75_000, low, high).is_none());
    assert!(CurveParameters::new(40_000, 45_000, 75_000, high, high).is_none());
    assert!(CurveParameters::new(40_000, 45_000, 75_000, high, low).is_none());
    assert!(CurveParameters::new(i32::MIN, 0, i32::MAX, DutyCycle::off(), high).is_some());
}

#[test]
fn parameters_give_back_what_they_were_made_with() {
    let params = CurveParameters::new(-5_000, 10_000, 20_000, duty(7), duty(9)).unwrap();
    assert_eq!(params.off_temp(), -5_000);
    assert_eq!(params.min_temp(), 10_000);
    assert_eq!(params.max_temp(), 20_000);
    assert_eq!(params.fan_low().millionths(), 7);
    assert_eq!(params.fan_max().millionths(), 9);
    let standard = CurveParameters::standard();
    assert_eq!(standard.off_temp(), 40_000);
    assert_eq!(standard.min_temp(), 45_000);
    assert_eq!(standard.max_temp(), 75_000);
    assert_eq!(standard.fan_low().millionths(), 100_000);
    assert_eq!(standard.fan_max().millionths(), 1_000_000);
}

#[test]
fn widest_parameters_do_not_overflow() {
    let params =
        CurveParameters::new(i32::MIN, i32::MIN + 1, i32::MAX, DutyCycle::off(), DutyCycle::full())
            .unwrap();
    assert_eq!(params.evaluate(i32::MIN).millionths(), 0);
    assert_eq!(params.evaluate(i32::MIN + 1).millionths(), 0);
    assert_eq!(params.evaluate(0).millionths(), 500_000);
    assert_eq!(params.evaluate(i32::MAX - 1).millionths(), 999_999);
    assert_eq!(params.evaluate(i32::MAX).millionths(), 1_000_000);
}
