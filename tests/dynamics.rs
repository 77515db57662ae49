use accidental_synth::dynamics::{Dynamics, SampleGain};

#[test]
fn compress_at_threshold_applies_makeup_gain_only() {
    let dynamics = Dynamics::new();
    assert_eq!(dynamics.compress(-1000, -1000, 500, Some(-1000)), SampleGain::Scale(0));
    assert_eq!(dynamics.compress(0, -1000, 500, Some(-1000)), SampleGain::Scale(500));
}

#[test]
fn compress_scales_the_excess_above_threshold() {
    let dynamics = Dynamics::new();
    assert_eq!(dynamics.compress(0, -1000, 500, Some(-200)), SampleGain::SetLevel(-100));
    assert_eq!(dynamics.compress(-1000, -2000, 250, None), SampleGain::Scale(500));
}

#[test]
fn limit_uses_a_steep_ratio() {
    let dynamics = Dynamics::new();
    assert_eq!(dynamics.limit(-1000, -2000, Some(0)), SampleGain::SetLevel(-1000));
}

#[test]
fn clip_holds_the_level_at_threshold() {
    let dynamics = Dynamics::new();
    assert_eq!(dynamics.clip(-1000, -1500, Some(-500)), SampleGain::SetLevel(-1000));
    assert_eq!(dynamics.clip(-1000, -1500, Some(-2000)), SampleGain::Scale(500));
}

#[test]
fn wave_fold_folds_the_excess_back_down() {
    let dynamics = Dynamics::new();
    assert_eq!(dynamics.wave_fold(0, -1000, 500, Some(-400)), SampleGain::SetLevel(-300));
    assert_eq!(dynamics.wave_fold(0, -1000, 500, Some(-1200)), SampleGain::Scale(1000));
    assert_eq!(dynamics.wave_fold(-1000, -1000, 500, Some(-400)), SampleGain::Scale(0));
}

#[test]
fn makeup_gain_lifts_to_output_level() {
    let dynamics = Dynamics::new();
    assert_eq!(dynamics.get_makeup_gain(-2000, -1000), 1000);
    assert_eq!(dynamics.get_makeup_gain(-1000, -2000), 0);
    assert_eq!(dynamics.get_makeup_gain(-1000, -1000), 0);
}
