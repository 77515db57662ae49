use accidental_synth::channels::get_channel_frame_indexes_from_channel_names;
use accidental_synth::filter::{get_number_of_poles_from_integer, Poles};
use accidental_synth::oscillators::{get_wave_shape_from_shape_name, WaveShape};
use accidental_synth::saturation::{get_saturation_mode_from_mode_name, SaturationMode};

#[test]
fn wave_shape_names_select_shapes() {
    assert_eq!(get_wave_shape_from_shape_name("Noise"), WaveShape::Noise);
    assert_eq!(get_wave_shape_from_shape_name("Pulse"), WaveShape::Pulse);
    assert_eq!(get_wave_shape_from_shape_name("Ramp"), WaveShape::Ramp);
    assert_eq!(get_wave_shape_from_shape_name("Saw"), WaveShape::Saw);
    assert_eq!(get_wave_shape_from_shape_name("Sine"), WaveShape::Sine);
    assert_eq!(get_wave_shape_from_shape_name("Square"), WaveShape::Square);
    assert_eq!(get_wave_shape_from_shape_name("SuperSaw"), WaveShape::SuperSaw);
    assert_eq!(get_wave_shape_from_shape_name("Triangle"), WaveShape::Triangle);
    assert_eq!(get_wave_shape_from_shape_name("FM"), WaveShape::FM);
    assert_eq!(get_wave_shape_from_shape_name("AM"), WaveShape::AM);
}

#[test]
fn unknown_wave_shape_names_fall_back_to_sine() {
    assert_eq!(get_wave_shape_from_shape_name("saw"), WaveShape::Sine);
    assert_eq!(get_wave_shape_from_shape_name(""), WaveShape::Sine);
    assert_eq!(get_wave_shape_from_shape_name("Sawtooth"), WaveShape::Sine);
}

#[test]
fn saturation_mode_names_select_modes() {
    assert_eq!(get_saturation_mode_from_mode_name("Analog Modeled"), SaturationMode::AnalogModeled);
    assert_eq!(get_saturation_mode_from_mode_name("Tube Like"), SaturationMode::TubeLike);
    assert_eq!(get_saturation_mode_from_mode_name("Soft Clipping"), SaturationMode::SoftClipping);
    assert_eq!(get_saturation_mode_from_mode_name("Wave Shaping"), SaturationMode::WaveShaping);
    assert_eq!(get_saturation_mode_from_mode_name("Sine Shaper"), SaturationMode::SineShaper);
    assert_eq!(get_saturation_mode_from_mode_name("Polynomial"), SaturationMode::Polynomial);
    assert_eq!(get_saturation_mode_from_mode_name("Tube"), SaturationMode::AnalogModeled);
}

#[test]
fn pole_counts_select_filter_stages() {
    assert_eq!(get_number_of_poles_from_integer(1), Poles::One);
    assert_eq!(get_number_of_poles_from_integer(2), Poles::Two);
    assert_eq!(get_number_of_poles_from_integer(3), Poles::Three);
    assert_eq!(get_number_of_poles_from_integer(0), Poles::Two);
    assert_eq!(get_number_of_poles_from_integer(-4), Poles::Two);
}

#[test]
fn channel_names_become_frame_indexes() {
    assert_eq!(get_channel_frame_indexes_from_channel_names("1", "2"), (0, Some(1)));
    assert_eq!(get_channel_frame_indexes_from_channel_names("3", "+4"), (2, Some(3)));
    assert_eq!(get_channel_frame_indexes_from_channel_names("12", ""), (11, None));
}

#[test]
fn channel_names_that_name_no_channel_fall_back() {
    assert_eq!(get_channel_frame_indexes_from_channel_names("left", "right"), (0, None));
    assert_eq!(get_channel_frame_indexes_from_channel_names("0", "0"), (0, None));
    assert_eq!(get_channel_frame_indexes_from_channel_names("-2", "2x"), (0, None));
    assert_eq!(
        get_channel_frame_indexes_from_channel_names("99999999999999999999999", "2"),
        (0, Some(1))
    );
}
