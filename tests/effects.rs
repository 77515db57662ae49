use accidental_synth::effects::{get_bitcrush_levels, get_phaser_delay_age, DelayLine};

#[test]
fn delay_line_keeps_the_newest_samples() {
    let mut line = DelayLine::new(3, (0, 0));
    assert_eq!(line.capacity(), 3);
    assert_eq!(line.sample_at(2), (0, 0));
    line.push((1, -1));
    line.push((2, -2));
    assert_eq!(line.sample_at(0), (2, -2));
    assert_eq!(line.sample_at(1), (1, -1));
    assert_eq!(line.sample_at(2), (0, 0));
    line.push((3, -3));
    line.push((4, -4));
    assert_eq!(line.sample_at(0), (4, -4));
    assert_eq!(line.sample_at(1), (3, -3));
    assert_eq!(line.sample_at(2), (2, -2));
}

#[test]
fn phaser_reads_back_by_the_width_less_the_shift() {
    assert_eq!(get_phaser_delay_age(40), 86);
    assert_eq!(get_phaser_delay_age(0), 126);
    assert_eq!(get_phaser_delay_age(-5), 126);
    assert_eq!(get_phaser_delay_age(200), 0);
}

#[test]
fn bit_depth_one_quantizes_to_one_step() {
    assert_eq!(get_bitcrush_levels(1), 1);
    assert_eq!(get_bitcrush_levels(0), 0);
    assert_eq!(get_bitcrush_levels(8), 128);
    assert_eq!(get_bitcrush_levels(31), 1 << 30);
}
