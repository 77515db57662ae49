use accidental_synth::arpeggiator::{
    get_frequency_from_midi_note_and_osc_interval, Arpeggiator, ArpeggiatorType, FIRST_REST_NOTE,
};

#[test]
fn new_with_no_notes_holds_a_rest() {
    let arpeggiator = Arpeggiator::new(vec![]);
    assert_eq!(arpeggiator.sequence(), &vec![FIRST_REST_NOTE]);
}

#[test]
fn removing_the_sole_note_leaves_a_rest() {
    let mut arpeggiator = Arpeggiator::new(vec![60]);
    arpeggiator.remove_note(60);
    assert_eq!(arpeggiator.sequence(), &vec![FIRST_REST_NOTE]);
    arpeggiator.remove_note(60);
    assert_eq!(arpeggiator.sequence(), &vec![FIRST_REST_NOTE]);
}

#[test]
fn adding_after_a_rest_replaces_it() {
    let mut arpeggiator = Arpeggiator::new(vec![60]);
    arpeggiator.remove_note(60);
    arpeggiator.add_note(64);
    assert_eq!(arpeggiator.sequence(), &vec![64]);
}

#[test]
fn adding_keeps_notes_unique_and_in_order() {
    let mut arpeggiator = Arpeggiator::new(vec![60]);
    arpeggiator.add_note(64);
    arpeggiator.add_note(67);
    arpeggiator.add_note(64);
    assert_eq!(arpeggiator.sequence(), &vec![60, 64, 67]);
    arpeggiator.remove_note(64);
    assert_eq!(arpeggiator.sequence(), &vec![60, 67]);
    arpeggiator.remove_note(50);
    assert_eq!(arpeggiator.sequence(), &vec![60, 67]);
}

#[test]
fn note_order_cycles_through_all_notes_before_repeating() {
    let mut arpeggiator = Arpeggiator::new(vec![60, 64, 67, 72]);
    let notes: Vec<u16> = (0..8)
        .map(|_| arpeggiator.next_midi_note(ArpeggiatorType::NoteOrder))
        .collect();
    assert_eq!(notes, vec![64, 67, 72, 60, 64, 67, 72, 60]);
}

#[test]
fn random_order_picks_notes_of_the_sequence() {
    let mut arpeggiator = Arpeggiator::new(vec![60, 64, 67]);
    for _ in 0..50 {
        let note = arpeggiator.next_midi_note(ArpeggiatorType::Randomize);
        assert!([60, 64, 67].contains(&note));
    }
    assert_eq!(arpeggiator.select_next_midi_note(ArpeggiatorType::Randomize, 2), 67);
}

#[test]
fn frequencies_come_from_the_midi_table() {
    let arpeggiator = Arpeggiator::new(vec![60]);
    assert_eq!(arpeggiator.get_frequency_from_midi_note(69), 440_000);
    assert_eq!(arpeggiator.get_frequency_from_midi_note(0), 8_175);
    assert_eq!(arpeggiator.get_frequency_from_midi_note(127), 12_543_854);
    assert_eq!(arpeggiator.get_frequency_from_midi_note(85), 1_108_730);
    assert_eq!(arpeggiator.get_frequency_from_midi_note(FIRST_REST_NOTE), 0);
    assert_eq!(arpeggiator.get_frequency_from_midi_note(500), 0);
}

#[test]
fn intervals_transpose_and_rests_stay_silent() {
    let arpeggiator = Arpeggiator::new(vec![60]);
    assert_eq!(get_frequency_from_midi_note_and_osc_interval(&arpeggiator, 57, 12), 440_000);
    assert_eq!(get_frequency_from_midi_note_and_osc_interval(&arpeggiator, 81, -12), 440_000);
    assert_eq!(get_frequency_from_midi_note_and_osc_interval(&arpeggiator, 69, 0), 440_000);
    assert_eq!(get_frequency_from_midi_note_and_osc_interval(&arpeggiator, 0, -1), 0);
    assert_eq!(get_frequency_from_midi_note_and_osc_interval(&arpeggiator, 127, 1), 0);
    assert_eq!(get_frequency_from_midi_note_and_osc_interval(&arpeggiator, FIRST_REST_NOTE, -12), 0);
}
