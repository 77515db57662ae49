use accidental_synth::devices::{update_port_names, DeviceList};
use accidental_synth::arpeggiator::ArpeggiatorType;
use accidental_synth::envelope::{Envelope, MidiState};
use accidental_synth::transport::{AmpMode, Transport};

#[test]
fn midi_notes_play_unless_the_arpeggiator_is_active() {
    let mut transport = Transport::new();
    transport.midi_note_on(64);
    assert_eq!(transport.current_midi_note, 64);
    assert_eq!(transport.current_midi_state, MidiState::NoteOn);
    transport.midi_note_off(65);
    assert_eq!(transport.current_midi_state, MidiState::NoteOn);
    transport.midi_note_off(64);
    assert_eq!(transport.current_midi_state, MidiState::NoteOff);
    transport.arpeggiator_is_active = true;
    transport.midi_note_on(70);
    assert_eq!(transport.current_midi_note, 64);
}

#[test]
fn gate_end_steps_an_active_arpeggiator() {
    let mut envelope = Envelope::new(1000);
    envelope.set_gate_note_length(2);
    let mut transport = Transport::new();
    transport.set_amp_mode_envelope_enabled(false);
    assert_eq!(transport.amp_mode, AmpMode::Gate);
    transport.arpeggiator.add_note(67);
    transport.arpeggiator_is_active = true;
    let levels: Vec<Option<i64>> =
        (0..5).map(|_| transport.next_amplitude(&mut envelope, -6)).collect();
    assert_eq!(levels, vec![Some(-600), None, None, Some(-600), None]);
    assert_eq!(transport.current_midi_note, 67);
    assert_eq!(transport.current_midi_state, MidiState::NoteOn);
}

#[test]
fn arpeggiator_type_follows_random_setting() {
    let mut transport = Transport::new();
    transport.set_arpeggiator_random(true);
    assert_eq!(transport.arpeggiator_type, ArpeggiatorType::Randomize);
    transport.set_arpeggiator_random(false);
    assert_eq!(transport.arpeggiator_type, ArpeggiatorType::NoteOrder);
}

#[test]
fn device_lists_update_only_when_changed() {
    let mut current = DeviceList::new();
    let speakers = |channels: &[&str]| DeviceList {
        devices: vec!["Speakers".to_string()],
        channels: vec![channels.iter().map(|c| c.to_string()).collect()],
    };
    assert!(current.update(speakers(&["1", "2"])));
    assert!(!current.update(speakers(&["1", "2"])));
    let fewer = speakers(&["1"]);
    assert!(current.update(fewer));
    assert_eq!(current.channels, vec![vec!["1".to_string()]]);
}

#[test]
fn port_names_update_only_with_a_default_port() {
    let mut current: Vec<String> = vec![];
    assert!(!update_port_names(&mut current, vec!["Keys".to_string()], false));
    assert!(current.is_empty());
    assert!(update_port_names(&mut current, vec!["Keys".to_string()], true));
    assert_eq!(current, vec!["Keys".to_string()]);
    assert!(!update_port_names(&mut current, vec!["Keys".to_string()], true));
}
