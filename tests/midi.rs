use accidental_synth::midi::{
    get_midi_channel_type_from_status_byte, get_midi_message_type_from_status_byte,
    get_note_event_from_midi_message, MessageType, NoteEvent,
};

#[test]
fn status_bytes_name_message_types() {
    assert_eq!(get_midi_message_type_from_status_byte(0x80), MessageType::NoteOff);
    assert_eq!(get_midi_message_type_from_status_byte(0x9F), MessageType::NoteOn);
    assert_eq!(get_midi_message_type_from_status_byte(0xA3), MessageType::PolyphonicKeyPressure);
    assert_eq!(get_midi_message_type_from_status_byte(0xB0), MessageType::ControlChange);
    assert_eq!(get_midi_message_type_from_status_byte(0xC1), MessageType::ProgramChange);
    assert_eq!(get_midi_message_type_from_status_byte(0xD2), MessageType::ChannelPressure);
    assert_eq!(get_midi_message_type_from_status_byte(0xE0), MessageType::PitchBend);
    assert_eq!(get_midi_message_type_from_status_byte(0xF8), MessageType::Unknown);
    assert_eq!(get_midi_message_type_from_status_byte(0x45), MessageType::Unknown);
}

#[test]
fn status_bytes_name_channels_from_one() {
    assert_eq!(get_midi_channel_type_from_status_byte(0x90), 1);
    assert_eq!(get_midi_channel_type_from_status_byte(0x93), 4);
    assert_eq!(get_midi_channel_type_from_status_byte(0x8F), 16);
}

#[test]
fn note_messages_pass_the_channel_filter() {
    assert_eq!(get_note_event_from_midi_message(&[0x90, 60, 100], 0), Some(NoteEvent::NoteOn(60)));
    assert_eq!(get_note_event_from_midi_message(&[0x82, 61, 0], 3), Some(NoteEvent::NoteOff(61)));
    assert_eq!(get_note_event_from_midi_message(&[0x82, 61, 0], 2), None);
    assert_eq!(get_note_event_from_midi_message(&[0xB0, 7, 100], 0), None);
    assert_eq!(get_note_event_from_midi_message(&[0x90], 0), None);
    assert_eq!(get_note_event_from_midi_message(&[], 0), None);
}
