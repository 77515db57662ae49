use vstd::prelude::*;

verus! {

/// The input channel setting that accepts messages on every channel.
pub const MIDI_CHANNEL_FOR_OMNI: i32 = 0;
/// Channels are numbered from one for users, from zero in the status byte.
pub const MIDI_CHANNEL_OFFSET_USER_VS_INDEX: i32 = 1;
const MIDI_STATUS_BYTE_INDEX: usize = 0;
const MIDI_NOTE_NUMBER_BYTE_INDEX: usize = 1;

#[derive(Debug, PartialEq, Eq, Clone, Copy, Structural)]
pub enum MessageType {
    NoteOff,
    NoteOn,
    PolyphonicKeyPressure,
    ControlChange,
    ProgramChange,
    ChannelPressure,
    PitchBend,
    Unknown,
}

/// A note event taken from a MIDI message: the note number that went on or off.
#[derive(Debug, PartialEq, Eq, Clone, Copy, Structural)]
pub enum NoteEvent {
    NoteOn(u8),
    NoteOff(u8),
}

/// The kind of message that a status byte announces, by its upper four bits.
pub open spec fn message_type_of(status: u8) -> MessageType {
    let kind = status / 16;
    if kind == 8 {
        MessageType::NoteOff
    } else if kind == 9 {
        MessageType::NoteOn
    } else if kind == 10 {
        MessageType::PolyphonicKeyPressure
    } else if kind == 11 {
        MessageType::ControlChange
    } else if kind == 12 {
        MessageType::ProgramChange
    } else if kind == 13 {
        MessageType::ChannelPressure
    } else if kind == 14 {
        MessageType::PitchBend
    } else {
        MessageType::Unknown
    }
}

/// The channel, numbered from one, that a status byte addresses by its lower four bits.
pub open spec fn channel_of(status: u8) -> i32 {
    (status % 16 + 1) as i32
}

/// The note event that `message` carries for an input listening on `input_channel`: none
/// when it is empty, addressed to another channel (unless the input is omni), not a note
/// on or note off, or without a note number.
pub open spec fn note_event_of(message: Seq<u8>, input_channel: i32) -> Option<NoteEvent> {
    if message.len() < 2 {
        None
    } else if input_channel != MIDI_CHANNEL_FOR_OMNI && input_channel != channel_of(message[0]) {
        None
    } else if message_type_of(message[0]) == MessageType::NoteOn {
        Some(NoteEvent::NoteOn(message[1]))
    } else if message_type_of(message[0]) == MessageType::NoteOff {
        Some(NoteEvent::NoteOff(message[1]))
    } else {
        None
    }
}

pub fn get_midi_message_type_from_status_byte(status: u8) -> (r: MessageType)
    ensures
        r == message_type_of(status),
{
    let status_type = status & 0xF0;
    assert(status_type == (status / 16) * 16) by (bit_vector)
        requires
            status_type == status & 0xF0,
    ;
    match status_type {
        0x80 => MessageType::NoteOff,
        0x90 => MessageType::NoteOn,
        0xA0 => MessageType::PolyphonicKeyPressure,
        0xB0 => MessageType::ControlChange,
        0xC0 => MessageType::ProgramChange,
        0xD0 => MessageType::ChannelPressure,
        0xE0 => MessageType::PitchBend,
        _ => MessageType::Unknown,
    }
}

pub fn get_midi_channel_type_from_status_byte(status: u8) -> (r: i32)
    ensures
        r == channel_of(status),
{
    let low = status & 0x0F;
    assert(low == status % 16) by (bit_vector)
        requires
            low == status & 0x0F,
    ;
    low as i32 + MIDI_CHANNEL_OFFSET_USER_VS_INDEX
}

/// The note event that a raw MIDI message carries for an input on `input_channel`.
pub fn get_note_event_from_midi_message(message: &[u8], input_channel: i32) -> (r: Option<
    NoteEvent,
>)
    ensures
        r == note_event_of(message@, input_channel),
{
    if message.len() < 2 {
        return None;
    }
    let status = message[MIDI_STATUS_BYTE_INDEX];
    let message_channel = get_midi_channel_type_from_status_byte(status);
    if input_channel != MIDI_CHANNEL_FOR_OMNI && input_channel != message_channel {
        return None;
    }
    let note = message[MIDI_NOTE_NUMBER_BYTE_INDEX];
    match get_midi_message_type_from_status_byte(status) {
        MessageType::NoteOn => Some(NoteEvent::NoteOn(note)),
        MessageType::NoteOff => Some(NoteEvent::NoteOff(note)),
        _ => None,
    }
}

} // verus!
