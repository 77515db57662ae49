use vstd::prelude::*;

use crate::arpeggiator::{Arpeggiator, ArpeggiatorType, next_index};
use crate::envelope::{
    adsr_output,
    midi_state_after,
    ADSRState,
    Envelope,
    GateState,
    MidiState,
    MILLIBELS_PER_DB,
};

verus! {

/// The note that plays before any other is chosen: middle C.
pub const DEFAULT_SEQUENCER_NOTE: u16 = 60;

/// Which state machine shapes the amplitude.
#[derive(Debug, Clone, Copy, PartialEq, Eq, Structural)]
pub enum AmpMode {
    Gate,
    Envelope,
}

/// The note that is playing and what chooses the next one: MIDI input, or the arpeggiator.
pub struct Transport {
    pub current_midi_note: u16,
    pub current_midi_state: MidiState,
    pub arpeggiator: Arpeggiator,
    pub arpeggiator_type: ArpeggiatorType,
    pub arpeggiator_is_active: bool,
    pub amp_mode: AmpMode,
}

impl Transport {
    pub open spec fn wf(self) -> bool {
        self.arpeggiator.wf()
    }

    /// The transport once the arpeggiator has stepped to the next note and started it:
    /// the note comes from the sequence, in order or at random.
    pub open spec fn stepped_from(self, old: Transport) -> bool {
        &&& self.arpeggiator@.0 == old.arpeggiator@.0
        &&& self.arpeggiator@.1 == next_index(
            old.arpeggiator@.1,
            old.arpeggiator@.0.len() as int,
        )
        &&& old.arpeggiator_type == ArpeggiatorType::NoteOrder ==> self.current_midi_note
            == self.arpeggiator@.0[self.arpeggiator@.1]
        &&& old.arpeggiator@.0.contains(self.current_midi_note)
        &&& self.current_midi_state == MidiState::NoteOn
    }

    /// Everything but the note that plays, its state and the arpeggiator's position is kept.
    pub open spec fn settings_kept(self, old: Transport) -> bool {
        &&& self.arpeggiator_type == old.arpeggiator_type
        &&& self.arpeggiator_is_active == old.arpeggiator_is_active
        &&& self.amp_mode == old.amp_mode
    }

    pub fn new() -> (r: Transport)
        ensures
            r.wf(),
            r.current_midi_note == DEFAULT_SEQUENCER_NOTE,
            r.current_midi_state == MidiState::Rest,
            r.arpeggiator@.0 == seq![DEFAULT_SEQUENCER_NOTE],
            r.arpeggiator_type == ArpeggiatorType::NoteOrder,
            !r.arpeggiator_is_active,
            r.amp_mode == AmpMode::Envelope,
    {
        let mut sequence: Vec<u16> = Vec::new();
        sequence.push(DEFAULT_SEQUENCER_NOTE);
        assert(sequence@ =~= seq![DEFAULT_SEQUENCER_NOTE]);
        Transport {
            current_midi_note: DEFAULT_SEQUENCER_NOTE,
            current_midi_state: MidiState::Rest,
            arpeggiator: Arpeggiator::new(sequence),
            arpeggiator_type: ArpeggiatorType::NoteOrder,
            arpeggiator_is_active: false,
            amp_mode: AmpMode::Envelope,
        }
    }

    /// A MIDI note-on plays the note, unless the arpeggiator chooses the notes.
    pub fn midi_note_on(&mut self, note_number: u8)
        ensures
            old(self).arpeggiator_is_active ==> *final(self) == *old(self),
            !old(self).arpeggiator_is_active ==> *final(self) == (Transport {
                current_midi_note: note_number as u16,
                current_midi_state: MidiState::NoteOn,
                ..*old(self)
            }),
    {
        if !self.arpeggiator_is_active {
            self.current_midi_note = note_number as u16;
            self.current_midi_state = MidiState::NoteOn;
        }
    }

    /// A MIDI note-off releases the note that plays, unless the arpeggiator chooses the
    /// notes; a note-off for another note changes nothing.
    pub fn midi_note_off(&mut self, note_number: u8)
        ensures
            (old(self).arpeggiator_is_active || old(self).current_midi_note != note_number as u16)
                ==> *final(self) == *old(self),
            (!old(self).arpeggiator_is_active && old(self).current_midi_note == note_number as u16)
                ==> *final(self) == (Transport {
                current_midi_state: MidiState::NoteOff,
                ..*old(self)
            }),
    {
        if !self.arpeggiator_is_active && self.current_midi_note == note_number as u16 {
            self.current_midi_state = MidiState::NoteOff;
        }
    }

    /// Chooses whether the arpeggiator steps in note order or at random.
    pub fn set_arpeggiator_random(&mut self, is_random: bool)
        ensures
            *final(self) == (Transport {
                arpeggiator_type: if is_random {
                    ArpeggiatorType::Randomize
                } else {
                    ArpeggiatorType::NoteOrder
                },
                ..*old(self)
            }),
    {
        self.arpeggiator_type = if is_random {
            ArpeggiatorType::Randomize
        } else {
            ArpeggiatorType::NoteOrder
        };
    }

    /// Chooses the ADSR envelope, or else the amplitude gate, to shape the amplitude.
    pub fn set_amp_mode_envelope_enabled(&mut self, is_enabled: bool)
        ensures
            *final(self) == (Transport {
                amp_mode: if is_enabled {
                    AmpMode::Envelope
                } else {
                    AmpMode::Gate
                },
                ..*old(self)
            }),
    {
        self.amp_mode = if is_enabled {
            AmpMode::Envelope
        } else {
            AmpMode::Gate
        };
    }

    fn step_arpeggiator(&mut self)
        requires
            old(self).wf(),
        ensures
            final(self).wf(),
            final(self).stepped_from(*old(self)),
            final(self).settings_kept(*old(self)),
    {
        let arpeggiator_type = self.arpeggiator_type;
        self.current_midi_note = self.arpeggiator.next_midi_note(arpeggiator_type);
        self.current_midi_state = MidiState::NoteOn;
    }

    /// One sample of the amplitude stage: the level, in millibels, to apply to the sample,
    /// or `None` for silence.
    ///
    /// With the amplitude gate, the output level sounds while it is on. With the envelope,
    /// its level sounds while it plays, and the note's state drives it. When the amplitude
    /// gate ends a cycle, or the envelope stops, an active arpeggiator starts its next
    /// note; a stopped envelope without it leaves the note at rest.
    pub fn next_amplitude(&mut self, envelope: &mut Envelope, output_level: i32) -> (r: Option<
        i64,
    >)
        requires
            old(self).wf(),
        ensures
            final(self).wf(),
            final(self).settings_kept(*old(self)),
            old(self).amp_mode == AmpMode::Gate ==> ({
                let g = old(envelope)@.gate_output();
                &&& final(envelope)@ == old(envelope)@.gate_next()
                &&& r == if g == GateState::On {
                    Some((output_level as int * MILLIBELS_PER_DB as int) as i64)
                } else {
                    None::<i64>
                }
                &&& (g == GateState::End && old(self).arpeggiator_is_active)
                    ==> final(self).stepped_from(*old(self))
                &&& !(g == GateState::End && old(self).arpeggiator_is_active) ==> *final(self)
                    == *old(self)
            }),
            old(self).amp_mode == AmpMode::Envelope ==> ({
                let e = old(envelope)@.adsr_next(output_level, old(self).current_midi_state);
                &&& final(envelope)@ == e
                &&& r == match adsr_output(e) {
                    ADSRState::Playing(level) => Some(level),
                    ADSRState::Stopped => None::<i64>,
                }
                &&& e.playing ==> *final(self) == (Transport {
                    current_midi_state: midi_state_after(old(self).current_midi_state),
                    ..*old(self)
                })
                &&& (!e.playing && old(self).arpeggiator_is_active)
                    ==> final(self).stepped_from(*old(self))
                &&& (!e.playing && !old(self).arpeggiator_is_active) ==> *final(self) == (
                Transport { current_midi_state: MidiState::Rest, ..*old(self) })
            }),
    {
        match self.amp_mode {
            AmpMode::Gate => {
                let state = envelope.gate();
                match state {
                    GateState::On => Some(output_level as i64 * MILLIBELS_PER_DB),
                    GateState::Off => None,
                    GateState::End => {
                        if self.arpeggiator_is_active {
                            self.step_arpeggiator();
                        }
                        None
                    },
                }
            },
            AmpMode::Envelope => {
                let state = envelope.adsr(output_level, &mut self.current_midi_state);
                match state {
                    ADSRState::Playing(level) => Some(level),
                    ADSRState::Stopped => {
                        if self.arpeggiator_is_active {
                            self.step_arpeggiator();
                        } else {
                            self.current_midi_state = MidiState::Rest;
                        }
                        None
                    },
                }
            },
        }
    }
}

} // verus!
