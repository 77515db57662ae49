use accidental_synth::arpeggiator::Arpeggiator;
use accidental_synth::envelope::{
    ADSRStage, ADSRState, Envelope, GateState, MidiState, MINIMUM_ENV_LEVEL,
};
use accidental_synth::timing::get_number_of_samples_from_milliseconds;
use accidental_synth::transport::Transport;

#[test]
fn samples_from_milliseconds_round_to_nearest() {
    assert_eq!(get_number_of_samples_from_milliseconds(44100, 100), 4410);
    assert_eq!(get_number_of_samples_from_milliseconds(44100, 800), 35280);
    assert_eq!(get_number_of_samples_from_milliseconds(44100, 1), 44);
    assert_eq!(get_number_of_samples_from_milliseconds(1500, 1), 2);
    assert_eq!(get_number_of_samples_from_milliseconds(u32::MAX, u32::MAX), u32::MAX);
}

#[test]
fn attack_of_100_ms_reaches_output_level_after_4410_samples() {
    let mut envelope = Envelope::new(44100);
    envelope.set_attack_milliseconds(100);
    let mut midi_state = MidiState::NoteOn;
    let mut samples = 0;
    loop {
        let state = envelope.adsr(-10, &mut midi_state);
        samples += 1;
        assert_eq!(envelope.stage(), ADSRStage::Attack);
        assert!(matches!(state, ADSRState::Playing(_)));
        if envelope.level() == -1000 {
            break;
        }
        assert!(samples < 5000);
    }
    assert_eq!(samples, 4410);
    assert_eq!(midi_state, MidiState::NoteHold);
}

#[test]
fn stages_follow_attack_decay_sustain_release_then_stop() {
    let mut envelope = Envelope::new(44100);
    envelope.set_sustain_level_below_output_level_in_dbfs(6);
    let mut midi_state = MidiState::NoteOn;
    let mut stages = vec![envelope.stage()];
    let mut samples = 0;
    loop {
        let state = envelope.adsr(-10, &mut midi_state);
        samples += 1;
        if state == ADSRState::Stopped {
            break;
        }
        if *stages.last().unwrap() != envelope.stage() {
            stages.push(envelope.stage());
        }
        assert!(samples < 100_000);
    }
    assert_eq!(
        stages,
        vec![ADSRStage::Attack, ADSRStage::Decay, ADSRStage::Sustain, ADSRStage::Release]
    );
    assert_eq!(envelope.stage(), ADSRStage::Attack);
    assert_eq!(envelope.level(), MINIMUM_ENV_LEVEL);
    // a stopped envelope stays silent until the next note-on
    assert_eq!(envelope.adsr(-10, &mut midi_state), ADSRState::Stopped);
}

#[test]
fn stopped_envelope_without_note_on_stays_silent() {
    let mut envelope = Envelope::new(44100);
    let mut midi_state = MidiState::Rest;
    for _ in 0..10 {
        assert_eq!(envelope.adsr(-10, &mut midi_state), ADSRState::Stopped);
    }
    assert_eq!(midi_state, MidiState::Rest);
}

#[test]
fn note_off_ends_sustain_early() {
    let mut envelope = Envelope::new(1000);
    envelope.set_attack_milliseconds(2);
    envelope.set_decay_milliseconds(2);
    envelope.set_sustain_milliseconds(1000);
    envelope.set_release_milliseconds(2);
    let mut midi_state = MidiState::NoteOn;
    while envelope.stage() != ADSRStage::Sustain {
        envelope.adsr(0, &mut midi_state);
    }
    envelope.adsr(0, &mut midi_state);
    assert_eq!(envelope.stage(), ADSRStage::Sustain);
    midi_state = MidiState::NoteOff;
    envelope.adsr(0, &mut midi_state);
    assert_eq!(envelope.stage(), ADSRStage::Release);
}

#[test]
fn level_moves_in_equal_steps_during_attack() {
    let mut envelope = Envelope::new(1000);
    envelope.set_attack_milliseconds(4);
    let mut midi_state = MidiState::NoteOn;
    let mut levels = Vec::new();
    for _ in 0..4 {
        envelope.adsr(0, &mut midi_state);
        levels.push(envelope.level());
    }
    assert_eq!(levels, vec![-4500, -3000, -1500, 0]);
    envelope.adsr(0, &mut midi_state);
    assert_eq!(envelope.stage(), ADSRStage::Decay);
}

#[test]
fn gate_duty_cycle_of_half_splits_800_ms_evenly() {
    let mut envelope = Envelope::new(44100);
    envelope.set_gate_note_length(800);
    envelope.set_gate_duty_cycle(500);
    assert_eq!(envelope.gate_on_maximum_samples(), 17640);
    assert_eq!(envelope.gate_off_maximum_samples(), 17640);
    assert_eq!(
        envelope.gate_on_maximum_samples() + envelope.gate_off_maximum_samples(),
        get_number_of_samples_from_milliseconds(44100, 800)
    );
}

#[test]
fn gate_duty_cycle_is_held_to_its_maximum() {
    let mut envelope = Envelope::new(1000);
    envelope.set_gate_note_length(100);
    envelope.set_gate_duty_cycle(1000);
    assert_eq!(envelope.gate_duty_cycle(), 900);
    assert_eq!(envelope.gate_on_maximum_samples(), 90);
    assert_eq!(envelope.gate_off_maximum_samples(), 10);
    envelope.set_gate_duty_cycle(0);
    assert_eq!(envelope.gate_on_maximum_samples(), 0);
    assert_eq!(envelope.gate_off_maximum_samples(), 100);
}

#[test]
fn gate_cycles_on_off_end() {
    let mut envelope = Envelope::new(1000);
    envelope.set_gate_note_length(4);
    envelope.set_gate_duty_cycle(500);
    let states: Vec<GateState> = (0..7).map(|_| envelope.gate()).collect();
    assert_eq!(
        states,
        vec![
            GateState::On,
            GateState::On,
            GateState::Off,
            GateState::Off,
            GateState::End,
            GateState::On,
            GateState::On,
        ]
    );
}

#[test]
fn gate_cycle_at_default_settings_has_equal_on_and_off_counts() {
    let mut envelope = Envelope::new(44100);
    let mut on = 0;
    let mut off = 0;
    loop {
        match envelope.gate() {
            GateState::On => on += 1,
            GateState::Off => off += 1,
            GateState::End => break,
        }
        assert!(on + off <= 35280);
    }
    assert_eq!(on, 17640);
    assert_eq!(off, 17640);
    assert_eq!(on + off, get_number_of_samples_from_milliseconds(44100, 800));
    assert_eq!(envelope.gate(), GateState::On);
}

#[test]
fn one_second_of_a_440_hz_note_runs_one_envelope_cycle() {
    let sample_rate = 44100;
    let output_level = -10;
    let mut envelope = Envelope::new(sample_rate);
    envelope.set_attack_milliseconds(50);
    envelope.set_decay_milliseconds(300);
    envelope.set_release_milliseconds(200);
    envelope.set_sustain_milliseconds(300);
    let mut transport = Transport::new();
    transport.midi_note_on(69);
    let arpeggiator = Arpeggiator::new(vec![69]);
    assert_eq!(arpeggiator.get_frequency_from_midi_note(transport.current_midi_note), 440_000);

    let mut stages = vec![];
    let mut peak = i64::MIN;
    let mut stops = 0;
    let mut was_playing = false;
    for _ in 0..sample_rate {
        let level = transport.next_amplitude(&mut envelope, output_level);
        if let Some(level) = level {
            peak = peak.max(level);
            if stages.last() != Some(&envelope.stage()) && envelope.is_playing() {
                stages.push(envelope.stage());
            }
        }
        if was_playing && !envelope.is_playing() {
            stops += 1;
        }
        was_playing = envelope.is_playing();
    }
    assert_eq!(
        stages,
        vec![ADSRStage::Attack, ADSRStage::Decay, ADSRStage::Sustain, ADSRStage::Release]
    );
    assert_eq!(stops, 1);
    assert!(!envelope.is_playing());
    assert_eq!(transport.current_midi_state, MidiState::Rest);
    assert!(peak <= output_level as i64 * 100);
    assert_eq!(peak, -1000);
}
