use vstd::prelude::*;

use crate::timing::{get_number_of_samples_from_milliseconds, samples_for_u32};

verus! {

/// Level of silence, in millibels (hundredths of a dB) relative to full scale.
pub const MINIMUM_ENV_LEVEL: i64 = -6000;
/// Millibels in one decibel.
pub const MILLIBELS_PER_DB: i64 = 100;
pub const DEFAULT_ATTACK_MILLISECONDS: u32 = 50;
pub const DEFAULT_DECAY_MILLISECONDS: u32 = 300;
pub const DEFAULT_RELEASE_MILLISECONDS: u32 = 200;
pub const DEFAULT_SUSTAIN_MILLISECONDS: u32 = 300;
pub const DEFAULT_SUSTAIN_LEVEL_BELOW_OUTPUT_LEVEL: i32 = 0;
/// Default gate duty cycle, in thousandths of the note length.
pub const DEFAULT_GATE_DUTY_CYCLE: u32 = 500;
/// Largest gate duty cycle, in thousandths of the note length.
pub const MAXIMUM_GATE_DUTY_CYCLE: u32 = 900;
pub const DEFAULT_GATE_NOTE_LENGTH_MILLISECONDS: u32 = 800;

#[derive(Clone, Copy, Debug, PartialEq, Eq, Structural)]
pub enum ADSRStage {
    Attack,
    Decay,
    Sustain,
    Release,
}

/// What the amplitude gate asks of the amplitude for one sample.
#[derive(Clone, Copy, Debug, PartialEq, Eq, Structural)]
pub enum GateState {
    On,
    Off,
    End,
}

/// What the envelope asks of the amplitude for one sample: a level in millibels, or silence.
#[derive(Clone, Copy, Debug, PartialEq, Eq, Structural)]
pub enum ADSRState {
    Playing(i64),
    Stopped,
}

/// Where the current note stands, as seen by the envelope.
#[derive(Clone, Copy, Debug, PartialEq, Eq, Structural)]
pub enum MidiState {
    Rest,
    NoteOn,
    NoteHold,
    NoteOff,
}

struct Gate {
    duty_cycle: u32,
    on_sample_count: u32,
    on_maximum_samples: u32,
    off_sample_count: u32,
    off_maximum_samples: u32,
    note_length_milliseconds: u32,
    on_phase: bool,
}

struct ADSR {
    current_level: i64,
    stage_start_level: i64,
    stage_count: u32,
    attack_milliseconds: u32,
    decay_milliseconds: u32,
    release_milliseconds: u32,
    sustain_length: u32,
    sustain_level: i32,
    stage: ADSRStage,
    playing: bool,
}

pub struct Envelope {
    sample_rate: u32,
    envelope: ADSR,
    gate: Gate,
}

/// The level reached after `count` of `steps` equal steps from `start` towards `target`,
/// rounded towards `start`; `target` itself once `count` reaches `steps`.
pub open spec fn interpolate(start: int, target: int, count: int, steps: int) -> int {
    if steps <= 0 || count >= steps {
        target
    } else if start <= target {
        start + (target - start) * count / steps
    } else {
        start - (start - target) * count / steps
    }
}

/// Samples of the amplitude gate's on phase for `total` samples and a duty cycle in thousandths.
pub open spec fn gate_on_samples(total: u32, duty_cycle: u32) -> int {
    (total as int * duty_cycle as int + 500) / 1000
}

/// A duty cycle in thousandths, held to `[0, MAXIMUM_GATE_DUTY_CYCLE]`.
pub open spec fn clamped_duty_cycle(duty_cycle: u32) -> u32 {
    if duty_cycle >= MAXIMUM_GATE_DUTY_CYCLE {
        MAXIMUM_GATE_DUTY_CYCLE
    } else {
        duty_cycle
    }
}

/// The stage that regularly follows `stage`; a release is followed by a new attack.
pub open spec fn next_stage(stage: ADSRStage) -> ADSRStage {
    match stage {
        ADSRStage::Attack => ADSRStage::Decay,
        ADSRStage::Decay => ADSRStage::Sustain,
        ADSRStage::Sustain => ADSRStage::Release,
        ADSRStage::Release => ADSRStage::Attack,
    }
}

proof fn lemma_scaled_fraction(d: int, c: int, n: int)
    requires
        0 <= d,
        0 <= c <= n,
        0 < n,
    ensures
        0 <= d * c / n <= d,
        c < n && 0 < d ==> d * c / n < d,
{
    assert(0 <= d * c) by (nonlinear_arith)
        requires
            0 <= d,
            0 <= c,
    ;
    assert(d * c <= d * n) by (nonlinear_arith)
        requires
            0 <= d,
            c <= n,
    ;
    assert(d * n == n * d) by (nonlinear_arith);
    vstd::arithmetic::div_mod::lemma_div_is_ordered(d * c, n * d, n);
    vstd::arithmetic::div_mod::lemma_div_multiples_vanish(d, n);
    vstd::arithmetic::div_mod::lemma_div_pos_is_pos(d * c, n);
    if c < n && 0 < d {
        assert(d * c < n * d) by (nonlinear_arith)
            requires
                0 < d,
                c < n,
        ;
        vstd::arithmetic::div_mod::lemma_multiply_divide_lt(d * c, n, d);
    }
}

/// A level interpolated between two others lies between them.
pub proof fn lemma_interpolate_between(start: int, target: int, count: int, steps: int)
    requires
        0 <= count,
    ensures
        start <= target ==> start <= interpolate(start, target, count, steps) <= target,
        target <= start ==> target <= interpolate(start, target, count, steps) <= start,
{
    if 0 < steps && count < steps {
        if start <= target {
            lemma_scaled_fraction(target - start, count, steps);
        } else {
            lemma_scaled_fraction(start - target, count, steps);
        }
    }
}

/// A stage that moves its level between two different levels over `steps` samples reaches
/// the target on its `steps`-th sample and not before.
pub proof fn lemma_interpolate_reaches_target_at_last_step(
    start: int,
    target: int,
    count: int,
    steps: int,
)
    requires
        start != target,
        0 <= count,
        0 < steps,
    ensures
        interpolate(start, target, count, steps) == target <==> count >= steps,
{
    if count < steps {
        if start <= target {
            lemma_scaled_fraction(target - start, count, steps);
        } else {
            lemma_scaled_fraction(start - target, count, steps);
        }
    }
}

fn interpolate_exec(start: i64, target: i64, count: u32, steps: u32) -> (r: i64)
    ensures
        r == interpolate(start as int, target as int, count as int, steps as int),
{
    proof {
        lemma_interpolate_between(start as int, target as int, count as int, steps as int);
    }
    if steps == 0 || count >= steps {
        return target;
    }
    proof {
        assert(0 <= (if start <= target { target - start } else { start - target }) * count
            <= 0x1_0000_0000_0000_0000 * 0x1_0000_0000) by (nonlinear_arith)
            requires
                -0x8000_0000_0000_0000 <= start <= 0x7fff_ffff_ffff_ffff,
                -0x8000_0000_0000_0000 <= target <= 0x7fff_ffff_ffff_ffff,
                0 <= count <= 0xffff_ffff,
        ;
    }
    if start <= target {
        let delta: i128 = target as i128 - start as i128;
        let moved: i128 = delta * count as i128 / steps as i128;
        (start as i128 + moved) as i64
    } else {
        let delta: i128 = start as i128 - target as i128;
        let moved: i128 = delta * count as i128 / steps as i128;
        (start as i128 - moved) as i64
    }
}

/// Everything an envelope holds, as plain values.
pub struct EnvelopeModel {
    pub sample_rate: u32,
    pub level: i64,
    pub stage_start_level: i64,
    pub stage_count: u32,
    pub attack_milliseconds: u32,
    pub decay_milliseconds: u32,
    pub release_milliseconds: u32,
    pub sustain_milliseconds: u32,
    pub sustain_level_below_output: i32,
    pub stage: ADSRStage,
    pub playing: bool,
    pub duty_cycle: u32,
    pub on_sample_count: u32,
    pub on_maximum_samples: u32,
    pub off_sample_count: u32,
    pub off_maximum_samples: u32,
    pub note_length_milliseconds: u32,
    pub gate_on_phase: bool,
}

impl EnvelopeModel {
    /// Samples in a whole gate cycle at the configured note length.
    pub open spec fn gate_total_samples(self) -> u32 {
        samples_for_u32(self.sample_rate, self.note_length_milliseconds)
    }

    /// The amplitude gate's phase lengths agree with its duty cycle and note length, and together
    /// make up the note length.
    pub open spec fn wf(self) -> bool {
        &&& self.duty_cycle <= MAXIMUM_GATE_DUTY_CYCLE
        &&& self.on_maximum_samples as int == gate_on_samples(
            self.gate_total_samples(),
            self.duty_cycle,
        )
        &&& self.on_maximum_samples as int + self.off_maximum_samples as int
            == self.gate_total_samples() as int
    }

    /// Samples that the current stage of the envelope lasts.
    pub open spec fn stage_steps(self) -> u32 {
        match self.stage {
            ADSRStage::Attack => samples_for_u32(self.sample_rate, self.attack_milliseconds),
            ADSRStage::Decay => samples_for_u32(self.sample_rate, self.decay_milliseconds),
            ADSRStage::Sustain => samples_for_u32(self.sample_rate, self.sustain_milliseconds),
            ADSRStage::Release => samples_for_u32(self.sample_rate, self.release_milliseconds),
        }
    }

    /// The level, in millibels, that the current stage moves towards.
    pub open spec fn stage_target(self, output_level: i32) -> int {
        let output = output_level as int * MILLIBELS_PER_DB as int;
        match self.stage {
            ADSRStage::Attack => output,
            ADSRStage::Decay => output - self.sustain_level_below_output as int
                * MILLIBELS_PER_DB as int,
            ADSRStage::Sustain => output - self.sustain_level_below_output as int
                * MILLIBELS_PER_DB as int,
            ADSRStage::Release => MINIMUM_ENV_LEVEL as int,
        }
    }

    /// The envelope once a note-on has been seen: a new attack starts from the current
    /// level, or from silence when nothing was playing.
    pub open spec fn triggered(self, midi_state: MidiState) -> EnvelopeModel {
        if midi_state == MidiState::NoteOn {
            let start = if self.playing {
                self.level
            } else {
                MINIMUM_ENV_LEVEL
            };
            EnvelopeModel {
                level: start,
                stage_start_level: start,
                stage_count: 0,
                stage: ADSRStage::Attack,
                playing: true,
                ..self
            }
        } else {
            self
        }
    }

    /// The envelope after one sample of the stage it is in.
    pub open spec fn advanced(self, output_level: i32, midi_state: MidiState) -> EnvelopeModel {
        let steps = self.stage_steps();
        let target = self.stage_target(output_level);
        match self.stage {
            ADSRStage::Sustain => {
                if self.stage_count < steps && midi_state != MidiState::NoteOff {
                    EnvelopeModel { stage_count: (self.stage_count + 1) as u32, ..self }
                } else {
                    EnvelopeModel {
                        stage: ADSRStage::Release,
                        stage_count: 0,
                        stage_start_level: self.level,
                        ..self
                    }
                }
            },
            _ => {
                if self.stage_count < steps {
                    EnvelopeModel {
                        stage_count: (self.stage_count + 1) as u32,
                        level: interpolate(
                            self.stage_start_level as int,
                            target,
                            self.stage_count + 1,
                            steps as int,
                        ) as i64,
                        ..self
                    }
                } else {
                    EnvelopeModel {
                        stage: next_stage(self.stage),
                        stage_count: 0,
                        level: target as i64,
                        stage_start_level: target as i64,
                        playing: self.stage != ADSRStage::Release,
                        ..self
                    }
                }
            },
        }
    }

    /// The envelope after one call of `adsr`.
    pub open spec fn adsr_next(self, output_level: i32, midi_state: MidiState) -> EnvelopeModel {
        let t = self.triggered(midi_state);
        if t.playing {
            t.advanced(output_level, midi_state)
        } else {
            t
        }
    }

    /// How many samples of the off phase have been given; none while the on phase lasts.
    pub open spec fn gate_off_position(self) -> u32 {
        if self.gate_on_phase {
            0
        } else {
            self.off_sample_count
        }
    }

    /// Whether one call of `gate` still gives an `On` sample.
    pub open spec fn gate_in_on_phase(self) -> bool {
        self.gate_on_phase && self.on_sample_count < self.on_maximum_samples
    }

    /// The amplitude gate after one call of `gate`: the on phase counts its samples; once it
    /// is over, the off phase counts its samples; once that is over, the call that ends the
    /// cycle re-arms the on phase.
    pub open spec fn gate_next(self) -> EnvelopeModel {
        if self.gate_in_on_phase() {
            EnvelopeModel { on_sample_count: (self.on_sample_count + 1) as u32, ..self }
        } else if self.gate_off_position() < self.off_maximum_samples {
            EnvelopeModel {
                gate_on_phase: false,
                on_sample_count: 0,
                off_sample_count: (self.gate_off_position() + 1) as u32,
                ..self
            }
        } else {
            EnvelopeModel {
                gate_on_phase: true,
                on_sample_count: 0,
                off_sample_count: 0,
                ..self
            }
        }
    }

    /// What one call of `gate` reports: `On` in the on phase, `Off` in the off phase, and
    /// `End` on the one sample that closes the cycle.
    pub open spec fn gate_output(self) -> GateState {
        if self.gate_in_on_phase() {
            GateState::On
        } else if self.gate_off_position() < self.off_maximum_samples {
            GateState::Off
        } else {
            GateState::End
        }
    }

    /// The amplitude gate at the start of a cycle.
    pub open spec fn gate_at_cycle_start(self) -> bool {
        self.gate_on_phase && self.on_sample_count == 0 && self.off_sample_count == 0
    }

    /// The amplitude gate's phase lengths recomputed for a duty cycle and a note length.
    pub open spec fn with_gate_timing(self, duty_cycle: u32, note_length_milliseconds: u32)
        -> EnvelopeModel {
        let total = samples_for_u32(self.sample_rate, note_length_milliseconds);
        let on = gate_on_samples(total, duty_cycle);
        EnvelopeModel {
            duty_cycle,
            note_length_milliseconds,
            on_maximum_samples: on as u32,
            off_maximum_samples: (total - on) as u32,
            ..self
        }
    }
}

/// The amplitude that the envelope reports for its state.
pub open spec fn adsr_output(m: EnvelopeModel) -> ADSRState {
    if m.playing {
        ADSRState::Playing(m.level)
    } else {
        ADSRState::Stopped
    }
}

/// A note-on is taken up by the envelope and becomes a held note.
pub open spec fn midi_state_after(midi_state: MidiState) -> MidiState {
    if midi_state == MidiState::NoteOn {
        MidiState::NoteHold
    } else {
        midi_state
    }
}

impl View for Envelope {
    type V = EnvelopeModel;

    closed spec fn view(&self) -> EnvelopeModel {
        EnvelopeModel {
            sample_rate: self.sample_rate,
            level: self.envelope.current_level,
            stage_start_level: self.envelope.stage_start_level,
            stage_count: self.envelope.stage_count,
            attack_milliseconds: self.envelope.attack_milliseconds,
            decay_milliseconds: self.envelope.decay_milliseconds,
            release_milliseconds: self.envelope.release_milliseconds,
            sustain_milliseconds: self.envelope.sustain_length,
            sustain_level_below_output: self.envelope.sustain_level,
            stage: self.envelope.stage,
            playing: self.envelope.playing,
            duty_cycle: self.gate.duty_cycle,
            on_sample_count: self.gate.on_sample_count,
            on_maximum_samples: self.gate.on_maximum_samples,
            off_sample_count: self.gate.off_sample_count,
            off_maximum_samples: self.gate.off_maximum_samples,
            note_length_milliseconds: self.gate.note_length_milliseconds,
            gate_on_phase: self.gate.on_phase,
        }
    }
}

fn gate_on_samples_exec(total: u32, duty_cycle: u32) -> (r: u32)
    requires
        duty_cycle <= 1000,
    ensures
        r as int == gate_on_samples(total, duty_cycle),
        r <= total,
{
    proof {
        assert(total as int * duty_cycle as int <= total as int * 1000) by (nonlinear_arith)
            requires
                duty_cycle <= 1000,
        ;
        vstd::arithmetic::div_mod::lemma_div_is_ordered(
            total as int * duty_cycle as int + 500,
            total as int * 1000 + 500,
            1000,
        );
    }
    ((total as u64 * duty_cycle as u64 + 500) / 1000) as u32
}

impl Envelope {
    pub fn new(sample_rate: u32) -> (r: Self)
        ensures
            r@.wf(),
            r@.sample_rate == sample_rate,
            r@.level == MINIMUM_ENV_LEVEL,
            r@.stage == ADSRStage::Attack,
            !r@.playing,
            r@.stage_count == 0,
            r@.attack_milliseconds == DEFAULT_ATTACK_MILLISECONDS,
            r@.decay_milliseconds == DEFAULT_DECAY_MILLISECONDS,
            r@.release_milliseconds == DEFAULT_RELEASE_MILLISECONDS,
            r@.sustain_milliseconds == DEFAULT_SUSTAIN_MILLISECONDS,
            r@.sustain_level_below_output == DEFAULT_SUSTAIN_LEVEL_BELOW_OUTPUT_LEVEL,
            r@.duty_cycle == DEFAULT_GATE_DUTY_CYCLE,
            r@.note_length_milliseconds == DEFAULT_GATE_NOTE_LENGTH_MILLISECONDS,
            r@.gate_at_cycle_start(),
    {
        let total = get_number_of_samples_from_milliseconds(
            sample_rate,
            DEFAULT_GATE_NOTE_LENGTH_MILLISECONDS,
        );
        let on = gate_on_samples_exec(total, DEFAULT_GATE_DUTY_CYCLE);
        Envelope {
            sample_rate,
            gate: Gate {
                duty_cycle: DEFAULT_GATE_DUTY_CYCLE,
                on_sample_count: 0,
                on_maximum_samples: on,
                off_sample_count: 0,
                off_maximum_samples: total - on,
                note_length_milliseconds: DEFAULT_GATE_NOTE_LENGTH_MILLISECONDS,
                on_phase: true,
            },
            envelope: ADSR {
                current_level: MINIMUM_ENV_LEVEL,
                stage_start_level: MINIMUM_ENV_LEVEL,
                stage_count: 0,
                attack_milliseconds: DEFAULT_ATTACK_MILLISECONDS,
                decay_milliseconds: DEFAULT_DECAY_MILLISECONDS,
                release_milliseconds: DEFAULT_RELEASE_MILLISECONDS,
                sustain_length: DEFAULT_SUSTAIN_MILLISECONDS,
                sustain_level: DEFAULT_SUSTAIN_LEVEL_BELOW_OUTPUT_LEVEL,
                stage: ADSRStage::Attack,
                playing: false,
            },
        }
    }

    /// The stage the envelope is in.
    pub fn stage(&self) -> (r: ADSRStage)
        ensures
            r == self@.stage,
    {
        self.envelope.stage
    }

    /// The envelope's level, in millibels.
    pub fn level(&self) -> (r: i64)
        ensures
            r == self@.level,
    {
        self.envelope.current_level
    }

    /// Whether the envelope is playing rather than stopped.
    pub fn is_playing(&self) -> (r: bool)
        ensures
            r == self@.playing,
    {
        self.envelope.playing
    }

    /// Samples in the on phase of the amplitude gate.
    pub fn gate_on_maximum_samples(&self) -> (r: u32)
        ensures
            r == self@.on_maximum_samples,
    {
        self.gate.on_maximum_samples
    }

    /// Samples in the off phase of the amplitude gate.
    pub fn gate_off_maximum_samples(&self) -> (r: u32)
        ensures
            r == self@.off_maximum_samples,
    {
        self.gate.off_maximum_samples
    }

    /// The duty cycle of the amplitude gate, in thousandths.
    pub fn gate_duty_cycle(&self) -> (r: u32)
        ensures
            r == self@.duty_cycle,
    {
        self.gate.duty_cycle
    }

    pub fn set_attack_milliseconds(&mut self, milliseconds: u32)
        ensures
            final(self)@ == (EnvelopeModel { attack_milliseconds: milliseconds, ..old(self)@ }),
    {
        self.envelope.attack_milliseconds = milliseconds;
    }

    pub fn set_decay_milliseconds(&mut self, milliseconds: u32)
        ensures
            final(self)@ == (EnvelopeModel { decay_milliseconds: milliseconds, ..old(self)@ }),
    {
        self.envelope.decay_milliseconds = milliseconds;
    }

    pub fn set_release_milliseconds(&mut self, milliseconds: u32)
        ensures
            final(self)@ == (EnvelopeModel { release_milliseconds: milliseconds, ..old(self)@ }),
    {
        self.envelope.release_milliseconds = milliseconds;
    }

    pub fn set_sustain_milliseconds(&mut self, milliseconds: u32)
        ensures
            final(self)@ == (EnvelopeModel { sustain_milliseconds: milliseconds, ..old(self)@ }),
    {
        self.envelope.sustain_length = milliseconds;
    }

    /// Sets how far, in dB, the sustain level lies below the output level.
    pub fn set_sustain_level_below_output_level_in_dbfs(&mut self, level: i32)
        ensures
            final(self)@ == (EnvelopeModel { sustain_level_below_output: level, ..old(self)@ }),
    {
        self.envelope.sustain_level = level;
    }

    /// Sets the amplitude gate's duty cycle, in thousandths of the note length, held to at most
    /// `MAXIMUM_GATE_DUTY_CYCLE`, and recomputes the lengths of its on and off phases.
    pub fn set_gate_duty_cycle(&mut self, duty_cycle: u32)
        ensures
            final(self)@ == old(self)@.with_gate_timing(
                clamped_duty_cycle(duty_cycle),
                old(self)@.note_length_milliseconds,
            ),
            final(self)@.wf(),
    {
        let clamped = if duty_cycle >= MAXIMUM_GATE_DUTY_CYCLE {
            MAXIMUM_GATE_DUTY_CYCLE
        } else {
            duty_cycle
        };
        self.gate.duty_cycle = clamped;
        let total = get_number_of_samples_from_milliseconds(
            self.sample_rate,
            self.gate.note_length_milliseconds,
        );
        let on = gate_on_samples_exec(total, clamped);
        self.gate.on_maximum_samples = on;
        self.gate.off_maximum_samples = total - on;
    }

    /// Sets the length of a whole gate cycle and recomputes its on and off phases.
    pub fn set_gate_note_length(&mut self, note_length_milliseconds: u32)
        requires
            old(self)@.wf(),
        ensures
            final(self)@ == old(self)@.with_gate_timing(
                old(self)@.duty_cycle,
                note_length_milliseconds,
            ),
            final(self)@.wf(),
    {
        let total = get_number_of_samples_from_milliseconds(
            self.sample_rate,
            note_length_milliseconds,
        );
        let on = gate_on_samples_exec(total, self.gate.duty_cycle);
        self.gate.on_maximum_samples = on;
        self.gate.off_maximum_samples = total - on;
        self.gate.note_length_milliseconds = note_length_milliseconds;
    }

    /// One sample of the free-running amplitude gate: `On` for each sample of its on
    /// phase, `Off` for each sample of its off phase, then a single `End` that closes the
    /// cycle and re-arms the on phase.
    pub fn gate(&mut self) -> (r: GateState)
        ensures
            final(self)@ == old(self)@.gate_next(),
            r == old(self)@.gate_output(),
    {
        if self.gate.on_phase && self.gate.on_sample_count < self.gate.on_maximum_samples {
            self.gate.on_sample_count = self.gate.on_sample_count + 1;
            return GateState::On;
        }
        let off_position = if self.gate.on_phase {
            0
        } else {
            self.gate.off_sample_count
        };
        self.gate.on_sample_count = 0;
        if off_position < self.gate.off_maximum_samples {
            self.gate.on_phase = false;
            self.gate.off_sample_count = off_position + 1;
            GateState::Off
        } else {
            self.gate.on_phase = true;
            self.gate.off_sample_count = 0;
            GateState::End
        }
    }

    fn stage_steps(&self) -> (r: u32)
        ensures
            r == self@.stage_steps(),
    {
        let milliseconds = match self.envelope.stage {
            ADSRStage::Attack => self.envelope.attack_milliseconds,
            ADSRStage::Decay => self.envelope.decay_milliseconds,
            ADSRStage::Sustain => self.envelope.sustain_length,
            ADSRStage::Release => self.envelope.release_milliseconds,
        };
        get_number_of_samples_from_milliseconds(self.sample_rate, milliseconds)
    }

    fn stage_target(&self, output_level: i32) -> (r: i64)
        ensures
            r as int == self@.stage_target(output_level),
    {
        let output = output_level as i64 * MILLIBELS_PER_DB;
        match self.envelope.stage {
            ADSRStage::Attack => output,
            ADSRStage::Release => MINIMUM_ENV_LEVEL,
            _ => output - self.envelope.sustain_level as i64 * MILLIBELS_PER_DB,
        }
    }

    /// One sample of the ADSR envelope at `output_level` dB.
    ///
    /// A note-on starts a new attack (and is taken up as a held note); without one a
    /// stopped envelope stays silent. Attack, decay and release each move the level in
    /// equal steps over their duration and then hand over to the next stage; sustain holds
    /// for its duration, or until a note-off. The end of the release stops the envelope.
    pub fn adsr(&mut self, output_level: i32, midi_state: &mut MidiState) -> (r: ADSRState)
        ensures
            final(self)@ == old(self)@.adsr_next(output_level, *old(midi_state)),
            *final(midi_state) == midi_state_after(*old(midi_state)),
            r == adsr_output(final(self)@),
    {
        let incoming = *midi_state;
        if incoming == MidiState::NoteOn {
            let start = if self.envelope.playing {
                self.envelope.current_level
            } else {
                MINIMUM_ENV_LEVEL
            };
            self.envelope.current_level = start;
            self.envelope.stage_start_level = start;
            self.envelope.stage_count = 0;
            self.envelope.stage = ADSRStage::Attack;
            self.envelope.playing = true;
            *midi_state = MidiState::NoteHold;
        }
        if !self.envelope.playing {
            return ADSRState::Stopped;
        }
        let steps = self.stage_steps();
        let target = self.stage_target(output_level);
        match self.envelope.stage {
            ADSRStage::Sustain => {
                if self.envelope.stage_count < steps && incoming != MidiState::NoteOff {
                    self.envelope.stage_count = self.envelope.stage_count + 1;
                } else {
                    self.envelope.stage = ADSRStage::Release;
                    self.envelope.stage_count = 0;
                    self.envelope.stage_start_level = self.envelope.current_level;
                }
            },
            _ => {
                if self.envelope.stage_count < steps {
                    let count = self.envelope.stage_count + 1;
                    self.envelope.stage_count = count;
                    self.envelope.current_level = interpolate_exec(
                        self.envelope.stage_start_level,
                        target,
                        count,
                        steps,
                    );
                } else {
                    let finished = self.envelope.stage;
                    self.envelope.stage = match finished {
                        ADSRStage::Attack => ADSRStage::Decay,
                        ADSRStage::Decay => ADSRStage::Sustain,
                        ADSRStage::Sustain => ADSRStage::Release,
                        ADSRStage::Release => ADSRStage::Attack,
                    };
                    self.envelope.stage_count = 0;
                    self.envelope.current_level = target;
                    self.envelope.stage_start_level = target;
                    self.envelope.playing = finished != ADSRStage::Release;
                }
            },
        }
        if self.envelope.playing {
            ADSRState::Playing(self.envelope.current_level)
        } else {
            ADSRState::Stopped
        }
    }
}

/// The envelope after `samples` calls of `adsr` at one output level, starting with
/// `midi_state` as the note's state.
pub open spec fn adsr_run(m: EnvelopeModel, output_level: i32, midi_state: MidiState, samples: nat)
    -> EnvelopeModel
    decreases samples,
{
    if samples == 0 {
        m
    } else {
        adsr_run(
            m.adsr_next(output_level, midi_state),
            output_level,
            midi_state_after(midi_state),
            (samples - 1) as nat,
        )
    }
}

/// Stages are never skipped or reordered: without a note-on, one sample either keeps the
/// stage or moves to the stage that follows it, and the envelope stops only at the end of
/// a release; a note-on starts over at the attack (or, for an attack of no samples, the
/// decay that follows it).
pub proof fn lemma_stage_order(m: EnvelopeModel, output_level: i32, midi_state: MidiState)
    ensures
        ({
            let n = m.adsr_next(output_level, midi_state);
            &&& midi_state != MidiState::NoteOn ==> (n.stage == m.stage || n.stage == next_stage(
                m.stage,
            ))
            &&& midi_state != MidiState::NoteOn && m.playing && !n.playing ==> m.stage
                == ADSRStage::Release && n.stage == ADSRStage::Attack
            &&& midi_state != MidiState::NoteOn && m.stage == ADSRStage::Release && n.stage
                == ADSRStage::Attack ==> !n.playing
            &&& midi_state != MidiState::NoteOn && !m.playing ==> n == m
            &&& midi_state == MidiState::NoteOn ==> n.playing && (n.stage == ADSRStage::Attack
                || n.stage == ADSRStage::Decay)
        }),
{
}

proof fn lemma_attack_run(a: EnvelopeModel, output_level: i32, samples: nat)
    requires
        a.playing,
        a.stage == ADSRStage::Attack,
        a.stage_start_level == MINIMUM_ENV_LEVEL,
        a.stage_count as int + samples <= a.stage_steps() as int,
    ensures
        ({
            let r = adsr_run(a, output_level, MidiState::NoteHold, samples);
            &&& r.playing
            &&& r.stage == ADSRStage::Attack
            &&& r.stage_start_level == MINIMUM_ENV_LEVEL
            &&& r.stage_count == a.stage_count + samples
            &&& r.sample_rate == a.sample_rate
            &&& r.attack_milliseconds == a.attack_milliseconds
            &&& samples > 0 ==> r.level == interpolate(
                MINIMUM_ENV_LEVEL as int,
                output_level as int * MILLIBELS_PER_DB as int,
                r.stage_count as int,
                a.stage_steps() as int,
            )
        }),
    decreases samples,
{
    if samples > 0 {
        let b = a.adsr_next(output_level, MidiState::NoteHold);
        lemma_interpolate_between(
            MINIMUM_ENV_LEVEL as int,
            output_level as int * MILLIBELS_PER_DB as int,
            a.stage_count + 1,
            a.stage_steps() as int,
        );
        lemma_attack_run(b, output_level, (samples - 1) as nat);
    }
}

/// Attack timing: once a note-on starts a stopped envelope, its level climbs from
/// `MINIMUM_ENV_LEVEL` in equal steps and first reaches the output level on the sample
/// numbered `samples_for(sample_rate, attack)`, still within the attack stage.
pub proof fn lemma_attack_duration(m: EnvelopeModel, output_level: i32, samples: nat)
    requires
        !m.playing,
        MINIMUM_ENV_LEVEL < output_level as int * MILLIBELS_PER_DB as int,
        1 <= samples <= samples_for_u32(m.sample_rate, m.attack_milliseconds),
    ensures
        ({
            let r = adsr_run(m, output_level, MidiState::NoteOn, samples);
            let steps = samples_for_u32(m.sample_rate, m.attack_milliseconds);
            &&& r.playing
            &&& r.stage == ADSRStage::Attack
            &&& r.level == interpolate(
                MINIMUM_ENV_LEVEL as int,
                output_level as int * MILLIBELS_PER_DB as int,
                samples as int,
                steps as int,
            )
            &&& (r.level == output_level as int * MILLIBELS_PER_DB as int <==> samples == steps)
        }),
{
    let b = m.adsr_next(output_level, MidiState::NoteOn);
    lemma_attack_run(b, output_level, (samples - 1) as nat);
    lemma_interpolate_reaches_target_at_last_step(
        MINIMUM_ENV_LEVEL as int,
        output_level as int * MILLIBELS_PER_DB as int,
        samples as int,
        samples_for_u32(m.sample_rate, m.attack_milliseconds) as int,
    );
}

/// The envelope never goes above the output level: when its level and the level its stage
/// started from are at most the output level, a sustain lies at or below the output level
/// and silence below it, they stay so after a sample.
pub proof fn lemma_adsr_never_exceeds_output(
    m: EnvelopeModel,
    output_level: i32,
    midi_state: MidiState,
)
    requires
        m.level <= output_level as int * MILLIBELS_PER_DB as int,
        m.stage_start_level <= output_level as int * MILLIBELS_PER_DB as int,
        MINIMUM_ENV_LEVEL <= output_level as int * MILLIBELS_PER_DB as int,
        m.sustain_level_below_output >= 0,
    ensures
        ({
            let n = m.adsr_next(output_level, midi_state);
            &&& n.level <= output_level as int * MILLIBELS_PER_DB as int
            &&& n.stage_start_level <= output_level as int * MILLIBELS_PER_DB as int
        }),
{
    let t = m.triggered(midi_state);
    lemma_interpolate_between(
        t.stage_start_level as int,
        t.stage_target(output_level),
        t.stage_count + 1,
        t.stage_steps() as int,
    );
}

/// A duty cycle of one half splits a note length of an even number of samples into on and
/// off phases of equal length, which together fill the note length.
pub proof fn lemma_half_duty_cycle_splits_evenly(m: EnvelopeModel)
    requires
        m.wf(),
        m.duty_cycle == 500,
        m.gate_total_samples() % 2 == 0,
    ensures
        m.on_maximum_samples == m.off_maximum_samples,
        m.on_maximum_samples + m.off_maximum_samples == m.gate_total_samples(),
{
    let total = m.gate_total_samples() as int;
    assert((total * 500 + 500) / 1000 == total / 2) by (nonlinear_arith)
        requires
            total % 2 == 0,
            total >= 0,
    ;
}

/// The amplitude gate after `samples` calls of `gate`.
pub open spec fn gate_run(m: EnvelopeModel, samples: nat) -> EnvelopeModel
    decreases samples,
{
    if samples == 0 {
        m
    } else {
        gate_run(m.gate_next(), (samples - 1) as nat)
    }
}

/// What `samples` calls of `gate` report, in order.
pub open spec fn gate_outputs(m: EnvelopeModel, samples: nat) -> Seq<GateState>
    decreases samples,
{
    if samples == 0 {
        Seq::empty()
    } else {
        seq![m.gate_output()] + gate_outputs(m.gate_next(), (samples - 1) as nat)
    }
}

/// `count` copies of `state`.
pub open spec fn repeated(state: GateState, count: nat) -> Seq<GateState> {
    Seq::new(count, |i: int| state)
}

proof fn lemma_gate_run_split(m: EnvelopeModel, first: nat, second: nat)
    ensures
        gate_run(m, first + second) == gate_run(gate_run(m, first), second),
        gate_outputs(m, first + second) == gate_outputs(m, first) + gate_outputs(
            gate_run(m, first),
            second,
        ),
    decreases first,
{
    if first == 0 {
        assert(gate_outputs(m, 0) + gate_outputs(m, second) =~= gate_outputs(m, second));
    } else {
        lemma_gate_run_split(m.gate_next(), (first - 1) as nat, second);
        assert((first + second - 1) as nat == ((first - 1) as nat + second) as nat);
        assert(gate_outputs(m, first + second) =~= gate_outputs(m, first) + gate_outputs(
            gate_run(m, first),
            second,
        ));
    }
}

proof fn lemma_gate_on_phase(m: EnvelopeModel, samples: nat)
    requires
        m.gate_on_phase,
        m.on_sample_count + samples <= m.on_maximum_samples,
    ensures
        gate_outputs(m, samples) == repeated(GateState::On, samples),
        gate_run(m, samples) == (EnvelopeModel {
            on_sample_count: (m.on_sample_count + samples) as u32,
            ..m
        }),
    decreases samples,
{
    if samples == 0 {
        assert(gate_outputs(m, 0) =~= repeated(GateState::On, 0));
    } else {
        lemma_gate_on_phase(m.gate_next(), (samples - 1) as nat);
        assert(gate_outputs(m, samples) =~= repeated(GateState::On, samples));
    }
}

proof fn lemma_gate_off_phase(m: EnvelopeModel, samples: nat)
    requires
        !m.gate_in_on_phase(),
        m.gate_off_position() + samples <= m.off_maximum_samples,
        samples > 0,
    ensures
        gate_outputs(m, samples) == repeated(GateState::Off, samples),
        gate_run(m, samples) == (EnvelopeModel {
            gate_on_phase: false,
            on_sample_count: 0,
            off_sample_count: (m.gate_off_position() + samples) as u32,
            ..m
        }),
    decreases samples,
{
    let n = m.gate_next();
    if samples == 1 {
        assert(gate_outputs(n, 0) == Seq::<GateState>::empty());
        assert(gate_run(n, 0) == n);
        assert(gate_outputs(m, 1) =~= repeated(GateState::Off, 1));
    } else {
        lemma_gate_off_phase(n, (samples - 1) as nat);
        assert(gate_outputs(m, samples) =~= repeated(GateState::Off, samples));
    }
}

/// One cycle of the amplitude gate: from the start of a cycle, the next
/// `on + off + 1` samples report `On` exactly `on_maximum_samples` times, then `Off` exactly
/// `off_maximum_samples` times, then a single `End`, after which the next cycle starts.
pub proof fn lemma_gate_cycle(m: EnvelopeModel)
    requires
        m.gate_at_cycle_start(),
    ensures
        ({
            let on = m.on_maximum_samples as nat;
            let off = m.off_maximum_samples as nat;
            &&& gate_outputs(m, on + off + 1) == repeated(GateState::On, on) + repeated(
                GateState::Off,
                off,
            ) + seq![GateState::End]
            &&& gate_run(m, on + off + 1) == m
        }),
{
    let on = m.on_maximum_samples as nat;
    let off = m.off_maximum_samples as nat;
    lemma_gate_on_phase(m, on);
    let a = gate_run(m, on);
    lemma_gate_run_split(m, on, off + 1);
    lemma_gate_run_split(a, off, 1);
    let b = gate_run(a, off);
    if off > 0 {
        lemma_gate_off_phase(a, off);
    } else {
        assert(gate_run(a, 0) == a);
        assert(gate_outputs(a, 0) =~= repeated(GateState::Off, 0));
    }
    assert(gate_run(b.gate_next(), 0) == b.gate_next());
    assert(gate_outputs(b.gate_next(), 0) == Seq::<GateState>::empty());
    assert(gate_outputs(b, 1) =~= seq![GateState::End]);
    assert(gate_run(b, 1) == m);
    assert(gate_outputs(m, on + off + 1) =~= repeated(GateState::On, on) + repeated(
        GateState::Off,
        off,
    ) + seq![GateState::End]);
}

/// Orders the stages from the last of a cycle (release) to the first (attack).
pub open spec fn stage_rank(stage: ADSRStage) -> nat {
    match stage {
        ADSRStage::Attack => 3,
        ADSRStage::Decay => 2,
        ADSRStage::Sustain => 1,
        ADSRStage::Release => 0,
    }
}

/// The stage that a held note is in `samples` samples after `stage` began, with the stage
/// lengths of `m`; `None` once the release has ended.
pub open spec fn cycle_stage(m: EnvelopeModel, stage: ADSRStage, samples: nat) -> Option<
    ADSRStage,
>
    decreases stage_rank(stage),
{
    let steps = (EnvelopeModel { stage, ..m }).stage_steps() as nat;
    if samples <= steps {
        Some(stage)
    } else if stage == ADSRStage::Release {
        None
    } else {
        cycle_stage(m, next_stage(stage), (samples - steps - 1) as nat)
    }
}

/// The two envelopes have the same stage lengths and sustain level.
pub open spec fn same_settings(a: EnvelopeModel, b: EnvelopeModel) -> bool {
    &&& a.sample_rate == b.sample_rate
    &&& a.attack_milliseconds == b.attack_milliseconds
    &&& a.decay_milliseconds == b.decay_milliseconds
    &&& a.sustain_milliseconds == b.sustain_milliseconds
    &&& a.release_milliseconds == b.release_milliseconds
    &&& a.sustain_level_below_output == b.sustain_level_below_output
}

proof fn lemma_held_run_split(m: EnvelopeModel, output_level: i32, first: nat, second: nat)
    ensures
        adsr_run(m, output_level, MidiState::NoteHold, first + second) == adsr_run(
            adsr_run(m, output_level, MidiState::NoteHold, first),
            output_level,
            MidiState::NoteHold,
            second,
        ),
    decreases first,
{
    if first > 0 {
        lemma_held_run_split(
            m.adsr_next(output_level, MidiState::NoteHold),
            output_level,
            (first - 1) as nat,
            second,
        );
        assert((first + second - 1) as nat == ((first - 1) as nat + second) as nat);
    }
}

proof fn lemma_held_run_stopped(m: EnvelopeModel, output_level: i32, samples: nat)
    requires
        !m.playing,
    ensures
        adsr_run(m, output_level, MidiState::NoteHold, samples) == m,
    decreases samples,
{
    if samples > 0 {
        lemma_held_run_stopped(m, output_level, (samples - 1) as nat);
    }
}

proof fn lemma_held_within_stage(p: EnvelopeModel, output_level: i32, samples: nat)
    requires
        p.playing,
        p.stage_count + samples <= p.stage_steps(),
    ensures
        ({
            let r = adsr_run(p, output_level, MidiState::NoteHold, samples);
            &&& r.playing
            &&& r.stage == p.stage
            &&& r.stage_count == p.stage_count + samples
            &&& same_settings(r, p)
        }),
    decreases samples,
{
    if samples > 0 {
        lemma_held_within_stage(
            p.adsr_next(output_level, MidiState::NoteHold),
            output_level,
            (samples - 1) as nat,
        );
    }
}

proof fn lemma_held_from_stage_start(p: EnvelopeModel, output_level: i32, samples: nat)
    requires
        p.playing,
        p.stage_count == 0,
    ensures
        ({
            let r = adsr_run(p, output_level, MidiState::NoteHold, samples);
            match cycle_stage(p, p.stage, samples) {
                Some(stage) => r.playing && r.stage == stage,
                None => !r.playing,
            }
        }),
    decreases stage_rank(p.stage),
{
    let steps = p.stage_steps() as nat;
    assert((EnvelopeModel { stage: p.stage, ..p }) == p);
    if samples <= steps {
        lemma_held_within_stage(p, output_level, samples);
    } else {
        let rest = (samples - steps - 1) as nat;
        lemma_held_run_split(p, output_level, steps, (1 + rest) as nat);
        lemma_held_within_stage(p, output_level, steps);
        let q = adsr_run(p, output_level, MidiState::NoteHold, steps);
        lemma_held_run_split(q, output_level, 1, rest);
        let q1 = q.adsr_next(output_level, MidiState::NoteHold);
        assert(adsr_run(q1, output_level, MidiState::NoteHold, 0) == q1);
        assert(adsr_run(q, output_level, MidiState::NoteHold, 1) == q1);
        if p.stage == ADSRStage::Release {
            lemma_held_run_stopped(q1, output_level, rest);
        } else {
            lemma_held_from_stage_start(q1, output_level, rest);
            assert((EnvelopeModel { stage: q1.stage, ..q1 }).stage_steps() == (EnvelopeModel {
                stage: q1.stage,
                ..p
            }).stage_steps());
            assert(cycle_stage(q1, q1.stage, rest) == cycle_stage(p, q1.stage, rest)) by {
                lemma_cycle_stage_settings(q1, p, q1.stage, rest);
            }
        }
    }
}

proof fn lemma_cycle_stage_settings(a: EnvelopeModel, b: EnvelopeModel, stage: ADSRStage, samples: nat)
    requires
        same_settings(a, b),
    ensures
        cycle_stage(a, stage, samples) == cycle_stage(b, stage, samples),
    decreases stage_rank(stage),
{
    let steps = (EnvelopeModel { stage, ..a }).stage_steps() as nat;
    assert(steps == (EnvelopeModel { stage, ..b }).stage_steps() as nat);
    if samples > steps && stage != ADSRStage::Release {
        lemma_cycle_stage_settings(a, b, next_stage(stage), (samples - steps - 1) as nat);
    }
}

/// One note plays one envelope cycle: after a note-on reaches a stopped envelope, and no
/// other note-on follows, the envelope is in the stage that `cycle_stage` gives for the
/// number of samples since the note-on (attack, decay, sustain, release, in that order
/// and each for its full length), and stopped once the release is over.
pub proof fn lemma_one_note_plays_one_cycle(m: EnvelopeModel, output_level: i32, samples: nat)
    requires
        !m.playing,
        samples >= 1,
    ensures
        ({
            let r = adsr_run(m, output_level, MidiState::NoteOn, samples);
            match cycle_stage(m, ADSRStage::Attack, samples) {
                Some(stage) => r.playing && r.stage == stage,
                None => !r.playing,
            }
        }),
{
    let t = m.triggered(MidiState::NoteOn);
    assert(m.adsr_next(output_level, MidiState::NoteOn) == t.adsr_next(
        output_level,
        MidiState::NoteHold,
    ));
    assert(adsr_run(m, output_level, MidiState::NoteOn, samples) == adsr_run(
        t,
        output_level,
        MidiState::NoteHold,
        samples,
    ));
    lemma_held_from_stage_start(t, output_level, samples);
    lemma_cycle_stage_settings(t, m, ADSRStage::Attack, samples);
}

/// The cycle of one note lasts `a + d + s + r + 4` samples, where `a`, `d`, `s` and `r`
/// are the lengths of the stages in samples: the envelope plays before that and is
/// stopped from then on.
pub proof fn lemma_cycle_length(m: EnvelopeModel, samples: nat)
    ensures
        ({
            let a = samples_for_u32(m.sample_rate, m.attack_milliseconds) as nat;
            let d = samples_for_u32(m.sample_rate, m.decay_milliseconds) as nat;
            let s = samples_for_u32(m.sample_rate, m.sustain_milliseconds) as nat;
            let r = samples_for_u32(m.sample_rate, m.release_milliseconds) as nat;
            cycle_stage(m, ADSRStage::Attack, samples) is None <==> samples >= a + d + s + r + 4
        }),
{
    let a = samples_for_u32(m.sample_rate, m.attack_milliseconds) as nat;
    let d = samples_for_u32(m.sample_rate, m.decay_milliseconds) as nat;
    let s = samples_for_u32(m.sample_rate, m.sustain_milliseconds) as nat;
    if samples > a {
        let k1 = (samples - a - 1) as nat;
        if k1 > d {
            let k2 = (k1 - d - 1) as nat;
            if k2 > s {
                let k3 = (k2 - s - 1) as nat;
                assert(cycle_stage(m, ADSRStage::Release, k3) == cycle_stage(
                    m,
                    ADSRStage::Sustain,
                    k2,
                ));
            }
            assert(cycle_stage(m, ADSRStage::Sustain, k2) == cycle_stage(
                m,
                ADSRStage::Decay,
                k1,
            ));
        }
        assert(cycle_stage(m, ADSRStage::Decay, k1) == cycle_stage(
            m,
            ADSRStage::Attack,
            samples,
        ));
    }
}

proof fn lemma_run_never_exceeds_output_from(
    m: EnvelopeModel,
    output_level: i32,
    midi_state: MidiState,
    samples: nat,
)
    requires
        m.level <= output_level as int * MILLIBELS_PER_DB as int,
        m.stage_start_level <= output_level as int * MILLIBELS_PER_DB as int,
        MINIMUM_ENV_LEVEL <= output_level as int * MILLIBELS_PER_DB as int,
        m.sustain_level_below_output >= 0,
    ensures
        adsr_run(m, output_level, midi_state, samples).level <= output_level as int
            * MILLIBELS_PER_DB as int,
    decreases samples,
{
    if samples > 0 {
        lemma_adsr_never_exceeds_output(m, output_level, midi_state);
        lemma_run_never_exceeds_output_from(
            m.adsr_next(output_level, midi_state),
            output_level,
            midi_state_after(midi_state),
            (samples - 1) as nat,
        );
    }
}

/// Over any number of samples at one output level, whatever the note does, the envelope
/// of a fresh or stopped state never rises above the output level.
pub proof fn lemma_run_never_exceeds_output(
    m: EnvelopeModel,
    output_level: i32,
    midi_state: MidiState,
    samples: nat,
)
    requires
        m.level == MINIMUM_ENV_LEVEL,
        m.stage_start_level == MINIMUM_ENV_LEVEL,
        MINIMUM_ENV_LEVEL <= output_level as int * MILLIBELS_PER_DB as int,
        m.sustain_level_below_output >= 0,
    ensures
        adsr_run(m, output_level, midi_state, samples).level <= output_level as int
            * MILLIBELS_PER_DB as int,
{
    lemma_run_never_exceeds_output_from(m, output_level, midi_state, samples);
}

proof fn lemma_run_last_step(m: EnvelopeModel, output_level: i32, midi_state: MidiState, samples: nat)
    requires
        midi_state != MidiState::NoteOn,
    ensures
        adsr_run(m, output_level, midi_state, samples + 1) == adsr_run(
            m,
            output_level,
            midi_state,
            samples,
        ).adsr_next(output_level, midi_state),
    decreases samples,
{
    if samples > 0 {
        lemma_run_last_step(
            m.adsr_next(output_level, midi_state),
            output_level,
            midi_state,
            (samples - 1) as nat,
        );
        assert((samples + 1 - 1) as nat == ((samples - 1) as nat + 1) as nat);
    } else {
        let n = m.adsr_next(output_level, midi_state);
        assert(adsr_run(n, output_level, midi_state, 0) == n);
    }
}

/// Over any run of samples without a note-on, no stage is skipped or reordered: each sample
/// keeps the stage or moves to the one that follows it, and the move from release back to
/// attack happens exactly on the sample where the envelope stops.
pub proof fn lemma_stage_order_over_run(
    m: EnvelopeModel,
    output_level: i32,
    midi_state: MidiState,
    samples: nat,
)
    requires
        midi_state != MidiState::NoteOn,
    ensures
        ({
            let before = adsr_run(m, output_level, midi_state, samples);
            let after = adsr_run(m, output_level, midi_state, samples + 1);
            &&& after.stage == before.stage || after.stage == next_stage(before.stage)
            &&& before.playing && !after.playing ==> before.stage == ADSRStage::Release
                && after.stage == ADSRStage::Attack
            &&& before.stage == ADSRStage::Release && after.stage == ADSRStage::Attack
                ==> !after.playing
            &&& !before.playing ==> after == before
        }),
{
    lemma_run_last_step(m, output_level, midi_state, samples);
    lemma_stage_order(adsr_run(m, output_level, midi_state, samples), output_level, midi_state);
}

} // verus!
