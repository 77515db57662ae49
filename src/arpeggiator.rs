use vstd::prelude::*;

use rand::Rng;

verus! {

/// Number of notes that MIDI can name.
pub const NUMBER_OF_MIDI_NOTES: u16 = 128;
/// The rest: a note number past the last MIDI note, which sounds as silence.
pub const FIRST_REST_NOTE: u16 = 128;
/// Frequency of a rest, in millihertz.
pub const REST_FREQUENCY: u32 = 0;

#[derive(Clone, Copy, Debug, PartialEq, Eq, Structural)]
pub enum ArpeggiatorType {
    NoteOrder,
    Randomize,
}

/// A sequence of MIDI note numbers that is stepped through, in order or at random.
#[derive(Debug)]
pub struct Arpeggiator {
    sequence: Vec<u16>,
    sequence_index: usize,
}

/// The frequencies of the MIDI notes, in millihertz.
pub open spec fn midi_note_frequencies() -> Seq<u32> {
    seq![
        8175, 8662, 9177, 9722, 10300, 10913, 11562, 12249,
        12978, 13750, 14567, 15433, 16351, 17323, 18354, 19445,
        20601, 21826, 23124, 24499, 25956, 27500, 29135, 30867,
        32703, 34647, 36708, 38890, 41203, 43653, 46249, 48999,
        51913, 55000, 58270, 61735, 65406, 69295, 73416, 77781,
        82406, 87307, 92498, 97998, 103826, 110000, 116540, 123470,
        130812, 138591, 146832, 155563, 164813, 174614, 184997, 195997,
        207652, 220000, 233081, 246941, 261625, 277182, 293664, 311127,
        329627, 349228, 369994, 391995, 415304, 440000, 466163, 493883,
        523251, 554365, 587329, 622254, 659255, 698456, 739988, 783990,
        830609, 880000, 932327, 987766, 1046502, 1108730, 1174659, 1244507,
        1318510, 1396912, 1479977, 1567981, 1661218, 1760000, 1864655, 1975533,
        2093004, 2217461, 2349318, 2489015, 2637020, 2793825, 2959955, 3135963,
        3322437, 3520000, 3729310, 3951066, 4186009, 4434922, 4698636, 4978031,
        5274040, 5587651, 5919910, 6271927, 6644875, 7040000, 7458620, 7902132,
        8372018, 8869844, 9397272, 9956063, 10548081, 11175303, 11839821, 12543854,
    ]
}

/// The sequence after `add_note`: a note replaces a lone rest, and is appended when it
/// is not there yet.
pub open spec fn sequence_with_note(sequence: Seq<u16>, note: u16) -> Seq<u16> {
    if sequence == seq![FIRST_REST_NOTE] {
        seq![note]
    } else if sequence.contains(note) {
        sequence
    } else {
        sequence.push(note)
    }
}

/// The sequence after `remove_note`: the first occurrence of the note goes; the last note
/// of the sequence gives way to a rest instead.
pub open spec fn sequence_without_note(sequence: Seq<u16>, note: u16) -> Seq<u16> {
    if !sequence.contains(note) {
        sequence
    } else if sequence.len() == 1 {
        seq![FIRST_REST_NOTE]
    } else {
        sequence.remove(first_position_of(sequence, note))
    }
}

/// Where `note` first occurs in `sequence`.
pub open spec fn first_position_of(sequence: Seq<u16>, note: u16) -> int {
    choose|i: int|
        0 <= i < sequence.len() && sequence[i] == note && forall|j: int|
            0 <= j < i ==> sequence[j] != note
}

/// The position that follows `index` in a sequence of `len` notes, wrapping to the start.
pub open spec fn next_index(index: int, len: int) -> int {
    if index < len - 1 {
        index + 1
    } else {
        0
    }
}

impl View for Arpeggiator {
    type V = (Seq<u16>, int);

    closed spec fn view(&self) -> (Seq<u16>, int) {
        (self.sequence@, self.sequence_index as int)
    }
}

impl Arpeggiator {
    /// The sequence is never empty, and the position is not negative.
    pub open spec fn wf(self) -> bool {
        self@.0.len() > 0 && self@.1 >= 0
    }

    /// An arpeggiator over `sequence`, or over a lone rest when `sequence` is empty.
    pub fn new(sequence: Vec<u16>) -> (r: Arpeggiator)
        ensures
            r.wf(),
            r@.1 == 0,
            sequence@.len() > 0 ==> r@.0 == sequence@,
            sequence@.len() == 0 ==> r@.0 == seq![FIRST_REST_NOTE],
    {
        let mut sequence = sequence;
        if sequence.len() == 0 {
            sequence.push(FIRST_REST_NOTE);
            assert(sequence@ =~= seq![FIRST_REST_NOTE]);
        }
        Arpeggiator { sequence, sequence_index: 0 }
    }

    fn position_of(&self, note_number: u16) -> (r: Option<usize>)
        ensures
            r is None <==> !self@.0.contains(note_number),
            r is Some ==> r->0 == first_position_of(self@.0, note_number),
            r is Some ==> r->0 < self@.0.len(),
    {
        let mut i: usize = 0;
        while i < self.sequence.len()
            invariant
                i <= self.sequence@.len(),
                forall|j: int| 0 <= j < i ==> self.sequence@[j] != note_number,
            decreases self.sequence@.len() - i,
        {
            if self.sequence[i] == note_number {
                proof {
                    let s = self.sequence@;
                    assert(0 <= i < s.len() && s[i as int] == note_number && forall|j: int|
                        0 <= j < i ==> s[j] != note_number);
                    let k = first_position_of(s, note_number);
                    assert(k == i as int) by {
                        if k < i as int {
                            assert(s[k] != note_number);
                        } else if k > i as int {
                            assert(s[i as int] != note_number);
                        }
                    }
                }
                return Some(i);
            }
            i += 1;
        }
        None
    }

    pub fn add_note(&mut self, note_number: u16)
        requires
            old(self).wf(),
        ensures
            final(self).wf(),
            final(self)@.0 == sequence_with_note(old(self)@.0, note_number),
            final(self)@.1 == old(self)@.1,
    {
        if self.sequence.len() == 1 && self.sequence[0] == FIRST_REST_NOTE {
            assert(self.sequence@ =~= seq![FIRST_REST_NOTE]);
            self.sequence.push(note_number);
            self.sequence.remove(0);
            assert(self.sequence@ =~= seq![note_number]);
            return;
        }
        assert(self.sequence@ != seq![FIRST_REST_NOTE]);
        if self.position_of(note_number).is_none() {
            self.sequence.push(note_number);
        }
    }

    pub fn remove_note(&mut self, note_number: u16)
        requires
            old(self).wf(),
        ensures
            final(self).wf(),
            final(self)@.0 == sequence_without_note(old(self)@.0, note_number),
            final(self)@.1 == old(self)@.1,
    {
        match self.position_of(note_number) {
            None => {},
            Some(note_index) => {
                if self.sequence.len() == 1 {
                    self.sequence.push(FIRST_REST_NOTE);
                    self.sequence.remove(0);
                    assert(self.sequence@ =~= seq![FIRST_REST_NOTE]);
                } else {
                    self.sequence.remove(note_index);
                }
            },
        }
    }

    /// Steps to the next position and returns a note: the one there for `NoteOrder`, the
    /// one at `random_index` for `Randomize`.
    pub fn select_next_midi_note(&mut self, state: ArpeggiatorType, random_index: usize) -> (r: u16)
        requires
            old(self).wf(),
            random_index < old(self)@.0.len(),
        ensures
            final(self).wf(),
            final(self)@.0 == old(self)@.0,
            final(self)@.1 == next_index(old(self)@.1, old(self)@.0.len() as int),
            state == ArpeggiatorType::NoteOrder ==> r == final(self)@.0[final(self)@.1],
            state == ArpeggiatorType::Randomize ==> r == old(self)@.0[random_index as int],
            old(self)@.0.contains(r),
    {
        if self.sequence_index < self.sequence.len() - 1 {
            self.sequence_index = self.sequence_index + 1;
        } else {
            self.sequence_index = 0;
        }
        let position = match state {
            ArpeggiatorType::NoteOrder => self.sequence_index,
            ArpeggiatorType::Randomize => random_index,
        };
        let note = self.sequence[position];
        assert(self.sequence@[position as int] == note);
        note
    }

    /// Steps to the next position and returns a note: the one there for `NoteOrder`, one
    /// drawn at random from the sequence for `Randomize`.
    pub fn next_midi_note(&mut self, state: ArpeggiatorType) -> (r: u16)
        requires
            old(self).wf(),
        ensures
            final(self).wf(),
            final(self)@.0 == old(self)@.0,
            final(self)@.1 == next_index(old(self)@.1, old(self)@.0.len() as int),
            state == ArpeggiatorType::NoteOrder ==> r == final(self)@.0[final(self)@.1],
            old(self)@.0.contains(r),
    {
        let random_index = match state {
            ArpeggiatorType::NoteOrder => 0,
            ArpeggiatorType::Randomize => random_index_below(self.sequence.len()),
        };
        self.select_next_midi_note(state, random_index)
    }

    /// Frequency of a MIDI note, in millihertz; a rest, or any number past the last MIDI
    /// note, is silent.
    pub fn get_frequency_from_midi_note(&self, midi_note: u16) -> (r: u32)
        ensures
            midi_note >= NUMBER_OF_MIDI_NOTES ==> r == REST_FREQUENCY,
            midi_note < NUMBER_OF_MIDI_NOTES ==> r == midi_note_frequencies()[midi_note as int],
    {
        frequency_of_midi_note(midi_note)
    }

    pub fn sequence(&self) -> (r: &Vec<u16>)
        ensures
            r@ == self@.0,
    {
        &self.sequence
    }
}

fn frequency_of_midi_note(midi_note: u16) -> (r: u32)
    ensures
        midi_note >= NUMBER_OF_MIDI_NOTES ==> r == REST_FREQUENCY,
        midi_note < NUMBER_OF_MIDI_NOTES ==> r == midi_note_frequencies()[midi_note as int],
{
    if midi_note >= NUMBER_OF_MIDI_NOTES {
        return REST_FREQUENCY;
    }
    let table: [u32; 128] = [
        8175, 8662, 9177, 9722, 10300, 10913, 11562, 12249,
        12978, 13750, 14567, 15433, 16351, 17323, 18354, 19445,
        20601, 21826, 23124, 24499, 25956, 27500, 29135, 30867,
        32703, 34647, 36708, 38890, 41203, 43653, 46249, 48999,
        51913, 55000, 58270, 61735, 65406, 69295, 73416, 77781,
        82406, 87307, 92498, 97998, 103826, 110000, 116540, 123470,
        130812, 138591, 146832, 155563, 164813, 174614, 184997, 195997,
        207652, 220000, 233081, 246941, 261625, 277182, 293664, 311127,
        329627, 349228, 369994, 391995, 415304, 440000, 466163, 493883,
        523251, 554365, 587329, 622254, 659255, 698456, 739988, 783990,
        830609, 880000, 932327, 987766, 1046502, 1108730, 1174659, 1244507,
        1318510, 1396912, 1479977, 1567981, 1661218, 1760000, 1864655, 1975533,
        2093004, 2217461, 2349318, 2489015, 2637020, 2793825, 2959955, 3135963,
        3322437, 3520000, 3729310, 3951066, 4186009, 4434922, 4698636, 4978031,
        5274040, 5587651, 5919910, 6271927, 6644875, 7040000, 7458620, 7902132,
        8372018, 8869844, 9397272, 9956063, 10548081, 11175303, 11839821, 12543854,
    ];
    assert(table@ =~= midi_note_frequencies());
    table[midi_note as usize]
}

/// Relies on rand's `Rng::random_range` on the thread-local generator: a value drawn
/// from `0..len`, which panics on an empty range.
#[verifier::external_body]
fn random_index_below(len: usize) -> (r: usize)
    requires
        len > 0,
    ensures
        r < len,
{
    rand::rng().random_range(0..len)
}

/// Frequency, in millihertz, of the note `interval` semitones from `midi_note`; silent for
/// a rest and for a note that the transposition takes out of the MIDI range.
pub open spec fn transposed_frequency(midi_note: u16, interval: i32) -> u32 {
    let note = midi_note as int + interval as int;
    if midi_note >= FIRST_REST_NOTE || note < 0 || note >= NUMBER_OF_MIDI_NOTES as int {
        REST_FREQUENCY
    } else {
        midi_note_frequencies()[note]
    }
}

/// Frequency, in millihertz, that an oscillator tuned `interval` semitones away plays for
/// `midi_note`.
pub fn get_frequency_from_midi_note_and_osc_interval(
    arpeggiator: &Arpeggiator,
    midi_note: u16,
    interval: i32,
) -> (r: u32)
    ensures
        r == transposed_frequency(midi_note, interval),
{
    if midi_note >= FIRST_REST_NOTE {
        return REST_FREQUENCY;
    }
    let note: i64 = midi_note as i64 + interval as i64;
    if note < 0 || note >= NUMBER_OF_MIDI_NOTES as i64 {
        return REST_FREQUENCY;
    }
    arpeggiator.get_frequency_from_midi_note(note as u16)
}

/// The position reached from `index` after `steps` steps through `len` notes.
pub open spec fn index_after(index: int, len: int, steps: nat) -> int
    decreases steps,
{
    if steps == 0 {
        index
    } else {
        next_index(index_after(index, len, (steps - 1) as nat), len)
    }
}

/// The sequence never empties: removing its only note leaves a rest, and a note added then
/// takes the rest's place.
pub proof fn lemma_remove_last_note_then_add(note: u16, added: u16)
    ensures
        sequence_without_note(seq![note], note) == seq![FIRST_REST_NOTE],
        sequence_with_note(sequence_without_note(seq![note], note), added) == seq![added],
{
    assert(seq![note][0] == note);
    assert(seq![note].contains(note));
}

/// Adding and removing notes keep the sequence non-empty.
pub proof fn lemma_sequence_never_empty(sequence: Seq<u16>, note: u16)
    requires
        sequence.len() > 0,
    ensures
        sequence_with_note(sequence, note).len() > 0,
        sequence_without_note(sequence, note).len() > 0,
{
    if sequence.contains(note) {
        sequence.index_of_first_ensures(note);
        let i = sequence.index_of_first(note)->0;
        assert(0 <= i < sequence.len() && sequence[i] == note && forall|j: int|
            0 <= j < i ==> sequence[j] != note);
    }
}

/// Stepping in note order from position `index` reaches position `(index + steps) % len`,
/// so the `k`-th note given is the one at that position.
pub proof fn lemma_index_after_is_mod(index: int, len: int, steps: nat)
    requires
        0 <= index < len,
    ensures
        index_after(index, len, steps) == (index + steps) % len,
    decreases steps,
{
    if steps == 0 {
        vstd::arithmetic::div_mod::lemma_small_mod(index as nat, len as nat);
    } else {
        lemma_index_after_is_mod(index, len, (steps - 1) as nat);
        let a = (index + steps - 1) % len;
        vstd::arithmetic::div_mod::lemma_mod_bound(index + steps - 1, len);
        vstd::arithmetic::div_mod::lemma_add_mod_noop(index + steps - 1, 1, len);
        if len == 1 {
            vstd::arithmetic::div_mod::lemma_mod_self_0(1);
            vstd::arithmetic::div_mod::lemma_mod_bound(index + steps, 1);
        } else {
            vstd::arithmetic::div_mod::lemma_small_mod(1, len as nat);
            if a < len - 1 {
                vstd::arithmetic::div_mod::lemma_small_mod((a + 1) as nat, len as nat);
            } else {
                vstd::arithmetic::div_mod::lemma_mod_self_0(len);
            }
        }
    }
}

/// Steps that lead from position `index` to position `p` in a sequence of `len` notes.
pub open spec fn steps_to(index: int, p: int, len: int) -> nat {
    if p > index {
        (p - index) as nat
    } else {
        (p - index + len) as nat
    }
}

/// Stepping in note order visits every position of the sequence once before it repeats:
/// the positions reached by the first `len` steps from `index` are all different, every
/// position is among them, and the last of them is `index` again.
pub proof fn lemma_note_order_cycles(index: int, len: int)
    requires
        0 <= index < len,
    ensures
        forall|k1: nat, k2: nat|
            1 <= k1 < k2 <= len ==> index_after(index, len, k1) != index_after(index, len, k2),
        forall|p: int|
            0 <= p < len ==> 1 <= #[trigger] steps_to(index, p, len) <= len && index_after(
                index,
                len,
                steps_to(index, p, len),
            ) == p,
        index_after(index, len, len as nat) == index,
{
    assert forall|k1: nat, k2: nat| 1 <= k1 < k2 <= len implies index_after(index, len, k1)
        != index_after(index, len, k2) by {
        lemma_index_after_is_mod(index, len, k1);
        lemma_index_after_is_mod(index, len, k2);
        vstd::arithmetic::div_mod::lemma_mod_equivalence(index + k2, index + k1, len);
        vstd::arithmetic::div_mod::lemma_small_mod((k2 - k1) as nat, len as nat);
    }
    assert forall|p: int| 0 <= p < len implies 1 <= #[trigger] steps_to(index, p, len) <= len
        && index_after(index, len, steps_to(index, p, len)) == p by {
        let k = steps_to(index, p, len);
        lemma_index_after_is_mod(index, len, k);
        if p > index {
            vstd::arithmetic::div_mod::lemma_small_mod(p as nat, len as nat);
        } else {
            vstd::arithmetic::div_mod::lemma_mod_add_multiples_vanish(p, len);
            vstd::arithmetic::div_mod::lemma_small_mod(p as nat, len as nat);
        }
        assert(index_after(index, len, k) == p);
    }
    lemma_index_after_is_mod(index, len, len as nat);
    vstd::arithmetic::div_mod::lemma_mod_add_multiples_vanish(index, len);
    vstd::arithmetic::div_mod::lemma_small_mod(index as nat, len as nat);
}

} // verus!
