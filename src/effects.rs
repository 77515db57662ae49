use vstd::prelude::*;

verus! {

/// Longest delay of the phaser, in samples.
pub const PHASER_MAX_WIDTH_VALUE: usize = 126;

/// A fixed number of the most recent samples, newest first; pushing a sample drops the
/// oldest.
pub struct DelayLine<T> {
    samples: Vec<T>,
    newest: usize,
}

/// `index` brought back into `0..len` when it has run at most one length past it.
pub open spec fn wrapped(index: int, len: int) -> int {
    if index < len {
        index
    } else {
        index - len
    }
}

impl<T: Copy> View for DelayLine<T> {
    type V = Seq<T>;

    closed spec fn view(&self) -> Seq<T> {
        Seq::new(
            self.samples@.len(),
            |age: int| self.samples@[wrapped(self.newest + age, self.samples@.len() as int)],
        )
    }
}

impl<T: Copy> DelayLine<T> {
    pub closed spec fn wf(&self) -> bool {
        self.samples@.len() > 0 && self.newest < self.samples@.len()
    }

    /// A delay line of `capacity` samples, all `silence`.
    pub fn new(capacity: usize, silence: T) -> (r: Self)
        requires
            capacity > 0,
        ensures
            r.wf(),
            r@ == Seq::new(capacity as nat, |age: int| silence),
    {
        let mut samples: Vec<T> = Vec::new();
        while samples.len() < capacity
            invariant
                samples@.len() <= capacity,
                forall|i: int| 0 <= i < samples@.len() ==> samples@[i] == silence,
            decreases capacity - samples@.len(),
        {
            samples.push(silence);
        }
        let r = DelayLine { samples, newest: 0 };
        assert(r@ =~= Seq::new(capacity as nat, |age: int| silence));
        r
    }

    /// Number of samples held.
    pub fn capacity(&self) -> (r: usize)
        requires
            self.wf(),
        ensures
            r == self@.len(),
            r > 0,
    {
        self.samples.len()
    }

    /// Keeps `sample` as the newest and lets the oldest go.
    pub fn push(&mut self, sample: T)
        requires
            old(self).wf(),
        ensures
            final(self).wf(),
            final(self)@ == seq![sample] + old(self)@.drop_last(),
    {
        let len = self.samples.len();
        let newest = if self.newest == 0 {
            len - 1
        } else {
            self.newest - 1
        };
        let ghost before = self.samples@;
        self.samples.set(newest, sample);
        self.newest = newest;
        assert forall|age: int| 1 <= age < len implies #[trigger] self.samples@[wrapped(
            newest + age,
            len as int,
        )] == before[wrapped(old(self).newest + (age - 1), len as int)] by {
            assert(wrapped(newest + age, len as int) != newest);
        }
        assert(self@ =~= seq![sample] + old(self)@.drop_last());
    }

    /// The sample pushed `age` pushes before the newest one.
    pub fn sample_at(&self, age: usize) -> (r: T)
        requires
            self.wf(),
            age < self@.len(),
        ensures
            r == self@[age as int],
    {
        let len = self.samples.len();
        let index = if age < len - self.newest {
            self.newest + age
        } else {
            age - (len - self.newest)
        };
        self.samples[index]
    }
}

/// How many samples back the phaser reads for a delay of `shift` samples: the longest
/// delay less the shift, held to the delay line.
pub open spec fn phaser_age(shift: i64) -> int {
    if shift <= 0 {
        PHASER_MAX_WIDTH_VALUE as int
    } else if shift >= PHASER_MAX_WIDTH_VALUE as int {
        0
    } else {
        PHASER_MAX_WIDTH_VALUE as int - shift
    }
}

pub fn get_phaser_delay_age(shift: i64) -> (r: usize)
    ensures
        r == phaser_age(shift),
        r <= PHASER_MAX_WIDTH_VALUE,
{
    if shift <= 0 {
        PHASER_MAX_WIDTH_VALUE
    } else if shift >= PHASER_MAX_WIDTH_VALUE as i64 {
        0
    } else {
        PHASER_MAX_WIDTH_VALUE - shift as usize
    }
}

/// Number of quantization steps per unit of amplitude at a bit depth: `2^depth / 2`.
pub fn get_bitcrush_levels(bit_depth: u32) -> (r: u32)
    requires
        bit_depth < 32,
    ensures
        r == vstd::arithmetic::power2::pow2(bit_depth as nat) / 2,
{
    let mut power: u32 = 1;
    let mut i: u32 = 0;
    proof {
        vstd::arithmetic::power2::lemma2_to64();
    }
    while i < bit_depth
        invariant
            i <= bit_depth < 32,
            power == vstd::arithmetic::power2::pow2(i as nat),
        decreases bit_depth - i,
    {
        proof {
            vstd::arithmetic::power2::lemma_pow2_unfold((i + 1) as nat);
            vstd::arithmetic::power2::lemma_pow2_strictly_increases((i + 1) as nat, 32);
            vstd::arithmetic::power2::lemma2_to64();
        }
        power = power * 2;
        i += 1;
    }
    power / 2
}

} // verus!
