use vstd::prelude::*;

verus! {

/// The ratio, in thousandths, that makes the compressor a limiter.
pub const FIXED_LIMIT_RATIO: u16 = 50;
/// Thousandths in a whole ratio.
pub const RATIO_SCALE: i64 = 1000;

/// What a dynamics stage does to one sample, in the dB domain.
#[derive(Debug, Clone, Copy, PartialEq, Eq, Structural)]
pub enum SampleGain {
    /// Multiply the sample by this gain, in millibels.
    Scale(i64),
    /// Give the sample this level, in millibels relative to full scale, keeping its sign.
    SetLevel(i64),
}

/// Compressor, limiter, clipper and wavefolder. Every level is in millibels (hundredths of a
/// dB) relative to full scale, every ratio in thousandths; a sample level of `None` is
/// silence.
pub struct Dynamics {}

/// Makeup gain, in millibels, that brings a level limited to `threshold_x1000 / 1000` back
/// to `output_level`: none when the output level is not above it. Rounded down.
pub open spec fn makeup_gain_x1000(threshold_x1000: int, output_level: int) -> int {
    if output_level * 1000 <= threshold_x1000 {
        0
    } else {
        (output_level * 1000 - threshold_x1000) / 1000
    }
}

/// Makeup gain, in millibels, for a threshold and an output level.
pub open spec fn makeup_gain(threshold: int, output_level: int) -> int {
    if output_level <= threshold {
        0
    } else {
        output_level - threshold
    }
}

/// Whether a stage leaves the sample's shape alone: it is silent or not above the
/// threshold, or the output level itself is not above it.
pub open spec fn passes_through(output_level: i32, threshold: i32, sample_level: Option<i32>)
    -> bool {
    match sample_level {
        None => true,
        Some(level) => level <= threshold || output_level <= threshold,
    }
}

/// The compressor: above the threshold, the excess level is scaled by `ratio`; the result
/// is raised by the makeup gain for the threshold scaled by `1 - ratio`.
pub open spec fn compressed(output_level: i32, threshold: i32, ratio: u16, sample_level: Option<i32>)
    -> SampleGain {
    let makeup = makeup_gain_x1000(threshold * (1000 - ratio), output_level as int);
    if passes_through(output_level, threshold, sample_level) {
        SampleGain::Scale(makeup as i64)
    } else {
        let delta = sample_level->0 - threshold;
        SampleGain::SetLevel((threshold + delta * ratio / 1000 + makeup) as i64)
    }
}

/// The wavefolder: above the threshold, the excess level, scaled by `ratio`, is folded
/// back below it; the result is raised by the makeup gain for the threshold.
pub open spec fn wave_folded(output_level: i32, threshold: i32, ratio: u16, sample_level: Option<i32>)
    -> SampleGain {
    let makeup = makeup_gain(threshold as int, output_level as int);
    if passes_through(output_level, threshold, sample_level) {
        SampleGain::Scale(makeup as i64)
    } else {
        let delta = sample_level->0 - threshold;
        SampleGain::SetLevel((threshold - delta * ratio / 1000 + makeup) as i64)
    }
}

/// The clipper: above the threshold, the level is held at it; the result is raised by the
/// makeup gain for the threshold.
pub open spec fn clipped(output_level: i32, threshold: i32, sample_level: Option<i32>)
    -> SampleGain {
    let makeup = makeup_gain(threshold as int, output_level as int);
    if passes_through(output_level, threshold, sample_level) {
        SampleGain::Scale(makeup as i64)
    } else {
        SampleGain::SetLevel((threshold + makeup) as i64)
    }
}

fn makeup_gain_x1000_exec(threshold_x1000: i64, output_level: i32) -> (r: i64)
    requires
        -0x1_0000_0000_0000 <= threshold_x1000 <= 0x1_0000_0000_0000,
    ensures
        r == makeup_gain_x1000(threshold_x1000 as int, output_level as int),
        0 <= r <= 0x1_0000_0000_0000,
{
    let output_x1000: i64 = output_level as i64 * RATIO_SCALE;
    if output_x1000 <= threshold_x1000 {
        0
    } else {
        (output_x1000 - threshold_x1000) / RATIO_SCALE
    }
}

fn scaled_excess(delta: i64, ratio: u16) -> (r: i64)
    requires
        0 < delta <= 0x1_0000_0000,
    ensures
        r == delta * ratio / 1000,
        0 <= r <= 0x1_0000_0000_0000,
{
    proof {
        assert(0 <= delta * ratio <= 0x1_0000_0000 * 0x1_0000) by (nonlinear_arith)
            requires
                0 < delta <= 0x1_0000_0000,
                0 <= ratio <= 0xffff,
        ;
    }
    delta * ratio as i64 / RATIO_SCALE
}

impl Dynamics {
    pub fn new() -> (r: Self) {
        Dynamics {  }
    }

    pub fn compress(&self, output_level: i32, threshold: i32, ratio: u16, sample_level: Option<i32>)
        -> (r: SampleGain)
        ensures
            r == compressed(output_level, threshold, ratio, sample_level),
    {
        proof {
            assert(-0x1_0000_0000_0000 <= threshold * (1000 - ratio) <= 0x1_0000_0000_0000)
                by (nonlinear_arith)
                requires
                    -0x8000_0000 <= threshold <= 0x7fff_ffff,
                    0 <= ratio <= 0xffff,
            ;
        }
        let threshold_x1000: i64 = threshold as i64 * (RATIO_SCALE - ratio as i64);
        let makeup = makeup_gain_x1000_exec(threshold_x1000, output_level);
        match sample_level {
            Some(level) => {
                if level <= threshold || output_level <= threshold {
                    SampleGain::Scale(makeup)
                } else {
                    let excess = scaled_excess(level as i64 - threshold as i64, ratio);
                    SampleGain::SetLevel(threshold as i64 + excess + makeup)
                }
            },
            None => SampleGain::Scale(makeup),
        }
    }

    /// A compressor with the steep ratio `FIXED_LIMIT_RATIO`.
    pub fn limit(&self, output_level: i32, threshold: i32, sample_level: Option<i32>) -> (r:
        SampleGain)
        ensures
            r == compressed(output_level, threshold, FIXED_LIMIT_RATIO, sample_level),
    {
        self.compress(output_level, threshold, FIXED_LIMIT_RATIO, sample_level)
    }

    pub fn clip(&self, output_level: i32, threshold: i32, sample_level: Option<i32>) -> (r:
        SampleGain)
        ensures
            r == clipped(output_level, threshold, sample_level),
    {
        let makeup = self.get_makeup_gain(threshold, output_level);
        match sample_level {
            Some(level) => {
                if level <= threshold || output_level <= threshold {
                    SampleGain::Scale(makeup)
                } else {
                    SampleGain::SetLevel(threshold as i64 + makeup)
                }
            },
            None => SampleGain::Scale(makeup),
        }
    }

    pub fn wave_fold(&self, output_level: i32, threshold: i32, ratio: u16, sample_level: Option<i32>)
        -> (r: SampleGain)
        ensures
            r == wave_folded(output_level, threshold, ratio, sample_level),
    {
        let makeup = self.get_makeup_gain(threshold, output_level);
        match sample_level {
            Some(level) => {
                if level <= threshold || output_level <= threshold {
                    SampleGain::Scale(makeup)
                } else {
                    let excess = scaled_excess(level as i64 - threshold as i64, ratio);
                    SampleGain::SetLevel(threshold as i64 - excess + makeup)
                }
            },
            None => SampleGain::Scale(makeup),
        }
    }

    /// Gain, in millibels, that lifts a signal limited to `threshold` to `output_level`.
    pub fn get_makeup_gain(&self, threshold: i32, output_level: i32) -> (r: i64)
        ensures
            r == makeup_gain(threshold as int, output_level as int),
    {
        if output_level <= threshold {
            0
        } else {
            output_level as i64 - threshold as i64
        }
    }
}

/// A sample exactly at the threshold counts as not above it: the compressor leaves it as
/// it is but for the makeup gain.
pub proof fn lemma_compress_at_threshold(output_level: i32, threshold: i32, ratio: u16)
    ensures
        compressed(output_level, threshold, ratio, Some(threshold)) == SampleGain::Scale(
            makeup_gain_x1000(threshold * (1000 - ratio), output_level as int) as i64,
        ),
{
}

} // verus!
