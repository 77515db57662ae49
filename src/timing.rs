use vstd::prelude::*;

verus! {

/// The number of samples that `milliseconds` last at `sample_rate`, rounded to nearest.
pub open spec fn samples_for(sample_rate: u32, milliseconds: u32) -> int {
    (sample_rate as int * milliseconds as int + 500) / 1000
}

/// `samples_for`, saturated to what a `u32` holds.
pub open spec fn samples_for_u32(sample_rate: u32, milliseconds: u32) -> u32 {
    if samples_for(sample_rate, milliseconds) > u32::MAX as int {
        u32::MAX
    } else {
        samples_for(sample_rate, milliseconds) as u32
    }
}

/// Number of samples that last `milliseconds` at `sample_rate`, rounded to the nearest.
pub fn get_number_of_samples_from_milliseconds(sample_rate: u32, milliseconds: u32) -> (r: u32)
    ensures
        r == samples_for_u32(sample_rate, milliseconds),
{
    proof {
        assert(sample_rate as int * milliseconds as int <= u32::MAX as int * u32::MAX as int)
            by (nonlinear_arith);
    }
    let product: u64 = sample_rate as u64 * milliseconds as u64;
    let rounded: u64 = (product + 500) / 1000;
    if rounded > u32::MAX as u64 {
        u32::MAX
    } else {
        rounded as u32
    }
}

} // verus!
