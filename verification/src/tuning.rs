//! The scaling between a frequency tuning word and the output frequency.

use vstd::prelude::*;

verus! {

/// Output frequency of a tuning word: `tuning_word * clock_hz / 2^32`,
/// rounded down to whole hertz.
pub open spec fn output_frequency_spec(tuning_word: u32, clock_hz: u64) -> int {
    (tuning_word as int * clock_hz as int) / 0x1_0000_0000
}

/// The frequency, in whole hertz, that the chip puts out for `tuning_word`
/// when its system clock runs at `clock_hz`.
pub fn output_frequency_hz(tuning_word: u32, clock_hz: u64) -> (hertz: u64)
    ensures
        hertz == output_frequency_spec(tuning_word, clock_hz),
        hertz <= clock_hz,
{
    let word: u128 = tuning_word as u128;
    let clock: u128 = clock_hz as u128;
    assert(word * clock <= 0xffff_ffff * clock) by (nonlinear_arith)
        requires
            word <= 0xffff_ffff,
            clock >= 0,
    ;
    let product: u128 = word * clock;
    let scaled: u128 = product / 0x1_0000_0000u128;
    assert(scaled <= clock);
    scaled as u64
}

} // verus!
