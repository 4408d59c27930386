//! Sample counts as milliseconds.
use crate::arith::{cap_u64, saturating_mul_u64};
use vstd::prelude::*;

verus! {

/// Milliseconds nearest to a count of samples, halves rounded up, with both steps stopping at the
/// largest `u64`.
pub open spec fn millis_of_samples(samples: int, sample_rate: int) -> int {
    cap_u64(cap_u64(samples * 1_000) + sample_rate / 2) / sample_rate
}

/// Why a count of samples is not a duration.
#[derive(Debug, Clone, Copy, PartialEq, Eq, Structural)]
pub struct ZeroSampleRate;

impl ZeroSampleRate {
    /// The error in words.
    pub fn message(self) -> (r: &'static str)
        ensures
            r@ == "AEP1 sample rate must be positive"@,
    {
        "AEP1 sample rate must be positive"
    }
}

/// Brings a count of samples to milliseconds.
pub fn samples_to_millis(samples: u64, sample_rate: u32) -> (r: Result<u64, ZeroSampleRate>)
    ensures
        r is Err <==> sample_rate == 0,
        r matches Ok(ms) ==> ms == millis_of_samples(samples as int, sample_rate as int),
{
    if sample_rate == 0 {
        return Err(ZeroSampleRate);
    }
    Ok(
        saturating_mul_u64(samples, 1_000).saturating_add(sample_rate as u64 / 2)
            / sample_rate as u64,
    )
}

/// The milliseconds of a count of samples are the nearest to it, halves rounded up, and more samples never
/// last shorter.
pub proof fn milliseconds_are_nearest(samples: u64, more: u64, sample_rate: u32)
    requires
        sample_rate > 0,
        samples <= more,
        more * 1_000 + sample_rate <= u64::MAX,
    ensures
        ({
            let ms = millis_of_samples(samples as int, sample_rate as int);
            let rate = sample_rate as int;
            &&& 2 * (ms * rate) <= 2 * (samples * 1_000) + rate
            &&& 2 * (samples * 1_000) + rate < 2 * (ms * rate) + 2 * rate + 1
            &&& ms <= millis_of_samples(more as int, rate)
        }),
{
    let rate = sample_rate as int;
    let a = samples * 1_000 + rate / 2;
    let b = more * 1_000 + rate / 2;
    vstd::arithmetic::div_mod::lemma_fundamental_div_mod(a, rate);
    vstd::arithmetic::div_mod::lemma_mod_bound(a, rate);
    vstd::arithmetic::div_mod::lemma_div_is_ordered(a, b, rate);
    let ms = a / rate;
    assert(rate * ms == ms * rate) by (nonlinear_arith);
}

} // verus!
