//! Conversion between milliseconds and ticks of the ninety-kilohertz media clock.
use crate::arith::{cap_u64, saturating_mul_u64};
use vstd::prelude::*;

verus! {

/// Ticks of the media clock in one second.
pub const TICKS_PER_SECOND: u64 = 90_000;

/// Ticks that make up `ms` milliseconds, on a clock that stops at the largest `u64`.
pub open spec fn ticks_of_ms(ms: int) -> int {
    cap_u64(ms * 90_000) / 1_000
}

/// Milliseconds nearest to `ticks`, halves rounded up, with both steps stopping at the largest `u64`.
pub open spec fn ms_of_ticks(ticks: int) -> int {
    cap_u64(cap_u64(ticks * 1_000) + 45_000) / 90_000
}

/// Ticks that make up a duration in milliseconds.
pub fn ms_to_ticks(ms: u32) -> (r: u64)
    ensures
        r == ms * 90,
        r == ticks_of_ms(ms as int),
{
    ms as u64 * TICKS_PER_SECOND / 1_000
}

/// Ticks of a timestamp in milliseconds, without overflow.
pub fn ms_to_ticks_u64(ms: u64) -> (r: u64)
    ensures
        r == ticks_of_ms(ms as int),
{
    saturating_mul_u64(ms, TICKS_PER_SECOND) / 1_000
}

/// Milliseconds nearest to a number of ticks, without overflow.
pub fn ticks_to_ms(ticks: u64) -> (r: u64)
    ensures
        r == ms_of_ticks(ticks as int),
{
    saturating_mul_u64(ticks, 1_000).saturating_add(TICKS_PER_SECOND / 2) / TICKS_PER_SECOND
}

/// The clock on which an input stamps its access units.
#[derive(Debug, Clone, Copy, PartialEq, Eq, Structural)]
pub enum TimestampInput {
    /// Ticks of the ninety-kilohertz media clock, as an MPEG transport stream counts.
    Ticks90Khz,
    /// Milliseconds, as RTMP counts.
    Millis,
    /// Milliseconds of a timeline that must be kept as it is.
    MillisAbsolute,
}

impl TimestampInput {
    /// The tick value that a video timestamp of this input stands for.
    pub open spec fn video_ticks(self, value: int) -> int {
        match self {
            TimestampInput::Ticks90Khz => value,
            TimestampInput::Millis | TimestampInput::MillisAbsolute => ticks_of_ms(value),
        }
    }

    /// The millisecond value that an audio timestamp of this input stands for.
    pub open spec fn audio_ms(self, value: int) -> int {
        match self {
            TimestampInput::Ticks90Khz => ms_of_ticks(value),
            TimestampInput::Millis | TimestampInput::MillisAbsolute => value,
        }
    }

    /// Brings a video timestamp to ticks.
    pub fn scale_video(self, value: u64) -> (r: u64)
        ensures
            r == self.video_ticks(value as int),
    {
        match self {
            TimestampInput::Ticks90Khz => value,
            TimestampInput::Millis | TimestampInput::MillisAbsolute => ms_to_ticks_u64(value),
        }
    }

    /// Brings an audio timestamp to milliseconds.
    pub fn scale_audio(self, value: u64) -> (r: u64)
        ensures
            r == self.audio_ms(value as int),
    {
        match self {
            TimestampInput::Ticks90Khz => ticks_to_ms(value),
            TimestampInput::Millis | TimestampInput::MillisAbsolute => value,
        }
    }
}

/// A duration in milliseconds survives the way to ticks and back, as long as the ticks and the
/// rounding both stay in range.
pub proof fn ms_survive_ticks(ms: int)
    requires
        0 <= ms,
        ms * 90_000 + 45_000 <= u64::MAX,
    ensures
        ms_of_ticks(ticks_of_ms(ms)) == ms,
{
    assert(ticks_of_ms(ms) == ms * 90);
}

/// Later timestamps stay later: both conversions keep the order of what they convert.
pub proof fn conversions_keep_order(a: int, b: int)
    requires
        0 <= a <= b,
    ensures
        ticks_of_ms(a) <= ticks_of_ms(b),
        ms_of_ticks(a) <= ms_of_ticks(b),
{
}

} // verus!
