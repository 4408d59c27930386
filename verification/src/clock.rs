//! The wall clock.
use vstd::prelude::*;

verus! {

/// A time since the Unix epoch, in whole seconds and the nanoseconds behind them.
#[derive(Debug, Clone, Copy, PartialEq, Eq, Structural)]
pub struct UnixTime {
    pub seconds: u64,
    pub nanoseconds: u32,
}

impl UnixTime {
    /// Whether the nanoseconds are less than a second.
    pub open spec fn wf(self) -> bool {
        self.nanoseconds < 1_000_000_000
    }

    /// All of it in nanoseconds.
    pub open spec fn in_nanoseconds(self) -> int {
        self.seconds * 1_000_000_000 + self.nanoseconds
    }

    /// All of it in milliseconds, as a counter that wraps holds them.
    pub fn millis(self) -> (r: u64)
        requires
            self.wf(),
        ensures
            r == (self.in_nanoseconds() / 1_000_000) % 0x1_0000_0000_0000_0000,
    {
        let total: u128 = (self.seconds as u128) * 1_000 + (self.nanoseconds as u128) / 1_000_000;
        assert(total == self.in_nanoseconds() / 1_000_000);
        (total % 0x1_0000_0000_0000_0000) as u64
    }

    /// All of it in microseconds, as a counter that wraps holds them.
    pub fn micros(self) -> (r: u64)
        requires
            self.wf(),
        ensures
            r == (self.in_nanoseconds() / 1_000) % 0x1_0000_0000_0000_0000,
    {
        let total: u128 = (self.seconds as u128) * 1_000_000 + (self.nanoseconds as u128) / 1_000;
        assert(total == self.in_nanoseconds() / 1_000);
        (total % 0x1_0000_0000_0000_0000) as u64
    }

    /// All of it in nanoseconds, or the most that a signed counter holds.
    pub fn nanos(self) -> (r: i64)
        requires
            self.wf(),
        ensures
            r == (if self.in_nanoseconds() <= i64::MAX {
                self.in_nanoseconds()
            } else {
                i64::MAX as int
            }),
    {
        let total: u128 = (self.seconds as u128) * 1_000_000_000 + (self.nanoseconds as u128);
        if total <= 0x7fff_ffff_ffff_ffff {
            total as i64
        } else {
            i64::MAX
        }
    }

    /// The whole seconds, or the most that a signed counter holds.
    pub fn whole_seconds(self) -> (r: i64)
        ensures
            r == (if self.seconds <= i64::MAX {
                self.seconds as int
            } else {
                i64::MAX as int
            }),
    {
        if self.seconds <= 0x7fff_ffff_ffff_ffff {
            self.seconds as i64
        } else {
            i64::MAX
        }
    }
}

/// Calls `std::time::SystemTime::elapsed` on the Unix epoch.
///
/// Claimed of it: the nanoseconds behind the whole seconds are less than a second. What time it is
/// is left open; there is none where the clock is set to before the epoch.
#[verifier::external_body]
fn since_epoch() -> (r: Option<UnixTime>)
    ensures
        r matches Some(time) ==> time.wf(),
{
    let elapsed = std::time::UNIX_EPOCH.elapsed().ok()?;
    Some(UnixTime { seconds: elapsed.as_secs(), nanoseconds: elapsed.subsec_nanos() })
}

/// The time, or the epoch itself where the clock is set to before it.
pub fn now() -> (r: UnixTime)
    ensures
        r.wf(),
{
    match since_epoch() {
        Some(time) => time,
        None => UnixTime { seconds: 0, nanoseconds: 0 },
    }
}

} // verus!
