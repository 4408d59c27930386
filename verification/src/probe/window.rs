//! The time that a probe looks at: from when, until when, and how long it may take.
use crate::arith::{cap_u64, minus_floor, saturating_mul_u64};
use vstd::prelude::*;

verus! {

/// How long before its first part is due a reader asks for it.
pub const H3_PART_PRELOAD_LEAD_NS: u64 = 100_000_000;

/// What setting up and closing may take on top.
pub const SETUP_ALLOWANCE_NS: u64 = 5_000_000_000;

/// Why a window cannot be looked at.
#[derive(Debug, Clone, Copy, PartialEq, Eq, Structural)]
pub enum WindowError {
    NoPartLength,
    MediaTooLong,
    StartsTooLate,
    StartNotAligned,
    EmptyWindow,
    WindowTooLong,
    EndsTooLate,
    EndNotAligned,
}

impl WindowError {
    /// What the error says.
    pub open spec fn words(self) -> Seq<char> {
        match self {
            WindowError::NoPartLength => "--part-ms must be positive"@,
            WindowError::MediaTooLong => "media duration exceeds the supported range"@,
            WindowError::StartsTooLate =>
                "--start-offset-ms must be smaller than the media duration"@,
            WindowError::StartNotAligned =>
                "--start-offset-ms must align to the configured part duration"@,
            WindowError::EmptyWindow => "--window-seconds must be positive"@,
            WindowError::WindowTooLong => "reader window exceeds the supported range"@,
            WindowError::EndsTooLate => "reader window must end within the media duration"@,
            WindowError::EndNotAligned =>
                "reader window end must align to the configured part duration"@,
        }
    }

    /// What the error says.
    pub fn message(self) -> (r: &'static str)
        ensures
            r@ == self.words(),
    {
        match self {
            WindowError::NoPartLength => "--part-ms must be positive",
            WindowError::MediaTooLong => "media duration exceeds the supported range",
            WindowError::StartsTooLate =>
                "--start-offset-ms must be smaller than the media duration",
            WindowError::StartNotAligned =>
                "--start-offset-ms must align to the configured part duration",
            WindowError::EmptyWindow => "--window-seconds must be positive",
            WindowError::WindowTooLong => "reader window exceeds the supported range",
            WindowError::EndsTooLate => "reader window must end within the media duration",
            WindowError::EndNotAligned =>
                "reader window end must align to the configured part duration",
        }
    }
}

/// When a window ends: with the media, or so many seconds behind its start.
pub open spec fn window_end(media_ms: int, start_ms: int, window_seconds: Option<u64>) -> int {
    match window_seconds {
        None => media_ms,
        Some(seconds) => start_ms + seconds * 1_000,
    }
}

/// When a window ends, or why it cannot be looked at.
pub open spec fn window_of(
    duration_seconds: u64,
    start_offset_ms: u64,
    window_seconds: Option<u64>,
    part_ms: u64,
) -> Result<u64, WindowError> {
    let media_ms = duration_seconds * 1_000;
    let end_ms = window_end(media_ms, start_offset_ms as int, window_seconds);
    if part_ms == 0 {
        Err(WindowError::NoPartLength)
    } else if media_ms > u64::MAX {
        Err(WindowError::MediaTooLong)
    } else if start_offset_ms >= media_ms {
        Err(WindowError::StartsTooLate)
    } else if start_offset_ms % part_ms != 0 {
        Err(WindowError::StartNotAligned)
    } else if window_seconds == Some(0u64) {
        Err(WindowError::EmptyWindow)
    } else if end_ms > u64::MAX {
        Err(WindowError::WindowTooLong)
    } else if end_ms > media_ms {
        Err(WindowError::EndsTooLate)
    } else if end_ms % part_ms as int != 0 {
        Err(WindowError::EndNotAligned)
    } else {
        Ok(end_ms as u64)
    }
}

/// When a window ends, or why it cannot be looked at.
pub fn hls_window_end_ms(
    duration_seconds: u64,
    start_offset_ms: u64,
    window_seconds: Option<u64>,
    part_ms: u64,
) -> (r: Result<u64, WindowError>)
    ensures
        r == window_of(duration_seconds, start_offset_ms, window_seconds, part_ms),
{
    if part_ms == 0 {
        return Err(WindowError::NoPartLength);
    }
    let media_ms: u64 = match duration_seconds.checked_mul(1_000) {
        Some(media_ms) => media_ms,
        None => {
            return Err(WindowError::MediaTooLong);
        },
    };
    if start_offset_ms >= media_ms {
        return Err(WindowError::StartsTooLate);
    }
    if start_offset_ms % part_ms != 0 {
        return Err(WindowError::StartNotAligned);
    }
    let end_ms: u64 = match window_seconds {
        None => media_ms,
        Some(seconds) => {
            if seconds == 0 {
                return Err(WindowError::EmptyWindow);
            }
            let window_ms: u64 = match seconds.checked_mul(1_000) {
                Some(window_ms) => window_ms,
                None => {
                    return Err(WindowError::WindowTooLong);
                },
            };
            match start_offset_ms.checked_add(window_ms) {
                Some(end_ms) => end_ms,
                None => {
                    return Err(WindowError::WindowTooLong);
                },
            }
        },
    };
    if end_ms > media_ms {
        return Err(WindowError::EndsTooLate);
    }
    if end_ms % part_ms != 0 {
        return Err(WindowError::EndNotAligned);
    }
    Ok(end_ms)
}

/// A window that can be looked at lies within the media, is not empty, and is made of whole parts.
pub proof fn windows_are_made_of_parts(
    duration_seconds: u64,
    start_offset_ms: u64,
    window_seconds: Option<u64>,
    part_ms: u64,
)
    requires
        window_of(duration_seconds, start_offset_ms, window_seconds, part_ms) is Ok,
    ensures
        ({
            let end = window_of(duration_seconds, start_offset_ms, window_seconds, part_ms)->Ok_0;
            &&& start_offset_ms < end <= duration_seconds * 1_000
            &&& (end - start_offset_ms) % part_ms as int == 0
            &&& (end - start_offset_ms) / part_ms as int > 0
            &&& start_offset_ms / part_ms + (end - start_offset_ms) / part_ms as int == end / part_ms
        }),
{
    let end = window_of(duration_seconds, start_offset_ms, window_seconds, part_ms)->Ok_0 as int;
    let start = start_offset_ms as int;
    let part = part_ms as int;
    vstd::arithmetic::div_mod::lemma_fundamental_div_mod(end, part);
    vstd::arithmetic::div_mod::lemma_fundamental_div_mod(start, part);
    let a = end / part;
    let b = start / part;
    assert(end - start == part * (a - b)) by (nonlinear_arith)
        requires
            end == part * a,
            start == part * b,
    ;
    vstd::arithmetic::div_mod::lemma_fundamental_div_mod_converse(end - start, part, a - b, 0);
    assert(a > b) by (nonlinear_arith)
        requires
            end == part * a,
            start == part * b,
            start < end,
            part > 0,
    ;
}

/// When a reader asks for its first part.
pub open spec fn preload_at(session_id: u64, start_offset_ms: u64) -> int {
    minus_floor(
        cap_u64(session_id + cap_u64(start_offset_ms * 1_000_000)),
        H3_PART_PRELOAD_LEAD_NS as int,
    )
}

/// When a reader asks for its first part: shortly before it is due.
pub fn h3_preload_at_ns(session_id: u64, start_offset_ms: u64) -> (r: u64)
    ensures
        r == preload_at(session_id, start_offset_ms),
{
    let start_ns: u64 = session_id.saturating_add(saturating_mul_u64(start_offset_ms, 1_000_000));
    start_ns.saturating_sub(H3_PART_PRELOAD_LEAD_NS)
}

/// When a probe stops: at the end of its window and a tail behind it.
pub open spec fn stop_at(session_id: u64, end_offset_ms: u64, tail_seconds: u64) -> int {
    cap_u64(
        cap_u64(session_id + cap_u64(end_offset_ms * 1_000_000)) + cap_u64(
            tail_seconds * 1_000_000_000,
        ),
    )
}

/// When a probe stops.
pub fn stop_ns(session_id: u64, end_offset_ms: u64, tail_seconds: u64) -> (r: u64)
    ensures
        r == stop_at(session_id, end_offset_ms, tail_seconds),
{
    session_id.saturating_add(saturating_mul_u64(end_offset_ms, 1_000_000)).saturating_add(
        saturating_mul_u64(tail_seconds, 1_000_000_000),
    )
}

/// How many nanoseconds a probe may take: until it stops, and an allowance.
pub fn receive_command_timeout_ms(
    session_id: u64,
    end_offset_ms: u64,
    tail_seconds: u64,
    now_ns: u64,
) -> (r: u128)
    ensures
        r == minus_floor(stop_at(session_id, end_offset_ms, tail_seconds), now_ns as int)
            + SETUP_ALLOWANCE_NS,
{
    let remaining: u64 = stop_ns(session_id, end_offset_ms, tail_seconds).saturating_sub(now_ns);
    (remaining as u128) + (SETUP_ALLOWANCE_NS as u128)
}

/// How many nanoseconds a probe of all of the media may take.
pub fn receive_command_timeout(
    session_id: u64,
    duration_seconds: u64,
    tail_seconds: u64,
    now_ns: u64,
) -> (r: u128)
    ensures
        r == minus_floor(
            stop_at(session_id, cap_u64(duration_seconds * 1_000) as u64, tail_seconds),
            now_ns as int,
        ) + SETUP_ALLOWANCE_NS,
{
    receive_command_timeout_ms(
        session_id,
        saturating_mul_u64(duration_seconds, 1_000),
        tail_seconds,
        now_ns,
    )
}

/// A window can be looked at exactly where parts have a length, it starts within the media and at a part,
/// is not empty, and ends within the media and at a part; it ends so many seconds behind its start, or
/// with the media.
pub proof fn windows_lie_within_the_media(
    duration_seconds: u64,
    start_offset_ms: u64,
    window_seconds: Option<u64>,
    part_ms: u64,
)
    ensures
        ({
            let r = window_of(duration_seconds, start_offset_ms, window_seconds, part_ms);
            let media = duration_seconds * 1_000;
            let end = match window_seconds {
                Some(seconds) => start_offset_ms + seconds * 1_000,
                None => media,
            };
            &&& r is Ok <==> part_ms > 0 && media <= u64::MAX && start_offset_ms < media
                && start_offset_ms % part_ms == 0 && start_offset_ms < end <= media && end
                % part_ms as int == 0
            &&& r is Ok ==> r->Ok_0 == end
        }),
{
}

/// A reader asks for its first part a tenth of a second before it is due, and a probe stops its tail behind
/// the end of its window.
pub proof fn probes_run_around_their_window(
    session_id: u64,
    start_offset_ms: u64,
    end_offset_ms: u64,
    tail_seconds: u64,
)
    requires
        session_id + start_offset_ms * 1_000_000 <= u64::MAX,
        session_id + end_offset_ms * 1_000_000 + tail_seconds * 1_000_000_000 <= u64::MAX,
    ensures
        session_id + start_offset_ms * 1_000_000 >= 100_000_000 ==> preload_at(
            session_id,
            start_offset_ms,
        ) + 100_000_000 == session_id + start_offset_ms * 1_000_000,
        stop_at(session_id, end_offset_ms, tail_seconds) == session_id + end_offset_ms * 1_000_000
            + tail_seconds * 1_000_000_000,
        start_offset_ms <= end_offset_ms ==> preload_at(session_id, start_offset_ms) <= stop_at(
            session_id,
            end_offset_ms,
            tail_seconds,
        ),
{
}

} // verus!
