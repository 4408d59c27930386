//! How playlists are set up.
use crate::arith::{ceil_div, ceil_div_u64, max_int, min_int};
use vstd::prelude::*;

verus! {

/// How playlists are set up.
#[derive(Debug, Clone, Copy, PartialEq, Eq, Structural)]
pub struct PlaylistOptions {
    pub max_segments: usize,
    pub num_playlists: usize,
    pub max_parts_per_segment: usize,
    pub max_parted_segments: usize,
    pub segment_min_ms: u32,
    pub target_duration_ms: u32,
    pub part_target_ms: u32,
    pub buffer_size_kb: usize,
    pub init_size_kb: usize,
}

/// Parts that a segment always has room for.
pub const LEGACY_MINIMUM: u64 = 128;

/// Parts that a segment may have more than its length asks for.
pub const ROLLOVER_MARGIN: u64 = 8;

/// Parts that a segment never has more room for.
pub const DEFENSIVE_MAXIMUM: u64 = 4_096;

/// Parts that a segment has room for: those of its length and a margin, within bounds.
pub open spec fn part_capacity(segment_ms: u32, part_ms: u32) -> int {
    let parts = ceil_div(max_int(segment_ms as int, 1), max_int(part_ms as int, 1));
    min_int(max_int(parts + ROLLOVER_MARGIN, LEGACY_MINIMUM as int), DEFENSIVE_MAXIMUM as int)
}

/// The larger of two numbers.
fn larger(a: u32, b: u32) -> (r: u32)
    ensures
        r == max_int(a as int, b as int),
{
    if a >= b {
        a
    } else {
        b
    }
}

/// Parts that a segment has room for.
pub fn playlist_part_capacity(segment_ms: u32, part_ms: u32) -> (r: usize)
    ensures
        r == part_capacity(segment_ms, part_ms),
{
    let parts: u64 = ceil_div_u64(larger(segment_ms, 1) as u64, larger(part_ms, 1) as u64);
    proof {
        let segment = max_int(segment_ms as int, 1);
        let part = max_int(part_ms as int, 1);
        crate::arith::ceil_div_is_least_cover(segment, part);
        let count = parts as int;
        assert(count <= segment) by (nonlinear_arith)
            requires
                (count - 1) * part < segment,
                part >= 1,
                segment >= 1,
        ;
    }
    let wanted: u64 = parts + ROLLOVER_MARGIN;
    if wanted < LEGACY_MINIMUM {
        128
    } else if wanted > DEFENSIVE_MAXIMUM {
        4_096
    } else {
        wanted as usize
    }
}

/// How playlists are set up for what was configured.
pub fn playlist_options(
    playlist_count: usize,
    fmp4_segment_ms: u32,
    fmp4_part_ms: u32,
    hls_target_duration_ms: u32,
    playlist_buffer_kb: usize,
) -> (r: PlaylistOptions)
    ensures
        r == (PlaylistOptions {
            max_segments: 32,
            num_playlists: max_int(playlist_count as int, 1) as usize,
            max_parts_per_segment: part_capacity(fmp4_segment_ms, fmp4_part_ms) as usize,
            max_parted_segments: 32,
            segment_min_ms: max_int(max_int(fmp4_segment_ms as int, fmp4_part_ms as int), 1) as u32,
            target_duration_ms: max_int(hls_target_duration_ms as int, 1_000) as u32,
            part_target_ms: max_int(fmp4_part_ms as int, 1) as u32,
            buffer_size_kb: max_int(playlist_buffer_kb as int, 1) as usize,
            init_size_kb: 5,
        }),
{
    PlaylistOptions {
        max_segments: 32,
        num_playlists: if playlist_count == 0 {
            1
        } else {
            playlist_count
        },
        max_parts_per_segment: playlist_part_capacity(fmp4_segment_ms, fmp4_part_ms),
        max_parted_segments: 32,
        segment_min_ms: larger(larger(fmp4_segment_ms, fmp4_part_ms), 1),
        target_duration_ms: larger(hls_target_duration_ms, 1_000),
        part_target_ms: larger(fmp4_part_ms, 1),
        buffer_size_kb: if playlist_buffer_kb == 0 {
            1
        } else {
            playlist_buffer_kb
        },
        init_size_kb: 5,
    }
}

/// A segment has room for all of its parts, unless they are more than are ever allowed.
pub proof fn segments_hold_their_parts(segment_ms: u32, part_ms: u32)
    requires
        part_ms > 0,
    ensures
        part_capacity(segment_ms, part_ms) < DEFENSIVE_MAXIMUM ==> part_capacity(segment_ms, part_ms)
            * part_ms >= segment_ms,
        LEGACY_MINIMUM <= part_capacity(segment_ms, part_ms) <= DEFENSIVE_MAXIMUM,
{
    let segment = max_int(segment_ms as int, 1);
    let part = part_ms as int;
    let parts = ceil_div(segment, part);
    let capacity = part_capacity(segment_ms, part_ms);
    crate::arith::ceil_div_is_least_cover(segment, part);
    if capacity < DEFENSIVE_MAXIMUM {
        assert(capacity * part >= segment) by (nonlinear_arith)
            requires
                capacity >= parts,
                parts * part >= segment,
                part >= 1,
        ;
    }
}

/// A segment has room for eight parts more than its length asks for, but never for fewer than 128 nor
/// for more than 4096; a longer segment never has less room.
pub proof fn segments_have_room_to_spare(segment_ms: u32, longer_ms: u32, part_ms: u32, parts: int)
    requires
        part_ms > 0,
        0 < segment_ms <= longer_ms,
        parts * part_ms >= segment_ms,
        (parts - 1) * part_ms < segment_ms,
    ensures
        ({
            let room = part_capacity(segment_ms, part_ms);
            &&& 120 <= parts <= 4_088 ==> room == parts + 8
            &&& parts < 120 ==> room == 128
            &&& parts > 4_088 ==> room == 4_096
            &&& room <= part_capacity(longer_ms, part_ms)
        }),
{
    let part = part_ms as int;
    crate::arith::ceil_div_is_least_cover(segment_ms as int, part);
    crate::arith::ceil_div_is_least_cover(longer_ms as int, part);
    let found = ceil_div(segment_ms as int, part);
    let more = ceil_div(longer_ms as int, part);
    assert(found == parts) by (nonlinear_arith)
        requires
            part > 0,
            found * part >= segment_ms,
            (found - 1) * part < segment_ms,
            parts * part >= segment_ms,
            (parts - 1) * part < segment_ms,
    ;
    assert(found <= more) by (nonlinear_arith)
        requires
            part > 0,
            (found - 1) * part < segment_ms,
            more * part >= longer_ms,
            segment_ms <= longer_ms,
    ;
}

} // verus!
