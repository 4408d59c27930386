//! How a source's channels are split into groups, and how well they are protected.
use crate::arith::{cap_u64, ceil_div, ceil_div_u64, max_int, min_int, saturating_mul_u64};
use crate::text::{append_decimal, decimal};
use vstd::prelude::*;
use vstd::string::*;

verus! {

/// Samples of each channel in a second.
pub const SAMPLE_RATE: u32 = 48_000;

/// Channels that are published where nothing else is asked for.
pub const DEFAULT_CHANNELS: u16 = 2;

/// Channels of a group where nothing else is asked for.
pub const DEFAULT_GROUP_CHANNELS: u16 = 8;

/// The most channels of a group.
pub const FLAC_MAX_CHANNELS: u16 = 8;

/// The most channels that are published.
pub const LOGICAL_MAX_CHANNELS: u16 = 128;

/// Samples of each channel in an epoch.
pub const FRAME_COUNT: u32 = 240;

/// Milliseconds of an epoch.
pub const FRAME_MS: u64 = 5;

/// The most bytes of a datagram.
pub const MAX_DATAGRAM_BYTES: usize = 1_200;

/// Why a source cannot be published.
#[derive(Debug, Clone, Copy, PartialEq, Eq, Structural)]
pub enum PlanError {
    NoDuration,
    NoChannels,
    TooManyChannels,
    NoGroupChannels,
    TooManyGroupChannels,
    GroupRange,
    OldSession,
}

impl PlanError {
    /// What the error says.
    pub open spec fn words(self) -> Seq<char> {
        match self {
            PlanError::NoDuration => "--duration-seconds must be positive"@,
            PlanError::NoChannels => "--channels must be positive"@,
            PlanError::TooManyChannels => "--channels may not exceed "@ + decimal(
                LOGICAL_MAX_CHANNELS as nat,
            ),
            PlanError::NoGroupChannels => "--group-channels must be positive"@,
            PlanError::TooManyGroupChannels => "--group-channels may not exceed "@ + decimal(
                FLAC_MAX_CHANNELS as nat,
            )
                + "; split wider logical streams across multiple FLAC-safe AEP1 groups"@,
            PlanError::GroupRange => "--group-id plus derived group count exceeds u16 range"@,
            PlanError::OldSession =>
                "--session-id is too far in the past to be an origin clock"@,
        }
    }

    /// What the error says.
    pub fn message(self) -> (r: String)
        ensures
            r@ == self.words(),
    {
        match self {
            PlanError::NoDuration => "--duration-seconds must be positive".to_owned(),
            PlanError::NoChannels => "--channels must be positive".to_owned(),
            PlanError::TooManyChannels => {
                let mut text = "--channels may not exceed ".to_owned();
                append_decimal(&mut text, LOGICAL_MAX_CHANNELS as u64);
                text
            },
            PlanError::NoGroupChannels => "--group-channels must be positive".to_owned(),
            PlanError::TooManyGroupChannels => {
                let mut text = "--group-channels may not exceed ".to_owned();
                append_decimal(&mut text, FLAC_MAX_CHANNELS as u64);
                text.append("; split wider logical streams across multiple FLAC-safe AEP1 groups");
                text
            },
            PlanError::GroupRange =>
                "--group-id plus derived group count exceeds u16 range".to_owned(),
            PlanError::OldSession =>
                "--session-id is too far in the past to be an origin clock".to_owned(),
        }
    }
}

/// Channels that are published together.
#[derive(Debug, Clone, Copy, PartialEq, Eq, Structural)]
pub struct SourceGroupPlan {
    pub group_id: u16,
    pub channel_start: u16,
    pub channel_count: u16,
}

/// The groups of a number of channels: each as wide as was asked for, but for the last.
pub open spec fn groups_of(base_group_id: int, channels: int, width: int) -> Seq<SourceGroupPlan> {
    Seq::new(
        ceil_div(channels, width) as nat,
        |i: int|
            SourceGroupPlan {
                group_id: (base_group_id + i) as u16,
                channel_start: (i * width) as u16,
                channel_count: min_int(channels - i * width, width) as u16,
            },
    )
}

/// The groups of a source, or why it cannot be published.
pub open spec fn plan_of(base_group_id: u16, channels: u16, group_channels: u16) -> Result<
    Seq<SourceGroupPlan>,
    PlanError,
> {
    if channels == 0 {
        Err(PlanError::NoChannels)
    } else if channels > LOGICAL_MAX_CHANNELS {
        Err(PlanError::TooManyChannels)
    } else if group_channels == 0 {
        Err(PlanError::NoGroupChannels)
    } else if group_channels > FLAC_MAX_CHANNELS {
        Err(PlanError::TooManyGroupChannels)
    } else if base_group_id + ceil_div(channels as int, group_channels as int) > 65_536 {
        Err(PlanError::GroupRange)
    } else {
        Ok(groups_of(base_group_id as int, channels as int, group_channels as int))
    }
}

/// Splits a source's channels into groups.
pub fn source_group_plan(base_group_id: u16, channels: u16, requested_group_channels: u16) -> (r:
    Result<Vec<SourceGroupPlan>, PlanError>)
    ensures
        match plan_of(base_group_id, channels, requested_group_channels) {
            Ok(groups) => r matches Ok(plan) && plan@ == groups,
            Err(error) => r matches Err(e) && e == error,
        },
{
    if channels == 0 {
        return Err(PlanError::NoChannels);
    }
    if channels > LOGICAL_MAX_CHANNELS {
        return Err(PlanError::TooManyChannels);
    }
    if requested_group_channels == 0 {
        return Err(PlanError::NoGroupChannels);
    }
    if requested_group_channels > FLAC_MAX_CHANNELS {
        return Err(PlanError::TooManyGroupChannels);
    }
    let width: u16 = requested_group_channels;
    let group_count: u64 = ceil_div_u64(channels as u64, width as u64);
    if base_group_id as u64 + group_count > 65_536 {
        return Err(PlanError::GroupRange);
    }
    let ghost wanted = groups_of(base_group_id as int, channels as int, width as int);
    let mut groups: Vec<SourceGroupPlan> = Vec::new();
    let mut channel_start: u16 = 0;
    let mut index: u64 = 0;
    proof {
        crate::arith::ceil_div_is_least_cover(channels as int, width as int);
    }
    while index < group_count
        invariant
            index <= group_count,
            0 < channels <= 128,
            0 < width <= 8,
            base_group_id + group_count <= 65_536,
            group_count == ceil_div(channels as int, width as int),
            (group_count - 1) * width < channels,
            wanted == groups_of(base_group_id as int, channels as int, width as int),
            groups@ == wanted.take(index as int),
            channel_start == min_int(index * width, channels as int),
        decreases group_count - index,
    {
        proof {
            assert(index * width <= (group_count - 1) * width) by (nonlinear_arith)
                requires
                    index <= group_count - 1,
                    width > 0,
            ;
            assert((index + 1) * width == index * width + width) by (nonlinear_arith);
        }
        let remaining: u16 = channels - channel_start;
        let channel_count: u16 = if remaining <= width {
            remaining
        } else {
            width
        };
        let group = SourceGroupPlan {
            group_id: (base_group_id as u64 + index) as u16,
            channel_start,
            channel_count,
        };
        assert(group == wanted[index as int]);
        groups.push(group);
        assert(groups@ =~= wanted.take(index + 1));
        channel_start = channel_start + channel_count;
        index = index + 1;
    }
    assert(wanted.take(index as int) =~= wanted);
    Ok(groups)
}

/// Every channel of a source is in exactly one group, groups are never wider than was asked for,
/// and no two have the same number.
pub proof fn groups_partition_the_channels(
    base_group_id: u16,
    channels: u16,
    group_channels: u16,
    channel: int,
)
    requires
        plan_of(base_group_id, channels, group_channels) is Ok,
        0 <= channel < channels,
    ensures
        ({
            let groups = plan_of(base_group_id, channels, group_channels)->Ok_0;
            let at = channel / group_channels as int;
            &&& 0 <= at < groups.len()
            &&& forall|i: int|
                0 <= i < groups.len() ==> {
                    &&& 0 < (#[trigger] groups[i]).channel_count <= group_channels
                    &&& groups[i].group_id == base_group_id + i
                    &&& (groups[i].channel_start <= channel < groups[i].channel_start
                        + groups[i].channel_count <==> i == at)
                }
        }),
{
    let groups = plan_of(base_group_id, channels, group_channels)->Ok_0;
    let width = group_channels as int;
    let total = channels as int;
    let at = channel / width;
    let count = ceil_div(total, width);
    crate::arith::ceil_div_is_least_cover(total, width);
    vstd::arithmetic::div_mod::lemma_fundamental_div_mod(channel, width);
    vstd::arithmetic::div_mod::lemma_mod_bound(channel, width);
    assert(0 <= at < count) by (nonlinear_arith)
        requires
            channel == width * at + channel % width,
            0 <= channel % width < width,
            0 <= channel < total,
            count * width >= total,
            width > 0,
    ;
    assert forall|i: int| 0 <= i < groups.len() implies {
        &&& 0 < (#[trigger] groups[i]).channel_count <= group_channels
        &&& groups[i].group_id == base_group_id + i
        &&& (groups[i].channel_start <= channel < groups[i].channel_start + groups[i].channel_count
            <==> i == at)
    } by {
        assert(0 <= i * width <= (count - 1) * width) by (nonlinear_arith)
            requires
                0 <= i <= count - 1,
                width > 0,
        ;
        if i < at {
            assert(i * width + width <= at * width) by (nonlinear_arith)
                requires
                    i + 1 <= at,
                    width > 0,
            ;
        } else if i > at {
            assert(i * width >= at * width + width) by (nonlinear_arith)
                requires
                    i >= at + 1,
                    width > 0,
            ;
        }
        assert(width * at == at * width) by (nonlinear_arith);
    }
}

/// When the source's clock starts: at the session's number, where one is given.
pub open spec fn session_clock(session_id: Option<u64>, now_ns: u64) -> u64 {
    match session_id {
        Some(session_id) => session_id,
        None => cap_u64(now_ns + 1_000_000_000) as u64,
    }
}

/// When the source's clock starts, or why it cannot start then: it is more than a minute past.
pub fn start_session(duration_seconds: u64, session_id: Option<u64>, now_ns: u64) -> (r: Result<
    u64,
    PlanError,
>)
    ensures
        r == (if duration_seconds == 0 {
            Err(PlanError::NoDuration)
        } else if session_clock(session_id, now_ns) + 60_000_000_000 < now_ns {
            Err(PlanError::OldSession)
        } else {
            Ok(session_clock(session_id, now_ns))
        }),
{
    if duration_seconds == 0 {
        return Err(PlanError::NoDuration);
    }
    let session_id: u64 = match session_id {
        Some(session_id) => session_id,
        None => now_ns.saturating_add(1_000_000_000),
    };
    if now_ns > 60_000_000_000 && session_id < now_ns - 60_000_000_000 {
        return Err(PlanError::OldSession);
    }
    Ok(session_id)
}

/// The widest of a list of groups.
pub open spec fn widest(groups: Seq<SourceGroupPlan>) -> int
    decreases groups.len(),
{
    if groups.len() == 0 {
        0
    } else {
        max_int(widest(groups.drop_last()), groups.last().channel_count as int)
    }
}

/// Repair symbols of an epoch: a percentage of its source symbols, rounded up, and at least so
/// many.
pub open spec fn repairs_for(
    groups: Seq<SourceGroupPlan>,
    payload_budget: int,
    repair_percent: u32,
    min_repair_symbols: u32,
) -> int {
    let bytes = widest(groups) * FRAME_COUNT * 3;
    let symbols = max_int(ceil_div(bytes, payload_budget), 1);
    let proportional = ceil_div(symbols * min_int(repair_percent as int, 100), 100);
    max_int(proportional, max_int(min_repair_symbols as int, 1))
}

/// Repair symbols of an epoch.
pub fn repair_symbols(
    groups: &Vec<SourceGroupPlan>,
    payload_budget: usize,
    repair_percent: u32,
    min_repair_symbols: u32,
) -> (r: u32)
    requires
        payload_budget > 0,
    ensures
        r == repairs_for(groups@, payload_budget as int, repair_percent, min_repair_symbols),
{
    let mut widest_group: u16 = 0;
    let mut i: usize = 0;
    while i < groups.len()
        invariant
            i <= groups@.len(),
            widest_group == widest(groups@.take(i as int)),
        decreases groups@.len() - i,
    {
        let ghost head = groups@.take(i + 1);
        assert(head.drop_last() =~= groups@.take(i as int));
        if groups[i].channel_count > widest_group {
            widest_group = groups[i].channel_count;
        }
        i = i + 1;
    }
    assert(groups@.take(i as int) =~= groups@);
    let bytes: u64 = (widest_group as u64) * (FRAME_COUNT as u64) * 3;
    let covering: u64 = ceil_div_u64(bytes, payload_budget as u64);
    let symbols: u64 = if covering == 0 {
        1
    } else {
        covering
    };
    let percent: u64 = if repair_percent > 100 {
        100
    } else {
        repair_percent as u64
    };
    proof {
        crate::arith::ceil_div_is_least_cover(bytes as int, payload_budget as int);
        let count = covering as int;
        let budget = payload_budget as int;
        if bytes > 0 {
            assert(count <= bytes) by (nonlinear_arith)
                requires
                    (count - 1) * budget < bytes,
                    budget >= 1,
                    bytes >= 1,
            ;
        }
        assert(symbols <= 65_535 * 720);
        assert(symbols * percent <= symbols * 100) by (nonlinear_arith)
            requires
                percent <= 100,
                symbols >= 0,
        ;
    }
    let proportional: u64 = ceil_div_u64(symbols * percent, 100);
    let least: u32 = if min_repair_symbols == 0 {
        1
    } else {
        min_repair_symbols
    };
    if proportional as u32 > least {
        proportional as u32
    } else {
        least
    }
}

/// Epochs of a number of seconds.
pub open spec fn epochs_in(duration_seconds: u64) -> u64 {
    (cap_u64(duration_seconds * 1_000) / 5) as u64
}

/// Epochs of a number of seconds.
pub fn epoch_count(duration_seconds: u64) -> (r: u64)
    ensures
        r == epochs_in(duration_seconds),
{
    saturating_mul_u64(duration_seconds, 1_000) / 5
}

/// The first sample of an epoch.
pub fn first_sample_of(epoch_id: u64) -> (r: u64)
    ensures
        r == cap_u64(epoch_id * FRAME_COUNT),
{
    saturating_mul_u64(epoch_id, FRAME_COUNT as u64)
}

/// Bytes of a source's samples.
pub fn pcm_reference_bytes(epochs: u64, channels: u16) -> (r: u64)
    ensures
        r == cap_u64(cap_u64(cap_u64(epochs * FRAME_COUNT) * channels) * 3),
{
    saturating_mul_u64(
        saturating_mul_u64(saturating_mul_u64(epochs, FRAME_COUNT as u64), channels as u64),
        3,
    )
}

/// A time in milliseconds is a whole number of epochs away from the start of its source.
pub proof fn epochs_start_on_whole_milliseconds(epoch_id: u64)
    requires
        epoch_id * FRAME_COUNT <= u64::MAX,
    ensures
        (epoch_id * FRAME_COUNT) * 1_000 == (epoch_id * FRAME_MS) * SAMPLE_RATE,
{
    assert((epoch_id * 240) * 1_000 == (epoch_id * 5) * 48_000) by (nonlinear_arith);
}

/// The widest of some groups is one of them, and none is wider.
pub proof fn the_widest_is_greatest(groups: Seq<SourceGroupPlan>)
    ensures
        forall|i: int|
            0 <= i < groups.len() ==> (#[trigger] groups[i]).channel_count <= widest(groups),
        groups.len() > 0 ==> exists|i: int|
            0 <= i < groups.len() && (#[trigger] groups[i]).channel_count == widest(groups),
        0 <= widest(groups) <= u16::MAX,
    decreases groups.len(),
{
    if groups.len() > 0 {
        let older = groups.drop_last();
        the_widest_is_greatest(older);
        assert(groups.last() == groups[groups.len() - 1]);
        assert forall|i: int| 0 <= i < groups.len() implies (#[trigger] groups[i]).channel_count
            <= widest(groups) by {
            if i < older.len() {
                assert(older[i] == groups[i]);
            }
        }
        if widest(groups) != groups.last().channel_count {
            if older.len() > 0 {
                let i = choose|i: int|
                    0 <= i < older.len() && (#[trigger] older[i]).channel_count == widest(older);
                assert(groups[i] == older[i]);
            }
        }
    }
}

/// An epoch has repair symbols for the percentage that was asked for, up to all, of the symbols that its
/// widest group takes, and at least as many as were asked for; never none.
pub proof fn repairs_cover_the_percentage(
    groups: Seq<SourceGroupPlan>,
    payload_budget: int,
    repair_percent: u32,
    min_repair_symbols: u32,
    symbols: int,
)
    requires
        payload_budget > 0,
        repair_percent <= 100,
        symbols >= 1,
        symbols * payload_budget >= widest(groups) * 240 * 3,
        symbols == 1 || (symbols - 1) * payload_budget < widest(groups) * 240 * 3,
    ensures
        ({
            let repairs = repairs_for(groups, payload_budget, repair_percent, min_repair_symbols);
            &&& repairs >= 1
            &&& repairs >= min_repair_symbols
            &&& 100 * repairs >= symbols * repair_percent
            &&& repairs == 1 || repairs == min_repair_symbols || 100 * (repairs - 1) < symbols
                * repair_percent
            &&& forall|more: u32|
                repair_percent <= more ==> repairs <= #[trigger] repairs_for(
                    groups,
                    payload_budget,
                    more,
                    min_repair_symbols,
                )
        }),
{
    the_widest_is_greatest(groups);
    let bytes = widest(groups) * FRAME_COUNT * 3;
    crate::arith::ceil_div_is_least_cover(bytes, payload_budget);
    let found = ceil_div(bytes, payload_budget);
    let used = max_int(found, 1);
    assert(used == symbols) by {
        if symbols < used {
            assert(symbols * payload_budget <= (used - 1) * payload_budget) by (nonlinear_arith)
                requires
                    symbols < used,
                    payload_budget > 0,
            ;
            if bytes == 0 {
                assert(0 <= found);
                assert(found == 0) by {
                    assert(0int / payload_budget == 0 && 0int % payload_budget == 0)
                        by (nonlinear_arith)
                        requires
                            payload_budget > 0,
                    ;
                }
            }
        }
        if symbols > used {
            assert((symbols - 1) * payload_budget >= used * payload_budget) by (nonlinear_arith)
                requires
                    symbols > used,
                    payload_budget > 0,
            ;
            assert(used * payload_budget >= found * payload_budget) by (nonlinear_arith)
                requires
                    used >= found,
                    payload_budget > 0,
            ;
        }
    }
    let product = symbols * repair_percent;
    assert(product >= 0) by (nonlinear_arith)
        requires
            symbols >= 1,
            product == symbols * repair_percent,
    ;
    crate::arith::ceil_div_is_least_cover(product, 100);
    assert forall|more: u32| repair_percent <= more implies repairs_for(
        groups,
        payload_budget,
        repair_percent,
        min_repair_symbols,
    ) <= #[trigger] repairs_for(groups, payload_budget, more, min_repair_symbols) by {
        let wide = min_int(more as int, 100);
        assert(symbols * repair_percent <= symbols * wide) by (nonlinear_arith)
            requires
                repair_percent <= wide,
                symbols >= 1,
        ;
        crate::arith::ceil_div_is_least_cover(symbols * wide, 100);
    }
}

/// A source has an epoch for every five milliseconds that it plays.
pub proof fn epochs_fill_the_duration(duration_seconds: u64)
    requires
        duration_seconds * 1_000 <= u64::MAX,
    ensures
        epochs_in(duration_seconds) * 5 == duration_seconds * 1_000,
{
}

/// A session is the one that is named, and one that is not starts a second from now.
pub proof fn sessions_start_in_a_second(session_id: u64, now_ns: u64)
    ensures
        session_clock(Some(session_id), now_ns) == session_id,
        now_ns + 1_000_000_000 <= u64::MAX ==> session_clock(None, now_ns) - now_ns == 1_000_000_000,
        session_clock(None, now_ns) >= now_ns,
{
}

/// A percentage beyond a hundred asks for no more than all.
pub proof fn no_more_than_all_is_repaired(
    groups: Seq<SourceGroupPlan>,
    payload_budget: int,
    repair_percent: u32,
    min_repair_symbols: u32,
)
    requires
        repair_percent >= 100,
    ensures
        repairs_for(groups, payload_budget, repair_percent, min_repair_symbols) == repairs_for(
            groups,
            payload_budget,
            100,
            min_repair_symbols,
        ),
{
}

} // verus!
