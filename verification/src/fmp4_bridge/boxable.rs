//! Which audio the boxer can take: it computes with what heads of frames declare, and some
//! declare what it cannot compute with.
use crate::fmp4_bridge::access_unit::{units_view, AccessUnit, AccessUnitView};
use crate::fmp4_bridge::track::{adts_fields, read_adts};
use crate::formats::{audio_named, detect_audio, AudioKind};
use crate::seqs::{filter_empty, filter_push};
use vstd::prelude::*;
use vstd::slice::slice_subrange;

verus! {

/// Bytes of the head of an AAC frame, which is longer where it holds a checksum.
pub open spec fn adts_head_len(data: Seq<u8>) -> int {
    if data[1] as int % 2 == 1 {
        7
    } else {
        9
    }
}

/// Bytes that an AAC frame declares itself to have, its head among them.
pub open spec fn adts_frame_len(data: Seq<u8>) -> int {
    data[3] as int % 4 * 2_048 + data[4] as int * 8 + data[5] as int / 32
}

/// Whether an AAC frame that is whole, by what it declares, has its head.
pub open spec fn adts_sound(data: Seq<u8>) -> bool {
    adts_fields(data) is Some && adts_head_len(data) <= data.len() && adts_frame_len(data)
        <= data.len() ==> adts_head_len(data) <= adts_frame_len(data)
}

/// Decides whether an AAC frame that is whole, by what it declares, has its head.
pub fn adts_is_sound(data: &[u8]) -> (r: bool)
    ensures
        r == adts_sound(data@),
{
    if read_adts(data).is_none() {
        return true;
    }
    let head: usize = if data[1] % 2 == 1 {
        7
    } else {
        9
    };
    let length: usize = (data[3] % 4) as usize * 2_048 + data[4] as usize * 8 + (data[5] / 32) as usize;
    head > data.len() || length > data.len() || head <= length
}

/// Bytes of the number in the head of a FLAC frame, by its first byte; none where it is no number.
pub open spec fn flac_number_len(first: u8) -> Option<int> {
    if first < 0x80 {
        Some(1)
    } else if first < 0xc0 {
        None
    } else if first < 0xe0 {
        Some(2)
    } else if first < 0xf0 {
        Some(3)
    } else if first < 0xf8 {
        Some(4)
    } else if first < 0xfc {
        Some(5)
    } else if first < 0xfe {
        Some(6)
    } else if first < 0xff {
        Some(7)
    } else {
        None
    }
}

/// Whether the head of a FLAC frame declares a block of as many samples as two bytes can say, which
/// is one more than the boxer counts.
pub open spec fn flac_overflows(data: Seq<u8>) -> bool {
    &&& data.len() > 4
    &&& data[0] == 0xff
    &&& data[1] == 0xf8 || data[1] == 0xf9
    &&& data[2] as int / 16 == 7
    &&& data[3] as int / 16 < 11
    &&& data[3] as int / 2 % 8 != 3
    &&& data[3] as int % 2 == 0
    &&& flac_number_len(data[4]) matches Some(len)
    &&& data.len() >= 4 + len + 2
    &&& data[4 + len] == 0xff
    &&& data[5 + len] == 0xff
}

/// Decides whether the head of a FLAC frame declares too long a block.
pub fn flac_block_overflows(data: &[u8]) -> (r: bool)
    ensures
        r == flac_overflows(data@),
{
    if data.len() <= 4 || data[0] != 0xff || (data[1] != 0xf8 && data[1] != 0xf9) || data[2] / 16
        != 7 || data[3] / 16 >= 11 || data[3] / 2 % 8 == 3 || data[3] % 2 != 0 {
        return false;
    }
    let first: u8 = data[4];
    let len: usize = if first < 0x80 {
        1
    } else if first < 0xc0 {
        return false;
    } else if first < 0xe0 {
        2
    } else if first < 0xf0 {
        3
    } else if first < 0xf8 {
        4
    } else if first < 0xfc {
        5
    } else if first < 0xfe {
        6
    } else if first < 0xff {
        7
    } else {
        return false;
    };
    data.len() >= 4 + len + 2 && data[4 + len] == 0xff && data[5 + len] == 0xff
}

/// What the head of a FLAC frame says.
#[derive(Debug, Clone, Copy, PartialEq, Eq, Structural)]
pub struct FlacHead {
    pub block_size: u16,
    pub sample_rate: u32,
    pub bits_per_sample: u8,
}

/// The head that bytes open with as a FLAC frame, where they do.
pub uninterp spec fn flac_head(data: Seq<u8>) -> Option<FlacHead>;

/// Calls `access_unit::flac::decode_frame_header`.
///
/// Claimed of it: what it reads depends on the bytes alone. It adds one to the two bytes of a block's
/// length, which overflows where both are full.
#[verifier::external_body]
fn read_flac(data: &[u8]) -> (r: Option<FlacHead>)
    requires
        !flac_overflows(data@),
    ensures
        r == flac_head(data@),
{
    let head = access_unit::flac::decode_frame_header(data).ok()?;
    Some(FlacHead { block_size: head.block_size, sample_rate: head.sample_rate, bits_per_sample: head.bps })
}

/// What the boxer takes audio for, and how far into its units it starts, as the first unit tells.
pub open spec fn audio_found(units: Seq<AccessUnitView>) -> (AudioKind, int) {
    if units.len() == 0 {
        (AudioKind::Unknown, 0)
    } else {
        let data = units[0].data;
        if audio_named(data) != AudioKind::Unknown {
            (audio_named(data), 0)
        } else if data.len() >= 12 && audio_named(data.skip(12)) != AudioKind::Unknown {
            (audio_named(data.skip(12)), 12)
        } else if data.len() >= 4 && audio_named(data.skip(4)) != AudioKind::Unknown {
            (audio_named(data.skip(4)), 4)
        } else {
            (AudioKind::Unknown, 0)
        }
    }
}

/// The head of a unit's FLAC frame, where the boxer takes the unit: it has a rate.
pub open spec fn flac_taken(unit: AccessUnitView, offset: int) -> Option<FlacHead> {
    if unit.data.len() <= offset {
        None
    } else {
        match flac_head(unit.data.skip(offset)) {
            Some(head) => if head.sample_rate == 0 {
                None
            } else {
                Some(head)
            },
            None => None,
        }
    }
}

/// The head of the first FLAC frame that the boxer takes.
pub open spec fn first_flac(units: Seq<AccessUnitView>, offset: int) -> Option<FlacHead>
    decreases units.len(),
{
    if units.len() == 0 {
        None
    } else {
        match first_flac(units.drop_last(), offset) {
            Some(head) => Some(head),
            None => flac_taken(units.last(), offset),
        }
    }
}

/// Milliseconds that FLAC frames last at most, each rounded up.
pub open spec fn flac_ms(units: Seq<AccessUnitView>, offset: int) -> int
    decreases units.len(),
{
    if units.len() == 0 {
        0
    } else {
        flac_ms(units.drop_last(), offset) + match flac_taken(units.last(), offset) {
            Some(head) => head.block_size as int * 1_000 / head.sample_rate as int + 1,
            None => 0,
        }
    }
}

/// Whether the boxer can compute with FLAC frames: no block is too long, the first frame says how
/// wide its samples are, and together they last no longer than it counts.
pub open spec fn flac_sound(units: Seq<AccessUnitView>, offset: int) -> bool {
    &&& forall|i: int|
        0 <= i < units.len() && (#[trigger] units[i]).data.len() > offset ==> !flac_overflows(
            units[i].data.skip(offset),
        )
    &&& first_flac(units, offset) matches Some(head) ==> head.bits_per_sample > 0
    &&& flac_ms(units, offset) <= u32::MAX
}

/// Whether the boxer can compute with audio units, as what it takes them for.
pub open spec fn audio_sound(units: Seq<AccessUnitView>) -> bool {
    match audio_found(units) {
        (AudioKind::Aac, _) => forall|i: int|
            0 <= i < units.len() ==> adts_sound((#[trigger] units[i]).data),
        (AudioKind::Flac, offset) => flac_sound(units, offset),
        _ => true,
    }
}

/// Whether a unit is sound as a frame of AAC and as one of FLAC.
pub open spec fn unit_sound() -> spec_fn(AccessUnitView) -> bool {
    |unit: AccessUnitView| adts_sound(unit.data) && !flac_overflows(unit.data)
}

/// The audio units that are boxed: all of them where the boxer can compute with them; else those
/// that are sound by themselves, or none where that is not enough.
pub open spec fn audio_kept(units: Seq<AccessUnitView>) -> Seq<AccessUnitView> {
    if audio_sound(units) {
        units
    } else if audio_sound(units.filter(unit_sound())) {
        units.filter(unit_sound())
    } else {
        Seq::empty()
    }
}

/// Finds what the boxer takes audio for, and how far into its units it starts.
fn find_audio(units: &Vec<AccessUnit>) -> (r: (AudioKind, usize))
    ensures
        (r.0, r.1 as int) == audio_found(units_view(units@)),
        r.1 <= 12,
{
    if units.len() == 0 {
        return (AudioKind::Unknown, 0);
    }
    assert(units_view(units@)[0] == units@[0]@);
    let data = units[0].data.as_slice();
    let kind = detect_audio(data);
    if kind != AudioKind::Unknown {
        return (kind, 0);
    }
    if data.len() >= 12 {
        let rest = slice_subrange(data, 12, data.len());
        assert(rest@ =~= data@.skip(12));
        let kind = detect_audio(rest);
        if kind != AudioKind::Unknown {
            return (kind, 12);
        }
    }
    if data.len() >= 4 {
        let rest = slice_subrange(data, 4, data.len());
        assert(rest@ =~= data@.skip(4));
        let kind = detect_audio(rest);
        if kind != AudioKind::Unknown {
            return (kind, 4);
        }
    }
    (AudioKind::Unknown, 0)
}

/// What FLAC frames last only grows with more of them.
proof fn flac_ms_grows(units: Seq<AccessUnitView>, offset: int, head: int)
    requires
        0 <= head <= units.len(),
    ensures
        0 <= flac_ms(units.take(head), offset) <= flac_ms(units, offset),
    decreases units.len(),
{
    if units.len() == 0 {
        assert(units.take(head) =~= units);
    } else {
        flac_ms_is_its_last(units, offset);
        if head == units.len() {
            assert(units.take(head) =~= units);
            flac_ms_grows(units.drop_last(), offset, head - 1);
        } else {
            assert(units.take(head) =~= units.drop_last().take(head));
            flac_ms_grows(units.drop_last(), offset, head);
        }
    }
}

/// A frame lasts no negative time.
proof fn flac_ms_is_its_last(units: Seq<AccessUnitView>, offset: int)
    requires
        units.len() > 0,
    ensures
        flac_ms(units, offset) >= flac_ms(units.drop_last(), offset),
{
    if let Some(head) = flac_taken(units.last(), offset) {
        assert(head.block_size as int * 1_000 / head.sample_rate as int >= 0) by (nonlinear_arith)
            requires
                head.sample_rate > 0,
                head.block_size >= 0,
        ;
    }
}

/// Once a frame was taken, the first one stays the first.
proof fn first_flac_stays(units: Seq<AccessUnitView>, offset: int, head: int)
    requires
        0 <= head <= units.len(),
        first_flac(units.take(head), offset) is Some,
    ensures
        first_flac(units, offset) == first_flac(units.take(head), offset),
    decreases units.len() - head,
{
    if head == units.len() {
        assert(units.take(head) =~= units);
    } else {
        assert(units.take(head + 1).drop_last() =~= units.take(head));
        first_flac_stays(units, offset, head + 1);
    }
}

/// Decides whether the boxer can compute with FLAC frames.
fn flac_is_sound(units: &Vec<AccessUnit>, offset: usize) -> (r: bool)
    ensures
        r == flac_sound(units_view(units@), offset as int),
{
    let ghost views = units_view(units@);
    let ghost at = offset as int;
    let mut seen = false;
    let mut total_ms: u64 = 0;
    let mut i: usize = 0;
    assert(views.take(0) =~= Seq::<AccessUnitView>::empty());
    while i < units.len()
        invariant
            i <= units@.len(),
            views == units_view(units@),
            at == offset,
            total_ms == flac_ms(views.take(i as int), at),
            total_ms <= u32::MAX,
            seen == (first_flac(views.take(i as int), at) is Some),
            first_flac(views.take(i as int), at) matches Some(head) ==> head.bits_per_sample > 0,
            forall|j: int|
                0 <= j < i && (#[trigger] views[j]).data.len() > at ==> !flac_overflows(
                    views[j].data.skip(at),
                ),
        decreases units@.len() - i,
    {
        let ghost head_units = views.take(i + 1);
        assert(head_units.drop_last() =~= views.take(i as int));
        assert(head_units.last() == views[i as int]);
        assert(views[i as int] == units@[i as int]@);
        let data = units[i].data.as_slice();
        if data.len() > offset {
            let frame = slice_subrange(data, offset, data.len());
            assert(frame@ =~= data@.skip(at));
            if flac_block_overflows(frame) {
                assert(!flac_sound(views, at)) by {
                    assert(views[i as int].data.len() > at);
                }
                return false;
            }
            match read_flac(frame) {
                Some(head) => {
                    if head.sample_rate > 0 {
                        if !seen && head.bits_per_sample == 0 {
                            proof {
                                first_flac_stays(views, at, i + 1);
                            }
                            return false;
                        }
                        seen = true;
                        let lasting: u64 = head.block_size as u64 * 1_000 / head.sample_rate as u64
                            + 1;
                        total_ms = total_ms + lasting;
                        if total_ms > u32::MAX as u64 {
                            proof {
                                flac_ms_grows(views, at, i + 1);
                            }
                            return false;
                        }
                    }
                },
                None => {},
            }
        }
        i = i + 1;
    }
    assert(views.take(i as int) =~= views);
    true
}

/// Decides whether the boxer can compute with audio units.
pub fn audio_is_sound(units: &Vec<AccessUnit>) -> (r: bool)
    ensures
        r == audio_sound(units_view(units@)),
{
    let (kind, offset) = find_audio(units);
    let ghost views = units_view(units@);
    match kind {
        AudioKind::Aac => {
            let mut i: usize = 0;
            while i < units.len()
                invariant
                    i <= units@.len(),
                    views == units_view(units@),
                    audio_found(views).0 == AudioKind::Aac,
                    forall|j: int| 0 <= j < i ==> adts_sound((#[trigger] views[j]).data),
                decreases units@.len() - i,
            {
                assert(views[i as int] == units@[i as int]@);
                if !adts_is_sound(units[i].data.as_slice()) {
                    return false;
                }
                i = i + 1;
            }
            true
        },
        AudioKind::Flac => flac_is_sound(units, offset),
        _ => true,
    }
}

/// Keeps the audio units that are boxed.
pub fn keep_sound_audio(units: Vec<AccessUnit>) -> (r: Vec<AccessUnit>)
    ensures
        units_view(r@) == audio_kept(units_view(units@)),
        audio_sound(units_view(r@)),
{
    if audio_is_sound(&units) {
        return units;
    }
    let ghost views = units_view(units@);
    let mut rest = units;
    let mut kept: Vec<AccessUnit> = Vec::new();
    let ghost mut taken: int = 0;
    proof {
        assert(views.take(0) =~= Seq::<AccessUnitView>::empty());
        filter_empty(views.take(0), unit_sound());
        assert(units_view(kept@) =~= Seq::<AccessUnitView>::empty());
        assert(units_view(rest@) =~= views.skip(0));
    }
    while rest.len() > 0
        invariant
            0 <= taken <= views.len(),
            units_view(rest@) == views.skip(taken),
            units_view(kept@) == views.take(taken).filter(unit_sound()),
        decreases rest@.len(),
    {
        let ghost before = rest@;
        let unit = rest.remove(0);
        proof {
            assert(units_view(before).len() == before.len());
            assert(units_view(before)[0] == unit@);
            assert(taken < views.len());
            assert(views.skip(taken)[0] == views[taken]);
            assert(units_view(rest@) =~= units_view(before).skip(1));
            assert(units_view(rest@) =~= views.skip(taken + 1));
            assert(views.take(taken + 1) =~= views.take(taken).push(unit@));
            filter_push(views.take(taken), unit@, unit_sound());
        }
        let ghost older = kept@;
        if adts_is_sound(unit.data.as_slice()) && !flac_block_overflows(unit.data.as_slice()) {
            kept.push(unit);
            assert(units_view(kept@) =~= units_view(older).push(unit@));
        }
        proof {
            taken = taken + 1;
        }
    }
    assert(views.take(taken) =~= views);
    if audio_is_sound(&kept) {
        return kept;
    }
    let none: Vec<AccessUnit> = Vec::new();
    assert(units_view(none@) =~= Seq::<AccessUnitView>::empty());
    none
}

/// What is filtered out of units was among them.
proof fn filtered_units_were_there(units: Seq<AccessUnitView>, i: int)
    requires
        0 <= i < units.filter(unit_sound()).len(),
    ensures
        units.contains(units.filter(unit_sound())[i]),
    decreases units.len(),
{
    reveal(Seq::filter);
    if units.len() > 0 {
        let front = units.drop_last();
        let found = units.filter(unit_sound())[i];
        if i < front.filter(unit_sound()).len() {
            filtered_units_were_there(front, i);
            let at = choose|k: int| 0 <= k < front.len() && front[k] == found;
            assert(units[at] == found);
        } else {
            assert(units[units.len() - 1] == found);
        }
    }
}

/// Audio leaves as it came where the boxer can compute with it, which it can with all that is neither
/// AAC nor FLAC. What leaves otherwise was there and is sound by itself, and where any of it leaves,
/// all that is sound by itself does.
pub proof fn only_unsound_audio_is_dropped(units: Seq<AccessUnitView>)
    ensures
        ({
            let kept = audio_kept(units);
            &&& audio_sound(kept)
            &&& audio_sound(units) ==> kept == units
            &&& units.len() > 0 && audio_found(units).0 != AudioKind::Aac && audio_found(units).0
                != AudioKind::Flac ==> kept == units
            &&& !audio_sound(units) ==> forall|i: int|
                0 <= i < kept.len() ==> units.contains(#[trigger] kept[i]) && adts_sound(
                    kept[i].data,
                ) && !flac_overflows(kept[i].data)
            &&& kept.len() > 0 ==> forall|i: int|
                0 <= i < units.len() && adts_sound((#[trigger] units[i]).data) && !flac_overflows(
                    units[i].data,
                ) ==> kept.contains(units[i])
        }),
{
    let sound = units.filter(unit_sound());
    assert forall|i: int| 0 <= i < sound.len() implies units.contains(#[trigger] sound[i])
        && unit_sound()(sound[i]) by {
        filtered_units_were_there(units, i);
        units.lemma_filter_pred(unit_sound(), i);
    }
    assert forall|i: int| 0 <= i < units.len() && unit_sound()(#[trigger] units[i]) implies sound.contains(
        units[i],
    ) by {
        units.lemma_filter_contains(unit_sound(), i);
    }
    assert forall|i: int| 0 <= i < units.len() implies units.contains(#[trigger] units[i]) by {}
}

/// Whether a block is too long is told by the head alone: what follows it changes nothing.
pub proof fn long_blocks_are_told_by_their_head(data: Seq<u8>, more: Seq<u8>)
    requires
        data.len() >= 13,
    ensures
        flac_overflows(data + more) == flac_overflows(data),
{
    assert forall|i: int| 0 <= i < data.len() implies #[trigger] (data + more)[i] == data[i] by {}
}

/// A frame of AAC that declares at least its head is sound, and so is one that is cut off.
pub proof fn whole_heads_are_sound(data: Seq<u8>, more: Seq<u8>)
    requires
        data.len() >= 7,
        adts_fields(data) is Some,
    ensures
        adts_frame_len(data) >= 9 ==> adts_sound(data),
        adts_frame_len(data) > data.len() ==> adts_sound(data),
        adts_frame_len(data) < 7 && data.len() >= 9 ==> !adts_sound(data),
{
}

} // verus!
