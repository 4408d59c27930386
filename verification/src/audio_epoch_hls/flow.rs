//! That every recovered payload is published: over any groups, gaps and new formats among them, the
//! parts of a rendition hold the payloads of its groups, once and in order.
use crate::audio_epoch_hls::group::{
    AudioGroupView, AudioPayloadKind, AudioSampleFormat, PackageError,
    AUDIO_GROUP_FLAG_DISCONTINUITY, AUDIO_GROUP_FLAG_ERASURE,
};
use crate::audio_epoch_hls::opaque::{OpaquePartView, OpaqueView};
use crate::audio_epoch_hls::rendition::{
    completed_at, packaged, position, AudioEpochHlsConfig, AudioEpochHlsPackaging, PackageStepView,
    PackagerView, RenditionKey, RenditionPartView, RenditionView,
};
use crate::fmp4_bridge::model::{ResumeView, SegmenterView};
use vstd::prelude::*;

verus! {

/// Whether a group was recovered whole: it is no erasure, has samples, channels and bytes, and ends
/// before the last sample that can be counted.
pub open spec fn is_whole(group: AudioGroupView) -> bool {
    &&& group.flags & AUDIO_GROUP_FLAG_ERASURE == 0
    &&& group.payload.len() > 0
    &&& group.sample_rate > 0
    &&& 0 < group.frame_count <= 4_000_000
    &&& group.channel_count > 0
    &&& group.pts_samples + group.frame_count <= u64::MAX
}

/// How many milliseconds a group lasts: rounded, and one at the least.
pub open spec fn lasts_ms(group: AudioGroupView) -> int {
    let ms = (group.frame_count * 1_000 + group.sample_rate / 2) / group.sample_rate as int;
    if ms == 0 {
        1
    } else {
        ms
    }
}

/// What becomes of a list of renditions where every part that the one at `at` hands out is published:
/// the renditions afterwards, the parts in order, and how the last step went.
pub open spec fn published_at(
    entries: Seq<RenditionView>,
    at: int,
    packaging: AudioEpochHlsPackaging,
    step: PackageStepView,
) -> (Seq<RenditionView>, Seq<RenditionPartView>, PackageStepView) {
    match step {
        PackageStepView::Publish(part) => {
            let (second, next) = completed_at(entries, at, packaging, part, true);
            match next {
                PackageStepView::Publish(other) => {
                    let (third, last) = completed_at(second, at, packaging, other, true);
                    (third, seq![part, other], last)
                },
                _ => (second, seq![part], next),
            }
        },
        _ => (entries, Seq::empty(), step),
    }
}

/// What becomes of a group where every part that is handed out is published.
pub open spec fn packaged_and_published(
    entries: Seq<RenditionView>,
    config: AudioEpochHlsConfig,
    group: AudioGroupView,
) -> (Seq<RenditionView>, Seq<RenditionPartView>, PackageStepView) {
    let (first, step) = packaged(entries, config, group);
    published_at(first, position(first, group.key())->Some_0, config.packaging, step)
}

/// The renditions after some groups, each of whose parts is published.
pub open spec fn after_groups(config: AudioEpochHlsConfig, groups: Seq<AudioGroupView>) -> Seq<
    RenditionView,
>
    decreases groups.len(),
{
    if groups.len() == 0 {
        Seq::empty()
    } else {
        packaged_and_published(after_groups(config, groups.drop_last()), config, groups.last()).0
    }
}

/// The parts of a rendition that some groups end, in order.
pub open spec fn parts_of(
    config: AudioEpochHlsConfig,
    groups: Seq<AudioGroupView>,
    key: RenditionKey,
) -> Seq<RenditionPartView>
    decreases groups.len(),
{
    if groups.len() == 0 {
        Seq::empty()
    } else {
        let older = groups.drop_last();
        parts_of(config, older, key) + (if same_rendition(groups.last(), key) {
            packaged_and_published(after_groups(config, older), config, groups.last()).1
        } else {
            Seq::empty()
        })
    }
}

/// Whether a group belongs to a rendition.
pub open spec fn same_rendition(group: AudioGroupView, key: RenditionKey) -> bool {
    group.session_id == key.session_id && group.group_id == key.group_id
}

/// The bytes of opaque parts, one behind the other.
pub open spec fn bytes_of(parts: Seq<RenditionPartView>) -> Seq<u8>
    decreases parts.len(),
{
    if parts.len() == 0 {
        Seq::empty()
    } else {
        bytes_of(parts.drop_last()) + (match parts.last() {
            RenditionPartView::Opaque(part) => part.bytes,
            RenditionPartView::Fmp4(_) => Seq::empty(),
        })
    }
}

/// The payloads of a rendition's groups, one behind the other.
pub open spec fn payloads_of(groups: Seq<AudioGroupView>, key: RenditionKey) -> Seq<u8>
    decreases groups.len(),
{
    if groups.len() == 0 {
        Seq::empty()
    } else {
        payloads_of(groups.drop_last(), key) + (if same_rendition(groups.last(), key) {
            groups.last().payload
        } else {
            Seq::empty()
        })
    }
}

/// The bytes that a rendition still holds.
pub open spec fn held(entries: Seq<RenditionView>, key: RenditionKey) -> Seq<u8> {
    match position(entries, key) {
        Some(at) => match entries[at].packager {
            PackagerView::Opaque(state) => state.bytes,
            PackagerView::Fmp4(_, _) => Seq::empty(),
        },
        None => Seq::empty(),
    }
}

/// Whether every rendition publishes payloads as they are, and no part is out.
pub open spec fn all_opaque(entries: Seq<RenditionView>) -> bool {
    forall|i: int|
        0 <= i < entries.len() ==> (#[trigger] entries[i]).packager is Opaque && entries[i].waiting
            is None
}

/// What becomes of one rendition where every part that it hands out is published.
pub open spec fn published_by(
    rendition: RenditionView,
    packaging: AudioEpochHlsPackaging,
    step: PackageStepView,
) -> (RenditionView, Seq<RenditionPartView>, PackageStepView) {
    match step {
        PackageStepView::Publish(part) => {
            let (second, next) = rendition.complete(packaging, part, true);
            match next {
                PackageStepView::Publish(other) => {
                    let (third, last) = second.complete(packaging, other, true);
                    (third, seq![part, other], last)
                },
                _ => (second, seq![part], next),
            }
        },
        _ => (rendition, Seq::empty(), step),
    }
}

/// What one rendition makes of a group where every part that is handed out is published.
pub open spec fn taken_and_published(
    rendition: RenditionView,
    packaging: AudioEpochHlsPackaging,
    group: AudioGroupView,
) -> (RenditionView, Seq<RenditionPartView>, PackageStepView) {
    let (first, step) = rendition.package(packaging, group);
    published_by(first, packaging, step)
}

/// Whether opaque parts belong to a stream and are numbered on from a number.
pub open spec fn numbered_from(parts: Seq<RenditionPartView>, state: OpaqueView) -> bool {
    forall|i: int|
        0 <= i < parts.len() ==> ((#[trigger] parts[i]) matches RenditionPartView::Opaque(part)
            && part.sequence == state.published_parts + i && part.stream_id == state.output_stream_id
            && part.stream_idx == state.output_stream_idx && part.bytes.len() > 0)
}

/// The bytes of one opaque part.
proof fn bytes_of_one(part: RenditionPartView)
    requires
        part is Opaque,
    ensures
        bytes_of(seq![part]) == part->Opaque_0.bytes,
{
    reveal_with_fuel(bytes_of, 2);
    assert(seq![part].drop_last() =~= Seq::<RenditionPartView>::empty());
    assert(bytes_of(seq![part]) =~= part->Opaque_0.bytes);
}

/// The bytes of two opaque parts.
proof fn bytes_of_two(first: RenditionPartView, second: RenditionPartView)
    requires
        first is Opaque,
        second is Opaque,
    ensures
        bytes_of(seq![first, second]) == first->Opaque_0.bytes + second->Opaque_0.bytes,
{
    bytes_of_one(first);
    assert(seq![first, second].drop_last() =~= seq![first]);
}

/// A payload joins what is held, or ends the part with it.
proof fn an_opaque_payload_is_taken(
    rendition: RenditionView,
    state: OpaqueView,
    group: AudioGroupView,
)
    requires
        rendition.packager == PackagerView::Opaque(state),
        is_whole(group),
        state.published_parts + 1 <= u64::MAX,
        state.duration_ms + lasts_ms(group) <= u32::MAX,
        state.audio_units < usize::MAX,
    ensures
        ({
            let (after, step) = rendition.take(AudioEpochHlsPackaging::Opaque, group);
            let long = state.duration_ms + lasts_ms(group) >= state.min_part_ms;
            &&& after.key == rendition.key
            &&& after.format == rendition.format
            &&& after.waiting == rendition.waiting
            &&& after.expected_pts_samples == Some((group.pts_samples + group.frame_count) as u64)
            &&& after.packager matches PackagerView::Opaque(left) && {
                &&& left.output_stream_id == state.output_stream_id
                &&& left.output_stream_idx == state.output_stream_idx
                &&& left.min_part_ms == state.min_part_ms
                &&& if long {
                    &&& left.bytes.len() == 0
                    &&& left.published_parts == state.published_parts + 1
                    &&& step matches PackageStepView::Publish(RenditionPartView::Opaque(part)) && {
                        &&& part.bytes == state.bytes + group.payload
                        &&& part.audio_units == state.audio_units + 1
                        &&& part.duration_ms == state.duration_ms + lasts_ms(group)
                        &&& part.sequence == state.published_parts
                        &&& part.stream_id == state.output_stream_id
                        &&& part.stream_idx == state.output_stream_idx
                    }
                } else {
                    &&& step is Done
                    &&& left.bytes == state.bytes + group.payload
                    &&& left.published_parts == state.published_parts
                    &&& left.duration_ms == state.duration_ms + lasts_ms(group)
                    &&& left.audio_units == state.audio_units + 1
                }
            }
        }),
{
    group_ms_is_short(group);
}

/// A group that is taken into an opaque rendition leaves nothing out: what it held, and the group's
/// payload behind it, is in the parts that are published or held on. A group that does not go on from
/// the one before it, in time, in format or by what it says, is not joined with it: what was held is a
/// part of its own. A part ends as soon as it is long enough.
#[verifier::spinoff_prover]
#[verifier::rlimit(60)]
pub proof fn an_opaque_group_is_published(
    rendition: RenditionView,
    state: OpaqueView,
    group: AudioGroupView,
)
    requires
        rendition.packager == PackagerView::Opaque(state),
        rendition.waiting is None,
        is_whole(group),
        state.published_parts + 2 <= u64::MAX,
        state.duration_ms + lasts_ms(group) <= u32::MAX,
        state.audio_units < usize::MAX,
    ensures
        ({
            let (after, parts, step) = taken_and_published(
                rendition,
                AudioEpochHlsPackaging::Opaque,
                group,
            );
            let breaks = rendition.format.config_generation != group.config_generation
                || rendition.format.sample_rate != group.sample_rate
                || rendition.format.channel_count != group.channel_count
                || rendition.format.payload_kind != group.payload_kind
                || rendition.format.sample_format != group.sample_format || (
            rendition.expected_pts_samples is Some && rendition.expected_pts_samples
                != Some(group.pts_samples)) || group.flags & AUDIO_GROUP_FLAG_DISCONTINUITY != 0;
            &&& step is Done
            &&& after.key == rendition.key
            &&& after.waiting is None
            &&& after.expected_pts_samples == Some((group.pts_samples + group.frame_count) as u64)
            &&& after.format == group.format()
            &&& after.packager matches PackagerView::Opaque(left) && {
                let joined = bytes_of(parts) + left.bytes;
                &&& joined == state.bytes + group.payload
                &&& left.published_parts == state.published_parts + parts.len()
                &&& left.output_stream_id == state.output_stream_id
                &&& left.output_stream_idx == state.output_stream_idx
                &&& left.min_part_ms == state.min_part_ms
                &&& if breaks && state.bytes.len() > 0 {
                    &&& parts.len() >= 1
                    &&& parts[0] matches RenditionPartView::Opaque(part) && part.bytes
                        == state.bytes && part.audio_units == state.audio_units
                    &&& parts.len() == 2 <==> lasts_ms(group) >= state.min_part_ms
                    &&& parts.len() == 1 ==> left.duration_ms == lasts_ms(group)
                        && left.audio_units == 1
                    &&& parts.len() == 2 ==> (parts[1] matches RenditionPartView::Opaque(part)
                        && part.duration_ms == lasts_ms(group) && part.audio_units == 1)
                } else {
                    let before_ms = if breaks {
                        0
                    } else {
                        state.duration_ms as int
                    };
                    let before_units = if breaks {
                        0
                    } else {
                        state.audio_units as int
                    };
                    &&& parts.len() <= 1
                    &&& parts.len() == 1 <==> before_ms + lasts_ms(group) >= state.min_part_ms
                    &&& parts.len() == 0 ==> left.duration_ms == before_ms + lasts_ms(group)
                        && left.audio_units == before_units + 1
                    &&& parts.len() == 1 ==> (parts[0] matches RenditionPartView::Opaque(part)
                        && part.duration_ms == before_ms + lasts_ms(group) && part.audio_units
                        == before_units + 1)
                }
            }
            &&& numbered_from(parts, state)
        }),
{
    let opaque = AudioEpochHlsPackaging::Opaque;
    let fresh = RenditionView {
        packager: PackagerView::Opaque(state.reset()),
        format: group.format(),
        waiting: None,
        ..rendition
    };
    if !rendition.breaks_off(group) {
        an_opaque_payload_is_taken(rendition, state, group);
        let (first, step) = rendition.take(opaque, group);
        match step {
            PackageStepView::Publish(part) => {
                bytes_of_one(part);
                assert(first.complete(opaque, part, true) == (first, PackageStepView::Done));
            },
            _ => {},
        }
    } else if state.bytes.len() == 0 {
        assert(state.flush() == (state, None::<OpaquePartView>));
        assert(rendition.package(opaque, group) == fresh.take(opaque, group));
        an_opaque_payload_is_taken(fresh, state.reset(), group);
        let (first, step) = fresh.take(opaque, group);
        match step {
            PackageStepView::Publish(part) => {
                bytes_of_one(part);
                assert(first.complete(opaque, part, true) == (first, PackageStepView::Done));
            },
            _ => {},
        }
        assert(state.bytes + group.payload =~= state.reset().bytes + group.payload);
    } else {
        let ended = state.flush().0;
        let part = RenditionPartView::Opaque(state.part());
        let waits = RenditionView {
            packager: PackagerView::Opaque(ended),
            waiting: Some(group),
            ..rendition
        };
        let anew = RenditionView { packager: PackagerView::Opaque(ended.reset()), ..fresh };
        assert(rendition.package(opaque, group) == (waits, PackageStepView::Publish(part)));
        assert(waits.complete(opaque, part, true) == anew.take(opaque, group));
        an_opaque_payload_is_taken(anew, ended.reset(), group);
        let (second, step) = anew.take(opaque, group);
        match step {
            PackageStepView::Publish(other) => {
                bytes_of_two(part, other);
                assert(second.complete(opaque, other, true) == (second, PackageStepView::Done));
            },
            _ => {
                bytes_of_one(part);
            },
        }
        assert(ended.reset().bytes + group.payload =~= group.payload);
    }
}

/// A group of so few frames lasts no longer than a part can say.
proof fn group_ms_is_short(group: AudioGroupView)
    requires
        is_whole(group),
    ensures
        0 <= (group.frame_count * 1_000 + group.sample_rate / 2) / group.sample_rate as int
            <= u32::MAX,
{
    let rate = group.sample_rate as int;
    let top = group.frame_count * 1_000 + group.sample_rate / 2;
    assert(0 <= top / rate <= 4_000_000_001) by (nonlinear_arith)
        requires
            rate >= 1,
            0 <= top <= 4_000_000_000 + rate / 2,
    ;
}

/// Whatever a rendition holds, the bytes of a group are published or held on.
proof fn an_opaque_group_keeps_its_bytes(
    rendition: RenditionView,
    state: OpaqueView,
    group: AudioGroupView,
)
    requires
        rendition.packager == PackagerView::Opaque(state),
        rendition.waiting is None,
        is_whole(group),
    ensures
        ({
            let (after, parts, step) = taken_and_published(
                rendition,
                AudioEpochHlsPackaging::Opaque,
                group,
            );
            &&& step is Done
            &&& after.key == rendition.key
            &&& after.waiting is None
            &&& after.packager matches PackagerView::Opaque(left) && bytes_of(parts) + left.bytes
                == state.bytes + group.payload
        }),
{
    let opaque = AudioEpochHlsPackaging::Opaque;
    let fresh = RenditionView {
        packager: PackagerView::Opaque(state.reset()),
        format: group.format(),
        waiting: None,
        ..rendition
    };
    group_ms_is_short(group);
    if !rendition.breaks_off(group) {
        taking_keeps_bytes(rendition, state, group);
        let (first, step) = rendition.take(opaque, group);
        match step {
            PackageStepView::Publish(part) => {
                bytes_of_one(part);
                assert(first.complete(opaque, part, true) == (first, PackageStepView::Done));
                assert(part->Opaque_0.bytes + Seq::<u8>::empty() =~= part->Opaque_0.bytes);
            },
            _ => {},
        }
    } else if state.bytes.len() == 0 {
        assert(state.flush() == (state, None::<OpaquePartView>));
        assert(rendition.package(opaque, group) == fresh.take(opaque, group));
        taking_keeps_bytes(fresh, state.reset(), group);
        let (first, step) = fresh.take(opaque, group);
        match step {
            PackageStepView::Publish(part) => {
                bytes_of_one(part);
                assert(first.complete(opaque, part, true) == (first, PackageStepView::Done));
            },
            _ => {},
        }
        assert(state.bytes + group.payload =~= state.reset().bytes + group.payload);
    } else {
        let ended = state.flush().0;
        let part = RenditionPartView::Opaque(state.part());
        let waits = RenditionView {
            packager: PackagerView::Opaque(ended),
            waiting: Some(group),
            ..rendition
        };
        let anew = RenditionView { packager: PackagerView::Opaque(ended.reset()), ..fresh };
        assert(rendition.package(opaque, group) == (waits, PackageStepView::Publish(part)));
        assert(waits.complete(opaque, part, true) == anew.take(opaque, group));
        taking_keeps_bytes(anew, ended.reset(), group);
        let (second, step) = anew.take(opaque, group);
        match step {
            PackageStepView::Publish(other) => {
                bytes_of_two(part, other);
                assert(second.complete(opaque, other, true) == (second, PackageStepView::Done));
            },
            _ => {
                bytes_of_one(part);
            },
        }
        assert(ended.reset().bytes + group.payload =~= group.payload);
    }
    let (after, parts, step) = taken_and_published(rendition, opaque, group);
    assert(bytes_of(parts) + after.packager->Opaque_0.bytes =~= state.bytes + group.payload);
}

/// What was held and a payload behind it is held on, or is one part.
proof fn taking_keeps_bytes(rendition: RenditionView, state: OpaqueView, group: AudioGroupView)
    requires
        rendition.packager == PackagerView::Opaque(state),
        is_whole(group),
    ensures
        ({
            let (after, step) = rendition.take(AudioEpochHlsPackaging::Opaque, group);
            &&& after.key == rendition.key
            &&& after.waiting == rendition.waiting
            &&& after.packager matches PackagerView::Opaque(left) && match step {
                PackageStepView::Done => left.bytes == state.bytes + group.payload,
                PackageStepView::Publish(RenditionPartView::Opaque(part)) => left.bytes.len() == 0
                    && part.bytes == state.bytes + group.payload,
                _ => false,
            }
        }),
{
    group_ms_is_short(group);
}

/// Where a key's rendition is found, it is that key's, and it stays there when it changes.
proof fn found_is_of_the_key(entries: Seq<RenditionView>, key: RenditionKey)
    ensures
        match position(entries, key) {
            Some(at) => 0 <= at < entries.len() && entries[at].key == key,
            None => forall|i: int| 0 <= i < entries.len() ==> (#[trigger] entries[i]).key != key,
        },
    decreases entries.len(),
{
    if entries.len() > 0 && entries[0].key != key {
        found_is_of_the_key(entries.skip(1), key);
        match position(entries.skip(1), key) {
            Some(at) => {},
            None => {
                assert forall|i: int| 0 <= i < entries.len() implies (#[trigger] entries[i]).key
                    != key by {
                    if i > 0 {
                        assert(entries.skip(1)[i - 1] == entries[i]);
                    }
                }
            },
        }
    }
}

/// A rendition that changes under its key leaves where others are found.
proof fn updating_keeps_positions(
    entries: Seq<RenditionView>,
    at: int,
    entry: RenditionView,
    key: RenditionKey,
)
    requires
        0 <= at < entries.len(),
        entry.key == entries[at].key,
    ensures
        position(entries.update(at, entry), key) == position(entries, key),
    decreases entries.len(),
{
    let changed = entries.update(at, entry);
    assert(changed[0].key == entries[0].key);
    if entries[0].key != key {
        if at == 0 {
            assert(changed.skip(1) =~= entries.skip(1));
        } else {
            assert(changed.skip(1) =~= entries.skip(1).update(at - 1, entry));
            updating_keeps_positions(entries.skip(1), at - 1, entry, key);
        }
    }
}

/// A rendition that is added at the end is found where no other has its key.
proof fn adding_keeps_positions(
    entries: Seq<RenditionView>,
    entry: RenditionView,
    key: RenditionKey,
)
    ensures
        position(entries.push(entry), key) == (match position(entries, key) {
            Some(at) => Some(at),
            None => if entry.key == key {
                Some(entries.len() as int)
            } else {
                None
            },
        }),
    decreases entries.len(),
{
    let more = entries.push(entry);
    if entries.len() == 0 {
        assert(more[0] == entry);
        assert(more.skip(1) =~= Seq::<RenditionView>::empty());
        assert(position(more.skip(1), key) is None);
    } else if entries[0].key != key {
        assert(more[0] == entries[0]);
        assert(more.skip(1) =~= entries.skip(1).push(entry));
        adding_keeps_positions(entries.skip(1), entry, key);
    } else {
        assert(more[0] == entries[0]);
    }
}

/// Publishing the parts of one rendition of a list changes that one alone.
#[verifier::spinoff_prover]
proof fn one_rendition_is_published(
    entries: Seq<RenditionView>,
    at: int,
    packaging: AudioEpochHlsPackaging,
    step: PackageStepView,
)
    requires
        0 <= at < entries.len(),
    ensures
        ({
            let (after, parts, end) = published_by(entries[at], packaging, step);
            published_at(entries, at, packaging, step) == (entries.update(at, after), parts, end)
        }),
{
    match step {
        PackageStepView::Publish(part) => {
            let second = entries[at].complete(packaging, part, true).0;
            match entries[at].complete(packaging, part, true).1 {
                PackageStepView::Publish(other) => {
                    let third = second.complete(packaging, other, true).0;
                    assert(entries.update(at, second).update(at, third) =~= entries.update(
                        at,
                        third,
                    ));
                    assert(entries.update(at, second)[at] == second);
                },
                _ => {},
            }
        },
        _ => {
            assert(entries.update(at, entries[at]) =~= entries);
        },
    }
}

/// What is held under any key where one rendition of a list has changed.
proof fn one_change_is_held(
    entries: Seq<RenditionView>,
    at: int,
    after: RenditionView,
    key: RenditionKey,
)
    requires
        all_opaque(entries),
        position(entries, key) == Some(at),
        after.key == key,
        after.waiting is None,
        after.packager is Opaque,
    ensures
        all_opaque(entries.update(at, after)),
        held(entries.update(at, after), key) == after.packager->Opaque_0.bytes,
        forall|other: RenditionKey|
            other != key ==> #[trigger] held(entries.update(at, after), other) == held(
                entries,
                other,
            ),
{
    found_is_of_the_key(entries, key);
    updating_keeps_positions(entries, at, after, key);
    assert forall|other: RenditionKey| other != key implies #[trigger] held(
        entries.update(at, after),
        other,
    ) == held(entries, other) by {
        updating_keeps_positions(entries, at, after, other);
        found_is_of_the_key(entries, other);
    }
}

/// What is held under any key where a rendition was added to a list.
proof fn one_more_is_held(entries: Seq<RenditionView>, after: RenditionView, key: RenditionKey)
    requires
        all_opaque(entries),
        position(entries, key) is None,
        after.key == key,
        after.waiting is None,
        after.packager is Opaque,
    ensures
        all_opaque(entries.push(after)),
        held(entries.push(after), key) == after.packager->Opaque_0.bytes,
        forall|other: RenditionKey|
            other != key ==> #[trigger] held(entries.push(after), other) == held(entries, other),
{
    adding_keeps_positions(entries, after, key);
    assert forall|other: RenditionKey| other != key implies #[trigger] held(
        entries.push(after),
        other,
    ) == held(entries, other) by {
        adding_keeps_positions(entries, after, other);
        found_is_of_the_key(entries, other);
    }
}

/// Taking a group changes its own rendition alone, as that takes it.
#[verifier::spinoff_prover]
#[verifier::rlimit(60)]
proof fn one_rendition_takes_the_group(
    entries: Seq<RenditionView>,
    config: AudioEpochHlsConfig,
    group: AudioGroupView,
)
    requires
        config.packaging == AudioEpochHlsPackaging::Opaque,
        all_opaque(entries),
        is_whole(group),
        config.base_stream_id + group.group_id <= usize::MAX,
        config.base_stream_id + group.group_id <= u64::MAX,
    ensures
        ({
            let (after, parts, step) = packaged_and_published(entries, config, group);
            &&& step is Done
            &&& all_opaque(after)
            &&& bytes_of(parts) + held(after, group.key()) == held(entries, group.key())
                + group.payload
            &&& forall|key: RenditionKey|
                key != group.key() ==> #[trigger] held(after, key) == held(entries, key)
        }),
{
    let key = group.key();
    let opaque = AudioEpochHlsPackaging::Opaque;
    assert(group.defect() is None);
    found_is_of_the_key(entries, key);
    match position(entries, key) {
        Some(at) => {
            let entry = entries[at];
            an_opaque_group_keeps_its_bytes(entry, entry.packager->Opaque_0, group);
            a_rendition_keeps_its_key(entry, group);
            let (first, step) = entry.package(opaque, group);
            let begun = entries.update(at, first);
            updating_keeps_positions(entries, at, first, key);
            one_rendition_is_published(begun, at, opaque, step);
            let taken = taken_and_published(entry, opaque, group).0;
            assert(begun.update(at, taken) =~= entries.update(at, taken));
            one_change_is_held(entries, at, taken, key);
        },
        None => {
            let entry = crate::audio_epoch_hls::rendition::first_rendition(config, group);
            an_opaque_group_keeps_its_bytes(entry, entry.packager->Opaque_0, group);
            a_rendition_keeps_its_key(entry, group);
            let (first, step) = entry.package(opaque, group);
            let begun = entries.push(first);
            adding_keeps_positions(entries, first, key);
            one_rendition_is_published(begun, entries.len() as int, opaque, step);
            let taken = taken_and_published(entry, opaque, group).0;
            assert(begun.update(entries.len() as int, taken) =~= entries.push(taken));
            one_more_is_held(entries, taken, key);
            assert(entry.packager->Opaque_0.bytes =~= Seq::<u8>::empty());
        },
    }
}

/// A rendition keeps its key while it takes a group.
proof fn a_rendition_keeps_its_key(rendition: RenditionView, group: AudioGroupView)
    ensures
        rendition.package(AudioEpochHlsPackaging::Opaque, group).0.key == rendition.key,
{
}

/// Over any groups that were recovered whole, with every part published, the parts of a rendition and
/// what it still holds behind them are the payloads of its groups, in order: across gaps, changes of
/// format and discontinuities, and whatever comes between for other renditions.
#[verifier::spinoff_prover]
#[verifier::rlimit(60)]
pub proof fn every_recovered_payload_is_published(
    config: AudioEpochHlsConfig,
    groups: Seq<AudioGroupView>,
    key: RenditionKey,
)
    requires
        config.packaging == AudioEpochHlsPackaging::Opaque,
        forall|i: int|
            0 <= i < groups.len() ==> is_whole(#[trigger] groups[i]) && config.base_stream_id
                + groups[i].group_id <= usize::MAX && config.base_stream_id + groups[i].group_id
                <= u64::MAX,
    ensures
        bytes_of(parts_of(config, groups, key)) + held(after_groups(config, groups), key)
            == payloads_of(groups, key),
        all_opaque(after_groups(config, groups)),
    decreases groups.len(),
{
    if groups.len() == 0 {
        assert(Seq::<u8>::empty() + Seq::<u8>::empty() =~= Seq::<u8>::empty());
    } else {
        let older = groups.drop_last();
        let group = groups.last();
        assert(groups[groups.len() - 1] == group);
        assert forall|i: int| 0 <= i < older.len() implies is_whole(#[trigger] older[i])
            && config.base_stream_id + older[i].group_id <= usize::MAX && config.base_stream_id
            + older[i].group_id <= u64::MAX by {
            assert(older[i] == groups[i]);
        }
        every_recovered_payload_is_published(config, older, key);
        let before = after_groups(config, older);
        one_rendition_takes_the_group(before, config, group);
        let (after, parts, step) = packaged_and_published(before, config, group);
        let sent = parts_of(config, older, key);
        if same_rendition(group, key) {
            assert(group.key() == key);
            bytes_of_more(sent, parts);
            assert(bytes_of(sent + parts) + held(after, key) =~= (bytes_of(sent) + held(before, key))
                + group.payload) by {
                assert(bytes_of(sent) + (bytes_of(parts) + held(after, key)) == bytes_of(sent) + (
                held(before, key) + group.payload));
                assert((bytes_of(sent) + bytes_of(parts)) + held(after, key) =~= bytes_of(sent) + (
                bytes_of(parts) + held(after, key)));
                assert(bytes_of(sent) + (held(before, key) + group.payload) =~= (bytes_of(sent)
                    + held(before, key)) + group.payload);
            }
        } else {
            assert(group.key() != key);
            assert(sent + Seq::<RenditionPartView>::empty() =~= sent);
            assert(payloads_of(groups, key) =~= payloads_of(older, key));
        }
    }
}

/// The bytes of parts behind others.
proof fn bytes_of_more(a: Seq<RenditionPartView>, b: Seq<RenditionPartView>)
    ensures
        bytes_of(a + b) == bytes_of(a) + bytes_of(b),
    decreases b.len(),
{
    if b.len() == 0 {
        assert(a + b =~= a);
        assert(bytes_of(a) + Seq::<u8>::empty() =~= bytes_of(a));
    } else {
        bytes_of_more(a, b.drop_last());
        assert((a + b).drop_last() =~= a + b.drop_last());
        assert((a + b).last() == b.last());
        assert(bytes_of(a + b) =~= bytes_of(a) + bytes_of(b));
    }
}

/// A group that is boxed leaves nothing out either. One that goes on from what a rendition holds is
/// boxed with it; one that does not starts over behind a part of what was held, and is taken when that
/// part is published. Uncompressed audio is boxed in the layout that the group declares.
pub proof fn a_boxed_group_is_taken(
    rendition: RenditionView,
    state: SegmenterView,
    group: AudioGroupView,
    part: RenditionPartView,
)
    requires
        rendition.packager == PackagerView::Fmp4(state, ResumeView::Idle),
        is_whole(group),
        group.payload_kind == AudioPayloadKind::Flac || (group.payload_kind == AudioPayloadKind::Pcm
            && group.pcm_defect() is None),
        !state.seen_video,
        state.video.len() == 0,
        part is Fmp4,
    ensures
        ({
            let boxed = AudioEpochHlsPackaging::Fmp4;
            let waits = RenditionView { waiting: Some(group), ..rendition };
            let (after, step) = waits.complete(boxed, part, true);
            &&& after.packager is Fmp4
            &&& after.waiting is None
            &&& after.expected_pts_samples == Some((group.pts_samples + group.frame_count) as u64)
            &&& after.format == group.format()
            &&& !(step is Failed)
            &&& match step {
                PackageStepView::Publish(RenditionPartView::Fmp4(own)) => own.audio_units == 1
                    && after.packager->Fmp4_0.audio.len() == 0,
                PackageStepView::Done => {
                    let left = after.packager->Fmp4_0;
                    ||| left.audio.len() == 1 && left.audio[0].data == group.payload
                    ||| left.audio.len() == 0 && left.pcm is Some
                },
                _ => false,
            }
            &&& after.packager->Fmp4_0.pcm == group.track()->Ok_0
        }),
{
    reveal(SegmenterView::push);
    reveal(SegmenterView::enter);
    group_ms_is_short(group);
}

/// Uncompressed audio says truly how its samples are laid out, and a payload of any other size than
/// that of its frames is refused.
pub proof fn pcm_is_boxed_as_it_is_laid_out(group: AudioGroupView)
    requires
        group.payload_kind == AudioPayloadKind::Pcm,
        group.sample_format != AudioSampleFormat::Unspecified,
    ensures
        ({
            let bytes: int = match group.sample_format {
                AudioSampleFormat::S16Le => 2,
                AudioSampleFormat::S24Le => 3,
                _ => 4,
            };
            let layout = group.track()->Ok_0->Some_0;
            &&& group.track() matches Ok(Some(_))
            &&& layout.sample_rate == group.sample_rate
            &&& layout.channel_count == group.channel_count
            &&& layout.sample_size == 8 * bytes
            &&& layout.little_endian
            &&& layout.sample_kind == crate::fmp4_bridge::track::PcmSampleKind::Float
                <==> group.sample_format == AudioSampleFormat::F32Le
            &&& group.frame_count * group.channel_count * bytes <= usize::MAX ==> (
            group.pcm_defect() is None <==> group.payload.len() == group.frame_count
                * group.channel_count * bytes)
        }),
{
}

/// What is not whole is refused, and changes no rendition.
pub proof fn only_whole_groups_are_taken(
    entries: Seq<RenditionView>,
    config: AudioEpochHlsConfig,
    group: AudioGroupView,
)
    requires
        group.flags & AUDIO_GROUP_FLAG_ERASURE != 0 || group.payload.len() == 0
            || group.sample_rate == 0 || group.frame_count == 0 || group.channel_count == 0,
    ensures
        packaged(entries, config, group).0 == entries,
        packaged(entries, config, group).1 is Failed,
        group.flags & AUDIO_GROUP_FLAG_ERASURE != 0 ==> packaged(entries, config, group).1
            == PackageStepView::Failed(
            PackageError::Erasure { session_id: group.session_id, group_id: group.group_id },
        ),
{
}

/// A rendition is published under the stream of its group, with parts as long as asked for.
pub proof fn a_new_rendition_has_its_own_stream(config: AudioEpochHlsConfig, group: AudioGroupView)
    requires
        config.base_stream_id + group.group_id <= usize::MAX,
        config.base_stream_id + group.group_id <= u64::MAX,
    ensures
        ({
            let first = crate::audio_epoch_hls::rendition::first_rendition(config, group);
            &&& same_rendition(group, first.key)
            &&& first.waiting is None
            &&& first.expected_pts_samples is None
            &&& first.format == group.format()
            &&& config.packaging == AudioEpochHlsPackaging::Opaque ==> (first.packager matches
                PackagerView::Opaque(state) && state.output_stream_id == config.base_stream_id
                + group.group_id && state.output_stream_idx == config.base_stream_id + group.group_id
                && (config.min_part_ms > 0 ==> state.min_part_ms == config.min_part_ms)
                && state.min_part_ms > 0 && state.published_parts == 0 && state.bytes.len() == 0)
            &&& config.packaging == AudioEpochHlsPackaging::Fmp4 ==> (first.packager matches
                PackagerView::Fmp4(state, resume) && state.output_stream_id == config.base_stream_id
                + group.group_id && state.output_stream_idx == config.base_stream_id + group.group_id
                && state.min_part_ticks == config.min_part_ms * 90 && state.eager
                && state.published_parts == 0 && state.includes_init() && resume == ResumeView::Idle)
        }),
{
}

} // verus!
