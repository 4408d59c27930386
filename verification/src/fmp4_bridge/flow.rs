//! That what comes into the packager goes out of it: every picture and every sound, once and in
//! order, in parts that are cut in time and say what they hold.
use crate::fmp4_bridge::access_unit::{
    AccessUnitView, STREAM_TYPE_AAC, STREAM_TYPE_H264, STREAM_TYPE_MPEG4_AAC,
    STREAM_TYPE_PRIVATE_DATA,
};
use crate::fmp4_bridge::boxable::{adts_sound, flac_overflows};
use crate::fmp4_bridge::laws::settled;
use crate::fmp4_bridge::model::{SegmenterView, StoreOutcome, MAX_PENDING_AUS_WITHOUT_CONFIG};
use crate::fmp4_bridge::nalu::{is_parameter_set, sample_units, without_parameter_sets};
use crate::fmp4_bridge::sps::believed_sps;
use crate::fmp4_bridge::ticks::TimestampInput;
use crate::fmp4_bridge::track::{PcmAudioConfig, PcmSampleKind};
use crate::arith::wrapped_u64;
use vstd::prelude::*;

verus! {

/// Whether a unit is of a kind of audio that is packaged.
pub open spec fn is_sound(unit: AccessUnitView) -> bool {
    unit.stream_type == STREAM_TYPE_AAC || unit.stream_type == STREAM_TYPE_MPEG4_AAC
        || unit.stream_type == STREAM_TYPE_PRIVATE_DATA
}

/// A sound is taken on the output's clock.
proof fn sounds_are_taken_on_the_clock(state: SegmenterView, unit: AccessUnitView)
    requires
        is_sound(unit),
    ensures
        state.push(unit) == (SegmenterView {
            timestamp_base_input: state.base_with(unit),
            ..state
        }).push_audio(state.normalized(unit)),
{
    reveal(SegmenterView::push);
    reveal(SegmenterView::enter);
}

/// In a running stream no sound is lost or doubled. While pictures are buffered a sound joins what
/// is buffered, and ends no part. Where none are, it joins the sounds before it, or a part ends: what
/// the part does not count of the sounds before and this one is what is buffered next. Nothing leaves
/// without a part but sounds of which the boxer makes an empty one.
pub proof fn a_running_stream_keeps_every_sound(
    state: SegmenterView,
    unit: AccessUnitView,
    outcome: StoreOutcome,
)
    requires
        is_sound(unit),
        state.config.avcc is Some,
        state.started_video,
    ensures
        ({
            let all = state.audio.push(state.normalized(unit));
            let step = state.push(unit);
            let after = settled(step, outcome);
            &&& state.video.len() > 0 ==> step.part is None && after.audio == all
            &&& after.video == state.video
            &&& after.config == state.config
            &&& after.started_video
            &&& match step.part {
                Some(part) => {
                    &&& part.video_units == 0
                    &&& part.audio_units == state.audio.len() || part.audio_units == all.len()
                    &&& after.audio == all.skip(part.audio_units as int)
                },
                None => {
                    ||| after.audio == all
                    ||| state.part(0).bytes.len() == 0 && after.audio == all.skip(
                        state.audio.len() as int,
                    )
                    ||| state.with_audio(all.last()).part(0).bytes.len() == 0 && after.audio
                        == all.skip(all.len() as int)
                },
            }
        }),
{
    sounds_are_taken_on_the_clock(state, unit);
    let sound = state.normalized(unit);
    let all = state.audio.push(sound);
    assert(all.skip(state.audio.len() as int) =~= Seq::<AccessUnitView>::empty().push(sound));
    assert(all.skip(all.len() as int) =~= Seq::<AccessUnitView>::empty());
    let based = SegmenterView { timestamp_base_input: state.base_with(unit), ..state };
    assert(based.part(0) == state.part(0));
    assert(based.with_audio(sound).part(0) == state.with_audio(sound).part(0));
    assert(state.with_audio(sound).audio.last() == sound);
}

/// A stream that has no pictures keeps every sound too: a sound joins those before it, or a part ends
/// and what it does not count is buffered next.
pub proof fn a_stream_of_sounds_keeps_every_sound(
    state: SegmenterView,
    unit: AccessUnitView,
    outcome: StoreOutcome,
)
    requires
        is_sound(unit),
        state.config.avcc is None,
        !state.seen_video,
        state.video.len() == 0,
    ensures
        ({
            let all = state.audio.push(state.normalized(unit));
            let step = state.push(unit);
            let after = settled(step, outcome);
            &&& after.video.len() == 0
            &&& match step.part {
                Some(part) => {
                    &&& part.video_units == 0
                    &&& part.audio_units == state.audio.len() || part.audio_units == all.len()
                    &&& after.audio == all.skip(part.audio_units as int)
                },
                None => {
                    ||| after.audio == all
                    ||| state.part(0).bytes.len() == 0 && after.audio == all.skip(
                        state.audio.len() as int,
                    )
                    ||| state.with_audio(all.last()).part(0).bytes.len() == 0 && after.audio
                        == all.skip(all.len() as int)
                },
            }
        }),
{
    sounds_are_taken_on_the_clock(state, unit);
    let sound = state.normalized(unit);
    let all = state.audio.push(sound);
    assert(all.skip(state.audio.len() as int) =~= Seq::<AccessUnitView>::empty().push(sound));
    assert(all.skip(all.len() as int) =~= Seq::<AccessUnitView>::empty());
    let based = SegmenterView { timestamp_base_input: state.base_with(unit), ..state };
    assert(based.part(0) == state.part(0));
    assert(based.with_audio(sound).part(0) == state.with_audio(sound).part(0));
}

/// Parts without pictures are cut in time: a sound that comes a whole part behind the first one that
/// is buffered does not join it, and one that comes sooner ends no part. Where parts of uncompressed
/// audio end with the sound that makes them long enough, they hold that long.
#[verifier::spinoff_prover]
#[verifier::rlimit(40)]
pub proof fn parts_of_sounds_are_cut_in_time(
    state: SegmenterView,
    unit: AccessUnitView,
    outcome: StoreOutcome,
)
    requires
        is_sound(unit),
        !state.seen_video || (state.config.avcc is Some && state.started_video),
        state.video.len() == 0,
    ensures
        ({
            let sound = state.normalized(unit);
            let step = state.push(unit);
            let after = settled(step, outcome);
            let part_ms = crate::fmp4_bridge::ticks::ms_of_ticks(state.min_part_ticks as int);
            if state.eager && state.pcm is Some {
                let with = state.with_audio(sound);
                &&& with.pcm_ms() >= part_ms ==> after.audio.len() == 0
                &&& with.pcm_ms() < part_ms ==> step.part is None && after.audio == with.audio
            } else if state.audio.len() > 0 && sound.pts - state.audio[0].pts >= part_ms && part_ms
                > 0 {
                after.audio == seq![sound]
            } else {
                part_ms > 0 ==> step.part is None && after.audio == state.audio.push(sound)
            }
        }),
{
    sounds_are_taken_on_the_clock(state, unit);
    let sound = state.normalized(unit);
    assert(Seq::<AccessUnitView>::empty().push(sound) =~= seq![sound]);
}

/// While the configuration of the pictures is not known, or none was taken under it, sounds wait
/// together with the pictures; only where more wait than may, all of them are let go.
pub proof fn sounds_wait_for_the_pictures(
    state: SegmenterView,
    unit: AccessUnitView,
    outcome: StoreOutcome,
)
    requires
        is_sound(unit),
        state.seen_video,
        state.config.avcc is None || !state.started_video,
    ensures
        ({
            let step = state.push(unit);
            let after = settled(step, outcome);
            &&& step.part is None
            &&& if state.video.len() + state.audio.len() < MAX_PENDING_AUS_WITHOUT_CONFIG {
                after.video == state.video && after.audio == state.audio.push(
                    state.normalized(unit),
                )
            } else {
                after.video.len() == 0 && after.audio.len() == 0
            }
        }),
{
    reveal(SegmenterView::push);
    reveal(SegmenterView::enter);
}

/// Pictures wait for a configuration in the same way.
pub proof fn pictures_wait_for_their_configuration(
    state: SegmenterView,
    unit: AccessUnitView,
    outcome: StoreOutcome,
)
    requires
        state.config.avcc is None,
        state.offered_config(unit.data) is None,
        without_parameter_sets(unit.data) matches Ok(Some(_)),
    ensures
        ({
            let media = AccessUnitView {
                data: without_parameter_sets(unit.data)->Ok_0->Some_0,
                ..unit
            };
            let step = state.push_video(unit);
            let after = settled(step, outcome);
            &&& step.part is None
            &&& if state.video.len() + state.audio.len() < MAX_PENDING_AUS_WITHOUT_CONFIG {
                after.video == state.video.push(media) && after.audio == state.audio
            } else {
                after.video.len() == 0 && after.audio.len() == 0
            }
        }),
{
}

/// Pictures leave the sounds alone, and parts with pictures are cut in time: a picture that is
/// decoded a whole part behind the first one that is buffered ends the part, with every sound that
/// came before it, and any other joins what is buffered, next to the same sounds.
pub proof fn parts_of_pictures_are_cut_in_time(
    state: SegmenterView,
    unit: AccessUnitView,
    outcome: StoreOutcome,
)
    requires
        state.config.avcc is Some,
        state.offered_config(unit.data) is None,
        without_parameter_sets(unit.data) matches Ok(Some(_)),
    ensures
        ({
            let media = AccessUnitView {
                data: without_parameter_sets(unit.data)->Ok_0->Some_0,
                ..unit
            };
            let step = state.push_video(unit);
            let after = settled(step, outcome);
            let long = state.video.len() > 0 && (unit.dts - state.video[0].dts
                >= state.min_part_ticks || unit.dts - state.video[0].dts
                >= state.max_part_ticks_without_key);
            &&& after.started_video
            &&& after.config == state.config
            &&& long ==> {
                &&& after.video == seq![media]
                &&& after.audio.len() == 0
                &&& step.part matches Some(part) ==> part.video_units == state.video.len()
                    && part.audio_units == state.audio.len()
                &&& state.part(unit.dts).bytes.len() > 0 ==> step.part is Some
            }
            &&& !long && state.min_part_ticks > 0 && state.max_part_ticks_without_key > 0 ==> {
                &&& step.part is None
                &&& after.video == state.video.push(media)
                &&& after.audio == state.audio
            }
        }),
{
    let media = AccessUnitView { data: without_parameter_sets(unit.data)->Ok_0->Some_0, ..unit };
    assert(Seq::<AccessUnitView>::empty().push(media) =~= seq![media]);
}

/// A configuration changes with a key picture alone. Everything buffered under the old one leaves
/// before it, the key picture is the first under the new one, and the next part brings the new
/// initialisation. A picture that is no key picture changes nothing of the configuration.
pub proof fn configurations_change_with_key_pictures(
    state: SegmenterView,
    unit: AccessUnitView,
    outcome: StoreOutcome,
)
    requires
        state.config.avcc is Some,
        without_parameter_sets(unit.data) matches Ok(Some(_)),
        state.offered_config(unit.data) matches Some(config) && config.signature()
            != state.config.signature(),
    ensures
        ({
            let config = state.offered_config(unit.data)->Some_0;
            let media = AccessUnitView {
                data: without_parameter_sets(unit.data)->Ok_0->Some_0,
                ..unit
            };
            let step = state.push_video(unit);
            let after = settled(step, outcome);
            if unit.key {
                &&& after.config == config
                &&& after.video == seq![media]
                &&& after.audio.len() == 0
                &&& after.started_video
                &&& after.force_next_init
                &&& after.includes_init()
                &&& step.part matches Some(part) ==> part.video_units == state.video.len()
                    && part.audio_units == state.audio.len() && part.signature.video
                    == state.config.signature()
            } else {
                &&& after.config == state.config
                &&& config.width != state.config.width || config.height != state.config.height
                    ==> step.part is None && after == state
            }
        }),
{
    let config = state.offered_config(unit.data)->Some_0;
    let media = AccessUnitView { data: without_parameter_sets(unit.data)->Ok_0->Some_0, ..unit };
    assert(Seq::<AccessUnitView>::empty().push(media) =~= seq![media]);
}

/// The first configuration of a stream is taken as it comes; what waited for it is let go, and the
/// first picture under it is a key picture.
pub proof fn the_first_configuration_starts_with_a_key_picture(
    state: SegmenterView,
    unit: AccessUnitView,
    outcome: StoreOutcome,
)
    requires
        state.config.avcc is None,
        without_parameter_sets(unit.data) matches Ok(Some(_)),
        state.offered_config(unit.data) is Some,
        state.offered_config(unit.data)->Some_0.avcc is Some,
    ensures
        ({
            let config = state.offered_config(unit.data)->Some_0;
            let media = AccessUnitView {
                data: without_parameter_sets(unit.data)->Ok_0->Some_0,
                ..unit
            };
            let step = state.push_video(unit);
            let after = settled(step, outcome);
            &&& step.part is None
            &&& after.config == config
            &&& after.audio.len() == 0
            &&& after.includes_init()
            &&& unit.key ==> after.video == seq![media] && after.started_video
            &&& !unit.key ==> after.video.len() == 0 && !after.started_video
        }),
{
    let media = AccessUnitView { data: without_parameter_sets(unit.data)->Ok_0->Some_0, ..unit };
    assert(Seq::<AccessUnitView>::empty().push(media) =~= seq![media]);
}

/// A configuration that a sample offers is made of parameter sets that the sample holds or that were
/// known before, at least one of which the sample holds, and shows what its sequence parameter set
/// says.
pub proof fn offered_configurations_come_from_the_sample(state: SegmenterView, data: Seq<u8>)
    requires
        state.offered_config(data) is Some,
    ensures
        ({
            let config = state.offered_config(data)->Some_0;
            let units = sample_units(data)->Ok_0;
            &&& sample_units(data) is Ok
            &&& config.avcc is Some
            &&& exists|i: int| 0 <= i < units.len() && is_parameter_set(#[trigger] units[i])
            &&& units.contains(config.avcc->Some_0.sequence_parameter_set) || (state.config.avcc
                is Some && config.avcc->Some_0.sequence_parameter_set
                == state.config.avcc->Some_0.sequence_parameter_set)
            &&& units.contains(config.avcc->Some_0.picture_parameter_set) || (state.config.avcc
                is Some && config.avcc->Some_0.picture_parameter_set
                == state.config.avcc->Some_0.picture_parameter_set)
            &&& believed_sps(config.avcc->Some_0.sequence_parameter_set) matches Ok(sps)
                && config.width == sps.width && config.height == sps.height
                && config.avcc->Some_0.profile_idc == sps.profile_idc
                && config.avcc->Some_0.constraint_set_flag == sps.constraint_set_flag
                && config.avcc->Some_0.level_idc == sps.level_idc
        }),
{
    let units = sample_units(data)->Ok_0;
    let known = match state.config.avcc {
        Some(avcc) => (Some(avcc.sequence_parameter_set), Some(avcc.picture_parameter_set)),
        None => (None, None),
    };
    parameter_sets_are_found(units, known);
}

/// The last parameter sets among units are units, or were known before; and where a unit is a
/// parameter set of a kind, one of that kind among the units is the last.
proof fn parameter_sets_are_found(
    units: Seq<Seq<u8>>,
    known: (Option<Seq<u8>>, Option<Seq<u8>>),
)
    ensures
        ({
            let found = crate::fmp4_bridge::model::last_parameter_sets(units, known);
            &&& found.0 matches Some(sps) ==> units.contains(sps) || known.0 == Some(sps)
            &&& found.1 matches Some(pps) ==> units.contains(pps) || known.1 == Some(pps)
        }),
    decreases units.len(),
{
    if units.len() > 0 {
        parameter_sets_are_found(units.drop_last(), known);
        assert(units[units.len() - 1] == units.last());
        assert forall|unit: Seq<u8>| units.drop_last().contains(unit) implies units.contains(
            unit,
        ) by {
            let i = choose|i: int|
                0 <= i < units.drop_last().len() && units.drop_last()[i] == unit;
            assert(units[i] == unit);
        }
    }
}

/// Parameter sets that end a sample replace those known before.
pub proof fn the_newest_parameter_sets_count(
    units: Seq<Seq<u8>>,
    unit: Seq<u8>,
    known: (Option<Seq<u8>>, Option<Seq<u8>>),
)
    requires
        unit.len() > 0,
    ensures
        ({
            let before = crate::fmp4_bridge::model::last_parameter_sets(units, known);
            let after = crate::fmp4_bridge::model::last_parameter_sets(units.push(unit), known);
            &&& unit[0] & 0x1f == 7 ==> after == (Some(unit), before.1)
            &&& unit[0] & 0x1f == 8 ==> after == (before.0, Some(unit))
            &&& unit[0] & 0x1f != 7 && unit[0] & 0x1f != 8 ==> after == before
        }),
{
    assert(units.push(unit).drop_last() =~= units);
}

/// A part says what it holds: how many pictures and sounds, what they are coded in, and how large the
/// pictures are; it belongs to the stream, and carries the number of parts stored before it.
pub proof fn parts_say_what_they_hold(state: SegmenterView, next_dts: u64)
    ensures
        ({
            let part = state.part(next_dts);
            let pictured = state.video.len() > 0;
            let sounding = state.audio.len() > 0;
            let bare = state.video.len() == 0 && state.config.avcc is None;
            &&& part.stream_id == state.output_stream_id
            &&& part.stream_idx == state.output_stream_idx
            &&& part.sequence == state.published_parts
            &&& part.seg_seq == state.seg_seq
            &&& part.video_units == state.video.len()
            &&& part.audio_units == state.audio.len()
            &&& (part.video_codec is Some <==> pictured) && (part.video_width is Some <==> pictured)
                && (part.video_height is Some <==> pictured)
            &&& pictured ==> part.video_codec->Some_0 == "h264"@ && part.video_width
                == Some(state.config.width) && part.video_height == Some(state.config.height)
            &&& part.audio_codec is Some <==> sounding
            &&& sounding && (!bare || state.pcm is None) ==> part.audio_codec->Some_0 == "aac"@
            &&& sounding && bare && state.pcm is Some ==> part.audio_codec->Some_0
                == state.pcm->Some_0.codec()
            &&& part.signature.video == state.config.signature()
        }),
{
}

/// Uncompressed audio is named by how its samples are coded.
pub proof fn pcm_is_named_by_its_samples(pcm: PcmAudioConfig)
    ensures
        pcm.sample_kind == PcmSampleKind::Integer && pcm.sample_size == 16 ==> pcm.codec()
            == "pcm_s16le"@,
        pcm.sample_kind == PcmSampleKind::Integer && pcm.sample_size == 24 ==> pcm.codec()
            == "pcm_s24le"@,
        pcm.sample_kind == PcmSampleKind::Integer && pcm.sample_size == 32 ==> pcm.codec()
            == "pcm_s32le"@,
        pcm.sample_kind == PcmSampleKind::Float && pcm.sample_size == 32 ==> pcm.codec()
            == "pcm_f32le"@,
        pcm.frame_bytes() == pcm.sample_size / 8 * pcm.channel_count,
{
}

/// The boxer is handed everything that is buffered: all pictures, and all sounds but those whose heads
/// declare what it cannot compute with.
pub proof fn everything_buffered_is_boxed(state: SegmenterView, next_dts: u64)
    ensures
        ({
            let input = state.part_input(next_dts);
            &&& input.seq == state.seg_seq
            &&& input.config == state.config
            &&& input.video == state.video
            &&& input.next_dts == next_dts
            &&& input.include_init == (state.force_next_init || state.last_init_signature != Some(
                state.init_signature(),
            ))
            &&& (forall|i: int|
                0 <= i < state.audio.len() ==> adts_sound((#[trigger] state.audio[i]).data)
                    && !flac_overflows(state.audio[i].data)) && !(
            crate::fmp4_bridge::boxable::audio_found(state.audio).0
                == crate::formats::AudioKind::Flac) ==> input.audio == state.audio
        }),
{
}

/// What the output's clock makes of a unit keeps everything but its times. Pictures of an input that
/// counts in ticks keep how far they are shown behind when they are decoded.
pub proof fn clocks_change_times_alone(state: SegmenterView, unit: AccessUnitView)
    ensures
        ({
            let shown = state.normalized(unit);
            &&& shown.data == unit.data
            &&& shown.key == unit.key
            &&& shown.stream_type == unit.stream_type
            &&& shown.id == unit.id
            &&& unit.stream_type == STREAM_TYPE_H264 && state.input_timestamps
                == TimestampInput::Ticks90Khz && unit.pts >= unit.dts && (state.timestamp_base_input
                matches Some(base) ==> unit.dts >= base) ==> shown.pts - shown.dts == unit.pts
                - unit.dts
            &&& is_sound(unit) && state.input_timestamps == TimestampInput::Millis
                && state.timestamp_base_input is Some && unit.pts
                >= state.timestamp_base_input->Some_0 ==> shown.pts == unit.pts
                - state.timestamp_base_input->Some_0
            &&& is_sound(unit) && state.input_timestamps == TimestampInput::Ticks90Khz
                && state.timestamp_base_input is Some && state.timestamp_base_input->Some_0
                <= unit.pts <= 0xff_ffff_ffff ==> 90 * shown.pts - 45 <= unit.pts
                - state.timestamp_base_input->Some_0 <= 90 * shown.pts + 45
            &&& unit.stream_type == STREAM_TYPE_H264 && state.input_timestamps
                == TimestampInput::Millis && state.timestamp_base_input is Some
                && state.timestamp_base_input->Some_0 <= unit.pts <= 0xff_ffff_ffff ==> shown.pts
                == 90 * (unit.pts - state.timestamp_base_input->Some_0)
            &&& is_sound(unit) && state.input_timestamps == TimestampInput::MillisAbsolute
                && state.timestamp_base_input is None ==> shown.pts == unit.pts && shown.dts
                == unit.dts
        }),
{
}

/// Pictures and sounds of an input that counts in ticks run on one clock: what is stamped alike comes
/// out at the same time, to half a millisecond.
pub proof fn pictures_and_sounds_stay_together(
    state: SegmenterView,
    picture: AccessUnitView,
    sound: AccessUnitView,
)
    requires
        picture.stream_type == STREAM_TYPE_H264,
        is_sound(sound),
        picture.pts == sound.pts,
        picture.pts <= 0xff_ffff_ffff,
        state.timestamp_base_input is Some,
        state.input_timestamps == TimestampInput::Ticks90Khz || state.input_timestamps
            == TimestampInput::Millis,
    ensures
        -45 <= state.normalized(picture).pts - 90 * state.normalized(sound).pts <= 45,
{
}

/// The first picture after a fresh start sets the clock, and is all that is buffered, if it is.
proof fn a_fresh_start_holds_one_picture(state: SegmenterView, unit: AccessUnitView)
    requires
        unit.stream_type == STREAM_TYPE_H264,
        state.input_timestamps != TimestampInput::MillisAbsolute,
    ensures
        ({
            let after = state.fresh().accept(unit).state;
            &&& after.timestamp_base_input == Some(unit.dts)
            &&& after.published_parts == 0
            &&& after.audio.len() == 0
            &&& after.video.len() <= 1
            &&& after.includes_init()
        }),
{
    let begun = state.fresh();
    let based = SegmenterView { timestamp_base_input: begun.base_with(unit), ..begun };
    let media = begun.normalized(unit);
    match based.offered_config(media.data) {
        None => {},
        Some(config) => {
            let installed = based.cleared().installed(config);
            crate::fmp4_bridge::segmenter::empty_buffer_ends_no_part(installed, media, true);
        },
    }
}

/// Starting over is ending the part and taking the unit first.
proof fn a_restart_is_one_step(state: SegmenterView, unit: AccessUnitView, outcome: StoreOutcome)
    requires
        state.went_backwards(unit),
        state.flush_current().0.fresh().accept(unit).part is None,
    ensures
        state.enter(unit).part == state.flush_current().1,
        settled(state.enter(unit), outcome) == (match state.flush_current().1 {
            Some(part) => state.flush_current().0.commit(part, outcome).fresh().accept(unit).state,
            None => state.flush_current().0.fresh().accept(unit).state,
        }),
{
    reveal(SegmenterView::enter);
    let opened = state.flush_current();
    assert(settled(state.enter(unit), outcome) == (match opened.1 {
        Some(part) => opened.0.commit(part, outcome).fresh().accept(unit).state,
        None => opened.0.fresh().accept(unit).state,
    }));
}

/// A picture that is decoded before the first one seen starts the stream over: what was buffered
/// leaves, parts are numbered from the start, and the clock starts with the picture.
#[verifier::spinoff_prover]
#[verifier::rlimit(60)]
pub proof fn a_stream_that_goes_back_starts_over(
    state: SegmenterView,
    unit: AccessUnitView,
    outcome: StoreOutcome,
)
    requires
        unit.stream_type == STREAM_TYPE_H264,
        state.timestamp_base_input matches Some(base) && unit.dts < base,
        state.input_timestamps != TimestampInput::MillisAbsolute,
    ensures
        ({
            let step = state.enter(unit);
            let after = settled(step, outcome);
            &&& step.part matches Some(part) ==> part.video_units == state.video.len()
                && part.audio_units == state.audio.len() && part.sequence == state.published_parts
            &&& state.part(state.end_dts()).bytes.len() > 0 && state.config.avcc is Some && (
            state.video.len() > 0 || state.audio.len() > 0) ==> step.part is Some
            &&& after.timestamp_base_input == Some(unit.dts)
            &&& after.published_parts == 0
            &&& after.audio.len() == 0
            &&& after.video.len() <= 1
            &&& after.includes_init()
        }),
{
    let (ended, part) = state.flush_current();
    crate::fmp4_bridge::segmenter::first_unit_ends_no_part(ended.fresh(), unit);
    a_fresh_start_holds_one_picture(ended, unit);
    if part is Some {
        a_fresh_start_holds_one_picture(ended.commit(part->Some_0, outcome), unit);
    }
    a_restart_is_one_step(state, unit, outcome);
}

/// What is neither a picture nor a kind of audio that is packaged changes nothing.
pub proof fn other_units_change_nothing(state: SegmenterView, unit: AccessUnitView)
    requires
        unit.stream_type != STREAM_TYPE_H264,
        !is_sound(unit),
    ensures
        state.push(unit).state == state,
        state.push(unit).part is None,
{
    reveal(SegmenterView::push);
}

/// A stream ends where its last picture ends: as far behind the last as that is behind the one before
/// it, and behind it in any case.
pub proof fn a_stream_ends_behind_its_last_picture(state: SegmenterView)
    requires
        state.video.len() > 0,
        state.video.last().dts <= 0xffff_ffff_ffff,
    ensures
        state.end_dts() > state.video.last().dts,
        state.video.len() >= 2 && state.video[state.video.len() - 2].dts < state.video.last().dts
            ==> state.end_dts() - state.video.last().dts == state.video.last().dts
            - state.video[state.video.len() - 2].dts,
{
    reveal(wrapped_u64);
}

/// Finishing lets everything go: what was buffered is counted in the last part, or makes none.
pub proof fn finishing_leaves_nothing(state: SegmenterView)
    ensures
        state.flush_current().0.video.len() == 0,
        state.flush_current().0.audio.len() == 0,
        state.flush_current().1 matches Some(part) ==> part.video_units == state.video.len()
            && part.audio_units == state.audio.len() && part.sequence == state.published_parts,
        state.video.len() + state.audio.len() > 0 && (state.config.avcc is Some
            || !state.seen_video) && state.part(state.end_dts()).bytes.len() > 0
            ==> state.flush_current().1 is Some,
{
}

} // verus!
