//! What holds of the packager over many access units.
use crate::arith::minus_floor;
use crate::fmp4_bridge::access_unit::{AccessUnitView, STREAM_TYPE_H264};
use crate::fmp4_bridge::model::{
    PendingPartView, SegmenterView, Step, StoreOutcome, MAX_PENDING_AUS_WITHOUT_CONFIG,
};
use crate::fmp4_bridge::nalu::{length_prefixed, without_parameter_sets};
use crate::fmp4_bridge::segmenter::empty_buffer_ends_no_part;
use crate::fmp4_bridge::ticks::{conversions_keep_order, TimestampInput};
use crate::fmp4_bridge::track::TrackConfigView;
use vstd::prelude::*;

verus! {

/// The state once a step is over, given how storing the part went that it handed out, if any.
pub open spec fn settled(step: Step, outcome: StoreOutcome) -> SegmenterView {
    match step.part {
        Some(part) => step.state.commit(part, outcome).resumed(step.resume),
        None => step.state,
    }
}

/// Whether the buffered video stays within its bounds: few units wait for a configuration, and
/// with one no unit lies a whole part behind the first.
pub open spec fn buffer_is_bounded(state: SegmenterView) -> bool {
    if state.config.avcc is None {
        state.video.len() <= MAX_PENDING_AUS_WITHOUT_CONFIG
    } else {
        forall|i: int|
            1 <= i < state.video.len() ==> minus_floor(
                (#[trigger] state.video[i]).dts as int,
                state.video[0].dts as int,
            ) < state.min_part_ticks
    }
}

proof fn continue_keeps_bounds(state: SegmenterView, unit: AccessUnitView, fresh: bool, outcome: StoreOutcome)
    requires
        buffer_is_bounded(state),
    ensures
        buffer_is_bounded(settled(state.continue_video(unit, fresh), outcome)),
{
}

proof fn reconfigured_keeps_bounds(
    state: SegmenterView,
    unit: AccessUnitView,
    config: TrackConfigView,
    outcome: StoreOutcome,
)
    ensures
        buffer_is_bounded(state.reconfigured(unit, config).state),
        state.reconfigured(unit, config).part is None,
{
    let installed = state.cleared().installed(config);
    empty_buffer_ends_no_part(installed, unit, true);
    continue_keeps_bounds(installed, unit, true, outcome);
}

proof fn push_video_keeps_bounds(state: SegmenterView, unit: AccessUnitView, outcome: StoreOutcome)
    requires
        buffer_is_bounded(state),
    ensures
        buffer_is_bounded(settled(state.push_video(unit), outcome)),
{
    continue_keeps_bounds(state, unit, false, outcome);
    match state.offered_config(unit.data) {
        None => {},
        Some(config) => {
            reconfigured_keeps_bounds(state, unit, config, outcome);
            let (ended, part) = state.flush_current();
            reconfigured_keeps_bounds(ended, unit, config, outcome);
            match part {
                Some(part) => reconfigured_keeps_bounds(
                    ended.commit(part, outcome),
                    unit,
                    config,
                    outcome,
                ),
                None => {},
            }
        },
    }
}

proof fn push_audio_keeps_bounds(state: SegmenterView, unit: AccessUnitView, outcome: StoreOutcome)
    requires
        buffer_is_bounded(state),
    ensures
        buffer_is_bounded(settled(state.push_audio(unit), outcome)),
{
}

proof fn accept_keeps_bounds(state: SegmenterView, unit: AccessUnitView, outcome: StoreOutcome)
    requires
        buffer_is_bounded(state),
    ensures
        buffer_is_bounded(settled(state.accept(unit), outcome)),
{
    let based = SegmenterView { timestamp_base_input: state.base_with(unit), ..state };
    push_video_keeps_bounds(based, state.normalized(unit), outcome);
    push_audio_keeps_bounds(based, state.normalized(unit), outcome);
}

proof fn restart_keeps_bounds(state: SegmenterView, unit: AccessUnitView, outcome: StoreOutcome)
    requires
        unit.stream_type == STREAM_TYPE_H264,
    ensures
        buffer_is_bounded(state.fresh().accept(unit).state),
{
    crate::fmp4_bridge::segmenter::first_unit_ends_no_part(state.fresh(), unit);
    accept_keeps_bounds(state.fresh(), unit, outcome);
}

proof fn enter_keeps_bounds(state: SegmenterView, unit: AccessUnitView, outcome: StoreOutcome)
    requires
        buffer_is_bounded(state),
    ensures
        buffer_is_bounded(settled(state.enter(unit), outcome)),
{
    reveal(SegmenterView::enter);
    if state.went_backwards(unit) {
        let (ended, part) = state.flush_current();
        match part {
            Some(part) => restart_keeps_bounds(ended.commit(part, outcome), unit, outcome),
            None => {
                restart_keeps_bounds(ended, unit, outcome);
                crate::fmp4_bridge::segmenter::first_unit_ends_no_part(ended.fresh(), unit);
            },
        }
    } else {
        accept_keeps_bounds(state, unit, outcome);
    }
}

/// Whatever is pushed and however storing goes, the buffered video stays within its bounds.
pub proof fn pushing_keeps_the_buffer_bounded(
    state: SegmenterView,
    unit: AccessUnitView,
    outcome: StoreOutcome,
)
    requires
        buffer_is_bounded(state),
    ensures
        buffer_is_bounded(settled(state.push(unit), outcome)),
{
    reveal(SegmenterView::push);
    if unit.stream_type == STREAM_TYPE_H264 {
        let seen = SegmenterView { seen_video: true, ..state };
        match length_prefixed(unit) {
            Some(framed) => enter_keeps_bounds(seen, framed, outcome),
            None => {},
        }
    } else {
        enter_keeps_bounds(state, unit, outcome);
    }
}

/// A packager that was just made or reset is within its bounds.
pub proof fn a_fresh_buffer_is_bounded(state: SegmenterView)
    ensures
        buffer_is_bounded(state.fresh()),
{
}

/// In a running stream no picture is lost or doubled: a picture that brings no configuration joins
/// the buffer, or opens the next one while everything buffered before it leaves as one part.
pub proof fn a_running_stream_keeps_every_picture(
    state: SegmenterView,
    unit: AccessUnitView,
    outcome: StoreOutcome,
)
    requires
        state.config.avcc is Some,
        state.offered_config(unit.data) is None,
        without_parameter_sets(unit.data) matches Ok(Some(_)),
    ensures
        ({
            let media = AccessUnitView {
                data: without_parameter_sets(unit.data)->Ok_0->Some_0,
                ..unit
            };
            let step = state.push_video(unit);
            let after = settled(step, outcome).video;
            if state.flush_reason(media) is None {
                step.part is None && after == state.video.push(media)
            } else {
                after == seq![media] && (step.part is Some ==> step.part->Some_0.video_units
                    == state.video.len() && step.part == Some(state.part(media.dts)))
            }
        }),
{
    let media = AccessUnitView { data: without_parameter_sets(unit.data)->Ok_0->Some_0, ..unit };
    assert(Seq::<AccessUnitView>::empty().push(media) =~= seq![media]);
}

/// Stored parts are numbered one after the other: a part carries the number of parts stored before
/// it, storing it moves the number on by one, and a part that was not stored leaves its number to
/// the next.
pub proof fn stored_parts_count_up(state: SegmenterView, next_dts: u64, outcome: StoreOutcome)
    requires
        state.flush(next_dts).1 is Some,
    ensures
        ({
            let (ended, part) = state.flush(next_dts);
            let after = ended.commit(part->Some_0, outcome);
            &&& part->Some_0.sequence == state.published_parts
            &&& outcome == StoreOutcome::Stored ==> after.published_parts
                == crate::arith::wrapped_u64(state.published_parts + 1)
            &&& outcome != StoreOutcome::Stored ==> after.published_parts == state.published_parts
        }),
{
}

/// A new video configuration makes the next part ask for an initialisation.
pub proof fn a_new_configuration_asks_for_an_initialisation(
    state: SegmenterView,
    config: TrackConfigView,
)
    ensures
        state.installed(config).includes_init(),
        state.fresh().includes_init(),
{
}

/// Once an initialisation is stored, parts with the same configuration ask for no other.
pub proof fn a_stored_initialisation_is_not_asked_for_again(
    state: SegmenterView,
    part: PendingPartView,
    later: SegmenterView,
)
    requires
        part.init is Some,
        ({
            let stored = state.commit(part, StoreOutcome::Stored);
            later.last_init_signature == stored.last_init_signature && later.force_next_init
                == stored.force_next_init
        }),
        later.init_signature() == part.signature,
    ensures
        !later.includes_init(),
{
}

/// An initialisation that was not stored is asked for again.
pub proof fn a_lost_initialisation_is_asked_for_again(
    state: SegmenterView,
    part: PendingPartView,
    outcome: StoreOutcome,
)
    requires
        state.force_next_init,
        outcome != StoreOutcome::Stored,
    ensures
        state.commit(part, outcome).includes_init(),
{
}

/// On the output's clock a stream that is brought to start at zero starts at zero, and video keeps
/// its order and its distances where the input already counts in ticks.
pub proof fn rebasing_keeps_the_timeline(
    state: SegmenterView,
    first: AccessUnitView,
    a: AccessUnitView,
    b: AccessUnitView,
)
    requires
        state.timestamp_base_input is None,
        state.input_timestamps != TimestampInput::MillisAbsolute,
        a.stream_type == b.stream_type,
        first.dts <= a.dts <= b.dts,
    ensures
        ({
            let started = SegmenterView { timestamp_base_input: state.base_with(first), ..state };
            &&& state.normalized(first).dts == 0
            &&& started.normalized(a).dts <= started.normalized(b).dts
            &&& a.stream_type == STREAM_TYPE_H264 && state.input_timestamps
                == TimestampInput::Ticks90Khz ==> started.normalized(b).dts - started.normalized(a).dts
                == b.dts - a.dts
        }),
{
    let a_moved = a.dts - first.dts;
    let b_moved = b.dts - first.dts;
    conversions_keep_order(a_moved, b_moved);
}

} // verus!
