//! Renditions: one per group of channels, each with its own packager and continuity.
use crate::audio_epoch_hls::group::{
    audio_track_config, validate_pcm_group, AudioGroup, AudioGroupView, AudioPayloadKind,
    AudioSampleFormat, PackageError, AUDIO_GROUP_FLAG_DISCONTINUITY, AUDIO_GROUP_FLAG_ERASURE,
};
use crate::audio_epoch_hls::opaque::{
    OpaquePart, OpaquePartSegmenter, OpaquePartView, OpaqueView,
};
use crate::audio_epoch_hls::timing::{millis_of_samples, samples_to_millis};
use crate::fmp4_bridge::access_unit::{AccessUnit, AccessUnitView, STREAM_TYPE_PRIVATE_DATA};
use crate::fmp4_bridge::boxes::samples_from;
use crate::fmp4_bridge::model::{
    holds_buffered, PendingPartView, ResumeView, SegmenterView, StoreOutcome,
};
use crate::fmp4_bridge::segmenter::{restarts_on_video, Fmp4Segmenter, PendingPart};
use crate::fmp4_bridge::ticks::TimestampInput;
use crate::fmp4_bridge::track::{boxable, joined, PcmAudioConfig};
use crate::seqs::filter_all;
use vstd::prelude::*;

verus! {

/// What becomes of a recovered payload.
#[derive(Debug, Clone, Copy, PartialEq, Eq, Structural)]
pub enum AudioEpochHlsPackaging {
    /// Publish the recovered payload bytes without inspecting them.
    Opaque,
    /// Convert supported elementary payloads into fragmented MP4.
    Fmp4,
}

/// How recovered groups are packaged.
#[derive(Debug, Clone, Copy, PartialEq, Eq, Structural)]
pub struct AudioEpochHlsConfig {
    /// Stream id of group zero; each other group uses this plus its own id.
    pub base_stream_id: u64,
    pub min_part_ms: u32,
    pub packaging: AudioEpochHlsPackaging,
}

impl AudioEpochHlsConfig {
    /// A configuration whose parts last at least a millisecond.
    pub fn new(base_stream_id: u64, min_part_ms: u32, packaging: AudioEpochHlsPackaging) -> (r: Self)
        ensures
            r.base_stream_id == base_stream_id,
            r.min_part_ms == (if min_part_ms == 0 {
                1
            } else {
                min_part_ms
            }),
            r.packaging == packaging,
    {
        AudioEpochHlsConfig {
            base_stream_id,
            min_part_ms: if min_part_ms == 0 {
                1
            } else {
                min_part_ms
            },
            packaging,
        }
    }
}

/// By what renditions are told apart.
#[derive(Debug, Clone, Copy, PartialEq, Eq, Structural)]
pub struct RenditionKey {
    pub session_id: u64,
    pub group_id: u16,
}

/// What a rendition's payloads have in common until it starts over.
#[derive(Debug, Clone, Copy, PartialEq, Eq, Structural)]
pub struct RenditionFormat {
    pub config_generation: u32,
    pub sample_rate: u32,
    pub channel_count: u16,
    pub payload_kind: AudioPayloadKind,
    pub sample_format: AudioSampleFormat,
}

impl AudioGroupView {
    /// The group's rendition.
    pub open spec fn key(self) -> RenditionKey {
        RenditionKey { session_id: self.session_id, group_id: self.group_id }
    }

    /// The group's format.
    pub open spec fn format(self) -> RenditionFormat {
        RenditionFormat {
            config_generation: self.config_generation,
            sample_rate: self.sample_rate,
            channel_count: self.channel_count,
            payload_kind: self.payload_kind,
            sample_format: self.sample_format,
        }
    }

    /// The group as a sample to be boxed.
    pub open spec fn unit(self) -> AccessUnitView {
        let at = millis_of_samples(self.pts_samples as int, self.sample_rate as int) as u64;
        AccessUnitView {
            key: true,
            pts: at,
            dts: at,
            data: self.payload,
            stream_type: STREAM_TYPE_PRIVATE_DATA,
            id: self.epoch_id,
        }
    }
}

/// The packager of a rendition.
#[derive(Debug)]
pub enum RenditionPackager {
    Opaque(OpaquePartSegmenter),
    Fmp4(Fmp4Segmenter),
}

/// What a [`RenditionPackager`] holds.
pub enum PackagerView {
    Opaque(OpaqueView),
    Fmp4(SegmenterView, ResumeView),
}

impl View for RenditionPackager {
    type V = PackagerView;

    open spec fn view(&self) -> PackagerView {
        match self {
            RenditionPackager::Opaque(segmenter) => PackagerView::Opaque(segmenter@),
            RenditionPackager::Fmp4(segmenter) => PackagerView::Fmp4(
                segmenter@,
                segmenter.resume@,
            ),
        }
    }
}

/// A part that a rendition hands out to be published.
#[derive(Debug)]
pub enum RenditionPart {
    Opaque(OpaquePart),
    Fmp4(PendingPart),
}

/// What a [`RenditionPart`] holds.
pub enum RenditionPartView {
    Opaque(OpaquePartView),
    Fmp4(PendingPartView),
}

impl View for RenditionPart {
    type V = RenditionPartView;

    open spec fn view(&self) -> RenditionPartView {
        match self {
            RenditionPart::Opaque(part) => RenditionPartView::Opaque(part@),
            RenditionPart::Fmp4(part) => RenditionPartView::Fmp4(part@),
        }
    }
}

/// What a step of packaging came to.
#[derive(Debug)]
pub enum PackageStep {
    /// The group is taken.
    Done,
    /// The group is not taken.
    Failed(PackageError),
    /// A part is to be published before the step goes on.
    Publish(RenditionPart),
}

/// What a [`PackageStep`] holds.
pub enum PackageStepView {
    Done,
    Failed(PackageError),
    Publish(RenditionPartView),
}

impl View for PackageStep {
    type V = PackageStepView;

    open spec fn view(&self) -> PackageStepView {
        match self {
            PackageStep::Done => PackageStepView::Done,
            PackageStep::Failed(error) => PackageStepView::Failed(*error),
            PackageStep::Publish(part) => PackageStepView::Publish(part@),
        }
    }
}

/// One rendition.
#[derive(Debug)]
pub struct Rendition {
    pub key: RenditionKey,
    pub format: RenditionFormat,
    pub expected_pts_samples: Option<u64>,
    pub packager: RenditionPackager,
    /// The group that waits for the part before it to be published.
    pub waiting: Option<AudioGroup>,
}

/// What a [`Rendition`] holds.
pub struct RenditionView {
    pub key: RenditionKey,
    pub format: RenditionFormat,
    pub expected_pts_samples: Option<u64>,
    pub packager: PackagerView,
    pub waiting: Option<AudioGroupView>,
}

impl View for Rendition {
    type V = RenditionView;

    open spec fn view(&self) -> RenditionView {
        RenditionView {
            key: self.key,
            format: self.format,
            expected_pts_samples: self.expected_pts_samples,
            packager: self.packager@,
            waiting: match self.waiting {
                Some(group) => Some(group@),
                None => None,
            },
        }
    }
}

impl PackagerView {
    /// Whether no part is out.
    pub open spec fn ready(self) -> bool {
        self matches PackagerView::Fmp4(_, resume) ==> resume == ResumeView::Idle
    }

    /// Ends the part that is being filled.
    pub open spec fn finish(self) -> (Self, Option<RenditionPartView>) {
        match self {
            PackagerView::Opaque(state) => (
                PackagerView::Opaque(state.flush().0),
                match state.flush().1 {
                    Some(part) => Some(RenditionPartView::Opaque(part)),
                    None => None,
                },
            ),
            PackagerView::Fmp4(state, resume) => (
                PackagerView::Fmp4(state.flush_current().0, resume),
                match state.flush_current().1 {
                    Some(part) => Some(RenditionPartView::Fmp4(part)),
                    None => None,
                },
            ),
        }
    }

    /// Forgets the media that is buffered.
    pub open spec fn reset(self) -> Self {
        match self {
            PackagerView::Opaque(state) => PackagerView::Opaque(state.reset()),
            PackagerView::Fmp4(state, resume) => PackagerView::Fmp4(state.fresh(), resume),
        }
    }

    /// What the publication of a part changes.
    pub open spec fn completed(self, part: RenditionPartView) -> Self {
        match (self, part) {
            (PackagerView::Fmp4(state, resume), RenditionPartView::Fmp4(part)) => PackagerView::Fmp4(
                state.commit(part, StoreOutcome::Stored).resumed(resume),
                ResumeView::Idle,
            ),
            _ => self,
        }
    }
}

impl RenditionView {
    /// Whether no part is out.
    pub open spec fn idle(self) -> bool {
        self.waiting is None && self.packager.ready()
    }

    /// Whether a group does not continue what the rendition holds.
    pub open spec fn breaks_off(self, group: AudioGroupView) -> bool {
        self.format != group.format() || (self.expected_pts_samples matches Some(expected)
            && expected != group.pts_samples) || group.flags & AUDIO_GROUP_FLAG_DISCONTINUITY != 0
    }

    /// Takes a group that continues the rendition or starts it over.
    pub open spec fn take(self, packaging: AudioEpochHlsPackaging, group: AudioGroupView) -> (
        Self,
        PackageStepView,
    ) {
        let end = group.pts_samples + group.frame_count;
        let ms = millis_of_samples(group.frame_count as int, group.sample_rate as int);
        if end > u64::MAX {
            (self, PackageStepView::Failed(PackageError::PtsOverflow))
        } else {
            let state = RenditionView { expected_pts_samples: Some(end as u64), ..self };
            if ms > u32::MAX {
                (state, PackageStepView::Failed(PackageError::DurationOverflow))
            } else {
                match packaging {
                    AudioEpochHlsPackaging::Opaque => match self.packager {
                        PackagerView::Opaque(segmenter) => {
                            let duration = (if ms == 0 {
                                1
                            } else {
                                ms
                            }) as u32;
                            let (after, part) = segmenter.push(group.payload, duration);
                            (
                                RenditionView { packager: PackagerView::Opaque(after), ..state },
                                match part {
                                    Some(part) => PackageStepView::Publish(
                                        RenditionPartView::Opaque(part),
                                    ),
                                    None => PackageStepView::Done,
                                },
                            )
                        },
                        PackagerView::Fmp4(_, _) => (
                            state,
                            PackageStepView::Failed(PackageError::OpaqueReachedFmp4),
                        ),
                    },
                    AudioEpochHlsPackaging::Fmp4 => state.take_boxed(group),
                }
            }
        }
    }

    /// Takes a group whose payload is boxed.
    pub open spec fn take_boxed(self, group: AudioGroupView) -> (Self, PackageStepView) {
        match (group.track(), self.packager) {
            (Err(error), _) => (self, PackageStepView::Failed(error)),
            (Ok(_), PackagerView::Opaque(_)) => (
                self,
                PackageStepView::Failed(PackageError::Fmp4ReachedOpaque),
            ),
            (Ok(pcm), PackagerView::Fmp4(segmenter, resume)) => {
                let laid_out = SegmenterView { pcm, ..segmenter };
                match group.pcm_defect() {
                    Some(error) => (
                        RenditionView { packager: PackagerView::Fmp4(laid_out, resume), ..self },
                        PackageStepView::Failed(error),
                    ),
                    None => {
                        let step = laid_out.push(group.unit());
                        (
                            RenditionView {
                                packager: PackagerView::Fmp4(step.state, step.resume),
                                ..self
                            },
                            match step.part {
                                Some(part) => PackageStepView::Publish(
                                    RenditionPartView::Fmp4(part),
                                ),
                                None => PackageStepView::Done,
                            },
                        )
                    },
                }
            },
        }
    }

    /// Starts the rendition over with a group.
    pub open spec fn restart(self, packaging: AudioEpochHlsPackaging, group: AudioGroupView) -> (
        Self,
        PackageStepView,
    ) {
        RenditionView {
            packager: self.packager.reset(),
            format: group.format(),
            waiting: None,
            ..self
        }.take(packaging, group)
    }

    /// Takes a group that can be packaged.
    pub open spec fn package(self, packaging: AudioEpochHlsPackaging, group: AudioGroupView) -> (
        Self,
        PackageStepView,
    ) {
        if self.breaks_off(group) {
            match self.packager.finish() {
                (packager, Some(part)) => (
                    RenditionView { packager, waiting: Some(group), ..self },
                    PackageStepView::Publish(part),
                ),
                (packager, None) => RenditionView { packager, ..self }.restart(packaging, group),
            }
        } else {
            self.take(packaging, group)
        }
    }

    /// Goes on once a part was published, or could not be.
    pub open spec fn complete(
        self,
        packaging: AudioEpochHlsPackaging,
        part: RenditionPartView,
        published: bool,
    ) -> (Self, PackageStepView) {
        if part is Opaque && !published {
            (
                RenditionView { waiting: None, ..self },
                PackageStepView::Failed(PackageError::PublishFailed),
            )
        } else {
            let state = RenditionView { packager: self.packager.completed(part), ..self };
            match self.waiting {
                Some(group) => state.restart(packaging, group),
                None => (state, PackageStepView::Done),
            }
        }
    }
}

/// The packager of boxed parts.
pub open spec fn segmenter_of(packager: PackagerView) -> SegmenterView {
    match packager {
        PackagerView::Fmp4(state, _) => state,
        PackagerView::Opaque(_) => arbitrary(),
    }
}

impl RenditionView {
    /// What a boxed part holds that a group ends.
    pub open spec fn boxed_with(self, group: AudioGroupView) -> SegmenterView {
        SegmenterView { pcm: group.track()->Ok_0, ..segmenter_of(self.packager) }.leaving(
            group.unit(),
        )
    }

    /// What a boxed part holds that a group ends once the rendition has started over.
    pub open spec fn boxed_anew(self, group: AudioGroupView) -> SegmenterView {
        RenditionView { packager: self.packager.reset(), ..self }.boxed_with(group)
    }

    /// What a boxed part holds that a group ends, or that had to end before it.
    pub open spec fn boxed_from(self, group: AudioGroupView) -> SegmenterView {
        if !self.breaks_off(group) {
            self.boxed_with(group)
        } else {
            match self.packager.finish() {
                (_, Some(_)) => segmenter_of(self.packager),
                (packager, None) => RenditionView { packager, ..self }.boxed_anew(group),
            }
        }
    }
}

/// Whether a part that is handed out holds what a packager of boxed parts had, if it is boxed.
pub open spec fn hands_out(step: PackageStep, state: SegmenterView) -> bool {
    step matches PackageStep::Publish(RenditionPart::Fmp4(part)) ==> holds_buffered(
        part.bytes@,
        state,
    )
}

impl RenditionPackager {
    fn finish(&mut self) -> (r: Option<RenditionPart>)
        requires
            old(self)@.ready(),
        ensures
            final(self)@ == old(self)@.finish().0,
            match r {
                Some(part) => old(self)@.finish().1 == Some(part@) && hands_out(
                    PackageStep::Publish(part),
                    segmenter_of(old(self)@),
                ),
                None => old(self)@.finish().1 is None,
            },
            final(self)@.ready(),
    {
        match self {
            RenditionPackager::Opaque(segmenter) => match segmenter.finish() {
                Some(part) => Some(RenditionPart::Opaque(part)),
                None => None,
            },
            RenditionPackager::Fmp4(segmenter) => match segmenter.finish() {
                Some(part) => Some(RenditionPart::Fmp4(part)),
                None => None,
            },
        }
    }

    fn reset(&mut self)
        ensures
            final(self)@ == old(self)@.reset(),
    {
        match self {
            RenditionPackager::Opaque(segmenter) => segmenter.reset(),
            RenditionPackager::Fmp4(segmenter) => segmenter.reset(),
        }
    }

    fn complete(&mut self, part: RenditionPart)
        requires
            old(self)@ matches PackagerView::Fmp4(_, resume) ==> restarts_on_video(resume),
        ensures
            final(self)@ == old(self)@.completed(part@),
    {
        match self {
            RenditionPackager::Opaque(_) => {},
            RenditionPackager::Fmp4(segmenter) => match part {
                RenditionPart::Fmp4(part) => segmenter.complete(part, StoreOutcome::Stored),
                RenditionPart::Opaque(_) => {},
            },
        }
    }
}

impl Rendition {
    /// What waits can be packaged, and only video would make a packager start over.
    pub open spec fn wf(&self) -> bool {
        &&& self@.packager matches PackagerView::Fmp4(_, resume) ==> restarts_on_video(resume)
        &&& self@.waiting matches Some(group) ==> group.defect() is None && self@.packager.ready()
    }

    fn take_boxed(&mut self, group: AudioGroup) -> (r: PackageStep)
        requires
            old(self)@.idle(),
            group@.defect() is None,
        ensures
            final(self)@ == old(self)@.take_boxed(group@).0,
            r@ == old(self)@.take_boxed(group@).1,
            hands_out(r, old(self)@.boxed_with(group@)),
            final(self).wf(),
            !(r is Publish) ==> final(self)@.idle(),
            final(self)@.waiting is None,
    {
        let pcm = match audio_track_config(&group) {
            Ok(pcm) => pcm,
            Err(error) => {
                return PackageStep::Failed(error);
            },
        };
        match &mut self.packager {
            RenditionPackager::Opaque(_) => PackageStep::Failed(PackageError::Fmp4ReachedOpaque),
            RenditionPackager::Fmp4(segmenter) => {
                segmenter.set_audio_track_config(pcm);
                match validate_pcm_group(&group) {
                    Ok(_) => {},
                    Err(error) => {
                        return PackageStep::Failed(error);
                    },
                }
                let at: u64 = match samples_to_millis(group.pts_samples, group.sample_rate) {
                    Ok(at) => at,
                    Err(_) => 0,
                };
                let unit = AccessUnit {
                    key: true,
                    pts: at,
                    dts: at,
                    data: group.payload,
                    stream_type: STREAM_TYPE_PRIVATE_DATA,
                    id: group.epoch_id,
                };
                match segmenter.push_access_unit(unit) {
                    Some(part) => PackageStep::Publish(RenditionPart::Fmp4(part)),
                    None => PackageStep::Done,
                }
            },
        }
    }

    fn take(&mut self, packaging: AudioEpochHlsPackaging, group: AudioGroup) -> (r: PackageStep)
        requires
            old(self)@.idle(),
            group@.defect() is None,
        ensures
            final(self)@ == old(self)@.take(packaging, group@).0,
            r@ == old(self)@.take(packaging, group@).1,
            hands_out(r, old(self)@.boxed_with(group@)),
            final(self).wf(),
            !(r is Publish) ==> final(self)@.idle(),
            final(self)@.waiting is None,
    {
        let end: u64 = match group.pts_samples.checked_add(group.frame_count as u64) {
            Some(end) => end,
            None => {
                return PackageStep::Failed(PackageError::PtsOverflow);
            },
        };
        self.expected_pts_samples = Some(end);
        let ms: u64 = match samples_to_millis(group.frame_count as u64, group.sample_rate) {
            Ok(ms) => ms,
            Err(_) => 0,
        };
        if ms > u32::MAX as u64 {
            return PackageStep::Failed(PackageError::DurationOverflow);
        }
        let duration_ms: u32 = if ms == 0 {
            1
        } else {
            ms as u32
        };
        match packaging {
            AudioEpochHlsPackaging::Opaque => match &mut self.packager {
                RenditionPackager::Opaque(segmenter) => {
                    match segmenter.push(group.payload.as_slice(), duration_ms) {
                        Some(part) => PackageStep::Publish(RenditionPart::Opaque(part)),
                        None => PackageStep::Done,
                    }
                },
                RenditionPackager::Fmp4(_) => PackageStep::Failed(PackageError::OpaqueReachedFmp4),
            },
            AudioEpochHlsPackaging::Fmp4 => self.take_boxed(group),
        }
    }

    fn restart(&mut self, packaging: AudioEpochHlsPackaging, group: AudioGroup) -> (r: PackageStep)
        requires
            old(self)@.packager.ready(),
            old(self)@.waiting is None,
            group@.defect() is None,
        ensures
            final(self)@ == old(self)@.restart(packaging, group@).0,
            r@ == old(self)@.restart(packaging, group@).1,
            hands_out(r, old(self)@.boxed_anew(group@)),
            final(self).wf(),
            !(r is Publish) ==> final(self)@.idle(),
            final(self)@.waiting is None,
    {
        self.packager.reset();
        self.format = format_of(&group);
        self.take(packaging, group)
    }

    /// Takes a group that can be packaged; a part that it ends, or that had to end before it, is
    /// handed out to be published.
    pub fn package(&mut self, packaging: AudioEpochHlsPackaging, group: AudioGroup) -> (r:
        PackageStep)
        requires
            old(self)@.idle(),
            group@.defect() is None,
        ensures
            final(self)@ == old(self)@.package(packaging, group@).0,
            r@ == old(self)@.package(packaging, group@).1,
            hands_out(r, old(self)@.boxed_from(group@)),
            final(self).wf(),
            !(r is Publish) ==> final(self)@.idle(),
    {
        let gap = match self.expected_pts_samples {
            Some(expected) => expected != group.pts_samples,
            None => false,
        };
        let format = format_of(&group);
        if self.format != format || gap || group.flags & AUDIO_GROUP_FLAG_DISCONTINUITY != 0 {
            match self.packager.finish() {
                Some(part) => {
                    self.waiting = Some(group);
                    PackageStep::Publish(part)
                },
                None => self.restart(packaging, group),
            }
        } else {
            self.take(packaging, group)
        }
    }

    /// Goes on once a part was published, or could not be. A part of opaque payloads that was not
    /// published costs the group that waited for it.
    pub fn complete(
        &mut self,
        packaging: AudioEpochHlsPackaging,
        part: RenditionPart,
        published: bool,
    ) -> (r: PackageStep)
        requires
            old(self).wf(),
            old(self)@.packager is Fmp4 <==> part is Fmp4,
        ensures
            final(self)@ == old(self)@.complete(packaging, part@, published).0,
            r@ == old(self)@.complete(packaging, part@, published).1,
            old(self)@.waiting matches Some(group) ==> hands_out(
                r,
                RenditionView {
                    packager: old(self)@.packager.completed(part@),
                    ..old(self)@
                }.boxed_anew(group),
            ),
            final(self).wf(),
            !(r is Publish) ==> final(self)@.idle(),
    {
        let mut waiting: Option<AudioGroup> = None;
        core::mem::swap(&mut self.waiting, &mut waiting);
        match &part {
            RenditionPart::Opaque(_) => {
                if !published {
                    return PackageStep::Failed(PackageError::PublishFailed);
                }
            },
            RenditionPart::Fmp4(_) => {},
        }
        self.packager.complete(part);
        match waiting {
            Some(group) => self.restart(packaging, group),
            None => PackageStep::Done,
        }
    }
}

/// The format of a group.
pub fn format_of(group: &AudioGroup) -> (r: RenditionFormat)
    ensures
        r == group@.format(),
{
    RenditionFormat {
        config_generation: group.config_generation,
        sample_rate: group.sample_rate,
        channel_count: group.channel_count,
        payload_kind: group.payload_kind,
        sample_format: group.sample_format,
    }
}

/// The packager that a rendition starts with.
pub open spec fn first_packager(
    config: AudioEpochHlsConfig,
    stream_id: u64,
    stream_idx: usize,
) -> PackagerView {
    match config.packaging {
        AudioEpochHlsPackaging::Opaque => PackagerView::Opaque(
            OpaqueView {
                output_stream_id: stream_id,
                output_stream_idx: stream_idx,
                min_part_ms: if config.min_part_ms == 0 {
                    1
                } else {
                    config.min_part_ms
                },
                bytes: Seq::empty(),
                duration_ms: 0,
                audio_units: 0,
                published_parts: 0,
            },
        ),
        AudioEpochHlsPackaging::Fmp4 => PackagerView::Fmp4(
            SegmenterView {
                output_stream_id: stream_id,
                output_stream_idx: stream_idx,
                input_timestamps: TimestampInput::MillisAbsolute,
                min_part_ticks: (config.min_part_ms * 90) as u64,
                max_part_ticks_without_key: (crate::fmp4_bridge::model::MAX_PART_MS_WITHOUT_KEY
                    * 90) as u64,
                eager: true,
                pcm: None,
                video: Seq::empty(),
                audio: Seq::empty(),
                config: crate::fmp4_bridge::track::TrackConfigView::none(),
                seg_seq: 1,
                last_init_signature: None,
                force_next_init: true,
                seen_video: false,
                started_video: false,
                published_parts: 0,
                warned_no_config: false,
                timestamp_base_input: None,
            },
            ResumeView::Idle,
        ),
    }
}

/// Makes the packager that a rendition starts with.
pub fn new_rendition_packager(
    config: &AudioEpochHlsConfig,
    output_stream_id: u64,
    output_stream_idx: usize,
) -> (r: RenditionPackager)
    ensures
        r@ == first_packager(*config, output_stream_id, output_stream_idx),
{
    match config.packaging {
        AudioEpochHlsPackaging::Opaque => RenditionPackager::Opaque(
            OpaquePartSegmenter::new(output_stream_id, output_stream_idx, config.min_part_ms),
        ),
        AudioEpochHlsPackaging::Fmp4 => RenditionPackager::Fmp4(
            Fmp4Segmenter::new_publish_only(
                output_stream_id,
                output_stream_idx,
                TimestampInput::MillisAbsolute,
                config.min_part_ms,
            ),
        ),
    }
}

/// The renditions of one publication.
#[derive(Debug)]
pub struct Renditions {
    pub entries: Vec<Rendition>,
}

/// What a list of renditions holds.
pub open spec fn renditions_view(entries: Seq<Rendition>) -> Seq<RenditionView> {
    entries.map_values(|entry: Rendition| entry@)
}

/// Where a key's rendition stands in a list, if it is there; the first of them counts.
pub open spec fn position(entries: Seq<RenditionView>, key: RenditionKey) -> Option<int>
    decreases entries.len(),
{
    if entries.len() == 0 {
        None
    } else if entries[0].key == key {
        Some(0)
    } else {
        match position(entries.skip(1), key) {
            Some(at) => Some(at + 1),
            None => None,
        }
    }
}

/// A rendition that has taken nothing.
pub open spec fn first_rendition(config: AudioEpochHlsConfig, group: AudioGroupView) -> RenditionView {
    RenditionView {
        key: group.key(),
        format: group.format(),
        expected_pts_samples: None,
        packager: first_packager(
            config,
            (config.base_stream_id + group.group_id) as u64,
            (config.base_stream_id + group.group_id) as usize,
        ),
        waiting: None,
    }
}

/// What packaging a group makes of a list of renditions.
pub open spec fn packaged(
    entries: Seq<RenditionView>,
    config: AudioEpochHlsConfig,
    group: AudioGroupView,
) -> (Seq<RenditionView>, PackageStepView) {
    match group.defect() {
        Some(error) => (entries, PackageStepView::Failed(error)),
        None => match position(entries, group.key()) {
            Some(at) => {
                let (after, step) = entries[at].package(config.packaging, group);
                (entries.update(at, after), step)
            },
            None => if config.base_stream_id + group.group_id > u64::MAX {
                (entries, PackageStepView::Failed(PackageError::StreamIdOverflow))
            } else if config.base_stream_id + group.group_id > usize::MAX {
                (entries, PackageStepView::Failed(PackageError::StreamIdExceedsPlatform))
            } else {
                let (after, step) = first_rendition(config, group).package(config.packaging, group);
                (entries.push(after), step)
            },
        },
    }
}

/// The rendition that a group belongs to: a new one where there is none yet.
pub open spec fn rendition_of(
    entries: Seq<RenditionView>,
    config: AudioEpochHlsConfig,
    group: AudioGroupView,
) -> RenditionView {
    match position(entries, group.key()) {
        Some(at) => entries[at],
        None => first_rendition(config, group),
    }
}

impl Renditions {
    /// No renditions.
    pub fn new() -> (r: Self)
        ensures
            renditions_view(r.entries@) == Seq::<RenditionView>::empty(),
            r.idle(),
    {
        let r = Renditions { entries: Vec::new() };
        assert(renditions_view(r.entries@) =~= Seq::<RenditionView>::empty());
        r
    }

    /// Whether no part is out.
    pub open spec fn idle(&self) -> bool {
        forall|i: int| 0 <= i < self.entries@.len() ==> (#[trigger] self.entries@[i])@.idle()
    }

    /// Finds a key's rendition.
    pub fn find(&self, key: RenditionKey) -> (r: Option<usize>)
        ensures
            match position(renditions_view(self.entries@), key) {
                Some(at) => r matches Some(index) && index == at && index < self.entries@.len(),
                None => r is None,
            },
    {
        let ghost all = renditions_view(self.entries@);
        let mut i: usize = 0;
        assert(all.skip(0) =~= all);
        while i < self.entries.len()
            invariant
                i <= self.entries@.len(),
                all == renditions_view(self.entries@),
                position(all, key) == (match position(all.skip(i as int), key) {
                    Some(at) => Some(at + i),
                    None => None,
                }),
            decreases self.entries@.len() - i,
        {
            let ghost rest = all.skip(i as int);
            assert(rest[0] == self.entries@[i as int]@);
            assert(rest.skip(1) =~= all.skip(i + 1));
            if self.entries[i].key == key {
                return Some(i);
            }
            i = i + 1;
        }
        None
    }

    /// Takes a recovered group into its rendition, which is made where there is none yet.
    ///
    /// Where a part is handed out, [`Renditions::complete_group`] takes how publishing it went
    /// before the next group is packaged.
    pub fn package_group(&mut self, config: &AudioEpochHlsConfig, group: AudioGroup) -> (r:
        PackageStep)
        requires
            old(self).idle(),
        ensures
            renditions_view(final(self).entries@) == packaged(
                renditions_view(old(self).entries@),
                *config,
                group@,
            ).0,
            r@ == packaged(renditions_view(old(self).entries@), *config, group@).1,
            hands_out(
                r,
                rendition_of(renditions_view(old(self).entries@), *config, group@).boxed_from(
                    group@,
                ),
            ),
            !(r is Publish) ==> final(self).idle(),
            forall|i: int|
                0 <= i < final(self).entries@.len() ==> (#[trigger] final(self).entries@[i]).wf(),
    {
        let ghost before = renditions_view(self.entries@);
        if group.flags & AUDIO_GROUP_FLAG_ERASURE != 0 || group.payload.len() == 0 {
            assert(forall|i: int|
                0 <= i < self.entries@.len() ==> (#[trigger] self.entries@[i])@.idle());
            return PackageStep::Failed(
                PackageError::Erasure { session_id: group.session_id, group_id: group.group_id },
            );
        }
        if group.sample_rate == 0 || group.frame_count == 0 || group.channel_count == 0 {
            return PackageStep::Failed(
                PackageError::InvalidDimensions {
                    session_id: group.session_id,
                    group_id: group.group_id,
                },
            );
        }
        let key = RenditionKey { session_id: group.session_id, group_id: group.group_id };
        match self.find(key) {
            Some(at) => {
                let entry = &mut self.entries[at];
                let step = entry.package(config.packaging, group);
                assert(renditions_view(self.entries@) =~= before.update(
                    at as int,
                    self.entries@[at as int]@,
                ));
                step
            },
            None => {
                let stream_id: u64 = match config.base_stream_id.checked_add(group.group_id as u64) {
                    Some(stream_id) => stream_id,
                    None => {
                        return PackageStep::Failed(PackageError::StreamIdOverflow);
                    },
                };
                if stream_id > usize::MAX as u64 {
                    return PackageStep::Failed(PackageError::StreamIdExceedsPlatform);
                }
                let mut entry = Rendition {
                    key,
                    format: format_of(&group),
                    expected_pts_samples: None,
                    packager: new_rendition_packager(config, stream_id, stream_id as usize),
                    waiting: None,
                };
                assert(entry@ == first_rendition(*config, group@));
                let step = entry.package(config.packaging, group);
                self.entries.push(entry);
                assert(renditions_view(self.entries@) =~= before.push(entry@));
                step
            },
        }
    }
}

/// What completing a part makes of a list of renditions.
pub open spec fn completed_at(
    entries: Seq<RenditionView>,
    at: int,
    packaging: AudioEpochHlsPackaging,
    part: RenditionPartView,
    published: bool,
) -> (Seq<RenditionView>, PackageStepView) {
    let (after, step) = entries[at].complete(packaging, part, published);
    (entries.update(at, after), step)
}

impl Renditions {
    /// Whether every rendition can go on once its part is published.
    pub open spec fn wf(&self) -> bool {
        forall|i: int| 0 <= i < self.entries@.len() ==> (#[trigger] self.entries@[i]).wf()
    }

    /// Goes on with the rendition at `at` once the part that it handed out was published, or could
    /// not be.
    pub fn complete_group(
        &mut self,
        config: &AudioEpochHlsConfig,
        at: usize,
        part: RenditionPart,
        published: bool,
    ) -> (r: PackageStep)
        requires
            old(self).wf(),
            at < old(self).entries@.len(),
            old(self).entries@[at as int]@.packager is Fmp4 <==> part is Fmp4,
        ensures
            renditions_view(final(self).entries@) == completed_at(
                renditions_view(old(self).entries@),
                at as int,
                config.packaging,
                part@,
                published,
            ).0,
            r@ == completed_at(
                renditions_view(old(self).entries@),
                at as int,
                config.packaging,
                part@,
                published,
            ).1,
            final(self).wf(),
            !(r is Publish) ==> final(self).entries@[at as int]@.idle(),
    {
        let ghost before = renditions_view(self.entries@);
        let entry = &mut self.entries[at];
        let step = entry.complete(config.packaging, part, published);
        assert(renditions_view(self.entries@) =~= before.update(
            at as int,
            self.entries@[at as int]@,
        ));
        step
    }

    /// Hands out what the rendition at `at` has buffered as its last part, if there is anything.
    pub fn finish_rendition(&mut self, at: usize) -> (r: Option<RenditionPart>)
        requires
            at < old(self).entries@.len(),
            old(self).entries@[at as int]@.packager.ready(),
        ensures
            ({
                let (packager, part) = old(self).entries@[at as int]@.packager.finish();
                &&& renditions_view(final(self).entries@) == renditions_view(
                    old(self).entries@,
                ).update(
                    at as int,
                    (RenditionView { packager, ..old(self).entries@[at as int]@ }),
                )
                &&& match r {
                    Some(handed) => part == Some(handed@) && hands_out(
                        PackageStep::Publish(handed),
                        segmenter_of(old(self).entries@[at as int]@.packager),
                    ),
                    None => part is None,
                }
            }),
    {
        let ghost before = renditions_view(self.entries@);
        let entry = &mut self.entries[at];
        let part = entry.packager.finish();
        assert(renditions_view(self.entries@) =~= before.update(
            at as int,
            self.entries@[at as int]@,
        ));
        part
    }
}

/// Groups of one publication never share a stream: their stream ids differ where their group ids
/// do.
pub proof fn groups_have_streams_of_their_own(
    config: AudioEpochHlsConfig,
    a: AudioGroupView,
    b: AudioGroupView,
)
    requires
        a.group_id != b.group_id,
        config.base_stream_id + a.group_id <= u64::MAX,
        config.base_stream_id + b.group_id <= u64::MAX,
    ensures
        (config.base_stream_id + a.group_id) as u64 != (config.base_stream_id + b.group_id) as u64,
{
}

/// A rendition that starts over keeps numbering its opaque parts, and the next part holds nothing
/// from before.
pub proof fn starting_over_keeps_the_numbering(state: OpaqueView)
    ensures
        PackagerView::Opaque(state).reset() matches PackagerView::Opaque(after)
            && after.published_parts == state.published_parts && after.bytes.len() == 0,
{
}

/// Opus is never boxed: where payloads are boxed a group of it is refused, and what is packaged
/// stays as it is.
pub proof fn opus_is_never_boxed(rendition: RenditionView, group: AudioGroupView)
    requires
        group.payload_kind == AudioPayloadKind::Opus,
    ensures
        ({
            let (after, step) = rendition.take(AudioEpochHlsPackaging::Fmp4, group);
            step is Failed && after.packager == rendition.packager
        }),
{
}

/// What is boxed is the group's payload, byte for byte, at the time that its samples say.
pub proof fn boxed_units_hold_the_payload(group: AudioGroupView)
    requires
        group.sample_rate > 0,
    ensures
        group.unit().data == group.payload,
        group.unit().pts == group.unit().dts,
        group.unit().pts == millis_of_samples(group.pts_samples as int, group.sample_rate as int),
{
}

/// Samples leave as they came: a part that a group of uncompressed audio ends holds the payloads
/// that were buffered and the group's own, one behind the other and nothing else, as long as each of
/// them can be boxed.
pub proof fn samples_leave_unchanged(
    rendition: RenditionView,
    group: AudioGroupView,
    pcm: PcmAudioConfig,
    bytes: Seq<u8>,
)
    requires
        rendition.packager is Fmp4,
        !rendition.breaks_off(group),
        group.track() == Ok::<Option<PcmAudioConfig>, PackageError>(Some(pcm)),
        ({
            let state = segmenter_of(rendition.packager);
            &&& state.eager && state.video.len() == 0 && state.config.avcc is None
            &&& forall|i: int|
                0 <= i < state.audio.len() ==> boxable(pcm)(#[trigger] state.audio[i])
            &&& boxable(pcm)(state.normalized(group.unit()))
        }),
        holds_buffered(bytes, rendition.boxed_from(group)),
    ensures
        samples_from(bytes, 0) == Some(
            joined(segmenter_of(rendition.packager).audio) + group.payload,
        ),
{
    let state = segmenter_of(rendition.packager);
    let unit = state.normalized(group.unit());
    let all = state.audio.push(unit);
    let laid_out = SegmenterView { pcm: Some(pcm), ..state };
    assert(laid_out.normalized(group.unit()) == unit);
    assert(rendition.boxed_from(group).audio == all);
    filter_all(all, boxable(pcm));
    assert(all.drop_last() =~= state.audio);
    assert(unit.data == group.payload);
}

} // verus!
