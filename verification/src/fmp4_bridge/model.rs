//! The packager as a mathematical state machine.
//!
//! A step takes a state and an access unit to a state, at most one part to store, and what remains
//! to be done once it is known how storing went.
use crate::arith::minus_floor;
use crate::bytes::starts_with;
use crate::fmp4_bridge::access_unit::{supported_audio, AccessUnitView, STREAM_TYPE_H264};
use crate::fmp4_bridge::boxable::audio_kept;
use crate::fmp4_bridge::boxes::samples_from;
use crate::fmp4_bridge::nalu::{
    length_prefixed, sample_units, unit_type, without_parameter_sets,
    NAL_UNIT_TYPE_PICTURE_PARAMETER_SET, NAL_UNIT_TYPE_SEQUENCE_PARAMETER_SET,
};
use crate::fmp4_bridge::sps::believed_sps;
use crate::fmp4_bridge::ticks::{ms_of_ticks, ticks_of_ms, TimestampInput};
use crate::fmp4_bridge::track::{
    audio_signature, boxable, box_fits, boxed, boxed_pcm, joined, AvcConfigView, BoxedPartView,
    InitSignatureView, PartInput, PcmAudioConfig, PcmPartInput, TrackConfigView,
};
use vstd::prelude::*;

verus! {

/// Shortest part that the packager cuts unless it is told otherwise, in milliseconds.
pub const DEFAULT_MIN_PART_MS: u32 = 50;

/// Longest part that may go without a key picture, in milliseconds.
pub const MAX_PART_MS_WITHOUT_KEY: u32 = 2_000;

/// Access units that are kept while the video configuration is unknown.
pub const MAX_PENDING_AUS_WITHOUT_CONFIG: usize = 180;

/// How storing a part went.
#[derive(Debug, Clone, Copy, PartialEq, Eq, Structural)]
pub enum StoreOutcome {
    /// The part's bytes could not be appended to the cache.
    AppendFailed,
    /// The playlist did not take the part.
    PlaylistRejected,
    /// The part is stored.
    Stored,
}

/// Why a part ends before an access unit.
#[derive(Debug, Clone, Copy, PartialEq, Eq, Structural)]
pub enum FlushReason {
    /// The part is long enough and the next picture is a key picture.
    TargetKeyframe,
    /// The part is long enough.
    TargetDuration,
    /// The part may not grow further without a key picture.
    MaxDurationWithoutKey,
}

/// A part that is boxed and waits to be stored.
pub struct PendingPartView {
    pub stream_id: u64,
    pub stream_idx: usize,
    pub sequence: u64,
    pub seg_seq: u32,
    pub duration_ms: u32,
    pub init: Option<Seq<u8>>,
    pub bytes: Seq<u8>,
    pub keyframe: bool,
    pub video_codec: Option<Seq<char>>,
    pub video_width: Option<u16>,
    pub video_height: Option<u16>,
    pub video_units: nat,
    pub audio_codec: Option<Seq<char>>,
    pub audio_units: nat,
    pub signature: InitSignatureView,
}

/// What remains to be done with an access unit once a part is stored.
pub enum ResumeView {
    /// Nothing.
    Idle,
    /// Start over and take the unit as the first.
    Restart(AccessUnitView),
    /// Install a configuration and take the unit under it.
    Reconfigure(AccessUnitView, TrackConfigView),
    /// Take the video unit.
    AppendVideo(AccessUnitView),
    /// Take the audio unit.
    AppendAudio(AccessUnitView),
}

/// What the packager knows between two access units.
pub struct SegmenterView {
    pub output_stream_id: u64,
    pub output_stream_idx: usize,
    pub input_timestamps: TimestampInput,
    pub min_part_ticks: u64,
    pub max_part_ticks_without_key: u64,
    pub eager: bool,
    pub pcm: Option<PcmAudioConfig>,
    pub video: Seq<AccessUnitView>,
    pub audio: Seq<AccessUnitView>,
    pub config: TrackConfigView,
    pub seg_seq: u32,
    pub last_init_signature: Option<InitSignatureView>,
    pub force_next_init: bool,
    pub seen_video: bool,
    pub started_video: bool,
    pub published_parts: u64,
    pub warned_no_config: bool,
    pub timestamp_base_input: Option<u64>,
}

/// The outcome of a step.
pub struct Step {
    pub state: SegmenterView,
    pub part: Option<PendingPartView>,
    pub resume: ResumeView,
}

/// A step that ends here.
pub open spec fn done(state: SegmenterView) -> Step {
    Step { state, part: None, resume: ResumeView::Idle }
}

/// The last sequence and picture parameter sets among some units, or those known before.
pub open spec fn last_parameter_sets(
    units: Seq<Seq<u8>>,
    known: (Option<Seq<u8>>, Option<Seq<u8>>),
) -> (Option<Seq<u8>>, Option<Seq<u8>>)
    decreases units.len(),
{
    if units.len() == 0 {
        known
    } else {
        let before = last_parameter_sets(units.drop_last(), known);
        let unit = units.last();
        if unit.len() == 0 {
            before
        } else if unit_type(unit) == NAL_UNIT_TYPE_SEQUENCE_PARAMETER_SET {
            (Some(unit), before.1)
        } else if unit_type(unit) == NAL_UNIT_TYPE_PICTURE_PARAMETER_SET {
            (before.0, Some(unit))
        } else {
            before
        }
    }
}

/// Whether any of some units is a parameter set.
pub open spec fn holds_parameter_set(units: Seq<Seq<u8>>) -> bool {
    exists|i: int| 0 <= i < units.len() && crate::fmp4_bridge::nalu::is_parameter_set(#[trigger] units[i])
}

impl SegmenterView {
    /// The state without its buffered media.
    pub open spec fn cleared(self) -> Self {
        SegmenterView { video: Seq::empty(), audio: Seq::empty(), ..self }
    }

    /// The state that nothing has been pushed into.
    pub open spec fn fresh(self) -> Self {
        SegmenterView {
            video: Seq::empty(),
            audio: Seq::empty(),
            config: TrackConfigView::none(),
            seg_seq: 1,
            last_init_signature: None,
            force_next_init: true,
            seen_video: false,
            started_video: false,
            published_parts: 0,
            warned_no_config: false,
            timestamp_base_input: None,
            ..self
        }
    }

    /// By what the initialisation that fits the buffered media is told from others.
    pub open spec fn init_signature(self) -> InitSignatureView {
        InitSignatureView { video: self.config.signature(), audio: audio_signature(self.audio) }
    }

    /// Whether the next part carries an initialisation.
    pub open spec fn includes_init(self) -> bool {
        self.force_next_init || self.last_init_signature != Some(self.init_signature())
    }

    /// What the next part is boxed from, if it ends at `next_dts`.
    pub open spec fn part_input(self, next_dts: u64) -> PartInput {
        PartInput {
            seq: self.seg_seq,
            config: self.config,
            video: self.video,
            audio: audio_kept(self.audio),
            next_dts,
            include_init: self.includes_init(),
        }
    }

    /// The layout of the next part, if it holds nothing but uncompressed audio.
    pub open spec fn pcm_only(self) -> Option<PcmAudioConfig> {
        if self.video.len() == 0 && self.config.avcc is None {
            self.pcm
        } else {
            None
        }
    }

    /// The next part as the boxer makes it, if it ends at `next_dts`.
    pub open spec fn made(self, next_dts: u64) -> BoxedPartView {
        match self.pcm_only() {
            Some(pcm) => boxed_pcm(
                PcmPartInput {
                    seq: self.seg_seq,
                    audio: self.audio,
                    include_init: self.includes_init(),
                    pcm,
                },
            ),
            None => boxed(self.part_input(next_dts)),
        }
    }

    /// The next part, if it ends at `next_dts`.
    pub open spec fn part(self, next_dts: u64) -> PendingPartView {
        let made = self.made(next_dts);
        PendingPartView {
            stream_id: self.output_stream_id,
            stream_idx: self.output_stream_idx,
            sequence: self.published_parts,
            seg_seq: self.seg_seq,
            duration_ms: made.duration,
            init: made.init,
            bytes: made.data,
            keyframe: made.key,
            video_codec: if self.video.len() > 0 {
                Some("h264"@)
            } else {
                None
            },
            video_width: if self.video.len() > 0 {
                Some(self.config.width)
            } else {
                None
            },
            video_height: if self.video.len() > 0 {
                Some(self.config.height)
            } else {
                None
            },
            video_units: self.video.len(),
            audio_codec: if self.audio.len() > 0 {
                Some(
                    match self.pcm_only() {
                        Some(pcm) => pcm.codec(),
                        None => "aac"@,
                    },
                )
            } else {
                None
            },
            audio_units: self.audio.len(),
            signature: self.init_signature(),
        }
    }

    /// Ends the part at `next_dts`: what is buffered leaves, boxed where it can be.
    pub open spec fn flush(self, next_dts: u64) -> (Self, Option<PendingPartView>) {
        if self.video.len() == 0 && self.audio.len() == 0 {
            (self, None)
        } else if self.config.avcc is None && self.seen_video {
            (SegmenterView { warned_no_config: true, ..self.cleared() }, None)
        } else if self.part(next_dts).bytes.len() == 0 {
            (
                SegmenterView { seg_seq: next_seq(self.seg_seq), ..self.cleared() },
                None,
            )
        } else {
            (self.cleared(), Some(self.part(next_dts)))
        }
    }

    /// Where the buffered media ends when nothing follows.
    pub open spec fn end_dts(self) -> u64 {
        if self.video.len() == 0 {
            0
        } else {
            let last = self.video.last().dts;
            let step = if self.video.len() >= 2 {
                let gap = minus_floor(last as int, self.video[self.video.len() - 2].dts as int);
                if gap >= 1 {
                    gap
                } else {
                    1
                }
            } else {
                ticks_of_ms(DEFAULT_MIN_PART_MS as int)
            };
            crate::arith::wrapped_u64(last + step)
        }
    }

    /// Ends the part where its media ends.
    pub open spec fn flush_current(self) -> (Self, Option<PendingPartView>) {
        self.flush(self.end_dts())
    }

    /// What storing a part changes.
    pub open spec fn commit(self, part: PendingPartView, outcome: StoreOutcome) -> Self {
        if outcome != StoreOutcome::Stored {
            self
        } else {
            SegmenterView {
                last_init_signature: if part.init is Some {
                    Some(part.signature)
                } else {
                    self.last_init_signature
                },
                force_next_init: self.force_next_init && part.init is None,
                published_parts: crate::arith::wrapped_u64(self.published_parts + 1),
                seg_seq: next_seq(self.seg_seq),
                ..self
            }
        }
    }

    /// Whether a unit's decoding time lies before the first one seen.
    pub open spec fn went_backwards(self, unit: AccessUnitView) -> bool {
        unit.stream_type == STREAM_TYPE_H264 && (self.timestamp_base_input matches Some(base)
            && unit.dts < base)
    }

    /// The decoding time that counts as zero, once a unit has been seen.
    pub open spec fn base_with(self, unit: AccessUnitView) -> Option<u64> {
        match self.timestamp_base_input {
            Some(base) => Some(base),
            None => if self.input_timestamps == TimestampInput::MillisAbsolute {
                None
            } else {
                Some(unit.dts)
            },
        }
    }

    /// A timestamp of a unit on the output's clock.
    pub open spec fn rebased(self, unit: AccessUnitView, value: u64) -> u64 {
        let moved = match self.base_with(unit) {
            Some(base) => minus_floor(value as int, base as int),
            None => value as int,
        };
        (if unit.stream_type == STREAM_TYPE_H264 {
            self.input_timestamps.video_ticks(moved)
        } else {
            self.input_timestamps.audio_ms(moved)
        }) as u64
    }

    /// A unit on the output's clock.
    pub open spec fn normalized(self, unit: AccessUnitView) -> AccessUnitView {
        AccessUnitView {
            pts: self.rebased(unit, unit.pts),
            dts: self.rebased(unit, unit.dts),
            ..unit
        }
    }

    /// The configuration that a sample's parameter sets amount to, with those known before.
    pub open spec fn offered_config(self, data: Seq<u8>) -> Option<TrackConfigView> {
        match sample_units(data) {
            Err(_) => None,
            Ok(units) => {
                let known = match self.config.avcc {
                    Some(avcc) => (
                        Some(avcc.sequence_parameter_set),
                        Some(avcc.picture_parameter_set),
                    ),
                    None => (None, None),
                };
                match last_parameter_sets(units, known) {
                    (Some(sps), Some(pps)) => if !holds_parameter_set(units) {
                        None
                    } else {
                        match believed_sps(sps) {
                            Ok(decoded) => Some(
                                TrackConfigView {
                                    width: decoded.width,
                                    height: decoded.height,
                                    avcc: Some(
                                        AvcConfigView {
                                            profile_idc: decoded.profile_idc,
                                            constraint_set_flag: decoded.constraint_set_flag,
                                            level_idc: decoded.level_idc,
                                            sequence_parameter_set: sps,
                                            picture_parameter_set: pps,
                                        },
                                    ),
                                },
                            ),
                            Err(_) => None,
                        }
                    },
                    _ => None,
                }
            },
        }
    }

    /// The state under a new video configuration.
    pub open spec fn installed(self, config: TrackConfigView) -> Self {
        SegmenterView {
            config,
            force_next_init: true,
            started_video: false,
            warned_no_config: false,
            ..self
        }
    }

    /// The state without its media, where too much of it waits for a configuration.
    pub open spec fn bounded(self) -> Self {
        if self.video.len() + self.audio.len() > MAX_PENDING_AUS_WITHOUT_CONFIG {
            self.cleared()
        } else {
            self
        }
    }

    /// Why the part ends before a video unit, if it does.
    pub open spec fn flush_reason(self, unit: AccessUnitView) -> Option<FlushReason> {
        if self.video.len() == 0 {
            None
        } else {
            let elapsed = minus_floor(unit.dts as int, self.video[0].dts as int);
            if elapsed >= self.min_part_ticks {
                Some(
                    if unit.key {
                        FlushReason::TargetKeyframe
                    } else {
                        FlushReason::TargetDuration
                    },
                )
            } else if elapsed >= self.max_part_ticks_without_key {
                Some(FlushReason::MaxDurationWithoutKey)
            } else {
                None
            }
        }
    }

    /// Whether a part without video ends before an audio unit.
    pub open spec fn audio_flush_due(self, unit: AccessUnitView) -> bool {
        self.audio.len() > 0 && minus_floor(unit.pts as int, self.audio[0].pts as int)
            >= ms_of_ticks(self.min_part_ticks as int)
    }

    /// The state with one more video unit.
    pub open spec fn with_video(self, unit: AccessUnitView) -> Self {
        SegmenterView { video: self.video.push(unit), started_video: true, ..self }
    }

    /// The state with one more audio unit.
    pub open spec fn with_audio(self, unit: AccessUnitView) -> Self {
        SegmenterView { audio: self.audio.push(unit), ..self }
    }

    /// Takes a video unit under the current configuration, which may be new.
    pub open spec fn continue_video(self, unit: AccessUnitView, fresh_config: bool) -> Step {
        match without_parameter_sets(unit.data) {
            Ok(Some(data)) => {
                let media = AccessUnitView { data, ..unit };
                if self.config.avcc is None {
                    done(SegmenterView { video: self.video.push(media), ..self }.bounded())
                } else if fresh_config && !media.key {
                    done(self)
                } else if self.flush_reason(media) is Some {
                    match self.flush(media.dts) {
                        (state, Some(part)) => Step {
                            state,
                            part: Some(part),
                            resume: ResumeView::AppendVideo(media),
                        },
                        (state, None) => done(state.with_video(media)),
                    }
                } else {
                    done(self.with_video(media))
                }
            },
            _ => done(self),
        }
    }

    /// Takes a video unit under a configuration that it brings.
    pub open spec fn reconfigured(self, unit: AccessUnitView, config: TrackConfigView) -> Step {
        self.cleared().installed(config).continue_video(unit, true)
    }

    /// Takes a video unit on the output's clock.
    pub open spec fn push_video(self, unit: AccessUnitView) -> Step {
        match self.offered_config(unit.data) {
            None => self.continue_video(unit, false),
            Some(config) => if config.signature() == self.config.signature() {
                self.continue_video(unit, false)
            } else if self.config.avcc is None {
                self.reconfigured(unit, config)
            } else if !unit.key {
                if config.width == self.config.width && config.height == self.config.height {
                    self.continue_video(unit, false)
                } else {
                    done(self)
                }
            } else {
                match self.flush_current() {
                    (state, Some(part)) => Step {
                        state,
                        part: Some(part),
                        resume: ResumeView::Reconfigure(unit, config),
                    },
                    (state, None) => state.reconfigured(unit, config),
                }
            },
        }
    }

    /// Milliseconds of uncompressed audio that are buffered.
    pub open spec fn pcm_ms(self) -> int {
        match self.pcm {
            Some(pcm) => if pcm.sample_rate == 0 || pcm.frame_bytes() == 0 {
                0
            } else {
                crate::audio_epoch_hls::timing::millis_of_samples(
                    audio_bytes(self.audio) / pcm.frame_bytes(),
                    pcm.sample_rate as int,
                )
            },
            None => 0,
        }
    }

    /// Whether a part ends with the audio unit that makes it long enough.
    pub open spec fn ends_eagerly(self) -> bool {
        self.eager && self.pcm is Some && self.video.len() == 0
    }

    /// Takes an audio unit on the output's clock.
    pub open spec fn push_audio(self, unit: AccessUnitView) -> Step {
        if self.seen_video && (self.config.avcc is None || !self.started_video) {
            done(self.with_audio(unit).bounded())
        } else if self.ends_eagerly() {
            let state = self.with_audio(unit);
            if state.pcm_ms() >= ms_of_ticks(self.min_part_ticks as int) {
                Step { state: state.flush(0).0, part: state.flush(0).1, resume: ResumeView::Idle }
            } else {
                done(state)
            }
        } else if self.video.len() == 0 && self.audio_flush_due(unit) {
            match self.flush(0) {
                (state, Some(part)) => Step {
                    state,
                    part: Some(part),
                    resume: ResumeView::AppendAudio(unit),
                },
                (state, None) => done(state.with_audio(unit)),
            }
        } else {
            done(self.with_audio(unit))
        }
    }

    /// What leaves with the part that a unit ends: what was buffered before, and the unit itself
    /// where it makes uncompressed audio long enough.
    pub open spec fn leaving(self, unit: AccessUnitView) -> Self {
        if unit.stream_type != STREAM_TYPE_H264 && self.ends_eagerly() {
            self.with_audio(self.normalized(unit))
        } else {
            self
        }
    }

    /// Takes a unit that does not go back in time.
    pub open spec fn accept(self, unit: AccessUnitView) -> Step {
        let state = SegmenterView { timestamp_base_input: self.base_with(unit), ..self };
        let media = self.normalized(unit);
        if unit.stream_type == STREAM_TYPE_H264 {
            state.push_video(media)
        } else {
            state.push_audio(media)
        }
    }

    /// Takes a unit in its final framing.
    #[verifier::opaque]
    pub open spec fn enter(self, unit: AccessUnitView) -> Step {
        if self.went_backwards(unit) {
            match self.flush_current() {
                (state, Some(part)) => Step {
                    state,
                    part: Some(part),
                    resume: ResumeView::Restart(unit),
                },
                (state, None) => state.fresh().accept(unit),
            }
        } else {
            self.accept(unit)
        }
    }

    /// Takes an access unit.
    #[verifier::opaque]
    pub open spec fn push(self, unit: AccessUnitView) -> Step {
        if unit.stream_type == STREAM_TYPE_H264 {
            let state = SegmenterView { seen_video: true, ..self };
            match length_prefixed(unit) {
                Some(framed) => state.enter(framed),
                None => done(state),
            }
        } else if supported_audio(unit.stream_type) {
            self.enter(unit)
        } else {
            done(self)
        }
    }

    /// Does what remained to be done when a part was handed out.
    pub open spec fn resumed(self, resume: ResumeView) -> Self {
        match resume {
            ResumeView::Idle => self,
            ResumeView::Restart(unit) => self.fresh().accept(unit).state,
            ResumeView::Reconfigure(unit, config) => self.reconfigured(unit, config).state,
            ResumeView::AppendVideo(unit) => self.with_video(unit),
            ResumeView::AppendAudio(unit) => self.with_audio(unit),
        }
    }
}

/// Whether a fragment holds what is buffered: the pictures, one behind the other, and of
/// uncompressed audio exactly the bytes that can be boxed.
pub open spec fn holds_buffered(bytes: Seq<u8>, state: SegmenterView) -> bool {
    &&& samples_from(bytes, 0) is Some
    &&& state.config.avcc is Some ==> starts_with(samples_from(bytes, 0)->0, joined(state.video))
    &&& state.pcm_only() matches Some(pcm) ==> samples_from(bytes, 0)->0 == joined(
        state.audio.filter(boxable(pcm)),
    )
}

/// Whether what is buffered makes a part: there are bytes of configured pictures, or of uncompressed
/// audio that can be boxed, and few enough of them.
pub open spec fn makes_part(state: SegmenterView) -> bool {
    match state.pcm_only() {
        Some(pcm) => {
            let bytes = joined(state.audio.filter(boxable(pcm))).len();
            !state.seen_video && bytes > 0 && box_fits(bytes, state.audio.len())
        },
        None => {
            let audio = audio_kept(state.audio);
            let bytes = joined(state.video).len();
            state.config.avcc is Some && bytes > 0 && box_fits(
                bytes + joined(audio).len(),
                state.video.len() + audio.len(),
            )
        },
    }
}

/// Whether what is buffered makes no part: there is no audio to box, and no byte of a configured
/// picture.
pub open spec fn makes_nothing(state: SegmenterView) -> bool {
    match state.pcm_only() {
        Some(pcm) => joined(state.audio.filter(boxable(pcm))).len() == 0,
        None => audio_kept(state.audio).len() == 0 && (state.config.avcc is None || joined(
            state.video,
        ).len() == 0),
    }
}

/// The box sequence number after another, around the end of its range.
pub open spec fn next_seq(seq: u32) -> u32 {
    if seq == u32::MAX {
        0
    } else {
        (seq + 1) as u32
    }
}

/// Bytes that some units hold together, counted up to the largest `u64`.
pub open spec fn audio_bytes(units: Seq<AccessUnitView>) -> int
    decreases units.len(),
{
    if units.len() == 0 {
        0
    } else {
        crate::arith::cap_u64(audio_bytes(units.drop_last()) + units.last().data.len())
    }
}

} // verus!
