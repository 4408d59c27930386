//! The packager: access units in, parts to store out.
use crate::arith::wrapping_add_u64;
use crate::audio_epoch_hls::timing::samples_to_millis;
use crate::bytes::{copy_bytes, optional_view};
use crate::fmp4_bridge::access_unit::{
    is_h264, is_supported_audio, units_view, AccessUnit, AccessUnitView, STREAM_TYPE_H264,
};
use crate::fmp4_bridge::boxable::keep_sound_audio;
use crate::fmp4_bridge::model::{
    audio_bytes, holds_buffered, holds_parameter_set, last_parameter_sets, makes_nothing, makes_part,
    FlushReason, PendingPartView, ResumeView,
    SegmenterView, Step, StoreOutcome, DEFAULT_MIN_PART_MS, MAX_PART_MS_WITHOUT_KEY,
    MAX_PENDING_AUS_WITHOUT_CONFIG,
};
use crate::fmp4_bridge::nalu::{
    ensure_h264_length_prefixed, is_parameter_set, length_prefixed, next_h264_length_prefixed_nalu,
    sample_units, strip_h264_parameter_sets, H264SampleError, NAL_UNIT_TYPE_MASK,
    NAL_UNIT_TYPE_PICTURE_PARAMETER_SET, NAL_UNIT_TYPE_SEQUENCE_PARAMETER_SET,
};
use crate::fmp4_bridge::sps::decode_h264_sps;
use crate::fmp4_bridge::ticks::{ms_to_ticks, ticks_to_ms, TimestampInput};
use crate::fmp4_bridge::track::{
    audio_config_signature, box_pcm_units, box_units, AvcConfig, InitSignature, PcmAudioConfig, TrackConfig,
    TrackConfigView,
};
use vstd::prelude::*;

verus! {

/// A part as it is handed to the publication path.
#[derive(Debug, Clone)]
pub struct PublishedFmp4Part {
    pub stream_id: u64,
    pub stream_idx: usize,
    pub sequence: u64,
    pub duration_ms: u32,
    pub packaged_at_unix_ns: i64,
    pub published_at_unix_ns: i64,
    pub init: Option<Vec<u8>>,
    pub bytes: Vec<u8>,
    pub keyframe: bool,
    pub video_codec: Option<&'static str>,
    pub video_width: Option<u16>,
    pub video_height: Option<u16>,
    pub video_units: usize,
    pub audio_codec: Option<&'static str>,
    pub audio_units: usize,
}

/// A part that is boxed and waits to be stored.
#[derive(Debug)]
pub struct PendingPart {
    pub stream_id: u64,
    pub stream_idx: usize,
    pub sequence: u64,
    pub seg_seq: u32,
    pub duration_ms: u32,
    pub init: Option<Vec<u8>>,
    pub bytes: Vec<u8>,
    pub keyframe: bool,
    pub video_codec: Option<&'static str>,
    pub video_width: Option<u16>,
    pub video_height: Option<u16>,
    pub video_units: usize,
    pub audio_codec: Option<&'static str>,
    pub audio_units: usize,
    pub signature: InitSignature,
}

/// What a codec name that may be missing spells.
pub open spec fn codec_view(codec: Option<&'static str>) -> Option<Seq<char>> {
    match codec {
        Some(codec) => Some(codec@),
        None => None,
    }
}

impl View for PendingPart {
    type V = PendingPartView;

    open spec fn view(&self) -> PendingPartView {
        PendingPartView {
            stream_id: self.stream_id,
            stream_idx: self.stream_idx,
            sequence: self.sequence,
            seg_seq: self.seg_seq,
            duration_ms: self.duration_ms,
            init: optional_view(self.init),
            bytes: self.bytes@,
            keyframe: self.keyframe,
            video_codec: codec_view(self.video_codec),
            video_width: self.video_width,
            video_height: self.video_height,
            video_units: self.video_units as nat,
            audio_codec: codec_view(self.audio_codec),
            audio_units: self.audio_units as nat,
            signature: self.signature@,
        }
    }
}

impl PendingPart {
    /// The part as it is published, stamped with when it was boxed and when it was handed on.
    pub fn published(&self, packaged_at_unix_ns: i64, published_at_unix_ns: i64) -> (r:
        PublishedFmp4Part)
        ensures
            r.stream_id == self.stream_id,
            r.stream_idx == self.stream_idx,
            r.sequence == self.sequence,
            r.duration_ms == self.duration_ms,
            r.packaged_at_unix_ns == packaged_at_unix_ns,
            r.published_at_unix_ns == published_at_unix_ns,
            optional_view(r.init) == self@.init,
            r.bytes@ == self@.bytes,
            r.keyframe == self.keyframe,
            r.video_codec == self.video_codec,
            r.video_width == self.video_width,
            r.video_height == self.video_height,
            r.video_units == self.video_units,
            r.audio_codec == self.audio_codec,
            r.audio_units == self.audio_units,
    {
        PublishedFmp4Part {
            stream_id: self.stream_id,
            stream_idx: self.stream_idx,
            sequence: self.sequence,
            duration_ms: self.duration_ms,
            packaged_at_unix_ns,
            published_at_unix_ns,
            init: crate::bytes::copy_optional_bytes(&self.init),
            bytes: copy_bytes(self.bytes.as_slice()),
            keyframe: self.keyframe,
            video_codec: self.video_codec,
            video_width: self.video_width,
            video_height: self.video_height,
            video_units: self.video_units,
            audio_codec: self.audio_codec,
            audio_units: self.audio_units,
        }
    }
}

/// What a part that may be missing holds.
pub open spec fn part_view(part: Option<PendingPart>) -> Option<PendingPartView> {
    match part {
        Some(part) => Some(part@),
        None => None,
    }
}

/// What remains to be done with an access unit once a part is stored.
#[derive(Debug)]
pub enum Resume {
    Idle,
    Restart(AccessUnit),
    Reconfigure(AccessUnit, TrackConfig),
    AppendVideo(AccessUnit),
    AppendAudio(AccessUnit),
}

impl View for Resume {
    type V = ResumeView;

    open spec fn view(&self) -> ResumeView {
        match self {
            Resume::Idle => ResumeView::Idle,
            Resume::Restart(unit) => ResumeView::Restart(unit@),
            Resume::Reconfigure(unit, config) => ResumeView::Reconfigure(unit@, config@),
            Resume::AppendVideo(unit) => ResumeView::AppendVideo(unit@),
            Resume::AppendAudio(unit) => ResumeView::AppendAudio(unit@),
        }
    }
}

/// Cuts access units into fragmented MP4 parts.
///
/// [`Fmp4Segmenter::push_access_unit`] and [`Fmp4Segmenter::finish`] hand out a part where one
/// ends. The part is then stored, and [`Fmp4Segmenter::complete`] takes how that went before the
/// next unit is pushed.
#[derive(Debug)]
pub struct Fmp4Segmenter {
    pub output_stream_id: u64,
    pub output_stream_idx: usize,
    pub input_timestamps: TimestampInput,
    pub min_part_ticks: u64,
    pub max_part_ticks_without_key: u64,
    pub eager: bool,
    pub pcm: Option<PcmAudioConfig>,
    pub video_buf: Vec<AccessUnit>,
    pub audio_buf: Vec<AccessUnit>,
    pub config: TrackConfig,
    pub seg_seq: u32,
    pub last_init_signature: Option<InitSignature>,
    pub force_next_init: bool,
    pub seen_video: bool,
    pub started_video: bool,
    pub published_parts: u64,
    pub warned_no_config: bool,
    pub timestamp_base_input: Option<u64>,
    pub resume: Resume,
}

impl View for Fmp4Segmenter {
    type V = SegmenterView;

    open spec fn view(&self) -> SegmenterView {
        SegmenterView {
            output_stream_id: self.output_stream_id,
            output_stream_idx: self.output_stream_idx,
            input_timestamps: self.input_timestamps,
            min_part_ticks: self.min_part_ticks,
            max_part_ticks_without_key: self.max_part_ticks_without_key,
            eager: self.eager,
            pcm: self.pcm,
            video: units_view(self.video_buf@),
            audio: units_view(self.audio_buf@),
            config: self.config@,
            seg_seq: self.seg_seq,
            last_init_signature: match self.last_init_signature {
                Some(signature) => Some(signature@),
                None => None,
            },
            force_next_init: self.force_next_init,
            seen_video: self.seen_video,
            started_video: self.started_video,
            published_parts: self.published_parts,
            warned_no_config: self.warned_no_config,
            timestamp_base_input: self.timestamp_base_input,
        }
    }
}

impl Fmp4Segmenter {
    /// Whether every part handed out so far has been completed.
    pub open spec fn ready(&self) -> bool {
        self.resume@ == ResumeView::Idle
    }

    /// Only video makes the packager start over.
    pub open spec fn wf(&self) -> bool {
        restarts_on_video(self.resume@)
    }

    /// Whether a step was taken: the state it leads to, and what remains to be done after it.
    pub open spec fn took(&self, step: Step) -> bool {
        self@ == step.state && self.resume@ == step.resume
    }

    fn with_mode(
        output_stream_id: u64,
        output_stream_idx: usize,
        input_timestamps: TimestampInput,
        min_part_ms: u32,
        eager: bool,
    ) -> (r: Self)
        ensures
            r.ready(),
            r@ == r@.fresh(),
            r.output_stream_id == output_stream_id,
            r.output_stream_idx == output_stream_idx,
            r.input_timestamps == input_timestamps,
            r.min_part_ticks == min_part_ms * 90,
            r.max_part_ticks_without_key == MAX_PART_MS_WITHOUT_KEY * 90,
            r.eager == eager,
            r.pcm is None,
    {
        let r = Fmp4Segmenter {
            output_stream_id,
            output_stream_idx,
            input_timestamps,
            min_part_ticks: ms_to_ticks(min_part_ms),
            max_part_ticks_without_key: ms_to_ticks(MAX_PART_MS_WITHOUT_KEY),
            eager,
            pcm: None,
            video_buf: Vec::new(),
            audio_buf: Vec::new(),
            config: TrackConfig::none(),
            seg_seq: 1,
            last_init_signature: None,
            force_next_init: true,
            seen_video: false,
            started_video: false,
            published_parts: 0,
            warned_no_config: false,
            timestamp_base_input: None,
            resume: Resume::Idle,
        };
        assert(r@.video =~= r@.fresh().video);
        assert(r@.audio =~= r@.fresh().audio);
        r
    }

    /// A packager for one output stream, whose parts last at least `min_part_ms` milliseconds.
    pub fn new(
        output_stream_id: u64,
        output_stream_idx: usize,
        input_timestamps: TimestampInput,
        min_part_ms: u32,
    ) -> (r: Self)
        ensures
            r.ready(),
            r@ == r@.fresh(),
            r.output_stream_id == output_stream_id,
            r.output_stream_idx == output_stream_idx,
            r.input_timestamps == input_timestamps,
            r.min_part_ticks == min_part_ms * 90,
            r.max_part_ticks_without_key == MAX_PART_MS_WITHOUT_KEY * 90,
            !r.eager,
            r.pcm is None,
    {
        Self::with_mode(output_stream_id, output_stream_idx, input_timestamps, min_part_ms, false)
    }

    /// A packager whose parts only go to the publication path, and which ends a part of
    /// uncompressed audio with the unit that makes it long enough.
    pub fn new_publish_only(
        output_stream_id: u64,
        output_stream_idx: usize,
        input_timestamps: TimestampInput,
        min_part_ms: u32,
    ) -> (r: Self)
        ensures
            r.ready(),
            r@ == r@.fresh(),
            r.output_stream_id == output_stream_id,
            r.output_stream_idx == output_stream_idx,
            r.input_timestamps == input_timestamps,
            r.min_part_ticks == min_part_ms * 90,
            r.max_part_ticks_without_key == MAX_PART_MS_WITHOUT_KEY * 90,
            r.eager,
            r.pcm is None,
    {
        Self::with_mode(output_stream_id, output_stream_idx, input_timestamps, min_part_ms, true)
    }

    /// States the layout of the audio that follows, where it is uncompressed.
    pub fn set_audio_track_config(&mut self, pcm: Option<PcmAudioConfig>)
        ensures
            final(self)@ == (SegmenterView { pcm, ..old(self)@ }),
            final(self).resume == old(self).resume,
    {
        self.pcm = pcm;
    }

    /// Forgets everything but what the packager was made with.
    pub fn reset(&mut self)
        ensures
            final(self)@ == old(self)@.fresh(),
            final(self).resume == old(self).resume,
    {
        self.clear_pending_media();
        self.config = TrackConfig::none();
        self.seg_seq = 1;
        self.last_init_signature = None;
        self.force_next_init = true;
        self.seen_video = false;
        self.started_video = false;
        self.published_parts = 0;
        self.warned_no_config = false;
        self.timestamp_base_input = None;
    }

    fn clear_pending_media(&mut self)
        ensures
            final(self)@ == old(self)@.cleared(),
            final(self).resume == old(self).resume,
    {
        self.video_buf.clear();
        self.audio_buf.clear();
        assert(self@.video =~= old(self)@.cleared().video);
        assert(self@.audio =~= old(self)@.cleared().audio);
    }

    fn drop_pending_without_config_if_needed(&mut self)
        ensures
            final(self)@ == old(self)@.bounded(),
            final(self).resume == old(self).resume,
    {
        let pending: usize = self.video_buf.len().saturating_add(self.audio_buf.len());
        if pending > MAX_PENDING_AUS_WITHOUT_CONFIG {
            self.clear_pending_media();
        }
    }

    fn append_video(&mut self, access_unit: AccessUnit)
        ensures
            final(self)@ == (SegmenterView {
                video: old(self)@.video.push(access_unit@),
                ..old(self)@
            }),
            final(self).resume == old(self).resume,
    {
        self.video_buf.push(access_unit);
        assert(self@.video =~= old(self)@.video.push(access_unit@));
    }

    fn append_audio(&mut self, access_unit: AccessUnit)
        ensures
            final(self)@ == old(self)@.with_audio(access_unit@),
            final(self).resume == old(self).resume,
    {
        self.audio_buf.push(access_unit);
        assert(self@.audio =~= old(self)@.audio.push(access_unit@));
    }

    /// Whether a video unit's decoding time lies before the first one seen.
    pub fn timestamp_went_backwards(&self, access_unit: &AccessUnit) -> (r: bool)
        ensures
            r == self@.went_backwards(access_unit@),
    {
        if !is_h264(access_unit.stream_type) {
            return false;
        }
        match self.timestamp_base_input {
            Some(base) => access_unit.dts < base,
            None => false,
        }
    }

    /// Brings a unit to the output's clock, which starts with the first unit seen.
    pub fn normalize_timestamps(&mut self, access_unit: &mut AccessUnit)
        ensures
            final(self)@ == (SegmenterView {
                timestamp_base_input: old(self)@.base_with(old(access_unit)@),
                ..old(self)@
            }),
            final(self).resume == old(self).resume,
            final(access_unit)@ == old(self)@.normalized(old(access_unit)@),
    {
        if self.timestamp_base_input.is_none() {
            match self.input_timestamps {
                TimestampInput::MillisAbsolute => {},
                _ => {
                    self.timestamp_base_input = Some(access_unit.dts);
                },
            }
        }
        let base: u64 = match self.timestamp_base_input {
            Some(base) => base,
            None => 0,
        };
        let pts: u64 = access_unit.pts.saturating_sub(base);
        let dts: u64 = access_unit.dts.saturating_sub(base);
        if is_h264(access_unit.stream_type) {
            access_unit.pts = self.input_timestamps.scale_video(pts);
            access_unit.dts = self.input_timestamps.scale_video(dts);
        } else {
            access_unit.pts = self.input_timestamps.scale_audio(pts);
            access_unit.dts = self.input_timestamps.scale_audio(dts);
        }
    }

    /// Why the part ends before a video unit, if it does.
    pub fn flush_reason_before(&self, access_unit: &AccessUnit) -> (r: Option<FlushReason>)
        ensures
            r == self@.flush_reason(access_unit@),
    {
        if self.video_buf.len() == 0 {
            return None;
        }
        assert(self@.video[0] == self.video_buf@[0]@);
        let elapsed: u64 = access_unit.dts.saturating_sub(self.video_buf[0].dts);
        if elapsed >= self.min_part_ticks {
            Some(
                if access_unit.key {
                    FlushReason::TargetKeyframe
                } else {
                    FlushReason::TargetDuration
                },
            )
        } else if elapsed >= self.max_part_ticks_without_key {
            Some(FlushReason::MaxDurationWithoutKey)
        } else {
            None
        }
    }

    /// Whether a part without video ends before an audio unit.
    pub fn should_flush_audio_only_before(&self, access_unit: &AccessUnit) -> (r: bool)
        ensures
            r == self@.audio_flush_due(access_unit@),
    {
        if self.audio_buf.len() == 0 {
            return false;
        }
        assert(self@.audio[0] == self.audio_buf@[0]@);
        access_unit.pts.saturating_sub(self.audio_buf[0].pts) >= ticks_to_ms(self.min_part_ticks)
    }

    fn current_init_signature(&self) -> (r: InitSignature)
        ensures
            r@ == self@.init_signature(),
    {
        InitSignature {
            video: self.config.signature(),
            audio: audio_config_signature(&self.audio_buf),
        }
    }

    fn flush_with_next_dts(&mut self, next_dts: u64) -> (r: Option<PendingPart>)
        ensures
            final(self)@ == old(self)@.flush(next_dts).0,
            part_view(r) == old(self)@.flush(next_dts).1,
            r matches Some(part) ==> holds_buffered(part.bytes@, old(self)@),
            r matches Some(part) ==> opens_truly(part@, old(self)@),
            makes_part(old(self)@) ==> r is Some,
            makes_nothing(old(self)@) ==> r is None,
            final(self).resume == old(self).resume,
    {
        if self.video_buf.len() == 0 && self.audio_buf.len() == 0 {
            return None;
        }
        if self.config.avcc.is_none() && self.seen_video {
            self.warned_no_config = true;
            self.clear_pending_media();
            return None;
        }
        let signature = self.current_init_signature();
        let include_init = self.force_next_init || match &self.last_init_signature {
            Some(last) => !last.same_as(&signature),
            None => true,
        };
        let video_units: usize = self.video_buf.len();
        let audio_units: usize = self.audio_buf.len();
        let pcm = if video_units == 0 && self.config.avcc.is_none() {
            self.pcm
        } else {
            None
        };
        let mut video: Vec<AccessUnit> = Vec::new();
        let mut audio: Vec<AccessUnit> = Vec::new();
        core::mem::swap(&mut self.video_buf, &mut video);
        core::mem::swap(&mut self.audio_buf, &mut audio);
        assert(self@.video =~= old(self)@.cleared().video);
        assert(self@.audio =~= old(self)@.cleared().audio);
        let made = match pcm {
            Some(pcm) => box_pcm_units(self.seg_seq, audio, include_init, pcm),
            None => {
                let audio = keep_sound_audio(audio);
                box_units(self.seg_seq, &self.config, video, audio, next_dts, include_init)
            },
        };
        if made.data.len() == 0 {
            self.seg_seq = self.seg_seq.wrapping_add(1);
            return None;
        }
        let has_video = video_units > 0;
        Some(
            PendingPart {
                stream_id: self.output_stream_id,
                stream_idx: self.output_stream_idx,
                sequence: self.published_parts,
                seg_seq: self.seg_seq,
                duration_ms: made.duration,
                init: made.init,
                bytes: made.data,
                keyframe: made.key,
                video_codec: if has_video {
                    Some("h264")
                } else {
                    None
                },
                video_width: if has_video {
                    Some(self.config.width)
                } else {
                    None
                },
                video_height: if has_video {
                    Some(self.config.height)
                } else {
                    None
                },
                video_units,
                audio_codec: if audio_units > 0 {
                    Some(
                        match pcm {
                            Some(pcm) => pcm.codec_name(),
                            None => "aac",
                        },
                    )
                } else {
                    None
                },
                audio_units,
                signature,
            },
        )
    }

    fn flush_current(&mut self) -> (r: Option<PendingPart>)
        ensures
            final(self)@ == old(self)@.flush_current().0,
            part_view(r) == old(self)@.flush_current().1,
            r matches Some(part) ==> holds_buffered(part.bytes@, old(self)@),
            r matches Some(part) ==> opens_truly(part@, old(self)@),
            makes_part(old(self)@) ==> r is Some,
            makes_nothing(old(self)@) ==> r is None,
            final(self).resume == old(self).resume,
    {
        let count: usize = self.video_buf.len();
        if count == 0 {
            return self.flush_with_next_dts(0);
        }
        assert(self@.video.last() == self.video_buf@.last()@);
        let last: u64 = self.video_buf[count - 1].dts;
        let step: u64 = if count >= 2 {
            assert(self@.video[count - 2] == self.video_buf@[count - 2]@);
            let gap: u64 = last.saturating_sub(self.video_buf[count - 2].dts);
            if gap >= 1 {
                gap
            } else {
                1
            }
        } else {
            ms_to_ticks(DEFAULT_MIN_PART_MS)
        };
        let next_dts: u64 = wrapping_add_u64(last, step);
        self.flush_with_next_dts(next_dts)
    }

    /// Hands out what is buffered as the last part, if there is anything to box.
    pub fn finish(&mut self) -> (r: Option<PendingPart>)
        requires
            old(self).ready(),
        ensures
            final(self)@ == old(self)@.flush_current().0,
            part_view(r) == old(self)@.flush_current().1,
            r matches Some(part) ==> holds_buffered(part.bytes@, old(self)@),
            r matches Some(part) ==> opens_truly(part@, old(self)@),
            makes_part(old(self)@) ==> r is Some,
            makes_nothing(old(self)@) ==> r is None,
            final(self).ready(),
    {
        self.flush_current()
    }

    fn commit(&mut self, part: PendingPart, outcome: StoreOutcome)
        ensures
            final(self)@ == old(self)@.commit(part@, outcome),
            final(self).resume == old(self).resume,
    {
        match outcome {
            StoreOutcome::Stored => {
                if part.init.is_some() {
                    self.last_init_signature = Some(part.signature);
                    self.force_next_init = false;
                }
                self.published_parts = wrapping_add_u64(self.published_parts, 1);
                self.seg_seq = self.seg_seq.wrapping_add(1);
            },
            _ => {},
        }
    }

    /// The configuration that a sample's parameter sets amount to, with those known before.
    pub fn parse_h264_config(&self, access_unit: &AccessUnit) -> (r: Option<TrackConfig>)
        ensures
            config_view(r) == self@.offered_config(access_unit@.data),
    {
        let ghost known = match self.config@.avcc {
            Some(avcc) => (Some(avcc.sequence_parameter_set), Some(avcc.picture_parameter_set)),
            None => (None, None),
        };
        let mut candidate_sps: Option<Vec<u8>> = match &self.config.avcc {
            Some(avcc) => Some(copy_bytes(avcc.sequence_parameter_set.as_slice())),
            None => None,
        };
        let mut candidate_pps: Option<Vec<u8>> = match &self.config.avcc {
            Some(avcc) => Some(copy_bytes(avcc.picture_parameter_set.as_slice())),
            None => None,
        };
        let mut found = false;
        let mut data: &[u8] = access_unit.data.as_slice();
        let ghost whole = data@;
        let ghost mut seen: Seq<Seq<u8>> = Seq::empty();
        loop
            invariant
                whole == access_unit@.data,
                sample_units(whole) == (match sample_units(data@) {
                    Ok(rest) => Ok::<Seq<Seq<u8>>, H264SampleError>(seen + rest),
                    Err(error) => Err(error),
                }),
                (optional_view(candidate_sps), optional_view(candidate_pps)) == last_parameter_sets(
                    seen,
                    known,
                ),
                found == holds_parameter_set(seen),
            ensures
                data@.len() == 0,
            decreases data@.len(),
        {
            let ghost before = data@;
            match next_h264_length_prefixed_nalu(&mut data) {
                Err(error) => {
                    return None;
                },
                Ok(None) => {
                    break ;
                },
                Ok(Some(nalu)) => {
                    let ghost more = seen.push(nalu@);
                    proof {
                        assert(before.len() >= 4);
                        let tail = sample_units(data@);
                        if tail is Ok {
                            assert(seen + (seq![nalu@] + tail->Ok_0) =~= more + tail->Ok_0);
                        }
                        assert(more.drop_last() =~= seen);
                        if is_parameter_set(nalu@) {
                            assert(is_parameter_set(more[seen.len() as int]));
                        }
                        if holds_parameter_set(seen) {
                            let k = choose|k: int|
                                0 <= k < seen.len() && is_parameter_set(#[trigger] seen[k]);
                            assert(is_parameter_set(more[k]));
                        }
                        if holds_parameter_set(more) && !is_parameter_set(nalu@) {
                            let k = choose|k: int|
                                0 <= k < more.len() && is_parameter_set(#[trigger] more[k]);
                            assert(is_parameter_set(seen[k]));
                        }
                        seen = more;
                    }
                    if nalu.len() > 0 {
                        let nalu_type: u8 = nalu[0] & NAL_UNIT_TYPE_MASK;
                        if nalu_type == NAL_UNIT_TYPE_SEQUENCE_PARAMETER_SET {
                            candidate_sps = Some(copy_bytes(nalu));
                            found = true;
                        } else if nalu_type == NAL_UNIT_TYPE_PICTURE_PARAMETER_SET {
                            candidate_pps = Some(copy_bytes(nalu));
                            found = true;
                        }
                    }
                },
            }
        }
        assert(seen + Seq::empty() =~= seen);
        if !found {
            return None;
        }
        match (candidate_sps, candidate_pps) {
            (Some(sps), Some(pps)) => match decode_h264_sps(sps.as_slice()) {
                Ok(decoded) => Some(
                    TrackConfig {
                        width: decoded.width,
                        height: decoded.height,
                        avcc: Some(
                            AvcConfig {
                                profile_idc: decoded.profile_idc,
                                constraint_set_flag: decoded.constraint_set_flag,
                                level_idc: decoded.level_idc,
                                sequence_parameter_set: sps,
                                picture_parameter_set: pps,
                            },
                        ),
                    },
                ),
                Err(_) => None,
            },
            _ => None,
        }
    }

    /// Puts a video configuration in force.
    pub fn install_h264_config(&mut self, config: TrackConfig)
        ensures
            final(self)@ == old(self)@.installed(config@),
            final(self).resume == old(self).resume,
    {
        self.config = config;
        self.force_next_init = true;
        self.started_video = false;
        self.warned_no_config = false;
    }

    fn continue_video(&mut self, unit: AccessUnit, fresh_config: bool) -> (r: Option<PendingPart>)
        requires
            old(self).ready(),
        ensures
            final(self).took(old(self)@.continue_video(unit@, fresh_config)),
            part_view(r) == old(self)@.continue_video(unit@, fresh_config).part,
            r matches Some(part) ==> holds_buffered(part.bytes@, old(self)@),
            r matches Some(part) ==> opens_truly(part@, old(self)@),
    {
        let mut access_unit = unit;
        match strip_h264_parameter_sets(&mut access_unit) {
            Ok(true) => {},
            Ok(false) => {
                return None;
            },
            Err(_) => {
                return None;
            },
        }
        if self.config.avcc.is_none() {
            self.append_video(access_unit);
            self.drop_pending_without_config_if_needed();
            return None;
        }
        if fresh_config && !access_unit.key {
            return None;
        }
        if self.flush_reason_before(&access_unit).is_some() {
            let part = self.flush_with_next_dts(access_unit.dts);
            if part.is_some() {
                self.resume = Resume::AppendVideo(access_unit);
                return part;
            }
        }
        self.append_video(access_unit);
        self.started_video = true;
        None
    }

    /// Takes a video unit on the output's clock, and hands out the part that ends before it, if one
    /// does.
    pub fn push_video(&mut self, access_unit: AccessUnit) -> (r: Option<PendingPart>)
        requires
            old(self).ready(),
        ensures
            final(self).took(old(self)@.push_video(access_unit@)),
            part_view(r) == old(self)@.push_video(access_unit@).part,
            r matches Some(part) ==> holds_buffered(part.bytes@, old(self)@),
            r matches Some(part) ==> opens_truly(part@, old(self)@),
    {
        match self.parse_h264_config(&access_unit) {
            None => self.continue_video(access_unit, false),
            Some(config) => {
                if config.same_signature(&self.config) {
                    return self.continue_video(access_unit, false);
                }
                if self.config.avcc.is_some() {
                    if !access_unit.key {
                        if config.width == self.config.width && config.height
                            == self.config.height {
                            return self.continue_video(access_unit, false);
                        }
                        return None;
                    }
                    let part = self.flush_current();
                    if part.is_some() {
                        self.resume = Resume::Reconfigure(access_unit, config);
                        return part;
                    }
                }
                self.clear_pending_media();
                self.install_h264_config(config);
                self.continue_video(access_unit, true)
            },
        }
    }

    fn buffered_pcm_ms(&self) -> (r: u64)
        ensures
            r == self@.pcm_ms(),
    {
        let pcm = match self.pcm {
            Some(pcm) => pcm,
            None => {
                return 0;
            },
        };
        let sample_bytes: u64 = (pcm.sample_size / 8) as u64;
        assert((pcm.sample_size / 8) * pcm.channel_count <= 31 * 65535) by (nonlinear_arith)
            requires
                pcm.sample_size / 8 <= 31,
                pcm.channel_count <= 65535,
        ;
        let frame_bytes: u64 = sample_bytes * pcm.channel_count as u64;
        if pcm.sample_rate == 0 || frame_bytes == 0 {
            return 0;
        }
        let mut total: u64 = 0;
        let mut i: usize = 0;
        let ghost units = self@.audio;
        while i < self.audio_buf.len()
            invariant
                i <= self.audio_buf@.len(),
                units == units_view(self.audio_buf@),
                total == audio_bytes(units.take(i as int)),
            decreases self.audio_buf@.len() - i,
        {
            assert(units.take(i + 1).drop_last() =~= units.take(i as int));
            assert(units[i as int] == self.audio_buf@[i as int]@);
            total = total.saturating_add(self.audio_buf[i].data.len() as u64);
            i = i + 1;
        }
        assert(units.take(i as int) =~= units);
        match samples_to_millis(total / frame_bytes, pcm.sample_rate) {
            Ok(ms) => ms,
            Err(_) => 0,
        }
    }

    fn push_audio(&mut self, access_unit: AccessUnit) -> (r: Option<PendingPart>)
        requires
            old(self).ready(),
        ensures
            final(self).took(old(self)@.push_audio(access_unit@)),
            part_view(r) == old(self)@.push_audio(access_unit@).part,
            r matches Some(part) ==> holds_buffered(
                part.bytes@,
                if old(self)@.ends_eagerly() {
                    old(self)@.with_audio(access_unit@)
                } else {
                    old(self)@
                },
            ),
            r matches Some(part) ==> opens_truly(part@, old(self)@),
    {
        if self.seen_video && (self.config.avcc.is_none() || !self.started_video) {
            self.append_audio(access_unit);
            self.drop_pending_without_config_if_needed();
            return None;
        }
        if self.eager && self.pcm.is_some() && self.video_buf.len() == 0 {
            self.append_audio(access_unit);
            if self.buffered_pcm_ms() >= ticks_to_ms(self.min_part_ticks) {
                return self.flush_with_next_dts(0);
            }
            return None;
        }
        if self.video_buf.len() == 0 && self.should_flush_audio_only_before(&access_unit) {
            let part = self.flush_with_next_dts(0);
            if part.is_some() {
                self.resume = Resume::AppendAudio(access_unit);
                return part;
            }
        }
        self.append_audio(access_unit);
        None
    }

    fn accept(&mut self, unit: AccessUnit) -> (r: Option<PendingPart>)
        requires
            old(self).ready(),
        ensures
            final(self).took(old(self)@.accept(unit@)),
            part_view(r) == old(self)@.accept(unit@).part,
            r matches Some(part) ==> holds_buffered(part.bytes@, old(self)@.leaving(unit@)),
            r matches Some(part) ==> opens_truly(part@, old(self)@.leaving(unit@)),
    {
        let mut access_unit = unit;
        self.normalize_timestamps(&mut access_unit);
        if is_h264(access_unit.stream_type) {
            self.push_video(access_unit)
        } else {
            self.push_audio(access_unit)
        }
    }

    fn enter(&mut self, access_unit: AccessUnit) -> (r: Option<PendingPart>)
        requires
            old(self).ready(),
        ensures
            final(self).took(old(self)@.enter(access_unit@)),
            part_view(r) == old(self)@.enter(access_unit@).part,
            r matches Some(part) ==> holds_buffered(part.bytes@, old(self)@.leaving(access_unit@)),
            r matches Some(part) ==> opens_truly(part@, old(self)@.leaving(access_unit@)),
    {
        proof {
            reveal(SegmenterView::enter);
        }
        if self.timestamp_went_backwards(&access_unit) {
            let part = self.flush_current();
            if part.is_some() {
                self.resume = Resume::Restart(access_unit);
                return part;
            }
            self.reset();
        }
        self.accept(access_unit)
    }

    /// Takes an access unit, and hands out the part that ends with or before it, if one does.
    ///
    /// Units of other stream types, video that cannot be framed and media that cannot be decoded
    /// are dropped. A video unit that goes back before the first one makes the packager start over.
    #[verifier::spinoff_prover]
    pub fn push_access_unit(&mut self, unit: AccessUnit) -> (r: Option<PendingPart>)
        requires
            old(self).ready(),
        ensures
            final(self).took(old(self)@.push(unit@)),
            part_view(r) == old(self)@.push(unit@).part,
            r matches Some(part) ==> holds_buffered(part.bytes@, old(self)@.leaving(unit@)),
            r matches Some(part) ==> opens_truly(part@, old(self)@.leaving(unit@)),
            r is None ==> final(self).ready(),
            final(self).wf(),
    {
        let mut access_unit = unit;
        proof {
            push_is_orderly(self@, unit@);
            reveal(SegmenterView::push);
        }
        if is_h264(access_unit.stream_type) {
            self.seen_video = true;
            if !ensure_h264_length_prefixed(&mut access_unit) {
                return None;
            }
        } else if !is_supported_audio(access_unit.stream_type) {
            return None;
        }
        self.enter(access_unit)
    }

    /// Takes how storing a part went, and does with the unit that ended the part what remained.
    pub fn complete(&mut self, part: PendingPart, outcome: StoreOutcome)
        requires
            old(self).wf(),
        ensures
            final(self)@ == old(self)@.commit(part@, outcome).resumed(old(self).resume@),
            final(self).ready(),
    {
        let mut resume = Resume::Idle;
        core::mem::swap(&mut self.resume, &mut resume);
        self.commit(part, outcome);
        match resume {
            Resume::Idle => {},
            Resume::Restart(unit) => {
                self.reset();
                proof {
                    first_unit_ends_no_part(self@, unit@);
                }
                let _ = self.accept(unit);
            },
            Resume::Reconfigure(unit, config) => {
                self.clear_pending_media();
                self.install_h264_config(config);
                proof {
                    empty_buffer_ends_no_part(self@, unit@, true);
                }
                let _ = self.continue_video(unit, true);
            },
            Resume::AppendVideo(unit) => {
                self.append_video(unit);
                self.started_video = true;
            },
            Resume::AppendAudio(unit) => {
                self.append_audio(unit);
            },
        }
    }
}

/// Whether a part says truly whether decoding can start with it, which it can without pictures or with
/// a key picture among them, and carries an initialisation only where one was asked for.
pub open spec fn opens_truly(part: PendingPartView, state: SegmenterView) -> bool {
    &&& part.keyframe == (state.config.avcc is None || state.video.len() == 0 || exists|i: int|
        0 <= i < state.video.len() && (#[trigger] state.video[i]).key)
    &&& part.init is Some && state.video.len() > 0 ==> state.force_next_init
        || state.last_init_signature != Some(state.init_signature())
}

/// Whether what remains is a fresh start only where a video unit asked for it.
pub open spec fn restarts_on_video(resume: ResumeView) -> bool {
    resume matches ResumeView::Restart(unit) ==> unit.stream_type == STREAM_TYPE_H264
}

/// Whether something remains to be done only behind a part that was handed out.
pub open spec fn orderly(step: Step) -> bool {
    &&& step.part is None ==> step.resume == ResumeView::Idle
    &&& restarts_on_video(step.resume)
}

proof fn continue_is_orderly(state: SegmenterView, unit: AccessUnitView, fresh: bool)
    ensures
        orderly(state.continue_video(unit, fresh)),
{
}

proof fn push_video_is_orderly(state: SegmenterView, unit: AccessUnitView)
    ensures
        orderly(state.push_video(unit)),
{
    continue_is_orderly(state, unit, false);
    match state.offered_config(unit.data) {
        None => {},
        Some(config) => {
            continue_is_orderly(state.cleared().installed(config), unit, true);
            continue_is_orderly(state.flush_current().0.cleared().installed(config), unit, true);
        },
    }
}

proof fn accept_is_orderly(state: SegmenterView, unit: AccessUnitView)
    ensures
        orderly(state.accept(unit)),
{
    let based = SegmenterView { timestamp_base_input: state.base_with(unit), ..state };
    push_video_is_orderly(based, state.normalized(unit));
}

proof fn enter_is_orderly(state: SegmenterView, unit: AccessUnitView)
    ensures
        orderly(state.enter(unit)),
{
    reveal(SegmenterView::enter);
    accept_is_orderly(state, unit);
    accept_is_orderly(state.flush_current().0.fresh(), unit);
}

/// Pushing a unit leaves work for later only behind a part, and starts over only for video.
pub proof fn push_is_orderly(state: SegmenterView, unit: AccessUnitView)
    ensures
        orderly(state.push(unit)),
{
    reveal(SegmenterView::push);
    if unit.stream_type == STREAM_TYPE_H264 {
        let seen = SegmenterView { seen_video: true, ..state };
        match length_prefixed(unit) {
            Some(framed) => enter_is_orderly(seen, framed),
            None => {},
        }
    } else {
        enter_is_orderly(state, unit);
    }
}

/// No part ends before a video unit that finds no video buffered.
pub proof fn empty_buffer_ends_no_part(state: SegmenterView, unit: AccessUnitView, fresh: bool)
    requires
        state.video.len() == 0,
    ensures
        state.continue_video(unit, fresh).part is None,
        state.continue_video(unit, fresh).resume == ResumeView::Idle,
{
}

/// The first video unit after a fresh start ends no part.
pub proof fn first_unit_ends_no_part(state: SegmenterView, unit: AccessUnitView)
    requires
        state == state.fresh(),
        unit.stream_type == STREAM_TYPE_H264,
    ensures
        state.accept(unit).part is None,
        state.accept(unit).resume == ResumeView::Idle,
{
}

/// What a configuration that may be missing holds.
pub open spec fn config_view(config: Option<TrackConfig>) -> Option<TrackConfigView> {
    match config {
        Some(config) => Some(config@),
        None => None,
    }
}

} // verus!
