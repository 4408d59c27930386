//! The reader of a rendition: what it asks for, and what it learns of the parts that come.
use crate::arith::{cap_u64, minus_floor, saturating_mul_u64, wrapped_u64, wrapping_add_u64};
use crate::fmp4_bridge::boxes::samples_from;
use crate::probe::coverage::{
    count_runs, count_set, part_at, set_is_bounded, words_for, CoverageError, PartCoverage,
};
use crate::probe::format::{
    describes, detect_init_audio_codec, expected_pcm_part_bytes, fmp4_mdat_payload, init_codec,
    media_part_pts_ms, part_bytes, part_start, pcm_init_parameters_match, playlist_fits,
    playlist_matches_format, HlsAudioCodec, HlsTransport, PartStartError,
};
use crate::probe::http::{
    cache_split, find_header, header_value, hls_path, http_headers, split_cache_latency_ns,
    HttpHeader,
};
use crate::probe::latency::{BoundedLatencySamples, SamplesView};
use crate::probe::opus::{opus_part_fits, soundkit_opus_part_is_valid};
use crate::probe::receive::one_more;
use crate::probe::window::{hls_window_end_ms, window_of, WindowError};
use crate::text::{append_decimal, characters, decimal, parse_number, read_number};
use vstd::prelude::*;
use vstd::string::*;

verus! {

/// Parts that a reader asks for ahead.
pub const H3_PART_PIPELINE_DEPTH: usize = 8;

/// The most readers at a time.
pub const MAX_READERS: usize = 4_096;

/// The most errors that are reported of readers.
pub const MAX_REPORTED_ERRORS: usize = 20;

/// What a reader looks at.
#[derive(Debug, Clone, Copy, PartialEq, Eq, Structural)]
pub struct ReaderSettings {
    pub transport: HlsTransport,
    pub stream_id: u64,
    pub session_id: u64,
    pub duration_seconds: u64,
    pub part_ms: u64,
    pub deadline_ms: u64,
    pub render_buffer_ms: u64,
    pub start_offset_ms: u64,
    pub window_seconds: Option<u64>,
    pub expected_audio_codec: HlsAudioCodec,
    pub expected_pcm_channels: u16,
    /// Whether there is a key to decode with.
    pub has_key: bool,
    /// Whether something is to be made of what is decoded.
    pub has_outputs: bool,
}

/// Why a reader does not go on.
#[derive(Debug, Clone, Copy, PartialEq, Eq, Structural)]
pub enum ReaderError {
    PathPrefix,
    Window(WindowError),
    PcmChannels,
    Coverage(CoverageError),
    KeyNeedsOpus,
    OutputsNeedKey,
    NoSequence,
    BadSequence,
    Start(PartStartError),
    WrongStart { sequence: u64, pts_ms: u64, expected_pts_ms: u64 },
    Status(u16),
}

impl ReaderError {
    /// What the error says.
    pub open spec fn words(self) -> Seq<char> {
        match self {
            ReaderError::PathPrefix =>
                "--path-prefix must be empty or start with one slash and have no trailing slash"@,
            ReaderError::Window(error) => error.words(),
            ReaderError::PcmChannels =>
                "--expected-pcm-channels must be positive for PCM LL-HLS"@,
            ReaderError::Coverage(error) => error.words(),
            ReaderError::KeyNeedsOpus =>
                "--soundkit-key-file requires --expected-audio-codec soundkit-opus"@,
            ReaderError::OutputsNeedKey =>
                "consumer decode outputs require --soundkit-key-file"@,
            ReaderError::NoSequence => "LL-HLS tail response omitted x-sequence"@,
            ReaderError::BadSequence => "LL-HLS tail returned an invalid x-sequence"@,
            ReaderError::Start(error) => error.words(),
            ReaderError::WrongStart { sequence, pts_ms, expected_pts_ms } =>
                "pipelined LL-HLS part "@ + decimal(sequence as nat) + " carried PTS "@ + decimal(
                pts_ms as nat,
            ) + " ms, expected "@ + decimal(expected_pts_ms as nat) + " ms"@,
            ReaderError::Status(status) => "LL-HLS tail returned HTTP "@ + decimal(status as nat),
        }
    }

    /// What the error says.
    pub fn message(self) -> (r: String)
        ensures
            r@ == self.words(),
    {
        match self {
            ReaderError::PathPrefix =>
                "--path-prefix must be empty or start with one slash and have no trailing slash".to_owned(),
            ReaderError::Window(error) => error.message().to_owned(),
            ReaderError::PcmChannels =>
                "--expected-pcm-channels must be positive for PCM LL-HLS".to_owned(),
            ReaderError::Coverage(error) => error.message().to_owned(),
            ReaderError::KeyNeedsOpus =>
                "--soundkit-key-file requires --expected-audio-codec soundkit-opus".to_owned(),
            ReaderError::OutputsNeedKey =>
                "consumer decode outputs require --soundkit-key-file".to_owned(),
            ReaderError::NoSequence => "LL-HLS tail response omitted x-sequence".to_owned(),
            ReaderError::BadSequence => "LL-HLS tail returned an invalid x-sequence".to_owned(),
            ReaderError::Start(error) => error.message().to_owned(),
            ReaderError::WrongStart { sequence, pts_ms, expected_pts_ms } => {
                let mut text = "pipelined LL-HLS part ".to_owned();
                append_decimal(&mut text, sequence);
                text.append(" carried PTS ");
                append_decimal(&mut text, pts_ms);
                text.append(" ms, expected ");
                append_decimal(&mut text, expected_pts_ms);
                text.append(" ms");
                text
            },
            ReaderError::Status(status) => {
                let mut text = "LL-HLS tail returned HTTP ".to_owned();
                append_decimal(&mut text, status as u64);
                text
            },
        }
    }
}

/// Whether a path can stand in front of a stream's number.
pub open spec fn prefix_fits(prefix: Seq<char>) -> bool {
    prefix.len() == 0 || (prefix[0] == '/' && prefix.last() != '/')
}

/// Whether a codec is samples as they are.
pub open spec fn is_pcm(codec: HlsAudioCodec) -> bool {
    codec == HlsAudioCodec::Ipcm || codec == HlsAudioCodec::Fpcm
}

/// Why a reader cannot look at what it is to look at, or when its window ends.
pub open spec fn settings_end(settings: ReaderSettings, prefix: Seq<char>) -> Result<u64, ReaderError> {
    let window = window_of(
        settings.duration_seconds,
        settings.start_offset_ms,
        settings.window_seconds,
        settings.part_ms,
    );
    if settings.part_ms == 0 {
        Err(ReaderError::Window(WindowError::NoPartLength))
    } else if !prefix_fits(prefix) {
        Err(ReaderError::PathPrefix)
    } else {
        match window {
            Err(error) => Err(ReaderError::Window(error)),
            Ok(end) => if is_pcm(settings.expected_audio_codec) && settings.expected_pcm_channels
                == 0 {
                Err(ReaderError::PcmChannels)
            } else {
                Ok(end)
            },
        }
    }
}

/// Why a reader cannot decode what it is to decode.
pub open spec fn decode_refusal(settings: ReaderSettings) -> Option<ReaderError> {
    if settings.has_key && settings.expected_audio_codec != HlsAudioCodec::SoundkitOpus {
        Some(ReaderError::KeyNeedsOpus)
    } else if !settings.has_key && settings.has_outputs {
        Some(ReaderError::OutputsNeedKey)
    } else {
        None
    }
}

/// Finds why a reader cannot decode what it is to decode.
pub fn refuse_decode(settings: ReaderSettings) -> (r: Option<ReaderError>)
    ensures
        r == decode_refusal(settings),
{
    if settings.has_key && settings.expected_audio_codec != HlsAudioCodec::SoundkitOpus {
        Some(ReaderError::KeyNeedsOpus)
    } else if !settings.has_key && settings.has_outputs {
        Some(ReaderError::OutputsNeedKey)
    } else {
        None
    }
}

/// Finds when a reader's window ends, or why it cannot look at it.
pub fn validate_settings(settings: ReaderSettings, path_prefix: &str) -> (r: Result<
    u64,
    ReaderError,
>)
    ensures
        r == settings_end(settings, path_prefix@),
{
    if settings.part_ms == 0 {
        return Err(ReaderError::Window(WindowError::NoPartLength));
    }
    let prefix = characters(path_prefix);
    if prefix.len() > 0 && (prefix[0] != '/' || prefix[prefix.len() - 1] == '/') {
        return Err(ReaderError::PathPrefix);
    }
    let end_offset_ms: u64 = match hls_window_end_ms(
        settings.duration_seconds,
        settings.start_offset_ms,
        settings.window_seconds,
        settings.part_ms,
    ) {
        Ok(end) => end,
        Err(error) => {
            return Err(ReaderError::Window(error));
        },
    };
    let codec = settings.expected_audio_codec;
    if (codec == HlsAudioCodec::Ipcm || codec == HlsAudioCodec::Fpcm)
        && settings.expected_pcm_channels == 0 {
        return Err(ReaderError::PcmChannels);
    }
    Ok(end_offset_ms)
}

/// What a reader counts.
#[derive(Debug, Clone, Copy, PartialEq, Eq, Structural)]
pub struct ReaderCounts {
    pub deadline_misses: u64,
    pub wire_bytes: u64,
    pub init_audio_codec: Option<HlsAudioCodec>,
    pub init_audio_codec_verified: bool,
    pub pcm_media_parts_verified: u64,
    pub pcm_media_size_mismatches: u64,
    pub opus_media_parts_verified: u64,
    pub opus_media_packet_mismatches: u64,
    pub playlist_has_ll_hls_tags: bool,
}

/// A reader that has counted nothing.
pub open spec fn no_counts() -> ReaderCounts {
    ReaderCounts {
        deadline_misses: 0,
        wire_bytes: 0,
        init_audio_codec: None,
        init_audio_codec_verified: false,
        pcm_media_parts_verified: 0,
        pcm_media_size_mismatches: 0,
        opus_media_parts_verified: 0,
        opus_media_packet_mismatches: 0,
        playlist_has_ll_hls_tags: false,
    }
}

/// The reader of a rendition.
#[derive(Debug)]
pub struct HlsReader {
    pub settings: ReaderSettings,
    pub path_prefix: String,
    pub end_offset_ms: u64,
    pub coverage: PartCoverage,
    pub availability: BoundedLatencySamples,
    pub publication_to_cache: BoundedLatencySamples,
    pub cache_to_client: BoundedLatencySamples,
    pub render: BoundedLatencySamples,
    pub counts: ReaderCounts,
    /// The last part that came, where parts come one behind the other.
    pub after_sequence: Option<u64>,
    /// The next part to ask for, where parts are asked for ahead.
    pub next_sequence: u64,
}

/// What a [`HlsReader`] holds.
pub struct ReaderView {
    pub settings: ReaderSettings,
    pub path_prefix: Seq<char>,
    pub end_offset_ms: u64,
    /// Which parts of the window came.
    pub marks: Seq<bool>,
    pub availability: SamplesView,
    pub publication_to_cache: SamplesView,
    pub cache_to_client: SamplesView,
    pub render: SamplesView,
    pub counts: ReaderCounts,
    pub after_sequence: Option<u64>,
    pub next_sequence: u64,
}

impl View for HlsReader {
    type V = ReaderView;

    open spec fn view(&self) -> ReaderView {
        ReaderView {
            settings: self.settings,
            path_prefix: self.path_prefix@,
            end_offset_ms: self.end_offset_ms,
            marks: self.coverage@,
            availability: self.availability@,
            publication_to_cache: self.publication_to_cache@,
            cache_to_client: self.cache_to_client@,
            render: self.render@,
            counts: self.counts,
            after_sequence: self.after_sequence,
            next_sequence: self.next_sequence,
        }
    }
}

/// Nothing sampled.
pub open spec fn no_samples() -> SamplesView {
    SamplesView { observations: 0, values_ns: Seq::empty() }
}

/// The first part of a window.
pub open spec fn first_part(settings: ReaderSettings) -> u64 {
    settings.start_offset_ms / settings.part_ms
}

/// Parts of a window.
pub open spec fn window_parts(settings: ReaderSettings, end_offset_ms: u64) -> u64 {
    (minus_floor(end_offset_ms as int, settings.start_offset_ms as int) / settings.part_ms as int) as u64
}

/// What kind of answer a status is.
#[derive(Debug, Clone, Copy, PartialEq, Eq, Structural)]
pub enum AnswerKind {
    /// The part.
    Part,
    /// It is not there yet.
    NotYet,
    /// Something else.
    Other,
}

/// Tells what kind of answer a status is.
pub fn answer_kind(status: u16) -> (r: AnswerKind)
    ensures
        r == (if status == 200 {
            AnswerKind::Part
        } else if status == 204 || status == 404 {
            AnswerKind::NotYet
        } else {
            AnswerKind::Other
        }),
{
    if status == 200 {
        AnswerKind::Part
    } else if status == 204 || status == 404 {
        AnswerKind::NotYet
    } else {
        AnswerKind::Other
    }
}

impl ReaderView {
    /// The reader once a part of its window came for the first time, that started at a time.
    pub open spec fn with_part(
        self,
        pts_ms: u64,
        body: Seq<u8>,
        headers: Seq<(Seq<char>, Seq<char>)>,
        arrival_ns: u64,
    ) -> ReaderView {
        let s = self.settings;
        let codec = s.expected_audio_codec;
        let capture_ns = cap_u64(s.session_id + cap_u64(pts_ms * 1_000_000)) as u64;
        let latency = minus_floor(arrival_ns as int, capture_ns as int) as u64;
        let late = latency > cap_u64(s.deadline_ms * 1_000_000);
        let expected = part_bytes(codec, s.expected_pcm_channels, s.part_ms);
        let whole = samples_from(body, 0) matches Some(payload) && expected
            == Some(payload.len() as u64);
        let opus = codec == HlsAudioCodec::SoundkitOpus;
        let fits = opus_part_fits(body, s.part_ms);
        let split = cache_split(
            header_value(headers, "x-needletail-cache-available-unix-us"@),
            capture_ns,
            arrival_ns,
        );
        ReaderView {
            availability: self.availability.with(latency),
            publication_to_cache: match split {
                Some((to_cache, _)) => self.publication_to_cache.with(to_cache),
                None => self.publication_to_cache,
            },
            cache_to_client: match split {
                Some((_, to_client)) => self.cache_to_client.with(to_client),
                None => self.cache_to_client,
            },
            render: self.render.with(
                cap_u64(latency + cap_u64(s.render_buffer_ms * 1_000_000)) as u64,
            ),
            counts: ReaderCounts {
                deadline_misses: if late {
                    one_more(self.counts.deadline_misses)
                } else {
                    self.counts.deadline_misses
                },
                pcm_media_parts_verified: if expected is Some && whole {
                    one_more(self.counts.pcm_media_parts_verified)
                } else {
                    self.counts.pcm_media_parts_verified
                },
                pcm_media_size_mismatches: if expected is Some && !whole {
                    one_more(self.counts.pcm_media_size_mismatches)
                } else {
                    self.counts.pcm_media_size_mismatches
                },
                opus_media_parts_verified: if opus && fits {
                    one_more(self.counts.opus_media_parts_verified)
                } else {
                    self.counts.opus_media_parts_verified
                },
                opus_media_packet_mismatches: if opus && !fits {
                    one_more(self.counts.opus_media_packet_mismatches)
                } else {
                    self.counts.opus_media_packet_mismatches
                },
                init_audio_codec_verified: self.counts.init_audio_codec_verified || (opus && fits),
                ..self.counts
            },
            ..self
        }
    }

    /// Whether a part is one of the window that did not come before.
    pub open spec fn is_new_part(self, pts_ms: u64, arrival_ns: u64) -> bool {
        let s = self.settings;
        &&& arrival_ns >= s.session_id
        &&& s.start_offset_ms <= pts_ms < self.end_offset_ms
        &&& part_at(first_part(s), self.marks.len() as u64, s.part_ms, pts_ms) matches Some(relative)
        &&& !self.marks[relative]
    }

    /// The reader once a part came.
    pub open spec fn with_body(
        self,
        pts_ms: u64,
        body: Seq<u8>,
        headers: Seq<(Seq<char>, Seq<char>)>,
        arrival_ns: u64,
    ) -> ReaderView {
        if self.is_new_part(pts_ms, arrival_ns) {
            let relative = pts_ms / self.settings.part_ms - first_part(self.settings);
            ReaderView {
                marks: self.marks.update(relative, true),
                ..self.with_part(pts_ms, body, headers, arrival_ns)
            }
        } else {
            self
        }
    }

    /// The part that is asked for next, where parts are asked for one behind the other.
    pub open spec fn requested(self) -> u64 {
        cap_u64(
            (match self.after_sequence {
                Some(sequence) => sequence,
                None => first_part(self.settings),
            }) + 1,
        ) as u64
    }

    /// Where it is asked for.
    pub open spec fn request_path(self) -> Seq<char> {
        let base = self.path_prefix + "/"@ + decimal(self.settings.stream_id as nat) + "/"@;
        if self.path_prefix.len() == 0 {
            base + ("p"@ + decimal(self.requested() as nat) + "."@
                + self.settings.expected_audio_codec.extension())
        } else {
            match self.after_sequence {
                None => base + ("tail?from="@ + decimal(first_part(self.settings) as nat)),
                Some(sequence) => base + ("tail?after="@ + decimal(sequence as nat)),
            }
        }
    }
}

/// What a reader holds that has read nothing, of a window whose parts are so marked.
pub open spec fn fresh_reader(
    settings: ReaderSettings,
    path_prefix: Seq<char>,
    end_offset_ms: u64,
    marks: Seq<bool>,
) -> ReaderView {
    ReaderView {
        settings,
        path_prefix,
        end_offset_ms,
        marks,
        availability: no_samples(),
        publication_to_cache: no_samples(),
        cache_to_client: no_samples(),
        render: no_samples(),
        counts: no_counts(),
        after_sequence: None,
        next_sequence: first_part(settings),
    }
}

impl HlsReader {
    /// Whether the reader's parts are those of its window, and its samples within their bounds.
    pub open spec fn wf(&self) -> bool {
        &&& self.settings.part_ms > 0
        &&& self.coverage.wf()
        &&& self.coverage.part_ms == self.settings.part_ms
        &&& self.coverage.start_sequence == first_part(self.settings)
        &&& self.availability@.wf()
        &&& self.publication_to_cache@.wf()
        &&& self.cache_to_client@.wf()
        &&& self.render@.wf()
    }

    /// A reader that has read nothing, given the coverage of its window; or why it cannot decode
    /// what it is to decode.
    pub fn with_coverage(
        settings: ReaderSettings,
        path_prefix: &str,
        end_offset_ms: u64,
        coverage: PartCoverage,
    ) -> (r: Result<Self, ReaderError>)
        requires
            settings.part_ms > 0,
            coverage.wf(),
            coverage.part_ms == settings.part_ms,
            coverage.start_sequence == first_part(settings),
        ensures
            match decode_refusal(settings) {
                Some(error) => r matches Err(e) && e == error,
                None => {
                    &&& r matches Ok(reader)
                    &&& reader.wf()
                    &&& reader.coverage == coverage
                    &&& reader@ == fresh_reader(settings, path_prefix@, end_offset_ms, coverage@)
                },
            },
    {
        if let Some(error) = refuse_decode(settings) {
            return Err(error);
        }
        Ok(
            HlsReader {
                settings,
                path_prefix: path_prefix.to_owned(),
                end_offset_ms,
                coverage,
                availability: BoundedLatencySamples::new(),
                publication_to_cache: BoundedLatencySamples::new(),
                cache_to_client: BoundedLatencySamples::new(),
                render: BoundedLatencySamples::new(),
                counts: ReaderCounts {
                    deadline_misses: 0,
                    wire_bytes: 0,
                    init_audio_codec: None,
                    init_audio_codec_verified: false,
                    pcm_media_parts_verified: 0,
                    pcm_media_size_mismatches: 0,
                    opus_media_parts_verified: 0,
                    opus_media_packet_mismatches: 0,
                    playlist_has_ll_hls_tags: false,
                },
                after_sequence: None,
                next_sequence: settings.start_offset_ms / settings.part_ms,
            },
        )
    }

    /// A reader that has read nothing. It fails where what it is to look at cannot be, where there
    /// is no memory for the words of its window, or where it cannot decode what it is to decode.
    pub fn new(settings: ReaderSettings, path_prefix: &str) -> (r: Result<Self, ReaderError>)
        ensures
            match settings_end(settings, path_prefix@) {
                Err(error) => r matches Err(e) && e == error,
                Ok(end_offset_ms) => {
                    let parts = window_parts(settings, end_offset_ms);
                    if words_for(parts) > usize::MAX {
                        r matches Err(e) && e == ReaderError::Coverage(CoverageError::TooLong)
                    } else if (r matches Err(e) && e == ReaderError::Coverage(
                        CoverageError::NoMemory,
                    )) {
                        parts > 0
                    } else {
                        match decode_refusal(settings) {
                            Some(error) => r matches Err(e) && e == error,
                            None => {
                                &&& r matches Ok(reader)
                                &&& reader.wf()
                                &&& reader@ == fresh_reader(
                                    settings,
                                    path_prefix@,
                                    end_offset_ms,
                                    Seq::new(parts as nat, |i: int| false),
                                )
                            },
                        }
                    }
                },
            },
    {
        let end_offset_ms: u64 = match validate_settings(settings, path_prefix) {
            Ok(end) => end,
            Err(error) => {
                return Err(error);
            },
        };
        let first: u64 = settings.start_offset_ms / settings.part_ms;
        let parts: u64 = end_offset_ms.saturating_sub(settings.start_offset_ms) / settings.part_ms;
        let coverage = match PartCoverage::new(first, parts, settings.part_ms) {
            Ok(coverage) => coverage,
            Err(error) => {
                return Err(ReaderError::Coverage(error));
            },
        };
        HlsReader::with_coverage(settings, path_prefix, end_offset_ms, coverage)
    }

    /// The part that is asked for next, where parts are asked for one behind the other, and where.
    pub fn next_request(&self) -> (r: (u64, String))
        requires
            self.settings.part_ms > 0,
        ensures
            r.0 == self@.requested(),
            r.1@ == self@.request_path(),
    {
        let first: u64 = self.settings.start_offset_ms / self.settings.part_ms;
        let last: u64 = match self.after_sequence {
            Some(sequence) => sequence,
            None => first,
        };
        let requested: u64 = last.saturating_add(1);
        let prefix = characters(self.path_prefix.as_str());
        let suffix = if prefix.len() == 0 {
            let mut suffix = "p".to_owned();
            append_decimal(&mut suffix, requested);
            suffix.append(".");
            suffix.append(self.settings.expected_audio_codec.media_extension());
            suffix
        } else {
            match self.after_sequence {
                None => {
                    let mut suffix = "tail?from=".to_owned();
                    append_decimal(&mut suffix, first);
                    suffix
                },
                Some(sequence) => {
                    let mut suffix = "tail?after=".to_owned();
                    append_decimal(&mut suffix, sequence);
                    suffix
                },
            }
        };
        let path = hls_path(
            self.path_prefix.as_str(),
            self.settings.stream_id,
            suffix.as_str(),
        );
        assert(path@ =~= self@.request_path());
        (requested, path)
    }

    /// The number of the part that came: the one that was asked for, or the one that the answer
    /// names.
    pub fn answered_sequence(&self, requested: u64, headers: &Vec<HttpHeader>) -> (r: Result<
        u64,
        ReaderError,
    >)
        ensures
            r == (if self@.path_prefix.len() == 0 {
                Ok(requested)
            } else {
                match header_value(http_headers(headers@), "x-sequence"@) {
                    None => Err(ReaderError::NoSequence),
                    Some(text) => match read_number(text, 10, u64::MAX as nat) {
                        Ok(sequence) => Ok(sequence as u64),
                        Err(_) => Err(ReaderError::BadSequence),
                    },
                }
            }),
    {
        let prefix = characters(self.path_prefix.as_str());
        if prefix.len() == 0 {
            return Ok(requested);
        }
        match find_header(headers, "x-sequence") {
            None => Err(ReaderError::NoSequence),
            Some(text) => {
                let digits = characters(text);
                match parse_number(digits.as_slice(), 10, u64::MAX) {
                    Ok(sequence) => Ok(sequence),
                    Err(_) => Err(ReaderError::BadSequence),
                }
            },
        }
    }

    /// Counts bytes on the wire.
    pub fn count_wire(&mut self, wire_bytes: usize)
        requires
            old(self).wf(),
        ensures
            final(self).wf(),
            final(self)@ == (ReaderView {
                counts: ReaderCounts {
                    wire_bytes: cap_u64(old(self)@.counts.wire_bytes + wire_bytes) as u64,
                    ..old(self)@.counts
                },
                ..old(self)@
            }),
    {
        self.counts.wire_bytes = self.counts.wire_bytes.saturating_add(wire_bytes as u64);
    }

    /// Counts a part of the window that came for the first time.
    fn count_part(
        &mut self,
        pts_ms: u64,
        body: &[u8],
        headers: &Vec<HttpHeader>,
        arrival_ns: u64,
    )
        requires
            old(self).wf(),
        ensures
            final(self).wf(),
            final(self)@ == old(self)@.with_part(
                pts_ms,
                body@,
                http_headers(headers@),
                arrival_ns,
            ),
            final(self).coverage == old(self).coverage,
    {
        let s = self.settings;
        let codec = s.expected_audio_codec;
        let capture_ns: u64 = s.session_id.saturating_add(saturating_mul_u64(pts_ms, 1_000_000));
        let latency_ns: u64 = arrival_ns.saturating_sub(capture_ns);
        if latency_ns > saturating_mul_u64(s.deadline_ms, 1_000_000) {
            self.counts.deadline_misses = self.counts.deadline_misses.saturating_add(1);
        }
        self.availability.record(latency_ns);
        if let Some(expected) = expected_pcm_part_bytes(codec, s.expected_pcm_channels, s.part_ms) {
            let whole = match fmp4_mdat_payload(body) {
                Some(payload) => payload.len() as u64 == expected,
                None => false,
            };
            if whole {
                self.counts.pcm_media_parts_verified =
                self.counts.pcm_media_parts_verified.saturating_add(1);
            } else {
                self.counts.pcm_media_size_mismatches =
                self.counts.pcm_media_size_mismatches.saturating_add(1);
            }
        }
        if codec == HlsAudioCodec::SoundkitOpus {
            if soundkit_opus_part_is_valid(body, s.part_ms) {
                self.counts.opus_media_parts_verified =
                self.counts.opus_media_parts_verified.saturating_add(1);
                self.counts.init_audio_codec_verified = true;
            } else {
                self.counts.opus_media_packet_mismatches =
                self.counts.opus_media_packet_mismatches.saturating_add(1);
            }
        }
        if let Some((to_cache, to_client)) = split_cache_latency_ns(headers, capture_ns, arrival_ns) {
            self.publication_to_cache.record(to_cache);
            self.cache_to_client.record(to_client);
        }
        self.render.record(
            latency_ns.saturating_add(saturating_mul_u64(s.render_buffer_ms, 1_000_000)),
        );
    }

    /// Takes a part that came, and tells whether it is one of the window that did not come before.
    /// Where parts are asked for ahead, it has to start where its number says.
    pub fn take_part(
        &mut self,
        sequence: u64,
        ahead: bool,
        body: &[u8],
        headers: &Vec<HttpHeader>,
        arrival_ns: u64,
    ) -> (r: Result<bool, ReaderError>)
        requires
            old(self).wf(),
        ensures
            final(self).wf(),
            ({
                let s = old(self)@.settings;
                let asked = if ahead {
                    old(self)@
                } else {
                    ReaderView { after_sequence: Some(sequence), ..old(self)@ }
                };
                match part_start(s.expected_audio_codec, body@, sequence, s.part_ms) {
                    Err(error) => r == Err::<bool, ReaderError>(ReaderError::Start(error))
                        && final(self)@ == asked,
                    Ok(pts_ms) => {
                        let wanted = cap_u64(sequence * s.part_ms) as u64;
                        if ahead && pts_ms != wanted {
                            &&& r == Err::<bool, ReaderError>(
                                ReaderError::WrongStart {
                                    sequence,
                                    pts_ms,
                                    expected_pts_ms: wanted,
                                },
                            )
                            &&& final(self)@ == asked
                        } else {
                            &&& r == Ok::<bool, ReaderError>(asked.is_new_part(pts_ms, arrival_ns))
                            &&& final(self)@ == asked.with_body(
                                pts_ms,
                                body@,
                                http_headers(headers@),
                                arrival_ns,
                            )
                        }
                    },
                }
            }),
    {
        if !ahead {
            self.after_sequence = Some(sequence);
        }
        let ghost asked = self@;
        let part_ms: u64 = self.settings.part_ms;
        let pts_ms: u64 = match media_part_pts_ms(
            self.settings.expected_audio_codec,
            body,
            sequence,
            part_ms,
        ) {
            Ok(pts_ms) => pts_ms,
            Err(error) => {
                return Err(ReaderError::Start(error));
            },
        };
        if ahead {
            let expected_pts_ms: u64 = saturating_mul_u64(sequence, part_ms);
            if pts_ms != expected_pts_ms {
                return Err(ReaderError::WrongStart { sequence, pts_ms, expected_pts_ms });
            }
        }
        if arrival_ns < self.settings.session_id || pts_ms < self.settings.start_offset_ms || pts_ms
            >= self.end_offset_ms {
            return Ok(false);
        }
        if !self.coverage.insert_pts(pts_ms) {
            proof {
                match part_at(first_part(asked.settings), asked.marks.len() as u64, part_ms, pts_ms) {
                    Some(relative) => {
                        assert(asked.marks.update(relative, true) =~= asked.marks);
                    },
                    None => {},
                }
            }
            return Ok(false);
        }
        self.count_part(pts_ms, body, headers, arrival_ns);
        Ok(true)
    }

    /// Decides whether the initialization has to be asked for.
    pub fn wants_init(&self) -> (r: bool)
        ensures
            r == (self@.settings.expected_audio_codec != HlsAudioCodec::SoundkitOpus
                && self@.counts.init_audio_codec is None),
    {
        self.settings.expected_audio_codec != HlsAudioCodec::SoundkitOpus
            && self.counts.init_audio_codec.is_none()
    }

    /// Takes the answer to a question for the initialization.
    pub fn take_init(&mut self, status: u16, body: &[u8])
        requires
            old(self).wf(),
        ensures
            final(self).wf(),
            final(self)@ == (if status == 200 {
                let expected = old(self)@.settings.expected_audio_codec;
                let channels = old(self)@.settings.expected_pcm_channels;
                let found = init_codec(body@);
                ReaderView {
                    counts: ReaderCounts {
                        init_audio_codec: found,
                        init_audio_codec_verified: found == Some(expected) && (match expected {
                            HlsAudioCodec::Flac => true,
                            HlsAudioCodec::SoundkitOpus => false,
                            _ => describes(body@, expected, channels),
                        }),
                        ..old(self)@.counts
                    },
                    ..old(self)@
                }
            } else {
                old(self)@
            }),
    {
        if status != 200 {
            return;
        }
        let expected = self.settings.expected_audio_codec;
        let found = detect_init_audio_codec(body);
        let same = match found {
            Some(codec) => codec == expected,
            None => false,
        };
        self.counts.init_audio_codec = found;
        self.counts.init_audio_codec_verified = same && pcm_init_parameters_match(
            body,
            expected,
            self.settings.expected_pcm_channels,
        );
    }

    /// Takes the answer to a question for the playlist.
    pub fn take_playlist(&mut self, status: u16, body: &[u8])
        requires
            old(self).wf(),
        ensures
            final(self).wf(),
            final(self)@ == (if status == 200 {
                ReaderView {
                    counts: ReaderCounts {
                        playlist_has_ll_hls_tags: playlist_fits(
                            body@,
                            old(self)@.settings.expected_audio_codec,
                        ),
                        ..old(self)@.counts
                    },
                    ..old(self)@
                }
            } else {
                old(self)@
            }),
    {
        if status == 200 {
            self.counts.playlist_has_ll_hls_tags =
            playlist_matches_format(body, self.settings.expected_audio_codec);
        }
    }

    /// The part to ask for ahead: one that was not there yet, or the next of the window, if there is
    /// one.
    pub fn schedule(&mut self, retry: Option<u64>) -> (r: Option<u64>)
        requires
            old(self).wf(),
        ensures
            final(self).wf(),
            ({
                let before = old(self)@;
                let last = before.end_offset_ms / before.settings.part_ms;
                match retry {
                    Some(sequence) => r == Some(sequence) && final(self)@ == before,
                    None => if before.next_sequence < last {
                        &&& r == Some(before.next_sequence)
                        &&& final(self)@ == (ReaderView {
                            next_sequence: (before.next_sequence + 1) as u64,
                            ..before
                        })
                    } else {
                        r is None && final(self)@ == before
                    },
                }
            }),
    {
        if retry.is_some() {
            return retry;
        }
        let last: u64 = self.end_offset_ms / self.settings.part_ms;
        if self.next_sequence < last {
            let sequence: u64 = self.next_sequence;
            self.next_sequence = sequence + 1;
            Some(sequence)
        } else {
            None
        }
    }

    /// Where a part is asked for ahead.
    pub fn part_path(&self, sequence: u64) -> (r: String)
        ensures
            r@ == self@.path_prefix + "/"@ + decimal(self@.settings.stream_id as nat) + "/"@ + (
            "part"@ + decimal(sequence as nat) + "."@
                + self@.settings.expected_audio_codec.extension()),
    {
        let mut suffix = "part".to_owned();
        append_decimal(&mut suffix, sequence);
        suffix.append(".");
        suffix.append(self.settings.expected_audio_codec.media_extension());
        hls_path(self.path_prefix.as_str(), self.settings.stream_id, suffix.as_str())
    }

    /// What the reader came to.
    pub fn outcome(&self) -> (r: ReaderOutcome)
        requires
            self.wf(),
        ensures
            r == (ReaderOutcome {
                received_parts: count_set(self@.marks) as u64,
                missing_parts: (self@.marks.len() - count_set(self@.marks)) as u64,
                non_contiguous_pts: minus_floor(count_runs(self@.marks) as int, 1) as u64,
                deadline_misses: self@.counts.deadline_misses,
                init_audio_codec_verified: self@.counts.init_audio_codec_verified,
                pcm_media_size_mismatches: self@.counts.pcm_media_size_mismatches,
                opus_media_packet_mismatches: self@.counts.opus_media_packet_mismatches,
                playlist_has_ll_hls_tags: self@.counts.playlist_has_ll_hls_tags,
                wire_bytes: self@.counts.wire_bytes,
            }),
    {
        proof {
            set_is_bounded(self@.marks);
        }
        ReaderOutcome {
            received_parts: self.coverage.received_parts,
            missing_parts: self.coverage.expected_parts - self.coverage.received_parts,
            non_contiguous_pts: self.coverage.non_contiguous_pts(),
            deadline_misses: self.counts.deadline_misses,
            init_audio_codec_verified: self.counts.init_audio_codec_verified,
            pcm_media_size_mismatches: self.counts.pcm_media_size_mismatches,
            opus_media_packet_mismatches: self.counts.opus_media_packet_mismatches,
            playlist_has_ll_hls_tags: self.counts.playlist_has_ll_hls_tags,
            wire_bytes: self.counts.wire_bytes,
        }
    }
}

/// What a reader came to.
#[derive(Debug, Clone, Copy, PartialEq, Eq, Structural)]
pub struct ReaderOutcome {
    pub received_parts: u64,
    pub missing_parts: u64,
    pub non_contiguous_pts: u64,
    pub deadline_misses: u64,
    pub init_audio_codec_verified: bool,
    pub pcm_media_size_mismatches: u64,
    pub opus_media_packet_mismatches: u64,
    pub playlist_has_ll_hls_tags: bool,
    pub wire_bytes: u64,
}

/// Decides whether what a reader found is not what it expected, given whether what was decoded was
/// found in order, where something was decoded.
pub fn codec_check_fails(outcome: ReaderOutcome, waveform_verified: Option<bool>) -> (r: bool)
    ensures
        r == (!outcome.init_audio_codec_verified || outcome.pcm_media_size_mismatches > 0
            || outcome.opus_media_packet_mismatches > 0 || waveform_verified == Some(false)),
{
    !outcome.init_audio_codec_verified || outcome.pcm_media_size_mismatches > 0
        || outcome.opus_media_packet_mismatches > 0 || (match waveform_verified {
        Some(verified) => !verified,
        None => false,
    })
}

/// What many readers came to together.
#[derive(Debug, Clone, Copy, PartialEq, Eq, Structural)]
pub struct LoadTotals {
    pub readers_completed: usize,
    pub readers_failed: usize,
    pub readers_with_incomplete_media: usize,
    pub received_parts: u64,
    pub missing_parts: u64,
    pub non_contiguous_pts: u64,
    pub deadline_misses: u64,
    pub init_verified_readers: usize,
    pub pcm_media_size_mismatches: u64,
    pub opus_media_packet_mismatches: u64,
    pub playlist_verified_readers: usize,
    pub wire_bytes: u64,
}

/// Nobody read.
pub open spec fn no_totals() -> LoadTotals {
    LoadTotals {
        readers_completed: 0,
        readers_failed: 0,
        readers_with_incomplete_media: 0,
        received_parts: 0,
        missing_parts: 0,
        non_contiguous_pts: 0,
        deadline_misses: 0,
        init_verified_readers: 0,
        pcm_media_size_mismatches: 0,
        opus_media_packet_mismatches: 0,
        playlist_verified_readers: 0,
        wire_bytes: 0,
    }
}

/// A count of readers, and one more if it applies.
pub open spec fn counted(count: usize, applies: bool) -> usize {
    if applies {
        (count + 1) as usize
    } else {
        count
    }
}

impl LoadTotals {
    /// What readers came to together with one more.
    pub open spec fn with(self, outcome: ReaderOutcome) -> LoadTotals {
        LoadTotals {
            readers_completed: counted(self.readers_completed, true),
            readers_failed: self.readers_failed,
            readers_with_incomplete_media: counted(
                self.readers_with_incomplete_media,
                outcome.missing_parts > 0 || outcome.non_contiguous_pts > 0,
            ),
            received_parts: wrapped_u64(self.received_parts + outcome.received_parts),
            missing_parts: wrapped_u64(self.missing_parts + outcome.missing_parts),
            non_contiguous_pts: wrapped_u64(self.non_contiguous_pts + outcome.non_contiguous_pts),
            deadline_misses: wrapped_u64(self.deadline_misses + outcome.deadline_misses),
            init_verified_readers: counted(
                self.init_verified_readers,
                outcome.init_audio_codec_verified,
            ),
            pcm_media_size_mismatches: wrapped_u64(
                self.pcm_media_size_mismatches + outcome.pcm_media_size_mismatches,
            ),
            opus_media_packet_mismatches: wrapped_u64(
                self.opus_media_packet_mismatches + outcome.opus_media_packet_mismatches,
            ),
            playlist_verified_readers: counted(
                self.playlist_verified_readers,
                outcome.playlist_has_ll_hls_tags,
            ),
            wire_bytes: wrapped_u64(self.wire_bytes + outcome.wire_bytes),
        }
    }

    /// Whether there are no more readers of a kind than there are readers.
    pub open spec fn within(self, readers: int) -> bool {
        &&& self.readers_completed == readers
        &&& self.readers_with_incomplete_media <= readers
        &&& self.init_verified_readers <= readers
        &&& self.playlist_verified_readers <= readers
    }

    /// Adds what one more reader came to.
    fn add_outcome(self, outcome: ReaderOutcome) -> (r: LoadTotals)
        requires
            self.within(self.readers_completed as int),
            self.readers_completed < usize::MAX,
        ensures
            r == self.with(outcome),
            r.within(self.readers_completed + 1),
    {
        let incomplete: usize = if outcome.missing_parts > 0 || outcome.non_contiguous_pts > 0 {
            self.readers_with_incomplete_media + 1
        } else {
            self.readers_with_incomplete_media
        };
        let init_verified: usize = if outcome.init_audio_codec_verified {
            self.init_verified_readers + 1
        } else {
            self.init_verified_readers
        };
        let playlist_verified: usize = if outcome.playlist_has_ll_hls_tags {
            self.playlist_verified_readers + 1
        } else {
            self.playlist_verified_readers
        };
        LoadTotals {
            readers_completed: self.readers_completed + 1,
            readers_failed: self.readers_failed,
            readers_with_incomplete_media: incomplete,
            received_parts: wrapping_add_u64(self.received_parts, outcome.received_parts),
            missing_parts: wrapping_add_u64(self.missing_parts, outcome.missing_parts),
            non_contiguous_pts: wrapping_add_u64(self.non_contiguous_pts, outcome.non_contiguous_pts),
            deadline_misses: wrapping_add_u64(self.deadline_misses, outcome.deadline_misses),
            init_verified_readers: init_verified,
            pcm_media_size_mismatches: wrapping_add_u64(self.pcm_media_size_mismatches, outcome.pcm_media_size_mismatches),
            opus_media_packet_mismatches: wrapping_add_u64(self.opus_media_packet_mismatches, outcome.opus_media_packet_mismatches),
            playlist_verified_readers: playlist_verified,
            wire_bytes: wrapping_add_u64(self.wire_bytes, outcome.wire_bytes),
        }
    }
}

/// What readers came to together, but for those that failed.
pub open spec fn totals_of(outcomes: Seq<ReaderOutcome>) -> LoadTotals
    decreases outcomes.len(),
{
    if outcomes.len() == 0 {
        no_totals()
    } else {
        totals_of(outcomes.drop_last()).with(outcomes.last())
    }
}

/// What readers came to together: of one that failed, all parts are missing.
pub open spec fn load_of(
    outcomes: Seq<ReaderOutcome>,
    readers: usize,
    parts_per_reader: u64,
) -> LoadTotals {
    let completed = totals_of(outcomes);
    let failed = minus_floor(readers as int, outcomes.len() as int);
    LoadTotals {
        readers_failed: failed as usize,
        missing_parts: cap_u64(
            completed.missing_parts + cap_u64(failed * parts_per_reader),
        ) as u64,
        ..completed
    }
}

/// Whether all readers got everything in time, and it was what they expected.
pub open spec fn load_passes(totals: LoadTotals, readers: usize) -> bool {
    &&& totals.readers_failed == 0
    &&& totals.readers_with_incomplete_media == 0
    &&& totals.deadline_misses == 0
    &&& totals.init_verified_readers == readers
    &&& totals.pcm_media_size_mismatches == 0
    &&& totals.opus_media_packet_mismatches == 0
    &&& totals.playlist_verified_readers == readers
}

/// Adds up what readers came to, and decides whether they passed.
pub fn summarize_load(outcomes: &Vec<ReaderOutcome>, readers: usize, parts_per_reader: u64) -> (r: (
    LoadTotals,
    bool,
))
    ensures
        r.0 == load_of(outcomes@, readers, parts_per_reader),
        r.1 == load_passes(r.0, readers),
{
    let mut t = LoadTotals {
        readers_completed: 0,
        readers_failed: 0,
        readers_with_incomplete_media: 0,
        received_parts: 0,
        missing_parts: 0,
        non_contiguous_pts: 0,
        deadline_misses: 0,
        init_verified_readers: 0,
        pcm_media_size_mismatches: 0,
        opus_media_packet_mismatches: 0,
        playlist_verified_readers: 0,
        wire_bytes: 0,
    };
    let mut i: usize = 0;
    while i < outcomes.len()
        invariant
            i <= outcomes@.len(),
            t == totals_of(outcomes@.take(i as int)),
            t.within(i as int),
        decreases outcomes@.len() - i,
    {
        let ghost head = outcomes@.take(i + 1);
        assert(head.drop_last() =~= outcomes@.take(i as int));
        t = t.add_outcome(outcomes[i]);
        i = i + 1;
    }
    assert(outcomes@.take(i as int) =~= outcomes@);
    let failed: usize = readers.saturating_sub(outcomes.len());
    t.readers_failed = failed;
    t.missing_parts = t.missing_parts.saturating_add(
        saturating_mul_u64(failed as u64, parts_per_reader),
    );
    let passed = t.readers_failed == 0 && t.readers_with_incomplete_media == 0 && t.deadline_misses
        == 0 && t.init_verified_readers == readers && t.pcm_media_size_mismatches == 0
        && t.opus_media_packet_mismatches == 0 && t.playlist_verified_readers == readers;
    (t, passed)
}

/// Decides whether so many readers may read at a time.
pub fn reader_count_fits(readers: usize) -> (r: bool)
    ensures
        r == (1 <= readers <= MAX_READERS),
{
    readers >= 1 && readers <= MAX_READERS
}

/// A part that comes again changes nothing but which part came last.
pub proof fn parts_count_once(
    reader: ReaderView,
    pts_ms: u64,
    body: Seq<u8>,
    headers: Seq<(Seq<char>, Seq<char>)>,
    first_ns: u64,
    again_ns: u64,
)
    requires
        reader.settings.part_ms > 0,
        reader.is_new_part(pts_ms, first_ns),
    ensures
        ({
            let once = reader.with_body(pts_ms, body, headers, first_ns);
            &&& once.with_body(pts_ms, body, headers, again_ns) == once
            &&& once.availability.observations == (if reader.availability.observations
                == usize::MAX {
                usize::MAX as int
            } else {
                reader.availability.observations + 1
            })
        }),
{
}

/// A number of each of some outcomes, added up.
pub open spec fn added_up(outcomes: Seq<ReaderOutcome>, of: spec_fn(ReaderOutcome) -> int) -> int
    decreases outcomes.len(),
{
    if outcomes.len() == 0 {
        0
    } else {
        added_up(outcomes.drop_last(), of) + of(outcomes.last())
    }
}

/// Whether a reader got every part of its window, without a gap and in time, and everything was what
/// it expected.
pub open spec fn got_everything(outcome: ReaderOutcome) -> bool {
    &&& outcome.missing_parts == 0
    &&& outcome.non_contiguous_pts == 0
    &&& outcome.deadline_misses == 0
    &&& outcome.init_audio_codec_verified
    &&& outcome.pcm_media_size_mismatches == 0
    &&& outcome.opus_media_packet_mismatches == 0
    &&& outcome.playlist_has_ll_hls_tags
}

/// Whether the numbers of some outcomes can be added up.
pub open spec fn sums_fit(outcomes: Seq<ReaderOutcome>) -> bool {
    &&& outcomes.len() <= usize::MAX
    &&& added_up(outcomes, |o: ReaderOutcome| o.received_parts as int) <= u64::MAX
    &&& added_up(outcomes, |o: ReaderOutcome| o.missing_parts as int) <= u64::MAX
    &&& added_up(outcomes, |o: ReaderOutcome| o.non_contiguous_pts as int) <= u64::MAX
    &&& added_up(outcomes, |o: ReaderOutcome| o.deadline_misses as int) <= u64::MAX
    &&& added_up(outcomes, |o: ReaderOutcome| o.pcm_media_size_mismatches as int) <= u64::MAX
    &&& added_up(outcomes, |o: ReaderOutcome| o.opus_media_packet_mismatches as int) <= u64::MAX
    &&& added_up(outcomes, |o: ReaderOutcome| o.wire_bytes as int) <= u64::MAX
}

/// A sum of numbers that are not negative is not, and zero where each of them is.
proof fn sums_of_none(outcomes: Seq<ReaderOutcome>, of: spec_fn(ReaderOutcome) -> int)
    requires
        forall|o: ReaderOutcome| #[trigger] of(o) >= 0,
    ensures
        added_up(outcomes, of) >= 0,
        added_up(outcomes, of) == 0 <==> forall|i: int|
            0 <= i < outcomes.len() ==> of(#[trigger] outcomes[i]) == 0,
    decreases outcomes.len(),
{
    if outcomes.len() > 0 {
        let older = outcomes.drop_last();
        sums_of_none(older, of);
        assert(outcomes.last() == outcomes[outcomes.len() - 1]);
        assert(of(outcomes.last()) >= 0);
        assert forall|i: int| 0 <= i < older.len() implies older[i] == #[trigger] outcomes[i] by {}
        if added_up(outcomes, of) == 0 {
            assert forall|i: int| 0 <= i < outcomes.len() implies of(#[trigger] outcomes[i])
                == 0 by {
                if i < older.len() {
                    assert(of(older[i]) == 0);
                }
            }
        }
        if forall|i: int| 0 <= i < outcomes.len() ==> of(#[trigger] outcomes[i]) == 0 {
            assert forall|i: int| 0 <= i < older.len() implies of(#[trigger] older[i]) == 0 by {
                assert(of(outcomes[i]) == 0);
            }
        }
    }
}

/// What readers came to together is what each came to, added up.
pub proof fn loads_add_up(outcomes: Seq<ReaderOutcome>)
    requires
        sums_fit(outcomes),
    ensures
        ({
            let totals = totals_of(outcomes);
            &&& totals.readers_completed == outcomes.len()
            &&& totals.readers_with_incomplete_media == added_up(
                outcomes,
                |o: ReaderOutcome|
                    if o.missing_parts > 0 || o.non_contiguous_pts > 0 {
                        1int
                    } else {
                        0
                    },
            )
            &&& totals.received_parts == added_up(outcomes, |o: ReaderOutcome| o.received_parts as int)
            &&& totals.missing_parts == added_up(outcomes, |o: ReaderOutcome| o.missing_parts as int)
            &&& totals.non_contiguous_pts == added_up(
                outcomes,
                |o: ReaderOutcome| o.non_contiguous_pts as int,
            )
            &&& totals.deadline_misses == added_up(
                outcomes,
                |o: ReaderOutcome| o.deadline_misses as int,
            )
            &&& totals.init_verified_readers == added_up(
                outcomes,
                |o: ReaderOutcome|
                    if o.init_audio_codec_verified {
                        1int
                    } else {
                        0
                    },
            )
            &&& totals.pcm_media_size_mismatches == added_up(
                outcomes,
                |o: ReaderOutcome| o.pcm_media_size_mismatches as int,
            )
            &&& totals.opus_media_packet_mismatches == added_up(
                outcomes,
                |o: ReaderOutcome| o.opus_media_packet_mismatches as int,
            )
            &&& totals.playlist_verified_readers == added_up(
                outcomes,
                |o: ReaderOutcome|
                    if o.playlist_has_ll_hls_tags {
                        1int
                    } else {
                        0
                    },
            )
            &&& totals.wire_bytes == added_up(outcomes, |o: ReaderOutcome| o.wire_bytes as int)
            &&& totals.readers_with_incomplete_media <= outcomes.len()
            &&& totals.init_verified_readers <= outcomes.len()
            &&& totals.playlist_verified_readers <= outcomes.len()
        }),
    decreases outcomes.len(),
{
    reveal(wrapped_u64);
    if outcomes.len() > 0 {
        let older = outcomes.drop_last();
        sums_of_none(older, |o: ReaderOutcome| o.received_parts as int);
        sums_of_none(older, |o: ReaderOutcome| o.missing_parts as int);
        sums_of_none(older, |o: ReaderOutcome| o.non_contiguous_pts as int);
        sums_of_none(older, |o: ReaderOutcome| o.deadline_misses as int);
        sums_of_none(older, |o: ReaderOutcome| o.pcm_media_size_mismatches as int);
        sums_of_none(older, |o: ReaderOutcome| o.opus_media_packet_mismatches as int);
        sums_of_none(older, |o: ReaderOutcome| o.wire_bytes as int);
        loads_add_up(older);
    }
}

/// A count of what holds of some outcomes is their number exactly where it holds of each.
proof fn counts_are_full(outcomes: Seq<ReaderOutcome>, of: spec_fn(ReaderOutcome) -> int)
    requires
        forall|o: ReaderOutcome| 0 <= #[trigger] of(o) <= 1,
    ensures
        added_up(outcomes, of) <= outcomes.len(),
        added_up(outcomes, of) == outcomes.len() <==> forall|i: int|
            0 <= i < outcomes.len() ==> of(#[trigger] outcomes[i]) == 1,
    decreases outcomes.len(),
{
    if outcomes.len() > 0 {
        let older = outcomes.drop_last();
        counts_are_full(older, of);
        assert(outcomes.last() == outcomes[outcomes.len() - 1]);
        assert(0 <= of(outcomes.last()) <= 1);
        if added_up(outcomes, of) == outcomes.len() {
            assert forall|i: int| 0 <= i < outcomes.len() implies of(#[trigger] outcomes[i])
                == 1 by {
                if i < older.len() {
                    assert(older[i] == outcomes[i]);
                    assert(of(older[i]) == 1);
                }
            }
        }
        if forall|i: int| 0 <= i < outcomes.len() ==> of(#[trigger] outcomes[i]) == 1 {
            assert forall|i: int| 0 <= i < older.len() implies of(#[trigger] older[i]) == 1 by {
                assert(of(outcomes[i]) == 1);
            }
        }
    }
}

/// Readers pass together exactly where all of them came to an end and each of them got everything: no
/// part missing, none out of order, none late, and nothing else than was expected.
pub proof fn readers_pass_where_each_does(
    outcomes: Seq<ReaderOutcome>,
    readers: usize,
    parts_per_reader: u64,
)
    requires
        sums_fit(outcomes),
        outcomes.len() <= readers,
    ensures
        load_passes(load_of(outcomes, readers, parts_per_reader), readers) <==> outcomes.len()
            == readers && forall|i: int|
            0 <= i < outcomes.len() ==> got_everything(#[trigger] outcomes[i]),
{
    loads_add_up(outcomes);
    let incomplete = |o: ReaderOutcome|
        if o.missing_parts > 0 || o.non_contiguous_pts > 0 {
            1int
        } else {
            0
        };
    let late = |o: ReaderOutcome| o.deadline_misses as int;
    let pcm = |o: ReaderOutcome| o.pcm_media_size_mismatches as int;
    let opus = |o: ReaderOutcome| o.opus_media_packet_mismatches as int;
    let verified = |o: ReaderOutcome|
        if o.init_audio_codec_verified {
            1int
        } else {
            0
        };
    let tagged = |o: ReaderOutcome|
        if o.playlist_has_ll_hls_tags {
            1int
        } else {
            0
        };
    sums_of_none(outcomes, incomplete);
    sums_of_none(outcomes, late);
    sums_of_none(outcomes, pcm);
    sums_of_none(outcomes, opus);
    counts_are_full(outcomes, verified);
    counts_are_full(outcomes, tagged);
    let load = load_of(outcomes, readers, parts_per_reader);
    if load_passes(load, readers) {
        assert(outcomes.len() == readers);
        assert forall|i: int| 0 <= i < outcomes.len() implies got_everything(
            #[trigger] outcomes[i],
        ) by {
            assert(incomplete(outcomes[i]) == 0);
            assert(late(outcomes[i]) == 0);
            assert(pcm(outcomes[i]) == 0);
            assert(opus(outcomes[i]) == 0);
            assert(verified(outcomes[i]) == 1);
            assert(tagged(outcomes[i]) == 1);
        }
    }
    if outcomes.len() == readers && (forall|i: int|
        0 <= i < outcomes.len() ==> got_everything(#[trigger] outcomes[i])) {
        assert forall|i: int| 0 <= i < outcomes.len() implies incomplete(#[trigger] outcomes[i])
            == 0 && late(outcomes[i]) == 0 && pcm(outcomes[i]) == 0 && opus(outcomes[i]) == 0
            && verified(outcomes[i]) == 1 && tagged(outcomes[i]) == 1 by {
            assert(got_everything(outcomes[i]));
        }
    }
}

/// Of a reader that failed every part is missing, and it counts as failed.
pub proof fn failed_readers_miss_everything(
    outcomes: Seq<ReaderOutcome>,
    readers: usize,
    parts_per_reader: u64,
)
    requires
        sums_fit(outcomes),
        outcomes.len() <= readers,
        added_up(outcomes, |o: ReaderOutcome| o.missing_parts as int) + (readers - outcomes.len())
            * parts_per_reader <= u64::MAX,
    ensures
        ({
            let load = load_of(outcomes, readers, parts_per_reader);
            &&& load.readers_completed + load.readers_failed == readers
            &&& load.missing_parts == added_up(outcomes, |o: ReaderOutcome| o.missing_parts as int)
                + (readers - outcomes.len()) * parts_per_reader
            &&& load.received_parts == added_up(outcomes, |o: ReaderOutcome| o.received_parts as int)
        }),
{
    loads_add_up(outcomes);
    sums_of_none(outcomes, |o: ReaderOutcome| o.missing_parts as int);
}

/// A part of the window that comes for the first time is marked, and judged by when its samples were
/// captured: how long it took is kept, with the reader's buffer for when it is heard, and it is late
/// where it took longer than the deadline. Whether it holds what it has to is counted one way or the
/// other.
pub proof fn parts_are_judged_on_arrival(
    reader: ReaderView,
    pts_ms: u64,
    body: Seq<u8>,
    headers: Seq<(Seq<char>, Seq<char>)>,
    arrival_ns: u64,
)
    requires
        reader.is_new_part(pts_ms, arrival_ns),
        reader.settings.part_ms > 0,
        reader.settings.session_id + pts_ms * 1_000_000 <= arrival_ns,
        reader.settings.deadline_ms * 1_000_000 <= u64::MAX,
        arrival_ns + reader.settings.render_buffer_ms * 1_000_000 <= u64::MAX,
    ensures
        ({
            let s = reader.settings;
            let after = reader.with_body(pts_ms, body, headers, arrival_ns);
            let latency = arrival_ns - s.session_id - pts_ms * 1_000_000;
            let late = latency > s.deadline_ms * 1_000_000;
            let up = |before: u64, after: u64, holds: bool|
                if holds {
                    before < u64::MAX ==> after == before + 1
                } else {
                    after == before
                };
            let pcm = part_bytes(s.expected_audio_codec, s.expected_pcm_channels, s.part_ms);
            let samples = samples_from(body, 0);
            let pcm_fits = pcm is Some && samples is Some && samples->Some_0.len() as u64
                == pcm->Some_0;
            let opus = s.expected_audio_codec == HlsAudioCodec::SoundkitOpus;
            let opus_fits = opus_part_fits(body, s.part_ms);
            &&& after.availability == reader.availability.with(latency as u64)
            &&& after.render == reader.render.with(
                (latency + s.render_buffer_ms * 1_000_000) as u64,
            )
            &&& up(reader.counts.deadline_misses, after.counts.deadline_misses, late)
            &&& up(
                reader.counts.pcm_media_parts_verified,
                after.counts.pcm_media_parts_verified,
                pcm_fits,
            )
            &&& up(
                reader.counts.pcm_media_size_mismatches,
                after.counts.pcm_media_size_mismatches,
                pcm is Some && !pcm_fits,
            )
            &&& up(
                reader.counts.opus_media_parts_verified,
                after.counts.opus_media_parts_verified,
                opus && opus_fits,
            )
            &&& up(
                reader.counts.opus_media_packet_mismatches,
                after.counts.opus_media_packet_mismatches,
                opus && !opus_fits,
            )
            &&& after.counts.init_audio_codec_verified == (reader.counts.init_audio_codec_verified
                || (opus && opus_fits))
            &&& after.counts.wire_bytes == reader.counts.wire_bytes
            &&& after.counts.init_audio_codec == reader.counts.init_audio_codec
            &&& after.counts.playlist_has_ll_hls_tags == reader.counts.playlist_has_ll_hls_tags
            &&& after.marks.len() == reader.marks.len()
            &&& forall|i: int|
                0 <= i < reader.marks.len() ==> #[trigger] after.marks[i] == (reader.marks[i] || i
                    == pts_ms / s.part_ms - s.start_offset_ms / s.part_ms)
            &&& !after.is_new_part(pts_ms, arrival_ns)
            &&& after.after_sequence == reader.after_sequence
            &&& after.next_sequence == reader.next_sequence
        }),
{
}

/// A part counts exactly where it lies in the window, starts at one of its parts, did not come before and
/// is not of another session; any other changes nothing.
pub proof fn only_new_parts_count(
    reader: ReaderView,
    pts_ms: u64,
    body: Seq<u8>,
    headers: Seq<(Seq<char>, Seq<char>)>,
    arrival_ns: u64,
)
    requires
        reader.settings.part_ms > 0,
        reader.marks.len() <= u64::MAX,
    ensures
        ({
            let s = reader.settings;
            let relative = pts_ms / s.part_ms - s.start_offset_ms / s.part_ms;
            &&& reader.is_new_part(pts_ms, arrival_ns) <==> arrival_ns >= s.session_id
                && s.start_offset_ms <= pts_ms && pts_ms < reader.end_offset_ms && pts_ms
                % s.part_ms == 0 && 0 <= relative && relative < reader.marks.len()
                && !reader.marks[relative]
            &&& !reader.is_new_part(pts_ms, arrival_ns) ==> reader.with_body(
                pts_ms,
                body,
                headers,
                arrival_ns,
            ) == reader
        }),
{
}

/// A part that tells when the cache had it also tells how long it took to get there and from there on, and
/// both together are how long it took.
pub proof fn cached_parts_tell_their_way(
    reader: ReaderView,
    pts_ms: u64,
    body: Seq<u8>,
    headers: Seq<(Seq<char>, Seq<char>)>,
    arrival_ns: u64,
)
    requires
        reader.is_new_part(pts_ms, arrival_ns),
        reader.settings.session_id + pts_ms * 1_000_000 <= arrival_ns,
    ensures
        ({
            let after = reader.with_body(pts_ms, body, headers, arrival_ns);
            let captured = (reader.settings.session_id + pts_ms * 1_000_000) as u64;
            let told = header_value(headers, "x-needletail-cache-available-unix-us"@);
            let split = cache_split(told, captured, arrival_ns);
            &&& split is Some ==> {
                let (to_cache, to_client) = split->Some_0;
                &&& to_cache + to_client == arrival_ns - captured
                &&& after.publication_to_cache == reader.publication_to_cache.with(to_cache)
                &&& after.cache_to_client == reader.cache_to_client.with(to_client)
            }
            &&& split is None ==> after.publication_to_cache == reader.publication_to_cache
                && after.cache_to_client == reader.cache_to_client
            &&& told is None ==> split is None
        }),
{
}

/// A reader asks for the part behind the last that came, and behind the first of its window where none
/// has.
pub proof fn readers_ask_for_the_next(reader: ReaderView)
    ensures
        reader.after_sequence matches Some(last) ==> (last < u64::MAX ==> reader.requested() == last
            + 1),
        reader.after_sequence is None ==> (reader.settings.start_offset_ms / reader.settings.part_ms
            < u64::MAX ==> reader.requested() == reader.settings.start_offset_ms
            / reader.settings.part_ms + 1),
{
}

/// A reader starts only with parts of some length, a path that can stand in front of another, a
/// window that ends, and channels where it is to look at samples; and then it does.
pub proof fn readers_start_with_sound_settings(settings: ReaderSettings, prefix: Seq<char>, end: u64)
    ensures
        ({
            let window = window_of(
                settings.duration_seconds,
                settings.start_offset_ms,
                settings.window_seconds,
                settings.part_ms,
            );
            let samples = settings.expected_audio_codec == HlsAudioCodec::Ipcm
                || settings.expected_audio_codec == HlsAudioCodec::Fpcm;
            &&& settings_end(settings, prefix) == Ok::<u64, ReaderError>(end) <==> {
                &&& settings.part_ms > 0
                &&& prefix.len() == 0 || prefix[0] == '/' && prefix[prefix.len() - 1] != '/'
                &&& window == Ok::<u64, WindowError>(end)
                &&& samples ==> settings.expected_pcm_channels > 0
            }
            &&& settings_end(settings, prefix) == Err::<u64, ReaderError>(ReaderError::PcmChannels)
                ==> samples && settings.expected_pcm_channels == 0
            &&& settings_end(settings, prefix) == Err::<u64, ReaderError>(ReaderError::PathPrefix)
                ==> prefix.len() > 0 && (prefix[0] != '/' || prefix[prefix.len() - 1] == '/')
        }),
{
}

/// A key opens Opus alone, and nothing is written without one.
pub proof fn keys_and_outputs_go_together(settings: ReaderSettings)
    ensures
        decode_refusal(settings) is None <==> {
            &&& settings.has_key ==> settings.expected_audio_codec == HlsAudioCodec::SoundkitOpus
            &&& settings.has_outputs ==> settings.has_key
        },
        decode_refusal(settings) == Some(ReaderError::OutputsNeedKey) ==> settings.has_outputs
            && !settings.has_key,
        decode_refusal(settings) == Some(ReaderError::KeyNeedsOpus) ==> settings.has_key,
{
}

} // verus!
