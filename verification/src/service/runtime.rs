//! What the service reports of its own work at one moment.
use crate::arith::{cap_u64, min_int, minus_floor, saturating_mul_u64};
use crate::service::counters::{
    LaneCounters, MeshHistograms, MeshHistogramsView, RelayHistograms, RelayHistogramsView,
};
use crate::service::events::{name_view, responses_view, ContribHlsResponse, HlsResponseView};
use crate::service::histogram::{DurationHistogramSnapshot, HistogramSnapshotView};
use crate::service::lanes::{lane_state, relay_lane_state};
use crate::service::sessions::{
    active_count, count_active, recent_reports, recent_sessions, IngestSessionSnapshot,
    SessionSnapshotView,
};
use crate::service::streams::{
    age, age_of, protocol_reports, protocol_snapshots, recent_streams, stream_snapshots,
    ContribStreamRuntimeSnapshot, ProtocolRuntimeSnapshot, ProtocolSnapshotView, StreamSnapshotView,
};
use crate::service::telemetry::{IngestTelemetry, TelemetryView};
use crate::ranking::views;
use crate::text::text_equal;
use vstd::prelude::*;

verus! {

/// A time, where zero stands for never.
pub open spec fn nonzero(value: u64) -> Option<u64> {
    if value == 0 {
        None
    } else {
        Some(value)
    }
}

/// A time in milliseconds, where zero stands for never.
pub fn nonzero_unix_ms(value: u64) -> (r: Option<u64>)
    ensures
        r == nonzero(value),
{
    if value != 0 {
        Some(value)
    } else {
        None
    }
}

/// A time in microseconds, where zero stands for never.
pub fn nonzero_unix_us(value: u64) -> (r: Option<u64>)
    ensures
        r == nonzero(value),
{
    if value != 0 {
        Some(value)
    } else {
        None
    }
}

/// A dimension, where zero stands for none, cut to sixteen bits.
pub open spec fn nonzero_dimension(value: u64) -> Option<u16> {
    if value == 0 {
        None
    } else {
        Some(min_int(value as int, u16::MAX as int) as u16)
    }
}

/// A dimension, where zero stands for none, cut to sixteen bits.
pub fn nonzero_u16(value: u64) -> (r: Option<u16>)
    ensures
        r == nonzero_dimension(value),
{
    if value == 0 {
        None
    } else if value > u16::MAX as u64 {
        Some(u16::MAX)
    } else {
        Some(value as u16)
    }
}

/// How long ago something was, where zero stands for never.
pub open spec fn age_since(now_ms: u64, value: u64) -> Option<u64> {
    age(now_ms, nonzero(value))
}

/// Tells how long ago something was, where zero stands for never.
pub fn age_from_ms(now_ms: u64, value: u64) -> (r: Option<u64>)
    ensures
        r == age_since(now_ms, value),
{
    age_of(now_ms, nonzero_unix_ms(value))
}

/// Raw bytes over HTTP, as reported.
#[derive(Debug, Clone, Copy, PartialEq, Eq, Structural)]
pub struct RawHttpRuntimeSnapshot {
    pub requests: u64,
    pub chunks: u64,
    pub bytes: u64,
    pub datagrams: u64,
    pub last_seen_unix_ms: Option<u64>,
    pub last_seen_age_ms: Option<u64>,
}

/// Media access units over HTTP, as reported.
#[derive(Debug, Clone, Copy, PartialEq, Eq, Structural)]
pub struct MediaRuntimeSnapshot {
    pub requests: u64,
    pub payload_bytes: u64,
    pub datagrams: u64,
    pub last_seen_unix_ms: Option<u64>,
    pub last_seen_age_ms: Option<u64>,
}

/// The stages of forwarding, as reported.
#[derive(Debug)]
pub struct MeshForwardStageRuntimeSnapshot {
    pub encode_wait: DurationHistogramSnapshot,
    pub encode: DurationHistogramSnapshot,
    pub send: DurationHistogramSnapshot,
    pub telemetry: DurationHistogramSnapshot,
}

/// What a [`MeshForwardStageRuntimeSnapshot`] holds.
pub struct MeshStagesView {
    pub encode_wait: HistogramSnapshotView,
    pub encode: HistogramSnapshotView,
    pub send: HistogramSnapshotView,
    pub telemetry: HistogramSnapshotView,
}

impl View for MeshForwardStageRuntimeSnapshot {
    type V = MeshStagesView;

    open spec fn view(&self) -> MeshStagesView {
        MeshStagesView {
            encode_wait: self.encode_wait@,
            encode: self.encode@,
            send: self.send@,
            telemetry: self.telemetry@,
        }
    }
}

impl MeshHistogramsView {
    /// The stages as reported.
    pub open spec fn stages(self) -> MeshStagesView {
        MeshStagesView {
            encode_wait: self.encode_wait.reported(),
            encode: self.encode.reported(),
            send: self.send.reported(),
            telemetry: self.telemetry.reported(),
        }
    }
}

/// Forwarding to the mesh, as reported.
#[derive(Debug)]
pub struct MeshForwardRuntimeSnapshot {
    pub stream_payloads: u64,
    pub stream_payload_bytes: u64,
    pub stream_datagrams: u64,
    pub stream_datagram_bytes: u64,
    pub stream_errors: u64,
    pub stream_last_unix_ms: Option<u64>,
    pub stream_last_age_ms: Option<u64>,
    pub stream_duration: DurationHistogramSnapshot,
    pub stream_stages: MeshForwardStageRuntimeSnapshot,
    pub media_payloads: u64,
    pub media_payload_bytes: u64,
    pub media_datagrams: u64,
    pub media_datagram_bytes: u64,
    pub media_errors: u64,
    pub media_last_unix_ms: Option<u64>,
    pub media_last_age_ms: Option<u64>,
    pub media_duration: DurationHistogramSnapshot,
    pub media_stages: MeshForwardStageRuntimeSnapshot,
}

/// What a [`MeshForwardRuntimeSnapshot`] holds.
pub struct MeshForwardView {
    pub stream_payloads: u64,
    pub stream_payload_bytes: u64,
    pub stream_datagrams: u64,
    pub stream_datagram_bytes: u64,
    pub stream_errors: u64,
    pub stream_last_unix_ms: Option<u64>,
    pub stream_last_age_ms: Option<u64>,
    pub stream_duration: HistogramSnapshotView,
    pub stream_stages: MeshStagesView,
    pub media_payloads: u64,
    pub media_payload_bytes: u64,
    pub media_datagrams: u64,
    pub media_datagram_bytes: u64,
    pub media_errors: u64,
    pub media_last_unix_ms: Option<u64>,
    pub media_last_age_ms: Option<u64>,
    pub media_duration: HistogramSnapshotView,
    pub media_stages: MeshStagesView,
}

impl View for MeshForwardRuntimeSnapshot {
    type V = MeshForwardView;

    open spec fn view(&self) -> MeshForwardView {
        MeshForwardView {
            stream_payloads: self.stream_payloads,
            stream_payload_bytes: self.stream_payload_bytes,
            stream_datagrams: self.stream_datagrams,
            stream_datagram_bytes: self.stream_datagram_bytes,
            stream_errors: self.stream_errors,
            stream_last_unix_ms: self.stream_last_unix_ms,
            stream_last_age_ms: self.stream_last_age_ms,
            stream_duration: self.stream_duration@,
            stream_stages: self.stream_stages@,
            media_payloads: self.media_payloads,
            media_payload_bytes: self.media_payload_bytes,
            media_datagrams: self.media_datagrams,
            media_datagram_bytes: self.media_datagram_bytes,
            media_errors: self.media_errors,
            media_last_unix_ms: self.media_last_unix_ms,
            media_last_age_ms: self.media_last_age_ms,
            media_duration: self.media_duration@,
            media_stages: self.media_stages@,
        }
    }
}

/// The stages of relaying, as reported.
#[derive(Debug)]
pub struct RelaySessionStageRuntimeSnapshot {
    pub total: DurationHistogramSnapshot,
    pub encode_wait: DurationHistogramSnapshot,
    pub encode: DurationHistogramSnapshot,
    pub schedule: DurationHistogramSnapshot,
    pub primary_source_send: DurationHistogramSnapshot,
    pub secondary_source_send: DurationHistogramSnapshot,
    pub primary_repair_send: DurationHistogramSnapshot,
    pub secondary_repair_send: DurationHistogramSnapshot,
}

/// What a [`RelaySessionStageRuntimeSnapshot`] holds.
pub struct RelayStagesView {
    pub total: HistogramSnapshotView,
    pub encode_wait: HistogramSnapshotView,
    pub encode: HistogramSnapshotView,
    pub schedule: HistogramSnapshotView,
    pub primary_source_send: HistogramSnapshotView,
    pub secondary_source_send: HistogramSnapshotView,
    pub primary_repair_send: HistogramSnapshotView,
    pub secondary_repair_send: HistogramSnapshotView,
}

impl View for RelaySessionStageRuntimeSnapshot {
    type V = RelayStagesView;

    open spec fn view(&self) -> RelayStagesView {
        RelayStagesView {
            total: self.total@,
            encode_wait: self.encode_wait@,
            encode: self.encode@,
            schedule: self.schedule@,
            primary_source_send: self.primary_source_send@,
            secondary_source_send: self.secondary_source_send@,
            primary_repair_send: self.primary_repair_send@,
            secondary_repair_send: self.secondary_repair_send@,
        }
    }
}

impl RelayHistogramsView {
    /// The stages as reported.
    pub open spec fn stages(self) -> RelayStagesView {
        RelayStagesView {
            total: self.total.reported(),
            encode_wait: self.encode_wait.reported(),
            encode: self.encode.reported(),
            schedule: self.schedule.reported(),
            primary_source_send: self.primary_source_send.reported(),
            secondary_source_send: self.secondary_source_send.reported(),
            primary_repair_send: self.primary_repair_send.reported(),
            secondary_repair_send: self.secondary_repair_send.reported(),
        }
    }
}

/// The relay session, as reported.
#[derive(Debug)]
pub struct RelaySessionRuntimeSnapshot {
    pub objects_sent: u64,
    pub encode_errors: u64,
    pub source_datagrams: u64,
    pub source_datagram_bytes: u64,
    pub source_errors: u64,
    pub repair_datagrams: u64,
    pub repair_datagram_bytes: u64,
    pub repair_errors: u64,
    pub repair_primary_fallback_objects: u64,
    pub primary_lane_objects_succeeded: u64,
    pub primary_lane_objects_failed: u64,
    pub primary_lane_state: &'static str,
    pub secondary_lane_objects_succeeded: u64,
    pub secondary_lane_objects_failed: u64,
    pub secondary_lane_state: &'static str,
    pub surviving_lane_objects: u64,
    pub all_lanes_failed_objects: u64,
    pub expired_objects: u64,
    pub expired_symbols: u64,
    pub deadline_hits: u64,
    pub deadline_misses: u64,
    pub last_deadline_unix_us: Option<u64>,
    pub last_deadline_headroom_us: Option<u64>,
    pub stages: RelaySessionStageRuntimeSnapshot,
}

/// What a [`RelaySessionRuntimeSnapshot`] holds.
pub struct RelayView {
    pub objects_sent: u64,
    pub encode_errors: u64,
    pub source_datagrams: u64,
    pub source_datagram_bytes: u64,
    pub source_errors: u64,
    pub repair_datagrams: u64,
    pub repair_datagram_bytes: u64,
    pub repair_errors: u64,
    pub repair_primary_fallback_objects: u64,
    pub primary_lane_objects_succeeded: u64,
    pub primary_lane_objects_failed: u64,
    pub primary_lane_state: Seq<char>,
    pub secondary_lane_objects_succeeded: u64,
    pub secondary_lane_objects_failed: u64,
    pub secondary_lane_state: Seq<char>,
    pub surviving_lane_objects: u64,
    pub all_lanes_failed_objects: u64,
    pub expired_objects: u64,
    pub expired_symbols: u64,
    pub deadline_hits: u64,
    pub deadline_misses: u64,
    pub last_deadline_unix_us: Option<u64>,
    pub last_deadline_headroom_us: Option<u64>,
    pub stages: RelayStagesView,
}

impl View for RelaySessionRuntimeSnapshot {
    type V = RelayView;

    open spec fn view(&self) -> RelayView {
        RelayView {
            objects_sent: self.objects_sent,
            encode_errors: self.encode_errors,
            source_datagrams: self.source_datagrams,
            source_datagram_bytes: self.source_datagram_bytes,
            source_errors: self.source_errors,
            repair_datagrams: self.repair_datagrams,
            repair_datagram_bytes: self.repair_datagram_bytes,
            repair_errors: self.repair_errors,
            repair_primary_fallback_objects: self.repair_primary_fallback_objects,
            primary_lane_objects_succeeded: self.primary_lane_objects_succeeded,
            primary_lane_objects_failed: self.primary_lane_objects_failed,
            primary_lane_state: self.primary_lane_state@,
            secondary_lane_objects_succeeded: self.secondary_lane_objects_succeeded,
            secondary_lane_objects_failed: self.secondary_lane_objects_failed,
            secondary_lane_state: self.secondary_lane_state@,
            surviving_lane_objects: self.surviving_lane_objects,
            all_lanes_failed_objects: self.all_lanes_failed_objects,
            expired_objects: self.expired_objects,
            expired_symbols: self.expired_symbols,
            deadline_hits: self.deadline_hits,
            deadline_misses: self.deadline_misses,
            last_deadline_unix_us: self.last_deadline_unix_us,
            last_deadline_headroom_us: self.last_deadline_headroom_us,
            stages: self.stages@,
        }
    }
}

impl RelayView {
    /// How many lanes are impaired.
    pub open spec fn impaired_lanes(self) -> u64 {
        ((if self.primary_lane_state == "impaired"@ {
            1int
        } else {
            0
        }) + (if self.secondary_lane_state == "impaired"@ {
            1int
        } else {
            0
        })) as u64
    }
}

impl RelaySessionRuntimeSnapshot {
    /// Counts the lanes that are impaired.
    pub fn impaired_lane_count(&self) -> (r: u64)
        ensures
            r == self@.impaired_lanes(),
    {
        let primary: u64 = if text_equal(self.primary_lane_state, "impaired") {
            1
        } else {
            0
        };
        let secondary: u64 = if text_equal(self.secondary_lane_state, "impaired") {
            1
        } else {
            0
        };
        primary + secondary
    }
}

/// Transport streams, as reported.
#[derive(Debug, Clone, Copy, PartialEq, Eq, Structural)]
pub struct MpegTsRuntimeSnapshot {
    pub slots: u64,
    pub bytes: u64,
    pub last_seen_unix_ms: Option<u64>,
    pub last_seen_age_ms: Option<u64>,
    pub continuity_errors: u64,
    pub continuity_dropped_bytes: u64,
    pub payload_drops: u64,
    pub payload_drop_bytes: u64,
    pub last_error_unix_ms: Option<u64>,
    pub last_error_age_ms: Option<u64>,
}

/// RTMP, as reported.
#[derive(Debug, Clone, Copy, PartialEq, Eq, Structural)]
pub struct RtmpRuntimeSnapshot {
    pub access_units: u64,
    pub bytes: u64,
    pub last_seen_unix_ms: Option<u64>,
    pub last_seen_age_ms: Option<u64>,
}

/// Published parts, as reported.
#[derive(Debug, Clone, Copy)]
pub struct Fmp4RuntimeSnapshot {
    pub parts: u64,
    pub bytes: u64,
    pub init_bytes: u64,
    pub publish_errors: u64,
    pub last_publish_unix_ms: Option<u64>,
    pub last_publish_age_ms: Option<u64>,
    pub video_codec: Option<&'static str>,
    pub video_width: Option<u16>,
    pub video_height: Option<u16>,
    pub video_parts: u64,
    pub video_access_units: u64,
    pub audio_codec: Option<&'static str>,
    pub audio_parts: u64,
    pub audio_access_units: u64,
}

/// What a [`Fmp4RuntimeSnapshot`] holds.
pub struct Fmp4View {
    pub parts: u64,
    pub bytes: u64,
    pub init_bytes: u64,
    pub publish_errors: u64,
    pub last_publish_unix_ms: Option<u64>,
    pub last_publish_age_ms: Option<u64>,
    pub video_codec: Option<Seq<char>>,
    pub video_width: Option<u16>,
    pub video_height: Option<u16>,
    pub video_parts: u64,
    pub video_access_units: u64,
    pub audio_codec: Option<Seq<char>>,
    pub audio_parts: u64,
    pub audio_access_units: u64,
}

impl View for Fmp4RuntimeSnapshot {
    type V = Fmp4View;

    open spec fn view(&self) -> Fmp4View {
        Fmp4View {
            parts: self.parts,
            bytes: self.bytes,
            init_bytes: self.init_bytes,
            publish_errors: self.publish_errors,
            last_publish_unix_ms: self.last_publish_unix_ms,
            last_publish_age_ms: self.last_publish_age_ms,
            video_codec: name_view(self.video_codec),
            video_width: self.video_width,
            video_height: self.video_height,
            video_parts: self.video_parts,
            video_access_units: self.video_access_units,
            audio_codec: name_view(self.audio_codec),
            audio_parts: self.audio_parts,
            audio_access_units: self.audio_access_units,
        }
    }
}

/// Answers to playlist and media requests, as reported.
#[derive(Debug)]
pub struct HlsRuntimeSnapshot {
    pub responses_total: u64,
    pub response_errors: u64,
    pub response_not_found: u64,
    pub last_response_unix_ms: Option<u64>,
    pub last_response_age_ms: Option<u64>,
    pub recent_responses: Vec<ContribHlsResponse>,
}

/// What a [`HlsRuntimeSnapshot`] holds.
pub struct HlsView {
    pub responses_total: u64,
    pub response_errors: u64,
    pub response_not_found: u64,
    pub last_response_unix_ms: Option<u64>,
    pub last_response_age_ms: Option<u64>,
    pub recent_responses: Seq<HlsResponseView>,
}

impl View for HlsRuntimeSnapshot {
    type V = HlsView;

    open spec fn view(&self) -> HlsView {
        HlsView {
            responses_total: self.responses_total,
            response_errors: self.response_errors,
            response_not_found: self.response_not_found,
            last_response_unix_ms: self.last_response_unix_ms,
            last_response_age_ms: self.last_response_age_ms,
            recent_responses: responses_view(self.recent_responses@),
        }
    }
}

/// Sessions, as reported.
#[derive(Debug)]
pub struct IngestSessionsRuntimeSnapshot {
    pub active: usize,
    pub started: u64,
    pub ended: u64,
    pub recent: Vec<IngestSessionSnapshot>,
}

/// What an [`IngestSessionsRuntimeSnapshot`] holds.
pub struct SessionsView {
    pub active: nat,
    pub started: u64,
    pub ended: u64,
    pub recent: Seq<SessionSnapshotView>,
}

impl View for IngestSessionsRuntimeSnapshot {
    type V = SessionsView;

    open spec fn view(&self) -> SessionsView {
        SessionsView {
            active: self.active as nat,
            started: self.started,
            ended: self.ended,
            recent: views(self.recent@),
        }
    }
}

/// Everything that is reported of the service's work.
#[derive(Debug)]
pub struct IngestRuntimeSnapshot {
    pub raw_http: RawHttpRuntimeSnapshot,
    pub media_access_units: MediaRuntimeSnapshot,
    pub mesh_forward: MeshForwardRuntimeSnapshot,
    pub relay_session: RelaySessionRuntimeSnapshot,
    pub mpeg_ts: MpegTsRuntimeSnapshot,
    pub rtmp: RtmpRuntimeSnapshot,
    pub fmp4: Fmp4RuntimeSnapshot,
    pub hls: HlsRuntimeSnapshot,
    pub ingest_sessions: IngestSessionsRuntimeSnapshot,
    pub streams: Vec<ContribStreamRuntimeSnapshot>,
    pub protocols: Vec<ProtocolRuntimeSnapshot>,
}

/// What an [`IngestRuntimeSnapshot`] holds.
pub struct RuntimeView {
    pub raw_http: RawHttpRuntimeSnapshot,
    pub media_access_units: MediaRuntimeSnapshot,
    pub mesh_forward: MeshForwardView,
    pub relay_session: RelayView,
    pub mpeg_ts: MpegTsRuntimeSnapshot,
    pub rtmp: RtmpRuntimeSnapshot,
    pub fmp4: Fmp4View,
    pub hls: HlsView,
    pub ingest_sessions: SessionsView,
    pub streams: Seq<StreamSnapshotView>,
    pub protocols: Seq<ProtocolSnapshotView>,
}

impl View for IngestRuntimeSnapshot {
    type V = RuntimeView;

    open spec fn view(&self) -> RuntimeView {
        RuntimeView {
            raw_http: self.raw_http,
            media_access_units: self.media_access_units,
            mesh_forward: self.mesh_forward@,
            relay_session: self.relay_session@,
            mpeg_ts: self.mpeg_ts,
            rtmp: self.rtmp,
            fmp4: self.fmp4@,
            hls: self.hls@,
            ingest_sessions: self.ingest_sessions@,
            streams: views(self.streams@),
            protocols: views(self.protocols@),
        }
    }
}

/// The name of a lane's health.
pub open spec fn lane_name(lane: LaneCounters, now_ms: u64) -> Seq<char> {
    lane_state(now_ms, lane.last_success_unix_ms, lane.last_failure_unix_ms).name()
}

/// How much time a deadline leaves, in microseconds.
pub open spec fn headroom(deadline_us: Option<u64>, now_ms: u64) -> Option<u64> {
    match deadline_us {
        Some(deadline) => Some(minus_floor(deadline as int, cap_u64(now_ms * 1_000)) as u64),
        None => None,
    }
}

impl TelemetryView {
    /// Forwarding to the mesh, as reported.
    pub open spec fn mesh_report(self, now_ms: u64) -> MeshForwardView {
        let stream = self.counters.mesh_stream;
        let media = self.counters.mesh_media;
        MeshForwardView {
            stream_payloads: stream.payloads,
            stream_payload_bytes: stream.payload_bytes,
            stream_datagrams: stream.datagrams,
            stream_datagram_bytes: stream.datagram_bytes,
            stream_errors: stream.errors,
            stream_last_unix_ms: nonzero(stream.last_unix_ms),
            stream_last_age_ms: age_since(now_ms, stream.last_unix_ms),
            stream_duration: self.stream_histograms.total.reported(),
            stream_stages: self.stream_histograms.stages(),
            media_payloads: media.payloads,
            media_payload_bytes: media.payload_bytes,
            media_datagrams: media.datagrams,
            media_datagram_bytes: media.datagram_bytes,
            media_errors: media.errors,
            media_last_unix_ms: nonzero(media.last_unix_ms),
            media_last_age_ms: age_since(now_ms, media.last_unix_ms),
            media_duration: self.media_histograms.total.reported(),
            media_stages: self.media_histograms.stages(),
        }
    }

    /// The relay session, as reported.
    pub open spec fn relay_report(self, now_ms: u64) -> RelayView {
        let relay = self.counters.relay;
        RelayView {
            objects_sent: relay.objects_sent,
            encode_errors: relay.encode_errors,
            source_datagrams: relay.source.datagrams,
            source_datagram_bytes: relay.source.datagram_bytes,
            source_errors: relay.source.errors,
            repair_datagrams: relay.repair.datagrams,
            repair_datagram_bytes: relay.repair.datagram_bytes,
            repair_errors: relay.repair.errors,
            repair_primary_fallback_objects: relay.repair_primary_fallback_objects,
            primary_lane_objects_succeeded: relay.primary.objects_succeeded,
            primary_lane_objects_failed: relay.primary.objects_failed,
            primary_lane_state: lane_name(relay.primary, now_ms),
            secondary_lane_objects_succeeded: relay.secondary.objects_succeeded,
            secondary_lane_objects_failed: relay.secondary.objects_failed,
            secondary_lane_state: lane_name(relay.secondary, now_ms),
            surviving_lane_objects: relay.surviving_lane_objects,
            all_lanes_failed_objects: relay.all_lanes_failed_objects,
            expired_objects: relay.expired_objects,
            expired_symbols: relay.expired_symbols,
            deadline_hits: relay.deadline_hits,
            deadline_misses: relay.deadline_misses,
            last_deadline_unix_us: nonzero(relay.last_deadline_unix_us),
            last_deadline_headroom_us: headroom(nonzero(relay.last_deadline_unix_us), now_ms),
            stages: self.relay_histograms.stages(),
        }
    }

    /// Published parts, as reported.
    pub open spec fn fmp4_report(self, now_ms: u64) -> Fmp4View {
        let fmp4 = self.counters.fmp4;
        Fmp4View {
            parts: fmp4.parts,
            bytes: fmp4.bytes,
            init_bytes: fmp4.init_bytes,
            publish_errors: fmp4.publish_errors,
            last_publish_unix_ms: nonzero(fmp4.last_publish_unix_ms),
            last_publish_age_ms: age_since(now_ms, fmp4.last_publish_unix_ms),
            video_codec: if fmp4.video_width > 0 {
                Some("h264"@)
            } else {
                None
            },
            video_width: nonzero_dimension(fmp4.video_width),
            video_height: nonzero_dimension(fmp4.video_height),
            video_parts: fmp4.video_parts,
            video_access_units: fmp4.video_access_units,
            audio_codec: if fmp4.audio_parts > 0 {
                Some("aac"@)
            } else {
                None
            },
            audio_parts: fmp4.audio_parts,
            audio_access_units: fmp4.audio_access_units,
        }
    }

    /// Everything that is reported at a moment.
    pub open spec fn report(self, now_ms: u64) -> RuntimeView {
        let counters = self.counters;
        RuntimeView {
            raw_http: RawHttpRuntimeSnapshot {
                requests: counters.raw_http.requests,
                chunks: counters.raw_http.chunks,
                bytes: counters.raw_http.bytes,
                datagrams: counters.raw_http.datagrams,
                last_seen_unix_ms: nonzero(counters.raw_http.last_unix_ms),
                last_seen_age_ms: age_since(now_ms, counters.raw_http.last_unix_ms),
            },
            media_access_units: MediaRuntimeSnapshot {
                requests: counters.media.requests,
                payload_bytes: counters.media.payload_bytes,
                datagrams: counters.media.datagrams,
                last_seen_unix_ms: nonzero(counters.media.last_unix_ms),
                last_seen_age_ms: age_since(now_ms, counters.media.last_unix_ms),
            },
            mesh_forward: self.mesh_report(now_ms),
            relay_session: self.relay_report(now_ms),
            mpeg_ts: MpegTsRuntimeSnapshot {
                slots: counters.mpeg_ts.slots,
                bytes: counters.mpeg_ts.bytes,
                last_seen_unix_ms: nonzero(counters.mpeg_ts.last_unix_ms),
                last_seen_age_ms: age_since(now_ms, counters.mpeg_ts.last_unix_ms),
                continuity_errors: counters.mpeg_ts.continuity_errors,
                continuity_dropped_bytes: counters.mpeg_ts.continuity_dropped_bytes,
                payload_drops: counters.mpeg_ts.payload_drops,
                payload_drop_bytes: counters.mpeg_ts.payload_drop_bytes,
                last_error_unix_ms: nonzero(counters.mpeg_ts.last_error_unix_ms),
                last_error_age_ms: age_since(now_ms, counters.mpeg_ts.last_error_unix_ms),
            },
            rtmp: RtmpRuntimeSnapshot {
                access_units: counters.rtmp.access_units,
                bytes: counters.rtmp.bytes,
                last_seen_unix_ms: nonzero(counters.rtmp.last_unix_ms),
                last_seen_age_ms: age_since(now_ms, counters.rtmp.last_unix_ms),
            },
            fmp4: self.fmp4_report(now_ms),
            hls: HlsView {
                responses_total: counters.hls.responses_total,
                response_errors: counters.hls.response_errors,
                response_not_found: counters.hls.response_not_found,
                last_response_unix_ms: nonzero(counters.hls.last_response_unix_ms),
                last_response_age_ms: age_since(now_ms, counters.hls.last_response_unix_ms),
                recent_responses: self.responses,
            },
            ingest_sessions: SessionsView {
                active: active_count(self.sessions),
                started: counters.sessions.started,
                ended: counters.sessions.ended,
                recent: recent_reports(self.sessions, now_ms),
            },
            streams: recent_streams(self.streams, now_ms),
            protocols: protocol_reports(self.protocols, self.sessions, now_ms),
        }
    }
}

fn mesh_stages(histograms: &MeshHistograms) -> (r: MeshForwardStageRuntimeSnapshot)
    ensures
        r@ == histograms@.stages(),
{
    MeshForwardStageRuntimeSnapshot {
        encode_wait: histograms.encode_wait.snapshot(),
        encode: histograms.encode.snapshot(),
        send: histograms.send.snapshot(),
        telemetry: histograms.telemetry.snapshot(),
    }
}

fn relay_stages(histograms: &RelayHistograms) -> (r: RelaySessionStageRuntimeSnapshot)
    ensures
        r@ == histograms@.stages(),
{
    RelaySessionStageRuntimeSnapshot {
        total: histograms.total.snapshot(),
        encode_wait: histograms.encode_wait.snapshot(),
        encode: histograms.encode.snapshot(),
        schedule: histograms.schedule.snapshot(),
        primary_source_send: histograms.primary_source_send.snapshot(),
        secondary_source_send: histograms.secondary_source_send.snapshot(),
        primary_repair_send: histograms.primary_repair_send.snapshot(),
        secondary_repair_send: histograms.secondary_repair_send.snapshot(),
    }
}

impl IngestTelemetry {
    fn mesh_snapshot(&self, now_ms: u64) -> (r: MeshForwardRuntimeSnapshot)
        ensures
            r@ == self@.mesh_report(now_ms),
    {
        let stream = self.counters.mesh_stream;
        let media = self.counters.mesh_media;
        MeshForwardRuntimeSnapshot {
            stream_payloads: stream.payloads,
            stream_payload_bytes: stream.payload_bytes,
            stream_datagrams: stream.datagrams,
            stream_datagram_bytes: stream.datagram_bytes,
            stream_errors: stream.errors,
            stream_last_unix_ms: nonzero_unix_ms(stream.last_unix_ms),
            stream_last_age_ms: age_from_ms(now_ms, stream.last_unix_ms),
            stream_duration: self.stream_histograms.total.snapshot(),
            stream_stages: mesh_stages(&self.stream_histograms),
            media_payloads: media.payloads,
            media_payload_bytes: media.payload_bytes,
            media_datagrams: media.datagrams,
            media_datagram_bytes: media.datagram_bytes,
            media_errors: media.errors,
            media_last_unix_ms: nonzero_unix_ms(media.last_unix_ms),
            media_last_age_ms: age_from_ms(now_ms, media.last_unix_ms),
            media_duration: self.media_histograms.total.snapshot(),
            media_stages: mesh_stages(&self.media_histograms),
        }
    }

    fn relay_snapshot(&self, now_ms: u64) -> (r: RelaySessionRuntimeSnapshot)
        ensures
            r@ == self@.relay_report(now_ms),
    {
        let relay = self.counters.relay;
        let primary = relay_lane_state(
            now_ms,
            relay.primary.last_success_unix_ms,
            relay.primary.last_failure_unix_ms,
        );
        let secondary = relay_lane_state(
            now_ms,
            relay.secondary.last_success_unix_ms,
            relay.secondary.last_failure_unix_ms,
        );
        let deadline = nonzero_unix_us(relay.last_deadline_unix_us);
        RelaySessionRuntimeSnapshot {
            objects_sent: relay.objects_sent,
            encode_errors: relay.encode_errors,
            source_datagrams: relay.source.datagrams,
            source_datagram_bytes: relay.source.datagram_bytes,
            source_errors: relay.source.errors,
            repair_datagrams: relay.repair.datagrams,
            repair_datagram_bytes: relay.repair.datagram_bytes,
            repair_errors: relay.repair.errors,
            repair_primary_fallback_objects: relay.repair_primary_fallback_objects,
            primary_lane_objects_succeeded: relay.primary.objects_succeeded,
            primary_lane_objects_failed: relay.primary.objects_failed,
            primary_lane_state: primary.as_str(),
            secondary_lane_objects_succeeded: relay.secondary.objects_succeeded,
            secondary_lane_objects_failed: relay.secondary.objects_failed,
            secondary_lane_state: secondary.as_str(),
            surviving_lane_objects: relay.surviving_lane_objects,
            all_lanes_failed_objects: relay.all_lanes_failed_objects,
            expired_objects: relay.expired_objects,
            expired_symbols: relay.expired_symbols,
            deadline_hits: relay.deadline_hits,
            deadline_misses: relay.deadline_misses,
            last_deadline_unix_us: deadline,
            last_deadline_headroom_us: match deadline {
                Some(deadline) => Some(
                    deadline.saturating_sub(saturating_mul_u64(now_ms, 1_000)),
                ),
                None => None,
            },
            stages: relay_stages(&self.relay_histograms),
        }
    }

    fn fmp4_snapshot(&self, now_ms: u64) -> (r: Fmp4RuntimeSnapshot)
        ensures
            r@ == self@.fmp4_report(now_ms),
    {
        let fmp4 = self.counters.fmp4;
        Fmp4RuntimeSnapshot {
            parts: fmp4.parts,
            bytes: fmp4.bytes,
            init_bytes: fmp4.init_bytes,
            publish_errors: fmp4.publish_errors,
            last_publish_unix_ms: nonzero_unix_ms(fmp4.last_publish_unix_ms),
            last_publish_age_ms: age_from_ms(now_ms, fmp4.last_publish_unix_ms),
            video_codec: if fmp4.video_width > 0 {
                Some("h264")
            } else {
                None
            },
            video_width: nonzero_u16(fmp4.video_width),
            video_height: nonzero_u16(fmp4.video_height),
            video_parts: fmp4.video_parts,
            video_access_units: fmp4.video_access_units,
            audio_codec: if fmp4.audio_parts > 0 {
                Some("aac")
            } else {
                None
            },
            audio_parts: fmp4.audio_parts,
            audio_access_units: fmp4.audio_access_units,
        }
    }

    /// Reports everything at a moment.
    pub fn snapshot(&self, now_ms: u64) -> (r: IngestRuntimeSnapshot)
        ensures
            r@ == self@.report(now_ms),
    {
        let counters = self.counters;
        IngestRuntimeSnapshot {
            raw_http: RawHttpRuntimeSnapshot {
                requests: counters.raw_http.requests,
                chunks: counters.raw_http.chunks,
                bytes: counters.raw_http.bytes,
                datagrams: counters.raw_http.datagrams,
                last_seen_unix_ms: nonzero_unix_ms(counters.raw_http.last_unix_ms),
                last_seen_age_ms: age_from_ms(now_ms, counters.raw_http.last_unix_ms),
            },
            media_access_units: MediaRuntimeSnapshot {
                requests: counters.media.requests,
                payload_bytes: counters.media.payload_bytes,
                datagrams: counters.media.datagrams,
                last_seen_unix_ms: nonzero_unix_ms(counters.media.last_unix_ms),
                last_seen_age_ms: age_from_ms(now_ms, counters.media.last_unix_ms),
            },
            mesh_forward: self.mesh_snapshot(now_ms),
            relay_session: self.relay_snapshot(now_ms),
            mpeg_ts: MpegTsRuntimeSnapshot {
                slots: counters.mpeg_ts.slots,
                bytes: counters.mpeg_ts.bytes,
                last_seen_unix_ms: nonzero_unix_ms(counters.mpeg_ts.last_unix_ms),
                last_seen_age_ms: age_from_ms(now_ms, counters.mpeg_ts.last_unix_ms),
                continuity_errors: counters.mpeg_ts.continuity_errors,
                continuity_dropped_bytes: counters.mpeg_ts.continuity_dropped_bytes,
                payload_drops: counters.mpeg_ts.payload_drops,
                payload_drop_bytes: counters.mpeg_ts.payload_drop_bytes,
                last_error_unix_ms: nonzero_unix_ms(counters.mpeg_ts.last_error_unix_ms),
                last_error_age_ms: age_from_ms(now_ms, counters.mpeg_ts.last_error_unix_ms),
            },
            rtmp: RtmpRuntimeSnapshot {
                access_units: counters.rtmp.access_units,
                bytes: counters.rtmp.bytes,
                last_seen_unix_ms: nonzero_unix_ms(counters.rtmp.last_unix_ms),
                last_seen_age_ms: age_from_ms(now_ms, counters.rtmp.last_unix_ms),
            },
            fmp4: self.fmp4_snapshot(now_ms),
            hls: HlsRuntimeSnapshot {
                responses_total: counters.hls.responses_total,
                response_errors: counters.hls.response_errors,
                response_not_found: counters.hls.response_not_found,
                last_response_unix_ms: nonzero_unix_ms(counters.hls.last_response_unix_ms),
                last_response_age_ms: age_from_ms(now_ms, counters.hls.last_response_unix_ms),
                recent_responses: self.recent_responses(),
            },
            ingest_sessions: IngestSessionsRuntimeSnapshot {
                active: count_active(&self.sessions),
                started: counters.sessions.started,
                ended: counters.sessions.ended,
                recent: recent_sessions(&self.sessions, now_ms),
            },
            streams: stream_snapshots(&self.streams, now_ms),
            protocols: protocol_snapshots(&self.protocols, &self.sessions, now_ms),
        }
    }
}

} // verus!
