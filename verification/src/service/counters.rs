//! The counters of the service.
use crate::service::histogram::{DurationHistogram, HistogramView};
use crate::service::lanes::RelayPipelineStage;
use vstd::prelude::*;

verus! {

/// Raw bytes over HTTP.
#[derive(Debug, Clone, Copy, PartialEq, Eq, Structural)]
pub struct RawHttpCounters {
    pub requests: u64,
    pub chunks: u64,
    pub bytes: u64,
    pub datagrams: u64,
    pub last_unix_ms: u64,
}

/// Media access units over HTTP.
#[derive(Debug, Clone, Copy, PartialEq, Eq, Structural)]
pub struct MediaCounters {
    pub requests: u64,
    pub payload_bytes: u64,
    pub datagrams: u64,
    pub last_unix_ms: u64,
}

/// Payloads forwarded to the mesh.
#[derive(Debug, Clone, Copy, PartialEq, Eq, Structural)]
pub struct MeshCounters {
    pub payloads: u64,
    pub payload_bytes: u64,
    pub datagrams: u64,
    pub datagram_bytes: u64,
    pub errors: u64,
    pub last_unix_ms: u64,
}

/// Relay datagrams of one role.
#[derive(Debug, Clone, Copy, PartialEq, Eq, Structural)]
pub struct RoleCounters {
    pub datagrams: u64,
    pub datagram_bytes: u64,
    pub errors: u64,
}

/// Objects on one relay lane.
#[derive(Debug, Clone, Copy, PartialEq, Eq, Structural)]
pub struct LaneCounters {
    pub objects_succeeded: u64,
    pub objects_failed: u64,
    pub last_success_unix_ms: u64,
    pub last_failure_unix_ms: u64,
}

/// Objects given to the relay session.
#[derive(Debug, Clone, Copy, PartialEq, Eq, Structural)]
pub struct RelayCounters {
    pub objects_sent: u64,
    pub encode_errors: u64,
    pub source: RoleCounters,
    pub repair: RoleCounters,
    pub repair_primary_fallback_objects: u64,
    pub primary: LaneCounters,
    pub secondary: LaneCounters,
    pub surviving_lane_objects: u64,
    pub all_lanes_failed_objects: u64,
    pub expired_objects: u64,
    pub expired_symbols: u64,
    pub deadline_hits: u64,
    pub deadline_misses: u64,
    pub last_deadline_unix_us: u64,
}

/// Slots of transport streams.
#[derive(Debug, Clone, Copy, PartialEq, Eq, Structural)]
pub struct MpegTsCounters {
    pub slots: u64,
    pub bytes: u64,
    pub last_unix_ms: u64,
    pub continuity_errors: u64,
    pub continuity_dropped_bytes: u64,
    pub payload_drops: u64,
    pub payload_drop_bytes: u64,
    pub last_error_unix_ms: u64,
}

/// Access units over RTMP.
#[derive(Debug, Clone, Copy, PartialEq, Eq, Structural)]
pub struct RtmpCounters {
    pub access_units: u64,
    pub bytes: u64,
    pub last_unix_ms: u64,
}

/// Published parts.
#[derive(Debug, Clone, Copy, PartialEq, Eq, Structural)]
pub struct Fmp4Counters {
    pub parts: u64,
    pub bytes: u64,
    pub init_bytes: u64,
    pub publish_errors: u64,
    pub last_publish_unix_ms: u64,
    pub video_width: u64,
    pub video_height: u64,
    pub video_parts: u64,
    pub video_access_units: u64,
    pub audio_parts: u64,
    pub audio_access_units: u64,
}

/// Answers to playlist and media requests.
#[derive(Debug, Clone, Copy, PartialEq, Eq, Structural)]
pub struct HlsCounters {
    pub responses_total: u64,
    pub response_errors: u64,
    pub response_not_found: u64,
    pub last_response_unix_ms: u64,
}

/// Sessions started and ended.
#[derive(Debug, Clone, Copy, PartialEq, Eq, Structural)]
pub struct SessionCounters {
    pub started: u64,
    pub ended: u64,
}

/// Everything that is counted by plain numbers.
#[derive(Debug, Clone, Copy, PartialEq, Eq, Structural)]
pub struct Counters {
    pub media_object_source_epoch: u64,
    pub raw_http: RawHttpCounters,
    pub media: MediaCounters,
    pub mesh_stream: MeshCounters,
    pub mesh_media: MeshCounters,
    pub relay: RelayCounters,
    pub mpeg_ts: MpegTsCounters,
    pub rtmp: RtmpCounters,
    pub fmp4: Fmp4Counters,
    pub hls: HlsCounters,
    pub sessions: SessionCounters,
}

/// Nothing counted.
pub open spec fn no_counters() -> Counters {
    Counters {
        media_object_source_epoch: 0,
        raw_http: RawHttpCounters { requests: 0, chunks: 0, bytes: 0, datagrams: 0, last_unix_ms: 0 },
        media: MediaCounters { requests: 0, payload_bytes: 0, datagrams: 0, last_unix_ms: 0 },
        mesh_stream: no_mesh(),
        mesh_media: no_mesh(),
        relay: RelayCounters {
            objects_sent: 0,
            encode_errors: 0,
            source: RoleCounters { datagrams: 0, datagram_bytes: 0, errors: 0 },
            repair: RoleCounters { datagrams: 0, datagram_bytes: 0, errors: 0 },
            repair_primary_fallback_objects: 0,
            primary: no_lane(),
            secondary: no_lane(),
            surviving_lane_objects: 0,
            all_lanes_failed_objects: 0,
            expired_objects: 0,
            expired_symbols: 0,
            deadline_hits: 0,
            deadline_misses: 0,
            last_deadline_unix_us: 0,
        },
        mpeg_ts: MpegTsCounters {
            slots: 0,
            bytes: 0,
            last_unix_ms: 0,
            continuity_errors: 0,
            continuity_dropped_bytes: 0,
            payload_drops: 0,
            payload_drop_bytes: 0,
            last_error_unix_ms: 0,
        },
        rtmp: RtmpCounters { access_units: 0, bytes: 0, last_unix_ms: 0 },
        fmp4: Fmp4Counters {
            parts: 0,
            bytes: 0,
            init_bytes: 0,
            publish_errors: 0,
            last_publish_unix_ms: 0,
            video_width: 0,
            video_height: 0,
            video_parts: 0,
            video_access_units: 0,
            audio_parts: 0,
            audio_access_units: 0,
        },
        hls: HlsCounters {
            responses_total: 0,
            response_errors: 0,
            response_not_found: 0,
            last_response_unix_ms: 0,
        },
        sessions: SessionCounters { started: 0, ended: 0 },
    }
}

/// Nothing forwarded.
pub open spec fn no_mesh() -> MeshCounters {
    MeshCounters {
        payloads: 0,
        payload_bytes: 0,
        datagrams: 0,
        datagram_bytes: 0,
        errors: 0,
        last_unix_ms: 0,
    }
}

/// Nothing on a lane.
pub open spec fn no_lane() -> LaneCounters {
    LaneCounters {
        objects_succeeded: 0,
        objects_failed: 0,
        last_success_unix_ms: 0,
        last_failure_unix_ms: 0,
    }
}

impl Counters {
    /// Nothing counted.
    pub fn new() -> (r: Self)
        ensures
            r == no_counters(),
    {
        let mesh = MeshCounters {
            payloads: 0,
            payload_bytes: 0,
            datagrams: 0,
            datagram_bytes: 0,
            errors: 0,
            last_unix_ms: 0,
        };
        let lane = LaneCounters {
            objects_succeeded: 0,
            objects_failed: 0,
            last_success_unix_ms: 0,
            last_failure_unix_ms: 0,
        };
        let role = RoleCounters { datagrams: 0, datagram_bytes: 0, errors: 0 };
        Counters {
            media_object_source_epoch: 0,
            raw_http: RawHttpCounters {
                requests: 0,
                chunks: 0,
                bytes: 0,
                datagrams: 0,
                last_unix_ms: 0,
            },
            media: MediaCounters { requests: 0, payload_bytes: 0, datagrams: 0, last_unix_ms: 0 },
            mesh_stream: mesh,
            mesh_media: mesh,
            relay: RelayCounters {
                objects_sent: 0,
                encode_errors: 0,
                source: role,
                repair: role,
                repair_primary_fallback_objects: 0,
                primary: lane,
                secondary: lane,
                surviving_lane_objects: 0,
                all_lanes_failed_objects: 0,
                expired_objects: 0,
                expired_symbols: 0,
                deadline_hits: 0,
                deadline_misses: 0,
                last_deadline_unix_us: 0,
            },
            mpeg_ts: MpegTsCounters {
                slots: 0,
                bytes: 0,
                last_unix_ms: 0,
                continuity_errors: 0,
                continuity_dropped_bytes: 0,
                payload_drops: 0,
                payload_drop_bytes: 0,
                last_error_unix_ms: 0,
            },
            rtmp: RtmpCounters { access_units: 0, bytes: 0, last_unix_ms: 0 },
            fmp4: Fmp4Counters {
                parts: 0,
                bytes: 0,
                init_bytes: 0,
                publish_errors: 0,
                last_publish_unix_ms: 0,
                video_width: 0,
                video_height: 0,
                video_parts: 0,
                video_access_units: 0,
                audio_parts: 0,
                audio_access_units: 0,
            },
            hls: HlsCounters {
                responses_total: 0,
                response_errors: 0,
                response_not_found: 0,
                last_response_unix_ms: 0,
            },
            sessions: SessionCounters { started: 0, ended: 0 },
        }
    }
}

/// How long forwarding a payload takes, in all and by stage.
#[derive(Debug, Clone, Copy)]
pub struct MeshHistograms {
    pub total: DurationHistogram,
    pub encode_wait: DurationHistogram,
    pub encode: DurationHistogram,
    pub send: DurationHistogram,
    pub telemetry: DurationHistogram,
}

/// What [`MeshHistograms`] hold.
pub struct MeshHistogramsView {
    pub total: HistogramView,
    pub encode_wait: HistogramView,
    pub encode: HistogramView,
    pub send: HistogramView,
    pub telemetry: HistogramView,
}

impl View for MeshHistograms {
    type V = MeshHistogramsView;

    open spec fn view(&self) -> MeshHistogramsView {
        MeshHistogramsView {
            total: self.total@,
            encode_wait: self.encode_wait@,
            encode: self.encode@,
            send: self.send@,
            telemetry: self.telemetry@,
        }
    }
}

/// The stages of forwarding a payload.
#[derive(Debug, Clone, Copy, PartialEq, Eq, Structural)]
pub enum MeshForwardStage {
    EncodeWait,
    Encode,
    Send,
    Telemetry,
}

impl MeshHistogramsView {
    /// Nothing measured.
    pub open spec fn empty() -> Self {
        MeshHistogramsView {
            total: HistogramView::empty(),
            encode_wait: HistogramView::empty(),
            encode: HistogramView::empty(),
            send: HistogramView::empty(),
            telemetry: HistogramView::empty(),
        }
    }

    /// The histograms with one more duration of a stage.
    pub open spec fn staged(self, stage: MeshForwardStage, duration_us: u64) -> Self {
        match stage {
            MeshForwardStage::EncodeWait => MeshHistogramsView {
                encode_wait: self.encode_wait.recorded(duration_us),
                ..self
            },
            MeshForwardStage::Encode => MeshHistogramsView {
                encode: self.encode.recorded(duration_us),
                ..self
            },
            MeshForwardStage::Send => MeshHistogramsView {
                send: self.send.recorded(duration_us),
                ..self
            },
            MeshForwardStage::Telemetry => MeshHistogramsView {
                telemetry: self.telemetry.recorded(duration_us),
                ..self
            },
        }
    }
}

impl MeshHistograms {
    /// Nothing measured.
    pub fn new() -> (r: Self)
        ensures
            r@ == MeshHistogramsView::empty(),
    {
        MeshHistograms {
            total: DurationHistogram::new(),
            encode_wait: DurationHistogram::new(),
            encode: DurationHistogram::new(),
            send: DurationHistogram::new(),
            telemetry: DurationHistogram::new(),
        }
    }

    /// Counts a duration of a stage.
    pub fn record_stage(&mut self, stage: MeshForwardStage, duration_us: u64)
        ensures
            final(self)@ == old(self)@.staged(stage, duration_us),
    {
        match stage {
            MeshForwardStage::EncodeWait => self.encode_wait.record(duration_us),
            MeshForwardStage::Encode => self.encode.record(duration_us),
            MeshForwardStage::Send => self.send.record(duration_us),
            MeshForwardStage::Telemetry => self.telemetry.record(duration_us),
        }
    }
}

/// How long relaying an object takes, in all and by stage.
#[derive(Debug, Clone, Copy)]
pub struct RelayHistograms {
    pub total: DurationHistogram,
    pub encode_wait: DurationHistogram,
    pub encode: DurationHistogram,
    pub schedule: DurationHistogram,
    pub primary_source_send: DurationHistogram,
    pub secondary_source_send: DurationHistogram,
    pub primary_repair_send: DurationHistogram,
    pub secondary_repair_send: DurationHistogram,
}

/// What [`RelayHistograms`] hold.
pub struct RelayHistogramsView {
    pub total: HistogramView,
    pub encode_wait: HistogramView,
    pub encode: HistogramView,
    pub schedule: HistogramView,
    pub primary_source_send: HistogramView,
    pub secondary_source_send: HistogramView,
    pub primary_repair_send: HistogramView,
    pub secondary_repair_send: HistogramView,
}

impl View for RelayHistograms {
    type V = RelayHistogramsView;

    open spec fn view(&self) -> RelayHistogramsView {
        RelayHistogramsView {
            total: self.total@,
            encode_wait: self.encode_wait@,
            encode: self.encode@,
            schedule: self.schedule@,
            primary_source_send: self.primary_source_send@,
            secondary_source_send: self.secondary_source_send@,
            primary_repair_send: self.primary_repair_send@,
            secondary_repair_send: self.secondary_repair_send@,
        }
    }
}

impl RelayHistogramsView {
    /// Nothing measured.
    pub open spec fn empty() -> Self {
        RelayHistogramsView {
            total: HistogramView::empty(),
            encode_wait: HistogramView::empty(),
            encode: HistogramView::empty(),
            schedule: HistogramView::empty(),
            primary_source_send: HistogramView::empty(),
            secondary_source_send: HistogramView::empty(),
            primary_repair_send: HistogramView::empty(),
            secondary_repair_send: HistogramView::empty(),
        }
    }

    /// The histograms with one more duration of a stage.
    pub open spec fn staged(self, stage: RelayPipelineStage, duration_us: u64) -> Self {
        match stage {
            RelayPipelineStage::Total => RelayHistogramsView {
                total: self.total.recorded(duration_us),
                ..self
            },
            RelayPipelineStage::EncodeWait => RelayHistogramsView {
                encode_wait: self.encode_wait.recorded(duration_us),
                ..self
            },
            RelayPipelineStage::Encode => RelayHistogramsView {
                encode: self.encode.recorded(duration_us),
                ..self
            },
            RelayPipelineStage::Schedule => RelayHistogramsView {
                schedule: self.schedule.recorded(duration_us),
                ..self
            },
            RelayPipelineStage::PrimarySourceSend => RelayHistogramsView {
                primary_source_send: self.primary_source_send.recorded(duration_us),
                ..self
            },
            RelayPipelineStage::SecondarySourceSend => RelayHistogramsView {
                secondary_source_send: self.secondary_source_send.recorded(duration_us),
                ..self
            },
            RelayPipelineStage::PrimaryRepairSend => RelayHistogramsView {
                primary_repair_send: self.primary_repair_send.recorded(duration_us),
                ..self
            },
            RelayPipelineStage::SecondaryRepairSend => RelayHistogramsView {
                secondary_repair_send: self.secondary_repair_send.recorded(duration_us),
                ..self
            },
        }
    }
}

impl RelayHistograms {
    /// Nothing measured.
    pub fn new() -> (r: Self)
        ensures
            r@ == RelayHistogramsView::empty(),
    {
        RelayHistograms {
            total: DurationHistogram::new(),
            encode_wait: DurationHistogram::new(),
            encode: DurationHistogram::new(),
            schedule: DurationHistogram::new(),
            primary_source_send: DurationHistogram::new(),
            secondary_source_send: DurationHistogram::new(),
            primary_repair_send: DurationHistogram::new(),
            secondary_repair_send: DurationHistogram::new(),
        }
    }

    /// Counts a duration of a stage.
    pub fn record_stage(&mut self, stage: RelayPipelineStage, duration_us: u64)
        ensures
            final(self)@ == old(self)@.staged(stage, duration_us),
    {
        match stage {
            RelayPipelineStage::Total => self.total.record(duration_us),
            RelayPipelineStage::EncodeWait => self.encode_wait.record(duration_us),
            RelayPipelineStage::Encode => self.encode.record(duration_us),
            RelayPipelineStage::Schedule => self.schedule.record(duration_us),
            RelayPipelineStage::PrimarySourceSend => self.primary_source_send.record(duration_us),
            RelayPipelineStage::SecondarySourceSend => self.secondary_source_send.record(
                duration_us,
            ),
            RelayPipelineStage::PrimaryRepairSend => self.primary_repair_send.record(duration_us),
            RelayPipelineStage::SecondaryRepairSend => self.secondary_repair_send.record(
                duration_us,
            ),
        }
    }
}

} // verus!
