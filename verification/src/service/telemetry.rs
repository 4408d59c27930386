//! What the service remembers of its own work.
use crate::arith::{cap_u64, wrapped_u64, wrapping_add_u64};
use crate::service::counters::{
    no_counters, Counters, Fmp4Counters, HlsCounters, LaneCounters, MediaCounters, MeshCounters,
    MeshForwardStage, MeshHistograms, MeshHistogramsView, MpegTsCounters, RawHttpCounters,
    RelayCounters, RelayHistograms, RelayHistogramsView, RoleCounters, RtmpCounters,
    SessionCounters,
};
use crate::service::events::{
    activity_view, alerted, alerts_view, push_activity, push_alert, push_response, remembered,
    responses_view, ActivityView, AlertView, ContribActivity, ContribAlert, ContribHlsResponse,
    HlsResponseView, CONTRIB_ACTIVITY_LIMIT, CONTRIB_ALERT_LIMIT, CONTRIB_HLS_RESPONSE_LIMIT,
};
use crate::service::lanes::{MediaDatagramRole, RelayCarrierPath, RelayPipelineStage};
use crate::service::sessions::{
    active_position, count_access_unit, count_body, join_session, joined, leave_session, left,
    one_active_each, pruned, sessions_view, with_access_unit, with_body, IngestSessionRecord, OriginView,
    SessionOrigin, SessionView,
};
use crate::service::streams::{
    get_stream, protocols_differ, record_protocol_unit, stream_record, streams_differ,
    update_stream_runtime, with_protocol_unit, with_stream, ContribStreamRuntimeRecord, ProtocolRuntimeRecord, ProtocolView,
};
use crate::fmp4_bridge::elementary::{MpegTsContinuityIssue, MpegTsPayloadDrop};
use crate::ranking::views;
use crate::text::{append_decimal, decimal, decimal_text, text_equal};
use std::collections::VecDeque;
use vstd::prelude::*;
use vstd::string::*;

verus! {

/// Everything that the service remembers of its own work.
#[derive(Debug)]
pub struct IngestTelemetry {
    pub counters: Counters,
    pub stream_histograms: MeshHistograms,
    pub media_histograms: MeshHistograms,
    pub relay_histograms: RelayHistograms,
    pub streams: Vec<ContribStreamRuntimeRecord>,
    pub protocols: Vec<ProtocolRuntimeRecord>,
    pub sessions: Vec<IngestSessionRecord>,
    pub recent_hls_responses: VecDeque<ContribHlsResponse>,
    pub recent_alerts: VecDeque<ContribAlert>,
    pub recent_activity: VecDeque<ContribActivity>,
}

/// What an [`IngestTelemetry`] holds.
pub struct TelemetryView {
    pub counters: Counters,
    pub stream_histograms: MeshHistogramsView,
    pub media_histograms: MeshHistogramsView,
    pub relay_histograms: RelayHistogramsView,
    pub streams: Seq<ContribStreamRuntimeRecord>,
    pub protocols: Seq<ProtocolView>,
    pub sessions: Seq<SessionView>,
    pub responses: Seq<HlsResponseView>,
    pub alerts: Seq<AlertView>,
    pub activity: Seq<ActivityView>,
}

impl View for IngestTelemetry {
    type V = TelemetryView;

    open spec fn view(&self) -> TelemetryView {
        TelemetryView {
            counters: self.counters,
            stream_histograms: self.stream_histograms@,
            media_histograms: self.media_histograms@,
            relay_histograms: self.relay_histograms@,
            streams: self.streams@,
            protocols: views(self.protocols@),
            sessions: sessions_view(self.sessions@),
            responses: responses_view(self.recent_hls_responses@),
            alerts: alerts_view(self.recent_alerts@),
            activity: activity_view(self.recent_activity@),
        }
    }
}

/// Whether the `count`th of a kind of event is worth an entry: the first three and every
/// `interval`th.
pub open spec fn sampled(count: u64, interval: u64) -> bool {
    count <= 3 || (interval != 0 && count % interval == 0)
}

/// Decides whether the `count`th of a kind of event is worth an entry.
pub fn should_sample_activity(count: u64, interval: u64) -> (r: bool)
    ensures
        r == sampled(count, interval),
{
    count <= 3 || (interval != 0 && count % interval == 0)
}

/// Whether payloads of a kind are counted as media; all others are counted as streams.
pub open spec fn is_media(kind: Seq<char>) -> bool {
    kind == "media"@
}

impl TelemetryView {
    /// How long forwarding a payload took, counted.
    pub open spec fn forward_timed(self, kind: Seq<char>, duration_us: u64) -> TelemetryView {
        if is_media(kind) {
            TelemetryView {
                media_histograms: MeshHistogramsView {
                    total: self.media_histograms.total.recorded(duration_us),
                    ..self.media_histograms
                },
                ..self
            }
        } else {
            TelemetryView {
                stream_histograms: MeshHistogramsView {
                    total: self.stream_histograms.total.recorded(duration_us),
                    ..self.stream_histograms
                },
                ..self
            }
        }
    }

    /// How long a stage of forwarding took, counted where the stage is one that is measured.
    pub open spec fn forward_staged(
        self,
        kind: Seq<char>,
        stage: Seq<char>,
        duration_us: u64,
    ) -> TelemetryView {
        match stage_named(stage) {
            Some(stage) => if is_media(kind) {
                TelemetryView {
                    media_histograms: self.media_histograms.staged(stage, duration_us),
                    ..self
                }
            } else {
                TelemetryView {
                    stream_histograms: self.stream_histograms.staged(stage, duration_us),
                    ..self
                }
            },
            None => self,
        }
    }

    /// Nothing remembered.
    pub open spec fn empty() -> Self {
        TelemetryView {
            counters: no_counters(),
            stream_histograms: MeshHistogramsView::empty(),
            media_histograms: MeshHistogramsView::empty(),
            relay_histograms: RelayHistogramsView::empty(),
            streams: Seq::empty(),
            protocols: Seq::empty(),
            sessions: Seq::empty(),
            responses: Seq::empty(),
            alerts: Seq::empty(),
            activity: Seq::empty(),
        }
    }

    /// With one more activity.
    pub open spec fn noted(self, activity: ActivityView) -> Self {
        TelemetryView {
            activity: remembered(self.activity, activity, CONTRIB_ACTIVITY_LIMIT as nat),
            ..self
        }
    }

    /// With one more activity, where it is worth an entry.
    pub open spec fn noted_if(self, worth: bool, activity: ActivityView) -> Self {
        if worth {
            self.noted(activity)
        } else {
            self
        }
    }

    /// With one more alert.
    pub open spec fn alerted(self, alert: AlertView) -> Self {
        TelemetryView { alerts: alerted(self.alerts, alert), ..self }
    }

    /// With a stream's record.
    pub open spec fn with_stream(self, record: ContribStreamRuntimeRecord) -> Self {
        TelemetryView { streams: with_stream(self.streams, record), ..self }
    }

    /// With one more unit of input for a stream.
    pub open spec fn with_input(self, stream_id: u64, bytes: u64, now_ms: u64) -> Self {
        let record = stream_record(self.streams, stream_id);
        self.with_stream(
            ContribStreamRuntimeRecord {
                input_units: cap_u64(record.input_units + 1) as u64,
                input_bytes: cap_u64(record.input_bytes + bytes) as u64,
                last_input_unix_ms: Some(now_ms),
                ..record
            },
        )
    }

    /// With counters.
    pub open spec fn with_counters(self, counters: Counters) -> Self {
        TelemetryView { counters, ..self }
    }

    /// With relay counters.
    pub open spec fn with_relay(self, relay: RelayCounters) -> Self {
        self.with_counters(Counters { relay, ..self.counters })
    }

    /// After a relay datagram was sent.
    pub open spec fn relay_sent(self, role: MediaDatagramRole, wire_bytes: u64) -> Self {
        let relay = self.counters.relay;
        match role {
            MediaDatagramRole::Source => self.with_relay(
                RelayCounters { source: sent(relay.source, wire_bytes), ..relay },
            ),
            MediaDatagramRole::Repair => self.with_relay(
                RelayCounters { repair: sent(relay.repair, wire_bytes), ..relay },
            ),
        }
    }

    /// After a relay datagram could not be sent.
    pub open spec fn relay_send_failed(self, role: MediaDatagramRole) -> Self {
        let relay = self.counters.relay;
        match role {
            MediaDatagramRole::Source => self.with_relay(
                RelayCounters { source: failed(relay.source), ..relay },
            ),
            MediaDatagramRole::Repair => self.with_relay(
                RelayCounters { repair: failed(relay.repair), ..relay },
            ),
        }
    }

    /// After an object's fate on a lane is known.
    pub open spec fn lane_settled(self, path: RelayCarrierPath, succeeded: bool, now_ms: u64) -> Self {
        let relay = self.counters.relay;
        match path {
            RelayCarrierPath::Primary => self.with_relay(
                RelayCounters { primary: settled(relay.primary, succeeded, now_ms), ..relay },
            ),
            RelayCarrierPath::Secondary => self.with_relay(
                RelayCounters { secondary: settled(relay.secondary, succeeded, now_ms), ..relay },
            ),
        }
    }

    /// After a request brought raw bytes.
    pub open spec fn raw_http(
        self,
        stream_id: u64,
        chunks: u64,
        bytes: u64,
        datagrams: u64,
        now_ms: u64,
    ) -> Self {
        let before = self.counters.raw_http;
        let requests = wrapped_u64(before.requests + 1);
        self.with_counters(
            Counters {
                raw_http: RawHttpCounters {
                    requests,
                    chunks: wrapped_u64(before.chunks + chunks),
                    bytes: wrapped_u64(before.bytes + bytes),
                    datagrams: wrapped_u64(before.datagrams + datagrams),
                    last_unix_ms: now_ms,
                },
                ..self.counters
            },
        ).with_input(stream_id, bytes, now_ms).noted(
            ActivityView {
                level: "info"@,
                code: "raw_http_ingest"@,
                message: "Raw HTTP ingest request "@ + decimal(requests as nat) + " accepted "@
                    + decimal(chunks as nat) + " chunks for stream "@ + decimal(stream_id as nat)
                    + "."@,
                stream_id_text: Some(decimal(stream_id as nat)),
                bytes: Some(bytes),
                datagrams: Some(datagrams),
                sequence: None,
                seen_unix_ms: now_ms,
            },
        )
    }

    /// After a request brought a media access unit.
    pub open spec fn media_access_unit(
        self,
        stream_id: u64,
        payload_bytes: u64,
        datagrams: u64,
        now_ms: u64,
    ) -> Self {
        let before = self.counters.media;
        let requests = wrapped_u64(before.requests + 1);
        self.with_counters(
            Counters {
                media: MediaCounters {
                    requests,
                    payload_bytes: wrapped_u64(before.payload_bytes + payload_bytes),
                    datagrams: wrapped_u64(before.datagrams + datagrams),
                    last_unix_ms: now_ms,
                },
                ..self.counters
            },
        ).with_input(stream_id, payload_bytes, now_ms).noted_if(
            sampled(requests, 100),
            ActivityView {
                level: "info"@,
                code: "media_access_unit"@,
                message: "Forwarded media access unit "@ + decimal(requests as nat)
                    + " for stream "@ + decimal(stream_id as nat) + "."@,
                stream_id_text: Some(decimal(stream_id as nat)),
                bytes: Some(payload_bytes),
                datagrams: Some(datagrams),
                sequence: None,
                seen_unix_ms: now_ms,
            },
        )
    }

    /// With the counters of one kind of forwarding.
    pub open spec fn with_mesh(self, media: bool, mesh: MeshCounters) -> Self {
        if media {
            self.with_counters(Counters { mesh_media: mesh, ..self.counters })
        } else {
            self.with_counters(Counters { mesh_stream: mesh, ..self.counters })
        }
    }

    /// The counters of one kind of forwarding.
    pub open spec fn mesh(self, media: bool) -> MeshCounters {
        if media {
            self.counters.mesh_media
        } else {
            self.counters.mesh_stream
        }
    }

    /// After a payload was forwarded to the mesh.
    pub open spec fn mesh_forwarded(
        self,
        kind: Seq<char>,
        stream_id: u64,
        target: Seq<char>,
        payload_bytes: u64,
        datagrams: u64,
        datagram_bytes: u64,
        now_ms: u64,
    ) -> Self {
        let before = self.mesh(is_media(kind));
        let payloads = wrapped_u64(before.payloads + 1);
        let record = stream_record(self.streams, stream_id);
        self.with_mesh(
            is_media(kind),
            MeshCounters {
                payloads,
                payload_bytes: wrapped_u64(before.payload_bytes + payload_bytes),
                datagrams: wrapped_u64(before.datagrams + datagrams),
                datagram_bytes: wrapped_u64(before.datagram_bytes + datagram_bytes),
                last_unix_ms: now_ms,
                ..before
            },
        ).with_stream(
            ContribStreamRuntimeRecord {
                mesh_payloads: cap_u64(record.mesh_payloads + 1) as u64,
                mesh_payload_bytes: cap_u64(record.mesh_payload_bytes + payload_bytes) as u64,
                mesh_datagrams: cap_u64(record.mesh_datagrams + datagrams) as u64,
                mesh_datagram_bytes: cap_u64(record.mesh_datagram_bytes + datagram_bytes) as u64,
                last_mesh_forward_unix_ms: Some(now_ms),
                ..record
            },
        ).noted_if(
            sampled(payloads, 100),
            ActivityView {
                level: "info"@,
                code: "mesh_forward"@,
                message: "Forwarded "@ + kind + " payload "@ + decimal(payloads as nat)
                    + " for stream "@ + decimal(stream_id as nat) + " to mesh target "@ + target
                    + "."@,
                stream_id_text: Some(decimal(stream_id as nat)),
                bytes: Some(payload_bytes),
                datagrams: Some(datagrams),
                sequence: Some(payloads),
                seen_unix_ms: now_ms,
            },
        )
    }

    /// After a payload could not be forwarded to the mesh.
    pub open spec fn mesh_failed(
        self,
        kind: Seq<char>,
        stream_id: u64,
        target: Seq<char>,
        error: Seq<char>,
        now_ms: u64,
    ) -> Self {
        let before = self.mesh(is_media(kind));
        let errors = wrapped_u64(before.errors + 1);
        let record = stream_record(self.streams, stream_id);
        let message = "Failed to forward "@ + kind + " payload for stream "@ + decimal(
            stream_id as nat,
        ) + " to mesh target "@ + target + ": "@ + error;
        self.with_mesh(is_media(kind), MeshCounters { errors, ..before }).with_stream(
            ContribStreamRuntimeRecord {
                mesh_errors: cap_u64(record.mesh_errors + 1) as u64,
                last_mesh_forward_unix_ms: Some(now_ms),
                ..record
            },
        ).alerted(
            AlertView {
                level: "warn"@,
                code: "mesh_forward_error"@,
                message,
                count: errors,
                last_seen_unix_ms: Some(now_ms),
                stream_id_text: Some(decimal(stream_id as nat)),
                protocol: None,
            },
        ).noted(
            ActivityView {
                level: "warn"@,
                code: "mesh_forward_error"@,
                message,
                stream_id_text: Some(decimal(stream_id as nat)),
                bytes: None,
                datagrams: None,
                sequence: Some(errors),
                seen_unix_ms: now_ms,
            },
        )
    }

    /// With one more unit of a protocol.
    pub open spec fn with_protocol_unit(self, protocol: Seq<char>, bytes: u64, now_ms: u64) -> Self {
        TelemetryView {
            protocols: with_protocol_unit(self.protocols, protocol, bytes, now_ms),
            ..self
        }
    }

    /// After a slot of a transport stream was read.
    pub open spec fn mpeg_ts_slot(
        self,
        protocol: Seq<char>,
        stream_id: u64,
        bytes: u64,
        now_ms: u64,
    ) -> Self {
        let before = self.counters.mpeg_ts;
        let slots = wrapped_u64(before.slots + 1);
        self.with_counters(
            Counters {
                mpeg_ts: MpegTsCounters {
                    slots,
                    bytes: wrapped_u64(before.bytes + bytes),
                    last_unix_ms: now_ms,
                    ..before
                },
                ..self.counters
            },
        ).with_protocol_unit(protocol, bytes, now_ms).with_input(stream_id, bytes, now_ms).noted_if(
            sampled(slots, 25),
            ActivityView {
                level: "info"@,
                code: "mpeg_ts_slot"@,
                message: "Read MPEG-TS slot "@ + decimal(slots as nat) + " from "@ + protocol
                    + " for stream "@ + decimal(stream_id as nat) + "."@,
                stream_id_text: Some(decimal(stream_id as nat)),
                bytes: Some(bytes),
                datagrams: None,
                sequence: Some(slots),
                seen_unix_ms: now_ms,
            },
        )
    }

    /// After a gap in a transport stream.
    pub open spec fn continuity_issue(
        self,
        stream_type: Seq<char>,
        dropped: u64,
        now_ms: u64,
    ) -> Self {
        let before = self.counters.mpeg_ts;
        let errors = wrapped_u64(before.continuity_errors + 1);
        self.with_counters(
            Counters {
                mpeg_ts: MpegTsCounters {
                    continuity_errors: errors,
                    continuity_dropped_bytes: wrapped_u64(
                        before.continuity_dropped_bytes + dropped,
                    ),
                    last_error_unix_ms: now_ms,
                    ..before
                },
                ..self.counters
            },
        ).noted_if(
            sampled(errors, 25),
            ActivityView {
                level: "warn"@,
                code: "mpeg_ts_continuity_error"@,
                message: "MPEG-TS continuity error "@ + decimal(errors as nat) + " on "@
                    + stream_type + " dropped "@ + decimal(dropped as nat)
                    + " partial payload bytes."@,
                stream_id_text: None,
                bytes: Some(dropped),
                datagrams: None,
                sequence: Some(errors),
                seen_unix_ms: now_ms,
            },
        )
    }

    /// After a payload of a transport stream grew too large.
    pub open spec fn payload_drop(self, stream_type: Seq<char>, dropped: u64, now_ms: u64) -> Self {
        let before = self.counters.mpeg_ts;
        let drops = wrapped_u64(before.payload_drops + 1);
        self.with_counters(
            Counters {
                mpeg_ts: MpegTsCounters {
                    payload_drops: drops,
                    payload_drop_bytes: wrapped_u64(before.payload_drop_bytes + dropped),
                    last_error_unix_ms: now_ms,
                    ..before
                },
                ..self.counters
            },
        ).noted_if(
            sampled(drops, 25),
            ActivityView {
                level: "warn"@,
                code: "mpeg_ts_payload_drop"@,
                message: "Dropped oversized MPEG-TS "@ + stream_type + " PES payload of "@
                    + decimal(dropped as nat) + " bytes."@,
                stream_id_text: None,
                bytes: Some(dropped),
                datagrams: None,
                sequence: Some(drops),
                seen_unix_ms: now_ms,
            },
        )
    }

    /// After an access unit over RTMP.
    pub open spec fn rtmp_access_unit(self, stream_id: u64, bytes: u64, now_ms: u64) -> Self {
        let before = self.counters.rtmp;
        let access_units = wrapped_u64(before.access_units + 1);
        self.with_counters(
            Counters {
                rtmp: RtmpCounters {
                    access_units,
                    bytes: wrapped_u64(before.bytes + bytes),
                    last_unix_ms: now_ms,
                },
                ..self.counters
            },
        ).with_protocol_unit("rtmp"@, bytes, now_ms).with_input(stream_id, bytes, now_ms).noted_if(
            sampled(access_units, 100),
            ActivityView {
                level: "info"@,
                code: "rtmp_access_unit"@,
                message: "Forwarded RTMP access unit "@ + decimal(access_units as nat)
                    + " for stream "@ + decimal(stream_id as nat) + "."@,
                stream_id_text: Some(decimal(stream_id as nat)),
                bytes: Some(bytes),
                datagrams: None,
                sequence: Some(access_units),
                seen_unix_ms: now_ms,
            },
        )
    }

    /// After a part was published.
    pub open spec fn fmp4_part(
        self,
        stream_id: u64,
        stream_idx: usize,
        sequence: u64,
        bytes: u64,
        init_bytes: u64,
        now_ms: u64,
    ) -> Self {
        let before = self.counters.fmp4;
        let parts = wrapped_u64(before.parts + 1);
        let record = stream_record(self.streams, stream_id);
        self.with_counters(
            Counters {
                fmp4: Fmp4Counters {
                    parts,
                    bytes: wrapped_u64(before.bytes + bytes),
                    init_bytes: wrapped_u64(before.init_bytes + init_bytes),
                    last_publish_unix_ms: now_ms,
                    ..before
                },
                ..self.counters
            },
        ).with_stream(
            ContribStreamRuntimeRecord {
                fmp4_parts: cap_u64(record.fmp4_parts + 1) as u64,
                fmp4_bytes: cap_u64(record.fmp4_bytes + bytes) as u64,
                fmp4_init_bytes: cap_u64(record.fmp4_init_bytes + init_bytes) as u64,
                latest_fmp4_sequence: Some(sequence),
                last_fmp4_unix_ms: Some(now_ms),
                ..record
            },
        ).noted_if(
            sampled(parts, 25),
            ActivityView {
                level: "info"@,
                code: "fmp4_part_published"@,
                message: "Published fMP4 part "@ + decimal(sequence as nat) + " for stream "@
                    + decimal(stream_id as nat) + " idx "@ + decimal(stream_idx as nat) + "."@,
                stream_id_text: Some(decimal(stream_id as nat)),
                bytes: Some(bytes),
                datagrams: None,
                sequence: Some(sequence),
                seen_unix_ms: now_ms,
            },
        )
    }

    /// After a part with tracks was published.
    pub open spec fn fmp4_tracks(
        self,
        stream_id: u64,
        sequence: u64,
        dimensions: Option<(u16, u16)>,
        video_units: u64,
        audio_units: u64,
    ) -> Self {
        let before = self.counters.fmp4;
        let record = stream_record(self.streams, stream_id);
        self.with_counters(
            Counters {
                fmp4: Fmp4Counters {
                    video_width: match dimensions {
                        Some((width, _)) => width as u64,
                        None => before.video_width,
                    },
                    video_height: match dimensions {
                        Some((_, height)) => height as u64,
                        None => before.video_height,
                    },
                    video_parts: if video_units > 0 {
                        wrapped_u64(before.video_parts + 1)
                    } else {
                        before.video_parts
                    },
                    video_access_units: wrapped_u64(before.video_access_units + video_units),
                    audio_parts: if audio_units > 0 {
                        wrapped_u64(before.audio_parts + 1)
                    } else {
                        before.audio_parts
                    },
                    audio_access_units: wrapped_u64(before.audio_access_units + audio_units),
                    ..before
                },
                ..self.counters
            },
        ).with_stream(
            ContribStreamRuntimeRecord {
                has_video: record.has_video || video_units > 0,
                video_width: match dimensions {
                    Some((width, _)) => if video_units > 0 {
                        Some(width)
                    } else {
                        record.video_width
                    },
                    None => record.video_width,
                },
                video_height: match dimensions {
                    Some((_, height)) => if video_units > 0 {
                        Some(height)
                    } else {
                        record.video_height
                    },
                    None => record.video_height,
                },
                video_parts: if video_units > 0 {
                    cap_u64(record.video_parts + 1) as u64
                } else {
                    record.video_parts
                },
                video_access_units: cap_u64(record.video_access_units + video_units) as u64,
                has_audio: record.has_audio || audio_units > 0,
                audio_parts: if audio_units > 0 {
                    cap_u64(record.audio_parts + 1) as u64
                } else {
                    record.audio_parts
                },
                audio_access_units: cap_u64(record.audio_access_units + audio_units) as u64,
                latest_fmp4_sequence: Some(sequence),
                ..record
            },
        )
    }

    /// After a part could not be published.
    pub open spec fn fmp4_failed(
        self,
        stream_id: u64,
        stream_idx: usize,
        sequence: u64,
        error: Seq<char>,
        now_ms: u64,
    ) -> Self {
        let before = self.counters.fmp4;
        let record = stream_record(self.streams, stream_id);
        let message = "Failed to publish fMP4 part "@ + decimal(sequence as nat) + " for stream "@
            + decimal(stream_id as nat) + " idx "@ + decimal(stream_idx as nat) + ": "@ + error;
        self.with_counters(
            Counters {
                fmp4: Fmp4Counters {
                    publish_errors: wrapped_u64(before.publish_errors + 1),
                    ..before
                },
                ..self.counters
            },
        ).with_stream(
            ContribStreamRuntimeRecord {
                fmp4_publish_errors: cap_u64(record.fmp4_publish_errors + 1) as u64,
                latest_fmp4_sequence: Some(sequence),
                last_fmp4_unix_ms: Some(now_ms),
                ..record
            },
        ).alerted(
            AlertView {
                level: "warn"@,
                code: "fmp4_publish_error"@,
                message,
                count: 1,
                last_seen_unix_ms: Some(now_ms),
                stream_id_text: Some(decimal(stream_id as nat)),
                protocol: None,
            },
        ).noted(
            ActivityView {
                level: "warn"@,
                code: "fmp4_publish_error"@,
                message,
                stream_id_text: Some(decimal(stream_id as nat)),
                bytes: None,
                datagrams: None,
                sequence: Some(sequence),
                seen_unix_ms: now_ms,
            },
        )
    }

    /// After a playlist or media request was answered.
    pub open spec fn hls_response(self, response: HlsResponseView) -> Self {
        let before = self.counters.hls;
        let responses = wrapped_u64(before.responses_total + 1);
        let is_error = 400 <= response.status < 600;
        let counted = self.with_counters(
            Counters {
                hls: HlsCounters {
                    responses_total: responses,
                    response_errors: if is_error {
                        wrapped_u64(before.response_errors + 1)
                    } else {
                        before.response_errors
                    },
                    response_not_found: if response.status == 404 {
                        wrapped_u64(before.response_not_found + 1)
                    } else {
                        before.response_not_found
                    },
                    last_response_unix_ms: response.unix_ms,
                },
                ..self.counters
            },
        ).noted_if(
            is_error,
            ActivityView {
                level: if response.status >= 500 {
                    "error"@
                } else {
                    "warn"@
                },
                code: "hls_response_error"@,
                message: "HLS request "@ + response.method + " "@ + response.path
                    + " returned HTTP "@ + decimal(response.status as nat) + "."@,
                stream_id_text: None,
                bytes: Some(response.bytes),
                datagrams: None,
                sequence: Some(responses),
                seen_unix_ms: response.unix_ms,
            },
        );
        TelemetryView {
            responses: remembered(self.responses, response, CONTRIB_HLS_RESPONSE_LIMIT as nat),
            ..counted
        }
    }

    /// Once a contributor is known to be there.
    pub open spec fn session_joined(
        self,
        protocol: Seq<char>,
        stream_id: u64,
        origin: OriginView,
        now_ms: u64,
    ) -> Self {
        let sequence = wrapped_u64(self.counters.sessions.started + 1);
        let starts = active_position(self.sessions, protocol, stream_id, 0) is None;
        let listed = TelemetryView {
            sessions: pruned(
                joined(self.sessions, sequence, protocol, stream_id, origin, now_ms),
            ),
            ..self
        };
        if starts {
            listed.with_counters(
                Counters {
                    sessions: SessionCounters { started: sequence, ..self.counters.sessions },
                    ..self.counters
                },
            ).noted(
                ActivityView {
                    level: "info"@,
                    code: "ingest_session_started"@,
                    message: protocol + " ingest session "@ + decimal(sequence as nat)
                        + " started for stream "@ + decimal(stream_id as nat) + "."@,
                    stream_id_text: Some(decimal(stream_id as nat)),
                    bytes: None,
                    datagrams: None,
                    sequence: Some(sequence),
                    seen_unix_ms: now_ms,
                },
            )
        } else {
            listed
        }
    }

    /// Once a contributor is known to have left.
    pub open spec fn session_left(
        self,
        protocol: Seq<char>,
        stream_id: u64,
        reason: Seq<char>,
        now_ms: u64,
    ) -> Self {
        let ended = wrapped_u64(self.counters.sessions.ended + 1);
        let was_active = active_position(self.sessions, protocol, stream_id, 0) is Some;
        let listed = TelemetryView {
            sessions: pruned(left(self.sessions, protocol, stream_id, reason, now_ms)),
            ..self
        };
        if was_active {
            listed.with_counters(
                Counters {
                    sessions: SessionCounters { ended, ..self.counters.sessions },
                    ..self.counters
                },
            ).noted(
                ActivityView {
                    level: "info"@,
                    code: "ingest_session_ended"@,
                    message: protocol + " ingest session ended for stream "@ + decimal(
                        stream_id as nat,
                    ) + ": "@ + reason + "."@,
                    stream_id_text: Some(decimal(stream_id as nat)),
                    bytes: None,
                    datagrams: None,
                    sequence: Some(ended),
                    seen_unix_ms: now_ms,
                },
            )
        } else {
            listed
        }
    }
}

/// A role's counters after a datagram was sent.
pub open spec fn sent(role: RoleCounters, wire_bytes: u64) -> RoleCounters {
    RoleCounters {
        datagrams: wrapped_u64(role.datagrams + 1),
        datagram_bytes: wrapped_u64(role.datagram_bytes + wire_bytes),
        ..role
    }
}

/// A role's counters after a datagram could not be sent.
pub open spec fn failed(role: RoleCounters) -> RoleCounters {
    RoleCounters { errors: wrapped_u64(role.errors + 1), ..role }
}

/// A lane's counters after an object's fate on it is known.
pub open spec fn settled(lane: LaneCounters, succeeded: bool, now_ms: u64) -> LaneCounters {
    if succeeded {
        LaneCounters {
            objects_succeeded: wrapped_u64(lane.objects_succeeded + 1),
            last_success_unix_ms: now_ms,
            ..lane
        }
    } else {
        LaneCounters {
            objects_failed: wrapped_u64(lane.objects_failed + 1),
            last_failure_unix_ms: now_ms,
            ..lane
        }
    }
}

impl IngestTelemetry {
    /// The lists of recent events keep within their limits, no stream or protocol is listed twice,
    /// and no contributor has two active sessions for one protocol and stream.
    pub open spec fn wf(&self) -> bool {
        &&& streams_differ(self@.streams)
        &&& protocols_differ(self@.protocols)
        &&& one_active_each(self@.sessions)
        &&& self.recent_activity@.len() <= CONTRIB_ACTIVITY_LIMIT
        &&& self.recent_alerts@.len() <= CONTRIB_ALERT_LIMIT
        &&& self.recent_hls_responses@.len() <= CONTRIB_HLS_RESPONSE_LIMIT
    }

    /// Nothing remembered.
    pub fn new() -> (r: Self)
        ensures
            r@ == TelemetryView::empty(),
            r.wf(),
    {
        let r = IngestTelemetry {
            counters: Counters::new(),
            stream_histograms: MeshHistograms::new(),
            media_histograms: MeshHistograms::new(),
            relay_histograms: RelayHistograms::new(),
            streams: Vec::new(),
            protocols: Vec::new(),
            sessions: Vec::new(),
            recent_hls_responses: VecDeque::new(),
            recent_alerts: VecDeque::new(),
            recent_activity: VecDeque::new(),
        };
        assert(r@.streams =~= Seq::empty());
        assert(r@.protocols =~= Seq::empty());
        assert(r@.sessions =~= Seq::empty());
        assert(r@.responses =~= Seq::empty());
        assert(r@.alerts =~= Seq::empty());
        assert(r@.activity =~= Seq::empty());
        proof {
            reveal(streams_differ);
            reveal(protocols_differ);
            reveal(one_active_each);
        }
        r
    }

    /// Remembers an activity.
    pub fn push_activity(&mut self, activity: ContribActivity)
        requires
            old(self).wf(),
        ensures
            final(self)@ == old(self)@.noted(activity@),
            final(self).wf(),
    {
        push_activity(&mut self.recent_activity, activity);
    }

    /// Remembers an alert.
    pub fn push_alert(&mut self, alert: ContribAlert)
        requires
            old(self).wf(),
        ensures
            final(self)@ == old(self)@.alerted(alert@),
            final(self).wf(),
    {
        push_alert(&mut self.recent_alerts, alert);
    }

    fn record_input(&mut self, stream_id: u64, bytes: u64, now_ms: u64)
        ensures
            final(self)@ == old(self)@.with_input(stream_id, bytes, now_ms),
            old(self).wf() ==> final(self).wf(),
    {
        let mut record = get_stream(&self.streams, stream_id);
        record.input_units = record.input_units.saturating_add(1);
        record.input_bytes = record.input_bytes.saturating_add(bytes);
        record.last_input_unix_ms = Some(now_ms);
        update_stream_runtime(&mut self.streams, record);
    }

    /// Counts a relay datagram that was sent.
    pub fn record_relay_session_send_success(&mut self, role: MediaDatagramRole, wire_bytes: u64)
        ensures
            final(self)@ == old(self)@.relay_sent(role, wire_bytes),
            old(self).wf() ==> final(self).wf(),
    {
        let mut relay = self.counters.relay;
        match role {
            MediaDatagramRole::Source => {
                relay.source.datagrams = wrapping_add_u64(relay.source.datagrams, 1);
                relay.source.datagram_bytes = wrapping_add_u64(
                    relay.source.datagram_bytes,
                    wire_bytes,
                );
            },
            MediaDatagramRole::Repair => {
                relay.repair.datagrams = wrapping_add_u64(relay.repair.datagrams, 1);
                relay.repair.datagram_bytes = wrapping_add_u64(
                    relay.repair.datagram_bytes,
                    wire_bytes,
                );
            },
        }
        self.counters.relay = relay;
    }

    /// Counts a relay datagram that could not be sent.
    pub fn record_relay_session_send_error(&mut self, role: MediaDatagramRole)
        ensures
            final(self)@ == old(self)@.relay_send_failed(role),
            old(self).wf() ==> final(self).wf(),
    {
        let mut relay = self.counters.relay;
        match role {
            MediaDatagramRole::Source => {
                relay.source.errors = wrapping_add_u64(relay.source.errors, 1);
            },
            MediaDatagramRole::Repair => {
                relay.repair.errors = wrapping_add_u64(relay.repair.errors, 1);
            },
        }
        self.counters.relay = relay;
    }

    /// Counts an object on a lane.
    pub fn record_relay_session_lane_object(
        &mut self,
        path: RelayCarrierPath,
        succeeded: bool,
        now_ms: u64,
    )
        ensures
            final(self)@ == old(self)@.lane_settled(path, succeeded, now_ms),
            old(self).wf() ==> final(self).wf(),
    {
        let mut relay = self.counters.relay;
        let mut lane = match path {
            RelayCarrierPath::Primary => relay.primary,
            RelayCarrierPath::Secondary => relay.secondary,
        };
        if succeeded {
            lane.objects_succeeded = wrapping_add_u64(lane.objects_succeeded, 1);
            lane.last_success_unix_ms = now_ms;
        } else {
            lane.objects_failed = wrapping_add_u64(lane.objects_failed, 1);
            lane.last_failure_unix_ms = now_ms;
        }
        match path {
            RelayCarrierPath::Primary => {
                relay.primary = lane;
            },
            RelayCarrierPath::Secondary => {
                relay.secondary = lane;
            },
        }
        self.counters.relay = relay;
    }

    /// Counts an object that could not be encoded.
    pub fn record_relay_session_encode_error(&mut self)
        ensures
            final(self)@ == old(self)@.with_relay(
                RelayCounters {
                    encode_errors: wrapped_u64(old(self)@.counters.relay.encode_errors + 1),
                    ..old(self)@.counters.relay
                },
            ),
            old(self).wf() ==> final(self).wf(),
    {
        self.counters.relay.encode_errors = wrapping_add_u64(self.counters.relay.encode_errors, 1);
    }

    /// Counts how long a stage of relaying took.
    pub fn record_relay_session_stage_duration(
        &mut self,
        stage: RelayPipelineStage,
        duration_us: u64,
    )
        ensures
            final(self)@ == (TelemetryView {
                relay_histograms: old(self)@.relay_histograms.staged(stage, duration_us),
                ..old(self)@
            }),
            old(self).wf() ==> final(self).wf(),
    {
        self.relay_histograms.record_stage(stage, duration_us);
    }

    /// Counts how long forwarding a payload took.
    pub fn record_mesh_forward_duration(&mut self, kind: &str, duration_us: u64)
        ensures
            final(self)@ == old(self)@.forward_timed(kind@, duration_us),
            old(self).wf() ==> final(self).wf(),
    {
        if text_equal(kind, "media") {
            self.media_histograms.total.record(duration_us);
        } else {
            self.stream_histograms.total.record(duration_us);
        }
    }

    /// Counts how long a stage of forwarding took, where the stage is one that is measured.
    pub fn record_mesh_forward_stage_duration(&mut self, kind: &str, stage: &str, duration_us: u64)
        ensures
            final(self)@ == old(self)@.forward_staged(kind@, stage@, duration_us),
            old(self).wf() ==> final(self).wf(),
    {
        let stage = if text_equal(stage, "encode_wait") {
            MeshForwardStage::EncodeWait
        } else if text_equal(stage, "encode") {
            MeshForwardStage::Encode
        } else if text_equal(stage, "send") {
            MeshForwardStage::Send
        } else if text_equal(stage, "telemetry") {
            MeshForwardStage::Telemetry
        } else {
            return;
        };
        if text_equal(kind, "media") {
            self.media_histograms.record_stage(stage, duration_us);
        } else {
            self.stream_histograms.record_stage(stage, duration_us);
        }
    }

    /// Counts a request that brought raw bytes.
    pub fn record_raw_http(
        &mut self,
        stream_id: u64,
        chunks: u64,
        bytes: u64,
        datagrams: u64,
        now_ms: u64,
    )
        requires
            old(self).wf(),
        ensures
            final(self)@ == old(self)@.raw_http(stream_id, chunks, bytes, datagrams, now_ms),
            final(self).wf(),
    {
        let before = self.counters.raw_http;
        let requests: u64 = wrapping_add_u64(before.requests, 1);
        self.counters.raw_http = RawHttpCounters {
            requests,
            chunks: wrapping_add_u64(before.chunks, chunks),
            bytes: wrapping_add_u64(before.bytes, bytes),
            datagrams: wrapping_add_u64(before.datagrams, datagrams),
            last_unix_ms: now_ms,
        };
        self.record_input(stream_id, bytes, now_ms);
        let mut message = "Raw HTTP ingest request ".to_owned();
        append_decimal(&mut message, requests);
        message.append(" accepted ");
        append_decimal(&mut message, chunks);
        message.append(" chunks for stream ");
        append_decimal(&mut message, stream_id);
        message.append(".");
        self.push_activity(
            ContribActivity {
                level: "info",
                code: "raw_http_ingest",
                message,
                stream_id_text: Some(decimal_text(stream_id)),
                bytes: Some(bytes),
                datagrams: Some(datagrams),
                sequence: None,
                seen_unix_ms: now_ms,
            },
        );
    }

    /// Counts a request that brought a media access unit.
    pub fn record_media_access_unit(
        &mut self,
        stream_id: u64,
        payload_bytes: u64,
        datagrams: u64,
        now_ms: u64,
    )
        requires
            old(self).wf(),
        ensures
            final(self)@ == old(self)@.media_access_unit(
                stream_id,
                payload_bytes,
                datagrams,
                now_ms,
            ),
            final(self).wf(),
    {
        let before = self.counters.media;
        let requests: u64 = wrapping_add_u64(before.requests, 1);
        self.counters.media = MediaCounters {
            requests,
            payload_bytes: wrapping_add_u64(before.payload_bytes, payload_bytes),
            datagrams: wrapping_add_u64(before.datagrams, datagrams),
            last_unix_ms: now_ms,
        };
        self.record_input(stream_id, payload_bytes, now_ms);
        if should_sample_activity(requests, 100) {
            let mut message = "Forwarded media access unit ".to_owned();
            append_decimal(&mut message, requests);
            message.append(" for stream ");
            append_decimal(&mut message, stream_id);
            message.append(".");
            self.push_activity(
                ContribActivity {
                    level: "info",
                    code: "media_access_unit",
                    message,
                    stream_id_text: Some(decimal_text(stream_id)),
                    bytes: Some(payload_bytes),
                    datagrams: Some(datagrams),
                    sequence: None,
                    seen_unix_ms: now_ms,
                },
            );
        }
    }

    /// Counts a payload that was forwarded to the mesh.
    pub fn record_mesh_forward_success(
        &mut self,
        kind: &str,
        stream_id: u64,
        target: &str,
        payload_bytes: u64,
        datagrams: u64,
        datagram_bytes: u64,
        now_ms: u64,
    )
        requires
            old(self).wf(),
        ensures
            final(self)@ == old(self)@.mesh_forwarded(
                kind@,
                stream_id,
                target@,
                payload_bytes,
                datagrams,
                datagram_bytes,
                now_ms,
            ),
            final(self).wf(),
    {
        let media = text_equal(kind, "media");
        let before = if media {
            self.counters.mesh_media
        } else {
            self.counters.mesh_stream
        };
        let payloads: u64 = wrapping_add_u64(before.payloads, 1);
        let after = MeshCounters {
            payloads,
            payload_bytes: wrapping_add_u64(before.payload_bytes, payload_bytes),
            datagrams: wrapping_add_u64(before.datagrams, datagrams),
            datagram_bytes: wrapping_add_u64(before.datagram_bytes, datagram_bytes),
            errors: before.errors,
            last_unix_ms: now_ms,
        };
        if media {
            self.counters.mesh_media = after;
        } else {
            self.counters.mesh_stream = after;
        }
        let mut record = get_stream(&self.streams, stream_id);
        record.mesh_payloads = record.mesh_payloads.saturating_add(1);
        record.mesh_payload_bytes = record.mesh_payload_bytes.saturating_add(payload_bytes);
        record.mesh_datagrams = record.mesh_datagrams.saturating_add(datagrams);
        record.mesh_datagram_bytes = record.mesh_datagram_bytes.saturating_add(datagram_bytes);
        record.last_mesh_forward_unix_ms = Some(now_ms);
        update_stream_runtime(&mut self.streams, record);
        if should_sample_activity(payloads, 100) {
            let mut message = "Forwarded ".to_owned();
            message.append(kind);
            message.append(" payload ");
            append_decimal(&mut message, payloads);
            message.append(" for stream ");
            append_decimal(&mut message, stream_id);
            message.append(" to mesh target ");
            message.append(target);
            message.append(".");
            self.push_activity(
                ContribActivity {
                    level: "info",
                    code: "mesh_forward",
                    message,
                    stream_id_text: Some(decimal_text(stream_id)),
                    bytes: Some(payload_bytes),
                    datagrams: Some(datagrams),
                    sequence: Some(payloads),
                    seen_unix_ms: now_ms,
                },
            );
        }
    }

    /// Counts a payload that could not be forwarded to the mesh.
    pub fn record_mesh_forward_error(
        &mut self,
        kind: &str,
        stream_id: u64,
        target: &str,
        error: &str,
        now_ms: u64,
    )
        requires
            old(self).wf(),
        ensures
            final(self)@ == old(self)@.mesh_failed(kind@, stream_id, target@, error@, now_ms),
            final(self).wf(),
    {
        let media = text_equal(kind, "media");
        let errors: u64 = if media {
            wrapping_add_u64(self.counters.mesh_media.errors, 1)
        } else {
            wrapping_add_u64(self.counters.mesh_stream.errors, 1)
        };
        if media {
            self.counters.mesh_media.errors = errors;
        } else {
            self.counters.mesh_stream.errors = errors;
        }
        let mut record = get_stream(&self.streams, stream_id);
        record.mesh_errors = record.mesh_errors.saturating_add(1);
        record.last_mesh_forward_unix_ms = Some(now_ms);
        update_stream_runtime(&mut self.streams, record);
        let mut message = "Failed to forward ".to_owned();
        message.append(kind);
        message.append(" payload for stream ");
        append_decimal(&mut message, stream_id);
        message.append(" to mesh target ");
        message.append(target);
        message.append(": ");
        message.append(error);
        self.push_alert(
            ContribAlert {
                level: "warn",
                code: "mesh_forward_error",
                message: message.clone(),
                count: errors,
                last_seen_unix_ms: Some(now_ms),
                stream_id_text: Some(decimal_text(stream_id)),
                protocol: None,
            },
        );
        self.push_activity(
            ContribActivity {
                level: "warn",
                code: "mesh_forward_error",
                message,
                stream_id_text: Some(decimal_text(stream_id)),
                bytes: None,
                datagrams: None,
                sequence: Some(errors),
                seen_unix_ms: now_ms,
            },
        );
    }

    /// Counts a slot of a transport stream.
    pub fn record_mpeg_ts_slot(
        &mut self,
        protocol: &'static str,
        stream_id: u64,
        bytes: usize,
        now_ms: u64,
    )
        requires
            old(self).wf(),
        ensures
            final(self)@ == old(self)@.mpeg_ts_slot(protocol@, stream_id, bytes as u64, now_ms),
            final(self).wf(),
    {
        let size: u64 = bytes as u64;
        let slots: u64 = wrapping_add_u64(self.counters.mpeg_ts.slots, 1);
        self.counters.mpeg_ts.slots = slots;
        self.counters.mpeg_ts.bytes = wrapping_add_u64(self.counters.mpeg_ts.bytes, size);
        self.counters.mpeg_ts.last_unix_ms = now_ms;
        record_protocol_unit(&mut self.protocols, protocol, size, now_ms);
        self.record_input(stream_id, size, now_ms);
        if should_sample_activity(slots, 25) {
            let mut message = "Read MPEG-TS slot ".to_owned();
            append_decimal(&mut message, slots);
            message.append(" from ");
            message.append(protocol);
            message.append(" for stream ");
            append_decimal(&mut message, stream_id);
            message.append(".");
            self.push_activity(
                ContribActivity {
                    level: "info",
                    code: "mpeg_ts_slot",
                    message,
                    stream_id_text: Some(decimal_text(stream_id)),
                    bytes: Some(size),
                    datagrams: None,
                    sequence: Some(slots),
                    seen_unix_ms: now_ms,
                },
            );
        }
    }

    /// Counts a gap in a transport stream.
    pub fn record_mpeg_ts_continuity_issue(&mut self, issue: MpegTsContinuityIssue, now_ms: u64)
        requires
            old(self).wf(),
        ensures
            final(self)@ == old(self)@.continuity_issue(
                issue.stream_type@,
                issue.dropped_payload_bytes as u64,
                now_ms,
            ),
            final(self).wf(),
    {
        let dropped: u64 = issue.dropped_payload_bytes as u64;
        let errors: u64 = wrapping_add_u64(self.counters.mpeg_ts.continuity_errors, 1);
        self.counters.mpeg_ts.continuity_errors = errors;
        self.counters.mpeg_ts.continuity_dropped_bytes = wrapping_add_u64(
            self.counters.mpeg_ts.continuity_dropped_bytes,
            dropped,
        );
        self.counters.mpeg_ts.last_error_unix_ms = now_ms;
        if should_sample_activity(errors, 25) {
            let mut message = "MPEG-TS continuity error ".to_owned();
            append_decimal(&mut message, errors);
            message.append(" on ");
            message.append(issue.stream_type);
            message.append(" dropped ");
            append_decimal(&mut message, dropped);
            message.append(" partial payload bytes.");
            self.push_activity(
                ContribActivity {
                    level: "warn",
                    code: "mpeg_ts_continuity_error",
                    message,
                    stream_id_text: None,
                    bytes: Some(dropped),
                    datagrams: None,
                    sequence: Some(errors),
                    seen_unix_ms: now_ms,
                },
            );
        }
    }

    /// Counts a payload of a transport stream that grew too large.
    pub fn record_mpeg_ts_payload_drop(&mut self, drop: MpegTsPayloadDrop, now_ms: u64)
        requires
            old(self).wf(),
        ensures
            final(self)@ == old(self)@.payload_drop(drop.stream_type@, drop.bytes as u64, now_ms),
            final(self).wf(),
    {
        let dropped: u64 = drop.bytes as u64;
        let drops: u64 = wrapping_add_u64(self.counters.mpeg_ts.payload_drops, 1);
        self.counters.mpeg_ts.payload_drops = drops;
        self.counters.mpeg_ts.payload_drop_bytes = wrapping_add_u64(
            self.counters.mpeg_ts.payload_drop_bytes,
            dropped,
        );
        self.counters.mpeg_ts.last_error_unix_ms = now_ms;
        if should_sample_activity(drops, 25) {
            let mut message = "Dropped oversized MPEG-TS ".to_owned();
            message.append(drop.stream_type);
            message.append(" PES payload of ");
            append_decimal(&mut message, dropped);
            message.append(" bytes.");
            self.push_activity(
                ContribActivity {
                    level: "warn",
                    code: "mpeg_ts_payload_drop",
                    message,
                    stream_id_text: None,
                    bytes: Some(dropped),
                    datagrams: None,
                    sequence: Some(drops),
                    seen_unix_ms: now_ms,
                },
            );
        }
    }

    /// Counts an access unit over RTMP.
    pub fn record_rtmp_access_unit(&mut self, stream_id: u64, bytes: usize, now_ms: u64)
        requires
            old(self).wf(),
        ensures
            final(self)@ == old(self)@.rtmp_access_unit(stream_id, bytes as u64, now_ms),
            final(self).wf(),
    {
        let size: u64 = bytes as u64;
        let access_units: u64 = wrapping_add_u64(self.counters.rtmp.access_units, 1);
        self.counters.rtmp = RtmpCounters {
            access_units,
            bytes: wrapping_add_u64(self.counters.rtmp.bytes, size),
            last_unix_ms: now_ms,
        };
        record_protocol_unit(&mut self.protocols, "rtmp", size, now_ms);
        self.record_input(stream_id, size, now_ms);
        if should_sample_activity(access_units, 100) {
            let mut message = "Forwarded RTMP access unit ".to_owned();
            append_decimal(&mut message, access_units);
            message.append(" for stream ");
            append_decimal(&mut message, stream_id);
            message.append(".");
            self.push_activity(
                ContribActivity {
                    level: "info",
                    code: "rtmp_access_unit",
                    message,
                    stream_id_text: Some(decimal_text(stream_id)),
                    bytes: Some(size),
                    datagrams: None,
                    sequence: Some(access_units),
                    seen_unix_ms: now_ms,
                },
            );
        }
    }

    /// Counts a part that was published.
    pub fn record_fmp4_part(
        &mut self,
        stream_id: u64,
        stream_idx: usize,
        sequence: u64,
        bytes: u64,
        init_bytes: u64,
        now_ms: u64,
    )
        requires
            old(self).wf(),
        ensures
            final(self)@ == old(self)@.fmp4_part(
                stream_id,
                stream_idx,
                sequence,
                bytes,
                init_bytes,
                now_ms,
            ),
            final(self).wf(),
    {
        let parts: u64 = wrapping_add_u64(self.counters.fmp4.parts, 1);
        self.counters.fmp4.parts = parts;
        self.counters.fmp4.bytes = wrapping_add_u64(self.counters.fmp4.bytes, bytes);
        self.counters.fmp4.init_bytes = wrapping_add_u64(self.counters.fmp4.init_bytes, init_bytes);
        self.counters.fmp4.last_publish_unix_ms = now_ms;
        let mut record = get_stream(&self.streams, stream_id);
        record.fmp4_parts = record.fmp4_parts.saturating_add(1);
        record.fmp4_bytes = record.fmp4_bytes.saturating_add(bytes);
        record.fmp4_init_bytes = record.fmp4_init_bytes.saturating_add(init_bytes);
        record.latest_fmp4_sequence = Some(sequence);
        record.last_fmp4_unix_ms = Some(now_ms);
        update_stream_runtime(&mut self.streams, record);
        if should_sample_activity(parts, 25) {
            let mut message = "Published fMP4 part ".to_owned();
            append_decimal(&mut message, sequence);
            message.append(" for stream ");
            append_decimal(&mut message, stream_id);
            message.append(" idx ");
            append_decimal(&mut message, stream_idx as u64);
            message.append(".");
            self.push_activity(
                ContribActivity {
                    level: "info",
                    code: "fmp4_part_published",
                    message,
                    stream_id_text: Some(decimal_text(stream_id)),
                    bytes: Some(bytes),
                    datagrams: None,
                    sequence: Some(sequence),
                    seen_unix_ms: now_ms,
                },
            );
        }
    }

    /// Counts the tracks of a part that was published.
    pub fn record_fmp4_tracks(
        &mut self,
        stream_id: u64,
        sequence: u64,
        video_width: Option<u16>,
        video_height: Option<u16>,
        video_units: usize,
        audio_units: usize,
    )
        ensures
            final(self)@ == old(self)@.fmp4_tracks(
                stream_id,
                sequence,
                match (video_width, video_height) {
                    (Some(width), Some(height)) => Some((width, height)),
                    _ => None,
                },
                video_units as u64,
                audio_units as u64,
            ),
            old(self).wf() ==> final(self).wf(),
    {
        proof {
            reveal(wrapped_u64);
        }
        let dimensions = match (video_width, video_height) {
            (Some(width), Some(height)) => Some((width, height)),
            _ => None,
        };
        let mut record = get_stream(&self.streams, stream_id);
        if let Some((width, height)) = dimensions {
            self.counters.fmp4.video_width = width as u64;
            self.counters.fmp4.video_height = height as u64;
        }
        if video_units > 0 {
            self.counters.fmp4.video_parts = wrapping_add_u64(self.counters.fmp4.video_parts, 1);
            self.counters.fmp4.video_access_units = wrapping_add_u64(
                self.counters.fmp4.video_access_units,
                video_units as u64,
            );
            record.has_video = true;
            if let Some((width, height)) = dimensions {
                record.video_width = Some(width);
                record.video_height = Some(height);
            }
            record.video_parts = record.video_parts.saturating_add(1);
            record.video_access_units = record.video_access_units.saturating_add(video_units as u64);
        }
        if audio_units > 0 {
            self.counters.fmp4.audio_parts = wrapping_add_u64(self.counters.fmp4.audio_parts, 1);
            self.counters.fmp4.audio_access_units = wrapping_add_u64(
                self.counters.fmp4.audio_access_units,
                audio_units as u64,
            );
            record.has_audio = true;
            record.audio_parts = record.audio_parts.saturating_add(1);
            record.audio_access_units = record.audio_access_units.saturating_add(audio_units as u64);
        }
        record.latest_fmp4_sequence = Some(sequence);
        update_stream_runtime(&mut self.streams, record);
    }

    /// Counts a part that could not be published.
    pub fn record_fmp4_publish_error(
        &mut self,
        stream_id: u64,
        stream_idx: usize,
        sequence: u64,
        error: &str,
        now_ms: u64,
    )
        requires
            old(self).wf(),
        ensures
            final(self)@ == old(self)@.fmp4_failed(stream_id, stream_idx, sequence, error@, now_ms),
            final(self).wf(),
    {
        self.counters.fmp4.publish_errors = wrapping_add_u64(self.counters.fmp4.publish_errors, 1);
        let mut record = get_stream(&self.streams, stream_id);
        record.fmp4_publish_errors = record.fmp4_publish_errors.saturating_add(1);
        record.latest_fmp4_sequence = Some(sequence);
        record.last_fmp4_unix_ms = Some(now_ms);
        update_stream_runtime(&mut self.streams, record);
        let mut message = "Failed to publish fMP4 part ".to_owned();
        append_decimal(&mut message, sequence);
        message.append(" for stream ");
        append_decimal(&mut message, stream_id);
        message.append(" idx ");
        append_decimal(&mut message, stream_idx as u64);
        message.append(": ");
        message.append(error);
        self.push_alert(
            ContribAlert {
                level: "warn",
                code: "fmp4_publish_error",
                message: message.clone(),
                count: 1,
                last_seen_unix_ms: Some(now_ms),
                stream_id_text: Some(decimal_text(stream_id)),
                protocol: None,
            },
        );
        self.push_activity(
            ContribActivity {
                level: "warn",
                code: "fmp4_publish_error",
                message,
                stream_id_text: Some(decimal_text(stream_id)),
                bytes: None,
                datagrams: None,
                sequence: Some(sequence),
                seen_unix_ms: now_ms,
            },
        );
    }

    /// Counts an answer to a playlist or media request.
    pub fn record_hls_response(&mut self, response: ContribHlsResponse)
        requires
            old(self).wf(),
        ensures
            final(self)@ == old(self)@.hls_response(response@),
            final(self).wf(),
    {
        let status: u16 = response.status;
        let responses: u64 = wrapping_add_u64(self.counters.hls.responses_total, 1);
        self.counters.hls.responses_total = responses;
        self.counters.hls.last_response_unix_ms = response.unix_ms;
        if status == 404 {
            self.counters.hls.response_not_found = wrapping_add_u64(
                self.counters.hls.response_not_found,
                1,
            );
        }
        if 400 <= status && status < 600 {
            self.counters.hls.response_errors = wrapping_add_u64(
                self.counters.hls.response_errors,
                1,
            );
            let mut message = "HLS request ".to_owned();
            message.append(response.method.as_str());
            message.append(" ");
            message.append(response.path.as_str());
            message.append(" returned HTTP ");
            append_decimal(&mut message, status as u64);
            message.append(".");
            self.push_activity(
                ContribActivity {
                    level: if status >= 500 {
                        "error"
                    } else {
                        "warn"
                    },
                    code: "hls_response_error",
                    message,
                    stream_id_text: None,
                    bytes: Some(response.bytes),
                    datagrams: None,
                    sequence: Some(responses),
                    seen_unix_ms: response.unix_ms,
                },
            );
        }
        push_response(&mut self.recent_hls_responses, response);
    }

    /// Makes sure that a contributor has an active session.
    pub fn ensure_ingest_session(
        &mut self,
        protocol: &'static str,
        stream_id: u64,
        origin: SessionOrigin,
        now_ms: u64,
    )
        requires
            old(self).wf(),
        ensures
            final(self)@ == old(self)@.session_joined(protocol@, stream_id, origin@, now_ms),
            final(self).wf(),
    {
        let sequence: u64 = wrapping_add_u64(self.counters.sessions.started, 1);
        if join_session(&mut self.sessions, sequence, protocol, stream_id, origin, now_ms) {
            self.counters.sessions.started = sequence;
            let mut message = protocol.to_owned();
            message.append(" ingest session ");
            append_decimal(&mut message, sequence);
            message.append(" started for stream ");
            append_decimal(&mut message, stream_id);
            message.append(".");
            self.push_activity(
                ContribActivity {
                    level: "info",
                    code: "ingest_session_started",
                    message,
                    stream_id_text: Some(decimal_text(stream_id)),
                    bytes: None,
                    datagrams: None,
                    sequence: Some(sequence),
                    seen_unix_ms: now_ms,
                },
            );
        }
    }

    /// Counts a slot of a body in a contributor's session, which is started where there is none.
    pub fn record_ingest_session_body(
        &mut self,
        protocol: &'static str,
        stream_id: u64,
        bytes: usize,
        now_ms: u64,
    )
        requires
            old(self).wf(),
        ensures
            ({
                let known = old(self)@.session_joined(
                    protocol@,
                    stream_id,
                    OriginView::unknown(),
                    now_ms,
                );
                final(self)@ == (TelemetryView {
                    sessions: with_body(known.sessions, protocol@, stream_id, bytes as u64, now_ms),
                    ..known
                })
            }),
            final(self).wf(),
    {
        self.ensure_ingest_session(protocol, stream_id, SessionOrigin::unknown(), now_ms);
        count_body(&mut self.sessions, protocol, stream_id, bytes as u64, now_ms);
    }

    /// Counts an access unit in a contributor's session, which is started where there is none.
    pub fn record_ingest_session_access_unit(
        &mut self,
        protocol: &'static str,
        stream_id: u64,
        bytes: usize,
        now_ms: u64,
    )
        requires
            old(self).wf(),
        ensures
            ({
                let known = old(self)@.session_joined(
                    protocol@,
                    stream_id,
                    OriginView::unknown(),
                    now_ms,
                );
                final(self)@ == (TelemetryView {
                    sessions: with_access_unit(
                        known.sessions,
                        protocol@,
                        stream_id,
                        bytes as u64,
                        now_ms,
                    ),
                    ..known
                })
            }),
            final(self).wf(),
    {
        self.ensure_ingest_session(protocol, stream_id, SessionOrigin::unknown(), now_ms);
        count_access_unit(&mut self.sessions, protocol, stream_id, bytes as u64, now_ms);
    }

    /// Ends a contributor's session, if it has one.
    pub fn end_ingest_session(
        &mut self,
        protocol: &'static str,
        stream_id: u64,
        reason: &'static str,
        now_ms: u64,
    )
        requires
            old(self).wf(),
        ensures
            final(self)@ == old(self)@.session_left(protocol@, stream_id, reason@, now_ms),
            final(self).wf(),
    {
        if leave_session(&mut self.sessions, protocol, stream_id, reason, now_ms) {
            let ended: u64 = wrapping_add_u64(self.counters.sessions.ended, 1);
            self.counters.sessions.ended = ended;
            let mut message = protocol.to_owned();
            message.append(" ingest session ended for stream ");
            append_decimal(&mut message, stream_id);
            message.append(": ");
            message.append(reason);
            message.append(".");
            self.push_activity(
                ContribActivity {
                    level: "info",
                    code: "ingest_session_ended",
                    message,
                    stream_id_text: Some(decimal_text(stream_id)),
                    bytes: None,
                    datagrams: None,
                    sequence: Some(ended),
                    seen_unix_ms: now_ms,
                },
            );
        }
    }

    /// The alerts that are remembered, the newest first.
    pub fn recent_alerts(&self) -> (r: Vec<ContribAlert>)
        ensures
            alerts_view(r@) == self@.alerts,
    {
        let mut r: Vec<ContribAlert> = Vec::new();
        let mut i: usize = 0;
        while i < self.recent_alerts.len()
            invariant
                i <= self.recent_alerts@.len(),
                alerts_view(r@) == self@.alerts.take(i as int),
            decreases self.recent_alerts@.len() - i,
        {
            let ghost older = alerts_view(r@);
            let entry = self.recent_alerts[i].copy();
            r.push(entry);
            assert(alerts_view(r@) =~= older.push(entry@));
            assert(alerts_view(r@) =~= self@.alerts.take(i + 1));
            i = i + 1;
        }
        assert(self@.alerts.take(i as int) =~= self@.alerts);
        r
    }

    /// The activity that is remembered, the newest first.
    pub fn recent_activity(&self) -> (r: Vec<ContribActivity>)
        ensures
            activity_view(r@) == self@.activity,
    {
        let mut r: Vec<ContribActivity> = Vec::new();
        let mut i: usize = 0;
        while i < self.recent_activity.len()
            invariant
                i <= self.recent_activity@.len(),
                activity_view(r@) == self@.activity.take(i as int),
            decreases self.recent_activity@.len() - i,
        {
            let ghost older = activity_view(r@);
            let entry = self.recent_activity[i].copy();
            r.push(entry);
            assert(activity_view(r@) =~= older.push(entry@));
            assert(activity_view(r@) =~= self@.activity.take(i + 1));
            i = i + 1;
        }
        assert(self@.activity.take(i as int) =~= self@.activity);
        r
    }

    /// The answers that are remembered, the newest first.
    pub fn recent_responses(&self) -> (r: Vec<ContribHlsResponse>)
        ensures
            responses_view(r@) == self@.responses,
    {
        let mut r: Vec<ContribHlsResponse> = Vec::new();
        let mut i: usize = 0;
        while i < self.recent_hls_responses.len()
            invariant
                i <= self.recent_hls_responses@.len(),
                responses_view(r@) == self@.responses.take(i as int),
            decreases self.recent_hls_responses@.len() - i,
        {
            let ghost older = responses_view(r@);
            let entry = self.recent_hls_responses[i].copy();
            r.push(entry);
            assert(responses_view(r@) =~= older.push(entry@));
            assert(responses_view(r@) =~= self@.responses.take(i + 1));
            i = i + 1;
        }
        assert(self@.responses.take(i as int) =~= self@.responses);
        r
    }
}

/// The stage of forwarding that a name stands for.
pub open spec fn stage_named(stage: Seq<char>) -> Option<MeshForwardStage> {
    if stage == "encode_wait"@ {
        Some(MeshForwardStage::EncodeWait)
    } else if stage == "encode"@ {
        Some(MeshForwardStage::Encode)
    } else if stage == "send"@ {
        Some(MeshForwardStage::Send)
    } else if stage == "telemetry"@ {
        Some(MeshForwardStage::Telemetry)
    } else {
        None
    }
}

} // verus!
