//! Status, health, alerts, sessions and metrics of the service.
use av_contrib::audio_epoch_hls::worker::AudioEpochHlsWorkerStats;
use av_contrib::fmp4_bridge::elementary::{MpegTsContinuityIssue, MpegTsPayloadDrop};
use av_contrib::service::events::ContribHlsResponse;
use av_contrib::service::forward::{ForwardOutcome, ForwardTimings};
use av_contrib::service::lanes::{
    relay_lane_state, relay_send_stage, MediaDatagramRole, RelayCarrierPath, RelayLaneState,
    RelayPipelineStage, RELAY_LANE_IMPAIRED_HOLD_MS,
};
use av_contrib::service::metrics::{append_line, prometheus_label_value, MetricLine, MetricValue};
use av_contrib::service::metrics_report::{
    render_contrib_prometheus_metrics, AudioQueueStats, RouteText, RouteTexts,
};
use av_contrib::service::sessions::SessionOrigin;
use av_contrib::service::status::{
    sse_event, ContribStatusConfig, ContribStatusSnapshot, RistBackend, RistProfile,
    ServiceOptions, DEFAULT_FLOW_ID,
};
use av_contrib::service::telemetry::{should_sample_activity, IngestTelemetry};

const NOW: u64 = 1_784_151_600_000;

fn options() -> ServiceOptions {
    ServiceOptions {
        stream_id: 1,
        rist_bind: Some("127.0.0.1:27000".to_owned()),
        rist_stream_id: 1,
        rist_profile: RistProfile::Main,
        rist_backend: RistBackend::Pure,
        rist_flow_id: DEFAULT_FLOW_ID,
        srt_bind: Some("127.0.0.1:27001".to_owned()),
        srt_stream_id: 1,
        rtmp_bind: Some("127.0.0.1:19350".to_owned()),
        rtmp_stream_id: 1,
        daw_media_bind: None,
        mesh_fec_target: "127.0.0.1:22001".to_owned(),
        mesh_media_fec_target: "127.0.0.1:22101".to_owned(),
        relay_primary_target: None,
        relay_primary_bind: None,
        relay_primary_id: "primary-test".to_owned(),
        relay_secondary_target: None,
        relay_secondary_bind: None,
        relay_secondary_id: "secondary-test".to_owned(),
        relay_secondary_seed_source: false,
        relay_exclusive: false,
        relay_topology_generation: 1,
        relay_subscription_id: 1,
        relay_deadline_ms: 1_000,
        relay_path_observed: false,
        relay_path_observed_at_unix_ms: None,
        relay_secondary_path_observed: false,
        relay_secondary_path_observed_at_unix_ms: None,
        wall_clock_estimated_error_ms: 1_000,
        fmp4_part_ms: 50,
        fmp4_segment_ms: 1_000,
        hls_target_duration_ms: 6_000,
        playlist_count: 65,
        playlist_buffer_kb: 800,
        repair_symbols: 3,
        symbol_size: 1_316,
    }
}

fn route_text() -> RouteText {
    RouteText {
        loss: "0".to_owned(),
        rtt: "0".to_owned(),
        best_direct_rtt: "0".to_owned(),
        jitter: "0".to_owned(),
        queue_delay: "0".to_owned(),
        stretch: None,
    }
}

fn metrics_text(status: &ContribStatusSnapshot) -> String {
    let queue = AudioQueueStats { capacity: 0, enqueued: 0, dropped: 0, max_depth: 0 };
    let worker = AudioEpochHlsWorkerStats::default();
    let routes = RouteTexts {
        path_loss: "0".to_owned(),
        primary: route_text(),
        secondary: route_text(),
    };
    let mut text = String::new();
    for line in render_contrib_prometheus_metrics(status, &queue, &worker, &routes) {
        let seconds = match &line {
            MetricLine::Sample { value: MetricValue::Millis(ms), .. } => {
                format!("{}", *ms as f64 / 1_000.0)
            }
            MetricLine::Sample { value: MetricValue::Micros(us), .. } => {
                format!("{}", *us as f64 / 1_000_000.0)
            }
            _ => String::new(),
        };
        append_line(&mut text, &line, &seconds);
    }
    text
}

#[test]
fn contrib_status_uses_browser_safe_stream_ids() {
    let args = ServiceOptions {
        stream_id: 9_007_199_254_741_993,
        rist_stream_id: 9_007_199_254_741_994,
        srt_stream_id: 9_007_199_254_741_995,
        rtmp_stream_id: 9_007_199_254_741_996,
        rtmp_bind: None,
        ..options()
    };
    let mut telemetry = IngestTelemetry::new();
    telemetry.record_raw_http(args.stream_id, 2, 4096, 6, NOW);
    telemetry.record_media_access_unit(args.stream_id, 2048, 3, NOW);
    telemetry.record_mesh_forward_success(
        "stream",
        args.stream_id,
        &args.mesh_fec_target,
        4096,
        6,
        6144,
        NOW,
    );
    telemetry.record_mesh_forward_success(
        "media",
        args.stream_id,
        &args.mesh_media_fec_target,
        2048,
        3,
        3072,
        NOW,
    );
    telemetry.record_mpeg_ts_slot("srt", args.srt_stream_id, 1316, NOW);
    telemetry.record_mpeg_ts_continuity_issue(
        MpegTsContinuityIssue { stream_type: "h264", dropped_payload_bytes: 2048 },
        NOW,
    );
    telemetry.record_mpeg_ts_payload_drop(
        MpegTsPayloadDrop { stream_type: "adts", bytes: 8192 },
        NOW,
    );
    telemetry.record_rtmp_access_unit(args.rtmp_stream_id, 1024, NOW);
    telemetry.record_fmp4_tracks(args.rist_stream_id, 9, Some(1280), Some(720), 2, 1);
    telemetry.record_fmp4_part(args.rist_stream_id, 1, 9, 8192, 512, NOW);
    let status_config = ContribStatusConfig::from_args(&args, 1);
    let event = sse_event(b"{}");
    assert!(event.starts_with(b"event: contrib\ndata: {"));
    assert!(event.ends_with(b"\n\n"));

    let snapshot = status_config.snapshot(&telemetry, NOW);

    assert_eq!(snapshot.default_stream_id, "9007199254741993");
    assert_eq!(snapshot.advertised_hls_stream_id, "9007199254741994");
    assert_eq!(snapshot.advertised_hls_path, "/9007199254741994/stream.m3u8");
    assert_eq!(snapshot.mesh.byte_fec_target, "127.0.0.1:22001");
    assert_eq!(snapshot.hls.part_target_ms, 50);
    assert_eq!(snapshot.fec.repair_symbols, 3);
    assert_eq!(snapshot.runtime.raw_http.requests, 1);
    assert_eq!(snapshot.runtime.raw_http.bytes, 4096);
    assert_eq!(snapshot.runtime.media_access_units.requests, 1);
    assert_eq!(snapshot.runtime.mesh_forward.stream_payloads, 1);
    assert_eq!(snapshot.runtime.mesh_forward.stream_datagrams, 6);
    assert_eq!(snapshot.runtime.mesh_forward.stream_datagram_bytes, 6144);
    assert_eq!(snapshot.runtime.mesh_forward.media_payloads, 1);
    assert_eq!(snapshot.runtime.mesh_forward.media_datagrams, 3);
    assert_eq!(snapshot.runtime.mesh_forward.media_datagram_bytes, 3072);
    assert_eq!(snapshot.runtime.mpeg_ts.slots, 1);
    assert_eq!(snapshot.runtime.mpeg_ts.continuity_errors, 1);
    assert_eq!(snapshot.runtime.mpeg_ts.continuity_dropped_bytes, 2048);
    assert_eq!(snapshot.runtime.mpeg_ts.payload_drops, 1);
    assert_eq!(snapshot.runtime.mpeg_ts.payload_drop_bytes, 8192);
    let srt_protocol = snapshot
        .runtime
        .protocols
        .iter()
        .find(|protocol| protocol.protocol == "srt")
        .expect("missing SRT protocol runtime");
    assert_eq!(srt_protocol.units, 1);
    assert_eq!(srt_protocol.bytes, 1316);
    assert!(srt_protocol.last_seen_age_ms.is_some());
    assert!(snapshot
        .alerts
        .iter()
        .any(|alert| alert.code == "mpeg_ts_input_damage" && alert.protocol == Some("mpeg-ts")));
    assert_eq!(snapshot.runtime.rtmp.access_units, 1);
    let rtmp_protocol = snapshot
        .runtime
        .protocols
        .iter()
        .find(|protocol| protocol.protocol == "rtmp")
        .expect("missing RTMP protocol runtime");
    assert_eq!(rtmp_protocol.units, 1);
    assert_eq!(rtmp_protocol.bytes, 1024);
    assert_eq!(snapshot.runtime.fmp4.parts, 1);
    assert_eq!(snapshot.runtime.fmp4.init_bytes, 512);
    assert_eq!(snapshot.runtime.fmp4.video_codec, Some("h264"));
    assert_eq!(snapshot.runtime.fmp4.video_width, Some(1280));
    assert_eq!(snapshot.runtime.fmp4.video_height, Some(720));
    assert_eq!(snapshot.runtime.fmp4.video_parts, 1);
    assert_eq!(snapshot.runtime.fmp4.video_access_units, 2);
    assert_eq!(snapshot.runtime.fmp4.audio_codec, Some("aac"));
    assert_eq!(snapshot.runtime.fmp4.audio_parts, 1);
    assert_eq!(snapshot.runtime.fmp4.audio_access_units, 1);
    let raw_stream = snapshot
        .runtime
        .streams
        .iter()
        .find(|stream| stream.stream_id_text == "9007199254741993")
        .expect("missing raw HTTP stream runtime");
    assert_eq!(raw_stream.state, "forwarding");
    assert_eq!(raw_stream.input_units, 2);
    assert_eq!(raw_stream.input_bytes, 6144);
    assert_eq!(raw_stream.mesh_payloads, 2);
    assert_eq!(raw_stream.mesh_payload_bytes, 6144);
    assert_eq!(raw_stream.mesh_datagrams, 9);
    assert_eq!(raw_stream.mesh_datagram_bytes, 9216);
    let fmp4_stream = snapshot
        .runtime
        .streams
        .iter()
        .find(|stream| stream.stream_id_text == "9007199254741994")
        .expect("missing fMP4 stream runtime");
    assert_eq!(fmp4_stream.state, "publishing");
    assert_eq!(fmp4_stream.fmp4_parts, 1);
    assert_eq!(fmp4_stream.fmp4_bytes, 8192);
    assert_eq!(fmp4_stream.fmp4_init_bytes, 512);
    assert_eq!(fmp4_stream.latest_fmp4_sequence, Some(9));
    assert_eq!(fmp4_stream.video_codec, Some("h264"));
    assert_eq!(fmp4_stream.video_width, Some(1280));
    assert_eq!(fmp4_stream.video_height, Some(720));
    assert_eq!(fmp4_stream.video_parts, 1);
    assert_eq!(fmp4_stream.video_access_units, 2);
    assert_eq!(fmp4_stream.audio_codec, Some("aac"));
    assert_eq!(fmp4_stream.audio_parts, 1);
    assert_eq!(fmp4_stream.audio_access_units, 1);
    assert_eq!(snapshot.status, "active");
    assert_eq!(snapshot.health.state, "active");
    assert!(snapshot.health.input_seen);
    assert!(snapshot.health.output_seen);
    assert!(snapshot.activity.iter().any(|activity| activity.code == "raw_http_ingest"
        && activity.stream_id_text.as_deref() == Some("9007199254741993")));
    assert!(snapshot.activity.iter().any(|activity| activity.code == "fmp4_part_published"
        && activity.stream_id_text.as_deref() == Some("9007199254741994")
        && activity.sequence == Some(9)));

    let rist = snapshot
        .listeners
        .iter()
        .find(|listener| listener.protocol == "rist")
        .expect("missing RIST listener status");
    assert!(rist.enabled);
    assert_eq!(rist.output_stream_id, "9007199254741994");
    assert_eq!(rist.flow_id.as_deref(), Some("0x11223344"));
}

#[test]
fn contrib_prometheus_metrics_expose_hot_path_counters_and_stream_health() {
    let args = options();
    let mut telemetry = IngestTelemetry::new();
    telemetry.record_raw_http(args.stream_id, 2, 4_096, 6, NOW);
    telemetry.record_mesh_forward_success(
        "stream",
        args.stream_id,
        &args.mesh_fec_target,
        4_096,
        6,
        6_144,
        NOW,
    );
    telemetry.record_mesh_forward_duration("stream", 750);
    telemetry.record_mesh_forward_stage_duration("stream", "encode_wait", 250);
    telemetry.counters.relay.objects_sent += 1;
    telemetry.record_relay_session_send_success(MediaDatagramRole::Source, 1_200);
    telemetry.record_relay_session_send_success(MediaDatagramRole::Repair, 1_200);
    telemetry.record_fmp4_part(args.stream_id, 1, 42, 8_192, 512, NOW);
    let status = ContribStatusConfig::from_args(&args, 1);

    let metrics = metrics_text(&status.snapshot(&telemetry, NOW));

    assert!(metrics.contains("# TYPE av_contrib_health gauge\n"));
    assert!(metrics.contains("av_contrib_health{state=\"active\"} 1\n"));
    assert!(metrics.contains("av_contrib_raw_http_bytes_total 4096\n"));
    assert!(metrics.contains("av_contrib_mesh_forward_datagrams_total{kind=\"stream\"} 6\n"));
    assert!(metrics.contains(
        "av_contrib_mesh_forward_duration_seconds_bucket{kind=\"stream\",le=\"0.001\"} 1\n"
    ));
    assert!(metrics
        .contains("av_contrib_mesh_forward_duration_seconds_sum{kind=\"stream\"} 0.00075\n"));
    assert!(metrics.contains(
        "av_contrib_mesh_forward_stage_duration_seconds_bucket{kind=\"stream\",stage=\"encode_wait\",le=\"0.00025\"} 1\n"
    ));
    assert!(metrics.contains(
        "av_contrib_stream_latest_fmp4_sequence{stream_id=\"1\",state=\"publishing\"} 42\n"
    ));
    assert!(metrics.contains("av_contrib_relay_session_objects_total 1\n"));
    assert!(metrics.contains("av_contrib_relay_session_carrier_configured{path=\"primary\"} 0\n"));
    assert!(metrics.contains("av_contrib_relay_session_deadline_budget_seconds 1\n"));
    assert!(metrics.contains("av_contrib_relay_session_datagrams_total{role=\"source\"} 1\n"));
    assert!(metrics.contains("av_contrib_relay_session_datagrams_total{role=\"repair\"} 1\n"));
    assert!(metrics
        .contains("av_contrib_relay_session_datagram_bytes_total{role=\"source\"} 1200\n"));
    assert_eq!(prometheus_label_value("node\\\"\n"), "node\\\\\\\"\\n");
}

#[test]
fn contrib_status_reports_waiting_stalled_and_stale_health() {
    let args = options();
    let stream_id_text = args.stream_id.to_string();
    let mut telemetry = IngestTelemetry::new();
    let status_config = ContribStatusConfig::from_args(&args, 1);

    let waiting = status_config.snapshot(&telemetry, NOW);
    assert_eq!(waiting.status, "waiting");
    assert_eq!(waiting.health.state, "waiting");
    assert!(!waiting.health.input_seen);
    assert!(waiting.alerts.iter().any(|alert| alert.code == "waiting_for_input"
        && alert.stream_id_text.as_deref() == Some(stream_id_text.as_str())));

    telemetry.record_mpeg_ts_slot("srt", args.srt_stream_id, 1316, NOW);
    telemetry.counters.mpeg_ts.last_unix_ms =
        NOW.saturating_sub(waiting.health.stale_threshold_ms + 1);
    let stalled = status_config.snapshot(&telemetry, NOW);
    assert_eq!(stalled.status, "stalled");
    assert!(stalled.health.fmp4_input_seen);
    assert!(!stalled.health.output_seen);
    assert!(stalled.alerts.iter().any(|alert| alert.code == "fmp4_input_without_output"
        && alert.stream_id_text.as_deref() == Some(stream_id_text.as_str())));

    telemetry.record_fmp4_part(args.srt_stream_id, 1, 12, 4096, 512, NOW);
    telemetry.counters.fmp4.last_publish_unix_ms =
        NOW.saturating_sub(stalled.health.stale_threshold_ms + 1);
    let stale = status_config.snapshot(&telemetry, NOW);
    assert_eq!(stale.status, "stale");
    assert!(stale.health.output_seen);
    assert!(stale.alerts.iter().any(|alert| alert.code == "fmp4_output_stale"
        && alert.stream_id_text.as_deref() == Some(stream_id_text.as_str())));
}

#[test]
fn contrib_status_reports_hls_response_errors() {
    let args = options();
    let stream_id_text = args.stream_id.to_string();
    let mut telemetry = IngestTelemetry::new();
    let status_config = ContribStatusConfig::from_args(&args, 1);

    telemetry.record_hls_response(ContribHlsResponse {
        unix_ms: NOW,
        method: "GET".to_owned(),
        path: "/1/stream.m3u8".to_owned(),
        query: Some("_HLS_msn=12&_HLS_part=1".to_owned()),
        status: 404,
        bytes: 0,
        content_type: None,
    });
    let snapshot = status_config.snapshot(&telemetry, NOW);

    assert_eq!(snapshot.runtime.hls.responses_total, 1);
    assert_eq!(snapshot.runtime.hls.response_errors, 1);
    assert_eq!(snapshot.runtime.hls.response_not_found, 1);
    assert_eq!(snapshot.runtime.hls.recent_responses[0].path, "/1/stream.m3u8");
    assert_eq!(snapshot.runtime.hls.recent_responses[0].status, 404);
    assert!(snapshot.alerts.iter().any(|alert| alert.code == "hls_response_errors"
        && alert.stream_id_text.as_deref() == Some(stream_id_text.as_str())));
    assert!(snapshot.activity.iter().any(|activity| activity.code == "hls_response_error"));
}

#[test]
fn contrib_status_tracks_current_relay_lane_health_and_recovers() {
    let args = options();
    let mut telemetry = IngestTelemetry::new();
    let status_config = ContribStatusConfig::from_args(&args, 1);

    telemetry.record_fmp4_part(args.stream_id, 1, 12, 4_096, 512, NOW);
    telemetry.record_relay_session_lane_object(RelayCarrierPath::Primary, true, NOW);
    telemetry.record_relay_session_lane_object(RelayCarrierPath::Secondary, true, NOW);
    assert_eq!(status_config.snapshot(&telemetry, NOW).status, "active");

    telemetry.record_relay_session_send_error(MediaDatagramRole::Source);
    telemetry.record_relay_session_lane_object(RelayCarrierPath::Primary, false, NOW);
    let impaired = status_config.snapshot(&telemetry, NOW);
    assert_eq!(impaired.status, "degraded");
    assert_eq!(impaired.runtime.relay_session.primary_lane_state, "impaired");
    assert_eq!(impaired.runtime.relay_session.secondary_lane_state, "healthy");
    assert!(impaired.alerts.iter().any(|alert| alert.code == "relay_lane_impaired"));

    telemetry.record_relay_session_lane_object(RelayCarrierPath::Primary, true, NOW);
    assert_eq!(status_config.snapshot(&telemetry, NOW).status, "degraded");

    telemetry.counters.relay.primary.last_failure_unix_ms =
        NOW.saturating_sub(RELAY_LANE_IMPAIRED_HOLD_MS + 1);
    telemetry.record_relay_session_lane_object(RelayCarrierPath::Primary, true, NOW);
    let recovered = status_config.snapshot(&telemetry, NOW);
    assert_eq!(recovered.status, "active");
    assert_eq!(recovered.runtime.relay_session.source_errors, 1);
    assert_eq!(recovered.runtime.relay_session.primary_lane_objects_failed, 1);
    assert_eq!(recovered.runtime.relay_session.primary_lane_state, "healthy");
    assert!(!recovered.alerts.iter().any(|alert| alert.code == "relay_lane_impaired"));
}

#[test]
fn contrib_status_reports_mesh_forward_errors() {
    let args = options();
    let stream_id_text = args.stream_id.to_string();
    let mut telemetry = IngestTelemetry::new();
    let status_config = ContribStatusConfig::from_args(&args, 1);

    telemetry.record_mesh_forward_error(
        "stream",
        args.stream_id,
        &args.mesh_fec_target,
        "send queue closed",
        NOW,
    );

    let snapshot = status_config.snapshot(&telemetry, NOW);
    assert_eq!(snapshot.status, "degraded");
    assert_eq!(snapshot.health.state, "degraded");
    assert_eq!(snapshot.runtime.mesh_forward.stream_errors, 1);
    assert!(snapshot.alerts.iter().any(|alert| alert.code == "mesh_forward_error"
        && alert.stream_id_text.as_deref() == Some(stream_id_text.as_str())));
    assert!(snapshot.activity.iter().any(|activity| activity.code == "mesh_forward_error"));
}

#[test]
fn contrib_status_reports_ingest_sessions() {
    let args = options();
    let mut telemetry = IngestTelemetry::new();
    let status_config = ContribStatusConfig::from_args(&args, 1);

    telemetry.ensure_ingest_session(
        "srt",
        42,
        SessionOrigin {
            output_stream_id: Some(args.srt_stream_id),
            output_stream_idx: Some(1),
            peer: Some("127.0.0.1:5000".to_owned()),
            path: Some("/srt/42".to_owned()),
        },
        NOW,
    );
    telemetry.record_ingest_session_body("srt", 42, 1316, NOW);
    telemetry.record_mpeg_ts_slot("srt", 42, 1316, NOW);
    let active = status_config.snapshot(&telemetry, NOW);

    assert_eq!(active.runtime.ingest_sessions.active, 1);
    assert_eq!(active.runtime.ingest_sessions.started, 1);
    assert_eq!(active.runtime.ingest_sessions.ended, 0);
    let protocol = active
        .runtime
        .protocols
        .iter()
        .find(|protocol| protocol.protocol == "srt")
        .expect("missing SRT protocol runtime");
    assert_eq!(protocol.units, 1);
    assert_eq!(protocol.bytes, 1316);
    assert_eq!(protocol.active_sessions, 1);
    assert_eq!(protocol.ended_sessions, 0);
    let session = &active.runtime.ingest_sessions.recent[0];
    assert_eq!(session.session_id, 1);
    assert_eq!(session.protocol, "srt");
    assert_eq!(session.stream_id_text, "42");
    assert_eq!(session.output_stream_id_text.as_deref(), Some("1"));
    assert_eq!(session.peer.as_deref(), Some("127.0.0.1:5000"));
    assert_eq!(session.path.as_deref(), Some("/srt/42"));
    assert_eq!(session.state, "active");
    assert_eq!(session.body_slots, 1);
    assert_eq!(session.bytes, 1316);
    assert!(active.activity.iter().any(|activity| activity.code == "ingest_session_started"));

    telemetry.end_ingest_session("srt", 42, "ended", NOW);
    let ended = status_config.snapshot(&telemetry, NOW);
    assert_eq!(ended.runtime.ingest_sessions.active, 0);
    assert_eq!(ended.runtime.ingest_sessions.started, 1);
    assert_eq!(ended.runtime.ingest_sessions.ended, 1);
    let protocol = ended
        .runtime
        .protocols
        .iter()
        .find(|protocol| protocol.protocol == "srt")
        .expect("missing SRT protocol runtime");
    assert_eq!(protocol.active_sessions, 0);
    assert_eq!(protocol.ended_sessions, 1);
    assert_eq!(ended.runtime.ingest_sessions.recent[0].state, "ended");
    assert_eq!(ended.runtime.ingest_sessions.recent[0].end_reason, Some("ended"));
    assert!(ended.activity.iter().any(|activity| activity.code == "ingest_session_ended"));
}

#[test]
fn a_lane_is_held_impaired_after_it_failed() {
    assert_eq!(relay_lane_state(10_000, 0, 0), RelayLaneState::Unknown);
    assert_eq!(relay_lane_state(10_000, 9_000, 0), RelayLaneState::Healthy);
    assert_eq!(relay_lane_state(10_000, 9_000, 9_000), RelayLaneState::Impaired);
    assert_eq!(relay_lane_state(10_000, 9_000, 7_001), RelayLaneState::Impaired);
    assert_eq!(relay_lane_state(10_000, 9_000, 7_000), RelayLaneState::Healthy);
    assert_eq!(RelayLaneState::Impaired.as_str(), "impaired");
    assert_eq!(
        relay_send_stage(RelayCarrierPath::Secondary, MediaDatagramRole::Repair),
        RelayPipelineStage::SecondaryRepairSend
    );
}

#[test]
fn forwarding_counts_the_stages_that_it_got_through() {
    let timings = ForwardTimings {
        encode_wait_us: 1,
        encode_us: 2,
        send_us: 3,
        telemetry_us: 4,
        total_us: 10,
    };
    let mut telemetry = IngestTelemetry::new();
    let sent = ForwardOutcome::Sent { payload_bytes: 10, datagrams: 2, datagram_bytes: 30 };
    telemetry.record_forward("stream", 1, "target", sent, timings, NOW);
    telemetry.record_forward("stream", 1, "target", ForwardOutcome::Refused("no"), timings, NOW);
    telemetry.record_forward("stream", 1, "target", ForwardOutcome::NotEncoded("no"), timings, NOW);
    telemetry.record_forward("stream", 1, "target", ForwardOutcome::OverLimit, timings, NOW);
    telemetry.record_forward("stream", 1, "target", ForwardOutcome::NotSent("no"), timings, NOW);
    let mesh = telemetry.snapshot(NOW).mesh_forward;
    assert_eq!(mesh.stream_payloads, 1);
    assert_eq!(mesh.stream_errors, 3);
    assert_eq!(mesh.stream_stages.encode_wait.count, 5);
    assert_eq!(mesh.stream_stages.encode.count, 3);
    assert_eq!(mesh.stream_stages.send.count, 2);
    assert_eq!(mesh.stream_stages.telemetry.count, 1);
    assert_eq!(mesh.media_stages.encode_wait.count, 0);
    telemetry.record_forward("media", 1, "target", ForwardOutcome::OverLimit, timings, NOW);
    let mesh = telemetry.snapshot(NOW).mesh_forward;
    assert_eq!(mesh.media_stages.encode.count, 1);
}

#[test]
fn activity_is_sampled() {
    assert!(should_sample_activity(3, 100));
    assert!(!should_sample_activity(4, 100));
    assert!(should_sample_activity(100, 100));
}

#[test]
fn streams_protocols_and_active_sessions_are_listed_once() {
    let mut telemetry = IngestTelemetry::new();
    let origin = || SessionOrigin {
        output_stream_id: None,
        output_stream_idx: None,
        peer: None,
        path: None,
    };
    for round in 0..3_u64 {
        for protocol in ["rist", "srt"] {
            for stream_id in [7, 8] {
                telemetry.ensure_ingest_session(protocol, stream_id, origin(), NOW + round);
                telemetry.record_ingest_session_body(protocol, stream_id, 188, NOW + round);
                telemetry.record_mpeg_ts_slot(protocol, stream_id, 188, NOW + round);
            }
        }
        telemetry.end_ingest_session("srt", 8, "ended", NOW + round);
    }
    let runtime = telemetry.snapshot(NOW + 3);
    let mut protocols: Vec<&str> =
        runtime.protocols.iter().map(|protocol| protocol.protocol).collect();
    protocols.sort();
    let listed = protocols.len();
    protocols.dedup();
    assert_eq!(protocols.len(), listed);
    assert_eq!(runtime.ingest_sessions.started, 6);
    assert_eq!(runtime.ingest_sessions.ended, 3);
    assert_eq!(runtime.ingest_sessions.active, 3);
    let mut active: Vec<(&str, String)> = runtime
        .ingest_sessions
        .recent
        .iter()
        .filter(|session| session.state == "active")
        .map(|session| (session.protocol, session.stream_id_text.clone()))
        .collect();
    active.sort();
    assert_eq!(
        active,
        [("rist", "7".to_owned()), ("rist", "8".to_owned()), ("srt", "7".to_owned())]
    );
}
