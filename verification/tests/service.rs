//! Forwarding, publication, relaying, bridging and routing.
use av_contrib::audio_epoch_hls::opaque::PublishedOpaquePart;
use av_contrib::clock::{now, UnixTime};
use av_contrib::fmp4_bridge::segmenter::PublishedFmp4Part;
use av_contrib::service::bridge::{
    direct_stream_idx, peer_of, rtmp_output_stream_id, upload_response_config, BodyStep,
    ClosedBridge, HeaderText, Retirement, RtmpBridges, UploadBridges,
};
use av_contrib::service::daw_relay::{
    classify_daw_datagram, daw_relay_session_ack, daw_relay_session_subscription,
    parse_daw_relay_session_message,
    should_log_audio_epoch_hls_drop, DawAction, DawMessage, DawRelay, DAW_RELAY_TARGET_TTL_MS,
};
use av_contrib::service::endpoint::{
    relay_bind_addr, BindFlag, Endpoint, RelayEndpoints, IPV4_LOCALHOST,
};
use av_contrib::service::forward::{
    any_exceeds, datagram_bytes, first_unsent_target, ForwardConfigError, ForwardError,
    ForwardFailure, ForwardOptions, ForwardStep, ForwardTimings, MeshForwarder, SendResult,
};
use av_contrib::service::intake::{AccessUnitIntake, IntakeAction, IntakeEvent, IntakeStage};
use av_contrib::service::lanes::{
    resolve_relay_lane_results, MediaDatagramRole, RelayCarrierPath, RelayPipelineStage,
};
use av_contrib::service::media_fec::{MediaCodec, MediaFrameMetadata};
use av_contrib::service::media_objects::{
    build_fmp4_initialization_object, build_fmp4_media_object,
    build_live_fmp4_initialization_object, encode_canonical_media_object, encode_mesh_fmp4_slot,
    build_opaque_media_object, relay_deadline_for_object, CanonicalObject, ObjectError,
    ObjectRole, FMP4_MEDIA_TRACK, OPAQUE_MEDIA_TRACK,
};
use av_contrib::service::metrics_report::AudioQueueStats;
use av_contrib::service::playlist::{playlist_options, playlist_part_capacity};
use av_contrib::service::publication::{
    begin_fmp4_part, end_fmp4_part, opaque_of, CanonicalSequences, Fmp4Initializations,
};
use av_contrib::service::relay::{admit_symbol, RelayLanes, RelayPublishError, SymbolError};
use av_contrib::service::router::{
    answer_ingest, content_length_exceeds, has_body_handler, is_streaming,
    legacy_ack_metadata_for_publish_lease, load_publish_ingress_gate, parse_stream_id_query,
    payload_too_large_text, plan_access_unit, publish_authorization_status,
    refuse_repeated_headers, route, route_body, tls_source,
    validate_enforced_ingress_adapters, BodyRoute, GateConfigError, HttpMethod, IngestTotals,
    LeaseFacts, LegacyAdapters, LimitedBody, MediaAccessUnitParams, PayloadFormat,
    PublishAuthorizationMode, PublishRejection, PublishRejectionCode, Route, TlsSource,
    MAX_MEDIA_ACCESS_UNIT_BYTES,
};
use av_contrib::service::sessions::{
    join_session, leave_session, prune_ingest_sessions, SessionOrigin,
};
use av_contrib::service::status::DEFAULT_FLOW_ID;
use av_contrib::service::stream_fec::{
    encode_stream_fec_payload, stream_fec_geometry, StreamFecError, DEFAULT_SOURCE_SYMBOLS,
    MAX_SOURCE_SYMBOLS_PER_BLOCK, MAX_STREAM_FEC_OBJECT_BYTES,
};
use av_contrib::service::telemetry::IngestTelemetry;
use av_contrib::sender::{
    after_feedback, chunk_length, encode_access_unit, frame_flags, CodecArg, Feedback,
    FeedbackStep, SendError,
};
use av_contrib::text::parse_u32_auto;
use media_object::{ClockConfidence, ObjectKind, Stage};
use music_audio_session::{MultichannelAudioSender, MultichannelAudioSessionConfig};
use raptorq_datagram_fec::{
    AudioPayloadKind, AudioSampleFormat, DatagramFecHeader, MediaFecDecoder,
    MultichannelAudioEpoch, MultichannelAudioFecConfig, MultichannelAudioGroup,
};
use raptorq_fec_transport::{
    split_stream_id_prefix, FecDatagramDecoder, MultichannelAudioTransportAdapter,
};
use relay_session::RaptorQObjectEncoder;
use std::collections::HashSet;

const TEST_SOURCE_EPOCH: u64 = 1_784_151_600_000_001;
const NOW: u64 = 1_784_151_600_000;

#[allow(clippy::too_many_arguments)]
fn test_fmp4_part(
    stream_id: u64,
    sequence: u64,
    keyframe: bool,
    video_units: usize,
    audio_units: usize,
    init: Option<&[u8]>,
    bytes: &[u8],
    published_at_unix_ns: i64,
) -> PublishedFmp4Part {
    PublishedFmp4Part {
        stream_id,
        stream_idx: 0,
        sequence,
        duration_ms: 67,
        packaged_at_unix_ns: published_at_unix_ns - 2_000_000,
        published_at_unix_ns,
        init: init.map(|init| init.to_vec()),
        bytes: bytes.to_vec(),
        keyframe,
        video_codec: (video_units > 0).then_some("h264"),
        video_width: (video_units > 0).then_some(1_280),
        video_height: (video_units > 0).then_some(720),
        video_units,
        audio_codec: (audio_units > 0).then_some("aac"),
        audio_units,
    }
}

fn local(port: u16) -> Endpoint {
    Endpoint { is_ipv4: true, ip: IPV4_LOCALHOST, port, flowinfo: 0, scope_id: 0 }
}

fn no_relay() -> RelayEndpoints {
    RelayEndpoints {
        primary_target: None,
        primary_bind: None,
        secondary_target: None,
        secondary_bind: None,
        secondary_seed_source: false,
        deadline_ms: 1_000,
        path_observed: false,
    }
}

fn forward_options() -> ForwardOptions {
    ForwardOptions {
        mesh_fec_target: local(22_001),
        mesh_media_fec_target: local(22_101),
        relay: no_relay(),
        relay_exclusive: false,
        wall_clock_estimated_error_ms: 1_000,
        repair_symbols: 1,
        symbol_size: 1_316,
    }
}

fn decoded(object: &CanonicalObject) -> media_object::MediaObject {
    media_object::decode(&encode_canonical_media_object(object).unwrap()).unwrap()
}

#[test]
fn parses_decimal_and_hex_rist_flow_ids() {
    assert_eq!(parse_u32_auto("0x11223344").unwrap(), DEFAULT_FLOW_ID);
    assert_eq!(parse_u32_auto("287454020").unwrap(), DEFAULT_FLOW_ID);
}

#[test]
fn playlist_capacity_supports_five_millisecond_parts() {
    assert_eq!(playlist_part_capacity(1_000, 50), 128);
    assert_eq!(playlist_part_capacity(1_000, 20), 128);
    assert_eq!(playlist_part_capacity(1_000, 10), 128);
    assert_eq!(playlist_part_capacity(1_000, 5), 208);
    assert_eq!(playlist_part_capacity(u32::MAX, 1), 4_096);
}

#[test]
fn playlists_have_at_least_one_of_everything() {
    let options = playlist_options(0, 0, 0, 0, 0);
    assert_eq!(options.num_playlists, 1);
    assert_eq!(options.segment_min_ms, 1);
    assert_eq!(options.part_target_ms, 1);
    assert_eq!(options.target_duration_ms, 1_000);
    assert_eq!(options.buffer_size_kb, 1);
    assert_eq!(playlist_options(65, 20, 50, 6_000, 800).segment_min_ms, 50);
}

#[test]
fn audio_epoch_hls_drop_logging_is_sampled_under_overload() {
    assert!((1..=16).all(should_log_audio_epoch_hls_drop));
    assert!(should_log_audio_epoch_hls_drop(32));
    assert!(should_log_audio_epoch_hls_drop(10_000));
    assert!(!should_log_audio_epoch_hls_drop(17));
    assert!(!should_log_audio_epoch_hls_drop(9_999));
}

#[test]
fn handoffs_are_counted_and_drops_worth_a_word_are_told() {
    let mut stats = AudioQueueStats { capacity: 8, enqueued: 0, dropped: 16, max_depth: 2 };
    assert!(!stats.record_handoff(true, 5));
    assert!(!stats.record_handoff(true, 3));
    assert_eq!((stats.enqueued, stats.max_depth), (2, 5));
    assert!(!stats.record_handoff(false, 0));
    assert_eq!(stats.dropped, 17);
    stats.dropped = 31;
    assert!(stats.record_handoff(false, 0));
}

#[test]
fn parses_stream_id_query_as_u64_string() {
    let snowflake = "9007199254741993";
    assert_eq!(
        parse_stream_id_query(Some(&format!("stream_id={snowflake}")), 1).unwrap(),
        9_007_199_254_741_993
    );
    assert_eq!(parse_stream_id_query(None, 7).unwrap(), 7);
}

#[test]
fn queries_name_a_stream_or_are_refused() {
    assert_eq!(parse_stream_id_query(Some("a=1&stream=%32&stream_id=3"), 7), Ok(3));
    assert_eq!(
        parse_stream_id_query(Some("stream=x+y"), 7),
        Err("invalid stream_id `x y`: invalid digit found in string".to_owned())
    );
    assert_eq!(
        parse_stream_id_query(Some("stream="), 7),
        Err("invalid stream_id ``: cannot parse integer from empty string".to_owned())
    );
    assert_eq!(
        parse_stream_id_query(Some("stream=18446744073709551616"), 7),
        Err(
            "invalid stream_id `18446744073709551616`: number too large to fit in target type"
                .to_owned()
        )
    );
}

#[test]
fn daw_relay_v2_subscription_is_session_scoped() {
    assert_eq!(
        parse_daw_relay_session_message(
            b"WAVEY-DAW-SUBSCRIBE/2 18446744073709551615",
            b"WAVEY-DAW-SUBSCRIBE/2 ",
        ),
        Some(u64::MAX)
    );
    assert_eq!(
        parse_daw_relay_session_message(b"WAVEY-DAW-SUBSCRIBE/2 all", b"WAVEY-DAW-SUBSCRIBE/2 "),
        None
    );
    assert_eq!(daw_relay_session_ack(42), b"WAVEY-DAW-SUBSCRIBED/2 42");
}

#[test]
fn the_relay_understands_what_its_listeners_send() {
    for session_id in [0, 7, 4_200, u64::MAX] {
        let message = daw_relay_session_subscription(session_id);
        assert_eq!(message, format!("WAVEY-DAW-SUBSCRIBE/2 {session_id}").as_bytes());
        assert_eq!(classify_daw_datagram(&message), DawMessage::SubscribeSession(session_id));
    }
}

#[test]
fn daw_datagrams_are_told_apart() {
    assert_eq!(classify_daw_datagram(b""), DawMessage::Empty);
    assert_eq!(classify_daw_datagram(b"WAVEY-DAW-SUBSCRIBE/1"), DawMessage::Subscribe);
    assert_eq!(
        classify_daw_datagram(b"WAVEY-DAW-SUBSCRIBE/2 7"),
        DawMessage::SubscribeSession(7)
    );
    assert_eq!(
        classify_daw_datagram(b"WAVEY-DAW-SUBSCRIBE/2 18446744073709551616"),
        DawMessage::MalformedSubscribe
    );
    assert_eq!(classify_daw_datagram(b"WAVEY-DAW-UNSUBSCRIBE/1"), DawMessage::Unsubscribe);
    assert_eq!(
        classify_daw_datagram(b"WAVEY-DAW-UNSUBSCRIBE/2 7"),
        DawMessage::UnsubscribeSession(7)
    );
    assert_eq!(
        classify_daw_datagram(b"WAVEY-DAW-UNSUBSCRIBE/2 "),
        DawMessage::MalformedUnsubscribe
    );
    assert_eq!(classify_daw_datagram(b"WAVEY-DAW-SUBSCRIBED/1"), DawMessage::Acknowledgement);
    assert_eq!(classify_daw_datagram(b"WAVEY-DAW-SUBSCRIBED/2 x"), DawMessage::Acknowledgement);
    assert_eq!(classify_daw_datagram(b"AEP1"), DawMessage::AudioEpoch);
    assert_eq!(classify_daw_datagram(b"AEP"), DawMessage::Media);
}

#[test]
fn listeners_are_sent_media_and_access_units_are_recovered() {
    let mut relay = DawRelay::new();
    let subscriber = local(1);
    let source = local(2);
    match relay.take_datagram(subscriber, b"WAVEY-DAW-SUBSCRIBE/1", 0) {
        DawAction::Acknowledge(answer) => assert_eq!(answer, b"WAVEY-DAW-SUBSCRIBED/1"),
        other => panic!("{other:?}"),
    }
    let metadata = MediaFrameMetadata {
        stream_id: 9,
        sequence: 4,
        pts_ms: 100,
        dts_ms: None,
        duration_ms: 0,
        codec: MediaCodec::Opus,
        flags: 0,
    };
    let datagrams = encode_access_unit(metadata, b"opus-soundkit-frame").unwrap();
    let mut frames = Vec::new();
    for datagram in &datagrams {
        match relay.take_datagram(source, datagram, DAW_RELAY_TARGET_TTL_MS - 1) {
            DawAction::Media { relay_to, recovered } => {
                assert_eq!(relay_to, [subscriber]);
                frames.extend(recovered.unwrap());
            }
            other => panic!("{other:?}"),
        }
    }
    assert_eq!(frames.len(), 1);
    assert_eq!(frames[0].metadata, metadata);
    assert_eq!(frames[0].payload, b"opus-soundkit-frame");
    match relay.take_datagram(source, b"no media", DAW_RELAY_TARGET_TTL_MS) {
        DawAction::Media { relay_to, recovered } => {
            assert!(relay_to.is_empty());
            assert!(recovered.is_err());
        }
        other => panic!("{other:?}"),
    }
    relay.clean_up(DAW_RELAY_TARGET_TTL_MS - 1);
    assert!(!relay.targets.is_empty());
    relay.clean_up(DAW_RELAY_TARGET_TTL_MS);
    assert!(relay.targets.is_empty());
}

#[test]
fn audio_goes_to_the_listeners_of_its_session() {
    let transport = MultichannelAudioTransportAdapter::udp(1_200);
    let fec = transport.prepare_fec_config(MultichannelAudioFecConfig::default());
    let mut sender = MultichannelAudioSender::new(MultichannelAudioSessionConfig {
        fec,
        ..MultichannelAudioSessionConfig::default()
    });
    let pcm = vec![7_u8; 240 * 2 * 2];
    let groups = [MultichannelAudioGroup {
        group_id: 0,
        channel_start: 0,
        channel_count: 2,
        payload_kind: AudioPayloadKind::Pcm,
        sample_format: AudioSampleFormat::S16Le,
        flags: 0,
        payload: &pcm,
    }];
    let encoded = sender
        .encode_epoch(MultichannelAudioEpoch {
            session_id: 91,
            config_generation: 1,
            epoch_id: 0,
            pts_samples: 0,
            sample_rate: 48_000,
            frame_count: 240,
            groups: &groups,
        })
        .unwrap();
    let wrapped = transport.wrap_epoch(encoded).unwrap();

    let mut relay = DawRelay::new();
    let (matching, other, every, source) = (local(1), local(2), local(3), local(4));
    let first = wrapped.datagrams[0].payload.to_vec();
    match relay.take_datagram(source, &first, 0) {
        DawAction::Audio { relay_to } => assert!(relay_to.is_empty()),
        action => panic!("{action:?}"),
    }
    match relay.take_datagram(matching, b"WAVEY-DAW-SUBSCRIBE/2 91", 0) {
        DawAction::Acknowledge(answer) => assert_eq!(answer, b"WAVEY-DAW-SUBSCRIBED/2 91"),
        action => panic!("{action:?}"),
    }
    relay.take_datagram(other, b"WAVEY-DAW-SUBSCRIBE/2 92", 0);
    relay.take_datagram(every, b"WAVEY-DAW-SUBSCRIBE/1", 0);
    for datagram in &wrapped.datagrams {
        match relay.take_datagram(source, &datagram.payload, 1) {
            DawAction::Audio { relay_to } => {
                assert_eq!(HashSet::from([1, 3]), relay_to.iter().map(|peer| peer.port).collect());
            }
            action => panic!("{action:?}"),
        }
    }
    relay.take_datagram(matching, b"WAVEY-DAW-UNSUBSCRIBE/2 92", 1);
    assert!(relay.targets.get(&matching).is_some());
    relay.take_datagram(matching, b"WAVEY-DAW-UNSUBSCRIBE/2 91", 1);
    assert!(relay.targets.get(&matching).is_none());
    relay.take_datagram(every, b"WAVEY-DAW-UNSUBSCRIBE/1", 1);
    assert!(relay.targets.get(&every).is_none());
}

#[test]
fn media_access_unit_content_length_is_admitted_within_bound() {
    let accepted = MAX_MEDIA_ACCESS_UNIT_BYTES.to_string();
    let rejected = (MAX_MEDIA_ACCESS_UNIT_BYTES + 1).to_string();

    assert!(!content_length_exceeds(Some(&accepted), MAX_MEDIA_ACCESS_UNIT_BYTES));
    assert!(content_length_exceeds(Some(&rejected), MAX_MEDIA_ACCESS_UNIT_BYTES));
    assert!(!content_length_exceeds(None, 0));
    assert!(!content_length_exceeds(Some("many"), 0));
}

#[test]
fn media_access_unit_streaming_body_stops_at_bound() {
    let mut accepted = LimitedBody::new(8);
    assert!(accepted.push(b"1234"));
    assert!(accepted.push(b"5678"));
    assert_eq!(accepted.bytes, b"12345678");

    let mut rejected = LimitedBody::new(8);
    assert!(rejected.push(b"1234"));
    assert!(!rejected.push(b"56789"));
}

#[test]
fn canonical_fmp4_object_preserves_dependency_timing_duration_and_exact_envelope() {
    const PUBLISHED_NS: i64 = 1_721_000_000_300_000_000;
    let init = b"ftypmoov";
    let media = b"moofmdat";
    let bundled = encode_mesh_fmp4_slot(Some(init), media).unwrap();
    let (initialization, configuration_epoch) =
        build_fmp4_initialization_object(77, TEST_SOURCE_EPOCH, init);
    let part = test_fmp4_part(77, 42, true, 3, 4, Some(init), media, PUBLISHED_NS);
    let original = build_fmp4_media_object(
        &part,
        &bundled,
        initialization.key,
        configuration_epoch,
        TEST_SOURCE_EPOCH,
        1_000,
        250_000,
    )
    .unwrap();
    let object = decoded(&original);

    assert_eq!(
        media_object::encode(&object).unwrap(),
        encode_canonical_media_object(&original).unwrap()
    );
    assert_eq!(object.key().stream(), "77");
    assert_eq!(object.key().track(), FMP4_MEDIA_TRACK);
    assert_eq!(object.key().epoch(), TEST_SOURCE_EPOCH);
    assert_eq!(object.key().object(), 42);
    assert_eq!(object.kind(), ObjectKind::Media);
    assert!(object.is_keyframe());
    assert_eq!(object.configuration_epoch(), configuration_epoch);
    assert_eq!(object.dependencies(), &[decoded(&initialization).key().clone()]);
    assert!(object.capture_timestamp().is_none());
    assert_eq!(object.stage_timestamps().len(), 2);
    assert_eq!(object.stage_timestamps()[0].stage(), Stage::Packaged);
    assert_eq!(
        object.stage_timestamps()[0].timestamp().unix_time_ns(),
        PUBLISHED_NS - 2_000_000
    );
    assert_eq!(object.stage_timestamps()[1].stage(), Stage::Published);
    assert_eq!(object.stage_timestamps()[1].timestamp().unix_time_ns(), PUBLISHED_NS);
    assert_eq!(object.deadline().unwrap().unix_time_ns(), PUBLISHED_NS + 1_000_000_000);
    assert_eq!(object.deadline().unwrap().confidence(), ClockConfidence::estimated(250_000));
    assert_eq!(object.metadata().get("container").unwrap(), b"fmp4");
    assert_eq!(object.metadata().get("duration-ms").unwrap(), b"67");
    assert_eq!(object.metadata().get("payload-format").unwrap(), b"fmp4-slot-v1");
    assert_eq!(object.metadata().get("scheduler-class").unwrap(), b"video-keyframe");
    assert_eq!(object.metadata().get("track-composition").unwrap(), b"audio+video");
    assert_eq!(object.metadata().get("audio-codec").unwrap(), b"aac");
    assert_eq!(object.metadata().get("video-codec").unwrap(), b"h264");
    assert_eq!(object.payload(), &bundled[..]);
}

#[test]
fn canonical_fmp4_retry_and_initialization_identity_are_deterministic() {
    let init = b"stable-init";
    let media = b"stable-media";
    let bundled = encode_mesh_fmp4_slot(Some(init), media).unwrap();
    let (first_initialization, first_epoch) =
        build_fmp4_initialization_object(9, TEST_SOURCE_EPOCH, init);
    let (retry_initialization, retry_epoch) =
        build_fmp4_initialization_object(9, TEST_SOURCE_EPOCH, init);
    assert_eq!(decoded(&first_initialization), decoded(&retry_initialization));
    assert_eq!(first_epoch, retry_epoch);

    let part =
        test_fmp4_part(9, 12, false, 1, 1, Some(init), media, 1_721_000_000_500_000_000);
    let build = || {
        build_fmp4_media_object(
            &part,
            &bundled,
            first_initialization.key,
            first_epoch,
            TEST_SOURCE_EPOCH,
            900,
            500_000,
        )
        .unwrap()
    };
    let first = build();
    let retry = build();
    assert_eq!(decoded(&first), decoded(&retry));
    assert_eq!(
        encode_canonical_media_object(&first).unwrap(),
        encode_canonical_media_object(&retry).unwrap()
    );
    assert_eq!(
        decoded(&first).dependencies(),
        &[decoded(&first_initialization).key().clone()]
    );
    let (next_incarnation, _) =
        build_fmp4_initialization_object(9, TEST_SOURCE_EPOCH + 1, b"stable-init");
    assert_ne!(decoded(&first_initialization).key(), decoded(&next_incarnation).key());

    let (live_initialization, live_epoch) = build_live_fmp4_initialization_object(
        9,
        TEST_SOURCE_EPOCH,
        b"stable-init",
        1_721_000_000_500_000_000,
        900,
        500_000,
    )
    .unwrap();
    assert_eq!(decoded(&live_initialization).key(), decoded(&first_initialization).key());
    assert_eq!(live_epoch, first_epoch);
    assert_eq!(
        decoded(&live_initialization).deadline().unwrap().unix_time_ns(),
        1_721_000_001_400_000_000
    );
}

#[test]
fn muxed_audio_video_uses_audio_priority_until_a_keyframe() {
    let (initialization, epoch) =
        build_fmp4_initialization_object(11, TEST_SOURCE_EPOCH, b"muxed-init");
    let delta = test_fmp4_part(11, 1, false, 2, 2, None, b"delta", 1_721_000_000_500_000_000);
    let delta = decoded(
        &build_fmp4_media_object(
            &delta,
            b"delta",
            initialization.key,
            epoch,
            TEST_SOURCE_EPOCH,
            1_000,
            500_000,
        )
        .unwrap(),
    );
    assert_eq!(delta.metadata().get("scheduler-class").unwrap(), b"audio");
    assert_eq!(
        relay_session::priority_for_object(&delta),
        relay_session::MediaPriority::Audio
    );

    let key = test_fmp4_part(11, 2, true, 2, 2, None, b"key", 1_721_000_000_600_000_000);
    let key = decoded(
        &build_fmp4_media_object(
            &key,
            b"key",
            initialization.key,
            epoch,
            TEST_SOURCE_EPOCH,
            1_000,
            500_000,
        )
        .unwrap(),
    );
    assert_eq!(key.metadata().get("scheduler-class").unwrap(), b"video-keyframe");
    assert_eq!(
        relay_session::priority_for_object(&key),
        relay_session::MediaPriority::VideoKey
    );
}

#[test]
fn objects_are_refused_that_cannot_be_published() {
    let (initialization, epoch) = build_fmp4_initialization_object(1, 2, b"init");
    assert!(matches!(initialization.role, ObjectRole::Initialization { due: None }));
    assert_eq!(relay_deadline_for_object(&initialization), Err(ObjectError::NoDeadline));
    let part = test_fmp4_part(1, 2, true, 1, 0, None, b"media", i64::MAX - 5_000_000);
    let build = |budget: u64| {
        build_fmp4_media_object(&part, b"media", initialization.key, epoch, 2, budget, 1)
    };
    assert_eq!(build(0).unwrap_err(), ObjectError::NoBudget);
    assert_eq!(build(6).unwrap_err(), ObjectError::MediaDeadlineRange);
    let object = build(5).unwrap();
    assert_eq!(
        relay_deadline_for_object(&object),
        Ok((i64::MAX as u64).div_ceil(1_000))
    );
    assert_eq!(
        build_live_fmp4_initialization_object(1, 2, b"init", i64::MAX, 1, 1).unwrap_err(),
        ObjectError::InitializationDeadlineRange
    );
    let early = test_fmp4_part(1, 2, true, 1, 0, None, b"media", -5_000_000);
    let early =
        build_fmp4_media_object(&early, b"media", initialization.key, epoch, 2, 4, 1).unwrap();
    assert_eq!(relay_deadline_for_object(&early), Err(ObjectError::NegativeDeadline));
    let huge = vec![0; 16 * 1024 * 1024 + 1];
    let too_long = build_fmp4_initialization_object(1, 2, &huge).0;
    assert_eq!(
        encode_canonical_media_object(&too_long).unwrap_err(),
        ObjectError::InvalidInitialization
    );
    let too_long =
        build_fmp4_media_object(&part, &huge, initialization.key, epoch, 2, 5, 1).unwrap();
    assert_eq!(
        encode_canonical_media_object(&too_long).unwrap_err(),
        ObjectError::InvalidMedia
    );
    assert_eq!(
        encode_mesh_fmp4_slot(Some(b"ab"), b"xyz").unwrap(),
        b"AVFMP4S1\x00\x00\x00\x02\x00\x00\x00\x03abxyz"
    );
    assert_eq!(
        encode_mesh_fmp4_slot(None, b"xyz").unwrap(),
        b"AVFMP4S1\x00\x00\x00\x00\x00\x00\x00\x03xyz"
    );
}

#[test]
fn parts_are_published_behind_their_initialization() {
    let forwarder = MeshForwarder::new(forward_options(), 5).unwrap();
    let mut sequences = CanonicalSequences::new();
    let mut initializations = Fmp4Initializations::new();
    let mut telemetry = IngestTelemetry::new();
    let mut part = test_fmp4_part(7, 99, true, 1, 1, Some(b"init"), b"media", 1_000);
    begin_fmp4_part(&mut sequences, &mut telemetry, &mut part);
    assert_eq!(part.sequence, 0);
    assert_eq!(
        initializations.media_of(&forwarder, &part).unwrap_err(),
        ObjectError::NoInitialization { stream_id: 7, sequence: 0 }
    );
    let action = initializations.initialization_of(&forwarder, &part).unwrap().unwrap();
    assert!(action.to_mesh && !action.to_relay);
    let sent = media_object::decode(&action.envelope).unwrap();
    assert_eq!(sent.kind(), ObjectKind::Initialization);
    assert_eq!(sent.payload(), b"init");
    initializations.remember(7, action.initialization.unwrap());
    let media = initializations.media_of(&forwarder, &part).unwrap();
    assert!(media.initialization.is_none());
    let published = media_object::decode(&media.envelope).unwrap();
    assert_eq!(published.dependencies(), &[sent.key().clone()]);
    assert_eq!(published.payload(), encode_mesh_fmp4_slot(Some(b"init"), b"media").unwrap());
    end_fmp4_part(&mut telemetry, &part, None, NOW);
    begin_fmp4_part(&mut sequences, &mut telemetry, &mut part);
    assert_eq!(part.sequence, 1);
    end_fmp4_part(&mut telemetry, &part, Some("mesh is gone"), NOW);
    let runtime = telemetry.snapshot(NOW);
    assert_eq!(runtime.fmp4.parts, 1);
    assert_eq!(runtime.fmp4.init_bytes, 4);
    assert_eq!(runtime.fmp4.publish_errors, 1);
}

#[test]
fn relay_session_lane_resolution_preserves_independent_parent_availability() {
    let gone = |lane: &str| Err(format!("{lane} unavailable"));
    assert!(!resolve_relay_lane_results(Ok(()), Some(Ok(())), true).unwrap());
    assert!(resolve_relay_lane_results(Ok(()), Some(gone("secondary")), true).unwrap());
    assert!(resolve_relay_lane_results(gone("primary"), Some(Ok(())), true).unwrap());
    assert!(resolve_relay_lane_results(gone("primary"), Some(Ok(())), false)
        .unwrap_err()
        .message()
        .contains("repair-only"));
    assert!(resolve_relay_lane_results(gone("primary"), Some(gone("secondary")), true)
        .unwrap_err()
        .message()
        .contains("all configured RelaySession lanes failed"));
    assert!(resolve_relay_lane_results(gone("primary"), None, false)
        .unwrap_err()
        .message()
        .contains("only configured RelaySession lane failed"));
}

#[test]
fn relay_session_rejects_unpairable_fixed_endpoints() {
    let endpoint = local(31_001);
    let error = RelayEndpoints {
        primary_target: Some(endpoint),
        primary_bind: Some(endpoint),
        ..no_relay()
    }
    .resolve()
    .err()
    .expect("duplicate bind and target must be rejected");
    assert!(error.message().contains("distinct socket addresses"));

    assert!(relay_bind_addr(BindFlag::Primary, Some(local(0)), endpoint)
        .unwrap_err()
        .message()
        .contains("fixed non-zero port"));
    assert!(relay_bind_addr(
        BindFlag::Primary,
        Some(Endpoint { ip: 0, ..local(31_002) }),
        endpoint,
    )
    .unwrap_err()
    .message()
    .contains("source IP"));
}

fn relay_object(published_ns: i64, budget_ms: u64) -> CanonicalObject {
    let payload = vec![0x5a; 12_000];
    let (initialization, epoch) =
        build_fmp4_initialization_object(8, TEST_SOURCE_EPOCH, b"single-parent-init");
    let part = test_fmp4_part(8, 3, true, 3, 0, None, &payload, published_ns);
    build_fmp4_media_object(
        &part,
        &payload,
        initialization.key,
        epoch,
        TEST_SOURCE_EPOCH,
        budget_ms,
        1_000_000,
    )
    .unwrap()
}

#[test]
fn an_expired_object_is_dropped_before_it_is_coded() {
    let mut telemetry = IngestTelemetry::new();
    let object = relay_object(1_000_000_000, 1);
    let error = telemetry.begin_relay_object(&object, 1_001_000).unwrap_err();
    telemetry.record_relay_session_stage_duration(RelayPipelineStage::Total, 5);
    assert!(error.message().contains("expired before RelaySession encoding"));
    let snapshot = telemetry.snapshot(NOW).relay_session;
    assert_eq!(snapshot.objects_sent, 0);
    assert_eq!(snapshot.deadline_hits, 0);
    assert_eq!(snapshot.deadline_misses, 1);
    assert_eq!(snapshot.expired_objects, 1);
    assert_eq!(snapshot.stages.total.count, 1);
    assert_eq!(snapshot.stages.encode.count, 0);
    assert_eq!(telemetry.begin_relay_object(&object, 1_000_999).unwrap(), 1_001_000);
}

#[test]
fn every_symbol_takes_its_lane_and_the_object_is_recovered() {
    for (secondary, seeded) in [(false, false), (true, false), (true, true)] {
        let lanes = RelayLanes {
            secondary,
            secondary_seed_source: seeded,
            generation: 7,
            subscription_id: 19,
        };
        let object = relay_object(1_000_000_000, 5_000);
        let envelope = encode_canonical_media_object(&object).unwrap();
        let mut telemetry = IngestTelemetry::new();
        let deadline = telemetry.begin_relay_object(&object, 1_500_000).unwrap();
        let mut encoder = RaptorQObjectEncoder::default();
        let symbols =
            telemetry.encode_relay_object(&mut encoder, &envelope, lanes, deadline).unwrap();
        assert!(symbols.source_count > 0 && symbols.repair_count > 0);
        let mut assembler = relay_session::ObjectAssembler::new(
            symbols.encoded.announcement.clone(),
            relay_session::RelayLimits::default(),
        )
        .unwrap();
        let mut recovered = None;
        for path in [RelayCarrierPath::Primary, RelayCarrierPath::Secondary] {
            let mut sent = 0;
            while let Some((role, index)) =
                lanes.next_symbol(path, symbols.source_count, symbols.repair_count, sent)
            {
                let symbol = match role {
                    MediaDatagramRole::Source => &symbols.encoded.source_symbols[index],
                    MediaDatagramRole::Repair => &symbols.encoded.repair_symbols[index],
                };
                let admission = admit_symbol(symbol, deadline, 1_600_000);
                assert!(admission.unwrap() > 0);
                telemetry.record_relay_symbol(path, role, admission, true, 3);
                if sent > 0 && recovered.is_none() {
                    recovered = assembler.push_symbol(symbol).unwrap();
                }
                sent += 1;
            }
            let expected = match path {
                RelayCarrierPath::Primary if secondary => symbols.source_count,
                RelayCarrierPath::Primary => symbols.source_count + symbols.repair_count,
                RelayCarrierPath::Secondary if seeded => {
                    symbols.source_count + symbols.repair_count
                }
                RelayCarrierPath::Secondary if secondary => symbols.repair_count,
                RelayCarrierPath::Secondary => 0,
            };
            assert_eq!(sent, expected);
        }
        assert_eq!(media_object::encode(&recovered.unwrap()).unwrap(), envelope);
        telemetry
            .end_relay_object(Ok(()), secondary.then_some(Ok(())), seeded, deadline, 1_600_000, NOW)
            .unwrap();
        let relay = telemetry.snapshot(NOW).relay_session;
        assert_eq!(relay.objects_sent, 1);
        assert_eq!(relay.deadline_hits, 1);
        assert_eq!(relay.repair_primary_fallback_objects, u64::from(!secondary));
        assert_eq!(relay.repair_datagrams, symbols.repair_count as u64);
        assert_eq!(relay.primary_lane_state, "healthy");
    }
}

#[test]
fn lost_and_late_objects_are_counted_apart() {
    let lanes = RelayLanes {
        secondary: false,
        secondary_seed_source: false,
        generation: 1,
        subscription_id: 1,
    };
    let mut telemetry = IngestTelemetry::new();
    let mut encoder = RaptorQObjectEncoder::default();
    let error =
        telemetry.encode_relay_object(&mut encoder, b"no object", lanes, 1).unwrap_err();
    assert!(matches!(error, RelayPublishError::Encode));
    let lost = telemetry
        .end_relay_object(Err("gone".to_owned()), None, false, 10, 9, NOW)
        .unwrap_err();
    assert!(matches!(lost, RelayPublishError::Lanes(_)));
    let late = telemetry.end_relay_object(Ok(()), None, false, 10, 10, NOW).unwrap_err();
    assert_eq!(
        late.message(),
        "canonical media object expired while RelaySession symbols were emitted"
    );
    let survived =
        telemetry.end_relay_object(Err("gone".to_owned()), Some(Ok(())), true, 10, 9, NOW);
    assert!(survived.is_ok());
    let relay = telemetry.snapshot(NOW).relay_session;
    assert_eq!(relay.encode_errors, 1);
    assert_eq!(relay.all_lanes_failed_objects, 1);
    assert_eq!(relay.deadline_misses, 1);
    assert_eq!(relay.expired_objects, 1);
    assert_eq!(relay.surviving_lane_objects, 1);
    assert_eq!(relay.objects_sent, 1);

    let object = relay_object(1_000_000_000, 5_000);
    let envelope = encode_canonical_media_object(&object).unwrap();
    let symbols =
        telemetry.encode_relay_object(&mut encoder, &envelope, lanes, 10).unwrap();
    let symbol = &symbols.encoded.source_symbols[0];
    assert_eq!(admit_symbol(symbol, 10, 10), Err(SymbolError::Expired));
    let expired = Err(SymbolError::Expired);
    telemetry.record_relay_symbol(
        RelayCarrierPath::Primary,
        MediaDatagramRole::Source,
        expired,
        false,
        1,
    );
    assert_eq!(telemetry.snapshot(NOW).relay_session.expired_symbols, 1);
}

#[test]
fn parallel_stream_encoder_reserves_exact_unique_wire_ids() {
    let stream_id = 77;
    let symbol_size = 64;
    let repair_symbols = 2;
    let payload = vec![0x5a; DEFAULT_SOURCE_SYMBOLS as usize * 64 * 2 + 17];
    let geometry = stream_fec_geometry(payload.len(), symbol_size, repair_symbols).unwrap();
    let datagrams =
        encode_stream_fec_payload(stream_id, &payload, repair_symbols, symbol_size, 10, 100)
            .unwrap();

    assert_eq!(geometry.block_count, 1);
    assert_eq!(geometry.packet_count as usize, datagrams.len());
    let mut block_ids = HashSet::new();
    let mut packet_sequences = HashSet::new();
    for datagram in &datagrams {
        let (decoded_stream_id, raw) = split_stream_id_prefix(datagram).unwrap();
        assert_eq!(decoded_stream_id, stream_id);
        let header = DatagramFecHeader::decode(raw).unwrap();
        header.payload(raw).unwrap();
        block_ids.insert(header.block_id);
        packet_sequences.insert(header.packet_sequence);
    }
    assert_eq!(block_ids, HashSet::from([10]));
    assert_eq!(packet_sequences.len(), datagrams.len());
    assert_eq!(packet_sequences.iter().min(), Some(&100));
    assert_eq!(packet_sequences.iter().max(), Some(&(100 + datagrams.len() as u32 - 1)));

    let mut decoder = FecDatagramDecoder::webtransport_with_stream_prefix(stream_id);
    let decoded = datagrams
        .iter()
        .skip(1)
        .filter_map(|datagram| decoder.push_datagram(datagram).unwrap())
        .collect::<Vec<_>>();
    assert_eq!(decoded, vec![payload]);
}

#[test]
fn stream_fec_geometry_rejects_objects_beyond_raptorq_kmax() {
    let error = stream_fec_geometry(MAX_SOURCE_SYMBOLS_PER_BLOCK as usize + 1, 1, 1).unwrap_err();
    assert!(error.message().contains("too large"));
}

#[test]
fn stream_fec_geometry_enforces_application_object_and_datagram_bounds() {
    let object_error =
        stream_fec_geometry(MAX_STREAM_FEC_OBJECT_BYTES as usize + 1, 1_316, 1).unwrap_err();
    assert!(object_error.message().contains("too large"));

    let datagram_error = stream_fec_geometry(32_768, 1, 8).unwrap_err();
    assert!(datagram_error.message().contains("RaptorQ datagrams"));
    assert_eq!(stream_fec_geometry(1, 1, u32::MAX), Err(StreamFecError::PacketSpace));
    assert_eq!(stream_fec_geometry(5, 1, u32::MAX), Err(StreamFecError::RepairSpace));
}

#[test]
fn stream_fec_roundtrips_one_large_object_after_source_loss_and_reordering() {
    let stream_id = 77;
    let payload = (0..6_001).map(|index| ((index * 31 + 17) % 251) as u8).collect::<Vec<_>>();
    let datagrams = encode_stream_fec_payload(stream_id, &payload, 1, 1_316, 40, 1_000).unwrap();
    assert_eq!(datagrams.len(), 7);
    assert!(datagrams.iter().all(|datagram| {
        let (_, raw) = split_stream_id_prefix(datagram).unwrap();
        DatagramFecHeader::decode(raw).unwrap().block_id == 40
    }));

    let mut decoder = FecDatagramDecoder::webtransport_with_stream_prefix(stream_id);
    let decoded = datagrams
        .iter()
        .skip(1)
        .rev()
        .filter_map(|datagram| decoder.push_datagram(datagram).unwrap())
        .collect::<Vec<_>>();
    assert_eq!(decoded, vec![payload]);
}

#[test]
fn slots_keep_to_their_limit_and_never_share_numbers() {
    let mut forwarder = MeshForwarder::new(forward_options(), 0).unwrap();
    assert_eq!(forwarder.source_epoch, 1);
    assert_eq!(forwarder.reserve_stream_slot(0, None), Ok(None));
    assert_eq!(forwarder.reserve_stream_slot(1, Some(44)), Err(ForwardError::LimitExceeded));
    assert_eq!(
        forwarder.reserve_stream_slot(1, Some(70_000)),
        Err(ForwardError::LimitExceeded)
    );
    let mut block_ids = HashSet::new();
    let mut sequences = HashSet::new();
    for index in 0..32_u32 {
        let mut payload = vec![0x5a; 4_096];
        payload[..4].copy_from_slice(&index.to_be_bytes());
        let reservation =
            forwarder.reserve_stream_slot(payload.len(), Some(1_200)).unwrap().unwrap();
        assert_eq!(reservation.symbol_size, 1_156);
        let datagrams = forwarder.encode_stream_slot(77, &payload, reservation).unwrap();
        assert!(!any_exceeds(&datagrams, Some(1_200)));
        assert!(any_exceeds(&datagrams, Some(1_199)));
        assert_eq!(datagram_bytes(&datagrams), 1_200 * datagrams.len() as u64);
        let mut decoder = FecDatagramDecoder::webtransport_with_stream_prefix(77);
        let mut decoded = Vec::new();
        for datagram in &datagrams {
            let (_, raw) = split_stream_id_prefix(datagram).unwrap();
            let header = DatagramFecHeader::decode(raw).unwrap();
            header.payload(raw).unwrap();
            block_ids.insert(header.block_id);
            assert!(sequences.insert(header.packet_sequence));
            decoded.extend(decoder.push_datagram(datagram).unwrap());
        }
        assert_eq!(decoded, vec![payload]);
    }
    assert_eq!(block_ids.len(), 32);
}

#[test]
fn a_slot_is_reserved_coded_and_sent() {
    let timings = ForwardTimings {
        encode_wait_us: 1,
        encode_us: 2,
        send_us: 3,
        telemetry_us: 4,
        total_us: 10,
    };
    let mut forwarder = MeshForwarder::new(forward_options(), 0).unwrap();
    let mut telemetry = IngestTelemetry::new();
    let none = forwarder.reserve_stream_slot(0, None);
    let step = telemetry.slot_reserved(9, "target", none, timings, 5);
    assert!(matches!(step, ForwardStep::Finish(0)));
    let unauthorized = forwarder.reserve_stream_slot(1, Some(44));
    let step = telemetry.slot_reserved(9, "target", unauthorized, timings, 5);
    assert!(matches!(
        step,
        ForwardStep::Fail(ForwardFailure::Refused(ForwardError::LimitExceeded))
    ));
    let mesh = telemetry.snapshot(5).mesh_forward;
    assert_eq!(mesh.stream_errors, 0);
    assert_eq!(mesh.stream_stages.encode_wait.count, 0);

    let payload = vec![7; 3_000];
    let reserved = forwarder.reserve_stream_slot(payload.len(), Some(1_200));
    let ForwardStep::Encode(reservation) =
        telemetry.slot_reserved(9, "target", reserved, timings, 5)
    else {
        panic!("the slot is coded");
    };
    let encoded = forwarder.encode_stream_slot(9, &payload, reservation);
    let step =
        telemetry.payload_coded("stream", 9, "target", encoded, Some(1_199), timings, 5);
    assert!(matches!(
        step,
        ForwardStep::Fail(ForwardFailure::Refused(ForwardError::LimitExceeded))
    ));
    let encoded = forwarder.encode_stream_slot(9, &payload, reservation);
    let ForwardStep::Send(datagrams) =
        telemetry.payload_coded("stream", 9, "target", encoded, Some(1_200), timings, 5)
    else {
        panic!("the slot is sent");
    };
    let lost = Err("no route".to_owned());
    let ForwardStep::Fail(failure) =
        telemetry.payload_sent("stream", 9, "target", payload.len(), &datagrams, lost, timings, 5)
    else {
        panic!("nothing went out");
    };
    assert_eq!(failure.message(), "no route");
    let step =
        telemetry.payload_sent("stream", 9, "target", payload.len(), &datagrams, Ok(()), timings, 5);
    let ForwardStep::Finish(count) = step else {
        panic!("all of it went out");
    };
    assert_eq!(count, datagrams.len());
    let mesh = telemetry.snapshot(5).mesh_forward;
    assert_eq!(mesh.stream_payloads, 1);
    assert_eq!(mesh.stream_errors, 1);
    assert_eq!(mesh.stream_stages.send.count, 2);

    let uncoded = Err(ForwardError::MediaEncode);
    let ForwardStep::Fail(failure) =
        telemetry.payload_coded("media", 9, "target", uncoded, None, timings, 5)
    else {
        panic!("nothing is sent");
    };
    assert_eq!(
        failure.message(),
        "failed to encode media access unit for mesh RaptorQ-FEC"
    );
    let uncodable = Err(ForwardError::Fec(StreamFecError::TooManyDatagrams { packet_count: 70_000 }));
    let step = telemetry.slot_reserved(9, "target", uncodable, timings, 5);
    assert!(matches!(step, ForwardStep::Fail(ForwardFailure::Refused(ForwardError::Fec(_)))));
    assert_eq!(telemetry.snapshot(5).mesh_forward.stream_errors, 2);
}

#[test]
fn forwarding_is_set_up_or_refused() {
    let fails = |options: ForwardOptions| MeshForwarder::new(options, 1).unwrap_err();
    let options = forward_options();
    let no_deadline =
        ForwardOptions { relay: RelayEndpoints { deadline_ms: 0, ..no_relay() }, ..options };
    assert_eq!(fails(no_deadline), ForwardConfigError::NoDeadline);
    let exact = ForwardOptions { wall_clock_estimated_error_ms: 0, ..options };
    assert_eq!(fails(exact), ForwardConfigError::NoClockError);
    let wide = ForwardOptions { wall_clock_estimated_error_ms: u64::MAX, ..options };
    assert_eq!(fails(wide), ForwardConfigError::ClockErrorRange);
    let exclusive = ForwardOptions { relay_exclusive: true, ..options };
    assert_eq!(
        fails(exclusive).message(),
        "--relay-exclusive requires --relay-primary-target"
    );
    let bound =
        ForwardOptions { relay: RelayEndpoints { primary_bind: Some(local(5)), ..no_relay() }, ..options };
    assert!(matches!(fails(bound), ForwardConfigError::Relay(_)));
    let relayed = RelayEndpoints {
        primary_target: Some(local(22_101)),
        secondary_target: Some(local(9)),
        ..no_relay()
    };
    let mut forwarder =
        MeshForwarder::new(ForwardOptions { relay: relayed, ..options }, 1).unwrap();
    assert_eq!(forwarder.audio_epoch_targets, [local(9), local(22_101)]);
    assert_eq!(forwarder.estimated_clock_error_ns, 1_000_000_000);
    assert_eq!(forwarder.allocate_media_sequence(), 0);
    assert_eq!(forwarder.allocate_media_sequence(), 1);
}

#[test]
fn the_first_target_that_failed_is_told() {
    let sent = SendResult::Sent(10);
    assert_eq!(first_unsent_target(&vec![sent, sent], 10), None);
    assert_eq!(first_unsent_target(&vec![sent, SendResult::Sent(9), SendResult::Failed], 10), Some(1));
    assert_eq!(first_unsent_target(&vec![SendResult::Failed], 10), Some(0));
}

#[test]
fn access_units_are_coded_and_recovered() {
    let metadata = MediaFrameMetadata {
        stream_id: 9,
        sequence: 4,
        pts_ms: 100,
        dts_ms: Some(90),
        duration_ms: 20,
        codec: MediaCodec::H264,
        flags: frame_flags(true, false, true, false),
    };
    assert_eq!(metadata.flags, 5);
    let mut forwarder = MeshForwarder::new(forward_options(), 1).unwrap();
    let payload = vec![3; 5_000];
    let datagrams = forwarder.encode_media_access_unit(metadata, &payload, None).unwrap();
    let mut decoder = MediaFecDecoder::new();
    let mut frames = Vec::new();
    for datagram in &datagrams {
        frames.extend(decoder.push_datagram(datagram).unwrap());
    }
    assert_eq!(frames.len(), 1);
    assert_eq!(frames[0].payload, payload);
    assert_eq!(frames[0].metadata.dts_ms, Some(90));
    assert_eq!(frames[0].metadata.flags.bits(), 5);
    assert_eq!(
        forwarder.encode_media_access_unit(metadata, &payload, Some(100)),
        Err(ForwardError::LimitExceeded)
    );
    let far = MediaFrameMetadata { dts_ms: Some(1_000_000), ..metadata };
    assert_eq!(
        forwarder.encode_media_access_unit(far, &payload, None),
        Err(ForwardError::MediaEncode)
    );
    assert_eq!(encode_access_unit(far, &payload), Err(SendError::Encode));
    let long = MediaFrameMetadata { duration_ms: 65_536, ..metadata };
    assert_eq!(encode_access_unit(long, &payload), Err(SendError::Duration));
}

#[test]
fn senders_name_codecs_and_look_for_answers() {
    assert_eq!(CodecArg::Auto.resolve(MediaCodec::Aac), MediaCodec::Aac);
    assert_eq!(CodecArg::Auto.codec(), MediaCodec::Data);
    assert_eq!(CodecArg::Opus.resolve(MediaCodec::Aac), MediaCodec::Opus);
    assert_eq!(after_feedback(31, Feedback::Taken), FeedbackStep::Again);
    assert_eq!(after_feedback(32, Feedback::Taken), FeedbackStep::Done);
    assert_eq!(after_feedback(0, Feedback::Nothing), FeedbackStep::Done);
    assert_eq!(after_feedback(0, Feedback::Failed), FeedbackStep::Fail);
    assert_eq!(chunk_length(0), 1);
    assert_eq!(chunk_length(1_316), 1_316);
}

#[test]
fn requests_are_answered_by_method_and_path() {
    let status = |method: HttpMethod, path: &str| match route(method, path) {
        Route::Reply(reply) => reply.status,
        _ => 0,
    };
    assert_eq!(status(HttpMethod::Options, "/"), 204);
    assert_eq!(status(HttpMethod::Post, "/"), 405);
    assert_eq!(status(HttpMethod::Get, "/"), 200);
    assert_eq!(status(HttpMethod::Head, "/up"), 200);
    assert_eq!(status(HttpMethod::Get, "/ingest"), 405);
    assert_eq!(status(HttpMethod::Get, "/media/access-unit"), 405);
    assert!(matches!(route(HttpMethod::Get, "/api/status"), Route::Status));
    assert!(matches!(route(HttpMethod::Get, "/metrics"), Route::Metrics));
    assert!(matches!(route(HttpMethod::Get, "/1/stream.m3u8"), Route::Hls));
    let off = PublishAuthorizationMode::Off;
    assert!(matches!(route_body(off, HttpMethod::Put, "/ingest"), BodyRoute::Ingest));
    for mode in [PublishAuthorizationMode::Observe, PublishAuthorizationMode::Enforce] {
        let asked = route_body(mode, HttpMethod::Put, "/ingest");
        assert!(matches!(asked, BodyRoute::AuthorizeIngest));
        assert!(matches!(route_body(mode, HttpMethod::Get, "/ingest"), BodyRoute::Reply(_)));
    }
    assert!(matches!(answer_ingest(None), BodyRoute::Ingest));
    let refused = PublishRejection {
        code: PublishRejectionCode::MalformedAuthorization,
        field: "authorization",
    };
    assert!(matches!(
        answer_ingest(Some(refused)),
        BodyRoute::Reject(rejection) if rejection.field == "authorization"
    ));
    assert!(matches!(route_body(off, HttpMethod::Get, "/ingest"), BodyRoute::Reply(_)));
    assert!(matches!(route_body(off, HttpMethod::Post, "/media/access-unit"), BodyRoute::AccessUnit));
    assert!(matches!(route_body(off, HttpMethod::Head, "/media/access-unit"), BodyRoute::Reply(_)));
    assert!(matches!(route_body(off, HttpMethod::Post, "/x"), BodyRoute::Hls));
    assert!(has_body_handler("/ingest") && !has_body_handler("/up"));
    assert!(is_streaming("/api/status/events", false));
    assert!(!is_streaming("/x", false) && is_streaming("/x", true));
    assert_eq!(payload_too_large_text(12), "media access unit exceeds 12 bytes\n");
    let mut totals = IngestTotals::none();
    assert!(!totals.take_chunk(0));
    assert!(totals.take_chunk(7));
    totals.forwarded(3);
    assert_eq!(totals, IngestTotals { chunks: 1, bytes: 7, datagrams: 3 });
    assert_eq!(tls_source(true, true), Ok(TlsSource::Files));
    assert_eq!(tls_source(false, false), Ok(TlsSource::Default));
    assert!(tls_source(true, false).is_err());
}

#[test]
fn publishing_is_authorized_as_configured() {
    assert_eq!(load_publish_ingress_gate(None, false, false), Ok(PublishAuthorizationMode::Off));
    assert_eq!(load_publish_ingress_gate(Some("OFF"), false, false), Ok(PublishAuthorizationMode::Off));
    assert_eq!(load_publish_ingress_gate(Some("Dark"), false, true), Ok(PublishAuthorizationMode::Observe));
    assert_eq!(load_publish_ingress_gate(Some("enforce"), true, true), Ok(PublishAuthorizationMode::Enforce));
    assert_eq!(
        load_publish_ingress_gate(Some("enforce"), false, true),
        Err(GateConfigError::NotBuilt)
    );
    assert_eq!(
        load_publish_ingress_gate(Some("observe"), false, false),
        Err(GateConfigError::NoBundle)
    );
    assert_eq!(
        load_publish_ingress_gate(Some("sometimes"), true, true),
        Err(GateConfigError::UnknownMode)
    );
    let none = LegacyAdapters { daw: false, rist: false, srt: false, rtmp: false };
    assert!(validate_enforced_ingress_adapters(PublishAuthorizationMode::Enforce, none).is_ok());
    let some = LegacyAdapters { daw: true, srt: true, rtmp: true, ..none };
    assert!(validate_enforced_ingress_adapters(PublishAuthorizationMode::Observe, some).is_ok());
    assert_eq!(
        validate_enforced_ingress_adapters(PublishAuthorizationMode::Enforce, some).unwrap_err(),
        "publish enforcement cannot start unauthenticated legacy adapters: DAW UDP, SRT, RTMP"
    );
    assert_eq!(publish_authorization_status(PublishRejectionCode::InvalidSignature), 401);
    assert_eq!(publish_authorization_status(PublishRejectionCode::LegacyPath), 403);
    assert_eq!(publish_authorization_status(PublishRejectionCode::FrameReplay), 409);
    assert_eq!(publish_authorization_status(PublishRejectionCode::RevokedBinding), 410);
    assert_eq!(publish_authorization_status(PublishRejectionCode::DatagramLimit), 413);
    assert_eq!(publish_authorization_status(PublishRejectionCode::MalformedEnvelope), 400);
    assert!(refuse_repeated_headers(1, 1, 1).is_none());
    assert_eq!(refuse_repeated_headers(2, 2, 2).unwrap().field, "authorization");
    assert_eq!(refuse_repeated_headers(1, 2, 2).unwrap().field, "frame_envelope");
    assert_eq!(refuse_repeated_headers(0, 0, 2).unwrap().field, "content_length");
}

fn params() -> MediaAccessUnitParams {
    MediaAccessUnitParams {
        stream_id: 5,
        sequence: None,
        pts_ms: 1,
        dts_ms: Some(1),
        duration_ms: 1,
        codec: MediaCodec::H264,
        codec_explicit: false,
        flags: 0,
    }
}

fn lease() -> LeaseFacts {
    LeaseFacts {
        sequence: 12,
        payload_format: PayloadFormat::Opus,
        capture_pts: 96_000,
        capture_timebase_hz: 48_000,
        duration_ticks: 961,
        payload_bytes: 100,
        max_datagram_bytes: 1_200,
    }
}

#[test]
fn leases_decide_what_is_acknowledged() {
    let secure = legacy_ack_metadata_for_publish_lease(params(), lease()).unwrap();
    assert_eq!(secure.sequence, Some(12));
    assert_eq!(secure.pts_ms, 2_000);
    assert_eq!(secure.dts_ms, None);
    assert_eq!(secure.duration_ms, 21);
    assert_eq!(secure.codec, MediaCodec::Opus);
    let field = |params: MediaAccessUnitParams, lease: LeaseFacts| {
        legacy_ack_metadata_for_publish_lease(params, lease).unwrap_err().field
    };
    let other = MediaAccessUnitParams { sequence: Some(11), ..params() };
    assert_eq!(field(other, lease()), "sequence");
    let explicit = MediaAccessUnitParams { codec_explicit: true, ..params() };
    assert_eq!(field(explicit, lease()), "payload_format");
    assert_eq!(field(params(), LeaseFacts { capture_pts: -1, ..lease() }), "capture_pts");
    let early = LeaseFacts { capture_pts: i64::MAX, capture_timebase_hz: 1, ..lease() };
    assert_eq!(field(params(), early), "capture_pts");
    let long = LeaseFacts { duration_ticks: 3_145_681, ..lease() };
    assert_eq!(field(params(), long), "duration_ticks");
    let short = LeaseFacts { duration_ticks: 0, payload_format: PayloadFormat::Json, ..lease() };
    let secure = legacy_ack_metadata_for_publish_lease(params(), short).unwrap();
    assert_eq!((secure.duration_ms, secure.codec), (1, MediaCodec::Data));
    let plan = plan_access_unit(PublishAuthorizationMode::Observe, Some(lease()));
    assert_eq!(plan.body_limit, MAX_MEDIA_ACCESS_UNIT_BYTES);
    assert!(plan.revalidates && !plan.as_leased_object);
}

#[test]
fn access_units_are_taken_in_step_by_step() {
    let (mut open, action) = AccessUnitIntake::begin(PublishAuthorizationMode::Off, params());
    assert!(matches!(action, IntakeAction::ReadBody(MAX_MEDIA_ACCESS_UNIT_BYTES)));
    assert!(matches!(
        open.step(IntakeEvent::BodyRead(7)),
        IntakeAction::ForwardAccessUnit(None)
    ));
    assert!(matches!(open.step(IntakeEvent::Forwarded(3)), IntakeAction::Accept(3)));
    assert_eq!(open.stage, IntakeStage::Done);

    let enforce = PublishAuthorizationMode::Enforce;
    let (mut leased, action) = AccessUnitIntake::begin(enforce, params());
    assert!(matches!(action, IntakeAction::Authorize));
    assert!(matches!(
        leased.step(IntakeEvent::Admitted(Some(lease()))),
        IntakeAction::ReadBody(100)
    ));
    let mut too_long = leased;
    assert!(matches!(too_long.step(IntakeEvent::BodyTooLong), IntakeAction::TooLarge(100)));
    assert!(matches!(leased.step(IntakeEvent::BodyRead(99)), IntakeAction::Revalidate));
    assert!(matches!(leased.step(IntakeEvent::StillValid), IntakeAction::BuildObject));
    let mut large = leased;
    match large.step(IntakeEvent::ObjectBuilt(8 * 1024 * 1024 + 1)) {
        IntakeAction::Reject(rejection) => {
            assert_eq!(rejection.code, PublishRejectionCode::EnvelopeTooLarge);
        }
        action => panic!("{action:?}"),
    }
    let mut failed = leased;
    assert!(matches!(failed.step(IntakeEvent::ObjectFailed), IntakeAction::Fail(_)));
    assert!(matches!(
        leased.step(IntakeEvent::ObjectBuilt(500)),
        IntakeAction::ForwardObject(Some(1_200))
    ));
    match leased.step(IntakeEvent::NotForwarded(ForwardError::LimitExceeded)) {
        IntakeAction::Reject(rejection) => assert_eq!(rejection.field, "max_datagram_bytes"),
        action => panic!("{action:?}"),
    }

    let (mut refused, _) = AccessUnitIntake::begin(enforce, params());
    let rejection =
        PublishRejection { code: PublishRejectionCode::WrongScope, field: "capability" };
    match refused.step(IntakeEvent::Refused(rejection)) {
        IntakeAction::Reject(rejection) => assert_eq!(rejection.field, "capability"),
        action => panic!("{action:?}"),
    }
    let other = MediaAccessUnitParams { sequence: Some(1), ..params() };
    let (mut mismatched, _) = AccessUnitIntake::begin(enforce, other);
    match mismatched.step(IntakeEvent::Admitted(Some(lease()))) {
        IntakeAction::Reject(rejection) => assert_eq!(rejection.field, "sequence"),
        action => panic!("{action:?}"),
    }
}

#[test]
fn uploads_are_bridged_one_to_the_configured_stream() {
    let mut telemetry = IngestTelemetry::new();
    let mut bridges = UploadBridges::new("srt", 6, 3);
    for stream in [41, 42] {
        bridges.track(&mut telemetry, stream, NOW);
        bridges.track(&mut telemetry, stream, NOW);
    }
    assert_eq!(telemetry.snapshot(NOW).ingest_sessions.started, 2);
    assert_eq!(bridges.pending(41, 0), None);
    assert_eq!(bridges.pending(41, 4), Some((1, 4)));
    let headers = vec![
        HeaderText { name: "host".to_owned(), value: "h".to_owned() },
        HeaderText { name: "X-Rist-Peer-Addr".to_owned(), value: "127.0.0.1:9".to_owned() },
        HeaderText { name: "x-peer-addr".to_owned(), value: "127.0.0.1:10".to_owned() },
    ];
    assert_eq!(peer_of(&headers).as_deref(), Some("127.0.0.1:9"));
    bridges.take_headers(&mut telemetry, 41, "/srt/41".to_owned(), &headers, NOW);
    assert_eq!(bridges.public_stream(41), 6);
    assert_eq!(
        bridges.take_body(&mut telemetry, 41, 99, 1_316, NOW),
        Some(BodyStep { open: Some((6, 3)), register_reader: true })
    );
    assert_eq!(
        bridges.take_body(&mut telemetry, 41, 99, 1_316, NOW),
        Some(BodyStep { open: None, register_reader: false })
    );
    assert_eq!(bridges.public_stream(42), 42);
    assert_eq!(
        bridges.take_body(&mut telemetry, 42, 99, 188, NOW),
        Some(BodyStep { open: Some((42, 99)), register_reader: true })
    );
    let closed = bridges.take_end(&mut telemetry, 41, NOW);
    assert_eq!(closed, ClosedBridge { finish: true, ends_playlist: Some(6) });
    bridges.slots_read(41, 4, true);
    assert_eq!(bridges.pending(41, 9), None);
    bridges.slots_read(42, 4, false);
    assert_eq!(bridges.pending(42, 9), Some((5, 9)));
    assert_eq!(bridges.stale(&vec![41]), [42]);
    assert_eq!(
        bridges.retire(&mut telemetry, 42, Retirement::Inactive, NOW),
        Some(ClosedBridge { finish: true, ends_playlist: Some(42) })
    );
    assert_eq!(bridges.retire(&mut telemetry, 42, Retirement::Inactive, NOW), None);
    assert_eq!(
        bridges.retire(&mut telemetry, 41, Retirement::Shutdown, NOW),
        Some(ClosedBridge { finish: true, ends_playlist: None })
    );
    let runtime = telemetry.snapshot(NOW);
    assert_eq!(runtime.mpeg_ts.slots, 3);
    assert_eq!(runtime.ingest_sessions.ended, 2);
    assert_eq!(upload_response_config().slots_per_stream, 32_768);
    assert_eq!(direct_stream_idx(64, 65), Some(64));
    assert_eq!(direct_stream_idx(65, 65), None);
}

#[test]
fn rtmp_uploads_are_bridged_under_their_own_numbers() {
    assert_eq!(rtmp_output_stream_id(9, 7, true), 7);
    assert_eq!(rtmp_output_stream_id(0, 7, false), 7);
    assert_eq!(rtmp_output_stream_id(9, 7, false), 9);
    let mut telemetry = IngestTelemetry::new();
    let mut bridges = RtmpBridges::new(7);
    assert_eq!(bridges.opens_as(11), Some(7));
    bridges.take_access_unit(&mut telemetry, 11, "live/key", 2, 500, NOW);
    assert_eq!(bridges.opens_as(11), None);
    bridges.take_access_unit(&mut telemetry, 12, "live/other", 3, 500, NOW);
    assert_eq!(bridges.take_end(&mut telemetry, 12, NOW), Some(12));
    assert_eq!(bridges.take_end(&mut telemetry, 12, NOW), None);
    assert_eq!(bridges.take_end(&mut telemetry, 11, NOW), Some(7));
    let runtime = telemetry.snapshot(NOW);
    assert_eq!(runtime.rtmp.access_units, 2);
    assert_eq!(runtime.ingest_sessions.started, 2);
    assert_eq!(runtime.ingest_sessions.ended, 2);
}

#[test]
fn the_clock_is_read_in_every_unit() {
    let time = UnixTime { seconds: 12, nanoseconds: 345_678_901 };
    assert_eq!(time.millis(), 12_345);
    assert_eq!(time.micros(), 12_345_678);
    assert_eq!(time.nanos(), 12_345_678_901);
    assert_eq!(time.whole_seconds(), 12);
    let far = UnixTime { seconds: u64::MAX, nanoseconds: 0 };
    assert_eq!(far.nanos(), i64::MAX);
    assert_eq!(far.whole_seconds(), i64::MAX);
    assert!(now().seconds > 1_600_000_000);
}

#[test]
fn source_datagrams_carry_the_slot_itself() {
    let payload: Vec<u8> = (1..=10).collect();
    let datagrams = encode_stream_fec_payload(7, &payload, 2, 4, 5, u32::MAX).unwrap();
    assert_eq!(datagrams.len(), 5);
    assert_eq!(datagrams[0][..8], 7_u64.to_be_bytes());
    assert_eq!(datagrams[0][8..16], *b"RQD2\x02\x20\x01\x01");
    assert_eq!(datagrams[0][16..20], 5_u32.to_le_bytes());
    assert_eq!(datagrams[0][20..24], 10_u32.to_le_bytes());
    assert_eq!(datagrams[0][24..28], u32::MAX.to_le_bytes());
    assert_eq!(datagrams[1][24..28], 0_u32.to_le_bytes());
    assert_eq!(datagrams[0][28..30], 3_u16.to_le_bytes());
    assert_eq!(datagrams[0][30..32], 4_u16.to_le_bytes());
    assert_eq!(datagrams[0][32..36], 8_u32.to_le_bytes());
    assert_eq!(datagrams[0][44..], [1, 2, 3, 4]);
    assert_eq!(datagrams[1][44..], [5, 6, 7, 8]);
    assert_eq!(datagrams[2][44..], [9, 10, 0, 0]);
}

#[test]
fn opaque_parts_are_published_by_themselves() {
    const PUBLISHED_NS: i64 = 1_721_000_000_300_000_000;
    let part = PublishedOpaquePart {
        stream_id: 77,
        stream_idx: 3,
        sequence: 42,
        duration_ms: 5,
        packaged_at_unix_ns: PUBLISHED_NS - 2_000_000,
        published_at_unix_ns: PUBLISHED_NS,
        bytes: vec![0xa5, 0x5a, 0x00],
        audio_units: 1,
    };
    let built = build_opaque_media_object(&part, TEST_SOURCE_EPOCH, 1_000, 250_000).unwrap();
    let object = decoded(&built);
    assert_eq!(object.kind(), ObjectKind::Media);
    assert_eq!(object.key().stream(), "77");
    assert_eq!(object.key().track(), OPAQUE_MEDIA_TRACK);
    assert_eq!(object.key().object(), 42);
    assert!(object.dependencies().is_empty());
    assert_eq!(object.payload(), &[0xa5, 0x5a, 0x00]);
    assert_eq!(object.metadata().get("duration-ms").unwrap(), b"5");
    assert_eq!(object.metadata().get("scheduler-class").unwrap(), b"audio");
    assert_eq!(object.deadline().unwrap().unix_time_ns(), PUBLISHED_NS + 1_000_000_000);
    assert_eq!(object.stage_timestamps()[0].stage(), Stage::Packaged);
    assert_eq!(object.stage_timestamps()[1].timestamp().unix_time_ns(), PUBLISHED_NS);
    assert_eq!(
        build_opaque_media_object(&part, 1, 0, 0).unwrap_err(),
        ObjectError::NoBudget
    );
    assert_eq!(
        build_opaque_media_object(&part, 1, u64::MAX, 0).unwrap_err(),
        ObjectError::MediaDeadlineRange
    );
    let forwarder = MeshForwarder::new(forward_options(), TEST_SOURCE_EPOCH).unwrap();
    let action = opaque_of(&forwarder, &part).unwrap();
    assert!(action.to_mesh && !action.to_relay && action.initialization.is_none());
    let sent = media_object::decode(&action.envelope).unwrap();
    assert_eq!(sent.key(), object.key());
}

#[test]
fn slots_of_any_length_and_limit_take_numbers_of_their_own() {
    let mut forwarder = MeshForwarder::new(forward_options(), 5).unwrap();
    let mut blocks = HashSet::new();
    let mut packets = HashSet::new();
    for (length, limit) in [
        (1, None),
        (4_096, Some(1_200)),
        (90_000, None),
        (0, None),
        (7, Some(400)),
        (4_096, Some(44)),
        (50_000, Some(600)),
    ] {
        let payload = vec![0x5a; length];
        if let Ok(Some(reservation)) = forwarder.reserve_stream_slot(length, limit) {
            for datagram in forwarder.encode_stream_slot(77, &payload, reservation).unwrap() {
                let (_, raw) = split_stream_id_prefix(&datagram).unwrap();
                let header = DatagramFecHeader::decode(raw).unwrap();
                assert!(packets.insert(header.packet_sequence));
                blocks.insert(header.block_id);
            }
        }
    }
    assert_eq!(blocks.len(), 5);
    assert_eq!(packets.len() as u32, packets.iter().max().unwrap() - packets.iter().min().unwrap() + 1);
}

#[test]
fn empty_slots_are_not_coded() {
    let refused = |repairs: u32| {
        encode_stream_fec_payload(7, &[], repairs, 1_316, 5, 9).unwrap_err()
    };
    assert_eq!(refused(2), StreamFecError::Encode);
    assert_eq!(
        refused(0).message(),
        "RaptorQ-FEC geometry changed while reserving concurrent wire ids: expected 1 block(s) \
         and 1 packet(s), encoded 1 block(s) and 0 packet(s)"
    );
}

#[test]
fn the_longest_ended_sessions_leave_first() {
    let mut sessions = Vec::new();
    for stream_id in 0..99 {
        assert!(join_session(&mut sessions, stream_id, "srt", stream_id, SessionOrigin::unknown(), 1));
    }
    assert_eq!(sessions.len(), 99);
    // Active sessions stay, however many they are; those that ended make room for them.
    assert!(leave_session(&mut sessions, "srt", 50, "ended", 700));
    assert_eq!(sessions.len(), 98);
    assert!(leave_session(&mut sessions, "srt", 20, "ended", 500));
    assert_eq!(sessions.len(), 97);
    assert!(leave_session(&mut sessions, "srt", 90, "ended", 600));
    assert_eq!(sessions.len(), 96);
    assert!(leave_session(&mut sessions, "srt", 30, "ended", 400));
    assert_eq!(sessions.len(), 96);
    assert!(join_session(&mut sessions, 99, "srt", 99, SessionOrigin::unknown(), 800));
    assert_eq!(sessions.len(), 96);
    assert!(sessions.iter().all(|session| session.active));

    let ended = |session_id: u64, last_seen: u64| {
        let mut one = Vec::new();
        join_session(&mut one, session_id, "srt", session_id, SessionOrigin::unknown(), 1);
        leave_session(&mut one, "srt", session_id, "ended", last_seen);
        one.remove(0)
    };
    let mut list: Vec<_> = (0..100).map(|id| ended(id, 1_000 - id)).collect();
    prune_ingest_sessions(&mut list);
    let kept: Vec<u64> = list.iter().map(|session| session.session_id).collect();
    assert_eq!(kept, (0..96).collect::<Vec<u64>>());
}
