//! The probe: windows, coverage, responses, parts, sources and receivers.
use av_contrib::probe::coverage::{word_count, CoverageError, PartCoverage};
use av_contrib::probe::format::{
    detect_init_audio_codec, expected_pcm_part_bytes, fmp4_mdat_payload, media_part_pts_ms,
    parse_fmp4_tfdt_ms, pcm_init_parameters_match, playlist_matches_format, HlsAudioCodec,
    HlsTransport, PartStartError, ProbePayload, ProbeSignal,
};
use av_contrib::probe::http::{
    decode_chunked_body, find_header, hls_path, parse_http_response, split_cache_latency_ns,
    HttpError, HttpHeader,
};
use av_contrib::probe::latency::{
    deterministic_noise_sample, deterministic_sample_index, percentiles_ns,
    percentiles_ns_with_count, BoundedLatencySamples, MAX_LATENCY_SAMPLES,
};
use av_contrib::probe::listen::{
    epoch_subscription_datagram, may_end, poll_ns, SubscriptionRefresh,
};
use av_contrib::probe::opus::{
    packet_is_sound, soundkit_opus_part_is_valid, ConsumerError, SoundKitOpusConsumer,
};
use av_contrib::probe::plan::{
    epoch_count, first_sample_of, pcm_reference_bytes, repair_symbols, source_group_plan,
    start_session, PlanError, DEFAULT_CHANNELS, FRAME_COUNT, SAMPLE_RATE,
};
use av_contrib::probe::quic::{
    encode_qpack_prefixed_int, encode_varint, encode_webtransport_connect_headers, h3_frame,
    qpack_block_has_static_status_200, read_varint, strip_h3_datagram_context, varint_len,
    webtransport_settings, ContextError,
};
use av_contrib::probe::reader::{
    answer_kind, codec_check_fails, reader_count_fits, summarize_load, AnswerKind, HlsReader,
    ReaderError, ReaderOutcome, ReaderSettings,
};
use av_contrib::probe::receive::EpochReceiver;
use av_contrib::probe::reference::{
    highest_energy_window, prepare_reference, sums_in_lag_range, LagSums, ReferenceError,
};
use av_contrib::probe::source::{noise_s24le, pack_s24le, EpochDatagram, ProbeSource, SourceError};
use av_contrib::probe::window::{
    h3_preload_at_ns, hls_window_end_ms, receive_command_timeout, receive_command_timeout_ms,
    WindowError,
};
use frame_header::{EncodingFlag, Endianness, FrameHeaderV2};
use soundkit::crypto::ChaCha20Poly1305PacketCipher;
use std::collections::HashSet;

fn header(name: &str, value: &str) -> HttpHeader {
    HttpHeader { name: name.to_owned(), value: value.to_owned() }
}

#[test]
fn long_hls_continuity_uses_compact_exact_coverage() {
    let expected_parts: u64 = 4 * 60 * 60 * 200;
    let mut coverage = PartCoverage::new(0, expected_parts, 5).unwrap();
    assert!(coverage.words.len() * std::mem::size_of::<u64>() < 400_000);
    assert!(coverage.insert_pts(0));
    assert!(coverage.insert_pts(5));
    assert!(coverage.insert_pts((expected_parts - 1) * 5));
    assert!(!coverage.insert_pts(5));
    assert_eq!(coverage.received_parts, 3);
    assert_eq!(coverage.first_pts_ms(), Some(0));
    assert_eq!(coverage.last_pts_ms(), Some((expected_parts - 1) * 5));
    assert_eq!(coverage.non_contiguous_pts(), 1);
}

#[test]
fn long_latency_summary_has_bounded_uniform_reservoir() {
    let observations = MAX_LATENCY_SAMPLES * 3;
    let mut samples = BoundedLatencySamples::new();
    for value in 0..observations {
        samples.record(value as u64 * 1_000_000);
    }
    let summary = samples.summary();
    assert_eq!(summary.count, observations);
    assert_eq!(summary.sample_count, MAX_LATENCY_SAMPLES);
    assert!(summary.p50_ns as f64 / 1_000_000.0 > observations as f64 * 0.45);
    assert!((summary.p50_ns as f64 / 1_000_000.0) < observations as f64 * 0.55);
    assert!(summary.p99_ns as f64 / 1_000_000.0 > observations as f64 * 0.95);
}

#[test]
fn percentile_summary_is_deterministic() {
    let summary = percentiles_ns(vec![1_000_000, 2_000_000, 3_000_000, 4_000_000]);
    assert_eq!(summary.count, 4);
    assert_eq!(summary.sample_count, 4);
    assert_eq!(summary.min_ns as f64 / 1_000_000.0, 1.0);
    assert_eq!(summary.p50_ns as f64 / 1_000_000.0, 2.0);
    assert_eq!(summary.p95_ns as f64 / 1_000_000.0, 4.0);
    assert_eq!(summary.p99_ns as f64 / 1_000_000.0, 4.0);
    assert_eq!(summary.max_ns as f64 / 1_000_000.0, 4.0);
}

#[test]
fn percentiles_are_nearest_ranks() {
    let values: Vec<u64> = (1..=200).rev().collect();
    let summary = percentiles_ns(values);
    assert_eq!(
        (summary.min_ns, summary.p50_ns, summary.p95_ns, summary.p99_ns, summary.max_ns),
        (1, 100, 190, 198, 200)
    );
    for count in 1..2_000_usize {
        let summary = percentiles_ns((0..count as u64).collect());
        let at = |quantile: f64| (count as f64 * quantile).ceil() as u64 - 1;
        assert_eq!(
            (summary.p50_ns, summary.p95_ns, summary.p99_ns),
            (at(0.50), at(0.95), at(0.99))
        );
    }
    let none = percentiles_ns(vec![]);
    assert_eq!((none.count, none.sample_count, none.max_ns), (0, 0, 0));
    let few = percentiles_ns_with_count(vec![7], 9);
    assert_eq!((few.count, few.sample_count, few.p50_ns), (9, 1, 7));
}

fn correlation(sums: &LagSums) -> f64 {
    let count = sums.count as f64;
    let covariance = count * sums.sum_xy as f64 - sums.sum_x as f64 * sums.sum_y as f64;
    let variance_x = count * sums.sum_x2 as f64 - sums.sum_x as f64 * sums.sum_x as f64;
    let variance_y = count * sums.sum_y2 as f64 - sums.sum_y as f64 * sums.sum_y as f64;
    covariance / (variance_x * variance_y).sqrt()
}

#[test]
fn reference_alignment_skips_out_of_range_negative_lags() {
    let reference = (0..24_000)
        .map(|index| ((index as f64 * 0.013).sin() * 12_000.0) as i16)
        .collect::<Vec<_>>();
    let sums = sums_in_lag_range(&reference, &reference, 1, 0, 24_000, -16, 16, 1, 1);
    let mut best: Option<(i64, f64)> = None;
    for sums in &sums {
        let value = correlation(sums);
        if best.is_none_or(|current| value > current.1) {
            best = Some((sums.lag, value));
        }
    }
    let best =
        best.expect("zero-lag reference should align even when early negative lags underflow");

    assert_eq!(best.0, 0);
    assert!(best.1 > 0.99);
    assert_eq!(sums.len(), 17);
    assert_eq!((sums[0].lag, sums[0].frames, sums[0].count), (0, 24_000, 24_000));
    assert_eq!(sums[0].sum_xy, sums[0].sum_x2);
    assert_eq!((sums[3].lag, sums[3].frames), (3, 23_997));
    assert!(sums_in_lag_range(&reference, &reference[..11_999], 1, 0, 24_000, 0, 0, 0, 0).is_empty());
}

#[test]
fn references_are_prepared() {
    let mut bytes = Vec::new();
    for frame in 0..120_000_i32 {
        let left = if frame >= 24_000 { 1_000_i16 } else { -1 };
        bytes.extend_from_slice(&left.to_le_bytes());
        bytes.extend_from_slice(&7_i16.to_le_bytes());
    }
    let reference = prepare_reference(400_000, &bytes, 2, 12_000).unwrap();
    assert_eq!(reference.samples.len(), 264_000);
    assert_eq!(reference.samples[23_999], 0);
    assert_eq!(reference.samples[24_000..24_002], [-1, 7]);
    assert_eq!(reference.window_frames, 96_000);
    assert_eq!(reference.start, 36_000);
    assert_eq!(highest_energy_window(&[1, 2, 3], 1, 3), 0);
    assert_eq!(
        prepare_reference(400_000, &bytes[..6], 2, 0).unwrap_err(),
        ReferenceError::Incomplete
    );
    let short = prepare_reference(47_999, &bytes, 2, 0).unwrap_err();
    assert_eq!(short, ReferenceError::TooShort);
    assert_eq!(
        short.message(),
        "consumer/reference comparison requires at least 500 ms of PCM"
    );
}

#[test]
fn late_join_window_bounds_a_long_publication() {
    assert_eq!(hls_window_end_ms(4 * 60 * 60, 300_000, Some(4), 5).unwrap(), 304_000);
    assert_eq!((304_000_u64 - 300_000) / 5, 800, "a four-second 5 ms window has 800 parts");
    assert_eq!(hls_window_end_ms(10, 2_000, None, 5).unwrap(), 10_000);
}

#[test]
fn late_join_window_rejects_invalid_bounds() {
    assert!(hls_window_end_ms(10, 2_000, Some(0), 5).is_err());
    assert!(hls_window_end_ms(10, 8_000, Some(3), 5).is_err());
    assert!(hls_window_end_ms(10, 2_001, Some(1), 5).is_err());
    assert!(hls_window_end_ms(u64::MAX, 0, Some(1), 5).is_err());
}

#[test]
fn every_bad_window_has_its_own_error() {
    assert_eq!(hls_window_end_ms(10, 0, None, 0), Err(WindowError::NoPartLength));
    assert_eq!(hls_window_end_ms(u64::MAX, 0, None, 5), Err(WindowError::MediaTooLong));
    assert_eq!(hls_window_end_ms(10, 10_000, None, 5), Err(WindowError::StartsTooLate));
    assert_eq!(hls_window_end_ms(10, 1, None, 5), Err(WindowError::StartNotAligned));
    assert_eq!(hls_window_end_ms(10, 0, Some(0), 5), Err(WindowError::EmptyWindow));
    assert_eq!(hls_window_end_ms(10, 0, Some(u64::MAX), 5), Err(WindowError::WindowTooLong));
    assert_eq!(hls_window_end_ms(10, 5_000, Some(6), 5), Err(WindowError::EndsTooLate));
    assert_eq!(hls_window_end_ms(10, 0, None, 7), Err(WindowError::EndNotAligned));
    assert_eq!(
        WindowError::EndNotAligned.message(),
        "reader window end must align to the configured part duration"
    );
}

#[test]
fn h3_late_join_preload_tracks_the_requested_window() {
    let session_id = 1_000_000_000_000;
    assert_eq!(h3_preload_at_ns(session_id, 0), session_id - 100_000_000);
    assert_eq!(h3_preload_at_ns(session_id, 36_000), session_id + 35_900_000_000);
}

#[test]
fn a_probe_has_until_its_tail_ends_and_five_seconds() {
    assert_eq!(receive_command_timeout(1_000, 2, 3, 500), 5_000_000_500 + 5_000_000_000);
    assert_eq!(receive_command_timeout_ms(0, 1, 0, u64::MAX), 5_000_000_000);
}

#[test]
fn cache_commit_header_splits_publication_and_delivery_latency() {
    let headers = vec![header("x-needletail-cache-available-unix-us", "1250000")];
    assert_eq!(
        split_cache_latency_ns(&headers, 1_000_000_000, 1_275_000_000),
        Some((250_000_000, 25_000_000))
    );
    assert_eq!(split_cache_latency_ns(&headers, 1_300_000_000, 1_400_000_000), None);
}

#[test]
fn hls_path_supports_edge_and_direct_origin_routes() {
    assert_eq!(hls_path("/live", 24_001, "tail?from=0"), "/live/24001/tail?from=0");
    assert_eq!(hls_path("", 24_001, "stream.m3u8"), "/24001/stream.m3u8");
}

#[test]
fn pcm_init_and_media_geometry_checks_are_strict() {
    let mut init = vec![0_u8; 64];
    init[4..8].copy_from_slice(b"ipcm");
    init[24..26].copy_from_slice(&8_u16.to_be_bytes());
    init[36..40].copy_from_slice(b"pcmC");
    init[44] = 1;
    init[45] = 24;

    assert_eq!(detect_init_audio_codec(&init), Some(HlsAudioCodec::Ipcm));
    assert!(pcm_init_parameters_match(&init, HlsAudioCodec::Ipcm, 8));
    assert!(!pcm_init_parameters_match(&init, HlsAudioCodec::Ipcm, 16));
    assert_eq!(expected_pcm_part_bytes(HlsAudioCodec::Ipcm, 8, 5), Some(5_760));

    let mut media = Vec::new();
    media.extend_from_slice(&13_u32.to_be_bytes());
    media.extend_from_slice(b"free");
    media.extend_from_slice(b"hello");
    media.extend_from_slice(&12_u32.to_be_bytes());
    media.extend_from_slice(b"mdat");
    media.extend_from_slice(&[1, 2, 3, 4]);
    assert_eq!(fmp4_mdat_payload(&media), Some(&[1, 2, 3, 4][..]));
}

fn s24_from_unit(value: f64) -> i32 {
    (value.clamp(-1.0, 1.0) * 8_388_607.0).round() as i32
}

fn sine_s24le(first_sample: u64) -> Vec<u8> {
    let mut samples = Vec::new();
    for frame in 0..FRAME_COUNT {
        let index = first_sample + u64::from(frame);
        let phase =
            index as f64 * 2.0 * std::f64::consts::PI * 997.0 / f64::from(SAMPLE_RATE);
        for _ in 0..DEFAULT_CHANNELS {
            samples.push(s24_from_unit(phase.sin() * 0.5));
        }
    }
    pack_s24le(&samples)
}

#[test]
fn generated_pcm_is_exact_stereo_s24le_geometry() {
    assert_eq!(
        sine_s24le(0).len(),
        FRAME_COUNT as usize * usize::from(DEFAULT_CHANNELS) * 3
    );
}

#[test]
fn decorrelated_multichannel_signal_has_expected_s24le_geometry() {
    let mut samples = Vec::new();
    for frame in 0..FRAME_COUNT {
        for local_channel in 0..16_u16 {
            let channel = 8 + local_channel;
            let base_hz = 147.0 + f64::from((u32::from(channel) * 37) % 1_400);
            let overtone_hz = base_hz * 1.5 + f64::from((u32::from(channel) * 17) % 300);
            let t = f64::from(frame) / f64::from(SAMPLE_RATE);
            let phase_a = 2.0 * std::f64::consts::PI * base_hz * t + f64::from(channel) * 0.173;
            let phase_b =
                2.0 * std::f64::consts::PI * overtone_hz * t + f64::from(channel) * 0.071;
            samples.push(s24_from_unit(phase_a.sin() * 0.46 + phase_b.sin() * 0.21));
        }
    }
    let pcm = pack_s24le(&samples);
    assert_eq!(pcm.len(), FRAME_COUNT as usize * 16 * 3);
}

#[test]
fn samples_are_packed_low_byte_first() {
    assert_eq!(
        pack_s24le(&vec![0, 1, -1, 8_388_607, -8_388_608]),
        vec![0, 0, 0, 1, 0, 0, 255, 255, 255, 255, 255, 127, 0, 0, 128]
    );
}

#[test]
fn noise_is_the_same_every_time_and_stays_in_24_bits() {
    let first = noise_s24le(480, 3, 2);
    assert_eq!(first, noise_s24le(480, 3, 2));
    assert_eq!(first.len(), FRAME_COUNT as usize * 2 * 3);
    assert_eq!(
        first[..3],
        deterministic_noise_sample(480, 3).to_le_bytes()[..3]
    );
    assert_eq!(
        first[3..6],
        deterministic_noise_sample(480, 4).to_le_bytes()[..3]
    );
    assert_eq!(deterministic_noise_sample(0, 0), -8_388_608);
    assert_eq!(deterministic_sample_index(0), 0xe220_a839_7b1d_cdaf);
}

#[test]
fn source_group_plan_splits_16_channels_for_flac_safe_ll_hls() {
    let groups = source_group_plan(40_000, 16, 8).unwrap();
    assert_eq!(groups.len(), 2);
    assert_eq!(groups[0].group_id, 40_000);
    assert_eq!(groups[0].channel_start, 0);
    assert_eq!(groups[0].channel_count, 8);
    assert_eq!(groups[1].group_id, 40_001);
    assert_eq!(groups[1].channel_start, 8);
    assert_eq!(groups[1].channel_count, 8);
}

#[test]
fn source_group_plan_splits_128_channels_for_sizing() {
    let groups = source_group_plan(10_000, 128, 8).unwrap();
    assert_eq!(groups.len(), 16);
    assert_eq!(groups.first().unwrap().channel_start, 0);
    assert_eq!(groups.last().unwrap().group_id, 10_015);
    assert_eq!(groups.last().unwrap().channel_start, 120);
    assert_eq!(groups.last().unwrap().channel_count, 8);
}

#[test]
fn every_bad_plan_has_its_own_error() {
    assert_eq!(source_group_plan(0, 0, 8), Err(PlanError::NoChannels));
    assert_eq!(source_group_plan(0, 129, 8), Err(PlanError::TooManyChannels));
    assert_eq!(source_group_plan(0, 2, 0), Err(PlanError::NoGroupChannels));
    assert_eq!(source_group_plan(0, 2, 9), Err(PlanError::TooManyGroupChannels));
    assert_eq!(source_group_plan(65_535, 9, 8), Err(PlanError::GroupRange));
    assert_eq!(start_session(0, None, 0), Err(PlanError::NoDuration));
    assert_eq!(start_session(1, Some(0), 60_000_000_001), Err(PlanError::OldSession));
    assert_eq!(start_session(1, Some(0), 60_000_000_000), Ok(0));
    assert_eq!(start_session(1, None, 5), Ok(1_000_000_005));
    assert_eq!(PlanError::TooManyChannels.message(), "--channels may not exceed 128");
    let uneven = source_group_plan(7, 11, 8).unwrap();
    assert_eq!(uneven[1].channel_count, 3);
}

#[test]
fn repairs_are_a_percentage_and_at_least_as_many_as_asked_for() {
    let groups = source_group_plan(0, 8, 8).unwrap();
    // 8 channels of 240 samples of 3 bytes are 5760 bytes: 6 symbols of 1000 bytes.
    assert_eq!(repair_symbols(&groups, 1_000, 12, 0), 1);
    assert_eq!(repair_symbols(&groups, 1_000, 50, 1), 3);
    assert_eq!(repair_symbols(&groups, 1_000, 500, 1), 6);
    assert_eq!(repair_symbols(&groups, 1_000, 0, 9), 9);
    assert_eq!(epoch_count(10), 2_000);
    assert_eq!(first_sample_of(3), 720);
    assert_eq!(pcm_reference_bytes(2_000, 2), 2_880_000);
}

#[test]
fn parses_fmp4_tfdt_versions_zero_and_one() {
    let v0 = [0, 0, 0, 16, b't', b'f', b'd', b't', 0, 0, 0, 0, 0, 0, 0, 50];
    let v1 = [
        0, 0, 0, 20, b't', b'f', b'd', b't', 1, 0, 0, 0, 0, 0, 0, 1, 0, 0, 0, 25,
    ];
    assert_eq!(parse_fmp4_tfdt_ms(&v0), Some(50));
    assert_eq!(parse_fmp4_tfdt_ms(&v1), Some((1_u64 << 32) + 25));
    assert_eq!(parse_fmp4_tfdt_ms(&v1[..19]), None);
    assert_eq!(parse_fmp4_tfdt_ms(b"tfdt"), None);
}

#[test]
fn parts_start_where_they_say_or_where_their_number_says() {
    let part = [0, 0, 0, 16, b't', b'f', b'd', b't', 0, 0, 0, 0, 0, 0, 0, 50];
    assert_eq!(media_part_pts_ms(HlsAudioCodec::Flac, &part, 9, 5), Ok(50));
    assert_eq!(
        media_part_pts_ms(HlsAudioCodec::Flac, &[], 9, 5),
        Err(PartStartError::NoStart)
    );
    assert_eq!(media_part_pts_ms(HlsAudioCodec::SoundkitOpus, &[], 9, 5), Ok(45));
    assert_eq!(
        media_part_pts_ms(HlsAudioCodec::SoundkitOpus, &[], u64::MAX, 5),
        Err(PartStartError::Overflow)
    );
}

#[test]
fn parses_chunked_http_tail_response() {
    let response = parse_http_response(
        b"HTTP/1.1 200 OK\r\nx-sequence: 7\r\ntransfer-encoding: chunked\r\n\r\n4\r\ntest\r\n0\r\n\r\n"
            .to_vec(),
    )
    .unwrap();
    assert_eq!(response.status, 200);
    assert_eq!(find_header(&response.headers, "x-sequence").unwrap(), "7");
    assert_eq!(response.body, b"test");
}

#[test]
fn responses_are_read_line_by_line() {
    let wire = b"HTTP/1.1  404   Not Found\r\nNo colon here\r\nX-Name :  first \r\nx-name:second\r\n\r\nbody";
    let response = parse_http_response(wire.to_vec()).unwrap();
    assert_eq!(response.status, 404);
    assert_eq!(response.headers.len(), 2);
    assert_eq!(response.headers[0].value, "first");
    assert_eq!(find_header(&response.headers, "x-NAME"), Some("second"));
    assert_eq!(response.body, b"body");
    assert_eq!(response.wire_bytes, wire.len());

    let error = |wire: &[u8]| parse_http_response(wire.to_vec()).unwrap_err();
    assert_eq!(error(b"HTTP/1.1 200 OK\r\n"), HttpError::NoHeaderEnd);
    assert_eq!(error(b"\xff\r\n\r\n"), HttpError::HeadersNotText);
    assert_eq!(error(b"HTTP/1.1\r\n\r\n"), HttpError::NoStatus);
    assert_eq!(error(b"HTTP/1.1 70000\r\n\r\n"), HttpError::BadStatus);
    assert_eq!(HttpError::BadStatus.message(), "HTTP response returned an invalid status code");
}

#[test]
fn chunks_are_joined_or_refused() {
    assert_eq!(
        decode_chunked_body(b"A;name=value\r\n0123456789\r\n2\r\nab\r\n0\r\n\r\n").unwrap(),
        b"0123456789ab"
    );
    let error = |wire: &[u8]| decode_chunked_body(wire).unwrap_err();
    assert_eq!(error(b"4"), HttpError::NoChunkSize);
    assert_eq!(error(b"\xff\r\n"), HttpError::ChunkSizeNotText);
    assert_eq!(error(b"xyz\r\n"), HttpError::BadChunkSize);
    assert_eq!(error(b"4\r\ntes\r\n"), HttpError::ChunkTruncated);
    assert_eq!(error(b"ffffffffffffffff\r\n"), HttpError::ChunkTruncated);
}

#[test]
fn coverage_ignores_what_lies_outside_its_window() {
    let mut coverage = PartCoverage::new(10, 100, 5).unwrap();
    assert!(!coverage.insert_pts(45));
    assert!(!coverage.insert_pts(51));
    assert!(!coverage.insert_pts(550));
    assert!(coverage.insert_pts(50));
    assert!(coverage.insert_pts(545));
    assert!(coverage.contains_relative(0));
    assert!(!coverage.contains_relative(64));
    assert!(coverage.contains_relative(99));
    assert_eq!(coverage.first_pts_ms(), Some(50));
    assert_eq!(coverage.last_pts_ms(), Some(545));
    assert_eq!(coverage.non_contiguous_pts(), 1);
    for part in 10..110 {
        coverage.insert_pts(part * 5);
    }
    assert_eq!(coverage.received_parts, 100);
    assert_eq!(coverage.non_contiguous_pts(), 0);
    assert_eq!(PartCoverage::new(0, 10, 5).unwrap().first_pts_ms(), None);
}

#[test]
fn playlists_name_parts_of_their_codec() {
    let opus: &[u8] = b"#EXT-X-SERVER-CONTROL:CAN-BLOCK-RELOAD=YES\n#EXT-X-PART:URI=\"p1.bin\"\n";
    let boxed: &[u8] =
        b"#EXT-X-SERVER-CONTROL:CAN-BLOCK-RELOAD=YES\n#EXT-X-MAP:URI=\"init.mp4\"\n#EXT-X-PART:\n";
    assert!(playlist_matches_format(opus, HlsAudioCodec::SoundkitOpus));
    assert!(playlist_matches_format(opus, HlsAudioCodec::Flac));
    assert!(playlist_matches_format(boxed, HlsAudioCodec::Flac));
    assert!(!playlist_matches_format(boxed, HlsAudioCodec::SoundkitOpus));
    assert!(!playlist_matches_format(b"#EXT-X-PART:", HlsAudioCodec::Flac));
}

#[test]
fn names_are_spelled_as_reports_spell_them() {
    assert_eq!(HlsAudioCodec::SoundkitOpus.as_str(), "soundkit_opus");
    assert_eq!(HlsAudioCodec::SoundkitOpus.media_extension(), "bin");
    assert_eq!(HlsAudioCodec::Ipcm.media_extension(), "mp4");
    assert_eq!(HlsAudioCodec::Flac.init_marker(), Some(*b"fLaC"));
    assert_eq!(HlsTransport::Http1.as_str(), "http/1.1");
    assert_eq!(ProbePayload::Pcm.as_str(), "pcm_s24le");
    assert_eq!(ProbeSignal::Decorrelated.as_str(), "decorrelated");
}

#[test]
fn varints_read_back_at_every_length() {
    for (value, length) in [
        (0_u64, 1_usize),
        (63, 1),
        (64, 2),
        (16_383, 2),
        (16_384, 4),
        (1_073_741_823, 4),
        (1_073_741_824, 8),
        (4_611_686_018_427_387_903, 8),
    ] {
        let mut bytes = Vec::new();
        encode_varint(value, &mut bytes);
        assert_eq!(bytes.len(), length);
        assert_eq!(varint_len(bytes[0]), length);
        assert_eq!(read_varint(&bytes), value);
    }
    let mut bytes = Vec::new();
    encode_varint(15_293, &mut bytes);
    assert_eq!(bytes, [0x7b, 0xbd]);
}

#[test]
fn sessions_over_quic_open_with_known_bytes() {
    assert_eq!(h3_frame(1, b"abc"), [1, 3, b'a', b'b', b'c']);
    let settings = webtransport_settings();
    assert_eq!(settings[0], 0);
    assert_eq!(settings[1], 4);
    assert_eq!(usize::from(settings[2]), settings.len() - 3);
    let mut bytes = Vec::new();
    encode_qpack_prefixed_int(5, 0, 1_337, &mut bytes);
    assert_eq!(bytes, [31, 154, 10]);
    let headers = encode_webtransport_connect_headers("edge:443");
    assert_eq!(headers[..4], [0, 0, 0xcf, 0xd7]);
    assert_eq!(headers[4..6], [0x50, 8]);
    assert_eq!(&headers[6..14], b"edge:443");
    assert!(headers.ends_with(b"webtransport"));
    assert!(qpack_block_has_static_status_200(&[0, 0, 0xd9]));
    assert!(!qpack_block_has_static_status_200(&[0, 0, 0xd8]));
    assert!(!qpack_block_has_static_status_200(&[0, 1, 0xd9]));
    assert_eq!(strip_h3_datagram_context(&[0x40, 1, 9]), Ok(&[9_u8][..]));
    assert_eq!(strip_h3_datagram_context(&[]), Err(ContextError::Empty));
    assert_eq!(strip_h3_datagram_context(&[0x40]), Err(ContextError::Truncated));
}

const KEY: &str = "11111111111111111111111111111111111111111111111111111111111111111111111111111";

/// Twenty milliseconds of silence, in two channels.
const SILENCE: [u8; 3] = [0xfc, 0xff, 0xfe];

fn packet(frame_count: u32, payload: &[u8], flags: u8, crc: bool) -> Vec<u8> {
    let base = FrameHeaderV2::new(
        EncodingFlag::Opus,
        payload.len() as u32,
        frame_count,
        48_000,
        2,
        0,
        Endianness::LittleEndian,
        None,
        None,
        None,
    )
    .unwrap()
    .with_packet_flags(flags)
    .unwrap();
    let header = if crc { base.with_packet_crc32(payload).unwrap() } else { base };
    let mut bytes = Vec::new();
    header.encode(&mut bytes).unwrap();
    bytes.extend_from_slice(payload);
    bytes
}

fn encrypted_packet() -> Vec<u8> {
    let cipher = ChaCha20Poly1305PacketCipher::new_from_decimal_key(KEY).unwrap();
    let payload = cipher.encrypt_nonce_prefixed(&[3_u8; 12], &SILENCE, &[]).unwrap();
    packet(960, &payload, FrameHeaderV2::FLAG_ENCRYPTED, true)
}

#[test]
fn opus_parts_are_whole_packets_that_last_as_long_as_the_part() {
    let one = packet(960, b"payload", FrameHeaderV2::FLAG_ENCRYPTED, false);
    let checked = packet(960, b"payload", FrameHeaderV2::FLAG_ENCRYPTED, true);
    let plain = packet(960, b"payload", 0, false);
    assert!(soundkit_opus_part_is_valid(&one, 20));
    assert!(soundkit_opus_part_is_valid(&checked, 20));
    assert!(!soundkit_opus_part_is_valid(&one, 25));
    assert!(!soundkit_opus_part_is_valid(&one, 0));
    assert!(!soundkit_opus_part_is_valid(&[], 20));
    assert!(!soundkit_opus_part_is_valid(&plain, 20));
    assert!(!soundkit_opus_part_is_valid(&one[..one.len() - 1], 20));
    let mut two = one.clone();
    two.extend_from_slice(&checked);
    assert!(soundkit_opus_part_is_valid(&two, 40));
    let mut damaged = checked;
    let last = damaged.len() - 1;
    damaged[last] ^= 1;
    assert!(!soundkit_opus_part_is_valid(&damaged, 20));
}

#[test]
fn parts_are_decoded_in_the_order_of_their_numbers() {
    let part = encrypted_packet();
    let mut consumer = SoundKitOpusConsumer::new(&format!(" {KEY}\n"), 7).ok().unwrap();
    assert_eq!(consumer.push_part(8, &part).unwrap().len(), 0);
    assert_eq!(consumer.finish().unwrap(), false);
    assert_eq!(consumer.push_part(6, &part).unwrap().len(), 0);
    assert_eq!(consumer.push_part(7, &part).unwrap().len(), 2 * 960 * 2);
    assert_eq!(consumer.push_part(7, &part).unwrap().len(), 0);
    assert_eq!(consumer.counts.soundkit_v2_packets, 2);
    assert_eq!(consumer.counts.encrypted_packets, 2);
    assert_eq!(consumer.counts.decoded_opus_packets, 2);
    assert_eq!(consumer.counts.decoded_pcm_frames, 1_920);
    assert_eq!(consumer.counts.sample_count, 3_840);
    assert_eq!((consumer.counts.sample_rate, consumer.counts.channels), (48_000, 2));
    assert_eq!(consumer.next_sequence, 9);
    assert!(consumer.finish().unwrap());
}

#[test]
fn a_consumer_refuses_what_it_cannot_decode() {
    assert!(matches!(SoundKitOpusConsumer::new("no key", 0).err().unwrap(), ConsumerError::Key));
    let fresh = || SoundKitOpusConsumer::new(KEY, 0).ok().unwrap();
    let rejected = fresh().push_part(0, &[0xff; 40]).unwrap_err();
    assert!(matches!(rejected, ConsumerError::Rejected));
    let nothing = fresh().push_part(0, &encrypted_packet()[..9]).unwrap_err();
    assert!(matches!(nothing, ConsumerError::NoPacket));
    let plain = fresh().push_part(0, &packet(960, &SILENCE, 0, true)).unwrap_err();
    assert_eq!(plain.message(), "private SoundKit v2 Opus packet was not encrypted");
    let cipher = ChaCha20Poly1305PacketCipher::new_from_decimal_key(KEY).unwrap();
    let payload = cipher.encrypt_nonce_prefixed(&[4_u8; 12], &SILENCE, &[]).unwrap();
    let declared = packet(1_000, &payload, FrameHeaderV2::FLAG_ENCRYPTED, true);
    let count = fresh().push_part(0, &declared).unwrap_err();
    assert_eq!(
        count.message(),
        "consumer decoded 960 frames but SoundKit declared 1000"
    );
    let mut partial = encrypted_packet();
    let whole = partial.clone();
    partial.extend_from_slice(&whole[..10]);
    let mut consumer = fresh();
    assert_eq!(consumer.push_part(0, &partial).unwrap().len(), 1_920);
    assert_eq!(
        consumer.finish().unwrap_err().message(),
        "consumer ended with a partial SoundKit v2 packet"
    );
}

fn settings(codec: HlsAudioCodec, part_ms: u64) -> ReaderSettings {
    ReaderSettings {
        transport: HlsTransport::H3,
        stream_id: 24_001,
        session_id: 1_000_000_000,
        duration_seconds: 1,
        part_ms,
        deadline_ms: 50,
        render_buffer_ms: 150,
        start_offset_ms: 0,
        window_seconds: None,
        expected_audio_codec: codec,
        expected_pcm_channels: 2,
        has_key: false,
        has_outputs: false,
    }
}

#[test]
fn readers_refuse_what_they_cannot_look_at() {
    let flac = settings(HlsAudioCodec::Flac, 5);
    let fails = |settings: ReaderSettings, prefix: &str| HlsReader::new(settings, prefix).unwrap_err();
    assert_eq!(fails(flac, "live"), ReaderError::PathPrefix);
    assert_eq!(fails(flac, "/live/"), ReaderError::PathPrefix);
    assert_eq!(
        fails(ReaderSettings { part_ms: 0, ..flac }, "/live"),
        ReaderError::Window(WindowError::NoPartLength)
    );
    assert_eq!(
        fails(ReaderSettings { start_offset_ms: 3, ..flac }, "/live"),
        ReaderError::Window(WindowError::StartNotAligned)
    );
    let pcm = ReaderSettings { expected_pcm_channels: 0, ..settings(HlsAudioCodec::Ipcm, 5) };
    assert_eq!(fails(pcm, "/live"), ReaderError::PcmChannels);
    assert_eq!(
        fails(ReaderSettings { has_key: true, ..flac }, "/live"),
        ReaderError::KeyNeedsOpus
    );
    assert_eq!(
        fails(ReaderSettings { has_outputs: true, ..flac }, "/live"),
        ReaderError::OutputsNeedKey
    );
    assert_eq!(ReaderError::Status(500).message(), "LL-HLS tail returned HTTP 500");
}

#[test]
fn readers_ask_for_the_part_behind_the_last() {
    let late = ReaderSettings { start_offset_ms: 100, ..settings(HlsAudioCodec::SoundkitOpus, 20) };
    let tail = HlsReader::new(late, "/live").unwrap();
    assert_eq!(tail.next_request(), (6, "/live/24001/tail?from=5".to_owned()));
    let direct = HlsReader::new(late, "").unwrap();
    assert_eq!(direct.next_request(), (6, "/24001/p6.bin".to_owned()));
    assert_eq!(direct.answered_sequence(6, &vec![]), Ok(6));
    assert_eq!(tail.answered_sequence(6, &vec![]), Err(ReaderError::NoSequence));
    assert_eq!(
        tail.answered_sequence(6, &vec![header("X-Sequence", "x")]),
        Err(ReaderError::BadSequence)
    );
    assert_eq!(tail.answered_sequence(6, &vec![header("X-Sequence", "12")]), Ok(12));
    assert_eq!(tail.part_path(9), "/live/24001/part9.bin");
    assert_eq!(answer_kind(200), AnswerKind::Part);
    assert_eq!(answer_kind(404), AnswerKind::NotYet);
    assert_eq!(answer_kind(204), AnswerKind::NotYet);
    assert_eq!(answer_kind(500), AnswerKind::Other);
}

#[test]
fn readers_count_each_part_of_the_window_once() {
    let opus = settings(HlsAudioCodec::SoundkitOpus, 20);
    let mut reader = HlsReader::new(opus, "/live").unwrap();
    let part = packet(960, b"payload", FrameHeaderV2::FLAG_ENCRYPTED, true);
    let headers = vec![header("x-needletail-cache-available-unix-us", "1050000")];
    // Part two was captured at 1.04 s, was in the cache at 1.05 s and came at 1.06 s.
    assert_eq!(reader.take_part(2, false, &part, &headers, 1_060_000_000), Ok(true));
    assert_eq!(reader.after_sequence, Some(2));
    assert_eq!(reader.take_part(2, false, &part, &headers, 1_070_000_000), Ok(false));
    assert_eq!(reader.take_part(3, false, b"damaged", &vec![], 2_000_000_000), Ok(true));
    assert_eq!(reader.take_part(50, false, &part, &vec![], 2_000_000_000), Ok(false));
    assert_eq!(reader.take_part(4, false, &part, &vec![], 999_999_999), Ok(false));
    assert_eq!(reader.availability.values_ns, [20_000_000, 940_000_000]);
    assert_eq!(reader.render.values_ns, [170_000_000, 1_090_000_000]);
    assert_eq!(reader.publication_to_cache.values_ns, [10_000_000]);
    assert_eq!(reader.cache_to_client.values_ns, [10_000_000]);
    reader.count_wire(10);
    let outcome = reader.outcome();
    assert_eq!(outcome.received_parts, 2);
    assert_eq!(outcome.missing_parts, 48);
    assert_eq!(outcome.non_contiguous_pts, 0);
    assert_eq!(outcome.deadline_misses, 1);
    assert_eq!(outcome.opus_media_packet_mismatches, 1);
    assert_eq!(outcome.wire_bytes, 10);
    assert!(outcome.init_audio_codec_verified);
    assert!(codec_check_fails(outcome, None));
    assert!(!reader.wants_init());
}

#[test]
fn readers_check_samples_initializations_and_playlists() {
    let pcm = settings(HlsAudioCodec::Ipcm, 5);
    let mut reader = HlsReader::new(pcm, "/live").unwrap();
    let mut part = vec![0, 0, 0, 16, b't', b'f', b'd', b't', 0, 0, 0, 0, 0, 0, 0, 10];
    part.extend_from_slice(&(8_u32 + 1_440).to_be_bytes());
    part.extend_from_slice(b"mdat");
    part.extend_from_slice(&[0; 1_440]);
    assert_eq!(reader.take_part(2, true, &part, &vec![], 1_010_000_000), Ok(true));
    assert_eq!(
        reader.take_part(3, true, &part, &vec![], 1_010_000_000),
        Err(ReaderError::WrongStart { sequence: 3, pts_ms: 10, expected_pts_ms: 15 })
    );
    assert_eq!(
        reader.take_part(3, true, b"", &vec![], 1_010_000_000),
        Err(ReaderError::Start(PartStartError::NoStart))
    );
    assert_eq!(reader.after_sequence, None);
    assert_eq!(reader.counts.pcm_media_parts_verified, 1);

    assert!(reader.wants_init());
    reader.take_init(404, b"ipcm");
    assert!(reader.wants_init());
    let mut init = vec![0_u8; 64];
    init[4..8].copy_from_slice(b"ipcm");
    init[24..26].copy_from_slice(&2_u16.to_be_bytes());
    init[36..40].copy_from_slice(b"pcmC");
    init[44] = 1;
    init[45] = 24;
    reader.take_init(200, &init);
    assert!(!reader.wants_init());
    assert!(reader.counts.init_audio_codec_verified);
    reader.take_playlist(200, b"#EXT-X-PART: CAN-BLOCK-RELOAD=YES");
    assert!(reader.counts.playlist_has_ll_hls_tags);
    assert!(!codec_check_fails(reader.outcome(), Some(true)));
    assert!(codec_check_fails(reader.outcome(), Some(false)));
}

#[test]
fn parts_that_are_not_there_yet_are_asked_for_again() {
    let short = ReaderSettings { start_offset_ms: 990, ..settings(HlsAudioCodec::Flac, 5) };
    let mut reader = HlsReader::new(short, "/live").unwrap();
    assert_eq!(reader.schedule(None), Some(198));
    assert_eq!(reader.schedule(Some(198)), Some(198));
    assert_eq!(reader.schedule(None), Some(199));
    assert_eq!(reader.schedule(None), None);
}

#[test]
fn a_failed_reader_misses_every_part() {
    let good = ReaderOutcome {
        received_parts: 10,
        missing_parts: 0,
        non_contiguous_pts: 0,
        deadline_misses: 0,
        init_audio_codec_verified: true,
        pcm_media_size_mismatches: 0,
        opus_media_packet_mismatches: 0,
        playlist_has_ll_hls_tags: true,
        wire_bytes: 7,
    };
    let (totals, passed) = summarize_load(&vec![good, good], 2, 10);
    assert!(passed);
    assert_eq!(totals.received_parts, 20);
    assert_eq!(totals.wire_bytes, 14);
    let (totals, passed) = summarize_load(&vec![good], 3, 10);
    assert!(!passed);
    assert_eq!(totals.readers_failed, 2);
    assert_eq!(totals.missing_parts, 20);
    let gap = ReaderOutcome { non_contiguous_pts: 1, ..good };
    assert!(!summarize_load(&vec![gap], 1, 10).1);
    assert!(!reader_count_fits(0));
    assert!(reader_count_fits(4_096));
    assert!(!reader_count_fits(4_097));
}

#[test]
fn what_a_source_sends_a_receiver_gets() {
    let session_id = 5_000_000_000;
    for payload in [ProbePayload::Pcm, ProbePayload::Flac] {
        let groups = source_group_plan(3, 4, 2).unwrap();
        let mut source = ProbeSource::new(session_id, payload, groups, 50, 1).ok().unwrap();
        let mut receiver = EpochReceiver::new(session_id, 4, 10);
        for epoch in 0..3 {
            let pcm = vec![
                noise_s24le(first_sample_of(epoch), 0, 2),
                noise_s24le(first_sample_of(epoch), 2, 2),
            ];
            let datagrams = source.encode_epoch(epoch, &pcm).unwrap();
            assert!(datagrams.iter().any(|datagram| datagram.repair));
            for datagram in &datagrams {
                assert!(datagram.payload.starts_with(b"AEP1"));
                assert!(datagram.payload.len() <= 1_200);
                source.count_sent(datagram, datagram.payload.len()).unwrap();
                let length = datagram.payload.len() as u64;
                let arrival = session_id + epoch * 5_000_000 + 20_000_000 * (epoch / 2);
                assert!(receiver.take_datagram(&datagram.payload, length, arrival));
            }
        }
        assert!(receiver.take_datagram(b"something else", 14, 0));
        let counts = receiver.counts(1);
        assert_eq!(receiver.epochs, HashSet::from([0, 1, 2]));
        assert_eq!(receiver.latencies_ns, [0, 0, 20_000_000]);
        assert_eq!(counts.expected_epochs, 200);
        assert_eq!(counts.received_epochs, 3);
        assert_eq!(counts.missing_epochs, 197);
        assert_eq!(counts.deadline_misses, 1);
        assert_eq!(counts.wire_bytes, source.totals.wire_bytes);
        assert_eq!(
            counts.stats.datagrams_received,
            source.totals.source_datagrams + source.totals.repair_datagrams
        );
        if payload == ProbePayload::Pcm {
            assert_eq!(source.totals.lossless_payload_bytes, pcm_reference_bytes(3, 4));
        }
    }
}

#[test]
fn a_source_refuses_what_it_cannot_send() {
    let groups = source_group_plan(0, 2, 2).unwrap();
    let mut source = ProbeSource::new(1, ProbePayload::Flac, groups, 12, 1).ok().unwrap();
    assert_eq!(
        source.encode_epoch(0, &vec![vec![0; 3]]).unwrap_err(),
        SourceError::Flac
    );
    let datagram = EpochDatagram { payload: vec![0; 10], repair: false };
    let error = source.count_sent(&datagram, 9).unwrap_err();
    assert_eq!(error.message(), "partial AEP1 datagram send: 9 of 10");
    let mut receiver = EpochReceiver::new(1, 0, 10);
    assert!(!receiver.take_datagram(b"AEP1 nonsense", 13, 0));
    assert_eq!(receiver.counts(0).received_epochs, 0);
}

#[test]
fn coverage_grows_with_no_part_and_refuses_without_a_change() {
    let expected_parts: u64 = 4 * 60 * 60 * 200;
    let mut coverage = PartCoverage::new(0, expected_parts, 5).unwrap();
    let words = coverage.words.len();
    for part in 0..expected_parts {
        assert!(coverage.insert_pts(part * 5));
    }
    assert_eq!(coverage.words.len(), words);
    assert!(coverage.words.len() * std::mem::size_of::<u64>() < 400_000);
    let before = coverage.words.clone();
    assert!(!coverage.insert_pts(5));
    assert!(!coverage.insert_pts(7));
    assert!(!coverage.insert_pts(expected_parts * 5));
    assert_eq!(coverage.words, before);
    assert_eq!(coverage.received_parts, expected_parts);
    assert_eq!(PartCoverage::new(3, 0, 5).unwrap().words.len(), 0);
    assert!(matches!(PartCoverage::new(0, u64::MAX, 5), Err(CoverageError::NoMemory)));
}

#[test]
fn a_source_refuses_more_repairs_than_there_are_numbers() {
    let groups = || source_group_plan(0, 2, 2).unwrap();
    let error = ProbeSource::new(1, ProbePayload::Pcm, groups(), 12, u32::MAX).err().unwrap();
    assert_eq!(error, SourceError::Symbols);
    assert_eq!(error.message(), "too many AEP1 repair symbols");
    let error =
        ProbeSource::new(1, ProbePayload::Flac, groups(), 12, 16_777_216 - 255).err().unwrap();
    assert_eq!(error, SourceError::Symbols);
    assert!(ProbeSource::new(1, ProbePayload::Pcm, groups(), 12, 16_777_216 - 256).is_ok());
}

#[test]
fn a_consumer_refuses_packets_that_are_not_framed() {
    let cipher = ChaCha20Poly1305PacketCipher::new_from_decimal_key(KEY).unwrap();
    // A count of frames of zero, and two frames of one length that do not share the bytes evenly.
    for broken in [&[0xff_u8, 0x00][..], &[0xfd, 0x01, 0x02, 0x03][..]] {
        let payload = cipher.encrypt_nonce_prefixed(&[5_u8; 12], broken, &[]).unwrap();
        let part = packet(960, &payload, FrameHeaderV2::FLAG_ENCRYPTED, true);
        let mut consumer = SoundKitOpusConsumer::new(KEY, 0).ok().unwrap();
        assert!(matches!(consumer.push_part(0, &part).unwrap_err(), ConsumerError::Decode));
        assert_eq!(consumer.counts.decoded_opus_packets, 0);
    }
}

#[test]
fn packets_of_any_bits_are_decoded_or_refused() {
    let cipher = ChaCha20Poly1305PacketCipher::new_from_decimal_key(KEY).unwrap();
    let mut consumer = SoundKitOpusConsumer::new(KEY, 0).ok().unwrap();
    let mut state = 0x9e37_79b9_7f4a_7c15_u64;
    let mut next = || {
        state = state.wrapping_mul(6_364_136_223_846_793_005).wrapping_add(1_442_695_040_888_963_407);
        (state >> 33) as u32
    };
    let mut decoded = 0;
    for round in 0..6_000_u32 {
        let length = 2 + next() as usize % 160;
        let mut bytes = vec![0x80 | (round % 32) as u8 * 4];
        bytes.extend((0..length).map(|_| if round % 7 == 0 { 0xff } else { next() as u8 }));
        let payload = cipher.encrypt_nonce_prefixed(&[6_u8; 12], &bytes, &[]).unwrap();
        let part = packet(5_760, &payload, FrameHeaderV2::FLAG_ENCRYPTED, true);
        match consumer.push_part(consumer.next_sequence, &part) {
            Ok(samples) => {
                assert_eq!(samples.len(), 2 * 5_760);
                decoded += 1;
            }
            Err(ConsumerError::FrameCount { decoded: frames, declared }) => {
                assert_eq!(declared, 5_760);
                assert!(frames > 0 && frames < 5_760);
                decoded += 1;
            }
            Err(error) => assert!(matches!(error, ConsumerError::Decode)),
        }
    }
    assert!(decoded > 5_000);
}

#[test]
fn only_single_celt_frames_are_decoded() {
    assert!(packet_is_sound(&SILENCE));
    assert!(packet_is_sound(&[0x80, 0, 0]));
    // Speech, a mixture, two frames, a gap, nothing, and too much.
    assert!(!packet_is_sound(&[0x08, 0, 0]));
    assert!(!packet_is_sound(&[0x78, 0, 0]));
    assert!(!packet_is_sound(&[0xfd, 0, 0]));
    assert!(!packet_is_sound(&[0xfc, 0]));
    assert!(!packet_is_sound(&[]));
    let mut longest = vec![0xfc; 1_276];
    assert!(packet_is_sound(&longest));
    longest.push(0);
    assert!(!packet_is_sound(&longest));
    let cipher = ChaCha20Poly1305PacketCipher::new_from_decimal_key(KEY).unwrap();
    let payload = cipher.encrypt_nonce_prefixed(&[7_u8; 12], &[0x08, 1, 2, 3], &[]).unwrap();
    let part = packet(960, &payload, FrameHeaderV2::FLAG_ENCRYPTED, true);
    let mut consumer = SoundKitOpusConsumer::new(KEY, 0).ok().unwrap();
    assert!(matches!(consumer.push_part(0, &part).unwrap_err(), ConsumerError::Decode));
}

#[test]
fn coverage_takes_a_word_for_every_sixty_four_parts() {
    assert_eq!(word_count(0), Ok(0));
    assert_eq!(word_count(1), Ok(1));
    assert_eq!(word_count(64), Ok(1));
    assert_eq!(word_count(65), Ok(2));
    assert_eq!(word_count(u64::MAX), Ok(1 << 58));
    let coverage = PartCoverage::with_words(vec![9, 9, 9], 4, 65, 5);
    assert_eq!(coverage.words, [0, 0]);
    assert_eq!((coverage.start_sequence, coverage.expected_parts, coverage.part_ms), (4, 65, 5));
    assert_eq!(coverage.received_parts, 0);
    assert_eq!(PartCoverage::new(4, 65, 5).unwrap().words, [0, 0]);
}

#[test]
fn a_window_too_long_for_memory_is_refused_before_a_missing_key() {
    let outputs = ReaderSettings {
        duration_seconds: u64::MAX / 1_000,
        part_ms: 1,
        has_outputs: true,
        ..settings(HlsAudioCodec::Flac, 5)
    };
    let refused = HlsReader::new(outputs, "/live").unwrap_err();
    assert_eq!(refused, ReaderError::Coverage(CoverageError::NoMemory));
    let coverage = || PartCoverage::new(0, 200, 5).unwrap();
    let flac = settings(HlsAudioCodec::Flac, 5);
    let reader = HlsReader::with_coverage(flac, "/live", 1_000, coverage()).unwrap();
    assert_eq!(reader.coverage.words, [0; 4]);
    assert_eq!((reader.end_offset_ms, reader.after_sequence), (1_000, None));
    let keyed = ReaderSettings { has_key: true, ..flac };
    assert_eq!(
        HlsReader::with_coverage(keyed, "/live", 1_000, coverage()).unwrap_err(),
        ReaderError::KeyNeedsOpus
    );
}

#[test]
fn probes_subscribe_wait_and_subscribe_again() {
    assert_eq!(epoch_subscription_datagram(907), b"\0WAVEY-AUDIO-EPOCH/2 907");
    assert_eq!(
        strip_h3_datagram_context(&epoch_subscription_datagram(0)),
        Ok(&b"WAVEY-AUDIO-EPOCH/2 0"[..])
    );
    assert_eq!(poll_ns(1_000_000_000, 0), 250_000_000);
    assert_eq!(poll_ns(1_000_000_000, 900_000_000), 100_000_000);
    assert_eq!(poll_ns(1_000_000_000, 1_000_000_000), 0);
    assert_eq!(poll_ns(1_000_000_000, 2_000_000_000), 0);
    let mut refresh = SubscriptionRefresh::new(0);
    assert!(!refresh.is_due(4_999_999_999));
    assert!(refresh.is_due(5_250_000_000));
    assert!(!refresh.is_due(9_999_999_999));
    assert!(refresh.is_due(10_000_000_000));
    assert_eq!(refresh.next_ns, 15_000_000_000);
    assert!(!may_end(10, 9));
    assert!(may_end(10, 10));
}
