//! Audio epochs: recovery, packaging and the worker that runs them.
use av_contrib::audio_epoch_hls::group::{
    AudioGroup, AudioPayloadKind, AudioSampleFormat, PackageError,
};
use av_contrib::audio_epoch_hls::recovery::is_multichannel_audio_transport_datagram;
use av_contrib::audio_epoch_hls::opaque::OpaquePartSegmenter;
use av_contrib::audio_epoch_hls::rendition::{
    new_rendition_packager, AudioEpochHlsConfig, AudioEpochHlsPackaging, PackageStep, RenditionKey,
    RenditionPackager, RenditionPart, Renditions,
};
use av_contrib::audio_epoch_hls::timing::samples_to_millis;
use av_contrib::audio_epoch_hls::worker::{
    queue_capacity, worker_stats, AudioEpochWorker, Received, AUDIO_EPOCH_IDLE_TIMEOUT_MS,
};
use music_audio_session::{MultichannelAudioSender, MultichannelAudioSessionConfig};
use raptorq_datagram_fec::{
    AudioPayloadKind as WireKind, AudioSampleFormat as WireFormat, MultichannelAudioEpoch,
    MultichannelAudioFecConfig, MultichannelAudioGroup,
};
use raptorq_fec_transport::MultichannelAudioTransportAdapter;
use std::collections::HashSet;

fn decoded_group(
    epoch_id: u64,
    pts_samples: u64,
    group_id: u16,
    channel_count: u16,
    payload_kind: AudioPayloadKind,
    sample_format: AudioSampleFormat,
    payload: Vec<u8>,
) -> AudioGroup {
    AudioGroup {
        session_id: 101,
        config_generation: 1,
        epoch_id,
        pts_samples,
        sample_rate: 48_000,
        frame_count: 240,
        group_id,
        channel_count,
        payload_kind,
        sample_format,
        flags: 0,
        payload,
        raptorq_recovered_fragments: 0,
    }
}

/// Packages a group, publishing every part that it hands out, and gives the parts.
fn package(
    renditions: &mut Renditions,
    config: &AudioEpochHlsConfig,
    group: AudioGroup,
) -> Vec<PublishedPart> {
    let key = RenditionKey { session_id: group.session_id, group_id: group.group_id };
    let mut published = Vec::new();
    let mut step = renditions.package_group(config, group);
    loop {
        match step {
            PackageStep::Done => return published,
            PackageStep::Failed(error) => panic!("{error:?}"),
            PackageStep::Publish(part) => {
                published.push(PublishedPart::of(&part));
                let at = renditions.find(key).unwrap();
                step = renditions.complete_group(config, at, part, true);
            }
        }
    }
}

#[derive(Debug)]
struct PublishedPart {
    boxed: bool,
    stream_id: u64,
    sequence: u64,
    duration_ms: u32,
    audio_units: usize,
    audio_codec: Option<&'static str>,
    init: Option<Vec<u8>>,
    bytes: Vec<u8>,
}

impl PublishedPart {
    fn of(part: &RenditionPart) -> Self {
        match part {
            RenditionPart::Opaque(part) => PublishedPart {
                boxed: false,
                stream_id: part.stream_id,
                sequence: part.sequence,
                duration_ms: part.duration_ms,
                audio_units: part.audio_units,
                audio_codec: None,
                init: None,
                bytes: part.bytes.clone(),
            },
            RenditionPart::Fmp4(part) => PublishedPart {
                boxed: true,
                stream_id: part.stream_id,
                sequence: part.sequence,
                duration_ms: part.duration_ms,
                audio_units: part.audio_units,
                audio_codec: part.audio_codec,
                init: part.init.clone(),
                bytes: part.bytes.clone(),
            },
        }
    }
}

fn mdat_payload(part: &[u8]) -> Option<&[u8]> {
    let mut offset = 0_usize;
    while offset.checked_add(8)? <= part.len() {
        let size = u32::from_be_bytes(part[offset..offset + 4].try_into().ok()?) as usize;
        if size < 8 || offset.checked_add(size)? > part.len() {
            return None;
        }
        if &part[offset + 4..offset + 8] == b"mdat" {
            return Some(&part[offset + 8..offset + size]);
        }
        offset += size;
    }
    None
}

#[test]
fn idle_source_and_rendition_state_is_retired() {
    let mut worker = AudioEpochWorker::new();
    worker.take_datagram(41_999, b"AEP1 nonsense", 1_000);
    assert_eq!(worker_stats(&worker).active_receivers, 1);
    worker.retire_idle_receivers(1_000 + AUDIO_EPOCH_IDLE_TIMEOUT_MS - 1);
    assert_eq!(worker.receivers.len(), 1);
    worker.retire_idle_receivers(1_000 + AUDIO_EPOCH_IDLE_TIMEOUT_MS + 1_000);
    assert!(worker.receivers.is_empty());
    assert_eq!(worker_stats(&worker).active_receivers, 0);
    assert_eq!(worker_stats(&worker).retired_receivers, 1);

    let key = RenditionKey { session_id: 99, group_id: 7 };
    assert!(worker.dispatch_group_to_rendition_worker(key, 1_000));
    assert!(!worker.dispatch_group_to_rendition_worker(key, 1_000));
    let retired =
        worker.retire_idle_rendition_workers(1_000 + AUDIO_EPOCH_IDLE_TIMEOUT_MS + 1_000);
    assert_eq!(retired, [key]);
    assert!(worker.renditions.is_empty());
    worker.rendition_workers_stopped(1, 0);
    assert_eq!(worker_stats(&worker).active_rendition_workers, 0);
    assert_eq!(worker_stats(&worker).retired_rendition_workers, 1);
}

#[test]
fn sample_pts_maps_exactly_at_48khz_epoch_boundaries() {
    assert_eq!(samples_to_millis(0, 48_000).unwrap(), 0);
    assert_eq!(samples_to_millis(240, 48_000).unwrap(), 5);
    assert_eq!(samples_to_millis(720, 48_000).unwrap(), 15);
    assert_eq!(samples_to_millis(48_000, 48_000).unwrap(), 1_000);
    assert!(samples_to_millis(1, 0).is_err());
}

#[test]
fn aep1_recovery_publishes_every_declared_format_as_opaque_bytes() {
    let config = AudioEpochHlsConfig::new(20, 5, AudioEpochHlsPackaging::Opaque);
    let expected = [
        vec![0x00, 0xff, 0x50, 0x43, 0x4d],
        vec![0x46, 0x4c, 0x41, 0x43, 0x00, 0xfe],
        vec![0x4f, 0x50, 0x55, 0x53, 0x81, 0x7f, 0x00],
    ];
    let descriptors = [
        (WireKind::Pcm, WireFormat::S24Le),
        (WireKind::Flac, WireFormat::S24Le),
        (WireKind::Opus, WireFormat::Unspecified),
    ];
    let groups = expected
        .iter()
        .zip(descriptors)
        .enumerate()
        .map(|(group_id, (payload, (payload_kind, sample_format)))| MultichannelAudioGroup {
            group_id: group_id as u16,
            channel_start: group_id as u16 * 2,
            channel_count: 2,
            payload_kind,
            sample_format,
            flags: 0,
            payload,
        })
        .collect::<Vec<_>>();

    let transport = MultichannelAudioTransportAdapter::udp(1_200);
    let fec = transport.prepare_fec_config(MultichannelAudioFecConfig::default());
    let mut sender = MultichannelAudioSender::new(MultichannelAudioSessionConfig {
        fec,
        ..MultichannelAudioSessionConfig::default()
    });
    let encoded = sender
        .encode_epoch(MultichannelAudioEpoch {
            session_id: 99,
            config_generation: 3,
            epoch_id: 0,
            pts_samples: 0,
            sample_rate: 48_000,
            frame_count: 240,
            groups: &groups,
        })
        .unwrap();
    let mut worker = AudioEpochWorker::new();
    let mut renditions = Renditions::new();
    let mut parts = Vec::new();
    for datagram in transport.wrap_epoch(encoded).unwrap().datagrams {
        assert!(is_multichannel_audio_transport_datagram(&datagram.payload));
        match worker.take_datagram(41_000, &datagram.payload, 0) {
            Received::Groups(groups) => {
                for group in groups {
                    parts.extend(package(&mut renditions, &config, group));
                }
            }
            _ => panic!("a datagram was refused"),
        }
    }

    assert_eq!(parts.len(), expected.len());
    for (group_id, bytes) in expected.iter().enumerate() {
        let part = parts
            .iter()
            .find(|part| part.stream_id == 20 + group_id as u64)
            .expect("one published part per AEP1 group");
        assert!(!part.boxed);
        assert_eq!(part.sequence, 0);
        assert_eq!(part.duration_ms, 5);
        assert_eq!(part.audio_units, 1);
        assert_eq!(&part.bytes, bytes);
    }
    assert_eq!(worker_stats(&worker).groups_completed, 3);
}

#[test]
fn explicit_fmp4_policy_boxes_pcm_without_changing_samples() {
    let config = AudioEpochHlsConfig::new(40, 5, AudioEpochHlsPackaging::Fmp4);
    let mut renditions = Renditions::new();
    let payload = (0..240 * 2)
        .flat_map(|sample| {
            let bytes = (sample * 97_i32).to_le_bytes();
            [bytes[0], bytes[1], bytes[2]]
        })
        .collect::<Vec<_>>();

    let parts = package(
        &mut renditions,
        &config,
        decoded_group(
            0,
            0,
            0,
            2,
            AudioPayloadKind::Pcm,
            AudioSampleFormat::S24Le,
            payload.clone(),
        ),
    );

    assert_eq!(parts.len(), 1);
    assert!(parts[0].boxed);
    assert_eq!(parts[0].audio_codec, Some("pcm_s24le"));
    assert_eq!(mdat_payload(&parts[0].bytes), Some(payload.as_slice()));
    assert!(parts[0]
        .init
        .as_ref()
        .is_some_and(|init| init.windows(4).any(|bytes| bytes == b"ipcm")));
}

#[test]
fn opaque_parts_can_coalesce_twenty_five_ms_units_without_parsing() {
    let config = AudioEpochHlsConfig::new(1, 100, AudioEpochHlsPackaging::Opaque);
    let mut renditions = Renditions::new();
    let mut expected = Vec::new();
    let mut parts = Vec::new();

    for epoch_id in 0..20_u64 {
        let payload = vec![epoch_id as u8, 0xa5, 0x5a];
        expected.extend_from_slice(&payload);
        parts.extend(package(
            &mut renditions,
            &config,
            decoded_group(
                epoch_id,
                epoch_id * 240,
                0,
                1,
                AudioPayloadKind::Opus,
                AudioSampleFormat::Unspecified,
                payload,
            ),
        ));
    }

    assert_eq!(parts.len(), 1);
    assert_eq!(parts[0].duration_ms, 100);
    assert_eq!(parts[0].audio_units, 20);
    assert_eq!(parts[0].bytes, expected);
}

#[test]
fn declared_format_changes_do_not_reset_object_sequence() {
    let config = AudioEpochHlsConfig::new(7, 5, AudioEpochHlsPackaging::Opaque);
    let mut renditions = Renditions::new();
    let mut parts = package(
        &mut renditions,
        &config,
        decoded_group(
            0,
            0,
            0,
            2,
            AudioPayloadKind::Pcm,
            AudioSampleFormat::S24Le,
            b"first opaque payload".to_vec(),
        ),
    );
    parts.extend(package(
        &mut renditions,
        &config,
        decoded_group(
            1,
            240,
            0,
            2,
            AudioPayloadKind::Opus,
            AudioSampleFormat::Unspecified,
            b"second opaque payload".to_vec(),
        ),
    ));

    assert_eq!(parts.len(), 2);
    assert_eq!(parts[0].sequence, 0);
    assert_eq!(parts[1].sequence, 1);
    assert_eq!(parts[0].bytes, b"first opaque payload");
    assert_eq!(parts[1].bytes, b"second opaque payload");
}

#[test]
fn two_hundred_fifty_six_channels_shard_without_media_parsing() {
    let config = AudioEpochHlsConfig::new(100, 5, AudioEpochHlsPackaging::Opaque);
    let mut renditions = Renditions::new();
    let mut parts = Vec::new();

    for group_id in 0..32_u16 {
        let payload = vec![group_id as u8; 37 + usize::from(group_id)];
        parts.extend(package(
            &mut renditions,
            &config,
            decoded_group(
                0,
                0,
                group_id,
                8,
                AudioPayloadKind::Pcm,
                AudioSampleFormat::S24Le,
                payload,
            ),
        ));
    }

    assert_eq!(parts.len(), 32);
    let streams = parts.iter().map(|part| part.stream_id).collect::<HashSet<_>>();
    assert_eq!(streams, (100..132).collect::<HashSet<_>>());
    for part in parts.iter() {
        let group_id = usize::try_from(part.stream_id - 100).unwrap();
        assert_eq!(part.bytes, vec![group_id as u8; 37 + group_id]);
    }
}

#[test]
fn groups_are_refused_that_cannot_be_packaged() {
    let config = AudioEpochHlsConfig::new(u64::MAX, 0, AudioEpochHlsPackaging::Fmp4);
    assert_eq!(config.min_part_ms, 1);
    let group = |payload: Vec<u8>| {
        decoded_group(0, 0, 1, 2, AudioPayloadKind::Pcm, AudioSampleFormat::S24Le, payload)
    };
    let error = |config: &AudioEpochHlsConfig, group: AudioGroup| {
        match Renditions::new().package_group(config, group) {
            PackageStep::Failed(error) => error,
            _ => panic!("the group was taken"),
        }
    };
    assert_eq!(
        error(&config, group(vec![])),
        PackageError::Erasure { session_id: 101, group_id: 1 }
    );
    let mut empty = group(vec![1]);
    empty.channel_count = 0;
    assert_eq!(
        error(&config, empty),
        PackageError::InvalidDimensions { session_id: 101, group_id: 1 }
    );
    assert_eq!(error(&config, group(vec![1])), PackageError::StreamIdOverflow);
    assert_eq!(queue_capacity(0), 1);
    assert_eq!(queue_capacity(9), 9);
    let mut worker = AudioEpochWorker::new();
    assert!(matches!(worker.take_datagram(1, b"no epoch", 0), Received::Invalid));
    assert!(matches!(worker.take_datagram(1, b"AEP1 nonsense", 0), Received::Refused));
    worker.count_error();
    assert!(worker_stats(&worker).errors > 0);
    assert!(worker.shut_down().is_empty());
}

#[test]
fn parts_hold_whole_payloads_until_they_last_long_enough() {
    let mut segmenter = OpaquePartSegmenter::new(5, 2, 10);
    let mut parts = Vec::new();
    let durations = [4_u32, 4, 4, 12, 1, 9, 3];
    for (index, duration) in durations.iter().enumerate() {
        parts.extend(segmenter.push(&[index as u8; 3], *duration));
    }
    parts.extend(segmenter.finish());
    let made: Vec<(u32, usize, Vec<u8>)> =
        parts.into_iter().map(|part| (part.duration_ms, part.audio_units, part.bytes)).collect();
    assert_eq!(
        made,
        [
            (12, 3, vec![0, 0, 0, 1, 1, 1, 2, 2, 2]),
            (12, 1, vec![3, 3, 3]),
            (10, 2, vec![4, 4, 4, 5, 5, 5]),
            (3, 1, vec![6, 6, 6]),
        ]
    );
}

#[test]
fn packagers_write_where_they_are_told() {
    let opaque = AudioEpochHlsConfig::new(1, 5, AudioEpochHlsPackaging::Opaque);
    match new_rendition_packager(&opaque, 90, 3) {
        RenditionPackager::Opaque(mut packager) => {
            let part = packager.push(&[1, 2], 5).unwrap();
            assert_eq!((part.stream_id, part.stream_idx, part.sequence), (90, 3, 0));
        }
        RenditionPackager::Fmp4(_) => panic!("parts are looked into"),
    }
    let boxed = AudioEpochHlsConfig::new(1, 5, AudioEpochHlsPackaging::Fmp4);
    assert!(matches!(new_rendition_packager(&boxed, 90, 3), RenditionPackager::Fmp4(_)));
}
