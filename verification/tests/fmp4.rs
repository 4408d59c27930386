//! The packager of fragments, and the elementary streams that feed it.
use av_contrib::fmp4_bridge::access_unit::{
    AccessUnit, STREAM_TYPE_AAC, STREAM_TYPE_H264,
};
use av_contrib::fmp4_bridge::boxable::{
    adts_is_sound, audio_is_sound, flac_block_overflows, keep_sound_audio,
};
use av_contrib::fmp4_bridge::elementary::{stream_type_label, ElementaryStreamConsumer};
use av_contrib::fmp4_bridge::model::{FlushReason, StoreOutcome, DEFAULT_MIN_PART_MS};
use av_contrib::fmp4_bridge::nalu::{
    ensure_h264_length_prefixed, strip_h264_parameter_sets, H264SampleError,
};
use av_contrib::fmp4_bridge::segmenter::Fmp4Segmenter;
use av_contrib::fmp4_bridge::sps::{decode_h264_sps, H264SpsValidationError};
use av_contrib::fmp4_bridge::sps_bits::sps_overflows;
use av_contrib::fmp4_bridge::ticks::{ms_to_ticks, ticks_to_ms, TimestampInput};
use av_contrib::fmp4_bridge::track::audio_config_signature;
use av_contrib::probe::format::fmp4_mdat_payload;

const H264_SPS_720P: &[u8] = &[
    0x67, 0x42, 0xc0, 0x1f, 0xda, 0x01, 0x40, 0x16, 0xec, 0x05, 0xa8, 0x08, 0x08, 0x0a, 0x00, 0x00,
    0x03, 0x00, 0x02, 0x00, 0x00, 0x03, 0x00, 0x65, 0x1e, 0x30, 0x65, 0x40,
];
const H264_SPS_360P: &[u8] = &[
    0x67, 0x42, 0xc0, 0x1e, 0xda, 0x02, 0x80, 0xbf, 0xe5, 0xc0, 0x5a, 0x80, 0x80, 0x80, 0xa0, 0x00,
    0x00, 0x03, 0x00, 0x20, 0x00, 0x00, 0x06, 0x51, 0xe2, 0xc5, 0xd4,
];
const H264_PPS: &[u8] = &[0x68, 0xce, 0x3c, 0x80];
const H264_CHANGED_PPS: &[u8] = &[0x68, 0xce, 0x3c, 0x81];
const H264_IDR: &[u8] = &[0x65, 0x88, 0x84, 0x00];
const H264_NON_IDR: &[u8] = &[0x41, 0x9a, 0x22];
const H264_INVALID_SPS: &[u8] = &[0x67, 0x00];

fn h264_access_unit(pts: u64, dts: u64) -> AccessUnit {
    AccessUnit { key: true, pts, dts, data: Vec::new(), stream_type: STREAM_TYPE_H264, id: 0 }
}

fn audio_access_unit(pts: u64, dts: u64) -> AccessUnit {
    AccessUnit { key: false, pts, dts, data: Vec::new(), stream_type: STREAM_TYPE_AAC, id: 0 }
}

fn push_len_prefixed_nalu(out: &mut Vec<u8>, nalu: &[u8]) {
    out.extend_from_slice(&(nalu.len() as u32).to_be_bytes());
    out.extend_from_slice(nalu);
}

fn h264_annex_b_sample(nalus: &[&[u8]]) -> Vec<u8> {
    let mut data = Vec::new();
    for nalu in nalus {
        data.extend_from_slice(&[0x00, 0x00, 0x01]);
        data.extend_from_slice(nalu);
    }
    data
}

fn h264_sample(sps: &[u8], pps: &[u8], media: &[u8]) -> Vec<u8> {
    let mut data = Vec::new();
    push_len_prefixed_nalu(&mut data, sps);
    push_len_prefixed_nalu(&mut data, pps);
    push_len_prefixed_nalu(&mut data, media);
    data
}

fn segmenter() -> Fmp4Segmenter {
    Fmp4Segmenter::new(0, 0, TimestampInput::Ticks90Khz, DEFAULT_MIN_PART_MS)
}

#[test]
fn fmp4_segmenter_rebases_large_mpeg_ts_timestamps() {
    let mut segmenter = segmenter();
    let mut first = h264_access_unit(9_000_000_000, 8_999_997_000);
    let mut second = h264_access_unit(9_000_003_000, 9_000_000_000);

    segmenter.normalize_timestamps(&mut first);
    segmenter.normalize_timestamps(&mut second);

    assert_eq!(first.dts, 0);
    assert_eq!(first.pts, 3_000);
    assert_eq!(second.dts, 3_000);
    assert_eq!(second.pts, 6_000);
}

#[test]
fn fmp4_segmenter_allows_audio_to_start_before_first_video_dts() {
    let mut segmenter = segmenter();
    segmenter.timestamp_base_input = Some(127_920);

    assert!(!segmenter.timestamp_went_backwards(&audio_access_unit(126_000, 126_000)));
    assert!(segmenter.timestamp_went_backwards(&h264_access_unit(126_000, 126_000)));
}

#[test]
fn strips_h264_parameter_sets_from_media_sample() {
    let mut data = Vec::new();
    push_len_prefixed_nalu(&mut data, &[0x67, 0x01, 0x02]);
    push_len_prefixed_nalu(&mut data, &[0x68, 0x03, 0x04]);
    push_len_prefixed_nalu(&mut data, &[0x65, 0x05, 0x06]);
    let mut access_unit = h264_access_unit(0, 0);
    access_unit.data = data;

    assert!(strip_h264_parameter_sets(&mut access_unit).unwrap());

    let nalus: Vec<&[u8]> = h264::iterate_avcc(&access_unit.data, 4).collect();
    assert_eq!(nalus, vec![&[0x65, 0x05, 0x06][..]]);
}

#[test]
fn rejects_truncated_h264_length_prefixed_sample() {
    let mut data = Vec::new();
    data.extend_from_slice(&5u32.to_be_bytes());
    data.extend_from_slice(&[0x65, 0x88]);
    let mut access_unit = h264_access_unit(0, 0);
    access_unit.data = data;

    assert_eq!(
        strip_h264_parameter_sets(&mut access_unit),
        Err(H264SampleError::TruncatedNalu { declared: 5, remaining: 2 })
    );
    access_unit.data = vec![0, 0, 0];
    assert_eq!(
        strip_h264_parameter_sets(&mut access_unit),
        Err(H264SampleError::TruncatedLengthPrefix { remaining: 3 })
    );
}

#[test]
fn annex_b_packetization_keeps_valid_h264_sps() {
    let mut access_unit = h264_access_unit(0, 0);
    access_unit.key = false;
    access_unit.data = h264_annex_b_sample(&[H264_SPS_720P, H264_PPS, H264_IDR]);

    assert!(ensure_h264_length_prefixed(&mut access_unit));
    assert!(access_unit.key);

    let nalus: Vec<&[u8]> = h264::iterate_avcc(&access_unit.data, 4).collect();
    assert_eq!(nalus, vec![H264_SPS_720P, H264_PPS, &[0x65, 0x88, 0x84][..]]);
}

#[test]
fn annex_b_packetization_drops_invalid_h264_sps_candidates() {
    let mut access_unit = h264_access_unit(0, 0);
    access_unit.key = false;
    access_unit.data = h264_annex_b_sample(&[H264_INVALID_SPS, H264_NON_IDR]);

    assert!(ensure_h264_length_prefixed(&mut access_unit));
    assert!(!access_unit.key);

    let nalus: Vec<&[u8]> = h264::iterate_avcc(&access_unit.data, 4).collect();
    assert_eq!(nalus, vec![H264_NON_IDR]);
}

#[test]
fn parses_h264_sps_display_dimensions_with_spec_crop_units() {
    let segmenter = segmenter();
    let mut access_unit = h264_access_unit(0, 0);
    access_unit.data = h264_sample(H264_SPS_720P, H264_PPS, H264_IDR);

    let config = segmenter.parse_h264_config(&access_unit).unwrap();
    assert_eq!((config.width, config.height), (1280, 720));

    access_unit.data = h264_sample(H264_SPS_360P, H264_PPS, H264_IDR);
    let config = segmenter.parse_h264_config(&access_unit).unwrap();
    assert_eq!((config.width, config.height), (640, 360));
    assert!(decode_h264_sps(H264_INVALID_SPS).is_err());
}

#[test]
fn accepts_keyframe_h264_config_update() {
    let mut segmenter = segmenter();
    let mut initial = h264_access_unit(0, 0);
    initial.data = h264_sample(H264_SPS_720P, H264_PPS, H264_IDR);
    let config = segmenter.parse_h264_config(&initial).unwrap();
    segmenter.install_h264_config(config);
    assert_eq!((segmenter.config.width, segmenter.config.height), (1280, 720));

    let mut changed = h264_access_unit(90_000, 90_000);
    changed.key = true;
    changed.data = h264_sample(H264_SPS_360P, H264_PPS, H264_IDR);
    assert!(segmenter.push_video(changed).is_none());

    assert_eq!((segmenter.config.width, segmenter.config.height), (640, 360));
    assert_eq!(segmenter.video_buf.len(), 1);
    assert!(segmenter.force_next_init);
}

#[test]
fn drops_non_key_h264_config_update() {
    let mut segmenter = segmenter();
    let mut initial = h264_access_unit(0, 0);
    initial.data = h264_sample(H264_SPS_720P, H264_PPS, H264_IDR);
    let config = segmenter.parse_h264_config(&initial).unwrap();
    segmenter.install_h264_config(config);

    let mut changed = h264_access_unit(90_000, 90_000);
    changed.key = false;
    changed.data = h264_sample(H264_SPS_360P, H264_PPS, H264_NON_IDR);
    assert!(segmenter.push_video(changed).is_none());

    assert_eq!((segmenter.config.width, segmenter.config.height), (1280, 720));
    assert!(segmenter.video_buf.is_empty());
}

#[test]
fn keeps_same_resolution_non_key_h264_config_update() {
    let mut segmenter = segmenter();
    let mut initial = h264_access_unit(0, 0);
    initial.data = h264_sample(H264_SPS_720P, H264_PPS, H264_IDR);
    let config = segmenter.parse_h264_config(&initial).unwrap();
    segmenter.install_h264_config(config);

    let media = &[0x41, 0x9a, 0x22];
    let mut changed = h264_access_unit(90_000, 90_000);
    changed.key = false;
    changed.data = h264_sample(H264_SPS_720P, H264_CHANGED_PPS, media);
    assert!(segmenter.push_video(changed).is_none());

    assert_eq!((segmenter.config.width, segmenter.config.height), (1280, 720));
    assert_eq!(segmenter.video_buf.len(), 1);
    let nalus: Vec<&[u8]> = h264::iterate_avcc(&segmenter.video_buf[0].data, 4).collect();
    assert_eq!(nalus, vec![&media[..]]);
}

#[test]
fn a_running_stream_is_cut_into_parts_that_hold_every_picture() {
    let mut segmenter =
        Fmp4Segmenter::new(9, 2, TimestampInput::Ticks90Khz, DEFAULT_MIN_PART_MS);
    let mut parts = Vec::new();
    for index in 0..61_u64 {
        let mut unit = h264_access_unit(900_000 + index * 3_000, 900_000 + index * 3_000);
        unit.key = index % 30 == 0;
        unit.data = if unit.key {
            h264_sample(H264_SPS_720P, H264_PPS, H264_IDR)
        } else {
            let mut data = Vec::new();
            push_len_prefixed_nalu(&mut data, H264_NON_IDR);
            data
        };
        if let Some(part) = segmenter.push_access_unit(unit) {
            parts.push(part.published(1, 2));
            segmenter.complete(part, StoreOutcome::Stored);
        }
    }
    if let Some(part) = segmenter.finish() {
        parts.push(part.published(1, 2));
        segmenter.complete(part, StoreOutcome::Stored);
    }
    assert!(parts.len() > 1);
    assert_eq!(parts.iter().map(|part| part.video_units).sum::<usize>(), 61);
    assert!(parts[0].init.is_some());
    assert!(parts[1].init.is_none());
    for (index, part) in parts.iter().enumerate() {
        assert_eq!(part.sequence, index as u64);
        assert_eq!((part.stream_id, part.stream_idx), (9, 2));
        assert_eq!(part.video_codec, Some("h264"));
        assert!(part.bytes.windows(4).any(|bytes| bytes == b"mdat"));
    }
    let mut pictures = Vec::new();
    for index in 0..parts[0].video_units {
        push_len_prefixed_nalu(&mut pictures, if index == 0 { H264_IDR } else { H264_NON_IDR });
    }
    assert_eq!(fmp4_mdat_payload(&parts[0].bytes), Some(pictures.as_slice()));
    assert_eq!((parts[0].video_width, parts[0].video_height), (Some(1280), Some(720)));
}

#[test]
fn pictures_from_the_past_start_a_stream_over() {
    let mut segmenter = segmenter();
    let mut unit = h264_access_unit(900_000, 900_000);
    unit.data = h264_sample(H264_SPS_720P, H264_PPS, H264_IDR);
    assert!(segmenter.push_access_unit(unit).is_none());
    assert_eq!(segmenter.timestamp_base_input, Some(900_000));
    let mut earlier = h264_access_unit(3_000, 3_000);
    earlier.data = h264_sample(H264_SPS_720P, H264_PPS, H264_IDR);
    if let Some(part) = segmenter.push_access_unit(earlier) {
        segmenter.complete(part, StoreOutcome::AppendFailed);
    }
    assert_eq!(segmenter.timestamp_base_input, Some(3_000));
    assert_eq!(segmenter.video_buf.len(), 1);
    assert!(segmenter.flush_reason_before(&h264_access_unit(1, 1)).is_none());
    assert_eq!(
        segmenter.flush_reason_before(&h264_access_unit(1_000_000_000, 1_000_000_000)),
        Some(FlushReason::TargetKeyframe)
    );
}

#[test]
fn elementary_streams_become_access_units() {
    let mut video = ElementaryStreamConsumer::construct(STREAM_TYPE_H264);
    let sample = h264_annex_b_sample(&[H264_SPS_720P, H264_PPS, H264_IDR]);
    assert!(video.begin_packet(Some((7, 5)), Some(&sample[..10])).is_none());
    assert!(video.continue_packet(&sample[10..]).is_none());
    let unit = video.end_packet().unwrap();
    assert_eq!((unit.pts, unit.dts, unit.key), (7, 5, true));
    assert_eq!(h264::iterate_avcc(&unit.data, 4).count(), 3);
    assert!(video.end_packet().is_none());
    let mut audio = ElementaryStreamConsumer::construct(STREAM_TYPE_AAC);
    assert!(audio.begin_packet(Some((9, 9)), Some(b"adts")).is_none());
    let issue = audio.continuity_error();
    assert_eq!((issue.stream_type, issue.dropped_payload_bytes), ("adts", 4));
    assert!(audio.end_packet().is_none());
    assert!(audio.begin_packet(Some((9, 9)), Some(b"adts")).is_none());
    assert_eq!(audio.end_packet().unwrap().data, b"adts");
    assert_eq!(stream_type_label(STREAM_TYPE_H264), "h264");
}

#[test]
fn units_are_found_behind_start_codes() {
    let mut unit = h264_access_unit(0, 0);
    unit.data = vec![0, 0, 0, 1, 0x65, 9, 0, 0, 0, 1, 0x41, 8, 0, 7, 0, 0, 1, 0x06, 5, 0, 0];
    assert!(ensure_h264_length_prefixed(&mut unit));
    let nalus: Vec<&[u8]> = h264::iterate_avcc(&unit.data, 4).collect();
    assert_eq!(nalus, vec![&[0x65, 9][..], &[0x41, 8, 0, 7][..], &[0x06, 5][..]]);
    unit.data = vec![0, 0, 2, 0x65];
    assert!(ensure_h264_length_prefixed(&mut unit));
    assert_eq!(unit.data, [0, 0, 2, 0x65]);
    unit.data = vec![0, 0, 1, 0, 0, 1];
    assert!(!ensure_h264_length_prefixed(&mut unit));
}

#[test]
fn aac_headers_tell_their_track() {
    let mut unit = audio_access_unit(0, 0);
    unit.data = vec![0xff, 0xf1, 0x4c, 0x80, 0, 0, 0];
    let mut other = audio_access_unit(0, 0);
    other.data = vec![0xff, 0xf9, 0x4c, 0x80, 0, 0, 0];
    let signature = audio_config_signature(&vec![other, unit]).unwrap();
    assert_eq!(
        (signature.profile, signature.sampling_frequency, signature.channel_configuration),
        (1, 48_000, 2)
    );
    assert_eq!(signature.stream_type, STREAM_TYPE_AAC);
    let mut unknown = audio_access_unit(0, 0);
    unknown.data = vec![0xff, 0xf1, 0x74, 0x80, 0, 0, 0];
    assert!(audio_config_signature(&vec![unknown]).is_none());
    let mut cut = audio_access_unit(0, 0);
    cut.data = vec![0xff, 0xf1, 0x4c, 0x80, 0, 0];
    assert!(audio_config_signature(&vec![cut]).is_none());
    let mut wide = audio_access_unit(0, 0);
    wide.data = vec![0xff, 0xf0, 0xb1, 0xc0, 0, 0, 0];
    let signature = audio_config_signature(&vec![wide]).unwrap();
    assert_eq!(
        (signature.profile, signature.sampling_frequency, signature.channel_configuration),
        (2, 7_350, 7)
    );
}

#[test]
fn ticks_and_milliseconds() {
    assert_eq!(ms_to_ticks(50), 4_500);
    assert_eq!(ticks_to_ms(4_500), 50);
    assert_eq!(TimestampInput::Millis.scale_video(10), 900);
}

/// An AAC frame of ten bytes.
const ADTS_FRAME: &[u8] = &[0xff, 0xf1, 0x4c, 0x80, 0x01, 0x5f, 0xfc, 0x21, 0x10, 0x04];
/// A head that declares a frame shorter than itself.
const ADTS_SHORT: &[u8] = &[0xff, 0xf1, 0x4c, 0x80, 0, 0, 0];
/// A head of FLAC whose block has as many samples as two bytes can say.
const FLAC_LONG: &[u8] = &[0xff, 0xf8, 0x7a, 0x18, 0x00, 0xff, 0xff, 0x00, 0x00, 0x00, 0x00, 0x00];

fn audio(data: &[u8]) -> AccessUnit {
    let mut unit = audio_access_unit(0, 0);
    unit.data = data.to_vec();
    unit
}

#[test]
fn audio_that_cannot_be_boxed_is_left_out() {
    assert!(adts_is_sound(ADTS_FRAME));
    assert!(!adts_is_sound(ADTS_SHORT));
    assert!(adts_is_sound(&ADTS_FRAME[..9]));
    assert!(flac_block_overflows(FLAC_LONG));
    assert!(!flac_block_overflows(&FLAC_LONG[..6]));
    assert!(audio_is_sound(&vec![audio(ADTS_FRAME), audio(ADTS_FRAME)]));
    assert!(!audio_is_sound(&vec![audio(ADTS_FRAME), audio(ADTS_SHORT)]));
    let kept = keep_sound_audio(vec![audio(ADTS_FRAME), audio(ADTS_SHORT), audio(ADTS_FRAME)]);
    let kept: Vec<&[u8]> = kept.iter().map(|unit| unit.data.as_slice()).collect();
    assert_eq!(kept, [ADTS_FRAME, ADTS_FRAME]);
    assert_eq!(keep_sound_audio(vec![audio(FLAC_LONG)]).len(), 0);
    let unlike = keep_sound_audio(vec![audio(b"anything else")]);
    assert_eq!(unlike.len(), 1);
}

#[test]
fn a_broken_head_stops_no_part() {
    for broken in [ADTS_SHORT, FLAC_LONG] {
        let mut segmenter = segmenter();
        let mut parts = 0;
        for index in 0..61_u64 {
            let ticks = 900_000 + index * 3_000;
            let mut unit = h264_access_unit(ticks, ticks);
            unit.key = index % 30 == 0;
            unit.data = h264_sample(H264_SPS_720P, H264_PPS, H264_IDR);
            let mut sound = audio_access_unit(ticks, ticks);
            sound.data = if index % 2 == 0 { broken } else { ADTS_FRAME }.to_vec();
            for unit in [sound, unit] {
                if let Some(part) = segmenter.push_access_unit(unit) {
                    assert!(!part.published(1, 2).bytes.is_empty());
                    segmenter.complete(part, StoreOutcome::Stored);
                    parts += 1;
                }
            }
        }
        assert!(parts > 1);
    }
}

/// Bits as a unit that holds them behind a header carries them.
fn unit_of_bits(header: u8, bits: &str) -> Vec<u8> {
    let mut unit = vec![header];
    let mut zeros = 0;
    let digits: Vec<char> = bits.chars().filter(|bit| *bit != ' ').collect();
    for byte in digits.chunks(8) {
        let mut value = 0_u8;
        for index in 0..8 {
            value = value * 2 + u8::from(byte.get(index) == Some(&'1'));
        }
        if zeros >= 2 && value <= 3 {
            unit.push(3);
            zeros = 0;
        }
        zeros = if value == 0 { zeros + 1 } else { 0 };
        unit.push(value);
    }
    unit
}

#[test]
fn parameter_sets_are_read_as_far_as_their_fields_go() {
    let expected = decode_h264_sps(H264_SPS_720P).unwrap();
    assert_eq!((expected.width, expected.height), (1280, 720));
    let mut padded = H264_SPS_720P.to_vec();
    padded.extend_from_slice(&[0; 7]);
    assert_eq!(decode_h264_sps(&padded), Ok(expected));
    padded.extend_from_slice(&[0; 9]);
    padded.extend_from_slice(&[0xff; 40]);
    assert!(!sps_overflows(&padded));
    assert_eq!(decode_h264_sps(&padded), Ok(expected));

    // 640 by 368, with a clock whose tick and scale are both zero.
    let zeros = "0".repeat(64);
    let bits = format!(
        "01000010 00000000 00011110 1 1 011 010 0 00000101000 000010111 1 1 0 1 \
         0 0 0 0 1 {zeros} 0 0 0 0 0 1"
    );
    let timed = unit_of_bits(0x67, &bits);
    assert!(!sps_overflows(&timed));
    let timed = decode_h264_sps(&timed).unwrap();
    assert_eq!((timed.width, timed.height), (640, 368));
}

#[test]
fn parameter_sets_with_codes_beyond_a_word_are_refused() {
    let head = "01000010 11000000 00011111";
    let zeros = "0".repeat(64);
    let long = format!("{head} {zeros} 1 {}", "1".repeat(64));
    assert!(sps_overflows(&unit_of_bits(0x67, &long)));
    assert_eq!(
        decode_h264_sps(&unit_of_bits(0x67, &long)),
        Err(H264SpsValidationError::UndecodableRbsp)
    );
    let cut = format!("{head} {zeros} 1 {}", "1".repeat(40));
    assert!(sps_overflows(&unit_of_bits(0x67, &cut)));
    assert_eq!(
        decode_h264_sps(&unit_of_bits(0x67, &cut)),
        Err(H264SpsValidationError::UndecodableRbsp)
    );
    // A code that breaks off leaves its bits to the field behind it.
    let mut left = vec![0x67, 0x42, 0x00, 0x1e, 0x80];
    left.extend_from_slice(&[0; 24]);
    left.extend_from_slice(&[0xff; 19]);
    assert!(sps_overflows(&left));
    assert_eq!(decode_h264_sps(&left), Err(H264SpsValidationError::UndecodableRbsp));
    let short = format!("01000010 00000000 00011110 1 {} 1 {}", "0".repeat(63), "1".repeat(62));
    assert!(!sps_overflows(&unit_of_bits(0x67, &short)));
    assert_eq!(
        decode_h264_sps(&unit_of_bits(0x67, &short)),
        Err(H264SpsValidationError::UndecodableRbsp)
    );
    assert!(!sps_overflows(&unit_of_bits(0x6e, &long)));
    assert_eq!(
        decode_h264_sps(&unit_of_bits(0x6e, &long)),
        Err(H264SpsValidationError::UndecodableNalu)
    );
    assert_eq!(decode_h264_sps(&[]), Err(H264SpsValidationError::UndecodableNalu));
    // The longest code that a word holds is read, and the picture that it makes is refused.
    let wide = format!(
        "01000010 00000000 00011110 1 1 011 010 0 {} 1 {} 000010111 1 1 0 0 1",
        "0".repeat(63),
        "1".repeat(63)
    );
    assert!(!sps_overflows(&unit_of_bits(0x67, &wide)));
    assert_eq!(
        decode_h264_sps(&unit_of_bits(0x67, &wide)),
        Err(H264SpsValidationError::InvalidDimensions)
    );
    // A code of a high profile, a count of references and a buffer's rate.
    for fields in [
        "01100100 00000000 00011110 1 011",
        "01000010 00000000 00011110 1 1 010 0 1 1 011 1",
        "01000010 00000000 00011110 1 1 011 010 0 00000101000 000010111 1 1 0 1 0 0 0 0 0 1 1 \
         00000000",
    ] {
        let broken = unit_of_bits(0x67, &format!("{fields} {zeros} 1 {}", "1".repeat(64)));
        assert!(sps_overflows(&broken));
        assert_eq!(decode_h264_sps(&broken), Err(H264SpsValidationError::UndecodableRbsp));
    }
}

#[test]
fn what_is_left_makes_a_last_part_where_there_is_something() {
    let mut segmenter =
        Fmp4Segmenter::new(9, 2, TimestampInput::Ticks90Khz, DEFAULT_MIN_PART_MS);
    assert!(segmenter.finish().is_none());
    // A picture without parameter sets is not configured.
    let mut bare = h264_access_unit(900_000, 900_000);
    bare.data = Vec::new();
    push_len_prefixed_nalu(&mut bare.data, H264_NON_IDR);
    bare.key = false;
    assert!(segmenter.push_access_unit(bare).is_none());
    assert!(segmenter.finish().is_none());
    let mut segmenter =
        Fmp4Segmenter::new(9, 2, TimestampInput::Ticks90Khz, DEFAULT_MIN_PART_MS);
    let mut picture = h264_access_unit(903_000, 903_000);
    picture.data = h264_sample(H264_SPS_720P, H264_PPS, H264_IDR);
    assert!(segmenter.push_access_unit(picture).is_none());
    let part = segmenter.finish().unwrap().published(1, 2);
    let mut coded = Vec::new();
    push_len_prefixed_nalu(&mut coded, H264_IDR);
    assert_eq!(fmp4_mdat_payload(&part.bytes), Some(coded.as_slice()));
}
