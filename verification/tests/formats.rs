//! What access units look like, and what requests say of them.
use av_contrib::formats::{codec_name, codec_of, infer_media_codec, AudioKind, UnitFraming};
use av_contrib::service::media_fec::MediaCodec;
use av_contrib::service::router::{MediaAccessUnitParams, QueryPair};
use av_contrib::service::unit_query::params_of_pairs;

const NOW: u64 = 1_784_151_600_000;
/// A picture behind its length.
const AVCC: &[u8] = &[0, 0, 0, 4, 0x65, 0x88, 0x84, 0x00];
/// A picture behind a start code.
const ANNEX_B: &[u8] = &[0, 0, 0, 1, 0x65, 0x88, 0x84, 0x21];
/// An AAC frame of ten bytes.
const ADTS: &[u8] = &[0xff, 0xf1, 0x4c, 0x80, 0x01, 0x5f, 0xfc, 0x21, 0x10, 0x04];

fn pair(key: &str, value: &str) -> QueryPair {
    QueryPair { key: key.to_owned(), value: value.to_owned() }
}

#[test]
fn access_units_are_told_apart() {
    assert_eq!(infer_media_codec(AVCC), MediaCodec::H264);
    assert_eq!(infer_media_codec(ANNEX_B), MediaCodec::H264);
    assert_eq!(infer_media_codec(ADTS), MediaCodec::Aac);
    assert_eq!(infer_media_codec(b"OpusHead\x01\x02\x00\x00\x80\xbb\x00\x00"), MediaCodec::Opus);
    assert_eq!(infer_media_codec(b"{}"), MediaCodec::Data);
    assert_eq!(infer_media_codec(&[]), MediaCodec::Data);
    assert_eq!(codec_of(Some(UnitFraming::StartCodes), AudioKind::Aac), MediaCodec::H264);
    assert_eq!(codec_of(None, AudioKind::OggOpus), MediaCodec::Opus);
    assert_eq!(codec_of(None, AudioKind::Opus), MediaCodec::Opus);
    assert_eq!(codec_of(None, AudioKind::Flac), MediaCodec::Data);
}

#[test]
fn codecs_have_names() {
    let names = [
        (MediaCodec::Unknown, "unknown"),
        (MediaCodec::H264, "h264"),
        (MediaCodec::Opus, "opus"),
        (MediaCodec::Aac, "aac"),
        (MediaCodec::Data, "data"),
    ];
    for (codec, name) in names {
        assert_eq!(codec_name(codec), name);
        let params = params_of_pairs(&vec![pair("codec", name)], 1, NOW).unwrap();
        assert_eq!((params.codec, params.codec_explicit), (codec, true));
    }
}

#[test]
fn requests_say_what_an_access_unit_is() {
    let silent = MediaAccessUnitParams::parse(None, 9, NOW).unwrap();
    assert_eq!(
        silent,
        MediaAccessUnitParams {
            stream_id: 9,
            sequence: None,
            pts_ms: NOW,
            dts_ms: None,
            duration_ms: 0,
            codec: MediaCodec::Data,
            codec_explicit: false,
            flags: 0,
        }
    );
    let query = "stream_id=55&codec=op%75s&sequence=7&pts_ms=20&dts_ms=10&duration_ms=5&flags=3";
    let spoken = MediaAccessUnitParams::parse(Some(query), 9, NOW).unwrap();
    assert_eq!(
        spoken,
        MediaAccessUnitParams {
            stream_id: 55,
            sequence: Some(7),
            pts_ms: 20,
            dts_ms: Some(10),
            duration_ms: 5,
            codec: MediaCodec::Opus,
            codec_explicit: true,
            flags: 3,
        }
    );
    let auto = MediaAccessUnitParams::parse(Some("stream_id=55&codec=auto"), 9, NOW).unwrap();
    assert!(!auto.codec_explicit);
    let metadata = auto.metadata_for_payload(4, ADTS);
    assert_eq!((metadata.sequence, metadata.codec), (4, MediaCodec::Aac));
    let metadata = spoken.metadata_for_payload(4, ADTS);
    assert_eq!((metadata.pts_ms, metadata.codec), (20, MediaCodec::Opus));
    assert_eq!((metadata.dts_ms, metadata.duration_ms, metadata.flags), (Some(10), 5, 3));
}

#[test]
fn requests_are_refused_that_say_it_badly() {
    let refused = |query: &str| MediaAccessUnitParams::parse(Some(query), 9, NOW).unwrap_err();
    assert_eq!(refused("stream_id=x"), "invalid stream_id `x`: invalid digit found in string");
    assert_eq!(refused("sequence=-1"), "invalid sequence `-1`: invalid digit found in string");
    assert_eq!(
        refused("pts_ms="),
        "invalid pts_ms ``: cannot parse integer from empty string"
    );
    assert_eq!(refused("dts_ms=a"), "invalid dts_ms `a`: invalid digit found in string");
    assert_eq!(
        refused("duration_ms=4294967296"),
        "invalid duration_ms `4294967296`: number too large to fit in target type"
    );
    assert_eq!(
        refused("flags=65536"),
        "invalid flags `65536`: number too large to fit in target type"
    );
    assert_eq!(refused("codec=vp9"), "invalid codec `vp9`");
    let twice = params_of_pairs(&vec![pair("flags", "1"), pair("flags", "2")], 1, NOW).unwrap();
    assert_eq!(twice.flags, 2);
}
