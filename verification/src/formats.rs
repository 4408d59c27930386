//! What raw bytes of media look like.
use crate::service::media_fec::MediaCodec;
use access_unit::AudioType;
use vstd::prelude::*;

verus! {

/// What bytes are taken for, where they are taken for audio.
#[derive(Debug, Clone, Copy, PartialEq, Eq, Structural)]
pub enum AudioKind {
    Unknown,
    Aac,
    M4a,
    Flac,
    Mp3,
    OggOpus,
    OggVorbis,
    OggSpeex,
    Opus,
    Wav,
    WebM,
    Alac,
    Aiff,
    Ac3,
    Matroska,
    MpegTs,
    FragmentedMp4,
}

/// How the units of an H.264 access unit are told apart.
#[derive(Debug, Clone, Copy, PartialEq, Eq, Structural)]
pub enum UnitFraming {
    /// Each stands behind its length.
    LengthPrefixed,
    /// Each stands behind a start code.
    StartCodes,
}

/// What bytes are taken for, as audio.
pub uninterp spec fn audio_named(data: Seq<u8>) -> AudioKind;

/// How bytes are framed, where they are an H.264 access unit; lengths take so many bytes.
pub uninterp spec fn framing_named(data: Seq<u8>, length_size: usize) -> Option<UnitFraming>;

/// Calls `access_unit::detect_audio`.
///
/// Claimed of it: what it finds depends on the bytes alone.
#[verifier::external_body]
pub(crate) fn detect_audio(data: &[u8]) -> (r: AudioKind)
    ensures
        r == audio_named(data@),
{
    match access_unit::detect_audio(data) {
        AudioType::Unknown => AudioKind::Unknown, AudioType::AAC => AudioKind::Aac,
        AudioType::M4A => AudioKind::M4a, AudioType::FLAC => AudioKind::Flac,
        AudioType::MP3 => AudioKind::Mp3, AudioType::OggOpus => AudioKind::OggOpus,
        AudioType::OggVorbis => AudioKind::OggVorbis, AudioType::OggSpeex => AudioKind::OggSpeex,
        AudioType::Opus => AudioKind::Opus, AudioType::Wav => AudioKind::Wav,
        AudioType::WebM => AudioKind::WebM, AudioType::ALAC => AudioKind::Alac,
        AudioType::AIFF => AudioKind::Aiff, AudioType::AC3 => AudioKind::Ac3,
        AudioType::Matroska => AudioKind::Matroska, AudioType::MpegTs => AudioKind::MpegTs,
        AudioType::FragmentedMp4 => AudioKind::FragmentedMp4,
    }
}

/// Calls `access_unit::h264::detect_framing`.
///
/// Claimed of it: what it finds depends on the bytes and the size of lengths alone.
#[verifier::external_body]
fn detect_framing(data: &[u8], length_size: usize) -> (r: Option<UnitFraming>)
    ensures
        r == framing_named(data@, length_size),
{
    access_unit::h264::detect_framing(data, length_size).map(|framing| match framing {
        access_unit::h264::Framing::Avcc => UnitFraming::LengthPrefixed,
        access_unit::h264::Framing::AnnexB => UnitFraming::StartCodes,
    })
}

/// Bytes of a length in front of an H.264 unit.
pub const UNIT_LENGTH_SIZE: usize = 4;

/// The codec of an access unit, given how it is framed as H.264, if it is, and what it is taken for
/// as audio.
pub open spec fn inferred(framing: Option<UnitFraming>, audio: AudioKind) -> MediaCodec {
    if framing is Some {
        MediaCodec::H264
    } else if audio == AudioKind::Aac {
        MediaCodec::Aac
    } else if audio == AudioKind::Opus || audio == AudioKind::OggOpus {
        MediaCodec::Opus
    } else {
        MediaCodec::Data
    }
}

/// The codec of an access unit, given how it is framed as H.264, if it is, and what it is taken for
/// as audio.
pub fn codec_of(framing: Option<UnitFraming>, audio: AudioKind) -> (r: MediaCodec)
    ensures
        r == inferred(framing, audio),
{
    if framing.is_some() {
        return MediaCodec::H264;
    }
    match audio {
        AudioKind::Aac => MediaCodec::Aac,
        AudioKind::Opus | AudioKind::OggOpus => MediaCodec::Opus,
        _ => MediaCodec::Data,
    }
}

/// The codec that an access unit looks like: H.264 where its units can be told apart, else AAC or
/// Opus, else data.
pub fn infer_media_codec(payload: &[u8]) -> (r: MediaCodec)
    ensures
        r == inferred(framing_named(payload@, UNIT_LENGTH_SIZE), audio_named(payload@)),
{
    codec_of(detect_framing(payload, UNIT_LENGTH_SIZE), detect_audio(payload))
}

/// The name of a codec.
pub open spec fn codec_word(codec: MediaCodec) -> Seq<char> {
    match codec {
        MediaCodec::Unknown => "unknown"@,
        MediaCodec::H264 => "h264"@,
        MediaCodec::Opus => "opus"@,
        MediaCodec::Aac => "aac"@,
        MediaCodec::Data => "data"@,
    }
}

/// The name of a codec.
pub fn codec_name(codec: MediaCodec) -> (r: &'static str)
    ensures
        r@ == codec_word(codec),
{
    match codec {
        MediaCodec::Unknown => "unknown",
        MediaCodec::H264 => "h264",
        MediaCodec::Opus => "opus",
        MediaCodec::Aac => "aac",
        MediaCodec::Data => "data",
    }
}

/// An access unit is taken for pictures wherever it is framed as such, whatever it sounds like; for sound
/// only where it is of a kind that is sent as sound; and for data otherwise.
pub proof fn pictures_come_first(framing: Option<UnitFraming>, audio: AudioKind)
    ensures
        ({
            let codec = inferred(framing, audio);
            &&& codec == MediaCodec::H264 <==> framing is Some
            &&& codec == MediaCodec::Aac <==> framing is None && audio == AudioKind::Aac
            &&& codec == MediaCodec::Opus <==> framing is None && (audio == AudioKind::Opus || audio
                == AudioKind::OggOpus)
            &&& codec == MediaCodec::Data <==> framing is None && audio != AudioKind::Aac && audio
                != AudioKind::Opus && audio != AudioKind::OggOpus
            &&& codec != MediaCodec::Unknown
        }),
{
}

/// Every codec has a name of its own.
pub proof fn codec_names_differ(a: MediaCodec, b: MediaCodec)
    ensures
        codec_word(a) == codec_word(b) <==> a == b,
{
    reveal_strlit("unknown");
    reveal_strlit("h264");
    reveal_strlit("opus");
    reveal_strlit("aac");
    reveal_strlit("data");
    assert("unknown"@.len() == 7 && "aac"@.len() == 3);
    assert("h264"@[0] == 'h' && "opus"@[0] == 'o' && "data"@[0] == 'd');
    assert("h264"@.len() == 4 && "opus"@.len() == 4 && "data"@.len() == 4);
}

} // verus!
