//! Elementary media samples as they enter and leave the packager.
use vstd::prelude::*;

verus! {

/// Stream type of H.264 video in a transport stream's program map.
pub const STREAM_TYPE_H264: u8 = 0x1b;

/// Stream type of AAC audio in ADTS frames.
pub const STREAM_TYPE_AAC: u8 = 0x0f;

/// Stream type of AAC audio as MPEG-4 defines it.
pub const STREAM_TYPE_MPEG4_AAC: u8 = 0x1c;

/// Stream type of private data, which carries other audio codecs.
pub const STREAM_TYPE_PRIVATE_DATA: u8 = 0x06;

/// One sample of one elementary stream, with its timestamps.
#[derive(Debug, Clone)]
pub struct AccessUnit {
    /// Whether decoding can start here.
    pub key: bool,
    /// Presentation timestamp.
    pub pts: u64,
    /// Decoding timestamp.
    pub dts: u64,
    /// The sample's bytes.
    pub data: Vec<u8>,
    /// The elementary stream's type in the program map.
    pub stream_type: u8,
    /// An identity that the source gave to the sample.
    pub id: u64,
}

/// What an [`AccessUnit`] holds, as a mathematical value.
pub struct AccessUnitView {
    pub key: bool,
    pub pts: u64,
    pub dts: u64,
    pub data: Seq<u8>,
    pub stream_type: u8,
    pub id: u64,
}

impl View for AccessUnit {
    type V = AccessUnitView;

    open spec fn view(&self) -> AccessUnitView {
        AccessUnitView {
            key: self.key,
            pts: self.pts,
            dts: self.dts,
            data: self.data@,
            stream_type: self.stream_type,
            id: self.id,
        }
    }
}

/// What a list of access units holds.
pub open spec fn units_view(units: Seq<AccessUnit>) -> Seq<AccessUnitView> {
    units.map_values(|unit: AccessUnit| unit@)
}

/// Whether a stream type is H.264 video.
pub fn is_h264(stream_type: u8) -> (r: bool)
    ensures
        r == (stream_type == STREAM_TYPE_H264),
{
    stream_type == STREAM_TYPE_H264
}

/// Whether a stream type is audio that the packager takes.
pub open spec fn supported_audio(stream_type: u8) -> bool {
    stream_type == STREAM_TYPE_AAC || stream_type == STREAM_TYPE_MPEG4_AAC || stream_type
        == STREAM_TYPE_PRIVATE_DATA
}

/// Decides whether a stream type is audio that the packager takes.
pub fn is_supported_audio(stream_type: u8) -> (r: bool)
    ensures
        r == supported_audio(stream_type),
{
    stream_type == STREAM_TYPE_AAC || stream_type == STREAM_TYPE_MPEG4_AAC || stream_type
        == STREAM_TYPE_PRIVATE_DATA
}

} // verus!
