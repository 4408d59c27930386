//! Forward error correction of media access units.
use crate::service::stream_fec::datagram_views;
use raptorq_datagram_fec::{
    MediaCodec as WireCodec, MediaFecDecoder, MediaFecEncoder, MediaFrame as WireFrame,
    MediaFrameFlags, MediaFrameMetadata as WireMetadata,
};
use vstd::prelude::*;

verus! {

/// What a media access unit is coded in.
#[derive(Debug, Clone, Copy, PartialEq, Eq, Structural)]
pub enum MediaCodec {
    Unknown,
    H264,
    Opus,
    Aac,
    Data,
}

/// What is known of a media access unit.
#[derive(Debug, Clone, Copy, PartialEq, Eq, Structural)]
pub struct MediaFrameMetadata {
    pub stream_id: u64,
    pub sequence: u64,
    pub pts_ms: u64,
    pub dts_ms: Option<u64>,
    pub duration_ms: u32,
    pub codec: MediaCodec,
    /// One bit for each flag.
    pub flags: u16,
}

/// A media access unit.
#[derive(Debug)]
pub struct MediaFrame {
    pub metadata: MediaFrameMetadata,
    pub payload: Vec<u8>,
}

/// What a [`MediaFrame`] holds.
pub struct MediaFrameView {
    pub metadata: MediaFrameMetadata,
    pub payload: Seq<u8>,
}

impl View for MediaFrame {
    type V = MediaFrameView;

    open spec fn view(&self) -> MediaFrameView {
        MediaFrameView { metadata: self.metadata, payload: self.payload@ }
    }
}

/// The coder of media access units.
#[verifier::external_type_specification]
#[verifier::external_body]
pub struct ExMediaFecEncoder(MediaFecEncoder);

/// The access units that a coder has been given, in order.
pub uninterp spec fn frames_coded(encoder: MediaFecEncoder) -> Seq<MediaFrameView>;

/// The datagrams that carry an access unit behind those coded before it, or nothing where it is
/// refused.
pub uninterp spec fn media_datagrams(coded: Seq<MediaFrameView>, frame: MediaFrameView) -> Option<
    Seq<Seq<u8>>,
>;

/// Calls `raptorq_datagram_fec::MediaFecEncoder::default`.
///
/// Claimed of it: the coder has been given nothing.
#[verifier::external_body]
pub(crate) fn new_media_encoder() -> (r: MediaFecEncoder)
    ensures
        frames_coded(r) == Seq::<MediaFrameView>::empty(),
{
    MediaFecEncoder::default()
}

/// Calls `raptorq_datagram_fec::MediaFecEncoder::encode_frame` and keeps the datagrams.
///
/// Claimed of it: the datagrams depend on the access unit and on those given before it alone.
#[verifier::external_body]
pub(crate) fn encode_media_frame(
    encoder: &mut MediaFecEncoder,
    m: MediaFrameMetadata,
    payload: &[u8],
) -> (r: Option<Vec<Vec<u8>>>)
    ensures
        frames_coded(*final(encoder)) == frames_coded(*old(encoder)).push(
            MediaFrameView { metadata: m, payload: payload@ },
        ),
        match r {
            Some(datagrams) => media_datagrams(
                frames_coded(*old(encoder)),
                MediaFrameView { metadata: m, payload: payload@ },
            ) == Some(datagram_views(datagrams@)),
            None => media_datagrams(
                frames_coded(*old(encoder)),
                MediaFrameView { metadata: m, payload: payload@ },
            ) is None,
        },
{
    let metadata = WireMetadata { stream_id: m.stream_id, sequence: m.sequence, pts_ms: m.pts_ms,
        dts_ms: m.dts_ms, duration_ms: m.duration_ms, flags: MediaFrameFlags::new(m.flags),
        codec: match m.codec { MediaCodec::Unknown => WireCodec::Unknown, MediaCodec::H264 => WireCodec::H264,
            MediaCodec::Opus => WireCodec::Opus, MediaCodec::Aac => WireCodec::Aac,
            MediaCodec::Data => WireCodec::Data } };
    encoder.encode_frame(WireFrame { metadata, payload }).ok().map(|encoded| encoded.datagrams)
}

/// The recoverer of media access units from the datagrams of one source.
#[verifier::external_type_specification]
#[verifier::external_body]
pub struct ExMediaFecDecoder(MediaFecDecoder);

/// The datagrams that a recoverer has been given, in order.
pub uninterp spec fn media_datagrams_taken(decoder: MediaFecDecoder) -> Seq<Seq<u8>>;

/// The access unit that a datagram completes behind those given before it, if it completes one, or
/// an error where the datagram is refused.
pub uninterp spec fn media_recovered(taken: Seq<Seq<u8>>, datagram: Seq<u8>) -> Result<
    Option<MediaFrameView>,
    (),
>;

/// Calls `raptorq_datagram_fec::MediaFecDecoder::new`.
///
/// Claimed of it: the recoverer has been given nothing.
#[verifier::external_body]
pub(crate) fn new_media_decoder() -> (r: MediaFecDecoder)
    ensures
        media_datagrams_taken(r) == Seq::<Seq<u8>>::empty(),
{
    MediaFecDecoder::new()
}

/// What a recovered access unit holds, if one was recovered.
pub open spec fn recovered_view(frame: Result<Option<MediaFrame>, ()>) -> Result<
    Option<MediaFrameView>,
    (),
> {
    match frame {
        Ok(Some(frame)) => Ok(Some(frame@)),
        Ok(None) => Ok(None),
        Err(()) => Err(()),
    }
}

/// Calls `raptorq_datagram_fec::MediaFecDecoder::push_datagram`.
///
/// Claimed of it: what it completes depends on the datagram and on those given before it alone.
#[verifier::external_body]
pub(crate) fn push_to_media_decoder(decoder: &mut MediaFecDecoder, datagram: &[u8]) -> (r: Result<
    Option<MediaFrame>,
    (),
>)
    ensures
        media_datagrams_taken(*final(decoder)) == media_datagrams_taken(*old(decoder)).push(
            datagram@,
        ),
        recovered_view(r) == media_recovered(media_datagrams_taken(*old(decoder)), datagram@),
{
    Ok(decoder.push_datagram(datagram).map_err(|_| ())?.map(|f| MediaFrame { metadata: MediaFrameMetadata {
        stream_id: f.metadata.stream_id, sequence: f.metadata.sequence, pts_ms: f.metadata.pts_ms,
        dts_ms: f.metadata.dts_ms, duration_ms: f.metadata.duration_ms, flags: f.metadata.flags.bits(),
        codec: match f.metadata.codec { WireCodec::Unknown => MediaCodec::Unknown, WireCodec::H264 => MediaCodec::H264,
            WireCodec::Opus => MediaCodec::Opus, WireCodec::Aac => MediaCodec::Aac,
            WireCodec::Data => MediaCodec::Data } }, payload: f.payload }))
}

} // verus!
