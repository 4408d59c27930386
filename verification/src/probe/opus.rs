//! Packets of Opus in parts without boxes: whether they are whole, and what they decode to.
use crate::arith::{cap_u64, min_int, saturating_mul_u64};
use crate::bytes::copy_bytes;
use crate::probe::plan::SAMPLE_RATE;
use std::collections::BTreeMap;
use crate::text::{append_decimal, characters, decimal, text_of, trim_chars, trimmed};
use frame_header::{EncodingFlag, FrameHeaderV2};
use soundkit::audio_packet::Decoder;
use soundkit::crypto::ChaCha20Poly1305PacketCipher;
use soundkit::frame_stream::{SoundKitFrameStream, SoundKitFrameStreamOptions};
use soundkit_opus::OpusDecoder;
use vstd::prelude::*;
use vstd::slice::slice_subrange;
use vstd::string::*;

verus! {

broadcast use vstd::std_specs::btree::group_btree_axioms;

/// What a packet's header says.
#[derive(Debug, Clone, Copy, PartialEq, Eq, Structural)]
pub struct PacketHeader {
    pub header_size: usize,
    pub payload_size: u32,
    pub is_opus: bool,
    pub sample_rate: u32,
    pub channels: u8,
    pub frame_count: u32,
    pub encrypted: bool,
    pub has_checksum: bool,
}

/// The header that bytes open with, where they open with a whole one.
pub uninterp spec fn packet_header(bytes: Seq<u8>) -> Option<PacketHeader>;

/// Whether the checksum in a header holds for the header and its payload.
pub uninterp spec fn packet_checksum(header: Seq<u8>, payload: Seq<u8>) -> bool;

/// Calls `frame_header::FrameHeaderV2::header_size` and `frame_header::FrameHeaderV2::decode`.
///
/// Claimed of them: what they read depends on the bytes alone, and a header that is read is no
/// longer than they are, and not empty.
#[verifier::external_body]
fn read_packet_header(bytes: &[u8]) -> (r: Option<PacketHeader>)
    ensures
        r == packet_header(bytes@),
        r matches Some(header) ==> 0 < header.header_size <= bytes@.len(),
{
    let header_size = FrameHeaderV2::header_size(bytes).ok()?;
    let header = FrameHeaderV2::decode(&mut bytes.get(..header_size)?).ok()?;
    Some(PacketHeader {
        header_size,
        payload_size: header.payload_size(),
        is_opus: header.encoding() == &EncodingFlag::Opus,
        sample_rate: header.sample_rate(),
        channels: header.channels(),
        frame_count: header.frame_count(),
        encrypted: header.is_encrypted(),
        has_checksum: header.packet_crc32_value().is_some(),
    })
}

/// Calls `frame_header::FrameHeaderV2::verify_packet_crc32` on the header that is read from these
/// bytes.
///
/// Claimed of it: what it finds depends on the header and the payload alone.
#[verifier::external_body]
fn checksum_holds(header: &[u8], payload: &[u8]) -> (r: bool)
    ensures
        r == packet_checksum(header@, payload@),
{
    FrameHeaderV2::decode(&mut &header[..])
        .is_ok_and(|read| read.verify_packet_crc32(header, payload) == Ok(true))
}

/// The frames of the packets that bytes consist of, from a place on, added up; nothing where the
/// bytes are not packets of encrypted Opus at the expected rate, in one or two channels.
pub open spec fn packet_frames(bytes: Seq<u8>) -> Option<nat>
    decreases bytes.len(),
{
    if bytes.len() == 0 {
        Some(0)
    } else {
        match packet_header(bytes) {
            None => None,
            Some(header) => {
                let size = header.header_size + header.payload_size;
                if header.header_size == 0 || size > bytes.len() || !header.is_opus
                    || header.sample_rate != SAMPLE_RATE || header.channels < 1 || header.channels
                    > 2 || header.frame_count == 0 || header.payload_size == 0
                    || !header.encrypted {
                    None
                } else if header.has_checksum && !packet_checksum(
                    bytes.take(header.header_size as int),
                    bytes.subrange(header.header_size as int, size),
                ) {
                    None
                } else {
                    match packet_frames(bytes.skip(size)) {
                        Some(frames) => Some(frames + header.frame_count as nat),
                        None => None,
                    }
                }
            },
        }
    }
}

/// Whether a part consists of packets that last as long as it does.
pub open spec fn opus_part_fits(bytes: Seq<u8>, part_ms: u64) -> bool {
    &&& bytes.len() > 0
    &&& part_ms > 0
    &&& packet_frames(bytes) matches Some(frames)
    &&& cap_u64(cap_u64(frames as int) * 1_000) == cap_u64(SAMPLE_RATE * part_ms)
}

/// Decides whether a part consists of packets that last as long as it does.
pub fn soundkit_opus_part_is_valid(bytes: &[u8], part_ms: u64) -> (r: bool)
    ensures
        r == opus_part_fits(bytes@, part_ms),
{
    if bytes.len() == 0 || part_ms == 0 {
        return false;
    }
    let mut total_frames: u64 = 0;
    let ghost mut exact: nat = 0;
    let mut at: usize = 0;
    assert(bytes@.skip(0) =~= bytes@);
    while at < bytes.len()
        invariant
            at <= bytes@.len(),
            bytes@.len() > 0,
            part_ms > 0,
            total_frames == cap_u64(exact as int),
            match packet_frames(bytes@.skip(at as int)) {
                Some(frames) => packet_frames(bytes@) == Some(exact + frames),
                None => packet_frames(bytes@) is None,
            },
        decreases bytes@.len() - at,
    {
        let rest = slice_subrange(bytes, at, bytes.len());
        assert(rest@ =~= bytes@.skip(at as int));
        let header = match read_packet_header(rest) {
            Some(header) => header,
            None => {
                return false;
            },
        };
        let payload_size: u64 = header.payload_size as u64;
        if payload_size > (rest.len() - header.header_size) as u64 || !header.is_opus
            || header.sample_rate != SAMPLE_RATE || header.channels < 1 || header.channels > 2
            || header.frame_count == 0 || header.payload_size == 0 || !header.encrypted {
            return false;
        }
        let size: usize = header.header_size + (header.payload_size as usize);
        if header.has_checksum {
            let head = slice_subrange(rest, 0, header.header_size);
            let payload = slice_subrange(rest, header.header_size, size);
            assert(head@ =~= rest@.take(header.header_size as int));
            if !checksum_holds(head, payload) {
                return false;
            }
        }
        assert(rest@.skip(size as int) =~= bytes@.skip(at + size));
        total_frames = total_frames.saturating_add(header.frame_count as u64);
        proof {
            exact = exact + header.frame_count as nat;
        }
        at = at + size;
    }
    assert(bytes@.skip(at as int) =~= Seq::<u8>::empty());
    saturating_mul_u64(total_frames, 1_000) == saturating_mul_u64(SAMPLE_RATE as u64, part_ms)
}

/// A packet that was taken apart.
#[derive(Debug)]
pub struct SoundkitFrame {
    pub is_opus: bool,
    /// The name of what it is coded in.
    pub encoding: String,
    pub encrypted: bool,
    pub sample_rate: u32,
    pub channels: u8,
    pub frame_count: u32,
    pub payload: Vec<u8>,
}

/// What a [`SoundkitFrame`] holds.
pub struct FrameView {
    pub is_opus: bool,
    pub encoding: Seq<char>,
    pub encrypted: bool,
    pub sample_rate: u32,
    pub channels: u8,
    pub frame_count: u32,
    pub payload: Seq<u8>,
}

impl View for SoundkitFrame {
    type V = FrameView;

    open spec fn view(&self) -> FrameView {
        FrameView {
            is_opus: self.is_opus,
            encoding: self.encoding@,
            encrypted: self.encrypted,
            sample_rate: self.sample_rate,
            channels: self.channels,
            frame_count: self.frame_count,
            payload: self.payload@,
        }
    }
}

/// What a list of packets holds.
pub open spec fn frames_view(frames: Seq<SoundkitFrame>) -> Seq<FrameView> {
    frames.map_values(|frame: SoundkitFrame| frame@)
}

/// What takes packets apart.
#[verifier::external_type_specification]
#[verifier::external_body]
pub struct ExSoundKitFrameStream(SoundKitFrameStream);

/// What decodes packets.
#[verifier::external_type_specification]
#[verifier::external_body]
pub struct ExOpusDecoder(OpusDecoder);

/// What takes packets apart that are encrypted under a key, where the key is one.
pub uninterp spec fn stream_for(key: Seq<char>) -> Option<SoundKitFrameStream>;

/// Calls `soundkit::crypto::ChaCha20Poly1305PacketCipher::new_from_decimal_key` and
/// `soundkit::frame_stream::SoundKitFrameStream::new`.
///
/// Claimed of them: what they give depends on the key alone.
#[verifier::external_body]
fn open_stream(key: &str) -> (r: Option<SoundKitFrameStream>)
    ensures
        r == stream_for(key@),
{
    let cipher = ChaCha20Poly1305PacketCipher::new_from_decimal_key(key).ok()?;
    Some(SoundKitFrameStream::new(SoundKitFrameStreamOptions {
        cipher: Some(cipher),
        ..SoundKitFrameStreamOptions::default()
    }))
}

/// What is left of a stream once bytes are given to it, and the packets that they complete, or
/// nothing where they are refused.
pub uninterp spec fn stream_pushed(stream: SoundKitFrameStream, bytes: Seq<u8>) -> (
    SoundKitFrameStream,
    Option<Seq<FrameView>>,
);

/// What packets that may be missing hold.
pub open spec fn frames_given(frames: Option<Vec<SoundkitFrame>>) -> Option<Seq<FrameView>> {
    match frames {
        Some(frames) => Some(frames_view(frames@)),
        None => None,
    }
}

/// Calls `soundkit::frame_stream::SoundKitFrameStream::push`.
///
/// Claimed of it: what it gives, and what becomes of the stream, depends on the stream and the
/// bytes alone.
#[verifier::external_body]
fn push_stream(stream: &mut SoundKitFrameStream, bytes: &[u8]) -> (r: Option<Vec<SoundkitFrame>>)
    ensures
        stream_pushed(*old(stream), bytes@) == (*final(stream), frames_given(r)),
{
    let frames = stream.push(bytes).ok()?;
    Some(frames.into_iter().map(|frame| SoundkitFrame {
        is_opus: frame.header.encoding() == &EncodingFlag::Opus,
        encoding: format!("{:?}", frame.header.encoding()),
        encrypted: frame.encrypted,
        sample_rate: frame.header.sample_rate(),
        channels: frame.header.channels(),
        frame_count: frame.header.frame_count(),
        payload: frame.payload,
    }).collect())
}

/// Whether a stream holds no part of a packet.
pub uninterp spec fn stream_ended(stream: SoundKitFrameStream) -> bool;

/// Calls `soundkit::frame_stream::SoundKitFrameStream::finish`.
///
/// Claimed of it: what it finds depends on the stream alone.
#[verifier::external_body]
fn end_stream(stream: &SoundKitFrameStream) -> (r: bool)
    ensures
        r == stream_ended(*stream),
{
    stream.finish().is_ok()
}

/// What decodes packets at a rate in so many channels, where there is one.
pub uninterp spec fn decoder_for(sample_rate: u32, channels: u8) -> Option<OpusDecoder>;

/// Calls `soundkit_opus::OpusDecoder::new`.
///
/// Claimed of it: what it gives depends on the two numbers alone.
#[verifier::external_body]
fn new_decoder(sample_rate: u32, channels: u8) -> (r: Option<OpusDecoder>)
    ensures
        r == decoder_for(sample_rate, channels),
{
    OpusDecoder::new(sample_rate as usize, channels as usize).ok()
}

/// Fewest bytes of a packet that is decoded: its head, and a frame that is no gap.
pub const MIN_OPUS_PACKET_BYTES: usize = 3;

/// Most bytes of a packet that is decoded: its head, and the longest frame.
pub const MAX_OPUS_PACKET_BYTES: usize = 1_276;

/// The most frames of samples that a packet holds.
pub const MAX_PACKET_FRAMES: u32 = 5_760;

/// The most samples that there is room for: the most frames, in as many channels as can be declared.
pub const MAX_PACKET_SAMPLES: usize = 1_468_800;

/// Whether a packet is one that SoundKit sends: one CELT frame behind its head, neither a gap nor
/// longer than a frame can be.
pub open spec fn packet_sound(payload: Seq<u8>) -> bool {
    &&& MIN_OPUS_PACKET_BYTES <= payload.len() <= MAX_OPUS_PACKET_BYTES
    &&& payload[0] >= 0x80
    &&& payload[0] % 4 == 0
}

/// Decides whether a packet is one that SoundKit sends.
pub fn packet_is_sound(payload: &[u8]) -> (r: bool)
    ensures
        r == packet_sound(payload@),
{
    MIN_OPUS_PACKET_BYTES <= payload.len() && payload.len() <= MAX_OPUS_PACKET_BYTES && payload[0]
        >= 0x80 && payload[0] % 4 == 0
}

/// The samples that there is room for when a packet is decoded: as many as it declares, or as a
/// packet can hold.
pub open spec fn room_for(frame_count: u32, channels: u8) -> int {
    min_int(frame_count as int, MAX_PACKET_FRAMES as int) * channels
}

/// What is left of a decoder once it decoded a packet into room for so many samples, and how many
/// frames it decoded and the room afterwards, or nothing where it is refused.
pub uninterp spec fn packet_decoded(decoder: OpusDecoder, payload: Seq<u8>, samples: usize) -> (
    OpusDecoder,
    Option<(usize, Seq<i16>)>,
);

/// What decoded samples that may be missing hold.
pub open spec fn samples_given(r: Option<(usize, Vec<i16>)>) -> Option<(usize, Seq<i16>)> {
    match r {
        Some((frames, samples)) => Some((frames, samples@)),
        None => None,
    }
}

/// Calls `soundkit_opus::OpusDecoder::decode_i16`, which hands packets on to the decoder of `ropus`.
///
/// Claimed of it: what it gives, and what becomes of the decoder, depends on the decoder, the
/// packet and the room alone.
///
/// It is handed nothing but packets of one CELT frame of two bytes or more. So it stays in one
/// mode: it conceals no gap, and neither the speech coder nor a change of modes is reached. What it
/// does with such a frame ends for all bits of it:
/// - the range decoder reads zeros behind the end of the frame, and keeps what it decodes within the
///   range that it was asked for;
/// - energies are clamped as they are read, so that their sums and differences fit;
/// - no more bits are shared out than the frame has, and no more pulses are asked for in a band than
///   the table of pulse counts goes;
/// - there is room for the widest band, of 176 coefficients;
/// - the transforms add with wrap-around, and the signal is saturated before it is filtered.
#[verifier::external_body]
fn decode_packet(decoder: &mut OpusDecoder, payload: &[u8], samples: usize) -> (r: Option<
    (usize, Vec<i16>),
>)
    requires
        packet_sound(payload@),
        samples <= MAX_PACKET_SAMPLES,
    ensures
        packet_decoded(*old(decoder), payload@, samples) == (*final(decoder), samples_given(r)),
        r matches Some((_, room)) ==> room@.len() == samples,
{
    let mut room = vec![0_i16; samples];
    let frames = decoder.decode_i16(payload, &mut room, false).ok()?;
    Some((frames, room))
}

/// Why a part is not decoded.
#[derive(Debug)]
pub enum ConsumerError {
    /// The key is none.
    Key,
    /// The bytes are no packets.
    Rejected,
    /// The part holds no whole packet.
    NoPacket,
    /// A packet is not coded in Opus.
    NotOpus(String),
    /// A packet is not encrypted.
    NotEncrypted,
    /// A packet has no rate, no channels or no frames.
    Dimensions,
    /// A packet differs from those before it.
    FormatChanged { from_rate: u32, from_channels: u8, to_rate: u32, to_channels: u8 },
    /// A packet is too large for the machine.
    TooLarge,
    /// A packet cannot be decoded.
    Decode,
    /// A packet decodes to another number of frames than it says.
    FrameCount { decoded: usize, declared: u32 },
    /// The last packet is cut off.
    Partial,
}

/// What a [`ConsumerError`] is about.
pub enum ConsumerErrorView {
    Key,
    Rejected,
    NoPacket,
    NotOpus(Seq<char>),
    NotEncrypted,
    Dimensions,
    FormatChanged { from_rate: u32, from_channels: u8, to_rate: u32, to_channels: u8 },
    TooLarge,
    Decode,
    FrameCount { decoded: usize, declared: u32 },
    Partial,
}

impl View for ConsumerError {
    type V = ConsumerErrorView;

    open spec fn view(&self) -> ConsumerErrorView {
        match *self {
            ConsumerError::Key => ConsumerErrorView::Key,
            ConsumerError::Rejected => ConsumerErrorView::Rejected,
            ConsumerError::NoPacket => ConsumerErrorView::NoPacket,
            ConsumerError::NotOpus(name) => ConsumerErrorView::NotOpus(name@),
            ConsumerError::NotEncrypted => ConsumerErrorView::NotEncrypted,
            ConsumerError::Dimensions => ConsumerErrorView::Dimensions,
            ConsumerError::FormatChanged { from_rate, from_channels, to_rate, to_channels } =>
            ConsumerErrorView::FormatChanged { from_rate, from_channels, to_rate, to_channels },
            ConsumerError::TooLarge => ConsumerErrorView::TooLarge,
            ConsumerError::Decode => ConsumerErrorView::Decode,
            ConsumerError::FrameCount { decoded, declared } => ConsumerErrorView::FrameCount {
                decoded,
                declared,
            },
            ConsumerError::Partial => ConsumerErrorView::Partial,
        }
    }
}

impl ConsumerErrorView {
    /// What the error says.
    pub open spec fn words(self) -> Seq<char> {
        match self {
            ConsumerErrorView::Key =>
                "SoundKit key file did not contain a valid decimal key"@,
            ConsumerErrorView::Rejected => "consumer rejected SoundKit v2 bytes"@,
            ConsumerErrorView::NoPacket =>
                "opaque LL-HLS part contained no complete SoundKit v2 packet"@,
            ConsumerErrorView::NotOpus(name) =>
                "consumer expected SoundKit v2 Opus but received "@ + name,
            ConsumerErrorView::NotEncrypted =>
                "private SoundKit v2 Opus packet was not encrypted"@,
            ConsumerErrorView::Dimensions =>
                "SoundKit v2 Opus packet declared invalid audio dimensions"@,
            ConsumerErrorView::FormatChanged { from_rate, from_channels, to_rate, to_channels } =>
                "SoundKit v2 Opus format changed from "@ + decimal(from_rate as nat) + " Hz/"@
                + decimal(from_channels as nat) + " ch to "@ + decimal(to_rate as nat) + " Hz/"@
                + decimal(to_channels as nat) + " ch"@,
            ConsumerErrorView::TooLarge =>
                "SoundKit v2 Opus frame size exceeds this platform"@,
            ConsumerErrorView::Decode => "pure-Rust consumer failed to decode Opus"@,
            ConsumerErrorView::FrameCount { decoded, declared } => "consumer decoded "@ + decimal(
                decoded as nat,
            ) + " frames but SoundKit declared "@ + decimal(declared as nat),
            ConsumerErrorView::Partial =>
                "consumer ended with a partial SoundKit v2 packet"@,
        }
    }
}

impl ConsumerError {
    /// What the error says.
    pub fn message(&self) -> (r: String)
        ensures
            r@ == self@.words(),
    {
        match self {
            ConsumerError::Key =>
                "SoundKit key file did not contain a valid decimal key".to_owned(),
            ConsumerError::Rejected => "consumer rejected SoundKit v2 bytes".to_owned(),
            ConsumerError::NoPacket =>
                "opaque LL-HLS part contained no complete SoundKit v2 packet".to_owned(),
            ConsumerError::NotOpus(name) => {
                let mut text = "consumer expected SoundKit v2 Opus but received ".to_owned();
                text.append(name.as_str());
                text
            },
            ConsumerError::NotEncrypted =>
                "private SoundKit v2 Opus packet was not encrypted".to_owned(),
            ConsumerError::Dimensions =>
                "SoundKit v2 Opus packet declared invalid audio dimensions".to_owned(),
            ConsumerError::FormatChanged { from_rate, from_channels, to_rate, to_channels } => {
                let mut text = "SoundKit v2 Opus format changed from ".to_owned();
                append_decimal(&mut text, *from_rate as u64);
                text.append(" Hz/");
                append_decimal(&mut text, *from_channels as u64);
                text.append(" ch to ");
                append_decimal(&mut text, *to_rate as u64);
                text.append(" Hz/");
                append_decimal(&mut text, *to_channels as u64);
                text.append(" ch");
                text
            },
            ConsumerError::TooLarge =>
                "SoundKit v2 Opus frame size exceeds this platform".to_owned(),
            ConsumerError::Decode => "pure-Rust consumer failed to decode Opus".to_owned(),
            ConsumerError::FrameCount { decoded, declared } => {
                let mut text = "consumer decoded ".to_owned();
                append_decimal(&mut text, *decoded as u64);
                text.append(" frames but SoundKit declared ");
                append_decimal(&mut text, *declared as u64);
                text
            },
            ConsumerError::Partial =>
                "consumer ended with a partial SoundKit v2 packet".to_owned(),
        }
    }
}

/// What a consumer counts.
#[derive(Debug, Clone, Copy, PartialEq, Eq, Structural)]
pub struct ConsumerCounts {
    pub soundkit_v2_packets: u64,
    pub encrypted_packets: u64,
    pub decoded_opus_packets: u64,
    /// Zero before the first packet.
    pub sample_rate: u32,
    pub channels: u8,
    pub decoded_pcm_frames: u64,
    pub sample_count: u64,
    pub peak: u16,
}

/// What decodes the packets of parts, in the order of the parts.
pub struct SoundKitOpusConsumer {
    pub parser: SoundKitFrameStream,
    pub decoder: Option<OpusDecoder>,
    pub next_sequence: u64,
    pub pending_parts: BTreeMap<u64, Vec<u8>>,
    pub counts: ConsumerCounts,
}

/// What a [`SoundKitOpusConsumer`] holds.
pub struct ConsumerView {
    pub parser: SoundKitFrameStream,
    pub decoder: Option<OpusDecoder>,
    pub next_sequence: u64,
    pub pending_parts: Map<u64, Seq<u8>>,
    pub counts: ConsumerCounts,
}

impl View for SoundKitOpusConsumer {
    type V = ConsumerView;

    open spec fn view(&self) -> ConsumerView {
        ConsumerView {
            parser: self.parser,
            decoder: self.decoder,
            next_sequence: self.next_sequence,
            pending_parts: self.pending_parts@.map_values(|bytes: Vec<u8>| bytes@),
            counts: self.counts,
        }
    }
}

/// How far a sample is from zero.
pub open spec fn loudness(sample: i16) -> u16 {
    if sample < 0 {
        (-(sample as int)) as u16
    } else {
        sample as u16
    }
}

/// The loudest of a peak and samples.
pub open spec fn loudest(peak: u16, samples: Seq<i16>) -> u16
    decreases samples.len(),
{
    if samples.len() == 0 {
        peak
    } else {
        let before = loudest(peak, samples.drop_last());
        if loudness(samples.last()) > before {
            loudness(samples.last())
        } else {
            before
        }
    }
}

/// A count and more, or the most that it holds.
pub open spec fn plus(count: u64, more: int) -> u64 {
    cap_u64(count + more) as u64
}

impl ConsumerView {
    /// The consumer once a packet is counted.
    pub open spec fn with_packet(self) -> ConsumerView {
        ConsumerView {
            counts: ConsumerCounts {
                soundkit_v2_packets: plus(self.counts.soundkit_v2_packets, 1),
                ..self.counts
            },
            ..self
        }
    }

    /// The consumer once an encrypted packet is counted.
    pub open spec fn with_encrypted(self) -> ConsumerView {
        ConsumerView {
            counts: ConsumerCounts {
                encrypted_packets: plus(self.counts.encrypted_packets, 1),
                ..self.counts
            },
            ..self
        }
    }

    /// The consumer once the first packet says how it is to be decoded.
    pub open spec fn with_format(self, frame: FrameView) -> ConsumerView {
        if self.counts.sample_rate == 0 {
            ConsumerView {
                decoder: decoder_for(frame.sample_rate, frame.channels),
                counts: ConsumerCounts {
                    sample_rate: frame.sample_rate,
                    channels: frame.channels,
                    ..self.counts
                },
                ..self
            }
        } else {
            self
        }
    }

    /// The consumer once samples are decoded.
    pub open spec fn with_samples(self, decoder: OpusDecoder, frames: usize, samples: Seq<i16>) -> ConsumerView {
        ConsumerView {
            decoder: Some(decoder),
            counts: ConsumerCounts {
                sample_count: plus(self.counts.sample_count, samples.len() as int),
                peak: loudest(self.counts.peak, samples),
                decoded_pcm_frames: plus(self.counts.decoded_pcm_frames, frames as int),
                decoded_opus_packets: plus(self.counts.decoded_opus_packets, 1),
                ..self.counts
            },
            ..self
        }
    }

    /// The consumer once a packet is decoded, and its samples, or why it is not.
    pub open spec fn decode_frame(self, frame: FrameView) -> (
        ConsumerView,
        Result<Seq<i16>, ConsumerErrorView>,
    ) {
        let counted = self.with_packet();
        let opened = counted.with_encrypted();
        let samples = frame.frame_count * frame.channels;
        let room = room_for(frame.frame_count, frame.channels);
        if !frame.is_opus {
            (counted, Err(ConsumerErrorView::NotOpus(frame.encoding)))
        } else if !frame.encrypted {
            (counted, Err(ConsumerErrorView::NotEncrypted))
        } else if frame.sample_rate == 0 || frame.channels == 0 || frame.frame_count == 0 {
            (opened, Err(ConsumerErrorView::Dimensions))
        } else if self.counts.sample_rate != 0 && (self.counts.sample_rate != frame.sample_rate
            || self.counts.channels != frame.channels) {
            (
                opened,
                Err(
                    ConsumerErrorView::FormatChanged {
                        from_rate: self.counts.sample_rate,
                        from_channels: self.counts.channels,
                        to_rate: frame.sample_rate,
                        to_channels: frame.channels,
                    },
                ),
            )
        } else {
            let known = opened.with_format(frame);
            match known.decoder {
                None => (known, Err(ConsumerErrorView::Decode)),
                Some(decoder) => if samples > usize::MAX {
                    (known, Err(ConsumerErrorView::TooLarge))
                } else if !packet_sound(frame.payload) {
                    (known, Err(ConsumerErrorView::Decode))
                } else {
                    let (after, decoded) = packet_decoded(decoder, frame.payload, room as usize);
                    let used = ConsumerView { decoder: Some(after), ..known };
                    match decoded {
                        None => (used, Err(ConsumerErrorView::Decode)),
                        Some((frames, given)) => if frames != frame.frame_count {
                            (
                                used,
                                Err(
                                    ConsumerErrorView::FrameCount {
                                        decoded: frames,
                                        declared: frame.frame_count,
                                    },
                                ),
                            )
                        } else {
                            (known.with_samples(after, frames, given), Ok(given))
                        },
                    }
                },
            }
        }
    }

    /// The consumer once packets are decoded, and their samples, or why one is not.
    pub open spec fn decode_frames(self, frames: Seq<FrameView>) -> (
        ConsumerView,
        Result<Seq<i16>, ConsumerErrorView>,
    )
        decreases frames.len(),
    {
        if frames.len() == 0 {
            (self, Ok(Seq::empty()))
        } else {
            let (before, decoded) = self.decode_frames(frames.drop_last());
            match decoded {
                Err(error) => (before, Err(error)),
                Ok(samples) => {
                    let (after, more) = before.decode_frame(frames.last());
                    match more {
                        Ok(more) => (after, Ok(samples + more)),
                        Err(error) => (after, Err(error)),
                    }
                },
            }
        }
    }

    /// The consumer once a part is decoded, and its samples, or why it is not.
    pub open spec fn decode_part(self, bytes: Seq<u8>) -> (
        ConsumerView,
        Result<Seq<i16>, ConsumerErrorView>,
    ) {
        let (parser, frames) = stream_pushed(self.parser, bytes);
        let pushed = ConsumerView { parser, ..self };
        match frames {
            None => (pushed, Err(ConsumerErrorView::Rejected)),
            Some(frames) => if frames.len() == 0 {
                (pushed, Err(ConsumerErrorView::NoPacket))
            } else {
                pushed.decode_frames(frames)
            },
        }
    }

    /// The consumer once every part is decoded that is next, and the samples, or why one is not.
    pub open spec fn drained(self) -> (ConsumerView, Result<Seq<i16>, ConsumerErrorView>)
        decreases u64::MAX - self.next_sequence,
    {
        let next = self.next_sequence;
        if !self.pending_parts.dom().contains(next) {
            (self, Ok(Seq::empty()))
        } else {
            let taken = ConsumerView { pending_parts: self.pending_parts.remove(next), ..self };
            let (decoded, samples) = taken.decode_part(self.pending_parts[next]);
            match samples {
                Err(error) => (decoded, Err(error)),
                Ok(samples) => if next == u64::MAX {
                    (decoded, Ok(samples))
                } else {
                    let (after, more) = ConsumerView {
                        next_sequence: (next + 1) as u64,
                        ..decoded
                    }.drained();
                    match more {
                        Ok(more) => (after, Ok(samples + more)),
                        Err(error) => (after, Err(error)),
                    }
                },
            }
        }
    }

    /// The consumer once it is given a part: one that was decoded, or is waiting already, is passed
    /// over.
    pub open spec fn pushed(self, sequence: u64, bytes: Seq<u8>) -> (
        ConsumerView,
        Result<Seq<i16>, ConsumerErrorView>,
    ) {
        if sequence < self.next_sequence {
            (self, Ok(Seq::empty()))
        } else if self.pending_parts.dom().contains(sequence) {
            self.drained()
        } else {
            ConsumerView {
                pending_parts: self.pending_parts.insert(sequence, bytes),
                ..self
            }.drained()
        }
    }
}

/// Whether a result is samples or an error.
pub open spec fn same_samples(
    r: Result<Vec<i16>, ConsumerError>,
    wanted: Result<Seq<i16>, ConsumerErrorView>,
) -> bool {
    match wanted {
        Ok(samples) => r matches Ok(given) && given@ == samples,
        Err(error) => r matches Err(e) && e@ == error,
    }
}

impl SoundKitOpusConsumer {
    /// A consumer of parts from one on, encrypted under the key that a text spells.
    pub fn new(key_text: &str, first_sequence: u64) -> (r: Result<Self, ConsumerError>)
        ensures
            match stream_for(trimmed(key_text@)) {
                None => r matches Err(error) && error@ == ConsumerErrorView::Key,
                Some(parser) => {
                    &&& r matches Ok(consumer)
                    &&& consumer@ == (ConsumerView {
                        parser,
                        decoder: None,
                        next_sequence: first_sequence,
                        pending_parts: Map::empty(),
                        counts: ConsumerCounts {
                            soundkit_v2_packets: 0,
                            encrypted_packets: 0,
                            decoded_opus_packets: 0,
                            sample_rate: 0,
                            channels: 0,
                            decoded_pcm_frames: 0,
                            sample_count: 0,
                            peak: 0,
                        },
                    })
                },
            },
    {
        let chars = characters(key_text);
        let key = text_of(trim_chars(chars.as_slice()));
        match open_stream(key.as_str()) {
            None => Err(ConsumerError::Key),
            Some(parser) => {
                let consumer = SoundKitOpusConsumer {
                    parser,
                    decoder: None,
                    next_sequence: first_sequence,
                    pending_parts: BTreeMap::new(),
                    counts: ConsumerCounts {
                        soundkit_v2_packets: 0,
                        encrypted_packets: 0,
                        decoded_opus_packets: 0,
                        sample_rate: 0,
                        channels: 0,
                        decoded_pcm_frames: 0,
                        sample_count: 0,
                        peak: 0,
                    },
                };
                assert(consumer@.pending_parts =~= Map::<u64, Seq<u8>>::empty());
                Ok(consumer)
            },
        }
    }

    /// Counts decoded samples.
    fn count_samples(&mut self, samples: &Vec<i16>)
        ensures
            final(self)@ == (ConsumerView {
                counts: ConsumerCounts {
                    sample_count: plus(old(self)@.counts.sample_count, samples@.len() as int),
                    peak: loudest(old(self)@.counts.peak, samples@),
                    ..old(self)@.counts
                },
                ..old(self)@
            }),
            final(self).pending_parts == old(self).pending_parts,
    {
        let mut peak: u16 = self.counts.peak;
        let mut i: usize = 0;
        while i < samples.len()
            invariant
                i <= samples@.len(),
                peak == loudest(self.counts.peak, samples@.take(i as int)),
            decreases samples@.len() - i,
        {
            let ghost head = samples@.take(i + 1);
            assert(head.drop_last() =~= samples@.take(i as int));
            let sample: i32 = samples[i] as i32;
            let distance: u16 = if sample < 0 {
                (0 - sample) as u16
            } else {
                sample as u16
            };
            if distance > peak {
                peak = distance;
            }
            i = i + 1;
        }
        assert(samples@.take(i as int) =~= samples@);
        self.counts.peak = peak;
        self.counts.sample_count = self.counts.sample_count.saturating_add(samples.len() as u64);
    }

    /// Decodes a packet.
    fn decode_frame(&mut self, frame: &SoundkitFrame) -> (r: Result<Vec<i16>, ConsumerError>)
        ensures
            ({
                let (after, decoded) = old(self)@.decode_frame(frame@);
                final(self)@ == after && same_samples(r, decoded)
            }),
            final(self).pending_parts == old(self).pending_parts,
    {
        self.counts.soundkit_v2_packets = self.counts.soundkit_v2_packets.saturating_add(1);
        if !frame.is_opus {
            return Err(ConsumerError::NotOpus(frame.encoding.clone()));
        }
        if !frame.encrypted {
            return Err(ConsumerError::NotEncrypted);
        }
        self.counts.encrypted_packets = self.counts.encrypted_packets.saturating_add(1);
        if frame.sample_rate == 0 || frame.channels == 0 || frame.frame_count == 0 {
            return Err(ConsumerError::Dimensions);
        }
        if self.counts.sample_rate == 0 {
            self.counts.sample_rate = frame.sample_rate;
            self.counts.channels = frame.channels;
            self.decoder = new_decoder(frame.sample_rate, frame.channels);
        } else if self.counts.sample_rate != frame.sample_rate || self.counts.channels
            != frame.channels {
            return Err(
                ConsumerError::FormatChanged {
                    from_rate: self.counts.sample_rate,
                    from_channels: self.counts.channels,
                    to_rate: frame.sample_rate,
                    to_channels: frame.channels,
                },
            );
        }
        let mut taken: Option<OpusDecoder> = None;
        core::mem::swap(&mut self.decoder, &mut taken);
        let mut decoder = match taken {
            Some(decoder) => decoder,
            None => {
                return Err(ConsumerError::Decode);
            },
        };
        assert(frame.frame_count * frame.channels <= 0xffff_ffff * 0xff) by (nonlinear_arith)
            requires
                frame.frame_count <= 0xffff_ffff,
                frame.channels <= 0xff,
        ;
        let wanted: u64 = (frame.frame_count as u64) * (frame.channels as u64);
        if wanted > usize::MAX as u64 {
            self.decoder = Some(decoder);
            return Err(ConsumerError::TooLarge);
        }
        if !packet_is_sound(frame.payload.as_slice()) {
            self.decoder = Some(decoder);
            return Err(ConsumerError::Decode);
        }
        let held: u64 = if frame.frame_count < MAX_PACKET_FRAMES {
            frame.frame_count as u64
        } else {
            MAX_PACKET_FRAMES as u64
        };
        assert(held * frame.channels <= 5_760 * 0xff) by (nonlinear_arith)
            requires
                held <= 5_760,
                frame.channels <= 0xff,
        ;
        let room: usize = (held * frame.channels as u64) as usize;
        let decoded = decode_packet(&mut decoder, frame.payload.as_slice(), room);
        self.decoder = Some(decoder);
        let (frames, samples) = match decoded {
            Some((frames, samples)) => (frames, samples),
            None => {
                return Err(ConsumerError::Decode);
            },
        };
        if frames as u64 != frame.frame_count as u64 {
            return Err(
                ConsumerError::FrameCount { decoded: frames, declared: frame.frame_count },
            );
        }
        self.count_samples(&samples);
        self.counts.decoded_pcm_frames = self.counts.decoded_pcm_frames.saturating_add(frames as u64);
        self.counts.decoded_opus_packets = self.counts.decoded_opus_packets.saturating_add(1);
        Ok(samples)
    }

    /// Decodes a part.
    fn decode_part(&mut self, bytes: &[u8]) -> (r: Result<Vec<i16>, ConsumerError>)
        ensures
            ({
                let (after, decoded) = old(self)@.decode_part(bytes@);
                final(self)@ == after && same_samples(r, decoded)
            }),
            final(self).pending_parts == old(self).pending_parts,
    {
        let frames = match push_stream(&mut self.parser, bytes) {
            Some(frames) => frames,
            None => {
                return Err(ConsumerError::Rejected);
            },
        };
        if frames.len() == 0 {
            assert(frames_view(frames@).len() == 0);
            return Err(ConsumerError::NoPacket);
        }
        let ghost pushed = self@;
        let ghost all = frames_view(frames@);
        let mut samples: Vec<i16> = Vec::new();
        let mut i: usize = 0;
        assert(samples@ =~= Seq::<i16>::empty());
        while i < frames.len()
            invariant
                i <= frames@.len(),
                all == frames_view(frames@),
                all.len() > 0,
                pushed.decode_frames(all.take(i as int)) == (
                    self@,
                    Ok::<Seq<i16>, ConsumerErrorView>(samples@),
                ),
                old(self)@.decode_part(bytes@) == pushed.decode_frames(all),
                self.pending_parts == old(self).pending_parts,
            decreases frames@.len() - i,
        {
            let ghost head = all.take(i + 1);
            assert(head.drop_last() =~= all.take(i as int));
            assert(head.last() == frames@[i as int]@);
            let ghost older = samples@;
            match self.decode_frame(&frames[i]) {
                Ok(more) => {
                    samples.extend_from_slice(more.as_slice());
                    assert(samples@ =~= older + more@);
                },
                Err(error) => {
                    proof {
                        failure_stays(pushed, all, i + 1);
                    }
                    return Err(error);
                },
            }
            i = i + 1;
        }
        assert(all.take(i as int) =~= all);
        Ok(samples)
    }

    /// Takes a part, and decodes it and those that wait behind it, in order.
    pub fn push_part(&mut self, sequence: u64, bytes: &[u8]) -> (r: Result<Vec<i16>, ConsumerError>)
        ensures
            ({
                let (after, decoded) = old(self)@.pushed(sequence, bytes@);
                final(self)@ == after && same_samples(r, decoded)
            }),
    {
        let mut samples: Vec<i16> = Vec::new();
        assert(samples@ =~= Seq::<i16>::empty());
        if sequence < self.next_sequence {
            return Ok(samples);
        }
        if !self.pending_parts.contains_key(&sequence) {
            let _ = self.pending_parts.insert(sequence, copy_bytes(bytes));
            assert(self@.pending_parts =~= old(self)@.pending_parts.insert(sequence, bytes@));
        }
        let ghost start = self@;
        proof {
            match start.drained().1 {
                Ok(more) => {
                    assert(Seq::<i16>::empty() + more =~= more);
                },
                Err(_) => {},
            }
        }
        loop
            invariant
                old(self)@.pushed(sequence, bytes@) == start.drained(),
                start.drained().0 == self@.drained().0,
                match self@.drained().1 {
                    Ok(more) => start.drained().1 == Ok::<Seq<i16>, ConsumerErrorView>(
                        samples@ + more,
                    ),
                    Err(error) => start.drained().1 == Err::<Seq<i16>, ConsumerErrorView>(error),
                },
            decreases u64::MAX - self.next_sequence,
        {
            let ghost before = self@;
            let next: u64 = self.next_sequence;
            let part = match self.pending_parts.remove(&next) {
                Some(part) => part,
                None => {
                    assert(self@.pending_parts =~= before.pending_parts);
                    assert(samples@ + Seq::<i16>::empty() =~= samples@);
                    return Ok(samples);
                },
            };
            assert(self@.pending_parts =~= before.pending_parts.remove(next));
            let ghost older = samples@;
            match self.decode_part(part.as_slice()) {
                Err(error) => {
                    return Err(error);
                },
                Ok(more) => {
                    samples.extend_from_slice(more.as_slice());
                    assert(samples@ =~= older + more@);
                    if next == u64::MAX {
                        return Ok(samples);
                    }
                    self.next_sequence = next + 1;
                    proof {
                        match self@.drained().1 {
                            Ok(rest) => {
                                assert(older + (more@ + rest) =~= samples@ + rest);
                            },
                            Err(_) => {},
                        }
                    }
                },
            }
        }
    }

    /// Decides whether every packet that came was encrypted and decoded, and no part waits; fails
    /// where the last packet is cut off.
    pub fn finish(&self) -> (r: Result<bool, ConsumerError>)
        ensures
            if !stream_ended(self@.parser) {
                r matches Err(error) && error@ == ConsumerErrorView::Partial
            } else {
                r matches Ok(complete) && complete == (self@.counts.soundkit_v2_packets > 0
                    && self@.counts.soundkit_v2_packets == self@.counts.encrypted_packets
                    && self@.counts.soundkit_v2_packets == self@.counts.decoded_opus_packets
                    && self@.counts.decoded_pcm_frames > 0 && self@.pending_parts == Map::<
                    u64,
                    Seq<u8>,
                >::empty())
            },
    {
        if !end_stream(&self.parser) {
            return Err(ConsumerError::Partial);
        }
        let counts = self.counts;
        let none_waits = self.pending_parts.is_empty();
        proof {
            if none_waits {
                assert(self@.pending_parts =~= Map::<u64, Seq<u8>>::empty());
            } else if self@.pending_parts == Map::<u64, Seq<u8>>::empty() {
                assert(self.pending_parts@ =~= Map::<u64, Vec<u8>>::empty()) by {
                    assert forall|key: u64| !self.pending_parts@.dom().contains(key) by {
                        if self.pending_parts@.dom().contains(key) {
                            assert(self@.pending_parts.dom().contains(key));
                        }
                    }
                }
            }
        }
        Ok(
            counts.soundkit_v2_packets > 0 && counts.soundkit_v2_packets == counts.encrypted_packets
                && counts.soundkit_v2_packets == counts.decoded_opus_packets
                && counts.decoded_pcm_frames > 0 && none_waits,
        )
    }
}

/// Where a packet fails, those behind it are not decoded.
proof fn failure_stays(consumer: ConsumerView, frames: Seq<FrameView>, head: int)
    requires
        0 <= head <= frames.len(),
        consumer.decode_frames(frames.take(head)).1 is Err,
    ensures
        consumer.decode_frames(frames) == consumer.decode_frames(frames.take(head)),
    decreases frames.len() - head,
{
    if head == frames.len() {
        assert(frames.take(head) =~= frames);
    } else {
        assert(frames.take(head + 1).drop_last() =~= frames.take(head));
        failure_stays(consumer, frames, head + 1);
    }
}

/// A part that comes early waits: nothing is decoded before the part in front of it.
pub proof fn early_parts_wait(consumer: ConsumerView, sequence: u64, bytes: Seq<u8>)
    requires
        sequence > consumer.next_sequence,
        !consumer.pending_parts.dom().contains(consumer.next_sequence),
        !consumer.pending_parts.dom().contains(sequence),
    ensures
        consumer.pushed(sequence, bytes) == (
            ConsumerView {
                pending_parts: consumer.pending_parts.insert(sequence, bytes),
                ..consumer
            },
            Ok::<Seq<i16>, ConsumerErrorView>(Seq::empty()),
        ),
{
}

/// A packet is decoded exactly where it is encrypted Opus with a size, of the format that came before, and
/// its decoder gives as many frames as it announces. It is counted whatever becomes of it; what it
/// decodes to only where it does.
pub proof fn packets_are_decoded_as_announced(consumer: ConsumerView, frame: FrameView)
    requires
        consumer.counts.soundkit_v2_packets < u64::MAX,
        consumer.counts.encrypted_packets < u64::MAX,
        consumer.counts.decoded_opus_packets < u64::MAX,
    ensures
        ({
            let (after, r) = consumer.decode_frame(frame);
            let before = consumer.counts;
            &&& after.counts.soundkit_v2_packets == before.soundkit_v2_packets + 1
            &&& after.counts.encrypted_packets == before.encrypted_packets + (if frame.is_opus
                && frame.encrypted {
                1int
            } else {
                0
            })
            &&& after.counts.decoded_opus_packets == before.decoded_opus_packets + (if r is Ok {
                1int
            } else {
                0
            })
            &&& r is Err ==> after.counts.sample_count == before.sample_count && after.counts.peak
                == before.peak && after.counts.decoded_pcm_frames == before.decoded_pcm_frames
            &&& r matches Ok(samples) ==> {
                &&& frame.is_opus && frame.encrypted
                &&& frame.sample_rate > 0 && frame.channels > 0 && frame.frame_count > 0
                &&& before.sample_rate == 0 || (before.sample_rate == frame.sample_rate
                    && before.channels == frame.channels)
                &&& after.counts.sample_rate == frame.sample_rate
                &&& after.counts.channels == frame.channels || before.sample_rate != 0
                &&& before.sample_count + samples.len() <= u64::MAX ==> after.counts.sample_count
                    == before.sample_count + samples.len()
                &&& before.decoded_pcm_frames + frame.frame_count <= u64::MAX
                    ==> after.counts.decoded_pcm_frames == before.decoded_pcm_frames
                    + frame.frame_count
                &&& packet_sound(frame.payload)
            }
            &&& after.next_sequence == consumer.next_sequence
            &&& after.pending_parts == consumer.pending_parts
            &&& after.parser == consumer.parser
        }),
{
}

/// The loudest of a peak and samples is one of them, and none is louder.
pub proof fn the_peak_is_the_loudest(peak: u16, samples: Seq<i16>)
    ensures
        loudest(peak, samples) >= peak,
        forall|i: int|
            0 <= i < samples.len() ==> -(loudest(peak, samples) as int) <= #[trigger] samples[i]
                <= loudest(peak, samples) as int,
        loudest(peak, samples) == peak || exists|i: int|
            0 <= i < samples.len() && (#[trigger] samples[i] == loudest(peak, samples) as int
                || samples[i] == -(loudest(peak, samples) as int)),
    decreases samples.len(),
{
    if samples.len() > 0 {
        let older = samples.drop_last();
        the_peak_is_the_loudest(peak, older);
        assert(samples.last() == samples[samples.len() - 1]);
        assert forall|i: int| 0 <= i < samples.len() implies -(loudest(peak, samples) as int)
            <= #[trigger] samples[i] <= loudest(peak, samples) as int by {
            if i < older.len() {
                assert(older[i] == samples[i]);
            }
        }
        if loudest(peak, samples) != peak && loudness(samples.last()) <= loudest(peak, older) {
            let i = choose|i: int|
                0 <= i < older.len() && (#[trigger] older[i] == loudest(peak, older) as int
                    || older[i] == -(loudest(peak, older) as int));
            assert(samples[i] == older[i]);
        }
    }
}

/// A part that was decoded is passed over, one that waits already changes nothing of what waits, and the
/// next part is decoded as soon as it comes.
pub proof fn parts_are_decoded_once(consumer: ConsumerView, sequence: u64, bytes: Seq<u8>, other: Seq<u8>)
    ensures
        sequence < consumer.next_sequence ==> consumer.pushed(sequence, bytes) == (
            consumer,
            Ok::<Seq<i16>, ConsumerErrorView>(Seq::empty()),
        ),
        consumer.pending_parts.dom().contains(sequence) ==> consumer.pushed(sequence, bytes)
            == consumer.pushed(sequence, other),
        sequence == consumer.next_sequence && !consumer.pending_parts.dom().contains(sequence) ==> {
            let (decoded, samples) = consumer.decode_part(bytes);
            &&& samples is Err ==> consumer.pushed(sequence, bytes).1 is Err
            &&& samples matches Ok(samples) ==> sequence < u64::MAX && !consumer.pending_parts.dom(
            ).contains((sequence + 1) as u64) ==> consumer.pushed(sequence, bytes) == (
                ConsumerView { next_sequence: (sequence + 1) as u64, ..decoded },
                Ok::<Seq<i16>, ConsumerErrorView>(samples),
            )
        },
{
    reveal_with_fuel(ConsumerView::drained, 2);
    if sequence == consumer.next_sequence && !consumer.pending_parts.dom().contains(sequence) {
        let given = ConsumerView {
            pending_parts: consumer.pending_parts.insert(sequence, bytes),
            ..consumer
        };
        let taken = ConsumerView { pending_parts: given.pending_parts.remove(sequence), ..given };
        assert(taken.pending_parts =~= consumer.pending_parts);
        assert(taken == consumer);
        decoding_leaves_what_waits(consumer, bytes);
        let (decoded, samples) = consumer.decode_part(bytes);
        if samples is Ok {
            assert(samples->Ok_0 + Seq::<i16>::empty() =~= samples->Ok_0);
        }
    }
}

proof fn decoding_leaves_what_waits(consumer: ConsumerView, bytes: Seq<u8>)
    ensures
        consumer.decode_part(bytes).0.pending_parts == consumer.pending_parts,
        consumer.decode_part(bytes).0.next_sequence == consumer.next_sequence,
{
    let (parser, frames) = stream_pushed(consumer.parser, bytes);
    if frames is Some {
        frames_leave_what_waits(ConsumerView { parser, ..consumer }, frames->Some_0);
    }
}

proof fn frames_leave_what_waits(consumer: ConsumerView, frames: Seq<FrameView>)
    ensures
        consumer.decode_frames(frames).0.pending_parts == consumer.pending_parts,
        consumer.decode_frames(frames).0.next_sequence == consumer.next_sequence,
    decreases frames.len(),
{
    if frames.len() > 0 {
        frames_leave_what_waits(consumer, frames.drop_last());
    }
}

/// A part fits where its packets last exactly as long as it does.
pub proof fn opus_parts_last_as_long_as_they_say(bytes: Seq<u8>, part_ms: u64)
    requires
        part_ms <= 0xffff_ffff,
        packet_frames(bytes) matches Some(frames) ==> frames <= 0xffff_ffff_ffff,
    ensures
        opus_part_fits(bytes, part_ms) <==> bytes.len() > 0 && part_ms > 0 && packet_frames(bytes)
            is Some && packet_frames(bytes)->Some_0 == 48 * part_ms,
{
}

/// A part that the next one waits behind brings that one with it: both are decoded, in their order, as
/// if the second had come after the first.
pub proof fn waiting_parts_follow(consumer: ConsumerView, bytes: Seq<u8>, next: Seq<u8>)
    requires
        consumer.next_sequence < u64::MAX,
        consumer.pending_parts == Map::<u64, Seq<u8>>::empty().insert(
            (consumer.next_sequence + 1) as u64,
            next,
        ),
    ensures
        ({
            let alone = ConsumerView { pending_parts: Map::empty(), ..consumer };
            let (decoded, first) = alone.decode_part(bytes);
            let moved = ConsumerView {
                next_sequence: (consumer.next_sequence + 1) as u64,
                ..decoded
            };
            let (after, second) = moved.pushed((consumer.next_sequence + 1) as u64, next);
            let (both, samples) = consumer.pushed(consumer.next_sequence, bytes);
            &&& first is Err ==> samples is Err
            &&& first is Ok && second is Err ==> samples is Err
            &&& first is Ok && second is Ok ==> samples is Ok && samples->Ok_0 == first->Ok_0
                + second->Ok_0
        }),
{
    let at = consumer.next_sequence;
    let listed = consumer.pending_parts.insert(at, bytes);
    assert(listed.remove(at) =~= consumer.pending_parts);
    let taken = ConsumerView { pending_parts: consumer.pending_parts, ..consumer };
    let alone = ConsumerView { pending_parts: Map::empty(), ..consumer };
    parts_decode_alike(taken, alone, bytes);
    let (decoded, first) = alone.decode_part(bytes);
    let (held, _) = taken.decode_part(bytes);
    let moved = ConsumerView { next_sequence: (at + 1) as u64, ..decoded };
    let moved_held = ConsumerView { next_sequence: (at + 1) as u64, ..held };
    assert(moved.pending_parts.insert((at + 1) as u64, next) =~= consumer.pending_parts);
    if first is Ok {
        assert(moved_held == ConsumerView {
            pending_parts: moved.pending_parts.insert((at + 1) as u64, next),
            ..moved
        });
    }
}

/// What a part decodes to does not hang on what waits behind it, nor does it change what waits.
proof fn frames_decode_alike(a: ConsumerView, b: ConsumerView, frames: Seq<FrameView>)
    requires
        b == (ConsumerView { pending_parts: b.pending_parts, ..a }),
    ensures
        b.decode_frames(frames).1 == a.decode_frames(frames).1,
        b.decode_frames(frames).0 == (ConsumerView {
            pending_parts: b.pending_parts,
            ..a.decode_frames(frames).0
        }),
        a.decode_frames(frames).0.pending_parts == a.pending_parts,
        a.decode_frames(frames).0.next_sequence == a.next_sequence,
    decreases frames.len(),
{
    if frames.len() > 0 {
        frames_decode_alike(a, b, frames.drop_last());
    }
}

/// What a part decodes to does not hang on what waits behind it, nor does it change what waits.
proof fn parts_decode_alike(a: ConsumerView, b: ConsumerView, bytes: Seq<u8>)
    requires
        b == (ConsumerView { pending_parts: b.pending_parts, ..a }),
    ensures
        b.decode_part(bytes).1 == a.decode_part(bytes).1,
        b.decode_part(bytes).0 == (ConsumerView {
            pending_parts: b.pending_parts,
            ..a.decode_part(bytes).0
        }),
        a.decode_part(bytes).0.pending_parts == a.pending_parts,
        a.decode_part(bytes).0.next_sequence == a.next_sequence,
{
    let (parser, frames) = stream_pushed(a.parser, bytes);
    if frames is Some {
        frames_decode_alike(
            ConsumerView { parser, ..a },
            ConsumerView { parser, ..b },
            frames->Some_0,
        );
    }
}

} // verus!
