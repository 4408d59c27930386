//! What a part of a rendition holds: how it is coded, when it starts, and whether it is whole.
use crate::bytes::{find_bytes, first_occurrence};
use crate::fmp4_bridge::boxes::{mdat_name, samples_from};
use crate::probe::plan::SAMPLE_RATE;
use crate::wire::{be_bytes, be_range, be_round_trip, be_value, get_be_u32, get_be_u64};
use vstd::prelude::*;
use vstd::slice::slice_subrange;

verus! {

/// What a rendition is coded in.
#[derive(Debug, Clone, Copy, PartialEq, Eq, Structural)]
pub enum HlsAudioCodec {
    Flac,
    SoundkitOpus,
    Ipcm,
    Fpcm,
}

impl HlsAudioCodec {
    /// The codec's name.
    pub open spec fn name(self) -> Seq<char> {
        match self {
            HlsAudioCodec::Flac => "flac"@,
            HlsAudioCodec::SoundkitOpus => "soundkit_opus"@,
            HlsAudioCodec::Ipcm => "ipcm_s24le"@,
            HlsAudioCodec::Fpcm => "fpcm_f32le"@,
        }
    }

    /// The codec's name.
    pub fn as_str(self) -> (r: &'static str)
        ensures
            r@ == self.name(),
    {
        match self {
            HlsAudioCodec::Flac => "flac",
            HlsAudioCodec::SoundkitOpus => "soundkit_opus",
            HlsAudioCodec::Ipcm => "ipcm_s24le",
            HlsAudioCodec::Fpcm => "fpcm_f32le",
        }
    }

    /// What the names of its parts end in.
    pub open spec fn extension(self) -> Seq<char> {
        match self {
            HlsAudioCodec::SoundkitOpus => "bin"@,
            _ => "mp4"@,
        }
    }

    /// What the names of its parts end in.
    pub fn media_extension(self) -> (r: &'static str)
        ensures
            r@ == self.extension(),
    {
        match self {
            HlsAudioCodec::SoundkitOpus => "bin",
            HlsAudioCodec::Flac | HlsAudioCodec::Ipcm | HlsAudioCodec::Fpcm => "mp4",
        }
    }

    /// What marks its initialization, where it has one.
    pub open spec fn marker(self) -> Option<Seq<u8>> {
        match self {
            HlsAudioCodec::SoundkitOpus => None,
            HlsAudioCodec::Flac => Some(seq![0x66, 0x4c, 0x61, 0x43]),
            HlsAudioCodec::Ipcm => Some(seq![0x69, 0x70, 0x63, 0x6d]),
            HlsAudioCodec::Fpcm => Some(seq![0x66, 0x70, 0x63, 0x6d]),
        }
    }

    /// What marks its initialization, where it has one.
    pub fn init_marker(self) -> (r: Option<[u8; 4]>)
        ensures
            match self.marker() {
                Some(marker) => r matches Some(bytes) && bytes@ == marker,
                None => r is None,
            },
    {
        match self {
            HlsAudioCodec::SoundkitOpus => None,
            HlsAudioCodec::Flac => {
                let marker: [u8; 4] = [0x66, 0x4c, 0x61, 0x43];
                assert(marker@ =~= seq![0x66, 0x4c, 0x61, 0x43]);
                Some(marker)
            },
            HlsAudioCodec::Ipcm => {
                let marker: [u8; 4] = [0x69, 0x70, 0x63, 0x6d];
                assert(marker@ =~= seq![0x69, 0x70, 0x63, 0x6d]);
                Some(marker)
            },
            HlsAudioCodec::Fpcm => {
                let marker: [u8; 4] = [0x66, 0x70, 0x63, 0x6d];
                assert(marker@ =~= seq![0x66, 0x70, 0x63, 0x6d]);
                Some(marker)
            },
        }
    }
}

/// How a rendition is read.
#[derive(Debug, Clone, Copy, PartialEq, Eq, Structural)]
pub enum HlsTransport {
    H3,
    Http1,
}

impl HlsTransport {
    /// The transport's name.
    pub open spec fn name(self) -> Seq<char> {
        match self {
            HlsTransport::H3 => "h3"@,
            HlsTransport::Http1 => "http/1.1"@,
        }
    }

    /// The transport's name.
    pub fn as_str(self) -> (r: &'static str)
        ensures
            r@ == self.name(),
    {
        match self {
            HlsTransport::H3 => "h3",
            HlsTransport::Http1 => "http/1.1",
        }
    }
}

/// What a source's samples are sent as.
#[derive(Debug, Clone, Copy, PartialEq, Eq, Structural)]
pub enum ProbePayload {
    Flac,
    Pcm,
}

impl ProbePayload {
    /// The payload's name.
    pub open spec fn name(self) -> Seq<char> {
        match self {
            ProbePayload::Flac => "flac"@,
            ProbePayload::Pcm => "pcm_s24le"@,
        }
    }

    /// The payload's name.
    pub fn as_str(self) -> (r: &'static str)
        ensures
            r@ == self.name(),
    {
        match self {
            ProbePayload::Flac => "flac",
            ProbePayload::Pcm => "pcm_s24le",
        }
    }
}

/// What a source plays.
#[derive(Debug, Clone, Copy, PartialEq, Eq, Structural)]
pub enum ProbeSignal {
    /// Tones that differ from channel to channel.
    Decorrelated,
    /// Noise.
    Noise,
    /// The same tone on every channel.
    Sine,
}

impl ProbeSignal {
    /// The signal's name.
    pub open spec fn name(self) -> Seq<char> {
        match self {
            ProbeSignal::Decorrelated => "decorrelated"@,
            ProbeSignal::Noise => "noise"@,
            ProbeSignal::Sine => "sine"@,
        }
    }

    /// The signal's name.
    pub fn as_str(self) -> (r: &'static str)
        ensures
            r@ == self.name(),
    {
        match self {
            ProbeSignal::Decorrelated => "decorrelated",
            ProbeSignal::Noise => "noise",
            ProbeSignal::Sine => "sine",
        }
    }
}

/// Whether one byte string stands somewhere in another.
pub open spec fn mentions(bytes: Seq<u8>, needle: Seq<u8>) -> bool {
    first_occurrence(bytes, needle, 0) is Some
}

/// The codec that an initialization is marked with.
pub open spec fn init_codec(bytes: Seq<u8>) -> Option<HlsAudioCodec> {
    if mentions(bytes, HlsAudioCodec::Ipcm.marker()->0) {
        Some(HlsAudioCodec::Ipcm)
    } else if mentions(bytes, HlsAudioCodec::Fpcm.marker()->0) {
        Some(HlsAudioCodec::Fpcm)
    } else if mentions(bytes, HlsAudioCodec::Flac.marker()->0) {
        Some(HlsAudioCodec::Flac)
    } else {
        None
    }
}

/// The place of a codec's mark.
fn find_marker(bytes: &[u8], codec: HlsAudioCodec) -> (r: Option<usize>)
    requires
        codec.marker() is Some,
    ensures
        match first_occurrence(bytes@, codec.marker()->0, 0) {
            Some(at) => r matches Some(found) && found == at && found + 4 <= bytes@.len(),
            None => r is None,
        },
{
    match codec.init_marker() {
        Some(marker) => find_bytes(bytes, marker.as_slice()),
        None => None,
    }
}

/// The codec that an initialization is marked with.
pub fn detect_init_audio_codec(bytes: &[u8]) -> (r: Option<HlsAudioCodec>)
    ensures
        r == init_codec(bytes@),
{
    if find_marker(bytes, HlsAudioCodec::Ipcm).is_some() {
        Some(HlsAudioCodec::Ipcm)
    } else if find_marker(bytes, HlsAudioCodec::Fpcm).is_some() {
        Some(HlsAudioCodec::Fpcm)
    } else if find_marker(bytes, HlsAudioCodec::Flac).is_some() {
        Some(HlsAudioCodec::Flac)
    } else {
        None
    }
}

/// What marks the description of samples.
pub open spec fn pcm_config_marker() -> Seq<u8> {
    seq![0x70, 0x63, 0x6d, 0x43]
}

/// Bits of a sample.
pub open spec fn sample_bits(codec: HlsAudioCodec) -> u8 {
    match codec {
        HlsAudioCodec::Ipcm => 24,
        HlsAudioCodec::Fpcm => 32,
        _ => 0,
    }
}

/// Whether an initialization describes samples of a codec: the channels behind the codec's mark,
/// and the order of bytes and bits of a sample behind the description's.
pub open spec fn describes(bytes: Seq<u8>, codec: HlsAudioCodec, expected_channels: u16) -> bool {
    match (
        first_occurrence(bytes, codec.marker()->0, 0),
        first_occurrence(bytes, pcm_config_marker(), 0),
    ) {
        (Some(entry), Some(config)) => {
            &&& entry + 22 <= bytes.len()
            &&& be_value(bytes.subrange(entry + 20, entry + 22)) == expected_channels
            &&& config + 9 < bytes.len()
            &&& bytes[config + 8] == 1
            &&& bytes[config + 9] == sample_bits(codec)
        },
        _ => false,
    }
}

/// Decides whether an initialization describes what is expected; only samples are looked at.
pub fn pcm_init_parameters_match(bytes: &[u8], codec: HlsAudioCodec, expected_channels: u16) -> (r:
    bool)
    ensures
        r == (match codec {
            HlsAudioCodec::Flac => true,
            HlsAudioCodec::SoundkitOpus => false,
            _ => describes(bytes@, codec, expected_channels),
        }),
{
    let sample_size: u8 = match codec {
        HlsAudioCodec::Flac => {
            return true;
        },
        HlsAudioCodec::SoundkitOpus => {
            return false;
        },
        HlsAudioCodec::Ipcm => 24,
        HlsAudioCodec::Fpcm => 32,
    };
    let entry: usize = match find_marker(bytes, codec) {
        Some(entry) => entry,
        None => {
            return false;
        },
    };
    if bytes.len() - entry < 22 {
        return false;
    }
    let channels: u16 = (bytes[entry + 20] as u16) * 256 + (bytes[entry + 21] as u16);
    proof {
        let field = bytes@.subrange(entry + 20, entry + 22);
        reveal_with_fuel(be_value, 3);
        assert(field.drop_last().drop_last() =~= Seq::empty());
        assert(field.drop_last().last() == bytes@[entry + 20]);
        assert(field.last() == bytes@[entry + 21]);
    }
    let marker: [u8; 4] = [0x70, 0x63, 0x6d, 0x43];
    assert(marker@ =~= pcm_config_marker());
    let config: usize = match find_bytes(bytes, marker.as_slice()) {
        Some(config) => config,
        None => {
            return false;
        },
    };
    if bytes.len() - config < 10 {
        return false;
    }
    channels == expected_channels && bytes[config + 8] == 1 && bytes[config + 9] == sample_size
}

/// Bytes of a part's samples, where the codec has samples and they can be counted.
pub open spec fn part_bytes(codec: HlsAudioCodec, channels: u16, part_ms: u64) -> Option<u64> {
    let width: int = match codec {
        HlsAudioCodec::Ipcm => 3,
        HlsAudioCodec::Fpcm => 4,
        _ => 0,
    };
    let frames = SAMPLE_RATE * part_ms / 1_000;
    if width == 0 || SAMPLE_RATE * part_ms > u64::MAX || frames * channels > u64::MAX || frames
        * channels * width > u64::MAX {
        None
    } else {
        Some((frames * channels * width) as u64)
    }
}

/// Bytes of a part's samples.
pub fn expected_pcm_part_bytes(codec: HlsAudioCodec, channels: u16, part_ms: u64) -> (r: Option<u64>)
    ensures
        r == part_bytes(codec, channels, part_ms),
{
    let width: u64 = match codec {
        HlsAudioCodec::Flac | HlsAudioCodec::SoundkitOpus => {
            return None;
        },
        HlsAudioCodec::Ipcm => 3,
        HlsAudioCodec::Fpcm => 4,
    };
    let product: u64 = match (SAMPLE_RATE as u64).checked_mul(part_ms) {
        Some(product) => product,
        None => {
            return None;
        },
    };
    let frames: u64 = product / 1_000;
    match frames.checked_mul(channels as u64) {
        Some(samples) => samples.checked_mul(width),
        None => None,
    }
}

/// What the first box of samples holds.
pub fn fmp4_mdat_payload(bytes: &[u8]) -> (r: Option<&[u8]>)
    ensures
        match samples_from(bytes@, 0) {
            Some(payload) => r matches Some(found) && found@ == payload,
            None => r is None,
        },
{
    let name: [u8; 4] = [0x6d, 0x64, 0x61, 0x74];
    assert(name@ =~= mdat_name());
    let mut offset: usize = 0;
    while bytes.len() - offset >= 8
        invariant
            offset <= bytes@.len(),
            name@ == mdat_name(),
            samples_from(bytes@, 0) == samples_from(bytes@, offset as int),
        decreases bytes@.len() - offset,
    {
        let size: usize = get_be_u32(bytes, offset) as usize;
        if size < 8 || size > bytes.len() - offset {
            return None;
        }
        let box_name = slice_subrange(bytes, offset + 4, offset + 8);
        if crate::bytes::bytes_equal(box_name, name.as_slice()) {
            return Some(slice_subrange(bytes, offset + 8, offset + size));
        }
        offset = offset + size;
    }
    None
}

/// What the box of a fragment's start is called.
pub open spec fn tfdt_name() -> Seq<u8> {
    seq![0x74, 0x66, 0x64, 0x74]
}

/// When a fragment starts: four or eight bytes behind the name of the box, by its version.
pub open spec fn fragment_start(bytes: Seq<u8>) -> Option<u64> {
    match first_occurrence(bytes, tfdt_name(), 0) {
        None => None,
        Some(at) => if at + 4 >= bytes.len() {
            None
        } else if bytes[at + 4] == 0 && at + 12 <= bytes.len() {
            Some(be_value(bytes.subrange(at + 8, at + 12)) as u64)
        } else if bytes[at + 4] == 1 && at + 16 <= bytes.len() {
            Some(be_value(bytes.subrange(at + 8, at + 16)) as u64)
        } else {
            None
        },
    }
}

/// When a fragment starts.
pub fn parse_fmp4_tfdt_ms(bytes: &[u8]) -> (r: Option<u64>)
    ensures
        r == fragment_start(bytes@),
{
    let name: [u8; 4] = [0x74, 0x66, 0x64, 0x74];
    assert(name@ =~= tfdt_name());
    let at: usize = match find_bytes(bytes, name.as_slice()) {
        Some(at) => at,
        None => {
            return None;
        },
    };
    let behind: usize = bytes.len() - at;
    if behind <= 4 {
        return None;
    }
    let version: u8 = bytes[at + 4];
    if version == 0 && behind >= 12 {
        return Some(get_be_u32(bytes, at + 8) as u64);
    }
    if version == 1 && behind >= 16 {
        return Some(get_be_u64(bytes, at + 8));
    }
    None
}

/// Why a part's start is not known.
#[derive(Debug, Clone, Copy, PartialEq, Eq, Structural)]
pub enum PartStartError {
    /// Its number is too high.
    Overflow,
    /// It does not say when it starts.
    NoStart,
}

impl PartStartError {
    /// What the error says.
    pub open spec fn words(self) -> Seq<char> {
        match self {
            PartStartError::Overflow => "SoundKit LL-HLS part PTS overflow"@,
            PartStartError::NoStart => "LL-HLS fMP4 part omitted a valid tfdt"@,
        }
    }

    /// What the error says.
    pub fn message(self) -> (r: &'static str)
        ensures
            r@ == self.words(),
    {
        match self {
            PartStartError::Overflow => "SoundKit LL-HLS part PTS overflow",
            PartStartError::NoStart => "LL-HLS fMP4 part omitted a valid tfdt",
        }
    }
}

/// When a part starts: by its number where it has no box that says so.
pub open spec fn part_start(codec: HlsAudioCodec, bytes: Seq<u8>, sequence: u64, part_ms: u64) -> Result<
    u64,
    PartStartError,
> {
    if codec == HlsAudioCodec::SoundkitOpus {
        if sequence * part_ms > u64::MAX {
            Err(PartStartError::Overflow)
        } else {
            Ok((sequence * part_ms) as u64)
        }
    } else {
        match fragment_start(bytes) {
            Some(start) => Ok(start),
            None => Err(PartStartError::NoStart),
        }
    }
}

/// When a part starts.
pub fn media_part_pts_ms(codec: HlsAudioCodec, bytes: &[u8], sequence: u64, part_ms: u64) -> (r: Result<
    u64,
    PartStartError,
>)
    ensures
        r == part_start(codec, bytes@, sequence, part_ms),
{
    if codec == HlsAudioCodec::SoundkitOpus {
        return match sequence.checked_mul(part_ms) {
            Some(start) => Ok(start),
            None => Err(PartStartError::Overflow),
        };
    }
    match parse_fmp4_tfdt_ms(bytes) {
        Some(start) => Ok(start),
        None => Err(PartStartError::NoStart),
    }
}

/// What a part stands behind in a playlist.
pub open spec fn part_tag() -> Seq<u8> {
    seq![
        35, 69, 88, 84, 45, 88, 45, 80, 65, 82, 84, 58,
    ]
}

/// What a part stands behind in a playlist.
fn part_tag_bytes() -> (r: Vec<u8>)
    ensures
        r@ == part_tag(),
{
    let bytes: [u8; 12] = [
        35, 69, 88, 84, 45, 88, 45, 80, 65, 82, 84, 58,
    ];
    let copy = crate::bytes::copy_bytes(bytes.as_slice());
    assert(copy@ =~= part_tag());
    copy
}

/// What a playlist says that waits for its next part.
pub open spec fn block_reload_tag() -> Seq<u8> {
    seq![
        67, 65, 78, 45, 66, 76, 79, 67, 75, 45, 82, 69, 76, 79, 65, 68, 61, 89, 69, 83,
    ]
}

/// What a playlist says that waits for its next part.
fn block_reload_tag_bytes() -> (r: Vec<u8>)
    ensures
        r@ == block_reload_tag(),
{
    let bytes: [u8; 20] = [
        67, 65, 78, 45, 66, 76, 79, 67, 75, 45, 82, 69, 76, 79, 65, 68, 61, 89, 69, 83,
    ];
    let copy = crate::bytes::copy_bytes(bytes.as_slice());
    assert(copy@ =~= block_reload_tag());
    copy
}

/// What the name of a part without boxes ends in.
pub open spec fn bin_extension() -> Seq<u8> {
    seq![
        46, 98, 105, 110,
    ]
}

/// What the name of a part without boxes ends in.
fn bin_extension_bytes() -> (r: Vec<u8>)
    ensures
        r@ == bin_extension(),
{
    let bytes: [u8; 4] = [
        46, 98, 105, 110,
    ];
    let copy = crate::bytes::copy_bytes(bytes.as_slice());
    assert(copy@ =~= bin_extension());
    copy
}

/// What an initialization stands behind in a playlist.
pub open spec fn map_tag() -> Seq<u8> {
    seq![
        35, 69, 88, 84, 45, 88, 45, 77, 65, 80, 58,
    ]
}

/// What an initialization stands behind in a playlist.
fn map_tag_bytes() -> (r: Vec<u8>)
    ensures
        r@ == map_tag(),
{
    let bytes: [u8; 11] = [
        35, 69, 88, 84, 45, 88, 45, 77, 65, 80, 58,
    ];
    let copy = crate::bytes::copy_bytes(bytes.as_slice());
    assert(copy@ =~= map_tag());
    copy
}

/// Whether a playlist is one of low latency, and names parts of a codec.
pub open spec fn playlist_fits(bytes: Seq<u8>, codec: HlsAudioCodec) -> bool {
    &&& mentions(bytes, part_tag())
    &&& mentions(bytes, block_reload_tag())
    &&& codec == HlsAudioCodec::SoundkitOpus ==> mentions(bytes, bin_extension()) && !mentions(
        bytes,
        map_tag(),
    )
}

/// Decides whether a playlist is one of low latency, and names parts of a codec.
pub fn playlist_matches_format(bytes: &[u8], codec: HlsAudioCodec) -> (r: bool)
    ensures
        r == playlist_fits(bytes@, codec),
{
    let has_part = find_bytes(bytes, part_tag_bytes().as_slice()).is_some();
    let can_block = find_bytes(bytes, block_reload_tag_bytes().as_slice()).is_some();
    if !has_part || !can_block {
        return false;
    }
    if codec != HlsAudioCodec::SoundkitOpus {
        return true;
    }
    find_bytes(bytes, bin_extension_bytes().as_slice()).is_some() && find_bytes(
        bytes,
        map_tag_bytes().as_slice(),
    ).is_none()
}

/// A part of samples has as many bytes as its time has frames, its frames channels, and its samples
/// width, where a millisecond is a whole number of frames.
pub proof fn parts_hold_whole_frames(codec: HlsAudioCodec, channels: u16, part_ms: u64)
    requires
        codec == HlsAudioCodec::Ipcm || codec == HlsAudioCodec::Fpcm,
        part_bytes(codec, channels, part_ms) is Some,
    ensures
        part_bytes(codec, channels, part_ms)->0 * 8 == (48 * part_ms) * channels * sample_bits(
            codec,
        ),
{
    let frames = SAMPLE_RATE * part_ms / 1_000;
    assert(SAMPLE_RATE * part_ms == (48 * part_ms) * 1_000) by (nonlinear_arith)
        requires
            SAMPLE_RATE == 48_000,
    ;
    assert(frames == 48 * part_ms);
    let samples = frames * channels;
    match codec {
        HlsAudioCodec::Ipcm => {
            assert(samples * 3 * 8 == samples * 24);
        },
        _ => {
            assert(samples * 4 * 8 == samples * 32);
        },
    }
}

/// A number that stands behind the name of the box, its version and three more bytes, in four bytes
/// or in eight by the version, is when the fragment starts; no other version tells.
pub proof fn fragments_tell_their_start(bytes: Seq<u8>, at: int, start: u64)
    requires
        first_occurrence(bytes, tfdt_name(), 0) == Some(at),
        at >= 0,
    ensures
        bytes.len() >= at + 12 && bytes[at + 4] == 0 && bytes.subrange(at + 8, at + 12) == be_bytes(
            start as nat,
            4,
        ) && start <= u32::MAX ==> fragment_start(bytes) == Some(start),
        bytes.len() >= at + 16 && bytes[at + 4] == 1 && bytes.subrange(at + 8, at + 16) == be_bytes(
            start as nat,
            8,
        ) ==> fragment_start(bytes) == Some(start),
        bytes.len() > at + 4 && bytes[at + 4] > 1 ==> fragment_start(bytes) is None,
{
    reveal_with_fuel(crate::wire::be_range, 9);
    assert(be_range(4) == 0x1_0000_0000 && be_range(8) == 0x1_0000_0000_0000_0000);
    if start <= u32::MAX {
        be_round_trip(start as nat, 4);
    }
    be_round_trip(start as nat, 8);
}

/// Parts without a box start with the stream and one part's time apart, whatever they hold; all
/// others start when they say, whatever their number.
pub proof fn parts_start_where_the_last_ended(
    codec: HlsAudioCodec,
    bytes: Seq<u8>,
    other: Seq<u8>,
    sequence: u64,
    part_ms: u64,
)
    requires
        sequence < u64::MAX,
        (sequence + 1) * part_ms <= u64::MAX,
    ensures
        ({
            let start = part_start(codec, bytes, sequence, part_ms);
            let next = part_start(codec, bytes, (sequence + 1) as u64, part_ms);
            if codec == HlsAudioCodec::SoundkitOpus {
                &&& start is Ok && next is Ok
                &&& next->Ok_0 == start->Ok_0 + part_ms
                &&& part_start(codec, bytes, 0, part_ms) == Ok::<u64, PartStartError>(0)
                &&& part_start(codec, other, sequence, part_ms) == start
            } else {
                &&& next == start
                &&& start is Ok <==> fragment_start(bytes) is Some
            }
        }),
{
    assert((sequence + 1) * part_ms == sequence * part_ms + part_ms) by (nonlinear_arith);
    assert(0 * part_ms == 0);
}

/// Only parts of samples are measured, and they are where their bytes can be counted.
pub proof fn parts_of_samples_are_measured(codec: HlsAudioCodec, channels: u16, part_ms: u64)
    ensures
        part_bytes(HlsAudioCodec::Flac, channels, part_ms) is None,
        part_bytes(HlsAudioCodec::SoundkitOpus, channels, part_ms) is None,
        (codec == HlsAudioCodec::Ipcm || codec == HlsAudioCodec::Fpcm) && part_ms
            <= 0xffff_ffff ==> part_bytes(codec, channels, part_ms) is Some,
{
    if part_ms <= 0xffff_ffff {
        let frames = SAMPLE_RATE * part_ms / 1_000;
        assert(SAMPLE_RATE * part_ms == 48_000 * part_ms);
        assert(frames == 48 * part_ms);
        assert(0 <= frames * channels <= 48 * 0xffff_ffff * 0xffff) by (nonlinear_arith)
            requires
                0 <= frames <= 48 * 0xffff_ffff,
                0 <= channels <= 0xffff,
        ;
    }
}

/// No initialization describes two numbers of channels.
pub proof fn descriptions_are_of_one_layout(
    bytes: Seq<u8>,
    codec: HlsAudioCodec,
    channels: u16,
    other: u16,
)
    requires
        describes(bytes, codec, channels),
    ensures
        describes(bytes, codec, other) <==> other == channels,
{
}

/// A playlist fits one codec with boxes where it fits another, and a codec without boxes only
/// where it fits those too, names such parts and no initialization.
pub proof fn playlists_fit_alike(bytes: Seq<u8>, codec: HlsAudioCodec)
    ensures
        codec != HlsAudioCodec::SoundkitOpus ==> playlist_fits(bytes, codec) == playlist_fits(
            bytes,
            HlsAudioCodec::Flac,
        ),
        playlist_fits(bytes, HlsAudioCodec::SoundkitOpus) ==> playlist_fits(bytes, codec)
            && mentions(bytes, bin_extension()) && !mentions(bytes, map_tag()),
        playlist_fits(bytes, codec) && mentions(bytes, bin_extension()) && !mentions(
            bytes,
            map_tag(),
        ) ==> playlist_fits(bytes, HlsAudioCodec::SoundkitOpus),
        playlist_fits(bytes, codec) ==> mentions(bytes, part_tag()) && mentions(
            bytes,
            block_reload_tag(),
        ),
{
}

/// An initialization is of a codec whose mark it has, of none only where it has no mark at all, and
/// of samples as whole numbers before those as fractions.
pub proof fn initializations_are_told_by_their_mark(bytes: Seq<u8>, codec: HlsAudioCodec)
    ensures
        init_codec(bytes) == Some(codec) ==> codec.marker() is Some && mentions(
            bytes,
            codec.marker()->0,
        ),
        codec.marker() is Some && mentions(bytes, codec.marker()->0) ==> init_codec(bytes) is Some,
        codec.marker() is None <==> codec == HlsAudioCodec::SoundkitOpus,
        mentions(bytes, HlsAudioCodec::Ipcm.marker()->0) ==> init_codec(bytes) == Some(
            HlsAudioCodec::Ipcm,
        ),
        init_codec(bytes) == Some(HlsAudioCodec::Flac) ==> !mentions(
            bytes,
            HlsAudioCodec::Fpcm.marker()->0,
        ),
{
}

} // verus!
