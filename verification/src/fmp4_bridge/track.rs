//! Track configurations, the parts they are boxed into, and the boxing itself.
use crate::bytes::{bytes_equal, copy_bytes};
use crate::audio_epoch_hls::timing::millis_of_samples;
use crate::bytes::starts_with;
use crate::fmp4_bridge::access_unit::{units_view, AccessUnit, AccessUnitView};
use crate::fmp4_bridge::boxable::audio_sound;
use crate::fmp4_bridge::boxes::samples_from;
use access_unit::AccessUnit as Unit;
use vstd::prelude::*;
use wavey_boxer::fmp4::{
    box_fmp4_with_init, box_fmp4_with_init_and_pcm, AvcDecoderConfigurationRecord as Record, Config,
    PcmAudioConfig as BoxerPcm, PcmSampleKind as BoxerKind,
};

verus! {

/// The decoder configuration that an H.264 track announces.
#[derive(Debug, Clone)]
pub struct AvcConfig {
    pub profile_idc: u8,
    pub constraint_set_flag: u8,
    pub level_idc: u8,
    pub sequence_parameter_set: Vec<u8>,
    pub picture_parameter_set: Vec<u8>,
}

/// What an [`AvcConfig`] holds.
pub struct AvcConfigView {
    pub profile_idc: u8,
    pub constraint_set_flag: u8,
    pub level_idc: u8,
    pub sequence_parameter_set: Seq<u8>,
    pub picture_parameter_set: Seq<u8>,
}

impl View for AvcConfig {
    type V = AvcConfigView;

    open spec fn view(&self) -> AvcConfigView {
        AvcConfigView {
            profile_idc: self.profile_idc,
            constraint_set_flag: self.constraint_set_flag,
            level_idc: self.level_idc,
            sequence_parameter_set: self.sequence_parameter_set@,
            picture_parameter_set: self.picture_parameter_set@,
        }
    }
}

/// The video side of an output stream; without a decoder configuration the stream has no video.
#[derive(Debug)]
pub struct TrackConfig {
    pub width: u16,
    pub height: u16,
    pub avcc: Option<AvcConfig>,
}

/// What a [`TrackConfig`] holds.
pub struct TrackConfigView {
    pub width: u16,
    pub height: u16,
    pub avcc: Option<AvcConfigView>,
}

impl View for TrackConfig {
    type V = TrackConfigView;

    open spec fn view(&self) -> TrackConfigView {
        TrackConfigView {
            width: self.width,
            height: self.height,
            avcc: match self.avcc {
                Some(avcc) => Some(avcc@),
                None => None,
            },
        }
    }
}

impl TrackConfigView {
    /// The configuration of a stream without video.
    pub open spec fn none() -> Self {
        TrackConfigView { width: 0, height: 0, avcc: None }
    }

    /// The parameter sets by which one configuration is told from another.
    pub open spec fn signature(self) -> Option<(Seq<u8>, Seq<u8>)> {
        match self.avcc {
            Some(avcc) => Some((avcc.sequence_parameter_set, avcc.picture_parameter_set)),
            None => None,
        }
    }
}

impl TrackConfig {
    /// The configuration of a stream without video.
    pub fn none() -> (r: Self)
        ensures
            r@ == TrackConfigView::none(),
    {
        TrackConfig { width: 0, height: 0, avcc: None }
    }

    /// Copies the parameter sets by which this configuration is told from another.
    pub fn signature(&self) -> (r: Option<(Vec<u8>, Vec<u8>)>)
        ensures
            signature_view(r) == self@.signature(),
    {
        match &self.avcc {
            Some(avcc) => Some(
                (
                    copy_bytes(avcc.sequence_parameter_set.as_slice()),
                    copy_bytes(avcc.picture_parameter_set.as_slice()),
                ),
            ),
            None => None,
        }
    }

    /// Decides whether two configurations have the same parameter sets.
    pub fn same_signature(&self, other: &TrackConfig) -> (r: bool)
        ensures
            r == (self@.signature() == other@.signature()),
    {
        match (&self.avcc, &other.avcc) {
            (Some(a), Some(b)) => bytes_equal(
                a.sequence_parameter_set.as_slice(),
                b.sequence_parameter_set.as_slice(),
            ) && bytes_equal(a.picture_parameter_set.as_slice(), b.picture_parameter_set.as_slice()),
            (None, None) => true,
            _ => false,
        }
    }
}

/// What a pair of parameter sets that may be missing holds.
pub open spec fn signature_view(pair: Option<(Vec<u8>, Vec<u8>)>) -> Option<(Seq<u8>, Seq<u8>)> {
    match pair {
        Some((sps, pps)) => Some((sps@, pps@)),
        None => None,
    }
}

/// How the samples of uncompressed audio are coded.
#[derive(Clone, Copy, Debug, PartialEq, Eq, Structural)]
pub enum PcmSampleKind {
    Integer,
    Float,
}

/// The layout of uncompressed audio.
#[derive(Clone, Copy, Debug, PartialEq, Eq, Structural)]
pub struct PcmAudioConfig {
    pub sample_rate: u32,
    pub channel_count: u16,
    pub sample_size: u8,
    pub little_endian: bool,
    pub sample_kind: PcmSampleKind,
}

impl PcmAudioConfig {
    /// Bytes of one sample of every channel.
    pub open spec fn frame_bytes(self) -> int {
        (self.sample_size / 8) * self.channel_count
    }

    /// The codec name that a published part carries.
    pub open spec fn codec(self) -> Seq<char> {
        match (self.sample_kind, self.sample_size) {
            (PcmSampleKind::Integer, 16) => "pcm_s16le"@,
            (PcmSampleKind::Integer, 24) => "pcm_s24le"@,
            (PcmSampleKind::Integer, 32) => "pcm_s32le"@,
            (PcmSampleKind::Float, 32) => "pcm_f32le"@,
            _ => "pcm"@,
        }
    }

    /// The codec name that a published part carries.
    pub fn codec_name(self) -> (r: &'static str)
        ensures
            r@ == self.codec(),
    {
        match self.sample_kind {
            PcmSampleKind::Integer => if self.sample_size == 16 {
                "pcm_s16le"
            } else if self.sample_size == 24 {
                "pcm_s24le"
            } else if self.sample_size == 32 {
                "pcm_s32le"
            } else {
                "pcm"
            },
            PcmSampleKind::Float => if self.sample_size == 32 {
                "pcm_f32le"
            } else {
                "pcm"
            },
        }
    }
}

/// What an AAC frame's header says of its track.
#[derive(Clone, Copy, Debug, PartialEq, Eq, Structural)]
pub struct AdtsFields {
    pub profile: u8,
    pub sampling_frequency: u32,
    pub channel_configuration: u8,
}

/// By what one audio configuration is told from another.
#[derive(Clone, Copy, Debug, PartialEq, Eq, Structural)]
pub struct AudioConfigSignature {
    pub stream_type: u8,
    pub profile: u8,
    pub sampling_frequency: u32,
    pub channel_configuration: u8,
}

/// The sampling frequencies that an AAC frame can name, by their numbers.
pub open spec fn adts_frequencies() -> Seq<u32> {
    seq![
        96_000u32,
        88_200,
        64_000,
        48_000,
        44_100,
        32_000,
        24_000,
        22_050,
        16_000,
        12_000,
        11_025,
        8_000,
        7_350,
    ]
}

/// What the head of an AAC frame says: behind twelve set bits come the version and the layer, which
/// are zero, and a bit that is not looked at; then two bits of profile, four that number the
/// frequency, a bit that is not looked at, and three of channels.
pub open spec fn adts_fields(data: Seq<u8>) -> Option<AdtsFields> {
    if data.len() < 7 || data[0] != 0xff || (data[1] != 0xf0 && data[1] != 0xf1) || data[2] as int
        / 4 % 16 >= adts_frequencies().len() {
        None
    } else {
        Some(
            AdtsFields {
                profile: (data[2] as int / 64) as u8,
                sampling_frequency: adts_frequencies()[data[2] as int / 4 % 16],
                channel_configuration: (data[2] as int % 2 * 4 + data[3] as int / 64) as u8,
            },
        )
    }
}

/// Calls `wavey_boxer::fmp4::AdtsHeader::read_from`.
///
/// Claimed of it: it reads the profile, the frequency and the channels where they stand, and
/// nothing where the head is cut off, does not open with the set bits, is not of version and layer
/// zero, or names a frequency that there is none of.
#[verifier::external_body]
pub(crate) fn read_adts(data: &[u8]) -> (r: Option<AdtsFields>)
    ensures
        r == adts_fields(data@),
{
    wavey_boxer::fmp4::AdtsHeader::read_from(data).map(
        |header| AdtsFields {
            profile: header.profile as u8,
            sampling_frequency: header.sampling_frequency.as_u32(),
            channel_configuration: header.channel_configuration as u8,
        },
    )
}

/// The configuration that the first AAC header among some units announces.
pub open spec fn audio_signature(units: Seq<AccessUnitView>) -> Option<AudioConfigSignature>
    decreases units.len(),
{
    if units.len() == 0 {
        None
    } else {
        match adts_fields(units[0].data) {
            Some(fields) => Some(
                AudioConfigSignature {
                    stream_type: units[0].stream_type,
                    profile: fields.profile,
                    sampling_frequency: fields.sampling_frequency,
                    channel_configuration: fields.channel_configuration,
                },
            ),
            None => audio_signature(units.skip(1)),
        }
    }
}

/// Finds the configuration that the first AAC header among some units announces.
pub fn audio_config_signature(audio_units: &Vec<AccessUnit>) -> (r: Option<AudioConfigSignature>)
    ensures
        r == audio_signature(units_view(audio_units@)),
{
    let ghost units = units_view(audio_units@);
    let mut i: usize = 0;
    assert(units.skip(0) =~= units);
    while i < audio_units.len()
        invariant
            i <= audio_units@.len(),
            units == units_view(audio_units@),
            audio_signature(units) == audio_signature(units.skip(i as int)),
        decreases audio_units@.len() - i,
    {
        let ghost rest = units.skip(i as int);
        assert(rest[0] == audio_units@[i as int]@);
        assert(rest.skip(1) =~= units.skip(i + 1));
        match read_adts(audio_units[i].data.as_slice()) {
            Some(fields) => {
                return Some(
                    AudioConfigSignature {
                        stream_type: audio_units[i].stream_type,
                        profile: fields.profile,
                        sampling_frequency: fields.sampling_frequency,
                        channel_configuration: fields.channel_configuration,
                    },
                );
            },
            None => {},
        }
        i = i + 1;
    }
    None
}

/// By what an initialisation is told from the one before it.
#[derive(Debug)]
pub struct InitSignature {
    pub video: Option<(Vec<u8>, Vec<u8>)>,
    pub audio: Option<AudioConfigSignature>,
}

/// What an [`InitSignature`] holds.
pub struct InitSignatureView {
    pub video: Option<(Seq<u8>, Seq<u8>)>,
    pub audio: Option<AudioConfigSignature>,
}

impl View for InitSignature {
    type V = InitSignatureView;

    open spec fn view(&self) -> InitSignatureView {
        InitSignatureView { video: signature_view(self.video), audio: self.audio }
    }
}

impl InitSignature {
    /// Decides whether two initialisations are the same.
    pub fn same_as(&self, other: &InitSignature) -> (r: bool)
        ensures
            r == (self@ == other@),
    {
        let same_audio = match (self.audio, other.audio) {
            (Some(a), Some(b)) => a == b,
            (None, None) => true,
            _ => false,
        };
        let same_video = match (&self.video, &other.video) {
            (Some(a), Some(b)) => bytes_equal(a.0.as_slice(), b.0.as_slice()) && bytes_equal(
                a.1.as_slice(),
                b.1.as_slice(),
            ),
            (None, None) => true,
            _ => false,
        };
        same_audio && same_video
    }
}

/// A boxed part as the boxer hands it back.
#[derive(Debug)]
pub struct BoxedPart {
    pub init: Option<Vec<u8>>,
    pub key: bool,
    pub data: Vec<u8>,
    pub duration: u32,
}

/// What a [`BoxedPart`] holds.
pub struct BoxedPartView {
    pub init: Option<Seq<u8>>,
    pub key: bool,
    pub data: Seq<u8>,
    pub duration: u32,
}

impl View for BoxedPart {
    type V = BoxedPartView;

    open spec fn view(&self) -> BoxedPartView {
        BoxedPartView {
            init: crate::bytes::optional_view(self.init),
            key: self.key,
            data: self.data@,
            duration: self.duration,
        }
    }
}

/// Everything that a part is boxed from.
pub struct PartInput {
    pub seq: u32,
    pub config: TrackConfigView,
    pub video: Seq<AccessUnitView>,
    pub audio: Seq<AccessUnitView>,
    pub next_dts: u64,
    pub include_init: bool,
}

/// The part that the boxer makes of some units, whose audio tells by itself how it is coded.
pub uninterp spec fn boxed(input: PartInput) -> BoxedPartView;

/// Everything that a part of uncompressed audio is boxed from.
pub struct PcmPartInput {
    pub seq: u32,
    pub audio: Seq<AccessUnitView>,
    pub include_init: bool,
    pub pcm: PcmAudioConfig,
}

/// The part that the boxer makes of uncompressed audio.
pub uninterp spec fn boxed_pcm(input: PcmPartInput) -> BoxedPartView;

/// Whether a part can be decoded without the one before it.
pub open spec fn opens_decoding(config: TrackConfigView, video: Seq<AccessUnitView>) -> bool {
    config.avcc is None || video.len() == 0 || exists|i: int|
        0 <= i < video.len() && (#[trigger] video[i]).key
}

/// The bytes of units, one behind the other.
pub open spec fn joined(units: Seq<AccessUnitView>) -> Seq<u8>
    decreases units.len(),
{
    if units.len() == 0 {
        Seq::empty()
    } else {
        joined(units.drop_last()) + units.last().data
    }
}

/// Whether so many bytes of so many units are few enough for the sizes and places that boxes state.
pub open spec fn box_fits(bytes: nat, units: nat) -> bool {
    bytes + 16 * units + 512 <= i32::MAX
}

/// Whether samples of a layout can be boxed.
pub open spec fn pcm_fits(pcm: PcmAudioConfig) -> bool {
    &&& pcm.sample_rate > 0
    &&& pcm.channel_count > 0
    &&& match pcm.sample_kind {
        PcmSampleKind::Integer => pcm.sample_size == 16 || pcm.sample_size == 24
            || pcm.sample_size == 32,
        PcmSampleKind::Float => pcm.sample_size == 32 || pcm.sample_size == 64,
    }
}

/// The units of uncompressed audio that are boxed: those of whole frames that last a millisecond,
/// rounded, and are not too long for a box.
pub open spec fn boxable(pcm: PcmAudioConfig) -> spec_fn(AccessUnitView) -> bool {
    |unit: AccessUnitView|
        {
            &&& pcm_fits(pcm)
            &&& 0 < unit.data.len() <= u32::MAX
            &&& unit.data.len() as int % pcm.frame_bytes() == 0
            &&& millis_of_samples(
                unit.data.len() as int / pcm.frame_bytes(),
                pcm.sample_rate as int,
            ) > 0
        }
}

/// Calls `wavey_boxer::fmp4::box_fmp4_with_init`.
///
/// Claimed of it: the part depends on the arguments alone, an initialisation is written only where
/// it is asked for, and the part counts as a key part where it has no video or a key picture. A part
/// that is not empty has a box of samples, and where the video is configured that box opens with the
/// bytes of the pictures, one behind the other. What the boxes around the samples say of them, and
/// how the audio behind the pictures is framed, is left unsaid. A part is not empty where there are
/// bytes of pictures, few enough to be boxed, and empty where there are neither pictures nor audio.
///
/// Audio is left out whose heads it cannot compute with: it cuts the head off an AAC frame of the
/// length that the frame declares, and for FLAC counts a block's samples, a sample's bits and the
/// milliseconds of all frames.
#[verifier::external_body]
pub(crate) fn box_units(
    seq: u32,
    config: &TrackConfig,
    video: Vec<AccessUnit>,
    audio: Vec<AccessUnit>,
    next_dts: u64,
    include_init: bool,
) -> (r: BoxedPart)
    requires
        audio_sound(units_view(audio@)),
    ensures
        r@ == boxed(
            PartInput {
                seq,
                config: config@,
                video: units_view(video@),
                audio: units_view(audio@),
                next_dts,
                include_init,
            },
        ),
        !include_init ==> r@.init is None,
        r@.key == opens_decoding(config@, units_view(video@)),
        config@.avcc is Some && joined(units_view(video@)).len() > 0 && box_fits(
            joined(units_view(video@)).len() + joined(units_view(audio@)).len(),
            video@.len() + audio@.len(),
        ) ==> r@.data.len() > 0,
        (config@.avcc is None || joined(units_view(video@)).len() == 0) && audio@.len() == 0
            ==> r@.data.len() == 0,
        r@.data.len() > 0 ==> samples_from(r@.data, 0) is Some,
        r@.data.len() > 0 && config@.avcc is Some ==> starts_with(
            samples_from(r@.data, 0)->0,
            joined(units_view(video@)),
        ),
{
    let unit = |AccessUnit { key, pts, dts, data, stream_type, id }| Unit { key, pts, dts, data: data.into(), stream_type, id };
    let avcc = config.avcc.clone().map(|a| Record { profile_idc: a.profile_idc,
        constraint_set_flag: a.constraint_set_flag, level_idc: a.level_idc,
        sequence_parameter_set: a.sequence_parameter_set.into(), picture_parameter_set: a.picture_parameter_set.into() });
    let part = box_fmp4_with_init(seq, Config { width: config.width, height: config.height, avcc },
        video.into_iter().map(unit).collect(), audio.into_iter().map(unit).collect(), next_dts, include_init);
    BoxedPart { init: part.init.map(|i| i.to_vec()), key: part.key, data: part.data.to_vec(), duration: part.duration }
}

/// Calls `wavey_boxer::fmp4::box_fmp4_with_init_and_pcm` with audio alone.
///
/// Claimed of it: the part depends on the arguments alone, an initialisation is written only where
/// it is asked for, and the part counts as a key part. The box of samples of a part that is not empty
/// holds the bytes of the units that can be boxed, one behind the other, and nothing else. It is
/// empty where there are no such bytes, and not where there are and they are few enough to be boxed.
/// What the boxes around the samples say of them is left unsaid.
#[verifier::external_body]
pub(crate) fn box_pcm_units(
    seq: u32,
    audio: Vec<AccessUnit>,
    include_init: bool,
    pcm: PcmAudioConfig,
) -> (r: BoxedPart)
    ensures
        r@ == boxed_pcm(PcmPartInput { seq, audio: units_view(audio@), include_init, pcm }),
        !include_init ==> r@.init is None,
        r@.key,
        joined(units_view(audio@).filter(boxable(pcm))).len() == 0 ==> r@.data.len() == 0,
        joined(units_view(audio@).filter(boxable(pcm))).len() > 0 && box_fits(
            joined(units_view(audio@).filter(boxable(pcm))).len(),
            audio@.len(),
        ) ==> r@.data.len() > 0,
        r@.data.len() > 0 ==> samples_from(r@.data, 0) == Some(
            joined(units_view(audio@).filter(boxable(pcm))),
        ),
{
    let unit = |AccessUnit { key, pts, dts, data, stream_type, id }| Unit { key, pts, dts, data: data.into(), stream_type, id };
    let pcm = BoxerPcm { sample_rate: pcm.sample_rate, channel_count: pcm.channel_count, sample_size: pcm.sample_size,
        little_endian: pcm.little_endian, sample_kind: match pcm.sample_kind {
            PcmSampleKind::Integer => BoxerKind::Integer, PcmSampleKind::Float => BoxerKind::Float } };
    let config = Config { width: 0, height: 0, avcc: None };
    let audio = audio.into_iter().map(unit).collect();
    let part = box_fmp4_with_init_and_pcm(seq, config, Vec::new(), audio, 0, include_init, Some(pcm));
    BoxedPart { init: part.init.map(|i| i.to_vec()), key: part.key, data: part.data.to_vec(), duration: part.duration }
}

/// Sound is configured as the first unit says that says it.
pub proof fn the_first_head_configures_sound(units: Seq<AccessUnitView>)
    ensures
        match audio_signature(units) {
            Some(signature) => exists|k: int|
                0 <= k < units.len() && (#[trigger] adts_fields(units[k].data)) is Some
                    && signature.stream_type == units[k].stream_type && signature.profile
                    == adts_fields(units[k].data)->Some_0.profile && signature.sampling_frequency
                    == adts_fields(units[k].data)->Some_0.sampling_frequency
                    && signature.channel_configuration == adts_fields(
                    units[k].data,
                )->Some_0.channel_configuration && forall|j: int|
                    0 <= j < k ==> (#[trigger] adts_fields(units[j].data)) is None,
            None => forall|j: int|
                0 <= j < units.len() ==> (#[trigger] adts_fields(units[j].data)) is None,
        },
    decreases units.len(),
{
    if units.len() > 0 && adts_fields(units[0].data) is None {
        let rest = units.skip(1);
        the_first_head_configures_sound(rest);
        assert forall|j: int| 0 <= j < rest.len() implies #[trigger] rest[j] == units[j + 1] by {}
        match audio_signature(rest) {
            Some(signature) => {
                let k = choose|k: int|
                    0 <= k < rest.len() && (#[trigger] adts_fields(rest[k].data)) is Some
                        && signature.stream_type == rest[k].stream_type && signature.profile
                        == adts_fields(rest[k].data)->Some_0.profile
                        && signature.sampling_frequency == adts_fields(
                        rest[k].data,
                    )->Some_0.sampling_frequency && signature.channel_configuration == adts_fields(
                        rest[k].data,
                    )->Some_0.channel_configuration && forall|j: int|
                        0 <= j < k ==> (#[trigger] adts_fields(rest[j].data)) is None;
                assert(units[k + 1] == rest[k]);
                assert(adts_fields(units[k + 1].data) is Some);
                assert forall|j: int| 0 <= j < k + 1 implies (#[trigger] adts_fields(
                    units[j].data,
                )) is None by {
                    if j > 0 {
                        assert(rest[j - 1] == units[j]);
                        assert(adts_fields(rest[j - 1].data) is None);
                    }
                }
            },
            None => {
                assert forall|j: int| 0 <= j < units.len() implies (#[trigger] adts_fields(
                    units[j].data,
                )) is None by {
                    if j > 0 {
                        assert(rest[j - 1] == units[j]);
                        assert(adts_fields(rest[j - 1].data) is None);
                    }
                }
            },
        }
    } else if units.len() > 0 {
        assert(adts_fields(units[0].data) is Some);
    }
}

/// The head of an AAC frame is read as it is written: its profile, which of the rates it has, and its
/// channels, whose high bit stands in another byte than the others.
pub proof fn heads_are_read_as_written(data: Seq<u8>, profile: int, rate: int, channels: int, flag: int)
    requires
        data.len() >= 7,
        0 <= profile < 4,
        0 <= rate < 16,
        0 <= channels < 8,
        0 <= flag < 2,
        data[0] == 0xff,
        data[1] == 0xf0 || data[1] == 0xf1,
        data[2] == profile * 64 + rate * 4 + flag * 2 + channels / 4,
        data[3] / 64 == channels % 4,
    ensures
        adts_fields(data) is Some <==> rate < 13,
        adts_fields(data) matches Some(fields) ==> fields.profile == profile
            && fields.channel_configuration == channels && fields.sampling_frequency
            == adts_frequencies()[rate],
{
}

/// What does not open as the head of an AAC frame is none.
pub proof fn only_heads_are_read(data: Seq<u8>)
    ensures
        data.len() < 7 ==> adts_fields(data) is None,
        data.len() > 0 && data[0] != 0xff ==> adts_fields(data) is None,
        data.len() > 1 && data[1] != 0xf0 && data[1] != 0xf1 ==> adts_fields(data) is None,
{
}

/// The rates are halves of those three places before them, from the three highest down, and the last
/// is a third of the rate five places before it.
pub proof fn rates_are_halved(i: int)
    ensures
        adts_frequencies().len() == 13,
        adts_frequencies()[0] == 96_000 && adts_frequencies()[1] == 88_200 && adts_frequencies()[2]
            == 64_000,
        0 <= i < 9 ==> adts_frequencies()[i] == 2 * adts_frequencies()[i + 3],
        adts_frequencies()[7] == 3 * adts_frequencies()[12],
{
}

/// Samples are boxed where there are any and each takes whole bytes: two to four of a whole number, and
/// four or eight of a fraction.
pub proof fn samples_take_whole_bytes(pcm: PcmAudioConfig)
    ensures
        pcm_fits(pcm) <==> pcm.sample_rate > 0 && pcm.channel_count > 0 && pcm.sample_size % 8 == 0
            && 16 <= pcm.sample_size <= 64 && (if pcm.sample_kind == PcmSampleKind::Float {
            pcm.sample_size % 32 == 0
        } else {
            pcm.sample_size <= 32
        }),
{
}

} // verus!
