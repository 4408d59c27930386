//! The source: what it plays, in which epochs it goes out, and what is counted of it.
use crate::arith::cap_u64;
use crate::bytes::copy_bytes;
use crate::probe::format::ProbePayload;
use crate::probe::latency::{deterministic_noise_sample, noise};
use crate::probe::plan::{
    first_sample_of, repair_symbols, repairs_for, SourceGroupPlan, FRAME_COUNT, MAX_DATAGRAM_BYTES,
    SAMPLE_RATE,
};
use crate::service::stream_fec::datagram_views;
use crate::text::{append_decimal, decimal};
use music_audio_session::{MultichannelAudioSender, MultichannelAudioSessionConfig};
use raptorq_datagram_fec::{
    AudioPayloadKind, AudioSampleFormat, EncodedMultichannelAudioEpoch,
    MultichannelAudioDatagramRole, MultichannelAudioEpoch, MultichannelAudioFecConfig,
    MultichannelAudioGroup,
};
use raptorq_fec_transport::MultichannelAudioTransportAdapter;
use soundkit_flac::{FlacFrameConfig, FlacFrameEncoder, FlacProfile};
use vstd::prelude::*;
use vstd::string::*;

verus! {

/// The three bytes of a sample, low byte first.
pub open spec fn sample_bytes(sample: i32) -> Seq<u8> {
    let wrapped = sample as int % 0x100_0000;
    seq![(wrapped % 256) as u8, (wrapped / 256 % 256) as u8, (wrapped / 65_536) as u8]
}

/// The bytes of samples.
pub open spec fn samples_bytes(samples: Seq<i32>) -> Seq<u8>
    decreases samples.len(),
{
    if samples.len() == 0 {
        Seq::empty()
    } else {
        samples_bytes(samples.drop_last()) + sample_bytes(samples.last())
    }
}

/// Writes samples of 24 bits, low byte first.
pub fn pack_s24le(samples: &Vec<i32>) -> (r: Vec<u8>)
    ensures
        r@ == samples_bytes(samples@),
        r@.len() == 3 * samples@.len(),
{
    let mut bytes: Vec<u8> = Vec::new();
    let mut i: usize = 0;
    assert(bytes@ =~= samples_bytes(samples@.take(0)));
    while i < samples.len()
        invariant
            i <= samples@.len(),
            bytes@ == samples_bytes(samples@.take(i as int)),
            bytes@.len() == 3 * i,
        decreases samples@.len() - i,
    {
        let ghost older = bytes@;
        let ghost head = samples@.take(i + 1);
        assert(head.drop_last() =~= samples@.take(i as int));
        let sample: i64 = samples[i] as i64;
        let wrapped: i64 = if sample < 0 {
            (sample + 0x1_0000_0000) % 0x100_0000
        } else {
            sample % 0x100_0000
        };
        assert(wrapped == samples@[i as int] as int % 0x100_0000);
        bytes.push((wrapped % 256) as u8);
        bytes.push((wrapped / 256 % 256) as u8);
        bytes.push((wrapped / 65_536) as u8);
        assert(bytes@ =~= older + sample_bytes(samples@[i as int]));
        i = i + 1;
    }
    assert(samples@.take(i as int) =~= samples@);
    bytes
}

/// The channel that a group's place is.
pub open spec fn channel_at(channel_start: u16, local: int) -> u16 {
    if channel_start + local > u16::MAX {
        u16::MAX
    } else {
        (channel_start + local) as u16
    }
}

/// The noise of a group's epoch: frame by frame, channel by channel.
pub open spec fn noise_samples(first_sample: u64, channel_start: u16, channels: u16) -> Seq<i32> {
    Seq::new(
        (FRAME_COUNT * channels) as nat,
        |i: int|
            noise(
                cap_u64(first_sample + i / channels as int) as u64,
                channel_at(channel_start, i % channels as int),
            ) as i32,
    )
}

/// The noise of a group's epoch.
pub fn noise_s24le(first_sample: u64, channel_start: u16, channels: u16) -> (r: Vec<u8>)
    requires
        channels > 0,
    ensures
        r@ == samples_bytes(noise_samples(first_sample, channel_start, channels)),
        r@.len() == FRAME_COUNT * channels * 3,
{
    let ghost wanted = noise_samples(first_sample, channel_start, channels);
    let total: u64 = (FRAME_COUNT as u64) * (channels as u64);
    let mut samples: Vec<i32> = Vec::new();
    let mut i: u64 = 0;
    while i < total
        invariant
            channels > 0,
            i <= total,
            total == FRAME_COUNT * channels,
            wanted == noise_samples(first_sample, channel_start, channels),
            samples@ == wanted.take(i as int),
        decreases total - i,
    {
        let frame: u64 = i / (channels as u64);
        let local: u16 = (i % (channels as u64)) as u16;
        let channel: u16 = channel_start.saturating_add(local);
        samples.push(deterministic_noise_sample(first_sample.saturating_add(frame), channel));
        assert(samples@ =~= wanted.take(i + 1));
        i = i + 1;
    }
    assert(wanted.take(i as int) =~= wanted);
    pack_s24le(&samples)
}

/// Why a source does not go on.
#[derive(Debug, Clone, Copy, PartialEq, Eq, Structural)]
pub enum SourceError {
    /// No datagram is long enough.
    Geometry,
    /// An epoch has more symbols than there are numbers for them.
    Symbols,
    /// A group's samples cannot be coded.
    Flac,
    /// An epoch cannot be protected.
    Epoch,
    /// A datagram went out in part.
    PartialSend { sent: usize, length: usize },
}

impl SourceError {
    /// What the error says.
    pub open spec fn words(self) -> Seq<char> {
        match self {
            SourceError::Geometry => "invalid AEP1 geometry"@,
            SourceError::Symbols => "too many AEP1 repair symbols"@,
            SourceError::Flac => "failed to encode FLAC source frame"@,
            SourceError::Epoch => "failed to encode AEP1 epoch"@,
            SourceError::PartialSend { sent, length } => "partial AEP1 datagram send: "@ + decimal(
                sent as nat,
            ) + " of "@ + decimal(length as nat),
        }
    }

    /// What the error says.
    pub fn message(self) -> (r: String)
        ensures
            r@ == self.words(),
    {
        match self {
            SourceError::Geometry => "invalid AEP1 geometry".to_owned(),
            SourceError::Symbols => "too many AEP1 repair symbols".to_owned(),
            SourceError::Flac => "failed to encode FLAC source frame".to_owned(),
            SourceError::Epoch => "failed to encode AEP1 epoch".to_owned(),
            SourceError::PartialSend { sent, length } => {
                let mut text = "partial AEP1 datagram send: ".to_owned();
                append_decimal(&mut text, sent as u64);
                text.append(" of ");
                append_decimal(&mut text, length as u64);
                text
            },
        }
    }
}

/// Bytes of a datagram in front of and behind the symbol that it carries.
pub const AUDIO_DATAGRAM_FRAMING: usize = 48;

/// Bytes of a symbol in front of the part of a group that it carries.
pub const AUDIO_SHARD_HEADER_LEN: usize = 72;

/// Bytes of a group that a datagram has room for, where it has any and its symbol is not too long.
pub open spec fn payload_room(max_datagram_bytes: usize) -> Option<usize> {
    let symbol = max_datagram_bytes - AUDIO_DATAGRAM_FRAMING;
    if symbol <= AUDIO_SHARD_HEADER_LEN || symbol > u16::MAX {
        None
    } else {
        Some((symbol - AUDIO_SHARD_HEADER_LEN) as usize)
    }
}

/// Calls `raptorq_datagram_fec::MultichannelAudioFecConfig::max_fragment_payload` on what is
/// configured for datagrams of a length.
///
/// Claimed of it: the room is what the datagram's framing and the symbol's header leave of the
/// length, where that is at least a byte and the symbol's length fits a `u16`.
#[verifier::external_body]
fn fragment_payload(max_datagram_bytes: usize) -> (r: Option<usize>)
    ensures
        r == payload_room(max_datagram_bytes),
{
    MultichannelAudioTransportAdapter::udp(max_datagram_bytes)
        .prepare_fec_config(MultichannelAudioFecConfig::default())
        .max_fragment_payload()
        .ok()
}

/// The coder of a source's epochs.
#[verifier::external_type_specification]
#[verifier::external_body]
pub struct ExMultichannelAudioSender(MultichannelAudioSender);

/// The coder of a group's samples.
#[verifier::external_type_specification]
#[verifier::external_body]
pub struct ExFlacFrameEncoder(FlacFrameEncoder);

/// Source symbols that an epoch has at most.
pub const MAX_AUDIO_SOURCE_SYMBOLS: u32 = 256;

/// Numbers that there are for the symbols of an epoch.
pub const EPOCH_SYMBOL_NUMBERS: u32 = 16_777_216;

/// How a payload of samples is numbered in an epoch.
pub const EPOCH_PAYLOAD_PCM: u8 = 1;

/// How a payload of FLAC frames is numbered in an epoch.
pub const EPOCH_PAYLOAD_FLAC: u8 = 3;

/// How samples of 24 bits, low byte first, are numbered in an epoch.
pub const EPOCH_SAMPLES_S24LE: u8 = 2;

/// The symbols that a coder makes of an epoch at most, source and repair symbols together.
pub uninterp spec fn symbol_limit(sender: MultichannelAudioSender) -> int;

/// A coder that has coded nothing, for datagrams of a length and a number of repair symbols.
pub uninterp spec fn fresh_sender(max_datagram_bytes: usize, repair_symbols: u32) -> MultichannelAudioSender;

/// Calls `music_audio_session::MultichannelAudioSender::new`.
///
/// Claimed of it: the coder depends on the two numbers alone, and makes that many repair symbols of an
/// epoch and at most `MAX_AUDIO_SOURCE_SYMBOLS` source symbols, which is what is configured unless
/// told otherwise.
#[verifier::external_body]
fn new_sender(max_datagram_bytes: usize, repair_symbols: u32) -> (r: MultichannelAudioSender)
    ensures
        r == fresh_sender(max_datagram_bytes, repair_symbols),
        symbol_limit(r) == MAX_AUDIO_SOURCE_SYMBOLS + repair_symbols,
{
    let mut fec = MultichannelAudioTransportAdapter::udp(max_datagram_bytes)
        .prepare_fec_config(MultichannelAudioFecConfig::default());
    fec.repair_symbols = repair_symbols;
    MultichannelAudioSender::new(MultichannelAudioSessionConfig {
        fec,
        ..MultichannelAudioSessionConfig::default()
    })
}

/// A datagram of an epoch.
#[derive(Debug)]
pub struct EpochDatagram {
    pub payload: Vec<u8>,
    pub repair: bool,
}

/// What a list of datagrams holds, and whether each is a repair.
pub open spec fn epoch_view(datagrams: Seq<EpochDatagram>) -> Seq<(Seq<u8>, bool)> {
    datagrams.map_values(|datagram: EpochDatagram| (datagram.payload@, datagram.repair))
}

/// What goes out as an epoch: its number, its groups and what each of them holds.
#[derive(Debug)]
pub struct SourceEpoch {
    pub session_id: u64,
    pub epoch_id: u64,
    pub pts_samples: u64,
    pub sample_rate: u32,
    pub frame_count: u32,
    pub config_generation: u32,
    pub flags: u8,
    /// By its number.
    pub payload_kind: u8,
    /// By its number.
    pub sample_format: u8,
    pub groups: Vec<SourceGroupPlan>,
    pub payloads: Vec<Vec<u8>>,
}

/// What a [`SourceEpoch`] holds.
pub struct EpochView {
    pub session_id: u64,
    pub epoch_id: u64,
    pub pts_samples: u64,
    pub sample_rate: u32,
    pub frame_count: u32,
    pub config_generation: u32,
    pub flags: u8,
    /// By its number.
    pub payload_kind: u8,
    /// By its number.
    pub sample_format: u8,
    pub groups: Seq<SourceGroupPlan>,
    pub payloads: Seq<Seq<u8>>,
}

impl View for SourceEpoch {
    type V = EpochView;

    open spec fn view(&self) -> EpochView {
        EpochView {
            session_id: self.session_id,
            epoch_id: self.epoch_id,
            pts_samples: self.pts_samples,
            sample_rate: self.sample_rate,
            frame_count: self.frame_count,
            config_generation: self.config_generation,
            flags: self.flags,
            payload_kind: self.payload_kind,
            sample_format: self.sample_format,
            groups: self.groups@,
            payloads: datagram_views(self.payloads@),
        }
    }
}

/// An epoch that is coded.
#[verifier::external_type_specification]
#[verifier::external_body]
pub struct ExEncodedMultichannelAudioEpoch(EncodedMultichannelAudioEpoch);

/// What coding an epoch leaves of a coder, and what it gives, or nothing where it is refused.
pub uninterp spec fn epoch_coded(sender: MultichannelAudioSender, epoch: EpochView) -> (
    MultichannelAudioSender,
    Option<EncodedMultichannelAudioEpoch>,
);

/// Calls `music_audio_session::MultichannelAudioSender::encode_epoch`.
///
/// Claimed of it: what it gives, and what becomes of the coder, depends on the coder and the epoch
/// alone, and how many symbols it makes at most stays. It numbers an epoch's symbols in 24 bits, which
/// is as many as it may have.
#[verifier::external_body]
fn code_epoch(sender: &mut MultichannelAudioSender, e: &SourceEpoch) -> (r: Option<
    EncodedMultichannelAudioEpoch,
>)
    requires
        symbol_limit(*old(sender)) <= EPOCH_SYMBOL_NUMBERS,
    ensures
        epoch_coded(*old(sender), e@) == (*final(sender), r),
        symbol_limit(*final(sender)) == symbol_limit(*old(sender)),
{
    let payload_kind = AudioPayloadKind::try_from(e.payload_kind).ok()?;
    let sample_format = AudioSampleFormat::try_from(e.sample_format).ok()?;
    let groups: Vec<_> = e.groups.iter().zip(&e.payloads).map(|(g, payload)| MultichannelAudioGroup {
        group_id: g.group_id, channel_start: g.channel_start, channel_count: g.channel_count, payload_kind,
        sample_format, flags: e.flags, payload }).collect();
    sender.encode_epoch(MultichannelAudioEpoch { session_id: e.session_id, config_generation: e.config_generation,
        epoch_id: e.epoch_id, pts_samples: e.pts_samples, sample_rate: e.sample_rate,
        frame_count: e.frame_count, groups: &groups }).ok()
}

/// The datagrams of an epoch that is coded, each a payload and whether it is a repair, or nothing
/// where one is too long.
pub uninterp spec fn epoch_wrapped(coded: EncodedMultichannelAudioEpoch, max_datagram_bytes: usize) -> Option<
    Seq<(Seq<u8>, bool)>,
>;

/// What a list of datagrams that may be missing holds.
pub open spec fn datagrams_given(r: Option<Vec<EpochDatagram>>) -> Option<Seq<(Seq<u8>, bool)>> {
    match r {
        Some(datagrams) => Some(epoch_view(datagrams@)),
        None => None,
    }
}

/// Calls `raptorq_fec_transport::MultichannelAudioTransportAdapter::wrap_epoch`.
///
/// Claimed of it: the datagrams depend on the coded epoch and the length alone.
#[verifier::external_body]
fn wrap_epoch(coded: EncodedMultichannelAudioEpoch, max_datagram_bytes: usize) -> (r: Option<
    Vec<EpochDatagram>,
>)
    ensures
        datagrams_given(r) == epoch_wrapped(coded, max_datagram_bytes),
{
    let wrapped = MultichannelAudioTransportAdapter::udp(max_datagram_bytes).wrap_epoch(coded).ok()?;
    Some(wrapped.datagrams.into_iter().map(|d| EpochDatagram { payload: d.payload.to_vec(),
        repair: matches!(d.role, MultichannelAudioDatagramRole::Repair { .. }) }).collect())
}

/// What sending an epoch leaves of a coder, and the datagrams that it goes out in, or nothing where
/// it does not.
pub open spec fn epoch_sent(sender: MultichannelAudioSender, epoch: EpochView) -> (
    MultichannelAudioSender,
    Option<Seq<(Seq<u8>, bool)>>,
) {
    let (after, coded) = epoch_coded(sender, epoch);
    match coded {
        Some(coded) => (after, epoch_wrapped(coded, MAX_DATAGRAM_BYTES)),
        None => (after, None),
    }
}

/// How much work goes into coding a frame.
#[derive(Debug, Clone, Copy, PartialEq, Eq, Structural)]
pub enum FlacEffort {
    /// As much as can be done while samples come in.
    Realtime,
}

/// A coder that has coded nothing, for samples at a rate, in so many channels, bits and frames, with
/// so much work, where there is one.
pub uninterp spec fn fresh_flac(
    sample_rate: u32,
    channels: u16,
    bits_per_sample: u8,
    frame_count: u32,
    effort: FlacEffort,
) -> Option<FlacFrameEncoder>;

/// Calls `soundkit_flac::FlacFrameEncoder::new`.
///
/// Claimed of it: the coder depends on the four numbers and the effort alone. Every coder is made
/// here, for the one rate, width and length of frame that an epoch has.
#[verifier::external_body]
fn new_flac(
    sample_rate: u32,
    channels: u16,
    bits_per_sample: u8,
    frame_count: u32,
    effort: FlacEffort,
) -> (r: Option<FlacFrameEncoder>)
    requires
        sample_rate == 48_000,
        bits_per_sample == 24,
        frame_count == 240,
    ensures
        r == fresh_flac(sample_rate, channels, bits_per_sample, frame_count, effort),
{
    let profile = match effort {
        FlacEffort::Realtime => FlacProfile::Realtime,
    };
    FlacFrameConfig::new(sample_rate, channels, bits_per_sample, frame_count, profile)
        .and_then(FlacFrameEncoder::new)
        .ok()
}

/// What coding samples leaves of a coder, and the frame that it gives, or nothing where they are
/// refused.
pub uninterp spec fn flac_coded(coder: FlacFrameEncoder, pcm: Seq<u8>) -> (
    FlacFrameEncoder,
    Option<Seq<u8>>,
);

/// Calls `soundkit_flac::FlacFrameEncoder::encode_s24le` and keeps the frame.
///
/// Claimed of it: the frame, and what becomes of the coder, depends on the coder and the samples
/// alone.
#[verifier::external_body]
fn code_flac(coder: &mut FlacFrameEncoder, pcm: &[u8]) -> (r: Option<Vec<u8>>)
    ensures
        flac_coded(*old(coder), pcm@) == (*final(coder), crate::bytes::optional_view(r)),
{
    coder.encode_s24le(pcm).ok().map(|frame| frame.payload)
}

/// What a source counts.
#[derive(Debug, Clone, Copy, PartialEq, Eq, Structural)]
pub struct SendTotals {
    pub source_datagrams: u64,
    pub repair_datagrams: u64,
    pub wire_bytes: u64,
    pub lossless_payload_bytes: u64,
}

/// A source.
pub struct ProbeSource {
    pub session_id: u64,
    pub payload: ProbePayload,
    pub groups: Vec<SourceGroupPlan>,
    /// One for each group, where samples are coded.
    pub coders: Vec<FlacFrameEncoder>,
    pub sender: MultichannelAudioSender,
    pub totals: SendTotals,
}

/// What a [`ProbeSource`] holds.
pub struct SourceView {
    pub session_id: u64,
    pub payload: ProbePayload,
    pub groups: Seq<SourceGroupPlan>,
    pub coders: Seq<FlacFrameEncoder>,
    pub sender: MultichannelAudioSender,
    pub totals: SendTotals,
}

impl View for ProbeSource {
    type V = SourceView;

    open spec fn view(&self) -> SourceView {
        SourceView {
            session_id: self.session_id,
            payload: self.payload,
            groups: self.groups@,
            coders: self.coders@,
            sender: self.sender,
            totals: self.totals,
        }
    }
}

/// The coders of groups, where there is one for each.
pub open spec fn fresh_coders(groups: Seq<SourceGroupPlan>) -> Option<Seq<FlacFrameEncoder>>
    decreases groups.len(),
{
    if groups.len() == 0 {
        Some(Seq::empty())
    } else {
        match fresh_coders(groups.drop_last()) {
            None => None,
            Some(coders) => match fresh_flac(
                SAMPLE_RATE,
                groups.last().channel_count,
                24,
                FRAME_COUNT,
                FlacEffort::Realtime,
            ) {
                Some(coder) => Some(coders.push(coder)),
                None => None,
            },
        }
    }
}

/// What is left of coders, and what the samples of groups are sent as: as they are, or coded; or
/// nothing where a group is refused.
pub open spec fn group_payloads(
    payload: ProbePayload,
    coders: Seq<FlacFrameEncoder>,
    pcm: Seq<Seq<u8>>,
) -> (Seq<FlacFrameEncoder>, Option<Seq<Seq<u8>>>)
    decreases pcm.len(),
{
    if pcm.len() == 0 {
        (coders, Some(Seq::empty()))
    } else {
        let (before, payloads) = group_payloads(payload, coders, pcm.drop_last());
        let at = pcm.len() - 1;
        match payloads {
            None => (before, None),
            Some(payloads) => if payload == ProbePayload::Pcm {
                (before, Some(payloads.push(pcm.last())))
            } else {
                let (coder, frame) = flac_coded(before[at], pcm.last());
                (
                    before.update(at, coder),
                    match frame {
                        Some(frame) => Some(payloads.push(frame)),
                        None => None,
                    },
                )
            },
        }
    }
}

/// The bytes that payloads add to a count, up to the most that it holds.
pub open spec fn bytes_added(count: u64, payloads: Seq<Seq<u8>>) -> u64
    decreases payloads.len(),
{
    if payloads.len() == 0 {
        count
    } else {
        cap_u64(bytes_added(count, payloads.drop_last()) + payloads.last().len()) as u64
    }
}

impl SourceView {
    /// Whether there is a coder for each group, where samples are coded, and a number for each symbol
    /// of an epoch.
    pub open spec fn wf(self) -> bool {
        &&& self.payload == ProbePayload::Flac ==> self.coders.len() == self.groups.len()
        &&& symbol_limit(self.sender) <= EPOCH_SYMBOL_NUMBERS
    }

    /// An epoch of the source.
    pub open spec fn epoch(self, epoch_id: u64, payloads: Seq<Seq<u8>>) -> EpochView {
        EpochView {
            session_id: self.session_id,
            epoch_id,
            pts_samples: cap_u64(epoch_id * FRAME_COUNT) as u64,
            sample_rate: SAMPLE_RATE,
            frame_count: FRAME_COUNT,
            config_generation: 1,
            flags: 0,
            payload_kind: if self.payload == ProbePayload::Flac {
                EPOCH_PAYLOAD_FLAC
            } else {
                EPOCH_PAYLOAD_PCM
            },
            sample_format: EPOCH_SAMPLES_S24LE,
            groups: self.groups,
            payloads,
        }
    }

    /// The source once a datagram went out.
    pub open spec fn sent(self, repair: bool, length: usize) -> SourceView {
        let totals = SendTotals {
            wire_bytes: cap_u64(self.totals.wire_bytes + length) as u64,
            ..self.totals
        };
        SourceView {
            totals: if repair {
                SendTotals {
                    repair_datagrams: cap_u64(totals.repair_datagrams + 1) as u64,
                    ..totals
                }
            } else {
                SendTotals {
                    source_datagrams: cap_u64(totals.source_datagrams + 1) as u64,
                    ..totals
                }
            },
            ..self
        }
    }
}

impl ProbeSource {
    /// Sets a source up for groups. It is refused where an epoch could have more symbols than there
    /// are numbers for.
    pub fn new(
        session_id: u64,
        payload: ProbePayload,
        groups: Vec<SourceGroupPlan>,
        repair_percent: u32,
        min_repair_symbols: u32,
    ) -> (r: Result<Self, SourceError>)
        ensures
            match payload_room(MAX_DATAGRAM_BYTES) {
                None => r matches Err(error) && error == SourceError::Geometry,
                Some(room) => if repairs_for(
                    groups@,
                    room as int,
                    repair_percent,
                    min_repair_symbols,
                ) > EPOCH_SYMBOL_NUMBERS - MAX_AUDIO_SOURCE_SYMBOLS {
                    r matches Err(error) && error == SourceError::Symbols
                } else if payload == ProbePayload::Flac && fresh_coders(groups@) is None {
                    r matches Err(error) && error == SourceError::Flac
                } else {
                    &&& r matches Ok(source)
                    &&& source@ == (SourceView {
                        session_id,
                        payload,
                        groups: groups@,
                        coders: if payload == ProbePayload::Flac {
                            fresh_coders(groups@)->0
                        } else {
                            Seq::empty()
                        },
                        sender: fresh_sender(
                            MAX_DATAGRAM_BYTES,
                            repairs_for(groups@, room as int, repair_percent, min_repair_symbols) as u32,
                        ),
                        totals: SendTotals {
                            source_datagrams: 0,
                            repair_datagrams: 0,
                            wire_bytes: 0,
                            lossless_payload_bytes: 0,
                        },
                    })
                    &&& source@.wf()
                },
            },
    {
        let room: usize = match fragment_payload(MAX_DATAGRAM_BYTES) {
            Some(room) => room,
            None => {
                return Err(SourceError::Geometry);
            },
        };
        let repairs: u32 = repair_symbols(&groups, room, repair_percent, min_repair_symbols);
        if repairs > EPOCH_SYMBOL_NUMBERS - MAX_AUDIO_SOURCE_SYMBOLS {
            return Err(SourceError::Symbols);
        }
        let sender = new_sender(MAX_DATAGRAM_BYTES, repairs);
        let mut coders: Vec<FlacFrameEncoder> = Vec::new();
        assert(coders@ =~= Seq::<FlacFrameEncoder>::empty());
        if payload == ProbePayload::Flac {
            let mut i: usize = 0;
            assert(groups@.take(0) =~= Seq::<SourceGroupPlan>::empty());
            while i < groups.len()
                invariant
                    i <= groups@.len(),
                    payload == ProbePayload::Flac,
                    payload_room(MAX_DATAGRAM_BYTES) == Some(room),
                    repairs == repairs_for(groups@, room as int, repair_percent, min_repair_symbols),
                    repairs <= EPOCH_SYMBOL_NUMBERS - MAX_AUDIO_SOURCE_SYMBOLS,
                    coders@.len() == i,
                    fresh_coders(groups@.take(i as int)) == Some(coders@),
                decreases groups@.len() - i,
            {
                let ghost head = groups@.take(i + 1);
                assert(head.drop_last() =~= groups@.take(i as int));
                match new_flac(
                    SAMPLE_RATE,
                    groups[i].channel_count,
                    24,
                    FRAME_COUNT,
                    FlacEffort::Realtime,
                ) {
                    Some(coder) => {
                        coders.push(coder);
                    },
                    None => {
                        proof {
                            no_coders(groups@, i + 1);
                        }
                        return Err(SourceError::Flac);
                    },
                }
                i = i + 1;
            }
            assert(groups@.take(i as int) =~= groups@);
        }
        Ok(
            ProbeSource {
                session_id,
                payload,
                groups,
                coders,
                sender,
                totals: SendTotals {
                    source_datagrams: 0,
                    repair_datagrams: 0,
                    wire_bytes: 0,
                    lossless_payload_bytes: 0,
                },
            },
        )
    }

    /// The datagrams of an epoch, given the samples of each group.
    pub fn encode_epoch(&mut self, epoch_id: u64, pcm: &Vec<Vec<u8>>) -> (r: Result<
        Vec<EpochDatagram>,
        SourceError,
    >)
        requires
            old(self)@.wf(),
            pcm@.len() == old(self)@.groups.len(),
        ensures
            final(self)@.wf(),
            ({
                let before = old(self)@;
                let (coders, payloads) = group_payloads(
                    before.payload,
                    before.coders,
                    datagram_views(pcm@),
                );
                match payloads {
                    None => {
                        &&& r matches Err(error) && error == SourceError::Flac
                        &&& final(self)@.coders == coders
                        &&& final(self)@.sender == before.sender
                        &&& final(self)@.groups == before.groups
                    },
                    Some(payloads) => {
                        let (sender, datagrams) = epoch_sent(
                            before.sender,
                            before.epoch(epoch_id, payloads),
                        );
                        &&& final(self)@ == (SourceView {
                            coders,
                            sender,
                            totals: SendTotals {
                                lossless_payload_bytes: bytes_added(
                                    before.totals.lossless_payload_bytes,
                                    payloads,
                                ),
                                ..before.totals
                            },
                            ..before
                        })
                        &&& match datagrams {
                            Some(datagrams) => r matches Ok(given) && epoch_view(given@)
                                == datagrams,
                            None => r matches Err(error) && error == SourceError::Epoch,
                        }
                    },
                }
            }),
    {
        let ghost before = self@;
        let ghost samples = datagram_views(pcm@);
        let mut payloads: Vec<Vec<u8>> = Vec::new();
        let mut i: usize = 0;
        assert(datagram_views(payloads@) =~= Seq::<Seq<u8>>::empty());
        assert(samples.take(0) =~= Seq::<Seq<u8>>::empty());
        while i < pcm.len()
            invariant
                i <= pcm@.len(),
                pcm@.len() == before.groups.len(),
                before == old(self)@,
                before.wf(),
                samples == datagram_views(pcm@),
                payloads@.len() == i,
                self@.coders.len() == before.coders.len(),
                group_payloads(before.payload, before.coders, samples.take(i as int)) == (
                    self@.coders,
                    Some(datagram_views(payloads@)),
                ),
                self@ == (SourceView {
                    coders: self@.coders,
                    totals: SendTotals {
                        lossless_payload_bytes: bytes_added(
                            before.totals.lossless_payload_bytes,
                            datagram_views(payloads@),
                        ),
                        ..before.totals
                    },
                    ..before
                }),
            decreases pcm@.len() - i,
        {
            let ghost head = samples.take(i + 1);
            assert(head.drop_last() =~= samples.take(i as int));
            assert(head.last() == pcm@[i as int]@);
            let ghost older = datagram_views(payloads@);
            let payload = match self.payload {
                ProbePayload::Pcm => copy_bytes(pcm[i].as_slice()),
                ProbePayload::Flac => {
                    let ghost coders = self.coders@;
                    let mut coder = self.coders.remove(i);
                    let frame = code_flac(&mut coder, pcm[i].as_slice());
                    self.coders.insert(i, coder);
                    assert(self.coders@ =~= coders.update(i as int, coder));
                    match frame {
                        Some(frame) => frame,
                        None => {
                            proof {
                                refusal_stays(before.payload, before.coders, samples, i + 1);
                            }
                            return Err(SourceError::Flac);
                        },
                    }
                },
            };
            self.totals.lossless_payload_bytes =
            self.totals.lossless_payload_bytes.saturating_add(payload.len() as u64);
            payloads.push(payload);
            proof {
                assert(datagram_views(payloads@) =~= older.push(payload@));
                assert(datagram_views(payloads@).drop_last() =~= older);
            }
            i = i + 1;
        }
        assert(samples.take(i as int) =~= samples);
        let mut groups: Vec<SourceGroupPlan> = Vec::new();
        let mut j: usize = 0;
        while j < self.groups.len()
            invariant
                j <= self.groups@.len(),
                groups@ == self.groups@.take(j as int),
            decreases self.groups@.len() - j,
        {
            groups.push(self.groups[j]);
            assert(groups@ =~= self.groups@.take(j + 1));
            j = j + 1;
        }
        assert(groups@ =~= self.groups@);
        let epoch = SourceEpoch {
            session_id: self.session_id,
            epoch_id,
            pts_samples: first_sample_of(epoch_id),
            sample_rate: SAMPLE_RATE,
            frame_count: FRAME_COUNT,
            config_generation: 1,
            flags: 0,
            payload_kind: if self.payload == ProbePayload::Flac {
                EPOCH_PAYLOAD_FLAC
            } else {
                EPOCH_PAYLOAD_PCM
            },
            sample_format: EPOCH_SAMPLES_S24LE,
            groups,
            payloads,
        };
        let coded = match code_epoch(&mut self.sender, &epoch) {
            Some(coded) => coded,
            None => {
                return Err(SourceError::Epoch);
            },
        };
        match wrap_epoch(coded, MAX_DATAGRAM_BYTES) {
            Some(datagrams) => Ok(datagrams),
            None => Err(SourceError::Epoch),
        }
    }

    /// Counts a datagram of which so many bytes went out.
    pub fn count_sent(&mut self, datagram: &EpochDatagram, sent: usize) -> (r: Result<
        (),
        SourceError,
    >)
        ensures
            if sent != datagram.payload@.len() {
                &&& r matches Err(error) && error == (SourceError::PartialSend {
                    sent,
                    length: datagram.payload@.len() as usize,
                })
                &&& final(self)@ == old(self)@
            } else {
                r is Ok && final(self)@ == old(self)@.sent(datagram.repair, sent)
            },
    {
        if sent != datagram.payload.len() {
            return Err(SourceError::PartialSend { sent, length: datagram.payload.len() });
        }
        self.totals.wire_bytes = self.totals.wire_bytes.saturating_add(sent as u64);
        if datagram.repair {
            self.totals.repair_datagrams = self.totals.repair_datagrams.saturating_add(1);
        } else {
            self.totals.source_datagrams = self.totals.source_datagrams.saturating_add(1);
        }
        Ok(())
    }
}

/// Where a group has no coder, the groups have none.
proof fn no_coders(groups: Seq<SourceGroupPlan>, head: int)
    requires
        0 <= head <= groups.len(),
        fresh_coders(groups.take(head)) is None,
    ensures
        fresh_coders(groups) is None,
    decreases groups.len() - head,
{
    if head == groups.len() {
        assert(groups.take(head) =~= groups);
    } else {
        assert(groups.take(head + 1).drop_last() =~= groups.take(head));
        no_coders(groups, head + 1);
    }
}

/// Where a group is refused, nothing is coded behind it.
proof fn refusal_stays(
    payload: ProbePayload,
    coders: Seq<FlacFrameEncoder>,
    pcm: Seq<Seq<u8>>,
    head: int,
)
    requires
        0 <= head <= pcm.len(),
        group_payloads(payload, coders, pcm.take(head)).1 is None,
    ensures
        group_payloads(payload, coders, pcm) == group_payloads(payload, coders, pcm.take(head)),
    decreases pcm.len() - head,
{
    if head == pcm.len() {
        assert(pcm.take(head) =~= pcm);
    } else {
        assert(pcm.take(head + 1).drop_last() =~= pcm.take(head));
        refusal_stays(payload, coders, pcm, head + 1);
    }
}

/// The samples of a channel that are sent as they are arrive as they are: a source that codes
/// nothing changes nothing.
pub proof fn pcm_goes_out_unchanged(coders: Seq<FlacFrameEncoder>, pcm: Seq<Seq<u8>>)
    ensures
        group_payloads(ProbePayload::Pcm, coders, pcm) == (coders, Some(pcm)),
    decreases pcm.len(),
{
    if pcm.len() > 0 {
        pcm_goes_out_unchanged(coders, pcm.drop_last());
        assert(pcm.drop_last().push(pcm.last()) =~= pcm);
    } else {
        assert(pcm =~= Seq::<Seq<u8>>::empty());
    }
}

/// A sample's three bytes are its low 24 bits, and the bytes of samples behind each other are those of
/// each.
pub proof fn samples_are_written_one_by_one(first: Seq<i32>, second: Seq<i32>, sample: i32)
    ensures
        ({
            let bytes = sample_bytes(sample);
            &&& bytes.len() == 3
            &&& (bytes[0] + 256 * bytes[1] + 65_536 * bytes[2] - sample) % 0x100_0000 == 0
        }),
        samples_bytes(first + second) == samples_bytes(first) + samples_bytes(second),
        samples_bytes(seq![sample]) == sample_bytes(sample),
    decreases second.len(),
{
    assert(seq![sample].drop_last() =~= Seq::<i32>::empty());
    assert(samples_bytes(Seq::<i32>::empty()) =~= Seq::<u8>::empty());
    assert(samples_bytes(seq![sample]) =~= sample_bytes(sample));
    if second.len() == 0 {
        assert(first + second =~= first);
        assert(samples_bytes(first) + samples_bytes(second) =~= samples_bytes(first));
    } else {
        samples_are_written_one_by_one(first, second.drop_last(), sample);
        assert((first + second).drop_last() =~= first + second.drop_last());
        assert(samples_bytes(first + second) =~= samples_bytes(first) + samples_bytes(second));
    }
}

/// A channel's noise is the same whichever group it is played in: what a group plays in a frame on a
/// channel is what a group of that channel alone plays in that frame.
pub proof fn noise_belongs_to_its_channel(
    first_sample: u64,
    channel_start: u16,
    channels: u16,
    frame: int,
    channel: int,
)
    requires
        0 <= frame < 240,
        0 <= channel < channels,
        channel_start + channels <= u16::MAX,
    ensures
        noise_samples(first_sample, channel_start, channels).len() == 240 * channels,
        noise_samples(first_sample, channel_start, channels)[frame * channels + channel]
            == noise_samples(first_sample, (channel_start + channel) as u16, 1)[frame],
{
    let n = channels as int;
    let i = frame * n + channel;
    assert(0 <= i < 240 * n) by (nonlinear_arith)
        requires
            0 <= frame < 240,
            0 <= channel < n,
            i == frame * n + channel,
    ;
    vstd::arithmetic::div_mod::lemma_fundamental_div_mod_converse(i, n, frame, channel);
    assert(frame / 1 == frame && frame % 1 == 0);
}

/// What payloads add to a count is what each holds.
pub proof fn payload_bytes_add_up(count: u64, payloads: Seq<Seq<u8>>, payload: Seq<u8>)
    requires
        bytes_added(count, payloads) + payload.len() <= u64::MAX,
    ensures
        bytes_added(count, payloads.push(payload)) == bytes_added(count, payloads) + payload.len(),
        bytes_added(count, Seq::empty()) == count,
        bytes_added(count, payloads) >= count,
    decreases payloads.len(),
{
    assert(payloads.push(payload).drop_last() =~= payloads);
    if payloads.len() > 0 {
        if bytes_added(count, payloads.drop_last()) + payloads.last().len() <= u64::MAX {
            payload_bytes_add_up(count, payloads.drop_last(), payloads.last());
        }
    }
}

/// An epoch of a source starts where the one before it ends, names the source's groups, and says what its
/// payloads are.
pub proof fn epochs_follow_each_other(source: SourceView, epoch_id: u64, payloads: Seq<Seq<u8>>)
    requires
        (epoch_id + 1) * 240 <= u64::MAX,
    ensures
        ({
            let epoch = source.epoch(epoch_id, payloads);
            let next = source.epoch((epoch_id + 1) as u64, payloads);
            &&& epoch.epoch_id == epoch_id
            &&& next.pts_samples == epoch.pts_samples + epoch.frame_count
            &&& epoch.pts_samples == epoch_id * 240
            &&& epoch.session_id == source.session_id
            &&& epoch.groups == source.groups
            &&& epoch.payloads == payloads
            &&& epoch.sample_rate == 48_000
            &&& epoch.payload_kind == (if source.payload is Flac {
                3int
            } else {
                1
            })
        }),
{
}

/// A datagram that went out is counted with its bytes, as what it is.
pub proof fn sent_datagrams_are_counted(source: SourceView, repair: bool, length: usize)
    ensures
        ({
            let before = source.totals;
            let after = source.sent(repair, length).totals;
            &&& before.wire_bytes + length <= u64::MAX ==> after.wire_bytes == before.wire_bytes
                + length
            &&& !repair && before.source_datagrams < u64::MAX ==> after.source_datagrams
                == before.source_datagrams + 1
            &&& repair && before.repair_datagrams < u64::MAX ==> after.repair_datagrams
                == before.repair_datagrams + 1
            &&& repair ==> after.source_datagrams == before.source_datagrams
            &&& !repair ==> after.repair_datagrams == before.repair_datagrams
            &&& after.lossless_payload_bytes == before.lossless_payload_bytes
        }),
{
}

/// What stands in front of a payload and the payload fill a datagram, which carries one where it has
/// room for a byte and its length can be told.
pub proof fn payloads_fill_their_datagrams(max_datagram_bytes: usize)
    ensures
        payload_room(max_datagram_bytes) is Some <==> 48 + 72 < max_datagram_bytes && max_datagram_bytes
            - 48 <= u16::MAX,
        payload_room(max_datagram_bytes) matches Some(room) ==> room + 72 + 48 == max_datagram_bytes,
{
}

} // verus!
