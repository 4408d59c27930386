//! Recovered groups of audio channels, and when one can be packaged.
use crate::fmp4_bridge::track::{PcmAudioConfig, PcmSampleKind};
use crate::text::{append_decimal, decimal};
use vstd::prelude::*;
use vstd::string::*;

verus! {

/// Flag of a group that does not continue the one before it.
pub const AUDIO_GROUP_FLAG_DISCONTINUITY: u8 = 1;

/// Flag of a group whose payload is known to be lost.
pub const AUDIO_GROUP_FLAG_ERASURE: u8 = 2;

/// How a group's payload is coded.
#[derive(Debug, Clone, Copy, PartialEq, Eq, Structural)]
pub enum AudioPayloadKind {
    Pcm,
    Flac,
    Opus,
}

/// How a group's samples are laid out.
#[derive(Debug, Clone, Copy, PartialEq, Eq, Structural)]
pub enum AudioSampleFormat {
    Unspecified,
    S16Le,
    S24Le,
    S32Le,
    F32Le,
}

/// One group of channels of one epoch, as the recovery hands it over.
#[derive(Debug)]
pub struct AudioGroup {
    pub session_id: u64,
    pub config_generation: u32,
    pub epoch_id: u64,
    pub pts_samples: u64,
    pub sample_rate: u32,
    pub frame_count: u32,
    pub group_id: u16,
    pub channel_count: u16,
    pub payload_kind: AudioPayloadKind,
    pub sample_format: AudioSampleFormat,
    pub flags: u8,
    pub payload: Vec<u8>,
    pub raptorq_recovered_fragments: u16,
}

/// What an [`AudioGroup`] holds.
pub struct AudioGroupView {
    pub session_id: u64,
    pub config_generation: u32,
    pub epoch_id: u64,
    pub pts_samples: u64,
    pub sample_rate: u32,
    pub frame_count: u32,
    pub group_id: u16,
    pub channel_count: u16,
    pub payload_kind: AudioPayloadKind,
    pub sample_format: AudioSampleFormat,
    pub flags: u8,
    pub payload: Seq<u8>,
    pub raptorq_recovered_fragments: u16,
}

impl View for AudioGroup {
    type V = AudioGroupView;

    open spec fn view(&self) -> AudioGroupView {
        AudioGroupView {
            session_id: self.session_id,
            config_generation: self.config_generation,
            epoch_id: self.epoch_id,
            pts_samples: self.pts_samples,
            sample_rate: self.sample_rate,
            frame_count: self.frame_count,
            group_id: self.group_id,
            channel_count: self.channel_count,
            payload_kind: self.payload_kind,
            sample_format: self.sample_format,
            flags: self.flags,
            payload: self.payload@,
            raptorq_recovered_fragments: self.raptorq_recovered_fragments,
        }
    }
}

/// Why a group is not packaged.
#[derive(Debug, Clone, Copy, PartialEq, Eq, Structural)]
pub enum PackageError {
    /// The group's payload is lost.
    Erasure { session_id: u64, group_id: u16 },
    /// The group has no duration or no channels.
    InvalidDimensions { session_id: u64, group_id: u16 },
    /// The group's stream has no identity left.
    StreamIdOverflow,
    /// The group's stream has an identity that cannot be indexed here.
    StreamIdExceedsPlatform,
    /// A part was not published.
    PublishFailed,
    /// The group ends behind the last sample that can be counted.
    PtsOverflow,
    /// The group lasts longer than a part can say.
    DurationOverflow,
    /// An opaque payload reached the fragmented MP4 packager.
    OpaqueReachedFmp4,
    /// A payload to be boxed reached the opaque packager.
    Fmp4ReachedOpaque,
    /// The payload may be framed or encrypted, and is not boxed.
    OpusNeedsOpaque,
    /// Uncompressed audio did not say how its samples are laid out.
    PcmFormatMissing,
    /// Uncompressed audio announces more bytes than can be counted.
    PcmSizeOverflow,
    /// Uncompressed audio has another size than it announces.
    PcmSizeMismatch { actual: usize, expected: usize },
}

impl PackageError {
    /// The error in words.
    pub open spec fn words(self) -> Seq<char> {
        match self {
            PackageError::Erasure { session_id, group_id } => "session "@ + decimal(
                session_id as nat,
            ) + " group "@ + decimal(group_id as nat) + " is an explicit audio erasure"@,
            PackageError::InvalidDimensions { session_id, group_id } => "session "@ + decimal(
                session_id as nat,
            ) + " group "@ + decimal(group_id as nat) + " has invalid AEP1 timing dimensions"@,
            PackageError::StreamIdOverflow => "AEP1 LL-HLS stream id overflow"@,
            PackageError::StreamIdExceedsPlatform => "AEP1 LL-HLS stream id exceeds this platform"@,
            PackageError::PublishFailed => "AEP1 LL-HLS part was not published"@,
            PackageError::PtsOverflow => "AEP1 audio PTS overflow"@,
            PackageError::DurationOverflow => "AEP1 group duration exceeds u32 milliseconds"@,
            PackageError::OpaqueReachedFmp4 => "opaque AEP1 payload reached the fMP4 packager"@,
            PackageError::Fmp4ReachedOpaque => "fMP4 AEP1 payload reached the opaque packager"@,
            PackageError::OpusNeedsOpaque =>
            "AEP1 Opus may contain producer framing or encryption; use opaque packaging"@,
            PackageError::PcmFormatMissing => "PCM AEP1 payload must declare its sample format"@,
            PackageError::PcmSizeOverflow => "PCM AEP1 payload size overflow"@,
            PackageError::PcmSizeMismatch { actual, expected } => "PCM AEP1 payload has "@
                + decimal(actual as nat) + " bytes; expected "@ + decimal(expected as nat),
        }
    }

    /// The error in words.
    pub fn message(self) -> (r: String)
        ensures
            r@ == self.words(),
    {
        match self {
            PackageError::Erasure { session_id, group_id } => {
                let mut r = "session ".to_owned();
                append_decimal(&mut r, session_id);
                r.append(" group ");
                append_decimal(&mut r, group_id as u64);
                r.append(" is an explicit audio erasure");
                r
            },
            PackageError::InvalidDimensions { session_id, group_id } => {
                let mut r = "session ".to_owned();
                append_decimal(&mut r, session_id);
                r.append(" group ");
                append_decimal(&mut r, group_id as u64);
                r.append(" has invalid AEP1 timing dimensions");
                r
            },
            PackageError::StreamIdOverflow => "AEP1 LL-HLS stream id overflow".to_owned(),
            PackageError::StreamIdExceedsPlatform =>
            "AEP1 LL-HLS stream id exceeds this platform".to_owned(),
            PackageError::PublishFailed => "AEP1 LL-HLS part was not published".to_owned(),
            PackageError::PtsOverflow => "AEP1 audio PTS overflow".to_owned(),
            PackageError::DurationOverflow =>
            "AEP1 group duration exceeds u32 milliseconds".to_owned(),
            PackageError::OpaqueReachedFmp4 =>
            "opaque AEP1 payload reached the fMP4 packager".to_owned(),
            PackageError::Fmp4ReachedOpaque =>
            "fMP4 AEP1 payload reached the opaque packager".to_owned(),
            PackageError::OpusNeedsOpaque =>
            "AEP1 Opus may contain producer framing or encryption; use opaque packaging".to_owned(),
            PackageError::PcmFormatMissing =>
            "PCM AEP1 payload must declare its sample format".to_owned(),
            PackageError::PcmSizeOverflow => "PCM AEP1 payload size overflow".to_owned(),
            PackageError::PcmSizeMismatch { actual, expected } => {
                let mut r = "PCM AEP1 payload has ".to_owned();
                append_decimal(&mut r, actual as u64);
                r.append(" bytes; expected ");
                append_decimal(&mut r, expected as u64);
                r
            },
        }
    }
}

impl AudioGroupView {
    /// Why the group cannot be packaged at all, if it cannot.
    pub open spec fn defect(self) -> Option<PackageError> {
        if self.flags & AUDIO_GROUP_FLAG_ERASURE != 0 || self.payload.len() == 0 {
            Some(PackageError::Erasure { session_id: self.session_id, group_id: self.group_id })
        } else if self.sample_rate == 0 || self.frame_count == 0 || self.channel_count == 0 {
            Some(
                PackageError::InvalidDimensions {
                    session_id: self.session_id,
                    group_id: self.group_id,
                },
            )
        } else {
            None
        }
    }

    /// The layout under which the payload is boxed, or why it is not boxed.
    pub open spec fn track(self) -> Result<Option<PcmAudioConfig>, PackageError> {
        match self.payload_kind {
            AudioPayloadKind::Flac => Ok(None),
            AudioPayloadKind::Opus => Err(PackageError::OpusNeedsOpaque),
            AudioPayloadKind::Pcm => match self.sample_format {
                AudioSampleFormat::Unspecified => Err(PackageError::PcmFormatMissing),
                AudioSampleFormat::S16Le => Ok(Some(self.pcm(16, PcmSampleKind::Integer))),
                AudioSampleFormat::S24Le => Ok(Some(self.pcm(24, PcmSampleKind::Integer))),
                AudioSampleFormat::S32Le => Ok(Some(self.pcm(32, PcmSampleKind::Integer))),
                AudioSampleFormat::F32Le => Ok(Some(self.pcm(32, PcmSampleKind::Float))),
            },
        }
    }

    /// The layout of the group's channels at some sample size.
    pub open spec fn pcm(self, sample_size: u8, sample_kind: PcmSampleKind) -> PcmAudioConfig {
        PcmAudioConfig {
            sample_rate: self.sample_rate,
            channel_count: self.channel_count,
            sample_size,
            little_endian: true,
            sample_kind,
        }
    }

    /// Bytes that uncompressed audio of the group's layout takes.
    pub open spec fn pcm_bytes(self, config: PcmAudioConfig) -> int {
        self.frame_count * self.channel_count * (config.sample_size / 8)
    }

    /// What is wrong with an uncompressed payload, if anything is.
    pub open spec fn pcm_defect(self) -> Option<PackageError> {
        match self.track() {
            Err(error) => Some(error),
            Ok(None) => None,
            Ok(Some(config)) => if self.pcm_bytes(config) > usize::MAX {
                Some(PackageError::PcmSizeOverflow)
            } else if self.payload.len() != self.pcm_bytes(config) {
                Some(
                    PackageError::PcmSizeMismatch {
                        actual: self.payload.len() as usize,
                        expected: self.pcm_bytes(config) as usize,
                    },
                )
            } else {
                None
            },
        }
    }
}

/// The layout under which a group's payload is boxed, or why it is not boxed.
pub fn audio_track_config(group: &AudioGroup) -> (r: Result<Option<PcmAudioConfig>, PackageError>)
    ensures
        r == group@.track(),
{
    match group.payload_kind {
        AudioPayloadKind::Flac => Ok(None),
        AudioPayloadKind::Opus => Err(PackageError::OpusNeedsOpaque),
        AudioPayloadKind::Pcm => {
            let (sample_size, sample_kind) = match group.sample_format {
                AudioSampleFormat::S16Le => (16u8, PcmSampleKind::Integer),
                AudioSampleFormat::S24Le => (24u8, PcmSampleKind::Integer),
                AudioSampleFormat::S32Le => (32u8, PcmSampleKind::Integer),
                AudioSampleFormat::F32Le => (32u8, PcmSampleKind::Float),
                AudioSampleFormat::Unspecified => {
                    return Err(PackageError::PcmFormatMissing);
                },
            };
            Ok(
                Some(
                    PcmAudioConfig {
                        sample_rate: group.sample_rate,
                        channel_count: group.channel_count,
                        sample_size,
                        little_endian: true,
                        sample_kind,
                    },
                ),
            )
        },
    }
}

/// Checks that an uncompressed payload has the size that its group announces.
pub fn validate_pcm_group(group: &AudioGroup) -> (r: Result<(), PackageError>)
    ensures
        match group@.pcm_defect() {
            Some(error) => r == Err::<(), PackageError>(error),
            None => r is Ok,
        },
{
    let config = match audio_track_config(group) {
        Ok(Some(config)) => config,
        Ok(None) => {
            return Ok(());
        },
        Err(error) => {
            return Err(error);
        },
    };
    let frames: u64 = group.frame_count as u64;
    let channels: u64 = group.channel_count as u64;
    let size: u64 = (config.sample_size / 8) as u64;
    assert(frames * channels <= 0xffff_ffff * 0xffff) by (nonlinear_arith)
        requires
            frames <= 0xffff_ffff,
            channels <= 0xffff,
    ;
    let samples: u64 = frames * channels;
    assert(samples * size <= 0xffff_ffff * 0xffff * 4) by (nonlinear_arith)
        requires
            samples <= 0xffff_ffff * 0xffff,
            size <= 4,
    ;
    let total: u64 = samples * size;
    assert(total == group@.pcm_bytes(config));
    if total > usize::MAX as u64 {
        return Err(PackageError::PcmSizeOverflow);
    }
    let expected: usize = total as usize;
    if group.payload.len() != expected {
        return Err(PackageError::PcmSizeMismatch { actual: group.payload.len(), expected });
    }
    Ok(())
}

/// A group can be packaged exactly where its payload is there and its samples have a rate, a count and
/// channels; whatever else it says.
pub proof fn groups_are_packaged_where_they_can_be(group: AudioGroupView)
    ensures
        group.defect() is None <==> group.flags & AUDIO_GROUP_FLAG_ERASURE == 0
            && group.payload.len() > 0 && group.sample_rate > 0 && group.frame_count > 0
            && group.channel_count > 0,
        group.defect() matches Some(error) ==> (error is Erasure <==> group.flags
            & AUDIO_GROUP_FLAG_ERASURE != 0 || group.payload.len() == 0) && (error is Erasure
            || error is InvalidDimensions),
{
}

/// Uncompressed audio is boxed as it is laid out, exactly where its payload has a sample of the right size
/// for every frame and channel; other payloads say nothing of a layout.
pub proof fn pcm_has_a_sample_for_each_channel(group: AudioGroupView)
    ensures
        ({
            let bits = match group.sample_format {
                AudioSampleFormat::S16Le => 16int,
                AudioSampleFormat::S24Le => 24,
                AudioSampleFormat::S32Le => 32,
                AudioSampleFormat::F32Le => 32,
                AudioSampleFormat::Unspecified => 0,
            };
            let track = group.track();
            let bytes = group.frame_count * group.channel_count * (bits / 8);
            &&& group.payload_kind is Flac ==> track is Ok && track->Ok_0 is None
                && group.pcm_defect() is None
            &&& group.payload_kind is Opus ==> track is Err && group.pcm_defect() is Some
            &&& group.payload_kind is Pcm ==> {
                &&& track is Ok <==> !(group.sample_format is Unspecified)
                &&& track is Ok ==> track->Ok_0 is Some
                &&& track is Ok ==> {
                    let layout = track->Ok_0->Some_0;
                    &&& layout.sample_rate == group.sample_rate
                    &&& layout.channel_count == group.channel_count
                    &&& layout.sample_size == bits
                    &&& layout.little_endian
                    &&& layout.sample_kind is Float <==> group.sample_format is F32Le
                }
                &&& group.pcm_defect() is None <==> bits > 0 && bytes <= usize::MAX
                    && group.payload.len() == bytes
            }
        }),
{
}

} // verus!
