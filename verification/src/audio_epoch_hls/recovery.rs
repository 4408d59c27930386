//! Recovery of audio groups from datagrams.
use crate::audio_epoch_hls::group::{
    AudioGroup, AudioGroupView, AudioPayloadKind, AudioSampleFormat,
};
use crate::bytes::{has_prefix, starts_with};
use music_audio_session::{MultichannelAudioReceiver, MultichannelAudioSessionConfig};
use raptorq_datagram_fec::{AudioPayloadKind as WireKind, AudioSampleFormat as WireFormat};
use vstd::prelude::*;
use vstd::slice::slice_subrange;

verus! {

/// The bytes that open a datagram of an audio epoch.
pub open spec fn audio_epoch_magic() -> Seq<u8> {
    seq![0x41, 0x45, 0x50, 0x31]
}

/// Decides whether a datagram belongs to an audio epoch.
pub fn is_multichannel_audio_transport_datagram(datagram: &[u8]) -> (r: bool)
    ensures
        r == starts_with(datagram@, audio_epoch_magic()),
{
    let magic: [u8; 4] = [0x41, 0x45, 0x50, 0x31];
    assert(magic@ =~= audio_epoch_magic());
    has_prefix(datagram, magic.as_slice())
}

/// What a datagram of an audio epoch carries.
pub fn audio_epoch_payload(datagram: &[u8]) -> (r: Option<&[u8]>)
    ensures
        r is Some <==> starts_with(datagram@, audio_epoch_magic()),
        r matches Some(payload) ==> payload@ == datagram@.skip(4),
{
    if !is_multichannel_audio_transport_datagram(datagram) {
        return None;
    }
    let payload = slice_subrange(datagram, 4, datagram.len());
    assert(payload@ =~= datagram@.skip(4));
    Some(payload)
}

/// The receiver that recovers groups from the datagrams of one source.
#[verifier::external_type_specification]
#[verifier::external_body]
pub struct ExMultichannelAudioReceiver(MultichannelAudioReceiver);

/// The datagrams that a receiver has been given, in order.
pub uninterp spec fn datagrams_taken(receiver: MultichannelAudioReceiver) -> Seq<Seq<u8>>;

/// What a list of groups holds.
pub open spec fn groups_view(groups: Seq<AudioGroup>) -> Seq<AudioGroupView> {
    groups.map_values(|group: AudioGroup| group@)
}

/// The groups that a datagram completes behind those given before it, or nothing where the
/// datagram is refused.
pub uninterp spec fn groups_recovered(taken: Seq<Seq<u8>>, datagram: Seq<u8>) -> Option<
    Seq<AudioGroupView>,
>;

/// Calls `music_audio_session::MultichannelAudioReceiver::new` with the default configuration.
///
/// Claimed of it: the receiver has been given nothing.
#[verifier::external_body]
pub(crate) fn new_receiver() -> (r: MultichannelAudioReceiver)
    ensures
        datagrams_taken(r) == Seq::<Seq<u8>>::empty(),
{
    MultichannelAudioReceiver::new(MultichannelAudioSessionConfig::default())
}

/// Calls `music_audio_session::MultichannelAudioReceiver::push_datagram` and keeps the groups that
/// it completed.
///
/// Claimed of it: what it completes depends on the datagram and on those given before it alone, and
/// no group has a sample rate of zero.
#[verifier::external_body]
pub(crate) fn push_to_receiver(receiver: &mut MultichannelAudioReceiver, datagram: &[u8]) -> (r:
    Option<Vec<AudioGroup>>)
    ensures
        datagrams_taken(*final(receiver)) == datagrams_taken(*old(receiver)).push(datagram@),
        match r {
            Some(groups) => groups_recovered(datagrams_taken(*old(receiver)), datagram@) == Some(
                groups_view(groups@),
            ) && forall|i: int| 0 <= i < groups@.len() ==> (#[trigger] groups@[i]).sample_rate > 0,
            None => groups_recovered(datagrams_taken(*old(receiver)), datagram@) is None,
        },
{
    let groups = receiver.push_datagram(datagram).ok()?.completed_groups;
    Some(groups.into_iter().map(|g| AudioGroup { session_id: g.session_id, config_generation: g.config_generation,
        epoch_id: g.epoch_id, pts_samples: g.pts_samples, sample_rate: g.sample_rate, frame_count: g.frame_count,
        group_id: g.group_id, channel_count: g.channel_count,
        payload_kind: match g.payload_kind { WireKind::Pcm => AudioPayloadKind::Pcm,
            WireKind::Flac => AudioPayloadKind::Flac, WireKind::Opus => AudioPayloadKind::Opus },
        sample_format: match g.sample_format { WireFormat::Unspecified => AudioSampleFormat::Unspecified,
            WireFormat::S16Le => AudioSampleFormat::S16Le, WireFormat::S24Le => AudioSampleFormat::S24Le,
            WireFormat::S32Le => AudioSampleFormat::S32Le, WireFormat::F32Le => AudioSampleFormat::F32Le },
        flags: g.flags, payload: g.payload.to_vec(), raptorq_recovered_fragments: g.raptorq_recovered_fragments,
    }).collect())
}

/// What a receiver has counted.
#[derive(Debug, Clone, Copy, PartialEq, Eq, Structural)]
pub struct ReceiverStats {
    pub datagrams_received: u64,
    pub systematic_shards_received: u64,
    pub raptorq_shards_recovered: u64,
    pub duplicate_or_late_epochs: u64,
}

/// What a receiver has counted of the datagrams that it was given.
pub uninterp spec fn counted_of(taken: Seq<Seq<u8>>) -> ReceiverStats;

/// Calls `music_audio_session::MultichannelAudioReceiver::stats`.
///
/// Claimed of it: the counts depend on the datagrams given to the receiver alone.
#[verifier::external_body]
pub(crate) fn receiver_stats(receiver: &MultichannelAudioReceiver) -> (r: ReceiverStats)
    ensures
        r == counted_of(datagrams_taken(*receiver)),
{
    let stats = receiver.stats();
    ReceiverStats {
        datagrams_received: stats.datagrams_received,
        systematic_shards_received: stats.systematic_shards_received,
        raptorq_shards_recovered: stats.raptorq_shards_recovered,
        duplicate_or_late_epochs: stats.duplicate_or_late_epochs,
    }
}

} // verus!
