//! The relay between music sessions: who listens to what, and what becomes of a datagram.
use crate::arith::{cap_u64, max_int, max_u64, what_fits_is_kept, wrapped_u64, wrapping_add_u64};
use crate::audio_epoch_hls::recovery::{
    audio_epoch_magic, audio_epoch_payload, is_multichannel_audio_transport_datagram,
};
use crate::bytes::{bytes_equal, copy_bytes, has_prefix, starts_with};
use crate::service::endpoint::Endpoint;
use crate::service::media_fec::{
    media_datagrams_taken, media_recovered, new_media_decoder, push_to_media_decoder,
    recovered_view, MediaFrame,
};
use crate::service::metrics_report::AudioQueueStats;
use crate::table::{Key, Table};
use crate::text::{decimal, digits};
use raptorq_datagram_fec::MediaFecDecoder;
use vstd::prelude::*;
use vstd::slice::slice_subrange;

verus! {

/// How long a listener is kept that does not ask again.
pub const DAW_RELAY_TARGET_TTL_MS: u64 = 15_000;

/// How often listeners are looked over.
pub const DAW_RELAY_CLEANUP_INTERVAL_MS: u64 = 1_000;

/// The bytes of incoming datagrams that the system is asked to hold.
pub const DAW_MEDIA_RECEIVE_BUFFER_BYTES: usize = 8_388_608;

/// What a listener to every session sends.
pub open spec fn subscribe_message() -> Seq<u8> {
    seq![
        87, 65, 86, 69, 89, 45, 68, 65, 87, 45, 83, 85, 66, 83, 67, 82, 73, 66, 69, 47,
        49,
    ]
}

/// What a listener to every session sends.
fn subscribe_message_bytes() -> (r: Vec<u8>)
    ensures
        r@ == subscribe_message(),
{
    let bytes: [u8; 21] = [
        87, 65, 86, 69, 89, 45, 68, 65, 87, 45, 83, 85, 66, 83, 67, 82, 73, 66, 69, 47,
        49,
    ];
    let copy = copy_bytes(bytes.as_slice());
    assert(copy@ =~= subscribe_message());
    copy
}

/// What a listener sends that leaves.
pub open spec fn unsubscribe_message() -> Seq<u8> {
    seq![
        87, 65, 86, 69, 89, 45, 68, 65, 87, 45, 85, 78, 83, 85, 66, 83, 67, 82, 73, 66,
        69, 47, 49,
    ]
}

/// What a listener sends that leaves.
fn unsubscribe_message_bytes() -> (r: Vec<u8>)
    ensures
        r@ == unsubscribe_message(),
{
    let bytes: [u8; 23] = [
        87, 65, 86, 69, 89, 45, 68, 65, 87, 45, 85, 78, 83, 85, 66, 83, 67, 82, 73, 66,
        69, 47, 49,
    ];
    let copy = copy_bytes(bytes.as_slice());
    assert(copy@ =~= unsubscribe_message());
    copy
}

/// What a listener to every session is answered.
pub open spec fn subscribe_ack() -> Seq<u8> {
    seq![
        87, 65, 86, 69, 89, 45, 68, 65, 87, 45, 83, 85, 66, 83, 67, 82, 73, 66, 69, 68,
        47, 49,
    ]
}

/// What a listener to every session is answered.
fn subscribe_ack_bytes() -> (r: Vec<u8>)
    ensures
        r@ == subscribe_ack(),
{
    let bytes: [u8; 22] = [
        87, 65, 86, 69, 89, 45, 68, 65, 87, 45, 83, 85, 66, 83, 67, 82, 73, 66, 69, 68,
        47, 49,
    ];
    let copy = copy_bytes(bytes.as_slice());
    assert(copy@ =~= subscribe_ack());
    copy
}

/// What opens the message of a listener to one session.
pub open spec fn subscribe_session_prefix() -> Seq<u8> {
    seq![
        87, 65, 86, 69, 89, 45, 68, 65, 87, 45, 83, 85, 66, 83, 67, 82, 73, 66, 69, 47,
        50, 32,
    ]
}

/// What opens the message of a listener to one session.
fn subscribe_session_prefix_bytes() -> (r: Vec<u8>)
    ensures
        r@ == subscribe_session_prefix(),
{
    let bytes: [u8; 22] = [
        87, 65, 86, 69, 89, 45, 68, 65, 87, 45, 83, 85, 66, 83, 67, 82, 73, 66, 69, 47,
        50, 32,
    ];
    let copy = copy_bytes(bytes.as_slice());
    assert(copy@ =~= subscribe_session_prefix());
    copy
}

/// What opens the message of a listener that leaves one session.
pub open spec fn unsubscribe_session_prefix() -> Seq<u8> {
    seq![
        87, 65, 86, 69, 89, 45, 68, 65, 87, 45, 85, 78, 83, 85, 66, 83, 67, 82, 73, 66,
        69, 47, 50, 32,
    ]
}

/// What opens the message of a listener that leaves one session.
fn unsubscribe_session_prefix_bytes() -> (r: Vec<u8>)
    ensures
        r@ == unsubscribe_session_prefix(),
{
    let bytes: [u8; 24] = [
        87, 65, 86, 69, 89, 45, 68, 65, 87, 45, 85, 78, 83, 85, 66, 83, 67, 82, 73, 66,
        69, 47, 50, 32,
    ];
    let copy = copy_bytes(bytes.as_slice());
    assert(copy@ =~= unsubscribe_session_prefix());
    copy
}

/// What opens the answer to a listener to one session.
pub open spec fn session_ack_prefix() -> Seq<u8> {
    seq![
        87, 65, 86, 69, 89, 45, 68, 65, 87, 45, 83, 85, 66, 83, 67, 82, 73, 66, 69, 68,
        47, 50, 32,
    ]
}

/// What opens the answer to a listener to one session.
fn session_ack_prefix_bytes() -> (r: Vec<u8>)
    ensures
        r@ == session_ack_prefix(),
{
    let bytes: [u8; 23] = [
        87, 65, 86, 69, 89, 45, 68, 65, 87, 45, 83, 85, 66, 83, 67, 82, 73, 66, 69, 68,
        47, 50, 32,
    ];
    let copy = copy_bytes(bytes.as_slice());
    assert(copy@ =~= session_ack_prefix());
    copy
}

/// Whether a byte is a decimal digit.
pub open spec fn is_digit(byte: u8) -> bool {
    0x30 <= byte <= 0x39
}

/// Whether every byte is a decimal digit.
pub open spec fn all_digits(bytes: Seq<u8>) -> bool {
    forall|i: int| 0 <= i < bytes.len() ==> is_digit(#[trigger] bytes[i])
}

/// The number that decimal digits spell.
pub open spec fn digits_value(bytes: Seq<u8>) -> nat
    decreases bytes.len(),
{
    if bytes.len() == 0 {
        0
    } else {
        (digits_value(bytes.drop_last()) * 10 + (bytes.last() - 0x30)) as nat
    }
}

/// The session that a message names behind a prefix: at least one digit, nothing else, and no more
/// than a session's number holds.
pub open spec fn session_message(datagram: Seq<u8>, prefix: Seq<u8>) -> Option<u64> {
    let value = datagram.skip(prefix.len() as int);
    if !starts_with(datagram, prefix) || value.len() == 0 || !all_digits(value) || digits_value(value)
        > u64::MAX {
        None
    } else {
        Some(digits_value(value) as u64)
    }
}

/// Digits in front of others make the number no smaller.
proof fn more_digits_count_more(bytes: Seq<u8>, head: int)
    requires
        0 <= head <= bytes.len(),
        all_digits(bytes),
    ensures
        digits_value(bytes.take(head)) <= digits_value(bytes),
    decreases bytes.len() - head,
{
    if head == bytes.len() {
        assert(bytes.take(head) =~= bytes);
    } else {
        more_digits_count_more(bytes, head + 1);
        assert(bytes.take(head + 1).drop_last() =~= bytes.take(head));
        assert(is_digit(bytes[head]));
    }
}

/// The session that a message names behind a prefix.
pub fn parse_daw_relay_session_message(datagram: &[u8], prefix: &[u8]) -> (r: Option<u64>)
    ensures
        r == session_message(datagram@, prefix@),
{
    if !has_prefix(datagram, prefix) || datagram.len() == prefix.len() {
        return None;
    }
    let value = slice_subrange(datagram, prefix.len(), datagram.len());
    assert(value@ =~= datagram@.skip(prefix@.len() as int));
    let mut i: usize = 0;
    while i < value.len()
        invariant
            i <= value@.len(),
            value@.len() > 0,
            value@ == datagram@.skip(prefix@.len() as int),
            forall|k: int| 0 <= k < i ==> is_digit(#[trigger] value@[k]),
        decreases value@.len() - i,
    {
        if value[i] < 0x30 || value[i] > 0x39 {
            assert(!is_digit(value@[i as int]));
            return None;
        }
        i = i + 1;
    }
    let mut total: u64 = 0;
    let mut at: usize = 0;
    while at < value.len()
        invariant
            at <= value@.len(),
            value@.len() > 0,
            value@ == datagram@.skip(prefix@.len() as int),
            all_digits(value@),
            total == digits_value(value@.take(at as int)),
        decreases value@.len() - at,
    {
        let ghost head = value@.take(at + 1);
        assert(head.drop_last() =~= value@.take(at as int));
        assert(is_digit(value@[at as int]));
        proof {
            more_digits_count_more(value@, at + 1);
        }
        let digit: u64 = (value[at] - 0x30) as u64;
        let tens: u64 = match total.checked_mul(10) {
            Some(tens) => tens,
            None => {
                return None;
            },
        };
        total = match tens.checked_add(digit) {
            Some(sum) => sum,
            None => {
                return None;
            },
        };
        at = at + 1;
    }
    assert(value@.take(at as int) =~= value@);
    Some(total)
}

/// The bytes of decimal digits.
pub open spec fn digit_bytes(chars: Seq<char>) -> Seq<u8> {
    chars.map_values(|c: char| c as u8)
}

/// Appends a number in decimal.
pub fn append_decimal_bytes(out: &mut Vec<u8>, n: u64)
    ensures
        final(out)@ == old(out)@ + digit_bytes(decimal(n as nat)),
    decreases n,
{
    if n >= 10 {
        append_decimal_bytes(out, n / 10);
    }
    let digit: u8 = 0x30 + (n % 10) as u8;
    assert(digit == digits()[(n % 10) as int] as u8);
    out.push(digit);
    assert(out@ =~= old(out)@ + digit_bytes(decimal(n as nat)));
}

/// What a listener to a session is answered.
pub open spec fn session_ack(session_id: u64) -> Seq<u8> {
    session_ack_prefix() + digit_bytes(decimal(session_id as nat))
}

/// What a listener to a session is answered.
pub fn daw_relay_session_ack(session_id: u64) -> (r: Vec<u8>)
    ensures
        r@ == session_ack(session_id),
{
    let mut ack = session_ack_prefix_bytes();
    append_decimal_bytes(&mut ack, session_id);
    ack
}

/// What a listener to a session sends.
pub open spec fn session_subscription(session_id: u64) -> Seq<u8> {
    subscribe_session_prefix() + digit_bytes(decimal(session_id as nat))
}

/// What a listener to a session sends.
pub fn daw_relay_session_subscription(session_id: u64) -> (r: Vec<u8>)
    ensures
        r@ == session_subscription(session_id),
{
    let mut message = subscribe_session_prefix_bytes();
    append_decimal_bytes(&mut message, session_id);
    message
}

/// The digits of a number spell it.
proof fn digits_spell(n: nat)
    ensures
        digit_bytes(decimal(n)).len() > 0,
        all_digits(digit_bytes(decimal(n))),
        digits_value(digit_bytes(decimal(n))) == n,
    decreases n,
{
    let bytes = digit_bytes(decimal(n));
    if n < 10 {
        assert(bytes =~= seq![(0x30 + n) as u8]);
        reveal_with_fuel(digits_value, 2);
        assert(bytes.drop_last() =~= Seq::empty());
    } else {
        digits_spell(n / 10);
        let head = digit_bytes(decimal(n / 10));
        assert(bytes =~= head.push((0x30 + n % 10) as u8));
        assert(bytes.drop_last() =~= head);
        assert forall|i: int| 0 <= i < bytes.len() implies is_digit(#[trigger] bytes[i]) by {
            if i < head.len() {
                assert(bytes[i] == head[i]);
            }
        }
    }
}

/// A message that names a session behind a prefix is read as that session.
pub proof fn session_messages_read_back(prefix: Seq<u8>, session_id: u64)
    ensures
        session_message(prefix + digit_bytes(decimal(session_id as nat)), prefix) == Some(session_id),
{
    let message = prefix + digit_bytes(decimal(session_id as nat));
    digits_spell(session_id as nat);
    assert(message.take(prefix.len() as int) =~= prefix);
    assert(message.skip(prefix.len() as int) =~= digit_bytes(decimal(session_id as nat)));
}

/// Whether a number is a power of two.
pub open spec fn power_of_two(n: nat) -> bool
    decreases n,
{
    n == 1 || (n > 0 && n % 2 == 0 && power_of_two(n / 2))
}

/// Decides whether a number is a power of two.
fn is_power_of_two(n: u64) -> (r: bool)
    ensures
        r == power_of_two(n as nat),
    decreases n,
{
    if n == 1 {
        true
    } else if n == 0 || n % 2 != 0 {
        false
    } else {
        is_power_of_two(n / 2)
    }
}

/// Whether a dropped datagram is worth a word.
pub open spec fn drop_is_logged(dropped_total: u64) -> bool {
    dropped_total <= 16 || power_of_two(dropped_total as nat) || dropped_total % 10_000 == 0
}

/// Decides whether a dropped datagram is worth a word: the first few, then fewer and fewer.
pub fn should_log_audio_epoch_hls_drop(dropped_total: u64) -> (r: bool)
    ensures
        r == drop_is_logged(dropped_total),
{
    dropped_total <= 16 || is_power_of_two(dropped_total) || dropped_total % 10_000 == 0
}

/// The counters of the queue once a datagram was handed to it, or was dropped.
pub open spec fn handed_over(stats: AudioQueueStats, accepted: bool, depth: u64) -> AudioQueueStats {
    if accepted {
        AudioQueueStats {
            enqueued: wrapped_u64(stats.enqueued + 1),
            max_depth: max_int(stats.max_depth as int, depth as int) as u64,
            ..stats
        }
    } else {
        AudioQueueStats { dropped: wrapped_u64(stats.dropped + 1), ..stats }
    }
}

impl AudioQueueStats {
    /// Counts a datagram that was handed to the queue, or was dropped, and decides whether to say
    /// so.
    pub fn record_handoff(&mut self, accepted: bool, depth: u64) -> (r: bool)
        ensures
            *final(self) == handed_over(*old(self), accepted, depth),
            r == (!accepted && drop_is_logged(final(self).dropped)),
    {
        if accepted {
            self.enqueued = wrapping_add_u64(self.enqueued, 1);
            self.max_depth = max_u64(self.max_depth, depth);
            false
        } else {
            self.dropped = wrapping_add_u64(self.dropped, 1);
            should_log_audio_epoch_hls_drop(self.dropped)
        }
    }
}

impl Key for Endpoint {
    fn same(&self, other: &Self) -> (r: bool) {
        *self == *other
    }
}

/// Someone who listens.
#[derive(Debug, Clone, Copy, PartialEq, Eq, Structural)]
pub struct DawRelayTarget {
    pub expires_at_ms: u64,
    /// The only session that is listened to, if it is only one.
    pub session_id: Option<u64>,
}

/// A block of audio of one source.
#[derive(Debug, Clone, Copy, PartialEq, Eq, Structural)]
pub struct BlockKey {
    pub peer: Endpoint,
    pub block_id: u32,
}

impl Key for BlockKey {
    fn same(&self, other: &Self) -> (r: bool) {
        *self == *other
    }
}

/// The session that a block belongs to.
#[derive(Debug, Clone, Copy, PartialEq, Eq, Structural)]
pub struct BlockSession {
    pub session_id: u64,
    pub expires_at_ms: u64,
}

/// What a datagram of audio says of itself.
#[derive(Debug, Clone, Copy, PartialEq, Eq, Structural)]
pub struct AudioIdentity {
    pub block_id: u32,
    pub session_id: Option<u64>,
}

/// What a datagram of audio says of itself, if it can be read.
pub uninterp spec fn audio_identity(payload: Seq<u8>) -> Option<AudioIdentity>;

/// Calls `raptorq_datagram_fec::inspect_multichannel_audio_datagram` and keeps the block and the
/// session.
///
/// Claimed of it: what it reads depends on the datagram alone.
#[verifier::external_body]
fn inspect_audio(payload: &[u8]) -> (r: Option<AudioIdentity>)
    ensures
        r == audio_identity(payload@),
{
    let identity = raptorq_datagram_fec::inspect_multichannel_audio_datagram(payload).ok()?;
    Some(AudioIdentity { block_id: identity.block_id, session_id: identity.session_id })
}

/// What a datagram is.
#[derive(Debug, Clone, Copy, PartialEq, Eq, Structural)]
pub enum DawMessage {
    Empty,
    /// Someone listens to every session.
    Subscribe,
    /// Someone listens to one session.
    SubscribeSession(u64),
    MalformedSubscribe,
    /// A listener leaves.
    Unsubscribe,
    /// A listener to one session leaves.
    UnsubscribeSession(u64),
    MalformedUnsubscribe,
    /// An answer that came back.
    Acknowledgement,
    /// Part of an audio epoch.
    AudioEpoch,
    /// Part of a media access unit.
    Media,
}

/// What a datagram is.
pub open spec fn daw_message(datagram: Seq<u8>) -> DawMessage {
    if datagram.len() == 0 {
        DawMessage::Empty
    } else if datagram == subscribe_message() {
        DawMessage::Subscribe
    } else if starts_with(datagram, subscribe_session_prefix()) {
        match session_message(datagram, subscribe_session_prefix()) {
            Some(session_id) => DawMessage::SubscribeSession(session_id),
            None => DawMessage::MalformedSubscribe,
        }
    } else if datagram == unsubscribe_message() {
        DawMessage::Unsubscribe
    } else if starts_with(datagram, unsubscribe_session_prefix()) {
        match session_message(datagram, unsubscribe_session_prefix()) {
            Some(session_id) => DawMessage::UnsubscribeSession(session_id),
            None => DawMessage::MalformedUnsubscribe,
        }
    } else if datagram == subscribe_ack() || starts_with(datagram, session_ack_prefix()) {
        DawMessage::Acknowledgement
    } else if starts_with(datagram, audio_epoch_magic()) {
        DawMessage::AudioEpoch
    } else {
        DawMessage::Media
    }
}

/// Decides what a datagram is.
pub fn classify_daw_datagram(datagram: &[u8]) -> (r: DawMessage)
    ensures
        r == daw_message(datagram@),
{
    if datagram.len() == 0 {
        return DawMessage::Empty;
    }
    if bytes_equal(datagram, subscribe_message_bytes().as_slice()) {
        return DawMessage::Subscribe;
    }
    let subscribe = subscribe_session_prefix_bytes();
    if has_prefix(datagram, subscribe.as_slice()) {
        return match parse_daw_relay_session_message(datagram, subscribe.as_slice()) {
            Some(session_id) => DawMessage::SubscribeSession(session_id),
            None => DawMessage::MalformedSubscribe,
        };
    }
    if bytes_equal(datagram, unsubscribe_message_bytes().as_slice()) {
        return DawMessage::Unsubscribe;
    }
    let unsubscribe = unsubscribe_session_prefix_bytes();
    if has_prefix(datagram, unsubscribe.as_slice()) {
        return match parse_daw_relay_session_message(datagram, unsubscribe.as_slice()) {
            Some(session_id) => DawMessage::UnsubscribeSession(session_id),
            None => DawMessage::MalformedUnsubscribe,
        };
    }
    if bytes_equal(datagram, subscribe_ack_bytes().as_slice()) {
        return DawMessage::Acknowledgement;
    }
    if has_prefix(datagram, session_ack_prefix_bytes().as_slice()) {
        return DawMessage::Acknowledgement;
    }
    if is_multichannel_audio_transport_datagram(datagram) {
        return DawMessage::AudioEpoch;
    }
    DawMessage::Media
}

/// What a listener to a session sends is understood as just that.
pub proof fn subscriptions_are_understood(session_id: u64)
    ensures
        daw_message(session_subscription(session_id)) == DawMessage::SubscribeSession(session_id),
{
    let message = session_subscription(session_id);
    session_messages_read_back(subscribe_session_prefix(), session_id);
    assert(message[20] == 50 && subscribe_message()[20] == 49);
    assert(message.take(subscribe_session_prefix().len() as int) =~= subscribe_session_prefix());
}

/// Who listens, and what is known of the sources.
#[derive(Debug)]
pub struct DawRelay {
    pub targets: Table<Endpoint, DawRelayTarget>,
    pub block_sessions: Table<BlockKey, BlockSession>,
    pub decoders: Table<Endpoint, MediaFecDecoder>,
}

/// What a [`DawRelay`] holds.
pub struct DawRelayView {
    pub targets: Map<Endpoint, DawRelayTarget>,
    pub block_sessions: Map<BlockKey, BlockSession>,
    /// The datagrams of media that each source has sent since it last left.
    pub media: Map<Endpoint, Seq<Seq<u8>>>,
}

impl View for DawRelay {
    type V = DawRelayView;

    open spec fn view(&self) -> DawRelayView {
        DawRelayView {
            targets: self.targets@,
            block_sessions: self.block_sessions@,
            media: self.decoders@.map_values(|decoder: MediaFecDecoder| media_datagrams_taken(decoder)),
        }
    }
}

/// Whether a listener is sent a datagram of a source, for a session where the datagram belongs to
/// one.
pub open spec fn listens(
    targets: Map<Endpoint, DawRelayTarget>,
    address: Endpoint,
    source: Endpoint,
    session_id: Option<u64>,
    now_ms: u64,
) -> bool {
    &&& targets.dom().contains(address)
    &&& address != source
    &&& targets[address].expires_at_ms > now_ms
    &&& targets[address].session_id matches Some(requested) ==> session_id == Some(requested)
}

/// When something expires that is heard of now.
pub open spec fn expiry(now_ms: u64) -> u64 {
    cap_u64(now_ms + DAW_RELAY_TARGET_TTL_MS) as u64
}

/// The session of a datagram of audio: its own, or that of its block where another datagram of the
/// block told it.
pub open spec fn audio_session(relay: DawRelayView, peer: Endpoint, datagram: Seq<u8>) -> Option<u64> {
    match audio_identity(datagram.skip(4)) {
        None => None,
        Some(identity) => match identity.session_id {
            Some(session_id) => Some(session_id),
            None => {
                let key = BlockKey { peer, block_id: identity.block_id };
                if relay.block_sessions.dom().contains(key) {
                    Some(relay.block_sessions[key].session_id)
                } else {
                    None
                }
            },
        },
    }
}

/// The sessions of the blocks once a datagram of audio told its own.
pub open spec fn blocks_told(
    relay: DawRelayView,
    peer: Endpoint,
    datagram: Seq<u8>,
    now_ms: u64,
) -> Map<BlockKey, BlockSession> {
    match audio_identity(datagram.skip(4)) {
        Some(identity) => match identity.session_id {
            Some(session_id) => relay.block_sessions.insert(
                BlockKey { peer, block_id: identity.block_id },
                BlockSession { session_id, expires_at_ms: expiry(now_ms) },
            ),
            None => relay.block_sessions,
        },
        None => relay.block_sessions,
    }
}

/// The datagrams of media that a source has sent.
pub open spec fn media_of(relay: DawRelayView, peer: Endpoint) -> Seq<Seq<u8>> {
    if relay.media.dom().contains(peer) {
        relay.media[peer]
    } else {
        Seq::empty()
    }
}

impl DawRelayView {
    /// The relay once a datagram came in.
    pub open spec fn after(self, peer: Endpoint, datagram: Seq<u8>, now_ms: u64) -> DawRelayView {
        match daw_message(datagram) {
            DawMessage::Subscribe => DawRelayView {
                targets: self.targets.insert(
                    peer,
                    DawRelayTarget { expires_at_ms: expiry(now_ms), session_id: None },
                ),
                ..self
            },
            DawMessage::SubscribeSession(session_id) => DawRelayView {
                targets: self.targets.insert(
                    peer,
                    DawRelayTarget { expires_at_ms: expiry(now_ms), session_id: Some(session_id) },
                ),
                ..self
            },
            DawMessage::Unsubscribe => DawRelayView {
                targets: self.targets.remove(peer),
                media: self.media.remove(peer),
                ..self
            },
            DawMessage::UnsubscribeSession(session_id) => DawRelayView {
                targets: if self.targets.dom().contains(peer) && self.targets[peer].session_id
                    == Some(session_id) {
                    self.targets.remove(peer)
                } else {
                    self.targets
                },
                media: self.media.remove(peer),
                ..self
            },
            DawMessage::AudioEpoch => DawRelayView {
                block_sessions: if self.targets == Map::<Endpoint, DawRelayTarget>::empty() {
                    self.block_sessions
                } else {
                    blocks_told(self, peer, datagram, now_ms)
                },
                ..self
            },
            DawMessage::Media => DawRelayView {
                media: self.media.insert(peer, media_of(self, peer).push(datagram)),
                ..self
            },
            _ => self,
        }
    }

    /// The relay once what has expired is forgotten.
    pub open spec fn cleaned(self, now_ms: u64) -> DawRelayView {
        DawRelayView {
            targets: Map::new(
                |address: Endpoint|
                    self.targets.dom().contains(address) && self.targets[address].expires_at_ms
                        > now_ms,
                |address: Endpoint| self.targets[address],
            ),
            block_sessions: Map::new(
                |key: BlockKey|
                    self.block_sessions.dom().contains(key) && self.block_sessions[key].expires_at_ms
                        > now_ms,
                |key: BlockKey| self.block_sessions[key],
            ),
            ..self
        }
    }
}

/// What to do about a datagram.
#[derive(Debug)]
pub enum DawAction {
    /// Nothing.
    Ignore,
    /// Nothing, and say that it was malformed.
    IgnoreMalformed,
    /// Answer its sender.
    Acknowledge(Vec<u8>),
    /// Send it to these listeners, hand it to the playlists' queue, and forward it.
    Audio { relay_to: Vec<Endpoint> },
    /// Send it to these listeners, and forward the access unit that it completes, if it does.
    Media { relay_to: Vec<Endpoint>, recovered: Result<Option<MediaFrame>, ()> },
}

/// Whether a list of addresses names each listener once.
pub open spec fn names_listeners(
    list: Seq<Endpoint>,
    targets: Map<Endpoint, DawRelayTarget>,
    source: Endpoint,
    session_id: Option<u64>,
    now_ms: u64,
) -> bool {
    &&& list.no_duplicates()
    &&& forall|address: Endpoint|
        #![trigger list.contains(address)]
        #![trigger listens(targets, address, source, session_id, now_ms)]
        list.contains(address) <==> listens(targets, address, source, session_id, now_ms)
}

/// Whether an action is what a datagram asks for.
pub open spec fn action_fits(
    action: DawAction,
    relay: DawRelayView,
    peer: Endpoint,
    datagram: Seq<u8>,
    now_ms: u64,
) -> bool {
    match daw_message(datagram) {
        DawMessage::Subscribe => action matches DawAction::Acknowledge(answer) && answer@
            == subscribe_ack(),
        DawMessage::SubscribeSession(session_id) => action matches DawAction::Acknowledge(answer)
            && answer@ == session_ack(session_id),
        DawMessage::MalformedSubscribe | DawMessage::MalformedUnsubscribe => action
            matches DawAction::IgnoreMalformed,
        DawMessage::AudioEpoch => action matches DawAction::Audio { relay_to } && names_listeners(
            relay_to@,
            relay.targets,
            peer,
            audio_session(relay, peer, datagram),
            now_ms,
        ),
        DawMessage::Media => {
            &&& action matches DawAction::Media { relay_to, recovered }
            &&& names_listeners(relay_to@, relay.targets, peer, None, now_ms)
            &&& recovered_view(recovered) == media_recovered(media_of(relay, peer), datagram)
        },
        _ => action matches DawAction::Ignore,
    }
}

impl DawRelay {
    /// Whether the tables are sound.
    pub open spec fn wf(&self) -> bool {
        self.targets.wf() && self.block_sessions.wf() && self.decoders.wf()
    }

    /// Nobody listens.
    pub fn new() -> (r: Self)
        ensures
            r.wf(),
            r@.targets == Map::<Endpoint, DawRelayTarget>::empty(),
            r@.block_sessions == Map::<BlockKey, BlockSession>::empty(),
            r@.media == Map::<Endpoint, Seq<Seq<u8>>>::empty(),
    {
        let relay = DawRelay {
            targets: Table::new(),
            block_sessions: Table::new(),
            decoders: Table::new(),
        };
        assert(relay@.media =~= Map::<Endpoint, Seq<Seq<u8>>>::empty());
        relay
    }

    /// The listeners that are sent a datagram of a source.
    pub fn listeners(&self, source: Endpoint, session_id: Option<u64>, now_ms: u64) -> (r: Vec<
        Endpoint,
    >)
        requires
            self.wf(),
        ensures
            names_listeners(r@, self@.targets, source, session_id, now_ms),
    {
        let ghost targets = self@.targets;
        let ghost keys = self.targets.keys@;
        let mut list: Vec<Endpoint> = Vec::new();
        let mut i: usize = 0;
        while i < self.targets.keys.len()
            invariant
                self.wf(),
                targets == self@.targets,
                keys == self.targets.keys@,
                i <= keys.len(),
                list@.no_duplicates(),
                forall|address: Endpoint|
                    #![trigger list@.contains(address)]
                    #![trigger listens(targets, address, source, session_id, now_ms)]
                    list@.contains(address) <==> listens(
                        targets,
                        address,
                        source,
                        session_id,
                        now_ms,
                    ) && keys.index_of(address) < i,
            decreases keys.len() - i,
        {
            let address = self.targets.keys[i];
            let target = self.targets.values[i];
            proof {
                assert(keys.contains(address));
                assert(keys.index_of(address) == i);
                assert(targets[address] == target);
                assert(!list@.contains(address)) by {
                    if list@.contains(address) {
                        assert(listens(targets, address, source, session_id, now_ms));
                    }
                }
            }
            let wanted = match target.session_id {
                None => true,
                Some(requested) => match session_id {
                    Some(session_id) => requested == session_id,
                    None => false,
                },
            };
            let sends = address != source && target.expires_at_ms > now_ms && wanted;
            let ghost older = list@;
            if sends {
                list.push(address);
            }
            proof {
                assert(sends == listens(targets, address, source, session_id, now_ms));
                assert(list@.no_duplicates()) by {
                    if sends {
                        assert forall|a: int, b: int| 0 <= a < b < list@.len() implies list@[a]
                            != list@[b] by {
                            if b == older.len() {
                                assert(older.contains(older[a]));
                            }
                        }
                    }
                }
                assert(list@.contains(address) == sends) by {
                    if sends {
                        assert(list@[older.len() as int] == address);
                    }
                }
                assert forall|other: Endpoint|
                    #![trigger list@.contains(other)]
                    #![trigger listens(targets, other, source, session_id, now_ms)]
                    list@.contains(other) <==> listens(
                        targets,
                        other,
                        source,
                        session_id,
                        now_ms,
                    ) && keys.index_of(other) < i + 1 by {
                    let heard = listens(targets, other, source, session_id, now_ms);
                    assert(older.contains(other) <==> heard && keys.index_of(other) < i);
                    assert(list@.contains(other) <==> older.contains(other) || (sends && other
                        == address)) by {
                        if older.contains(other) {
                            assert(list@[older.index_of(other)] == other);
                        }
                        if list@.contains(other) && sends {
                            let at = list@.index_of(other);
                            assert(at < older.len() ==> older[at] == other);
                        }
                    }
                    if heard && keys.index_of(other) == i {
                        assert(keys.contains(other));
                        assert(keys[keys.index_of(other)] == other);
                    }
                }
            }
            i = i + 1;
        }
        assert forall|address: Endpoint|
            list@.contains(address) <==> #[trigger] listens(
                targets,
                address,
                source,
                session_id,
                now_ms,
            ) by {
            if targets.dom().contains(address) {
                assert(keys.contains(address));
                assert(keys[keys.index_of(address)] == address);
            }
        }
        list
    }

    /// Learns the session of a datagram of audio.
    fn learn_session(&mut self, peer: Endpoint, datagram: &[u8], now_ms: u64) -> (r: Option<u64>)
        requires
            old(self).wf(),
            starts_with(datagram@, audio_epoch_magic()),
        ensures
            final(self).wf(),
            r == audio_session(old(self)@, peer, datagram@),
            final(self)@ == (DawRelayView {
                block_sessions: blocks_told(old(self)@, peer, datagram@, now_ms),
                ..old(self)@
            }),
    {
        let identity = match audio_epoch_payload(datagram) {
            Some(payload) => inspect_audio(payload),
            None => None,
        };
        match identity {
            None => None,
            Some(identity) => {
                let key = BlockKey { peer, block_id: identity.block_id };
                match identity.session_id {
                    Some(session_id) => {
                        let expires_at_ms: u64 = now_ms.saturating_add(DAW_RELAY_TARGET_TTL_MS);
                        self.block_sessions.insert(key, BlockSession { session_id, expires_at_ms });
                        Some(session_id)
                    },
                    None => match self.block_sessions.get(&key) {
                        Some(session) => Some(session.session_id),
                        None => None,
                    },
                }
            },
        }
    }

    /// Forgets what a source has sent of media.
    fn forget_media(&mut self, peer: Endpoint)
        requires
            old(self).wf(),
        ensures
            final(self).wf(),
            final(self)@ == (DawRelayView { media: old(self)@.media.remove(peer), ..old(self)@ }),
    {
        let _ = self.decoders.remove(&peer);
        assert(self@.media =~= old(self)@.media.remove(peer));
    }

    /// Recovers media from a datagram of a source.
    fn recover_media(&mut self, peer: Endpoint, datagram: &[u8]) -> (r: Result<
        Option<MediaFrame>,
        (),
    >)
        requires
            old(self).wf(),
        ensures
            final(self).wf(),
            recovered_view(r) == media_recovered(media_of(old(self)@, peer), datagram@),
            final(self)@ == (DawRelayView {
                media: old(self)@.media.insert(peer, media_of(old(self)@, peer).push(datagram@)),
                ..old(self)@
            }),
    {
        let mut decoder = match self.decoders.remove(&peer) {
            Some(decoder) => decoder,
            None => new_media_decoder(),
        };
        assert(media_datagrams_taken(decoder) == media_of(old(self)@, peer));
        let recovered = push_to_media_decoder(&mut decoder, datagram);
        self.decoders.insert(peer, decoder);
        assert(self@.media =~= old(self)@.media.insert(
            peer,
            media_of(old(self)@, peer).push(datagram@),
        ));
        recovered
    }

    /// Takes a datagram that came in.
    pub fn take_datagram(&mut self, peer: Endpoint, datagram: &[u8], now_ms: u64) -> (r: DawAction)
        requires
            old(self).wf(),
        ensures
            final(self).wf(),
            final(self)@ == old(self)@.after(peer, datagram@, now_ms),
            action_fits(r, old(self)@, peer, datagram@, now_ms),
    {
        let expires_at_ms: u64 = now_ms.saturating_add(DAW_RELAY_TARGET_TTL_MS);
        match classify_daw_datagram(datagram) {
            DawMessage::Empty | DawMessage::Acknowledgement => DawAction::Ignore,
            DawMessage::MalformedSubscribe | DawMessage::MalformedUnsubscribe =>
            DawAction::IgnoreMalformed,
            DawMessage::Subscribe => {
                self.targets.insert(peer, DawRelayTarget { expires_at_ms, session_id: None });
                DawAction::Acknowledge(subscribe_ack_bytes())
            },
            DawMessage::SubscribeSession(session_id) => {
                self.targets.insert(
                    peer,
                    DawRelayTarget { expires_at_ms, session_id: Some(session_id) },
                );
                DawAction::Acknowledge(daw_relay_session_ack(session_id))
            },
            DawMessage::Unsubscribe => {
                let _ = self.targets.remove(&peer);
                self.forget_media(peer);
                DawAction::Ignore
            },
            DawMessage::UnsubscribeSession(session_id) => {
                let leaves = match self.targets.get(&peer) {
                    Some(target) => match target.session_id {
                        Some(requested) => requested == session_id,
                        None => false,
                    },
                    None => false,
                };
                if leaves {
                    let _ = self.targets.remove(&peer);
                }
                self.forget_media(peer);
                DawAction::Ignore
            },
            DawMessage::AudioEpoch => {
                if self.targets.is_empty() {
                    let relay_to: Vec<Endpoint> = Vec::new();
                    assert(names_listeners(
                        relay_to@,
                        self@.targets,
                        peer,
                        audio_session(self@, peer, datagram@),
                        now_ms,
                    ));
                    return DawAction::Audio { relay_to };
                }
                let session_id = self.learn_session(peer, datagram, now_ms);
                let relay_to = self.listeners(peer, session_id, now_ms);
                DawAction::Audio { relay_to }
            },
            DawMessage::Media => {
                let relay_to = self.listeners(peer, None, now_ms);
                let recovered = self.recover_media(peer, datagram);
                DawAction::Media { relay_to, recovered }
            },
        }
    }

    /// Forgets what has expired.
    pub fn clean_up(&mut self, now_ms: u64)
        requires
            old(self).wf(),
        ensures
            final(self).wf(),
            final(self)@ == old(self)@.cleaned(now_ms),
    {
        let ghost before = *self;
        let mut stays: Vec<bool> = Vec::new();
        let mut i: usize = 0;
        while i < self.targets.values.len()
            invariant
                self.wf(),
                i <= self.targets.values@.len(),
                stays@.len() == i,
                forall|k: int|
                    0 <= k < i ==> #[trigger] stays@[k] == (self.targets.values@[k].expires_at_ms
                        > now_ms),
            decreases self.targets.values@.len() - i,
        {
            stays.push(self.targets.values[i].expires_at_ms > now_ms);
            i = i + 1;
        }
        self.targets.keep(&stays);
        let mut blocks: Vec<bool> = Vec::new();
        let mut j: usize = 0;
        while j < self.block_sessions.values.len()
            invariant
                self.wf(),
                j <= self.block_sessions.values@.len(),
                blocks@.len() == j,
                forall|k: int|
                    0 <= k < j ==> #[trigger] blocks@[k] == (
                    self.block_sessions.values@[k].expires_at_ms > now_ms),
            decreases self.block_sessions.values@.len() - j,
        {
            blocks.push(self.block_sessions.values[j].expires_at_ms > now_ms);
            j = j + 1;
        }
        self.block_sessions.keep(&blocks);
        proof {
            assert forall|address: Endpoint| before.targets@.dom().contains(address) implies
                stays@[before.targets.keys@.index_of(address)] == (
            #[trigger] before.targets@[address].expires_at_ms > now_ms) by {
                assert(before.targets.keys@.contains(address));
                assert(before.targets.keys@[before.targets.keys@.index_of(address)] == address);
            }
            assert forall|key: BlockKey| before.block_sessions@.dom().contains(key) implies
                blocks@[before.block_sessions.keys@.index_of(key)] == (
            #[trigger] before.block_sessions@[key].expires_at_ms > now_ms) by {
                assert(before.block_sessions.keys@.contains(key));
                assert(before.block_sessions.keys@[before.block_sessions.keys@.index_of(key)]
                    == key);
            }
            assert(self@.targets =~= before@.cleaned(now_ms).targets);
            assert(self@.block_sessions =~= before@.cleaned(now_ms).block_sessions);
        }
    }
}

/// A listener to one session is sent no other session's audio, and nothing of its own.
pub proof fn listeners_hear_their_session(
    targets: Map<Endpoint, DawRelayTarget>,
    address: Endpoint,
    source: Endpoint,
    session_id: Option<u64>,
    now_ms: u64,
)
    requires
        targets.dom().contains(address),
        targets[address].session_id is Some,
        targets[address].session_id != session_id,
    ensures
        !listens(targets, address, source, session_id, now_ms),
        !listens(targets, source, source, session_id, now_ms),
{
}

/// Forgetting what has expired changes nothing for those who are still sent datagrams.
pub proof fn cleaning_up_silences_nobody(
    relay: DawRelayView,
    address: Endpoint,
    source: Endpoint,
    session_id: Option<u64>,
    cleaned_ms: u64,
    now_ms: u64,
)
    requires
        cleaned_ms <= now_ms,
    ensures
        listens(relay.cleaned(cleaned_ms).targets, address, source, session_id, now_ms) == listens(
            relay.targets,
            address,
            source,
            session_id,
            now_ms,
        ),
{
}

/// Who asks to listen is sent what others send, until it expires or leaves.
pub proof fn subscribers_are_heard(
    relay: DawRelayView,
    peer: Endpoint,
    source: Endpoint,
    session_id: u64,
    asked_ms: u64,
    now_ms: u64,
)
    requires
        source != peer,
        asked_ms <= now_ms < asked_ms + DAW_RELAY_TARGET_TTL_MS,
        asked_ms + DAW_RELAY_TARGET_TTL_MS <= u64::MAX,
    ensures
        listens(
            relay.after(
                peer,
                subscribe_session_prefix() + digit_bytes(decimal(session_id as nat)),
                asked_ms,
            ).targets,
            peer,
            source,
            Some(session_id),
            now_ms,
        ),
        !relay.after(peer, unsubscribe_message(), now_ms).targets.dom().contains(peer),
{
    let message = subscribe_session_prefix() + digit_bytes(decimal(session_id as nat));
    session_messages_read_back(subscribe_session_prefix(), session_id);
    digits_spell(session_id as nat);
    assert(message[20] == 50 && subscribe_message()[20] == 49);
    assert(message.take(subscribe_session_prefix().len() as int) =~= subscribe_session_prefix());
    let leave = unsubscribe_message();
    assert(leave[10] == 85 && subscribe_message()[10] == 83);
    assert(!starts_with(leave, subscribe_session_prefix())) by {
        assert(leave.take(22)[10] == 85 && subscribe_session_prefix()[10] == 83);
    }
}

/// Who asks to listen, to all or to one session, is sent what others send from then on for as long as a
/// listener is kept, and is not once that time is over; who asks again is kept anew.
pub proof fn listeners_are_kept_for_a_while(
    relay: DawRelayView,
    peer: Endpoint,
    source: Endpoint,
    datagram: Seq<u8>,
    heard: Option<u64>,
    asked_ms: u64,
    now_ms: u64,
)
    requires
        source != peer,
        asked_ms <= now_ms,
        asked_ms + 15_000 <= u64::MAX,
    ensures
        ({
            let asked = relay.after(peer, datagram, asked_ms);
            let message = daw_message(datagram);
            &&& message is Subscribe ==> (listens(asked.targets, peer, source, heard, now_ms)
                <==> now_ms < asked_ms + 15_000)
            &&& message is SubscribeSession ==> (listens(
                asked.targets,
                peer,
                source,
                heard,
                now_ms,
            ) <==> now_ms < asked_ms + 15_000 && heard == Some(message->SubscribeSession_0))
            &&& message is Unsubscribe ==> !listens(asked.targets, peer, source, heard, now_ms)
            &&& message is UnsubscribeSession && relay.targets.dom().contains(peer)
                && relay.targets[peer].session_id == Some(message->UnsubscribeSession_0)
                ==> !listens(asked.targets, peer, source, heard, now_ms)
        }),
{
}

/// What one sender asks changes nothing for any other listener, and what is no request changes nothing
/// for any.
pub proof fn others_go_on_listening(
    relay: DawRelayView,
    peer: Endpoint,
    other: Endpoint,
    source: Endpoint,
    datagram: Seq<u8>,
    heard: Option<u64>,
    asked_ms: u64,
    now_ms: u64,
)
    ensures
        ({
            let after = relay.after(peer, datagram, asked_ms);
            let message = daw_message(datagram);
            let asks = message is Subscribe || message is SubscribeSession || message is Unsubscribe
                || message is UnsubscribeSession;
            &&& other != peer || !asks ==> listens(after.targets, other, source, heard, now_ms)
                == listens(relay.targets, other, source, heard, now_ms)
            &&& message is UnsubscribeSession && relay.targets.dom().contains(peer)
                && relay.targets[peer].session_id != Some(message->UnsubscribeSession_0)
                ==> listens(after.targets, peer, source, heard, now_ms) == listens(
                relay.targets,
                peer,
                source,
                heard,
                now_ms,
            )
            &&& !(message is Media || message is Unsubscribe || message is UnsubscribeSession)
                ==> after.media == relay.media
            &&& message is Media ==> media_of(after, peer) == media_of(relay, peer).push(datagram)
            &&& message is Unsubscribe || message is UnsubscribeSession ==> media_of(after, peer)
                == Seq::<Seq<u8>>::empty()
            &&& other != peer ==> media_of(after, other) == media_of(relay, other)
        }),
{
}

/// A datagram is sent on to every listener that is kept, but not back to its source, and to one that
/// asked for a session only where it is of that session; never twice to one.
pub proof fn everyone_who_listens_is_sent_to(
    action: DawAction,
    relay: DawRelayView,
    peer: Endpoint,
    datagram: Seq<u8>,
    now_ms: u64,
    address: Endpoint,
)
    requires
        action_fits(action, relay, peer, datagram, now_ms),
    ensures
        ({
            let kept = relay.targets.dom().contains(address) && address != peer
                && relay.targets[address].expires_at_ms > now_ms;
            let wants = relay.targets[address].session_id;
            &&& daw_message(datagram) is AudioEpoch ==> action is Audio
                && action->Audio_relay_to@.no_duplicates() && (action->Audio_relay_to@.contains(
                address,
            ) <==> kept && (wants is None || wants == audio_session(relay, peer, datagram)))
            &&& daw_message(datagram) is Media ==> action is Media
                && action->Media_relay_to@.no_duplicates() && (action->Media_relay_to@.contains(
                address,
            ) <==> kept && wants is None)
            &&& action is Audio ==> daw_message(datagram) is AudioEpoch
            &&& action is Media ==> daw_message(datagram) is Media
            &&& action is Acknowledge <==> daw_message(datagram) is Subscribe || daw_message(
                datagram,
            ) is SubscribeSession
        }),
{
    let listed = listens(
        relay.targets,
        address,
        peer,
        audio_session(relay, peer, datagram),
        now_ms,
    );
    let unlisted = listens(relay.targets, address, peer, None, now_ms);
}

/// Once a datagram of a block has told its session, another of the block that does not belongs to it
/// too, as long as anyone listens; blocks of others do not.
pub proof fn blocks_remember_their_session(
    relay: DawRelayView,
    peer: Endpoint,
    telling: Seq<u8>,
    silent: Seq<u8>,
    other: Endpoint,
    at_ms: u64,
)
    requires
        daw_message(telling) is AudioEpoch,
        relay.targets != Map::<Endpoint, DawRelayTarget>::empty(),
        audio_identity(telling.skip(4)) is Some,
        audio_identity(telling.skip(4))->Some_0.session_id is Some,
        audio_identity(silent.skip(4)) is Some,
        audio_identity(silent.skip(4))->Some_0.session_id is None,
        audio_identity(silent.skip(4))->Some_0.block_id == audio_identity(
            telling.skip(4),
        )->Some_0.block_id,
    ensures
        audio_session(relay.after(peer, telling, at_ms), peer, silent) == audio_identity(
            telling.skip(4),
        )->Some_0.session_id,
        audio_session(relay, peer, telling) == audio_identity(telling.skip(4))->Some_0.session_id,
        other != peer ==> audio_session(relay.after(peer, telling, at_ms), other, silent)
            == audio_session(relay, other, silent),
{
}

/// What has expired is forgotten, and nothing else.
pub proof fn only_the_expired_is_forgotten(
    relay: DawRelayView,
    address: Endpoint,
    key: BlockKey,
    now_ms: u64,
)
    ensures
        ({
            let after = relay.cleaned(now_ms);
            &&& after.targets.dom().contains(address) <==> relay.targets.dom().contains(address)
                && now_ms < relay.targets[address].expires_at_ms
            &&& after.targets.dom().contains(address) ==> after.targets[address]
                == relay.targets[address]
            &&& after.block_sessions.dom().contains(key) <==> relay.block_sessions.dom().contains(
                key,
            ) && now_ms < relay.block_sessions[key].expires_at_ms
            &&& after.block_sessions.dom().contains(key) ==> after.block_sessions[key]
                == relay.block_sessions[key]
            &&& after.media == relay.media
        }),
{
}

/// A datagram that the queue took counts as taken and one that it did not as dropped; the depth that is
/// reported is the greatest that was seen.
pub proof fn the_queue_is_counted(stats: AudioQueueStats, accepted: bool, depth: u64)
    ensures
        ({
            let after = handed_over(stats, accepted, depth);
            &&& accepted && stats.enqueued < u64::MAX ==> after.enqueued == stats.enqueued + 1
            &&& !accepted && stats.dropped < u64::MAX ==> after.dropped == stats.dropped + 1
            &&& accepted ==> after.dropped == stats.dropped && after.max_depth >= depth
                && after.max_depth >= stats.max_depth && (after.max_depth == depth
                || after.max_depth == stats.max_depth)
            &&& !accepted ==> after.enqueued == stats.enqueued && after.max_depth
                == stats.max_depth
        }),
{
    what_fits_is_kept();
}

/// The first sixteen dropped datagrams are worth a word, and so is every ten thousandth and every one
/// whose count doubles.
pub proof fn drops_are_told_less_and_less(dropped: u64)
    ensures
        dropped <= 16 ==> drop_is_logged(dropped),
        dropped % 10_000 == 0 ==> drop_is_logged(dropped),
        0 < dropped && 2 * dropped <= u64::MAX && power_of_two(dropped as nat) ==> drop_is_logged(
            (2 * dropped) as u64,
        ),
        dropped > 16 && dropped % 2 == 1 ==> !drop_is_logged(dropped),
{
}

} // verus!
