//! How a probe listens for datagrams: how it subscribes, how long it waits for one, and when it
//! subscribes again.
use crate::arith::{cap_u64, min_int, minus_floor};
use crate::bytes::copy_bytes;
use crate::probe::quic::varint_length;
use crate::service::daw_relay::{append_decimal_bytes, digit_bytes};
use crate::text::decimal;
use vstd::prelude::*;

verus! {

/// The longest that a probe waits for one datagram.
pub const LONGEST_POLL_NS: u64 = 250_000_000;

/// How often a probe subscribes again.
pub const SUBSCRIPTION_REFRESH_NS: u64 = 5_000_000_000;

/// How long a probe waits for its subscription to be acknowledged.
pub const ACKNOWLEDGEMENT_WAIT_NS: u64 = 3_000_000_000;

/// How long a probe waits for the next datagram.
pub open spec fn poll_length(stop_ns: u64, now_ns: u64) -> int {
    min_int(minus_floor(stop_ns as int, now_ns as int), LONGEST_POLL_NS as int)
}

/// How long a probe waits for the next datagram: until it stops, or for as long as it may.
pub fn poll_ns(stop_ns: u64, now_ns: u64) -> (r: u64)
    ensures
        r == poll_length(stop_ns, now_ns),
{
    let remaining: u64 = stop_ns.saturating_sub(now_ns);
    if remaining < LONGEST_POLL_NS {
        remaining
    } else {
        LONGEST_POLL_NS
    }
}

/// A probe that waits so never waits past its stop, and waits at all until then.
pub proof fn polls_end_at_the_stop(stop_ns: u64, now_ns: u64)
    ensures
        now_ns < stop_ns ==> now_ns < now_ns + poll_length(stop_ns, now_ns) <= stop_ns,
        now_ns >= stop_ns ==> poll_length(stop_ns, now_ns) == 0,
{
}

/// When a probe subscribes again.
#[derive(Debug, Clone, Copy, PartialEq, Eq, Structural)]
pub struct SubscriptionRefresh {
    pub next_ns: u64,
}

impl SubscriptionRefresh {
    /// Counts from a subscription.
    pub fn new(now_ns: u64) -> (r: SubscriptionRefresh)
        ensures
            r.next_ns == cap_u64(now_ns + SUBSCRIPTION_REFRESH_NS),
    {
        SubscriptionRefresh { next_ns: now_ns.saturating_add(SUBSCRIPTION_REFRESH_NS) }
    }

    /// Decides whether to subscribe again. The next time is counted from when this one was due, not
    /// from when it was noticed.
    pub fn is_due(&mut self, now_ns: u64) -> (r: bool)
        ensures
            r == (now_ns >= old(self).next_ns),
            final(self).next_ns == (if r {
                cap_u64(old(self).next_ns + SUBSCRIPTION_REFRESH_NS)
            } else {
                old(self).next_ns as int
            }),
    {
        if now_ns < self.next_ns {
            return false;
        }
        self.next_ns = self.next_ns.saturating_add(SUBSCRIPTION_REFRESH_NS);
        true
    }
}

/// What opens a subscription to a session's epochs.
pub open spec fn epoch_subscription_prefix() -> Seq<u8> {
    seq![
        87, 65, 86, 69, 89, 45, 65, 85, 68, 73, 79, 45, 69, 80, 79, 67, 72, 47, 50, 32,
    ]
}

/// What a probe sends in a datagram to be sent a session's epochs: the number of the datagram's
/// context, which is 0, and what it asks for.
pub open spec fn epoch_subscription(session_id: u64) -> Seq<u8> {
    seq![0u8] + epoch_subscription_prefix() + digit_bytes(decimal(session_id as nat))
}

/// What a probe sends in a datagram to be sent a session's epochs.
pub fn epoch_subscription_datagram(session_id: u64) -> (r: Vec<u8>)
    ensures
        r@ == epoch_subscription(session_id),
{
    let bytes: [u8; 21] = [
        0, 87, 65, 86, 69, 89, 45, 65, 85, 68, 73, 79, 45, 69, 80, 79, 67, 72, 47, 50, 32,
    ];
    let mut datagram = copy_bytes(bytes.as_slice());
    assert(datagram@ =~= seq![0u8] + epoch_subscription_prefix());
    append_decimal_bytes(&mut datagram, session_id);
    datagram
}

/// Without its context a subscription is what it asks for.
pub proof fn subscriptions_stand_behind_their_context(session_id: u64)
    ensures
        epoch_subscription(session_id).skip(varint_length(epoch_subscription(session_id)[0]))
            == epoch_subscription_prefix() + digit_bytes(decimal(session_id as nat)),
{
    let datagram = epoch_subscription(session_id);
    assert(datagram[0] == 0);
    assert(varint_length(0u8) == 1);
    assert(datagram.skip(1) =~= epoch_subscription_prefix() + digit_bytes(
        decimal(session_id as nat),
    ));
}

/// Decides whether a peer may end a session: not before all of its media is due. A report of a
/// session that ends later is complete.
pub fn may_end(media_end_ns: u64, now_ns: u64) -> (r: bool)
    ensures
        r == (now_ns >= media_end_ns),
{
    now_ns >= media_end_ns
}

} // verus!
