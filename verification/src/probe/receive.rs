//! What a receiver of datagrams learns of a group's epochs.
use crate::arith::{cap_u64, minus_floor, saturating_mul_u64};
use crate::audio_epoch_hls::group::{AudioGroup, AudioGroupView};
use crate::audio_epoch_hls::recovery::{
    audio_epoch_magic, audio_epoch_payload, counted_of, datagrams_taken, groups_recovered,
    groups_view, new_receiver, push_to_receiver, receiver_stats, ReceiverStats,
};
use crate::bytes::starts_with;
use crate::probe::plan::{epoch_count, epochs_in};
use music_audio_session::MultichannelAudioReceiver;
use std::collections::HashSet;
use vstd::prelude::*;

verus! {

/// What was received of a group.
#[derive(Debug)]
pub struct EpochReceiver {
    pub session_id: u64,
    pub group_id: u16,
    pub deadline_ms: u64,
    pub receiver: MultichannelAudioReceiver,
    /// The epochs that were received.
    pub epochs: HashSet<u64>,
    /// How long each of them took, in the order in which they came.
    pub latencies_ns: Vec<u64>,
    pub deadline_misses: u64,
    pub wire_bytes: u64,
}

/// What an [`EpochReceiver`] holds.
pub struct EpochReceiverView {
    pub session_id: u64,
    pub group_id: u16,
    pub deadline_ms: u64,
    pub taken: Seq<Seq<u8>>,
    pub epochs: Set<u64>,
    pub latencies_ns: Seq<u64>,
    pub deadline_misses: u64,
    pub wire_bytes: u64,
}

impl View for EpochReceiver {
    type V = EpochReceiverView;

    open spec fn view(&self) -> EpochReceiverView {
        EpochReceiverView {
            session_id: self.session_id,
            group_id: self.group_id,
            deadline_ms: self.deadline_ms,
            taken: datagrams_taken(self.receiver),
            epochs: self.epochs@,
            latencies_ns: self.latencies_ns@,
            deadline_misses: self.deadline_misses,
            wire_bytes: self.wire_bytes,
        }
    }
}

/// A count and one more, or the most that it holds.
pub open spec fn one_more(count: u64) -> u64 {
    cap_u64(count + 1) as u64
}

/// When a group's samples were captured.
pub open spec fn captured_at(session_id: u64, group: AudioGroupView) -> int {
    cap_u64(session_id + cap_u64(group.pts_samples * 1_000_000_000) / group.sample_rate as int)
}

/// How long a group took.
pub open spec fn group_latency(session_id: u64, group: AudioGroupView, arrival_ns: u64) -> u64 {
    minus_floor(arrival_ns as int, captured_at(session_id, group)) as u64
}

impl EpochReceiverView {
    /// What was received once a group is looked at: other sessions and groups are passed over, an
    /// epoch that comes again is only checked for its deadline.
    pub open spec fn with_group(self, group: AudioGroupView, arrival_ns: u64) -> EpochReceiverView {
        if group.session_id != self.session_id || group.group_id != self.group_id {
            self
        } else {
            let latency = group_latency(self.session_id, group, arrival_ns);
            let late = latency > cap_u64(self.deadline_ms * 1_000_000);
            let seen = self.epochs.contains(group.epoch_id);
            EpochReceiverView {
                deadline_misses: if late {
                    one_more(self.deadline_misses)
                } else {
                    self.deadline_misses
                },
                epochs: if seen {
                    self.epochs
                } else {
                    self.epochs.insert(group.epoch_id)
                },
                latencies_ns: if seen {
                    self.latencies_ns
                } else {
                    self.latencies_ns.push(latency)
                },
                ..self
            }
        }
    }

    /// What was received once groups are looked at.
    pub open spec fn with_groups(self, groups: Seq<AudioGroupView>, arrival_ns: u64) -> EpochReceiverView
        decreases groups.len(),
    {
        if groups.len() == 0 {
            self
        } else {
            self.with_groups(groups.drop_last(), arrival_ns).with_group(groups.last(), arrival_ns)
        }
    }

    /// What was received once a datagram came in that took so many bytes on the wire.
    pub open spec fn with_datagram(self, datagram: Seq<u8>, wire_len: u64, arrival_ns: u64) -> EpochReceiverView {
        if !starts_with(datagram, audio_epoch_magic()) {
            self
        } else {
            let payload = datagram.skip(4);
            let counted = EpochReceiverView {
                wire_bytes: cap_u64(self.wire_bytes + wire_len) as u64,
                taken: self.taken.push(payload),
                ..self
            };
            match groups_recovered(self.taken, payload) {
                Some(groups) => counted.with_groups(groups, arrival_ns),
                None => counted,
            }
        }
    }

    /// Whether it is known of every epoch how long it took.
    pub open spec fn wf(self) -> bool {
        self.epochs.finite() && self.epochs.len() == self.latencies_ns.len()
    }
}

/// What a receiver reports in whole numbers.
#[derive(Debug, Clone, Copy, PartialEq, Eq, Structural)]
pub struct ReceiveCounts {
    pub expected_epochs: u64,
    pub received_epochs: u64,
    pub missing_epochs: u64,
    pub deadline_misses: u64,
    pub wire_bytes: u64,
    pub stats: ReceiverStats,
}

impl EpochReceiver {
    /// Nothing was received.
    pub fn new(session_id: u64, group_id: u16, deadline_ms: u64) -> (r: Self)
        ensures
            r@ == (EpochReceiverView {
                session_id,
                group_id,
                deadline_ms,
                taken: Seq::empty(),
                epochs: Set::empty(),
                latencies_ns: Seq::empty(),
                deadline_misses: 0,
                wire_bytes: 0,
            }),
            r@.wf(),
    {
        let receiver = EpochReceiver {
            session_id,
            group_id,
            deadline_ms,
            receiver: new_receiver(),
            epochs: HashSet::new(),
            latencies_ns: Vec::new(),
            deadline_misses: 0,
            wire_bytes: 0,
        };
        assert(receiver.epochs@ =~= Set::<u64>::empty());
        assert(receiver.latencies_ns@ =~= Seq::<u64>::empty());
        receiver
    }

    /// Looks at a group.
    fn take_group(&mut self, group: &AudioGroup, arrival_ns: u64)
        requires
            old(self)@.wf(),
            group.sample_rate > 0,
        ensures
            final(self)@ == old(self)@.with_group(group@, arrival_ns),
            final(self)@.wf(),
    {
        if group.session_id != self.session_id || group.group_id != self.group_id {
            return;
        }
        let offset_ns: u64 = saturating_mul_u64(group.pts_samples, 1_000_000_000) / (
        group.sample_rate as u64);
        let capture_ns: u64 = self.session_id.saturating_add(offset_ns);
        let latency_ns: u64 = arrival_ns.saturating_sub(capture_ns);
        if latency_ns > saturating_mul_u64(self.deadline_ms, 1_000_000) {
            self.deadline_misses = self.deadline_misses.saturating_add(1);
        }
        broadcast use vstd::std_specs::hash::group_hash_axioms;

        if self.epochs.insert(group.epoch_id) {
            self.latencies_ns.push(latency_ns);
        } else {
            assert(self@.epochs =~= old(self)@.epochs);
        }
    }

    /// Takes a datagram that came in, and tells whether it could be read. What is no part of an
    /// epoch is passed over.
    pub fn take_datagram(&mut self, datagram: &[u8], wire_len: u64, arrival_ns: u64) -> (r: bool)
        requires
            old(self)@.wf(),
        ensures
            final(self)@ == old(self)@.with_datagram(datagram@, wire_len, arrival_ns),
            final(self)@.wf(),
            r == (starts_with(datagram@, audio_epoch_magic()) ==> groups_recovered(
                old(self)@.taken,
                datagram@.skip(4),
            ) is Some),
    {
        let payload = match audio_epoch_payload(datagram) {
            Some(payload) => payload,
            None => {
                return true;
            },
        };
        self.wire_bytes = self.wire_bytes.saturating_add(wire_len);
        match push_to_receiver(&mut self.receiver, payload) {
            None => false,
            Some(groups) => {
                let ghost counted = self@;
                let ghost all = groups_view(groups@);
                let mut i: usize = 0;
                while i < groups.len()
                    invariant
                        i <= groups@.len(),
                        all == groups_view(groups@),
                        forall|k: int|
                            0 <= k < groups@.len() ==> (#[trigger] groups@[k]).sample_rate > 0,
                        self@ == counted.with_groups(all.take(i as int), arrival_ns),
                        self@.wf(),
                    decreases groups@.len() - i,
                {
                    let ghost head = all.take(i + 1);
                    assert(head.drop_last() =~= all.take(i as int));
                    assert(head.last() == groups@[i as int]@);
                    self.take_group(&groups[i], arrival_ns);
                    i = i + 1;
                }
                assert(all.take(i as int) =~= all);
                true
            },
        }
    }

    /// What is reported of what was received in so many seconds.
    pub fn counts(&self, duration_seconds: u64) -> (r: ReceiveCounts)
        ensures
            r == (ReceiveCounts {
                expected_epochs: epochs_in(duration_seconds),
                received_epochs: self@.epochs.len() as u64,
                missing_epochs: minus_floor(
                    epochs_in(duration_seconds) as int,
                    self@.epochs.len() as int,
                ) as u64,
                deadline_misses: self@.deadline_misses,
                wire_bytes: self@.wire_bytes,
                stats: counted_of(self@.taken),
            }),
    {
        broadcast use vstd::std_specs::hash::group_hash_axioms;

        let expected_epochs: u64 = epoch_count(duration_seconds);
        let received_epochs: u64 = self.epochs.len() as u64;
        ReceiveCounts {
            expected_epochs,
            received_epochs,
            missing_epochs: expected_epochs.saturating_sub(received_epochs),
            deadline_misses: self.deadline_misses,
            wire_bytes: self.wire_bytes,
            stats: receiver_stats(&self.receiver),
        }
    }
}

/// An epoch that comes again changes nothing but the count of missed deadlines.
pub proof fn epochs_count_once(
    receiver: EpochReceiverView,
    group: AudioGroupView,
    first_ns: u64,
    again_ns: u64,
)
    ensures
        ({
            let once = receiver.with_group(group, first_ns);
            let twice = once.with_group(group, again_ns);
            &&& twice.epochs == once.epochs
            &&& twice.latencies_ns == once.latencies_ns
        }),
{
}

/// A group of the session and group that are listened to is judged by when its samples were captured: it
/// is late where it took longer than the deadline, and its epoch and how long it took are kept once.
/// Any other group changes nothing.
pub proof fn groups_are_judged_on_arrival(
    receiver: EpochReceiverView,
    group: AudioGroupView,
    arrival_ns: u64,
)
    requires
        group.sample_rate > 0,
        group.pts_samples * 1_000_000_000 <= u64::MAX,
        receiver.session_id + group.pts_samples * 1_000_000_000 <= u64::MAX,
        receiver.deadline_ms * 1_000_000 <= u64::MAX,
    ensures
        ({
            let after = receiver.with_group(group, arrival_ns);
            let mine = group.session_id == receiver.session_id && group.group_id
                == receiver.group_id;
            let captured = receiver.session_id + (group.pts_samples * 1_000_000_000)
                / group.sample_rate as int;
            let seen = receiver.epochs.contains(group.epoch_id);
            let late = arrival_ns > captured + receiver.deadline_ms * 1_000_000;
            &&& !mine ==> after == receiver
            &&& mine ==> after.epochs == receiver.epochs.insert(group.epoch_id)
            &&& mine && seen ==> after.latencies_ns == receiver.latencies_ns
            &&& mine && !seen ==> after.latencies_ns.len() == receiver.latencies_ns.len() + 1
                && after.latencies_ns.drop_last() == receiver.latencies_ns && (captured
                <= arrival_ns ==> after.latencies_ns.last() + captured == arrival_ns) && (captured
                > arrival_ns ==> after.latencies_ns.last() == 0)
            &&& mine && late && receiver.deadline_misses < u64::MAX ==> after.deadline_misses
                == receiver.deadline_misses + 1
            &&& mine && !late ==> after.deadline_misses == receiver.deadline_misses
            &&& after.wire_bytes == receiver.wire_bytes && after.taken == receiver.taken
        }),
{
    let after = receiver.with_group(group, arrival_ns);
    let span = group.pts_samples * 1_000_000_000;
    let rate = group.sample_rate as int;
    assert(0 <= span / rate <= span) by (nonlinear_arith)
        requires
            span >= 0,
            rate > 0,
    ;
    if receiver.epochs.contains(group.epoch_id) {
        assert(receiver.epochs.insert(group.epoch_id) =~= receiver.epochs);
    }
    if group.session_id == receiver.session_id && group.group_id == receiver.group_id
        && !receiver.epochs.contains(group.epoch_id) {
        assert(after.latencies_ns.drop_last() =~= receiver.latencies_ns);
    }
}

/// Groups that complete together are taken one behind the other.
pub proof fn groups_are_taken_in_turn(
    receiver: EpochReceiverView,
    front: Seq<AudioGroupView>,
    back: Seq<AudioGroupView>,
    arrival_ns: u64,
)
    ensures
        receiver.with_groups(front + back, arrival_ns) == receiver.with_groups(
            front,
            arrival_ns,
        ).with_groups(back, arrival_ns),
    decreases back.len(),
{
    if back.len() == 0 {
        assert(front + back =~= front);
    } else {
        assert((front + back).drop_last() =~= front + back.drop_last());
        assert((front + back).last() == back.last());
        groups_are_taken_in_turn(receiver, front, back.drop_last(), arrival_ns);
    }
}

/// A datagram of an epoch is counted with all its bytes, and handed on without what opens it; any
/// other changes nothing.
pub proof fn epoch_datagrams_are_counted(
    receiver: EpochReceiverView,
    payload: Seq<u8>,
    wire_len: u64,
    arrival_ns: u64,
)
    requires
        receiver.wire_bytes + wire_len <= u64::MAX,
    ensures
        ({
            let after = receiver.with_datagram(
                audio_epoch_magic() + payload,
                wire_len,
                arrival_ns,
            );
            let counted = EpochReceiverView {
                wire_bytes: (receiver.wire_bytes + wire_len) as u64,
                taken: receiver.taken.push(payload),
                ..receiver
            };
            &&& groups_recovered(receiver.taken, payload) is None ==> after == counted
            &&& groups_recovered(receiver.taken, payload) matches Some(groups) ==> after
                == counted.with_groups(groups, arrival_ns)
        }),
        !starts_with(payload, audio_epoch_magic()) ==> receiver.with_datagram(
            payload,
            wire_len,
            arrival_ns,
        ) == receiver,
{
    let datagram = audio_epoch_magic() + payload;
    assert(datagram.skip(4) =~= payload);
    assert(datagram.take(4) =~= audio_epoch_magic());
    assert(starts_with(datagram, audio_epoch_magic()));
}

} // verus!
