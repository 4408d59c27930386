//! The worker that turns datagrams into groups and keeps track of its sources and renditions.
use crate::arith::{sums_may_be_reduced, what_fits_is_kept, minus_floor, wrapped_u64, wrapping_add_u64};
use crate::audio_epoch_hls::group::{AudioGroup, AudioGroupView};
use crate::audio_epoch_hls::recovery::{
    audio_epoch_magic, audio_epoch_payload, datagrams_taken, groups_recovered, groups_view,
    new_receiver, push_to_receiver,
};
use crate::audio_epoch_hls::rendition::RenditionKey;
use crate::bytes::starts_with;
use crate::seqs::{filter_empty, filter_push};
use music_audio_session::MultichannelAudioReceiver;
use vstd::prelude::*;

verus! {

/// Datagrams that wait for the worker unless it is told otherwise.
pub const DEFAULT_AUDIO_EPOCH_HLS_QUEUE_CAPACITY: usize = 4_096;

/// Milliseconds between two searches for idle sources and renditions.
pub const AUDIO_EPOCH_IDLE_SWEEP_INTERVAL_MS: u64 = 5_000;

/// Milliseconds of silence after which a source or a rendition is retired.
pub const AUDIO_EPOCH_IDLE_TIMEOUT_MS: u64 = 30_000;

/// What the worker has counted.
#[derive(Debug, Clone, Copy, PartialEq, Eq, Structural)]
pub struct AudioEpochHlsWorkerStats {
    pub datagrams: u64,
    pub groups_completed: u64,
    pub raptorq_fragments_recovered: u64,
    pub errors: u64,
    pub active_receivers: u64,
    pub active_rendition_workers: u64,
    pub retired_receivers: u64,
    pub retired_rendition_workers: u64,
}

impl Default for AudioEpochHlsWorkerStats {
    fn default() -> (r: Self)
        ensures
            r == no_stats(),
    {
        AudioEpochHlsWorkerStats {
            datagrams: 0,
            groups_completed: 0,
            raptorq_fragments_recovered: 0,
            errors: 0,
            active_receivers: 0,
            active_rendition_workers: 0,
            retired_receivers: 0,
            retired_rendition_workers: 0,
        }
    }
}

/// Nothing counted.
pub open spec fn no_stats() -> AudioEpochHlsWorkerStats {
    AudioEpochHlsWorkerStats {
        datagrams: 0,
        groups_completed: 0,
        raptorq_fragments_recovered: 0,
        errors: 0,
        active_receivers: 0,
        active_rendition_workers: 0,
        retired_receivers: 0,
        retired_rendition_workers: 0,
    }
}

/// The length of the queue before the worker: at least one datagram fits.
pub fn queue_capacity(capacity: usize) -> (r: usize)
    ensures
        r == (if capacity == 0 {
            1
        } else {
            capacity
        }),
{
    if capacity == 0 {
        1
    } else {
        capacity
    }
}

/// A source and its receiver.
pub struct ReceiverState {
    pub peer: u64,
    pub receiver: MultichannelAudioReceiver,
    pub last_seen_ms: u64,
}

/// What a [`ReceiverState`] holds.
pub struct ReceiverView {
    pub peer: u64,
    pub taken: Seq<Seq<u8>>,
    pub last_seen_ms: u64,
}

impl View for ReceiverState {
    type V = ReceiverView;

    open spec fn view(&self) -> ReceiverView {
        ReceiverView {
            peer: self.peer,
            taken: datagrams_taken(self.receiver),
            last_seen_ms: self.last_seen_ms,
        }
    }
}

/// A rendition that is being worked on.
#[derive(Debug, Clone, Copy, PartialEq, Eq, Structural)]
pub struct RenditionSlot {
    pub key: RenditionKey,
    pub last_seen_ms: u64,
}

/// The worker's sources, renditions and counters.
pub struct AudioEpochWorker {
    pub receivers: Vec<ReceiverState>,
    pub renditions: Vec<RenditionSlot>,
    pub stats: AudioEpochHlsWorkerStats,
}

/// What an [`AudioEpochWorker`] holds.
pub struct WorkerView {
    pub receivers: Seq<ReceiverView>,
    pub renditions: Seq<RenditionSlot>,
    pub stats: AudioEpochHlsWorkerStats,
}

impl View for AudioEpochWorker {
    type V = WorkerView;

    open spec fn view(&self) -> WorkerView {
        WorkerView {
            receivers: receivers_view(self.receivers@),
            renditions: self.renditions@,
            stats: self.stats,
        }
    }
}

/// What a list of sources holds.
pub open spec fn receivers_view(receivers: Seq<ReceiverState>) -> Seq<ReceiverView> {
    receivers.map_values(|receiver: ReceiverState| receiver@)
}

/// Where a source stands in a list, if it is there.
pub open spec fn peer_position(receivers: Seq<ReceiverView>, peer: u64) -> Option<int>
    decreases receivers.len(),
{
    if receivers.len() == 0 {
        None
    } else if receivers.last().peer == peer {
        Some(receivers.len() - 1)
    } else {
        peer_position(receivers.drop_last(), peer)
    }
}

/// Where a rendition stands in a list, if it is there.
pub open spec fn slot_position(slots: Seq<RenditionSlot>, key: RenditionKey) -> Option<int>
    decreases slots.len(),
{
    if slots.len() == 0 {
        None
    } else if slots.last().key == key {
        Some(slots.len() - 1)
    } else {
        slot_position(slots.drop_last(), key)
    }
}

/// Whether something seen at one time is still in use at another.
pub open spec fn in_use(last_seen_ms: u64, now_ms: u64) -> bool {
    minus_floor(now_ms as int, last_seen_ms as int) < AUDIO_EPOCH_IDLE_TIMEOUT_MS
}

/// The condition under which a source is kept.
pub open spec fn receivers_in_use(now_ms: u64) -> spec_fn(ReceiverView) -> bool {
    |receiver: ReceiverView| in_use(receiver.last_seen_ms, now_ms)
}

/// The condition under which a rendition is kept.
pub open spec fn slots_in_use(now_ms: u64) -> spec_fn(RenditionSlot) -> bool {
    |slot: RenditionSlot| in_use(slot.last_seen_ms, now_ms)
}

/// The condition under which a rendition is retired.
pub open spec fn slots_idle(now_ms: u64) -> spec_fn(RenditionSlot) -> bool {
    |slot: RenditionSlot| !in_use(slot.last_seen_ms, now_ms)
}

/// Fragments that recovery contributed to some groups.
pub open spec fn recovered_fragments(groups: Seq<AudioGroupView>) -> int
    decreases groups.len(),
{
    if groups.len() == 0 {
        0
    } else {
        recovered_fragments(groups.drop_last()) + groups.last().raptorq_recovered_fragments
    }
}

impl WorkerView {
    /// The worker with a source that was just heard of.
    pub open spec fn heard(self, peer: u64, now_ms: u64) -> Self {
        match peer_position(self.receivers, peer) {
            Some(at) => WorkerView {
                receivers: self.receivers.update(
                    at,
                    ReceiverView { last_seen_ms: now_ms, ..self.receivers[at] },
                ),
                ..self
            },
            None => WorkerView {
                receivers: self.receivers.push(
                    ReceiverView { peer, taken: Seq::empty(), last_seen_ms: now_ms },
                ),
                stats: AudioEpochHlsWorkerStats {
                    active_receivers: wrapped_u64(self.stats.active_receivers + 1),
                    ..self.stats
                },
                ..self
            },
        }
    }

    /// The worker after a datagram's payload from a source that was heard of, and the groups that
    /// it completed, if it was not refused.
    pub open spec fn received(self, at: int, payload: Seq<u8>) -> (Self, Option<Seq<AudioGroupView>>) {
        let source = self.receivers[at];
        let groups = groups_recovered(source.taken, payload);
        (
            WorkerView {
                receivers: self.receivers.update(
                    at,
                    ReceiverView { taken: source.taken.push(payload), ..source },
                ),
                stats: self.counted(groups),
                ..self
            },
            groups,
        )
    }

    /// The counters after a datagram that completed some groups or was refused.
    pub open spec fn counted(self, groups: Option<Seq<AudioGroupView>>) -> AudioEpochHlsWorkerStats {
        match groups {
            Some(groups) => AudioEpochHlsWorkerStats {
                datagrams: wrapped_u64(self.stats.datagrams + 1),
                groups_completed: wrapped_u64(self.stats.groups_completed + groups.len()),
                raptorq_fragments_recovered: wrapped_u64(
                    self.stats.raptorq_fragments_recovered + recovered_fragments(groups),
                ),
                ..self.stats
            },
            None => AudioEpochHlsWorkerStats {
                errors: wrapped_u64(self.stats.errors + 1),
                ..self.stats
            },
        }
    }

    /// Whether the counters of what is active agree with what is there.
    pub open spec fn counts_agree(self) -> bool {
        &&& self.stats.active_receivers == self.receivers.len()
        &&& self.stats.active_rendition_workers == self.renditions.len()
    }
}

/// What became of a datagram.
pub enum Received {
    /// The datagram does not belong to an audio epoch.
    Invalid,
    /// Recovery refused the datagram.
    Refused,
    /// The datagram was taken and completed these groups.
    Groups(Vec<AudioGroup>),
}

/// What the worker has counted.
pub fn worker_stats(worker: &AudioEpochWorker) -> (r: AudioEpochHlsWorkerStats)
    ensures
        r == worker@.stats,
{
    worker.stats
}

impl AudioEpochWorker {
    /// A worker without sources.
    pub fn new() -> (r: Self)
        ensures
            r@ == (WorkerView {
                receivers: Seq::empty(),
                renditions: Seq::empty(),
                stats: no_stats(),
            }),
            r@.counts_agree(),
    {
        let r = AudioEpochWorker {
            receivers: Vec::new(),
            renditions: Vec::new(),
            stats: AudioEpochHlsWorkerStats::default(),
        };
        assert(r@.receivers =~= Seq::empty());
        assert(r@.renditions =~= Seq::empty());
        r
    }

    fn hear(&mut self, peer: u64, now_ms: u64) -> (r: usize)
        ensures
            final(self)@ == old(self)@.heard(peer, now_ms),
            peer_position(final(self)@.receivers, peer) == Some(r as int),
            r < final(self).receivers@.len(),
    {
        let ghost before = self@.receivers;
        let mut i: usize = self.receivers.len();
        assert(before.take(i as int) =~= before);
        while i > 0
            invariant
                i <= self.receivers@.len(),
                *self == *old(self),
                before == receivers_view(self.receivers@),
                peer_position(before, peer) == peer_position(before.take(i as int), peer),
            decreases i,
        {
            assert(before.take(i as int).last() == self.receivers@[i - 1]@);
            assert(before.take(i as int).drop_last() =~= before.take(i - 1));
            if self.receivers[i - 1].peer == peer {
                let entry = &mut self.receivers[i - 1];
                entry.last_seen_ms = now_ms;
                proof {
                    let after = self@.receivers;
                    assert(after =~= before.update(
                        i - 1,
                        (ReceiverView { last_seen_ms: now_ms, ..before[i - 1] }),
                    ));
                    same_peers_same_position(before, after, peer);
                }
                return i - 1;
            }
            i = i - 1;
        }
        let receiver = ReceiverState { peer, receiver: new_receiver(), last_seen_ms: now_ms };
        self.receivers.push(receiver);
        self.stats.active_receivers = wrapping_add_u64(self.stats.active_receivers, 1);
        assert(self@.receivers =~= before.push(
            ReceiverView { peer, taken: Seq::empty(), last_seen_ms: now_ms },
        ));
        self.receivers.len() - 1
    }

    /// Takes a datagram from a source: what it completes, or why nothing came of it.
    pub fn take_datagram(&mut self, peer: u64, datagram: &[u8], now_ms: u64) -> (r: Received)
        ensures
            if !starts_with(datagram@, audio_epoch_magic()) {
                r is Invalid && final(self)@ == old(self)@
            } else {
                let heard = old(self)@.heard(peer, now_ms);
                let at = peer_position(heard.receivers, peer);
                let (after, groups) = heard.received(at->Some_0, datagram@.skip(4));
                &&& at is Some
                &&& final(self)@ == after
                &&& match groups {
                    Some(groups) => r matches Received::Groups(found) && groups_view(found@) == groups,
                    None => r is Refused,
                }
            },
    {
        proof {
            what_fits_is_kept();
        }
        let payload = match audio_epoch_payload(datagram) {
            Some(payload) => payload,
            None => {
                return Received::Invalid;
            },
        };
        let at: usize = self.hear(peer, now_ms);
        let ghost heard = self@;
        let entry = &mut self.receivers[at];
        let found = push_to_receiver(&mut entry.receiver, payload);
        assert(self@.receivers =~= heard.received(at as int, payload@).0.receivers);
        match found {
            Some(groups) => {
                self.stats.datagrams = wrapping_add_u64(self.stats.datagrams, 1);
                let ghost all = groups_view(groups@);
                let ghost base = self.stats;
                let mut i: usize = 0;
                assert(all.take(0) =~= Seq::empty());
                while i < groups.len()
                    invariant
                        i <= groups@.len(),
                        all == groups_view(groups@),
                        self@.receivers == heard.received(at as int, payload@).0.receivers,
                        self@.renditions == heard.renditions,
                        self.stats == (AudioEpochHlsWorkerStats {
                            groups_completed: wrapped_u64(base.groups_completed + i),
                            raptorq_fragments_recovered: wrapped_u64(
                                base.raptorq_fragments_recovered + recovered_fragments(
                                    all.take(i as int),
                                ),
                            ),
                            ..base
                        }),
                    decreases groups@.len() - i,
                {
                    assert(all.take(i + 1).drop_last() =~= all.take(i as int));
                    assert(all[i as int] == groups@[i as int]@);
                    proof {
                        sums_may_be_reduced(base.groups_completed + i, 1);
                        sums_may_be_reduced(
                            base.raptorq_fragments_recovered + recovered_fragments(
                                all.take(i as int),
                            ),
                            groups@[i as int].raptorq_recovered_fragments as int,
                        );
                    }
                    self.stats.groups_completed = wrapping_add_u64(self.stats.groups_completed, 1);
                    self.stats.raptorq_fragments_recovered = wrapping_add_u64(
                        self.stats.raptorq_fragments_recovered,
                        groups[i].raptorq_recovered_fragments as u64,
                    );
                    i = i + 1;
                }
                assert(all.take(i as int) =~= all);
                Received::Groups(groups)
            },
            None => {
                self.stats.errors = wrapping_add_u64(self.stats.errors, 1);
                Received::Refused
            },
        }
    }
}

impl AudioEpochWorker {
    /// Retires the sources that have been silent for too long.
    pub fn retire_idle_receivers(&mut self, now_ms: u64)
        ensures
            ({
                let kept = old(self)@.receivers.filter(receivers_in_use(now_ms));
                let retired = old(self)@.receivers.len() - kept.len();
                final(self)@ == (WorkerView {
                    receivers: kept,
                    stats: AudioEpochHlsWorkerStats {
                        active_receivers: wrapped_u64(old(self)@.stats.active_receivers - retired),
                        retired_receivers: wrapped_u64(old(self)@.stats.retired_receivers + retired),
                        ..old(self)@.stats
                    },
                    ..old(self)@
                })
            }),
    {
        proof {
            reveal(wrapped_u64);
        }
        let ghost before = self@.receivers;
        let ghost keep = receivers_in_use(now_ms);
        let mut kept: Vec<ReceiverState> = Vec::new();
        let mut rest: Vec<ReceiverState> = Vec::new();
        core::mem::swap(&mut self.receivers, &mut rest);
        let total: usize = rest.len();
        let mut retired: u64 = 0;
        let ghost all = rest@;
        proof {
            filter_empty(before.skip(total as int), keep);
            assert(receivers_view(kept@) =~= Seq::empty());
            assert(rest@ =~= all.take(total as int));
        }
        while rest.len() > 0
            invariant
                before == receivers_view(all),
                all.len() == total,
                rest@ == all.take(rest@.len() as int),
                rest@.len() <= total,
                keep == receivers_in_use(now_ms),
                receivers_view(kept@).reverse() == before.skip(rest@.len() as int).filter(keep),
                retired + kept@.len() + rest@.len() == total,
                self@.renditions == old(self)@.renditions,
                self@.stats == old(self)@.stats,
            decreases rest@.len(),
        {
            let ghost at = rest@.len() - 1;
            let entry = rest.pop();
            assert(rest@ =~= all.take(at));
            match entry {
                Some(entry) => {
                    assert(before[at] == entry@);
                    proof {
                        filter_front(before.skip(at), keep);
                        assert(before.skip(at).skip(1) =~= before.skip(at + 1));
                    }
                    if now_ms.saturating_sub(entry.last_seen_ms) < AUDIO_EPOCH_IDLE_TIMEOUT_MS {
                        let ghost older = receivers_view(kept@);
                        kept.push(entry);
                        assert(receivers_view(kept@) =~= older.push(entry@));
                        assert(receivers_view(kept@).reverse() =~= seq![entry@] + older.reverse());
                    } else {
                        retired = retired + 1;
                    }
                },
                None => {},
            }
        }
        let ghost backwards = kept@;
        let mut ordered: Vec<ReceiverState> = Vec::new();
        let count: usize = kept.len();
        while kept.len() > 0
            invariant
                kept@ == backwards.take(kept@.len() as int),
                kept@.len() <= backwards.len(),
                ordered@ == backwards.reverse().take(backwards.len() - kept@.len()),
                self@.renditions == old(self)@.renditions,
                self@.stats == old(self)@.stats,
            decreases kept@.len(),
        {
            let ghost left = kept@.len();
            match kept.pop() {
                Some(entry) => {
                    ordered.push(entry);
                    assert(kept@ =~= backwards.take(left - 1));
                    assert(ordered@ =~= backwards.reverse().take(backwards.len() - left + 1));
                },
                None => {},
            }
        }
        self.receivers = ordered;
        self.stats.active_receivers = self.stats.active_receivers.wrapping_sub(retired);
        self.stats.retired_receivers = wrapping_add_u64(self.stats.retired_receivers, retired);
        proof {
            assert(ordered@ =~= backwards.reverse());
            assert(receivers_view(ordered@) =~= receivers_view(backwards).reverse());
            assert(before.skip(0) =~= before);
        }
    }

    /// Retires the renditions that have been silent for too long, and names them so that their
    /// work can be stopped.
    pub fn retire_idle_rendition_workers(&mut self, now_ms: u64) -> (r: Vec<RenditionKey>)
        ensures
            final(self)@ == (WorkerView {
                renditions: old(self)@.renditions.filter(slots_in_use(now_ms)),
                stats: AudioEpochHlsWorkerStats {
                    retired_rendition_workers: wrapped_u64(
                        old(self)@.stats.retired_rendition_workers + r@.len(),
                    ),
                    ..old(self)@.stats
                },
                ..old(self)@
            }),
            r@ == old(self)@.renditions.filter(slots_idle(now_ms)).map_values(
                |slot: RenditionSlot| slot.key,
            ),
    {
        let ghost before = self@.renditions;
        let mut kept: Vec<RenditionSlot> = Vec::new();
        let mut idle: Vec<RenditionKey> = Vec::new();
        let mut i: usize = 0;
        proof {
            filter_empty(before.take(0), slots_in_use(now_ms));
            filter_empty(before.take(0), slots_idle(now_ms));
            assert(idle@ =~= before.take(0).filter(slots_idle(now_ms)).map_values(
                |slot: RenditionSlot| slot.key,
            ));
        }
        while i < self.renditions.len()
            invariant
                i <= self.renditions@.len(),
                *self == *old(self),
                before == self.renditions@,
                kept@ == before.take(i as int).filter(slots_in_use(now_ms)),
                idle@ == before.take(i as int).filter(slots_idle(now_ms)).map_values(
                    |slot: RenditionSlot| slot.key,
                ),
            decreases self.renditions@.len() - i,
        {
            let slot = self.renditions[i];
            proof {
                assert(before.take(i + 1) =~= before.take(i as int).push(slot));
                filter_push(before.take(i as int), slot, slots_in_use(now_ms));
                filter_push(before.take(i as int), slot, slots_idle(now_ms));
            }
            if now_ms.saturating_sub(slot.last_seen_ms) >= AUDIO_EPOCH_IDLE_TIMEOUT_MS {
                let ghost older = before.take(i as int).filter(slots_idle(now_ms));
                idle.push(slot.key);
                assert(idle@ =~= older.push(slot).map_values(|slot: RenditionSlot| slot.key));
            } else {
                kept.push(slot);
            }
            i = i + 1;
        }
        assert(before.take(i as int) =~= before);
        self.renditions = kept;
        self.stats.retired_rendition_workers = wrapping_add_u64(
            self.stats.retired_rendition_workers,
            idle.len() as u64,
        );
        idle
    }

    /// Counts renditions whose work has stopped, and those of them that did not stop cleanly.
    pub fn rendition_workers_stopped(&mut self, stopped: u64, failed: u64)
        ensures
            final(self)@ == (WorkerView {
                stats: AudioEpochHlsWorkerStats {
                    errors: wrapped_u64(old(self)@.stats.errors + failed),
                    active_rendition_workers: wrapped_u64(
                        old(self)@.stats.active_rendition_workers - stopped,
                    ),
                    ..old(self)@.stats
                },
                ..old(self)@
            }),
    {
        proof {
            reveal(wrapped_u64);
        }
        self.stats.errors = wrapping_add_u64(self.stats.errors, failed);
        self.stats.active_rendition_workers = self.stats.active_rendition_workers.wrapping_sub(
            stopped,
        );
    }

    /// Notes that a group goes to its rendition, and tells whether work on the rendition has to be
    /// started first.
    pub fn dispatch_group_to_rendition_worker(&mut self, key: RenditionKey, now_ms: u64) -> (r: bool)
        ensures
            match slot_position(old(self)@.renditions, key) {
                Some(at) => !r && final(self)@ == (WorkerView {
                    renditions: old(self)@.renditions.update(
                        at,
                        RenditionSlot { key, last_seen_ms: now_ms },
                    ),
                    ..old(self)@
                }),
                None => r && final(self)@ == (WorkerView {
                    renditions: old(self)@.renditions.push(
                        RenditionSlot { key, last_seen_ms: now_ms },
                    ),
                    stats: AudioEpochHlsWorkerStats {
                        active_rendition_workers: wrapped_u64(
                            old(self)@.stats.active_rendition_workers + 1,
                        ),
                        ..old(self)@.stats
                    },
                    ..old(self)@
                }),
            },
    {
        let ghost before = self@.renditions;
        let mut i: usize = self.renditions.len();
        assert(before.take(i as int) =~= before);
        while i > 0
            invariant
                i <= self.renditions@.len(),
                *self == *old(self),
                before == self.renditions@,
                slot_position(before, key) == slot_position(before.take(i as int), key),
            decreases i,
        {
            assert(before.take(i as int).drop_last() =~= before.take(i - 1));
            if self.renditions[i - 1].key == key {
                self.renditions[i - 1] = RenditionSlot { key, last_seen_ms: now_ms };
                return false;
            }
            i = i - 1;
        }
        self.renditions.push(RenditionSlot { key, last_seen_ms: now_ms });
        self.stats.active_rendition_workers = wrapping_add_u64(
            self.stats.active_rendition_workers,
            1,
        );
        true
    }

    /// Counts a group that could not be handed on or packaged.
    pub fn count_error(&mut self)
        ensures
            final(self)@ == (WorkerView {
                stats: AudioEpochHlsWorkerStats {
                    errors: wrapped_u64(old(self)@.stats.errors + 1),
                    ..old(self)@.stats
                },
                ..old(self)@
            }),
    {
        self.stats.errors = wrapping_add_u64(self.stats.errors, 1);
    }

    /// Lets go of every source, and names the renditions whose work is to be stopped.
    pub fn shut_down(&mut self) -> (r: Vec<RenditionKey>)
        ensures
            r@ == old(self)@.renditions.map_values(|slot: RenditionSlot| slot.key),
            final(self)@ == (WorkerView {
                receivers: Seq::empty(),
                renditions: Seq::empty(),
                stats: AudioEpochHlsWorkerStats {
                    active_receivers: wrapped_u64(
                        old(self)@.stats.active_receivers - old(self)@.receivers.len(),
                    ),
                    ..old(self)@.stats
                },
            }),
    {
        proof {
            reveal(wrapped_u64);
        }
        let mut keys: Vec<RenditionKey> = Vec::new();
        let mut i: usize = 0;
        while i < self.renditions.len()
            invariant
                i <= self.renditions@.len(),
                *self == *old(self),
                keys@ == self.renditions@.take(i as int).map_values(
                    |slot: RenditionSlot| slot.key,
                ),
            decreases self.renditions@.len() - i,
        {
            let ghost older = self.renditions@.take(i as int);
            keys.push(self.renditions[i].key);
            assert(keys@ =~= self.renditions@.take(i + 1).map_values(
                |slot: RenditionSlot| slot.key,
            ));
            i = i + 1;
        }
        assert(self.renditions@.take(i as int) =~= self.renditions@);
        let sources: u64 = self.receivers.len() as u64;
        self.stats.active_receivers = self.stats.active_receivers.wrapping_sub(sources);
        self.receivers.clear();
        self.renditions.clear();
        assert(self@.receivers =~= Seq::empty());
        assert(self@.renditions =~= Seq::empty());
        keys
    }
}

/// Filtering a sequence filters its first element and then the rest.
proof fn filter_front(s: Seq<ReceiverView>, pred: spec_fn(ReceiverView) -> bool)
    requires
        s.len() > 0,
    ensures
        s.filter(pred) == (if pred(s[0]) {
            seq![s[0]] + s.skip(1).filter(pred)
        } else {
            s.skip(1).filter(pred)
        }),
{
    Seq::filter_distributes_over_add(seq![s[0]], s.skip(1), pred);
    assert(seq![s[0]] + s.skip(1) =~= s);
    let none: Seq<ReceiverView> = Seq::empty();
    assert(none.push(s[0]) =~= seq![s[0]]);
    filter_push(none, s[0], pred);
    filter_empty(none, pred);
    assert(none + s.skip(1).filter(pred) =~= s.skip(1).filter(pred));
}

/// What the worker says is active is what is there: hearing of a source, taking its datagrams and
/// retiring idle sources keep the two the same.
pub proof fn active_receivers_are_counted(worker: WorkerView, peer: u64, now_ms: u64)
    requires
        worker.counts_agree(),
        worker.receivers.len() < u64::MAX,
    ensures
        worker.heard(peer, now_ms).counts_agree(),
        forall|at: int, payload: Seq<u8>|
            0 <= at < worker.receivers.len() ==> (#[trigger] worker.received(
                at,
                payload,
            )).0.counts_agree(),
        ({
            let kept = worker.receivers.filter(receivers_in_use(now_ms)).len();
            let retired = worker.receivers.len() - kept;
            wrapped_u64(worker.stats.active_receivers - retired) == kept
        }),
{
    reveal(wrapped_u64);
    worker.receivers.lemma_filter_len(receivers_in_use(now_ms));
    peer_position_is_in_range(worker.receivers, peer);
}

proof fn peer_position_is_in_range(receivers: Seq<ReceiverView>, peer: u64)
    ensures
        peer_position(receivers, peer) matches Some(at) ==> 0 <= at < receivers.len()
            && receivers[at].peer == peer,
    decreases receivers.len(),
{
    if receivers.len() > 0 {
        peer_position_is_in_range(receivers.drop_last(), peer);
    }
}

/// A source that was heard of less than the timeout ago is never retired.
pub proof fn recent_sources_stay(worker: WorkerView, at: int, now_ms: u64)
    requires
        0 <= at < worker.receivers.len(),
        minus_floor(now_ms as int, worker.receivers[at].last_seen_ms as int)
            < AUDIO_EPOCH_IDLE_TIMEOUT_MS,
    ensures
        worker.receivers.filter(receivers_in_use(now_ms)).contains(worker.receivers[at]),
{
    worker.receivers.lemma_filter_contains(receivers_in_use(now_ms), at);
}

proof fn same_peers_same_position(a: Seq<ReceiverView>, b: Seq<ReceiverView>, peer: u64)
    requires
        a.len() == b.len(),
        forall|i: int| 0 <= i < a.len() ==> (#[trigger] a[i]).peer == b[i].peer,
    ensures
        peer_position(a, peer) == peer_position(b, peer),
    decreases a.len(),
{
    if a.len() > 0 {
        same_peers_same_position(a.drop_last(), b.drop_last(), peer);
    }
}

/// A source that is heard of is known from then on, as seen last just then, with all that it sent before;
/// no other source changes, and a source counts as active once.
pub proof fn sources_are_known_once(worker: WorkerView, peer: u64, now_ms: u64)
    requires
        worker.stats.active_receivers < u64::MAX,
        forall|i: int, j: int|
            0 <= i < j < worker.receivers.len() ==> (#[trigger] worker.receivers[i]).peer != (
            #[trigger] worker.receivers[j]).peer,
    ensures
        ({
            let after = worker.heard(peer, now_ms);
            let known = exists|i: int|
                0 <= i < worker.receivers.len() && (#[trigger] worker.receivers[i]).peer == peer;
            &&& after.receivers.len() == worker.receivers.len() + (if known {
                0int
            } else {
                1
            })
            &&& after.stats.active_receivers == worker.stats.active_receivers + (if known {
                0int
            } else {
                1
            })
            &&& !known ==> after.receivers.last() == (ReceiverView {
                peer,
                taken: Seq::empty(),
                last_seen_ms: now_ms,
            })
            &&& forall|i: int|
                0 <= i < worker.receivers.len() ==> (#[trigger] after.receivers[i]) == (
                ReceiverView {
                    last_seen_ms: if worker.receivers[i].peer == peer {
                        now_ms
                    } else {
                        worker.receivers[i].last_seen_ms
                    },
                    ..worker.receivers[i]
                })
            &&& after.renditions == worker.renditions
            &&& after.stats == AudioEpochHlsWorkerStats {
                active_receivers: after.stats.active_receivers,
                ..worker.stats
            }
        }),
{
    what_fits_is_kept();
    peer_position_is_in_range(worker.receivers, peer);
    if peer_position(worker.receivers, peer) is None {
        absent_peers_are_nowhere(worker.receivers, peer);
    } else {
        let at = peer_position(worker.receivers, peer)->Some_0;
        assert(worker.receivers[at].peer == peer);
        assert forall|i: int|
            0 <= i < worker.receivers.len() && i != at implies (#[trigger] worker.receivers[i]).peer
            != peer by {
            if i < at {
                assert(worker.receivers[i].peer != worker.receivers[at].peer);
            } else {
                assert(worker.receivers[at].peer != worker.receivers[i].peer);
            }
        }
    }
}

proof fn absent_peers_are_nowhere(receivers: Seq<ReceiverView>, peer: u64)
    requires
        peer_position(receivers, peer) is None,
    ensures
        forall|i: int| 0 <= i < receivers.len() ==> (#[trigger] receivers[i]).peer != peer,
    decreases receivers.len(),
{
    if receivers.len() > 0 {
        let older = receivers.drop_last();
        absent_peers_are_nowhere(older, peer);
        assert forall|i: int| 0 <= i < receivers.len() implies (#[trigger] receivers[i]).peer
            != peer by {
            if i < older.len() {
                assert(older[i] == receivers[i]);
            }
        }
    }
}

/// A datagram that was taken is counted with the groups that it completed and the fragments that were
/// recovered for them; one that was refused as an error. It is remembered for its source alone.
pub proof fn datagrams_are_counted(worker: WorkerView, at: int, payload: Seq<u8>)
    requires
        0 <= at < worker.receivers.len(),
        worker.stats.datagrams < u64::MAX,
        worker.stats.errors < u64::MAX,
    ensures
        ({
            let (after, groups) = worker.received(at, payload);
            let before = worker.stats;
            &&& groups == groups_recovered(worker.receivers[at].taken, payload)
            &&& groups is Some ==> {
                &&& after.stats.datagrams == before.datagrams + 1
                &&& after.stats.errors == before.errors
                &&& before.groups_completed + groups->Some_0.len() <= u64::MAX
                    ==> after.stats.groups_completed == before.groups_completed
                    + groups->Some_0.len()
                &&& 0 <= before.raptorq_fragments_recovered + recovered_fragments(groups->Some_0)
                    <= u64::MAX ==> after.stats.raptorq_fragments_recovered
                    == before.raptorq_fragments_recovered + recovered_fragments(groups->Some_0)
            }
            &&& groups is None ==> {
                &&& after.stats.errors == before.errors + 1
                &&& after.stats.datagrams == before.datagrams
                &&& after.stats.groups_completed == before.groups_completed
            }
            &&& after.receivers.len() == worker.receivers.len()
            &&& after.receivers[at].taken == worker.receivers[at].taken.push(payload)
            &&& after.receivers[at].peer == worker.receivers[at].peer
            &&& forall|i: int|
                0 <= i < worker.receivers.len() && i != at ==> #[trigger] after.receivers[i]
                    == worker.receivers[i]
            &&& after.renditions == worker.renditions
        }),
{
    what_fits_is_kept();
}

/// The fragments that were recovered for some groups are those of each, added up.
pub proof fn recovered_fragments_add_up(first: Seq<AudioGroupView>, second: Seq<AudioGroupView>)
    ensures
        recovered_fragments(first + second) == recovered_fragments(first) + recovered_fragments(
            second,
        ),
        forall|group: AudioGroupView| #[trigger] recovered_fragments(seq![group])
            == group.raptorq_recovered_fragments,
    decreases second.len(),
{
    assert forall|group: AudioGroupView| #[trigger] recovered_fragments(seq![group])
        == group.raptorq_recovered_fragments by {
        assert(seq![group].drop_last() =~= Seq::<AudioGroupView>::empty());
        assert(recovered_fragments(Seq::<AudioGroupView>::empty()) == 0);
    }
    if second.len() == 0 {
        assert(first + second =~= first);
    } else {
        recovered_fragments_add_up(first, second.drop_last());
        assert((first + second).drop_last() =~= first + second.drop_last());
    }
}

/// A rendition is retired exactly where nothing of it came for the whole timeout, and kept otherwise; a
/// source likewise.
pub proof fn only_the_idle_retire(
    renditions: Seq<RenditionSlot>,
    receivers: Seq<ReceiverView>,
    at: int,
    now_ms: u64,
)
    ensures
        0 <= at < renditions.len() && renditions[at].last_seen_ms <= now_ms ==> {
            let idle = now_ms - renditions[at].last_seen_ms >= AUDIO_EPOCH_IDLE_TIMEOUT_MS;
            &&& idle ==> renditions.filter(slots_idle(now_ms)).contains(renditions[at])
            &&& !idle ==> renditions.filter(slots_in_use(now_ms)).contains(renditions[at])
            &&& slots_idle(now_ms)(renditions[at]) <==> idle
            &&& slots_in_use(now_ms)(renditions[at]) <==> !idle
        },
        0 <= at < receivers.len() && receivers[at].last_seen_ms <= now_ms ==> {
            let idle = now_ms - receivers[at].last_seen_ms >= AUDIO_EPOCH_IDLE_TIMEOUT_MS;
            &&& !idle ==> receivers.filter(receivers_in_use(now_ms)).contains(receivers[at])
            &&& receivers_in_use(now_ms)(receivers[at]) <==> !idle
        },
{
    if 0 <= at < renditions.len() && renditions[at].last_seen_ms <= now_ms {
        if slots_idle(now_ms)(renditions[at]) {
            renditions.lemma_filter_contains(slots_idle(now_ms), at);
        } else {
            renditions.lemma_filter_contains(slots_in_use(now_ms), at);
        }
    }
    if 0 <= at < receivers.len() && receivers_in_use(now_ms)(receivers[at]) {
        receivers.lemma_filter_contains(receivers_in_use(now_ms), at);
    }
}

/// A rendition's slot is found where it has one, and none where it has none.
pub proof fn slots_are_found_by_their_key(slots: Seq<RenditionSlot>, key: RenditionKey)
    ensures
        match slot_position(slots, key) {
            Some(at) => 0 <= at < slots.len() && slots[at].key == key,
            None => forall|i: int| 0 <= i < slots.len() ==> (#[trigger] slots[i]).key != key,
        },
    decreases slots.len(),
{
    if slots.len() > 0 {
        slots_are_found_by_their_key(slots.drop_last(), key);
        assert forall|i: int| 0 <= i < slots.len() - 1 implies #[trigger] slots[i]
            == slots.drop_last()[i] by {}
    }
}

} // verus!
