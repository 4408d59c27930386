//! Bridges from what contributors send to the streams that are published.
use crate::service::accounts::{
    input_grew, protocol_grew, rtmp_units_are_reported, slots_are_reported, units_of, went_up,
};
use crate::service::events::text_view;
use crate::service::sessions::{with_access_unit, with_body, OriginView, SessionOrigin};
use crate::service::telemetry::{IngestTelemetry, TelemetryView};
use std::collections::HashMap;
use crate::text::{equal_ignoring_case, lowered};
use vstd::prelude::*;
use vstd::std_specs::iter::IteratorSpec;
use vstd::string::*;

verus! {

broadcast use vstd::std_specs::hash::group_hash_axioms;

/// The name under which slots are read.
pub const UPLOAD_RESPONSE_HLS_WORKER_ID: &'static str = "av-contrib-upload-response-fmp4-bridge";

/// How often streams are looked at.
pub const HLS_BRIDGE_POLL_MS: u64 = 5;

/// How the service that takes uploads is set up.
#[derive(Debug, Clone, Copy, PartialEq, Eq, Structural)]
pub struct UploadServiceOptions {
    pub num_streams: usize,
    pub slot_size_kb: usize,
    pub slots_per_stream: usize,
    pub response_timeout_ms: u64,
}

/// How the service that takes uploads is set up.
pub fn upload_response_config() -> (r: UploadServiceOptions)
    ensures
        r == (UploadServiceOptions {
            num_streams: 8,
            slot_size_kb: 47,
            slots_per_stream: 32_768,
            response_timeout_ms: 60_000,
        }),
{
    UploadServiceOptions {
        num_streams: 8,
        slot_size_kb: 47,
        slots_per_stream: 32_768,
        response_timeout_ms: 60_000,
    }
}

/// The index of a stream that needs no place of its own: its number, where it is below the count of
/// playlists.
pub fn direct_stream_idx(output_stream_id: u64, num_playlists: usize) -> (r: Option<usize>)
    ensures
        r == (if output_stream_id < num_playlists {
            Some(output_stream_id as usize)
        } else {
            None
        }),
{
    if output_stream_id < num_playlists as u64 {
        Some(output_stream_id as usize)
    } else {
        None
    }
}

/// A header of a request.
#[derive(Debug)]
pub struct HeaderText {
    pub name: String,
    pub value: String,
}

/// What a list of headers holds.
pub open spec fn headers_view(headers: Seq<HeaderText>) -> Seq<(Seq<char>, Seq<char>)> {
    headers.map_values(|header: HeaderText| (header.name@, header.value@))
}

/// Whether a header tells where its sender is.
pub open spec fn tells_peer(name: Seq<char>) -> bool {
    lowered(name) == lowered("x-peer-addr"@) || lowered(name) == lowered("x-rist-peer-addr"@)
}

/// Where the sender is: what the first header says that tells it.
pub open spec fn peer_told(headers: Seq<(Seq<char>, Seq<char>)>) -> Option<Seq<char>>
    decreases headers.len(),
{
    if headers.len() == 0 {
        None
    } else if tells_peer(headers[0].0) {
        Some(headers[0].1)
    } else {
        peer_told(headers.skip(1))
    }
}

/// Where the sender is, if a header tells it.
pub fn peer_of(headers: &Vec<HeaderText>) -> (r: Option<String>)
    ensures
        text_view(r) == peer_told(headers_view(headers@)),
{
    let ghost all = headers_view(headers@);
    let mut i: usize = 0;
    assert(all.skip(0) =~= all);
    while i < headers.len()
        invariant
            i <= headers@.len(),
            all == headers_view(headers@),
            peer_told(all) == peer_told(all.skip(i as int)),
        decreases headers@.len() - i,
    {
        let name = headers[i].name.as_str();
        assert(all.skip(i as int)[0] == (headers@[i as int].name@, headers@[i as int].value@));
        assert(all.skip(i as int).skip(1) =~= all.skip(i + 1));
        if equal_ignoring_case(name, "x-peer-addr") || equal_ignoring_case(
            name,
            "x-rist-peer-addr",
        ) {
            return Some(headers[i].value.clone());
        }
        i = i + 1;
    }
    None
}

/// What is known of a stream that is uploaded.
#[derive(Debug, Clone, Copy, PartialEq, Eq, Structural)]
pub struct UploadTsBridgeState {
    /// The stream that it is published as.
    pub output_stream_id: Option<u64>,
    pub output_stream_idx: Option<usize>,
    /// The last slot that was read.
    pub last_seen: usize,
    pub reader_registered: bool,
    pub body_slots: u64,
    pub ended: bool,
    /// Whether its media is being bridged.
    pub bridged: bool,
}

/// A stream of which nothing was read.
pub open spec fn fresh_state() -> UploadTsBridgeState {
    UploadTsBridgeState {
        output_stream_id: None,
        output_stream_idx: None,
        last_seen: 0,
        reader_registered: false,
        body_slots: 0,
        ended: false,
        bridged: false,
    }
}

/// The slots of a stream that have to be read, first and last, if there are any.
pub open spec fn slots_pending(state: UploadTsBridgeState, request_last: usize) -> Option<
    (usize, usize),
> {
    if !state.ended && request_last > state.last_seen {
        Some(((state.last_seen + 1) as usize, request_last))
    } else {
        None
    }
}

/// A stream once its slots are read.
pub open spec fn read_through(
    state: UploadTsBridgeState,
    request_last: usize,
    ended: bool,
) -> UploadTsBridgeState {
    UploadTsBridgeState { last_seen: request_last, ended: state.ended || ended, ..state }
}

/// The streams that are uploaded over one protocol.
#[derive(Debug)]
pub struct UploadBridges {
    pub protocol: &'static str,
    /// The stream that the first upload is published as.
    pub output_stream_id: u64,
    pub output_stream_idx: usize,
    pub states: HashMap<u64, UploadTsBridgeState>,
}

/// What an [`UploadBridges`] holds.
pub struct UploadBridgesView {
    pub protocol: Seq<char>,
    pub output_stream_id: u64,
    pub output_stream_idx: usize,
    pub states: Map<u64, UploadTsBridgeState>,
}

impl View for UploadBridges {
    type V = UploadBridgesView;

    open spec fn view(&self) -> UploadBridgesView {
        UploadBridgesView {
            protocol: self.protocol@,
            output_stream_id: self.output_stream_id,
            output_stream_idx: self.output_stream_idx,
            states: self.states@,
        }
    }
}

/// Why a stream is no longer followed.
#[derive(Debug, Clone, Copy, PartialEq, Eq, Structural)]
pub enum Retirement {
    /// It is no longer uploaded.
    Inactive,
    /// The service stops.
    Shutdown,
}

impl Retirement {
    /// The reason in a word.
    pub open spec fn word(self) -> Seq<char> {
        match self {
            Retirement::Inactive => "inactive"@,
            Retirement::Shutdown => "shutdown"@,
        }
    }

    /// The reason in a word.
    pub fn as_str(self) -> (r: &'static str)
        ensures
            r@ == self.word(),
    {
        match self {
            Retirement::Inactive => "inactive",
            Retirement::Shutdown => "shutdown",
        }
    }
}

/// What is left to do for a stream that is no longer followed.
#[derive(Debug, Clone, Copy, PartialEq, Eq, Structural)]
pub struct ClosedBridge {
    /// Whether its bridge has to publish what it holds back.
    pub finish: bool,
    /// The playlist that ends with it.
    pub ends_playlist: Option<u64>,
}

/// What to do with a body before it is bridged.
#[derive(Debug, Clone, Copy, PartialEq, Eq)]
pub struct BodyStep {
    /// The stream and the index under which a bridge has to be opened.
    pub open: Option<(u64, usize)>,
    /// Whether the reader has to be registered.
    pub register_reader: bool,
}

impl UploadBridgesView {
    /// The same protocol with other streams.
    pub open spec fn with_states(self, states: Map<u64, UploadTsBridgeState>) -> Self {
        UploadBridgesView { states, ..self }
    }

    /// Whether another stream is being bridged and has not ended.
    pub open spec fn other_is_bridged(self, stream_id: u64) -> bool {
        exists|other: u64| #[trigger]
            self.states.dom().contains(other) && other != stream_id && self.states[other].bridged
                && !self.states[other].ended
    }

    /// The stream that an upload is published as: the configured one, unless another upload is.
    pub open spec fn public_stream(self, stream_id: u64) -> u64 {
        if self.other_is_bridged(stream_id) {
            stream_id
        } else {
            self.output_stream_id
        }
    }

    /// The index of the stream that an upload is published as, given one that was looked up.
    pub open spec fn public_idx(self, stream_id: u64, looked_up: usize) -> usize {
        if self.public_stream(stream_id) == self.output_stream_id {
            self.output_stream_idx
        } else {
            looked_up
        }
    }

    /// A stream's state once a body was read.
    pub open spec fn state_with_body(self, stream_id: u64, looked_up: usize) -> UploadTsBridgeState {
        let state = self.states[stream_id];
        let opened = if state.bridged {
            state
        } else {
            UploadTsBridgeState {
                output_stream_id: Some(self.public_stream(stream_id)),
                output_stream_idx: Some(self.public_idx(stream_id, looked_up)),
                bridged: true,
                ..state
            }
        };
        UploadTsBridgeState {
            reader_registered: true,
            body_slots: if state.body_slots == u64::MAX {
                u64::MAX
            } else {
                (state.body_slots + 1) as u64
            },
            ..opened
        }
    }

    /// What to do with a stream's body before it is bridged.
    pub open spec fn body_step(self, stream_id: u64, looked_up: usize) -> BodyStep {
        let state = self.states[stream_id];
        BodyStep {
            open: if state.bridged {
                None
            } else {
                Some((self.public_stream(stream_id), self.public_idx(stream_id, looked_up)))
            },
            register_reader: !state.reader_registered,
        }
    }
}

/// What is counted of a body.
pub open spec fn body_counted(
    telemetry: TelemetryView,
    protocol: Seq<char>,
    stream_id: u64,
    opened: Option<(u64, usize)>,
    bytes: u64,
    now_ms: u64,
) -> TelemetryView {
    let open = match opened {
        Some((id, idx)) => telemetry.session_joined(
            protocol,
            stream_id,
            OriginView {
                output_stream_id: Some(id),
                output_stream_idx: Some(idx),
                peer: None,
                path: None,
            },
            now_ms,
        ),
        None => telemetry,
    };
    let known = open.session_joined(protocol, stream_id, OriginView::unknown(), now_ms);
    TelemetryView {
        sessions: with_body(known.sessions, protocol, stream_id, bytes, now_ms),
        ..known
    }.mpeg_ts_slot(protocol, stream_id, bytes, now_ms)
}

impl UploadBridges {
    /// No stream is uploaded.
    pub fn new(protocol: &'static str, output_stream_id: u64, output_stream_idx: usize) -> (r: Self)
        ensures
            r@ == (UploadBridgesView {
                protocol: protocol@,
                output_stream_id,
                output_stream_idx,
                states: Map::empty(),
            }),
    {
        UploadBridges { protocol, output_stream_id, output_stream_idx, states: HashMap::new() }
    }

    /// The streams that are followed, in no particular order.
    fn followed(&self) -> (r: Vec<u64>)
        ensures
            r@.no_duplicates(),
            r@.to_set() == self@.states.dom(),
    {
        let ghost walked = self.states.keys().remaining();
        let mut followed: Vec<u64> = Vec::new();
        for stream_id in it: self.states.keys()
            invariant
                followed@ == walked.take(it.index()).unref(),
                it.seq() == walked,
        {
            followed.push(*stream_id);
        }
        assert(walked.take(walked.len() as int) =~= walked);
        followed
    }

    /// The streams that are followed and no longer uploaded.
    pub fn stale(&self, active: &Vec<u64>) -> (r: Vec<u64>)
        ensures
            r@.no_duplicates(),
            forall|stream_id: u64|
                #![trigger r@.contains(stream_id)]
                #![trigger active@.contains(stream_id)]
                r@.contains(stream_id) <==> self@.states.dom().contains(stream_id)
                    && !active@.contains(stream_id),
    {
        let followed = self.followed();
        let ghost keys = followed@;
        let mut stale: Vec<u64> = Vec::new();
        let mut i: usize = 0;
        while i < followed.len()
            invariant
                keys == followed@,
                keys.no_duplicates(),
                i <= keys.len(),
                forall|k: int|
                    0 <= k < stale@.len() ==> keys.take(i as int).contains(#[trigger] stale@[k])
                        && !active@.contains(stale@[k]),
                forall|k: int|
                    0 <= k < i && !active@.contains(#[trigger] keys[k]) ==> stale@.contains(keys[k]),
                stale@.no_duplicates(),
            decreases keys.len() - i,
        {
            let stream_id: u64 = followed[i];
            let mut found = false;
            let mut j: usize = 0;
            while j < active.len()
                invariant
                    j <= active@.len(),
                    found == active@.take(j as int).contains(stream_id),
                decreases active@.len() - j,
            {
                let ghost head = active@.take(j as int);
                assert(active@.take(j + 1) =~= head.push(active@[j as int]));
                proof {
                    if head.contains(stream_id) {
                        assert(active@.take(j + 1)[head.index_of(stream_id)] == stream_id);
                    }
                    if active@[j as int] == stream_id {
                        assert(active@.take(j + 1)[j as int] == stream_id);
                    }
                    if active@.take(j + 1).contains(stream_id) && active@[j as int] != stream_id {
                        let at = active@.take(j + 1).index_of(stream_id);
                        assert(head[at] == stream_id);
                    }
                }
                if active[j] == stream_id {
                    found = true;
                }
                j = j + 1;
            }
            assert(active@.take(j as int) =~= active@);
            let ghost older = stale@;
            proof {
                assert(keys.take(i + 1) =~= keys.take(i as int).push(stream_id));
                assert forall|k: int| 0 <= k < older.len() implies keys.take(i + 1).contains(
                    #[trigger] older[k],
                ) && older[k] != stream_id by {
                    let at = keys.take(i as int).index_of(older[k]);
                    assert(keys.take(i as int).contains(older[k]));
                    assert(keys.take(i + 1)[at] == older[k]);
                    assert(keys[at] == older[k]);
                }
                assert(keys.take(i + 1)[i as int] == stream_id);
            }
            if !found {
                stale.push(stream_id);
            }
            proof {
                assert forall|k: int| 0 <= k < i + 1 && !active@.contains(
                    #[trigger] keys[k],
                ) implies stale@.contains(keys[k]) by {
                    if k < i {
                        let at = older.index_of(keys[k]);
                        assert(older.contains(keys[k]));
                        assert(stale@[at] == keys[k]);
                    } else {
                        assert(stale@[older.len() as int] == stream_id);
                    }
                }
            }
            i = i + 1;
        }
        assert(keys.take(i as int) =~= keys);
        assert forall|stream_id: u64|
            #![trigger stale@.contains(stream_id)]
            #![trigger active@.contains(stream_id)]
            stale@.contains(stream_id) <==> self@.states.dom().contains(stream_id)
                && !active@.contains(stream_id) by {
            if stale@.contains(stream_id) {
                assert(stale@[stale@.index_of(stream_id)] == stream_id);
            }
            assert(keys.to_set().contains(stream_id) <==> keys.contains(stream_id));
            if keys.contains(stream_id) {
                assert(keys[keys.index_of(stream_id)] == stream_id);
            }
        }
        stale
    }

    /// Stops following a stream.
    pub fn retire(
        &mut self,
        telemetry: &mut IngestTelemetry,
        stream_id: u64,
        reason: Retirement,
        now_ms: u64,
    ) -> (r: Option<ClosedBridge>)
        requires
            old(telemetry).wf(),
        ensures
            final(telemetry).wf(),
            final(self)@ == old(self)@.with_states(old(self)@.states.remove(stream_id)),
            if old(self)@.states.dom().contains(stream_id) {
                let state = old(self)@.states[stream_id];
                &&& r == Some(
                    ClosedBridge {
                        finish: state.bridged,
                        ends_playlist: match reason {
                            Retirement::Inactive => state.output_stream_id,
                            Retirement::Shutdown => None,
                        },
                    },
                )
                &&& final(telemetry)@ == old(telemetry)@.session_left(
                    old(self)@.protocol,
                    stream_id,
                    reason.word(),
                    now_ms,
                )
            } else {
                r is None && final(telemetry)@ == old(telemetry)@
            },
    {
        match self.states.remove(&stream_id) {
            None => None,
            Some(state) => {
                telemetry.end_ingest_session(self.protocol, stream_id, reason.as_str(), now_ms);
                Some(
                    ClosedBridge {
                        finish: state.bridged,
                        ends_playlist: match reason {
                            Retirement::Inactive => state.output_stream_id,
                            Retirement::Shutdown => None,
                        },
                    },
                )
            },
        }
    }

    /// Follows a stream that is uploaded, if it is not followed yet.
    pub fn track(&mut self, telemetry: &mut IngestTelemetry, stream_id: u64, now_ms: u64)
        requires
            old(telemetry).wf(),
        ensures
            final(telemetry).wf(),
            if old(self)@.states.dom().contains(stream_id) {
                final(self)@ == old(self)@ && final(telemetry)@ == old(telemetry)@
            } else {
                &&& final(self)@ == old(self)@.with_states(
                    old(self)@.states.insert(stream_id, fresh_state()),
                )
                &&& final(telemetry)@ == old(telemetry)@.session_joined(
                    old(self)@.protocol,
                    stream_id,
                    OriginView::unknown(),
                    now_ms,
                )
            },
    {
        if !self.states.contains_key(&stream_id) {
            let _ = self.states.insert(
                stream_id,
                UploadTsBridgeState {
                    output_stream_id: None,
                    output_stream_idx: None,
                    last_seen: 0,
                    reader_registered: false,
                    body_slots: 0,
                    ended: false,
                    bridged: false,
                },
            );
            telemetry.ensure_ingest_session(
                self.protocol,
                stream_id,
                SessionOrigin::unknown(),
                now_ms,
            );
        }
    }

    /// The slots of a stream that have to be read, first and last, if there are any.
    pub fn pending(&self, stream_id: u64, request_last: usize) -> (r: Option<(usize, usize)>)
        ensures
            r == (if self@.states.dom().contains(stream_id) {
                slots_pending(self@.states[stream_id], request_last)
            } else {
                None
            }),
    {
        match self.states.get(&stream_id) {
            Some(state) => if !state.ended && request_last > state.last_seen {
                Some((state.last_seen + 1, request_last))
            } else {
                None
            },
            None => None,
        }
    }

    /// Decides whether another stream is being bridged and has not ended.
    fn other_bridged(&self, stream_id: u64) -> (r: bool)
        ensures
            r == self@.other_is_bridged(stream_id),
    {
        let followed = self.followed();
        let ghost keys = followed@;
        let mut i: usize = 0;
        while i < followed.len()
            invariant
                keys == followed@,
                keys.to_set() == self@.states.dom(),
                i <= keys.len(),
                forall|k: int|
                    0 <= k < i ==> !(#[trigger] keys[k] != stream_id
                        && self@.states[keys[k]].bridged && !self@.states[keys[k]].ended),
            decreases keys.len() - i,
        {
            let other: u64 = followed[i];
            proof {
                assert(keys.contains(other));
                assert(keys.to_set().contains(other));
            }
            if let Some(state) = self.states.get(&other) {
                if other != stream_id && state.bridged && !state.ended {
                    assert(self@.states.dom().contains(other));
                    return true;
                }
            }
            i = i + 1;
        }
        assert forall|other: u64| #[trigger] self@.states.dom().contains(other) implies !(other
            != stream_id && self@.states[other].bridged && !self@.states[other].ended) by {
            assert(keys.to_set().contains(other));
            assert(keys.contains(other));
            assert(keys[keys.index_of(other)] == other);
        }
        false
    }

    /// The stream that an upload would be published as.
    pub fn public_stream(&self, stream_id: u64) -> (r: u64)
        ensures
            r == self@.public_stream(stream_id),
    {
        if self.other_bridged(stream_id) {
            stream_id
        } else {
            self.output_stream_id
        }
    }

    /// Takes the headers of an upload.
    pub fn take_headers(
        &self,
        telemetry: &mut IngestTelemetry,
        stream_id: u64,
        path: String,
        headers: &Vec<HeaderText>,
        now_ms: u64,
    )
        requires
            old(telemetry).wf(),
        ensures
            final(telemetry).wf(),
            final(telemetry)@ == (if self@.states.dom().contains(stream_id) {
                old(telemetry)@.session_joined(
                    self@.protocol,
                    stream_id,
                    OriginView {
                        output_stream_id: self@.states[stream_id].output_stream_id,
                        output_stream_idx: self@.states[stream_id].output_stream_idx,
                        peer: peer_told(headers_view(headers@)),
                        path: Some(path@),
                    },
                    now_ms,
                )
            } else {
                old(telemetry)@
            }),
    {
        if let Some(state) = self.states.get(&stream_id) {
            let peer = peer_of(headers);
            let origin = SessionOrigin {
                output_stream_id: state.output_stream_id,
                output_stream_idx: state.output_stream_idx,
                peer,
                path: Some(path),
            };
            telemetry.ensure_ingest_session(self.protocol, stream_id, origin, now_ms);
        }
    }

    /// Takes a body of an upload, given the index that was looked up for the stream that it is
    /// published as.
    pub fn take_body(
        &mut self,
        telemetry: &mut IngestTelemetry,
        stream_id: u64,
        looked_up: usize,
        bytes: usize,
        now_ms: u64,
    ) -> (r: Option<BodyStep>)
        requires
            old(telemetry).wf(),
        ensures
            final(telemetry).wf(),
            if old(self)@.states.dom().contains(stream_id) {
                let step = old(self)@.body_step(stream_id, looked_up);
                &&& r == Some(step)
                &&& final(self)@ == old(self)@.with_states(
                    old(self)@.states.insert(
                        stream_id,
                        old(self)@.state_with_body(stream_id, looked_up),
                    ),
                )
                &&& final(telemetry)@ == body_counted(
                    old(telemetry)@,
                    old(self)@.protocol,
                    stream_id,
                    step.open,
                    bytes as u64,
                    now_ms,
                )
            } else {
                r is None && final(self)@ == old(self)@ && final(telemetry)@ == old(telemetry)@
            },
    {
        let mut state = match self.states.get(&stream_id) {
            Some(state) => *state,
            None => {
                return None;
            },
        };
        let mut open: Option<(u64, usize)> = None;
        if !state.bridged {
            let public_id: u64 = self.public_stream(stream_id);
            let public_idx: usize = if public_id == self.output_stream_id {
                self.output_stream_idx
            } else {
                looked_up
            };
            state.output_stream_id = Some(public_id);
            state.output_stream_idx = Some(public_idx);
            state.bridged = true;
            open = Some((public_id, public_idx));
            telemetry.ensure_ingest_session(
                self.protocol,
                stream_id,
                SessionOrigin {
                    output_stream_id: Some(public_id),
                    output_stream_idx: Some(public_idx),
                    peer: None,
                    path: None,
                },
                now_ms,
            );
        }
        let register_reader = !state.reader_registered;
        state.reader_registered = true;
        state.body_slots = state.body_slots.saturating_add(1);
        telemetry.record_ingest_session_body(self.protocol, stream_id, bytes, now_ms);
        telemetry.record_mpeg_ts_slot(self.protocol, stream_id, bytes, now_ms);
        let _ = self.states.insert(stream_id, state);
        Some(BodyStep { open, register_reader })
    }

    /// Takes the end of an upload.
    pub fn take_end(&self, telemetry: &mut IngestTelemetry, stream_id: u64, now_ms: u64) -> (r:
        ClosedBridge)
        requires
            old(telemetry).wf(),
        ensures
            final(telemetry).wf(),
            final(telemetry)@ == old(telemetry)@.session_left(
                self@.protocol,
                stream_id,
                "ended"@,
                now_ms,
            ),
            r == (if self@.states.dom().contains(stream_id) && self@.states[stream_id].bridged {
                ClosedBridge {
                    finish: true,
                    ends_playlist: self@.states[stream_id].output_stream_id,
                }
            } else {
                ClosedBridge { finish: false, ends_playlist: None }
            }),
    {
        telemetry.end_ingest_session(self.protocol, stream_id, "ended", now_ms);
        match self.states.get(&stream_id) {
            Some(state) => if state.bridged {
                ClosedBridge { finish: true, ends_playlist: state.output_stream_id }
            } else {
                ClosedBridge { finish: false, ends_playlist: None }
            },
            None => ClosedBridge { finish: false, ends_playlist: None },
        }
    }

    /// Marks the slots of a stream as read.
    pub fn slots_read(&mut self, stream_id: u64, request_last: usize, ended: bool)
        ensures
            final(self)@ == (if old(self)@.states.dom().contains(stream_id) {
                old(self)@.with_states(
                    old(self)@.states.insert(
                        stream_id,
                        read_through(old(self)@.states[stream_id], request_last, ended),
                    ),
                )
            } else {
                old(self)@
            }),
    {
        let found = match self.states.get(&stream_id) {
            Some(state) => Some(*state),
            None => None,
        };
        if let Some(mut state) = found {
            state.last_seen = request_last;
            if ended {
                state.ended = true;
            }
            let _ = self.states.insert(stream_id, state);
        }
    }
}

/// As long as one upload is bridged as the configured stream and has not ended, no other upload is
/// published as that stream, unless it bears its number.
pub proof fn the_configured_stream_has_one_source(
    bridges: UploadBridgesView,
    stream_id: u64,
    other: u64,
)
    requires
        bridges.states.dom().contains(stream_id),
        bridges.states[stream_id].bridged,
        !bridges.states[stream_id].ended,
        other != stream_id,
        other != bridges.output_stream_id,
    ensures
        bridges.public_stream(other) == other,
        bridges.public_stream(other) != bridges.output_stream_id,
{
}

/// Once a stream's slots are read they are not read again, those behind them are, and behind the
/// stream's end nothing is.
pub proof fn slots_are_read_once(
    state: UploadTsBridgeState,
    request_last: usize,
    ended: bool,
    later: usize,
)
    ensures
        later <= request_last ==> slots_pending(read_through(state, request_last, ended), later)
            is None,
        later > request_last && !state.ended && !ended ==> slots_pending(
            read_through(state, request_last, ended),
            later,
        ) == Some(((request_last + 1) as usize, later)),
        ended ==> slots_pending(read_through(state, request_last, ended), later) is None,
{
}

/// The stream that an RTMP upload is published as: the configured one for the first and for the
/// stream without a number, and its own for others.
pub open spec fn rtmp_output(stream_id: u64, fallback: u64, is_first_stream: bool) -> u64 {
    if is_first_stream || stream_id == 0 {
        fallback
    } else {
        stream_id
    }
}

/// The stream that an RTMP upload is published as.
pub fn rtmp_output_stream_id(
    stream_id: u64,
    fallback_output_stream_id: u64,
    is_first_stream: bool,
) -> (r: u64)
    ensures
        r == rtmp_output(stream_id, fallback_output_stream_id, is_first_stream),
{
    if is_first_stream || stream_id == 0 {
        fallback_output_stream_id
    } else {
        stream_id
    }
}

/// The streams that are uploaded over RTMP, and what each is published as.
#[derive(Debug)]
pub struct RtmpBridges {
    pub fallback_output_stream_id: u64,
    pub outputs: HashMap<u64, u64>,
}

/// What is counted of an access unit over RTMP.
pub open spec fn rtmp_unit_counted(
    telemetry: TelemetryView,
    stream_id: u64,
    opened: Option<(u64, usize, Seq<char>)>,
    bytes: u64,
    now_ms: u64,
) -> TelemetryView {
    let open = match opened {
        Some((id, idx, key)) => telemetry.session_joined(
            "rtmp"@,
            stream_id,
            OriginView {
                output_stream_id: Some(id),
                output_stream_idx: Some(idx),
                peer: None,
                path: Some(key),
            },
            now_ms,
        ),
        None => telemetry,
    };
    let known = open.session_joined("rtmp"@, stream_id, OriginView::unknown(), now_ms);
    TelemetryView {
        sessions: with_access_unit(known.sessions, "rtmp"@, stream_id, bytes, now_ms),
        ..known
    }.rtmp_access_unit(stream_id, bytes, now_ms)
}

impl RtmpBridges {
    /// No stream is uploaded.
    pub fn new(fallback_output_stream_id: u64) -> (r: Self)
        ensures
            r.outputs@ == Map::<u64, u64>::empty(),
            r.fallback_output_stream_id == fallback_output_stream_id,
    {
        RtmpBridges { fallback_output_stream_id, outputs: HashMap::new() }
    }

    /// The stream that an upload has to be opened as, unless it is open.
    pub fn opens_as(&self, stream_id: u64) -> (r: Option<u64>)
        ensures
            r == (if self.outputs@.dom().contains(stream_id) {
                None
            } else {
                Some(
                    rtmp_output(
                        stream_id,
                        self.fallback_output_stream_id,
                        self.outputs@ == Map::<u64, u64>::empty(),
                    ),
                )
            }),
    {
        if self.outputs.contains_key(&stream_id) {
            None
        } else {
            assert(self.outputs@.is_empty() <==> self.outputs@ =~= Map::<u64, u64>::empty());
            Some(
                rtmp_output_stream_id(
                    stream_id,
                    self.fallback_output_stream_id,
                    self.outputs.is_empty(),
                ),
            )
        }
    }

    /// Takes an access unit, given the index of the stream that its upload is opened as.
    pub fn take_access_unit(
        &mut self,
        telemetry: &mut IngestTelemetry,
        stream_id: u64,
        key: &str,
        looked_up: usize,
        bytes: usize,
        now_ms: u64,
    )
        requires
            old(telemetry).wf(),
        ensures
            final(telemetry).wf(),
            final(self).fallback_output_stream_id == old(self).fallback_output_stream_id,
            ({
                let output = rtmp_output(
                    stream_id,
                    old(self).fallback_output_stream_id,
                    old(self).outputs@ == Map::<u64, u64>::empty(),
                );
                if old(self).outputs@.dom().contains(stream_id) {
                    &&& final(self).outputs@ == old(self).outputs@
                    &&& final(telemetry)@ == rtmp_unit_counted(
                        old(telemetry)@,
                        stream_id,
                        None,
                        bytes as u64,
                        now_ms,
                    )
                } else {
                    &&& final(self).outputs@ == old(self).outputs@.insert(stream_id, output)
                    &&& final(telemetry)@ == rtmp_unit_counted(
                        old(telemetry)@,
                        stream_id,
                        Some((output, looked_up, key@)),
                        bytes as u64,
                        now_ms,
                    )
                }
            }),
    {
        if let Some(output) = self.opens_as(stream_id) {
            telemetry.ensure_ingest_session(
                "rtmp",
                stream_id,
                SessionOrigin {
                    output_stream_id: Some(output),
                    output_stream_idx: Some(looked_up),
                    peer: None,
                    path: Some(key.to_owned()),
                },
                now_ms,
            );
            let _ = self.outputs.insert(stream_id, output);
        }
        telemetry.record_ingest_session_access_unit("rtmp", stream_id, bytes, now_ms);
        telemetry.record_rtmp_access_unit(stream_id, bytes, now_ms);
    }

    /// Takes the end of an upload, and gives the playlist that ends with it.
    pub fn take_end(&mut self, telemetry: &mut IngestTelemetry, stream_id: u64, now_ms: u64) -> (r:
        Option<u64>)
        requires
            old(telemetry).wf(),
        ensures
            final(telemetry).wf(),
            final(self).fallback_output_stream_id == old(self).fallback_output_stream_id,
            final(self).outputs@ == old(self).outputs@.remove(stream_id),
            r == (if old(self).outputs@.dom().contains(stream_id) {
                Some(old(self).outputs@[stream_id])
            } else {
                None
            }),
            final(telemetry)@ == old(telemetry)@.session_left(
                "rtmp"@,
                stream_id,
                "ended"@,
                now_ms,
            ),
    {
        telemetry.end_ingest_session("rtmp", stream_id, "ended", now_ms);
        self.outputs.remove(&stream_id)
    }
}

/// An upload is opened with its first body and stays open: it is published as the stream that was
/// chosen then, its reader is registered once, and each body counts.
pub proof fn an_upload_is_opened_once(
    bridges: UploadBridgesView,
    stream_id: u64,
    looked_up: usize,
    later: usize,
)
    requires
        bridges.states.dom().contains(stream_id),
    ensures
        ({
            let state = bridges.states[stream_id];
            let step = bridges.body_step(stream_id, looked_up);
            let next = bridges.state_with_body(stream_id, looked_up);
            let after = bridges.with_states(bridges.states.insert(stream_id, next));
            &&& step.open is Some <==> !state.bridged
            &&& step.register_reader <==> !state.reader_registered
            &&& step.open matches Some((id, idx)) ==> next.output_stream_id == Some(id)
                && next.output_stream_idx == Some(idx)
        }),
        ({
            let state = bridges.states[stream_id];
            let next = bridges.state_with_body(stream_id, looked_up);
            let after = bridges.with_states(bridges.states.insert(stream_id, next));
            &&& state.bridged ==> next.output_stream_id == state.output_stream_id
                && next.output_stream_idx == state.output_stream_idx
            &&& next.bridged && next.reader_registered
            &&& state.body_slots < u64::MAX ==> next.body_slots == state.body_slots + 1
            &&& next.last_seen == state.last_seen && next.ended == state.ended
            &&& after.body_step(stream_id, later).open is None
            &&& !after.body_step(stream_id, later).register_reader
            &&& after.state_with_body(stream_id, later).output_stream_id == next.output_stream_id
            &&& after.state_with_body(stream_id, later).output_stream_idx == next.output_stream_idx
        }),
{
}

/// An upload takes the configured stream where no other holds it, and its own otherwise, with the index
/// that belongs to it.
pub proof fn uploads_take_a_free_stream(
    bridges: UploadBridgesView,
    stream_id: u64,
    looked_up: usize,
)
    requires
        bridges.states.dom().contains(stream_id),
        !bridges.states[stream_id].bridged,
    ensures
        ({
            let step = bridges.body_step(stream_id, looked_up);
            let taken = exists|other: u64|
                bridges.states.dom().contains(other) && other != stream_id && (
                #[trigger] bridges.states[other]).bridged && !bridges.states[other].ended;
            &&& !taken ==> step.open == Some((bridges.output_stream_id, bridges.output_stream_idx))
            &&& taken && stream_id != bridges.output_stream_id ==> step.open == Some(
                (stream_id, looked_up),
            )
            &&& taken && stream_id == bridges.output_stream_id ==> step.open == Some(
                (stream_id, bridges.output_stream_idx),
            )
        }),
{
}

/// A stream of which nothing was read is read from its first slot on, one that was is read behind it,
/// and reading changes nothing but how far it went.
pub proof fn slots_are_read_in_order(state: UploadTsBridgeState, request_last: usize, ended: bool)
    ensures
        request_last > 0 ==> slots_pending(fresh_state(), request_last) == Some(
            (1usize, request_last),
        ),
        slots_pending(state, request_last) is Some <==> !state.ended && state.last_seen
            < request_last,
        slots_pending(state, request_last) matches Some((first, last)) ==> first == state.last_seen
            + 1 && last == request_last,
        ({
            let after = read_through(state, request_last, ended);
            &&& after.ended <==> state.ended || ended
            &&& after.last_seen == request_last
            &&& after.output_stream_id == state.output_stream_id
            &&& after.output_stream_idx == state.output_stream_idx
            &&& after.bridged == state.bridged
            &&& after.reader_registered == state.reader_registered
            &&& after.body_slots == state.body_slots
        }),
{
}

/// The peer is what the first header says that tells of one, whichever way its name is written.
pub proof fn the_first_peer_counts(headers: Seq<(Seq<char>, Seq<char>)>)
    ensures
        match peer_told(headers) {
            Some(peer) => exists|k: int|
                0 <= k < headers.len() && (#[trigger] headers[k]).1 == peer && (lowered(
                    headers[k].0,
                ) == lowered("x-peer-addr"@) || lowered(headers[k].0) == lowered(
                    "x-rist-peer-addr"@,
                )) && forall|j: int|
                    0 <= j < k ==> lowered((#[trigger] headers[j]).0) != lowered("x-peer-addr"@)
                        && lowered(headers[j].0) != lowered("x-rist-peer-addr"@),
            None => forall|j: int|
                0 <= j < headers.len() ==> lowered((#[trigger] headers[j]).0) != lowered(
                    "x-peer-addr"@,
                ) && lowered(headers[j].0) != lowered("x-rist-peer-addr"@),
        },
    decreases headers.len(),
{
    if headers.len() > 0 && !tells_peer(headers[0].0) {
        let rest = headers.skip(1);
        the_first_peer_counts(rest);
        assert forall|j: int| 0 <= j < rest.len() implies #[trigger] rest[j] == headers[j + 1] by {}
        match peer_told(rest) {
            Some(peer) => {
                let k = choose|k: int|
                    0 <= k < rest.len() && (#[trigger] rest[k]).1 == peer && (lowered(rest[k].0)
                        == lowered("x-peer-addr"@) || lowered(rest[k].0) == lowered(
                        "x-rist-peer-addr"@,
                    )) && forall|j: int|
                        0 <= j < k ==> lowered((#[trigger] rest[j]).0) != lowered("x-peer-addr"@)
                            && lowered(rest[j].0) != lowered("x-rist-peer-addr"@);
                assert(headers[k + 1] == rest[k]);
                assert forall|j: int| 0 <= j < k + 1 implies lowered((#[trigger] headers[j]).0)
                    != lowered("x-peer-addr"@) && lowered(headers[j].0) != lowered(
                    "x-rist-peer-addr"@,
                ) by {
                    if j > 0 {
                        assert(rest[j - 1] == headers[j]);
                    }
                }
            },
            None => {
                assert forall|j: int| 0 <= j < headers.len() implies lowered(
                    (#[trigger] headers[j]).0,
                ) != lowered("x-peer-addr"@) && lowered(headers[j].0) != lowered(
                    "x-rist-peer-addr"@,
                ) by {
                    if j > 0 {
                        assert(rest[j - 1] == headers[j]);
                    }
                }
            },
        }
    }
}

/// Only the first upload over RTMP, and one without a number, are published as the configured stream;
/// every other keeps its number.
pub proof fn rtmp_uploads_keep_their_numbers(stream_id: u64, fallback: u64, is_first_stream: bool)
    ensures
        rtmp_output(stream_id, fallback, is_first_stream) == fallback <==> is_first_stream
            || stream_id == 0 || stream_id == fallback,
        !is_first_stream && stream_id != 0 ==> rtmp_output(stream_id, fallback, is_first_stream)
            == stream_id,
{
}

/// A body is a slot of the transport stream, for its stream, its protocol and its session.
pub proof fn bodies_are_slots(
    view: TelemetryView,
    protocol: Seq<char>,
    stream_id: u64,
    opened: Option<(u64, usize)>,
    bytes: u64,
    at_ms: u64,
    now_ms: u64,
)
    ensures
        ({
            let after = body_counted(view, protocol, stream_id, opened, bytes, at_ms);
            let before_report = view.report(now_ms);
            let report = after.report(now_ms);
            &&& went_up(before_report.mpeg_ts.slots, report.mpeg_ts.slots, 1)
            &&& went_up(before_report.mpeg_ts.bytes, report.mpeg_ts.bytes, bytes as int)
            &&& report.rtmp == before_report.rtmp
            &&& report.raw_http == before_report.raw_http
            &&& report.fmp4 == before_report.fmp4
            &&& report.mesh_forward == before_report.mesh_forward
            &&& report.relay_session == before_report.relay_session
            &&& input_grew(view, after, stream_id, bytes, at_ms)
            &&& protocol_grew(view, after, protocol, bytes, at_ms)
        }),
{
    let origin = OriginView {
        output_stream_id: Some(opened->Some_0.0),
        output_stream_idx: Some(opened->Some_0.1),
        peer: None,
        path: None,
    };
    let open = match opened {
        Some(_) => view.session_joined(protocol, stream_id, origin, at_ms),
        None => view,
    };
    let known = open.session_joined(protocol, stream_id, OriginView::unknown(), at_ms);
    let counted = TelemetryView {
        sessions: with_body(known.sessions, protocol, stream_id, bytes, at_ms),
        ..known
    };
    slots_are_reported(counted, protocol, stream_id, bytes, at_ms, now_ms);
    assert(counted.streams == view.streams);
    assert(counted.protocols == view.protocols);
    assert(body_counted(view, protocol, stream_id, opened, bytes, at_ms) == counted.mpeg_ts_slot(
        protocol,
        stream_id,
        bytes,
        at_ms,
    ));
    let after = counted.mpeg_ts_slot(protocol, stream_id, bytes, at_ms);
    assert forall|other: Seq<char>| #[trigger] units_of(view, other) == units_of(
        counted,
        other,
    ) by {}
    assert forall|other: Seq<char>| other != protocol implies #[trigger] units_of(after, other)
        == units_of(view, other) by {
        assert(units_of(view, other) == units_of(counted, other));
    }
    assert(units_of(view, protocol) == units_of(counted, protocol));
}

/// An access unit over RTMP is one for its stream and its protocol.
pub proof fn rtmp_bodies_are_units(
    view: TelemetryView,
    stream_id: u64,
    opened: Option<(u64, usize, Seq<char>)>,
    bytes: u64,
    at_ms: u64,
    now_ms: u64,
)
    ensures
        ({
            let after = rtmp_unit_counted(view, stream_id, opened, bytes, at_ms);
            let before_report = view.report(now_ms);
            let report = after.report(now_ms);
            &&& went_up(before_report.rtmp.access_units, report.rtmp.access_units, 1)
            &&& went_up(before_report.rtmp.bytes, report.rtmp.bytes, bytes as int)
            &&& report.mpeg_ts == before_report.mpeg_ts
            &&& report.raw_http == before_report.raw_http
            &&& report.fmp4 == before_report.fmp4
            &&& input_grew(view, after, stream_id, bytes, at_ms)
        }),
{
    let origin = OriginView {
        output_stream_id: Some(opened->Some_0.0),
        output_stream_idx: Some(opened->Some_0.1),
        peer: None,
        path: Some(opened->Some_0.2),
    };
    let open = match opened {
        Some(_) => view.session_joined("rtmp"@, stream_id, origin, at_ms),
        None => view,
    };
    let known = open.session_joined("rtmp"@, stream_id, OriginView::unknown(), at_ms);
    let counted = TelemetryView {
        sessions: with_access_unit(known.sessions, "rtmp"@, stream_id, bytes, at_ms),
        ..known
    };
    rtmp_units_are_reported(counted, stream_id, bytes, at_ms, now_ms);
    assert(counted.streams == view.streams);
}

/// What opens a stream is known of its session before it is counted: where it goes, and over RTMP the
/// key that it was published with. What comes behind it is counted in the same session, of which it
/// tells nothing new.
pub proof fn openings_are_known_of_their_session(
    telemetry: TelemetryView,
    protocol: Seq<char>,
    stream_id: u64,
    id: u64,
    idx: usize,
    key: Seq<char>,
    bytes: u64,
    now_ms: u64,
)
    ensures
        ({
            let uploaded = OriginView {
                output_stream_id: Some(id),
                output_stream_idx: Some(idx),
                peer: None,
                path: None,
            };
            let published = OriginView { path: Some(key), ..uploaded };
            &&& body_counted(telemetry, protocol, stream_id, Some((id, idx)), bytes, now_ms)
                == body_counted(
                telemetry.session_joined(protocol, stream_id, uploaded, now_ms),
                protocol,
                stream_id,
                None,
                bytes,
                now_ms,
            )
            &&& rtmp_unit_counted(telemetry, stream_id, Some((id, idx, key)), bytes, now_ms)
                == rtmp_unit_counted(
                telemetry.session_joined("rtmp"@, stream_id, published, now_ms),
                stream_id,
                None,
                bytes,
                now_ms,
            )
            &&& OriginView::unknown().output_stream_id is None
                && OriginView::unknown().output_stream_idx is None && OriginView::unknown().peer
                is None && OriginView::unknown().path is None
        }),
{
}

} // verus!
