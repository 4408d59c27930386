//! What the service knows of each stream and of each protocol.
use crate::arith::{cap_u64, max_int, minus_floor};
use crate::service::events::name_view;
use crate::service::sessions::{
    sessions_view, IngestSessionRecord, SessionView, CONTRIB_INGEST_SESSION_LIMIT,
};
use crate::ranking::{
    is_text_before, rank, ranked, text_before, text_order_is_transitive, texts_are_ordered, views,
    Ranked,
};
use crate::text::{decimal, decimal_text, text_equal};
use vstd::prelude::*;
use vstd::string::*;

verus! {

/// The counters of one stream.
#[derive(Debug, Clone, Copy, PartialEq, Eq, Structural)]
pub struct ContribStreamRuntimeRecord {
    pub stream_id: u64,
    pub input_units: u64,
    pub input_bytes: u64,
    pub mesh_payloads: u64,
    pub mesh_payload_bytes: u64,
    pub mesh_datagrams: u64,
    pub mesh_datagram_bytes: u64,
    pub mesh_errors: u64,
    pub fmp4_parts: u64,
    pub fmp4_bytes: u64,
    pub fmp4_init_bytes: u64,
    pub fmp4_publish_errors: u64,
    pub latest_fmp4_sequence: Option<u64>,
    pub has_video: bool,
    pub video_width: Option<u16>,
    pub video_height: Option<u16>,
    pub video_parts: u64,
    pub video_access_units: u64,
    pub has_audio: bool,
    pub audio_parts: u64,
    pub audio_access_units: u64,
    pub last_input_unix_ms: Option<u64>,
    pub last_mesh_forward_unix_ms: Option<u64>,
    pub last_fmp4_unix_ms: Option<u64>,
}

/// A stream of which nothing is known.
pub open spec fn unseen_stream(stream_id: u64) -> ContribStreamRuntimeRecord {
    ContribStreamRuntimeRecord {
        stream_id,
        input_units: 0,
        input_bytes: 0,
        mesh_payloads: 0,
        mesh_payload_bytes: 0,
        mesh_datagrams: 0,
        mesh_datagram_bytes: 0,
        mesh_errors: 0,
        fmp4_parts: 0,
        fmp4_bytes: 0,
        fmp4_init_bytes: 0,
        fmp4_publish_errors: 0,
        latest_fmp4_sequence: None,
        has_video: false,
        video_width: None,
        video_height: None,
        video_parts: 0,
        video_access_units: 0,
        has_audio: false,
        audio_parts: 0,
        audio_access_units: 0,
        last_input_unix_ms: None,
        last_mesh_forward_unix_ms: None,
        last_fmp4_unix_ms: None,
    }
}

/// Where a stream stands in a list, counted from `from`.
pub open spec fn stream_position(
    list: Seq<ContribStreamRuntimeRecord>,
    stream_id: u64,
    from: int,
) -> Option<int>
    decreases list.len() - from,
{
    if from < 0 || from >= list.len() {
        None
    } else if list[from].stream_id == stream_id {
        Some(from)
    } else {
        stream_position(list, stream_id, from + 1)
    }
}

/// A stream's record, or the record of a stream of which nothing is known.
pub open spec fn stream_record(list: Seq<ContribStreamRuntimeRecord>, stream_id: u64) ->
    ContribStreamRuntimeRecord {
    match stream_position(list, stream_id, 0) {
        Some(at) => list[at],
        None => unseen_stream(stream_id),
    }
}

/// The list with a stream's record in its place.
pub open spec fn with_stream(
    list: Seq<ContribStreamRuntimeRecord>,
    record: ContribStreamRuntimeRecord,
) -> Seq<ContribStreamRuntimeRecord> {
    match stream_position(list, record.stream_id, 0) {
        Some(at) => list.update(at, record),
        None => list.push(record),
    }
}

fn find_stream(list: &Vec<ContribStreamRuntimeRecord>, stream_id: u64) -> (r: Option<usize>)
    ensures
        match stream_position(list@, stream_id, 0) {
            Some(at) => r matches Some(index) && index == at && index < list@.len(),
            None => r is None,
        },
{
    let mut i: usize = 0;
    while i < list.len()
        invariant
            i <= list@.len(),
            stream_position(list@, stream_id, 0) == stream_position(list@, stream_id, i as int),
        decreases list@.len() - i,
    {
        if list[i].stream_id == stream_id {
            return Some(i);
        }
        i = i + 1;
    }
    None
}

/// Reads a stream's record.
pub fn get_stream(list: &Vec<ContribStreamRuntimeRecord>, stream_id: u64) -> (r:
    ContribStreamRuntimeRecord)
    ensures
        r == stream_record(list@, stream_id),
{
    match find_stream(list, stream_id) {
        Some(at) => list[at],
        None => ContribStreamRuntimeRecord {
            stream_id,
            input_units: 0,
            input_bytes: 0,
            mesh_payloads: 0,
            mesh_payload_bytes: 0,
            mesh_datagrams: 0,
            mesh_datagram_bytes: 0,
            mesh_errors: 0,
            fmp4_parts: 0,
            fmp4_bytes: 0,
            fmp4_init_bytes: 0,
            fmp4_publish_errors: 0,
            latest_fmp4_sequence: None,
            has_video: false,
            video_width: None,
            video_height: None,
            video_parts: 0,
            video_access_units: 0,
            has_audio: false,
            audio_parts: 0,
            audio_access_units: 0,
            last_input_unix_ms: None,
            last_mesh_forward_unix_ms: None,
            last_fmp4_unix_ms: None,
        },
    }
}

/// Writes a stream's record.
pub fn update_stream_runtime(
    list: &mut Vec<ContribStreamRuntimeRecord>,
    record: ContribStreamRuntimeRecord,
)
    ensures
        final(list)@ == with_stream(old(list)@, record),
        streams_differ(old(list)@) ==> streams_differ(final(list)@),
{
    proof {
        streams_stay_listed_once(list@, record);
    }
    match find_stream(list, record.stream_id) {
        Some(at) => {
            list[at] = record;
        },
        None => {
            list.push(record);
        },
    }
}

/// Whether no stream stands in a list twice.
#[verifier::opaque]
pub open spec fn streams_differ(list: Seq<ContribStreamRuntimeRecord>) -> bool {
    forall|i: int, j: int|
        0 <= i < j < list.len() ==> (#[trigger] list[i]).stream_id != (#[trigger] list[j]).stream_id
}

/// A stream is listed once, however often its record is written.
pub proof fn streams_stay_listed_once(
    list: Seq<ContribStreamRuntimeRecord>,
    record: ContribStreamRuntimeRecord,
)
    ensures
        streams_differ(list) ==> streams_differ(with_stream(list, record)),
{
    reveal(streams_differ);
    stream_position_is_first(list, record.stream_id, 0);
}

/// Writing a stream's record changes what is read of that stream, and of no other.
pub proof fn streams_are_kept_apart(
    list: Seq<ContribStreamRuntimeRecord>,
    record: ContribStreamRuntimeRecord,
    other: u64,
)
    ensures
        stream_record(with_stream(list, record), record.stream_id) == record,
        other != record.stream_id ==> stream_record(with_stream(list, record), other)
            == stream_record(list, other),
{
    stream_position_is_first(list, record.stream_id, 0);
    stream_position_is_first(list, other, 0);
    let after = with_stream(list, record);
    stream_position_is_first(after, record.stream_id, 0);
    stream_position_is_first(after, other, 0);
    match stream_position(list, record.stream_id, 0) {
        Some(at) => {
            assert(after[at].stream_id == record.stream_id);
        },
        None => {
            assert(after[list.len() as int] == record);
            assert forall|i: int| 0 <= i < list.len() implies after[i] == list[i] by {}
        },
    }
    match stream_position(list, other, 0) {
        Some(at) => {
            if other != record.stream_id {
                assert(after[at] == list[at]);
            }
        },
        None => {},
    }
    match stream_position(after, other, 0) {
        Some(at) => {
            if other != record.stream_id {
                assert(after[at] == list[at]);
            }
        },
        None => {},
    }
}

proof fn stream_position_is_first(list: Seq<ContribStreamRuntimeRecord>, stream_id: u64, from: int)
    requires
        0 <= from,
    ensures
        match stream_position(list, stream_id, from) {
            Some(at) => from <= at < list.len() && list[at].stream_id == stream_id && forall|i: int|
                from <= i < at ==> (#[trigger] list[i]).stream_id != stream_id,
            None => forall|i: int|
                from <= i < list.len() ==> (#[trigger] list[i]).stream_id != stream_id,
        },
    decreases list.len() - from,
{
    if from < list.len() {
        stream_position_is_first(list, stream_id, from + 1);
    }
}

/// A stream as it is reported.
#[derive(Debug)]
pub struct ContribStreamRuntimeSnapshot {
    pub stream_id_text: String,
    pub state: &'static str,
    pub input_units: u64,
    pub input_bytes: u64,
    pub mesh_payloads: u64,
    pub mesh_payload_bytes: u64,
    pub mesh_datagrams: u64,
    pub mesh_datagram_bytes: u64,
    pub mesh_errors: u64,
    pub fmp4_parts: u64,
    pub fmp4_bytes: u64,
    pub fmp4_init_bytes: u64,
    pub fmp4_publish_errors: u64,
    pub latest_fmp4_sequence: Option<u64>,
    pub video_codec: Option<&'static str>,
    pub video_width: Option<u16>,
    pub video_height: Option<u16>,
    pub video_parts: u64,
    pub video_access_units: u64,
    pub audio_codec: Option<&'static str>,
    pub audio_parts: u64,
    pub audio_access_units: u64,
    pub last_input_unix_ms: Option<u64>,
    pub last_input_age_ms: Option<u64>,
    pub last_mesh_forward_unix_ms: Option<u64>,
    pub last_mesh_forward_age_ms: Option<u64>,
    pub last_fmp4_unix_ms: Option<u64>,
    pub last_fmp4_age_ms: Option<u64>,
}

/// What a [`ContribStreamRuntimeSnapshot`] holds.
pub struct StreamSnapshotView {
    pub stream_id_text: Seq<char>,
    pub state: Seq<char>,
    pub input_units: u64,
    pub input_bytes: u64,
    pub mesh_payloads: u64,
    pub mesh_payload_bytes: u64,
    pub mesh_datagrams: u64,
    pub mesh_datagram_bytes: u64,
    pub mesh_errors: u64,
    pub fmp4_parts: u64,
    pub fmp4_bytes: u64,
    pub fmp4_init_bytes: u64,
    pub fmp4_publish_errors: u64,
    pub latest_fmp4_sequence: Option<u64>,
    pub video_codec: Option<Seq<char>>,
    pub video_width: Option<u16>,
    pub video_height: Option<u16>,
    pub video_parts: u64,
    pub video_access_units: u64,
    pub audio_codec: Option<Seq<char>>,
    pub audio_parts: u64,
    pub audio_access_units: u64,
    pub last_input_unix_ms: Option<u64>,
    pub last_input_age_ms: Option<u64>,
    pub last_mesh_forward_unix_ms: Option<u64>,
    pub last_mesh_forward_age_ms: Option<u64>,
    pub last_fmp4_unix_ms: Option<u64>,
    pub last_fmp4_age_ms: Option<u64>,
}

impl View for ContribStreamRuntimeSnapshot {
    type V = StreamSnapshotView;

    open spec fn view(&self) -> StreamSnapshotView {
        StreamSnapshotView {
            stream_id_text: self.stream_id_text@,
            state: self.state@,
            input_units: self.input_units,
            input_bytes: self.input_bytes,
            mesh_payloads: self.mesh_payloads,
            mesh_payload_bytes: self.mesh_payload_bytes,
            mesh_datagrams: self.mesh_datagrams,
            mesh_datagram_bytes: self.mesh_datagram_bytes,
            mesh_errors: self.mesh_errors,
            fmp4_parts: self.fmp4_parts,
            fmp4_bytes: self.fmp4_bytes,
            fmp4_init_bytes: self.fmp4_init_bytes,
            fmp4_publish_errors: self.fmp4_publish_errors,
            latest_fmp4_sequence: self.latest_fmp4_sequence,
            video_codec: name_view(self.video_codec),
            video_width: self.video_width,
            video_height: self.video_height,
            video_parts: self.video_parts,
            video_access_units: self.video_access_units,
            audio_codec: name_view(self.audio_codec),
            audio_parts: self.audio_parts,
            audio_access_units: self.audio_access_units,
            last_input_unix_ms: self.last_input_unix_ms,
            last_input_age_ms: self.last_input_age_ms,
            last_mesh_forward_unix_ms: self.last_mesh_forward_unix_ms,
            last_mesh_forward_age_ms: self.last_mesh_forward_age_ms,
            last_fmp4_unix_ms: self.last_fmp4_unix_ms,
            last_fmp4_age_ms: self.last_fmp4_age_ms,
        }
    }
}

/// How long ago something was, if it was.
pub open spec fn age(now_ms: u64, seen: Option<u64>) -> Option<u64> {
    match seen {
        Some(seen) => Some(minus_floor(now_ms as int, seen as int) as u64),
        None => None,
    }
}

/// Tells how long ago something was, if it was.
pub fn age_of(now_ms: u64, seen: Option<u64>) -> (r: Option<u64>)
    ensures
        r == age(now_ms, seen),
{
    match seen {
        Some(seen) => Some(now_ms.saturating_sub(seen)),
        None => None,
    }
}

impl ContribStreamRuntimeRecord {
    /// What the stream is doing.
    pub open spec fn state(self) -> Seq<char> {
        if self.mesh_errors > 0 || self.fmp4_publish_errors > 0 {
            "degraded"@
        } else if self.fmp4_parts > 0 {
            "publishing"@
        } else if self.mesh_payloads > 0 {
            "forwarding"@
        } else if self.input_units > 0 {
            "ingesting"@
        } else {
            "waiting"@
        }
    }

    /// The stream as it is reported.
    pub open spec fn reported(self, now_ms: u64) -> StreamSnapshotView {
        StreamSnapshotView {
            stream_id_text: decimal(self.stream_id as nat),
            state: self.state(),
            input_units: self.input_units,
            input_bytes: self.input_bytes,
            mesh_payloads: self.mesh_payloads,
            mesh_payload_bytes: self.mesh_payload_bytes,
            mesh_datagrams: self.mesh_datagrams,
            mesh_datagram_bytes: self.mesh_datagram_bytes,
            mesh_errors: self.mesh_errors,
            fmp4_parts: self.fmp4_parts,
            fmp4_bytes: self.fmp4_bytes,
            fmp4_init_bytes: self.fmp4_init_bytes,
            fmp4_publish_errors: self.fmp4_publish_errors,
            latest_fmp4_sequence: self.latest_fmp4_sequence,
            video_codec: if self.has_video {
                Some("h264"@)
            } else {
                None
            },
            video_width: self.video_width,
            video_height: self.video_height,
            video_parts: self.video_parts,
            video_access_units: self.video_access_units,
            audio_codec: if self.has_audio {
                Some("aac"@)
            } else {
                None
            },
            audio_parts: self.audio_parts,
            audio_access_units: self.audio_access_units,
            last_input_unix_ms: self.last_input_unix_ms,
            last_input_age_ms: age(now_ms, self.last_input_unix_ms),
            last_mesh_forward_unix_ms: self.last_mesh_forward_unix_ms,
            last_mesh_forward_age_ms: age(now_ms, self.last_mesh_forward_unix_ms),
            last_fmp4_unix_ms: self.last_fmp4_unix_ms,
            last_fmp4_age_ms: age(now_ms, self.last_fmp4_unix_ms),
        }
    }
}

/// The later of two times that may be missing.
pub open spec fn later(a: Option<u64>, b: Option<u64>) -> Option<u64> {
    match (a, b) {
        (Some(a), Some(b)) => Some(max_int(a as int, b as int) as u64),
        (Some(a), None) => Some(a),
        (None, b) => b,
    }
}

/// The later of two times that may be missing.
pub fn later_of(a: Option<u64>, b: Option<u64>) -> (r: Option<u64>)
    ensures
        r == later(a, b),
{
    match (a, b) {
        (Some(a), Some(b)) => if a >= b {
            Some(a)
        } else {
            Some(b)
        },
        (Some(a), None) => Some(a),
        (None, b) => b,
    }
}

/// Whether one time that may be missing is later than another.
pub open spec fn is_later(a: Option<u64>, b: Option<u64>) -> bool {
    match (a, b) {
        (Some(a), Some(b)) => a > b,
        (Some(_), None) => true,
        (None, _) => false,
    }
}

impl StreamSnapshotView {
    /// When the stream was last seen.
    pub open spec fn last_seen(self) -> Option<u64> {
        later(
            later(self.last_input_unix_ms, self.last_mesh_forward_unix_ms),
            self.last_fmp4_unix_ms,
        )
    }
}

impl ContribStreamRuntimeSnapshot {
    /// The report of a stream.
    pub fn from_record(record: &ContribStreamRuntimeRecord, now_ms: u64) -> (r: Self)
        ensures
            r@ == record.reported(now_ms),
    {
        let state = if record.mesh_errors > 0 || record.fmp4_publish_errors > 0 {
            "degraded"
        } else if record.fmp4_parts > 0 {
            "publishing"
        } else if record.mesh_payloads > 0 {
            "forwarding"
        } else if record.input_units > 0 {
            "ingesting"
        } else {
            "waiting"
        };
        ContribStreamRuntimeSnapshot {
            stream_id_text: decimal_text(record.stream_id),
            state,
            input_units: record.input_units,
            input_bytes: record.input_bytes,
            mesh_payloads: record.mesh_payloads,
            mesh_payload_bytes: record.mesh_payload_bytes,
            mesh_datagrams: record.mesh_datagrams,
            mesh_datagram_bytes: record.mesh_datagram_bytes,
            mesh_errors: record.mesh_errors,
            fmp4_parts: record.fmp4_parts,
            fmp4_bytes: record.fmp4_bytes,
            fmp4_init_bytes: record.fmp4_init_bytes,
            fmp4_publish_errors: record.fmp4_publish_errors,
            latest_fmp4_sequence: record.latest_fmp4_sequence,
            video_codec: if record.has_video {
                Some("h264")
            } else {
                None
            },
            video_width: record.video_width,
            video_height: record.video_height,
            video_parts: record.video_parts,
            video_access_units: record.video_access_units,
            audio_codec: if record.has_audio {
                Some("aac")
            } else {
                None
            },
            audio_parts: record.audio_parts,
            audio_access_units: record.audio_access_units,
            last_input_unix_ms: record.last_input_unix_ms,
            last_input_age_ms: age_of(now_ms, record.last_input_unix_ms),
            last_mesh_forward_unix_ms: record.last_mesh_forward_unix_ms,
            last_mesh_forward_age_ms: age_of(now_ms, record.last_mesh_forward_unix_ms),
            last_fmp4_unix_ms: record.last_fmp4_unix_ms,
            last_fmp4_age_ms: age_of(now_ms, record.last_fmp4_unix_ms),
        }
    }

    /// When the stream was last seen.
    pub fn last_seen_unix_ms(&self) -> (r: Option<u64>)
        ensures
            r == self@.last_seen(),
    {
        later_of(
            later_of(self.last_input_unix_ms, self.last_mesh_forward_unix_ms),
            self.last_fmp4_unix_ms,
        )
    }
}

impl Ranked for ContribStreamRuntimeSnapshot {
    open spec fn goes_before(a: StreamSnapshotView, b: StreamSnapshotView) -> bool {
        if a.last_seen() != b.last_seen() {
            is_later(a.last_seen(), b.last_seen())
        } else {
            text_before(a.stream_id_text, b.stream_id_text)
        }
    }

    proof fn order_is_transitive(a: StreamSnapshotView, b: StreamSnapshotView, c: StreamSnapshotView) {
        if !text_before(b.stream_id_text, a.stream_id_text) && !text_before(
            c.stream_id_text,
            b.stream_id_text,
        ) {
            text_order_is_transitive(a.stream_id_text, b.stream_id_text, c.stream_id_text);
        }
    }

    proof fn order_is_one_way(a: StreamSnapshotView, b: StreamSnapshotView) {
        texts_are_ordered(a.stream_id_text, b.stream_id_text);
    }

    fn is_before(&self, other: &Self) -> (r: bool) {
        let mine = self.last_seen_unix_ms();
        let theirs = other.last_seen_unix_ms();
        match (mine, theirs) {
            (Some(a), Some(b)) => if a != b {
                a > b
            } else {
                is_text_before(self.stream_id_text.as_str(), other.stream_id_text.as_str())
            },
            (Some(_), None) => true,
            (None, Some(_)) => false,
            (None, None) => is_text_before(
                self.stream_id_text.as_str(),
                other.stream_id_text.as_str(),
            ),
        }
    }
}

/// The reports of some streams.
pub open spec fn stream_reports(list: Seq<ContribStreamRuntimeRecord>, now_ms: u64) -> Seq<
    StreamSnapshotView,
> {
    list.map_values(|record: ContribStreamRuntimeRecord| record.reported(now_ms))
}

/// The reports of the streams that were seen last, the last one first.
pub open spec fn recent_streams(list: Seq<ContribStreamRuntimeRecord>, now_ms: u64) -> Seq<
    StreamSnapshotView,
> {
    let all = ranked::<ContribStreamRuntimeSnapshot>(stream_reports(list, now_ms));
    if all.len() > CONTRIB_INGEST_SESSION_LIMIT {
        all.take(CONTRIB_INGEST_SESSION_LIMIT as int)
    } else {
        all
    }
}

/// Reports the streams that were seen last, the last one first.
pub fn stream_snapshots(list: &Vec<ContribStreamRuntimeRecord>, now_ms: u64) -> (r: Vec<
    ContribStreamRuntimeSnapshot,
>)
    ensures
        views(r@) == recent_streams(list@, now_ms),
{
    let mut all: Vec<ContribStreamRuntimeSnapshot> = Vec::new();
    let mut i: usize = 0;
    while i < list.len()
        invariant
            i <= list@.len(),
            views(all@) == stream_reports(list@, now_ms).take(i as int),
        decreases list@.len() - i,
    {
        let report = ContribStreamRuntimeSnapshot::from_record(&list[i], now_ms);
        let ghost older = views(all@);
        all.push(report);
        assert(views(all@) =~= older.push(report@));
        assert(stream_reports(list@, now_ms)[i as int] == report@);
        assert(views(all@) =~= stream_reports(list@, now_ms).take(i + 1));
        i = i + 1;
    }
    assert(stream_reports(list@, now_ms).take(i as int) =~= stream_reports(list@, now_ms));
    let mut ordered = rank(all);
    if ordered.len() > CONTRIB_INGEST_SESSION_LIMIT {
        let ghost whole = views(ordered@);
        ordered.truncate(CONTRIB_INGEST_SESSION_LIMIT);
        assert(views(ordered@) =~= whole.take(CONTRIB_INGEST_SESSION_LIMIT as int));
    }
    ordered
}

/// The counters of one protocol.
#[derive(Debug, Clone, Copy)]
pub struct ProtocolRuntimeRecord {
    pub protocol: &'static str,
    pub units: u64,
    pub bytes: u64,
    pub last_seen_unix_ms: Option<u64>,
}

/// What a [`ProtocolRuntimeRecord`] holds.
pub struct ProtocolView {
    pub protocol: Seq<char>,
    pub units: u64,
    pub bytes: u64,
    pub last_seen_unix_ms: Option<u64>,
}

impl View for ProtocolRuntimeRecord {
    type V = ProtocolView;

    open spec fn view(&self) -> ProtocolView {
        ProtocolView {
            protocol: self.protocol@,
            units: self.units,
            bytes: self.bytes,
            last_seen_unix_ms: self.last_seen_unix_ms,
        }
    }
}

/// A protocol of which nothing is known.
pub open spec fn unseen_protocol(protocol: Seq<char>) -> ProtocolView {
    ProtocolView { protocol, units: 0, bytes: 0, last_seen_unix_ms: None }
}

/// Where a protocol stands in a list, counted from `from`.
pub open spec fn protocol_position(list: Seq<ProtocolView>, protocol: Seq<char>, from: int) -> Option<
    int,
>
    decreases list.len() - from,
{
    if from < 0 || from >= list.len() {
        None
    } else if list[from].protocol == protocol {
        Some(from)
    } else {
        protocol_position(list, protocol, from + 1)
    }
}

/// The list with a protocol in it.
pub open spec fn with_protocol(list: Seq<ProtocolView>, protocol: Seq<char>) -> Seq<ProtocolView> {
    match protocol_position(list, protocol, 0) {
        Some(_) => list,
        None => list.push(unseen_protocol(protocol)),
    }
}

/// The list with one more unit of a protocol.
pub open spec fn with_protocol_unit(
    list: Seq<ProtocolView>,
    protocol: Seq<char>,
    bytes: u64,
    now_ms: u64,
) -> Seq<ProtocolView> {
    let known = with_protocol(list, protocol);
    match protocol_position(known, protocol, 0) {
        Some(at) => known.update(
            at,
            ProtocolView {
                units: cap_u64(known[at].units + 1) as u64,
                bytes: cap_u64(known[at].bytes + bytes) as u64,
                last_seen_unix_ms: Some(now_ms),
                ..known[at]
            },
        ),
        None => known,
    }
}

fn find_protocol(list: &Vec<ProtocolRuntimeRecord>, protocol: &str) -> (r: Option<usize>)
    ensures
        match protocol_position(views(list@), protocol@, 0) {
            Some(at) => r matches Some(index) && index == at && index < list@.len(),
            None => r is None,
        },
{
    let ghost all = views(list@);
    let mut i: usize = 0;
    while i < list.len()
        invariant
            i <= list@.len(),
            all == views(list@),
            protocol_position(all, protocol@, 0) == protocol_position(all, protocol@, i as int),
        decreases list@.len() - i,
    {
        assert(all[i as int] == list@[i as int]@);
        if text_equal(list[i].protocol, protocol) {
            return Some(i);
        }
        i = i + 1;
    }
    None
}

fn ensure_protocol(list: &mut Vec<ProtocolRuntimeRecord>, protocol: &'static str) -> (r: usize)
    ensures
        views(final(list)@) == with_protocol(views(old(list)@), protocol@),
        r < final(list)@.len(),
        protocol_position(views(final(list)@), protocol@, 0) == Some(r as int),
{
    match find_protocol(list, protocol) {
        Some(at) => at,
        None => {
            let ghost before = views(list@);
            list.push(
                ProtocolRuntimeRecord { protocol, units: 0, bytes: 0, last_seen_unix_ms: None },
            );
            proof {
                let after = views(list@);
                assert(after =~= before.push(unseen_protocol(protocol@)));
                appended_protocol_is_found(before, protocol@, 0);
            }
            list.len() - 1
        },
    }
}

proof fn appended_protocol_is_found(list: Seq<ProtocolView>, protocol: Seq<char>, from: int)
    requires
        0 <= from <= list.len(),
        protocol_position(list, protocol, from) is None,
    ensures
        protocol_position(list.push(unseen_protocol(protocol)), protocol, from) == Some(
            list.len() as int,
        ),
    decreases list.len() - from,
{
    if from < list.len() {
        appended_protocol_is_found(list, protocol, from + 1);
    }
}

/// Whether no protocol stands in a list twice.
#[verifier::opaque]
pub open spec fn protocols_differ(list: Seq<ProtocolView>) -> bool {
    forall|i: int, j: int|
        0 <= i < j < list.len() ==> (#[trigger] list[i]).protocol != (#[trigger] list[j]).protocol
}

proof fn protocol_position_is_first(list: Seq<ProtocolView>, protocol: Seq<char>, from: int)
    requires
        0 <= from,
    ensures
        match protocol_position(list, protocol, from) {
            Some(at) => from <= at < list.len() && list[at].protocol == protocol,
            None => forall|i: int|
                from <= i < list.len() ==> (#[trigger] list[i]).protocol != protocol,
        },
    decreases list.len() - from,
{
    if from < list.len() {
        protocol_position_is_first(list, protocol, from + 1);
    }
}

/// A protocol is listed once, however often it is counted.
pub proof fn protocols_stay_listed_once(
    list: Seq<ProtocolView>,
    protocol: Seq<char>,
    bytes: u64,
    now_ms: u64,
)
    ensures
        protocols_differ(list) ==> protocols_differ(
            with_protocol_unit(list, protocol, bytes, now_ms),
        ),
{
    reveal(protocols_differ);
    protocol_position_is_first(list, protocol, 0);
    protocol_position_is_first(with_protocol(list, protocol), protocol, 0);
}

/// Counts one more unit of a protocol.
pub fn record_protocol_unit(
    list: &mut Vec<ProtocolRuntimeRecord>,
    protocol: &'static str,
    bytes: u64,
    now_ms: u64,
)
    ensures
        views(final(list)@) == with_protocol_unit(views(old(list)@), protocol@, bytes, now_ms),
        protocols_differ(views(old(list)@)) ==> protocols_differ(views(final(list)@)),
{
    proof {
        protocols_stay_listed_once(views(list@), protocol@, bytes, now_ms);
    }
    let at: usize = ensure_protocol(list, protocol);
    let ghost known = views(list@);
    let record = list[at];
    list[at] = ProtocolRuntimeRecord {
        protocol: record.protocol,
        units: record.units.saturating_add(1),
        bytes: record.bytes.saturating_add(bytes),
        last_seen_unix_ms: Some(now_ms),
    };
    assert(known[at as int] == record@);
    assert(views(list@) =~= known.update(at as int, list@[at as int]@));
}

/// A protocol as it is reported.
#[derive(Debug)]
pub struct ProtocolRuntimeSnapshot {
    pub protocol: &'static str,
    pub units: u64,
    pub bytes: u64,
    pub active_sessions: usize,
    pub ended_sessions: usize,
    pub last_seen_unix_ms: Option<u64>,
    pub last_seen_age_ms: Option<u64>,
}

/// What a [`ProtocolRuntimeSnapshot`] holds.
pub struct ProtocolSnapshotView {
    pub protocol: Seq<char>,
    pub units: u64,
    pub bytes: u64,
    pub active_sessions: nat,
    pub ended_sessions: nat,
    pub last_seen_unix_ms: Option<u64>,
    pub last_seen_age_ms: Option<u64>,
}

impl View for ProtocolRuntimeSnapshot {
    type V = ProtocolSnapshotView;

    open spec fn view(&self) -> ProtocolSnapshotView {
        ProtocolSnapshotView {
            protocol: self.protocol@,
            units: self.units,
            bytes: self.bytes,
            active_sessions: self.active_sessions as nat,
            ended_sessions: self.ended_sessions as nat,
            last_seen_unix_ms: self.last_seen_unix_ms,
            last_seen_age_ms: self.last_seen_age_ms,
        }
    }
}

impl Ranked for ProtocolRuntimeSnapshot {
    open spec fn goes_before(a: ProtocolSnapshotView, b: ProtocolSnapshotView) -> bool {
        text_before(a.protocol, b.protocol)
    }

    proof fn order_is_transitive(
        a: ProtocolSnapshotView,
        b: ProtocolSnapshotView,
        c: ProtocolSnapshotView,
    ) {
        text_order_is_transitive(a.protocol, b.protocol, c.protocol);
    }

    proof fn order_is_one_way(a: ProtocolSnapshotView, b: ProtocolSnapshotView) {
        texts_are_ordered(a.protocol, b.protocol);
    }

    fn is_before(&self, other: &Self) -> (r: bool) {
        is_text_before(self.protocol, other.protocol)
    }
}

/// What some sessions add up to for one protocol: how many are active, how many are over, and when
/// one was last seen.
pub open spec fn session_totals(sessions: Seq<SessionView>, protocol: Seq<char>) -> (
    nat,
    nat,
    Option<u64>,
)
    decreases sessions.len(),
{
    if sessions.len() == 0 {
        (0, 0, None)
    } else {
        let (active, ended, seen) = session_totals(sessions.drop_last(), protocol);
        let session = sessions.last();
        if session.protocol != protocol {
            (active, ended, seen)
        } else {
            (
                active + if session.active {
                    1nat
                } else {
                    0
                },
                ended + if session.active {
                    0nat
                } else {
                    1
                },
                later(seen, Some(session.last_seen_unix_ms)),
            )
        }
    }
}

/// A protocol as it is reported.
pub open spec fn protocol_report(
    record: ProtocolView,
    sessions: Seq<SessionView>,
    now_ms: u64,
) -> ProtocolSnapshotView {
    let (active, ended, seen) = session_totals(sessions, record.protocol);
    let last_seen = later(record.last_seen_unix_ms, seen);
    ProtocolSnapshotView {
        protocol: record.protocol,
        units: record.units,
        bytes: record.bytes,
        active_sessions: active,
        ended_sessions: ended,
        last_seen_unix_ms: last_seen,
        last_seen_age_ms: age(now_ms, last_seen),
    }
}

/// The protocols that are reported: those that were used, and the three that can be.
pub open spec fn reported_protocols(list: Seq<ProtocolView>) -> Seq<ProtocolView> {
    with_protocol(with_protocol(with_protocol(list, "rist"@), "srt"@), "rtmp"@)
}

/// The reports of the protocols, by name.
pub open spec fn protocol_reports(
    list: Seq<ProtocolView>,
    sessions: Seq<SessionView>,
    now_ms: u64,
) -> Seq<ProtocolSnapshotView> {
    ranked::<ProtocolRuntimeSnapshot>(
        reported_protocols(list).map_values(
            |record: ProtocolView| protocol_report(record, sessions, now_ms),
        ),
    )
}

fn protocol_snapshot(
    record: &ProtocolRuntimeRecord,
    sessions: &Vec<IngestSessionRecord>,
    now_ms: u64,
) -> (r: ProtocolRuntimeSnapshot)
    ensures
        r@ == protocol_report(record@, sessions_view(sessions@), now_ms),
{
    let ghost list = sessions_view(sessions@);
    let mut active: usize = 0;
    let mut ended: usize = 0;
    let mut seen: Option<u64> = None;
    let mut i: usize = 0;
    assert(list.take(0) =~= Seq::empty());
    while i < sessions.len()
        invariant
            i <= sessions@.len(),
            list == sessions_view(sessions@),
            session_totals(list.take(i as int), record@.protocol) == (active as nat, ended as nat, seen),
            active + ended <= i,
        decreases sessions@.len() - i,
    {
        assert(list.take(i + 1).drop_last() =~= list.take(i as int));
        assert(list.take(i + 1).last() == sessions@[i as int]@);
        if text_equal(sessions[i].protocol, record.protocol) {
            if sessions[i].active {
                active = active + 1;
            } else {
                ended = ended + 1;
            }
            seen = later_of(seen, Some(sessions[i].last_seen_unix_ms));
        }
        i = i + 1;
    }
    assert(list.take(i as int) =~= list);
    let last_seen = later_of(record.last_seen_unix_ms, seen);
    ProtocolRuntimeSnapshot {
        protocol: record.protocol,
        units: record.units,
        bytes: record.bytes,
        active_sessions: active,
        ended_sessions: ended,
        last_seen_unix_ms: last_seen,
        last_seen_age_ms: age_of(now_ms, last_seen),
    }
}

/// Reports the protocols, by name.
pub fn protocol_snapshots(
    list: &Vec<ProtocolRuntimeRecord>,
    sessions: &Vec<IngestSessionRecord>,
    now_ms: u64,
) -> (r: Vec<ProtocolRuntimeSnapshot>)
    ensures
        views(r@) == protocol_reports(views(list@), sessions_view(sessions@), now_ms),
{
    let mut known: Vec<ProtocolRuntimeRecord> = Vec::new();
    let mut i: usize = 0;
    while i < list.len()
        invariant
            i <= list@.len(),
            known@ == list@.take(i as int),
        decreases list@.len() - i,
    {
        known.push(list[i]);
        assert(known@ =~= list@.take(i + 1));
        i = i + 1;
    }
    assert(known@ =~= list@);
    let _ = ensure_protocol(&mut known, "rist");
    let _ = ensure_protocol(&mut known, "srt");
    let _ = ensure_protocol(&mut known, "rtmp");
    let ghost sessions_list = sessions_view(sessions@);
    let ghost records = views(known@);
    let ghost wanted = records.map_values(
        |record: ProtocolView| protocol_report(record, sessions_list, now_ms),
    );
    let mut all: Vec<ProtocolRuntimeSnapshot> = Vec::new();
    let mut k: usize = 0;
    while k < known.len()
        invariant
            k <= known@.len(),
            records == views(known@),
            sessions_list == sessions_view(sessions@),
            wanted == records.map_values(
                |record: ProtocolView| protocol_report(record, sessions_list, now_ms),
            ),
            views(all@) == wanted.take(k as int),
        decreases known@.len() - k,
    {
        let report = protocol_snapshot(&known[k], sessions, now_ms);
        let ghost older = views(all@);
        all.push(report);
        assert(views(all@) =~= older.push(report@));
        assert(records[k as int] == known@[k as int]@);
        assert(wanted[k as int] == report@);
        assert(views(all@) =~= wanted.take(k + 1));
        k = k + 1;
    }
    assert(wanted.take(k as int) =~= wanted);
    rank(all)
}

/// A stream is degraded exactly where anything of it failed; otherwise it publishes where a part was
/// published, forwards where only a payload was, ingests where only input came, and waits where nothing
/// has happened.
pub proof fn streams_say_what_they_do(record: ContribStreamRuntimeRecord, now_ms: u64)
    ensures
        ({
            let state = record.reported(now_ms).state;
            let failed = record.mesh_errors > 0 || record.fmp4_publish_errors > 0;
            &&& state == "degraded"@ <==> failed
            &&& state == "publishing"@ <==> !failed && record.fmp4_parts > 0
            &&& state == "forwarding"@ <==> !failed && record.fmp4_parts == 0
                && record.mesh_payloads > 0
            &&& state == "ingesting"@ <==> !failed && record.fmp4_parts == 0 && record.mesh_payloads
                == 0 && record.input_units > 0
            &&& state == "waiting"@ <==> !failed && record.fmp4_parts == 0 && record.mesh_payloads
                == 0 && record.input_units == 0
        }),
{
    reveal_strlit("degraded");
    reveal_strlit("publishing");
    reveal_strlit("forwarding");
    reveal_strlit("ingesting");
    reveal_strlit("waiting");
    assert("degraded"@[0] == 'd' && "publishing"@[0] == 'p' && "forwarding"@[0] == 'f');
    assert("ingesting"@[0] == 'i' && "waiting"@[0] == 'w');
}

/// Everything that is counted of a stream is reported as what it is.
pub proof fn streams_are_reported_as_they_are(record: ContribStreamRuntimeRecord, now_ms: u64)
    ensures
        ({
            let report = record.reported(now_ms);
            &&& report.stream_id_text == decimal(record.stream_id as nat)
            &&& report.input_units == record.input_units
            &&& report.input_bytes == record.input_bytes
            &&& report.mesh_payloads == record.mesh_payloads
            &&& report.mesh_payload_bytes == record.mesh_payload_bytes
            &&& report.mesh_datagrams == record.mesh_datagrams
            &&& report.mesh_datagram_bytes == record.mesh_datagram_bytes
            &&& report.mesh_errors == record.mesh_errors
            &&& report.fmp4_parts == record.fmp4_parts
            &&& report.fmp4_bytes == record.fmp4_bytes
            &&& report.fmp4_init_bytes == record.fmp4_init_bytes
            &&& report.fmp4_publish_errors == record.fmp4_publish_errors
            &&& report.latest_fmp4_sequence == record.latest_fmp4_sequence
            &&& report.video_codec == (if record.has_video {
                Some("h264"@)
            } else {
                None
            })
            &&& report.audio_codec == (if record.has_audio {
                Some("aac"@)
            } else {
                None
            })
            &&& report.video_width == record.video_width
            &&& report.video_height == record.video_height
            &&& report.video_parts == record.video_parts
            &&& report.video_access_units == record.video_access_units
            &&& report.audio_parts == record.audio_parts
            &&& report.audio_access_units == record.audio_access_units
            &&& report.last_input_unix_ms == record.last_input_unix_ms
            &&& report.last_mesh_forward_unix_ms == record.last_mesh_forward_unix_ms
            &&& report.last_fmp4_unix_ms == record.last_fmp4_unix_ms
        }),
        record.last_input_unix_ms is None ==> record.reported(now_ms).last_input_age_ms is None,
        record.last_input_unix_ms matches Some(seen) ==> (seen <= now_ms ==> record.reported(
            now_ms,
        ).last_input_age_ms == Some((now_ms - seen) as u64)),
        record.last_mesh_forward_unix_ms is None ==> record.reported(now_ms).last_mesh_forward_age_ms is None,
        record.last_mesh_forward_unix_ms matches Some(seen) ==> (seen <= now_ms ==> record.reported(
            now_ms,
        ).last_mesh_forward_age_ms == Some((now_ms - seen) as u64)),
        record.last_fmp4_unix_ms is None ==> record.reported(now_ms).last_fmp4_age_ms is None,
        record.last_fmp4_unix_ms matches Some(seen) ==> (seen <= now_ms ==> record.reported(
            now_ms,
        ).last_fmp4_age_ms == Some((now_ms - seen) as u64)),
{
}

/// A stream was last seen when it last was, by input, by forwarding or by publishing.
pub proof fn streams_were_seen_last(report: StreamSnapshotView)
    ensures
        ({
            let seen = report.last_seen();
            let not_later = |time: Option<u64>|
                time is Some ==> seen is Some && time->Some_0 <= seen->Some_0;
            &&& not_later(report.last_input_unix_ms)
            &&& not_later(report.last_mesh_forward_unix_ms)
            &&& not_later(report.last_fmp4_unix_ms)
            &&& seen == report.last_input_unix_ms || seen == report.last_mesh_forward_unix_ms
                || seen == report.last_fmp4_unix_ms
        }),
{
}

/// The reports of streams are as many as there are streams, up to a limit; each is the report of one of
/// them, and none that is left out was seen later than one that is not.
pub proof fn the_streams_seen_last_are_reported(
    list: Seq<ContribStreamRuntimeRecord>,
    now_ms: u64,
)
    ensures
        ({
            let reports = recent_streams(list, now_ms);
            &&& reports.len() == (if list.len() <= CONTRIB_INGEST_SESSION_LIMIT {
                list.len()
            } else {
                CONTRIB_INGEST_SESSION_LIMIT as nat
            })
            &&& forall|i: int|
                0 <= i < reports.len() ==> exists|k: int|
                    0 <= k < list.len() && #[trigger] list[k].reported(now_ms)
                        == #[trigger] reports[i]
            &&& forall|i: int, j: int|
                0 <= i < j < reports.len() ==> !is_later(
                    (#[trigger] reports[j]).last_seen(),
                    (#[trigger] reports[i]).last_seen(),
                )
        }),
{
    let all = stream_reports(list, now_ms);
    crate::ranking::ranking_sorts::<ContribStreamRuntimeSnapshot>(all);
    let order = ranked::<ContribStreamRuntimeSnapshot>(all);
    let reports = recent_streams(list, now_ms);
    broadcast use vstd::seq_lib::group_to_multiset_ensures;
    assert forall|i: int| 0 <= i < reports.len() implies exists|k: int|
        0 <= k < list.len() && #[trigger] list[k].reported(now_ms) == #[trigger] reports[i] by {
        assert(reports[i] == order[i]);
        assert(order.contains(order[i]));
        assert(order.to_multiset().count(order[i]) > 0);
        assert(all.contains(order[i]));
        let k = all.index_of(order[i]);
        assert(all[k] == list[k].reported(now_ms));
    }
}

/// A protocol counts its own sessions, those that are active apart from those that ended, and was last
/// seen when it or any of them was; sessions of other protocols change nothing of it.
pub proof fn protocols_count_their_sessions(
    record: ProtocolView,
    sessions: Seq<SessionView>,
    session: SessionView,
    now_ms: u64,
)
    ensures
        ({
            let before = protocol_report(record, sessions, now_ms);
            let after = protocol_report(record, sessions.push(session), now_ms);
            let none = protocol_report(record, Seq::empty(), now_ms);
            &&& none.active_sessions == 0 && none.ended_sessions == 0
            &&& none.last_seen_unix_ms == record.last_seen_unix_ms
            &&& none.units == record.units && none.bytes == record.bytes
            &&& none.protocol == record.protocol
            &&& session.protocol != record.protocol ==> after == before
            &&& session.protocol == record.protocol ==> {
                &&& after.active_sessions + after.ended_sessions == before.active_sessions
                    + before.ended_sessions + 1
                &&& session.active <==> after.active_sessions == before.active_sessions + 1
                &&& after.last_seen_unix_ms is Some
                &&& after.last_seen_unix_ms->Some_0 >= session.last_seen_unix_ms
                &&& before.last_seen_unix_ms is Some ==> after.last_seen_unix_ms->Some_0
                    >= before.last_seen_unix_ms->Some_0
                &&& after.last_seen_unix_ms == before.last_seen_unix_ms || after.last_seen_unix_ms
                    == Some(session.last_seen_unix_ms)
            }
            &&& after.units == record.units && after.bytes == record.bytes
            &&& after.last_seen_unix_ms matches Some(seen) ==> (seen <= now_ms
                ==> after.last_seen_age_ms == Some((now_ms - seen) as u64))
            &&& after.last_seen_unix_ms is None ==> after.last_seen_age_ms is None
        }),
{
    assert(sessions.push(session).drop_last() =~= sessions);
    assert(sessions.push(session).last() == session);
}

} // verus!
