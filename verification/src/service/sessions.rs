//! Ingest sessions: who contributes, since when, and how much.
use crate::arith::{cap_u64, max_int, min_int, minus_floor};
use crate::service::events::{copy_text, name_view, text_view};
use crate::ranking::{is_text_before, text_before, text_order_is_transitive, texts_are_ordered, Ranked};
use crate::text::{decimal, decimal_text, text_equal};
use vstd::prelude::*;
use vstd::string::*;

verus! {

/// Sessions that are reported.
pub const CONTRIB_INGEST_SESSION_LIMIT: usize = 48;

/// Sessions that are kept, as long as no more are active.
pub const CONTRIB_INGEST_SESSION_KEPT: usize = 96;

/// One session of one contributor.
#[derive(Debug)]
pub struct IngestSessionRecord {
    pub session_id: u64,
    pub protocol: &'static str,
    pub stream_id: u64,
    pub output_stream_id: Option<u64>,
    pub output_stream_idx: Option<usize>,
    pub peer: Option<String>,
    pub path: Option<String>,
    pub active: bool,
    pub started_unix_ms: u64,
    pub last_seen_unix_ms: u64,
    pub ended_unix_ms: Option<u64>,
    pub body_slots: u64,
    pub bytes: u64,
    pub access_units: u64,
    pub end_reason: Option<&'static str>,
}

/// What an [`IngestSessionRecord`] holds.
pub struct SessionView {
    pub session_id: u64,
    pub protocol: Seq<char>,
    pub stream_id: u64,
    pub output_stream_id: Option<u64>,
    pub output_stream_idx: Option<usize>,
    pub peer: Option<Seq<char>>,
    pub path: Option<Seq<char>>,
    pub active: bool,
    pub started_unix_ms: u64,
    pub last_seen_unix_ms: u64,
    pub ended_unix_ms: Option<u64>,
    pub body_slots: u64,
    pub bytes: u64,
    pub access_units: u64,
    pub end_reason: Option<Seq<char>>,
}

impl View for IngestSessionRecord {
    type V = SessionView;

    open spec fn view(&self) -> SessionView {
        SessionView {
            session_id: self.session_id,
            protocol: self.protocol@,
            stream_id: self.stream_id,
            output_stream_id: self.output_stream_id,
            output_stream_idx: self.output_stream_idx,
            peer: text_view(self.peer),
            path: text_view(self.path),
            active: self.active,
            started_unix_ms: self.started_unix_ms,
            last_seen_unix_ms: self.last_seen_unix_ms,
            ended_unix_ms: self.ended_unix_ms,
            body_slots: self.body_slots,
            bytes: self.bytes,
            access_units: self.access_units,
            end_reason: name_view(self.end_reason),
        }
    }
}

/// What a list of sessions holds.
pub open spec fn sessions_view(list: Seq<IngestSessionRecord>) -> Seq<SessionView> {
    list.map_values(|session: IngestSessionRecord| session@)
}

/// Whether a session is the active one of a protocol and stream.
pub open spec fn is_active_for(session: SessionView, protocol: Seq<char>, stream_id: u64) -> bool {
    session.active && session.protocol == protocol && session.stream_id == stream_id
}

/// Where the active session of a protocol and stream stands, counted from `from`.
pub open spec fn active_position(
    list: Seq<SessionView>,
    protocol: Seq<char>,
    stream_id: u64,
    from: int,
) -> Option<int>
    decreases list.len() - from,
{
    if from < 0 || from >= list.len() {
        None
    } else if is_active_for(list[from], protocol, stream_id) {
        Some(from)
    } else {
        active_position(list, protocol, stream_id, from + 1)
    }
}

/// Finds the active session of a protocol and stream.
pub fn active_ingest_session(
    sessions: &Vec<IngestSessionRecord>,
    protocol: &str,
    stream_id: u64,
) -> (r: Option<usize>)
    ensures
        match active_position(sessions_view(sessions@), protocol@, stream_id, 0) {
            Some(at) => r matches Some(index) && index == at && index < sessions@.len(),
            None => r is None,
        },
{
    let ghost list = sessions_view(sessions@);
    let mut i: usize = 0;
    while i < sessions.len()
        invariant
            i <= sessions@.len(),
            list == sessions_view(sessions@),
            active_position(list, protocol@, stream_id, 0) == active_position(
                list,
                protocol@,
                stream_id,
                i as int,
            ),
        decreases sessions@.len() - i,
    {
        assert(list[i as int] == sessions@[i as int]@);
        if sessions[i].active && sessions[i].stream_id == stream_id && text_equal(
            sessions[i].protocol,
            protocol,
        ) {
            return Some(i);
        }
        i = i + 1;
    }
    None
}

/// Where the session stands that ended and was seen the longest ago, among the first `count`; the
/// first of them counts.
pub open spec fn oldest_ended(list: Seq<SessionView>, count: nat) -> Option<int>
    decreases count,
{
    if count == 0 || count > list.len() {
        None
    } else {
        let at = count - 1;
        match oldest_ended(list, (count - 1) as nat) {
            Some(best) => if !list[at].active && list[at].last_seen_unix_ms
                < list[best].last_seen_unix_ms {
                Some(at)
            } else {
                Some(best)
            },
            None => if !list[at].active {
                Some(at)
            } else {
                None
            },
        }
    }
}

/// The sessions without those that ended the longest ago, as far as there are too many.
pub open spec fn pruned(list: Seq<SessionView>) -> Seq<SessionView>
    decreases list.len(),
{
    if list.len() <= CONTRIB_INGEST_SESSION_KEPT {
        list
    } else {
        match oldest_ended(list, list.len()) {
            Some(at) => if 0 <= at < list.len() {
                pruned(list.remove(at))
            } else {
                list
            },
            None => list,
        }
    }
}

/// Forgets the sessions that ended the longest ago, as far as there are too many.
pub fn prune_ingest_sessions(sessions: &mut Vec<IngestSessionRecord>)
    ensures
        sessions_view(final(sessions)@) == pruned(sessions_view(old(sessions)@)),
{
    while sessions.len() > CONTRIB_INGEST_SESSION_KEPT
        invariant
            pruned(sessions_view(sessions@)) == pruned(sessions_view(old(sessions)@)),
        decreases sessions@.len(),
    {
        let ghost list = sessions_view(sessions@);
        let mut best: Option<usize> = None;
        let mut i: usize = 0;
        while i < sessions.len()
            invariant
                i <= sessions@.len(),
                list == sessions_view(sessions@),
                match oldest_ended(list, i as nat) {
                    Some(at) => best matches Some(index) && index == at && index < i,
                    None => best is None,
                },
            decreases sessions@.len() - i,
        {
            assert(list[i as int] == sessions@[i as int]@);
            if !sessions[i].active {
                match best {
                    Some(at) => {
                        assert(list[at as int] == sessions@[at as int]@);
                        if sessions[i].last_seen_unix_ms < sessions[at].last_seen_unix_ms {
                            best = Some(i);
                        }
                    },
                    None => {
                        best = Some(i);
                    },
                }
            }
            i = i + 1;
        }
        match best {
            Some(at) => {
                let _ = sessions.remove(at);
                assert(sessions_view(sessions@) =~= list.remove(at as int));
            },
            None => {
                return;
            },
        }
    }
}

/// What a contributor is known by when its session starts or goes on.
pub struct SessionOrigin {
    pub output_stream_id: Option<u64>,
    pub output_stream_idx: Option<usize>,
    pub peer: Option<String>,
    pub path: Option<String>,
}

/// What a [`SessionOrigin`] holds.
pub struct OriginView {
    pub output_stream_id: Option<u64>,
    pub output_stream_idx: Option<usize>,
    pub peer: Option<Seq<char>>,
    pub path: Option<Seq<char>>,
}

impl View for SessionOrigin {
    type V = OriginView;

    open spec fn view(&self) -> OriginView {
        OriginView {
            output_stream_id: self.output_stream_id,
            output_stream_idx: self.output_stream_idx,
            peer: text_view(self.peer),
            path: text_view(self.path),
        }
    }
}

impl OriginView {
    /// Nothing known.
    pub open spec fn unknown() -> Self {
        OriginView { output_stream_id: None, output_stream_idx: None, peer: None, path: None }
    }
}

impl SessionOrigin {
    /// Nothing known.
    pub fn unknown() -> (r: Self)
        ensures
            r@ == OriginView::unknown(),
    {
        SessionOrigin { output_stream_id: None, output_stream_idx: None, peer: None, path: None }
    }
}

impl SessionView {
    /// The session seen again, with what is newly known of it.
    pub open spec fn seen_again(self, origin: OriginView, now_ms: u64) -> Self {
        SessionView {
            last_seen_unix_ms: now_ms,
            output_stream_id: if origin.output_stream_id is Some {
                origin.output_stream_id
            } else {
                self.output_stream_id
            },
            output_stream_idx: if origin.output_stream_idx is Some {
                origin.output_stream_idx
            } else {
                self.output_stream_idx
            },
            peer: if origin.peer is Some {
                origin.peer
            } else {
                self.peer
            },
            path: if origin.path is Some {
                origin.path
            } else {
                self.path
            },
            ..self
        }
    }

    /// A session that has just started.
    pub open spec fn started(
        session_id: u64,
        protocol: Seq<char>,
        stream_id: u64,
        origin: OriginView,
        now_ms: u64,
    ) -> Self {
        SessionView {
            session_id,
            protocol,
            stream_id,
            output_stream_id: origin.output_stream_id,
            output_stream_idx: origin.output_stream_idx,
            peer: origin.peer,
            path: origin.path,
            active: true,
            started_unix_ms: now_ms,
            last_seen_unix_ms: now_ms,
            ended_unix_ms: None,
            body_slots: 0,
            bytes: 0,
            access_units: 0,
            end_reason: None,
        }
    }

    /// The session over.
    pub open spec fn ended(self, reason: Seq<char>, now_ms: u64) -> Self {
        SessionView {
            active: false,
            last_seen_unix_ms: now_ms,
            ended_unix_ms: Some(now_ms),
            end_reason: Some(reason),
            ..self
        }
    }

    /// The session with one more slot of a body.
    pub open spec fn with_body(self, bytes: u64, now_ms: u64) -> Self {
        SessionView {
            last_seen_unix_ms: now_ms,
            body_slots: cap_u64(self.body_slots + 1) as u64,
            bytes: cap_u64(self.bytes + bytes) as u64,
            ..self
        }
    }

    /// The session with one more access unit.
    pub open spec fn with_access_unit(self, bytes: u64, now_ms: u64) -> Self {
        SessionView {
            last_seen_unix_ms: now_ms,
            access_units: cap_u64(self.access_units + 1) as u64,
            bytes: cap_u64(self.bytes + bytes) as u64,
            ..self
        }
    }
}

/// The sessions once a contributor is known to be there, before any is forgotten.
pub open spec fn joined(
    list: Seq<SessionView>,
    session_id: u64,
    protocol: Seq<char>,
    stream_id: u64,
    origin: OriginView,
    now_ms: u64,
) -> Seq<SessionView> {
    match active_position(list, protocol, stream_id, 0) {
        Some(at) => list.update(at, list[at].seen_again(origin, now_ms)),
        None => list.push(SessionView::started(session_id, protocol, stream_id, origin, now_ms)),
    }
}

/// Makes sure that a contributor has an active session; answers whether one had to be started,
/// under the given id.
pub fn join_session(
    sessions: &mut Vec<IngestSessionRecord>,
    session_id: u64,
    protocol: &'static str,
    stream_id: u64,
    origin: SessionOrigin,
    now_ms: u64,
) -> (r: bool)
    ensures
        sessions_view(final(sessions)@) == pruned(
            joined(
                sessions_view(old(sessions)@),
                session_id,
                protocol@,
                stream_id,
                origin@,
                now_ms,
            ),
        ),
        r == (active_position(sessions_view(old(sessions)@), protocol@, stream_id, 0) is None),
        one_active_each(sessions_view(old(sessions)@)) ==> one_active_each(
            sessions_view(final(sessions)@),
        ),
{
    let ghost before = sessions_view(sessions@);
    proof {
        if one_active_each(before) {
            joining_leaves_one_active(before, session_id, protocol@, stream_id, origin@, now_ms);
        }
    }
    let started = match active_ingest_session(sessions, protocol, stream_id) {
        Some(at) => {
            assert(before[at as int] == sessions@[at as int]@);
            let session = &mut sessions[at];
            session.last_seen_unix_ms = now_ms;
            if origin.output_stream_id.is_some() {
                session.output_stream_id = origin.output_stream_id;
            }
            if origin.output_stream_idx.is_some() {
                session.output_stream_idx = origin.output_stream_idx;
            }
            if origin.peer.is_some() {
                session.peer = origin.peer;
            }
            if origin.path.is_some() {
                session.path = origin.path;
            }
            assert(sessions_view(sessions@) =~= before.update(
                at as int,
                before[at as int].seen_again(origin@, now_ms),
            ));
            false
        },
        None => {
            let session = IngestSessionRecord {
                session_id,
                protocol,
                stream_id,
                output_stream_id: origin.output_stream_id,
                output_stream_idx: origin.output_stream_idx,
                peer: origin.peer,
                path: origin.path,
                active: true,
                started_unix_ms: now_ms,
                last_seen_unix_ms: now_ms,
                ended_unix_ms: None,
                body_slots: 0,
                bytes: 0,
                access_units: 0,
                end_reason: None,
            };
            sessions.push(session);
            assert(sessions_view(sessions@) =~= before.push(
                SessionView::started(session_id, protocol@, stream_id, origin@, now_ms),
            ));
            true
        },
    };
    prune_ingest_sessions(sessions);
    started
}

/// What one more slot of a body makes of the active session, if there is one.
pub open spec fn with_body(
    list: Seq<SessionView>,
    protocol: Seq<char>,
    stream_id: u64,
    bytes: u64,
    now_ms: u64,
) -> Seq<SessionView> {
    match active_position(list, protocol, stream_id, 0) {
        Some(at) => list.update(at, list[at].with_body(bytes, now_ms)),
        None => list,
    }
}

/// What one more access unit makes of the active session, if there is one.
pub open spec fn with_access_unit(
    list: Seq<SessionView>,
    protocol: Seq<char>,
    stream_id: u64,
    bytes: u64,
    now_ms: u64,
) -> Seq<SessionView> {
    match active_position(list, protocol, stream_id, 0) {
        Some(at) => list.update(at, list[at].with_access_unit(bytes, now_ms)),
        None => list,
    }
}

/// What the end of the active session makes of the sessions, before any is forgotten.
pub open spec fn left(
    list: Seq<SessionView>,
    protocol: Seq<char>,
    stream_id: u64,
    reason: Seq<char>,
    now_ms: u64,
) -> Seq<SessionView> {
    match active_position(list, protocol, stream_id, 0) {
        Some(at) => list.update(at, list[at].ended(reason, now_ms)),
        None => list,
    }
}

/// Counts one more slot of a body in the active session.
pub fn count_body(
    sessions: &mut Vec<IngestSessionRecord>,
    protocol: &str,
    stream_id: u64,
    bytes: u64,
    now_ms: u64,
)
    ensures
        sessions_view(final(sessions)@) == with_body(
            sessions_view(old(sessions)@),
            protocol@,
            stream_id,
            bytes,
            now_ms,
        ),
        one_active_each(sessions_view(old(sessions)@)) ==> one_active_each(
            sessions_view(final(sessions)@),
        ),
{
    let ghost before = sessions_view(sessions@);
    proof {
        if one_active_each(before) {
            counting_keeps_sessions_unique(before, protocol@, stream_id, bytes, now_ms);
        }
    }
    if let Some(at) = active_ingest_session(sessions, protocol, stream_id) {
        assert(before[at as int] == sessions@[at as int]@);
        let session = &mut sessions[at];
        session.last_seen_unix_ms = now_ms;
        session.body_slots = session.body_slots.saturating_add(1);
        session.bytes = session.bytes.saturating_add(bytes);
        assert(sessions_view(sessions@) =~= before.update(
            at as int,
            before[at as int].with_body(bytes, now_ms),
        ));
    }
}

/// Counts one more access unit in the active session.
pub fn count_access_unit(
    sessions: &mut Vec<IngestSessionRecord>,
    protocol: &str,
    stream_id: u64,
    bytes: u64,
    now_ms: u64,
)
    ensures
        sessions_view(final(sessions)@) == with_access_unit(
            sessions_view(old(sessions)@),
            protocol@,
            stream_id,
            bytes,
            now_ms,
        ),
        one_active_each(sessions_view(old(sessions)@)) ==> one_active_each(
            sessions_view(final(sessions)@),
        ),
{
    let ghost before = sessions_view(sessions@);
    proof {
        if one_active_each(before) {
            counting_keeps_sessions_unique(before, protocol@, stream_id, bytes, now_ms);
        }
    }
    if let Some(at) = active_ingest_session(sessions, protocol, stream_id) {
        assert(before[at as int] == sessions@[at as int]@);
        let session = &mut sessions[at];
        session.last_seen_unix_ms = now_ms;
        session.access_units = session.access_units.saturating_add(1);
        session.bytes = session.bytes.saturating_add(bytes);
        assert(sessions_view(sessions@) =~= before.update(
            at as int,
            before[at as int].with_access_unit(bytes, now_ms),
        ));
    }
}

/// Ends the active session of a protocol and stream; answers whether there was one.
pub fn leave_session(
    sessions: &mut Vec<IngestSessionRecord>,
    protocol: &str,
    stream_id: u64,
    reason: &'static str,
    now_ms: u64,
) -> (r: bool)
    ensures
        sessions_view(final(sessions)@) == pruned(
            left(sessions_view(old(sessions)@), protocol@, stream_id, reason@, now_ms),
        ),
        r == (active_position(sessions_view(old(sessions)@), protocol@, stream_id, 0) is Some),
        one_active_each(sessions_view(old(sessions)@)) ==> one_active_each(
            sessions_view(final(sessions)@),
        ),
{
    let ghost before = sessions_view(sessions@);
    proof {
        if one_active_each(before) {
            let none = OriginView::unknown();
            sessions_stay_unique(before, 0, protocol@, stream_id, none, reason@, now_ms);
            pruning_keeps_active(left(before, protocol@, stream_id, reason@, now_ms));
        }
    }
    let ended = match active_ingest_session(sessions, protocol, stream_id) {
        Some(at) => {
            assert(before[at as int] == sessions@[at as int]@);
            let session = &mut sessions[at];
            session.active = false;
            session.last_seen_unix_ms = now_ms;
            session.ended_unix_ms = Some(now_ms);
            session.end_reason = Some(reason);
            assert(sessions_view(sessions@) =~= before.update(
                at as int,
                before[at as int].ended(reason@, now_ms),
            ));
            true
        },
        None => false,
    };
    prune_ingest_sessions(sessions);
    ended
}

/// Whether no protocol and stream has two active sessions.
#[verifier::opaque]
pub open spec fn one_active_each(list: Seq<SessionView>) -> bool {
    forall|i: int, j: int|
        0 <= i < j < list.len() && (#[trigger] list[i]).active && (#[trigger] list[j]).active
            ==> list[i].protocol != list[j].protocol || list[i].stream_id != list[j].stream_id
}

/// Where an active session is found there is one, and where none is found there is none.
pub proof fn active_position_is_first(list: Seq<SessionView>, protocol: Seq<char>, stream_id: u64, from: int)
    requires
        0 <= from,
    ensures
        match active_position(list, protocol, stream_id, from) {
            Some(at) => from <= at < list.len() && is_active_for(list[at], protocol, stream_id),
            None => forall|i: int|
                from <= i < list.len() ==> !is_active_for(#[trigger] list[i], protocol, stream_id),
        },
    decreases list.len() - from,
{
    if from < list.len() {
        active_position_is_first(list, protocol, stream_id, from + 1);
    }
}

/// A contributor never has two active sessions for the same protocol and stream: joining, leaving
/// and forgetting keep it so.
pub proof fn sessions_stay_unique(
    list: Seq<SessionView>,
    session_id: u64,
    protocol: Seq<char>,
    stream_id: u64,
    origin: OriginView,
    reason: Seq<char>,
    now_ms: u64,
)
    requires
        one_active_each(list),
    ensures
        one_active_each(joined(list, session_id, protocol, stream_id, origin, now_ms)),
        one_active_each(left(list, protocol, stream_id, reason, now_ms)),
        one_active_each(pruned(list)),
{
    reveal(one_active_each);
    active_position_is_first(list, protocol, stream_id, 0);
    let after = joined(list, session_id, protocol, stream_id, origin, now_ms);
    assert forall|i: int, j: int|
        0 <= i < j < after.len() && (#[trigger] after[i]).active && (
        #[trigger] after[j]).active implies after[i].protocol != after[j].protocol
        || after[i].stream_id != after[j].stream_id by {
        if j < list.len() {
            assert(list[i].active == after[i].active && list[j].active == after[j].active);
            assert(list[i].protocol == after[i].protocol && list[j].protocol == after[j].protocol);
            assert(list[i].stream_id == after[i].stream_id && list[j].stream_id
                == after[j].stream_id);
        } else {
            assert(after[i] == list[i]);
            assert(!is_active_for(list[i], protocol, stream_id));
        }
    }
    let over = left(list, protocol, stream_id, reason, now_ms);
    assert forall|i: int, j: int|
        0 <= i < j < over.len() && (#[trigger] over[i]).active && (
        #[trigger] over[j]).active implies over[i].protocol != over[j].protocol || over[i].stream_id
        != over[j].stream_id by {
        assert(over[i] == list[i] && over[j] == list[j]);
    }
    pruning_keeps_active(list);
}

/// Counting in a session keeps it so as well.
pub proof fn counting_keeps_sessions_unique(
    list: Seq<SessionView>,
    protocol: Seq<char>,
    stream_id: u64,
    bytes: u64,
    now_ms: u64,
)
    requires
        one_active_each(list),
    ensures
        one_active_each(with_body(list, protocol, stream_id, bytes, now_ms)),
        one_active_each(with_access_unit(list, protocol, stream_id, bytes, now_ms)),
{
    reveal(one_active_each);
    active_position_is_first(list, protocol, stream_id, 0);
    let fed = with_body(list, protocol, stream_id, bytes, now_ms);
    let counted = with_access_unit(list, protocol, stream_id, bytes, now_ms);
    assert forall|i: int| 0 <= i < list.len() implies {
        &&& (#[trigger] fed[i]).active == list[i].active
        &&& fed[i].protocol == list[i].protocol
        &&& fed[i].stream_id == list[i].stream_id
    } by {}
    assert forall|i: int| 0 <= i < list.len() implies {
        &&& (#[trigger] counted[i]).active == list[i].active
        &&& counted[i].protocol == list[i].protocol
        &&& counted[i].stream_id == list[i].stream_id
    } by {}
}

/// Once a contributor joined it has an active session, and no other one for its protocol and stream.
pub proof fn joining_leaves_one_active(
    list: Seq<SessionView>,
    session_id: u64,
    protocol: Seq<char>,
    stream_id: u64,
    origin: OriginView,
    now_ms: u64,
)
    requires
        one_active_each(list),
    ensures
        ({
            let after = pruned(joined(list, session_id, protocol, stream_id, origin, now_ms));
            &&& one_active_each(after)
            &&& exists|i: int|
                0 <= i < after.len() && is_active_for(#[trigger] after[i], protocol, stream_id)
                    && forall|j: int|
                    0 <= j < after.len() && is_active_for(#[trigger] after[j], protocol, stream_id)
                        ==> j == i
        }),
{
    let before = joined(list, session_id, protocol, stream_id, origin, now_ms);
    let after = pruned(before);
    sessions_stay_unique(list, session_id, protocol, stream_id, origin, Seq::empty(), now_ms);
    pruning_keeps_active(before);
    active_position_is_first(list, protocol, stream_id, 0);
    let at = match active_position(list, protocol, stream_id, 0) {
        Some(at) => at,
        None => list.len() as int,
    };
    assert(is_active_for(before[at], protocol, stream_id));
    assert(actives()(before[at]));
    before.lemma_filter_contains(actives(), at);
    after.lemma_filter_contains_rev(actives(), before[at]);
    let i = choose|i: int| 0 <= i < after.len() && after[i] == before[at];
    assert(is_active_for(after[i], protocol, stream_id));
    reveal(one_active_each);
    assert forall|j: int|
        0 <= j < after.len() && is_active_for(#[trigger] after[j], protocol, stream_id) implies j
        == i by {
        if j < i {
            assert(after[j].active && after[i].active);
        } else if i < j {
            assert(after[i].active && after[j].active);
        }
    }
}

proof fn oldest_is_ended(list: Seq<SessionView>, count: nat)
    requires
        count <= list.len(),
    ensures
        match oldest_ended(list, count) {
            Some(at) => 0 <= at < count && !list[at].active && forall|i: int|
                0 <= i < count && !(#[trigger] list[i]).active ==> list[at].last_seen_unix_ms
                    <= list[i].last_seen_unix_ms,
            None => forall|i: int| 0 <= i < count ==> (#[trigger] list[i]).active,
        },
    decreases count,
{
    if count > 0 {
        oldest_is_ended(list, (count - 1) as nat);
    }
}

/// The condition under which a session counts as active.
pub open spec fn actives() -> spec_fn(SessionView) -> bool {
    |session: SessionView| session.active
}

/// Forgetting sessions never forgets an active one, and leaves too many only where all of them are
/// active.
pub proof fn pruning_keeps_active(list: Seq<SessionView>)
    ensures
        pruned(list).filter(actives()) == list.filter(actives()),
        pruned(list).len() <= CONTRIB_INGEST_SESSION_KEPT || forall|i: int|
            0 <= i < pruned(list).len() ==> (#[trigger] pruned(list)[i]).active,
        one_active_each(list) ==> one_active_each(pruned(list)),
    decreases list.len(),
{
    reveal(one_active_each);
    oldest_is_ended(list, list.len());
    if list.len() > CONTRIB_INGEST_SESSION_KEPT {
        match oldest_ended(list, list.len()) {
            Some(at) => {
                let rest = list.remove(at);
                pruning_keeps_active(rest);
                let head = list.take(at);
                let tail = list.skip(at + 1);
                assert(rest =~= head + tail);
                assert(list =~= head + (seq![list[at]] + tail));
                Seq::filter_distributes_over_add(head, tail, actives());
                Seq::filter_distributes_over_add(head, seq![list[at]] + tail, actives());
                Seq::filter_distributes_over_add(seq![list[at]], tail, actives());
                let none: Seq<SessionView> = Seq::empty();
                assert(none.push(list[at]) =~= seq![list[at]]);
                crate::seqs::filter_push(none, list[at], actives());
                crate::seqs::filter_empty(none, actives());
                assert(none + tail.filter(actives()) =~= tail.filter(actives()));
                if one_active_each(list) {
                    assert forall|i: int, j: int|
                        0 <= i < j < rest.len() && (#[trigger] rest[i]).active && (
                        #[trigger] rest[j]).active implies rest[i].protocol != rest[j].protocol
                        || rest[i].stream_id != rest[j].stream_id by {
                        let a = if i < at {
                            i
                        } else {
                            i + 1
                        };
                        let b = if j < at {
                            j
                        } else {
                            j + 1
                        };
                        assert(rest[i] == list[a] && rest[j] == list[b]);
                    }
                }
            },
            None => {},
        }
    }
}

/// How many sessions of a list ended.
pub open spec fn ended_in(list: Seq<SessionView>) -> nat
    decreases list.len(),
{
    if list.len() == 0 {
        0
    } else {
        ended_in(list.drop_last()) + (if list.last().active {
            0nat
        } else {
            1nat
        })
    }
}

/// Whether a session is in a list more often than in what is kept of it.
pub open spec fn leaves(list: Seq<SessionView>, session: SessionView) -> bool {
    list.to_multiset().count(session) > pruned(list).to_multiset().count(session)
}

/// Where all sessions are active, none ended.
proof fn none_ended(list: Seq<SessionView>)
    requires
        forall|i: int| 0 <= i < list.len() ==> (#[trigger] list[i]).active,
    ensures
        ended_in(list) == 0,
    decreases list.len(),
{
    if list.len() > 0 {
        none_ended(list.drop_last());
    }
}

/// One session that ended counts as one.
proof fn ended_without(list: Seq<SessionView>, at: int)
    requires
        0 <= at < list.len(),
        !list[at].active,
    ensures
        ended_in(list.remove(at)) + 1 == ended_in(list),
    decreases list.len(),
{
    if at == list.len() - 1 {
        assert(list.remove(at) =~= list.drop_last());
    } else {
        ended_without(list.drop_last(), at);
        assert(list.remove(at).drop_last() =~= list.drop_last().remove(at));
    }
}

/// Of too many sessions as many leave as are too many, or as ended if those are fewer; all that leave
/// ended, and none of them was seen later than one that ended and stays.
pub proof fn the_longest_ended_leave(list: Seq<SessionView>)
    ensures
        ({
            let surplus = max_int(list.len() - CONTRIB_INGEST_SESSION_KEPT, 0);
            pruned(list).len() == list.len() - min_int(surplus, ended_in(list) as int)
        }),
        pruned(list).to_multiset().subset_of(list.to_multiset()),
        forall|gone: SessionView| #[trigger] leaves(list, gone) ==> !gone.active,
        forall|gone: SessionView, stays: SessionView|
            #[trigger] leaves(list, gone) && #[trigger] pruned(list).contains(stays)
                && !stays.active ==> gone.last_seen_unix_ms <= stays.last_seen_unix_ms,
    decreases list.len(),
{
    broadcast use vstd::seq_lib::group_to_multiset_ensures;
    broadcast use vstd::multiset::group_multiset_axioms;

    if list.len() > CONTRIB_INGEST_SESSION_KEPT {
        oldest_is_ended(list, list.len());
        if oldest_ended(list, list.len()) is None {
            none_ended(list);
        }
        if let Some(at) = oldest_ended(list, list.len()) {
            let rest = list.remove(at);
            the_longest_ended_leave(rest);
            ended_without(list, at);
            assert(rest.to_multiset() =~= list.to_multiset().remove(list[at]));
            assert(list.contains(list[at]));
            assert forall|gone: SessionView| #[trigger] leaves(list, gone) implies !gone.active
                && (leaves(rest, gone) || gone == list[at]) by {
                if gone != list[at] {
                    assert(leaves(rest, gone));
                }
            }
            assert forall|gone: SessionView, stays: SessionView|
                #[trigger] leaves(list, gone) && #[trigger] pruned(list).contains(stays)
                    && !stays.active implies gone.last_seen_unix_ms
                <= stays.last_seen_unix_ms by {
                assert(pruned(rest).to_multiset().count(stays) > 0);
                assert(rest.to_multiset().count(stays) > 0);
                assert(list.contains(stays));
                let i = list.index_of(stays);
                assert(list[i] == stays);
                if gone != list[at] {
                    assert(leaves(rest, gone));
                }
            }
        }
    }
}

/// A session as it is reported.
#[derive(Debug)]
pub struct IngestSessionSnapshot {
    pub session_id: u64,
    pub protocol: &'static str,
    pub stream_id_text: String,
    pub output_stream_id_text: Option<String>,
    pub output_stream_idx: Option<usize>,
    pub peer: Option<String>,
    pub path: Option<String>,
    pub state: &'static str,
    pub started_unix_ms: u64,
    pub last_seen_unix_ms: u64,
    pub ended_unix_ms: Option<u64>,
    pub age_ms: u64,
    pub body_slots: u64,
    pub bytes: u64,
    pub access_units: u64,
    pub end_reason: Option<&'static str>,
}

/// What an [`IngestSessionSnapshot`] holds.
pub struct SessionSnapshotView {
    pub session_id: u64,
    pub protocol: Seq<char>,
    pub stream_id_text: Seq<char>,
    pub output_stream_id_text: Option<Seq<char>>,
    pub output_stream_idx: Option<usize>,
    pub peer: Option<Seq<char>>,
    pub path: Option<Seq<char>>,
    pub state: Seq<char>,
    pub started_unix_ms: u64,
    pub last_seen_unix_ms: u64,
    pub ended_unix_ms: Option<u64>,
    pub age_ms: u64,
    pub body_slots: u64,
    pub bytes: u64,
    pub access_units: u64,
    pub end_reason: Option<Seq<char>>,
}

impl View for IngestSessionSnapshot {
    type V = SessionSnapshotView;

    open spec fn view(&self) -> SessionSnapshotView {
        SessionSnapshotView {
            session_id: self.session_id,
            protocol: self.protocol@,
            stream_id_text: self.stream_id_text@,
            output_stream_id_text: text_view(self.output_stream_id_text),
            output_stream_idx: self.output_stream_idx,
            peer: text_view(self.peer),
            path: text_view(self.path),
            state: self.state@,
            started_unix_ms: self.started_unix_ms,
            last_seen_unix_ms: self.last_seen_unix_ms,
            ended_unix_ms: self.ended_unix_ms,
            age_ms: self.age_ms,
            body_slots: self.body_slots,
            bytes: self.bytes,
            access_units: self.access_units,
            end_reason: name_view(self.end_reason),
        }
    }
}

impl SessionView {
    /// The session as it is reported.
    pub open spec fn reported(self, now_ms: u64) -> SessionSnapshotView {
        SessionSnapshotView {
            session_id: self.session_id,
            protocol: self.protocol,
            stream_id_text: decimal(self.stream_id as nat),
            output_stream_id_text: match self.output_stream_id {
                Some(id) => Some(decimal(id as nat)),
                None => None,
            },
            output_stream_idx: self.output_stream_idx,
            peer: self.peer,
            path: self.path,
            state: if self.active {
                "active"@
            } else {
                "ended"@
            },
            started_unix_ms: self.started_unix_ms,
            last_seen_unix_ms: self.last_seen_unix_ms,
            ended_unix_ms: self.ended_unix_ms,
            age_ms: minus_floor(now_ms as int, self.last_seen_unix_ms as int) as u64,
            body_slots: self.body_slots,
            bytes: self.bytes,
            access_units: self.access_units,
            end_reason: self.end_reason,
        }
    }
}

impl IngestSessionSnapshot {
    /// The report of a session.
    pub fn from_record(record: &IngestSessionRecord, now_ms: u64) -> (r: Self)
        ensures
            r@ == record@.reported(now_ms),
    {
        IngestSessionSnapshot {
            session_id: record.session_id,
            protocol: record.protocol,
            stream_id_text: decimal_text(record.stream_id),
            output_stream_id_text: match record.output_stream_id {
                Some(id) => Some(decimal_text(id)),
                None => None,
            },
            output_stream_idx: record.output_stream_idx,
            peer: copy_text(&record.peer),
            path: copy_text(&record.path),
            state: if record.active {
                "active"
            } else {
                "ended"
            },
            started_unix_ms: record.started_unix_ms,
            last_seen_unix_ms: record.last_seen_unix_ms,
            ended_unix_ms: record.ended_unix_ms,
            age_ms: now_ms.saturating_sub(record.last_seen_unix_ms),
            body_slots: record.body_slots,
            bytes: record.bytes,
            access_units: record.access_units,
            end_reason: record.end_reason,
        }
    }
}

impl Ranked for IngestSessionSnapshot {
    open spec fn goes_before(a: SessionSnapshotView, b: SessionSnapshotView) -> bool {
        if a.last_seen_unix_ms != b.last_seen_unix_ms {
            a.last_seen_unix_ms > b.last_seen_unix_ms
        } else if a.protocol != b.protocol {
            text_before(a.protocol, b.protocol)
        } else {
            text_before(a.stream_id_text, b.stream_id_text)
        }
    }

    proof fn order_is_transitive(
        a: SessionSnapshotView,
        b: SessionSnapshotView,
        c: SessionSnapshotView,
    ) {
        texts_are_ordered(a.protocol, b.protocol);
        texts_are_ordered(b.protocol, c.protocol);
        texts_are_ordered(a.protocol, c.protocol);
        if !text_before(b.protocol, a.protocol) && !text_before(c.protocol, b.protocol) {
            text_order_is_transitive(a.protocol, b.protocol, c.protocol);
        }
        if !text_before(b.stream_id_text, a.stream_id_text) && !text_before(
            c.stream_id_text,
            b.stream_id_text,
        ) {
            text_order_is_transitive(a.stream_id_text, b.stream_id_text, c.stream_id_text);
        }
    }

    proof fn order_is_one_way(a: SessionSnapshotView, b: SessionSnapshotView) {
        texts_are_ordered(a.protocol, b.protocol);
        texts_are_ordered(a.stream_id_text, b.stream_id_text);
    }

    fn is_before(&self, other: &Self) -> (r: bool) {
        if self.last_seen_unix_ms != other.last_seen_unix_ms {
            self.last_seen_unix_ms > other.last_seen_unix_ms
        } else if !text_equal(self.protocol, other.protocol) {
            is_text_before(self.protocol, other.protocol)
        } else {
            is_text_before(self.stream_id_text.as_str(), other.stream_id_text.as_str())
        }
    }
}

/// The reports of some sessions.
pub open spec fn reports(list: Seq<SessionView>, now_ms: u64) -> Seq<SessionSnapshotView> {
    list.map_values(|session: SessionView| session.reported(now_ms))
}

/// The reports of the sessions that were seen last, the last one first.
pub open spec fn recent_reports(list: Seq<SessionView>, now_ms: u64) -> Seq<SessionSnapshotView> {
    let all = crate::ranking::ranked::<IngestSessionSnapshot>(reports(list, now_ms));
    if all.len() > CONTRIB_INGEST_SESSION_LIMIT {
        all.take(CONTRIB_INGEST_SESSION_LIMIT as int)
    } else {
        all
    }
}

/// Reports the sessions that were seen last, the last one first.
pub fn recent_sessions(sessions: &Vec<IngestSessionRecord>, now_ms: u64) -> (r: Vec<
    IngestSessionSnapshot,
>)
    ensures
        crate::ranking::views(r@) == recent_reports(sessions_view(sessions@), now_ms),
{
    let ghost list = sessions_view(sessions@);
    let mut all: Vec<IngestSessionSnapshot> = Vec::new();
    let mut i: usize = 0;
    while i < sessions.len()
        invariant
            i <= sessions@.len(),
            list == sessions_view(sessions@),
            crate::ranking::views(all@) == reports(list, now_ms).take(i as int),
        decreases sessions@.len() - i,
    {
        assert(list[i as int] == sessions@[i as int]@);
        let report = IngestSessionSnapshot::from_record(&sessions[i], now_ms);
        let ghost older = crate::ranking::views(all@);
        all.push(report);
        assert(crate::ranking::views(all@) =~= older.push(report@));
        assert(reports(list, now_ms)[i as int] == report@);
        assert(crate::ranking::views(all@) =~= reports(list, now_ms).take(i + 1));
        i = i + 1;
    }
    assert(reports(list, now_ms).take(i as int) =~= reports(list, now_ms));
    let mut ordered = crate::ranking::rank(all);
    if ordered.len() > CONTRIB_INGEST_SESSION_LIMIT {
        let ghost whole = crate::ranking::views(ordered@);
        ordered.truncate(CONTRIB_INGEST_SESSION_LIMIT);
        assert(crate::ranking::views(ordered@) =~= whole.take(CONTRIB_INGEST_SESSION_LIMIT as int));
    }
    ordered
}

/// How many sessions are active.
pub open spec fn active_count(list: Seq<SessionView>) -> nat {
    list.filter(actives()).len()
}

/// Counts the active sessions.
pub fn count_active(sessions: &Vec<IngestSessionRecord>) -> (r: usize)
    ensures
        r == active_count(sessions_view(sessions@)),
{
    let ghost list = sessions_view(sessions@);
    let mut count: usize = 0;
    let mut i: usize = 0;
    proof {
        crate::seqs::filter_empty(list.take(0), actives());
    }
    while i < sessions.len()
        invariant
            i <= sessions@.len(),
            list == sessions_view(sessions@),
            count == list.take(i as int).filter(actives()).len(),
            count <= i,
        decreases sessions@.len() - i,
    {
        proof {
            assert(list[i as int] == sessions@[i as int]@);
            assert(list.take(i + 1) =~= list.take(i as int).push(list[i as int]));
            crate::seqs::filter_push(list.take(i as int), list[i as int], actives());
        }
        if sessions[i].active {
            count = count + 1;
        }
        i = i + 1;
    }
    assert(list.take(i as int) =~= list);
    count
}

/// What is read of a session is counted for it and for no other: a slot as a slot, an access unit as
/// one, each with its bytes.
pub proof fn sessions_count_what_is_read(
    list: Seq<SessionView>,
    protocol: Seq<char>,
    stream_id: u64,
    at: int,
    bytes: u64,
    now_ms: u64,
)
    requires
        0 <= at < list.len(),
        list[at].active && list[at].protocol == protocol && list[at].stream_id == stream_id,
        one_active_each(list),
    ensures
        ({
            let fed = with_body(list, protocol, stream_id, bytes, now_ms);
            let counted = with_access_unit(list, protocol, stream_id, bytes, now_ms);
            let before = list[at];
            &&& fed.len() == list.len() && counted.len() == list.len()
            &&& forall|i: int|
                0 <= i < list.len() && i != at ==> #[trigger] fed[i] == list[i] && counted[i]
                    == list[i]
            &&& fed[at] == SessionView {
                last_seen_unix_ms: now_ms,
                body_slots: fed[at].body_slots,
                bytes: fed[at].bytes,
                ..before
            }
            &&& before.body_slots < u64::MAX ==> fed[at].body_slots == before.body_slots + 1
            &&& before.bytes + bytes <= u64::MAX ==> fed[at].bytes == before.bytes + bytes
            &&& counted[at] == SessionView {
                last_seen_unix_ms: now_ms,
                access_units: counted[at].access_units,
                bytes: counted[at].bytes,
                ..before
            }
            &&& before.access_units < u64::MAX ==> counted[at].access_units == before.access_units
                + 1
            &&& before.bytes + bytes <= u64::MAX ==> counted[at].bytes == before.bytes + bytes
        }),
{
    the_active_one_is_found(list, protocol, stream_id, at);
}

proof fn the_active_one_is_found(
    list: Seq<SessionView>,
    protocol: Seq<char>,
    stream_id: u64,
    at: int,
)
    requires
        0 <= at < list.len(),
        list[at].active && list[at].protocol == protocol && list[at].stream_id == stream_id,
        one_active_each(list),
    ensures
        active_position(list, protocol, stream_id, 0) == Some(at),
{
    reveal(one_active_each);
    active_position_is_first(list, protocol, stream_id, 0);
    assert(is_active_for(list[at], protocol, stream_id));
    let found = active_position(list, protocol, stream_id, 0)->Some_0;
    if found < at {
        assert(list[found].active && list[at].active);
    } else if at < found {
        assert(list[at].active && list[found].active);
    }
}

/// A session that ends keeps what was counted of it, and when and why it ended; no other session does.
pub proof fn a_session_ends_once(
    list: Seq<SessionView>,
    protocol: Seq<char>,
    stream_id: u64,
    at: int,
    reason: Seq<char>,
    now_ms: u64,
)
    requires
        0 <= at < list.len(),
        list[at].active && list[at].protocol == protocol && list[at].stream_id == stream_id,
        one_active_each(list),
    ensures
        ({
            let after = left(list, protocol, stream_id, reason, now_ms);
            &&& after.len() == list.len()
            &&& forall|i: int| 0 <= i < list.len() && i != at ==> #[trigger] after[i] == list[i]
            &&& !after[at].active
            &&& after[at].ended_unix_ms == Some(now_ms)
            &&& after[at].last_seen_unix_ms == now_ms
            &&& after[at].end_reason == Some(reason)
            &&& after[at].body_slots == list[at].body_slots
            &&& after[at].bytes == list[at].bytes
            &&& after[at].access_units == list[at].access_units
            &&& after[at].session_id == list[at].session_id
            &&& after[at].started_unix_ms == list[at].started_unix_ms
            &&& left(after, protocol, stream_id, reason, now_ms) == after
        }),
{
    the_active_one_is_found(list, protocol, stream_id, at);
    let after = left(list, protocol, stream_id, reason, now_ms);
    reveal(one_active_each);
    active_position_is_first(after, protocol, stream_id, 0);
    if active_position(after, protocol, stream_id, 0) is Some {
        let again = active_position(after, protocol, stream_id, 0)->Some_0;
        assert(again != at);
        assert(after[again] == list[again]);
        if again < at {
            assert(list[again].active && list[at].active);
        } else {
            assert(list[at].active && list[again].active);
        }
    }
}

/// A contributor that has a session keeps it, with what is newly known of it; one that has none gets one
/// that starts now, with nothing counted.
pub proof fn a_contributor_has_a_session(
    list: Seq<SessionView>,
    session_id: u64,
    protocol: Seq<char>,
    stream_id: u64,
    origin: OriginView,
    now_ms: u64,
)
    requires
        one_active_each(list),
    ensures
        ({
            let after = joined(list, session_id, protocol, stream_id, origin, now_ms);
            let had = exists|i: int|
                0 <= i < list.len() && (#[trigger] list[i]).active && list[i].protocol == protocol
                    && list[i].stream_id == stream_id;
            let newer = |known: Option<Seq<char>>, before: Option<Seq<char>>|
                if known is Some {
                    known
                } else {
                    before
                };
            &&& after.len() == list.len() + (if had {
                0int
            } else {
                1
            })
            &&& !had ==> {
                let new = after.last();
                &&& after.drop_last() == list
                &&& new.session_id == session_id
                &&& new.protocol == protocol && new.stream_id == stream_id
                &&& new.active && new.ended_unix_ms is None && new.end_reason is None
                &&& new.started_unix_ms == now_ms && new.last_seen_unix_ms == now_ms
                &&& new.body_slots == 0 && new.bytes == 0 && new.access_units == 0
                &&& new.peer == origin.peer && new.path == origin.path
                &&& new.output_stream_id == origin.output_stream_id
                &&& new.output_stream_idx == origin.output_stream_idx
            }
            &&& forall|i: int|
                0 <= i < list.len() ==> if (#[trigger] list[i]).active && list[i].protocol
                    == protocol && list[i].stream_id == stream_id {
                    &&& after[i].last_seen_unix_ms == now_ms
                    &&& after[i].peer == newer(origin.peer, list[i].peer)
                    &&& after[i].path == newer(origin.path, list[i].path)
                    &&& after[i].output_stream_id == (if origin.output_stream_id is Some {
                        origin.output_stream_id
                    } else {
                        list[i].output_stream_id
                    })
                    &&& after[i].output_stream_idx == (if origin.output_stream_idx is Some {
                        origin.output_stream_idx
                    } else {
                        list[i].output_stream_idx
                    })
                    &&& after[i].session_id == list[i].session_id
                    &&& after[i].active && after[i].started_unix_ms == list[i].started_unix_ms
                    &&& after[i].bytes == list[i].bytes && after[i].body_slots
                        == list[i].body_slots && after[i].access_units == list[i].access_units
                } else {
                    after[i] == list[i]
                }
        }),
{
    let after = joined(list, session_id, protocol, stream_id, origin, now_ms);
    active_position_is_first(list, protocol, stream_id, 0);
    match active_position(list, protocol, stream_id, 0) {
        Some(at) => {
            assert(list[at].active && list[at].protocol == protocol && list[at].stream_id
                == stream_id);
            assert forall|i: int|
                0 <= i < list.len() && (#[trigger] list[i]).active && list[i].protocol == protocol
                    && list[i].stream_id == stream_id implies i == at by {
                the_active_one_is_found(list, protocol, stream_id, i);
            }
        },
        None => {
            assert forall|i: int| 0 <= i < list.len() implies !((#[trigger] list[i]).active
                && list[i].protocol == protocol && list[i].stream_id == stream_id) by {
                assert(!is_active_for(list[i], protocol, stream_id));
            }
            assert(after.drop_last() =~= list);
        },
    }
}

/// A session is reported as it is: with what was counted of it, as active or ended, and with how long
/// ago it was seen.
pub proof fn sessions_are_reported_as_they_are(session: SessionView, now_ms: u64)
    ensures
        ({
            let report = session.reported(now_ms);
            &&& report.session_id == session.session_id
            &&& report.protocol == session.protocol
            &&& report.stream_id_text == decimal(session.stream_id as nat)
            &&& report.peer == session.peer && report.path == session.path
            &&& report.output_stream_idx == session.output_stream_idx
            &&& session.output_stream_id is Some ==> report.output_stream_id_text == Some(
                decimal(session.output_stream_id->Some_0 as nat),
            )
            &&& session.output_stream_id is None ==> report.output_stream_id_text is None
            &&& report.state == "active"@ <==> session.active
            &&& report.state == "ended"@ <==> !session.active
            &&& report.body_slots == session.body_slots
            &&& report.bytes == session.bytes
            &&& report.access_units == session.access_units
            &&& report.started_unix_ms == session.started_unix_ms
            &&& report.last_seen_unix_ms == session.last_seen_unix_ms
            &&& report.ended_unix_ms == session.ended_unix_ms
            &&& report.end_reason == session.end_reason
            &&& session.last_seen_unix_ms <= now_ms ==> report.age_ms + session.last_seen_unix_ms
                == now_ms
        }),
{
    reveal_strlit("active");
    reveal_strlit("ended");
    assert("active"@.len() == 6 && "ended"@.len() == 5);
}

} // verus!
