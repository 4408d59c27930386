//! Alerts, activity and responses that the service remembers.
use crate::arith::cap_u64;
use crate::text::text_equal;
use std::collections::VecDeque;
use vstd::prelude::*;
use vstd::string::*;

verus! {

/// Entries of recent activity that are kept.
pub const CONTRIB_ACTIVITY_LIMIT: usize = 64;

/// Responses that are kept.
pub const CONTRIB_HLS_RESPONSE_LIMIT: usize = 32;

/// Alerts that are kept.
pub const CONTRIB_ALERT_LIMIT: usize = 32;

/// What a text that may be missing spells.
pub open spec fn text_view(text: Option<String>) -> Option<Seq<char>> {
    match text {
        Some(text) => Some(text@),
        None => None,
    }
}

/// What a name that may be missing spells.
pub open spec fn name_view(name: Option<&'static str>) -> Option<Seq<char>> {
    match name {
        Some(name) => Some(name@),
        None => None,
    }
}

/// Copies a text that may be missing.
pub fn copy_text(text: &Option<String>) -> (r: Option<String>)
    ensures
        text_view(r) == text_view(*text),
{
    match text {
        Some(text) => Some(text.clone()),
        None => None,
    }
}

/// Something that needs attention.
#[derive(Debug)]
pub struct ContribAlert {
    pub level: &'static str,
    pub code: &'static str,
    pub message: String,
    pub count: u64,
    pub last_seen_unix_ms: Option<u64>,
    pub stream_id_text: Option<String>,
    pub protocol: Option<&'static str>,
}

/// What a [`ContribAlert`] holds.
pub struct AlertView {
    pub level: Seq<char>,
    pub code: Seq<char>,
    pub message: Seq<char>,
    pub count: u64,
    pub last_seen_unix_ms: Option<u64>,
    pub stream_id_text: Option<Seq<char>>,
    pub protocol: Option<Seq<char>>,
}

impl View for ContribAlert {
    type V = AlertView;

    open spec fn view(&self) -> AlertView {
        AlertView {
            level: self.level@,
            code: self.code@,
            message: self.message@,
            count: self.count,
            last_seen_unix_ms: self.last_seen_unix_ms,
            stream_id_text: text_view(self.stream_id_text),
            protocol: name_view(self.protocol),
        }
    }
}

impl ContribAlert {
    /// Copies an alert.
    pub fn copy(&self) -> (r: Self)
        ensures
            r@ == self@,
    {
        ContribAlert {
            level: self.level,
            code: self.code,
            message: self.message.clone(),
            count: self.count,
            last_seen_unix_ms: self.last_seen_unix_ms,
            stream_id_text: copy_text(&self.stream_id_text),
            protocol: self.protocol,
        }
    }
}

/// Something that happened.
#[derive(Debug)]
pub struct ContribActivity {
    pub level: &'static str,
    pub code: &'static str,
    pub message: String,
    pub stream_id_text: Option<String>,
    pub bytes: Option<u64>,
    pub datagrams: Option<u64>,
    pub sequence: Option<u64>,
    pub seen_unix_ms: u64,
}

/// What a [`ContribActivity`] holds.
pub struct ActivityView {
    pub level: Seq<char>,
    pub code: Seq<char>,
    pub message: Seq<char>,
    pub stream_id_text: Option<Seq<char>>,
    pub bytes: Option<u64>,
    pub datagrams: Option<u64>,
    pub sequence: Option<u64>,
    pub seen_unix_ms: u64,
}

impl View for ContribActivity {
    type V = ActivityView;

    open spec fn view(&self) -> ActivityView {
        ActivityView {
            level: self.level@,
            code: self.code@,
            message: self.message@,
            stream_id_text: text_view(self.stream_id_text),
            bytes: self.bytes,
            datagrams: self.datagrams,
            sequence: self.sequence,
            seen_unix_ms: self.seen_unix_ms,
        }
    }
}

impl ContribActivity {
    /// Copies an entry.
    pub fn copy(&self) -> (r: Self)
        ensures
            r@ == self@,
    {
        ContribActivity {
            level: self.level,
            code: self.code,
            message: self.message.clone(),
            stream_id_text: copy_text(&self.stream_id_text),
            bytes: self.bytes,
            datagrams: self.datagrams,
            sequence: self.sequence,
            seen_unix_ms: self.seen_unix_ms,
        }
    }
}

/// An answer to a playlist or media request.
#[derive(Debug)]
pub struct ContribHlsResponse {
    pub unix_ms: u64,
    pub method: String,
    pub path: String,
    pub query: Option<String>,
    pub status: u16,
    pub bytes: u64,
    pub content_type: Option<String>,
}

/// What a [`ContribHlsResponse`] holds.
pub struct HlsResponseView {
    pub unix_ms: u64,
    pub method: Seq<char>,
    pub path: Seq<char>,
    pub query: Option<Seq<char>>,
    pub status: u16,
    pub bytes: u64,
    pub content_type: Option<Seq<char>>,
}

impl View for ContribHlsResponse {
    type V = HlsResponseView;

    open spec fn view(&self) -> HlsResponseView {
        HlsResponseView {
            unix_ms: self.unix_ms,
            method: self.method@,
            path: self.path@,
            query: text_view(self.query),
            status: self.status,
            bytes: self.bytes,
            content_type: text_view(self.content_type),
        }
    }
}

impl ContribHlsResponse {
    /// Copies an answer.
    pub fn copy(&self) -> (r: Self)
        ensures
            r@ == self@,
    {
        ContribHlsResponse {
            unix_ms: self.unix_ms,
            method: self.method.clone(),
            path: self.path.clone(),
            query: copy_text(&self.query),
            status: self.status,
            bytes: self.bytes,
            content_type: copy_text(&self.content_type),
        }
    }
}

/// A list with one more entry in front, cut to a limit at its end.
pub open spec fn remembered<A>(list: Seq<A>, entry: A, limit: nat) -> Seq<A> {
    let longer = seq![entry] + list;
    if longer.len() > limit {
        longer.take(limit as int)
    } else {
        longer
    }
}

/// What a list of alerts holds.
pub open spec fn alerts_view(list: Seq<ContribAlert>) -> Seq<AlertView> {
    list.map_values(|entry: ContribAlert| entry@)
}

/// What a list of activity holds.
pub open spec fn activity_view(list: Seq<ContribActivity>) -> Seq<ActivityView> {
    list.map_values(|entry: ContribActivity| entry@)
}

/// What a list of answers holds.
pub open spec fn responses_view(list: Seq<ContribHlsResponse>) -> Seq<HlsResponseView> {
    list.map_values(|entry: ContribHlsResponse| entry@)
}

/// Where an alert of a code and message stands in a list, counted from `from`.
pub open spec fn alert_position(
    list: Seq<AlertView>,
    code: Seq<char>,
    message: Seq<char>,
    from: int,
) -> Option<int>
    decreases list.len() - from,
{
    if from < 0 || from >= list.len() {
        None
    } else if list[from].code == code && list[from].message == message {
        Some(from)
    } else {
        alert_position(list, code, message, from + 1)
    }
}

/// The alerts with one more: an alert that is there already counts on, another one goes in front.
pub open spec fn alerted(list: Seq<AlertView>, alert: AlertView) -> Seq<AlertView> {
    match alert_position(list, alert.code, alert.message, 0) {
        Some(at) => list.update(
            at,
            AlertView {
                count: cap_u64(list[at].count + 1) as u64,
                last_seen_unix_ms: alert.last_seen_unix_ms,
                ..list[at]
            },
        ),
        None => remembered(list, alert, CONTRIB_ALERT_LIMIT as nat),
    }
}

/// Remembers an activity, and forgets the oldest where there are too many.
pub fn push_activity(recent: &mut VecDeque<ContribActivity>, activity: ContribActivity)
    requires
        old(recent)@.len() <= CONTRIB_ACTIVITY_LIMIT,
    ensures
        activity_view(final(recent)@) == remembered(
            activity_view(old(recent)@),
            activity@,
            CONTRIB_ACTIVITY_LIMIT as nat,
        ),
        final(recent)@.len() <= CONTRIB_ACTIVITY_LIMIT,
{
    recent.push_front(activity);
    let ghost longer = seq![activity@] + activity_view(old(recent)@);
    assert(activity_view(recent@) =~= longer);
    if recent.len() > CONTRIB_ACTIVITY_LIMIT {
        let _ = recent.pop_back();
        assert(activity_view(recent@) =~= longer.take(CONTRIB_ACTIVITY_LIMIT as int));
    }
}

/// Remembers an answer, and forgets the oldest where there are too many.
pub fn push_response(recent: &mut VecDeque<ContribHlsResponse>, response: ContribHlsResponse)
    requires
        old(recent)@.len() <= CONTRIB_HLS_RESPONSE_LIMIT,
    ensures
        responses_view(final(recent)@) == remembered(
            responses_view(old(recent)@),
            response@,
            CONTRIB_HLS_RESPONSE_LIMIT as nat,
        ),
        final(recent)@.len() <= CONTRIB_HLS_RESPONSE_LIMIT,
{
    recent.push_front(response);
    let ghost longer = seq![response@] + responses_view(old(recent)@);
    assert(responses_view(recent@) =~= longer);
    if recent.len() > CONTRIB_HLS_RESPONSE_LIMIT {
        let _ = recent.pop_back();
        assert(responses_view(recent@) =~= longer.take(CONTRIB_HLS_RESPONSE_LIMIT as int));
    }
}

/// Remembers an alert: one that is there already counts on, another one goes in front.
pub fn push_alert(alerts: &mut VecDeque<ContribAlert>, alert: ContribAlert)
    requires
        old(alerts)@.len() <= CONTRIB_ALERT_LIMIT,
    ensures
        alerts_view(final(alerts)@) == alerted(alerts_view(old(alerts)@), alert@),
        final(alerts)@.len() <= CONTRIB_ALERT_LIMIT,
{
    let ghost before = alerts_view(alerts@);
    let mut i: usize = 0;
    while i < alerts.len()
        invariant
            i <= alerts@.len(),
            *alerts == *old(alerts),
            before == alerts_view(alerts@),
            alerts@.len() <= CONTRIB_ALERT_LIMIT,
            alert_position(before, alert@.code, alert@.message, 0) == alert_position(
                before,
                alert@.code,
                alert@.message,
                i as int,
            ),
        decreases alerts@.len() - i,
    {
        assert(before[i as int] == alerts@[i as int]@);
        if text_equal(alerts[i].code, alert.code) && text_equal(
            alerts[i].message.as_str(),
            alert.message.as_str(),
        ) {
            let ghost target = before.update(
                i as int,
                AlertView {
                    count: cap_u64(before[i as int].count + 1) as u64,
                    last_seen_unix_ms: alert.last_seen_unix_ms,
                    ..before[i as int]
                },
            );
            let mut rest = alerts.split_off(i);
            match rest.pop_front() {
                Some(mut existing) => {
                    existing.count = existing.count.saturating_add(1);
                    existing.last_seen_unix_ms = alert.last_seen_unix_ms;
                    alerts.push_back(existing);
                },
                None => {},
            }
            alerts.append(&mut rest);
            assert(alerts_view(alerts@) =~= target);
            return;
        }
        i = i + 1;
    }
    alerts.push_front(alert);
    let ghost longer = seq![alert@] + before;
    assert(alerts_view(alerts@) =~= longer);
    if alerts.len() > CONTRIB_ALERT_LIMIT {
        let _ = alerts.pop_back();
        assert(alerts_view(alerts@) =~= longer.take(CONTRIB_ALERT_LIMIT as int));
    }
}

/// The newest entry comes first and the list never exceeds its limit.
pub proof fn the_newest_is_remembered(list: Seq<ActivityView>, entry: ActivityView, limit: nat)
    requires
        limit > 0,
    ensures
        remembered(list, entry, limit)[0] == entry,
        remembered(list, entry, limit).len() <= limit,
        forall|i: int|
            1 <= i < remembered(list, entry, limit).len() ==> remembered(list, entry, limit)[i]
                == list[i - 1],
{
}

/// No two alerts of the same code and message are ever kept.
pub open spec fn alerts_differ(list: Seq<AlertView>) -> bool {
    forall|i: int, j: int|
        0 <= i < j < list.len() ==> list[i].code != list[j].code || list[i].message
            != list[j].message
}

/// Repeating an alert counts it instead of listing it twice.
pub proof fn repeated_alerts_are_merged(list: Seq<AlertView>, alert: AlertView)
    requires
        alerts_differ(list),
    ensures
        alerts_differ(alerted(list, alert)),
{
    alert_position_is_first(list, alert.code, alert.message, 0);
    let after = alerted(list, alert);
    match alert_position(list, alert.code, alert.message, 0) {
        Some(at) => {
            assert forall|i: int, j: int| 0 <= i < j < after.len() implies after[i].code
                != after[j].code || after[i].message != after[j].message by {
                assert(after[i].code == list[i].code && after[i].message == list[i].message);
                assert(after[j].code == list[j].code && after[j].message == list[j].message);
            }
        },
        None => {
            assert forall|i: int, j: int| 0 <= i < j < after.len() implies after[i].code
                != after[j].code || after[i].message != after[j].message by {
                assert(after[j] == list[j - 1]);
                if i > 0 {
                    assert(after[i] == list[i - 1]);
                }
            }
        },
    }
}

proof fn alert_position_is_first(list: Seq<AlertView>, code: Seq<char>, message: Seq<char>, from: int)
    requires
        0 <= from,
    ensures
        match alert_position(list, code, message, from) {
            Some(at) => from <= at < list.len() && list[at].code == code && list[at].message
                == message,
            None => forall|i: int|
                from <= i < list.len() ==> (#[trigger] list[i]).code != code || list[i].message
                    != message,
        },
    decreases list.len() - from,
{
    if from < list.len() {
        alert_position_is_first(list, code, message, from + 1);
    }
}

/// A list grows by an entry while there is room, and where there is none it forgets its oldest alone.
pub proof fn only_the_oldest_is_forgotten<A>(list: Seq<A>, entry: A, limit: nat)
    requires
        0 < limit,
        list.len() <= limit,
    ensures
        remembered(list, entry, limit).len() == (if list.len() < limit {
            list.len() + 1
        } else {
            limit
        }),
        remembered(list, entry, limit)[0] == entry,
        forall|i: int|
            0 <= i < list.len() && i + 1 < limit ==> #[trigger] list[i] == remembered(
                list,
                entry,
                limit,
            )[i + 1],
{
}

/// An alert that is told again counts one more, was last seen then and else stays as it was, as do
/// the others; one that was not told before stands in front.
pub proof fn alerts_are_counted(list: Seq<AlertView>, alert: AlertView, at: int)
    requires
        alerts_differ(list),
        list.len() <= CONTRIB_ALERT_LIMIT,
    ensures
        ({
            let after = alerted(list, alert);
            &&& 0 <= at < list.len() && list[at].code == alert.code && list[at].message
                == alert.message ==> {
                &&& after.len() == list.len()
                &&& after[at].count == (if list[at].count < u64::MAX {
                    list[at].count + 1
                } else {
                    u64::MAX as int
                })
                &&& after[at].last_seen_unix_ms == alert.last_seen_unix_ms
                &&& after[at].code == alert.code
                &&& after[at].message == alert.message
                &&& after[at].level == list[at].level
                &&& after[at].stream_id_text == list[at].stream_id_text
                &&& after[at].protocol == list[at].protocol
                &&& forall|i: int|
                    0 <= i < list.len() && i != at ==> #[trigger] after[i] == list[i]
            }
            &&& (forall|i: int|
                0 <= i < list.len() ==> (#[trigger] list[i]).code != alert.code || list[i].message
                    != alert.message) ==> {
                &&& after.len() == (if list.len() < CONTRIB_ALERT_LIMIT {
                    list.len() + 1
                } else {
                    CONTRIB_ALERT_LIMIT as nat
                })
                &&& after[0] == alert
                &&& forall|i: int| 1 <= i < after.len() ==> #[trigger] after[i] == list[i - 1]
            }
        }),
{
    alert_position_is_first(list, alert.code, alert.message, 0);
}

} // verus!
