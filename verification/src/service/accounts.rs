//! What is promised of everything that is counted: each event reaches the report, and nothing else
//! does.
use crate::arith::{cap_u64, what_fits_is_kept};
use crate::service::counters::{Counters, MeshHistogramsView, RelayHistogramsView};
use crate::service::events::HlsResponseView;
use crate::service::health::{failures_degrade, health_of, HlsStatus};
use crate::service::histogram::HistogramView;
use crate::service::lanes::{MediaDatagramRole, RelayCarrierPath, RelayPipelineStage};
use crate::service::runtime::{Fmp4View, RelayView, RuntimeView};
use crate::service::sessions::{active_position_is_first, is_active_for, OriginView};
use crate::service::streams::{
    protocol_position, stream_position, stream_record, streams_are_kept_apart, with_protocol,
    ContribStreamRuntimeRecord, ProtocolView,
};
use crate::service::telemetry::TelemetryView;
use crate::text::decimal;
use vstd::prelude::*;

verus! {

/// Whether a counter went up by so much, where it could.
pub open spec fn went_up(before: u64, after: u64, by: int) -> bool {
    before + by <= u64::MAX ==> after == before + by
}

/// Whether a time and an age tell of one moment.
pub open spec fn tell_of(time: Option<u64>, age: Option<u64>, at_ms: u64, now_ms: u64) -> bool {
    0 < at_ms <= now_ms ==> time == Some(at_ms) && age == Some((now_ms - at_ms) as u64)
}

/// Whether the newest activity is a given one.
pub open spec fn newest_is(
    view: TelemetryView,
    code: Seq<char>,
    stream_id: Option<u64>,
    bytes: Option<u64>,
    at_ms: u64,
) -> bool {
    &&& view.activity.len() > 0
    &&& view.activity[0].code == code
    &&& view.activity[0].bytes == bytes
    &&& view.activity[0].seen_unix_ms == at_ms
    &&& view.activity[0].stream_id_text == match stream_id {
        Some(stream_id) => Some(decimal(stream_id as nat)),
        None => None,
    }
}

/// Whether only the first three of a kind of event and every so manyth are noted.
pub open spec fn noted_now_and_then(
    before: TelemetryView,
    after: TelemetryView,
    count: u64,
    interval: u64,
    code: Seq<char>,
    stream_id: Option<u64>,
    bytes: Option<u64>,
    at_ms: u64,
) -> bool {
    if count <= 3 || count % interval == 0 {
        newest_is(after, code, stream_id, bytes, at_ms)
    } else {
        after.activity == before.activity
    }
}

/// Whether a stream's input grew by one unit.
pub open spec fn input_grew(
    before: TelemetryView,
    after: TelemetryView,
    stream_id: u64,
    bytes: u64,
    at_ms: u64,
) -> bool {
    let old_record = stream_record(before.streams, stream_id);
    let new_record = stream_record(after.streams, stream_id);
    &&& went_up(old_record.input_units, new_record.input_units, 1)
    &&& went_up(old_record.input_bytes, new_record.input_bytes, bytes as int)
    &&& new_record.last_input_unix_ms == Some(at_ms)
    &&& new_record == ContribStreamRuntimeRecord {
        input_units: new_record.input_units,
        input_bytes: new_record.input_bytes,
        last_input_unix_ms: new_record.last_input_unix_ms,
        ..old_record
    }
}

/// Whether nothing changed for the other streams.
pub open spec fn other_streams_stay(
    before: TelemetryView,
    after: TelemetryView,
    stream_id: u64,
) -> bool {
    forall|other: u64|
        other != stream_id ==> #[trigger] stream_record(after.streams, other) == stream_record(
            before.streams,
            other,
        )
}

proof fn streams_stay_apart(before: TelemetryView, record: ContribStreamRuntimeRecord)
    ensures
        stream_record(before.with_stream(record).streams, record.stream_id) == record,
        other_streams_stay(before, before.with_stream(record), record.stream_id),
{
    streams_are_kept_apart(before.streams, record, record.stream_id);
    assert forall|other: u64| other != record.stream_id implies #[trigger] stream_record(
        before.with_stream(record).streams,
        other,
    ) == stream_record(before.streams, other) by {
        streams_are_kept_apart(before.streams, record, other);
    }
}

proof fn records_know_their_stream(list: Seq<ContribStreamRuntimeRecord>, stream_id: u64, from: int)
    requires
        0 <= from,
    ensures
        stream_position(list, stream_id, from) matches Some(at)
            ==> from <= at < list.len() && list[at].stream_id == stream_id,
    decreases list.len() - from,
{
    if from < list.len() {
        records_know_their_stream(list, stream_id, from + 1);
    }
}

/// A record that is read of a stream is that stream's.
proof fn a_record_is_of_its_stream(list: Seq<ContribStreamRuntimeRecord>, stream_id: u64)
    ensures
        stream_record(list, stream_id).stream_id == stream_id,
{
    records_know_their_stream(list, stream_id, 0);
}

proof fn input_is_counted(before: TelemetryView, stream_id: u64, bytes: u64, at_ms: u64)
    ensures
        input_grew(
            before,
            before.with_input(stream_id, bytes, at_ms),
            stream_id,
            bytes,
            at_ms,
        ),
        other_streams_stay(before, before.with_input(stream_id, bytes, at_ms), stream_id),
{
    let record = stream_record(before.streams, stream_id);
    a_record_is_of_its_stream(before.streams, stream_id);
    streams_stay_apart(
        before,
        stream_record(before.with_input(stream_id, bytes, at_ms).streams, stream_id),
    );
    let written = ContribStreamRuntimeRecord {
        input_units: cap_u64(record.input_units + 1) as u64,
        input_bytes: cap_u64(record.input_bytes + bytes) as u64,
        last_input_unix_ms: Some(at_ms),
        ..record
    };
    streams_stay_apart(before, written);
}

/// A request with raw bytes is counted with its chunks, bytes and datagrams, for its stream too, and
/// changes nothing else that is reported.
pub proof fn raw_requests_are_reported(
    view: TelemetryView,
    stream_id: u64,
    chunks: u64,
    bytes: u64,
    datagrams: u64,
    at_ms: u64,
    now_ms: u64,
)
    ensures
        ({
            let after_view = view.raw_http(stream_id, chunks, bytes, datagrams, at_ms);
            let before = view.report(now_ms);
            let after = after_view.report(now_ms);
            &&& after == RuntimeView { raw_http: after.raw_http, streams: after.streams, ..before }
            &&& went_up(before.raw_http.requests, after.raw_http.requests, 1)
            &&& went_up(before.raw_http.chunks, after.raw_http.chunks, chunks as int)
            &&& went_up(before.raw_http.bytes, after.raw_http.bytes, bytes as int)
            &&& went_up(before.raw_http.datagrams, after.raw_http.datagrams, datagrams as int)
            &&& tell_of(
                after.raw_http.last_seen_unix_ms,
                after.raw_http.last_seen_age_ms,
                at_ms,
                now_ms,
            )
            &&& input_grew(view, after_view, stream_id, bytes, at_ms)
            &&& other_streams_stay(view, after_view, stream_id)
            &&& newest_is(
                after_view,
                "raw_http_ingest"@,
                Some(stream_id),
                Some(bytes),
                at_ms,
            )
            &&& after_view.alerts == view.alerts
        }),
{
    what_fits_is_kept();
    input_is_counted(view, stream_id, bytes, at_ms);
}

/// A request with a media access unit is counted with its payload and datagrams, for its stream too,
/// and changes nothing else that is reported.
pub proof fn media_requests_are_reported(
    view: TelemetryView,
    stream_id: u64,
    payload_bytes: u64,
    datagrams: u64,
    at_ms: u64,
    now_ms: u64,
)
    ensures
        ({
            let after_view = view.media_access_unit(stream_id, payload_bytes, datagrams, at_ms);
            let before = view.report(now_ms);
            let after = after_view.report(now_ms);
            let media = after.media_access_units;
            &&& after == RuntimeView {
                media_access_units: after.media_access_units,
                streams: after.streams,
                ..before
            }
            &&& went_up(before.media_access_units.requests, media.requests, 1)
            &&& went_up(
                before.media_access_units.payload_bytes,
                media.payload_bytes,
                payload_bytes as int,
            )
            &&& went_up(before.media_access_units.datagrams, media.datagrams, datagrams as int)
            &&& tell_of(media.last_seen_unix_ms, media.last_seen_age_ms, at_ms, now_ms)
            &&& input_grew(view, after_view, stream_id, payload_bytes, at_ms)
            &&& other_streams_stay(view, after_view, stream_id)
            &&& noted_now_and_then(
                view,
                after_view,
                media.requests,
                100,
                "media_access_unit"@,
                Some(stream_id),
                Some(payload_bytes),
                at_ms,
            )
            &&& after_view.alerts == view.alerts
        }),
{
    what_fits_is_kept();
    input_is_counted(view, stream_id, payload_bytes, at_ms);
}

/// A payload that was forwarded is counted as media where it is media and as a stream's otherwise,
/// with its bytes and datagrams, for its stream too, and changes nothing else that is reported.
pub proof fn forwarded_payloads_are_reported(
    view: TelemetryView,
    kind: Seq<char>,
    stream_id: u64,
    target: Seq<char>,
    payload_bytes: u64,
    datagrams: u64,
    datagram_bytes: u64,
    at_ms: u64,
    now_ms: u64,
)
    ensures
        ({
            let after_view = view.mesh_forwarded(
                kind,
                stream_id,
                target,
                payload_bytes,
                datagrams,
                datagram_bytes,
                at_ms,
            );
            let before = view.report(now_ms).mesh_forward;
            let after = after_view.report(now_ms).mesh_forward;
            let old_record = stream_record(view.streams, stream_id);
            let new_record = stream_record(after_view.streams, stream_id);
            &&& after_view.report(now_ms) == RuntimeView {
                mesh_forward: after,
                streams: after_view.report(now_ms).streams,
                ..view.report(now_ms)
            }
            &&& kind == "media"@ ==> {
                &&& went_up(before.media_payloads, after.media_payloads, 1)
                &&& went_up(
                    before.media_payload_bytes,
                    after.media_payload_bytes,
                    payload_bytes as int,
                )
                &&& went_up(before.media_datagrams, after.media_datagrams, datagrams as int)
                &&& went_up(
                    before.media_datagram_bytes,
                    after.media_datagram_bytes,
                    datagram_bytes as int,
                )
                &&& tell_of(after.media_last_unix_ms, after.media_last_age_ms, at_ms, now_ms)
                &&& after.stream_payloads == before.stream_payloads
                &&& after.stream_payload_bytes == before.stream_payload_bytes
                &&& after.stream_datagrams == before.stream_datagrams
                &&& after.stream_datagram_bytes == before.stream_datagram_bytes
                &&& after.stream_last_unix_ms == before.stream_last_unix_ms
            }
            &&& kind != "media"@ ==> {
                &&& went_up(before.stream_payloads, after.stream_payloads, 1)
                &&& went_up(
                    before.stream_payload_bytes,
                    after.stream_payload_bytes,
                    payload_bytes as int,
                )
                &&& went_up(before.stream_datagrams, after.stream_datagrams, datagrams as int)
                &&& went_up(
                    before.stream_datagram_bytes,
                    after.stream_datagram_bytes,
                    datagram_bytes as int,
                )
                &&& tell_of(after.stream_last_unix_ms, after.stream_last_age_ms, at_ms, now_ms)
                &&& after.media_payloads == before.media_payloads
                &&& after.media_payload_bytes == before.media_payload_bytes
                &&& after.media_datagrams == before.media_datagrams
                &&& after.media_datagram_bytes == before.media_datagram_bytes
                &&& after.media_last_unix_ms == before.media_last_unix_ms
            }
            &&& after.stream_errors == before.stream_errors
            &&& after.media_errors == before.media_errors
            &&& after.stream_duration == before.stream_duration
            &&& after.media_duration == before.media_duration
            &&& went_up(old_record.mesh_payloads, new_record.mesh_payloads, 1)
            &&& went_up(
                old_record.mesh_payload_bytes,
                new_record.mesh_payload_bytes,
                payload_bytes as int,
            )
            &&& went_up(old_record.mesh_datagrams, new_record.mesh_datagrams, datagrams as int)
            &&& went_up(
                old_record.mesh_datagram_bytes,
                new_record.mesh_datagram_bytes,
                datagram_bytes as int,
            )
            &&& new_record == ContribStreamRuntimeRecord {
                mesh_payloads: new_record.mesh_payloads,
                mesh_payload_bytes: new_record.mesh_payload_bytes,
                mesh_datagrams: new_record.mesh_datagrams,
                mesh_datagram_bytes: new_record.mesh_datagram_bytes,
                last_mesh_forward_unix_ms: Some(at_ms),
                ..old_record
            }
            &&& other_streams_stay(view, after_view, stream_id)
            &&& noted_now_and_then(
                view,
                after_view,
                if kind == "media"@ {
                    after.media_payloads
                } else {
                    after.stream_payloads
                },
                100,
                "mesh_forward"@,
                Some(stream_id),
                Some(payload_bytes),
                at_ms,
            )
            &&& after_view.alerts == view.alerts
        }),
{
    what_fits_is_kept();
    let record = stream_record(view.streams, stream_id);
    a_record_is_of_its_stream(view.streams, stream_id);
    let written = ContribStreamRuntimeRecord {
        mesh_payloads: cap_u64(record.mesh_payloads + 1) as u64,
        mesh_payload_bytes: cap_u64(record.mesh_payload_bytes + payload_bytes) as u64,
        mesh_datagrams: cap_u64(record.mesh_datagrams + datagrams) as u64,
        mesh_datagram_bytes: cap_u64(
            record.mesh_datagram_bytes + datagram_bytes,
        ) as u64,
        last_mesh_forward_unix_ms: Some(at_ms),
        ..record
    };
    streams_stay_apart(view, written);
}

/// A payload that could not be forwarded is counted as an error, for its stream too, raises an alert
/// or counts one on, and degrades the service.
pub proof fn failed_forwards_are_reported(
    view: TelemetryView,
    kind: Seq<char>,
    stream_id: u64,
    target: Seq<char>,
    error: Seq<char>,
    at_ms: u64,
    now_ms: u64,
    hls: HlsStatus,
)
    requires
        view.counters.mesh_media.errors < u64::MAX,
        view.counters.mesh_stream.errors < u64::MAX,
    ensures
        ({
            let after_view = view.mesh_failed(kind, stream_id, target, error, at_ms);
            let before = view.report(now_ms).mesh_forward;
            let after = after_view.report(now_ms).mesh_forward;
            let old_record = stream_record(view.streams, stream_id);
            let new_record = stream_record(after_view.streams, stream_id);
            &&& after_view.report(now_ms) == RuntimeView {
                mesh_forward: after,
                streams: after_view.report(now_ms).streams,
                ..view.report(now_ms)
            }
            &&& after.media_errors == before.media_errors + (if kind == "media"@ {
                1int
            } else {
                0
            })
            &&& after.stream_errors == before.stream_errors + (if kind == "media"@ {
                0int
            } else {
                1
            })
            &&& after.media_payloads == before.media_payloads
            &&& after.stream_payloads == before.stream_payloads
            &&& went_up(old_record.mesh_errors, new_record.mesh_errors, 1)
            &&& new_record == ContribStreamRuntimeRecord {
                mesh_errors: new_record.mesh_errors,
                last_mesh_forward_unix_ms: Some(at_ms),
                ..old_record
            }
            &&& other_streams_stay(view, after_view, stream_id)
            &&& newest_is(after_view, "mesh_forward_error"@, Some(stream_id), None, at_ms)
            &&& health_of(after_view.report(now_ms), hls).state == "degraded"@
        }),
{
    what_fits_is_kept();
    let record = stream_record(view.streams, stream_id);
    a_record_is_of_its_stream(view.streams, stream_id);
    let written = ContribStreamRuntimeRecord {
        mesh_errors: cap_u64(record.mesh_errors + 1) as u64,
        last_mesh_forward_unix_ms: Some(at_ms),
        ..record
    };
    streams_stay_apart(view, written);
    let after_view = view.mesh_failed(kind, stream_id, target, error, at_ms);
    failures_degrade(after_view.report(now_ms), hls);
}

/// A slot of a transport stream is counted with its bytes, for its protocol and its stream too.
pub proof fn slots_are_reported(
    view: TelemetryView,
    protocol: Seq<char>,
    stream_id: u64,
    bytes: u64,
    at_ms: u64,
    now_ms: u64,
)
    ensures
        ({
            let after_view = view.mpeg_ts_slot(protocol, stream_id, bytes, at_ms);
            let before = view.report(now_ms);
            let after = after_view.report(now_ms);
            let ts = after.mpeg_ts;
            &&& after == RuntimeView {
                mpeg_ts: ts,
                streams: after.streams,
                protocols: after.protocols,
                ..before
            }
            &&& went_up(before.mpeg_ts.slots, ts.slots, 1)
            &&& went_up(before.mpeg_ts.bytes, ts.bytes, bytes as int)
            &&& tell_of(ts.last_seen_unix_ms, ts.last_seen_age_ms, at_ms, now_ms)
            &&& ts.continuity_errors == before.mpeg_ts.continuity_errors
            &&& ts.continuity_dropped_bytes == before.mpeg_ts.continuity_dropped_bytes
            &&& ts.payload_drops == before.mpeg_ts.payload_drops
            &&& ts.payload_drop_bytes == before.mpeg_ts.payload_drop_bytes
            &&& ts.last_error_unix_ms == before.mpeg_ts.last_error_unix_ms
            &&& input_grew(view, after_view, stream_id, bytes, at_ms)
            &&& other_streams_stay(view, after_view, stream_id)
            &&& protocol_grew(view, after_view, protocol, bytes, at_ms)
            &&& noted_now_and_then(
                view,
                after_view,
                ts.slots,
                25,
                "mpeg_ts_slot"@,
                Some(stream_id),
                Some(bytes),
                at_ms,
            )
        }),
{
    what_fits_is_kept();
    input_is_counted(view, stream_id, bytes, at_ms);
    let after_view = view.mpeg_ts_slot(protocol, stream_id, bytes, at_ms);
    let counted = view.with_protocol_unit(protocol, bytes, at_ms);
    assert(protocol_grew(view, after_view, protocol, bytes, at_ms)) by {
        protocol_is_counted(view, protocol, bytes, at_ms);
        assert(after_view.protocols == counted.protocols);
        units_are_those_of_the_list(view, counted, after_view, protocol, bytes, at_ms);
    }
}

/// An access unit over RTMP is counted with its bytes, for its protocol and its stream too.
pub proof fn rtmp_units_are_reported(
    view: TelemetryView,
    stream_id: u64,
    bytes: u64,
    at_ms: u64,
    now_ms: u64,
)
    ensures
        ({
            let after_view = view.rtmp_access_unit(stream_id, bytes, at_ms);
            let before = view.report(now_ms);
            let after = after_view.report(now_ms);
            let rtmp = after.rtmp;
            &&& after == RuntimeView {
                rtmp,
                streams: after.streams,
                protocols: after.protocols,
                ..before
            }
            &&& went_up(before.rtmp.access_units, rtmp.access_units, 1)
            &&& went_up(before.rtmp.bytes, rtmp.bytes, bytes as int)
            &&& tell_of(rtmp.last_seen_unix_ms, rtmp.last_seen_age_ms, at_ms, now_ms)
            &&& input_grew(view, after_view, stream_id, bytes, at_ms)
            &&& other_streams_stay(view, after_view, stream_id)
            &&& protocol_grew(view, after_view, "rtmp"@, bytes, at_ms)
            &&& noted_now_and_then(
                view,
                after_view,
                rtmp.access_units,
                100,
                "rtmp_access_unit"@,
                Some(stream_id),
                Some(bytes),
                at_ms,
            )
        }),
{
    what_fits_is_kept();
    input_is_counted(view, stream_id, bytes, at_ms);
    let after_view = view.rtmp_access_unit(stream_id, bytes, at_ms);
    let counted = view.with_protocol_unit("rtmp"@, bytes, at_ms);
    assert(protocol_grew(view, after_view, "rtmp"@, bytes, at_ms)) by {
        protocol_is_counted(view, "rtmp"@, bytes, at_ms);
        assert(after_view.protocols == counted.protocols);
        units_are_those_of_the_list(view, counted, after_view, "rtmp"@, bytes, at_ms);
    }
}

/// What is known of a protocol, as a list has it.
pub open spec fn units_of(view: TelemetryView, protocol: Seq<char>) -> (u64, u64, Option<u64>) {
    match protocol_position(view.protocols, protocol, 0) {
        Some(at) => {
            let known = view.protocols[at];
            (known.units, known.bytes, known.last_seen_unix_ms)
        },
        None => (0, 0, None),
    }
}

/// Whether a protocol grew by one unit and no other changed.
pub open spec fn protocol_grew(
    before: TelemetryView,
    after: TelemetryView,
    protocol: Seq<char>,
    bytes: u64,
    at_ms: u64,
) -> bool {
    &&& went_up(units_of(before, protocol).0, units_of(after, protocol).0, 1)
    &&& went_up(units_of(before, protocol).1, units_of(after, protocol).1, bytes as int)
    &&& units_of(after, protocol).2 == Some(at_ms)
    &&& forall|other: Seq<char>|
        other != protocol ==> #[trigger] units_of(after, other) == units_of(before, other)
}

proof fn protocols_know_their_name(
    list: Seq<ProtocolView>,
    protocol: Seq<char>,
    from: int,
)
    requires
        0 <= from,
    ensures
        match protocol_position(list, protocol, from) {
            Some(at) => from <= at < list.len() && list[at].protocol == protocol && forall|j: int|
                from <= j < at ==> (#[trigger] list[j]).protocol != protocol,
            None => forall|j: int|
                from <= j < list.len() ==> (#[trigger] list[j]).protocol != protocol,
        },
    decreases list.len() - from,
{
    if from < list.len() {
        protocols_know_their_name(list, protocol, from + 1);
    }
}

proof fn protocol_is_counted(view: TelemetryView, protocol: Seq<char>, bytes: u64, at_ms: u64)
    ensures
        protocol_grew(
            view,
            view.with_protocol_unit(protocol, bytes, at_ms),
            protocol,
            bytes,
            at_ms,
        ),
{
    let after = view.with_protocol_unit(protocol, bytes, at_ms);
    let known = with_protocol(view.protocols, protocol);
    protocols_know_their_name(view.protocols, protocol, 0);
    protocols_know_their_name(known, protocol, 0);
    protocols_know_their_name(after.protocols, protocol, 0);
    let at = protocol_position(known, protocol, 0);
    if protocol_position(view.protocols, protocol, 0) is None {
        assert(known[view.protocols.len() as int].protocol == protocol);
    }
    assert(at is Some);
    assert(after.protocols[at->Some_0].protocol == protocol);
    assert forall|j: int| 0 <= j < known.len() && j != at->Some_0 implies after.protocols[j]
        == #[trigger] known[j] by {}
    assert forall|other: Seq<char>| other != protocol implies #[trigger] units_of(after, other)
        == units_of(view, other) by {
        protocols_know_their_name(view.protocols, other, 0);
        protocols_know_their_name(after.protocols, other, 0);
        assert forall|j: int| 0 <= j < view.protocols.len() implies known[j]
            == #[trigger] view.protocols[j] by {}
    }
}

proof fn units_are_those_of_the_list(
    before: TelemetryView,
    counted: TelemetryView,
    after: TelemetryView,
    protocol: Seq<char>,
    bytes: u64,
    at_ms: u64,
)
    requires
        protocol_grew(before, counted, protocol, bytes, at_ms),
        after.protocols == counted.protocols,
    ensures
        protocol_grew(before, after, protocol, bytes, at_ms),
{
    assert forall|other: Seq<char>| other != protocol implies #[trigger] units_of(after, other)
        == units_of(before, other) by {
        assert(units_of(after, other) == units_of(counted, other));
    }
}

/// A gap in a transport stream is counted with what was dropped, and a payload that grew too large
/// with its bytes, each by itself.
pub proof fn damage_is_reported(
    view: TelemetryView,
    stream_type: Seq<char>,
    dropped: u64,
    at_ms: u64,
    now_ms: u64,
)
    ensures
        ({
            let before = view.report(now_ms);
            let gap = view.continuity_issue(stream_type, dropped, at_ms).report(now_ms);
            let drop = view.payload_drop(stream_type, dropped, at_ms).report(now_ms);
            &&& gap == RuntimeView { mpeg_ts: gap.mpeg_ts, ..before }
            &&& went_up(before.mpeg_ts.continuity_errors, gap.mpeg_ts.continuity_errors, 1)
            &&& went_up(
                before.mpeg_ts.continuity_dropped_bytes,
                gap.mpeg_ts.continuity_dropped_bytes,
                dropped as int,
            )
            &&& gap.mpeg_ts.payload_drops == before.mpeg_ts.payload_drops
            &&& gap.mpeg_ts.payload_drop_bytes == before.mpeg_ts.payload_drop_bytes
            &&& gap.mpeg_ts.slots == before.mpeg_ts.slots
            &&& gap.mpeg_ts.bytes == before.mpeg_ts.bytes
            &&& gap.mpeg_ts.last_seen_unix_ms == before.mpeg_ts.last_seen_unix_ms
            &&& tell_of(
                gap.mpeg_ts.last_error_unix_ms,
                gap.mpeg_ts.last_error_age_ms,
                at_ms,
                now_ms,
            )
            &&& noted_now_and_then(
                view,
                view.continuity_issue(stream_type, dropped, at_ms),
                gap.mpeg_ts.continuity_errors,
                25,
                "mpeg_ts_continuity_error"@,
                None,
                Some(dropped),
                at_ms,
            )
            &&& drop == RuntimeView { mpeg_ts: drop.mpeg_ts, ..before }
            &&& went_up(before.mpeg_ts.payload_drops, drop.mpeg_ts.payload_drops, 1)
            &&& went_up(
                before.mpeg_ts.payload_drop_bytes,
                drop.mpeg_ts.payload_drop_bytes,
                dropped as int,
            )
            &&& drop.mpeg_ts.continuity_errors == before.mpeg_ts.continuity_errors
            &&& drop.mpeg_ts.continuity_dropped_bytes == before.mpeg_ts.continuity_dropped_bytes
            &&& drop.mpeg_ts.slots == before.mpeg_ts.slots
            &&& drop.mpeg_ts.bytes == before.mpeg_ts.bytes
            &&& drop.mpeg_ts.last_seen_unix_ms == before.mpeg_ts.last_seen_unix_ms
            &&& tell_of(
                drop.mpeg_ts.last_error_unix_ms,
                drop.mpeg_ts.last_error_age_ms,
                at_ms,
                now_ms,
            )
            &&& noted_now_and_then(
                view,
                view.payload_drop(stream_type, dropped, at_ms),
                drop.mpeg_ts.payload_drops,
                25,
                "mpeg_ts_payload_drop"@,
                None,
                Some(dropped),
                at_ms,
            )
        }),
{
    what_fits_is_kept();
}

/// A published part is counted with its bytes and those of its initialization, for its stream too, and
/// changes nothing else that is reported.
pub proof fn published_parts_are_reported(
    view: TelemetryView,
    stream_id: u64,
    stream_idx: usize,
    sequence: u64,
    bytes: u64,
    init_bytes: u64,
    at_ms: u64,
    now_ms: u64,
)
    ensures
        ({
            let after_view = view.fmp4_part(
                stream_id,
                stream_idx,
                sequence,
                bytes,
                init_bytes,
                at_ms,
            );
            let before = view.report(now_ms);
            let after = after_view.report(now_ms);
            let old_record = stream_record(view.streams, stream_id);
            let new_record = stream_record(after_view.streams, stream_id);
            &&& after == RuntimeView { fmp4: after.fmp4, streams: after.streams, ..before }
            &&& after.fmp4 == Fmp4View {
                parts: after.fmp4.parts,
                bytes: after.fmp4.bytes,
                init_bytes: after.fmp4.init_bytes,
                last_publish_unix_ms: after.fmp4.last_publish_unix_ms,
                last_publish_age_ms: after.fmp4.last_publish_age_ms,
                ..before.fmp4
            }
            &&& went_up(before.fmp4.parts, after.fmp4.parts, 1)
            &&& went_up(before.fmp4.bytes, after.fmp4.bytes, bytes as int)
            &&& went_up(before.fmp4.init_bytes, after.fmp4.init_bytes, init_bytes as int)
            &&& tell_of(
                after.fmp4.last_publish_unix_ms,
                after.fmp4.last_publish_age_ms,
                at_ms,
                now_ms,
            )
            &&& went_up(old_record.fmp4_parts, new_record.fmp4_parts, 1)
            &&& went_up(old_record.fmp4_bytes, new_record.fmp4_bytes, bytes as int)
            &&& went_up(old_record.fmp4_init_bytes, new_record.fmp4_init_bytes, init_bytes as int)
            &&& new_record == ContribStreamRuntimeRecord {
                fmp4_parts: new_record.fmp4_parts,
                fmp4_bytes: new_record.fmp4_bytes,
                fmp4_init_bytes: new_record.fmp4_init_bytes,
                latest_fmp4_sequence: Some(sequence),
                last_fmp4_unix_ms: Some(at_ms),
                ..old_record
            }
            &&& other_streams_stay(view, after_view, stream_id)
            &&& noted_now_and_then(
                view,
                after_view,
                after.fmp4.parts,
                25,
                "fmp4_part_published"@,
                Some(stream_id),
                Some(bytes),
                at_ms,
            )
        }),
{
    what_fits_is_kept();
    let record = stream_record(view.streams, stream_id);
    a_record_is_of_its_stream(view.streams, stream_id);
    let written = ContribStreamRuntimeRecord {
        fmp4_parts: cap_u64(record.fmp4_parts + 1) as u64,
        fmp4_bytes: cap_u64(record.fmp4_bytes + bytes) as u64,
        fmp4_init_bytes: cap_u64(record.fmp4_init_bytes + init_bytes) as u64,
        latest_fmp4_sequence: Some(sequence),
        last_fmp4_unix_ms: Some(at_ms),
        ..record
    };
    streams_stay_apart(view, written);
}

/// The pictures and the sounds of a published part are counted, each as what they are, for the stream
/// too; a part counts as one of pictures where it has any, and as one of sounds where it has any.
pub proof fn published_tracks_are_reported(
    view: TelemetryView,
    stream_id: u64,
    sequence: u64,
    dimensions: Option<(u16, u16)>,
    video_units: u64,
    audio_units: u64,
    now_ms: u64,
)
    ensures
        ({
            let after_view = view.fmp4_tracks(
                stream_id,
                sequence,
                dimensions,
                video_units,
                audio_units,
            );
            let before = view.report(now_ms);
            let after = after_view.report(now_ms);
            let old_record = stream_record(view.streams, stream_id);
            let new_record = stream_record(after_view.streams, stream_id);
            let one = |units: u64| if units > 0 {
                1int
            } else {
                0
            };
            &&& after == RuntimeView { fmp4: after.fmp4, streams: after.streams, ..before }
            &&& after.fmp4.parts == before.fmp4.parts
            &&& after.fmp4.bytes == before.fmp4.bytes
            &&& after.fmp4.init_bytes == before.fmp4.init_bytes
            &&& after.fmp4.publish_errors == before.fmp4.publish_errors
            &&& after.fmp4.last_publish_unix_ms == before.fmp4.last_publish_unix_ms
            &&& went_up(before.fmp4.video_parts, after.fmp4.video_parts, one(video_units))
            &&& went_up(
                before.fmp4.video_access_units,
                after.fmp4.video_access_units,
                video_units as int,
            )
            &&& went_up(before.fmp4.audio_parts, after.fmp4.audio_parts, one(audio_units))
            &&& went_up(
                before.fmp4.audio_access_units,
                after.fmp4.audio_access_units,
                audio_units as int,
            )
            &&& dimensions matches Some((width, height)) ==> (width > 0 ==> after.fmp4.video_width
                == Some(width) && after.fmp4.video_codec == Some("h264"@)) && (height > 0
                ==> after.fmp4.video_height == Some(height))
        }),
        ({
            let before = view.report(now_ms).fmp4;
            let after_view = view.fmp4_tracks(
                stream_id,
                sequence,
                dimensions,
                video_units,
                audio_units,
            );
            let after = after_view.report(now_ms).fmp4;
            let old_record = stream_record(view.streams, stream_id);
            let new_record = stream_record(after_view.streams, stream_id);
            let one = |units: u64| if units > 0 {
                1int
            } else {
                0
            };
            &&& dimensions is None ==> after.video_width == before.video_width && after.video_height
                == before.video_height && after.video_codec == before.video_codec
            &&& audio_units > 0 && before.audio_parts < u64::MAX ==> after.audio_codec == Some(
                "aac"@,
            )
            &&& audio_units == 0 ==> after.audio_codec == before.audio_codec
            &&& new_record.has_video == (old_record.has_video || video_units > 0)
            &&& new_record.has_audio == (old_record.has_audio || audio_units > 0)
            &&& went_up(old_record.video_parts, new_record.video_parts, one(video_units))
            &&& went_up(old_record.audio_parts, new_record.audio_parts, one(audio_units))
            &&& went_up(
                old_record.video_access_units,
                new_record.video_access_units,
                video_units as int,
            )
            &&& went_up(
                old_record.audio_access_units,
                new_record.audio_access_units,
                audio_units as int,
            )
            &&& dimensions is Some && video_units > 0 ==> new_record.video_width == Some(
                dimensions->Some_0.0,
            ) && new_record.video_height == Some(dimensions->Some_0.1)
            &&& dimensions is None || video_units == 0 ==> new_record.video_width
                == old_record.video_width && new_record.video_height == old_record.video_height
            &&& new_record == ContribStreamRuntimeRecord {
                has_video: new_record.has_video,
                video_width: new_record.video_width,
                video_height: new_record.video_height,
                video_parts: new_record.video_parts,
                video_access_units: new_record.video_access_units,
                has_audio: new_record.has_audio,
                audio_parts: new_record.audio_parts,
                audio_access_units: new_record.audio_access_units,
                latest_fmp4_sequence: Some(sequence),
                ..old_record
            }
            &&& other_streams_stay(view, after_view, stream_id)
        }),
{
    what_fits_is_kept();
    a_record_is_of_its_stream(view.streams, stream_id);
    let after_view = view.fmp4_tracks(stream_id, sequence, dimensions, video_units, audio_units);
    let record = stream_record(view.streams, stream_id);
    let written = ContribStreamRuntimeRecord {
        has_video: record.has_video || video_units > 0,
        video_width: match dimensions {
            Some((width, _)) => if video_units > 0 {
                Some(width)
            } else {
                record.video_width
            },
            None => record.video_width,
        },
        video_height: match dimensions {
            Some((_, height)) => if video_units > 0 {
                Some(height)
            } else {
                record.video_height
            },
            None => record.video_height,
        },
        video_parts: if video_units > 0 {
            cap_u64(record.video_parts + 1) as u64
        } else {
            record.video_parts
        },
        video_access_units: cap_u64(record.video_access_units + video_units) as u64,
        has_audio: record.has_audio || audio_units > 0,
        audio_parts: if audio_units > 0 {
            cap_u64(record.audio_parts + 1) as u64
        } else {
            record.audio_parts
        },
        audio_access_units: cap_u64(record.audio_access_units + audio_units) as u64,
        latest_fmp4_sequence: Some(sequence),
        ..record
    };
    streams_stay_apart(view, written);
}

/// A part that could not be published is counted as an error, for its stream too, is noted, and
/// degrades the service.
pub proof fn failed_parts_are_reported(
    view: TelemetryView,
    stream_id: u64,
    stream_idx: usize,
    sequence: u64,
    error: Seq<char>,
    at_ms: u64,
    now_ms: u64,
    hls: HlsStatus,
)
    requires
        view.counters.fmp4.publish_errors < u64::MAX,
    ensures
        ({
            let after_view = view.fmp4_failed(stream_id, stream_idx, sequence, error, at_ms);
            let before = view.report(now_ms);
            let after = after_view.report(now_ms);
            let old_record = stream_record(view.streams, stream_id);
            let new_record = stream_record(after_view.streams, stream_id);
            &&& after == RuntimeView { fmp4: after.fmp4, streams: after.streams, ..before }
            &&& after.fmp4.publish_errors == before.fmp4.publish_errors + 1
            &&& after.fmp4 == Fmp4View {
                publish_errors: after.fmp4.publish_errors,
                ..before.fmp4
            }
            &&& went_up(old_record.fmp4_publish_errors, new_record.fmp4_publish_errors, 1)
            &&& new_record == ContribStreamRuntimeRecord {
                fmp4_publish_errors: new_record.fmp4_publish_errors,
                latest_fmp4_sequence: Some(sequence),
                last_fmp4_unix_ms: Some(at_ms),
                ..old_record
            }
            &&& other_streams_stay(view, after_view, stream_id)
            &&& newest_is(after_view, "fmp4_publish_error"@, Some(stream_id), None, at_ms)
            &&& health_of(after, hls).state == "degraded"@
        }),
{
    what_fits_is_kept();
    let record = stream_record(view.streams, stream_id);
    a_record_is_of_its_stream(view.streams, stream_id);
    let written = ContribStreamRuntimeRecord {
        fmp4_publish_errors: cap_u64(record.fmp4_publish_errors + 1) as u64,
        latest_fmp4_sequence: Some(sequence),
        last_fmp4_unix_ms: Some(at_ms),
        ..record
    };
    streams_stay_apart(view, written);
    failures_degrade(
        view.fmp4_failed(stream_id, stream_idx, sequence, error, at_ms).report(now_ms),
        hls,
    );
}

/// An answer to a playlist or media request is counted and remembered; it counts as an error where its
/// status says that the client or the service failed, and as not found where it says so.
pub proof fn answers_are_reported(view: TelemetryView, response: HlsResponseView, now_ms: u64)
    ensures
        ({
            let after_view = view.hls_response(response);
            let before = view.report(now_ms);
            let after = after_view.report(now_ms);
            let failed = response.status >= 400 && response.status < 600;
            &&& after == RuntimeView { hls: after.hls, ..before }
            &&& went_up(before.hls.responses_total, after.hls.responses_total, 1)
            &&& went_up(
                before.hls.response_errors,
                after.hls.response_errors,
                if failed {
                    1
                } else {
                    0
                },
            )
            &&& went_up(
                before.hls.response_not_found,
                after.hls.response_not_found,
                if response.status == 404 {
                    1
                } else {
                    0
                },
            )
            &&& tell_of(
                after.hls.last_response_unix_ms,
                after.hls.last_response_age_ms,
                response.unix_ms,
                now_ms,
            )
            &&& after.hls.recent_responses.len() > 0
            &&& after.hls.recent_responses[0] == response
            &&& forall|i: int|
                0 <= i < after.hls.recent_responses.len() - 1
                    ==> #[trigger] before.hls.recent_responses[i]
                    == after.hls.recent_responses[i + 1]
            &&& failed ==> newest_is(
                after_view,
                "hls_response_error"@,
                None,
                Some(response.bytes),
                response.unix_ms,
            ) && after_view.activity[0].level == (if response.status >= 500 {
                "error"@
            } else {
                "warn"@
            })
            &&& !failed ==> after_view.activity == view.activity
        }),
{
    what_fits_is_kept();
}

/// A relay datagram that was sent is counted with its bytes under its role, one that could not be
/// sent as an error under its role, and nothing else changes.
pub proof fn relay_datagrams_are_reported(
    view: TelemetryView,
    role: MediaDatagramRole,
    wire_bytes: u64,
    now_ms: u64,
)
    ensures
        ({
            let before = view.report(now_ms).relay_session;
            let sent_view = view.relay_sent(role, wire_bytes);
            let sent = sent_view.report(now_ms).relay_session;
            let failed_view = view.relay_send_failed(role);
            let failed = failed_view.report(now_ms).relay_session;
            let source = if role is Source {
                1int
            } else {
                0
            };
            let repair = 1 - source;
            &&& sent_view.report(now_ms) == RuntimeView {
                relay_session: sent,
                ..view.report(now_ms)
            }
            &&& went_up(before.source_datagrams, sent.source_datagrams, source)
            &&& went_up(before.source_datagram_bytes, sent.source_datagram_bytes, source * wire_bytes)
            &&& went_up(before.repair_datagrams, sent.repair_datagrams, repair)
            &&& went_up(before.repair_datagram_bytes, sent.repair_datagram_bytes, repair * wire_bytes)
            &&& sent == RelayView {
                source_datagrams: sent.source_datagrams,
                source_datagram_bytes: sent.source_datagram_bytes,
                repair_datagrams: sent.repair_datagrams,
                repair_datagram_bytes: sent.repair_datagram_bytes,
                ..before
            }
            &&& failed_view.report(now_ms) == RuntimeView {
                relay_session: failed,
                ..view.report(now_ms)
            }
            &&& went_up(before.source_errors, failed.source_errors, source)
            &&& went_up(before.repair_errors, failed.repair_errors, repair)
            &&& failed == RelayView {
                source_errors: failed.source_errors,
                repair_errors: failed.repair_errors,
                ..before
            }
            &&& sent_view.activity == view.activity
            &&& failed_view.activity == view.activity
        }),
{
    what_fits_is_kept();
}

/// An object's fate on a lane is counted on that lane alone. A failure impairs the lane at once; a
/// first success makes it healthy.
pub proof fn lane_fates_are_reported(
    view: TelemetryView,
    path: RelayCarrierPath,
    succeeded: bool,
    at_ms: u64,
    now_ms: u64,
)
    requires
        0 < at_ms <= now_ms,
        view.counters.relay.primary.last_success_unix_ms <= at_ms,
        view.counters.relay.primary.last_failure_unix_ms <= at_ms,
        view.counters.relay.secondary.last_success_unix_ms <= at_ms,
        view.counters.relay.secondary.last_failure_unix_ms <= at_ms,
    ensures
        ({
            let before = view.report(now_ms).relay_session;
            let after_view = view.lane_settled(path, succeeded, at_ms);
            let after = after_view.report(now_ms).relay_session;
            let good = if succeeded {
                1int
            } else {
                0
            };
            &&& after_view.report(now_ms) == RuntimeView {
                relay_session: after,
                ..view.report(now_ms)
            }
            &&& path is Primary ==> {
                &&& went_up(
                    before.primary_lane_objects_succeeded,
                    after.primary_lane_objects_succeeded,
                    good,
                )
                &&& went_up(
                    before.primary_lane_objects_failed,
                    after.primary_lane_objects_failed,
                    1 - good,
                )
                &&& !succeeded ==> after.primary_lane_state == "impaired"@
                &&& succeeded && view.counters.relay.primary.last_failure_unix_ms == 0
                    ==> after.primary_lane_state == "healthy"@
                &&& after == RelayView {
                    primary_lane_objects_succeeded: after.primary_lane_objects_succeeded,
                    primary_lane_objects_failed: after.primary_lane_objects_failed,
                    primary_lane_state: after.primary_lane_state,
                    ..before
                }
            }
            &&& path is Secondary ==> {
                &&& went_up(
                    before.secondary_lane_objects_succeeded,
                    after.secondary_lane_objects_succeeded,
                    good,
                )
                &&& went_up(
                    before.secondary_lane_objects_failed,
                    after.secondary_lane_objects_failed,
                    1 - good,
                )
                &&& !succeeded ==> after.secondary_lane_state == "impaired"@
                &&& succeeded && view.counters.relay.secondary.last_failure_unix_ms == 0
                    ==> after.secondary_lane_state == "healthy"@
                &&& after == RelayView {
                    secondary_lane_objects_succeeded: after.secondary_lane_objects_succeeded,
                    secondary_lane_objects_failed: after.secondary_lane_objects_failed,
                    secondary_lane_state: after.secondary_lane_state,
                    ..before
                }
            }
        }),
{
    what_fits_is_kept();
}

/// How long relaying took is measured under the stage that it was measured for, and under no other.
pub proof fn relay_stages_are_kept_apart(
    histograms: RelayHistogramsView,
    stage: RelayPipelineStage,
    duration_us: u64,
)
    ensures
        ({
            let after = histograms.staged(stage, duration_us);
            let measured = |before: HistogramView, after: HistogramView, here: bool|
                if here {
                    after == before.recorded(duration_us)
                } else {
                    after == before
                };
            &&& measured(histograms.total, after.total, stage is Total)
            &&& measured(histograms.encode_wait, after.encode_wait, stage is EncodeWait)
            &&& measured(histograms.encode, after.encode, stage is Encode)
            &&& measured(histograms.schedule, after.schedule, stage is Schedule)
            &&& measured(
                histograms.primary_source_send,
                after.primary_source_send,
                stage is PrimarySourceSend,
            )
            &&& measured(
                histograms.secondary_source_send,
                after.secondary_source_send,
                stage is SecondarySourceSend,
            )
            &&& measured(
                histograms.primary_repair_send,
                after.primary_repair_send,
                stage is PrimaryRepairSend,
            )
            &&& measured(
                histograms.secondary_repair_send,
                after.secondary_repair_send,
                stage is SecondaryRepairSend,
            )
        }),
{
}

/// How long forwarding took is measured for media where it was media and for streams otherwise, under
/// the stage of that name, and every duration is reported where it was measured.
pub proof fn forwarding_is_timed(
    view: TelemetryView,
    kind: Seq<char>,
    duration_us: u64,
    now_ms: u64,
)
    ensures
        ({
            let timed = view.forward_timed(kind, duration_us);
            let staged = |stage: Seq<char>| view.forward_staged(kind, stage, duration_us);
            let old_mine = if kind == "media"@ {
                view.media_histograms
            } else {
                view.stream_histograms
            };
            let mine = |after: TelemetryView|
                if kind == "media"@ {
                    after.media_histograms
                } else {
                    after.stream_histograms
                };
            let other_stays = |after: TelemetryView|
                if kind == "media"@ {
                    after.stream_histograms == view.stream_histograms
                } else {
                    after.media_histograms == view.media_histograms
                };
            &&& other_stays(timed)
            &&& other_stays(staged("encode_wait"@))
            &&& other_stays(staged("encode"@))
            &&& other_stays(staged("send"@))
            &&& other_stays(staged("telemetry"@))
            &&& mine(timed) == MeshHistogramsView {
                total: old_mine.total.recorded(duration_us),
                ..old_mine
            }
            &&& mine(staged("encode_wait"@)) == MeshHistogramsView {
                encode_wait: old_mine.encode_wait.recorded(duration_us),
                ..old_mine
            }
            &&& mine(staged("encode"@)) == MeshHistogramsView {
                encode: old_mine.encode.recorded(duration_us),
                ..old_mine
            }
            &&& mine(staged("send"@)) == MeshHistogramsView {
                send: old_mine.send.recorded(duration_us),
                ..old_mine
            }
            &&& mine(staged("telemetry"@)) == MeshHistogramsView {
                telemetry: old_mine.telemetry.recorded(duration_us),
                ..old_mine
            }
            &&& view.report(now_ms).mesh_forward.media_duration
                == view.media_histograms.total.reported()
            &&& view.report(now_ms).mesh_forward.stream_duration
                == view.stream_histograms.total.reported()
            &&& view.report(now_ms).mesh_forward.media_stages.send
                == view.media_histograms.send.reported()
            &&& view.report(now_ms).mesh_forward.media_stages.encode
                == view.media_histograms.encode.reported()
            &&& view.report(now_ms).mesh_forward.media_stages.encode_wait
                == view.media_histograms.encode_wait.reported()
            &&& view.report(now_ms).mesh_forward.media_stages.telemetry
                == view.media_histograms.telemetry.reported()
            &&& view.report(now_ms).mesh_forward.stream_stages.send
                == view.stream_histograms.send.reported()
            &&& view.report(now_ms).mesh_forward.stream_stages.encode
                == view.stream_histograms.encode.reported()
            &&& view.report(now_ms).mesh_forward.stream_stages.encode_wait
                == view.stream_histograms.encode_wait.reported()
            &&& view.report(now_ms).mesh_forward.stream_stages.telemetry
                == view.stream_histograms.telemetry.reported()
        }),
{
    reveal_strlit("encode_wait");
    reveal_strlit("encode");
    reveal_strlit("send");
    reveal_strlit("telemetry");
    assert("encode_wait"@.len() == 11 && "encode"@.len() == 6 && "send"@.len() == 4
        && "telemetry"@.len() == 9);
}

/// Nothing has happened where nothing was counted, and a deadline leaves what is between it and now.
pub proof fn deadlines_leave_headroom(view: TelemetryView, now_ms: u64)
    requires
        now_ms <= u64::MAX / 1_000,
    ensures
        ({
            let relay = view.report(now_ms).relay_session;
            let deadline = view.counters.relay.last_deadline_unix_us;
            &&& deadline == 0 ==> relay.last_deadline_unix_us is None
                && relay.last_deadline_headroom_us is None
            &&& deadline > 0 ==> relay.last_deadline_unix_us == Some(deadline)
                && relay.last_deadline_headroom_us is Some
            &&& deadline > 0 && deadline <= now_ms * 1_000 ==> relay.last_deadline_headroom_us
                == Some(0u64)
            &&& deadline > now_ms * 1_000 ==> relay.last_deadline_headroom_us->Some_0 + now_ms
                * 1_000 == deadline
        }),
{
}

/// A session that starts is counted and noted, and so is one that ends. A contributor that is there
/// already starts none, and one that has none ends none.
pub proof fn sessions_are_counted_once(
    view: TelemetryView,
    protocol: Seq<char>,
    stream_id: u64,
    origin: OriginView,
    reason: Seq<char>,
    at_ms: u64,
)
    requires
        view.counters.sessions.started < u64::MAX,
        view.counters.sessions.ended < u64::MAX,
    ensures
        ({
            let active = exists|i: int|
                0 <= i < view.sessions.len() && is_active_for(
                    #[trigger] view.sessions[i],
                    protocol,
                    stream_id,
                );
            let there = view.session_joined(protocol, stream_id, origin, at_ms);
            let gone = view.session_left(protocol, stream_id, reason, at_ms);
            let before = view.counters.sessions;
            &&& there.counters.sessions.started == before.started + (if active {
                0int
            } else {
                1
            })
            &&& there.counters.sessions.ended == before.ended
            &&& gone.counters.sessions.ended == before.ended + (if active {
                1int
            } else {
                0
            })
            &&& gone.counters.sessions.started == before.started
            &&& active ==> there.activity == view.activity && newest_is(
                gone,
                "ingest_session_ended"@,
                Some(stream_id),
                None,
                at_ms,
            )
            &&& !active ==> gone.activity == view.activity && newest_is(
                there,
                "ingest_session_started"@,
                Some(stream_id),
                None,
                at_ms,
            )
            &&& there == TelemetryView {
                sessions: there.sessions,
                activity: there.activity,
                counters: Counters { sessions: there.counters.sessions, ..view.counters },
                ..view
            }
            &&& gone == TelemetryView {
                sessions: gone.sessions,
                activity: gone.activity,
                counters: Counters { sessions: gone.counters.sessions, ..view.counters },
                ..view
            }
        }),
{
    what_fits_is_kept();
    active_position_is_first(view.sessions, protocol, stream_id, 0);
}

} // verus!
