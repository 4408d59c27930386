//! What is promised of the metrics: everything that is counted is exposed under its name, with its
//! value.
use crate::audio_epoch_hls::worker::AudioEpochHlsWorkerStats;
use crate::service::histogram::HistogramSnapshotView;
use crate::service::metrics::{
    bound_label, escaped, header_line, labelled, labelled_twice, plain, with_buckets,
    with_histogram, with_number, HistogramNames, LineView, ValueView,
};
use crate::service::metrics_report::{
    exposition, flag_value, mesh_duration_names, mesh_stage_names, relay_stage_names,
    with_age_metrics, with_audio_epoch_metrics, with_clock_metrics, with_configuration_metrics,
    with_deadline, with_deadline_metrics, with_headroom, with_input_metrics, with_lane_metrics,
    with_mesh_durations, with_mesh_metrics, with_mesh_stage_durations, with_one_protocol,
    with_one_stream, with_output_metrics, with_path_age, with_path_metrics, with_path_stretch,
    with_protocol_metrics, with_protocols, with_relay_durations, with_relay_metrics, with_route,
    with_route_metrics, with_stage_age, with_stream_age, with_stream_metrics, with_streams,
    AudioQueueStats, RouteTextView, RouteTextsView,
};
use crate::service::status::StatusView;
use crate::service::streams::{age, ProtocolSnapshotView, StreamSnapshotView};
use crate::arith::{cap_u64, min_int};
use vstd::prelude::*;
use vstd::string::*;

verus! {

/// Whether lines show a value under a name and labels.
pub open spec fn shows(
    lines: Seq<LineView>,
    name: Seq<char>,
    labels: Seq<(Seq<char>, Seq<char>)>,
    value: ValueView,
) -> bool {
    lines.contains(LineView::Sample { name, labels, value })
}

/// Whether everything that some lines show is among others.
pub open spec fn keeps(before: Seq<LineView>, after: Seq<LineView>) -> bool {
    forall|line: LineView| before.contains(line) ==> #[trigger] after.contains(line)
}

/// Whether lines show a duration's count, its sum and every bucket.
pub open spec fn shows_histogram(
    lines: Seq<LineView>,
    bucket: Seq<char>,
    sum: Seq<char>,
    count: Seq<char>,
    labels: Seq<(Seq<char>, Seq<char>)>,
    histogram: HistogramSnapshotView,
) -> bool {
    &&& shows(lines, count, labels, ValueView::Count(histogram.count))
    &&& shows(lines, sum, labels, ValueView::Micros(histogram.sum_us))
    &&& shows(lines, bucket, labels.push(("le"@, "+Inf"@)), ValueView::Count(histogram.count))
    &&& forall|i: int|
        0 <= i < histogram.buckets.len() && i < 13 ==> shows(
            lines,
            bucket,
            labels.push(("le"@, bound_label(i))),
            ValueView::Count(#[trigger] histogram.buckets[i]),
        )
}

proof fn a_line_is_added(before: Seq<LineView>, line: LineView)
    ensures
        keeps(before, before.push(line)),
        before.push(line).contains(line),
{
    let after = before.push(line);
    assert(after[before.len() as int] == line);
    assert forall|other: LineView| before.contains(other) implies #[trigger] after.contains(
        other,
    ) by {
        let i = before.index_of(other);
        assert(after[i] == other);
    }
}

proof fn a_number_is_added(
    before: Seq<LineView>,
    name: Seq<char>,
    help: Seq<char>,
    kind: Seq<char>,
    value: u64,
)
    ensures
        keeps(before, with_number(before, name, help, kind, value)),
        shows(
            with_number(before, name, help, kind, value),
            name,
            Seq::empty(),
            ValueView::Count(value),
        ),
{
    let headed = before.push(header_line(name, help, kind));
    a_line_is_added(before, header_line(name, help, kind));
    a_line_is_added(headed, plain(name, ValueView::Count(value)));
}

proof fn buckets_are_added(
    before: Seq<LineView>,
    name: Seq<char>,
    labels: Seq<(Seq<char>, Seq<char>)>,
    buckets: Seq<u64>,
    count: nat,
)
    ensures
        keeps(before, with_buckets(before, name, labels, buckets, count)),
        forall|i: int|
            0 <= i < count ==> shows(
                with_buckets(before, name, labels, buckets, count),
                name,
                labels.push(("le"@, bound_label(i))),
                ValueView::Count(#[trigger] buckets[i]),
            ),
    decreases count,
{
    if count > 0 {
        let fewer = (count - 1) as nat;
        buckets_are_added(before, name, labels, buckets, fewer);
        a_line_is_added(
            with_buckets(before, name, labels, buckets, fewer),
            LineView::Sample {
                name,
                labels: labels.push(("le"@, bound_label(count - 1))),
                value: ValueView::Count(buckets[count - 1]),
            },
        );
    }
}

proof fn a_histogram_is_added(
    before: Seq<LineView>,
    names: HistogramNames,
    labels: Seq<(Seq<char>, Seq<char>)>,
    histogram: HistogramSnapshotView,
)
    ensures
        keeps(before, with_histogram(before, names, labels, histogram)),
        shows_histogram(
            with_histogram(before, names, labels, histogram),
            names.bucket@,
            names.sum@,
            names.count@,
            labels,
            histogram,
        ),
{
    let shown = min_int(histogram.buckets.len() as int, 13) as nat;
    buckets_are_added(before, names.bucket@, labels, histogram.buckets, shown);
    let l0 = with_buckets(before, names.bucket@, labels, histogram.buckets, shown);
    let inf = LineView::Sample {
        name: names.bucket@,
        labels: labels.push(("le"@, "+Inf"@)),
        value: ValueView::Count(histogram.count),
    };
    let sum = LineView::Sample {
        name: names.sum@,
        labels,
        value: ValueView::Micros(histogram.sum_us),
    };
    let count = LineView::Sample {
        name: names.count@,
        labels,
        value: ValueView::Count(histogram.count),
    };
    a_line_is_added(l0, inf);
    a_line_is_added(l0.push(inf), sum);
    a_line_is_added(l0.push(inf).push(sum), count);
}

proof fn a_stretch_is_added(before: Seq<LineView>, stretch: Option<Seq<char>>)
    ensures
        keeps(before, with_path_stretch(before, stretch)),
        stretch is Some ==> shows(
            with_path_stretch(before, stretch),
            "av_contrib_relay_session_path_stretch_ratio"@,
            Seq::empty(),
            ValueView::Text(stretch->Some_0),
        ),
{
    if stretch is Some {
        let after = with_path_stretch(before, stretch);
        let headed = after.drop_last();
        a_line_is_added(before, headed.last());
        assert(headed =~= before.push(headed.last()));
        a_line_is_added(headed, after.last());
        assert(after =~= headed.push(after.last()));
    }
}

proof fn a_path_age_is_added(before: Seq<LineView>, observed_at: Option<u64>, now_ms: u64)
    ensures
        keeps(before, with_path_age(before, observed_at, now_ms)),
        observed_at is Some && observed_at->Some_0 <= now_ms ==> shows(
            with_path_age(before, observed_at, now_ms),
            "av_contrib_relay_session_path_observation_age_seconds"@,
            Seq::empty(),
            ValueView::Millis((now_ms - observed_at->Some_0) as u64),
        ),
{
    if observed_at is Some {
        let after = with_path_age(before, observed_at, now_ms);
        let headed = after.drop_last();
        a_line_is_added(before, headed.last());
        assert(headed =~= before.push(headed.last()));
        a_line_is_added(headed, after.last());
        assert(after =~= headed.push(after.last()));
    }
}

proof fn a_deadline_is_added(before: Seq<LineView>, deadline_us: Option<u64>)
    ensures
        keeps(before, with_deadline(before, deadline_us)),
        deadline_us is Some ==> shows(
            with_deadline(before, deadline_us),
            "av_contrib_relay_session_last_deadline_seconds"@,
            Seq::empty(),
            ValueView::Micros(deadline_us->Some_0),
        ),
{
    if deadline_us is Some {
        let after = with_deadline(before, deadline_us);
        let headed = after.drop_last();
        a_line_is_added(before, headed.last());
        assert(headed =~= before.push(headed.last()));
        a_line_is_added(headed, after.last());
        assert(after =~= headed.push(after.last()));
    }
}

proof fn a_headroom_is_added(before: Seq<LineView>, headroom_us: Option<u64>)
    ensures
        keeps(before, with_headroom(before, headroom_us)),
        headroom_us is Some ==> shows(
            with_headroom(before, headroom_us),
            "av_contrib_relay_session_last_deadline_headroom_seconds"@,
            Seq::empty(),
            ValueView::Micros(headroom_us->Some_0),
        ),
{
    if headroom_us is Some {
        let after = with_headroom(before, headroom_us);
        let headed = after.drop_last();
        a_line_is_added(before, headed.last());
        assert(headed =~= before.push(headed.last()));
        a_line_is_added(headed, after.last());
        assert(after =~= headed.push(after.last()));
    }
}

proof fn a_stage_age_is_added(before: Seq<LineView>, stage: Seq<char>, age_ms: Option<u64>)
    ensures
        keeps(before, with_stage_age(before, stage, age_ms)),
        age_ms is Some ==> shows(
            with_stage_age(before, stage, age_ms),
            "av_contrib_last_seen_age_seconds"@,
            seq![("stage"@, stage)],
            ValueView::Millis(age_ms->Some_0),
        ),
{
    if age_ms is Some {
        let after = with_stage_age(before, stage, age_ms);
        a_line_is_added(before, after.last());
        assert(after =~= before.push(after.last()));
    }
}

/// Whether lines show what was observed of a route.
pub open spec fn shows_route(
    lines: Seq<LineView>,
    path: Seq<char>,
    source: Seq<char>,
    route: RouteTextView,
    observed_at: Option<u64>,
    now_ms: u64,
) -> bool {
    let at = seq![("path"@, path)];
    let shown = |name: Seq<char>, text: Seq<char>| shows(lines, name, at, ValueView::Text(text));
    &&& shows(
        lines,
        "av_contrib_relay_session_route_observation_info"@,
        seq![("path"@, path), ("source"@, escaped(source))],
        ValueView::Count(1),
    )
    &&& shown("av_contrib_relay_session_route_loss_fraction"@, route.loss)
    &&& shown("av_contrib_relay_session_route_rtt_seconds"@, route.rtt)
    &&& shown("av_contrib_relay_session_route_best_direct_rtt_seconds"@, route.best_direct_rtt)
    &&& shown("av_contrib_relay_session_route_jitter_seconds"@, route.jitter)
    &&& shown("av_contrib_relay_session_route_queue_delay_seconds"@, route.queue_delay)
    &&& route.stretch is Some ==> shown(
        "av_contrib_relay_session_route_stretch_ratio"@,
        route.stretch->Some_0,
    )
    &&& observed_at is Some && observed_at->Some_0 <= now_ms ==> shows(
        lines,
        "av_contrib_relay_session_route_observation_age_seconds"@,
        at,
        ValueView::Millis((now_ms - observed_at->Some_0) as u64),
    )
}

proof fn a_route_is_added(
    before: Seq<LineView>,
    path: Seq<char>,
    source: Seq<char>,
    route: RouteTextView,
    observed_at: Option<u64>,
    now_ms: u64,
)
    ensures
        keeps(before, with_route(before, path, source, route, age(now_ms, observed_at))),
        shows_route(
            with_route(before, path, source, route, age(now_ms, observed_at)),
            path,
            source,
            route,
            observed_at,
            now_ms,
        ),
{
    let at = ("path"@, path);
    let after = with_route(before, path, source, route, age(now_ms, observed_at));
    let line0 = labelled_twice(
        "av_contrib_relay_session_route_observation_info"@,
        at,
        ("source"@, escaped(source)),
        ValueView::Count(1),
    );
    let line1 = labelled(
        "av_contrib_relay_session_route_loss_fraction"@,
        at,
        ValueView::Text(route.loss),
    );
    let line2 = labelled(
        "av_contrib_relay_session_route_rtt_seconds"@,
        at,
        ValueView::Text(route.rtt),
    );
    let line3 = labelled(
        "av_contrib_relay_session_route_best_direct_rtt_seconds"@,
        at,
        ValueView::Text(route.best_direct_rtt),
    );
    let line4 = labelled(
        "av_contrib_relay_session_route_jitter_seconds"@,
        at,
        ValueView::Text(route.jitter),
    );
    let line5 = labelled(
        "av_contrib_relay_session_route_queue_delay_seconds"@,
        at,
        ValueView::Text(route.queue_delay),
    );
    let l0 = before.push(line0);
    let l1 = l0.push(line1);
    let l2 = l1.push(line2);
    let l3 = l2.push(line3);
    let l4 = l3.push(line4);
    let l5 = l4.push(line5);
    a_line_is_added(before, line0);
    a_line_is_added(l0, line1);
    a_line_is_added(l1, line2);
    a_line_is_added(l2, line3);
    a_line_is_added(l3, line4);
    a_line_is_added(l4, line5);
    let l6 = match route.stretch {
        Some(stretch) => l5.push(
            labelled(
                "av_contrib_relay_session_route_stretch_ratio"@,
                at,
                ValueView::Text(stretch),
            ),
        ),
        None => l5,
    };
    if route.stretch is Some {
        a_line_is_added(l5, l6.last());
        assert(l6 =~= l5.push(l6.last()));
    }
    if observed_at is Some {
        a_line_is_added(l6, after.last());
        assert(after =~= l6.push(after.last()));
    } else {
        assert(after == l6);
    }
}

/// Whether lines show what is counted of a stream.
pub open spec fn shows_stream(lines: Seq<LineView>, stream: StreamSnapshotView) -> bool {
    let id = ("stream_id"@, escaped(stream.stream_id_text));
    let state = ("state"@, escaped(stream.state));
    let counted = |name: Seq<char>, count: u64|
        shows(lines, name, seq![id, state], ValueView::Count(count));
    let seen = |stage: Seq<char>, age_ms: Option<u64>|
        age_ms is Some ==> shows(
            lines,
            "av_contrib_stream_last_seen_age_seconds"@,
            seq![id, state, ("stage"@, stage)],
            ValueView::Millis(age_ms->Some_0),
        );
    &&& counted("av_contrib_stream_input_bytes_total"@, stream.input_bytes)
    &&& counted("av_contrib_stream_mesh_bytes_total"@, stream.mesh_payload_bytes)
    &&& counted("av_contrib_stream_mesh_errors_total"@, stream.mesh_errors)
    &&& counted("av_contrib_stream_fmp4_parts_total"@, stream.fmp4_parts)
    &&& stream.latest_fmp4_sequence is Some ==> counted(
        "av_contrib_stream_latest_fmp4_sequence"@,
        stream.latest_fmp4_sequence->Some_0,
    )
    &&& seen("input"@, stream.last_input_age_ms)
    &&& seen("mesh_forward"@, stream.last_mesh_forward_age_ms)
    &&& seen("fmp4"@, stream.last_fmp4_age_ms)
}

proof fn a_stream_age_is_added(
    before: Seq<LineView>,
    id: (Seq<char>, Seq<char>),
    state: (Seq<char>, Seq<char>),
    stage: Seq<char>,
    age_ms: Option<u64>,
)
    ensures
        keeps(before, with_stream_age(before, id, state, stage, age_ms)),
        age_ms is Some ==> shows(
            with_stream_age(before, id, state, stage, age_ms),
            "av_contrib_stream_last_seen_age_seconds"@,
            seq![id, state, ("stage"@, stage)],
            ValueView::Millis(age_ms->Some_0),
        ),
{
    if age_ms is Some {
        let after = with_stream_age(before, id, state, stage, age_ms);
        a_line_is_added(before, after.last());
        assert(after =~= before.push(after.last()));
    }
}

proof fn a_stream_is_added(before: Seq<LineView>, stream: StreamSnapshotView)
    ensures
        keeps(before, with_one_stream(before, stream)),
        shows_stream(with_one_stream(before, stream), stream),
{
    let id = ("stream_id"@, escaped(stream.stream_id_text));
    let state = ("state"@, escaped(stream.state));
    let line0 = labelled_twice(
        "av_contrib_stream_input_bytes_total"@,
        id,
        state,
        ValueView::Count(stream.input_bytes),
    );
    let line1 = labelled_twice(
        "av_contrib_stream_mesh_bytes_total"@,
        id,
        state,
        ValueView::Count(stream.mesh_payload_bytes),
    );
    let line2 = labelled_twice(
        "av_contrib_stream_mesh_errors_total"@,
        id,
        state,
        ValueView::Count(stream.mesh_errors),
    );
    let line3 = labelled_twice(
        "av_contrib_stream_fmp4_parts_total"@,
        id,
        state,
        ValueView::Count(stream.fmp4_parts),
    );
    let l0 = before.push(line0);
    let l1 = l0.push(line1);
    let l2 = l1.push(line2);
    let l3 = l2.push(line3);
    a_line_is_added(before, line0);
    a_line_is_added(l0, line1);
    a_line_is_added(l1, line2);
    a_line_is_added(l2, line3);
    let l4 = match stream.latest_fmp4_sequence {
        Some(sequence) => l3.push(
            labelled_twice(
                "av_contrib_stream_latest_fmp4_sequence"@,
                id,
                state,
                ValueView::Count(sequence),
            ),
        ),
        None => l3,
    };
    if stream.latest_fmp4_sequence is Some {
        a_line_is_added(l3, l4.last());
        assert(l4 =~= l3.push(l4.last()));
    }
    let l5 = with_stream_age(l4, id, state, "input"@, stream.last_input_age_ms);
    let l6 = with_stream_age(l5, id, state, "mesh_forward"@, stream.last_mesh_forward_age_ms);
    a_stream_age_is_added(l4, id, state, "input"@, stream.last_input_age_ms);
    a_stream_age_is_added(l5, id, state, "mesh_forward"@, stream.last_mesh_forward_age_ms);
    a_stream_age_is_added(l6, id, state, "fmp4"@, stream.last_fmp4_age_ms);
}

proof fn what_is_kept_is_shown(
    before: Seq<LineView>,
    after: Seq<LineView>,
    stream: StreamSnapshotView,
)
    requires
        keeps(before, after),
        shows_stream(before, stream),
    ensures
        shows_stream(after, stream),
{
}

proof fn streams_are_added(before: Seq<LineView>, streams: Seq<StreamSnapshotView>)
    ensures
        keeps(before, with_streams(before, streams)),
        forall|i: int|
            0 <= i < streams.len() ==> shows_stream(
                with_streams(before, streams),
                #[trigger] streams[i],
            ),
    decreases streams.len(),
{
    if streams.len() > 0 {
        let older = streams.drop_last();
        let between = with_streams(before, older);
        streams_are_added(before, older);
        a_stream_is_added(between, streams.last());
        assert forall|i: int| 0 <= i < streams.len() implies shows_stream(
            with_streams(before, streams),
            #[trigger] streams[i],
        ) by {
            if i < older.len() {
                assert(older[i] == streams[i]);
                what_is_kept_is_shown(between, with_streams(before, streams), streams[i]);
            }
        }
    }
}

/// Whether lines show what is counted of a protocol.
pub open spec fn shows_protocol(lines: Seq<LineView>, protocol: ProtocolSnapshotView) -> bool {
    let name = ("protocol"@, escaped(protocol.protocol));
    &&& shows(
        lines,
        "av_contrib_protocol_units_total"@,
        seq![name],
        ValueView::Count(protocol.units),
    )
    &&& shows(
        lines,
        "av_contrib_protocol_bytes_total"@,
        seq![name],
        ValueView::Count(protocol.bytes),
    )
    &&& shows(
        lines,
        "av_contrib_protocol_sessions"@,
        seq![name, ("state"@, "active"@)],
        ValueView::Count(protocol.active_sessions as u64),
    )
    &&& shows(
        lines,
        "av_contrib_protocol_sessions"@,
        seq![name, ("state"@, "ended"@)],
        ValueView::Count(protocol.ended_sessions as u64),
    )
}

proof fn protocols_are_added(before: Seq<LineView>, protocols: Seq<ProtocolSnapshotView>)
    ensures
        keeps(before, with_protocols(before, protocols)),
        forall|i: int|
            0 <= i < protocols.len() ==> shows_protocol(
                with_protocols(before, protocols),
                #[trigger] protocols[i],
            ),
    decreases protocols.len(),
{
    if protocols.len() > 0 {
        let older = protocols.drop_last();
        let between = with_protocols(before, older);
        let after = with_protocols(before, protocols);
        protocols_are_added(before, older);
        let l3 = with_one_protocol(between, protocols.last());
        let l2 = l3.drop_last();
        let l1 = l2.drop_last();
        let l0 = l1.drop_last();
        a_line_is_added(between, l0.last());
        assert(l0 =~= between.push(l0.last()));
        a_line_is_added(l0, l1.last());
        assert(l1 =~= l0.push(l1.last()));
        a_line_is_added(l1, l2.last());
        assert(l2 =~= l1.push(l2.last()));
        a_line_is_added(l2, l3.last());
        assert(l3 =~= l2.push(l3.last()));
        assert(shows_protocol(after, protocols.last()));
        assert forall|i: int| 0 <= i < protocols.len() implies shows_protocol(
            after,
            #[trigger] protocols[i],
        ) by {
            if i < older.len() {
                assert(older[i] == protocols[i]);
                assert(shows_protocol(between, protocols[i]));
            }
        }
    }
}

proof fn audio_epoch_metrics_are_added(before: Seq<LineView>, queue: AudioQueueStats, worker: AudioEpochHlsWorkerStats)
    ensures
        keeps(before, with_audio_epoch_metrics(before, queue, worker)),
        shows(
            with_audio_epoch_metrics(before, queue, worker),
            "av_contrib_audio_epoch_hls_queue_capacity"@,
            Seq::empty(),
            ValueView::Count(queue.capacity),
        ),
        shows(
            with_audio_epoch_metrics(before, queue, worker),
            "av_contrib_audio_epoch_hls_queue_enqueued_total"@,
            Seq::empty(),
            ValueView::Count(queue.enqueued),
        ),
        shows(
            with_audio_epoch_metrics(before, queue, worker),
            "av_contrib_audio_epoch_hls_queue_dropped_total"@,
            Seq::empty(),
            ValueView::Count(queue.dropped),
        ),
        shows(
            with_audio_epoch_metrics(before, queue, worker),
            "av_contrib_audio_epoch_hls_queue_max_depth"@,
            Seq::empty(),
            ValueView::Count(queue.max_depth),
        ),
        shows(
            with_audio_epoch_metrics(before, queue, worker),
            "av_contrib_audio_epoch_hls_worker_datagrams_total"@,
            Seq::empty(),
            ValueView::Count(worker.datagrams),
        ),
        shows(
            with_audio_epoch_metrics(before, queue, worker),
            "av_contrib_audio_epoch_hls_groups_completed_total"@,
            Seq::empty(),
            ValueView::Count(worker.groups_completed),
        ),
        shows(
            with_audio_epoch_metrics(before, queue, worker),
            "av_contrib_audio_epoch_hls_raptorq_fragments_recovered_total"@,
            Seq::empty(),
            ValueView::Count(worker.raptorq_fragments_recovered),
        ),
        shows(
            with_audio_epoch_metrics(before, queue, worker),
            "av_contrib_audio_epoch_hls_worker_errors_total"@,
            Seq::empty(),
            ValueView::Count(worker.errors),
        ),
{
    a_number_is_added(before, "av_contrib_audio_epoch_hls_queue_capacity"@, "Configured capacity of the asynchronous lossless AEP1 to LL-HLS handoff."@, "gauge"@, queue.capacity);
    let l0 = with_number(before, "av_contrib_audio_epoch_hls_queue_capacity"@, "Configured capacity of the asynchronous lossless AEP1 to LL-HLS handoff."@, "gauge"@, queue.capacity);
    a_number_is_added(l0, "av_contrib_audio_epoch_hls_queue_enqueued_total"@, "AEP1 datagrams accepted by the asynchronous LL-HLS handoff."@, "counter"@, queue.enqueued);
    let l1 = with_number(l0, "av_contrib_audio_epoch_hls_queue_enqueued_total"@, "AEP1 datagrams accepted by the asynchronous LL-HLS handoff."@, "counter"@, queue.enqueued);
    a_number_is_added(l1, "av_contrib_audio_epoch_hls_queue_dropped_total"@, "AEP1 datagrams rejected by a full or closed LL-HLS handoff."@, "counter"@, queue.dropped);
    let l2 = with_number(l1, "av_contrib_audio_epoch_hls_queue_dropped_total"@, "AEP1 datagrams rejected by a full or closed LL-HLS handoff."@, "counter"@, queue.dropped);
    a_number_is_added(l2, "av_contrib_audio_epoch_hls_queue_max_depth"@, "Maximum observed AEP1 LL-HLS handoff depth since process start."@, "gauge"@, queue.max_depth);
    let l3 = with_number(l2, "av_contrib_audio_epoch_hls_queue_max_depth"@, "Maximum observed AEP1 LL-HLS handoff depth since process start."@, "gauge"@, queue.max_depth);
    a_number_is_added(l3, "av_contrib_audio_epoch_hls_worker_datagrams_total"@, "AEP1 datagrams processed by the asynchronous lossless LL-HLS worker."@, "counter"@, worker.datagrams);
    let l4 = with_number(l3, "av_contrib_audio_epoch_hls_worker_datagrams_total"@, "AEP1 datagrams processed by the asynchronous lossless LL-HLS worker."@, "counter"@, worker.datagrams);
    a_number_is_added(l4, "av_contrib_audio_epoch_hls_groups_completed_total"@, "Lossless AEP1 groups completed for LL-HLS packaging."@, "counter"@, worker.groups_completed);
    let l5 = with_number(l4, "av_contrib_audio_epoch_hls_groups_completed_total"@, "Lossless AEP1 groups completed for LL-HLS packaging."@, "counter"@, worker.groups_completed);
    a_number_is_added(l5, "av_contrib_audio_epoch_hls_raptorq_fragments_recovered_total"@, "Missing AEP1 source fragments recovered by RaptorQ before LL-HLS packaging."@, "counter"@, worker.raptorq_fragments_recovered);
    let l6 = with_number(l5, "av_contrib_audio_epoch_hls_raptorq_fragments_recovered_total"@, "Missing AEP1 source fragments recovered by RaptorQ before LL-HLS packaging."@, "counter"@, worker.raptorq_fragments_recovered);
    a_number_is_added(l6, "av_contrib_audio_epoch_hls_worker_errors_total"@, "AEP1 recovery or LL-HLS packaging errors in the asynchronous worker."@, "counter"@, worker.errors);
}

proof fn configuration_metrics_are_added(before: Seq<LineView>, status: StatusView)
    ensures
        keeps(before, with_configuration_metrics(before, status)),
        shows(
            with_configuration_metrics(before, status),
            "av_contrib_health"@,
            seq![("state"@, escaped(status.health.state))],
            ValueView::Count(1),
        ),
        shows(
            with_configuration_metrics(before, status),
            "av_contrib_llhls_part_target_seconds"@,
            Seq::empty(),
            ValueView::Millis(status.hls.part_target_ms as u64),
        ),
        shows(
            with_configuration_metrics(before, status),
            "av_contrib_relay_session_carrier_configured"@,
            seq![("path"@, "primary"@)],
            ValueView::Count(if status.mesh.relay_primary_configured {
                1u64
            } else {
                0u64
            }),
        ),
        shows(
            with_configuration_metrics(before, status),
            "av_contrib_relay_session_carrier_configured"@,
            seq![("path"@, "secondary"@)],
            ValueView::Count(if status.mesh.relay_secondary_configured {
                1u64
            } else {
                0u64
            }),
        ),
        shows(
            with_configuration_metrics(before, status),
            "av_contrib_relay_session_deadline_budget_seconds"@,
            Seq::empty(),
            ValueView::Millis(status.mesh.relay_deadline_ms),
        ),
        shows(
            with_configuration_metrics(before, status),
            "av_contrib_relay_session_path_observation_info"@,
            seq![("source"@, escaped(status.mesh.relay_path_observation_source))],
            ValueView::Count(1),
        ),
{
    a_line_is_added(before, header_line("av_contrib_health"@, "Current contributor service health state."@, "gauge"@));
    let l0 = before.push(header_line("av_contrib_health"@, "Current contributor service health state."@, "gauge"@));
    a_line_is_added(l0, labelled("av_contrib_health"@, ("state"@, escaped(status.health.state)), ValueView::Count(1)));
    let l1 = l0.push(labelled("av_contrib_health"@, ("state"@, escaped(status.health.state)), ValueView::Count(1)));
    a_line_is_added(l1, header_line("av_contrib_llhls_part_target_seconds"@, "Configured LL-HLS part target in seconds."@, "gauge"@));
    let l2 = l1.push(header_line("av_contrib_llhls_part_target_seconds"@, "Configured LL-HLS part target in seconds."@, "gauge"@));
    a_line_is_added(l2, plain("av_contrib_llhls_part_target_seconds"@, ValueView::Millis(status.hls.part_target_ms as u64)));
    let l3 = l2.push(plain("av_contrib_llhls_part_target_seconds"@, ValueView::Millis(status.hls.part_target_ms as u64)));
    a_line_is_added(l3, header_line("av_contrib_relay_session_carrier_configured"@, "Configured RelaySession live carriers by bounded parent path."@, "gauge"@));
    let l4 = l3.push(header_line("av_contrib_relay_session_carrier_configured"@, "Configured RelaySession live carriers by bounded parent path."@, "gauge"@));
    a_line_is_added(l4, labelled("av_contrib_relay_session_carrier_configured"@, ("path"@, "primary"@), ValueView::Count(flag_value(status.mesh.relay_primary_configured))));
    let l5 = l4.push(labelled("av_contrib_relay_session_carrier_configured"@, ("path"@, "primary"@), ValueView::Count(flag_value(status.mesh.relay_primary_configured))));
    a_line_is_added(l5, labelled("av_contrib_relay_session_carrier_configured"@, ("path"@, "secondary"@), ValueView::Count(flag_value(status.mesh.relay_secondary_configured))));
    let l6 = l5.push(labelled("av_contrib_relay_session_carrier_configured"@, ("path"@, "secondary"@), ValueView::Count(flag_value(status.mesh.relay_secondary_configured))));
    a_line_is_added(l6, header_line("av_contrib_relay_session_deadline_budget_seconds"@, "Configured canonical live-object and RelaySession delivery budget."@, "gauge"@));
    let l7 = l6.push(header_line("av_contrib_relay_session_deadline_budget_seconds"@, "Configured canonical live-object and RelaySession delivery budget."@, "gauge"@));
    a_line_is_added(l7, plain("av_contrib_relay_session_deadline_budget_seconds"@, ValueView::Millis(status.mesh.relay_deadline_ms)));
    let l8 = l7.push(plain("av_contrib_relay_session_deadline_budget_seconds"@, ValueView::Millis(status.mesh.relay_deadline_ms)));
    a_line_is_added(l8, header_line("av_contrib_relay_session_path_observation_info"@, "Origin of the path observation currently driving adaptive RaptorQ policy."@, "gauge"@));
    let l9 = l8.push(header_line("av_contrib_relay_session_path_observation_info"@, "Origin of the path observation currently driving adaptive RaptorQ policy."@, "gauge"@));
    a_line_is_added(l9, labelled("av_contrib_relay_session_path_observation_info"@, ("source"@, escaped(status.mesh.relay_path_observation_source)), ValueView::Count(1)));
}

proof fn path_metrics_are_added(before: Seq<LineView>, status: StatusView, routes: RouteTextsView)
    ensures
        keeps(before, with_path_metrics(before, status, routes)),
        shows(
            with_path_metrics(before, status, routes),
            "av_contrib_relay_session_path_loss_fraction"@,
            Seq::empty(),
            ValueView::Text(routes.path_loss),
        ),
        shows(
            with_path_metrics(before, status, routes),
            "av_contrib_relay_session_path_best_direct_rtt_seconds"@,
            Seq::empty(),
            ValueView::Text(routes.primary.best_direct_rtt),
        ),
        shows(
            with_path_metrics(before, status, routes),
            "av_contrib_relay_session_path_rtt_seconds"@,
            Seq::empty(),
            ValueView::Text(routes.primary.rtt),
        ),
        shows(
            with_path_metrics(before, status, routes),
            "av_contrib_relay_session_path_jitter_seconds"@,
            Seq::empty(),
            ValueView::Text(routes.primary.jitter),
        ),
        shows(
            with_path_metrics(before, status, routes),
            "av_contrib_relay_session_path_queue_delay_seconds"@,
            Seq::empty(),
            ValueView::Text(routes.primary.queue_delay),
        ),
        routes.primary.stretch is Some ==> shows(
            with_path_metrics(before, status, routes),
            "av_contrib_relay_session_path_stretch_ratio"@,
            Seq::empty(),
            ValueView::Text(routes.primary.stretch->Some_0),
        ),
        status.mesh.relay_path_observed_at_unix_ms is Some && status.mesh.relay_path_observed_at_unix_ms->Some_0 <= status.updated_unix_ms ==> shows(
            with_path_metrics(before, status, routes),
            "av_contrib_relay_session_path_observation_age_seconds"@,
            Seq::empty(),
            ValueView::Millis((status.updated_unix_ms - status.mesh.relay_path_observed_at_unix_ms->Some_0) as u64),
        ),
{
    a_line_is_added(before, header_line("av_contrib_relay_session_path_loss_fraction"@, "Observed selected-source-path loss fraction driving adaptive RaptorQ policy."@, "gauge"@));
    let l0 = before.push(header_line("av_contrib_relay_session_path_loss_fraction"@, "Observed selected-source-path loss fraction driving adaptive RaptorQ policy."@, "gauge"@));
    a_line_is_added(l0, plain("av_contrib_relay_session_path_loss_fraction"@, ValueView::Text(routes.path_loss)));
    let l1 = l0.push(plain("av_contrib_relay_session_path_loss_fraction"@, ValueView::Text(routes.path_loss)));
    a_line_is_added(l1, header_line("av_contrib_relay_session_path_best_direct_rtt_seconds"@, "Fastest measured direct origin-to-destination round-trip time used as the path-stretch baseline."@, "gauge"@));
    let l2 = l1.push(header_line("av_contrib_relay_session_path_best_direct_rtt_seconds"@, "Fastest measured direct origin-to-destination round-trip time used as the path-stretch baseline."@, "gauge"@));
    a_line_is_added(l2, plain("av_contrib_relay_session_path_best_direct_rtt_seconds"@, ValueView::Text(routes.primary.best_direct_rtt)));
    let l3 = l2.push(plain("av_contrib_relay_session_path_best_direct_rtt_seconds"@, ValueView::Text(routes.primary.best_direct_rtt)));
    a_line_is_added(l3, header_line("av_contrib_relay_session_path_rtt_seconds"@, "Observed selected-source-path round-trip time driving adaptive RaptorQ policy."@, "gauge"@));
    let l4 = l3.push(header_line("av_contrib_relay_session_path_rtt_seconds"@, "Observed selected-source-path round-trip time driving adaptive RaptorQ policy."@, "gauge"@));
    a_line_is_added(l4, plain("av_contrib_relay_session_path_rtt_seconds"@, ValueView::Text(routes.primary.rtt)));
    let l5 = l4.push(plain("av_contrib_relay_session_path_rtt_seconds"@, ValueView::Text(routes.primary.rtt)));
    a_line_is_added(l5, header_line("av_contrib_relay_session_path_jitter_seconds"@, "Observed selected-source-path jitter driving adaptive RaptorQ policy."@, "gauge"@));
    let l6 = l5.push(header_line("av_contrib_relay_session_path_jitter_seconds"@, "Observed selected-source-path jitter driving adaptive RaptorQ policy."@, "gauge"@));
    a_line_is_added(l6, plain("av_contrib_relay_session_path_jitter_seconds"@, ValueView::Text(routes.primary.jitter)));
    let l7 = l6.push(plain("av_contrib_relay_session_path_jitter_seconds"@, ValueView::Text(routes.primary.jitter)));
    a_line_is_added(l7, header_line("av_contrib_relay_session_path_queue_delay_seconds"@, "Observed selected-source-path queue delay driving adaptive RaptorQ policy."@, "gauge"@));
    let l8 = l7.push(header_line("av_contrib_relay_session_path_queue_delay_seconds"@, "Observed selected-source-path queue delay driving adaptive RaptorQ policy."@, "gauge"@));
    a_line_is_added(l8, plain("av_contrib_relay_session_path_queue_delay_seconds"@, ValueView::Text(routes.primary.queue_delay)));
    let l9 = l8.push(plain("av_contrib_relay_session_path_queue_delay_seconds"@, ValueView::Text(routes.primary.queue_delay)));
    a_stretch_is_added(l9, routes.primary.stretch);
    let l10 = with_path_stretch(l9, routes.primary.stretch);
    a_path_age_is_added(l10, status.mesh.relay_path_observed_at_unix_ms, status.updated_unix_ms);
}

proof fn route_metrics_are_added(before: Seq<LineView>, status: StatusView, routes: RouteTextsView)
    ensures
        keeps(before, with_route_metrics(before, status, routes)),
        shows_route(
            with_route_metrics(before, status, routes),
            "primary"@,
            status.mesh.relay_path_observation_source,
            routes.primary,
            status.mesh.relay_path_observed_at_unix_ms,
            status.updated_unix_ms,
        ),
        shows_route(
            with_route_metrics(before, status, routes),
            "secondary"@,
            status.mesh.relay_secondary_path_observation_source,
            routes.secondary,
            status.mesh.relay_secondary_path_observed_at_unix_ms,
            status.updated_unix_ms,
        ),
{
    a_line_is_added(before, header_line("av_contrib_relay_session_route_observation_info"@, "Controller observation source for each independent relay route."@, "gauge"@));
    let l0 = before.push(header_line("av_contrib_relay_session_route_observation_info"@, "Controller observation source for each independent relay route."@, "gauge"@));
    a_line_is_added(l0, header_line("av_contrib_relay_session_route_loss_fraction"@, "Observed loss fraction for each independent relay route."@, "gauge"@));
    let l1 = l0.push(header_line("av_contrib_relay_session_route_loss_fraction"@, "Observed loss fraction for each independent relay route."@, "gauge"@));
    a_line_is_added(l1, header_line("av_contrib_relay_session_route_rtt_seconds"@, "Observed end-to-end round-trip time for each independent relay route."@, "gauge"@));
    let l2 = l1.push(header_line("av_contrib_relay_session_route_rtt_seconds"@, "Observed end-to-end round-trip time for each independent relay route."@, "gauge"@));
    a_line_is_added(l2, header_line("av_contrib_relay_session_route_best_direct_rtt_seconds"@, "Fastest measured direct round-trip time used by each relay route."@, "gauge"@));
    let l3 = l2.push(header_line("av_contrib_relay_session_route_best_direct_rtt_seconds"@, "Fastest measured direct round-trip time used by each relay route."@, "gauge"@));
    a_line_is_added(l3, header_line("av_contrib_relay_session_route_jitter_seconds"@, "Observed jitter for each independent relay route."@, "gauge"@));
    let l4 = l3.push(header_line("av_contrib_relay_session_route_jitter_seconds"@, "Observed jitter for each independent relay route."@, "gauge"@));
    a_line_is_added(l4, header_line("av_contrib_relay_session_route_queue_delay_seconds"@, "Observed queue delay for each independent relay route."@, "gauge"@));
    let l5 = l4.push(header_line("av_contrib_relay_session_route_queue_delay_seconds"@, "Observed queue delay for each independent relay route."@, "gauge"@));
    a_line_is_added(l5, header_line("av_contrib_relay_session_route_stretch_ratio"@, "Relay-route RTT divided by the fastest measured direct RTT for each path."@, "gauge"@));
    let l6 = l5.push(header_line("av_contrib_relay_session_route_stretch_ratio"@, "Relay-route RTT divided by the fastest measured direct RTT for each path."@, "gauge"@));
    a_line_is_added(l6, header_line("av_contrib_relay_session_route_observation_age_seconds"@, "Wall-clock age of each independent controller route observation."@, "gauge"@));
    let l7 = l6.push(header_line("av_contrib_relay_session_route_observation_age_seconds"@, "Wall-clock age of each independent controller route observation."@, "gauge"@));
    a_route_is_added(l7, "primary"@, status.mesh.relay_path_observation_source, routes.primary, status.mesh.relay_path_observed_at_unix_ms, status.updated_unix_ms);
    let l8 = with_route(l7, "primary"@, status.mesh.relay_path_observation_source, routes.primary, age(status.updated_unix_ms, status.mesh.relay_path_observed_at_unix_ms));
    a_route_is_added(l8, "secondary"@, status.mesh.relay_secondary_path_observation_source, routes.secondary, status.mesh.relay_secondary_path_observed_at_unix_ms, status.updated_unix_ms);
}

proof fn clock_metrics_are_added(before: Seq<LineView>, status: StatusView)
    ensures
        keeps(before, with_clock_metrics(before, status)),
        shows(
            with_clock_metrics(before, status),
            "av_contrib_media_object_source_epoch"@,
            Seq::empty(),
            ValueView::Count(status.mesh.media_object_source_epoch),
        ),
        shows(
            with_clock_metrics(before, status),
            "av_contrib_media_object_clock_estimated_error_seconds"@,
            Seq::empty(),
            ValueView::Millis(status.mesh.media_object_clock_estimated_error_ms),
        ),
        status.runtime.relay_session.last_deadline_unix_us is Some ==> shows(
            with_clock_metrics(before, status),
            "av_contrib_relay_session_last_deadline_seconds"@,
            Seq::empty(),
            ValueView::Micros(status.runtime.relay_session.last_deadline_unix_us->Some_0),
        ),
        status.runtime.relay_session.last_deadline_headroom_us is Some ==> shows(
            with_clock_metrics(before, status),
            "av_contrib_relay_session_last_deadline_headroom_seconds"@,
            Seq::empty(),
            ValueView::Micros(status.runtime.relay_session.last_deadline_headroom_us->Some_0),
        ),
{
    a_number_is_added(before, "av_contrib_media_object_source_epoch"@, "Current canonical media-object source incarnation epoch."@, "gauge"@, status.mesh.media_object_source_epoch);
    let l0 = with_number(before, "av_contrib_media_object_source_epoch"@, "Current canonical media-object source incarnation epoch."@, "gauge"@, status.mesh.media_object_source_epoch);
    a_line_is_added(l0, header_line("av_contrib_media_object_clock_estimated_error_seconds"@, "Configured maximum error estimate for canonical media-object wall-clock timestamps."@, "gauge"@));
    let l1 = l0.push(header_line("av_contrib_media_object_clock_estimated_error_seconds"@, "Configured maximum error estimate for canonical media-object wall-clock timestamps."@, "gauge"@));
    a_line_is_added(l1, plain("av_contrib_media_object_clock_estimated_error_seconds"@, ValueView::Millis(status.mesh.media_object_clock_estimated_error_ms)));
    let l2 = l1.push(plain("av_contrib_media_object_clock_estimated_error_seconds"@, ValueView::Millis(status.mesh.media_object_clock_estimated_error_ms)));
    a_deadline_is_added(l2, status.runtime.relay_session.last_deadline_unix_us);
    let l3 = with_deadline(l2, status.runtime.relay_session.last_deadline_unix_us);
    a_headroom_is_added(l3, status.runtime.relay_session.last_deadline_headroom_us);
}

proof fn input_metrics_are_added(before: Seq<LineView>, status: StatusView)
    ensures
        keeps(before, with_input_metrics(before, status)),
        shows(
            with_input_metrics(before, status),
            "av_contrib_raw_http_requests_total"@,
            Seq::empty(),
            ValueView::Count(status.runtime.raw_http.requests),
        ),
        shows(
            with_input_metrics(before, status),
            "av_contrib_raw_http_bytes_total"@,
            Seq::empty(),
            ValueView::Count(status.runtime.raw_http.bytes),
        ),
        shows(
            with_input_metrics(before, status),
            "av_contrib_media_access_units_total"@,
            Seq::empty(),
            ValueView::Count(status.runtime.media_access_units.requests),
        ),
        shows(
            with_input_metrics(before, status),
            "av_contrib_media_access_unit_bytes_total"@,
            Seq::empty(),
            ValueView::Count(status.runtime.media_access_units.payload_bytes),
        ),
        shows(
            with_input_metrics(before, status),
            "av_contrib_mpeg_ts_slots_total"@,
            Seq::empty(),
            ValueView::Count(status.runtime.mpeg_ts.slots),
        ),
        shows(
            with_input_metrics(before, status),
            "av_contrib_mpeg_ts_bytes_total"@,
            Seq::empty(),
            ValueView::Count(status.runtime.mpeg_ts.bytes),
        ),
        shows(
            with_input_metrics(before, status),
            "av_contrib_mpeg_ts_continuity_errors_total"@,
            Seq::empty(),
            ValueView::Count(status.runtime.mpeg_ts.continuity_errors),
        ),
        shows(
            with_input_metrics(before, status),
            "av_contrib_mpeg_ts_dropped_bytes_total"@,
            Seq::empty(),
            ValueView::Count(cap_u64(status.runtime.mpeg_ts.continuity_dropped_bytes + status.runtime.mpeg_ts.payload_drop_bytes) as u64),
        ),
{
    a_number_is_added(before, "av_contrib_raw_http_requests_total"@, "Raw HTTP contributor ingest requests."@, "counter"@, status.runtime.raw_http.requests);
    let l0 = with_number(before, "av_contrib_raw_http_requests_total"@, "Raw HTTP contributor ingest requests."@, "counter"@, status.runtime.raw_http.requests);
    a_number_is_added(l0, "av_contrib_raw_http_bytes_total"@, "Raw HTTP contributor ingest payload bytes."@, "counter"@, status.runtime.raw_http.bytes);
    let l1 = with_number(l0, "av_contrib_raw_http_bytes_total"@, "Raw HTTP contributor ingest payload bytes."@, "counter"@, status.runtime.raw_http.bytes);
    a_number_is_added(l1, "av_contrib_media_access_units_total"@, "Media access units accepted by contributor ingest."@, "counter"@, status.runtime.media_access_units.requests);
    let l2 = with_number(l1, "av_contrib_media_access_units_total"@, "Media access units accepted by contributor ingest."@, "counter"@, status.runtime.media_access_units.requests);
    a_number_is_added(l2, "av_contrib_media_access_unit_bytes_total"@, "Media access-unit payload bytes accepted by contributor ingest."@, "counter"@, status.runtime.media_access_units.payload_bytes);
    let l3 = with_number(l2, "av_contrib_media_access_unit_bytes_total"@, "Media access-unit payload bytes accepted by contributor ingest."@, "counter"@, status.runtime.media_access_units.payload_bytes);
    a_number_is_added(l3, "av_contrib_mpeg_ts_slots_total"@, "MPEG-TS slots accepted from reliable ingest transports."@, "counter"@, status.runtime.mpeg_ts.slots);
    let l4 = with_number(l3, "av_contrib_mpeg_ts_slots_total"@, "MPEG-TS slots accepted from reliable ingest transports."@, "counter"@, status.runtime.mpeg_ts.slots);
    a_number_is_added(l4, "av_contrib_mpeg_ts_bytes_total"@, "MPEG-TS bytes accepted from reliable ingest transports."@, "counter"@, status.runtime.mpeg_ts.bytes);
    let l5 = with_number(l4, "av_contrib_mpeg_ts_bytes_total"@, "MPEG-TS bytes accepted from reliable ingest transports."@, "counter"@, status.runtime.mpeg_ts.bytes);
    a_number_is_added(l5, "av_contrib_mpeg_ts_continuity_errors_total"@, "MPEG-TS continuity errors detected at contributor ingest."@, "counter"@, status.runtime.mpeg_ts.continuity_errors);
    let l6 = with_number(l5, "av_contrib_mpeg_ts_continuity_errors_total"@, "MPEG-TS continuity errors detected at contributor ingest."@, "counter"@, status.runtime.mpeg_ts.continuity_errors);
    a_number_is_added(l6, "av_contrib_mpeg_ts_dropped_bytes_total"@, "MPEG-TS bytes dropped after continuity damage or oversized payloads."@, "counter"@, cap_u64(status.runtime.mpeg_ts.continuity_dropped_bytes + status.runtime.mpeg_ts.payload_drop_bytes) as u64);
}

proof fn output_metrics_are_added(before: Seq<LineView>, status: StatusView)
    ensures
        keeps(before, with_output_metrics(before, status)),
        shows(
            with_output_metrics(before, status),
            "av_contrib_rtmp_access_units_total"@,
            Seq::empty(),
            ValueView::Count(status.runtime.rtmp.access_units),
        ),
        shows(
            with_output_metrics(before, status),
            "av_contrib_rtmp_bytes_total"@,
            Seq::empty(),
            ValueView::Count(status.runtime.rtmp.bytes),
        ),
        shows(
            with_output_metrics(before, status),
            "av_contrib_fmp4_parts_total"@,
            Seq::empty(),
            ValueView::Count(status.runtime.fmp4.parts),
        ),
        shows(
            with_output_metrics(before, status),
            "av_contrib_fmp4_bytes_total"@,
            Seq::empty(),
            ValueView::Count(status.runtime.fmp4.bytes),
        ),
        shows(
            with_output_metrics(before, status),
            "av_contrib_fmp4_publish_errors_total"@,
            Seq::empty(),
            ValueView::Count(status.runtime.fmp4.publish_errors),
        ),
        shows(
            with_output_metrics(before, status),
            "av_contrib_hls_responses_total"@,
            Seq::empty(),
            ValueView::Count(status.runtime.hls.responses_total),
        ),
        shows(
            with_output_metrics(before, status),
            "av_contrib_hls_response_errors_total"@,
            Seq::empty(),
            ValueView::Count(status.runtime.hls.response_errors),
        ),
        shows(
            with_output_metrics(before, status),
            "av_contrib_hls_not_found_total"@,
            Seq::empty(),
            ValueView::Count(status.runtime.hls.response_not_found),
        ),
        shows(
            with_output_metrics(before, status),
            "av_contrib_ingest_sessions"@,
            seq![("state"@, "active"@)],
            ValueView::Count(status.runtime.ingest_sessions.active as u64),
        ),
        shows(
            with_output_metrics(before, status),
            "av_contrib_ingest_sessions"@,
            seq![("state"@, "ended"@)],
            ValueView::Count(status.runtime.ingest_sessions.ended),
        ),
{
    a_number_is_added(before, "av_contrib_rtmp_access_units_total"@, "RTMP access units accepted by contributor ingest."@, "counter"@, status.runtime.rtmp.access_units);
    let l0 = with_number(before, "av_contrib_rtmp_access_units_total"@, "RTMP access units accepted by contributor ingest."@, "counter"@, status.runtime.rtmp.access_units);
    a_number_is_added(l0, "av_contrib_rtmp_bytes_total"@, "RTMP access-unit bytes accepted by contributor ingest."@, "counter"@, status.runtime.rtmp.bytes);
    let l1 = with_number(l0, "av_contrib_rtmp_bytes_total"@, "RTMP access-unit bytes accepted by contributor ingest."@, "counter"@, status.runtime.rtmp.bytes);
    a_number_is_added(l1, "av_contrib_fmp4_parts_total"@, "CMAF/fMP4 parts published by contributor ingest."@, "counter"@, status.runtime.fmp4.parts);
    let l2 = with_number(l1, "av_contrib_fmp4_parts_total"@, "CMAF/fMP4 parts published by contributor ingest."@, "counter"@, status.runtime.fmp4.parts);
    a_number_is_added(l2, "av_contrib_fmp4_bytes_total"@, "CMAF/fMP4 media bytes published by contributor ingest."@, "counter"@, status.runtime.fmp4.bytes);
    let l3 = with_number(l2, "av_contrib_fmp4_bytes_total"@, "CMAF/fMP4 media bytes published by contributor ingest."@, "counter"@, status.runtime.fmp4.bytes);
    a_number_is_added(l3, "av_contrib_fmp4_publish_errors_total"@, "CMAF/fMP4 publish failures."@, "counter"@, status.runtime.fmp4.publish_errors);
    let l4 = with_number(l3, "av_contrib_fmp4_publish_errors_total"@, "CMAF/fMP4 publish failures."@, "counter"@, status.runtime.fmp4.publish_errors);
    a_number_is_added(l4, "av_contrib_hls_responses_total"@, "Contributor LL-HLS responses."@, "counter"@, status.runtime.hls.responses_total);
    let l5 = with_number(l4, "av_contrib_hls_responses_total"@, "Contributor LL-HLS responses."@, "counter"@, status.runtime.hls.responses_total);
    a_number_is_added(l5, "av_contrib_hls_response_errors_total"@, "Contributor LL-HLS non-success responses."@, "counter"@, status.runtime.hls.response_errors);
    let l6 = with_number(l5, "av_contrib_hls_response_errors_total"@, "Contributor LL-HLS non-success responses."@, "counter"@, status.runtime.hls.response_errors);
    a_number_is_added(l6, "av_contrib_hls_not_found_total"@, "Contributor LL-HLS not-found responses."@, "counter"@, status.runtime.hls.response_not_found);
    let l7 = with_number(l6, "av_contrib_hls_not_found_total"@, "Contributor LL-HLS not-found responses."@, "counter"@, status.runtime.hls.response_not_found);
    a_line_is_added(l7, header_line("av_contrib_ingest_sessions"@, "Contributor ingest sessions by lifecycle state."@, "gauge"@));
    let l8 = l7.push(header_line("av_contrib_ingest_sessions"@, "Contributor ingest sessions by lifecycle state."@, "gauge"@));
    a_line_is_added(l8, labelled("av_contrib_ingest_sessions"@, ("state"@, "active"@), ValueView::Count(status.runtime.ingest_sessions.active as u64)));
    let l9 = l8.push(labelled("av_contrib_ingest_sessions"@, ("state"@, "active"@), ValueView::Count(status.runtime.ingest_sessions.active as u64)));
    a_line_is_added(l9, labelled("av_contrib_ingest_sessions"@, ("state"@, "ended"@), ValueView::Count(status.runtime.ingest_sessions.ended)));
}

proof fn mesh_metrics_are_added(before: Seq<LineView>, status: StatusView)
    ensures
        keeps(before, with_mesh_metrics(before, status)),
        shows(
            with_mesh_metrics(before, status),
            "av_contrib_mesh_forward_payloads_total"@,
            seq![("kind"@, "stream"@)],
            ValueView::Count(status.runtime.mesh_forward.stream_payloads),
        ),
        shows(
            with_mesh_metrics(before, status),
            "av_contrib_mesh_forward_payload_bytes_total"@,
            seq![("kind"@, "stream"@)],
            ValueView::Count(status.runtime.mesh_forward.stream_payload_bytes),
        ),
        shows(
            with_mesh_metrics(before, status),
            "av_contrib_mesh_forward_datagrams_total"@,
            seq![("kind"@, "stream"@)],
            ValueView::Count(status.runtime.mesh_forward.stream_datagrams),
        ),
        shows(
            with_mesh_metrics(before, status),
            "av_contrib_mesh_forward_datagram_bytes_total"@,
            seq![("kind"@, "stream"@)],
            ValueView::Count(status.runtime.mesh_forward.stream_datagram_bytes),
        ),
        shows(
            with_mesh_metrics(before, status),
            "av_contrib_mesh_forward_errors_total"@,
            seq![("kind"@, "stream"@)],
            ValueView::Count(status.runtime.mesh_forward.stream_errors),
        ),
        shows(
            with_mesh_metrics(before, status),
            "av_contrib_mesh_forward_payloads_total"@,
            seq![("kind"@, "media"@)],
            ValueView::Count(status.runtime.mesh_forward.media_payloads),
        ),
        shows(
            with_mesh_metrics(before, status),
            "av_contrib_mesh_forward_payload_bytes_total"@,
            seq![("kind"@, "media"@)],
            ValueView::Count(status.runtime.mesh_forward.media_payload_bytes),
        ),
        shows(
            with_mesh_metrics(before, status),
            "av_contrib_mesh_forward_datagrams_total"@,
            seq![("kind"@, "media"@)],
            ValueView::Count(status.runtime.mesh_forward.media_datagrams),
        ),
        shows(
            with_mesh_metrics(before, status),
            "av_contrib_mesh_forward_datagram_bytes_total"@,
            seq![("kind"@, "media"@)],
            ValueView::Count(status.runtime.mesh_forward.media_datagram_bytes),
        ),
        shows(
            with_mesh_metrics(before, status),
            "av_contrib_mesh_forward_errors_total"@,
            seq![("kind"@, "media"@)],
            ValueView::Count(status.runtime.mesh_forward.media_errors),
        ),
{
    a_line_is_added(before, header_line("av_contrib_mesh_forward_payloads_total"@, "Payloads forwarded from contributor ingest to the mesh."@, "counter"@));
    let l0 = before.push(header_line("av_contrib_mesh_forward_payloads_total"@, "Payloads forwarded from contributor ingest to the mesh."@, "counter"@));
    a_line_is_added(l0, labelled("av_contrib_mesh_forward_payloads_total"@, ("kind"@, "stream"@), ValueView::Count(status.runtime.mesh_forward.stream_payloads)));
    let l1 = l0.push(labelled("av_contrib_mesh_forward_payloads_total"@, ("kind"@, "stream"@), ValueView::Count(status.runtime.mesh_forward.stream_payloads)));
    a_line_is_added(l1, header_line("av_contrib_mesh_forward_payload_bytes_total"@, "Payload bytes forwarded from contributor ingest to the mesh."@, "counter"@));
    let l2 = l1.push(header_line("av_contrib_mesh_forward_payload_bytes_total"@, "Payload bytes forwarded from contributor ingest to the mesh."@, "counter"@));
    a_line_is_added(l2, labelled("av_contrib_mesh_forward_payload_bytes_total"@, ("kind"@, "stream"@), ValueView::Count(status.runtime.mesh_forward.stream_payload_bytes)));
    let l3 = l2.push(labelled("av_contrib_mesh_forward_payload_bytes_total"@, ("kind"@, "stream"@), ValueView::Count(status.runtime.mesh_forward.stream_payload_bytes)));
    a_line_is_added(l3, header_line("av_contrib_mesh_forward_datagrams_total"@, "FEC datagrams forwarded from contributor ingest to the mesh."@, "counter"@));
    let l4 = l3.push(header_line("av_contrib_mesh_forward_datagrams_total"@, "FEC datagrams forwarded from contributor ingest to the mesh."@, "counter"@));
    a_line_is_added(l4, labelled("av_contrib_mesh_forward_datagrams_total"@, ("kind"@, "stream"@), ValueView::Count(status.runtime.mesh_forward.stream_datagrams)));
    let l5 = l4.push(labelled("av_contrib_mesh_forward_datagrams_total"@, ("kind"@, "stream"@), ValueView::Count(status.runtime.mesh_forward.stream_datagrams)));
    a_line_is_added(l5, header_line("av_contrib_mesh_forward_datagram_bytes_total"@, "FEC datagram bytes forwarded from contributor ingest to the mesh."@, "counter"@));
    let l6 = l5.push(header_line("av_contrib_mesh_forward_datagram_bytes_total"@, "FEC datagram bytes forwarded from contributor ingest to the mesh."@, "counter"@));
    a_line_is_added(l6, labelled("av_contrib_mesh_forward_datagram_bytes_total"@, ("kind"@, "stream"@), ValueView::Count(status.runtime.mesh_forward.stream_datagram_bytes)));
    let l7 = l6.push(labelled("av_contrib_mesh_forward_datagram_bytes_total"@, ("kind"@, "stream"@), ValueView::Count(status.runtime.mesh_forward.stream_datagram_bytes)));
    a_line_is_added(l7, header_line("av_contrib_mesh_forward_errors_total"@, "Contributor-to-mesh forwarding failures."@, "counter"@));
    let l8 = l7.push(header_line("av_contrib_mesh_forward_errors_total"@, "Contributor-to-mesh forwarding failures."@, "counter"@));
    a_line_is_added(l8, labelled("av_contrib_mesh_forward_errors_total"@, ("kind"@, "stream"@), ValueView::Count(status.runtime.mesh_forward.stream_errors)));
    let l9 = l8.push(labelled("av_contrib_mesh_forward_errors_total"@, ("kind"@, "stream"@), ValueView::Count(status.runtime.mesh_forward.stream_errors)));
    a_line_is_added(l9, labelled("av_contrib_mesh_forward_payloads_total"@, ("kind"@, "media"@), ValueView::Count(status.runtime.mesh_forward.media_payloads)));
    let l10 = l9.push(labelled("av_contrib_mesh_forward_payloads_total"@, ("kind"@, "media"@), ValueView::Count(status.runtime.mesh_forward.media_payloads)));
    a_line_is_added(l10, labelled("av_contrib_mesh_forward_payload_bytes_total"@, ("kind"@, "media"@), ValueView::Count(status.runtime.mesh_forward.media_payload_bytes)));
    let l11 = l10.push(labelled("av_contrib_mesh_forward_payload_bytes_total"@, ("kind"@, "media"@), ValueView::Count(status.runtime.mesh_forward.media_payload_bytes)));
    a_line_is_added(l11, labelled("av_contrib_mesh_forward_datagrams_total"@, ("kind"@, "media"@), ValueView::Count(status.runtime.mesh_forward.media_datagrams)));
    let l12 = l11.push(labelled("av_contrib_mesh_forward_datagrams_total"@, ("kind"@, "media"@), ValueView::Count(status.runtime.mesh_forward.media_datagrams)));
    a_line_is_added(l12, labelled("av_contrib_mesh_forward_datagram_bytes_total"@, ("kind"@, "media"@), ValueView::Count(status.runtime.mesh_forward.media_datagram_bytes)));
    let l13 = l12.push(labelled("av_contrib_mesh_forward_datagram_bytes_total"@, ("kind"@, "media"@), ValueView::Count(status.runtime.mesh_forward.media_datagram_bytes)));
    a_line_is_added(l13, labelled("av_contrib_mesh_forward_errors_total"@, ("kind"@, "media"@), ValueView::Count(status.runtime.mesh_forward.media_errors)));
}

proof fn relay_metrics_are_added(before: Seq<LineView>, status: StatusView)
    ensures
        keeps(before, with_relay_metrics(before, status)),
        shows(
            with_relay_metrics(before, status),
            "av_contrib_relay_session_objects_total"@,
            Seq::empty(),
            ValueView::Count(status.runtime.relay_session.objects_sent),
        ),
        shows(
            with_relay_metrics(before, status),
            "av_contrib_relay_session_encode_errors_total"@,
            Seq::empty(),
            ValueView::Count(status.runtime.relay_session.encode_errors),
        ),
        shows(
            with_relay_metrics(before, status),
            "av_contrib_relay_session_repair_primary_fallback_objects_total"@,
            Seq::empty(),
            ValueView::Count(status.runtime.relay_session.repair_primary_fallback_objects),
        ),
        shows(
            with_relay_metrics(before, status),
            "av_contrib_relay_session_datagrams_total"@,
            seq![("role"@, "source"@)],
            ValueView::Count(status.runtime.relay_session.source_datagrams),
        ),
        shows(
            with_relay_metrics(before, status),
            "av_contrib_relay_session_datagram_bytes_total"@,
            seq![("role"@, "source"@)],
            ValueView::Count(status.runtime.relay_session.source_datagram_bytes),
        ),
        shows(
            with_relay_metrics(before, status),
            "av_contrib_relay_session_send_errors_total"@,
            seq![("role"@, "source"@)],
            ValueView::Count(status.runtime.relay_session.source_errors),
        ),
        shows(
            with_relay_metrics(before, status),
            "av_contrib_relay_session_datagrams_total"@,
            seq![("role"@, "repair"@)],
            ValueView::Count(status.runtime.relay_session.repair_datagrams),
        ),
        shows(
            with_relay_metrics(before, status),
            "av_contrib_relay_session_datagram_bytes_total"@,
            seq![("role"@, "repair"@)],
            ValueView::Count(status.runtime.relay_session.repair_datagram_bytes),
        ),
        shows(
            with_relay_metrics(before, status),
            "av_contrib_relay_session_send_errors_total"@,
            seq![("role"@, "repair"@)],
            ValueView::Count(status.runtime.relay_session.repair_errors),
        ),
{
    a_number_is_added(before, "av_contrib_relay_session_objects_total"@, "Canonical media objects emitted through RelaySession."@, "counter"@, status.runtime.relay_session.objects_sent);
    let l0 = with_number(before, "av_contrib_relay_session_objects_total"@, "Canonical media objects emitted through RelaySession."@, "counter"@, status.runtime.relay_session.objects_sent);
    a_number_is_added(l0, "av_contrib_relay_session_encode_errors_total"@, "Canonical media objects rejected during RelaySession RaptorQ encoding."@, "counter"@, status.runtime.relay_session.encode_errors);
    let l1 = with_number(l0, "av_contrib_relay_session_encode_errors_total"@, "Canonical media objects rejected during RelaySession RaptorQ encoding."@, "counter"@, status.runtime.relay_session.encode_errors);
    a_number_is_added(l1, "av_contrib_relay_session_repair_primary_fallback_objects_total"@, "RelaySession objects whose repair symbols used the primary carrier fallback."@, "counter"@, status.runtime.relay_session.repair_primary_fallback_objects);
    let l2 = with_number(l1, "av_contrib_relay_session_repair_primary_fallback_objects_total"@, "RelaySession objects whose repair symbols used the primary carrier fallback."@, "counter"@, status.runtime.relay_session.repair_primary_fallback_objects);
    a_line_is_added(l2, header_line("av_contrib_relay_session_datagrams_total"@, "RelaySession datagrams sent by bounded symbol role."@, "counter"@));
    let l3 = l2.push(header_line("av_contrib_relay_session_datagrams_total"@, "RelaySession datagrams sent by bounded symbol role."@, "counter"@));
    a_line_is_added(l3, labelled("av_contrib_relay_session_datagrams_total"@, ("role"@, "source"@), ValueView::Count(status.runtime.relay_session.source_datagrams)));
    let l4 = l3.push(labelled("av_contrib_relay_session_datagrams_total"@, ("role"@, "source"@), ValueView::Count(status.runtime.relay_session.source_datagrams)));
    a_line_is_added(l4, header_line("av_contrib_relay_session_datagram_bytes_total"@, "RelaySession wire bytes sent by bounded symbol role."@, "counter"@));
    let l5 = l4.push(header_line("av_contrib_relay_session_datagram_bytes_total"@, "RelaySession wire bytes sent by bounded symbol role."@, "counter"@));
    a_line_is_added(l5, labelled("av_contrib_relay_session_datagram_bytes_total"@, ("role"@, "source"@), ValueView::Count(status.runtime.relay_session.source_datagram_bytes)));
    let l6 = l5.push(labelled("av_contrib_relay_session_datagram_bytes_total"@, ("role"@, "source"@), ValueView::Count(status.runtime.relay_session.source_datagram_bytes)));
    a_line_is_added(l6, header_line("av_contrib_relay_session_send_errors_total"@, "RelaySession send failures by bounded symbol role."@, "counter"@));
    let l7 = l6.push(header_line("av_contrib_relay_session_send_errors_total"@, "RelaySession send failures by bounded symbol role."@, "counter"@));
    a_line_is_added(l7, labelled("av_contrib_relay_session_send_errors_total"@, ("role"@, "source"@), ValueView::Count(status.runtime.relay_session.source_errors)));
    let l8 = l7.push(labelled("av_contrib_relay_session_send_errors_total"@, ("role"@, "source"@), ValueView::Count(status.runtime.relay_session.source_errors)));
    a_line_is_added(l8, labelled("av_contrib_relay_session_datagrams_total"@, ("role"@, "repair"@), ValueView::Count(status.runtime.relay_session.repair_datagrams)));
    let l9 = l8.push(labelled("av_contrib_relay_session_datagrams_total"@, ("role"@, "repair"@), ValueView::Count(status.runtime.relay_session.repair_datagrams)));
    a_line_is_added(l9, labelled("av_contrib_relay_session_datagram_bytes_total"@, ("role"@, "repair"@), ValueView::Count(status.runtime.relay_session.repair_datagram_bytes)));
    let l10 = l9.push(labelled("av_contrib_relay_session_datagram_bytes_total"@, ("role"@, "repair"@), ValueView::Count(status.runtime.relay_session.repair_datagram_bytes)));
    a_line_is_added(l10, labelled("av_contrib_relay_session_send_errors_total"@, ("role"@, "repair"@), ValueView::Count(status.runtime.relay_session.repair_errors)));
}

proof fn lane_metrics_are_added(before: Seq<LineView>, status: StatusView)
    ensures
        keeps(before, with_lane_metrics(before, status)),
        shows(
            with_lane_metrics(before, status),
            "av_contrib_relay_session_lane_objects_total"@,
            seq![("path"@, "primary"@), ("outcome"@, "success"@)],
            ValueView::Count(status.runtime.relay_session.primary_lane_objects_succeeded),
        ),
        shows(
            with_lane_metrics(before, status),
            "av_contrib_relay_session_lane_objects_total"@,
            seq![("path"@, "primary"@), ("outcome"@, "failure"@)],
            ValueView::Count(status.runtime.relay_session.primary_lane_objects_failed),
        ),
        shows(
            with_lane_metrics(before, status),
            "av_contrib_relay_session_lane_objects_total"@,
            seq![("path"@, "secondary"@), ("outcome"@, "success"@)],
            ValueView::Count(status.runtime.relay_session.secondary_lane_objects_succeeded),
        ),
        shows(
            with_lane_metrics(before, status),
            "av_contrib_relay_session_lane_objects_total"@,
            seq![("path"@, "secondary"@), ("outcome"@, "failure"@)],
            ValueView::Count(status.runtime.relay_session.secondary_lane_objects_failed),
        ),
        shows(
            with_lane_metrics(before, status),
            "av_contrib_relay_session_lane_health"@,
            seq![("path"@, "primary"@), ("state"@, "unknown"@)],
            ValueView::Count(if status.runtime.relay_session.primary_lane_state == "unknown"@ {
                1u64
            } else {
                0u64
            }),
        ),
        shows(
            with_lane_metrics(before, status),
            "av_contrib_relay_session_lane_health"@,
            seq![("path"@, "primary"@), ("state"@, "healthy"@)],
            ValueView::Count(if status.runtime.relay_session.primary_lane_state == "healthy"@ {
                1u64
            } else {
                0u64
            }),
        ),
        shows(
            with_lane_metrics(before, status),
            "av_contrib_relay_session_lane_health"@,
            seq![("path"@, "primary"@), ("state"@, "impaired"@)],
            ValueView::Count(if status.runtime.relay_session.primary_lane_state == "impaired"@ {
                1u64
            } else {
                0u64
            }),
        ),
        shows(
            with_lane_metrics(before, status),
            "av_contrib_relay_session_lane_health"@,
            seq![("path"@, "secondary"@), ("state"@, "unknown"@)],
            ValueView::Count(if status.runtime.relay_session.secondary_lane_state == "unknown"@ {
                1u64
            } else {
                0u64
            }),
        ),
        shows(
            with_lane_metrics(before, status),
            "av_contrib_relay_session_lane_health"@,
            seq![("path"@, "secondary"@), ("state"@, "healthy"@)],
            ValueView::Count(if status.runtime.relay_session.secondary_lane_state == "healthy"@ {
                1u64
            } else {
                0u64
            }),
        ),
        shows(
            with_lane_metrics(before, status),
            "av_contrib_relay_session_lane_health"@,
            seq![("path"@, "secondary"@), ("state"@, "impaired"@)],
            ValueView::Count(if status.runtime.relay_session.secondary_lane_state == "impaired"@ {
                1u64
            } else {
                0u64
            }),
        ),
        shows(
            with_lane_metrics(before, status),
            "av_contrib_relay_session_surviving_lane_objects_total"@,
            Seq::empty(),
            ValueView::Count(status.runtime.relay_session.surviving_lane_objects),
        ),
        shows(
            with_lane_metrics(before, status),
            "av_contrib_relay_session_all_lanes_failed_objects_total"@,
            Seq::empty(),
            ValueView::Count(status.runtime.relay_session.all_lanes_failed_objects),
        ),
{
    a_line_is_added(before, header_line("av_contrib_relay_session_lane_objects_total"@, "Canonical RelaySession objects by carrier lane and send outcome."@, "counter"@));
    let l0 = before.push(header_line("av_contrib_relay_session_lane_objects_total"@, "Canonical RelaySession objects by carrier lane and send outcome."@, "counter"@));
    a_line_is_added(l0, labelled_twice("av_contrib_relay_session_lane_objects_total"@, ("path"@, "primary"@), ("outcome"@, "success"@), ValueView::Count(status.runtime.relay_session.primary_lane_objects_succeeded)));
    let l1 = l0.push(labelled_twice("av_contrib_relay_session_lane_objects_total"@, ("path"@, "primary"@), ("outcome"@, "success"@), ValueView::Count(status.runtime.relay_session.primary_lane_objects_succeeded)));
    a_line_is_added(l1, labelled_twice("av_contrib_relay_session_lane_objects_total"@, ("path"@, "primary"@), ("outcome"@, "failure"@), ValueView::Count(status.runtime.relay_session.primary_lane_objects_failed)));
    let l2 = l1.push(labelled_twice("av_contrib_relay_session_lane_objects_total"@, ("path"@, "primary"@), ("outcome"@, "failure"@), ValueView::Count(status.runtime.relay_session.primary_lane_objects_failed)));
    a_line_is_added(l2, labelled_twice("av_contrib_relay_session_lane_objects_total"@, ("path"@, "secondary"@), ("outcome"@, "success"@), ValueView::Count(status.runtime.relay_session.secondary_lane_objects_succeeded)));
    let l3 = l2.push(labelled_twice("av_contrib_relay_session_lane_objects_total"@, ("path"@, "secondary"@), ("outcome"@, "success"@), ValueView::Count(status.runtime.relay_session.secondary_lane_objects_succeeded)));
    a_line_is_added(l3, labelled_twice("av_contrib_relay_session_lane_objects_total"@, ("path"@, "secondary"@), ("outcome"@, "failure"@), ValueView::Count(status.runtime.relay_session.secondary_lane_objects_failed)));
    let l4 = l3.push(labelled_twice("av_contrib_relay_session_lane_objects_total"@, ("path"@, "secondary"@), ("outcome"@, "failure"@), ValueView::Count(status.runtime.relay_session.secondary_lane_objects_failed)));
    a_line_is_added(l4, header_line("av_contrib_relay_session_lane_health"@, "Current RelaySession carrier-lane health as a one-hot gauge."@, "gauge"@));
    let l5 = l4.push(header_line("av_contrib_relay_session_lane_health"@, "Current RelaySession carrier-lane health as a one-hot gauge."@, "gauge"@));
    a_line_is_added(l5, labelled_twice("av_contrib_relay_session_lane_health"@, ("path"@, "primary"@), ("state"@, "unknown"@), ValueView::Count(flag_value(status.runtime.relay_session.primary_lane_state == "unknown"@))));
    let l6 = l5.push(labelled_twice("av_contrib_relay_session_lane_health"@, ("path"@, "primary"@), ("state"@, "unknown"@), ValueView::Count(flag_value(status.runtime.relay_session.primary_lane_state == "unknown"@))));
    a_line_is_added(l6, labelled_twice("av_contrib_relay_session_lane_health"@, ("path"@, "primary"@), ("state"@, "healthy"@), ValueView::Count(flag_value(status.runtime.relay_session.primary_lane_state == "healthy"@))));
    let l7 = l6.push(labelled_twice("av_contrib_relay_session_lane_health"@, ("path"@, "primary"@), ("state"@, "healthy"@), ValueView::Count(flag_value(status.runtime.relay_session.primary_lane_state == "healthy"@))));
    a_line_is_added(l7, labelled_twice("av_contrib_relay_session_lane_health"@, ("path"@, "primary"@), ("state"@, "impaired"@), ValueView::Count(flag_value(status.runtime.relay_session.primary_lane_state == "impaired"@))));
    let l8 = l7.push(labelled_twice("av_contrib_relay_session_lane_health"@, ("path"@, "primary"@), ("state"@, "impaired"@), ValueView::Count(flag_value(status.runtime.relay_session.primary_lane_state == "impaired"@))));
    a_line_is_added(l8, labelled_twice("av_contrib_relay_session_lane_health"@, ("path"@, "secondary"@), ("state"@, "unknown"@), ValueView::Count(flag_value(status.runtime.relay_session.secondary_lane_state == "unknown"@))));
    let l9 = l8.push(labelled_twice("av_contrib_relay_session_lane_health"@, ("path"@, "secondary"@), ("state"@, "unknown"@), ValueView::Count(flag_value(status.runtime.relay_session.secondary_lane_state == "unknown"@))));
    a_line_is_added(l9, labelled_twice("av_contrib_relay_session_lane_health"@, ("path"@, "secondary"@), ("state"@, "healthy"@), ValueView::Count(flag_value(status.runtime.relay_session.secondary_lane_state == "healthy"@))));
    let l10 = l9.push(labelled_twice("av_contrib_relay_session_lane_health"@, ("path"@, "secondary"@), ("state"@, "healthy"@), ValueView::Count(flag_value(status.runtime.relay_session.secondary_lane_state == "healthy"@))));
    a_line_is_added(l10, labelled_twice("av_contrib_relay_session_lane_health"@, ("path"@, "secondary"@), ("state"@, "impaired"@), ValueView::Count(flag_value(status.runtime.relay_session.secondary_lane_state == "impaired"@))));
    let l11 = l10.push(labelled_twice("av_contrib_relay_session_lane_health"@, ("path"@, "secondary"@), ("state"@, "impaired"@), ValueView::Count(flag_value(status.runtime.relay_session.secondary_lane_state == "impaired"@))));
    a_number_is_added(l11, "av_contrib_relay_session_surviving_lane_objects_total"@, "Canonical objects emitted before deadline while another configured lane failed."@, "counter"@, status.runtime.relay_session.surviving_lane_objects);
    let l12 = with_number(l11, "av_contrib_relay_session_surviving_lane_objects_total"@, "Canonical objects emitted before deadline while another configured lane failed."@, "counter"@, status.runtime.relay_session.surviving_lane_objects);
    a_number_is_added(l12, "av_contrib_relay_session_all_lanes_failed_objects_total"@, "Canonical objects for which every complete configured RelaySession lane failed."@, "counter"@, status.runtime.relay_session.all_lanes_failed_objects);
}

proof fn deadline_metrics_are_added(before: Seq<LineView>, status: StatusView)
    ensures
        keeps(before, with_deadline_metrics(before, status)),
        shows(
            with_deadline_metrics(before, status),
            "av_contrib_relay_session_deadline_objects_total"@,
            seq![("outcome"@, "hit"@)],
            ValueView::Count(status.runtime.relay_session.deadline_hits),
        ),
        shows(
            with_deadline_metrics(before, status),
            "av_contrib_relay_session_deadline_objects_total"@,
            seq![("outcome"@, "miss"@)],
            ValueView::Count(status.runtime.relay_session.deadline_misses),
        ),
        shows(
            with_deadline_metrics(before, status),
            "av_contrib_relay_session_expired_objects_total"@,
            Seq::empty(),
            ValueView::Count(status.runtime.relay_session.expired_objects),
        ),
        shows(
            with_deadline_metrics(before, status),
            "av_contrib_relay_session_expired_symbols_total"@,
            Seq::empty(),
            ValueView::Count(status.runtime.relay_session.expired_symbols),
        ),
{
    a_line_is_added(before, header_line("av_contrib_relay_session_deadline_objects_total"@, "Canonical RelaySession objects by sender deadline outcome."@, "counter"@));
    let l0 = before.push(header_line("av_contrib_relay_session_deadline_objects_total"@, "Canonical RelaySession objects by sender deadline outcome."@, "counter"@));
    a_line_is_added(l0, labelled("av_contrib_relay_session_deadline_objects_total"@, ("outcome"@, "hit"@), ValueView::Count(status.runtime.relay_session.deadline_hits)));
    let l1 = l0.push(labelled("av_contrib_relay_session_deadline_objects_total"@, ("outcome"@, "hit"@), ValueView::Count(status.runtime.relay_session.deadline_hits)));
    a_line_is_added(l1, labelled("av_contrib_relay_session_deadline_objects_total"@, ("outcome"@, "miss"@), ValueView::Count(status.runtime.relay_session.deadline_misses)));
    let l2 = l1.push(labelled("av_contrib_relay_session_deadline_objects_total"@, ("outcome"@, "miss"@), ValueView::Count(status.runtime.relay_session.deadline_misses)));
    a_number_is_added(l2, "av_contrib_relay_session_expired_objects_total"@, "Canonical objects that expired before the full RelaySession emission completed."@, "counter"@, status.runtime.relay_session.expired_objects);
    let l3 = with_number(l2, "av_contrib_relay_session_expired_objects_total"@, "Canonical objects that expired before the full RelaySession emission completed."@, "counter"@, status.runtime.relay_session.expired_objects);
    a_number_is_added(l3, "av_contrib_relay_session_expired_symbols_total"@, "RaptorQ symbols dropped at the contributor after their media deadline."@, "counter"@, status.runtime.relay_session.expired_symbols);
}

proof fn relay_durations_are_added(before: Seq<LineView>, status: StatusView)
    ensures
        keeps(before, with_relay_durations(before, status)),
        shows_histogram(
            with_relay_durations(before, status),
            "av_contrib_relay_session_stage_duration_seconds_bucket"@,
            "av_contrib_relay_session_stage_duration_seconds_sum"@,
            "av_contrib_relay_session_stage_duration_seconds_count"@,
            seq![("stage"@, "total"@)],
            status.runtime.relay_session.stages.total,
        ),
        shows_histogram(
            with_relay_durations(before, status),
            "av_contrib_relay_session_stage_duration_seconds_bucket"@,
            "av_contrib_relay_session_stage_duration_seconds_sum"@,
            "av_contrib_relay_session_stage_duration_seconds_count"@,
            seq![("stage"@, "encode_wait"@)],
            status.runtime.relay_session.stages.encode_wait,
        ),
        shows_histogram(
            with_relay_durations(before, status),
            "av_contrib_relay_session_stage_duration_seconds_bucket"@,
            "av_contrib_relay_session_stage_duration_seconds_sum"@,
            "av_contrib_relay_session_stage_duration_seconds_count"@,
            seq![("stage"@, "encode"@)],
            status.runtime.relay_session.stages.encode,
        ),
        shows_histogram(
            with_relay_durations(before, status),
            "av_contrib_relay_session_stage_duration_seconds_bucket"@,
            "av_contrib_relay_session_stage_duration_seconds_sum"@,
            "av_contrib_relay_session_stage_duration_seconds_count"@,
            seq![("stage"@, "schedule"@)],
            status.runtime.relay_session.stages.schedule,
        ),
        shows_histogram(
            with_relay_durations(before, status),
            "av_contrib_relay_session_stage_duration_seconds_bucket"@,
            "av_contrib_relay_session_stage_duration_seconds_sum"@,
            "av_contrib_relay_session_stage_duration_seconds_count"@,
            seq![("stage"@, "send_primary_source"@)],
            status.runtime.relay_session.stages.primary_source_send,
        ),
        shows_histogram(
            with_relay_durations(before, status),
            "av_contrib_relay_session_stage_duration_seconds_bucket"@,
            "av_contrib_relay_session_stage_duration_seconds_sum"@,
            "av_contrib_relay_session_stage_duration_seconds_count"@,
            seq![("stage"@, "send_secondary_source"@)],
            status.runtime.relay_session.stages.secondary_source_send,
        ),
        shows_histogram(
            with_relay_durations(before, status),
            "av_contrib_relay_session_stage_duration_seconds_bucket"@,
            "av_contrib_relay_session_stage_duration_seconds_sum"@,
            "av_contrib_relay_session_stage_duration_seconds_count"@,
            seq![("stage"@, "send_primary_repair"@)],
            status.runtime.relay_session.stages.primary_repair_send,
        ),
        shows_histogram(
            with_relay_durations(before, status),
            "av_contrib_relay_session_stage_duration_seconds_bucket"@,
            "av_contrib_relay_session_stage_duration_seconds_sum"@,
            "av_contrib_relay_session_stage_duration_seconds_count"@,
            seq![("stage"@, "send_secondary_repair"@)],
            status.runtime.relay_session.stages.secondary_repair_send,
        ),
{
    a_line_is_added(before, header_line("av_contrib_relay_session_stage_duration_seconds"@, "RelaySession contribution latency by bounded RaptorQ and carrier stage."@, "histogram"@));
    let l0 = before.push(header_line("av_contrib_relay_session_stage_duration_seconds"@, "RelaySession contribution latency by bounded RaptorQ and carrier stage."@, "histogram"@));
    a_histogram_is_added(l0, relay_stage_names(), seq![("stage"@, "total"@)], status.runtime.relay_session.stages.total);
    let l1 = with_histogram(l0, relay_stage_names(), seq![("stage"@, "total"@)], status.runtime.relay_session.stages.total);
    a_histogram_is_added(l1, relay_stage_names(), seq![("stage"@, "encode_wait"@)], status.runtime.relay_session.stages.encode_wait);
    let l2 = with_histogram(l1, relay_stage_names(), seq![("stage"@, "encode_wait"@)], status.runtime.relay_session.stages.encode_wait);
    a_histogram_is_added(l2, relay_stage_names(), seq![("stage"@, "encode"@)], status.runtime.relay_session.stages.encode);
    let l3 = with_histogram(l2, relay_stage_names(), seq![("stage"@, "encode"@)], status.runtime.relay_session.stages.encode);
    a_histogram_is_added(l3, relay_stage_names(), seq![("stage"@, "schedule"@)], status.runtime.relay_session.stages.schedule);
    let l4 = with_histogram(l3, relay_stage_names(), seq![("stage"@, "schedule"@)], status.runtime.relay_session.stages.schedule);
    a_histogram_is_added(l4, relay_stage_names(), seq![("stage"@, "send_primary_source"@)], status.runtime.relay_session.stages.primary_source_send);
    let l5 = with_histogram(l4, relay_stage_names(), seq![("stage"@, "send_primary_source"@)], status.runtime.relay_session.stages.primary_source_send);
    a_histogram_is_added(l5, relay_stage_names(), seq![("stage"@, "send_secondary_source"@)], status.runtime.relay_session.stages.secondary_source_send);
    let l6 = with_histogram(l5, relay_stage_names(), seq![("stage"@, "send_secondary_source"@)], status.runtime.relay_session.stages.secondary_source_send);
    a_histogram_is_added(l6, relay_stage_names(), seq![("stage"@, "send_primary_repair"@)], status.runtime.relay_session.stages.primary_repair_send);
    let l7 = with_histogram(l6, relay_stage_names(), seq![("stage"@, "send_primary_repair"@)], status.runtime.relay_session.stages.primary_repair_send);
    a_histogram_is_added(l7, relay_stage_names(), seq![("stage"@, "send_secondary_repair"@)], status.runtime.relay_session.stages.secondary_repair_send);
}

proof fn mesh_durations_are_added(before: Seq<LineView>, status: StatusView)
    ensures
        keeps(before, with_mesh_durations(before, status)),
        shows_histogram(
            with_mesh_durations(before, status),
            "av_contrib_mesh_forward_duration_seconds_bucket"@,
            "av_contrib_mesh_forward_duration_seconds_sum"@,
            "av_contrib_mesh_forward_duration_seconds_count"@,
            seq![("kind"@, "stream"@)],
            status.runtime.mesh_forward.stream_duration,
        ),
        shows_histogram(
            with_mesh_durations(before, status),
            "av_contrib_mesh_forward_duration_seconds_bucket"@,
            "av_contrib_mesh_forward_duration_seconds_sum"@,
            "av_contrib_mesh_forward_duration_seconds_count"@,
            seq![("kind"@, "media"@)],
            status.runtime.mesh_forward.media_duration,
        ),
{
    a_line_is_added(before, header_line("av_contrib_mesh_forward_duration_seconds"@, "Time spent encoding and sending one contributor payload to the mesh."@, "histogram"@));
    let l0 = before.push(header_line("av_contrib_mesh_forward_duration_seconds"@, "Time spent encoding and sending one contributor payload to the mesh."@, "histogram"@));
    a_histogram_is_added(l0, mesh_duration_names(), seq![("kind"@, "stream"@)], status.runtime.mesh_forward.stream_duration);
    let l1 = with_histogram(l0, mesh_duration_names(), seq![("kind"@, "stream"@)], status.runtime.mesh_forward.stream_duration);
    a_histogram_is_added(l1, mesh_duration_names(), seq![("kind"@, "media"@)], status.runtime.mesh_forward.media_duration);
}

proof fn mesh_stage_durations_are_added(before: Seq<LineView>, status: StatusView)
    ensures
        keeps(before, with_mesh_stage_durations(before, status)),
        shows_histogram(
            with_mesh_stage_durations(before, status),
            "av_contrib_mesh_forward_stage_duration_seconds_bucket"@,
            "av_contrib_mesh_forward_stage_duration_seconds_sum"@,
            "av_contrib_mesh_forward_stage_duration_seconds_count"@,
            seq![("kind"@, "stream"@), ("stage"@, "encode_wait"@)],
            status.runtime.mesh_forward.stream_stages.encode_wait,
        ),
        shows_histogram(
            with_mesh_stage_durations(before, status),
            "av_contrib_mesh_forward_stage_duration_seconds_bucket"@,
            "av_contrib_mesh_forward_stage_duration_seconds_sum"@,
            "av_contrib_mesh_forward_stage_duration_seconds_count"@,
            seq![("kind"@, "stream"@), ("stage"@, "encode"@)],
            status.runtime.mesh_forward.stream_stages.encode,
        ),
        shows_histogram(
            with_mesh_stage_durations(before, status),
            "av_contrib_mesh_forward_stage_duration_seconds_bucket"@,
            "av_contrib_mesh_forward_stage_duration_seconds_sum"@,
            "av_contrib_mesh_forward_stage_duration_seconds_count"@,
            seq![("kind"@, "stream"@), ("stage"@, "send"@)],
            status.runtime.mesh_forward.stream_stages.send,
        ),
        shows_histogram(
            with_mesh_stage_durations(before, status),
            "av_contrib_mesh_forward_stage_duration_seconds_bucket"@,
            "av_contrib_mesh_forward_stage_duration_seconds_sum"@,
            "av_contrib_mesh_forward_stage_duration_seconds_count"@,
            seq![("kind"@, "stream"@), ("stage"@, "telemetry"@)],
            status.runtime.mesh_forward.stream_stages.telemetry,
        ),
        shows_histogram(
            with_mesh_stage_durations(before, status),
            "av_contrib_mesh_forward_stage_duration_seconds_bucket"@,
            "av_contrib_mesh_forward_stage_duration_seconds_sum"@,
            "av_contrib_mesh_forward_stage_duration_seconds_count"@,
            seq![("kind"@, "media"@), ("stage"@, "encode_wait"@)],
            status.runtime.mesh_forward.media_stages.encode_wait,
        ),
        shows_histogram(
            with_mesh_stage_durations(before, status),
            "av_contrib_mesh_forward_stage_duration_seconds_bucket"@,
            "av_contrib_mesh_forward_stage_duration_seconds_sum"@,
            "av_contrib_mesh_forward_stage_duration_seconds_count"@,
            seq![("kind"@, "media"@), ("stage"@, "encode"@)],
            status.runtime.mesh_forward.media_stages.encode,
        ),
        shows_histogram(
            with_mesh_stage_durations(before, status),
            "av_contrib_mesh_forward_stage_duration_seconds_bucket"@,
            "av_contrib_mesh_forward_stage_duration_seconds_sum"@,
            "av_contrib_mesh_forward_stage_duration_seconds_count"@,
            seq![("kind"@, "media"@), ("stage"@, "send"@)],
            status.runtime.mesh_forward.media_stages.send,
        ),
        shows_histogram(
            with_mesh_stage_durations(before, status),
            "av_contrib_mesh_forward_stage_duration_seconds_bucket"@,
            "av_contrib_mesh_forward_stage_duration_seconds_sum"@,
            "av_contrib_mesh_forward_stage_duration_seconds_count"@,
            seq![("kind"@, "media"@), ("stage"@, "telemetry"@)],
            status.runtime.mesh_forward.media_stages.telemetry,
        ),
{
    a_line_is_added(before, header_line("av_contrib_mesh_forward_stage_duration_seconds"@, "Contributor-to-mesh forwarding time by bounded hot-path stage."@, "histogram"@));
    let l0 = before.push(header_line("av_contrib_mesh_forward_stage_duration_seconds"@, "Contributor-to-mesh forwarding time by bounded hot-path stage."@, "histogram"@));
    a_histogram_is_added(l0, mesh_stage_names(), seq![("kind"@, "stream"@), ("stage"@, "encode_wait"@)], status.runtime.mesh_forward.stream_stages.encode_wait);
    let l1 = with_histogram(l0, mesh_stage_names(), seq![("kind"@, "stream"@), ("stage"@, "encode_wait"@)], status.runtime.mesh_forward.stream_stages.encode_wait);
    a_histogram_is_added(l1, mesh_stage_names(), seq![("kind"@, "stream"@), ("stage"@, "encode"@)], status.runtime.mesh_forward.stream_stages.encode);
    let l2 = with_histogram(l1, mesh_stage_names(), seq![("kind"@, "stream"@), ("stage"@, "encode"@)], status.runtime.mesh_forward.stream_stages.encode);
    a_histogram_is_added(l2, mesh_stage_names(), seq![("kind"@, "stream"@), ("stage"@, "send"@)], status.runtime.mesh_forward.stream_stages.send);
    let l3 = with_histogram(l2, mesh_stage_names(), seq![("kind"@, "stream"@), ("stage"@, "send"@)], status.runtime.mesh_forward.stream_stages.send);
    a_histogram_is_added(l3, mesh_stage_names(), seq![("kind"@, "stream"@), ("stage"@, "telemetry"@)], status.runtime.mesh_forward.stream_stages.telemetry);
    let l4 = with_histogram(l3, mesh_stage_names(), seq![("kind"@, "stream"@), ("stage"@, "telemetry"@)], status.runtime.mesh_forward.stream_stages.telemetry);
    a_histogram_is_added(l4, mesh_stage_names(), seq![("kind"@, "media"@), ("stage"@, "encode_wait"@)], status.runtime.mesh_forward.media_stages.encode_wait);
    let l5 = with_histogram(l4, mesh_stage_names(), seq![("kind"@, "media"@), ("stage"@, "encode_wait"@)], status.runtime.mesh_forward.media_stages.encode_wait);
    a_histogram_is_added(l5, mesh_stage_names(), seq![("kind"@, "media"@), ("stage"@, "encode"@)], status.runtime.mesh_forward.media_stages.encode);
    let l6 = with_histogram(l5, mesh_stage_names(), seq![("kind"@, "media"@), ("stage"@, "encode"@)], status.runtime.mesh_forward.media_stages.encode);
    a_histogram_is_added(l6, mesh_stage_names(), seq![("kind"@, "media"@), ("stage"@, "send"@)], status.runtime.mesh_forward.media_stages.send);
    let l7 = with_histogram(l6, mesh_stage_names(), seq![("kind"@, "media"@), ("stage"@, "send"@)], status.runtime.mesh_forward.media_stages.send);
    a_histogram_is_added(l7, mesh_stage_names(), seq![("kind"@, "media"@), ("stage"@, "telemetry"@)], status.runtime.mesh_forward.media_stages.telemetry);
}

proof fn age_metrics_are_added(before: Seq<LineView>, status: StatusView)
    ensures
        keeps(before, with_age_metrics(before, status)),
        status.health.last_input_age_ms is Some ==> shows(
            with_age_metrics(before, status),
            "av_contrib_last_seen_age_seconds"@,
            seq![("stage"@, "input"@)],
            ValueView::Millis(status.health.last_input_age_ms->Some_0),
        ),
        status.health.last_fmp4_input_age_ms is Some ==> shows(
            with_age_metrics(before, status),
            "av_contrib_last_seen_age_seconds"@,
            seq![("stage"@, "fmp4_input"@)],
            ValueView::Millis(status.health.last_fmp4_input_age_ms->Some_0),
        ),
        status.health.last_output_age_ms is Some ==> shows(
            with_age_metrics(before, status),
            "av_contrib_last_seen_age_seconds"@,
            seq![("stage"@, "fmp4_output"@)],
            ValueView::Millis(status.health.last_output_age_ms->Some_0),
        ),
        status.runtime.mesh_forward.stream_last_age_ms is Some ==> shows(
            with_age_metrics(before, status),
            "av_contrib_last_seen_age_seconds"@,
            seq![("stage"@, "mesh_stream"@)],
            ValueView::Millis(status.runtime.mesh_forward.stream_last_age_ms->Some_0),
        ),
        status.runtime.mesh_forward.media_last_age_ms is Some ==> shows(
            with_age_metrics(before, status),
            "av_contrib_last_seen_age_seconds"@,
            seq![("stage"@, "mesh_media"@)],
            ValueView::Millis(status.runtime.mesh_forward.media_last_age_ms->Some_0),
        ),
{
    a_line_is_added(before, header_line("av_contrib_last_seen_age_seconds"@, "Age of the most recent contributor pipeline event by stage."@, "gauge"@));
    let l0 = before.push(header_line("av_contrib_last_seen_age_seconds"@, "Age of the most recent contributor pipeline event by stage."@, "gauge"@));
    a_stage_age_is_added(l0, "input"@, status.health.last_input_age_ms);
    let l1 = with_stage_age(l0, "input"@, status.health.last_input_age_ms);
    a_stage_age_is_added(l1, "fmp4_input"@, status.health.last_fmp4_input_age_ms);
    let l2 = with_stage_age(l1, "fmp4_input"@, status.health.last_fmp4_input_age_ms);
    a_stage_age_is_added(l2, "fmp4_output"@, status.health.last_output_age_ms);
    let l3 = with_stage_age(l2, "fmp4_output"@, status.health.last_output_age_ms);
    a_stage_age_is_added(l3, "mesh_stream"@, status.runtime.mesh_forward.stream_last_age_ms);
    let l4 = with_stage_age(l3, "mesh_stream"@, status.runtime.mesh_forward.stream_last_age_ms);
    a_stage_age_is_added(l4, "mesh_media"@, status.runtime.mesh_forward.media_last_age_ms);
}

proof fn stream_metrics_are_added(before: Seq<LineView>, status: StatusView)
    ensures
        keeps(before, with_stream_metrics(before, status)),
        forall|i: int|
            0 <= i < status.runtime.streams.len() ==> shows_stream(with_stream_metrics(before, status), #[trigger] status.runtime.streams[i]),
{
    a_line_is_added(before, header_line("av_contrib_stream_input_bytes_total"@, "Contributor input bytes by stream."@, "counter"@));
    let l0 = before.push(header_line("av_contrib_stream_input_bytes_total"@, "Contributor input bytes by stream."@, "counter"@));
    a_line_is_added(l0, header_line("av_contrib_stream_mesh_bytes_total"@, "Contributor-to-mesh payload bytes by stream."@, "counter"@));
    let l1 = l0.push(header_line("av_contrib_stream_mesh_bytes_total"@, "Contributor-to-mesh payload bytes by stream."@, "counter"@));
    a_line_is_added(l1, header_line("av_contrib_stream_mesh_errors_total"@, "Contributor-to-mesh forwarding errors by stream."@, "counter"@));
    let l2 = l1.push(header_line("av_contrib_stream_mesh_errors_total"@, "Contributor-to-mesh forwarding errors by stream."@, "counter"@));
    a_line_is_added(l2, header_line("av_contrib_stream_fmp4_parts_total"@, "CMAF/fMP4 parts published by stream."@, "counter"@));
    let l3 = l2.push(header_line("av_contrib_stream_fmp4_parts_total"@, "CMAF/fMP4 parts published by stream."@, "counter"@));
    a_line_is_added(l3, header_line("av_contrib_stream_latest_fmp4_sequence"@, "Latest CMAF/fMP4 part sequence published by stream."@, "gauge"@));
    let l4 = l3.push(header_line("av_contrib_stream_latest_fmp4_sequence"@, "Latest CMAF/fMP4 part sequence published by stream."@, "gauge"@));
    a_line_is_added(l4, header_line("av_contrib_stream_last_seen_age_seconds"@, "Age of the most recent event by stream and stage."@, "gauge"@));
    let l5 = l4.push(header_line("av_contrib_stream_last_seen_age_seconds"@, "Age of the most recent event by stream and stage."@, "gauge"@));
    streams_are_added(l5, status.runtime.streams);
}

proof fn protocol_metrics_are_added(before: Seq<LineView>, status: StatusView)
    ensures
        keeps(before, with_protocol_metrics(before, status)),
        forall|i: int|
            0 <= i < status.runtime.protocols.len() ==> shows_protocol(with_protocol_metrics(before, status), #[trigger] status.runtime.protocols[i]),
{
    a_line_is_added(before, header_line("av_contrib_protocol_units_total"@, "Ingest units received by contributor protocol."@, "counter"@));
    let l0 = before.push(header_line("av_contrib_protocol_units_total"@, "Ingest units received by contributor protocol."@, "counter"@));
    a_line_is_added(l0, header_line("av_contrib_protocol_bytes_total"@, "Ingest bytes received by contributor protocol."@, "counter"@));
    let l1 = l0.push(header_line("av_contrib_protocol_bytes_total"@, "Ingest bytes received by contributor protocol."@, "counter"@));
    a_line_is_added(l1, header_line("av_contrib_protocol_sessions"@, "Ingest sessions by contributor protocol and state."@, "gauge"@));
    let l2 = l1.push(header_line("av_contrib_protocol_sessions"@, "Ingest sessions by contributor protocol and state."@, "gauge"@));
    protocols_are_added(l2, status.runtime.protocols);
}

proof fn sections_follow_each_other(
    status: StatusView,
    queue: AudioQueueStats,
    worker: AudioEpochHlsWorkerStats,
    routes: RouteTextsView,
)
    ensures
        ({
            let none: Seq<LineView> = Seq::empty();
            let l0 = with_audio_epoch_metrics(none, queue, worker);
            let l1 = with_configuration_metrics(l0, status);
            let l2 = with_path_metrics(l1, status, routes);
            let l3 = with_route_metrics(l2, status, routes);
            let l4 = with_clock_metrics(l3, status);
            let l5 = with_input_metrics(l4, status);
            let l6 = with_output_metrics(l5, status);
            let l7 = with_mesh_metrics(l6, status);
            let l8 = with_relay_metrics(l7, status);
            let l9 = with_lane_metrics(l8, status);
            let l10 = with_deadline_metrics(l9, status);
            let l11 = with_relay_durations(l10, status);
            let l12 = with_mesh_durations(l11, status);
            let l13 = with_mesh_stage_durations(l12, status);
            let l14 = with_age_metrics(l13, status);
            let l15 = with_stream_metrics(l14, status);
            let l16 = with_protocol_metrics(l15, status);
            let all = exposition(status, queue, worker, routes);
            &&& keeps(l0, all)
            &&& keeps(l1, all)
            &&& keeps(l2, all)
            &&& keeps(l3, all)
            &&& keeps(l4, all)
            &&& keeps(l5, all)
            &&& keeps(l6, all)
            &&& keeps(l7, all)
            &&& keeps(l8, all)
            &&& keeps(l9, all)
            &&& keeps(l10, all)
            &&& keeps(l11, all)
            &&& keeps(l12, all)
            &&& keeps(l13, all)
            &&& keeps(l14, all)
            &&& keeps(l15, all)
            &&& keeps(l16, all)
        }),
{
    let none: Seq<LineView> = Seq::empty();
    audio_epoch_metrics_are_added(none, queue, worker);
    let l0 = with_audio_epoch_metrics(none, queue, worker);
    configuration_metrics_are_added(l0, status);
    let l1 = with_configuration_metrics(l0, status);
    path_metrics_are_added(l1, status, routes);
    let l2 = with_path_metrics(l1, status, routes);
    route_metrics_are_added(l2, status, routes);
    let l3 = with_route_metrics(l2, status, routes);
    clock_metrics_are_added(l3, status);
    let l4 = with_clock_metrics(l3, status);
    input_metrics_are_added(l4, status);
    let l5 = with_input_metrics(l4, status);
    output_metrics_are_added(l5, status);
    let l6 = with_output_metrics(l5, status);
    mesh_metrics_are_added(l6, status);
    let l7 = with_mesh_metrics(l6, status);
    relay_metrics_are_added(l7, status);
    let l8 = with_relay_metrics(l7, status);
    lane_metrics_are_added(l8, status);
    let l9 = with_lane_metrics(l8, status);
    deadline_metrics_are_added(l9, status);
    let l10 = with_deadline_metrics(l9, status);
    relay_durations_are_added(l10, status);
    let l11 = with_relay_durations(l10, status);
    mesh_durations_are_added(l11, status);
    let l12 = with_mesh_durations(l11, status);
    mesh_stage_durations_are_added(l12, status);
    let l13 = with_mesh_stage_durations(l12, status);
    age_metrics_are_added(l13, status);
    let l14 = with_age_metrics(l13, status);
    stream_metrics_are_added(l14, status);
    let l15 = with_stream_metrics(l14, status);
    protocol_metrics_are_added(l15, status);
    let l16 = with_protocol_metrics(l15, status);
}

/// What is counted of the audio queue and of its worker is exposed.
#[verifier::spinoff_prover]
#[verifier::rlimit(60)]
pub proof fn the_audio_queue_is_exposed(
    status: StatusView,
    queue: AudioQueueStats,
    worker: AudioEpochHlsWorkerStats,
    routes: RouteTextsView,
)
    ensures
        shows(
            exposition(status, queue, worker, routes),
            "av_contrib_audio_epoch_hls_queue_capacity"@,
            Seq::empty(),
            ValueView::Count(queue.capacity),
        ),
        shows(
            exposition(status, queue, worker, routes),
            "av_contrib_audio_epoch_hls_queue_enqueued_total"@,
            Seq::empty(),
            ValueView::Count(queue.enqueued),
        ),
        shows(
            exposition(status, queue, worker, routes),
            "av_contrib_audio_epoch_hls_queue_dropped_total"@,
            Seq::empty(),
            ValueView::Count(queue.dropped),
        ),
        shows(
            exposition(status, queue, worker, routes),
            "av_contrib_audio_epoch_hls_queue_max_depth"@,
            Seq::empty(),
            ValueView::Count(queue.max_depth),
        ),
        shows(
            exposition(status, queue, worker, routes),
            "av_contrib_audio_epoch_hls_worker_datagrams_total"@,
            Seq::empty(),
            ValueView::Count(worker.datagrams),
        ),
        shows(
            exposition(status, queue, worker, routes),
            "av_contrib_audio_epoch_hls_groups_completed_total"@,
            Seq::empty(),
            ValueView::Count(worker.groups_completed),
        ),
        shows(
            exposition(status, queue, worker, routes),
            "av_contrib_audio_epoch_hls_raptorq_fragments_recovered_total"@,
            Seq::empty(),
            ValueView::Count(worker.raptorq_fragments_recovered),
        ),
        shows(
            exposition(status, queue, worker, routes),
            "av_contrib_audio_epoch_hls_worker_errors_total"@,
            Seq::empty(),
            ValueView::Count(worker.errors),
        ),
{
    sections_follow_each_other(status, queue, worker, routes);
    let none: Seq<LineView> = Seq::empty();
    audio_epoch_metrics_are_added(none, queue, worker);
}

/// The state and what is configured are exposed.
#[verifier::spinoff_prover]
#[verifier::rlimit(60)]
pub proof fn the_configuration_is_exposed(
    status: StatusView,
    queue: AudioQueueStats,
    worker: AudioEpochHlsWorkerStats,
    routes: RouteTextsView,
)
    ensures
        shows(
            exposition(status, queue, worker, routes),
            "av_contrib_health"@,
            seq![("state"@, escaped(status.health.state))],
            ValueView::Count(1),
        ),
        shows(
            exposition(status, queue, worker, routes),
            "av_contrib_llhls_part_target_seconds"@,
            Seq::empty(),
            ValueView::Millis(status.hls.part_target_ms as u64),
        ),
        shows(
            exposition(status, queue, worker, routes),
            "av_contrib_relay_session_carrier_configured"@,
            seq![("path"@, "primary"@)],
            ValueView::Count(if status.mesh.relay_primary_configured {
                1u64
            } else {
                0u64
            }),
        ),
        shows(
            exposition(status, queue, worker, routes),
            "av_contrib_relay_session_carrier_configured"@,
            seq![("path"@, "secondary"@)],
            ValueView::Count(if status.mesh.relay_secondary_configured {
                1u64
            } else {
                0u64
            }),
        ),
        shows(
            exposition(status, queue, worker, routes),
            "av_contrib_relay_session_deadline_budget_seconds"@,
            Seq::empty(),
            ValueView::Millis(status.mesh.relay_deadline_ms),
        ),
        shows(
            exposition(status, queue, worker, routes),
            "av_contrib_relay_session_path_observation_info"@,
            seq![("source"@, escaped(status.mesh.relay_path_observation_source))],
            ValueView::Count(1),
        ),
{
    sections_follow_each_other(status, queue, worker, routes);
    let none: Seq<LineView> = Seq::empty();
    let l0 = with_audio_epoch_metrics(none, queue, worker);
    configuration_metrics_are_added(l0, status);
}

/// What was observed of the selected path is exposed.
#[verifier::spinoff_prover]
#[verifier::rlimit(60)]
pub proof fn the_path_is_exposed(
    status: StatusView,
    queue: AudioQueueStats,
    worker: AudioEpochHlsWorkerStats,
    routes: RouteTextsView,
)
    ensures
        shows(
            exposition(status, queue, worker, routes),
            "av_contrib_relay_session_path_loss_fraction"@,
            Seq::empty(),
            ValueView::Text(routes.path_loss),
        ),
        shows(
            exposition(status, queue, worker, routes),
            "av_contrib_relay_session_path_best_direct_rtt_seconds"@,
            Seq::empty(),
            ValueView::Text(routes.primary.best_direct_rtt),
        ),
        shows(
            exposition(status, queue, worker, routes),
            "av_contrib_relay_session_path_rtt_seconds"@,
            Seq::empty(),
            ValueView::Text(routes.primary.rtt),
        ),
        shows(
            exposition(status, queue, worker, routes),
            "av_contrib_relay_session_path_jitter_seconds"@,
            Seq::empty(),
            ValueView::Text(routes.primary.jitter),
        ),
        shows(
            exposition(status, queue, worker, routes),
            "av_contrib_relay_session_path_queue_delay_seconds"@,
            Seq::empty(),
            ValueView::Text(routes.primary.queue_delay),
        ),
        routes.primary.stretch is Some ==> shows(
            exposition(status, queue, worker, routes),
            "av_contrib_relay_session_path_stretch_ratio"@,
            Seq::empty(),
            ValueView::Text(routes.primary.stretch->Some_0),
        ),
        status.mesh.relay_path_observed_at_unix_ms is Some && status.mesh.relay_path_observed_at_unix_ms->Some_0 <= status.updated_unix_ms ==> shows(
            exposition(status, queue, worker, routes),
            "av_contrib_relay_session_path_observation_age_seconds"@,
            Seq::empty(),
            ValueView::Millis((status.updated_unix_ms - status.mesh.relay_path_observed_at_unix_ms->Some_0) as u64),
        ),
{
    sections_follow_each_other(status, queue, worker, routes);
    let none: Seq<LineView> = Seq::empty();
    let l0 = with_audio_epoch_metrics(none, queue, worker);
    let l1 = with_configuration_metrics(l0, status);
    path_metrics_are_added(l1, status, routes);
}

/// What was observed of each route is exposed.
#[verifier::spinoff_prover]
#[verifier::rlimit(60)]
pub proof fn the_routes_are_exposed(
    status: StatusView,
    queue: AudioQueueStats,
    worker: AudioEpochHlsWorkerStats,
    routes: RouteTextsView,
)
    ensures
        shows_route(
            exposition(status, queue, worker, routes),
            "primary"@,
            status.mesh.relay_path_observation_source,
            routes.primary,
            status.mesh.relay_path_observed_at_unix_ms,
            status.updated_unix_ms,
        ),
        shows_route(
            exposition(status, queue, worker, routes),
            "secondary"@,
            status.mesh.relay_secondary_path_observation_source,
            routes.secondary,
            status.mesh.relay_secondary_path_observed_at_unix_ms,
            status.updated_unix_ms,
        ),
{
    sections_follow_each_other(status, queue, worker, routes);
    let none: Seq<LineView> = Seq::empty();
    let l0 = with_audio_epoch_metrics(none, queue, worker);
    let l1 = with_configuration_metrics(l0, status);
    let l2 = with_path_metrics(l1, status, routes);
    route_metrics_are_added(l2, status, routes);
}

/// What is known of the clock is exposed.
#[verifier::spinoff_prover]
#[verifier::rlimit(60)]
pub proof fn the_clock_is_exposed(
    status: StatusView,
    queue: AudioQueueStats,
    worker: AudioEpochHlsWorkerStats,
    routes: RouteTextsView,
)
    ensures
        shows(
            exposition(status, queue, worker, routes),
            "av_contrib_media_object_source_epoch"@,
            Seq::empty(),
            ValueView::Count(status.mesh.media_object_source_epoch),
        ),
        shows(
            exposition(status, queue, worker, routes),
            "av_contrib_media_object_clock_estimated_error_seconds"@,
            Seq::empty(),
            ValueView::Millis(status.mesh.media_object_clock_estimated_error_ms),
        ),
        status.runtime.relay_session.last_deadline_unix_us is Some ==> shows(
            exposition(status, queue, worker, routes),
            "av_contrib_relay_session_last_deadline_seconds"@,
            Seq::empty(),
            ValueView::Micros(status.runtime.relay_session.last_deadline_unix_us->Some_0),
        ),
        status.runtime.relay_session.last_deadline_headroom_us is Some ==> shows(
            exposition(status, queue, worker, routes),
            "av_contrib_relay_session_last_deadline_headroom_seconds"@,
            Seq::empty(),
            ValueView::Micros(status.runtime.relay_session.last_deadline_headroom_us->Some_0),
        ),
{
    sections_follow_each_other(status, queue, worker, routes);
    let none: Seq<LineView> = Seq::empty();
    let l0 = with_audio_epoch_metrics(none, queue, worker);
    let l1 = with_configuration_metrics(l0, status);
    let l2 = with_path_metrics(l1, status, routes);
    let l3 = with_route_metrics(l2, status, routes);
    clock_metrics_are_added(l3, status);
}

/// What is counted of the input is exposed.
#[verifier::spinoff_prover]
#[verifier::rlimit(60)]
pub proof fn the_input_is_exposed(
    status: StatusView,
    queue: AudioQueueStats,
    worker: AudioEpochHlsWorkerStats,
    routes: RouteTextsView,
)
    ensures
        shows(
            exposition(status, queue, worker, routes),
            "av_contrib_raw_http_requests_total"@,
            Seq::empty(),
            ValueView::Count(status.runtime.raw_http.requests),
        ),
        shows(
            exposition(status, queue, worker, routes),
            "av_contrib_raw_http_bytes_total"@,
            Seq::empty(),
            ValueView::Count(status.runtime.raw_http.bytes),
        ),
        shows(
            exposition(status, queue, worker, routes),
            "av_contrib_media_access_units_total"@,
            Seq::empty(),
            ValueView::Count(status.runtime.media_access_units.requests),
        ),
        shows(
            exposition(status, queue, worker, routes),
            "av_contrib_media_access_unit_bytes_total"@,
            Seq::empty(),
            ValueView::Count(status.runtime.media_access_units.payload_bytes),
        ),
        shows(
            exposition(status, queue, worker, routes),
            "av_contrib_mpeg_ts_slots_total"@,
            Seq::empty(),
            ValueView::Count(status.runtime.mpeg_ts.slots),
        ),
        shows(
            exposition(status, queue, worker, routes),
            "av_contrib_mpeg_ts_bytes_total"@,
            Seq::empty(),
            ValueView::Count(status.runtime.mpeg_ts.bytes),
        ),
        shows(
            exposition(status, queue, worker, routes),
            "av_contrib_mpeg_ts_continuity_errors_total"@,
            Seq::empty(),
            ValueView::Count(status.runtime.mpeg_ts.continuity_errors),
        ),
        shows(
            exposition(status, queue, worker, routes),
            "av_contrib_mpeg_ts_dropped_bytes_total"@,
            Seq::empty(),
            ValueView::Count(cap_u64(status.runtime.mpeg_ts.continuity_dropped_bytes + status.runtime.mpeg_ts.payload_drop_bytes) as u64),
        ),
{
    sections_follow_each_other(status, queue, worker, routes);
    let none: Seq<LineView> = Seq::empty();
    let l0 = with_audio_epoch_metrics(none, queue, worker);
    let l1 = with_configuration_metrics(l0, status);
    let l2 = with_path_metrics(l1, status, routes);
    let l3 = with_route_metrics(l2, status, routes);
    let l4 = with_clock_metrics(l3, status);
    input_metrics_are_added(l4, status);
}

/// What is counted of the output is exposed.
#[verifier::spinoff_prover]
#[verifier::rlimit(60)]
pub proof fn the_output_is_exposed(
    status: StatusView,
    queue: AudioQueueStats,
    worker: AudioEpochHlsWorkerStats,
    routes: RouteTextsView,
)
    ensures
        shows(
            exposition(status, queue, worker, routes),
            "av_contrib_rtmp_access_units_total"@,
            Seq::empty(),
            ValueView::Count(status.runtime.rtmp.access_units),
        ),
        shows(
            exposition(status, queue, worker, routes),
            "av_contrib_rtmp_bytes_total"@,
            Seq::empty(),
            ValueView::Count(status.runtime.rtmp.bytes),
        ),
        shows(
            exposition(status, queue, worker, routes),
            "av_contrib_fmp4_parts_total"@,
            Seq::empty(),
            ValueView::Count(status.runtime.fmp4.parts),
        ),
        shows(
            exposition(status, queue, worker, routes),
            "av_contrib_fmp4_bytes_total"@,
            Seq::empty(),
            ValueView::Count(status.runtime.fmp4.bytes),
        ),
        shows(
            exposition(status, queue, worker, routes),
            "av_contrib_fmp4_publish_errors_total"@,
            Seq::empty(),
            ValueView::Count(status.runtime.fmp4.publish_errors),
        ),
        shows(
            exposition(status, queue, worker, routes),
            "av_contrib_hls_responses_total"@,
            Seq::empty(),
            ValueView::Count(status.runtime.hls.responses_total),
        ),
        shows(
            exposition(status, queue, worker, routes),
            "av_contrib_hls_response_errors_total"@,
            Seq::empty(),
            ValueView::Count(status.runtime.hls.response_errors),
        ),
        shows(
            exposition(status, queue, worker, routes),
            "av_contrib_hls_not_found_total"@,
            Seq::empty(),
            ValueView::Count(status.runtime.hls.response_not_found),
        ),
        shows(
            exposition(status, queue, worker, routes),
            "av_contrib_ingest_sessions"@,
            seq![("state"@, "active"@)],
            ValueView::Count(status.runtime.ingest_sessions.active as u64),
        ),
        shows(
            exposition(status, queue, worker, routes),
            "av_contrib_ingest_sessions"@,
            seq![("state"@, "ended"@)],
            ValueView::Count(status.runtime.ingest_sessions.ended),
        ),
{
    sections_follow_each_other(status, queue, worker, routes);
    let none: Seq<LineView> = Seq::empty();
    let l0 = with_audio_epoch_metrics(none, queue, worker);
    let l1 = with_configuration_metrics(l0, status);
    let l2 = with_path_metrics(l1, status, routes);
    let l3 = with_route_metrics(l2, status, routes);
    let l4 = with_clock_metrics(l3, status);
    let l5 = with_input_metrics(l4, status);
    output_metrics_are_added(l5, status);
}

/// What is counted of forwarding is exposed.
#[verifier::spinoff_prover]
#[verifier::rlimit(60)]
pub proof fn forwarding_is_exposed(
    status: StatusView,
    queue: AudioQueueStats,
    worker: AudioEpochHlsWorkerStats,
    routes: RouteTextsView,
)
    ensures
        shows(
            exposition(status, queue, worker, routes),
            "av_contrib_mesh_forward_payloads_total"@,
            seq![("kind"@, "stream"@)],
            ValueView::Count(status.runtime.mesh_forward.stream_payloads),
        ),
        shows(
            exposition(status, queue, worker, routes),
            "av_contrib_mesh_forward_payload_bytes_total"@,
            seq![("kind"@, "stream"@)],
            ValueView::Count(status.runtime.mesh_forward.stream_payload_bytes),
        ),
        shows(
            exposition(status, queue, worker, routes),
            "av_contrib_mesh_forward_datagrams_total"@,
            seq![("kind"@, "stream"@)],
            ValueView::Count(status.runtime.mesh_forward.stream_datagrams),
        ),
        shows(
            exposition(status, queue, worker, routes),
            "av_contrib_mesh_forward_datagram_bytes_total"@,
            seq![("kind"@, "stream"@)],
            ValueView::Count(status.runtime.mesh_forward.stream_datagram_bytes),
        ),
        shows(
            exposition(status, queue, worker, routes),
            "av_contrib_mesh_forward_errors_total"@,
            seq![("kind"@, "stream"@)],
            ValueView::Count(status.runtime.mesh_forward.stream_errors),
        ),
        shows(
            exposition(status, queue, worker, routes),
            "av_contrib_mesh_forward_payloads_total"@,
            seq![("kind"@, "media"@)],
            ValueView::Count(status.runtime.mesh_forward.media_payloads),
        ),
        shows(
            exposition(status, queue, worker, routes),
            "av_contrib_mesh_forward_payload_bytes_total"@,
            seq![("kind"@, "media"@)],
            ValueView::Count(status.runtime.mesh_forward.media_payload_bytes),
        ),
        shows(
            exposition(status, queue, worker, routes),
            "av_contrib_mesh_forward_datagrams_total"@,
            seq![("kind"@, "media"@)],
            ValueView::Count(status.runtime.mesh_forward.media_datagrams),
        ),
        shows(
            exposition(status, queue, worker, routes),
            "av_contrib_mesh_forward_datagram_bytes_total"@,
            seq![("kind"@, "media"@)],
            ValueView::Count(status.runtime.mesh_forward.media_datagram_bytes),
        ),
        shows(
            exposition(status, queue, worker, routes),
            "av_contrib_mesh_forward_errors_total"@,
            seq![("kind"@, "media"@)],
            ValueView::Count(status.runtime.mesh_forward.media_errors),
        ),
{
    sections_follow_each_other(status, queue, worker, routes);
    let none: Seq<LineView> = Seq::empty();
    let l0 = with_audio_epoch_metrics(none, queue, worker);
    let l1 = with_configuration_metrics(l0, status);
    let l2 = with_path_metrics(l1, status, routes);
    let l3 = with_route_metrics(l2, status, routes);
    let l4 = with_clock_metrics(l3, status);
    let l5 = with_input_metrics(l4, status);
    let l6 = with_output_metrics(l5, status);
    mesh_metrics_are_added(l6, status);
}

/// What is counted of relaying is exposed.
#[verifier::spinoff_prover]
#[verifier::rlimit(60)]
pub proof fn relaying_is_exposed(
    status: StatusView,
    queue: AudioQueueStats,
    worker: AudioEpochHlsWorkerStats,
    routes: RouteTextsView,
)
    ensures
        shows(
            exposition(status, queue, worker, routes),
            "av_contrib_relay_session_objects_total"@,
            Seq::empty(),
            ValueView::Count(status.runtime.relay_session.objects_sent),
        ),
        shows(
            exposition(status, queue, worker, routes),
            "av_contrib_relay_session_encode_errors_total"@,
            Seq::empty(),
            ValueView::Count(status.runtime.relay_session.encode_errors),
        ),
        shows(
            exposition(status, queue, worker, routes),
            "av_contrib_relay_session_repair_primary_fallback_objects_total"@,
            Seq::empty(),
            ValueView::Count(status.runtime.relay_session.repair_primary_fallback_objects),
        ),
        shows(
            exposition(status, queue, worker, routes),
            "av_contrib_relay_session_datagrams_total"@,
            seq![("role"@, "source"@)],
            ValueView::Count(status.runtime.relay_session.source_datagrams),
        ),
        shows(
            exposition(status, queue, worker, routes),
            "av_contrib_relay_session_datagram_bytes_total"@,
            seq![("role"@, "source"@)],
            ValueView::Count(status.runtime.relay_session.source_datagram_bytes),
        ),
        shows(
            exposition(status, queue, worker, routes),
            "av_contrib_relay_session_send_errors_total"@,
            seq![("role"@, "source"@)],
            ValueView::Count(status.runtime.relay_session.source_errors),
        ),
        shows(
            exposition(status, queue, worker, routes),
            "av_contrib_relay_session_datagrams_total"@,
            seq![("role"@, "repair"@)],
            ValueView::Count(status.runtime.relay_session.repair_datagrams),
        ),
        shows(
            exposition(status, queue, worker, routes),
            "av_contrib_relay_session_datagram_bytes_total"@,
            seq![("role"@, "repair"@)],
            ValueView::Count(status.runtime.relay_session.repair_datagram_bytes),
        ),
        shows(
            exposition(status, queue, worker, routes),
            "av_contrib_relay_session_send_errors_total"@,
            seq![("role"@, "repair"@)],
            ValueView::Count(status.runtime.relay_session.repair_errors),
        ),
{
    sections_follow_each_other(status, queue, worker, routes);
    let none: Seq<LineView> = Seq::empty();
    let l0 = with_audio_epoch_metrics(none, queue, worker);
    let l1 = with_configuration_metrics(l0, status);
    let l2 = with_path_metrics(l1, status, routes);
    let l3 = with_route_metrics(l2, status, routes);
    let l4 = with_clock_metrics(l3, status);
    let l5 = with_input_metrics(l4, status);
    let l6 = with_output_metrics(l5, status);
    let l7 = with_mesh_metrics(l6, status);
    relay_metrics_are_added(l7, status);
}

/// What is counted of each lane, and how it is, is exposed.
#[verifier::spinoff_prover]
#[verifier::rlimit(60)]
pub proof fn the_lanes_are_exposed(
    status: StatusView,
    queue: AudioQueueStats,
    worker: AudioEpochHlsWorkerStats,
    routes: RouteTextsView,
)
    ensures
        shows(
            exposition(status, queue, worker, routes),
            "av_contrib_relay_session_lane_objects_total"@,
            seq![("path"@, "primary"@), ("outcome"@, "success"@)],
            ValueView::Count(status.runtime.relay_session.primary_lane_objects_succeeded),
        ),
        shows(
            exposition(status, queue, worker, routes),
            "av_contrib_relay_session_lane_objects_total"@,
            seq![("path"@, "primary"@), ("outcome"@, "failure"@)],
            ValueView::Count(status.runtime.relay_session.primary_lane_objects_failed),
        ),
        shows(
            exposition(status, queue, worker, routes),
            "av_contrib_relay_session_lane_objects_total"@,
            seq![("path"@, "secondary"@), ("outcome"@, "success"@)],
            ValueView::Count(status.runtime.relay_session.secondary_lane_objects_succeeded),
        ),
        shows(
            exposition(status, queue, worker, routes),
            "av_contrib_relay_session_lane_objects_total"@,
            seq![("path"@, "secondary"@), ("outcome"@, "failure"@)],
            ValueView::Count(status.runtime.relay_session.secondary_lane_objects_failed),
        ),
        shows(
            exposition(status, queue, worker, routes),
            "av_contrib_relay_session_lane_health"@,
            seq![("path"@, "primary"@), ("state"@, "unknown"@)],
            ValueView::Count(if status.runtime.relay_session.primary_lane_state == "unknown"@ {
                1u64
            } else {
                0u64
            }),
        ),
        shows(
            exposition(status, queue, worker, routes),
            "av_contrib_relay_session_lane_health"@,
            seq![("path"@, "primary"@), ("state"@, "healthy"@)],
            ValueView::Count(if status.runtime.relay_session.primary_lane_state == "healthy"@ {
                1u64
            } else {
                0u64
            }),
        ),
        shows(
            exposition(status, queue, worker, routes),
            "av_contrib_relay_session_lane_health"@,
            seq![("path"@, "primary"@), ("state"@, "impaired"@)],
            ValueView::Count(if status.runtime.relay_session.primary_lane_state == "impaired"@ {
                1u64
            } else {
                0u64
            }),
        ),
        shows(
            exposition(status, queue, worker, routes),
            "av_contrib_relay_session_lane_health"@,
            seq![("path"@, "secondary"@), ("state"@, "unknown"@)],
            ValueView::Count(if status.runtime.relay_session.secondary_lane_state == "unknown"@ {
                1u64
            } else {
                0u64
            }),
        ),
        shows(
            exposition(status, queue, worker, routes),
            "av_contrib_relay_session_lane_health"@,
            seq![("path"@, "secondary"@), ("state"@, "healthy"@)],
            ValueView::Count(if status.runtime.relay_session.secondary_lane_state == "healthy"@ {
                1u64
            } else {
                0u64
            }),
        ),
        shows(
            exposition(status, queue, worker, routes),
            "av_contrib_relay_session_lane_health"@,
            seq![("path"@, "secondary"@), ("state"@, "impaired"@)],
            ValueView::Count(if status.runtime.relay_session.secondary_lane_state == "impaired"@ {
                1u64
            } else {
                0u64
            }),
        ),
        shows(
            exposition(status, queue, worker, routes),
            "av_contrib_relay_session_surviving_lane_objects_total"@,
            Seq::empty(),
            ValueView::Count(status.runtime.relay_session.surviving_lane_objects),
        ),
        shows(
            exposition(status, queue, worker, routes),
            "av_contrib_relay_session_all_lanes_failed_objects_total"@,
            Seq::empty(),
            ValueView::Count(status.runtime.relay_session.all_lanes_failed_objects),
        ),
{
    sections_follow_each_other(status, queue, worker, routes);
    let none: Seq<LineView> = Seq::empty();
    let l0 = with_audio_epoch_metrics(none, queue, worker);
    let l1 = with_configuration_metrics(l0, status);
    let l2 = with_path_metrics(l1, status, routes);
    let l3 = with_route_metrics(l2, status, routes);
    let l4 = with_clock_metrics(l3, status);
    let l5 = with_input_metrics(l4, status);
    let l6 = with_output_metrics(l5, status);
    let l7 = with_mesh_metrics(l6, status);
    let l8 = with_relay_metrics(l7, status);
    lane_metrics_are_added(l8, status);
}

/// What is counted of deadlines is exposed.
#[verifier::spinoff_prover]
#[verifier::rlimit(60)]
pub proof fn deadlines_are_exposed(
    status: StatusView,
    queue: AudioQueueStats,
    worker: AudioEpochHlsWorkerStats,
    routes: RouteTextsView,
)
    ensures
        shows(
            exposition(status, queue, worker, routes),
            "av_contrib_relay_session_deadline_objects_total"@,
            seq![("outcome"@, "hit"@)],
            ValueView::Count(status.runtime.relay_session.deadline_hits),
        ),
        shows(
            exposition(status, queue, worker, routes),
            "av_contrib_relay_session_deadline_objects_total"@,
            seq![("outcome"@, "miss"@)],
            ValueView::Count(status.runtime.relay_session.deadline_misses),
        ),
        shows(
            exposition(status, queue, worker, routes),
            "av_contrib_relay_session_expired_objects_total"@,
            Seq::empty(),
            ValueView::Count(status.runtime.relay_session.expired_objects),
        ),
        shows(
            exposition(status, queue, worker, routes),
            "av_contrib_relay_session_expired_symbols_total"@,
            Seq::empty(),
            ValueView::Count(status.runtime.relay_session.expired_symbols),
        ),
{
    sections_follow_each_other(status, queue, worker, routes);
    let none: Seq<LineView> = Seq::empty();
    let l0 = with_audio_epoch_metrics(none, queue, worker);
    let l1 = with_configuration_metrics(l0, status);
    let l2 = with_path_metrics(l1, status, routes);
    let l3 = with_route_metrics(l2, status, routes);
    let l4 = with_clock_metrics(l3, status);
    let l5 = with_input_metrics(l4, status);
    let l6 = with_output_metrics(l5, status);
    let l7 = with_mesh_metrics(l6, status);
    let l8 = with_relay_metrics(l7, status);
    let l9 = with_lane_metrics(l8, status);
    deadline_metrics_are_added(l9, status);
}

/// How long each stage of relaying took is exposed.
#[verifier::spinoff_prover]
#[verifier::rlimit(60)]
pub proof fn relay_durations_are_exposed(
    status: StatusView,
    queue: AudioQueueStats,
    worker: AudioEpochHlsWorkerStats,
    routes: RouteTextsView,
)
    ensures
        shows_histogram(
            exposition(status, queue, worker, routes),
            "av_contrib_relay_session_stage_duration_seconds_bucket"@,
            "av_contrib_relay_session_stage_duration_seconds_sum"@,
            "av_contrib_relay_session_stage_duration_seconds_count"@,
            seq![("stage"@, "total"@)],
            status.runtime.relay_session.stages.total,
        ),
        shows_histogram(
            exposition(status, queue, worker, routes),
            "av_contrib_relay_session_stage_duration_seconds_bucket"@,
            "av_contrib_relay_session_stage_duration_seconds_sum"@,
            "av_contrib_relay_session_stage_duration_seconds_count"@,
            seq![("stage"@, "encode_wait"@)],
            status.runtime.relay_session.stages.encode_wait,
        ),
        shows_histogram(
            exposition(status, queue, worker, routes),
            "av_contrib_relay_session_stage_duration_seconds_bucket"@,
            "av_contrib_relay_session_stage_duration_seconds_sum"@,
            "av_contrib_relay_session_stage_duration_seconds_count"@,
            seq![("stage"@, "encode"@)],
            status.runtime.relay_session.stages.encode,
        ),
        shows_histogram(
            exposition(status, queue, worker, routes),
            "av_contrib_relay_session_stage_duration_seconds_bucket"@,
            "av_contrib_relay_session_stage_duration_seconds_sum"@,
            "av_contrib_relay_session_stage_duration_seconds_count"@,
            seq![("stage"@, "schedule"@)],
            status.runtime.relay_session.stages.schedule,
        ),
        shows_histogram(
            exposition(status, queue, worker, routes),
            "av_contrib_relay_session_stage_duration_seconds_bucket"@,
            "av_contrib_relay_session_stage_duration_seconds_sum"@,
            "av_contrib_relay_session_stage_duration_seconds_count"@,
            seq![("stage"@, "send_primary_source"@)],
            status.runtime.relay_session.stages.primary_source_send,
        ),
        shows_histogram(
            exposition(status, queue, worker, routes),
            "av_contrib_relay_session_stage_duration_seconds_bucket"@,
            "av_contrib_relay_session_stage_duration_seconds_sum"@,
            "av_contrib_relay_session_stage_duration_seconds_count"@,
            seq![("stage"@, "send_secondary_source"@)],
            status.runtime.relay_session.stages.secondary_source_send,
        ),
        shows_histogram(
            exposition(status, queue, worker, routes),
            "av_contrib_relay_session_stage_duration_seconds_bucket"@,
            "av_contrib_relay_session_stage_duration_seconds_sum"@,
            "av_contrib_relay_session_stage_duration_seconds_count"@,
            seq![("stage"@, "send_primary_repair"@)],
            status.runtime.relay_session.stages.primary_repair_send,
        ),
        shows_histogram(
            exposition(status, queue, worker, routes),
            "av_contrib_relay_session_stage_duration_seconds_bucket"@,
            "av_contrib_relay_session_stage_duration_seconds_sum"@,
            "av_contrib_relay_session_stage_duration_seconds_count"@,
            seq![("stage"@, "send_secondary_repair"@)],
            status.runtime.relay_session.stages.secondary_repair_send,
        ),
{
    sections_follow_each_other(status, queue, worker, routes);
    let none: Seq<LineView> = Seq::empty();
    let l0 = with_audio_epoch_metrics(none, queue, worker);
    let l1 = with_configuration_metrics(l0, status);
    let l2 = with_path_metrics(l1, status, routes);
    let l3 = with_route_metrics(l2, status, routes);
    let l4 = with_clock_metrics(l3, status);
    let l5 = with_input_metrics(l4, status);
    let l6 = with_output_metrics(l5, status);
    let l7 = with_mesh_metrics(l6, status);
    let l8 = with_relay_metrics(l7, status);
    let l9 = with_lane_metrics(l8, status);
    let l10 = with_deadline_metrics(l9, status);
    relay_durations_are_added(l10, status);
}

/// How long forwarding took is exposed.
#[verifier::spinoff_prover]
#[verifier::rlimit(60)]
pub proof fn forward_durations_are_exposed(
    status: StatusView,
    queue: AudioQueueStats,
    worker: AudioEpochHlsWorkerStats,
    routes: RouteTextsView,
)
    ensures
        shows_histogram(
            exposition(status, queue, worker, routes),
            "av_contrib_mesh_forward_duration_seconds_bucket"@,
            "av_contrib_mesh_forward_duration_seconds_sum"@,
            "av_contrib_mesh_forward_duration_seconds_count"@,
            seq![("kind"@, "stream"@)],
            status.runtime.mesh_forward.stream_duration,
        ),
        shows_histogram(
            exposition(status, queue, worker, routes),
            "av_contrib_mesh_forward_duration_seconds_bucket"@,
            "av_contrib_mesh_forward_duration_seconds_sum"@,
            "av_contrib_mesh_forward_duration_seconds_count"@,
            seq![("kind"@, "media"@)],
            status.runtime.mesh_forward.media_duration,
        ),
{
    sections_follow_each_other(status, queue, worker, routes);
    let none: Seq<LineView> = Seq::empty();
    let l0 = with_audio_epoch_metrics(none, queue, worker);
    let l1 = with_configuration_metrics(l0, status);
    let l2 = with_path_metrics(l1, status, routes);
    let l3 = with_route_metrics(l2, status, routes);
    let l4 = with_clock_metrics(l3, status);
    let l5 = with_input_metrics(l4, status);
    let l6 = with_output_metrics(l5, status);
    let l7 = with_mesh_metrics(l6, status);
    let l8 = with_relay_metrics(l7, status);
    let l9 = with_lane_metrics(l8, status);
    let l10 = with_deadline_metrics(l9, status);
    let l11 = with_relay_durations(l10, status);
    mesh_durations_are_added(l11, status);
}

/// How long each stage of forwarding took is exposed.
#[verifier::spinoff_prover]
#[verifier::rlimit(60)]
pub proof fn forward_stages_are_exposed(
    status: StatusView,
    queue: AudioQueueStats,
    worker: AudioEpochHlsWorkerStats,
    routes: RouteTextsView,
)
    ensures
        shows_histogram(
            exposition(status, queue, worker, routes),
            "av_contrib_mesh_forward_stage_duration_seconds_bucket"@,
            "av_contrib_mesh_forward_stage_duration_seconds_sum"@,
            "av_contrib_mesh_forward_stage_duration_seconds_count"@,
            seq![("kind"@, "stream"@), ("stage"@, "encode_wait"@)],
            status.runtime.mesh_forward.stream_stages.encode_wait,
        ),
        shows_histogram(
            exposition(status, queue, worker, routes),
            "av_contrib_mesh_forward_stage_duration_seconds_bucket"@,
            "av_contrib_mesh_forward_stage_duration_seconds_sum"@,
            "av_contrib_mesh_forward_stage_duration_seconds_count"@,
            seq![("kind"@, "stream"@), ("stage"@, "encode"@)],
            status.runtime.mesh_forward.stream_stages.encode,
        ),
        shows_histogram(
            exposition(status, queue, worker, routes),
            "av_contrib_mesh_forward_stage_duration_seconds_bucket"@,
            "av_contrib_mesh_forward_stage_duration_seconds_sum"@,
            "av_contrib_mesh_forward_stage_duration_seconds_count"@,
            seq![("kind"@, "stream"@), ("stage"@, "send"@)],
            status.runtime.mesh_forward.stream_stages.send,
        ),
        shows_histogram(
            exposition(status, queue, worker, routes),
            "av_contrib_mesh_forward_stage_duration_seconds_bucket"@,
            "av_contrib_mesh_forward_stage_duration_seconds_sum"@,
            "av_contrib_mesh_forward_stage_duration_seconds_count"@,
            seq![("kind"@, "stream"@), ("stage"@, "telemetry"@)],
            status.runtime.mesh_forward.stream_stages.telemetry,
        ),
        shows_histogram(
            exposition(status, queue, worker, routes),
            "av_contrib_mesh_forward_stage_duration_seconds_bucket"@,
            "av_contrib_mesh_forward_stage_duration_seconds_sum"@,
            "av_contrib_mesh_forward_stage_duration_seconds_count"@,
            seq![("kind"@, "media"@), ("stage"@, "encode_wait"@)],
            status.runtime.mesh_forward.media_stages.encode_wait,
        ),
        shows_histogram(
            exposition(status, queue, worker, routes),
            "av_contrib_mesh_forward_stage_duration_seconds_bucket"@,
            "av_contrib_mesh_forward_stage_duration_seconds_sum"@,
            "av_contrib_mesh_forward_stage_duration_seconds_count"@,
            seq![("kind"@, "media"@), ("stage"@, "encode"@)],
            status.runtime.mesh_forward.media_stages.encode,
        ),
        shows_histogram(
            exposition(status, queue, worker, routes),
            "av_contrib_mesh_forward_stage_duration_seconds_bucket"@,
            "av_contrib_mesh_forward_stage_duration_seconds_sum"@,
            "av_contrib_mesh_forward_stage_duration_seconds_count"@,
            seq![("kind"@, "media"@), ("stage"@, "send"@)],
            status.runtime.mesh_forward.media_stages.send,
        ),
        shows_histogram(
            exposition(status, queue, worker, routes),
            "av_contrib_mesh_forward_stage_duration_seconds_bucket"@,
            "av_contrib_mesh_forward_stage_duration_seconds_sum"@,
            "av_contrib_mesh_forward_stage_duration_seconds_count"@,
            seq![("kind"@, "media"@), ("stage"@, "telemetry"@)],
            status.runtime.mesh_forward.media_stages.telemetry,
        ),
{
    sections_follow_each_other(status, queue, worker, routes);
    let none: Seq<LineView> = Seq::empty();
    let l0 = with_audio_epoch_metrics(none, queue, worker);
    let l1 = with_configuration_metrics(l0, status);
    let l2 = with_path_metrics(l1, status, routes);
    let l3 = with_route_metrics(l2, status, routes);
    let l4 = with_clock_metrics(l3, status);
    let l5 = with_input_metrics(l4, status);
    let l6 = with_output_metrics(l5, status);
    let l7 = with_mesh_metrics(l6, status);
    let l8 = with_relay_metrics(l7, status);
    let l9 = with_lane_metrics(l8, status);
    let l10 = with_deadline_metrics(l9, status);
    let l11 = with_relay_durations(l10, status);
    let l12 = with_mesh_durations(l11, status);
    mesh_stage_durations_are_added(l12, status);
}

/// How long ago something was last seen is exposed where it was.
#[verifier::spinoff_prover]
#[verifier::rlimit(60)]
pub proof fn ages_are_exposed(
    status: StatusView,
    queue: AudioQueueStats,
    worker: AudioEpochHlsWorkerStats,
    routes: RouteTextsView,
)
    ensures
        status.health.last_input_age_ms is Some ==> shows(
            exposition(status, queue, worker, routes),
            "av_contrib_last_seen_age_seconds"@,
            seq![("stage"@, "input"@)],
            ValueView::Millis(status.health.last_input_age_ms->Some_0),
        ),
        status.health.last_fmp4_input_age_ms is Some ==> shows(
            exposition(status, queue, worker, routes),
            "av_contrib_last_seen_age_seconds"@,
            seq![("stage"@, "fmp4_input"@)],
            ValueView::Millis(status.health.last_fmp4_input_age_ms->Some_0),
        ),
        status.health.last_output_age_ms is Some ==> shows(
            exposition(status, queue, worker, routes),
            "av_contrib_last_seen_age_seconds"@,
            seq![("stage"@, "fmp4_output"@)],
            ValueView::Millis(status.health.last_output_age_ms->Some_0),
        ),
        status.runtime.mesh_forward.stream_last_age_ms is Some ==> shows(
            exposition(status, queue, worker, routes),
            "av_contrib_last_seen_age_seconds"@,
            seq![("stage"@, "mesh_stream"@)],
            ValueView::Millis(status.runtime.mesh_forward.stream_last_age_ms->Some_0),
        ),
        status.runtime.mesh_forward.media_last_age_ms is Some ==> shows(
            exposition(status, queue, worker, routes),
            "av_contrib_last_seen_age_seconds"@,
            seq![("stage"@, "mesh_media"@)],
            ValueView::Millis(status.runtime.mesh_forward.media_last_age_ms->Some_0),
        ),
{
    sections_follow_each_other(status, queue, worker, routes);
    let none: Seq<LineView> = Seq::empty();
    let l0 = with_audio_epoch_metrics(none, queue, worker);
    let l1 = with_configuration_metrics(l0, status);
    let l2 = with_path_metrics(l1, status, routes);
    let l3 = with_route_metrics(l2, status, routes);
    let l4 = with_clock_metrics(l3, status);
    let l5 = with_input_metrics(l4, status);
    let l6 = with_output_metrics(l5, status);
    let l7 = with_mesh_metrics(l6, status);
    let l8 = with_relay_metrics(l7, status);
    let l9 = with_lane_metrics(l8, status);
    let l10 = with_deadline_metrics(l9, status);
    let l11 = with_relay_durations(l10, status);
    let l12 = with_mesh_durations(l11, status);
    let l13 = with_mesh_stage_durations(l12, status);
    age_metrics_are_added(l13, status);
}

/// What is counted of every stream is exposed.
#[verifier::spinoff_prover]
#[verifier::rlimit(60)]
pub proof fn every_stream_is_exposed(
    status: StatusView,
    queue: AudioQueueStats,
    worker: AudioEpochHlsWorkerStats,
    routes: RouteTextsView,
)
    ensures
        forall|i: int|
            0 <= i < status.runtime.streams.len() ==> shows_stream(exposition(status, queue, worker, routes), #[trigger] status.runtime.streams[i]),
{
    sections_follow_each_other(status, queue, worker, routes);
    let none: Seq<LineView> = Seq::empty();
    let l0 = with_audio_epoch_metrics(none, queue, worker);
    let l1 = with_configuration_metrics(l0, status);
    let l2 = with_path_metrics(l1, status, routes);
    let l3 = with_route_metrics(l2, status, routes);
    let l4 = with_clock_metrics(l3, status);
    let l5 = with_input_metrics(l4, status);
    let l6 = with_output_metrics(l5, status);
    let l7 = with_mesh_metrics(l6, status);
    let l8 = with_relay_metrics(l7, status);
    let l9 = with_lane_metrics(l8, status);
    let l10 = with_deadline_metrics(l9, status);
    let l11 = with_relay_durations(l10, status);
    let l12 = with_mesh_durations(l11, status);
    let l13 = with_mesh_stage_durations(l12, status);
    let l14 = with_age_metrics(l13, status);
    stream_metrics_are_added(l14, status);
}

/// What is counted of every protocol is exposed.
#[verifier::spinoff_prover]
#[verifier::rlimit(60)]
pub proof fn every_protocol_is_exposed(
    status: StatusView,
    queue: AudioQueueStats,
    worker: AudioEpochHlsWorkerStats,
    routes: RouteTextsView,
)
    ensures
        forall|i: int|
            0 <= i < status.runtime.protocols.len() ==> shows_protocol(exposition(status, queue, worker, routes), #[trigger] status.runtime.protocols[i]),
{
    sections_follow_each_other(status, queue, worker, routes);
    let none: Seq<LineView> = Seq::empty();
    let l0 = with_audio_epoch_metrics(none, queue, worker);
    let l1 = with_configuration_metrics(l0, status);
    let l2 = with_path_metrics(l1, status, routes);
    let l3 = with_route_metrics(l2, status, routes);
    let l4 = with_clock_metrics(l3, status);
    let l5 = with_input_metrics(l4, status);
    let l6 = with_output_metrics(l5, status);
    let l7 = with_mesh_metrics(l6, status);
    let l8 = with_relay_metrics(l7, status);
    let l9 = with_lane_metrics(l8, status);
    let l10 = with_deadline_metrics(l9, status);
    let l11 = with_relay_durations(l10, status);
    let l12 = with_mesh_durations(l11, status);
    let l13 = with_mesh_stage_durations(l12, status);
    let l14 = with_age_metrics(l13, status);
    let l15 = with_stream_metrics(l14, status);
    protocol_metrics_are_added(l15, status);
}

} // verus!
