//! The service's metrics, section by section.
use crate::arith::cap_u64;
use crate::audio_epoch_hls::worker::AudioEpochHlsWorkerStats;
use crate::ranking::views;
use crate::service::events::text_view;
use crate::service::histogram::DurationHistogramSnapshot;
use crate::service::metrics::{
    escaped, header_line, labelled, labelled_thrice, labelled_twice, lines_view, pairs_view, plain,
    prometheus_label_value, push_histogram, push_labelled, push_labelled_thrice,
    push_labelled_twice, push_number, push_plain, push_prometheus_metric_header, with_histogram,
    with_number, HistogramNames, LineView, MetricLine, MetricValue, ValueView,
};
use crate::service::status::{ContribStatusSnapshot, StatusView};
use crate::service::streams::{
    age, age_of, ContribStreamRuntimeSnapshot, ProtocolRuntimeSnapshot, ProtocolSnapshotView,
    StreamSnapshotView,
};
use crate::text::text_equal;
use vstd::prelude::*;
use vstd::string::*;

verus! {

/// The handoff of datagrams to the audio packager.
#[derive(Debug, Clone, Copy, PartialEq, Eq, Structural)]
pub struct AudioQueueStats {
    pub capacity: u64,
    pub enqueued: u64,
    pub dropped: u64,
    pub max_depth: u64,
}

/// What was observed of a route, as it is shown.
#[derive(Debug)]
pub struct RouteText {
    pub loss: String,
    pub rtt: String,
    pub best_direct_rtt: String,
    pub jitter: String,
    pub queue_delay: String,
    /// How much longer the route is than the fastest direct one, where that is known.
    pub stretch: Option<String>,
}

/// What a [`RouteText`] spells.
pub struct RouteTextView {
    pub loss: Seq<char>,
    pub rtt: Seq<char>,
    pub best_direct_rtt: Seq<char>,
    pub jitter: Seq<char>,
    pub queue_delay: Seq<char>,
    pub stretch: Option<Seq<char>>,
}

impl View for RouteText {
    type V = RouteTextView;

    open spec fn view(&self) -> RouteTextView {
        RouteTextView {
            loss: self.loss@,
            rtt: self.rtt@,
            best_direct_rtt: self.best_direct_rtt@,
            jitter: self.jitter@,
            queue_delay: self.queue_delay@,
            stretch: text_view(self.stretch),
        }
    }
}

/// What was observed of both routes, as it is shown.
#[derive(Debug)]
pub struct RouteTexts {
    pub path_loss: String,
    pub primary: RouteText,
    pub secondary: RouteText,
}

/// What [`RouteTexts`] spell.
pub struct RouteTextsView {
    pub path_loss: Seq<char>,
    pub primary: RouteTextView,
    pub secondary: RouteTextView,
}

impl View for RouteTexts {
    type V = RouteTextsView;

    open spec fn view(&self) -> RouteTextsView {
        RouteTextsView {
            path_loss: self.path_loss@,
            primary: self.primary@,
            secondary: self.secondary@,
        }
    }
}

/// A condition as a gauge shows it.
pub open spec fn flag_value(condition: bool) -> u64 {
    if condition {
        1
    } else {
        0
    }
}

fn flag(condition: bool) -> (r: u64)
    ensures
        r == flag_value(condition),
{
    if condition {
        1
    } else {
        0
    }
}

/// The names of the durations of relaying.
pub open spec fn relay_stage_names() -> HistogramNames {
    HistogramNames {
        bucket: "av_contrib_relay_session_stage_duration_seconds_bucket",
        sum: "av_contrib_relay_session_stage_duration_seconds_sum",
        count: "av_contrib_relay_session_stage_duration_seconds_count",
    }
}

/// The names of the durations of forwarding.
pub open spec fn mesh_duration_names() -> HistogramNames {
    HistogramNames {
        bucket: "av_contrib_mesh_forward_duration_seconds_bucket",
        sum: "av_contrib_mesh_forward_duration_seconds_sum",
        count: "av_contrib_mesh_forward_duration_seconds_count",
    }
}

/// The names of the durations of the stages of forwarding.
pub open spec fn mesh_stage_names() -> HistogramNames {
    HistogramNames {
        bucket: "av_contrib_mesh_forward_stage_duration_seconds_bucket",
        sum: "av_contrib_mesh_forward_stage_duration_seconds_sum",
        count: "av_contrib_mesh_forward_stage_duration_seconds_count",
    }
}

fn push_relay_stage_names_once(
    lines: &mut Vec<MetricLine>,
    label: (&'static str, &'static str),
    histogram: &DurationHistogramSnapshot,
)
    ensures
        lines_view(final(lines)@) == with_histogram(
            lines_view(old(lines)@),
            relay_stage_names(),
            seq![(label.0@, label.1@)],
            histogram@,
        ),
{
    let mut labels: Vec<(&'static str, &'static str)> = Vec::new();
    labels.push(label);
    assert(pairs_view(labels@) =~= seq![(label.0@, label.1@)]);
    let names = HistogramNames {
        bucket: "av_contrib_relay_session_stage_duration_seconds_bucket",
        sum: "av_contrib_relay_session_stage_duration_seconds_sum",
        count: "av_contrib_relay_session_stage_duration_seconds_count",
    };
    push_histogram(lines, names, &labels, histogram);
}

fn push_mesh_duration_names_once(
    lines: &mut Vec<MetricLine>,
    label: (&'static str, &'static str),
    histogram: &DurationHistogramSnapshot,
)
    ensures
        lines_view(final(lines)@) == with_histogram(
            lines_view(old(lines)@),
            mesh_duration_names(),
            seq![(label.0@, label.1@)],
            histogram@,
        ),
{
    let mut labels: Vec<(&'static str, &'static str)> = Vec::new();
    labels.push(label);
    assert(pairs_view(labels@) =~= seq![(label.0@, label.1@)]);
    let names = HistogramNames {
        bucket: "av_contrib_mesh_forward_duration_seconds_bucket",
        sum: "av_contrib_mesh_forward_duration_seconds_sum",
        count: "av_contrib_mesh_forward_duration_seconds_count",
    };
    push_histogram(lines, names, &labels, histogram);
}

fn push_mesh_stage_names_twice(
    lines: &mut Vec<MetricLine>,
    a: (&'static str, &'static str),
    b: (&'static str, &'static str),
    histogram: &DurationHistogramSnapshot,
)
    ensures
        lines_view(final(lines)@) == with_histogram(
            lines_view(old(lines)@),
            mesh_stage_names(),
            seq![(a.0@, a.1@), (b.0@, b.1@)],
            histogram@,
        ),
{
    let mut labels: Vec<(&'static str, &'static str)> = Vec::new();
    labels.push(a);
    labels.push(b);
    assert(pairs_view(labels@) =~= seq![(a.0@, a.1@), (b.0@, b.1@)]);
    let names = HistogramNames {
        bucket: "av_contrib_mesh_forward_stage_duration_seconds_bucket",
        sum: "av_contrib_mesh_forward_stage_duration_seconds_sum",
        count: "av_contrib_mesh_forward_stage_duration_seconds_count",
    };
    push_histogram(lines, names, &labels, histogram);
}

/// Lines with the stretch of the path behind them, where it is known.
pub open spec fn with_path_stretch(before: Seq<LineView>, stretch: Option<Seq<char>>) -> Seq<LineView> {
    match stretch {
        Some(stretch) => before.push(
            header_line(
                "av_contrib_relay_session_path_stretch_ratio"@,
                "Selected source-route RTT divided by the fastest measured direct RTT."@,
                "gauge"@,
            ),
        ).push(plain("av_contrib_relay_session_path_stretch_ratio"@, ValueView::Text(stretch))),
        None => before,
    }
}

fn push_path_stretch(lines: &mut Vec<MetricLine>, stretch: &Option<String>)
    ensures
        lines_view(final(lines)@) == with_path_stretch(
            lines_view(old(lines)@),
            text_view(*stretch),
        ),
{
    if let Some(stretch) = stretch {
        push_prometheus_metric_header(
            lines,
            "av_contrib_relay_session_path_stretch_ratio",
            "Selected source-route RTT divided by the fastest measured direct RTT.",
            "gauge",
        );
        push_plain(
            lines,
            "av_contrib_relay_session_path_stretch_ratio",
            MetricValue::Text(stretch.clone()),
        );
    }
}

/// Lines with the age of the path's observation behind them, where there is one.
pub open spec fn with_path_age(before: Seq<LineView>, observed_at: Option<u64>, now_ms: u64) -> Seq<
    LineView,
> {
    match age(now_ms, observed_at) {
        Some(age_ms) => before.push(
            header_line(
                "av_contrib_relay_session_path_observation_age_seconds"@,
                "Wall-clock age of the controller path observation driving adaptive RaptorQ policy."@,
                "gauge"@,
            ),
        ).push(
            plain(
                "av_contrib_relay_session_path_observation_age_seconds"@,
                ValueView::Millis(age_ms),
            ),
        ),
        None => before,
    }
}

fn push_path_age(lines: &mut Vec<MetricLine>, observed_at: Option<u64>, now_ms: u64)
    ensures
        lines_view(final(lines)@) == with_path_age(lines_view(old(lines)@), observed_at, now_ms),
{
    if let Some(age_ms) = age_of(now_ms, observed_at) {
        push_prometheus_metric_header(
            lines,
            "av_contrib_relay_session_path_observation_age_seconds",
            "Wall-clock age of the controller path observation driving adaptive RaptorQ policy.",
            "gauge",
        );
        push_plain(
            lines,
            "av_contrib_relay_session_path_observation_age_seconds",
            MetricValue::Millis(age_ms),
        );
    }
}

/// Lines with one route behind them.
pub open spec fn with_route(
    before: Seq<LineView>,
    path: Seq<char>,
    source: Seq<char>,
    route: RouteTextView,
    age_ms: Option<u64>,
) -> Seq<LineView> {
    let at = ("path"@, path);
    let observed = before.push(
        labelled_twice(
            "av_contrib_relay_session_route_observation_info"@,
            at,
            ("source"@, escaped(source)),
            ValueView::Count(1),
        ),
    ).push(
        labelled(
            "av_contrib_relay_session_route_loss_fraction"@,
            at,
            ValueView::Text(route.loss),
        ),
    ).push(
        labelled("av_contrib_relay_session_route_rtt_seconds"@, at, ValueView::Text(route.rtt)),
    ).push(
        labelled(
            "av_contrib_relay_session_route_best_direct_rtt_seconds"@,
            at,
            ValueView::Text(route.best_direct_rtt),
        ),
    ).push(
        labelled(
            "av_contrib_relay_session_route_jitter_seconds"@,
            at,
            ValueView::Text(route.jitter),
        ),
    ).push(
        labelled(
            "av_contrib_relay_session_route_queue_delay_seconds"@,
            at,
            ValueView::Text(route.queue_delay),
        ),
    );
    let stretched = match route.stretch {
        Some(stretch) => observed.push(
            labelled(
                "av_contrib_relay_session_route_stretch_ratio"@,
                at,
                ValueView::Text(stretch),
            ),
        ),
        None => observed,
    };
    match age_ms {
        Some(age_ms) => stretched.push(
            labelled(
                "av_contrib_relay_session_route_observation_age_seconds"@,
                at,
                ValueView::Millis(age_ms),
            ),
        ),
        None => stretched,
    }
}

fn push_route(
    lines: &mut Vec<MetricLine>,
    path: &'static str,
    source: &'static str,
    route: &RouteText,
    age_ms: Option<u64>,
)
    ensures
        lines_view(final(lines)@) == with_route(
            lines_view(old(lines)@),
            path@,
            source@,
            route@,
            age_ms,
        ),
{
    let shown = prometheus_label_value(source);
    push_labelled_twice(
        lines,
        "av_contrib_relay_session_route_observation_info",
        ("path", path),
        ("source", shown.as_str()),
        MetricValue::Count(1),
    );
    push_labelled(
        lines,
        "av_contrib_relay_session_route_loss_fraction",
        ("path", path),
        MetricValue::Text(route.loss.clone()),
    );
    push_labelled(
        lines,
        "av_contrib_relay_session_route_rtt_seconds",
        ("path", path),
        MetricValue::Text(route.rtt.clone()),
    );
    push_labelled(
        lines,
        "av_contrib_relay_session_route_best_direct_rtt_seconds",
        ("path", path),
        MetricValue::Text(route.best_direct_rtt.clone()),
    );
    push_labelled(
        lines,
        "av_contrib_relay_session_route_jitter_seconds",
        ("path", path),
        MetricValue::Text(route.jitter.clone()),
    );
    push_labelled(
        lines,
        "av_contrib_relay_session_route_queue_delay_seconds",
        ("path", path),
        MetricValue::Text(route.queue_delay.clone()),
    );
    if let Some(stretch) = &route.stretch {
        push_labelled(
            lines,
            "av_contrib_relay_session_route_stretch_ratio",
            ("path", path),
            MetricValue::Text(stretch.clone()),
        );
    }
    if let Some(age_ms) = age_ms {
        push_labelled(
            lines,
            "av_contrib_relay_session_route_observation_age_seconds",
            ("path", path),
            MetricValue::Millis(age_ms),
        );
    }
}

/// Lines with the latest deadline behind them, where there is one.
pub open spec fn with_deadline(before: Seq<LineView>, deadline_us: Option<u64>) -> Seq<LineView> {
    match deadline_us {
        Some(deadline_us) => before.push(
            header_line(
                "av_contrib_relay_session_last_deadline_seconds"@,
                "Unix expiry of the latest successfully emitted RelaySession object."@,
                "gauge"@,
            ),
        ).push(
            plain(
                "av_contrib_relay_session_last_deadline_seconds"@,
                ValueView::Micros(deadline_us),
            ),
        ),
        None => before,
    }
}

fn push_deadline(lines: &mut Vec<MetricLine>, deadline_us: Option<u64>)
    ensures
        lines_view(final(lines)@) == with_deadline(lines_view(old(lines)@), deadline_us),
{
    if let Some(deadline_us) = deadline_us {
        push_prometheus_metric_header(
            lines,
            "av_contrib_relay_session_last_deadline_seconds",
            "Unix expiry of the latest successfully emitted RelaySession object.",
            "gauge",
        );
        push_plain(
            lines,
            "av_contrib_relay_session_last_deadline_seconds",
            MetricValue::Micros(deadline_us),
        );
    }
}

/// Lines with what the latest deadline leaves behind them, where there is one.
pub open spec fn with_headroom(before: Seq<LineView>, headroom_us: Option<u64>) -> Seq<LineView> {
    match headroom_us {
        Some(headroom_us) => before.push(
            header_line(
                "av_contrib_relay_session_last_deadline_headroom_seconds"@,
                "Remaining headroom for the latest successfully emitted RelaySession deadline."@,
                "gauge"@,
            ),
        ).push(
            plain(
                "av_contrib_relay_session_last_deadline_headroom_seconds"@,
                ValueView::Micros(headroom_us),
            ),
        ),
        None => before,
    }
}

fn push_headroom(lines: &mut Vec<MetricLine>, headroom_us: Option<u64>)
    ensures
        lines_view(final(lines)@) == with_headroom(lines_view(old(lines)@), headroom_us),
{
    if let Some(headroom_us) = headroom_us {
        push_prometheus_metric_header(
            lines,
            "av_contrib_relay_session_last_deadline_headroom_seconds",
            "Remaining headroom for the latest successfully emitted RelaySession deadline.",
            "gauge",
        );
        push_plain(
            lines,
            "av_contrib_relay_session_last_deadline_headroom_seconds",
            MetricValue::Micros(headroom_us),
        );
    }
}

/// Lines with the age of a stage behind them, where it was seen.
pub open spec fn with_stage_age(before: Seq<LineView>, stage: Seq<char>, age_ms: Option<u64>) -> Seq<
    LineView,
> {
    match age_ms {
        Some(age_ms) => before.push(
            labelled(
                "av_contrib_last_seen_age_seconds"@,
                ("stage"@, stage),
                ValueView::Millis(age_ms),
            ),
        ),
        None => before,
    }
}

fn push_stage_age(lines: &mut Vec<MetricLine>, stage: &'static str, age_ms: Option<u64>)
    ensures
        lines_view(final(lines)@) == with_stage_age(lines_view(old(lines)@), stage@, age_ms),
{
    if let Some(age_ms) = age_ms {
        push_labelled(
            lines,
            "av_contrib_last_seen_age_seconds",
            ("stage", stage),
            MetricValue::Millis(age_ms),
        );
    }
}

/// Lines with the age of a stream's stage behind them, where it was seen.
pub open spec fn with_stream_age(
    before: Seq<LineView>,
    stream: (Seq<char>, Seq<char>),
    state: (Seq<char>, Seq<char>),
    stage: Seq<char>,
    age_ms: Option<u64>,
) -> Seq<LineView> {
    match age_ms {
        Some(age_ms) => before.push(
            labelled_thrice(
                "av_contrib_stream_last_seen_age_seconds"@,
                stream,
                state,
                ("stage"@, stage),
                ValueView::Millis(age_ms),
            ),
        ),
        None => before,
    }
}

fn push_stream_age(
    lines: &mut Vec<MetricLine>,
    stream: &str,
    state: &str,
    stage: &'static str,
    age_ms: Option<u64>,
)
    ensures
        lines_view(final(lines)@) == with_stream_age(
            lines_view(old(lines)@),
            ("stream_id"@, stream@),
            ("state"@, state@),
            stage@,
            age_ms,
        ),
{
    if let Some(age_ms) = age_ms {
        push_labelled_thrice(
            lines,
            "av_contrib_stream_last_seen_age_seconds",
            ("stream_id", stream),
            ("state", state),
            ("stage", stage),
            MetricValue::Millis(age_ms),
        );
    }
}

/// Lines with one stream behind them.
pub open spec fn with_one_stream(before: Seq<LineView>, stream: StreamSnapshotView) -> Seq<LineView> {
    let id = ("stream_id"@, escaped(stream.stream_id_text));
    let state = ("state"@, escaped(stream.state));
    let counted = before.push(
        labelled_twice(
            "av_contrib_stream_input_bytes_total"@,
            id,
            state,
            ValueView::Count(stream.input_bytes),
        ),
    ).push(
        labelled_twice(
            "av_contrib_stream_mesh_bytes_total"@,
            id,
            state,
            ValueView::Count(stream.mesh_payload_bytes),
        ),
    ).push(
        labelled_twice(
            "av_contrib_stream_mesh_errors_total"@,
            id,
            state,
            ValueView::Count(stream.mesh_errors),
        ),
    ).push(
        labelled_twice(
            "av_contrib_stream_fmp4_parts_total"@,
            id,
            state,
            ValueView::Count(stream.fmp4_parts),
        ),
    );
    let numbered = match stream.latest_fmp4_sequence {
        Some(sequence) => counted.push(
            labelled_twice(
                "av_contrib_stream_latest_fmp4_sequence"@,
                id,
                state,
                ValueView::Count(sequence),
            ),
        ),
        None => counted,
    };
    with_stream_age(
        with_stream_age(
            with_stream_age(numbered, id, state, "input"@, stream.last_input_age_ms),
            id,
            state,
            "mesh_forward"@,
            stream.last_mesh_forward_age_ms,
        ),
        id,
        state,
        "fmp4"@,
        stream.last_fmp4_age_ms,
    )
}

fn push_one_stream(lines: &mut Vec<MetricLine>, stream: &ContribStreamRuntimeSnapshot)
    ensures
        lines_view(final(lines)@) == with_one_stream(lines_view(old(lines)@), stream@),
{
    let id = prometheus_label_value(stream.stream_id_text.as_str());
    let state = prometheus_label_value(stream.state);
    push_labelled_twice(
        lines,
        "av_contrib_stream_input_bytes_total",
        ("stream_id", id.as_str()),
        ("state", state.as_str()),
        MetricValue::Count(stream.input_bytes),
    );
    push_labelled_twice(
        lines,
        "av_contrib_stream_mesh_bytes_total",
        ("stream_id", id.as_str()),
        ("state", state.as_str()),
        MetricValue::Count(stream.mesh_payload_bytes),
    );
    push_labelled_twice(
        lines,
        "av_contrib_stream_mesh_errors_total",
        ("stream_id", id.as_str()),
        ("state", state.as_str()),
        MetricValue::Count(stream.mesh_errors),
    );
    push_labelled_twice(
        lines,
        "av_contrib_stream_fmp4_parts_total",
        ("stream_id", id.as_str()),
        ("state", state.as_str()),
        MetricValue::Count(stream.fmp4_parts),
    );
    if let Some(sequence) = stream.latest_fmp4_sequence {
        push_labelled_twice(
            lines,
            "av_contrib_stream_latest_fmp4_sequence",
            ("stream_id", id.as_str()),
            ("state", state.as_str()),
            MetricValue::Count(sequence),
        );
    }
    push_stream_age(lines, id.as_str(), state.as_str(), "input", stream.last_input_age_ms);
    push_stream_age(
        lines,
        id.as_str(),
        state.as_str(),
        "mesh_forward",
        stream.last_mesh_forward_age_ms,
    );
    push_stream_age(lines, id.as_str(), state.as_str(), "fmp4", stream.last_fmp4_age_ms);
}

/// Lines with some streams behind them.
pub open spec fn with_streams(before: Seq<LineView>, streams: Seq<StreamSnapshotView>) -> Seq<LineView>
    decreases streams.len(),
{
    if streams.len() == 0 {
        before
    } else {
        with_one_stream(with_streams(before, streams.drop_last()), streams.last())
    }
}

fn push_streams(lines: &mut Vec<MetricLine>, streams: &Vec<ContribStreamRuntimeSnapshot>)
    ensures
        lines_view(final(lines)@) == with_streams(lines_view(old(lines)@), views(streams@)),
{
    let ghost before = lines_view(lines@);
    let ghost all = views(streams@);
    let mut i: usize = 0;
    assert(all.take(0) =~= Seq::empty());
    while i < streams.len()
        invariant
            i <= streams@.len(),
            all == views(streams@),
            lines_view(lines@) == with_streams(before, all.take(i as int)),
        decreases streams@.len() - i,
    {
        assert(all.take(i + 1).drop_last() =~= all.take(i as int));
        assert(all.take(i + 1).last() == streams@[i as int]@);
        push_one_stream(lines, &streams[i]);
        i = i + 1;
    }
    assert(all.take(i as int) =~= all);
}

/// Lines with one protocol behind them.
pub open spec fn with_one_protocol(before: Seq<LineView>, protocol: ProtocolSnapshotView) -> Seq<
    LineView,
> {
    let name = ("protocol"@, escaped(protocol.protocol));
    before.push(
        labelled("av_contrib_protocol_units_total"@, name, ValueView::Count(protocol.units)),
    ).push(
        labelled("av_contrib_protocol_bytes_total"@, name, ValueView::Count(protocol.bytes)),
    ).push(
        labelled_twice(
            "av_contrib_protocol_sessions"@,
            name,
            ("state"@, "active"@),
            ValueView::Count(protocol.active_sessions as u64),
        ),
    ).push(
        labelled_twice(
            "av_contrib_protocol_sessions"@,
            name,
            ("state"@, "ended"@),
            ValueView::Count(protocol.ended_sessions as u64),
        ),
    )
}

fn push_one_protocol(lines: &mut Vec<MetricLine>, protocol: &ProtocolRuntimeSnapshot)
    ensures
        lines_view(final(lines)@) == with_one_protocol(lines_view(old(lines)@), protocol@),
{
    let name = prometheus_label_value(protocol.protocol);
    push_labelled(
        lines,
        "av_contrib_protocol_units_total",
        ("protocol", name.as_str()),
        MetricValue::Count(protocol.units),
    );
    push_labelled(
        lines,
        "av_contrib_protocol_bytes_total",
        ("protocol", name.as_str()),
        MetricValue::Count(protocol.bytes),
    );
    push_labelled_twice(
        lines,
        "av_contrib_protocol_sessions",
        ("protocol", name.as_str()),
        ("state", "active"),
        MetricValue::Count(protocol.active_sessions as u64),
    );
    push_labelled_twice(
        lines,
        "av_contrib_protocol_sessions",
        ("protocol", name.as_str()),
        ("state", "ended"),
        MetricValue::Count(protocol.ended_sessions as u64),
    );
}

/// Lines with some protocols behind them.
pub open spec fn with_protocols(before: Seq<LineView>, protocols: Seq<ProtocolSnapshotView>) -> Seq<
    LineView,
>
    decreases protocols.len(),
{
    if protocols.len() == 0 {
        before
    } else {
        with_one_protocol(with_protocols(before, protocols.drop_last()), protocols.last())
    }
}

fn push_protocols(lines: &mut Vec<MetricLine>, protocols: &Vec<ProtocolRuntimeSnapshot>)
    ensures
        lines_view(final(lines)@) == with_protocols(lines_view(old(lines)@), views(protocols@)),
{
    let ghost before = lines_view(lines@);
    let ghost all = views(protocols@);
    let mut i: usize = 0;
    assert(all.take(0) =~= Seq::empty());
    while i < protocols.len()
        invariant
            i <= protocols@.len(),
            all == views(protocols@),
            lines_view(lines@) == with_protocols(before, all.take(i as int)),
        decreases protocols@.len() - i,
    {
        assert(all.take(i + 1).drop_last() =~= all.take(i as int));
        assert(all.take(i + 1).last() == protocols@[i as int]@);
        push_one_protocol(lines, &protocols[i]);
        i = i + 1;
    }
    assert(all.take(i as int) =~= all);
}

/// Lines with the handoff to the audio packager and its work behind them.
pub open spec fn with_audio_epoch_metrics(before: Seq<LineView>, queue: AudioQueueStats, worker: AudioEpochHlsWorkerStats) -> Seq<LineView> {
    let l0 = with_number(
        before,
        "av_contrib_audio_epoch_hls_queue_capacity"@,
        "Configured capacity of the asynchronous lossless AEP1 to LL-HLS handoff."@,
        "gauge"@,
        queue.capacity,
    );
    let l1 = with_number(
        l0,
        "av_contrib_audio_epoch_hls_queue_enqueued_total"@,
        "AEP1 datagrams accepted by the asynchronous LL-HLS handoff."@,
        "counter"@,
        queue.enqueued,
    );
    let l2 = with_number(
        l1,
        "av_contrib_audio_epoch_hls_queue_dropped_total"@,
        "AEP1 datagrams rejected by a full or closed LL-HLS handoff."@,
        "counter"@,
        queue.dropped,
    );
    let l3 = with_number(
        l2,
        "av_contrib_audio_epoch_hls_queue_max_depth"@,
        "Maximum observed AEP1 LL-HLS handoff depth since process start."@,
        "gauge"@,
        queue.max_depth,
    );
    let l4 = with_number(
        l3,
        "av_contrib_audio_epoch_hls_worker_datagrams_total"@,
        "AEP1 datagrams processed by the asynchronous lossless LL-HLS worker."@,
        "counter"@,
        worker.datagrams,
    );
    let l5 = with_number(
        l4,
        "av_contrib_audio_epoch_hls_groups_completed_total"@,
        "Lossless AEP1 groups completed for LL-HLS packaging."@,
        "counter"@,
        worker.groups_completed,
    );
    let l6 = with_number(
        l5,
        "av_contrib_audio_epoch_hls_raptorq_fragments_recovered_total"@,
        "Missing AEP1 source fragments recovered by RaptorQ before LL-HLS packaging."@,
        "counter"@,
        worker.raptorq_fragments_recovered,
    );
    with_number(
        l6,
        "av_contrib_audio_epoch_hls_worker_errors_total"@,
        "AEP1 recovery or LL-HLS packaging errors in the asynchronous worker."@,
        "counter"@,
        worker.errors,
    )
}

fn push_audio_epoch_metrics(lines: &mut Vec<MetricLine>, queue: &AudioQueueStats, worker: &AudioEpochHlsWorkerStats)
    ensures
        lines_view(final(lines)@) == with_audio_epoch_metrics(lines_view(old(lines)@), *queue, *worker),
{
    push_number(
        lines,
        "av_contrib_audio_epoch_hls_queue_capacity",
        "Configured capacity of the asynchronous lossless AEP1 to LL-HLS handoff.",
        "gauge",
        queue.capacity,
    );
    push_number(
        lines,
        "av_contrib_audio_epoch_hls_queue_enqueued_total",
        "AEP1 datagrams accepted by the asynchronous LL-HLS handoff.",
        "counter",
        queue.enqueued,
    );
    push_number(
        lines,
        "av_contrib_audio_epoch_hls_queue_dropped_total",
        "AEP1 datagrams rejected by a full or closed LL-HLS handoff.",
        "counter",
        queue.dropped,
    );
    push_number(
        lines,
        "av_contrib_audio_epoch_hls_queue_max_depth",
        "Maximum observed AEP1 LL-HLS handoff depth since process start.",
        "gauge",
        queue.max_depth,
    );
    push_number(
        lines,
        "av_contrib_audio_epoch_hls_worker_datagrams_total",
        "AEP1 datagrams processed by the asynchronous lossless LL-HLS worker.",
        "counter",
        worker.datagrams,
    );
    push_number(
        lines,
        "av_contrib_audio_epoch_hls_groups_completed_total",
        "Lossless AEP1 groups completed for LL-HLS packaging.",
        "counter",
        worker.groups_completed,
    );
    push_number(
        lines,
        "av_contrib_audio_epoch_hls_raptorq_fragments_recovered_total",
        "Missing AEP1 source fragments recovered by RaptorQ before LL-HLS packaging.",
        "counter",
        worker.raptorq_fragments_recovered,
    );
    push_number(
        lines,
        "av_contrib_audio_epoch_hls_worker_errors_total",
        "AEP1 recovery or LL-HLS packaging errors in the asynchronous worker.",
        "counter",
        worker.errors,
    );
}

/// Lines with the health and the configuration behind them.
pub open spec fn with_configuration_metrics(before: Seq<LineView>, status: StatusView) -> Seq<LineView> {
    let l0 = before.push(
        header_line(
            "av_contrib_health"@,
            "Current contributor service health state."@,
            "gauge"@,
        ),
    );
    let l1 = l0.push(
        labelled(
            "av_contrib_health"@,
            ("state"@, escaped(status.health.state)),
            ValueView::Count(1),
        ),
    );
    let l2 = l1.push(
        header_line(
            "av_contrib_llhls_part_target_seconds"@,
            "Configured LL-HLS part target in seconds."@,
            "gauge"@,
        ),
    );
    let l3 = l2.push(plain("av_contrib_llhls_part_target_seconds"@, ValueView::Millis(status.hls.part_target_ms as u64)));
    let l4 = l3.push(
        header_line(
            "av_contrib_relay_session_carrier_configured"@,
            "Configured RelaySession live carriers by bounded parent path."@,
            "gauge"@,
        ),
    );
    let l5 = l4.push(
        labelled(
            "av_contrib_relay_session_carrier_configured"@,
            ("path"@, "primary"@),
            ValueView::Count(flag_value(status.mesh.relay_primary_configured)),
        ),
    );
    let l6 = l5.push(
        labelled(
            "av_contrib_relay_session_carrier_configured"@,
            ("path"@, "secondary"@),
            ValueView::Count(flag_value(status.mesh.relay_secondary_configured)),
        ),
    );
    let l7 = l6.push(
        header_line(
            "av_contrib_relay_session_deadline_budget_seconds"@,
            "Configured canonical live-object and RelaySession delivery budget."@,
            "gauge"@,
        ),
    );
    let l8 = l7.push(plain("av_contrib_relay_session_deadline_budget_seconds"@, ValueView::Millis(status.mesh.relay_deadline_ms)));
    let l9 = l8.push(
        header_line(
            "av_contrib_relay_session_path_observation_info"@,
            "Origin of the path observation currently driving adaptive RaptorQ policy."@,
            "gauge"@,
        ),
    );
    l9.push(
        labelled(
            "av_contrib_relay_session_path_observation_info"@,
            ("source"@, escaped(status.mesh.relay_path_observation_source)),
            ValueView::Count(1),
        ),
    )
}

fn push_configuration_metrics(lines: &mut Vec<MetricLine>, status: &ContribStatusSnapshot)
    ensures
        lines_view(final(lines)@) == with_configuration_metrics(lines_view(old(lines)@), status@),
{
    push_prometheus_metric_header(
        lines,
        "av_contrib_health",
        "Current contributor service health state.",
        "gauge",
    );
    push_labelled(
        lines,
        "av_contrib_health",
        ("state", prometheus_label_value(status.health.state).as_str()),
        MetricValue::Count(1),
    );
    push_prometheus_metric_header(
        lines,
        "av_contrib_llhls_part_target_seconds",
        "Configured LL-HLS part target in seconds.",
        "gauge",
    );
    push_plain(lines, "av_contrib_llhls_part_target_seconds", MetricValue::Millis(status.hls.part_target_ms as u64));
    push_prometheus_metric_header(
        lines,
        "av_contrib_relay_session_carrier_configured",
        "Configured RelaySession live carriers by bounded parent path.",
        "gauge",
    );
    push_labelled(
        lines,
        "av_contrib_relay_session_carrier_configured",
        ("path", "primary"),
        MetricValue::Count(flag(status.mesh.relay_primary_configured)),
    );
    push_labelled(
        lines,
        "av_contrib_relay_session_carrier_configured",
        ("path", "secondary"),
        MetricValue::Count(flag(status.mesh.relay_secondary_configured)),
    );
    push_prometheus_metric_header(
        lines,
        "av_contrib_relay_session_deadline_budget_seconds",
        "Configured canonical live-object and RelaySession delivery budget.",
        "gauge",
    );
    push_plain(lines, "av_contrib_relay_session_deadline_budget_seconds", MetricValue::Millis(status.mesh.relay_deadline_ms));
    push_prometheus_metric_header(
        lines,
        "av_contrib_relay_session_path_observation_info",
        "Origin of the path observation currently driving adaptive RaptorQ policy.",
        "gauge",
    );
    push_labelled(
        lines,
        "av_contrib_relay_session_path_observation_info",
        ("source", prometheus_label_value(status.mesh.relay_path_observation_source).as_str()),
        MetricValue::Count(1),
    );
}

/// Lines with the observed path behind them.
pub open spec fn with_path_metrics(before: Seq<LineView>, status: StatusView, routes: RouteTextsView) -> Seq<LineView> {
    let l0 = before.push(
        header_line(
            "av_contrib_relay_session_path_loss_fraction"@,
            "Observed selected-source-path loss fraction driving adaptive RaptorQ policy."@,
            "gauge"@,
        ),
    );
    let l1 = l0.push(plain("av_contrib_relay_session_path_loss_fraction"@, ValueView::Text(routes.path_loss)));
    let l2 = l1.push(
        header_line(
            "av_contrib_relay_session_path_best_direct_rtt_seconds"@,
            "Fastest measured direct origin-to-destination round-trip time used as the path-stretch baseline."@,
            "gauge"@,
        ),
    );
    let l3 = l2.push(plain("av_contrib_relay_session_path_best_direct_rtt_seconds"@, ValueView::Text(routes.primary.best_direct_rtt)));
    let l4 = l3.push(
        header_line(
            "av_contrib_relay_session_path_rtt_seconds"@,
            "Observed selected-source-path round-trip time driving adaptive RaptorQ policy."@,
            "gauge"@,
        ),
    );
    let l5 = l4.push(plain("av_contrib_relay_session_path_rtt_seconds"@, ValueView::Text(routes.primary.rtt)));
    let l6 = l5.push(
        header_line(
            "av_contrib_relay_session_path_jitter_seconds"@,
            "Observed selected-source-path jitter driving adaptive RaptorQ policy."@,
            "gauge"@,
        ),
    );
    let l7 = l6.push(plain("av_contrib_relay_session_path_jitter_seconds"@, ValueView::Text(routes.primary.jitter)));
    let l8 = l7.push(
        header_line(
            "av_contrib_relay_session_path_queue_delay_seconds"@,
            "Observed selected-source-path queue delay driving adaptive RaptorQ policy."@,
            "gauge"@,
        ),
    );
    let l9 = l8.push(plain("av_contrib_relay_session_path_queue_delay_seconds"@, ValueView::Text(routes.primary.queue_delay)));
    let l10 = with_path_stretch(l9, routes.primary.stretch);
    with_path_age(l10, status.mesh.relay_path_observed_at_unix_ms, status.updated_unix_ms)
}

fn push_path_metrics(lines: &mut Vec<MetricLine>, status: &ContribStatusSnapshot, routes: &RouteTexts)
    ensures
        lines_view(final(lines)@) == with_path_metrics(lines_view(old(lines)@), status@, routes@),
{
    push_prometheus_metric_header(
        lines,
        "av_contrib_relay_session_path_loss_fraction",
        "Observed selected-source-path loss fraction driving adaptive RaptorQ policy.",
        "gauge",
    );
    push_plain(lines, "av_contrib_relay_session_path_loss_fraction", MetricValue::Text(routes.path_loss.clone()));
    push_prometheus_metric_header(
        lines,
        "av_contrib_relay_session_path_best_direct_rtt_seconds",
        "Fastest measured direct origin-to-destination round-trip time used as the path-stretch baseline.",
        "gauge",
    );
    push_plain(lines, "av_contrib_relay_session_path_best_direct_rtt_seconds", MetricValue::Text(routes.primary.best_direct_rtt.clone()));
    push_prometheus_metric_header(
        lines,
        "av_contrib_relay_session_path_rtt_seconds",
        "Observed selected-source-path round-trip time driving adaptive RaptorQ policy.",
        "gauge",
    );
    push_plain(lines, "av_contrib_relay_session_path_rtt_seconds", MetricValue::Text(routes.primary.rtt.clone()));
    push_prometheus_metric_header(
        lines,
        "av_contrib_relay_session_path_jitter_seconds",
        "Observed selected-source-path jitter driving adaptive RaptorQ policy.",
        "gauge",
    );
    push_plain(lines, "av_contrib_relay_session_path_jitter_seconds", MetricValue::Text(routes.primary.jitter.clone()));
    push_prometheus_metric_header(
        lines,
        "av_contrib_relay_session_path_queue_delay_seconds",
        "Observed selected-source-path queue delay driving adaptive RaptorQ policy.",
        "gauge",
    );
    push_plain(lines, "av_contrib_relay_session_path_queue_delay_seconds", MetricValue::Text(routes.primary.queue_delay.clone()));
    push_path_stretch(lines, &routes.primary.stretch);
    push_path_age(lines, status.mesh.relay_path_observed_at_unix_ms, status.updated_unix_ms);
}

/// Lines with the observed routes behind them.
pub open spec fn with_route_metrics(before: Seq<LineView>, status: StatusView, routes: RouteTextsView) -> Seq<LineView> {
    let l0 = before.push(
        header_line(
            "av_contrib_relay_session_route_observation_info"@,
            "Controller observation source for each independent relay route."@,
            "gauge"@,
        ),
    );
    let l1 = l0.push(
        header_line(
            "av_contrib_relay_session_route_loss_fraction"@,
            "Observed loss fraction for each independent relay route."@,
            "gauge"@,
        ),
    );
    let l2 = l1.push(
        header_line(
            "av_contrib_relay_session_route_rtt_seconds"@,
            "Observed end-to-end round-trip time for each independent relay route."@,
            "gauge"@,
        ),
    );
    let l3 = l2.push(
        header_line(
            "av_contrib_relay_session_route_best_direct_rtt_seconds"@,
            "Fastest measured direct round-trip time used by each relay route."@,
            "gauge"@,
        ),
    );
    let l4 = l3.push(
        header_line(
            "av_contrib_relay_session_route_jitter_seconds"@,
            "Observed jitter for each independent relay route."@,
            "gauge"@,
        ),
    );
    let l5 = l4.push(
        header_line(
            "av_contrib_relay_session_route_queue_delay_seconds"@,
            "Observed queue delay for each independent relay route."@,
            "gauge"@,
        ),
    );
    let l6 = l5.push(
        header_line(
            "av_contrib_relay_session_route_stretch_ratio"@,
            "Relay-route RTT divided by the fastest measured direct RTT for each path."@,
            "gauge"@,
        ),
    );
    let l7 = l6.push(
        header_line(
            "av_contrib_relay_session_route_observation_age_seconds"@,
            "Wall-clock age of each independent controller route observation."@,
            "gauge"@,
        ),
    );
    let l8 = with_route(l7, "primary"@, status.mesh.relay_path_observation_source, routes.primary, age(status.updated_unix_ms, status.mesh.relay_path_observed_at_unix_ms));
    with_route(l8, "secondary"@, status.mesh.relay_secondary_path_observation_source, routes.secondary, age(status.updated_unix_ms, status.mesh.relay_secondary_path_observed_at_unix_ms))
}

fn push_route_metrics(lines: &mut Vec<MetricLine>, status: &ContribStatusSnapshot, routes: &RouteTexts)
    ensures
        lines_view(final(lines)@) == with_route_metrics(lines_view(old(lines)@), status@, routes@),
{
    push_prometheus_metric_header(
        lines,
        "av_contrib_relay_session_route_observation_info",
        "Controller observation source for each independent relay route.",
        "gauge",
    );
    push_prometheus_metric_header(
        lines,
        "av_contrib_relay_session_route_loss_fraction",
        "Observed loss fraction for each independent relay route.",
        "gauge",
    );
    push_prometheus_metric_header(
        lines,
        "av_contrib_relay_session_route_rtt_seconds",
        "Observed end-to-end round-trip time for each independent relay route.",
        "gauge",
    );
    push_prometheus_metric_header(
        lines,
        "av_contrib_relay_session_route_best_direct_rtt_seconds",
        "Fastest measured direct round-trip time used by each relay route.",
        "gauge",
    );
    push_prometheus_metric_header(
        lines,
        "av_contrib_relay_session_route_jitter_seconds",
        "Observed jitter for each independent relay route.",
        "gauge",
    );
    push_prometheus_metric_header(
        lines,
        "av_contrib_relay_session_route_queue_delay_seconds",
        "Observed queue delay for each independent relay route.",
        "gauge",
    );
    push_prometheus_metric_header(
        lines,
        "av_contrib_relay_session_route_stretch_ratio",
        "Relay-route RTT divided by the fastest measured direct RTT for each path.",
        "gauge",
    );
    push_prometheus_metric_header(
        lines,
        "av_contrib_relay_session_route_observation_age_seconds",
        "Wall-clock age of each independent controller route observation.",
        "gauge",
    );
    push_route(lines, "primary", status.mesh.relay_path_observation_source, &routes.primary, age_of(status.updated_unix_ms, status.mesh.relay_path_observed_at_unix_ms));
    push_route(lines, "secondary", status.mesh.relay_secondary_path_observation_source, &routes.secondary, age_of(status.updated_unix_ms, status.mesh.relay_secondary_path_observed_at_unix_ms));
}

/// Lines with the clock and the latest deadline behind them.
pub open spec fn with_clock_metrics(before: Seq<LineView>, status: StatusView) -> Seq<LineView> {
    let l0 = with_number(
        before,
        "av_contrib_media_object_source_epoch"@,
        "Current canonical media-object source incarnation epoch."@,
        "gauge"@,
        status.mesh.media_object_source_epoch,
    );
    let l1 = l0.push(
        header_line(
            "av_contrib_media_object_clock_estimated_error_seconds"@,
            "Configured maximum error estimate for canonical media-object wall-clock timestamps."@,
            "gauge"@,
        ),
    );
    let l2 = l1.push(plain("av_contrib_media_object_clock_estimated_error_seconds"@, ValueView::Millis(status.mesh.media_object_clock_estimated_error_ms)));
    let l3 = with_deadline(l2, status.runtime.relay_session.last_deadline_unix_us);
    with_headroom(l3, status.runtime.relay_session.last_deadline_headroom_us)
}

fn push_clock_metrics(lines: &mut Vec<MetricLine>, status: &ContribStatusSnapshot)
    ensures
        lines_view(final(lines)@) == with_clock_metrics(lines_view(old(lines)@), status@),
{
    push_number(
        lines,
        "av_contrib_media_object_source_epoch",
        "Current canonical media-object source incarnation epoch.",
        "gauge",
        status.mesh.media_object_source_epoch,
    );
    push_prometheus_metric_header(
        lines,
        "av_contrib_media_object_clock_estimated_error_seconds",
        "Configured maximum error estimate for canonical media-object wall-clock timestamps.",
        "gauge",
    );
    push_plain(lines, "av_contrib_media_object_clock_estimated_error_seconds", MetricValue::Millis(status.mesh.media_object_clock_estimated_error_ms));
    push_deadline(lines, status.runtime.relay_session.last_deadline_unix_us);
    push_headroom(lines, status.runtime.relay_session.last_deadline_headroom_us);
}

/// Lines with what came in behind them.
pub open spec fn with_input_metrics(before: Seq<LineView>, status: StatusView) -> Seq<LineView> {
    let l0 = with_number(
        before,
        "av_contrib_raw_http_requests_total"@,
        "Raw HTTP contributor ingest requests."@,
        "counter"@,
        status.runtime.raw_http.requests,
    );
    let l1 = with_number(
        l0,
        "av_contrib_raw_http_bytes_total"@,
        "Raw HTTP contributor ingest payload bytes."@,
        "counter"@,
        status.runtime.raw_http.bytes,
    );
    let l2 = with_number(
        l1,
        "av_contrib_media_access_units_total"@,
        "Media access units accepted by contributor ingest."@,
        "counter"@,
        status.runtime.media_access_units.requests,
    );
    let l3 = with_number(
        l2,
        "av_contrib_media_access_unit_bytes_total"@,
        "Media access-unit payload bytes accepted by contributor ingest."@,
        "counter"@,
        status.runtime.media_access_units.payload_bytes,
    );
    let l4 = with_number(
        l3,
        "av_contrib_mpeg_ts_slots_total"@,
        "MPEG-TS slots accepted from reliable ingest transports."@,
        "counter"@,
        status.runtime.mpeg_ts.slots,
    );
    let l5 = with_number(
        l4,
        "av_contrib_mpeg_ts_bytes_total"@,
        "MPEG-TS bytes accepted from reliable ingest transports."@,
        "counter"@,
        status.runtime.mpeg_ts.bytes,
    );
    let l6 = with_number(
        l5,
        "av_contrib_mpeg_ts_continuity_errors_total"@,
        "MPEG-TS continuity errors detected at contributor ingest."@,
        "counter"@,
        status.runtime.mpeg_ts.continuity_errors,
    );
    with_number(
        l6,
        "av_contrib_mpeg_ts_dropped_bytes_total"@,
        "MPEG-TS bytes dropped after continuity damage or oversized payloads."@,
        "counter"@,
        cap_u64(
            status.runtime.mpeg_ts.continuity_dropped_bytes
                + status.runtime.mpeg_ts.payload_drop_bytes,
        ) as u64,
    )
}

fn push_input_metrics(lines: &mut Vec<MetricLine>, status: &ContribStatusSnapshot)
    ensures
        lines_view(final(lines)@) == with_input_metrics(lines_view(old(lines)@), status@),
{
    push_number(
        lines,
        "av_contrib_raw_http_requests_total",
        "Raw HTTP contributor ingest requests.",
        "counter",
        status.runtime.raw_http.requests,
    );
    push_number(
        lines,
        "av_contrib_raw_http_bytes_total",
        "Raw HTTP contributor ingest payload bytes.",
        "counter",
        status.runtime.raw_http.bytes,
    );
    push_number(
        lines,
        "av_contrib_media_access_units_total",
        "Media access units accepted by contributor ingest.",
        "counter",
        status.runtime.media_access_units.requests,
    );
    push_number(
        lines,
        "av_contrib_media_access_unit_bytes_total",
        "Media access-unit payload bytes accepted by contributor ingest.",
        "counter",
        status.runtime.media_access_units.payload_bytes,
    );
    push_number(
        lines,
        "av_contrib_mpeg_ts_slots_total",
        "MPEG-TS slots accepted from reliable ingest transports.",
        "counter",
        status.runtime.mpeg_ts.slots,
    );
    push_number(
        lines,
        "av_contrib_mpeg_ts_bytes_total",
        "MPEG-TS bytes accepted from reliable ingest transports.",
        "counter",
        status.runtime.mpeg_ts.bytes,
    );
    push_number(
        lines,
        "av_contrib_mpeg_ts_continuity_errors_total",
        "MPEG-TS continuity errors detected at contributor ingest.",
        "counter",
        status.runtime.mpeg_ts.continuity_errors,
    );
    push_number(
        lines,
        "av_contrib_mpeg_ts_dropped_bytes_total",
        "MPEG-TS bytes dropped after continuity damage or oversized payloads.",
        "counter",
        status.runtime.mpeg_ts.continuity_dropped_bytes.saturating_add(
            status.runtime.mpeg_ts.payload_drop_bytes,
        ),
    );
}

/// Lines with what went out behind them.
pub open spec fn with_output_metrics(before: Seq<LineView>, status: StatusView) -> Seq<LineView> {
    let l0 = with_number(
        before,
        "av_contrib_rtmp_access_units_total"@,
        "RTMP access units accepted by contributor ingest."@,
        "counter"@,
        status.runtime.rtmp.access_units,
    );
    let l1 = with_number(
        l0,
        "av_contrib_rtmp_bytes_total"@,
        "RTMP access-unit bytes accepted by contributor ingest."@,
        "counter"@,
        status.runtime.rtmp.bytes,
    );
    let l2 = with_number(
        l1,
        "av_contrib_fmp4_parts_total"@,
        "CMAF/fMP4 parts published by contributor ingest."@,
        "counter"@,
        status.runtime.fmp4.parts,
    );
    let l3 = with_number(
        l2,
        "av_contrib_fmp4_bytes_total"@,
        "CMAF/fMP4 media bytes published by contributor ingest."@,
        "counter"@,
        status.runtime.fmp4.bytes,
    );
    let l4 = with_number(
        l3,
        "av_contrib_fmp4_publish_errors_total"@,
        "CMAF/fMP4 publish failures."@,
        "counter"@,
        status.runtime.fmp4.publish_errors,
    );
    let l5 = with_number(
        l4,
        "av_contrib_hls_responses_total"@,
        "Contributor LL-HLS responses."@,
        "counter"@,
        status.runtime.hls.responses_total,
    );
    let l6 = with_number(
        l5,
        "av_contrib_hls_response_errors_total"@,
        "Contributor LL-HLS non-success responses."@,
        "counter"@,
        status.runtime.hls.response_errors,
    );
    let l7 = with_number(
        l6,
        "av_contrib_hls_not_found_total"@,
        "Contributor LL-HLS not-found responses."@,
        "counter"@,
        status.runtime.hls.response_not_found,
    );
    let l8 = l7.push(
        header_line(
            "av_contrib_ingest_sessions"@,
            "Contributor ingest sessions by lifecycle state."@,
            "gauge"@,
        ),
    );
    let l9 = l8.push(
        labelled(
            "av_contrib_ingest_sessions"@,
            ("state"@, "active"@),
            ValueView::Count(status.runtime.ingest_sessions.active as u64),
        ),
    );
    l9.push(
        labelled(
            "av_contrib_ingest_sessions"@,
            ("state"@, "ended"@),
            ValueView::Count(status.runtime.ingest_sessions.ended),
        ),
    )
}

fn push_output_metrics(lines: &mut Vec<MetricLine>, status: &ContribStatusSnapshot)
    ensures
        lines_view(final(lines)@) == with_output_metrics(lines_view(old(lines)@), status@),
{
    push_number(
        lines,
        "av_contrib_rtmp_access_units_total",
        "RTMP access units accepted by contributor ingest.",
        "counter",
        status.runtime.rtmp.access_units,
    );
    push_number(
        lines,
        "av_contrib_rtmp_bytes_total",
        "RTMP access-unit bytes accepted by contributor ingest.",
        "counter",
        status.runtime.rtmp.bytes,
    );
    push_number(
        lines,
        "av_contrib_fmp4_parts_total",
        "CMAF/fMP4 parts published by contributor ingest.",
        "counter",
        status.runtime.fmp4.parts,
    );
    push_number(
        lines,
        "av_contrib_fmp4_bytes_total",
        "CMAF/fMP4 media bytes published by contributor ingest.",
        "counter",
        status.runtime.fmp4.bytes,
    );
    push_number(
        lines,
        "av_contrib_fmp4_publish_errors_total",
        "CMAF/fMP4 publish failures.",
        "counter",
        status.runtime.fmp4.publish_errors,
    );
    push_number(
        lines,
        "av_contrib_hls_responses_total",
        "Contributor LL-HLS responses.",
        "counter",
        status.runtime.hls.responses_total,
    );
    push_number(
        lines,
        "av_contrib_hls_response_errors_total",
        "Contributor LL-HLS non-success responses.",
        "counter",
        status.runtime.hls.response_errors,
    );
    push_number(
        lines,
        "av_contrib_hls_not_found_total",
        "Contributor LL-HLS not-found responses.",
        "counter",
        status.runtime.hls.response_not_found,
    );
    push_prometheus_metric_header(
        lines,
        "av_contrib_ingest_sessions",
        "Contributor ingest sessions by lifecycle state.",
        "gauge",
    );
    push_labelled(
        lines,
        "av_contrib_ingest_sessions",
        ("state", "active"),
        MetricValue::Count(status.runtime.ingest_sessions.active as u64),
    );
    push_labelled(
        lines,
        "av_contrib_ingest_sessions",
        ("state", "ended"),
        MetricValue::Count(status.runtime.ingest_sessions.ended),
    );
}

/// Lines with what was forwarded to the mesh behind them.
pub open spec fn with_mesh_metrics(before: Seq<LineView>, status: StatusView) -> Seq<LineView> {
    let l0 = before.push(
        header_line(
            "av_contrib_mesh_forward_payloads_total"@,
            "Payloads forwarded from contributor ingest to the mesh."@,
            "counter"@,
        ),
    );
    let l1 = l0.push(
        labelled(
            "av_contrib_mesh_forward_payloads_total"@,
            ("kind"@, "stream"@),
            ValueView::Count(status.runtime.mesh_forward.stream_payloads),
        ),
    );
    let l2 = l1.push(
        header_line(
            "av_contrib_mesh_forward_payload_bytes_total"@,
            "Payload bytes forwarded from contributor ingest to the mesh."@,
            "counter"@,
        ),
    );
    let l3 = l2.push(
        labelled(
            "av_contrib_mesh_forward_payload_bytes_total"@,
            ("kind"@, "stream"@),
            ValueView::Count(status.runtime.mesh_forward.stream_payload_bytes),
        ),
    );
    let l4 = l3.push(
        header_line(
            "av_contrib_mesh_forward_datagrams_total"@,
            "FEC datagrams forwarded from contributor ingest to the mesh."@,
            "counter"@,
        ),
    );
    let l5 = l4.push(
        labelled(
            "av_contrib_mesh_forward_datagrams_total"@,
            ("kind"@, "stream"@),
            ValueView::Count(status.runtime.mesh_forward.stream_datagrams),
        ),
    );
    let l6 = l5.push(
        header_line(
            "av_contrib_mesh_forward_datagram_bytes_total"@,
            "FEC datagram bytes forwarded from contributor ingest to the mesh."@,
            "counter"@,
        ),
    );
    let l7 = l6.push(
        labelled(
            "av_contrib_mesh_forward_datagram_bytes_total"@,
            ("kind"@, "stream"@),
            ValueView::Count(status.runtime.mesh_forward.stream_datagram_bytes),
        ),
    );
    let l8 = l7.push(
        header_line(
            "av_contrib_mesh_forward_errors_total"@,
            "Contributor-to-mesh forwarding failures."@,
            "counter"@,
        ),
    );
    let l9 = l8.push(
        labelled(
            "av_contrib_mesh_forward_errors_total"@,
            ("kind"@, "stream"@),
            ValueView::Count(status.runtime.mesh_forward.stream_errors),
        ),
    );
    let l10 = l9.push(
        labelled(
            "av_contrib_mesh_forward_payloads_total"@,
            ("kind"@, "media"@),
            ValueView::Count(status.runtime.mesh_forward.media_payloads),
        ),
    );
    let l11 = l10.push(
        labelled(
            "av_contrib_mesh_forward_payload_bytes_total"@,
            ("kind"@, "media"@),
            ValueView::Count(status.runtime.mesh_forward.media_payload_bytes),
        ),
    );
    let l12 = l11.push(
        labelled(
            "av_contrib_mesh_forward_datagrams_total"@,
            ("kind"@, "media"@),
            ValueView::Count(status.runtime.mesh_forward.media_datagrams),
        ),
    );
    let l13 = l12.push(
        labelled(
            "av_contrib_mesh_forward_datagram_bytes_total"@,
            ("kind"@, "media"@),
            ValueView::Count(status.runtime.mesh_forward.media_datagram_bytes),
        ),
    );
    l13.push(
        labelled(
            "av_contrib_mesh_forward_errors_total"@,
            ("kind"@, "media"@),
            ValueView::Count(status.runtime.mesh_forward.media_errors),
        ),
    )
}

fn push_mesh_metrics(lines: &mut Vec<MetricLine>, status: &ContribStatusSnapshot)
    ensures
        lines_view(final(lines)@) == with_mesh_metrics(lines_view(old(lines)@), status@),
{
    push_prometheus_metric_header(
        lines,
        "av_contrib_mesh_forward_payloads_total",
        "Payloads forwarded from contributor ingest to the mesh.",
        "counter",
    );
    push_labelled(
        lines,
        "av_contrib_mesh_forward_payloads_total",
        ("kind", "stream"),
        MetricValue::Count(status.runtime.mesh_forward.stream_payloads),
    );
    push_prometheus_metric_header(
        lines,
        "av_contrib_mesh_forward_payload_bytes_total",
        "Payload bytes forwarded from contributor ingest to the mesh.",
        "counter",
    );
    push_labelled(
        lines,
        "av_contrib_mesh_forward_payload_bytes_total",
        ("kind", "stream"),
        MetricValue::Count(status.runtime.mesh_forward.stream_payload_bytes),
    );
    push_prometheus_metric_header(
        lines,
        "av_contrib_mesh_forward_datagrams_total",
        "FEC datagrams forwarded from contributor ingest to the mesh.",
        "counter",
    );
    push_labelled(
        lines,
        "av_contrib_mesh_forward_datagrams_total",
        ("kind", "stream"),
        MetricValue::Count(status.runtime.mesh_forward.stream_datagrams),
    );
    push_prometheus_metric_header(
        lines,
        "av_contrib_mesh_forward_datagram_bytes_total",
        "FEC datagram bytes forwarded from contributor ingest to the mesh.",
        "counter",
    );
    push_labelled(
        lines,
        "av_contrib_mesh_forward_datagram_bytes_total",
        ("kind", "stream"),
        MetricValue::Count(status.runtime.mesh_forward.stream_datagram_bytes),
    );
    push_prometheus_metric_header(
        lines,
        "av_contrib_mesh_forward_errors_total",
        "Contributor-to-mesh forwarding failures.",
        "counter",
    );
    push_labelled(
        lines,
        "av_contrib_mesh_forward_errors_total",
        ("kind", "stream"),
        MetricValue::Count(status.runtime.mesh_forward.stream_errors),
    );
    push_labelled(
        lines,
        "av_contrib_mesh_forward_payloads_total",
        ("kind", "media"),
        MetricValue::Count(status.runtime.mesh_forward.media_payloads),
    );
    push_labelled(
        lines,
        "av_contrib_mesh_forward_payload_bytes_total",
        ("kind", "media"),
        MetricValue::Count(status.runtime.mesh_forward.media_payload_bytes),
    );
    push_labelled(
        lines,
        "av_contrib_mesh_forward_datagrams_total",
        ("kind", "media"),
        MetricValue::Count(status.runtime.mesh_forward.media_datagrams),
    );
    push_labelled(
        lines,
        "av_contrib_mesh_forward_datagram_bytes_total",
        ("kind", "media"),
        MetricValue::Count(status.runtime.mesh_forward.media_datagram_bytes),
    );
    push_labelled(
        lines,
        "av_contrib_mesh_forward_errors_total",
        ("kind", "media"),
        MetricValue::Count(status.runtime.mesh_forward.media_errors),
    );
}

/// Lines with what was given to the relay session behind them.
pub open spec fn with_relay_metrics(before: Seq<LineView>, status: StatusView) -> Seq<LineView> {
    let l0 = with_number(
        before,
        "av_contrib_relay_session_objects_total"@,
        "Canonical media objects emitted through RelaySession."@,
        "counter"@,
        status.runtime.relay_session.objects_sent,
    );
    let l1 = with_number(
        l0,
        "av_contrib_relay_session_encode_errors_total"@,
        "Canonical media objects rejected during RelaySession RaptorQ encoding."@,
        "counter"@,
        status.runtime.relay_session.encode_errors,
    );
    let l2 = with_number(
        l1,
        "av_contrib_relay_session_repair_primary_fallback_objects_total"@,
        "RelaySession objects whose repair symbols used the primary carrier fallback."@,
        "counter"@,
        status.runtime.relay_session.repair_primary_fallback_objects,
    );
    let l3 = l2.push(
        header_line(
            "av_contrib_relay_session_datagrams_total"@,
            "RelaySession datagrams sent by bounded symbol role."@,
            "counter"@,
        ),
    );
    let l4 = l3.push(
        labelled(
            "av_contrib_relay_session_datagrams_total"@,
            ("role"@, "source"@),
            ValueView::Count(status.runtime.relay_session.source_datagrams),
        ),
    );
    let l5 = l4.push(
        header_line(
            "av_contrib_relay_session_datagram_bytes_total"@,
            "RelaySession wire bytes sent by bounded symbol role."@,
            "counter"@,
        ),
    );
    let l6 = l5.push(
        labelled(
            "av_contrib_relay_session_datagram_bytes_total"@,
            ("role"@, "source"@),
            ValueView::Count(status.runtime.relay_session.source_datagram_bytes),
        ),
    );
    let l7 = l6.push(
        header_line(
            "av_contrib_relay_session_send_errors_total"@,
            "RelaySession send failures by bounded symbol role."@,
            "counter"@,
        ),
    );
    let l8 = l7.push(
        labelled(
            "av_contrib_relay_session_send_errors_total"@,
            ("role"@, "source"@),
            ValueView::Count(status.runtime.relay_session.source_errors),
        ),
    );
    let l9 = l8.push(
        labelled(
            "av_contrib_relay_session_datagrams_total"@,
            ("role"@, "repair"@),
            ValueView::Count(status.runtime.relay_session.repair_datagrams),
        ),
    );
    let l10 = l9.push(
        labelled(
            "av_contrib_relay_session_datagram_bytes_total"@,
            ("role"@, "repair"@),
            ValueView::Count(status.runtime.relay_session.repair_datagram_bytes),
        ),
    );
    l10.push(
        labelled(
            "av_contrib_relay_session_send_errors_total"@,
            ("role"@, "repair"@),
            ValueView::Count(status.runtime.relay_session.repair_errors),
        ),
    )
}

fn push_relay_metrics(lines: &mut Vec<MetricLine>, status: &ContribStatusSnapshot)
    ensures
        lines_view(final(lines)@) == with_relay_metrics(lines_view(old(lines)@), status@),
{
    push_number(
        lines,
        "av_contrib_relay_session_objects_total",
        "Canonical media objects emitted through RelaySession.",
        "counter",
        status.runtime.relay_session.objects_sent,
    );
    push_number(
        lines,
        "av_contrib_relay_session_encode_errors_total",
        "Canonical media objects rejected during RelaySession RaptorQ encoding.",
        "counter",
        status.runtime.relay_session.encode_errors,
    );
    push_number(
        lines,
        "av_contrib_relay_session_repair_primary_fallback_objects_total",
        "RelaySession objects whose repair symbols used the primary carrier fallback.",
        "counter",
        status.runtime.relay_session.repair_primary_fallback_objects,
    );
    push_prometheus_metric_header(
        lines,
        "av_contrib_relay_session_datagrams_total",
        "RelaySession datagrams sent by bounded symbol role.",
        "counter",
    );
    push_labelled(
        lines,
        "av_contrib_relay_session_datagrams_total",
        ("role", "source"),
        MetricValue::Count(status.runtime.relay_session.source_datagrams),
    );
    push_prometheus_metric_header(
        lines,
        "av_contrib_relay_session_datagram_bytes_total",
        "RelaySession wire bytes sent by bounded symbol role.",
        "counter",
    );
    push_labelled(
        lines,
        "av_contrib_relay_session_datagram_bytes_total",
        ("role", "source"),
        MetricValue::Count(status.runtime.relay_session.source_datagram_bytes),
    );
    push_prometheus_metric_header(
        lines,
        "av_contrib_relay_session_send_errors_total",
        "RelaySession send failures by bounded symbol role.",
        "counter",
    );
    push_labelled(
        lines,
        "av_contrib_relay_session_send_errors_total",
        ("role", "source"),
        MetricValue::Count(status.runtime.relay_session.source_errors),
    );
    push_labelled(
        lines,
        "av_contrib_relay_session_datagrams_total",
        ("role", "repair"),
        MetricValue::Count(status.runtime.relay_session.repair_datagrams),
    );
    push_labelled(
        lines,
        "av_contrib_relay_session_datagram_bytes_total",
        ("role", "repair"),
        MetricValue::Count(status.runtime.relay_session.repair_datagram_bytes),
    );
    push_labelled(
        lines,
        "av_contrib_relay_session_send_errors_total",
        ("role", "repair"),
        MetricValue::Count(status.runtime.relay_session.repair_errors),
    );
}

/// Lines with the health of the relay lanes behind them.
pub open spec fn with_lane_metrics(before: Seq<LineView>, status: StatusView) -> Seq<LineView> {
    let l0 = before.push(
        header_line(
            "av_contrib_relay_session_lane_objects_total"@,
            "Canonical RelaySession objects by carrier lane and send outcome."@,
            "counter"@,
        ),
    );
    let l1 = l0.push(
        labelled_twice(
            "av_contrib_relay_session_lane_objects_total"@,
            ("path"@, "primary"@),
            ("outcome"@, "success"@),
            ValueView::Count(status.runtime.relay_session.primary_lane_objects_succeeded),
        ),
    );
    let l2 = l1.push(
        labelled_twice(
            "av_contrib_relay_session_lane_objects_total"@,
            ("path"@, "primary"@),
            ("outcome"@, "failure"@),
            ValueView::Count(status.runtime.relay_session.primary_lane_objects_failed),
        ),
    );
    let l3 = l2.push(
        labelled_twice(
            "av_contrib_relay_session_lane_objects_total"@,
            ("path"@, "secondary"@),
            ("outcome"@, "success"@),
            ValueView::Count(status.runtime.relay_session.secondary_lane_objects_succeeded),
        ),
    );
    let l4 = l3.push(
        labelled_twice(
            "av_contrib_relay_session_lane_objects_total"@,
            ("path"@, "secondary"@),
            ("outcome"@, "failure"@),
            ValueView::Count(status.runtime.relay_session.secondary_lane_objects_failed),
        ),
    );
    let l5 = l4.push(
        header_line(
            "av_contrib_relay_session_lane_health"@,
            "Current RelaySession carrier-lane health as a one-hot gauge."@,
            "gauge"@,
        ),
    );
    let l6 = l5.push(
        labelled_twice(
            "av_contrib_relay_session_lane_health"@,
            ("path"@, "primary"@),
            ("state"@, "unknown"@),
            ValueView::Count(flag_value(status.runtime.relay_session.primary_lane_state == "unknown"@)),
        ),
    );
    let l7 = l6.push(
        labelled_twice(
            "av_contrib_relay_session_lane_health"@,
            ("path"@, "primary"@),
            ("state"@, "healthy"@),
            ValueView::Count(flag_value(status.runtime.relay_session.primary_lane_state == "healthy"@)),
        ),
    );
    let l8 = l7.push(
        labelled_twice(
            "av_contrib_relay_session_lane_health"@,
            ("path"@, "primary"@),
            ("state"@, "impaired"@),
            ValueView::Count(flag_value(status.runtime.relay_session.primary_lane_state == "impaired"@)),
        ),
    );
    let l9 = l8.push(
        labelled_twice(
            "av_contrib_relay_session_lane_health"@,
            ("path"@, "secondary"@),
            ("state"@, "unknown"@),
            ValueView::Count(flag_value(status.runtime.relay_session.secondary_lane_state == "unknown"@)),
        ),
    );
    let l10 = l9.push(
        labelled_twice(
            "av_contrib_relay_session_lane_health"@,
            ("path"@, "secondary"@),
            ("state"@, "healthy"@),
            ValueView::Count(flag_value(status.runtime.relay_session.secondary_lane_state == "healthy"@)),
        ),
    );
    let l11 = l10.push(
        labelled_twice(
            "av_contrib_relay_session_lane_health"@,
            ("path"@, "secondary"@),
            ("state"@, "impaired"@),
            ValueView::Count(flag_value(status.runtime.relay_session.secondary_lane_state == "impaired"@)),
        ),
    );
    let l12 = with_number(
        l11,
        "av_contrib_relay_session_surviving_lane_objects_total"@,
        "Canonical objects emitted before deadline while another configured lane failed."@,
        "counter"@,
        status.runtime.relay_session.surviving_lane_objects,
    );
    with_number(
        l12,
        "av_contrib_relay_session_all_lanes_failed_objects_total"@,
        "Canonical objects for which every complete configured RelaySession lane failed."@,
        "counter"@,
        status.runtime.relay_session.all_lanes_failed_objects,
    )
}

fn push_lane_metrics(lines: &mut Vec<MetricLine>, status: &ContribStatusSnapshot)
    ensures
        lines_view(final(lines)@) == with_lane_metrics(lines_view(old(lines)@), status@),
{
    push_prometheus_metric_header(
        lines,
        "av_contrib_relay_session_lane_objects_total",
        "Canonical RelaySession objects by carrier lane and send outcome.",
        "counter",
    );
    push_labelled_twice(
        lines,
        "av_contrib_relay_session_lane_objects_total",
        ("path", "primary"),
        ("outcome", "success"),
        MetricValue::Count(status.runtime.relay_session.primary_lane_objects_succeeded),
    );
    push_labelled_twice(
        lines,
        "av_contrib_relay_session_lane_objects_total",
        ("path", "primary"),
        ("outcome", "failure"),
        MetricValue::Count(status.runtime.relay_session.primary_lane_objects_failed),
    );
    push_labelled_twice(
        lines,
        "av_contrib_relay_session_lane_objects_total",
        ("path", "secondary"),
        ("outcome", "success"),
        MetricValue::Count(status.runtime.relay_session.secondary_lane_objects_succeeded),
    );
    push_labelled_twice(
        lines,
        "av_contrib_relay_session_lane_objects_total",
        ("path", "secondary"),
        ("outcome", "failure"),
        MetricValue::Count(status.runtime.relay_session.secondary_lane_objects_failed),
    );
    push_prometheus_metric_header(
        lines,
        "av_contrib_relay_session_lane_health",
        "Current RelaySession carrier-lane health as a one-hot gauge.",
        "gauge",
    );
    push_labelled_twice(
        lines,
        "av_contrib_relay_session_lane_health",
        ("path", "primary"),
        ("state", "unknown"),
        MetricValue::Count(flag(text_equal(status.runtime.relay_session.primary_lane_state, "unknown"))),
    );
    push_labelled_twice(
        lines,
        "av_contrib_relay_session_lane_health",
        ("path", "primary"),
        ("state", "healthy"),
        MetricValue::Count(flag(text_equal(status.runtime.relay_session.primary_lane_state, "healthy"))),
    );
    push_labelled_twice(
        lines,
        "av_contrib_relay_session_lane_health",
        ("path", "primary"),
        ("state", "impaired"),
        MetricValue::Count(flag(text_equal(status.runtime.relay_session.primary_lane_state, "impaired"))),
    );
    push_labelled_twice(
        lines,
        "av_contrib_relay_session_lane_health",
        ("path", "secondary"),
        ("state", "unknown"),
        MetricValue::Count(flag(text_equal(status.runtime.relay_session.secondary_lane_state, "unknown"))),
    );
    push_labelled_twice(
        lines,
        "av_contrib_relay_session_lane_health",
        ("path", "secondary"),
        ("state", "healthy"),
        MetricValue::Count(flag(text_equal(status.runtime.relay_session.secondary_lane_state, "healthy"))),
    );
    push_labelled_twice(
        lines,
        "av_contrib_relay_session_lane_health",
        ("path", "secondary"),
        ("state", "impaired"),
        MetricValue::Count(flag(text_equal(status.runtime.relay_session.secondary_lane_state, "impaired"))),
    );
    push_number(
        lines,
        "av_contrib_relay_session_surviving_lane_objects_total",
        "Canonical objects emitted before deadline while another configured lane failed.",
        "counter",
        status.runtime.relay_session.surviving_lane_objects,
    );
    push_number(
        lines,
        "av_contrib_relay_session_all_lanes_failed_objects_total",
        "Canonical objects for which every complete configured RelaySession lane failed.",
        "counter",
        status.runtime.relay_session.all_lanes_failed_objects,
    );
}

/// Lines with which objects met their deadlines behind them.
pub open spec fn with_deadline_metrics(before: Seq<LineView>, status: StatusView) -> Seq<LineView> {
    let l0 = before.push(
        header_line(
            "av_contrib_relay_session_deadline_objects_total"@,
            "Canonical RelaySession objects by sender deadline outcome."@,
            "counter"@,
        ),
    );
    let l1 = l0.push(
        labelled(
            "av_contrib_relay_session_deadline_objects_total"@,
            ("outcome"@, "hit"@),
            ValueView::Count(status.runtime.relay_session.deadline_hits),
        ),
    );
    let l2 = l1.push(
        labelled(
            "av_contrib_relay_session_deadline_objects_total"@,
            ("outcome"@, "miss"@),
            ValueView::Count(status.runtime.relay_session.deadline_misses),
        ),
    );
    let l3 = with_number(
        l2,
        "av_contrib_relay_session_expired_objects_total"@,
        "Canonical objects that expired before the full RelaySession emission completed."@,
        "counter"@,
        status.runtime.relay_session.expired_objects,
    );
    with_number(
        l3,
        "av_contrib_relay_session_expired_symbols_total"@,
        "RaptorQ symbols dropped at the contributor after their media deadline."@,
        "counter"@,
        status.runtime.relay_session.expired_symbols,
    )
}

fn push_deadline_metrics(lines: &mut Vec<MetricLine>, status: &ContribStatusSnapshot)
    ensures
        lines_view(final(lines)@) == with_deadline_metrics(lines_view(old(lines)@), status@),
{
    push_prometheus_metric_header(
        lines,
        "av_contrib_relay_session_deadline_objects_total",
        "Canonical RelaySession objects by sender deadline outcome.",
        "counter",
    );
    push_labelled(
        lines,
        "av_contrib_relay_session_deadline_objects_total",
        ("outcome", "hit"),
        MetricValue::Count(status.runtime.relay_session.deadline_hits),
    );
    push_labelled(
        lines,
        "av_contrib_relay_session_deadline_objects_total",
        ("outcome", "miss"),
        MetricValue::Count(status.runtime.relay_session.deadline_misses),
    );
    push_number(
        lines,
        "av_contrib_relay_session_expired_objects_total",
        "Canonical objects that expired before the full RelaySession emission completed.",
        "counter",
        status.runtime.relay_session.expired_objects,
    );
    push_number(
        lines,
        "av_contrib_relay_session_expired_symbols_total",
        "RaptorQ symbols dropped at the contributor after their media deadline.",
        "counter",
        status.runtime.relay_session.expired_symbols,
    );
}

/// Lines with how long relaying takes behind them.
pub open spec fn with_relay_durations(before: Seq<LineView>, status: StatusView) -> Seq<LineView> {
    let l0 = before.push(
        header_line(
            "av_contrib_relay_session_stage_duration_seconds"@,
            "RelaySession contribution latency by bounded RaptorQ and carrier stage."@,
            "histogram"@,
        ),
    );
    let l1 = with_histogram(
        l0,
        relay_stage_names(),
        seq![("stage"@, "total"@)],
        status.runtime.relay_session.stages.total,
    );
    let l2 = with_histogram(
        l1,
        relay_stage_names(),
        seq![("stage"@, "encode_wait"@)],
        status.runtime.relay_session.stages.encode_wait,
    );
    let l3 = with_histogram(
        l2,
        relay_stage_names(),
        seq![("stage"@, "encode"@)],
        status.runtime.relay_session.stages.encode,
    );
    let l4 = with_histogram(
        l3,
        relay_stage_names(),
        seq![("stage"@, "schedule"@)],
        status.runtime.relay_session.stages.schedule,
    );
    let l5 = with_histogram(
        l4,
        relay_stage_names(),
        seq![("stage"@, "send_primary_source"@)],
        status.runtime.relay_session.stages.primary_source_send,
    );
    let l6 = with_histogram(
        l5,
        relay_stage_names(),
        seq![("stage"@, "send_secondary_source"@)],
        status.runtime.relay_session.stages.secondary_source_send,
    );
    let l7 = with_histogram(
        l6,
        relay_stage_names(),
        seq![("stage"@, "send_primary_repair"@)],
        status.runtime.relay_session.stages.primary_repair_send,
    );
    with_histogram(
        l7,
        relay_stage_names(),
        seq![("stage"@, "send_secondary_repair"@)],
        status.runtime.relay_session.stages.secondary_repair_send,
    )
}

fn push_relay_durations(lines: &mut Vec<MetricLine>, status: &ContribStatusSnapshot)
    ensures
        lines_view(final(lines)@) == with_relay_durations(lines_view(old(lines)@), status@),
{
    push_prometheus_metric_header(
        lines,
        "av_contrib_relay_session_stage_duration_seconds",
        "RelaySession contribution latency by bounded RaptorQ and carrier stage.",
        "histogram",
    );
    push_relay_stage_names_once(lines, ("stage", "total"), &status.runtime.relay_session.stages.total);
    push_relay_stage_names_once(lines, ("stage", "encode_wait"), &status.runtime.relay_session.stages.encode_wait);
    push_relay_stage_names_once(lines, ("stage", "encode"), &status.runtime.relay_session.stages.encode);
    push_relay_stage_names_once(lines, ("stage", "schedule"), &status.runtime.relay_session.stages.schedule);
    push_relay_stage_names_once(lines, ("stage", "send_primary_source"), &status.runtime.relay_session.stages.primary_source_send);
    push_relay_stage_names_once(lines, ("stage", "send_secondary_source"), &status.runtime.relay_session.stages.secondary_source_send);
    push_relay_stage_names_once(lines, ("stage", "send_primary_repair"), &status.runtime.relay_session.stages.primary_repair_send);
    push_relay_stage_names_once(lines, ("stage", "send_secondary_repair"), &status.runtime.relay_session.stages.secondary_repair_send);
}

/// Lines with how long forwarding takes behind them.
pub open spec fn with_mesh_durations(before: Seq<LineView>, status: StatusView) -> Seq<LineView> {
    let l0 = before.push(
        header_line(
            "av_contrib_mesh_forward_duration_seconds"@,
            "Time spent encoding and sending one contributor payload to the mesh."@,
            "histogram"@,
        ),
    );
    let l1 = with_histogram(
        l0,
        mesh_duration_names(),
        seq![("kind"@, "stream"@)],
        status.runtime.mesh_forward.stream_duration,
    );
    with_histogram(
        l1,
        mesh_duration_names(),
        seq![("kind"@, "media"@)],
        status.runtime.mesh_forward.media_duration,
    )
}

fn push_mesh_durations(lines: &mut Vec<MetricLine>, status: &ContribStatusSnapshot)
    ensures
        lines_view(final(lines)@) == with_mesh_durations(lines_view(old(lines)@), status@),
{
    push_prometheus_metric_header(
        lines,
        "av_contrib_mesh_forward_duration_seconds",
        "Time spent encoding and sending one contributor payload to the mesh.",
        "histogram",
    );
    push_mesh_duration_names_once(lines, ("kind", "stream"), &status.runtime.mesh_forward.stream_duration);
    push_mesh_duration_names_once(lines, ("kind", "media"), &status.runtime.mesh_forward.media_duration);
}

/// Lines with how long the stages of forwarding take behind them.
pub open spec fn with_mesh_stage_durations(before: Seq<LineView>, status: StatusView) -> Seq<LineView> {
    let l0 = before.push(
        header_line(
            "av_contrib_mesh_forward_stage_duration_seconds"@,
            "Contributor-to-mesh forwarding time by bounded hot-path stage."@,
            "histogram"@,
        ),
    );
    let l1 = with_histogram(
        l0,
        mesh_stage_names(),
        seq![("kind"@, "stream"@), ("stage"@, "encode_wait"@)],
        status.runtime.mesh_forward.stream_stages.encode_wait,
    );
    let l2 = with_histogram(
        l1,
        mesh_stage_names(),
        seq![("kind"@, "stream"@), ("stage"@, "encode"@)],
        status.runtime.mesh_forward.stream_stages.encode,
    );
    let l3 = with_histogram(
        l2,
        mesh_stage_names(),
        seq![("kind"@, "stream"@), ("stage"@, "send"@)],
        status.runtime.mesh_forward.stream_stages.send,
    );
    let l4 = with_histogram(
        l3,
        mesh_stage_names(),
        seq![("kind"@, "stream"@), ("stage"@, "telemetry"@)],
        status.runtime.mesh_forward.stream_stages.telemetry,
    );
    let l5 = with_histogram(
        l4,
        mesh_stage_names(),
        seq![("kind"@, "media"@), ("stage"@, "encode_wait"@)],
        status.runtime.mesh_forward.media_stages.encode_wait,
    );
    let l6 = with_histogram(
        l5,
        mesh_stage_names(),
        seq![("kind"@, "media"@), ("stage"@, "encode"@)],
        status.runtime.mesh_forward.media_stages.encode,
    );
    let l7 = with_histogram(
        l6,
        mesh_stage_names(),
        seq![("kind"@, "media"@), ("stage"@, "send"@)],
        status.runtime.mesh_forward.media_stages.send,
    );
    with_histogram(
        l7,
        mesh_stage_names(),
        seq![("kind"@, "media"@), ("stage"@, "telemetry"@)],
        status.runtime.mesh_forward.media_stages.telemetry,
    )
}

fn push_mesh_stage_durations(lines: &mut Vec<MetricLine>, status: &ContribStatusSnapshot)
    ensures
        lines_view(final(lines)@) == with_mesh_stage_durations(lines_view(old(lines)@), status@),
{
    push_prometheus_metric_header(
        lines,
        "av_contrib_mesh_forward_stage_duration_seconds",
        "Contributor-to-mesh forwarding time by bounded hot-path stage.",
        "histogram",
    );
    push_mesh_stage_names_twice(lines, ("kind", "stream"), ("stage", "encode_wait"), &status.runtime.mesh_forward.stream_stages.encode_wait);
    push_mesh_stage_names_twice(lines, ("kind", "stream"), ("stage", "encode"), &status.runtime.mesh_forward.stream_stages.encode);
    push_mesh_stage_names_twice(lines, ("kind", "stream"), ("stage", "send"), &status.runtime.mesh_forward.stream_stages.send);
    push_mesh_stage_names_twice(lines, ("kind", "stream"), ("stage", "telemetry"), &status.runtime.mesh_forward.stream_stages.telemetry);
    push_mesh_stage_names_twice(lines, ("kind", "media"), ("stage", "encode_wait"), &status.runtime.mesh_forward.media_stages.encode_wait);
    push_mesh_stage_names_twice(lines, ("kind", "media"), ("stage", "encode"), &status.runtime.mesh_forward.media_stages.encode);
    push_mesh_stage_names_twice(lines, ("kind", "media"), ("stage", "send"), &status.runtime.mesh_forward.media_stages.send);
    push_mesh_stage_names_twice(lines, ("kind", "media"), ("stage", "telemetry"), &status.runtime.mesh_forward.media_stages.telemetry);
}

/// Lines with when each stage was last seen behind them.
pub open spec fn with_age_metrics(before: Seq<LineView>, status: StatusView) -> Seq<LineView> {
    let l0 = before.push(
        header_line(
            "av_contrib_last_seen_age_seconds"@,
            "Age of the most recent contributor pipeline event by stage."@,
            "gauge"@,
        ),
    );
    let l1 = with_stage_age(l0, "input"@, status.health.last_input_age_ms);
    let l2 = with_stage_age(l1, "fmp4_input"@, status.health.last_fmp4_input_age_ms);
    let l3 = with_stage_age(l2, "fmp4_output"@, status.health.last_output_age_ms);
    let l4 = with_stage_age(l3, "mesh_stream"@, status.runtime.mesh_forward.stream_last_age_ms);
    with_stage_age(l4, "mesh_media"@, status.runtime.mesh_forward.media_last_age_ms)
}

fn push_age_metrics(lines: &mut Vec<MetricLine>, status: &ContribStatusSnapshot)
    ensures
        lines_view(final(lines)@) == with_age_metrics(lines_view(old(lines)@), status@),
{
    push_prometheus_metric_header(
        lines,
        "av_contrib_last_seen_age_seconds",
        "Age of the most recent contributor pipeline event by stage.",
        "gauge",
    );
    push_stage_age(lines, "input", status.health.last_input_age_ms);
    push_stage_age(lines, "fmp4_input", status.health.last_fmp4_input_age_ms);
    push_stage_age(lines, "fmp4_output", status.health.last_output_age_ms);
    push_stage_age(lines, "mesh_stream", status.runtime.mesh_forward.stream_last_age_ms);
    push_stage_age(lines, "mesh_media", status.runtime.mesh_forward.media_last_age_ms);
}

/// Lines with the streams behind them.
pub open spec fn with_stream_metrics(before: Seq<LineView>, status: StatusView) -> Seq<LineView> {
    let l0 = before.push(
        header_line(
            "av_contrib_stream_input_bytes_total"@,
            "Contributor input bytes by stream."@,
            "counter"@,
        ),
    );
    let l1 = l0.push(
        header_line(
            "av_contrib_stream_mesh_bytes_total"@,
            "Contributor-to-mesh payload bytes by stream."@,
            "counter"@,
        ),
    );
    let l2 = l1.push(
        header_line(
            "av_contrib_stream_mesh_errors_total"@,
            "Contributor-to-mesh forwarding errors by stream."@,
            "counter"@,
        ),
    );
    let l3 = l2.push(
        header_line(
            "av_contrib_stream_fmp4_parts_total"@,
            "CMAF/fMP4 parts published by stream."@,
            "counter"@,
        ),
    );
    let l4 = l3.push(
        header_line(
            "av_contrib_stream_latest_fmp4_sequence"@,
            "Latest CMAF/fMP4 part sequence published by stream."@,
            "gauge"@,
        ),
    );
    let l5 = l4.push(
        header_line(
            "av_contrib_stream_last_seen_age_seconds"@,
            "Age of the most recent event by stream and stage."@,
            "gauge"@,
        ),
    );
    with_streams(l5, status.runtime.streams)
}

fn push_stream_metrics(lines: &mut Vec<MetricLine>, status: &ContribStatusSnapshot)
    ensures
        lines_view(final(lines)@) == with_stream_metrics(lines_view(old(lines)@), status@),
{
    push_prometheus_metric_header(
        lines,
        "av_contrib_stream_input_bytes_total",
        "Contributor input bytes by stream.",
        "counter",
    );
    push_prometheus_metric_header(
        lines,
        "av_contrib_stream_mesh_bytes_total",
        "Contributor-to-mesh payload bytes by stream.",
        "counter",
    );
    push_prometheus_metric_header(
        lines,
        "av_contrib_stream_mesh_errors_total",
        "Contributor-to-mesh forwarding errors by stream.",
        "counter",
    );
    push_prometheus_metric_header(
        lines,
        "av_contrib_stream_fmp4_parts_total",
        "CMAF/fMP4 parts published by stream.",
        "counter",
    );
    push_prometheus_metric_header(
        lines,
        "av_contrib_stream_latest_fmp4_sequence",
        "Latest CMAF/fMP4 part sequence published by stream.",
        "gauge",
    );
    push_prometheus_metric_header(
        lines,
        "av_contrib_stream_last_seen_age_seconds",
        "Age of the most recent event by stream and stage.",
        "gauge",
    );
    push_streams(lines, &status.runtime.streams);
}

/// Lines with the protocols behind them.
pub open spec fn with_protocol_metrics(before: Seq<LineView>, status: StatusView) -> Seq<LineView> {
    let l0 = before.push(
        header_line(
            "av_contrib_protocol_units_total"@,
            "Ingest units received by contributor protocol."@,
            "counter"@,
        ),
    );
    let l1 = l0.push(
        header_line(
            "av_contrib_protocol_bytes_total"@,
            "Ingest bytes received by contributor protocol."@,
            "counter"@,
        ),
    );
    let l2 = l1.push(
        header_line(
            "av_contrib_protocol_sessions"@,
            "Ingest sessions by contributor protocol and state."@,
            "gauge"@,
        ),
    );
    with_protocols(l2, status.runtime.protocols)
}

fn push_protocol_metrics(lines: &mut Vec<MetricLine>, status: &ContribStatusSnapshot)
    ensures
        lines_view(final(lines)@) == with_protocol_metrics(lines_view(old(lines)@), status@),
{
    push_prometheus_metric_header(
        lines,
        "av_contrib_protocol_units_total",
        "Ingest units received by contributor protocol.",
        "counter",
    );
    push_prometheus_metric_header(
        lines,
        "av_contrib_protocol_bytes_total",
        "Ingest bytes received by contributor protocol.",
        "counter",
    );
    push_prometheus_metric_header(
        lines,
        "av_contrib_protocol_sessions",
        "Ingest sessions by contributor protocol and state.",
        "gauge",
    );
    push_protocols(lines, &status.runtime.protocols);
}

/// The whole exposition.
pub open spec fn exposition(
    status: StatusView,
    queue: AudioQueueStats,
    worker: AudioEpochHlsWorkerStats,
    routes: RouteTextsView,
) -> Seq<LineView> {
    let none: Seq<LineView> = Seq::empty();
    let l0 = with_audio_epoch_metrics(none, queue, worker);
    let l1 = with_configuration_metrics(l0, status);
    let l2 = with_path_metrics(l1, status, routes);
    let l3 = with_route_metrics(l2, status, routes);
    let l4 = with_clock_metrics(l3, status);
    let l5 = with_input_metrics(l4, status);
    let l6 = with_output_metrics(l5, status);
    let l7 = with_mesh_metrics(l6, status);
    let l8 = with_relay_metrics(l7, status);
    let l9 = with_lane_metrics(l8, status);
    let l10 = with_deadline_metrics(l9, status);
    let l11 = with_relay_durations(l10, status);
    let l12 = with_mesh_durations(l11, status);
    let l13 = with_mesh_stage_durations(l12, status);
    let l14 = with_age_metrics(l13, status);
    let l15 = with_stream_metrics(l14, status);
    with_protocol_metrics(l15, status)
}

/// Writes the whole exposition, line by line.
pub fn render_contrib_prometheus_metrics(
    status: &ContribStatusSnapshot,
    queue: &AudioQueueStats,
    worker: &AudioEpochHlsWorkerStats,
    routes: &RouteTexts,
) -> (r: Vec<MetricLine>)
    ensures
        lines_view(r@) == exposition(status@, *queue, *worker, routes@),
{
    let mut lines: Vec<MetricLine> = Vec::new();
    assert(lines_view(lines@) =~= Seq::<LineView>::empty());
    push_audio_epoch_metrics(&mut lines, queue, worker);
    push_configuration_metrics(&mut lines, status);
    push_path_metrics(&mut lines, status, routes);
    push_route_metrics(&mut lines, status, routes);
    push_clock_metrics(&mut lines, status);
    push_input_metrics(&mut lines, status);
    push_output_metrics(&mut lines, status);
    push_mesh_metrics(&mut lines, status);
    push_relay_metrics(&mut lines, status);
    push_lane_metrics(&mut lines, status);
    push_deadline_metrics(&mut lines, status);
    push_relay_durations(&mut lines, status);
    push_mesh_durations(&mut lines, status);
    push_mesh_stage_durations(&mut lines, status);
    push_age_metrics(&mut lines, status);
    push_stream_metrics(&mut lines, status);
    push_protocol_metrics(&mut lines, status);
    lines
}

} // verus!
