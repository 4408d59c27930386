//! The service's health, and the alerts that follow from it.
use crate::arith::{cap_u64, max_int, max_u64};
use crate::service::events::{
    alerts_view, AlertView, ContribAlert, ContribHlsResponse, HlsResponseView, responses_view,
};
use crate::service::runtime::{IngestRuntimeSnapshot, RuntimeView};
use crate::text::{append_decimal, decimal, text_equal};
use vstd::prelude::*;
use vstd::string::*;

verus! {

/// Milliseconds for which output may pause at the least before it counts as stale.
pub const CONTRIB_MIN_STALE_OUTPUT_MS: u64 = 5_000;

/// How playlists are served.
#[derive(Debug, Clone, Copy, PartialEq, Eq, Structural)]
pub struct HlsStatus {
    pub part_target_ms: u32,
    pub segment_target_ms: u32,
    pub playlist_target_duration_ms: u32,
    pub playlist_count: usize,
    pub playlist_buffer_kb: usize,
}

/// The service's health.
#[derive(Debug, Clone, Copy)]
pub struct ContribHealthStatus {
    pub state: &'static str,
    pub stale_threshold_ms: u64,
    pub input_seen: bool,
    pub fmp4_input_seen: bool,
    pub output_seen: bool,
    pub last_input_age_ms: Option<u64>,
    pub last_fmp4_input_age_ms: Option<u64>,
    pub last_output_age_ms: Option<u64>,
}

/// What a [`ContribHealthStatus`] holds.
pub struct HealthView {
    pub state: Seq<char>,
    pub stale_threshold_ms: u64,
    pub input_seen: bool,
    pub fmp4_input_seen: bool,
    pub output_seen: bool,
    pub last_input_age_ms: Option<u64>,
    pub last_fmp4_input_age_ms: Option<u64>,
    pub last_output_age_ms: Option<u64>,
}

impl View for ContribHealthStatus {
    type V = HealthView;

    open spec fn view(&self) -> HealthView {
        HealthView {
            state: self.state@,
            stale_threshold_ms: self.stale_threshold_ms,
            input_seen: self.input_seen,
            fmp4_input_seen: self.fmp4_input_seen,
            output_seen: self.output_seen,
            last_input_age_ms: self.last_input_age_ms,
            last_fmp4_input_age_ms: self.last_fmp4_input_age_ms,
            last_output_age_ms: self.last_output_age_ms,
        }
    }
}

/// The least of two ages that may be missing.
pub open spec fn younger(a: Option<u64>, b: Option<u64>) -> Option<u64> {
    match (a, b) {
        (Some(a), Some(b)) => if a <= b {
            Some(a)
        } else {
            Some(b)
        },
        (Some(a), None) => Some(a),
        (None, b) => b,
    }
}

/// The least of some ages that may be missing.
pub open spec fn youngest(values: Seq<Option<u64>>) -> Option<u64>
    decreases values.len(),
{
    if values.len() == 0 {
        None
    } else {
        younger(youngest(values.drop_last()), values.last())
    }
}

/// Finds the least of some ages that may be missing.
pub fn youngest_age(values: &[Option<u64>]) -> (r: Option<u64>)
    ensures
        r == youngest(values@),
{
    let mut best: Option<u64> = None;
    let mut i: usize = 0;
    assert(values@.take(0) =~= Seq::empty());
    while i < values.len()
        invariant
            i <= values@.len(),
            best == youngest(values@.take(i as int)),
        decreases values@.len() - i,
    {
        assert(values@.take(i + 1).drop_last() =~= values@.take(i as int));
        best = match (best, values[i]) {
            (Some(a), Some(b)) => if a <= b {
                Some(a)
            } else {
                Some(b)
            },
            (Some(a), None) => Some(a),
            (None, b) => b,
        };
        i = i + 1;
    }
    assert(values@.take(i as int) =~= values@);
    best
}

/// Whether an age is known and above a threshold.
pub open spec fn is_older(age: Option<u64>, threshold_ms: u64) -> bool {
    age matches Some(age) && age > threshold_ms
}

/// How long output may pause before it counts as stale.
pub open spec fn stale_threshold(hls: HlsStatus) -> u64 {
    max_int(hls.segment_target_ms * 3, CONTRIB_MIN_STALE_OUTPUT_MS as int) as u64
}

/// The health that follows from what the service reports.
pub open spec fn health_of(runtime: RuntimeView, hls: HlsStatus) -> HealthView {
    let threshold = stale_threshold(hls);
    let fmp4_input_seen = runtime.mpeg_ts.slots > 0 || runtime.rtmp.access_units > 0;
    let input_seen = runtime.raw_http.requests > 0 || runtime.media_access_units.requests > 0
        || fmp4_input_seen;
    let output_seen = runtime.fmp4.parts > 0;
    let last_fmp4_input = youngest(
        seq![runtime.mpeg_ts.last_seen_age_ms, runtime.rtmp.last_seen_age_ms],
    );
    HealthView {
        state: if runtime.fmp4.publish_errors > 0 || runtime.mesh_forward.stream_errors > 0
            || runtime.mesh_forward.media_errors > 0 || runtime.relay_session.impaired_lanes() > 0 {
            "degraded"@
        } else if output_seen && is_older(runtime.fmp4.last_publish_age_ms, threshold) {
            "stale"@
        } else if fmp4_input_seen && !output_seen && is_older(last_fmp4_input, threshold) {
            "stalled"@
        } else if output_seen {
            "active"@
        } else if input_seen {
            "ingesting"@
        } else {
            "waiting"@
        },
        stale_threshold_ms: threshold,
        input_seen,
        fmp4_input_seen,
        output_seen,
        last_input_age_ms: youngest(
            seq![
                runtime.raw_http.last_seen_age_ms,
                runtime.media_access_units.last_seen_age_ms,
                runtime.mpeg_ts.last_seen_age_ms,
                runtime.rtmp.last_seen_age_ms,
            ],
        ),
        last_fmp4_input_age_ms: last_fmp4_input,
        last_output_age_ms: runtime.fmp4.last_publish_age_ms,
    }
}

/// Derives the health from what the service reports.
pub fn derive_contrib_health(runtime: &IngestRuntimeSnapshot, hls: &HlsStatus) -> (r:
    ContribHealthStatus)
    ensures
        r@ == health_of(runtime@, *hls),
{
    let stale_threshold_ms: u64 = max_u64(
        hls.segment_target_ms as u64 * 3,
        CONTRIB_MIN_STALE_OUTPUT_MS,
    );
    let fmp4_input_seen = runtime.mpeg_ts.slots > 0 || runtime.rtmp.access_units > 0;
    let input_seen = runtime.raw_http.requests > 0 || runtime.media_access_units.requests > 0
        || fmp4_input_seen;
    let output_seen = runtime.fmp4.parts > 0;
    let inputs: [Option<u64>; 4] = [
        runtime.raw_http.last_seen_age_ms,
        runtime.media_access_units.last_seen_age_ms,
        runtime.mpeg_ts.last_seen_age_ms,
        runtime.rtmp.last_seen_age_ms,
    ];
    let last_input_age_ms = youngest_age(inputs.as_slice());
    assert(inputs@ =~= seq![
        runtime@.raw_http.last_seen_age_ms,
        runtime@.media_access_units.last_seen_age_ms,
        runtime@.mpeg_ts.last_seen_age_ms,
        runtime@.rtmp.last_seen_age_ms,
    ]);
    let fmp4_inputs: [Option<u64>; 2] = [
        runtime.mpeg_ts.last_seen_age_ms,
        runtime.rtmp.last_seen_age_ms,
    ];
    let last_fmp4_input_age_ms = youngest_age(fmp4_inputs.as_slice());
    assert(fmp4_inputs@ =~= seq![
        runtime@.mpeg_ts.last_seen_age_ms,
        runtime@.rtmp.last_seen_age_ms,
    ]);
    let output_is_stale = match runtime.fmp4.last_publish_age_ms {
        Some(age_ms) => age_ms > stale_threshold_ms,
        None => false,
    };
    let fmp4_input_is_stale = match last_fmp4_input_age_ms {
        Some(age_ms) => age_ms > stale_threshold_ms,
        None => false,
    };
    let relay_lane_impaired = runtime.relay_session.impaired_lane_count() > 0;
    let state = if runtime.fmp4.publish_errors > 0 || runtime.mesh_forward.stream_errors > 0
        || runtime.mesh_forward.media_errors > 0 || relay_lane_impaired {
        "degraded"
    } else if output_seen && output_is_stale {
        "stale"
    } else if fmp4_input_seen && !output_seen && fmp4_input_is_stale {
        "stalled"
    } else if output_seen {
        "active"
    } else if input_seen {
        "ingesting"
    } else {
        "waiting"
    };
    ContribHealthStatus {
        state,
        stale_threshold_ms,
        input_seen,
        fmp4_input_seen,
        output_seen,
        last_input_age_ms,
        last_fmp4_input_age_ms,
        last_output_age_ms: runtime.fmp4.last_publish_age_ms,
    }
}

/// An alert or none, as a list.
pub open spec fn listed(alert: Option<AlertView>) -> Seq<AlertView> {
    match alert {
        Some(alert) => seq![alert],
        None => Seq::empty(),
    }
}

/// When something of a known age was, or now where that cannot be told.
pub open spec fn seen_at(age_ms: Option<u64>, now_ms: u64) -> Option<u64> {
    match age_ms {
        Some(age_ms) => if age_ms <= now_ms {
            Some((now_ms - age_ms) as u64)
        } else {
            Some(now_ms)
        },
        None => Some(now_ms),
    }
}

fn time_seen(age_ms: Option<u64>, now_ms: u64) -> (r: Option<u64>)
    ensures
        r == seen_at(age_ms, now_ms),
{
    match age_ms {
        Some(age_ms) => if age_ms <= now_ms {
            Some(now_ms - age_ms)
        } else {
            Some(now_ms)
        },
        None => Some(now_ms),
    }
}

/// The alert while nothing has come in.
pub open spec fn waiting_alert(health: HealthView, stream: Seq<char>, now_ms: u64) -> Option<AlertView> {
    if health.input_seen {
        None
    } else {
        Some(
            AlertView {
                level: "info"@,
                code: "waiting_for_input"@,
                message: "No contributor input has been observed yet."@,
                count: 1,
                last_seen_unix_ms: Some(now_ms),
                stream_id_text: Some(stream),
                protocol: None,
            },
        )
    }
}

/// The alert while output pauses.
pub open spec fn stale_alert(health: HealthView, stream: Seq<char>, now_ms: u64) -> Option<AlertView> {
    if health.state == "stale"@ {
        Some(
            AlertView {
                level: "warn"@,
                code: "fmp4_output_stale"@,
                message: "fMP4 output has not published for more than "@ + decimal(
                    health.stale_threshold_ms as nat,
                ) + " ms."@,
                count: 1,
                last_seen_unix_ms: seen_at(health.last_output_age_ms, now_ms),
                stream_id_text: Some(stream),
                protocol: None,
            },
        )
    } else {
        None
    }
}

/// The alert while input brings no output.
pub open spec fn stalled_alert(health: HealthView, stream: Seq<char>, now_ms: u64) -> Option<AlertView> {
    if health.state == "stalled"@ {
        Some(
            AlertView {
                level: "warn"@,
                code: "fmp4_input_without_output"@,
                message:
                    "MPEG-TS/RTMP input was observed, but no fMP4 output published within "@
                    + decimal(health.stale_threshold_ms as nat) + " ms."@,
                count: 1,
                last_seen_unix_ms: seen_at(health.last_fmp4_input_age_ms, now_ms),
                stream_id_text: Some(stream),
                protocol: None,
            },
        )
    } else {
        None
    }
}

/// The alert while a relay lane is impaired.
pub open spec fn lane_alert(runtime: RuntimeView, stream: Seq<char>, now_ms: u64) -> Option<AlertView> {
    let primary = runtime.relay_session.primary_lane_state == "impaired"@;
    let secondary = runtime.relay_session.secondary_lane_state == "impaired"@;
    if !primary && !secondary {
        None
    } else {
        let lanes = if primary && secondary {
            "primary, secondary"@
        } else if primary {
            "primary"@
        } else {
            "secondary"@
        };
        Some(
            AlertView {
                level: "warn"@,
                code: "relay_lane_impaired"@,
                message: "Relay parent lane currently impaired: "@ + lanes
                    + ". Delivery continues through each healthy complete lane."@,
                count: runtime.relay_session.impaired_lanes(),
                last_seen_unix_ms: Some(now_ms),
                stream_id_text: Some(stream),
                protocol: Some("relay-session"@),
            },
        )
    }
}

/// The first answer with an error among some, counted from `from`.
pub open spec fn first_error(list: Seq<HlsResponseView>, from: int) -> Option<int>
    decreases list.len() - from,
{
    if from < 0 || from >= list.len() {
        None
    } else if list[from].status >= 400 {
        Some(from)
    } else {
        first_error(list, from + 1)
    }
}

/// The alert once requests have been answered with errors.
pub open spec fn response_alert(runtime: RuntimeView, stream: Seq<char>, now_ms: u64) -> Option<
    AlertView,
> {
    if runtime.hls.response_errors == 0 {
        None
    } else {
        let latest = first_error(runtime.hls.recent_responses, 0);
        let (status, path, seen) = match latest {
            Some(at) => (
                runtime.hls.recent_responses[at].status,
                runtime.hls.recent_responses[at].path,
                runtime.hls.recent_responses[at].unix_ms,
            ),
            None => (0u16, "unknown HLS path"@, now_ms),
        };
        Some(
            AlertView {
                level: if status >= 500 {
                    "error"@
                } else {
                    "warn"@
                },
                code: "hls_response_errors"@,
                message: "Contributor LL-HLS has returned "@ + decimal(
                    runtime.hls.response_errors as nat,
                ) + " non-success response(s); latest was HTTP "@ + decimal(status as nat)
                    + " for "@ + path + "."@,
                count: runtime.hls.response_errors,
                last_seen_unix_ms: Some(seen),
                stream_id_text: Some(stream),
                protocol: None,
            },
        )
    }
}

/// The alert once transport streams have been damaged.
pub open spec fn damage_alert(runtime: RuntimeView) -> Option<AlertView> {
    let errors = cap_u64(runtime.mpeg_ts.continuity_errors + runtime.mpeg_ts.payload_drops) as u64;
    if errors == 0 {
        None
    } else {
        Some(
            AlertView {
                level: "warn"@,
                code: "mpeg_ts_input_damage"@,
                message: "MPEG-TS input reported "@ + decimal(
                    runtime.mpeg_ts.continuity_errors as nat,
                ) + " continuity error(s) and "@ + decimal(runtime.mpeg_ts.payload_drops as nat)
                    + " oversized payload drop(s), dropping "@ + decimal(
                    cap_u64(
                        runtime.mpeg_ts.continuity_dropped_bytes
                            + runtime.mpeg_ts.payload_drop_bytes,
                    ) as nat,
                ) + " bytes total."@,
                count: errors,
                last_seen_unix_ms: runtime.mpeg_ts.last_error_unix_ms,
                stream_id_text: None,
                protocol: Some("mpeg-ts"@),
            },
        )
    }
}

/// The alerts that follow from what the service reports.
pub open spec fn alerts_of(
    health: HealthView,
    runtime: RuntimeView,
    stream: Seq<char>,
    now_ms: u64,
) -> Seq<AlertView> {
    listed(waiting_alert(health, stream, now_ms)) + listed(stale_alert(health, stream, now_ms))
        + listed(stalled_alert(health, stream, now_ms)) + listed(
        lane_alert(runtime, stream, now_ms),
    ) + listed(response_alert(runtime, stream, now_ms)) + listed(damage_alert(runtime))
}

fn first_error_response(responses: &Vec<ContribHlsResponse>) -> (r: Option<usize>)
    ensures
        match first_error(responses_view(responses@), 0) {
            Some(at) => r matches Some(index) && index == at && index < responses@.len(),
            None => r is None,
        },
{
    let ghost list = responses_view(responses@);
    let mut i: usize = 0;
    while i < responses.len()
        invariant
            i <= responses@.len(),
            list == responses_view(responses@),
            first_error(list, 0) == first_error(list, i as int),
        decreases responses@.len() - i,
    {
        assert(list[i as int] == responses@[i as int]@);
        if responses[i].status >= 400 {
            return Some(i);
        }
        i = i + 1;
    }
    None
}

fn push_listed(alerts: &mut Vec<ContribAlert>, alert: ContribAlert)
    ensures
        alerts_view(final(alerts)@) == alerts_view(old(alerts)@) + listed(Some(alert@)),
{
    let ghost before = alerts_view(alerts@);
    alerts.push(alert);
    assert(alerts_view(alerts@) =~= before + seq![alert@]);
}

/// Derives the alerts from what the service reports.
pub fn derive_contrib_alerts(
    health: &ContribHealthStatus,
    runtime: &IngestRuntimeSnapshot,
    advertised_hls_stream_id: &str,
    now_ms: u64,
) -> (r: Vec<ContribAlert>)
    ensures
        alerts_view(r@) == alerts_of(health@, runtime@, advertised_hls_stream_id@, now_ms),
{
    let mut alerts: Vec<ContribAlert> = Vec::new();
    assert(alerts_view(alerts@) =~= Seq::<AlertView>::empty());
    let ghost stream = advertised_hls_stream_id@;
    if !health.input_seen {
        push_listed(
            &mut alerts,
            ContribAlert {
                level: "info",
                code: "waiting_for_input",
                message: "No contributor input has been observed yet.".to_owned(),
                count: 1,
                last_seen_unix_ms: Some(now_ms),
                stream_id_text: Some(advertised_hls_stream_id.to_owned()),
                protocol: None,
            },
        );
    }
    let ghost done = listed(waiting_alert(health@, stream, now_ms));
    assert(alerts_view(alerts@) =~= done);
    if text_equal(health.state, "stale") {
        let mut message = "fMP4 output has not published for more than ".to_owned();
        append_decimal(&mut message, health.stale_threshold_ms);
        message.append(" ms.");
        push_listed(
            &mut alerts,
            ContribAlert {
                level: "warn",
                code: "fmp4_output_stale",
                message,
                count: 1,
                last_seen_unix_ms: time_seen(health.last_output_age_ms, now_ms),
                stream_id_text: Some(advertised_hls_stream_id.to_owned()),
                protocol: None,
            },
        );
    }
    let ghost done = done + listed(stale_alert(health@, stream, now_ms));
    assert(alerts_view(alerts@) =~= done);
    if text_equal(health.state, "stalled") {
        let mut message =
            "MPEG-TS/RTMP input was observed, but no fMP4 output published within ".to_owned();
        append_decimal(&mut message, health.stale_threshold_ms);
        message.append(" ms.");
        push_listed(
            &mut alerts,
            ContribAlert {
                level: "warn",
                code: "fmp4_input_without_output",
                message,
                count: 1,
                last_seen_unix_ms: time_seen(health.last_fmp4_input_age_ms, now_ms),
                stream_id_text: Some(advertised_hls_stream_id.to_owned()),
                protocol: None,
            },
        );
    }
    let ghost done = done + listed(stalled_alert(health@, stream, now_ms));
    assert(alerts_view(alerts@) =~= done);
    let primary = text_equal(runtime.relay_session.primary_lane_state, "impaired");
    let secondary = text_equal(runtime.relay_session.secondary_lane_state, "impaired");
    if primary || secondary {
        let mut message = "Relay parent lane currently impaired: ".to_owned();
        message.append(
            if primary && secondary {
                "primary, secondary"
            } else if primary {
                "primary"
            } else {
                "secondary"
            },
        );
        message.append(". Delivery continues through each healthy complete lane.");
        push_listed(
            &mut alerts,
            ContribAlert {
                level: "warn",
                code: "relay_lane_impaired",
                message,
                count: runtime.relay_session.impaired_lane_count(),
                last_seen_unix_ms: Some(now_ms),
                stream_id_text: Some(advertised_hls_stream_id.to_owned()),
                protocol: Some("relay-session"),
            },
        );
    }
    let ghost done = done + listed(lane_alert(runtime@, stream, now_ms));
    assert(alerts_view(alerts@) =~= done);
    if runtime.hls.response_errors > 0 {
        let latest = first_error_response(&runtime.hls.recent_responses);
        let status: u16 = match latest {
            Some(at) => runtime.hls.recent_responses[at].status,
            None => 0,
        };
        let seen: u64 = match latest {
            Some(at) => runtime.hls.recent_responses[at].unix_ms,
            None => now_ms,
        };
        let mut message = "Contributor LL-HLS has returned ".to_owned();
        append_decimal(&mut message, runtime.hls.response_errors);
        message.append(" non-success response(s); latest was HTTP ");
        append_decimal(&mut message, status as u64);
        message.append(" for ");
        match latest {
            Some(at) => message.append(runtime.hls.recent_responses[at].path.as_str()),
            None => message.append("unknown HLS path"),
        }
        message.append(".");
        proof {
            if let Some(at) = latest {
                assert(runtime@.hls.recent_responses[at as int]
                    == runtime.hls.recent_responses@[at as int]@);
            }
        }
        push_listed(
            &mut alerts,
            ContribAlert {
                level: if status >= 500 {
                    "error"
                } else {
                    "warn"
                },
                code: "hls_response_errors",
                message,
                count: runtime.hls.response_errors,
                last_seen_unix_ms: Some(seen),
                stream_id_text: Some(advertised_hls_stream_id.to_owned()),
                protocol: None,
            },
        );
    }
    let ghost done = done + listed(response_alert(runtime@, stream, now_ms));
    assert(alerts_view(alerts@) =~= done);
    let errors: u64 = runtime.mpeg_ts.continuity_errors.saturating_add(
        runtime.mpeg_ts.payload_drops,
    );
    if errors > 0 {
        let mut message = "MPEG-TS input reported ".to_owned();
        append_decimal(&mut message, runtime.mpeg_ts.continuity_errors);
        message.append(" continuity error(s) and ");
        append_decimal(&mut message, runtime.mpeg_ts.payload_drops);
        message.append(" oversized payload drop(s), dropping ");
        append_decimal(
            &mut message,
            runtime.mpeg_ts.continuity_dropped_bytes.saturating_add(
                runtime.mpeg_ts.payload_drop_bytes,
            ),
        );
        message.append(" bytes total.");
        push_listed(
            &mut alerts,
            ContribAlert {
                level: "warn",
                code: "mpeg_ts_input_damage",
                message,
                count: errors,
                last_seen_unix_ms: runtime.mpeg_ts.last_error_unix_ms,
                stream_id_text: None,
                protocol: Some("mpeg-ts"),
            },
        );
    }
    let ghost done = done + listed(damage_alert(runtime@));
    assert(alerts_view(alerts@) =~= done);
    alerts
}

/// The names of the states differ.
proof fn state_names_differ()
    ensures
        "degraded"@ != "stale"@,
        "degraded"@ != "stalled"@,
        "degraded"@ != "active"@,
        "degraded"@ != "ingesting"@,
        "degraded"@ != "waiting"@,
        "stale"@ != "stalled"@,
        "stale"@ != "active"@,
        "stale"@ != "ingesting"@,
        "stale"@ != "waiting"@,
        "stalled"@ != "active"@,
        "stalled"@ != "ingesting"@,
        "stalled"@ != "waiting"@,
        "active"@ != "ingesting"@,
        "active"@ != "waiting"@,
        "ingesting"@ != "waiting"@,
{
    reveal_strlit("degraded");
    reveal_strlit("stale");
    reveal_strlit("stalled");
    reveal_strlit("active");
    reveal_strlit("ingesting");
    reveal_strlit("waiting");
    assert("degraded"@[0] == 'd' && "stale"@[0] == 's' && "stalled"@[0] == 's');
    assert("active"@[0] == 'a' && "ingesting"@[0] == 'i' && "waiting"@[0] == 'w');
    assert("stale"@.len() == 5 && "stalled"@.len() == 7);
}

/// Whether anything that the service sends on has failed: a part was not published, a slot or an access
/// unit was not forwarded, or a lane of the relay is impaired.
pub open spec fn something_failed(runtime: RuntimeView) -> bool {
    ||| runtime.fmp4.publish_errors > 0
    ||| runtime.mesh_forward.stream_errors > 0
    ||| runtime.mesh_forward.media_errors > 0
    ||| runtime.relay_session.primary_lane_state == "impaired"@
    ||| runtime.relay_session.secondary_lane_state == "impaired"@
}

/// Whether an age is longer than three segments and than five seconds.
pub open spec fn is_long_ago(age: Option<u64>, hls: HlsStatus) -> bool {
    age matches Some(age) && age > 3 * hls.segment_target_ms && age > 5_000
}

/// The service is degraded exactly where something that it sends on has failed, whatever else it
/// does; only where nothing has, it is said to be active, stale or anything else.
pub proof fn failures_degrade(runtime: RuntimeView, hls: HlsStatus)
    ensures
        health_of(runtime, hls).state == "degraded"@ <==> something_failed(runtime),
{
    state_names_differ();
}

/// Without failures the service is active where parts were published and not long ago, and stale where
/// the last was long ago.
pub proof fn output_is_active_or_stale(runtime: RuntimeView, hls: HlsStatus)
    ensures
        health_of(runtime, hls).state == "active"@ <==> !something_failed(runtime)
            && runtime.fmp4.parts > 0 && !is_long_ago(runtime.fmp4.last_publish_age_ms, hls),
        health_of(runtime, hls).state == "stale"@ <==> !something_failed(runtime)
            && runtime.fmp4.parts > 0 && is_long_ago(runtime.fmp4.last_publish_age_ms, hls),
        health_of(runtime, hls).output_seen == (runtime.fmp4.parts > 0),
        health_of(runtime, hls).last_output_age_ms == runtime.fmp4.last_publish_age_ms,
{
    state_names_differ();
}

/// Without failures and output the service is stalled where media came in long ago, ingests where
/// anything came in, and waits where nothing has.
pub proof fn input_is_stalled_or_ingested(runtime: RuntimeView, hls: HlsStatus)
    ensures
        ({
            let health = health_of(runtime, hls);
            let media = runtime.mpeg_ts.slots > 0 || runtime.rtmp.access_units > 0;
            let other = runtime.raw_http.requests > 0 || runtime.media_access_units.requests > 0;
            let long_ago = (is_long_ago(runtime.mpeg_ts.last_seen_age_ms, hls)
                || runtime.mpeg_ts.last_seen_age_ms is None) && (is_long_ago(
                runtime.rtmp.last_seen_age_ms,
                hls,
            ) || runtime.rtmp.last_seen_age_ms is None) && (runtime.mpeg_ts.last_seen_age_ms is Some
                || runtime.rtmp.last_seen_age_ms is Some);
            let silent = !something_failed(runtime) && runtime.fmp4.parts == 0;
            &&& health.input_seen == (media || other)
            &&& health.fmp4_input_seen == media
            &&& health.state == "stalled"@ <==> silent && media && long_ago
            &&& health.state == "ingesting"@ <==> silent && (media || other) && !(media && long_ago)
            &&& health.state == "waiting"@ <==> silent && !media && !other
        }),
{
    state_names_differ();
    let ages = seq![runtime.mpeg_ts.last_seen_age_ms, runtime.rtmp.last_seen_age_ms];
    reveal_with_fuel(youngest, 3);
    assert(ages.drop_last() =~= seq![runtime.mpeg_ts.last_seen_age_ms]);
    assert(ages.drop_last().drop_last() =~= Seq::<Option<u64>>::empty());
}

/// The youngest of some ages is one of them, and none is younger; there is none only where none is
/// known.
pub proof fn the_youngest_is_least(values: Seq<Option<u64>>)
    ensures
        match youngest(values) {
            Some(age) => values.contains(Some(age)) && forall|i: int|
                0 <= i < values.len() ==> ((#[trigger] values[i]) matches Some(other) ==> age
                    <= other),
            None => forall|i: int| 0 <= i < values.len() ==> (#[trigger] values[i]) is None,
        },
    decreases values.len(),
{
    if values.len() > 0 {
        let older = values.drop_last();
        the_youngest_is_least(older);
        assert(values.last() == values[values.len() - 1]);
        assert forall|i: int| 0 <= i < older.len() implies older[i] == #[trigger] values[i] by {}
        match youngest(values) {
            Some(age) => {
                if youngest(older) == Some(age) {
                    let i = choose|i: int| 0 <= i < older.len() && older[i] == Some(age);
                    assert(values[i] == Some(age));
                }
                assert forall|i: int| 0 <= i < values.len() implies ((#[trigger] values[i]) matches
                    Some(other) ==> age <= other) by {
                    if i < older.len() {
                        assert(older[i] == values[i]);
                    }
                }
            },
            None => {
                assert forall|i: int| 0 <= i < values.len() implies (#[trigger] values[i])
                    is None by {
                    if i < older.len() {
                        assert(older[i] == values[i]);
                    }
                }
            },
        }
    }
}

/// The last input is the youngest of all inputs, whatever they came by.
pub proof fn every_input_counts(runtime: RuntimeView, hls: HlsStatus)
    ensures
        ({
            let health = health_of(runtime, hls);
            let known = |age: Option<u64>|
                age matches Some(age) ==> health.last_input_age_ms is Some
                    && health.last_input_age_ms->Some_0 <= age;
            &&& known(runtime.raw_http.last_seen_age_ms)
            &&& known(runtime.media_access_units.last_seen_age_ms)
            &&& known(runtime.mpeg_ts.last_seen_age_ms)
            &&& known(runtime.rtmp.last_seen_age_ms)
            &&& health.last_input_age_ms is Some ==> (health.last_input_age_ms
                == runtime.raw_http.last_seen_age_ms || health.last_input_age_ms
                == runtime.media_access_units.last_seen_age_ms || health.last_input_age_ms
                == runtime.mpeg_ts.last_seen_age_ms || health.last_input_age_ms
                == runtime.rtmp.last_seen_age_ms)
        }),
{
    let ages = seq![
        runtime.raw_http.last_seen_age_ms,
        runtime.media_access_units.last_seen_age_ms,
        runtime.mpeg_ts.last_seen_age_ms,
        runtime.rtmp.last_seen_age_ms,
    ];
    the_youngest_is_least(ages);
    assert(ages[0] == runtime.raw_http.last_seen_age_ms);
    assert(ages[1] == runtime.media_access_units.last_seen_age_ms);
    assert(ages[2] == runtime.mpeg_ts.last_seen_age_ms);
    assert(ages[3] == runtime.rtmp.last_seen_age_ms);
}

/// Whether an alert with a code, a level and a count stands in a list.
pub open spec fn is_raised(
    alerts: Seq<AlertView>,
    level: Seq<char>,
    code: Seq<char>,
    count: u64,
) -> bool {
    exists|i: int|
        0 <= i < alerts.len() && (#[trigger] alerts[i]).level == level && alerts[i].code == code
            && alerts[i].count == count
}

/// How many of six things hold.
pub open spec fn how_many(a: bool, b: bool, c: bool, d: bool, e: bool, f: bool) -> int {
    let one = |holds: bool| if holds {
        1int
    } else {
        0
    };
    one(a) + one(b) + one(c) + one(d) + one(e) + one(f)
}

/// Every trouble is raised, with how often it occurred, and nothing else is: that nothing has come in,
/// that output is stale or stalled, that lanes are impaired, that requests were answered with errors,
/// and that transport streams were damaged.
pub proof fn every_trouble_is_raised(
    health: HealthView,
    runtime: RuntimeView,
    stream: Seq<char>,
    now_ms: u64,
)
    ensures
        ({
            let alerts = alerts_of(health, runtime, stream, now_ms);
            let primary = runtime.relay_session.primary_lane_state == "impaired"@;
            let secondary = runtime.relay_session.secondary_lane_state == "impaired"@;
            let damage = runtime.mpeg_ts.continuity_errors + runtime.mpeg_ts.payload_drops;
            &&& !health.input_seen ==> is_raised(alerts, "info"@, "waiting_for_input"@, 1)
            &&& health.state == "stale"@ ==> is_raised(alerts, "warn"@, "fmp4_output_stale"@, 1)
            &&& health.state == "stalled"@ ==> is_raised(
                alerts,
                "warn"@,
                "fmp4_input_without_output"@,
                1,
            )
            &&& primary && secondary ==> is_raised(alerts, "warn"@, "relay_lane_impaired"@, 2)
            &&& primary != secondary ==> is_raised(alerts, "warn"@, "relay_lane_impaired"@, 1)
            &&& runtime.hls.response_errors > 0 ==> is_raised(
                alerts,
                "warn"@,
                "hls_response_errors"@,
                runtime.hls.response_errors,
            ) || is_raised(
                alerts,
                "error"@,
                "hls_response_errors"@,
                runtime.hls.response_errors,
            )
            &&& 0 < damage <= u64::MAX ==> is_raised(
                alerts,
                "warn"@,
                "mpeg_ts_input_damage"@,
                damage as u64,
            )
            &&& alerts.len() == how_many(
                !health.input_seen,
                health.state == "stale"@,
                health.state == "stalled"@,
                primary || secondary,
                runtime.hls.response_errors > 0,
                damage > 0,
            )
        }),
{
    let a = listed(waiting_alert(health, stream, now_ms));
    let b = listed(stale_alert(health, stream, now_ms));
    let c = listed(stalled_alert(health, stream, now_ms));
    let d = listed(lane_alert(runtime, stream, now_ms));
    let e = listed(response_alert(runtime, stream, now_ms));
    let f = listed(damage_alert(runtime));
    let alerts = alerts_of(health, runtime, stream, now_ms);
    if a.len() > 0 {
        assert(alerts[0] == a[0]);
    }
    if b.len() > 0 {
        assert(alerts[a.len() as int] == b[0]);
    }
    if c.len() > 0 {
        assert(alerts[(a.len() + b.len()) as int] == c[0]);
    }
    if d.len() > 0 {
        assert(alerts[(a.len() + b.len() + c.len()) as int] == d[0]);
    }
    if e.len() > 0 {
        assert(alerts[(a.len() + b.len() + c.len() + d.len()) as int] == e[0]);
    }
    if f.len() > 0 {
        assert(alerts[(a.len() + b.len() + c.len() + d.len() + e.len()) as int] == f[0]);
    }
}

/// The first error in a list is where no error stands before it.
proof fn the_first_error_is_found(list: Seq<HlsResponseView>, from: int, at: int)
    requires
        0 <= from <= at <= list.len(),
        forall|i: int| from <= i < at ==> (#[trigger] list[i]).status < 400,
        at < list.len() ==> list[at].status >= 400,
    ensures
        first_error(list, from) == (if at < list.len() {
            Some(at)
        } else {
            None::<int>
        }),
    decreases at - from,
{
    if from < at {
        the_first_error_is_found(list, from + 1, at);
    }
}

/// An alert tells when the trouble was last seen and of which stream. Of answers it is as severe as the
/// latest that was an error, which is the first in the list, and was seen when that was given.
pub proof fn alerts_tell_when_it_happened(
    health: HealthView,
    runtime: RuntimeView,
    stream: Seq<char>,
    now_ms: u64,
    at: int,
)
    requires
        0 <= at <= runtime.hls.recent_responses.len(),
        forall|i: int|
            0 <= i < at ==> (#[trigger] runtime.hls.recent_responses[i]).status < 400,
        at < runtime.hls.recent_responses.len() ==> runtime.hls.recent_responses[at].status >= 400,
    ensures
        ({
            let ago = |age: Option<u64>|
                if age is Some && age->Some_0 <= now_ms {
                    Some((now_ms - age->Some_0) as u64)
                } else {
                    Some(now_ms)
                };
            let waiting = waiting_alert(health, stream, now_ms);
            let stale = stale_alert(health, stream, now_ms);
            let stalled = stalled_alert(health, stream, now_ms);
            let lane = lane_alert(runtime, stream, now_ms);
            let answers = response_alert(runtime, stream, now_ms);
            let damage = damage_alert(runtime);
            let told = |alert: Option<AlertView>, seen: Option<u64>|
                alert is Some ==> alert->Some_0.last_seen_unix_ms == seen
                    && alert->Some_0.stream_id_text == Some(stream);
            let latest = runtime.hls.recent_responses;
            &&& told(waiting, Some(now_ms))
            &&& told(stale, ago(health.last_output_age_ms))
            &&& told(stalled, ago(health.last_fmp4_input_age_ms))
            &&& told(lane, Some(now_ms))
            &&& at < latest.len() ==> told(answers, Some(latest[at].unix_ms))
            &&& at == latest.len() ==> told(answers, Some(now_ms))
            &&& answers is Some ==> (answers->Some_0.level == "error"@ <==> at < latest.len()
                && latest[at].status >= 500)
            &&& answers is Some ==> (answers->Some_0.level == "warn"@ <==> at == latest.len()
                || latest[at].status < 500)
            &&& damage is Some ==> damage->Some_0.last_seen_unix_ms
                == runtime.mpeg_ts.last_error_unix_ms && damage->Some_0.protocol == Some(
                "mpeg-ts"@,
            )
            &&& lane is Some ==> lane->Some_0.protocol == Some("relay-session"@)
        }),
{
    the_first_error_is_found(runtime.hls.recent_responses, 0, at);
    reveal_strlit("error");
    reveal_strlit("warn");
    assert("error"@.len() == 5 && "warn"@.len() == 4);
}

} // verus!
