//! How the service is configured, and its status as a whole.
use crate::bytes::copy_bytes;
use crate::service::events::{
    activity_view, alerts_view, copy_text, name_view, text_view, ActivityView, AlertView,
    ContribActivity, ContribAlert,
};
use crate::service::health::{
    alerts_of, derive_contrib_alerts, derive_contrib_health, health_of, ContribHealthStatus,
    HealthView, HlsStatus,
};
use crate::service::media_objects::AV_CONTRIB_CLOCK_ID;
use crate::service::runtime::{IngestRuntimeSnapshot, RuntimeView};
use crate::service::telemetry::{IngestTelemetry, TelemetryView};
use crate::text::{append_decimal, append_hex8, decimal, decimal_text, hex_digits};
use vstd::prelude::*;
use vstd::string::*;

verus! {

/// Flow id of RIST contributions unless another is configured.
pub const DEFAULT_FLOW_ID: u32 = 0x1122_3344;

/// RIST's profiles.
#[derive(Debug, Clone, Copy, PartialEq, Eq, Structural)]
pub enum RistProfile {
    Simple,
    Main,
}

impl RistProfile {
    /// The profile's name.
    pub open spec fn name(self) -> Seq<char> {
        match self {
            RistProfile::Simple => "simple"@,
            RistProfile::Main => "main"@,
        }
    }

    /// The profile's name.
    pub fn as_str(self) -> (r: &'static str)
        ensures
            r@ == self.name(),
    {
        match self {
            RistProfile::Simple => "simple",
            RistProfile::Main => "main",
        }
    }
}

/// RIST's implementations.
#[derive(Debug, Clone, Copy, PartialEq, Eq, Structural)]
pub enum RistBackend {
    Pure,
}

impl RistBackend {
    /// The implementation's name.
    pub fn as_str(self) -> (r: &'static str)
        ensures
            r@ == "pure"@,
    {
        match self {
            RistBackend::Pure => "pure",
        }
    }
}

/// How the service is configured; addresses are given as texts.
#[derive(Debug)]
pub struct ServiceOptions {
    pub stream_id: u64,
    pub rist_bind: Option<String>,
    pub rist_stream_id: u64,
    pub rist_profile: RistProfile,
    pub rist_backend: RistBackend,
    pub rist_flow_id: u32,
    pub srt_bind: Option<String>,
    pub srt_stream_id: u64,
    pub rtmp_bind: Option<String>,
    pub rtmp_stream_id: u64,
    pub daw_media_bind: Option<String>,
    pub mesh_fec_target: String,
    pub mesh_media_fec_target: String,
    pub relay_primary_target: Option<String>,
    pub relay_primary_bind: Option<String>,
    pub relay_primary_id: String,
    pub relay_secondary_target: Option<String>,
    pub relay_secondary_bind: Option<String>,
    pub relay_secondary_id: String,
    pub relay_secondary_seed_source: bool,
    pub relay_exclusive: bool,
    pub relay_topology_generation: u64,
    pub relay_subscription_id: u64,
    pub relay_deadline_ms: u64,
    /// Whether any observation of the primary path is configured.
    pub relay_path_observed: bool,
    pub relay_path_observed_at_unix_ms: Option<u64>,
    /// Whether any observation of the secondary path is configured.
    pub relay_secondary_path_observed: bool,
    pub relay_secondary_path_observed_at_unix_ms: Option<u64>,
    pub wall_clock_estimated_error_ms: u64,
    pub fmp4_part_ms: u32,
    pub fmp4_segment_ms: u32,
    pub hls_target_duration_ms: u32,
    pub playlist_count: usize,
    pub playlist_buffer_kb: usize,
    pub repair_symbols: u32,
    pub symbol_size: u16,
}

/// The stream whose playlist is advertised: that of the first listener that is enabled, or the
/// default one.
pub open spec fn advertised_stream(options: ServiceOptions) -> u64 {
    if options.rist_bind is Some {
        options.rist_stream_id
    } else if options.srt_bind is Some {
        options.srt_stream_id
    } else if options.rtmp_bind is Some {
        options.rtmp_stream_id
    } else {
        options.stream_id
    }
}

/// Chooses the stream whose playlist is advertised.
pub fn advertised_hls_stream_id(options: &ServiceOptions) -> (r: u64)
    ensures
        r == advertised_stream(*options),
{
    if options.rist_bind.is_some() {
        options.rist_stream_id
    } else if options.srt_bind.is_some() {
        options.srt_stream_id
    } else if options.rtmp_bind.is_some() {
        options.rtmp_stream_id
    } else {
        options.stream_id
    }
}

/// The path of a stream's playlist.
pub open spec fn playlist_path(stream_id: u64) -> Seq<char> {
    "/"@ + decimal(stream_id as nat) + "/stream.m3u8"@
}

/// The path of a stream's playlist.
pub fn stream_playlist_path(stream_id: u64) -> (r: String)
    ensures
        r@ == playlist_path(stream_id),
{
    let mut r = "/".to_owned();
    append_decimal(&mut r, stream_id);
    r.append("/stream.m3u8");
    r
}

/// A listener for contributions.
#[derive(Debug)]
pub struct ListenerStatus {
    pub protocol: &'static str,
    pub enabled: bool,
    pub bind: Option<String>,
    pub output_stream_id: String,
    pub output_hls_path: String,
    pub backend: Option<&'static str>,
    pub profile: Option<&'static str>,
    pub flow_id: Option<String>,
}

/// What a [`ListenerStatus`] holds.
pub struct ListenerView {
    pub protocol: Seq<char>,
    pub enabled: bool,
    pub bind: Option<Seq<char>>,
    pub output_stream_id: Seq<char>,
    pub output_hls_path: Seq<char>,
    pub backend: Option<Seq<char>>,
    pub profile: Option<Seq<char>>,
    pub flow_id: Option<Seq<char>>,
}

impl View for ListenerStatus {
    type V = ListenerView;

    open spec fn view(&self) -> ListenerView {
        ListenerView {
            protocol: self.protocol@,
            enabled: self.enabled,
            bind: text_view(self.bind),
            output_stream_id: self.output_stream_id@,
            output_hls_path: self.output_hls_path@,
            backend: name_view(self.backend),
            profile: name_view(self.profile),
            flow_id: text_view(self.flow_id),
        }
    }
}

/// A listener of a protocol that has no more to say than its stream.
pub open spec fn plain_listener(protocol: Seq<char>, bind: Option<Seq<char>>, stream_id: u64) ->
    ListenerView {
    ListenerView {
        protocol,
        enabled: bind is Some,
        bind,
        output_stream_id: decimal(stream_id as nat),
        output_hls_path: playlist_path(stream_id),
        backend: None,
        profile: None,
        flow_id: None,
    }
}

/// The listeners that can be configured.
pub open spec fn listeners_of(options: ServiceOptions) -> Seq<ListenerView> {
    seq![
        ListenerView {
            backend: Some("pure"@),
            profile: Some(options.rist_profile.name()),
            flow_id: Some("0x"@ + hex_digits(options.rist_flow_id as nat, 8)),
            ..plain_listener("rist"@, text_view(options.rist_bind), options.rist_stream_id)
        },
        plain_listener("srt"@, text_view(options.srt_bind), options.srt_stream_id),
        plain_listener("rtmp"@, text_view(options.rtmp_bind), options.rtmp_stream_id),
    ]
}

impl ListenerStatus {
    fn plain(protocol: &'static str, bind: &Option<String>, stream_id: u64) -> (r: Self)
        ensures
            r@ == plain_listener(protocol@, text_view(*bind), stream_id),
    {
        ListenerStatus {
            protocol,
            enabled: bind.is_some(),
            bind: copy_text(bind),
            output_stream_id: decimal_text(stream_id),
            output_hls_path: stream_playlist_path(stream_id),
            backend: None,
            profile: None,
            flow_id: None,
        }
    }

    /// The RIST listener.
    pub fn rist(options: &ServiceOptions) -> (r: Self)
        ensures
            r@ == listeners_of(*options)[0],
    {
        let mut flow_id = "0x".to_owned();
        append_hex8(&mut flow_id, options.rist_flow_id);
        let mut listener = Self::plain("rist", &options.rist_bind, options.rist_stream_id);
        listener.backend = Some(options.rist_backend.as_str());
        listener.profile = Some(options.rist_profile.as_str());
        listener.flow_id = Some(flow_id);
        listener
    }

    /// The SRT listener.
    pub fn srt(options: &ServiceOptions) -> (r: Self)
        ensures
            r@ == listeners_of(*options)[1],
    {
        Self::plain("srt", &options.srt_bind, options.srt_stream_id)
    }

    /// The RTMP listener.
    pub fn rtmp(options: &ServiceOptions) -> (r: Self)
        ensures
            r@ == listeners_of(*options)[2],
    {
        Self::plain("rtmp", &options.rtmp_bind, options.rtmp_stream_id)
    }

    /// Copies a listener's status.
    pub fn copy(&self) -> (r: Self)
        ensures
            r@ == self@,
    {
        ListenerStatus {
            protocol: self.protocol,
            enabled: self.enabled,
            bind: copy_text(&self.bind),
            output_stream_id: self.output_stream_id.clone(),
            output_hls_path: self.output_hls_path.clone(),
            backend: self.backend,
            profile: self.profile,
            flow_id: copy_text(&self.flow_id),
        }
    }
}

/// Where contributions go, and how.
#[derive(Debug)]
pub struct MeshTargetStatus {
    pub byte_fec_target: String,
    pub media_fec_target: String,
    pub relay_primary_configured: bool,
    pub relay_secondary_configured: bool,
    pub relay_carrier: Option<&'static str>,
    pub relay_trust: Option<&'static str>,
    pub relay_primary_id: Option<String>,
    pub relay_primary_target: Option<String>,
    pub relay_primary_bind: Option<String>,
    pub relay_secondary_id: Option<String>,
    pub relay_secondary_target: Option<String>,
    pub relay_secondary_bind: Option<String>,
    pub relay_secondary_source_seeded: bool,
    pub relay_exclusive: bool,
    pub relay_topology_generation: u64,
    pub relay_subscription_id: u64,
    pub relay_deadline_ms: u64,
    pub relay_path_observation_source: &'static str,
    pub relay_path_observed_at_unix_ms: Option<u64>,
    pub relay_secondary_path_observation_source: &'static str,
    pub relay_secondary_path_observed_at_unix_ms: Option<u64>,
    pub media_object_clock_id: &'static str,
    pub media_object_clock_confidence: &'static str,
    pub media_object_clock_estimated_error_ms: u64,
    pub media_object_source_epoch: u64,
}

/// What a [`MeshTargetStatus`] holds.
pub struct MeshTargetView {
    pub byte_fec_target: Seq<char>,
    pub media_fec_target: Seq<char>,
    pub relay_primary_configured: bool,
    pub relay_secondary_configured: bool,
    pub relay_carrier: Option<Seq<char>>,
    pub relay_trust: Option<Seq<char>>,
    pub relay_primary_id: Option<Seq<char>>,
    pub relay_primary_target: Option<Seq<char>>,
    pub relay_primary_bind: Option<Seq<char>>,
    pub relay_secondary_id: Option<Seq<char>>,
    pub relay_secondary_target: Option<Seq<char>>,
    pub relay_secondary_bind: Option<Seq<char>>,
    pub relay_secondary_source_seeded: bool,
    pub relay_exclusive: bool,
    pub relay_topology_generation: u64,
    pub relay_subscription_id: u64,
    pub relay_deadline_ms: u64,
    pub relay_path_observation_source: Seq<char>,
    pub relay_path_observed_at_unix_ms: Option<u64>,
    pub relay_secondary_path_observation_source: Seq<char>,
    pub relay_secondary_path_observed_at_unix_ms: Option<u64>,
    pub media_object_clock_id: Seq<char>,
    pub media_object_clock_confidence: Seq<char>,
    pub media_object_clock_estimated_error_ms: u64,
    pub media_object_source_epoch: u64,
}

impl View for MeshTargetStatus {
    type V = MeshTargetView;

    open spec fn view(&self) -> MeshTargetView {
        MeshTargetView {
            byte_fec_target: self.byte_fec_target@,
            media_fec_target: self.media_fec_target@,
            relay_primary_configured: self.relay_primary_configured,
            relay_secondary_configured: self.relay_secondary_configured,
            relay_carrier: name_view(self.relay_carrier),
            relay_trust: name_view(self.relay_trust),
            relay_primary_id: text_view(self.relay_primary_id),
            relay_primary_target: text_view(self.relay_primary_target),
            relay_primary_bind: text_view(self.relay_primary_bind),
            relay_secondary_id: text_view(self.relay_secondary_id),
            relay_secondary_target: text_view(self.relay_secondary_target),
            relay_secondary_bind: text_view(self.relay_secondary_bind),
            relay_secondary_source_seeded: self.relay_secondary_source_seeded,
            relay_exclusive: self.relay_exclusive,
            relay_topology_generation: self.relay_topology_generation,
            relay_subscription_id: self.relay_subscription_id,
            relay_deadline_ms: self.relay_deadline_ms,
            relay_path_observation_source: self.relay_path_observation_source@,
            relay_path_observed_at_unix_ms: self.relay_path_observed_at_unix_ms,
            relay_secondary_path_observation_source: self.relay_secondary_path_observation_source@,
            relay_secondary_path_observed_at_unix_ms: self.relay_secondary_path_observed_at_unix_ms,
            media_object_clock_id: self.media_object_clock_id@,
            media_object_clock_confidence: self.media_object_clock_confidence@,
            media_object_clock_estimated_error_ms: self.media_object_clock_estimated_error_ms,
            media_object_source_epoch: self.media_object_source_epoch,
        }
    }
}

/// Something that is there only with something else.
pub open spec fn only_with<A, B>(condition: Option<A>, value: B) -> Option<B> {
    if condition is Some {
        Some(value)
    } else {
        None
    }
}

/// Where contributions go as configured.
pub open spec fn mesh_of(options: ServiceOptions, source_epoch: u64) -> MeshTargetView {
    MeshTargetView {
        byte_fec_target: options.mesh_fec_target@,
        media_fec_target: options.mesh_media_fec_target@,
        relay_primary_configured: options.relay_primary_target is Some,
        relay_secondary_configured: options.relay_secondary_target is Some,
        relay_carrier: only_with(options.relay_primary_target, "private-udp"@),
        relay_trust: only_with(options.relay_primary_target, "controlled-qualification"@),
        relay_primary_id: only_with(options.relay_primary_target, options.relay_primary_id@),
        relay_primary_target: text_view(options.relay_primary_target),
        relay_primary_bind: text_view(options.relay_primary_bind),
        relay_secondary_id: only_with(options.relay_secondary_target, options.relay_secondary_id@),
        relay_secondary_target: text_view(options.relay_secondary_target),
        relay_secondary_bind: text_view(options.relay_secondary_bind),
        relay_secondary_source_seeded: options.relay_secondary_seed_source,
        relay_exclusive: options.relay_exclusive,
        relay_topology_generation: options.relay_topology_generation,
        relay_subscription_id: options.relay_subscription_id,
        relay_deadline_ms: options.relay_deadline_ms,
        relay_path_observation_source: if options.relay_path_observed {
            "controller-seeded"@
        } else {
            "default-policy"@
        },
        relay_path_observed_at_unix_ms: options.relay_path_observed_at_unix_ms,
        relay_secondary_path_observation_source: if options.relay_secondary_path_observed {
            "controller-seeded"@
        } else {
            "primary-policy-fallback"@
        },
        relay_secondary_path_observed_at_unix_ms: match options.relay_secondary_path_observed_at_unix_ms {
            Some(at) => Some(at),
            None => options.relay_path_observed_at_unix_ms,
        },
        media_object_clock_id: AV_CONTRIB_CLOCK_ID@,
        media_object_clock_confidence: "estimated"@,
        media_object_clock_estimated_error_ms: options.wall_clock_estimated_error_ms,
        media_object_source_epoch: source_epoch,
    }
}

impl MeshTargetStatus {
    fn from_options(options: &ServiceOptions, source_epoch: u64) -> (r: Self)
        ensures
            r@ == mesh_of(*options, source_epoch),
    {
        let primary = options.relay_primary_target.is_some();
        let secondary = options.relay_secondary_target.is_some();
        MeshTargetStatus {
            byte_fec_target: options.mesh_fec_target.clone(),
            media_fec_target: options.mesh_media_fec_target.clone(),
            relay_primary_configured: primary,
            relay_secondary_configured: secondary,
            relay_carrier: if primary {
                Some("private-udp")
            } else {
                None
            },
            relay_trust: if primary {
                Some("controlled-qualification")
            } else {
                None
            },
            relay_primary_id: if primary {
                Some(options.relay_primary_id.clone())
            } else {
                None
            },
            relay_primary_target: copy_text(&options.relay_primary_target),
            relay_primary_bind: copy_text(&options.relay_primary_bind),
            relay_secondary_id: if secondary {
                Some(options.relay_secondary_id.clone())
            } else {
                None
            },
            relay_secondary_target: copy_text(&options.relay_secondary_target),
            relay_secondary_bind: copy_text(&options.relay_secondary_bind),
            relay_secondary_source_seeded: options.relay_secondary_seed_source,
            relay_exclusive: options.relay_exclusive,
            relay_topology_generation: options.relay_topology_generation,
            relay_subscription_id: options.relay_subscription_id,
            relay_deadline_ms: options.relay_deadline_ms,
            relay_path_observation_source: if options.relay_path_observed {
                "controller-seeded"
            } else {
                "default-policy"
            },
            relay_path_observed_at_unix_ms: options.relay_path_observed_at_unix_ms,
            relay_secondary_path_observation_source: if options.relay_secondary_path_observed {
                "controller-seeded"
            } else {
                "primary-policy-fallback"
            },
            relay_secondary_path_observed_at_unix_ms: match options.relay_secondary_path_observed_at_unix_ms {
                Some(at) => Some(at),
                None => options.relay_path_observed_at_unix_ms,
            },
            media_object_clock_id: AV_CONTRIB_CLOCK_ID,
            media_object_clock_confidence: "estimated",
            media_object_clock_estimated_error_ms: options.wall_clock_estimated_error_ms,
            media_object_source_epoch: source_epoch,
        }
    }

    /// Copies the status.
    pub fn copy(&self) -> (r: Self)
        ensures
            r@ == self@,
    {
        MeshTargetStatus {
            byte_fec_target: self.byte_fec_target.clone(),
            media_fec_target: self.media_fec_target.clone(),
            relay_primary_configured: self.relay_primary_configured,
            relay_secondary_configured: self.relay_secondary_configured,
            relay_carrier: self.relay_carrier,
            relay_trust: self.relay_trust,
            relay_primary_id: copy_text(&self.relay_primary_id),
            relay_primary_target: copy_text(&self.relay_primary_target),
            relay_primary_bind: copy_text(&self.relay_primary_bind),
            relay_secondary_id: copy_text(&self.relay_secondary_id),
            relay_secondary_target: copy_text(&self.relay_secondary_target),
            relay_secondary_bind: copy_text(&self.relay_secondary_bind),
            relay_secondary_source_seeded: self.relay_secondary_source_seeded,
            relay_exclusive: self.relay_exclusive,
            relay_topology_generation: self.relay_topology_generation,
            relay_subscription_id: self.relay_subscription_id,
            relay_deadline_ms: self.relay_deadline_ms,
            relay_path_observation_source: self.relay_path_observation_source,
            relay_path_observed_at_unix_ms: self.relay_path_observed_at_unix_ms,
            relay_secondary_path_observation_source: self.relay_secondary_path_observation_source,
            relay_secondary_path_observed_at_unix_ms: self.relay_secondary_path_observed_at_unix_ms,
            media_object_clock_id: self.media_object_clock_id,
            media_object_clock_confidence: self.media_object_clock_confidence,
            media_object_clock_estimated_error_ms: self.media_object_clock_estimated_error_ms,
            media_object_source_epoch: self.media_object_source_epoch,
        }
    }
}

/// How objects are protected against loss.
#[derive(Debug, Clone, Copy, PartialEq, Eq, Structural)]
pub struct FecStatus {
    pub repair_symbols: u32,
    pub symbol_size: u16,
}

/// The part of the status that does not change while the service runs.
#[derive(Debug)]
pub struct ContribStatusConfig {
    pub default_stream_id: String,
    pub advertised_hls_stream_id: String,
    pub advertised_hls_path: String,
    pub mesh: MeshTargetStatus,
    pub hls: HlsStatus,
    pub fec: FecStatus,
    pub listeners: Vec<ListenerStatus>,
    pub alerts: Vec<ContribAlert>,
}

/// What a [`ContribStatusConfig`] holds.
pub struct StatusConfigView {
    pub default_stream_id: Seq<char>,
    pub advertised_hls_stream_id: Seq<char>,
    pub advertised_hls_path: Seq<char>,
    pub mesh: MeshTargetView,
    pub hls: HlsStatus,
    pub fec: FecStatus,
    pub listeners: Seq<ListenerView>,
    pub alerts: Seq<AlertView>,
}

/// What a list of listeners holds.
pub open spec fn listeners_view(list: Seq<ListenerStatus>) -> Seq<ListenerView> {
    list.map_values(|listener: ListenerStatus| listener@)
}

impl View for ContribStatusConfig {
    type V = StatusConfigView;

    open spec fn view(&self) -> StatusConfigView {
        StatusConfigView {
            default_stream_id: self.default_stream_id@,
            advertised_hls_stream_id: self.advertised_hls_stream_id@,
            advertised_hls_path: self.advertised_hls_path@,
            mesh: self.mesh@,
            hls: self.hls,
            fec: self.fec,
            listeners: listeners_view(self.listeners@),
            alerts: alerts_view(self.alerts@),
        }
    }
}

/// The alert of a service that takes nothing but raw bytes.
pub open spec fn raw_only_alert() -> AlertView {
    AlertView {
        level: "info"@,
        code: "raw_ingest_only"@,
        message:
            "No RIST, SRT, or RTMP listener is enabled; raw HTTP byte ingest remains available."@,
        count: 1,
        last_seen_unix_ms: None,
        stream_id_text: None,
        protocol: None,
    }
}

/// The unchanging part of the status.
pub open spec fn config_of(options: ServiceOptions, source_epoch: u64) -> StatusConfigView {
    StatusConfigView {
        default_stream_id: decimal(options.stream_id as nat),
        advertised_hls_stream_id: decimal(advertised_stream(options) as nat),
        advertised_hls_path: playlist_path(advertised_stream(options)),
        mesh: mesh_of(options, source_epoch),
        hls: HlsStatus {
            part_target_ms: options.fmp4_part_ms,
            segment_target_ms: options.fmp4_segment_ms,
            playlist_target_duration_ms: options.hls_target_duration_ms,
            playlist_count: options.playlist_count,
            playlist_buffer_kb: options.playlist_buffer_kb,
        },
        fec: FecStatus {
            repair_symbols: options.repair_symbols,
            symbol_size: options.symbol_size,
        },
        listeners: listeners_of(options),
        alerts: if options.rist_bind is None && options.srt_bind is None && options.rtmp_bind
            is None {
            seq![raw_only_alert()]
        } else {
            Seq::empty()
        },
    }
}

/// The status of the service at one moment.
#[derive(Debug)]
pub struct ContribStatusSnapshot {
    pub service: &'static str,
    pub status: &'static str,
    pub updated_unix_ms: u64,
    pub default_stream_id: String,
    pub advertised_hls_stream_id: String,
    pub advertised_hls_path: String,
    pub mesh: MeshTargetStatus,
    pub hls: HlsStatus,
    pub fec: FecStatus,
    pub listeners: Vec<ListenerStatus>,
    pub runtime: IngestRuntimeSnapshot,
    pub alerts: Vec<ContribAlert>,
    pub health: ContribHealthStatus,
    pub activity: Vec<ContribActivity>,
}

/// What a [`ContribStatusSnapshot`] holds.
pub struct StatusView {
    pub service: Seq<char>,
    pub status: Seq<char>,
    pub updated_unix_ms: u64,
    pub default_stream_id: Seq<char>,
    pub advertised_hls_stream_id: Seq<char>,
    pub advertised_hls_path: Seq<char>,
    pub mesh: MeshTargetView,
    pub hls: HlsStatus,
    pub fec: FecStatus,
    pub listeners: Seq<ListenerView>,
    pub runtime: RuntimeView,
    pub alerts: Seq<AlertView>,
    pub health: HealthView,
    pub activity: Seq<ActivityView>,
}

impl View for ContribStatusSnapshot {
    type V = StatusView;

    open spec fn view(&self) -> StatusView {
        StatusView {
            service: self.service@,
            status: self.status@,
            updated_unix_ms: self.updated_unix_ms,
            default_stream_id: self.default_stream_id@,
            advertised_hls_stream_id: self.advertised_hls_stream_id@,
            advertised_hls_path: self.advertised_hls_path@,
            mesh: self.mesh@,
            hls: self.hls,
            fec: self.fec,
            listeners: listeners_view(self.listeners@),
            runtime: self.runtime@,
            alerts: alerts_view(self.alerts@),
            health: self.health@,
            activity: activity_view(self.activity@),
        }
    }
}

/// The status that follows from the configuration and from what the service remembers.
pub open spec fn status_of(config: StatusConfigView, telemetry: TelemetryView, now_ms: u64) ->
    StatusView {
    let runtime = telemetry.report(now_ms);
    let health = health_of(runtime, config.hls);
    StatusView {
        service: "av-contrib"@,
        status: health.state,
        updated_unix_ms: now_ms,
        default_stream_id: config.default_stream_id,
        advertised_hls_stream_id: config.advertised_hls_stream_id,
        advertised_hls_path: config.advertised_hls_path,
        mesh: config.mesh,
        hls: config.hls,
        fec: config.fec,
        listeners: config.listeners,
        runtime,
        alerts: config.alerts + alerts_of(health, runtime, config.advertised_hls_stream_id, now_ms)
            + telemetry.alerts,
        health,
        activity: telemetry.activity,
    }
}

fn append_alerts(list: &mut Vec<ContribAlert>, more: Vec<ContribAlert>)
    ensures
        alerts_view(final(list)@) == alerts_view(old(list)@) + alerts_view(more@),
{
    let mut more = more;
    let ghost before = alerts_view(list@);
    let ghost added = alerts_view(more@);
    list.append(&mut more);
    assert(alerts_view(list@) =~= before + added);
}

impl ContribStatusConfig {
    /// The unchanging part of the status.
    pub fn from_args(options: &ServiceOptions, source_epoch: u64) -> (r: Self)
        ensures
            r@ == config_of(*options, source_epoch),
    {
        let advertised: u64 = advertised_hls_stream_id(options);
        let rist = ListenerStatus::rist(options);
        let srt = ListenerStatus::srt(options);
        let rtmp = ListenerStatus::rtmp(options);
        let any_enabled = rist.enabled || srt.enabled || rtmp.enabled;
        let mut listeners: Vec<ListenerStatus> = Vec::new();
        listeners.push(rist);
        listeners.push(srt);
        listeners.push(rtmp);
        assert(listeners_view(listeners@) =~= listeners_of(*options));
        let mut alerts: Vec<ContribAlert> = Vec::new();
        if !any_enabled {
            alerts.push(
                ContribAlert {
                    level: "info",
                    code: "raw_ingest_only",
                    message:
                        "No RIST, SRT, or RTMP listener is enabled; raw HTTP byte ingest remains available.".to_owned(),
                    count: 1,
                    last_seen_unix_ms: None,
                    stream_id_text: None,
                    protocol: None,
                },
            );
            assert(alerts_view(alerts@) =~= seq![raw_only_alert()]);
        } else {
            assert(alerts_view(alerts@) =~= Seq::empty());
        }
        ContribStatusConfig {
            default_stream_id: decimal_text(options.stream_id),
            advertised_hls_stream_id: decimal_text(advertised),
            advertised_hls_path: stream_playlist_path(advertised),
            mesh: MeshTargetStatus::from_options(options, source_epoch),
            hls: HlsStatus {
                part_target_ms: options.fmp4_part_ms,
                segment_target_ms: options.fmp4_segment_ms,
                playlist_target_duration_ms: options.hls_target_duration_ms,
                playlist_count: options.playlist_count,
                playlist_buffer_kb: options.playlist_buffer_kb,
            },
            fec: FecStatus {
                repair_symbols: options.repair_symbols,
                symbol_size: options.symbol_size,
            },
            listeners,
            alerts,
        }
    }

    /// The status at a moment.
    pub fn snapshot(&self, telemetry: &IngestTelemetry, now_ms: u64) -> (r: ContribStatusSnapshot)
        ensures
            r@ == status_of(self@, telemetry@, now_ms),
    {
        let runtime = telemetry.snapshot(now_ms);
        let health = derive_contrib_health(&runtime, &self.hls);
        let mut alerts: Vec<ContribAlert> = Vec::new();
        let mut i: usize = 0;
        while i < self.alerts.len()
            invariant
                i <= self.alerts@.len(),
                alerts_view(alerts@) == self@.alerts.take(i as int),
            decreases self.alerts@.len() - i,
        {
            let ghost older = alerts_view(alerts@);
            let entry = self.alerts[i].copy();
            alerts.push(entry);
            assert(alerts_view(alerts@) =~= older.push(entry@));
            assert(alerts_view(alerts@) =~= self@.alerts.take(i + 1));
            i = i + 1;
        }
        assert(self@.alerts.take(i as int) =~= self@.alerts);
        let derived = derive_contrib_alerts(
            &health,
            &runtime,
            self.advertised_hls_stream_id.as_str(),
            now_ms,
        );
        append_alerts(&mut alerts, derived);
        append_alerts(&mut alerts, telemetry.recent_alerts());
        let mut listeners: Vec<ListenerStatus> = Vec::new();
        let mut k: usize = 0;
        while k < self.listeners.len()
            invariant
                k <= self.listeners@.len(),
                listeners_view(listeners@) == self@.listeners.take(k as int),
            decreases self.listeners@.len() - k,
        {
            let ghost older = listeners_view(listeners@);
            let entry = self.listeners[k].copy();
            listeners.push(entry);
            assert(listeners_view(listeners@) =~= older.push(entry@));
            assert(listeners_view(listeners@) =~= self@.listeners.take(k + 1));
            k = k + 1;
        }
        assert(self@.listeners.take(k as int) =~= self@.listeners);
        ContribStatusSnapshot {
            service: "av-contrib",
            status: health.state,
            updated_unix_ms: now_ms,
            default_stream_id: self.default_stream_id.clone(),
            advertised_hls_stream_id: self.advertised_hls_stream_id.clone(),
            advertised_hls_path: self.advertised_hls_path.clone(),
            mesh: self.mesh.copy(),
            hls: self.hls,
            fec: self.fec,
            listeners,
            runtime,
            alerts,
            health,
            activity: telemetry.recent_activity(),
        }
    }
}

/// A status event with its data.
pub open spec fn event_of(json: Seq<u8>) -> Seq<u8> {
    "event: contrib\ndata: ".spec_bytes() + json + "\n\n".spec_bytes()
}

/// Frames a status as an event of a stream of events.
pub fn sse_event(json: &[u8]) -> (r: Vec<u8>)
    ensures
        r@ == event_of(json@),
{
    let mut event = copy_bytes("event: contrib\ndata: ".as_bytes());
    event.extend_from_slice(json);
    event.extend_from_slice("\n\n".as_bytes());
    assert(event@ =~= event_of(json@));
    event
}

/// The flow id that a status reports reads back as the flow id that was configured.
pub proof fn reported_flow_id_reads_back(flow_id: u32)
    ensures
        crate::text::read_digits(hex_digits(flow_id as nat, 8), 16, u32::MAX as nat) == Ok::<
            nat,
            crate::text::NumberError,
        >(flow_id as nat),
{
    reveal_with_fuel(crate::text::hex_range, 9);
    crate::text::hex_reads_back(flow_id as nat, 8, u32::MAX as nat);
}

/// A status says what the service does and what is configured, at the moment that it is asked for, and
/// raises every alert there is: of the configuration, of the moment, and those that were remembered.
pub proof fn statuses_say_everything(
    config: StatusConfigView,
    telemetry: TelemetryView,
    now_ms: u64,
    alert: AlertView,
)
    ensures
        ({
            let status = status_of(config, telemetry, now_ms);
            let derived = alerts_of(
                health_of(telemetry.report(now_ms), config.hls),
                telemetry.report(now_ms),
                config.advertised_hls_stream_id,
                now_ms,
            );
            &&& status.runtime == telemetry.report(now_ms)
            &&& status.health == health_of(status.runtime, config.hls)
            &&& status.status == status.health.state
            &&& status.updated_unix_ms == now_ms
            &&& status.activity == telemetry.activity
            &&& status.default_stream_id == config.default_stream_id
            &&& status.advertised_hls_stream_id == config.advertised_hls_stream_id
            &&& status.advertised_hls_path == config.advertised_hls_path
            &&& status.mesh == config.mesh && status.hls == config.hls && status.fec == config.fec
            &&& status.listeners == config.listeners
            &&& status.alerts.contains(alert) <==> config.alerts.contains(alert)
                || derived.contains(alert) || telemetry.alerts.contains(alert)
            &&& status.alerts.len() == config.alerts.len() + derived.len() + telemetry.alerts.len()
        }),
{
    let derived = alerts_of(
        health_of(telemetry.report(now_ms), config.hls),
        telemetry.report(now_ms),
        config.advertised_hls_stream_id,
        now_ms,
    );
    let all = config.alerts + derived + telemetry.alerts;
    let a = config.alerts.len() as int;
    let b = derived.len() as int;
    if config.alerts.contains(alert) {
        assert(all[config.alerts.index_of(alert)] == alert);
    }
    if derived.contains(alert) {
        assert(all[a + derived.index_of(alert)] == alert);
    }
    if telemetry.alerts.contains(alert) {
        assert(all[a + b + telemetry.alerts.index_of(alert)] == alert);
    }
    if all.contains(alert) {
        let i = all.index_of(alert);
        if i < a {
            assert(config.alerts[i] == alert);
        } else if i < a + b {
            assert(derived[i - a] == alert);
        } else {
            assert(telemetry.alerts[i - a - b] == alert);
        }
    }
}

/// The stream that is advertised is that of the first listener there is, and the default one where there
/// is none, which is then told.
pub proof fn the_first_listener_is_advertised(options: ServiceOptions, source_epoch: u64)
    ensures
        ({
            let config = config_of(options, source_epoch);
            let advertised = if options.rist_bind is Some {
                options.rist_stream_id
            } else if options.srt_bind is Some {
                options.srt_stream_id
            } else if options.rtmp_bind is Some {
                options.rtmp_stream_id
            } else {
                options.stream_id
            };
            let none = options.rist_bind is None && options.srt_bind is None && options.rtmp_bind
                is None;
            &&& config.advertised_hls_stream_id == decimal(advertised as nat)
            &&& config.default_stream_id == decimal(options.stream_id as nat)
            &&& config.alerts.len() == (if none {
                1int
            } else {
                0
            })
            &&& config.listeners.len() == 3
            &&& config.listeners[0].enabled <==> options.rist_bind is Some
            &&& config.listeners[1].enabled <==> options.srt_bind is Some
            &&& config.listeners[2].enabled <==> options.rtmp_bind is Some
            &&& config.listeners[0].output_stream_id == decimal(options.rist_stream_id as nat)
            &&& config.listeners[1].output_stream_id == decimal(options.srt_stream_id as nat)
            &&& config.listeners[2].output_stream_id == decimal(options.rtmp_stream_id as nat)
            &&& config.hls.part_target_ms == options.fmp4_part_ms
            &&& config.hls.segment_target_ms == options.fmp4_segment_ms
            &&& config.hls.playlist_target_duration_ms == options.hls_target_duration_ms
            &&& config.hls.playlist_count == options.playlist_count
            &&& config.hls.playlist_buffer_kb == options.playlist_buffer_kb
            &&& config.fec.repair_symbols == options.repair_symbols
            &&& config.fec.symbol_size == options.symbol_size
        }),
{
}

/// What is told of the relays is what is configured: nothing of a lane that has no target but its
/// source address, and the time of the secondary path's observation is the primary's where it has none.
pub proof fn the_mesh_is_told_as_configured(options: ServiceOptions, source_epoch: u64)
    ensures
        ({
            let mesh = config_of(options, source_epoch).mesh;
            &&& mesh.byte_fec_target == options.mesh_fec_target@
            &&& mesh.media_fec_target == options.mesh_media_fec_target@
            &&& mesh.relay_primary_configured <==> options.relay_primary_target is Some
            &&& mesh.relay_secondary_configured <==> options.relay_secondary_target is Some
            &&& mesh.relay_primary_target is Some <==> options.relay_primary_target is Some
            &&& mesh.relay_secondary_target is Some <==> options.relay_secondary_target is Some
            &&& mesh.relay_primary_id is Some <==> options.relay_primary_target is Some
            &&& mesh.relay_primary_id is Some ==> mesh.relay_primary_id->Some_0
                == options.relay_primary_id@
            &&& mesh.relay_secondary_id is Some <==> options.relay_secondary_target is Some
            &&& mesh.relay_secondary_id is Some ==> mesh.relay_secondary_id->Some_0
                == options.relay_secondary_id@
            &&& mesh.relay_carrier is Some <==> options.relay_primary_target is Some
            &&& mesh.relay_trust is Some <==> options.relay_primary_target is Some
            &&& mesh.relay_secondary_source_seeded == options.relay_secondary_seed_source
            &&& mesh.relay_exclusive == options.relay_exclusive
            &&& mesh.relay_topology_generation == options.relay_topology_generation
            &&& mesh.relay_subscription_id == options.relay_subscription_id
            &&& mesh.relay_deadline_ms == options.relay_deadline_ms
            &&& mesh.relay_path_observed_at_unix_ms == options.relay_path_observed_at_unix_ms
            &&& mesh.relay_secondary_path_observed_at_unix_ms == (if
            options.relay_secondary_path_observed_at_unix_ms is Some {
                options.relay_secondary_path_observed_at_unix_ms
            } else {
                options.relay_path_observed_at_unix_ms
            })
            &&& mesh.media_object_clock_estimated_error_ms == options.wall_clock_estimated_error_ms
            &&& mesh.media_object_source_epoch == source_epoch
            &&& mesh.relay_path_observation_source == "controller-seeded"@
                <==> options.relay_path_observed
            &&& mesh.relay_secondary_path_observation_source == "controller-seeded"@
                <==> options.relay_secondary_path_observed
        }),
{
    reveal_strlit("controller-seeded");
    reveal_strlit("default-policy");
    reveal_strlit("primary-policy-fallback");
    assert("controller-seeded"@.len() == 17 && "default-policy"@.len() == 14
        && "primary-policy-fallback"@.len() == 23);
}

} // verus!
