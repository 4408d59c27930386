//! The relay session: which symbols go out on which lane, and what an object comes to.
use crate::arith::{what_fits_is_kept, wrapped_u64, wrapping_add_u64};
use crate::service::accounts::went_up;
use crate::service::counters::{RelayCounters, RelayHistogramsView};
use crate::service::lanes::{
    relay_send_stage, resolve_relay_lane_results, send_stage, MediaDatagramRole, RelayCarrierPath,
    RelayLaneError,
};
use crate::service::media_objects::{
    relay_deadline_for_object, wire_deadline, CanonicalObject, ObjectError,
};
use crate::service::telemetry::{IngestTelemetry, TelemetryView};
use raptorq_datagram_fec::MediaDeadline;
use relay_session::{
    EncodedRaptorQObject, RaptorQObjectEncoder, RelayDatagram, SubscriptionId, TopologyGeneration,
};
use vstd::prelude::*;
use vstd::string::*;

verus! {

/// Why an object did not get through the relay session.
#[derive(Debug)]
pub enum RelayPublishError {
    /// The object has no time by which it has to arrive.
    Deadline(ObjectError),
    /// That time had passed before the object was coded.
    ExpiredBefore,
    /// The object could not be coded.
    Encode,
    /// The lanes failed.
    Lanes(RelayLaneError),
    /// The time passed while the symbols were sent.
    ExpiredAfter,
}

impl RelayPublishError {
    /// What the error says.
    pub open spec fn words(self) -> Seq<char> {
        match self {
            RelayPublishError::Deadline(error) => error.words(),
            RelayPublishError::ExpiredBefore =>
                "canonical media object expired before RelaySession encoding"@,
            RelayPublishError::Encode => "failed to RaptorQ-protect canonical media object"@,
            RelayPublishError::Lanes(error) => error.words(),
            RelayPublishError::ExpiredAfter =>
                "canonical media object expired while RelaySession symbols were emitted"@,
        }
    }

    /// What the error says.
    pub fn message(&self) -> (r: String)
        ensures
            r@ == self.words(),
    {
        match self {
            RelayPublishError::Deadline(error) => error.message(),
            RelayPublishError::ExpiredBefore =>
                "canonical media object expired before RelaySession encoding".to_owned(),
            RelayPublishError::Encode =>
                "failed to RaptorQ-protect canonical media object".to_owned(),
            RelayPublishError::Lanes(error) => error.message(),
            RelayPublishError::ExpiredAfter =>
                "canonical media object expired while RelaySession symbols were emitted".to_owned(),
        }
    }
}

/// Whether a deadline has passed.
pub open spec fn expired(deadline_us: u64, now_us: u64) -> bool {
    deadline_us <= now_us
}

/// Relay counters with one more object that came too late.
pub open spec fn missed(relay: RelayCounters) -> RelayCounters {
    RelayCounters {
        expired_objects: wrapped_u64(relay.expired_objects + 1),
        deadline_misses: wrapped_u64(relay.deadline_misses + 1),
        ..relay
    }
}

/// What is counted of an object before it is coded.
pub open spec fn relay_admitted(
    telemetry: TelemetryView,
    deadline: Result<u64, ObjectError>,
    now_us: u64,
) -> TelemetryView {
    match deadline {
        Ok(deadline_us) => if expired(deadline_us, now_us) {
            telemetry.with_relay(missed(telemetry.counters.relay))
        } else {
            telemetry
        },
        Err(_) => telemetry,
    }
}

impl IngestTelemetry {
    /// Counts an object that came too late.
    fn record_relay_miss(&mut self)
        ensures
            final(self)@ == old(self)@.with_relay(missed(old(self)@.counters.relay)),
            old(self).wf() ==> final(self).wf(),
    {
        self.counters.relay.expired_objects =
        wrapping_add_u64(self.counters.relay.expired_objects, 1);
        self.counters.relay.deadline_misses =
        wrapping_add_u64(self.counters.relay.deadline_misses, 1);
    }

    /// The microsecond by which an object has to arrive, unless it has passed already.
    pub fn begin_relay_object(&mut self, object: &CanonicalObject, now_us: u64) -> (r: Result<
        u64,
        RelayPublishError,
    >)
        ensures
            final(self)@ == relay_admitted(old(self)@, wire_deadline(object@), now_us),
            old(self).wf() ==> final(self).wf(),
            match wire_deadline(object@) {
                Err(error) => r matches Err(RelayPublishError::Deadline(e)) && e == error,
                Ok(deadline_us) => if expired(deadline_us, now_us) {
                    r matches Err(RelayPublishError::ExpiredBefore)
                } else {
                    r matches Ok(us) && us == deadline_us
                },
            },
    {
        let deadline_us: u64 = match relay_deadline_for_object(object) {
            Ok(deadline_us) => deadline_us,
            Err(error) => {
                return Err(RelayPublishError::Deadline(error));
            },
        };
        if deadline_us <= now_us {
            self.record_relay_miss();
            return Err(RelayPublishError::ExpiredBefore);
        }
        Ok(deadline_us)
    }
}

/// The coder of the relay session's objects.
#[verifier::external_type_specification]
#[verifier::external_body]
pub struct ExRaptorQObjectEncoder(RaptorQObjectEncoder);

/// An object that is coded for the relay session.
#[verifier::external_type_specification]
#[verifier::external_body]
pub struct ExEncodedRaptorQObject(EncodedRaptorQObject);

/// A symbol of the relay session.
#[verifier::external_type_specification]
#[verifier::external_body]
pub struct ExRelayDatagram(RelayDatagram);

/// An object that is coded, and how many symbols it takes.
#[derive(Debug)]
pub struct RelaySymbols {
    pub encoded: EncodedRaptorQObject,
    pub source_count: usize,
    pub repair_count: usize,
}

/// What coding an object's bytes leaves of a coder, and the symbols that it gives, or nothing where
/// the coder refuses.
pub uninterp spec fn relay_encoding(
    encoder: RaptorQObjectEncoder,
    envelope: Seq<u8>,
    generation: u64,
    subscription_id: u64,
    deadline_us: u64,
) -> (RaptorQObjectEncoder, Option<RelaySymbols>);

/// Calls `relay_session::RaptorQObjectEncoder::encode_object_with_inferred_priority` on the object
/// that bytes spell.
///
/// Claimed of it: what it gives, and what becomes of the coder, depends on the coder, the bytes and
/// the three numbers alone.
#[verifier::external_body]
fn encode_symbols(
    encoder: &mut RaptorQObjectEncoder,
    envelope: &[u8],
    generation: u64,
    subscription_id: u64,
    deadline_us: u64,
) -> (r: Option<RelaySymbols>)
    ensures
        relay_encoding(*old(encoder), envelope@, generation, subscription_id, deadline_us) == (
            *final(encoder),
            r,
        ),
{
    let object = media_object::decode(envelope).ok()?;
    let generation = TopologyGeneration::new(generation).ok()?;
    let subscription = SubscriptionId::new(subscription_id).ok()?;
    let deadline = MediaDeadline::from_micros(deadline_us);
    let encoded =
        encoder.encode_object_with_inferred_priority(&object, generation, subscription, deadline).ok()?;
    let (source_count, repair_count) = (encoded.source_symbols.len(), encoded.repair_symbols.len());
    Some(RelaySymbols { encoded, source_count, repair_count })
}

/// The lanes of a relay session and what they carry.
#[derive(Debug, Clone, Copy, PartialEq, Eq, Structural)]
pub struct RelayLanes {
    /// Whether there is a secondary lane.
    pub secondary: bool,
    /// Whether the secondary lane carries source symbols too.
    pub secondary_seed_source: bool,
    pub generation: u64,
    pub subscription_id: u64,
}

impl RelayLanes {
    /// Whether a lane carries the symbols of a role.
    pub open spec fn carries(self, path: RelayCarrierPath, role: MediaDatagramRole) -> bool {
        match (path, role) {
            (RelayCarrierPath::Primary, MediaDatagramRole::Source) => true,
            (RelayCarrierPath::Primary, MediaDatagramRole::Repair) => !self.secondary,
            (RelayCarrierPath::Secondary, MediaDatagramRole::Source) => self.secondary
                && self.secondary_seed_source,
            (RelayCarrierPath::Secondary, MediaDatagramRole::Repair) => self.secondary,
        }
    }

    /// The symbols that a lane carries, in order: source symbols first.
    pub open spec fn lane(self, path: RelayCarrierPath, source_count: nat, repair_count: nat) -> Seq<
        (MediaDatagramRole, nat),
    > {
        let sources = if self.carries(path, MediaDatagramRole::Source) {
            Seq::new(source_count, |i: int| (MediaDatagramRole::Source, i as nat))
        } else {
            Seq::empty()
        };
        let repairs = if self.carries(path, MediaDatagramRole::Repair) {
            Seq::new(repair_count, |i: int| (MediaDatagramRole::Repair, i as nat))
        } else {
            Seq::empty()
        };
        sources + repairs
    }

    /// The symbol that a lane carries behind those that it has sent, if it has any left.
    pub fn next_symbol(
        &self,
        path: RelayCarrierPath,
        source_count: usize,
        repair_count: usize,
        sent: usize,
    ) -> (r: Option<(MediaDatagramRole, usize)>)
        ensures
            ({
                let lane = self.lane(path, source_count as nat, repair_count as nat);
                if sent < lane.len() {
                    r matches Some((role, index)) && lane[sent as int] == (role, index as nat)
                } else {
                    r is None
                }
            }),
    {
        let (with_sources, with_repairs): (bool, bool) = match path {
            RelayCarrierPath::Primary => (true, !self.secondary),
            RelayCarrierPath::Secondary => (
                self.secondary && self.secondary_seed_source,
                self.secondary,
            ),
        };
        let sources: usize = if with_sources {
            source_count
        } else {
            0
        };
        if sent < sources {
            return Some((MediaDatagramRole::Source, sent));
        }
        if with_repairs && sent - sources < repair_count {
            return Some((MediaDatagramRole::Repair, sent - sources));
        }
        None
    }
}

/// Relay counters with one more object whose repair symbols take the primary lane.
pub open spec fn fallen_back(relay: RelayCounters) -> RelayCounters {
    RelayCounters {
        repair_primary_fallback_objects: wrapped_u64(relay.repair_primary_fallback_objects + 1),
        ..relay
    }
}

/// What is counted of an object that was to be coded.
pub open spec fn relay_coded(
    telemetry: TelemetryView,
    lanes: RelayLanes,
    symbols: Option<RelaySymbols>,
) -> TelemetryView {
    match symbols {
        None => telemetry.with_relay(
            RelayCounters {
                encode_errors: wrapped_u64(telemetry.counters.relay.encode_errors + 1),
                ..telemetry.counters.relay
            },
        ),
        Some(symbols) => if !lanes.secondary && symbols.repair_count > 0 {
            telemetry.with_relay(fallen_back(telemetry.counters.relay))
        } else {
            telemetry
        },
    }
}

impl IngestTelemetry {
    /// Counts an object that was coded, or could not be.
    pub fn record_relay_encoding(&mut self, lanes: RelayLanes, symbols: &Option<RelaySymbols>)
        ensures
            final(self)@ == relay_coded(old(self)@, lanes, *symbols),
            old(self).wf() ==> final(self).wf(),
    {
        match symbols {
            None => {
                self.record_relay_session_encode_error();
            },
            Some(symbols) => {
                if !lanes.secondary && symbols.repair_count > 0 {
                    self.counters.relay.repair_primary_fallback_objects =
                    wrapping_add_u64(self.counters.relay.repair_primary_fallback_objects, 1);
                }
            },
        }
    }

    /// Codes an object for the relay session.
    pub fn encode_relay_object(
        &mut self,
        encoder: &mut RaptorQObjectEncoder,
        envelope: &[u8],
        lanes: RelayLanes,
        deadline_us: u64,
    ) -> (r: Result<RelaySymbols, RelayPublishError>)
        ensures
            ({
                let (coder, symbols) = relay_encoding(
                    *old(encoder),
                    envelope@,
                    lanes.generation,
                    lanes.subscription_id,
                    deadline_us,
                );
                &&& *final(encoder) == coder
                &&& final(self)@ == relay_coded(old(self)@, lanes, symbols)
                &&& match symbols {
                    Some(symbols) => r matches Ok(given) && given == symbols,
                    None => r matches Err(RelayPublishError::Encode),
                }
            }),
            old(self).wf() ==> final(self).wf(),
    {
        let symbols = encode_symbols(
            encoder,
            envelope,
            lanes.generation,
            lanes.subscription_id,
            deadline_us,
        );
        self.record_relay_encoding(lanes, &symbols);
        match symbols {
            Some(symbols) => Ok(symbols),
            None => Err(RelayPublishError::Encode),
        }
    }
}

/// The bytes that a symbol takes on the wire, or nothing where it cannot be sent.
pub uninterp spec fn relay_wire_bytes(symbol: RelayDatagram) -> Option<usize>;

/// Calls `relay_session::encoded_datagram_len`.
///
/// Claimed of it: the length depends on the symbol alone.
#[verifier::external_body]
fn measure_symbol(symbol: &RelayDatagram) -> (r: Option<usize>)
    ensures
        r == relay_wire_bytes(*symbol),
{
    relay_session::encoded_datagram_len(symbol).ok()
}

/// Why a symbol is not sent.
#[derive(Debug, Clone, Copy, PartialEq, Eq, Structural)]
pub enum SymbolError {
    /// Its time had passed.
    Expired,
    /// Its length could not be measured.
    Unmeasured,
}

impl SymbolError {
    /// What the error says.
    pub open spec fn words(self) -> Seq<char> {
        match self {
            SymbolError::Expired => "RelaySession symbol expired before carrier send"@,
            SymbolError::Unmeasured => "failed to measure RelaySession datagram"@,
        }
    }

    /// What the error says.
    pub fn message(self) -> (r: &'static str)
        ensures
            r@ == self.words(),
    {
        match self {
            SymbolError::Expired => "RelaySession symbol expired before carrier send",
            SymbolError::Unmeasured => "failed to measure RelaySession datagram",
        }
    }
}

/// The bytes that a symbol takes, or why it is not sent.
pub open spec fn symbol_admission(deadline_us: u64, now_us: u64, wire_bytes: Option<usize>) -> Result<
    u64,
    SymbolError,
> {
    if expired(deadline_us, now_us) {
        Err(SymbolError::Expired)
    } else {
        match wire_bytes {
            Some(bytes) => Ok(bytes as u64),
            None => Err(SymbolError::Unmeasured),
        }
    }
}

/// What is counted of a symbol, given the time that its stage took, and whether it went out.
pub open spec fn symbol_counted(
    telemetry: TelemetryView,
    path: RelayCarrierPath,
    role: MediaDatagramRole,
    admission: Result<u64, SymbolError>,
    went_out: bool,
    duration_us: u64,
) -> TelemetryView {
    let counted = match admission {
        Err(SymbolError::Expired) => {
            let failed = telemetry.relay_send_failed(role);
            failed.with_relay(
                RelayCounters {
                    expired_symbols: wrapped_u64(failed.counters.relay.expired_symbols + 1),
                    ..failed.counters.relay
                },
            )
        },
        Err(SymbolError::Unmeasured) => telemetry.relay_send_failed(role),
        Ok(bytes) => if went_out {
            telemetry.relay_sent(role, bytes)
        } else {
            telemetry.relay_send_failed(role)
        },
    };
    TelemetryView {
        relay_histograms: counted.relay_histograms.staged(send_stage(path, role), duration_us),
        ..counted
    }
}

/// The bytes that a symbol takes, or why it is not sent.
pub fn admit_symbol(symbol: &RelayDatagram, deadline_us: u64, now_us: u64) -> (r: Result<
    u64,
    SymbolError,
>)
    ensures
        r == symbol_admission(deadline_us, now_us, relay_wire_bytes(*symbol)),
{
    if deadline_us <= now_us {
        return Err(SymbolError::Expired);
    }
    match measure_symbol(symbol) {
        Some(bytes) => Ok(bytes as u64),
        None => Err(SymbolError::Unmeasured),
    }
}

impl IngestTelemetry {
    /// Counts a symbol that was sent or could not be.
    pub fn record_relay_symbol(
        &mut self,
        path: RelayCarrierPath,
        role: MediaDatagramRole,
        admission: Result<u64, SymbolError>,
        went_out: bool,
        duration_us: u64,
    )
        ensures
            final(self)@ == symbol_counted(
                old(self)@,
                path,
                role,
                admission,
                went_out,
                duration_us,
            ),
            old(self).wf() ==> final(self).wf(),
    {
        match admission {
            Err(SymbolError::Expired) => {
                self.record_relay_session_send_error(role);
                self.counters.relay.expired_symbols =
                wrapping_add_u64(self.counters.relay.expired_symbols, 1);
            },
            Err(SymbolError::Unmeasured) => {
                self.record_relay_session_send_error(role);
            },
            Ok(bytes) => {
                if went_out {
                    self.record_relay_session_send_success(role, bytes);
                } else {
                    self.record_relay_session_send_error(role);
                }
            },
        }
        self.record_relay_session_stage_duration(relay_send_stage(path, role), duration_us);
    }
}

/// Whether an object got through on its lanes.
pub open spec fn got_through(
    primary_ok: bool,
    secondary_ok: Option<bool>,
    secondary_carries_source: bool,
) -> bool {
    primary_ok || (secondary_ok == Some(true) && secondary_carries_source)
}

/// Relay counters once an object's lanes are done.
pub open spec fn relay_settled(
    relay: RelayCounters,
    primary_ok: bool,
    secondary_ok: Option<bool>,
    secondary_carries_source: bool,
    deadline_us: u64,
    now_us: u64,
) -> RelayCounters {
    if !got_through(primary_ok, secondary_ok, secondary_carries_source) {
        let lost = RelayCounters {
            all_lanes_failed_objects: wrapped_u64(relay.all_lanes_failed_objects + 1),
            ..relay
        };
        if expired(deadline_us, now_us) {
            missed(lost)
        } else {
            lost
        }
    } else {
        let survived = if !primary_ok || secondary_ok == Some(false) {
            RelayCounters {
                surviving_lane_objects: wrapped_u64(relay.surviving_lane_objects + 1),
                ..relay
            }
        } else {
            relay
        };
        if expired(deadline_us, now_us) {
            missed(survived)
        } else {
            RelayCounters {
                objects_sent: wrapped_u64(survived.objects_sent + 1),
                deadline_hits: wrapped_u64(survived.deadline_hits + 1),
                last_deadline_unix_us: deadline_us,
                ..survived
            }
        }
    }
}

/// What is counted of an object once its lanes are done.
pub open spec fn lanes_counted(
    telemetry: TelemetryView,
    primary_ok: bool,
    secondary_ok: Option<bool>,
    secondary_carries_source: bool,
    deadline_us: u64,
    now_us: u64,
    now_ms: u64,
) -> TelemetryView {
    let primary = telemetry.lane_settled(RelayCarrierPath::Primary, primary_ok, now_ms);
    let both = match secondary_ok {
        Some(ok) => primary.lane_settled(RelayCarrierPath::Secondary, ok, now_ms),
        None => primary,
    };
    both.with_relay(
        relay_settled(
            both.counters.relay,
            primary_ok,
            secondary_ok,
            secondary_carries_source,
            deadline_us,
            now_us,
        ),
    )
}

/// Whether a lane's result is a success.
pub open spec fn lane_ok(result: Option<Result<(), String>>) -> Option<bool> {
    match result {
        Some(result) => Some(result is Ok),
        None => None,
    }
}

impl IngestTelemetry {
    /// Decides whether an object got through once its lanes are done, and counts it.
    pub fn end_relay_object(
        &mut self,
        primary: Result<(), String>,
        secondary: Option<Result<(), String>>,
        secondary_carries_source: bool,
        deadline_us: u64,
        now_us: u64,
        now_ms: u64,
    ) -> (r: Result<(), RelayPublishError>)
        ensures
            final(self)@ == lanes_counted(
                old(self)@,
                primary is Ok,
                lane_ok(secondary),
                secondary_carries_source,
                deadline_us,
                now_us,
                now_ms,
            ),
            old(self).wf() ==> final(self).wf(),
            if !got_through(primary is Ok, lane_ok(secondary), secondary_carries_source) {
                match secondary {
                    None => r matches Err(
                        RelayPublishError::Lanes(RelayLaneError::OnlyLaneFailed(reason)),
                    ) && primary == Err::<(), String>(reason),
                    Some(Ok(_)) => r matches Err(
                        RelayPublishError::Lanes(RelayLaneError::SecondaryIsRepairOnly(reason)),
                    ) && primary == Err::<(), String>(reason),
                    Some(Err(second)) => r matches Err(
                        RelayPublishError::Lanes(RelayLaneError::AllLanesFailed(first, other)),
                    ) && primary == Err::<(), String>(first) && other == second,
                }
            } else if expired(deadline_us, now_us) {
                r matches Err(RelayPublishError::ExpiredAfter)
            } else {
                r is Ok
            },
    {
        self.record_relay_session_lane_object(RelayCarrierPath::Primary, primary.is_ok(), now_ms);
        if let Some(result) = &secondary {
            self.record_relay_session_lane_object(
                RelayCarrierPath::Secondary,
                result.is_ok(),
                now_ms,
            );
        }
        match resolve_relay_lane_results(primary, secondary, secondary_carries_source) {
            Err(error) => {
                self.counters.relay.all_lanes_failed_objects =
                wrapping_add_u64(self.counters.relay.all_lanes_failed_objects, 1);
                if deadline_us <= now_us {
                    self.record_relay_miss();
                }
                Err(RelayPublishError::Lanes(error))
            },
            Ok(survived_lane_failure) => {
                if survived_lane_failure {
                    self.counters.relay.surviving_lane_objects =
                    wrapping_add_u64(self.counters.relay.surviving_lane_objects, 1);
                }
                if deadline_us <= now_us {
                    self.record_relay_miss();
                    return Err(RelayPublishError::ExpiredAfter);
                }
                self.counters.relay.objects_sent =
                wrapping_add_u64(self.counters.relay.objects_sent, 1);
                self.counters.relay.deadline_hits =
                wrapping_add_u64(self.counters.relay.deadline_hits, 1);
                self.counters.relay.last_deadline_unix_us = deadline_us;
                Ok(())
            },
        }
    }
}

/// Every symbol of an object goes out on a lane, no symbol twice on one, and source symbols always
/// on the primary.
pub proof fn lanes_cover_the_object(
    lanes: RelayLanes,
    source_count: nat,
    repair_count: nat,
    role: MediaDatagramRole,
    index: nat,
)
    requires
        index < (match role {
            MediaDatagramRole::Source => source_count,
            MediaDatagramRole::Repair => repair_count,
        }),
    ensures
        lanes.lane(RelayCarrierPath::Primary, source_count, repair_count).contains((role, index))
            || lanes.lane(RelayCarrierPath::Secondary, source_count, repair_count).contains(
            (role, index),
        ),
        role == MediaDatagramRole::Source ==> lanes.lane(
            RelayCarrierPath::Primary,
            source_count,
            repair_count,
        ).contains((role, index)),
        lanes.lane(RelayCarrierPath::Primary, source_count, repair_count).no_duplicates(),
        lanes.lane(RelayCarrierPath::Secondary, source_count, repair_count).no_duplicates(),
{
    let primary = lanes.lane(RelayCarrierPath::Primary, source_count, repair_count);
    let secondary = lanes.lane(RelayCarrierPath::Secondary, source_count, repair_count);
    match role {
        MediaDatagramRole::Source => {
            assert(primary[index as int] == (role, index));
        },
        MediaDatagramRole::Repair => {
            if lanes.secondary {
                let first: int = if lanes.secondary_seed_source {
                    source_count as int
                } else {
                    0
                };
                assert(secondary[first + index] == (role, index));
            } else {
                assert(primary[(source_count + index) as int] == (role, index));
            }
        },
    }
}

/// An object that gets through in time is a hit, one whose time has passed a miss, and one that is
/// lost in time neither; never both.
pub proof fn hits_and_misses_tell_objects_apart(
    relay: RelayCounters,
    primary_ok: bool,
    secondary_ok: Option<bool>,
    secondary_carries_source: bool,
    deadline_us: u64,
    now_us: u64,
)
    ensures
        ({
            let after = relay_settled(
                relay,
                primary_ok,
                secondary_ok,
                secondary_carries_source,
                deadline_us,
                now_us,
            );
            let through = got_through(primary_ok, secondary_ok, secondary_carries_source);
            let late = expired(deadline_us, now_us);
            &&& after.deadline_hits == (if through && !late {
                wrapped_u64(relay.deadline_hits + 1)
            } else {
                relay.deadline_hits
            })
            &&& after.deadline_misses == (if late {
                wrapped_u64(relay.deadline_misses + 1)
            } else {
                relay.deadline_misses
            })
            &&& after.objects_sent == (if through && !late {
                wrapped_u64(relay.objects_sent + 1)
            } else {
                relay.objects_sent
            })
        }),
{
}

/// An object counts as sent exactly where a lane that carries its source symbols got through before the
/// deadline, as lost where none did, as survived where it got through although a lane failed, and as
/// expired where its deadline had passed; each lane counts its own fate.
pub proof fn objects_are_settled_by_their_lanes(
    view: TelemetryView,
    primary_ok: bool,
    secondary_ok: Option<bool>,
    secondary_carries_source: bool,
    deadline_us: u64,
    now_us: u64,
    at_ms: u64,
)
    ensures
        ({
            let before = view.counters.relay;
            let after_view = lanes_counted(
                view,
                primary_ok,
                secondary_ok,
                secondary_carries_source,
                deadline_us,
                now_us,
                at_ms,
            );
            let after = after_view.counters.relay;
            let through = primary_ok || (secondary_ok == Some(true) && secondary_carries_source);
            let hurt = !primary_ok || secondary_ok == Some(false);
            let late = now_us >= deadline_us;
            let one = |holds: bool| if holds {
                1int
            } else {
                0
            };
            &&& went_up(before.objects_sent, after.objects_sent, one(through && !late))
            &&& went_up(before.deadline_hits, after.deadline_hits, one(through && !late))
            &&& went_up(before.deadline_misses, after.deadline_misses, one(late))
            &&& went_up(before.expired_objects, after.expired_objects, one(late))
            &&& went_up(
                before.all_lanes_failed_objects,
                after.all_lanes_failed_objects,
                one(!through),
            )
            &&& went_up(
                before.surviving_lane_objects,
                after.surviving_lane_objects,
                one(through && hurt),
            )
            &&& after.last_deadline_unix_us == (if through && !late {
                deadline_us
            } else {
                before.last_deadline_unix_us
            })
            &&& went_up(
                before.primary.objects_succeeded,
                after.primary.objects_succeeded,
                one(primary_ok),
            )
            &&& went_up(
                before.primary.objects_failed,
                after.primary.objects_failed,
                one(!primary_ok),
            )
            &&& went_up(
                before.secondary.objects_succeeded,
                after.secondary.objects_succeeded,
                one(secondary_ok == Some(true)),
            )
            &&& went_up(
                before.secondary.objects_failed,
                after.secondary.objects_failed,
                one(secondary_ok == Some(false)),
            )
            &&& secondary_ok is None ==> after.secondary == before.secondary
            &&& primary_ok ==> after.primary.last_success_unix_ms == at_ms
            &&& !primary_ok ==> after.primary.last_failure_unix_ms == at_ms
            &&& secondary_ok == Some(true) ==> after.secondary.last_success_unix_ms == at_ms
            &&& secondary_ok == Some(false) ==> after.secondary.last_failure_unix_ms == at_ms
            &&& after.encode_errors == before.encode_errors
            &&& after.source == before.source
            &&& after.repair == before.repair
            &&& after.expired_symbols == before.expired_symbols
            &&& after_view == TelemetryView { counters: after_view.counters, ..view }
        }),
{
    what_fits_is_kept();
}

/// A symbol that went out is counted with its bytes; one that did not, whether its deadline had passed,
/// it could not be measured or its lane failed, as an error; how long it took is measured for its lane
/// and role.
pub proof fn symbols_are_counted(
    view: TelemetryView,
    path: RelayCarrierPath,
    role: MediaDatagramRole,
    deadline_us: u64,
    now_us: u64,
    wire_bytes: Option<usize>,
    went_out: bool,
    duration_us: u64,
)
    ensures
        ({
            let admission = symbol_admission(deadline_us, now_us, wire_bytes);
            let before = view.counters.relay;
            let after_view = symbol_counted(view, path, role, admission, went_out, duration_us);
            let after = after_view.counters.relay;
            let late = now_us >= deadline_us;
            let is_out = !late && wire_bytes is Some && went_out;
            let one = |holds: bool| if holds {
                1int
            } else {
                0
            };
            &&& admission is Ok <==> !late && wire_bytes is Some
            &&& admission is Ok ==> admission->Ok_0 == wire_bytes->Some_0
            &&& went_up(
                before.source.datagrams,
                after.source.datagrams,
                one(is_out && role is Source),
            )
            &&& went_up(
                before.repair.datagrams,
                after.repair.datagrams,
                one(is_out && role is Repair),
            )
            &&& is_out && role is Source ==> went_up(
                before.source.datagram_bytes,
                after.source.datagram_bytes,
                wire_bytes->Some_0 as int,
            )
            &&& is_out && role is Repair ==> went_up(
                before.repair.datagram_bytes,
                after.repair.datagram_bytes,
                wire_bytes->Some_0 as int,
            )
            &&& !is_out ==> after.source.datagram_bytes == before.source.datagram_bytes
                && after.repair.datagram_bytes == before.repair.datagram_bytes
            &&& went_up(before.source.errors, after.source.errors, one(!is_out && role is Source))
            &&& went_up(before.repair.errors, after.repair.errors, one(!is_out && role is Repair))
            &&& went_up(before.expired_symbols, after.expired_symbols, one(late))
            &&& path is Primary && role is Source ==> after_view.relay_histograms
                == (RelayHistogramsView {
                primary_source_send: view.relay_histograms.primary_source_send.recorded(
                    duration_us,
                ),
                ..view.relay_histograms
            })
            &&& path is Secondary && role is Source ==> after_view.relay_histograms
                == (RelayHistogramsView {
                secondary_source_send: view.relay_histograms.secondary_source_send.recorded(
                    duration_us,
                ),
                ..view.relay_histograms
            })
            &&& path is Primary && role is Repair ==> after_view.relay_histograms
                == (RelayHistogramsView {
                primary_repair_send: view.relay_histograms.primary_repair_send.recorded(
                    duration_us,
                ),
                ..view.relay_histograms
            })
            &&& path is Secondary && role is Repair ==> after_view.relay_histograms
                == (RelayHistogramsView {
                secondary_repair_send: view.relay_histograms.secondary_repair_send.recorded(
                    duration_us,
                ),
                ..view.relay_histograms
            })
        }),
{
    what_fits_is_kept();
}

/// An object whose deadline has passed is not coded and counts as expired; any other goes on uncounted.
/// One that cannot be coded counts as an error, and one whose repair symbols have no lane of their own
/// as fallen back.
pub proof fn objects_are_counted_before_they_are_sent(
    view: TelemetryView,
    deadline_us: u64,
    now_us: u64,
    lanes: RelayLanes,
    symbols: Option<RelaySymbols>,
)
    ensures
        ({
            let before = view.counters.relay;
            let admitted_view = relay_admitted(view, Ok(deadline_us), now_us);
            let admitted = admitted_view.counters.relay;
            let coded_view = relay_coded(view, lanes, symbols);
            let coded = coded_view.counters.relay;
            let one = |holds: bool| if holds {
                1int
            } else {
                0
            };
            &&& now_us < deadline_us ==> admitted_view == view
            &&& went_up(before.expired_objects, admitted.expired_objects, one(now_us >= deadline_us))
            &&& went_up(before.deadline_misses, admitted.deadline_misses, one(now_us >= deadline_us))
            &&& went_up(before.encode_errors, coded.encode_errors, one(symbols is None))
            &&& went_up(
                before.repair_primary_fallback_objects,
                coded.repair_primary_fallback_objects,
                one(symbols is Some && symbols->Some_0.repair_count > 0 && !lanes.secondary),
            )
            &&& symbols is Some && lanes.secondary ==> coded_view == view
        }),
{
    what_fits_is_kept();
}

/// Repair symbols go out on the secondary lane where there is one and on the primary otherwise, source
/// symbols on the secondary only where it is seeded with them, and in front of repair symbols.
pub proof fn symbols_take_their_lanes(lanes: RelayLanes, source_count: nat, repair_count: nat)
    ensures
        ({
            let primary = lanes.lane(RelayCarrierPath::Primary, source_count, repair_count);
            let secondary = lanes.lane(RelayCarrierPath::Secondary, source_count, repair_count);
            let seeded = lanes.secondary && lanes.secondary_seed_source;
            &&& primary.len() == source_count + (if lanes.secondary {
                0
            } else {
                repair_count
            })
            &&& secondary.len() == (if seeded {
                source_count
            } else {
                0
            }) + (if lanes.secondary {
                repair_count
            } else {
                0
            })
            &&& forall|i: int|
                0 <= i < primary.len() ==> (#[trigger] primary[i]).0 == (if i < source_count {
                    MediaDatagramRole::Source
                } else {
                    MediaDatagramRole::Repair
                }) && primary[i].1 == (if i < source_count {
                    i
                } else {
                    i - source_count
                })
            &&& forall|i: int|
                0 <= i < secondary.len() ==> (#[trigger] secondary[i]).0 == (if seeded && i
                    < source_count {
                    MediaDatagramRole::Source
                } else {
                    MediaDatagramRole::Repair
                })
        }),
{
}

} // verus!
