//! Relay lanes: their health, and what an object's fate on each of them amounts to.
use crate::arith::minus_floor;
use vstd::prelude::*;
use vstd::string::*;

verus! {

/// Milliseconds for which a failure keeps a lane impaired.
pub const RELAY_LANE_IMPAIRED_HOLD_MS: u64 = 3_000;

/// The two carriers of a relay session.
#[derive(Debug, Clone, Copy, PartialEq, Eq, Structural)]
pub enum RelayCarrierPath {
    Primary,
    Secondary,
}

/// What a relay datagram contributes to an object.
#[derive(Debug, Clone, Copy, PartialEq, Eq, Structural)]
pub enum MediaDatagramRole {
    Source,
    Repair,
}

/// The stages whose duration is measured while an object is relayed.
#[derive(Debug, Clone, Copy, PartialEq, Eq, Structural)]
pub enum RelayPipelineStage {
    Total,
    EncodeWait,
    Encode,
    Schedule,
    PrimarySourceSend,
    SecondarySourceSend,
    PrimaryRepairSend,
    SecondaryRepairSend,
}

/// The health of a lane.
#[derive(Debug, Clone, Copy, PartialEq, Eq, Structural)]
pub enum RelayLaneState {
    Unknown,
    Healthy,
    Impaired,
}

impl RelayLaneState {
    /// The state's name.
    pub open spec fn name(self) -> Seq<char> {
        match self {
            RelayLaneState::Unknown => "unknown"@,
            RelayLaneState::Healthy => "healthy"@,
            RelayLaneState::Impaired => "impaired"@,
        }
    }

    /// The state's name.
    pub fn as_str(self) -> (r: &'static str)
        ensures
            r@ == self.name(),
    {
        match self {
            RelayLaneState::Unknown => "unknown",
            RelayLaneState::Healthy => "healthy",
            RelayLaneState::Impaired => "impaired",
        }
    }
}

/// Names of different states differ.
pub proof fn lane_state_names_differ(a: RelayLaneState, b: RelayLaneState)
    ensures
        a.name() == b.name() <==> a == b,
{
    reveal_strlit("unknown");
    reveal_strlit("healthy");
    reveal_strlit("impaired");
    assert("unknown"@.len() == 7 && "healthy"@.len() == 7 && "impaired"@.len() == 8);
    assert("unknown"@[0] == 'u' && "healthy"@[0] == 'h');
}

/// A lane's health, given when an object last succeeded and last failed on it, zero for never.
pub open spec fn lane_state(now_ms: u64, last_success_ms: u64, last_failure_ms: u64) -> RelayLaneState {
    if last_success_ms == 0 && last_failure_ms == 0 {
        RelayLaneState::Unknown
    } else if last_failure_ms > 0 && (last_success_ms <= last_failure_ms || minus_floor(
        now_ms as int,
        last_failure_ms as int,
    ) < RELAY_LANE_IMPAIRED_HOLD_MS) {
        RelayLaneState::Impaired
    } else {
        RelayLaneState::Healthy
    }
}

/// Decides a lane's health.
pub fn relay_lane_state(now_ms: u64, last_success_unix_ms: u64, last_failure_unix_ms: u64) -> (r:
    RelayLaneState)
    ensures
        r == lane_state(now_ms, last_success_unix_ms, last_failure_unix_ms),
{
    if last_success_unix_ms == 0 && last_failure_unix_ms == 0 {
        RelayLaneState::Unknown
    } else if last_failure_unix_ms > 0 && (last_success_unix_ms <= last_failure_unix_ms
        || now_ms.saturating_sub(last_failure_unix_ms) < RELAY_LANE_IMPAIRED_HOLD_MS) {
        RelayLaneState::Impaired
    } else {
        RelayLaneState::Healthy
    }
}

/// A lane that fails stays impaired for the whole hold, however soon it succeeds again, and is
/// healthy once it has succeeded after the failure and the hold is over.
pub proof fn an_impaired_lane_is_held(now_ms: u64, last_success_ms: u64, last_failure_ms: u64)
    requires
        0 < last_failure_ms < last_success_ms <= now_ms,
    ensures
        now_ms - last_failure_ms < RELAY_LANE_IMPAIRED_HOLD_MS <==> lane_state(
            now_ms,
            last_success_ms,
            last_failure_ms,
        ) == RelayLaneState::Impaired,
        now_ms - last_failure_ms >= RELAY_LANE_IMPAIRED_HOLD_MS <==> lane_state(
            now_ms,
            last_success_ms,
            last_failure_ms,
        ) == RelayLaneState::Healthy,
{
}

/// The stage in which a datagram is sent.
pub open spec fn send_stage(path: RelayCarrierPath, role: MediaDatagramRole) -> RelayPipelineStage {
    match (path, role) {
        (RelayCarrierPath::Primary, MediaDatagramRole::Source) =>
        RelayPipelineStage::PrimarySourceSend,
        (RelayCarrierPath::Secondary, MediaDatagramRole::Source) =>
        RelayPipelineStage::SecondarySourceSend,
        (RelayCarrierPath::Primary, MediaDatagramRole::Repair) =>
        RelayPipelineStage::PrimaryRepairSend,
        (RelayCarrierPath::Secondary, MediaDatagramRole::Repair) =>
        RelayPipelineStage::SecondaryRepairSend,
    }
}

/// The stage in which a datagram is sent.
pub fn relay_send_stage(path: RelayCarrierPath, role: MediaDatagramRole) -> (r: RelayPipelineStage)
    ensures
        r == send_stage(path, role),
{
    match (path, role) {
        (RelayCarrierPath::Primary, MediaDatagramRole::Source) =>
        RelayPipelineStage::PrimarySourceSend,
        (RelayCarrierPath::Secondary, MediaDatagramRole::Source) =>
        RelayPipelineStage::SecondarySourceSend,
        (RelayCarrierPath::Primary, MediaDatagramRole::Repair) =>
        RelayPipelineStage::PrimaryRepairSend,
        (RelayCarrierPath::Secondary, MediaDatagramRole::Repair) =>
        RelayPipelineStage::SecondaryRepairSend,
    }
}

/// What the lanes of one object came to, where it did not get through.
#[derive(Debug)]
pub enum RelayLaneError {
    /// The primary lane failed, and the secondary carries only repair symbols.
    SecondaryIsRepairOnly(String),
    /// Both lanes failed.
    AllLanesFailed(String, String),
    /// The only lane failed.
    OnlyLaneFailed(String),
}

impl RelayLaneError {
    /// The error in words.
    pub open spec fn words(self) -> Seq<char> {
        match self {
            RelayLaneError::SecondaryIsRepairOnly(_) =>
            "primary RelaySession lane failed and the secondary lane is repair-only"@,
            RelayLaneError::AllLanesFailed(primary, secondary) =>
            "all configured RelaySession lanes failed; primary: "@ + primary@ + "; secondary: "@
                + secondary@,
            RelayLaneError::OnlyLaneFailed(_) => "the only configured RelaySession lane failed"@,
        }
    }

    /// The error in words.
    pub fn message(&self) -> (r: String)
        ensures
            r@ == self.words(),
    {
        match self {
            RelayLaneError::SecondaryIsRepairOnly(_) =>
            "primary RelaySession lane failed and the secondary lane is repair-only".to_owned(),
            RelayLaneError::AllLanesFailed(primary, secondary) => {
                let mut r = "all configured RelaySession lanes failed; primary: ".to_owned();
                r.append(primary.as_str());
                r.append("; secondary: ");
                r.append(secondary.as_str());
                r
            },
            RelayLaneError::OnlyLaneFailed(_) =>
            "the only configured RelaySession lane failed".to_owned(),
        }
    }
}

/// Whether an object got through, and if so whether a lane failed on the way.
///
/// A lane's failure is given by its reason. An object gets through on a lane that carries its
/// source symbols, which the secondary does only where it is seeded with them.
pub fn resolve_relay_lane_results(
    primary: Result<(), String>,
    secondary: Option<Result<(), String>>,
    secondary_carries_source: bool,
) -> (r: Result<bool, RelayLaneError>)
    ensures
        r is Ok <==> primary is Ok || ((secondary matches Some(Ok(_))) && secondary_carries_source),
        r matches Ok(survived) ==> survived == (primary is Err || (secondary matches Some(Err(_)))),
        r matches Err(RelayLaneError::SecondaryIsRepairOnly(reason)) ==> primary == Err::<
            (),
            String,
        >(reason) && (secondary matches Some(Ok(_))) && !secondary_carries_source,
        r matches Err(RelayLaneError::AllLanesFailed(first, second)) ==> primary == Err::<
            (),
            String,
        >(first) && secondary == Some(Err::<(), String>(second)),
        r matches Err(RelayLaneError::OnlyLaneFailed(reason)) ==> primary == Err::<(), String>(
            reason,
        ) && secondary is None,
{
    match (primary, secondary) {
        (Ok(_), None) => Ok(false),
        (Ok(_), Some(Ok(_))) => Ok(false),
        (Ok(_), Some(Err(_))) => Ok(true),
        (Err(reason), Some(Ok(_))) => if secondary_carries_source {
            Ok(true)
        } else {
            Err(RelayLaneError::SecondaryIsRepairOnly(reason))
        },
        (Err(first), Some(Err(second))) => Err(RelayLaneError::AllLanesFailed(first, second)),
        (Err(reason), None) => Err(RelayLaneError::OnlyLaneFailed(reason)),
    }
}

/// Nothing is known of a lane before it is used. It is healthy where it never failed, impaired while
/// it has not succeeded since it failed, and once it is healthy only a failure changes that.
pub proof fn a_lane_is_as_it_last_did(
    now_ms: u64,
    later_ms: u64,
    last_success_ms: u64,
    last_failure_ms: u64,
)
    requires
        now_ms <= later_ms,
    ensures
        ({
            let state = lane_state(now_ms, last_success_ms, last_failure_ms);
            let later = lane_state(later_ms, last_success_ms, last_failure_ms);
            &&& state == RelayLaneState::Unknown <==> last_success_ms == 0 && last_failure_ms == 0
            &&& last_failure_ms == 0 && last_success_ms > 0 ==> state == RelayLaneState::Healthy
            &&& last_failure_ms > 0 && last_success_ms <= last_failure_ms ==> state
                == RelayLaneState::Impaired
            &&& last_failure_ms > now_ms ==> state == RelayLaneState::Impaired
            &&& state == RelayLaneState::Healthy ==> later == RelayLaneState::Healthy
        }),
{
}

/// Datagrams of another role or on another path are timed as another stage.
pub proof fn sends_are_timed_apart(
    path: RelayCarrierPath,
    role: MediaDatagramRole,
    other_path: RelayCarrierPath,
    other_role: MediaDatagramRole,
)
    ensures
        send_stage(path, role) == send_stage(other_path, other_role) <==> path == other_path && role
            == other_role,
        path == RelayCarrierPath::Primary <==> send_stage(path, role)
            == RelayPipelineStage::PrimarySourceSend || send_stage(path, role)
            == RelayPipelineStage::PrimaryRepairSend,
        role == MediaDatagramRole::Source <==> send_stage(path, role)
            == RelayPipelineStage::PrimarySourceSend || send_stage(path, role)
            == RelayPipelineStage::SecondarySourceSend,
{
}

} // verus!
