//! Socket addresses of the relay session, and which combinations of them are accepted.
use vstd::prelude::*;
use vstd::string::*;

verus! {

/// A socket address as plain values.
#[derive(Debug, Clone, Copy, PartialEq, Eq, Structural)]
pub struct Endpoint {
    pub is_ipv4: bool,
    /// The address's value, high byte first.
    pub ip: u128,
    pub port: u16,
    /// Zero for version four.
    pub flowinfo: u32,
    /// Zero for version four.
    pub scope_id: u32,
}

/// The value of the version-four loopback address.
pub const IPV4_LOCALHOST: u128 = 0x7f00_0001;

impl Endpoint {
    /// Whether the address is the host itself.
    pub open spec fn loopback(self) -> bool {
        if self.is_ipv4 {
            self.ip / 0x100_0000 == 127
        } else {
            self.ip == 1
        }
    }

    /// Decides whether the address is the host itself.
    pub fn is_loopback(&self) -> (r: bool)
        ensures
            r == self.loopback(),
    {
        if self.is_ipv4 {
            self.ip / 0x100_0000 == 127
        } else {
            self.ip == 1
        }
    }
}

/// The address from which a peer is reached: the host itself for a peer on it, any other address
/// of the same family, and any port.
pub open spec fn sender_for(peer: Endpoint) -> Endpoint {
    Endpoint {
        is_ipv4: peer.is_ipv4,
        ip: if !peer.loopback() {
            0
        } else if peer.is_ipv4 {
            IPV4_LOCALHOST
        } else {
            1
        },
        port: 0,
        flowinfo: 0,
        scope_id: 0,
    }
}

/// The address from which a peer is reached.
pub fn local_sender_addr(peer: Endpoint) -> (r: Endpoint)
    ensures
        r == sender_for(peer),
{
    let ip: u128 = if !peer.is_loopback() {
        0
    } else if peer.is_ipv4 {
        IPV4_LOCALHOST
    } else {
        1
    };
    Endpoint { is_ipv4: peer.is_ipv4, ip, port: 0, flowinfo: 0, scope_id: 0 }
}

/// The two relay lanes' addresses as they were configured.
#[derive(Debug, Clone, Copy, PartialEq, Eq, Structural)]
pub struct RelayEndpoints {
    pub primary_target: Option<Endpoint>,
    pub primary_bind: Option<Endpoint>,
    pub secondary_target: Option<Endpoint>,
    pub secondary_bind: Option<Endpoint>,
    pub secondary_seed_source: bool,
    pub deadline_ms: u64,
    /// Whether observations of the path were configured.
    pub path_observed: bool,
}

/// A flag that names an address.
#[derive(Debug, Clone, Copy, PartialEq, Eq, Structural)]
pub enum BindFlag {
    Primary,
    Secondary,
}

impl BindFlag {
    /// The flag's spelling.
    pub open spec fn spelling(self) -> Seq<char> {
        match self {
            BindFlag::Primary => "--relay-primary-bind"@,
            BindFlag::Secondary => "--relay-secondary-bind"@,
        }
    }

    /// The flag's spelling.
    pub fn as_str(self) -> (r: &'static str)
        ensures
            r@ == self.spelling(),
    {
        match self {
            BindFlag::Primary => "--relay-primary-bind",
            BindFlag::Secondary => "--relay-secondary-bind",
        }
    }
}

/// One of the relay session's addresses.
#[derive(Debug, Clone, Copy, PartialEq, Eq, Structural)]
pub enum RelayRole {
    PrimaryTarget,
    PrimaryBind,
    SecondaryTarget,
    SecondaryBind,
}

impl RelayRole {
    /// The address's name.
    pub open spec fn name(self) -> Seq<char> {
        match self {
            RelayRole::PrimaryTarget => "primary target"@,
            RelayRole::PrimaryBind => "primary bind"@,
            RelayRole::SecondaryTarget => "secondary target"@,
            RelayRole::SecondaryBind => "secondary bind"@,
        }
    }

    /// The address's name.
    pub fn as_str(self) -> (r: &'static str)
        ensures
            r@ == self.name(),
    {
        match self {
            RelayRole::PrimaryTarget => "primary target",
            RelayRole::PrimaryBind => "primary bind",
            RelayRole::SecondaryTarget => "secondary target",
            RelayRole::SecondaryBind => "secondary bind",
        }
    }
}

/// Why a relay session cannot be set up as configured.
#[derive(Debug, Clone, Copy, PartialEq, Eq, Structural)]
pub enum RelayConfigError {
    /// Something was configured of a relay session that has no primary target.
    NeedsPrimaryTarget,
    /// The path was observed of a relay session that has no primary target.
    ObservationNeedsPrimaryTarget,
    /// The secondary lane has a source address and no target.
    SecondaryBindNeedsTarget,
    /// The secondary lane is to carry source symbols and has no target.
    SeedNeedsTarget,
    /// Both lanes have the same target.
    SameTargets,
    /// Objects are given no time to arrive.
    NoDeadline,
    /// A source address has no port.
    PortMissing(BindFlag),
    /// A source address has no address.
    AddressMissing(BindFlag),
    /// A source address and its target are of different families.
    FamilyMismatch(BindFlag),
    /// Two addresses are the same.
    SameAddress(RelayRole, RelayRole),
}

impl RelayConfigError {
    /// The error in words.
    pub open spec fn words(self) -> Seq<char> {
        match self {
            RelayConfigError::NeedsPrimaryTarget =>
            "relay bind and secondary settings require --relay-primary-target"@,
            RelayConfigError::ObservationNeedsPrimaryTarget =>
            "relay path observations require --relay-primary-target"@,
            RelayConfigError::SecondaryBindNeedsTarget =>
            "--relay-secondary-bind requires --relay-secondary-target"@,
            RelayConfigError::SeedNeedsTarget =>
            "--relay-secondary-seed-source requires --relay-secondary-target"@,
            RelayConfigError::SameTargets =>
            "relay primary and secondary targets must use distinct socket addresses"@,
            RelayConfigError::NoDeadline => "--relay-deadline-ms must be positive"@,
            RelayConfigError::PortMissing(flag) => flag.spelling()
                + " must use a fixed non-zero port"@,
            RelayConfigError::AddressMissing(flag) => flag.spelling()
                + " must use the source IP registered by its relay peer"@,
            RelayConfigError::FamilyMismatch(flag) => flag.spelling()
                + " and its relay target must use the same address family"@,
            RelayConfigError::SameAddress(left, right) => "relay "@ + left.name() + " and "@
                + right.name() + " must use distinct socket addresses"@,
        }
    }

    /// The error in words.
    pub fn message(self) -> (r: String)
        ensures
            r@ == self.words(),
    {
        match self {
            RelayConfigError::NeedsPrimaryTarget =>
            "relay bind and secondary settings require --relay-primary-target".to_owned(),
            RelayConfigError::ObservationNeedsPrimaryTarget =>
            "relay path observations require --relay-primary-target".to_owned(),
            RelayConfigError::SecondaryBindNeedsTarget =>
            "--relay-secondary-bind requires --relay-secondary-target".to_owned(),
            RelayConfigError::SeedNeedsTarget =>
            "--relay-secondary-seed-source requires --relay-secondary-target".to_owned(),
            RelayConfigError::SameTargets =>
            "relay primary and secondary targets must use distinct socket addresses".to_owned(),
            RelayConfigError::NoDeadline => "--relay-deadline-ms must be positive".to_owned(),
            RelayConfigError::PortMissing(flag) => {
                let mut r = flag.as_str().to_owned();
                r.append(" must use a fixed non-zero port");
                r
            },
            RelayConfigError::AddressMissing(flag) => {
                let mut r = flag.as_str().to_owned();
                r.append(" must use the source IP registered by its relay peer");
                r
            },
            RelayConfigError::FamilyMismatch(flag) => {
                let mut r = flag.as_str().to_owned();
                r.append(" and its relay target must use the same address family");
                r
            },
            RelayConfigError::SameAddress(left, right) => {
                let mut r = "relay ".to_owned();
                r.append(left.as_str());
                r.append(" and ");
                r.append(right.as_str());
                r.append(" must use distinct socket addresses");
                r
            },
        }
    }
}

/// The source address of a lane: the configured one where it is fixed and fits the target, any
/// other where none is configured.
pub open spec fn bind_for(flag: BindFlag, configured: Option<Endpoint>, target: Endpoint) -> Result<
    Endpoint,
    RelayConfigError,
> {
    match configured {
        None => Ok(sender_for(target)),
        Some(bind) => if bind.port == 0 {
            Err(RelayConfigError::PortMissing(flag))
        } else if bind.ip == 0 {
            Err(RelayConfigError::AddressMissing(flag))
        } else if bind.is_ipv4 != target.is_ipv4 {
            Err(RelayConfigError::FamilyMismatch(flag))
        } else {
            Ok(bind)
        },
    }
}

/// Chooses the source address of a lane.
pub fn relay_bind_addr(flag: BindFlag, configured: Option<Endpoint>, target: Endpoint) -> (r: Result<
    Endpoint,
    RelayConfigError,
>)
    ensures
        r == bind_for(flag, configured, target),
{
    let bind = match configured {
        None => {
            return Ok(local_sender_addr(target));
        },
        Some(bind) => bind,
    };
    if bind.port == 0 {
        return Err(RelayConfigError::PortMissing(flag));
    }
    if bind.ip == 0 {
        return Err(RelayConfigError::AddressMissing(flag));
    }
    if bind.is_ipv4 != target.is_ipv4 {
        return Err(RelayConfigError::FamilyMismatch(flag));
    }
    Ok(bind)
}

/// The addresses that the lanes use.
#[derive(Debug, Clone, Copy, PartialEq, Eq)]
pub struct RelayPlan {
    pub primary_bind: Endpoint,
    pub primary_target: Endpoint,
    pub secondary: Option<(Endpoint, Endpoint)>,
}

/// Whether two addresses are both there and the same.
pub open spec fn clash(a: Option<Endpoint>, b: Option<Endpoint>) -> bool {
    a is Some && a == b
}

fn clashes(a: Option<Endpoint>, b: Option<Endpoint>) -> (r: bool)
    ensures
        r == clash(a, b),
{
    match (a, b) {
        (Some(a), Some(b)) => a == b,
        _ => false,
    }
}

impl RelayEndpoints {
    /// The first two addresses that are the same, in the order in which they are compared.
    pub open spec fn first_clash(self) -> Option<(RelayRole, RelayRole)> {
        if clash(self.primary_target, self.primary_bind) {
            Some((RelayRole::PrimaryTarget, RelayRole::PrimaryBind))
        } else if clash(self.primary_target, self.secondary_target) {
            Some((RelayRole::PrimaryTarget, RelayRole::SecondaryTarget))
        } else if clash(self.primary_target, self.secondary_bind) {
            Some((RelayRole::PrimaryTarget, RelayRole::SecondaryBind))
        } else if clash(self.primary_bind, self.secondary_target) {
            Some((RelayRole::PrimaryBind, RelayRole::SecondaryTarget))
        } else if clash(self.primary_bind, self.secondary_bind) {
            Some((RelayRole::PrimaryBind, RelayRole::SecondaryBind))
        } else if clash(self.secondary_target, self.secondary_bind) {
            Some((RelayRole::SecondaryTarget, RelayRole::SecondaryBind))
        } else {
            None
        }
    }

    /// What is configured: no relay session, one with its addresses, or one that cannot be set up.
    pub open spec fn plan(self) -> Result<Option<RelayPlan>, RelayConfigError> {
        match self.primary_target {
            None => if self.primary_bind is Some || self.secondary_target is Some
                || self.secondary_bind is Some {
                Err(RelayConfigError::NeedsPrimaryTarget)
            } else if self.path_observed {
                Err(RelayConfigError::ObservationNeedsPrimaryTarget)
            } else {
                Ok(None)
            },
            Some(primary_target) => if self.secondary_target is None && self.secondary_bind is Some {
                Err(RelayConfigError::SecondaryBindNeedsTarget)
            } else if self.secondary_seed_source && self.secondary_target is None {
                Err(RelayConfigError::SeedNeedsTarget)
            } else if self.secondary_target == Some(primary_target) {
                Err(RelayConfigError::SameTargets)
            } else if self.deadline_ms == 0 {
                Err(RelayConfigError::NoDeadline)
            } else {
                self.lanes(primary_target)
            },
        }
    }

    /// The addresses of the lanes towards a primary target.
    pub open spec fn lanes(self, primary_target: Endpoint) -> Result<
        Option<RelayPlan>,
        RelayConfigError,
    > {
        match bind_for(BindFlag::Primary, self.primary_bind, primary_target) {
            Err(error) => Err(error),
            Ok(primary_bind) => {
                let secondary = match self.secondary_target {
                    None => Ok(None),
                    Some(target) => match bind_for(BindFlag::Secondary, self.secondary_bind, target) {
                        Ok(bind) => Ok(Some((bind, target))),
                        Err(error) => Err(error),
                    },
                };
                match secondary {
                    Err(error) => Err(error),
                    Ok(secondary) => match self.first_clash() {
                        Some((left, right)) => Err(RelayConfigError::SameAddress(left, right)),
                        None => Ok(Some(RelayPlan { primary_bind, primary_target, secondary })),
                    },
                }
            },
        }
    }

    fn find_clash(&self) -> (r: Option<(RelayRole, RelayRole)>)
        ensures
            r == self.first_clash(),
    {
        if clashes(self.primary_target, self.primary_bind) {
            Some((RelayRole::PrimaryTarget, RelayRole::PrimaryBind))
        } else if clashes(self.primary_target, self.secondary_target) {
            Some((RelayRole::PrimaryTarget, RelayRole::SecondaryTarget))
        } else if clashes(self.primary_target, self.secondary_bind) {
            Some((RelayRole::PrimaryTarget, RelayRole::SecondaryBind))
        } else if clashes(self.primary_bind, self.secondary_target) {
            Some((RelayRole::PrimaryBind, RelayRole::SecondaryTarget))
        } else if clashes(self.primary_bind, self.secondary_bind) {
            Some((RelayRole::PrimaryBind, RelayRole::SecondaryBind))
        } else if clashes(self.secondary_target, self.secondary_bind) {
            Some((RelayRole::SecondaryTarget, RelayRole::SecondaryBind))
        } else {
            None
        }
    }

    /// Decides what is configured: no relay session, one with its addresses, or one that cannot be
    /// set up.
    pub fn resolve(&self) -> (r: Result<Option<RelayPlan>, RelayConfigError>)
        ensures
            r == self.plan(),
    {
        let primary_target = match self.primary_target {
            Some(target) => target,
            None => {
                if self.primary_bind.is_some() || self.secondary_target.is_some()
                    || self.secondary_bind.is_some() {
                    return Err(RelayConfigError::NeedsPrimaryTarget);
                }
                if self.path_observed {
                    return Err(RelayConfigError::ObservationNeedsPrimaryTarget);
                }
                return Ok(None);
            },
        };
        if self.secondary_target.is_none() && self.secondary_bind.is_some() {
            return Err(RelayConfigError::SecondaryBindNeedsTarget);
        }
        if self.secondary_seed_source && self.secondary_target.is_none() {
            return Err(RelayConfigError::SeedNeedsTarget);
        }
        if clashes(self.secondary_target, Some(primary_target)) {
            return Err(RelayConfigError::SameTargets);
        }
        if self.deadline_ms == 0 {
            return Err(RelayConfigError::NoDeadline);
        }
        let primary_bind = match relay_bind_addr(
            BindFlag::Primary,
            self.primary_bind,
            primary_target,
        ) {
            Ok(bind) => bind,
            Err(error) => {
                return Err(error);
            },
        };
        let secondary = match self.secondary_target {
            Some(target) => match relay_bind_addr(
                BindFlag::Secondary,
                self.secondary_bind,
                target,
            ) {
                Ok(bind) => Some((bind, target)),
                Err(error) => {
                    return Err(error);
                },
            },
            None => None,
        };
        match self.find_clash() {
            Some((left, right)) => Err(RelayConfigError::SameAddress(left, right)),
            None => Ok(Some(RelayPlan { primary_bind, primary_target, secondary })),
        }
    }
}

/// Lanes that are set up never share an address among those that were configured, and each sends
/// from an address of its target's family.
pub proof fn planned_lanes_are_distinct(endpoints: RelayEndpoints)
    requires
        endpoints.plan() matches Ok(Some(_)),
    ensures
        endpoints.plan() matches Ok(Some(plan)) && plan.primary_bind.is_ipv4
            == plan.primary_target.is_ipv4 && (plan.secondary matches Some((bind, target))
            ==> bind.is_ipv4 == target.is_ipv4 && target != plan.primary_target),
        endpoints.first_clash() is None,
{
}

/// A relay session is set up exactly where what is configured fits together: a target for whatever is
/// said of a lane, different targets, time to arrive, fixed source addresses of their target's family,
/// and no address used for two things.
pub proof fn relays_are_set_up_where_they_fit(endpoints: RelayEndpoints)
    ensures
        ({
            let r = endpoints.plan();
            let fixed = |bind: Option<Endpoint>, target: Option<Endpoint>|
                bind is Some && target is Some ==> bind->Some_0.port != 0 && bind->Some_0.ip != 0
                    && bind->Some_0.is_ipv4 == target->Some_0.is_ipv4;
            let apart = |a: Option<Endpoint>, b: Option<Endpoint>| a is None || b is None || a != b;
            &&& endpoints.primary_target is None ==> {
                &&& r is Ok <==> endpoints.primary_bind is None && endpoints.secondary_target is None
                    && endpoints.secondary_bind is None && !endpoints.path_observed
                &&& r is Ok ==> r->Ok_0 is None
            }
            &&& endpoints.primary_target is Some ==> {
                &&& r is Ok <==> (endpoints.secondary_bind is Some ==> endpoints.secondary_target
                    is Some) && (endpoints.secondary_seed_source ==> endpoints.secondary_target
                    is Some) && endpoints.deadline_ms > 0 && fixed(
                    endpoints.primary_bind,
                    endpoints.primary_target,
                ) && fixed(endpoints.secondary_bind, endpoints.secondary_target) && apart(
                    endpoints.primary_target,
                    endpoints.primary_bind,
                ) && apart(endpoints.primary_target, endpoints.secondary_target) && apart(
                    endpoints.primary_target,
                    endpoints.secondary_bind,
                ) && apart(endpoints.primary_bind, endpoints.secondary_target) && apart(
                    endpoints.primary_bind,
                    endpoints.secondary_bind,
                ) && apart(endpoints.secondary_target, endpoints.secondary_bind)
                &&& r is Ok ==> r->Ok_0 is Some
            }
        }),
{
}

/// A lane sends to its target, from the address that is configured for it, or from any of the right
/// family, which is the host itself exactly where the target is.
pub proof fn lanes_send_from_where_they_may(endpoints: RelayEndpoints)
    requires
        endpoints.plan() is Ok,
        endpoints.plan()->Ok_0 is Some,
    ensures
        ({
            let plan = endpoints.plan()->Ok_0->Some_0;
            let from_anywhere = |bind: Endpoint, target: Endpoint|
                bind.port == 0 && bind.is_ipv4 == target.is_ipv4 && bind.flowinfo == 0
                    && bind.scope_id == 0 && (if target.is_ipv4 {
                    bind.ip == (if target.ip / 0x100_0000 == 127 {
                        0x7f00_0001int
                    } else {
                        0
                    })
                } else {
                    bind.ip == (if target.ip == 1 {
                        1int
                    } else {
                        0
                    })
                });
            &&& endpoints.primary_target == Some(plan.primary_target)
            &&& endpoints.primary_bind is Some ==> endpoints.primary_bind == Some(plan.primary_bind)
            &&& endpoints.primary_bind is None ==> from_anywhere(
                plan.primary_bind,
                plan.primary_target,
            )
            &&& plan.secondary is Some <==> endpoints.secondary_target is Some
            &&& plan.secondary is Some ==> endpoints.secondary_target == Some(
                plan.secondary->Some_0.1,
            )
            &&& plan.secondary is Some && endpoints.secondary_bind is Some
                ==> endpoints.secondary_bind == Some(plan.secondary->Some_0.0)
            &&& plan.secondary is Some && endpoints.secondary_bind is None ==> from_anywhere(
                plan.secondary->Some_0.0,
                plan.secondary->Some_0.1,
            )
        }),
{
}

} // verus!
