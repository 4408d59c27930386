//! How a media access unit is taken in: asked who sends it, read, looked at again, and forwarded.
use crate::service::forward::ForwardError;
use crate::service::router::{
    forward_failure, leased_params, legacy_ack_metadata_for_publish_lease, plan_access_unit,
    refuse_long_object, AccessUnitPlan, LeaseFacts, MediaAccessUnitParams, PublishAuthorizationMode,
    PublishRejection, PublishRejectionCode, MAX_MEDIA_ACCESS_UNIT_BYTES,
};
use crate::service::stream_fec::MAX_STREAM_FEC_OBJECT_BYTES;
use vstd::prelude::*;
use vstd::string::*;

verus! {

/// What is waited for.
#[derive(Debug, Clone, Copy, PartialEq, Eq, Structural)]
pub enum IntakeStage {
    /// Who sends it.
    Authorization,
    /// What it holds.
    Body,
    /// Whether it may still be sent.
    Revalidation,
    /// The object that the lease describes.
    Object,
    /// That it was forwarded.
    Forwarding,
    /// Nothing.
    Done,
}

/// A media access unit that is being taken in.
#[derive(Debug, Clone, Copy, PartialEq, Eq, Structural)]
pub struct AccessUnitIntake {
    pub mode: PublishAuthorizationMode,
    pub params: MediaAccessUnitParams,
    pub lease: Option<LeaseFacts>,
    /// What is acknowledged, where the lease decides it.
    pub leased: Option<MediaAccessUnitParams>,
    pub payload_len: usize,
    pub stage: IntakeStage,
}

/// What happened.
#[derive(Debug, Clone, Copy)]
pub enum IntakeEvent {
    /// The sender was let in, with a lease if it has one.
    Admitted(Option<LeaseFacts>),
    /// The sender was refused, now or when it was looked at again.
    Refused(PublishRejection),
    /// So many bytes were read.
    BodyRead(usize),
    /// There were more bytes than are read.
    BodyTooLong,
    /// The sender may still send it.
    StillValid,
    /// The object of the lease takes so many bytes.
    ObjectBuilt(usize),
    /// The object of the lease could not be written.
    ObjectFailed,
    /// It was forwarded in so many datagrams.
    Forwarded(usize),
    /// It could not be forwarded.
    NotForwarded(ForwardError),
}

/// What to do.
#[derive(Debug)]
pub enum IntakeAction {
    /// Ask who sends it.
    Authorize,
    /// Read no more than so many bytes.
    ReadBody(usize),
    /// Look again whether it may be sent.
    Revalidate,
    /// Build the object of the lease.
    BuildObject,
    /// Forward the object in datagrams that are no longer than this.
    ForwardObject(Option<u32>),
    /// Forward the access unit, under its own number or the next.
    ForwardAccessUnit(Option<u64>),
    /// Answer that it was refused.
    Reject(PublishRejection),
    /// Answer that it is longer than this.
    TooLarge(usize),
    /// Answer that something went wrong.
    Fail(String),
    /// Answer that it went out in so many datagrams.
    Accept(usize),
}

/// A refusal, and what it is about.
pub struct RejectionView {
    pub code: PublishRejectionCode,
    pub field: Seq<char>,
}

/// What an [`IntakeAction`] says.
pub enum IntakeActionView {
    Authorize,
    ReadBody(usize),
    Revalidate,
    BuildObject,
    ForwardObject(Option<u32>),
    ForwardAccessUnit(Option<u64>),
    Reject(RejectionView),
    TooLarge(usize),
    Fail(Seq<char>),
    Accept(usize),
}

/// What a refusal says.
pub open spec fn rejection_view(rejection: PublishRejection) -> RejectionView {
    RejectionView { code: rejection.code, field: rejection.field@ }
}

impl View for IntakeAction {
    type V = IntakeActionView;

    open spec fn view(&self) -> IntakeActionView {
        match *self {
            IntakeAction::Authorize => IntakeActionView::Authorize,
            IntakeAction::ReadBody(limit) => IntakeActionView::ReadBody(limit),
            IntakeAction::Revalidate => IntakeActionView::Revalidate,
            IntakeAction::BuildObject => IntakeActionView::BuildObject,
            IntakeAction::ForwardObject(limit) => IntakeActionView::ForwardObject(limit),
            IntakeAction::ForwardAccessUnit(sequence) => IntakeActionView::ForwardAccessUnit(
                sequence,
            ),
            IntakeAction::Reject(rejection) => IntakeActionView::Reject(rejection_view(rejection)),
            IntakeAction::TooLarge(limit) => IntakeActionView::TooLarge(limit),
            IntakeAction::Fail(message) => IntakeActionView::Fail(message@),
            IntakeAction::Accept(datagrams) => IntakeActionView::Accept(datagrams),
        }
    }
}

/// The most bytes that are read under a mode, with a lease.
pub open spec fn body_limit(mode: PublishAuthorizationMode, lease: Option<LeaseFacts>) -> usize {
    match lease {
        Some(lease) => if mode == PublishAuthorizationMode::Enforce && lease.payload_bytes
            <= MAX_MEDIA_ACCESS_UNIT_BYTES {
            lease.payload_bytes as usize
        } else {
            MAX_MEDIA_ACCESS_UNIT_BYTES
        },
        None => MAX_MEDIA_ACCESS_UNIT_BYTES,
    }
}

impl AccessUnitIntake {
    /// Whether the lease decides what is sent.
    pub open spec fn enforced(self) -> bool {
        self.mode == PublishAuthorizationMode::Enforce && self.lease is Some
    }

    /// Whether a lease can be read, and everything goes by it where it has to.
    pub open spec fn wf(self) -> bool {
        &&& self.lease matches Some(lease) ==> lease.capture_timebase_hz > 0
        &&& self.leased is Some ==> self.enforced()
    }

    /// Whether something can happen now.
    pub open spec fn can_happen(self, event: IntakeEvent) -> bool {
        match event {
            IntakeEvent::Admitted(lease) => {
                &&& self.stage == IntakeStage::Authorization
                &&& lease matches Some(lease) ==> lease.capture_timebase_hz > 0
                &&& self.mode == PublishAuthorizationMode::Enforce ==> lease is Some
            },
            IntakeEvent::Refused(_) => self.stage == IntakeStage::Authorization || self.stage
                == IntakeStage::Revalidation || self.stage == IntakeStage::Object,
            IntakeEvent::BodyRead(_) | IntakeEvent::BodyTooLong => self.stage == IntakeStage::Body,
            IntakeEvent::StillValid => self.stage == IntakeStage::Revalidation,
            IntakeEvent::ObjectBuilt(_) | IntakeEvent::ObjectFailed => self.stage
                == IntakeStage::Object,
            IntakeEvent::Forwarded(_) | IntakeEvent::NotForwarded(_) => self.stage
                == IntakeStage::Forwarding,
        }
    }

    /// The intake at another stage.
    pub open spec fn at(self, stage: IntakeStage) -> Self {
        AccessUnitIntake { stage, ..self }
    }

    /// What follows once the body is read and may be sent.
    pub open spec fn forwards(self) -> (Self, IntakeActionView) {
        if self.enforced() {
            (self.at(IntakeStage::Object), IntakeActionView::BuildObject)
        } else {
            (
                self.at(IntakeStage::Forwarding),
                IntakeActionView::ForwardAccessUnit(self.params.sequence),
            )
        }
    }

    /// What follows once the sender is let in.
    pub open spec fn admits(self, lease: Option<LeaseFacts>) -> (Self, IntakeActionView) {
        let known = AccessUnitIntake { lease, ..self };
        let read = IntakeActionView::ReadBody(body_limit(self.mode, lease));
        if known.enforced() {
            match leased_params(self.params, lease->0) {
                Ok(leased) => (
                    AccessUnitIntake { leased: Some(leased), ..known }.at(IntakeStage::Body),
                    read,
                ),
                Err(field) => (
                    known.at(IntakeStage::Done),
                    IntakeActionView::Reject(
                        RejectionView { code: PublishRejectionCode::ConfigurationMismatch, field },
                    ),
                ),
            }
        } else {
            (known.at(IntakeStage::Body), read)
        }
    }

    /// What follows something that happened.
    pub open spec fn after(self, event: IntakeEvent) -> (Self, IntakeActionView) {
        let done = self.at(IntakeStage::Done);
        match event {
            IntakeEvent::Admitted(lease) => self.admits(lease),
            IntakeEvent::Refused(rejection) => (
                done,
                IntakeActionView::Reject(rejection_view(rejection)),
            ),
            IntakeEvent::BodyTooLong => (
                done,
                IntakeActionView::TooLarge(body_limit(self.mode, self.lease)),
            ),
            IntakeEvent::BodyRead(length) => {
                let known = AccessUnitIntake { payload_len: length, ..self };
                if self.lease is Some {
                    (known.at(IntakeStage::Revalidation), IntakeActionView::Revalidate)
                } else {
                    known.forwards()
                }
            },
            IntakeEvent::StillValid => self.forwards(),
            IntakeEvent::ObjectBuilt(length) => if length > MAX_STREAM_FEC_OBJECT_BYTES {
                (
                    done,
                    IntakeActionView::Reject(
                        RejectionView {
                            code: PublishRejectionCode::EnvelopeTooLarge,
                            field: "canonical_media_object"@,
                        },
                    ),
                )
            } else {
                (
                    self.at(IntakeStage::Forwarding),
                    IntakeActionView::ForwardObject(
                        match self.lease {
                            Some(lease) => Some(lease.max_datagram_bytes),
                            None => None,
                        },
                    ),
                )
            },
            IntakeEvent::ObjectFailed => (
                done,
                IntakeActionView::Fail("canonical authorized media object could not be encoded"@),
            ),
            IntakeEvent::Forwarded(datagrams) => (done, IntakeActionView::Accept(datagrams)),
            IntakeEvent::NotForwarded(error) => (
                done,
                if error == ForwardError::LimitExceeded {
                    IntakeActionView::Reject(
                        RejectionView {
                            code: PublishRejectionCode::DatagramLimit,
                            field: "max_datagram_bytes"@,
                        },
                    )
                } else {
                    IntakeActionView::Fail(error.words())
                },
            ),
        }
    }

    /// Starts to take an access unit in: nobody is asked where publishing is not authorized.
    pub fn begin(mode: PublishAuthorizationMode, params: MediaAccessUnitParams) -> (r: (
        AccessUnitIntake,
        IntakeAction,
    ))
        ensures
            r.0.wf(),
            r.0 == (AccessUnitIntake {
                mode,
                params,
                lease: None,
                leased: None,
                payload_len: 0,
                stage: if mode == PublishAuthorizationMode::Off {
                    IntakeStage::Body
                } else {
                    IntakeStage::Authorization
                },
            }),
            r.1@ == (if mode == PublishAuthorizationMode::Off {
                IntakeActionView::ReadBody(MAX_MEDIA_ACCESS_UNIT_BYTES)
            } else {
                IntakeActionView::Authorize
            }),
    {
        let off = mode == PublishAuthorizationMode::Off;
        let intake = AccessUnitIntake {
            mode,
            params,
            lease: None,
            leased: None,
            payload_len: 0,
            stage: if off {
                IntakeStage::Body
            } else {
                IntakeStage::Authorization
            },
        };
        let action = if off {
            IntakeAction::ReadBody(MAX_MEDIA_ACCESS_UNIT_BYTES)
        } else {
            IntakeAction::Authorize
        };
        (intake, action)
    }

    /// How the access unit is taken in.
    fn plan(&self) -> (r: AccessUnitPlan)
        ensures
            r.body_limit == body_limit(self.mode, self.lease),
            r.as_leased_object == self.enforced(),
            r.revalidates == (self.lease is Some),
    {
        plan_access_unit(self.mode, self.lease)
    }

    /// Goes on once the body is read and may be sent.
    fn forward(&mut self) -> (r: IntakeAction)
        ensures
            (*final(self), r@) == old(self).forwards(),
    {
        if self.plan().as_leased_object {
            self.stage = IntakeStage::Object;
            IntakeAction::BuildObject
        } else {
            self.stage = IntakeStage::Forwarding;
            IntakeAction::ForwardAccessUnit(self.params.sequence)
        }
    }

    /// Goes on once the sender is let in.
    fn admit_sender(&mut self, lease: Option<LeaseFacts>) -> (r: IntakeAction)
        requires
            lease matches Some(lease) ==> lease.capture_timebase_hz > 0,
        ensures
            (*final(self), r@) == old(self).admits(lease),
    {
        self.lease = lease;
        let plan = self.plan();
        if plan.as_leased_object {
            if let Some(facts) = lease {
                match legacy_ack_metadata_for_publish_lease(self.params, facts) {
                    Ok(leased) => {
                        self.leased = Some(leased);
                    },
                    Err(rejection) => {
                        self.stage = IntakeStage::Done;
                        return IntakeAction::Reject(rejection);
                    },
                }
            }
        }
        self.stage = IntakeStage::Body;
        IntakeAction::ReadBody(plan.body_limit)
    }

    /// Goes on from something that happened.
    pub fn step(&mut self, event: IntakeEvent) -> (r: IntakeAction)
        requires
            old(self).wf(),
            old(self).can_happen(event),
        ensures
            (*final(self), r@) == old(self).after(event),
    {
        match event {
            IntakeEvent::Admitted(lease) => self.admit_sender(lease),
            IntakeEvent::Refused(rejection) => {
                self.stage = IntakeStage::Done;
                IntakeAction::Reject(rejection)
            },
            IntakeEvent::BodyTooLong => {
                self.stage = IntakeStage::Done;
                IntakeAction::TooLarge(self.plan().body_limit)
            },
            IntakeEvent::BodyRead(length) => {
                self.payload_len = length;
                if self.plan().revalidates {
                    self.stage = IntakeStage::Revalidation;
                    IntakeAction::Revalidate
                } else {
                    self.forward()
                }
            },
            IntakeEvent::StillValid => self.forward(),
            IntakeEvent::ObjectBuilt(length) => match refuse_long_object(length) {
                Some(rejection) => {
                    self.stage = IntakeStage::Done;
                    IntakeAction::Reject(rejection)
                },
                None => {
                    self.stage = IntakeStage::Forwarding;
                    let limit = match self.lease {
                        Some(lease) => Some(lease.max_datagram_bytes),
                        None => None,
                    };
                    IntakeAction::ForwardObject(limit)
                },
            },
            IntakeEvent::ObjectFailed => {
                self.stage = IntakeStage::Done;
                IntakeAction::Fail(
                    "canonical authorized media object could not be encoded".to_owned(),
                )
            },
            IntakeEvent::Forwarded(datagrams) => {
                self.stage = IntakeStage::Done;
                IntakeAction::Accept(datagrams)
            },
            IntakeEvent::NotForwarded(error) => {
                self.stage = IntakeStage::Done;
                match forward_failure(error) {
                    Ok(rejection) => IntakeAction::Reject(rejection),
                    Err(message) => IntakeAction::Fail(message),
                }
            },
        }
    }
}

/// Where publishing is enforced, no media access unit is forwarded of a sender that was not let in
/// with a lease, nor as anything but the object that the lease describes.
pub proof fn enforcement_leaves_no_way_around(intake: AccessUnitIntake, event: IntakeEvent)
    requires
        intake.wf(),
        intake.mode == PublishAuthorizationMode::Enforce,
        intake.can_happen(event),
        intake.stage != IntakeStage::Authorization ==> intake.lease is Some,
    ensures
        !(intake.after(event).1 matches IntakeActionView::ForwardAccessUnit(_)),
        intake.after(event).0.stage != IntakeStage::Authorization ==> intake.after(event).0.stage
            == IntakeStage::Done || intake.after(event).0.lease is Some,
        intake.after(event).1 matches IntakeActionView::ForwardObject(limit) ==> limit is Some,
{
}

/// Where publishing is only looked at, no body is refused that would be taken without it, for its
/// length or for what its lease says.
pub proof fn observing_changes_nothing(intake: AccessUnitIntake, lease: Option<LeaseFacts>)
    requires
        intake.mode == PublishAuthorizationMode::Observe,
        intake.stage == IntakeStage::Authorization,
    ensures
        intake.after(IntakeEvent::Admitted(lease)).1 == IntakeActionView::ReadBody(
            MAX_MEDIA_ACCESS_UNIT_BYTES,
        ),
        intake.after(IntakeEvent::Admitted(lease)).0.forwards().1
            == IntakeActionView::ForwardAccessUnit(intake.params.sequence),
{
}

/// A lease that is kept to never makes a step without a next one: the intake stays in order.
pub proof fn intake_stays_in_order(intake: AccessUnitIntake, event: IntakeEvent)
    requires
        intake.wf(),
        intake.can_happen(event),
        event is Admitted ==> intake.leased is None,
    ensures
        intake.after(event).0.wf(),
{
}

/// An access unit is taken in step by step: it is read once its sender is let in, asked for again where
/// there is a lease, built where the lease decides and forwarded as it is otherwise, and answered once
/// that is done; whatever refuses it ends it.
pub proof fn intake_goes_step_by_step(intake: AccessUnitIntake, event: IntakeEvent)
    requires
        intake.wf(),
        intake.can_happen(event),
    ensures
        ({
            let (next, action) = intake.after(event);
            let enforced = intake.mode == PublishAuthorizationMode::Enforce && intake.lease is Some;
            &&& event is Refused ==> next.stage == IntakeStage::Done && action is Reject
            &&& event is BodyTooLong ==> next.stage == IntakeStage::Done && action is TooLarge
            &&& event is BodyRead ==> next.payload_len == event->BodyRead_0 && if intake.lease
                is Some {
                next.stage == IntakeStage::Revalidation && action is Revalidate
            } else {
                next.stage == IntakeStage::Forwarding && action
                    == IntakeActionView::ForwardAccessUnit(intake.params.sequence)
            }
            &&& event is StillValid ==> if enforced {
                next.stage == IntakeStage::Object && action is BuildObject
            } else {
                next.stage == IntakeStage::Forwarding && action
                    == IntakeActionView::ForwardAccessUnit(intake.params.sequence)
            }
            &&& event is ObjectBuilt && event->ObjectBuilt_0 <= MAX_STREAM_FEC_OBJECT_BYTES
                && intake.lease is Some ==> next.stage == IntakeStage::Forwarding && action
                == IntakeActionView::ForwardObject(Some(intake.lease->Some_0.max_datagram_bytes))
            &&& event is ObjectBuilt && event->ObjectBuilt_0 > MAX_STREAM_FEC_OBJECT_BYTES
                ==> next.stage == IntakeStage::Done && action is Reject
            &&& event is ObjectFailed ==> next.stage == IntakeStage::Done && action is Fail
            &&& event is Forwarded ==> next.stage == IntakeStage::Done && action
                == IntakeActionView::Accept(event->Forwarded_0)
            &&& event is NotForwarded ==> next.stage == IntakeStage::Done && (action is Reject
                <==> event->NotForwarded_0 is LimitExceeded) && (action is Reject || action is Fail)
            &&& next.mode == intake.mode && next.params == intake.params
            &&& !(event is Admitted) ==> next.lease == intake.lease
        }),
        event matches IntakeEvent::Admitted(lease) ==> {
            let (next, action) = intake.after(event);
            &&& next.lease == lease
            &&& next.stage == IntakeStage::Body <==> action is ReadBody
            &&& next.stage == IntakeStage::Body || next.stage == IntakeStage::Done
            &&& action matches IntakeActionView::ReadBody(limit) ==> limit
                <= MAX_MEDIA_ACCESS_UNIT_BYTES && if intake.mode == PublishAuthorizationMode::Enforce
                && lease is Some && lease->Some_0.payload_bytes <= MAX_MEDIA_ACCESS_UNIT_BYTES {
                limit == lease->Some_0.payload_bytes
            } else {
                limit == MAX_MEDIA_ACCESS_UNIT_BYTES
            }
        },
{
}

} // verus!
