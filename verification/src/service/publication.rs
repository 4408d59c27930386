//! Publication of parts: which objects a part becomes, in which order, and where they go.
use crate::audio_epoch_hls::opaque::PublishedOpaquePart;
use crate::bytes::optional_view;
use crate::fmp4_bridge::segmenter::PublishedFmp4Part;
use crate::service::forward::{ForwarderView, MeshForwarder};
use crate::service::media_objects::{
    build_fmp4_media_object, build_live_fmp4_initialization_object, build_opaque_media_object,
    bytes_or_none, configuration_of, contributor_timestamp, deadline_after,
    encode_canonical_media_object, encode_mesh_fmp4_slot, initialization_object, media_object_of,
    mesh_slot, mesh_slots_read_back, object_envelope, opaque_object_of, slot_parts,
    CanonicalObject, IdentityView, ObjectError, ObjectIdentity, ObjectView, RoleView,
};
use crate::service::telemetry::{IngestTelemetry, TelemetryView};
use crate::text::decimal;
use std::collections::HashMap;
use crate::arith::what_fits_is_kept;
use crate::service::accounts::went_up;
use vstd::prelude::*;

verus! {

broadcast use vstd::std_specs::hash::group_hash_axioms;

/// The number of the next part of each stream.
#[derive(Debug)]
pub struct CanonicalSequences {
    pub next: HashMap<u64, u64>,
}

/// The number of a stream's next part.
pub open spec fn next_sequence(next: Map<u64, u64>, stream_id: u64) -> u64 {
    if next.dom().contains(stream_id) {
        next[stream_id]
    } else {
        0
    }
}

/// The numbers of the next parts once a stream's is taken.
pub open spec fn after_sequence(next: Map<u64, u64>, stream_id: u64) -> Map<u64, u64> {
    let sequence = next_sequence(next, stream_id);
    next.insert(
        stream_id,
        if sequence == u64::MAX {
            u64::MAX
        } else {
            (sequence + 1) as u64
        },
    )
}

impl CanonicalSequences {
    /// No stream has had a part.
    pub fn new() -> (r: Self)
        ensures
            r.next@ == Map::<u64, u64>::empty(),
    {
        CanonicalSequences { next: HashMap::new() }
    }

    /// Takes the number of a stream's next part.
    pub fn take(&mut self, stream_id: u64) -> (r: u64)
        ensures
            r == next_sequence(old(self).next@, stream_id),
            final(self).next@ == after_sequence(old(self).next@, stream_id),
    {
        let sequence: u64 = match self.next.get(&stream_id) {
            Some(sequence) => *sequence,
            None => 0,
        };
        let _ = self.next.insert(stream_id, sequence.saturating_add(1));
        sequence
    }
}

/// Numbers a part and counts its tracks before it is published.
pub fn begin_fmp4_part(
    sequences: &mut CanonicalSequences,
    telemetry: &mut IngestTelemetry,
    part: &mut PublishedFmp4Part,
)
    ensures
        final(sequences).next@ == after_sequence(old(sequences).next@, old(part).stream_id),
        *final(part) == (PublishedFmp4Part {
            sequence: next_sequence(old(sequences).next@, old(part).stream_id),
            ..*old(part)
        }),
        final(telemetry)@ == old(telemetry)@.fmp4_tracks(
            old(part).stream_id,
            next_sequence(old(sequences).next@, old(part).stream_id),
            match (old(part).video_width, old(part).video_height) {
                (Some(width), Some(height)) => Some((width, height)),
                _ => None,
            },
            old(part).video_units as u64,
            old(part).audio_units as u64,
        ),
        old(telemetry).wf() ==> final(telemetry).wf(),
{
    part.sequence = sequences.take(part.stream_id);
    telemetry.record_fmp4_tracks(
        part.stream_id,
        part.sequence,
        part.video_width,
        part.video_height,
        part.video_units,
        part.audio_units,
    );
}

/// What is counted of a part once it is published, or once it could not be.
pub open spec fn part_counted(
    telemetry: TelemetryView,
    part: PublishedFmp4Part,
    error: Option<Seq<char>>,
    now_ms: u64,
) -> TelemetryView {
    match error {
        None => telemetry.fmp4_part(
            part.stream_id,
            part.stream_idx,
            part.sequence,
            part.bytes@.len() as u64,
            bytes_or_none(optional_view(part.init)).len() as u64,
            now_ms,
        ),
        Some(error) => telemetry.fmp4_failed(
            part.stream_id,
            part.stream_idx,
            part.sequence,
            error,
            now_ms,
        ),
    }
}

/// Counts a part once it is published, or once it could not be.
pub fn end_fmp4_part(
    telemetry: &mut IngestTelemetry,
    part: &PublishedFmp4Part,
    error: Option<&str>,
    now_ms: u64,
)
    requires
        old(telemetry).wf(),
    ensures
        final(telemetry)@ == part_counted(
            old(telemetry)@,
            *part,
            match error {
                Some(error) => Some(error@),
                None => None,
            },
            now_ms,
        ),
        final(telemetry).wf(),
{
    match error {
        None => {
            let init_bytes: u64 = match &part.init {
                Some(init) => init.len() as u64,
                None => 0,
            };
            telemetry.record_fmp4_part(
                part.stream_id,
                part.stream_idx,
                part.sequence,
                part.bytes.len() as u64,
                init_bytes,
                now_ms,
            );
        },
        Some(error) => {
            telemetry.record_fmp4_publish_error(
                part.stream_id,
                part.stream_idx,
                part.sequence,
                error,
                now_ms,
            );
        },
    }
}

/// The initialization that a stream's media depends on, and the configuration that it started.
#[derive(Debug, Clone, Copy)]
pub struct Initialization {
    pub key: ObjectIdentity,
    pub configuration_epoch: u64,
}

/// The initialization of each stream.
#[derive(Debug)]
pub struct Fmp4Initializations {
    pub known: HashMap<u64, Initialization>,
}

/// An object that is to be sent.
#[derive(Debug)]
pub struct PublishAction {
    pub object: CanonicalObject,
    pub envelope: Vec<u8>,
    /// What to remember of it once it is sent, where it is an initialization.
    pub initialization: Option<Initialization>,
    /// Whether it goes into the mesh.
    pub to_mesh: bool,
    /// Whether it goes to the relay session.
    pub to_relay: bool,
}

impl PublishAction {
    /// Whether the action sends an object where a forwarder sends objects.
    pub open spec fn sends(self, object: ObjectView, envelope: Seq<u8>, forwarder: ForwarderView) -> bool {
        &&& self.object@ == object
        &&& self.envelope@ == envelope
        &&& self.to_mesh == !forwarder.relay_exclusive
        &&& self.to_relay == (forwarder.relay is Some)
    }
}

/// The initialization object of a part, or why there is none.
pub open spec fn part_initialization(
    forwarder: ForwarderView,
    part: PublishedFmp4Part,
    init: Seq<u8>,
) -> Result<ObjectView, ObjectError> {
    match deadline_after(part.published_at_unix_ns, forwarder.delivery_budget_ms) {
        Some(deadline) => Ok(
            initialization_object(
                part.stream_id,
                forwarder.source_epoch,
                init,
                Some(contributor_timestamp(deadline, forwarder.estimated_clock_error_ns)),
            ),
        ),
        None => Err(ObjectError::InitializationDeadlineRange),
    }
}

/// The media object of a part behind an initialization, or why there is none.
pub open spec fn part_media(
    forwarder: ForwarderView,
    part: PublishedFmp4Part,
    dependency: IdentityView,
    configuration_epoch: u64,
) -> Result<ObjectView, ObjectError> {
    let init = bytes_or_none(optional_view(part.init));
    if init.len() > u32::MAX {
        Err(ObjectError::InitTooLarge)
    } else if part.bytes@.len() > u32::MAX {
        Err(ObjectError::MediaTooLarge)
    } else {
        media_object_of(
            part,
            mesh_slot(init, part.bytes@),
            dependency,
            configuration_epoch,
            forwarder.source_epoch,
            forwarder.delivery_budget_ms,
            forwarder.estimated_clock_error_ns,
        )
    }
}

/// Whether an action, or an error in its place, is what an object comes to.
pub open spec fn action_for(
    r: Result<PublishAction, ObjectError>,
    object: Result<ObjectView, ObjectError>,
    forwarder: ForwarderView,
) -> bool {
    match object {
        Err(error) => r matches Err(e) && e == error,
        Ok(object) => match object_envelope(object) {
            Err(error) => r matches Err(e) && e == error,
            Ok(envelope) => r matches Ok(action) && action.sends(object, envelope, forwarder),
        },
    }
}

/// Prepares an object to be sent.
fn send_object(
    forwarder: &MeshForwarder,
    object: CanonicalObject,
    initialization: Option<Initialization>,
) -> (r: Result<PublishAction, ObjectError>)
    ensures
        action_for(r, Ok(object@), forwarder@),
        r matches Ok(action) ==> action.initialization == initialization,
{
    match encode_canonical_media_object(&object) {
        Err(error) => Err(error),
        Ok(envelope) => Ok(
            PublishAction {
                object,
                envelope,
                initialization,
                to_mesh: !forwarder.relay_exclusive,
                to_relay: forwarder.relay.is_some(),
            },
        ),
    }
}

/// The object of a part that is not looked into, prepared to be sent, or why it is not.
pub fn opaque_of(forwarder: &MeshForwarder, part: &PublishedOpaquePart) -> (r: Result<
    PublishAction,
    ObjectError,
>)
    ensures
        action_for(
            r,
            opaque_object_of(
                *part,
                forwarder@.source_epoch,
                forwarder@.delivery_budget_ms,
                forwarder@.estimated_clock_error_ns,
            ),
            forwarder@,
        ),
        r matches Ok(action) ==> action.initialization is None,
{
    match build_opaque_media_object(
        part,
        forwarder.source_epoch,
        forwarder.delivery_budget_ms,
        forwarder.estimated_clock_error_ns,
    ) {
        Err(error) => Err(error),
        Ok(object) => send_object(forwarder, object, None),
    }
}

impl Fmp4Initializations {
    /// No stream has an initialization.
    pub fn new() -> (r: Self)
        ensures
            r.known@ == Map::<u64, Initialization>::empty(),
    {
        Fmp4Initializations { known: HashMap::new() }
    }

    /// The initialization object that has to be sent before a part's media, where the part brings
    /// one.
    pub fn initialization_of(&self, forwarder: &MeshForwarder, part: &PublishedFmp4Part) -> (r: Option<
        Result<PublishAction, ObjectError>,
    >)
        ensures
            match optional_view(part.init) {
                None => r is None,
                Some(init) => {
                    &&& r matches Some(result)
                    &&& action_for(result, part_initialization(forwarder@, *part, init), forwarder@)
                    &&& result matches Ok(action) ==> {
                        &&& action.initialization matches Some(initialization)
                        &&& initialization.key@ == action.object@.key
                        &&& initialization.configuration_epoch == configuration_of(init)
                    }
                },
            },
    {
        match &part.init {
            None => None,
            Some(init) => match build_live_fmp4_initialization_object(
                part.stream_id,
                forwarder.source_epoch,
                init.as_slice(),
                part.published_at_unix_ns,
                forwarder.delivery_budget_ms,
                forwarder.estimated_clock_error_ns,
            ) {
                Err(error) => Some(Err(error)),
                Ok((object, configuration_epoch)) => {
                    let key = object.key;
                    Some(
                        send_object(
                            forwarder,
                            object,
                            Some(Initialization { key, configuration_epoch }),
                        ),
                    )
                },
            },
        }
    }

    /// Remembers an initialization once it is sent.
    pub fn remember(&mut self, stream_id: u64, initialization: Initialization)
        ensures
            final(self).known@ == old(self).known@.insert(stream_id, initialization),
    {
        let _ = self.known.insert(stream_id, initialization);
    }

    /// The media object of a part, which depends on its stream's initialization.
    pub fn media_of(&self, forwarder: &MeshForwarder, part: &PublishedFmp4Part) -> (r: Result<
        PublishAction,
        ObjectError,
    >)
        ensures
            if self.known@.dom().contains(part.stream_id) {
                let initialization = self.known@[part.stream_id];
                action_for(
                    r,
                    part_media(
                        forwarder@,
                        *part,
                        initialization.key@,
                        initialization.configuration_epoch,
                    ),
                    forwarder@,
                )
            } else {
                r matches Err(error) && error == (ObjectError::NoInitialization {
                    stream_id: part.stream_id,
                    sequence: part.sequence,
                })
            },
    {
        let initialization = match self.known.get(&part.stream_id) {
            Some(initialization) => *initialization,
            None => {
                return Err(
                    ObjectError::NoInitialization {
                        stream_id: part.stream_id,
                        sequence: part.sequence,
                    },
                );
            },
        };
        let init = match &part.init {
            Some(init) => Some(init.as_slice()),
            None => None,
        };
        let slot = match encode_mesh_fmp4_slot(init, part.bytes.as_slice()) {
            Ok(slot) => slot,
            Err(error) => {
                return Err(error);
            },
        };
        match build_fmp4_media_object(
            part,
            slot.as_slice(),
            initialization.key,
            initialization.configuration_epoch,
            forwarder.source_epoch,
            forwarder.delivery_budget_ms,
            forwarder.estimated_clock_error_ns,
        ) {
            Err(error) => Err(error),
            Ok(object) => send_object(forwarder, object, None),
        }
    }
}

/// A stream's parts are numbered one behind the other, whatever other streams do.
pub proof fn parts_are_numbered_per_stream(next: Map<u64, u64>, stream_id: u64, other: u64)
    ensures
        next_sequence(next, stream_id) < u64::MAX ==> next_sequence(
            after_sequence(next, stream_id),
            stream_id,
        ) == next_sequence(next, stream_id) + 1,
        other != stream_id ==> next_sequence(after_sequence(next, stream_id), other)
            == next_sequence(next, other),
{
}

/// A configuration keeps its identity: parts of a stream that bring the same initialization bring
/// the same object identity and configuration number, whenever they are published.
pub proof fn configurations_keep_their_identity(
    forwarder: ForwarderView,
    part: PublishedFmp4Part,
    later: PublishedFmp4Part,
    init: Seq<u8>,
)
    requires
        part.stream_id == later.stream_id,
    ensures
        part_initialization(forwarder, part, init) matches Ok(first) ==> part_initialization(
            forwarder,
            later,
            init,
        ) matches Ok(second) ==> first.key == second.key && first.configuration_epoch
            == second.configuration_epoch,
{
}

/// A media object names the initialization that it needs, its slot gives back the part's bytes, and
/// it expires exactly one delivery budget behind its publication.
pub proof fn media_objects_say_what_they_need(
    forwarder: ForwarderView,
    part: PublishedFmp4Part,
    dependency: IdentityView,
    configuration_epoch: u64,
)
    ensures
        part_media(forwarder, part, dependency, configuration_epoch) matches Ok(object) ==> {
            &&& object.configuration_epoch == configuration_epoch
            &&& object.key.object == part.sequence
            &&& slot_parts(object.payload) == Some(
                (bytes_or_none(optional_view(part.init)), part.bytes@),
            )
            &&& object.role matches RoleView::Media {
                deadline,
                published,
                dependency: named,
                ..
            } && named == dependency && published.unix_time_ns == part.published_at_unix_ns
                && deadline.unix_time_ns == part.published_at_unix_ns
                + forwarder.delivery_budget_ms * 1_000_000
        },
{
    let init = bytes_or_none(optional_view(part.init));
    if init.len() <= u32::MAX && part.bytes@.len() <= u32::MAX {
        mesh_slots_read_back(init, part.bytes@);
    }
}

/// An object goes into the mesh unless the relay session stands in its place, and to the relay session
/// where there is one; an object that cannot be written is not sent.
pub proof fn objects_go_where_they_are_sent(
    r: Result<PublishAction, ObjectError>,
    object: ObjectView,
    forwarder: ForwarderView,
)
    requires
        action_for(r, Ok(object), forwarder),
    ensures
        r is Ok <==> object_envelope(object) is Ok,
        r matches Ok(action) ==> {
            &&& action.object@ == object
            &&& object_envelope(object) == Ok::<Seq<u8>, ObjectError>(action.envelope@)
            &&& action.to_mesh <==> !forwarder.relay_exclusive
            &&& action.to_relay <==> forwarder.relay is Some
        },
{
}

/// A part that was published is counted with its bytes and those of its initialization, one that was not
/// as an error.
pub proof fn parts_are_counted_by_their_fate(
    view: TelemetryView,
    part: PublishedFmp4Part,
    error: Option<Seq<char>>,
    at_ms: u64,
)
    requires
        view.counters.fmp4.publish_errors < u64::MAX,
    ensures
        ({
            let before = view.counters.fmp4;
            let after = part_counted(view, part, error, at_ms).counters.fmp4;
            let init_bytes = match part.init {
                Some(init) => init@.len() as int,
                None => 0,
            };
            &&& went_up(
                before.parts,
                after.parts,
                if error is None {
                    1
                } else {
                    0
                },
            )
            &&& after.publish_errors == before.publish_errors + (if error is None {
                0int
            } else {
                1
            })
            &&& error is None ==> went_up(before.bytes, after.bytes, part.bytes@.len() as int)
                && went_up(before.init_bytes, after.init_bytes, init_bytes)
                && after.last_publish_unix_ms == at_ms
            &&& error is Some ==> after.bytes == before.bytes && after.init_bytes
                == before.init_bytes && after.last_publish_unix_ms == before.last_publish_unix_ms
        }),
{
    what_fits_is_kept();
}

/// An initialization is due when its part is, and is refused exactly where that time cannot be told. It
/// holds what is needed to start, and the part's own object what the part holds.
pub proof fn initializations_are_due_with_their_part(
    forwarder: ForwarderView,
    part: PublishedFmp4Part,
    init: Seq<u8>,
    dependency: IdentityView,
    configuration_epoch: u64,
)
    ensures
        ({
            let first = part_initialization(forwarder, part, init);
            let media = part_media(forwarder, part, dependency, configuration_epoch);
            let due = part.published_at_unix_ns + forwarder.delivery_budget_ms * 1_000_000;
            let own = bytes_or_none(optional_view(part.init));
            &&& first is Ok <==> due <= i64::MAX
            &&& first matches Ok(object) ==> {
                &&& object.payload == init
                &&& object.key.stream == decimal(part.stream_id as nat)
                &&& object.key.epoch == forwarder.source_epoch
                &&& object.deadline() is Some
                &&& object.deadline()->Some_0.unix_time_ns == due
                &&& object.deadline()->Some_0.maximum_error_ns == forwarder.estimated_clock_error_ns
            }
            &&& media is Ok <==> own.len() <= u32::MAX && part.bytes@.len() <= u32::MAX
                && forwarder.delivery_budget_ms > 0 && due <= i64::MAX
            &&& media matches Ok(object) ==> {
                &&& slot_parts(object.payload) == Some((own, part.bytes@))
                &&& object.key.object == part.sequence
                &&& object.dependencies() == seq![dependency]
                &&& object.deadline() is Some && object.deadline()->Some_0.unix_time_ns == due
            }
        }),
{
    let own = bytes_or_none(optional_view(part.init));
    if own.len() <= u32::MAX && part.bytes@.len() <= u32::MAX {
        mesh_slots_read_back(own, part.bytes@);
    }
}

} // verus!
