//! Canonical media objects: what a part is published as.
use crate::arith::{ceil_div, ceil_div_u64};
use crate::audio_epoch_hls::opaque::PublishedOpaquePart;
use crate::bytes::{copy_bytes, starts_with};
use crate::fmp4_bridge::segmenter::PublishedFmp4Part;
use crate::text::{append_decimal, decimal, decimal_text};
use crate::wire::{be_bytes, be_range, be_round_trip, be_value, get_be_u64, put_be_u32};
use media_object::{
    ClockConfidence, ClockTimestamp, MediaObject, ObjectKey, ObjectKind, PayloadHash, Stage,
    StageTimestamp,
};
use vstd::prelude::*;
use vstd::string::*;

verus! {

/// The tenant of every object.
pub const MEDIA_OBJECT_TENANT: &'static str = "default";

/// The track of media objects.
pub const FMP4_MEDIA_TRACK: &'static str = "muxed-fmp4";

/// The track of initialization objects.
pub const FMP4_INITIALIZATION_TRACK: &'static str = "muxed-fmp4-init";

/// The track of objects whose payload is not looked into.
pub const OPAQUE_MEDIA_TRACK: &'static str = "opaque";

/// The version of every object.
pub const MEDIA_OBJECT_VERSION: u32 = 1;

/// The clock that objects are stamped with.
pub const AV_CONTRIB_CLOCK_ID: &'static str = "system:realtime:av-contrib";

/// The bytes that open a slot of the mesh.
pub open spec fn mesh_slot_magic() -> Seq<u8> {
    seq![0x41, 0x56, 0x46, 0x4d, 0x50, 0x34, 0x53, 0x31]
}

/// Bytes in front of a slot's content.
pub const MESH_FMP4_SLOT_HEADER_LEN: usize = 16;

/// Why a part is not published.
#[derive(Debug, Clone, Copy, PartialEq, Eq, Structural)]
pub enum ObjectError {
    /// The initialization is longer than a slot can say.
    InitTooLarge,
    /// The fragment is longer than a slot can say.
    MediaTooLarge,
    /// The time by which the initialization has to arrive cannot be written.
    InitializationDeadlineRange,
    /// The time by which the media has to arrive cannot be written.
    MediaDeadlineRange,
    /// Objects are given no time to arrive.
    NoBudget,
    /// The initialization is no valid object.
    InvalidInitialization,
    /// The media is no valid object.
    InvalidMedia,
    /// The object has no time by which it has to arrive.
    NoDeadline,
    /// The object had to arrive before time began.
    NegativeDeadline,
    /// No initialization was published that the media depends on.
    NoInitialization { stream_id: u64, sequence: u64 },
}

impl ObjectError {
    /// What the error says.
    pub open spec fn words(self) -> Seq<char> {
        match self {
            ObjectError::InitTooLarge => "fMP4 init segment too large for mesh slot envelope"@,
            ObjectError::MediaTooLarge => "fMP4 media fragment too large for mesh slot envelope"@,
            ObjectError::InitializationDeadlineRange =>
                "canonical initialization deadline exceeds Unix-nanosecond range"@,
            ObjectError::MediaDeadlineRange =>
                "canonical media deadline exceeds Unix-nanosecond range"@,
            ObjectError::NoBudget => "canonical media delivery budget must be positive"@,
            ObjectError::InvalidInitialization =>
                "invalid canonical fMP4 initialization object"@,
            ObjectError::InvalidMedia => "invalid canonical fMP4 media object"@,
            ObjectError::NoDeadline =>
                "RelaySession live media requires a canonical object deadline"@,
            ObjectError::NegativeDeadline =>
                "RelaySession wire deadline requires a non-negative Unix timestamp"@,
            ObjectError::NoInitialization { stream_id, sequence } => "fMP4 media part "@ + decimal(
                sequence as nat,
            ) + " for stream "@ + decimal(stream_id as nat)
                + " has no initialization dependency"@,
        }
    }

    /// What the error says.
    pub fn message(self) -> (r: String)
        ensures
            r@ == self.words(),
    {
        match self {
            ObjectError::InitTooLarge =>
                "fMP4 init segment too large for mesh slot envelope".to_owned(),
            ObjectError::MediaTooLarge =>
                "fMP4 media fragment too large for mesh slot envelope".to_owned(),
            ObjectError::InitializationDeadlineRange =>
                "canonical initialization deadline exceeds Unix-nanosecond range".to_owned(),
            ObjectError::MediaDeadlineRange =>
                "canonical media deadline exceeds Unix-nanosecond range".to_owned(),
            ObjectError::NoBudget => "canonical media delivery budget must be positive".to_owned(),
            ObjectError::InvalidInitialization =>
                "invalid canonical fMP4 initialization object".to_owned(),
            ObjectError::InvalidMedia => "invalid canonical fMP4 media object".to_owned(),
            ObjectError::NoDeadline =>
                "RelaySession live media requires a canonical object deadline".to_owned(),
            ObjectError::NegativeDeadline =>
                "RelaySession wire deadline requires a non-negative Unix timestamp".to_owned(),
            ObjectError::NoInitialization { stream_id, sequence } => {
                let mut text = "fMP4 media part ".to_owned();
                append_decimal(&mut text, sequence);
                text.append(" for stream ");
                append_decimal(&mut text, stream_id);
                text.append(" has no initialization dependency");
                text
            },
        }
    }
}

/// The bytes of a part that may be missing.
pub open spec fn bytes_or_none(bytes: Option<Seq<u8>>) -> Seq<u8> {
    match bytes {
        Some(bytes) => bytes,
        None => Seq::empty(),
    }
}

/// A slot of the mesh: what opens it, the two lengths, the initialization and the fragment.
pub open spec fn mesh_slot(init: Seq<u8>, media: Seq<u8>) -> Seq<u8> {
    mesh_slot_magic() + be_bytes(init.len(), 4) + be_bytes(media.len(), 4) + init + media
}

/// What a slot of the mesh holds, read by its lengths.
pub open spec fn slot_parts(slot: Seq<u8>) -> Option<(Seq<u8>, Seq<u8>)> {
    let init_len = be_value(slot.subrange(8, 12)) as int;
    let media_len = be_value(slot.subrange(12, 16)) as int;
    if !starts_with(slot, mesh_slot_magic()) || slot.len() < 16 || slot.len() != 16 + init_len
        + media_len {
        None
    } else {
        Some((slot.subrange(16, 16 + init_len), slot.skip(16 + init_len)))
    }
}

/// Puts an initialization, if there is one, and a fragment into a slot of the mesh.
pub fn encode_mesh_fmp4_slot(init: Option<&[u8]>, media: &[u8]) -> (r: Result<Vec<u8>, ObjectError>)
    ensures
        ({
            let init = match init {
                Some(init) => init@,
                None => Seq::empty(),
            };
            if init.len() > u32::MAX {
                r matches Err(error) && error == ObjectError::InitTooLarge
            } else if media@.len() > u32::MAX {
                r matches Err(error) && error == ObjectError::MediaTooLarge
            } else {
                r matches Ok(slot) && slot@ == mesh_slot(init, media@)
            }
        }),
{
    let init_len: usize = match init {
        Some(init) => init.len(),
        None => 0,
    };
    if init_len > 0xffff_ffff {
        return Err(ObjectError::InitTooLarge);
    }
    if media.len() > 0xffff_ffff {
        return Err(ObjectError::MediaTooLarge);
    }
    let magic: [u8; 8] = [0x41, 0x56, 0x46, 0x4d, 0x50, 0x34, 0x53, 0x31];
    let mut out: Vec<u8> = Vec::new();
    out.extend_from_slice(magic.as_slice());
    assert(out@ =~= mesh_slot_magic());
    put_be_u32(&mut out, init_len as u32);
    put_be_u32(&mut out, media.len() as u32);
    let ghost header = out@;
    if let Some(init) = init {
        out.extend_from_slice(init);
        assert(out@ =~= header + init@);
    } else {
        assert(out@ =~= header + Seq::<u8>::empty());
    }
    out.extend_from_slice(media);
    proof {
        let content = match init {
            Some(init) => init@,
            None => Seq::empty(),
        };
        assert(out@ =~= mesh_slot(content, media@));
    }
    Ok(out)
}

/// What is put into a slot of the mesh is read back from it.
pub proof fn mesh_slots_read_back(init: Seq<u8>, media: Seq<u8>)
    requires
        init.len() <= u32::MAX,
        media.len() <= u32::MAX,
    ensures
        slot_parts(mesh_slot(init, media)) == Some((init, media)),
{
    let slot = mesh_slot(init, media);
    reveal_with_fuel(be_range, 5);
    be_round_trip(init.len(), 4);
    be_round_trip(media.len(), 4);
    assert(slot.take(8) =~= mesh_slot_magic());
    assert(slot.subrange(8, 12) =~= be_bytes(init.len(), 4));
    assert(slot.subrange(12, 16) =~= be_bytes(media.len(), 4));
    assert(slot.subrange(16, (16 + init.len()) as int) =~= init);
    assert(slot.skip((16 + init.len()) as int) =~= media);
}

/// The hash of a payload.
pub uninterp spec fn payload_digest(payload: Seq<u8>) -> Seq<u8>;

/// Calls `media_object::PayloadHash::digest`.
///
/// Claimed of it: the hash depends on the payload alone.
#[verifier::external_body]
fn digest(payload: &[u8]) -> (r: [u8; 32])
    ensures
        r@ == payload_digest(payload@),
{
    *PayloadHash::digest(payload).as_bytes()
}

/// What tells one object from another.
#[derive(Debug, Clone, Copy)]
pub struct ObjectIdentity {
    pub stream_id: u64,
    pub track: &'static str,
    pub epoch: u64,
    pub group: u64,
    pub object: u64,
    pub payload_hash: [u8; 32],
}

/// What an [`ObjectIdentity`] says.
pub struct IdentityView {
    pub tenant: Seq<char>,
    pub stream: Seq<char>,
    pub track: Seq<char>,
    pub epoch: u64,
    pub group: u64,
    pub object: u64,
    pub version: u32,
    pub payload_hash: Seq<u8>,
}

impl View for ObjectIdentity {
    type V = IdentityView;

    open spec fn view(&self) -> IdentityView {
        IdentityView {
            tenant: MEDIA_OBJECT_TENANT@,
            stream: decimal(self.stream_id as nat),
            track: self.track@,
            epoch: self.epoch,
            group: self.group,
            object: self.object,
            version: MEDIA_OBJECT_VERSION,
            payload_hash: self.payload_hash@,
        }
    }
}

/// An object's identity, spelled out.
struct IdentityText {
    tenant: &'static str,
    stream: String,
    track: &'static str,
    epoch: u64,
    group: u64,
    object: u64,
    version: u32,
    payload_hash: [u8; 32],
}

impl View for IdentityText {
    type V = IdentityView;

    closed spec fn view(&self) -> IdentityView {
        IdentityView {
            tenant: self.tenant@,
            stream: self.stream@,
            track: self.track@,
            epoch: self.epoch,
            group: self.group,
            object: self.object,
            version: self.version,
            payload_hash: self.payload_hash@,
        }
    }
}

impl ObjectIdentity {
    /// Spells an identity out.
    fn text(&self) -> (r: IdentityText)
        ensures
            r@ == self@,
    {
        IdentityText {
            tenant: MEDIA_OBJECT_TENANT,
            stream: decimal_text(self.stream_id),
            track: self.track,
            epoch: self.epoch,
            group: self.group,
            object: self.object,
            version: MEDIA_OBJECT_VERSION,
            payload_hash: self.payload_hash,
        }
    }
}

/// A time of the service's clock.
#[derive(Debug, Clone, Copy)]
pub struct CanonicalTimestamp {
    pub unix_time_ns: i64,
    pub clock_id: &'static str,
    pub maximum_error_ns: u64,
}

/// What a [`CanonicalTimestamp`] says.
pub struct TimestampView {
    pub unix_time_ns: i64,
    pub clock_id: Seq<char>,
    pub maximum_error_ns: u64,
}

impl View for CanonicalTimestamp {
    type V = TimestampView;

    open spec fn view(&self) -> TimestampView {
        TimestampView {
            unix_time_ns: self.unix_time_ns,
            clock_id: self.clock_id@,
            maximum_error_ns: self.maximum_error_ns,
        }
    }
}

/// A time of the service's clock, with the clock's error.
pub open spec fn contributor_timestamp(unix_time_ns: i64, estimated_clock_error_ns: u64) -> TimestampView {
    TimestampView {
        unix_time_ns,
        clock_id: AV_CONTRIB_CLOCK_ID@,
        maximum_error_ns: estimated_clock_error_ns,
    }
}

/// A time of the service's clock, with the clock's error.
pub fn canonical_contributor_timestamp(unix_time_ns: i64, estimated_clock_error_ns: u64) -> (r:
    CanonicalTimestamp)
    ensures
        r@ == contributor_timestamp(unix_time_ns, estimated_clock_error_ns),
{
    CanonicalTimestamp {
        unix_time_ns,
        clock_id: AV_CONTRIB_CLOCK_ID,
        maximum_error_ns: estimated_clock_error_ns,
    }
}

/// Something said of an object.
#[derive(Debug)]
pub struct Metadata {
    pub name: &'static str,
    pub value: String,
}

/// What a list of things said of an object holds.
pub open spec fn metadata_view(metadata: Seq<Metadata>) -> Seq<(Seq<char>, Seq<char>)> {
    metadata.map_values(|entry: Metadata| (entry.name@, entry.value@))
}

/// What only one kind of object has.
#[derive(Debug)]
pub enum ObjectRole {
    /// What decoding starts from.
    Initialization { due: Option<CanonicalTimestamp> },
    /// Media that depends on an initialization.
    Media {
        keyframe: bool,
        deadline: CanonicalTimestamp,
        packaged: CanonicalTimestamp,
        published: CanonicalTimestamp,
        dependency: ObjectIdentity,
    },
    /// Media that is not looked into and depends on nothing.
    Opaque {
        deadline: CanonicalTimestamp,
        packaged: CanonicalTimestamp,
        published: CanonicalTimestamp,
    },
}

/// What an [`ObjectRole`] says.
pub enum RoleView {
    Initialization { due: Option<TimestampView> },
    Media {
        keyframe: bool,
        deadline: TimestampView,
        packaged: TimestampView,
        published: TimestampView,
        dependency: IdentityView,
    },
    Opaque { deadline: TimestampView, packaged: TimestampView, published: TimestampView },
}

/// What a time that may be missing says.
pub open spec fn deadline_view(deadline: Option<CanonicalTimestamp>) -> Option<TimestampView> {
    match deadline {
        Some(deadline) => Some(deadline@),
        None => None,
    }
}

impl View for ObjectRole {
    type V = RoleView;

    open spec fn view(&self) -> RoleView {
        match *self {
            ObjectRole::Initialization { due } => RoleView::Initialization {
                due: deadline_view(due),
            },
            ObjectRole::Media { keyframe, deadline, packaged, published, dependency } =>
            RoleView::Media {
                keyframe,
                deadline: deadline@,
                packaged: packaged@,
                published: published@,
                dependency: dependency@,
            },
            ObjectRole::Opaque { deadline, packaged, published } => RoleView::Opaque {
                deadline: deadline@,
                packaged: packaged@,
                published: published@,
            },
        }
    }
}

/// An object that is published.
#[derive(Debug)]
pub struct CanonicalObject {
    pub key: ObjectIdentity,
    pub role: ObjectRole,
    pub configuration_epoch: u64,
    pub metadata: Vec<Metadata>,
    pub payload: Vec<u8>,
}

/// What a [`CanonicalObject`] says.
pub struct ObjectView {
    pub key: IdentityView,
    pub role: RoleView,
    pub configuration_epoch: u64,
    pub metadata: Seq<(Seq<char>, Seq<char>)>,
    pub payload: Seq<u8>,
}

impl View for CanonicalObject {
    type V = ObjectView;

    open spec fn view(&self) -> ObjectView {
        ObjectView {
            key: self.key@,
            role: self.role@,
            configuration_epoch: self.configuration_epoch,
            metadata: metadata_view(self.metadata@),
            payload: self.payload@,
        }
    }
}

impl ObjectView {
    /// The time by which the object has to arrive.
    pub open spec fn deadline(self) -> Option<TimestampView> {
        match self.role {
            RoleView::Initialization { due } => due,
            RoleView::Media { deadline, .. } => Some(deadline),
            RoleView::Opaque { deadline, .. } => Some(deadline),
        }
    }

    /// The objects that have to be there before the object can be used.
    pub open spec fn dependencies(self) -> Seq<IdentityView> {
        match self.role {
            RoleView::Media { dependency, .. } => seq![dependency],
            _ => Seq::empty(),
        }
    }
}

/// Why an object is no valid one.
#[verifier::external_type_specification]
#[verifier::external_body]
pub struct ExMediaObjectError(media_object::Error);

/// The bytes of an initialization object, or nothing where it is not valid.
pub uninterp spec fn initialization_envelope(
    key: IdentityView,
    configuration_epoch: u64,
    deadline: Option<TimestampView>,
    metadata: Seq<(Seq<char>, Seq<char>)>,
    payload: Seq<u8>,
) -> Option<Seq<u8>>;

/// The bytes of a media object, or nothing where it is not valid. Its three times are those by
/// which it has to arrive, at which it was packaged and at which it was published.
pub uninterp spec fn media_envelope(
    key: IdentityView,
    keyframe: bool,
    configuration_epoch: u64,
    times: Seq<TimestampView>,
    dependency: IdentityView,
    metadata: Seq<(Seq<char>, Seq<char>)>,
    payload: Seq<u8>,
) -> Option<Seq<u8>>;

/// The bytes of an object that depends on nothing, or nothing where it is not valid. Its three times
/// are those by which it has to arrive, at which it was packaged and at which it was published.
pub uninterp spec fn opaque_envelope(
    key: IdentityView,
    times: Seq<TimestampView>,
    metadata: Seq<(Seq<char>, Seq<char>)>,
    payload: Seq<u8>,
) -> Option<Seq<u8>>;

/// What bytes or an outside error come to.
pub open spec fn bytes_given(r: Result<Vec<u8>, media_object::Error>) -> Option<Seq<u8>> {
    match r {
        Ok(bytes) => Some(bytes@),
        Err(_) => None,
    }
}

/// Calls `media_object::encode` on an initialization object with these properties.
///
/// Claimed of it: the bytes depend on the properties alone.
#[verifier::external_body]
fn encode_initialization(
    k: IdentityText,
    epoch: u64,
    deadline: Option<CanonicalTimestamp>,
    metadata: Vec<Metadata>,
    payload: Vec<u8>,
) -> (r: Result<Vec<u8>, media_object::Error>)
    ensures
        bytes_given(r) == initialization_envelope(
            k@,
            epoch,
            deadline_view(deadline),
            metadata_view(metadata@),
            payload@,
        ),
{
    let key = ObjectKey::new(k.tenant, k.stream, k.track, k.epoch, k.group, k.object, k.version,
        PayloadHash::from_bytes(k.payload_hash))?;
    let mut b = MediaObject::builder(key, ObjectKind::Initialization, payload).with_configuration_epoch(epoch);
    for entry in metadata { b = b.with_metadata(entry.name, entry.value); }
    if let Some(t) = deadline {
        let confidence = ClockConfidence::estimated(t.maximum_error_ns);
        b = b.with_deadline(ClockTimestamp::new(t.unix_time_ns, t.clock_id, confidence)?);
    }
    media_object::encode(&b.build()?)
}

/// Calls `media_object::encode` on a media object with these properties.
///
/// Claimed of it: the bytes depend on the properties alone.
#[verifier::external_body]
fn encode_media(
    key: IdentityText,
    keyframe: bool,
    epoch: u64,
    deadline: CanonicalTimestamp,
    packaged: CanonicalTimestamp,
    published: CanonicalTimestamp,
    dependency: IdentityText,
    metadata: Vec<Metadata>,
    payload: Vec<u8>,
) -> (r: Result<Vec<u8>, media_object::Error>)
    ensures
        bytes_given(r) == media_envelope(
            key@,
            keyframe,
            epoch,
            seq![deadline@, packaged@, published@],
            dependency@,
            metadata_view(metadata@),
            payload@,
        ),
{
    let name = |k: IdentityText| ObjectKey::new(k.tenant, k.stream, k.track, k.epoch, k.group, k.object,
        k.version, PayloadHash::from_bytes(k.payload_hash));
    let time = |t: CanonicalTimestamp| ClockTimestamp::new(t.unix_time_ns, t.clock_id,
        ClockConfidence::estimated(t.maximum_error_ns));
    let mut b = MediaObject::builder(name(key)?, ObjectKind::Media, payload).with_keyframe(keyframe)
        .with_configuration_epoch(epoch).with_deadline(time(deadline)?)
        .with_stage_timestamp(StageTimestamp::new(Stage::Packaged, time(packaged)?))
        .with_stage_timestamp(StageTimestamp::new(Stage::Published, time(published)?))
        .with_dependency(name(dependency)?);
    for entry in metadata { b = b.with_metadata(entry.name, entry.value); }
    media_object::encode(&b.build()?)
}

/// Calls `media_object::encode` on a media object with these properties, without a dependency.
///
/// Claimed of it: the bytes depend on the properties alone.
#[verifier::external_body]
fn encode_opaque(
    k: IdentityText,
    deadline: CanonicalTimestamp,
    packaged: CanonicalTimestamp,
    published: CanonicalTimestamp,
    metadata: Vec<Metadata>,
    payload: Vec<u8>,
) -> (r: Result<Vec<u8>, media_object::Error>)
    ensures
        bytes_given(r) == opaque_envelope(
            k@,
            seq![deadline@, packaged@, published@],
            metadata_view(metadata@),
            payload@,
        ),
{
    let key = ObjectKey::new(k.tenant, k.stream, k.track, k.epoch, k.group, k.object, k.version,
        PayloadHash::from_bytes(k.payload_hash))?;
    let time = |t: CanonicalTimestamp| ClockTimestamp::new(t.unix_time_ns, t.clock_id,
        ClockConfidence::estimated(t.maximum_error_ns));
    let mut b = MediaObject::builder(key, ObjectKind::Media, payload).with_deadline(time(deadline)?)
        .with_stage_timestamp(StageTimestamp::new(Stage::Packaged, time(packaged)?))
        .with_stage_timestamp(StageTimestamp::new(Stage::Published, time(published)?));
    for entry in metadata { b = b.with_metadata(entry.name, entry.value); }
    media_object::encode(&b.build()?)
}

/// The bytes of an object, or why it is not valid.
pub open spec fn object_envelope(object: ObjectView) -> Result<Seq<u8>, ObjectError> {
    match object.role {
        RoleView::Initialization { due } => match initialization_envelope(
            object.key,
            object.configuration_epoch,
            due,
            object.metadata,
            object.payload,
        ) {
            Some(bytes) => Ok(bytes),
            None => Err(ObjectError::InvalidInitialization),
        },
        RoleView::Media { keyframe, deadline, packaged, published, dependency } =>
        match media_envelope(
            object.key,
            keyframe,
            object.configuration_epoch,
            seq![deadline, packaged, published],
            dependency,
            object.metadata,
            object.payload,
        ) {
            Some(bytes) => Ok(bytes),
            None => Err(ObjectError::InvalidMedia),
        },
        RoleView::Opaque { deadline, packaged, published } => match opaque_envelope(
            object.key,
            seq![deadline, packaged, published],
            object.metadata,
            object.payload,
        ) {
            Some(bytes) => Ok(bytes),
            None => Err(ObjectError::InvalidMedia),
        },
    }
}

/// Copies what is said of an object.
fn copy_metadata(metadata: &Vec<Metadata>) -> (r: Vec<Metadata>)
    ensures
        metadata_view(r@) == metadata_view(metadata@),
{
    let ghost wanted = metadata_view(metadata@);
    let mut copy: Vec<Metadata> = Vec::new();
    let mut i: usize = 0;
    while i < metadata.len()
        invariant
            i <= metadata@.len(),
            wanted == metadata_view(metadata@),
            metadata_view(copy@) == wanted.take(i as int),
        decreases metadata@.len() - i,
    {
        let ghost older = metadata_view(copy@);
        let entry = Metadata { name: metadata[i].name, value: metadata[i].value.clone() };
        copy.push(entry);
        assert(metadata_view(copy@) =~= older.push((entry.name@, entry.value@)));
        assert(metadata_view(copy@) =~= wanted.take(i + 1));
        i = i + 1;
    }
    assert(wanted.take(i as int) =~= wanted);
    copy
}

/// The bytes of an object, or why it is not valid.
pub fn encode_canonical_media_object(object: &CanonicalObject) -> (r: Result<Vec<u8>, ObjectError>)
    ensures
        match object_envelope(object@) {
            Ok(bytes) => r matches Ok(envelope) && envelope@ == bytes,
            Err(error) => r matches Err(e) && e == error,
        },
{
    let metadata = copy_metadata(&object.metadata);
    let payload = copy_bytes(object.payload.as_slice());
    match object.role {
        ObjectRole::Initialization { due } => {
            match encode_initialization(
                object.key.text(),
                object.configuration_epoch,
                due,
                metadata,
                payload,
            ) {
                Ok(bytes) => Ok(bytes),
                Err(_) => Err(ObjectError::InvalidInitialization),
            }
        },
        ObjectRole::Media { keyframe, deadline, packaged, published, dependency } => {
            match encode_media(
                object.key.text(),
                keyframe,
                object.configuration_epoch,
                deadline,
                packaged,
                published,
                dependency.text(),
                metadata,
                payload,
            ) {
                Ok(bytes) => Ok(bytes),
                Err(_) => Err(ObjectError::InvalidMedia),
            }
        },
        ObjectRole::Opaque { deadline, packaged, published } => {
            match encode_opaque(
                object.key.text(),
                deadline,
                packaged,
                published,
                metadata,
                payload,
            ) {
                Ok(bytes) => Ok(bytes),
                Err(_) => Err(ObjectError::InvalidMedia),
            }
        },
    }
}

/// The configuration that an initialization starts: the first eight bytes of its hash.
pub open spec fn configuration_of(payload: Seq<u8>) -> u64 {
    be_value(payload_digest(payload).subrange(0, 8)) as u64
}

/// The object that an initialization is published as.
pub open spec fn initialization_object(
    stream_id: u64,
    source_epoch: u64,
    payload: Seq<u8>,
    deadline: Option<TimestampView>,
) -> ObjectView {
    ObjectView {
        key: IdentityView {
            tenant: MEDIA_OBJECT_TENANT@,
            stream: decimal(stream_id as nat),
            track: FMP4_INITIALIZATION_TRACK@,
            epoch: source_epoch,
            group: configuration_of(payload),
            object: 0,
            version: MEDIA_OBJECT_VERSION,
            payload_hash: payload_digest(payload),
        },
        role: RoleView::Initialization { due: deadline },
        configuration_epoch: configuration_of(payload),
        metadata: seq![
            ("container"@, "fmp4"@),
            ("payload-format"@, "fmp4-init-v1"@),
        ],
        payload,
    }
}

/// The object that an initialization is published as, and the configuration that it starts.
pub fn build_fmp4_initialization_object_with_deadline(
    stream_id: u64,
    source_epoch: u64,
    payload: &[u8],
    deadline: Option<CanonicalTimestamp>,
) -> (r: (CanonicalObject, u64))
    ensures
        r.0@ == initialization_object(stream_id, source_epoch, payload@, deadline_view(deadline)),
        r.1 == configuration_of(payload@),
        r.0.key@ == r.0@.key,
{
    let payload_hash: [u8; 32] = digest(payload);
    let configuration_epoch: u64 = get_be_u64(payload_hash.as_slice(), 0);
    let mut metadata: Vec<Metadata> = Vec::new();
    metadata.push(Metadata { name: "container", value: "fmp4".to_owned() });
    metadata.push(Metadata { name: "payload-format", value: "fmp4-init-v1".to_owned() });
    let key = ObjectIdentity {
        stream_id,
        track: FMP4_INITIALIZATION_TRACK,
        epoch: source_epoch,
        group: configuration_epoch,
        object: 0,
        payload_hash,
    };
    let object = CanonicalObject {
        key,
        role: ObjectRole::Initialization { due: deadline },
        configuration_epoch,
        metadata,
        payload: copy_bytes(payload),
    };
    assert(object@.metadata =~= initialization_object(
        stream_id,
        source_epoch,
        payload@,
        deadline_view(deadline),
    ).metadata);
    (object, configuration_epoch)
}

/// The object that an initialization is published as where nothing waits for it.
pub fn build_fmp4_initialization_object(stream_id: u64, source_epoch: u64, payload: &[u8]) -> (r: (
    CanonicalObject,
    u64,
))
    ensures
        r.0@ == initialization_object(stream_id, source_epoch, payload@, None),
        r.1 == configuration_of(payload@),
{
    build_fmp4_initialization_object_with_deadline(stream_id, source_epoch, payload, None)
}

/// The time by which something published at a time has to arrive, where it can be written.
pub open spec fn deadline_after(published_at_unix_ns: i64, delivery_budget_ms: u64) -> Option<i64> {
    let deadline = published_at_unix_ns + delivery_budget_ms * 1_000_000;
    if deadline <= i64::MAX {
        Some(deadline as i64)
    } else {
        None
    }
}

/// The time by which something published at a time has to arrive, where it can be written.
pub fn delivery_deadline(published_at_unix_ns: i64, delivery_budget_ms: u64) -> (r: Option<i64>)
    ensures
        r == deadline_after(published_at_unix_ns, delivery_budget_ms),
{
    let deadline: i128 = (published_at_unix_ns as i128) + (delivery_budget_ms as i128) * 1_000_000;
    if deadline <= 0x7fff_ffff_ffff_ffff {
        Some(deadline as i64)
    } else {
        None
    }
}

/// The object that an initialization is published as while its stream is live.
pub fn build_live_fmp4_initialization_object(
    stream_id: u64,
    source_epoch: u64,
    payload: &[u8],
    published_at_unix_ns: i64,
    delivery_budget_ms: u64,
    estimated_clock_error_ns: u64,
) -> (r: Result<(CanonicalObject, u64), ObjectError>)
    ensures
        match deadline_after(published_at_unix_ns, delivery_budget_ms) {
            Some(deadline) => {
                &&& r matches Ok((object, configuration_epoch))
                &&& object@ == initialization_object(
                    stream_id,
                    source_epoch,
                    payload@,
                    Some(contributor_timestamp(deadline, estimated_clock_error_ns)),
                )
                &&& configuration_epoch == configuration_of(payload@)
            },
            None => r matches Err(error) && error == ObjectError::InitializationDeadlineRange,
        },
{
    match delivery_deadline(published_at_unix_ns, delivery_budget_ms) {
        Some(deadline_ns) => {
            let deadline = canonical_contributor_timestamp(deadline_ns, estimated_clock_error_ns);
            Ok(
                build_fmp4_initialization_object_with_deadline(
                    stream_id,
                    source_epoch,
                    payload,
                    Some(deadline),
                ),
            )
        },
        None => Err(ObjectError::InitializationDeadlineRange),
    }
}

/// How urgently a part is sent.
pub open spec fn scheduler_class(part: PublishedFmp4Part) -> Seq<char> {
    if part.video_units > 0 && part.keyframe {
        "video-keyframe"@
    } else if part.audio_units > 0 {
        "audio"@
    } else if part.video_units > 0 {
        "video-delta"@
    } else {
        "data"@
    }
}

/// How urgently a part is sent.
pub fn fmp4_scheduler_class(part: &PublishedFmp4Part) -> (r: &'static str)
    ensures
        r@ == scheduler_class(*part),
{
    if part.video_units > 0 && part.keyframe {
        "video-keyframe"
    } else if part.audio_units > 0 {
        "audio"
    } else if part.video_units > 0 {
        "video-delta"
    } else {
        "data"
    }
}

/// Which tracks a part holds.
pub open spec fn track_composition(part: PublishedFmp4Part) -> Seq<char> {
    match (part.video_units > 0, part.audio_units > 0) {
        (true, true) => "audio+video"@,
        (true, false) => "video"@,
        (false, true) => "audio"@,
        (false, false) => "empty"@,
    }
}

/// Which tracks a part holds.
pub fn fmp4_track_composition(part: &PublishedFmp4Part) -> (r: &'static str)
    ensures
        r@ == track_composition(*part),
{
    match (part.video_units > 0, part.audio_units > 0) {
        (true, true) => "audio+video",
        (true, false) => "video",
        (false, true) => "audio",
        (false, false) => "empty",
    }
}

/// What is said of a part's object, but for its codecs.
pub open spec fn part_properties(part: PublishedFmp4Part) -> Seq<(Seq<char>, Seq<char>)> {
    seq![
        ("container"@, "fmp4"@),
        ("duration-ms"@, decimal(part.duration_ms as nat)),
        ("payload-format"@, "fmp4-slot-v1"@),
        ("scheduler-class"@, scheduler_class(part)),
        ("track-composition"@, track_composition(part)),
    ]
}

/// What is said of a part's object.
pub open spec fn part_metadata(part: PublishedFmp4Part) -> Seq<(Seq<char>, Seq<char>)> {
    let with_video = match part.video_codec {
        Some(codec) => part_properties(part).push(("video-codec"@, codec@)),
        None => part_properties(part),
    };
    match part.audio_codec {
        Some(codec) => with_video.push(("audio-codec"@, codec@)),
        None => with_video,
    }
}

/// The object that a part is published as, or why it is not.
pub open spec fn media_object_of(
    part: PublishedFmp4Part,
    payload: Seq<u8>,
    initialization_key: IdentityView,
    configuration_epoch: u64,
    source_epoch: u64,
    delivery_budget_ms: u64,
    estimated_clock_error_ns: u64,
) -> Result<ObjectView, ObjectError> {
    if delivery_budget_ms == 0 {
        Err(ObjectError::NoBudget)
    } else {
        match deadline_after(part.published_at_unix_ns, delivery_budget_ms) {
            None => Err(ObjectError::MediaDeadlineRange),
            Some(deadline) => Ok(
                ObjectView {
                    key: IdentityView {
                        tenant: MEDIA_OBJECT_TENANT@,
                        stream: decimal(part.stream_id as nat),
                        track: FMP4_MEDIA_TRACK@,
                        epoch: source_epoch,
                        group: 0,
                        object: part.sequence,
                        version: MEDIA_OBJECT_VERSION,
                        payload_hash: payload_digest(payload),
                    },
                    role: RoleView::Media {
                        keyframe: part.keyframe,
                        deadline: contributor_timestamp(deadline, estimated_clock_error_ns),
                        packaged: contributor_timestamp(
                            part.packaged_at_unix_ns,
                            estimated_clock_error_ns,
                        ),
                        published: contributor_timestamp(
                            part.published_at_unix_ns,
                            estimated_clock_error_ns,
                        ),
                        dependency: initialization_key,
                    },
                    configuration_epoch,
                    metadata: part_metadata(part),
                    payload,
                },
            ),
        }
    }
}

/// Says of a part's object what is to be said of it.
fn describe_part(part: &PublishedFmp4Part) -> (r: Vec<Metadata>)
    ensures
        metadata_view(r@) == part_metadata(*part),
{
    let mut metadata: Vec<Metadata> = Vec::new();
    metadata.push(Metadata { name: "container", value: "fmp4".to_owned() });
    metadata.push(Metadata { name: "duration-ms", value: decimal_text(part.duration_ms as u64) });
    metadata.push(Metadata { name: "payload-format", value: "fmp4-slot-v1".to_owned() });
    metadata.push(
        Metadata { name: "scheduler-class", value: fmp4_scheduler_class(part).to_owned() },
    );
    metadata.push(
        Metadata { name: "track-composition", value: fmp4_track_composition(part).to_owned() },
    );
    assert(metadata_view(metadata@) =~= part_properties(*part));
    if let Some(codec) = part.video_codec {
        let ghost older = metadata_view(metadata@);
        metadata.push(Metadata { name: "video-codec", value: codec.to_owned() });
        assert(metadata_view(metadata@) =~= older.push(("video-codec"@, codec@)));
    }
    if let Some(codec) = part.audio_codec {
        let ghost older = metadata_view(metadata@);
        metadata.push(Metadata { name: "audio-codec", value: codec.to_owned() });
        assert(metadata_view(metadata@) =~= older.push(("audio-codec"@, codec@)));
    }
    metadata
}

/// The object that a part is published as, or why it is not.
pub fn build_fmp4_media_object(
    part: &PublishedFmp4Part,
    payload: &[u8],
    initialization_key: ObjectIdentity,
    configuration_epoch: u64,
    source_epoch: u64,
    delivery_budget_ms: u64,
    estimated_clock_error_ns: u64,
) -> (r: Result<CanonicalObject, ObjectError>)
    ensures
        match media_object_of(
            *part,
            payload@,
            initialization_key@,
            configuration_epoch,
            source_epoch,
            delivery_budget_ms,
            estimated_clock_error_ns,
        ) {
            Ok(object) => r matches Ok(built) && built@ == object,
            Err(error) => r matches Err(e) && e == error,
        },
{
    if delivery_budget_ms == 0 {
        return Err(ObjectError::NoBudget);
    }
    let deadline_ns: i64 = match delivery_deadline(part.published_at_unix_ns, delivery_budget_ms) {
        Some(deadline) => deadline,
        None => {
            return Err(ObjectError::MediaDeadlineRange);
        },
    };
    let key = ObjectIdentity {
        stream_id: part.stream_id,
        track: FMP4_MEDIA_TRACK,
        epoch: source_epoch,
        group: 0,
        object: part.sequence,
        payload_hash: digest(payload),
    };
    Ok(
        CanonicalObject {
            key,
            role: ObjectRole::Media {
                keyframe: part.keyframe,
                deadline: canonical_contributor_timestamp(deadline_ns, estimated_clock_error_ns),
                packaged: canonical_contributor_timestamp(
                    part.packaged_at_unix_ns,
                    estimated_clock_error_ns,
                ),
                published: canonical_contributor_timestamp(
                    part.published_at_unix_ns,
                    estimated_clock_error_ns,
                ),
                dependency: initialization_key,
            },
            configuration_epoch,
            metadata: describe_part(part),
            payload: copy_bytes(payload),
        },
    )
}

/// What is said of the object of a part that is not looked into: how long it lasts, and that it is
/// audio.
pub open spec fn opaque_metadata(part: PublishedOpaquePart) -> Seq<(Seq<char>, Seq<char>)> {
    seq![
        ("container"@, "opaque"@),
        ("duration-ms"@, decimal(part.duration_ms as nat)),
        ("scheduler-class"@, "audio"@),
        ("track-composition"@, "audio"@),
    ]
}

/// The object that a part that is not looked into is published as, or why it is not: it holds the
/// part's bytes as they are and depends on nothing.
pub open spec fn opaque_object_of(
    part: PublishedOpaquePart,
    source_epoch: u64,
    delivery_budget_ms: u64,
    estimated_clock_error_ns: u64,
) -> Result<ObjectView, ObjectError> {
    if delivery_budget_ms == 0 {
        Err(ObjectError::NoBudget)
    } else {
        match deadline_after(part.published_at_unix_ns, delivery_budget_ms) {
            None => Err(ObjectError::MediaDeadlineRange),
            Some(deadline) => Ok(
                ObjectView {
                    key: IdentityView {
                        tenant: MEDIA_OBJECT_TENANT@,
                        stream: decimal(part.stream_id as nat),
                        track: OPAQUE_MEDIA_TRACK@,
                        epoch: source_epoch,
                        group: 0,
                        object: part.sequence,
                        version: MEDIA_OBJECT_VERSION,
                        payload_hash: payload_digest(part.bytes@),
                    },
                    role: RoleView::Opaque {
                        deadline: contributor_timestamp(deadline, estimated_clock_error_ns),
                        packaged: contributor_timestamp(
                            part.packaged_at_unix_ns,
                            estimated_clock_error_ns,
                        ),
                        published: contributor_timestamp(
                            part.published_at_unix_ns,
                            estimated_clock_error_ns,
                        ),
                    },
                    configuration_epoch: 0,
                    metadata: opaque_metadata(part),
                    payload: part.bytes@,
                },
            ),
        }
    }
}

/// The object that a part that is not looked into is published as, or why it is not.
pub fn build_opaque_media_object(
    part: &PublishedOpaquePart,
    source_epoch: u64,
    delivery_budget_ms: u64,
    estimated_clock_error_ns: u64,
) -> (r: Result<CanonicalObject, ObjectError>)
    ensures
        match opaque_object_of(*part, source_epoch, delivery_budget_ms, estimated_clock_error_ns) {
            Ok(object) => r matches Ok(built) && built@ == object,
            Err(error) => r matches Err(e) && e == error,
        },
{
    if delivery_budget_ms == 0 {
        return Err(ObjectError::NoBudget);
    }
    let deadline_ns: i64 = match delivery_deadline(part.published_at_unix_ns, delivery_budget_ms) {
        Some(deadline) => deadline,
        None => {
            return Err(ObjectError::MediaDeadlineRange);
        },
    };
    let mut metadata: Vec<Metadata> = Vec::new();
    metadata.push(Metadata { name: "container", value: "opaque".to_owned() });
    metadata.push(Metadata { name: "duration-ms", value: decimal_text(part.duration_ms as u64) });
    metadata.push(Metadata { name: "scheduler-class", value: "audio".to_owned() });
    metadata.push(Metadata { name: "track-composition", value: "audio".to_owned() });
    assert(metadata_view(metadata@) =~= opaque_metadata(*part));
    Ok(
        CanonicalObject {
            key: ObjectIdentity {
                stream_id: part.stream_id,
                track: OPAQUE_MEDIA_TRACK,
                epoch: source_epoch,
                group: 0,
                object: part.sequence,
                payload_hash: digest(part.bytes.as_slice()),
            },
            role: ObjectRole::Opaque {
                deadline: canonical_contributor_timestamp(deadline_ns, estimated_clock_error_ns),
                packaged: canonical_contributor_timestamp(
                    part.packaged_at_unix_ns,
                    estimated_clock_error_ns,
                ),
                published: canonical_contributor_timestamp(
                    part.published_at_unix_ns,
                    estimated_clock_error_ns,
                ),
            },
            configuration_epoch: 0,
            metadata,
            payload: copy_bytes(part.bytes.as_slice()),
        },
    )
}

/// An object of a part that is not looked into holds the part's bytes and declares no dependency; one
/// of a part that is boxed declares exactly the initialization that it needs.
pub proof fn objects_declare_their_dependencies(
    opaque: PublishedOpaquePart,
    boxed: PublishedFmp4Part,
    payload: Seq<u8>,
    initialization_key: IdentityView,
    configuration_epoch: u64,
    source_epoch: u64,
    delivery_budget_ms: u64,
    estimated_clock_error_ns: u64,
)
    ensures
        opaque_object_of(opaque, source_epoch, delivery_budget_ms, estimated_clock_error_ns)
            matches Ok(object) ==> object.dependencies() == Seq::<IdentityView>::empty()
            && object.payload == opaque.bytes@,
        media_object_of(
            boxed,
            payload,
            initialization_key,
            configuration_epoch,
            source_epoch,
            delivery_budget_ms,
            estimated_clock_error_ns,
        ) matches Ok(object) ==> object.dependencies() == seq![initialization_key],
{
}

/// The microsecond by which an object has to arrive, or why there is none.
pub open spec fn wire_deadline(object: ObjectView) -> Result<u64, ObjectError> {
    match object.deadline() {
        None => Err(ObjectError::NoDeadline),
        Some(deadline) => if deadline.unix_time_ns < 0 {
            Err(ObjectError::NegativeDeadline)
        } else {
            Ok(ceil_div(deadline.unix_time_ns as int, 1_000) as u64)
        },
    }
}

/// The microsecond by which an object has to arrive, or why there is none.
pub fn relay_deadline_for_object(object: &CanonicalObject) -> (r: Result<u64, ObjectError>)
    ensures
        r == wire_deadline(object@),
{
    let deadline = match object.role {
        ObjectRole::Initialization { due } => match due {
            Some(deadline) => deadline,
            None => {
                return Err(ObjectError::NoDeadline);
            },
        },
        ObjectRole::Media { deadline, .. } => deadline,
        ObjectRole::Opaque { deadline, .. } => deadline,
    };
    if deadline.unix_time_ns < 0 {
        return Err(ObjectError::NegativeDeadline);
    }
    Ok(ceil_div_u64(deadline.unix_time_ns as u64, 1_000))
}

/// A deadline on the wire is never before the object's own, and less than a microsecond behind it.
pub proof fn wire_deadlines_are_tight(object: ObjectView)
    requires
        wire_deadline(object) is Ok,
    ensures
        wire_deadline(object)->Ok_0 * 1_000 >= object.deadline()->0.unix_time_ns,
        wire_deadline(object)->Ok_0 * 1_000 < object.deadline()->0.unix_time_ns + 1_000,
{
    let ns = object.deadline()->0.unix_time_ns as int;
    crate::arith::ceil_div_is_least_cover(ns, 1_000);
}

/// A part's object says of whom it is, which part, when it was made and when it has to arrive; it is
/// refused exactly where it is given no time or the time cannot be written.
pub proof fn objects_say_what_they_are(
    part: PublishedFmp4Part,
    payload: Seq<u8>,
    dependency: IdentityView,
    configuration_epoch: u64,
    source_epoch: u64,
    budget_ms: u64,
    clock_error_ns: u64,
)
    ensures
        ({
            let r = media_object_of(
                part,
                payload,
                dependency,
                configuration_epoch,
                source_epoch,
                budget_ms,
                clock_error_ns,
            );
            let due = part.published_at_unix_ns + budget_ms * 1_000_000;
            &&& r is Ok <==> budget_ms > 0 && due <= i64::MAX
            &&& budget_ms == 0 ==> r is Err && r->Err_0 is NoBudget
            &&& r matches Ok(object) ==> {
                &&& object.payload == payload
                &&& object.key.stream == decimal(part.stream_id as nat)
                &&& object.key.object == part.sequence
                &&& object.key.epoch == source_epoch
                &&& object.key.payload_hash == payload_digest(payload)
                &&& object.configuration_epoch == configuration_epoch
                &&& object.role is Media
                &&& object.role->Media_keyframe == part.keyframe
                &&& object.role->Media_dependency == dependency
                &&& object.role->Media_deadline.unix_time_ns == due
                &&& object.role->Media_packaged.unix_time_ns == part.packaged_at_unix_ns
                &&& object.role->Media_published.unix_time_ns == part.published_at_unix_ns
                &&& object.role->Media_deadline.maximum_error_ns == clock_error_ns
                &&& object.role->Media_packaged.maximum_error_ns == clock_error_ns
                &&& object.role->Media_published.maximum_error_ns == clock_error_ns
                &&& object.deadline() is Some && object.deadline()->Some_0.unix_time_ns == due
            }
        }),
{
}

/// The object of a part that is not looked into says as much, depends on nothing, and has a number of
/// its own apart from boxed parts.
pub proof fn opaque_objects_say_what_they_are(
    part: PublishedOpaquePart,
    source_epoch: u64,
    budget_ms: u64,
    clock_error_ns: u64,
)
    ensures
        ({
            let r = opaque_object_of(part, source_epoch, budget_ms, clock_error_ns);
            let due = part.published_at_unix_ns + budget_ms * 1_000_000;
            &&& r is Ok <==> budget_ms > 0 && due <= i64::MAX
            &&& budget_ms == 0 ==> r is Err && r->Err_0 is NoBudget
            &&& r matches Ok(object) ==> {
                &&& object.payload == part.bytes@
                &&& object.key.stream == decimal(part.stream_id as nat)
                &&& object.key.object == part.sequence
                &&& object.key.epoch == source_epoch
                &&& object.key.payload_hash == payload_digest(part.bytes@)
                &&& object.role is Opaque
                &&& object.role->Opaque_deadline.unix_time_ns == due
                &&& object.role->Opaque_packaged.unix_time_ns == part.packaged_at_unix_ns
                &&& object.role->Opaque_published.unix_time_ns == part.published_at_unix_ns
                &&& object.role->Opaque_deadline.maximum_error_ns == clock_error_ns
                &&& object.deadline() is Some && object.deadline()->Some_0.unix_time_ns == due
            }
        }),
{
}

/// An initialization's object holds it, is known by its hash and its stream, and has a deadline where
/// one was given.
pub proof fn initializations_say_what_they_are(
    stream_id: u64,
    source_epoch: u64,
    payload: Seq<u8>,
    deadline: Option<TimestampView>,
)
    ensures
        ({
            let object = initialization_object(stream_id, source_epoch, payload, deadline);
            &&& object.payload == payload
            &&& object.key.stream == decimal(stream_id as nat)
            &&& object.key.epoch == source_epoch
            &&& object.key.payload_hash == payload_digest(payload)
            &&& object.configuration_epoch == object.key.group
            &&& object.configuration_epoch == be_value(payload_digest(payload).subrange(0, 8)) as u64
            &&& object.deadline() == deadline
            &&& object.dependencies().len() == 0
        }),
{
}

/// A part is sent as urgently as what it holds asks for, and says which tracks it holds; both are told
/// with its object, and so are its codecs.
pub proof fn parts_say_how_urgent_they_are(part: PublishedFmp4Part)
    ensures
        ({
            let class = scheduler_class(part);
            let tracks = track_composition(part);
            let video = part.video_units > 0;
            let audio = part.audio_units > 0;
            let told = part_metadata(part);
            &&& class == "video-keyframe"@ <==> video && part.keyframe
            &&& class == "audio"@ <==> audio && !(video && part.keyframe)
            &&& class == "video-delta"@ <==> video && !audio && !part.keyframe
            &&& class == "data"@ <==> !video && !audio
            &&& tracks == "audio+video"@ <==> audio && video
            &&& tracks == "audio"@ <==> audio && !video
            &&& tracks == "video"@ <==> video && !audio
            &&& tracks == "empty"@ <==> !audio && !video
            &&& told.contains(("scheduler-class"@, class))
            &&& told.contains(("track-composition"@, tracks))
            &&& told.contains(("duration-ms"@, decimal(part.duration_ms as nat)))
            &&& part.video_codec is Some ==> told.contains(
                ("video-codec"@, part.video_codec->Some_0@),
            )
            &&& part.audio_codec is Some ==> told.contains(
                ("audio-codec"@, part.audio_codec->Some_0@),
            )
        }),
{
    reveal_strlit("video-keyframe");
    reveal_strlit("audio");
    reveal_strlit("video-delta");
    reveal_strlit("data");
    reveal_strlit("audio+video");
    reveal_strlit("video");
    reveal_strlit("empty");
    assert("video-keyframe"@.len() == 14 && "audio"@.len() == 5 && "video-delta"@.len() == 11
        && "data"@.len() == 4 && "audio+video"@.len() == 11 && "video"@.len() == 5
        && "empty"@.len() == 5);
    assert("audio"@[0] == 'a' && "video"@[0] == 'v' && "empty"@[0] == 'e');
    let told = part_metadata(part);
    assert(told[3] == ("scheduler-class"@, scheduler_class(part)));
    assert(told[4] == ("track-composition"@, track_composition(part)));
    assert(told[1] == ("duration-ms"@, decimal(part.duration_ms as nat)));
    if let Some(codec) = part.video_codec {
        assert(told[5] == ("video-codec"@, codec@));
    }
    if let Some(codec) = part.audio_codec {
        assert(told[told.len() - 1] == ("audio-codec"@, codec@));
    }
}

/// Objects of one stream are known apart by their track: initializations, boxed parts and parts that
/// are not looked into each have their own. Times are told by the contributor's clock, and a part that
/// is not looked into is told as audio, with how long it lasts.
pub proof fn objects_are_known_apart(
    boxed: PublishedFmp4Part,
    opaque: PublishedOpaquePart,
    payload: Seq<u8>,
    dependency: IdentityView,
    configuration_epoch: u64,
    source_epoch: u64,
    budget_ms: u64,
    clock_error_ns: u64,
)
    ensures
        ({
            let media = media_object_of(
                boxed,
                payload,
                dependency,
                configuration_epoch,
                source_epoch,
                budget_ms,
                clock_error_ns,
            );
            let other = opaque_object_of(opaque, source_epoch, budget_ms, clock_error_ns);
            let init = initialization_object(boxed.stream_id, source_epoch, payload, None);
            &&& media is Ok ==> media->Ok_0.key.track != init.key.track
                && media->Ok_0.key.tenant == init.key.tenant && media->Ok_0.key.version
                == init.key.version && media->Ok_0.key.group == 0
                && media->Ok_0.role->Media_deadline.clock_id == AV_CONTRIB_CLOCK_ID@
                && media->Ok_0.role->Media_packaged.clock_id == AV_CONTRIB_CLOCK_ID@
                && media->Ok_0.role->Media_published.clock_id == AV_CONTRIB_CLOCK_ID@
                && media->Ok_0.metadata.contains(("container"@, "fmp4"@))
            &&& other is Ok ==> other->Ok_0.key.track != init.key.track
                && other->Ok_0.key.tenant == init.key.tenant && other->Ok_0.key.group == 0
                && other->Ok_0.configuration_epoch == 0
                && other->Ok_0.role->Opaque_deadline.clock_id == AV_CONTRIB_CLOCK_ID@
                && other->Ok_0.metadata.contains(("container"@, "opaque"@))
                && other->Ok_0.metadata.contains(("scheduler-class"@, "audio"@))
                && other->Ok_0.metadata.contains(("track-composition"@, "audio"@))
                && other->Ok_0.metadata.contains(("duration-ms"@, decimal(opaque.duration_ms as nat)))
            &&& media is Ok && other is Ok ==> media->Ok_0.key.track != other->Ok_0.key.track
            &&& init.key.object == 0
            &&& init.metadata.contains(("container"@, "fmp4"@))
        }),
{
    reveal_strlit("muxed-fmp4");
    reveal_strlit("muxed-fmp4-init");
    reveal_strlit("opaque");
    assert(FMP4_MEDIA_TRACK@.len() == 10 && FMP4_INITIALIZATION_TRACK@.len() == 15);
    assert(OPAQUE_MEDIA_TRACK@.len() == 6);
    let told = opaque_metadata(opaque);
    assert(told[0] == ("container"@, "opaque"@));
    assert(told[1] == ("duration-ms"@, decimal(opaque.duration_ms as nat)));
    assert(told[2] == ("scheduler-class"@, "audio"@));
    assert(told[3] == ("track-composition"@, "audio"@));
    assert(part_metadata(boxed)[0] == ("container"@, "fmp4"@));
    let init = initialization_object(boxed.stream_id, source_epoch, payload, None);
    assert(init.metadata[0] == ("container"@, "fmp4"@));
}

} // verus!
