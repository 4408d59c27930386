//! Forwarding into the mesh: what is sent under which numbers, and what is counted of it.
use crate::arith::{ceil_div, max_int, max_u64, what_fits_is_kept, wrapped_u64};
use crate::ranking::{rank, ranked, views, Ranked};
use crate::service::accounts::went_up;
use crate::service::endpoint::{Endpoint, RelayConfigError, RelayEndpoints, RelayPlan};
use crate::service::media_fec::{
    encode_media_frame, frames_coded, media_datagrams, new_media_encoder, MediaFrameMetadata,
    MediaFrameView,
};
use crate::service::stream_fec::{
    carried_slot, carries, datagram_views, encode_stream_fec_payload, fec_datagrams,
    framed_datagrams, geometry_of, stream_fec_geometry, symbol_bytes, wrapped_u32, StreamFecError,
    StreamFecGeometry, MAX_STREAM_FEC_DATAGRAMS,
};
use crate::service::telemetry::{IngestTelemetry, TelemetryView};
use crate::text::text_equal;
use raptorq_datagram_fec::MediaFecEncoder;
use vstd::prelude::*;
use vstd::string::*;

verus! {

/// How forwarding is configured.
#[derive(Debug, Clone, Copy, PartialEq, Eq, Structural)]
pub struct ForwardOptions {
    pub mesh_fec_target: Endpoint,
    pub mesh_media_fec_target: Endpoint,
    pub relay: RelayEndpoints,
    pub relay_exclusive: bool,
    pub wall_clock_estimated_error_ms: u64,
    pub repair_symbols: u32,
    pub symbol_size: u16,
}

/// Why forwarding cannot be set up.
#[derive(Debug, Clone, Copy, PartialEq, Eq, Structural)]
pub enum ForwardConfigError {
    /// Objects are given no time to arrive.
    NoDeadline,
    /// The clock is said to be exact.
    NoClockError,
    /// The clock's error cannot be counted in nanoseconds.
    ClockErrorRange,
    /// The relay session cannot be set up.
    Relay(RelayConfigError),
    /// The mesh is left out and there is no relay session in its place.
    ExclusiveWithoutRelay,
}

impl ForwardConfigError {
    /// What the error says.
    pub open spec fn words(self) -> Seq<char> {
        match self {
            ForwardConfigError::NoDeadline => "--relay-deadline-ms must be positive"@,
            ForwardConfigError::NoClockError =>
                "--wall-clock-estimated-error-ms must be positive"@,
            ForwardConfigError::ClockErrorRange =>
                "--wall-clock-estimated-error-ms exceeds nanosecond range"@,
            ForwardConfigError::Relay(error) => error.words(),
            ForwardConfigError::ExclusiveWithoutRelay =>
                "--relay-exclusive requires --relay-primary-target"@,
        }
    }

    /// What the error says.
    pub fn message(self) -> (r: String)
        ensures
            r@ == self.words(),
    {
        match self {
            ForwardConfigError::NoDeadline => "--relay-deadline-ms must be positive".to_owned(),
            ForwardConfigError::NoClockError =>
                "--wall-clock-estimated-error-ms must be positive".to_owned(),
            ForwardConfigError::ClockErrorRange =>
                "--wall-clock-estimated-error-ms exceeds nanosecond range".to_owned(),
            ForwardConfigError::Relay(error) => error.message(),
            ForwardConfigError::ExclusiveWithoutRelay =>
                "--relay-exclusive requires --relay-primary-target".to_owned(),
        }
    }
}

impl View for Endpoint {
    type V = Endpoint;

    open spec fn view(&self) -> Endpoint {
        *self
    }
}

/// Whether an address stands before another: version four first, then by value, port, flow and
/// scope.
pub open spec fn endpoint_before(a: Endpoint, b: Endpoint) -> bool {
    if a.is_ipv4 != b.is_ipv4 {
        a.is_ipv4
    } else if a.ip != b.ip {
        a.ip < b.ip
    } else if a.port != b.port {
        a.port < b.port
    } else if a.flowinfo != b.flowinfo {
        a.flowinfo < b.flowinfo
    } else {
        a.scope_id < b.scope_id
    }
}

impl Ranked for Endpoint {
    open spec fn goes_before(a: Endpoint, b: Endpoint) -> bool {
        endpoint_before(a, b)
    }

    proof fn order_is_transitive(a: Endpoint, b: Endpoint, c: Endpoint) {
    }

    proof fn order_is_one_way(a: Endpoint, b: Endpoint) {
    }

    fn is_before(&self, other: &Self) -> (r: bool) {
        if self.is_ipv4 != other.is_ipv4 {
            self.is_ipv4
        } else if self.ip != other.ip {
            self.ip < other.ip
        } else if self.port != other.port {
            self.port < other.port
        } else if self.flowinfo != other.flowinfo {
            self.flowinfo < other.flowinfo
        } else {
            self.scope_id < other.scope_id
        }
    }
}

/// A list in which nothing stands twice in a row.
pub open spec fn without_repeats(list: Seq<Endpoint>) -> Seq<Endpoint>
    decreases list.len(),
{
    if list.len() < 2 {
        list
    } else if list[list.len() - 1] == list[list.len() - 2] {
        without_repeats(list.drop_last())
    } else {
        without_repeats(list.drop_last()).push(list.last())
    }
}

/// Takes out what stands twice in a row.
fn drop_repeats(list: &Vec<Endpoint>) -> (r: Vec<Endpoint>)
    ensures
        r@ == without_repeats(list@),
{
    let mut kept: Vec<Endpoint> = Vec::new();
    let mut i: usize = 0;
    assert(list@.take(0) =~= Seq::empty());
    while i < list.len()
        invariant
            i <= list@.len(),
            kept@ == without_repeats(list@.take(i as int)),
        decreases list@.len() - i,
    {
        let ghost head = list@.take(i + 1);
        assert(head.drop_last() =~= list@.take(i as int));
        if i == 0 || list[i] != list[i - 1] {
            proof {
                if i == 0 {
                    assert(kept@ =~= Seq::empty());
                    assert(head =~= kept@.push(list@[0]));
                }
            }
            kept.push(list[i]);
        }
        i = i + 1;
    }
    assert(list@.take(i as int) =~= list@);
    kept
}

/// The targets of audio epochs: the mesh and the relays, in order, each once.
pub open spec fn epoch_targets(options: ForwardOptions) -> Seq<Endpoint> {
    let mesh = seq![options.mesh_media_fec_target];
    let with_primary = match options.relay.primary_target {
        Some(target) => mesh.push(target),
        None => mesh,
    };
    let all = match options.relay.secondary_target {
        Some(target) => with_primary.push(target),
        None => with_primary,
    };
    without_repeats(ranked::<Endpoint>(all))
}

/// What is forwarded into the mesh, and the numbers that are next.
#[derive(Debug)]
pub struct MeshForwarder {
    pub byte_target: Endpoint,
    pub media_target: Endpoint,
    pub next_byte_block_id: u32,
    pub next_byte_packet_sequence: u32,
    pub repair_symbols: u32,
    pub symbol_size: u16,
    pub media_encoder: MediaFecEncoder,
    pub audio_epoch_targets: Vec<Endpoint>,
    pub next_media_sequence: u64,
    pub source_epoch: u64,
    pub delivery_budget_ms: u64,
    pub estimated_clock_error_ns: u64,
    pub relay: Option<RelayPlan>,
    pub relay_exclusive: bool,
}

/// What a [`MeshForwarder`] holds.
pub struct ForwarderView {
    pub byte_target: Endpoint,
    pub media_target: Endpoint,
    pub next_byte_block_id: u32,
    pub next_byte_packet_sequence: u32,
    pub repair_symbols: u32,
    pub symbol_size: u16,
    pub frames_coded: Seq<MediaFrameView>,
    pub audio_epoch_targets: Seq<Endpoint>,
    pub next_media_sequence: u64,
    pub source_epoch: u64,
    pub delivery_budget_ms: u64,
    pub estimated_clock_error_ns: u64,
    pub relay: Option<RelayPlan>,
    pub relay_exclusive: bool,
}

impl View for MeshForwarder {
    type V = ForwarderView;

    open spec fn view(&self) -> ForwarderView {
        ForwarderView {
            byte_target: self.byte_target,
            media_target: self.media_target,
            next_byte_block_id: self.next_byte_block_id,
            next_byte_packet_sequence: self.next_byte_packet_sequence,
            repair_symbols: self.repair_symbols,
            symbol_size: self.symbol_size,
            frames_coded: frames_coded(self.media_encoder),
            audio_epoch_targets: self.audio_epoch_targets@,
            next_media_sequence: self.next_media_sequence,
            source_epoch: self.source_epoch,
            delivery_budget_ms: self.delivery_budget_ms,
            estimated_clock_error_ns: self.estimated_clock_error_ns,
            relay: self.relay,
            relay_exclusive: self.relay_exclusive,
        }
    }
}

/// Why a payload was not forwarded.
#[derive(Debug, Clone, Copy, PartialEq, Eq, Structural)]
pub enum ForwardError {
    /// A datagram would be longer than was authorized.
    LimitExceeded,
    /// The slot cannot be coded.
    Fec(StreamFecError),
    /// The access unit cannot be coded.
    MediaEncode,
}

impl ForwardError {
    /// What the error says.
    pub open spec fn words(self) -> Seq<char> {
        match self {
            ForwardError::LimitExceeded => "authorized media datagram limit exceeded"@,
            ForwardError::Fec(error) => error.words(),
            ForwardError::MediaEncode =>
                "failed to encode media access unit for mesh RaptorQ-FEC"@,
        }
    }

    /// What the error says.
    pub fn message(self) -> (r: String)
        ensures
            r@ == self.words(),
    {
        match self {
            ForwardError::LimitExceeded => "authorized media datagram limit exceeded".to_owned(),
            ForwardError::Fec(error) => error.message(),
            ForwardError::MediaEncode =>
                "failed to encode media access unit for mesh RaptorQ-FEC".to_owned(),
        }
    }
}

/// Bytes of a stream's datagram that are not its symbol.
pub const STREAM_DATAGRAM_OVERHEAD: u32 = 44;

/// The symbol size of a slot: the configured one, or a smaller one with which its datagrams keep to
/// the limit; nothing where no symbol fits, or the limit leaves more room than a symbol size
/// counts.
pub open spec fn slot_symbol_size(configured: u16, max_datagram_bytes: Option<u32>) -> Option<u16> {
    match max_datagram_bytes {
        None => Some(configured),
        Some(limit) => {
            let room = limit - STREAM_DATAGRAM_OVERHEAD;
            if room < 1 || room > u16::MAX {
                None
            } else if room < configured {
                Some(room as u16)
            } else {
                Some(configured)
            }
        },
    }
}

/// The numbers that a slot's datagrams are sent under.
#[derive(Debug, Clone, Copy, PartialEq, Eq, Structural)]
pub struct SlotReservation {
    pub symbol_size: u16,
    pub block_id: u32,
    pub packet_sequence: u32,
    pub geometry: StreamFecGeometry,
}

/// The bytes that a list of datagrams holds together.
pub open spec fn total_bytes(datagrams: Seq<Seq<u8>>) -> nat
    decreases datagrams.len(),
{
    if datagrams.len() == 0 {
        0
    } else {
        total_bytes(datagrams.drop_last()) + datagrams.last().len()
    }
}

/// Counts the bytes that a list of datagrams holds together, as a counter that wraps does.
pub fn datagram_bytes(datagrams: &Vec<Vec<u8>>) -> (r: u64)
    ensures
        r == wrapped_u64(total_bytes(datagram_views(datagrams@)) as int),
{
    proof {
        reveal(wrapped_u64);
    }
    let ghost all = datagram_views(datagrams@);
    let mut total: u64 = 0;
    let mut i: usize = 0;
    while i < datagrams.len()
        invariant
            i <= datagrams@.len(),
            all == datagram_views(datagrams@),
            total == wrapped_u64(total_bytes(all.take(i as int)) as int),
        decreases datagrams@.len() - i,
    {
        let ghost head = all.take(i + 1);
        assert(head.drop_last() =~= all.take(i as int));
        proof {
            reveal(wrapped_u64);
        }
        total = total.wrapping_add(datagrams[i].len() as u64);
        i = i + 1;
    }
    assert(all.take(i as int) =~= all);
    total
}

/// Whether a datagram is longer than a limit.
pub open spec fn some_exceeds(datagrams: Seq<Seq<u8>>, limit: Option<u32>) -> bool {
    limit matches Some(limit) && exists|i: int|
        0 <= i < datagrams.len() && (#[trigger] datagrams[i]).len() > limit
}

/// Decides whether a datagram is longer than a limit.
pub fn any_exceeds(datagrams: &Vec<Vec<u8>>, limit: Option<u32>) -> (r: bool)
    ensures
        r == some_exceeds(datagram_views(datagrams@), limit),
{
    let most: usize = match limit {
        Some(most) => most as usize,
        None => {
            return false;
        },
    };
    let ghost all = datagram_views(datagrams@);
    let mut i: usize = 0;
    while i < datagrams.len()
        invariant
            i <= datagrams@.len(),
            all == datagram_views(datagrams@),
            limit matches Some(l) && l == most,
            forall|k: int| 0 <= k < i ==> (#[trigger] all[k]).len() <= most,
        decreases datagrams@.len() - i,
    {
        assert(all[i as int] == datagrams@[i as int]@);
        if datagrams[i].len() > most {
            return true;
        }
        i = i + 1;
    }
    false
}

impl ForwarderView {
    /// How forwarding starts, or why it cannot.
    pub open spec fn started(options: ForwardOptions, now_us: u64) -> Result<
        ForwarderView,
        ForwardConfigError,
    > {
        if options.relay.deadline_ms == 0 {
            Err(ForwardConfigError::NoDeadline)
        } else if options.wall_clock_estimated_error_ms == 0 {
            Err(ForwardConfigError::NoClockError)
        } else if options.wall_clock_estimated_error_ms * 1_000_000 > u64::MAX {
            Err(ForwardConfigError::ClockErrorRange)
        } else {
            match options.relay.plan() {
                Err(error) => Err(ForwardConfigError::Relay(error)),
                Ok(relay) => if options.relay_exclusive && relay is None {
                    Err(ForwardConfigError::ExclusiveWithoutRelay)
                } else {
                    Ok(
                        ForwarderView {
                            byte_target: options.mesh_fec_target,
                            media_target: options.mesh_media_fec_target,
                            next_byte_block_id: 0,
                            next_byte_packet_sequence: 0,
                            repair_symbols: options.repair_symbols,
                            symbol_size: options.symbol_size,
                            frames_coded: Seq::empty(),
                            audio_epoch_targets: epoch_targets(options),
                            next_media_sequence: 0,
                            source_epoch: if now_us == 0 {
                                1
                            } else {
                                now_us
                            },
                            delivery_budget_ms: options.relay.deadline_ms,
                            estimated_clock_error_ns: (options.wall_clock_estimated_error_ms
                                * 1_000_000) as u64,
                            relay,
                            relay_exclusive: options.relay_exclusive,
                        },
                    )
                },
            }
        }
    }

    /// What a slot is sent under: nothing for an empty slot, or why it is not sent.
    pub open spec fn reservation(self, payload_len: int, max_datagram_bytes: Option<u32>) -> Result<
        Option<SlotReservation>,
        ForwardError,
    > {
        if payload_len == 0 {
            Ok(None)
        } else {
            match slot_symbol_size(self.symbol_size, max_datagram_bytes) {
                None => Err(ForwardError::LimitExceeded),
                Some(symbol_size) => match geometry_of(
                    payload_len,
                    symbol_size,
                    self.repair_symbols,
                ) {
                    Err(error) => Err(ForwardError::Fec(error)),
                    Ok(geometry) => Ok(
                        Some(
                            SlotReservation {
                                symbol_size,
                                block_id: self.next_byte_block_id,
                                packet_sequence: self.next_byte_packet_sequence,
                                geometry,
                            },
                        ),
                    ),
                },
            }
        }
    }

    /// The forwarder once the numbers of a slot are taken.
    pub open spec fn after_reservation(
        self,
        payload_len: int,
        max_datagram_bytes: Option<u32>,
    ) -> ForwarderView {
        match self.reservation(payload_len, max_datagram_bytes) {
            Ok(Some(reservation)) => ForwarderView {
                next_byte_block_id: wrapped_u32(
                    self.next_byte_block_id + reservation.geometry.block_count,
                ),
                next_byte_packet_sequence: wrapped_u32(
                    self.next_byte_packet_sequence + reservation.geometry.packet_count,
                ),
                ..self
            },
            _ => self,
        }
    }
}

impl MeshForwarder {
    /// Sets forwarding up at a time.
    pub fn new(options: ForwardOptions, now_us: u64) -> (r: Result<MeshForwarder, ForwardConfigError>)
        ensures
            match ForwarderView::started(options, now_us) {
                Ok(started) => r matches Ok(forwarder) && forwarder@ == started,
                Err(error) => r matches Err(e) && e == error,
            },
    {
        if options.relay.deadline_ms == 0 {
            return Err(ForwardConfigError::NoDeadline);
        }
        if options.wall_clock_estimated_error_ms == 0 {
            return Err(ForwardConfigError::NoClockError);
        }
        let estimated_clock_error_ns: u64 = match options.wall_clock_estimated_error_ms.checked_mul(
            1_000_000,
        ) {
            Some(nanoseconds) => nanoseconds,
            None => {
                return Err(ForwardConfigError::ClockErrorRange);
            },
        };
        let relay = match options.relay.resolve() {
            Ok(relay) => relay,
            Err(error) => {
                return Err(ForwardConfigError::Relay(error));
            },
        };
        if options.relay_exclusive && relay.is_none() {
            return Err(ForwardConfigError::ExclusiveWithoutRelay);
        }
        let mut targets: Vec<Endpoint> = Vec::new();
        targets.push(options.mesh_media_fec_target);
        assert(targets@ =~= seq![options.mesh_media_fec_target]);
        if let Some(target) = options.relay.primary_target {
            targets.push(target);
        }
        if let Some(target) = options.relay.secondary_target {
            targets.push(target);
        }
        let ghost all = targets@;
        assert(views(all) =~= all);
        let sorted = rank(targets);
        assert(views(sorted@) =~= sorted@);
        let audio_epoch_targets = drop_repeats(&sorted);
        Ok(
            MeshForwarder {
                byte_target: options.mesh_fec_target,
                media_target: options.mesh_media_fec_target,
                next_byte_block_id: 0,
                next_byte_packet_sequence: 0,
                repair_symbols: options.repair_symbols,
                symbol_size: options.symbol_size,
                media_encoder: new_media_encoder(),
                audio_epoch_targets,
                next_media_sequence: 0,
                source_epoch: max_u64(now_us, 1),
                delivery_budget_ms: options.relay.deadline_ms,
                estimated_clock_error_ns,
                relay,
                relay_exclusive: options.relay_exclusive,
            },
        )
    }

    /// Takes the next number for a media access unit.
    pub fn allocate_media_sequence(&mut self) -> (r: u64)
        ensures
            r == old(self)@.next_media_sequence,
            final(self)@ == (ForwarderView {
                next_media_sequence: wrapped_u64(old(self)@.next_media_sequence + 1),
                ..old(self)@
            }),
    {
        proof {
            reveal(wrapped_u64);
        }
        let sequence: u64 = self.next_media_sequence;
        self.next_media_sequence = sequence.wrapping_add(1);
        sequence
    }

    /// Takes the numbers that a slot's datagrams are sent under; an empty slot takes none and is
    /// not sent.
    pub fn reserve_stream_slot(&mut self, payload_len: usize, max_datagram_bytes: Option<u32>) -> (r:
        Result<Option<SlotReservation>, ForwardError>)
        ensures
            r == old(self)@.reservation(payload_len as int, max_datagram_bytes),
            final(self)@ == old(self)@.after_reservation(payload_len as int, max_datagram_bytes),
    {
        if payload_len == 0 {
            return Ok(None);
        }
        let symbol_size: u16 = match max_datagram_bytes {
            None => self.symbol_size,
            Some(limit) => {
                if limit <= STREAM_DATAGRAM_OVERHEAD {
                    return Err(ForwardError::LimitExceeded);
                }
                let room: u32 = limit - STREAM_DATAGRAM_OVERHEAD;
                if room > 0xffff {
                    return Err(ForwardError::LimitExceeded);
                }
                if room < self.symbol_size as u32 {
                    room as u16
                } else {
                    self.symbol_size
                }
            },
        };
        let geometry = match stream_fec_geometry(payload_len, symbol_size, self.repair_symbols) {
            Ok(geometry) => geometry,
            Err(error) => {
                return Err(ForwardError::Fec(error));
            },
        };
        let reservation = SlotReservation {
            symbol_size,
            block_id: self.next_byte_block_id,
            packet_sequence: self.next_byte_packet_sequence,
            geometry,
        };
        self.next_byte_block_id = self.next_byte_block_id.wrapping_add(geometry.block_count);
        self.next_byte_packet_sequence =
        self.next_byte_packet_sequence.wrapping_add(geometry.packet_count);
        Ok(Some(reservation))
    }

    /// The datagrams that carry a slot under the numbers that were reserved for it. None is longer
    /// than the limit that the numbers were reserved with.
    pub fn encode_stream_slot(
        &self,
        stream_id: u64,
        bytes: &[u8],
        reservation: SlotReservation,
    ) -> (r: Result<Vec<Vec<u8>>, ForwardError>)
        requires
            bytes@.len() > 0,
            geometry_of(bytes@.len() as int, reservation.symbol_size, self@.repair_symbols) == Ok::<
                StreamFecGeometry,
                StreamFecError,
            >(reservation.geometry),
        ensures
            match fec_datagrams(
                bytes@,
                reservation.geometry.repair_symbols,
                reservation.symbol_size,
                reservation.block_id,
            ) {
                None => r matches Err(error) && error == ForwardError::Fec(StreamFecError::Encode),
                Some(datagrams) => {
                    &&& r matches Ok(framed)
                    &&& datagram_views(framed@) == framed_datagrams(
                        stream_id,
                        datagrams,
                        reservation.packet_sequence,
                    )
                    &&& framed@.len() == reservation.geometry.packet_count
                    &&& forall|i: int|
                        0 <= i < framed@.len() ==> carries(
                            #[trigger] datagram_views(framed@)[i],
                            stream_id,
                            bytes@.len() as int,
                            reservation.symbol_size,
                            reservation.block_id,
                            wrapped_u32(reservation.packet_sequence + i),
                        )
                    &&& carried_slot(datagram_views(framed@), reservation.symbol_size, bytes@.len())
                        == bytes@
                    &&& forall|configured: u16, limit: Option<u32>|
                        #![trigger slot_symbol_size(configured, limit)]
                        slot_symbol_size(configured, limit) == Some(reservation.symbol_size)
                            ==> !some_exceeds(datagram_views(framed@), limit)
                },
            },
            r is Ok,
    {
        match encode_stream_fec_payload(
            stream_id,
            bytes,
            self.repair_symbols,
            reservation.symbol_size,
            reservation.block_id,
            reservation.packet_sequence,
        ) {
            Ok(framed) => Ok(framed),
            Err(error) => Err(ForwardError::Fec(error)),
        }
    }

    /// The datagrams that carry a media access unit, unless one of them is longer than the limit.
    pub fn encode_media_access_unit(
        &mut self,
        metadata: MediaFrameMetadata,
        payload: &[u8],
        max_datagram_bytes: Option<u32>,
    ) -> (r: Result<Vec<Vec<u8>>, ForwardError>)
        ensures
            final(self)@ == (ForwarderView {
                frames_coded: old(self)@.frames_coded.push(
                    MediaFrameView { metadata, payload: payload@ },
                ),
                ..old(self)@
            }),
            match media_datagrams(
                old(self)@.frames_coded,
                MediaFrameView { metadata, payload: payload@ },
            ) {
                None => r matches Err(error) && error == ForwardError::MediaEncode,
                Some(datagrams) => if some_exceeds(datagrams, max_datagram_bytes) {
                    r matches Err(error) && error == ForwardError::LimitExceeded
                } else {
                    r matches Ok(sent) && datagram_views(sent@) == datagrams
                },
            },
    {
        match encode_media_frame(&mut self.media_encoder, metadata, payload) {
            None => Err(ForwardError::MediaEncode),
            Some(datagrams) => if any_exceeds(&datagrams, max_datagram_bytes) {
                Err(ForwardError::LimitExceeded)
            } else {
                Ok(datagrams)
            },
        }
    }
}

/// How long each stage of forwarding a payload took.
#[derive(Debug, Clone, Copy, PartialEq, Eq, Structural)]
pub struct ForwardTimings {
    pub encode_wait_us: u64,
    pub encode_us: u64,
    pub send_us: u64,
    pub telemetry_us: u64,
    pub total_us: u64,
}

/// What became of a payload that was to be forwarded.
#[derive(Debug, Clone, Copy)]
pub enum ForwardOutcome<'a> {
    /// It was refused before it was coded.
    Refused(&'a str),
    /// It could not be coded.
    NotEncoded(&'a str),
    /// A datagram was longer than was authorized. A stream slot is then not counted as coded.
    OverLimit,
    /// A datagram could not be sent.
    NotSent(&'a str),
    /// Every datagram was sent.
    Sent { payload_bytes: u64, datagrams: u64, datagram_bytes: u64 },
}

/// What is counted of a payload that was to be forwarded.
pub open spec fn forward_counted(
    telemetry: TelemetryView,
    kind: Seq<char>,
    stream_id: u64,
    target: Seq<char>,
    outcome: ForwardOutcome,
    timings: ForwardTimings,
    now_ms: u64,
) -> TelemetryView {
    let waited = telemetry.forward_staged(kind, "encode_wait"@, timings.encode_wait_us);
    let encoded = waited.forward_staged(kind, "encode"@, timings.encode_us);
    let sent = encoded.forward_staged(kind, "send"@, timings.send_us);
    match outcome {
        ForwardOutcome::Refused(error) => waited.mesh_failed(
            kind,
            stream_id,
            target,
            error@,
            now_ms,
        ).forward_timed(kind, timings.total_us),
        ForwardOutcome::NotEncoded(error) => encoded.mesh_failed(
            kind,
            stream_id,
            target,
            error@,
            now_ms,
        ).forward_timed(kind, timings.total_us),
        ForwardOutcome::OverLimit => if kind == "stream"@ {
            waited
        } else {
            encoded
        },
        ForwardOutcome::NotSent(error) => sent.mesh_failed(
            kind,
            stream_id,
            target,
            error@,
            now_ms,
        ).forward_timed(kind, timings.total_us),
        ForwardOutcome::Sent { payload_bytes, datagrams, datagram_bytes } => sent.mesh_forwarded(
            kind,
            stream_id,
            target,
            payload_bytes,
            datagrams,
            datagram_bytes,
            now_ms,
        ).forward_staged(kind, "telemetry"@, timings.telemetry_us).forward_timed(
            kind,
            timings.total_us,
        ),
    }
}

impl IngestTelemetry {
    /// Counts what became of a payload that was to be forwarded.
    pub fn record_forward(
        &mut self,
        kind: &str,
        stream_id: u64,
        target: &str,
        outcome: ForwardOutcome,
        timings: ForwardTimings,
        now_ms: u64,
    )
        requires
            old(self).wf(),
        ensures
            final(self)@ == forward_counted(
                old(self)@,
                kind@,
                stream_id,
                target@,
                outcome,
                timings,
                now_ms,
            ),
            final(self).wf(),
    {
        self.record_mesh_forward_stage_duration(kind, "encode_wait", timings.encode_wait_us);
        if let ForwardOutcome::Refused(error) = outcome {
            self.record_mesh_forward_error(kind, stream_id, target, error, now_ms);
            self.record_mesh_forward_duration(kind, timings.total_us);
            return;
        }
        if let ForwardOutcome::OverLimit = outcome {
            if text_equal(kind, "stream") {
                return;
            }
        }
        self.record_mesh_forward_stage_duration(kind, "encode", timings.encode_us);
        match outcome {
            ForwardOutcome::Refused(_) | ForwardOutcome::OverLimit => {},
            ForwardOutcome::NotEncoded(error) => {
                self.record_mesh_forward_error(kind, stream_id, target, error, now_ms);
                self.record_mesh_forward_duration(kind, timings.total_us);
            },
            ForwardOutcome::NotSent(error) => {
                self.record_mesh_forward_stage_duration(kind, "send", timings.send_us);
                self.record_mesh_forward_error(kind, stream_id, target, error, now_ms);
                self.record_mesh_forward_duration(kind, timings.total_us);
            },
            ForwardOutcome::Sent { payload_bytes, datagrams, datagram_bytes } => {
                self.record_mesh_forward_stage_duration(kind, "send", timings.send_us);
                self.record_mesh_forward_success(
                    kind,
                    stream_id,
                    target,
                    payload_bytes,
                    datagrams,
                    datagram_bytes,
                    now_ms,
                );
                self.record_mesh_forward_stage_duration(kind, "telemetry", timings.telemetry_us);
                self.record_mesh_forward_duration(kind, timings.total_us);
            },
        }
    }
}

/// Why a payload did not go out.
#[derive(Debug)]
pub enum ForwardFailure {
    /// It cannot be coded, or not as authorized.
    Refused(ForwardError),
    /// It could not be sent, and why.
    Unsent(String),
}

impl ForwardFailure {
    /// What the failure says.
    pub open spec fn words(self) -> Seq<char> {
        match self {
            ForwardFailure::Refused(error) => error.words(),
            ForwardFailure::Unsent(reason) => reason@,
        }
    }

    /// What the failure says.
    pub fn message(&self) -> (r: String)
        ensures
            r@ == self.words(),
    {
        match self {
            ForwardFailure::Refused(error) => error.message(),
            ForwardFailure::Unsent(reason) => reason.as_str().to_owned(),
        }
    }
}

/// What to do next about a payload.
#[derive(Debug)]
pub enum ForwardStep {
    /// Code it under these numbers.
    Encode(SlotReservation),
    /// Send these datagrams, in order.
    Send(Vec<Vec<u8>>),
    /// Nothing: it did not go out.
    Fail(ForwardFailure),
    /// Nothing: it went out in so many datagrams.
    Finish(usize),
}

/// What is counted once numbers were asked for: a slot that cannot be coded, but not one that is not
/// authorized.
pub open spec fn reserving_counted(
    telemetry: TelemetryView,
    stream_id: u64,
    target: Seq<char>,
    reserved: Result<Option<SlotReservation>, ForwardError>,
    timings: ForwardTimings,
    now_ms: u64,
) -> TelemetryView {
    match reserved {
        Err(ForwardError::LimitExceeded) | Ok(_) => telemetry,
        Err(error) => telemetry.forward_staged("stream"@, "encode_wait"@, timings.encode_wait_us).mesh_failed(
            "stream"@,
            stream_id,
            target,
            error.words(),
            now_ms,
        ).forward_timed("stream"@, timings.total_us),
    }
}

/// What is counted once a payload was to be coded.
pub open spec fn coding_counted(
    telemetry: TelemetryView,
    kind: Seq<char>,
    stream_id: u64,
    target: Seq<char>,
    encoded: Result<Seq<Seq<u8>>, ForwardError>,
    limit: Option<u32>,
    timings: ForwardTimings,
    now_ms: u64,
) -> TelemetryView {
    match encoded {
        Ok(datagrams) => if some_exceeds(datagrams, limit) {
            forward_counted(
                telemetry,
                kind,
                stream_id,
                target,
                ForwardOutcome::OverLimit,
                timings,
                now_ms,
            )
        } else {
            telemetry
        },
        Err(ForwardError::LimitExceeded) => forward_counted(
            telemetry,
            kind,
            stream_id,
            target,
            ForwardOutcome::OverLimit,
            timings,
            now_ms,
        ),
        Err(error) => telemetry.forward_staged(kind, "encode_wait"@, timings.encode_wait_us).forward_staged(
            kind,
            "encode"@,
            timings.encode_us,
        ).mesh_failed(kind, stream_id, target, error.words(), now_ms).forward_timed(
            kind,
            timings.total_us,
        ),
    }
}

/// The datagrams of a result.
pub open spec fn encoded_view(encoded: Result<Vec<Vec<u8>>, ForwardError>) -> Result<
    Seq<Seq<u8>>,
    ForwardError,
> {
    match encoded {
        Ok(datagrams) => Ok(datagram_views(datagrams@)),
        Err(error) => Err(error),
    }
}

impl IngestTelemetry {
    /// Decides what becomes of a slot once numbers were asked for, and counts it where it ends
    /// here: an empty slot is done with.
    pub fn slot_reserved(
        &mut self,
        stream_id: u64,
        target: &str,
        reserved: Result<Option<SlotReservation>, ForwardError>,
        timings: ForwardTimings,
        now_ms: u64,
    ) -> (r: ForwardStep)
        requires
            old(self).wf(),
        ensures
            final(self)@ == reserving_counted(
                old(self)@,
                stream_id,
                target@,
                reserved,
                timings,
                now_ms,
            ),
            final(self).wf(),
            match reserved {
                Ok(Some(reservation)) => r matches ForwardStep::Encode(given) && given
                    == reservation,
                Ok(None) => r matches ForwardStep::Finish(datagrams) && datagrams == 0,
                Err(error) => r matches ForwardStep::Fail(ForwardFailure::Refused(e)) && e == error,
            },
    {
        match reserved {
            Ok(Some(reservation)) => ForwardStep::Encode(reservation),
            Ok(None) => ForwardStep::Finish(0),
            Err(error) => {
                if error != ForwardError::LimitExceeded {
                    let message = error.message();
                    self.record_forward(
                        "stream",
                        stream_id,
                        target,
                        ForwardOutcome::Refused(message.as_str()),
                        timings,
                        now_ms,
                    );
                }
                ForwardStep::Fail(ForwardFailure::Refused(error))
            },
        }
    }

    /// Decides what becomes of a payload once it was to be coded, and counts it where it ends here:
    /// datagrams that are longer than authorized are not sent.
    pub fn payload_coded(
        &mut self,
        kind: &str,
        stream_id: u64,
        target: &str,
        encoded: Result<Vec<Vec<u8>>, ForwardError>,
        limit: Option<u32>,
        timings: ForwardTimings,
        now_ms: u64,
    ) -> (r: ForwardStep)
        requires
            old(self).wf(),
        ensures
            final(self)@ == coding_counted(
                old(self)@,
                kind@,
                stream_id,
                target@,
                encoded_view(encoded),
                limit,
                timings,
                now_ms,
            ),
            final(self).wf(),
            match encoded {
                Ok(datagrams) => if some_exceeds(datagram_views(datagrams@), limit) {
                    r matches ForwardStep::Fail(ForwardFailure::Refused(error)) && error
                        == ForwardError::LimitExceeded
                } else {
                    r matches ForwardStep::Send(sent) && sent == datagrams
                },
                Err(error) => r matches ForwardStep::Fail(ForwardFailure::Refused(e)) && e == error,
            },
    {
        let datagrams = match encoded {
            Ok(datagrams) => datagrams,
            Err(error) => {
                let message = error.message();
                let outcome = if error == ForwardError::LimitExceeded {
                    ForwardOutcome::OverLimit
                } else {
                    ForwardOutcome::NotEncoded(message.as_str())
                };
                self.record_forward(kind, stream_id, target, outcome, timings, now_ms);
                return ForwardStep::Fail(ForwardFailure::Refused(error));
            },
        };
        if any_exceeds(&datagrams, limit) {
            self.record_forward(
                kind,
                stream_id,
                target,
                ForwardOutcome::OverLimit,
                timings,
                now_ms,
            );
            return ForwardStep::Fail(ForwardFailure::Refused(ForwardError::LimitExceeded));
        }
        ForwardStep::Send(datagrams)
    }

    /// Counts a payload whose datagrams were sent, or not all of them, and says what became of it.
    pub fn payload_sent(
        &mut self,
        kind: &str,
        stream_id: u64,
        target: &str,
        payload_len: usize,
        datagrams: &Vec<Vec<u8>>,
        sent: Result<(), String>,
        timings: ForwardTimings,
        now_ms: u64,
    ) -> (r: ForwardStep)
        requires
            old(self).wf(),
        ensures
            final(self).wf(),
            match sent {
                Ok(_) => {
                    &&& r matches ForwardStep::Finish(count) && count == datagrams@.len()
                    &&& final(self)@ == forward_counted(
                        old(self)@,
                        kind@,
                        stream_id,
                        target@,
                        ForwardOutcome::Sent {
                            payload_bytes: payload_len as u64,
                            datagrams: datagrams@.len() as u64,
                            datagram_bytes: wrapped_u64(
                                total_bytes(datagram_views(datagrams@)) as int,
                            ),
                        },
                        timings,
                        now_ms,
                    )
                },
                Err(reason) => {
                    &&& r matches ForwardStep::Fail(ForwardFailure::Unsent(why)) && why == reason
                    &&& final(self)@ == old(self)@.forward_staged(
                        kind@,
                        "encode_wait"@,
                        timings.encode_wait_us,
                    ).forward_staged(kind@, "encode"@, timings.encode_us).forward_staged(
                        kind@,
                        "send"@,
                        timings.send_us,
                    ).mesh_failed(kind@, stream_id, target@, reason@, now_ms).forward_timed(
                        kind@,
                        timings.total_us,
                    )
                },
            },
    {
        match sent {
            Ok(_) => {
                let count: usize = datagrams.len();
                let outcome = ForwardOutcome::Sent {
                    payload_bytes: payload_len as u64,
                    datagrams: count as u64,
                    datagram_bytes: datagram_bytes(datagrams),
                };
                self.record_forward(kind, stream_id, target, outcome, timings, now_ms);
                ForwardStep::Finish(count)
            },
            Err(reason) => {
                self.record_forward(
                    kind,
                    stream_id,
                    target,
                    ForwardOutcome::NotSent(reason.as_str()),
                    timings,
                    now_ms,
                );
                ForwardStep::Fail(ForwardFailure::Unsent(reason))
            },
        }
    }
}

/// What became of one datagram sent to one target.
#[derive(Debug, Clone, Copy, PartialEq, Eq, Structural)]
pub enum SendResult {
    /// So many bytes went out.
    Sent(usize),
    /// The send failed.
    Failed,
}

/// The first target to which a datagram did not go out whole.
pub open spec fn first_unsent(results: Seq<SendResult>, datagram_len: int) -> Option<int>
    decreases results.len(),
{
    if results.len() == 0 {
        None
    } else {
        match first_unsent(results.drop_last(), datagram_len) {
            Some(at) => Some(at),
            None => if results.last() == SendResult::Sent(datagram_len as usize) {
                None
            } else {
                Some(results.len() - 1)
            },
        }
    }
}

/// The first target to which a datagram did not go out whole. Later targets are tried all the same.
pub fn first_unsent_target(results: &Vec<SendResult>, datagram_len: usize) -> (r: Option<usize>)
    ensures
        match first_unsent(results@, datagram_len as int) {
            Some(at) => r matches Some(index) && index == at && index < results@.len(),
            None => r is None,
        },
{
    let mut first: Option<usize> = None;
    let mut i: usize = 0;
    while i < results.len()
        invariant
            i <= results@.len(),
            match first_unsent(results@.take(i as int), datagram_len as int) {
                Some(at) => first matches Some(index) && index == at && index < i,
                None => first is None,
            },
        decreases results@.len() - i,
    {
        let ghost head = results@.take(i + 1);
        assert(head.drop_last() =~= results@.take(i as int));
        if first.is_none() {
            let whole = match results[i] {
                SendResult::Sent(sent) => sent == datagram_len,
                SendResult::Failed => false,
            };
            if !whole {
                first = Some(i);
            }
        }
        i = i + 1;
    }
    assert(results@.take(i as int) =~= results@);
    first
}

/// A slot that is asked for: its length, and the limit that is authorized for its datagrams.
pub struct SlotAsked {
    pub payload_len: nat,
    pub limit: Option<u32>,
}

/// A forwarder once slots were asked for, one behind the other.
pub open spec fn after_slots(forwarder: ForwarderView, slots: Seq<SlotAsked>) -> ForwarderView
    decreases slots.len(),
{
    if slots.len() == 0 {
        forwarder
    } else {
        after_slots(forwarder, slots.drop_last()).after_reservation(
            slots.last().payload_len as int,
            slots.last().limit,
        )
    }
}

/// What a slot is sent under, once those in front of it were asked for.
pub open spec fn nth_reservation(forwarder: ForwarderView, slots: Seq<SlotAsked>, n: int) -> Result<
    Option<SlotReservation>,
    ForwardError,
> {
    after_slots(forwarder, slots.take(n)).reservation(
        slots[n].payload_len as int,
        slots[n].limit,
    )
}

/// The blocks that a slot takes.
pub open spec fn slot_blocks(reserved: Result<Option<SlotReservation>, ForwardError>) -> int {
    match reserved {
        Ok(Some(reservation)) => reservation.geometry.block_count as int,
        _ => 0,
    }
}

/// The datagrams that a slot takes.
pub open spec fn slot_packets(reserved: Result<Option<SlotReservation>, ForwardError>) -> int {
    match reserved {
        Ok(Some(reservation)) => reservation.geometry.packet_count as int,
        _ => 0,
    }
}

/// The blocks that slots take.
pub open spec fn blocks_taken(forwarder: ForwarderView, slots: Seq<SlotAsked>) -> int
    decreases slots.len(),
{
    if slots.len() == 0 {
        0
    } else {
        blocks_taken(forwarder, slots.drop_last()) + slot_blocks(
            nth_reservation(forwarder, slots, slots.len() - 1),
        )
    }
}

/// The datagrams that slots take.
pub open spec fn packets_taken(forwarder: ForwarderView, slots: Seq<SlotAsked>) -> int
    decreases slots.len(),
{
    if slots.len() == 0 {
        0
    } else {
        packets_taken(forwarder, slots.drop_last()) + slot_packets(
            nth_reservation(forwarder, slots, slots.len() - 1),
        )
    }
}

/// Counting on around the end of the range, in two steps, is counting on in one.
proof fn wrapping_twice(start: int, a: int)
    ensures
        wrapped_u32(wrapped_u32(start) + a) == wrapped_u32(start + a),
{
}

/// A slot takes the next numbers, at least as many for datagrams as for blocks.
proof fn a_slot_takes_its_numbers(forwarder: ForwarderView, payload_len: int, limit: Option<u32>)
    requires
        payload_len >= 0,
    ensures
        ({
            let reserved = forwarder.reservation(payload_len, limit);
            &&& 0 <= slot_blocks(reserved) <= slot_packets(reserved)
            &&& reserved matches Ok(Some(reservation)) ==> {
                &&& slot_blocks(reserved) == 1
                &&& slot_packets(reserved) > 0
                &&& reservation.block_id == forwarder.next_byte_block_id
                &&& reservation.packet_sequence == forwarder.next_byte_packet_sequence
                &&& payload_len > 0
            }
            &&& forwarder.after_reservation(payload_len, limit) == (ForwarderView {
                next_byte_block_id: wrapped_u32(
                    forwarder.next_byte_block_id + slot_blocks(reserved),
                ),
                next_byte_packet_sequence: wrapped_u32(
                    forwarder.next_byte_packet_sequence + slot_packets(reserved),
                ),
                ..forwarder
            })
        }),
{
    match slot_symbol_size(forwarder.symbol_size, limit) {
        Some(symbol_size) => {
            slots_take_one_block(payload_len, symbol_size, forwarder.repair_symbols);
        },
        None => {},
    }
}

/// Slots take numbers one behind the other: what they leave of a forwarder differs from it in the
/// numbers that they took, and in nothing else.
proof fn slots_take_numbers_in_order(forwarder: ForwarderView, slots: Seq<SlotAsked>)
    ensures
        after_slots(forwarder, slots) == (ForwarderView {
            next_byte_block_id: wrapped_u32(
                forwarder.next_byte_block_id + blocks_taken(forwarder, slots),
            ),
            next_byte_packet_sequence: wrapped_u32(
                forwarder.next_byte_packet_sequence + packets_taken(forwarder, slots),
            ),
            ..forwarder
        }),
        0 <= blocks_taken(forwarder, slots) <= packets_taken(forwarder, slots),
    decreases slots.len(),
{
    if slots.len() > 0 {
        let n = slots.len() - 1;
        let before = after_slots(forwarder, slots.drop_last());
        slots_take_numbers_in_order(forwarder, slots.drop_last());
        assert(slots.take(n) =~= slots.drop_last());
        a_slot_takes_its_numbers(before, slots[n].payload_len as int, slots[n].limit);
        let reserved = nth_reservation(forwarder, slots, n);
        wrapping_twice(
            forwarder.next_byte_block_id + blocks_taken(forwarder, slots.drop_last()),
            slot_blocks(reserved),
        );
        wrapping_twice(
            forwarder.next_byte_packet_sequence + packets_taken(forwarder, slots.drop_last()),
            slot_packets(reserved),
        );
    }
}

/// What slots take is no less than what the first of them take.
proof fn slots_take_more(forwarder: ForwarderView, slots: Seq<SlotAsked>, n: int)
    requires
        0 <= n <= slots.len(),
    ensures
        blocks_taken(forwarder, slots.take(n)) <= blocks_taken(forwarder, slots),
        packets_taken(forwarder, slots.take(n)) <= packets_taken(forwarder, slots),
    decreases slots.len(),
{
    if n == slots.len() {
        assert(slots.take(n) =~= slots);
    } else {
        let last = slots.len() - 1;
        assert(slots.drop_last().take(n) =~= slots.take(n));
        slots_take_more(forwarder, slots.drop_last(), n);
        a_slot_takes_its_numbers(
            after_slots(forwarder, slots.take(last)),
            slots[last].payload_len as int,
            slots[last].limit,
        );
    }
}

/// Of slots that are asked for one behind the other, whatever their lengths and limits, no two share
/// a block, nor a datagram's number, as long as all of them together take fewer datagrams than there
/// are numbers. An empty slot takes none.
pub proof fn slots_keep_their_numbers_apart(
    forwarder: ForwarderView,
    slots: Seq<SlotAsked>,
    a: int,
    b: int,
    i: int,
    j: int,
)
    requires
        packets_taken(forwarder, slots) <= u32::MAX,
        0 <= a < b < slots.len(),
        nth_reservation(forwarder, slots, a) matches Ok(Some(_)),
        nth_reservation(forwarder, slots, b) matches Ok(Some(_)),
        0 <= i < (nth_reservation(forwarder, slots, a)->Ok_0->0).geometry.packet_count,
        0 <= j < (nth_reservation(forwarder, slots, b)->Ok_0->0).geometry.packet_count,
    ensures
        ({
            let first = nth_reservation(forwarder, slots, a)->Ok_0->0;
            let second = nth_reservation(forwarder, slots, b)->Ok_0->0;
            &&& first.block_id != second.block_id
            &&& wrapped_u32(first.packet_sequence + i) != wrapped_u32(second.packet_sequence + j)
        }),
        slots[a].payload_len > 0,
        slots[b].payload_len > 0,
{
    let before = after_slots(forwarder, slots.take(a));
    let later = after_slots(forwarder, slots.take(b));
    slots_take_numbers_in_order(forwarder, slots.take(a));
    slots_take_numbers_in_order(forwarder, slots.take(b));
    a_slot_takes_its_numbers(before, slots[a].payload_len as int, slots[a].limit);
    a_slot_takes_its_numbers(later, slots[b].payload_len as int, slots[b].limit);
    numbers_go_on(forwarder, slots, a, b);
    numbers_go_on(forwarder, slots, b, slots.len() as int);
    assert(slots.take(slots.len() as int) =~= slots);
    wrapping_twice(
        forwarder.next_byte_packet_sequence + packets_taken(forwarder, slots.take(a)),
        i,
    );
    wrapping_twice(
        forwarder.next_byte_packet_sequence + packets_taken(forwarder, slots.take(b)),
        j,
    );
    numbers_come_round_late(
        forwarder.next_byte_packet_sequence,
        packets_taken(forwarder, slots.take(a)) + i,
        packets_taken(forwarder, slots.take(b)) + j,
    );
    numbers_come_round_late(
        forwarder.next_byte_block_id,
        blocks_taken(forwarder, slots.take(a)),
        blocks_taken(forwarder, slots.take(b)),
    );
}

/// What slots in front of another take leaves out what that one takes, and what is taken up to a
/// later one does not.
proof fn numbers_go_on(forwarder: ForwarderView, slots: Seq<SlotAsked>, a: int, b: int)
    requires
        0 <= a < b <= slots.len(),
    ensures
        blocks_taken(forwarder, slots.take(a)) + slot_blocks(nth_reservation(forwarder, slots, a))
            <= blocks_taken(forwarder, slots.take(b)),
        packets_taken(forwarder, slots.take(a)) + slot_packets(
            nth_reservation(forwarder, slots, a),
        ) <= packets_taken(forwarder, slots.take(b)),
        blocks_taken(forwarder, slots.take(b)) <= packets_taken(forwarder, slots.take(b)),
{
    let upto = slots.take(a + 1);
    assert(upto.drop_last() =~= slots.take(a));
    assert(upto.take(a) =~= slots.take(a));
    assert(upto[a] == slots[a]);
    assert(slots.take(b).take(a + 1) =~= upto);
    slots_take_more(forwarder, slots.take(b), a + 1);
    slots_take_numbers_in_order(forwarder, slots.take(b));
}

/// Numbers that count on from another differ as long as they have not come round.
proof fn numbers_come_round_late(start: u32, a: int, b: int)
    requires
        0 <= a < b <= u32::MAX,
    ensures
        wrapped_u32(start + a) != wrapped_u32(start + b),
{
}

/// A slot that can be coded takes one block, and no more datagrams than are allowed.
proof fn slots_take_one_block(payload_len: int, symbol_size: u16, repair_symbols: u32)
    requires
        payload_len >= 0,
    ensures
        geometry_of(payload_len, symbol_size, repair_symbols) matches Ok(geometry)
            ==> geometry.block_count == 1 && 0 < geometry.packet_count <= MAX_STREAM_FEC_DATAGRAMS,
{
    let length = max_int(payload_len, 1);
    let size = symbol_bytes(symbol_size);
    ceil_div_is_not_negative(payload_len, size);
    ceil_div_is_not_negative(length, 4 * size);
    let blocks = ceil_div(length, 4 * size);
    assert(blocks * repair_symbols >= 0) by (nonlinear_arith)
        requires
            blocks >= 0,
            repair_symbols >= 0,
    ;
}

/// A count of what covers something is no debt.
proof fn ceil_div_is_not_negative(a: int, b: int)
    requires
        a >= 0,
        b > 0,
    ensures
        ceil_div(a, b) >= 0,
        a > 0 ==> ceil_div(a, b) > 0,
{
    assert(a / b >= 0 && (a > 0 && a / b == 0 ==> a % b == a)) by (nonlinear_arith)
        requires
            a >= 0,
            b > 0,
    ;
}

/// Where the length of datagrams is authorized, none of a slot's is longer.
pub proof fn authorized_slots_keep_their_limit(
    forwarder: ForwarderView,
    payload_len: int,
    limit: u32,
    stream_id: u64,
    datagram: Seq<u8>,
    packet_sequence: u32,
)
    requires
        forwarder.reservation(payload_len, Some(limit)) matches Ok(Some(_)),
        ({
            let reservation = forwarder.reservation(payload_len, Some(limit))->Ok_0->0;
            carries(
                datagram,
                stream_id,
                payload_len,
                reservation.symbol_size,
                reservation.block_id,
                packet_sequence,
            )
        }),
    ensures
        datagram.len() <= limit,
{
}

/// An audio epoch goes to every configured target, and to none twice.
pub proof fn epoch_targets_are_the_configured_ones(options: ForwardOptions, target: Endpoint)
    ensures
        epoch_targets(options).contains(target) <==> (target == options.mesh_media_fec_target
            || options.relay.primary_target == Some(target) || options.relay.secondary_target
            == Some(target)),
        epoch_targets(options).no_duplicates(),
{
    let mesh = seq![options.mesh_media_fec_target];
    let with_primary = match options.relay.primary_target {
        Some(target) => mesh.push(target),
        None => mesh,
    };
    let all = match options.relay.secondary_target {
        Some(target) => with_primary.push(target),
        None => with_primary,
    };
    let sorted = ranked::<Endpoint>(all);
    crate::ranking::ranking_sorts::<Endpoint>(all);
    repeats_leave(sorted);
    assert(all.to_multiset().contains(target) <==> all.contains(target)) by {
        all.to_multiset_ensures();
    }
    assert(sorted.to_multiset().contains(target) <==> sorted.contains(target)) by {
        sorted.to_multiset_ensures();
    }
    assert(all[0] == options.mesh_media_fec_target);
    if let Some(primary) = options.relay.primary_target {
        assert(all[1] == primary);
    }
    if let Some(secondary) = options.relay.secondary_target {
        assert(all[all.len() - 1] == secondary);
    }
}

/// Taking out what stands twice in a row leaves each thing of an ordered list once.
proof fn repeats_leave(list: Seq<Endpoint>)
    requires
        crate::ranking::in_order::<Endpoint>(list),
    ensures
        without_repeats(list).no_duplicates(),
        forall|x: Endpoint| without_repeats(list).contains(x) <==> list.contains(x),
        list.len() > 0 ==> without_repeats(list).len() > 0 && without_repeats(list).last()
            == list.last(),
    decreases list.len(),
{
    if list.len() >= 2 {
        let head = list.drop_last();
        repeats_leave(head);
        let kept = without_repeats(head);
        let last = list.last();
        assert(list =~= head.push(last));
        assert forall|x: Endpoint| list.contains(x) <==> (head.contains(x) || x == last) by {
            if head.contains(x) {
                let i = head.index_of(x);
                assert(list[i] == x);
            }
            if x == last {
                assert(list[list.len() - 1] == x);
            }
        }
        if list[list.len() - 1] == list[list.len() - 2] {
            assert(head.contains(last)) by {
                assert(head[head.len() - 1] == last);
            }
        } else {
            let out = kept.push(last);
            assert(!head.contains(last)) by {
                if head.contains(last) {
                    let i = head.index_of(last);
                    assert(list[i] == last);
                    let previous = list[list.len() - 2];
                    assert(!endpoint_before(previous, list[i]) || i == list.len() - 2);
                    assert(!endpoint_before(last, previous));
                }
            }
            assert forall|x: Endpoint| out.contains(x) <==> list.contains(x) by {
                if kept.contains(x) {
                    let i = kept.index_of(x);
                    assert(out[i] == x);
                }
                if x == last {
                    assert(out[out.len() - 1] == x);
                }
                if out.contains(x) {
                    let i = out.index_of(x);
                    if i < kept.len() {
                        assert(kept[i] == x);
                    }
                }
            }
            assert(out.no_duplicates()) by {
                assert forall|a: int, b: int| 0 <= a < b < out.len() implies out[a] != out[b] by {
                    if b == kept.len() {
                        assert(kept.contains(kept[a]));
                    }
                }
            }
        }
    }
}

/// Forwarding starts exactly where objects are given time, the clock's error is given and can be counted
/// in nanoseconds, the relay session can be set up, and the mesh is not left out for nothing; it then
/// sends where it was told to, from the first numbers on.
pub proof fn forwarding_starts_as_configured(options: ForwardOptions, now_us: u64)
    ensures
        ({
            let started = ForwarderView::started(options, now_us);
            let plan = options.relay.plan();
            &&& started is Ok <==> options.relay.deadline_ms > 0
                && options.wall_clock_estimated_error_ms > 0
                && options.wall_clock_estimated_error_ms * 1_000_000 <= u64::MAX && plan is Ok && !(
            options.relay_exclusive && plan->Ok_0 is None)
            &&& started matches Ok(forwarder) ==> {
                &&& forwarder.byte_target == options.mesh_fec_target
                &&& forwarder.media_target == options.mesh_media_fec_target
                &&& forwarder.next_byte_block_id == 0 && forwarder.next_byte_packet_sequence == 0
                &&& forwarder.next_media_sequence == 0 && forwarder.frames_coded.len() == 0
                &&& forwarder.repair_symbols == options.repair_symbols
                &&& forwarder.symbol_size == options.symbol_size
                &&& forwarder.source_epoch > 0 && (now_us > 0 ==> forwarder.source_epoch == now_us)
                &&& forwarder.delivery_budget_ms == options.relay.deadline_ms
                &&& forwarder.estimated_clock_error_ns == options.wall_clock_estimated_error_ms
                    * 1_000_000
                &&& plan == Ok::<_, RelayConfigError>(forwarder.relay)
                &&& forwarder.relay_exclusive == options.relay_exclusive
            }
        }),
{
}

/// A slot's symbols are as long as configured, or as the limit leaves room for where that is less;
/// there are none exactly where the limit leaves no room or more than a symbol can fill.
pub proof fn symbols_fill_the_limit(configured: u16, limit: u32)
    requires
        configured > 0,
    ensures
        slot_symbol_size(configured, None) == Some(configured),
        slot_symbol_size(configured, Some(limit)) is Some <==> 45 <= limit <= 65_579,
        slot_symbol_size(configured, Some(limit)) matches Some(size) ==> 0 < size <= configured
            && size + 44 <= limit && (size == configured || size + 44 == limit),
{
}

/// A slot takes the next numbers, as many as it has blocks and datagrams, and a slot that is empty or
/// refused takes none; nothing else changes.
pub proof fn slots_take_the_next_numbers(
    forwarder: ForwarderView,
    payload_len: int,
    limit: Option<u32>,
)
    ensures
        ({
            let reserved = forwarder.reservation(payload_len, limit);
            let after = forwarder.after_reservation(payload_len, limit);
            &&& payload_len == 0 ==> reserved is Ok && reserved->Ok_0 is None
            &&& payload_len != 0 && slot_symbol_size(forwarder.symbol_size, limit) is None
                ==> reserved is Err && reserved->Err_0 is LimitExceeded
            &&& !(reserved is Ok && reserved->Ok_0 is Some) ==> after == forwarder
            &&& reserved is Ok && reserved->Ok_0 is Some ==> {
                let taken = reserved->Ok_0->Some_0;
                &&& payload_len != 0
                &&& taken.block_id == forwarder.next_byte_block_id
                &&& taken.packet_sequence == forwarder.next_byte_packet_sequence
                &&& Some(taken.symbol_size) == slot_symbol_size(forwarder.symbol_size, limit)
                &&& taken.block_id + taken.geometry.block_count <= u32::MAX
                    ==> after.next_byte_block_id == taken.block_id + taken.geometry.block_count
                &&& taken.packet_sequence + taken.geometry.packet_count <= u32::MAX
                    ==> after.next_byte_packet_sequence == taken.packet_sequence
                    + taken.geometry.packet_count
                &&& after == ForwarderView {
                    next_byte_block_id: after.next_byte_block_id,
                    next_byte_packet_sequence: after.next_byte_packet_sequence,
                    ..forwarder
                }
            }
        }),
{
}

/// The datagrams of two lists hold together what each holds.
pub proof fn bytes_add_up(first: Seq<Seq<u8>>, second: Seq<Seq<u8>>)
    ensures
        total_bytes(first + second) == total_bytes(first) + total_bytes(second),
        total_bytes(seq![]) == 0,
        forall|datagram: Seq<u8>| #[trigger] total_bytes(seq![datagram]) == datagram.len(),
    decreases second.len(),
{
    assert forall|datagram: Seq<u8>| #[trigger] total_bytes(seq![datagram])
        == datagram.len() by {
        assert(seq![datagram].drop_last() =~= Seq::<Seq<u8>>::empty());
        assert(total_bytes(Seq::<Seq<u8>>::empty()) == 0);
    }
    if second.len() == 0 {
        assert(first + second =~= first);
    } else {
        bytes_add_up(first, second.drop_last());
        assert((first + second).drop_last() =~= first + second.drop_last());
    }
}

/// A datagram is unsent for the first target that did not get all of it, and for none where each did.
pub proof fn the_first_unsent_is_found(results: Seq<SendResult>, datagram_len: usize)
    ensures
        match first_unsent(results, datagram_len as int) {
            Some(at) => 0 <= at < results.len() && results[at] != SendResult::Sent(datagram_len)
                && forall|i: int|
                0 <= i < at ==> #[trigger] results[i] == SendResult::Sent(datagram_len),
            None => forall|i: int|
                0 <= i < results.len() ==> #[trigger] results[i] == SendResult::Sent(datagram_len),
        },
    decreases results.len(),
{
    if results.len() > 0 {
        let older = results.drop_last();
        the_first_unsent_is_found(older, datagram_len);
        assert forall|i: int| 0 <= i < older.len() implies older[i] == #[trigger] results[i] by {}
        assert(results.last() == results[results.len() - 1]);
    }
}

/// A payload that went out is counted as such; one that was refused, could not be coded or could not be
/// sent as an error; and one that was over its limit not at all. Every one but that is timed as a whole.
pub proof fn forwards_are_counted_by_their_outcome(
    view: TelemetryView,
    kind: Seq<char>,
    stream_id: u64,
    target: Seq<char>,
    outcome: ForwardOutcome,
    timings: ForwardTimings,
    at_ms: u64,
)
    ensures
        ({
            let after = forward_counted(view, kind, stream_id, target, outcome, timings, at_ms);
            let media = kind == "media"@;
            let before = if media {
                view.counters.mesh_media
            } else {
                view.counters.mesh_stream
            };
            let now = if media {
                after.counters.mesh_media
            } else {
                after.counters.mesh_stream
            };
            let timed = if media {
                after.media_histograms
            } else {
                after.stream_histograms
            };
            let untimed = if media {
                view.media_histograms
            } else {
                view.stream_histograms
            };
            let sent = outcome is Sent;
            let failed = outcome is Refused || outcome is NotEncoded || outcome is NotSent;
            let one = |holds: bool| if holds {
                1int
            } else {
                0
            };
            &&& went_up(before.payloads, now.payloads, one(sent))
            &&& went_up(before.errors, now.errors, one(failed))
            &&& outcome is OverLimit ==> after.counters == view.counters && after.alerts
                == view.alerts && after.activity == view.activity
            &&& outcome matches ForwardOutcome::Sent {
                payload_bytes,
                datagrams,
                datagram_bytes,
            } ==> went_up(before.payload_bytes, now.payload_bytes, payload_bytes as int)
                && went_up(before.datagrams, now.datagrams, datagrams as int) && went_up(
                before.datagram_bytes,
                now.datagram_bytes,
                datagram_bytes as int,
            )
        }),
        ({
            let after = forward_counted(view, kind, stream_id, target, outcome, timings, at_ms);
            let media = kind == "media"@;
            let timed = if media {
                after.media_histograms
            } else {
                after.stream_histograms
            };
            let untimed = if media {
                view.media_histograms
            } else {
                view.stream_histograms
            };
            &&& timed.total == (if outcome is OverLimit {
                untimed.total
            } else {
                untimed.total.recorded(timings.total_us)
            })
            &&& timed.encode_wait == untimed.encode_wait.recorded(timings.encode_wait_us)
            &&& timed.encode == (if outcome is Refused || (outcome is OverLimit && kind
                == "stream"@) {
                untimed.encode
            } else {
                untimed.encode.recorded(timings.encode_us)
            })
            &&& timed.send == (if outcome is NotSent || outcome is Sent {
                untimed.send.recorded(timings.send_us)
            } else {
                untimed.send
            })
            &&& timed.telemetry == (if outcome is Sent {
                untimed.telemetry.recorded(timings.telemetry_us)
            } else {
                untimed.telemetry
            })
        }),
{
    what_fits_is_kept();
    reveal_strlit("encode_wait");
    reveal_strlit("encode");
    reveal_strlit("send");
    reveal_strlit("telemetry");
    assert("encode_wait"@.len() == 11 && "encode"@.len() == 6 && "send"@.len() == 4
        && "telemetry"@.len() == 9);
}

/// A slot that is reserved, and one that is coded within its limit, is counted when it was sent. One
/// that cannot be reserved or coded is counted at once, as an error of its kind and of no other, and
/// as nothing forwarded. Whether a limit is found exceeded while coding or behind it is the same.
pub proof fn failures_before_sending_are_counted(
    telemetry: TelemetryView,
    kind: Seq<char>,
    stream_id: u64,
    target: Seq<char>,
    reserved: Result<Option<SlotReservation>, ForwardError>,
    encoded: Result<Seq<Seq<u8>>, ForwardError>,
    limit: Option<u32>,
    timings: ForwardTimings,
    now_ms: u64,
)
    requires
        telemetry.counters.mesh_media.errors < u64::MAX,
        telemetry.counters.mesh_stream.errors < u64::MAX,
    ensures
        ({
            let held = reserving_counted(telemetry, stream_id, target, reserved, timings, now_ms);
            let coded = coding_counted(
                telemetry,
                kind,
                stream_id,
                target,
                encoded,
                limit,
                timings,
                now_ms,
            );
            let over = coding_counted(
                telemetry,
                kind,
                stream_id,
                target,
                Err(ForwardError::LimitExceeded),
                limit,
                timings,
                now_ms,
            );
            let before = telemetry.counters;
            &&& reserved is Ok || reserved->Err_0 is LimitExceeded ==> held == telemetry
            &&& reserved is Err && !(reserved->Err_0 is LimitExceeded) ==> {
                &&& held.counters.mesh_stream.errors == before.mesh_stream.errors + 1
                &&& held.counters.mesh_stream.payloads == before.mesh_stream.payloads
                &&& held.counters.mesh_media == before.mesh_media
                &&& held.activity.len() > 0 && held.activity[0].code == "mesh_forward_error"@
            }
            &&& encoded is Ok && !some_exceeds(encoded->Ok_0, limit) ==> coded == telemetry
            &&& encoded is Ok && some_exceeds(encoded->Ok_0, limit) ==> coded == over
            &&& encoded is Err && !(encoded->Err_0 is LimitExceeded) ==> {
                let media = kind == "media"@;
                &&& coded.counters.mesh_media.errors == before.mesh_media.errors + (if media {
                    1int
                } else {
                    0
                })
                &&& coded.counters.mesh_stream.errors == before.mesh_stream.errors + (if media {
                    0int
                } else {
                    1
                })
                &&& coded.counters.mesh_media.payloads == before.mesh_media.payloads
                &&& coded.counters.mesh_stream.payloads == before.mesh_stream.payloads
                &&& coded.activity.len() > 0 && coded.activity[0].code == "mesh_forward_error"@
            }
        }),
{
    what_fits_is_kept();
    reveal_strlit("stream");
    reveal_strlit("media");
    assert("stream"@.len() == 6 && "media"@.len() == 5);
}

} // verus!
