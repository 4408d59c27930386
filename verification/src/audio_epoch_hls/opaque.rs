//! Parts of payloads that are published byte for byte.
use crate::arith::{cap_u64, min_int};
use vstd::prelude::*;

verus! {

/// A part of opaque payloads as it is handed to the publication path.
#[derive(Debug, Clone)]
pub struct PublishedOpaquePart {
    pub stream_id: u64,
    pub stream_idx: usize,
    pub sequence: u64,
    pub duration_ms: u32,
    pub packaged_at_unix_ns: i64,
    pub published_at_unix_ns: i64,
    pub bytes: Vec<u8>,
    pub audio_units: usize,
}

/// A part of opaque payloads that waits to be published.
#[derive(Debug, Clone)]
pub struct OpaquePart {
    pub stream_id: u64,
    pub stream_idx: usize,
    pub sequence: u64,
    pub duration_ms: u32,
    pub bytes: Vec<u8>,
    pub audio_units: usize,
}

/// What an [`OpaquePart`] holds.
pub struct OpaquePartView {
    pub stream_id: u64,
    pub stream_idx: usize,
    pub sequence: u64,
    pub duration_ms: u32,
    pub bytes: Seq<u8>,
    pub audio_units: usize,
}

impl View for OpaquePart {
    type V = OpaquePartView;

    open spec fn view(&self) -> OpaquePartView {
        OpaquePartView {
            stream_id: self.stream_id,
            stream_idx: self.stream_idx,
            sequence: self.sequence,
            duration_ms: self.duration_ms,
            bytes: self.bytes@,
            audio_units: self.audio_units,
        }
    }
}

impl OpaquePart {
    /// The part as it is published, stamped with when it was cut and when it was handed on.
    pub fn published(self, packaged_at_unix_ns: i64, published_at_unix_ns: i64) -> (r:
        PublishedOpaquePart)
        ensures
            r.stream_id == self.stream_id,
            r.stream_idx == self.stream_idx,
            r.sequence == self.sequence,
            r.duration_ms == self.duration_ms,
            r.packaged_at_unix_ns == packaged_at_unix_ns,
            r.published_at_unix_ns == published_at_unix_ns,
            r.bytes@ == self@.bytes,
            r.audio_units == self.audio_units,
    {
        PublishedOpaquePart {
            stream_id: self.stream_id,
            stream_idx: self.stream_idx,
            sequence: self.sequence,
            duration_ms: self.duration_ms,
            packaged_at_unix_ns,
            published_at_unix_ns,
            bytes: self.bytes,
            audio_units: self.audio_units,
        }
    }
}

/// What a part that may be missing holds.
pub open spec fn opaque_view(part: Option<OpaquePart>) -> Option<OpaquePartView> {
    match part {
        Some(part) => Some(part@),
        None => None,
    }
}

/// Joins consecutive payloads into parts, without looking into them.
#[derive(Debug)]
pub struct OpaquePartSegmenter {
    pub output_stream_id: u64,
    pub output_stream_idx: usize,
    pub min_part_ms: u32,
    pub bytes: Vec<u8>,
    pub duration_ms: u32,
    pub audio_units: usize,
    pub published_parts: u64,
}

/// What an [`OpaquePartSegmenter`] holds.
pub struct OpaqueView {
    pub output_stream_id: u64,
    pub output_stream_idx: usize,
    pub min_part_ms: u32,
    pub bytes: Seq<u8>,
    pub duration_ms: u32,
    pub audio_units: usize,
    pub published_parts: u64,
}

impl View for OpaquePartSegmenter {
    type V = OpaqueView;

    open spec fn view(&self) -> OpaqueView {
        OpaqueView {
            output_stream_id: self.output_stream_id,
            output_stream_idx: self.output_stream_idx,
            min_part_ms: self.min_part_ms,
            bytes: self.bytes@,
            duration_ms: self.duration_ms,
            audio_units: self.audio_units,
            published_parts: self.published_parts,
        }
    }
}

impl OpaqueView {
    /// The part that the buffered payloads make.
    pub open spec fn part(self) -> OpaquePartView {
        OpaquePartView {
            stream_id: self.output_stream_id,
            stream_idx: self.output_stream_idx,
            sequence: self.published_parts,
            duration_ms: if self.duration_ms == 0 {
                1
            } else {
                self.duration_ms
            },
            bytes: self.bytes,
            audio_units: self.audio_units,
        }
    }

    /// Ends the part, if there is anything in it.
    pub open spec fn flush(self) -> (Self, Option<OpaquePartView>) {
        if self.bytes.len() == 0 {
            (self, None)
        } else {
            (
                OpaqueView {
                    bytes: Seq::empty(),
                    duration_ms: 0,
                    audio_units: 0,
                    published_parts: cap_u64(self.published_parts + 1) as u64,
                    ..self
                },
                Some(self.part()),
            )
        }
    }

    /// The state with one more payload.
    pub open spec fn with_packet(self, packet: Seq<u8>, duration_ms: u32) -> Self {
        OpaqueView {
            bytes: self.bytes + packet,
            duration_ms: min_int(self.duration_ms + duration_ms, u32::MAX as int) as u32,
            audio_units: min_int(self.audio_units + 1, usize::MAX as int) as usize,
            ..self
        }
    }

    /// Takes one more payload, and ends the part where it is long enough.
    pub open spec fn push(self, packet: Seq<u8>, duration_ms: u32) -> (
        Self,
        Option<OpaquePartView>,
    ) {
        let state = self.with_packet(packet, duration_ms);
        if state.duration_ms >= self.min_part_ms {
            state.flush()
        } else {
            (state, None)
        }
    }

    /// The state without its payloads; the numbering of parts goes on.
    pub open spec fn reset(self) -> Self {
        OpaqueView { bytes: Seq::empty(), duration_ms: 0, audio_units: 0, ..self }
    }
}

impl OpaquePartSegmenter {
    /// A segmenter for one output stream, whose parts last at least `min_part_ms` milliseconds, and
    /// one millisecond at the least.
    pub fn new(output_stream_id: u64, output_stream_idx: usize, min_part_ms: u32) -> (r: Self)
        ensures
            r@ == (OpaqueView {
                output_stream_id,
                output_stream_idx,
                min_part_ms: if min_part_ms == 0 {
                    1
                } else {
                    min_part_ms
                },
                bytes: Seq::empty(),
                duration_ms: 0,
                audio_units: 0,
                published_parts: 0,
            }),
    {
        let r = OpaquePartSegmenter {
            output_stream_id,
            output_stream_idx,
            min_part_ms: if min_part_ms == 0 {
                1
            } else {
                min_part_ms
            },
            bytes: Vec::new(),
            duration_ms: 0,
            audio_units: 0,
            published_parts: 0,
        };
        assert(r@.bytes =~= Seq::empty());
        r
    }

    /// Takes one more payload, and hands out the part that ends with it, if one does.
    pub fn push(&mut self, packet: &[u8], duration_ms: u32) -> (r: Option<OpaquePart>)
        ensures
            final(self)@ == old(self)@.push(packet@, duration_ms).0,
            opaque_view(r) == old(self)@.push(packet@, duration_ms).1,
    {
        self.bytes.extend_from_slice(packet);
        self.duration_ms = self.duration_ms.saturating_add(duration_ms);
        self.audio_units = self.audio_units.saturating_add(1);
        assert(self@.bytes =~= old(self)@.bytes + packet@);
        if self.duration_ms >= self.min_part_ms {
            self.flush()
        } else {
            None
        }
    }

    /// Hands out what is buffered as the last part, if there is anything.
    pub fn finish(&mut self) -> (r: Option<OpaquePart>)
        ensures
            final(self)@ == old(self)@.flush().0,
            opaque_view(r) == old(self)@.flush().1,
    {
        self.flush()
    }

    /// Forgets what is buffered; the numbering of parts goes on.
    pub fn reset(&mut self)
        ensures
            final(self)@ == old(self)@.reset(),
    {
        self.bytes.clear();
        self.duration_ms = 0;
        self.audio_units = 0;
        assert(self@.bytes =~= Seq::empty());
    }

    fn flush(&mut self) -> (r: Option<OpaquePart>)
        ensures
            final(self)@ == old(self)@.flush().0,
            opaque_view(r) == old(self)@.flush().1,
    {
        if self.bytes.len() == 0 {
            return None;
        }
        let mut bytes: Vec<u8> = Vec::new();
        core::mem::swap(&mut self.bytes, &mut bytes);
        assert(self@.bytes =~= Seq::empty());
        let part = OpaquePart {
            stream_id: self.output_stream_id,
            stream_idx: self.output_stream_idx,
            sequence: self.published_parts,
            duration_ms: if self.duration_ms == 0 {
                1
            } else {
                self.duration_ms
            },
            bytes,
            audio_units: self.audio_units,
        };
        self.audio_units = 0;
        self.duration_ms = 0;
        self.published_parts = self.published_parts.saturating_add(1);
        Some(part)
    }
}

/// The state after some payloads, and the parts that they ended, in order.
pub open spec fn pushed_all(state: OpaqueView, packets: Seq<(Seq<u8>, u32)>) -> (
    OpaqueView,
    Seq<OpaquePartView>,
)
    decreases packets.len(),
{
    if packets.len() == 0 {
        (state, Seq::empty())
    } else {
        let (before, parts) = pushed_all(state, packets.drop_last());
        let (after, part) = before.push(packets.last().0, packets.last().1);
        (
            after,
            match part {
                Some(part) => parts.push(part),
                None => parts,
            },
        )
    }
}

/// The bytes of some payloads, one behind the other.
pub open spec fn joined_packets(packets: Seq<(Seq<u8>, u32)>) -> Seq<u8>
    decreases packets.len(),
{
    if packets.len() == 0 {
        Seq::empty()
    } else {
        joined_packets(packets.drop_last()) + packets.last().0
    }
}

/// The bytes of some parts, one behind the other.
pub open spec fn joined_parts(parts: Seq<OpaquePartView>) -> Seq<u8>
    decreases parts.len(),
{
    if parts.len() == 0 {
        Seq::empty()
    } else {
        joined_parts(parts.drop_last()) + parts.last().bytes
    }
}

/// Whatever payloads are pushed, the parts and what is still buffered hold exactly their bytes, in
/// order.
pub proof fn payloads_are_published_byte_for_byte(
    state: OpaqueView,
    packets: Seq<(Seq<u8>, u32)>,
)
    ensures
        ({
            let (after, parts) = pushed_all(state, packets);
            joined_parts(parts) + after.bytes == state.bytes + joined_packets(packets)
        }),
    decreases packets.len(),
{
    if packets.len() == 0 {
        assert(Seq::<u8>::empty() + state.bytes =~= state.bytes + Seq::<u8>::empty());
    } else {
        payloads_are_published_byte_for_byte(state, packets.drop_last());
        let (before, parts) = pushed_all(state, packets.drop_last());
        let last = packets.last();
        let grown = before.with_packet(last.0, last.1);
        let (after, part) = before.push(last.0, last.1);
        assert(joined_parts(parts) + grown.bytes =~= (joined_parts(parts) + before.bytes) + last.0);
        assert(state.bytes + joined_packets(packets) =~= (state.bytes + joined_packets(
            packets.drop_last(),
        )) + last.0);
        match part {
            Some(part) => {
                assert(parts.push(part).drop_last() =~= parts);
                assert(joined_parts(parts.push(part)) + after.bytes =~= joined_parts(parts)
                    + grown.bytes);
            },
            None => {},
        }
    }
}

/// Parts are numbered one after the other, whatever their payloads are and across resets, until
/// the numbers run out.
pub proof fn parts_are_numbered_in_order(state: OpaqueView, packets: Seq<(Seq<u8>, u32)>)
    requires
        state.published_parts + packets.len() <= u64::MAX,
    ensures
        ({
            let (after, parts) = pushed_all(state, packets);
            &&& after.published_parts == state.published_parts + parts.len()
            &&& parts.len() <= packets.len()
            &&& forall|i: int|
                0 <= i < parts.len() ==> (#[trigger] parts[i]).sequence == state.published_parts + i
            &&& after.reset().published_parts == after.published_parts
        }),
    decreases packets.len(),
{
    if packets.len() > 0 {
        parts_are_numbered_in_order(state, packets.drop_last());
    }
}

/// How long some payloads last together, in milliseconds.
pub open spec fn total_ms(packets: Seq<(Seq<u8>, u32)>) -> int
    decreases packets.len(),
{
    if packets.len() == 0 {
        0
    } else {
        total_ms(packets.drop_last()) + packets.last().1
    }
}

/// After how many payloads each part ends.
pub open spec fn part_ends(state: OpaqueView, packets: Seq<(Seq<u8>, u32)>) -> Seq<int>
    decreases packets.len(),
{
    if packets.len() == 0 {
        Seq::empty()
    } else {
        let ends = part_ends(state, packets.drop_last());
        let before = pushed_all(state, packets.drop_last()).0;
        if before.push(packets.last().0, packets.last().1).1 is Some {
            ends.push(packets.len() as int)
        } else {
            ends
        }
    }
}

/// Where a part starts: where the one before it ends.
pub open spec fn part_start(ends: Seq<int>, i: int) -> int {
    if i == 0 {
        0
    } else {
        ends[i - 1]
    }
}

/// Whether a part is made of exactly some payloads, and they are no more than it needs.
pub open spec fn made_of(
    part: OpaquePartView,
    state: OpaqueView,
    packets: Seq<(Seq<u8>, u32)>,
) -> bool {
    &&& packets.len() > 0
    &&& part.stream_id == state.output_stream_id
    &&& part.stream_idx == state.output_stream_idx
    &&& part.bytes == joined_packets(packets)
    &&& part.audio_units == min_int(packets.len() as int, usize::MAX as int)
    &&& part.duration_ms == min_int(total_ms(packets), u32::MAX as int)
    &&& total_ms(packets) >= state.min_part_ms
    &&& total_ms(packets.drop_last()) < state.min_part_ms
}

/// Whether a part of a list is made of the payloads between its start and its end.
pub open spec fn part_holds(
    parts: Seq<OpaquePartView>,
    i: int,
    state: OpaqueView,
    ends: Seq<int>,
    packets: Seq<(Seq<u8>, u32)>,
) -> bool {
    &&& 0 <= part_start(ends, i) < ends[i] <= packets.len()
    &&& made_of(parts[i], state, packets.subrange(part_start(ends, i), ends[i]))
}

/// The payloads that are pushed into an empty segmenter are parted among its parts, in order: a part
/// holds the bytes of its payloads, counts them, lasts as long as they do together, and would not
/// have lasted long enough without the last of them. What is behind the last part is too short for
/// another.
pub proof fn parts_are_made_of_payloads(state: OpaqueView, packets: Seq<(Seq<u8>, u32)>)
    requires
        state == state.reset(),
        state.min_part_ms > 0,
        forall|i: int| 0 <= i < packets.len() ==> (#[trigger] packets[i]).0.len() > 0,
    ensures
        ({
            let (after, parts) = pushed_all(state, packets);
            let ends = part_ends(state, packets);
            let tail = packets.skip(part_start(ends, ends.len() as int));
            &&& ends.len() == parts.len()
            &&& 0 <= part_start(ends, ends.len() as int) <= packets.len()
            &&& forall|i: int|
                0 <= i < parts.len() ==> #[trigger] part_holds(parts, i, state, ends, packets)
            &&& after.bytes == joined_packets(tail)
            &&& after.audio_units == min_int(tail.len() as int, usize::MAX as int)
            &&& after.duration_ms == total_ms(tail) < state.min_part_ms
            &&& after.output_stream_id == state.output_stream_id
            &&& after.output_stream_idx == state.output_stream_idx
            &&& after.min_part_ms == state.min_part_ms
        }),
    decreases packets.len(),
{
    let ends = part_ends(state, packets);
    if packets.len() == 0 {
        assert(packets.skip(0) =~= packets);
        assert(state.bytes =~= Seq::<u8>::empty());
    } else {
        let shorter = packets.drop_last();
        parts_are_made_of_payloads(state, shorter);
        let (before, parts) = pushed_all(state, shorter);
        let older = part_ends(state, shorter);
        let start = part_start(older, older.len() as int);
        let last = packets.last();
        let run = packets.skip(start);
        assert(run.drop_last() =~= shorter.skip(start));
        assert(run.last() == last);
        let grown = before.with_packet(last.0, last.1);
        assert(grown.bytes == joined_packets(run));
        assert(grown.audio_units == min_int(run.len() as int, usize::MAX as int));
        assert(grown.duration_ms == min_int(total_ms(run), u32::MAX as int));
        assert(grown.bytes.len() > 0);
        let (after, part) = before.push(last.0, last.1);
        match part {
            Some(part) => {
                assert(ends == older.push(packets.len() as int));
                assert(packets.subrange(start, packets.len() as int) =~= run);
                assert(packets.skip(packets.len() as int) =~= Seq::<(Seq<u8>, u32)>::empty());
                assert(made_of(part, state, run));
                let all = parts.push(part);
                assert forall|i: int| 0 <= i < all.len() implies #[trigger] part_holds(
                    all,
                    i,
                    state,
                    ends,
                    packets,
                ) by {
                    if i < parts.len() {
                        assert(part_holds(parts, i, state, older, shorter));
                        assert(packets.subrange(part_start(ends, i), ends[i]) =~= shorter.subrange(
                            part_start(older, i),
                            older[i],
                        ));
                    }
                }
            },
            None => {
                assert(ends == older);
                assert forall|i: int| 0 <= i < parts.len() implies #[trigger] part_holds(
                    parts,
                    i,
                    state,
                    ends,
                    packets,
                ) by {
                    assert(part_holds(parts, i, state, older, shorter));
                    assert(packets.subrange(part_start(ends, i), ends[i]) =~= shorter.subrange(
                        part_start(older, i),
                        older[i],
                    ));
                }
            },
        }
    }
}

/// A part that ended because it was long enough is at least as long as asked.
pub proof fn a_part_is_long_enough(state: OpaqueView, packet: Seq<u8>, duration_ms: u32)
    requires
        state.push(packet, duration_ms).1 is Some,
    ensures
        state.push(packet, duration_ms).1->Some_0.duration_ms >= state.min_part_ms,
{
}

} // verus!
