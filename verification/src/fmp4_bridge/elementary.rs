//! Elementary streams of a transport stream, packet by packet.
use crate::fmp4_bridge::access_unit::{
    AccessUnit, AccessUnitView, STREAM_TYPE_AAC, STREAM_TYPE_H264, STREAM_TYPE_MPEG4_AAC,
    STREAM_TYPE_PRIVATE_DATA,
};
use crate::fmp4_bridge::nalu::{
    annex_b_units, byte_strings, carried_units, frame_units, framed_all, framed_all_empty,
    has_keyframe, split_annex_b,
};
use vstd::prelude::*;

verus! {

/// Bytes that one packet's payload may grow to.
pub const MAX_PES_PAYLOAD_BYTES: usize = 8_388_608;

/// A gap in an elementary stream, and what was dropped because of it.
#[derive(Debug, Clone, Copy)]
pub struct MpegTsContinuityIssue {
    pub stream_type: &'static str,
    pub dropped_payload_bytes: usize,
}

/// A payload that grew too large and was dropped.
#[derive(Debug, Clone, Copy)]
pub struct MpegTsPayloadDrop {
    pub stream_type: &'static str,
    pub bytes: usize,
}

/// The name of a stream type in reports.
pub open spec fn type_label(stream_type: u8) -> Seq<char> {
    if stream_type == STREAM_TYPE_H264 {
        "h264"@
    } else if stream_type == STREAM_TYPE_AAC {
        "adts"@
    } else if stream_type == STREAM_TYPE_PRIVATE_DATA {
        "private_data"@
    } else if stream_type == STREAM_TYPE_MPEG4_AAC {
        "audio"@
    } else {
        "other"@
    }
}

/// The name of a stream type in reports.
pub fn stream_type_label(stream_type: u8) -> (r: &'static str)
    ensures
        r@ == type_label(stream_type),
{
    if stream_type == STREAM_TYPE_H264 {
        "h264"
    } else if stream_type == STREAM_TYPE_AAC {
        "adts"
    } else if stream_type == STREAM_TYPE_PRIVATE_DATA {
        "private_data"
    } else if stream_type == STREAM_TYPE_MPEG4_AAC {
        "audio"
    } else {
        "other"
    }
}

/// Gathers the packets of one elementary stream into access units.
#[derive(Debug)]
pub struct ElementaryStreamConsumer {
    pub stream_type: u8,
    pub accumulated_payload: Vec<u8>,
    pub pts: u64,
    pub dts: u64,
}

/// What an [`ElementaryStreamConsumer`] holds.
pub struct ElementaryView {
    pub stream_type: u8,
    pub payload: Seq<u8>,
    pub pts: u64,
    pub dts: u64,
}

impl View for ElementaryStreamConsumer {
    type V = ElementaryView;

    open spec fn view(&self) -> ElementaryView {
        ElementaryView {
            stream_type: self.stream_type,
            payload: self.accumulated_payload@,
            pts: self.pts,
            dts: self.dts,
        }
    }
}

impl ElementaryView {
    /// Whether more bytes make the payload too large.
    pub open spec fn overflows(self, data: Seq<u8>) -> bool {
        self.payload.len() + data.len() > MAX_PES_PAYLOAD_BYTES
    }

    /// The stream with more bytes, or without any where they are too many.
    pub open spec fn grown(self, data: Seq<u8>) -> Self {
        ElementaryView {
            payload: if self.overflows(data) {
                Seq::empty()
            } else {
                self.payload + data
            },
            ..self
        }
    }

    /// The access unit that the packet amounts to, given the units between the payload's start
    /// codes.
    pub open spec fn unit_from(self, found: Seq<Seq<u8>>) -> Option<AccessUnitView> {
        if self.stream_type == STREAM_TYPE_H264 {
            let carried = found.filter(carried_units());
            if carried.len() == 0 {
                None
            } else {
                Some(
                    AccessUnitView {
                        key: has_keyframe(found),
                        pts: self.pts,
                        dts: self.dts,
                        data: framed_all(carried),
                        stream_type: self.stream_type,
                        id: 0,
                    },
                )
            }
        } else if crate::fmp4_bridge::access_unit::supported_audio(self.stream_type)
            && self.payload.len() > 0 {
            Some(
                AccessUnitView {
                    key: false,
                    pts: self.pts,
                    dts: self.dts,
                    data: self.payload,
                    stream_type: self.stream_type,
                    id: 0,
                },
            )
        } else {
            None
        }
    }
}

/// Whether a report tells of a payload of `bytes` bytes that was dropped.
pub open spec fn reports_drop(
    report: Option<MpegTsPayloadDrop>,
    before: ElementaryView,
    data: Seq<u8>,
) -> bool {
    if before.overflows(data) {
        report matches Some(dropped) && dropped.stream_type@ == type_label(before.stream_type)
            && dropped.bytes == crate::arith::min_int(
            (before.payload.len() + data.len()) as int,
            usize::MAX as int,
        )
    } else {
        report is None
    }
}

/// What an access unit that may be missing holds.
pub open spec fn unit_view(unit: Option<AccessUnit>) -> Option<AccessUnitView> {
    match unit {
        Some(unit) => Some(unit@),
        None => None,
    }
}

impl ElementaryStreamConsumer {
    /// A stream of which nothing has arrived.
    pub fn construct(stream_type: u8) -> (r: Self)
        ensures
            r@ == (ElementaryView { stream_type, payload: Seq::empty(), pts: 0, dts: 0 }),
    {
        let r = ElementaryStreamConsumer {
            stream_type,
            accumulated_payload: Vec::new(),
            pts: 0,
            dts: 0,
        };
        assert(r@.payload =~= Seq::empty());
        r
    }

    /// Adds bytes to the payload; drops it, and reports that, where it grows too large.
    pub fn append_payload(&mut self, data: &[u8]) -> (r: Option<MpegTsPayloadDrop>)
        ensures
            final(self)@ == old(self)@.grown(data@),
            reports_drop(r, old(self)@, data@),
    {
        let new_len: usize = self.accumulated_payload.len().saturating_add(data.len());
        if new_len > MAX_PES_PAYLOAD_BYTES {
            self.accumulated_payload.clear();
            assert(self@.payload =~= Seq::empty());
            return Some(
                MpegTsPayloadDrop {
                    stream_type: stream_type_label(self.stream_type),
                    bytes: new_len,
                },
            );
        }
        self.accumulated_payload.extend_from_slice(data);
        assert(self@.payload =~= old(self)@.payload + data@);
        None
    }

    /// Opens a packet with the timestamps and the payload bytes that its header gave, if it gave
    /// any.
    pub fn begin_packet(&mut self, timestamps: Option<(u64, u64)>, payload: Option<&[u8]>) -> (r:
        Option<MpegTsPayloadDrop>)
        ensures
            ({
                let stamped = match timestamps {
                    Some((pts, dts)) => ElementaryView { pts, dts, ..old(self)@ },
                    None => old(self)@,
                };
                match payload {
                    Some(data) => final(self)@ == stamped.grown(data@) && reports_drop(
                        r,
                        stamped,
                        data@,
                    ),
                    None => final(self)@ == stamped && r is None,
                }
            }),
    {
        if let Some((pts, dts)) = timestamps {
            self.pts = pts;
            self.dts = dts;
        }
        match payload {
            Some(data) => self.append_payload(data),
            None => None,
        }
    }

    /// Adds the next bytes of a packet.
    pub fn continue_packet(&mut self, data: &[u8]) -> (r: Option<MpegTsPayloadDrop>)
        ensures
            final(self)@ == old(self)@.grown(data@),
            reports_drop(r, old(self)@, data@),
    {
        self.append_payload(data)
    }

    /// Closes a packet, given the units between its payload's start codes, and hands out the
    /// access unit that it amounts to.
    pub fn end_packet_with(&mut self, found: &Vec<Vec<u8>>) -> (r: Option<AccessUnit>)
        ensures
            unit_view(r) == old(self)@.unit_from(byte_strings(found@)),
            final(self)@ == (ElementaryView { payload: Seq::empty(), ..old(self)@ }),
    {
        let mut payload: Vec<u8> = Vec::new();
        core::mem::swap(&mut self.accumulated_payload, &mut payload);
        assert(self@.payload =~= Seq::empty());
        if self.stream_type == STREAM_TYPE_H264 {
            let (sample, key) = frame_units(found);
            proof {
                framed_all_empty(byte_strings(found@).filter(carried_units()));
            }
            if sample.len() == 0 {
                return None;
            }
            Some(
                AccessUnit {
                    key,
                    pts: self.pts,
                    dts: self.dts,
                    data: sample,
                    stream_type: self.stream_type,
                    id: 0,
                },
            )
        } else if crate::fmp4_bridge::access_unit::is_supported_audio(self.stream_type) {
            if payload.len() == 0 {
                return None;
            }
            Some(
                AccessUnit {
                    key: false,
                    pts: self.pts,
                    dts: self.dts,
                    data: payload,
                    stream_type: self.stream_type,
                    id: 0,
                },
            )
        } else {
            None
        }
    }

    /// Closes a packet and hands out the access unit that it amounts to.
    pub fn end_packet(&mut self) -> (r: Option<AccessUnit>)
        ensures
            unit_view(r) == old(self)@.unit_from(annex_b_units(old(self)@.payload)),
            final(self)@ == (ElementaryView { payload: Seq::empty(), ..old(self)@ }),
    {
        let found = split_annex_b(self.accumulated_payload.as_slice());
        self.end_packet_with(&found)
    }

    /// Drops what a gap made useless, and reports how much that was.
    pub fn continuity_error(&mut self) -> (r: MpegTsContinuityIssue)
        ensures
            final(self)@ == (ElementaryView { payload: Seq::empty(), ..old(self)@ }),
            r.stream_type@ == type_label(old(self)@.stream_type),
            r.dropped_payload_bytes == old(self)@.payload.len(),
    {
        let dropped_payload_bytes: usize = self.accumulated_payload.len();
        self.accumulated_payload.clear();
        assert(self@.payload =~= Seq::empty());
        MpegTsContinuityIssue {
            stream_type: stream_type_label(self.stream_type),
            dropped_payload_bytes,
        }
    }
}

/// A payload never grows beyond its bound, whatever arrives.
pub proof fn payload_stays_bounded(stream: ElementaryView, data: Seq<u8>)
    ensures
        stream.grown(data).payload.len() <= MAX_PES_PAYLOAD_BYTES,
{
}

/// A payload that arrives in pieces is the pieces in their order, as long as it fits.
pub proof fn payload_joins_its_pieces(stream: ElementaryView, first: Seq<u8>, second: Seq<u8>)
    requires
        stream.payload.len() + first.len() + second.len() <= MAX_PES_PAYLOAD_BYTES,
    ensures
        stream.grown(first).grown(second) == stream.grown(first + second),
{
    assert((stream.payload + first) + second =~= stream.payload + (first + second));
}

/// A packet amounts to an access unit at its own times: for pictures where it carries a unit that is kept,
/// for sound that is understood where it carries anything, and for nothing else. Sound is carried as it
/// is; pictures are key pictures where a unit says so.
pub proof fn packets_amount_to_their_units(stream: ElementaryView, found: Seq<Seq<u8>>)
    ensures
        ({
            let unit = stream.unit_from(found);
            let pictures = stream.stream_type == STREAM_TYPE_H264;
            let sounds = crate::fmp4_bridge::access_unit::supported_audio(stream.stream_type);
            &&& pictures ==> (unit is Some <==> found.filter(carried_units()).len() > 0)
            &&& !pictures ==> (unit is Some <==> sounds && stream.payload.len() > 0)
            &&& unit is Some ==> {
                &&& unit->Some_0.pts == stream.pts
                &&& unit->Some_0.dts == stream.dts
                &&& unit->Some_0.stream_type == stream.stream_type
                &&& pictures ==> unit->Some_0.data == framed_all(found.filter(carried_units()))
                &&& !pictures ==> unit->Some_0.data == stream.payload
                &&& unit->Some_0.key <==> pictures && has_keyframe(found)
            }
        }),
{
}

/// A payload that would grow too large is dropped whole and reported, one that fits is kept whole and not
/// reported; the packet's times and type stay.
pub proof fn payloads_are_kept_or_reported(
    stream: ElementaryView,
    data: Seq<u8>,
    report: Option<MpegTsPayloadDrop>,
)
    requires
        reports_drop(report, stream, data),
        stream.payload.len() + data.len() <= usize::MAX,
    ensures
        ({
            let after = stream.grown(data);
            let fits = stream.payload.len() + data.len() <= 8_388_608;
            &&& fits ==> after.payload == stream.payload + data && report is None
            &&& !fits ==> after.payload.len() == 0 && report is Some && report->Some_0.bytes
                == stream.payload.len() + data.len() && report->Some_0.stream_type@ == type_label(
                stream.stream_type,
            )
            &&& after.stream_type == stream.stream_type
            &&& after.pts == stream.pts && after.dts == stream.dts
        }),
{
}

} // verus!
