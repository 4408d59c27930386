//! Forward error correction of one stream slot, and the datagrams that carry it.
use crate::arith::{ceil_div, ceil_div_u64, max_int, min_int};
use crate::text::{append_decimal, decimal};
use crate::wire::{be_bytes, be_bytes_len, be_round_trip, be_value, put_be_u64};
use raptorq_datagram_fec::{DatagramFecEncoder, DatagramFecHeader};
use vstd::bytes::{
    lemma_auto_spec_u16_to_from_le_bytes, lemma_auto_spec_u32_to_from_le_bytes,
    spec_u16_from_le_bytes, spec_u16_to_le_bytes, spec_u32_from_le_bytes, spec_u32_to_le_bytes,
};
use vstd::prelude::*;
use vstd::slice::slice_subrange;
use vstd::string::*;

verus! {

/// The most bytes that one slot may hold.
pub const MAX_STREAM_FEC_OBJECT_BYTES: u64 = 8_388_608;

/// The most datagrams that one slot may take.
pub const MAX_STREAM_FEC_DATAGRAMS: u32 = 32_768;

/// The most source symbols that one block may hold.
pub const MAX_SOURCE_SYMBOLS_PER_BLOCK: u64 = 56_403;

/// Source symbols for which the configured count of repair symbols is sent once.
pub const DEFAULT_SOURCE_SYMBOLS: u64 = 4;

/// Bytes of the header that opens a coded datagram.
pub const HEADER_LEN: usize = 32;

/// Bytes that name a symbol behind the header.
pub const ENCODING_PACKET_HEADER_LEN: usize = 4;

/// Bytes of the stream id in front of the header.
pub const STREAM_PREFIX_LEN: usize = 8;

/// A number reduced to the range of `u32`, as a counter that wraps holds it.
pub open spec fn wrapped_u32(value: int) -> u32 {
    (value % 0x1_0000_0000) as u32
}

/// How a slot is cut into datagrams.
#[derive(Debug, Clone, Copy, PartialEq, Eq, Structural)]
pub struct StreamFecGeometry {
    pub block_count: u32,
    pub packet_count: u32,
    pub repair_symbols: u32,
}

/// Why a slot cannot be coded.
#[derive(Debug, Clone, Copy, PartialEq, Eq, Structural)]
pub enum StreamFecError {
    /// The slot is longer than one block carries.
    ObjectTooLarge { payload_len: u64, max: u64, symbol_size: u16 },
    /// The repair symbols cannot be numbered.
    RepairSpace,
    /// The datagrams cannot be numbered.
    PacketSpace,
    /// The slot takes more datagrams than are allowed.
    TooManyDatagrams { packet_count: u32 },
    /// The coder refused the slot.
    Encode,
    /// The coder made another number of datagrams than there are numbers for.
    GeometryChanged { expected: u32, encoded: u32 },
}

impl StreamFecError {
    /// What the error says.
    pub open spec fn words(self) -> Seq<char> {
        match self {
            StreamFecError::ObjectTooLarge { payload_len, max, symbol_size } =>
                "stream slot is too large for one RaptorQ source block: got "@ + decimal(
                payload_len as nat,
            ) + " bytes, max is "@ + decimal(max as nat) + " bytes for "@ + decimal(
                symbol_size as nat,
            ) + "-byte symbols"@,
            StreamFecError::RepairSpace =>
                "RaptorQ repair-symbol count exceeds the wire sequence space"@,
            StreamFecError::PacketSpace => "RaptorQ packet count exceeds the wire sequence space"@,
            StreamFecError::TooManyDatagrams { packet_count } => "stream slot requires "@
                + decimal(packet_count as nat) + " RaptorQ datagrams; limit is "@ + decimal(
                MAX_STREAM_FEC_DATAGRAMS as nat,
            ),
            StreamFecError::Encode => "failed to encode stream slot for mesh RaptorQ-FEC"@,
            StreamFecError::GeometryChanged { expected, encoded } =>
                "RaptorQ-FEC geometry changed while reserving concurrent wire ids: expected 1 block(s) and "@
                + decimal(expected as nat) + " packet(s), encoded 1 block(s) and "@ + decimal(
                encoded as nat,
            ) + " packet(s)"@,
        }
    }

    /// What the error says.
    pub fn message(self) -> (r: String)
        ensures
            r@ == self.words(),
    {
        match self {
            StreamFecError::ObjectTooLarge { payload_len, max, symbol_size } => {
                let mut text =
                    "stream slot is too large for one RaptorQ source block: got ".to_owned();
                append_decimal(&mut text, payload_len);
                text.append(" bytes, max is ");
                append_decimal(&mut text, max);
                text.append(" bytes for ");
                append_decimal(&mut text, symbol_size as u64);
                text.append("-byte symbols");
                text
            },
            StreamFecError::RepairSpace =>
                "RaptorQ repair-symbol count exceeds the wire sequence space".to_owned(),
            StreamFecError::PacketSpace =>
                "RaptorQ packet count exceeds the wire sequence space".to_owned(),
            StreamFecError::TooManyDatagrams { packet_count } => {
                let mut text = "stream slot requires ".to_owned();
                append_decimal(&mut text, packet_count as u64);
                text.append(" RaptorQ datagrams; limit is ");
                append_decimal(&mut text, MAX_STREAM_FEC_DATAGRAMS as u64);
                text
            },
            StreamFecError::Encode =>
                "failed to encode stream slot for mesh RaptorQ-FEC".to_owned(),
            StreamFecError::GeometryChanged { expected, encoded } => {
                let mut text =
                    "RaptorQ-FEC geometry changed while reserving concurrent wire ids: expected 1 block(s) and ".to_owned();
                append_decimal(&mut text, expected as u64);
                text.append(" packet(s), encoded 1 block(s) and ");
                append_decimal(&mut text, encoded as u64);
                text.append(" packet(s)");
                text
            },
        }
    }
}

/// The symbol size in use for a configured one: never zero.
pub open spec fn symbol_bytes(symbol_size: u16) -> int {
    max_int(symbol_size as int, 1)
}

/// The most bytes that a slot may hold for a symbol size.
pub open spec fn slot_limit(symbol_size: u16) -> int {
    min_int(
        MAX_SOURCE_SYMBOLS_PER_BLOCK * symbol_bytes(symbol_size),
        MAX_STREAM_FEC_OBJECT_BYTES as int,
    )
}

/// Source symbols that a payload takes: as many as cover it, at least one, as far as a `u16`
/// counts.
pub open spec fn symbols_of(byte_len: int, symbol_size: u16) -> int {
    if byte_len == 0 {
        1
    } else {
        min_int(ceil_div(byte_len, symbol_bytes(symbol_size)), u16::MAX as int)
    }
}

/// Repair symbols for a slot: the configured count for every four source symbols.
pub open spec fn repairs_of(payload_len: int, symbol_size: u16, repair_symbols: u32) -> int {
    ceil_div(max_int(payload_len, 1), DEFAULT_SOURCE_SYMBOLS * symbol_bytes(symbol_size))
        * repair_symbols
}

/// How a slot is cut into datagrams, or why it cannot be.
pub open spec fn geometry_of(payload_len: int, symbol_size: u16, repair_symbols: u32) -> Result<
    StreamFecGeometry,
    StreamFecError,
> {
    let repairs = repairs_of(payload_len, symbol_size, repair_symbols);
    let packets = symbols_of(payload_len, symbol_size) + repairs;
    if payload_len > slot_limit(symbol_size) {
        Err(
            StreamFecError::ObjectTooLarge {
                payload_len: payload_len as u64,
                max: slot_limit(symbol_size) as u64,
                symbol_size: symbol_bytes(symbol_size) as u16,
            },
        )
    } else if repairs > u32::MAX {
        Err(StreamFecError::RepairSpace)
    } else if packets > u32::MAX {
        Err(StreamFecError::PacketSpace)
    } else if packets > MAX_STREAM_FEC_DATAGRAMS {
        Err(StreamFecError::TooManyDatagrams { packet_count: packets as u32 })
    } else {
        Ok(
            StreamFecGeometry {
                block_count: 1,
                packet_count: packets as u32,
                repair_symbols: repairs as u32,
            },
        )
    }
}

/// Specifies `raptorq_datagram_fec::source_symbol_count`: the symbols that cover a payload, one for
/// an empty payload, and at most what a `u16` counts; a symbol size of zero counts as one.
pub assume_specification[ raptorq_datagram_fec::source_symbol_count ](
    byte_len: usize,
    symbol_size: u16,
) -> (r: u16)
    ensures
        r == symbols_of(byte_len as int, symbol_size),
;

/// How a slot is cut into datagrams, or why it cannot be.
pub fn stream_fec_geometry(
    payload_len: usize,
    symbol_size: u16,
    repair_symbols_per_legacy_block: u32,
) -> (r: Result<StreamFecGeometry, StreamFecError>)
    ensures
        r == geometry_of(payload_len as int, symbol_size, repair_symbols_per_legacy_block),
{
    let size: u16 = if symbol_size == 0 {
        1
    } else {
        symbol_size
    };
    let by_symbols: u64 = MAX_SOURCE_SYMBOLS_PER_BLOCK * (size as u64);
    let max: u64 = if by_symbols <= MAX_STREAM_FEC_OBJECT_BYTES {
        by_symbols
    } else {
        MAX_STREAM_FEC_OBJECT_BYTES
    };
    if payload_len as u64 > max {
        return Err(
            StreamFecError::ObjectTooLarge {
                payload_len: payload_len as u64,
                max,
                symbol_size: size,
            },
        );
    }
    let length: u64 = if payload_len == 0 {
        1
    } else {
        payload_len as u64
    };
    let legacy_blocks: u64 = ceil_div_u64(length, DEFAULT_SOURCE_SYMBOLS * (size as u64));
    assert(legacy_blocks <= length) by {
        crate::arith::ceil_div_is_least_cover(length as int, DEFAULT_SOURCE_SYMBOLS * (size as int));
        let step = DEFAULT_SOURCE_SYMBOLS * (size as int);
        let blocks = legacy_blocks as int;
        assert(blocks <= length) by (nonlinear_arith)
            requires
                (blocks - 1) * step < length,
                step >= 1,
        ;
    }
    assert(legacy_blocks * repair_symbols_per_legacy_block <= 8_388_608 * 0xffff_ffff)
        by (nonlinear_arith)
        requires
            legacy_blocks <= 8_388_608,
            repair_symbols_per_legacy_block <= 0xffff_ffff,
    ;
    let repairs: u64 = legacy_blocks * (repair_symbols_per_legacy_block as u64);
    if repairs > u32::MAX as u64 {
        return Err(StreamFecError::RepairSpace);
    }
    let symbols: u16 = raptorq_datagram_fec::source_symbol_count(payload_len, size);
    let packets: u64 = symbols as u64 + repairs;
    if packets > u32::MAX as u64 {
        return Err(StreamFecError::PacketSpace);
    }
    if packets > MAX_STREAM_FEC_DATAGRAMS as u64 {
        return Err(StreamFecError::TooManyDatagrams { packet_count: packets as u32 });
    }
    Ok(
        StreamFecGeometry {
            block_count: 1,
            packet_count: packets as u32,
            repair_symbols: repairs as u32,
        },
    )
}

/// The header of a coded datagram.
#[derive(Debug, Clone, Copy, PartialEq, Eq, Structural)]
pub struct FecHeader {
    pub packet_kind: u8,
    pub packet_flags: u8,
    pub block_id: u32,
    pub transfer_length: u32,
    pub packet_sequence: u32,
    pub source_symbols: u16,
    pub symbol_size: u16,
    pub payload_len: u32,
    pub packet_crc32: u32,
}

impl FecHeader {
    /// Whether the header can stand in a datagram.
    pub open spec fn wf(self) -> bool {
        &&& self.packet_kind == 1
        &&& self.packet_flags <= 3
        &&& self.transfer_length > 0
        &&& self.symbol_size > 0
        &&& 0 < self.source_symbols <= MAX_SOURCE_SYMBOLS_PER_BLOCK
        &&& self.source_symbols == ceil_div(self.transfer_length as int, self.symbol_size as int)
    }

    /// Bytes that stand behind the header.
    pub open spec fn body_len(self) -> int {
        self.payload_len + (if self.packet_flags >= 2 {
            8int
        } else {
            0int
        })
    }

    /// The header under another number and checksum.
    pub open spec fn renumbered(self, packet_sequence: u32, packet_crc32: u32) -> FecHeader {
        FecHeader { packet_sequence, packet_crc32, ..self }
    }
}

/// The bytes of a header: its name and version, its length, its kind and flags, and its numbers,
/// the low bytes first.
pub open spec fn fec_header_bytes(header: FecHeader) -> Seq<u8> {
    seq![0x52u8, 0x51, 0x44, 0x32, 2, 32, header.packet_kind, header.packet_flags]
        + spec_u32_to_le_bytes(header.block_id) + spec_u32_to_le_bytes(header.transfer_length)
        + spec_u32_to_le_bytes(header.packet_sequence) + spec_u16_to_le_bytes(header.source_symbols)
        + spec_u16_to_le_bytes(header.symbol_size) + spec_u32_to_le_bytes(header.payload_len)
        + spec_u32_to_le_bytes(header.packet_crc32)
}

/// The numbers that stand where a header has them.
pub open spec fn fec_header_fields(datagram: Seq<u8>) -> FecHeader {
    FecHeader {
        packet_kind: datagram[6],
        packet_flags: datagram[7],
        block_id: spec_u32_from_le_bytes(datagram.subrange(8, 12)),
        transfer_length: spec_u32_from_le_bytes(datagram.subrange(12, 16)),
        packet_sequence: spec_u32_from_le_bytes(datagram.subrange(16, 20)),
        source_symbols: spec_u16_from_le_bytes(datagram.subrange(20, 22)),
        symbol_size: spec_u16_from_le_bytes(datagram.subrange(22, 24)),
        payload_len: spec_u32_from_le_bytes(datagram.subrange(24, 28)),
        packet_crc32: spec_u32_from_le_bytes(datagram.subrange(28, 32)),
    }
}

/// The header that a datagram opens with.
pub open spec fn fec_header(datagram: Seq<u8>) -> Option<FecHeader> {
    let header = fec_header_fields(datagram);
    if datagram.len() < HEADER_LEN || datagram.take(6) != seq![0x52u8, 0x51, 0x44, 0x32, 2, 32]
        || !header.wf() {
        None
    } else {
        Some(header)
    }
}

/// A header that is written is read back, whatever stands behind it.
pub proof fn fec_headers_read_back(header: FecHeader, rest: Seq<u8>)
    requires
        header.wf(),
    ensures
        fec_header_bytes(header).len() == HEADER_LEN,
        fec_header(fec_header_bytes(header) + rest) == Some(header),
{
    lemma_auto_spec_u16_to_from_le_bytes();
    lemma_auto_spec_u32_to_from_le_bytes();
    let data = fec_header_bytes(header) + rest;
    assert(spec_u32_to_le_bytes(header.block_id).len() == 4);
    assert(spec_u32_to_le_bytes(header.transfer_length).len() == 4);
    assert(spec_u32_to_le_bytes(header.packet_sequence).len() == 4);
    assert(spec_u16_to_le_bytes(header.source_symbols).len() == 2);
    assert(spec_u16_to_le_bytes(header.symbol_size).len() == 2);
    assert(spec_u32_to_le_bytes(header.payload_len).len() == 4);
    assert(spec_u32_to_le_bytes(header.packet_crc32).len() == 4);
    assert(data.take(6) =~= seq![0x52u8, 0x51, 0x44, 0x32, 2, 32]);
    assert(data.subrange(8, 12) =~= spec_u32_to_le_bytes(header.block_id));
    assert(data.subrange(12, 16) =~= spec_u32_to_le_bytes(header.transfer_length));
    assert(data.subrange(16, 20) =~= spec_u32_to_le_bytes(header.packet_sequence));
    assert(data.subrange(20, 22) =~= spec_u16_to_le_bytes(header.source_symbols));
    assert(data.subrange(22, 24) =~= spec_u16_to_le_bytes(header.symbol_size));
    assert(data.subrange(24, 28) =~= spec_u32_to_le_bytes(header.payload_len));
    assert(data.subrange(28, 32) =~= spec_u32_to_le_bytes(header.packet_crc32));
}

/// The checksum of a header and of what stands behind it.
pub uninterp spec fn fec_checksum(header: FecHeader, body: Seq<u8>) -> u32;

/// The datagrams that carry a payload, or nothing where the coder refuses it.
pub uninterp spec fn fec_datagrams(
    payload: Seq<u8>,
    repair_symbols: u32,
    symbol_size: u16,
    block_id: u32,
) -> Option<Seq<Seq<u8>>>;

/// What a list of datagrams holds.
pub open spec fn datagram_views(datagrams: Seq<Vec<u8>>) -> Seq<Seq<u8>> {
    datagrams.map_values(|datagram: Vec<u8>| datagram@)
}

/// Calls `raptorq_datagram_fec::DatagramFecHeader::decode`.
///
/// Claimed of it: it reads the header where its numbers stand, and nothing where the header is cut
/// off, is not named so, or cannot stand in a datagram.
#[verifier::external_body]
fn decode_fec_header(datagram: &[u8]) -> (r: Option<FecHeader>)
    ensures
        r == fec_header(datagram@),
{
    let header = DatagramFecHeader::decode(datagram).ok()?;
    Some(FecHeader { packet_kind: header.packet_kind, packet_flags: header.packet_flags,
        block_id: header.block_id, transfer_length: header.transfer_length,
        packet_sequence: header.packet_sequence, source_symbols: header.source_symbols,
        symbol_size: header.symbol_size, payload_len: header.payload_len,
        packet_crc32: header.packet_crc32 })
}

/// Calls `raptorq_datagram_fec::DatagramFecHeader::compute_packet_crc32`.
///
/// Claimed of it: it succeeds on a header that can stand in a datagram in front of as many bytes
/// as the header announces, and on no other, and looks at the two alone.
#[verifier::external_body]
fn compute_packet_crc32(h: FecHeader, body: &[u8]) -> (r: Option<u32>)
    ensures
        r == (if h.wf() && body@.len() == h.body_len() {
            Some(fec_checksum(h, body@))
        } else {
            None
        }),
{
    let header = DatagramFecHeader { packet_kind: h.packet_kind, packet_flags: h.packet_flags,
        block_id: h.block_id, transfer_length: h.transfer_length, packet_sequence: h.packet_sequence,
        source_symbols: h.source_symbols, symbol_size: h.symbol_size, payload_len: h.payload_len,
        packet_crc32: h.packet_crc32 };
    header.compute_packet_crc32(body).ok()
}

/// Calls `raptorq_datagram_fec::DatagramFecHeader::encode`.
///
/// Claimed of it: it succeeds on a header that can stand in a datagram, and on no other, and writes
/// the header's numbers where they stand.
#[verifier::external_body]
fn encode_fec_header(h: FecHeader) -> (r: Option<Vec<u8>>)
    ensures
        r is Some <==> h.wf(),
        r matches Some(bytes) ==> bytes@ == fec_header_bytes(h),
{
    let header = DatagramFecHeader { packet_kind: h.packet_kind, packet_flags: h.packet_flags,
        block_id: h.block_id, transfer_length: h.transfer_length, packet_sequence: h.packet_sequence,
        source_symbols: h.source_symbols, symbol_size: h.symbol_size, payload_len: h.payload_len,
        packet_crc32: h.packet_crc32 };
    let mut bytes = vec![0u8; HEADER_LEN];
    header.encode(&mut bytes).ok()?;
    Some(bytes)
}

/// The header of the datagrams that carry a payload, but for their numbers and checksums.
pub open spec fn slot_header(
    payload_len: int,
    symbol_size: u16,
    block_id: u32,
    packet_sequence: u32,
    packet_crc32: u32,
) -> FecHeader {
    FecHeader {
        packet_kind: 1,
        packet_flags: 1,
        block_id,
        transfer_length: payload_len as u32,
        packet_sequence,
        source_symbols: symbols_of(payload_len, symbol_size) as u16,
        symbol_size: symbol_bytes(symbol_size) as u16,
        payload_len: (ENCODING_PACKET_HEADER_LEN + symbol_bytes(symbol_size)) as u32,
        packet_crc32,
    }
}

/// A source symbol of a payload: its bytes in order, and zeros behind the last.
pub open spec fn source_symbol(payload: Seq<u8>, symbol_size: u16, index: int) -> Seq<u8> {
    let size = symbol_bytes(symbol_size);
    Seq::new(
        size as nat,
        |k: int|
            if index * size + k < payload.len() {
                payload[index * size + k]
            } else {
                0
            },
    )
}

/// Calls `raptorq_datagram_fec::DatagramFecEncoder::encode_object_with_repair_symbols` on a new
/// coder with this symbol size and first block.
///
/// Claimed of it: it takes every payload that fits one block; what it gives depends on the arguments
/// alone; there is a datagram for each source symbol, in order, and behind them one for each repair
/// symbol; each consists of a header of the block, the symbol's number and the symbol; source symbols
/// are the payload's own bytes. What the repair symbols hold is left unsaid.
#[verifier::external_body]
fn encode_object(payload: &[u8], repair_symbols: u32, symbol_size: u16, block_id: u32) -> (r: Option<
    Vec<Vec<u8>>,
>)
    requires
        0 < payload@.len() <= slot_limit(symbol_size),
        repair_symbols <= MAX_STREAM_FEC_DATAGRAMS,
    ensures
        r is Some,
        match r {
            Some(datagrams) => {
                &&& fec_datagrams(payload@, repair_symbols, symbol_size, block_id) == Some(
                    datagram_views(datagrams@),
                )
                &&& datagrams@.len() == symbols_of(payload@.len() as int, symbol_size)
                    + repair_symbols
                &&& forall|i: int|
                    0 <= i < datagrams@.len() ==> {
                        &&& (#[trigger] datagrams@[i])@.len() == HEADER_LEN
                            + ENCODING_PACKET_HEADER_LEN + symbol_bytes(symbol_size)
                        &&& fec_header(datagrams@[i]@) matches Some(header)
                        &&& header == slot_header(
                            payload@.len() as int,
                            symbol_size,
                            block_id,
                            header.packet_sequence,
                            header.packet_crc32,
                        )
                    }
                &&& forall|i: int|
                    0 <= i < symbols_of(payload@.len() as int, symbol_size) ==> (
                    #[trigger] datagrams@[i])@.skip(
                        (HEADER_LEN + ENCODING_PACKET_HEADER_LEN) as int,
                    ) == source_symbol(payload@, symbol_size, i)
            },
            None => fec_datagrams(payload@, repair_symbols, symbol_size, block_id) is None,
        },
{
    DatagramFecEncoder::new()
        .with_initial_block_id(block_id)
        .with_symbol_size(symbol_size)
        .encode_object_with_repair_symbols(payload, repair_symbols)
        .ok()
}

/// A datagram of a slot under the number that was reserved for it, behind its stream's id.
pub open spec fn framed_datagram(
    stream_id: u64,
    datagram: Seq<u8>,
    header: FecHeader,
    packet_sequence: u32,
) -> Seq<u8> {
    let body = datagram.skip(HEADER_LEN as int);
    let renumbered = header.renumbered(packet_sequence, header.packet_crc32);
    be_bytes(stream_id as nat, 8) + fec_header_bytes(
        header.renumbered(packet_sequence, fec_checksum(renumbered, body)),
    ) + body
}

/// The datagrams of a slot under the numbers that were reserved for them, from a first one on.
pub open spec fn framed_datagrams(
    stream_id: u64,
    datagrams: Seq<Seq<u8>>,
    initial_packet_sequence: u32,
) -> Seq<Seq<u8>> {
    Seq::new(
        datagrams.len(),
        |i: int|
            framed_datagram(
                stream_id,
                datagrams[i],
                fec_header(datagrams[i])->0,
                wrapped_u32(initial_packet_sequence + i),
            ),
    )
}

/// Whether a datagram carries a block's symbol under a number, for a stream.
pub open spec fn carries(
    framed: Seq<u8>,
    stream_id: u64,
    payload_len: int,
    symbol_size: u16,
    block_id: u32,
    packet_sequence: u32,
) -> bool {
    &&& framed.len() == STREAM_PREFIX_LEN + HEADER_LEN + ENCODING_PACKET_HEADER_LEN + symbol_bytes(
        symbol_size,
    )
    &&& be_value(framed.take(STREAM_PREFIX_LEN as int)) == stream_id
    &&& fec_header(framed.skip(STREAM_PREFIX_LEN as int)) matches Some(header)
    &&& header == slot_header(
        payload_len,
        symbol_size,
        block_id,
        packet_sequence,
        header.packet_crc32,
    )
}

/// The slot that source datagrams carry: the bytes behind their symbols' numbers, up to a length.
pub open spec fn carried_slot(datagrams: Seq<Seq<u8>>, symbol_size: u16, payload_len: nat) -> Seq<u8> {
    let size = symbol_bytes(symbol_size);
    Seq::new(
        payload_len,
        |n: int|
            datagrams[n / size][STREAM_PREFIX_LEN + HEADER_LEN + ENCODING_PACKET_HEADER_LEN + n
                % size],
    )
}

/// Puts a coded datagram under another number and behind its stream's id.
fn frame_datagram(stream_id: u64, datagram: &[u8], packet_sequence: u32) -> (r: Vec<u8>)
    requires
        fec_header(datagram@) matches Some(header) && header.wf() && datagram@.len() == HEADER_LEN
            + header.body_len(),
    ensures
        r@ == framed_datagram(stream_id, datagram@, fec_header(datagram@)->0, packet_sequence),
        r@.len() == STREAM_PREFIX_LEN + datagram@.len(),
        r@.skip((STREAM_PREFIX_LEN + HEADER_LEN) as int) == datagram@.skip(HEADER_LEN as int),
        be_value(r@.take(STREAM_PREFIX_LEN as int)) == stream_id,
        fec_header(r@.skip(STREAM_PREFIX_LEN as int)) matches Some(header) && header == (
        fec_header(datagram@)->0).renumbered(packet_sequence, header.packet_crc32),
{
    let mut framed: Vec<u8> = Vec::new();
    let body = slice_subrange(datagram, HEADER_LEN, datagram.len());
    assert(body@ =~= datagram@.skip(HEADER_LEN as int));
    if let Some(decoded) = decode_fec_header(datagram) {
        let mut header = decoded;
        header.packet_sequence = packet_sequence;
        if let Some(checksum) = compute_packet_crc32(header, body) {
            header.packet_crc32 = checksum;
            if let Some(bytes) = encode_fec_header(header) {
                put_be_u64(&mut framed, stream_id);
                let ghost prefix = framed@;
                framed.extend_from_slice(bytes.as_slice());
                framed.extend_from_slice(body);
                proof {
                    fec_headers_read_back(header, body@);
                    be_bytes_len(stream_id as nat, 8);
                    reveal_with_fuel(crate::wire::be_range, 9);
                    be_round_trip(stream_id as nat, 8);
                    assert(prefix =~= be_bytes(stream_id as nat, 8));
                    assert(framed@.take(8) =~= prefix);
                    assert(framed@.skip(8) =~= bytes@ + body@);
                    assert(framed@ =~= prefix + bytes@ + body@);
                    assert(framed@.skip(40) =~= body@);
                }
            }
        }
    }
    framed
}

/// Why an empty slot is not coded: it has no source symbol, so its repair symbols stand for nothing,
/// and without any there is no datagram.
pub open spec fn empty_slot_error(geometry: StreamFecGeometry) -> StreamFecError {
    if geometry.repair_symbols > 0 {
        StreamFecError::Encode
    } else {
        StreamFecError::GeometryChanged { expected: geometry.packet_count, encoded: 0 }
    }
}

/// The datagrams that carry a slot: the coder's, numbered from a first number on, each behind the
/// stream's id.
pub fn encode_stream_fec_payload(
    stream_id: u64,
    payload: &[u8],
    repair_symbols: u32,
    symbol_size: u16,
    initial_block_id: u32,
    initial_packet_sequence: u32,
) -> (r: Result<Vec<Vec<u8>>, StreamFecError>)
    ensures
        match geometry_of(payload@.len() as int, symbol_size, repair_symbols) {
            Err(error) => r == Err::<Vec<Vec<u8>>, StreamFecError>(error),
            Ok(geometry) => if payload@.len() == 0 {
                r == Err::<Vec<Vec<u8>>, StreamFecError>(empty_slot_error(geometry))
            } else {
                match fec_datagrams(
                    payload@,
                    geometry.repair_symbols,
                    symbol_size,
                    initial_block_id,
                ) {
                    None => r == Err::<Vec<Vec<u8>>, StreamFecError>(StreamFecError::Encode),
                    Some(datagrams) => {
                        &&& r matches Ok(framed)
                        &&& datagram_views(framed@) == framed_datagrams(
                            stream_id,
                            datagrams,
                            initial_packet_sequence,
                        )
                        &&& framed@.len() == geometry.packet_count
                        &&& forall|i: int|
                            0 <= i < framed@.len() ==> carries(
                                #[trigger] datagram_views(framed@)[i],
                                stream_id,
                                payload@.len() as int,
                                symbol_size,
                                initial_block_id,
                                wrapped_u32(initial_packet_sequence + i),
                            )
                        &&& carried_slot(datagram_views(framed@), symbol_size, payload@.len())
                            == payload@
                    },
                }
            },
        },
        payload@.len() > 0 && geometry_of(payload@.len() as int, symbol_size, repair_symbols) is Ok
            ==> r is Ok,
{
    let geometry = match stream_fec_geometry(payload.len(), symbol_size, repair_symbols) {
        Ok(geometry) => geometry,
        Err(error) => {
            return Err(error);
        },
    };
    if payload.len() == 0 {
        return Err(
            if geometry.repair_symbols > 0 {
                StreamFecError::Encode
            } else {
                StreamFecError::GeometryChanged { expected: geometry.packet_count, encoded: 0 }
            },
        );
    }
    assert(geometry.repair_symbols <= MAX_STREAM_FEC_DATAGRAMS);
    let datagrams = match encode_object(
        payload,
        geometry.repair_symbols,
        symbol_size,
        initial_block_id,
    ) {
        Some(datagrams) => datagrams,
        None => {
            return Err(StreamFecError::Encode);
        },
    };
    let ghost coded = datagram_views(datagrams@);
    let ghost wanted = framed_datagrams(stream_id, coded, initial_packet_sequence);
    let mut framed: Vec<Vec<u8>> = Vec::new();
    let mut i: usize = 0;
    while i < datagrams.len()
        invariant
            i <= datagrams@.len(),
            datagrams@.len() == geometry.packet_count,
            0 < payload@.len() <= slot_limit(symbol_size),
            framed@.len() == i,
            coded == datagram_views(datagrams@),
            wanted == framed_datagrams(stream_id, coded, initial_packet_sequence),
            datagram_views(framed@) == wanted.take(i as int),
            forall|k: int|
                0 <= k < datagrams@.len() ==> {
                    &&& (#[trigger] datagrams@[k])@.len() == HEADER_LEN + ENCODING_PACKET_HEADER_LEN
                        + symbol_bytes(symbol_size)
                    &&& fec_header(datagrams@[k]@) matches Some(header)
                    &&& header == slot_header(
                        payload@.len() as int,
                        symbol_size,
                        initial_block_id,
                        header.packet_sequence,
                        header.packet_crc32,
                    )
                },
            forall|k: int|
                0 <= k < symbols_of(payload@.len() as int, symbol_size) ==> (
                #[trigger] datagrams@[k])@.skip(
                    (HEADER_LEN + ENCODING_PACKET_HEADER_LEN) as int,
                ) == source_symbol(payload@, symbol_size, k),
            symbols_of(payload@.len() as int, symbol_size) <= datagrams@.len(),
            forall|k: int|
                0 <= k < i && k < symbols_of(payload@.len() as int, symbol_size) ==> (
                #[trigger] datagram_views(framed@)[k]).skip(44) == source_symbol(
                    payload@,
                    symbol_size,
                    k,
                ),
            forall|k: int|
                0 <= k < i ==> carries(
                    #[trigger] datagram_views(framed@)[k],
                    stream_id,
                    payload@.len() as int,
                    symbol_size,
                    initial_block_id,
                    wrapped_u32(initial_packet_sequence + k),
                ),
        decreases datagrams@.len() - i,
    {
        let sequence: u32 = initial_packet_sequence.wrapping_add(i as u32);
        let datagram = datagrams[i].as_slice();
        proof {
            let header = fec_header(datagram@)->0;
            let size = symbol_bytes(symbol_size);
            let len = payload@.len() as int;
            slot_symbols_fit(len, symbol_size);
            assert(header.wf());
            assert(sequence == wrapped_u32(initial_packet_sequence + i));
        }
        let one = frame_datagram(stream_id, datagram, sequence);
        let ghost older = datagram_views(framed@);
        framed.push(one);
        proof {
            assert(datagram_views(framed@) =~= older.push(one@));
            assert(datagram_views(framed@) =~= wanted.take(i + 1));
            assert(one@.skip(40).skip(4) =~= one@.skip(44));
            assert(datagram@.skip(32).skip(4) =~= datagram@.skip(36));
            assert forall|k: int|
                0 <= k < i + 1 && k < symbols_of(payload@.len() as int, symbol_size) implies (
            #[trigger] datagram_views(framed@)[k]).skip(44) == source_symbol(
                payload@,
                symbol_size,
                k,
            ) by {
                if k < i {
                    assert(datagram_views(framed@)[k] == older[k]);
                }
            }
            assert forall|k: int| 0 <= k < i + 1 implies carries(
                #[trigger] datagram_views(framed@)[k],
                stream_id,
                payload@.len() as int,
                symbol_size,
                initial_block_id,
                wrapped_u32(initial_packet_sequence + k),
            ) by {
                if k < i {
                    assert(datagram_views(framed@)[k] == older[k]);
                }
            }
        }
        i = i + 1;
    }
    assert(datagram_views(framed@) =~= wanted);
    proof {
        slot_is_carried(datagram_views(framed@), payload@, symbol_size);
    }
    Ok(framed)
}

/// Source symbols give back the slot that they are made of.
proof fn slot_is_carried(datagrams: Seq<Seq<u8>>, payload: Seq<u8>, symbol_size: u16)
    requires
        0 < payload.len() <= slot_limit(symbol_size),
        symbols_of(payload.len() as int, symbol_size) <= datagrams.len(),
        forall|i: int|
            0 <= i < datagrams.len() ==> (#[trigger] datagrams[i]).len() == 44 + symbol_bytes(
                symbol_size,
            ),
        forall|i: int|
            0 <= i < symbols_of(payload.len() as int, symbol_size) ==> (#[trigger] datagrams[i]).skip(
                44,
            ) == source_symbol(payload, symbol_size, i),
    ensures
        carried_slot(datagrams, symbol_size, payload.len()) == payload,
{
    let size = symbol_bytes(symbol_size);
    let len = payload.len() as int;
    let carried = carried_slot(datagrams, symbol_size, payload.len());
    slot_symbols_fit(len, symbol_size);
    crate::arith::ceil_div_is_least_cover(len, size);
    assert forall|n: int| 0 <= n < len implies #[trigger] carried[n] == payload[n] by {
        let (i, k) = (n / size, n % size);
        let count = symbols_of(len, symbol_size);
        assert(0 <= i < count && 0 <= k < size && i * size + k == n) by (nonlinear_arith)
            requires
                0 <= n < len,
                count * size >= len,
                size >= 1,
                i == n / size,
                k == n % size,
        ;
        assert(datagrams[i].skip(44)[k] == datagrams[i][44 + k]);
        assert(source_symbol(payload, symbol_size, i)[k] == payload[n]);
    }
    assert(carried =~= payload);
}

/// The symbols of a slot within the limit are counted exactly, and fit one block.
proof fn slot_symbols_fit(payload_len: int, symbol_size: u16)
    requires
        0 < payload_len <= slot_limit(symbol_size),
    ensures
        symbols_of(payload_len, symbol_size) == ceil_div(payload_len, symbol_bytes(symbol_size)),
        0 < symbols_of(payload_len, symbol_size) <= MAX_SOURCE_SYMBOLS_PER_BLOCK,
{
    let size = symbol_bytes(symbol_size);
    let count = ceil_div(payload_len, size);
    crate::arith::ceil_div_is_least_cover(payload_len, size);
    assert(0 < count <= 56_403) by (nonlinear_arith)
        requires
            (count - 1) * size < payload_len,
            count * size >= payload_len,
            0 < payload_len <= 56_403 * size,
            size >= 1,
    ;
}

/// Two slots whose numbers were reserved one behind the other share no datagram number, as long as
/// the two together do not exhaust the numbers.
pub proof fn reserved_numbers_are_disjoint(first: u32, count: u32, other_count: u32, i: int, j: int)
    requires
        count + other_count <= u32::MAX,
        0 <= i < count,
        0 <= j < other_count,
    ensures
        wrapped_u32(first + i) != wrapped_u32(wrapped_u32(first + count) + j),
{
}

/// Every slot that is short enough to be coded is covered by its source symbols, and the last of
/// them is needed.
pub proof fn source_symbols_cover_the_slot(payload_len: int, symbol_size: u16, repair_symbols: u32)
    requires
        payload_len > 0,
        geometry_of(payload_len, symbol_size, repair_symbols) is Ok,
    ensures
        ({
            let geometry = geometry_of(payload_len, symbol_size, repair_symbols)->Ok_0;
            let symbols = geometry.packet_count - geometry.repair_symbols;
            &&& symbols * symbol_bytes(symbol_size) >= payload_len
            &&& (symbols - 1) * symbol_bytes(symbol_size) < payload_len
        }),
{
    slot_symbols_fit(payload_len, symbol_size);
    crate::arith::ceil_div_is_least_cover(payload_len, symbol_bytes(symbol_size));
}

/// Repair symbols grow with the slot: there are at least as many as are configured for every four
/// source symbols, and no more than for every four that were begun; a slot that is longer by four
/// symbols has that many more. A slot is one block, whose source symbols cover it, and takes no more
/// datagrams than are allowed.
pub proof fn repairs_grow_with_the_slot(payload_len: int, symbol_size: u16, repair_symbols: u32)
    requires
        payload_len > 0,
        geometry_of(payload_len, symbol_size, repair_symbols) is Ok,
    ensures
        ({
            let size: int = if symbol_size == 0 {
                1
            } else {
                symbol_size as int
            };
            let geometry = geometry_of(payload_len, symbol_size, repair_symbols)->Ok_0;
            let sources = geometry.packet_count - geometry.repair_symbols;
            let longer = geometry_of(payload_len + 4 * size, symbol_size, repair_symbols);
            &&& geometry.block_count == 1
            &&& geometry.packet_count <= 32_768
            &&& sources * size >= payload_len
            &&& (sources - 1) * size < payload_len
            &&& geometry.repair_symbols * 4 >= sources * repair_symbols
            &&& geometry.repair_symbols * 4 <= (sources + 3) * repair_symbols
            &&& longer matches Ok(more) ==> more.repair_symbols == geometry.repair_symbols
                + repair_symbols && more.packet_count == geometry.packet_count + 4 + repair_symbols
        }),
{
    let size = symbol_bytes(symbol_size);
    let count = symbols_of(payload_len, symbol_size);
    let blocks = ceil_div(payload_len, 4 * size);
    slot_symbols_fit(payload_len, symbol_size);
    crate::arith::ceil_div_is_least_cover(payload_len, size);
    crate::arith::ceil_div_is_least_cover(payload_len, 4 * size);
    assert(count <= 4 * blocks <= count + 3) by (nonlinear_arith)
        requires
            count * size >= payload_len,
            (count - 1) * size < payload_len,
            blocks * (4 * size) >= payload_len,
            (blocks - 1) * (4 * size) < payload_len,
            size >= 1,
    ;
    assert(4 * (blocks * repair_symbols) >= count * repair_symbols) by (nonlinear_arith)
        requires
            count <= 4 * blocks,
            repair_symbols >= 0,
    ;
    assert(4 * (blocks * repair_symbols) <= (count + 3) * repair_symbols) by (nonlinear_arith)
        requires
            4 * blocks <= count + 3,
            repair_symbols >= 0,
    ;
    let further = payload_len + 4 * size;
    if geometry_of(further, symbol_size, repair_symbols) is Ok {
        slot_symbols_fit(further, symbol_size);
        crate::arith::ceil_div_is_least_cover(further, size);
        crate::arith::ceil_div_is_least_cover(further, 4 * size);
        let more = symbols_of(further, symbol_size);
        let wider = ceil_div(further, 4 * size);
        assert(more == count + 4) by (nonlinear_arith)
            requires
                count * size >= payload_len,
                (count - 1) * size < payload_len,
                more * size >= payload_len + 4 * size,
                (more - 1) * size < payload_len + 4 * size,
                size >= 1,
        ;
        assert(wider == blocks + 1) by (nonlinear_arith)
            requires
                blocks * (4 * size) >= payload_len,
                (blocks - 1) * (4 * size) < payload_len,
                wider * (4 * size) >= payload_len + 4 * size,
                (wider - 1) * (4 * size) < payload_len + 4 * size,
                size >= 1,
        ;
        assert((blocks + 1) * repair_symbols == blocks * repair_symbols + repair_symbols)
            by (nonlinear_arith);
    }
}

/// A slot is refused only where it is longer than eight mebibytes or than one block carries, or takes
/// too many datagrams.
pub proof fn only_long_slots_are_refused(payload_len: int, symbol_size: u16, repair_symbols: u32)
    requires
        payload_len > 0,
    ensures
        ({
            let size: int = if symbol_size == 0 {
                1
            } else {
                symbol_size as int
            };
            let geometry = geometry_of(payload_len, symbol_size, repair_symbols);
            &&& geometry matches Err(StreamFecError::ObjectTooLarge { payload_len: said, max, symbol_size: used }) ==> max
                < payload_len && used == size && (max == 8_388_608 || max == 56_403 * size)
            &&& payload_len > 8_388_608 || payload_len > 56_403 * size ==> geometry is Err
                && geometry->Err_0 is ObjectTooLarge
            &&& payload_len <= 8_388_608 && (payload_len + size) * (4 + repair_symbols)
                + 4 * size * repair_symbols <= 32_768 * 4 * size ==> geometry is Ok
            &&& repair_symbols == 0 && payload_len <= 8_388_608 && payload_len <= 32_768 * size
                ==> geometry is Ok
        }),
{
    let size = symbol_bytes(symbol_size);
    if payload_len <= slot_limit(symbol_size) {
        let count = symbols_of(payload_len, symbol_size);
        let blocks = ceil_div(payload_len, 4 * size);
        let repairs = blocks * repair_symbols;
        slot_symbols_fit(payload_len, symbol_size);
        crate::arith::ceil_div_is_least_cover(payload_len, size);
        crate::arith::ceil_div_is_least_cover(payload_len, 4 * size);
        if repair_symbols == 0 && payload_len <= 32_768 * size {
            assert(count <= 32_768) by (nonlinear_arith)
                requires
                    (count - 1) * size < payload_len,
                    payload_len <= 32_768 * size,
                    size >= 1,
            ;
            assert(repairs == 0) by (nonlinear_arith)
                requires
                    repairs == blocks * repair_symbols,
                    repair_symbols == 0,
            ;
        }
        if (payload_len + size) * (4 + repair_symbols) + 4 * size * repair_symbols <= 32_768 * 4
            * size {
            assert(count + repairs <= 32_768) by (nonlinear_arith)
                requires
                    (count - 1) * size < payload_len,
                    (blocks - 1) * (4 * size) < payload_len,
                    repairs == blocks * repair_symbols,
                    (payload_len + size) * (4 + repair_symbols) + 4 * size * repair_symbols
                        <= 32_768 * 4 * size,
                    size >= 1,
                    repair_symbols >= 0,
            {
                assert(count * size <= payload_len + size - 1);
                assert(4 * size * blocks <= payload_len + 4 * size);
                assert(4 * size * repairs <= (payload_len + 4 * size) * repair_symbols);
                assert(4 * size * (count + repairs) <= 4 * (payload_len + size) + (payload_len + 4
                    * size) * repair_symbols);
            }
        }
    } else {
        if payload_len <= 8_388_608 {
            assert((payload_len + size) * (4 + repair_symbols) > 32_768 * 4 * size)
                by (nonlinear_arith)
                requires
                    payload_len > 56_403 * size,
                    size >= 1,
                    repair_symbols >= 0,
            ;
            assert(4 * size * repair_symbols >= 0) by (nonlinear_arith)
                requires
                    size >= 1,
                    repair_symbols >= 0,
            ;
            assert(32_768 * size < payload_len) by (nonlinear_arith)
                requires
                    payload_len > 56_403 * size,
                    size >= 1,
            ;
        }
    }
}

/// Framing names the stream in front, numbers the datagrams one behind the other, and keeps all else
/// of a header and what stands behind it.
pub proof fn framing_only_numbers(
    stream_id: u64,
    datagrams: Seq<Seq<u8>>,
    initial_packet_sequence: u32,
    i: int,
)
    requires
        0 <= i < datagrams.len(),
        fec_header(datagrams[i]) is Some,
        initial_packet_sequence + i <= u32::MAX,
    ensures
        ({
            let framed = framed_datagrams(stream_id, datagrams, initial_packet_sequence);
            let own = fec_header(framed[i].skip(8));
            &&& framed.len() == datagrams.len()
            &&& framed[i].len() == datagrams[i].len() + 8
            &&& be_value(framed[i].take(8)) == stream_id
            &&& framed[i].skip(8 + HEADER_LEN) == datagrams[i].skip(HEADER_LEN as int)
            &&& own is Some
            &&& own->0 == FecHeader {
                packet_sequence: (initial_packet_sequence + i) as u32,
                packet_crc32: own->0.packet_crc32,
                ..fec_header(datagrams[i])->0
            }
        }),
{
    let framed = framed_datagrams(stream_id, datagrams, initial_packet_sequence);
    let header = fec_header(datagrams[i])->0;
    let sequence = wrapped_u32(initial_packet_sequence + i);
    let body = datagrams[i].skip(HEADER_LEN as int);
    let numbered = header.renumbered(
        sequence,
        fec_checksum(header.renumbered(sequence, header.packet_crc32), body),
    );
    reveal_with_fuel(crate::wire::be_range, 9);
    be_round_trip(stream_id as nat, 8);
    fec_headers_read_back(numbered, body);
    assert(framed[i].skip(8) =~= fec_header_bytes(numbered) + body);
    assert(framed[i].take(8) =~= be_bytes(stream_id as nat, 8));
    assert(framed[i].skip(8 + HEADER_LEN) =~= body);
}

/// The symbols of a slot hold its bytes one behind the other, and zeros behind the last.
pub proof fn symbols_hold_the_slot(payload: Seq<u8>, symbol_size: u16, n: int)
    requires
        0 <= n,
    ensures
        ({
            let size: int = if symbol_size == 0 {
                1
            } else {
                symbol_size as int
            };
            let symbol = source_symbol(payload, symbol_size, n / size);
            &&& symbol.len() == size
            &&& symbol[n % size] == (if n < payload.len() {
                payload[n]
            } else {
                0
            })
        }),
{
    let size = symbol_bytes(symbol_size);
    assert(n == (n / size) * size + n % size && 0 <= n % size < size) by (nonlinear_arith)
        requires
            size > 0,
    ;
}

} // verus!
