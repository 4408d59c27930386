//! Frames, settings and headers with which a session over QUIC is opened, and its datagrams.
use crate::wire::{
    be_bytes, be_bytes_cut, be_bytes_len, be_bytes_split, be_range, be_round_trip, be_value,
    be_value_join, put_be_u32, put_be_u64,
};
use vstd::prelude::*;
use vstd::slice::slice_subrange;
use vstd::string::*;

verus! {

/// The bytes of a number: as few as hold it, the first of which says how many they are.
pub open spec fn varint(value: u64) -> Seq<u8> {
    if value < 64 {
        be_bytes(value as nat, 1)
    } else if value < 16_384 {
        be_bytes((value + 0x4000) as nat, 2)
    } else if value < 1_073_741_824 {
        be_bytes((value + 0x8000_0000) as nat, 4)
    } else {
        be_bytes((value | 0xc000_0000_0000_0000) as nat, 8)
    }
}

/// Appends the bytes of a number.
pub fn encode_varint(value: u64, out: &mut Vec<u8>)
    ensures
        final(out)@ == old(out)@ + varint(value),
{
    proof {
        reveal_with_fuel(be_bytes, 3);
    }
    if value < 64 {
        out.push(value as u8);
        assert(be_bytes(value as nat, 1) =~= seq![value as u8]);
        assert(out@ =~= old(out)@ + varint(value));
    } else if value < 16_384 {
        let marked: u64 = value + 0x4000;
        out.push((marked / 256) as u8);
        out.push((marked % 256) as u8);
        assert(be_bytes(marked as nat, 2) =~= seq![(marked / 256) as u8, (marked % 256) as u8]);
        assert(out@ =~= old(out)@ + varint(value));
    } else if value < 1_073_741_824 {
        put_be_u32(out, (value + 0x8000_0000) as u32);
    } else {
        put_be_u64(out, value | 0xc000_0000_0000_0000);
    }
}

/// How many bytes a number takes whose first byte is this.
pub open spec fn varint_length(first: u8) -> int {
    if first < 64 {
        1
    } else if first < 128 {
        2
    } else if first < 192 {
        4
    } else {
        8
    }
}

/// How many bytes a number takes whose first byte is this.
pub fn varint_len(first: u8) -> (r: usize)
    ensures
        r == varint_length(first),
{
    if first < 64 {
        1
    } else if first < 128 {
        2
    } else if first < 192 {
        4
    } else {
        8
    }
}

/// The number that bytes hold, but for what their first says of their length.
pub open spec fn varint_number(bytes: Seq<u8>) -> nat {
    be_value(seq![(bytes[0] % 64) as u8] + bytes.skip(1))
}

/// Reads a number whose bytes are all there.
pub fn read_varint(bytes: &[u8]) -> (r: u64)
    requires
        0 < bytes@.len() <= 8,
    ensures
        r == varint_number(bytes@),
{
    let mut value: u64 = (bytes[0] % 64) as u64;
    let mut i: usize = 1;
    let ghost plain = seq![(bytes@[0] % 64) as u8] + bytes@.skip(1);
    proof {
        reveal_with_fuel(be_value, 2);
        reveal_with_fuel(be_range, 2);
        assert(plain.take(1) =~= seq![(bytes@[0] % 64) as u8]);
        assert(plain.take(1).drop_last() =~= Seq::empty());
    }
    while i < bytes.len()
        invariant
            1 <= i <= bytes@.len() <= 8,
            plain == seq![(bytes@[0] % 64) as u8] + bytes@.skip(1),
            value == be_value(plain.take(i as int)),
            value < 64 * be_range((i - 1) as nat),
        decreases bytes@.len() - i,
    {
        proof {
            reveal_with_fuel(be_range, 9);
            assert(plain.take(i + 1).drop_last() =~= plain.take(i as int));
            assert(plain.take(i + 1).last() == bytes@[i as int]);
        }
        value = value * 256 + (bytes[i] as u64);
        i = i + 1;
    }
    assert(plain.take(i as int) =~= plain);
    value
}

/// A number marked with its length is read back.
proof fn marked_reads_back(value: nat, mark: nat, width: nat)
    requires
        width >= 1,
        value < 64 * be_range((width - 1) as nat),
        mark < 4,
    ensures
        ({
            let bytes = be_bytes(value + mark * 64 * be_range((width - 1) as nat), width);
            &&& bytes.len() == width
            &&& bytes[0] / 64 == mark
            &&& varint_number(bytes) == value
        }),
{
    let rest = (width - 1) as nat;
    let range = be_range(rest);
    let marked = value + mark * 64 * range;
    let bytes = be_bytes(marked, width);
    be_bytes_split(marked, 1, rest);
    be_bytes_len(marked, width);
    be_bytes_len(marked, rest);
    be_bytes_cut(marked, rest);
    let high = marked / range;
    reveal_with_fuel(be_bytes, 2);
    assert(be_bytes(high, 1) =~= seq![(high % 256) as u8]);
    assert(bytes[0] == (high % 256) as u8);
    assert(bytes.skip(1) =~= be_bytes(marked, rest));
    assert(high == value / range + mark * 64 && marked % range == value % range && value / range
        < 64) by {
        vstd::arithmetic::div_mod::lemma_fundamental_div_mod(value as int, range as int);
        let q = (value / range) as int;
        let m = (value % range) as int;
        let r = range as int;
        let k = mark as int;
        vstd::arithmetic::div_mod::lemma_mod_bound(value as int, r);
        assert(value + k * 64 * r == r * (q + k * 64) + m) by (nonlinear_arith)
            requires
                value == r * q + m,
        ;
        vstd::arithmetic::div_mod::lemma_fundamental_div_mod_converse(
            marked as int,
            r,
            q + k * 64,
            m,
        );
        assert(q < 64) by (nonlinear_arith)
            requires
                value == r * q + m,
                value < 64 * r,
                m >= 0,
                r > 0,
        ;
    }
    let low = marked % range;
    be_round_trip(low, rest);
    let first = seq![(bytes[0] % 64) as u8];
    be_value_join(first, bytes.skip(1));
    reveal_with_fuel(be_value, 2);
    assert(first.drop_last() =~= Seq::empty());
    assert(be_value(first) == value / range);
    vstd::arithmetic::div_mod::lemma_fundamental_div_mod(value as int, range as int);
    assert((value / range) * range == range * (value / range)) by (nonlinear_arith);
}

/// A number that is written is read back, and its first byte says how long it is.
pub proof fn varints_read_back(value: u64)
    requires
        value < 0x4000_0000_0000_0000,
    ensures
        varint(value).len() == varint_length(varint(value)[0]),
        varint_number(varint(value)) == value,
{
    reveal_with_fuel(be_range, 9);
    assert(be_range(0) == 1 && be_range(1) == 256 && be_range(3) == 0x100_0000 && be_range(7)
        == 0x100_0000_0000_0000);
    if value < 64 {
        marked_reads_back(value as nat, 0, 1);
        assert(value as nat + 0nat * 64 * be_range(0) == value);
    } else if value < 16_384 {
        marked_reads_back(value as nat, 1, 2);
        assert(value as nat + 1nat * 64 * be_range(1) == value + 0x4000);
    } else if value < 1_073_741_824 {
        marked_reads_back(value as nat, 2, 4);
        assert(value as nat + 2nat * 64 * be_range(3) == value + 0x8000_0000);
    } else {
        marked_reads_back(value as nat, 3, 8);
        assert(value as nat + 3nat * 64 * be_range(7) == value + 0xc000_0000_0000_0000);
        assert(value | 0xc000_0000_0000_0000 == value + 0xc000_0000_0000_0000) by (bit_vector)
            requires
                value < 0x4000_0000_0000_0000,
        ;
    }
}

/// A frame: its kind, its length and what it holds.
pub open spec fn frame(kind: u64, payload: Seq<u8>) -> Seq<u8> {
    varint(kind) + varint(payload.len() as u64) + payload
}

/// Puts something into a frame.
pub fn h3_frame(kind: u64, payload: &[u8]) -> (r: Vec<u8>)
    ensures
        r@ == frame(kind, payload@),
{
    let mut out: Vec<u8> = Vec::new();
    encode_varint(kind, &mut out);
    encode_varint(payload.len() as u64, &mut out);
    out.extend_from_slice(payload);
    assert(out@ =~= frame(kind, payload@));
    out
}

/// The settings with which a session is opened: each a number and its value.
pub open spec fn settings() -> Seq<u8> {
    varint(0x08) + varint(1) + varint(0x33) + varint(1) + varint(0x2b60_3742) + varint(1) + varint(
        0x2b60_3743,
    ) + varint(16)
}

/// What the stream of settings starts with: the kind of the stream and the settings' frame.
pub fn webtransport_settings() -> (r: Vec<u8>)
    ensures
        r@ == varint(0) + frame(0x04, settings()),
{
    let mut payload: Vec<u8> = Vec::new();
    encode_varint(0x08, &mut payload);
    encode_varint(1, &mut payload);
    encode_varint(0x33, &mut payload);
    encode_varint(1, &mut payload);
    encode_varint(0x2b60_3742, &mut payload);
    encode_varint(1, &mut payload);
    encode_varint(0x2b60_3743, &mut payload);
    encode_varint(16, &mut payload);
    assert(payload@ =~= settings());
    let mut out: Vec<u8> = Vec::new();
    encode_varint(0x00, &mut out);
    let body = h3_frame(0x04, payload.as_slice());
    out.extend_from_slice(body.as_slice());
    assert(out@ =~= varint(0) + frame(0x04, settings()));
    out
}

/// Two to the power of a number of bits.
pub open spec fn bit_range(bits: u8) -> int {
    match bits {
        0 => 1,
        1 => 2,
        2 => 4,
        3 => 8,
        4 => 16,
        5 => 32,
        6 => 64,
        _ => 128,
    }
}

/// Two to the power of a number of bits.
fn range_of(bits: u8) -> (r: u8)
    ensures
        r == bit_range(bits),
{
    match bits {
        0 => 1,
        1 => 2,
        2 => 4,
        3 => 8,
        4 => 16,
        5 => 32,
        6 => 64,
        _ => 128,
    }
}

/// A number in bytes of seven bits, low bits first, each but the last marked.
pub open spec fn seven_bits(value: nat) -> Seq<u8>
    decreases value,
{
    if value < 128 {
        seq![value as u8]
    } else {
        seq![(value % 128 + 128) as u8] + seven_bits(value / 128)
    }
}

/// A number behind flags in the same byte, continued where it does not fit.
pub open spec fn prefixed_int(prefix_bits: u8, flags: u8, value: u64) -> Seq<u8> {
    let range = bit_range(prefix_bits);
    let marked = (flags * range) % 256;
    if value < range - 1 {
        seq![(marked + value) as u8]
    } else {
        seq![(marked + range - 1) as u8] + seven_bits((value - (range - 1)) as nat)
    }
}

/// Flags in front of a number leave room for it.
proof fn flags_leave_room(flags: int, range: int)
    requires
        0 <= flags,
        range == 2 || range == 4 || range == 8 || range == 16 || range == 32 || range == 64 || range
            == 128,
    ensures
        0 <= (flags * range) % 256 <= 256 - range,
{
    if range == 2 {
        assert((flags * 2) % 256 <= 254);
    } else if range == 4 {
        assert((flags * 4) % 256 <= 252);
    } else if range == 8 {
        assert((flags * 8) % 256 <= 248);
    } else if range == 16 {
        assert((flags * 16) % 256 <= 240);
    } else if range == 32 {
        assert((flags * 32) % 256 <= 224);
    } else if range == 64 {
        assert((flags * 64) % 256 <= 192);
    } else {
        assert((flags * 128) % 256 <= 128);
    }
}

/// Flags, moved in front of a number.
fn flags_before(flags: u8, range: u8) -> (r: u8)
    requires
        range == 2 || range == 4 || range == 8 || range == 16 || range == 32 || range == 64 || range
            == 128,
    ensures
        r == (flags * range) % 256,
        r <= 256 - range,
{
    proof {
        flags_leave_room(flags as int, range as int);
        assert(flags * range <= 255 * 128) by (nonlinear_arith)
            requires
                flags <= 255,
                range <= 128,
        ;
    }
    ((flags as u16) * (range as u16) % 256) as u8
}

/// Appends a number in bytes of seven bits.
fn put_seven_bits(value: u64, out: &mut Vec<u8>)
    ensures
        final(out)@ == old(out)@ + seven_bits(value as nat),
{
    let mut remaining: u64 = value;
    while remaining >= 128
        invariant
            out@ + seven_bits(remaining as nat) == old(out)@ + seven_bits(value as nat),
        decreases remaining,
    {
        let ghost older = out@;
        let byte: u8 = (remaining % 128) as u8 + 128;
        out.push(byte);
        proof {
            assert(older + (seq![byte] + seven_bits((remaining / 128) as nat)) =~= out@
                + seven_bits((remaining / 128) as nat));
        }
        remaining = remaining / 128;
    }
    let ghost older = out@;
    out.push(remaining as u8);
    assert(out@ =~= older + seven_bits(remaining as nat));
}

/// Appends a number behind flags in the same byte.
pub fn encode_qpack_prefixed_int(prefix_bits: u8, flags: u8, value: u64, out: &mut Vec<u8>)
    requires
        1 <= prefix_bits <= 7,
    ensures
        final(out)@ == old(out)@ + prefixed_int(prefix_bits, flags, value),
{
    let range: u8 = range_of(prefix_bits);
    let marked: u8 = flags_before(flags, range);
    let most: u64 = (range as u64) - 1;
    if value < most {
        out.push(marked + (value as u8));
        assert(out@ =~= old(out)@ + prefixed_int(prefix_bits, flags, value));
        return;
    }
    out.push(marked + (range - 1));
    put_seven_bits(value - most, out);
    assert(out@ =~= old(out)@ + prefixed_int(prefix_bits, flags, value));
}

/// The number that bytes of seven bits hold, low bits first, up to the first that is not marked.
pub open spec fn seven_bits_value(bytes: Seq<u8>) -> nat
    decreases bytes.len(),
{
    if bytes.len() == 0 {
        0
    } else if bytes[0] < 128 {
        bytes[0] as nat
    } else {
        (bytes[0] - 128) as nat + 128 * seven_bits_value(bytes.skip(1))
    }
}

/// The number that stands behind flags.
pub open spec fn prefixed_value(prefix_bits: u8, bytes: Seq<u8>) -> nat {
    let range = bit_range(prefix_bits);
    let low = bytes[0] as int % range;
    if low < range - 1 {
        low as nat
    } else {
        (low + seven_bits_value(bytes.skip(1))) as nat
    }
}

/// A number in bytes of seven bits is read back, whatever follows it.
proof fn seven_bits_read_back(value: nat, more: Seq<u8>)
    ensures
        seven_bits_value(seven_bits(value) + more) == value,
    decreases value,
{
    let bytes = seven_bits(value) + more;
    if value >= 128 {
        seven_bits_read_back(value / 128, more);
        assert(bytes.skip(1) =~= seven_bits(value / 128) + more);
    }
}

/// A number behind flags is read back, whatever follows it.
pub proof fn prefixed_ints_read_back(prefix_bits: u8, flags: u8, value: u64, more: Seq<u8>)
    requires
        1 <= prefix_bits <= 7,
    ensures
        prefixed_value(prefix_bits, prefixed_int(prefix_bits, flags, value) + more) == value,
{
    let range = bit_range(prefix_bits);
    let marked = (flags * range) % 256;
    let bytes = prefixed_int(prefix_bits, flags, value) + more;
    let low: int = if value < range - 1 {
        value as int
    } else {
        range - 1
    };
    let f = flags as int;
    assert(marked % range == 0 && marked + range <= 256) by {
        if range == 2 {
            assert((f * 2) % 256 % 2 == 0);
        } else if range == 4 {
            assert((f * 4) % 256 % 4 == 0);
        } else if range == 8 {
            assert((f * 8) % 256 % 8 == 0);
        } else if range == 16 {
            assert((f * 16) % 256 % 16 == 0);
        } else if range == 32 {
            assert((f * 32) % 256 % 32 == 0);
        } else if range == 64 {
            assert((f * 64) % 256 % 64 == 0);
        } else {
            assert((f * 128) % 256 % 128 == 0);
        }
    }
    assert(bytes[0] == (marked + low) as u8);
    vstd::arithmetic::div_mod::lemma_fundamental_div_mod(marked, range);
    vstd::arithmetic::div_mod::lemma_fundamental_div_mod_converse(
        marked + low,
        range,
        marked / range,
        low,
    );
    if value >= range - 1 {
        seven_bits_read_back((value - (range - 1)) as nat, more);
        assert(bytes.skip(1) =~= seven_bits((value - (range - 1)) as nat) + more);
    }
}

/// A text behind flags: its length, and its bytes.
pub open spec fn qpack_string(prefix_bits: u8, flags: u8, value: Seq<u8>) -> Seq<u8> {
    prefixed_int((prefix_bits - 1) as u8, ((flags * 2) % 256) as u8, value.len() as u64) + value
}

/// Appends a text behind flags.
pub fn encode_qpack_string(prefix_bits: u8, flags: u8, value: &[u8], out: &mut Vec<u8>)
    requires
        2 <= prefix_bits <= 8,
    ensures
        final(out)@ == old(out)@ + qpack_string(prefix_bits, flags, value@),
{
    let doubled: u8 = ((flags as u16) * 2 % 256) as u8;
    encode_qpack_prefixed_int(prefix_bits - 1, doubled, value.len() as u64, out);
    let ghost head = out@;
    out.extend_from_slice(value);
    assert(out@ =~= head + value@);
    assert(out@ =~= old(out)@ + qpack_string(prefix_bits, flags, value@));
}

/// A header that both sides know.
pub fn encode_qpack_indexed_static(index: u64, out: &mut Vec<u8>)
    ensures
        final(out)@ == old(out)@ + prefixed_int(6, 3, index),
{
    encode_qpack_prefixed_int(6, 3, index, out);
}

/// A header whose name both sides know.
pub open spec fn named_header(index: u64, value: Seq<u8>) -> Seq<u8> {
    prefixed_int(4, 5, index) + qpack_string(8, 0, value)
}

/// Appends a header whose name both sides know.
pub fn encode_qpack_literal_static_name(index: u64, value: &[u8], out: &mut Vec<u8>)
    ensures
        final(out)@ == old(out)@ + named_header(index, value@),
{
    encode_qpack_prefixed_int(4, 5, index, out);
    encode_qpack_string(8, 0, value, out);
    assert(out@ =~= old(out)@ + named_header(index, value@));
}

/// A header that is spelled out.
pub open spec fn literal_header(name: Seq<u8>, value: Seq<u8>) -> Seq<u8> {
    qpack_string(4, 2, name) + qpack_string(8, 0, value)
}

/// Appends a header that is spelled out.
pub fn encode_qpack_literal(name: &[u8], value: &[u8], out: &mut Vec<u8>)
    ensures
        final(out)@ == old(out)@ + literal_header(name@, value@),
{
    encode_qpack_string(4, 2, name, out);
    encode_qpack_string(8, 0, value, out);
    assert(out@ =~= old(out)@ + literal_header(name@, value@));
}

/// The headers that ask for a session at an authority.
pub open spec fn connect_headers(authority: &str) -> Seq<u8> {
    seq![0u8, 0u8] + prefixed_int(6, 3, 15) + prefixed_int(6, 3, 23) + named_header(
        0,
        authority.spec_bytes(),
    ) + named_header(1, "/wt".spec_bytes()) + literal_header(
        ":protocol".spec_bytes(),
        "webtransport".spec_bytes(),
    )
}

/// The headers that ask for a session at an authority.
pub fn encode_webtransport_connect_headers(authority: &str) -> (r: Vec<u8>)
    ensures
        r@ == connect_headers(authority),
{
    let mut block: Vec<u8> = Vec::new();
    block.push(0);
    block.push(0);
    assert(block@ =~= seq![0u8, 0u8]);
    encode_qpack_indexed_static(15, &mut block);
    encode_qpack_indexed_static(23, &mut block);
    encode_qpack_literal_static_name(0, authority.as_bytes(), &mut block);
    encode_qpack_literal_static_name(1, "/wt".as_bytes(), &mut block);
    encode_qpack_literal(":protocol".as_bytes(), "webtransport".as_bytes(), &mut block);
    block
}

/// Decides whether a block of headers says that all is well: it needs nothing else to be read, and
/// holds the header for that.
pub fn qpack_block_has_static_status_200(block: &[u8]) -> (r: bool)
    ensures
        r == (block@.len() >= 3 && block@[0] == 0 && block@[1] == 0 && block@.skip(2).contains(0xd9)),
{
    if block.len() < 3 || block[0] != 0 || block[1] != 0 {
        return false;
    }
    let mut i: usize = 2;
    while i < block.len()
        invariant
            2 <= i <= block@.len(),
            block@.len() >= 3,
            block@[0] == 0,
            block@[1] == 0,
            forall|k: int| 2 <= k < i ==> block@[k] != 0xd9,
        decreases block@.len() - i,
    {
        if block[i] == 0xd9 {
            assert(block@.skip(2)[i - 2] == 0xd9);
            return true;
        }
        i = i + 1;
    }
    assert(forall|k: int| 0 <= k < block@.skip(2).len() ==> block@.skip(2)[k] == block@[k + 2]);
    false
}

/// Why a datagram cannot be read.
#[derive(Debug, Clone, Copy, PartialEq, Eq, Structural)]
pub enum ContextError {
    Empty,
    Truncated,
}

impl ContextError {
    /// What the error says.
    pub open spec fn words(self) -> Seq<char> {
        match self {
            ContextError::Empty => "empty HTTP/3 datagram"@,
            ContextError::Truncated => "truncated HTTP/3 datagram context"@,
        }
    }

    /// What the error says.
    pub fn message(self) -> (r: &'static str)
        ensures
            r@ == self.words(),
    {
        match self {
            ContextError::Empty => "empty HTTP/3 datagram",
            ContextError::Truncated => "truncated HTTP/3 datagram context",
        }
    }
}

/// What a datagram holds behind the number that it opens with.
pub fn strip_h3_datagram_context(wire: &[u8]) -> (r: Result<&[u8], ContextError>)
    ensures
        if wire@.len() == 0 {
            r matches Err(error) && error == ContextError::Empty
        } else if wire@.len() < varint_length(wire@[0]) {
            r matches Err(error) && error == ContextError::Truncated
        } else {
            r matches Ok(payload) && payload@ == wire@.skip(varint_length(wire@[0]))
        },
{
    if wire.len() == 0 {
        return Err(ContextError::Empty);
    }
    let length: usize = varint_len(wire[0]);
    if wire.len() < length {
        return Err(ContextError::Truncated);
    }
    let payload = slice_subrange(wire, length, wire.len());
    assert(payload@ =~= wire@.skip(length as int));
    Ok(payload)
}

} // verus!
