//! Big-endian integers on the wire.
use vstd::prelude::*;

verus! {

/// The value of a byte string read as a big-endian integer.
pub open spec fn be_value(bytes: Seq<u8>) -> nat
    decreases bytes.len(),
{
    if bytes.len() == 0 {
        0
    } else {
        be_value(bytes.drop_last()) * 256 + bytes.last() as nat
    }
}

/// The big-endian byte string of `width` bytes that holds `value`, high bytes cut off.
pub open spec fn be_bytes(value: nat, width: nat) -> Seq<u8>
    decreases width,
{
    if width == 0 {
        Seq::empty()
    } else {
        be_bytes(value / 256, (width - 1) as nat).push((value % 256) as u8)
    }
}

/// How many values a big-endian integer of `width` bytes can take.
pub open spec fn be_range(width: nat) -> nat
    decreases width,
{
    if width == 0 {
        1
    } else {
        256 * be_range((width - 1) as nat)
    }
}

/// Reading back a written integer gives the integer, as long as it fits its width.
pub proof fn be_round_trip(value: nat, width: nat)
    requires
        value < be_range(width),
    ensures
        be_bytes(value, width).len() == width,
        be_value(be_bytes(value, width)) == value,
    decreases width,
{
    if width > 0 {
        be_round_trip(value / 256, (width - 1) as nat);
        let written = be_bytes(value, width);
        assert(written.drop_last() =~= be_bytes(value / 256, (width - 1) as nat));
    }
}

/// Writing an integer takes exactly the width asked for.
pub proof fn be_bytes_len(value: nat, width: nat)
    ensures
        be_bytes(value, width).len() == width,
    decreases width,
{
    if width > 0 {
        be_bytes_len(value / 256, (width - 1) as nat);
    }
}

/// Only the low bytes of an integer reach a field of `width` bytes.
pub proof fn be_bytes_cut(value: nat, width: nat)
    ensures
        be_range(width) > 0,
        be_bytes(value % be_range(width), width) == be_bytes(value, width),
    decreases width,
{
    if width > 0 {
        let rest = (width - 1) as nat;
        be_bytes_cut(value / 256, rest);
        let r = be_range(rest);
        vstd::arithmetic::div_mod::lemma_mod_breakdown(value as int, 256, r as int);
        let cut = value % be_range(width);
        assert(cut == 256 * ((value / 256) % r) + value % 256);
        assert(cut / 256 == (value / 256) % r);
        assert(cut % 256 == value % 256);
    }
}

/// A wide field is its high bytes followed by its low bytes.
pub proof fn be_bytes_split(value: nat, high: nat, low: nat)
    ensures
        be_range(low) > 0,
        be_bytes(value, high + low) == be_bytes(value / be_range(low), high) + be_bytes(value, low),
    decreases low,
{
    if low > 0 {
        let rest = (low - 1) as nat;
        be_bytes_split(value / 256, high, rest);
        let r = be_range(rest);
        vstd::arithmetic::div_mod::lemma_div_denominator(value as int, 256, r as int);
        assert((high + low - 1) as nat == high + rest);
        assert(be_bytes(value, high + low) =~= be_bytes(value / be_range(low), high) + be_bytes(
            value,
            low,
        ));
    } else {
        assert(be_range(low) == 1 && value / 1 == value && high + low == high);
        assert(be_bytes(value, low) =~= Seq::empty());
        assert(be_bytes(value, high + low) =~= be_bytes(value / be_range(low), high) + be_bytes(
            value,
            low,
        ));
    }
}

/// Appends a `u32`, high byte first.
pub fn put_be_u32(out: &mut Vec<u8>, value: u32)
    ensures
        final(out)@ == old(out)@ + be_bytes(value as nat, 4),
{
    let b0: u8 = (value / 0x100_0000) as u8;
    let b1: u8 = ((value / 0x1_0000) % 0x100) as u8;
    let b2: u8 = ((value / 0x100) % 0x100) as u8;
    let b3: u8 = (value % 0x100) as u8;
    out.push(b0);
    out.push(b1);
    out.push(b2);
    out.push(b3);
    proof {
        reveal_with_fuel(be_bytes, 5);
        assert(out@ =~= old(out)@ + be_bytes(value as nat, 4));
    }
}

/// Appends a `u64`, high byte first.
pub fn put_be_u64(out: &mut Vec<u8>, value: u64)
    ensures
        final(out)@ == old(out)@ + be_bytes(value as nat, 8),
{
    let high: u32 = (value / 0x1_0000_0000) as u32;
    let low: u32 = (value % 0x1_0000_0000) as u32;
    put_be_u32(out, high);
    put_be_u32(out, low);
    proof {
        reveal_with_fuel(be_range, 5);
        be_bytes_split(value as nat, 4, 4);
        be_bytes_cut(value as nat, 4);
        assert(be_range(4) == 0x1_0000_0000);
        assert(out@ =~= old(out)@ + be_bytes(value as nat, 8));
    }
}

/// Reads the `u32` at `at`, high byte first.
pub fn get_be_u32(data: &[u8], at: usize) -> (r: u32)
    requires
        at + 4 <= data@.len(),
    ensures
        r == be_value(data@.subrange(at as int, at + 4)),
{
    proof {
        reveal_with_fuel(be_value, 5);
        let s = data@.subrange(at as int, at + 4);
        assert(s.drop_last() =~= seq![s[0], s[1], s[2]]);
        assert(s.drop_last().drop_last() =~= seq![s[0], s[1]]);
        assert(s.drop_last().drop_last().drop_last() =~= seq![s[0]]);
    }
    let r: u32 = ((data[at] as u32 * 256 + data[at + 1] as u32) * 256 + data[at + 2] as u32) * 256 + data[at
        + 3] as u32;
    r
}

/// Bytes that stand behind others count for less: the value of the whole is made of the two values.
pub proof fn be_value_join(high: Seq<u8>, low: Seq<u8>)
    ensures
        be_value(high + low) == be_value(high) * be_range(low.len()) + be_value(low),
    decreases low.len(),
{
    if low.len() == 0 {
        assert(high + low =~= high);
        assert(be_value(high) * be_range(0) == be_value(high)) by (nonlinear_arith)
            requires
                be_range(0) == 1,
        ;
    } else {
        let rest = low.drop_last();
        be_value_join(high, rest);
        assert((high + low).drop_last() =~= high + rest);
        assert((high + low).last() == low.last());
        let h = be_value(high);
        let range = be_range(rest.len());
        let r = be_value(rest);
        assert((h * range + r) * 256 == h * (256 * range) + r * 256) by (nonlinear_arith);
        assert(rest.len() == (low.len() - 1) as nat);
        assert(be_range(low.len()) == 256 * range);
        assert(be_value(high + low) == (h * range + r) * 256 + low.last() as nat);
        assert(be_value(low) == r * 256 + low.last() as nat);
    }
}

/// Reads eight bytes, high byte first.
pub fn get_be_u64(data: &[u8], at: usize) -> (r: u64)
    requires
        at + 8 <= data@.len(),
    ensures
        r == be_value(data@.subrange(at as int, at + 8)),
{
    let length: usize = data.len();
    assert(at + 8 <= length);
    let high: u32 = get_be_u32(data, at);
    let low: u32 = get_be_u32(data, at + 4);
    proof {
        let a = data@.subrange(at as int, at + 4);
        let b = data@.subrange(at + 4, at + 8);
        be_value_join(a, b);
        reveal_with_fuel(be_range, 5);
        assert(a + b =~= data@.subrange(at as int, at + 8));
    }
    (high as u64) * 0x1_0000_0000 + (low as u64)
}

} // verus!
