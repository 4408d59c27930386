//! H.264 samples as sequences of NAL units, in start-code and in length-prefixed framing.
use crate::bytes::{first_occurrence, occurs_at};
use crate::fmp4_bridge::access_unit::{AccessUnit, AccessUnitView};
use crate::fmp4_bridge::sps::{believed_sps, decode_h264_sps, H264SpsValidationError};
use crate::seqs::{filter_all, filter_empty, filter_push};
use crate::wire::{be_bytes, be_bytes_cut, be_bytes_len, be_range, be_round_trip, be_value, get_be_u32, put_be_u32};
use vstd::prelude::*;
use vstd::slice::slice_subrange;

verus! {

/// Bits of a NAL unit's first byte that hold its type.
pub const NAL_UNIT_TYPE_MASK: u8 = 0x1f;

/// NAL unit type of a slice of a picture that refers to others.
pub const NAL_UNIT_TYPE_CODED_SLICE: u8 = 1;

/// NAL unit type of a slice of a picture that decoding can start at.
pub const NAL_UNIT_TYPE_CODED_SLICE_OF_IDR_PICTURE: u8 = 5;

/// NAL unit type of supplemental enhancement information.
pub const NAL_UNIT_TYPE_SUPPLEMENTAL_ENHANCEMENT_INFORMATION: u8 = 6;

/// NAL unit type of a sequence parameter set.
pub const NAL_UNIT_TYPE_SEQUENCE_PARAMETER_SET: u8 = 7;

/// NAL unit type of a picture parameter set.
pub const NAL_UNIT_TYPE_PICTURE_PARAMETER_SET: u8 = 8;

/// Why a length-prefixed sample cannot be taken apart.
#[derive(Clone, Copy, Debug, PartialEq, Eq, Structural)]
pub enum H264SampleError {
    /// Fewer bytes are left than a length takes.
    TruncatedLengthPrefix { remaining: usize },
    /// A length announces more bytes than are left.
    TruncatedNalu { declared: usize, remaining: usize },
}

/// What became of one NAL unit offered to a sample.
#[derive(Clone, Copy, Debug, PartialEq, Eq, Structural)]
pub enum H264NaluAppend {
    /// The unit was appended.
    Appended { keyframe: bool },
    /// The unit is a parameter set that is not believed.
    RejectedSps(H264SpsValidationError),
    /// The unit is of no use to a player.
    Ignored,
}

/// A NAL unit's type; meant for a unit that is not empty.
pub open spec fn unit_type(unit: Seq<u8>) -> u8 {
    unit[0] & NAL_UNIT_TYPE_MASK
}

/// The next unit of a length-prefixed sample and what follows it.
pub open spec fn next_unit(data: Seq<u8>) -> Result<Option<(Seq<u8>, Seq<u8>)>, H264SampleError> {
    if data.len() == 0 {
        Ok(None)
    } else if data.len() < 4 {
        Err(H264SampleError::TruncatedLengthPrefix { remaining: data.len() as usize })
    } else {
        let declared = be_value(data.subrange(0, 4));
        let rest = data.skip(4);
        if rest.len() < declared {
            Err(
                H264SampleError::TruncatedNalu {
                    declared: declared as usize,
                    remaining: rest.len() as usize,
                },
            )
        } else {
            Ok(Some((rest.take(declared as int), rest.skip(declared as int))))
        }
    }
}

/// The units of a length-prefixed sample, in order, or where it breaks off.
pub open spec fn sample_units(data: Seq<u8>) -> Result<Seq<Seq<u8>>, H264SampleError>
    decreases data.len(),
{
    if data.len() == 0 {
        Ok(Seq::empty())
    } else {
        match next_unit(data) {
            Err(error) => Err(error),
            Ok(None) => Ok(Seq::empty()),
            Ok(Some((unit, rest))) => if rest.len() < data.len() {
                match sample_units(rest) {
                    Ok(units) => Ok(seq![unit] + units),
                    Err(error) => Err(error),
                }
            } else {
                Ok(Seq::empty())
            },
        }
    }
}

/// A unit behind its length.
pub open spec fn framed(unit: Seq<u8>) -> Seq<u8> {
    be_bytes(unit.len(), 4) + unit
}

/// The length-prefixed sample that holds `units`.
pub open spec fn framed_all(units: Seq<Seq<u8>>) -> Seq<u8>
    decreases units.len(),
{
    if units.len() == 0 {
        Seq::empty()
    } else {
        framed_all(units.drop_last()) + framed(units.last())
    }
}

/// Whether a unit is a sequence or picture parameter set.
pub open spec fn is_parameter_set(unit: Seq<u8>) -> bool {
    unit.len() > 0 && (unit_type(unit) == NAL_UNIT_TYPE_SEQUENCE_PARAMETER_SET || unit_type(unit)
        == NAL_UNIT_TYPE_PICTURE_PARAMETER_SET)
}

/// Whether a unit stays in a media sample.
pub open spec fn is_media_unit(unit: Seq<u8>) -> bool {
    unit.len() > 0 && !is_parameter_set(unit)
}

/// Whether a unit in start-code framing is carried over into a sample.
pub open spec fn is_carried(unit: Seq<u8>) -> bool {
    append_outcome(unit) is Appended
}

/// The condition under which a unit in start-code framing is carried over.
pub open spec fn carried_units() -> spec_fn(Seq<u8>) -> bool {
    |unit: Seq<u8>| is_carried(unit)
}

/// The condition under which a unit stays in a media sample.
pub open spec fn media_units() -> spec_fn(Seq<u8>) -> bool {
    |unit: Seq<u8>| is_media_unit(unit)
}

/// What offering a unit to a sample comes to.
pub open spec fn append_outcome(unit: Seq<u8>) -> H264NaluAppend {
    if unit.len() == 0 || unit[0] & 0x80 != 0 {
        H264NaluAppend::Ignored
    } else if unit_type(unit) == NAL_UNIT_TYPE_CODED_SLICE || unit_type(unit)
        == NAL_UNIT_TYPE_CODED_SLICE_OF_IDR_PICTURE || unit_type(unit)
        == NAL_UNIT_TYPE_SUPPLEMENTAL_ENHANCEMENT_INFORMATION || unit_type(unit)
        == NAL_UNIT_TYPE_PICTURE_PARAMETER_SET {
        H264NaluAppend::Appended {
            keyframe: unit_type(unit) == NAL_UNIT_TYPE_CODED_SLICE_OF_IDR_PICTURE,
        }
    } else if unit_type(unit) == NAL_UNIT_TYPE_SEQUENCE_PARAMETER_SET {
        match believed_sps(unit) {
            Ok(_) => H264NaluAppend::Appended { keyframe: false },
            Err(error) => H264NaluAppend::RejectedSps(error),
        }
    } else {
        H264NaluAppend::Ignored
    }
}

/// Whether a unit starts a picture that decoding can start at.
pub open spec fn is_keyframe_unit(unit: Seq<u8>) -> bool {
    append_outcome(unit) == (H264NaluAppend::Appended { keyframe: true })
}

/// Whether any of some units starts a picture that decoding can start at.
pub open spec fn has_keyframe(units: Seq<Seq<u8>>) -> bool {
    exists|i: int| 0 <= i < units.len() && is_keyframe_unit(#[trigger] units[i])
}

/// A length-prefixed sample without its parameter sets, or nothing where no media is left.
pub open spec fn without_parameter_sets(data: Seq<u8>) -> Result<Option<Seq<u8>>, H264SampleError> {
    match sample_units(data) {
        Err(error) => Err(error),
        Ok(units) => {
            let kept = units.filter(media_units());
            if kept.len() == 0 {
                Ok(None)
            } else {
                Ok(Some(framed_all(kept)))
            }
        },
    }
}

/// Whether a sample opens with a start code.
pub open spec fn is_annex_b(data: Seq<u8>) -> bool {
    (data.len() >= 3 && data[0] == 0 && data[1] == 0 && data[2] == 1) || (data.len() >= 4 && data[0]
        == 0 && data[1] == 0 && data[2] == 0 && data[3] == 1)
}

/// What stands in front of a unit, behind zeros.
pub open spec fn start_code() -> Seq<u8> {
    seq![0u8, 0u8, 1u8]
}

/// How many zeros a byte string opens with.
pub open spec fn leading_zeros(data: Seq<u8>) -> nat
    decreases data.len(),
{
    if data.len() > 0 && data[0] == 0 {
        1 + leading_zeros(data.skip(1))
    } else {
        0
    }
}

/// A byte string without the zeros that it ends with.
pub open spec fn without_trailing_zeros(data: Seq<u8>) -> Seq<u8>
    decreases data.len(),
{
    if data.len() > 0 && data.last() == 0 {
        without_trailing_zeros(data.drop_last())
    } else {
        data
    }
}

/// The units that are parted by start codes, each without the zeros that it ends with.
pub open spec fn parted_units(data: Seq<u8>) -> Seq<Seq<u8>>
    decreases data.len(),
{
    match first_occurrence(data, start_code(), 0) {
        Some(at) => if 0 <= at <= data.len() - 3 {
            seq![without_trailing_zeros(data.take(at))] + parted_units(data.skip(at + 3))
        } else {
            Seq::empty()
        },
        None => seq![without_trailing_zeros(data)],
    }
}

/// The units behind the start codes of a sample; none where it does not open with one.
pub open spec fn annex_b_units(data: Seq<u8>) -> Seq<Seq<u8>> {
    let zeros = leading_zeros(data) as int;
    if 2 <= zeros < data.len() && data[zeros] == 1 {
        parted_units(data.skip(zeros + 1))
    } else {
        Seq::empty()
    }
}

/// An access unit in length-prefixed framing, or nothing where no unit of it is carried over.
pub open spec fn length_prefixed(unit: AccessUnitView) -> Option<AccessUnitView> {
    length_prefixed_from(unit, annex_b_units(unit.data))
}

/// An access unit in length-prefixed framing, given the units between its start codes.
pub open spec fn length_prefixed_from(unit: AccessUnitView, found: Seq<Seq<u8>>) -> Option<
    AccessUnitView,
> {
    if !is_annex_b(unit.data) {
        Some(unit)
    } else {
        let carried = found.filter(carried_units());
        if carried.len() == 0 {
            None
        } else {
            Some(
                AccessUnitView {
                    data: framed_all(carried),
                    key: unit.key || has_keyframe(found),
                    ..unit
                },
            )
        }
    }
}

/// Takes the next unit off a length-prefixed sample.
///
/// The slice is moved past what was read: past the unit, or past the length where the length
/// announces too much.
pub fn next_h264_length_prefixed_nalu<'a>(data: &mut &'a [u8]) -> (r: Result<
    Option<&'a [u8]>,
    H264SampleError,
>)
    ensures
        match next_unit(old(data)@) {
            Ok(None) => r == Ok::<Option<&'a [u8]>, H264SampleError>(None) && final(data)@ == old(
                data,
            )@,
            Ok(Some((unit, rest))) => r matches Ok(Some(found)) && found@ == unit && final(data)@
                == rest,
            Err(error) => r == Err::<Option<&'a [u8]>, H264SampleError>(error) && final(data)@ == (
            if old(data)@.len() < 4 {
                old(data)@
            } else {
                old(data)@.skip(4)
            }),
        },
{
    let whole: &'a [u8] = *data;
    if whole.len() == 0 {
        return Ok(None);
    }
    if whole.len() < 4 {
        return Err(H264SampleError::TruncatedLengthPrefix { remaining: whole.len() });
    }
    let declared: usize = get_be_u32(whole, 0) as usize;
    let rest: &'a [u8] = slice_subrange(whole, 4, whole.len());
    assert(rest@ =~= whole@.skip(4));
    *data = rest;
    if rest.len() < declared {
        return Err(H264SampleError::TruncatedNalu { declared, remaining: rest.len() });
    }
    let unit: &'a [u8] = slice_subrange(rest, 0, declared);
    let after: &'a [u8] = slice_subrange(rest, declared, rest.len());
    assert(unit@ =~= rest@.take(declared as int));
    assert(after@ =~= rest@.skip(declared as int));
    *data = after;
    Ok(Some(unit))
}

/// A framed sample grows by one framed unit for each unit added.
proof fn framed_all_push(units: Seq<Seq<u8>>, unit: Seq<u8>)
    ensures
        framed_all(units.push(unit)) == framed_all(units) + framed(unit),
{
    assert(units.push(unit).drop_last() =~= units);
}

/// Appends a unit behind its length.
fn put_framed(sample: &mut Vec<u8>, nalu: &[u8])
    ensures
        final(sample)@ == old(sample)@ + framed(nalu@),
{
    let len: u64 = nalu.len() as u64;
    put_be_u32(sample, (len % 0x1_0000_0000) as u32);
    sample.extend_from_slice(nalu);
    proof {
        reveal_with_fuel(be_range, 5);
        be_bytes_cut(nalu@.len(), 4);
        assert(be_range(4) == 0x1_0000_0000);
        assert(sample@ =~= old(sample)@ + framed(nalu@));
    }
}

/// Offers one unit to a sample; parameter sets are appended only where they are believed.
pub fn append_h264_nalu_to_avcc_sample(sample: &mut Vec<u8>, nalu: &[u8]) -> (r: H264NaluAppend)
    ensures
        r == append_outcome(nalu@),
        final(sample)@ == (if r is Appended {
            old(sample)@ + framed(nalu@)
        } else {
            old(sample)@
        }),
{
    if nalu.len() == 0 || nalu[0] & 0x80 != 0 {
        return H264NaluAppend::Ignored;
    }
    let nalu_type: u8 = nalu[0] & NAL_UNIT_TYPE_MASK;
    if nalu_type == NAL_UNIT_TYPE_CODED_SLICE || nalu_type == NAL_UNIT_TYPE_CODED_SLICE_OF_IDR_PICTURE
        || nalu_type == NAL_UNIT_TYPE_SUPPLEMENTAL_ENHANCEMENT_INFORMATION || nalu_type
        == NAL_UNIT_TYPE_PICTURE_PARAMETER_SET {
        put_framed(sample, nalu);
        H264NaluAppend::Appended { keyframe: nalu_type == NAL_UNIT_TYPE_CODED_SLICE_OF_IDR_PICTURE }
    } else if nalu_type == NAL_UNIT_TYPE_SEQUENCE_PARAMETER_SET {
        match decode_h264_sps(nalu) {
            Ok(_) => {
                put_framed(sample, nalu);
                H264NaluAppend::Appended { keyframe: false }
            },
            Err(error) => H264NaluAppend::RejectedSps(error),
        }
    } else {
        H264NaluAppend::Ignored
    }
}

/// Decides whether a sample opens with a start code.
pub fn looks_like_annex_b(data: &[u8]) -> (r: bool)
    ensures
        r == is_annex_b(data@),
{
    (data.len() >= 3 && data[0] == 0 && data[1] == 0 && data[2] == 1) || (data.len() >= 4 && data[0]
        == 0 && data[1] == 0 && data[2] == 0 && data[3] == 1)
}

/// What a list of byte strings holds.
pub open spec fn byte_strings(list: Seq<Vec<u8>>) -> Seq<Seq<u8>> {
    list.map_values(|item: Vec<u8>| item@)
}

/// Calls `h264::iterate_annex_b` and copies out each unit that it yields.
///
/// Claimed of it: the units are those that start codes part behind a first one, each without the
/// zeros that it ends with; there are none where the bytes do not open with two zeros or more and a
/// one.
#[verifier::external_body]
pub(crate) fn split_annex_b(data: &[u8]) -> (r: Vec<Vec<u8>>)
    ensures
        byte_strings(r@) == annex_b_units(data@),
{
    h264::iterate_annex_b(data).map(|unit| unit.to_vec()).collect()
}

/// Puts the units that are carried over into one sample, and tells whether any starts a key
/// picture.
pub fn frame_units(found: &Vec<Vec<u8>>) -> (r: (Vec<u8>, bool))
    ensures
        r.0@ == framed_all(byte_strings(found@).filter(carried_units())),
        r.1 == has_keyframe(byte_strings(found@)),
{
    let ghost units = byte_strings(found@);
    let mut sample: Vec<u8> = Vec::new();
    let mut key = false;
    let mut i: usize = 0;
    proof {
        filter_empty(units.take(0), carried_units());
    }
    while i < found.len()
        invariant
            i <= found@.len(),
            units == byte_strings(found@),
            sample@ == framed_all(units.take(i as int).filter(carried_units())),
            key == exists|k: int| 0 <= k < i && is_keyframe_unit(#[trigger] units[k]),
        decreases found@.len() - i,
    {
        let nalu = found[i].as_slice();
        assert(nalu@ == units[i as int]);
        let ghost before = units.take(i as int);
        proof {
            assert(units.take(i + 1) =~= before.push(nalu@));
            filter_push(before, nalu@, carried_units());
            framed_all_push(before.filter(carried_units()), nalu@);
        }
        match append_h264_nalu_to_avcc_sample(&mut sample, nalu) {
            H264NaluAppend::Appended { keyframe } => {
                key = key || keyframe;
            },
            H264NaluAppend::RejectedSps(_) => {},
            H264NaluAppend::Ignored => {},
        }
        proof {
            let at = i as int;
            if is_keyframe_unit(units[at]) {
                assert(exists|k: int| 0 <= k < i + 1 && is_keyframe_unit(#[trigger] units[k]));
            }
        }
        i = i + 1;
    }
    assert(units.take(i as int) =~= units);
    (sample, key)
}

/// Brings an H.264 access unit into length-prefixed framing, given the units between its start
/// codes; answers whether anything of it is carried over, and leaves it alone where nothing is.
pub fn reframe_annex_b(access_unit: &mut AccessUnit, found: &Vec<Vec<u8>>) -> (r: bool)
    ensures
        match length_prefixed_from(old(access_unit)@, byte_strings(found@)) {
            Some(unit) => r && final(access_unit)@ == unit,
            None => !r && final(access_unit)@ == old(access_unit)@,
        },
{
    if !looks_like_annex_b(access_unit.data.as_slice()) {
        return true;
    }
    let (sample, key) = frame_units(found);
    proof {
        framed_all_empty(byte_strings(found@).filter(carried_units()));
    }
    if sample.len() == 0 {
        return false;
    }
    access_unit.data = sample;
    access_unit.key = access_unit.key || key;
    true
}

/// A sample is empty exactly where it holds no unit.
pub proof fn framed_all_empty(units: Seq<Seq<u8>>)
    ensures
        framed_all(units).len() == 0 <==> units.len() == 0,
{
    if units.len() > 0 {
        be_bytes_len(units.last().len(), 4);
    }
}

/// Brings an H.264 access unit into length-prefixed framing; answers whether anything of it is
/// carried over, and leaves it alone where nothing is.
pub fn ensure_h264_length_prefixed(access_unit: &mut AccessUnit) -> (r: bool)
    ensures
        match length_prefixed(old(access_unit)@) {
            Some(unit) => r && final(access_unit)@ == unit,
            None => !r && final(access_unit)@ == old(access_unit)@,
        },
{
    if !looks_like_annex_b(access_unit.data.as_slice()) {
        return true;
    }
    let found = split_annex_b(access_unit.data.as_slice());
    reframe_annex_b(access_unit, &found)
}

/// Takes the parameter sets and empty units out of a length-prefixed sample; answers whether any
/// media is left, and leaves the access unit alone where none is or where it is malformed.
pub fn strip_h264_parameter_sets(access_unit: &mut AccessUnit) -> (r: Result<bool, H264SampleError>)
    ensures
        match without_parameter_sets(old(access_unit)@.data) {
            Err(error) => r == Err::<bool, H264SampleError>(error) && final(access_unit)@ == old(
                access_unit,
            )@,
            Ok(None) => r == Ok::<bool, H264SampleError>(false) && final(access_unit)@ == old(
                access_unit,
            )@,
            Ok(Some(data)) => r == Ok::<bool, H264SampleError>(true) && final(access_unit)@ == (
            AccessUnitView { data, ..old(access_unit)@ }),
        },
{
    let mut sample: Vec<u8> = Vec::new();
    let mut data: &[u8] = access_unit.data.as_slice();
    let ghost whole = data@;
    let ghost mut seen: Seq<Seq<u8>> = Seq::empty();
    proof {
        filter_empty(seen, media_units());
    }
    loop
        invariant
            access_unit@ == old(access_unit)@,
            whole == old(access_unit)@.data,
            sample_units(whole) == (match sample_units(data@) {
                Ok(rest) => Ok::<Seq<Seq<u8>>, H264SampleError>(seen + rest),
                Err(error) => Err(error),
            }),
            sample@ == framed_all(seen.filter(media_units())),
        ensures
            data@.len() == 0,
        decreases data@.len(),
    {
        let ghost before = data@;
        match next_h264_length_prefixed_nalu(&mut data) {
            Err(error) => {
                return Err(error);
            },
            Ok(None) => {
                break ;
            },
            Ok(Some(nalu)) => {
                proof {
                    assert(before.len() >= 4);
                    let tail = sample_units(data@);
                    if tail is Ok {
                        assert(seen + (seq![nalu@] + tail->Ok_0) =~= seen.push(nalu@) + tail->Ok_0);
                    }
                    filter_push(seen, nalu@, media_units());
                    framed_all_push(seen.filter(media_units()), nalu@);
                    seen = seen.push(nalu@);
                }
                if nalu.len() > 0 {
                    let nalu_type: u8 = nalu[0] & NAL_UNIT_TYPE_MASK;
                    if nalu_type != NAL_UNIT_TYPE_SEQUENCE_PARAMETER_SET && nalu_type
                        != NAL_UNIT_TYPE_PICTURE_PARAMETER_SET {
                        put_framed(&mut sample, nalu);
                    }
                }
            },
        }
    }
    proof {
        assert(seen + Seq::empty() =~= seen);
        framed_all_empty(seen.filter(media_units()));
    }
    if sample.len() == 0 {
        return Ok(false);
    }
    access_unit.data = sample;
    Ok(true)
}

/// Taking a sample apart gives back the units it was put together from.
pub proof fn framing_round_trip(units: Seq<Seq<u8>>)
    requires
        forall|i: int| 0 <= i < units.len() ==> (#[trigger] units[i]).len() <= u32::MAX,
    ensures
        sample_units(framed_all(units)) == Ok::<Seq<Seq<u8>>, H264SampleError>(units),
{
    let none: Seq<Seq<u8>> = Seq::empty();
    framing_append(units, none, Seq::empty());
    assert(framed_all(units) + Seq::<u8>::empty() =~= framed_all(units));
    assert(units + none =~= units);
}

/// A sample followed by bytes that come apart into `rest` comes apart into its units and `rest`.
proof fn framing_append(units: Seq<Seq<u8>>, rest: Seq<Seq<u8>>, tail: Seq<u8>)
    requires
        forall|i: int| 0 <= i < units.len() ==> (#[trigger] units[i]).len() <= u32::MAX,
        sample_units(tail) == Ok::<Seq<Seq<u8>>, H264SampleError>(rest),
    ensures
        sample_units(framed_all(units) + tail) == Ok::<Seq<Seq<u8>>, H264SampleError>(units + rest),
    decreases units.len(),
{
    if units.len() == 0 {
        assert(framed_all(units) + tail =~= tail);
        assert(units + rest =~= rest);
    } else {
        let last = units.last();
        let front = units.drop_last();
        let data = framed(last) + tail;
        reveal_with_fuel(be_range, 5);
        assert(be_range(4) == 0x1_0000_0000);
        be_round_trip(last.len(), 4);
        assert(data.subrange(0, 4) =~= be_bytes(last.len(), 4));
        assert(data.skip(4) =~= last + tail);
        assert(data.skip(4).take(last.len() as int) =~= last);
        assert(data.skip(4).skip(last.len() as int) =~= tail);
        assert(sample_units(data) == Ok::<Seq<Seq<u8>>, H264SampleError>(seq![last] + rest));
        assert forall|i: int| 0 <= i < front.len() implies (#[trigger] front[i]).len()
            <= u32::MAX by {
            assert(front[i] == units[i]);
        }
        framing_append(front, seq![last] + rest, data);
        assert(framed_all(units) + tail =~= framed_all(front) + data);
        assert(units + rest =~= front + (seq![last] + rest));
    }
}

/// Every unit found in a sample is no longer than a length can say.
proof fn sample_units_bounded(data: Seq<u8>)
    ensures
        sample_units(data) matches Ok(units) ==> forall|i: int|
            0 <= i < units.len() ==> (#[trigger] units[i]).len() <= u32::MAX,
    decreases data.len(),
{
    if data.len() >= 4 {
        reveal_with_fuel(be_value, 5);
        let head = data.subrange(0, 4);
        assert(be_value(head) <= u32::MAX);
        if next_unit(data) is Ok {
            let rest = data.skip(4).skip(be_value(head) as int);
            sample_units_bounded(rest);
        }
    }
}

/// Stripping leaves exactly the media units, in their order: what is left comes apart into the
/// units that are neither empty nor parameter sets.
pub proof fn stripping_keeps_media(data: Seq<u8>)
    requires
        without_parameter_sets(data) matches Ok(Some(_)),
    ensures
        sample_units(without_parameter_sets(data)->Ok_0->Some_0) == Ok::<
            Seq<Seq<u8>>,
            H264SampleError,
        >(sample_units(data)->Ok_0.filter(media_units())),
{
    let units = sample_units(data)->Ok_0;
    let kept = units.filter(media_units());
    sample_units_bounded(data);
    assert forall|i: int| 0 <= i < kept.len() implies (#[trigger] kept[i]).len() <= u32::MAX by {
        filter_members(units, media_units(), i);
    }
    framing_round_trip(kept);
}

/// What a filter keeps was there before.
proof fn filter_members(s: Seq<Seq<u8>>, pred: spec_fn(Seq<u8>) -> bool, i: int)
    requires
        0 <= i < s.filter(pred).len(),
    ensures
        pred(s.filter(pred)[i]),
        exists|k: int| 0 <= k < s.len() && #[trigger] s[k] == s.filter(pred)[i],
    decreases s.len(),
{
    reveal(Seq::filter);
    if s.len() > 0 {
        let front = s.drop_last();
        if i < front.filter(pred).len() {
            filter_members(front, pred, i);
            let k = choose|k: int| 0 <= k < front.len() && #[trigger] front[k] == front.filter(pred)[i];
            assert(s[k] == s.filter(pred)[i]);
        } else {
            assert(s[s.len() - 1] == s.filter(pred)[i]);
        }
    }
}

/// A sample that was stripped once is not changed by stripping it again.
pub proof fn stripping_is_idempotent(data: Seq<u8>)
    requires
        without_parameter_sets(data) matches Ok(Some(_)),
    ensures
        without_parameter_sets(without_parameter_sets(data)->Ok_0->Some_0)
            == without_parameter_sets(data),
{
    stripping_keeps_media(data);
    let kept = sample_units(data)->Ok_0.filter(media_units());
    assert forall|i: int| 0 <= i < kept.len() implies media_units()(#[trigger] kept[i]) by {
        filter_members(sample_units(data)->Ok_0, media_units(), i);
    }
    filter_all(kept, media_units());
}

/// Units behind start codes.
pub open spec fn start_coded(units: Seq<Seq<u8>>) -> Seq<u8>
    decreases units.len(),
{
    if units.len() == 0 {
        Seq::empty()
    } else {
        start_code() + units[0] + start_coded(units.skip(1))
    }
}

/// Whether a unit can stand behind a start code: it does not end with a zero, and no start code
/// stands in it.
pub open spec fn stands_alone(unit: Seq<u8>) -> bool {
    unit.len() > 0 && unit.last() != 0 && forall|at: int| !occurs_at(unit, start_code(), at)
}

/// A unit ends where the next start code stands.
proof fn unit_ends_at_start_code(unit: Seq<u8>, rest: Seq<u8>, from: int)
    requires
        stands_alone(unit),
        0 <= from <= unit.len(),
    ensures
        first_occurrence(unit + (start_code() + rest), start_code(), from) == Some(
            unit.len() as int,
        ),
    decreases unit.len() - from,
{
    let data = unit + (start_code() + rest);
    if from == unit.len() {
        assert(data.subrange(from, from + 3) =~= start_code());
    } else {
        assert(!occurs_at(data, start_code(), from)) by {
            if occurs_at(data, start_code(), from) {
                let window = data.subrange(from, from + 3);
                assert(window[0] == data[from] && window[1] == data[from + 1] && window[2] == data[from
                    + 2]);
                assert(start_code()[0] == 0 && start_code()[1] == 0 && start_code()[2] == 1);
                if from + 3 <= unit.len() {
                    assert(unit.subrange(from, from + 3) =~= window);
                    assert(occurs_at(unit, start_code(), from));
                } else if from + 2 == unit.len() {
                    assert(data[from + 2] == start_code()[0]);
                } else {
                    assert(data[from] == unit.last());
                }
            }
        }
        unit_ends_at_start_code(unit, rest, from + 1);
    }
}

/// The last unit ends with the sample.
proof fn last_unit_ends(unit: Seq<u8>, from: int)
    requires
        stands_alone(unit),
        0 <= from,
    ensures
        first_occurrence(unit, start_code(), from) is None,
    decreases unit.len() - from + 1,
{
    if from + 3 <= unit.len() {
        assert(!occurs_at(unit, start_code(), from));
        last_unit_ends(unit, from + 1);
    }
}

/// Units that start codes part come apart.
proof fn units_part(unit: Seq<u8>, others: Seq<Seq<u8>>)
    requires
        stands_alone(unit),
        forall|i: int| 0 <= i < others.len() ==> stands_alone(#[trigger] others[i]),
    ensures
        parted_units(unit + start_coded(others)) == seq![unit] + others,
    decreases others.len(),
{
    if others.len() == 0 {
        assert(unit + start_coded(others) =~= unit);
        last_unit_ends(unit, 0);
        assert(seq![unit] + others =~= seq![unit]);
    } else {
        let rest = others[0] + start_coded(others.skip(1));
        let data = unit + start_coded(others);
        assert(data =~= unit + (start_code() + rest));
        unit_ends_at_start_code(unit, rest, 0);
        assert(data.take(unit.len() as int) =~= unit);
        assert(data.skip(unit.len() as int + 3) =~= rest);
        units_part(others[0], others.skip(1));
        assert(seq![unit] + (seq![others[0]] + others.skip(1)) =~= seq![unit] + others);
    }
}

/// Units that are put behind start codes are found behind them, in their order.
pub proof fn start_codes_part_units(units: Seq<Seq<u8>>)
    requires
        forall|i: int| 0 <= i < units.len() ==> stands_alone(#[trigger] units[i]),
    ensures
        annex_b_units(start_coded(units)) == units,
{
    let data = start_coded(units);
    reveal_with_fuel(leading_zeros, 3);
    if units.len() == 0 {
        assert(annex_b_units(data) =~= units);
    } else {
        let rest = units[0] + start_coded(units.skip(1));
        assert(data =~= start_code() + rest);
        assert(data.skip(1)[0] == 0 && data.skip(1).skip(1)[0] == 1);
        assert(leading_zeros(data) == 2);
        assert(data.skip(3) =~= rest);
        units_part(units[0], units.skip(1));
        assert(seq![units[0]] + units.skip(1) =~= units);
    }
}

/// A unit is carried over where its first bit is clear and it is a slice, supplemental information, a
/// picture parameter set, or a sequence parameter set that is believed; only a slice of an independent
/// picture makes a key picture.
pub proof fn units_are_carried_by_their_type(unit: Seq<u8>)
    ensures
        ({
            let outcome = append_outcome(unit);
            let clear = unit.len() > 0 && unit[0] & 0x80 == 0;
            let kind = unit[0] & 0x1f;
            &&& outcome is Appended <==> clear && (kind == 1 || kind == 5 || kind == 6 || kind == 8
                || (kind == 7 && believed_sps(unit) is Ok))
            &&& outcome is Appended ==> (outcome->Appended_keyframe <==> kind == 5)
            &&& outcome is RejectedSps <==> clear && kind == 7 && believed_sps(unit) is Err
            &&& carried_units()(unit) <==> outcome is Appended
            &&& is_keyframe_unit(unit) <==> clear && kind == 5
            &&& media_units()(unit) <==> unit.len() > 0 && kind != 7 && kind != 8
        }),
{
}

/// A sample in start-code framing becomes one of its carried units, framed by their lengths, a key picture
/// where it was one or a unit says so, at the same times; it is dropped where it carries none. Any
/// other sample stays as it is.
pub proof fn samples_are_reframed(unit: AccessUnitView)
    ensures
        ({
            let found = annex_b_units(unit.data);
            let after = length_prefixed(unit);
            &&& !is_annex_b(unit.data) ==> after == Some(unit)
            &&& is_annex_b(unit.data) ==> {
                &&& after is Some <==> found.filter(carried_units()).len() > 0
                &&& after is Some ==> {
                    &&& after->Some_0.data == framed_all(found.filter(carried_units()))
                    &&& after->Some_0.key <==> unit.key || exists|i: int|
                        0 <= i < found.len() && is_keyframe_unit(#[trigger] found[i])
                    &&& after->Some_0.pts == unit.pts && after->Some_0.dts == unit.dts
                    &&& after->Some_0.stream_type == unit.stream_type && after->Some_0.id == unit.id
                }
            }
        }),
{
}

/// A unit is read from a sample where its length stands in front of it and it is all there; what follows is
/// what is behind it.
pub proof fn units_are_read_one_by_one(unit: Seq<u8>, rest: Seq<u8>)
    requires
        unit.len() <= u32::MAX,
    ensures
        next_unit(framed(unit) + rest) == Ok::<Option<(Seq<u8>, Seq<u8>)>, H264SampleError>(
            Some((unit, rest)),
        ),
{
    let data = framed(unit) + rest;
    be_bytes_len(unit.len(), 4);
    reveal_with_fuel(be_range, 5);
    be_round_trip(unit.len(), 4);
    assert(data.subrange(0, 4) =~= be_bytes(unit.len(), 4));
    assert(data.skip(4) =~= unit + rest);
    assert((unit + rest).take(unit.len() as int) =~= unit);
    assert((unit + rest).skip(unit.len() as int) =~= rest);
}

} // verus!
