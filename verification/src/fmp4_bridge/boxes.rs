//! Fragments as sequences of boxes.
use crate::wire::be_value;
use vstd::prelude::*;

verus! {

/// What the box of samples is called.
pub open spec fn mdat_name() -> Seq<u8> {
    seq![0x6d, 0x64, 0x61, 0x74]
}

/// What the first box of samples holds, from a place on where a box starts; nothing where a box is
/// cut off.
pub open spec fn samples_from(bytes: Seq<u8>, offset: int) -> Option<Seq<u8>>
    decreases bytes.len() - offset,
{
    let size = be_value(bytes.subrange(offset, offset + 4)) as int;
    if offset < 0 || offset + 8 > bytes.len() || size < 8 || offset + size > bytes.len() {
        None
    } else if bytes.subrange(offset + 4, offset + 8) == mdat_name() {
        Some(bytes.subrange(offset + 8, offset + size))
    } else {
        samples_from(bytes, offset + size)
    }
}

} // verus!
