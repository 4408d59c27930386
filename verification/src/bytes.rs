//! Byte strings: copying and comparing.
use vstd::prelude::*;

verus! {

/// Copies a byte string.
pub fn copy_bytes(bytes: &[u8]) -> (r: Vec<u8>)
    ensures
        r@ == bytes@,
{
    let mut copy: Vec<u8> = Vec::new();
    copy.extend_from_slice(bytes);
    assert(copy@ =~= bytes@);
    copy
}

/// Copies a byte string that may be missing.
pub fn copy_optional_bytes(bytes: &Option<Vec<u8>>) -> (r: Option<Vec<u8>>)
    ensures
        optional_view(r) == optional_view(*bytes),
{
    match bytes {
        Some(bytes) => Some(copy_bytes(bytes.as_slice())),
        None => None,
    }
}

/// What a byte string that may be missing holds.
pub open spec fn optional_view(bytes: Option<Vec<u8>>) -> Option<Seq<u8>> {
    match bytes {
        Some(bytes) => Some(bytes@),
        None => None,
    }
}

/// Decides whether two byte strings are the same.
pub fn bytes_equal(a: &[u8], b: &[u8]) -> (r: bool)
    ensures
        r == (a@ == b@),
{
    if a.len() != b.len() {
        return false;
    }
    let mut i: usize = 0;
    while i < a.len()
        invariant
            i <= a@.len(),
            a@.len() == b@.len(),
            forall|k: int| 0 <= k < i ==> a@[k] == b@[k],
        decreases a@.len() - i,
    {
        if a[i] != b[i] {
            return false;
        }
        i = i + 1;
    }
    assert(a@ =~= b@);
    true
}

/// Whether a byte string opens with another.
pub open spec fn starts_with(data: Seq<u8>, prefix: Seq<u8>) -> bool {
    prefix.len() <= data.len() && data.take(prefix.len() as int) == prefix
}

/// Decides whether a byte string opens with another.
pub fn has_prefix(data: &[u8], prefix: &[u8]) -> (r: bool)
    ensures
        r == starts_with(data@, prefix@),
{
    if prefix.len() > data.len() {
        return false;
    }
    let head = vstd::slice::slice_subrange(data, 0, prefix.len());
    assert(head@ =~= data@.take(prefix@.len() as int));
    bytes_equal(head, prefix)
}

/// Whether one byte string stands in another at a place.
pub open spec fn occurs_at(data: Seq<u8>, needle: Seq<u8>, at: int) -> bool {
    0 <= at && at + needle.len() <= data.len() && data.subrange(at, at + needle.len()) == needle
}

/// The first place, from one on, at which one byte string stands in another.
pub open spec fn first_occurrence(data: Seq<u8>, needle: Seq<u8>, from: int) -> Option<int>
    decreases data.len() - from + 1,
{
    if from < 0 || from + needle.len() > data.len() {
        None
    } else if occurs_at(data, needle, from) {
        Some(from)
    } else {
        first_occurrence(data, needle, from + 1)
    }
}

/// The first place at which one byte string stands in another.
pub fn find_bytes(data: &[u8], needle: &[u8]) -> (r: Option<usize>)
    requires
        needle@.len() > 0,
    ensures
        match first_occurrence(data@, needle@, 0) {
            Some(at) => r matches Some(found) && found == at && found + needle@.len() <= data@.len(),
            None => r is None,
        },
{
    let mut at: usize = 0;
    while at < data.len() && needle.len() <= data.len() - at
        invariant
            at <= data@.len(),
            needle@.len() > 0,
            first_occurrence(data@, needle@, 0) == first_occurrence(data@, needle@, at as int),
        decreases data@.len() - at,
    {
        let window = vstd::slice::slice_subrange(data, at, at + needle.len());
        if bytes_equal(window, needle) {
            return Some(at);
        }
        at = at + 1;
    }
    None
}

/// A first place is a place, and there is none before it.
pub proof fn first_is_first(data: Seq<u8>, needle: Seq<u8>, from: int)
    requires
        from >= 0,
    ensures
        match first_occurrence(data, needle, from) {
            Some(at) => from <= at && occurs_at(data, needle, at) && forall|j: int|
                from <= j < at ==> !occurs_at(data, needle, j),
            None => forall|j: int| from <= j ==> !occurs_at(data, needle, j),
        },
    decreases data.len() - from + 1,
{
    if from + needle.len() <= data.len() && !occurs_at(data, needle, from) {
        first_is_first(data, needle, from + 1);
    }
}

} // verus!
