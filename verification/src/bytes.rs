//! Comparing, cutting and patching byte strings.

use vstd::prelude::*;
use vstd::slice::slice_subrange;

verus! {

/// The bytes behind an optional slice.
pub open spec fn bytes_of(bytes: Option<&[u8]>) -> Option<Seq<u8>> {
    match bytes {
        Some(bytes) => Some(bytes@),
        None => None,
    }
}

/// Whether `data` begins with `prefix`.
pub fn starts_with(data: &[u8], prefix: &[u8]) -> (found: bool)
    ensures
        found == prefix@.is_prefix_of(data@),
{
    if data.len() < prefix.len() {
        return false;
    }
    let mut i: usize = 0;
    while i < prefix.len()
        invariant
            i <= prefix.len() <= data.len(),
            forall|j: int| 0 <= j < i ==> data@[j] == prefix@[j],
        decreases prefix.len() - i,
    {
        if data[i] != prefix[i] {
            assert(data@.subrange(0, prefix@.len() as int)[i as int] != prefix@[i as int]);
            return false;
        }
        i += 1;
    }
    assert(prefix@ =~= data@.subrange(0, prefix@.len() as int));
    true
}

/// `raw` with the `length` bytes from `offset` on replaced by `patch`.
pub open spec fn spliced(raw: Seq<u8>, offset: int, length: int, patch: Seq<u8>) -> Seq<u8> {
    raw.take(offset) + patch + raw.skip(offset + length)
}

/// Replaces the `length` bytes of `raw` from `offset` on by `patch`.
pub fn splice(raw: &[u8], offset: usize, length: usize, patch: &[u8]) -> (out: Vec<u8>)
    requires
        offset + length <= raw@.len(),
    ensures
        out@ == spliced(raw@, offset as int, length as int, patch@),
{
    let end: usize = raw.len();
    let mut out: Vec<u8> = Vec::new();
    out.extend_from_slice(slice_subrange(raw, 0, offset));
    out.extend_from_slice(patch);
    out.extend_from_slice(slice_subrange(raw, offset + length, end));
    assert(out@ =~= spliced(raw@, offset as int, length as int, patch@));
    out
}

} // verus!
