use vstd::prelude::*;

use crate::error::Error;
use crate::region::Region;
use crate::witness::AllocationProof;

verus! {

/// Split `whole` at `k` bytes from its start: the head and the tail.
pub open spec fn split_at(whole: Region, k: usize) -> (Region, Region) {
    (
        Region { addr: whole.addr, len: k },
        Region { addr: (whole.addr + k) as usize, len: (whole.len - k) as usize },
    )
}

/// The empty region at `addr`.
pub open spec fn empty_at(addr: int) -> Region {
    Region { addr: addr as usize, len: 0 }
}

/// A region inside the witnessed range, split into a head and a tail, merges
/// back into itself when the head comes first. Given tail first, the ordered
/// merge is refused unless both parts are empty.
pub proof fn lemma_ordered_split(p: AllocationProof, whole: Region, k: usize)
    requires
        p.wf(),
        whole.wf(),
        p.contains(whole),
        k <= whole.len,
    ensures
        p.merged(split_at(whole, k).0, split_at(whole, k).1) == Ok::<Region, Error>(whole),
        whole.len > 0 ==> p.merged(split_at(whole, k).1, split_at(whole, k).0) == Err::<
            Region,
            Error,
        >(Error::NotAdjacent),
{
}

/// A region inside the witnessed range, split into a head and a tail, merges
/// back into itself through the unordered merge, whichever part is given
/// first.
pub proof fn lemma_unordered_split(p: AllocationProof, whole: Region, k: usize)
    requires
        p.wf(),
        whole.wf(),
        p.contains(whole),
        k <= whole.len,
    ensures
        p.merged_unordered(split_at(whole, k).0, split_at(whole, k).1) == Ok::<Region, Error>(
            whole,
        ),
        p.merged_unordered(split_at(whole, k).1, split_at(whole, k).0) == Ok::<Region, Error>(
            whole,
        ),
{
}

/// Two regions with at least one byte between them are never merged, in
/// either order and by either merge.
pub proof fn lemma_gap_refused(p: AllocationProof, a: Region, b: Region)
    requires
        a.end() < b.addr,
    ensures
        p.merged(a, b) == Err::<Region, Error>(Error::NotAdjacent),
        p.merged(b, a) == Err::<Region, Error>(Error::NotAdjacent),
        p.merged_unordered(a, b) == Err::<Region, Error>(Error::NotAdjacent),
        p.merged_unordered(b, a) == Err::<Region, Error>(Error::NotAdjacent),
{
}

/// A non-empty region of another allocation, one that shares no byte with
/// the witnessed range, is refused as either operand of either merge.
pub proof fn lemma_foreign_refused(
    p: AllocationProof,
    other: Region,
    a: Region,
    b: Region,
)
    requires
        p.wf(),
        other.end() <= p.begin() || p.end() <= other.addr,
        other.addr <= a.addr,
        a.end() <= other.end(),
        a.len > 0,
    ensures
        p.merged(a, b) == Err::<Region, Error>(Error::NotAdjacent),
        p.merged(b, a) == Err::<Region, Error>(Error::NotAdjacent),
        p.merged_unordered(a, b) == Err::<Region, Error>(Error::NotAdjacent),
        p.merged_unordered(b, a) == Err::<Region, Error>(Error::NotAdjacent),
{
}

/// An empty region at the start or at the end of a region inside the
/// witnessed range merges with it into that same region, on the side where
/// it sits for the ordered merge and in either order for the unordered one.
pub proof fn lemma_empty_identity(p: AllocationProof, r: Region)
    requires
        p.wf(),
        r.wf(),
        p.contains(r),
    ensures
        p.merged(empty_at(r.addr as int), r) == Ok::<Region, Error>(r),
        p.merged(r, empty_at(r.end())) == Ok::<Region, Error>(r),
        p.merged_unordered(empty_at(r.addr as int), r) == Ok::<Region, Error>(r),
        p.merged_unordered(r, empty_at(r.addr as int)) == Ok::<Region, Error>(r),
        p.merged_unordered(r, empty_at(r.end())) == Ok::<Region, Error>(
            r,
        ),
        p.merged_unordered(empty_at(r.end()), r) == Ok::<Region, Error>(
            r,
        ),
{
}

} // verus!
