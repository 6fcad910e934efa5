use core::marker::PhantomData;
use vstd::prelude::*;

use crate::error::Error;
use crate::region::Region;

verus! {

/// Witness that the bytes `[begin, end)` form one contiguous allocation for
/// the lifetime `'a`.
///
/// The witness does not own the memory. The borrow it was made from must
/// outlive it, and the memory must not move, shrink or be freed meanwhile.
pub struct AllocationProof<'a> {
    begin: usize,
    end: usize,
    phantom: PhantomData<&'a ()>,
}

/// The region that runs from the start of `first` to the end of `second`.
pub open spec fn joined(first: Region, second: Region) -> Region {
    Region { addr: first.addr, len: (second.end() - first.addr) as usize }
}

/// `first` ends exactly where `second` starts.
pub open spec fn touches(first: Region, second: Region) -> bool {
    first.end() == second.addr
}

impl<'a> AllocationProof<'a> {
    /// Address of the first witnessed byte.
    pub closed spec fn begin(self) -> int {
        self.begin as int
    }

    /// One past the address of the last witnessed byte.
    pub closed spec fn end(self) -> int {
        self.end as int
    }

    /// The witnessed range is well formed.
    pub open spec fn wf(self) -> bool {
        self.begin() <= self.end() <= usize::MAX
    }

    /// `r` lies inside the witnessed range; an empty region may sit on either
    /// boundary.
    pub open spec fn contains(self, r: Region) -> bool {
        self.begin() <= r.addr && r.end() <= self.end()
    }

    /// What an ordered merge of `a` then `b` returns.
    pub open spec fn merged(self, a: Region, b: Region) -> Result<Region, Error> {
        if self.contains(a) && self.contains(b) && touches(a, b) {
            Ok(joined(a, b))
        } else {
            Err(Error::NotAdjacent)
        }
    }

    /// What a merge of `a` and `b` in either order returns.
    pub open spec fn merged_unordered(self, a: Region, b: Region) -> Result<Region, Error> {
        if self.contains(a) && self.contains(b) && touches(a, b) {
            Ok(joined(a, b))
        } else if self.contains(a) && self.contains(b) && touches(b, a) {
            Ok(joined(b, a))
        } else {
            Err(Error::NotAdjacent)
        }
    }

    /// Witness the allocation that `r` describes.
    pub fn from_region(r: Region) -> (p: Self)
        requires
            r.wf(),
        ensures
            p.wf(),
            p.begin() == r.addr,
            p.end() == r.end(),
    {
        AllocationProof { begin: r.addr, end: r.addr + r.len, phantom: PhantomData }
    }

    /// Witness the allocation that holds `obj`, for as long as `obj` is
    /// borrowed.
    ///
    /// The caller vouches that `obj` lies in one allocation; every value does.
    pub fn new<T: ?Sized>(obj: &'a T) -> (p: Self)
        ensures
            p.wf(),
            p.end() - p.begin() == vstd::layout::spec_size_of_val::<T>(obj),
    {
        Self::from_region(Region::of(obj))
    }

    /// Witness the allocation that holds `obj`, and hand the mutable borrow
    /// back unchanged.
    ///
    /// The borrow that comes back must not be used to move, shrink or free
    /// the memory while the witness lives.
    pub fn new_mut<T: ?Sized>(obj: &'a mut T) -> (res: (Self, &'a mut T))
        ensures
            res.0.wf(),
            res.0.end() - res.0.begin() == vstd::layout::spec_size_of_val::<T>(&*old(obj)),
            &*res.1 == &*old(obj),
            &*final(obj) == &*final(res.1),
    {
        let p = Self::from_region(Region::of(&*obj));
        (p, obj)
    }

    /// Whether `r` lies inside the witnessed range.
    pub fn within(&self, r: Region) -> (b: bool)
        requires
            self.wf(),
        ensures
            b == self.contains(r),
    {
        self.begin <= r.addr && r.addr <= self.end && r.len <= self.end - r.addr
    }

    /// Join `a` and `b` into one region, where `a` ends exactly where `b`
    /// starts and both lie inside the witnessed range.
    ///
    /// Either region may be empty: an empty region touches whatever starts
    /// or ends at its address.
    pub fn merge(&self, a: Region, b: Region) -> (r: Result<Region, Error>)
        requires
            self.wf(),
        ensures
            r == self.merged(a, b),
    {
        if !self.within(a) || !self.within(b) {
            return Err(Error::NotAdjacent);
        }
        if a.addr <= b.addr && a.len == b.addr - a.addr {
            Ok(Region { addr: a.addr, len: a.len + b.len })
        } else {
            Err(Error::NotAdjacent)
        }
    }

    /// Join `a` and `b` into one region, whichever of the two comes first in
    /// memory.
    pub fn merge_unordered(&self, a: Region, b: Region) -> (r: Result<Region, Error>)
        requires
            self.wf(),
        ensures
            r == self.merged_unordered(a, b),
    {
        if !self.within(a) || !self.within(b) {
            return Err(Error::NotAdjacent);
        }
        if a.addr <= b.addr && a.len == b.addr - a.addr {
            Ok(Region { addr: a.addr, len: a.len + b.len })
        } else if b.addr <= a.addr && b.len == a.addr - b.addr {
            Ok(Region { addr: b.addr, len: b.len + a.len })
        } else {
            Err(Error::NotAdjacent)
        }
    }
}

} // verus!
