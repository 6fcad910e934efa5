use vstd::prelude::*;

verus! {

/// Relies on `core::ptr::from_ref` and the pointer's `addr`: the address of the
/// first byte of `obj`. The `core::ptr` documentation guarantees that an
/// allocation's base plus its size is at most `usize::MAX`; a value lies inside
/// its allocation (or has size zero), so its bytes end at or below that bound.
#[verifier::external_body]
fn address_of<T: ?Sized>(obj: &T) -> (r: usize)
    ensures
        r + vstd::layout::spec_size_of_val::<T>(obj) <= usize::MAX,
{
    core::ptr::from_ref(obj).addr()
}

/// A run of bytes in memory: the address of its first byte and its length in
/// bytes.
#[derive(Clone, Copy, Debug, PartialEq, Eq, Structural)]
pub struct Region {
    pub addr: usize,
    pub len: usize,
}

impl Region {
    /// One past the last byte of the region.
    pub open spec fn end(self) -> int {
        self.addr + self.len
    }

    /// The region lies in the address space without wrapping around it.
    pub open spec fn wf(self) -> bool {
        self.end() <= usize::MAX
    }

    /// The bytes that `obj` occupies.
    pub fn of<T: ?Sized>(obj: &T) -> (r: Region)
        ensures
            r.len == vstd::layout::spec_size_of_val::<T>(obj),
            r.wf(),
    {
        let addr = address_of(obj);
        let len = core::mem::size_of_val(obj);
        Region { addr, len }
    }
}

} // verus!
