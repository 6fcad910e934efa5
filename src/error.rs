use vstd::prelude::*;

verus! {

/// Why a merge was refused.
///
/// One kind covers both causes: a region outside the witnessed allocation,
/// and two regions inside it that do not touch in the required order.
#[derive(Clone, Copy, Debug, PartialEq, Eq, Structural)]
pub enum Error {
    NotAdjacent,
}

} // verus!
