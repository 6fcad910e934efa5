//! A capability token that witnesses one contiguous allocation and decides,
//! from raw addresses alone, whether two regions inside it may be joined into
//! one region without copying.
//!
//! The witness is address based: containment in the witnessed range stands in
//! for real pointer provenance. Two allocations that happen to touch in the
//! address space are not told apart.

mod error;
mod laws;
mod region;
mod witness;

pub use error::Error;
pub use laws::{
    lemma_empty_identity, lemma_foreign_refused, lemma_gap_refused, lemma_ordered_split,
    lemma_unordered_split, empty_at, split_at,
};
pub use region::Region;
pub use witness::{joined, touches, AllocationProof};
