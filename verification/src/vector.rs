pub mod vector_2;
pub mod vector_3;
pub mod vector_4;
pub mod vector_n;

use vstd::prelude::*;

verus! {

/// The orientation tag every vector carries: its elements are read either as
/// a row or as a column. The tag is part of a vector's identity and chooses
/// its textual rendering.
#[derive(Copy, Clone, PartialEq, Eq, Structural, Debug)]
pub enum VectorType {
    Row,
    Column,
}

/// The orientation a transposed vector gets: `Row` and `Column` swap.
pub open spec fn flipped(t: VectorType) -> VectorType {
    match t {
        VectorType::Row => VectorType::Column,
        VectorType::Column => VectorType::Row,
    }
}

/// Transposing twice restores a vector: `transpose` leaves the storage
/// unchanged and replaces the orientation by `flipped`, and flipping an
/// orientation twice yields the orientation itself.
pub proof fn lemma_flipped_involutive(t: VectorType)
    ensures
        flipped(flipped(t)) == t,
{
}

} // verus!
