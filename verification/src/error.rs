use vstd::prelude::*;

verus! {

/// The two ways a validated constructor can refuse its input.
///
/// Both stand for caller misuse found at construction time; no other
/// operation of the library can fail for input-shape reasons.
#[derive(Copy, Clone, PartialEq, Eq, Structural, Debug)]
pub enum ConstructError {
    /// Matrix construction was given rows whose orientations differ.
    MismatchedOrientation,
    /// A variable-length vector was given fewer than five elements.
    UndersizedVector,
}

} // verus!
