//! Orientation-aware vectors and square matrices.
//!
//! Every vector carries an orientation tag ([`vector::VectorType`]) beside its
//! elements: a row and a column with the same elements are distinct values.
//! Construction is validated, scalar arithmetic is element-wise, transposition
//! flips the tag in place, and each value has an exact textual rendering with
//! box-drawing glyphs.

pub mod error;
pub mod matrix;
pub mod scalar;
pub mod text;
pub mod vector;
