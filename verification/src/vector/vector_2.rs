use crate::scalar::{
    apply_op, lemma_add_sub_inverse, lemma_mul_div_inverse, map_op, op_in_range, ScalarOp,
};
use crate::text::{column_string, row_string, vector_text};
use crate::vector::{flipped, VectorType};
use vstd::prelude::*;

verus! {

/// A vector of exactly two elements plus an orientation tag.
///
/// The element count is fixed by the type itself; construction never fails.
#[derive(Copy, Clone, Eq, Debug)]
pub struct Vector2 {
    pub storage: [u64; 2],
    pub vector_type: VectorType,
}

impl Vector2 {
    /// What `==` on two-element vectors means: the same elements in the same
    /// order and the same orientation.
    pub open spec fn spec_eq(self, other: Self) -> bool {
        self.storage@ == other.storage@ && self.vector_type == other.vector_type
    }

    /// Builds the vector holding `x` then `y` with the given orientation.
    pub fn new(x: u64, y: u64, vector_type: VectorType) -> (r: Self)
        ensures
            r.storage@ == seq![x, y],
            r.vector_type == vector_type,
    {
        let r = Self { storage: [x, y], vector_type };
        proof {
            assert(r.storage@ =~= seq![x, y]);
        }
        r
    }

    /// Flips the orientation in place; the storage is untouched.
    pub fn transpose(&mut self)
        ensures
            final(self).storage == old(self).storage,
            final(self).vector_type == flipped(old(self).vector_type),
    {
        self.vector_type = match self.vector_type {
            VectorType::Row => VectorType::Column,
            VectorType::Column => VectorType::Row,
        };
    }

    /// Applies `op` with scalar `c` to every element; orientation and length
    /// are kept.
    pub fn scalar_op(self, op: ScalarOp, c: u64) -> (r: Self)
        requires
            forall|i: int|
                0 <= i < self.storage@.len() ==> op_in_range(op, self.storage@[i] as int, c as int),
        ensures
            r.storage@ == map_op(op, self.storage@, c),
            r.vector_type == self.vector_type,
    {
        let r = Self {
            storage: [apply_op(self.storage[0], op, c), apply_op(self.storage[1], op, c)],
            vector_type: self.vector_type,
        };
        proof {
            assert(r.storage@ =~= map_op(op, self.storage@, c));
        }
        r
    }

    /// Renders the vector as text chosen by its orientation: the elements
    /// space-joined between brackets for a row, a boxed column otherwise.
    pub fn render(&self) -> (s: String)
        ensures
            s@ == vector_text(self.storage@, self.vector_type),
    {
        match self.vector_type {
            VectorType::Row => row_string(self.storage.as_slice()),
            VectorType::Column => column_string(self.storage.as_slice()),
        }
    }
}

impl PartialEq for Vector2 {
    fn eq(&self, other: &Self) -> (r: bool) {
        let r = self.storage[0] == other.storage[0] && self.storage[1] == other.storage[1]
            && self.vector_type == other.vector_type;
        proof {
            if r {
                assert(self.storage@ =~= other.storage@);
            }
        }
        r
    }
}

impl vstd::std_specs::cmp::PartialEqSpecImpl for Vector2 {
    open spec fn obeys_eq_spec() -> bool {
        true
    }

    open spec fn eq_spec(&self, other: &Self) -> bool {
        self.spec_eq(*other)
    }
}

/// A row vector and a column vector are never equal, whatever their
/// elements: equality is orientation-sensitive.
pub proof fn lemma_eq_orientation_sensitive(a: Vector2, b: Vector2)
    requires
        a.vector_type != b.vector_type,
    ensures
        !a.spec_eq(b),
{
}

/// Round-trip transpose: `transpose` keeps the storage and replaces the
/// orientation by `flipped`, so a vector whose orientation was flipped
/// twice and whose storage is unchanged equals the original, orientation
/// and storage both restored.
pub proof fn lemma_transpose_round_trip(v: Vector2, w: Vector2)
    requires
        w.storage == v.storage,
        w.vector_type == flipped(flipped(v.vector_type)),
    ensures
        w.spec_eq(v),
{
}

/// Scalar-op inverse laws: adding a scalar and then subtracting it restores
/// the storage, and multiplying by a non-zero scalar and then dividing by
/// it does too, whenever the first step stays in range. `scalar_op` keeps
/// the orientation, so the whole vector is restored.
pub proof fn lemma_scalar_inverse_laws(v: Vector2, c: u64)
    ensures
        (forall|i: int|
            0 <= i < v.storage@.len() ==> op_in_range(ScalarOp::Add, v.storage@[i] as int, c as int))
            ==> map_op(ScalarOp::Sub, map_op(ScalarOp::Add, v.storage@, c), c) == v.storage@,
        (c != 0 && forall|i: int|
            0 <= i < v.storage@.len() ==> op_in_range(ScalarOp::Mul, v.storage@[i] as int, c as int))
            ==> map_op(ScalarOp::Div, map_op(ScalarOp::Mul, v.storage@, c), c) == v.storage@,
{
    if forall|i: int|
        0 <= i < v.storage@.len() ==> op_in_range(ScalarOp::Add, v.storage@[i] as int, c as int) {
        lemma_add_sub_inverse(v.storage@, c);
    }
    if c != 0 && forall|i: int|
        0 <= i < v.storage@.len() ==> op_in_range(ScalarOp::Mul, v.storage@[i] as int, c as int) {
        lemma_mul_div_inverse(v.storage@, c);
    }
}

} // verus!
