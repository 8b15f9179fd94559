use crate::error::ConstructError;
use crate::scalar::{
    apply_op, lemma_add_sub_inverse, lemma_mul_div_inverse, map_op, op_in_range, ScalarOp,
};
use crate::text::{column_string, row_string, vector_text};
use crate::vector::{flipped, VectorType};
use vstd::prelude::*;

verus! {

/// A vector of five or more elements plus an orientation tag.
///
/// The length is dynamic; the validated constructor refuses fewer than five
/// elements, and every operation preserves the length, so [`VectorN::wf`]
/// holds of every value the library hands out.
#[derive(Clone, Eq, Debug)]
pub struct VectorN {
    storage: Vec<u64>,
    vector_type: VectorType,
}

impl VectorN {
    /// The elements, in coordinate order.
    pub closed spec fn elems(self) -> Seq<u64> {
        self.storage@
    }

    /// The orientation tag.
    pub closed spec fn orientation(self) -> VectorType {
        self.vector_type
    }

    /// The type's invariant: at least five elements.
    pub open spec fn wf(self) -> bool {
        self.elems().len() >= 5
    }

    /// What `==` on variable-length vectors means: the same elements in the
    /// same order and the same orientation.
    pub open spec fn spec_eq(self, other: Self) -> bool {
        self.elems() == other.elems() && self.orientation() == other.orientation()
    }

    /// Builds the vector holding `vec`'s elements in order with the given
    /// orientation; refuses fewer than five elements.
    pub fn new(vec: Vec<u64>, vector_type: VectorType) -> (r: Result<Self, ConstructError>)
        ensures
            match r {
                Ok(v) => vec@.len() >= 5 && v.elems() == vec@ && v.orientation() == vector_type
                    && v.wf(),
                Err(e) => vec@.len() < 5 && e == ConstructError::UndersizedVector,
            },
    {
        if vec.len() < 5 {
            Err(ConstructError::UndersizedVector)
        } else {
            Ok(Self { storage: vec, vector_type })
        }
    }

    /// Flips the orientation in place; the storage is untouched.
    pub fn transpose(&mut self)
        ensures
            final(self).elems() == old(self).elems(),
            final(self).orientation() == flipped(old(self).orientation()),
    {
        self.vector_type = match self.vector_type {
            VectorType::Row => VectorType::Column,
            VectorType::Column => VectorType::Row,
        };
    }

    /// Applies `op` with scalar `c` to every element; orientation and length
    /// are kept.
    pub fn scalar_op(self, op: ScalarOp, c: u64) -> (r: Self)
        requires
            forall|i: int|
                0 <= i < self.elems().len() ==> op_in_range(op, self.elems()[i] as int, c as int),
        ensures
            r.elems() == map_op(op, self.elems(), c),
            r.orientation() == self.orientation(),
            self.wf() ==> r.wf(),
    {
        let ghost mapped: Seq<u64> = map_op(op, self.storage@, c);
        proof {
            assert forall|j: int|
                0 <= j < self.storage@.len() implies op_in_range(
                op,
                self.storage@[j] as int,
                c as int,
            ) by {
                assert(op_in_range(op, self.elems()[j] as int, c as int));
            }
        }
        let mut out: Vec<u64> = Vec::new();
        let n = self.storage.len();
        let mut i: usize = 0;
        while i < n
            invariant
                i <= n,
                n == self.storage@.len(),
                mapped == map_op(op, self.storage@, c),
                forall|j: int|
                    0 <= j < self.storage@.len() ==> op_in_range(
                        op,
                        self.storage@[j] as int,
                        c as int,
                    ),
                out@ == mapped.take(i as int),
            decreases n - i,
        {
            out.push(apply_op(self.storage[i], op, c));
            proof {
                assert(out@ =~= mapped.take(i + 1));
            }
            i += 1;
        }
        proof {
            assert(mapped.take(n as int) =~= mapped);
        }
        Self { storage: out, vector_type: self.vector_type }
    }

    /// Renders the vector as text chosen by its orientation: the elements
    /// space-joined between brackets for a row, a boxed column otherwise.
    pub fn render(&self) -> (s: String)
        requires
            self.wf(),
        ensures
            s@ == vector_text(self.elems(), self.orientation()),
    {
        match self.vector_type {
            VectorType::Row => row_string(self.storage.as_slice()),
            VectorType::Column => column_string(self.storage.as_slice()),
        }
    }
}

impl PartialEq for VectorN {
    fn eq(&self, other: &Self) -> (r: bool) {
        if self.storage.len() != other.storage.len() {
            return false;
        }
        if self.vector_type != other.vector_type {
            return false;
        }
        let n = self.storage.len();
        let mut i: usize = 0;
        while i < n
            invariant
                i <= n,
                n == self.storage@.len(),
                n == other.storage@.len(),
                forall|j: int| 0 <= j < i ==> self.storage@[j] == other.storage@[j],
            decreases n - i,
        {
            if self.storage[i] != other.storage[i] {
                return false;
            }
            i += 1;
        }
        proof {
            assert(self.storage@ =~= other.storage@);
        }
        true
    }
}

impl vstd::std_specs::cmp::PartialEqSpecImpl for VectorN {
    open spec fn obeys_eq_spec() -> bool {
        true
    }

    open spec fn eq_spec(&self, other: &Self) -> bool {
        self.spec_eq(*other)
    }
}

/// A row vector and a column vector are never equal, whatever their
/// elements: equality is orientation-sensitive.
pub proof fn lemma_eq_orientation_sensitive(a: VectorN, b: VectorN)
    requires
        a.orientation() != b.orientation(),
    ensures
        !a.spec_eq(b),
{
}

/// Round-trip transpose: `transpose` keeps the elements and replaces the
/// orientation by `flipped`, so a vector whose orientation was flipped
/// twice and whose elements are unchanged equals the original, orientation
/// and elements both restored.
pub proof fn lemma_transpose_round_trip(v: VectorN, w: VectorN)
    requires
        w.elems() == v.elems(),
        w.orientation() == flipped(flipped(v.orientation())),
    ensures
        w.spec_eq(v),
{
}

/// Scalar-op inverse laws: adding a scalar and then subtracting it restores
/// the storage, and multiplying by a non-zero scalar and then dividing by
/// it does too, whenever the first step stays in range. `scalar_op` keeps
/// the orientation, so the whole vector is restored.
pub proof fn lemma_scalar_inverse_laws(v: VectorN, c: u64)
    ensures
        (forall|i: int|
            0 <= i < v.elems().len() ==> op_in_range(ScalarOp::Add, v.elems()[i] as int, c as int))
            ==> map_op(ScalarOp::Sub, map_op(ScalarOp::Add, v.elems(), c), c) == v.elems(),
        (c != 0 && forall|i: int|
            0 <= i < v.elems().len() ==> op_in_range(ScalarOp::Mul, v.elems()[i] as int, c as int))
            ==> map_op(ScalarOp::Div, map_op(ScalarOp::Mul, v.elems(), c), c) == v.elems(),
{
    if forall|i: int|
        0 <= i < v.elems().len() ==> op_in_range(ScalarOp::Add, v.elems()[i] as int, c as int) {
        lemma_add_sub_inverse(v.elems(), c);
    }
    if c != 0 && forall|i: int|
        0 <= i < v.elems().len() ==> op_in_range(ScalarOp::Mul, v.elems()[i] as int, c as int) {
        lemma_mul_div_inverse(v.elems(), c);
    }
}

} // verus!
