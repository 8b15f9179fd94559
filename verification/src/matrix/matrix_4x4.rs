use crate::error::ConstructError;
use crate::scalar::{
    lemma_add_sub_inverse, lemma_mul_div_inverse, map_op, op_in_range, ScalarOp,
};
use crate::text::{framed_string, framed_text, push_spaced, spaced};
use crate::vector::vector_4::Vector4;
use crate::vector::VectorType;
use vstd::prelude::*;

verus! {

/// A 4×4 matrix: four four-element vectors sharing one orientation.
///
/// The validated constructor refuses rows whose orientations differ, so
/// [`Matrix4x4::wf`] holds of every value the library hands out.
#[derive(Copy, Clone, Eq, Debug)]
pub struct Matrix4x4 {
    vectors: [Vector4; 4],
}

impl Matrix4x4 {
    /// The rows, in the order given at construction.
    pub closed spec fn rows(self) -> Seq<Vector4> {
        self.vectors@
    }

    /// The type's invariant: every row has the same orientation.
    pub open spec fn wf(self) -> bool {
        forall|i: int|
            0 <= i < self.rows().len() ==> (#[trigger] self.rows()[i]).vector_type
                == self.rows()[0].vector_type
    }

    /// What `==` on 4×4 matrices means: row-wise vector equality, in order.
    pub open spec fn spec_eq(self, other: Self) -> bool {
        self.rows().len() == other.rows().len() && forall|i: int|
            0 <= i < self.rows().len() ==> self.rows()[i].spec_eq(other.rows()[i])
    }

    /// Builds the matrix with rows `v1`, `v2`, `v3`, `v4` in that order;
    /// refuses rows whose orientations differ.
    pub fn new(v1: Vector4, v2: Vector4, v3: Vector4, v4: Vector4) -> (r: Result<
        Self,
        ConstructError,
    >)
        ensures
            match r {
                Ok(m) => v1.vector_type == v2.vector_type && v2.vector_type == v3.vector_type
                    && v3.vector_type == v4.vector_type && m.rows() == seq![v1, v2, v3, v4]
                    && m.wf(),
                Err(e) => !(v1.vector_type == v2.vector_type && v2.vector_type == v3.vector_type
                    && v3.vector_type == v4.vector_type) && e
                    == ConstructError::MismatchedOrientation,
            },
    {
        if v1.vector_type == v2.vector_type && v2.vector_type == v3.vector_type && v3.vector_type
            == v4.vector_type {
            let m = Self { vectors: [v1, v2, v3, v4] };
            proof {
                assert(m.rows() =~= seq![v1, v2, v3, v4]);
            }
            Ok(m)
        } else {
            Err(ConstructError::MismatchedOrientation)
        }
    }

    /// Applies `op` with scalar `c` to every element of every row; each
    /// row's orientation and the row order are kept.
    pub fn scalar_op(self, op: ScalarOp, c: u64) -> (r: Self)
        requires
            forall|i: int, j: int|
                0 <= i < self.rows().len() && 0 <= j < self.rows()[i].storage@.len()
                    ==> op_in_range(op, self.rows()[i].storage@[j] as int, c as int),
        ensures
            r.rows().len() == self.rows().len(),
            self.wf() ==> r.wf(),
            forall|i: int|
                0 <= i < self.rows().len() ==> r.rows()[i].storage@ == map_op(
                    op,
                    self.rows()[i].storage@,
                    c,
                ) && r.rows()[i].vector_type == self.rows()[i].vector_type,
    {
        let r = Self {
            vectors: [
                self.vectors[0].scalar_op(op, c),
                self.vectors[1].scalar_op(op, c),
                self.vectors[2].scalar_op(op, c),
                self.vectors[3].scalar_op(op, c),
            ],
        };
        r
    }

    /// The body lines of the rendering: whole rows when the shared
    /// orientation is `Row`, column-major reads when it is `Column`.
    pub open spec fn body_lines(self) -> Seq<Seq<char>> {
        if self.rows()[0].vector_type == VectorType::Row {
            seq![
                spaced(self.rows()[0].storage@),
                spaced(self.rows()[1].storage@),
                spaced(self.rows()[2].storage@),
                spaced(self.rows()[3].storage@),
            ]
        } else {
            seq![
                spaced(self.column_read(0)),
                spaced(self.column_read(1)),
                spaced(self.column_read(2)),
                spaced(self.column_read(3)),
            ]
        }
    }

    /// The `i`-th element of each row, in row order: one column-major line.
    pub open spec fn column_read(self, i: int) -> Seq<u64> {
        seq![
            self.rows()[0].storage@[i],
            self.rows()[1].storage@[i],
            self.rows()[2].storage@[i],
            self.rows()[3].storage@[i],
        ]
    }

    /// Renders the matrix as a boxed block whose body lines are chosen by
    /// the shared orientation.
    pub fn render(&self) -> (s: String)
        ensures
            s@ == framed_text(self.body_lines()),
    {
        let mut lines: Vec<Vec<char>> = Vec::new();
        if self.vectors[0].vector_type == VectorType::Row {
            let mut l0: Vec<char> = Vec::new();
            push_spaced(&mut l0, self.vectors[0].storage.as_slice());
            lines.push(l0);
            let mut l1: Vec<char> = Vec::new();
            push_spaced(&mut l1, self.vectors[1].storage.as_slice());
            lines.push(l1);
            let mut l2: Vec<char> = Vec::new();
            push_spaced(&mut l2, self.vectors[2].storage.as_slice());
            lines.push(l2);
            let mut l3: Vec<char> = Vec::new();
            push_spaced(&mut l3, self.vectors[3].storage.as_slice());
            lines.push(l3);
        } else {
            let c0: [u64; 4] = [
                self.vectors[0].storage[0],
                self.vectors[1].storage[0],
                self.vectors[2].storage[0],
                self.vectors[3].storage[0],
            ];
            let mut l0: Vec<char> = Vec::new();
            push_spaced(&mut l0, c0.as_slice());
            lines.push(l0);
            let c1: [u64; 4] = [
                self.vectors[0].storage[1],
                self.vectors[1].storage[1],
                self.vectors[2].storage[1],
                self.vectors[3].storage[1],
            ];
            let mut l1: Vec<char> = Vec::new();
            push_spaced(&mut l1, c1.as_slice());
            lines.push(l1);
            let c2: [u64; 4] = [
                self.vectors[0].storage[2],
                self.vectors[1].storage[2],
                self.vectors[2].storage[2],
                self.vectors[3].storage[2],
            ];
            let mut l2: Vec<char> = Vec::new();
            push_spaced(&mut l2, c2.as_slice());
            lines.push(l2);
            let c3: [u64; 4] = [
                self.vectors[0].storage[3],
                self.vectors[1].storage[3],
                self.vectors[2].storage[3],
                self.vectors[3].storage[3],
            ];
            let mut l3: Vec<char> = Vec::new();
            push_spaced(&mut l3, c3.as_slice());
            lines.push(l3);
            proof {
                assert(c0@ =~= self.column_read(0));
                assert(c1@ =~= self.column_read(1));
                assert(c2@ =~= self.column_read(2));
                assert(c3@ =~= self.column_read(3));
            }
        }
        proof {
            assert(lines@.map_values(|l: Vec<char>| l@) =~~= self.body_lines());
        }
        framed_string(&lines)
    }
}

impl PartialEq for Matrix4x4 {
    fn eq(&self, other: &Self) -> (r: bool) {
        self.vectors[0] == other.vectors[0] && self.vectors[1] == other.vectors[1]
            && self.vectors[2] == other.vectors[2] && self.vectors[3] == other.vectors[3]
    }
}

impl vstd::std_specs::cmp::PartialEqSpecImpl for Matrix4x4 {
    open spec fn obeys_eq_spec() -> bool {
        true
    }

    open spec fn eq_spec(&self, other: &Self) -> bool {
        self.spec_eq(*other)
    }
}

/// Scalar-op inverse laws, row-wise: adding a scalar and then subtracting
/// it restores every row's storage, and multiplying by a non-zero scalar
/// and then dividing by it does too, whenever the first step stays in range
/// on every element. `scalar_op` keeps each row's orientation, so the whole
/// matrix is restored.
pub proof fn lemma_scalar_inverse_laws(m: Matrix4x4, c: u64)
    ensures
        (forall|r: int, i: int|
            0 <= r < m.rows().len() && 0 <= i < m.rows()[r].storage@.len() ==> op_in_range(
                ScalarOp::Add,
                m.rows()[r].storage@[i] as int,
                c as int,
            )) ==> forall|r: int|
            0 <= r < m.rows().len() ==> map_op(
                ScalarOp::Sub,
                map_op(ScalarOp::Add, (#[trigger] m.rows()[r]).storage@, c),
                c,
            ) == m.rows()[r].storage@,
        (c != 0 && forall|r: int, i: int|
            0 <= r < m.rows().len() && 0 <= i < m.rows()[r].storage@.len() ==> op_in_range(
                ScalarOp::Mul,
                m.rows()[r].storage@[i] as int,
                c as int,
            )) ==> forall|r: int|
            0 <= r < m.rows().len() ==> map_op(
                ScalarOp::Div,
                map_op(ScalarOp::Mul, (#[trigger] m.rows()[r]).storage@, c),
                c,
            ) == m.rows()[r].storage@,
{
    if forall|r: int, i: int|
        0 <= r < m.rows().len() && 0 <= i < m.rows()[r].storage@.len() ==> op_in_range(
            ScalarOp::Add,
            m.rows()[r].storage@[i] as int,
            c as int,
        ) {
        assert forall|r: int| 0 <= r < m.rows().len() implies map_op(
            ScalarOp::Sub,
            map_op(ScalarOp::Add, (#[trigger] m.rows()[r]).storage@, c),
            c,
        ) == m.rows()[r].storage@ by {
            lemma_add_sub_inverse(m.rows()[r].storage@, c);
        }
    }
    if c != 0 && forall|r: int, i: int|
        0 <= r < m.rows().len() && 0 <= i < m.rows()[r].storage@.len() ==> op_in_range(
            ScalarOp::Mul,
            m.rows()[r].storage@[i] as int,
            c as int,
        ) {
        assert forall|r: int| 0 <= r < m.rows().len() implies map_op(
            ScalarOp::Div,
            map_op(ScalarOp::Mul, (#[trigger] m.rows()[r]).storage@, c),
            c,
        ) == m.rows()[r].storage@ by {
            lemma_mul_div_inverse(m.rows()[r].storage@, c);
        }
    }
}

} // verus!
