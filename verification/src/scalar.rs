use vstd::arithmetic::div_mod::lemma_div_multiples_vanish;
use vstd::prelude::*;

verus! {

/// The element-wise operation a scalar operator applies: each element of a
/// vector or matrix is combined with one scalar on the right.
#[derive(Copy, Clone, PartialEq, Eq, Structural, Debug)]
pub enum ScalarOp {
    Add,
    Sub,
    Mul,
    Div,
}

/// The mathematical value `op` yields on one element `x` and scalar `c`.
pub open spec fn op_result(op: ScalarOp, x: int, c: int) -> int {
    match op {
        ScalarOp::Add => x + c,
        ScalarOp::Sub => x - c,
        ScalarOp::Mul => x * c,
        ScalarOp::Div => x / c,
    }
}

/// When `op` on element `x` and scalar `c` stays within the element type:
/// no overflow for `Add` and `Mul`, no underflow for `Sub`, and a non-zero
/// divisor for `Div`.
pub open spec fn op_in_range(op: ScalarOp, x: int, c: int) -> bool {
    match op {
        ScalarOp::Add => x + c <= u64::MAX,
        ScalarOp::Sub => x - c >= 0,
        ScalarOp::Mul => x * c <= u64::MAX,
        ScalarOp::Div => c != 0,
    }
}

/// The storage a scalar operator produces: `op` applied to every element of
/// `s` with the same scalar `c`, in order and length-preserving.
pub open spec fn map_op(op: ScalarOp, s: Seq<u64>, c: u64) -> Seq<u64> {
    s.map(|i: int, x: u64| op_result(op, x as int, c as int) as u64)
}

/// Applies `op` to a single element.
pub fn apply_op(x: u64, op: ScalarOp, c: u64) -> (r: u64)
    requires
        op_in_range(op, x as int, c as int),
    ensures
        r as int == op_result(op, x as int, c as int),
{
    match op {
        ScalarOp::Add => x + c,
        ScalarOp::Sub => x - c,
        ScalarOp::Mul => x * c,
        ScalarOp::Div => x / c,
    }
}

/// Adding a scalar and then subtracting it restores any storage: for every
/// element sequence `s` and scalar `c` with `s + c` free of overflow,
/// `(s + c) - c == s`. Applied row-wise, the same law holds of matrices.
pub proof fn lemma_add_sub_inverse(s: Seq<u64>, c: u64)
    requires
        forall|i: int| 0 <= i < s.len() ==> op_in_range(ScalarOp::Add, s[i] as int, c as int),
    ensures
        map_op(ScalarOp::Sub, map_op(ScalarOp::Add, s, c), c) == s,
{
    assert(map_op(ScalarOp::Sub, map_op(ScalarOp::Add, s, c), c) =~= s);
}

/// Multiplying by a non-zero scalar and then dividing by it restores any
/// storage: for every element sequence `s` and scalar `c != 0` with `s * c`
/// free of overflow, `(s * c) / c == s`. Applied row-wise, the same law
/// holds of matrices.
pub proof fn lemma_mul_div_inverse(s: Seq<u64>, c: u64)
    requires
        c != 0,
        forall|i: int| 0 <= i < s.len() ==> op_in_range(ScalarOp::Mul, s[i] as int, c as int),
    ensures
        map_op(ScalarOp::Div, map_op(ScalarOp::Mul, s, c), c) == s,
{
    assert forall|i: int| 0 <= i < s.len() implies map_op(
        ScalarOp::Div,
        map_op(ScalarOp::Mul, s, c),
        c,
    )[i] == s[i] by {
        lemma_div_multiples_vanish(s[i] as int, c as int);
        assert((s[i] as int) * (c as int) == (c as int) * (s[i] as int));
    }
    assert(map_op(ScalarOp::Div, map_op(ScalarOp::Mul, s, c), c) =~= s);
}

} // verus!
