//! Fragments: the unit of emission. One fragment is one self-contained
//! operator implementation, fixed by the operator kind, the ownership of the
//! two operands, and the body that combines the fields.

use vstd::prelude::*;

use crate::operation::Operation;
use crate::operation::Ownership;
use crate::operation::RhsOperand;
use crate::operation::spec_self_permutations;

verus! {

/// The two matrix shapes that have a hand-specialized product formula. There
/// is deliberately no generic fallback: a matrix shape without its own
/// formula must not be emitted at all, since the element-wise default would
/// be mathematically wrong for a product.
#[derive(Clone, Copy, PartialEq, Eq, Structural, Debug)]
pub enum MatrixShape {
    ThreeByTwo,
    FourByFour,
}

/// The semantic body of a fragment. It is identical across all ownership
/// permutations of one operator; only the calling convention differs.
#[derive(Clone, Copy, PartialEq, Eq, Structural, Debug)]
pub enum Body {
    /// `result.field = lhs.field <symbol> rhs.field`, for every field in
    /// declaration order.
    Elementwise,
    /// `result.field = lhs.field <symbol> scalar`, for every field in
    /// declaration order.
    Scalarwise,
    /// The closed-form product formula of the given matrix shape.
    MatrixProduct(MatrixShape),
}

/// One emitted operator implementation.
#[derive(Clone, Copy, PartialEq, Eq, Structural, Debug)]
pub struct Fragment {
    pub op: Operation,
    pub lhs: Ownership,
    pub rhs: RhsOperand,
    pub body: Body,
}

/// The four fragments a same-type operator expands into: one per ownership
/// permutation, all sharing the one body.
pub open spec fn spec_self_fragments(op: Operation, body: Body) -> Seq<Fragment> {
    Seq::new(
        4,
        |i: int|
            Fragment {
                op: op,
                lhs: spec_self_permutations()[i].0,
                rhs: RhsOperand::SameType(spec_self_permutations()[i].1),
                body: body,
            },
    )
}

/// The two fragments a scalar operator expands into: left-hand side by value
/// and by reference. The scalar itself is always taken by value.
pub open spec fn spec_scalar_fragments(op: Operation) -> Seq<Fragment> {
    seq![
        Fragment { op: op, lhs: Ownership::Value, rhs: RhsOperand::Scalar, body: Body::Scalarwise },
        Fragment {
            op: op,
            lhs: Ownership::Reference,
            rhs: RhsOperand::Scalar,
            body: Body::Scalarwise,
        },
    ]
}

/// Expands a same-type operator into its four ownership permutations, all
/// carrying `body` unchanged.
pub fn self_fragments(op: Operation, body: Body) -> (r: Vec<Fragment>)
    ensures
        r@ == spec_self_fragments(op, body),
{
    let perms = Operation::get_self_permutations();
    let mut r: Vec<Fragment> = Vec::new();
    let mut i: usize = 0;
    while i < perms.len()
        invariant
            perms@ == spec_self_permutations(),
            i <= 4,
            r@ == spec_self_fragments(op, body).take(i as int),
        decreases 4 - i,
    {
        let (lhs, rhs) = perms[i];
        r.push(Fragment { op, lhs, rhs: RhsOperand::SameType(rhs), body });
        proof {
            assert(r@ =~= spec_self_fragments(op, body).take(i + 1));
        }
        i += 1;
    }
    proof {
        assert(spec_self_fragments(op, body).take(4) =~= spec_self_fragments(op, body));
    }
    r
}

/// Expands a scalar operator into its two ownership variants.
pub fn scalar_fragments(op: Operation) -> (r: Vec<Fragment>)
    ensures
        r@ == spec_scalar_fragments(op),
{
    let mut r: Vec<Fragment> = Vec::new();
    r.push(Fragment { op, lhs: Ownership::Value, rhs: RhsOperand::Scalar, body: Body::Scalarwise });
    r.push(
        Fragment { op, lhs: Ownership::Reference, rhs: RhsOperand::Scalar, body: Body::Scalarwise },
    );
    proof {
        assert(r@ =~= spec_scalar_fragments(op));
    }
    r
}

/// The four ownership permutations of a same-type operator all carry the same
/// operator and the very same body: the emitted semantics cannot depend on
/// whether an operand is held or borrowed.
pub proof fn lemma_permutations_share_body(op: Operation, body: Body)
    ensures
        spec_self_fragments(op, body).len() == 4,
        forall|i: int|
            0 <= i < 4 ==> (#[trigger] spec_self_fragments(op, body)[i]).body == body,
        forall|i: int|
            0 <= i < 4 ==> (#[trigger] spec_self_fragments(op, body)[i]).op == op,
        forall|i: int|
            0 <= i < 4 ==> (#[trigger] spec_self_fragments(op, body)[i]).lhs
                == spec_self_permutations()[i].0 && spec_self_fragments(op, body)[i].rhs
                == RhsOperand::SameType(spec_self_permutations()[i].1),
{
}

} // verus!
