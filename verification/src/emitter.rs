//! Per-family operator selection and the sequencing of fragments into one
//! emitted unit.

use vstd::prelude::*;

use crate::descriptor::Family;
use crate::fragment::Body;
use crate::fragment::Fragment;
use crate::fragment::MatrixShape;
use crate::fragment::spec_scalar_fragments;
use crate::fragment::spec_self_fragments;
use crate::fragment::scalar_fragments;
use crate::fragment::self_fragments;
use crate::operation::Operation;
use crate::operation::RhsOperand;

verus! {

/// The operator table of a family: the same-type operators it supports, in
/// emission order, each with whether a scalar variant applies. Vectors get
/// all four operators with scalar multiply and divide; matrices get
/// addition, subtraction and multiplication with scalar multiply only; an
/// unrecognized type gets nothing.
pub open spec fn spec_operator_set(family: Family) -> Seq<(Operation, bool)> {
    match family {
        Family::Vector2 | Family::Vector3 | Family::Vector4 => seq![
            (Operation::Add, false),
            (Operation::Sub, false),
            (Operation::Div, true),
            (Operation::Mul, true),
        ],
        Family::Matrix3x2 | Family::Matrix4x4 => seq![
            (Operation::Add, false),
            (Operation::Sub, false),
            (Operation::Mul, true),
        ],
        Family::Other => Seq::empty(),
    }
}

/// Whether `op` gets same-type fragments for `family`.
pub open spec fn spec_same_type_applicable(family: Family, op: Operation) -> bool {
    match family {
        Family::Vector2 | Family::Vector3 | Family::Vector4 => true,
        Family::Matrix3x2 | Family::Matrix4x4 => op != Operation::Div,
        Family::Other => false,
    }
}

/// Whether `op` gets scalar fragments for `family`.
pub open spec fn spec_scalar_applicable(family: Family, op: Operation) -> bool {
    match family {
        Family::Vector2 | Family::Vector3 | Family::Vector4 => op == Operation::Div || op
            == Operation::Mul,
        Family::Matrix3x2 | Family::Matrix4x4 => op == Operation::Mul,
        Family::Other => false,
    }
}

/// The body a same-type operator carries for a family: the element-wise
/// default everywhere except multiplication on a matrix family, which takes
/// that shape's closed-form product.
pub open spec fn spec_body_for(family: Family, op: Operation) -> Body {
    match (family, op) {
        (Family::Matrix3x2, Operation::Mul) => Body::MatrixProduct(MatrixShape::ThreeByTwo),
        (Family::Matrix4x4, Operation::Mul) => Body::MatrixProduct(MatrixShape::FourByFour),
        _ => Body::Elementwise,
    }
}

/// The fragments one operator-table entry contributes: the four same-type
/// permutations, then, where a scalar variant applies, the two scalar
/// variants.
pub open spec fn spec_op_fragments(family: Family, op: Operation, scalar: bool) -> Seq<Fragment> {
    if scalar {
        spec_self_fragments(op, spec_body_for(family, op)) + spec_scalar_fragments(op)
    } else {
        spec_self_fragments(op, spec_body_for(family, op))
    }
}

/// The fragments contributed by the first `n` entries of a family's operator
/// table.
pub open spec fn spec_unit_prefix(family: Family, n: int) -> Seq<Fragment>
    decreases n,
{
    if n <= 0 {
        Seq::empty()
    } else {
        spec_unit_prefix(family, n - 1) + spec_op_fragments(
            family,
            spec_operator_set(family)[n - 1].0,
            spec_operator_set(family)[n - 1].1,
        )
    }
}

/// The whole emitted unit of a family, as fragments in emission order.
pub open spec fn spec_unit_fragments(family: Family) -> Seq<Fragment> {
    spec_unit_prefix(family, spec_operator_set(family).len() as int)
}

/// The operator table of a family, as a vector.
pub fn operator_set(family: Family) -> (r: Vec<(Operation, bool)>)
    ensures
        r@ == spec_operator_set(family),
    {
    let mut r: Vec<(Operation, bool)> = Vec::new();
    match family {
        Family::Vector2 | Family::Vector3 | Family::Vector4 => {
            r.push((Operation::Add, false));
            r.push((Operation::Sub, false));
            r.push((Operation::Div, true));
            r.push((Operation::Mul, true));
        },
        Family::Matrix3x2 | Family::Matrix4x4 => {
            r.push((Operation::Add, false));
            r.push((Operation::Sub, false));
            r.push((Operation::Mul, true));
        },
        Family::Other => {},
    }
    proof {
        assert(r@ =~= spec_operator_set(family));
    }
    r
}

/// Sequences the emitted unit of one described type: for each entry of its
/// family's operator table, the four same-type permutations (with the matrix
/// product body where the entry is multiplication on a matrix family),
/// followed by the two scalar variants where those apply. A type of family
/// `Other` yields no fragments at all.
pub fn struct_fragments(family: Family) -> (r: Vec<Fragment>)
    ensures
        r@ == spec_unit_fragments(family),
{
    let table = operator_set(family);
    let mut r: Vec<Fragment> = Vec::new();
    let mut i: usize = 0;
    while i < table.len()
        invariant
            table@ == spec_operator_set(family),
            i <= table@.len(),
            r@ == spec_unit_prefix(family, i as int),
        decreases table@.len() - i,
    {
        let (op, scalar) = table[i];
        let body = match (family, op) {
            (Family::Matrix3x2, Operation::Mul) => Body::MatrixProduct(MatrixShape::ThreeByTwo),
            (Family::Matrix4x4, Operation::Mul) => Body::MatrixProduct(MatrixShape::FourByFour),
            _ => Body::Elementwise,
        };
        proof {
            assert(body == spec_body_for(family, op));
        }
        let mut same = self_fragments(op, body);
        r.append(&mut same);
        if scalar {
            let mut with_scalar = scalar_fragments(op);
            r.append(&mut with_scalar);
        }
        proof {
            assert(r@ =~= spec_unit_prefix(family, i + 1));
        }
        i += 1;
    }
    r
}

/// The number of same-type fragments for `op` in a fragment sequence.
pub open spec fn count_same_type(s: Seq<Fragment>, op: Operation) -> int
    decreases s.len(),
{
    if s.len() == 0 {
        0
    } else {
        count_same_type(s.drop_last(), op) + if s.last().op == op && s.last().rhs is SameType {
            1int
        } else {
            0
        }
    }
}

/// The number of scalar fragments for `op` in a fragment sequence.
pub open spec fn count_scalar(s: Seq<Fragment>, op: Operation) -> int
    decreases s.len(),
{
    if s.len() == 0 {
        0
    } else {
        count_scalar(s.drop_last(), op) + if s.last().op == op && s.last().rhs is Scalar {
            1int
        } else {
            0
        }
    }
}

proof fn lemma_count_concat(a: Seq<Fragment>, b: Seq<Fragment>, op: Operation)
    ensures
        count_same_type(a + b, op) == count_same_type(a, op) + count_same_type(b, op),
        count_scalar(a + b, op) == count_scalar(a, op) + count_scalar(b, op),
    decreases b.len(),
{
    if b.len() == 0 {
        assert(a + b =~= a);
    } else {
        assert((a + b).drop_last() =~= a + b.drop_last());
        assert((a + b).last() == b.last());
        lemma_count_concat(a, b.drop_last(), op);
    }
}

proof fn lemma_count_self_fragments(op2: Operation, body: Body, op: Operation)
    ensures
        count_same_type(spec_self_fragments(op2, body), op) == if op2 == op {
            4int
        } else {
            0
        },
        count_scalar(spec_self_fragments(op2, body), op) == 0,
{
    let s = spec_self_fragments(op2, body);
    let s3 = s.drop_last();
    let s2 = s3.drop_last();
    let s1 = s2.drop_last();
    let s0 = s1.drop_last();
    assert(count_same_type(s0, op) == 0);
    assert(count_same_type(s1, op) == if op2 == op { 1int } else { 0 });
    assert(count_same_type(s2, op) == if op2 == op { 2int } else { 0 });
    assert(count_same_type(s3, op) == if op2 == op { 3int } else { 0 });
    assert(count_same_type(s, op) == if op2 == op { 4int } else { 0 });
    assert(count_scalar(s0, op) == 0);
    assert(count_scalar(s1, op) == 0);
    assert(count_scalar(s2, op) == 0);
    assert(count_scalar(s3, op) == 0);
    assert(count_scalar(s, op) == 0);
}

proof fn lemma_count_scalar_fragments(op2: Operation, op: Operation)
    ensures
        count_scalar(spec_scalar_fragments(op2), op) == if op2 == op {
            2int
        } else {
            0
        },
        count_same_type(spec_scalar_fragments(op2), op) == 0,
{
    let s = spec_scalar_fragments(op2);
    let s1 = s.drop_last();
    let s0 = s1.drop_last();
    assert(count_scalar(s0, op) == 0);
    assert(count_scalar(s1, op) == if op2 == op { 1int } else { 0 });
    assert(count_scalar(s, op) == if op2 == op { 2int } else { 0 });
    assert(count_same_type(s0, op) == 0);
    assert(count_same_type(s1, op) == 0);
    assert(count_same_type(s, op) == 0);
}

proof fn lemma_count_op_fragments(family: Family, op2: Operation, scalar: bool, op: Operation)
    ensures
        count_same_type(spec_op_fragments(family, op2, scalar), op) == if op2 == op {
            4int
        } else {
            0
        },
        count_scalar(spec_op_fragments(family, op2, scalar), op) == if scalar && op2 == op {
            2int
        } else {
            0
        },
{
    lemma_count_self_fragments(op2, spec_body_for(family, op2), op);
    if scalar {
        lemma_count_concat(
            spec_self_fragments(op2, spec_body_for(family, op2)),
            spec_scalar_fragments(op2),
            op,
        );
        lemma_count_scalar_fragments(op2, op);
    }
}

proof fn lemma_count_unit_prefix(family: Family, n: int, op: Operation)
    requires
        0 <= n <= spec_operator_set(family).len(),
    ensures
        count_same_type(spec_unit_prefix(family, n), op) == if spec_same_type_applicable(
            family,
            op,
        ) && (exists|k: int|
            0 <= k < n && (#[trigger] spec_operator_set(family)[k]).0 == op) {
            4int
        } else {
            0
        },
        count_scalar(spec_unit_prefix(family, n), op) == if spec_scalar_applicable(family, op) && (
        exists|k: int| 0 <= k < n && (#[trigger] spec_operator_set(family)[k]).0 == op) {
            2int
        } else {
            0
        },
    decreases n,
{
    if n <= 0 {
    } else {
        let entry = spec_operator_set(family)[n - 1];
        lemma_count_unit_prefix(family, n - 1, op);
        lemma_count_concat(
            spec_unit_prefix(family, n - 1),
            spec_op_fragments(family, entry.0, entry.1),
            op,
        );
        lemma_count_op_fragments(family, entry.0, entry.1, op);
        assert(forall|k1: int, k2: int|
            0 <= k1 < spec_operator_set(family).len() && 0 <= k2 < spec_operator_set(family).len()
                && (#[trigger] spec_operator_set(family)[k1]).0 == (
            #[trigger] spec_operator_set(family)[k2]).0 ==> k1 == k2);
        if entry.0 == op {
            assert(spec_same_type_applicable(family, op));
            assert(entry.1 == spec_scalar_applicable(family, op));
        }
    }
}

/// The structural invariant of an emitted unit: whenever an operator is
/// applicable to a family, its same-type form is emitted exactly four times
/// and its scalar form exactly twice; whenever it is not, zero times. In
/// particular, family `Other` gets no fragments for any operator.
pub proof fn lemma_fragment_counts(family: Family, op: Operation)
    ensures
        count_same_type(spec_unit_fragments(family), op) == if spec_same_type_applicable(
            family,
            op,
        ) {
            4int
        } else {
            0
        },
        count_scalar(spec_unit_fragments(family), op) == if spec_scalar_applicable(family, op) {
            2int
        } else {
            0
        },
{
    let table = spec_operator_set(family);
    lemma_count_unit_prefix(family, table.len() as int, op);
    if spec_same_type_applicable(family, op) {
        match family {
            Family::Vector2 | Family::Vector3 | Family::Vector4 => {
                match op {
                    Operation::Add => assert(table[0].0 == op),
                    Operation::Sub => assert(table[1].0 == op),
                    Operation::Div => assert(table[2].0 == op),
                    Operation::Mul => assert(table[3].0 == op),
                }
            },
            Family::Matrix3x2 | Family::Matrix4x4 => {
                match op {
                    Operation::Add => assert(table[0].0 == op),
                    Operation::Sub => assert(table[1].0 == op),
                    Operation::Mul => assert(table[2].0 == op),
                    Operation::Div => assert(false),
                }
            },
            Family::Other => assert(false),
        }
    } else {
        assert(forall|k: int| 0 <= k < table.len() ==> (#[trigger] table[k]).0 != op);
    }
}

/// A type outside the five recognized shapes is a designed no-op: its
/// emitted unit holds no fragments.
pub proof fn lemma_other_family_empty()
    ensures
        spec_unit_fragments(Family::Other) =~= Seq::<Fragment>::empty(),
{
    assert(spec_unit_prefix(Family::Other, 0) =~= Seq::<Fragment>::empty());
}

} // verus!
