//! The matrix product formulas and their meaning. A formula is a sequence of
//! rows, one per result field, each a sum of `lhs.field * rhs.field`
//! products (plus, for the translation row of the 3x2 shape, one bare
//! right-hand field). Fields are addressed by their position in the
//! descriptor's field list. The module also gives the formulas their
//! mathematical reading over integer field values, and proves the algebraic
//! laws the two shapes are expected to satisfy.

use vstd::prelude::*;

use crate::fragment::MatrixShape;

verus! {

/// One product `lhs.field[l] * rhs.field[r]`.
#[derive(Clone, Copy, PartialEq, Eq, Structural, Debug)]
pub struct Term {
    pub l: usize,
    pub r: usize,
}

/// The right-hand side of one emitted field initializer of a matrix product.
#[derive(Clone, Copy, PartialEq, Eq, Structural, Debug)]
pub enum RowExpr {
    /// A two-term sum of products: one entry of a 2x2 linear block.
    Sum2(Term, Term),
    /// A two-term sum of products plus the bare right-hand field at the given
    /// position: one entry of the translation row of the 3x2 shape.
    Sum2T(Term, Term, usize),
    /// A four-term sum of products: one entry of a dense 4x4 product.
    Sum4(Term, Term, Term, Term),
}

/// The number of fields a descriptor of the given shape must have.
pub open spec fn spec_shape_dim(shape: MatrixShape) -> int {
    match shape {
        MatrixShape::ThreeByTwo => 6,
        MatrixShape::FourByFour => 16,
    }
}

/// The product formula of the given shape, one row per result field, in
/// field order. Positions follow the fixed field convention of the shape:
/// row-major `m11, m12, m21, m22, m31, m32` for 3x2 and `m11 ... m44` for
/// 4x4. The descriptor's fields are assumed, never checked, to match that
/// convention.
pub open spec fn spec_matrix_rows(shape: MatrixShape) -> Seq<RowExpr> {
    match shape {
        MatrixShape::ThreeByTwo => seq![
            RowExpr::Sum2(Term { l: 0, r: 0 }, Term { l: 1, r: 2 }),
            RowExpr::Sum2(Term { l: 0, r: 1 }, Term { l: 1, r: 3 }),
            RowExpr::Sum2(Term { l: 2, r: 0 }, Term { l: 3, r: 2 }),
            RowExpr::Sum2(Term { l: 2, r: 1 }, Term { l: 3, r: 3 }),
            RowExpr::Sum2T(Term { l: 4, r: 0 }, Term { l: 5, r: 2 }, 4),
            RowExpr::Sum2T(Term { l: 4, r: 1 }, Term { l: 5, r: 3 }, 5),
        ],
        MatrixShape::FourByFour => seq![
            RowExpr::Sum4(
                Term { l: 0, r: 0 },
                Term { l: 1, r: 4 },
                Term { l: 2, r: 8 },
                Term { l: 3, r: 12 },
            ),
            RowExpr::Sum4(
                Term { l: 0, r: 1 },
                Term { l: 1, r: 5 },
                Term { l: 2, r: 9 },
                Term { l: 3, r: 13 },
            ),
            RowExpr::Sum4(
                Term { l: 0, r: 2 },
                Term { l: 1, r: 6 },
                Term { l: 2, r: 10 },
                Term { l: 3, r: 14 },
            ),
            RowExpr::Sum4(
                Term { l: 0, r: 3 },
                Term { l: 1, r: 7 },
                Term { l: 2, r: 11 },
                Term { l: 3, r: 15 },
            ),
            RowExpr::Sum4(
                Term { l: 4, r: 0 },
                Term { l: 5, r: 4 },
                Term { l: 6, r: 8 },
                Term { l: 7, r: 12 },
            ),
            RowExpr::Sum4(
                Term { l: 4, r: 1 },
                Term { l: 5, r: 5 },
                Term { l: 6, r: 9 },
                Term { l: 7, r: 13 },
            ),
            RowExpr::Sum4(
                Term { l: 4, r: 2 },
                Term { l: 5, r: 6 },
                Term { l: 6, r: 10 },
                Term { l: 7, r: 14 },
            ),
            RowExpr::Sum4(
                Term { l: 4, r: 3 },
                Term { l: 5, r: 7 },
                Term { l: 6, r: 11 },
                Term { l: 7, r: 15 },
            ),
            RowExpr::Sum4(
                Term { l: 8, r: 0 },
                Term { l: 9, r: 4 },
                Term { l: 10, r: 8 },
                Term { l: 11, r: 12 },
            ),
            RowExpr::Sum4(
                Term { l: 8, r: 1 },
                Term { l: 9, r: 5 },
                Term { l: 10, r: 9 },
                Term { l: 11, r: 13 },
            ),
            RowExpr::Sum4(
                Term { l: 8, r: 2 },
                Term { l: 9, r: 6 },
                Term { l: 10, r: 10 },
                Term { l: 11, r: 14 },
            ),
            RowExpr::Sum4(
                Term { l: 8, r: 3 },
                Term { l: 9, r: 7 },
                Term { l: 10, r: 11 },
                Term { l: 11, r: 15 },
            ),
            RowExpr::Sum4(
                Term { l: 12, r: 0 },
                Term { l: 13, r: 4 },
                Term { l: 14, r: 8 },
                Term { l: 15, r: 12 },
            ),
            RowExpr::Sum4(
                Term { l: 12, r: 1 },
                Term { l: 13, r: 5 },
                Term { l: 14, r: 9 },
                Term { l: 15, r: 13 },
            ),
            RowExpr::Sum4(
                Term { l: 12, r: 2 },
                Term { l: 13, r: 6 },
                Term { l: 14, r: 10 },
                Term { l: 15, r: 14 },
            ),
            RowExpr::Sum4(
                Term { l: 12, r: 3 },
                Term { l: 13, r: 7 },
                Term { l: 14, r: 11 },
                Term { l: 15, r: 15 },
            ),
        ],
    }
}

/// Whether a term only addresses fields below `dim`.
pub open spec fn term_ok(t: Term, dim: int) -> bool {
    t.l < dim && t.r < dim
}

/// Whether a row only addresses fields below `dim`.
pub open spec fn row_ok(e: RowExpr, dim: int) -> bool {
    match e {
        RowExpr::Sum2(a, b) => term_ok(a, dim) && term_ok(b, dim),
        RowExpr::Sum2T(a, b, k) => term_ok(a, dim) && term_ok(b, dim) && k < dim,
        RowExpr::Sum4(a, b, c, d) => term_ok(a, dim) && term_ok(b, dim) && term_ok(c, dim)
            && term_ok(d, dim),
    }
}

/// Whether every row of a formula only addresses fields below `dim`.
pub open spec fn rows_ok(rows: Seq<RowExpr>, dim: int) -> bool {
    forall|i: int| 0 <= i < rows.len() ==> row_ok(#[trigger] rows[i], dim)
}

/// Each shape's formula has one row per field and stays within the shape's
/// field count.
pub proof fn lemma_matrix_rows_ok(shape: MatrixShape)
    ensures
        spec_matrix_rows(shape).len() == spec_shape_dim(shape),
        rows_ok(spec_matrix_rows(shape), spec_shape_dim(shape)),
{
}

/// The formula of the given shape, as a vector of rows in field order.
pub fn matrix_product_rows(shape: MatrixShape) -> (r: Vec<RowExpr>)
    ensures
        r@ == spec_matrix_rows(shape),
{
    let mut r: Vec<RowExpr> = Vec::new();
    match shape {
        MatrixShape::ThreeByTwo => {
            r.push(RowExpr::Sum2(Term { l: 0, r: 0 }, Term { l: 1, r: 2 }));
            r.push(RowExpr::Sum2(Term { l: 0, r: 1 }, Term { l: 1, r: 3 }));
            r.push(RowExpr::Sum2(Term { l: 2, r: 0 }, Term { l: 3, r: 2 }));
            r.push(RowExpr::Sum2(Term { l: 2, r: 1 }, Term { l: 3, r: 3 }));
            r.push(RowExpr::Sum2T(Term { l: 4, r: 0 }, Term { l: 5, r: 2 }, 4));
            r.push(RowExpr::Sum2T(Term { l: 4, r: 1 }, Term { l: 5, r: 3 }, 5));
        },
        MatrixShape::FourByFour => {
            let mut i: usize = 0;
            while i < 4
                invariant
                    i <= 4,
                    r@ == spec_matrix_rows(MatrixShape::FourByFour).take(4 * i),
                decreases 4 - i,
            {
                let mut j: usize = 0;
                while j < 4
                    invariant
                        i < 4,
                        j <= 4,
                        r@ == spec_matrix_rows(MatrixShape::FourByFour).take(4 * i + j),
                    decreases 4 - j,
                {
                    r.push(
                        RowExpr::Sum4(
                            Term { l: 4 * i, r: j },
                            Term { l: 4 * i + 1, r: 4 + j },
                            Term { l: 4 * i + 2, r: 8 + j },
                            Term { l: 4 * i + 3, r: 12 + j },
                        ),
                    );
                    proof {
                        assert(r@ =~= spec_matrix_rows(MatrixShape::FourByFour).take(
                            4 * i + j + 1,
                        ));
                    }
                    j += 1;
                }
                i += 1;
            }
            proof {
                assert(spec_matrix_rows(MatrixShape::FourByFour).take(16) =~= spec_matrix_rows(
                    MatrixShape::FourByFour,
                ));
            }
        },
    }
    proof {
        if shape is ThreeByTwo {
            assert(r@ =~= spec_matrix_rows(shape));
        }
    }
    r
}

/// The value of one term over integer field values.
pub open spec fn term_val(t: Term, lhs: Seq<int>, rhs: Seq<int>) -> int {
    lhs[t.l as int] * rhs[t.r as int]
}

/// The value of one row over integer field values.
pub open spec fn row_val(e: RowExpr, lhs: Seq<int>, rhs: Seq<int>) -> int {
    match e {
        RowExpr::Sum2(a, b) => term_val(a, lhs, rhs) + term_val(b, lhs, rhs),
        RowExpr::Sum2T(a, b, k) => term_val(a, lhs, rhs) + term_val(b, lhs, rhs) + rhs[k as int],
        RowExpr::Sum4(a, b, c, d) => term_val(a, lhs, rhs) + term_val(b, lhs, rhs) + term_val(
            c,
            lhs,
            rhs,
        ) + term_val(d, lhs, rhs),
    }
}

/// The field values a formula computes, row by row.
pub open spec fn rows_val(rows: Seq<RowExpr>, lhs: Seq<int>, rhs: Seq<int>) -> Seq<int> {
    Seq::new(rows.len(), |i: int| row_val(rows[i], lhs, rhs))
}

/// The 3x2 product in closed form: the 2x2 linear block of the result is the
/// product of the two linear blocks; the translation row is the left
/// translation taken through the right linear block, plus the right
/// translation.
pub open spec fn spec_m3x2_product(a: Seq<int>, b: Seq<int>) -> Seq<int> {
    seq![
        a[0] * b[0] + a[1] * b[2],
        a[0] * b[1] + a[1] * b[3],
        a[2] * b[0] + a[3] * b[2],
        a[2] * b[1] + a[3] * b[3],
        a[4] * b[0] + a[5] * b[2] + b[4],
        a[4] * b[1] + a[5] * b[3] + b[5],
    ]
}

/// Entry `(i, j)` of the dense 4x4 product: row `i` of the left factor times
/// column `j` of the right one.
pub open spec fn m4x4_entry(a: Seq<int>, b: Seq<int>, i: int, j: int) -> int {
    a[4 * i] * b[j] + a[4 * i + 1] * b[4 + j] + a[4 * i + 2] * b[8 + j] + a[4 * i + 3] * b[12 + j]
}

/// The dense 4x4 product, row-major.
pub open spec fn spec_m4x4_product(a: Seq<int>, b: Seq<int>) -> Seq<int> {
    Seq::new(16, |t: int| m4x4_entry(a, b, t / 4, t % 4))
}

/// The emitted 3x2 rows compute exactly the closed-form 3x2 product.
pub proof fn lemma_rows_compute_m3x2(lhs: Seq<int>, rhs: Seq<int>)
    ensures
        rows_val(spec_matrix_rows(MatrixShape::ThreeByTwo), lhs, rhs) =~= spec_m3x2_product(
            lhs,
            rhs,
        ),
{
}

/// The emitted 4x4 rows compute exactly the dense 4x4 product.
pub proof fn lemma_rows_compute_m4x4(lhs: Seq<int>, rhs: Seq<int>)
    ensures
        rows_val(spec_matrix_rows(MatrixShape::FourByFour), lhs, rhs) =~= spec_m4x4_product(
            lhs,
            rhs,
        ),
{
    let emitted = rows_val(spec_matrix_rows(MatrixShape::FourByFour), lhs, rhs);
    let closed = spec_m4x4_product(lhs, rhs);
    assert forall|t: int| 0 <= t < 16 implies emitted[t] == closed[t] by {
        assert(emitted[t] == row_val(spec_matrix_rows(MatrixShape::FourByFour)[t], lhs, rhs));
        assert(closed[t] == m4x4_entry(lhs, rhs, t / 4, t % 4));
    }
}

/// The identity element of the 3x2 shape: unit linear block, zero
/// translation.
pub open spec fn spec_m3x2_identity() -> Seq<int> {
    seq![1, 0, 0, 1, 0, 0]
}

/// Multiplying a 3x2 matrix by the identity, on either side, returns the
/// matrix unchanged.
pub proof fn lemma_m3x2_identity(m: Seq<int>)
    requires
        m.len() == 6,
    ensures
        spec_m3x2_product(m, spec_m3x2_identity()) =~= m,
        spec_m3x2_product(spec_m3x2_identity(), m) =~= m,
{
    let ident = spec_m3x2_identity();
    assert(ident[0] == 1 && ident[1] == 0 && ident[2] == 0 && ident[3] == 1 && ident[4] == 0
        && ident[5] == 0);
    assert(spec_m3x2_product(m, ident)[0] == m[0] * 1 + m[1] * 0);
    assert(spec_m3x2_product(m, ident)[1] == m[0] * 0 + m[1] * 1);
    assert(spec_m3x2_product(m, ident)[2] == m[2] * 1 + m[3] * 0);
    assert(spec_m3x2_product(m, ident)[3] == m[2] * 0 + m[3] * 1);
    assert(spec_m3x2_product(m, ident)[4] == m[4] * 1 + m[5] * 0 + 0);
    assert(spec_m3x2_product(m, ident)[5] == m[4] * 0 + m[5] * 1 + 0);
    assert(spec_m3x2_product(ident, m)[0] == 1 * m[0] + 0 * m[2]);
    assert(spec_m3x2_product(ident, m)[1] == 1 * m[1] + 0 * m[3]);
    assert(spec_m3x2_product(ident, m)[2] == 0 * m[0] + 1 * m[2]);
    assert(spec_m3x2_product(ident, m)[3] == 0 * m[1] + 1 * m[3]);
    assert(spec_m3x2_product(ident, m)[4] == 0 * m[0] + 0 * m[2] + m[4]);
    assert(spec_m3x2_product(ident, m)[5] == 0 * m[1] + 0 * m[3] + m[5]);
}

/// A factor distributes over a four-term sum.
proof fn lemma_distrib4(m: int, x: int, y: int, z: int, w: int)
    ensures
        m * (x + y + z + w) == m * x + m * y + m * z + m * w,
{
    assert(m * (x + y + z + w) == m * x + m * y + m * z + m * w) by (nonlinear_arith);
}

/// Reassociation of a triple product.
proof fn lemma_assoc3(p: int, q: int, r: int)
    ensures
        p * (q * r) == p * q * r,
{
    assert(p * (q * r) == p * q * r) by (nonlinear_arith);
}

/// The formula emitted for the 3x2 shape, evaluated against the identity on
/// either side, returns the original matrix unchanged.
pub proof fn lemma_m3x2_rows_identity(m: Seq<int>)
    requires
        m.len() == 6,
    ensures
        rows_val(spec_matrix_rows(MatrixShape::ThreeByTwo), m, spec_m3x2_identity()) =~= m,
        rows_val(spec_matrix_rows(MatrixShape::ThreeByTwo), spec_m3x2_identity(), m) =~= m,
{
    lemma_rows_compute_m3x2(m, spec_m3x2_identity());
    lemma_rows_compute_m3x2(spec_m3x2_identity(), m);
    lemma_m3x2_identity(m);
}

/// Associativity of one result entry, stated over the 24 integers that can
/// contribute to it: `a0..a3` is the relevant row of the left factor,
/// `b00..b33` the full middle factor, `c0..c3` the relevant column of the
/// right factor.
proof fn lemma_entry_assoc(
    a0: int,
    a1: int,
    a2: int,
    a3: int,
    b00: int,
    b01: int,
    b02: int,
    b03: int,
    b10: int,
    b11: int,
    b12: int,
    b13: int,
    b20: int,
    b21: int,
    b22: int,
    b23: int,
    b30: int,
    b31: int,
    b32: int,
    b33: int,
    c0: int,
    c1: int,
    c2: int,
    c3: int,
)
    ensures
        (a0 * b00 + a1 * b10 + a2 * b20 + a3 * b30) * c0 + (a0 * b01 + a1 * b11 + a2 * b21 + a3
            * b31) * c1 + (a0 * b02 + a1 * b12 + a2 * b22 + a3 * b32) * c2 + (a0 * b03 + a1 * b13
            + a2 * b23 + a3 * b33) * c3 == a0 * (b00 * c0 + b01 * c1 + b02 * c2 + b03 * c3) + a1 * (
        b10 * c0 + b11 * c1 + b12 * c2 + b13 * c3) + a2 * (b20 * c0 + b21 * c1 + b22 * c2 + b23
            * c3) + a3 * (b30 * c0 + b31 * c1 + b32 * c2 + b33 * c3),
{
    assert((a0 * b00 + a1 * b10 + a2 * b20 + a3 * b30) * c0 == a0 * b00 * c0 + a1 * b10 * c0 + a2
        * b20 * c0 + a3 * b30 * c0) by (nonlinear_arith);
    assert((a0 * b01 + a1 * b11 + a2 * b21 + a3 * b31) * c1 == a0 * b01 * c1 + a1 * b11 * c1 + a2
        * b21 * c1 + a3 * b31 * c1) by (nonlinear_arith);
    assert((a0 * b02 + a1 * b12 + a2 * b22 + a3 * b32) * c2 == a0 * b02 * c2 + a1 * b12 * c2 + a2
        * b22 * c2 + a3 * b32 * c2) by (nonlinear_arith);
    assert((a0 * b03 + a1 * b13 + a2 * b23 + a3 * b33) * c3 == a0 * b03 * c3 + a1 * b13 * c3 + a2
        * b23 * c3 + a3 * b33 * c3) by (nonlinear_arith);
    lemma_distrib4(a0, b00 * c0, b01 * c1, b02 * c2, b03 * c3);
    lemma_assoc3(a0, b00, c0);
    lemma_assoc3(a0, b01, c1);
    lemma_assoc3(a0, b02, c2);
    lemma_assoc3(a0, b03, c3);
    lemma_distrib4(a1, b10 * c0, b11 * c1, b12 * c2, b13 * c3);
    lemma_assoc3(a1, b10, c0);
    lemma_assoc3(a1, b11, c1);
    lemma_assoc3(a1, b12, c2);
    lemma_assoc3(a1, b13, c3);
    lemma_distrib4(a2, b20 * c0, b21 * c1, b22 * c2, b23 * c3);
    lemma_assoc3(a2, b20, c0);
    lemma_assoc3(a2, b21, c1);
    lemma_assoc3(a2, b22, c2);
    lemma_assoc3(a2, b23, c3);
    lemma_distrib4(a3, b30 * c0, b31 * c1, b32 * c2, b33 * c3);
    lemma_assoc3(a3, b30, c0);
    lemma_assoc3(a3, b31, c1);
    lemma_assoc3(a3, b32, c2);
    lemma_assoc3(a3, b33, c3);
}

/// Associativity of one entry of the 4x4 product, over whole matrices.
proof fn lemma_m4x4_entry_assoc(a: Seq<int>, b: Seq<int>, c: Seq<int>, i: int, j: int)
    requires
        a.len() == 16,
        b.len() == 16,
        c.len() == 16,
        0 <= i < 4,
        0 <= j < 4,
    ensures
        m4x4_entry(spec_m4x4_product(a, b), c, i, j) == m4x4_entry(a, spec_m4x4_product(b, c), i, j),
{
    let ab = spec_m4x4_product(a, b);
    let bc = spec_m4x4_product(b, c);
    assert forall|k: int| 0 <= k < 4 implies ab[4 * i + k] == m4x4_entry(a, b, i, k) by {
        assert((4 * i + k) / 4 == i);
        assert((4 * i + k) % 4 == k);
    }
    assert forall|s: int| 0 <= s < 4 implies bc[4 * s + j] == m4x4_entry(b, c, s, j) by {
        assert((4 * s + j) / 4 == s);
        assert((4 * s + j) % 4 == j);
    }
    lemma_entry_assoc(
        a[4 * i],
        a[4 * i + 1],
        a[4 * i + 2],
        a[4 * i + 3],
        b[0],
        b[1],
        b[2],
        b[3],
        b[4],
        b[5],
        b[6],
        b[7],
        b[8],
        b[9],
        b[10],
        b[11],
        b[12],
        b[13],
        b[14],
        b[15],
        c[j],
        c[4 + j],
        c[8 + j],
        c[12 + j],
    );
}

/// The 4x4 product is associative: composing left-first and right-first
/// gives the same matrix.
pub proof fn lemma_m4x4_assoc(a: Seq<int>, b: Seq<int>, c: Seq<int>)
    requires
        a.len() == 16,
        b.len() == 16,
        c.len() == 16,
    ensures
        spec_m4x4_product(spec_m4x4_product(a, b), c) =~= spec_m4x4_product(
            a,
            spec_m4x4_product(b, c),
        ),
{
    let left = spec_m4x4_product(spec_m4x4_product(a, b), c);
    let right = spec_m4x4_product(a, spec_m4x4_product(b, c));
    assert forall|t: int| 0 <= t < 16 implies left[t] == right[t] by {
        lemma_m4x4_entry_assoc(a, b, c, t / 4, t % 4);
    }
}

/// The formula emitted for the 4x4 shape is associative: evaluating it
/// left-first and right-first over three matrices gives the same result.
pub proof fn lemma_m4x4_rows_assoc(a: Seq<int>, b: Seq<int>, c: Seq<int>)
    requires
        a.len() == 16,
        b.len() == 16,
        c.len() == 16,
    ensures
        rows_val(
            spec_matrix_rows(MatrixShape::FourByFour),
            rows_val(spec_matrix_rows(MatrixShape::FourByFour), a, b),
            c,
        ) =~= rows_val(
            spec_matrix_rows(MatrixShape::FourByFour),
            a,
            rows_val(spec_matrix_rows(MatrixShape::FourByFour), b, c),
        ),
{
    let ab = spec_m4x4_product(a, b);
    let bc = spec_m4x4_product(b, c);
    lemma_rows_compute_m4x4(a, b);
    lemma_rows_compute_m4x4(b, c);
    lemma_rows_compute_m4x4(ab, c);
    lemma_rows_compute_m4x4(a, bc);
    lemma_m4x4_assoc(a, b, c);
}

} // verus!
