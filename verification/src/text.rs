//! Rendering of fragments into Rust source text. The exact text of every
//! emitted implementation is pinned down by spec functions over character
//! sequences; the executable renderers are proved to produce it.

use vstd::prelude::*;

use crate::descriptor::Family;
use crate::descriptor::Struct;
use crate::descriptor::TypeKind;
use crate::emitter::spec_unit_fragments;
use crate::emitter::struct_fragments;
use crate::fragment::Body;
use crate::fragment::Fragment;
use crate::fragment::MatrixShape;
use crate::fragment::spec_scalar_fragments;
use crate::fragment::spec_self_fragments;
use crate::fragment::scalar_fragments;
use crate::fragment::self_fragments;
use crate::operation::Operation;
use crate::operation::Ownership;
use crate::operation::RhsOperand;
use crate::operation::op_method_text;
use crate::operation::op_symbol_text;
use crate::operation::op_trait_text;
use crate::semantics::RowExpr;
use crate::semantics::Term;
use crate::semantics::lemma_matrix_rows_ok;
use crate::semantics::matrix_product_rows;
use crate::semantics::row_ok;
use crate::semantics::rows_ok;
use crate::semantics::spec_matrix_rows;
use crate::semantics::spec_shape_dim;
use crate::semantics::term_ok;

verus! {

/// The names of a descriptor's fields, in declaration order.
pub open spec fn spec_field_names(fields: Seq<(String, TypeKind)>) -> Seq<Seq<char>> {
    fields.map_values(|f: (String, TypeKind)| f.0@)
}

/// The source text of an operand type under an ownership: the type name
/// itself, or the type name behind a borrow.
pub open spec fn spec_owned_type_text(name: Seq<char>, o: Ownership) -> Seq<char> {
    match o {
        Ownership::Value => name,
        Ownership::Reference => "&"@ + name,
    }
}

/// The source text of the right-hand operand type.
pub open spec fn spec_rhs_type_text(name: Seq<char>, rhs: RhsOperand) -> Seq<char> {
    match rhs {
        RhsOperand::SameType(o) => spec_owned_type_text(name, o),
        RhsOperand::Scalar => "f32"@,
    }
}

/// One element-wise field initializer: `name: self.name <sym> rhs.name`.
pub open spec fn spec_elem_init_text(fname: Seq<char>, sym: Seq<char>) -> Seq<char> {
    fname + ": self."@ + fname + " "@ + sym + " rhs."@ + fname
}

/// One scalar field initializer: `name: self.name <sym> rhs`.
pub open spec fn spec_scalar_init_text(fname: Seq<char>, sym: Seq<char>) -> Seq<char> {
    fname + ": self."@ + fname + " "@ + sym + " rhs"@
}

/// The first `n` element-wise initializers, joined by `, `.
pub open spec fn spec_elem_fields_text(names: Seq<Seq<char>>, sym: Seq<char>, n: int) -> Seq<char>
    decreases n,
{
    if n <= 0 {
        Seq::empty()
    } else if n == 1 {
        spec_elem_init_text(names[0], sym)
    } else {
        spec_elem_fields_text(names, sym, n - 1) + ", "@ + spec_elem_init_text(names[n - 1], sym)
    }
}

/// The first `n` scalar initializers, joined by `, `.
pub open spec fn spec_scalar_fields_text(names: Seq<Seq<char>>, sym: Seq<char>, n: int) -> Seq<
    char,
>
    decreases n,
{
    if n <= 0 {
        Seq::empty()
    } else if n == 1 {
        spec_scalar_init_text(names[0], sym)
    } else {
        spec_scalar_fields_text(names, sym, n - 1) + ", "@ + spec_scalar_init_text(
            names[n - 1],
            sym,
        )
    }
}

/// One product term: `self.<left name> * rhs.<right name>`.
pub open spec fn spec_term_text(t: Term, names: Seq<Seq<char>>) -> Seq<char> {
    "self."@ + names[t.l as int] + " * rhs."@ + names[t.r as int]
}

/// The right-hand side of one matrix-product initializer.
pub open spec fn spec_row_expr_text(e: RowExpr, names: Seq<Seq<char>>) -> Seq<char> {
    match e {
        RowExpr::Sum2(a, b) => spec_term_text(a, names) + " + "@ + spec_term_text(b, names),
        RowExpr::Sum2T(a, b, k) => spec_term_text(a, names) + " + "@ + spec_term_text(b, names)
            + " + rhs."@ + names[k as int],
        RowExpr::Sum4(a, b, c, d) => spec_term_text(a, names) + " + "@ + spec_term_text(b, names)
            + " + "@ + spec_term_text(c, names) + " + "@ + spec_term_text(d, names),
    }
}

/// One matrix-product initializer: the target field name, then its row.
pub open spec fn spec_row_init_text(rows: Seq<RowExpr>, names: Seq<Seq<char>>, i: int) -> Seq<
    char,
> {
    names[i] + ": "@ + spec_row_expr_text(rows[i], names)
}

/// The first `n` matrix-product initializers, joined by `, `.
pub open spec fn spec_custom_fields_text(rows: Seq<RowExpr>, names: Seq<Seq<char>>, n: int) -> Seq<
    char,
>
    decreases n,
{
    if n <= 0 {
        Seq::empty()
    } else if n == 1 {
        spec_row_init_text(rows, names, 0)
    } else {
        spec_custom_fields_text(rows, names, n - 1) + ", "@ + spec_row_init_text(rows, names, n - 1)
    }
}

/// The field-initializer list a body renders to. The element-wise and
/// scalar bodies walk the descriptor's fields; a matrix product body uses
/// the fixed names of its shape's convention and ignores the descriptor's
/// field list entirely, exactly as the hand-written formula is spliced in
/// verbatim.
pub open spec fn spec_body_fields_text(body: Body, op: Operation, names: Seq<Seq<char>>) -> Seq<
    char,
> {
    match body {
        Body::Elementwise => spec_elem_fields_text(names, op_symbol_text(op), names.len() as int),
        Body::Scalarwise => spec_scalar_fields_text(names, op_symbol_text(op), names.len() as int),
        Body::MatrixProduct(shape) => spec_custom_fields_text(
            spec_matrix_rows(shape),
            spec_shape_names(shape),
            spec_matrix_rows(shape).len() as int,
        ),
    }
}

/// The whole source text of one fragment: an operator-trait implementation
/// for the given type name, closed by a newline.
pub open spec fn spec_fragment_text(f: Fragment, name: Seq<char>, names: Seq<Seq<char>>) -> Seq<
    char,
> {
    "impl std::ops::"@ + op_trait_text(f.op) + "<"@ + spec_rhs_type_text(name, f.rhs) + "> for "@
        + spec_owned_type_text(name, f.lhs) + " { type Output = "@ + name + "; fn "@
        + op_method_text(f.op) + "(self, rhs: "@ + spec_rhs_type_text(name, f.rhs) + ") -> "@
        + name + " { "@ + name + " { "@ + spec_body_fields_text(f.body, f.op, names)
        + " } } }\n"@
}

/// The source text of the first `n` fragments of a sequence, concatenated.
pub open spec fn spec_fragments_text(
    frags: Seq<Fragment>,
    name: Seq<char>,
    names: Seq<Seq<char>>,
    n: int,
) -> Seq<char>
    decreases n,
{
    if n <= 0 {
        Seq::empty()
    } else {
        spec_fragments_text(frags, name, names, n - 1) + spec_fragment_text(
            frags[n - 1],
            name,
            names,
        )
    }
}

/// The whole emitted unit of a described type, as source text.
pub open spec fn spec_unit_text(family: Family, name: Seq<char>, names: Seq<Seq<char>>) -> Seq<
    char,
> {
    spec_fragments_text(
        spec_unit_fragments(family),
        name,
        names,
        spec_unit_fragments(family).len() as int,
    )
}

/// The fixed field names of a matrix shape, in row-major order. The product
/// formula is rendered over these names alone — the descriptor's own field
/// list is never consulted, and is assumed, never checked, to match this
/// convention.
pub open spec fn spec_shape_names(shape: MatrixShape) -> Seq<Seq<char>> {
    match shape {
        MatrixShape::ThreeByTwo => seq!["m11"@, "m12"@, "m21"@, "m22"@, "m31"@, "m32"@],
        MatrixShape::FourByFour => seq![
            "m11"@,
            "m12"@,
            "m13"@,
            "m14"@,
            "m21"@,
            "m22"@,
            "m23"@,
            "m24"@,
            "m31"@,
            "m32"@,
            "m33"@,
            "m34"@,
            "m41"@,
            "m42"@,
            "m43"@,
            "m44"@,
        ],
    }
}

fn shape_field_name(shape: MatrixShape, i: usize) -> (r: &'static str)
    requires
        i < spec_shape_dim(shape),
    ensures
        r@ == spec_shape_names(shape)[i as int],
{
    match shape {
        MatrixShape::ThreeByTwo => {
            if i == 0 {
                "m11"
            } else if i == 1 {
                "m12"
            } else if i == 2 {
                "m21"
            } else if i == 3 {
                "m22"
            } else if i == 4 {
                "m31"
            } else {
                "m32"
            }
        },
        MatrixShape::FourByFour => {
            if i == 0 {
                "m11"
            } else if i == 1 {
                "m12"
            } else if i == 2 {
                "m13"
            } else if i == 3 {
                "m14"
            } else if i == 4 {
                "m21"
            } else if i == 5 {
                "m22"
            } else if i == 6 {
                "m23"
            } else if i == 7 {
                "m24"
            } else if i == 8 {
                "m31"
            } else if i == 9 {
                "m32"
            } else if i == 10 {
                "m33"
            } else if i == 11 {
                "m34"
            } else if i == 12 {
                "m41"
            } else if i == 13 {
                "m42"
            } else if i == 14 {
                "m43"
            } else {
                "m44"
            }
        },
    }
}

fn append_owned_type(r: &mut String, name: &str, o: Ownership)
    ensures
        final(r)@ == old(r)@ + spec_owned_type_text(name@, o),
{
    match o {
        Ownership::Value => {
            r.append(name);
        },
        Ownership::Reference => {
            r.append("&");
            r.append(name);
        },
    }
}

fn append_rhs_type(r: &mut String, name: &str, rhs: RhsOperand)
    ensures
        final(r)@ == old(r)@ + spec_rhs_type_text(name@, rhs),
{
    match rhs {
        RhsOperand::SameType(o) => append_owned_type(r, name, o),
        RhsOperand::Scalar => {
            r.append("f32");
        },
    }
}

fn append_term_text(r: &mut String, t: Term, shape: MatrixShape)
    requires
        term_ok(t, spec_shape_dim(shape)),
    ensures
        final(r)@ == old(r)@ + spec_term_text(t, spec_shape_names(shape)),
{
    r.append("self.");
    r.append(shape_field_name(shape, t.l));
    r.append(" * rhs.");
    r.append(shape_field_name(shape, t.r));
    proof {
        assert(r@ =~= old(r)@ + spec_term_text(t, spec_shape_names(shape)));
    }
}

fn append_row_expr_text(r: &mut String, e: RowExpr, shape: MatrixShape)
    requires
        row_ok(e, spec_shape_dim(shape)),
    ensures
        final(r)@ == old(r)@ + spec_row_expr_text(e, spec_shape_names(shape)),
{
    match e {
        RowExpr::Sum2(a, b) => {
            append_term_text(r, a, shape);
            r.append(" + ");
            append_term_text(r, b, shape);
        },
        RowExpr::Sum2T(a, b, k) => {
            append_term_text(r, a, shape);
            r.append(" + ");
            append_term_text(r, b, shape);
            r.append(" + rhs.");
            r.append(shape_field_name(shape, k));
        },
        RowExpr::Sum4(a, b, c, d) => {
            append_term_text(r, a, shape);
            r.append(" + ");
            append_term_text(r, b, shape);
            r.append(" + ");
            append_term_text(r, c, shape);
            r.append(" + ");
            append_term_text(r, d, shape);
        },
    }
    proof {
        assert(r@ =~= old(r)@ + spec_row_expr_text(e, spec_shape_names(shape)));
    }
}

fn elementwise_fields_text(winrt_struct: &Struct, sym: &str) -> (r: String)
    ensures
        r@ == spec_elem_fields_text(
            spec_field_names(winrt_struct.fields@),
            sym@,
            winrt_struct.fields@.len() as int,
        ),
{
    let mut acc = String::from_str("");
    proof {
        reveal_strlit("");
        assert(acc@ =~= Seq::<char>::empty());
    }
    let mut i: usize = 0;
    while i < winrt_struct.fields.len()
        invariant
            i <= winrt_struct.fields@.len(),
            acc@ == spec_elem_fields_text(
                spec_field_names(winrt_struct.fields@),
                sym@,
                i as int,
            ),
        decreases winrt_struct.fields@.len() - i,
    {
        if i > 0 {
            acc.append(", ");
        }
        let fname = winrt_struct.fields[i].0.as_str();
        acc.append(fname);
        acc.append(": self.");
        acc.append(fname);
        acc.append(" ");
        acc.append(sym);
        acc.append(" rhs.");
        acc.append(fname);
        proof {
            assert(acc@ =~= spec_elem_fields_text(
                spec_field_names(winrt_struct.fields@),
                sym@,
                i + 1,
            ));
        }
        i += 1;
    }
    acc
}

fn scalar_fields_text(winrt_struct: &Struct, sym: &str) -> (r: String)
    ensures
        r@ == spec_scalar_fields_text(
            spec_field_names(winrt_struct.fields@),
            sym@,
            winrt_struct.fields@.len() as int,
        ),
{
    let mut acc = String::from_str("");
    proof {
        reveal_strlit("");
        assert(acc@ =~= Seq::<char>::empty());
    }
    let mut i: usize = 0;
    while i < winrt_struct.fields.len()
        invariant
            i <= winrt_struct.fields@.len(),
            acc@ == spec_scalar_fields_text(
                spec_field_names(winrt_struct.fields@),
                sym@,
                i as int,
            ),
        decreases winrt_struct.fields@.len() - i,
    {
        if i > 0 {
            acc.append(", ");
        }
        let fname = winrt_struct.fields[i].0.as_str();
        acc.append(fname);
        acc.append(": self.");
        acc.append(fname);
        acc.append(" ");
        acc.append(sym);
        acc.append(" rhs");
        proof {
            assert(acc@ =~= spec_scalar_fields_text(
                spec_field_names(winrt_struct.fields@),
                sym@,
                i + 1,
            ));
        }
        i += 1;
    }
    acc
}

#[verifier::rlimit(100)]
fn matrix_fields_text(shape: MatrixShape) -> (r: String)
    ensures
        r@ == spec_custom_fields_text(
            spec_matrix_rows(shape),
            spec_shape_names(shape),
            spec_matrix_rows(shape).len() as int,
        ),
{
    let rows = matrix_product_rows(shape);
    proof {
        lemma_matrix_rows_ok(shape);
    }
    let mut acc = String::from_str("");
    proof {
        reveal_strlit("");
        assert(acc@ =~= Seq::<char>::empty());
    }
    let mut i: usize = 0;
    while i < rows.len()
        invariant
            rows@ == spec_matrix_rows(shape),
            rows@.len() == spec_shape_dim(shape),
            rows_ok(rows@, spec_shape_dim(shape)),
            i <= rows@.len(),
            acc@ == spec_custom_fields_text(spec_matrix_rows(shape), spec_shape_names(shape), i as int),
        decreases rows@.len() - i,
    {
        if i > 0 {
            acc.append(", ");
        }
        acc.append(shape_field_name(shape, i));
        acc.append(": ");
        let e = rows[i];
        proof {
            assert(row_ok(rows@[i as int], spec_shape_dim(shape)));
        }
        append_row_expr_text(&mut acc, e, shape);
        proof {
            assert(acc@ =~= spec_custom_fields_text(
                spec_matrix_rows(shape),
                spec_shape_names(shape),
                i + 1,
            ));
        }
        i += 1;
    }
    acc
}

fn body_fields_text(winrt_struct: &Struct, body: Body, op: Operation) -> (r: String)
    ensures
        r@ == spec_body_fields_text(body, op, spec_field_names(winrt_struct.fields@)),
{
    let (_, _, sym) = op.get_name_fn_and_symbol();
    match body {
        Body::Elementwise => elementwise_fields_text(winrt_struct, sym),
        Body::Scalarwise => scalar_fields_text(winrt_struct, sym),
        Body::MatrixProduct(shape) => matrix_fields_text(shape),
    }
}

impl Fragment {
    /// Renders this fragment as one operator-trait implementation for the
    /// described type, closed by a newline.
    pub fn to_source(&self, winrt_struct: &Struct) -> (r: String)
        ensures
            r@ == spec_fragment_text(
                *self,
                winrt_struct.name.name@,
                spec_field_names(winrt_struct.fields@),
            ),
    {
        let name = winrt_struct.name.name.as_str();
        let (trait_name, method_name, _) = self.op.get_name_fn_and_symbol();
        let mut r = String::from_str("impl std::ops::");
        r.append(trait_name);
        r.append("<");
        append_rhs_type(&mut r, name, self.rhs);
        r.append("> for ");
        append_owned_type(&mut r, name, self.lhs);
        r.append(" { type Output = ");
        r.append(name);
        r.append("; fn ");
        r.append(method_name);
        r.append("(self, rhs: ");
        append_rhs_type(&mut r, name, self.rhs);
        r.append(") -> ");
        r.append(name);
        r.append(" { ");
        r.append(name);
        r.append(" { ");
        let body_text = body_fields_text(winrt_struct, self.body, self.op);
        r.append(body_text.as_str());
        r.append(" } } }\n");
        proof {
            assert(r@ =~= spec_fragment_text(
                *self,
                winrt_struct.name.name@,
                spec_field_names(winrt_struct.fields@),
            ));
        }
        r
    }
}

fn fragments_to_source(frags: &Vec<Fragment>, winrt_struct: &Struct) -> (r: String)
    ensures
        r@ == spec_fragments_text(
            frags@,
            winrt_struct.name.name@,
            spec_field_names(winrt_struct.fields@),
            frags@.len() as int,
        ),
{
    let mut acc = String::from_str("");
    proof {
        reveal_strlit("");
        assert(acc@ =~= Seq::<char>::empty());
    }
    let mut i: usize = 0;
    while i < frags.len()
        invariant
            i <= frags@.len(),
            acc@ == spec_fragments_text(
                frags@,
                winrt_struct.name.name@,
                spec_field_names(winrt_struct.fields@),
                i as int,
            ),
        decreases frags@.len() - i,
    {
        let piece = frags[i].to_source(winrt_struct);
        acc.append(piece.as_str());
        proof {
            assert(acc@ =~= spec_fragments_text(
                frags@,
                winrt_struct.name.name@,
                spec_field_names(winrt_struct.fields@),
                i + 1,
            ));
        }
        i += 1;
    }
    acc
}

impl Operation {
    /// Renders the four ownership permutations of this operator with the
    /// element-wise body, as source text.
    pub fn to_tokens_with_self(&self, winrt_struct: &Struct) -> (r: String)
        ensures
            r@ == spec_fragments_text(
                spec_self_fragments(*self, Body::Elementwise),
                winrt_struct.name.name@,
                spec_field_names(winrt_struct.fields@),
                4,
            ),
    {
        let frags = self_fragments(*self, Body::Elementwise);
        fragments_to_source(&frags, winrt_struct)
    }

    /// Renders the two scalar variants of this operator, as source text.
    pub fn to_tokens_with_scalar(&self, winrt_struct: &Struct) -> (r: String)
        ensures
            r@ == spec_fragments_text(
                spec_scalar_fragments(*self),
                winrt_struct.name.name@,
                spec_field_names(winrt_struct.fields@),
                2,
            ),
    {
        let frags = scalar_fragments(*self);
        fragments_to_source(&frags, winrt_struct)
    }

    /// Renders the four ownership permutations of this operator with the
    /// closed-form product body of the given matrix shape, as source text.
    /// The formula is spliced in verbatim over the shape's fixed field
    /// names; the descriptor's field list is never read here.
    pub fn to_tokes_with_self_custom(&self, winrt_struct: &Struct, shape: MatrixShape) -> (r:
        String)
        ensures
            r@ == spec_fragments_text(
                spec_self_fragments(*self, Body::MatrixProduct(shape)),
                winrt_struct.name.name@,
                spec_field_names(winrt_struct.fields@),
                4,
            ),
    {
        let frags = self_fragments(*self, Body::MatrixProduct(shape));
        fragments_to_source(&frags, winrt_struct)
    }
}

/// The matrix-product body is reused unchanged whatever the descriptor's
/// field list: the four custom-formula fragments render to the same text
/// under any two field-name sequences, since the formula names only the
/// shape's fixed convention.
pub proof fn lemma_matrix_body_ignores_descriptor_fields(
    op: Operation,
    shape: MatrixShape,
    name: Seq<char>,
    names1: Seq<Seq<char>>,
    names2: Seq<Seq<char>>,
)
    ensures
        spec_fragments_text(
            spec_self_fragments(op, Body::MatrixProduct(shape)),
            name,
            names1,
            4,
        ) == spec_fragments_text(spec_self_fragments(op, Body::MatrixProduct(shape)), name, names2, 4),
{
    let frags = spec_self_fragments(op, Body::MatrixProduct(shape));
    assert forall|i: int|
        0 <= i < 4 implies spec_fragment_text(#[trigger] frags[i], name, names1)
        == spec_fragment_text(frags[i], name, names2) by {
        assert(frags[i].body == Body::MatrixProduct(shape));
    }
    assert(spec_fragments_text(frags, name, names1, 0) == spec_fragments_text(
        frags,
        name,
        names2,
        0,
    ));
    assert(spec_fragments_text(frags, name, names1, 1) == spec_fragments_text(
        frags,
        name,
        names2,
        1,
    ));
    assert(spec_fragments_text(frags, name, names1, 2) == spec_fragments_text(
        frags,
        name,
        names2,
        2,
    ));
    assert(spec_fragments_text(frags, name, names1, 3) == spec_fragments_text(
        frags,
        name,
        names2,
        3,
    ));
}

/// Emits the whole operator unit of one described type as source text: for
/// each entry of its family's operator table, the four same-type ownership
/// permutations (with the closed-form product body where the entry is
/// multiplication on a matrix family), then the two scalar variants where
/// those apply. A type of family `Other` yields the empty text. The matrix
/// product formula is emitted over the shape's fixed row-major field names,
/// which the descriptor's fields are assumed, never checked, to follow.
pub fn generate_struct_extensions(winrt_struct: &Struct) -> (r: String)
    ensures
        r@ == spec_unit_text(
            winrt_struct.family,
            winrt_struct.name.name@,
            spec_field_names(winrt_struct.fields@),
        ),
{
    let frags = struct_fragments(winrt_struct.family);
    fragments_to_source(&frags, winrt_struct)
}

} // verus!
