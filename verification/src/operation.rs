//! The four arithmetic operator kinds and the ownership conventions under
//! which an operator implementation can take its operands.

use vstd::prelude::*;

verus! {

/// One arithmetic capability of a numeric type.
#[derive(Clone, Copy, PartialEq, Eq, Structural, Debug)]
pub enum Operation {
    Add,
    Sub,
    Div,
    Mul,
}

/// How an operand is passed: consumed by value or borrowed by reference.
#[derive(Clone, Copy, PartialEq, Eq, Structural, Debug)]
pub enum Ownership {
    Value,
    Reference,
}

/// The right-hand operand of an emitted implementation: another value of the
/// same type, under one of the two ownerships, or a plain scalar. A scalar is
/// always passed by value; there is no ownership ambiguity for a number.
#[derive(Clone, Copy, PartialEq, Eq, Structural, Debug)]
pub enum RhsOperand {
    SameType(Ownership),
    Scalar,
}

/// The trait name an implementation of `op` is written against.
pub open spec fn op_trait_text(op: Operation) -> Seq<char> {
    match op {
        Operation::Add => "Add"@,
        Operation::Sub => "Sub"@,
        Operation::Div => "Div"@,
        Operation::Mul => "Mul"@,
    }
}

/// The method name of that trait.
pub open spec fn op_method_text(op: Operation) -> Seq<char> {
    match op {
        Operation::Add => "add"@,
        Operation::Sub => "sub"@,
        Operation::Div => "div"@,
        Operation::Mul => "mul"@,
    }
}

/// The infix symbol the emitted body combines fields with.
pub open spec fn op_symbol_text(op: Operation) -> Seq<char> {
    match op {
        Operation::Add => "+"@,
        Operation::Sub => "-"@,
        Operation::Div => "/"@,
        Operation::Mul => "*"@,
    }
}

/// The four ownership permutations of a same-type binary operator, in the
/// fixed order value/value, value/reference, reference/value,
/// reference/reference.
pub open spec fn spec_self_permutations() -> Seq<(Ownership, Ownership)> {
    seq![
        (Ownership::Value, Ownership::Value),
        (Ownership::Value, Ownership::Reference),
        (Ownership::Reference, Ownership::Value),
        (Ownership::Reference, Ownership::Reference),
    ]
}

impl Operation {
    /// The trait name, method name and infix symbol of this operator.
    pub fn get_name_fn_and_symbol(&self) -> (r: (&'static str, &'static str, &'static str))
        ensures
            r.0@ == op_trait_text(*self),
            r.1@ == op_method_text(*self),
            r.2@ == op_symbol_text(*self),
    {
        match self {
            Operation::Add => ("Add", "add", "+"),
            Operation::Sub => ("Sub", "sub", "-"),
            Operation::Div => ("Div", "div", "/"),
            Operation::Mul => ("Mul", "mul", "*"),
        }
    }

    /// The four ownership permutations a same-type operator is expanded into.
    pub fn get_self_permutations() -> (r: Vec<(Ownership, Ownership)>)
        ensures
            r@ == spec_self_permutations(),
    {
        let mut r: Vec<(Ownership, Ownership)> = Vec::new();
        r.push((Ownership::Value, Ownership::Value));
        r.push((Ownership::Value, Ownership::Reference));
        r.push((Ownership::Reference, Ownership::Value));
        r.push((Ownership::Reference, Ownership::Reference));
        proof {
            assert(r@ =~= spec_self_permutations());
        }
        r
    }
}

} // verus!
