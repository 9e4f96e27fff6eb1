//! Source-code synthesis for the arithmetic operators of a small, closed set
//! of numeric aggregate types: the 2/3/4-component vectors and the 3x2 and
//! 4x4 matrices of the `Windows.Foundation.Numerics` namespace.
//!
//! Given a structural description of one such type, the library selects the
//! operator set of its family, expands each same-type operator into the four
//! ownership permutations and each scalar operator into the two ownership
//! variants, supplies the closed-form product formula for the two matrix
//! shapes, and renders the whole as one fragment of Rust source text.

pub mod descriptor;
pub mod emitter;
pub mod fragment;
pub mod operation;
pub mod semantics;
pub mod text;
