//! Compile-time rewriting of record-construction expressions into builder
//! setter chains.
//!
//! A macro invocation pairs a builder-producing expression with a query
//! specification.  An external query compiler turns the specification into an
//! expression tree that constructs a data record from the query's result
//! columns; this library locates that record-construction node and replaces
//! it with a chain of builder setter calls, one per field, in field order.
//!
//! The library itself performs no I/O and calls no external code: it works on
//! its own model of host-language token streams ([`invoke::Token`]) and
//! expression trees ([`tree::Expr`]).  The thin adapter that converts real
//! token streams to and from this model lives outside the library.

use vstd::prelude::*;

pub mod invoke;
pub mod laws;
pub mod rewrite;
pub mod tree;

verus! {

/// A compile-time diagnostic, reported at the macro invocation site.
#[derive(PartialEq, Eq, Debug)]
pub enum Diagnostic {
    /// The invocation does not have the shape
    /// `<builder expression> , <query specification>`.
    MalformedInvocation,
    /// The external query compiler rejected the query; its message is
    /// carried through verbatim.
    DelegateFailure { message: String },
    /// The query compiler's output contained no record-construction node,
    /// so there was nothing to rewrite.
    NoMatchFound,
}

} // verus!
