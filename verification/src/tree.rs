//! The expression-tree model.
//!
//! [`Expr`] models the fragment of host-language expressions that the
//! rewriter inspects.  Anything outside this fragment is carried as an
//! [`Expr::Atom`], an opaque run of source text that is preserved verbatim.

use vstd::prelude::*;

verus! {

/// One field entry of a record-construction expression: a field name paired
/// with the expression that produces the field's value.  The order of
/// entries is significant — it is the query's result-column order.
#[verifier::ext_equal]
#[derive(PartialEq, Eq, Debug)]
pub struct Field {
    pub name: String,
    pub value: Expr,
}

/// A host-language expression tree.
///
/// The first six variants can appear in trees handed to the rewriter (they
/// are the shapes the query compiler's output is built from).  The last two,
/// [`Expr::TempBind`] and [`Expr::TempField`], exist only in the rewriter's
/// output: `TempBind` is the temp-binding block that evaluates every field
/// value exactly once into a fresh record placeholder, and `TempField` is a
/// read of one field off that placeholder.
#[verifier::ext_equal]
#[derive(PartialEq, Eq, Debug)]
pub enum Expr {
    /// An opaque expression, preserved verbatim: a literal, a path, or any
    /// construct the rewriter has no reason to look into.
    Atom { code: String },
    /// A record-construction expression: `path { f1: v1, f2: v2, ... }`.
    Record { path: String, fields: Vec<Field> },
    /// A single-argument method call: `receiver.method(arg)`.
    MethodCall { receiver: Box<Expr>, method: String, arg: Box<Expr> },
    /// A single-argument function or variant call: `func(arg)`.
    Call { func: String, arg: Box<Expr> },
    /// A closure: `header body`, where the header is the opaque argument
    /// list (for instance `|row|`), preserved verbatim.
    Closure { header: String, body: Box<Expr> },
    /// A block: one leading statement, then the rest of the block.
    Block { stmt: Box<Expr>, rest: Box<Expr> },
    /// The rewriter's temp-binding block:
    /// `{ let record = path { fields }; tail }`.
    /// The binding reuses record-construction syntax, but it is part of this
    /// block form, not a record-construction node of its own.
    TempBind { path: String, fields: Vec<Field>, tail: Box<Expr> },
    /// A read of one field off the rewriter's fresh record placeholder:
    /// `record.name`.
    TempField { name: String },
}

/// The number of record-construction nodes anywhere in `e`, including
/// inside field values.
pub open spec fn count_records(e: Expr) -> nat
    decreases e,
{
    match e {
        Expr::Atom { .. } => 0,
        Expr::Record { path: _, fields } => 1 + count_records_in_fields(fields@),
        Expr::MethodCall { receiver, method: _, arg } => count_records(*receiver) + count_records(
            *arg,
        ),
        Expr::Call { func: _, arg } => count_records(*arg),
        Expr::Closure { header: _, body } => count_records(*body),
        Expr::Block { stmt, rest } => count_records(*stmt) + count_records(*rest),
        Expr::TempBind { path: _, fields, tail } => count_records_in_fields(fields@)
            + count_records(*tail),
        Expr::TempField { .. } => 0,
    }
}

/// The number of record-construction nodes inside the value expressions of
/// a run of field entries.
pub open spec fn count_records_in_fields(fields: Seq<Field>) -> nat
    decreases fields,
{
    if fields.len() == 0 {
        0
    } else {
        count_records(fields[0].value) + count_records_in_fields(fields.subrange(
            1,
            fields.len() as int,
        ))
    }
}

/// Whether `e` contains a record-construction node anywhere.
pub open spec fn contains_record(e: Expr) -> bool {
    count_records(e) > 0
}

/// The number of temp-binding blocks anywhere in `e`.  The rewriter's
/// replacement introduces exactly one.
pub open spec fn count_bindings(e: Expr) -> nat
    decreases e,
{
    match e {
        Expr::Atom { .. } => 0,
        Expr::Record { path: _, fields } => count_bindings_in_fields(fields@),
        Expr::MethodCall { receiver, method: _, arg } => count_bindings(*receiver) + count_bindings(
            *arg,
        ),
        Expr::Call { func: _, arg } => count_bindings(*arg),
        Expr::Closure { header: _, body } => count_bindings(*body),
        Expr::Block { stmt, rest } => count_bindings(*stmt) + count_bindings(*rest),
        Expr::TempBind { path: _, fields, tail } => 1 + count_bindings_in_fields(fields@)
            + count_bindings(*tail),
        Expr::TempField { .. } => 0,
    }
}

/// The number of temp-binding blocks inside the value expressions of a run
/// of field entries.
pub open spec fn count_bindings_in_fields(fields: Seq<Field>) -> nat
    decreases fields,
{
    if fields.len() == 0 {
        0
    } else {
        count_bindings(fields[0].value) + count_bindings_in_fields(fields.subrange(
            1,
            fields.len() as int,
        ))
    }
}

/// Whether `e` is shaped like the query compiler's output: it contains none
/// of the rewriter's own synthesized forms.  The fresh record placeholder is
/// introduced only by the rewriter, so a tree that arrives from the query
/// compiler (or from any host source text) never contains `TempBind` or
/// `TempField` nodes.
pub open spec fn delegate_shaped(e: Expr) -> bool
    decreases e,
{
    match e {
        Expr::Atom { .. } => true,
        Expr::Record { path: _, fields } => delegate_shaped_fields(fields@),
        Expr::MethodCall { receiver, method: _, arg } => delegate_shaped(*receiver)
            && delegate_shaped(*arg),
        Expr::Call { func: _, arg } => delegate_shaped(*arg),
        Expr::Closure { header: _, body } => delegate_shaped(*body),
        Expr::Block { stmt, rest } => delegate_shaped(*stmt) && delegate_shaped(*rest),
        Expr::TempBind { .. } => false,
        Expr::TempField { .. } => false,
    }
}

/// Whether every value expression in a run of field entries is shaped like
/// the query compiler's output.
pub open spec fn delegate_shaped_fields(fields: Seq<Field>) -> bool
    decreases fields,
{
    if fields.len() == 0 {
        true
    } else {
        delegate_shaped(fields[0].value) && delegate_shaped_fields(fields.subrange(
            1,
            fields.len() as int,
        ))
    }
}

} // verus!
