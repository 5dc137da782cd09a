//! The tree rewriter.
//!
//! Given the query compiler's output tree and a builder expression, the
//! rewriter walks the tree in pre-order and replaces the first
//! record-construction node it meets with a temp-binding block: the block
//! first evaluates every field value exactly once, in field order, into a
//! fresh record placeholder, and then calls one builder setter per field,
//! in the same order, reading each value off the placeholder.  At most one
//! node is ever rewritten, the traversal never descends into the block it
//! just produced, and a tree with no record-construction node is rejected
//! rather than passed through.

use vstd::prelude::*;

use crate::Diagnostic;
use crate::tree::Expr;
use crate::tree::Field;

verus! {

/// The setter chain for `fields`, rooted at `builder`:
/// `builder.f1(record.f1).f2(record.f2)...`, with `f1` the first field.
pub open spec fn chain_spec(builder: Expr, fields: Seq<Field>) -> Expr
    decreases fields.len(),
{
    if fields.len() == 0 {
        builder
    } else {
        let head = fields.subrange(0, fields.len() - 1);
        let f = fields[fields.len() - 1];
        Expr::MethodCall {
            receiver: Box::new(chain_spec(builder, head)),
            method: f.name,
            arg: Box::new(Expr::TempField { name: f.name }),
        }
    }
}

/// The block that replaces a record-construction node `path { fields }`:
/// `{ let record = path { fields }; builder.f1(record.f1)... }`.
pub open spec fn replacement_spec(builder: Expr, path: String, fields: Vec<Field>) -> Expr {
    Expr::TempBind { path, fields, tail: Box::new(chain_spec(builder, fields@)) }
}

/// One pre-order, first-match, single-rewrite pass over `e`.  Returns the
/// resulting tree and whether a rewrite has happened, given whether one had
/// already happened before this node was reached.  Once the flag is set the
/// remainder of the tree is kept unchanged, so the first matching node in
/// pre-order is the only one rewritten, and the traversal never re-enters
/// the replacement it produced.
pub open spec fn rewrite_spec(e: Expr, builder: Expr, replaced: bool) -> (Expr, bool)
    decreases e,
{
    if replaced {
        (e, true)
    } else {
        match e {
            Expr::Record { path, fields } => (replacement_spec(builder, path, fields), true),
            Expr::MethodCall { receiver, method, arg } => {
                let (r1, m1) = rewrite_spec(*receiver, builder, false);
                let (a1, m2) = rewrite_spec(*arg, builder, m1);
                (Expr::MethodCall { receiver: Box::new(r1), method, arg: Box::new(a1) }, m2)
            },
            Expr::Call { func, arg } => {
                let (a1, m1) = rewrite_spec(*arg, builder, false);
                (Expr::Call { func, arg: Box::new(a1) }, m1)
            },
            Expr::Closure { header, body } => {
                let (b1, m1) = rewrite_spec(*body, builder, false);
                (Expr::Closure { header, body: Box::new(b1) }, m1)
            },
            Expr::Block { stmt, rest } => {
                let (s1, m1) = rewrite_spec(*stmt, builder, false);
                let (r1, m2) = rewrite_spec(*rest, builder, m1);
                (Expr::Block { stmt: Box::new(s1), rest: Box::new(r1) }, m2)
            },
            _ => (e, false),
        }
    }
}

/// Whether the rewriting pass finds a record-construction node in `tree`.
pub open spec fn rewrite_matched(tree: Expr, builder: Expr) -> bool {
    rewrite_spec(tree, builder, false).1
}

/// The tree produced by the rewriting pass on `tree`.
pub open spec fn rewrite_result(tree: Expr, builder: Expr) -> Expr {
    rewrite_spec(tree, builder, false).0
}

/// Builds the setter chain for `fields`, rooted at `builder`.
fn build_chain(builder: Expr, fields: &Vec<Field>) -> (r: Expr)
    ensures
        r == chain_spec(builder, fields@),
{
    let mut chain = builder;
    let mut k: usize = 0;
    while k < fields.len()
        invariant
            k <= fields@.len(),
            chain == chain_spec(builder, fields@.subrange(0, k as int)),
        decreases fields@.len() - k,
    {
        let name = fields[k].name.clone();
        let again = name.clone();
        chain =
        Expr::MethodCall {
            receiver: Box::new(chain),
            method: name,
            arg: Box::new(Expr::TempField { name: again }),
        };
        k = k + 1;
        proof {
            let taken = fields@.subrange(0, k as int);
            assert(taken.subrange(0, taken.len() - 1) =~= fields@.subrange(0, k - 1));
            assert(taken[taken.len() - 1] == fields@[k - 1]);
        }
    }
    proof {
        assert(fields@.subrange(0, fields@.len() as int) =~= fields@);
    }
    chain
}

/// Builds the replacement block for a matched record-construction node.
fn build_replacement(builder: Expr, path: String, fields: Vec<Field>) -> (r: Expr)
    ensures
        r == replacement_spec(builder, path, fields),
{
    let tail = build_chain(builder, &fields);
    Expr::TempBind { path, fields, tail: Box::new(tail) }
}

/// The rewriting pass.  The builder expression is threaded through the
/// traversal and consumed by the first record-construction node met, so the
/// returned option is `None` exactly when a rewrite has happened.
fn rewrite_expr(e: Expr, builder: Option<Expr>) -> (r: (Expr, Option<Expr>))
    ensures
        builder is None ==> r == (e, Option::<Expr>::None),
        builder matches Some(b) ==> ({
            let (se, sm) = rewrite_spec(e, b, false);
            r.0 == se && r.1 == (if sm {
                Option::<Expr>::None
            } else {
                Option::<Expr>::Some(b)
            })
        }),
    decreases e,
{
    match builder {
        Option::None => (e, Option::None),
        Option::Some(b) => match e {
            Expr::Record { path, fields } => (build_replacement(b, path, fields), Option::None),
            Expr::MethodCall { receiver, method, arg } => {
                let ghost grec = *receiver;
                let ghost garg = *arg;
                let (r1, b1) = rewrite_expr(*receiver, Option::Some(b));
                let (a1, b2) = rewrite_expr(*arg, b1);
                proof {
                    let (sr1, sm1) = rewrite_spec(grec, b, false);
                    let (sa1, sm2) = rewrite_spec(garg, b, sm1);
                    assert(r1 == sr1);
                    if sm1 {
                        assert(b1 is None);
                        assert(a1 == garg && sa1 == garg);
                    } else {
                        assert(b1 == Option::Some(b));
                        assert(a1 == sa1);
                    }
                }
                (Expr::MethodCall { receiver: Box::new(r1), method, arg: Box::new(a1) }, b2)
            },
            Expr::Call { func, arg } => {
                let (a1, b1) = rewrite_expr(*arg, Option::Some(b));
                (Expr::Call { func, arg: Box::new(a1) }, b1)
            },
            Expr::Closure { header, body } => {
                let (c1, b1) = rewrite_expr(*body, Option::Some(b));
                (Expr::Closure { header, body: Box::new(c1) }, b1)
            },
            Expr::Block { stmt, rest } => {
                let ghost gstmt = *stmt;
                let ghost grest = *rest;
                let (s1, b1) = rewrite_expr(*stmt, Option::Some(b));
                let (t1, b2) = rewrite_expr(*rest, b1);
                proof {
                    let (ss1, sm1) = rewrite_spec(gstmt, b, false);
                    let (st1, sm2) = rewrite_spec(grest, b, sm1);
                    assert(s1 == ss1);
                    if sm1 {
                        assert(b1 is None);
                        assert(t1 == grest && st1 == grest);
                    } else {
                        assert(b1 == Option::Some(b));
                        assert(t1 == st1);
                    }
                }
                (Expr::Block { stmt: Box::new(s1), rest: Box::new(t1) }, b2)
            },
            other => (other, Option::Some(b)),
        },
    }
}

/// Rewrites the query compiler's output tree: the first record-construction
/// node in pre-order is replaced with the temp-binding block and setter
/// chain for the supplied builder expression.  A tree with no such node is
/// rejected with [`Diagnostic::NoMatchFound`] and no output is produced.
pub fn transform_query_output(builder_expr: Expr, tree: Expr) -> (r: Result<Expr, Diagnostic>)
    ensures
        rewrite_matched(tree, builder_expr) ==> r == Ok::<Expr, Diagnostic>(
            rewrite_result(tree, builder_expr),
        ),
        !rewrite_matched(tree, builder_expr) ==> r == Err::<Expr, Diagnostic>(
            Diagnostic::NoMatchFound,
        ),
{
    let (out, leftover) = rewrite_expr(tree, Option::Some(builder_expr));
    match leftover {
        Option::None => Ok(out),
        Option::Some(_) => Err(Diagnostic::NoMatchFound),
    }
}

/// The step that follows the query compiler: a failure of the compiler is
/// propagated verbatim, message and all, while a successful tree is handed
/// to the rewriter together with the builder expression.
pub fn expand_query_as_builder(builder_expr: Expr, delegate_response: Result<Expr, String>) -> (r:
    Result<Expr, Diagnostic>)
    ensures
        delegate_response matches Err(m) ==> r == Err::<Expr, Diagnostic>(
            Diagnostic::DelegateFailure { message: m },
        ),
        delegate_response matches Ok(tree) ==> {
            &&& rewrite_matched(tree, builder_expr) ==> r == Ok::<Expr, Diagnostic>(
                rewrite_result(tree, builder_expr),
            )
            &&& !rewrite_matched(tree, builder_expr) ==> r == Err::<Expr, Diagnostic>(
                Diagnostic::NoMatchFound,
            )
        },
{
    match delegate_response {
        Ok(tree) => transform_query_output(builder_expr, tree),
        Err(message) => Err(Diagnostic::DelegateFailure { message }),
    }
}

} // verus!
