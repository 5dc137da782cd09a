//! Properties of the rewrite, stated and proved once and for all.

use vstd::prelude::*;

use crate::rewrite::chain_spec;
use crate::rewrite::replacement_spec;
use crate::rewrite::rewrite_matched;
use crate::rewrite::rewrite_result;
use crate::rewrite::rewrite_spec;
use crate::tree::Expr;
use crate::tree::Field;
use crate::tree::contains_record;
use crate::tree::count_bindings;
use crate::tree::count_bindings_in_fields;
use crate::tree::count_records;
use crate::tree::count_records_in_fields;
use crate::tree::delegate_shaped;
use crate::tree::delegate_shaped_fields;

verus! {

/// The method names of the outermost `n` calls of a method-call chain,
/// innermost first.
pub open spec fn chain_setters(e: Expr, n: nat) -> Seq<String>
    decreases n,
{
    if n == 0 {
        Seq::empty()
    } else {
        match e {
            Expr::MethodCall { receiver, method, arg } => chain_setters(
                *receiver,
                (n - 1) as nat,
            ).push(method),
            _ => Seq::empty(),
        }
    }
}

/// The arguments of the outermost `n` calls of a method-call chain,
/// innermost first.
pub open spec fn chain_arguments(e: Expr, n: nat) -> Seq<Expr>
    decreases n,
{
    if n == 0 {
        Seq::empty()
    } else {
        match e {
            Expr::MethodCall { receiver, method, arg } => chain_arguments(
                *receiver,
                (n - 1) as nat,
            ).push(*arg),
            _ => Seq::empty(),
        }
    }
}

/// Order preservation: the chain built for fields `[f1 .. fn]` invokes
/// exactly one setter per field, named after the field, with `f1` first —
/// the fields' original order.
pub proof fn lemma_order_preservation(builder: Expr, fields: Seq<Field>)
    ensures
        chain_setters(chain_spec(builder, fields), fields.len()) == fields.map_values(
            |f: Field| f.name,
        ),
    decreases fields.len(),
{
    if fields.len() == 0 {
        assert(chain_setters(chain_spec(builder, fields), 0) =~= fields.map_values(
            |f: Field| f.name,
        ));
    } else {
        let head = fields.subrange(0, fields.len() - 1);
        lemma_order_preservation(builder, head);
        assert(chain_setters(chain_spec(builder, fields), fields.len()) =~= fields.map_values(
            |f: Field| f.name,
        ));
    }
}

/// Evaluation once: the replacement block binds the record's field value
/// expressions verbatim, each exactly once and in original order, and every
/// setter argument in the chain is a read of the fresh placeholder — no
/// field value expression is spliced into the chain itself, so each value
/// is evaluated exactly once however often the chain's result is consumed.
pub proof fn lemma_evaluation_once(builder: Expr, path: String, fields: Vec<Field>)
    ensures
        replacement_spec(builder, path, fields) == (Expr::TempBind {
            path,
            fields,
            tail: Box::new(chain_spec(builder, fields@)),
        }),
        chain_arguments(chain_spec(builder, fields@), fields@.len()) == fields@.map_values(
            |f: Field| Expr::TempField { name: f.name },
        ),
{
    lemma_chain_arguments(builder, fields@);
}

proof fn lemma_chain_arguments(builder: Expr, fields: Seq<Field>)
    ensures
        chain_arguments(chain_spec(builder, fields), fields.len()) == fields.map_values(
            |f: Field| Expr::TempField { name: f.name },
        ),
    decreases fields.len(),
{
    if fields.len() == 0 {
        assert(chain_arguments(chain_spec(builder, fields), 0) =~= fields.map_values(
            |f: Field| Expr::TempField { name: f.name },
        ));
    } else {
        let head = fields.subrange(0, fields.len() - 1);
        lemma_chain_arguments(builder, head);
        assert(chain_arguments(chain_spec(builder, fields), fields.len()) =~= fields.map_values(
            |f: Field| Expr::TempField { name: f.name },
        ));
    }
}

/// The setter chain introduces no record-construction node and no
/// temp-binding block beyond those already inside the builder expression.
proof fn lemma_chain_counts(builder: Expr, fields: Seq<Field>)
    ensures
        count_records(chain_spec(builder, fields)) == count_records(builder),
        count_bindings(chain_spec(builder, fields)) == count_bindings(builder),
    decreases fields.len(),
{
    if fields.len() > 0 {
        let head = fields.subrange(0, fields.len() - 1);
        let f = fields[fields.len() - 1];
        lemma_chain_counts(builder, head);
        let c = chain_spec(builder, fields);
        assert(c is MethodCall);
        assert(*c->MethodCall_receiver == chain_spec(builder, head));
        assert(*c->MethodCall_arg == Expr::TempField { name: f.name });
        assert(count_records(Expr::TempField { name: f.name }) == 0);
        assert(count_records(c) == count_records(chain_spec(builder, head)));
        assert(count_bindings(Expr::TempField { name: f.name }) == 0);
        assert(count_bindings(c) == count_bindings(chain_spec(builder, head)));
    }
}

/// How one rewriting pass changes the two node counts: a match removes the
/// one matched record-construction node, adds one temp-binding block, and
/// splices in the builder expression; no match leaves the tree unchanged.
proof fn lemma_rewrite_counts(e: Expr, builder: Expr)
    ensures
        ({
            let (r, m) = rewrite_spec(e, builder, false);
            &&& m ==> count_records(r) + 1 == count_records(e) + count_records(builder)
            &&& m ==> count_bindings(r) == count_bindings(e) + count_bindings(builder) + 1
            &&& !m ==> r == e
        }),
    decreases e,
{
    match e {
        Expr::Record { path, fields } => {
            lemma_chain_counts(builder, fields@);
            let (r, m) = rewrite_spec(e, builder, false);
            assert(m);
            assert(r == replacement_spec(builder, path, fields));
            assert(count_records(r) == count_records_in_fields(fields@) + count_records(
                chain_spec(builder, fields@),
            ));
            assert(count_records(e) == 1 + count_records_in_fields(fields@));
            assert(count_bindings(r) == 1 + count_bindings_in_fields(fields@) + count_bindings(
                chain_spec(builder, fields@),
            ));
        },
        Expr::MethodCall { receiver, method, arg } => {
            lemma_rewrite_counts(*receiver, builder);
            lemma_rewrite_counts(*arg, builder);
            let (r1, m1) = rewrite_spec(*receiver, builder, false);
            let (a1, m2) = rewrite_spec(*arg, builder, m1);
            let (r, m) = rewrite_spec(e, builder, false);
            assert(r == (Expr::MethodCall {
                receiver: Box::new(r1),
                method,
                arg: Box::new(a1),
            }) && m == m2);
            assert(count_records(r) == count_records(r1) + count_records(a1));
            assert(count_bindings(r) == count_bindings(r1) + count_bindings(a1));
            if !m {
                assert(r1 == *receiver && a1 == *arg);
                assert(Box::new(r1) == receiver);
                assert(r =~= e);
            }
        },
        Expr::Call { func, arg } => {
            lemma_rewrite_counts(*arg, builder);
            let (a1, m1) = rewrite_spec(*arg, builder, false);
            let (r, m) = rewrite_spec(e, builder, false);
            assert(r == (Expr::Call { func, arg: Box::new(a1) }) && m == m1);
            assert(count_records(r) == count_records(a1));
            assert(count_bindings(r) == count_bindings(a1));
            if !m {
                assert(Box::new(a1) == arg);
                assert(r =~= e);
            }
        },
        Expr::Closure { header, body } => {
            lemma_rewrite_counts(*body, builder);
            let (c1, m1) = rewrite_spec(*body, builder, false);
            let (r, m) = rewrite_spec(e, builder, false);
            assert(r == (Expr::Closure { header, body: Box::new(c1) }) && m == m1);
            assert(count_records(r) == count_records(c1));
            assert(count_bindings(r) == count_bindings(c1));
            if !m {
                assert(Box::new(c1) == body);
                assert(r =~= e);
            }
        },
        Expr::Block { stmt, rest } => {
            lemma_rewrite_counts(*stmt, builder);
            lemma_rewrite_counts(*rest, builder);
            let (s1, m1) = rewrite_spec(*stmt, builder, false);
            let (t1, m2) = rewrite_spec(*rest, builder, m1);
            let (r, m) = rewrite_spec(e, builder, false);
            assert(r == (Expr::Block { stmt: Box::new(s1), rest: Box::new(t1) }) && m == m2);
            assert(count_records(r) == count_records(s1) + count_records(t1));
            assert(count_bindings(r) == count_bindings(s1) + count_bindings(t1));
            if !m {
                assert(s1 == *stmt && t1 == *rest);
                assert(Box::new(s1) == stmt);
                assert(r =~= e);
            }
        },
        _ => {},
    }
}

/// A tree shaped like the query compiler's output contains no temp-binding
/// block.
proof fn lemma_shaped_no_bindings(e: Expr)
    requires
        delegate_shaped(e),
    ensures
        count_bindings(e) == 0,
    decreases e,
{
    match e {
        Expr::Record { path, fields } => {
            lemma_shaped_no_bindings_fields(fields@);
        },
        Expr::MethodCall { receiver, method, arg } => {
            lemma_shaped_no_bindings(*receiver);
            lemma_shaped_no_bindings(*arg);
        },
        Expr::Call { func, arg } => {
            lemma_shaped_no_bindings(*arg);
        },
        Expr::Closure { header, body } => {
            lemma_shaped_no_bindings(*body);
        },
        Expr::Block { stmt, rest } => {
            lemma_shaped_no_bindings(*stmt);
            lemma_shaped_no_bindings(*rest);
        },
        _ => {},
    }
}

proof fn lemma_shaped_no_bindings_fields(fields: Seq<Field>)
    requires
        delegate_shaped_fields(fields),
    ensures
        count_bindings_in_fields(fields) == 0,
    decreases fields,
{
    if fields.len() > 0 {
        lemma_shaped_no_bindings(fields[0].value);
        lemma_shaped_no_bindings_fields(fields.subrange(1, fields.len() as int));
    }
}

/// Fail closed, in both directions: on a tree shaped like the query
/// compiler's output, the rewriting pass finds a node to rewrite exactly
/// when the tree contains a record-construction node — however deeply the
/// node is wrapped, and whatever the builder expression is.
pub proof fn lemma_match_iff_contains(e: Expr, builder: Expr)
    requires
        delegate_shaped(e),
    ensures
        rewrite_matched(e, builder) <==> contains_record(e),
    decreases e,
{
    match e {
        Expr::MethodCall { receiver, method, arg } => {
            lemma_match_iff_contains(*receiver, builder);
            lemma_match_iff_contains(*arg, builder);
            let (r1, m1) = rewrite_spec(*receiver, builder, false);
            let (a1, m2) = rewrite_spec(*arg, builder, m1);
            assert(rewrite_matched(e, builder) == m2);
            assert(count_records(e) == count_records(*receiver) + count_records(*arg));
            if m1 {
                assert(m2);
                assert(contains_record(*receiver));
            }
        },
        Expr::Call { func, arg } => {
            lemma_match_iff_contains(*arg, builder);
            let (a1, m1) = rewrite_spec(*arg, builder, false);
            assert(rewrite_matched(e, builder) == m1);
            assert(count_records(e) == count_records(*arg));
        },
        Expr::Closure { header, body } => {
            lemma_match_iff_contains(*body, builder);
            let (c1, m1) = rewrite_spec(*body, builder, false);
            assert(rewrite_matched(e, builder) == m1);
            assert(count_records(e) == count_records(*body));
        },
        Expr::Block { stmt, rest } => {
            lemma_match_iff_contains(*stmt, builder);
            lemma_match_iff_contains(*rest, builder);
            let (s1, m1) = rewrite_spec(*stmt, builder, false);
            let (t1, m2) = rewrite_spec(*rest, builder, m1);
            assert(rewrite_matched(e, builder) == m2);
            assert(count_records(e) == count_records(*stmt) + count_records(*rest));
            if m1 {
                assert(m2);
                assert(contains_record(*stmt));
            }
        },
        _ => {},
    }
}

/// No match fails closed: a tree shaped like the query compiler's output
/// with no record-construction node is never rewritten — combined with the
/// rewriter's contract, the pass reports the missing match and produces no
/// output expression.
pub proof fn lemma_no_match_fails_closed(tree: Expr, builder: Expr)
    requires
        delegate_shaped(tree),
        count_records(tree) == 0,
    ensures
        !rewrite_matched(tree, builder),
        rewrite_result(tree, builder) == tree,
{
    lemma_match_iff_contains(tree, builder);
    lemma_rewrite_counts(tree, builder);
}

/// Single rewrite: a tree shaped like the query compiler's output with
/// exactly one record-construction node, rewritten with a builder
/// expression that constructs no record itself, yields a tree with zero
/// record-construction nodes and exactly one temp-binding setter block.
pub proof fn lemma_single_rewrite(tree: Expr, builder: Expr)
    requires
        delegate_shaped(tree),
        delegate_shaped(builder),
        count_records(tree) == 1,
        count_records(builder) == 0,
    ensures
        rewrite_matched(tree, builder),
        count_records(rewrite_result(tree, builder)) == 0,
        count_bindings(rewrite_result(tree, builder)) == 1,
{
    lemma_match_iff_contains(tree, builder);
    lemma_rewrite_counts(tree, builder);
    lemma_shaped_no_bindings(tree);
    lemma_shaped_no_bindings(builder);
}

} // verus!
