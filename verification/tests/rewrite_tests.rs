use sqlx_query_as_builder::Diagnostic;
use sqlx_query_as_builder::rewrite::expand_query_as_builder;
use sqlx_query_as_builder::rewrite::transform_query_output;
use sqlx_query_as_builder::tree::Expr;
use sqlx_query_as_builder::tree::Field;

fn atom(code: &str) -> Expr {
    Expr::Atom { code: code.to_string() }
}

fn field(name: &str, value: Expr) -> Field {
    Field { name: name.to_string(), value }
}

fn setter(receiver: Expr, name: &str) -> Expr {
    Expr::MethodCall {
        receiver: Box::new(receiver),
        method: name.to_string(),
        arg: Box::new(Expr::TempField { name: name.to_string() }),
    }
}

/// The record-construction node for a user row: columns id = 1,
/// name = "Alice", age = NULL.
fn user_record() -> Expr {
    Expr::Record {
        path: "User".to_string(),
        fields: vec![
            field("id", atom("1i64")),
            field("name", atom("\"Alice\".to_string()")),
            field("age", atom("None")),
        ],
    }
}

/// The expected replacement for `user_record()` with builder
/// `Builder::new()`: the temp-binding block whose chain is equivalent to
/// `Builder::new().id(..).name(..).age(..)`.
fn user_replacement() -> Expr {
    let chain = setter(setter(setter(atom("Builder::new()"), "id"), "name"), "age");
    Expr::TempBind {
        path: "User".to_string(),
        fields: vec![
            field("id", atom("1i64")),
            field("name", atom("\"Alice\".to_string()")),
            field("age", atom("None")),
        ],
        tail: Box::new(chain),
    }
}

#[test]
fn test_record_becomes_builder_chain_in_field_order() {
    // Columns (id, name, age) map to one setter each, in column order,
    // rooted at the builder expression; the caller finalizes later.
    let out = transform_query_output(atom("Builder::new()"), user_record());
    assert_eq!(out, Ok(user_replacement()));
}

#[test]
fn test_record_inside_closure_is_found_and_wrapping_kept() {
    // The record-construction node sits inside a row-mapping closure; the
    // rewriter must find it there and leave the wrapping intact.
    let tree = Expr::MethodCall {
        receiver: Box::new(atom("query")),
        method: "try_map".to_string(),
        arg: Box::new(Expr::Closure {
            header: "|row|".to_string(),
            body: Box::new(Expr::Call {
                func: "Ok".to_string(),
                arg: Box::new(user_record()),
            }),
        }),
    };
    let expected = Expr::MethodCall {
        receiver: Box::new(atom("query")),
        method: "try_map".to_string(),
        arg: Box::new(Expr::Closure {
            header: "|row|".to_string(),
            body: Box::new(Expr::Call {
                func: "Ok".to_string(),
                arg: Box::new(user_replacement()),
            }),
        }),
    };
    let out = transform_query_output(atom("Builder::new()"), tree);
    assert_eq!(out, Ok(expected));
}

#[test]
fn test_no_record_fails_closed() {
    // A tree with no record-construction node is rejected, with no output
    // expression produced.
    let tree = Expr::Block {
        stmt: Box::new(atom("let q = make_query();")),
        rest: Box::new(Expr::MethodCall {
            receiver: Box::new(atom("q")),
            method: "run".to_string(),
            arg: Box::new(atom("pool")),
        }),
    };
    let out = transform_query_output(atom("Builder::new()"), tree);
    assert_eq!(out, Err(Diagnostic::NoMatchFound));
}

#[test]
fn test_only_first_record_in_preorder_is_rewritten() {
    // Two record-construction nodes: the first in pre-order is replaced,
    // the second is preserved verbatim.
    let tree = Expr::Block {
        stmt: Box::new(Expr::Record {
            path: "User".to_string(),
            fields: vec![field("id", atom("1"))],
        }),
        rest: Box::new(Expr::Record {
            path: "User".to_string(),
            fields: vec![field("id", atom("2"))],
        }),
    };
    let expected = Expr::Block {
        stmt: Box::new(Expr::TempBind {
            path: "User".to_string(),
            fields: vec![field("id", atom("1"))],
            tail: Box::new(setter(atom("Builder::new()"), "id")),
        }),
        rest: Box::new(Expr::Record {
            path: "User".to_string(),
            fields: vec![field("id", atom("2"))],
        }),
    };
    let out = transform_query_output(atom("Builder::new()"), tree);
    assert_eq!(out, Ok(expected));
}

#[test]
fn test_record_with_no_fields_yields_bare_builder() {
    let tree = Expr::Record { path: "Unit".to_string(), fields: vec![] };
    let expected = Expr::TempBind {
        path: "Unit".to_string(),
        fields: vec![],
        tail: Box::new(atom("Builder::new()")),
    };
    let out = transform_query_output(atom("Builder::new()"), tree);
    assert_eq!(out, Ok(expected));
}

#[test]
fn test_delegate_failure_is_propagated_verbatim() {
    // The query compiler's own diagnostic survives unchanged.
    let message = "error returned from database: no such column: nam".to_string();
    let out = expand_query_as_builder(atom("Builder::new()"), Err(message.clone()));
    assert_eq!(out, Err(Diagnostic::DelegateFailure { message }));
}

#[test]
fn test_successful_delegate_output_is_rewritten() {
    let out = expand_query_as_builder(atom("Builder::new()"), Ok(user_record()));
    assert_eq!(out, Ok(user_replacement()));
}
