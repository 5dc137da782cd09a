use sqlx_query_as_builder::Diagnostic;
use sqlx_query_as_builder::invoke::BuilderQueryInput;
use sqlx_query_as_builder::invoke::Token;

#[test]
fn test_parse_splits_at_first_separator() {
    // `Builder::new() , source = "..." , args = [..]` — two tokens of
    // builder expression, then the query specification with its own commas.
    let input = vec![
        Token::Word,
        Token::Group,
        Token::Sep,
        Token::Word,
        Token::Sep,
        Token::Group,
    ];
    let parsed = BuilderQueryInput::parse(&input).unwrap();
    assert_eq!(parsed.builder_expr, vec![Token::Word, Token::Group]);
    assert_eq!(parsed.query_input, vec![Token::Word, Token::Sep, Token::Group]);
}

#[test]
fn test_parse_single_token_builder() {
    let input = vec![Token::Word, Token::Sep, Token::Word, Token::Word];
    let parsed = BuilderQueryInput::parse(&input).unwrap();
    assert_eq!(parsed.builder_expr, vec![Token::Word]);
    assert_eq!(parsed.query_input, vec![Token::Word, Token::Word]);
}

#[test]
fn test_parse_empty_query_part() {
    let input = vec![Token::Word, Token::Sep];
    let parsed = BuilderQueryInput::parse(&input).unwrap();
    assert_eq!(parsed.builder_expr, vec![Token::Word]);
    assert_eq!(parsed.query_input, vec![]);
}

#[test]
fn test_parse_missing_separator_is_malformed() {
    // A malformed fragment with the required separator missing fails with
    // `MalformedInvocation` before any query text could reach the query
    // compiler.
    let input = vec![Token::Word, Token::Group, Token::Word];
    assert_eq!(
        BuilderQueryInput::parse(&input),
        Err(Diagnostic::MalformedInvocation)
    );
}

#[test]
fn test_parse_leading_separator_is_malformed() {
    // No builder expression before the separator.
    let input = vec![Token::Sep, Token::Word];
    assert_eq!(
        BuilderQueryInput::parse(&input),
        Err(Diagnostic::MalformedInvocation)
    );
}

#[test]
fn test_parse_empty_input_is_malformed() {
    let input: Vec<Token> = vec![];
    assert_eq!(
        BuilderQueryInput::parse(&input),
        Err(Diagnostic::MalformedInvocation)
    );
}
