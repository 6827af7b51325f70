use query_macros::error::{Error, Span, SyntaxProblem};
use query_macros::input::{ArgExpr, DataSrc, QueryMacroInput, QuerySrc, RecordType};
use query_macros::token::{Token, TokenKind};

fn ident(name: &str) -> Token {
    Token::ident(name)
}

fn literal(text: &str) -> Token {
    Token::literal(text)
}

fn group(text: &str) -> Token {
    Token::group(text)
}

fn punct(text: &str, joint: bool) -> Token {
    Token::punct(text, joint)
}

fn comma() -> Token {
    punct(",", false)
}

#[test]
fn parses_source_alone() {
    let tokens = vec![ident("source"), literal("\"SELECT 1\"")];
    let input = QueryMacroInput::parse(&tokens).unwrap();
    assert_eq!(input.src, QuerySrc::String("SELECT 1".to_string()));
    assert_eq!(input.src_span, Span::Token(1));
    assert_eq!(input.data_src, DataSrc::Env("DATABASE_URL".to_string()));
    assert_eq!(input.record_type, RecordType::Generated);
    assert!(input.arg_names.is_empty());
    assert!(input.arg_exprs.is_empty());
    assert!(!input.unchecked_output);
}

#[test]
fn parses_source_with_args() {
    let tokens = vec![
        ident("source"),
        literal("\"SELECT $1, $2\""),
        comma(),
        ident("args"),
        group("[a, b.c(), 1 + 2]"),
    ];
    let input = QueryMacroInput::parse(&tokens).unwrap();
    assert_eq!(input.src, QuerySrc::String("SELECT $1, $2".to_string()));
    assert_eq!(input.arg_names, vec!["arg0", "arg1", "arg2"]);
    assert_eq!(
        input.arg_exprs,
        vec![
            ArgExpr { token: 4, index: 0 },
            ArgExpr { token: 4, index: 1 },
            ArgExpr { token: 4, index: 2 },
        ]
    );
}

#[test]
fn string_escapes_are_resolved() {
    let tokens = vec![ident("source"), literal("\"a\\n\\\"b\\\"\"")];
    let input = QueryMacroInput::parse(&tokens).unwrap();
    assert_eq!(input.src, QuerySrc::String("a\n\"b\"".to_string()));
}

#[test]
fn missing_source_is_a_syntax_error() {
    let tokens = vec![ident("args"), group("[a]")];
    assert_eq!(
        QueryMacroInput::parse(&tokens),
        Err(Error::Syntax { span: Span::CallSite, problem: SyntaxProblem::MissingSource })
    );
    assert_eq!(
        QueryMacroInput::parse(&Vec::new()),
        Err(Error::Syntax { span: Span::CallSite, problem: SyntaxProblem::MissingSource })
    );
}

#[test]
fn unknown_key_is_reported_at_the_key() {
    let tokens = vec![
        ident("source"),
        literal("\"SELECT 1\""),
        comma(),
        ident("sauce"),
        literal("\"x\""),
    ];
    let err = QueryMacroInput::parse(&tokens).unwrap_err();
    assert_eq!(err, Error::Syntax { span: Span::Token(3), problem: SyntaxProblem::UnexpectedKey });
    assert_eq!(err.message(), "unexpected input key");
    assert_eq!(err.span(), Span::Token(3));
}

#[test]
fn record_type_may_take_several_tokens() {
    let tokens = vec![
        ident("record_type"),
        ident("HashMap"),
        punct("<", false),
        ident("K"),
        comma(),
        ident("V"),
        punct(">", false),
        comma(),
        ident("source_file"),
        literal("\"queries/a.sql\""),
    ];
    let input = QueryMacroInput::parse(&tokens).unwrap();
    assert_eq!(input.record_type, RecordType::Given("HashMap < K , V >".to_string()));
    assert_eq!(input.src, QuerySrc::File("queries/a.sql".to_string()));
    assert_eq!(input.src_span, Span::Token(9));
}

#[test]
fn later_source_overwrites_earlier() {
    let tokens = vec![
        ident("source"),
        literal("\"SELECT 1\""),
        comma(),
        ident("source_file"),
        literal("\"q/one.sql\""),
    ];
    let input = QueryMacroInput::parse(&tokens).unwrap();
    assert_eq!(input.src, QuerySrc::File("q/one.sql".to_string()));
    assert_eq!(input.src_span, Span::Token(4));

    let tokens = vec![
        ident("source_file"),
        literal("\"q/one.sql\""),
        comma(),
        ident("source"),
        literal("\"SELECT 2\""),
    ];
    let input = QueryMacroInput::parse(&tokens).unwrap();
    assert_eq!(input.src, QuerySrc::String("SELECT 2".to_string()));
}

#[test]
fn args_before_source_and_empty_args() {
    let tokens = vec![ident("args"), group("[]"), comma(), ident("source"), literal("\"x\"")];
    let input = QueryMacroInput::parse(&tokens).unwrap();
    assert!(input.arg_names.is_empty());
    assert!(input.arg_exprs.is_empty());
    assert_eq!(input.src_span, Span::Token(4));
}

#[test]
fn argument_names_count_in_decimal() {
    let mut array = String::from("[");
    for i in 0..12 {
        array.push_str(&format!("x{}, ", i));
    }
    array.push(']');
    let tokens = vec![ident("source"), literal("\"x\""), comma(), ident("args"), group(&array)];
    let input = QueryMacroInput::parse(&tokens).unwrap();
    assert_eq!(input.arg_names.len(), 12);
    assert_eq!(input.arg_exprs.len(), 12);
    assert_eq!(input.arg_names[0], "arg0");
    assert_eq!(input.arg_names[9], "arg9");
    assert_eq!(input.arg_names[10], "arg10");
    assert_eq!(input.arg_names[11], "arg11");
    assert_eq!(input.arg_exprs[11], ArgExpr { token: 4, index: 11 });
}

#[test]
fn unchecked_output_is_read() {
    let tokens =
        vec![ident("source"), literal("\"x\""), comma(), ident("unchecked_output"), ident("true")];
    assert!(QueryMacroInput::parse(&tokens).unwrap().unchecked_output);
    let tokens = vec![
        ident("unchecked_output"),
        ident("true"),
        comma(),
        ident("unchecked_output"),
        ident("false"),
        comma(),
        ident("source"),
        literal("\"x\""),
    ];
    assert!(!QueryMacroInput::parse(&tokens).unwrap().unchecked_output);
    let tokens =
        vec![ident("source"), literal("\"x\""), comma(), ident("unchecked_output"), literal("1")];
    assert_eq!(
        QueryMacroInput::parse(&tokens),
        Err(Error::Syntax { span: Span::Token(4), problem: SyntaxProblem::ExpectedBool })
    );
}

#[test]
fn pairs_need_a_comma_between_them() {
    let tokens = vec![ident("source"), literal("\"x\""), ident("args"), group("[a]")];
    let err = QueryMacroInput::parse(&tokens).unwrap_err();
    assert_eq!(err, Error::Syntax { span: Span::Token(2), problem: SyntaxProblem::ExpectedComma });
    assert_eq!(err.message(), "expected `,`");
}

#[test]
fn no_comma_after_the_last_pair() {
    let tokens = vec![ident("source"), literal("\"x\""), comma()];
    assert_eq!(
        QueryMacroInput::parse(&tokens),
        Err(Error::Syntax { span: Span::CallSite, problem: SyntaxProblem::ExpectedKey })
    );
}

#[test]
fn key_must_be_an_identifier() {
    let tokens = vec![literal("\"source\""), literal("\"x\"")];
    assert_eq!(
        QueryMacroInput::parse(&tokens),
        Err(Error::Syntax { span: Span::Token(0), problem: SyntaxProblem::ExpectedKey })
    );
}

#[test]
fn unknown_first_key_is_reported_at_token_zero() {
    let tokens = vec![ident("query"), literal("\"x\"")];
    assert_eq!(
        QueryMacroInput::parse(&tokens),
        Err(Error::Syntax { span: Span::Token(0), problem: SyntaxProblem::UnexpectedKey })
    );
}

#[test]
fn values_of_the_wrong_kind_are_refused() {
    let tokens = vec![ident("source"), ident("x")];
    assert_eq!(
        QueryMacroInput::parse(&tokens),
        Err(Error::Syntax { span: Span::Token(1), problem: SyntaxProblem::ExpectedString })
    );
    let tokens = vec![ident("source")];
    assert_eq!(
        QueryMacroInput::parse(&tokens),
        Err(Error::Syntax { span: Span::CallSite, problem: SyntaxProblem::ExpectedString })
    );
    let tokens = vec![ident("source_file"), literal("b\"bytes\"")];
    assert_eq!(
        QueryMacroInput::parse(&tokens),
        Err(Error::Syntax { span: Span::Token(1), problem: SyntaxProblem::ExpectedString })
    );
    let tokens = vec![ident("args"), group("(a, b)")];
    assert_eq!(
        QueryMacroInput::parse(&tokens),
        Err(Error::Syntax { span: Span::Token(1), problem: SyntaxProblem::ExpectedArray })
    );
    let tokens = vec![ident("record_type"), literal("\"Foo\""), comma(), ident("source"), literal("\"x\"")];
    assert_eq!(
        QueryMacroInput::parse(&tokens),
        Err(Error::Syntax { span: Span::Token(1), problem: SyntaxProblem::ExpectedType })
    );
    let tokens = vec![ident("record_type")];
    assert_eq!(
        QueryMacroInput::parse(&tokens),
        Err(Error::Syntax { span: Span::CallSite, problem: SyntaxProblem::ExpectedType })
    );
}

#[test]
fn record_type_with_a_path() {
    let tokens = vec![
        ident("source"),
        literal("\"x\""),
        comma(),
        ident("record_type"),
        ident("crate"),
        punct(":", true),
        punct(":", false),
        ident("Row"),
    ];
    let input = QueryMacroInput::parse(&tokens).unwrap();
    assert_eq!(input.record_type, RecordType::Given("crate :: Row".to_string()));
}

#[test]
fn raw_string_source() {
    let tokens = vec![ident("source"), literal("r#\"SELECT \"a\" FROM t\"#")];
    let input = QueryMacroInput::parse(&tokens).unwrap();
    assert_eq!(input.src, QuerySrc::String("SELECT \"a\" FROM t".to_string()));
}

#[test]
fn syntax_messages() {
    assert_eq!(SyntaxProblem::MissingSource.message(), "expected `source` or `source_file` key");
    assert_eq!(SyntaxProblem::ExpectedKey.message(), "expected identifier");
    assert_eq!(SyntaxProblem::ExpectedString.message(), "expected string literal");
    assert_eq!(SyntaxProblem::ExpectedArray.message(), "expected array of expressions");
    assert_eq!(SyntaxProblem::ExpectedType.message(), "expected type");
    assert_eq!(SyntaxProblem::ExpectedBool.message(), "expected boolean literal");
}

#[test]
fn token_builders() {
    assert_eq!(
        Token::ident("source"),
        Token { kind: TokenKind::Ident, text: "source".to_string(), joint: false }
    );
    assert_eq!(
        Token::literal("\"x\""),
        Token { kind: TokenKind::Literal, text: "\"x\"".to_string(), joint: false }
    );
    assert_eq!(
        Token::group("[a]"),
        Token { kind: TokenKind::Group, text: "[a]".to_string(), joint: false }
    );
    assert_eq!(
        Token::punct(":", true),
        Token { kind: TokenKind::Punct, text: ":".to_string(), joint: true }
    );
    assert!(Token::punct(",", false).is_comma());
    assert!(!Token::ident(",").is_comma());
    assert!(!Token::punct(";", false).is_comma());
    assert!(Token::ident("a").is_ident());
    assert!(!Token::literal("a").is_ident());
    let mut line = String::from("x");
    Token::punct(":", true).write_to(&mut line);
    Token::punct(":", false).write_to(&mut line);
    Token::ident("y").write_to(&mut line);
    assert_eq!(line, "x:: y ");
}

#[test]
fn the_last_args_pair_counts() {
    let tokens = vec![
        ident("args"),
        group("[a, b, c]"),
        comma(),
        ident("source"),
        literal("\"x\""),
        comma(),
        ident("args"),
        group("[foo::<A, B>(1), |x, y| x + y]"),
    ];
    let input = QueryMacroInput::parse(&tokens).unwrap();
    assert_eq!(
        input.arg_exprs,
        vec![ArgExpr { token: 7, index: 0 }, ArgExpr { token: 7, index: 1 }]
    );
    assert_eq!(input.arg_names, vec!["arg0", "arg1"]);
}

#[test]
fn literals_of_every_kind_are_read_without_failure() {
    // a C string is no string literal
    let tokens = vec![ident("source"), literal("c\"SELECT 1\"")];
    assert_eq!(
        QueryMacroInput::parse(&tokens),
        Err(Error::Syntax { span: Span::Token(1), problem: SyntaxProblem::ExpectedString })
    );
    let tokens = vec![ident("source"), literal("cr#\"SELECT 1\"#")];
    assert_eq!(
        QueryMacroInput::parse(&tokens),
        Err(Error::Syntax { span: Span::Token(1), problem: SyntaxProblem::ExpectedString })
    );
    let tokens = vec![ident("source"), ident("return")];
    assert_eq!(
        QueryMacroInput::parse(&tokens),
        Err(Error::Syntax { span: Span::Token(1), problem: SyntaxProblem::ExpectedString })
    );
    let tokens = vec![ident("source"), literal("\"unterminated")];
    assert_eq!(
        QueryMacroInput::parse(&tokens),
        Err(Error::Syntax { span: Span::Token(1), problem: SyntaxProblem::ExpectedString })
    );
    // in an array and in a type, a C string is a literal like any other
    let tokens = vec![
        ident("source"),
        literal("\"x\""),
        comma(),
        ident("args"),
        group("[c\"x\", b'a', 'c', 1.5e3, -7, br\"y\", 0x1F_u8]"),
    ];
    assert_eq!(QueryMacroInput::parse(&tokens).unwrap().arg_exprs.len(), 7);
    let tokens = vec![
        ident("source"),
        literal("\"x\""),
        comma(),
        ident("record_type"),
        group("[u8; c\"x\"]"),
    ];
    assert!(QueryMacroInput::parse(&tokens).is_ok());
}
