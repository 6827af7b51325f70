use query_macros::describe::{
    describe_query, input_type, output, Column, Describe, ParamType, QueryData, TypeInfo,
};
use query_macros::error::{DisplayColumn, Error, SchemaProblem, Span};
use query_macros::input::QueryMacroInput;
use query_macros::token::{Token, TokenKind};

fn int_type() -> TypeInfo {
    TypeInfo { display: "INT4".to_string(), rust_type: Some("i32".to_string()), feature_gate: None }
}

fn column(name: Option<&str>, type_info: Option<TypeInfo>, non_null: Option<bool>) -> Column {
    Column { name: name.map(|n| n.to_string()), type_info, non_null }
}

fn param(mapped: Option<&str>) -> Option<ParamType> {
    Some(ParamType { rust_type: mapped.map(|m| m.to_string()) })
}

fn input_with_args(source: &str, args: &str) -> QueryMacroInput {
    let tokens = vec![
        Token { kind: TokenKind::Ident, text: "source".to_string(), joint: false },
        Token { kind: TokenKind::Literal, text: format!("{:?}", source), joint: false },
        Token { kind: TokenKind::Punct, text: ",".to_string(), joint: false },
        Token { kind: TokenKind::Ident, text: "args".to_string(), joint: false },
        Token { kind: TokenKind::Group, text: args.to_string(), joint: false },
    ];
    QueryMacroInput::parse(&tokens).unwrap()
}

#[test]
fn arity_mismatch() {
    let input = input_with_args("SELECT $1, $2", "[a]");
    let describe = Describe {
        param_types: vec![param(Some("i32")), param(Some("i32"))],
        result_columns: vec![],
    };
    let err = input.describe_validate(Ok(describe)).unwrap_err();
    assert_eq!(err, Error::Validation { expected: 2, actual: 1 });
    assert_eq!(err.message(), "expected 2 parameters, got 1");
    assert_eq!(err.span(), Span::CallSite);
}

#[test]
fn arity_match_hands_the_description_on() {
    let input = input_with_args("SELECT $1, $2", "[a, b]");
    let describe = Describe {
        param_types: vec![param(Some("i32")), None],
        result_columns: vec![column(Some("id"), Some(int_type()), Some(true))],
    };
    assert_eq!(input.describe_validate(Ok(describe.clone())), Ok(describe));
}

#[test]
fn arity_counts_only() {
    let input = input_with_args("SELECT 1", "[]");
    let describe = Describe { param_types: vec![], result_columns: vec![] };
    assert_eq!(input.describe_validate(Ok(describe.clone())), Ok(describe));
    let describe = Describe { param_types: vec![None], result_columns: vec![] };
    let err = input.describe_validate(Ok(describe)).unwrap_err();
    assert_eq!(err.message(), "expected 1 parameters, got 0");
}

#[test]
fn failed_description_points_at_the_source() {
    let input = input_with_args("SELEC", "[]");
    let err = input.describe_validate(Err("syntax error at or near \"SELEC\"".to_string())).unwrap_err();
    assert_eq!(
        err,
        Error::Describe {
            span: Span::Token(1),
            reason: "syntax error at or near \"SELEC\"".to_string()
        }
    );
    assert_eq!(err.message(), "syntax error at or near \"SELEC\"");
    assert_eq!(err.span(), Span::Token(1));
}

#[test]
fn unnamed_column() {
    let describe = Describe {
        param_types: vec![],
        result_columns: vec![column(None, Some(int_type()), Some(true))],
    };
    let err = describe_query(&describe, "SELECT 1").unwrap_err();
    assert_eq!(err, Error::Schema { problem: SchemaProblem::UnnamedColumn { idx: 0 } });
    assert_eq!(err.message(), "column at position 1 must have a name");
    let late = SchemaProblem::UnnamedColumn { idx: 41 };
    assert_eq!(late.message(), "column at position 42 must have a name");
}

#[test]
fn nullability() {
    assert_eq!(
        output(0, &column(Some("n"), Some(int_type()), Some(false))),
        Ok(("n".to_string(), "Option<i32>".to_string()))
    );
    assert_eq!(
        output(0, &column(Some("n"), Some(int_type()), Some(true))),
        Ok(("n".to_string(), "i32".to_string()))
    );
    assert_eq!(
        output(0, &column(Some("n"), Some(int_type()), None)),
        Ok(("n".to_string(), "Option<i32>".to_string()))
    );
}

#[test]
fn parameters_map_by_position() {
    let describe = Describe {
        param_types: vec![param(Some("i64")), None, param(None), param(Some("String"))],
        result_columns: vec![],
    };
    let data = describe_query(&describe, "INSERT INTO t VALUES ($1, $2, $3, $4)").unwrap();
    assert_eq!(
        data,
        QueryData {
            query: "INSERT INTO t VALUES ($1, $2, $3, $4)".to_string(),
            input_types: vec![Some("i64".to_string()), None, None, Some("String".to_string())],
            outputs: vec![],
        }
    );
    assert_eq!(input_type(&None), None);
    assert_eq!(input_type(&param(None)), None);
    assert_eq!(input_type(&param(Some("bool"))), Some("bool".to_string()));
}

#[test]
fn outputs_keep_the_backend_order() {
    let text = TypeInfo {
        display: "TEXT".to_string(),
        rust_type: Some("String".to_string()),
        feature_gate: None,
    };
    let describe = Describe {
        param_types: vec![],
        result_columns: vec![
            column(Some("b"), Some(text.clone()), Some(true)),
            column(Some("a"), Some(int_type()), None),
            column(Some("b"), Some(text), Some(false)),
        ],
    };
    let data = describe_query(&describe, "SELECT b, a, b FROM t").unwrap();
    assert_eq!(
        data.outputs,
        vec![
            ("b".to_string(), "String".to_string()),
            ("a".to_string(), "Option<i32>".to_string()),
            ("b".to_string(), "Option<String>".to_string()),
        ]
    );
    assert_eq!(data.query, "SELECT b, a, b FROM t");
    assert!(data.input_types.is_empty());
}

#[test]
fn untyped_column() {
    let describe = Describe {
        param_types: vec![],
        result_columns: vec![
            column(Some("id"), Some(int_type()), Some(true)),
            column(Some("total"), None, None),
        ],
    };
    let err = describe_query(&describe, "SELECT id, 1 + 1 AS total FROM t").unwrap_err();
    assert_eq!(
        err,
        Error::Schema {
            problem: SchemaProblem::UntypedColumn {
                column: DisplayColumn { idx: 1, name: Some("total".to_string()) }
            }
        }
    );
    assert_eq!(
        err.message(),
        "database couldn't tell us the type of column #2 (\"total\"); \
         this can happen for columns that are the result of an expression"
    );
}

#[test]
fn type_behind_a_feature() {
    let info = TypeInfo {
        display: "TIMESTAMPTZ".to_string(),
        rust_type: None,
        feature_gate: Some("chrono".to_string()),
    };
    let err = output(2, &column(Some("at"), Some(info), Some(true))).unwrap_err();
    assert_eq!(
        err,
        SchemaProblem::MissingFeature {
            feature: "chrono".to_string(),
            sql_type: "TIMESTAMPTZ".to_string(),
            column: DisplayColumn { idx: 2, name: Some("at".to_string()) },
        }
    );
    assert_eq!(
        err.message(),
        "optional feature `chrono` required for type TIMESTAMPTZ of column #3 (\"at\")"
    );
}

#[test]
fn unsupported_type() {
    let info = TypeInfo { display: "POINT".to_string(), rust_type: None, feature_gate: None };
    let err = output(0, &column(Some("p"), Some(info), Some(true))).unwrap_err();
    assert_eq!(
        err,
        SchemaProblem::UnsupportedType {
            sql_type: "POINT".to_string(),
            column: DisplayColumn { idx: 0, name: Some("p".to_string()) },
        }
    );
    assert_eq!(err.message(), "unsupported type POINT of column #1 (\"p\")");
}

#[test]
fn first_problem_is_reported_and_nothing_else() {
    let describe = Describe {
        param_types: vec![param(Some("i32"))],
        result_columns: vec![
            column(Some("ok"), Some(int_type()), Some(true)),
            column(None, None, None),
            column(Some("late"), None, None),
        ],
    };
    assert_eq!(
        describe_query(&describe, "q"),
        Err(Error::Schema { problem: SchemaProblem::UnnamedColumn { idx: 1 } })
    );
}

#[test]
fn display_column() {
    assert_eq!(DisplayColumn { idx: 0, name: None }.to_string(), "column #1");
    assert_eq!(DisplayColumn { idx: 9, name: None }.to_string(), "column #10");
    assert_eq!(
        DisplayColumn { idx: 2, name: Some("a \"b\"\n".to_string()) }.to_string(),
        "column #3 (\"a \\\"b\\\"\\n\")"
    );
    assert_eq!(
        DisplayColumn { idx: usize::MAX, name: None }.to_string(),
        format!("column #{}", usize::MAX as u128 + 1)
    );
}
