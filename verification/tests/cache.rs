use query_macros::cache::CacheProblem;
use query_macros::describe::QueryData;
use query_macros::error::Error;
use query_macros::json::Json;

fn sample() -> QueryData {
    QueryData {
        query: "SELECT id, \"name\" FROM users WHERE id = $1\n".to_string(),
        input_types: vec![Some("i64".to_string()), None],
        outputs: vec![
            ("id".to_string(), "i64".to_string()),
            ("name".to_string(), "Option<String>".to_string()),
        ],
    }
}

fn s(text: &str) -> Json {
    Json::String(text.to_string())
}

#[test]
fn round_trip() {
    let data = sample();
    let text = data.to_file("sqlx-data.json").unwrap();
    assert_eq!(QueryData::from_file("sqlx-data.json", Ok(text)), Ok(data));
}

#[test]
fn round_trip_of_edge_cases() {
    let empty = QueryData { query: String::new(), input_types: vec![], outputs: vec![] };
    let text = empty.to_file("c.json").unwrap();
    assert_eq!(text, "{\"query\":\"\",\"input_types\":[],\"outputs\":[]}");
    assert_eq!(QueryData::from_contents("c.json", &text), Ok(empty));
    let odd = QueryData {
        query: "\u{0}\t\\ \u{1F600} \u{7f} é".to_string(),
        input_types: vec![None, None, Some(String::new())],
        outputs: vec![(String::new(), String::new()), ("a".to_string(), "a".to_string())],
    };
    let text = odd.to_file("c.json").unwrap();
    assert_eq!(QueryData::from_contents("c.json", &text), Ok(odd));
}

#[test]
fn written_text_is_stable() {
    let text = sample().to_file("c.json").unwrap();
    assert_eq!(
        text,
        "{\"query\":\"SELECT id, \\\"name\\\" FROM users WHERE id = $1\\n\",\
         \"input_types\":[\"i64\",null],\
         \"outputs\":[[\"id\",\"i64\"],[\"name\",\"Option<String>\"]]}"
    );
    assert_eq!(sample().to_file("other.json").unwrap(), text);
}

#[test]
fn json_value_of_a_descriptor() {
    assert_eq!(
        sample().to_json(),
        Json::Object(vec![
            (
                "query".to_string(),
                s("SELECT id, \"name\" FROM users WHERE id = $1\n")
            ),
            ("input_types".to_string(), Json::Array(vec![s("i64"), Json::Null])),
            (
                "outputs".to_string(),
                Json::Array(vec![
                    Json::Array(vec![s("id"), s("i64")]),
                    Json::Array(vec![s("name"), s("Option<String>")]),
                ])
            ),
        ])
    );
    assert_eq!(QueryData::from_json(&sample().to_json()), Ok(sample()));
}

#[test]
fn members_are_found_by_name() {
    let text = "{ \"query\": \"SELECT 1\", \"note\": 5, \"outputs\": [[\"a\", \"i32\"]], \
                \"input_types\": [null] }";
    assert_eq!(
        QueryData::from_contents("c.json", text),
        Ok(QueryData {
            query: "SELECT 1".to_string(),
            input_types: vec![None],
            outputs: vec![("a".to_string(), "i32".to_string())],
        })
    );
}

#[test]
fn malformed_content() {
    let err = QueryData::from_contents("c.json", "{\"query\": ").unwrap_err();
    assert_eq!(
        err,
        Error::CacheRead {
            path: "c.json".to_string(),
            reason: "EOF while parsing a value at line 1 column 10".to_string()
        }
    );
    assert_eq!(
        err.message(),
        "failed to read path \"c.json\": EOF while parsing a value at line 1 column 10"
    );
    assert!(QueryData::from_contents("c.json", "").is_err());
    assert!(QueryData::from_contents("c.json", "{} trailing").is_err());
}

#[test]
fn wrong_shapes() {
    let read = |text: &str| match QueryData::from_contents("c.json", text) {
        Err(Error::CacheRead { path, reason }) => {
            assert_eq!(path, "c.json");
            reason
        }
        other => panic!("unexpected: {:?}", other),
    };
    assert_eq!(read("[1, 2]"), "expected a JSON object");
    assert_eq!(read("null"), "expected a JSON object");
    assert_eq!(read("{}"), "missing or invalid member `query`");
    assert_eq!(
        read("{\"query\": 1, \"input_types\": [], \"outputs\": []}"),
        "missing or invalid member `query`"
    );
    assert_eq!(
        read("{\"query\": \"q\", \"outputs\": []}"),
        "missing or invalid member `input_types`"
    );
    assert_eq!(
        read("{\"query\": \"q\", \"input_types\": [1], \"outputs\": []}"),
        "missing or invalid member `input_types`"
    );
    assert_eq!(
        read("{\"query\": \"q\", \"input_types\": [\"a\", true], \"outputs\": []}"),
        "missing or invalid member `input_types`"
    );
    assert_eq!(
        read("{\"query\": \"q\", \"input_types\": []}"),
        "missing or invalid member `outputs`"
    );
    assert_eq!(
        read("{\"query\": \"q\", \"input_types\": [], \"outputs\": [[\"a\"]]}"),
        "missing or invalid member `outputs`"
    );
    assert_eq!(
        read("{\"query\": \"q\", \"input_types\": [], \"outputs\": [[\"a\", \"b\", \"c\"]]}"),
        "missing or invalid member `outputs`"
    );
    assert_eq!(
        read("{\"query\": \"q\", \"input_types\": [], \"outputs\": [[\"a\", null]]}"),
        "missing or invalid member `outputs`"
    );
    assert_eq!(
        read("{\"query\": \"q\", \"input_types\": [], \"outputs\": {\"a\": \"b\"}}"),
        "missing or invalid member `outputs`"
    );
}

#[test]
fn from_json_names_the_problem() {
    assert_eq!(QueryData::from_json(&Json::Null), Err(CacheProblem::NotAnObject));
    assert_eq!(QueryData::from_json(&Json::Array(vec![])), Err(CacheProblem::NotAnObject));
    assert_eq!(QueryData::from_json(&Json::Object(vec![])), Err(CacheProblem::Query));
    let json = Json::Object(vec![
        ("query".to_string(), s("q")),
        ("input_types".to_string(), Json::Array(vec![Json::Number("1".to_string())])),
        ("outputs".to_string(), Json::Array(vec![])),
    ]);
    assert_eq!(QueryData::from_json(&json), Err(CacheProblem::InputTypes));
    let json = Json::Object(vec![
        ("query".to_string(), s("q")),
        ("input_types".to_string(), Json::Array(vec![])),
        ("outputs".to_string(), Json::Array(vec![Json::Bool(true)])),
    ]);
    assert_eq!(QueryData::from_json(&json), Err(CacheProblem::Outputs));
    // the first member of a name counts
    let json = Json::Object(vec![
        ("query".to_string(), s("first")),
        ("query".to_string(), Json::Null),
        ("input_types".to_string(), Json::Array(vec![])),
        ("outputs".to_string(), Json::Array(vec![])),
    ]);
    assert_eq!(QueryData::from_json(&json).unwrap().query, "first");
}

#[test]
fn missing_cache_file() {
    let err = QueryData::from_file(
        "sqlx-data.json",
        Err("No such file or directory (os error 2)".to_string()),
    )
    .unwrap_err();
    assert_eq!(
        err,
        Error::CacheRead {
            path: "sqlx-data.json".to_string(),
            reason: "No such file or directory (os error 2)".to_string(),
        }
    );
}

#[test]
fn outcome_of_writing() {
    assert_eq!(QueryData::written("c.json", Ok(())), Ok(()));
    assert_eq!(
        QueryData::written("c.json", Err("Permission denied".to_string())),
        Err(Error::CacheWrite { path: "c.json".to_string(), reason: "Permission denied".to_string() })
    );
}

#[test]
fn members_in_another_order_are_read_alike() {
    let sorted = "{\"input_types\":[\"i64\",null],\
                  \"outputs\":[[\"id\",\"i64\"],[\"name\",\"Option<String>\"]],\
                  \"query\":\"SELECT id, \\\"name\\\" FROM users WHERE id = $1\\n\"}";
    assert_eq!(QueryData::from_contents("c.json", sorted), Ok(sample()));
}

#[test]
fn cache_failures_as_messages() {
    let err = Error::CacheRead {
        path: "sqlx-data.json".to_string(),
        reason: "No such file or directory (os error 2)".to_string(),
    };
    assert_eq!(
        err.message(),
        "failed to read path \"sqlx-data.json\": No such file or directory (os error 2)"
    );
    let err = Error::CacheWrite {
        path: "out/sqlx data.json".to_string(),
        reason: "Permission denied".to_string(),
    };
    assert_eq!(err.message(), "failed to write path \"out/sqlx data.json\": Permission denied");
    assert_eq!(CacheProblem::Unwritable.message(), "the descriptor cannot be written as JSON");
    assert_eq!(CacheProblem::Unreadable.message(), "the written descriptor does not read back");
}

#[test]
fn descriptors_compare_by_content() {
    let a = sample();
    let mut b = sample();
    assert!(a.same_as(&b));
    b.input_types[1] = Some("i32".to_string());
    assert!(!a.same_as(&b));
    let mut c = sample();
    c.outputs[1].1 = "String".to_string();
    assert!(!a.same_as(&c));
    let mut d = sample();
    d.query.push(' ');
    assert!(!a.same_as(&d));
    let mut e = sample();
    e.outputs.pop();
    assert!(!a.same_as(&e));
}
