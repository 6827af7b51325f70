//! JSON values, as the offline cache reads and writes them.

use vstd::prelude::*;
use crate::text::opt_text;

verus! {

/// A JSON value.
#[derive(Debug, PartialEq, Eq)]
pub enum Json {
    Null,
    Bool(bool),
    /// A number, as JSON text.
    Number(String),
    String(String),
    Array(Vec<Json>),
    /// The members of an object, each with its name.
    Object(Vec<(String, Json)>),
}

/// A `Json`, with each string as the sequence of its characters.
pub ghost enum JsonView {
    Null,
    Bool(bool),
    Number(Seq<char>),
    String(Seq<char>),
    Array(Seq<JsonView>),
    Object(Seq<(Seq<char>, JsonView)>),
}

/// A JSON value by its characters.
pub open spec fn json_view(json: Json) -> JsonView
    decreases json,
{
    match json {
        Json::Null => JsonView::Null,
        Json::Bool(b) => JsonView::Bool(b),
        Json::Number(n) => JsonView::Number(n@),
        Json::String(s) => JsonView::String(s@),
        Json::Array(items) => JsonView::Array(
            Seq::new(
                items@.len(),
                |i: int|
                    if 0 <= i < items@.len() {
                        json_view(items@[i])
                    } else {
                        JsonView::Null
                    },
            ),
        ),
        Json::Object(members) => JsonView::Object(
            Seq::new(
                members@.len(),
                |i: int|
                    if 0 <= i < members@.len() {
                        (members@[i].0@, json_view(members@[i].1))
                    } else {
                        (Seq::empty(), JsonView::Null)
                    },
            ),
        ),
    }
}

/// The items of an array, each by its characters.
pub open spec fn items_view(items: Seq<Json>) -> Seq<JsonView> {
    Seq::new(items.len(), |i: int| json_view(items[i]))
}

/// The members of an object, each by its characters.
pub open spec fn members_view(members: Seq<(String, Json)>) -> Seq<(Seq<char>, JsonView)> {
    Seq::new(members.len(), |i: int| (members[i].0@, json_view(members[i].1)))
}

/// An array is its items, and an object its members.
pub proof fn lemma_json_view(json: Json)
    ensures
        json matches Json::Array(items) ==> json@ == JsonView::Array(items_view(items@)),
        json matches Json::Object(members) ==> json@ == JsonView::Object(members_view(members@)),
{
    match json {
        Json::Array(items) => {
            assert(json@->Array_0 =~= items_view(items@));
        },
        Json::Object(members) => {
            assert(json@->Object_0 =~= members_view(members@));
        },
        _ => {},
    }
}

impl View for Json {
    type V = JsonView;

    open spec fn view(&self) -> JsonView {
        json_view(*self)
    }
}

/// The value that `text` is as JSON, or the reason why it is none.
pub uninterp spec fn json_of(text: Seq<char>) -> Result<JsonView, Seq<char>>;

/// The JSON text of a value, if the value can be written: a number must be
/// a JSON number.
pub uninterp spec fn json_text(json: JsonView) -> Option<Seq<char>>;

/// A JSON value or the reason of the failure, by its characters.
pub open spec fn json_result_view(r: Result<Json, String>) -> Result<JsonView, Seq<char>> {
    match r {
        Ok(json) => Ok(json@),
        Err(reason) => Err(reason@),
    }
}

/// `serde_json::Value`, which the conversions below take and give.
#[verifier::external_type_specification]
#[verifier::external_body]
pub struct ExValue(serde_json::Value);

/// Copies a `serde_json::Value` into a `Json`, variant by variant; a number
/// is written out with its `Display`. Only `parse_json` calls it, on what
/// `serde_json` has read. Nothing is stated of the result.
#[verifier::external_body]
fn from_value(value: serde_json::Value) -> Json {
    match value {
        serde_json::Value::Null => Json::Null,
        serde_json::Value::Bool(b) => Json::Bool(b),
        serde_json::Value::Number(n) => Json::Number(n.to_string()),
        serde_json::Value::String(s) => Json::String(s),
        serde_json::Value::Array(items) => Json::Array(items.into_iter().map(from_value).collect()),
        serde_json::Value::Object(members) => Json::Object(
            members.into_iter().map(|(name, value)| (name, from_value(value))).collect(),
        ),
    }
}

/// Copies a `Json` into a `serde_json::Value`, variant by variant; a number
/// is read with `serde_json::Number`'s `FromStr`, and `None` stands for its
/// error. Only `write_json` calls it, on what `serde_json` is to write.
/// Nothing is stated of the result.
#[verifier::external_body]
fn to_value(json: &Json) -> Option<serde_json::Value> {
    Some(
        match json {
            Json::Null => serde_json::Value::Null,
            Json::Bool(b) => serde_json::Value::Bool(*b),
            Json::Number(n) => serde_json::Value::Number(n.parse().ok()?),
            Json::String(s) => serde_json::Value::String(s.clone()),
            Json::Array(items) => serde_json::Value::Array(
                items.iter().map(to_value).collect::<Option<_>>()?,
            ),
            Json::Object(members) => serde_json::Value::Object(
                members.iter().map(|m| Some((m.0.clone(), to_value(&m.1)?))).collect::<Option<_>>()?,
            ),
        },
    )
}

/// Reads `text` with `serde_json::from_str::<serde_json::Value>`; on
/// failure, the text of the `serde_json::Error`. `serde_json` is built to
/// keep the members of an object in the order of the text. The contract
/// only names the result, which depends on `text` alone.
#[verifier::external_body]
pub(crate) fn parse_json(text: &str) -> (r: Result<Json, String>)
    ensures
        json_result_view(r) == json_of(text@),
{
    match serde_json::from_str::<serde_json::Value>(text) {
        Ok(value) => Ok(from_value(value)),
        Err(e) => Err(e.to_string()),
    }
}

/// Writes a value with `serde_json::to_string`; `None` stands for its
/// error, and for a number that is no JSON number. `serde_json` is built to
/// write the members of an object in the order given. The contract only
/// names the result, which depends on the value alone.
#[verifier::external_body]
pub(crate) fn write_json(json: &Json) -> (text: Option<String>)
    ensures
        opt_text(text) == json_text(json@),
{
    match to_value(json) {
        Some(value) => serde_json::to_string(&value).ok(),
        None => None,
    }
}

} // verus!
