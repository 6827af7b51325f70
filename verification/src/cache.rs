//! The offline cache: a descriptor as a JSON object with the members
//! `query` (a string), `input_types` (an array of strings and nulls) and
//! `outputs` (an array of pairs of strings).

use vstd::prelude::*;
use crate::describe::{outcome_view, QueryData, QueryDataView};
use crate::error::{Error, ErrorView};
use crate::json::{
    items_view, json_of, json_text, lemma_json_view, members_view, parse_json, write_json, Json,
    JsonView,
};
use crate::text::{opt_text, pair_text, str_eq};

verus! {

/// Why a JSON value is no descriptor.
#[derive(Clone, Copy, Debug, PartialEq, Eq, Structural)]
pub enum CacheProblem {
    /// The value is no object.
    NotAnObject,
    /// The member `query` is missing or no string.
    Query,
    /// The member `input_types` is missing or no array of strings and nulls.
    InputTypes,
    /// The member `outputs` is missing or no array of pairs of strings.
    Outputs,
    /// The descriptor cannot be written as JSON.
    Unwritable,
    /// The text written for the descriptor does not read back as it.
    Unreadable,
}

impl CacheProblem {
    /// The message that the problem is reported with.
    pub open spec fn message_text(self) -> Seq<char> {
        match self {
            CacheProblem::NotAnObject => "expected a JSON object"@,
            CacheProblem::Query => "missing or invalid member `query`"@,
            CacheProblem::InputTypes => "missing or invalid member `input_types`"@,
            CacheProblem::Outputs => "missing or invalid member `outputs`"@,
            CacheProblem::Unwritable => "the descriptor cannot be written as JSON"@,
            CacheProblem::Unreadable => "the written descriptor does not read back"@,
        }
    }

    /// The message that the problem is reported with.
    pub fn message(self) -> (text: &'static str)
        ensures
            text@ == self.message_text(),
    {
        match self {
            CacheProblem::NotAnObject => "expected a JSON object",
            CacheProblem::Query => "missing or invalid member `query`",
            CacheProblem::InputTypes => "missing or invalid member `input_types`",
            CacheProblem::Outputs => "missing or invalid member `outputs`",
            CacheProblem::Unwritable => "the descriptor cannot be written as JSON",
            CacheProblem::Unreadable => "the written descriptor does not read back",
        }
    }
}

/// The JSON value of a parameter's type name.
pub open spec fn encode_input(t: Option<Seq<char>>) -> JsonView {
    match t {
        Some(name) => JsonView::String(name),
        None => JsonView::Null,
    }
}

/// The JSON value of a result column: its name, then its type name.
pub open spec fn encode_output(o: (Seq<char>, Seq<char>)) -> JsonView {
    JsonView::Array(seq![JsonView::String(o.0), JsonView::String(o.1)])
}

/// The JSON value of a descriptor.
pub open spec fn encode(d: QueryDataView) -> JsonView {
    JsonView::Object(
        seq![
            ("query"@, JsonView::String(d.query)),
            (
                "input_types"@,
                JsonView::Array(d.input_types.map_values(|t: Option<Seq<char>>| encode_input(t))),
            ),
            (
                "outputs"@,
                JsonView::Array(
                    d.outputs.map_values(|o: (Seq<char>, Seq<char>)| encode_output(o)),
                ),
            ),
        ],
    )
}

/// The first member with the given name among those from `from` on.
pub open spec fn member_from(members: Seq<(Seq<char>, JsonView)>, name: Seq<char>, from: int) -> Option<
    JsonView,
>
    decreases members.len() - from,
{
    if from < 0 || from >= members.len() {
        None
    } else if members[from].0 == name {
        Some(members[from].1)
    } else {
        member_from(members, name, from + 1)
    }
}

/// The first member with the given name.
pub open spec fn member(members: Seq<(Seq<char>, JsonView)>, name: Seq<char>) -> Option<JsonView> {
    member_from(members, name, 0)
}

/// The type name of a parameter that a JSON value stands for: a string for
/// a name, null for none.
pub open spec fn decode_input(json: JsonView) -> Option<Option<Seq<char>>> {
    match json {
        JsonView::String(name) => Some(Some(name)),
        JsonView::Null => Some(None),
        _ => None,
    }
}

/// The result column that a JSON value stands for: an array of exactly two
/// strings, the name and the type name.
pub open spec fn decode_output(json: JsonView) -> Option<(Seq<char>, Seq<char>)> {
    match json {
        JsonView::Array(pair) => if pair.len() == 2 {
            match (pair[0], pair[1]) {
                (JsonView::String(name), JsonView::String(ty)) => Some((name, ty)),
                _ => None,
            }
        } else {
            None
        },
        _ => None,
    }
}

/// The type names that the first `n` items stand for, if each stands for one.
pub open spec fn decode_inputs(items: Seq<JsonView>, n: nat) -> Option<Seq<Option<Seq<char>>>>
    decreases n,
{
    if n == 0 {
        Some(Seq::empty())
    } else {
        match (decode_inputs(items, (n - 1) as nat), decode_input(items[n - 1])) {
            (Some(before), Some(t)) => Some(before.push(t)),
            _ => None,
        }
    }
}

/// The result columns that the first `n` items stand for, if each stands
/// for one.
pub open spec fn decode_outputs(items: Seq<JsonView>, n: nat) -> Option<
    Seq<(Seq<char>, Seq<char>)>,
>
    decreases n,
{
    if n == 0 {
        Some(Seq::empty())
    } else {
        match (decode_outputs(items, (n - 1) as nat), decode_output(items[n - 1])) {
            (Some(before), Some(o)) => Some(before.push(o)),
            _ => None,
        }
    }
}

/// The query text that the members of an object hold.
pub open spec fn decode_query(members: Seq<(Seq<char>, JsonView)>) -> Option<Seq<char>> {
    match member(members, "query"@) {
        Some(JsonView::String(query)) => Some(query),
        _ => None,
    }
}

/// The parameter types that the members of an object hold.
pub open spec fn decode_input_types(members: Seq<(Seq<char>, JsonView)>) -> Option<
    Seq<Option<Seq<char>>>,
> {
    match member(members, "input_types"@) {
        Some(JsonView::Array(items)) => decode_inputs(items, items.len()),
        _ => None,
    }
}

/// The result columns that the members of an object hold.
pub open spec fn decode_output_list(members: Seq<(Seq<char>, JsonView)>) -> Option<
    Seq<(Seq<char>, Seq<char>)>,
> {
    match member(members, "outputs"@) {
        Some(JsonView::Array(items)) => decode_outputs(items, items.len()),
        _ => None,
    }
}

/// The descriptor that a JSON value stands for, or why it stands for none.
/// Members are found by name, whatever their order; members with other
/// names are passed over.
pub open spec fn decode(json: JsonView) -> Result<QueryDataView, CacheProblem> {
    match json {
        JsonView::Object(members) => match decode_query(members) {
            None => Err(CacheProblem::Query),
            Some(query) => match decode_input_types(members) {
                None => Err(CacheProblem::InputTypes),
                Some(input_types) => match decode_output_list(members) {
                    None => Err(CacheProblem::Outputs),
                    Some(outputs) => Ok(QueryDataView { query, input_types, outputs }),
                },
            },
        },
        _ => Err(CacheProblem::NotAnObject),
    }
}

/// The failure to read the cache file at `path` for the given reason.
pub open spec fn read_failure(path: Seq<char>, reason: Seq<char>) -> ErrorView {
    ErrorView::CacheRead { path, reason }
}

/// The descriptor that the contents of the cache file at `path` stand for.
pub open spec fn from_file_spec(
    path: Seq<char>,
    parsed: Result<JsonView, Seq<char>>,
) -> Result<QueryDataView, ErrorView> {
    match parsed {
        Err(reason) => Err(read_failure(path, reason)),
        Ok(json) => match decode(json) {
            Ok(data) => Ok(data),
            Err(problem) => Err(read_failure(path, problem.message_text())),
        },
    }
}

/// The failure to write the cache file at `path` for the given reason.
pub open spec fn write_failure(path: Seq<char>, problem: CacheProblem) -> ErrorView {
    ErrorView::CacheWrite { path, reason: problem.message_text() }
}

/// Whether `text` reads back as the descriptor `d`.
pub open spec fn reads_back(text: Seq<char>, d: QueryDataView) -> bool {
    json_of(text) matches Ok(json) && decode(json) == Ok::<QueryDataView, CacheProblem>(d)
}

/// The contents of the cache file at `path` for the descriptor `d`: its
/// JSON text, provided that the text reads back as `d`.
pub open spec fn to_file_spec(path: Seq<char>, d: QueryDataView) -> Result<Seq<char>, ErrorView> {
    match json_text(encode(d)) {
        None => Err(write_failure(path, CacheProblem::Unwritable)),
        Some(text) => if reads_back(text, d) {
            Ok(text)
        } else {
            Err(write_failure(path, CacheProblem::Unreadable))
        },
    }
}

/// A text or the failure that a call ended in, by its characters.
pub open spec fn written_view(r: Result<String, Error>) -> Result<Seq<char>, ErrorView> {
    match r {
        Ok(text) => Ok(text@),
        Err(e) => Err(e@),
    }
}

/// A descriptor or the problem that a call ended in, by its characters.
pub open spec fn decoded_view(r: Result<QueryData, CacheProblem>) -> Result<
    QueryDataView,
    CacheProblem,
> {
    match r {
        Ok(data) => Ok(data@),
        Err(problem) => Err(problem),
    }
}

/// Finds the first member with the given name.
pub fn find_member<'a>(members: &'a Vec<(String, Json)>, name: &str) -> (found: Option<&'a Json>)
    ensures
        match found {
            Some(json) => member(members_view(members@), name@) == Some(json@),
            None => member(members_view(members@), name@) is None,
        },
{
    let mut i: usize = 0;
    while i < members.len()
        invariant
            i <= members.len(),
            member(members_view(members@), name@) == member_from(
                members_view(members@),
                name@,
                i as int,
            ),
        decreases members.len() - i,
    {
        if str_eq(members[i].0.as_str(), name) {
            return Some(&members[i].1);
        }
        i += 1;
    }
    None
}

/// Reads the type names of the parameters from the items of an array.
pub fn read_inputs(items: &Vec<Json>) -> (r: Option<Vec<Option<String>>>)
    ensures
        match r {
            Some(types) => decode_inputs(items_view(items@), items@.len()) == Some(
                types@.map_values(|t: Option<String>| opt_text(t)),
            ),
            None => decode_inputs(items_view(items@), items@.len()) is None,
        },
{
    let mut types: Vec<Option<String>> = Vec::new();
    let mut i: usize = 0;
    proof {
        assert(types@.map_values(|t: Option<String>| opt_text(t)) =~= Seq::empty());
    }
    while i < items.len()
        invariant
            i <= items.len(),
            decode_inputs(items_view(items@), i as nat) == Some(
                types@.map_values(|t: Option<String>| opt_text(t)),
            ),
        decreases items.len() - i,
    {
        let ghost before = types@.map_values(|t: Option<String>| opt_text(t));
        let t = match &items[i] {
            Json::String(name) => Some(name.clone()),
            Json::Null => None,
            _ => {
                proof {
                    lemma_inputs_stay_none(items_view(items@), (i + 1) as nat, items@.len());
                }
                return None;
            },
        };
        types.push(t);
        proof {
            assert(types@.map_values(|t: Option<String>| opt_text(t)) =~= before.push(opt_text(t)));
        }
        i += 1;
    }
    Some(types)
}

/// Reads one result column from a JSON value.
pub fn read_output(json: &Json) -> (r: Option<(String, String)>)
    ensures
        match r {
            Some(o) => decode_output(json@) == Some(pair_text(o)),
            None => decode_output(json@) is None,
        },
{
    proof {
        lemma_json_view(*json);
    }
    match json {
        Json::Array(pair) => {
            if pair.len() != 2 {
                return None;
            }
            match (&pair[0], &pair[1]) {
                (Json::String(name), Json::String(ty)) => Some((name.clone(), ty.clone())),
                _ => None,
            }
        },
        _ => None,
    }
}

/// Reads the result columns from the items of an array.
pub fn read_outputs(items: &Vec<Json>) -> (r: Option<Vec<(String, String)>>)
    ensures
        match r {
            Some(outputs) => decode_outputs(items_view(items@), items@.len()) == Some(
                outputs@.map_values(|o: (String, String)| pair_text(o)),
            ),
            None => decode_outputs(items_view(items@), items@.len()) is None,
        },
{
    let mut outputs: Vec<(String, String)> = Vec::new();
    let mut i: usize = 0;
    proof {
        assert(outputs@.map_values(|o: (String, String)| pair_text(o)) =~= Seq::empty());
    }
    while i < items.len()
        invariant
            i <= items.len(),
            decode_outputs(items_view(items@), i as nat) == Some(
                outputs@.map_values(|o: (String, String)| pair_text(o)),
            ),
        decreases items.len() - i,
    {
        let ghost before = outputs@.map_values(|o: (String, String)| pair_text(o));
        match read_output(&items[i]) {
            Some(o) => {
                outputs.push(o);
                proof {
                    assert(outputs@.map_values(|o: (String, String)| pair_text(o)) =~= before.push(
                        pair_text(o),
                    ));
                }
            },
            None => {
                proof {
                    lemma_outputs_stay_none(items_view(items@), (i + 1) as nat, items@.len());
                }
                return None;
            },
        }
        i += 1;
    }
    Some(outputs)
}

/// Once the first `n` items hold one that is no type name, taking more
/// items in changes nothing.
pub proof fn lemma_inputs_stay_none(items: Seq<JsonView>, n: nat, m: nat)
    requires
        n <= m,
        decode_inputs(items, n) is None,
    ensures
        decode_inputs(items, m) is None,
    decreases m,
{
    if n < m {
        lemma_inputs_stay_none(items, n, (m - 1) as nat);
    }
}

/// Once the first `n` items hold one that is no result column, taking more
/// items in changes nothing.
pub proof fn lemma_outputs_stay_none(items: Seq<JsonView>, n: nat, m: nat)
    requires
        n <= m,
        decode_outputs(items, n) is None,
    ensures
        decode_outputs(items, m) is None,
    decreases m,
{
    if n < m {
        lemma_outputs_stay_none(items, n, (m - 1) as nat);
    }
}

impl QueryData {
    /// The descriptor as a JSON value.
    pub fn to_json(&self) -> (json: Json)
        ensures
            json@ == encode(self@),
    {
        let mut inputs: Vec<Json> = Vec::new();
        let mut i: usize = 0;
        while i < self.input_types.len()
            invariant
                i <= self.input_types.len(),
                inputs@.len() == i,
                forall|k: int|
                    0 <= k < i ==> (#[trigger] inputs@[k])@ == encode_input(
                        opt_text(self.input_types@[k]),
                    ),
            decreases self.input_types.len() - i,
        {
            let item = match &self.input_types[i] {
                Some(name) => Json::String(name.clone()),
                None => Json::Null,
            };
            inputs.push(item);
            i += 1;
        }
        let mut outputs: Vec<Json> = Vec::new();
        let mut j: usize = 0;
        while j < self.outputs.len()
            invariant
                j <= self.outputs.len(),
                outputs@.len() == j,
                forall|k: int|
                    0 <= k < j ==> (#[trigger] outputs@[k])@ == encode_output(
                        pair_text(self.outputs@[k]),
                    ),
            decreases self.outputs.len() - j,
        {
            let mut pair: Vec<Json> = Vec::new();
            pair.push(Json::String(self.outputs[j].0.clone()));
            pair.push(Json::String(self.outputs[j].1.clone()));
            let item = Json::Array(pair);
            proof {
                lemma_json_view(item);
                assert(items_view(pair@) =~= seq![
                    JsonView::String(self.outputs@[j as int].0@),
                    JsonView::String(self.outputs@[j as int].1@),
                ]);
            }
            outputs.push(item);
            j += 1;
        }
        let inputs_json = Json::Array(inputs);
        let outputs_json = Json::Array(outputs);
        proof {
            lemma_json_view(inputs_json);
            lemma_json_view(outputs_json);
            assert(items_view(inputs@) =~= self@.input_types.map_values(
                |t: Option<Seq<char>>| encode_input(t),
            ));
            assert(items_view(outputs@) =~= self@.outputs.map_values(
                |o: (Seq<char>, Seq<char>)| encode_output(o),
            ));
        }
        let mut members: Vec<(String, Json)> = Vec::new();
        members.push(("query".to_owned(), Json::String(self.query.clone())));
        members.push(("input_types".to_owned(), inputs_json));
        members.push(("outputs".to_owned(), outputs_json));
        let json = Json::Object(members);
        proof {
            lemma_json_view(json);
            assert(members_view(members@) =~= encode(self@)->Object_0);
        }
        json
    }

    /// The descriptor that a JSON value stands for.
    pub fn from_json(json: &Json) -> (r: Result<QueryData, CacheProblem>)
        ensures
            decoded_view(r) == decode(json@),
    {
        proof {
            lemma_json_view(*json);
        }
        let members = match json {
            Json::Object(members) => members,
            _ => {
                return Err(CacheProblem::NotAnObject);
            },
        };
        let query = match find_member(members, "query") {
            Some(Json::String(query)) => query.clone(),
            _ => {
                return Err(CacheProblem::Query);
            },
        };
        let input_types = match find_member(members, "input_types") {
            Some(Json::Array(items)) => {
                proof {
                    lemma_json_view(Json::Array(*items));
                }
                match read_inputs(items) {
                    Some(types) => types,
                    None => {
                        return Err(CacheProblem::InputTypes);
                    },
                }
            },
            _ => {
                return Err(CacheProblem::InputTypes);
            },
        };
        let outputs = match find_member(members, "outputs") {
            Some(Json::Array(items)) => {
                proof {
                    lemma_json_view(Json::Array(*items));
                }
                match read_outputs(items) {
                    Some(outputs) => outputs,
                    None => {
                        return Err(CacheProblem::Outputs);
                    },
                }
            },
            _ => {
                return Err(CacheProblem::Outputs);
            },
        };
        Ok(QueryData { query, input_types, outputs })
    }

    /// Whether two descriptors hold the same query, parameter types and
    /// result columns.
    pub fn same_as(&self, other: &QueryData) -> (same: bool)
        ensures
            same == (self@ == other@),
    {
        if !str_eq(self.query.as_str(), other.query.as_str()) {
            return false;
        }
        if self.input_types.len() != other.input_types.len() {
            assert(self@.input_types.len() != other@.input_types.len());
            return false;
        }
        if self.outputs.len() != other.outputs.len() {
            assert(self@.outputs.len() != other@.outputs.len());
            return false;
        }
        let mut i: usize = 0;
        while i < self.input_types.len()
            invariant
                i <= self.input_types.len(),
                self.input_types.len() == other.input_types.len(),
                forall|k: int|
                    0 <= k < i ==> opt_text(#[trigger] self.input_types@[k]) == opt_text(
                        other.input_types@[k],
                    ),
            decreases self.input_types.len() - i,
        {
            let equal = match (&self.input_types[i], &other.input_types[i]) {
                (Some(a), Some(b)) => str_eq(a.as_str(), b.as_str()),
                (None, None) => true,
                _ => false,
            };
            if !equal {
                assert(self@.input_types[i as int] != other@.input_types[i as int]);
                return false;
            }
            i += 1;
        }
        let mut j: usize = 0;
        while j < self.outputs.len()
            invariant
                j <= self.outputs.len(),
                self.outputs.len() == other.outputs.len(),
                forall|k: int|
                    0 <= k < j ==> pair_text(#[trigger] self.outputs@[k]) == pair_text(
                        other.outputs@[k],
                    ),
            decreases self.outputs.len() - j,
        {
            let equal = str_eq(self.outputs[j].0.as_str(), other.outputs[j].0.as_str()) && str_eq(
                self.outputs[j].1.as_str(),
                other.outputs[j].1.as_str(),
            );
            if !equal {
                assert(self@.outputs[j as int] != other@.outputs[j as int]);
                return false;
            }
            j += 1;
        }
        assert(self@.input_types =~= other@.input_types);
        assert(self@.outputs =~= other@.outputs);
        true
    }

    /// The contents of the cache file at `path` for this descriptor.
    ///
    /// The text is read back before it is handed out, so that no cache file
    /// is written that would not give the descriptor again.
    pub fn to_file(&self, path: &str) -> (r: Result<String, Error>)
        ensures
            written_view(r) == to_file_spec(path@, self@),
            r matches Ok(text) ==> reads_back(text@, self@),
    {
        let json = self.to_json();
        let text = match write_json(&json) {
            Some(text) => text,
            None => {
                return Err(
                    Error::CacheWrite {
                        path: path.to_owned(),
                        reason: CacheProblem::Unwritable.message().to_owned(),
                    },
                );
            },
        };
        let read_back = match parse_json(text.as_str()) {
            Ok(back) => match QueryData::from_json(&back) {
                Ok(data) => self.same_as(&data),
                Err(_) => false,
            },
            Err(_) => false,
        };
        if read_back {
            Ok(text)
        } else {
            Err(
                Error::CacheWrite {
                    path: path.to_owned(),
                    reason: CacheProblem::Unreadable.message().to_owned(),
                },
            )
        }
    }

    /// What writing the cache file at `path` ended in, given what the file
    /// system answered: nothing, or the reason of the failure.
    pub fn written(path: &str, wrote: Result<(), String>) -> (r: Result<(), Error>)
        ensures
            match wrote {
                Ok(_) => r is Ok,
                Err(reason) => r matches Err(e) && e@ == (ErrorView::CacheWrite {
                    path: path@,
                    reason: reason@,
                }),
            },
    {
        match wrote {
            Ok(_) => Ok(()),
            Err(reason) => Err(Error::CacheWrite { path: path.to_owned(), reason }),
        }
    }

    /// The descriptor that a JSON value read from the cache file at `path`
    /// stands for. `parsed` is what reading the contents as JSON ended in.
    pub fn from_parsed(path: &str, parsed: Result<Json, String>) -> (r: Result<QueryData, Error>)
        ensures
            outcome_view(r) == from_file_spec(
                path@,
                match parsed {
                    Ok(json) => Ok(json@),
                    Err(reason) => Err(reason@),
                },
            ),
    {
        match parsed {
            Err(reason) => Err(Error::CacheRead { path: path.to_owned(), reason }),
            Ok(json) => match QueryData::from_json(&json) {
                Ok(data) => Ok(data),
                Err(problem) => Err(
                    Error::CacheRead { path: path.to_owned(), reason: problem.message().to_owned() },
                ),
            },
        }
    }

    /// The descriptor that the contents of the cache file at `path` stand for.
    pub fn from_contents(path: &str, contents: &str) -> (r: Result<QueryData, Error>)
        ensures
            outcome_view(r) == from_file_spec(path@, json_of(contents@)),
    {
        QueryData::from_parsed(path, parse_json(contents))
    }

    /// The descriptor in the cache file at `path`, given what reading the
    /// file ended in: its contents, or the reason of the failure.
    pub fn from_file(path: &str, read: Result<String, String>) -> (r: Result<QueryData, Error>)
        ensures
            outcome_view(r) == match read {
                Ok(contents) => from_file_spec(path@, json_of(contents@)),
                Err(reason) => Err(read_failure(path@, reason@)),
            },
    {
        match read {
            Ok(contents) => QueryData::from_contents(path, contents.as_str()),
            Err(reason) => Err(Error::CacheRead { path: path.to_owned(), reason }),
        }
    }
}

/// A descriptor's JSON value stands for the descriptor: decoding what
/// encoding gives returns the same query, parameter types and result
/// columns, in the same order.
pub proof fn lemma_decode_encode(d: QueryDataView)
    ensures
        decode(encode(d)) == Ok::<QueryDataView, CacheProblem>(d),
{
    lemma_member_names();
    let members = encode(d)->Object_0;
    assert(member_from(members, "query"@, 0) == Some(members[0].1));
    assert(member_from(members, "input_types"@, 1) == Some(members[1].1));
    assert(member_from(members, "outputs"@, 2) == Some(members[2].1));
    assert(member_from(members, "outputs"@, 1) == Some(members[2].1));
    lemma_decode_inputs(d.input_types, d.input_types.len());
    lemma_decode_outputs(d.outputs, d.outputs.len());
    assert(d.input_types.take(d.input_types.len() as int) =~= d.input_types);
    assert(d.outputs.take(d.outputs.len() as int) =~= d.outputs);
}

/// The same holds where the members stand in another order, here that of
/// their names: members are found by name.
pub proof fn lemma_decode_encode_sorted(d: QueryDataView)
    ensures
        decode(
            JsonView::Object(
                seq![encode(d)->Object_0[1], encode(d)->Object_0[2], encode(d)->Object_0[0]],
            ),
        ) == Ok::<QueryDataView, CacheProblem>(d),
{
    lemma_member_names();
    let members = seq![encode(d)->Object_0[1], encode(d)->Object_0[2], encode(d)->Object_0[0]];
    assert(member_from(members, "query"@, 2) == Some(members[2].1));
    assert(member_from(members, "query"@, 1) == Some(members[2].1));
    assert(member_from(members, "query"@, 0) == Some(members[2].1));
    assert(member_from(members, "input_types"@, 0) == Some(members[0].1));
    assert(member_from(members, "outputs"@, 1) == Some(members[1].1));
    assert(member_from(members, "outputs"@, 0) == Some(members[1].1));
    lemma_decode_inputs(d.input_types, d.input_types.len());
    lemma_decode_outputs(d.outputs, d.outputs.len());
    assert(d.input_types.take(d.input_types.len() as int) =~= d.input_types);
    assert(d.outputs.take(d.outputs.len() as int) =~= d.outputs);
}

/// The names of the three members differ from each other.
proof fn lemma_member_names()
    ensures
        "query"@ != "input_types"@,
        "query"@ != "outputs"@,
        "input_types"@ != "outputs"@,
{
    reveal_strlit("query");
    reveal_strlit("input_types");
    reveal_strlit("outputs");
    assert("query"@.len() == 5);
    assert("input_types"@.len() == 11);
    assert("outputs"@.len() == 7);
}

proof fn lemma_decode_inputs(types: Seq<Option<Seq<char>>>, n: nat)
    requires
        n <= types.len(),
    ensures
        decode_inputs(types.map_values(|t: Option<Seq<char>>| encode_input(t)), n) == Some(
            types.take(n as int),
        ),
    decreases n,
{
    if n == 0 {
        assert(types.take(0) =~= Seq::empty());
    } else {
        lemma_decode_inputs(types, (n - 1) as nat);
        assert(types.take(n as int) =~= types.take(n - 1).push(types[n - 1]));
    }
}

proof fn lemma_decode_outputs(outputs: Seq<(Seq<char>, Seq<char>)>, n: nat)
    requires
        n <= outputs.len(),
    ensures
        decode_outputs(outputs.map_values(|o: (Seq<char>, Seq<char>)| encode_output(o)), n) == Some(
            outputs.take(n as int),
        ),
    decreases n,
{
    if n == 0 {
        assert(outputs.take(0) =~= Seq::empty());
    } else {
        lemma_decode_outputs(outputs, (n - 1) as nat);
        assert(outputs.take(n as int) =~= outputs.take(n - 1).push(outputs[n - 1]));
    }
}

/// Reading gives back what was written: the text that is written for a
/// descriptor is read, from a file of any name, as that descriptor.
pub proof fn lemma_read_write(d: QueryDataView, written_to: Seq<char>, read_from: Seq<char>)
    ensures
        to_file_spec(written_to, d) matches Ok(text) ==> from_file_spec(read_from, json_of(text))
            == Ok::<QueryDataView, ErrorView>(d),
{
}

} // verus!
