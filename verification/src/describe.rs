//! What a backend reports about a statement, and its adaptation into a
//! portable descriptor: one optional type name per parameter, and a name and
//! a type name per result column, in the backend's order.

use vstd::prelude::*;
use crate::input::QueryMacroInput;
use crate::text::{opt_text, pair_text};
use crate::error::{
    DisplayColumn, DisplayColumnView, Error, ErrorView, SchemaProblem, SchemaProblemView,
};

verus! {

/// The type of a parameter, as far as the backend's type mapping knows it.
#[derive(Clone, Debug, PartialEq, Eq)]
pub struct ParamType {
    /// The portable name that the backend maps the parameter's type to, if
    /// it maps it at all.
    pub rust_type: Option<String>,
}

/// The type of a result column, with what the backend's type mapping says
/// of it.
#[derive(Clone, Debug, PartialEq, Eq)]
pub struct TypeInfo {
    /// The type as the backend writes it in diagnostics.
    pub display: String,
    /// The portable name that the backend maps the type to, if it maps it.
    pub rust_type: Option<String>,
    /// The optional feature that would make the type mappable, if there is one.
    pub feature_gate: Option<String>,
}

/// One result column of a described statement.
#[derive(Clone, Debug, PartialEq, Eq)]
pub struct Column {
    pub name: Option<String>,
    pub type_info: Option<TypeInfo>,
    /// `Some(true)` where the backend knows that the column holds no null.
    pub non_null: Option<bool>,
}

/// A backend's description of a statement.
#[derive(Clone, Debug, PartialEq, Eq)]
pub struct Describe {
    /// One entry per parameter; `None` where the backend reports no type.
    pub param_types: Vec<Option<ParamType>>,
    pub result_columns: Vec<Column>,
}

/// The portable descriptor of a query.
#[derive(Clone, Debug, PartialEq, Eq)]
pub struct QueryData {
    /// The statement, verbatim.
    pub query: String,
    /// One entry per parameter; `None` for a parameter without a known type.
    pub input_types: Vec<Option<String>>,
    /// Name and type name of each result column.
    pub outputs: Vec<(String, String)>,
}

/// A `TypeInfo`, with each string as the sequence of its characters.
pub ghost struct TypeInfoView {
    pub display: Seq<char>,
    pub rust_type: Option<Seq<char>>,
    pub feature_gate: Option<Seq<char>>,
}

/// A `Column`, with each string as the sequence of its characters.
pub ghost struct ColumnView {
    pub name: Option<Seq<char>>,
    pub type_info: Option<TypeInfoView>,
    pub non_null: Option<bool>,
}

/// A `Describe`, with each string as the sequence of its characters.
pub ghost struct DescribeView {
    pub param_types: Seq<Option<Option<Seq<char>>>>,
    pub result_columns: Seq<ColumnView>,
}

/// A `QueryData`, with each string as the sequence of its characters.
pub ghost struct QueryDataView {
    pub query: Seq<char>,
    pub input_types: Seq<Option<Seq<char>>>,
    pub outputs: Seq<(Seq<char>, Seq<char>)>,
}

/// A parameter entry as the mapped name it carries, if any.
pub open spec fn param_text(p: Option<ParamType>) -> Option<Option<Seq<char>>> {
    match p {
        Some(p) => Some(opt_text(p.rust_type)),
        None => None,
    }
}

impl View for TypeInfo {
    type V = TypeInfoView;

    open spec fn view(&self) -> TypeInfoView {
        TypeInfoView {
            display: self.display@,
            rust_type: opt_text(self.rust_type),
            feature_gate: opt_text(self.feature_gate),
        }
    }
}

impl View for Column {
    type V = ColumnView;

    open spec fn view(&self) -> ColumnView {
        ColumnView {
            name: opt_text(self.name),
            type_info: match self.type_info {
                Some(t) => Some(t@),
                None => None,
            },
            non_null: self.non_null,
        }
    }
}

impl View for Describe {
    type V = DescribeView;

    open spec fn view(&self) -> DescribeView {
        DescribeView {
            param_types: self.param_types@.map_values(|p: Option<ParamType>| param_text(p)),
            result_columns: self.result_columns@.map_values(|c: Column| c@),
        }
    }
}

impl View for QueryData {
    type V = QueryDataView;

    open spec fn view(&self) -> QueryDataView {
        QueryDataView {
            query: self.query@,
            input_types: self.input_types@.map_values(|t: Option<String>| opt_text(t)),
            outputs: self.outputs@.map_values(|o: (String, String)| pair_text(o)),
        }
    }
}

/// The descriptor or the failure that a call ended in, by its characters.
pub open spec fn outcome_view(r: Result<QueryData, Error>) -> Result<QueryDataView, ErrorView> {
    match r {
        Ok(data) => Ok(data@),
        Err(e) => Err(e@),
    }
}

/// The type name of a parameter: the mapped name where the backend reported
/// a type and maps it, and nothing otherwise.
pub open spec fn input_type_of(p: Option<Option<Seq<char>>>) -> Option<Seq<char>> {
    match p {
        Some(mapped) => mapped,
        None => None,
    }
}

/// The type name that says that a value of type `inner` may be absent.
pub open spec fn nullable(inner: Seq<char>) -> Seq<char> {
    "Option<"@ + inner + ">"@
}

/// Name and type name of the column at zero-based index `idx`, or what is
/// wrong with the column. A column needs a name, a type, and a mapping of
/// that type; its type name is the mapped name where the column is known to
/// hold no null, and the nullable form of it otherwise.
pub open spec fn output_of(idx: int, c: ColumnView) -> Result<
    (Seq<char>, Seq<char>),
    SchemaProblemView,
> {
    match c.name {
        None => Err(SchemaProblemView::UnnamedColumn { idx: idx as usize }),
        Some(name) => {
            let column = DisplayColumnView { idx: idx as usize, name: Some(name) };
            match c.type_info {
                None => Err(SchemaProblemView::UntypedColumn { column }),
                Some(info) => match info.rust_type {
                    None => match info.feature_gate {
                        Some(feature) => Err(
                            SchemaProblemView::MissingFeature {
                                feature,
                                sql_type: info.display,
                                column,
                            },
                        ),
                        None => Err(
                            SchemaProblemView::UnsupportedType { sql_type: info.display, column },
                        ),
                    },
                    Some(mapped) => Ok(
                        (
                            name,
                            if c.non_null == Some(true) {
                                mapped
                            } else {
                                nullable(mapped)
                            },
                        ),
                    ),
                },
            }
        },
    }
}

/// The outputs of the first `n` columns, in order, or the problem of the
/// first column among them that has one.
pub open spec fn outputs_upto(cols: Seq<ColumnView>, n: nat) -> Result<
    Seq<(Seq<char>, Seq<char>)>,
    SchemaProblemView,
>
    decreases n,
{
    if n == 0 {
        Ok(Seq::empty())
    } else {
        match outputs_upto(cols, (n - 1) as nat) {
            Err(problem) => Err(problem),
            Ok(outputs) => match output_of(n - 1, cols[n - 1]) {
                Err(problem) => Err(problem),
                Ok(output) => Ok(outputs.push(output)),
            },
        }
    }
}

/// The descriptor of `query` under the description `d`: all of it, or the
/// problem of the first column that has one.
pub open spec fn describe_spec(d: DescribeView, query: Seq<char>) -> Result<
    QueryDataView,
    ErrorView,
> {
    match outputs_upto(d.result_columns, d.result_columns.len()) {
        Err(problem) => Err(ErrorView::Schema { problem }),
        Ok(outputs) => Ok(
            QueryDataView {
                query,
                input_types: d.param_types.map_values(
                    |p: Option<Option<Seq<char>>>| input_type_of(p),
                ),
                outputs,
            },
        ),
    }
}

/// The type name of one parameter.
pub fn input_type(param: &Option<ParamType>) -> (name: Option<String>)
    ensures
        opt_text(name) == input_type_of(param_text(*param)),
{
    match param {
        Some(p) => p.rust_type.clone(),
        None => None,
    }
}

/// Name and type name of one result column, or what is wrong with it.
pub fn output(idx: usize, column: &Column) -> (r: Result<(String, String), SchemaProblem>)
    ensures
        match r {
            Ok(o) => output_of(idx as int, column@) == Ok::<
                (Seq<char>, Seq<char>),
                SchemaProblemView,
            >(pair_text(o)),
            Err(p) => output_of(idx as int, column@) == Err::<
                (Seq<char>, Seq<char>),
                SchemaProblemView,
            >(p@),
        },
{
    let name = match &column.name {
        Some(name) => name.clone(),
        None => {
            return Err(SchemaProblem::UnnamedColumn { idx });
        },
    };
    let shown = DisplayColumn { idx, name: Some(name.clone()) };
    let info = match &column.type_info {
        Some(info) => info,
        None => {
            return Err(SchemaProblem::UntypedColumn { column: shown });
        },
    };
    let mapped = match &info.rust_type {
        Some(mapped) => mapped,
        None => {
            return match &info.feature_gate {
                Some(feature) => Err(
                    SchemaProblem::MissingFeature {
                        feature: feature.clone(),
                        sql_type: info.display.clone(),
                        column: shown,
                    },
                ),
                None => Err(
                    SchemaProblem::UnsupportedType { sql_type: info.display.clone(), column: shown },
                ),
            };
        },
    };
    let known_non_null = match column.non_null {
        Some(b) => b,
        None => false,
    };
    let rust_type = if known_non_null {
        mapped.clone()
    } else {
        let mut wrapped = "Option<".to_owned();
        wrapped.append(mapped.as_str());
        wrapped.append(">");
        wrapped
    };
    Ok((name, rust_type))
}

/// Adapts a backend's description of `query` into the portable descriptor.
///
/// Every parameter gets an entry and every column an output, in the
/// backend's order; where a column has a problem, the first such problem is
/// returned and no descriptor is produced.
pub fn describe_query(describe: &Describe, query: &str) -> (r: Result<QueryData, Error>)
    ensures
        outcome_view(r) == describe_spec(describe@, query@),
{
    let mut input_types: Vec<Option<String>> = Vec::new();
    let mut i: usize = 0;
    while i < describe.param_types.len()
        invariant
            i <= describe.param_types.len(),
            input_types@.len() == i,
            forall|k: int|
                0 <= k < i ==> opt_text(#[trigger] input_types@[k]) == input_type_of(
                    param_text(describe.param_types@[k]),
                ),
        decreases describe.param_types.len() - i,
    {
        let name = input_type(&describe.param_types[i]);
        input_types.push(name);
        i += 1;
    }
    let mut outputs: Vec<(String, String)> = Vec::new();
    let mut j: usize = 0;
    proof {
        assert(outputs@.map_values(|o: (String, String)| pair_text(o)) =~= Seq::empty());
    }
    while j < describe.result_columns.len()
        invariant
            j <= describe.result_columns.len(),
            outputs@.len() == j,
            outputs_upto(describe@.result_columns, j as nat) == Ok::<
                Seq<(Seq<char>, Seq<char>)>,
                SchemaProblemView,
            >(outputs@.map_values(|o: (String, String)| pair_text(o))),
        decreases describe.result_columns.len() - j,
    {
        let ghost before = outputs@.map_values(|o: (String, String)| pair_text(o));
        match output(j, &describe.result_columns[j]) {
            Ok(o) => {
                outputs.push(o);
                proof {
                    assert(outputs@.map_values(|o: (String, String)| pair_text(o)) =~= before.push(
                        pair_text(o),
                    ));
                }
            },
            Err(problem) => {
                proof {
                    lemma_problem_stays(
                        describe@.result_columns,
                        (j + 1) as nat,
                        describe@.result_columns.len(),
                    );
                }
                return Err(Error::Schema { problem });
            },
        }
        j += 1;
    }
    let data = QueryData { query: query.to_owned(), input_types, outputs };
    proof {
        assert(data@.input_types =~= describe@.param_types.map_values(
            |p: Option<Option<Seq<char>>>| input_type_of(p),
        ));
    }
    Ok(data)
}

/// A descriptor is whole: where a description gives one, it has one type
/// entry per parameter and one output per result column, each output being
/// that of the column at the same place.
pub proof fn lemma_descriptor_is_whole(d: DescribeView, query: Seq<char>)
    ensures
        describe_spec(d, query) matches Ok(data) ==> {
            &&& data.query == query
            &&& data.input_types.len() == d.param_types.len()
            &&& data.outputs.len() == d.result_columns.len()
            &&& forall|i: int|
                0 <= i < d.result_columns.len() ==> output_of(i, #[trigger] d.result_columns[i])
                    == Ok::<(Seq<char>, Seq<char>), SchemaProblemView>(data.outputs[i])
        },
{
    lemma_outputs_upto(d.result_columns, d.result_columns.len());
}

/// A description gives no descriptor exactly where some column has a
/// problem, and the failure is then the problem of the first such column.
pub proof fn lemma_first_problem(d: DescribeView, query: Seq<char>, i: int)
    requires
        0 <= i < d.result_columns.len(),
        output_of(i, d.result_columns[i]) is Err,
        forall|k: int| 0 <= k < i ==> output_of(k, #[trigger] d.result_columns[k]) is Ok,
    ensures
        describe_spec(d, query) == Err::<QueryDataView, ErrorView>(
            ErrorView::Schema { problem: output_of(i, d.result_columns[i])->Err_0 },
        ),
{
    lemma_outputs_upto(d.result_columns, i as nat);
    lemma_problem_stays(d.result_columns, (i + 1) as nat, d.result_columns.len());
}

/// The outputs of the first `n` columns are there exactly where each of
/// these columns has one, and are then the outputs of the columns in order.
pub proof fn lemma_outputs_upto(cols: Seq<ColumnView>, n: nat)
    requires
        n <= cols.len(),
    ensures
        outputs_upto(cols, n) matches Ok(outputs) ==> {
            &&& outputs.len() == n
            &&& forall|i: int|
                0 <= i < n ==> output_of(i, #[trigger] cols[i]) == Ok::<
                    (Seq<char>, Seq<char>),
                    SchemaProblemView,
                >(outputs[i])
        },
        (forall|i: int| 0 <= i < n ==> output_of(i, #[trigger] cols[i]) is Ok) ==> outputs_upto(
            cols,
            n,
        ) is Ok,
    decreases n,
{
    if n > 0 {
        lemma_outputs_upto(cols, (n - 1) as nat);
    }
}

/// Once the first `n` columns have a problem, taking more columns in does
/// not change which problem is reported.
pub proof fn lemma_problem_stays(cols: Seq<ColumnView>, n: nat, m: nat)
    requires
        n <= m,
        outputs_upto(cols, n) is Err,
    ensures
        outputs_upto(cols, m) == outputs_upto(cols, n),
    decreases m,
{
    if n < m {
        lemma_problem_stays(cols, n, (m - 1) as nat);
    }
}

impl QueryMacroInput {
    /// Checks a description of the query against the arguments given: there
    /// must be as many arguments as the statement has parameters. Names and
    /// types play no part. `described` is what asking the database ended
    /// in: the description, or the reason of the failure.
    pub fn describe_validate(&self, described: Result<Describe, String>) -> (r: Result<
        Describe,
        Error,
    >)
        ensures
            match described {
                Err(reason) => r matches Err(e) && e@ == (ErrorView::Describe {
                    span: self.src_span,
                    reason: reason@,
                }),
                Ok(describe) => if self.arg_names@.len() == describe.param_types@.len() {
                    r == Ok::<Describe, Error>(describe)
                } else {
                    r matches Err(e) && e@ == (ErrorView::Validation {
                        expected: describe.param_types@.len() as usize,
                        actual: self.arg_names@.len() as usize,
                    })
                },
            },
    {
        match described {
            Err(reason) => Err(Error::Describe { span: self.src_span, reason }),
            Ok(describe) => {
                if self.arg_names.len() != describe.param_types.len() {
                    Err(
                        Error::Validation {
                            expected: describe.param_types.len(),
                            actual: self.arg_names.len(),
                        },
                    )
                } else {
                    Ok(describe)
                }
            },
        }
    }
}

} // verus!
