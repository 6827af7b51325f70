//! Resolution of a query's source: an inline text passes through, a file
//! reference is checked, located under the project root, and replaced by
//! the file's contents once they have been read.

use vstd::prelude::*;
use crate::error::{ConfigProblem, ConfigProblemView, Error, ErrorView, PathProblem, Span};
use crate::input::{parsed_view, QueryMacroInput, QueryMacroInputView, QuerySrc, QuerySrcView};
use crate::text::opt_text;

verus! {

/// What the path syntax of the platform makes of a path.
#[derive(Clone, Debug, PartialEq, Eq)]
pub struct PathFacts {
    /// Whether the path is absolute.
    pub absolute: bool,
    /// The path without its last component, if it has one.
    pub parent: Option<String>,
}

/// A `PathFacts`, with each string as the sequence of its characters.
pub ghost struct PathFactsView {
    pub absolute: bool,
    pub parent: Option<Seq<char>>,
}

impl View for PathFacts {
    type V = PathFactsView;

    open spec fn view(&self) -> PathFactsView {
        PathFactsView { absolute: self.absolute, parent: opt_text(self.parent) }
    }
}

/// The query file to read: the file at `path` under the project root.
#[derive(Clone, Debug, PartialEq, Eq)]
pub struct QueryFile {
    /// The project root.
    pub root: String,
    /// The path of the file below the root, as the invocation gives it.
    pub path: String,
}

/// A `QueryFile`, with each string as the sequence of its characters.
pub ghost struct QueryFileView {
    pub root: Seq<char>,
    pub path: Seq<char>,
}

impl View for QueryFile {
    type V = QueryFileView;

    open spec fn view(&self) -> QueryFileView {
        QueryFileView { root: self.root@, path: self.path@ }
    }
}

/// Asks `std::path::Path::is_absolute`. What counts as absolute differs
/// between platforms, so nothing is stated of the answer.
#[verifier::external_body]
fn path_is_absolute(path: &str) -> bool {
    std::path::Path::new(path).is_absolute()
}

/// Asks `std::path::Path::parent` and gives the parent as text. How a path
/// is split differs between platforms; what holds on each of them, and is
/// stated, is that the empty path has no parent.
#[verifier::external_body]
fn path_parent(path: &str) -> (parent: Option<String>)
    ensures
        path@.len() == 0 ==> parent is None,
{
    match std::path::Path::new(path).parent() {
        Some(parent) => Some(parent.to_string_lossy().into_owned()),
        None => None,
    }
}

/// Whether a path with these facts may name a query file, and if not, why:
/// an absolute path is not portable, and a path without a directory part
/// could only be meant relative to the invoking file.
pub open spec fn path_problem(facts: PathFactsView) -> Option<PathProblem> {
    if facts.absolute {
        Some(PathProblem::Absolute)
    } else if facts.parent is None || facts.parent->0.len() == 0 {
        Some(PathProblem::RelativeToInvoker)
    } else {
        None
    }
}

/// The query file that `source` names, given what the platform makes of
/// the path: the file at `source` under the project root. A refused path
/// fails first, then a missing project root.
pub open spec fn locate_spec(
    source: Seq<char>,
    facts: PathFactsView,
    span: Span,
    base_dir: Option<Seq<char>>,
) -> Result<QueryFileView, ErrorView> {
    match path_problem(facts) {
        Some(problem) => Err(ErrorView::Path { span, problem }),
        None => match base_dir {
            Some(root) => Ok(QueryFileView { root, path: source }),
            None => Err(ErrorView::Config { span, problem: ConfigProblemView::MissingProjectRoot }),
        },
    }
}

/// A query file or the failure that a call ended in, by its characters.
pub open spec fn located_view(r: Result<QueryFile, Error>) -> Result<QueryFileView, ErrorView> {
    match r {
        Ok(file) => Ok(file@),
        Err(e) => Err(e@),
    }
}

/// The characters of an optional string slice.
pub open spec fn opt_str(s: Option<&str>) -> Option<Seq<char>> {
    match s {
        Some(s) => Some(s@),
        None => None,
    }
}

/// The input after its source file has been read, or the failure that
/// reading ended in. An inline source stays as it is.
pub open spec fn expand_spec(
    input: QueryMacroInputView,
    path: Seq<char>,
    read: Result<Seq<char>, Seq<char>>,
) -> Result<QueryMacroInputView, ErrorView> {
    match input.src {
        QuerySrcView::String(_) => Ok(input),
        QuerySrcView::File(_) => match read {
            Ok(contents) => Ok(QueryMacroInputView { src: QuerySrcView::String(contents), ..input }),
            Err(reason) => Err(ErrorView::Io { span: input.src_span, path, reason }),
        },
    }
}

/// What the path syntax of the platform makes of `path`. The platform
/// decides; on every platform the empty path has no parent.
fn path_facts(path: &str) -> (facts: PathFacts)
    ensures
        path@.len() == 0 ==> facts.parent is None,
{
    PathFacts { absolute: path_is_absolute(path), parent: path_parent(path) }
}

/// Why a path with these facts may not name a query file, if it may not.
pub fn check_path(facts: &PathFacts) -> (problem: Option<PathProblem>)
    ensures
        problem == path_problem(facts@),
{
    if facts.absolute {
        return Some(PathProblem::Absolute);
    }
    match &facts.parent {
        None => Some(PathProblem::RelativeToInvoker),
        Some(parent) => if parent.as_str().is_empty() {
            Some(PathProblem::RelativeToInvoker)
        } else {
            None
        },
    }
}

/// Locates the query file `source` under the project root `base_dir`, given
/// what the platform makes of the path. No file is named unless the path is
/// acceptable and the project root is known; the file named is the one at
/// `source` under that root.
pub fn locate(source: &str, facts: &PathFacts, span: Span, base_dir: Option<&str>) -> (r: Result<
    QueryFile,
    Error,
>)
    ensures
        located_view(r) == locate_spec(source@, facts@, span, opt_str(base_dir)),
{
    match check_path(facts) {
        Some(problem) => {
            return Err(Error::Path { span, problem });
        },
        None => {},
    }
    match base_dir {
        None => Err(Error::Config { span, problem: ConfigProblem::MissingProjectRoot }),
        Some(root) => Ok(QueryFile { root: root.to_owned(), path: source.to_owned() }),
    }
}

/// Locates the query file `source` under the project root `base_dir`: the
/// file to read, or the failure that keeps it from being read.
///
/// The platform decides whether the path is absolute and what its parent
/// is. Whatever it decides: the file named is the one at `source`, as it
/// came, under `base_dir`; a refused path fails at `span` before the
/// project root is looked at; without a project root no file is named; and
/// the empty path is refused.
pub fn read_file_src(source: &str, span: Span, base_dir: Option<&str>) -> (r: Result<
    QueryFile,
    Error,
>)
    ensures
        source@.len() == 0 ==> (r matches Err(e) && e@ is Path),
        match r {
            Ok(file) => base_dir matches Some(root) && file.root@ == root@ && file.path@ == source@,
            Err(e) => {
                ||| e@ == (ErrorView::Path { span, problem: PathProblem::Absolute })
                ||| e@ == (ErrorView::Path { span, problem: PathProblem::RelativeToInvoker })
                ||| (base_dir is None && e@ == (ErrorView::Config {
                    span,
                    problem: ConfigProblemView::MissingProjectRoot,
                }))
            },
        },
{
    let facts = path_facts(source);
    locate(source, &facts, span, base_dir)
}

impl QueryMacroInput {
    /// The file that holds the query, where the source is a file reference:
    /// `None` for an inline source, for which nothing is read. The file
    /// named is the one at the path that the invocation gives, under
    /// `base_dir`.
    pub fn file_to_read(&self, base_dir: Option<&str>) -> (r: Result<Option<QueryFile>, Error>)
        ensures
            self.src is String ==> r == Ok::<Option<QueryFile>, Error>(None),
            (self.src matches QuerySrc::File(path) && path@.len() == 0) ==> (r matches Err(e) && e@
                is Path),
            self.src matches QuerySrc::File(path) ==> match r {
                Ok(found) => found matches Some(file) && base_dir matches Some(root) && file.root@
                    == root@ && file.path@ == path@,
                Err(e) => {
                    ||| e@ == (ErrorView::Path {
                        span: self.src_span,
                        problem: PathProblem::Absolute,
                    })
                    ||| e@ == (ErrorView::Path {
                        span: self.src_span,
                        problem: PathProblem::RelativeToInvoker,
                    })
                    ||| (base_dir is None && e@ == (ErrorView::Config {
                        span: self.src_span,
                        problem: ConfigProblemView::MissingProjectRoot,
                    }))
                },
            },
    {
        match &self.src {
            QuerySrc::String(_) => Ok(None),
            QuerySrc::File(path) => match read_file_src(path.as_str(), self.src_span, base_dir) {
                Ok(file) => Ok(Some(file)),
                Err(e) => Err(e),
            },
        }
    }

    /// The SQL text of the query, where the source holds it: `None` for a
    /// file reference that has not been replaced by the file's contents.
    pub fn sql(&self) -> (text: Option<&str>)
        ensures
            match self.src {
                QuerySrc::String(sql) => text matches Some(t) && t@ == sql@,
                QuerySrc::File(_) => text is None,
            },
    {
        match &self.src {
            QuerySrc::String(sql) => Some(sql.as_str()),
            QuerySrc::File(_) => None,
        }
    }

    /// Replaces a file reference by the contents of the file at `path`,
    /// given what reading that file ended in: the contents, or the reason
    /// of the failure. An inline source stays as it is, whatever `read` holds.
    pub fn expand_file_src(self, path: &str, read: Result<String, String>) -> (r: Result<
        QueryMacroInput,
        Error,
    >)
        ensures
            parsed_view(r) == expand_spec(
                self@,
                path@,
                match read {
                    Ok(contents) => Ok(contents@),
                    Err(reason) => Err(reason@),
                },
            ),
            r matches Ok(input) ==> (self.wf() ==> input.wf()),
    {
        match &self.src {
            QuerySrc::String(_) => Ok(self),
            QuerySrc::File(_) => match read {
                Ok(contents) => {
                    let mut input = self;
                    input.src = QuerySrc::String(contents);
                    Ok(input)
                },
                Err(reason) => Err(
                    Error::Io { span: self.src_span, path: path.to_owned(), reason },
                ),
            },
        }
    }
}

} // verus!
