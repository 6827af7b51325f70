//! The failures that describing a query can end in, each with the place it
//! is reported at and the message it is reported with.

use vstd::prelude::*;
use crate::text::{debug_quote, debug_quoted, decimal, u128_to_string, usize_to_string};

verus! {

/// Where in the invocation a diagnostic points.
#[derive(Clone, Copy, Debug, PartialEq, Eq, Structural)]
pub enum Span {
    /// The invocation as a whole.
    CallSite,
    /// The token at this index of the invocation's input.
    Token(usize),
}

/// A database backend that a URL scheme can select.
#[derive(Clone, Copy, Debug, PartialEq, Eq, Structural)]
pub enum Backend {
    Sqlite,
    Postgres,
    MySql,
}

/// What is wrong with the shape of an invocation's input.
#[derive(Clone, Copy, Debug, PartialEq, Eq, Structural)]
pub enum SyntaxProblem {
    /// Two pairs follow each other without a comma between them.
    ExpectedComma,
    /// A key is missing where one must stand, or the token there is no identifier.
    ExpectedKey,
    /// The key is none of the recognized ones.
    UnexpectedKey,
    /// Neither `source` nor `source_file` was given.
    MissingSource,
    /// The value of `source` or `source_file` is no string literal.
    ExpectedString,
    /// The value of `args` is no array of expressions.
    ExpectedArray,
    /// The value of `record_type` is no type.
    ExpectedType,
    /// The value of `unchecked_output` is neither `true` nor `false`.
    ExpectedBool,
}

/// Why the path of a query file is refused.
#[derive(Clone, Copy, Debug, PartialEq, Eq, Structural)]
pub enum PathProblem {
    /// The path is absolute, so it names a file on one machine only.
    Absolute,
    /// The path has no directory part, so it could only be meant relative to
    /// the invoking file.
    RelativeToInvoker,
}

/// A piece of configuration that the environment does not provide.
#[derive(Clone, Debug, PartialEq, Eq)]
pub enum ConfigProblem {
    /// The variable that names the project root is not set.
    MissingProjectRoot,
    /// The variable that names the database URL is not set, and no offline
    /// cache can stand in for the database.
    MissingDatabaseUrl { variable: String },
}

/// What is wrong with a result column that the backend described.
#[derive(Clone, Debug, PartialEq, Eq)]
pub enum SchemaProblem {
    /// The column at this zero-based index has no name. Diagnostics count
    /// from one.
    UnnamedColumn { idx: usize },
    /// The backend reported no type for the column.
    UntypedColumn { column: DisplayColumn },
    /// The column's type is only mapped when an optional feature is enabled.
    MissingFeature { feature: String, sql_type: String, column: DisplayColumn },
    /// The column's type has no mapping at all.
    UnsupportedType { sql_type: String, column: DisplayColumn },
}

/// A result column as diagnostics name it.
#[derive(Clone, Debug, PartialEq, Eq)]
pub struct DisplayColumn {
    /// Zero-based index of the column; shown one-based.
    pub idx: usize,
    pub name: Option<String>,
}

/// Every way in which describing a query can fail.
#[derive(Clone, Debug, PartialEq, Eq)]
pub enum Error {
    Syntax { span: Span, problem: SyntaxProblem },
    Path { span: Span, problem: PathProblem },
    Io { span: Span, path: String, reason: String },
    Config { span: Span, problem: ConfigProblem },
    InvalidUrl { url: String, reason: String },
    UnsupportedScheme { scheme: String, url: String },
    UnsupportedBackend { backend: Backend, url: String },
    Connection { url: String, reason: String },
    Describe { span: Span, reason: String },
    Schema { problem: SchemaProblem },
    Validation { expected: usize, actual: usize },
    CacheRead { path: String, reason: String },
    CacheWrite { path: String, reason: String },
}

/// A `ConfigProblem`, with each string as the sequence of its characters.
pub ghost enum ConfigProblemView {
    MissingProjectRoot,
    MissingDatabaseUrl { variable: Seq<char> },
}

/// A `DisplayColumn`, with each string as the sequence of its characters.
pub ghost struct DisplayColumnView {
    pub idx: usize,
    pub name: Option<Seq<char>>,
}

/// A `SchemaProblem`, with each string as the sequence of its characters.
pub ghost enum SchemaProblemView {
    UnnamedColumn { idx: usize },
    UntypedColumn { column: DisplayColumnView },
    MissingFeature { feature: Seq<char>, sql_type: Seq<char>, column: DisplayColumnView },
    UnsupportedType { sql_type: Seq<char>, column: DisplayColumnView },
}

/// An `Error`, with each string as the sequence of its characters.
pub ghost enum ErrorView {
    Syntax { span: Span, problem: SyntaxProblem },
    Path { span: Span, problem: PathProblem },
    Io { span: Span, path: Seq<char>, reason: Seq<char> },
    Config { span: Span, problem: ConfigProblemView },
    InvalidUrl { url: Seq<char>, reason: Seq<char> },
    UnsupportedScheme { scheme: Seq<char>, url: Seq<char> },
    UnsupportedBackend { backend: Backend, url: Seq<char> },
    Connection { url: Seq<char>, reason: Seq<char> },
    Describe { span: Span, reason: Seq<char> },
    Schema { problem: SchemaProblemView },
    Validation { expected: usize, actual: usize },
    CacheRead { path: Seq<char>, reason: Seq<char> },
    CacheWrite { path: Seq<char>, reason: Seq<char> },
}

impl View for ConfigProblem {
    type V = ConfigProblemView;

    open spec fn view(&self) -> ConfigProblemView {
        match *self {
            ConfigProblem::MissingProjectRoot => ConfigProblemView::MissingProjectRoot,
            ConfigProblem::MissingDatabaseUrl { variable } => ConfigProblemView::MissingDatabaseUrl {
                variable: variable@,
            },
        }
    }
}

impl View for DisplayColumn {
    type V = DisplayColumnView;

    open spec fn view(&self) -> DisplayColumnView {
        DisplayColumnView {
            idx: self.idx,
            name: match self.name {
                Some(name) => Some(name@),
                None => None,
            },
        }
    }
}

impl View for SchemaProblem {
    type V = SchemaProblemView;

    open spec fn view(&self) -> SchemaProblemView {
        match *self {
            SchemaProblem::UnnamedColumn { idx } => SchemaProblemView::UnnamedColumn { idx },
            SchemaProblem::UntypedColumn { column } => SchemaProblemView::UntypedColumn {
                column: column@,
            },
            SchemaProblem::MissingFeature {
                feature,
                sql_type,
                column,
            } => SchemaProblemView::MissingFeature {
                feature: feature@,
                sql_type: sql_type@,
                column: column@,
            },
            SchemaProblem::UnsupportedType { sql_type, column } => SchemaProblemView::UnsupportedType {
                sql_type: sql_type@,
                column: column@,
            },
        }
    }
}

impl View for Error {
    type V = ErrorView;

    open spec fn view(&self) -> ErrorView {
        match *self {
            Error::Syntax { span, problem } => ErrorView::Syntax { span, problem },
            Error::Path { span, problem } => ErrorView::Path { span, problem },
            Error::Io { span, path, reason } => ErrorView::Io { span, path: path@, reason: reason@ },
            Error::Config { span, problem } => ErrorView::Config { span, problem: problem@ },
            Error::InvalidUrl { url, reason } => ErrorView::InvalidUrl { url: url@, reason: reason@ },
            Error::UnsupportedScheme { scheme, url } => ErrorView::UnsupportedScheme {
                scheme: scheme@,
                url: url@,
            },
            Error::UnsupportedBackend { backend, url } => ErrorView::UnsupportedBackend {
                backend,
                url: url@,
            },
            Error::Connection { url, reason } => ErrorView::Connection {
                url: url@,
                reason: reason@,
            },
            Error::Describe { span, reason } => ErrorView::Describe { span, reason: reason@ },
            Error::Schema { problem } => ErrorView::Schema { problem: problem@ },
            Error::Validation { expected, actual } => ErrorView::Validation { expected, actual },
            Error::CacheRead { path, reason } => ErrorView::CacheRead {
                path: path@,
                reason: reason@,
            },
            Error::CacheWrite { path, reason } => ErrorView::CacheWrite {
                path: path@,
                reason: reason@,
            },
        }
    }
}

impl Backend {
    /// The name of the build feature that compiles the backend in.
    pub open spec fn feature_text(self) -> Seq<char> {
        match self {
            Backend::Sqlite => "sqlite"@,
            Backend::Postgres => "postgres"@,
            Backend::MySql => "mysql"@,
        }
    }

    /// The name of the database product, as diagnostics write it.
    pub open spec fn product_text(self) -> Seq<char> {
        match self {
            Backend::Sqlite => "SQLite"@,
            Backend::Postgres => "Postgres"@,
            Backend::MySql => "MySQL/MariaDB"@,
        }
    }

    /// The name of the build feature that compiles the backend in.
    pub fn feature(self) -> (name: &'static str)
        ensures
            name@ == self.feature_text(),
    {
        match self {
            Backend::Sqlite => "sqlite",
            Backend::Postgres => "postgres",
            Backend::MySql => "mysql",
        }
    }

    /// The name of the database product, as diagnostics write it.
    pub fn product(self) -> (name: &'static str)
        ensures
            name@ == self.product_text(),
    {
        match self {
            Backend::Sqlite => "SQLite",
            Backend::Postgres => "Postgres",
            Backend::MySql => "MySQL/MariaDB",
        }
    }
}

impl SyntaxProblem {
    /// The message that the problem is reported with.
    pub open spec fn message_text(self) -> Seq<char> {
        match self {
            SyntaxProblem::ExpectedComma => "expected `,`"@,
            SyntaxProblem::ExpectedKey => "expected identifier"@,
            SyntaxProblem::UnexpectedKey => "unexpected input key"@,
            SyntaxProblem::MissingSource => "expected `source` or `source_file` key"@,
            SyntaxProblem::ExpectedString => "expected string literal"@,
            SyntaxProblem::ExpectedArray => "expected array of expressions"@,
            SyntaxProblem::ExpectedType => "expected type"@,
            SyntaxProblem::ExpectedBool => "expected boolean literal"@,
        }
    }

    /// The message that the problem is reported with.
    pub fn message(self) -> (text: &'static str)
        ensures
            text@ == self.message_text(),
    {
        match self {
            SyntaxProblem::ExpectedComma => "expected `,`",
            SyntaxProblem::ExpectedKey => "expected identifier",
            SyntaxProblem::UnexpectedKey => "unexpected input key",
            SyntaxProblem::MissingSource => "expected `source` or `source_file` key",
            SyntaxProblem::ExpectedString => "expected string literal",
            SyntaxProblem::ExpectedArray => "expected array of expressions",
            SyntaxProblem::ExpectedType => "expected type",
            SyntaxProblem::ExpectedBool => "expected boolean literal",
        }
    }
}

impl PathProblem {
    /// The message that the problem is reported with.
    pub open spec fn message_text(self) -> Seq<char> {
        match self {
            PathProblem::Absolute => "absolute paths will only work on the current machine"@,
            PathProblem::RelativeToInvoker =>
                "paths relative to the current file's directory are not currently supported"@,
        }
    }

    /// The message that the problem is reported with.
    pub fn message(self) -> (text: &'static str)
        ensures
            text@ == self.message_text(),
    {
        match self {
            PathProblem::Absolute => "absolute paths will only work on the current machine",
            PathProblem::RelativeToInvoker =>
                "paths relative to the current file's directory are not currently supported",
        }
    }
}

impl ConfigProblemView {
    /// The message that the problem is reported with.
    pub open spec fn message_text(self) -> Seq<char> {
        match self {
            ConfigProblemView::MissingProjectRoot =>
                "CARGO_MANIFEST_DIR is not set; please use Cargo to build"@,
            ConfigProblemView::MissingDatabaseUrl { variable } => "`"@ + variable
                + "` must be set to use query macros"@,
        }
    }
}

impl ConfigProblem {
    /// The message that the problem is reported with.
    pub fn message(&self) -> (text: String)
        ensures
            text@ == self@.message_text(),
    {
        match self {
            ConfigProblem::MissingProjectRoot => {
                "CARGO_MANIFEST_DIR is not set; please use Cargo to build".to_owned()
            },
            ConfigProblem::MissingDatabaseUrl { variable } => {
                let mut text = "`".to_owned();
                text.append(variable.as_str());
                text.append("` must be set to use query macros");
                text
            },
        }
    }
}

impl DisplayColumnView {
    /// `column #N`, counting from one, followed by the quoted name in
    /// parentheses where the column has one.
    pub open spec fn text(self) -> Seq<char> {
        match self.name {
            Some(name) => "column #"@ + decimal((self.idx + 1) as nat) + " ("@ + debug_quoted(name)
                + ")"@,
            None => "column #"@ + decimal((self.idx + 1) as nat),
        }
    }
}

impl DisplayColumn {
    /// The column as a diagnostic names it.
    pub fn to_string(&self) -> (text: String)
        ensures
            text@ == self@.text(),
    {
        let mut text = "column #".to_owned();
        let number = u128_to_string(self.idx as u128 + 1);
        text.append(number.as_str());
        match &self.name {
            Some(name) => {
                text.append(" (");
                let quoted = debug_quote(name.as_str());
                text.append(quoted.as_str());
                text.append(")");
            },
            None => {},
        }
        text
    }
}

impl SchemaProblemView {
    /// The message that the problem is reported with.
    pub open spec fn message_text(self) -> Seq<char> {
        match self {
            SchemaProblemView::UnnamedColumn { idx } => "column at position "@ + decimal(
                (idx + 1) as nat,
            ) + " must have a name"@,
            SchemaProblemView::UntypedColumn { column } => "database couldn't tell us the type of "@
                + column.text()
                + "; this can happen for columns that are the result of an expression"@,
            SchemaProblemView::MissingFeature { feature, sql_type, column } => "optional feature `"@
                + feature + "` required for type "@ + sql_type + " of "@ + column.text(),
            SchemaProblemView::UnsupportedType { sql_type, column } => "unsupported type "@
                + sql_type + " of "@ + column.text(),
        }
    }
}

impl SchemaProblem {
    /// The message that the problem is reported with.
    pub fn message(&self) -> (text: String)
        ensures
            text@ == self@.message_text(),
    {
        match self {
            SchemaProblem::UnnamedColumn { idx } => {
                let mut text = "column at position ".to_owned();
                let number = u128_to_string(*idx as u128 + 1);
                text.append(number.as_str());
                text.append(" must have a name");
                text
            },
            SchemaProblem::UntypedColumn { column } => {
                let mut text = "database couldn't tell us the type of ".to_owned();
                let shown = column.to_string();
                text.append(shown.as_str());
                text.append("; this can happen for columns that are the result of an expression");
                text
            },
            SchemaProblem::MissingFeature { feature, sql_type, column } => {
                let mut text = "optional feature `".to_owned();
                text.append(feature.as_str());
                text.append("` required for type ");
                text.append(sql_type.as_str());
                text.append(" of ");
                let shown = column.to_string();
                text.append(shown.as_str());
                text
            },
            SchemaProblem::UnsupportedType { sql_type, column } => {
                let mut text = "unsupported type ".to_owned();
                text.append(sql_type.as_str());
                text.append(" of ");
                let shown = column.to_string();
                text.append(shown.as_str());
                text
            },
        }
    }
}

impl ErrorView {
    /// The message that the failure is reported with.
    pub open spec fn message_text(self) -> Seq<char> {
        match self {
            ErrorView::Syntax { span, problem } => problem.message_text(),
            ErrorView::Path { span, problem } => problem.message_text(),
            ErrorView::Io { span, path, reason } => "failed to read query file at "@ + path + ": "@
                + reason,
            ErrorView::Config { span, problem } => problem.message_text(),
            ErrorView::InvalidUrl { url, reason } => "invalid database URL "@ + debug_quoted(url)
                + ": "@ + reason,
            ErrorView::UnsupportedScheme { scheme, url } => "unexpected scheme "@ + debug_quoted(
                scheme,
            ) + " in database URL "@ + url,
            ErrorView::UnsupportedBackend { backend, url } => "database URL "@ + url
                + " has the scheme of a "@ + backend.product_text() + " database but the `"@
                + backend.feature_text() + "` feature of sqlx was not enabled"@,
            ErrorView::Connection { url, reason } => "failed to connect to database: "@ + reason,
            ErrorView::Describe { span, reason } => reason,
            ErrorView::Schema { problem } => problem.message_text(),
            ErrorView::Validation { expected, actual } => "expected "@ + decimal(expected as nat)
                + " parameters, got "@ + decimal(actual as nat),
            ErrorView::CacheRead { path, reason } => "failed to read path "@ + debug_quoted(path)
                + ": "@ + reason,
            ErrorView::CacheWrite { path, reason } => "failed to write path "@ + debug_quoted(path)
                + ": "@ + reason,
        }
    }

    /// The place that the failure is reported at.
    pub open spec fn span(self) -> Span {
        match self {
            ErrorView::Syntax { span, problem } => span,
            ErrorView::Path { span, problem } => span,
            ErrorView::Io { span, path, reason } => span,
            ErrorView::Config { span, problem } => span,
            ErrorView::Describe { span, reason } => span,
            _ => Span::CallSite,
        }
    }
}

impl Error {
    /// The place that the failure is reported at: the most specific one known,
    /// else the invocation as a whole.
    pub fn span(&self) -> (span: Span)
        ensures
            span == self@.span(),
    {
        match self {
            Error::Syntax { span, problem } => *span,
            Error::Path { span, problem } => *span,
            Error::Io { span, path, reason } => *span,
            Error::Config { span, problem } => *span,
            Error::Describe { span, reason } => *span,
            _ => Span::CallSite,
        }
    }

    /// The message that the failure is reported with.
    pub fn message(&self) -> (text: String)
        ensures
            text@ == self@.message_text(),
    {
        match self {
            Error::Syntax { span, problem } => problem.message().to_owned(),
            Error::Path { span, problem } => problem.message().to_owned(),
            Error::Io { span, path, reason } => {
                let mut text = "failed to read query file at ".to_owned();
                text.append(path.as_str());
                text.append(": ");
                text.append(reason.as_str());
                text
            },
            Error::Config { span, problem } => problem.message(),
            Error::InvalidUrl { url, reason } => {
                let mut text = "invalid database URL ".to_owned();
                let quoted = debug_quote(url.as_str());
                text.append(quoted.as_str());
                text.append(": ");
                text.append(reason.as_str());
                text
            },
            Error::UnsupportedScheme { scheme, url } => {
                let mut text = "unexpected scheme ".to_owned();
                let quoted = debug_quote(scheme.as_str());
                text.append(quoted.as_str());
                text.append(" in database URL ");
                text.append(url.as_str());
                text
            },
            Error::UnsupportedBackend { backend, url } => {
                let mut text = "database URL ".to_owned();
                text.append(url.as_str());
                text.append(" has the scheme of a ");
                text.append(backend.product());
                text.append(" database but the `");
                text.append(backend.feature());
                text.append("` feature of sqlx was not enabled");
                text
            },
            Error::Connection { url, reason } => {
                let mut text = "failed to connect to database: ".to_owned();
                text.append(reason.as_str());
                text
            },
            Error::Describe { span, reason } => reason.clone(),
            Error::Schema { problem } => problem.message(),
            Error::Validation { expected, actual } => {
                let mut text = "expected ".to_owned();
                let wanted = usize_to_string(*expected);
                text.append(wanted.as_str());
                text.append(" parameters, got ");
                let given = usize_to_string(*actual);
                text.append(given.as_str());
                text
            },
            Error::CacheRead { path, reason } => {
                let mut text = "failed to read path ".to_owned();
                let quoted = debug_quote(path.as_str());
                text.append(quoted.as_str());
                text.append(": ");
                text.append(reason.as_str());
                text
            },
            Error::CacheWrite { path, reason } => {
                let mut text = "failed to write path ".to_owned();
                let quoted = debug_quote(path.as_str());
                text.append(quoted.as_str());
                text.append(": ");
                text.append(reason.as_str());
                text
            },
        }
    }
}

} // verus!
