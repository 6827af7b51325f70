//! From a database URL to a backend: the text must be a URL; its scheme,
//! as written, selects the backend; and the backend must be among those
//! that the build has enabled.

use vstd::prelude::*;
use crate::describe::{describe_query, describe_spec, outcome_view, Describe, DescribeView, QueryData, QueryDataView};
use crate::error::{Backend, Error, ErrorView, Span};
use crate::text::str_eq;

verus! {

/// The backends that the build has enabled.
#[derive(Clone, Copy, Debug, PartialEq, Eq, Structural)]
pub struct Features {
    pub sqlite: bool,
    pub postgres: bool,
    pub mysql: bool,
}

/// The database to connect to.
#[derive(Clone, Debug, PartialEq, Eq)]
pub struct Target {
    /// The backend that serves the database.
    pub backend: Backend,
    /// The URL of the database, in its normal form.
    pub url: String,
}

/// A `Target`, with each string as the sequence of its characters.
pub ghost struct TargetView {
    pub backend: Backend,
    pub url: Seq<char>,
}

impl View for Target {
    type V = TargetView;

    open spec fn view(&self) -> TargetView {
        TargetView { backend: self.backend, url: self.url@ }
    }
}

/// What the database answered when it was asked to describe a query.
#[derive(Clone, Debug, PartialEq, Eq)]
pub enum Live {
    /// No connection could be opened; the reason is given.
    ConnectFailed(String),
    /// The connection was opened, but the statement could not be described.
    DescribeFailed(String),
    /// The description of the statement.
    Described(Describe),
}

/// A `Live`, with each string as the sequence of its characters.
pub ghost enum LiveView {
    ConnectFailed(Seq<char>),
    DescribeFailed(Seq<char>),
    Described(DescribeView),
}

impl View for Live {
    type V = LiveView;

    open spec fn view(&self) -> LiveView {
        match *self {
            Live::ConnectFailed(reason) => LiveView::ConnectFailed(reason@),
            Live::DescribeFailed(reason) => LiveView::DescribeFailed(reason@),
            Live::Described(describe) => LiveView::Described(describe@),
        }
    }
}

/// The normal form of the URL that `input` is, or the reason why it is no
/// absolute URL.
pub uninterp spec fn parsed_url(input: Seq<char>) -> Result<Seq<char>, Seq<char>>;

/// A text or the reason of a failure, by its characters.
pub open spec fn text_result(r: Result<String, String>) -> Result<Seq<char>, Seq<char>> {
    match r {
        Ok(text) => Ok(text@),
        Err(reason) => Err(reason@),
    }
}

/// Parses `input` with `url::Url::parse` and copies out what `Url::as_str`
/// gives; on failure, the text of the `url::ParseError`. The contract only
/// names the result, which depends on `input` alone.
#[verifier::external_body]
pub(crate) fn parse_url(input: &str) -> (r: Result<String, String>)
    ensures
        text_result(r) == parsed_url(input@),
{
    match url::Url::parse(input) {
        Ok(url) => Ok(url.as_str().to_owned()),
        Err(e) => Err(e.to_string()),
    }
}

/// The place of the first colon at or behind `from`, if there is one.
pub open spec fn colon_from(url: Seq<char>, from: int) -> Option<int>
    decreases url.len() - from,
{
    if from < 0 || from >= url.len() {
        None
    } else if url[from] == ':' {
        Some(from)
    } else {
        colon_from(url, from + 1)
    }
}

/// The scheme of a URL, as written: what stands before the first colon, and
/// all of the text where there is no colon.
pub open spec fn scheme_token(url: Seq<char>) -> Seq<char> {
    match colon_from(url, 0) {
        Some(colon) => url.take(colon),
        None => url,
    }
}

/// The backend that a scheme selects. Schemes are compared as written, so
/// that no scheme in another case selects a backend.
pub open spec fn backend_of(scheme: Seq<char>) -> Option<Backend> {
    if scheme == "sqlite"@ {
        Some(Backend::Sqlite)
    } else if scheme == "postgresql"@ || scheme == "postgres"@ {
        Some(Backend::Postgres)
    } else if scheme == "mysql"@ || scheme == "mariadb"@ {
        Some(Backend::MySql)
    } else {
        None
    }
}

/// The backend that serves a URL: the one that its scheme selects, if the
/// build has enabled it. A scheme outside the table is unsupported whatever
/// the build has enabled.
pub open spec fn dispatch_spec(db_url: Seq<char>, features: Features) -> Result<Backend, ErrorView> {
    match backend_of(scheme_token(db_url)) {
        None => Err(ErrorView::UnsupportedScheme { scheme: scheme_token(db_url), url: db_url }),
        Some(backend) => if features.has(backend) {
            Ok(backend)
        } else {
            Err(ErrorView::UnsupportedBackend { backend, url: db_url })
        },
    }
}

/// The database to connect to for a URL: the backend that its scheme, as
/// written, selects, and the URL in the normal form that parsing it gave. A
/// text that is no URL fails first, before any scheme is looked at.
pub open spec fn target_spec(
    db_url: Seq<char>,
    features: Features,
    parsed: Result<Seq<char>, Seq<char>>,
) -> Result<TargetView, ErrorView> {
    match parsed {
        Err(reason) => Err(ErrorView::InvalidUrl { url: db_url, reason }),
        Ok(url) => match dispatch_spec(db_url, features) {
            Err(e) => Err(e),
            Ok(backend) => Ok(TargetView { backend, url }),
        },
    }
}

/// The descriptor that the answer of the database at `target` gives for the
/// query.
pub open spec fn live_spec(target: TargetView, query: Seq<char>, live: LiveView) -> Result<
    QueryDataView,
    ErrorView,
> {
    match live {
        LiveView::ConnectFailed(reason) => Err(ErrorView::Connection { url: target.url, reason }),
        LiveView::DescribeFailed(reason) => Err(ErrorView::Describe { span: Span::CallSite, reason }),
        LiveView::Described(describe) => describe_spec(describe, query),
    }
}

/// The descriptor that a database's answer gives for the query. Nothing is
/// taken from the answer unless the text is a URL and its scheme selects an
/// enabled backend.
pub open spec fn from_db_spec(
    db_url: Seq<char>,
    query: Seq<char>,
    features: Features,
    parsed: Result<Seq<char>, Seq<char>>,
    live: LiveView,
) -> Result<QueryDataView, ErrorView> {
    match parsed {
        Err(reason) => Err(ErrorView::InvalidUrl { url: db_url, reason }),
        Ok(url) => match dispatch_spec(db_url, features) {
            Err(e) => Err(e),
            Ok(backend) => live_spec(TargetView { backend, url }, query, live),
        },
    }
}

/// A backend or the failure that a call ended in, by its characters.
pub open spec fn backend_view(r: Result<Backend, Error>) -> Result<Backend, ErrorView> {
    match r {
        Ok(backend) => Ok(backend),
        Err(e) => Err(e@),
    }
}

/// A target or the failure that a call ended in, by its characters.
pub open spec fn target_view(r: Result<Target, Error>) -> Result<TargetView, ErrorView> {
    match r {
        Ok(target) => Ok(target@),
        Err(e) => Err(e@),
    }
}

impl Features {
    /// Whether the build has enabled the backend.
    pub open spec fn has(self, backend: Backend) -> bool {
        match backend {
            Backend::Sqlite => self.sqlite,
            Backend::Postgres => self.postgres,
            Backend::MySql => self.mysql,
        }
    }

    /// Whether the build has enabled the backend.
    pub fn enabled(&self, backend: Backend) -> (b: bool)
        ensures
            b == self.has(backend),
    {
        match backend {
            Backend::Sqlite => self.sqlite,
            Backend::Postgres => self.postgres,
            Backend::MySql => self.mysql,
        }
    }
}

impl Backend {
    /// The backend that a scheme selects.
    pub fn for_scheme(scheme: &str) -> (backend: Option<Backend>)
        ensures
            backend == backend_of(scheme@),
    {
        if str_eq(scheme, "sqlite") {
            Some(Backend::Sqlite)
        } else if str_eq(scheme, "postgresql") || str_eq(scheme, "postgres") {
            Some(Backend::Postgres)
        } else if str_eq(scheme, "mysql") || str_eq(scheme, "mariadb") {
            Some(Backend::MySql)
        } else {
            None
        }
    }
}

/// The scheme of a URL, as written.
pub fn scheme_of(db_url: &str) -> (scheme: String)
    ensures
        scheme@ == scheme_token(db_url@),
{
    let len = db_url.unicode_len();
    let mut i: usize = 0;
    while i < len
        invariant
            len == db_url@.len(),
            i <= len,
            colon_from(db_url@, 0) == colon_from(db_url@, i as int),
        decreases len - i,
    {
        if db_url.get_char(i) == ':' {
            let scheme = db_url.substring_char(0, i).to_owned();
            assert(db_url@.take(i as int) =~= db_url@.subrange(0, i as int));
            return scheme;
        }
        i += 1;
    }
    db_url.to_owned()
}

/// Selects the backend that serves the database at `db_url`, by the scheme
/// as it is written there. Whether the text is a URL is not looked at here.
pub fn dispatch(db_url: &str, features: &Features) -> (r: Result<Backend, Error>)
    ensures
        backend_view(r) == dispatch_spec(db_url@, *features),
{
    let scheme = scheme_of(db_url);
    match Backend::for_scheme(scheme.as_str()) {
        None => Err(Error::UnsupportedScheme { scheme, url: db_url.to_owned() }),
        Some(backend) => if features.enabled(backend) {
            Ok(backend)
        } else {
            Err(Error::UnsupportedBackend { backend, url: db_url.to_owned() })
        },
    }
}

/// The database to connect to for `db_url`, given what parsing the URL
/// ended in: its normal form, or the reason of the failure. The scheme is
/// looked at only where the text is a URL.
pub fn target(db_url: &str, features: &Features, parsed: Result<String, String>) -> (r: Result<
    Target,
    Error,
>)
    ensures
        target_view(r) == target_spec(db_url@, *features, text_result(parsed)),
{
    match parsed {
        Err(reason) => Err(Error::InvalidUrl { url: db_url.to_owned(), reason }),
        Ok(url) => match dispatch(db_url, features) {
            Err(e) => Err(e),
            Ok(backend) => Ok(Target { backend, url }),
        },
    }
}

/// The database to connect to for `db_url`: the URL is parsed, then its
/// scheme, as written, selects the backend.
pub fn resolve_backend(db_url: &str, features: &Features) -> (r: Result<Target, Error>)
    ensures
        target_view(r) == target_spec(db_url@, *features, parsed_url(db_url@)),
{
    target(db_url, features, parse_url(db_url))
}

impl QueryData {
    /// The descriptor of `query` from what the database at `target`
    /// answered. A failed connection and a failed description are failures
    /// of the whole; a description gives the whole descriptor or none.
    pub fn from_live(target: &Target, query: &str, live: &Live) -> (r: Result<QueryData, Error>)
        ensures
            outcome_view(r) == live_spec(target@, query@, live@),
    {
        match live {
            Live::ConnectFailed(reason) => Err(
                Error::Connection { url: target.url.clone(), reason: reason.clone() },
            ),
            Live::DescribeFailed(reason) => Err(
                Error::Describe { span: Span::CallSite, reason: reason.clone() },
            ),
            Live::Described(describe) => describe_query(describe, query),
        }
    }

    /// The descriptor of `query` from what the database at `db_url`
    /// answered. Nothing is taken from the answer unless the text is a URL
    /// and its scheme selects an enabled backend.
    pub fn from_db(db_url: &str, query: &str, features: &Features, live: &Live) -> (r: Result<
        QueryData,
        Error,
    >)
        ensures
            outcome_view(r) == from_db_spec(
                db_url@,
                query@,
                *features,
                parsed_url(db_url@),
                live@,
            ),
    {
        match resolve_backend(db_url, features) {
            Err(e) => Err(e),
            Ok(target) => QueryData::from_live(&target, query, live),
        }
    }
}

/// A text that is no URL fails as such, whatever stands in it and whatever
/// the build has enabled: no scheme is looked at, and nothing is taken from
/// the database.
pub proof fn lemma_invalid_url(
    db_url: Seq<char>,
    query: Seq<char>,
    features: Features,
    reason: Seq<char>,
    live: LiveView,
)
    ensures
        from_db_spec(db_url, query, features, Err(reason), live) == Err::<QueryDataView, ErrorView>(
            ErrorView::InvalidUrl { url: db_url, reason },
        ),
{
}

/// The scheme of a URL outside the table is unsupported, whatever the build
/// has enabled, whatever the rest of the URL is, and whatever the database
/// would answer.
pub proof fn lemma_unknown_scheme(
    db_url: Seq<char>,
    query: Seq<char>,
    features: Features,
    url: Seq<char>,
    live: LiveView,
)
    requires
        backend_of(scheme_token(db_url)) is None,
    ensures
        from_db_spec(db_url, query, features, Ok(url), live) == Err::<QueryDataView, ErrorView>(
            ErrorView::UnsupportedScheme { scheme: scheme_token(db_url), url: db_url },
        ),
{
}

/// The scheme of a URL in the table whose backend the build has not enabled
/// is told apart from an unknown scheme: the failure names the backend.
pub proof fn lemma_disabled_backend(
    db_url: Seq<char>,
    query: Seq<char>,
    features: Features,
    url: Seq<char>,
    live: LiveView,
)
    requires
        backend_of(scheme_token(db_url)) matches Some(backend) && !features.has(backend),
    ensures
        from_db_spec(db_url, query, features, Ok(url), live) == Err::<QueryDataView, ErrorView>(
            ErrorView::UnsupportedBackend {
                backend: backend_of(scheme_token(db_url))->0,
                url: db_url,
            },
        ),
{
}

} // verus!
