//! The input of an invocation: an ordered list of `key value` pairs,
//! separated by commas, and its parsing into a typed value.

use vstd::prelude::*;
use crate::error::{Error, ErrorView, Span, SyntaxProblem};
use crate::text::{decimal, str_eq, texts, usize_to_string};
use crate::token::{
    expr_array_len, is_comma, is_type, joined, read_str_literal, rust_array_len, rust_is_type,
    spaced, str_value, token_views, Token, TokenKind, TokenView,
};

verus! {

/// Where the SQL text of a query comes from.
#[derive(Clone, Debug, PartialEq, Eq)]
pub enum QuerySrc {
    /// The text itself.
    String(String),
    /// The path of a file that holds the text.
    File(String),
}

/// Where the description of a query comes from.
#[derive(Clone, Debug, PartialEq, Eq)]
pub enum DataSrc {
    /// The database whose URL the named environment variable holds.
    Env(String),
    /// The database at this URL.
    DbUrl(String),
    /// The offline cache.
    File,
}

/// The type of the records that a query yields.
#[derive(Clone, Debug, PartialEq, Eq)]
pub enum RecordType {
    /// The type that the invocation names.
    Given(String),
    /// A type generated from the result columns.
    Generated,
}

/// An argument expression, by its place in the input: the element at
/// `index` of the array of expressions that is the token at `token`.
#[derive(Clone, Copy, Debug, PartialEq, Eq, Structural)]
pub struct ArgExpr {
    pub token: usize,
    pub index: usize,
}

/// The parsed input of an invocation.
#[derive(Clone, Debug, PartialEq, Eq)]
pub struct QueryMacroInput {
    pub src: QuerySrc,
    pub src_span: Span,
    pub data_src: DataSrc,
    pub record_type: RecordType,
    /// `arg0`, `arg1`, ...: one name per argument.
    pub arg_names: Vec<String>,
    /// The argument expressions, in the order given.
    pub arg_exprs: Vec<ArgExpr>,
    pub unchecked_output: bool,
}

/// A `QuerySrc`, with each string as the sequence of its characters.
pub ghost enum QuerySrcView {
    String(Seq<char>),
    File(Seq<char>),
}

/// A `DataSrc`, with each string as the sequence of its characters.
pub ghost enum DataSrcView {
    Env(Seq<char>),
    DbUrl(Seq<char>),
    File,
}

/// A `RecordType`, with each string as the sequence of its characters.
pub ghost enum RecordTypeView {
    Given(Seq<char>),
    Generated,
}

/// A `QueryMacroInput`, with each string as the sequence of its characters.
pub ghost struct QueryMacroInputView {
    pub src: QuerySrcView,
    pub src_span: Span,
    pub data_src: DataSrcView,
    pub record_type: RecordTypeView,
    pub arg_names: Seq<Seq<char>>,
    pub arg_exprs: Seq<ArgExpr>,
    pub unchecked_output: bool,
}

impl View for QuerySrc {
    type V = QuerySrcView;

    open spec fn view(&self) -> QuerySrcView {
        match *self {
            QuerySrc::String(text) => QuerySrcView::String(text@),
            QuerySrc::File(path) => QuerySrcView::File(path@),
        }
    }
}

impl View for DataSrc {
    type V = DataSrcView;

    open spec fn view(&self) -> DataSrcView {
        match *self {
            DataSrc::Env(name) => DataSrcView::Env(name@),
            DataSrc::DbUrl(url) => DataSrcView::DbUrl(url@),
            DataSrc::File => DataSrcView::File,
        }
    }
}

impl View for RecordType {
    type V = RecordTypeView;

    open spec fn view(&self) -> RecordTypeView {
        match *self {
            RecordType::Given(ty) => RecordTypeView::Given(ty@),
            RecordType::Generated => RecordTypeView::Generated,
        }
    }
}

impl View for QueryMacroInput {
    type V = QueryMacroInputView;

    open spec fn view(&self) -> QueryMacroInputView {
        QueryMacroInputView {
            src: self.src@,
            src_span: self.src_span,
            data_src: self.data_src@,
            record_type: self.record_type@,
            arg_names: texts(self.arg_names@),
            arg_exprs: self.arg_exprs@,
            unchecked_output: self.unchecked_output,
        }
    }
}

/// The keys that an invocation may use.
#[derive(Clone, Copy, Debug, PartialEq, Eq, Structural)]
pub enum Key {
    Source,
    SourceFile,
    Args,
    RecordType,
    UncheckedOutput,
}

/// The key that an identifier names, if it names one.
pub open spec fn key_of(name: Seq<char>) -> Option<Key> {
    if name == "source"@ {
        Some(Key::Source)
    } else if name == "source_file"@ {
        Some(Key::SourceFile)
    } else if name == "args"@ {
        Some(Key::Args)
    } else if name == "record_type"@ {
        Some(Key::RecordType)
    } else if name == "unchecked_output"@ {
        Some(Key::UncheckedOutput)
    } else {
        None
    }
}

/// The name of the `i`-th argument.
pub open spec fn arg_name(i: int) -> Seq<char> {
    "arg"@ + decimal(i as nat)
}

/// The elements of the array of `len` expressions at `token`, in order.
pub open spec fn arg_exprs(token: usize, len: nat) -> Seq<ArgExpr> {
    Seq::new(len, |i: int| ArgExpr { token, index: i as usize })
}

/// The names of `n` arguments, in order.
pub open spec fn arg_names(n: nat) -> Seq<Seq<char>> {
    Seq::new(n, |i: int| arg_name(i))
}

/// What the pairs read so far have set.
pub ghost struct DraftView {
    pub src: Option<(QuerySrcView, Span)>,
    pub args: Option<(usize, nat)>,
    pub record_type: RecordTypeView,
    pub unchecked_output: bool,
}

/// The draft before any pair is read.
pub open spec fn empty_draft() -> DraftView {
    DraftView {
        src: None,
        args: None,
        record_type: RecordTypeView::Generated,
        unchecked_output: false,
    }
}

/// The place of the token at `at`, or of the invocation where the input
/// ends before it.
pub open spec fn span_at(tokens: Seq<TokenView>, at: int) -> Span {
    if 0 <= at < tokens.len() {
        Span::Token(at as usize)
    } else {
        Span::CallSite
    }
}

/// A failure of the given shape at the given place.
pub open spec fn syntax(span: Span, problem: SyntaxProblem) -> ErrorView {
    ErrorView::Syntax { span, problem }
}

/// Whether a value may end before position `at`: the input ends there, or
/// the comma before the next pair stands there.
pub open spec fn ends_value(tokens: Seq<TokenView>, at: int) -> bool {
    at == tokens.len() || (0 <= at < tokens.len() && is_comma(tokens[at]))
}

/// The type that the `n` tokens from `start` on form, if they form one and
/// the value may end behind them: their source text.
pub open spec fn type_here(tokens: Seq<TokenView>, start: int, n: nat) -> Option<Seq<char>> {
    if 0 <= start && 1 <= n && start + n <= tokens.len() && ends_value(tokens, start + n)
        && rust_is_type(joined(tokens.subrange(start, start + n))) {
        Some(joined(tokens.subrange(start, start + n)))
    } else {
        None
    }
}

/// The number of tokens of the type that starts at `start`: the least
/// number, from `n` on, of tokens that form a type and end where a value
/// may end.
pub open spec fn type_len(tokens: Seq<TokenView>, start: int, n: nat) -> Option<nat>
    decreases tokens.len() - start - n + 1,
{
    if start < 0 || start + n > tokens.len() {
        None
    } else if type_here(tokens, start, n) is Some {
        Some(n)
    } else {
        type_len(tokens, start, n + 1)
    }
}

/// The value of a pair.
pub ghost enum ValueView {
    /// The text of an inline query.
    Source(Seq<char>),
    /// The path of a query file.
    SourceFile(Seq<char>),
    /// The array of argument expressions: the token that holds it and the
    /// number of its elements.
    Args(usize, nat),
    /// The type of the records.
    RecordType(Seq<char>),
    /// Whether the output is left unchecked.
    UncheckedOutput(bool),
}

/// The value of `key` that starts at `at`, with the number of tokens that
/// it takes; or the failure that reading the value ends in.
///
/// The value of `source` and of `source_file` is one string literal, that of
/// `args` one array of expressions, that of `unchecked_output` `true` or
/// `false`, and that of `record_type` a type, which may take several
/// tokens.
pub open spec fn value_at(tokens: Seq<TokenView>, at: int, key: Key) -> Result<
    (nat, ValueView),
    ErrorView,
> {
    match key {
        Key::RecordType => match type_len(tokens, at, 1) {
            Some(n) => Ok((n, ValueView::RecordType(type_here(tokens, at, n)->0))),
            None => Err(syntax(span_at(tokens, at), SyntaxProblem::ExpectedType)),
        },
        Key::Source => if 0 <= at < tokens.len() && str_value(tokens[at].text) is Some {
            Ok((1, ValueView::Source(str_value(tokens[at].text)->0)))
        } else {
            Err(syntax(span_at(tokens, at), SyntaxProblem::ExpectedString))
        },
        Key::SourceFile => if 0 <= at < tokens.len() && str_value(tokens[at].text) is Some {
            Ok((1, ValueView::SourceFile(str_value(tokens[at].text)->0)))
        } else {
            Err(syntax(span_at(tokens, at), SyntaxProblem::ExpectedString))
        },
        Key::Args => if 0 <= at < tokens.len() && rust_array_len(tokens[at].text) is Some {
            Ok((1, ValueView::Args(at as usize, rust_array_len(tokens[at].text)->0)))
        } else {
            Err(syntax(span_at(tokens, at), SyntaxProblem::ExpectedArray))
        },
        Key::UncheckedOutput => if 0 <= at < tokens.len() && tokens[at].text == "true"@ {
            Ok((1, ValueView::UncheckedOutput(true)))
        } else if 0 <= at < tokens.len() && tokens[at].text == "false"@ {
            Ok((1, ValueView::UncheckedOutput(false)))
        } else {
            Err(syntax(span_at(tokens, at), SyntaxProblem::ExpectedBool))
        },
    }
}

/// The draft after a pair whose value starts at `at` is read. A later pair
/// overwrites what an earlier pair with the same meaning has set; `source`
/// and `source_file` both set the source.
pub open spec fn with_value(draft: DraftView, value: ValueView, at: int) -> DraftView {
    match value {
        ValueView::Source(text) => DraftView {
            src: Some((QuerySrcView::String(text), Span::Token(at as usize))),
            ..draft
        },
        ValueView::SourceFile(path) => DraftView {
            src: Some((QuerySrcView::File(path), Span::Token(at as usize))),
            ..draft
        },
        ValueView::Args(token, len) => DraftView { args: Some((token, len)), ..draft },
        ValueView::RecordType(ty) => DraftView { record_type: RecordTypeView::Given(ty), ..draft },
        ValueView::UncheckedOutput(b) => DraftView { unchecked_output: b, ..draft },
    }
}

/// The draft after the pair of `key` whose value starts at `at` is read,
/// with the number of tokens that the value takes.
pub open spec fn read_pair(tokens: Seq<TokenView>, at: int, key: Key, draft: DraftView) -> Result<
    (nat, DraftView),
    ErrorView,
> {
    match value_at(tokens, at, key) {
        Ok((n, value)) => Ok((n, with_value(draft, value, at))),
        Err(e) => Err(e),
    }
}

/// The draft after the pairs from `pos` on are read, or the first failure.
///
/// Every pair but the first of the input needs a comma before its key. The
/// key is an identifier, and one of the recognized ones.
pub open spec fn scan(tokens: Seq<TokenView>, pos: int, first: bool, draft: DraftView) -> Result<
    DraftView,
    ErrorView,
>
    decreases
        if pos < tokens.len() {
            tokens.len() - pos
        } else {
            0
        },
{
    if pos < 0 || pos >= tokens.len() {
        Ok(draft)
    } else if !first && !is_comma(tokens[pos]) {
        Err(syntax(Span::Token(pos as usize), SyntaxProblem::ExpectedComma))
    } else {
        let at = if first {
            pos
        } else {
            pos + 1
        };
        if at >= tokens.len() || tokens[at].kind != TokenKind::Ident {
            Err(syntax(span_at(tokens, at), SyntaxProblem::ExpectedKey))
        } else {
            match key_of(tokens[at].text) {
                None => Err(syntax(Span::Token(at as usize), SyntaxProblem::UnexpectedKey)),
                Some(key) => match read_pair(tokens, at + 1, key, draft) {
                    Err(e) => Err(e),
                    Ok((n, next)) => scan(tokens, at + 1 + n, false, next),
                },
            }
        }
    }
}

/// The input that a draft stands for, once all pairs are read: it needs a
/// source; the database is the one that `DATABASE_URL` names; the
/// arguments are named `arg0`, `arg1`, ... in the order given.
pub open spec fn finish(draft: DraftView) -> Result<QueryMacroInputView, ErrorView> {
    match draft.src {
        None => Err(syntax(Span::CallSite, SyntaxProblem::MissingSource)),
        Some((src, src_span)) => {
            let arg_exprs = match draft.args {
                Some((token, len)) => arg_exprs(token, len),
                None => Seq::empty(),
            };
            Ok(
                QueryMacroInputView {
                    src,
                    src_span,
                    data_src: DataSrcView::Env("DATABASE_URL"@),
                    record_type: draft.record_type,
                    arg_names: arg_names(arg_exprs.len()),
                    arg_exprs,
                    unchecked_output: draft.unchecked_output,
                },
            )
        },
    }
}

/// The input that the tokens of an invocation stand for, or the failure
/// that parsing them ends in.
pub open spec fn parse_spec(tokens: Seq<TokenView>) -> Result<QueryMacroInputView, ErrorView> {
    match scan(tokens, 0, true, empty_draft()) {
        Err(e) => Err(e),
        Ok(draft) => finish(draft),
    }
}

/// The parsed input or the failure that a call ended in, by its characters.
pub open spec fn parsed_view(r: Result<QueryMacroInput, Error>) -> Result<
    QueryMacroInputView,
    ErrorView,
> {
    match r {
        Ok(input) => Ok(input@),
        Err(e) => Err(e@),
    }
}

/// What the pairs read so far have set.
#[derive(Clone, Debug, PartialEq, Eq)]
pub struct Draft {
    pub src: Option<(QuerySrc, Span)>,
    pub args: Option<(usize, usize)>,
    pub record_type: RecordType,
    pub unchecked_output: bool,
}

impl View for Draft {
    type V = DraftView;

    open spec fn view(&self) -> DraftView {
        DraftView {
            src: match self.src {
                Some((src, span)) => Some((src@, span)),
                None => None,
            },
            args: match self.args {
                Some((token, len)) => Some((token, len as nat)),
                None => None,
            },
            record_type: self.record_type@,
            unchecked_output: self.unchecked_output,
        }
    }
}

/// The draft or the failure that reading a value ended in, by its characters.
pub open spec fn value_view(r: Result<(usize, Draft), Error>) -> Result<(nat, DraftView), ErrorView> {
    match r {
        Ok((n, draft)) => Ok((n as nat, draft@)),
        Err(e) => Err(e@),
    }
}

/// The key that an identifier names, if it names one.
pub fn key_for(name: &str) -> (key: Option<Key>)
    ensures
        key == key_of(name@),
{
    if str_eq(name, "source") {
        Some(Key::Source)
    } else if str_eq(name, "source_file") {
        Some(Key::SourceFile)
    } else if str_eq(name, "args") {
        Some(Key::Args)
    } else if str_eq(name, "record_type") {
        Some(Key::RecordType)
    } else if str_eq(name, "unchecked_output") {
        Some(Key::UncheckedOutput)
    } else {
        None
    }
}

/// The elements of the array of `len` expressions at `token`, in order.
pub fn make_arg_exprs(token: usize, len: usize) -> (exprs: Vec<ArgExpr>)
    ensures
        exprs@ == arg_exprs(token, len as nat),
{
    let mut exprs: Vec<ArgExpr> = Vec::new();
    let mut i: usize = 0;
    while i < len
        invariant
            i <= len,
            exprs@.len() == i,
            forall|k: int| 0 <= k < i ==> #[trigger] exprs@[k] == (ArgExpr { token, index: k as usize }),
        decreases len - i,
    {
        exprs.push(ArgExpr { token, index: i });
        i += 1;
    }
    assert(exprs@ =~= arg_exprs(token, len as nat));
    exprs
}

/// The names `arg0`, `arg1`, ... of `n` arguments.
pub fn make_arg_names(n: usize) -> (names: Vec<String>)
    ensures
        texts(names@) == arg_names(n as nat),
        names@.len() == n,
        forall|k: int| 0 <= k < n ==> (#[trigger] names@[k])@ == arg_name(k),
{
    let mut names: Vec<String> = Vec::new();
    let mut i: usize = 0;
    while i < n
        invariant
            i <= n,
            names@.len() == i,
            forall|k: int| 0 <= k < i ==> (#[trigger] names@[k])@ == arg_name(k),
        decreases n - i,
    {
        let mut name = "arg".to_owned();
        let number = usize_to_string(i);
        name.append(number.as_str());
        names.push(name);
        i += 1;
    }
    assert(texts(names@) =~= arg_names(n as nat));
    names
}

/// The place of the token at `at`, or of the invocation where the input
/// ends before it.
pub fn span_of(tokens: &Vec<Token>, at: usize) -> (span: Span)
    ensures
        span == span_at(token_views(tokens@), at as int),
{
    if at < tokens.len() {
        Span::Token(at)
    } else {
        Span::CallSite
    }
}

/// Finds the type that starts at `start`: the number of tokens it takes and
/// its text.
pub fn read_type(tokens: &Vec<Token>, start: usize) -> (r: Option<(usize, String)>)
    ensures
        match r {
            Some((n, ty)) => {
                &&& type_len(token_views(tokens@), start as int, 1) == Some(n as nat)
                &&& type_here(token_views(tokens@), start as int, n as nat) == Some(ty@)
                &&& 1 <= n
                &&& start + n <= tokens.len()
            },
            None => type_len(token_views(tokens@), start as int, 1) is None,
        },
{
    let ghost views = token_views(tokens@);
    if start >= tokens.len() {
        return None;
    }
    let mut head = String::new();
    let mut n: usize = 1;
    proof {
        assert(views.subrange(start as int, start as int) =~= Seq::<TokenView>::empty());
    }
    loop
        invariant
            views == token_views(tokens@),
            1 <= n,
            start + n <= tokens.len(),
            head@ == spaced(views.subrange(start as int, start + n - 1)),
            type_len(views, start as int, 1) == type_len(views, start as int, n as nat),
        decreases tokens.len() - start - n,
    {
        let at_end = start + n == tokens.len();
        let ends = at_end || tokens[start + n].is_comma();
        proof {
            let run = views.subrange(start as int, start + n);
            assert(run.drop_last() =~= views.subrange(start as int, start + n - 1));
            assert(run.last() == views[start + n - 1]);
        }
        if ends {
            let mut text = head.clone();
            text.append(tokens[start + n - 1].text.as_str());
            if is_type(text.as_str()) {
                return Some((n, text));
            }
        }
        assert(type_here(views, start as int, n as nat) is None);
        if at_end {
            assert(type_len(views, start as int, (n + 1) as nat) is None);
            return None;
        }
        tokens[start + n - 1].write_to(&mut head);
        n += 1;
    }
}

/// Reads the value of `key` that starts at `at` into the draft, and says
/// how many tokens the value takes.
pub fn read_value(tokens: &Vec<Token>, at: usize, key: Key, draft: Draft) -> (r: Result<
    (usize, Draft),
    Error,
>)
    ensures
        value_view(r) == read_pair(token_views(tokens@), at as int, key, draft@),
        r matches Ok((n, _)) ==> 1 <= n && at + n <= tokens.len(),
{
    let mut draft = draft;
    let span = span_of(tokens, at);
    match key {
        Key::RecordType => match read_type(tokens, at) {
            Some((n, ty)) => {
                draft.record_type = RecordType::Given(ty);
                Ok((n, draft))
            },
            None => Err(Error::Syntax { span, problem: SyntaxProblem::ExpectedType }),
        },
        Key::Source => {
            if at >= tokens.len() {
                return Err(Error::Syntax { span, problem: SyntaxProblem::ExpectedString });
            }
            match read_str_literal(tokens[at].text.as_str()) {
                Some(text) => {
                    draft.src = Some((QuerySrc::String(text), Span::Token(at)));
                    Ok((1, draft))
                },
                None => Err(Error::Syntax { span, problem: SyntaxProblem::ExpectedString }),
            }
        },
        Key::SourceFile => {
            if at >= tokens.len() {
                return Err(Error::Syntax { span, problem: SyntaxProblem::ExpectedString });
            }
            match read_str_literal(tokens[at].text.as_str()) {
                Some(path) => {
                    draft.src = Some((QuerySrc::File(path), Span::Token(at)));
                    Ok((1, draft))
                },
                None => Err(Error::Syntax { span, problem: SyntaxProblem::ExpectedString }),
            }
        },
        Key::Args => {
            if at >= tokens.len() {
                return Err(Error::Syntax { span, problem: SyntaxProblem::ExpectedArray });
            }
            match expr_array_len(tokens[at].text.as_str()) {
                Some(len) => {
                    draft.args = Some((at, len));
                    Ok((1, draft))
                },
                None => Err(Error::Syntax { span, problem: SyntaxProblem::ExpectedArray }),
            }
        },
        Key::UncheckedOutput => {
            if at >= tokens.len() {
                return Err(Error::Syntax { span, problem: SyntaxProblem::ExpectedBool });
            }
            if str_eq(tokens[at].text.as_str(), "true") {
                draft.unchecked_output = true;
                Ok((1, draft))
            } else if str_eq(tokens[at].text.as_str(), "false") {
                draft.unchecked_output = false;
                Ok((1, draft))
            } else {
                Err(Error::Syntax { span, problem: SyntaxProblem::ExpectedBool })
            }
        },
    }
}

impl Draft {
    /// The draft before any pair is read.
    pub fn new() -> (draft: Draft)
        ensures
            draft@ == empty_draft(),
    {
        Draft { src: None, args: None, record_type: RecordType::Generated, unchecked_output: false }
    }

    /// Closes the draft once all pairs are read.
    pub fn finish(self) -> (r: Result<QueryMacroInput, Error>)
        ensures
            parsed_view(r) == finish(self@),
            r matches Ok(input) ==> input.wf(),
    {
        let (src, src_span) = match self.src {
            Some(found) => found,
            None => {
                return Err(
                    Error::Syntax { span: Span::CallSite, problem: SyntaxProblem::MissingSource },
                );
            },
        };
        let arg_exprs = match self.args {
            Some((token, len)) => make_arg_exprs(token, len),
            None => Vec::new(),
        };
        let arg_names = make_arg_names(arg_exprs.len());
        proof {
            if self.args is None {
                assert(arg_exprs@ =~= Seq::<ArgExpr>::empty());
            }
        }
        Ok(
            QueryMacroInput {
                src,
                src_span,
                data_src: DataSrc::Env("DATABASE_URL".to_owned()),
                record_type: self.record_type,
                arg_names,
                arg_exprs,
                unchecked_output: self.unchecked_output,
            },
        )
    }
}

impl QueryMacroInput {
    /// Parses the tokens of an invocation.
    ///
    /// The input is a list of `key value` pairs with a comma between each
    /// two. It needs `source` or `source_file`; where the same setting is
    /// given more than once, the last one counts.
    pub fn parse(tokens: &Vec<Token>) -> (r: Result<QueryMacroInput, Error>)
        ensures
            parsed_view(r) == parse_spec(token_views(tokens@)),
            r matches Ok(input) ==> input.wf(),
    {
        let ghost views = token_views(tokens@);
        let mut draft = Draft::new();
        let mut pos: usize = 0;
        let mut first = true;
        while pos < tokens.len()
            invariant
                views == token_views(tokens@),
                pos <= tokens.len(),
                scan(views, 0, true, empty_draft()) == scan(views, pos as int, first, draft@),
            decreases tokens.len() - pos,
        {
            if !first && !tokens[pos].is_comma() {
                return Err(
                    Error::Syntax { span: Span::Token(pos), problem: SyntaxProblem::ExpectedComma },
                );
            }
            let at = if first {
                pos
            } else {
                pos + 1
            };
            if at >= tokens.len() || !tokens[at].is_ident() {
                return Err(
                    Error::Syntax {
                        span: span_of(tokens, at),
                        problem: SyntaxProblem::ExpectedKey,
                    },
                );
            }
            let key = match key_for(tokens[at].text.as_str()) {
                Some(key) => key,
                None => {
                    return Err(
                        Error::Syntax {
                            span: Span::Token(at),
                            problem: SyntaxProblem::UnexpectedKey,
                        },
                    );
                },
            };
            match read_value(tokens, at + 1, key, draft) {
                Ok((n, next)) => {
                    draft = next;
                    pos = at + 1 + n;
                },
                Err(e) => {
                    return Err(e);
                },
            }
            first = false;
        }
        draft.finish()
    }

    /// Whether the arguments are named as they must be: one name per
    /// expression, `arg0`, `arg1`, ... in order.
    pub open spec fn wf(&self) -> bool {
        &&& self.arg_names@.len() == self.arg_exprs@.len()
        &&& forall|i: int|
            0 <= i < self.arg_names@.len() ==> (#[trigger] self.arg_names@[i])@ == arg_name(i)
    }
}

} // verus!
