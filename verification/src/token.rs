//! The tokens of an invocation, and what the Rust grammar makes of their
//! text: the value of a string literal, the number of elements of an array
//! of expressions, and whether a text is a type.
//!
//! The grammar is syn's. It reads a text through `proc-macro2`, which this
//! crate builds without the `proc-macro` feature: the text is then lexed by
//! `proc-macro2`'s own lexer in every process, inside a macro expansion as
//! outside of one. Nothing that syn has parsed is printed again; the texts
//! that the library keeps are made from the tokens it was given.

use vstd::prelude::*;
use crate::text::{opt_text, str_eq};

verus! {

/// The four kinds of token tree.
#[derive(Clone, Copy, Debug, PartialEq, Eq, Structural)]
pub enum TokenKind {
    Ident,
    Punct,
    Literal,
    Group,
}

/// One token tree of an invocation's input.
#[derive(Clone, Debug, PartialEq, Eq)]
pub struct Token {
    pub kind: TokenKind,
    /// The token as source text; for a group, its delimiters and content.
    pub text: String,
    /// For a punctuation character: whether the next token follows it
    /// without a space and forms one operator with it.
    pub joint: bool,
}

/// A `Token`, with each string as the sequence of its characters.
pub ghost struct TokenView {
    pub kind: TokenKind,
    pub text: Seq<char>,
    pub joint: bool,
}

impl View for Token {
    type V = TokenView;

    open spec fn view(&self) -> TokenView {
        TokenView { kind: self.kind, text: self.text@, joint: self.joint }
    }
}

/// The tokens of a vector, each by its view.
pub open spec fn token_views(tokens: Seq<Token>) -> Seq<TokenView> {
    tokens.map_values(|t: Token| t@)
}

/// Whether the token is the comma that separates two pairs.
pub open spec fn is_comma(t: TokenView) -> bool {
    t.kind == TokenKind::Punct && t.text == ","@
}

/// The text that a token adds to a line of source: itself, and a space
/// unless it is joint with the token that follows.
pub open spec fn piece(t: TokenView) -> Seq<char> {
    if t.joint {
        t.text
    } else {
        t.text + " "@
    }
}

/// The text of a run of tokens with a space behind each token that is not
/// joint with the next.
pub open spec fn spaced(tokens: Seq<TokenView>) -> Seq<char>
    decreases tokens.len(),
{
    if tokens.len() == 0 {
        Seq::empty()
    } else {
        spaced(tokens.drop_last()) + piece(tokens.last())
    }
}

/// The source text of a run of tokens: the tokens in order, with a space
/// between two of them unless the first is joint with the second.
pub open spec fn joined(tokens: Seq<TokenView>) -> Seq<char> {
    if tokens.len() == 0 {
        Seq::empty()
    } else {
        spaced(tokens.drop_last()) + tokens.last().text
    }
}

/// Whether `text` starts as a string literal does: with a double quote, or
/// with the `r` of a raw string.
pub open spec fn starts_as_str(text: Seq<char>) -> bool {
    text.len() > 0 && (text[0] == '"' || text[0] == 'r')
}

/// The value of the string literal that `text` is, if it is one: the
/// characters between the quotes, with escapes resolved.
pub uninterp spec fn rust_str_literal(text: Seq<char>) -> Option<Seq<char>>;

/// The number of elements of the array expression that `text` is, if it is
/// one.
pub uninterp spec fn rust_array_len(text: Seq<char>) -> Option<nat>;

/// Whether `text` is a type.
pub uninterp spec fn rust_is_type(text: Seq<char>) -> bool;

/// The value of the string literal that `text` is, if it is one.
pub open spec fn str_value(text: Seq<char>) -> Option<Seq<char>> {
    if starts_as_str(text) {
        rust_str_literal(text)
    } else {
        None
    }
}

/// Parses `text` as one string literal with `syn::parse_str::<syn::LitStr>`
/// and takes its value with `LitStr::value`; `None` stands for syn's error.
/// The text is lexed by `proc-macro2`, which is built without its
/// `proc-macro` feature and so reads it with its own lexer in every
/// process. The contract only names the result, which depends on `text`
/// alone, and only for a text that starts as a string literal does.
#[verifier::external_body]
fn str_literal_value(text: &str) -> (value: Option<String>)
    requires
        starts_as_str(text@),
    ensures
        opt_text(value) == rust_str_literal(text@),
{
    match syn::parse_str::<syn::LitStr>(text) {
        Ok(literal) => Some(literal.value()),
        Err(_) => None,
    }
}

/// Parses `text` as one array expression with
/// `syn::parse_str::<syn::ExprArray>` and counts its elements; `None`
/// stands for syn's error. Nothing is printed: the contract only names the
/// count, which depends on `text` alone.
#[verifier::external_body]
pub(crate) fn expr_array_len(text: &str) -> (len: Option<usize>)
    ensures
        match len {
            Some(n) => rust_array_len(text@) == Some(n as nat),
            None => rust_array_len(text@) is None,
        },
{
    match syn::parse_str::<syn::ExprArray>(text) {
        Ok(array) => Some(array.elems.len()),
        Err(_) => None,
    }
}

/// Asks `syn::parse_str::<syn::Type>` whether `text` is one type. Nothing
/// is printed: the contract only names the answer, which depends on `text`
/// alone.
#[verifier::external_body]
pub(crate) fn is_type(text: &str) -> (yes: bool)
    ensures
        yes == rust_is_type(text@),
{
    syn::parse_str::<syn::Type>(text).is_ok()
}

/// The value of the string literal that `text` is, if it is one. A text
/// that does not start as a string literal does is none, and is not handed
/// to the parser.
pub fn read_str_literal(text: &str) -> (value: Option<String>)
    ensures
        opt_text(value) == str_value(text@),
{
    if text.unicode_len() == 0 {
        return None;
    }
    let first = text.get_char(0);
    if first == '"' || first == 'r' {
        str_literal_value(text)
    } else {
        None
    }
}

impl Token {
    /// An identifier.
    pub fn ident(name: &str) -> (token: Token)
        ensures
            token@ == (TokenView { kind: TokenKind::Ident, text: name@, joint: false }),
    {
        Token { kind: TokenKind::Ident, text: name.to_owned(), joint: false }
    }

    /// A literal, as it stands in the source.
    pub fn literal(text: &str) -> (token: Token)
        ensures
            token@ == (TokenView { kind: TokenKind::Literal, text: text@, joint: false }),
    {
        Token { kind: TokenKind::Literal, text: text.to_owned(), joint: false }
    }

    /// A group, with its delimiters, as it stands in the source.
    pub fn group(text: &str) -> (token: Token)
        ensures
            token@ == (TokenView { kind: TokenKind::Group, text: text@, joint: false }),
    {
        Token { kind: TokenKind::Group, text: text.to_owned(), joint: false }
    }

    /// A punctuation character; `joint` where the next token forms one
    /// operator with it.
    pub fn punct(text: &str, joint: bool) -> (token: Token)
        ensures
            token@ == (TokenView { kind: TokenKind::Punct, text: text@, joint }),
    {
        Token { kind: TokenKind::Punct, text: text.to_owned(), joint }
    }

    /// Whether the token is the comma that separates two pairs.
    pub fn is_comma(&self) -> (b: bool)
        ensures
            b == is_comma(self@),
    {
        match self.kind {
            TokenKind::Punct => str_eq(self.text.as_str(), ","),
            _ => false,
        }
    }

    /// Whether the token is an identifier.
    pub fn is_ident(&self) -> (b: bool)
        ensures
            b == (self@.kind == TokenKind::Ident),
    {
        match self.kind {
            TokenKind::Ident => true,
            _ => false,
        }
    }

    /// Adds the token's text to a line of source.
    pub fn write_to(&self, line: &mut String)
        ensures
            final(line)@ == old(line)@ + piece(self@),
    {
        line.append(self.text.as_str());
        if !self.joint {
            line.append(" ");
        }
    }
}

} // verus!
