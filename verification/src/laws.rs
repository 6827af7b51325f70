//! What holds of the parsing of every input.

use vstd::prelude::*;
use crate::error::{ErrorView, Span, SyntaxProblem};
use crate::input::{
    arg_exprs, arg_name, empty_draft, key_of, parse_spec, read_pair, scan, syntax, value_at,
    ArgExpr, DraftView, Key, QueryMacroInputView, ValueView,
};
use crate::token::{is_comma, TokenKind, TokenView};

verus! {

/// Whether a key is expected at position `k` when the pairs from `pos` on
/// are read: every pair before `k` has a recognized key and a value, and
/// the commas between the pairs are there.
pub open spec fn key_expected_at(tokens: Seq<TokenView>, pos: int, first: bool, k: int) -> bool
    decreases
        if pos < tokens.len() {
            tokens.len() - pos
        } else {
            0
        },
{
    if pos < 0 || pos >= tokens.len() {
        false
    } else if !first && !is_comma(tokens[pos]) {
        false
    } else {
        let at = if first {
            pos
        } else {
            pos + 1
        };
        if at >= tokens.len() {
            false
        } else if at == k {
            true
        } else if tokens[at].kind != TokenKind::Ident {
            false
        } else {
            match key_of(tokens[at].text) {
                None => false,
                Some(key) => match value_at(tokens, at + 1, key) {
                    Err(_) => false,
                    Ok((n, _)) => key_expected_at(tokens, at + 1 + n, false, k),
                },
            }
        }
    }
}

/// Whether the tokens from `pos` on are pairs, with a comma between each
/// two: each pair a recognized key and a value of the kind that the key asks
/// for.
pub open spec fn well_formed(tokens: Seq<TokenView>, pos: int, first: bool) -> bool
    decreases
        if pos < tokens.len() {
            tokens.len() - pos
        } else {
            0
        },
{
    if pos < 0 {
        false
    } else if pos >= tokens.len() {
        true
    } else if !first && !is_comma(tokens[pos]) {
        false
    } else {
        let at = if first {
            pos
        } else {
            pos + 1
        };
        if at >= tokens.len() || tokens[at].kind != TokenKind::Ident {
            false
        } else {
            match key_of(tokens[at].text) {
                None => false,
                Some(key) => match value_at(tokens, at + 1, key) {
                    Err(_) => false,
                    Ok((n, _)) => well_formed(tokens, at + 1 + n, false),
                },
            }
        }
    }
}

/// Whether one of the pairs from `pos` on has the key `source` or
/// `source_file`.
pub open spec fn source_given(tokens: Seq<TokenView>, pos: int, first: bool) -> bool
    decreases
        if pos < tokens.len() {
            tokens.len() - pos
        } else {
            0
        },
{
    if pos < 0 || pos >= tokens.len() {
        false
    } else if !first && !is_comma(tokens[pos]) {
        false
    } else {
        let at = if first {
            pos
        } else {
            pos + 1
        };
        if at >= tokens.len() || tokens[at].kind != TokenKind::Ident {
            false
        } else {
            match key_of(tokens[at].text) {
                None => false,
                Some(key) => match value_at(tokens, at + 1, key) {
                    Err(_) => false,
                    Ok((n, _)) => key == Key::Source || key == Key::SourceFile || source_given(
                        tokens,
                        at + 1 + n,
                        false,
                    ),
                },
            }
        }
    }
}

/// The argument expressions that the pairs from `pos` on give: the elements
/// of the array of the last `args` pair among them, in order, and `sofar`
/// where there is no such pair.
pub open spec fn args_given(
    tokens: Seq<TokenView>,
    pos: int,
    first: bool,
    sofar: Seq<ArgExpr>,
) -> Seq<ArgExpr>
    decreases
        if pos < tokens.len() {
            tokens.len() - pos
        } else {
            0
        },
{
    if pos < 0 || pos >= tokens.len() {
        sofar
    } else if !first && !is_comma(tokens[pos]) {
        sofar
    } else {
        let at = if first {
            pos
        } else {
            pos + 1
        };
        if at >= tokens.len() || tokens[at].kind != TokenKind::Ident {
            sofar
        } else {
            match key_of(tokens[at].text) {
                None => sofar,
                Some(key) => match value_at(tokens, at + 1, key) {
                    Err(_) => sofar,
                    Ok((n, ValueView::Args(token, len))) => args_given(
                        tokens,
                        at + 1 + n,
                        false,
                        arg_exprs(token, len),
                    ),
                    Ok((n, _)) => args_given(tokens, at + 1 + n, false, sofar),
                },
            }
        }
    }
}

/// The argument expressions that a draft holds.
pub open spec fn draft_args(draft: DraftView) -> Seq<ArgExpr> {
    match draft.args {
        Some((token, len)) => arg_exprs(token, len),
        None => Seq::empty(),
    }
}

/// Whether the arguments of a parsed input are named as they must be: one
/// name per expression, `arg0`, `arg1`, ... in order.
pub open spec fn args_named(input: QueryMacroInputView) -> bool {
    &&& input.arg_names.len() == input.arg_exprs.len()
    &&& forall|i: int| 0 <= i < input.arg_names.len() ==> #[trigger] input.arg_names[i] == arg_name(i)
}

proof fn lemma_scan_only_syntax(tokens: Seq<TokenView>, pos: int, first: bool, draft: DraftView)
    ensures
        scan(tokens, pos, first, draft) matches Err(e) ==> e is Syntax,
    decreases
        if pos < tokens.len() {
            tokens.len() - pos
        } else {
            0
        },
{
    if 0 <= pos < tokens.len() && (first || is_comma(tokens[pos])) {
        let at = if first {
            pos
        } else {
            pos + 1
        };
        if at < tokens.len() && tokens[at].kind == TokenKind::Ident {
            if let Some(key) = key_of(tokens[at].text) {
                if let Ok((n, next)) = read_pair(tokens, at + 1, key, draft) {
                    lemma_scan_only_syntax(tokens, at + 1 + n, false, next);
                }
            }
        }
    }
}

proof fn lemma_scan_without_source(tokens: Seq<TokenView>, pos: int, first: bool, draft: DraftView)
    requires
        !source_given(tokens, pos, first),
        draft.src is None,
    ensures
        scan(tokens, pos, first, draft) matches Ok(end) ==> end.src is None,
    decreases
        if pos < tokens.len() {
            tokens.len() - pos
        } else {
            0
        },
{
    if 0 <= pos < tokens.len() && (first || is_comma(tokens[pos])) {
        let at = if first {
            pos
        } else {
            pos + 1
        };
        if at < tokens.len() && tokens[at].kind == TokenKind::Ident {
            if let Some(key) = key_of(tokens[at].text) {
                if let Ok((n, next)) = read_pair(tokens, at + 1, key, draft) {
                    lemma_scan_without_source(tokens, at + 1 + n, false, next);
                }
            }
        }
    }
}

proof fn lemma_scan_unknown_key(
    tokens: Seq<TokenView>,
    pos: int,
    first: bool,
    draft: DraftView,
    k: int,
)
    requires
        key_expected_at(tokens, pos, first, k),
        0 <= k < tokens.len(),
        tokens[k].kind == TokenKind::Ident,
        key_of(tokens[k].text) is None,
    ensures
        scan(tokens, pos, first, draft) == Err::<DraftView, ErrorView>(
            syntax(Span::Token(k as usize), SyntaxProblem::UnexpectedKey),
        ),
    decreases
        if pos < tokens.len() {
            tokens.len() - pos
        } else {
            0
        },
{
    let at = if first {
        pos
    } else {
        pos + 1
    };
    if at != k {
        let key = key_of(tokens[at].text)->0;
        let n = value_at(tokens, at + 1, key)->Ok_0.0;
        let next = read_pair(tokens, at + 1, key, draft)->Ok_0.1;
        lemma_scan_unknown_key(tokens, at + 1 + n, false, next, k);
    }
}

proof fn lemma_scan_well_formed(tokens: Seq<TokenView>, pos: int, first: bool, draft: DraftView)
    requires
        well_formed(tokens, pos, first),
    ensures
        scan(tokens, pos, first, draft) matches Ok(end) && {
            &&& end.src is Some <==> draft.src is Some || source_given(tokens, pos, first)
            &&& draft_args(end) == args_given(tokens, pos, first, draft_args(draft))
        },
    decreases
        if pos < tokens.len() {
            tokens.len() - pos
        } else {
            0
        },
{
    if pos < tokens.len() {
        let at = if first {
            pos
        } else {
            pos + 1
        };
        let key = key_of(tokens[at].text)->0;
        let n = value_at(tokens, at + 1, key)->Ok_0.0;
        let next = read_pair(tokens, at + 1, key, draft)->Ok_0.1;
        lemma_scan_well_formed(tokens, at + 1 + n, false, next);
    }
}

/// Parsing fails only with a failure of syntax.
pub proof fn lemma_parse_fails_with_syntax(tokens: Seq<TokenView>)
    ensures
        parse_spec(tokens) matches Err(e) ==> e is Syntax,
{
    lemma_scan_only_syntax(tokens, 0, true, empty_draft());
}

/// An input without a source cannot be parsed: where none of its pairs
/// has the key `source` or `source_file`, parsing fails with a failure of
/// syntax. The failure is that of the first pair that is not well-formed;
/// where all pairs are, it is `MissingSource`, reported at the invocation.
pub proof fn lemma_source_is_required(tokens: Seq<TokenView>)
    requires
        !source_given(tokens, 0, true),
    ensures
        parse_spec(tokens) matches Err(e) && e is Syntax,
        parse_spec(tokens) == match scan(tokens, 0, true, empty_draft()) {
            Err(e) => Err::<QueryMacroInputView, ErrorView>(e),
            Ok(_) => Err(syntax(Span::CallSite, SyntaxProblem::MissingSource)),
        },
        well_formed(tokens, 0, true) ==> parse_spec(tokens) == Err::<
            QueryMacroInputView,
            ErrorView,
        >(syntax(Span::CallSite, SyntaxProblem::MissingSource)),
{
    lemma_scan_without_source(tokens, 0, true, empty_draft());
    lemma_scan_only_syntax(tokens, 0, true, empty_draft());
    if well_formed(tokens, 0, true) {
        lemma_scan_well_formed(tokens, 0, true, empty_draft());
    }
}

/// An unrecognized key is reported where it stands: where a key is expected
/// at position `k` and the token there is an identifier that is none of
/// the recognized keys, parsing fails with `UnexpectedKey` at token `k`.
pub proof fn lemma_unknown_key_is_located(tokens: Seq<TokenView>, k: int)
    requires
        0 <= k < tokens.len(),
        key_expected_at(tokens, 0, true, k),
        tokens[k].kind == TokenKind::Ident,
        key_of(tokens[k].text) is None,
    ensures
        parse_spec(tokens) == Err::<QueryMacroInputView, ErrorView>(
            syntax(Span::Token(k as usize), SyntaxProblem::UnexpectedKey),
        ),
{
    lemma_scan_unknown_key(tokens, 0, true, empty_draft(), k);
}

/// A well-formed input with a source is parsed: where the input is pairs
/// with a comma between each two, each pair a recognized key with a value
/// of its kind, and one pair has the key `source` or `source_file`, parsing
/// succeeds. The argument expressions are then the elements of the array of
/// the last `args` pair, in order, and none where there is no such pair;
/// and there is one name per expression, `arg0`, `arg1`, ... in order.
pub proof fn lemma_well_formed_input_parses(tokens: Seq<TokenView>)
    requires
        well_formed(tokens, 0, true),
        source_given(tokens, 0, true),
    ensures
        parse_spec(tokens) matches Ok(input) && {
            &&& input.arg_exprs == args_given(tokens, 0, true, Seq::empty())
            &&& args_named(input)
        },
{
    lemma_scan_well_formed(tokens, 0, true, empty_draft());
}

/// Every parsed input has one name per argument expression, `arg0`, `arg1`,
/// ... in order.
pub proof fn lemma_parsed_args_are_named(tokens: Seq<TokenView>)
    ensures
        parse_spec(tokens) matches Ok(input) ==> args_named(input),
{
}

} // verus!
