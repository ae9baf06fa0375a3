//! Tokens: a kind, the span of source it covers, and its text.
use vstd::prelude::*;
use crate::token_kind::TokenKind;

verus! {

/// A token of the source, as the lexer produced it.
#[derive(Debug)]
pub struct Token {
    _kind: TokenKind,
    _span: std::ops::Range<usize>,
    _slice: String,
}

impl Token {
    /// The kind of the token.
    pub closed spec fn spec_kind(&self) -> TokenKind {
        self._kind
    }

    /// The source text of the token.
    pub closed spec fn spec_text(&self) -> Seq<char> {
        self._slice@
    }

    /// A token of kind `kind` covering `span`, whose source text is `slice`.
    pub fn new(kind: TokenKind, span: std::ops::Range<usize>, slice: String) -> (r: Token)
        ensures
            r.spec_kind() == kind,
            r.spec_text() == slice@,
    {
        Token { _kind: kind, _span: span, _slice: slice }
    }

    /// The token that stands for the end of the input, at byte offset `end`.
    pub fn eof(end: usize) -> (r: Token)
        ensures
            r.spec_kind() == TokenKind::Eof,
            r.spec_text() == Seq::<char>::empty(),
    {
        Token { _kind: TokenKind::Eof, _span: std::ops::Range { start: end, end: end }, _slice: String::new() }
    }

    pub fn kind(&self) -> (r: TokenKind)
        ensures
            r == self.spec_kind(),
    {
        self._kind
    }

    pub fn source_str(&self) -> (r: String)
        ensures
            r@ == self.spec_text(),
    {
        self._slice.clone()
    }

    /// A copy of the token.
    pub fn duplicate(&self) -> (r: Token)
        ensures
            r.spec_kind() == self.spec_kind(),
            r.spec_text() == self.spec_text(),
    {
        Token {
            _kind: self._kind,
            _span: std::ops::Range { start: self._span.start, end: self._span.end },
            _slice: self._slice.clone(),
        }
    }
}

} // verus!
