//! A cursor over the tokens of a source, which reads as the end-of-input
//! token past the last one and can go back to a saved position.
use vstd::prelude::*;
use crate::parse_error::{ParseError, ParseResult};
use crate::token::Token;
use crate::token_kind::TokenKind;

verus! {

pub struct TokenBuffer {
    tokens: Vec<Token>,
    offset: usize,
    eof: Token,
}

impl TokenBuffer {
    /// The tokens of the source, in order.
    pub closed spec fn spec_tokens(&self) -> Seq<Token> {
        self.tokens@
    }

    /// How many tokens have been consumed.
    pub closed spec fn spec_offset(&self) -> nat {
        self.offset as nat
    }

    /// The token read past the last one.
    pub closed spec fn spec_eof(&self) -> Token {
        self.eof
    }

    /// The end token has the end kind, and the tokens can be counted.
    pub open spec fn wf(&self) -> bool {
        &&& self.spec_eof().spec_kind() == TokenKind::Eof
        &&& self.spec_tokens().len() <= usize::MAX
    }

    /// The token `index` places after the cursor.
    pub open spec fn token_at(&self, index: int) -> Token {
        let i = self.spec_offset() + index;
        if i < self.spec_tokens().len() {
            self.spec_tokens()[i]
        } else {
            self.spec_eof()
        }
    }

    /// The number of tokens not yet consumed.
    pub open spec fn remaining(&self) -> nat {
        if self.spec_offset() < self.spec_tokens().len() {
            (self.spec_tokens().len() - self.spec_offset()) as nat
        } else {
            0
        }
    }

    /// Whether `other` holds the same tokens as `self`, maybe at another position.
    pub open spec fn same_tokens(&self, other: &TokenBuffer) -> bool {
        &&& self.spec_tokens() == other.spec_tokens()
        &&& self.spec_eof() == other.spec_eof()
    }

    /// A cursor at the first of `tokens`; past the last one it reads the end
    /// token at byte offset `end`.
    pub fn new(tokens: Vec<Token>, end: usize) -> (r: TokenBuffer)
        ensures
            r.wf(),
            r.spec_tokens() == tokens@,
            r.spec_offset() == 0,
    {
        let n = tokens.len();
        let r = TokenBuffer { tokens, offset: 0, eof: Token::eof(end) };
        assert(r.spec_tokens().len() == n);
        r
    }

    pub fn get_token(&self, index: usize) -> (r: &Token)
        requires
            self.wf(),
        ensures
            *r == self.token_at(index as int),
    {
        let len = self.tokens.len();
        if self.offset < len && index < len - self.offset {
            &self.tokens[self.offset + index]
        } else {
            &self.eof
        }
    }

    pub fn get_token_kind(&self, index: usize) -> (r: TokenKind)
        requires
            self.wf(),
        ensures
            r == self.token_at(index as int).spec_kind(),
    {
        self.get_token(index).kind()
    }

    /// Consumes one token when the token `index` places on has kind `kind`,
    /// and returns a copy of that token; fails and consumes nothing otherwise.
    pub fn assert_token(&mut self, index: usize, kind: TokenKind) -> (r: ParseResult<Token>)
        requires
            old(self).wf(),
            old(self).token_at(index as int).spec_kind() == kind ==> old(self).spec_offset()
                < usize::MAX,
        ensures
            final(self).wf(),
            final(self).same_tokens(old(self)),
            r is Ok <==> old(self).token_at(index as int).spec_kind() == kind,
            r matches Ok(t) ==> t.spec_kind() == kind && t.spec_text() == old(self).token_at(
                index as int,
            ).spec_text(),
            r is Ok ==> final(self).spec_offset() == old(self).spec_offset() + 1,
            r is Err ==> final(self).spec_offset() == old(self).spec_offset(),
    {
        let tkn = self.get_token(index).duplicate();
        if tkn.kind() == kind {
            self.bump();
            Ok(tkn)
        } else {
            Err(ParseError)
        }
    }

    /// Consumes the current token.
    pub fn bump(&mut self)
        requires
            old(self).wf(),
            old(self).spec_offset() < usize::MAX,
        ensures
            final(self).wf(),
            final(self).same_tokens(old(self)),
            final(self).spec_offset() == old(self).spec_offset() + 1,
    {
        self.offset = self.offset + 1;
    }

    /// The current position, to come back to later.
    pub fn save_snap(&self) -> (r: usize)
        ensures
            r == self.spec_offset(),
    {
        self.offset
    }

    /// Goes back to a saved position.
    pub fn return_snap(&mut self, snap: usize)
        requires
            old(self).wf(),
        ensures
            final(self).wf(),
            final(self).same_tokens(old(self)),
            final(self).spec_offset() == snap,
    {
        self.offset = snap;
    }
}

} // verus!
