//! Recursive-descent parser from tokens to the syntax tree.
use vstd::prelude::*;
use crate::ast::{Arg, BinOp, Expr, Ident, Literal, Program, Stmt};
use crate::binary::text_bytes;
use crate::parse_error::{ParseError, ParseResult};
use crate::precedence::{precedence_of, rank_of, Precedence};
use crate::token::Token;
use crate::token_buffer::TokenBuffer;
use crate::token_kind::TokenKind;

verus! {

/// The value of a sequence of decimal digit bytes.
pub open spec fn decimal_value(s: Seq<u8>) -> nat
    decreases s.len(),
{
    if s.len() == 0 {
        0
    } else {
        decimal_value(s.drop_last()) * 10 + (s.last() - 0x30u8) as nat
    }
}

/// Whether `s` is a non-empty sequence of decimal digit bytes.
pub open spec fn is_decimal(s: Seq<u8>) -> bool {
    s.len() > 0 && forall|k: int| 0 <= k < s.len() ==> 0x30u8 <= #[trigger] s[k] <= 0x39u8
}

/// The number that a text of decimal digits stands for, when it is one and
/// fits in 64 bits.
pub fn parse_decimal(s: &String) -> (r: Option<u64>)
    ensures
        r == if is_decimal(text_bytes(s@)) && decimal_value(text_bytes(s@)) <= u64::MAX {
            Some(decimal_value(text_bytes(s@)) as u64)
        } else {
            None
        },
{
    let bytes = s.as_str().as_bytes();
    let ghost b = bytes@;
    assert(b == text_bytes(s@));
    let n = bytes.len();
    if n == 0 {
        return None;
    }
    let mut acc: u64 = 0;
    let mut k: usize = 0;
    while k < n
        invariant
            n == b.len(),
            b == bytes@,
            b == text_bytes(s@),
            k <= n,
            forall|j: int| 0 <= j < k ==> 0x30u8 <= #[trigger] b[j] <= 0x39u8,
            acc as nat == decimal_value(b.subrange(0, k as int)),
        decreases n - k,
    {
        let c = bytes[k];
        if c < 0x30 || c > 0x39 {
            assert(!is_decimal(b));
            return None;
        }
        assert(b.subrange(0, k + 1).drop_last() =~= b.subrange(0, k as int));
        let d = (c - 0x30) as u64;
        if acc > (u64::MAX - d) / 10 {
            proof {
                assert(acc * 10 + d > u64::MAX) by (nonlinear_arith)
                    requires
                        acc > (u64::MAX - d) / 10,
                        d <= 9,
                ;
                if is_decimal(b) {
                    lemma_decimal_prefix_bound(b, (k + 1) as int);
                }
            }
            return None;
        }
        acc = acc * 10 + d;
        k = k + 1;
    }
    assert(b.subrange(0, n as int) =~= b);
    Some(acc)
}

/// The value of a digit sequence is at least the value of any of its prefixes.
proof fn lemma_decimal_prefix_bound(b: Seq<u8>, k: int)
    requires
        0 <= k <= b.len(),
        forall|j: int| 0 <= j < b.len() ==> 0x30u8 <= #[trigger] b[j] <= 0x39u8,
    ensures
        decimal_value(b) >= decimal_value(b.subrange(0, k)),
    decreases b.len(),
{
    if k < b.len() {
        assert(b.drop_last() =~= b.subrange(0, b.len() - 1));
        assert(b.drop_last().subrange(0, k) =~= b.subrange(0, k));
        lemma_decimal_prefix_bound(b.drop_last(), k);
    } else {
        assert(b.subrange(0, k) =~= b);
    }
}

/// The kind of the token at position `p`; the end kind past the last token.
pub open spec fn kind_at(toks: Seq<Token>, p: int) -> TokenKind {
    if 0 <= p < toks.len() {
        toks[p].spec_kind()
    } else {
        TokenKind::Eof
    }
}

/// The first position at or after `p` whose token is not whitespace.
pub open spec fn next_non_ws(toks: Seq<Token>, p: int) -> int
    decreases toks.len() - p,
{
    if 0 <= p < toks.len() && toks[p].spec_kind() == TokenKind::Whitespace {
        next_non_ws(toks, p + 1)
    } else {
        p
    }
}

/// Whether a token kind is a binary operator.
pub open spec fn is_binop_kind(k: TokenKind) -> bool {
    k == TokenKind::Plus || k == TokenKind::Minus || k == TokenKind::Star || k == TokenKind::Slash
}

/// The operator that a token kind stands for.
pub open spec fn binop_of(k: TokenKind) -> BinOp {
    match k {
        TokenKind::Plus => BinOp::Add,
        TokenKind::Minus => BinOp::Minus,
        TokenKind::Star => BinOp::Times,
        _ => BinOp::Divide,
    }
}

/// Whether parsing at `precedence` ends before position `p`: the next token
/// that is not whitespace is no operator binding more strongly than it.
pub open spec fn ends_before(toks: Seq<Token>, p: int, precedence: Precedence) -> bool {
    let k = kind_at(toks, next_non_ws(toks, p));
    !(is_binop_kind(k) && rank_of(precedence_of(k)) > rank_of(precedence))
}

/// The leftmost operand of an expression: it is built first.
pub open spec fn leftmost(e: Expr) -> Expr
    decreases e,
{
    match e {
        Expr::BinOp(_, l, _) => leftmost(*l),
        _ => e,
    }
}

/// Whether a token is an integer literal with a value that fits in 64 bits.
pub open spec fn literal_fits(t: Token) -> bool {
    is_decimal(text_bytes(t.spec_text())) && decimal_value(text_bytes(t.spec_text())) <= u64::MAX
}

pub struct Parser {
    tokens: TokenBuffer,
}

impl Parser {
    /// The token buffer the parser reads.
    pub closed spec fn buffer(&self) -> TokenBuffer {
        self.tokens
    }

    /// The buffer is well formed and the parser never reads past the end token.
    pub open spec fn wf(&self) -> bool {
        &&& self.buffer().wf()
        &&& self.pos() <= self.buffer().spec_tokens().len()
    }

    /// The tokens the parser reads.
    pub open spec fn tokens(&self) -> Seq<Token> {
        self.buffer().spec_tokens()
    }

    /// How many tokens have been consumed.
    pub open spec fn pos(&self) -> nat {
        self.buffer().spec_offset()
    }

    /// The number of tokens not yet consumed.
    pub open spec fn rest(&self) -> nat {
        self.buffer().remaining()
    }

    /// `self` reads the same tokens as `before`, at the same or a later position.
    pub open spec fn moved_on(&self, before: &Parser) -> bool {
        &&& self.wf()
        &&& self.buffer().same_tokens(&before.buffer())
        &&& before.pos() <= self.pos()
    }

    /// A parser at the first of `tokens`; past the last one it reads the end
    /// token at byte offset `end`.
    pub fn new(tokens: Vec<Token>, end: usize) -> (r: Parser)
        ensures
            r.wf(),
            r.buffer().spec_tokens() == tokens@,
            r.pos() == 0,
    {
        Parser { tokens: TokenBuffer::new(tokens, end) }
    }

    fn skip_whitespace(&mut self)
        requires
            old(self).wf(),
        ensures
            final(self).moved_on(old(self)),
            final(self).buffer().token_at(0).spec_kind() != TokenKind::Whitespace,
            final(self).pos() == next_non_ws(old(self).tokens(), old(self).pos() as int),
    {
        loop
            invariant
                self.moved_on(old(self)),
                next_non_ws(self.tokens(), self.pos() as int) == next_non_ws(
                    old(self).tokens(),
                    old(self).pos() as int,
                ),
            ensures
                self.moved_on(old(self)),
                self.buffer().token_at(0).spec_kind() != TokenKind::Whitespace,
                self.pos() == next_non_ws(old(self).tokens(), old(self).pos() as int),
            decreases self.rest(),
        {
            match self.tokens.get_token_kind(0) {
                TokenKind::Whitespace => self.tokens.bump(),
                _ => break,
            }
        }
    }

    pub fn parse_block_expr(&mut self) -> (r: ParseResult<Expr>)
        requires
            old(self).wf(),
        ensures
            final(self).moved_on(old(self)),
            r is Ok ==> old(self).pos() < final(self).pos(),
            r matches Ok(e) ==> e is Block,
        decreases old(self).rest(), 3nat,
    {
        self.skip_whitespace();
        match self.tokens.assert_token(0, TokenKind::LeftBrace) {
            Ok(_) => {},
            Err(e) => {
                return Err(e);
            },
        }
        self.skip_whitespace();
        let mut stmt_list: Vec<Stmt> = Vec::new();
        loop
            invariant
                self.moved_on(old(self)),
                old(self).pos() < self.pos(),
            decreases self.rest(),
        {
            match self.tokens.get_token_kind(0) {
                TokenKind::Semicolon | TokenKind::Newline => {
                    self.tokens.bump();
                    self.skip_whitespace();
                },
                TokenKind::RightBrace => {
                    self.tokens.bump();
                    self.skip_whitespace();
                    return Ok(Expr::Block(stmt_list));
                },
                _ => {
                    match self.parse_stmt() {
                        Ok(stmt) => {
                            stmt_list.push(stmt);
                        },
                        Err(e) => {
                            return Err(e);
                        },
                    }
                },
            }
        }
    }

    pub fn parse_program(&mut self) -> (r: ParseResult<Program>)
        requires
            old(self).wf(),
        ensures
            final(self).moved_on(old(self)),
    {
        match self.parse_stmt() {
            Ok(stmt) => Ok(Program { stmt }),
            Err(e) => Err(e),
        }
    }

    pub fn parse_stmt(&mut self) -> (r: ParseResult<Stmt>)
        requires
            old(self).wf(),
        ensures
            final(self).moved_on(old(self)),
            r is Ok ==> old(self).pos() < final(self).pos(),
        decreases old(self).rest(), 6nat,
    {
        match self.tokens.get_token_kind(0) {
            TokenKind::Let => self.parse_decl_stmt(),
            _ => self.parse_expr_stmt(),
        }
    }

    pub fn parse_decl_stmt(&mut self) -> (r: ParseResult<Stmt>)
        requires
            old(self).wf(),
        ensures
            final(self).moved_on(old(self)),
            r is Ok ==> old(self).pos() < final(self).pos(),
            r matches Ok(st) ==> st is Decl,
        decreases old(self).rest(), 5nat,
    {
        self.skip_whitespace();
        match self.tokens.assert_token(0, TokenKind::Let) {
            Ok(_) => {},
            Err(e) => {
                return Err(e);
            },
        }
        let var_name = match self.parse_ident() {
            Ok(name) => name,
            Err(e) => {
                return Err(e);
            },
        };
        match self.tokens.assert_token(0, TokenKind::Eq) {
            Ok(_) => {},
            Err(e) => {
                return Err(e);
            },
        }
        match self.parse_expr(Precedence::Lowest) {
            Ok(expr) => Ok(Stmt::Decl(var_name, expr)),
            Err(e) => Err(e),
        }
    }

    pub fn parse_expr_stmt(&mut self) -> (r: ParseResult<Stmt>)
        requires
            old(self).wf(),
        ensures
            final(self).moved_on(old(self)),
            r is Ok ==> old(self).pos() < final(self).pos(),
            r matches Ok(st) ==> st is Expr,
        decreases old(self).rest(), 5nat,
    {
        match self.parse_expr(Precedence::Lowest) {
            Ok(expr) => Ok(Stmt::Expr(expr)),
            Err(e) => Err(e),
        }
    }

    /// Parses an identifier, with the whitespace around it.
    pub fn parse_ident(&mut self) -> (r: ParseResult<Ident>)
        requires
            old(self).wf(),
        ensures
            final(self).moved_on(old(self)),
            r is Ok ==> old(self).pos() < final(self).pos(),
            r matches Ok(name) ==> exists|i: int|
                old(self).pos() <= i < final(self).pos() && #[trigger] final(self).buffer().spec_tokens()[i].spec_kind()
                    == TokenKind::Ident && name@ == final(self).buffer().spec_tokens()[i].spec_text(),
    {
        self.skip_whitespace();
        let ghost at = self.pos() as int;
        let tkn = match self.tokens.assert_token(0, TokenKind::Ident) {
            Ok(t) => t,
            Err(e) => {
                return Err(e);
            },
        };
        self.skip_whitespace();
        let name = tkn.source_str();
        assert(self.buffer().spec_tokens()[at].spec_kind() == TokenKind::Ident);
        Ok(name)
    }

    pub fn parse_typename(&mut self) -> (r: ParseResult<Ident>)
        requires
            old(self).wf(),
        ensures
            final(self).moved_on(old(self)),
            r is Ok ==> old(self).pos() < final(self).pos(),
    {
        self.parse_ident()
    }

    /// Parses `name: type`.
    pub fn parse_arg(&mut self) -> (r: ParseResult<Arg>)
        requires
            old(self).wf(),
        ensures
            final(self).moved_on(old(self)),
            r is Ok ==> old(self).pos() < final(self).pos(),
    {
        self.skip_whitespace();
        let name = match self.parse_ident() {
            Ok(n) => n,
            Err(e) => {
                return Err(e);
            },
        };
        self.skip_whitespace();
        match self.tokens.assert_token(0, TokenKind::Colon) {
            Ok(_) => {},
            Err(e) => {
                return Err(e);
            },
        }
        self.skip_whitespace();
        let typename = match self.parse_typename() {
            Ok(t) => t,
            Err(e) => {
                return Err(e);
            },
        };
        self.skip_whitespace();
        Ok(Arg { name, typename })
    }

    /// Parses arguments separated by commas, as many as there are; never fails.
    pub fn parse_arg_list(&mut self) -> (r: ParseResult<Vec<Arg>>)
        requires
            old(self).wf(),
        ensures
            final(self).moved_on(old(self)),
            r is Ok,
    {
        self.skip_whitespace();
        let mut arg_list: Vec<Arg> = Vec::new();
        loop
            invariant
                self.moved_on(old(self)),
            decreases self.rest(),
        {
            match self.parse_arg() {
                Ok(arg) => {
                    arg_list.push(arg);
                    match self.tokens.get_token_kind(0) {
                        TokenKind::Comma => self.tokens.bump(),
                        _ => {
                            return Ok(arg_list);
                        },
                    }
                },
                Err(_) => {
                    return Ok(arg_list);
                },
            }
        }
    }

    /// Parses `(args) => expr`.
    pub fn parse_fn(&mut self) -> (r: ParseResult<Expr>)
        requires
            old(self).wf(),
        ensures
            final(self).moved_on(old(self)),
            r is Ok ==> old(self).pos() < final(self).pos(),
            r matches Ok(e) ==> e is Fn,
        decreases old(self).rest(), 3nat,
    {
        self.skip_whitespace();
        match self.tokens.assert_token(0, TokenKind::LeftParen) {
            Ok(_) => {},
            Err(e) => {
                return Err(e);
            },
        }
        let args = match self.parse_arg_list() {
            Ok(a) => a,
            Err(e) => {
                return Err(e);
            },
        };
        match self.tokens.assert_token(0, TokenKind::RightParen) {
            Ok(_) => {},
            Err(e) => {
                return Err(e);
            },
        }
        self.skip_whitespace();
        match self.tokens.assert_token(0, TokenKind::Eq) {
            Ok(_) => {},
            Err(e) => {
                return Err(e);
            },
        }
        match self.tokens.assert_token(0, TokenKind::Gt) {
            Ok(_) => {},
            Err(e) => {
                return Err(e);
            },
        }
        match self.parse_expr(Precedence::Lowest) {
            Ok(expr) => Ok(Expr::Fn(args, Box::new(expr))),
            Err(e) => Err(e),
        }
    }

    /// Parses an expression whose operators bind more strongly than `precedence`.
    pub fn parse_expr(&mut self, precedence: Precedence) -> (r: ParseResult<Expr>)
        requires
            old(self).wf(),
        ensures
            final(self).moved_on(old(self)),
            r is Ok ==> old(self).pos() < final(self).pos(),
            ({
                let toks = old(self).tokens();
                let q = next_non_ws(toks, old(self).pos() as int);
                let k = kind_at(toks, q);
                &&& k != TokenKind::LeftBrace && k != TokenKind::LeftParen && k != TokenKind::Int
                    ==> r is Err
                &&& k == TokenKind::Int && !literal_fits(toks[q]) ==> r is Err
                &&& k == TokenKind::Int && r is Ok ==> leftmost(r->Ok_0) == Expr::Literal(
                    Literal::Int(decimal_value(text_bytes(toks[q].spec_text())) as u64),
                )
                &&& k == TokenKind::Int && literal_fits(toks[q]) && ends_before(toks, q + 1, precedence)
                    ==> r == Ok::<Expr, ParseError>(
                    Expr::Literal(Literal::Int(decimal_value(text_bytes(toks[q].spec_text())) as u64)),
                )
            }),
            r is Ok ==> ends_before(final(self).tokens(), final(self).pos() as int, precedence),
        decreases old(self).rest(), 4nat,
    {
        self.skip_whitespace();
        let ghost q = self.pos() as int;
        let ghost toks = self.tokens();
        let kind = self.tokens.get_token_kind(0);
        assert(kind == kind_at(toks, q));
        let mut prev = match kind {
            TokenKind::LeftBrace => match self.parse_block_expr() {
                Ok(e) => e,
                Err(e) => {
                    return Err(e);
                },
            },
            TokenKind::LeftParen => {
                let snap = self.tokens.save_snap();
                match self.parse_fn() {
                    Ok(expr) => expr,
                    Err(_) => {
                        self.tokens.return_snap(snap);
                        match self.parse_grouped_expr() {
                            Ok(e) => e,
                            Err(e) => {
                                return Err(e);
                            },
                        }
                    },
                }
            },
            TokenKind::Int => {
                let text = self.tokens.get_token(0).source_str();
                let val = match parse_decimal(&text) {
                    Some(v) => v,
                    None => {
                        return Err(ParseError);
                    },
                };
                let res = Expr::Literal(Literal::Int(val));
                self.tokens.bump();
                res
            },
            _ => {
                return Err(ParseError);
            },
        };
        loop
            invariant
                self.moved_on(old(self)),
                old(self).pos() < self.pos(),
                toks == old(self).tokens(),
                q == next_non_ws(toks, old(self).pos() as int),
                kind == kind_at(toks, q),
                kind == TokenKind::LeftBrace || kind == TokenKind::LeftParen || kind == TokenKind::Int,
                kind == TokenKind::Int ==> literal_fits(toks[q]),
                kind == TokenKind::Int && ends_before(toks, q + 1, precedence) ==> self.pos() == q + 1
                    && prev == Expr::Literal(
                    Literal::Int(decimal_value(text_bytes(toks[q].spec_text())) as u64),
                ),
                kind == TokenKind::Int ==> leftmost(prev) == Expr::Literal(
                    Literal::Int(decimal_value(text_bytes(toks[q].spec_text())) as u64),
                ),
            decreases self.rest(),
        {
            self.skip_whitespace();
            let kind = self.tokens.get_token_kind(0);
            match kind {
                TokenKind::Plus | TokenKind::Minus | TokenKind::Star | TokenKind::Slash => {
                    if Precedence::from(&kind).binds_tighter(&precedence) {
                        prev = match self.parse_binop_expr(prev) {
                            Ok(e) => e,
                            Err(e) => {
                                return Err(e);
                            },
                        };
                    } else {
                        return Ok(prev);
                    }
                },
                _ => {
                    return Ok(prev);
                },
            }
        }
    }

    /// Parses `(expr)`.
    pub fn parse_grouped_expr(&mut self) -> (r: ParseResult<Expr>)
        requires
            old(self).wf(),
        ensures
            final(self).moved_on(old(self)),
            r is Ok ==> old(self).pos() < final(self).pos(),
        decreases old(self).rest(), 3nat,
    {
        match self.tokens.assert_token(0, TokenKind::LeftParen) {
            Ok(_) => {},
            Err(e) => {
                return Err(e);
            },
        }
        let expr = self.parse_expr(Precedence::Lowest);
        match self.tokens.assert_token(0, TokenKind::RightParen) {
            Ok(_) => {},
            Err(e) => {
                return Err(e);
            },
        }
        expr
    }

    /// Parses an operator and its right operand, whose operators must bind
    /// more strongly than it; `prev` is the left operand.
    pub fn parse_binop_expr(&mut self, prev: Expr) -> (r: ParseResult<Expr>)
        requires
            old(self).wf(),
        ensures
            final(self).moved_on(old(self)),
            r is Ok ==> old(self).pos() < final(self).pos(),
            r matches Ok(e) ==> e is BinOp && *e->BinOp_1 == prev,
            ({
                let toks = old(self).tokens();
                let k = kind_at(toks, next_non_ws(toks, old(self).pos() as int));
                &&& !is_binop_kind(k) ==> r is Err
                &&& r matches Ok(e) ==> e->BinOp_0 == binop_of(k) && ends_before(
                    final(self).tokens(),
                    final(self).pos() as int,
                    precedence_of(k),
                )
            }),
        decreases old(self).rest(), 3nat,
    {
        self.skip_whitespace();
        let kind = self.tokens.get_token_kind(0);
        let op = match kind {
            TokenKind::Plus => BinOp::Add,
            TokenKind::Minus => BinOp::Minus,
            TokenKind::Star => BinOp::Times,
            TokenKind::Slash => BinOp::Divide,
            _ => {
                return Err(ParseError);
            },
        };
        self.tokens.bump();
        self.skip_whitespace();
        match self.parse_expr(Precedence::from(&kind)) {
            Ok(r_expr) => Ok(Expr::BinOp(op, Box::new(prev), Box::new(r_expr))),
            Err(e) => Err(e),
        }
    }
}

} // verus!
