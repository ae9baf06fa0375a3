//! The kinds of tokens of the source language.
use vstd::prelude::*;

verus! {

/// The kind of a token.
#[derive(Debug, PartialEq, Eq, Clone, Copy, Structural)]
pub enum TokenKind {
    // Keywords
    Use,

    If,
    Else,
    For,
    While,
    Loop,
    Return,
    Yield,

    Let,
    Const,

    Fn,
    Shard,
    Struct,
    Enum,
    Type,
    Impl,

    Local,
    Extern,

    // Symbol tokens
    Eq,
    Lt,
    Gt,

    Plus,
    Minus,
    Star,
    Slash,

    Ampersand,
    Bar,
    Bang,

    Period,
    Colon,
    Semicolon,
    Comma,

    LeftParen,
    RightParen,
    LeftBrace,
    RightBrace,
    LeftBracket,
    RightBracket,

    // Or regular expressions.
    Ident,
    Int,

    Newline,
    Whitespace,

    /// Text that matches no other kind.
    Error,

    /// The end of the input.
    Eof,
}

} // verus!
