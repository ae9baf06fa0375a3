//! Binding strength of binary operators.
use vstd::prelude::*;
use crate::token_kind::TokenKind;

verus! {

/// How strongly an operator binds, from weakest to strongest.
#[derive(PartialEq, Eq, Debug, Clone, Copy, Structural)]
pub enum Precedence {
    Lowest,
    /// `+` and `-`
    Add,
    /// `*` and `/`
    Times,
}

/// The precedence of the operator that a token kind stands for.
pub open spec fn precedence_of(kind: TokenKind) -> Precedence {
    match kind {
        TokenKind::Plus | TokenKind::Minus => Precedence::Add,
        TokenKind::Star | TokenKind::Slash => Precedence::Times,
        _ => Precedence::Lowest,
    }
}

/// The place of a precedence in the order weakest to strongest.
pub open spec fn rank_of(p: Precedence) -> nat {
    match p {
        Precedence::Lowest => 0,
        Precedence::Add => 1,
        Precedence::Times => 2,
    }
}

impl Precedence {
    pub fn from(kind: &TokenKind) -> (r: Precedence)
        ensures
            r == precedence_of(*kind),
    {
        match kind {
            TokenKind::Plus | TokenKind::Minus => Precedence::Add,
            TokenKind::Star | TokenKind::Slash => Precedence::Times,
            _ => Precedence::Lowest,
        }
    }

    /// Whether `self` binds more strongly than `other`.
    pub fn binds_tighter(&self, other: &Precedence) -> (r: bool)
        ensures
            r == (rank_of(*self) > rank_of(*other)),
    {
        let a: u8 = match self {
            Precedence::Lowest => 0,
            Precedence::Add => 1,
            Precedence::Times => 2,
        };
        let b: u8 = match other {
            Precedence::Lowest => 0,
            Precedence::Add => 1,
            Precedence::Times => 2,
        };
        a > b
    }
}

} // verus!
