//! The syntax tree of the source language.
use vstd::prelude::*;

verus! {

pub type Ident = String;

/// A whole program: one statement.
#[derive(Debug)]
pub struct Program {
    pub stmt: Stmt,
}

#[derive(Debug)]
pub enum Stmt {
    Expr(Expr),
    /// `let name = expr`
    Decl(Ident, Expr),
}

#[derive(Debug, Clone, Copy, PartialEq, Eq, Structural)]
pub enum BinOp {
    Add,
    Minus,
    Times,
    Divide,
}

#[derive(Debug)]
pub enum Expr {
    /// `{ stmt; stmt }`
    Block(Vec<Stmt>),
    BinOp(BinOp, Box<Expr>, Box<Expr>),
    Literal(Literal),
    /// `(arg: type, ...) => expr`
    Fn(Vec<Arg>, Box<Expr>),
}

#[derive(Debug, Clone, Copy, PartialEq, Eq, Structural)]
pub enum Literal {
    Int(u64),
    /// The bit pattern of an 8-byte float.
    Float(u64),
    Bool(bool),
}

/// A parameter of a function: its name and the name of its type.
#[derive(Debug)]
pub struct Arg {
    pub name: Ident,
    pub typename: Ident,
}

} // verus!
