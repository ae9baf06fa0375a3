//! Types of the module format: value types, function signatures, limits and
//! the types of tables, memories and globals.
use vstd::prelude::*;

verus! {

/// Number types.
#[derive(Debug, Clone, Copy, PartialEq, Eq, Structural)]
pub enum NumType {
    I32,
    I64,
    F32,
    F64,
}

/// Vector types.
#[derive(Debug, Clone, Copy, PartialEq, Eq, Structural)]
pub enum VecType {
    V128,
}

/// Reference types.
#[derive(Debug, Clone, Copy, PartialEq, Eq, Structural)]
pub enum RefType {
    FuncRef,
    ExternRef,
}

/// Value types: a number, vector or reference type.
#[derive(Debug, Clone, Copy, PartialEq, Eq, Structural)]
pub enum ValType {
    NumType(NumType),
    VecType(VecType),
    RefType(RefType),
}

/// An ordered list of value types: the parameters or the results of a function.
#[derive(Debug)]
pub struct ResultType {
    pub values: Vec<ValType>,
}

/// A function signature: parameter types and result types.
#[derive(Debug)]
pub struct FuncType {
    pub from: ResultType,
    pub to: ResultType,
}

/// A minimum count and an optional maximum count.
#[derive(Debug, Clone, Copy, PartialEq, Eq, Structural)]
pub struct Limits {
    pub min: u32,
    pub max: Option<u32>,
}

/// The type of a memory: its limits.
#[derive(Debug, Clone, Copy, PartialEq, Eq, Structural)]
pub struct MemType {
    pub lim: Limits,
}

/// The type of a table: its limits and the reference type of its elements.
#[derive(Debug, Clone, Copy, PartialEq, Eq, Structural)]
pub struct TableType {
    pub lim: Limits,
    pub et: RefType,
}

/// The type of a global: its value type and whether it may change.
#[derive(Debug, Clone, Copy, PartialEq, Eq, Structural)]
pub struct GlobalType {
    pub mutability: Mut,
    pub typ: ValType,
}

/// Mutability of a global.
#[derive(Debug, Clone, Copy, PartialEq, Eq, Structural)]
pub enum Mut {
    Const,
    Var,
}

/// The type of an entity that a module imports or exports.
#[derive(Debug)]
pub enum ExternType {
    Func(FuncType),
    Table(TableType),
    Mem(MemType),
    Global(GlobalType),
}

} // verus!
