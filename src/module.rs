//! Modules and their parts: functions, tables, memories, globals, element and
//! data segments, the start function, imports and exports.
use vstd::prelude::*;
use crate::instr::{Expr, FuncIdx, GlobalIdx, MemIdx, TableIdx, TypeIdx};
use crate::typ::{FuncType, GlobalType, MemType, RefType, TableType, ValType};

verus! {

/// A module: what it defines, imports and exports.
#[derive(Debug)]
pub struct Module {
    pub types: Vec<FuncType>,
    pub funcs: Vec<Func>,
    pub tables: Vec<Table>,
    pub mems: Vec<Mem>,
    pub globals: Vec<Global>,
    pub elems: Vec<Elem>,
    pub datas: Vec<Data>,
    pub start: Option<Start>,
    pub imports: Vec<Import>,
    pub exports: Vec<Export>,
}

/// A function defined by the module: its signature index, the types of its
/// locals in order, and its body.
#[derive(Debug)]
pub struct Func {
    pub typ: TypeIdx,
    pub locals: Vec<ValType>,
    pub body: Expr,
}

#[derive(Debug, Clone, Copy, PartialEq, Eq, Structural)]
pub struct Table {
    pub typ: TableType,
}

#[derive(Debug, Clone, Copy, PartialEq, Eq, Structural)]
pub struct Mem {
    pub typ: MemType,
}

/// A global: its type and the expression that gives its first value.
#[derive(Debug)]
pub struct Global {
    pub typ: GlobalType,
    pub init: Expr,
}

/// An element segment: a reference type, one initializer expression per
/// element, and a mode.
#[derive(Debug)]
pub struct Elem {
    pub typ: RefType,
    pub init: Vec<Expr>,
    pub mode: ElemMode,
}

#[derive(Debug)]
pub enum ElemMode {
    Passive,
    Active { table: TableIdx, offset: Expr },
    Declarative,
}

/// The kind of the elements of a segment given as function indices.
#[derive(Debug, Clone, Copy, PartialEq, Eq, Structural)]
pub enum ElemKind {
    Zero,
}

/// A data segment: its bytes and its mode.
#[derive(Debug)]
pub struct Data {
    pub init: Vec<u8>,
    pub mode: DataMode,
}

#[derive(Debug)]
pub enum DataMode {
    Passive,
    Active { memory: MemIdx, offset: Expr },
}

/// The function to run when the module is instantiated.
#[derive(Debug, Clone, Copy, PartialEq, Eq, Structural)]
pub struct Start {
    pub func: FuncIdx,
}

#[derive(Debug)]
pub struct Export {
    pub name: String,
    pub desc: ExportDesc,
}

#[derive(Debug, Clone, Copy, PartialEq, Eq, Structural)]
pub enum ExportDesc {
    Func(FuncIdx),
    Table(TableIdx),
    Mem(MemIdx),
    Global(GlobalIdx),
}

#[derive(Debug)]
pub struct Import {
    pub module: String,
    pub name: String,
    pub desc: ImportDesc,
}

#[derive(Debug, Clone, Copy, PartialEq, Eq, Structural)]
pub enum ImportDesc {
    Func(TypeIdx),
    Table(TableType),
    Mem(MemType),
    Global(GlobalType),
}

} // verus!
