//! Encodings of the types of the module format.
use vstd::prelude::*;
use crate::binary::{EncodeError, WriteContext};
use crate::numvalue::{uleb, unsigned};
use crate::typ::{FuncType, GlobalType, Limits, MemType, Mut, NumType, RefType, ResultType, TableType, ValType, VecType};

verus! {

/// The one-byte code of a number type.
pub open spec fn numtype_code(t: NumType) -> u8 {
    match t {
        NumType::I32 => 0x7F,
        NumType::I64 => 0x7E,
        NumType::F32 => 0x7D,
        NumType::F64 => 0x7C,
    }
}

/// The one-byte code of a vector type.
pub open spec fn vectype_code(t: VecType) -> u8 {
    match t {
        VecType::V128 => 0x7B,
    }
}

/// The one-byte code of a reference type.
pub open spec fn reftype_code(t: RefType) -> u8 {
    match t {
        RefType::FuncRef => 0x70,
        RefType::ExternRef => 0x6F,
    }
}

/// The one-byte code of a value type.
pub open spec fn valtype_code(t: ValType) -> u8 {
    match t {
        ValType::NumType(n) => numtype_code(n),
        ValType::VecType(v) => vectype_code(v),
        ValType::RefType(r) => reftype_code(r),
    }
}

/// The encoding of limits: a flag telling whether a maximum follows, the
/// minimum, then the maximum if there is one.
pub open spec fn limits_bytes(l: Limits) -> Seq<u8> {
    match l.max {
        None => seq![0x00u8] + uleb(l.min as nat),
        Some(m) => seq![0x01u8] + uleb(l.min as nat) + uleb(m as nat),
    }
}

/// The one-byte code of a mutability.
pub open spec fn mut_code(m: Mut) -> u8 {
    match m {
        Mut::Const => 0x00,
        Mut::Var => 0x01,
    }
}

/// The encoding of a table type: element type, then limits.
pub open spec fn tabletype_bytes(t: TableType) -> Seq<u8> {
    seq![reftype_code(t.et)] + limits_bytes(t.lim)
}

/// The encoding of a global type: value type, then mutability.
pub open spec fn globaltype_bytes(t: GlobalType) -> Seq<u8> {
    seq![valtype_code(t.typ), mut_code(t.mutability)]
}

/// Appends the code of a value type.
pub fn write_valtype(w: &mut Vec<u8>, t: &ValType)
    ensures
        final(w)@ == old(w)@.push(valtype_code(*t)),
{
    let byte: u8 = match t {
        ValType::NumType(n) => match n {
            NumType::I32 => 0x7F,
            NumType::I64 => 0x7E,
            NumType::F32 => 0x7D,
            NumType::F64 => 0x7C,
        },
        ValType::VecType(v) => match v {
            VecType::V128 => 0x7B,
        },
        ValType::RefType(r) => reftype_byte(r),
    };
    w.push(byte);
}

/// The code of a reference type.
pub fn reftype_byte(t: &RefType) -> (r: u8)
    ensures
        r == reftype_code(*t),
{
    match t {
        RefType::FuncRef => 0x70,
        RefType::ExternRef => 0x6F,
    }
}

/// Appends the encoding of limits.
pub fn write_limits(w: &mut Vec<u8>, l: &Limits)
    ensures
        final(w)@ == old(w)@ + limits_bytes(*l),
{
    match l.max {
        None => {
            w.push(0x00);
            unsigned(w, l.min as u64);
            assert(w@ =~= old(w)@ + limits_bytes(*l));
        },
        Some(m) => {
            w.push(0x01);
            unsigned(w, l.min as u64);
            unsigned(w, m as u64);
            assert(w@ =~= old(w)@ + limits_bytes(*l));
        },
    }
}

/// Appends the encoding of a table type.
pub fn write_tabletype(w: &mut Vec<u8>, t: &TableType)
    ensures
        final(w)@ == old(w)@ + tabletype_bytes(*t),
{
    w.push(reftype_byte(&t.et));
    write_limits(w, &t.lim);
    assert(w@ =~= old(w)@ + tabletype_bytes(*t));
}

/// Appends the encoding of a global type.
pub fn write_globaltype(w: &mut Vec<u8>, t: &GlobalType)
    ensures
        final(w)@ == old(w)@ + globaltype_bytes(*t),
{
    write_valtype(w, &t.typ);
    let m: u8 = match t.mutability {
        Mut::Const => 0x00,
        Mut::Var => 0x01,
    };
    w.push(m);
    assert(w@ =~= old(w)@ + globaltype_bytes(*t));
}

impl WriteContext for NumType {
    open spec fn written_on_error(&self) -> Option<Seq<u8>> {
        None
    }

    open spec fn encodable(&self) -> bool {
        true
    }

    open spec fn wasm_bytes(&self) -> Seq<u8> {
        seq![numtype_code(*self)]
    }

    fn write(&self, w: &mut Vec<u8>) -> (r: Result<(), EncodeError>) {
        write_valtype(w, &ValType::NumType(*self));
        assert(w@ =~= old(w)@ + self.wasm_bytes());
        Ok(())
    }
}

impl WriteContext for VecType {
    open spec fn written_on_error(&self) -> Option<Seq<u8>> {
        None
    }

    open spec fn encodable(&self) -> bool {
        true
    }

    open spec fn wasm_bytes(&self) -> Seq<u8> {
        seq![vectype_code(*self)]
    }

    fn write(&self, w: &mut Vec<u8>) -> (r: Result<(), EncodeError>) {
        write_valtype(w, &ValType::VecType(*self));
        assert(w@ =~= old(w)@ + self.wasm_bytes());
        Ok(())
    }
}

impl WriteContext for RefType {
    open spec fn written_on_error(&self) -> Option<Seq<u8>> {
        None
    }

    open spec fn encodable(&self) -> bool {
        true
    }

    open spec fn wasm_bytes(&self) -> Seq<u8> {
        seq![reftype_code(*self)]
    }

    fn write(&self, w: &mut Vec<u8>) -> (r: Result<(), EncodeError>) {
        w.push(reftype_byte(self));
        assert(w@ =~= old(w)@ + self.wasm_bytes());
        Ok(())
    }
}

impl WriteContext for ValType {
    open spec fn written_on_error(&self) -> Option<Seq<u8>> {
        None
    }

    open spec fn encodable(&self) -> bool {
        true
    }

    open spec fn wasm_bytes(&self) -> Seq<u8> {
        seq![valtype_code(*self)]
    }

    fn write(&self, w: &mut Vec<u8>) -> (r: Result<(), EncodeError>) {
        write_valtype(w, self);
        assert(w@ =~= old(w)@ + self.wasm_bytes());
        Ok(())
    }
}

/// A result type is the length-prefixed sequence of its value types.
impl WriteContext for ResultType {
    open spec fn written_on_error(&self) -> Option<Seq<u8>> {
        None
    }

    open spec fn encodable(&self) -> bool {
        self.values.encodable()
    }

    open spec fn wasm_bytes(&self) -> Seq<u8> {
        self.values.wasm_bytes()
    }

    fn write(&self, w: &mut Vec<u8>) -> (r: Result<(), EncodeError>) {
        self.values.write(w)
    }
}

/// A function type is the byte 0x60, then parameters and results.
impl WriteContext for FuncType {
    open spec fn written_on_error(&self) -> Option<Seq<u8>> {
        None
    }

    open spec fn encodable(&self) -> bool {
        self.from.encodable() && self.to.encodable()
    }

    open spec fn wasm_bytes(&self) -> Seq<u8> {
        seq![0x60u8] + self.from.wasm_bytes() + self.to.wasm_bytes()
    }

    fn write(&self, w: &mut Vec<u8>) -> (r: Result<(), EncodeError>) {
        w.push(0x60);
        match self.from.write(w) {
            Ok(()) => {},
            Err(e) => {
                return Err(e);
            },
        }
        let r = self.to.write(w);
        proof {
            if r is Ok {
                assert(w@ =~= old(w)@ + self.wasm_bytes());
            }
        }
        r
    }
}

impl WriteContext for Limits {
    open spec fn written_on_error(&self) -> Option<Seq<u8>> {
        None
    }

    open spec fn encodable(&self) -> bool {
        true
    }

    open spec fn wasm_bytes(&self) -> Seq<u8> {
        limits_bytes(*self)
    }

    fn write(&self, w: &mut Vec<u8>) -> (r: Result<(), EncodeError>) {
        write_limits(w, self);
        Ok(())
    }
}

/// A memory type is its limits.
impl WriteContext for MemType {
    open spec fn written_on_error(&self) -> Option<Seq<u8>> {
        None
    }

    open spec fn encodable(&self) -> bool {
        true
    }

    open spec fn wasm_bytes(&self) -> Seq<u8> {
        limits_bytes(self.lim)
    }

    fn write(&self, w: &mut Vec<u8>) -> (r: Result<(), EncodeError>) {
        write_limits(w, &self.lim);
        Ok(())
    }
}

impl WriteContext for TableType {
    open spec fn written_on_error(&self) -> Option<Seq<u8>> {
        None
    }

    open spec fn encodable(&self) -> bool {
        true
    }

    open spec fn wasm_bytes(&self) -> Seq<u8> {
        tabletype_bytes(*self)
    }

    fn write(&self, w: &mut Vec<u8>) -> (r: Result<(), EncodeError>) {
        write_tabletype(w, self);
        Ok(())
    }
}

impl WriteContext for GlobalType {
    open spec fn written_on_error(&self) -> Option<Seq<u8>> {
        None
    }

    open spec fn encodable(&self) -> bool {
        true
    }

    open spec fn wasm_bytes(&self) -> Seq<u8> {
        globaltype_bytes(*self)
    }

    fn write(&self, w: &mut Vec<u8>) -> (r: Result<(), EncodeError>) {
        write_globaltype(w, self);
        Ok(())
    }
}

impl WriteContext for Mut {
    open spec fn written_on_error(&self) -> Option<Seq<u8>> {
        None
    }

    open spec fn encodable(&self) -> bool {
        true
    }

    open spec fn wasm_bytes(&self) -> Seq<u8> {
        seq![mut_code(*self)]
    }

    fn write(&self, w: &mut Vec<u8>) -> (r: Result<(), EncodeError>) {
        let m: u8 = match self {
            Mut::Const => 0x00,
            Mut::Var => 0x01,
        };
        w.push(m);
        assert(w@ =~= old(w)@ + self.wasm_bytes());
        Ok(())
    }
}

} // verus!
