//! Encoding of instructions: one opcode byte, or the prefix 0xFC and a
//! secondary opcode, then the operands; structured instructions nest.
use vstd::prelude::*;
use crate::binary::{EncodeError, WriteContext};
use crate::encode_typ::{reftype_byte, reftype_code, valtype_code, write_valtype};
use crate::instr::{BlockType, Expr, Instr, MemArg};
use crate::numvalue::{le_bytes, sleb, uleb, signed, unsigned, write_f32_bits, write_f64_bits};

verus! {

/// The encoding of a block type: 0x40 for none, the code of a value type, or
/// a signature index as a signed (non-negative) LEB128 number.
pub open spec fn blocktype_bytes(bt: BlockType) -> Seq<u8> {
    match bt {
        BlockType::Empty => seq![0x40u8],
        BlockType::ValType(t) => seq![valtype_code(t)],
        BlockType::TypeIdx(x) => sleb(x as int),
    }
}

/// The encoding of a memory argument: alignment, then offset.
pub open spec fn memarg_bytes(m: MemArg) -> Seq<u8> {
    uleb(m.align as nat) + uleb(m.offset as nat)
}

/// An opcode byte followed by one unsigned operand.
pub open spec fn op_index(op: u8, x: nat) -> Seq<u8> {
    seq![op] + uleb(x)
}

/// An opcode byte followed by a memory argument.
pub open spec fn op_memarg(op: u8, m: MemArg) -> Seq<u8> {
    seq![op] + memarg_bytes(m)
}

/// An opcode of the extended space: the prefix 0xFC, then the secondary
/// opcode as an unsigned LEB128 number.
pub open spec fn ext_op(n: nat) -> Seq<u8> {
    seq![0xFCu8] + uleb(n)
}

/// The encoding of one instruction. A structured instruction is its opcode,
/// its block type, its body and the end marker 0x0B; an `if` whose else
/// branch is not empty puts the else opcode 0x05 between its two branches.
pub open spec fn instr_bytes(i: Instr) -> Seq<u8>
    decreases i,
{
    match i {
        Instr::Block(bt, body) => seq![0x02u8] + blocktype_bytes(bt) + instrs_bytes(body@) + seq![0x0Bu8],
        Instr::Loop(bt, body) => seq![0x03u8] + blocktype_bytes(bt) + instrs_bytes(body@) + seq![0x0Bu8],
        Instr::If(bt, then_body, else_body) => seq![0x04u8] + blocktype_bytes(bt) + instrs_bytes(then_body@) + if else_body.len() > 0 {
            seq![0x05u8] + instrs_bytes(else_body@)
        } else {
            Seq::empty()
        } + seq![0x0Bu8],
        Instr::BrTable(labels, default) => seq![0x0Eu8] + labels.wasm_bytes() + uleb(default as nat),
        Instr::CallIndirect(table, sig) => seq![0x11u8] + uleb(sig as nat) + uleb(table as nat),
        Instr::RefNull(t) => seq![0xD0u8, reftype_code(t)],
        Instr::Select(None) => seq![0x1Bu8],
        Instr::Select(Some(ts)) => seq![0x1Cu8] + ts.wasm_bytes(),
        Instr::TableInit(table, elem) => ext_op(12) + uleb(elem as nat) + uleb(table as nat),
        Instr::TableCopy(dst, src) => ext_op(14) + uleb(dst as nat) + uleb(src as nat),
        Instr::MemorySize => seq![0x3Fu8, 0x00u8],
        Instr::MemoryGrow => seq![0x40u8, 0x00u8],
        Instr::MemoryInit(x) => ext_op(8) + uleb(x as nat) + seq![0x00u8],
        Instr::MemoryCopy => ext_op(10) + seq![0x00u8, 0x00u8],
        Instr::MemoryFill => ext_op(11) + seq![0x00u8],
        Instr::I32Const(n) => op_index(0x41, n as nat),
        Instr::I64Const(n) => op_index(0x42, n as nat),
        Instr::F32Const(bits) => seq![0x43u8] + le_bytes(bits as nat, 4),
        Instr::F64Const(bits) => seq![0x44u8] + le_bytes(bits as nat, 8),
        Instr::Br(x) => op_index(0x0Cu8, x as nat),
        Instr::BrIf(x) => op_index(0x0Du8, x as nat),
        Instr::Call(x) => op_index(0x10u8, x as nat),
        Instr::RefFunc(x) => op_index(0xD2u8, x as nat),
        Instr::LocalGet(x) => op_index(0x20u8, x as nat),
        Instr::LocalSet(x) => op_index(0x21u8, x as nat),
        Instr::LocalTee(x) => op_index(0x22u8, x as nat),
        Instr::GlobalGet(x) => op_index(0x23u8, x as nat),
        Instr::GlobalSet(x) => op_index(0x24u8, x as nat),
        Instr::TableGet(x) => op_index(0x25u8, x as nat),
        Instr::TableSet(x) => op_index(0x26u8, x as nat),
        Instr::DataDrop(x) => ext_op(9) + uleb(x as nat),
        Instr::ElemDrop(x) => ext_op(13) + uleb(x as nat),
        Instr::TableGrow(x) => ext_op(15) + uleb(x as nat),
        Instr::TableSize(x) => ext_op(16) + uleb(x as nat),
        Instr::TableFill(x) => ext_op(17) + uleb(x as nat),
        Instr::I32Load(m) => op_memarg(0x28u8, m),
        Instr::I64Load(m) => op_memarg(0x29u8, m),
        Instr::F32Load(m) => op_memarg(0x2Au8, m),
        Instr::F64Load(m) => op_memarg(0x2Bu8, m),
        Instr::I32Load8S(m) => op_memarg(0x2Cu8, m),
        Instr::I32Load8U(m) => op_memarg(0x2Du8, m),
        Instr::I32Load16S(m) => op_memarg(0x2Eu8, m),
        Instr::I32Load16U(m) => op_memarg(0x2Fu8, m),
        Instr::I64Load8S(m) => op_memarg(0x30u8, m),
        Instr::I64Load8U(m) => op_memarg(0x31u8, m),
        Instr::I64Load16S(m) => op_memarg(0x32u8, m),
        Instr::I64Load16U(m) => op_memarg(0x33u8, m),
        Instr::I64Load32S(m) => op_memarg(0x34u8, m),
        Instr::I64Load32U(m) => op_memarg(0x35u8, m),
        Instr::I32Store(m) => op_memarg(0x36u8, m),
        Instr::I64Store(m) => op_memarg(0x37u8, m),
        Instr::F32Store(m) => op_memarg(0x38u8, m),
        Instr::F64Store(m) => op_memarg(0x39u8, m),
        Instr::I32Store8(m) => op_memarg(0x3Au8, m),
        Instr::I32Store16(m) => op_memarg(0x3Bu8, m),
        Instr::I64Store8(m) => op_memarg(0x3Cu8, m),
        Instr::I64Store16(m) => op_memarg(0x3Du8, m),
        Instr::I64Store32(m) => op_memarg(0x3Eu8, m),
        Instr::I32TruncSatF32S => ext_op(0),
        Instr::I32TruncSatF32U => ext_op(1),
        Instr::I32TruncSatF64S => ext_op(2),
        Instr::I32TruncSatF64U => ext_op(3),
        Instr::I64TruncSatF32S => ext_op(4),
        Instr::I64TruncSatF32U => ext_op(5),
        Instr::I64TruncSatF64S => ext_op(6),
        Instr::I64TruncSatF64U => ext_op(7),
        Instr::Unreachable => seq![0x00u8],
        Instr::Nop => seq![0x01u8],
        Instr::Return => seq![0x0Fu8],
        Instr::Drop => seq![0x1Au8],
        Instr::RefIsNull => seq![0xD1u8],
        Instr::I32Eqz => seq![0x45u8],
        Instr::I32Eq => seq![0x46u8],
        Instr::I32Ne => seq![0x47u8],
        Instr::I32LtS => seq![0x48u8],
        Instr::I32LtU => seq![0x49u8],
        Instr::I32GtS => seq![0x4Au8],
        Instr::I32GtU => seq![0x4Bu8],
        Instr::I32LeS => seq![0x4Cu8],
        Instr::I32LeU => seq![0x4Du8],
        Instr::I32GeS => seq![0x4Eu8],
        Instr::I32GeU => seq![0x4Fu8],
        Instr::I64Eqz => seq![0x50u8],
        Instr::I64Eq => seq![0x51u8],
        Instr::I64Ne => seq![0x52u8],
        Instr::I64LtS => seq![0x53u8],
        Instr::I64LtU => seq![0x54u8],
        Instr::I64GtS => seq![0x55u8],
        Instr::I64GtU => seq![0x56u8],
        Instr::I64LeS => seq![0x57u8],
        Instr::I64LeU => seq![0x58u8],
        Instr::I64GeS => seq![0x59u8],
        Instr::I64GeU => seq![0x5Au8],
        Instr::F32Eq => seq![0x5Bu8],
        Instr::F32Ne => seq![0x5Cu8],
        Instr::F32Lt => seq![0x5Du8],
        Instr::F32Gt => seq![0x5Eu8],
        Instr::F32Le => seq![0x5Fu8],
        Instr::F32Ge => seq![0x60u8],
        Instr::F64Eq => seq![0x61u8],
        Instr::F64Ne => seq![0x62u8],
        Instr::F64Lt => seq![0x63u8],
        Instr::F64Gt => seq![0x64u8],
        Instr::F64Le => seq![0x65u8],
        Instr::F64Ge => seq![0x66u8],
        Instr::I32Clz => seq![0x67u8],
        Instr::I32Ctz => seq![0x68u8],
        Instr::I32Popcnt => seq![0x69u8],
        Instr::I32Add => seq![0x6Au8],
        Instr::I32Sub => seq![0x6Bu8],
        Instr::I32Mul => seq![0x6Cu8],
        Instr::I32DivS => seq![0x6Du8],
        Instr::I32DivU => seq![0x6Eu8],
        Instr::I32RemS => seq![0x6Fu8],
        Instr::I32RemU => seq![0x70u8],
        Instr::I32And => seq![0x71u8],
        Instr::I32Or => seq![0x72u8],
        Instr::I32Xor => seq![0x73u8],
        Instr::I32Shl => seq![0x74u8],
        Instr::I32ShrS => seq![0x75u8],
        Instr::I32ShrU => seq![0x76u8],
        Instr::I32Rotl => seq![0x77u8],
        Instr::I32Rotr => seq![0x78u8],
        Instr::I64Clz => seq![0x79u8],
        Instr::I64Ctz => seq![0x7Au8],
        Instr::I64Popcnt => seq![0x7Bu8],
        Instr::I64Add => seq![0x7Cu8],
        Instr::I64Sub => seq![0x7Du8],
        Instr::I64Mul => seq![0x7Eu8],
        Instr::I64DivS => seq![0x7Fu8],
        Instr::I64DivU => seq![0x80u8],
        Instr::I64RemS => seq![0x81u8],
        Instr::I64RemU => seq![0x82u8],
        Instr::I64And => seq![0x83u8],
        Instr::I64Or => seq![0x84u8],
        Instr::I64Xor => seq![0x85u8],
        Instr::I64Shl => seq![0x86u8],
        Instr::I64ShrS => seq![0x87u8],
        Instr::I64ShrU => seq![0x88u8],
        Instr::I64Rotl => seq![0x89u8],
        Instr::I64Rotr => seq![0x8Au8],
        Instr::F32Abs => seq![0x8Bu8],
        Instr::F32Neg => seq![0x8Cu8],
        Instr::F32Ceil => seq![0x8Du8],
        Instr::F32Floor => seq![0x8Eu8],
        Instr::F32Trunc => seq![0x8Fu8],
        Instr::F32Nearest => seq![0x90u8],
        Instr::F32Sqrt => seq![0x91u8],
        Instr::F32Add => seq![0x92u8],
        Instr::F32Sub => seq![0x93u8],
        Instr::F32Mul => seq![0x94u8],
        Instr::F32Div => seq![0x95u8],
        Instr::F32Min => seq![0x96u8],
        Instr::F32Max => seq![0x97u8],
        Instr::F32Copysign => seq![0x98u8],
        Instr::F64Abs => seq![0x99u8],
        Instr::F64Neg => seq![0x9Au8],
        Instr::F64Ceil => seq![0x9Bu8],
        Instr::F64Floor => seq![0x9Cu8],
        Instr::F64Trunc => seq![0x9Du8],
        Instr::F64Nearest => seq![0x9Eu8],
        Instr::F64Sqrt => seq![0x9Fu8],
        Instr::F64Add => seq![0xA0u8],
        Instr::F64Sub => seq![0xA1u8],
        Instr::F64Mul => seq![0xA2u8],
        Instr::F64Div => seq![0xA3u8],
        Instr::F64Min => seq![0xA4u8],
        Instr::F64Max => seq![0xA5u8],
        Instr::F64Copysign => seq![0xA6u8],
        Instr::I32WrapI64 => seq![0xA7u8],
        Instr::I32TruncF32S => seq![0xA8u8],
        Instr::I32TruncF32U => seq![0xA9u8],
        Instr::I32TruncF64S => seq![0xAAu8],
        Instr::I32TruncF64U => seq![0xABu8],
        Instr::I64ExtendI32S => seq![0xACu8],
        Instr::I64ExtendI32U => seq![0xADu8],
        Instr::I64TruncF32S => seq![0xAEu8],
        Instr::I64TruncF32U => seq![0xAFu8],
        Instr::I64TruncF64S => seq![0xB0u8],
        Instr::I64TruncF64U => seq![0xB1u8],
        Instr::F32ConvertI32S => seq![0xB2u8],
        Instr::F32ConvertI32U => seq![0xB3u8],
        Instr::F32ConvertI64S => seq![0xB4u8],
        Instr::F32ConvertI64U => seq![0xB5u8],
        Instr::F32DemoteF64 => seq![0xB6u8],
        Instr::F64ConvertI32S => seq![0xB7u8],
        Instr::F64ConvertI32U => seq![0xB8u8],
        Instr::F64ConvertI64S => seq![0xB9u8],
        Instr::F64ConvertI64U => seq![0xBAu8],
        Instr::F64PromoteF32 => seq![0xBBu8],
        Instr::I32ReinterpretF32 => seq![0xBCu8],
        Instr::I64ReinterpretF64 => seq![0xBDu8],
        Instr::F32ReinterpretI32 => seq![0xBEu8],
        Instr::F64ReinterpretI64 => seq![0xBFu8],
        Instr::I32Extend8S => seq![0xC0u8],
        Instr::I32Extend16S => seq![0xC1u8],
        Instr::I64Extend8S => seq![0xC2u8],
        Instr::I64Extend16S => seq![0xC3u8],
        Instr::I64Extend32S => seq![0xC4u8],
    }
}

/// The encodings of a run of instructions, one after the other.
pub open spec fn instrs_bytes(s: Seq<Instr>) -> Seq<u8>
    decreases s,
{
    if s.len() == 0 {
        Seq::empty()
    } else {
        instrs_bytes(s.drop_last()) + instr_bytes(s.last())
    }
}

/// Whether every sequence inside an instruction has a count that fits in 32 bits.
pub open spec fn instr_encodable(i: Instr) -> bool
    decreases i,
{
    match i {
        Instr::Block(_, body) => instrs_encodable(body@),
        Instr::Loop(_, body) => instrs_encodable(body@),
        Instr::If(_, then_body, else_body) => instrs_encodable(then_body@) && instrs_encodable(
            else_body@,
        ),
        Instr::BrTable(labels, _) => labels.encodable(),
        Instr::Select(Some(ts)) => ts.encodable(),
        _ => true,
    }
}

/// Whether every instruction of a run is encodable.
pub open spec fn instrs_encodable(s: Seq<Instr>) -> bool
    decreases s,
{
    if s.len() == 0 {
        true
    } else {
        instrs_encodable(s.drop_last()) && instr_encodable(s.last())
    }
}

/// A run is encodable exactly when each of its instructions is.
pub proof fn lemma_instrs_encodable(s: Seq<Instr>)
    ensures
        instrs_encodable(s) <==> forall|k: int| 0 <= k < s.len() ==> #[trigger] instr_encodable(s[k]),
    decreases s.len(),
{
    if s.len() > 0 {
        let d = s.drop_last();
        lemma_instrs_encodable(d);
        if forall|k: int| 0 <= k < s.len() ==> #[trigger] instr_encodable(s[k]) {
            assert forall|k: int| 0 <= k < d.len() implies #[trigger] instr_encodable(d[k]) by {
                assert(d[k] == s[k]);
            }
            assert(instr_encodable(s[s.len() - 1]));
        }
        if instrs_encodable(s) {
            assert forall|k: int| 0 <= k < s.len() implies #[trigger] instr_encodable(s[k]) by {
                if k < d.len() {
                    assert(d[k] == s[k]);
                }
            }
        }
    }
}

fn write_op(w: &mut Vec<u8>, op: u8)
    ensures
        final(w)@ == old(w)@ + seq![op],
{
    w.push(op);
    assert(w@ =~= old(w)@ + seq![op]);
}

fn write_op_index(w: &mut Vec<u8>, op: u8, x: u64)
    ensures
        final(w)@ == old(w)@ + op_index(op, x as nat),
{
    w.push(op);
    unsigned(w, x);
    assert(w@ =~= old(w)@ + op_index(op, x as nat));
}

fn write_op_memarg(w: &mut Vec<u8>, op: u8, m: &MemArg)
    ensures
        final(w)@ == old(w)@ + op_memarg(op, *m),
{
    w.push(op);
    unsigned(w, m.align as u64);
    unsigned(w, m.offset as u64);
    assert(w@ =~= old(w)@ + op_memarg(op, *m));
}

fn write_ext(w: &mut Vec<u8>, n: u64)
    ensures
        final(w)@ == old(w)@ + ext_op(n as nat),
{
    w.push(0xFC);
    unsigned(w, n);
    assert(w@ =~= old(w)@ + ext_op(n as nat));
}

fn write_ext_index(w: &mut Vec<u8>, n: u64, x: u64)
    ensures
        final(w)@ == old(w)@ + ext_op(n as nat) + uleb(x as nat),
{
    write_ext(w, n);
    unsigned(w, x);
}

/// Appends the encoding of a block type.
pub fn write_blocktype(w: &mut Vec<u8>, bt: &BlockType)
    ensures
        final(w)@ == old(w)@ + blocktype_bytes(*bt),
{
    match bt {
        BlockType::Empty => {
            w.push(0x40);
        },
        BlockType::ValType(t) => {
            write_valtype(w, t);
        },
        BlockType::TypeIdx(x) => {
            signed(w, *x as i64);
        },
    }
    assert(w@ =~= old(w)@ + blocktype_bytes(*bt));
}

/// Appends the encoding of one instruction; fails when a sequence inside it
/// holds more than 2^32 - 1 items.
pub fn write_instr(w: &mut Vec<u8>, i: &Instr) -> (r: Result<(), EncodeError>)
    ensures
        r is Ok <==> instr_encodable(*i),
        r is Ok ==> final(w)@ == old(w)@ + instr_bytes(*i),
    decreases i,
{
    match i {
        Instr::Block(bt, body) => {
            w.push(0x02);
            write_blocktype(w, bt);
            match write_instrs(w, body) {
                Ok(()) => {},
                Err(e) => {
                    return Err(e);
                },
            }
            w.push(0x0B);
            assert(w@ =~= old(w)@ + instr_bytes(*i));
        },
        Instr::Loop(bt, body) => {
            w.push(0x03);
            write_blocktype(w, bt);
            match write_instrs(w, body) {
                Ok(()) => {},
                Err(e) => {
                    return Err(e);
                },
            }
            w.push(0x0B);
            assert(w@ =~= old(w)@ + instr_bytes(*i));
        },
        Instr::If(bt, then_body, else_body) => {
            w.push(0x04);
            write_blocktype(w, bt);
            match write_instrs(w, then_body) {
                Ok(()) => {},
                Err(e) => {
                    return Err(e);
                },
            }
            let ghost mid = w@;
            if else_body.len() > 0 {
                w.push(0x05);
                match write_instrs(w, else_body) {
                    Ok(()) => {},
                    Err(e) => {
                        return Err(e);
                    },
                }
            } else {
                assert(w@ =~= mid + Seq::<u8>::empty());
            }
            w.push(0x0B);
            assert(w@ =~= old(w)@ + instr_bytes(*i));
        },
        Instr::BrTable(labels, default) => {
            w.push(0x0E);
            match labels.write(w) {
                Ok(()) => {},
                Err(e) => {
                    return Err(e);
                },
            }
            unsigned(w, *default as u64);
            assert(w@ =~= old(w)@ + instr_bytes(*i));
        },
        Instr::CallIndirect(table, sig) => {
            w.push(0x11);
            unsigned(w, *sig as u64);
            unsigned(w, *table as u64);
            assert(w@ =~= old(w)@ + instr_bytes(*i));
        },
        Instr::RefNull(t) => {
            w.push(0xD0);
            w.push(reftype_byte(t));
            assert(w@ =~= old(w)@ + instr_bytes(*i));
        },
        Instr::Select(None) => write_op(w, 0x1B),
        Instr::Select(Some(ts)) => {
            w.push(0x1C);
            match ts.write(w) {
                Ok(()) => {},
                Err(e) => {
                    return Err(e);
                },
            }
            assert(w@ =~= old(w)@ + instr_bytes(*i));
        },
        Instr::TableInit(table, elem) => {
            write_ext_index(w, 12, *elem as u64);
            unsigned(w, *table as u64);
        },
        Instr::TableCopy(dst, src) => {
            write_ext_index(w, 14, *dst as u64);
            unsigned(w, *src as u64);
        },
        Instr::MemorySize => {
            w.push(0x3F);
            w.push(0x00);
            assert(w@ =~= old(w)@ + instr_bytes(*i));
        },
        Instr::MemoryGrow => {
            w.push(0x40);
            w.push(0x00);
            assert(w@ =~= old(w)@ + instr_bytes(*i));
        },
        Instr::MemoryInit(x) => {
            write_ext_index(w, 8, *x as u64);
            w.push(0x00);
            assert(w@ =~= old(w)@ + instr_bytes(*i));
        },
        Instr::MemoryCopy => {
            write_ext(w, 10);
            w.push(0x00);
            w.push(0x00);
            assert(w@ =~= old(w)@ + instr_bytes(*i));
        },
        Instr::MemoryFill => {
            write_ext(w, 11);
            w.push(0x00);
            assert(w@ =~= old(w)@ + instr_bytes(*i));
        },
        Instr::I32Const(n) => write_op_index(w, 0x41, *n as u64),
        Instr::I64Const(n) => write_op_index(w, 0x42, *n),
        Instr::F32Const(bits) => {
            w.push(0x43);
            write_f32_bits(w, *bits);
            assert(w@ =~= old(w)@ + instr_bytes(*i));
        },
        Instr::F64Const(bits) => {
            w.push(0x44);
            write_f64_bits(w, *bits);
            assert(w@ =~= old(w)@ + instr_bytes(*i));
        },
        Instr::Br(x) => write_op_index(w, 0x0Cu8, *x as u64),
        Instr::BrIf(x) => write_op_index(w, 0x0Du8, *x as u64),
        Instr::Call(x) => write_op_index(w, 0x10u8, *x as u64),
        Instr::RefFunc(x) => write_op_index(w, 0xD2u8, *x as u64),
        Instr::LocalGet(x) => write_op_index(w, 0x20u8, *x as u64),
        Instr::LocalSet(x) => write_op_index(w, 0x21u8, *x as u64),
        Instr::LocalTee(x) => write_op_index(w, 0x22u8, *x as u64),
        Instr::GlobalGet(x) => write_op_index(w, 0x23u8, *x as u64),
        Instr::GlobalSet(x) => write_op_index(w, 0x24u8, *x as u64),
        Instr::TableGet(x) => write_op_index(w, 0x25u8, *x as u64),
        Instr::TableSet(x) => write_op_index(w, 0x26u8, *x as u64),
        Instr::DataDrop(x) => write_ext_index(w, 9, *x as u64),
        Instr::ElemDrop(x) => write_ext_index(w, 13, *x as u64),
        Instr::TableGrow(x) => write_ext_index(w, 15, *x as u64),
        Instr::TableSize(x) => write_ext_index(w, 16, *x as u64),
        Instr::TableFill(x) => write_ext_index(w, 17, *x as u64),
        Instr::I32Load(m) => write_op_memarg(w, 0x28u8, m),
        Instr::I64Load(m) => write_op_memarg(w, 0x29u8, m),
        Instr::F32Load(m) => write_op_memarg(w, 0x2Au8, m),
        Instr::F64Load(m) => write_op_memarg(w, 0x2Bu8, m),
        Instr::I32Load8S(m) => write_op_memarg(w, 0x2Cu8, m),
        Instr::I32Load8U(m) => write_op_memarg(w, 0x2Du8, m),
        Instr::I32Load16S(m) => write_op_memarg(w, 0x2Eu8, m),
        Instr::I32Load16U(m) => write_op_memarg(w, 0x2Fu8, m),
        Instr::I64Load8S(m) => write_op_memarg(w, 0x30u8, m),
        Instr::I64Load8U(m) => write_op_memarg(w, 0x31u8, m),
        Instr::I64Load16S(m) => write_op_memarg(w, 0x32u8, m),
        Instr::I64Load16U(m) => write_op_memarg(w, 0x33u8, m),
        Instr::I64Load32S(m) => write_op_memarg(w, 0x34u8, m),
        Instr::I64Load32U(m) => write_op_memarg(w, 0x35u8, m),
        Instr::I32Store(m) => write_op_memarg(w, 0x36u8, m),
        Instr::I64Store(m) => write_op_memarg(w, 0x37u8, m),
        Instr::F32Store(m) => write_op_memarg(w, 0x38u8, m),
        Instr::F64Store(m) => write_op_memarg(w, 0x39u8, m),
        Instr::I32Store8(m) => write_op_memarg(w, 0x3Au8, m),
        Instr::I32Store16(m) => write_op_memarg(w, 0x3Bu8, m),
        Instr::I64Store8(m) => write_op_memarg(w, 0x3Cu8, m),
        Instr::I64Store16(m) => write_op_memarg(w, 0x3Du8, m),
        Instr::I64Store32(m) => write_op_memarg(w, 0x3Eu8, m),
        Instr::I32TruncSatF32S => write_ext(w, 0),
        Instr::I32TruncSatF32U => write_ext(w, 1),
        Instr::I32TruncSatF64S => write_ext(w, 2),
        Instr::I32TruncSatF64U => write_ext(w, 3),
        Instr::I64TruncSatF32S => write_ext(w, 4),
        Instr::I64TruncSatF32U => write_ext(w, 5),
        Instr::I64TruncSatF64S => write_ext(w, 6),
        Instr::I64TruncSatF64U => write_ext(w, 7),
        Instr::Unreachable => write_op(w, 0x00u8),
        Instr::Nop => write_op(w, 0x01u8),
        Instr::Return => write_op(w, 0x0Fu8),
        Instr::Drop => write_op(w, 0x1Au8),
        Instr::RefIsNull => write_op(w, 0xD1u8),
        Instr::I32Eqz => write_op(w, 0x45u8),
        Instr::I32Eq => write_op(w, 0x46u8),
        Instr::I32Ne => write_op(w, 0x47u8),
        Instr::I32LtS => write_op(w, 0x48u8),
        Instr::I32LtU => write_op(w, 0x49u8),
        Instr::I32GtS => write_op(w, 0x4Au8),
        Instr::I32GtU => write_op(w, 0x4Bu8),
        Instr::I32LeS => write_op(w, 0x4Cu8),
        Instr::I32LeU => write_op(w, 0x4Du8),
        Instr::I32GeS => write_op(w, 0x4Eu8),
        Instr::I32GeU => write_op(w, 0x4Fu8),
        Instr::I64Eqz => write_op(w, 0x50u8),
        Instr::I64Eq => write_op(w, 0x51u8),
        Instr::I64Ne => write_op(w, 0x52u8),
        Instr::I64LtS => write_op(w, 0x53u8),
        Instr::I64LtU => write_op(w, 0x54u8),
        Instr::I64GtS => write_op(w, 0x55u8),
        Instr::I64GtU => write_op(w, 0x56u8),
        Instr::I64LeS => write_op(w, 0x57u8),
        Instr::I64LeU => write_op(w, 0x58u8),
        Instr::I64GeS => write_op(w, 0x59u8),
        Instr::I64GeU => write_op(w, 0x5Au8),
        Instr::F32Eq => write_op(w, 0x5Bu8),
        Instr::F32Ne => write_op(w, 0x5Cu8),
        Instr::F32Lt => write_op(w, 0x5Du8),
        Instr::F32Gt => write_op(w, 0x5Eu8),
        Instr::F32Le => write_op(w, 0x5Fu8),
        Instr::F32Ge => write_op(w, 0x60u8),
        Instr::F64Eq => write_op(w, 0x61u8),
        Instr::F64Ne => write_op(w, 0x62u8),
        Instr::F64Lt => write_op(w, 0x63u8),
        Instr::F64Gt => write_op(w, 0x64u8),
        Instr::F64Le => write_op(w, 0x65u8),
        Instr::F64Ge => write_op(w, 0x66u8),
        Instr::I32Clz => write_op(w, 0x67u8),
        Instr::I32Ctz => write_op(w, 0x68u8),
        Instr::I32Popcnt => write_op(w, 0x69u8),
        Instr::I32Add => write_op(w, 0x6Au8),
        Instr::I32Sub => write_op(w, 0x6Bu8),
        Instr::I32Mul => write_op(w, 0x6Cu8),
        Instr::I32DivS => write_op(w, 0x6Du8),
        Instr::I32DivU => write_op(w, 0x6Eu8),
        Instr::I32RemS => write_op(w, 0x6Fu8),
        Instr::I32RemU => write_op(w, 0x70u8),
        Instr::I32And => write_op(w, 0x71u8),
        Instr::I32Or => write_op(w, 0x72u8),
        Instr::I32Xor => write_op(w, 0x73u8),
        Instr::I32Shl => write_op(w, 0x74u8),
        Instr::I32ShrS => write_op(w, 0x75u8),
        Instr::I32ShrU => write_op(w, 0x76u8),
        Instr::I32Rotl => write_op(w, 0x77u8),
        Instr::I32Rotr => write_op(w, 0x78u8),
        Instr::I64Clz => write_op(w, 0x79u8),
        Instr::I64Ctz => write_op(w, 0x7Au8),
        Instr::I64Popcnt => write_op(w, 0x7Bu8),
        Instr::I64Add => write_op(w, 0x7Cu8),
        Instr::I64Sub => write_op(w, 0x7Du8),
        Instr::I64Mul => write_op(w, 0x7Eu8),
        Instr::I64DivS => write_op(w, 0x7Fu8),
        Instr::I64DivU => write_op(w, 0x80u8),
        Instr::I64RemS => write_op(w, 0x81u8),
        Instr::I64RemU => write_op(w, 0x82u8),
        Instr::I64And => write_op(w, 0x83u8),
        Instr::I64Or => write_op(w, 0x84u8),
        Instr::I64Xor => write_op(w, 0x85u8),
        Instr::I64Shl => write_op(w, 0x86u8),
        Instr::I64ShrS => write_op(w, 0x87u8),
        Instr::I64ShrU => write_op(w, 0x88u8),
        Instr::I64Rotl => write_op(w, 0x89u8),
        Instr::I64Rotr => write_op(w, 0x8Au8),
        Instr::F32Abs => write_op(w, 0x8Bu8),
        Instr::F32Neg => write_op(w, 0x8Cu8),
        Instr::F32Ceil => write_op(w, 0x8Du8),
        Instr::F32Floor => write_op(w, 0x8Eu8),
        Instr::F32Trunc => write_op(w, 0x8Fu8),
        Instr::F32Nearest => write_op(w, 0x90u8),
        Instr::F32Sqrt => write_op(w, 0x91u8),
        Instr::F32Add => write_op(w, 0x92u8),
        Instr::F32Sub => write_op(w, 0x93u8),
        Instr::F32Mul => write_op(w, 0x94u8),
        Instr::F32Div => write_op(w, 0x95u8),
        Instr::F32Min => write_op(w, 0x96u8),
        Instr::F32Max => write_op(w, 0x97u8),
        Instr::F32Copysign => write_op(w, 0x98u8),
        Instr::F64Abs => write_op(w, 0x99u8),
        Instr::F64Neg => write_op(w, 0x9Au8),
        Instr::F64Ceil => write_op(w, 0x9Bu8),
        Instr::F64Floor => write_op(w, 0x9Cu8),
        Instr::F64Trunc => write_op(w, 0x9Du8),
        Instr::F64Nearest => write_op(w, 0x9Eu8),
        Instr::F64Sqrt => write_op(w, 0x9Fu8),
        Instr::F64Add => write_op(w, 0xA0u8),
        Instr::F64Sub => write_op(w, 0xA1u8),
        Instr::F64Mul => write_op(w, 0xA2u8),
        Instr::F64Div => write_op(w, 0xA3u8),
        Instr::F64Min => write_op(w, 0xA4u8),
        Instr::F64Max => write_op(w, 0xA5u8),
        Instr::F64Copysign => write_op(w, 0xA6u8),
        Instr::I32WrapI64 => write_op(w, 0xA7u8),
        Instr::I32TruncF32S => write_op(w, 0xA8u8),
        Instr::I32TruncF32U => write_op(w, 0xA9u8),
        Instr::I32TruncF64S => write_op(w, 0xAAu8),
        Instr::I32TruncF64U => write_op(w, 0xABu8),
        Instr::I64ExtendI32S => write_op(w, 0xACu8),
        Instr::I64ExtendI32U => write_op(w, 0xADu8),
        Instr::I64TruncF32S => write_op(w, 0xAEu8),
        Instr::I64TruncF32U => write_op(w, 0xAFu8),
        Instr::I64TruncF64S => write_op(w, 0xB0u8),
        Instr::I64TruncF64U => write_op(w, 0xB1u8),
        Instr::F32ConvertI32S => write_op(w, 0xB2u8),
        Instr::F32ConvertI32U => write_op(w, 0xB3u8),
        Instr::F32ConvertI64S => write_op(w, 0xB4u8),
        Instr::F32ConvertI64U => write_op(w, 0xB5u8),
        Instr::F32DemoteF64 => write_op(w, 0xB6u8),
        Instr::F64ConvertI32S => write_op(w, 0xB7u8),
        Instr::F64ConvertI32U => write_op(w, 0xB8u8),
        Instr::F64ConvertI64S => write_op(w, 0xB9u8),
        Instr::F64ConvertI64U => write_op(w, 0xBAu8),
        Instr::F64PromoteF32 => write_op(w, 0xBBu8),
        Instr::I32ReinterpretF32 => write_op(w, 0xBCu8),
        Instr::I64ReinterpretF64 => write_op(w, 0xBDu8),
        Instr::F32ReinterpretI32 => write_op(w, 0xBEu8),
        Instr::F64ReinterpretI64 => write_op(w, 0xBFu8),
        Instr::I32Extend8S => write_op(w, 0xC0u8),
        Instr::I32Extend16S => write_op(w, 0xC1u8),
        Instr::I64Extend8S => write_op(w, 0xC2u8),
        Instr::I64Extend16S => write_op(w, 0xC3u8),
        Instr::I64Extend32S => write_op(w, 0xC4u8),
    }
    Ok(())
}

/// Appends the encodings of a run of instructions, with no count before them.
pub fn write_instrs(w: &mut Vec<u8>, s: &Vec<Instr>) -> (r: Result<(), EncodeError>)
    ensures
        r is Ok <==> instrs_encodable(s@),
        r is Ok ==> final(w)@ == old(w)@ + instrs_bytes(s@),
    decreases s,
{
    let ghost start = w@;
    let mut k: usize = 0;
    while k < s.len()
        invariant
            k <= s.len(),
            start == old(w)@,
            w@ == start + instrs_bytes(s@.subrange(0, k as int)),
            instrs_encodable(s@.subrange(0, k as int)),
        decreases s.len() - k,
    {
        match write_instr(w, &s[k]) {
            Ok(()) => {},
            Err(e) => {
                proof {
                    lemma_instrs_encodable(s@);
                }
                return Err(e);
            },
        }
        assert(s@.subrange(0, k + 1).drop_last() =~= s@.subrange(0, k as int));
        k = k + 1;
    }
    assert(s@.subrange(0, s.len() as int) =~= s@);
    Ok(())
}

impl WriteContext for Instr {
    open spec fn written_on_error(&self) -> Option<Seq<u8>> {
        None
    }

    open spec fn encodable(&self) -> bool {
        instr_encodable(*self)
    }

    open spec fn wasm_bytes(&self) -> Seq<u8> {
        instr_bytes(*self)
    }

    fn write(&self, w: &mut Vec<u8>) -> (r: Result<(), EncodeError>) {
        write_instr(w, self)
    }
}

impl WriteContext for MemArg {
    open spec fn written_on_error(&self) -> Option<Seq<u8>> {
        None
    }

    open spec fn encodable(&self) -> bool {
        true
    }

    open spec fn wasm_bytes(&self) -> Seq<u8> {
        memarg_bytes(*self)
    }

    fn write(&self, w: &mut Vec<u8>) -> (r: Result<(), EncodeError>) {
        unsigned(w, self.align as u64);
        unsigned(w, self.offset as u64);
        assert(w@ =~= old(w)@ + memarg_bytes(*self));
        Ok(())
    }
}

impl WriteContext for BlockType {
    open spec fn written_on_error(&self) -> Option<Seq<u8>> {
        None
    }

    open spec fn encodable(&self) -> bool {
        true
    }

    open spec fn wasm_bytes(&self) -> Seq<u8> {
        blocktype_bytes(*self)
    }

    fn write(&self, w: &mut Vec<u8>) -> (r: Result<(), EncodeError>) {
        write_blocktype(w, self);
        Ok(())
    }
}

/// An expression is its instructions, then the end marker 0x0B.
impl WriteContext for Expr {
    open spec fn written_on_error(&self) -> Option<Seq<u8>> {
        None
    }

    open spec fn encodable(&self) -> bool {
        instrs_encodable(self.instrs@)
    }

    open spec fn wasm_bytes(&self) -> Seq<u8> {
        instrs_bytes(self.instrs@) + seq![0x0Bu8]
    }

    fn write(&self, w: &mut Vec<u8>) -> (r: Result<(), EncodeError>) {
        match write_instrs(w, &self.instrs) {
            Ok(()) => {},
            Err(e) => {
                return Err(e);
            },
        }
        w.push(0x0B);
        assert(w@ =~= old(w)@ + self.wasm_bytes());
        Ok(())
    }
}

} // verus!
