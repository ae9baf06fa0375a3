use shardc::binary::{EncodeError, WASMBinary, WriteContext};
use shardc::encode_instr::write_instr;
use shardc::encode_module::write_locals;
use shardc::instr::{BlockType, Expr, Instr, MemArg};
use shardc::module::{
    Data, DataMode, Elem, ElemKind, ElemMode, Export, ExportDesc, Func, Global, Import, ImportDesc, Mem, Module, Start,
    Table,
};
use shardc::typ::{FuncType, GlobalType, Limits, MemType, Mut, NumType, RefType, ResultType, TableType, ValType};

const I32: ValType = ValType::NumType(NumType::I32);
const I64: ValType = ValType::NumType(NumType::I64);
const F64: ValType = ValType::NumType(NumType::F64);

fn instr_bytes(i: Instr) -> Vec<u8> {
    let mut w = Vec::new();
    assert_eq!(write_instr(&mut w, &i), Ok(()));
    w
}

fn bytes_of<T: WriteContext>(x: &T) -> Vec<u8> {
    WASMBinary::as_bytes(x).unwrap()
}

fn empty_module() -> Module {
    Module {
        types: Vec::new(),
        funcs: Vec::new(),
        tables: Vec::new(),
        mems: Vec::new(),
        globals: Vec::new(),
        elems: Vec::new(),
        datas: Vec::new(),
        start: None,
        imports: Vec::new(),
        exports: Vec::new(),
    }
}

fn offset_zero() -> Expr {
    Expr::from(vec![Instr::I32Const(0)])
}

fn ref_funcs(idxs: &[u32]) -> Vec<Expr> {
    idxs.iter().map(|i| Expr::from(vec![Instr::RefFunc(*i)])).collect()
}

const HEADER: [u8; 8] = [0x00, 0x61, 0x73, 0x6D, 0x01, 0x00, 0x00, 0x00];

#[test]
fn value_type_codes() {
    assert_eq!(bytes_of(&I32), vec![0x7F]);
    assert_eq!(bytes_of(&I64), vec![0x7E]);
    assert_eq!(bytes_of(&ValType::NumType(NumType::F32)), vec![0x7D]);
    assert_eq!(bytes_of(&F64), vec![0x7C]);
    assert_eq!(bytes_of(&ValType::VecType(shardc::typ::VecType::V128)), vec![0x7B]);
    assert_eq!(bytes_of(&ValType::RefType(RefType::FuncRef)), vec![0x70]);
    assert_eq!(bytes_of(&ValType::RefType(RefType::ExternRef)), vec![0x6F]);
}

#[test]
fn function_type_encoding() {
    let t = FuncType { from: ResultType { values: vec![I32, I64] }, to: ResultType { values: vec![F64] } };
    assert_eq!(bytes_of(&t), vec![0x60, 0x02, 0x7F, 0x7E, 0x01, 0x7C]);
}

#[test]
fn limits_and_table_types() {
    assert_eq!(bytes_of(&Limits { min: 1, max: None }), vec![0x00, 0x01]);
    assert_eq!(bytes_of(&Limits { min: 1, max: Some(200) }), vec![0x01, 0x01, 0xC8, 0x01]);
    let tt = TableType { lim: Limits { min: 2, max: None }, et: RefType::ExternRef };
    assert_eq!(bytes_of(&tt), vec![0x6F, 0x00, 0x02]);
    assert_eq!(bytes_of(&MemType { lim: Limits { min: 0, max: Some(1) } }), vec![0x01, 0x00, 0x01]);
    let gt = GlobalType { mutability: Mut::Var, typ: I32 };
    assert_eq!(bytes_of(&gt), vec![0x7F, 0x01]);
    assert_eq!(bytes_of(&Mut::Const), vec![0x00]);
}

#[test]
fn plain_instructions() {
    assert_eq!(instr_bytes(Instr::Unreachable), vec![0x00]);
    assert_eq!(instr_bytes(Instr::Nop), vec![0x01]);
    assert_eq!(instr_bytes(Instr::I64Add), vec![0x7C]);
    assert_eq!(instr_bytes(Instr::I32Eqz), vec![0x45]);
    assert_eq!(instr_bytes(Instr::F32Nearest), vec![0x90]);
    assert_eq!(instr_bytes(Instr::F64Neg), vec![0x9A]);
    assert_eq!(instr_bytes(Instr::F64ReinterpretI64), vec![0xBF]);
    assert_eq!(instr_bytes(Instr::I64Extend32S), vec![0xC4]);
    assert_eq!(instr_bytes(Instr::Drop), vec![0x1A]);
    assert_eq!(instr_bytes(Instr::RefIsNull), vec![0xD1]);
}

#[test]
fn instructions_with_operands() {
    assert_eq!(instr_bytes(Instr::LocalGet(3)), vec![0x20, 0x03]);
    assert_eq!(instr_bytes(Instr::Call(300)), vec![0x10, 0xAC, 0x02]);
    assert_eq!(instr_bytes(Instr::CallIndirect(1, 2)), vec![0x11, 0x02, 0x01]);
    assert_eq!(instr_bytes(Instr::I32Const(128)), vec![0x41, 0x80, 0x01]);
    assert_eq!(instr_bytes(Instr::I64Const(2)), vec![0x42, 0x02]);
    assert_eq!(instr_bytes(Instr::F32Const(1.0f32.to_bits())), vec![0x43, 0x00, 0x00, 0x80, 0x3F]);
    assert_eq!(
        instr_bytes(Instr::F64Const(1.0f64.to_bits())),
        vec![0x44, 0, 0, 0, 0, 0, 0, 0xF0, 0x3F]
    );
    assert_eq!(instr_bytes(Instr::RefNull(RefType::FuncRef)), vec![0xD0, 0x70]);
    assert_eq!(instr_bytes(Instr::BrTable(vec![0, 1], 2)), vec![0x0E, 0x02, 0x00, 0x01, 0x02]);
    assert_eq!(instr_bytes(Instr::Select(None)), vec![0x1B]);
    assert_eq!(instr_bytes(Instr::Select(Some(vec![I32]))), vec![0x1C, 0x01, 0x7F]);
}

#[test]
fn memory_instructions_put_alignment_first() {
    assert_eq!(instr_bytes(Instr::I32Load(MemArg { offset: 16, align: 2 })), vec![0x28, 0x02, 0x10]);
    assert_eq!(instr_bytes(Instr::I64Store32(MemArg { offset: 0, align: 3 })), vec![0x3E, 0x03, 0x00]);
    assert_eq!(instr_bytes(Instr::MemorySize), vec![0x3F, 0x00]);
    assert_eq!(instr_bytes(Instr::MemoryGrow), vec![0x40, 0x00]);
}

#[test]
fn extended_instructions() {
    assert_eq!(instr_bytes(Instr::I32TruncSatF32S), vec![0xFC, 0x00]);
    assert_eq!(instr_bytes(Instr::I64TruncSatF64U), vec![0xFC, 0x07]);
    assert_eq!(instr_bytes(Instr::MemoryInit(3)), vec![0xFC, 0x08, 0x03, 0x00]);
    assert_eq!(instr_bytes(Instr::DataDrop(3)), vec![0xFC, 0x09, 0x03]);
    assert_eq!(instr_bytes(Instr::MemoryCopy), vec![0xFC, 0x0A, 0x00, 0x00]);
    assert_eq!(instr_bytes(Instr::MemoryFill), vec![0xFC, 0x0B, 0x00]);
    assert_eq!(instr_bytes(Instr::TableInit(1, 2)), vec![0xFC, 0x0C, 0x02, 0x01]);
    assert_eq!(instr_bytes(Instr::ElemDrop(4)), vec![0xFC, 0x0D, 0x04]);
    assert_eq!(instr_bytes(Instr::TableCopy(1, 2)), vec![0xFC, 0x0E, 0x01, 0x02]);
    assert_eq!(instr_bytes(Instr::TableGrow(1)), vec![0xFC, 0x0F, 0x01]);
    assert_eq!(instr_bytes(Instr::TableSize(1)), vec![0xFC, 0x10, 0x01]);
    assert_eq!(instr_bytes(Instr::TableFill(1)), vec![0xFC, 0x11, 0x01]);
}

#[test]
fn block_types() {
    assert_eq!(bytes_of(&BlockType::Empty), vec![0x40]);
    assert_eq!(bytes_of(&BlockType::ValType(I64)), vec![0x7E]);
    // signature indices go through the signed codec
    assert_eq!(bytes_of(&BlockType::TypeIdx(3)), vec![0x03]);
    assert_eq!(bytes_of(&BlockType::TypeIdx(64)), vec![0xC0, 0x00]);
}

#[test]
fn nested_blocks() {
    let i = Instr::Block(BlockType::Empty, vec![Instr::Loop(BlockType::ValType(I32), vec![Instr::Br(1)]), Instr::Nop]);
    assert_eq!(instr_bytes(i), vec![0x02, 0x40, 0x03, 0x7F, 0x0C, 0x01, 0x0B, 0x01, 0x0B]);
}

#[test]
fn if_without_else_has_one_terminator() {
    let i = Instr::If(BlockType::Empty, vec![Instr::Nop], Vec::new());
    assert_eq!(instr_bytes(i), vec![0x04, 0x40, 0x01, 0x0B]);
}

#[test]
fn if_with_else_has_separator() {
    let i = Instr::If(BlockType::ValType(I32), vec![Instr::I32Const(1)], vec![Instr::I32Const(2)]);
    assert_eq!(instr_bytes(i), vec![0x04, 0x7F, 0x41, 0x01, 0x05, 0x41, 0x02, 0x0B]);
}

#[test]
fn expression_ends_with_terminator() {
    assert_eq!(bytes_of(&Expr::new()), vec![0x0B]);
    let mut a = Expr::from(vec![Instr::I64Const(2)]);
    let mut b = Expr::from(vec![Instr::I64Const(3), Instr::I64Add]);
    a.append(&mut b);
    assert!(b.instrs.is_empty());
    assert_eq!(bytes_of(&a), vec![0x42, 0x02, 0x42, 0x03, 0x7C, 0x0B]);
}

#[test]
fn locals_runs_are_not_merged_across_types() {
    let mut w = Vec::new();
    write_locals(&mut w, &vec![I32, I32, F64, I32]);
    assert_eq!(w, vec![0x02, 0x7F, 0x01, 0x7C, 0x01, 0x7F]);
}

#[test]
fn empty_locals_encode_nothing() {
    let mut w = Vec::new();
    write_locals(&mut w, &Vec::new());
    assert!(w.is_empty());
}

#[test]
fn long_run_of_locals() {
    let mut w = Vec::new();
    write_locals(&mut w, &vec![I64; 200]);
    assert_eq!(w, vec![0xC8, 0x01, 0x7E]);
}

#[test]
fn element_segment_on_table_zero_is_compact() {
    let e = Elem {
        typ: RefType::FuncRef,
        init: ref_funcs(&[3, 5]),
        mode: ElemMode::Active { table: 0, offset: offset_zero() },
    };
    assert_eq!(bytes_of(&e), vec![0x00, 0x41, 0x00, 0x0B, 0x02, 0x03, 0x05]);
}

#[test]
fn element_segment_on_table_one_names_table_and_kind() {
    let e = Elem {
        typ: RefType::FuncRef,
        init: ref_funcs(&[3, 5]),
        mode: ElemMode::Active { table: 1, offset: offset_zero() },
    };
    assert_eq!(bytes_of(&e), vec![0x02, 0x01, 0x41, 0x00, 0x0B, 0x00, 0x02, 0x03, 0x05]);
}

#[test]
fn element_segment_with_expressions() {
    let init = vec![Expr::from(vec![Instr::RefNull(RefType::FuncRef)])];
    let e = Elem { typ: RefType::FuncRef, init, mode: ElemMode::Active { table: 0, offset: offset_zero() } };
    assert_eq!(bytes_of(&e), vec![0x04, 0x41, 0x00, 0x0B, 0x01, 0xD0, 0x70, 0x0B]);
    let init = vec![Expr::from(vec![Instr::RefNull(RefType::ExternRef)])];
    let e = Elem { typ: RefType::ExternRef, init, mode: ElemMode::Active { table: 2, offset: offset_zero() } };
    assert_eq!(bytes_of(&e), vec![0x06, 0x02, 0x41, 0x00, 0x0B, 0x6F, 0x01, 0xD0, 0x6F, 0x0B]);
}

#[test]
fn passive_and_declarative_element_segments() {
    let e = Elem { typ: RefType::FuncRef, init: ref_funcs(&[7]), mode: ElemMode::Passive };
    assert_eq!(bytes_of(&e), vec![0x01, 0x00, 0x01, 0x07]);
    let e = Elem { typ: RefType::FuncRef, init: ref_funcs(&[7]), mode: ElemMode::Declarative };
    assert_eq!(bytes_of(&e), vec![0x03, 0x00, 0x01, 0x07]);
    let init = vec![Expr::from(vec![Instr::RefFunc(1), Instr::Nop])];
    let e = Elem { typ: RefType::FuncRef, init, mode: ElemMode::Passive };
    assert_eq!(bytes_of(&e), vec![0x05, 0x70, 0x01, 0xD2, 0x01, 0x01, 0x0B]);
    let e = Elem { typ: RefType::ExternRef, init: Vec::new(), mode: ElemMode::Declarative };
    assert_eq!(bytes_of(&e), vec![0x03, 0x00, 0x00]);
    assert_eq!(bytes_of(&ElemKind::Zero), vec![0x00]);
}

#[test]
fn data_segment_shapes() {
    let d = Data { init: vec![1, 2], mode: DataMode::Active { memory: 0, offset: offset_zero() } };
    assert_eq!(bytes_of(&d), vec![0x00, 0x41, 0x00, 0x0B, 0x02, 0x01, 0x02]);
    let d = Data { init: vec![9], mode: DataMode::Passive };
    assert_eq!(bytes_of(&d), vec![0x01, 0x01, 0x09]);
    let d = Data { init: Vec::new(), mode: DataMode::Active { memory: 2, offset: offset_zero() } };
    assert_eq!(bytes_of(&d), vec![0x02, 0x02, 0x41, 0x00, 0x0B, 0x00]);
}

#[test]
fn imports_and_exports() {
    let i = Import { module: String::from("env"), name: String::from("f"), desc: ImportDesc::Func(2) };
    assert_eq!(bytes_of(&i), vec![0x03, b'e', b'n', b'v', 0x01, b'f', 0x00, 0x02]);
    let i = Import {
        module: String::from("m"),
        name: String::from("g"),
        desc: ImportDesc::Global(GlobalType { mutability: Mut::Const, typ: I64 }),
    };
    assert_eq!(bytes_of(&i), vec![0x01, b'm', 0x01, b'g', 0x03, 0x7E, 0x00]);
    let e = Export { name: String::from("mem"), desc: ExportDesc::Mem(0) };
    assert_eq!(bytes_of(&e), vec![0x03, b'm', b'e', b'm', 0x02, 0x00]);
    let e = Export { name: String::from("\u{e9}"), desc: ExportDesc::Global(1) };
    assert_eq!(bytes_of(&e), vec![0x02, 0xC3, 0xA9, 0x03, 0x01]);
}

#[test]
fn empty_module_keeps_data_count_section() {
    let bytes = bytes_of(&empty_module());
    let mut expected = HEADER.to_vec();
    // every length-prefixed section holds one zero byte and is emitted; the
    // start section has no content and is left out
    for id in [1u8, 2, 3, 4, 5, 6, 7, 9, 12, 10, 11] {
        expected.extend_from_slice(&[id, 0x01, 0x00]);
    }
    assert_eq!(bytes, expected);
    assert!(bytes.windows(3).any(|s| s == [0x0C, 0x01, 0x00]));
}

#[test]
fn start_section_present_when_set() {
    let mut m = empty_module();
    m.start = Some(Start { func: 5 });
    let bytes = bytes_of(&m);
    assert_eq!(&bytes[29..32], &[0x08, 0x01, 0x05]);
}

#[test]
fn minimal_module_end_to_end() {
    let m = Module {
        types: vec![FuncType { from: ResultType { values: Vec::new() }, to: ResultType { values: vec![I64] } }],
        funcs: vec![Func {
            typ: 0,
            locals: Vec::new(),
            body: Expr::from(vec![Instr::I64Const(2), Instr::I64Const(3), Instr::I64Add]),
        }],
        tables: Vec::new(),
        mems: Vec::new(),
        globals: Vec::new(),
        elems: Vec::new(),
        datas: Vec::new(),
        start: None,
        imports: Vec::new(),
        exports: vec![Export { name: String::from("main"), desc: ExportDesc::Func(0) }],
    };
    let mut expected = HEADER.to_vec();
    expected.extend_from_slice(&[0x01, 0x05, 0x01, 0x60, 0x00, 0x01, 0x7E]);
    expected.extend_from_slice(&[0x02, 0x01, 0x00]);
    expected.extend_from_slice(&[0x03, 0x02, 0x01, 0x00]);
    expected.extend_from_slice(&[0x04, 0x01, 0x00, 0x05, 0x01, 0x00, 0x06, 0x01, 0x00]);
    expected.extend_from_slice(&[0x07, 0x08, 0x01, 0x04, b'm', b'a', b'i', b'n', 0x00, 0x00]);
    expected.extend_from_slice(&[0x09, 0x01, 0x00]);
    expected.extend_from_slice(&[0x0C, 0x01, 0x00]);
    expected.extend_from_slice(&[0x0A, 0x08, 0x01, 0x06, 0x42, 0x02, 0x42, 0x03, 0x7C, 0x0B]);
    expected.extend_from_slice(&[0x0B, 0x01, 0x00]);
    assert_eq!(bytes_of(&m), expected);

    let mut streamed = vec![0xEE];
    assert_eq!(WASMBinary::write(&mut streamed, &m), Ok(()));
    assert_eq!(&streamed[1..], &expected[..]);
}

#[test]
fn module_with_every_section() {
    let m = Module {
        types: vec![FuncType { from: ResultType { values: vec![I32] }, to: ResultType { values: Vec::new() } }],
        funcs: vec![Func { typ: 0, locals: vec![I32, I64], body: Expr::from(vec![Instr::LocalGet(0), Instr::Drop]) }],
        tables: vec![Table { typ: TableType { lim: Limits { min: 1, max: None }, et: RefType::FuncRef } }],
        mems: vec![Mem { typ: MemType { lim: Limits { min: 1, max: Some(2) } } }],
        globals: vec![Global { typ: GlobalType { mutability: Mut::Var, typ: I32 }, init: Expr::from(vec![Instr::I32Const(7)]) }],
        elems: vec![Elem { typ: RefType::FuncRef, init: ref_funcs(&[0]), mode: ElemMode::Active { table: 0, offset: offset_zero() } }],
        datas: vec![Data { init: vec![0xAB], mode: DataMode::Passive }],
        start: Some(Start { func: 0 }),
        imports: vec![Import { module: String::from("a"), name: String::from("b"), desc: ImportDesc::Mem(MemType { lim: Limits { min: 0, max: None } }) }],
        exports: vec![Export { name: String::from("t"), desc: ExportDesc::Table(0) }],
    };
    let mut expected = HEADER.to_vec();
    expected.extend_from_slice(&[0x01, 0x05, 0x01, 0x60, 0x01, 0x7F, 0x00]);
    expected.extend_from_slice(&[0x02, 0x08, 0x01, 0x01, b'a', 0x01, b'b', 0x02, 0x00, 0x00]);
    expected.extend_from_slice(&[0x03, 0x02, 0x01, 0x00]);
    expected.extend_from_slice(&[0x04, 0x04, 0x01, 0x70, 0x00, 0x01]);
    expected.extend_from_slice(&[0x05, 0x04, 0x01, 0x01, 0x01, 0x02]);
    expected.extend_from_slice(&[0x06, 0x06, 0x01, 0x7F, 0x01, 0x41, 0x07, 0x0B]);
    expected.extend_from_slice(&[0x07, 0x05, 0x01, 0x01, b't', 0x01, 0x00]);
    expected.extend_from_slice(&[0x08, 0x01, 0x00]);
    expected.extend_from_slice(&[0x09, 0x07, 0x01, 0x00, 0x41, 0x00, 0x0B, 0x01, 0x00]);
    expected.extend_from_slice(&[0x0C, 0x01, 0x01]);
    expected.extend_from_slice(&[0x0A, 0x0A, 0x01, 0x08, 0x01, 0x7F, 0x01, 0x7E, 0x20, 0x00, 0x1A, 0x0B]);
    expected.extend_from_slice(&[0x0B, 0x04, 0x01, 0x01, 0x01, 0xAB]);
    assert_eq!(bytes_of(&m), expected);
}

#[test]
fn error_type_is_comparable() {
    let e = EncodeError::LengthOverflow;
    assert_eq!(e, EncodeError::LengthOverflow);
}

#[test]
fn expression_from_one_instruction() {
    let e = Expr::from(Instr::Nop);
    assert_eq!(e.instrs.len(), 1);
    assert_eq!(bytes_of(&e), vec![0x01, 0x0B]);
}
