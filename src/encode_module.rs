//! Encoding of modules: the header, the sections in their fixed order, and
//! the compact shapes of element segments, data segments and locals.
use vstd::prelude::*;
use crate::binary::{vec_bytes, EncodeError, WriteContext};
use crate::encode_instr::{instr_encodable, instrs_encodable};
use crate::encode_typ::{globaltype_bytes, limits_bytes, reftype_byte, reftype_code, tabletype_bytes, valtype_code, write_globaltype, write_limits, write_tabletype, write_valtype};
use crate::instr::{Expr, Instr};
use crate::module::{Data, DataMode, Elem, ElemKind, ElemMode, Export, ExportDesc, Func, Global, Import, ImportDesc, Mem, Module, Start, Table};
use crate::numvalue::{uleb, unsigned};
use crate::typ::{RefType, ValType};

verus! {

/// The encoding of an import description: a kind byte, then the type index
/// or the type of the imported entity.
pub open spec fn importdesc_bytes(d: ImportDesc) -> Seq<u8> {
    match d {
        ImportDesc::Func(x) => seq![0x00u8] + uleb(x as nat),
        ImportDesc::Table(t) => seq![0x01u8] + tabletype_bytes(t),
        ImportDesc::Mem(t) => seq![0x02u8] + limits_bytes(t.lim),
        ImportDesc::Global(t) => seq![0x03u8] + globaltype_bytes(t),
    }
}

/// The encoding of an export description: a kind byte, then an index.
pub open spec fn exportdesc_bytes(d: ExportDesc) -> Seq<u8> {
    match d {
        ExportDesc::Func(x) => seq![0x00u8] + uleb(x as nat),
        ExportDesc::Table(x) => seq![0x01u8] + uleb(x as nat),
        ExportDesc::Mem(x) => seq![0x02u8] + uleb(x as nat),
        ExportDesc::Global(x) => seq![0x03u8] + uleb(x as nat),
    }
}

impl WriteContext for ImportDesc {
    open spec fn written_on_error(&self) -> Option<Seq<u8>> {
        None
    }

    open spec fn encodable(&self) -> bool {
        true
    }

    open spec fn wasm_bytes(&self) -> Seq<u8> {
        importdesc_bytes(*self)
    }

    fn write(&self, w: &mut Vec<u8>) -> (r: Result<(), EncodeError>) {
        match self {
            ImportDesc::Func(x) => {
                w.push(0x00);
                unsigned(w, *x as u64);
            },
            ImportDesc::Table(t) => {
                w.push(0x01);
                write_tabletype(w, t);
            },
            ImportDesc::Mem(t) => {
                w.push(0x02);
                write_limits(w, &t.lim);
            },
            ImportDesc::Global(t) => {
                w.push(0x03);
                write_globaltype(w, t);
            },
        }
        assert(w@ =~= old(w)@ + importdesc_bytes(*self));
        Ok(())
    }
}

/// An import is the module name, the entity name, then its description.
impl WriteContext for Import {
    open spec fn written_on_error(&self) -> Option<Seq<u8>> {
        None
    }

    open spec fn encodable(&self) -> bool {
        self.module.encodable() && self.name.encodable()
    }

    open spec fn wasm_bytes(&self) -> Seq<u8> {
        self.module.wasm_bytes() + self.name.wasm_bytes() + importdesc_bytes(self.desc)
    }

    fn write(&self, w: &mut Vec<u8>) -> (r: Result<(), EncodeError>) {
        match self.module.write(w) {
            Ok(()) => {},
            Err(e) => {
                return Err(e);
            },
        }
        match self.name.write(w) {
            Ok(()) => {},
            Err(e) => {
                return Err(e);
            },
        }
        let _ = self.desc.write(w);
        assert(w@ =~= old(w)@ + self.wasm_bytes());
        Ok(())
    }
}

impl WriteContext for ExportDesc {
    open spec fn written_on_error(&self) -> Option<Seq<u8>> {
        None
    }

    open spec fn encodable(&self) -> bool {
        true
    }

    open spec fn wasm_bytes(&self) -> Seq<u8> {
        exportdesc_bytes(*self)
    }

    fn write(&self, w: &mut Vec<u8>) -> (r: Result<(), EncodeError>) {
        let (kind, x): (u8, u32) = match self {
            ExportDesc::Func(x) => (0x00, *x),
            ExportDesc::Table(x) => (0x01, *x),
            ExportDesc::Mem(x) => (0x02, *x),
            ExportDesc::Global(x) => (0x03, *x),
        };
        w.push(kind);
        unsigned(w, x as u64);
        assert(w@ =~= old(w)@ + exportdesc_bytes(*self));
        Ok(())
    }
}

/// An export is its name, then its description.
impl WriteContext for Export {
    open spec fn written_on_error(&self) -> Option<Seq<u8>> {
        None
    }

    open spec fn encodable(&self) -> bool {
        self.name.encodable()
    }

    open spec fn wasm_bytes(&self) -> Seq<u8> {
        self.name.wasm_bytes() + exportdesc_bytes(self.desc)
    }

    fn write(&self, w: &mut Vec<u8>) -> (r: Result<(), EncodeError>) {
        match self.name.write(w) {
            Ok(()) => {},
            Err(e) => {
                return Err(e);
            },
        }
        let _ = self.desc.write(w);
        Ok(())
    }
}

/// A table is its table type.
impl WriteContext for Table {
    open spec fn written_on_error(&self) -> Option<Seq<u8>> {
        None
    }

    open spec fn encodable(&self) -> bool {
        true
    }

    open spec fn wasm_bytes(&self) -> Seq<u8> {
        tabletype_bytes(self.typ)
    }

    fn write(&self, w: &mut Vec<u8>) -> (r: Result<(), EncodeError>) {
        write_tabletype(w, &self.typ);
        Ok(())
    }
}

/// A memory is its memory type.
impl WriteContext for Mem {
    open spec fn written_on_error(&self) -> Option<Seq<u8>> {
        None
    }

    open spec fn encodable(&self) -> bool {
        true
    }

    open spec fn wasm_bytes(&self) -> Seq<u8> {
        limits_bytes(self.typ.lim)
    }

    fn write(&self, w: &mut Vec<u8>) -> (r: Result<(), EncodeError>) {
        write_limits(w, &self.typ.lim);
        Ok(())
    }
}

/// A global is its type, then its initializer expression.
impl WriteContext for Global {
    open spec fn written_on_error(&self) -> Option<Seq<u8>> {
        None
    }

    open spec fn encodable(&self) -> bool {
        self.init.encodable()
    }

    open spec fn wasm_bytes(&self) -> Seq<u8> {
        globaltype_bytes(self.typ) + self.init.wasm_bytes()
    }

    fn write(&self, w: &mut Vec<u8>) -> (r: Result<(), EncodeError>) {
        write_globaltype(w, &self.typ);
        self.init.write(w)
    }
}

/// The start section holds the function index alone.
impl WriteContext for Start {
    open spec fn written_on_error(&self) -> Option<Seq<u8>> {
        None
    }

    open spec fn encodable(&self) -> bool {
        true
    }

    open spec fn wasm_bytes(&self) -> Seq<u8> {
        uleb(self.func as nat)
    }

    fn write(&self, w: &mut Vec<u8>) -> (r: Result<(), EncodeError>) {
        unsigned(w, self.func as u64);
        Ok(())
    }
}

impl WriteContext for ElemKind {
    open spec fn written_on_error(&self) -> Option<Seq<u8>> {
        None
    }

    open spec fn encodable(&self) -> bool {
        true
    }

    open spec fn wasm_bytes(&self) -> Seq<u8> {
        seq![0x00u8]
    }

    fn write(&self, w: &mut Vec<u8>) -> (r: Result<(), EncodeError>) {
        w.push(0x00);
        assert(w@ =~= old(w)@ + seq![0x00u8]);
        Ok(())
    }
}

/// The encoding of a data segment. Active on memory 0 takes the compact
/// shape 0x00, passive takes 0x01, active on another memory takes 0x02 with
/// the memory index.
pub open spec fn data_bytes(d: Data) -> Seq<u8> {
    match d.mode {
        DataMode::Active { memory, offset } => if memory == 0 {
            seq![0x00u8] + offset.wasm_bytes() + d.init.wasm_bytes()
        } else {
            seq![0x02u8] + uleb(memory as nat) + offset.wasm_bytes() + d.init.wasm_bytes()
        },
        DataMode::Passive => seq![0x01u8] + d.init.wasm_bytes(),
    }
}

impl WriteContext for Data {
    open spec fn written_on_error(&self) -> Option<Seq<u8>> {
        None
    }

    open spec fn encodable(&self) -> bool {
        self.init.encodable() && match self.mode {
            DataMode::Active { memory, offset } => offset.encodable(),
            DataMode::Passive => true,
        }
    }

    open spec fn wasm_bytes(&self) -> Seq<u8> {
        data_bytes(*self)
    }

    fn write(&self, w: &mut Vec<u8>) -> (r: Result<(), EncodeError>) {
        match &self.mode {
            DataMode::Active { memory, offset } => {
                if *memory == 0 {
                    w.push(0x00);
                } else {
                    w.push(0x02);
                    unsigned(w, *memory as u64);
                }
                match offset.write(w) {
                    Ok(()) => {},
                    Err(e) => {
                        return Err(e);
                    },
                }
            },
            DataMode::Passive => {
                w.push(0x01);
            },
        }
        match self.init.write(w) {
            Ok(()) => {},
            Err(e) => {
                return Err(e);
            },
        }
        assert(w@ =~= old(w)@ + data_bytes(*self));
        Ok(())
    }
}

/// Whether an initializer is exactly one direct function reference.
pub open spec fn is_ref_func(e: Expr) -> bool {
    e.instrs@.len() == 1 && e.instrs@[0] is RefFunc
}

/// Whether every initializer of a segment is one direct function reference.
pub open spec fn all_ref_funcs(init: Seq<Expr>) -> bool {
    forall|k: int| 0 <= k < init.len() ==> #[trigger] is_ref_func(init[k])
}

/// The function indices that the initializers refer to, in order.
pub open spec fn ref_func_indices(init: Seq<Expr>) -> Seq<u32> {
    init.map_values(|e: Expr| e.instrs@[0]->RefFunc_0)
}

/// Whether a segment bound to `table` with element type `typ` may leave both
/// implicit: table 0 holding function references.
pub open spec fn implicit_table(table: u32, typ: RefType) -> bool {
    table == 0 && typ == RefType::FuncRef
}

/// The encoding of an element segment. The leading byte names the shape:
/// bit 0 set for passive and declarative segments, bit 1 for an explicit
/// table (active) or for declarative, bit 2 when the elements are full
/// expressions rather than bare function indices.
pub open spec fn elem_bytes(e: Elem) -> Seq<u8> {
    let funcs = vec_bytes(ref_func_indices(e.init@));
    let exprs = vec_bytes(e.init@);
    let t = reftype_code(e.typ);
    if all_ref_funcs(e.init@) {
        match e.mode {
            ElemMode::Active { table, offset } => if implicit_table(table, e.typ) {
                seq![0x00u8] + offset.wasm_bytes() + funcs
            } else {
                seq![0x02u8] + uleb(table as nat) + offset.wasm_bytes() + seq![0x00u8] + funcs
            },
            ElemMode::Passive => seq![0x01u8, 0x00u8] + funcs,
            ElemMode::Declarative => seq![0x03u8, 0x00u8] + funcs,
        }
    } else {
        match e.mode {
            ElemMode::Active { table, offset } => if implicit_table(table, e.typ) {
                seq![0x04u8] + offset.wasm_bytes() + exprs
            } else {
                seq![0x06u8] + uleb(table as nat) + offset.wasm_bytes() + seq![t] + exprs
            },
            ElemMode::Passive => seq![0x05u8, t] + exprs,
            ElemMode::Declarative => seq![0x07u8, t] + exprs,
        }
    }
}

/// An active segment of function references whose initializers are all
/// direct function references takes the compact shape 0x00, with only the
/// offset and the function indices, on table 0; on any other table it takes
/// the shape 0x02, with the table index, the offset, the element kind byte
/// 0x00, and the function indices.
pub proof fn elem_shape_selection(e: Elem)
    requires
        e.mode is Active,
        e.typ == RefType::FuncRef,
        all_ref_funcs(e.init@),
    ensures
        ({
            let table = e.mode->Active_table;
            let offset = e.mode->Active_offset;
            let funcs = vec_bytes(ref_func_indices(e.init@));
            &&& table == 0 ==> elem_bytes(e) == seq![0x00u8] + offset.wasm_bytes() + funcs
            &&& table != 0 ==> elem_bytes(e) == seq![0x02u8] + uleb(table as nat) + offset.wasm_bytes()
                + seq![0x00u8] + funcs
        }),
{
}

/// Whether an element segment is encodable: its count fits in 32 bits and
/// its expressions are encodable.
pub open spec fn elem_encodable(e: Elem) -> bool {
    &&& e.init.encodable()
    &&& match e.mode {
        ElemMode::Active { table, offset } => offset.encodable(),
        _ => true,
    }
}

/// Decides whether every initializer is a single direct function reference,
/// and if so collects the function indices.
fn collect_ref_funcs(init: &Vec<Expr>) -> (r: (bool, Vec<u32>))
    ensures
        r.0 == all_ref_funcs(init@),
        r.0 ==> r.1@ == ref_func_indices(init@),
{
    let mut funcidxs: Vec<u32> = Vec::new();
    let mut k: usize = 0;
    while k < init.len()
        invariant
            k <= init.len(),
            forall|j: int| 0 <= j < k ==> #[trigger] is_ref_func(init@[j]),
            funcidxs@ == ref_func_indices(init@.subrange(0, k as int)),
        decreases init.len() - k,
    {
        let e = &init[k];
        if e.instrs.len() != 1 {
            assert(!is_ref_func(init@[k as int]));
            return (false, funcidxs);
        }
        match &e.instrs[0] {
            Instr::RefFunc(f) => {
                funcidxs.push(*f);
            },
            _ => {
                assert(!is_ref_func(init@[k as int]));
                return (false, funcidxs);
            },
        }
        k = k + 1;
        assert(funcidxs@ =~= ref_func_indices(init@.subrange(0, k as int)));
    }
    assert(init@.subrange(0, k as int) =~= init@);
    (true, funcidxs)
}

/// A single direct function reference is always encodable.
proof fn lemma_ref_funcs_encodable(init: Seq<Expr>)
    requires
        all_ref_funcs(init),
    ensures
        forall|k: int| 0 <= k < init.len() ==> (#[trigger] init[k]).encodable(),
{
    assert forall|k: int| 0 <= k < init.len() implies (#[trigger] init[k]).encodable() by {
        assert(is_ref_func(init[k]));
        let s = init[k].instrs@;
        assert(s.drop_last() =~= Seq::<Instr>::empty());
        assert(instrs_encodable(s.drop_last()));
        assert(instr_encodable(s.last()));
    }
}

impl WriteContext for Elem {
    open spec fn written_on_error(&self) -> Option<Seq<u8>> {
        None
    }

    open spec fn encodable(&self) -> bool {
        elem_encodable(*self)
    }

    open spec fn wasm_bytes(&self) -> Seq<u8> {
        elem_bytes(*self)
    }

    fn write(&self, w: &mut Vec<u8>) -> (r: Result<(), EncodeError>) {
        let (all_reffunc, funcidxs) = collect_ref_funcs(&self.init);
        let t = reftype_byte(&self.typ);
        if self.init.len() > u32::MAX as usize {
            return Err(EncodeError::LengthOverflow);
        }
        proof {
            if all_reffunc {
                lemma_ref_funcs_encodable(self.init@);
            }
        }
        match &self.mode {
            ElemMode::Active { table, offset } => {
                let implicit = *table == 0 && self.typ == RefType::FuncRef;
                if all_reffunc {
                    if implicit {
                        w.push(0x00);
                    } else {
                        w.push(0x02);
                        unsigned(w, *table as u64);
                    }
                } else {
                    if implicit {
                        w.push(0x04);
                    } else {
                        w.push(0x06);
                        unsigned(w, *table as u64);
                    }
                }
                match offset.write(w) {
                    Ok(()) => {},
                    Err(e) => {
                        return Err(e);
                    },
                }
                if !implicit {
                    if all_reffunc {
                        w.push(0x00);
                    } else {
                        w.push(t);
                    }
                }
            },
            ElemMode::Passive => {
                if all_reffunc {
                    w.push(0x01);
                    w.push(0x00);
                } else {
                    w.push(0x05);
                    w.push(t);
                }
            },
            ElemMode::Declarative => {
                if all_reffunc {
                    w.push(0x03);
                    w.push(0x00);
                } else {
                    w.push(0x07);
                    w.push(t);
                }
            },
        }
        if all_reffunc {
            let _ = funcidxs.write(w);
        } else {
            match self.init.write(w) {
                Ok(()) => {},
                Err(e) => {
                    return Err(e);
                },
            }
        }
        assert(w@ =~= old(w)@ + elem_bytes(*self));
        Ok(())
    }
}

/// The maximal runs of equal adjacent value types in `s`, each as a count
/// and a type, in order.
pub open spec fn local_runs(s: Seq<ValType>) -> Seq<(nat, ValType)>
    decreases s.len(),
{
    if s.len() == 0 {
        Seq::empty()
    } else {
        let r = local_runs(s.drop_last());
        if r.len() > 0 && r.last().1 == s.last() {
            r.drop_last().push((r.last().0 + 1, s.last()))
        } else {
            r.push((1nat, s.last()))
        }
    }
}

/// The locals that runs stand for: each type repeated as many times as its count.
pub open spec fn expand_runs(r: Seq<(nat, ValType)>) -> Seq<ValType>
    decreases r.len(),
{
    if r.len() == 0 {
        Seq::empty()
    } else {
        expand_runs(r.drop_last()) + Seq::new(r.last().0, |_i: int| r.last().1)
    }
}

/// Locals are grouped into maximal runs: the runs give back the locals in
/// order, no run is empty, and two adjacent runs never share a type, so equal
/// types that are not adjacent are never merged.
pub proof fn local_runs_are_maximal(s: Seq<ValType>)
    ensures
        expand_runs(local_runs(s)) == s,
        forall|k: int| 0 <= k < local_runs(s).len() ==> #[trigger] local_runs(s)[k].0 >= 1,
        forall|k: int|
            0 < k < local_runs(s).len() ==> #[trigger] local_runs(s)[k].1 != local_runs(s)[k - 1].1,
    decreases s.len(),
{
    if s.len() > 0 {
        let d = s.drop_last();
        let t = s.last();
        local_runs_are_maximal(d);
        let r = local_runs(d);
        assert(s =~= d.push(t));
        if r.len() > 0 && r.last().1 == t {
            let n = r.last().0;
            let rr = r.drop_last().push((n + 1, t));
            assert(rr == local_runs(s));
            assert(rr.drop_last() =~= r.drop_last());
            assert(Seq::new(n + 1, |_i: int| t) =~= Seq::new(n, |_i: int| t).push(t));
            assert(Seq::new(n, |_i: int| r.last().1) =~= Seq::new(n, |_i: int| t));
            assert(expand_runs(r) == expand_runs(r.drop_last()) + Seq::new(n, |_i: int| t));
            assert(expand_runs(rr) =~= expand_runs(r.drop_last()) + Seq::new(n, |_i: int| t).push(t));
            assert forall|k: int| 0 <= k < rr.len() implies #[trigger] rr[k].0 >= 1 by {
                if k < rr.len() - 1 {
                    assert(rr[k] == r[k]);
                }
            }
            assert forall|k: int| 0 < k < rr.len() implies #[trigger] rr[k].1 != rr[k - 1].1 by {
                if k < rr.len() - 1 {
                    assert(rr[k] == r[k]);
                    assert(rr[k - 1] == r[k - 1]);
                } else {
                    assert(rr[k].1 == r[k].1);
                    assert(rr[k - 1] == r[k - 1]);
                }
            }
        } else {
            let rr = r.push((1nat, t));
            assert(rr == local_runs(s));
            assert(rr.drop_last() =~= r);
            assert(Seq::new(1nat, |_i: int| t) =~= seq![t]);
            assert(expand_runs(rr) =~= expand_runs(r) + seq![t]);
            assert forall|k: int| 0 <= k < rr.len() implies #[trigger] rr[k].0 >= 1 by {
                if k < rr.len() - 1 {
                    assert(rr[k] == r[k]);
                }
            }
            assert forall|k: int| 0 < k < rr.len() implies #[trigger] rr[k].1 != rr[k - 1].1 by {
                if k < rr.len() - 1 {
                    assert(rr[k] == r[k]);
                    assert(rr[k - 1] == r[k - 1]);
                }
            }
        }
    }
}

/// The encoding of runs of locals: for each run, its count, then its type.
pub open spec fn runs_bytes(r: Seq<(nat, ValType)>) -> Seq<u8>
    decreases r.len(),
{
    if r.len() == 0 {
        Seq::empty()
    } else {
        runs_bytes(r.drop_last()) + uleb(r.last().0) + seq![valtype_code(r.last().1)]
    }
}

/// The encoding of the locals of a function: its runs, with no count before them.
pub open spec fn locals_bytes(s: Seq<ValType>) -> Seq<u8> {
    runs_bytes(local_runs(s))
}

/// Appends the encoding of the locals of a function.
pub fn write_locals(w: &mut Vec<u8>, locals: &Vec<ValType>)
    ensures
        final(w)@ == old(w)@ + locals_bytes(locals@),
{
    let n = locals.len();
    if n == 0 {
        assert(w@ =~= old(w)@ + locals_bytes(locals@));
        return;
    }
    let ghost start = w@;
    let mut prev: ValType = locals[0];
    let mut count: usize = 1;
    let mut k: usize = 1;
    proof {
        let s1 = locals@.subrange(0, 1);
        assert(s1.drop_last() =~= Seq::<ValType>::empty());
        assert(local_runs(s1.drop_last()) =~= Seq::<(nat, ValType)>::empty());
        assert(s1.last() == prev);
        assert(local_runs(s1) =~= seq![(1nat, prev)]);
        assert(local_runs(s1).drop_last() =~= Seq::<(nat, ValType)>::empty());
        assert(w@ =~= start + runs_bytes(Seq::<(nat, ValType)>::empty()));
    }
    while k < n
        invariant
            n == locals.len(),
            1 <= count <= k <= n,
            start == old(w)@,
            local_runs(locals@.subrange(0, k as int)).len() > 0,
            local_runs(locals@.subrange(0, k as int)).last() == (count as nat, prev),
            w@ == start + runs_bytes(local_runs(locals@.subrange(0, k as int)).drop_last()),
        decreases n - k,
    {
        let local = locals[k];
        let ghost r = local_runs(locals@.subrange(0, k as int));
        assert(locals@.subrange(0, k + 1).drop_last() =~= locals@.subrange(0, k as int));
        if local == prev {
            count = count + 1;
            assert(local_runs(locals@.subrange(0, k + 1)).drop_last() =~= r.drop_last());
        } else {
            unsigned(w, count as u64);
            write_valtype(w, &prev);
            assert(local_runs(locals@.subrange(0, k + 1)).drop_last() =~= r);
            assert(w@ =~= start + runs_bytes(r));
            prev = local;
            count = 1;
        }
        k = k + 1;
    }
    unsigned(w, count as u64);
    write_valtype(w, &prev);
    assert(locals@.subrange(0, n as int) =~= locals@);
    assert(w@ =~= start + runs_bytes(local_runs(locals@)));
}

/// The entry of a function in the code section, before its size: the locals,
/// then the body expression.
pub open spec fn code_bytes(f: Func) -> Seq<u8> {
    locals_bytes(f.locals@) + f.body.wasm_bytes()
}

/// Whether a function's entry in the code section is encodable.
pub open spec fn code_encodable(f: Func) -> bool {
    f.body.encodable() && code_bytes(f).len() <= u32::MAX
}

/// The entries of the code section, each preceded by its size.
pub open spec fn code_entries(s: Seq<Func>) -> Seq<u8>
    decreases s.len(),
{
    if s.len() == 0 {
        Seq::empty()
    } else {
        code_entries(s.drop_last()) + uleb(code_bytes(s.last()).len()) + code_bytes(s.last())
    }
}

/// The content of the code section: the count of functions, then their entries.
pub open spec fn code_section_bytes(s: Seq<Func>) -> Seq<u8> {
    uleb(s.len()) + code_entries(s)
}

/// Whether the code section is encodable.
pub open spec fn code_section_encodable(s: Seq<Func>) -> bool {
    s.len() <= u32::MAX && forall|k: int| 0 <= k < s.len() ==> #[trigger] code_encodable(s[k])
}

/// Appends the entry of one function to the code section: its size, then its
/// locals and body.
fn write_code(w: &mut Vec<u8>, f: &Func) -> (r: Result<(), EncodeError>)
    ensures
        r is Ok <==> code_encodable(*f),
        r is Ok ==> final(w)@ == old(w)@ + uleb(code_bytes(*f).len()) + code_bytes(*f),
{
    let mut codevec: Vec<u8> = Vec::new();
    write_locals(&mut codevec, &f.locals);
    match f.body.write(&mut codevec) {
        Ok(()) => {},
        Err(e) => {
            return Err(e);
        },
    }
    assert(codevec@ =~= code_bytes(*f));
    let len = codevec.len();
    if len > u32::MAX as usize {
        return Err(EncodeError::LengthOverflow);
    }
    unsigned(w, len as u64);
    w.append(&mut codevec);
    Ok(())
}

/// The content of the code section.
fn code_section(module: &Module) -> (r: Result<Vec<u8>, EncodeError>)
    ensures
        r is Ok <==> code_section_encodable(module.funcs@),
        r matches Ok(b) ==> b@ == code_section_bytes(module.funcs@),
{
    let funcs = &module.funcs;
    let n = funcs.len();
    if n > u32::MAX as usize {
        return Err(EncodeError::LengthOverflow);
    }
    let mut codes: Vec<u8> = Vec::new();
    unsigned(&mut codes, n as u64);
    let ghost start = codes@;
    let mut k: usize = 0;
    while k < n
        invariant
            n == funcs.len(),
            funcs@ == module.funcs@,
            k <= n,
            start == uleb(n as nat),
            codes@ == start + code_entries(funcs@.subrange(0, k as int)),
            forall|j: int| 0 <= j < k ==> #[trigger] code_encodable(funcs@[j]),
        decreases n - k,
    {
        match write_code(&mut codes, &funcs[k]) {
            Ok(()) => {},
            Err(e) => {
                assert(!code_encodable(funcs@[k as int]));
                return Err(e);
            },
        }
        assert(funcs@.subrange(0, k + 1).drop_last() =~= funcs@.subrange(0, k as int));
        k = k + 1;
    }
    assert(funcs@.subrange(0, n as int) =~= funcs@);
    Ok(codes)
}

/// The signature indices of the functions, one per function, in order.
pub open spec fn function_types(s: Seq<Func>) -> Seq<u32> {
    s.map_values(|f: Func| f.typ)
}

/// The content of the function section, before encoding.
fn function_section(module: &Module) -> (r: Vec<u32>)
    ensures
        r@ == function_types(module.funcs@),
{
    let mut funcs: Vec<u32> = Vec::new();
    let mut k: usize = 0;
    while k < module.funcs.len()
        invariant
            k <= module.funcs.len(),
            funcs@ == function_types(module.funcs@.subrange(0, k as int)),
        decreases module.funcs.len() - k,
    {
        funcs.push(module.funcs[k].typ);
        k = k + 1;
        assert(funcs@ =~= function_types(module.funcs@.subrange(0, k as int)));
    }
    assert(module.funcs@.subrange(0, k as int) =~= module.funcs@);
    funcs
}

/// The content of the data-count section: the number of data segments.
fn data_count_section(module: &Module) -> (r: u32)
    requires
        module.datas.len() <= u32::MAX,
    ensures
        r == module.datas.len(),
{
    module.datas.len() as u32
}

/// A section as it stands in a module: its id, the size of its content, then
/// the content; nothing at all when the content is empty.
pub open spec fn section(id: u8, content: Seq<u8>) -> Seq<u8> {
    if content.len() == 0 {
        Seq::empty()
    } else {
        seq![id] + uleb(content.len()) + content
    }
}

/// Appends a section with the given id and content.
fn write_section(w: &mut Vec<u8>, n: u8, content: Vec<u8>)
    ensures
        final(w)@ == old(w)@ + section(n, content@),
{
    let ghost c = content@;
    let size = content.len();
    if size == 0 {
        assert(w@ =~= old(w)@ + section(n, c));
    } else {
        let mut bytes = content;
        w.push(n);
        unsigned(w, size as u64);
        w.append(&mut bytes);
        assert(w@ =~= old(w)@ + section(n, c));
    }
}

/// The magic number and version that open every module.
pub open spec fn module_header() -> Seq<u8> {
    seq![0x00u8, 0x61u8, 0x73u8, 0x6Du8, 0x01u8, 0x00u8, 0x00u8, 0x00u8]
}

/// The content of the data-count section: the number of data segments as an
/// unsigned integer. It is never empty, so the section is always present.
pub open spec fn data_count_bytes(m: Module) -> Seq<u8> {
    uleb(m.datas@.len())
}

/// The encoding of a module: the header, then each section in the fixed
/// order type, import, function, table, memory, global, export, start,
/// element, data count, code, data.
pub open spec fn module_bytes(m: Module) -> Seq<u8> {
    module_header() + section(1, m.types.wasm_bytes()) + section(2, m.imports.wasm_bytes())
        + section(3, vec_bytes(function_types(m.funcs@))) + section(4, m.tables.wasm_bytes())
        + section(5, m.mems.wasm_bytes()) + section(6, m.globals.wasm_bytes()) + section(
        7,
        m.exports.wasm_bytes(),
    ) + section(8, m.start.wasm_bytes()) + section(9, m.elems.wasm_bytes()) + section(
        12,
        data_count_bytes(m),
    ) + section(10, code_section_bytes(m.funcs@)) + section(11, m.datas.wasm_bytes())
}

/// Every unsigned LEB128 encoding takes at least one byte.
pub proof fn lemma_uleb_nonempty(v: nat)
    ensures
        uleb(v).len() >= 1,
{
}

/// The data-count section is never omitted, whatever the module holds: it is
/// its id, the size of its content, then the count of data segments. With no
/// data segments it is exactly the three bytes 0x0C 0x01 0x00.
pub proof fn data_count_section_always_present(m: Module)
    ensures
        section(12, data_count_bytes(m)) == seq![0x0Cu8] + uleb(data_count_bytes(m).len())
            + data_count_bytes(m),
        m.datas.len() == 0 ==> section(12, data_count_bytes(m)) == seq![0x0Cu8, 0x01u8, 0x00u8],
{
    lemma_uleb_nonempty(m.datas@.len());
    if m.datas.len() == 0 {
        assert(data_count_bytes(m) =~= seq![0x00u8]);
        assert(uleb(1) =~= seq![0x01u8]);
        assert(section(12, data_count_bytes(m)) =~= seq![0x0Cu8, 0x01u8, 0x00u8]);
    }
}

/// Whether a module is encodable: every sequence in it, and every function
/// entry of the code section, has a size that fits in 32 bits.
pub open spec fn module_encodable(m: Module) -> bool {
    &&& m.types.encodable()
    &&& m.imports.encodable()
    &&& m.funcs.len() <= u32::MAX
    &&& m.tables.encodable()
    &&& m.mems.encodable()
    &&& m.globals.encodable()
    &&& m.exports.encodable()
    &&& m.elems.encodable()
    &&& m.datas.encodable()
    &&& code_section_encodable(m.funcs@)
}

/// What a failed module encoding leaves behind: the header and every section
/// before the first one that cannot be encoded, each complete. The data
/// count section is left out too when there are too many data segments.
pub open spec fn module_written_on_error(m: Module) -> Seq<u8> {
    let p0 = module_header();
    let p1 = p0 + section(1, m.types.wasm_bytes());
    let p2 = p1 + section(2, m.imports.wasm_bytes());
    let p3 = p2 + section(3, vec_bytes(function_types(m.funcs@)));
    let p4 = p3 + section(4, m.tables.wasm_bytes());
    let p5 = p4 + section(5, m.mems.wasm_bytes());
    let p6 = p5 + section(6, m.globals.wasm_bytes());
    let p7 = p6 + section(7, m.exports.wasm_bytes());
    let p8 = p7 + section(8, m.start.wasm_bytes());
    let p9 = p8 + section(9, m.elems.wasm_bytes());
    let p12 = p9 + section(12, data_count_bytes(m));
    let p10 = p12 + section(10, code_section_bytes(m.funcs@));
    if !m.types.encodable() {
        p0
    } else if !m.imports.encodable() {
        p1
    } else if m.funcs.len() > u32::MAX {
        p2
    } else if !m.tables.encodable() {
        p3
    } else if !m.mems.encodable() {
        p4
    } else if !m.globals.encodable() {
        p5
    } else if !m.exports.encodable() {
        p6
    } else if !m.elems.encodable() {
        p8
    } else if m.datas.len() > u32::MAX {
        p9
    } else if !code_section_encodable(m.funcs@) {
        p12
    } else {
        p10
    }
}

/// Encodes `input` in a scratch buffer, then appends it as the section `id`,
/// or appends nothing when the buffer stays empty.
fn emit_section<T: WriteContext>(w: &mut Vec<u8>, id: u8, input: &T) -> (r: Result<(), EncodeError>)
    ensures
        r is Ok <==> input.encodable(),
        r is Ok ==> final(w)@ == old(w)@ + section(id, input.wasm_bytes()),
        r is Err ==> final(w)@ == old(w)@,
{
    let mut content: Vec<u8> = Vec::new();
    match input.write(&mut content) {
        Ok(()) => {},
        Err(e) => {
            return Err(e);
        },
    }
    assert(content@ =~= input.wasm_bytes());
    write_section(w, id, content);
    Ok(())
}

proof fn lemma_add_assoc(a: Seq<u8>, b: Seq<u8>, c: Seq<u8>)
    ensures
        a + b + c == a + (b + c),
{
    assert(a + b + c =~= a + (b + c));
}

impl WriteContext for Module {
    open spec fn written_on_error(&self) -> Option<Seq<u8>> {
        Some(module_written_on_error(*self))
    }

    open spec fn encodable(&self) -> bool {
        module_encodable(*self)
    }

    open spec fn wasm_bytes(&self) -> Seq<u8> {
        module_bytes(*self)
    }

    #[verifier::rlimit(40)]
    fn write(&self, w: &mut Vec<u8>) -> (r: Result<(), EncodeError>) {
        w.push(0x00);
        w.push(0x61);
        w.push(0x73);
        w.push(0x6D);
        w.push(0x01);
        w.push(0x00);
        w.push(0x00);
        w.push(0x00);
        let ghost mut p = module_header();
        assert(w@ =~= old(w)@ + p);
        match emit_section(w, 1, &self.types) {
            Ok(()) => {},
            Err(e) => {
                assert(p == module_written_on_error(*self));
                return Err(e);
            },
        }
        proof {
            lemma_add_assoc(old(w)@, p, section(1, self.types.wasm_bytes()));
            p = p + section(1, self.types.wasm_bytes());
        }
        match emit_section(w, 2, &self.imports) {
            Ok(()) => {},
            Err(e) => {
                assert(p == module_written_on_error(*self));
                return Err(e);
            },
        }
        proof {
            lemma_add_assoc(old(w)@, p, section(2, self.imports.wasm_bytes()));
            p = p + section(2, self.imports.wasm_bytes());
        }
        let funcs = function_section(self);
        match emit_section(w, 3, &funcs) {
            Ok(()) => {},
            Err(e) => {
                assert(p == module_written_on_error(*self));
                return Err(e);
            },
        }
        proof {
            lemma_add_assoc(old(w)@, p, section(3, funcs.wasm_bytes()));
            p = p + section(3, funcs.wasm_bytes());
        }
        match emit_section(w, 4, &self.tables) {
            Ok(()) => {},
            Err(e) => {
                assert(p == module_written_on_error(*self));
                return Err(e);
            },
        }
        proof {
            lemma_add_assoc(old(w)@, p, section(4, self.tables.wasm_bytes()));
            p = p + section(4, self.tables.wasm_bytes());
        }
        match emit_section(w, 5, &self.mems) {
            Ok(()) => {},
            Err(e) => {
                assert(p == module_written_on_error(*self));
                return Err(e);
            },
        }
        proof {
            lemma_add_assoc(old(w)@, p, section(5, self.mems.wasm_bytes()));
            p = p + section(5, self.mems.wasm_bytes());
        }
        match emit_section(w, 6, &self.globals) {
            Ok(()) => {},
            Err(e) => {
                assert(p == module_written_on_error(*self));
                return Err(e);
            },
        }
        proof {
            lemma_add_assoc(old(w)@, p, section(6, self.globals.wasm_bytes()));
            p = p + section(6, self.globals.wasm_bytes());
        }
        match emit_section(w, 7, &self.exports) {
            Ok(()) => {},
            Err(e) => {
                assert(p == module_written_on_error(*self));
                return Err(e);
            },
        }
        proof {
            lemma_add_assoc(old(w)@, p, section(7, self.exports.wasm_bytes()));
            p = p + section(7, self.exports.wasm_bytes());
        }
        match emit_section(w, 8, &self.start) {
            Ok(()) => {},
            Err(e) => {
                assert(p == module_written_on_error(*self));
                return Err(e);
            },
        }
        proof {
            lemma_add_assoc(old(w)@, p, section(8, self.start.wasm_bytes()));
            p = p + section(8, self.start.wasm_bytes());
        }
        match emit_section(w, 9, &self.elems) {
            Ok(()) => {},
            Err(e) => {
                assert(p == module_written_on_error(*self));
                return Err(e);
            },
        }
        proof {
            lemma_add_assoc(old(w)@, p, section(9, self.elems.wasm_bytes()));
            p = p + section(9, self.elems.wasm_bytes());
        }
        if self.datas.len() > u32::MAX as usize {
            assert(p == module_written_on_error(*self));
            return Err(EncodeError::LengthOverflow);
        }
        let count = data_count_section(self);
        match emit_section(w, 12, &count) {
            Ok(()) => {},
            Err(e) => {
                assert(p == module_written_on_error(*self));
                return Err(e);
            },
        }
        proof {
            lemma_add_assoc(old(w)@, p, section(12, data_count_bytes(*self)));
            p = p + section(12, data_count_bytes(*self));
        }
        let code = match code_section(self) {
            Ok(b) => b,
            Err(e) => {
                assert(p == module_written_on_error(*self));
                return Err(e);
            },
        };
        write_section(w, 10, code);
        proof {
            lemma_add_assoc(old(w)@, p, section(10, code_section_bytes(self.funcs@)));
            p = p + section(10, code_section_bytes(self.funcs@));
        }
        match emit_section(w, 11, &self.datas) {
            Ok(()) => {},
            Err(e) => {
                assert(p == module_written_on_error(*self));
                return Err(e);
            },
        }
        proof {
            lemma_add_assoc(old(w)@, p, section(11, self.datas.wasm_bytes()));
            p = p + section(11, self.datas.wasm_bytes());
        }
        assert(p == module_bytes(*self));
        Ok(())
    }
}

} // verus!
