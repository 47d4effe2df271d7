use vstd::prelude::*;

use std::rc::Rc;

use crate::address::{DataAddr, ElemAddr, FuncAddr, GlobalAddr, MemAddr, TableAddr};
use crate::entities::module::{
    data_init, func_of_module, segment_ref_type, DataType, ElementSegmentType, ExportDescription,
    ExportType, Global, Module,
};
use crate::entities::types::{Byte, Func, FuncType, GlobalType, MemType, NameType, RefType, TableType};
use crate::instances::data::DataInst;
use crate::instances::elem::ElemInst;
use crate::instances::export::{ExportInst, ExternVal};
use crate::instances::func::{FuncInst, FuncInstLocal, HostCode, HostFunc};
use crate::instances::global::GlobalInst;
use crate::instances::memory::MemInst;
use crate::instances::module::{
    export_value, ext_addrs, extern_addrs, new_addrs, ExternKind, ExternalDependency, ModuleInst,
};
use crate::instances::ref_inst::RefInst;
use crate::instances::table::TableInst;
use crate::instances::value::Val;
use crate::result::{RResult, Trap};
use crate::validation::types_validation::{is_memory_type_valid, is_table_type_valid, limits_valid, max_pages};

verus! {

/// All the instances that modules create: functions, tables, memories, globals,
/// element segments and data segments, each found by its address (its index).
pub struct Store {
    pub funcs: Vec<FuncInst>,
    pub tables: Vec<TableInst>,
    pub mems: Vec<MemInst>,
    pub globals: Vec<GlobalInst>,
    pub elems: Vec<Option<ElemInst>>,
    pub datas: Vec<Option<DataInst>>,
}

/// `t` is a copy of the function type `f`.
pub open spec fn same_func_type(t: FuncType, f: FuncType) -> bool {
    t.parameters@ == f.parameters@ && t.results@ == f.results@
}

impl Store {
    /// An empty store.
    pub fn new() -> (r: Store)
        ensures
            r.funcs@.len() == 0,
            r.tables@.len() == 0,
            r.mems@.len() == 0,
            r.globals@.len() == 0,
            r.elems@.len() == 0,
            r.datas@.len() == 0,
    {
        Store {
            funcs: Vec::new(),
            tables: Vec::new(),
            mems: Vec::new(),
            globals: Vec::new(),
            elems: Vec::new(),
            datas: Vec::new(),
        }
    }

    /// Drops the element segment at `e`; a missing or dropped segment traps.
    pub fn drop_elem(&mut self, e: ElemAddr) -> (r: RResult<()>)
        ensures
            e < old(self).elems@.len() && old(self).elems@[e as int] is Some ==> r is Ok
                && final(self).elems@ == old(self).elems@.update(e as int, None),
            !(e < old(self).elems@.len() && old(self).elems@[e as int] is Some) ==> r is Err
                && *final(self) == *old(self),
            final(self).funcs == old(self).funcs,
            final(self).tables == old(self).tables,
            final(self).mems == old(self).mems,
            final(self).globals == old(self).globals,
            final(self).datas == old(self).datas,
    {
        if e >= self.elems.len() || self.elems[e].is_none() {
            return Err(Trap);
        }
        self.elems.set(e, None);
        Ok(())
    }

    /// Drops the data segment at `e`; a missing or dropped segment traps.
    pub fn drop_data(&mut self, e: DataAddr) -> (r: RResult<()>)
        ensures
            e < old(self).datas@.len() && old(self).datas@[e as int] is Some ==> r is Ok
                && final(self).datas@ == old(self).datas@.update(e as int, None),
            !(e < old(self).datas@.len() && old(self).datas@[e as int] is Some) ==> r is Err
                && *final(self) == *old(self),
            final(self).funcs == old(self).funcs,
            final(self).tables == old(self).tables,
            final(self).mems == old(self).mems,
            final(self).globals == old(self).globals,
            final(self).elems == old(self).elems,
    {
        if e >= self.datas.len() || self.datas[e].is_none() {
            return Err(Trap);
        }
        self.datas.set(e, None);
        Ok(())
    }

    /// Allocates a function of `module_inst`; its type is the module's type that
    /// the function names.
    pub fn allocate_local_func(&mut self, func: Func, module_inst: Rc<ModuleInst>) -> (r: FuncAddr)
        requires
            (func.func_type.0.0 as int) < module_inst.types@.len(),
        ensures
            r == old(self).funcs@.len(),
            final(self).funcs@.len() == old(self).funcs@.len() + 1,
            final(self).funcs@.drop_last() == old(self).funcs@,
            match final(self).funcs@.last() {
                FuncInst::FuncInst(l) => l.module == module_inst && l.code == func && same_func_type(
                    l.func_type,
                    module_inst.types@[func.func_type.0.0 as int],
                ),
                _ => false,
            },
            final(self).tables == old(self).tables,
            final(self).mems == old(self).mems,
            final(self).globals == old(self).globals,
            final(self).elems == old(self).elems,
            final(self).datas == old(self).datas,
    {
        let func_type = module_inst.types[func.func_type.0.0 as usize].copy_type();
        let func_inst = FuncInst::FuncInst(FuncInstLocal { func_type, module: module_inst, code: func });
        self.funcs.push(func_inst);
        proof {
            assert(self.funcs@.drop_last() =~= old(self).funcs@);
        }
        self.funcs.len() - 1
    }

    pub fn allocate_host_func(&mut self, func_type: FuncType, host_code: HostCode) -> (r: FuncAddr)
        ensures
            r == old(self).funcs@.len(),
            final(self).funcs@ == old(self).funcs@.push(FuncInst::HostFunc(HostFunc { func_type, host_code })),
            final(self).tables == old(self).tables,
            final(self).mems == old(self).mems,
            final(self).globals == old(self).globals,
            final(self).elems == old(self).elems,
            final(self).datas == old(self).datas,
    {
        let func_inst = FuncInst::HostFunc(HostFunc { func_type, host_code });
        self.funcs.push(func_inst);
        self.funcs.len() - 1
    }

    /// Allocates a table of `min` copies of `elem`.
    pub fn allocate_table(&mut self, table_type: TableType, elem: RefInst) -> (r: TableAddr)
        ensures
            r == old(self).tables@.len(),
            final(self).tables@.len() == old(self).tables@.len() + 1,
            final(self).tables@.drop_last() == old(self).tables@,
            final(self).tables@.last().table_type == table_type,
            final(self).tables@.last().elem@ == Seq::new(table_type.limits.min.0 as nat, |i: int| elem),
            final(self).funcs == old(self).funcs,
            final(self).mems == old(self).mems,
            final(self).globals == old(self).globals,
            final(self).elems == old(self).elems,
            final(self).datas == old(self).datas,
    {
        let len = table_type.limits.min.0;
        let mut elems: Vec<RefInst> = Vec::new();
        let mut i: u32 = 0;
        while i < len
            invariant
                i <= len,
                elems@ == Seq::new(i as nat, |k: int| elem),
            decreases len - i,
        {
            elems.push(elem);
            i = i + 1;
            proof {
                assert(elems@ =~= Seq::new(i as nat, |k: int| elem));
            }
        }
        self.tables.push(TableInst { table_type, elem: elems });
        proof {
            assert(self.tables@.drop_last() =~= old(self).tables@);
        }
        self.tables.len() - 1
    }

    /// Allocates a memory of `min` zeroed pages.
    pub fn allocate_mem(&mut self, mem_type: MemType) -> (r: MemAddr)
        requires
            mem_type.limits.min.0 <= max_pages(),
        ensures
            r == old(self).mems@.len(),
            final(self).mems@.len() == old(self).mems@.len() + 1,
            final(self).mems@.drop_last() == old(self).mems@,
            final(self).mems@.last().mem_type == mem_type,
            final(self).mems@.last().data@ == Seq::new((mem_type.limits.min.0 * 0x1_0000) as nat, |i: int| 0u8),
            final(self).funcs == old(self).funcs,
            final(self).tables == old(self).tables,
            final(self).globals == old(self).globals,
            final(self).elems == old(self).elems,
            final(self).datas == old(self).datas,
    {
        let size: u64 = mem_type.limits.min.0 as u64 * 0x1_0000;
        let mut data: Vec<Byte> = Vec::new();
        let mut i: u64 = 0;
        while i < size
            invariant
                i <= size,
                size == mem_type.limits.min.0 * 0x1_0000,
                data@ == Seq::new(i as nat, |k: int| 0u8),
            decreases size - i,
        {
            data.push(0);
            i = i + 1;
            proof {
                assert(data@ =~= Seq::new(i as nat, |k: int| 0u8));
            }
        }
        self.mems.push(MemInst { mem_type, data });
        proof {
            assert(self.mems@.drop_last() =~= old(self).mems@);
        }
        self.mems.len() - 1
    }

    pub fn allocate_global(&mut self, global_type: GlobalType, value: Val) -> (r: GlobalAddr)
        ensures
            r == old(self).globals@.len(),
            final(self).globals@ == old(self).globals@.push(GlobalInst { global_type, value }),
            final(self).funcs == old(self).funcs,
            final(self).tables == old(self).tables,
            final(self).mems == old(self).mems,
            final(self).elems == old(self).elems,
            final(self).datas == old(self).datas,
    {
        self.globals.push(GlobalInst { global_type, value });
        self.globals.len() - 1
    }

    pub fn allocate_elem(&mut self, elem_type: RefType, elem: Vec<RefInst>) -> (r: ElemAddr)
        ensures
            r == old(self).elems@.len(),
            final(self).elems@ == old(self).elems@.push(Some(ElemInst { elem_type, elem })),
            final(self).funcs == old(self).funcs,
            final(self).tables == old(self).tables,
            final(self).mems == old(self).mems,
            final(self).globals == old(self).globals,
            final(self).datas == old(self).datas,
    {
        self.elems.push(Some(ElemInst { elem, elem_type }));
        self.elems.len() - 1
    }

    pub fn allocate_data(&mut self, data: Vec<Byte>) -> (r: DataAddr)
        ensures
            r == old(self).datas@.len(),
            final(self).datas@ == old(self).datas@.push(Some(DataInst { data })),
            final(self).funcs == old(self).funcs,
            final(self).tables == old(self).tables,
            final(self).mems == old(self).mems,
            final(self).globals == old(self).globals,
            final(self).elems == old(self).elems,
    {
        self.datas.push(Some(DataInst { data }));
        self.datas.len() - 1
    }

    /// Allocates a table for each table type, each filled with null references.
    fn allocate_tables(&mut self, tables: &Vec<TableType>) -> (r: Vec<TableAddr>)
        ensures
            r@ == Seq::new(tables@.len(), |i: int| (old(self).tables@.len() + i) as usize),
            final(self).tables@.len() == old(self).tables@.len() + tables@.len(),
            final(self).tables@.take(old(self).tables@.len() as int) == old(self).tables@,
            forall|i: int|
                0 <= i < tables@.len() ==> (#[trigger] final(self).tables@[old(self).tables@.len() + i]).table_type
                    == tables@[i] && final(self).tables@[old(self).tables@.len() + i].elem@ == Seq::new(
                    tables@[i].limits.min.0 as nat,
                    |k: int| RefInst::Null(tables@[i].element_ref_type),
                ),
            final(self).funcs == old(self).funcs,
            final(self).mems == old(self).mems,
            final(self).globals == old(self).globals,
            final(self).elems == old(self).elems,
            final(self).datas == old(self).datas,
    {
        let ghost base = old(self).tables@.len();
        let mut addrs: Vec<TableAddr> = Vec::new();
        let mut i: usize = 0;
        while i < tables.len()
            invariant
                i <= tables@.len(),
                base == old(self).tables@.len(),
                addrs@ == Seq::new(i as nat, |j: int| (base + j) as usize),
                self.tables@.len() == base + i,
                self.tables@.take(base as int) == old(self).tables@,
                forall|j: int|
                    0 <= j < i ==> (#[trigger] self.tables@[base + j]).table_type == tables@[j]
                        && self.tables@[base + j].elem@ == Seq::new(
                        tables@[j].limits.min.0 as nat,
                        |k: int| RefInst::Null(tables@[j].element_ref_type),
                    ),
                self.funcs == old(self).funcs,
                self.mems == old(self).mems,
                self.globals == old(self).globals,
                self.elems == old(self).elems,
                self.datas == old(self).datas,
            decreases tables@.len() - i,
        {
            let t = tables[i];
            let ghost before = self.tables@;
            let a = self.allocate_table(t, RefInst::Null(t.element_ref_type));
            addrs.push(a);
            proof {
                assert(self.tables@.take(base as int) =~= before.take(base as int));
                assert forall|j: int| 0 <= j < i implies (#[trigger] self.tables@[base + j]) == before[base + j] by {
                    assert(self.tables@.drop_last()[base + j] == before[base + j]);
                }
                assert(addrs@ =~= Seq::new((i + 1) as nat, |j: int| (base + j) as usize));
            }
            i = i + 1;
        }
        addrs
    }

    /// Allocates a zeroed memory for each memory type.
    fn allocate_mems(&mut self, mems: &Vec<MemType>) -> (r: Vec<MemAddr>)
        requires
            forall|i: int| 0 <= i < mems@.len() ==> limits_valid(#[trigger] mems@[i].limits, max_pages()),
        ensures
            r@ == Seq::new(mems@.len(), |i: int| (old(self).mems@.len() + i) as usize),
            final(self).mems@.len() == old(self).mems@.len() + mems@.len(),
            final(self).mems@.take(old(self).mems@.len() as int) == old(self).mems@,
            forall|i: int|
                0 <= i < mems@.len() ==> (#[trigger] final(self).mems@[old(self).mems@.len() + i]).mem_type
                    == mems@[i] && final(self).mems@[old(self).mems@.len() + i].data@ == Seq::new(
                    (mems@[i].limits.min.0 * 0x1_0000) as nat,
                    |k: int| 0u8,
                ),
            final(self).funcs == old(self).funcs,
            final(self).tables == old(self).tables,
            final(self).globals == old(self).globals,
            final(self).elems == old(self).elems,
            final(self).datas == old(self).datas,
    {
        let ghost base = old(self).mems@.len();
        let mut addrs: Vec<MemAddr> = Vec::new();
        let mut i: usize = 0;
        while i < mems.len()
            invariant
                i <= mems@.len(),
                forall|j: int| 0 <= j < mems@.len() ==> limits_valid(#[trigger] mems@[j].limits, max_pages()),
                base == old(self).mems@.len(),
                addrs@ == Seq::new(i as nat, |j: int| (base + j) as usize),
                self.mems@.len() == base + i,
                self.mems@.take(base as int) == old(self).mems@,
                forall|j: int|
                    0 <= j < i ==> (#[trigger] self.mems@[base + j]).mem_type == mems@[j]
                        && self.mems@[base + j].data@ == Seq::new(
                        (mems@[j].limits.min.0 * 0x1_0000) as nat,
                        |k: int| 0u8,
                    ),
                self.funcs == old(self).funcs,
                self.tables == old(self).tables,
                self.globals == old(self).globals,
                self.elems == old(self).elems,
                self.datas == old(self).datas,
            decreases mems@.len() - i,
        {
            let m = mems[i];
            let ghost before = self.mems@;
            proof {
                assert(limits_valid(mems@[i as int].limits, max_pages()));
            }
            let a = self.allocate_mem(m);
            addrs.push(a);
            proof {
                assert(self.mems@.take(base as int) =~= before.take(base as int));
                assert forall|j: int| 0 <= j < i implies (#[trigger] self.mems@[base + j]) == before[base + j] by {
                    assert(self.mems@.drop_last()[base + j] == before[base + j]);
                }
                assert(addrs@ =~= Seq::new((i + 1) as nat, |j: int| (base + j) as usize));
            }
            i = i + 1;
        }
        addrs
    }

    /// Allocates each global with the value at the same position of `values`.
    fn allocate_globals(&mut self, globals: &Vec<Global>, values: &Vec<Val>) -> (r: Vec<GlobalAddr>)
        requires
            values@.len() >= globals@.len(),
        ensures
            r@ == Seq::new(globals@.len(), |i: int| (old(self).globals@.len() + i) as usize),
            final(self).globals@ == old(self).globals@ + Seq::new(
                globals@.len(),
                |i: int| GlobalInst { global_type: globals@[i].global_type, value: values@[i] },
            ),
            final(self).funcs == old(self).funcs,
            final(self).tables == old(self).tables,
            final(self).mems == old(self).mems,
            final(self).elems == old(self).elems,
            final(self).datas == old(self).datas,
    {
        let ghost base = old(self).globals@.len();
        let mut addrs: Vec<GlobalAddr> = Vec::new();
        let mut i: usize = 0;
        while i < globals.len()
            invariant
                i <= globals@.len(),
                values@.len() >= globals@.len(),
                base == old(self).globals@.len(),
                addrs@ == Seq::new(i as nat, |j: int| (base + j) as usize),
                self.globals@ == old(self).globals@ + Seq::new(
                    i as nat,
                    |j: int| GlobalInst { global_type: globals@[j].global_type, value: values@[j] },
                ),
                self.funcs == old(self).funcs,
                self.tables == old(self).tables,
                self.mems == old(self).mems,
                self.elems == old(self).elems,
                self.datas == old(self).datas,
            decreases globals@.len() - i,
        {
            let a = self.allocate_global(globals[i].global_type, values[i]);
            addrs.push(a);
            proof {
                assert(self.globals@ =~= old(self).globals@ + Seq::new(
                    (i + 1) as nat,
                    |j: int| GlobalInst { global_type: globals@[j].global_type, value: values@[j] },
                ));
                assert(addrs@ =~= Seq::new((i + 1) as nat, |j: int| (base + j) as usize));
            }
            i = i + 1;
        }
        addrs
    }

    /// Allocates each element segment with the references at the same position of
    /// `refs`.
    fn allocate_elems(&mut self, elems: &Vec<ElementSegmentType>, refs: Vec<Vec<RefInst>>)
        requires
            refs@.len() >= elems@.len(),
        ensures
            final(self).elems@.len() == old(self).elems@.len() + elems@.len(),
            final(self).elems@.take(old(self).elems@.len() as int) == old(self).elems@,
            forall|i: int|
                0 <= i < elems@.len() ==> elem_inst_is(#[trigger] final(self).elems@[old(self).elems@.len() + i], segment_ref_type(elems@[i]), refs@[i]@),
            final(self).funcs == old(self).funcs,
            final(self).tables == old(self).tables,
            final(self).mems == old(self).mems,
            final(self).globals == old(self).globals,
            final(self).datas == old(self).datas,
    {
        let ghost base = old(self).elems@.len();
        let ghost all = refs@;
        let mut rest = refs;
        let mut i: usize = 0;
        while i < elems.len()
            invariant
                i <= elems@.len(),
                all.len() >= elems@.len(),
                rest@ == all.subrange(i as int, all.len() as int),
                base == old(self).elems@.len(),
                self.elems@.len() == base + i,
                self.elems@.take(base as int) == old(self).elems@,
                forall|j: int|
                    0 <= j < i ==> elem_inst_is(#[trigger] self.elems@[base + j], segment_ref_type(elems@[j]), all[j]@),
                self.funcs == old(self).funcs,
                self.tables == old(self).tables,
                self.mems == old(self).mems,
                self.globals == old(self).globals,
                self.datas == old(self).datas,
            decreases elems@.len() - i,
        {
            let elem_type = elems[i].get_type();
            let elem = rest.remove(0);
            let ghost before = self.elems@;
            self.allocate_elem(elem_type, elem);
            proof {
                assert(rest@ =~= all.subrange(i + 1, all.len() as int));
                assert(self.elems@.take(base as int) =~= before.take(base as int));
                assert forall|j: int| 0 <= j < i implies (#[trigger] self.elems@[base + j]) == before[base + j] by {
                    assert(self.elems@.drop_last()[base + j] == before[base + j]);
                }
            }
            i = i + 1;
        }
    }

    /// Allocates each data segment with its bytes.
    fn allocate_datas(&mut self, datas: &Vec<DataType>)
        ensures
            final(self).datas@.len() == old(self).datas@.len() + datas@.len(),
            final(self).datas@.take(old(self).datas@.len() as int) == old(self).datas@,
            forall|i: int|
                0 <= i < datas@.len() ==> data_inst_is(#[trigger] final(self).datas@[old(self).datas@.len() + i], data_init(datas@[i])),
            final(self).funcs == old(self).funcs,
            final(self).tables == old(self).tables,
            final(self).mems == old(self).mems,
            final(self).globals == old(self).globals,
            final(self).elems == old(self).elems,
    {
        let ghost base = old(self).datas@.len();
        let mut i: usize = 0;
        while i < datas.len()
            invariant
                i <= datas@.len(),
                base == old(self).datas@.len(),
                self.datas@.len() == base + i,
                self.datas@.take(base as int) == old(self).datas@,
                forall|j: int|
                    0 <= j < i ==> data_inst_is(#[trigger] self.datas@[base + j], data_init(datas@[j])),
                self.funcs == old(self).funcs,
                self.tables == old(self).tables,
                self.mems == old(self).mems,
                self.globals == old(self).globals,
                self.elems == old(self).elems,
            decreases datas@.len() - i,
        {
            let bytes = datas[i].clone_data();
            let ghost before = self.datas@;
            self.allocate_data(bytes);
            proof {
                assert(self.datas@.take(base as int) =~= before.take(base as int));
                assert forall|j: int| 0 <= j < i implies (#[trigger] self.datas@[base + j]) == before[base + j] by {
                    assert(self.datas@.drop_last()[base + j] == before[base + j]);
                }
            }
            i = i + 1;
        }
    }

    /// Allocates the functions of a module instance, in order.
    pub(crate) fn allocate_module_funcs(&mut self, funcs: Vec<Func>, module_inst: Rc<ModuleInst>)
        requires
            forall|i: int| 0 <= i < funcs@.len() ==> ((#[trigger] funcs@[i]).func_type.0.0 as int) < module_inst.types@.len(),
        ensures
            final(self).funcs@.len() == old(self).funcs@.len() + funcs@.len(),
            final(self).funcs@.take(old(self).funcs@.len() as int) == old(self).funcs@,
            forall|i: int|
                0 <= i < funcs@.len() ==> match #[trigger] final(self).funcs@[old(self).funcs@.len() + i] {
                    FuncInst::FuncInst(l) => l.module == module_inst && l.code == funcs@[i] && same_func_type(
                        l.func_type,
                        module_inst.types@[funcs@[i].func_type.0.0 as int],
                    ),
                    _ => false,
                },
            final(self).tables == old(self).tables,
            final(self).mems == old(self).mems,
            final(self).globals == old(self).globals,
            final(self).elems == old(self).elems,
            final(self).datas == old(self).datas,
    {
        let ghost base = old(self).funcs@.len();
        let ghost all = funcs@;
        let mut rest = funcs;
        let mut i: usize = 0;
        let n = rest.len();
        while i < n
            invariant
                n == all.len(),
                i <= n,
                forall|j: int| 0 <= j < all.len() ==> ((#[trigger] all[j]).func_type.0.0 as int) < module_inst.types@.len(),
                rest@ == all.subrange(i as int, all.len() as int),
                base == old(self).funcs@.len(),
                self.funcs@.len() == base + i,
                self.funcs@.take(base as int) == old(self).funcs@,
                forall|j: int|
                    0 <= j < i ==> match #[trigger] self.funcs@[base + j] {
                        FuncInst::FuncInst(l) => l.module == module_inst && l.code == all[j] && same_func_type(
                            l.func_type,
                            module_inst.types@[all[j].func_type.0.0 as int],
                        ),
                        _ => false,
                    },
                self.tables == old(self).tables,
                self.mems == old(self).mems,
                self.globals == old(self).globals,
                self.elems == old(self).elems,
                self.datas == old(self).datas,
            decreases n - i,
        {
            let f = rest.remove(0);
            proof {
                assert(f == all[i as int]);
            }
            let ghost before = self.funcs@;
            self.allocate_local_func(f, module_inst.clone());
            proof {
                assert(rest@ =~= all.subrange(i + 1, all.len() as int));
                assert(self.funcs@.take(base as int) =~= before.take(base as int));
                assert forall|j: int| 0 <= j < i implies (#[trigger] self.funcs@[base + j]) == before[base + j] by {
                    assert(self.funcs@.drop_last()[base + j] == before[base + j]);
                }
            }
            i = i + 1;
        }
    }
}

/// `e` is an element segment instance of type `t` holding `refs`.
pub open spec fn elem_inst_is(e: Option<ElemInst>, t: RefType, refs: Seq<RefInst>) -> bool {
    match e {
        Some(x) => x.elem_type == t && x.elem@ == refs,
        None => false,
    }
}

/// `d` is a data segment instance holding `bytes`.
pub open spec fn data_inst_is(d: Option<DataInst>, bytes: Seq<Byte>) -> bool {
    match d {
        Some(x) => x.data@ == bytes,
        None => false,
    }
}

/// The module's table and memory types are valid, its code section covers its
/// function section, and each export names an instance that the module has.
pub open spec fn module_allocatable(module: Module, ext: Seq<ExternalDependency>) -> bool {
    &&& forall|i: int| 0 <= i < module.tables@.len() ==> limits_valid(#[trigger] module.tables@[i].limits, 0xFFFF_FFFF)
    &&& forall|i: int| 0 <= i < module.mems@.len() ==> limits_valid(#[trigger] module.mems@[i].limits, max_pages())
    &&& module.funcs@.len() <= module.code@.len()
    &&& forall|i: int| 0 <= i < module.exports@.len() ==> export_in_range(#[trigger] module.exports@[i].desc, module, ext)
}

/// The index of an export lies within the module's own and imported instances.
pub open spec fn export_in_range(desc: ExportDescription, module: Module, ext: Seq<ExternalDependency>) -> bool {
    match desc {
        ExportDescription::Func(x) => x.0.0 < module.funcs@.len() + ext_addrs(ext, ExternKind::Func).len(),
        ExportDescription::Table(x) => x.0.0 < module.tables@.len() + ext_addrs(ext, ExternKind::Table).len(),
        ExportDescription::Mem(x) => x.0.0 < module.mems@.len() + ext_addrs(ext, ExternKind::Mem).len(),
        ExportDescription::Global(x) => x.0.0 < module.globals@.len() + ext_addrs(ext, ExternKind::Global).len(),
    }
}

/// Copies of function types.
pub(crate) fn copy_module_types(types: &Vec<FuncType>) -> (r: Vec<FuncType>)
    ensures
        r@.len() == types@.len(),
        forall|i: int| 0 <= i < types@.len() ==> same_func_type(#[trigger] r@[i], types@[i]),
{
    let mut r: Vec<FuncType> = Vec::new();
    let mut i: usize = 0;
    while i < types.len()
        invariant
            i <= types@.len(),
            r@.len() == i,
            forall|j: int| 0 <= j < i ==> same_func_type(#[trigger] r@[j], types@[j]),
        decreases types@.len() - i,
    {
        r.push(types[i].copy_type());
        i = i + 1;
    }
    r
}

/// The export instances of a module, given its instance's addresses.
fn make_exports(
    exports: &Vec<ExportType>,
    funcaddrs: &Vec<FuncAddr>,
    tableaddrs: &Vec<TableAddr>,
    memaddrs: &Vec<MemAddr>,
    globaladdrs: &Vec<GlobalAddr>,
) -> (r: RResult<Vec<ExportInst>>)
    ensures
        match r {
            Ok(v) => v@.len() == exports@.len() && forall|i: int|
                0 <= i < exports@.len() ==> (#[trigger] v@[i]).name.0@ == exports@[i].name.0@
                    && Some(v@[i].value) == export_value(
                    exports@[i].desc,
                    funcaddrs@,
                    tableaddrs@,
                    memaddrs@,
                    globaladdrs@,
                ),
            Err(_) => exists|i: int|
                0 <= i < exports@.len() && export_value(
                    #[trigger] exports@[i].desc,
                    funcaddrs@,
                    tableaddrs@,
                    memaddrs@,
                    globaladdrs@,
                ) is None,
        },
{
    let mut r: Vec<ExportInst> = Vec::new();
    let mut i: usize = 0;
    while i < exports.len()
        invariant
            i <= exports@.len(),
            r@.len() == i,
            forall|j: int|
                0 <= j < i ==> (#[trigger] r@[j]).name.0@ == exports@[j].name.0@ && Some(r@[j].value)
                    == export_value(
                    exports@[j].desc,
                    funcaddrs@,
                    tableaddrs@,
                    memaddrs@,
                    globaladdrs@,
                ),
        decreases exports@.len() - i,
    {
        let value = match exports[i].desc {
            ExportDescription::Func(x) => {
                if (x.0.0 as usize) < funcaddrs.len() {
                    ExternVal::Func(funcaddrs[x.0.0 as usize])
                } else {
                    return Err(Trap);
                }
            },
            ExportDescription::Table(x) => {
                if (x.0.0 as usize) < tableaddrs.len() {
                    ExternVal::Table(tableaddrs[x.0.0 as usize])
                } else {
                    return Err(Trap);
                }
            },
            ExportDescription::Mem(x) => {
                if (x.0.0 as usize) < memaddrs.len() {
                    ExternVal::Mem(memaddrs[x.0.0 as usize])
                } else {
                    return Err(Trap);
                }
            },
            ExportDescription::Global(x) => {
                if (x.0.0 as usize) < globaladdrs.len() {
                    ExternVal::Global(globaladdrs[x.0.0 as usize])
                } else {
                    return Err(Trap);
                }
            },
        };
        let name = NameType(exports[i].name.0.clone());
        r.push(ExportInst { name, value });
        i = i + 1;
    }
    Ok(r)
}

/// `inst` and the store `st2` are what allocating the instances of `module` in the
/// store `st` gives, with the imports `ext`, the global values `globals` and the
/// element references `refs`: the new instances follow the old ones, and the
/// instance's addresses are those of its own instances followed by those of its
/// imports.
pub open spec fn allocated(
    module: Module,
    ext: Seq<ExternalDependency>,
    globals: Seq<Val>,
    refs: Seq<Vec<RefInst>>,
    st: Store,
    st2: Store,
    inst: Rc<ModuleInst>,
) -> bool {
    &&& inst.types@.len() == module.types@.len()
    &&& forall|i: int| 0 <= i < module.types@.len() ==> same_func_type(#[trigger] inst.types@[i], module.types@[i])
    &&& inst.funcaddrs@ == new_addrs(st.funcs@.len(), module.funcs@.len(), ext_addrs(ext, ExternKind::Func))
    &&& inst.tableaddrs@ == new_addrs(st.tables@.len(), module.tables@.len(), ext_addrs(ext, ExternKind::Table))
    &&& inst.memaddrs@ == new_addrs(st.mems@.len(), module.mems@.len(), ext_addrs(ext, ExternKind::Mem))
    &&& inst.globaladdrs@ == new_addrs(st.globals@.len(), module.globals@.len(), ext_addrs(ext, ExternKind::Global))
    &&& inst.elemaddrs@.len() == 0
    &&& inst.dataaddrs@.len() == 0
    &&& inst.start == module.start
    &&& inst.exports@.len() == module.exports@.len()
    &&& forall|i: int| 0 <= i < module.exports@.len() ==> (#[trigger] inst.exports@[i]).name.0@ == module.exports@[i].name.0@
        && Some(inst.exports@[i].value) == export_value(module.exports@[i].desc, inst.funcaddrs@, inst.tableaddrs@, inst.memaddrs@, inst.globaladdrs@)
    &&& st2.funcs@.len() == st.funcs@.len() + module.funcs@.len()
    &&& st2.funcs@.take(st.funcs@.len() as int) == st.funcs@
    &&& forall|i: int| 0 <= i < module.funcs@.len() ==> match #[trigger] st2.funcs@[st.funcs@.len() + i] {
        FuncInst::FuncInst(l) => l.module == inst && func_of_module(module, i, l.code) && same_func_type(
            l.func_type,
            module.types@[module.funcs@[i].0.0 as int],
        ),
        _ => false,
    }
    &&& st2.tables@.len() == st.tables@.len() + module.tables@.len()
    &&& st2.tables@.take(st.tables@.len() as int) == st.tables@
    &&& forall|i: int| 0 <= i < module.tables@.len() ==> (#[trigger] st2.tables@[st.tables@.len() + i]).table_type
        == module.tables@[i] && st2.tables@[st.tables@.len() + i].elem@ == Seq::new(
        module.tables@[i].limits.min.0 as nat,
        |k: int| RefInst::Null(module.tables@[i].element_ref_type),
    )
    &&& st2.mems@.len() == st.mems@.len() + module.mems@.len()
    &&& st2.mems@.take(st.mems@.len() as int) == st.mems@
    &&& forall|i: int| 0 <= i < module.mems@.len() ==> (#[trigger] st2.mems@[st.mems@.len() + i]).mem_type
        == module.mems@[i] && st2.mems@[st.mems@.len() + i].data@ == Seq::new(
        (module.mems@[i].limits.min.0 * 0x1_0000) as nat,
        |k: int| 0u8,
    )
    &&& st2.globals@ == st.globals@ + Seq::new(
        module.globals@.len(),
        |i: int| GlobalInst { global_type: module.globals@[i].global_type, value: globals[i] },
    )
    &&& st2.elems@.len() == st.elems@.len() + module.elems@.len()
    &&& st2.elems@.take(st.elems@.len() as int) == st.elems@
    &&& forall|i: int| 0 <= i < module.elems@.len() ==> elem_inst_is(
        #[trigger] st2.elems@[st.elems@.len() + i],
        segment_ref_type(module.elems@[i]),
        refs[i]@,
    )
    &&& st2.datas@.len() == st.datas@.len() + module.datas@.len()
    &&& st2.datas@.take(st.datas@.len() as int) == st.datas@
    &&& forall|i: int| 0 <= i < module.datas@.len() ==> data_inst_is(
        #[trigger] st2.datas@[st.datas@.len() + i],
        data_init(module.datas@[i]),
    )
}

impl Store {
    /// Allocates the instances of a module: tables, memories, globals (with the values
    /// `globals`, in order), element segments (with the references `refs`, in order),
    /// data segments and functions, and builds the module instance with its exports.
    /// The instance's addresses are those of its own instances followed by those of
    /// its imports. The element and data segment addresses of the instance stay empty.
    pub fn allocate_module(
        &mut self,
        module: &Module,
        extern_vals: &Vec<ExternalDependency>,
        globals: Vec<Val>,
        refs: Vec<Vec<RefInst>>,
    ) -> (r: RResult<Rc<ModuleInst>>)
        requires
            globals@.len() >= module.globals@.len(),
            refs@.len() >= module.elems@.len(),
            forall|i: int| 0 <= i < module.funcs@.len() ==> ((#[trigger] module.funcs@[i]).0.0 as int) < module.types@.len(),
            old(self).funcs@.len() + module.funcs@.len() <= usize::MAX,
        ensures
            r is Ok <==> module_allocatable(*module, extern_vals@),
            r matches Ok(inst) ==> allocated(*module, extern_vals@, globals@, refs@, *old(self), *final(self), inst),
    {
        let mut t: usize = 0;
        while t < module.tables.len()
            invariant
                t <= module.tables@.len(),
                forall|i: int| 0 <= i < t ==> limits_valid(#[trigger] module.tables@[i].limits, 0xFFFF_FFFF),
            decreases module.tables@.len() - t,
        {
            if !is_table_type_valid(&module.tables[t]) {
                return Err(Trap);
            }
            t = t + 1;
        }
        let mut tableaddrs = self.allocate_tables(&module.tables);
        let mut ext_tables = extern_addrs(extern_vals, ExternKind::Table);
        tableaddrs.append(&mut ext_tables);
        let ghost after_tables = *self;

        let mut m: usize = 0;
        while m < module.mems.len()
            invariant
                m <= module.mems@.len(),
                forall|i: int| 0 <= i < m ==> limits_valid(#[trigger] module.mems@[i].limits, max_pages()),
            decreases module.mems@.len() - m,
        {
            if !is_memory_type_valid(&module.mems[m]) {
                return Err(Trap);
            }
            m = m + 1;
        }
        let mut memaddrs = self.allocate_mems(&module.mems);
        let mut ext_mems = extern_addrs(extern_vals, ExternKind::Mem);
        memaddrs.append(&mut ext_mems);

        let mut globaladdrs = self.allocate_globals(&module.globals, &globals);
        let mut ext_globals = extern_addrs(extern_vals, ExternKind::Global);
        globaladdrs.append(&mut ext_globals);

        self.allocate_elems(&module.elems, refs);
        self.allocate_datas(&module.datas);

        let funcs = match module.get_funcs() {
            Some(funcs) => funcs,
            None => return Err(Trap),
        };
        let base = self.funcs.len();
        let mut funcaddrs: Vec<FuncAddr> = Vec::new();
        let mut k: usize = 0;
        while k < funcs.len()
            invariant
                k <= funcs@.len(),
                funcs@.len() == module.funcs@.len(),
                base + module.funcs@.len() <= usize::MAX,
                funcaddrs@ == Seq::new(k as nat, |i: int| (base + i) as usize),
            decreases funcs@.len() - k,
        {
            funcaddrs.push(base + k);
            proof {
                assert(funcaddrs@ =~= Seq::new((k + 1) as nat, |i: int| (base + i) as usize));
            }
            k = k + 1;
        }
        let mut ext_funcs = extern_addrs(extern_vals, ExternKind::Func);
        funcaddrs.append(&mut ext_funcs);

        proof {
            assert(funcaddrs@.len() == module.funcs@.len() + ext_addrs(extern_vals@, ExternKind::Func).len());
            assert(tableaddrs@.len() == module.tables@.len() + ext_addrs(extern_vals@, ExternKind::Table).len());
            assert(memaddrs@.len() == module.mems@.len() + ext_addrs(extern_vals@, ExternKind::Mem).len());
            assert(globaladdrs@.len() == module.globals@.len() + ext_addrs(extern_vals@, ExternKind::Global).len());
        }
        let exports = match make_exports(&module.exports, &funcaddrs, &tableaddrs, &memaddrs, &globaladdrs) {
            Ok(exports) => exports,
            Err(e) => {
                proof {
                    let i = choose|i: int|
                        0 <= i < module.exports@.len() && export_value(
                            #[trigger] module.exports@[i].desc,
                            funcaddrs@,
                            tableaddrs@,
                            memaddrs@,
                            globaladdrs@,
                        ) is None;
                    assert(!export_in_range(module.exports@[i].desc, *module, extern_vals@));
                }
                return Err(e);
            },
        };
        proof {
            assert forall|i: int| 0 <= i < module.exports@.len() implies export_in_range(
                #[trigger] module.exports@[i].desc,
                *module,
                extern_vals@,
            ) by {
                assert(Some(exports@[i].value) == export_value(
                    module.exports@[i].desc,
                    funcaddrs@,
                    tableaddrs@,
                    memaddrs@,
                    globaladdrs@,
                ));
            }
        }
        let inst = ModuleInst {
            types: copy_module_types(&module.types),
            funcaddrs,
            tableaddrs,
            memaddrs,
            globaladdrs,
            elemaddrs: Vec::new(),
            dataaddrs: Vec::new(),
            exports,
            start: module.start,
        };
        let module_inst = Rc::new(inst);
        self.allocate_module_funcs(funcs, module_inst.clone());
        Ok(module_inst)
    }
}

} // verus!
