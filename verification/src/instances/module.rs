use vstd::prelude::*;

use std::rc::Rc;

use crate::address::{DataAddr, ElemAddr, FuncAddr, GlobalAddr, MemAddr, TableAddr};
use crate::entities::instructions::{ExpressionType, InstructionType, TableInitArg};
use crate::entities::module::{segment_exprs, segment_func_indices, DataType, ElementSegmentType, ExportDescription, Module, StartType};
use crate::entities::types::{
    DataIdx, ElemIdx, FuncType, GlobalType, I32Type, MemType, TableIdx, TableType, U32Type,
};
use crate::execute::executor::{execute_expression, execute_instruction, expression_post, run_sequence, sequence_run};
use crate::execute::float::FloatOps;
use crate::instances::export::{ExportInst, ExternVal};
use crate::instances::frame::Frame;
use crate::instances::ref_inst::RefInst;
use crate::instances::stack::{Stack, StackEntry};
use crate::instances::store::{module_allocatable, Store};
use crate::instances::value::Val;
use crate::instances::instantiation::{
    datas_applied, elems_applied, eval_elem_refs, eval_globals, instantiation_failed, instantiation_ok, start_run,
    InstantiationRun,
};
use crate::instances::instantiation::{aux_ready, instantiation_allocated};
use crate::result::{RResult, Trap};

verus! {

/// The number of initialisers of an element segment.
pub open spec fn segment_init_len(e: ElementSegmentType) -> nat {
    match segment_func_indices(e) {
        Some(fs) => fs.len(),
        None => segment_exprs(e)->0.len(),
    }
}

/// The instructions that follow the offset expression of the active element segment
/// `k` of `n` elements for table `table_idx`: the bounds of `table.init`, then
/// `table.init` and `elem.drop`.
pub open spec fn element_tail(n: u32, k: u32, table_idx: TableIdx) -> Seq<InstructionType> {
    seq![
        InstructionType::I32Const(I32Type(0)),
        InstructionType::I32Const(I32Type(n)),
        InstructionType::TableInit(TableInitArg(table_idx, ElemIdx(U32Type(k)))),
        InstructionType::ElemDrop(ElemIdx(U32Type(k))),
    ]
}

/// The instructions that follow the offset expression of the active data segment `k`
/// of `n` bytes: the bounds of `memory.init`, then `memory.init`.
pub open spec fn data_tail(n: u32, k: u32) -> Seq<InstructionType> {
    seq![
        InstructionType::I32Const(I32Type(0)),
        InstructionType::I32Const(I32Type(n)),
        InstructionType::MemoryInit(DataIdx(U32Type(k))),
    ]
}

/// The offset expression `offset` was evaluated from `(s, st)`, its value taken off the
/// stack, and then `tail` ran (`sequence_run`), ending in `(s2, st2)` with `r`; a trap
/// of the expression is the result.
pub open spec fn offset_then_run(
    offset: Seq<InstructionType>,
    tail: Seq<InstructionType>,
    s: Seq<StackEntry>,
    st: Store,
    s2: Seq<StackEntry>,
    st2: Store,
    r: RResult<()>,
) -> bool {
    exists|s1: Seq<StackEntry>, st1: Store, v: RResult<Val>| {
        &&& #[trigger] expression_post(offset, s, st, s1, st1, v)
        &&& match v {
            Err(e) => r == Err::<(), Trap>(e) && s2 == s1 && st2 == st1,
            Ok(_) => sequence_run(tail, s1, st1, s2, st2, r),
        }
    }
}

/// What applying the element segment `e`, the `k`-th of its module, does: an active
/// segment runs its offset expression and `element_tail`; a declarative one runs
/// `elem.drop`; a passive one changes nothing.
pub open spec fn elem_segment_post(
    e: ElementSegmentType,
    k: int,
    s: Seq<StackEntry>,
    st: Store,
    s2: Seq<StackEntry>,
    st2: Store,
    r: RResult<()>,
) -> bool {
    let n = segment_init_len(e) as u32;
    match e {
        ElementSegmentType::Active0Expr(t) => offset_then_run(t.mode.offset.instructions@, element_tail(n, k as u32, TableIdx(U32Type(0))), s, st, s2, st2, r),
        ElementSegmentType::Active0Functions(t) => offset_then_run(t.mode.offset.instructions@, element_tail(n, k as u32, TableIdx(U32Type(0))), s, st, s2, st2, r),
        ElementSegmentType::ActiveRef(t) => offset_then_run(t.mode.offset.instructions@, element_tail(n, k as u32, t.mode.table_idx), s, st, s2, st2, r),
        ElementSegmentType::ElemKindActiveFunctions(t) => offset_then_run(t.mode.offset.instructions@, element_tail(n, k as u32, t.mode.table_idx), s, st, s2, st2, r),
        ElementSegmentType::DeclarativeRef(_) | ElementSegmentType::ElemKindDeclarativeFunctions(_) => sequence_run(
            seq![InstructionType::ElemDrop(ElemIdx(U32Type(k as u32)))],
            s,
            st,
            s2,
            st2,
            r,
        ),
        _ => r is Ok && s2 == s && st2 == st,
    }
}

/// What applying the data segment `d`, the `k`-th of its module, does: an active
/// segment of the first memory runs its offset expression and `data_tail`; one of
/// another memory traps; a passive one changes nothing.
pub open spec fn data_segment_post(
    d: DataType,
    k: int,
    s: Seq<StackEntry>,
    st: Store,
    s2: Seq<StackEntry>,
    st2: Store,
    r: RResult<()>,
) -> bool {
    match d {
        DataType::Active0(t) => offset_then_run(t.mode.offset.instructions@, data_tail(t.init@.len() as u32, k as u32), s, st, s2, st2, r),
        DataType::Active(t) => if t.mode.memory.0.0 != 0 {
            r is Err && s2 == s && st2 == st
        } else {
            offset_then_run(t.mode.offset.instructions@, data_tail(t.init@.len() as u32, k as u32), s, st, s2, st2, r)
        },
        DataType::Passive(_) => r is Ok && s2 == s && st2 == st,
    }
}

/// `t` records the application of the element segments `elems`, one after another,
/// that ended with `r`: segment `k` leads from `t[k]` to `t[k + 1]`
/// (`elem_segment_post`); with `r` `Ok` all were applied, with an error the last one
/// recorded failed with it.
pub open spec fn elems_trace(elems: Seq<ElementSegmentType>, t: Seq<(Seq<StackEntry>, Store)>, r: RResult<()>) -> bool {
    &&& 1 <= t.len() <= elems.len() + 1
    &&& forall|k: int| 0 <= k < t.len() - 1 && !(r is Err && k == t.len() - 2) ==> #[trigger] elem_segment_post(
        elems[k],
        k,
        t[k].0,
        t[k].1,
        t[k + 1].0,
        t[k + 1].1,
        Ok::<(), Trap>(()),
    )
    &&& match r {
        Ok(_) => t.len() == elems.len() + 1,
        Err(e) => t.len() >= 2 && elem_segment_post(
            elems[t.len() - 2],
            t.len() - 2,
            t[t.len() - 2].0,
            t[t.len() - 2].1,
            t.last().0,
            t.last().1,
            Err::<(), Trap>(e),
        ),
    }
}

/// `t` records the application of the data segments `datas`, one after another, that
/// ended with `r`, as `elems_trace` does for element segments.
pub open spec fn datas_trace(datas: Seq<DataType>, t: Seq<(Seq<StackEntry>, Store)>, r: RResult<()>) -> bool {
    &&& 1 <= t.len() <= datas.len() + 1
    &&& forall|k: int| 0 <= k < t.len() - 1 && !(r is Err && k == t.len() - 2) ==> #[trigger] data_segment_post(
        datas[k],
        k,
        t[k].0,
        t[k].1,
        t[k + 1].0,
        t[k + 1].1,
        Ok::<(), Trap>(()),
    )
    &&& match r {
        Ok(_) => t.len() == datas.len() + 1,
        Err(e) => t.len() >= 2 && data_segment_post(
            datas[t.len() - 2],
            t.len() - 2,
            t[t.len() - 2].0,
            t[t.len() - 2].1,
            t.last().0,
            t.last().1,
            Err::<(), Trap>(e),
        ),
    }
}

proof fn lemma_ok_unit(r: RResult<()>)
    requires
        r is Ok,
    ensures
        r == Ok::<(), Trap>(()),
{
    let u: () = r->Ok_0;
    assert(u == ());
}

#[derive(Debug)]
pub struct ModuleInst {
    pub types: Vec<FuncType>,
    pub funcaddrs: Vec<FuncAddr>,
    pub tableaddrs: Vec<TableAddr>,
    pub memaddrs: Vec<MemAddr>,
    pub globaladdrs: Vec<GlobalAddr>,
    pub elemaddrs: Vec<ElemAddr>,
    pub dataaddrs: Vec<DataAddr>,
    pub exports: Vec<ExportInst>,
    pub start: Option<StartType>,
}

impl Default for ModuleInst {
    fn default() -> (r: Self)
        ensures
            r.types@.len() == 0,
            r.funcaddrs@.len() == 0,
            r.tableaddrs@.len() == 0,
            r.memaddrs@.len() == 0,
            r.globaladdrs@.len() == 0,
            r.elemaddrs@.len() == 0,
            r.dataaddrs@.len() == 0,
            r.exports@.len() == 0,
            r.start is None,
    {
        ModuleInst {
            types: Vec::new(),
            funcaddrs: Vec::new(),
            tableaddrs: Vec::new(),
            memaddrs: Vec::new(),
            globaladdrs: Vec::new(),
            elemaddrs: Vec::new(),
            dataaddrs: Vec::new(),
            exports: Vec::new(),
            start: None,
        }
    }
}

#[derive(Debug, Clone, PartialEq)]
pub enum ExternalDependency {
    Func { func_addr: FuncAddr, func_type: FuncType },
    Table { table_addr: TableAddr, table_type: TableType },
    Mem { mem_addr: MemAddr, mem_type: MemType },
    Global { global_addr: GlobalAddr, global_type: GlobalType },
}

/// The four kinds of external values.
#[derive(Debug, Clone, Copy, PartialEq, Eq, Structural)]
pub enum ExternKind {
    Func,
    Table,
    Mem,
    Global,
}

/// The address of an external dependency of the given kind.
pub open spec fn ext_addr_of(d: ExternalDependency, kind: ExternKind) -> Option<usize> {
    match (d, kind) {
        (ExternalDependency::Func { func_addr, .. }, ExternKind::Func) => Some(func_addr),
        (ExternalDependency::Table { table_addr, .. }, ExternKind::Table) => Some(table_addr),
        (ExternalDependency::Mem { mem_addr, .. }, ExternKind::Mem) => Some(mem_addr),
        (ExternalDependency::Global { global_addr, .. }, ExternKind::Global) => Some(global_addr),
        _ => None,
    }
}

/// The addresses of the external dependencies of one kind, in order.
pub open spec fn ext_addrs(e: Seq<ExternalDependency>, kind: ExternKind) -> Seq<usize>
    decreases e.len(),
{
    if e.len() == 0 {
        Seq::empty()
    } else {
        ext_addrs(e.drop_last(), kind) + match ext_addr_of(e.last(), kind) {
            Some(a) => seq![a],
            None => Seq::empty(),
        }
    }
}

/// The addresses of the external dependencies of one kind, in order.
pub fn extern_addrs(e: &Vec<ExternalDependency>, kind: ExternKind) -> (r: Vec<usize>)
    ensures
        r@ == ext_addrs(e@, kind),
{
    let mut r: Vec<usize> = Vec::new();
    let mut i: usize = 0;
    while i < e.len()
        invariant
            i <= e@.len(),
            r@ == ext_addrs(e@.take(i as int), kind),
        decreases e@.len() - i,
    {
        let a: Option<usize> = match (&e[i], kind) {
            (ExternalDependency::Func { func_addr, .. }, ExternKind::Func) => Some(*func_addr),
            (ExternalDependency::Table { table_addr, .. }, ExternKind::Table) => Some(*table_addr),
            (ExternalDependency::Mem { mem_addr, .. }, ExternKind::Mem) => Some(*mem_addr),
            (ExternalDependency::Global { global_addr, .. }, ExternKind::Global) => Some(*global_addr),
            _ => None,
        };
        proof {
            assert(e@.take(i + 1).drop_last() =~= e@.take(i as int));
            assert(a == ext_addr_of(e@[i as int], kind));
        }
        match a {
            Some(x) => {
                r.push(x);
                proof {
                    assert(r@ =~= ext_addrs(e@.take(i + 1), kind));
                }
            },
            None => {
                proof {
                    assert(r@ =~= ext_addrs(e@.take(i + 1), kind));
                }
            },
        }
        i = i + 1;
    }
    proof {
        assert(e@.take(i as int) =~= e@);
    }
    r
}

/// The addresses of a module's own `n` instances, allocated from `base` on, followed by
/// the addresses of its imports.
pub open spec fn new_addrs(base: nat, n: nat, ext: Seq<usize>) -> Seq<usize> {
    Seq::new(n, |i: int| (base + i) as usize) + ext
}

/// The external value that an export names, given the addresses of a module instance; `None` where its
/// index is out of range.
pub open spec fn export_value(
    desc: ExportDescription,
    funcaddrs: Seq<usize>,
    tableaddrs: Seq<usize>,
    memaddrs: Seq<usize>,
    globaladdrs: Seq<usize>,
) -> Option<ExternVal> {
    match desc {
        ExportDescription::Func(x) => if (x.0.0 as int) < funcaddrs.len() {
            Some(ExternVal::Func(funcaddrs[x.0.0 as int]))
        } else {
            None
        },
        ExportDescription::Table(x) => if (x.0.0 as int) < tableaddrs.len() {
            Some(ExternVal::Table(tableaddrs[x.0.0 as int]))
        } else {
            None
        },
        ExportDescription::Mem(x) => if (x.0.0 as int) < memaddrs.len() {
            Some(ExternVal::Mem(memaddrs[x.0.0 as int]))
        } else {
            None
        },
        ExportDescription::Global(x) => if (x.0.0 as int) < globaladdrs.len() {
            Some(ExternVal::Global(globaladdrs[x.0.0 as int]))
        } else {
            None
        },
    }
}

/// Every function declaration of the module names one of its types.
pub open spec fn func_types_in_range(module: Module) -> bool {
    forall|i: int| 0 <= i < module.funcs@.len() ==> ((#[trigger] module.funcs@[i]).0.0 as int) < module.types@.len()
}

/// Whether every function declaration of the module names one of its types.
fn check_func_types(module: &Module) -> (r: bool)
    ensures
        r == func_types_in_range(*module),
{
    let mut i: usize = 0;
    while i < module.funcs.len()
        invariant
            i <= module.funcs@.len(),
            forall|j: int| 0 <= j < i ==> ((#[trigger] module.funcs@[j]).0.0 as int) < module.types@.len(),
        decreases module.funcs@.len() - i,
    {
        if module.funcs[i].0.0 as usize >= module.types.len() {
            return false;
        }
        i = i + 1;
    }
    true
}

/// The addresses `base`, `base + 1`, ... for `n` instances.
fn consecutive_addrs(base: usize, n: usize) -> (r: Option<Vec<usize>>)
    ensures
        base + n <= usize::MAX ==> r == Some(r->0) && r->0@ == Seq::new(n as nat, |i: int| (base + i) as usize),
        base + n > usize::MAX ==> r is None,
{
    let last = match base.checked_add(n) {
        Some(l) => l,
        None => return None,
    };
    let mut v: Vec<usize> = Vec::new();
    let mut k: usize = 0;
    while k < n
        invariant
            k <= n,
            base + n == last,
            v@ == Seq::new(k as nat, |i: int| (base + i) as usize),
        decreases n - k,
    {
        v.push(base + k);
        proof {
            assert(v@ =~= Seq::new((k + 1) as nat, |i: int| (base + i) as usize));
        }
        k = k + 1;
    }
    Some(v)
}

impl ModuleInst {
    /// Instantiates a module: evaluates its global initialisers and element
    /// expressions in a frame of an auxiliary instance whose functions are allocated
    /// for that purpose, allocates the module's instances, applies its element and
    /// data segments and runs its start function. A module whose function
    /// declarations name missing types is refused.
    pub fn instantiate<F: FloatOps>(
        store: &mut Store,
        stack: &mut Stack,
        module: &Module,
        externals: Vec<ExternalDependency>,
        floats: &F,
    ) -> (r: RResult<Rc<ModuleInst>>)
        ensures
            !func_types_in_range(*module) ==> r is Err && final(stack)@ == old(stack)@ && *final(store)
                == *old(store),
            r is Ok ==> module_allocatable(*module, externals@),
            r matches Ok(inst) ==> exists|run: InstantiationRun| #[trigger] instantiation_ok(
                *module,
                externals@,
                old(stack)@,
                *old(store),
                final(stack)@,
                *final(store),
                inst,
                run,
            ),
            r is Err ==> !func_types_in_range(*module) || module.code@.len() < module.funcs@.len() || old(store).funcs@.len()
                + module.funcs@.len() > usize::MAX || !module_allocatable(*module, externals@) || exists|
                run: InstantiationRun,
                inst: Rc<ModuleInst>,
            | #[trigger] instantiation_failed(
                *module,
                externals@,
                old(stack)@,
                *old(store),
                final(stack)@,
                *final(store),
                inst,
                run,
            ),
            r matches Ok(inst) ==> inst.exports@.len() == module.exports@.len() && inst.start
                == module.start && inst.types@.len() == module.types@.len(),
            r matches Ok(inst) ==> forall|i: int| 0 <= i < module.exports@.len() ==> (#[trigger] inst.exports@[i]).name.0@
                == module.exports@[i].name.0@ && Some(inst.exports@[i].value) == export_value(
                module.exports@[i].desc,
                inst.funcaddrs@,
                inst.tableaddrs@,
                inst.memaddrs@,
                inst.globaladdrs@,
            ),
    {
        if !check_func_types(module) {
            return Err(Trap);
        }
        let aux_funcs = match module.get_funcs() {
            Some(funcs) => funcs,
            None => return Err(Trap),
        };
        let aux_addrs = match consecutive_addrs(store.funcs.len(), aux_funcs.len()) {
            Some(v) => v,
            None => return Err(Trap),
        };
        let aux_module = Rc::new(
            ModuleInst {
                types: crate::instances::store::copy_module_types(&module.types),
                funcaddrs: aux_addrs,
                tableaddrs: Vec::new(),
                memaddrs: Vec::new(),
                globaladdrs: crate::instances::module::extern_addrs(&externals, ExternKind::Global),
                elemaddrs: Vec::new(),
                dataaddrs: Vec::new(),
                exports: Vec::new(),
                start: None,
            },
        );
        let ghost s0 = stack@;
        let ghost st0 = *store;
        store.allocate_module_funcs(aux_funcs, aux_module.clone());
        stack.push_entry(StackEntry::Frame(Frame { module: aux_module.clone(), locals: Vec::new(), arity: None }));
        let ghost ready = (stack@, *store);
        proof {
            assert(stack@.drop_last() =~= s0);
            assert(aux_ready(*module, externals@, s0, st0, aux_module, ready.0, ready.1));
        }
        let ghost mut run = InstantiationRun {
            aux: aux_module,
            ready,
            globals_done: ready,
            vals: Seq::empty(),
            elems_done: ready,
            refs: Seq::empty(),
            allocated: ready.1,
            entered: ready.0,
            elems_applied: ready,
            datas_applied: ready,
            started: ready,
        };

        let vals = match eval_globals(module, stack, store, floats) {
            Ok(v) => v,
            Err(e) => {
                proof {
                    assert(instantiation_failed(*module, externals@, s0, st0, stack@, *store, aux_module, run));
                }
                return Err(e);
            },
        };
        proof {
            run.globals_done = (stack@, *store);
            run.vals = vals@;
        }
        let frame_on_top = match stack.last() {
            Some(entry) => entry.is_frame(),
            None => false,
        };
        if !frame_on_top {
            proof {
                assert(instantiation_failed(*module, externals@, s0, st0, stack@, *store, aux_module, run));
            }
            return Err(Trap);
        }
        let refs_refs = match eval_elem_refs(module, stack, store, floats) {
            Ok(v) => v,
            Err(e) => {
                proof {
                    assert(instantiation_failed(*module, externals@, s0, st0, stack@, *store, aux_module, run));
                }
                return Err(e);
            },
        };
        proof {
            run.elems_done = (stack@, *store);
            run.refs = refs_refs@;
        }
        if stack.pop_frame().is_none() {
            proof {
                assert(instantiation_failed(*module, externals@, s0, st0, stack@, *store, aux_module, run));
            }
            return Err(Trap);
        }
        if store.funcs.len().checked_add(module.funcs.len()).is_none() {
            proof {
                assert(instantiation_failed(*module, externals@, s0, st0, stack@, *store, aux_module, run));
            }
            return Err(Trap);
        }
        let module_inst = store.allocate_module(module, &externals, vals, refs_refs)?;
        stack.push_entry(StackEntry::Frame(Frame { module: module_inst.clone(), locals: Vec::new(), arity: None }));
        proof {
            run.allocated = *store;
            run.entered = stack@;
            assert(run.elems_done.0.drop_last() =~= stack@.drop_last());
            assert(instantiation_allocated(*module, externals@, s0, st0, module_inst, run));
        }
        let applied = Self::apply_elems(module, stack, store, floats);
        if applied.is_err() {
            proof {
                assert(instantiation_failed(*module, externals@, s0, st0, stack@, *store, module_inst, run));
            }
            return Err(Trap);
        }
        proof {
            lemma_ok_unit(applied);
            run.elems_applied = (stack@, *store);
            assert(instantiation_allocated(*module, externals@, s0, st0, module_inst, run));
        }
        let applied = Self::apply_active_datas(module, stack, store, floats);
        if applied.is_err() {
            proof {
                assert(instantiation_failed(*module, externals@, s0, st0, stack@, *store, module_inst, run));
            }
            return Err(Trap);
        }
        proof {
            lemma_ok_unit(applied);
            run.datas_applied = (stack@, *store);
            assert(instantiation_allocated(*module, externals@, s0, st0, module_inst, run));
        }
        let started = Self::execute_module_start_fn(module, stack, store, floats);
        if started.is_err() {
            proof {
                assert(instantiation_failed(*module, externals@, s0, st0, stack@, *store, module_inst, run));
            }
            return Err(Trap);
        }
        proof {
            lemma_ok_unit(started);
            run.started = (stack@, *store);
            assert(instantiation_allocated(*module, externals@, s0, st0, module_inst, run));
        }
        if stack.pop_frame().is_none() {
            proof {
                assert(instantiation_failed(*module, externals@, s0, st0, stack@, *store, module_inst, run));
            }
            return Err(Trap);
        }
        proof {
            assert(instantiation_ok(*module, externals@, s0, st0, stack@, *store, module_inst, run));
        }
        Ok(module_inst)
    }

    /// Applies the element segments: an active one is copied into its table and
    /// dropped, a declarative one is dropped.
    fn apply_elems<F: FloatOps>(module: &Module, stack: &mut Stack, store: &mut Store, floats: &F) -> (r: RResult<()>)
        ensures
            elems_applied(module.elems@, old(stack)@, *old(store), final(stack)@, *final(store), r),
    {
        let ghost mut t: Seq<(Seq<StackEntry>, Store)> = seq![(stack@, *store)];
        let mut i: usize = 0;
        while i < module.elems.len()
            invariant
                i <= module.elems@.len(),
                t.len() == i + 1,
                t[0] == (old(stack)@, *old(store)),
                t.last() == (stack@, *store),
                forall|k: int| 0 <= k < i ==> #[trigger] elem_segment_post(module.elems@[k], k, t[k].0, t[k].1, t[k + 1].0, t[k + 1].1, Ok::<(), Trap>(())),
            decreases module.elems@.len() - i,
        {
            let ghost before = t;
            let elem = &module.elems[i];
            let init_len = elem.get_init().len() as u32;
            let res = match elem {
                ElementSegmentType::Active0Expr(segment_type) => {
                    Self::apply_active_element_segment(init_len, i as u32, &segment_type.mode.offset, TableIdx(U32Type(0)), stack, store, floats)
                },
                ElementSegmentType::Active0Functions(segment_type) => {
                    Self::apply_active_element_segment(init_len, i as u32, &segment_type.mode.offset, TableIdx(U32Type(0)), stack, store, floats)
                },
                ElementSegmentType::ActiveRef(segment_type) => {
                    Self::apply_active_element_segment(init_len, i as u32, &segment_type.mode.offset, segment_type.mode.table_idx, stack, store, floats)
                },
                ElementSegmentType::ElemKindActiveFunctions(segment_type) => {
                    Self::apply_active_element_segment(init_len, i as u32, &segment_type.mode.offset, segment_type.mode.table_idx, stack, store, floats)
                },
                ElementSegmentType::DeclarativeRef(_) | ElementSegmentType::ElemKindDeclarativeFunctions(_) => {
                    Self::apply_declarative_element_segment(i as u32, stack, store, floats)
                },
                _ => Ok(()),
            };
            proof {
                t = before.push((stack@, *store));
                assert(elem_segment_post(module.elems@[i as int], i as int, t[i as int].0, t[i as int].1, t[i + 1].0, t[i + 1].1, res));
                assert forall|k: int| 0 <= k < i implies #[trigger] elem_segment_post(module.elems@[k], k, t[k].0, t[k].1, t[k + 1].0, t[k + 1].1, Ok::<(), Trap>(())) by {
                    assert(t[k] == before[k] && t[k + 1] == before[k + 1]);
                }
            }
            let ghost rg = res;
            match res {
                Err(e) => {
                    proof {
                        assert(elems_trace(module.elems@, t, Err::<(), Trap>(e)));
                    }
                    return Err(e);
                },
                Ok(()) => {
                    proof {
                        lemma_ok_unit(rg);
                        assert(elem_segment_post(module.elems@[i as int], i as int, t[i as int].0, t[i as int].1, t[i + 1].0, t[i + 1].1, Ok::<(), Trap>(())));
                    }
                },
            }
            i = i + 1;
        }
        proof {
            assert(elems_trace(module.elems@, t, Ok::<(), Trap>(())));
        }
        Ok(())
    }

    /// Runs the offset expression of an active element segment, then `table.init` of
    /// its `n` elements and `elem.drop`. The value of the offset expression is taken off
    /// the stack with the expression.
    fn apply_active_element_segment<F: FloatOps>(
        n: u32,
        i: u32,
        offset_instructions: &ExpressionType,
        table_idx: TableIdx,
        stack: &mut Stack,
        store: &mut Store,
        floats: &F,
    ) -> (r: RResult<()>)
        ensures
            offset_then_run(offset_instructions.instructions@, element_tail(n, i, table_idx), old(stack)@, *old(store), final(stack)@, *final(store), r),
    {
        Self::offset_and_run(
            offset_instructions,
            vec![
                InstructionType::I32Const(I32Type(0)),
                InstructionType::I32Const(I32Type(n)),
                InstructionType::TableInit(TableInitArg(table_idx, ElemIdx(U32Type(i)))),
                InstructionType::ElemDrop(ElemIdx(U32Type(i))),
            ],
            stack,
            store,
            floats,
        )
    }

    /// Runs an offset expression, takes its value off the stack, then runs `tail`.
    fn offset_and_run<F: FloatOps>(
        offset_instructions: &ExpressionType,
        tail: Vec<InstructionType>,
        stack: &mut Stack,
        store: &mut Store,
        floats: &F,
    ) -> (r: RResult<()>)
        ensures
            offset_then_run(offset_instructions.instructions@, tail@, old(stack)@, *old(store), final(stack)@, *final(store), r),
    {
        let v = execute_expression(offset_instructions, stack, store, floats);
        let ghost s1 = stack@;
        let ghost st1 = *store;
        proof {
            assert(expression_post(offset_instructions.instructions@, old(stack)@, *old(store), s1, st1, v));
        }
        v?;
        let r = run_sequence(&tail, stack, store, floats);
        proof {
            assert(expression_post(offset_instructions.instructions@, old(stack)@, *old(store), s1, st1, v));
        }
        r
    }

    /// Drops a declarative element segment.
    fn apply_declarative_element_segment<F: FloatOps>(i: u32, stack: &mut Stack, store: &mut Store, floats: &F) -> (r: RResult<()>)
        ensures
            sequence_run(seq![InstructionType::ElemDrop(ElemIdx(U32Type(i)))], old(stack)@, *old(store), final(stack)@, *final(store), r),
    {
        let drop = vec![InstructionType::ElemDrop(ElemIdx(U32Type(i)))];
        let r = run_sequence(&drop, stack, store, floats);
        proof {
            assert(drop@ =~= seq![InstructionType::ElemDrop(ElemIdx(U32Type(i)))]);
        }
        r
    }

    /// Applies the active data segments: runs the offset expression, then
    /// `memory.init` of the segment's bytes. A segment for a memory other than the
    /// first traps.
    fn apply_active_datas<F: FloatOps>(module: &Module, stack: &mut Stack, store: &mut Store, floats: &F) -> (r: RResult<()>)
        ensures
            datas_applied(module.datas@, old(stack)@, *old(store), final(stack)@, *final(store), r),
    {
        let ghost mut t: Seq<(Seq<StackEntry>, Store)> = seq![(stack@, *store)];
        let mut i: usize = 0;
        while i < module.datas.len()
            invariant
                i <= module.datas@.len(),
                t.len() == i + 1,
                t[0] == (old(stack)@, *old(store)),
                t.last() == (stack@, *store),
                forall|k: int| 0 <= k < i ==> #[trigger] data_segment_post(module.datas@[k], k, t[k].0, t[k].1, t[k + 1].0, t[k + 1].1, Ok::<(), Trap>(())),
            decreases module.datas@.len() - i,
        {
            let ghost before = t;
            let res = match &module.datas[i] {
                DataType::Active0(data_active) => {
                    let n = data_active.init.len() as u32;
                    Self::offset_and_run(
                        &data_active.mode.offset,
                        vec![
                            InstructionType::I32Const(I32Type(0)),
                            InstructionType::I32Const(I32Type(n)),
                            InstructionType::MemoryInit(DataIdx(U32Type(i as u32))),
                        ],
                        stack,
                        store,
                        floats,
                    )
                },
                DataType::Active(data_active) => {
                    if data_active.mode.memory.0.0 != 0 {
                        Err(Trap)
                    } else {
                        let n = data_active.init.len() as u32;
                        Self::offset_and_run(
                            &data_active.mode.offset,
                            vec![
                                InstructionType::I32Const(I32Type(0)),
                                InstructionType::I32Const(I32Type(n)),
                                InstructionType::MemoryInit(DataIdx(U32Type(i as u32))),
                            ],
                            stack,
                            store,
                            floats,
                        )
                    }
                },
                _ => Ok(()),
            };
            proof {
                t = before.push((stack@, *store));
                assert(data_segment_post(module.datas@[i as int], i as int, t[i as int].0, t[i as int].1, t[i + 1].0, t[i + 1].1, res));
                assert forall|k: int| 0 <= k < i implies #[trigger] data_segment_post(module.datas@[k], k, t[k].0, t[k].1, t[k + 1].0, t[k + 1].1, Ok::<(), Trap>(())) by {
                    assert(t[k] == before[k] && t[k + 1] == before[k + 1]);
                }
            }
            let ghost rg = res;
            match res {
                Err(e) => {
                    proof {
                        assert(datas_trace(module.datas@, t, Err::<(), Trap>(e)));
                    }
                    return Err(e);
                },
                Ok(()) => {
                    proof {
                        lemma_ok_unit(rg);
                        assert(data_segment_post(module.datas@[i as int], i as int, t[i as int].0, t[i as int].1, t[i + 1].0, t[i + 1].1, Ok::<(), Trap>(())));
                    }
                },
            }
            i = i + 1;
        }
        proof {
            assert(datas_trace(module.datas@, t, Ok::<(), Trap>(())));
        }
        Ok(())
    }

    /// Calls the start function of the module, if it has one.
    fn execute_module_start_fn<F: FloatOps>(module: &Module, stack: &mut Stack, store: &mut Store, floats: &F) -> (r: RResult<()>)
        ensures
            start_run(module.start, old(stack)@, *old(store), final(stack)@, *final(store), r),
    {
        if let Some(start_fn) = module.start {
            let call = vec![InstructionType::Call(start_fn.func)];
            let r = run_sequence(&call, stack, store, floats);
            proof {
                assert(call@ =~= seq![InstructionType::Call(start_fn.func)]);
            }
            r?;
        }
        Ok(())
    }
}

} // verus!
