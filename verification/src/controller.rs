use vstd::prelude::*;

use std::rc::Rc;

use crate::entities::instructions::InstructionType;
use crate::entities::module::{ExportDescription, ExportType, ImportDescription, ImportType, Module};
use crate::execute::exec_control::utils::{pop_values_original_order, top_values, values_of};
use crate::entities::types::{FuncIdx, U32Type};
use crate::execute::executor::{execute_instruction, instruction_post, ExitType};
use crate::execute::float::FloatOps;
use crate::instances::frame::Frame;
use crate::instances::func::func_inst_type;
use crate::instances::export::{ExportInst, ExternVal};
use crate::instances::module::{ExternalDependency, ModuleInst};
use crate::instances::stack::{lemma_top_frame_index_bounds, top_frame, top_frame_index, Stack, StackEntry};
use crate::instances::store::Store;
use crate::instances::value::Val;
use crate::result::{RResult, Trap};

verus! {

/// The position of the first export named `name`.
pub open spec fn find_export(exports: Seq<ExportType>, name: Seq<char>) -> Option<int>
    decreases exports.len(),
{
    if exports.len() == 0 {
        None
    } else {
        match find_export(exports.drop_last(), name) {
            Some(i) => Some(i),
            None => if exports.last().name.0@ == name {
                Some(exports.len() - 1)
            } else {
                None
            },
        }
    }
}

/// The function index and address of the function that a module exports under
/// `name`; `None` where there is no such export, it names no function, or the index
/// lies past the instance's functions.
pub open spec fn exported_func(module_inst: ModuleInst, module: Module, name: Seq<char>) -> Option<(u32, usize)> {
    match find_export(module.exports@, name) {
        Some(i) => match module.exports@[i].desc {
            ExportDescription::Func(x) => if (x.0.0 as int) < module_inst.funcaddrs@.len() {
                Some((x.0.0, module_inst.funcaddrs@[x.0.0 as int]))
            } else {
                None
            },
            _ => None,
        },
        None => None,
    }
}

/// Finds the first export named `name`.
fn find_export_by_name(exports: &Vec<ExportType>, name: &String) -> (r: Option<usize>)
    ensures
        match r {
            Some(k) => find_export(exports@, name@) == Some(k as int) && k < exports@.len(),
            None => find_export(exports@, name@) is None,
        },
{
    let mut i: usize = 0;
    while i < exports.len()
        invariant
            i <= exports@.len(),
            find_export(exports@.take(i as int), name@) is None,
        decreases exports@.len() - i,
    {
        proof {
            assert(exports@.take(i + 1).drop_last() =~= exports@.take(i as int));
        }
        if exports[i].name.0 == *name {
            proof {
                lemma_find_export_prefix(exports@, name@, (i + 1) as int);
                lemma_find_export_bound(exports@, name@);
            }
            return Some(i);
        }
        i = i + 1;
    }
    proof {
        assert(exports@.take(i as int) =~= exports@);
    }
    None
}

/// The first match lies within the sequence.
proof fn lemma_find_export_bound(exports: Seq<ExportType>, name: Seq<char>)
    ensures
        find_export(exports, name) matches Some(i) ==> 0 <= i < exports.len(),
    decreases exports.len(),
{
    if exports.len() > 0 {
        lemma_find_export_bound(exports.drop_last(), name);
    }
}

/// Where the first match lies within a prefix, the whole sequence has it too.
proof fn lemma_find_export_prefix(exports: Seq<ExportType>, name: Seq<char>, n: int)
    requires
        0 <= n <= exports.len(),
        find_export(exports.take(n), name) is Some,
    ensures
        find_export(exports, name) == find_export(exports.take(n), name),
    decreases exports.len() - n,
{
    if n < exports.len() {
        assert(exports.take(n + 1).drop_last() =~= exports.take(n));
        lemma_find_export_prefix(exports, name, n + 1);
    } else {
        assert(exports.take(n) =~= exports);
    }
}

/// The position of the first export of a module instance named `name`.
pub open spec fn find_export_inst(exports: Seq<ExportInst>, name: Seq<char>) -> Option<int>
    decreases exports.len(),
{
    if exports.len() == 0 {
        None
    } else {
        match find_export_inst(exports.drop_last(), name) {
            Some(i) => Some(i),
            None => if exports.last().name.0@ == name {
                Some(exports.len() - 1)
            } else {
                None
            },
        }
    }
}

/// The dependency that an import described by `desc` gets from the exported value `v`:
/// `None` where their kinds differ, or a function's address lies outside the store.
pub open spec fn dependency_of(v: ExternVal, desc: ImportDescription, st: Store, d: ExternalDependency) -> bool {
    match v {
        ExternVal::Func(a) => desc is Func && a < st.funcs@.len() && (d matches ExternalDependency::Func {
            func_addr,
            func_type,
        } && func_addr == a && func_type.parameters@ == func_inst_type(st.funcs@[a as int]).parameters@
            && func_type.results@ == func_inst_type(st.funcs@[a as int]).results@),
        ExternVal::Table(a) => desc matches ImportDescription::Table(t) && d == (ExternalDependency::Table {
            table_addr: a,
            table_type: t,
        }),
        ExternVal::Mem(a) => desc matches ImportDescription::Mem(t) && d == (ExternalDependency::Mem {
            mem_addr: a,
            mem_type: t,
        }),
        ExternVal::Global(a) => desc matches ImportDescription::Global(t) && d == (ExternalDependency::Global {
            global_addr: a,
            global_type: t,
        }),
    }
}

/// Whether the import `imp` is satisfied by the module instance `lib` registered under
/// `lib_name`: it names that module, an export of that name exists, and the kinds
/// agree.
pub open spec fn import_resolves(imp: ImportType, lib_name: Seq<char>, lib: ModuleInst, st: Store) -> bool {
    &&& imp.module.0@ == lib_name
    &&& find_export_inst(lib.exports@, imp.name.0@) is Some
    &&& exists|d: ExternalDependency| #[trigger] dependency_of(
        lib.exports@[find_export_inst(lib.exports@, imp.name.0@)->0].value,
        imp.desc,
        st,
        d,
    )
}

/// Finds the first export of a module instance named `name`.
fn find_export_inst_by_name(exports: &Vec<ExportInst>, name: &String) -> (r: Option<usize>)
    ensures
        match r {
            Some(k) => find_export_inst(exports@, name@) == Some(k as int) && k < exports@.len(),
            None => find_export_inst(exports@, name@) is None,
        },
{
    let mut i: usize = 0;
    while i < exports.len()
        invariant
            i <= exports@.len(),
            find_export_inst(exports@.take(i as int), name@) is None,
        decreases exports@.len() - i,
    {
        proof {
            assert(exports@.take(i + 1).drop_last() =~= exports@.take(i as int));
        }
        if exports[i].name.0 == *name {
            proof {
                lemma_find_export_inst_prefix(exports@, name@, (i + 1) as int);
                lemma_find_export_inst_bound(exports@, name@);
            }
            return Some(i);
        }
        i = i + 1;
    }
    proof {
        assert(exports@.take(i as int) =~= exports@);
    }
    None
}

proof fn lemma_find_export_inst_bound(exports: Seq<ExportInst>, name: Seq<char>)
    ensures
        find_export_inst(exports, name) matches Some(i) ==> 0 <= i < exports.len(),
    decreases exports.len(),
{
    if exports.len() > 0 {
        lemma_find_export_inst_bound(exports.drop_last(), name);
    }
}

proof fn lemma_find_export_inst_prefix(exports: Seq<ExportInst>, name: Seq<char>, n: int)
    requires
        0 <= n <= exports.len(),
        find_export_inst(exports.take(n), name) is Some,
    ensures
        find_export_inst(exports, name) == find_export_inst(exports.take(n), name),
    decreases exports.len() - n,
{
    if n < exports.len() {
        assert(exports.take(n + 1).drop_last() =~= exports.take(n));
        lemma_find_export_inst_prefix(exports, name, n + 1);
    } else {
        assert(exports.take(n) =~= exports);
    }
}

/// The dependencies of `module` on the module instance `lib` registered under
/// `lib_name`, in the order of the imports: each import takes the export of its name.
/// `None` where an import names another module, finds no export of its name, or finds
/// one of another kind.
pub fn resolve_imports(module: &Module, lib_name: &String, lib: &ModuleInst, store: &Store) -> (r: Option<
    Vec<ExternalDependency>,
>)
    ensures
        r is Some <==> forall|i: int|
            0 <= i < module.imports@.len() ==> import_resolves(#[trigger] module.imports@[i], lib_name@, *lib, *store),
        r matches Some(v) ==> v@.len() == module.imports@.len() && forall|i: int|
            0 <= i < module.imports@.len() ==> dependency_of(
                lib.exports@[find_export_inst(lib.exports@, module.imports@[i].name.0@)->0].value,
                module.imports@[i].desc,
                *store,
                #[trigger] v@[i],
            ),
{
    let mut externals: Vec<ExternalDependency> = Vec::new();
    let mut i: usize = 0;
    while i < module.imports.len()
        invariant
            i <= module.imports@.len(),
            externals@.len() == i,
            forall|j: int| 0 <= j < i ==> import_resolves(#[trigger] module.imports@[j], lib_name@, *lib, *store),
            forall|j: int|
                0 <= j < i ==> dependency_of(
                    lib.exports@[find_export_inst(lib.exports@, module.imports@[j].name.0@)->0].value,
                    module.imports@[j].desc,
                    *store,
                    #[trigger] externals@[j],
                ),
        decreases module.imports@.len() - i,
    {
        let import = &module.imports[i];
        if import.module.0 != *lib_name {
            return None;
        }
        let k = match find_export_inst_by_name(&lib.exports, &import.name.0) {
            Some(k) => k,
            None => return None,
        };
        let value = lib.exports[k].value;
        let dependency = match value {
            ExternVal::Func(func_addr) => match import.desc {
                ImportDescription::Func(_) => {
                    if func_addr >= store.funcs.len() {
                        return None;
                    }
                    ExternalDependency::Func { func_addr, func_type: store.funcs[func_addr].get_type().copy_type() }
                },
                _ => {
                    proof {
                        assert forall|d: ExternalDependency| !dependency_of(value, import.desc, *store, d) by {}
                    }
                    return None;
                },
            },
            ExternVal::Table(table_addr) => match import.desc {
                ImportDescription::Table(table_type) => ExternalDependency::Table { table_addr, table_type },
                _ => {
                    proof {
                        assert forall|d: ExternalDependency| !dependency_of(value, import.desc, *store, d) by {}
                    }
                    return None;
                },
            },
            ExternVal::Mem(mem_addr) => match import.desc {
                ImportDescription::Mem(mem_type) => ExternalDependency::Mem { mem_addr, mem_type },
                _ => {
                    proof {
                        assert forall|d: ExternalDependency| !dependency_of(value, import.desc, *store, d) by {}
                    }
                    return None;
                },
            },
            ExternVal::Global(global_addr) => match import.desc {
                ImportDescription::Global(global_type) => ExternalDependency::Global { global_addr, global_type },
                _ => {
                    proof {
                        assert forall|d: ExternalDependency| !dependency_of(value, import.desc, *store, d) by {}
                    }
                    return None;
                },
            },
        };
        assert(dependency_of(value, import.desc, *store, dependency));
        externals.push(dependency);
        i = i + 1;
    }
    Some(externals)
}

/// The stack on which `run_func` makes its call: `s` with a frame of the module
/// instance `m` without locals, and above it the arguments `vs`, the last first.
pub open spec fn call_stack(s: Seq<StackEntry>, m: Rc<ModuleInst>, vs: Seq<Val>, c: Seq<StackEntry>) -> bool {
    &&& c.len() == s.len() + 1 + vs.len()
    &&& c.take(s.len() as int) == s
    &&& c[s.len() as int] matches StackEntry::Frame(f) && f.module == m && f.locals@.len() == 0 && f.arity is None
    &&& forall|j: int| 0 <= j < vs.len() ==> #[trigger] c[s.len() + 1 + j] == StackEntry::Value(vs[vs.len() - 1 - j])
}

/// `vs`, the results that `run_func` returned, came from a call of the function of
/// index `idx` made on the stack `c` (`call_stack`) that left the stack `s1`: they
/// are its top values, and what lies below them is the stack after `run_func`.
pub open spec fn call_results(
    m: Rc<ModuleInst>,
    args: Seq<Val>,
    idx: u32,
    s: Seq<StackEntry>,
    st: Store,
    st2: Store,
    s2: Seq<StackEntry>,
    vs: Seq<Val>,
    c: Seq<StackEntry>,
    s1: Seq<StackEntry>,
    x: ExitType,
) -> bool {
    &&& instruction_post(InstructionType::Call(FuncIdx(U32Type(idx))), c, s1, st, st2, Ok::<ExitType, Trap>(x))
    &&& call_stack(s, m, args, c)
    &&& top_values(s1, vs.len())
    &&& vs == values_of(s1, vs.len())
    &&& s2 == s1.take(s1.len() - vs.len())
}

/// How a call of the function of index `idx` made on the stack `c` (`call_stack`)
/// failed: the call itself ended in an error (`x`) and left the stack `s1`, which is
/// the stack `s2` after `run_func`, or it returned without leaving its `n` results on
/// top of the stack `s1`.
pub open spec fn call_failed(
    m: Rc<ModuleInst>,
    args: Seq<Val>,
    idx: u32,
    s: Seq<StackEntry>,
    st: Store,
    st2: Store,
    s2: Seq<StackEntry>,
    n: nat,
    c: Seq<StackEntry>,
    s1: Seq<StackEntry>,
    x: RResult<ExitType>,
) -> bool {
    &&& call_stack(s, m, args, c)
    &&& instruction_post(InstructionType::Call(FuncIdx(U32Type(idx))), c, s1, st, st2, x)
    &&& (x is Err && s2 == s1 || x is Ok && !top_values(s1, n))
}

/// Calls the function that the module exports under `func_name` with the arguments
/// `values`, and returns its results. The call runs in a frame of the module
/// instance; the arguments go onto the stack last first.
pub fn run_func<F: FloatOps>(
    module_inst: Rc<ModuleInst>,
    module: &Module,
    func_name: &str,
    values: Vec<Val>,
    stack: &mut Stack,
    store: &mut Store,
    floats: &F,
) -> (r: RResult<Vec<Val>>)
    ensures
        match exported_func(*module_inst, *module, func_name@) {
            Some((idx, a)) => if a < old(store).funcs@.len() {
                &&& r matches Ok(vs) ==> vs@.len() == func_inst_type(old(store).funcs@[a as int]).results@.len()
                &&& r matches Ok(vs) ==> exists|c: Seq<StackEntry>, s1: Seq<StackEntry>, x: ExitType| #[trigger] call_results(
                    module_inst,
                    values@,
                    idx,
                    old(stack)@,
                    *old(store),
                    *final(store),
                    final(stack)@,
                    vs@,
                    c,
                    s1,
                    x,
                )
                &&& values@.len() < func_inst_type(old(store).funcs@[a as int]).parameters@.len() ==> r is Err
                &&& old(store).funcs@[a as int] is HostFunc ==> r is Err
                &&& r is Err && old(store).funcs@[a as int] is FuncInst && values@.len() >= func_inst_type(
                    old(store).funcs@[a as int],
                ).parameters@.len() ==> exists|c: Seq<StackEntry>, s1: Seq<StackEntry>, x: RResult<ExitType>| #[trigger] call_failed(
                    module_inst,
                    values@,
                    idx,
                    old(stack)@,
                    *old(store),
                    *final(store),
                    final(stack)@,
                    func_inst_type(old(store).funcs@[a as int]).results@.len(),
                    c,
                    s1,
                    x,
                )
            } else {
                r is Err && final(stack)@ == old(stack)@ && *final(store) == *old(store)
            },
            None => r is Err && final(stack)@ == old(stack)@ && *final(store) == *old(store),
        },
{
    let name = func_name.to_owned();
    let i = match find_export_by_name(&module.exports, &name) {
        Some(i) => i,
        None => return Err(Trap),
    };
    let func_idx = match module.exports[i].desc {
        ExportDescription::Func(func_idx) => func_idx,
        _ => return Err(Trap),
    };
    if func_idx.0.0 as usize >= module_inst.funcaddrs.len() {
        return Err(Trap);
    }
    let func_addr = module_inst.funcaddrs[func_idx.0.0 as usize];
    if func_addr >= store.funcs.len() {
        return Err(Trap);
    }
    let return_arity = store.funcs[func_addr].get_type().results.len();

    assert(exported_func(*module_inst, *module, func_name@) == Some((func_idx.0.0, func_addr)));
    let frame = Frame { module: module_inst.clone(), locals: Vec::new(), arity: None };
    stack.push_frame(frame);
    let ghost base = old(stack)@.len() as int;
    assert(stack@.take(base) =~= old(stack)@);
    let mut k: usize = values.len();
    while k > 0
        invariant
            k <= values@.len(),
            *store == *old(store),
            base == old(stack)@.len(),
            stack@.len() == base + 1 + (values@.len() - k),
            stack@[base] == StackEntry::Frame(frame),
            forall|j: int| base < j < stack@.len() ==> #[trigger] stack@[j] is Value,
            stack@.take(base) == old(stack)@,
            frame.module == module_inst && frame.locals@.len() == 0 && frame.arity is None,
            forall|j: int| 0 <= j < values@.len() - k ==> #[trigger] stack@[base + 1 + j] == StackEntry::Value(values@[values@.len() - 1 - j]),
        decreases k,
    {
        k = k - 1;
        let ghost prev = stack@;
        stack.push_value(values[k]);
        proof {
            assert(stack@.take(base) =~= prev.take(base));
            assert(stack@[base + 1 + (values@.len() - 1 - k)] == StackEntry::Value(values@[k as int]));
            assert forall|j: int| 0 <= j < values@.len() - k implies #[trigger] stack@[base + 1 + j] == StackEntry::Value(values@[values@.len() - 1 - j]) by {
                if j < values@.len() - k - 1 {
                    assert(stack@[base + 1 + j] == prev[base + 1 + j]);
                }
            }
        }
    }
    let ghost c = stack@;
    proof {
        assert(c.take(base) =~= old(stack)@);
        assert forall|j: int| 0 <= j < values@.len() implies #[trigger] c[base + 1 + j] == StackEntry::Value(values@[values@.len() - 1 - j]) by {}
        assert(call_stack(old(stack)@, module_inst, values@, c));
    }
    proof {
        let s = stack@;
        lemma_top_frame_index_bounds(s);
        match top_frame_index(s) {
            Some(i) => {
                if i < base {
                    assert(s[base] is Frame);
                } else if i > base {
                    assert(s[i] is Value);
                }
            },
            None => {
                assert(s[base] is Frame);
            },
        }
        assert(top_frame(s) == Some(frame));
        if values@.len() < func_inst_type(store.funcs@[func_addr as int]).parameters@.len() {
            assert(!top_values(s, func_inst_type(store.funcs@[func_addr as int]).parameters@.len())) by {
                assert(!(s[base] is Value));
            }
        }
    }

    let xr = execute_instruction(&InstructionType::Call(func_idx), stack, store, floats);
    let ghost s1 = stack@;
    proof {
        assert(func_idx == FuncIdx(U32Type(func_idx.0.0)));
        assert((exported_func(*module_inst, *module, func_name@)->0).0 == func_idx.0.0);
    }
    let x = match xr {
        Ok(x) => x,
        Err(e) => {
            proof {
                assert(call_failed(module_inst, values@, func_idx.0.0, old(stack)@, *old(store), *store, stack@, return_arity as nat, c, s1, xr));
            }
            return Err(e);
        },
    };
    let results = match pop_values_original_order(stack, return_arity) {
        Ok(v) => v,
        Err(e) => {
            proof {
                assert(call_failed(module_inst, values@, func_idx.0.0, old(stack)@, *old(store), *store, stack@, return_arity as nat, c, s1, xr));
            }
            return Err(e);
        },
    };
    proof {
        assert(func_idx == FuncIdx(U32Type(func_idx.0.0)));
        assert(call_results(module_inst, values@, func_idx.0.0, old(stack)@, *old(store), *store, stack@, results@, c, s1, x));
        assert((exported_func(*module_inst, *module, func_name@)->0).0 == func_idx.0.0);
        assert(exists|c2: Seq<StackEntry>, s2: Seq<StackEntry>, x2: ExitType| #[trigger] call_results(
            module_inst,
            values@,
            (exported_func(*module_inst, *module, func_name@)->0).0,
            old(stack)@,
            *old(store),
            *store,
            stack@,
            results@,
            c2,
            s2,
            x2,
        ));
    }
    Ok(results)
}

} // verus!
