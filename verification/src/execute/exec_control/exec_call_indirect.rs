use vstd::prelude::*;

use crate::address::TableAddr;
use crate::entities::instructions::CallIndirectArg;
use crate::entities::types::FuncType;
use crate::execute::exec_control::utils::{invoke, invoke_post, invoke_run_post};
use crate::execute::executor::ExitType;
use crate::execute::float::FloatOps;
use crate::instances::func::func_inst_type;
use crate::instances::ref_inst::RefInst;
use crate::instances::stack::{top_frame, top_value, Stack, StackEntry};
use crate::instances::store::{same_func_type, Store};
use crate::instances::value::Val;
use crate::result::{RResult, Trap};

verus! {

/// Whether two function types have the same parameters and results.
pub fn func_type_eq(a: &FuncType, b: &FuncType) -> (r: bool)
    ensures
        r == same_func_type(*a, *b),
{
    if a.parameters.len() != b.parameters.len() || a.results.len() != b.results.len() {
        return false;
    }
    let mut i: usize = 0;
    while i < a.parameters.len()
        invariant
            a.parameters@.len() == b.parameters@.len(),
            i <= a.parameters@.len(),
            forall|j: int| 0 <= j < i ==> a.parameters@[j] == b.parameters@[j],
        decreases a.parameters@.len() - i,
    {
        if a.parameters[i] != b.parameters[i] {
            return false;
        }
        i = i + 1;
    }
    let mut k: usize = 0;
    while k < a.results.len()
        invariant
            a.results@.len() == b.results@.len(),
            k <= a.results@.len(),
            forall|j: int| 0 <= j < k ==> a.results@[j] == b.results@[j],
        decreases a.results@.len() - k,
    {
        if a.results[k] != b.results[k] {
            return false;
        }
        k = k + 1;
    }
    proof {
        assert(a.parameters@ =~= b.parameters@);
        assert(a.results@ =~= b.results@);
    }
    true
}

/// The function that `call_indirect` calls: the table entry that the index on top of
/// the stack selects, where that entry refers to a function of the expected type.
pub open spec fn call_indirect_target(s: Seq<StackEntry>, st: Store, arg: CallIndirectArg) -> Option<int> {
    match top_frame(s) {
        Some(f) => {
            let ti = arg.0.0.0 as int;
            let ty = arg.1.0.0 as int;
            if ti < f.module.tableaddrs@.len() && f.module.tableaddrs@[ti] < st.tables@.len() && ty
                < f.module.types@.len() {
                let tab = st.tables@[f.module.tableaddrs@[ti] as int];
                match top_value(s) {
                    Some(Val::I32(i)) => if (i as int) < tab.elem@.len() {
                        match tab.elem@[i as int] {
                            RefInst::Func(a) => if a < st.funcs@.len() && same_func_type(
                                func_inst_type(st.funcs@[a as int]),
                                f.module.types@[ty],
                            ) {
                                Some(a as int)
                            } else {
                                None
                            },
                            _ => None,
                        }
                    } else {
                        None
                    },
                    _ => None,
                }
            } else {
                None
            }
        },
        None => None,
    }
}

/// Whether `call_indirect` gets as far as popping its index: the current frame's module
/// has the table and the type that the operand names, the table exists in the store,
/// and an `i32` is on top of the stack.
pub open spec fn call_indirect_pops(s: Seq<StackEntry>, st: Store, arg: CallIndirectArg) -> bool {
    match top_frame(s) {
        Some(f) => {
            let ti = arg.0.0.0 as int;
            let ty = arg.1.0.0 as int;
            &&& ti < f.module.tableaddrs@.len()
            &&& f.module.tableaddrs@[ti] < st.tables@.len()
            &&& ty < f.module.types@.len()
            &&& top_value(s) matches Some(Val::I32(_))
        },
        None => false,
    }
}

/// `call_indirect`: pops an index into a table and calls the function that the entry
/// refers to, after checking its type.
pub fn exec_call_indirect<F: FloatOps>(
    stack: &mut Stack,
    store: &mut Store,
    arg: &CallIndirectArg,
    floats: &F,
    fuel: u64,
) -> (r: RResult<ExitType>)
    ensures
        match call_indirect_target(old(stack)@, *old(store), *arg) {
            Some(a) => invoke_post(old(stack)@.drop_last(), final(stack)@, *old(store), *final(store), a, r)
                && invoke_run_post(old(stack)@.drop_last(), final(stack)@, *old(store), *final(store), a, fuel as nat, r),
            None => {
                &&& r is Err
                &&& *final(store) == *old(store)
                &&& final(stack)@ == if call_indirect_pops(old(stack)@, *old(store), *arg) {
                    old(stack)@.drop_last()
                } else {
                    old(stack)@
                }
            },
        },
    decreases fuel, 4nat,
{
    let ghost s = old(stack)@;
    let table_idx = arg.0.0.0;
    let type_idx = arg.1.0.0;
    let table_addr = get_table_addr(stack, table_idx)?;
    if table_addr >= store.tables.len() {
        return Err(Trap);
    }
    let expected_type = match stack.current_frame() {
        Some(frame) => {
            if (type_idx as usize) < frame.module.types.len() {
                frame.module.types[type_idx as usize].copy_type()
            } else {
                return Err(Trap);
            }
        },
        None => return Err(Trap),
    };
    let i = match stack.pop_i32() {
        Some(i) => i,
        None => return Err(Trap),
    };
    let table_inst = &store.tables[table_addr];
    if i as usize >= table_inst.elem.len() {
        return Err(Trap);
    }
    let reference = &table_inst.elem[i as usize];
    if reference.is_null() {
        return Err(Trap);
    }
    let a = reference.as_func()?;
    if a >= store.funcs.len() {
        return Err(Trap);
    }
    if !func_type_eq(store.funcs[a].get_type(), &expected_type) {
        return Err(Trap);
    }
    invoke(stack, store, a, floats, fuel)
}

/// The address of table `idx` of the current frame's module.
fn get_table_addr(stack: &Stack, idx: u32) -> (r: RResult<TableAddr>)
    ensures
        match top_frame(stack@) {
            Some(f) => if (idx as int) < f.module.tableaddrs@.len() {
                r == Ok::<TableAddr, Trap>(f.module.tableaddrs@[idx as int])
            } else {
                r is Err
            },
            None => r is Err,
        },
{
    match stack.current_frame() {
        Some(frame) => {
            if (idx as usize) < frame.module.tableaddrs.len() {
                Ok(frame.module.tableaddrs[idx as usize])
            } else {
                Err(Trap)
            }
        },
        None => Err(Trap),
    }
}

} // verus!
