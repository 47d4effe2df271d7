use vstd::prelude::*;

use crate::entities::types::{GlobalIdx, LocalIdx};
use crate::instances::global::GlobalInst;
use crate::instances::stack::{
    lemma_local_replaced_top_frame, lemma_top_frame_pop, local_replaced, pop_value_spec, push_val,
    top_frame, top_frame_index, top_value, Stack, StackEntry,
};
use crate::instances::store::Store;
use crate::instances::value::Val;
use crate::result::{RResult, Trap};

verus! {

/// Local `idx` of the current frame.
pub open spec fn frame_local(s: Seq<StackEntry>, idx: int) -> Option<Val> {
    match top_frame(s) {
        Some(f) => if 0 <= idx < f.locals@.len() {
            Some(f.locals@[idx])
        } else {
            None
        },
        None => None,
    }
}

/// The address of global `idx` of the current frame's module.
pub open spec fn frame_global_addr(s: Seq<StackEntry>, idx: int) -> Option<usize> {
    match top_frame(s) {
        Some(f) => if 0 <= idx < f.module.globaladdrs@.len() {
            Some(f.module.globaladdrs@[idx])
        } else {
            None
        },
        None => None,
    }
}

/// Pushes local `idx` of the current frame.
pub fn local_get(stack: &mut Stack, idx: &LocalIdx) -> (r: RResult<()>)
    ensures
        match frame_local(old(stack)@, idx.0.0 as int) {
            Some(v) => r is Ok && final(stack)@ == push_val(old(stack)@, v),
            None => r is Err && final(stack)@ == old(stack)@,
        },
{
    let val = match stack.current_frame() {
        Some(frame) => {
            if (idx.0.0 as usize) < frame.locals.len() {
                frame.locals[idx.0.0 as usize]
            } else {
                return Err(Trap);
            }
        },
        None => return Err(Trap),
    };
    stack.push_value(val);
    Ok(())
}

/// Pops a value into local `idx` of the current frame.
pub fn local_set(stack: &mut Stack, idx: &LocalIdx) -> (r: RResult<()>)
    ensures
        match frame_local(old(stack)@, idx.0.0 as int) {
            Some(_) => match top_value(old(stack)@) {
                Some(v) => r is Ok && local_replaced(old(stack)@.drop_last(), final(stack)@, top_frame_index(old(stack)@)->0, idx.0.0 as int, v),
                None => r is Err && final(stack)@ == old(stack)@,
            },
            None => r is Err && final(stack)@ == old(stack)@,
        },
{
    let exists = match stack.current_frame() {
        Some(frame) => (idx.0.0 as usize) < frame.locals.len(),
        None => false,
    };
    if !exists {
        return Err(Trap);
    }
    let val = match stack.pop_value() {
        Some(v) => v,
        None => return Err(Trap),
    };
    proof {
        lemma_top_frame_pop(old(stack)@);
    }
    let done = stack.set_local(idx.0.0 as usize, val);
    if done {
        Ok(())
    } else {
        Err(Trap)
    }
}

/// Sets local `idx` of the current frame to the value on top, which stays. When
/// the local does not exist, the value is left twice on the stack.
pub fn local_tee(stack: &mut Stack, idx: &LocalIdx) -> (r: RResult<()>)
    ensures
        match top_value(old(stack)@) {
            Some(v) => match frame_local(old(stack)@, idx.0.0 as int) {
                Some(_) => r is Ok && local_replaced(old(stack)@, final(stack)@, top_frame_index(old(stack)@)->0, idx.0.0 as int, v),
                None => r is Err && final(stack)@ == push_val(old(stack)@, v),
            },
            None => r is Err && final(stack)@ == old(stack)@,
        },
{
    let val = match stack.pop_value() {
        Some(v) => v,
        None => return Err(Trap),
    };
    stack.push_value(val);
    stack.push_value(val);
    proof {
        assert(stack@.drop_last() =~= old(stack)@);
        lemma_top_frame_pop(stack@);
        lemma_top_frame_pop(old(stack)@);
    }
    local_set(stack, idx)
}

/// Pushes the value of global `idx` of the current frame's module.
pub fn global_get(stack: &mut Stack, store: &Store, idx: &GlobalIdx) -> (r: RResult<()>)
    ensures
        match frame_global_addr(old(stack)@, idx.0.0 as int) {
            Some(a) => if a < store.globals@.len() {
                r is Ok && final(stack)@ == push_val(old(stack)@, store.globals@[a as int].value)
            } else {
                r is Err && final(stack)@ == old(stack)@
            },
            None => r is Err && final(stack)@ == old(stack)@,
        },
{
    let addr = match stack.current_frame() {
        Some(frame) => {
            if (idx.0.0 as usize) < frame.module.globaladdrs.len() {
                frame.module.globaladdrs[idx.0.0 as usize]
            } else {
                return Err(Trap);
            }
        },
        None => return Err(Trap),
    };
    if addr >= store.globals.len() {
        return Err(Trap);
    }
    let global_val = store.globals[addr].value;
    stack.push_value(global_val);
    Ok(())
}

/// Pops a value into global `idx` of the current frame's module.
pub fn global_set(stack: &mut Stack, store: &mut Store, idx: &GlobalIdx) -> (r: RResult<()>)
    ensures
        match frame_global_addr(old(stack)@, idx.0.0 as int) {
            Some(a) => if a < old(store).globals@.len() {
                final(stack)@ == pop_value_spec(old(stack)@) && match top_value(old(stack)@) {
                    Some(v) => r is Ok && final(store).globals@ == old(store).globals@.update(
                        a as int,
                        GlobalInst { global_type: old(store).globals@[a as int].global_type, value: v },
                    ) && final(store).funcs == old(store).funcs && final(store).tables == old(store).tables
                        && final(store).mems == old(store).mems && final(store).elems == old(store).elems
                        && final(store).datas == old(store).datas,
                    None => r is Err && *final(store) == *old(store),
                }
            } else {
                r is Err && final(stack)@ == old(stack)@ && *final(store) == *old(store)
            },
            None => r is Err && final(stack)@ == old(stack)@ && *final(store) == *old(store),
        },
{
    let addr = match stack.current_frame() {
        Some(frame) => {
            if (idx.0.0 as usize) < frame.module.globaladdrs.len() {
                frame.module.globaladdrs[idx.0.0 as usize]
            } else {
                return Err(Trap);
            }
        },
        None => return Err(Trap),
    };
    if addr >= store.globals.len() {
        return Err(Trap);
    }
    let val = match stack.pop_value() {
        Some(v) => v,
        None => return Err(Trap),
    };
    let global_type = store.globals[addr].global_type;
    store.globals.set(addr, GlobalInst { global_type, value: val });
    Ok(())
}

/// A local reads back what was written to it: after `local.set idx` has moved the
/// value on top of the stack into local `idx`, that local holds the value, and every
/// other local of the frame holds what it held before.
pub proof fn law_local_get_after_set(before: Seq<StackEntry>, after: Seq<StackEntry>, idx: int)
    requires
        frame_local(before, idx) is Some,
        top_value(before) is Some,
        local_replaced(before.drop_last(), after, top_frame_index(before)->0, idx, top_value(before)->0),
    ensures
        frame_local(after, idx) == top_value(before),
        forall|j: int| j != idx ==> #[trigger] frame_local(after, j) == frame_local(before, j),
{
    lemma_top_frame_pop(before);
    lemma_local_replaced_top_frame(before.drop_last(), after, top_frame_index(before)->0, idx, top_value(before)->0);
}

/// A global reads back what was written to it: after `global.set idx` has moved the
/// value on top of the stack into the global at address `a`, `global.get idx` on the
/// resulting stack finds the same address, and the global there holds the value.
pub proof fn law_global_get_after_set(before: Seq<StackEntry>, sb: Store, sa: Store, idx: int, a: usize)
    requires
        frame_global_addr(before, idx) == Some(a),
        a < sb.globals@.len(),
        top_value(before) is Some,
        sa.globals@ == sb.globals@.update(
            a as int,
            GlobalInst { global_type: sb.globals@[a as int].global_type, value: top_value(before)->0 },
        ),
    ensures
        frame_global_addr(pop_value_spec(before), idx) == Some(a),
        a < sa.globals@.len(),
        sa.globals@[a as int].value == top_value(before)->0,
{
    lemma_top_frame_pop(before);
}

} // verus!
