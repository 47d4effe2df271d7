use vstd::prelude::*;

use crate::address::MemAddr;
use crate::execute::bytes::{le_bytes, le_value, lemma_le_bytes_len, lemma_le_value_bound, lemma_le_value_of_bytes, lemma_pow256_mono, lemma_pow256_values, pow256, read_le, write_le};
use crate::instances::stack::{lemma_top_frame_pop, top_frame, top_value, Stack, StackEntry};
use crate::instances::store::Store;
use crate::instances::value::Val;
use crate::result::{RResult, Trap};

verus! {

// How loads and stores reach memory: the memory is the first one of the current
// frame's module; the address is an i32 operand plus the static offset.

/// The address of the current frame's memory.
pub open spec fn frame_mem(s: Seq<StackEntry>) -> Option<MemAddr> {
    match top_frame(s) {
        Some(f) => if f.module.memaddrs@.len() > 0 {
            Some(f.module.memaddrs@[0])
        } else {
            None
        },
        None => None,
    }
}

/// A load fails before it pops anything: no memory, or no i32 address on top.
pub open spec fn load_fails_early(s: Seq<StackEntry>, store: Store) -> bool {
    match frame_mem(s) {
        Some(a) => a >= store.mems@.len() || !(top_value(s) matches Some(Val::I32(_))),
        None => true,
    }
}

/// The effective address of a load: the i32 on top plus the offset.
pub open spec fn load_ea(s: Seq<StackEntry>, offset: u32) -> int {
    match top_value(s) {
        Some(Val::I32(i)) => i + offset,
        _ => 0,
    }
}

/// The bytes of the current memory.
pub open spec fn frame_mem_data(s: Seq<StackEntry>, store: Store) -> Seq<u8> {
    store.mems@[frame_mem(s)->0 as int].data@
}

/// The `n` bytes a load reads are inside the memory.
pub open spec fn load_in_bounds(s: Seq<StackEntry>, store: Store, offset: u32, n: nat) -> bool {
    load_ea(s, offset) + n <= frame_mem_data(s, store).len()
}

/// The `n` bytes a load reads.
pub open spec fn load_bytes(s: Seq<StackEntry>, store: Store, offset: u32, n: nat) -> Seq<u8> {
    frame_mem_data(s, store).subrange(load_ea(s, offset), load_ea(s, offset) + n)
}

/// The effect of a load of `n` bytes that pushes `mk` of the bytes read.
pub open spec fn load_post(before: Seq<StackEntry>, after: Seq<StackEntry>, r: RResult<()>, store: Store, offset: u32, n: nat, mk: spec_fn(Seq<u8>) -> Val) -> bool {
    if load_fails_early(before, store) {
        r is Err && after == before
    } else if !load_in_bounds(before, store, offset, n) {
        r is Err && after == before.drop_last()
    } else {
        r is Ok && after == before.drop_last().push(StackEntry::Value(mk(load_bytes(before, store, offset, n))))
    }
}

pub fn get_mem_addr(stack: &Stack) -> (r: RResult<MemAddr>)
    ensures
        match frame_mem(stack@) {
            Some(a) => r == Ok::<MemAddr, Trap>(a),
            None => r is Err,
        },
{
    match stack.current_frame() {
        Some(frame) => {
            if frame.module.memaddrs.len() > 0 {
                Ok(frame.module.memaddrs[0])
            } else {
                Err(Trap)
            }
        },
        None => Err(Trap),
    }
}

/// Pops the address operand of a load and reads the `n` bytes there.
pub fn load_le(stack: &mut Stack, store: &Store, offset: u32, n: usize) -> (r: RResult<u128>)
    requires
        n <= 16,
    ensures
        load_fails_early(old(stack)@, *store) ==> r is Err && final(stack)@ == old(stack)@,
        !load_fails_early(old(stack)@, *store) ==> final(stack)@ == old(stack)@.drop_last() && if load_in_bounds(old(stack)@, *store, offset, n as nat) {
            r == Ok::<u128, Trap>(le_value(load_bytes(old(stack)@, *store, offset, n as nat)) as u128)
        } else {
            r is Err
        },
{
    let mem_addr = get_mem_addr(stack)?;
    if mem_addr >= store.mems.len() {
        return Err(Trap);
    }
    let i = match stack.pop_i32() {
        Some(i) => i,
        None => return Err(Trap),
    };
    let ea: u64 = i as u64 + offset as u64;
    let data = &store.mems[mem_addr].data;
    if ea + n as u64 > data.len() as u64 {
        return Err(Trap);
    }
    let v = read_le(data, ea as usize, n);
    proof {
        lemma_le_value_bound(data@.subrange(ea as int, ea + n));
        lemma_pow256_values();
        lemma_pow256_mono(n as nat, 16);
    }
    Ok(v)
}

/// A store fails before it pops anything: no memory, or no value of the right
/// kind on top.
pub open spec fn store_fails_early(s: Seq<StackEntry>, store: Store, t: Option<nat>) -> bool {
    match frame_mem(s) {
        Some(a) => a >= store.mems@.len() || t is None,
        None => true,
    }
}

/// `after` is `before` with the bytes of memory `a` replaced by `data`.
pub open spec fn mem_written(before: Store, after: Store, a: int, data: Seq<u8>) -> bool {
    &&& after.mems@.len() == before.mems@.len()
    &&& forall|j: int| 0 <= j < before.mems@.len() && j != a ==> after.mems@[j] == before.mems@[j]
    &&& after.mems@[a].mem_type == before.mems@[a].mem_type
    &&& after.mems@[a].data@ == data
    &&& after.funcs == before.funcs
    &&& after.tables == before.tables
    &&& after.globals == before.globals
    &&& after.elems == before.elems
    &&& after.datas == before.datas
}

/// The effect of a store of the `n` low bytes of `t`, the value on top (`None` when
/// the top is not a value of the instruction's kind), at the i32 address below it.
pub open spec fn store_post(before: Seq<StackEntry>, after: Seq<StackEntry>, r: RResult<()>, sb: Store, sa: Store, offset: u32, n: nat, t: Option<nat>) -> bool {
    if store_fails_early(before, sb, t) {
        r is Err && after == before && sa == sb
    } else {
        let s1 = before.drop_last();
        if !(top_value(s1) matches Some(Val::I32(_))) {
            r is Err && after == s1 && sa == sb
        } else if !load_in_bounds(s1, sb, offset, n) {
            r is Err && after == s1.drop_last() && sa == sb
        } else {
            let data = frame_mem_data(s1, sb);
            let ea = load_ea(s1, offset);
            r is Ok && after == s1.drop_last() && mem_written(
                sb,
                sa,
                frame_mem(before)->0 as int,
                data.subrange(0, ea) + le_bytes(t->0, n) + data.subrange(ea + n, data.len() as int),
            )
        }
    }
}

/// Writes the `n` low bytes of `t` at the i32 address on top of the stack, which it
/// pops; the value `t` has been popped already.
pub fn store_le(stack: &mut Stack, store: &mut Store, mem_addr: MemAddr, offset: u32, n: usize, t: u128) -> (r: RResult<()>)
    requires
        n <= 16,
        mem_addr < old(store).mems@.len(),
    ensures
        !(top_value(old(stack)@) matches Some(Val::I32(_))) ==> r is Err && final(stack)@ == old(stack)@ && *final(store) == *old(store),
        top_value(old(stack)@) matches Some(Val::I32(i)) ==> final(stack)@ == old(stack)@.drop_last() && {
            let data = old(store).mems@[mem_addr as int].data@;
            let ea = i + offset;
            if ea + n <= data.len() {
                r is Ok && mem_written(*old(store), *final(store), mem_addr as int, data.subrange(0, ea) + le_bytes(t as nat, n as nat) + data.subrange(ea + n, data.len() as int))
            } else {
                r is Err && *final(store) == *old(store)
            }
        },
{
    let i = match stack.pop_i32() {
        Some(i) => i,
        None => return Err(Trap),
    };
    let ea: u64 = i as u64 + offset as u64;
    if ea + n as u64 > store.mems[mem_addr].data.len() as u64 {
        return Err(Trap);
    }
    let mem = &mut store.mems[mem_addr];
    write_le(&mut mem.data, ea as usize, n, t);
    Ok(())
}

/// Memory reads back what was written to it: after a store has written the `n` low
/// bytes of `t` (a store whose address operand is the i32 below the stored value), a
/// load of `n` bytes from a stack whose frame has the same memory and whose top is the
/// same address succeeds and reads `t` modulo 256^n.
pub proof fn law_load_after_store(before: Seq<StackEntry>, after: Seq<StackEntry>, sb: Store, sa: Store, offset: u32, n: nat, t: nat, s2: Seq<StackEntry>)
    requires
        store_post(before, after, Ok(()), sb, sa, offset, n, Some(t)),
        frame_mem(s2) == frame_mem(before),
        top_value(s2) == top_value(before.drop_last()),
    ensures
        !load_fails_early(s2, sa),
        load_in_bounds(s2, sa, offset, n),
        le_value(load_bytes(s2, sa, offset, n)) == t % pow256(n),
{
    let s1 = before.drop_last();
    let data = frame_mem_data(s1, sb);
    let ea = load_ea(s1, offset);
    lemma_le_bytes_len(t, n);
    lemma_top_frame_pop(before);
    let written = data.subrange(0, ea) + le_bytes(t, n) + data.subrange(ea + n, data.len() as int);
    assert(frame_mem_data(s2, sa) == written);
    assert(load_bytes(s2, sa, offset, n) =~= le_bytes(t, n));
    lemma_le_value_of_bytes(t, n);
}

} // verus!
