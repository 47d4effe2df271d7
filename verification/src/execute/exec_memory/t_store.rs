use vstd::prelude::*;

use crate::entities::instructions::{MemArg, MemArgLane};
use crate::execute::bytes::{le_value, lemma_le_value_bound, lemma_pow256_values, pow256};
use crate::execute::exec_memory::access::{
    get_mem_addr, load_bytes, load_fails_early, load_in_bounds, load_le, load_post, store_le,
    store_post, frame_mem, mem_written, frame_mem_data, load_ea, store_fails_early,
};
use crate::execute::exec_vec::{lane16, lane32, lane64, lane8, sext};
use crate::instances::stack::{lemma_top_frame_pop, top_value, Stack, StackEntry};
use crate::instances::store::Store;
use crate::instances::value::Val;
use crate::result::{RResult, Trap};
use crate::sign::Sign;

verus! {

/// Stores the 4 low bytes of the popped value, little-endian, at the popped i32
/// address plus the offset.
pub fn i32_store(stack: &mut Stack, store: &mut Store, memarg: &MemArg) -> (r: RResult<()>)
    ensures
        store_post(old(stack)@, final(stack)@, r, *old(store), *final(store), memarg.0.0, 4, match top_value(old(stack)@) {
            Some(Val::I32(t)) => Some(t as nat),
            _ => None,
        }),
{
    let mem_addr = get_mem_addr(stack)?;
    if mem_addr >= store.mems.len() {
        return Err(Trap);
    }
    let t = match stack.pop_i32() {
        Some(t) => t,
        None => return Err(Trap),
    };
    proof {
        lemma_top_frame_pop(old(stack)@);
    }
    store_le(stack, store, mem_addr, memarg.0.0, 4, t as u128)
}

/// Stores the 8 low bytes of the popped value, little-endian, at the popped i32
/// address plus the offset.
pub fn i64_store(stack: &mut Stack, store: &mut Store, memarg: &MemArg) -> (r: RResult<()>)
    ensures
        store_post(old(stack)@, final(stack)@, r, *old(store), *final(store), memarg.0.0, 8, match top_value(old(stack)@) {
            Some(Val::I64(t)) => Some(t as nat),
            _ => None,
        }),
{
    let mem_addr = get_mem_addr(stack)?;
    if mem_addr >= store.mems.len() {
        return Err(Trap);
    }
    let t = match stack.pop_i64() {
        Some(t) => t,
        None => return Err(Trap),
    };
    proof {
        lemma_top_frame_pop(old(stack)@);
    }
    store_le(stack, store, mem_addr, memarg.0.0, 8, t as u128)
}

/// Stores the 4 low bytes of the popped value, little-endian, at the popped i32
/// address plus the offset.
pub fn f32_store(stack: &mut Stack, store: &mut Store, memarg: &MemArg) -> (r: RResult<()>)
    ensures
        store_post(old(stack)@, final(stack)@, r, *old(store), *final(store), memarg.0.0, 4, match top_value(old(stack)@) {
            Some(Val::F32(t)) => Some(t as nat),
            _ => None,
        }),
{
    let mem_addr = get_mem_addr(stack)?;
    if mem_addr >= store.mems.len() {
        return Err(Trap);
    }
    let t = match stack.pop_f32() {
        Some(t) => t,
        None => return Err(Trap),
    };
    proof {
        lemma_top_frame_pop(old(stack)@);
    }
    store_le(stack, store, mem_addr, memarg.0.0, 4, t as u128)
}

/// Stores the 8 low bytes of the popped value, little-endian, at the popped i32
/// address plus the offset.
pub fn f64_store(stack: &mut Stack, store: &mut Store, memarg: &MemArg) -> (r: RResult<()>)
    ensures
        store_post(old(stack)@, final(stack)@, r, *old(store), *final(store), memarg.0.0, 8, match top_value(old(stack)@) {
            Some(Val::F64(t)) => Some(t as nat),
            _ => None,
        }),
{
    let mem_addr = get_mem_addr(stack)?;
    if mem_addr >= store.mems.len() {
        return Err(Trap);
    }
    let t = match stack.pop_f64() {
        Some(t) => t,
        None => return Err(Trap),
    };
    proof {
        lemma_top_frame_pop(old(stack)@);
    }
    store_le(stack, store, mem_addr, memarg.0.0, 8, t as u128)
}

/// Stores the 1 low bytes of the popped value, little-endian, at the popped i32
/// address plus the offset.
pub fn i32_store8(stack: &mut Stack, store: &mut Store, memarg: &MemArg) -> (r: RResult<()>)
    ensures
        store_post(old(stack)@, final(stack)@, r, *old(store), *final(store), memarg.0.0, 1, match top_value(old(stack)@) {
            Some(Val::I32(t)) => Some(t as nat),
            _ => None,
        }),
{
    let mem_addr = get_mem_addr(stack)?;
    if mem_addr >= store.mems.len() {
        return Err(Trap);
    }
    let t = match stack.pop_i32() {
        Some(t) => t,
        None => return Err(Trap),
    };
    proof {
        lemma_top_frame_pop(old(stack)@);
    }
    store_le(stack, store, mem_addr, memarg.0.0, 1, t as u128)
}

/// Stores the 2 low bytes of the popped value, little-endian, at the popped i32
/// address plus the offset.
pub fn i32_store16(stack: &mut Stack, store: &mut Store, memarg: &MemArg) -> (r: RResult<()>)
    ensures
        store_post(old(stack)@, final(stack)@, r, *old(store), *final(store), memarg.0.0, 2, match top_value(old(stack)@) {
            Some(Val::I32(t)) => Some(t as nat),
            _ => None,
        }),
{
    let mem_addr = get_mem_addr(stack)?;
    if mem_addr >= store.mems.len() {
        return Err(Trap);
    }
    let t = match stack.pop_i32() {
        Some(t) => t,
        None => return Err(Trap),
    };
    proof {
        lemma_top_frame_pop(old(stack)@);
    }
    store_le(stack, store, mem_addr, memarg.0.0, 2, t as u128)
}

/// Stores the 1 low bytes of the popped value, little-endian, at the popped i32
/// address plus the offset.
pub fn i64_store8(stack: &mut Stack, store: &mut Store, memarg: &MemArg) -> (r: RResult<()>)
    ensures
        store_post(old(stack)@, final(stack)@, r, *old(store), *final(store), memarg.0.0, 1, match top_value(old(stack)@) {
            Some(Val::I64(t)) => Some(t as nat),
            _ => None,
        }),
{
    let mem_addr = get_mem_addr(stack)?;
    if mem_addr >= store.mems.len() {
        return Err(Trap);
    }
    let t = match stack.pop_i64() {
        Some(t) => t,
        None => return Err(Trap),
    };
    proof {
        lemma_top_frame_pop(old(stack)@);
    }
    store_le(stack, store, mem_addr, memarg.0.0, 1, t as u128)
}

/// Stores the 2 low bytes of the popped value, little-endian, at the popped i32
/// address plus the offset.
pub fn i64_store16(stack: &mut Stack, store: &mut Store, memarg: &MemArg) -> (r: RResult<()>)
    ensures
        store_post(old(stack)@, final(stack)@, r, *old(store), *final(store), memarg.0.0, 2, match top_value(old(stack)@) {
            Some(Val::I64(t)) => Some(t as nat),
            _ => None,
        }),
{
    let mem_addr = get_mem_addr(stack)?;
    if mem_addr >= store.mems.len() {
        return Err(Trap);
    }
    let t = match stack.pop_i64() {
        Some(t) => t,
        None => return Err(Trap),
    };
    proof {
        lemma_top_frame_pop(old(stack)@);
    }
    store_le(stack, store, mem_addr, memarg.0.0, 2, t as u128)
}

/// Stores the 4 low bytes of the popped value, little-endian, at the popped i32
/// address plus the offset.
pub fn i64_store32(stack: &mut Stack, store: &mut Store, memarg: &MemArg) -> (r: RResult<()>)
    ensures
        store_post(old(stack)@, final(stack)@, r, *old(store), *final(store), memarg.0.0, 4, match top_value(old(stack)@) {
            Some(Val::I64(t)) => Some(t as nat),
            _ => None,
        }),
{
    let mem_addr = get_mem_addr(stack)?;
    if mem_addr >= store.mems.len() {
        return Err(Trap);
    }
    let t = match stack.pop_i64() {
        Some(t) => t,
        None => return Err(Trap),
    };
    proof {
        lemma_top_frame_pop(old(stack)@);
    }
    store_le(stack, store, mem_addr, memarg.0.0, 4, t as u128)
}

/// Stores the 16 low bytes of the popped value, little-endian, at the popped i32
/// address plus the offset.
pub fn v128_store(stack: &mut Stack, store: &mut Store, memarg: &MemArg) -> (r: RResult<()>)
    ensures
        store_post(old(stack)@, final(stack)@, r, *old(store), *final(store), memarg.0.0, 16, match top_value(old(stack)@) {
            Some(Val::Vec(t)) => Some(t as nat),
            _ => None,
        }),
{
    let mem_addr = get_mem_addr(stack)?;
    if mem_addr >= store.mems.len() {
        return Err(Trap);
    }
    let t = match stack.pop_v128() {
        Some(t) => t,
        None => return Err(Trap),
    };
    proof {
        lemma_top_frame_pop(old(stack)@);
    }
    store_le(stack, store, mem_addr, memarg.0.0, 16, t as u128)
}

/// Stores lane `arg.1` of the popped vector, little-endian, at the popped i32 address
/// plus the offset. A lane index of 16 or more traps once both operands are popped.
pub fn v128_store8_lane(stack: &mut Stack, store: &mut Store, arg: &MemArgLane) -> (r: RResult<()>)
    ensures
        arg.1.0 < 16 ==> store_post(old(stack)@, final(stack)@, r, *old(store), *final(store), arg.0.0.0, 1, match top_value(old(stack)@) {
            Some(Val::Vec(t)) => Some(lane8(t, arg.1.0 as int) as nat),
            _ => None,
        }),
        arg.1.0 >= 16 ==> r is Err && *final(store) == *old(store),
{
    let mem_addr = get_mem_addr(stack)?;
    if mem_addr >= store.mems.len() {
        return Err(Trap);
    }
    let t = match stack.pop_v128() {
        Some(t) => t,
        None => return Err(Trap),
    };
    if arg.1.0 >= 16 {
        let _ = stack.pop_i32();
        return Err(Trap);
    }
    let lanes = crate::execute::exec_vec::lanes_of_8(t);
    let lane = lanes[arg.1.0 as usize];
    proof {
        lemma_top_frame_pop(old(stack)@);
    }
    store_le(stack, store, mem_addr, arg.0.0.0, 1, lane as u128)
}

/// Stores lane `arg.1` of the popped vector, little-endian, at the popped i32 address
/// plus the offset. A lane index of 8 or more traps once both operands are popped.
pub fn v128_store16_lane(stack: &mut Stack, store: &mut Store, arg: &MemArgLane) -> (r: RResult<()>)
    ensures
        arg.1.0 < 8 ==> store_post(old(stack)@, final(stack)@, r, *old(store), *final(store), arg.0.0.0, 2, match top_value(old(stack)@) {
            Some(Val::Vec(t)) => Some(lane16(t, arg.1.0 as int) as nat),
            _ => None,
        }),
        arg.1.0 >= 8 ==> r is Err && *final(store) == *old(store),
{
    let mem_addr = get_mem_addr(stack)?;
    if mem_addr >= store.mems.len() {
        return Err(Trap);
    }
    let t = match stack.pop_v128() {
        Some(t) => t,
        None => return Err(Trap),
    };
    if arg.1.0 >= 8 {
        let _ = stack.pop_i32();
        return Err(Trap);
    }
    let lanes = crate::execute::exec_vec::lanes_of_16(t);
    let lane = lanes[arg.1.0 as usize];
    proof {
        lemma_top_frame_pop(old(stack)@);
    }
    store_le(stack, store, mem_addr, arg.0.0.0, 2, lane as u128)
}

/// Stores lane `arg.1` of the popped vector, little-endian, at the popped i32 address
/// plus the offset. A lane index of 4 or more traps once both operands are popped.
pub fn v128_store32_lane(stack: &mut Stack, store: &mut Store, arg: &MemArgLane) -> (r: RResult<()>)
    ensures
        arg.1.0 < 4 ==> store_post(old(stack)@, final(stack)@, r, *old(store), *final(store), arg.0.0.0, 4, match top_value(old(stack)@) {
            Some(Val::Vec(t)) => Some(lane32(t, arg.1.0 as int) as nat),
            _ => None,
        }),
        arg.1.0 >= 4 ==> r is Err && *final(store) == *old(store),
{
    let mem_addr = get_mem_addr(stack)?;
    if mem_addr >= store.mems.len() {
        return Err(Trap);
    }
    let t = match stack.pop_v128() {
        Some(t) => t,
        None => return Err(Trap),
    };
    if arg.1.0 >= 4 {
        let _ = stack.pop_i32();
        return Err(Trap);
    }
    let lanes = crate::execute::exec_vec::lanes_of_32(t);
    let lane = lanes[arg.1.0 as usize];
    proof {
        lemma_top_frame_pop(old(stack)@);
    }
    store_le(stack, store, mem_addr, arg.0.0.0, 4, lane as u128)
}

/// Stores lane `arg.1` of the popped vector, little-endian, at the popped i32 address
/// plus the offset. A lane index of 2 or more traps once both operands are popped.
pub fn v128_store64_lane(stack: &mut Stack, store: &mut Store, arg: &MemArgLane) -> (r: RResult<()>)
    ensures
        arg.1.0 < 2 ==> store_post(old(stack)@, final(stack)@, r, *old(store), *final(store), arg.0.0.0, 8, match top_value(old(stack)@) {
            Some(Val::Vec(t)) => Some(lane64(t, arg.1.0 as int) as nat),
            _ => None,
        }),
        arg.1.0 >= 2 ==> r is Err && *final(store) == *old(store),
{
    let mem_addr = get_mem_addr(stack)?;
    if mem_addr >= store.mems.len() {
        return Err(Trap);
    }
    let t = match stack.pop_v128() {
        Some(t) => t,
        None => return Err(Trap),
    };
    if arg.1.0 >= 2 {
        let _ = stack.pop_i32();
        return Err(Trap);
    }
    let lanes = crate::execute::exec_vec::lanes_of_64(t);
    let lane = lanes[arg.1.0 as usize];
    proof {
        lemma_top_frame_pop(old(stack)@);
    }
    store_le(stack, store, mem_addr, arg.0.0.0, 8, lane as u128)
}

} // verus!
