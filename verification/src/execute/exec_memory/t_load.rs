use vstd::prelude::*;

use crate::entities::instructions::{MemArg, MemArgLane};
use crate::entities::types::LaneIdx;
use crate::execute::bytes::{le_value, lemma_le_value_bound, lemma_pow256_values, pow256};
use crate::execute::exec_memory::access::{
    get_mem_addr, load_bytes, load_fails_early, load_in_bounds, load_le, load_post, store_le,
    store_post, frame_mem, mem_written, frame_mem_data, load_ea, store_fails_early,
};
use crate::execute::exec_vec::{lane16, lane32, lane64, lane8, sext};
use crate::instances::stack::{lemma_top_frame_pop, top_value, Stack, StackEntry};
use crate::instances::store::Store;
use crate::instances::value::Val;
use crate::result::{RResult, Trap};
use crate::sign::Sign;

verus! {

/// Loads 4 little-endian bytes at the popped i32 address plus the offset.
pub fn i32_load(stack: &mut Stack, store: &mut Store, memarg: &MemArg) -> (r: RResult<()>)
    ensures
        load_post(old(stack)@, final(stack)@, r, *old(store), memarg.0.0, 4, |b: Seq<u8>| Val::I32(le_value(b) as u32)),
        *final(store) == *old(store),
{
    let v = load_le(stack, &*store, memarg.0.0, 4)?;
    proof {
        lemma_pow256_values();
        lemma_le_value_bound(load_bytes(old(stack)@, *old(store), memarg.0.0, 4));
    }
    stack.push_value(Val::I32(v as u32));
    Ok(())
}

/// Loads 8 little-endian bytes at the popped i32 address plus the offset.
pub fn i64_load(stack: &mut Stack, store: &mut Store, memarg: &MemArg) -> (r: RResult<()>)
    ensures
        load_post(old(stack)@, final(stack)@, r, *old(store), memarg.0.0, 8, |b: Seq<u8>| Val::I64(le_value(b) as u64)),
        *final(store) == *old(store),
{
    let v = load_le(stack, &*store, memarg.0.0, 8)?;
    proof {
        lemma_pow256_values();
        lemma_le_value_bound(load_bytes(old(stack)@, *old(store), memarg.0.0, 8));
    }
    stack.push_value(Val::I64(v as u64));
    Ok(())
}

/// Loads 4 little-endian bytes at the popped i32 address plus the offset.
pub fn f32_load(stack: &mut Stack, store: &mut Store, memarg: &MemArg) -> (r: RResult<()>)
    ensures
        load_post(old(stack)@, final(stack)@, r, *old(store), memarg.0.0, 4, |b: Seq<u8>| Val::F32(le_value(b) as u32)),
        *final(store) == *old(store),
{
    let v = load_le(stack, &*store, memarg.0.0, 4)?;
    proof {
        lemma_pow256_values();
        lemma_le_value_bound(load_bytes(old(stack)@, *old(store), memarg.0.0, 4));
    }
    stack.push_value(Val::F32(v as u32));
    Ok(())
}

/// Loads 8 little-endian bytes at the popped i32 address plus the offset.
pub fn f64_load(stack: &mut Stack, store: &mut Store, memarg: &MemArg) -> (r: RResult<()>)
    ensures
        load_post(old(stack)@, final(stack)@, r, *old(store), memarg.0.0, 8, |b: Seq<u8>| Val::F64(le_value(b) as u64)),
        *final(store) == *old(store),
{
    let v = load_le(stack, &*store, memarg.0.0, 8)?;
    proof {
        lemma_pow256_values();
        lemma_le_value_bound(load_bytes(old(stack)@, *old(store), memarg.0.0, 8));
    }
    stack.push_value(Val::F64(v as u64));
    Ok(())
}

/// Loads 1 little-endian bytes at the popped i32 address plus the offset.
pub fn i32_load_8(stack: &mut Stack, store: &mut Store, memarg: &MemArg, sign: Sign) -> (r: RResult<()>)
    ensures
        load_post(old(stack)@, final(stack)@, r, *old(store), memarg.0.0, 1, |b: Seq<u8>| Val::I32((if sign is Signed { sext(le_value(b), 0x100, 0x1_0000_0000) } else { le_value(b) }) as u32)),
        *final(store) == *old(store),
{
    let v = load_le(stack, &*store, memarg.0.0, 1)?;
    proof {
        lemma_pow256_values();
        lemma_le_value_bound(load_bytes(old(stack)@, *old(store), memarg.0.0, 1));
    }
    let c: u32 = match sign {
        Sign::Signed => if v < 0x100 / 2 {
            v as u32
        } else {
            (v + 0x1_0000_0000 - 0x100) as u32
        },
        Sign::Unsigned => v as u32,
    };
    stack.push_value(Val::I32(c));
    Ok(())
}

/// Loads 2 little-endian bytes at the popped i32 address plus the offset.
pub fn i32_load_16(stack: &mut Stack, store: &mut Store, memarg: &MemArg, sign: Sign) -> (r: RResult<()>)
    ensures
        load_post(old(stack)@, final(stack)@, r, *old(store), memarg.0.0, 2, |b: Seq<u8>| Val::I32((if sign is Signed { sext(le_value(b), 0x1_0000, 0x1_0000_0000) } else { le_value(b) }) as u32)),
        *final(store) == *old(store),
{
    let v = load_le(stack, &*store, memarg.0.0, 2)?;
    proof {
        lemma_pow256_values();
        lemma_le_value_bound(load_bytes(old(stack)@, *old(store), memarg.0.0, 2));
    }
    let c: u32 = match sign {
        Sign::Signed => if v < 0x1_0000 / 2 {
            v as u32
        } else {
            (v + 0x1_0000_0000 - 0x1_0000) as u32
        },
        Sign::Unsigned => v as u32,
    };
    stack.push_value(Val::I32(c));
    Ok(())
}

/// Loads 1 little-endian bytes at the popped i32 address plus the offset.
pub fn i64_load_8(stack: &mut Stack, store: &mut Store, memarg: &MemArg, sign: Sign) -> (r: RResult<()>)
    ensures
        load_post(old(stack)@, final(stack)@, r, *old(store), memarg.0.0, 1, |b: Seq<u8>| Val::I64((if sign is Signed { sext(le_value(b), 0x100, 0x1_0000_0000_0000_0000) } else { le_value(b) }) as u64)),
        *final(store) == *old(store),
{
    let v = load_le(stack, &*store, memarg.0.0, 1)?;
    proof {
        lemma_pow256_values();
        lemma_le_value_bound(load_bytes(old(stack)@, *old(store), memarg.0.0, 1));
    }
    let c: u64 = match sign {
        Sign::Signed => if v < 0x100 / 2 {
            v as u64
        } else {
            (v + 0x1_0000_0000_0000_0000 - 0x100) as u64
        },
        Sign::Unsigned => v as u64,
    };
    stack.push_value(Val::I64(c));
    Ok(())
}

/// Loads 2 little-endian bytes at the popped i32 address plus the offset.
pub fn i64_load_16(stack: &mut Stack, store: &mut Store, memarg: &MemArg, sign: Sign) -> (r: RResult<()>)
    ensures
        load_post(old(stack)@, final(stack)@, r, *old(store), memarg.0.0, 2, |b: Seq<u8>| Val::I64((if sign is Signed { sext(le_value(b), 0x1_0000, 0x1_0000_0000_0000_0000) } else { le_value(b) }) as u64)),
        *final(store) == *old(store),
{
    let v = load_le(stack, &*store, memarg.0.0, 2)?;
    proof {
        lemma_pow256_values();
        lemma_le_value_bound(load_bytes(old(stack)@, *old(store), memarg.0.0, 2));
    }
    let c: u64 = match sign {
        Sign::Signed => if v < 0x1_0000 / 2 {
            v as u64
        } else {
            (v + 0x1_0000_0000_0000_0000 - 0x1_0000) as u64
        },
        Sign::Unsigned => v as u64,
    };
    stack.push_value(Val::I64(c));
    Ok(())
}

/// Loads 4 little-endian bytes at the popped i32 address plus the offset.
pub fn i64_load_32(stack: &mut Stack, store: &mut Store, memarg: &MemArg, sign: Sign) -> (r: RResult<()>)
    ensures
        load_post(old(stack)@, final(stack)@, r, *old(store), memarg.0.0, 4, |b: Seq<u8>| Val::I64((if sign is Signed { sext(le_value(b), 0x1_0000_0000, 0x1_0000_0000_0000_0000) } else { le_value(b) }) as u64)),
        *final(store) == *old(store),
{
    let v = load_le(stack, &*store, memarg.0.0, 4)?;
    proof {
        lemma_pow256_values();
        lemma_le_value_bound(load_bytes(old(stack)@, *old(store), memarg.0.0, 4));
    }
    let c: u64 = match sign {
        Sign::Signed => if v < 0x1_0000_0000 / 2 {
            v as u64
        } else {
            (v + 0x1_0000_0000_0000_0000 - 0x1_0000_0000) as u64
        },
        Sign::Unsigned => v as u64,
    };
    stack.push_value(Val::I64(c));
    Ok(())
}

/// Loads 16 little-endian bytes as a vector.
pub fn v128_load(stack: &mut Stack, store: &mut Store, memarg: &MemArg) -> (r: RResult<()>)
    ensures
        load_post(old(stack)@, final(stack)@, r, *old(store), memarg.0.0, 16, |b: Seq<u8>| Val::Vec(le_value(b) as u128)),
        *final(store) == *old(store),
{
    let v = load_le(stack, &*store, memarg.0.0, 16)?;
    stack.push_value(Val::Vec(v));
    Ok(())
}

/// Lane `k` of a widening load: the `k`-th group of 1 bytes of `b`, extended.
pub open spec fn widen_lane_16(b: Seq<u8>, k: int, sign: Sign) -> u16 {
    let x = le_value(b.subrange(1 * k, 1 * k + 1));
    (if sign is Signed {
        sext(x, 0x100, 0x1_0000)
    } else {
        x
    }) as u16
}

/// Loads 8 bytes and widens each group of 1 into a lane of a vector, the first
/// group into the first lane.
pub fn v128_load_8x8(stack: &mut Stack, store: &mut Store, memarg: &MemArg, sign: Sign) -> (r: RResult<()>)
    ensures
        *final(store) == *old(store),
        load_fails_early(old(stack)@, *old(store)) ==> r is Err && final(stack)@ == old(stack)@,
        !load_fails_early(old(stack)@, *old(store)) && !load_in_bounds(old(stack)@, *old(store), memarg.0.0, 8) ==> r is Err && final(stack)@ == old(stack)@.drop_last(),
        !load_fails_early(old(stack)@, *old(store)) && load_in_bounds(old(stack)@, *old(store), memarg.0.0, 8) ==> r is Ok && final(stack)@.drop_last() == old(stack)@.drop_last() && match final(stack)@.last() {
            StackEntry::Value(Val::Vec(z)) => forall|k: int| 0 <= k < 8 ==> #[trigger] lane16(z, k) == widen_lane_16(load_bytes(old(stack)@, *old(store), memarg.0.0, 8), k, sign),
            _ => false,
        },
{
    let ghost before = stack@;
    let mem_addr = get_mem_addr(stack)?;
    if mem_addr >= store.mems.len() {
        return Err(Trap);
    }
    let i = match stack.pop_i32() {
        Some(i) => i,
        None => return Err(Trap),
    };
    let ea: u64 = i as u64 + memarg.0.0 as u64;
    let data = &store.mems[mem_addr].data;
    if ea + 8 > data.len() as u64 {
        return Err(Trap);
    }
    let ghost bytes = data@.subrange(ea as int, ea + 8);
    let mut lanes: Vec<u16> = Vec::new();
    let mut k: usize = 0;
    while k < 8
        invariant
            k <= 8,
            ea + 8 <= data@.len(),
            data@.len() <= usize::MAX,
            bytes == data@.subrange(ea as int, ea + 8),
            lanes@.len() == k,
            forall|j: int| 0 <= j < k ==> #[trigger] lanes@[j] == widen_lane_16(bytes, j, sign),
        decreases 8 - k,
    {
        let x = crate::execute::bytes::read_le(data, ea as usize + 1 * k, 1);
        proof {
            assert((ea as usize + 1 * k) as int == ea + 1 * k);
            assert(data@.subrange(ea + 1 * k, ea + 1 * k + 1) =~= bytes.subrange(1 * k, 1 * k + 1));
            lemma_pow256_values();
            lemma_le_value_bound(bytes.subrange(1 * k, 1 * k + 1));
        }
        let lane: u16 = match sign {
            Sign::Signed => if x < 0x100 / 2 {
                x as u16
            } else {
                (x + 0x1_0000 - 0x100) as u16
            },
            Sign::Unsigned => x as u16,
        };
        lanes.push(lane);
        k = k + 1;
    }
    let z = crate::execute::exec_vec::vec_from_lanes_of_16(lanes);
    stack.push_value(Val::Vec(z));
    Ok(())
}

/// Lane `k` of a widening load: the `k`-th group of 2 bytes of `b`, extended.
pub open spec fn widen_lane_32(b: Seq<u8>, k: int, sign: Sign) -> u32 {
    let x = le_value(b.subrange(2 * k, 2 * k + 2));
    (if sign is Signed {
        sext(x, 0x1_0000, 0x1_0000_0000)
    } else {
        x
    }) as u32
}

/// Loads 8 bytes and widens each group of 2 into a lane of a vector, the first
/// group into the first lane.
pub fn v128_load_16x4(stack: &mut Stack, store: &mut Store, memarg: &MemArg, sign: Sign) -> (r: RResult<()>)
    ensures
        *final(store) == *old(store),
        load_fails_early(old(stack)@, *old(store)) ==> r is Err && final(stack)@ == old(stack)@,
        !load_fails_early(old(stack)@, *old(store)) && !load_in_bounds(old(stack)@, *old(store), memarg.0.0, 8) ==> r is Err && final(stack)@ == old(stack)@.drop_last(),
        !load_fails_early(old(stack)@, *old(store)) && load_in_bounds(old(stack)@, *old(store), memarg.0.0, 8) ==> r is Ok && final(stack)@.drop_last() == old(stack)@.drop_last() && match final(stack)@.last() {
            StackEntry::Value(Val::Vec(z)) => forall|k: int| 0 <= k < 4 ==> #[trigger] lane32(z, k) == widen_lane_32(load_bytes(old(stack)@, *old(store), memarg.0.0, 8), k, sign),
            _ => false,
        },
{
    let ghost before = stack@;
    let mem_addr = get_mem_addr(stack)?;
    if mem_addr >= store.mems.len() {
        return Err(Trap);
    }
    let i = match stack.pop_i32() {
        Some(i) => i,
        None => return Err(Trap),
    };
    let ea: u64 = i as u64 + memarg.0.0 as u64;
    let data = &store.mems[mem_addr].data;
    if ea + 8 > data.len() as u64 {
        return Err(Trap);
    }
    let ghost bytes = data@.subrange(ea as int, ea + 8);
    let mut lanes: Vec<u32> = Vec::new();
    let mut k: usize = 0;
    while k < 4
        invariant
            k <= 4,
            ea + 8 <= data@.len(),
            data@.len() <= usize::MAX,
            bytes == data@.subrange(ea as int, ea + 8),
            lanes@.len() == k,
            forall|j: int| 0 <= j < k ==> #[trigger] lanes@[j] == widen_lane_32(bytes, j, sign),
        decreases 4 - k,
    {
        let x = crate::execute::bytes::read_le(data, ea as usize + 2 * k, 2);
        proof {
            assert((ea as usize + 2 * k) as int == ea + 2 * k);
            assert(data@.subrange(ea + 2 * k, ea + 2 * k + 2) =~= bytes.subrange(2 * k, 2 * k + 2));
            lemma_pow256_values();
            lemma_le_value_bound(bytes.subrange(2 * k, 2 * k + 2));
        }
        let lane: u32 = match sign {
            Sign::Signed => if x < 0x1_0000 / 2 {
                x as u32
            } else {
                (x + 0x1_0000_0000 - 0x1_0000) as u32
            },
            Sign::Unsigned => x as u32,
        };
        lanes.push(lane);
        k = k + 1;
    }
    let z = crate::execute::exec_vec::vec_from_lanes_of_32(lanes);
    stack.push_value(Val::Vec(z));
    Ok(())
}

/// Lane `k` of a widening load: the `k`-th group of 4 bytes of `b`, extended.
pub open spec fn widen_lane_64(b: Seq<u8>, k: int, sign: Sign) -> u64 {
    let x = le_value(b.subrange(4 * k, 4 * k + 4));
    (if sign is Signed {
        sext(x, 0x1_0000_0000, 0x1_0000_0000_0000_0000)
    } else {
        x
    }) as u64
}

/// Loads 8 bytes and widens each group of 4 into a lane of a vector, the first
/// group into the first lane.
pub fn v128_load_32x2(stack: &mut Stack, store: &mut Store, memarg: &MemArg, sign: Sign) -> (r: RResult<()>)
    ensures
        *final(store) == *old(store),
        load_fails_early(old(stack)@, *old(store)) ==> r is Err && final(stack)@ == old(stack)@,
        !load_fails_early(old(stack)@, *old(store)) && !load_in_bounds(old(stack)@, *old(store), memarg.0.0, 8) ==> r is Err && final(stack)@ == old(stack)@.drop_last(),
        !load_fails_early(old(stack)@, *old(store)) && load_in_bounds(old(stack)@, *old(store), memarg.0.0, 8) ==> r is Ok && final(stack)@.drop_last() == old(stack)@.drop_last() && match final(stack)@.last() {
            StackEntry::Value(Val::Vec(z)) => forall|k: int| 0 <= k < 2 ==> #[trigger] lane64(z, k) == widen_lane_64(load_bytes(old(stack)@, *old(store), memarg.0.0, 8), k, sign),
            _ => false,
        },
{
    let ghost before = stack@;
    let mem_addr = get_mem_addr(stack)?;
    if mem_addr >= store.mems.len() {
        return Err(Trap);
    }
    let i = match stack.pop_i32() {
        Some(i) => i,
        None => return Err(Trap),
    };
    let ea: u64 = i as u64 + memarg.0.0 as u64;
    let data = &store.mems[mem_addr].data;
    if ea + 8 > data.len() as u64 {
        return Err(Trap);
    }
    let ghost bytes = data@.subrange(ea as int, ea + 8);
    let mut lanes: Vec<u64> = Vec::new();
    let mut k: usize = 0;
    while k < 2
        invariant
            k <= 2,
            ea + 8 <= data@.len(),
            data@.len() <= usize::MAX,
            bytes == data@.subrange(ea as int, ea + 8),
            lanes@.len() == k,
            forall|j: int| 0 <= j < k ==> #[trigger] lanes@[j] == widen_lane_64(bytes, j, sign),
        decreases 2 - k,
    {
        let x = crate::execute::bytes::read_le(data, ea as usize + 4 * k, 4);
        proof {
            assert((ea as usize + 4 * k) as int == ea + 4 * k);
            assert(data@.subrange(ea + 4 * k, ea + 4 * k + 4) =~= bytes.subrange(4 * k, 4 * k + 4));
            lemma_pow256_values();
            lemma_le_value_bound(bytes.subrange(4 * k, 4 * k + 4));
        }
        let lane: u64 = match sign {
            Sign::Signed => if x < 0x1_0000_0000 / 2 {
                x as u64
            } else {
                (x + 0x1_0000_0000_0000_0000 - 0x1_0000_0000) as u64
            },
            Sign::Unsigned => x as u64,
        };
        lanes.push(lane);
        k = k + 1;
    }
    let z = crate::execute::exec_vec::vec_from_lanes_of_64(lanes);
    stack.push_value(Val::Vec(z));
    Ok(())
}

/// Loads 1 bytes and pushes the vector with every lane equal to them.
pub fn v128_load8_splat(stack: &mut Stack, store: &mut Store, memarg: &MemArg) -> (r: RResult<()>)
    ensures
        *final(store) == *old(store),
        load_fails_early(old(stack)@, *old(store)) ==> r is Err && final(stack)@ == old(stack)@,
        !load_fails_early(old(stack)@, *old(store)) && !load_in_bounds(old(stack)@, *old(store), memarg.0.0, 1) ==> r is Err && final(stack)@ == old(stack)@.drop_last(),
        !load_fails_early(old(stack)@, *old(store)) && load_in_bounds(old(stack)@, *old(store), memarg.0.0, 1) ==> r is Ok && final(stack)@.drop_last() == old(stack)@.drop_last() && match final(stack)@.last() {
            StackEntry::Value(Val::Vec(z)) => forall|k: int| 0 <= k < 16 ==> #[trigger] lane8(z, k) == le_value(load_bytes(old(stack)@, *old(store), memarg.0.0, 1)) as u8,
            _ => false,
        },
{
    let v = load_le(stack, &*store, memarg.0.0, 1)?;
    proof {
        lemma_pow256_values();
        lemma_le_value_bound(load_bytes(old(stack)@, *old(store), memarg.0.0, 1));
    }
    let base = v as u8;
    let mut lanes: Vec<u8> = Vec::new();
    let mut k: usize = 0;
    while k < 16
        invariant
            k <= 16,
            lanes@.len() == k,
            forall|j: int| 0 <= j < k ==> #[trigger] lanes@[j] == base,
        decreases 16 - k,
    {
        lanes.push(base);
        k = k + 1;
    }
    let z = crate::execute::exec_vec::vec_from_lanes_of_8(lanes);
    stack.push_value(Val::Vec(z));
    Ok(())
}

/// Loads 2 bytes and pushes the vector with every lane equal to them.
pub fn v128_load16_splat(stack: &mut Stack, store: &mut Store, memarg: &MemArg) -> (r: RResult<()>)
    ensures
        *final(store) == *old(store),
        load_fails_early(old(stack)@, *old(store)) ==> r is Err && final(stack)@ == old(stack)@,
        !load_fails_early(old(stack)@, *old(store)) && !load_in_bounds(old(stack)@, *old(store), memarg.0.0, 2) ==> r is Err && final(stack)@ == old(stack)@.drop_last(),
        !load_fails_early(old(stack)@, *old(store)) && load_in_bounds(old(stack)@, *old(store), memarg.0.0, 2) ==> r is Ok && final(stack)@.drop_last() == old(stack)@.drop_last() && match final(stack)@.last() {
            StackEntry::Value(Val::Vec(z)) => forall|k: int| 0 <= k < 8 ==> #[trigger] lane16(z, k) == le_value(load_bytes(old(stack)@, *old(store), memarg.0.0, 2)) as u16,
            _ => false,
        },
{
    let v = load_le(stack, &*store, memarg.0.0, 2)?;
    proof {
        lemma_pow256_values();
        lemma_le_value_bound(load_bytes(old(stack)@, *old(store), memarg.0.0, 2));
    }
    let base = v as u16;
    let mut lanes: Vec<u16> = Vec::new();
    let mut k: usize = 0;
    while k < 8
        invariant
            k <= 8,
            lanes@.len() == k,
            forall|j: int| 0 <= j < k ==> #[trigger] lanes@[j] == base,
        decreases 8 - k,
    {
        lanes.push(base);
        k = k + 1;
    }
    let z = crate::execute::exec_vec::vec_from_lanes_of_16(lanes);
    stack.push_value(Val::Vec(z));
    Ok(())
}

/// Loads 4 bytes and pushes the vector with every lane equal to them.
pub fn v128_load32_splat(stack: &mut Stack, store: &mut Store, memarg: &MemArg) -> (r: RResult<()>)
    ensures
        *final(store) == *old(store),
        load_fails_early(old(stack)@, *old(store)) ==> r is Err && final(stack)@ == old(stack)@,
        !load_fails_early(old(stack)@, *old(store)) && !load_in_bounds(old(stack)@, *old(store), memarg.0.0, 4) ==> r is Err && final(stack)@ == old(stack)@.drop_last(),
        !load_fails_early(old(stack)@, *old(store)) && load_in_bounds(old(stack)@, *old(store), memarg.0.0, 4) ==> r is Ok && final(stack)@.drop_last() == old(stack)@.drop_last() && match final(stack)@.last() {
            StackEntry::Value(Val::Vec(z)) => forall|k: int| 0 <= k < 4 ==> #[trigger] lane32(z, k) == le_value(load_bytes(old(stack)@, *old(store), memarg.0.0, 4)) as u32,
            _ => false,
        },
{
    let v = load_le(stack, &*store, memarg.0.0, 4)?;
    proof {
        lemma_pow256_values();
        lemma_le_value_bound(load_bytes(old(stack)@, *old(store), memarg.0.0, 4));
    }
    let base = v as u32;
    let mut lanes: Vec<u32> = Vec::new();
    let mut k: usize = 0;
    while k < 4
        invariant
            k <= 4,
            lanes@.len() == k,
            forall|j: int| 0 <= j < k ==> #[trigger] lanes@[j] == base,
        decreases 4 - k,
    {
        lanes.push(base);
        k = k + 1;
    }
    let z = crate::execute::exec_vec::vec_from_lanes_of_32(lanes);
    stack.push_value(Val::Vec(z));
    Ok(())
}

/// Loads 8 bytes and pushes the vector with every lane equal to them.
pub fn v128_load64_splat(stack: &mut Stack, store: &mut Store, memarg: &MemArg) -> (r: RResult<()>)
    ensures
        *final(store) == *old(store),
        load_fails_early(old(stack)@, *old(store)) ==> r is Err && final(stack)@ == old(stack)@,
        !load_fails_early(old(stack)@, *old(store)) && !load_in_bounds(old(stack)@, *old(store), memarg.0.0, 8) ==> r is Err && final(stack)@ == old(stack)@.drop_last(),
        !load_fails_early(old(stack)@, *old(store)) && load_in_bounds(old(stack)@, *old(store), memarg.0.0, 8) ==> r is Ok && final(stack)@.drop_last() == old(stack)@.drop_last() && match final(stack)@.last() {
            StackEntry::Value(Val::Vec(z)) => forall|k: int| 0 <= k < 2 ==> #[trigger] lane64(z, k) == le_value(load_bytes(old(stack)@, *old(store), memarg.0.0, 8)) as u64,
            _ => false,
        },
{
    let v = load_le(stack, &*store, memarg.0.0, 8)?;
    proof {
        lemma_pow256_values();
        lemma_le_value_bound(load_bytes(old(stack)@, *old(store), memarg.0.0, 8));
    }
    let base = v as u64;
    let mut lanes: Vec<u64> = Vec::new();
    let mut k: usize = 0;
    while k < 2
        invariant
            k <= 2,
            lanes@.len() == k,
            forall|j: int| 0 <= j < k ==> #[trigger] lanes@[j] == base,
        decreases 2 - k,
    {
        lanes.push(base);
        k = k + 1;
    }
    let z = crate::execute::exec_vec::vec_from_lanes_of_64(lanes);
    stack.push_value(Val::Vec(z));
    Ok(())
}

/// Loads 4 bytes into the low bits of a vector whose other bits are zero.
pub fn v128_load32_zero(stack: &mut Stack, store: &mut Store, memarg: &MemArg) -> (r: RResult<()>)
    ensures
        load_post(old(stack)@, final(stack)@, r, *old(store), memarg.0.0, 4, |b: Seq<u8>| Val::Vec(le_value(b) as u128)),
        *final(store) == *old(store),
{
    let v = load_le(stack, &*store, memarg.0.0, 4)?;
    stack.push_value(Val::Vec(v));
    Ok(())
}

/// Loads 8 bytes into the low bits of a vector whose other bits are zero.
pub fn v128_load64_zero(stack: &mut Stack, store: &mut Store, memarg: &MemArg) -> (r: RResult<()>)
    ensures
        load_post(old(stack)@, final(stack)@, r, *old(store), memarg.0.0, 8, |b: Seq<u8>| Val::Vec(le_value(b) as u128)),
        *final(store) == *old(store),
{
    let v = load_le(stack, &*store, memarg.0.0, 8)?;
    stack.push_value(Val::Vec(v));
    Ok(())
}

/// Pops a vector and an i32 address and loads 1 bytes there. The vector pushed is
/// the number those bytes make, in its low bits; a lane index of 16 or more traps
/// after the load.
pub fn v128_load8_lane(stack: &mut Stack, store: &mut Store, memarg: &MemArg, lane_idx: &LaneIdx) -> (r: RResult<()>)
    ensures
        *final(store) == *old(store),
        frame_mem(old(stack)@) is None || frame_mem(old(stack)@)->0 >= old(store).mems@.len() || !(top_value(old(stack)@) matches Some(Val::Vec(_))) ==> r is Err && final(stack)@ == old(stack)@,
        frame_mem(old(stack)@) is Some && frame_mem(old(stack)@)->0 < old(store).mems@.len() && (top_value(old(stack)@) matches Some(Val::Vec(_))) ==> if lane_idx.0 < 16 {
            load_post(old(stack)@.drop_last(), final(stack)@, r, *old(store), memarg.0.0, 1, |b: Seq<u8>| Val::Vec(le_value(b) as u128))
        } else {
            r is Err
        },
{
    let mem_addr = get_mem_addr(stack)?;
    if mem_addr >= store.mems.len() {
        return Err(Trap);
    }
    let _v = match stack.pop_v128() {
        Some(v) => v,
        None => return Err(Trap),
    };
    proof {
        lemma_top_frame_pop(old(stack)@);
    }
    let n = load_le(stack, &*store, memarg.0.0, 1)?;
    if lane_idx.0 >= 16 {
        return Err(Trap);
    }
    stack.push_value(Val::Vec(n));
    Ok(())
}

/// Pops a vector and an i32 address and loads 2 bytes there. The vector pushed is
/// the number those bytes make, in its low bits; a lane index of 8 or more traps
/// after the load.
pub fn v128_load16_lane(stack: &mut Stack, store: &mut Store, memarg: &MemArg, lane_idx: &LaneIdx) -> (r: RResult<()>)
    ensures
        *final(store) == *old(store),
        frame_mem(old(stack)@) is None || frame_mem(old(stack)@)->0 >= old(store).mems@.len() || !(top_value(old(stack)@) matches Some(Val::Vec(_))) ==> r is Err && final(stack)@ == old(stack)@,
        frame_mem(old(stack)@) is Some && frame_mem(old(stack)@)->0 < old(store).mems@.len() && (top_value(old(stack)@) matches Some(Val::Vec(_))) ==> if lane_idx.0 < 8 {
            load_post(old(stack)@.drop_last(), final(stack)@, r, *old(store), memarg.0.0, 2, |b: Seq<u8>| Val::Vec(le_value(b) as u128))
        } else {
            r is Err
        },
{
    let mem_addr = get_mem_addr(stack)?;
    if mem_addr >= store.mems.len() {
        return Err(Trap);
    }
    let _v = match stack.pop_v128() {
        Some(v) => v,
        None => return Err(Trap),
    };
    proof {
        lemma_top_frame_pop(old(stack)@);
    }
    let n = load_le(stack, &*store, memarg.0.0, 2)?;
    if lane_idx.0 >= 8 {
        return Err(Trap);
    }
    stack.push_value(Val::Vec(n));
    Ok(())
}

/// Pops a vector and an i32 address and loads 4 bytes there. The vector pushed is
/// the number those bytes make, in its low bits; a lane index of 4 or more traps
/// after the load.
pub fn v128_load32_lane(stack: &mut Stack, store: &mut Store, memarg: &MemArg, lane_idx: &LaneIdx) -> (r: RResult<()>)
    ensures
        *final(store) == *old(store),
        frame_mem(old(stack)@) is None || frame_mem(old(stack)@)->0 >= old(store).mems@.len() || !(top_value(old(stack)@) matches Some(Val::Vec(_))) ==> r is Err && final(stack)@ == old(stack)@,
        frame_mem(old(stack)@) is Some && frame_mem(old(stack)@)->0 < old(store).mems@.len() && (top_value(old(stack)@) matches Some(Val::Vec(_))) ==> if lane_idx.0 < 4 {
            load_post(old(stack)@.drop_last(), final(stack)@, r, *old(store), memarg.0.0, 4, |b: Seq<u8>| Val::Vec(le_value(b) as u128))
        } else {
            r is Err
        },
{
    let mem_addr = get_mem_addr(stack)?;
    if mem_addr >= store.mems.len() {
        return Err(Trap);
    }
    let _v = match stack.pop_v128() {
        Some(v) => v,
        None => return Err(Trap),
    };
    proof {
        lemma_top_frame_pop(old(stack)@);
    }
    let n = load_le(stack, &*store, memarg.0.0, 4)?;
    if lane_idx.0 >= 4 {
        return Err(Trap);
    }
    stack.push_value(Val::Vec(n));
    Ok(())
}

/// Pops a vector and an i32 address and loads 8 bytes there. The vector pushed is
/// the number those bytes make, in its low bits; a lane index of 2 or more traps
/// after the load.
pub fn v128_load64_lane(stack: &mut Stack, store: &mut Store, memarg: &MemArg, lane_idx: &LaneIdx) -> (r: RResult<()>)
    ensures
        *final(store) == *old(store),
        frame_mem(old(stack)@) is None || frame_mem(old(stack)@)->0 >= old(store).mems@.len() || !(top_value(old(stack)@) matches Some(Val::Vec(_))) ==> r is Err && final(stack)@ == old(stack)@,
        frame_mem(old(stack)@) is Some && frame_mem(old(stack)@)->0 < old(store).mems@.len() && (top_value(old(stack)@) matches Some(Val::Vec(_))) ==> if lane_idx.0 < 2 {
            load_post(old(stack)@.drop_last(), final(stack)@, r, *old(store), memarg.0.0, 8, |b: Seq<u8>| Val::Vec(le_value(b) as u128))
        } else {
            r is Err
        },
{
    let mem_addr = get_mem_addr(stack)?;
    if mem_addr >= store.mems.len() {
        return Err(Trap);
    }
    let _v = match stack.pop_v128() {
        Some(v) => v,
        None => return Err(Trap),
    };
    proof {
        lemma_top_frame_pop(old(stack)@);
    }
    let n = load_le(stack, &*store, memarg.0.0, 8)?;
    if lane_idx.0 >= 2 {
        return Err(Trap);
    }
    stack.push_value(Val::Vec(n));
    Ok(())
}


/// The value of the little-endian bytes `b[i]`, `b[i + 1]` (two bytes).
pub open spec fn bytes2(b: Seq<u8>, i: int) -> int {
    b[i] + 0x100 * b[i + 1]
}

/// The value of the little-endian bytes `b[i]` to `b[i + 3]` (four bytes).
pub open spec fn bytes4(b: Seq<u8>, i: int) -> int {
    b[i] + 0x100 * b[i + 1] + 0x1_0000 * b[i + 2] + 0x100_0000 * b[i + 3]
}

/// One, two or four bytes read little-endian give the value of those bytes.
pub proof fn lemma_le_value_small(b: Seq<u8>, i: int)
    requires
        0 <= i,
    ensures
        i + 1 <= b.len() ==> le_value(b.subrange(i, i + 1)) == b[i],
        i + 2 <= b.len() ==> le_value(b.subrange(i, i + 2)) == bytes2(b, i),
        i + 4 <= b.len() ==> le_value(b.subrange(i, i + 4)) == bytes4(b, i),
{
    reveal_with_fuel(le_value, 5);
    lemma_pow256_values();
    reveal_with_fuel(pow256, 4);
    if i + 1 <= b.len() {
        let t = b.subrange(i, i + 1);
        assert(t.drop_last().len() == 0);
        assert(le_value(t.drop_last()) == 0);
        assert(pow256(0) == 1);
        assert(t.last() == b[i]);
        assert(t.len() == 1);
        assert(le_value(t) == le_value(t.drop_last()) + pow256(0) * (t.last() as nat));
        assert(le_value(t) == b[i]);
    }
    if i + 2 <= b.len() {
        let t = b.subrange(i, i + 2);
        assert(t.drop_last() =~= b.subrange(i, i + 1));
        assert(t.drop_last().drop_last().len() == 0);
    }
    if i + 4 <= b.len() {
        let t = b.subrange(i, i + 4);
        assert(t.drop_last() =~= b.subrange(i, i + 3));
        assert(t.drop_last().drop_last() =~= b.subrange(i, i + 2));
        assert(t.drop_last().drop_last().drop_last() =~= b.subrange(i, i + 1));
        assert(t.drop_last().drop_last().drop_last().drop_last().len() == 0);
    }
}

/// The lanes of the widening vector loads: lane `k` is the `k`-th group of 1, 2 or 4
/// little-endian bytes, as it is for the unsigned loads, and, for the signed ones,
/// with the bits above it all set where the group's top bit is set (its last byte is
/// `0x80` or more), so the signed and unsigned loads differ exactly there.
pub proof fn law_widen_lanes(b: Seq<u8>, k: int)
    requires
        b.len() == 8,
    ensures
        0 <= k < 8 ==> widen_lane_16(b, k, Sign::Unsigned) == b[k] as u16,
        0 <= k < 8 ==> widen_lane_16(b, k, Sign::Signed) == if b[k] < 0x80 {
            b[k] as u16
        } else {
            (b[k] + 0xFF00) as u16
        },
        0 <= k < 4 ==> widen_lane_32(b, k, Sign::Unsigned) == bytes2(b, 2 * k) as u32,
        0 <= k < 4 ==> widen_lane_32(b, k, Sign::Signed) == if b[2 * k + 1] < 0x80 {
            bytes2(b, 2 * k) as u32
        } else {
            (bytes2(b, 2 * k) + 0xFFFF_0000) as u32
        },
        0 <= k < 2 ==> widen_lane_64(b, k, Sign::Unsigned) == bytes4(b, 4 * k) as u64,
        0 <= k < 2 ==> widen_lane_64(b, k, Sign::Signed) == if b[4 * k + 3] < 0x80 {
            bytes4(b, 4 * k) as u64
        } else {
            (bytes4(b, 4 * k) + 0xFFFF_FFFF_0000_0000) as u64
        },
{
    if 0 <= k < 8 {
        lemma_le_value_small(b, k);
    }
    if 0 <= k < 4 {
        lemma_le_value_small(b, 2 * k);
    }
    if 0 <= k < 2 {
        lemma_le_value_small(b, 4 * k);
    }
}

} // verus!
