use vstd::prelude::*;

use crate::address::DataAddr;
use crate::entities::types::DataIdx;
use crate::execute::exec_memory::access::{frame_mem, get_mem_addr, mem_written};
use crate::instances::stack::{lemma_top_frame_pop, push_val, top_frame, top_value, Stack, StackEntry};
use crate::instances::store::Store;
use crate::instances::value::Val;
use crate::result::{RResult, Trap};

verus! {

/// The memory instructions that take three i32 operands pop them as `n` (the top),
/// then `s` (or the fill value), then `d`.
pub open spec fn three_i32(s: Seq<StackEntry>) -> bool {
    &&& top_value(s) matches Some(Val::I32(_))
    &&& top_value(s.drop_last()) matches Some(Val::I32(_))
    &&& top_value(s.drop_last().drop_last()) matches Some(Val::I32(_))
}

/// The i32 operand `k` entries below the top.
pub open spec fn i32_at(s: Seq<StackEntry>, k: int) -> int {
    match s[s.len() - 1 - k] {
        StackEntry::Value(Val::I32(x)) => x as int,
        _ => 0,
    }
}

/// The stack after popping the leading i32 operands: it stops at the first entry
/// that is not an i32.
pub open spec fn pop_i32s(s: Seq<StackEntry>, count: nat) -> Seq<StackEntry>
    decreases count,
{
    if count == 0 {
        s
    } else if top_value(s) matches Some(Val::I32(_)) {
        pop_i32s(s.drop_last(), (count - 1) as nat)
    } else {
        s
    }
}

/// Pops the three i32 operands `n`, `s`, `d`.
fn pop_three_i32(stack: &mut Stack) -> (r: RResult<(u32, u32, u32)>)
    ensures
        final(stack)@ == pop_i32s(old(stack)@, 3),
        three_i32(old(stack)@) ==> r == Ok::<(u32, u32, u32), Trap>(
            (i32_at(old(stack)@, 0) as u32, i32_at(old(stack)@, 1) as u32, i32_at(old(stack)@, 2) as u32),
        ),
        !three_i32(old(stack)@) ==> r is Err,
{
    proof {
        reveal_with_fuel(pop_i32s, 4);
    }
    let n = match stack.pop_i32() {
        Some(x) => x,
        None => return Err(Trap),
    };
    let s = match stack.pop_i32() {
        Some(x) => x,
        None => return Err(Trap),
    };
    let d = match stack.pop_i32() {
        Some(x) => x,
        None => return Err(Trap),
    };
    Ok((n, s, d))
}

pub fn memory_size(stack: &mut Stack, store: &mut Store) -> (r: RResult<()>)
    ensures
        *final(store) == *old(store),
        match frame_mem(old(stack)@) {
            Some(a) => if a < old(store).mems@.len() {
                r is Ok && final(stack)@ == push_val(
                    old(stack)@,
                    Val::I32(((old(store).mems@[a as int].data@.len() % 0x1_0000_0000) / 0x1_0000) as u32),
                )
            } else {
                r is Err && final(stack)@ == old(stack)@
            },
            None => r is Err && final(stack)@ == old(stack)@,
        },
{
    let mem_addr = get_mem_addr(stack)?;
    if mem_addr >= store.mems.len() {
        return Err(Trap);
    }
    let size = store.mems[mem_addr].size();
    stack.push_value(Val::I32(size));
    Ok(())
}

/// Pops a number of pages and pushes the old size, or -1 when the memory does not
/// grow; memories never grow (see `MemInst::grow_n`), so -1 is pushed.
pub fn memory_grow(stack: &mut Stack, store: &mut Store) -> (r: RResult<()>)
    ensures
        match frame_mem(old(stack)@) {
            Some(a) => if a < old(store).mems@.len() {
                match top_value(old(stack)@) {
                    Some(Val::I32(n)) => r is Ok && final(stack)@ == push_val(old(stack)@.drop_last(), Val::I32(0xFFFF_FFFF))
                        && final(store).mems@.len() == old(store).mems@.len()
                        && final(store).mems@[a as int].data@ == old(store).mems@[a as int].data@,
                    _ => r is Err && final(stack)@ == old(stack)@ && *final(store) == *old(store),
                }
            } else {
                r is Err && final(stack)@ == old(stack)@ && *final(store) == *old(store)
            },
            None => r is Err && final(stack)@ == old(stack)@ && *final(store) == *old(store),
        },
{
    let mem_addr = get_mem_addr(stack)?;
    if mem_addr >= store.mems.len() {
        return Err(Trap);
    }
    let size = store.mems[mem_addr].size();
    let n = match stack.pop_i32() {
        Some(n) => n,
        None => return Err(Trap),
    };
    let err: u32 = 0xFFFF_FFFF;
    let mem = &mut store.mems[mem_addr];
    if mem.grow_n(n).is_ok() {
        stack.push_value(Val::I32(size));
    } else {
        stack.push_value(Val::I32(err));
    }
    Ok(())
}

/// The effect of a bulk memory instruction on the current memory: `data_of` gives
/// the new bytes from the old ones and the operands `n`, `s`, `d` (when they are in
/// bounds); out of bounds means `d + n` or `s + n` past the end.
pub open spec fn bulk_post(
    before: Seq<StackEntry>,
    after: Seq<StackEntry>,
    r: RResult<()>,
    sb: Store,
    sa: Store,
    check_s: bool,
    data_of: spec_fn(Seq<u8>, int, int, int) -> Seq<u8>,
    ok: spec_fn(Seq<u8>, int, int, int) -> bool,
) -> bool {
    match frame_mem(before) {
        Some(a) => if a < sb.mems@.len() {
            if three_i32(before) {
                let n = i32_at(before, 0);
                let s = i32_at(before, 1);
                let d = i32_at(before, 2);
                let m = sb.mems@[a as int].data@;
                &&& after == pop_i32s(before, 3)
                &&& if d + n > m.len() || (check_s && s + n > m.len()) {
                    r is Err && sa == sb
                } else {
                    (r is Ok <==> ok(m, n, s, d)) && mem_written(sb, sa, a as int, data_of(m, n, s, d))
                }
            } else {
                r is Err && after == pop_i32s(before, 3) && sa == sb
            }
        } else {
            r is Err && after == before && sa == sb
        },
        None => r is Err && after == before && sa == sb,
    }
}

/// The bytes of `m` with `n` copies of the low byte of `v` from `d` on.
pub open spec fn filled(m: Seq<u8>, n: int, v: int, d: int) -> Seq<u8> {
    m.subrange(0, d) + Seq::new(n as nat, |k: int| (v % 256) as u8) + m.subrange(d + n, m.len() as int)
}

/// The bytes of `m` with the `n` bytes from `s` on copied to `d`, as they were
/// before the copy.
pub open spec fn copied(m: Seq<u8>, n: int, s: int, d: int) -> Seq<u8> {
    m.subrange(0, d) + m.subrange(s, s + n) + m.subrange(d + n, m.len() as int)
}

/// The bytes of `m` after the first `k` steps of a copy whose destination does not lie
/// above its source: step `j` reads the byte at `s + j`, as the earlier steps left it,
/// and writes it at the address `n - j`, where `n - j` is the count of bytes that
/// remain at that step.
pub open spec fn low_copy_steps(m: Seq<u8>, n: int, s: int, k: nat) -> Seq<u8>
    decreases k,
{
    if k == 0 {
        m
    } else {
        let p = low_copy_steps(m, n, s, (k - 1) as nat);
        p.update(n - (k - 1), p[s + k - 1])
    }
}

/// Whether `memory.copy` completes on the bytes `m`: where the destination does not lie
/// above the source, its first step writes at the address `n`, which must lie inside.
pub open spec fn copy_completes(m: Seq<u8>, n: int, s: int, d: int) -> bool {
    !(d <= s && 0 < n && n >= m.len())
}

/// The bytes of `m` after `memory.copy` of `n` bytes from `s` to `d`: a copy that works
/// backwards from the end where the destination lies above the source, and the steps
/// of `low_copy_steps` otherwise.
pub open spec fn copy_result(m: Seq<u8>, n: int, s: int, d: int) -> Seq<u8> {
    if d > s {
        copied(m, n, s, d)
    } else if copy_completes(m, n, s, d) {
        low_copy_steps(m, n, s, n as nat)
    } else {
        m
    }
}

/// Fills `n` bytes from `d` on with the low byte of the middle operand.
pub fn memory_fill(stack: &mut Stack, store: &mut Store) -> (r: RResult<()>)
    ensures
        bulk_post(old(stack)@, final(stack)@, r, *old(store), *final(store), false, |m: Seq<u8>, n: int, v: int, d: int| filled(m, n, v, d), |m: Seq<u8>, n: int, s: int, d: int| true),
{
    let mem_addr = get_mem_addr(stack)?;
    if mem_addr >= store.mems.len() {
        return Err(Trap);
    }
    let (n, val, d) = pop_three_i32(stack)?;
    let len = store.mems[mem_addr].data.len();
    if d as u64 + n as u64 > len as u64 {
        return Err(Trap);
    }
    let byte = (val % 256) as u8;
    let mut buffer: Vec<u8> = Vec::new();
    let mut k: u32 = 0;
    while k < n
        invariant
            k <= n,
            buffer@ == Seq::new(k as nat, |j: int| byte),
        decreases n - k,
    {
        buffer.push(byte);
        k = k + 1;
        proof {
            assert(buffer@ =~= Seq::new(k as nat, |j: int| byte));
        }
    }
    let mem = &mut store.mems[mem_addr];
    let ghost m = mem.data@;
    crate::execute::exec_memory::memory_bytes::set_bytes(&mut mem.data, d as usize, buffer.as_slice());
    proof {
        assert(Seq::new(n as nat, |j: int| byte) =~= Seq::new(n as nat, |j: int| ((val as int) % 256) as u8));
        assert(mem.data@ =~= filled(m, n as int, val as int, d as int));
    }
    Ok(())
}

/// Copies `n` bytes from `s` to `d`. Where the destination lies above the source the
/// copy works backwards from the end, as a move of overlapping ranges does; otherwise
/// step `j` writes the byte at `s + j` at the address `n - j`.
pub fn memory_copy(stack: &mut Stack, store: &mut Store) -> (r: RResult<()>)
    ensures
        bulk_post(old(stack)@, final(stack)@, r, *old(store), *final(store), true, |m: Seq<u8>, n: int, s: int, d: int| copy_result(m, n, s, d), |m: Seq<u8>, n: int, s: int, d: int| copy_completes(m, n, s, d)),
{
    let mem_addr = get_mem_addr(stack)?;
    if mem_addr >= store.mems.len() {
        return Err(Trap);
    }
    let (n, s, d) = pop_three_i32(stack)?;
    let len = store.mems[mem_addr].data.len();
    if s as u64 + n as u64 > len as u64 || d as u64 + n as u64 > len as u64 {
        return Err(Trap);
    }
    let mem = &mut store.mems[mem_addr];
    let ghost m = mem.data@;
    if d <= s {
        let ghost mt = mem.mem_type;
        if n > 0 && n as usize >= len {
            return Err(Trap);
        }
        let mut k: u32 = 0;
        while k < n
            invariant
                k <= n,
                s + n <= m.len(),
                n == 0 || n < m.len(),
                len == m.len(),
                mem.data@ == low_copy_steps(m, n as int, s as int, k as nat),
                mem.mem_type == mt,
                mem.data@.len() == m.len(),
            decreases n - k,
        {
            let b = mem.data[s as usize + k as usize];
            mem.data.set((n - k) as usize, b);
            k = k + 1;
        }
        return Ok(());
    }
    let mut buffer: Vec<u8> = Vec::new();
    let mut k: u32 = 0;
    while k < n
        invariant
            k <= n,
            s + n <= m.len(),
            len == m.len(),
            mem.data@ == m,
            buffer@ == m.subrange(s as int, s + k),
        decreases n - k,
    {
        buffer.push(mem.data[s as usize + k as usize]);
        k = k + 1;
        proof {
            assert(buffer@ =~= m.subrange(s as int, s + k));
        }
    }
    crate::execute::exec_memory::memory_bytes::set_bytes(&mut mem.data, d as usize, buffer.as_slice());
    Ok(())
}

/// The address of data segment `x` of the current frame's module.
pub open spec fn frame_data_addr(s: Seq<StackEntry>, x: int) -> Option<DataAddr> {
    match top_frame(s) {
        Some(f) => if 0 <= x < f.module.dataaddrs@.len() {
            Some(f.module.dataaddrs@[x])
        } else {
            None
        },
        None => None,
    }
}

fn get_data_addr(stack: &Stack, x: usize) -> (r: RResult<DataAddr>)
    ensures
        match frame_data_addr(stack@, x as int) {
            Some(a) => r == Ok::<DataAddr, Trap>(a),
            None => r is Err,
        },
{
    match stack.current_frame() {
        Some(frame) => {
            if x < frame.module.dataaddrs.len() {
                Ok(frame.module.dataaddrs[x])
            } else {
                Err(Trap)
            }
        },
        None => Err(Trap),
    }
}

/// The bytes of `m` after copying data bytes `bytes[s..]` to `d`, `n` of them, or as
/// many as there are.
pub open spec fn initialized(m: Seq<u8>, bytes: Seq<u8>, n: int, s: int, d: int) -> Seq<u8> {
    let k = if s + n <= bytes.len() {
        n
    } else if s < bytes.len() {
        bytes.len() - s
    } else {
        0
    };
    if k == 0 {
        m
    } else {
        m.subrange(0, d) + bytes.subrange(s, s + k) + m.subrange(d + k, m.len() as int)
    }
}

/// Copies `n` bytes of a data segment from `s` on to memory at `d`. The bounds are
/// checked against the memory; when the segment runs out first, the bytes up to
/// its end are copied and the instruction traps.
pub fn memory_init(stack: &mut Stack, store: &mut Store, data_idx: &DataIdx) -> (r: RResult<()>)
    ensures
        match frame_mem(old(stack)@) {
            Some(a) => match frame_data_addr(old(stack)@, data_idx.0.0 as int) {
                Some(da) => if a < old(store).mems@.len() && da < old(store).datas@.len() && old(store).datas@[da as int] is Some {
                    let bytes = old(store).datas@[da as int]->0.data@;
                    bulk_post(old(stack)@, final(stack)@, r, *old(store), *final(store), true, |m: Seq<u8>, n: int, s: int, d: int| initialized(m, bytes, n, s, d), |m: Seq<u8>, n: int, s: int, d: int| n == 0 || s + n <= bytes.len())

                } else {
                    r is Err && final(stack)@ == old(stack)@ && *final(store) == *old(store)
                },
                None => r is Err && final(stack)@ == old(stack)@ && *final(store) == *old(store),
            },
            None => r is Err && final(stack)@ == old(stack)@ && *final(store) == *old(store),
        },
{
    let mem_addr = get_mem_addr(stack)?;
    if mem_addr >= store.mems.len() {
        return Err(Trap);
    }
    let data_addr = get_data_addr(stack, data_idx.0.0 as usize)?;
    if data_addr >= store.datas.len() || store.datas[data_addr].is_none() {
        return Err(Trap);
    }
    let (n, s, d) = pop_three_i32(stack)?;
    let len = store.mems[mem_addr].data.len();
    if s as u64 + n as u64 > len as u64 || d as u64 + n as u64 > len as u64 {
        return Err(Trap);
    }
    let bytes: Vec<u8> = match &store.datas[data_addr] {
        Some(data_inst) => {
            let mut b: Vec<u8> = Vec::new();
            let mut k: usize = 0;
            while k < data_inst.data.len()
                invariant
                    k <= data_inst.data@.len(),
                    b@ == data_inst.data@.subrange(0, k as int),
                decreases data_inst.data@.len() - k,
            {
                b.push(data_inst.data[k]);
                k = k + 1;
                proof {
                    assert(b@ =~= data_inst.data@.subrange(0, k as int));
                }
            }
            proof {
                assert(b@ =~= data_inst.data@);
            }
            b
        },
        None => Vec::new(),
    };
    let mut buffer: Vec<u8> = Vec::new();
    let mut k: u32 = 0;
    while k < n && (s as u64 + k as u64) < bytes.len() as u64
        invariant
            k <= n,
            k > 0 ==> s + k <= bytes@.len(),
            k == 0 ==> buffer@.len() == 0,
            k > 0 ==> buffer@ == bytes@.subrange(s as int, s + k),
        decreases n - k,
    {
        buffer.push(bytes[s as usize + k as usize]);
        k = k + 1;
        proof {
            assert(buffer@ =~= bytes@.subrange(s as int, s + k));
        }
    }
    let mem = &mut store.mems[mem_addr];
    let ghost m = mem.data@;
    crate::execute::exec_memory::memory_bytes::set_bytes(&mut mem.data, d as usize, buffer.as_slice());
    proof {
        if k == 0 {
            assert(mem.data@ =~= m);
        }
        assert(mem.data@ =~= initialized(m, bytes@, n as int, s as int, d as int));
    }
    if k < n {
        return Err(Trap);
    }
    Ok(())
}

pub fn data_drop(stack: &mut Stack, store: &mut Store, x: &DataIdx) -> (r: RResult<()>)
    ensures
        final(stack)@ == old(stack)@,
        match frame_data_addr(old(stack)@, x.0.0 as int) {
            Some(a) => if a < old(store).datas@.len() && old(store).datas@[a as int] is Some {
                r is Ok && final(store).datas@ == old(store).datas@.update(a as int, None)
                    && final(store).funcs == old(store).funcs && final(store).tables == old(store).tables
                    && final(store).mems == old(store).mems && final(store).globals == old(store).globals
                    && final(store).elems == old(store).elems
            } else {
                r is Err && *final(store) == *old(store)
            },
            None => r is Err && *final(store) == *old(store),
        },
{
    let data_addr = get_data_addr(stack, x.0.0 as usize)?;
    store.drop_data(data_addr)
}

/// A dropped data segment is gone: once `data.drop` has succeeded on the segment at
/// address `a`, a second `data.drop` of it, or a `memory.init` from it, finds no segment
/// there and traps.
pub proof fn law_data_dropped(sb: Store, sa: Store, a: usize)
    requires
        a < sb.datas@.len(),
        sa.datas@ == sb.datas@.update(a as int, None),
    ensures
        !(a < sa.datas@.len() && sa.datas@[a as int] is Some),
{
}

} // verus!
