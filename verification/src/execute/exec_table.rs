use vstd::prelude::*;

use crate::address::{ElemAddr, TableAddr};
use crate::entities::instructions::{TableCopyArg, TableInitArg};
use crate::entities::types::{ElemIdx, TableIdx};
use crate::execute::exec_memory::memory::{i32_at, pop_i32s, three_i32};
use crate::instances::ref_inst::RefInst;
use crate::instances::stack::{push_val, top_frame, top_value, Stack, StackEntry};
use crate::instances::store::Store;
use crate::instances::table::table_grow_post;
use crate::instances::value::Val;
use crate::result::{RResult, Trap};

verus! {

/// The address of table `idx` of the current frame's module.
pub open spec fn frame_table_addr(s: Seq<StackEntry>, idx: int) -> Option<TableAddr> {
    match top_frame(s) {
        Some(f) => if 0 <= idx < f.module.tableaddrs@.len() {
            Some(f.module.tableaddrs@[idx])
        } else {
            None
        },
        None => None,
    }
}

/// The address of element segment `idx` of the current frame's module.
pub open spec fn frame_elem_addr(s: Seq<StackEntry>, idx: int) -> Option<ElemAddr> {
    match top_frame(s) {
        Some(f) => if 0 <= idx < f.module.elemaddrs@.len() {
            Some(f.module.elemaddrs@[idx])
        } else {
            None
        },
        None => None,
    }
}

/// The table of `idx` exists in the store.
pub open spec fn table_found(s: Seq<StackEntry>, store: Store, idx: int) -> bool {
    frame_table_addr(s, idx) matches Some(a) && a < store.tables@.len()
}

/// The elements of the table of `idx`.
pub open spec fn table_elems(s: Seq<StackEntry>, store: Store, idx: int) -> Seq<RefInst> {
    store.tables@[frame_table_addr(s, idx)->0 as int].elem@
}

/// `after` is `before` with the elements of table `a` replaced by `elems`.
pub open spec fn table_written(before: Store, after: Store, a: int, elems: Seq<RefInst>) -> bool {
    &&& after.tables@.len() == before.tables@.len()
    &&& forall|j: int| 0 <= j < before.tables@.len() && j != a ==> after.tables@[j] == before.tables@[j]
    &&& after.tables@[a].table_type == before.tables@[a].table_type
    &&& after.tables@[a].elem@ == elems
    &&& after.funcs == before.funcs
    &&& after.mems == before.mems
    &&& after.globals == before.globals
    &&& after.elems == before.elems
    &&& after.datas == before.datas
}

fn get_table_addr(stack: &Stack, idx: u32) -> (r: RResult<TableAddr>)
    ensures
        match frame_table_addr(stack@, idx as int) {
            Some(a) => r == Ok::<TableAddr, Trap>(a),
            None => r is Err,
        },
{
    match stack.current_frame() {
        Some(frame) => {
            if (idx as usize) < frame.module.tableaddrs.len() {
                Ok(frame.module.tableaddrs[idx as usize])
            } else {
                Err(Trap)
            }
        },
        None => Err(Trap),
    }
}

fn get_elem_addr(stack: &Stack, idx: u32) -> (r: RResult<ElemAddr>)
    ensures
        match frame_elem_addr(stack@, idx as int) {
            Some(a) => r == Ok::<ElemAddr, Trap>(a),
            None => r is Err,
        },
{
    match stack.current_frame() {
        Some(frame) => {
            if (idx as usize) < frame.module.elemaddrs.len() {
                Ok(frame.module.elemaddrs[idx as usize])
            } else {
                Err(Trap)
            }
        },
        None => Err(Trap),
    }
}

/// Writes `refs` into `elems` from `start` on.
fn set_refs(elems: &mut Vec<RefInst>, start: usize, refs: &Vec<RefInst>)
    requires
        start + refs@.len() <= old(elems)@.len(),
    ensures
        final(elems)@ == old(elems)@.subrange(0, start as int) + refs@ + old(elems)@.subrange(
            start + refs@.len(),
            old(elems)@.len() as int,
        ),
{
    let ghost e = elems@;
    let len = elems.len();
    let mut i: usize = 0;
    while i < refs.len()
        invariant
            i <= refs@.len(),
            start + refs@.len() <= e.len(),
            len == e.len(),
            elems@ == e.subrange(0, start as int) + refs@.subrange(0, i as int) + e.subrange(start + i, e.len() as int),
        decreases refs@.len() - i,
    {
        elems.set(start + i, refs[i]);
        i = i + 1;
        proof {
            assert(elems@ =~= e.subrange(0, start as int) + refs@.subrange(0, i as int) + e.subrange(start + i, e.len() as int));
        }
    }
    proof {
        assert(refs@.subrange(0, i as int) =~= refs@);
    }
}

/// Pops an i32 index and pushes the reference at that index of the table.
pub fn table_get(stack: &mut Stack, store: &mut Store, idx: &TableIdx) -> (r: RResult<()>)
    ensures
        *final(store) == *old(store),
        !table_found(old(stack)@, *old(store), idx.0.0 as int) ==> r is Err && final(stack)@ == old(stack)@,
        table_found(old(stack)@, *old(store), idx.0.0 as int) ==> match top_value(old(stack)@) {
            Some(Val::I32(i)) => {
                let e = table_elems(old(stack)@, *old(store), idx.0.0 as int);
                if i < e.len() {
                    r is Ok && final(stack)@ == push_val(old(stack)@.drop_last(), Val::Ref(e[i as int]))
                } else {
                    r is Err && final(stack)@ == old(stack)@.drop_last()
                }
            },
            _ => r is Err && final(stack)@ == old(stack)@,
        },
{
    let table_addr = get_table_addr(stack, idx.0.0)?;
    if table_addr >= store.tables.len() {
        return Err(Trap);
    }
    let i = match stack.pop_i32() {
        Some(i) => i as usize,
        None => return Err(Trap),
    };
    if i >= store.tables[table_addr].elem.len() {
        return Err(Trap);
    }
    let val = store.tables[table_addr].elem[i];
    stack.push_value(Val::Ref(val));
    Ok(())
}

/// Pops a reference and an i32 index and sets the table's element there.
pub fn table_set(stack: &mut Stack, store: &mut Store, idx: &TableIdx) -> (r: RResult<()>)
    ensures
        !table_found(old(stack)@, *old(store), idx.0.0 as int) ==> r is Err && final(stack)@ == old(stack)@ && *final(store) == *old(store),
        table_found(old(stack)@, *old(store), idx.0.0 as int) ==> match top_value(old(stack)@) {
            Some(Val::Ref(v)) => match top_value(old(stack)@.drop_last()) {
                Some(Val::I32(i)) => {
                    let e = table_elems(old(stack)@, *old(store), idx.0.0 as int);
                    final(stack)@ == old(stack)@.drop_last().drop_last() && if i < e.len() {
                        r is Ok && table_written(*old(store), *final(store), frame_table_addr(old(stack)@, idx.0.0 as int)->0 as int, e.update(i as int, v))
                    } else {
                        r is Err && *final(store) == *old(store)
                    }
                },
                _ => r is Err && final(stack)@ == old(stack)@.drop_last() && *final(store) == *old(store),
            },
            _ => r is Err && final(stack)@ == old(stack)@ && *final(store) == *old(store),
        },
{
    let table_addr = get_table_addr(stack, idx.0.0)?;
    if table_addr >= store.tables.len() {
        return Err(Trap);
    }
    let new_ref = match stack.pop_ref() {
        Some(v) => v,
        None => return Err(Trap),
    };
    let i = match stack.pop_i32() {
        Some(i) => i as usize,
        None => return Err(Trap),
    };
    if i >= store.tables[table_addr].elem.len() {
        return Err(Trap);
    }
    let table = &mut store.tables[table_addr];
    table.elem.set(i, new_ref);
    Ok(())
}

/// Pushes the number of elements of the table, modulo 2^32.
pub fn table_size(stack: &mut Stack, store: &mut Store, idx: &TableIdx) -> (r: RResult<()>)
    ensures
        *final(store) == *old(store),
        !table_found(old(stack)@, *old(store), idx.0.0 as int) ==> r is Err && final(stack)@ == old(stack)@,
        table_found(old(stack)@, *old(store), idx.0.0 as int) ==> r is Ok && final(stack)@ == push_val(
            old(stack)@,
            Val::I32((table_elems(old(stack)@, *old(store), idx.0.0 as int).len() % 0x1_0000_0000) as u32),
        ),
{
    let table_addr = get_table_addr(stack, idx.0.0)?;
    if table_addr >= store.tables.len() {
        return Err(Trap);
    }
    let size = store.tables[table_addr].elem.len();
    stack.push_value(Val::I32((size as u64 % 0x1_0000_0000) as u32));
    Ok(())
}

/// Pops an i32 count and a reference and grows the table by that many copies of
/// it; pushes the old size (modulo 2^32), or -1 when the table does not grow.
pub fn table_grow(stack: &mut Stack, store: &mut Store, idx: &TableIdx) -> (r: RResult<()>)
    ensures
        !table_found(old(stack)@, *old(store), idx.0.0 as int) ==> r is Err && final(stack)@ == old(stack)@ && *final(store) == *old(store),
        table_found(old(stack)@, *old(store), idx.0.0 as int) ==> match top_value(old(stack)@) {
            Some(Val::I32(n)) => match top_value(old(stack)@.drop_last()) {
            Some(Val::Ref(v)) => {
                let a = frame_table_addr(old(stack)@, idx.0.0 as int)->0 as int;
                let size = old(store).tables@[a].elem@.len();
                &&& r is Ok
                &&& final(store).tables@.len() == old(store).tables@.len()
                &&& forall|j: int| 0 <= j < old(store).tables@.len() && j != a ==> final(store).tables@[j] == old(store).tables@[j]
                &&& exists|g: RResult<()>| table_grow_post(old(store).tables@[a], final(store).tables@[a], n, v, g)
                    && final(stack)@ == push_val(old(stack)@.drop_last().drop_last(), Val::I32(if g is Ok { (size % 0x1_0000_0000) as u32 } else { 0xFFFF_FFFF }))
                &&& final(store).funcs == old(store).funcs
                &&& final(store).mems == old(store).mems
                &&& final(store).globals == old(store).globals
                &&& final(store).elems == old(store).elems
                &&& final(store).datas == old(store).datas
            },
            _ => r is Err && final(stack)@ == old(stack)@.drop_last() && *final(store) == *old(store),
            },
            _ => r is Err && final(stack)@ == old(stack)@ && *final(store) == *old(store),
        },
{
    let table_addr = get_table_addr(stack, idx.0.0)?;
    if table_addr >= store.tables.len() {
        return Err(Trap);
    }
    let size = store.tables[table_addr].elem.len();
    let n = match stack.pop_i32() {
        Some(n) => n,
        None => return Err(Trap),
    };
    let ref_val = match stack.pop_ref() {
        Some(v) => v,
        None => return Err(Trap),
    };
    let ghost old_table = store.tables@[table_addr as int];
    let table = &mut store.tables[table_addr];
    let g = table.grow_n(n, ref_val);
    assert(table_grow_post(old_table, store.tables@[table_addr as int], n, ref_val, g));
    let to_stack: u32 = match g {
        Ok(_) => (size as u64 % 0x1_0000_0000) as u32,
        Err(_) => 0xFFFF_FFFF,
    };
    stack.push_value(Val::I32(to_stack));
    Ok(())
}

/// The effect of a bulk table instruction with operands `n`, `s` (or the fill
/// reference) and `d` on table `x`: `elems_of` gives its new elements.
pub open spec fn table_bulk_post(
    before: Seq<StackEntry>,
    after: Seq<StackEntry>,
    r: RResult<()>,
    sb: Store,
    sa: Store,
    a: int,
    in_bounds: spec_fn(int, int, int) -> bool,
    elems_of: spec_fn(int, int, int) -> Seq<RefInst>,
) -> bool {
    if three_i32(before) {
        let n = i32_at(before, 0);
        let s = i32_at(before, 1);
        let d = i32_at(before, 2);
        &&& after == pop_i32s(before, 3)
        &&& if !in_bounds(n, s, d) {
            r is Err && sa == sb
        } else {
            r is Ok && table_written(sb, sa, a, elems_of(n, s, d))
        }
    } else {
        r is Err && after == pop_i32s(before, 3) && sa == sb
    }
}

/// Pops an i32 count `n`, a reference and an i32 index `i`, and sets the `n`
/// elements from `i` on to the reference.
pub fn table_fill(stack: &mut Stack, store: &mut Store, idx: &TableIdx) -> (r: RResult<()>)
    ensures
        !table_found(old(stack)@, *old(store), idx.0.0 as int) ==> r is Err && final(stack)@ == old(stack)@ && *final(store) == *old(store),
        table_found(old(stack)@, *old(store), idx.0.0 as int) ==> {
            let e = table_elems(old(stack)@, *old(store), idx.0.0 as int);
            let a = frame_table_addr(old(stack)@, idx.0.0 as int)->0 as int;
            match (top_value(old(stack)@), top_value(old(stack)@.drop_last()), top_value(old(stack)@.drop_last().drop_last())) {
                (Some(Val::I32(n)), Some(Val::Ref(v)), Some(Val::I32(i))) => final(stack)@ == old(stack)@.drop_last().drop_last().drop_last() && if i + n > e.len() {
                    r is Err && *final(store) == *old(store)
                } else {
                    r is Ok && table_written(*old(store), *final(store), a, e.subrange(0, i as int) + Seq::new(n as nat, |k: int| v) + e.subrange(i + n, e.len() as int))
                },
                _ => r is Err && *final(store) == *old(store),
            }
        },
{
    let table_addr = get_table_addr(stack, idx.0.0)?;
    if table_addr >= store.tables.len() {
        return Err(Trap);
    }
    let n = match stack.pop_i32() {
        Some(n) => n,
        None => return Err(Trap),
    };
    let ref_val = match stack.pop_ref() {
        Some(v) => v,
        None => return Err(Trap),
    };
    let i = match stack.pop_i32() {
        Some(i) => i,
        None => return Err(Trap),
    };
    if i as u64 + n as u64 > store.tables[table_addr].elem.len() as u64 {
        return Err(Trap);
    }
    let mut refs: Vec<RefInst> = Vec::new();
    let mut k: u32 = 0;
    while k < n
        invariant
            k <= n,
            refs@ == Seq::new(k as nat, |j: int| ref_val),
        decreases n - k,
    {
        refs.push(ref_val);
        k = k + 1;
        proof {
            assert(refs@ =~= Seq::new(k as nat, |j: int| ref_val));
        }
    }
    let table = &mut store.tables[table_addr];
    set_refs(&mut table.elem, i as usize, &refs);
    Ok(())
}

/// Copies `n` elements of table `y` from `s` on to table `x` at `d`; the ranges may
/// overlap.
pub fn table_copy(stack: &mut Stack, store: &mut Store, arg: &TableCopyArg) -> (r: RResult<()>)
    ensures
        !table_found(old(stack)@, *old(store), arg.0.0.0 as int) || !table_found(old(stack)@, *old(store), arg.1.0.0 as int) ==> r is Err && final(stack)@ == old(stack)@ && *final(store) == *old(store),
        table_found(old(stack)@, *old(store), arg.0.0.0 as int) && table_found(old(stack)@, *old(store), arg.1.0.0 as int) ==> {
            let ex = table_elems(old(stack)@, *old(store), arg.0.0.0 as int);
            let ey = table_elems(old(stack)@, *old(store), arg.1.0.0 as int);
            table_bulk_post(
                old(stack)@,
                final(stack)@,
                r,
                *old(store),
                *final(store),
                frame_table_addr(old(stack)@, arg.0.0.0 as int)->0 as int,
                |n: int, s: int, d: int| s + n <= ey.len() && d + n <= ex.len(),
                |n: int, s: int, d: int| ex.subrange(0, d) + ey.subrange(s, s + n) + ex.subrange(d + n, ex.len() as int),
            )
        },
{
    let table_addr_x = get_table_addr(stack, arg.0.0.0)?;
    if table_addr_x >= store.tables.len() {
        return Err(Trap);
    }
    let table_addr_y = get_table_addr(stack, arg.1.0.0)?;
    if table_addr_y >= store.tables.len() {
        return Err(Trap);
    }
    let table_x_len = store.tables[table_addr_x].elem.len();
    let table_y_len = store.tables[table_addr_y].elem.len();
    let n = match stack.pop_i32() {
        Some(v) => v,
        None => {
            proof {
                reveal_with_fuel(pop_i32s, 4);
            }
            return Err(Trap);
        },
    };
    let s = match stack.pop_i32() {
        Some(v) => v,
        None => {
            proof {
                reveal_with_fuel(pop_i32s, 4);
            }
            return Err(Trap);
        },
    };
    let d = match stack.pop_i32() {
        Some(v) => v,
        None => {
            proof {
                reveal_with_fuel(pop_i32s, 4);
            }
            return Err(Trap);
        },
    };
    proof {
        reveal_with_fuel(pop_i32s, 4);
    }
    if s as u64 + n as u64 > table_y_len as u64 || d as u64 + n as u64 > table_x_len as u64 {
        return Err(Trap);
    }
    let mut refs: Vec<RefInst> = Vec::new();
    let mut k: u32 = 0;
    while k < n
        invariant
            k <= n,
            s + n <= table_y_len,
            table_addr_y < store.tables@.len(),
            table_y_len == store.tables@[table_addr_y as int].elem@.len(),
            refs@ == store.tables@[table_addr_y as int].elem@.subrange(s as int, s + k),
        decreases n - k,
    {
        refs.push(store.tables[table_addr_y].elem[s as usize + k as usize]);
        k = k + 1;
        proof {
            assert(refs@ =~= store.tables@[table_addr_y as int].elem@.subrange(s as int, s + k));
        }
    }
    let table = &mut store.tables[table_addr_x];
    set_refs(&mut table.elem, d as usize, &refs);
    Ok(())
}

/// Copies `n` references of element segment `y` from `s` on to table `x` at `d`.
pub fn table_init(stack: &mut Stack, store: &mut Store, arg: &TableInitArg) -> (r: RResult<()>)
    ensures
        !table_found(old(stack)@, *old(store), arg.0.0.0 as int) || !(frame_elem_addr(old(stack)@, arg.1.0.0 as int) matches Some(ea) && ea < old(store).elems@.len() && old(store).elems@[ea as int] is Some) ==> r is Err && final(stack)@ == old(stack)@ && *final(store) == *old(store),
        table_found(old(stack)@, *old(store), arg.0.0.0 as int) && (frame_elem_addr(old(stack)@, arg.1.0.0 as int) matches Some(ea) && ea < old(store).elems@.len() && old(store).elems@[ea as int] is Some) ==> {
            let ex = table_elems(old(stack)@, *old(store), arg.0.0.0 as int);
            let ey = old(store).elems@[frame_elem_addr(old(stack)@, arg.1.0.0 as int)->0 as int]->0.elem@;
            table_bulk_post(
                old(stack)@,
                final(stack)@,
                r,
                *old(store),
                *final(store),
                frame_table_addr(old(stack)@, arg.0.0.0 as int)->0 as int,
                |n: int, s: int, d: int| s + n <= ey.len() && d + n <= ex.len(),
                |n: int, s: int, d: int| ex.subrange(0, d) + ey.subrange(s, s + n) + ex.subrange(d + n, ex.len() as int),
            )
        },
{
    let table_addr_x = get_table_addr(stack, arg.0.0.0)?;
    if table_addr_x >= store.tables.len() {
        return Err(Trap);
    }
    let table_x_len = store.tables[table_addr_x].elem.len();
    let elem_addr_y = get_elem_addr(stack, arg.1.0.0)?;
    if elem_addr_y >= store.elems.len() || store.elems[elem_addr_y].is_none() {
        return Err(Trap);
    }
    let (n, s, d) = match stack.pop_i32() {
        Some(n) => match stack.pop_i32() {
            Some(s) => match stack.pop_i32() {
                Some(d) => (n, s, d),
                None => {
                    proof {
                        reveal_with_fuel(pop_i32s, 4);
                    }
                    return Err(Trap);
                },
            },
            None => {
                proof {
                    reveal_with_fuel(pop_i32s, 4);
                }
                return Err(Trap);
            },
        },
        None => {
            proof {
                reveal_with_fuel(pop_i32s, 4);
            }
            return Err(Trap);
        },
    };
    proof {
        reveal_with_fuel(pop_i32s, 4);
    }
    let refs: Vec<RefInst> = match &store.elems[elem_addr_y] {
        Some(elem_inst) => {
            if s as u64 + n as u64 > elem_inst.elem.len() as u64 || d as u64 + n as u64 > table_x_len as u64 {
                return Err(Trap);
            }
            let elen = elem_inst.elem.len();
            let mut refs: Vec<RefInst> = Vec::new();
            let mut k: u32 = 0;
            while k < n
                invariant
                    k <= n,
                    elen == elem_inst.elem@.len(),
                    s + n <= elem_inst.elem@.len(),
                    refs@ == elem_inst.elem@.subrange(s as int, s + k),
                decreases n - k,
            {
                refs.push(elem_inst.elem[s as usize + k as usize]);
                k = k + 1;
                proof {
                    assert(refs@ =~= elem_inst.elem@.subrange(s as int, s + k));
                }
            }
            refs
        },
        None => return Err(Trap),
    };
    let table = &mut store.tables[table_addr_x];
    set_refs(&mut table.elem, d as usize, &refs);
    Ok(())
}

pub fn elem_drop(stack: &mut Stack, store: &mut Store, x: &ElemIdx) -> (r: RResult<()>)
    ensures
        final(stack)@ == old(stack)@,
        match frame_elem_addr(old(stack)@, x.0.0 as int) {
            Some(a) => if a < old(store).elems@.len() && old(store).elems@[a as int] is Some {
                r is Ok && final(store).elems@ == old(store).elems@.update(a as int, None)
                    && final(store).funcs == old(store).funcs && final(store).tables == old(store).tables
                    && final(store).mems == old(store).mems && final(store).globals == old(store).globals
                    && final(store).datas == old(store).datas
            } else {
                r is Err && *final(store) == *old(store)
            },
            None => r is Err && *final(store) == *old(store),
        },
{
    let elem_addr = get_elem_addr(stack, x.0.0)?;
    store.drop_elem(elem_addr)
}

/// A table reads back what was written to it: after `table.set idx` has stored the
/// reference `v` at index `i` (the reference on top of the stack, the index below it),
/// `table.get idx` on any stack whose frame finds the same table reads `v` at `i`.
pub proof fn law_table_get_after_set(before: Seq<StackEntry>, sb: Store, sa: Store, idx: int, i: u32, v: RefInst, s2: Seq<StackEntry>)
    requires
        table_found(before, sb, idx),
        top_value(before) == Some(Val::Ref(v)),
        top_value(before.drop_last()) == Some(Val::I32(i)),
        i < table_elems(before, sb, idx).len(),
        table_written(sb, sa, frame_table_addr(before, idx)->0 as int, table_elems(before, sb, idx).update(i as int, v)),
        frame_table_addr(s2, idx) == frame_table_addr(before, idx),
    ensures
        table_found(s2, sa, idx),
        i < table_elems(s2, sa, idx).len(),
        table_elems(s2, sa, idx)[i as int] == v,
{
}

/// A dropped element segment is gone: once `elem.drop` has succeeded on the segment at
/// address `a`, a second `elem.drop` of it, or a `table.init` from it, finds no segment
/// there and traps.
pub proof fn law_elem_dropped(sb: Store, sa: Store, a: usize)
    requires
        a < sb.elems@.len(),
        sa.elems@ == sb.elems@.update(a as int, None),
    ensures
        !(a < sa.elems@.len() && sa.elems@[a as int] is Some),
{
}

} // verus!
