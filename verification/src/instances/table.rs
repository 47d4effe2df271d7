use vstd::prelude::*;

use crate::entities::types::{LimitsType, TableType, U32Type};
use crate::instances::ref_inst::RefInst;
use crate::instances::value::Val;
use crate::result::{RResult, Trap};
use crate::validation::types_validation::{is_table_type_valid, limits_valid};

verus! {

/// The largest number of elements a table may have.
pub const MAX_TABLE_SIZE: u64 = 0x1_0000_0000;

pub struct TableInst {
    pub table_type: TableType,
    pub elem: Vec<RefInst>,
}

/// The effect of growing a table by `n` copies of `reference`: with at most 2^32
/// elements after, and a minimum that is valid against the maximum, the elements
/// are appended and the minimum becomes the new size (modulo 2^32); otherwise the
/// table is unchanged and the growth traps.
pub open spec fn table_grow_post(before: TableInst, after: TableInst, n: u32, reference: RefInst, r: RResult<()>) -> bool {
    let len = n + before.elem@.len();
    let new_limits = LimitsType { min: U32Type((len % 0x1_0000_0000) as u32), max: before.table_type.limits.max };
    if len <= 0x1_0000_0000 && limits_valid(new_limits, 0xFFFF_FFFF) {
        &&& r is Ok
        &&& after.elem@ == before.elem@ + Seq::new(n as nat, |i: int| reference)
        &&& after.table_type == (TableType { limits: new_limits, element_ref_type: before.table_type.element_ref_type })
    } else {
        &&& r is Err
        &&& after.elem@ == before.elem@
        &&& after.table_type == before.table_type
    }
}

impl TableInst {
    /// Grows the table by the i32 number `n_val`; any other value traps.
    pub fn grow(&mut self, n_val: &Val, reference: RefInst) -> (r: RResult<()>)
        ensures
            match *n_val {
                Val::I32(n) => table_grow_post(*old(self), *final(self), n, reference, r),
                _ => r is Err && final(self).elem@ == old(self).elem@ && final(self).table_type == old(self).table_type,
            },
    {
        if let Val::I32(n) = n_val {
            return self.grow_n(*n, reference);
        }
        Err(Trap)
    }

    pub fn grow_n(&mut self, n: u32, reference: RefInst) -> (r: RResult<()>)
        ensures
            table_grow_post(*old(self), *final(self), n, reference, r),
    {
        let len: u128 = n as u128 + self.elem.len() as u128;
        if len > MAX_TABLE_SIZE as u128 {
            return Err(Trap);
        }
        let new_limits = LimitsType { min: U32Type((len % 0x1_0000_0000) as u32), max: self.table_type.limits.max };
        let new_table_type = TableType { limits: new_limits, element_ref_type: self.table_type.element_ref_type };
        if !is_table_type_valid(&new_table_type) {
            return Err(Trap);
        }
        let ghost before = self.elem@;
        let mut i: u32 = 0;
        while i < n
            invariant
                i <= n,
                self.elem@ == before + Seq::new(i as nat, |k: int| reference),
            decreases n - i,
        {
            self.elem.push(reference);
            i = i + 1;
            proof {
                assert(self.elem@ =~= before + Seq::new(i as nat, |k: int| reference));
            }
        }
        self.table_type = new_table_type;
        Ok(())
    }
}

} // verus!
