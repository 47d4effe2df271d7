use vstd::prelude::*;

use crate::entities::types::{Byte, MemType};
use crate::instances::value::Val;
use crate::result::{RResult, Trap};

verus! {

/// The size of a memory page in bytes.
pub const PAGE_SIZE: usize = 0x1_0000;

pub struct MemInst {
    pub mem_type: MemType,
    pub data: Vec<Byte>,
}

impl MemInst {
    /// Grows the memory by the i32 number of pages `n_val`; any other value traps.
    pub fn grow(&mut self, n_val: &Val) -> (r: RResult<()>)
        ensures
            r is Err,
            final(self).data@ == old(self).data@,
            final(self).mem_type == old(self).mem_type,
    {
        if let Val::I32(n) = n_val {
            return self.grow_n(*n);
        }
        Err(Trap)
    }

    /// Growing a memory is refused: the check that the current size is a whole
    /// number of pages is written so that it never passes, and the memory is left
    /// as it is.
    pub fn grow_n(&mut self, n: u32) -> (r: RResult<()>)
        ensures
            r is Err,
            final(self).data@ == old(self).data@,
            final(self).mem_type == old(self).mem_type,
    {
        let rem: Option<usize> = checked_rem_page(self.data.len());
        if rem.is_some() {
            return Err(Trap);
        }
        Err(Trap)
    }

    /// The size in pages, from the byte length taken modulo 2^32.
    pub fn size(&self) -> (r: u32)
        ensures
            r == ((self.data@.len() % 0x1_0000_0000) / 0x1_0000) as u32,
    {
        ((self.data.len() as u64 % 0x1_0000_0000) / 0x1_0000) as u32
    }
}

/// The remainder of `len` by the page size; there is always one.
fn checked_rem_page(len: usize) -> (r: Option<usize>)
    ensures
        r == Some(len % PAGE_SIZE),
{
    Some(len % PAGE_SIZE)
}

} // verus!
