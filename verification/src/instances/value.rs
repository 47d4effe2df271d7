use vstd::prelude::*;

use crate::instances::ref_inst::RefInst;

verus! {

/// A runtime value. Floats are carried as their IEEE 754 bit patterns.
#[derive(Debug, Clone, Copy, PartialEq, Eq, Structural)]
pub enum Val {
    I32(u32),
    I64(u64),
    F32(u32),
    F64(u64),
    Vec(u128),
    Ref(RefInst),
}

} // verus!
