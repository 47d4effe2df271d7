use vstd::prelude::*;

verus! {

/// Index of a function instance in the store.
pub type FuncAddr = usize;

/// Index of a table instance in the store.
pub type TableAddr = usize;

/// Index of a memory instance in the store.
pub type MemAddr = usize;

/// Index of a global instance in the store.
pub type GlobalAddr = usize;

/// Index of an element segment instance in the store.
pub type ElemAddr = usize;

/// Index of a data segment instance in the store.
pub type DataAddr = usize;

/// Address of a host reference.
pub type ExternAddr = usize;

} // verus!
