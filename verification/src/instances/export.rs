use vstd::prelude::*;

use crate::address::{FuncAddr, GlobalAddr, MemAddr, TableAddr};
use crate::entities::types::NameType;

verus! {

#[derive(Debug, Clone, PartialEq)]
pub struct ExportInst {
    pub name: NameType,
    pub value: ExternVal,
}

#[derive(Debug, Clone, Copy, PartialEq, Eq, Structural)]
pub enum ExternVal {
    Func(FuncAddr),
    Table(TableAddr),
    Mem(MemAddr),
    Global(GlobalAddr),
}

} // verus!
