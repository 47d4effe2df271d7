use vstd::prelude::*;

use crate::address::{ExternAddr, FuncAddr};
use crate::entities::types::RefType;
use crate::result::{RResult, Trap};

verus! {

#[derive(Debug, Clone, Copy, PartialEq, Eq, Structural)]
pub enum RefInst {
    Null(RefType),
    Func(FuncAddr),
    Extern(ExternAddr),
}

impl RefInst {
    pub fn is_null(&self) -> (r: bool)
        ensures
            r == (*self is Null),
    {
        if let RefInst::Null(_) = self {
            return true;
        }
        false
    }

    /// The function address of a function reference; a trap for any other reference.
    pub fn as_func(&self) -> (r: RResult<FuncAddr>)
        ensures
            match *self {
                RefInst::Func(a) => r == Ok::<FuncAddr, Trap>(a),
                _ => r is Err,
            },
    {
        if let RefInst::Func(func_addr) = self {
            return Ok(*func_addr);
        }
        Err(Trap)
    }
}

} // verus!
