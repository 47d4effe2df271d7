use vstd::prelude::*;

use crate::result::{RResult, Trap};

verus! {

/// `unreachable` always traps.
pub fn exec_unreachable() -> (r: RResult<()>)
    ensures
        r is Err,
{
    Err(Trap)
}

} // verus!
