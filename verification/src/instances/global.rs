use vstd::prelude::*;

use crate::entities::types::GlobalType;
use crate::instances::value::Val;

verus! {

#[derive(Debug, Clone, Copy, PartialEq, Eq, Structural)]
pub struct GlobalInst {
    pub global_type: GlobalType,
    pub value: Val,
}

} // verus!
