use vstd::prelude::*;

use crate::entities::types::RefType;
use crate::instances::ref_inst::RefInst;

verus! {

#[derive(Debug, Clone, PartialEq)]
pub struct ElemInst {
    pub elem_type: RefType,
    pub elem: Vec<RefInst>,
}

} // verus!
