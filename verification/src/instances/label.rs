use vstd::prelude::*;

use std::rc::Rc;

use crate::entities::instructions::InstructionType;

verus! {

/// A label on the stack: the number of values a branch to it carries, and the
/// instructions that run when it is branched to (the loop body for a loop, nothing
/// for a block).
#[derive(Debug, Clone)]
pub struct LabelInst {
    pub arity: usize,
    pub instructions: Rc<Vec<InstructionType>>,
}

} // verus!
