use vstd::prelude::*;

use crate::entities::instructions::{BlockInstructionType, IfElseInstructionType};
use crate::execute::exec_control::block::{block, block_signature, structured_post, structured_run_post};
use crate::execute::exec_control::utils::top_values;
use crate::execute::executor::ExitType;
use crate::execute::float::FloatOps;
use crate::instances::stack::{top_value, Stack};
use crate::instances::store::Store;
use crate::instances::value::Val;
use crate::result::{RResult, Trap};

verus! {

/// `if ... else`: pops a condition and runs the first arm as a block where it is not
/// zero, the second arm otherwise.
pub fn exec_ifelse<F: FloatOps>(
    stack: &mut Stack,
    store: &mut Store,
    ifelse_instruction: &IfElseInstructionType,
    floats: &F,
    fuel: u64,
) -> (r: RResult<ExitType>)
    ensures
        match top_value(old(stack)@) {
            Some(Val::I32(c)) => {
                &&& structured_post(
                    old(stack)@.drop_last(),
                    final(stack)@,
                    *old(store),
                    *final(store),
                    ifelse_instruction.blocktype,
                    if c != 0 {
                        ifelse_instruction.if_instructions@.len()
                    } else {
                        ifelse_instruction.else_instructions@.len()
                    },
                    r,
                )
                &&& match block_signature(old(stack)@.drop_last(), ifelse_instruction.blocktype) {
                    Some((m, n)) => top_values(old(stack)@.drop_last(), m) ==> structured_run_post(
                        if c != 0 {
                            ifelse_instruction.if_instructions@
                        } else {
                            ifelse_instruction.else_instructions@
                        },
                        old(stack)@.drop_last(),
                        final(stack)@,
                        *old(store),
                        *final(store),
                        m,
                        n,
                        n,
                        0,
                        fuel as nat,
                        r,
                    ),
                    None => true,
                }
            },
            _ => r is Err && final(stack)@ == old(stack)@ && *final(store) == *old(store),
        },
    decreases fuel, 2nat,
{
    let c = match stack.pop_i32() {
        Some(c) => c,
        None => return Err(Trap),
    };
    let arm = if c != 0 {
        BlockInstructionType {
            blocktype: ifelse_instruction.blocktype,
            instructions: ifelse_instruction.if_instructions.clone(),
        }
    } else {
        BlockInstructionType {
            blocktype: ifelse_instruction.blocktype,
            instructions: ifelse_instruction.else_instructions.clone(),
        }
    };
    block(stack, store, &arm, floats, fuel)
}

} // verus!
