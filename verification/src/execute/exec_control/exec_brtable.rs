use vstd::prelude::*;

use crate::entities::instructions::BrTableArg;
use crate::execute::exec_control::exec_br::{br_post, br_run_post, exec_br};
use crate::execute::executor::ExitType;
use crate::execute::float::FloatOps;
use crate::instances::stack::{top_value, Stack};
use crate::instances::store::Store;
use crate::instances::value::Val;
use crate::result::{RResult, Trap};

verus! {

/// The label that `br_table` picks for the operand `i`: entry `i` of the table, or the
/// default where `i` lies past its end.
pub open spec fn brtable_target(arg: BrTableArg, i: u32) -> u32 {
    if (i as int) < arg.labels@.len() {
        arg.labels@[i as int].0.0
    } else {
        arg.default.0.0
    }
}

/// `br_table`: pops an index and branches to the label that it picks.
pub fn exec_brtable<F: FloatOps>(
    stack: &mut Stack,
    store: &mut Store,
    brtable_arg: &BrTableArg,
    floats: &F,
    fuel: u64,
) -> (r: RResult<ExitType>)
    ensures
        match top_value(old(stack)@) {
            Some(Val::I32(i)) => br_post(
                old(stack)@.drop_last(),
                final(stack)@,
                *old(store),
                *final(store),
                brtable_target(*brtable_arg, i),
                r,
            ),
            _ => r is Err && final(stack)@ == old(stack)@ && *final(store) == *old(store),
        },
        top_value(old(stack)@) matches Some(Val::I32(i)) ==> br_run_post(
            old(stack)@.drop_last(),
            final(stack)@,
            *old(store),
            *final(store),
            brtable_target(*brtable_arg, i),
            fuel as nat,
            r,
        ),
    decreases fuel, 2nat,
{
    let i = match stack.pop_i32() {
        Some(i) => i,
        None => return Err(Trap),
    };
    let idx = if (i as usize) < brtable_arg.labels.len() {
        brtable_arg.labels[i as usize]
    } else {
        brtable_arg.default
    };
    exec_br(stack, store, &idx, floats, fuel)
}

} // verus!
