use vstd::prelude::*;

use crate::entities::types::LabelIdx;
use crate::execute::exec_control::exec_br::{br_post, br_run_post, exec_br};
use crate::execute::executor::ExitType;
use crate::execute::float::FloatOps;
use crate::instances::stack::{top_value, Stack};
use crate::instances::store::Store;
use crate::instances::value::Val;
use crate::result::{RResult, Trap};

verus! {

/// `br_if`: pops a condition; branches as `br` does where it is not zero.
pub fn exec_brif<F: FloatOps>(
    stack: &mut Stack,
    store: &mut Store,
    label_idx: &LabelIdx,
    floats: &F,
    fuel: u64,
) -> (r: RResult<ExitType>)
    ensures
        match top_value(old(stack)@) {
            Some(Val::I32(c)) => if c == 0 {
                r == Ok::<ExitType, Trap>(ExitType::Completed) && final(stack)@ == old(stack)@.drop_last() && *final(store) == *old(store)
            } else {
                br_post(
                    old(stack)@.drop_last(),
                    final(stack)@,
                    *old(store),
                    *final(store),
                    label_idx.0.0,
                    r,
                )
            },
            _ => r is Err && final(stack)@ == old(stack)@ && *final(store) == *old(store),
        },
        top_value(old(stack)@) matches Some(Val::I32(c)) && c != 0 ==> br_run_post(
            old(stack)@.drop_last(),
            final(stack)@,
            *old(store),
            *final(store),
            label_idx.0.0,
            fuel as nat,
            r,
        ),
    decreases fuel, 2nat,
{
    let c = match stack.pop_i32() {
        Some(c) => c,
        None => return Err(Trap),
    };
    if c == 0 {
        return Ok(ExitType::Completed);
    }
    exec_br(stack, store, label_idx, floats, fuel)
}

} // verus!
