use vstd::prelude::*;

use crate::entities::types::ValType;
use crate::instances::stack::{pop_value_spec, push_val, top_value, Stack, StackEntry};
use crate::result::{RResult, Trap};

verus! {

/// The effect of `select`: pops an i32 condition `c` and two values, and pushes the
/// upper of the two when `c` is not zero, the lower one otherwise.
pub open spec fn select_post(before: Seq<StackEntry>, after: Seq<StackEntry>, r: RResult<()>) -> bool {
    match top_value(before) {
        Some(crate::instances::value::Val::I32(c)) => {
            let s1 = before.drop_last();
            match top_value(s1) {
                Some(v1) => {
                    let s2 = s1.drop_last();
                    match top_value(s2) {
                        Some(v2) => r is Ok && after == push_val(
                            s2.drop_last(),
                            if c != 0 {
                                v1
                            } else {
                                v2
                            },
                        ),
                        None => r is Err && after == s2,
                    }
                },
                None => r is Err && after == s1,
            }
        },
        _ => r is Err && after == before,
    }
}

pub fn exec_drop(stack: &mut Stack) -> (r: RResult<()>)
    ensures
        r is Ok <==> top_value(old(stack)@) is Some,
        final(stack)@ == pop_value_spec(old(stack)@),
{
    match stack.pop_value() {
        Some(_) => Ok(()),
        None => Err(Trap),
    }
}

pub fn exec_select(stack: &mut Stack) -> (r: RResult<()>)
    ensures
        select_post(old(stack)@, final(stack)@, r),
{
    let c = match stack.pop_i32() {
        Some(c) => c,
        None => return Err(Trap),
    };
    let val_1 = match stack.pop_value() {
        Some(v) => v,
        None => return Err(Trap),
    };
    let val_2 = match stack.pop_value() {
        Some(v) => v,
        None => return Err(Trap),
    };
    if c != 0 {
        stack.push_value(val_1);
    } else {
        stack.push_value(val_2);
    }
    Ok(())
}

/// `select` with its result types written out; it behaves as `select`.
pub fn exec_select_vec(stack: &mut Stack, _vector: &Vec<ValType>) -> (r: RResult<()>)
    ensures
        select_post(old(stack)@, final(stack)@, r),
{
    exec_select(stack)
}

} // verus!
