use vstd::prelude::*;

use crate::entities::types::RefType;
use crate::instances::ref_inst::RefInst;
use crate::instances::stack::{pop_value_spec, push_val, top_frame, top_value, Stack, StackEntry};
use crate::instances::value::Val;
use crate::result::{RResult, Trap};

verus! {

pub fn ref_null(ref_type: &RefType, stack: &mut Stack) -> (r: RResult<()>)
    ensures
        r is Ok,
        final(stack)@ == push_val(old(stack)@, Val::Ref(RefInst::Null(*ref_type))),
{
    stack.push_value(Val::Ref(RefInst::Null(*ref_type)));
    Ok(())
}

/// Pushes a reference to the function `func_idx` of the current frame's module.
pub fn ref_func(stack: &mut Stack, func_idx: usize) -> (r: RResult<()>)
    ensures
        match top_frame(old(stack)@) {
            Some(f) => if func_idx < f.module.funcaddrs@.len() {
                r is Ok && final(stack)@ == push_val(
                    old(stack)@,
                    Val::Ref(RefInst::Func(f.module.funcaddrs@[func_idx as int])),
                )
            } else {
                r is Err && final(stack)@ == old(stack)@
            },
            None => r is Err && final(stack)@ == old(stack)@,
        },
{
    let funcaddr = match stack.current_frame() {
        Some(frame) => {
            if func_idx < frame.module.funcaddrs.len() {
                frame.module.funcaddrs[func_idx]
            } else {
                return Err(Trap);
            }
        },
        None => {
            return Err(Trap);
        },
    };
    stack.push_value(Val::Ref(RefInst::Func(funcaddr)));
    Ok(())
}

/// The effect of `ref.is_null`: pops a reference, pushes 1 if it is null, 0 otherwise.
pub open spec fn is_ref_null_post(before: Seq<StackEntry>, after: Seq<StackEntry>, r: RResult<()>) -> bool {
    match top_value(before) {
        Some(Val::Ref(x)) => r is Ok && after == push_val(
            before.drop_last(),
            Val::I32(
                if x is Null {
                    1
                } else {
                    0
                },
            ),
        ),
        _ => r is Err && after == pop_value_spec(before),
    }
}

pub fn is_ref_null(stack: &mut Stack) -> (r: RResult<()>)
    ensures
        is_ref_null_post(old(stack)@, final(stack)@, r),
{
    if let Some(Val::Ref(reference)) = stack.pop_value() {
        let is_null: u32 = match reference {
            RefInst::Null(_) => 1,
            _ => 0,
        };
        stack.push_value(Val::I32(is_null));
        Ok(())
    } else {
        Err(Trap)
    }
}

} // verus!
