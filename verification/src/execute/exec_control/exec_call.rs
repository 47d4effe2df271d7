use vstd::prelude::*;

use crate::entities::types::FuncIdx;
use crate::execute::exec_control::utils::{invoke, invoke_post, invoke_run_post};
use crate::execute::executor::ExitType;
use crate::execute::float::FloatOps;
use crate::instances::stack::{top_frame, Stack};
use crate::instances::store::Store;
use crate::result::{RResult, Trap};

verus! {

/// The address of function `idx` of the current frame's module.
pub open spec fn frame_func_addr(s: Seq<crate::instances::stack::StackEntry>, idx: int) -> Option<usize> {
    match top_frame(s) {
        Some(f) => if 0 <= idx < f.module.funcaddrs@.len() {
            Some(f.module.funcaddrs@[idx])
        } else {
            None
        },
        None => None,
    }
}

/// `call`: calls function `func_idx` of the current module.
pub fn exec_call<F: FloatOps>(
    stack: &mut Stack,
    store: &mut Store,
    func_idx: &FuncIdx,
    floats: &F,
    fuel: u64,
) -> (r: RResult<ExitType>)
    ensures
        match frame_func_addr(old(stack)@, func_idx.0.0 as int) {
            Some(a) => invoke_post(old(stack)@, final(stack)@, *old(store), *final(store), a as int, r) && invoke_run_post(
                old(stack)@,
                final(stack)@,
                *old(store),
                *final(store),
                a as int,
                fuel as nat,
                r,
            ),
            None => r is Err && final(stack)@ == old(stack)@ && *final(store) == *old(store),
        },
    decreases fuel, 4nat,
{
    let function_addr = match stack.current_frame() {
        Some(frame) => {
            if (func_idx.0.0 as usize) < frame.module.funcaddrs.len() {
                frame.module.funcaddrs[func_idx.0.0 as usize]
            } else {
                return Err(Trap);
            }
        },
        None => return Err(Trap),
    };
    invoke(stack, store, function_addr, floats, fuel)
}

} // verus!
