use vstd::prelude::*;

use crate::execute::exec_control::utils::{
    pop_values_original_order, push_vals, push_values, top_values, values_of,
};
use crate::execute::executor::ExitType;
use crate::instances::stack::{
    lemma_top_frame_index_bounds, top_frame, top_frame_index, Stack, StackEntry,
};
use crate::result::{RResult, Trap};

verus! {

/// The number of values that leave the frame `f` when it returns.
pub open spec fn frame_arity(f: crate::instances::frame::Frame) -> nat {
    match f.arity {
        Some(n) => n as nat,
        None => 0,
    }
}

/// The stack after a return from the topmost frame of `s`: everything from that
/// frame up is removed and the frame's result values are pushed back.
pub open spec fn returned_stack(s: Seq<StackEntry>) -> Seq<StackEntry> {
    push_vals(s.take(top_frame_index(s)->0), values_of(s, frame_arity(top_frame(s)->0)))
}

/// `return`: takes the result values of the current frame, removes the stack down to
/// and including that frame, and pushes the values back.
pub fn exec_return(stack: &mut Stack) -> (r: RResult<ExitType>)
    ensures
        r is Ok <==> top_frame(old(stack)@) is Some && top_values(
            old(stack)@,
            frame_arity(top_frame(old(stack)@)->0),
        ),
        top_frame(old(stack)@) is None ==> final(stack)@ == old(stack)@,
        r is Ok ==> r == Ok::<ExitType, crate::result::Trap>(ExitType::Returned) && final(stack)@
            == returned_stack(old(stack)@),
{
    let ghost s = old(stack)@;
    proof {
        lemma_top_frame_index_bounds(s);
    }
    let frame_arity: usize = match stack.current_frame() {
        Some(frame) => match frame.arity {
            Some(n) => n,
            None => 0,
        },
        None => return Err(Trap),
    };
    let values = pop_values_original_order(stack, frame_arity)?;
    let ghost fi = top_frame_index(s)->0;
    proof {
        // the frame lies below the values
        if fi >= s.len() - frame_arity {
            assert(s[fi] is Value);
        }
    }
    loop
        invariant_except_break
            fi < stack@.len() <= s.len() - frame_arity,
            stack@ == s.take(stack@.len() as int),
        invariant
            s == old(stack)@,
            fi == top_frame_index(s)->0,
            0 <= fi < s.len() - frame_arity,
            s[fi] is Frame,
            forall|j: int| fi < j < s.len() ==> !(#[trigger] s[j] is Frame),
            values@ == values_of(s, frame_arity as nat),
        ensures
            stack@ == s.take(fi),
        decreases stack@.len(),
    {
        let ghost before = stack@;
        match stack.pop() {
            Some(StackEntry::Frame(_)) => {
                proof {
                    assert(before.last() == s[before.len() - 1]);
                    assert(before.len() - 1 == fi);
                    assert(stack@ =~= s.take(fi));
                }
                break ;
            },
            Some(_) => {
                proof {
                    assert(before.last() == s[before.len() - 1]);
                    assert(before.len() - 1 != fi);
                    assert(stack@ =~= s.take(stack@.len() as int));
                }
            },
            None => {
                return Err(Trap);
            },
        }
    }
    push_values(stack, values);
    Ok(ExitType::Returned)
}

} // verus!
