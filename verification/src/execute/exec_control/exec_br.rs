use vstd::prelude::*;

use crate::entities::types::LabelIdx;
use crate::execute::exec_control::utils::{
    pop_values_original_order, push_vals, push_values, top_values, values_of,
};
use crate::execute::exec_control::block::{run_post, run_trace, trace_from};
use crate::execute::executor::{execute_instruction_fuel, instruction_run, ExitType};
use crate::execute::float::FloatOps;
use crate::instances::stack::{label_count, nth_label, Stack, StackEntry};
use crate::instances::store::Store;
use crate::result::{RResult, Trap};

verus! {

/// `s` without the values on its top.
pub open spec fn drop_values(s: Seq<StackEntry>) -> Seq<StackEntry>
    decreases s.len(),
{
    if s.len() > 0 && s.last() is Value {
        drop_values(s.drop_last())
    } else {
        s
    }
}

/// `s` after leaving `count` labels: each time the values above the next label and
/// the label itself go. `None` where another entry comes first.
pub open spec fn unwind(s: Seq<StackEntry>, count: nat) -> Option<Seq<StackEntry>>
    decreases count,
{
    if count == 0 {
        Some(s)
    } else {
        let t = drop_values(s);
        if t.len() > 0 && t.last() is Label {
            unwind(t.drop_last(), (count - 1) as nat)
        } else {
            None
        }
    }
}

proof fn lemma_drop_values_prefix(s: Seq<StackEntry>)
    ensures
        drop_values(s).len() <= s.len(),
        drop_values(s) == s.take(drop_values(s).len() as int),
    decreases s.len(),
{
    if s.len() > 0 && s.last() is Value {
        lemma_drop_values_prefix(s.drop_last());
        assert(s.drop_last().take(drop_values(s).len() as int) =~= s.take(
            drop_values(s).len() as int,
        ));
    } else {
        assert(s.take(s.len() as int) =~= s);
    }
}

/// Removes the values above the topmost non-value entry.
fn pop_all_values(stack: &mut Stack)
    ensures
        final(stack)@ == drop_values(old(stack)@),
{
    proof {
        lemma_drop_values_prefix(old(stack)@);
    }
    loop
        invariant
            drop_values(stack@) == drop_values(old(stack)@),
        ensures
            stack@ == drop_values(old(stack)@),
        decreases stack@.len(),
    {
        let ghost before = stack@;
        match stack.pop_value() {
            Some(_) => {},
            None => {
                break ;
            },
        }
    }
}

/// Leaves `count` labels, as a branch does.
pub fn unwind_labels(stack: &mut Stack, count: u64) -> (r: RResult<()>)
    ensures
        match unwind(old(stack)@, count as nat) {
            Some(t) => r is Ok && final(stack)@ == t,
            None => r is Err,
        },
{
    let mut k: u64 = count;
    while k > 0
        invariant
            unwind(stack@, k as nat) == unwind(old(stack)@, count as nat),
        decreases k,
    {
        pop_all_values(stack);
        match stack.pop_label() {
            Some(_) => {},
            None => return Err(Trap),
        }
        k = k - 1;
    }
    Ok(())
}

/// What a branch to label `idx` does, as far as it is stated here: with too few labels
/// it traps and changes nothing; it traps where the label's values or the entries
/// above the label are missing; a branch to a label without continuation (the end of
/// a block) leaves the stack below the label with the label's values on top.
pub open spec fn br_post(
    s: Seq<StackEntry>,
    s2: Seq<StackEntry>,
    st: Store,
    st2: Store,
    idx: u32,
    r: RResult<ExitType>,
) -> bool {
    if label_count(s) < idx + 1 {
        r is Err && s2 == s && st2 == st
    } else {
        match nth_label(s, idx as nat) {
            Some(l) => if !top_values(s, l.arity as nat) {
                r is Err
            } else {
                match unwind(s.take(s.len() - l.arity), (idx + 1) as nat) {
                    Some(u) => l.instructions@.len() == 0 ==> r == Ok::<ExitType, Trap>(
                        ExitType::Completed,
                    ) && s2 == push_vals(u, values_of(s, l.arity as nat)) && st2 == st,
                    None => r is Err,
                }
            },
            None => r is Err,
        }
    }
}

/// How a branch to label `idx` with `fuel` levels of nesting came about once the
/// label exists, its values are on top and the entries above it can be left: the
/// label's values were put on the stack below which the labels up to the target were
/// left, and the target's continuation ran from there (`run_post`), to its end, to a
/// `return` or to a trap.
pub open spec fn br_run_post(
    s: Seq<StackEntry>,
    s2: Seq<StackEntry>,
    st: Store,
    st2: Store,
    idx: u32,
    fuel: nat,
    r: RResult<ExitType>,
) -> bool
    decreases fuel, 5nat,
{
    match nth_label(s, idx as nat) {
        Some(l) => label_count(s) >= idx + 1 && top_values(s, l.arity as nat) && unwind(
            s.take(s.len() - l.arity),
            (idx + 1) as nat,
        ) is Some ==> run_post(
            l.instructions@,
            0,
            fuel,
            push_vals(unwind(s.take(s.len() - l.arity), (idx + 1) as nat)->0, values_of(s, l.arity as nat)),
            s2,
            st,
            st2,
            match r {
                Ok(x) => Ok::<(ExitType, bool), Trap>((x, false)),
                Err(e) => Err::<(ExitType, bool), Trap>(e),
            },
        ),
        None => true,
    }
}

/// `br`: leaves `label_idx + 1` labels, keeping the target label's values, then runs
/// the target's continuation.
pub fn exec_br<F: FloatOps>(
    stack: &mut Stack,
    store: &mut Store,
    label_idx: &LabelIdx,
    floats: &F,
    fuel: u64,
) -> (r: RResult<ExitType>)
    ensures
        br_post(old(stack)@, final(stack)@, *old(store), *final(store), label_idx.0.0, r),
        br_run_post(old(stack)@, final(stack)@, *old(store), *final(store), label_idx.0.0, fuel as nat, r),
    decreases fuel, 1nat,
{
    let ghost s = old(stack)@;
    let idx = label_idx.0.0;
    if (stack.count_labels() as u64) < (idx as u64) + 1 {
        return Err(Trap);
    }
    let (arity, continuation) = match stack.get_label(idx as usize) {
        Some(label) => (label.arity, label.instructions.clone()),
        None => return Err(Trap),
    };
    let values = pop_values_original_order(stack, arity)?;
    unwind_labels(stack, (idx as u64) + 1)?;
    push_values(stack, values);
    let ghost unwound = stack@;
    let ghost l = nth_label(s, idx as nat)->0;
    proof {
        assert(nth_label(s, idx as nat) == Some(l));
        assert(continuation@ == l.instructions@);
    }
    let ghost mut t: Seq<(Seq<StackEntry>, Store)> = seq![(stack@, *store)];
    let mut i: usize = 0;
    while i < continuation.len()
        invariant
            i <= continuation@.len(),
            run_trace(continuation@, t, 0, fuel as nat),
            t.len() == i + 1,
            t[0] == (unwound, *old(store)),
            t.last() == (stack@, *store),
            unwound == push_vals(unwind(s.take(s.len() - l.arity), (idx + 1) as nat)->0, values_of(s, l.arity as nat)),
            s == old(stack)@,
            idx == label_idx.0.0,
            label_count(s) >= idx + 1,
            nth_label(s, idx as nat) == Some(l),
            continuation@ == l.instructions@,
            top_values(s, l.arity as nat),
            unwind(s.take(s.len() - l.arity), (idx + 1) as nat) is Some,
            continuation@.len() == 0 ==> stack@ == unwound && *store == *old(store),
        decreases continuation@.len() - i,
    {
        if fuel == 0 {
            proof {
                assert(trace_from(t, unwound, *old(store)));
                assert(run_post(continuation@, 0, fuel as nat, unwound, stack@, *old(store), *store, Err::<(ExitType, bool), Trap>(Trap)));
            }
            return Err(Trap);
        }
        let ghost before = t;
        let res = execute_instruction_fuel(&continuation[i], stack, store, floats, fuel - 1);
        let exit = match res {
            Ok(exit) => exit,
            Err(e) => {
                proof {
                    assert(res == Err::<ExitType, Trap>(Trap));
                    assert(run_trace(continuation@, before, 0, fuel as nat));
                    assert(trace_from(before, unwound, *old(store)));
                    assert(run_post(continuation@, 0, fuel as nat, unwound, stack@, *old(store), *store, Err::<(ExitType, bool), Trap>(Trap)));
                }
                return Err(e);
            },
        };
        if exit == ExitType::Returned {
            proof {
                assert(run_trace(continuation@, before, 0, fuel as nat));
                assert(trace_from(before, unwound, *old(store)));
                assert(run_post(continuation@, 0, fuel as nat, unwound, stack@, *old(store), *store, Ok::<(ExitType, bool), Trap>((ExitType::Returned, false))));
            }
            return Ok(ExitType::Returned);
        }
        proof {
            t = before.push((stack@, *store));
            assert forall|k: int| 0 <= k < t.len() - 1 implies fuel > 0 && instruction_run(
                continuation@[k],
                (#[trigger] t[k]).0,
                t[k + 1].0,
                t[k].1,
                t[k + 1].1,
                (fuel - 1) as nat,
                Ok::<ExitType, Trap>(ExitType::Completed),
            ) by {
                if k < i {
                    assert(t[k] == before[k] && t[k + 1] == before[k + 1]);
                }
            }
            assert forall|k: int| 0 < k < t.len() - 1 implies label_count(#[trigger] t[k].0) >= 0 by {}
            assert(run_trace(continuation@, t, 0, fuel as nat));
        }
        i = i + 1;
    }
    proof {
        assert(trace_from(t, unwound, *old(store)));
        assert(run_post(continuation@, 0, fuel as nat, unwound, stack@, *old(store), *store, Ok::<(ExitType, bool), Trap>((ExitType::Completed, false))));
    }
    Ok(ExitType::Completed)
}

} // verus!
