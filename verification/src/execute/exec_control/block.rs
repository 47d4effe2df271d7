use vstd::prelude::*;

use std::rc::Rc;

use crate::entities::instructions::{
    BlockInstructionType, BlockType, InstructionType, LoopInstructionType,
};
use crate::execute::exec_control::utils::{
    pop_values_original_order, push_vals, push_values, top_values, values_of,
};
use crate::execute::executor::{execute_instruction_fuel, instruction_run, ExitType};
use crate::execute::float::FloatOps;
use crate::instances::label::LabelInst;
use crate::instances::stack::{label_count, top_frame, Stack, StackEntry};
use crate::instances::store::Store;
use crate::result::{RResult, Trap};

verus! {

/// The effect of a block or loop of signature `bt` and `len` instructions, as far as
/// it is stated: a signature that cannot be resolved, or too few values for its
/// parameters, trap; an empty body passes its parameters on when they are its results.
pub open spec fn structured_post(
    s: Seq<StackEntry>,
    s2: Seq<StackEntry>,
    st: Store,
    st2: Store,
    bt: BlockType,
    len: nat,
    r: RResult<ExitType>,
) -> bool {
    match block_signature(s, bt) {
        Some((m, n)) => {
            &&& !top_values(s, m) ==> r is Err
            &&& len == 0 && top_values(s, m) ==> {
                &&& r is Ok <==> m == n
                &&& m == n ==> r == Ok::<ExitType, Trap>(ExitType::Completed) && s2 == s && st2 == st
            }
        },
        None => r is Err && s2 == s && st2 == st,
    }
}

/// The numbers of parameters and results of a block type, with a type index looked up
/// in the module of the current frame; `None` where the index names no type.
pub open spec fn block_signature(s: Seq<StackEntry>, bt: BlockType) -> Option<(nat, nat)> {
    match bt {
        BlockType::Empty => Some((0, 0)),
        BlockType::ValType(_) => Some((0, 1)),
        BlockType::TypeIndex(x) => match top_frame(s) {
            Some(f) => if 0 <= x.0 < f.module.types@.len() {
                Some(
                    (
                        f.module.types@[x.0 as int].parameters@.len(),
                        f.module.types@[x.0 as int].results@.len(),
                    ),
                )
            } else {
                None
            },
            None => None,
        },
    }
}

/// Looks up the numbers of parameters and results of a block type.
pub fn resolve_block_type(stack: &Stack, bt: &BlockType) -> (r: RResult<(usize, usize)>)
    ensures
        match block_signature(stack@, *bt) {
            Some((m, n)) => r == Ok::<(usize, usize), Trap>((m as usize, n as usize)) && m == r->Ok_0.0
                && n == r->Ok_0.1,
            None => r is Err,
        },
{
    match bt {
        BlockType::Empty => Ok((0, 0)),
        BlockType::ValType(_) => Ok((0, 1)),
        BlockType::TypeIndex(x) => {
            let frame = match stack.current_frame() {
                Some(f) => f,
                None => return Err(Trap),
            };
            if x.0 < 0 || x.0 as u64 >= frame.module.types.len() as u64 {
                return Err(Trap);
            }
            let t = &frame.module.types[x.0 as usize];
            Ok((t.parameters.len(), t.results.len()))
        },
    }
}

/// `t` records a run of the first `t.len() - 1` instructions of `instrs`, each with
/// `fuel - 1` levels of nesting left: `t[k]` is the stack and the store before
/// instruction `k` and `t[k + 1]` after it; each of these instructions completes as
/// `instruction_run` states, nested bodies and calls included, and all but the last
/// leave the labels from `depth` on in place.
pub open spec fn run_trace(instrs: Seq<InstructionType>, t: Seq<(Seq<StackEntry>, Store)>, depth: nat, fuel: nat) -> bool
    decreases fuel, 2nat,
{
    &&& 1 <= t.len() <= instrs.len() + 1
    &&& t.len() > 1 ==> fuel > 0
    &&& forall|k: int| 0 <= k < t.len() - 1 ==> fuel > 0 && instruction_run(
        instrs[k],
        (#[trigger] t[k]).0,
        t[k + 1].0,
        t[k].1,
        t[k + 1].1,
        (fuel - 1) as nat,
        Ok::<ExitType, Trap>(ExitType::Completed),
    )
    &&& forall|k: int| 0 < k < t.len() - 1 ==> label_count(#[trigger] t[k].0) >= depth
}

/// Names the stack `e` on which a run starts, the stack `s1` where it ends and its
/// result `rr`, to pick them out in the statements that speak of such a run.
pub open spec fn run_states(e: Seq<StackEntry>, s1: Seq<StackEntry>, rr: RResult<(ExitType, bool)>) -> bool {
    true
}

/// `t` starts at `(s, st)`.
pub open spec fn trace_from(t: Seq<(Seq<StackEntry>, Store)>, s: Seq<StackEntry>, st: Store) -> bool {
    t.len() > 0 && t[0] == (s, st)
}

/// How a run of `instrs` with `fuel` levels of nesting, from `(s, st)` to `(s2, st2)`,
/// that ended with `r` came about: through a trace whose instructions completed, up to
/// the end of the instructions (`Ok((Completed, false))`), up to a branch that left the
/// labels from `depth` on (`Ok((Completed, true))`), or up to an instruction that
/// returned. An error came after a trace of completed instructions, from the next
/// instruction (`instruction_run` with an error), or, with no nesting left, before the
/// first instruction, which leaves the state as it was.
pub open spec fn run_post(
    instrs: Seq<InstructionType>,
    depth: nat,
    fuel: nat,
    s: Seq<StackEntry>,
    s2: Seq<StackEntry>,
    st: Store,
    st2: Store,
    r: RResult<(ExitType, bool)>,
) -> bool
    decreases fuel, 3nat,
{
    match r {
        Ok((ExitType::Completed, false)) => exists|t: Seq<(Seq<StackEntry>, Store)>| {
            &&& run_trace(instrs, t, depth, fuel)
            &&& #[trigger] trace_from(t, s, st)
            &&& t.len() == instrs.len() + 1
            &&& t.last() == (s2, st2)
            &&& (t.len() > 1 ==> label_count(s2) >= depth)
        },
        Ok((ExitType::Completed, true)) => exists|t: Seq<(Seq<StackEntry>, Store)>| {
            &&& run_trace(instrs, t, depth, fuel)
            &&& #[trigger] trace_from(t, s, st)
            &&& t.len() > 1
            &&& t.last() == (s2, st2)
            &&& label_count(s2) < depth
        },
        Ok((ExitType::Returned, _)) => exists|t: Seq<(Seq<StackEntry>, Store)>| {
            &&& run_trace(instrs, t, depth, fuel)
            &&& #[trigger] trace_from(t, s, st)
            &&& 1 <= t.len() <= instrs.len()
            &&& fuel > 0
            &&& instruction_run(
                instrs[t.len() - 1],
                t.last().0,
                s2,
                t.last().1,
                st2,
                (fuel - 1) as nat,
                Ok::<ExitType, Trap>(ExitType::Returned),
            )
        },
        Err(_) => exists|t: Seq<(Seq<StackEntry>, Store)>| {
            &&& run_trace(instrs, t, depth, fuel)
            &&& #[trigger] trace_from(t, s, st)
            &&& 1 <= t.len() <= instrs.len()
            &&& if fuel == 0 {
                t.len() == 1 && (s2, st2) == (s, st)
            } else {
                instruction_run(
                    instrs[t.len() - 1],
                    t.last().0,
                    s2,
                    t.last().1,
                    st2,
                    (fuel - 1) as nat,
                    Err::<ExitType, Trap>(Trap),
                )
            }
        },
    }
}

/// Runs the instructions of a structured instruction whose label lies at depth
/// `depth` (counting labels from the bottom). Stops early on a `return`, and when a
/// branch has left the label.
pub fn run_structured<F: FloatOps>(
    instructions: &Vec<InstructionType>,
    depth: usize,
    stack: &mut Stack,
    store: &mut Store,
    floats: &F,
    fuel: u64,
) -> (r: RResult<(ExitType, bool)>)
    ensures
        instructions@.len() == 0 ==> r == Ok::<(ExitType, bool), Trap>((ExitType::Completed, false))
            && final(stack)@ == old(stack)@ && *final(store) == *old(store),
        run_post(instructions@, depth as nat, fuel as nat, old(stack)@, final(stack)@, *old(store), *final(store), r),
    decreases fuel, 0nat,
{
    let ghost mut t: Seq<(Seq<StackEntry>, Store)> = seq![(stack@, *store)];
    let mut i: usize = 0;
    while i < instructions.len()
        invariant
            i <= instructions@.len(),
            instructions@.len() == 0 ==> stack@ == old(stack)@ && *store == *old(store),
            run_trace(instructions@, t, depth as nat, fuel as nat),
            t.len() == i + 1,
            t[0] == (old(stack)@, *old(store)),
            t.last() == (stack@, *store),
            i > 0 ==> label_count(stack@) >= depth,
        decreases instructions@.len() - i,
    {
        if fuel == 0 {
            proof {
                assert(run_trace(instructions@, t, depth as nat, fuel as nat));
                assert(t.len() == 1);
                assert(1 <= t.len() <= instructions@.len());
                assert((stack@, *store) == (old(stack)@, *old(store)));
                assert(trace_from(t, old(stack)@, *old(store)));
                assert(run_post(instructions@, depth as nat, fuel as nat, old(stack)@, stack@, *old(store), *store, Err::<(ExitType, bool), Trap>(Trap)));
            }
            return Err(Trap);
        }
        let ghost before = t;
        let res = execute_instruction_fuel(&instructions[i], stack, store, floats, fuel - 1);
        let exit = match res {
            Ok(exit) => exit,
            Err(e) => {
                proof {
                    assert(res == Err::<ExitType, Trap>(Trap));
                    assert(run_trace(instructions@, before, depth as nat, fuel as nat));
                    assert(trace_from(before, old(stack)@, *old(store)));
                }
                return Err(e);
            },
        };
        if exit == ExitType::Returned {
            proof {
                assert(run_trace(instructions@, before, depth as nat, fuel as nat));
                assert(trace_from(before, old(stack)@, *old(store)));
            }
            return Ok((ExitType::Returned, false));
        }
        proof {
            t = before.push((stack@, *store));
            assert forall|k: int| 0 <= k < t.len() - 1 implies fuel > 0 && instruction_run(
                instructions@[k],
                (#[trigger] t[k]).0,
                t[k + 1].0,
                t[k].1,
                t[k + 1].1,
                (fuel - 1) as nat,
                Ok::<ExitType, Trap>(ExitType::Completed),
            ) by {
                if k < i {
                    assert(t[k] == before[k] && t[k + 1] == before[k + 1]);
                }
            }
            assert forall|k: int| 0 < k < t.len() - 1 implies label_count(#[trigger] t[k].0) >= depth by {
                assert(t[k] == before[k]);
            }
            assert(run_trace(instructions@, t, depth as nat, fuel as nat));
            assert(trace_from(t, old(stack)@, *old(store)));
        }
        if stack.count_labels() < depth {
            return Ok((ExitType::Completed, true));
        }
        i = i + 1;
    }
    proof {
        assert(trace_from(t, old(stack)@, *old(store)));
    }
    Ok((ExitType::Completed, false))
}

/// The stack after a structured instruction whose label sits below `n` result values
/// at the top of `s`: the label goes, the values stay.
pub open spec fn label_exit(s: Seq<StackEntry>, n: nat) -> Option<Seq<StackEntry>> {
    if top_values(s, n) && s.len() > n && s[s.len() - n - 1] is Label {
        Some(push_vals(s.take(s.len() - n - 1), values_of(s, n)))
    } else {
        None
    }
}

/// Leaves a structured instruction: takes its `n` results, removes its label, and
/// pushes the results back.
pub fn exit_label(stack: &mut Stack, n: usize) -> (r: RResult<()>)
    ensures
        match label_exit(old(stack)@, n as nat) {
            Some(t) => r is Ok && final(stack)@ == t,
            None => r is Err,
        },
{
    let ghost s = old(stack)@;
    let values = pop_values_original_order(stack, n)?;
    match stack.pop_label() {
        Some(_) => {},
        None => return Err(Trap),
    }
    proof {
        assert(s.take(s.len() - n).drop_last() =~= s.take(s.len() - n - 1));
    }
    push_values(stack, values);
    Ok(())
}

/// What a block or loop with the body `instrs` and the signature `m` to `n` does once
/// its parameters are on the stack `s`: the parameters go above a new label whose
/// arity is `arity` and whose continuation has `cont` instructions, and the body runs
/// there with `fuel` levels of nesting (`run_post`). A body that runs to its end
/// leaves its `n` results in place of the label, and traps where they are not there;
/// one that branched or returned leaves the stack as it is; one that trapped leaves
/// the stack where it trapped.
pub open spec fn structured_run_post(
    instrs: Seq<InstructionType>,
    s: Seq<StackEntry>,
    s2: Seq<StackEntry>,
    st: Store,
    st2: Store,
    m: nat,
    n: nat,
    arity: nat,
    cont: nat,
    fuel: nat,
    r: RResult<ExitType>,
) -> bool
    decreases fuel, 5nat,
{
    exists|e: Seq<StackEntry>, s1: Seq<StackEntry>, rr: RResult<(ExitType, bool)>| {
        &&& #[trigger] run_states(e, s1, rr)
        &&& run_post(instrs, label_count(s.take(s.len() - m)) + 1, fuel, e, s1, st, st2, rr)
        &&& e == push_vals(s.take(s.len() - m).push(e[s.len() - m]), values_of(s, m))
        &&& e[s.len() - m] matches StackEntry::Label(l) && l.arity == arity && l.instructions@.len() == cont
        &&& match rr {
            Ok((ExitType::Completed, false)) => match label_exit(s1, n) {
                Some(x) => r == Ok::<ExitType, Trap>(ExitType::Completed) && s2 == x,
                None => r is Err,
            },
            Ok((exit, _)) => r == Ok::<ExitType, Trap>(exit) && s2 == s1,
            Err(_) => r is Err && s2 == s1,
        }
    }
}

/// `block`: takes the block's parameters, pushes a label whose branch target is the
/// end of the block, puts the parameters back and runs the body. At the end of the
/// body the results stay and the label goes.
pub fn block<F: FloatOps>(
    stack: &mut Stack,
    store: &mut Store,
    block_instruction: &BlockInstructionType,
    floats: &F,
    fuel: u64,
) -> (r: RResult<ExitType>)
    ensures
        structured_post(old(stack)@, final(stack)@, *old(store), *final(store), block_instruction.blocktype, block_instruction.instructions@.len(), r),
        match block_signature(old(stack)@, block_instruction.blocktype) {
            Some((m, n)) => top_values(old(stack)@, m) ==> structured_run_post(
                block_instruction.instructions@,
                old(stack)@,
                final(stack)@,
                *old(store),
                *final(store),
                m,
                n,
                n,
                0,
                fuel as nat,
                r,
            ),
            None => true,
        },
    decreases fuel, 1nat,
{
    let ghost s = old(stack)@;
    let (m, n) = resolve_block_type(stack, &block_instruction.blocktype)?;
    let params = pop_values_original_order(stack, m)?;
    let label = LabelInst { arity: n, instructions: Rc::new(Vec::new()) };
    stack.push_label(label);
    let depth = stack.count_labels();
    let ghost base = stack@;
    push_values(stack, params);
    let ghost entered = stack@;
    let run = run_structured(
        &block_instruction.instructions,
        depth,
        stack,
        store,
        floats,
        fuel,
    );
    let ghost after_run = stack@;
    proof {
        assert(base.drop_last() =~= s.take(s.len() - m));
        assert(entered[s.len() - m] == base.last());
        assert(entered == push_vals(s.take(s.len() - m).push(entered[s.len() - m]), values_of(s, m as nat)));
    }
    let (exit, branched) = match run {
        Ok(x) => x,
        Err(e) => {
            proof {
                assert(run_post(block_instruction.instructions@, (label_count(s.take(s.len() - m)) + 1) as nat, fuel as nat, entered, after_run, *old(store), *store, run));
                assert(run_states(entered, after_run, run));
            }
            return Err(e);
        },
    };
    if exit == ExitType::Returned || branched {
        proof {
            let rr = Ok::<(ExitType, bool), Trap>((exit, branched));
            assert(run_post(block_instruction.instructions@, (label_count(s.take(s.len() - m)) + 1) as nat, fuel as nat, entered, after_run, *old(store), *store, rr));
                assert(run_states(entered, after_run, rr));
        }
        return Ok(exit);
    }
    proof {
        if block_instruction.instructions@.len() == 0 {
            assert(stack@ == entered);
            assert(base.last() is Label);
            if m == n {
                assert(top_values(entered, n as nat));
                assert(entered.take(entered.len() - n - 1) =~= s.take(s.len() - m));
                assert(values_of(entered, n as nat) =~= values_of(s, m as nat));
                assert(push_vals(s.take(s.len() - m), values_of(s, m as nat)) =~= s);
            } else if n < m {
                assert(entered[entered.len() - n - 1] is Value);
            } else {
                assert(!top_values(entered, n as nat)) by {
                    assert(!(entered[entered.len() - m - 1] is Value));
                }
            }
        }
    }
    let exited = exit_label(stack, n);
    proof {
        let rr = Ok::<(ExitType, bool), Trap>((ExitType::Completed, false));
        assert(run_post(block_instruction.instructions@, (label_count(s.take(s.len() - m)) + 1) as nat, fuel as nat, entered, after_run, *old(store), *store, rr));
                assert(run_states(entered, after_run, rr));
    }
    if exited.is_err() {
        return Err(Trap);
    }
    proof {
        let rr = Ok::<(ExitType, bool), Trap>((ExitType::Completed, false));
        assert(run_post(block_instruction.instructions@, (label_count(s.take(s.len() - m)) + 1) as nat, fuel as nat, entered, after_run, *old(store), *store, rr));
                assert(run_states(entered, after_run, rr));
    }
    Ok(ExitType::Completed)
}

/// `loop`: like `block`, but the label carries the loop's parameters and a branch to
/// it enters the loop again.
pub fn exec_loop<F: FloatOps>(
    stack: &mut Stack,
    store: &mut Store,
    loop_instruction: &LoopInstructionType,
    floats: &F,
    fuel: u64,
) -> (r: RResult<ExitType>)
    ensures
        structured_post(old(stack)@, final(stack)@, *old(store), *final(store), loop_instruction.blocktype, loop_instruction.instructions@.len(), r),
        match block_signature(old(stack)@, loop_instruction.blocktype) {
            Some((m, n)) => top_values(old(stack)@, m) ==> structured_run_post(
                loop_instruction.instructions@,
                old(stack)@,
                final(stack)@,
                *old(store),
                *final(store),
                m,
                n,
                m,
                1,
                fuel as nat,
                r,
            ),
            None => true,
        },
    decreases fuel, 1nat,
{
    let ghost s = old(stack)@;
    let (m, n) = resolve_block_type(stack, &loop_instruction.blocktype)?;
    let params = pop_values_original_order(stack, m)?;
    let again = InstructionType::Loop(
        LoopInstructionType {
            blocktype: loop_instruction.blocktype,
            instructions: loop_instruction.instructions.clone(),
        },
    );
    let label = LabelInst { arity: m, instructions: Rc::new(vec![again]) };
    stack.push_label(label);
    let depth = stack.count_labels();
    let ghost base = stack@;
    push_values(stack, params);
    let ghost entered = stack@;
    let run = run_structured(
        &loop_instruction.instructions,
        depth,
        stack,
        store,
        floats,
        fuel,
    );
    let ghost after_run = stack@;
    proof {
        assert(base.drop_last() =~= s.take(s.len() - m));
        assert(entered[s.len() - m] == base.last());
        assert(entered == push_vals(s.take(s.len() - m).push(entered[s.len() - m]), values_of(s, m as nat)));
    }
    let (exit, branched) = match run {
        Ok(x) => x,
        Err(e) => {
            proof {
                assert(run_post(loop_instruction.instructions@, (label_count(s.take(s.len() - m)) + 1) as nat, fuel as nat, entered, after_run, *old(store), *store, run));
                assert(run_states(entered, after_run, run));
            }
            return Err(e);
        },
    };
    if exit == ExitType::Returned || branched {
        proof {
            let rr = Ok::<(ExitType, bool), Trap>((exit, branched));
            assert(run_post(loop_instruction.instructions@, (label_count(s.take(s.len() - m)) + 1) as nat, fuel as nat, entered, after_run, *old(store), *store, rr));
                assert(run_states(entered, after_run, rr));
        }
        return Ok(exit);
    }
    proof {
        if loop_instruction.instructions@.len() == 0 {
            assert(stack@ == entered);
            assert(base.last() is Label);
            if m == n {
                assert(top_values(entered, n as nat));
                assert(entered.take(entered.len() - n - 1) =~= s.take(s.len() - m));
                assert(values_of(entered, n as nat) =~= values_of(s, m as nat));
                assert(push_vals(s.take(s.len() - m), values_of(s, m as nat)) =~= s);
            } else if n < m {
                assert(entered[entered.len() - n - 1] is Value);
            } else {
                assert(!top_values(entered, n as nat)) by {
                    assert(!(entered[entered.len() - m - 1] is Value));
                }
            }
        }
    }
    let exited = exit_label(stack, n);
    proof {
        let rr = Ok::<(ExitType, bool), Trap>((ExitType::Completed, false));
        assert(run_post(loop_instruction.instructions@, (label_count(s.take(s.len() - m)) + 1) as nat, fuel as nat, entered, after_run, *old(store), *store, rr));
                assert(run_states(entered, after_run, rr));
    }
    if exited.is_err() {
        return Err(Trap);
    }
    proof {
        let rr = Ok::<(ExitType, bool), Trap>((ExitType::Completed, false));
        assert(run_post(loop_instruction.instructions@, (label_count(s.take(s.len() - m)) + 1) as nat, fuel as nat, entered, after_run, *old(store), *store, rr));
                assert(run_states(entered, after_run, rr));
    }
    Ok(ExitType::Completed)
}

} // verus!
