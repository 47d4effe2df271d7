use vstd::prelude::*;

use std::rc::Rc;

use crate::execute::executor::ExitType;
use crate::execute::float::FloatOps;
use crate::instances::frame::Frame;
use crate::entities::instructions::{copy_instructions, same_instrs, ExpressionType, InstructionType};
use crate::entities::types::Func;
use crate::instances::func::{body_run_post, func_inst_type, FuncInst, FuncInstLocal};
use crate::instances::label::LabelInst;
use crate::instances::stack::{Stack, StackEntry};
use crate::instances::store::{same_func_type, Store};
use crate::instances::value::Val;
use crate::result::{RResult, Trap};

verus! {

/// The top `m` entries of `s` are all values.
pub open spec fn top_values(s: Seq<StackEntry>, m: nat) -> bool {
    &&& m <= s.len()
    &&& forall|i: int| s.len() - m <= i < s.len() ==> #[trigger] s[i] is Value
}

/// The values of the top `m` entries of `s`, deepest first.
pub open spec fn values_of(s: Seq<StackEntry>, m: nat) -> Seq<Val> {
    Seq::new(m, |i: int| s[s.len() - m + i]->Value_0)
}

/// `s` with the values `vs` pushed, first to last.
pub open spec fn push_vals(s: Seq<StackEntry>, vs: Seq<Val>) -> Seq<StackEntry> {
    s + vs.map_values(|v: Val| StackEntry::Value(v))
}

/// Pops `m` values and returns them in the order in which they were pushed. If fewer
/// than `m` values lie on top, the values above the first other entry are popped and
/// the call traps.
pub fn pop_values_original_order(stack: &mut Stack, m: usize) -> (r: RResult<Vec<Val>>)
    ensures
        r is Ok <==> top_values(old(stack)@, m as nat),
        match r {
            Ok(vs) => vs@ == values_of(old(stack)@, m as nat) && final(stack)@ == old(stack)@.take(
                old(stack)@.len() - m,
            ),
            Err(_) => exists|k: nat|
                k < m && #[trigger] top_values(old(stack)@, k) && !top_values(old(stack)@, k + 1) && final(stack)@
                    == old(stack)@.take(old(stack)@.len() - k),
        },
{
    let ghost s = old(stack)@;
    let mut values: Vec<Val> = Vec::new();
    let mut i: usize = 0;
    proof {
        assert(s.take(s.len() as int) =~= s);
    }
    while i < m
        invariant
            s == old(stack)@,
            i <= m,
            top_values(s, i as nat),
            stack@ == s.take(s.len() - i),
            values@ == values_of(s, i as nat),
        decreases m - i,
    {
        match stack.pop_value() {
            Some(v) => {
                values.insert(0, v);
                proof {
                    assert(top_values(s, (i + 1) as nat));
                    assert(s.take(s.len() - i).drop_last() =~= s.take(s.len() - (i + 1)));
                    assert(values@ =~= values_of(s, (i + 1) as nat));
                }
            },
            None => {
                proof {
                    assert(!top_values(s, (i + 1) as nat)) by {
                        assert(s.take(s.len() - i).len() == 0 || !(s[s.len() - i - 1] is Value));
                    }
                    assert(!top_values(s, m as nat)) by {
                        if top_values(s, m as nat) {
                            assert(s[s.len() - i - 1] is Value);
                        }
                    }
                }
                return Err(Trap);
            },
        }
        i = i + 1;
    }
    Ok(values)
}

/// Pushes the values of `vs`, first to last.
pub fn push_values(stack: &mut Stack, vs: Vec<Val>)
    ensures
        final(stack)@ == push_vals(old(stack)@, vs@),
{
    let mut i: usize = 0;
    while i < vs.len()
        invariant
            i <= vs@.len(),
            stack@ == push_vals(old(stack)@, vs@.take(i as int)),
        decreases vs@.len() - i,
    {
        stack.push_value(vs[i]);
        proof {
            assert(vs@.take(i + 1) =~= vs@.take(i as int).push(vs@[i as int]));
            assert(push_vals(old(stack)@, vs@.take(i + 1)) =~= push_vals(old(stack)@, vs@.take(i as int)).push(StackEntry::Value(vs@[i as int])));
        }
        i = i + 1;
    }
    proof {
        assert(vs@.take(vs@.len() as int) =~= vs@);
    }
}

/// Values pushed with `push_values` come back, in the order in which they were
/// pushed, from `pop_values_original_order` of as many values, which leaves the stack
/// as it was before the push.
pub proof fn law_pop_values_after_push_values(s: Seq<StackEntry>, vs: Seq<Val>)
    ensures
        top_values(push_vals(s, vs), vs.len()),
        values_of(push_vals(s, vs), vs.len()) == vs,
        push_vals(s, vs).take(push_vals(s, vs).len() - vs.len()) == s,
{
    let t = push_vals(s, vs);
    assert forall|i: int| t.len() - vs.len() <= i < t.len() implies #[trigger] t[i] is Value by {
        assert(t[i] == StackEntry::Value(vs[i - s.len()]));
    }
    assert(values_of(t, vs.len()) =~= vs);
    assert(t.take(t.len() - vs.len()) =~= s);
}

/// What a call of the function at `a` does, as far as it is stated here: an address
/// past the store traps and changes nothing; too few arguments on the stack, or a host
/// function, trap without touching the store.
pub open spec fn invoke_post(
    s: Seq<StackEntry>,
    s2: Seq<StackEntry>,
    st: Store,
    st2: Store,
    a: int,
    r: RResult<ExitType>,
) -> bool {
    if !(0 <= a < st.funcs@.len()) {
        r is Err && s2 == s && st2 == st
    } else if !top_values(s, func_inst_type(st.funcs@[a]).parameters@.len()) {
        r is Err && st2 == st
    } else if st.funcs@[a] is HostFunc {
        r is Err && st2 == st
    } else {
        true
    }
}

/// Names the stack `e` on which a function's body starts to run and the body, to
/// pick them out in the statements that speak of a call.
pub open spec fn call_entry(e: Seq<StackEntry>, body: Seq<InstructionType>) -> bool {
    true
}

/// How a call of the function at `a` defined in a module came about, where it ended
/// normally or its arguments were on top of `s`: its arguments were taken from there, a frame holding them as its
/// locals and a label for its results were pushed (the stack `e`), and a body whose
/// instructions are the same as the function's own (`same_instrs`) ran from there (`body_run_post`).
pub open spec fn invoke_run_post(
    s: Seq<StackEntry>,
    s2: Seq<StackEntry>,
    st: Store,
    st2: Store,
    a: int,
    fuel: nat,
    r: RResult<ExitType>,
) -> bool
    decreases fuel, 5nat,
{
    0 <= a < st.funcs@.len() && st.funcs@[a] is FuncInst && (r is Ok || top_values(
        s,
        func_inst_type(st.funcs@[a]).parameters@.len(),
    )) ==> {
        let l = st.funcs@[a]->FuncInst_0;
        let p = l.func_type.parameters@.len();
        let n = l.func_type.results@.len();
        exists|e: Seq<StackEntry>, body: Seq<InstructionType>| {
            &&& #[trigger] call_entry(e, body)
            &&& body_run_post(body, n, e, s2, st, st2, fuel, r)
            &&& same_instrs(l.code.body.instructions@, body)
            &&& p <= s.len()
            &&& e.len() == s.len() - p + 2
            &&& e.take(s.len() - p) == s.take(s.len() - p)
            &&& e[s.len() - p] matches StackEntry::Frame(f) && f.module == l.module && f.locals@ == values_of(s, p)
                && f.arity == Some(n as usize)
            &&& e[s.len() - p + 1] matches StackEntry::Label(lb) && lb.arity == n && lb.instructions@.len() == 0
        }
    }
}

/// A copy of a function defined in a module, to run while the store changes: the
/// same type and module, and a body with the same instructions.
fn copy_local_func(f: &FuncInstLocal) -> (r: FuncInstLocal)
    ensures
        same_func_type(r.func_type, f.func_type),
        r.module == f.module,
        same_instrs(f.code.body.instructions@, r.code.body.instructions@),
{
    FuncInstLocal {
        func_type: f.func_type.copy_type(),
        module: f.module.clone(),
        code: Func {
            func_type: f.code.func_type,
            locals: f.code.locals.clone(),
            body: ExpressionType { instructions: copy_instructions(&f.code.body.instructions) },
        },
    }
}

/// Calls the function at `function_addr`: takes its arguments, pushes a frame whose
/// locals are the arguments and a label for its results, and runs it.
pub fn invoke<F: FloatOps>(
    stack: &mut Stack,
    store: &mut Store,
    function_addr: usize,
    floats: &F,
    fuel: u64,
) -> (r: RResult<ExitType>)
    ensures
        invoke_post(old(stack)@, final(stack)@, *old(store), *final(store), function_addr as int, r),
        invoke_run_post(old(stack)@, final(stack)@, *old(store), *final(store), function_addr as int, fuel as nat, r),
    decreases fuel, 3nat,
{
    if function_addr >= store.funcs.len() {
        return Err(Trap);
    }
    let (n_params, arity) = {
        let t = store.funcs[function_addr].get_type();
        (t.parameters.len(), t.results.len())
    };
    let ghost s = old(stack)@;
    let values = pop_values_original_order(stack, n_params)?;
    let function = match &store.funcs[function_addr] {
        FuncInst::FuncInst(local) => copy_local_func(local),
        FuncInst::HostFunc(_) => return Err(Trap),
    };
    let module = function.module.clone();
    let activation_frame = Frame { module, locals: values, arity: Some(arity) };
    stack.push_frame(activation_frame);
    let label = LabelInst { arity, instructions: Rc::new(Vec::new()) };
    stack.push_label(label);
    let ghost e = stack@;
    let r = function.invoke(stack, store, floats, fuel);
    proof {
        let p = n_params as int;
        assert(e.take(s.len() - p) =~= s.take(s.len() - p));
        if r is Ok {
            assert(body_run_post(function.code.body.instructions@, arity as nat, e, stack@, *old(store), *store, fuel as nat, r));
            assert(call_entry(e, function.code.body.instructions@));
        }
    }
    r
}

} // verus!
