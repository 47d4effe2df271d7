use vstd::prelude::*;

use std::rc::Rc;

use crate::entities::types::{Func, FuncType};
use crate::entities::instructions::InstructionType;
use crate::execute::exec_control::block::{run_post, run_states, run_structured};
use crate::execute::exec_control::utils::{
    pop_values_original_order, push_vals, push_values, top_values, values_of,
};
use crate::execute::executor::ExitType;
use crate::execute::float::FloatOps;
use crate::instances::module::ModuleInst;
use crate::instances::stack::{label_count, Stack, StackEntry};
use crate::instances::store::Store;
use crate::result::{RResult, Trap};

verus! {

#[derive(Debug, Clone)]
pub enum FuncInst {
    FuncInst(FuncInstLocal),
    HostFunc(HostFunc),
}

/// The type of a function instance.
pub open spec fn func_inst_type(f: FuncInst) -> FuncType {
    match f {
        FuncInst::FuncInst(l) => l.func_type,
        FuncInst::HostFunc(h) => h.func_type,
    }
}

impl FuncInst {
    pub fn get_type(&self) -> (r: &FuncType)
        ensures
            *r == func_inst_type(*self),
    {
        match self {
            FuncInst::FuncInst(f) => &f.func_type,
            FuncInst::HostFunc(h) => &h.func_type,
        }
    }

    /// The module of a function defined in a module; host functions have none.
    pub fn get_module(&self) -> (r: Option<Rc<ModuleInst>>)
        ensures
            match *self {
                FuncInst::FuncInst(l) => r == Some(l.module),
                FuncInst::HostFunc(_) => r is None,
            },
    {
        match self {
            FuncInst::FuncInst(f) => Some(f.module.clone()),
            FuncInst::HostFunc(_) => None,
        }
    }

    /// Runs the function, whose frame and label are on the stack.
    pub fn invoke<F: FloatOps>(&self, stack: &mut Stack, store: &mut Store, floats: &F, fuel: u64) -> (r:
        RResult<ExitType>)
        ensures
            *self is HostFunc ==> r is Err && final(stack)@ == old(stack)@ && *final(store) == *old(store),
            match *self {
                FuncInst::FuncInst(l) => l.code.body.instructions@.len() == 0 ==> match call_exit(
                    old(stack)@,
                    l.func_type.results@.len(),
                ) {
                    Some(t) => r == Ok::<ExitType, Trap>(ExitType::Completed) && final(stack)@ == t
                        && *final(store) == *old(store),
                    None => r is Err,
                },
                FuncInst::HostFunc(_) => true,
            },
            match *self {
                FuncInst::FuncInst(l) => body_run_post(l.code.body.instructions@, l.func_type.results@.len(), old(stack)@, final(stack)@, *old(store), *final(store), fuel as nat, r),
                FuncInst::HostFunc(_) => true,
            },
        decreases fuel, 2nat,
    {
        match self {
            FuncInst::FuncInst(f) => f.invoke(stack, store, floats, fuel),
            FuncInst::HostFunc(h) => h.invoke(stack, store),
        }
    }
}

/// The stack after a function whose `n` results lie on top of its label and frame
/// returns: label and frame go, the results stay.
pub open spec fn call_exit(s: Seq<StackEntry>, n: nat) -> Option<Seq<StackEntry>> {
    if top_values(s, n) && s.len() >= n + 2 && s[s.len() - n - 1] is Label && s[s.len() - n - 2] is Frame {
        Some(push_vals(s.take(s.len() - n - 2), values_of(s, n)))
    } else {
        None
    }
}

/// The stack after a function whose `n` results lie on top of its frame, its label
/// having been left by a branch, ends: the frame goes, the results stay.
pub open spec fn frame_exit(s: Seq<StackEntry>, n: nat) -> Option<Seq<StackEntry>> {
    if top_values(s, n) && s.len() >= n + 1 && s[s.len() - n - 1] is Frame {
        Some(push_vals(s.take(s.len() - n - 1), values_of(s, n)))
    } else {
        None
    }
}

/// How the body `body` of a function with `n` results, entered with its frame and
/// label on top of `s`, led to `s2` when it ended normally: the body ran
/// (`run_post`) to its end, to a branch out of its label, or to a `return`, and the
/// function's results were then left on top in place of its label and frame.
pub open spec fn body_run_post(
    body: Seq<InstructionType>,
    n: nat,
    s: Seq<StackEntry>,
    s2: Seq<StackEntry>,
    st: Store,
    st2: Store,
    fuel: nat,
    r: RResult<ExitType>,
) -> bool
    decreases fuel, 4nat,
{
    &&& r is Ok ==> r == Ok::<ExitType, Trap>(ExitType::Completed) && exists|s1: Seq<StackEntry>, rr: RResult<(ExitType, bool)>| {
        &&& #[trigger] run_states(s, s1, rr)
        &&& run_post(body, label_count(s), fuel, s, s1, st, st2, rr)
        &&& match rr {
            Ok((ExitType::Returned, _)) => s2 == s1,
            Ok((ExitType::Completed, false)) => call_exit(s1, n) == Some(s2),
            Ok((ExitType::Completed, true)) => frame_exit(s1, n) == Some(s2),
            Err(_) => false,
        }
    }
    &&& r is Err ==> exists|s1: Seq<StackEntry>, rr: RResult<(ExitType, bool)>| {
        &&& #[trigger] run_states(s, s1, rr)
        &&& run_post(body, label_count(s), fuel, s, s1, st, st2, rr)
        &&& match rr {
            Err(_) => s2 == s1,
            Ok((ExitType::Completed, false)) => call_exit(s1, n) is None,
            Ok((ExitType::Completed, true)) => frame_exit(s1, n) is None,
            Ok((ExitType::Returned, _)) => false,
        }
    }
}

#[derive(Debug, Clone)]
pub struct FuncInstLocal {
    pub func_type: FuncType,
    pub module: Rc<ModuleInst>,
    pub code: Func,
}

impl FuncInstLocal {
    /// Runs the body of the function, whose frame and label are on the stack, then
    /// leaves the frame with the function's results on top. A branch to the function's
    /// label leaves it in the same way.
    pub fn invoke<F: FloatOps>(&self, stack: &mut Stack, store: &mut Store, floats: &F, fuel: u64) -> (r:
        RResult<ExitType>)
        ensures
            self.code.body.instructions@.len() == 0 ==> match call_exit(
                old(stack)@,
                self.func_type.results@.len(),
            ) {
                Some(t) => r == Ok::<ExitType, Trap>(ExitType::Completed) && final(stack)@ == t
                    && *final(store) == *old(store),
                None => r is Err,
            },
            body_run_post(self.code.body.instructions@, self.func_type.results@.len(), old(stack)@, final(stack)@, *old(store), *final(store), fuel as nat, r),
        decreases fuel, 1nat,
    {
        let ghost s = old(stack)@;
        let depth = stack.count_labels();
        let run = run_structured(&self.code.body.instructions, depth, stack, store, floats, fuel);
        let ghost s1 = stack@;
        let ghost rr = run;
        assert(run_post(self.code.body.instructions@, label_count(s), fuel as nat, s, s1, *old(store), *store, rr));
        assert(run_states(s, s1, rr));
        let (exit, branched) = match run {
            Ok(x) => x,
            Err(e) => return Err(e),
        };
        if exit == ExitType::Returned {
            return Ok(ExitType::Completed);
        }
        let n = self.func_type.results.len();
        let result = pop_values_original_order(stack, n)?;
        if !branched {
            match stack.pop_label() {
                Some(_) => {},
                None => return Err(Trap),
            }
        }
        match stack.pop_frame() {
            Some(_) => {},
            None => return Err(Trap),
        }
        proof {
            if self.code.body.instructions@.len() == 0 {
                assert(s.take(s.len() - n).drop_last().drop_last() =~= s.take(s.len() - n - 2));
            }
            if branched {
                assert(s1.take(s1.len() - n).drop_last() =~= s1.take(s1.len() - n - 1));
            } else {
                assert(s1.take(s1.len() - n).drop_last().drop_last() =~= s1.take(s1.len() - n - 2));
            }
        }
        push_values(stack, result);
        Ok(ExitType::Completed)
    }
}

#[derive(Debug, Clone)]
pub struct HostFunc {
    pub func_type: FuncType,
    pub host_code: HostCode,
}

impl HostFunc {
    /// Host functions cannot be run: the call traps.
    pub fn invoke(&self, stack: &mut Stack, store: &mut Store) -> (r: RResult<ExitType>)
        ensures
            r is Err,
            final(stack)@ == old(stack)@,
            *final(store) == *old(store),
    {
        Err(Trap)
    }
}

#[derive(Debug, Clone, Copy, PartialEq, Eq, Structural)]
pub struct HostCode;

} // verus!
