use vstd::prelude::*;

use std::rc::Rc;

use crate::entities::instructions::{ExpressionType, InstructionType};
use crate::entities::module::{segment_init_exprs, DataType, ElementSegmentType, Global, Module, StartType};
use crate::execute::executor::{execute_expression, expression_post, sequence_run};
use crate::execute::float::FloatOps;
use crate::instances::func::FuncInst;
use crate::instances::module::{datas_trace, elems_trace, ext_addrs, ExternKind, ExternalDependency, ModuleInst};
use crate::instances::ref_inst::RefInst;
use crate::instances::stack::{Stack, StackEntry};
use crate::instances::store::{allocated, same_func_type, Store};
use crate::entities::module::func_of_module;
use crate::instances::value::Val;
use crate::result::{RResult, Trap};

verus! {

/// The instructions of each of the expressions `es`.
pub open spec fn instrs_of(es: Seq<ExpressionType>) -> Seq<Seq<InstructionType>> {
    es.map_values(|e: ExpressionType| e.instructions@)
}

/// The initialiser expressions of the globals of `m`.
pub open spec fn global_inits(m: Module) -> Seq<Seq<InstructionType>> {
    m.globals@.map_values(|g: Global| g.init.instructions@)
}

/// The values `rs` as values on the stack.
pub open spec fn ref_vals(rs: Seq<RefInst>) -> Seq<Val> {
    rs.map_values(|x: RefInst| Val::Ref(x))
}

/// `t` and `vals` record evaluating the first `vals.len()` of the expressions `exprs`
/// one after another: expression `k` led from `t[k]` to `t[k + 1]` with the value
/// `vals[k]`. Where `refs` holds, each of those values is a reference.
pub open spec fn exprs_evaluated(
    exprs: Seq<Seq<InstructionType>>,
    t: Seq<(Seq<StackEntry>, Store)>,
    vals: Seq<Val>,
    refs: bool,
) -> bool {
    &&& t.len() == vals.len() + 1
    &&& vals.len() <= exprs.len()
    &&& forall|k: int|
        0 <= k < vals.len() ==> expression_post(
            exprs[k],
            t[k].0,
            t[k].1,
            t[k + 1].0,
            t[k + 1].1,
            Ok::<Val, Trap>(#[trigger] vals[k]),
        )
    &&& refs ==> forall|k: int| 0 <= k < vals.len() ==> (#[trigger] vals[k]) is Ref
}

/// Evaluating the expressions `exprs` one after another from `(s, st)` ended in
/// `(s2, st2)` with `r`: all of them, with the values of `r`; or the first ones, after
/// which the next one failed by a trap or, where `refs` holds, by a value that is no
/// reference.
pub open spec fn evals_post(
    exprs: Seq<Seq<InstructionType>>,
    s: Seq<StackEntry>,
    st: Store,
    s2: Seq<StackEntry>,
    st2: Store,
    refs: bool,
    r: RResult<Seq<Val>>,
) -> bool {
    exists|t: Seq<(Seq<StackEntry>, Store)>, vals: Seq<Val>| {
        &&& #[trigger] exprs_evaluated(exprs, t, vals, refs)
        &&& t[0] == (s, st)
        &&& match r {
            Ok(vs) => vs == vals && vals.len() == exprs.len() && t.last() == (s2, st2),
            Err(_) => vals.len() < exprs.len() && exists|v: RResult<Val>| {
                &&& #[trigger] expression_post(exprs[vals.len() as int], t.last().0, t.last().1, s2, st2, v)
                &&& (v is Err || (refs && (v matches Ok(x) && !(x is Ref))))
            },
        }
    }
}

/// Evaluates the initialisers of the globals of `module`, one after another.
pub fn eval_globals<F: FloatOps>(module: &Module, stack: &mut Stack, store: &mut Store, floats: &F) -> (r: RResult<Vec<Val>>)
    ensures
        evals_post(
            global_inits(*module),
            old(stack)@,
            *old(store),
            final(stack)@,
            *final(store),
            false,
            match r {
                Ok(v) => Ok(v@),
                Err(e) => Err(e),
            },
        ),
{
    let ghost exprs = global_inits(*module);
    let ghost mut t: Seq<(Seq<StackEntry>, Store)> = seq![(stack@, *store)];
    let mut vals: Vec<Val> = Vec::new();
    let mut g: usize = 0;
    while g < module.globals.len()
        invariant
            g <= module.globals@.len(),
            exprs == global_inits(*module),
            exprs.len() == module.globals@.len(),
            vals@.len() == g,
            exprs_evaluated(exprs, t, vals@, false),
            t[0] == (old(stack)@, *old(store)),
            t.last() == (stack@, *store),
        decreases module.globals@.len() - g,
    {
        let ghost before = t;
        let ghost before_vals = vals@;
        let res = execute_expression(&module.globals[g].init, stack, store, floats);
        assert(exprs[g as int] == module.globals@[g as int].init.instructions@);
        match res {
            Ok(v) => {
                vals.push(v);
                proof {
                    t = before.push((stack@, *store));
                    assert forall|k: int| 0 <= k < vals@.len() implies expression_post(
                        exprs[k],
                        t[k].0,
                        t[k].1,
                        t[k + 1].0,
                        t[k + 1].1,
                        Ok::<Val, Trap>(#[trigger] vals@[k]),
                    ) by {
                        if k < g {
                            assert(t[k] == before[k] && t[k + 1] == before[k + 1] && vals@[k] == before_vals[k]);
                        }
                    }
                }
                g = g + 1;
            },
            Err(e) => {
                proof {
                    assert(expression_post(exprs[vals@.len() as int], t.last().0, t.last().1, stack@, *store, res));
                    assert(exprs_evaluated(exprs, t, vals@, false));
                }
                return Err(e);
            },
        }
    }
    proof {
        assert(exprs_evaluated(exprs, t, vals@, false));
    }
    Ok(vals)
}

/// Evaluates the expressions `exprs` one after another, each to a reference.
pub fn eval_refs<F: FloatOps>(exprs: &Vec<ExpressionType>, stack: &mut Stack, store: &mut Store, floats: &F) -> (r:
    RResult<Vec<RefInst>>)
    ensures
        evals_post(
            instrs_of(exprs@),
            old(stack)@,
            *old(store),
            final(stack)@,
            *final(store),
            true,
            match r {
                Ok(v) => Ok(ref_vals(v@)),
                Err(e) => Err(e),
            },
        ),
{
    let ghost es = instrs_of(exprs@);
    let ghost mut t: Seq<(Seq<StackEntry>, Store)> = seq![(stack@, *store)];
    let mut refs: Vec<RefInst> = Vec::new();
    let mut k: usize = 0;
    while k < exprs.len()
        invariant
            k <= exprs@.len(),
            es == instrs_of(exprs@),
            es.len() == exprs@.len(),
            refs@.len() == k,
            exprs_evaluated(es, t, ref_vals(refs@), true),
            t[0] == (old(stack)@, *old(store)),
            t.last() == (stack@, *store),
        decreases exprs@.len() - k,
    {
        let ghost before = t;
        let ghost before_vals = ref_vals(refs@);
        let res = execute_expression(&exprs[k], stack, store, floats);
        assert(es[k as int] == exprs@[k as int].instructions@);
        match res {
            Ok(Val::Ref(x)) => {
                refs.push(x);
                proof {
                    t = before.push((stack@, *store));
                    let vs = ref_vals(refs@);
                    assert(vs =~= before_vals.push(Val::Ref(x)));
                    assert forall|j: int| 0 <= j < vs.len() implies expression_post(
                        es[j],
                        t[j].0,
                        t[j].1,
                        t[j + 1].0,
                        t[j + 1].1,
                        Ok::<Val, Trap>(#[trigger] vs[j]),
                    ) by {
                        if j < k {
                            assert(t[j] == before[j] && t[j + 1] == before[j + 1] && vs[j] == before_vals[j]);
                        }
                    }
                    assert forall|j: int| 0 <= j < vs.len() implies (#[trigger] vs[j]) is Ref by {
                        if j < k {
                            assert(vs[j] == before_vals[j]);
                        }
                    }
                }
                k = k + 1;
            },
            _ => {
                proof {
                    assert(ref_vals(refs@).len() == k);
                    assert(expression_post(es[k as int], t.last().0, t.last().1, stack@, *store, res));
                }
                return Err(Trap);
            },
        }
    }
    Ok(refs)
}


/// `t`, `inits` and `refs` record evaluating the initialisers of the first
/// `refs.len()` element segments of `m`: segment `k`, whose initialiser expressions are
/// `inits[k]`, led from `t[k]` to `t[k + 1]` with the references `refs[k]`.
pub open spec fn elem_refs_evaluated(
    m: Module,
    t: Seq<(Seq<StackEntry>, Store)>,
    inits: Seq<Seq<ExpressionType>>,
    refs: Seq<Vec<RefInst>>,
) -> bool {
    &&& t.len() == refs.len() + 1
    &&& inits.len() == refs.len()
    &&& refs.len() <= m.elems@.len()
    &&& forall|k: int| 0 <= k < refs.len() ==> #[trigger] segment_evaluated(m, k, t, inits, refs)
}

/// Segment `k` of `m`, whose initialiser expressions are `inits[k]`, led from `t[k]`
/// to `t[k + 1]` with the references `refs[k]`.
pub open spec fn segment_evaluated(
    m: Module,
    k: int,
    t: Seq<(Seq<StackEntry>, Store)>,
    inits: Seq<Seq<ExpressionType>>,
    refs: Seq<Vec<RefInst>>,
) -> bool {
    &&& segment_init_exprs(m.elems@[k], inits[k])
    &&& evals_post(instrs_of(inits[k]), t[k].0, t[k].1, t[k + 1].0, t[k + 1].1, true, Ok::<Seq<Val>, Trap>(ref_vals(refs[k]@)))
}

/// Evaluating the initialisers of the element segments of `m` from `(s, st)` ended in
/// `(s2, st2)` with `r`: all segments, with the references of `r`; or the first ones,
/// after which the next one failed.
pub open spec fn elem_refs_post(
    m: Module,
    s: Seq<StackEntry>,
    st: Store,
    s2: Seq<StackEntry>,
    st2: Store,
    r: RResult<Seq<Vec<RefInst>>>,
) -> bool {
    exists|t: Seq<(Seq<StackEntry>, Store)>, inits: Seq<Seq<ExpressionType>>, refs: Seq<Vec<RefInst>>| {
        &&& #[trigger] elem_refs_evaluated(m, t, inits, refs)
        &&& t[0] == (s, st)
        &&& match r {
            Ok(v) => v == refs && refs.len() == m.elems@.len() && t.last() == (s2, st2),
            Err(_) => refs.len() < m.elems@.len() && exists|init: Seq<ExpressionType>| {
                &&& #[trigger] segment_init_exprs(m.elems@[refs.len() as int], init)
                &&& evals_post(instrs_of(init), t.last().0, t.last().1, s2, st2, true, Err::<Seq<Val>, Trap>(Trap))
            },
        }
    }
}

/// Evaluates the initialisers of the element segments of `module`, segment by
/// segment, each to a reference.
pub fn eval_elem_refs<F: FloatOps>(module: &Module, stack: &mut Stack, store: &mut Store, floats: &F) -> (r: RResult<
    Vec<Vec<RefInst>>,
>)
    ensures
        elem_refs_post(
            *module,
            old(stack)@,
            *old(store),
            final(stack)@,
            *final(store),
            match r {
                Ok(v) => Ok(v@),
                Err(e) => Err(e),
            },
        ),
{
    let ghost mut t: Seq<(Seq<StackEntry>, Store)> = seq![(stack@, *store)];
    let ghost mut inits: Seq<Seq<ExpressionType>> = Seq::empty();
    let mut refs_refs: Vec<Vec<RefInst>> = Vec::new();
    let mut e: usize = 0;
    while e < module.elems.len()
        invariant
            e <= module.elems@.len(),
            refs_refs@.len() == e,
            elem_refs_evaluated(*module, t, inits, refs_refs@),
            t.len() == e + 1,
            t[0] == (old(stack)@, *old(store)),
            t.last() == (stack@, *store),
        decreases module.elems@.len() - e,
    {
        let ghost before = t;
        let ghost before_inits = inits;
        let ghost before_refs = refs_refs@;
        let init = module.elems[e].get_init();
        let res = eval_refs(&init, stack, store, floats);
        match res {
            Ok(refs) => {
                let ghost rv = refs;
                refs_refs.push(refs);
                proof {
                    t = before.push((stack@, *store));
                    inits = before_inits.push(init@);
                    assert forall|k: int| 0 <= k < refs_refs@.len() implies #[trigger] segment_evaluated(
                        *module,
                        k,
                        t,
                        inits,
                        refs_refs@,
                    ) by {
                        if k < e {
                            assert(segment_evaluated(*module, k, before, before_inits, before_refs));
                            assert(t[k] == before[k] && t[k + 1] == before[k + 1] && inits[k] == before_inits[k]
                                && refs_refs@[k] == before_refs[k]);
                        } else {
                            assert(t[k] == before.last());
                            assert(refs_refs@[k] == rv);
                            assert(inits[k] == init@);
                        }
                    }
                    assert(elem_refs_evaluated(*module, t, inits, refs_refs@));
                }
                e = e + 1;
            },
            Err(x) => {
                proof {
                    assert(segment_init_exprs(module.elems@[refs_refs@.len() as int], init@));
                }
                return Err(x);
            },
        }
    }
    Ok(refs_refs)
}


/// The top of `s` is a frame.
pub open spec fn top_is_frame(s: Seq<StackEntry>) -> bool {
    s.len() > 0 && s.last() is Frame
}

/// `s1` is `s` with a frame of the instance `m` on top, without locals.
pub open spec fn frame_pushed(s: Seq<StackEntry>, s1: Seq<StackEntry>, m: Rc<ModuleInst>) -> bool {
    &&& s1.len() == s.len() + 1
    &&& s1.drop_last() == s
    &&& s1.last() matches StackEntry::Frame(f) && f.module == m && f.locals@.len() == 0 && f.arity is None
}

/// The start of an instantiation of `module` with the imports `ext` from `(s, st)`:
/// the auxiliary instance `aux`, in which the initialisers run, has the module's types,
/// the imported globals and functions of its own, allocated after those of `st` (the
/// store `st1`), and a frame of it lies on top of `s` (the stack `s1`).
pub open spec fn aux_ready(
    module: Module,
    ext: Seq<ExternalDependency>,
    s: Seq<StackEntry>,
    st: Store,
    aux: Rc<ModuleInst>,
    s1: Seq<StackEntry>,
    st1: Store,
) -> bool {
    let n = module.funcs@.len();
    &&& aux.types@.len() == module.types@.len()
    &&& forall|i: int| 0 <= i < module.types@.len() ==> same_func_type(#[trigger] aux.types@[i], module.types@[i])
    &&& aux.funcaddrs@ == Seq::new(n, |i: int| (st.funcs@.len() + i) as usize)
    &&& aux.tableaddrs@.len() == 0
    &&& aux.memaddrs@.len() == 0
    &&& aux.globaladdrs@ == ext_addrs(ext, ExternKind::Global)
    &&& aux.elemaddrs@.len() == 0
    &&& aux.dataaddrs@.len() == 0
    &&& aux.exports@.len() == 0
    &&& aux.start is None
    &&& st1.funcs@.len() == st.funcs@.len() + n
    &&& st1.funcs@.take(st.funcs@.len() as int) == st.funcs@
    &&& forall|i: int| 0 <= i < n ==> match #[trigger] st1.funcs@[st.funcs@.len() + i] {
        FuncInst::FuncInst(l) => l.module == aux && func_of_module(module, i, l.code),
        _ => false,
    }
    &&& st1.tables == st.tables
    &&& st1.mems == st.mems
    &&& st1.globals == st.globals
    &&& st1.elems == st.elems
    &&& st1.datas == st.datas
    &&& frame_pushed(s, s1, aux)
}

/// Applying the element segments `elems` from `(s, st)` ended in `(s2, st2)` with `r`
/// (`elems_trace`).
pub open spec fn elems_applied(
    elems: Seq<ElementSegmentType>,
    s: Seq<StackEntry>,
    st: Store,
    s2: Seq<StackEntry>,
    st2: Store,
    r: RResult<()>,
) -> bool {
    exists|t: Seq<(Seq<StackEntry>, Store)>| #[trigger] elems_trace(elems, t, r) && t[0] == (s, st) && t.last() == (s2, st2)
}

/// Applying the data segments `datas` from `(s, st)` ended in `(s2, st2)` with `r`
/// (`datas_trace`).
pub open spec fn datas_applied(
    datas: Seq<DataType>,
    s: Seq<StackEntry>,
    st: Store,
    s2: Seq<StackEntry>,
    st2: Store,
    r: RResult<()>,
) -> bool {
    exists|t: Seq<(Seq<StackEntry>, Store)>| #[trigger] datas_trace(datas, t, r) && t[0] == (s, st) && t.last() == (s2, st2)
}

/// Running the start function `start`, where there is one, from `(s, st)` ended in
/// `(s2, st2)` with `r`: a call of it.
pub open spec fn start_run(
    start: Option<StartType>,
    s: Seq<StackEntry>,
    st: Store,
    s2: Seq<StackEntry>,
    st2: Store,
    r: RResult<()>,
) -> bool {
    match start {
        None => r is Ok && s2 == s && st2 == st,
        Some(f) => sequence_run(seq![InstructionType::Call(f.func)], s, st, s2, st2, r),
    }
}

/// The states that an instantiation passes through.
pub struct InstantiationRun {
    /// The auxiliary instance in which the initialisers run.
    pub aux: Rc<ModuleInst>,
    /// With the auxiliary instance's functions allocated and its frame pushed.
    pub ready: (Seq<StackEntry>, Store),
    /// After the global initialisers, with their values.
    pub globals_done: (Seq<StackEntry>, Store),
    pub vals: Seq<Val>,
    /// After the element initialisers, with their references.
    pub elems_done: (Seq<StackEntry>, Store),
    pub refs: Seq<Vec<RefInst>>,
    /// The store with the module's instances allocated, and the stack with a frame of
    /// the new instance on top.
    pub allocated: Store,
    pub entered: Seq<StackEntry>,
    /// After the element segments, the data segments and the start function.
    pub elems_applied: (Seq<StackEntry>, Store),
    pub datas_applied: (Seq<StackEntry>, Store),
    pub started: (Seq<StackEntry>, Store),
}

/// The stages of an instantiation that ran to the allocation of the module's
/// instances: the auxiliary instance was set up, the global initialisers evaluated
/// with a frame still on top, the element initialisers evaluated with a frame still on
/// top, the frame popped, and the instances allocated (`allocated`) with the values
/// and references, and a frame of the new instance `inst` pushed.
pub open spec fn instantiation_allocated(
    module: Module,
    ext: Seq<ExternalDependency>,
    s: Seq<StackEntry>,
    st: Store,
    inst: Rc<ModuleInst>,
    run: InstantiationRun,
) -> bool {
    &&& aux_ready(module, ext, s, st, run.aux, run.ready.0, run.ready.1)
    &&& evals_post(global_inits(module), run.ready.0, run.ready.1, run.globals_done.0, run.globals_done.1, false, Ok::<Seq<Val>, Trap>(run.vals))
    &&& top_is_frame(run.globals_done.0)
    &&& elem_refs_post(module, run.globals_done.0, run.globals_done.1, run.elems_done.0, run.elems_done.1, Ok::<Seq<Vec<RefInst>>, Trap>(run.refs))
    &&& top_is_frame(run.elems_done.0)
    &&& run.elems_done.1.funcs@.len() + module.funcs@.len() <= usize::MAX
    &&& allocated(module, ext, run.vals, run.refs, run.elems_done.1, run.allocated, inst)
    &&& frame_pushed(run.elems_done.0.drop_last(), run.entered, inst)
}

/// How an instantiation of `module` from `(s, st)` that gave the instance `inst` and
/// ended in `(s2, st2)` came about: it ran to the allocation
/// (`instantiation_allocated`), applied the element segments, then the data segments,
/// ran the start function, and popped the frame of the new instance.
pub open spec fn instantiation_ok(
    module: Module,
    ext: Seq<ExternalDependency>,
    s: Seq<StackEntry>,
    st: Store,
    s2: Seq<StackEntry>,
    st2: Store,
    inst: Rc<ModuleInst>,
    run: InstantiationRun,
) -> bool {
    &&& instantiation_allocated(module, ext, s, st, inst, run)
    &&& elems_applied(module.elems@, run.entered, run.allocated, run.elems_applied.0, run.elems_applied.1, Ok::<(), Trap>(()))
    &&& datas_applied(module.datas@, run.elems_applied.0, run.elems_applied.1, run.datas_applied.0, run.datas_applied.1, Ok::<(), Trap>(()))
    &&& start_run(module.start, run.datas_applied.0, run.datas_applied.1, run.started.0, run.started.1, Ok::<(), Trap>(()))
    &&& top_is_frame(run.started.0)
    &&& s2 == run.started.0.drop_last()
    &&& st2 == run.started.1
}

/// How an instantiation of `module` from `(s, st)` failed, ending in `(s2, st2)`: after
/// the auxiliary instance was set up, a global initialiser failed; or no frame was on
/// top after them; or an element initialiser failed; or no frame was on top after
/// them; or the function addresses would overflow; or, after the allocation, applying
/// an element segment or a data segment failed, or the start function failed, or no
/// frame was on top at the end.
pub open spec fn instantiation_failed(
    module: Module,
    ext: Seq<ExternalDependency>,
    s: Seq<StackEntry>,
    st: Store,
    s2: Seq<StackEntry>,
    st2: Store,
    inst: Rc<ModuleInst>,
    run: InstantiationRun,
) -> bool {
    &&& aux_ready(module, ext, s, st, run.aux, run.ready.0, run.ready.1)
    &&& {
        ||| evals_post(global_inits(module), run.ready.0, run.ready.1, s2, st2, false, Err::<Seq<Val>, Trap>(Trap))
        ||| {
            &&& evals_post(global_inits(module), run.ready.0, run.ready.1, run.globals_done.0, run.globals_done.1, false, Ok::<Seq<Val>, Trap>(run.vals))
            &&& {
                ||| !top_is_frame(run.globals_done.0) && (s2, st2) == run.globals_done
                ||| top_is_frame(run.globals_done.0) && elem_refs_post(module, run.globals_done.0, run.globals_done.1, s2, st2, Err::<Seq<Vec<RefInst>>, Trap>(Trap))
                ||| {
                    &&& top_is_frame(run.globals_done.0)
                    &&& elem_refs_post(module, run.globals_done.0, run.globals_done.1, run.elems_done.0, run.elems_done.1, Ok::<Seq<Vec<RefInst>>, Trap>(run.refs))
                    &&& {
                        ||| !top_is_frame(run.elems_done.0) && (s2, st2) == run.elems_done
                        ||| top_is_frame(run.elems_done.0) && run.elems_done.1.funcs@.len() + module.funcs@.len() > usize::MAX
                            && s2 == run.elems_done.0.drop_last() && st2 == run.elems_done.1
                    }
                }
            }
        }
        ||| {
            &&& instantiation_allocated(module, ext, s, st, inst, run)
            &&& {
                ||| elems_applied(module.elems@, run.entered, run.allocated, s2, st2, Err::<(), Trap>(Trap))
                ||| {
                    &&& elems_applied(module.elems@, run.entered, run.allocated, run.elems_applied.0, run.elems_applied.1, Ok::<(), Trap>(()))
                    &&& {
                        ||| datas_applied(module.datas@, run.elems_applied.0, run.elems_applied.1, s2, st2, Err::<(), Trap>(Trap))
                        ||| {
                            &&& datas_applied(module.datas@, run.elems_applied.0, run.elems_applied.1, run.datas_applied.0, run.datas_applied.1, Ok::<(), Trap>(()))
                            &&& {
                                ||| start_run(module.start, run.datas_applied.0, run.datas_applied.1, s2, st2, Err::<(), Trap>(Trap))
                                ||| start_run(module.start, run.datas_applied.0, run.datas_applied.1, run.started.0, run.started.1, Ok::<(), Trap>(()))
                                    && !top_is_frame(run.started.0) && (s2, st2) == run.started
                            }
                        }
                    }
                }
            }
        }
    }
}

} // verus!
