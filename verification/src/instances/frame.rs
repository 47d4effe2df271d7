use vstd::prelude::*;

use std::rc::Rc;

use crate::instances::module::ModuleInst;
use crate::instances::value::Val;

verus! {

/// An activation frame: the module of the running function, its locals, and its
/// result arity (`None` for the frames that instantiation and invocation set up).
#[derive(Debug, Clone)]
pub struct Frame {
    pub module: Rc<ModuleInst>,
    pub locals: Vec<Val>,
    pub arity: Option<usize>,
}

} // verus!
