use vstd::prelude::*;

verus! {

/// An execution trap: the computation stops without a result.
#[derive(Debug, Clone, Copy, PartialEq, Eq, Structural)]
pub struct Trap;

/// The result of an operation that may trap.
pub type RResult<T> = Result<T, Trap>;

} // verus!
