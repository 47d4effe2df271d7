use vstd::prelude::*;

verus! {

/// Whether a narrow value is read as signed or unsigned.
#[derive(Debug, Clone, Copy, PartialEq, Eq, Structural)]
pub enum Sign {
    Signed,
    Unsigned,
}

} // verus!
