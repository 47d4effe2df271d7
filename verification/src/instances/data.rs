use vstd::prelude::*;

use crate::entities::types::Byte;

verus! {

#[derive(Debug, Clone, PartialEq)]
pub struct DataInst {
    pub data: Vec<Byte>,
}

} // verus!
