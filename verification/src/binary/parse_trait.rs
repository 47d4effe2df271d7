use vstd::prelude::*;

use crate::binary::syntax_error::ParseResult;
use crate::entities::types::Byte;

verus! {

/// A parser of a whole binary: it returns the bytes that follow what it parsed, and
/// the parsed value.
pub trait ParseBin<T: Sized> {
    fn parse(bytes: &[u8]) -> ParseResult<(Vec<Byte>, T)>
        where Self: Sized;
}

} // verus!
