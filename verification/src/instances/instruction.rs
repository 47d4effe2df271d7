use vstd::prelude::*;

use crate::entities::traits::AsSigned;
use crate::result::{RResult, Trap};

verus! {

/// 1 for true, 0 for false.
pub open spec fn bool_to_u32(b: bool) -> u32 {
    if b {
        1
    } else {
        0
    }
}

/// Picks the bits of `first` where `third` has ones and those of `second` elsewhere.
pub fn bitselect(first: u128, second: u128, third: u128) -> (r: RResult<u128>)
    ensures
        r == Ok::<u128, Trap>((first & third) | (second & !third)),
{
    Ok((first & third) | (second & !third))
}

pub fn eq<T: AsSigned>(lhs: T, rhs: T) -> (r: RResult<u32>)
    ensures
        r == Ok::<u32, Trap>(bool_to_u32(lhs.unsigned_value() == rhs.unsigned_value())),
{
    Ok(if lhs.as_unsigned() == rhs.as_unsigned() { 1 } else { 0 })
}

pub fn neq<T: AsSigned>(lhs: T, rhs: T) -> (r: RResult<u32>)
    ensures
        r == Ok::<u32, Trap>(bool_to_u32(lhs.unsigned_value() != rhs.unsigned_value())),
{
    Ok(if lhs.as_unsigned() != rhs.as_unsigned() { 1 } else { 0 })
}

pub fn eqz<T: AsSigned>(lhs: T) -> (r: RResult<u32>)
    ensures
        r == Ok::<u32, Trap>(bool_to_u32(lhs.unsigned_value() == 0)),
{
    Ok(if lhs.as_unsigned() == 0u64 { 1 } else { 0 })
}

pub fn lts<T: AsSigned>(lhs: T, rhs: T) -> (r: RResult<u32>)
    ensures
        r == Ok::<u32, Trap>(bool_to_u32(lhs.signed_value() < rhs.signed_value())),
{
    Ok(if lhs.as_signed() < rhs.as_signed() { 1 } else { 0 })
}

pub fn ltu<T: AsSigned>(lhs: T, rhs: T) -> (r: RResult<u32>)
    ensures
        r == Ok::<u32, Trap>(bool_to_u32(lhs.unsigned_value() < rhs.unsigned_value())),
{
    Ok(if lhs.as_unsigned() < rhs.as_unsigned() { 1 } else { 0 })
}

pub fn gts<T: AsSigned>(lhs: T, rhs: T) -> (r: RResult<u32>)
    ensures
        r == Ok::<u32, Trap>(bool_to_u32(lhs.signed_value() > rhs.signed_value())),
{
    Ok(if lhs.as_signed() > rhs.as_signed() { 1 } else { 0 })
}

pub fn gtu<T: AsSigned>(lhs: T, rhs: T) -> (r: RResult<u32>)
    ensures
        r == Ok::<u32, Trap>(bool_to_u32(lhs.unsigned_value() > rhs.unsigned_value())),
{
    Ok(if lhs.as_unsigned() > rhs.as_unsigned() { 1 } else { 0 })
}

pub fn les<T: AsSigned>(lhs: T, rhs: T) -> (r: RResult<u32>)
    ensures
        r == Ok::<u32, Trap>(bool_to_u32(lhs.signed_value() <= rhs.signed_value())),
{
    Ok(if lhs.as_signed() <= rhs.as_signed() { 1 } else { 0 })
}

pub fn leu<T: AsSigned>(lhs: T, rhs: T) -> (r: RResult<u32>)
    ensures
        r == Ok::<u32, Trap>(bool_to_u32(lhs.unsigned_value() <= rhs.unsigned_value())),
{
    Ok(if lhs.as_unsigned() <= rhs.as_unsigned() { 1 } else { 0 })
}

pub fn ges<T: AsSigned>(lhs: T, rhs: T) -> (r: RResult<u32>)
    ensures
        r == Ok::<u32, Trap>(bool_to_u32(lhs.signed_value() >= rhs.signed_value())),
{
    Ok(if lhs.as_signed() >= rhs.as_signed() { 1 } else { 0 })
}

pub fn geu<T: AsSigned>(lhs: T, rhs: T) -> (r: RResult<u32>)
    ensures
        r == Ok::<u32, Trap>(bool_to_u32(lhs.unsigned_value() >= rhs.unsigned_value())),
{
    Ok(if lhs.as_unsigned() >= rhs.as_unsigned() { 1 } else { 0 })
}

} // verus!
