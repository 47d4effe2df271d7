use vstd::prelude::*;

use crate::execute::bytes::{le_value, lemma_le_value_bound, lemma_pow256_values, read_le};
use crate::instances::ref_inst::RefInst;
use crate::instances::stack::{push_val, Stack};
use crate::instances::value::Val;
use crate::result::{RResult, Trap};

verus! {

pub fn i32_const(v: &u32, stack: &mut Stack) -> (r: RResult<()>)
    ensures
        r is Ok,
        final(stack)@ == push_val(old(stack)@, Val::I32(*v)),
{
    stack.push_value(Val::I32(*v));
    Ok(())
}

pub fn i64_const(v: &u64, stack: &mut Stack) -> (r: RResult<()>)
    ensures
        r is Ok,
        final(stack)@ == push_val(old(stack)@, Val::I64(*v)),
{
    stack.push_value(Val::I64(*v));
    Ok(())
}

/// Pushes an f32 given by its bit pattern.
pub fn f32_const(v: &u32, stack: &mut Stack) -> (r: RResult<()>)
    ensures
        r is Ok,
        final(stack)@ == push_val(old(stack)@, Val::F32(*v)),
{
    stack.push_value(Val::F32(*v));
    Ok(())
}

/// Pushes an f64 given by its bit pattern.
pub fn f64_const(v: &u64, stack: &mut Stack) -> (r: RResult<()>)
    ensures
        r is Ok,
        final(stack)@ == push_val(old(stack)@, Val::F64(*v)),
{
    stack.push_value(Val::F64(*v));
    Ok(())
}

/// Pushes the vector whose 16 little-endian bytes are `v`; any other length traps.
pub fn v128_const(v: &Vec<u8>, stack: &mut Stack) -> (r: RResult<()>)
    ensures
        v@.len() == 16 ==> r is Ok && final(stack)@ == push_val(
            old(stack)@,
            Val::Vec(le_value(v@) as u128),
        ),
        v@.len() != 16 ==> r is Err && final(stack)@ == old(stack)@,
{
    let x = v128_from_vec(v)?;
    stack.push_value(Val::Vec(x));
    Ok(())
}

pub fn ref_const(r: RefInst, stack: &mut Stack) -> (res: RResult<()>)
    ensures
        res is Ok,
        final(stack)@ == push_val(old(stack)@, Val::Ref(r)),
{
    stack.push_value(Val::Ref(r));
    Ok(())
}

/// The vector whose 16 little-endian bytes are `v`.
pub fn v128_from_vec(v: &Vec<u8>) -> (r: RResult<u128>)
    ensures
        v@.len() == 16 ==> r == Ok::<u128, Trap>(le_value(v@) as u128),
        v@.len() != 16 ==> r is Err,
{
    if v.len() != 16 {
        return Err(Trap);
    }
    let x = read_le(v, 0, 16);
    proof {
        assert(v@.subrange(0, 16) =~= v@);
    }
    Ok(x)
}

} // verus!
