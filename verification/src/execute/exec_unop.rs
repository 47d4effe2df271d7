use vstd::prelude::*;

use vstd::std_specs::bits::{u32_leading_zeros, u32_trailing_zeros, u64_leading_zeros, u64_trailing_zeros};

use crate::execute::exec_binop::{wrap32, wrap64};
use crate::execute::float::{FloatOps, FloatUnop};
use crate::execute::operands::{
    pop_f32_operand, pop_f64_operand, pop_i32_operand, pop_i64_operand, unop_f32_f32_any_post,
    unop_f32_f32_post, unop_f64_f64_any_post, unop_f64_f64_post, unop_i32_i32_post,
    unop_i64_i64_post,
};
use crate::instances::stack::Stack;
use crate::instances::value::Val;
use crate::result::{RResult, Trap};

verus! {

/// The number of one bits of `x`.
pub open spec fn popcount(x: nat) -> nat
    decreases x,
{
    if x == 0 {
        0
    } else {
        x % 2 + popcount(x / 2)
    }
}

proof fn lemma_popcount_le(x: nat)
    ensures
        popcount(x) <= x,
    decreases x,
{
    if x > 0 {
        lemma_popcount_le(x / 2);
    }
}

pub fn popcount_u64(x: u64) -> (r: u64)
    ensures
        r == popcount(x as nat),
{
    let mut v = x;
    let mut c: u64 = 0;
    proof {
        lemma_popcount_le(x as nat);
    }
    while v != 0
        invariant
            c + popcount(v as nat) == popcount(x as nat),
            popcount(x as nat) <= x,
        decreases v,
    {
        c = c + v % 2;
        v = v / 2;
    }
    c
}

/// The low `bits` bits of `x` read as two's complement.
pub open spec fn sign_extend(x: int, bits: int) -> int {
    let m = vstd::arithmetic::power2::pow2(bits as nat) as int;
    let low = x % m;
    if low < m / 2 {
        low
    } else {
        low - m
    }
}

pub fn i32_clz(stack: &mut Stack) -> (r: RResult<()>)
    ensures
        unop_i32_i32_post(old(stack)@, final(stack)@, r, |x: u32| Ok::<u32, Trap>(u32_leading_zeros(x))),
{
    let v = pop_i32_operand(stack)?;
    stack.push_value(Val::I32(v.leading_zeros()));
    Ok(())
}

pub fn i64_clz(stack: &mut Stack) -> (r: RResult<()>)
    ensures
        unop_i64_i64_post(old(stack)@, final(stack)@, r, |x: u64| Ok::<u64, Trap>(u64_leading_zeros(x) as u64)),
{
    let v = pop_i64_operand(stack)?;
    stack.push_value(Val::I64(v.leading_zeros() as u64));
    Ok(())
}

pub fn i32_ctz(stack: &mut Stack) -> (r: RResult<()>)
    ensures
        unop_i32_i32_post(old(stack)@, final(stack)@, r, |x: u32| Ok::<u32, Trap>(u32_trailing_zeros(x))),
{
    let v = pop_i32_operand(stack)?;
    stack.push_value(Val::I32(v.trailing_zeros()));
    Ok(())
}

pub fn i64_ctz(stack: &mut Stack) -> (r: RResult<()>)
    ensures
        unop_i64_i64_post(old(stack)@, final(stack)@, r, |x: u64| Ok::<u64, Trap>(u64_trailing_zeros(x) as u64)),
{
    let v = pop_i64_operand(stack)?;
    stack.push_value(Val::I64(v.trailing_zeros() as u64));
    Ok(())
}

pub fn i32_popcnt(stack: &mut Stack) -> (r: RResult<()>)
    ensures
        unop_i32_i32_post(old(stack)@, final(stack)@, r, |x: u32| Ok::<u32, Trap>(popcount(x as nat) as u32)),
{
    let v = pop_i32_operand(stack)?;
    proof {
        lemma_popcount_le(v as nat);
    }
    let c = popcount_u64(v as u64);
    stack.push_value(Val::I32(c as u32));
    Ok(())
}

pub fn i64_popcnt(stack: &mut Stack) -> (r: RResult<()>)
    ensures
        unop_i64_i64_post(old(stack)@, final(stack)@, r, |x: u64| Ok::<u64, Trap>(popcount(x as nat) as u64)),
{
    let v = pop_i64_operand(stack)?;
    let c = popcount_u64(v);
    stack.push_value(Val::I64(c));
    Ok(())
}

/// Clears the sign bit of an f32 pattern.
pub fn f32_abs(stack: &mut Stack) -> (r: RResult<()>)
    ensures
        unop_f32_f32_post(old(stack)@, final(stack)@, r, |x: u32| Ok::<u32, Trap>(x & 0x7FFF_FFFF)),
{
    let v = pop_f32_operand(stack)?;
    stack.push_value(Val::F32(v & 0x7FFF_FFFF));
    Ok(())
}

/// Clears the sign bit of an f64 pattern.
pub fn f64_abs(stack: &mut Stack) -> (r: RResult<()>)
    ensures
        unop_f64_f64_post(old(stack)@, final(stack)@, r, |x: u64| Ok::<u64, Trap>(x & 0x7FFF_FFFF_FFFF_FFFF)),
{
    let v = pop_f64_operand(stack)?;
    stack.push_value(Val::F64(v & 0x7FFF_FFFF_FFFF_FFFF));
    Ok(())
}

/// Flips the sign bit of an f32 pattern.
pub fn f32_neg(stack: &mut Stack) -> (r: RResult<()>)
    ensures
        unop_f32_f32_post(old(stack)@, final(stack)@, r, |x: u32| Ok::<u32, Trap>(x ^ 0x8000_0000)),
{
    let v = pop_f32_operand(stack)?;
    stack.push_value(Val::F32(v ^ 0x8000_0000));
    Ok(())
}

/// Flips the sign bit of an f64 pattern.
pub fn f64_neg(stack: &mut Stack) -> (r: RResult<()>)
    ensures
        unop_f64_f64_post(old(stack)@, final(stack)@, r, |x: u64| Ok::<u64, Trap>(x ^ 0x8000_0000_0000_0000)),
{
    let v = pop_f64_operand(stack)?;
    stack.push_value(Val::F64(v ^ 0x8000_0000_0000_0000));
    Ok(())
}

fn f32_unop<F: FloatOps>(stack: &mut Stack, floats: &F, op: FloatUnop) -> (r: RResult<()>)
    ensures
        unop_f32_f32_any_post(old(stack)@, final(stack)@, r, false),
{
    let v = pop_f32_operand(stack)?;
    let w = floats.unop_f32(op, v);
    stack.push_value(Val::F32(w));
    proof {
        assert(stack@.drop_last() =~= old(stack)@.drop_last());
    }
    Ok(())
}

fn f64_unop<F: FloatOps>(stack: &mut Stack, floats: &F, op: FloatUnop) -> (r: RResult<()>)
    ensures
        unop_f64_f64_any_post(old(stack)@, final(stack)@, r, false),
{
    let v = pop_f64_operand(stack)?;
    let w = floats.unop_f64(op, v);
    stack.push_value(Val::F64(w));
    proof {
        assert(stack@.drop_last() =~= old(stack)@.drop_last());
    }
    Ok(())
}

pub fn f32_sqrt<F: FloatOps>(stack: &mut Stack, floats: &F) -> (r: RResult<()>)
    ensures
        unop_f32_f32_any_post(old(stack)@, final(stack)@, r, false),
{
    f32_unop(stack, floats, FloatUnop::Sqrt)
}

pub fn f64_sqrt<F: FloatOps>(stack: &mut Stack, floats: &F) -> (r: RResult<()>)
    ensures
        unop_f64_f64_any_post(old(stack)@, final(stack)@, r, false),
{
    f64_unop(stack, floats, FloatUnop::Sqrt)
}

pub fn f32_ceil<F: FloatOps>(stack: &mut Stack, floats: &F) -> (r: RResult<()>)
    ensures
        unop_f32_f32_any_post(old(stack)@, final(stack)@, r, false),
{
    f32_unop(stack, floats, FloatUnop::Ceil)
}

pub fn f64_ceil<F: FloatOps>(stack: &mut Stack, floats: &F) -> (r: RResult<()>)
    ensures
        unop_f64_f64_any_post(old(stack)@, final(stack)@, r, false),
{
    f64_unop(stack, floats, FloatUnop::Ceil)
}

pub fn f32_floor<F: FloatOps>(stack: &mut Stack, floats: &F) -> (r: RResult<()>)
    ensures
        unop_f32_f32_any_post(old(stack)@, final(stack)@, r, false),
{
    f32_unop(stack, floats, FloatUnop::Floor)
}

pub fn f64_floor<F: FloatOps>(stack: &mut Stack, floats: &F) -> (r: RResult<()>)
    ensures
        unop_f64_f64_any_post(old(stack)@, final(stack)@, r, false),
{
    f64_unop(stack, floats, FloatUnop::Floor)
}

pub fn f32_trunc<F: FloatOps>(stack: &mut Stack, floats: &F) -> (r: RResult<()>)
    ensures
        unop_f32_f32_any_post(old(stack)@, final(stack)@, r, false),
{
    f32_unop(stack, floats, FloatUnop::Trunc)
}

pub fn f64_trunc<F: FloatOps>(stack: &mut Stack, floats: &F) -> (r: RResult<()>)
    ensures
        unop_f64_f64_any_post(old(stack)@, final(stack)@, r, false),
{
    f64_unop(stack, floats, FloatUnop::Trunc)
}

pub fn f32_nearest<F: FloatOps>(stack: &mut Stack, floats: &F) -> (r: RResult<()>)
    ensures
        unop_f32_f32_any_post(old(stack)@, final(stack)@, r, false),
{
    f32_unop(stack, floats, FloatUnop::Nearest)
}

pub fn f64_nearest<F: FloatOps>(stack: &mut Stack, floats: &F) -> (r: RResult<()>)
    ensures
        unop_f64_f64_any_post(old(stack)@, final(stack)@, r, false),
{
    f64_unop(stack, floats, FloatUnop::Nearest)
}

pub fn i32_extend_8s(stack: &mut Stack) -> (r: RResult<()>)
    ensures
        unop_i32_i32_post(old(stack)@, final(stack)@, r, |x: u32| Ok::<u32, Trap>(wrap32(sign_extend(x as int, 8)))),
{
    let v = pop_i32_operand(stack)?;
    let low = v % 0x100;
    let w = if low < 0x80 { low } else { low + 0xFFFF_FF00 };
    proof {
        vstd::arithmetic::power2::lemma2_to64();
    }
    stack.push_value(Val::I32(w));
    Ok(())
}

pub fn i32_extend_16s(stack: &mut Stack) -> (r: RResult<()>)
    ensures
        unop_i32_i32_post(old(stack)@, final(stack)@, r, |x: u32| Ok::<u32, Trap>(wrap32(sign_extend(x as int, 16)))),
{
    let v = pop_i32_operand(stack)?;
    let low = v % 0x1_0000;
    let w = if low < 0x8000 { low } else { low + 0xFFFF_0000 };
    proof {
        vstd::arithmetic::power2::lemma2_to64();
    }
    stack.push_value(Val::I32(w));
    Ok(())
}

pub fn i64_extend_8s(stack: &mut Stack) -> (r: RResult<()>)
    ensures
        unop_i64_i64_post(old(stack)@, final(stack)@, r, |x: u64| Ok::<u64, Trap>(wrap64(sign_extend(x as int, 8)))),
{
    let v = pop_i64_operand(stack)?;
    let low = v % 0x100;
    let w = if low < 0x80 { low } else { low + 0xFFFF_FFFF_FFFF_FF00 };
    proof {
        vstd::arithmetic::power2::lemma2_to64();
    }
    stack.push_value(Val::I64(w));
    Ok(())
}

pub fn i64_extend_16s(stack: &mut Stack) -> (r: RResult<()>)
    ensures
        unop_i64_i64_post(old(stack)@, final(stack)@, r, |x: u64| Ok::<u64, Trap>(wrap64(sign_extend(x as int, 16)))),
{
    let v = pop_i64_operand(stack)?;
    let low = v % 0x1_0000;
    let w = if low < 0x8000 { low } else { low + 0xFFFF_FFFF_FFFF_0000 };
    proof {
        vstd::arithmetic::power2::lemma2_to64();
    }
    stack.push_value(Val::I64(w));
    Ok(())
}

pub fn i64_extend_32s(stack: &mut Stack) -> (r: RResult<()>)
    ensures
        unop_i64_i64_post(old(stack)@, final(stack)@, r, |x: u64| Ok::<u64, Trap>(wrap64(sign_extend(x as int, 32)))),
{
    let v = pop_i64_operand(stack)?;
    let low = v % 0x1_0000_0000;
    let w = if low < 0x8000_0000 { low } else { low + 0xFFFF_FFFF_0000_0000 };
    proof {
        vstd::arithmetic::power2::lemma2_to64();
    }
    stack.push_value(Val::I64(w));
    Ok(())
}

} // verus!
