use vstd::prelude::*;

use crate::execute::float::{FloatConvert, FloatOps};
use crate::execute::operands::{
    as_f32, as_f64, as_i32, as_i64, pop_f32_operand, pop_f64_operand, pop_i32_operand,
    pop_i64_operand, unop_f32_i32_post, unop_f64_i64_post, unop_i32_f32_post, unop_i32_i64_post,
    unop_i64_f64_post, unop_i64_i32_post,
};
use crate::execute::exec_unop::sign_extend;
use crate::execute::exec_binop::wrap64;
use crate::instances::stack::{pop_value_spec, top_value, Stack, StackEntry};
use crate::instances::value::Val;
use crate::result::{RResult, Trap};
use crate::sign::Sign;

verus! {

/// The four number types.
#[derive(Debug, Clone, Copy, PartialEq, Eq, Structural)]
pub enum NumKind {
    I32,
    I64,
    F32,
    F64,
}

/// The number type of a value, if it is a number.
pub open spec fn num_kind(v: Val) -> Option<NumKind> {
    match v {
        Val::I32(_) => Some(NumKind::I32),
        Val::I64(_) => Some(NumKind::I64),
        Val::F32(_) => Some(NumKind::F32),
        Val::F64(_) => Some(NumKind::F64),
        _ => None,
    }
}

/// The operand and result types of a conversion.
pub open spec fn convert_kinds_spec(op: FloatConvert) -> (NumKind, NumKind) {
    match op {
        FloatConvert::I32TruncF32S => (NumKind::F32, NumKind::I32),
        FloatConvert::I32TruncF32U => (NumKind::F32, NumKind::I32),
        FloatConvert::I32TruncF64S => (NumKind::F64, NumKind::I32),
        FloatConvert::I32TruncF64U => (NumKind::F64, NumKind::I32),
        FloatConvert::I64TruncF32S => (NumKind::F32, NumKind::I64),
        FloatConvert::I64TruncF32U => (NumKind::F32, NumKind::I64),
        FloatConvert::I64TruncF64S => (NumKind::F64, NumKind::I64),
        FloatConvert::I64TruncF64U => (NumKind::F64, NumKind::I64),
        FloatConvert::I32TruncSatF32S => (NumKind::F32, NumKind::I32),
        FloatConvert::I32TruncSatF32U => (NumKind::F32, NumKind::I32),
        FloatConvert::I32TruncSatF64S => (NumKind::F64, NumKind::I32),
        FloatConvert::I32TruncSatF64U => (NumKind::F64, NumKind::I32),
        FloatConvert::I64TruncSatF32S => (NumKind::F32, NumKind::I64),
        FloatConvert::I64TruncSatF32U => (NumKind::F32, NumKind::I64),
        FloatConvert::I64TruncSatF64S => (NumKind::F64, NumKind::I64),
        FloatConvert::I64TruncSatF64U => (NumKind::F64, NumKind::I64),
        FloatConvert::F32ConvertI32S => (NumKind::I32, NumKind::F32),
        FloatConvert::F32ConvertI32U => (NumKind::I32, NumKind::F32),
        FloatConvert::F32ConvertI64S => (NumKind::I64, NumKind::F32),
        FloatConvert::F32ConvertI64U => (NumKind::I64, NumKind::F32),
        FloatConvert::F64ConvertI32S => (NumKind::I32, NumKind::F64),
        FloatConvert::F64ConvertI32U => (NumKind::I32, NumKind::F64),
        FloatConvert::F64ConvertI64S => (NumKind::I64, NumKind::F64),
        FloatConvert::F64ConvertI64U => (NumKind::I64, NumKind::F64),
        FloatConvert::F32DemoteF64 => (NumKind::F64, NumKind::F32),
        FloatConvert::F64PromoteF32 => (NumKind::F32, NumKind::F64),
    }
}

/// The operand and result types of a conversion.
pub fn convert_kinds(op: FloatConvert) -> (r: (NumKind, NumKind))
    ensures
        r == convert_kinds_spec(op),
{
    match op {
        FloatConvert::I32TruncF32S => (NumKind::F32, NumKind::I32),
        FloatConvert::I32TruncF32U => (NumKind::F32, NumKind::I32),
        FloatConvert::I32TruncF64S => (NumKind::F64, NumKind::I32),
        FloatConvert::I32TruncF64U => (NumKind::F64, NumKind::I32),
        FloatConvert::I64TruncF32S => (NumKind::F32, NumKind::I64),
        FloatConvert::I64TruncF32U => (NumKind::F32, NumKind::I64),
        FloatConvert::I64TruncF64S => (NumKind::F64, NumKind::I64),
        FloatConvert::I64TruncF64U => (NumKind::F64, NumKind::I64),
        FloatConvert::I32TruncSatF32S => (NumKind::F32, NumKind::I32),
        FloatConvert::I32TruncSatF32U => (NumKind::F32, NumKind::I32),
        FloatConvert::I32TruncSatF64S => (NumKind::F64, NumKind::I32),
        FloatConvert::I32TruncSatF64U => (NumKind::F64, NumKind::I32),
        FloatConvert::I64TruncSatF32S => (NumKind::F32, NumKind::I64),
        FloatConvert::I64TruncSatF32U => (NumKind::F32, NumKind::I64),
        FloatConvert::I64TruncSatF64S => (NumKind::F64, NumKind::I64),
        FloatConvert::I64TruncSatF64U => (NumKind::F64, NumKind::I64),
        FloatConvert::F32ConvertI32S => (NumKind::I32, NumKind::F32),
        FloatConvert::F32ConvertI32U => (NumKind::I32, NumKind::F32),
        FloatConvert::F32ConvertI64S => (NumKind::I64, NumKind::F32),
        FloatConvert::F32ConvertI64U => (NumKind::I64, NumKind::F32),
        FloatConvert::F64ConvertI32S => (NumKind::I32, NumKind::F64),
        FloatConvert::F64ConvertI32U => (NumKind::I32, NumKind::F64),
        FloatConvert::F64ConvertI64S => (NumKind::I64, NumKind::F64),
        FloatConvert::F64ConvertI64U => (NumKind::I64, NumKind::F64),
        FloatConvert::F32DemoteF64 => (NumKind::F64, NumKind::F32),
        FloatConvert::F64PromoteF32 => (NumKind::F32, NumKind::F64),
    }
}

/// The effect of a float conversion: it pops an operand of its operand type and pushes
/// some value of its result type, or traps after the pop.
pub open spec fn convert_post(op: FloatConvert, before: Seq<StackEntry>, after: Seq<StackEntry>, r: RResult<()>) -> bool {
    match top_value(before) {
        Some(v) => if num_kind(v) == Some(convert_kinds_spec(op).0) {
            ||| r is Ok && after.len() == before.len() && after.drop_last() == before.drop_last()
                && top_value(after) is Some && num_kind(top_value(after)->0) == Some(convert_kinds_spec(op).1)
            ||| r is Err && after == before.drop_last()
        } else {
            r is Err && after == pop_value_spec(before)
        },
        None => r is Err && after == before,
    }
}

/// A conversion that the float operations compute: truncations, conversions from
/// integers, demotion and promotion.
pub fn float_convert<F: FloatOps>(stack: &mut Stack, floats: &F, op: FloatConvert) -> (r: RResult<()>)
    ensures
        convert_post(op, old(stack)@, final(stack)@, r),
{
    let (source, target) = convert_kinds(op);
    let bits: u64 = match source {
        NumKind::I32 => pop_i32_operand(stack)? as u64,
        NumKind::I64 => pop_i64_operand(stack)?,
        NumKind::F32 => pop_f32_operand(stack)? as u64,
        NumKind::F64 => pop_f64_operand(stack)?,
    };
    let out = floats.convert(op, bits)?;
    let low: u32 = (out % 0x1_0000_0000) as u32;
    let val = match target {
        NumKind::I32 => Val::I32(low),
        NumKind::I64 => Val::I64(out),
        NumKind::F32 => Val::F32(low),
        NumKind::F64 => Val::F64(out),
    };
    stack.push_value(val);
    proof {
        assert(stack@.drop_last() =~= old(stack)@.drop_last());
    }
    Ok(())
}

/// `i32.wrap_i64`: the low 32 bits.
pub fn i32_wrap_i64(stack: &mut Stack) -> (r: RResult<()>)
    ensures
        unop_i64_i32_post(old(stack)@, final(stack)@, r, |x: u64| Ok::<u32, Trap>((x % 0x1_0000_0000) as u32)),
{
    let v = pop_i64_operand(stack)?;
    stack.push_value(Val::I32((v % 0x1_0000_0000) as u32));
    Ok(())
}

/// `i64.extend_i32_s` and `i64.extend_i32_u`.
pub fn i64_extend_i32(stack: &mut Stack, sign: Sign) -> (r: RResult<()>)
    ensures
        unop_i32_i64_post(old(stack)@, final(stack)@, r, |x: u32| Ok::<u64, Trap>(
            match sign {
                Sign::Signed => wrap64(sign_extend(x as int, 32)),
                Sign::Unsigned => x as u64,
            }
        )),
{
    let v = pop_i32_operand(stack)?;
    let w: u64 = match sign {
        Sign::Signed => if v < 0x8000_0000 { v as u64 } else { v as u64 + 0xFFFF_FFFF_0000_0000 },
        Sign::Unsigned => v as u64,
    };
    proof {
        vstd::arithmetic::power2::lemma2_to64();
        assert((v as int) % 0x1_0000_0000 == v as int);
        if sign == Sign::Signed && v >= 0x8000_0000 {
            assert(sign_extend(v as int, 32) == v - 0x1_0000_0000);
            assert(wrap64(v - 0x1_0000_0000) == w);
        }
    }
    stack.push_value(Val::I64(w));
    Ok(())
}

/// `i32.reinterpret_f32`: the same bits as an integer.
pub fn i32_reinterpret_f32(stack: &mut Stack) -> (r: RResult<()>)
    ensures
        unop_f32_i32_post(old(stack)@, final(stack)@, r, |x: u32| Ok::<u32, Trap>(x)),
{
    let v = pop_f32_operand(stack)?;
    stack.push_value(Val::I32(v));
    Ok(())
}

/// `i64.reinterpret_f64`: the same bits as an integer.
pub fn i64_reinterpret_f64(stack: &mut Stack) -> (r: RResult<()>)
    ensures
        unop_f64_i64_post(old(stack)@, final(stack)@, r, |x: u64| Ok::<u64, Trap>(x)),
{
    let v = pop_f64_operand(stack)?;
    stack.push_value(Val::I64(v));
    Ok(())
}

/// `f32.reinterpret_i32`: the same bits as a float.
pub fn f32_reinterpret_i32(stack: &mut Stack) -> (r: RResult<()>)
    ensures
        unop_i32_f32_post(old(stack)@, final(stack)@, r, |x: u32| Ok::<u32, Trap>(x)),
{
    let v = pop_i32_operand(stack)?;
    stack.push_value(Val::F32(v));
    Ok(())
}

/// `f64.reinterpret_i64`: the same bits as a float.
pub fn f64_reinterpret_i64(stack: &mut Stack) -> (r: RResult<()>)
    ensures
        unop_i64_f64_post(old(stack)@, final(stack)@, r, |x: u64| Ok::<u64, Trap>(x)),
{
    let v = pop_i64_operand(stack)?;
    stack.push_value(Val::F64(v));
    Ok(())
}

} // verus!
