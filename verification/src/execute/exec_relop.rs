use vstd::prelude::*;

use crate::entities::traits::AsSigned;
use crate::execute::float::{FloatOps, FloatRelop};
use crate::execute::operands::{
    binop_f32_i32_any_post, binop_f64_i32_any_post, binop_i32_i32_post, binop_i64_i32_post,
    pop_f32_pair, pop_f64_pair, pop_i32_operand, pop_i32_pair, pop_i64_operand, pop_i64_pair,
    unop_i32_i32_post, unop_i64_i32_post,
};
use crate::instances::instruction::{
    bool_to_u32, eq, eqz, ges, geu, gts, gtu, les, leu, lts, ltu, neq,
};
use crate::instances::stack::Stack;
use crate::instances::value::Val;
use crate::result::{RResult, Trap};

verus! {

/// Integer comparisons.
#[derive(Debug, Clone, Copy, PartialEq, Eq, Structural)]
pub enum IntRelop {
    Eq,
    Ne,
    LtS,
    LtU,
    GtS,
    GtU,
    LeS,
    LeU,
    GeS,
    GeU,
}

/// Whether the comparison `op` holds of `a` and `b`.
pub open spec fn int_relop_holds<T: AsSigned>(op: IntRelop, a: T, b: T) -> bool {
    match op {
        IntRelop::Eq => a.unsigned_value() == b.unsigned_value(),
        IntRelop::Ne => a.unsigned_value() != b.unsigned_value(),
        IntRelop::LtS => a.signed_value() < b.signed_value(),
        IntRelop::LtU => a.unsigned_value() < b.unsigned_value(),
        IntRelop::GtS => a.signed_value() > b.signed_value(),
        IntRelop::GtU => a.unsigned_value() > b.unsigned_value(),
        IntRelop::LeS => a.signed_value() <= b.signed_value(),
        IntRelop::LeU => a.unsigned_value() <= b.unsigned_value(),
        IntRelop::GeS => a.signed_value() >= b.signed_value(),
        IntRelop::GeU => a.unsigned_value() >= b.unsigned_value(),
    }
}

/// 1 where the comparison holds, 0 where it does not.
pub fn int_relop<T: AsSigned + Copy>(op: IntRelop, a: T, b: T) -> (r: u32)
    ensures
        r == bool_to_u32(int_relop_holds(op, a, b)),
{
    let res = match op {
        IntRelop::Eq => eq(a, b),
        IntRelop::Ne => neq(a, b),
        IntRelop::LtS => lts(a, b),
        IntRelop::LtU => ltu(a, b),
        IntRelop::GtS => gts(a, b),
        IntRelop::GtU => gtu(a, b),
        IntRelop::LeS => les(a, b),
        IntRelop::LeU => leu(a, b),
        IntRelop::GeS => ges(a, b),
        IntRelop::GeU => geu(a, b),
    };
    match res {
        Ok(v) => v,
        Err(_) => 0,
    }
}

/// An i32 comparison.
pub fn i32_relop(stack: &mut Stack, op: IntRelop) -> (r: RResult<()>)
    ensures
        binop_i32_i32_post(old(stack)@, final(stack)@, r, |a: u32, b: u32| Ok::<u32, Trap>(bool_to_u32(int_relop_holds(op, a, b)))),
{
    let (a, b) = pop_i32_pair(stack)?;
    stack.push_value(Val::I32(int_relop(op, a, b)));
    Ok(())
}

/// An i64 comparison.
pub fn i64_relop(stack: &mut Stack, op: IntRelop) -> (r: RResult<()>)
    ensures
        binop_i64_i32_post(old(stack)@, final(stack)@, r, |a: u64, b: u64| Ok::<u32, Trap>(bool_to_u32(int_relop_holds(op, a, b)))),
{
    let (a, b) = pop_i64_pair(stack)?;
    stack.push_value(Val::I32(int_relop(op, a, b)));
    Ok(())
}

/// `i32.eqz`.
pub fn i32_testop(stack: &mut Stack) -> (r: RResult<()>)
    ensures
        unop_i32_i32_post(old(stack)@, final(stack)@, r, |a: u32| Ok::<u32, Trap>(bool_to_u32(a == 0))),
{
    let a = pop_i32_operand(stack)?;
    let v = match eqz(a) {
        Ok(v) => v,
        Err(_) => 0,
    };
    stack.push_value(Val::I32(v));
    Ok(())
}

/// `i64.eqz`.
pub fn i64_testop(stack: &mut Stack) -> (r: RResult<()>)
    ensures
        unop_i64_i32_post(old(stack)@, final(stack)@, r, |a: u64| Ok::<u32, Trap>(bool_to_u32(a == 0))),
{
    let a = pop_i64_operand(stack)?;
    let v = match eqz(a) {
        Ok(v) => v,
        Err(_) => 0,
    };
    stack.push_value(Val::I32(v));
    Ok(())
}

/// An f32 comparison; the float operations decide whether it holds.
pub fn f32_relop<F: FloatOps>(stack: &mut Stack, floats: &F, op: FloatRelop) -> (r: RResult<()>)
    ensures
        binop_f32_i32_any_post(old(stack)@, final(stack)@, r),
{
    let (a, b) = pop_f32_pair(stack)?;
    let holds = floats.relop_f32(op, a, b);
    stack.push_value(Val::I32(if holds { 1 } else { 0 }));
    proof {
        assert(stack@.drop_last() =~= old(stack)@.drop_last().drop_last());
    }
    Ok(())
}

/// An f64 comparison; the float operations decide whether it holds.
pub fn f64_relop<F: FloatOps>(stack: &mut Stack, floats: &F, op: FloatRelop) -> (r: RResult<()>)
    ensures
        binop_f64_i32_any_post(old(stack)@, final(stack)@, r),
{
    let (a, b) = pop_f64_pair(stack)?;
    let holds = floats.relop_f64(op, a, b);
    stack.push_value(Val::I32(if holds { 1 } else { 0 }));
    proof {
        assert(stack@.drop_last() =~= old(stack)@.drop_last().drop_last());
    }
    Ok(())
}


/// The 32-bit comparisons, as `int_relop` computes them: equality on the bits;
/// the unsigned ones compare the numbers; the signed ones put every value with the
/// top bit set (a negative one) below every value without it, and otherwise compare
/// the numbers. Each ordering gives 1 exactly where its opposite gives 0, and a value
/// is `<=` and `>=` itself.
pub proof fn law_i32_relops(op: IntRelop, a: u32, b: u32, r: u32)
    requires
        r == bool_to_u32(int_relop_holds(op, a, b)),
    ensures
        op == IntRelop::Eq ==> r == if a == b { 1u32 } else { 0u32 },
        op == IntRelop::Ne ==> r == if a != b { 1u32 } else { 0u32 },
        op == IntRelop::LtU ==> r == if a < b { 1u32 } else { 0u32 },
        op == IntRelop::GtU ==> r == if a > b { 1u32 } else { 0u32 },
        op == IntRelop::LeU ==> r == if a <= b { 1u32 } else { 0u32 },
        op == IntRelop::GeU ==> r == if a >= b { 1u32 } else { 0u32 },
        op == IntRelop::LtS ==> r == if (a >= 0x8000_0000u32 && !(b >= 0x8000_0000u32)) || ((a >= 0x8000_0000u32) == (b >= 0x8000_0000u32) && a < b) {
            1u32
        } else {
            0u32
        },
        op == IntRelop::GtS ==> r == if (!(a >= 0x8000_0000u32) && b >= 0x8000_0000u32) || ((a >= 0x8000_0000u32) == (b >= 0x8000_0000u32) && a > b) {
            1u32
        } else {
            0u32
        },
        op == IntRelop::LeS ==> r == if (a >= 0x8000_0000u32 && !(b >= 0x8000_0000u32)) || ((a >= 0x8000_0000u32) == (b >= 0x8000_0000u32) && a <= b) {
            1u32
        } else {
            0u32
        },
        op == IntRelop::GeS ==> r == if (!(a >= 0x8000_0000u32) && b >= 0x8000_0000u32) || ((a >= 0x8000_0000u32) == (b >= 0x8000_0000u32) && a >= b) {
            1u32
        } else {
            0u32
        },
        int_relop_holds(IntRelop::LeS, a, b) == !int_relop_holds(IntRelop::GtS, a, b),
        int_relop_holds(IntRelop::GeS, a, b) == !int_relop_holds(IntRelop::LtS, a, b),
        int_relop_holds(IntRelop::LeU, a, b) == !int_relop_holds(IntRelop::GtU, a, b),
        int_relop_holds(IntRelop::GeU, a, b) == !int_relop_holds(IntRelop::LtU, a, b),
        int_relop_holds(IntRelop::Ne, a, b) == !int_relop_holds(IntRelop::Eq, a, b),
        int_relop_holds(IntRelop::LeS, a, a) && int_relop_holds(IntRelop::GeS, a, a),
        int_relop_holds(IntRelop::LeU, a, a) && int_relop_holds(IntRelop::GeU, a, a),
        !int_relop_holds(IntRelop::LtS, a, a) && !int_relop_holds(IntRelop::GtS, a, a),
{
}

/// The 64-bit comparisons, as `int_relop` computes them: equality on the bits;
/// the unsigned ones compare the numbers; the signed ones put every value with the
/// top bit set (a negative one) below every value without it, and otherwise compare
/// the numbers. Each ordering gives 1 exactly where its opposite gives 0, and a value
/// is `<=` and `>=` itself.
pub proof fn law_i64_relops(op: IntRelop, a: u64, b: u64, r: u32)
    requires
        r == bool_to_u32(int_relop_holds(op, a, b)),
    ensures
        op == IntRelop::Eq ==> r == if a == b { 1u32 } else { 0u32 },
        op == IntRelop::Ne ==> r == if a != b { 1u32 } else { 0u32 },
        op == IntRelop::LtU ==> r == if a < b { 1u32 } else { 0u32 },
        op == IntRelop::GtU ==> r == if a > b { 1u32 } else { 0u32 },
        op == IntRelop::LeU ==> r == if a <= b { 1u32 } else { 0u32 },
        op == IntRelop::GeU ==> r == if a >= b { 1u32 } else { 0u32 },
        op == IntRelop::LtS ==> r == if (a >= 0x8000_0000_0000_0000u64 && !(b >= 0x8000_0000_0000_0000u64)) || ((a >= 0x8000_0000_0000_0000u64) == (b >= 0x8000_0000_0000_0000u64) && a < b) {
            1u32
        } else {
            0u32
        },
        op == IntRelop::GtS ==> r == if (!(a >= 0x8000_0000_0000_0000u64) && b >= 0x8000_0000_0000_0000u64) || ((a >= 0x8000_0000_0000_0000u64) == (b >= 0x8000_0000_0000_0000u64) && a > b) {
            1u32
        } else {
            0u32
        },
        op == IntRelop::LeS ==> r == if (a >= 0x8000_0000_0000_0000u64 && !(b >= 0x8000_0000_0000_0000u64)) || ((a >= 0x8000_0000_0000_0000u64) == (b >= 0x8000_0000_0000_0000u64) && a <= b) {
            1u32
        } else {
            0u32
        },
        op == IntRelop::GeS ==> r == if (!(a >= 0x8000_0000_0000_0000u64) && b >= 0x8000_0000_0000_0000u64) || ((a >= 0x8000_0000_0000_0000u64) == (b >= 0x8000_0000_0000_0000u64) && a >= b) {
            1u32
        } else {
            0u32
        },
        int_relop_holds(IntRelop::LeS, a, b) == !int_relop_holds(IntRelop::GtS, a, b),
        int_relop_holds(IntRelop::GeS, a, b) == !int_relop_holds(IntRelop::LtS, a, b),
        int_relop_holds(IntRelop::LeU, a, b) == !int_relop_holds(IntRelop::GtU, a, b),
        int_relop_holds(IntRelop::GeU, a, b) == !int_relop_holds(IntRelop::LtU, a, b),
        int_relop_holds(IntRelop::Ne, a, b) == !int_relop_holds(IntRelop::Eq, a, b),
        int_relop_holds(IntRelop::LeS, a, a) && int_relop_holds(IntRelop::GeS, a, a),
        int_relop_holds(IntRelop::LeU, a, a) && int_relop_holds(IntRelop::GeU, a, a),
        !int_relop_holds(IntRelop::LtS, a, a) && !int_relop_holds(IntRelop::GtS, a, a),
{
}

} // verus!
