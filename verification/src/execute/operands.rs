use vstd::prelude::*;

use crate::instances::stack::{pop_value_spec, push_val, top_value, Stack, StackEntry};
use crate::instances::value::Val;
use crate::result::{RResult, Trap};

verus! {

// Operand handling shared by the numeric and vector instructions. An instruction
// pops its operands one value at a time: a value of the wrong type is consumed
// and the instruction traps; a non-value entry is left in place.

/// The top value as i32, if it is one.
pub open spec fn as_i32(v: Option<Val>) -> Option<u32> {
    match v {
        Some(Val::I32(x)) => Some(x),
        _ => None,
    }
}

/// Pops one i32 operand.
pub fn pop_i32_operand(stack: &mut Stack) -> (r: RResult<u32>)
    ensures
        final(stack)@ == pop_value_spec(old(stack)@),
        match as_i32(top_value(old(stack)@)) {
            Some(x) => r == Ok::<u32, Trap>(x),
            None => r is Err,
        },
{
    match stack.pop_value() {
        Some(Val::I32(x)) => Ok(x),
        _ => Err(Trap),
    }
}

/// Pops two i32 operands; the first one returned was pushed first.
pub fn pop_i32_pair(stack: &mut Stack) -> (r: RResult<(u32, u32)>)
    ensures
        match as_i32(top_value(old(stack)@)) {
            None => r is Err && final(stack)@ == pop_value_spec(old(stack)@),
            Some(b) => final(stack)@ == pop_value_spec(pop_value_spec(old(stack)@)) && match as_i32(
                top_value(pop_value_spec(old(stack)@)),
            ) {
                Some(a) => r == Ok::<(u32, u32), Trap>((a, b)),
                None => r is Err,
            },
        },
{
    let second = pop_i32_operand(stack)?;
    let first = pop_i32_operand(stack)?;
    Ok((first, second))
}

/// The top value as i64, if it is one.
pub open spec fn as_i64(v: Option<Val>) -> Option<u64> {
    match v {
        Some(Val::I64(x)) => Some(x),
        _ => None,
    }
}

/// Pops one i64 operand.
pub fn pop_i64_operand(stack: &mut Stack) -> (r: RResult<u64>)
    ensures
        final(stack)@ == pop_value_spec(old(stack)@),
        match as_i64(top_value(old(stack)@)) {
            Some(x) => r == Ok::<u64, Trap>(x),
            None => r is Err,
        },
{
    match stack.pop_value() {
        Some(Val::I64(x)) => Ok(x),
        _ => Err(Trap),
    }
}

/// Pops two i64 operands; the first one returned was pushed first.
pub fn pop_i64_pair(stack: &mut Stack) -> (r: RResult<(u64, u64)>)
    ensures
        match as_i64(top_value(old(stack)@)) {
            None => r is Err && final(stack)@ == pop_value_spec(old(stack)@),
            Some(b) => final(stack)@ == pop_value_spec(pop_value_spec(old(stack)@)) && match as_i64(
                top_value(pop_value_spec(old(stack)@)),
            ) {
                Some(a) => r == Ok::<(u64, u64), Trap>((a, b)),
                None => r is Err,
            },
        },
{
    let second = pop_i64_operand(stack)?;
    let first = pop_i64_operand(stack)?;
    Ok((first, second))
}

/// The top value as f32, if it is one.
pub open spec fn as_f32(v: Option<Val>) -> Option<u32> {
    match v {
        Some(Val::F32(x)) => Some(x),
        _ => None,
    }
}

/// Pops one f32 operand.
pub fn pop_f32_operand(stack: &mut Stack) -> (r: RResult<u32>)
    ensures
        final(stack)@ == pop_value_spec(old(stack)@),
        match as_f32(top_value(old(stack)@)) {
            Some(x) => r == Ok::<u32, Trap>(x),
            None => r is Err,
        },
{
    match stack.pop_value() {
        Some(Val::F32(x)) => Ok(x),
        _ => Err(Trap),
    }
}

/// Pops two f32 operands; the first one returned was pushed first.
pub fn pop_f32_pair(stack: &mut Stack) -> (r: RResult<(u32, u32)>)
    ensures
        match as_f32(top_value(old(stack)@)) {
            None => r is Err && final(stack)@ == pop_value_spec(old(stack)@),
            Some(b) => final(stack)@ == pop_value_spec(pop_value_spec(old(stack)@)) && match as_f32(
                top_value(pop_value_spec(old(stack)@)),
            ) {
                Some(a) => r == Ok::<(u32, u32), Trap>((a, b)),
                None => r is Err,
            },
        },
{
    let second = pop_f32_operand(stack)?;
    let first = pop_f32_operand(stack)?;
    Ok((first, second))
}

/// The top value as f64, if it is one.
pub open spec fn as_f64(v: Option<Val>) -> Option<u64> {
    match v {
        Some(Val::F64(x)) => Some(x),
        _ => None,
    }
}

/// Pops one f64 operand.
pub fn pop_f64_operand(stack: &mut Stack) -> (r: RResult<u64>)
    ensures
        final(stack)@ == pop_value_spec(old(stack)@),
        match as_f64(top_value(old(stack)@)) {
            Some(x) => r == Ok::<u64, Trap>(x),
            None => r is Err,
        },
{
    match stack.pop_value() {
        Some(Val::F64(x)) => Ok(x),
        _ => Err(Trap),
    }
}

/// Pops two f64 operands; the first one returned was pushed first.
pub fn pop_f64_pair(stack: &mut Stack) -> (r: RResult<(u64, u64)>)
    ensures
        match as_f64(top_value(old(stack)@)) {
            None => r is Err && final(stack)@ == pop_value_spec(old(stack)@),
            Some(b) => final(stack)@ == pop_value_spec(pop_value_spec(old(stack)@)) && match as_f64(
                top_value(pop_value_spec(old(stack)@)),
            ) {
                Some(a) => r == Ok::<(u64, u64), Trap>((a, b)),
                None => r is Err,
            },
        },
{
    let second = pop_f64_operand(stack)?;
    let first = pop_f64_operand(stack)?;
    Ok((first, second))
}

/// The top value as v128, if it is one.
pub open spec fn as_v128(v: Option<Val>) -> Option<u128> {
    match v {
        Some(Val::Vec(x)) => Some(x),
        _ => None,
    }
}

/// Pops one v128 operand.
pub fn pop_v128_operand(stack: &mut Stack) -> (r: RResult<u128>)
    ensures
        final(stack)@ == pop_value_spec(old(stack)@),
        match as_v128(top_value(old(stack)@)) {
            Some(x) => r == Ok::<u128, Trap>(x),
            None => r is Err,
        },
{
    match stack.pop_value() {
        Some(Val::Vec(x)) => Ok(x),
        _ => Err(Trap),
    }
}

/// Pops two v128 operands; the first one returned was pushed first.
pub fn pop_v128_pair(stack: &mut Stack) -> (r: RResult<(u128, u128)>)
    ensures
        match as_v128(top_value(old(stack)@)) {
            None => r is Err && final(stack)@ == pop_value_spec(old(stack)@),
            Some(b) => final(stack)@ == pop_value_spec(pop_value_spec(old(stack)@)) && match as_v128(
                top_value(pop_value_spec(old(stack)@)),
            ) {
                Some(a) => r == Ok::<(u128, u128), Trap>((a, b)),
                None => r is Err,
            },
        },
{
    let second = pop_v128_operand(stack)?;
    let first = pop_v128_operand(stack)?;
    Ok((first, second))
}

/// The effect of an instruction that pops one i32 and pushes the i32 that `op` gives.
pub open spec fn unop_i32_i32_post(before: Seq<StackEntry>, after: Seq<StackEntry>, r: RResult<()>, op: spec_fn(u32) -> RResult<u32>) -> bool {
    match as_i32(top_value(before)) {
        Some(x) => match op(x) {
            Ok(y) => r is Ok && after == push_val(before.drop_last(), Val::I32(y)),
            Err(_) => r is Err && after == before.drop_last(),
        },
        None => r is Err && after == pop_value_spec(before),
    }
}

/// The effect of an instruction that pops two i32 operands `a` (pushed first) and
/// `b` and pushes the i32 that `op(a, b)` gives.
pub open spec fn binop_i32_i32_post(before: Seq<StackEntry>, after: Seq<StackEntry>, r: RResult<()>, op: spec_fn(u32, u32) -> RResult<u32>) -> bool {
    match as_i32(top_value(before)) {
        Some(b) => match as_i32(top_value(before.drop_last())) {
            Some(a) => match op(a, b) {
                Ok(y) => r is Ok && after == push_val(before.drop_last().drop_last(), Val::I32(y)),
                Err(_) => r is Err && after == before.drop_last().drop_last(),
            },
            None => r is Err && after == pop_value_spec(before.drop_last()),
        },
        None => r is Err && after == pop_value_spec(before),
    }
}

/// The effect of an instruction that pops one i64 and pushes the i64 that `op` gives.
pub open spec fn unop_i64_i64_post(before: Seq<StackEntry>, after: Seq<StackEntry>, r: RResult<()>, op: spec_fn(u64) -> RResult<u64>) -> bool {
    match as_i64(top_value(before)) {
        Some(x) => match op(x) {
            Ok(y) => r is Ok && after == push_val(before.drop_last(), Val::I64(y)),
            Err(_) => r is Err && after == before.drop_last(),
        },
        None => r is Err && after == pop_value_spec(before),
    }
}

/// The effect of an instruction that pops two i64 operands `a` (pushed first) and
/// `b` and pushes the i64 that `op(a, b)` gives.
pub open spec fn binop_i64_i64_post(before: Seq<StackEntry>, after: Seq<StackEntry>, r: RResult<()>, op: spec_fn(u64, u64) -> RResult<u64>) -> bool {
    match as_i64(top_value(before)) {
        Some(b) => match as_i64(top_value(before.drop_last())) {
            Some(a) => match op(a, b) {
                Ok(y) => r is Ok && after == push_val(before.drop_last().drop_last(), Val::I64(y)),
                Err(_) => r is Err && after == before.drop_last().drop_last(),
            },
            None => r is Err && after == pop_value_spec(before.drop_last()),
        },
        None => r is Err && after == pop_value_spec(before),
    }
}

/// The effect of an instruction that pops one f32 and pushes the f32 that `op` gives.
pub open spec fn unop_f32_f32_post(before: Seq<StackEntry>, after: Seq<StackEntry>, r: RResult<()>, op: spec_fn(u32) -> RResult<u32>) -> bool {
    match as_f32(top_value(before)) {
        Some(x) => match op(x) {
            Ok(y) => r is Ok && after == push_val(before.drop_last(), Val::F32(y)),
            Err(_) => r is Err && after == before.drop_last(),
        },
        None => r is Err && after == pop_value_spec(before),
    }
}

/// The effect of an instruction that pops two f32 operands `a` (pushed first) and
/// `b` and pushes the f32 that `op(a, b)` gives.
pub open spec fn binop_f32_f32_post(before: Seq<StackEntry>, after: Seq<StackEntry>, r: RResult<()>, op: spec_fn(u32, u32) -> RResult<u32>) -> bool {
    match as_f32(top_value(before)) {
        Some(b) => match as_f32(top_value(before.drop_last())) {
            Some(a) => match op(a, b) {
                Ok(y) => r is Ok && after == push_val(before.drop_last().drop_last(), Val::F32(y)),
                Err(_) => r is Err && after == before.drop_last().drop_last(),
            },
            None => r is Err && after == pop_value_spec(before.drop_last()),
        },
        None => r is Err && after == pop_value_spec(before),
    }
}

/// The effect of an instruction that pops one f64 and pushes the f64 that `op` gives.
pub open spec fn unop_f64_f64_post(before: Seq<StackEntry>, after: Seq<StackEntry>, r: RResult<()>, op: spec_fn(u64) -> RResult<u64>) -> bool {
    match as_f64(top_value(before)) {
        Some(x) => match op(x) {
            Ok(y) => r is Ok && after == push_val(before.drop_last(), Val::F64(y)),
            Err(_) => r is Err && after == before.drop_last(),
        },
        None => r is Err && after == pop_value_spec(before),
    }
}

/// The effect of an instruction that pops two f64 operands `a` (pushed first) and
/// `b` and pushes the f64 that `op(a, b)` gives.
pub open spec fn binop_f64_f64_post(before: Seq<StackEntry>, after: Seq<StackEntry>, r: RResult<()>, op: spec_fn(u64, u64) -> RResult<u64>) -> bool {
    match as_f64(top_value(before)) {
        Some(b) => match as_f64(top_value(before.drop_last())) {
            Some(a) => match op(a, b) {
                Ok(y) => r is Ok && after == push_val(before.drop_last().drop_last(), Val::F64(y)),
                Err(_) => r is Err && after == before.drop_last().drop_last(),
            },
            None => r is Err && after == pop_value_spec(before.drop_last()),
        },
        None => r is Err && after == pop_value_spec(before),
    }
}

/// The effect of an instruction that pops one i32 and pushes the i64 that `op` gives.
pub open spec fn unop_i32_i64_post(before: Seq<StackEntry>, after: Seq<StackEntry>, r: RResult<()>, op: spec_fn(u32) -> RResult<u64>) -> bool {
    match as_i32(top_value(before)) {
        Some(x) => match op(x) {
            Ok(y) => r is Ok && after == push_val(before.drop_last(), Val::I64(y)),
            Err(_) => r is Err && after == before.drop_last(),
        },
        None => r is Err && after == pop_value_spec(before),
    }
}

/// The effect of an instruction that pops one i64 and pushes the i32 that `op` gives.
pub open spec fn unop_i64_i32_post(before: Seq<StackEntry>, after: Seq<StackEntry>, r: RResult<()>, op: spec_fn(u64) -> RResult<u32>) -> bool {
    match as_i64(top_value(before)) {
        Some(x) => match op(x) {
            Ok(y) => r is Ok && after == push_val(before.drop_last(), Val::I32(y)),
            Err(_) => r is Err && after == before.drop_last(),
        },
        None => r is Err && after == pop_value_spec(before),
    }
}

/// The effect of an instruction that pops one f32 and pushes the i32 that `op` gives.
pub open spec fn unop_f32_i32_post(before: Seq<StackEntry>, after: Seq<StackEntry>, r: RResult<()>, op: spec_fn(u32) -> RResult<u32>) -> bool {
    match as_f32(top_value(before)) {
        Some(x) => match op(x) {
            Ok(y) => r is Ok && after == push_val(before.drop_last(), Val::I32(y)),
            Err(_) => r is Err && after == before.drop_last(),
        },
        None => r is Err && after == pop_value_spec(before),
    }
}

/// The effect of an instruction that pops one f64 and pushes the i64 that `op` gives.
pub open spec fn unop_f64_i64_post(before: Seq<StackEntry>, after: Seq<StackEntry>, r: RResult<()>, op: spec_fn(u64) -> RResult<u64>) -> bool {
    match as_f64(top_value(before)) {
        Some(x) => match op(x) {
            Ok(y) => r is Ok && after == push_val(before.drop_last(), Val::I64(y)),
            Err(_) => r is Err && after == before.drop_last(),
        },
        None => r is Err && after == pop_value_spec(before),
    }
}

/// The effect of an instruction that pops one i32 and pushes the f32 that `op` gives.
pub open spec fn unop_i32_f32_post(before: Seq<StackEntry>, after: Seq<StackEntry>, r: RResult<()>, op: spec_fn(u32) -> RResult<u32>) -> bool {
    match as_i32(top_value(before)) {
        Some(x) => match op(x) {
            Ok(y) => r is Ok && after == push_val(before.drop_last(), Val::F32(y)),
            Err(_) => r is Err && after == before.drop_last(),
        },
        None => r is Err && after == pop_value_spec(before),
    }
}

/// The effect of an instruction that pops one i64 and pushes the f64 that `op` gives.
pub open spec fn unop_i64_f64_post(before: Seq<StackEntry>, after: Seq<StackEntry>, r: RResult<()>, op: spec_fn(u64) -> RResult<u64>) -> bool {
    match as_i64(top_value(before)) {
        Some(x) => match op(x) {
            Ok(y) => r is Ok && after == push_val(before.drop_last(), Val::F64(y)),
            Err(_) => r is Err && after == before.drop_last(),
        },
        None => r is Err && after == pop_value_spec(before),
    }
}

/// The effect of an instruction that pops two i64 operands `a` (pushed first) and
/// `b` and pushes the i32 that `op(a, b)` gives.
pub open spec fn binop_i64_i32_post(before: Seq<StackEntry>, after: Seq<StackEntry>, r: RResult<()>, op: spec_fn(u64, u64) -> RResult<u32>) -> bool {
    match as_i64(top_value(before)) {
        Some(b) => match as_i64(top_value(before.drop_last())) {
            Some(a) => match op(a, b) {
                Ok(y) => r is Ok && after == push_val(before.drop_last().drop_last(), Val::I32(y)),
                Err(_) => r is Err && after == before.drop_last().drop_last(),
            },
            None => r is Err && after == pop_value_spec(before.drop_last()),
        },
        None => r is Err && after == pop_value_spec(before),
    }
}

/// The effect of an instruction that pops one f32 and pushes some f32; with
/// `may_trap`, it may instead trap after the pop.
pub open spec fn unop_f32_f32_any_post(before: Seq<StackEntry>, after: Seq<StackEntry>, r: RResult<()>, may_trap: bool) -> bool {
    match as_f32(top_value(before)) {
        Some(x) => {
            ||| r is Ok && after.len() == before.len() && after.drop_last() == before.drop_last()
                && as_f32(top_value(after)) is Some
            ||| may_trap && r is Err && after == before.drop_last()
        },
        None => r is Err && after == pop_value_spec(before),
    }
}

/// The effect of an instruction that pops one f64 and pushes some f64; with
/// `may_trap`, it may instead trap after the pop.
pub open spec fn unop_f64_f64_any_post(before: Seq<StackEntry>, after: Seq<StackEntry>, r: RResult<()>, may_trap: bool) -> bool {
    match as_f64(top_value(before)) {
        Some(x) => {
            ||| r is Ok && after.len() == before.len() && after.drop_last() == before.drop_last()
                && as_f64(top_value(after)) is Some
            ||| may_trap && r is Err && after == before.drop_last()
        },
        None => r is Err && after == pop_value_spec(before),
    }
}

/// The effect of an instruction that pops two f32 operands and pushes some f32.
pub open spec fn binop_f32_f32_any_post(before: Seq<StackEntry>, after: Seq<StackEntry>, r: RResult<()>) -> bool {
    match as_f32(top_value(before)) {
        Some(b) => match as_f32(top_value(before.drop_last())) {
            Some(a) => r is Ok && after.len() == before.len() - 1 && after.drop_last()
                == before.drop_last().drop_last() && as_f32(top_value(after)) is Some,
            None => r is Err && after == pop_value_spec(before.drop_last()),
        },
        None => r is Err && after == pop_value_spec(before),
    }
}

/// The effect of an instruction that pops two f64 operands and pushes some f64.
pub open spec fn binop_f64_f64_any_post(before: Seq<StackEntry>, after: Seq<StackEntry>, r: RResult<()>) -> bool {
    match as_f64(top_value(before)) {
        Some(b) => match as_f64(top_value(before.drop_last())) {
            Some(a) => r is Ok && after.len() == before.len() - 1 && after.drop_last()
                == before.drop_last().drop_last() && as_f64(top_value(after)) is Some,
            None => r is Err && after == pop_value_spec(before.drop_last()),
        },
        None => r is Err && after == pop_value_spec(before),
    }
}

/// The effect of an instruction that pops two f32 operands and pushes some i32.
pub open spec fn binop_f32_i32_any_post(before: Seq<StackEntry>, after: Seq<StackEntry>, r: RResult<()>) -> bool {
    match as_f32(top_value(before)) {
        Some(b) => match as_f32(top_value(before.drop_last())) {
            Some(a) => r is Ok && after.len() == before.len() - 1 && after.drop_last()
                == before.drop_last().drop_last() && as_i32(top_value(after)) is Some,
            None => r is Err && after == pop_value_spec(before.drop_last()),
        },
        None => r is Err && after == pop_value_spec(before),
    }
}

/// The effect of an instruction that pops two f64 operands and pushes some i32.
pub open spec fn binop_f64_i32_any_post(before: Seq<StackEntry>, after: Seq<StackEntry>, r: RResult<()>) -> bool {
    match as_f64(top_value(before)) {
        Some(b) => match as_f64(top_value(before.drop_last())) {
            Some(a) => r is Ok && after.len() == before.len() - 1 && after.drop_last()
                == before.drop_last().drop_last() && as_i32(top_value(after)) is Some,
            None => r is Err && after == pop_value_spec(before.drop_last()),
        },
        None => r is Err && after == pop_value_spec(before),
    }
}

} // verus!
