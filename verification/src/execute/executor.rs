use vstd::prelude::*;

use crate::entities::instructions::{BlockType, BrTableArg, ExpressionType, InstructionType, MemArgLane};
use crate::entities::types::{F32Type, F64Type, FuncIdx, I32Type, I64Type, LabelIdx, LaneIdx, U32Type};
use crate::execute::exec_control::block::{block, block_signature, exec_loop, structured_post, structured_run_post};
use crate::execute::exec_control::exec_br::{br_post, br_run_post, exec_br};
use crate::execute::exec_control::exec_brif::exec_brif;
use crate::execute::exec_control::exec_brtable::{brtable_target, exec_brtable};
use crate::execute::exec_control::exec_call::{exec_call, frame_func_addr};
use crate::execute::exec_control::exec_call_indirect::{call_indirect_target, exec_call_indirect};
use crate::execute::exec_control::exec_ifelse::exec_ifelse;
use crate::execute::exec_control::exec_return::{exec_return, frame_arity, returned_stack};
use crate::execute::exec_control::exec_unreachable::exec_unreachable;
use crate::execute::exec_control::utils::{invoke_post, invoke_run_post, top_values};
use crate::execute::exec_relop::IntRelop;
use crate::execute::exec_vec::Half;
use crate::execute::float::{FloatBinop, FloatConvert, FloatOps, FloatRelop, FloatUnop, LaneConvert};
use crate::instances::stack::{top_frame, top_value, Stack, StackEntry};
use crate::instances::store::Store;
use crate::instances::value::Val;
use crate::result::{RResult, Trap};
use crate::sign::Sign;
use crate::execute::exec_binop::{f32_add, f32_copysign, f32_div, f32_max, f32_min, f32_mul, f32_sub, f64_add, f64_copysign, f64_div, f64_max, f64_min, f64_mul, f64_sub, i32_add, i32_and, i32_div_s, i32_div_u, i32_mul, i32_or, i32_rem_s, i32_rem_u, i32_rotl, i32_rotr, i32_shl, i32_shr_s, i32_shr_u, i32_sub, i32_xor, i64_add, i64_and, i64_div_s, i64_div_u, i64_mul, i64_or, i64_rem_s, i64_rem_u, i64_rotl, i64_rotr, i64_shl, i64_shr_s, i64_shr_u, i64_sub, i64_xor};
use crate::execute::exec_const::{f32_const, f64_const, i32_const, i64_const, v128_const};
use crate::execute::exec_cvtop::{f32_reinterpret_i32, f64_reinterpret_i64, float_convert, i32_reinterpret_f32, i32_wrap_i64, i64_extend_i32, i64_reinterpret_f64};
use crate::execute::exec_memory::memory::{data_drop, memory_copy, memory_fill, memory_grow, memory_init, memory_size};
use crate::execute::exec_memory::t_load::{f32_load, f64_load, i32_load, i32_load_16, i32_load_8, i64_load, i64_load_16, i64_load_32, i64_load_8, v128_load, v128_load16_lane, v128_load16_splat, v128_load32_lane, v128_load32_splat, v128_load32_zero, v128_load64_lane, v128_load64_splat, v128_load64_zero, v128_load8_lane, v128_load8_splat, v128_load_16x4, v128_load_32x2, v128_load_8x8};
use crate::execute::exec_memory::t_store::{f32_store, f64_store, i32_store, i32_store16, i32_store8, i64_store, i64_store16, i64_store32, i64_store8, v128_store, v128_store16_lane, v128_store32_lane, v128_store64_lane, v128_store8_lane};
use crate::execute::exec_parametric::{exec_drop, exec_select, exec_select_vec};
use crate::execute::exec_ref::{is_ref_null, ref_func, ref_null};
use crate::execute::exec_relop::{f32_relop, f64_relop, i32_relop, i32_testop, i64_relop, i64_testop};
use crate::execute::exec_table::{elem_drop, table_copy, table_fill, table_get, table_grow, table_init, table_set, table_size};
use crate::execute::exec_unop::{f32_abs, f32_ceil, f32_floor, f32_nearest, f32_neg, f32_sqrt, f32_trunc, f64_abs, f64_ceil, f64_floor, f64_nearest, f64_neg, f64_sqrt, f64_trunc, i32_clz, i32_ctz, i32_extend_16s, i32_extend_8s, i32_popcnt, i64_clz, i64_ctz, i64_extend_16s, i64_extend_32s, i64_extend_8s, i64_popcnt};
use crate::execute::exec_variable::{global_get, global_set, local_get, local_set, local_tee};
use crate::execute::exec_vec::{all_true_16x8, all_true_32x4, all_true_64x2, all_true_8x16, binop_16x8, binop_32x4, binop_64x2, binop_8x16, bitmask_16x8, bitmask_32x4, bitmask_64x2, bitmask_8x16, f32x4_extract_lane, f32x4_replace_lane, f32x4_splat, f32x4_vcvtop_i32x4, f64x2_extract_lane, f64x2_replace_lane, f64x2_splat, i16_extend_i32_s, i16_extend_i32_u, i16x8_extadd_pairwise_i8x16, i16x8_extmul_half_i8x16, i16x8_extract_lane_s, i16x8_extract_lane_u, i16x8_replace_lane, i16x8_splat, i16x8_vcvtop_half_i8x16, i32_extend_i64_s, i32_extend_i64_u, i32x4_dot_i16x8s, i32x4_extadd_pairwise_i16x8, i32x4_extmul_half_i16x8, i32x4_extract_lane, i32x4_replace_lane, i32x4_splat, i32x4_vcvtop_half_i16x8, i64x2_extmul_half_i32x4, i64x2_extract_lane, i64x2_replace_lane, i64x2_splat, i64x2_vcvtop_half_i32x4, i8_extend_i16_s, i8_extend_i16_u, i8x16_extract_lane_s, i8x16_extract_lane_u, i8x16_replace_lane, i8x16_shuffle, i8x16_splat, i8x16_swizzle, make_shape_shl, make_shape_shr_s, make_shape_shr_u, relop_16x8, relop_32x4, relop_64x2, relop_8x16, shape_16x8_narrow_32x4_s, shape_16x8_narrow_32x4_u, shape_32x4_vcvtop_64x2_zero, shape_8x16_narrow_16x8_s, shape_8x16_narrow_16x8_u, shape_eq, shape_f32_abs, shape_f32_neg, shape_f64_abs, shape_f64_neg, shape_ge_s, shape_ge_u, shape_gt_s, shape_gt_u, shape_i16_abs, shape_i16_add, shape_i16_avgr_u, shape_i16_max_s, shape_i16_max_u, shape_i16_min_s, shape_i16_min_u, shape_i16_mul, shape_i16_mulr_sat_s, shape_i16_neg, shape_i16_sat_add_s, shape_i16_sat_add_u, shape_i16_sat_sub_s, shape_i16_sat_sub_u, shape_i16_sub, shape_i32_abs, shape_i32_add, shape_i32_max_s, shape_i32_max_u, shape_i32_min_s, shape_i32_min_u, shape_i32_mul, shape_i32_neg, shape_i32_sub, shape_i64_abs, shape_i64_add, shape_i64_mul, shape_i64_neg, shape_i64_sub, shape_i8_abs, shape_i8_add, shape_i8_avgr_u, shape_i8_max_s, shape_i8_max_u, shape_i8_min_s, shape_i8_min_u, shape_i8_neg, shape_i8_popcnt, shape_i8_sat_add_s, shape_i8_sat_add_u, shape_i8_sat_sub_s, shape_i8_sat_sub_u, shape_i8_sub, shape_le_s, shape_le_u, shape_lt_s, shape_lt_u, shape_ne, shift_lane_16, shift_lane_32, shift_lane_64, shift_lane_8, shiftop_16x8, shiftop_32x4, shiftop_64x2, shiftop_8x16, unop_16x8, unop_32x4, unop_64x2, unop_8x16, v128_and, v128_andnot, v128_anytrue, v128_or, v128_xor, vternop, vvunop};
use crate::instances::instruction::{bitselect};

use crate::instances::ref_inst::RefInst;
use crate::execute::exec_vec::ShiftKind;
use crate::execute::operands::as_v128;
use crate::execute::operands::binop_f32_f32_any_post;
use crate::execute::operands::binop_f32_f32_post;
use crate::execute::operands::binop_f32_i32_any_post;
use crate::execute::operands::binop_f64_f64_any_post;
use crate::execute::operands::binop_f64_f64_post;
use crate::execute::operands::binop_f64_i32_any_post;
use crate::execute::operands::binop_i32_i32_post;
use crate::execute::operands::binop_i64_i32_post;
use crate::execute::operands::binop_i64_i64_post;
use crate::execute::exec_vec::bitmask_sum_16;
use crate::execute::exec_vec::bitmask_sum_32;
use crate::execute::exec_vec::bitmask_sum_64;
use crate::execute::exec_vec::bitmask_sum_8;
use crate::instances::instruction::bool_to_u32;
use crate::execute::exec_memory::memory::{bulk_post, copy_completes, copy_result};
use crate::execute::exec_cvtop::convert_post;
use crate::execute::exec_vec::dot_lane;
use crate::execute::exec_vec::extadd_lane_16;
use crate::execute::exec_vec::extadd_lane_32;
use crate::execute::exec_vec::extmul_lane_16;
use crate::execute::exec_vec::extmul_lane_32;
use crate::execute::exec_vec::extmul_lane_64;
use crate::execute::exec_binop::f32_sign_bit;
use crate::execute::exec_binop::f64_sign_bit;
use crate::execute::exec_memory::memory::filled;
use crate::execute::exec_memory::memory::frame_data_addr;
use crate::execute::exec_table::frame_elem_addr;
use crate::execute::exec_variable::frame_global_addr;
use crate::execute::exec_variable::frame_local;
use crate::execute::exec_memory::access::frame_mem;
use crate::execute::exec_table::frame_table_addr;
use crate::execute::exec_vec::half_start;
use crate::execute::exec_memory::memory::initialized;
use crate::execute::exec_relop::int_relop_holds;
use crate::execute::exec_ref::is_ref_null_post;
use crate::execute::exec_vec::lane16;
use crate::execute::exec_vec::lane32;
use crate::execute::exec_vec::lane64;
use crate::execute::exec_vec::lane8;
use crate::execute::exec_vec::lane_shift_spec;
use crate::execute::bytes::le_value;
use crate::execute::exec_memory::access::load_bytes;
use crate::execute::exec_memory::access::load_fails_early;
use crate::execute::exec_memory::access::load_in_bounds;
use crate::execute::exec_memory::access::load_post;
use crate::instances::stack::local_replaced;
use crate::execute::exec_vec::narrow_16_s;
use crate::execute::exec_vec::narrow_16_u;
use crate::execute::exec_vec::narrow_32_s;
use crate::execute::exec_vec::narrow_32_u;
use crate::instances::stack::pop_value_spec;
use crate::execute::exec_unop::popcount;
use crate::instances::stack::push_val;
use crate::execute::exec_binop::rotl32;
use crate::execute::exec_binop::rotl64;
use crate::execute::exec_binop::rotr32;
use crate::execute::exec_binop::rotr64;
use crate::execute::exec_parametric::select_post;
use crate::execute::exec_vec::sext;
use crate::execute::exec_vec::shuffle_lane;
use crate::execute::exec_vec::shuffle_ok;
use crate::execute::exec_unop::sign_extend;
use crate::execute::exec_vector::lanes::signed_of;
use crate::execute::exec_binop::spec_idiv_32_s;
use crate::execute::exec_binop::spec_idiv_32_u;
use crate::execute::exec_binop::spec_idiv_64_s;
use crate::execute::exec_binop::spec_idiv_64_u;
use crate::execute::exec_binop::spec_irem_32_s;
use crate::execute::exec_binop::spec_irem_32_u;
use crate::execute::exec_binop::spec_irem_64_s;
use crate::execute::exec_binop::spec_irem_64_u;
use crate::execute::exec_memory::access::store_post;
use crate::execute::exec_vec::swizzle_lane;
use crate::execute::exec_table::table_bulk_post;
use crate::execute::exec_table::table_elems;
use crate::execute::exec_table::table_found;
use crate::instances::table::table_grow_post;
use crate::execute::exec_table::table_written;
use crate::instances::stack::top_frame_index;
use crate::execute::operands::unop_f32_f32_any_post;
use crate::execute::operands::unop_f32_f32_post;
use crate::execute::operands::unop_f32_i32_post;
use crate::execute::operands::unop_f64_f64_any_post;
use crate::execute::operands::unop_f64_f64_post;
use crate::execute::operands::unop_f64_i64_post;
use crate::execute::operands::unop_i32_f32_post;
use crate::execute::operands::unop_i32_i32_post;
use crate::execute::operands::unop_i32_i64_post;
use crate::execute::operands::unop_i64_f64_post;
use crate::execute::operands::unop_i64_i32_post;
use crate::execute::operands::unop_i64_i64_post;
use crate::execute::exec_vec::vec1_post;
use crate::execute::exec_vec::vec2_post;
use crate::execute::exec_memory::t_load::widen_lane_16;
use crate::execute::exec_memory::t_load::widen_lane_32;
use crate::execute::exec_memory::t_load::widen_lane_64;
use crate::execute::exec_binop::wrap32;
use crate::execute::exec_binop::wrap64;
use crate::instances::global::GlobalInst;
use crate::execute::exec_vec::LaneShift;
use vstd::std_specs::bits::{u32_leading_zeros, u32_trailing_zeros, u64_leading_zeros, u64_trailing_zeros};
verus! {

/// How the execution of an instruction ended: normally, or by a `return` that has
/// already left the current function.
#[derive(Debug, Clone, Copy, PartialEq, Eq, Structural)]
pub enum ExitType {
    Completed,
    Returned,
}

/// What one instruction does to the stack and the store, and how it ends, apart
/// from the runs of the bodies of blocks, loops and conditionals: a plain
/// instruction as `plain_post` states, completed when it succeeds; `nop` changes
/// nothing, `unreachable` traps, `return` leaves the current frame, branches leave
/// labels, calls run the function that the index or the table selects, and blocks,
/// loops and conditionals as `structured_post` and the condition say.
pub open spec fn step_post(
    instr: InstructionType,
    s: Seq<StackEntry>,
    s2: Seq<StackEntry>,
    st: Store,
    st2: Store,
    r: RResult<ExitType>,
) -> bool {
    match instr {
        InstructionType::Nop => r == Ok::<ExitType, Trap>(ExitType::Completed) && s2 == s && st2 == st,
        InstructionType::Unreachable => r is Err && s2 == s && st2 == st,
        InstructionType::Block(b) => structured_post(s, s2, st, st2, b.blocktype, b.instructions@.len(), r),
        InstructionType::Loop(l) => structured_post(s, s2, st, st2, l.blocktype, l.instructions@.len(), r),
        InstructionType::IfElse(i) => match top_value(s) {
            Some(Val::I32(c)) => structured_post(s.drop_last(), s2, st, st2, i.blocktype, if c != 0 {
                i.if_instructions@.len()
            } else {
                i.else_instructions@.len()
            }, r),
            _ => r is Err && s2 == s && st2 == st,
        },
        InstructionType::Br(l) => br_post(s, s2, st, st2, l.0.0, r),
        InstructionType::BrIf(l) => match top_value(s) {
            Some(Val::I32(c)) => if c == 0 {
                r == Ok::<ExitType, Trap>(ExitType::Completed) && s2 == s.drop_last() && st2 == st
            } else {
                br_post(s.drop_last(), s2, st, st2, l.0.0, r)
            },
            _ => r is Err && s2 == s && st2 == st,
        },
        InstructionType::BrTable(arg) => match top_value(s) {
            Some(Val::I32(i)) => br_post(s.drop_last(), s2, st, st2, brtable_target(arg, i), r),
            _ => r is Err && s2 == s && st2 == st,
        },
        InstructionType::Return => {
            &&& r is Ok <==> top_frame(s) is Some && top_values(s, frame_arity(top_frame(s)->0))
            &&& r is Ok ==> r == Ok::<ExitType, Trap>(ExitType::Returned) && s2 == returned_stack(s)
            &&& st2 == st
        },
        InstructionType::Call(f) => match frame_func_addr(s, f.0.0 as int) {
            Some(a) => invoke_post(s, s2, st, st2, a as int, r),
            None => r is Err && s2 == s && st2 == st,
        },
        InstructionType::CallIndirect(arg) => match call_indirect_target(s, st, arg) {
            Some(a) => invoke_post(s.drop_last(), s2, st, st2, a, r),
            None => r is Err,
        },
        _ => {
            &&& plain_post(instr, s, s2, st, st2, match r {
                Ok(_) => Ok::<(), Trap>(()),
                Err(e) => Err::<(), Trap>(e),
            })
            &&& r is Ok ==> r == Ok::<ExitType, Trap>(ExitType::Completed)
        },
    }
}

/// What one instruction does with `fuel` levels of nesting left: `step_post`, and for
/// a block, a loop or a conditional whose parameters are there, how the run of its
/// body came about and how it ended (`structured_run_post`); for a branch, how the run
/// of its target's continuation came about (`br_run_post`); and for a call, how the
/// run of the function's body came about (`invoke_run_post`). The nested runs are
/// stated with this relation again, one level of nesting less.
pub open spec fn instruction_run(
    instr: InstructionType,
    s: Seq<StackEntry>,
    s2: Seq<StackEntry>,
    st: Store,
    st2: Store,
    fuel: nat,
    r: RResult<ExitType>,
) -> bool
    decreases fuel, 6nat,
{
    &&& step_post(instr, s, s2, st, st2, r)
    &&& match instr {
        InstructionType::Block(b) => match block_signature(s, b.blocktype) {
            Some((m, n)) => top_values(s, m) ==> structured_run_post(b.instructions@, s, s2, st, st2, m, n, n, 0, fuel, r),
            None => true,
        },
        InstructionType::Loop(l) => match block_signature(s, l.blocktype) {
            Some((m, n)) => top_values(s, m) ==> structured_run_post(l.instructions@, s, s2, st, st2, m, n, m, 1, fuel, r),
            None => true,
        },
        InstructionType::IfElse(i) => match top_value(s) {
            Some(Val::I32(c)) => match block_signature(s.drop_last(), i.blocktype) {
                Some((m, n)) => top_values(s.drop_last(), m) ==> structured_run_post(
                    if c != 0 {
                        i.if_instructions@
                    } else {
                        i.else_instructions@
                    },
                    s.drop_last(),
                    s2,
                    st,
                    st2,
                    m,
                    n,
                    n,
                    0,
                    fuel,
                    r,
                ),
                None => true,
            },
            _ => true,
        },
        InstructionType::Br(l) => br_run_post(s, s2, st, st2, l.0.0, fuel, r),
        InstructionType::Call(f) => match frame_func_addr(s, f.0.0 as int) {
            Some(a) => invoke_run_post(s, s2, st, st2, a as int, fuel, r),
            None => true,
        },
        InstructionType::CallIndirect(arg) => match call_indirect_target(s, st, arg) {
            Some(a) => invoke_run_post(s.drop_last(), s2, st, st2, a, fuel, r),
            None => true,
        },
        InstructionType::BrIf(l) => top_value(s) matches Some(Val::I32(c)) && c != 0 ==> br_run_post(
            s.drop_last(), s2, st, st2, l.0.0, fuel, r),
        InstructionType::BrTable(arg) => top_value(s) matches Some(Val::I32(i)) ==> br_run_post(
            s.drop_last(), s2, st, st2, brtable_target(arg, i), fuel, r),
        _ => true,
    }
}

/// What one instruction does when it runs at the top level, with as many levels of
/// nesting as `execute_instruction` gives it (`instruction_run`).
pub open spec fn instruction_post(
    instr: InstructionType,
    s: Seq<StackEntry>,
    s2: Seq<StackEntry>,
    st: Store,
    st2: Store,
    r: RResult<ExitType>,
) -> bool {
    instruction_run(instr, s, s2, st, st2, u64::MAX as nat, r)
}

/// What an instruction other than a control instruction does, as the function that
/// runs it states, one arm per instruction. Where a float operation of `FloatOps`
/// computes a vector's lanes, what is stated is which operands are taken and that a
/// vector is pushed; the lanes themselves are what the implementation returns.
pub open spec fn plain_post(
    instr: InstructionType,
    s_pre: Seq<StackEntry>,
    s_post: Seq<StackEntry>,
    st_pre: Store,
    st_post: Store,
    r: RResult<()>,
) -> bool {
    match instr {
        InstructionType::I32Const(I32Type(num_val)) => {
            &&& r is Ok
            &&& s_post == push_val(s_pre, Val::I32(num_val))
            &&& st_post == st_pre
        },
        InstructionType::I64Const(I64Type(num_val)) => {
            &&& r is Ok
            &&& s_post == push_val(s_pre, Val::I64(num_val))
            &&& st_post == st_pre
        },
        InstructionType::F32Const(F32Type(num_val)) => {
            &&& r is Ok
            &&& s_post == push_val(s_pre, Val::F32(num_val))
            &&& st_post == st_pre
        },
        InstructionType::F64Const(F64Type(num_val)) => {
            &&& r is Ok
            &&& s_post == push_val(s_pre, Val::F64(num_val))
            &&& st_post == st_pre
        },
        InstructionType::V128Const(v128) => {
            &&& v128@.len() == 16 ==> r is Ok && s_post == push_val(
                s_pre,
                Val::Vec(le_value(v128@) as u128),
            )
            &&& v128@.len() != 16 ==> r is Err && s_post == s_pre
            &&& st_post == st_pre
        },
        InstructionType::I32Clz => {
            &&& unop_i32_i32_post(s_pre, s_post, r, |x: u32| Ok::<u32, Trap>(u32_leading_zeros(x)))
            &&& st_post == st_pre
        },
        InstructionType::I64Clz => {
            &&& unop_i64_i64_post(s_pre, s_post, r, |x: u64| Ok::<u64, Trap>(u64_leading_zeros(x) as u64))
            &&& st_post == st_pre
        },
        InstructionType::I32Ctz => {
            &&& unop_i32_i32_post(s_pre, s_post, r, |x: u32| Ok::<u32, Trap>(u32_trailing_zeros(x)))
            &&& st_post == st_pre
        },
        InstructionType::I64Ctz => {
            &&& unop_i64_i64_post(s_pre, s_post, r, |x: u64| Ok::<u64, Trap>(u64_trailing_zeros(x) as u64))
            &&& st_post == st_pre
        },
        InstructionType::I32Popcnt => {
            &&& unop_i32_i32_post(s_pre, s_post, r, |x: u32| Ok::<u32, Trap>(popcount(x as nat) as u32))
            &&& st_post == st_pre
        },
        InstructionType::I64Popcnt => {
            &&& unop_i64_i64_post(s_pre, s_post, r, |x: u64| Ok::<u64, Trap>(popcount(x as nat) as u64))
            &&& st_post == st_pre
        },
        InstructionType::F32Abs => {
            &&& unop_f32_f32_post(s_pre, s_post, r, |x: u32| Ok::<u32, Trap>(x & 0x7FFF_FFFF))
            &&& st_post == st_pre
        },
        InstructionType::F64Abs => {
            &&& unop_f64_f64_post(s_pre, s_post, r, |x: u64| Ok::<u64, Trap>(x & 0x7FFF_FFFF_FFFF_FFFF))
            &&& st_post == st_pre
        },
        InstructionType::F32Neg => {
            &&& unop_f32_f32_post(s_pre, s_post, r, |x: u32| Ok::<u32, Trap>(x ^ 0x8000_0000))
            &&& st_post == st_pre
        },
        InstructionType::F64Neg => {
            &&& unop_f64_f64_post(s_pre, s_post, r, |x: u64| Ok::<u64, Trap>(x ^ 0x8000_0000_0000_0000))
            &&& st_post == st_pre
        },
        InstructionType::F32Sqrt => {
            &&& unop_f32_f32_any_post(s_pre, s_post, r, false)
            &&& st_post == st_pre
        },
        InstructionType::F64Sqrt => {
            &&& unop_f64_f64_any_post(s_pre, s_post, r, false)
            &&& st_post == st_pre
        },
        InstructionType::F32Ceil => {
            &&& unop_f32_f32_any_post(s_pre, s_post, r, false)
            &&& st_post == st_pre
        },
        InstructionType::F64Ceil => {
            &&& unop_f64_f64_any_post(s_pre, s_post, r, false)
            &&& st_post == st_pre
        },
        InstructionType::F32Floor => {
            &&& unop_f32_f32_any_post(s_pre, s_post, r, false)
            &&& st_post == st_pre
        },
        InstructionType::F64Floor => {
            &&& unop_f64_f64_any_post(s_pre, s_post, r, false)
            &&& st_post == st_pre
        },
        InstructionType::F32Trunc => {
            &&& unop_f32_f32_any_post(s_pre, s_post, r, false)
            &&& st_post == st_pre
        },
        InstructionType::F64Trunc => {
            &&& unop_f64_f64_any_post(s_pre, s_post, r, false)
            &&& st_post == st_pre
        },
        InstructionType::F32Nearest => {
            &&& unop_f32_f32_any_post(s_pre, s_post, r, false)
            &&& st_post == st_pre
        },
        InstructionType::F64Nearest => {
            &&& unop_f64_f64_any_post(s_pre, s_post, r, false)
            &&& st_post == st_pre
        },
        InstructionType::I32Extend8S => {
            &&& unop_i32_i32_post(s_pre, s_post, r, |x: u32| Ok::<u32, Trap>(wrap32(sign_extend(x as int, 8))))
            &&& st_post == st_pre
        },
        InstructionType::I32Extend16S => {
            &&& unop_i32_i32_post(s_pre, s_post, r, |x: u32| Ok::<u32, Trap>(wrap32(sign_extend(x as int, 16))))
            &&& st_post == st_pre
        },
        InstructionType::I64Extend8S => {
            &&& unop_i64_i64_post(s_pre, s_post, r, |x: u64| Ok::<u64, Trap>(wrap64(sign_extend(x as int, 8))))
            &&& st_post == st_pre
        },
        InstructionType::I64Extend16S => {
            &&& unop_i64_i64_post(s_pre, s_post, r, |x: u64| Ok::<u64, Trap>(wrap64(sign_extend(x as int, 16))))
            &&& st_post == st_pre
        },
        InstructionType::I64Extend32S => {
            &&& unop_i64_i64_post(s_pre, s_post, r, |x: u64| Ok::<u64, Trap>(wrap64(sign_extend(x as int, 32))))
            &&& st_post == st_pre
        },
        InstructionType::I32Add => {
            &&& binop_i32_i32_post(s_pre, s_post, r, |a: u32, b: u32| Ok::<u32, Trap>(wrap32(a + b)))
            &&& st_post == st_pre
        },
        InstructionType::I64Add => {
            &&& binop_i64_i64_post(s_pre, s_post, r, |a: u64, b: u64| Ok::<u64, Trap>(wrap64(a + b)))
            &&& st_post == st_pre
        },
        InstructionType::I32Sub => {
            &&& binop_i32_i32_post(s_pre, s_post, r, |a: u32, b: u32| Ok::<u32, Trap>(wrap32(a - b)))
            &&& st_post == st_pre
        },
        InstructionType::I64Sub => {
            &&& binop_i64_i64_post(s_pre, s_post, r, |a: u64, b: u64| Ok::<u64, Trap>(wrap64(a - b)))
            &&& st_post == st_pre
        },
        InstructionType::I32Mul => {
            &&& binop_i32_i32_post(s_pre, s_post, r, |a: u32, b: u32| Ok::<u32, Trap>(wrap32(a * b)))
            &&& st_post == st_pre
        },
        InstructionType::I64Mul => {
            &&& binop_i64_i64_post(s_pre, s_post, r, |a: u64, b: u64| Ok::<u64, Trap>(wrap64(a * b)))
            &&& st_post == st_pre
        },
        InstructionType::I32DivU => {
            &&& binop_i32_i32_post(s_pre, s_post, r, |a: u32, b: u32| spec_idiv_32_u(a, b))
            &&& st_post == st_pre
        },
        InstructionType::I32DivS => {
            &&& binop_i32_i32_post(s_pre, s_post, r, |a: u32, b: u32| spec_idiv_32_s(a, b))
            &&& st_post == st_pre
        },
        InstructionType::I64DivU => {
            &&& binop_i64_i64_post(s_pre, s_post, r, |a: u64, b: u64| spec_idiv_64_u(a, b))
            &&& st_post == st_pre
        },
        InstructionType::I64DivS => {
            &&& binop_i64_i64_post(s_pre, s_post, r, |a: u64, b: u64| spec_idiv_64_s(a, b))
            &&& st_post == st_pre
        },
        InstructionType::I32RemU => {
            &&& binop_i32_i32_post(s_pre, s_post, r, |a: u32, b: u32| spec_irem_32_u(a, b))
            &&& st_post == st_pre
        },
        InstructionType::I32RemS => {
            &&& binop_i32_i32_post(s_pre, s_post, r, |a: u32, b: u32| spec_irem_32_s(a, b))
            &&& st_post == st_pre
        },
        InstructionType::I64RemU => {
            &&& binop_i64_i64_post(s_pre, s_post, r, |a: u64, b: u64| spec_irem_64_u(a, b))
            &&& st_post == st_pre
        },
        InstructionType::I64RemS => {
            &&& binop_i64_i64_post(s_pre, s_post, r, |a: u64, b: u64| spec_irem_64_s(a, b))
            &&& st_post == st_pre
        },
        InstructionType::I32And => {
            &&& binop_i32_i32_post(s_pre, s_post, r, |a: u32, b: u32| Ok::<u32, Trap>(a & b))
            &&& st_post == st_pre
        },
        InstructionType::I64And => {
            &&& binop_i64_i64_post(s_pre, s_post, r, |a: u64, b: u64| Ok::<u64, Trap>(a & b))
            &&& st_post == st_pre
        },
        InstructionType::I32Or => {
            &&& binop_i32_i32_post(s_pre, s_post, r, |a: u32, b: u32| Ok::<u32, Trap>(a | b))
            &&& st_post == st_pre
        },
        InstructionType::I64Or => {
            &&& binop_i64_i64_post(s_pre, s_post, r, |a: u64, b: u64| Ok::<u64, Trap>(a | b))
            &&& st_post == st_pre
        },
        InstructionType::I32Xor => {
            &&& binop_i32_i32_post(s_pre, s_post, r, |a: u32, b: u32| Ok::<u32, Trap>(a ^ b))
            &&& st_post == st_pre
        },
        InstructionType::I64Xor => {
            &&& binop_i64_i64_post(s_pre, s_post, r, |a: u64, b: u64| Ok::<u64, Trap>(a ^ b))
            &&& st_post == st_pre
        },
        InstructionType::I32Shl => {
            &&& binop_i32_i32_post(s_pre, s_post, r, |a: u32, b: u32| Ok::<u32, Trap>(a << (b % 32)))
            &&& st_post == st_pre
        },
        InstructionType::I64Shl => {
            &&& binop_i64_i64_post(s_pre, s_post, r, |a: u64, b: u64| Ok::<u64, Trap>(a << (b % 64)))
            &&& st_post == st_pre
        },
        InstructionType::I32ShrU => {
            &&& binop_i32_i32_post(s_pre, s_post, r, |a: u32, b: u32| Ok::<u32, Trap>(a >> (b % 32)))
            &&& st_post == st_pre
        },
        InstructionType::I64ShrU => {
            &&& binop_i64_i64_post(s_pre, s_post, r, |a: u64, b: u64| Ok::<u64, Trap>(a >> (b % 64)))
            &&& st_post == st_pre
        },
        InstructionType::I32ShrS => {
            &&& binop_i32_i32_post(s_pre, s_post, r, |a: u32, b: u32| Ok::<u32, Trap>(((a as i32) >> (b % 32)) as u32))
            &&& st_post == st_pre
        },
        InstructionType::I64ShrS => {
            &&& binop_i64_i64_post(s_pre, s_post, r, |a: u64, b: u64| Ok::<u64, Trap>(((a as i64) >> (b % 64)) as u64))
            &&& st_post == st_pre
        },
        InstructionType::I32Rotl => {
            &&& binop_i32_i32_post(s_pre, s_post, r, |a: u32, b: u32| Ok::<u32, Trap>(rotl32(a, b % 32)))
            &&& st_post == st_pre
        },
        InstructionType::I64Rotl => {
            &&& binop_i64_i64_post(s_pre, s_post, r, |a: u64, b: u64| Ok::<u64, Trap>(rotl64(a, b % 64)))
            &&& st_post == st_pre
        },
        InstructionType::I32Rotr => {
            &&& binop_i32_i32_post(s_pre, s_post, r, |a: u32, b: u32| Ok::<u32, Trap>(rotr32(a, b % 32)))
            &&& st_post == st_pre
        },
        InstructionType::I64Rotr => {
            &&& binop_i64_i64_post(s_pre, s_post, r, |a: u64, b: u64| Ok::<u64, Trap>(rotr64(a, b % 64)))
            &&& st_post == st_pre
        },
        InstructionType::F32Add => {
            &&& binop_f32_f32_any_post(s_pre, s_post, r)
            &&& st_post == st_pre
        },
        InstructionType::F64Add => {
            &&& binop_f64_f64_any_post(s_pre, s_post, r)
            &&& st_post == st_pre
        },
        InstructionType::F32Sub => {
            &&& binop_f32_f32_any_post(s_pre, s_post, r)
            &&& st_post == st_pre
        },
        InstructionType::F64Sub => {
            &&& binop_f64_f64_any_post(s_pre, s_post, r)
            &&& st_post == st_pre
        },
        InstructionType::F32Mul => {
            &&& binop_f32_f32_any_post(s_pre, s_post, r)
            &&& st_post == st_pre
        },
        InstructionType::F64Mul => {
            &&& binop_f64_f64_any_post(s_pre, s_post, r)
            &&& st_post == st_pre
        },
        InstructionType::F32Div => {
            &&& binop_f32_f32_any_post(s_pre, s_post, r)
            &&& st_post == st_pre
        },
        InstructionType::F64Div => {
            &&& binop_f64_f64_any_post(s_pre, s_post, r)
            &&& st_post == st_pre
        },
        InstructionType::F32Min => {
            &&& binop_f32_f32_any_post(s_pre, s_post, r)
            &&& st_post == st_pre
        },
        InstructionType::F64Min => {
            &&& binop_f64_f64_any_post(s_pre, s_post, r)
            &&& st_post == st_pre
        },
        InstructionType::F32Max => {
            &&& binop_f32_f32_any_post(s_pre, s_post, r)
            &&& st_post == st_pre
        },
        InstructionType::F64Max => {
            &&& binop_f64_f64_any_post(s_pre, s_post, r)
            &&& st_post == st_pre
        },
        InstructionType::F32Copysign => {
            &&& binop_f32_f32_post(s_pre, s_post, r, |a: u32, b: u32| Ok::<u32, Trap>((a & !f32_sign_bit()) | (b & f32_sign_bit())))
            &&& st_post == st_pre
        },
        InstructionType::F64Copysign => {
            &&& binop_f64_f64_post(s_pre, s_post, r, |a: u64, b: u64| Ok::<u64, Trap>((a & !f64_sign_bit()) | (b & f64_sign_bit())))
            &&& st_post == st_pre
        },
        InstructionType::I32Eqz => {
            &&& unop_i32_i32_post(s_pre, s_post, r, |a: u32| Ok::<u32, Trap>(bool_to_u32(a == 0)))
            &&& st_post == st_pre
        },
        InstructionType::I64Eqz => {
            &&& unop_i64_i32_post(s_pre, s_post, r, |a: u64| Ok::<u32, Trap>(bool_to_u32(a == 0)))
            &&& st_post == st_pre
        },
        InstructionType::I32Eq => {
            &&& binop_i32_i32_post(s_pre, s_post, r, |a: u32, b: u32| Ok::<u32, Trap>(bool_to_u32(int_relop_holds((IntRelop::Eq), a, b))))
            &&& st_post == st_pre
        },
        InstructionType::I64Eq => {
            &&& binop_i64_i32_post(s_pre, s_post, r, |a: u64, b: u64| Ok::<u32, Trap>(bool_to_u32(int_relop_holds((IntRelop::Eq), a, b))))
            &&& st_post == st_pre
        },
        InstructionType::I32Ne => {
            &&& binop_i32_i32_post(s_pre, s_post, r, |a: u32, b: u32| Ok::<u32, Trap>(bool_to_u32(int_relop_holds((IntRelop::Ne), a, b))))
            &&& st_post == st_pre
        },
        InstructionType::I64Ne => {
            &&& binop_i64_i32_post(s_pre, s_post, r, |a: u64, b: u64| Ok::<u32, Trap>(bool_to_u32(int_relop_holds((IntRelop::Ne), a, b))))
            &&& st_post == st_pre
        },
        InstructionType::I32LtS => {
            &&& binop_i32_i32_post(s_pre, s_post, r, |a: u32, b: u32| Ok::<u32, Trap>(bool_to_u32(int_relop_holds((IntRelop::LtS), a, b))))
            &&& st_post == st_pre
        },
        InstructionType::I64LtS => {
            &&& binop_i64_i32_post(s_pre, s_post, r, |a: u64, b: u64| Ok::<u32, Trap>(bool_to_u32(int_relop_holds((IntRelop::LtS), a, b))))
            &&& st_post == st_pre
        },
        InstructionType::I32LtU => {
            &&& binop_i32_i32_post(s_pre, s_post, r, |a: u32, b: u32| Ok::<u32, Trap>(bool_to_u32(int_relop_holds((IntRelop::LtU), a, b))))
            &&& st_post == st_pre
        },
        InstructionType::I64LtU => {
            &&& binop_i64_i32_post(s_pre, s_post, r, |a: u64, b: u64| Ok::<u32, Trap>(bool_to_u32(int_relop_holds((IntRelop::LtU), a, b))))
            &&& st_post == st_pre
        },
        InstructionType::I32GtS => {
            &&& binop_i32_i32_post(s_pre, s_post, r, |a: u32, b: u32| Ok::<u32, Trap>(bool_to_u32(int_relop_holds((IntRelop::GtS), a, b))))
            &&& st_post == st_pre
        },
        InstructionType::I64GtS => {
            &&& binop_i64_i32_post(s_pre, s_post, r, |a: u64, b: u64| Ok::<u32, Trap>(bool_to_u32(int_relop_holds((IntRelop::GtS), a, b))))
            &&& st_post == st_pre
        },
        InstructionType::I32GtU => {
            &&& binop_i32_i32_post(s_pre, s_post, r, |a: u32, b: u32| Ok::<u32, Trap>(bool_to_u32(int_relop_holds((IntRelop::GtU), a, b))))
            &&& st_post == st_pre
        },
        InstructionType::I64GtU => {
            &&& binop_i64_i32_post(s_pre, s_post, r, |a: u64, b: u64| Ok::<u32, Trap>(bool_to_u32(int_relop_holds((IntRelop::GtU), a, b))))
            &&& st_post == st_pre
        },
        InstructionType::I32LeS => {
            &&& binop_i32_i32_post(s_pre, s_post, r, |a: u32, b: u32| Ok::<u32, Trap>(bool_to_u32(int_relop_holds((IntRelop::LeS), a, b))))
            &&& st_post == st_pre
        },
        InstructionType::I64LeS => {
            &&& binop_i64_i32_post(s_pre, s_post, r, |a: u64, b: u64| Ok::<u32, Trap>(bool_to_u32(int_relop_holds((IntRelop::LeS), a, b))))
            &&& st_post == st_pre
        },
        InstructionType::I32LeU => {
            &&& binop_i32_i32_post(s_pre, s_post, r, |a: u32, b: u32| Ok::<u32, Trap>(bool_to_u32(int_relop_holds((IntRelop::LeU), a, b))))
            &&& st_post == st_pre
        },
        InstructionType::I64LeU => {
            &&& binop_i64_i32_post(s_pre, s_post, r, |a: u64, b: u64| Ok::<u32, Trap>(bool_to_u32(int_relop_holds((IntRelop::LeU), a, b))))
            &&& st_post == st_pre
        },
        InstructionType::I32GeS => {
            &&& binop_i32_i32_post(s_pre, s_post, r, |a: u32, b: u32| Ok::<u32, Trap>(bool_to_u32(int_relop_holds((IntRelop::GeS), a, b))))
            &&& st_post == st_pre
        },
        InstructionType::I64GeS => {
            &&& binop_i64_i32_post(s_pre, s_post, r, |a: u64, b: u64| Ok::<u32, Trap>(bool_to_u32(int_relop_holds((IntRelop::GeS), a, b))))
            &&& st_post == st_pre
        },
        InstructionType::I32GeU => {
            &&& binop_i32_i32_post(s_pre, s_post, r, |a: u32, b: u32| Ok::<u32, Trap>(bool_to_u32(int_relop_holds((IntRelop::GeU), a, b))))
            &&& st_post == st_pre
        },
        InstructionType::I64GeU => {
            &&& binop_i64_i32_post(s_pre, s_post, r, |a: u64, b: u64| Ok::<u32, Trap>(bool_to_u32(int_relop_holds((IntRelop::GeU), a, b))))
            &&& st_post == st_pre
        },
        InstructionType::F32Eq => {
            &&& binop_f32_i32_any_post(s_pre, s_post, r)
            &&& st_post == st_pre
        },
        InstructionType::F64Eq => {
            &&& binop_f64_i32_any_post(s_pre, s_post, r)
            &&& st_post == st_pre
        },
        InstructionType::F32Ne => {
            &&& binop_f32_i32_any_post(s_pre, s_post, r)
            &&& st_post == st_pre
        },
        InstructionType::F64Ne => {
            &&& binop_f64_i32_any_post(s_pre, s_post, r)
            &&& st_post == st_pre
        },
        InstructionType::F32Lt => {
            &&& binop_f32_i32_any_post(s_pre, s_post, r)
            &&& st_post == st_pre
        },
        InstructionType::F64Lt => {
            &&& binop_f64_i32_any_post(s_pre, s_post, r)
            &&& st_post == st_pre
        },
        InstructionType::F32Gt => {
            &&& binop_f32_i32_any_post(s_pre, s_post, r)
            &&& st_post == st_pre
        },
        InstructionType::F64Gt => {
            &&& binop_f64_i32_any_post(s_pre, s_post, r)
            &&& st_post == st_pre
        },
        InstructionType::F32Le => {
            &&& binop_f32_i32_any_post(s_pre, s_post, r)
            &&& st_post == st_pre
        },
        InstructionType::F64Le => {
            &&& binop_f64_i32_any_post(s_pre, s_post, r)
            &&& st_post == st_pre
        },
        InstructionType::F32Ge => {
            &&& binop_f32_i32_any_post(s_pre, s_post, r)
            &&& st_post == st_pre
        },
        InstructionType::F64Ge => {
            &&& binop_f64_i32_any_post(s_pre, s_post, r)
            &&& st_post == st_pre
        },
        InstructionType::I32WrapI64 => {
            &&& unop_i64_i32_post(s_pre, s_post, r, |x: u64| Ok::<u32, Trap>((x % 0x1_0000_0000) as u32))
            &&& st_post == st_pre
        },
        InstructionType::I32TruncF32U => {
            &&& convert_post((FloatConvert::I32TruncF32U), s_pre, s_post, r)
            &&& st_post == st_pre
        },
        InstructionType::I32TruncF64U => {
            &&& convert_post((FloatConvert::I32TruncF64U), s_pre, s_post, r)
            &&& st_post == st_pre
        },
        InstructionType::I32TruncF32S => {
            &&& convert_post((FloatConvert::I32TruncF32S), s_pre, s_post, r)
            &&& st_post == st_pre
        },
        InstructionType::I32TruncF64S => {
            &&& convert_post((FloatConvert::I32TruncF64S), s_pre, s_post, r)
            &&& st_post == st_pre
        },
        InstructionType::I64TruncF32U => {
            &&& convert_post((FloatConvert::I64TruncF32U), s_pre, s_post, r)
            &&& st_post == st_pre
        },
        InstructionType::I64TruncF64U => {
            &&& convert_post((FloatConvert::I64TruncF64U), s_pre, s_post, r)
            &&& st_post == st_pre
        },
        InstructionType::I64TruncF32S => {
            &&& convert_post((FloatConvert::I64TruncF32S), s_pre, s_post, r)
            &&& st_post == st_pre
        },
        InstructionType::I64TruncF64S => {
            &&& convert_post((FloatConvert::I64TruncF64S), s_pre, s_post, r)
            &&& st_post == st_pre
        },
        InstructionType::I32TruncSatF32U => {
            &&& convert_post((FloatConvert::I32TruncSatF32U), s_pre, s_post, r)
            &&& st_post == st_pre
        },
        InstructionType::I32TruncSatF64U => {
            &&& convert_post((FloatConvert::I32TruncSatF64U), s_pre, s_post, r)
            &&& st_post == st_pre
        },
        InstructionType::I32TruncSatF32S => {
            &&& convert_post((FloatConvert::I32TruncSatF32S), s_pre, s_post, r)
            &&& st_post == st_pre
        },
        InstructionType::I32TruncSatF64S => {
            &&& convert_post((FloatConvert::I32TruncSatF64S), s_pre, s_post, r)
            &&& st_post == st_pre
        },
        InstructionType::I64TruncSatF32U => {
            &&& convert_post((FloatConvert::I64TruncSatF32U), s_pre, s_post, r)
            &&& st_post == st_pre
        },
        InstructionType::I64TruncSatF64U => {
            &&& convert_post((FloatConvert::I64TruncSatF64U), s_pre, s_post, r)
            &&& st_post == st_pre
        },
        InstructionType::I64TruncSatF32S => {
            &&& convert_post((FloatConvert::I64TruncSatF32S), s_pre, s_post, r)
            &&& st_post == st_pre
        },
        InstructionType::I64TruncSatF64S => {
            &&& convert_post((FloatConvert::I64TruncSatF64S), s_pre, s_post, r)
            &&& st_post == st_pre
        },
        InstructionType::F32ConvertI32S => {
            &&& convert_post((FloatConvert::F32ConvertI32S), s_pre, s_post, r)
            &&& st_post == st_pre
        },
        InstructionType::F32ConvertI32U => {
            &&& convert_post((FloatConvert::F32ConvertI32U), s_pre, s_post, r)
            &&& st_post == st_pre
        },
        InstructionType::F32ConvertI64S => {
            &&& convert_post((FloatConvert::F32ConvertI64S), s_pre, s_post, r)
            &&& st_post == st_pre
        },
        InstructionType::F32ConvertI64U => {
            &&& convert_post((FloatConvert::F32ConvertI64U), s_pre, s_post, r)
            &&& st_post == st_pre
        },
        InstructionType::F64ConvertI32S => {
            &&& convert_post((FloatConvert::F64ConvertI32S), s_pre, s_post, r)
            &&& st_post == st_pre
        },
        InstructionType::F64ConvertI32U => {
            &&& convert_post((FloatConvert::F64ConvertI32U), s_pre, s_post, r)
            &&& st_post == st_pre
        },
        InstructionType::F64ConvertI64S => {
            &&& convert_post((FloatConvert::F64ConvertI64S), s_pre, s_post, r)
            &&& st_post == st_pre
        },
        InstructionType::F64ConvertI64U => {
            &&& convert_post((FloatConvert::F64ConvertI64U), s_pre, s_post, r)
            &&& st_post == st_pre
        },
        InstructionType::F32DemoteF64 => {
            &&& convert_post((FloatConvert::F32DemoteF64), s_pre, s_post, r)
            &&& st_post == st_pre
        },
        InstructionType::F64PromoteF32 => {
            &&& convert_post((FloatConvert::F64PromoteF32), s_pre, s_post, r)
            &&& st_post == st_pre
        },
        InstructionType::F32ReinterpretI32 => {
            &&& unop_i32_f32_post(s_pre, s_post, r, |x: u32| Ok::<u32, Trap>(x))
            &&& st_post == st_pre
        },
        InstructionType::F64ReinterpretI64 => {
            &&& unop_i64_f64_post(s_pre, s_post, r, |x: u64| Ok::<u64, Trap>(x))
            &&& st_post == st_pre
        },
        InstructionType::I32ReinterpretF32 => {
            &&& unop_f32_i32_post(s_pre, s_post, r, |x: u32| Ok::<u32, Trap>(x))
            &&& st_post == st_pre
        },
        InstructionType::I64ReinterpretF64 => {
            &&& unop_f64_i64_post(s_pre, s_post, r, |x: u64| Ok::<u64, Trap>(x))
            &&& st_post == st_pre
        },
        InstructionType::I64ExtendI32S => {
            &&& unop_i32_i64_post(s_pre, s_post, r, |x: u32| Ok::<u64, Trap>(
                match (Sign::Signed) {
                    Sign::Signed => wrap64(sign_extend(x as int, 32)),
                    Sign::Unsigned => x as u64,
                }
            ))
            &&& st_post == st_pre
        },
        InstructionType::I64ExtendI32U => {
            &&& unop_i32_i64_post(s_pre, s_post, r, |x: u32| Ok::<u64, Trap>(
                match (Sign::Unsigned) {
                    Sign::Signed => wrap64(sign_extend(x as int, 32)),
                    Sign::Unsigned => x as u64,
                }
            ))
            &&& st_post == st_pre
        },
        InstructionType::RefNull(ref_type) => {
            &&& r is Ok
            &&& s_post == push_val(s_pre, Val::Ref(RefInst::Null(ref_type)))
            &&& st_post == st_pre
        },
        InstructionType::RefIsNull => {
            &&& is_ref_null_post(s_pre, s_post, r)
            &&& st_post == st_pre
        },
        InstructionType::RefFunc(FuncIdx(U32Type(func_idx))) => {
            &&& match top_frame(s_pre) {
                Some(f) => if (func_idx as usize) < f.module.funcaddrs@.len() {
                    r is Ok && s_post == push_val(
                        s_pre,
                        Val::Ref(RefInst::Func(f.module.funcaddrs@[(func_idx as usize) as int])),
                    )
                } else {
                    r is Err && s_post == s_pre
                },
                None => r is Err && s_post == s_pre,
            }
            &&& st_post == st_pre
        },
        InstructionType::V128Not => {
            &&& match as_v128(top_value(s_pre)) {
                Some(x) => r is Ok && s_post == push_val(s_pre.drop_last(), Val::Vec(!x)),
                None => r is Err && s_post == s_pre,
            }
            &&& st_post == st_pre
        },
        InstructionType::V128And => {
            &&& vec2_post(s_pre, s_post, r, |x: u128, y: u128, z: u128| z == x & y)
            &&& st_post == st_pre
        },
        InstructionType::V128AndNot => {
            &&& vec2_post(s_pre, s_post, r, |x: u128, y: u128, z: u128| z == x & !y)
            &&& st_post == st_pre
        },
        InstructionType::V128Or => {
            &&& vec2_post(s_pre, s_post, r, |x: u128, y: u128, z: u128| z == x | y)
            &&& st_post == st_pre
        },
        InstructionType::V128Xor => {
            &&& vec2_post(s_pre, s_post, r, |x: u128, y: u128, z: u128| z == x ^ y)
            &&& st_post == st_pre
        },
        InstructionType::V128Bitselect => {
            &&& match as_v128(top_value(s_pre)) {
                Some(x) => match as_v128(top_value(s_pre.drop_last())) {
                    Some(y) => match as_v128(top_value(s_pre.drop_last().drop_last())) {
                        Some(w) => r is Ok && s_post == push_val(s_pre.drop_last().drop_last().drop_last(), Val::Vec((x & w) | (y & !w))),
                        None => r is Err && s_post == s_pre.drop_last().drop_last(),
                    },
                    None => r is Err && s_post == s_pre.drop_last(),
                },
                None => r is Err && s_post == s_pre,
            }
            &&& st_post == st_pre
        },
        InstructionType::V128AnyTrue => {
            &&& match as_v128(top_value(s_pre)) {
                Some(x) => r is Ok && s_post == push_val(s_pre.drop_last(), Val::I32(if x != 0 { 1 } else { 0 })),
                None => r is Err && s_post == pop_value_spec(s_pre),
            }
            &&& st_post == st_pre
        },
        InstructionType::I8x16Swizzle => {
            &&& vec2_post(s_pre, s_post, r, |x: u128, y: u128, z: u128| forall|i: int| 0 <= i < 16 ==> #[trigger] lane8(z, i) == swizzle_lane(x, y, i))
            &&& st_post == st_pre
        },
        InstructionType::I8x16Shuffle(lane_idx) => {
            &&& match as_v128(top_value(s_pre)) {
                Some(x) => match as_v128(top_value(s_pre.drop_last())) {
                    Some(y) => if shuffle_ok(lane_idx@) {
                        r is Ok && s_post.len() == s_pre.len() - 1
                            && s_post.drop_last() == s_pre.drop_last().drop_last()
                            && match s_post.last() {
                                StackEntry::Value(Val::Vec(z)) => forall|i: int| 0 <= i < 16 ==> #[trigger] lane8(z, i) == shuffle_lane(x, y, lane_idx@, i),
                                _ => false,
                            }
                    } else {
                        r is Err && s_post == s_pre.drop_last().drop_last()
                    },
                    None => r is Err && s_post == s_pre.drop_last(),
                },
                None => r is Err && s_post == s_pre,
            }
            &&& st_post == st_pre
        },
        InstructionType::I8x16Splat => {
            &&& match top_value(s_pre) {
                Some(Val::I32(x)) => r is Ok && s_post.len() == s_pre.len()
                    && s_post.drop_last() == s_pre.drop_last() && match s_post.last() {
                    StackEntry::Value(Val::Vec(z)) => forall|i: int| 0 <= i < 16 ==> #[trigger] lane8(z, i) == (x % 0x100) as u8,
                    _ => false,
                },
                _ => r is Err && s_post == s_pre,
            }
            &&& st_post == st_pre
        },
        InstructionType::I16x8Splat => {
            &&& match top_value(s_pre) {
                Some(Val::I32(x)) => r is Ok && s_post.len() == s_pre.len()
                    && s_post.drop_last() == s_pre.drop_last() && match s_post.last() {
                    StackEntry::Value(Val::Vec(z)) => forall|i: int| 0 <= i < 8 ==> #[trigger] lane16(z, i) == (x % 0x1_0000) as u16,
                    _ => false,
                },
                _ => r is Err && s_post == s_pre,
            }
            &&& st_post == st_pre
        },
        InstructionType::I32x4Splat => {
            &&& match top_value(s_pre) {
                Some(Val::I32(x)) => r is Ok && s_post.len() == s_pre.len()
                    && s_post.drop_last() == s_pre.drop_last() && match s_post.last() {
                    StackEntry::Value(Val::Vec(z)) => forall|i: int| 0 <= i < 4 ==> #[trigger] lane32(z, i) == x,
                    _ => false,
                },
                _ => r is Err && s_post == s_pre,
            }
            &&& st_post == st_pre
        },
        InstructionType::I64x2Splat => {
            &&& match top_value(s_pre) {
                Some(Val::I64(x)) => r is Ok && s_post.len() == s_pre.len()
                    && s_post.drop_last() == s_pre.drop_last() && match s_post.last() {
                    StackEntry::Value(Val::Vec(z)) => forall|i: int| 0 <= i < 2 ==> #[trigger] lane64(z, i) == x,
                    _ => false,
                },
                _ => r is Err && s_post == s_pre,
            }
            &&& st_post == st_pre
        },
        InstructionType::F32x4Splat => {
            &&& match top_value(s_pre) {
                Some(Val::I32(x)) => r is Ok && s_post.len() == s_pre.len()
                    && s_post.drop_last() == s_pre.drop_last() && match s_post.last() {
                    StackEntry::Value(Val::Vec(z)) => forall|i: int| 0 <= i < 4 ==> #[trigger] lane32(z, i) == x,
                    _ => false,
                },
                _ => r is Err && s_post == s_pre,
            }
            &&& st_post == st_pre
        },
        InstructionType::F64x2Splat => {
            &&& match top_value(s_pre) {
                Some(Val::I64(x)) => r is Ok && s_post.len() == s_pre.len()
                    && s_post.drop_last() == s_pre.drop_last() && match s_post.last() {
                    StackEntry::Value(Val::Vec(z)) => forall|i: int| 0 <= i < 2 ==> #[trigger] lane64(z, i) == x,
                    _ => false,
                },
                _ => r is Err && s_post == s_pre,
            }
            &&& st_post == st_pre
        },
        InstructionType::I8x16ExtractLaneS(LaneIdx(lane_idx)) => {
            &&& (lane_idx) >= 16 ==> r is Err && s_post == s_pre
            &&& (lane_idx) < 16 ==> match as_v128(top_value(s_pre)) {
                Some(x) => r is Ok && s_post == push_val(s_pre.drop_last(), Val::I32(wrap32(signed_of(lane8(x, (lane_idx) as int) as nat, 0x100)))),
                None => r is Err && s_post == s_pre,
            }
            &&& st_post == st_pre
        },
        InstructionType::I8x16ExtractLaneU(LaneIdx(lane_idx)) => {
            &&& (lane_idx) >= 16 ==> r is Err && s_post == s_pre
            &&& (lane_idx) < 16 ==> match as_v128(top_value(s_pre)) {
                Some(x) => r is Ok && s_post == push_val(s_pre.drop_last(), Val::I32(lane8(x, (lane_idx) as int) as u32)),
                None => r is Err && s_post == s_pre,
            }
            &&& st_post == st_pre
        },
        InstructionType::I16x8ExtractLaneS(LaneIdx(lane_idx)) => {
            &&& (lane_idx) >= 8 ==> r is Err && s_post == s_pre
            &&& (lane_idx) < 8 ==> match as_v128(top_value(s_pre)) {
                Some(x) => r is Ok && s_post == push_val(s_pre.drop_last(), Val::I32(wrap32(signed_of(lane16(x, (lane_idx) as int) as nat, 0x1_0000)))),
                None => r is Err && s_post == s_pre,
            }
            &&& st_post == st_pre
        },
        InstructionType::I16x8ExtractLaneU(LaneIdx(lane_idx)) => {
            &&& (lane_idx) >= 8 ==> r is Err && s_post == s_pre
            &&& (lane_idx) < 8 ==> match as_v128(top_value(s_pre)) {
                Some(x) => r is Ok && s_post == push_val(s_pre.drop_last(), Val::I32(lane16(x, (lane_idx) as int) as u32)),
                None => r is Err && s_post == s_pre,
            }
            &&& st_post == st_pre
        },
        InstructionType::I32x4ExtractLane(LaneIdx(lane_idx)) => {
            &&& (lane_idx) >= 4 ==> r is Err && s_post == s_pre
            &&& (lane_idx) < 4 ==> match as_v128(top_value(s_pre)) {
                Some(x) => r is Ok && s_post == push_val(s_pre.drop_last(), Val::I32(lane32(x, (lane_idx) as int))),
                None => r is Err && s_post == s_pre,
            }
            &&& st_post == st_pre
        },
        InstructionType::I64x2ExtractLane(LaneIdx(lane_idx)) => {
            &&& (lane_idx) >= 2 ==> r is Err && s_post == s_pre
            &&& (lane_idx) < 2 ==> match as_v128(top_value(s_pre)) {
                Some(x) => r is Ok && s_post == push_val(s_pre.drop_last(), Val::I64(lane64(x, (lane_idx) as int))),
                None => r is Err && s_post == s_pre,
            }
            &&& st_post == st_pre
        },
        InstructionType::F32x4ExtractLane(LaneIdx(lane_idx)) => {
            &&& (lane_idx) >= 4 ==> r is Err && s_post == s_pre
            &&& (lane_idx) < 4 ==> match as_v128(top_value(s_pre)) {
                Some(x) => r is Ok && s_post == push_val(s_pre.drop_last(), Val::F32(lane32(x, (lane_idx) as int))),
                None => r is Err && s_post == s_pre,
            }
            &&& st_post == st_pre
        },
        InstructionType::F64x2ExtractLane(LaneIdx(lane_idx)) => {
            &&& (lane_idx) >= 2 ==> r is Err && s_post == s_pre
            &&& (lane_idx) < 2 ==> match as_v128(top_value(s_pre)) {
                Some(x) => r is Ok && s_post == push_val(s_pre.drop_last(), Val::F64(lane64(x, (lane_idx) as int))),
                None => r is Err && s_post == s_pre,
            }
            &&& st_post == st_pre
        },
        InstructionType::I8x16ReplaceLane(LaneIdx(lane_idx)) => {
            &&& (lane_idx) >= 16 ==> r is Err && s_post == s_pre
            &&& (lane_idx) < 16 ==> match top_value(s_pre) {
                Some(Val::I32(x)) => match as_v128(top_value(s_pre.drop_last())) {
                    Some(v) => r is Ok && s_post.len() == s_pre.len() - 1
                        && s_post.drop_last() == s_pre.drop_last().drop_last() && match s_post.last() {
                        StackEntry::Value(Val::Vec(z)) => forall|i: int| 0 <= i < 16 ==> #[trigger] lane8(z, i) == if i == (lane_idx) {
                            (x % 0x100) as u8
                        } else {
                            lane8(v, i)
                        },
                        _ => false,
                    },
                    None => r is Err && s_post == s_pre.drop_last(),
                },
                _ => r is Err && s_post == s_pre,
            }
            &&& st_post == st_pre
        },
        InstructionType::I16x8ReplaceLane(LaneIdx(lane_idx)) => {
            &&& (lane_idx) >= 8 ==> r is Err && s_post == s_pre
            &&& (lane_idx) < 8 ==> match top_value(s_pre) {
                Some(Val::I32(x)) => match as_v128(top_value(s_pre.drop_last())) {
                    Some(v) => r is Ok && s_post.len() == s_pre.len() - 1
                        && s_post.drop_last() == s_pre.drop_last().drop_last() && match s_post.last() {
                        StackEntry::Value(Val::Vec(z)) => forall|i: int| 0 <= i < 8 ==> #[trigger] lane16(z, i) == if i == (lane_idx) {
                            (x % 0x1_0000) as u16
                        } else {
                            lane16(v, i)
                        },
                        _ => false,
                    },
                    None => r is Err && s_post == s_pre.drop_last(),
                },
                _ => r is Err && s_post == s_pre,
            }
            &&& st_post == st_pre
        },
        InstructionType::I32x4ReplaceLane(LaneIdx(lane_idx)) => {
            &&& (lane_idx) >= 4 ==> r is Err && s_post == s_pre
            &&& (lane_idx) < 4 ==> match top_value(s_pre) {
                Some(Val::I32(x)) => match as_v128(top_value(s_pre.drop_last())) {
                    Some(v) => r is Ok && s_post.len() == s_pre.len() - 1
                        && s_post.drop_last() == s_pre.drop_last().drop_last() && match s_post.last() {
                        StackEntry::Value(Val::Vec(z)) => forall|i: int| 0 <= i < 4 ==> #[trigger] lane32(z, i) == if i == (lane_idx) {
                            x
                        } else {
                            lane32(v, i)
                        },
                        _ => false,
                    },
                    None => r is Err && s_post == s_pre.drop_last(),
                },
                _ => r is Err && s_post == s_pre,
            }
            &&& st_post == st_pre
        },
        InstructionType::I64x2ReplaceLane(LaneIdx(lane_idx)) => {
            &&& (lane_idx) >= 2 ==> r is Err && s_post == s_pre
            &&& (lane_idx) < 2 ==> match top_value(s_pre) {
                Some(Val::I64(x)) => match as_v128(top_value(s_pre.drop_last())) {
                    Some(v) => r is Ok && s_post.len() == s_pre.len() - 1
                        && s_post.drop_last() == s_pre.drop_last().drop_last() && match s_post.last() {
                        StackEntry::Value(Val::Vec(z)) => forall|i: int| 0 <= i < 2 ==> #[trigger] lane64(z, i) == if i == (lane_idx) {
                            x
                        } else {
                            lane64(v, i)
                        },
                        _ => false,
                    },
                    None => r is Err && s_post == s_pre.drop_last(),
                },
                _ => r is Err && s_post == s_pre,
            }
            &&& st_post == st_pre
        },
        InstructionType::F32x4ReplaceLane(LaneIdx(lane_idx)) => {
            &&& (lane_idx) >= 4 ==> r is Err && s_post == s_pre
            &&& (lane_idx) < 4 ==> match top_value(s_pre) {
                Some(Val::F32(x)) => match as_v128(top_value(s_pre.drop_last())) {
                    Some(v) => r is Ok && s_post.len() == s_pre.len() - 1
                        && s_post.drop_last() == s_pre.drop_last().drop_last() && match s_post.last() {
                        StackEntry::Value(Val::Vec(z)) => forall|i: int| 0 <= i < 4 ==> #[trigger] lane32(z, i) == if i == (lane_idx) {
                            x
                        } else {
                            lane32(v, i)
                        },
                        _ => false,
                    },
                    None => r is Err && s_post == s_pre.drop_last(),
                },
                _ => r is Err && s_post == s_pre,
            }
            &&& st_post == st_pre
        },
        InstructionType::F64x2ReplaceLane(LaneIdx(lane_idx)) => {
            &&& (lane_idx) >= 2 ==> r is Err && s_post == s_pre
            &&& (lane_idx) < 2 ==> match top_value(s_pre) {
                Some(Val::F64(x)) => match as_v128(top_value(s_pre.drop_last())) {
                    Some(v) => r is Ok && s_post.len() == s_pre.len() - 1
                        && s_post.drop_last() == s_pre.drop_last().drop_last() && match s_post.last() {
                        StackEntry::Value(Val::Vec(z)) => forall|i: int| 0 <= i < 2 ==> #[trigger] lane64(z, i) == if i == (lane_idx) {
                            x
                        } else {
                            lane64(v, i)
                        },
                        _ => false,
                    },
                    None => r is Err && s_post == s_pre.drop_last(),
                },
                _ => r is Err && s_post == s_pre,
            }
            &&& st_post == st_pre
        },
        InstructionType::I8x16Abs => {
            &&& vec1_post(s_pre, s_post, r, |x: u128, z: u128| forall|i: int| 0 <= i < 16 ==> call_ensures(shape_i8_abs, (&lane8(x, i),), #[trigger] lane8(z, i)))
            &&& st_post == st_pre
        },
        InstructionType::I16x8Abs => {
            &&& vec1_post(s_pre, s_post, r, |x: u128, z: u128| forall|i: int| 0 <= i < 8 ==> call_ensures(shape_i16_abs, (&lane16(x, i),), #[trigger] lane16(z, i)))
            &&& st_post == st_pre
        },
        InstructionType::I32x4Abs => {
            &&& vec1_post(s_pre, s_post, r, |x: u128, z: u128| forall|i: int| 0 <= i < 4 ==> call_ensures(shape_i32_abs, (&lane32(x, i),), #[trigger] lane32(z, i)))
            &&& st_post == st_pre
        },
        InstructionType::I64x2Abs => {
            &&& vec1_post(s_pre, s_post, r, |x: u128, z: u128| forall|i: int| 0 <= i < 2 ==> call_ensures(shape_i64_abs, (&lane64(x, i),), #[trigger] lane64(z, i)))
            &&& st_post == st_pre
        },
        InstructionType::F32x4Abs => {
            &&& vec1_post(s_pre, s_post, r, |x: u128, z: u128| forall|i: int| 0 <= i < 4 ==> call_ensures(shape_f32_abs, (&lane32(x, i),), #[trigger] lane32(z, i)))
            &&& st_post == st_pre
        },
        InstructionType::F64x2Abs => {
            &&& vec1_post(s_pre, s_post, r, |x: u128, z: u128| forall|i: int| 0 <= i < 2 ==> call_ensures(shape_f64_abs, (&lane64(x, i),), #[trigger] lane64(z, i)))
            &&& st_post == st_pre
        },
        InstructionType::I8x16Neg => {
            &&& vec1_post(s_pre, s_post, r, |x: u128, z: u128| forall|i: int| 0 <= i < 16 ==> call_ensures(shape_i8_neg, (&lane8(x, i),), #[trigger] lane8(z, i)))
            &&& st_post == st_pre
        },
        InstructionType::I16x8Neg => {
            &&& vec1_post(s_pre, s_post, r, |x: u128, z: u128| forall|i: int| 0 <= i < 8 ==> call_ensures(shape_i16_neg, (&lane16(x, i),), #[trigger] lane16(z, i)))
            &&& st_post == st_pre
        },
        InstructionType::I32x4Neg => {
            &&& vec1_post(s_pre, s_post, r, |x: u128, z: u128| forall|i: int| 0 <= i < 4 ==> call_ensures(shape_i32_neg, (&lane32(x, i),), #[trigger] lane32(z, i)))
            &&& st_post == st_pre
        },
        InstructionType::I64x2Neg => {
            &&& vec1_post(s_pre, s_post, r, |x: u128, z: u128| forall|i: int| 0 <= i < 2 ==> call_ensures(shape_i64_neg, (&lane64(x, i),), #[trigger] lane64(z, i)))
            &&& st_post == st_pre
        },
        InstructionType::F32x4Neg => {
            &&& vec1_post(s_pre, s_post, r, |x: u128, z: u128| forall|i: int| 0 <= i < 4 ==> call_ensures(shape_f32_neg, (&lane32(x, i),), #[trigger] lane32(z, i)))
            &&& st_post == st_pre
        },
        InstructionType::F64x2Neg => {
            &&& vec1_post(s_pre, s_post, r, |x: u128, z: u128| forall|i: int| 0 <= i < 2 ==> call_ensures(shape_f64_neg, (&lane64(x, i),), #[trigger] lane64(z, i)))
            &&& st_post == st_pre
        },
        InstructionType::F32x4Sqrt => {
            &&& vec1_post(s_pre, s_post, r, |x: u128, z: u128| true)
            &&& st_post == st_pre
        },
        InstructionType::F64x2Sqrt => {
            &&& vec1_post(s_pre, s_post, r, |x: u128, z: u128| true)
            &&& st_post == st_pre
        },
        InstructionType::F32x4Ceil => {
            &&& vec1_post(s_pre, s_post, r, |x: u128, z: u128| true)
            &&& st_post == st_pre
        },
        InstructionType::F64x2Ceil => {
            &&& vec1_post(s_pre, s_post, r, |x: u128, z: u128| true)
            &&& st_post == st_pre
        },
        InstructionType::F32x4Floor => {
            &&& vec1_post(s_pre, s_post, r, |x: u128, z: u128| true)
            &&& st_post == st_pre
        },
        InstructionType::F64x2Floor => {
            &&& vec1_post(s_pre, s_post, r, |x: u128, z: u128| true)
            &&& st_post == st_pre
        },
        InstructionType::F32x4Trunc => {
            &&& vec1_post(s_pre, s_post, r, |x: u128, z: u128| true)
            &&& st_post == st_pre
        },
        InstructionType::F64x2Trunc => {
            &&& vec1_post(s_pre, s_post, r, |x: u128, z: u128| true)
            &&& st_post == st_pre
        },
        InstructionType::F32x4Nearest => {
            &&& vec1_post(s_pre, s_post, r, |x: u128, z: u128| true)
            &&& st_post == st_pre
        },
        InstructionType::F64x2Nearest => {
            &&& vec1_post(s_pre, s_post, r, |x: u128, z: u128| true)
            &&& st_post == st_pre
        },
        InstructionType::I8x16Popcnt => {
            &&& vec1_post(s_pre, s_post, r, |x: u128, z: u128| forall|i: int| 0 <= i < 16 ==> call_ensures(shape_i8_popcnt, (&lane8(x, i),), #[trigger] lane8(z, i)))
            &&& st_post == st_pre
        },
        InstructionType::I8x16Add => {
            &&& vec2_post(s_pre, s_post, r, |x: u128, y: u128, z: u128| forall|i: int| 0 <= i < 16 ==> call_ensures(shape_i8_add, ((&lane8(x, i), &lane8(y, i)),), #[trigger] lane8(z, i)))
            &&& st_post == st_pre
        },
        InstructionType::I16x8Add => {
            &&& vec2_post(s_pre, s_post, r, |x: u128, y: u128, z: u128| forall|i: int| 0 <= i < 8 ==> call_ensures(shape_i16_add, ((&lane16(x, i), &lane16(y, i)),), #[trigger] lane16(z, i)))
            &&& st_post == st_pre
        },
        InstructionType::I32x4Add => {
            &&& vec2_post(s_pre, s_post, r, |x: u128, y: u128, z: u128| forall|i: int| 0 <= i < 4 ==> call_ensures(shape_i32_add, ((&lane32(x, i), &lane32(y, i)),), #[trigger] lane32(z, i)))
            &&& st_post == st_pre
        },
        InstructionType::I64x2Add => {
            &&& vec2_post(s_pre, s_post, r, |x: u128, y: u128, z: u128| forall|i: int| 0 <= i < 2 ==> call_ensures(shape_i64_add, ((&lane64(x, i), &lane64(y, i)),), #[trigger] lane64(z, i)))
            &&& st_post == st_pre
        },
        InstructionType::I8x16Sub => {
            &&& vec2_post(s_pre, s_post, r, |x: u128, y: u128, z: u128| forall|i: int| 0 <= i < 16 ==> call_ensures(shape_i8_sub, ((&lane8(x, i), &lane8(y, i)),), #[trigger] lane8(z, i)))
            &&& st_post == st_pre
        },
        InstructionType::I16x8Sub => {
            &&& vec2_post(s_pre, s_post, r, |x: u128, y: u128, z: u128| forall|i: int| 0 <= i < 8 ==> call_ensures(shape_i16_sub, ((&lane16(x, i), &lane16(y, i)),), #[trigger] lane16(z, i)))
            &&& st_post == st_pre
        },
        InstructionType::I32x4Sub => {
            &&& vec2_post(s_pre, s_post, r, |x: u128, y: u128, z: u128| forall|i: int| 0 <= i < 4 ==> call_ensures(shape_i32_sub, ((&lane32(x, i), &lane32(y, i)),), #[trigger] lane32(z, i)))
            &&& st_post == st_pre
        },
        InstructionType::I64x2Sub => {
            &&& vec2_post(s_pre, s_post, r, |x: u128, y: u128, z: u128| forall|i: int| 0 <= i < 2 ==> call_ensures(shape_i64_sub, ((&lane64(x, i), &lane64(y, i)),), #[trigger] lane64(z, i)))
            &&& st_post == st_pre
        },
        InstructionType::F32x4Add => {
            &&& vec2_post(s_pre, s_post, r, |x: u128, y: u128, z: u128| true)
            &&& st_post == st_pre
        },
        InstructionType::F64x2Add => {
            &&& vec2_post(s_pre, s_post, r, |x: u128, y: u128, z: u128| true)
            &&& st_post == st_pre
        },
        InstructionType::F32x4Sub => {
            &&& vec2_post(s_pre, s_post, r, |x: u128, y: u128, z: u128| true)
            &&& st_post == st_pre
        },
        InstructionType::F64x2Sub => {
            &&& vec2_post(s_pre, s_post, r, |x: u128, y: u128, z: u128| true)
            &&& st_post == st_pre
        },
        InstructionType::I16x8Mul => {
            &&& vec2_post(s_pre, s_post, r, |x: u128, y: u128, z: u128| forall|i: int| 0 <= i < 8 ==> call_ensures(shape_i16_mul, ((&lane16(x, i), &lane16(y, i)),), #[trigger] lane16(z, i)))
            &&& st_post == st_pre
        },
        InstructionType::I32x4Mul => {
            &&& vec2_post(s_pre, s_post, r, |x: u128, y: u128, z: u128| forall|i: int| 0 <= i < 4 ==> call_ensures(shape_i32_mul, ((&lane32(x, i), &lane32(y, i)),), #[trigger] lane32(z, i)))
            &&& st_post == st_pre
        },
        InstructionType::I64x2Mul => {
            &&& vec2_post(s_pre, s_post, r, |x: u128, y: u128, z: u128| forall|i: int| 0 <= i < 2 ==> call_ensures(shape_i64_mul, ((&lane64(x, i), &lane64(y, i)),), #[trigger] lane64(z, i)))
            &&& st_post == st_pre
        },
        InstructionType::F32x4Mul => {
            &&& vec2_post(s_pre, s_post, r, |x: u128, y: u128, z: u128| true)
            &&& st_post == st_pre
        },
        InstructionType::F64x2Mul => {
            &&& vec2_post(s_pre, s_post, r, |x: u128, y: u128, z: u128| true)
            &&& st_post == st_pre
        },
        InstructionType::F32x4Div => {
            &&& vec2_post(s_pre, s_post, r, |x: u128, y: u128, z: u128| true)
            &&& st_post == st_pre
        },
        InstructionType::F64x2Div => {
            &&& vec2_post(s_pre, s_post, r, |x: u128, y: u128, z: u128| true)
            &&& st_post == st_pre
        },
        InstructionType::F32x4Min => {
            &&& vec2_post(s_pre, s_post, r, |x: u128, y: u128, z: u128| true)
            &&& st_post == st_pre
        },
        InstructionType::F64x2Min => {
            &&& vec2_post(s_pre, s_post, r, |x: u128, y: u128, z: u128| true)
            &&& st_post == st_pre
        },
        InstructionType::F32x4Max => {
            &&& vec2_post(s_pre, s_post, r, |x: u128, y: u128, z: u128| true)
            &&& st_post == st_pre
        },
        InstructionType::F64x2Max => {
            &&& vec2_post(s_pre, s_post, r, |x: u128, y: u128, z: u128| true)
            &&& st_post == st_pre
        },
        InstructionType::F32x4Pmin => {
            &&& vec2_post(s_pre, s_post, r, |x: u128, y: u128, z: u128| true)
            &&& st_post == st_pre
        },
        InstructionType::F64x2Pmin => {
            &&& vec2_post(s_pre, s_post, r, |x: u128, y: u128, z: u128| true)
            &&& st_post == st_pre
        },
        InstructionType::F32x4Pmax => {
            &&& vec2_post(s_pre, s_post, r, |x: u128, y: u128, z: u128| true)
            &&& st_post == st_pre
        },
        InstructionType::F64x2Pmax => {
            &&& vec2_post(s_pre, s_post, r, |x: u128, y: u128, z: u128| true)
            &&& st_post == st_pre
        },
        InstructionType::I8x16MinU => {
            &&& vec2_post(s_pre, s_post, r, |x: u128, y: u128, z: u128| forall|i: int| 0 <= i < 16 ==> call_ensures(shape_i8_min_u, ((&lane8(x, i), &lane8(y, i)),), #[trigger] lane8(z, i)))
            &&& st_post == st_pre
        },
        InstructionType::I8x16MinS => {
            &&& vec2_post(s_pre, s_post, r, |x: u128, y: u128, z: u128| forall|i: int| 0 <= i < 16 ==> call_ensures(shape_i8_min_s, ((&lane8(x, i), &lane8(y, i)),), #[trigger] lane8(z, i)))
            &&& st_post == st_pre
        },
        InstructionType::I16x8MinU => {
            &&& vec2_post(s_pre, s_post, r, |x: u128, y: u128, z: u128| forall|i: int| 0 <= i < 8 ==> call_ensures(shape_i16_min_u, ((&lane16(x, i), &lane16(y, i)),), #[trigger] lane16(z, i)))
            &&& st_post == st_pre
        },
        InstructionType::I16x8MinS => {
            &&& vec2_post(s_pre, s_post, r, |x: u128, y: u128, z: u128| forall|i: int| 0 <= i < 8 ==> call_ensures(shape_i16_min_s, ((&lane16(x, i), &lane16(y, i)),), #[trigger] lane16(z, i)))
            &&& st_post == st_pre
        },
        InstructionType::I32x4MinU => {
            &&& vec2_post(s_pre, s_post, r, |x: u128, y: u128, z: u128| forall|i: int| 0 <= i < 4 ==> call_ensures(shape_i32_min_u, ((&lane32(x, i), &lane32(y, i)),), #[trigger] lane32(z, i)))
            &&& st_post == st_pre
        },
        InstructionType::I32x4MinS => {
            &&& vec2_post(s_pre, s_post, r, |x: u128, y: u128, z: u128| forall|i: int| 0 <= i < 4 ==> call_ensures(shape_i32_min_s, ((&lane32(x, i), &lane32(y, i)),), #[trigger] lane32(z, i)))
            &&& st_post == st_pre
        },
        InstructionType::I8x16MaxU => {
            &&& vec2_post(s_pre, s_post, r, |x: u128, y: u128, z: u128| forall|i: int| 0 <= i < 16 ==> call_ensures(shape_i8_max_u, ((&lane8(x, i), &lane8(y, i)),), #[trigger] lane8(z, i)))
            &&& st_post == st_pre
        },
        InstructionType::I8x16MaxS => {
            &&& vec2_post(s_pre, s_post, r, |x: u128, y: u128, z: u128| forall|i: int| 0 <= i < 16 ==> call_ensures(shape_i8_max_s, ((&lane8(x, i), &lane8(y, i)),), #[trigger] lane8(z, i)))
            &&& st_post == st_pre
        },
        InstructionType::I16x8MaxU => {
            &&& vec2_post(s_pre, s_post, r, |x: u128, y: u128, z: u128| forall|i: int| 0 <= i < 8 ==> call_ensures(shape_i16_max_u, ((&lane16(x, i), &lane16(y, i)),), #[trigger] lane16(z, i)))
            &&& st_post == st_pre
        },
        InstructionType::I16x8MaxS => {
            &&& vec2_post(s_pre, s_post, r, |x: u128, y: u128, z: u128| forall|i: int| 0 <= i < 8 ==> call_ensures(shape_i16_max_s, ((&lane16(x, i), &lane16(y, i)),), #[trigger] lane16(z, i)))
            &&& st_post == st_pre
        },
        InstructionType::I32x4MaxU => {
            &&& vec2_post(s_pre, s_post, r, |x: u128, y: u128, z: u128| forall|i: int| 0 <= i < 4 ==> call_ensures(shape_i32_max_u, ((&lane32(x, i), &lane32(y, i)),), #[trigger] lane32(z, i)))
            &&& st_post == st_pre
        },
        InstructionType::I32x4MaxS => {
            &&& vec2_post(s_pre, s_post, r, |x: u128, y: u128, z: u128| forall|i: int| 0 <= i < 4 ==> call_ensures(shape_i32_max_s, ((&lane32(x, i), &lane32(y, i)),), #[trigger] lane32(z, i)))
            &&& st_post == st_pre
        },
        InstructionType::I8x16AddSatU => {
            &&& vec2_post(s_pre, s_post, r, |x: u128, y: u128, z: u128| forall|i: int| 0 <= i < 16 ==> call_ensures(shape_i8_sat_add_u, ((&lane8(x, i), &lane8(y, i)),), #[trigger] lane8(z, i)))
            &&& st_post == st_pre
        },
        InstructionType::I16x8AddSatU => {
            &&& vec2_post(s_pre, s_post, r, |x: u128, y: u128, z: u128| forall|i: int| 0 <= i < 8 ==> call_ensures(shape_i16_sat_add_u, ((&lane16(x, i), &lane16(y, i)),), #[trigger] lane16(z, i)))
            &&& st_post == st_pre
        },
        InstructionType::I8x16AddSatS => {
            &&& vec2_post(s_pre, s_post, r, |x: u128, y: u128, z: u128| forall|i: int| 0 <= i < 16 ==> call_ensures(shape_i8_sat_add_s, ((&lane8(x, i), &lane8(y, i)),), #[trigger] lane8(z, i)))
            &&& st_post == st_pre
        },
        InstructionType::I16x8AddSatS => {
            &&& vec2_post(s_pre, s_post, r, |x: u128, y: u128, z: u128| forall|i: int| 0 <= i < 8 ==> call_ensures(shape_i16_sat_add_s, ((&lane16(x, i), &lane16(y, i)),), #[trigger] lane16(z, i)))
            &&& st_post == st_pre
        },
        InstructionType::I8x16SubSatU => {
            &&& vec2_post(s_pre, s_post, r, |x: u128, y: u128, z: u128| forall|i: int| 0 <= i < 16 ==> call_ensures(shape_i8_sat_sub_u, ((&lane8(x, i), &lane8(y, i)),), #[trigger] lane8(z, i)))
            &&& st_post == st_pre
        },
        InstructionType::I16x8SubSatU => {
            &&& vec2_post(s_pre, s_post, r, |x: u128, y: u128, z: u128| forall|i: int| 0 <= i < 8 ==> call_ensures(shape_i16_sat_sub_u, ((&lane16(x, i), &lane16(y, i)),), #[trigger] lane16(z, i)))
            &&& st_post == st_pre
        },
        InstructionType::I8x16SubSatS => {
            &&& vec2_post(s_pre, s_post, r, |x: u128, y: u128, z: u128| forall|i: int| 0 <= i < 16 ==> call_ensures(shape_i8_sat_sub_s, ((&lane8(x, i), &lane8(y, i)),), #[trigger] lane8(z, i)))
            &&& st_post == st_pre
        },
        InstructionType::I16x8SubSatS => {
            &&& vec2_post(s_pre, s_post, r, |x: u128, y: u128, z: u128| forall|i: int| 0 <= i < 8 ==> call_ensures(shape_i16_sat_sub_s, ((&lane16(x, i), &lane16(y, i)),), #[trigger] lane16(z, i)))
            &&& st_post == st_pre
        },
        InstructionType::I8x16AvgrU => {
            &&& vec2_post(s_pre, s_post, r, |x: u128, y: u128, z: u128| forall|i: int| 0 <= i < 16 ==> call_ensures(shape_i8_avgr_u, ((&lane8(x, i), &lane8(y, i)),), #[trigger] lane8(z, i)))
            &&& st_post == st_pre
        },
        InstructionType::I16x8AvgrU => {
            &&& vec2_post(s_pre, s_post, r, |x: u128, y: u128, z: u128| forall|i: int| 0 <= i < 8 ==> call_ensures(shape_i16_avgr_u, ((&lane16(x, i), &lane16(y, i)),), #[trigger] lane16(z, i)))
            &&& st_post == st_pre
        },
        InstructionType::I16x8Q15MulrSatS => {
            &&& vec2_post(s_pre, s_post, r, |x: u128, y: u128, z: u128| forall|i: int| 0 <= i < 8 ==> call_ensures(shape_i16_mulr_sat_s, ((&lane16(x, i), &lane16(y, i)),), #[trigger] lane16(z, i)))
            &&& st_post == st_pre
        },
        InstructionType::I8x16Eq => {
            &&& vec2_post(s_pre, s_post, r, |x: u128, y: u128, z: u128| forall|i: int| 0 <= i < 16 ==> (#[trigger] lane8(z, i) == 0 || lane8(z, i) == u8::MAX) && call_ensures(shape_eq, ((&lane8(x, i), &lane8(y, i)),), lane8(z, i) == u8::MAX))
            &&& st_post == st_pre
        },
        InstructionType::I16x8Eq => {
            &&& vec2_post(s_pre, s_post, r, |x: u128, y: u128, z: u128| forall|i: int| 0 <= i < 8 ==> (#[trigger] lane16(z, i) == 0 || lane16(z, i) == u16::MAX) && call_ensures(shape_eq, ((&lane16(x, i), &lane16(y, i)),), lane16(z, i) == u16::MAX))
            &&& st_post == st_pre
        },
        InstructionType::I32x4Eq => {
            &&& vec2_post(s_pre, s_post, r, |x: u128, y: u128, z: u128| forall|i: int| 0 <= i < 4 ==> (#[trigger] lane32(z, i) == 0 || lane32(z, i) == u32::MAX) && call_ensures(shape_eq, ((&lane32(x, i), &lane32(y, i)),), lane32(z, i) == u32::MAX))
            &&& st_post == st_pre
        },
        InstructionType::I64x2Eq => {
            &&& vec2_post(s_pre, s_post, r, |x: u128, y: u128, z: u128| forall|i: int| 0 <= i < 2 ==> (#[trigger] lane64(z, i) == 0 || lane64(z, i) == u64::MAX) && call_ensures(shape_eq, ((&lane64(x, i), &lane64(y, i)),), lane64(z, i) == u64::MAX))
            &&& st_post == st_pre
        },
        InstructionType::I8x16Ne => {
            &&& vec2_post(s_pre, s_post, r, |x: u128, y: u128, z: u128| forall|i: int| 0 <= i < 16 ==> (#[trigger] lane8(z, i) == 0 || lane8(z, i) == u8::MAX) && call_ensures(shape_ne, ((&lane8(x, i), &lane8(y, i)),), lane8(z, i) == u8::MAX))
            &&& st_post == st_pre
        },
        InstructionType::I16x8Ne => {
            &&& vec2_post(s_pre, s_post, r, |x: u128, y: u128, z: u128| forall|i: int| 0 <= i < 8 ==> (#[trigger] lane16(z, i) == 0 || lane16(z, i) == u16::MAX) && call_ensures(shape_ne, ((&lane16(x, i), &lane16(y, i)),), lane16(z, i) == u16::MAX))
            &&& st_post == st_pre
        },
        InstructionType::I32x4Ne => {
            &&& vec2_post(s_pre, s_post, r, |x: u128, y: u128, z: u128| forall|i: int| 0 <= i < 4 ==> (#[trigger] lane32(z, i) == 0 || lane32(z, i) == u32::MAX) && call_ensures(shape_ne, ((&lane32(x, i), &lane32(y, i)),), lane32(z, i) == u32::MAX))
            &&& st_post == st_pre
        },
        InstructionType::I64x2Ne => {
            &&& vec2_post(s_pre, s_post, r, |x: u128, y: u128, z: u128| forall|i: int| 0 <= i < 2 ==> (#[trigger] lane64(z, i) == 0 || lane64(z, i) == u64::MAX) && call_ensures(shape_ne, ((&lane64(x, i), &lane64(y, i)),), lane64(z, i) == u64::MAX))
            &&& st_post == st_pre
        },
        InstructionType::I8x16LtU => {
            &&& vec2_post(s_pre, s_post, r, |x: u128, y: u128, z: u128| forall|i: int| 0 <= i < 16 ==> (#[trigger] lane8(z, i) == 0 || lane8(z, i) == u8::MAX) && call_ensures(shape_lt_u, ((&lane8(x, i), &lane8(y, i)),), lane8(z, i) == u8::MAX))
            &&& st_post == st_pre
        },
        InstructionType::I16x8LtU => {
            &&& vec2_post(s_pre, s_post, r, |x: u128, y: u128, z: u128| forall|i: int| 0 <= i < 8 ==> (#[trigger] lane16(z, i) == 0 || lane16(z, i) == u16::MAX) && call_ensures(shape_lt_u, ((&lane16(x, i), &lane16(y, i)),), lane16(z, i) == u16::MAX))
            &&& st_post == st_pre
        },
        InstructionType::I32x4LtU => {
            &&& vec2_post(s_pre, s_post, r, |x: u128, y: u128, z: u128| forall|i: int| 0 <= i < 4 ==> (#[trigger] lane32(z, i) == 0 || lane32(z, i) == u32::MAX) && call_ensures(shape_lt_u, ((&lane32(x, i), &lane32(y, i)),), lane32(z, i) == u32::MAX))
            &&& st_post == st_pre
        },
        InstructionType::I8x16LtS => {
            &&& vec2_post(s_pre, s_post, r, |x: u128, y: u128, z: u128| forall|i: int| 0 <= i < 16 ==> (#[trigger] lane8(z, i) == 0 || lane8(z, i) == u8::MAX) && call_ensures(shape_lt_s, ((&lane8(x, i), &lane8(y, i)),), lane8(z, i) == u8::MAX))
            &&& st_post == st_pre
        },
        InstructionType::I16x8LtS => {
            &&& vec2_post(s_pre, s_post, r, |x: u128, y: u128, z: u128| forall|i: int| 0 <= i < 8 ==> (#[trigger] lane16(z, i) == 0 || lane16(z, i) == u16::MAX) && call_ensures(shape_lt_s, ((&lane16(x, i), &lane16(y, i)),), lane16(z, i) == u16::MAX))
            &&& st_post == st_pre
        },
        InstructionType::I32x4LtS => {
            &&& vec2_post(s_pre, s_post, r, |x: u128, y: u128, z: u128| forall|i: int| 0 <= i < 4 ==> (#[trigger] lane32(z, i) == 0 || lane32(z, i) == u32::MAX) && call_ensures(shape_lt_s, ((&lane32(x, i), &lane32(y, i)),), lane32(z, i) == u32::MAX))
            &&& st_post == st_pre
        },
        InstructionType::I64x2LtS => {
            &&& vec2_post(s_pre, s_post, r, |x: u128, y: u128, z: u128| forall|i: int| 0 <= i < 2 ==> (#[trigger] lane64(z, i) == 0 || lane64(z, i) == u64::MAX) && call_ensures(shape_lt_s, ((&lane64(x, i), &lane64(y, i)),), lane64(z, i) == u64::MAX))
            &&& st_post == st_pre
        },
        InstructionType::I8x16GtU => {
            &&& vec2_post(s_pre, s_post, r, |x: u128, y: u128, z: u128| forall|i: int| 0 <= i < 16 ==> (#[trigger] lane8(z, i) == 0 || lane8(z, i) == u8::MAX) && call_ensures(shape_gt_u, ((&lane8(x, i), &lane8(y, i)),), lane8(z, i) == u8::MAX))
            &&& st_post == st_pre
        },
        InstructionType::I16x8GtU => {
            &&& vec2_post(s_pre, s_post, r, |x: u128, y: u128, z: u128| forall|i: int| 0 <= i < 8 ==> (#[trigger] lane16(z, i) == 0 || lane16(z, i) == u16::MAX) && call_ensures(shape_gt_u, ((&lane16(x, i), &lane16(y, i)),), lane16(z, i) == u16::MAX))
            &&& st_post == st_pre
        },
        InstructionType::I32x4GtU => {
            &&& vec2_post(s_pre, s_post, r, |x: u128, y: u128, z: u128| forall|i: int| 0 <= i < 4 ==> (#[trigger] lane32(z, i) == 0 || lane32(z, i) == u32::MAX) && call_ensures(shape_gt_u, ((&lane32(x, i), &lane32(y, i)),), lane32(z, i) == u32::MAX))
            &&& st_post == st_pre
        },
        InstructionType::I8x16GtS => {
            &&& vec2_post(s_pre, s_post, r, |x: u128, y: u128, z: u128| forall|i: int| 0 <= i < 16 ==> (#[trigger] lane8(z, i) == 0 || lane8(z, i) == u8::MAX) && call_ensures(shape_gt_s, ((&lane8(x, i), &lane8(y, i)),), lane8(z, i) == u8::MAX))
            &&& st_post == st_pre
        },
        InstructionType::I16x8GtS => {
            &&& vec2_post(s_pre, s_post, r, |x: u128, y: u128, z: u128| forall|i: int| 0 <= i < 8 ==> (#[trigger] lane16(z, i) == 0 || lane16(z, i) == u16::MAX) && call_ensures(shape_gt_s, ((&lane16(x, i), &lane16(y, i)),), lane16(z, i) == u16::MAX))
            &&& st_post == st_pre
        },
        InstructionType::I32x4GtS => {
            &&& vec2_post(s_pre, s_post, r, |x: u128, y: u128, z: u128| forall|i: int| 0 <= i < 4 ==> (#[trigger] lane32(z, i) == 0 || lane32(z, i) == u32::MAX) && call_ensures(shape_gt_s, ((&lane32(x, i), &lane32(y, i)),), lane32(z, i) == u32::MAX))
            &&& st_post == st_pre
        },
        InstructionType::I64x2GtS => {
            &&& vec2_post(s_pre, s_post, r, |x: u128, y: u128, z: u128| forall|i: int| 0 <= i < 2 ==> (#[trigger] lane64(z, i) == 0 || lane64(z, i) == u64::MAX) && call_ensures(shape_gt_s, ((&lane64(x, i), &lane64(y, i)),), lane64(z, i) == u64::MAX))
            &&& st_post == st_pre
        },
        InstructionType::I8x16LeU => {
            &&& vec2_post(s_pre, s_post, r, |x: u128, y: u128, z: u128| forall|i: int| 0 <= i < 16 ==> (#[trigger] lane8(z, i) == 0 || lane8(z, i) == u8::MAX) && call_ensures(shape_le_u, ((&lane8(x, i), &lane8(y, i)),), lane8(z, i) == u8::MAX))
            &&& st_post == st_pre
        },
        InstructionType::I16x8LeU => {
            &&& vec2_post(s_pre, s_post, r, |x: u128, y: u128, z: u128| forall|i: int| 0 <= i < 8 ==> (#[trigger] lane16(z, i) == 0 || lane16(z, i) == u16::MAX) && call_ensures(shape_le_u, ((&lane16(x, i), &lane16(y, i)),), lane16(z, i) == u16::MAX))
            &&& st_post == st_pre
        },
        InstructionType::I32x4LeU => {
            &&& vec2_post(s_pre, s_post, r, |x: u128, y: u128, z: u128| forall|i: int| 0 <= i < 4 ==> (#[trigger] lane32(z, i) == 0 || lane32(z, i) == u32::MAX) && call_ensures(shape_le_u, ((&lane32(x, i), &lane32(y, i)),), lane32(z, i) == u32::MAX))
            &&& st_post == st_pre
        },
        InstructionType::I8x16LeS => {
            &&& vec2_post(s_pre, s_post, r, |x: u128, y: u128, z: u128| forall|i: int| 0 <= i < 16 ==> (#[trigger] lane8(z, i) == 0 || lane8(z, i) == u8::MAX) && call_ensures(shape_le_s, ((&lane8(x, i), &lane8(y, i)),), lane8(z, i) == u8::MAX))
            &&& st_post == st_pre
        },
        InstructionType::I16x8LeS => {
            &&& vec2_post(s_pre, s_post, r, |x: u128, y: u128, z: u128| forall|i: int| 0 <= i < 8 ==> (#[trigger] lane16(z, i) == 0 || lane16(z, i) == u16::MAX) && call_ensures(shape_le_s, ((&lane16(x, i), &lane16(y, i)),), lane16(z, i) == u16::MAX))
            &&& st_post == st_pre
        },
        InstructionType::I32x4LeS => {
            &&& vec2_post(s_pre, s_post, r, |x: u128, y: u128, z: u128| forall|i: int| 0 <= i < 4 ==> (#[trigger] lane32(z, i) == 0 || lane32(z, i) == u32::MAX) && call_ensures(shape_le_s, ((&lane32(x, i), &lane32(y, i)),), lane32(z, i) == u32::MAX))
            &&& st_post == st_pre
        },
        InstructionType::I64x2LeS => {
            &&& vec2_post(s_pre, s_post, r, |x: u128, y: u128, z: u128| forall|i: int| 0 <= i < 2 ==> (#[trigger] lane64(z, i) == 0 || lane64(z, i) == u64::MAX) && call_ensures(shape_le_s, ((&lane64(x, i), &lane64(y, i)),), lane64(z, i) == u64::MAX))
            &&& st_post == st_pre
        },
        InstructionType::I8x16GeU => {
            &&& vec2_post(s_pre, s_post, r, |x: u128, y: u128, z: u128| forall|i: int| 0 <= i < 16 ==> (#[trigger] lane8(z, i) == 0 || lane8(z, i) == u8::MAX) && call_ensures(shape_ge_u, ((&lane8(x, i), &lane8(y, i)),), lane8(z, i) == u8::MAX))
            &&& st_post == st_pre
        },
        InstructionType::I16x8GeU => {
            &&& vec2_post(s_pre, s_post, r, |x: u128, y: u128, z: u128| forall|i: int| 0 <= i < 8 ==> (#[trigger] lane16(z, i) == 0 || lane16(z, i) == u16::MAX) && call_ensures(shape_ge_u, ((&lane16(x, i), &lane16(y, i)),), lane16(z, i) == u16::MAX))
            &&& st_post == st_pre
        },
        InstructionType::I32x4GeU => {
            &&& vec2_post(s_pre, s_post, r, |x: u128, y: u128, z: u128| forall|i: int| 0 <= i < 4 ==> (#[trigger] lane32(z, i) == 0 || lane32(z, i) == u32::MAX) && call_ensures(shape_ge_u, ((&lane32(x, i), &lane32(y, i)),), lane32(z, i) == u32::MAX))
            &&& st_post == st_pre
        },
        InstructionType::I8x16GeS => {
            &&& vec2_post(s_pre, s_post, r, |x: u128, y: u128, z: u128| forall|i: int| 0 <= i < 16 ==> (#[trigger] lane8(z, i) == 0 || lane8(z, i) == u8::MAX) && call_ensures(shape_ge_s, ((&lane8(x, i), &lane8(y, i)),), lane8(z, i) == u8::MAX))
            &&& st_post == st_pre
        },
        InstructionType::I16x8GeS => {
            &&& vec2_post(s_pre, s_post, r, |x: u128, y: u128, z: u128| forall|i: int| 0 <= i < 8 ==> (#[trigger] lane16(z, i) == 0 || lane16(z, i) == u16::MAX) && call_ensures(shape_ge_s, ((&lane16(x, i), &lane16(y, i)),), lane16(z, i) == u16::MAX))
            &&& st_post == st_pre
        },
        InstructionType::I32x4GeS => {
            &&& vec2_post(s_pre, s_post, r, |x: u128, y: u128, z: u128| forall|i: int| 0 <= i < 4 ==> (#[trigger] lane32(z, i) == 0 || lane32(z, i) == u32::MAX) && call_ensures(shape_ge_s, ((&lane32(x, i), &lane32(y, i)),), lane32(z, i) == u32::MAX))
            &&& st_post == st_pre
        },
        InstructionType::I64x2GeS => {
            &&& vec2_post(s_pre, s_post, r, |x: u128, y: u128, z: u128| forall|i: int| 0 <= i < 2 ==> (#[trigger] lane64(z, i) == 0 || lane64(z, i) == u64::MAX) && call_ensures(shape_ge_s, ((&lane64(x, i), &lane64(y, i)),), lane64(z, i) == u64::MAX))
            &&& st_post == st_pre
        },
        InstructionType::F32x4Eq => {
            &&& vec2_post(s_pre, s_post, r, |x: u128, y: u128, z: u128| forall|i: int| 0 <= i < 4 ==> (#[trigger] lane32(z, i) == 0 || lane32(z, i) == u32::MAX) && call_ensures(shape_eq, ((&lane32(x, i), &lane32(y, i)),), lane32(z, i) == u32::MAX))
            &&& st_post == st_pre
        },
        InstructionType::F64x2Eq => {
            &&& vec2_post(s_pre, s_post, r, |x: u128, y: u128, z: u128| forall|i: int| 0 <= i < 2 ==> (#[trigger] lane64(z, i) == 0 || lane64(z, i) == u64::MAX) && call_ensures(shape_eq, ((&lane64(x, i), &lane64(y, i)),), lane64(z, i) == u64::MAX))
            &&& st_post == st_pre
        },
        InstructionType::F32x4Ne => {
            &&& vec2_post(s_pre, s_post, r, |x: u128, y: u128, z: u128| forall|i: int| 0 <= i < 4 ==> (#[trigger] lane32(z, i) == 0 || lane32(z, i) == u32::MAX) && call_ensures(shape_ne, ((&lane32(x, i), &lane32(y, i)),), lane32(z, i) == u32::MAX))
            &&& st_post == st_pre
        },
        InstructionType::F64x2Ne => {
            &&& vec2_post(s_pre, s_post, r, |x: u128, y: u128, z: u128| forall|i: int| 0 <= i < 2 ==> (#[trigger] lane64(z, i) == 0 || lane64(z, i) == u64::MAX) && call_ensures(shape_ne, ((&lane64(x, i), &lane64(y, i)),), lane64(z, i) == u64::MAX))
            &&& st_post == st_pre
        },
        InstructionType::F32x4Lt => {
            &&& vec2_post(s_pre, s_post, r, |x: u128, y: u128, z: u128| forall|i: int| 0 <= i < 4 ==> (#[trigger] lane32(z, i) == 0 || lane32(z, i) == u32::MAX))
            &&& st_post == st_pre
        },
        InstructionType::F64x2Lt => {
            &&& vec2_post(s_pre, s_post, r, |x: u128, y: u128, z: u128| forall|i: int| 0 <= i < 2 ==> (#[trigger] lane64(z, i) == 0 || lane64(z, i) == u64::MAX))
            &&& st_post == st_pre
        },
        InstructionType::F32x4Gt => {
            &&& vec2_post(s_pre, s_post, r, |x: u128, y: u128, z: u128| forall|i: int| 0 <= i < 4 ==> (#[trigger] lane32(z, i) == 0 || lane32(z, i) == u32::MAX))
            &&& st_post == st_pre
        },
        InstructionType::F64x2Gt => {
            &&& vec2_post(s_pre, s_post, r, |x: u128, y: u128, z: u128| forall|i: int| 0 <= i < 2 ==> (#[trigger] lane64(z, i) == 0 || lane64(z, i) == u64::MAX))
            &&& st_post == st_pre
        },
        InstructionType::F32x4Le => {
            &&& vec2_post(s_pre, s_post, r, |x: u128, y: u128, z: u128| forall|i: int| 0 <= i < 4 ==> (#[trigger] lane32(z, i) == 0 || lane32(z, i) == u32::MAX))
            &&& st_post == st_pre
        },
        InstructionType::F64x2Le => {
            &&& vec2_post(s_pre, s_post, r, |x: u128, y: u128, z: u128| forall|i: int| 0 <= i < 2 ==> (#[trigger] lane64(z, i) == 0 || lane64(z, i) == u64::MAX))
            &&& st_post == st_pre
        },
        InstructionType::F32x4Ge => {
            &&& vec2_post(s_pre, s_post, r, |x: u128, y: u128, z: u128| forall|i: int| 0 <= i < 4 ==> (#[trigger] lane32(z, i) == 0 || lane32(z, i) == u32::MAX))
            &&& st_post == st_pre
        },
        InstructionType::F64x2Ge => {
            &&& vec2_post(s_pre, s_post, r, |x: u128, y: u128, z: u128| forall|i: int| 0 <= i < 2 ==> (#[trigger] lane64(z, i) == 0 || lane64(z, i) == u64::MAX))
            &&& st_post == st_pre
        },
        InstructionType::I8x16Shl => {
            &&& match top_value(s_pre) {
                Some(Val::I32(s)) => match as_v128(top_value(s_pre.drop_last())) {
                    Some(x) => r is Ok && s_post.len() == s_pre.len() - 1
                        && s_post.drop_last() == s_pre.drop_last().drop_last() && match s_post.last() {
                        StackEntry::Value(Val::Vec(z)) => forall|i: int| 0 <= i < 16 ==> (#[trigger] lane8(z, i)) as nat == lane_shift_spec(LaneShift { kind: ShiftKind::Shl, size: 8 }, (lane8(x, i)) as nat, s),
                        _ => false,
                    },
                    None => r is Err && s_post == s_pre.drop_last(),
                },
                _ => r is Err && s_post == s_pre,
            }
            &&& st_post == st_pre
        },
        InstructionType::I16x8Shl => {
            &&& match top_value(s_pre) {
                Some(Val::I32(s)) => match as_v128(top_value(s_pre.drop_last())) {
                    Some(x) => r is Ok && s_post.len() == s_pre.len() - 1
                        && s_post.drop_last() == s_pre.drop_last().drop_last() && match s_post.last() {
                        StackEntry::Value(Val::Vec(z)) => forall|i: int| 0 <= i < 8 ==> (#[trigger] lane16(z, i)) as nat == lane_shift_spec(LaneShift { kind: ShiftKind::Shl, size: 16 }, (lane16(x, i)) as nat, s),
                        _ => false,
                    },
                    None => r is Err && s_post == s_pre.drop_last(),
                },
                _ => r is Err && s_post == s_pre,
            }
            &&& st_post == st_pre
        },
        InstructionType::I32x4Shl => {
            &&& match top_value(s_pre) {
                Some(Val::I32(s)) => match as_v128(top_value(s_pre.drop_last())) {
                    Some(x) => r is Ok && s_post.len() == s_pre.len() - 1
                        && s_post.drop_last() == s_pre.drop_last().drop_last() && match s_post.last() {
                        StackEntry::Value(Val::Vec(z)) => forall|i: int| 0 <= i < 4 ==> (#[trigger] lane32(z, i)) as nat == lane_shift_spec(LaneShift { kind: ShiftKind::Shl, size: 32 }, (lane32(x, i)) as nat, s),
                        _ => false,
                    },
                    None => r is Err && s_post == s_pre.drop_last(),
                },
                _ => r is Err && s_post == s_pre,
            }
            &&& st_post == st_pre
        },
        InstructionType::I64x2Shl => {
            &&& match top_value(s_pre) {
                Some(Val::I32(s)) => match as_v128(top_value(s_pre.drop_last())) {
                    Some(x) => r is Ok && s_post.len() == s_pre.len() - 1
                        && s_post.drop_last() == s_pre.drop_last().drop_last() && match s_post.last() {
                        StackEntry::Value(Val::Vec(z)) => forall|i: int| 0 <= i < 2 ==> (#[trigger] lane64(z, i)) as nat == lane_shift_spec(LaneShift { kind: ShiftKind::Shl, size: 64 }, (lane64(x, i)) as nat, s),
                        _ => false,
                    },
                    None => r is Err && s_post == s_pre.drop_last(),
                },
                _ => r is Err && s_post == s_pre,
            }
            &&& st_post == st_pre
        },
        InstructionType::I8x16ShrU => {
            &&& match top_value(s_pre) {
                Some(Val::I32(s)) => match as_v128(top_value(s_pre.drop_last())) {
                    Some(x) => r is Ok && s_post.len() == s_pre.len() - 1
                        && s_post.drop_last() == s_pre.drop_last().drop_last() && match s_post.last() {
                        StackEntry::Value(Val::Vec(z)) => forall|i: int| 0 <= i < 16 ==> (#[trigger] lane8(z, i)) as nat == lane_shift_spec(LaneShift { kind: ShiftKind::ShrU, size: 8 }, (lane8(x, i)) as nat, s),
                        _ => false,
                    },
                    None => r is Err && s_post == s_pre.drop_last(),
                },
                _ => r is Err && s_post == s_pre,
            }
            &&& st_post == st_pre
        },
        InstructionType::I16x8ShrU => {
            &&& match top_value(s_pre) {
                Some(Val::I32(s)) => match as_v128(top_value(s_pre.drop_last())) {
                    Some(x) => r is Ok && s_post.len() == s_pre.len() - 1
                        && s_post.drop_last() == s_pre.drop_last().drop_last() && match s_post.last() {
                        StackEntry::Value(Val::Vec(z)) => forall|i: int| 0 <= i < 8 ==> (#[trigger] lane16(z, i)) as nat == lane_shift_spec(LaneShift { kind: ShiftKind::ShrU, size: 16 }, (lane16(x, i)) as nat, s),
                        _ => false,
                    },
                    None => r is Err && s_post == s_pre.drop_last(),
                },
                _ => r is Err && s_post == s_pre,
            }
            &&& st_post == st_pre
        },
        InstructionType::I32x4ShrU => {
            &&& match top_value(s_pre) {
                Some(Val::I32(s)) => match as_v128(top_value(s_pre.drop_last())) {
                    Some(x) => r is Ok && s_post.len() == s_pre.len() - 1
                        && s_post.drop_last() == s_pre.drop_last().drop_last() && match s_post.last() {
                        StackEntry::Value(Val::Vec(z)) => forall|i: int| 0 <= i < 4 ==> (#[trigger] lane32(z, i)) as nat == lane_shift_spec(LaneShift { kind: ShiftKind::ShrU, size: 32 }, (lane32(x, i)) as nat, s),
                        _ => false,
                    },
                    None => r is Err && s_post == s_pre.drop_last(),
                },
                _ => r is Err && s_post == s_pre,
            }
            &&& st_post == st_pre
        },
        InstructionType::I64x2ShrU => {
            &&& match top_value(s_pre) {
                Some(Val::I32(s)) => match as_v128(top_value(s_pre.drop_last())) {
                    Some(x) => r is Ok && s_post.len() == s_pre.len() - 1
                        && s_post.drop_last() == s_pre.drop_last().drop_last() && match s_post.last() {
                        StackEntry::Value(Val::Vec(z)) => forall|i: int| 0 <= i < 2 ==> (#[trigger] lane64(z, i)) as nat == lane_shift_spec(LaneShift { kind: ShiftKind::ShrU, size: 64 }, (lane64(x, i)) as nat, s),
                        _ => false,
                    },
                    None => r is Err && s_post == s_pre.drop_last(),
                },
                _ => r is Err && s_post == s_pre,
            }
            &&& st_post == st_pre
        },
        InstructionType::I8x16ShrS => {
            &&& match top_value(s_pre) {
                Some(Val::I32(s)) => match as_v128(top_value(s_pre.drop_last())) {
                    Some(x) => r is Ok && s_post.len() == s_pre.len() - 1
                        && s_post.drop_last() == s_pre.drop_last().drop_last() && match s_post.last() {
                        StackEntry::Value(Val::Vec(z)) => forall|i: int| 0 <= i < 16 ==> (#[trigger] lane8(z, i)) as nat == lane_shift_spec(LaneShift { kind: ShiftKind::ShrS, size: 8 }, (lane8(x, i)) as nat, s),
                        _ => false,
                    },
                    None => r is Err && s_post == s_pre.drop_last(),
                },
                _ => r is Err && s_post == s_pre,
            }
            &&& st_post == st_pre
        },
        InstructionType::I16x8ShrS => {
            &&& match top_value(s_pre) {
                Some(Val::I32(s)) => match as_v128(top_value(s_pre.drop_last())) {
                    Some(x) => r is Ok && s_post.len() == s_pre.len() - 1
                        && s_post.drop_last() == s_pre.drop_last().drop_last() && match s_post.last() {
                        StackEntry::Value(Val::Vec(z)) => forall|i: int| 0 <= i < 8 ==> (#[trigger] lane16(z, i)) as nat == lane_shift_spec(LaneShift { kind: ShiftKind::ShrS, size: 16 }, (lane16(x, i)) as nat, s),
                        _ => false,
                    },
                    None => r is Err && s_post == s_pre.drop_last(),
                },
                _ => r is Err && s_post == s_pre,
            }
            &&& st_post == st_pre
        },
        InstructionType::I32x4ShrS => {
            &&& match top_value(s_pre) {
                Some(Val::I32(s)) => match as_v128(top_value(s_pre.drop_last())) {
                    Some(x) => r is Ok && s_post.len() == s_pre.len() - 1
                        && s_post.drop_last() == s_pre.drop_last().drop_last() && match s_post.last() {
                        StackEntry::Value(Val::Vec(z)) => forall|i: int| 0 <= i < 4 ==> (#[trigger] lane32(z, i)) as nat == lane_shift_spec(LaneShift { kind: ShiftKind::ShrS, size: 32 }, (lane32(x, i)) as nat, s),
                        _ => false,
                    },
                    None => r is Err && s_post == s_pre.drop_last(),
                },
                _ => r is Err && s_post == s_pre,
            }
            &&& st_post == st_pre
        },
        InstructionType::I64x2ShrS => {
            &&& match top_value(s_pre) {
                Some(Val::I32(s)) => match as_v128(top_value(s_pre.drop_last())) {
                    Some(x) => r is Ok && s_post.len() == s_pre.len() - 1
                        && s_post.drop_last() == s_pre.drop_last().drop_last() && match s_post.last() {
                        StackEntry::Value(Val::Vec(z)) => forall|i: int| 0 <= i < 2 ==> (#[trigger] lane64(z, i)) as nat == lane_shift_spec(LaneShift { kind: ShiftKind::ShrS, size: 64 }, (lane64(x, i)) as nat, s),
                        _ => false,
                    },
                    None => r is Err && s_post == s_pre.drop_last(),
                },
                _ => r is Err && s_post == s_pre,
            }
            &&& st_post == st_pre
        },
        InstructionType::I8x16AllTrue => {
            &&& match as_v128(top_value(s_pre)) {
                Some(x) => r is Ok && s_post == push_val(s_pre.drop_last(), Val::I32(
                    if forall|i: int| 0 <= i < 16 ==> #[trigger] lane8(x, i) != 0 { 1 } else { 0 },
                )),
                None => r is Err && s_post == s_pre,
            }
            &&& st_post == st_pre
        },
        InstructionType::I16x8AllTrue => {
            &&& match as_v128(top_value(s_pre)) {
                Some(x) => r is Ok && s_post == push_val(s_pre.drop_last(), Val::I32(
                    if forall|i: int| 0 <= i < 8 ==> #[trigger] lane16(x, i) != 0 { 1 } else { 0 },
                )),
                None => r is Err && s_post == s_pre,
            }
            &&& st_post == st_pre
        },
        InstructionType::I32x4AllTrue => {
            &&& match as_v128(top_value(s_pre)) {
                Some(x) => r is Ok && s_post == push_val(s_pre.drop_last(), Val::I32(
                    if forall|i: int| 0 <= i < 4 ==> #[trigger] lane32(x, i) != 0 { 1 } else { 0 },
                )),
                None => r is Err && s_post == s_pre,
            }
            &&& st_post == st_pre
        },
        InstructionType::I64x2AllTrue => {
            &&& match as_v128(top_value(s_pre)) {
                Some(x) => r is Ok && s_post == push_val(s_pre.drop_last(), Val::I32(
                    if forall|i: int| 0 <= i < 2 ==> #[trigger] lane64(x, i) != 0 { 1 } else { 0 },
                )),
                None => r is Err && s_post == s_pre,
            }
            &&& st_post == st_pre
        },
        InstructionType::I8x16Bitmask => {
            &&& match as_v128(top_value(s_pre)) {
                Some(x) => r is Ok && s_post == push_val(s_pre.drop_last(), Val::I32(bitmask_sum_8(x, 16) as u32)),
                None => r is Err && s_post == s_pre,
            }
            &&& st_post == st_pre
        },
        InstructionType::I16x8Bitmask => {
            &&& match as_v128(top_value(s_pre)) {
                Some(x) => r is Ok && s_post == push_val(s_pre.drop_last(), Val::I32(bitmask_sum_16(x, 8) as u32)),
                None => r is Err && s_post == s_pre,
            }
            &&& st_post == st_pre
        },
        InstructionType::I32x4Bitmask => {
            &&& match as_v128(top_value(s_pre)) {
                Some(x) => r is Ok && s_post == push_val(s_pre.drop_last(), Val::I32(bitmask_sum_32(x, 4) as u32)),
                None => r is Err && s_post == s_pre,
            }
            &&& st_post == st_pre
        },
        InstructionType::I64x2Bitmask => {
            &&& match as_v128(top_value(s_pre)) {
                Some(x) => r is Ok && s_post == push_val(s_pre.drop_last(), Val::I32(bitmask_sum_64(x, 2) as u32)),
                None => r is Err && s_post == s_pre,
            }
            &&& st_post == st_pre
        },
        InstructionType::I8x16NarrowI16x8U => {
            &&& vec2_post(s_pre, s_post, r, |x: u128, y: u128, z: u128| forall|i: int| 0 <= i < 2 * 8 ==> #[trigger] lane8(z, i) == if i < 8 {
                narrow_16_u(lane16(y, i))
            } else {
                narrow_16_u(lane16(x, i - 8))
            })
            &&& st_post == st_pre
        },
        InstructionType::I8x16NarrowI16x8S => {
            &&& vec2_post(s_pre, s_post, r, |x: u128, y: u128, z: u128| forall|i: int| 0 <= i < 2 * 8 ==> #[trigger] lane8(z, i) == if i < 8 {
                narrow_16_s(lane16(y, i))
            } else {
                narrow_16_s(lane16(x, i - 8))
            })
            &&& st_post == st_pre
        },
        InstructionType::I16x8NarrowI32x4U => {
            &&& vec2_post(s_pre, s_post, r, |x: u128, y: u128, z: u128| forall|i: int| 0 <= i < 2 * 4 ==> #[trigger] lane16(z, i) == if i < 4 {
                narrow_32_u(lane32(y, i))
            } else {
                narrow_32_u(lane32(x, i - 4))
            })
            &&& st_post == st_pre
        },
        InstructionType::I16x8NarrowI32x4S => {
            &&& vec2_post(s_pre, s_post, r, |x: u128, y: u128, z: u128| forall|i: int| 0 <= i < 2 * 4 ==> #[trigger] lane16(z, i) == if i < 4 {
                narrow_32_s(lane32(y, i))
            } else {
                narrow_32_s(lane32(x, i - 4))
            })
            &&& st_post == st_pre
        },
        InstructionType::I32x4TruncSatF32x4S => {
            &&& vec1_post(s_pre, s_post, r, |x: u128, z: u128| true)
            &&& st_post == st_pre
        },
        InstructionType::I32x4TruncSatF32x4U => {
            &&& vec1_post(s_pre, s_post, r, |x: u128, z: u128| true)
            &&& st_post == st_pre
        },
        InstructionType::F32x4ConvertI32x4S => {
            &&& vec1_post(s_pre, s_post, r, |x: u128, z: u128| true)
            &&& st_post == st_pre
        },
        InstructionType::F32x4ConvertI32x4U => {
            &&& vec1_post(s_pre, s_post, r, |x: u128, z: u128| true)
            &&& st_post == st_pre
        },
        InstructionType::I16x8ExtendLowI8x16U => {
            &&& vec1_post(s_pre, s_post, r, |x: u128, z: u128| forall|i: int| 0 <= i < 8 ==> call_ensures(i8_extend_i16_u, (lane8(x, half_start((Half::Low), 8) + i),), #[trigger] lane16(z, i)))
            &&& st_post == st_pre
        },
        InstructionType::I16x8ExtendLowI8x16S => {
            &&& vec1_post(s_pre, s_post, r, |x: u128, z: u128| forall|i: int| 0 <= i < 8 ==> call_ensures(i8_extend_i16_s, (lane8(x, half_start((Half::Low), 8) + i),), #[trigger] lane16(z, i)))
            &&& st_post == st_pre
        },
        InstructionType::I16x8ExtendHighI8x16U => {
            &&& vec1_post(s_pre, s_post, r, |x: u128, z: u128| forall|i: int| 0 <= i < 8 ==> call_ensures(i8_extend_i16_u, (lane8(x, half_start((Half::High), 8) + i),), #[trigger] lane16(z, i)))
            &&& st_post == st_pre
        },
        InstructionType::I16x8ExtendHighI8x16S => {
            &&& vec1_post(s_pre, s_post, r, |x: u128, z: u128| forall|i: int| 0 <= i < 8 ==> call_ensures(i8_extend_i16_s, (lane8(x, half_start((Half::High), 8) + i),), #[trigger] lane16(z, i)))
            &&& st_post == st_pre
        },
        InstructionType::I32x4ExtendLowI16x8U => {
            &&& vec1_post(s_pre, s_post, r, |x: u128, z: u128| forall|i: int| 0 <= i < 4 ==> call_ensures(i16_extend_i32_u, (lane16(x, half_start((Half::Low), 4) + i),), #[trigger] lane32(z, i)))
            &&& st_post == st_pre
        },
        InstructionType::I32x4ExtendLowI16x8S => {
            &&& vec1_post(s_pre, s_post, r, |x: u128, z: u128| forall|i: int| 0 <= i < 4 ==> call_ensures(i16_extend_i32_s, (lane16(x, half_start((Half::Low), 4) + i),), #[trigger] lane32(z, i)))
            &&& st_post == st_pre
        },
        InstructionType::I32x4ExtendHighI16x8U => {
            &&& vec1_post(s_pre, s_post, r, |x: u128, z: u128| forall|i: int| 0 <= i < 4 ==> call_ensures(i16_extend_i32_u, (lane16(x, half_start((Half::High), 4) + i),), #[trigger] lane32(z, i)))
            &&& st_post == st_pre
        },
        InstructionType::I32x4ExtendHighI16x8S => {
            &&& vec1_post(s_pre, s_post, r, |x: u128, z: u128| forall|i: int| 0 <= i < 4 ==> call_ensures(i16_extend_i32_s, (lane16(x, half_start((Half::High), 4) + i),), #[trigger] lane32(z, i)))
            &&& st_post == st_pre
        },
        InstructionType::I64x2ExtendLowI32x4U => {
            &&& vec1_post(s_pre, s_post, r, |x: u128, z: u128| forall|i: int| 0 <= i < 2 ==> call_ensures(i32_extend_i64_u, (lane32(x, half_start((Half::Low), 2) + i),), #[trigger] lane64(z, i)))
            &&& st_post == st_pre
        },
        InstructionType::I64x2ExtendLowI32x4S => {
            &&& vec1_post(s_pre, s_post, r, |x: u128, z: u128| forall|i: int| 0 <= i < 2 ==> call_ensures(i32_extend_i64_s, (lane32(x, half_start((Half::Low), 2) + i),), #[trigger] lane64(z, i)))
            &&& st_post == st_pre
        },
        InstructionType::I64x2ExtendHighI32x4U => {
            &&& vec1_post(s_pre, s_post, r, |x: u128, z: u128| forall|i: int| 0 <= i < 2 ==> call_ensures(i32_extend_i64_u, (lane32(x, half_start((Half::High), 2) + i),), #[trigger] lane64(z, i)))
            &&& st_post == st_pre
        },
        InstructionType::I64x2ExtendHighI32x4S => {
            &&& vec1_post(s_pre, s_post, r, |x: u128, z: u128| forall|i: int| 0 <= i < 2 ==> call_ensures(i32_extend_i64_s, (lane32(x, half_start((Half::High), 2) + i),), #[trigger] lane64(z, i)))
            &&& st_post == st_pre
        },
        InstructionType::F64x2ConvertLowI32x4U => {
            &&& vec1_post(s_pre, s_post, r, |x: u128, z: u128| true)
            &&& st_post == st_pre
        },
        InstructionType::F64x2ConvertLowI32x4S => {
            &&& vec1_post(s_pre, s_post, r, |x: u128, z: u128| true)
            &&& st_post == st_pre
        },
        InstructionType::F64x2PromoteLowF32x4 => {
            &&& vec1_post(s_pre, s_post, r, |x: u128, z: u128| true)
            &&& st_post == st_pre
        },
        InstructionType::I32x4TruncSatF64x2UZero => {
            &&& vec1_post(s_pre, s_post, r, |x: u128, z: u128| true && true && lane32(z, 2) == 0 && lane32(z, 3) == 0)
            &&& st_post == st_pre
        },
        InstructionType::I32x4TruncSatF64x2SZero => {
            &&& vec1_post(s_pre, s_post, r, |x: u128, z: u128| true && true && lane32(z, 2) == 0 && lane32(z, 3) == 0)
            &&& st_post == st_pre
        },
        InstructionType::F32x4DemoteF64x2Zero => {
            &&& vec1_post(s_pre, s_post, r, |x: u128, z: u128| true && true && lane32(z, 2) == 0 && lane32(z, 3) == 0)
            &&& st_post == st_pre
        },
        InstructionType::I32x4DotI16x8S => {
            &&& vec2_post(s_pre, s_post, r, |x: u128, y: u128, z: u128| forall|i: int| 0 <= i < 4 ==> #[trigger] lane32(z, i) == dot_lane(x, y, i))
            &&& st_post == st_pre
        },
        InstructionType::I16x8ExtmulLowI8x16U => {
            &&& vec2_post(s_pre, s_post, r, |x: u128, y: u128, z: u128| forall|i: int| 0 <= i < 8 ==> #[trigger] lane16(z, i) == extmul_lane_16(x, y, (Half::Low), i, false))
            &&& st_post == st_pre
        },
        InstructionType::I16x8ExtmulLowI8x16S => {
            &&& vec2_post(s_pre, s_post, r, |x: u128, y: u128, z: u128| forall|i: int| 0 <= i < 8 ==> #[trigger] lane16(z, i) == extmul_lane_16(x, y, (Half::Low), i, true))
            &&& st_post == st_pre
        },
        InstructionType::I16x8ExtmulHighI8x16U => {
            &&& vec2_post(s_pre, s_post, r, |x: u128, y: u128, z: u128| forall|i: int| 0 <= i < 8 ==> #[trigger] lane16(z, i) == extmul_lane_16(x, y, (Half::High), i, false))
            &&& st_post == st_pre
        },
        InstructionType::I16x8ExtmulHighI8x16S => {
            &&& vec2_post(s_pre, s_post, r, |x: u128, y: u128, z: u128| forall|i: int| 0 <= i < 8 ==> #[trigger] lane16(z, i) == extmul_lane_16(x, y, (Half::High), i, true))
            &&& st_post == st_pre
        },
        InstructionType::I32x4ExtmulLowI16x8U => {
            &&& vec2_post(s_pre, s_post, r, |x: u128, y: u128, z: u128| forall|i: int| 0 <= i < 4 ==> #[trigger] lane32(z, i) == extmul_lane_32(x, y, (Half::Low), i, false))
            &&& st_post == st_pre
        },
        InstructionType::I32x4ExtmulLowI16x8S => {
            &&& vec2_post(s_pre, s_post, r, |x: u128, y: u128, z: u128| forall|i: int| 0 <= i < 4 ==> #[trigger] lane32(z, i) == extmul_lane_32(x, y, (Half::Low), i, true))
            &&& st_post == st_pre
        },
        InstructionType::I32x4ExtmulHighI16x8U => {
            &&& vec2_post(s_pre, s_post, r, |x: u128, y: u128, z: u128| forall|i: int| 0 <= i < 4 ==> #[trigger] lane32(z, i) == extmul_lane_32(x, y, (Half::High), i, false))
            &&& st_post == st_pre
        },
        InstructionType::I32x4ExtmulHighI16x8S => {
            &&& vec2_post(s_pre, s_post, r, |x: u128, y: u128, z: u128| forall|i: int| 0 <= i < 4 ==> #[trigger] lane32(z, i) == extmul_lane_32(x, y, (Half::High), i, true))
            &&& st_post == st_pre
        },
        InstructionType::I64x2ExtmulLowI32x4U => {
            &&& vec2_post(s_pre, s_post, r, |x: u128, y: u128, z: u128| forall|i: int| 0 <= i < 2 ==> #[trigger] lane64(z, i) == extmul_lane_64(x, y, (Half::Low), i, false))
            &&& st_post == st_pre
        },
        InstructionType::I64x2ExtmulLowI32x4S => {
            &&& vec2_post(s_pre, s_post, r, |x: u128, y: u128, z: u128| forall|i: int| 0 <= i < 2 ==> #[trigger] lane64(z, i) == extmul_lane_64(x, y, (Half::Low), i, true))
            &&& st_post == st_pre
        },
        InstructionType::I64x2ExtmulHighI32x4U => {
            &&& vec2_post(s_pre, s_post, r, |x: u128, y: u128, z: u128| forall|i: int| 0 <= i < 2 ==> #[trigger] lane64(z, i) == extmul_lane_64(x, y, (Half::High), i, false))
            &&& st_post == st_pre
        },
        InstructionType::I64x2ExtmulHighI32x4S => {
            &&& vec2_post(s_pre, s_post, r, |x: u128, y: u128, z: u128| forall|i: int| 0 <= i < 2 ==> #[trigger] lane64(z, i) == extmul_lane_64(x, y, (Half::High), i, true))
            &&& st_post == st_pre
        },
        InstructionType::I16x8ExtaddPairwiseI8x16U => {
            &&& vec1_post(s_pre, s_post, r, |x: u128, z: u128| forall|i: int| 0 <= i < 8 ==> #[trigger] lane16(z, i) == extadd_lane_16(x, i, false))
            &&& st_post == st_pre
        },
        InstructionType::I16x8ExtaddPairwiseI8x16S => {
            &&& vec1_post(s_pre, s_post, r, |x: u128, z: u128| forall|i: int| 0 <= i < 8 ==> #[trigger] lane16(z, i) == extadd_lane_16(x, i, true))
            &&& st_post == st_pre
        },
        InstructionType::I32x4ExtaddPairwiseI16x8U => {
            &&& vec1_post(s_pre, s_post, r, |x: u128, z: u128| forall|i: int| 0 <= i < 4 ==> #[trigger] lane32(z, i) == extadd_lane_32(x, i, false))
            &&& st_post == st_pre
        },
        InstructionType::I32x4ExtaddPairwiseI16x8S => {
            &&& vec1_post(s_pre, s_post, r, |x: u128, z: u128| forall|i: int| 0 <= i < 4 ==> #[trigger] lane32(z, i) == extadd_lane_32(x, i, true))
            &&& st_post == st_pre
        },
        InstructionType::Drop => {
            &&& r is Ok <==> top_value(s_pre) is Some
            &&& s_post == pop_value_spec(s_pre)
            &&& st_post == st_pre
        },
        InstructionType::Select => {
            &&& select_post(s_pre, s_post, r)
            &&& st_post == st_pre
        },
        InstructionType::SelectVec(vector) => {
            &&& select_post(s_pre, s_post, r)
            &&& st_post == st_pre
        },
        InstructionType::LocalGet(local_idx) => {
            &&& match frame_local(s_pre, local_idx.0.0 as int) {
                Some(v) => r is Ok && s_post == push_val(s_pre, v),
                None => r is Err && s_post == s_pre,
            }
            &&& st_post == st_pre
        },
        InstructionType::LocalSet(local_idx) => {
            &&& match frame_local(s_pre, local_idx.0.0 as int) {
                Some(_) => match top_value(s_pre) {
                    Some(v) => r is Ok && local_replaced(s_pre.drop_last(), s_post, top_frame_index(s_pre)->0, local_idx.0.0 as int, v),
                    None => r is Err && s_post == s_pre,
                },
                None => r is Err && s_post == s_pre,
            }
            &&& st_post == st_pre
        },
        InstructionType::LocalTee(local_idx) => {
            &&& match top_value(s_pre) {
                Some(v) => match frame_local(s_pre, local_idx.0.0 as int) {
                    Some(_) => r is Ok && local_replaced(s_pre, s_post, top_frame_index(s_pre)->0, local_idx.0.0 as int, v),
                    None => r is Err && s_post == push_val(s_pre, v),
                },
                None => r is Err && s_post == s_pre,
            }
            &&& st_post == st_pre
        },
        InstructionType::GlobalGet(global_idx) => {
            &&& match frame_global_addr(s_pre, global_idx.0.0 as int) {
                Some(a) => if a < st_pre.globals@.len() {
                    r is Ok && s_post == push_val(s_pre, st_pre.globals@[a as int].value)
                } else {
                    r is Err && s_post == s_pre
                },
                None => r is Err && s_post == s_pre,
            }
            &&& st_post == st_pre
        },
        InstructionType::GlobalSet(global_idx) => {
            &&& match frame_global_addr(s_pre, global_idx.0.0 as int) {
                Some(a) => if a < st_pre.globals@.len() {
                    s_post == pop_value_spec(s_pre) && match top_value(s_pre) {
                        Some(v) => r is Ok && st_post.globals@ == st_pre.globals@.update(
                            a as int,
                            GlobalInst { global_type: st_pre.globals@[a as int].global_type, value: v },
                        ) && st_post.funcs == st_pre.funcs && st_post.tables == st_pre.tables
                            && st_post.mems == st_pre.mems && st_post.elems == st_pre.elems
                            && st_post.datas == st_pre.datas,
                        None => r is Err && st_post == st_pre,
                    }
                } else {
                    r is Err && s_post == s_pre && st_post == st_pre
                },
                None => r is Err && s_post == s_pre && st_post == st_pre,
            }
        },
        InstructionType::TableGet(table_idx) => {
            &&& st_post == st_pre
            &&& !table_found(s_pre, st_pre, table_idx.0.0 as int) ==> r is Err && s_post == s_pre
            &&& table_found(s_pre, st_pre, table_idx.0.0 as int) ==> match top_value(s_pre) {
                Some(Val::I32(i)) => {
                    let e = table_elems(s_pre, st_pre, table_idx.0.0 as int);
                    if i < e.len() {
                        r is Ok && s_post == push_val(s_pre.drop_last(), Val::Ref(e[i as int]))
                    } else {
                        r is Err && s_post == s_pre.drop_last()
                    }
                },
                _ => r is Err && s_post == s_pre,
            }
        },
        InstructionType::TableSet(table_idx) => {
            &&& !table_found(s_pre, st_pre, table_idx.0.0 as int) ==> r is Err && s_post == s_pre && st_post == st_pre
            &&& table_found(s_pre, st_pre, table_idx.0.0 as int) ==> match top_value(s_pre) {
                Some(Val::Ref(v)) => match top_value(s_pre.drop_last()) {
                    Some(Val::I32(i)) => {
                        let e = table_elems(s_pre, st_pre, table_idx.0.0 as int);
                        s_post == s_pre.drop_last().drop_last() && if i < e.len() {
                            r is Ok && table_written(st_pre, st_post, frame_table_addr(s_pre, table_idx.0.0 as int)->0 as int, e.update(i as int, v))
                        } else {
                            r is Err && st_post == st_pre
                        }
                    },
                    _ => r is Err && s_post == s_pre.drop_last() && st_post == st_pre,
                },
                _ => r is Err && s_post == s_pre && st_post == st_pre,
            }
        },
        InstructionType::TableSize(table_idx) => {
            &&& st_post == st_pre
            &&& !table_found(s_pre, st_pre, table_idx.0.0 as int) ==> r is Err && s_post == s_pre
            &&& table_found(s_pre, st_pre, table_idx.0.0 as int) ==> r is Ok && s_post == push_val(
                s_pre,
                Val::I32((table_elems(s_pre, st_pre, table_idx.0.0 as int).len() % 0x1_0000_0000) as u32),
            )
        },
        InstructionType::TableGrow(table_idx) => {
            &&& !table_found(s_pre, st_pre, table_idx.0.0 as int) ==> r is Err && s_post == s_pre && st_post == st_pre
            &&& table_found(s_pre, st_pre, table_idx.0.0 as int) ==> match top_value(s_pre) {
                Some(Val::I32(n)) => match top_value(s_pre.drop_last()) {
                Some(Val::Ref(v)) => {
                    let a = frame_table_addr(s_pre, table_idx.0.0 as int)->0 as int;
                    let size = st_pre.tables@[a].elem@.len();
                    &&& r is Ok
                    &&& st_post.tables@.len() == st_pre.tables@.len()
                    &&& forall|j: int| 0 <= j < st_pre.tables@.len() && j != a ==> st_post.tables@[j] == st_pre.tables@[j]
                    &&& exists|g: RResult<()>| table_grow_post(st_pre.tables@[a], st_post.tables@[a], n, v, g)
                        && s_post == push_val(s_pre.drop_last().drop_last(), Val::I32(if g is Ok { (size % 0x1_0000_0000) as u32 } else { 0xFFFF_FFFF }))
                    &&& st_post.funcs == st_pre.funcs
                    &&& st_post.mems == st_pre.mems
                    &&& st_post.globals == st_pre.globals
                    &&& st_post.elems == st_pre.elems
                    &&& st_post.datas == st_pre.datas
                },
                _ => r is Err && s_post == s_pre.drop_last() && st_post == st_pre,
                },
                _ => r is Err && s_post == s_pre && st_post == st_pre,
            }
        },
        InstructionType::TableFill(table_idx) => {
            &&& !table_found(s_pre, st_pre, table_idx.0.0 as int) ==> r is Err && s_post == s_pre && st_post == st_pre
            &&& table_found(s_pre, st_pre, table_idx.0.0 as int) ==> {
                let e = table_elems(s_pre, st_pre, table_idx.0.0 as int);
                let a = frame_table_addr(s_pre, table_idx.0.0 as int)->0 as int;
                match (top_value(s_pre), top_value(s_pre.drop_last()), top_value(s_pre.drop_last().drop_last())) {
                    (Some(Val::I32(n)), Some(Val::Ref(v)), Some(Val::I32(i))) => s_post == s_pre.drop_last().drop_last().drop_last() && if i + n > e.len() {
                        r is Err && st_post == st_pre
                    } else {
                        r is Ok && table_written(st_pre, st_post, a, e.subrange(0, i as int) + Seq::new(n as nat, |k: int| v) + e.subrange(i + n, e.len() as int))
                    },
                    _ => r is Err && st_post == st_pre,
                }
            }
        },
        InstructionType::TableCopy(table_idxes) => {
            &&& !table_found(s_pre, st_pre, table_idxes.0.0.0 as int) || !table_found(s_pre, st_pre, table_idxes.1.0.0 as int) ==> r is Err && s_post == s_pre && st_post == st_pre
            &&& table_found(s_pre, st_pre, table_idxes.0.0.0 as int) && table_found(s_pre, st_pre, table_idxes.1.0.0 as int) ==> {
                let ex = table_elems(s_pre, st_pre, table_idxes.0.0.0 as int);
                let ey = table_elems(s_pre, st_pre, table_idxes.1.0.0 as int);
                table_bulk_post(
                    s_pre,
                    s_post,
                    r,
                    st_pre,
                    st_post,
                    frame_table_addr(s_pre, table_idxes.0.0.0 as int)->0 as int,
                    |n: int, s: int, d: int| s + n <= ey.len() && d + n <= ex.len(),
                    |n: int, s: int, d: int| ex.subrange(0, d) + ey.subrange(s, s + n) + ex.subrange(d + n, ex.len() as int),
                )
            }
        },
        InstructionType::TableInit(table_idxes) => {
            &&& !table_found(s_pre, st_pre, table_idxes.0.0.0 as int) || !(frame_elem_addr(s_pre, table_idxes.1.0.0 as int) matches Some(ea) && ea < st_pre.elems@.len() && st_pre.elems@[ea as int] is Some) ==> r is Err && s_post == s_pre && st_post == st_pre
            &&& table_found(s_pre, st_pre, table_idxes.0.0.0 as int) && (frame_elem_addr(s_pre, table_idxes.1.0.0 as int) matches Some(ea) && ea < st_pre.elems@.len() && st_pre.elems@[ea as int] is Some) ==> {
                let ex = table_elems(s_pre, st_pre, table_idxes.0.0.0 as int);
                let ey = st_pre.elems@[frame_elem_addr(s_pre, table_idxes.1.0.0 as int)->0 as int]->0.elem@;
                table_bulk_post(
                    s_pre,
                    s_post,
                    r,
                    st_pre,
                    st_post,
                    frame_table_addr(s_pre, table_idxes.0.0.0 as int)->0 as int,
                    |n: int, s: int, d: int| s + n <= ey.len() && d + n <= ex.len(),
                    |n: int, s: int, d: int| ex.subrange(0, d) + ey.subrange(s, s + n) + ex.subrange(d + n, ex.len() as int),
                )
            }
        },
        InstructionType::ElemDrop(elem_idx) => {
            &&& s_post == s_pre
            &&& match frame_elem_addr(s_pre, elem_idx.0.0 as int) {
                Some(a) => if a < st_pre.elems@.len() && st_pre.elems@[a as int] is Some {
                    r is Ok && st_post.elems@ == st_pre.elems@.update(a as int, None)
                        && st_post.funcs == st_pre.funcs && st_post.tables == st_pre.tables
                        && st_post.mems == st_pre.mems && st_post.globals == st_pre.globals
                        && st_post.datas == st_pre.datas
                } else {
                    r is Err && st_post == st_pre
                },
                None => r is Err && st_post == st_pre,
            }
        },
        InstructionType::I32Load(mem_arg) => {
            &&& load_post(s_pre, s_post, r, st_pre, mem_arg.0.0, 4, |b: Seq<u8>| Val::I32(le_value(b) as u32))
            &&& st_post == st_pre
        },
        InstructionType::I64Load(mem_arg) => {
            &&& load_post(s_pre, s_post, r, st_pre, mem_arg.0.0, 8, |b: Seq<u8>| Val::I64(le_value(b) as u64))
            &&& st_post == st_pre
        },
        InstructionType::F32Load(mem_arg) => {
            &&& load_post(s_pre, s_post, r, st_pre, mem_arg.0.0, 4, |b: Seq<u8>| Val::F32(le_value(b) as u32))
            &&& st_post == st_pre
        },
        InstructionType::F64Load(mem_arg) => {
            &&& load_post(s_pre, s_post, r, st_pre, mem_arg.0.0, 8, |b: Seq<u8>| Val::F64(le_value(b) as u64))
            &&& st_post == st_pre
        },
        InstructionType::V128Load(mem_arg) => {
            &&& load_post(s_pre, s_post, r, st_pre, mem_arg.0.0, 16, |b: Seq<u8>| Val::Vec(le_value(b) as u128))
            &&& st_post == st_pre
        },
        InstructionType::I32Load8U(mem_arg) => {
            &&& load_post(s_pre, s_post, r, st_pre, mem_arg.0.0, 1, |b: Seq<u8>| Val::I32((if (Sign::Unsigned) is Signed { sext(le_value(b), 0x100, 0x1_0000_0000) } else { le_value(b) }) as u32))
            &&& st_post == st_pre
        },
        InstructionType::I32Load8S(mem_arg) => {
            &&& load_post(s_pre, s_post, r, st_pre, mem_arg.0.0, 1, |b: Seq<u8>| Val::I32((if (Sign::Signed) is Signed { sext(le_value(b), 0x100, 0x1_0000_0000) } else { le_value(b) }) as u32))
            &&& st_post == st_pre
        },
        InstructionType::I32Load16U(mem_arg) => {
            &&& load_post(s_pre, s_post, r, st_pre, mem_arg.0.0, 2, |b: Seq<u8>| Val::I32((if (Sign::Unsigned) is Signed { sext(le_value(b), 0x1_0000, 0x1_0000_0000) } else { le_value(b) }) as u32))
            &&& st_post == st_pre
        },
        InstructionType::I32Load16S(mem_arg) => {
            &&& load_post(s_pre, s_post, r, st_pre, mem_arg.0.0, 2, |b: Seq<u8>| Val::I32((if (Sign::Signed) is Signed { sext(le_value(b), 0x1_0000, 0x1_0000_0000) } else { le_value(b) }) as u32))
            &&& st_post == st_pre
        },
        InstructionType::I64Load8U(mem_arg) => {
            &&& load_post(s_pre, s_post, r, st_pre, mem_arg.0.0, 1, |b: Seq<u8>| Val::I64((if (Sign::Unsigned) is Signed { sext(le_value(b), 0x100, 0x1_0000_0000_0000_0000) } else { le_value(b) }) as u64))
            &&& st_post == st_pre
        },
        InstructionType::I64Load8S(mem_arg) => {
            &&& load_post(s_pre, s_post, r, st_pre, mem_arg.0.0, 1, |b: Seq<u8>| Val::I64((if (Sign::Signed) is Signed { sext(le_value(b), 0x100, 0x1_0000_0000_0000_0000) } else { le_value(b) }) as u64))
            &&& st_post == st_pre
        },
        InstructionType::I64Load16U(mem_arg) => {
            &&& load_post(s_pre, s_post, r, st_pre, mem_arg.0.0, 2, |b: Seq<u8>| Val::I64((if (Sign::Unsigned) is Signed { sext(le_value(b), 0x1_0000, 0x1_0000_0000_0000_0000) } else { le_value(b) }) as u64))
            &&& st_post == st_pre
        },
        InstructionType::I64Load16S(mem_arg) => {
            &&& load_post(s_pre, s_post, r, st_pre, mem_arg.0.0, 2, |b: Seq<u8>| Val::I64((if (Sign::Signed) is Signed { sext(le_value(b), 0x1_0000, 0x1_0000_0000_0000_0000) } else { le_value(b) }) as u64))
            &&& st_post == st_pre
        },
        InstructionType::I64Load32U(mem_arg) => {
            &&& load_post(s_pre, s_post, r, st_pre, mem_arg.0.0, 4, |b: Seq<u8>| Val::I64((if (Sign::Unsigned) is Signed { sext(le_value(b), 0x1_0000_0000, 0x1_0000_0000_0000_0000) } else { le_value(b) }) as u64))
            &&& st_post == st_pre
        },
        InstructionType::I64Load32S(mem_arg) => {
            &&& load_post(s_pre, s_post, r, st_pre, mem_arg.0.0, 4, |b: Seq<u8>| Val::I64((if (Sign::Signed) is Signed { sext(le_value(b), 0x1_0000_0000, 0x1_0000_0000_0000_0000) } else { le_value(b) }) as u64))
            &&& st_post == st_pre
        },
        InstructionType::V128Load8x8U(mem_arg) => {
            &&& st_post == st_pre
            &&& load_fails_early(s_pre, st_pre) ==> r is Err && s_post == s_pre
            &&& !load_fails_early(s_pre, st_pre) && !load_in_bounds(s_pre, st_pre, mem_arg.0.0, 8) ==> r is Err && s_post == s_pre.drop_last()
            &&& !load_fails_early(s_pre, st_pre) && load_in_bounds(s_pre, st_pre, mem_arg.0.0, 8) ==> r is Ok && s_post.drop_last() == s_pre.drop_last() && match s_post.last() {
                StackEntry::Value(Val::Vec(z)) => forall|k: int| 0 <= k < 8 ==> #[trigger] lane16(z, k) == widen_lane_16(load_bytes(s_pre, st_pre, mem_arg.0.0, 8), k, (Sign::Unsigned)),
                _ => false,
            }
        },
        InstructionType::V128Load8x8S(mem_arg) => {
            &&& st_post == st_pre
            &&& load_fails_early(s_pre, st_pre) ==> r is Err && s_post == s_pre
            &&& !load_fails_early(s_pre, st_pre) && !load_in_bounds(s_pre, st_pre, mem_arg.0.0, 8) ==> r is Err && s_post == s_pre.drop_last()
            &&& !load_fails_early(s_pre, st_pre) && load_in_bounds(s_pre, st_pre, mem_arg.0.0, 8) ==> r is Ok && s_post.drop_last() == s_pre.drop_last() && match s_post.last() {
                StackEntry::Value(Val::Vec(z)) => forall|k: int| 0 <= k < 8 ==> #[trigger] lane16(z, k) == widen_lane_16(load_bytes(s_pre, st_pre, mem_arg.0.0, 8), k, (Sign::Signed)),
                _ => false,
            }
        },
        InstructionType::V128Load16x4U(mem_arg) => {
            &&& st_post == st_pre
            &&& load_fails_early(s_pre, st_pre) ==> r is Err && s_post == s_pre
            &&& !load_fails_early(s_pre, st_pre) && !load_in_bounds(s_pre, st_pre, mem_arg.0.0, 8) ==> r is Err && s_post == s_pre.drop_last()
            &&& !load_fails_early(s_pre, st_pre) && load_in_bounds(s_pre, st_pre, mem_arg.0.0, 8) ==> r is Ok && s_post.drop_last() == s_pre.drop_last() && match s_post.last() {
                StackEntry::Value(Val::Vec(z)) => forall|k: int| 0 <= k < 4 ==> #[trigger] lane32(z, k) == widen_lane_32(load_bytes(s_pre, st_pre, mem_arg.0.0, 8), k, (Sign::Unsigned)),
                _ => false,
            }
        },
        InstructionType::V128Load16x4S(mem_arg) => {
            &&& st_post == st_pre
            &&& load_fails_early(s_pre, st_pre) ==> r is Err && s_post == s_pre
            &&& !load_fails_early(s_pre, st_pre) && !load_in_bounds(s_pre, st_pre, mem_arg.0.0, 8) ==> r is Err && s_post == s_pre.drop_last()
            &&& !load_fails_early(s_pre, st_pre) && load_in_bounds(s_pre, st_pre, mem_arg.0.0, 8) ==> r is Ok && s_post.drop_last() == s_pre.drop_last() && match s_post.last() {
                StackEntry::Value(Val::Vec(z)) => forall|k: int| 0 <= k < 4 ==> #[trigger] lane32(z, k) == widen_lane_32(load_bytes(s_pre, st_pre, mem_arg.0.0, 8), k, (Sign::Signed)),
                _ => false,
            }
        },
        InstructionType::V128Load32x2U(mem_arg) => {
            &&& st_post == st_pre
            &&& load_fails_early(s_pre, st_pre) ==> r is Err && s_post == s_pre
            &&& !load_fails_early(s_pre, st_pre) && !load_in_bounds(s_pre, st_pre, mem_arg.0.0, 8) ==> r is Err && s_post == s_pre.drop_last()
            &&& !load_fails_early(s_pre, st_pre) && load_in_bounds(s_pre, st_pre, mem_arg.0.0, 8) ==> r is Ok && s_post.drop_last() == s_pre.drop_last() && match s_post.last() {
                StackEntry::Value(Val::Vec(z)) => forall|k: int| 0 <= k < 2 ==> #[trigger] lane64(z, k) == widen_lane_64(load_bytes(s_pre, st_pre, mem_arg.0.0, 8), k, (Sign::Unsigned)),
                _ => false,
            }
        },
        InstructionType::V128Load32x2S(mem_arg) => {
            &&& st_post == st_pre
            &&& load_fails_early(s_pre, st_pre) ==> r is Err && s_post == s_pre
            &&& !load_fails_early(s_pre, st_pre) && !load_in_bounds(s_pre, st_pre, mem_arg.0.0, 8) ==> r is Err && s_post == s_pre.drop_last()
            &&& !load_fails_early(s_pre, st_pre) && load_in_bounds(s_pre, st_pre, mem_arg.0.0, 8) ==> r is Ok && s_post.drop_last() == s_pre.drop_last() && match s_post.last() {
                StackEntry::Value(Val::Vec(z)) => forall|k: int| 0 <= k < 2 ==> #[trigger] lane64(z, k) == widen_lane_64(load_bytes(s_pre, st_pre, mem_arg.0.0, 8), k, (Sign::Signed)),
                _ => false,
            }
        },
        InstructionType::V128Load8Splat(mem_arg) => {
            &&& st_post == st_pre
            &&& load_fails_early(s_pre, st_pre) ==> r is Err && s_post == s_pre
            &&& !load_fails_early(s_pre, st_pre) && !load_in_bounds(s_pre, st_pre, mem_arg.0.0, 1) ==> r is Err && s_post == s_pre.drop_last()
            &&& !load_fails_early(s_pre, st_pre) && load_in_bounds(s_pre, st_pre, mem_arg.0.0, 1) ==> r is Ok && s_post.drop_last() == s_pre.drop_last() && match s_post.last() {
                StackEntry::Value(Val::Vec(z)) => forall|k: int| 0 <= k < 16 ==> #[trigger] lane8(z, k) == le_value(load_bytes(s_pre, st_pre, mem_arg.0.0, 1)) as u8,
                _ => false,
            }
        },
        InstructionType::V128Load16Splat(mem_arg) => {
            &&& st_post == st_pre
            &&& load_fails_early(s_pre, st_pre) ==> r is Err && s_post == s_pre
            &&& !load_fails_early(s_pre, st_pre) && !load_in_bounds(s_pre, st_pre, mem_arg.0.0, 2) ==> r is Err && s_post == s_pre.drop_last()
            &&& !load_fails_early(s_pre, st_pre) && load_in_bounds(s_pre, st_pre, mem_arg.0.0, 2) ==> r is Ok && s_post.drop_last() == s_pre.drop_last() && match s_post.last() {
                StackEntry::Value(Val::Vec(z)) => forall|k: int| 0 <= k < 8 ==> #[trigger] lane16(z, k) == le_value(load_bytes(s_pre, st_pre, mem_arg.0.0, 2)) as u16,
                _ => false,
            }
        },
        InstructionType::V128Load32Splat(mem_arg) => {
            &&& st_post == st_pre
            &&& load_fails_early(s_pre, st_pre) ==> r is Err && s_post == s_pre
            &&& !load_fails_early(s_pre, st_pre) && !load_in_bounds(s_pre, st_pre, mem_arg.0.0, 4) ==> r is Err && s_post == s_pre.drop_last()
            &&& !load_fails_early(s_pre, st_pre) && load_in_bounds(s_pre, st_pre, mem_arg.0.0, 4) ==> r is Ok && s_post.drop_last() == s_pre.drop_last() && match s_post.last() {
                StackEntry::Value(Val::Vec(z)) => forall|k: int| 0 <= k < 4 ==> #[trigger] lane32(z, k) == le_value(load_bytes(s_pre, st_pre, mem_arg.0.0, 4)) as u32,
                _ => false,
            }
        },
        InstructionType::V128Load64Splat(mem_arg) => {
            &&& st_post == st_pre
            &&& load_fails_early(s_pre, st_pre) ==> r is Err && s_post == s_pre
            &&& !load_fails_early(s_pre, st_pre) && !load_in_bounds(s_pre, st_pre, mem_arg.0.0, 8) ==> r is Err && s_post == s_pre.drop_last()
            &&& !load_fails_early(s_pre, st_pre) && load_in_bounds(s_pre, st_pre, mem_arg.0.0, 8) ==> r is Ok && s_post.drop_last() == s_pre.drop_last() && match s_post.last() {
                StackEntry::Value(Val::Vec(z)) => forall|k: int| 0 <= k < 2 ==> #[trigger] lane64(z, k) == le_value(load_bytes(s_pre, st_pre, mem_arg.0.0, 8)) as u64,
                _ => false,
            }
        },
        InstructionType::V128Load32Zero(mem_arg) => {
            &&& load_post(s_pre, s_post, r, st_pre, mem_arg.0.0, 4, |b: Seq<u8>| Val::Vec(le_value(b) as u128))
            &&& st_post == st_pre
        },
        InstructionType::V128Load64Zero(mem_arg) => {
            &&& load_post(s_pre, s_post, r, st_pre, mem_arg.0.0, 8, |b: Seq<u8>| Val::Vec(le_value(b) as u128))
            &&& st_post == st_pre
        },
        InstructionType::V128Load8Lane(MemArgLane(mem_arg, lane_idx)) => {
            &&& st_post == st_pre
            &&& frame_mem(s_pre) is None || frame_mem(s_pre)->0 >= st_pre.mems@.len() || !(top_value(s_pre) matches Some(Val::Vec(_))) ==> r is Err && s_post == s_pre
            &&& frame_mem(s_pre) is Some && frame_mem(s_pre)->0 < st_pre.mems@.len() && (top_value(s_pre) matches Some(Val::Vec(_))) ==> if lane_idx.0 < 16 {
                load_post(s_pre.drop_last(), s_post, r, st_pre, mem_arg.0.0, 1, |b: Seq<u8>| Val::Vec(le_value(b) as u128))
            } else {
                r is Err
            }
        },
        InstructionType::V128Load16Lane(MemArgLane(mem_arg, lane_idx)) => {
            &&& st_post == st_pre
            &&& frame_mem(s_pre) is None || frame_mem(s_pre)->0 >= st_pre.mems@.len() || !(top_value(s_pre) matches Some(Val::Vec(_))) ==> r is Err && s_post == s_pre
            &&& frame_mem(s_pre) is Some && frame_mem(s_pre)->0 < st_pre.mems@.len() && (top_value(s_pre) matches Some(Val::Vec(_))) ==> if lane_idx.0 < 8 {
                load_post(s_pre.drop_last(), s_post, r, st_pre, mem_arg.0.0, 2, |b: Seq<u8>| Val::Vec(le_value(b) as u128))
            } else {
                r is Err
            }
        },
        InstructionType::V128Load32Lane(MemArgLane(mem_arg, lane_idx)) => {
            &&& st_post == st_pre
            &&& frame_mem(s_pre) is None || frame_mem(s_pre)->0 >= st_pre.mems@.len() || !(top_value(s_pre) matches Some(Val::Vec(_))) ==> r is Err && s_post == s_pre
            &&& frame_mem(s_pre) is Some && frame_mem(s_pre)->0 < st_pre.mems@.len() && (top_value(s_pre) matches Some(Val::Vec(_))) ==> if lane_idx.0 < 4 {
                load_post(s_pre.drop_last(), s_post, r, st_pre, mem_arg.0.0, 4, |b: Seq<u8>| Val::Vec(le_value(b) as u128))
            } else {
                r is Err
            }
        },
        InstructionType::V128Load64Lane(MemArgLane(mem_arg, lane_idx)) => {
            &&& st_post == st_pre
            &&& frame_mem(s_pre) is None || frame_mem(s_pre)->0 >= st_pre.mems@.len() || !(top_value(s_pre) matches Some(Val::Vec(_))) ==> r is Err && s_post == s_pre
            &&& frame_mem(s_pre) is Some && frame_mem(s_pre)->0 < st_pre.mems@.len() && (top_value(s_pre) matches Some(Val::Vec(_))) ==> if lane_idx.0 < 2 {
                load_post(s_pre.drop_last(), s_post, r, st_pre, mem_arg.0.0, 8, |b: Seq<u8>| Val::Vec(le_value(b) as u128))
            } else {
                r is Err
            }
        },
        InstructionType::V128Store(mem_arg) => {
            &&& store_post(s_pre, s_post, r, st_pre, st_post, mem_arg.0.0, 16, match top_value(s_pre) {
                Some(Val::Vec(t)) => Some(t as nat),
                _ => None,
            })
        },
        InstructionType::I32Store(mem_arg) => {
            &&& store_post(s_pre, s_post, r, st_pre, st_post, mem_arg.0.0, 4, match top_value(s_pre) {
                Some(Val::I32(t)) => Some(t as nat),
                _ => None,
            })
        },
        InstructionType::I64Store(mem_arg) => {
            &&& store_post(s_pre, s_post, r, st_pre, st_post, mem_arg.0.0, 8, match top_value(s_pre) {
                Some(Val::I64(t)) => Some(t as nat),
                _ => None,
            })
        },
        InstructionType::F32Store(mem_arg) => {
            &&& store_post(s_pre, s_post, r, st_pre, st_post, mem_arg.0.0, 4, match top_value(s_pre) {
                Some(Val::F32(t)) => Some(t as nat),
                _ => None,
            })
        },
        InstructionType::F64Store(mem_arg) => {
            &&& store_post(s_pre, s_post, r, st_pre, st_post, mem_arg.0.0, 8, match top_value(s_pre) {
                Some(Val::F64(t)) => Some(t as nat),
                _ => None,
            })
        },
        InstructionType::I32Store8(mem_arg) => {
            &&& store_post(s_pre, s_post, r, st_pre, st_post, mem_arg.0.0, 1, match top_value(s_pre) {
                Some(Val::I32(t)) => Some(t as nat),
                _ => None,
            })
        },
        InstructionType::I64Store8(mem_arg) => {
            &&& store_post(s_pre, s_post, r, st_pre, st_post, mem_arg.0.0, 1, match top_value(s_pre) {
                Some(Val::I64(t)) => Some(t as nat),
                _ => None,
            })
        },
        InstructionType::I32Store16(mem_arg) => {
            &&& store_post(s_pre, s_post, r, st_pre, st_post, mem_arg.0.0, 2, match top_value(s_pre) {
                Some(Val::I32(t)) => Some(t as nat),
                _ => None,
            })
        },
        InstructionType::I64Store16(mem_arg) => {
            &&& store_post(s_pre, s_post, r, st_pre, st_post, mem_arg.0.0, 2, match top_value(s_pre) {
                Some(Val::I64(t)) => Some(t as nat),
                _ => None,
            })
        },
        InstructionType::I64Store32(mem_arg) => {
            &&& store_post(s_pre, s_post, r, st_pre, st_post, mem_arg.0.0, 4, match top_value(s_pre) {
                Some(Val::I64(t)) => Some(t as nat),
                _ => None,
            })
        },
        InstructionType::V128Store8Lane(arg) => {
            &&& arg.1.0 < 16 ==> store_post(s_pre, s_post, r, st_pre, st_post, arg.0.0.0, 1, match top_value(s_pre) {
                Some(Val::Vec(t)) => Some(lane8(t, arg.1.0 as int) as nat),
                _ => None,
            })
            &&& arg.1.0 >= 16 ==> r is Err && st_post == st_pre
        },
        InstructionType::V128Store16Lane(arg) => {
            &&& arg.1.0 < 8 ==> store_post(s_pre, s_post, r, st_pre, st_post, arg.0.0.0, 2, match top_value(s_pre) {
                Some(Val::Vec(t)) => Some(lane16(t, arg.1.0 as int) as nat),
                _ => None,
            })
            &&& arg.1.0 >= 8 ==> r is Err && st_post == st_pre
        },
        InstructionType::V128Store32Lane(arg) => {
            &&& arg.1.0 < 4 ==> store_post(s_pre, s_post, r, st_pre, st_post, arg.0.0.0, 4, match top_value(s_pre) {
                Some(Val::Vec(t)) => Some(lane32(t, arg.1.0 as int) as nat),
                _ => None,
            })
            &&& arg.1.0 >= 4 ==> r is Err && st_post == st_pre
        },
        InstructionType::V128Store64Lane(arg) => {
            &&& arg.1.0 < 2 ==> store_post(s_pre, s_post, r, st_pre, st_post, arg.0.0.0, 8, match top_value(s_pre) {
                Some(Val::Vec(t)) => Some(lane64(t, arg.1.0 as int) as nat),
                _ => None,
            })
            &&& arg.1.0 >= 2 ==> r is Err && st_post == st_pre
        },
        InstructionType::MemorySize => {
            &&& st_post == st_pre
            &&& match frame_mem(s_pre) {
                Some(a) => if a < st_pre.mems@.len() {
                    r is Ok && s_post == push_val(
                        s_pre,
                        Val::I32(((st_pre.mems@[a as int].data@.len() % 0x1_0000_0000) / 0x1_0000) as u32),
                    )
                } else {
                    r is Err && s_post == s_pre
                },
                None => r is Err && s_post == s_pre,
            }
        },
        InstructionType::MemoryGrow => {
            &&& match frame_mem(s_pre) {
                Some(a) => if a < st_pre.mems@.len() {
                    match top_value(s_pre) {
                        Some(Val::I32(n)) => r is Ok && s_post == push_val(s_pre.drop_last(), Val::I32(0xFFFF_FFFF))
                            && st_post.mems@.len() == st_pre.mems@.len()
                            && st_post.mems@[a as int].data@ == st_pre.mems@[a as int].data@,
                        _ => r is Err && s_post == s_pre && st_post == st_pre,
                    }
                } else {
                    r is Err && s_post == s_pre && st_post == st_pre
                },
                None => r is Err && s_post == s_pre && st_post == st_pre,
            }
        },
        InstructionType::MemoryFill => {
            &&& bulk_post(s_pre, s_post, r, st_pre, st_post, false, |m: Seq<u8>, n: int, v: int, d: int| filled(m, n, v, d), |m: Seq<u8>, n: int, s: int, d: int| true)
        },
        InstructionType::MemoryCopy => {
            &&& bulk_post(s_pre, s_post, r, st_pre, st_post, true, |m: Seq<u8>, n: int, s: int, d: int| copy_result(m, n, s, d), |m: Seq<u8>, n: int, s: int, d: int| copy_completes(m, n, s, d))
        },
        InstructionType::MemoryInit(data_idx) => {
            &&& match frame_mem(s_pre) {
                Some(a) => match frame_data_addr(s_pre, data_idx.0.0 as int) {
                    Some(da) => if a < st_pre.mems@.len() && da < st_pre.datas@.len() && st_pre.datas@[da as int] is Some {
                        let bytes = st_pre.datas@[da as int]->0.data@;
                        bulk_post(s_pre, s_post, r, st_pre, st_post, true, |m: Seq<u8>, n: int, s: int, d: int| initialized(m, bytes, n, s, d), |m: Seq<u8>, n: int, s: int, d: int| n == 0 || s + n <= bytes.len())
            
                    } else {
                        r is Err && s_post == s_pre && st_post == st_pre
                    },
                    None => r is Err && s_post == s_pre && st_post == st_pre,
                },
                None => r is Err && s_post == s_pre && st_post == st_pre,
            }
        },
        InstructionType::DataDrop(data_idx) => {
            &&& s_post == s_pre
            &&& match frame_data_addr(s_pre, data_idx.0.0 as int) {
                Some(a) => if a < st_pre.datas@.len() && st_pre.datas@[a as int] is Some {
                    r is Ok && st_post.datas@ == st_pre.datas@.update(a as int, None)
                        && st_post.funcs == st_pre.funcs && st_post.tables == st_pre.tables
                        && st_post.mems == st_pre.mems && st_post.globals == st_pre.globals
                        && st_post.elems == st_pre.elems
                } else {
                    r is Err && st_post == st_pre
                },
                None => r is Err && st_post == st_pre,
            }
        },
        _ => true,
    }
}

/// The group of plain instructions that `instr` belongs to. The plain instructions
/// run in small groups, each in a function of its own, which keeps the
/// proof of each function small.
spec fn plain_group(instr: InstructionType) -> u8 {
    match instr {
        InstructionType::I32Const(..) => 0,
        InstructionType::I64Const(..) => 0,
        InstructionType::F32Const(..) => 0,
        InstructionType::F64Const(..) => 0,
        InstructionType::V128Const(..) => 0,
        InstructionType::I32Clz => 0,
        InstructionType::I64Clz => 0,
        InstructionType::I32Ctz => 0,
        InstructionType::I64Ctz => 0,
        InstructionType::I32Popcnt => 0,
        InstructionType::I64Popcnt => 0,
        InstructionType::F32Abs => 0,
        InstructionType::F64Abs => 0,
        InstructionType::F32Neg => 0,
        InstructionType::F64Neg => 0,
        InstructionType::F32Sqrt => 0,
        InstructionType::F64Sqrt => 0,
        InstructionType::F32Ceil => 0,
        InstructionType::F64Ceil => 0,
        InstructionType::F32Floor => 0,
        InstructionType::F64Floor => 0,
        InstructionType::F32Trunc => 0,
        InstructionType::F64Trunc => 0,
        InstructionType::F32Nearest => 0,
        InstructionType::F64Nearest => 0,
        InstructionType::I32Extend8S => 1,
        InstructionType::I32Extend16S => 1,
        InstructionType::I64Extend8S => 1,
        InstructionType::I64Extend16S => 1,
        InstructionType::I64Extend32S => 1,
        InstructionType::I32Add => 1,
        InstructionType::I64Add => 1,
        InstructionType::I32Sub => 1,
        InstructionType::I64Sub => 1,
        InstructionType::I32Mul => 1,
        InstructionType::I64Mul => 1,
        InstructionType::I32DivU => 1,
        InstructionType::I32DivS => 1,
        InstructionType::I64DivU => 1,
        InstructionType::I64DivS => 1,
        InstructionType::I32RemU => 1,
        InstructionType::I32RemS => 1,
        InstructionType::I64RemU => 1,
        InstructionType::I64RemS => 1,
        InstructionType::I32And => 1,
        InstructionType::I64And => 1,
        InstructionType::I32Or => 1,
        InstructionType::I64Or => 1,
        InstructionType::I32Xor => 1,
        InstructionType::I64Xor => 1,
        InstructionType::I32Shl => 2,
        InstructionType::I64Shl => 2,
        InstructionType::I32ShrU => 2,
        InstructionType::I64ShrU => 2,
        InstructionType::I32ShrS => 2,
        InstructionType::I64ShrS => 2,
        InstructionType::I32Rotl => 2,
        InstructionType::I64Rotl => 2,
        InstructionType::I32Rotr => 2,
        InstructionType::I64Rotr => 2,
        InstructionType::F32Add => 2,
        InstructionType::F64Add => 2,
        InstructionType::F32Sub => 2,
        InstructionType::F64Sub => 2,
        InstructionType::F32Mul => 2,
        InstructionType::F64Mul => 2,
        InstructionType::F32Div => 2,
        InstructionType::F64Div => 2,
        InstructionType::F32Min => 2,
        InstructionType::F64Min => 2,
        InstructionType::F32Max => 2,
        InstructionType::F64Max => 2,
        InstructionType::F32Copysign => 2,
        InstructionType::F64Copysign => 2,
        InstructionType::I32Eqz => 2,
        InstructionType::I64Eqz => 3,
        InstructionType::I32Eq => 3,
        InstructionType::I64Eq => 3,
        InstructionType::I32Ne => 3,
        InstructionType::I64Ne => 3,
        InstructionType::I32LtS => 3,
        InstructionType::I64LtS => 3,
        InstructionType::I32LtU => 3,
        InstructionType::I64LtU => 3,
        InstructionType::I32GtS => 3,
        InstructionType::I64GtS => 3,
        InstructionType::I32GtU => 3,
        InstructionType::I64GtU => 3,
        InstructionType::I32LeS => 3,
        InstructionType::I64LeS => 3,
        InstructionType::I32LeU => 3,
        InstructionType::I64LeU => 3,
        InstructionType::I32GeS => 3,
        InstructionType::I64GeS => 3,
        InstructionType::I32GeU => 3,
        InstructionType::I64GeU => 3,
        InstructionType::F32Eq => 3,
        InstructionType::F64Eq => 3,
        InstructionType::F32Ne => 3,
        InstructionType::F64Ne => 3,
        InstructionType::F32Lt => 4,
        InstructionType::F64Lt => 4,
        InstructionType::F32Gt => 4,
        InstructionType::F64Gt => 4,
        InstructionType::F32Le => 4,
        InstructionType::F64Le => 4,
        InstructionType::F32Ge => 4,
        InstructionType::F64Ge => 4,
        InstructionType::I32WrapI64 => 4,
        InstructionType::I32TruncF32U => 4,
        InstructionType::I32TruncF64U => 4,
        InstructionType::I32TruncF32S => 4,
        InstructionType::I32TruncF64S => 4,
        InstructionType::I64TruncF32U => 4,
        InstructionType::I64TruncF64U => 4,
        InstructionType::I64TruncF32S => 4,
        InstructionType::I64TruncF64S => 4,
        InstructionType::I32TruncSatF32U => 4,
        InstructionType::I32TruncSatF64U => 4,
        InstructionType::I32TruncSatF32S => 4,
        InstructionType::I32TruncSatF64S => 4,
        InstructionType::I64TruncSatF32U => 4,
        InstructionType::I64TruncSatF64U => 4,
        InstructionType::I64TruncSatF32S => 4,
        InstructionType::I64TruncSatF64S => 4,
        InstructionType::F32ConvertI32S => 5,
        InstructionType::F32ConvertI32U => 5,
        InstructionType::F32ConvertI64S => 5,
        InstructionType::F32ConvertI64U => 5,
        InstructionType::F64ConvertI32S => 5,
        InstructionType::F64ConvertI32U => 5,
        InstructionType::F64ConvertI64S => 5,
        InstructionType::F64ConvertI64U => 5,
        InstructionType::F32DemoteF64 => 5,
        InstructionType::F64PromoteF32 => 5,
        InstructionType::F32ReinterpretI32 => 5,
        InstructionType::F64ReinterpretI64 => 5,
        InstructionType::I32ReinterpretF32 => 5,
        InstructionType::I64ReinterpretF64 => 5,
        InstructionType::I64ExtendI32S => 5,
        InstructionType::I64ExtendI32U => 5,
        InstructionType::RefNull(..) => 5,
        InstructionType::RefIsNull => 5,
        InstructionType::RefFunc(..) => 5,
        InstructionType::V128Not => 5,
        InstructionType::V128And => 5,
        InstructionType::V128AndNot => 5,
        InstructionType::V128Or => 5,
        InstructionType::V128Xor => 5,
        InstructionType::V128Bitselect => 5,
        InstructionType::V128AnyTrue => 6,
        InstructionType::I8x16Swizzle => 6,
        InstructionType::I8x16Shuffle(..) => 6,
        InstructionType::I8x16Splat => 6,
        InstructionType::I16x8Splat => 6,
        InstructionType::I32x4Splat => 6,
        InstructionType::I64x2Splat => 6,
        InstructionType::F32x4Splat => 6,
        InstructionType::F64x2Splat => 6,
        InstructionType::I8x16ExtractLaneS(..) => 6,
        InstructionType::I8x16ExtractLaneU(..) => 6,
        InstructionType::I16x8ExtractLaneS(..) => 6,
        InstructionType::I16x8ExtractLaneU(..) => 6,
        InstructionType::I32x4ExtractLane(..) => 6,
        InstructionType::I64x2ExtractLane(..) => 6,
        InstructionType::F32x4ExtractLane(..) => 6,
        InstructionType::F64x2ExtractLane(..) => 6,
        InstructionType::I8x16ReplaceLane(..) => 6,
        InstructionType::I16x8ReplaceLane(..) => 6,
        InstructionType::I32x4ReplaceLane(..) => 6,
        InstructionType::I64x2ReplaceLane(..) => 6,
        InstructionType::F32x4ReplaceLane(..) => 6,
        InstructionType::F64x2ReplaceLane(..) => 6,
        InstructionType::I8x16Abs => 6,
        InstructionType::I16x8Abs => 6,
        InstructionType::I32x4Abs => 7,
        InstructionType::I64x2Abs => 7,
        InstructionType::F32x4Abs => 7,
        InstructionType::F64x2Abs => 7,
        InstructionType::I8x16Neg => 7,
        InstructionType::I16x8Neg => 7,
        InstructionType::I32x4Neg => 7,
        InstructionType::I64x2Neg => 7,
        InstructionType::F32x4Neg => 7,
        InstructionType::F64x2Neg => 7,
        InstructionType::F32x4Sqrt => 7,
        InstructionType::F64x2Sqrt => 7,
        InstructionType::F32x4Ceil => 7,
        InstructionType::F64x2Ceil => 7,
        InstructionType::F32x4Floor => 7,
        InstructionType::F64x2Floor => 7,
        InstructionType::F32x4Trunc => 7,
        InstructionType::F64x2Trunc => 7,
        InstructionType::F32x4Nearest => 7,
        InstructionType::F64x2Nearest => 7,
        InstructionType::I8x16Popcnt => 7,
        InstructionType::I8x16Add => 7,
        InstructionType::I16x8Add => 7,
        InstructionType::I32x4Add => 7,
        InstructionType::I64x2Add => 7,
        InstructionType::I8x16Sub => 8,
        InstructionType::I16x8Sub => 8,
        InstructionType::I32x4Sub => 8,
        InstructionType::I64x2Sub => 8,
        InstructionType::F32x4Add => 8,
        InstructionType::F64x2Add => 8,
        InstructionType::F32x4Sub => 8,
        InstructionType::F64x2Sub => 8,
        InstructionType::I16x8Mul => 8,
        InstructionType::I32x4Mul => 8,
        InstructionType::I64x2Mul => 8,
        InstructionType::F32x4Mul => 8,
        InstructionType::F64x2Mul => 8,
        InstructionType::F32x4Div => 8,
        InstructionType::F64x2Div => 8,
        InstructionType::F32x4Min => 8,
        InstructionType::F64x2Min => 8,
        InstructionType::F32x4Max => 8,
        InstructionType::F64x2Max => 8,
        InstructionType::F32x4Pmin => 8,
        InstructionType::F64x2Pmin => 8,
        InstructionType::F32x4Pmax => 8,
        InstructionType::F64x2Pmax => 8,
        InstructionType::I8x16MinU => 8,
        InstructionType::I8x16MinS => 8,
        InstructionType::I16x8MinU => 9,
        InstructionType::I16x8MinS => 9,
        InstructionType::I32x4MinU => 9,
        InstructionType::I32x4MinS => 9,
        InstructionType::I8x16MaxU => 9,
        InstructionType::I8x16MaxS => 9,
        InstructionType::I16x8MaxU => 9,
        InstructionType::I16x8MaxS => 9,
        InstructionType::I32x4MaxU => 9,
        InstructionType::I32x4MaxS => 9,
        InstructionType::I8x16AddSatU => 9,
        InstructionType::I16x8AddSatU => 9,
        InstructionType::I8x16AddSatS => 9,
        InstructionType::I16x8AddSatS => 9,
        InstructionType::I8x16SubSatU => 9,
        InstructionType::I16x8SubSatU => 9,
        InstructionType::I8x16SubSatS => 9,
        InstructionType::I16x8SubSatS => 9,
        InstructionType::I8x16AvgrU => 9,
        InstructionType::I16x8AvgrU => 9,
        InstructionType::I16x8Q15MulrSatS => 9,
        InstructionType::I8x16Eq => 9,
        InstructionType::I16x8Eq => 9,
        InstructionType::I32x4Eq => 9,
        InstructionType::I64x2Eq => 9,
        InstructionType::I8x16Ne => 10,
        InstructionType::I16x8Ne => 10,
        InstructionType::I32x4Ne => 10,
        InstructionType::I64x2Ne => 10,
        InstructionType::I8x16LtU => 10,
        InstructionType::I16x8LtU => 10,
        InstructionType::I32x4LtU => 10,
        InstructionType::I8x16LtS => 10,
        InstructionType::I16x8LtS => 10,
        InstructionType::I32x4LtS => 10,
        InstructionType::I64x2LtS => 10,
        InstructionType::I8x16GtU => 10,
        InstructionType::I16x8GtU => 10,
        InstructionType::I32x4GtU => 10,
        InstructionType::I8x16GtS => 10,
        InstructionType::I16x8GtS => 10,
        InstructionType::I32x4GtS => 10,
        InstructionType::I64x2GtS => 10,
        InstructionType::I8x16LeU => 10,
        InstructionType::I16x8LeU => 10,
        InstructionType::I32x4LeU => 10,
        InstructionType::I8x16LeS => 10,
        InstructionType::I16x8LeS => 10,
        InstructionType::I32x4LeS => 10,
        InstructionType::I64x2LeS => 10,
        InstructionType::I8x16GeU => 11,
        InstructionType::I16x8GeU => 11,
        InstructionType::I32x4GeU => 11,
        InstructionType::I8x16GeS => 11,
        InstructionType::I16x8GeS => 11,
        InstructionType::I32x4GeS => 11,
        InstructionType::I64x2GeS => 11,
        InstructionType::F32x4Eq => 11,
        InstructionType::F64x2Eq => 11,
        InstructionType::F32x4Ne => 11,
        InstructionType::F64x2Ne => 11,
        InstructionType::F32x4Lt => 11,
        InstructionType::F64x2Lt => 11,
        InstructionType::F32x4Gt => 11,
        InstructionType::F64x2Gt => 11,
        InstructionType::F32x4Le => 11,
        InstructionType::F64x2Le => 11,
        InstructionType::F32x4Ge => 11,
        InstructionType::F64x2Ge => 11,
        InstructionType::I8x16Shl => 11,
        InstructionType::I16x8Shl => 11,
        InstructionType::I32x4Shl => 11,
        InstructionType::I64x2Shl => 11,
        InstructionType::I8x16ShrU => 11,
        InstructionType::I16x8ShrU => 11,
        InstructionType::I32x4ShrU => 12,
        InstructionType::I64x2ShrU => 12,
        InstructionType::I8x16ShrS => 12,
        InstructionType::I16x8ShrS => 12,
        InstructionType::I32x4ShrS => 12,
        InstructionType::I64x2ShrS => 12,
        InstructionType::I8x16AllTrue => 12,
        InstructionType::I16x8AllTrue => 12,
        InstructionType::I32x4AllTrue => 12,
        InstructionType::I64x2AllTrue => 12,
        InstructionType::I8x16Bitmask => 12,
        InstructionType::I16x8Bitmask => 12,
        InstructionType::I32x4Bitmask => 12,
        InstructionType::I64x2Bitmask => 12,
        InstructionType::I8x16NarrowI16x8U => 12,
        InstructionType::I8x16NarrowI16x8S => 12,
        InstructionType::I16x8NarrowI32x4U => 12,
        InstructionType::I16x8NarrowI32x4S => 12,
        InstructionType::I32x4TruncSatF32x4S => 12,
        InstructionType::I32x4TruncSatF32x4U => 12,
        InstructionType::F32x4ConvertI32x4S => 12,
        InstructionType::F32x4ConvertI32x4U => 12,
        InstructionType::I16x8ExtendLowI8x16U => 12,
        InstructionType::I16x8ExtendLowI8x16S => 12,
        InstructionType::I16x8ExtendHighI8x16U => 12,
        InstructionType::I16x8ExtendHighI8x16S => 13,
        InstructionType::I32x4ExtendLowI16x8U => 13,
        InstructionType::I32x4ExtendLowI16x8S => 13,
        InstructionType::I32x4ExtendHighI16x8U => 13,
        InstructionType::I32x4ExtendHighI16x8S => 13,
        InstructionType::I64x2ExtendLowI32x4U => 14,
        InstructionType::I64x2ExtendLowI32x4S => 14,
        InstructionType::I64x2ExtendHighI32x4U => 14,
        InstructionType::I64x2ExtendHighI32x4S => 14,
        InstructionType::F64x2ConvertLowI32x4U => 14,
        InstructionType::F64x2ConvertLowI32x4S => 15,
        InstructionType::F64x2PromoteLowF32x4 => 15,
        InstructionType::I32x4TruncSatF64x2UZero => 15,
        InstructionType::I32x4TruncSatF64x2SZero => 15,
        InstructionType::F32x4DemoteF64x2Zero => 15,
        InstructionType::I32x4DotI16x8S => 16,
        InstructionType::I16x8ExtmulLowI8x16U => 16,
        InstructionType::I16x8ExtmulLowI8x16S => 16,
        InstructionType::I16x8ExtmulHighI8x16U => 16,
        InstructionType::I16x8ExtmulHighI8x16S => 16,
        InstructionType::I32x4ExtmulLowI16x8U => 17,
        InstructionType::I32x4ExtmulLowI16x8S => 17,
        InstructionType::I32x4ExtmulHighI16x8U => 17,
        InstructionType::I32x4ExtmulHighI16x8S => 17,
        InstructionType::I64x2ExtmulLowI32x4U => 17,
        InstructionType::I64x2ExtmulLowI32x4S => 18,
        InstructionType::I64x2ExtmulHighI32x4U => 18,
        InstructionType::I64x2ExtmulHighI32x4S => 18,
        InstructionType::I16x8ExtaddPairwiseI8x16U => 18,
        InstructionType::I16x8ExtaddPairwiseI8x16S => 18,
        InstructionType::I32x4ExtaddPairwiseI16x8U => 18,
        InstructionType::I32x4ExtaddPairwiseI16x8S => 18,
        InstructionType::Drop => 18,
        InstructionType::Select => 18,
        InstructionType::SelectVec(..) => 18,
        InstructionType::LocalGet(..) => 18,
        InstructionType::LocalSet(..) => 18,
        InstructionType::LocalTee(..) => 18,
        InstructionType::GlobalGet(..) => 18,
        InstructionType::GlobalSet(..) => 18,
        InstructionType::TableGet(..) => 18,
        InstructionType::TableSet(..) => 18,
        InstructionType::TableSize(..) => 18,
        InstructionType::TableGrow(..) => 18,
        InstructionType::TableFill(..) => 18,
        InstructionType::TableCopy(..) => 18,
        InstructionType::TableInit(..) => 18,
        InstructionType::ElemDrop(..) => 18,
        InstructionType::I32Load(..) => 18,
        InstructionType::I64Load(..) => 18,
        InstructionType::F32Load(..) => 19,
        InstructionType::F64Load(..) => 19,
        InstructionType::V128Load(..) => 19,
        InstructionType::I32Load8U(..) => 19,
        InstructionType::I32Load8S(..) => 19,
        InstructionType::I32Load16U(..) => 19,
        InstructionType::I32Load16S(..) => 19,
        InstructionType::I64Load8U(..) => 19,
        InstructionType::I64Load8S(..) => 19,
        InstructionType::I64Load16U(..) => 19,
        InstructionType::I64Load16S(..) => 19,
        InstructionType::I64Load32U(..) => 19,
        InstructionType::I64Load32S(..) => 19,
        InstructionType::V128Load8x8U(..) => 19,
        InstructionType::V128Load8x8S(..) => 19,
        InstructionType::V128Load16x4U(..) => 19,
        InstructionType::V128Load16x4S(..) => 19,
        InstructionType::V128Load32x2U(..) => 19,
        InstructionType::V128Load32x2S(..) => 19,
        InstructionType::V128Load8Splat(..) => 19,
        InstructionType::V128Load16Splat(..) => 19,
        InstructionType::V128Load32Splat(..) => 19,
        InstructionType::V128Load64Splat(..) => 19,
        InstructionType::V128Load32Zero(..) => 19,
        InstructionType::V128Load64Zero(..) => 19,
        InstructionType::V128Load8Lane(..) => 20,
        InstructionType::V128Load16Lane(..) => 20,
        InstructionType::V128Load32Lane(..) => 20,
        InstructionType::V128Load64Lane(..) => 20,
        InstructionType::V128Store(..) => 20,
        InstructionType::I32Store(..) => 20,
        InstructionType::I64Store(..) => 20,
        InstructionType::F32Store(..) => 20,
        InstructionType::F64Store(..) => 20,
        InstructionType::I32Store8(..) => 20,
        InstructionType::I64Store8(..) => 20,
        InstructionType::I32Store16(..) => 20,
        InstructionType::I64Store16(..) => 20,
        InstructionType::I64Store32(..) => 20,
        InstructionType::V128Store8Lane(..) => 20,
        InstructionType::V128Store16Lane(..) => 20,
        InstructionType::V128Store32Lane(..) => 20,
        InstructionType::V128Store64Lane(..) => 20,
        InstructionType::MemorySize => 20,
        InstructionType::MemoryGrow => 20,
        InstructionType::MemoryFill => 20,
        InstructionType::MemoryCopy => 20,
        InstructionType::MemoryInit(..) => 20,
        InstructionType::DataDrop(..) => 20,
        _ => 20,
    }
}

fn plain_group_of(instr: &InstructionType) -> (g: u8)
    ensures
        g == plain_group(*instr),
{
    match instr {
        InstructionType::I32Const(..) => 0,
        InstructionType::I64Const(..) => 0,
        InstructionType::F32Const(..) => 0,
        InstructionType::F64Const(..) => 0,
        InstructionType::V128Const(..) => 0,
        InstructionType::I32Clz => 0,
        InstructionType::I64Clz => 0,
        InstructionType::I32Ctz => 0,
        InstructionType::I64Ctz => 0,
        InstructionType::I32Popcnt => 0,
        InstructionType::I64Popcnt => 0,
        InstructionType::F32Abs => 0,
        InstructionType::F64Abs => 0,
        InstructionType::F32Neg => 0,
        InstructionType::F64Neg => 0,
        InstructionType::F32Sqrt => 0,
        InstructionType::F64Sqrt => 0,
        InstructionType::F32Ceil => 0,
        InstructionType::F64Ceil => 0,
        InstructionType::F32Floor => 0,
        InstructionType::F64Floor => 0,
        InstructionType::F32Trunc => 0,
        InstructionType::F64Trunc => 0,
        InstructionType::F32Nearest => 0,
        InstructionType::F64Nearest => 0,
        InstructionType::I32Extend8S => 1,
        InstructionType::I32Extend16S => 1,
        InstructionType::I64Extend8S => 1,
        InstructionType::I64Extend16S => 1,
        InstructionType::I64Extend32S => 1,
        InstructionType::I32Add => 1,
        InstructionType::I64Add => 1,
        InstructionType::I32Sub => 1,
        InstructionType::I64Sub => 1,
        InstructionType::I32Mul => 1,
        InstructionType::I64Mul => 1,
        InstructionType::I32DivU => 1,
        InstructionType::I32DivS => 1,
        InstructionType::I64DivU => 1,
        InstructionType::I64DivS => 1,
        InstructionType::I32RemU => 1,
        InstructionType::I32RemS => 1,
        InstructionType::I64RemU => 1,
        InstructionType::I64RemS => 1,
        InstructionType::I32And => 1,
        InstructionType::I64And => 1,
        InstructionType::I32Or => 1,
        InstructionType::I64Or => 1,
        InstructionType::I32Xor => 1,
        InstructionType::I64Xor => 1,
        InstructionType::I32Shl => 2,
        InstructionType::I64Shl => 2,
        InstructionType::I32ShrU => 2,
        InstructionType::I64ShrU => 2,
        InstructionType::I32ShrS => 2,
        InstructionType::I64ShrS => 2,
        InstructionType::I32Rotl => 2,
        InstructionType::I64Rotl => 2,
        InstructionType::I32Rotr => 2,
        InstructionType::I64Rotr => 2,
        InstructionType::F32Add => 2,
        InstructionType::F64Add => 2,
        InstructionType::F32Sub => 2,
        InstructionType::F64Sub => 2,
        InstructionType::F32Mul => 2,
        InstructionType::F64Mul => 2,
        InstructionType::F32Div => 2,
        InstructionType::F64Div => 2,
        InstructionType::F32Min => 2,
        InstructionType::F64Min => 2,
        InstructionType::F32Max => 2,
        InstructionType::F64Max => 2,
        InstructionType::F32Copysign => 2,
        InstructionType::F64Copysign => 2,
        InstructionType::I32Eqz => 2,
        InstructionType::I64Eqz => 3,
        InstructionType::I32Eq => 3,
        InstructionType::I64Eq => 3,
        InstructionType::I32Ne => 3,
        InstructionType::I64Ne => 3,
        InstructionType::I32LtS => 3,
        InstructionType::I64LtS => 3,
        InstructionType::I32LtU => 3,
        InstructionType::I64LtU => 3,
        InstructionType::I32GtS => 3,
        InstructionType::I64GtS => 3,
        InstructionType::I32GtU => 3,
        InstructionType::I64GtU => 3,
        InstructionType::I32LeS => 3,
        InstructionType::I64LeS => 3,
        InstructionType::I32LeU => 3,
        InstructionType::I64LeU => 3,
        InstructionType::I32GeS => 3,
        InstructionType::I64GeS => 3,
        InstructionType::I32GeU => 3,
        InstructionType::I64GeU => 3,
        InstructionType::F32Eq => 3,
        InstructionType::F64Eq => 3,
        InstructionType::F32Ne => 3,
        InstructionType::F64Ne => 3,
        InstructionType::F32Lt => 4,
        InstructionType::F64Lt => 4,
        InstructionType::F32Gt => 4,
        InstructionType::F64Gt => 4,
        InstructionType::F32Le => 4,
        InstructionType::F64Le => 4,
        InstructionType::F32Ge => 4,
        InstructionType::F64Ge => 4,
        InstructionType::I32WrapI64 => 4,
        InstructionType::I32TruncF32U => 4,
        InstructionType::I32TruncF64U => 4,
        InstructionType::I32TruncF32S => 4,
        InstructionType::I32TruncF64S => 4,
        InstructionType::I64TruncF32U => 4,
        InstructionType::I64TruncF64U => 4,
        InstructionType::I64TruncF32S => 4,
        InstructionType::I64TruncF64S => 4,
        InstructionType::I32TruncSatF32U => 4,
        InstructionType::I32TruncSatF64U => 4,
        InstructionType::I32TruncSatF32S => 4,
        InstructionType::I32TruncSatF64S => 4,
        InstructionType::I64TruncSatF32U => 4,
        InstructionType::I64TruncSatF64U => 4,
        InstructionType::I64TruncSatF32S => 4,
        InstructionType::I64TruncSatF64S => 4,
        InstructionType::F32ConvertI32S => 5,
        InstructionType::F32ConvertI32U => 5,
        InstructionType::F32ConvertI64S => 5,
        InstructionType::F32ConvertI64U => 5,
        InstructionType::F64ConvertI32S => 5,
        InstructionType::F64ConvertI32U => 5,
        InstructionType::F64ConvertI64S => 5,
        InstructionType::F64ConvertI64U => 5,
        InstructionType::F32DemoteF64 => 5,
        InstructionType::F64PromoteF32 => 5,
        InstructionType::F32ReinterpretI32 => 5,
        InstructionType::F64ReinterpretI64 => 5,
        InstructionType::I32ReinterpretF32 => 5,
        InstructionType::I64ReinterpretF64 => 5,
        InstructionType::I64ExtendI32S => 5,
        InstructionType::I64ExtendI32U => 5,
        InstructionType::RefNull(..) => 5,
        InstructionType::RefIsNull => 5,
        InstructionType::RefFunc(..) => 5,
        InstructionType::V128Not => 5,
        InstructionType::V128And => 5,
        InstructionType::V128AndNot => 5,
        InstructionType::V128Or => 5,
        InstructionType::V128Xor => 5,
        InstructionType::V128Bitselect => 5,
        InstructionType::V128AnyTrue => 6,
        InstructionType::I8x16Swizzle => 6,
        InstructionType::I8x16Shuffle(..) => 6,
        InstructionType::I8x16Splat => 6,
        InstructionType::I16x8Splat => 6,
        InstructionType::I32x4Splat => 6,
        InstructionType::I64x2Splat => 6,
        InstructionType::F32x4Splat => 6,
        InstructionType::F64x2Splat => 6,
        InstructionType::I8x16ExtractLaneS(..) => 6,
        InstructionType::I8x16ExtractLaneU(..) => 6,
        InstructionType::I16x8ExtractLaneS(..) => 6,
        InstructionType::I16x8ExtractLaneU(..) => 6,
        InstructionType::I32x4ExtractLane(..) => 6,
        InstructionType::I64x2ExtractLane(..) => 6,
        InstructionType::F32x4ExtractLane(..) => 6,
        InstructionType::F64x2ExtractLane(..) => 6,
        InstructionType::I8x16ReplaceLane(..) => 6,
        InstructionType::I16x8ReplaceLane(..) => 6,
        InstructionType::I32x4ReplaceLane(..) => 6,
        InstructionType::I64x2ReplaceLane(..) => 6,
        InstructionType::F32x4ReplaceLane(..) => 6,
        InstructionType::F64x2ReplaceLane(..) => 6,
        InstructionType::I8x16Abs => 6,
        InstructionType::I16x8Abs => 6,
        InstructionType::I32x4Abs => 7,
        InstructionType::I64x2Abs => 7,
        InstructionType::F32x4Abs => 7,
        InstructionType::F64x2Abs => 7,
        InstructionType::I8x16Neg => 7,
        InstructionType::I16x8Neg => 7,
        InstructionType::I32x4Neg => 7,
        InstructionType::I64x2Neg => 7,
        InstructionType::F32x4Neg => 7,
        InstructionType::F64x2Neg => 7,
        InstructionType::F32x4Sqrt => 7,
        InstructionType::F64x2Sqrt => 7,
        InstructionType::F32x4Ceil => 7,
        InstructionType::F64x2Ceil => 7,
        InstructionType::F32x4Floor => 7,
        InstructionType::F64x2Floor => 7,
        InstructionType::F32x4Trunc => 7,
        InstructionType::F64x2Trunc => 7,
        InstructionType::F32x4Nearest => 7,
        InstructionType::F64x2Nearest => 7,
        InstructionType::I8x16Popcnt => 7,
        InstructionType::I8x16Add => 7,
        InstructionType::I16x8Add => 7,
        InstructionType::I32x4Add => 7,
        InstructionType::I64x2Add => 7,
        InstructionType::I8x16Sub => 8,
        InstructionType::I16x8Sub => 8,
        InstructionType::I32x4Sub => 8,
        InstructionType::I64x2Sub => 8,
        InstructionType::F32x4Add => 8,
        InstructionType::F64x2Add => 8,
        InstructionType::F32x4Sub => 8,
        InstructionType::F64x2Sub => 8,
        InstructionType::I16x8Mul => 8,
        InstructionType::I32x4Mul => 8,
        InstructionType::I64x2Mul => 8,
        InstructionType::F32x4Mul => 8,
        InstructionType::F64x2Mul => 8,
        InstructionType::F32x4Div => 8,
        InstructionType::F64x2Div => 8,
        InstructionType::F32x4Min => 8,
        InstructionType::F64x2Min => 8,
        InstructionType::F32x4Max => 8,
        InstructionType::F64x2Max => 8,
        InstructionType::F32x4Pmin => 8,
        InstructionType::F64x2Pmin => 8,
        InstructionType::F32x4Pmax => 8,
        InstructionType::F64x2Pmax => 8,
        InstructionType::I8x16MinU => 8,
        InstructionType::I8x16MinS => 8,
        InstructionType::I16x8MinU => 9,
        InstructionType::I16x8MinS => 9,
        InstructionType::I32x4MinU => 9,
        InstructionType::I32x4MinS => 9,
        InstructionType::I8x16MaxU => 9,
        InstructionType::I8x16MaxS => 9,
        InstructionType::I16x8MaxU => 9,
        InstructionType::I16x8MaxS => 9,
        InstructionType::I32x4MaxU => 9,
        InstructionType::I32x4MaxS => 9,
        InstructionType::I8x16AddSatU => 9,
        InstructionType::I16x8AddSatU => 9,
        InstructionType::I8x16AddSatS => 9,
        InstructionType::I16x8AddSatS => 9,
        InstructionType::I8x16SubSatU => 9,
        InstructionType::I16x8SubSatU => 9,
        InstructionType::I8x16SubSatS => 9,
        InstructionType::I16x8SubSatS => 9,
        InstructionType::I8x16AvgrU => 9,
        InstructionType::I16x8AvgrU => 9,
        InstructionType::I16x8Q15MulrSatS => 9,
        InstructionType::I8x16Eq => 9,
        InstructionType::I16x8Eq => 9,
        InstructionType::I32x4Eq => 9,
        InstructionType::I64x2Eq => 9,
        InstructionType::I8x16Ne => 10,
        InstructionType::I16x8Ne => 10,
        InstructionType::I32x4Ne => 10,
        InstructionType::I64x2Ne => 10,
        InstructionType::I8x16LtU => 10,
        InstructionType::I16x8LtU => 10,
        InstructionType::I32x4LtU => 10,
        InstructionType::I8x16LtS => 10,
        InstructionType::I16x8LtS => 10,
        InstructionType::I32x4LtS => 10,
        InstructionType::I64x2LtS => 10,
        InstructionType::I8x16GtU => 10,
        InstructionType::I16x8GtU => 10,
        InstructionType::I32x4GtU => 10,
        InstructionType::I8x16GtS => 10,
        InstructionType::I16x8GtS => 10,
        InstructionType::I32x4GtS => 10,
        InstructionType::I64x2GtS => 10,
        InstructionType::I8x16LeU => 10,
        InstructionType::I16x8LeU => 10,
        InstructionType::I32x4LeU => 10,
        InstructionType::I8x16LeS => 10,
        InstructionType::I16x8LeS => 10,
        InstructionType::I32x4LeS => 10,
        InstructionType::I64x2LeS => 10,
        InstructionType::I8x16GeU => 11,
        InstructionType::I16x8GeU => 11,
        InstructionType::I32x4GeU => 11,
        InstructionType::I8x16GeS => 11,
        InstructionType::I16x8GeS => 11,
        InstructionType::I32x4GeS => 11,
        InstructionType::I64x2GeS => 11,
        InstructionType::F32x4Eq => 11,
        InstructionType::F64x2Eq => 11,
        InstructionType::F32x4Ne => 11,
        InstructionType::F64x2Ne => 11,
        InstructionType::F32x4Lt => 11,
        InstructionType::F64x2Lt => 11,
        InstructionType::F32x4Gt => 11,
        InstructionType::F64x2Gt => 11,
        InstructionType::F32x4Le => 11,
        InstructionType::F64x2Le => 11,
        InstructionType::F32x4Ge => 11,
        InstructionType::F64x2Ge => 11,
        InstructionType::I8x16Shl => 11,
        InstructionType::I16x8Shl => 11,
        InstructionType::I32x4Shl => 11,
        InstructionType::I64x2Shl => 11,
        InstructionType::I8x16ShrU => 11,
        InstructionType::I16x8ShrU => 11,
        InstructionType::I32x4ShrU => 12,
        InstructionType::I64x2ShrU => 12,
        InstructionType::I8x16ShrS => 12,
        InstructionType::I16x8ShrS => 12,
        InstructionType::I32x4ShrS => 12,
        InstructionType::I64x2ShrS => 12,
        InstructionType::I8x16AllTrue => 12,
        InstructionType::I16x8AllTrue => 12,
        InstructionType::I32x4AllTrue => 12,
        InstructionType::I64x2AllTrue => 12,
        InstructionType::I8x16Bitmask => 12,
        InstructionType::I16x8Bitmask => 12,
        InstructionType::I32x4Bitmask => 12,
        InstructionType::I64x2Bitmask => 12,
        InstructionType::I8x16NarrowI16x8U => 12,
        InstructionType::I8x16NarrowI16x8S => 12,
        InstructionType::I16x8NarrowI32x4U => 12,
        InstructionType::I16x8NarrowI32x4S => 12,
        InstructionType::I32x4TruncSatF32x4S => 12,
        InstructionType::I32x4TruncSatF32x4U => 12,
        InstructionType::F32x4ConvertI32x4S => 12,
        InstructionType::F32x4ConvertI32x4U => 12,
        InstructionType::I16x8ExtendLowI8x16U => 12,
        InstructionType::I16x8ExtendLowI8x16S => 12,
        InstructionType::I16x8ExtendHighI8x16U => 12,
        InstructionType::I16x8ExtendHighI8x16S => 13,
        InstructionType::I32x4ExtendLowI16x8U => 13,
        InstructionType::I32x4ExtendLowI16x8S => 13,
        InstructionType::I32x4ExtendHighI16x8U => 13,
        InstructionType::I32x4ExtendHighI16x8S => 13,
        InstructionType::I64x2ExtendLowI32x4U => 14,
        InstructionType::I64x2ExtendLowI32x4S => 14,
        InstructionType::I64x2ExtendHighI32x4U => 14,
        InstructionType::I64x2ExtendHighI32x4S => 14,
        InstructionType::F64x2ConvertLowI32x4U => 14,
        InstructionType::F64x2ConvertLowI32x4S => 15,
        InstructionType::F64x2PromoteLowF32x4 => 15,
        InstructionType::I32x4TruncSatF64x2UZero => 15,
        InstructionType::I32x4TruncSatF64x2SZero => 15,
        InstructionType::F32x4DemoteF64x2Zero => 15,
        InstructionType::I32x4DotI16x8S => 16,
        InstructionType::I16x8ExtmulLowI8x16U => 16,
        InstructionType::I16x8ExtmulLowI8x16S => 16,
        InstructionType::I16x8ExtmulHighI8x16U => 16,
        InstructionType::I16x8ExtmulHighI8x16S => 16,
        InstructionType::I32x4ExtmulLowI16x8U => 17,
        InstructionType::I32x4ExtmulLowI16x8S => 17,
        InstructionType::I32x4ExtmulHighI16x8U => 17,
        InstructionType::I32x4ExtmulHighI16x8S => 17,
        InstructionType::I64x2ExtmulLowI32x4U => 17,
        InstructionType::I64x2ExtmulLowI32x4S => 18,
        InstructionType::I64x2ExtmulHighI32x4U => 18,
        InstructionType::I64x2ExtmulHighI32x4S => 18,
        InstructionType::I16x8ExtaddPairwiseI8x16U => 18,
        InstructionType::I16x8ExtaddPairwiseI8x16S => 18,
        InstructionType::I32x4ExtaddPairwiseI16x8U => 18,
        InstructionType::I32x4ExtaddPairwiseI16x8S => 18,
        InstructionType::Drop => 18,
        InstructionType::Select => 18,
        InstructionType::SelectVec(..) => 18,
        InstructionType::LocalGet(..) => 18,
        InstructionType::LocalSet(..) => 18,
        InstructionType::LocalTee(..) => 18,
        InstructionType::GlobalGet(..) => 18,
        InstructionType::GlobalSet(..) => 18,
        InstructionType::TableGet(..) => 18,
        InstructionType::TableSet(..) => 18,
        InstructionType::TableSize(..) => 18,
        InstructionType::TableGrow(..) => 18,
        InstructionType::TableFill(..) => 18,
        InstructionType::TableCopy(..) => 18,
        InstructionType::TableInit(..) => 18,
        InstructionType::ElemDrop(..) => 18,
        InstructionType::I32Load(..) => 18,
        InstructionType::I64Load(..) => 18,
        InstructionType::F32Load(..) => 19,
        InstructionType::F64Load(..) => 19,
        InstructionType::V128Load(..) => 19,
        InstructionType::I32Load8U(..) => 19,
        InstructionType::I32Load8S(..) => 19,
        InstructionType::I32Load16U(..) => 19,
        InstructionType::I32Load16S(..) => 19,
        InstructionType::I64Load8U(..) => 19,
        InstructionType::I64Load8S(..) => 19,
        InstructionType::I64Load16U(..) => 19,
        InstructionType::I64Load16S(..) => 19,
        InstructionType::I64Load32U(..) => 19,
        InstructionType::I64Load32S(..) => 19,
        InstructionType::V128Load8x8U(..) => 19,
        InstructionType::V128Load8x8S(..) => 19,
        InstructionType::V128Load16x4U(..) => 19,
        InstructionType::V128Load16x4S(..) => 19,
        InstructionType::V128Load32x2U(..) => 19,
        InstructionType::V128Load32x2S(..) => 19,
        InstructionType::V128Load8Splat(..) => 19,
        InstructionType::V128Load16Splat(..) => 19,
        InstructionType::V128Load32Splat(..) => 19,
        InstructionType::V128Load64Splat(..) => 19,
        InstructionType::V128Load32Zero(..) => 19,
        InstructionType::V128Load64Zero(..) => 19,
        InstructionType::V128Load8Lane(..) => 20,
        InstructionType::V128Load16Lane(..) => 20,
        InstructionType::V128Load32Lane(..) => 20,
        InstructionType::V128Load64Lane(..) => 20,
        InstructionType::V128Store(..) => 20,
        InstructionType::I32Store(..) => 20,
        InstructionType::I64Store(..) => 20,
        InstructionType::F32Store(..) => 20,
        InstructionType::F64Store(..) => 20,
        InstructionType::I32Store8(..) => 20,
        InstructionType::I64Store8(..) => 20,
        InstructionType::I32Store16(..) => 20,
        InstructionType::I64Store16(..) => 20,
        InstructionType::I64Store32(..) => 20,
        InstructionType::V128Store8Lane(..) => 20,
        InstructionType::V128Store16Lane(..) => 20,
        InstructionType::V128Store32Lane(..) => 20,
        InstructionType::V128Store64Lane(..) => 20,
        InstructionType::MemorySize => 20,
        InstructionType::MemoryGrow => 20,
        InstructionType::MemoryFill => 20,
        InstructionType::MemoryCopy => 20,
        InstructionType::MemoryInit(..) => 20,
        InstructionType::DataDrop(..) => 20,
        _ => 20,
    }
}

/// Runs a plain instruction of group 0.
#[verifier::rlimit(50)]
fn exec_plain_0<F: FloatOps>(instr: &InstructionType, stack: &mut Stack, store: &mut Store, floats: &F) -> (r:
    RResult<()>)
    requires
        plain_group(*instr) == 0,
    ensures
        plain_post(*instr, old(stack)@, final(stack)@, *old(store), *final(store), r),
{
    match instr {
        InstructionType::I32Const(I32Type(num_val)) => i32_const(num_val, stack)?,
        InstructionType::I64Const(I64Type(num_val)) => i64_const(num_val, stack)?,
        InstructionType::F32Const(F32Type(num_val)) => f32_const(num_val, stack)?,
        InstructionType::F64Const(F64Type(num_val)) => f64_const(num_val, stack)?,
        InstructionType::V128Const(v128) => v128_const(v128, stack)?,
        InstructionType::I32Clz => i32_clz(stack)?,
        InstructionType::I64Clz => i64_clz(stack)?,
        InstructionType::I32Ctz => i32_ctz(stack)?,
        InstructionType::I64Ctz => i64_ctz(stack)?,
        InstructionType::I32Popcnt => i32_popcnt(stack)?,
        InstructionType::I64Popcnt => i64_popcnt(stack)?,
        InstructionType::F32Abs => f32_abs(stack)?,
        InstructionType::F64Abs => f64_abs(stack)?,
        InstructionType::F32Neg => f32_neg(stack)?,
        InstructionType::F64Neg => f64_neg(stack)?,
        InstructionType::F32Sqrt => f32_sqrt(stack, floats)?,
        InstructionType::F64Sqrt => f64_sqrt(stack, floats)?,
        InstructionType::F32Ceil => f32_ceil(stack, floats)?,
        InstructionType::F64Ceil => f64_ceil(stack, floats)?,
        InstructionType::F32Floor => f32_floor(stack, floats)?,
        InstructionType::F64Floor => f64_floor(stack, floats)?,
        InstructionType::F32Trunc => f32_trunc(stack, floats)?,
        InstructionType::F64Trunc => f64_trunc(stack, floats)?,
        InstructionType::F32Nearest => f32_nearest(stack, floats)?,
        InstructionType::F64Nearest => f64_nearest(stack, floats)?,
        _ => return Err(Trap),
    }
    Ok(())
}

/// Runs a plain instruction of group 1.
#[verifier::rlimit(50)]
fn exec_plain_1<F: FloatOps>(instr: &InstructionType, stack: &mut Stack, store: &mut Store, floats: &F) -> (r:
    RResult<()>)
    requires
        plain_group(*instr) == 1,
    ensures
        plain_post(*instr, old(stack)@, final(stack)@, *old(store), *final(store), r),
{
    match instr {
        InstructionType::I32Extend8S => i32_extend_8s(stack)?,
        InstructionType::I32Extend16S => i32_extend_16s(stack)?,
        InstructionType::I64Extend8S => i64_extend_8s(stack)?,
        InstructionType::I64Extend16S => i64_extend_16s(stack)?,
        InstructionType::I64Extend32S => i64_extend_32s(stack)?,
        InstructionType::I32Add => i32_add(stack)?,
        InstructionType::I64Add => i64_add(stack)?,
        InstructionType::I32Sub => i32_sub(stack)?,
        InstructionType::I64Sub => i64_sub(stack)?,
        InstructionType::I32Mul => i32_mul(stack)?,
        InstructionType::I64Mul => i64_mul(stack)?,
        InstructionType::I32DivU => i32_div_u(stack)?,
        InstructionType::I32DivS => i32_div_s(stack)?,
        InstructionType::I64DivU => i64_div_u(stack)?,
        InstructionType::I64DivS => i64_div_s(stack)?,
        InstructionType::I32RemU => i32_rem_u(stack)?,
        InstructionType::I32RemS => i32_rem_s(stack)?,
        InstructionType::I64RemU => i64_rem_u(stack)?,
        InstructionType::I64RemS => i64_rem_s(stack)?,
        InstructionType::I32And => i32_and(stack)?,
        InstructionType::I64And => i64_and(stack)?,
        InstructionType::I32Or => i32_or(stack)?,
        InstructionType::I64Or => i64_or(stack)?,
        InstructionType::I32Xor => i32_xor(stack)?,
        InstructionType::I64Xor => i64_xor(stack)?,
        _ => return Err(Trap),
    }
    Ok(())
}

/// Runs a plain instruction of group 2.
#[verifier::rlimit(50)]
fn exec_plain_2<F: FloatOps>(instr: &InstructionType, stack: &mut Stack, store: &mut Store, floats: &F) -> (r:
    RResult<()>)
    requires
        plain_group(*instr) == 2,
    ensures
        plain_post(*instr, old(stack)@, final(stack)@, *old(store), *final(store), r),
{
    match instr {
        InstructionType::I32Shl => i32_shl(stack)?,
        InstructionType::I64Shl => i64_shl(stack)?,
        InstructionType::I32ShrU => i32_shr_u(stack)?,
        InstructionType::I64ShrU => i64_shr_u(stack)?,
        InstructionType::I32ShrS => i32_shr_s(stack)?,
        InstructionType::I64ShrS => i64_shr_s(stack)?,
        InstructionType::I32Rotl => i32_rotl(stack)?,
        InstructionType::I64Rotl => i64_rotl(stack)?,
        InstructionType::I32Rotr => i32_rotr(stack)?,
        InstructionType::I64Rotr => i64_rotr(stack)?,
        InstructionType::F32Add => f32_add(stack, floats)?,
        InstructionType::F64Add => f64_add(stack, floats)?,
        InstructionType::F32Sub => f32_sub(stack, floats)?,
        InstructionType::F64Sub => f64_sub(stack, floats)?,
        InstructionType::F32Mul => f32_mul(stack, floats)?,
        InstructionType::F64Mul => f64_mul(stack, floats)?,
        InstructionType::F32Div => f32_div(stack, floats)?,
        InstructionType::F64Div => f64_div(stack, floats)?,
        InstructionType::F32Min => f32_min(stack, floats)?,
        InstructionType::F64Min => f64_min(stack, floats)?,
        InstructionType::F32Max => f32_max(stack, floats)?,
        InstructionType::F64Max => f64_max(stack, floats)?,
        InstructionType::F32Copysign => f32_copysign(stack)?,
        InstructionType::F64Copysign => f64_copysign(stack)?,
        InstructionType::I32Eqz => i32_testop(stack)?,
        _ => return Err(Trap),
    }
    Ok(())
}

/// Runs a plain instruction of group 3.
#[verifier::rlimit(50)]
fn exec_plain_3<F: FloatOps>(instr: &InstructionType, stack: &mut Stack, store: &mut Store, floats: &F) -> (r:
    RResult<()>)
    requires
        plain_group(*instr) == 3,
    ensures
        plain_post(*instr, old(stack)@, final(stack)@, *old(store), *final(store), r),
{
    match instr {
        InstructionType::I64Eqz => i64_testop(stack)?,
        InstructionType::I32Eq => i32_relop(stack, IntRelop::Eq)?,
        InstructionType::I64Eq => i64_relop(stack, IntRelop::Eq)?,
        InstructionType::I32Ne => i32_relop(stack, IntRelop::Ne)?,
        InstructionType::I64Ne => i64_relop(stack, IntRelop::Ne)?,
        InstructionType::I32LtS => i32_relop(stack, IntRelop::LtS)?,
        InstructionType::I64LtS => i64_relop(stack, IntRelop::LtS)?,
        InstructionType::I32LtU => i32_relop(stack, IntRelop::LtU)?,
        InstructionType::I64LtU => i64_relop(stack, IntRelop::LtU)?,
        InstructionType::I32GtS => i32_relop(stack, IntRelop::GtS)?,
        InstructionType::I64GtS => i64_relop(stack, IntRelop::GtS)?,
        InstructionType::I32GtU => i32_relop(stack, IntRelop::GtU)?,
        InstructionType::I64GtU => i64_relop(stack, IntRelop::GtU)?,
        InstructionType::I32LeS => i32_relop(stack, IntRelop::LeS)?,
        InstructionType::I64LeS => i64_relop(stack, IntRelop::LeS)?,
        InstructionType::I32LeU => i32_relop(stack, IntRelop::LeU)?,
        InstructionType::I64LeU => i64_relop(stack, IntRelop::LeU)?,
        InstructionType::I32GeS => i32_relop(stack, IntRelop::GeS)?,
        InstructionType::I64GeS => i64_relop(stack, IntRelop::GeS)?,
        InstructionType::I32GeU => i32_relop(stack, IntRelop::GeU)?,
        InstructionType::I64GeU => i64_relop(stack, IntRelop::GeU)?,
        InstructionType::F32Eq => f32_relop(stack, floats, FloatRelop::Eq)?,
        InstructionType::F64Eq => f64_relop(stack, floats, FloatRelop::Eq)?,
        InstructionType::F32Ne => f32_relop(stack, floats, FloatRelop::Ne)?,
        InstructionType::F64Ne => f64_relop(stack, floats, FloatRelop::Ne)?,
        _ => return Err(Trap),
    }
    Ok(())
}

/// Runs a plain instruction of group 4.
#[verifier::rlimit(50)]
fn exec_plain_4<F: FloatOps>(instr: &InstructionType, stack: &mut Stack, store: &mut Store, floats: &F) -> (r:
    RResult<()>)
    requires
        plain_group(*instr) == 4,
    ensures
        plain_post(*instr, old(stack)@, final(stack)@, *old(store), *final(store), r),
{
    match instr {
        InstructionType::F32Lt => f32_relop(stack, floats, FloatRelop::Lt)?,
        InstructionType::F64Lt => f64_relop(stack, floats, FloatRelop::Lt)?,
        InstructionType::F32Gt => f32_relop(stack, floats, FloatRelop::Gt)?,
        InstructionType::F64Gt => f64_relop(stack, floats, FloatRelop::Gt)?,
        InstructionType::F32Le => f32_relop(stack, floats, FloatRelop::Le)?,
        InstructionType::F64Le => f64_relop(stack, floats, FloatRelop::Le)?,
        InstructionType::F32Ge => f32_relop(stack, floats, FloatRelop::Ge)?,
        InstructionType::F64Ge => f64_relop(stack, floats, FloatRelop::Ge)?,
        InstructionType::I32WrapI64 => i32_wrap_i64(stack)?,
        InstructionType::I32TruncF32U => float_convert(stack, floats, FloatConvert::I32TruncF32U)?,
        InstructionType::I32TruncF64U => float_convert(stack, floats, FloatConvert::I32TruncF64U)?,
        InstructionType::I32TruncF32S => float_convert(stack, floats, FloatConvert::I32TruncF32S)?,
        InstructionType::I32TruncF64S => float_convert(stack, floats, FloatConvert::I32TruncF64S)?,
        InstructionType::I64TruncF32U => float_convert(stack, floats, FloatConvert::I64TruncF32U)?,
        InstructionType::I64TruncF64U => float_convert(stack, floats, FloatConvert::I64TruncF64U)?,
        InstructionType::I64TruncF32S => float_convert(stack, floats, FloatConvert::I64TruncF32S)?,
        InstructionType::I64TruncF64S => float_convert(stack, floats, FloatConvert::I64TruncF64S)?,
        InstructionType::I32TruncSatF32U => float_convert(stack, floats, FloatConvert::I32TruncSatF32U)?,
        InstructionType::I32TruncSatF64U => float_convert(stack, floats, FloatConvert::I32TruncSatF64U)?,
        InstructionType::I32TruncSatF32S => float_convert(stack, floats, FloatConvert::I32TruncSatF32S)?,
        InstructionType::I32TruncSatF64S => float_convert(stack, floats, FloatConvert::I32TruncSatF64S)?,
        InstructionType::I64TruncSatF32U => float_convert(stack, floats, FloatConvert::I64TruncSatF32U)?,
        InstructionType::I64TruncSatF64U => float_convert(stack, floats, FloatConvert::I64TruncSatF64U)?,
        InstructionType::I64TruncSatF32S => float_convert(stack, floats, FloatConvert::I64TruncSatF32S)?,
        InstructionType::I64TruncSatF64S => float_convert(stack, floats, FloatConvert::I64TruncSatF64S)?,
        _ => return Err(Trap),
    }
    Ok(())
}

/// Runs a plain instruction of group 5.
#[verifier::rlimit(50)]
fn exec_plain_5<F: FloatOps>(instr: &InstructionType, stack: &mut Stack, store: &mut Store, floats: &F) -> (r:
    RResult<()>)
    requires
        plain_group(*instr) == 5,
    ensures
        plain_post(*instr, old(stack)@, final(stack)@, *old(store), *final(store), r),
{
    match instr {
        InstructionType::F32ConvertI32S => float_convert(stack, floats, FloatConvert::F32ConvertI32S)?,
        InstructionType::F32ConvertI32U => float_convert(stack, floats, FloatConvert::F32ConvertI32U)?,
        InstructionType::F32ConvertI64S => float_convert(stack, floats, FloatConvert::F32ConvertI64S)?,
        InstructionType::F32ConvertI64U => float_convert(stack, floats, FloatConvert::F32ConvertI64U)?,
        InstructionType::F64ConvertI32S => float_convert(stack, floats, FloatConvert::F64ConvertI32S)?,
        InstructionType::F64ConvertI32U => float_convert(stack, floats, FloatConvert::F64ConvertI32U)?,
        InstructionType::F64ConvertI64S => float_convert(stack, floats, FloatConvert::F64ConvertI64S)?,
        InstructionType::F64ConvertI64U => float_convert(stack, floats, FloatConvert::F64ConvertI64U)?,
        InstructionType::F32DemoteF64 => float_convert(stack, floats, FloatConvert::F32DemoteF64)?,
        InstructionType::F64PromoteF32 => float_convert(stack, floats, FloatConvert::F64PromoteF32)?,
        InstructionType::F32ReinterpretI32 => f32_reinterpret_i32(stack)?,
        InstructionType::F64ReinterpretI64 => f64_reinterpret_i64(stack)?,
        InstructionType::I32ReinterpretF32 => i32_reinterpret_f32(stack)?,
        InstructionType::I64ReinterpretF64 => i64_reinterpret_f64(stack)?,
        InstructionType::I64ExtendI32S => i64_extend_i32(stack, Sign::Signed)?,
        InstructionType::I64ExtendI32U => i64_extend_i32(stack, Sign::Unsigned)?,
        InstructionType::RefNull(ref_type) => ref_null(ref_type, stack)?,
        InstructionType::RefIsNull => is_ref_null(stack)?,
        InstructionType::RefFunc(FuncIdx(U32Type(func_idx))) => ref_func(stack, *func_idx as usize)?,
        InstructionType::V128Not => vvunop(stack, |v: u128| -> (z: u128) ensures z == !v { !v })?,
        InstructionType::V128And => v128_and(stack)?,
        InstructionType::V128AndNot => v128_andnot(stack)?,
        InstructionType::V128Or => v128_or(stack)?,
        InstructionType::V128Xor => v128_xor(stack)?,
        InstructionType::V128Bitselect => vternop(stack, bitselect)?,
        _ => return Err(Trap),
    }
    Ok(())
}

/// Runs a plain instruction of group 6.
#[verifier::rlimit(50)]
fn exec_plain_6<F: FloatOps>(instr: &InstructionType, stack: &mut Stack, store: &mut Store, floats: &F) -> (r:
    RResult<()>)
    requires
        plain_group(*instr) == 6,
    ensures
        plain_post(*instr, old(stack)@, final(stack)@, *old(store), *final(store), r),
{
    match instr {
        InstructionType::V128AnyTrue => v128_anytrue(stack)?,
        InstructionType::I8x16Swizzle => i8x16_swizzle(stack)?,
        InstructionType::I8x16Shuffle(lane_idx) => i8x16_shuffle(stack, lane_idx)?,
        InstructionType::I8x16Splat => i8x16_splat(stack)?,
        InstructionType::I16x8Splat => i16x8_splat(stack)?,
        InstructionType::I32x4Splat => i32x4_splat(stack)?,
        InstructionType::I64x2Splat => i64x2_splat(stack)?,
        InstructionType::F32x4Splat => f32x4_splat(stack)?,
        InstructionType::F64x2Splat => f64x2_splat(stack)?,
        InstructionType::I8x16ExtractLaneS(LaneIdx(lane_idx)) => i8x16_extract_lane_s(stack, *lane_idx)?,
        InstructionType::I8x16ExtractLaneU(LaneIdx(lane_idx)) => i8x16_extract_lane_u(stack, *lane_idx)?,
        InstructionType::I16x8ExtractLaneS(LaneIdx(lane_idx)) => i16x8_extract_lane_s(stack, *lane_idx)?,
        InstructionType::I16x8ExtractLaneU(LaneIdx(lane_idx)) => i16x8_extract_lane_u(stack, *lane_idx)?,
        InstructionType::I32x4ExtractLane(LaneIdx(lane_idx)) => i32x4_extract_lane(stack, *lane_idx)?,
        InstructionType::I64x2ExtractLane(LaneIdx(lane_idx)) => i64x2_extract_lane(stack, *lane_idx)?,
        InstructionType::F32x4ExtractLane(LaneIdx(lane_idx)) => f32x4_extract_lane(stack, *lane_idx)?,
        InstructionType::F64x2ExtractLane(LaneIdx(lane_idx)) => f64x2_extract_lane(stack, *lane_idx)?,
        InstructionType::I8x16ReplaceLane(LaneIdx(lane_idx)) => i8x16_replace_lane(stack, *lane_idx)?,
        InstructionType::I16x8ReplaceLane(LaneIdx(lane_idx)) => i16x8_replace_lane(stack, *lane_idx)?,
        InstructionType::I32x4ReplaceLane(LaneIdx(lane_idx)) => i32x4_replace_lane(stack, *lane_idx)?,
        InstructionType::I64x2ReplaceLane(LaneIdx(lane_idx)) => i64x2_replace_lane(stack, *lane_idx)?,
        InstructionType::F32x4ReplaceLane(LaneIdx(lane_idx)) => f32x4_replace_lane(stack, *lane_idx)?,
        InstructionType::F64x2ReplaceLane(LaneIdx(lane_idx)) => f64x2_replace_lane(stack, *lane_idx)?,
        InstructionType::I8x16Abs => unop_8x16(stack, shape_i8_abs)?,
        InstructionType::I16x8Abs => unop_16x8(stack, shape_i16_abs)?,
        _ => return Err(Trap),
    }
    Ok(())
}

/// Runs a plain instruction of group 7.
#[verifier::rlimit(50)]
fn exec_plain_7<F: FloatOps>(instr: &InstructionType, stack: &mut Stack, store: &mut Store, floats: &F) -> (r:
    RResult<()>)
    requires
        plain_group(*instr) == 7,
    ensures
        plain_post(*instr, old(stack)@, final(stack)@, *old(store), *final(store), r),
{
    match instr {
        InstructionType::I32x4Abs => unop_32x4(stack, shape_i32_abs)?,
        InstructionType::I64x2Abs => unop_64x2(stack, shape_i64_abs)?,
        InstructionType::F32x4Abs => unop_32x4(stack, shape_f32_abs)?,
        InstructionType::F64x2Abs => unop_64x2(stack, shape_f64_abs)?,
        InstructionType::I8x16Neg => unop_8x16(stack, shape_i8_neg)?,
        InstructionType::I16x8Neg => unop_16x8(stack, shape_i16_neg)?,
        InstructionType::I32x4Neg => unop_32x4(stack, shape_i32_neg)?,
        InstructionType::I64x2Neg => unop_64x2(stack, shape_i64_neg)?,
        InstructionType::F32x4Neg => unop_32x4(stack, shape_f32_neg)?,
        InstructionType::F64x2Neg => unop_64x2(stack, shape_f64_neg)?,
        InstructionType::F32x4Sqrt => unop_32x4(stack, |v: &u32| floats.lane_unop_f32(FloatUnop::Sqrt, *v))?,
        InstructionType::F64x2Sqrt => unop_64x2(stack, |v: &u64| floats.lane_unop_f64(FloatUnop::Sqrt, *v))?,
        InstructionType::F32x4Ceil => unop_32x4(stack, |v: &u32| floats.lane_unop_f32(FloatUnop::Ceil, *v))?,
        InstructionType::F64x2Ceil => unop_64x2(stack, |v: &u64| floats.lane_unop_f64(FloatUnop::Ceil, *v))?,
        InstructionType::F32x4Floor => unop_32x4(stack, |v: &u32| floats.lane_unop_f32(FloatUnop::Floor, *v))?,
        InstructionType::F64x2Floor => unop_64x2(stack, |v: &u64| floats.lane_unop_f64(FloatUnop::Floor, *v))?,
        InstructionType::F32x4Trunc => unop_32x4(stack, |v: &u32| floats.lane_unop_f32(FloatUnop::Trunc, *v))?,
        InstructionType::F64x2Trunc => unop_64x2(stack, |v: &u64| floats.lane_unop_f64(FloatUnop::Trunc, *v))?,
        InstructionType::F32x4Nearest => unop_32x4(stack, |v: &u32| floats.lane_unop_f32(FloatUnop::Nearest, *v))?,
        InstructionType::F64x2Nearest => unop_64x2(stack, |v: &u64| floats.lane_unop_f64(FloatUnop::Nearest, *v))?,
        InstructionType::I8x16Popcnt => unop_8x16(stack, shape_i8_popcnt)?,
        InstructionType::I8x16Add => binop_8x16(stack, shape_i8_add)?,
        InstructionType::I16x8Add => binop_16x8(stack, shape_i16_add)?,
        InstructionType::I32x4Add => binop_32x4(stack, shape_i32_add)?,
        InstructionType::I64x2Add => binop_64x2(stack, shape_i64_add)?,
        _ => return Err(Trap),
    }
    Ok(())
}

/// Runs a plain instruction of group 8.
#[verifier::rlimit(50)]
fn exec_plain_8<F: FloatOps>(instr: &InstructionType, stack: &mut Stack, store: &mut Store, floats: &F) -> (r:
    RResult<()>)
    requires
        plain_group(*instr) == 8,
    ensures
        plain_post(*instr, old(stack)@, final(stack)@, *old(store), *final(store), r),
{
    match instr {
        InstructionType::I8x16Sub => binop_8x16(stack, shape_i8_sub)?,
        InstructionType::I16x8Sub => binop_16x8(stack, shape_i16_sub)?,
        InstructionType::I32x4Sub => binop_32x4(stack, shape_i32_sub)?,
        InstructionType::I64x2Sub => binop_64x2(stack, shape_i64_sub)?,
        InstructionType::F32x4Add => binop_32x4(stack, |args: (&u32, &u32)| floats.lane_binop_f32(FloatBinop::Add, *args.0, *args.1))?,
        InstructionType::F64x2Add => binop_64x2(stack, |args: (&u64, &u64)| floats.lane_binop_f64(FloatBinop::Add, *args.0, *args.1))?,
        InstructionType::F32x4Sub => binop_32x4(stack, |args: (&u32, &u32)| floats.lane_binop_f32(FloatBinop::Sub, *args.0, *args.1))?,
        InstructionType::F64x2Sub => binop_64x2(stack, |args: (&u64, &u64)| floats.lane_binop_f64(FloatBinop::Sub, *args.0, *args.1))?,
        InstructionType::I16x8Mul => binop_16x8(stack, shape_i16_mul)?,
        InstructionType::I32x4Mul => binop_32x4(stack, shape_i32_mul)?,
        InstructionType::I64x2Mul => binop_64x2(stack, shape_i64_mul)?,
        InstructionType::F32x4Mul => binop_32x4(stack, |args: (&u32, &u32)| floats.lane_binop_f32(FloatBinop::Mul, *args.0, *args.1))?,
        InstructionType::F64x2Mul => binop_64x2(stack, |args: (&u64, &u64)| floats.lane_binop_f64(FloatBinop::Mul, *args.0, *args.1))?,
        InstructionType::F32x4Div => binop_32x4(stack, |args: (&u32, &u32)| floats.lane_binop_f32(FloatBinop::Div, *args.0, *args.1))?,
        InstructionType::F64x2Div => binop_64x2(stack, |args: (&u64, &u64)| floats.lane_binop_f64(FloatBinop::Div, *args.0, *args.1))?,
        InstructionType::F32x4Min => binop_32x4(stack, |args: (&u32, &u32)| floats.lane_binop_f32(FloatBinop::Min, *args.0, *args.1))?,
        InstructionType::F64x2Min => binop_64x2(stack, |args: (&u64, &u64)| floats.lane_binop_f64(FloatBinop::Min, *args.0, *args.1))?,
        InstructionType::F32x4Max => binop_32x4(stack, |args: (&u32, &u32)| floats.lane_binop_f32(FloatBinop::Max, *args.0, *args.1))?,
        InstructionType::F64x2Max => binop_64x2(stack, |args: (&u64, &u64)| floats.lane_binop_f64(FloatBinop::Max, *args.0, *args.1))?,
        InstructionType::F32x4Pmin => binop_32x4(stack, |args: (&u32, &u32)| floats.lane_binop_f32(FloatBinop::Pmin, *args.0, *args.1))?,
        InstructionType::F64x2Pmin => binop_64x2(stack, |args: (&u64, &u64)| floats.lane_binop_f64(FloatBinop::Pmin, *args.0, *args.1))?,
        InstructionType::F32x4Pmax => binop_32x4(stack, |args: (&u32, &u32)| floats.lane_binop_f32(FloatBinop::Pmax, *args.0, *args.1))?,
        InstructionType::F64x2Pmax => binop_64x2(stack, |args: (&u64, &u64)| floats.lane_binop_f64(FloatBinop::Pmax, *args.0, *args.1))?,
        InstructionType::I8x16MinU => binop_8x16(stack, shape_i8_min_u)?,
        InstructionType::I8x16MinS => binop_8x16(stack, shape_i8_min_s)?,
        _ => return Err(Trap),
    }
    Ok(())
}

/// Runs a plain instruction of group 9.
#[verifier::rlimit(50)]
fn exec_plain_9<F: FloatOps>(instr: &InstructionType, stack: &mut Stack, store: &mut Store, floats: &F) -> (r:
    RResult<()>)
    requires
        plain_group(*instr) == 9,
    ensures
        plain_post(*instr, old(stack)@, final(stack)@, *old(store), *final(store), r),
{
    match instr {
        InstructionType::I16x8MinU => binop_16x8(stack, shape_i16_min_u)?,
        InstructionType::I16x8MinS => binop_16x8(stack, shape_i16_min_s)?,
        InstructionType::I32x4MinU => binop_32x4(stack, shape_i32_min_u)?,
        InstructionType::I32x4MinS => binop_32x4(stack, shape_i32_min_s)?,
        InstructionType::I8x16MaxU => binop_8x16(stack, shape_i8_max_u)?,
        InstructionType::I8x16MaxS => binop_8x16(stack, shape_i8_max_s)?,
        InstructionType::I16x8MaxU => binop_16x8(stack, shape_i16_max_u)?,
        InstructionType::I16x8MaxS => binop_16x8(stack, shape_i16_max_s)?,
        InstructionType::I32x4MaxU => binop_32x4(stack, shape_i32_max_u)?,
        InstructionType::I32x4MaxS => binop_32x4(stack, shape_i32_max_s)?,
        InstructionType::I8x16AddSatU => binop_8x16(stack, shape_i8_sat_add_u)?,
        InstructionType::I16x8AddSatU => binop_16x8(stack, shape_i16_sat_add_u)?,
        InstructionType::I8x16AddSatS => binop_8x16(stack, shape_i8_sat_add_s)?,
        InstructionType::I16x8AddSatS => binop_16x8(stack, shape_i16_sat_add_s)?,
        InstructionType::I8x16SubSatU => binop_8x16(stack, shape_i8_sat_sub_u)?,
        InstructionType::I16x8SubSatU => binop_16x8(stack, shape_i16_sat_sub_u)?,
        InstructionType::I8x16SubSatS => binop_8x16(stack, shape_i8_sat_sub_s)?,
        InstructionType::I16x8SubSatS => binop_16x8(stack, shape_i16_sat_sub_s)?,
        InstructionType::I8x16AvgrU => binop_8x16(stack, shape_i8_avgr_u)?,
        InstructionType::I16x8AvgrU => binop_16x8(stack, shape_i16_avgr_u)?,
        InstructionType::I16x8Q15MulrSatS => binop_16x8(stack, shape_i16_mulr_sat_s)?,
        InstructionType::I8x16Eq => relop_8x16(stack, shape_eq)?,
        InstructionType::I16x8Eq => relop_16x8(stack, shape_eq)?,
        InstructionType::I32x4Eq => relop_32x4(stack, shape_eq)?,
        InstructionType::I64x2Eq => relop_64x2(stack, shape_eq)?,
        _ => return Err(Trap),
    }
    Ok(())
}

/// Runs a plain instruction of group 10.
#[verifier::rlimit(50)]
fn exec_plain_10<F: FloatOps>(instr: &InstructionType, stack: &mut Stack, store: &mut Store, floats: &F) -> (r:
    RResult<()>)
    requires
        plain_group(*instr) == 10,
    ensures
        plain_post(*instr, old(stack)@, final(stack)@, *old(store), *final(store), r),
{
    match instr {
        InstructionType::I8x16Ne => relop_8x16(stack, shape_ne)?,
        InstructionType::I16x8Ne => relop_16x8(stack, shape_ne)?,
        InstructionType::I32x4Ne => relop_32x4(stack, shape_ne)?,
        InstructionType::I64x2Ne => relop_64x2(stack, shape_ne)?,
        InstructionType::I8x16LtU => relop_8x16(stack, shape_lt_u)?,
        InstructionType::I16x8LtU => relop_16x8(stack, shape_lt_u)?,
        InstructionType::I32x4LtU => relop_32x4(stack, shape_lt_u)?,
        InstructionType::I8x16LtS => relop_8x16(stack, shape_lt_s)?,
        InstructionType::I16x8LtS => relop_16x8(stack, shape_lt_s)?,
        InstructionType::I32x4LtS => relop_32x4(stack, shape_lt_s)?,
        InstructionType::I64x2LtS => relop_64x2(stack, shape_lt_s)?,
        InstructionType::I8x16GtU => relop_8x16(stack, shape_gt_u)?,
        InstructionType::I16x8GtU => relop_16x8(stack, shape_gt_u)?,
        InstructionType::I32x4GtU => relop_32x4(stack, shape_gt_u)?,
        InstructionType::I8x16GtS => relop_8x16(stack, shape_gt_s)?,
        InstructionType::I16x8GtS => relop_16x8(stack, shape_gt_s)?,
        InstructionType::I32x4GtS => relop_32x4(stack, shape_gt_s)?,
        InstructionType::I64x2GtS => relop_64x2(stack, shape_gt_s)?,
        InstructionType::I8x16LeU => relop_8x16(stack, shape_le_u)?,
        InstructionType::I16x8LeU => relop_16x8(stack, shape_le_u)?,
        InstructionType::I32x4LeU => relop_32x4(stack, shape_le_u)?,
        InstructionType::I8x16LeS => relop_8x16(stack, shape_le_s)?,
        InstructionType::I16x8LeS => relop_16x8(stack, shape_le_s)?,
        InstructionType::I32x4LeS => relop_32x4(stack, shape_le_s)?,
        InstructionType::I64x2LeS => relop_64x2(stack, shape_le_s)?,
        _ => return Err(Trap),
    }
    Ok(())
}

/// Runs a plain instruction of group 11.
#[verifier::rlimit(50)]
fn exec_plain_11<F: FloatOps>(instr: &InstructionType, stack: &mut Stack, store: &mut Store, floats: &F) -> (r:
    RResult<()>)
    requires
        plain_group(*instr) == 11,
    ensures
        plain_post(*instr, old(stack)@, final(stack)@, *old(store), *final(store), r),
{
    match instr {
        InstructionType::I8x16GeU => relop_8x16(stack, shape_ge_u)?,
        InstructionType::I16x8GeU => relop_16x8(stack, shape_ge_u)?,
        InstructionType::I32x4GeU => relop_32x4(stack, shape_ge_u)?,
        InstructionType::I8x16GeS => relop_8x16(stack, shape_ge_s)?,
        InstructionType::I16x8GeS => relop_16x8(stack, shape_ge_s)?,
        InstructionType::I32x4GeS => relop_32x4(stack, shape_ge_s)?,
        InstructionType::I64x2GeS => relop_64x2(stack, shape_ge_s)?,
        InstructionType::F32x4Eq => relop_32x4(stack, shape_eq)?,
        InstructionType::F64x2Eq => relop_64x2(stack, shape_eq)?,
        InstructionType::F32x4Ne => relop_32x4(stack, shape_ne)?,
        InstructionType::F64x2Ne => relop_64x2(stack, shape_ne)?,
        InstructionType::F32x4Lt => relop_32x4(stack, |args: (&u32, &u32)| floats.lane_relop_f32(FloatRelop::Lt, *args.0, *args.1))?,
        InstructionType::F64x2Lt => relop_64x2(stack, |args: (&u64, &u64)| floats.lane_relop_f64(FloatRelop::Lt, *args.0, *args.1))?,
        InstructionType::F32x4Gt => relop_32x4(stack, |args: (&u32, &u32)| floats.lane_relop_f32(FloatRelop::Gt, *args.0, *args.1))?,
        InstructionType::F64x2Gt => relop_64x2(stack, |args: (&u64, &u64)| floats.lane_relop_f64(FloatRelop::Gt, *args.0, *args.1))?,
        InstructionType::F32x4Le => relop_32x4(stack, |args: (&u32, &u32)| floats.lane_relop_f32(FloatRelop::Le, *args.0, *args.1))?,
        InstructionType::F64x2Le => relop_64x2(stack, |args: (&u64, &u64)| floats.lane_relop_f64(FloatRelop::Le, *args.0, *args.1))?,
        InstructionType::F32x4Ge => relop_32x4(stack, |args: (&u32, &u32)| floats.lane_relop_f32(FloatRelop::Ge, *args.0, *args.1))?,
        InstructionType::F64x2Ge => relop_64x2(stack, |args: (&u64, &u64)| floats.lane_relop_f64(FloatRelop::Ge, *args.0, *args.1))?,
        InstructionType::I8x16Shl => {
            let op = make_shape_shl(8);
            shiftop_8x16(stack, |x: u8, s: u32| -> (z: u8) ensures z as nat == lane_shift_spec(op, x as nat, s) { shift_lane_8(&op, x, s) })?
        },
        InstructionType::I16x8Shl => {
            let op = make_shape_shl(16);
            shiftop_16x8(stack, |x: u16, s: u32| -> (z: u16) ensures z as nat == lane_shift_spec(op, x as nat, s) { shift_lane_16(&op, x, s) })?
        },
        InstructionType::I32x4Shl => {
            let op = make_shape_shl(32);
            shiftop_32x4(stack, |x: u32, s: u32| -> (z: u32) ensures z as nat == lane_shift_spec(op, x as nat, s) { shift_lane_32(&op, x, s) })?
        },
        InstructionType::I64x2Shl => {
            let op = make_shape_shl(64);
            shiftop_64x2(stack, |x: u64, s: u32| -> (z: u64) ensures z as nat == lane_shift_spec(op, x as nat, s) { shift_lane_64(&op, x, s) })?
        },
        InstructionType::I8x16ShrU => {
            let op = make_shape_shr_u(8);
            shiftop_8x16(stack, |x: u8, s: u32| -> (z: u8) ensures z as nat == lane_shift_spec(op, x as nat, s) { shift_lane_8(&op, x, s) })?
        },
        InstructionType::I16x8ShrU => {
            let op = make_shape_shr_u(16);
            shiftop_16x8(stack, |x: u16, s: u32| -> (z: u16) ensures z as nat == lane_shift_spec(op, x as nat, s) { shift_lane_16(&op, x, s) })?
        },
        _ => return Err(Trap),
    }
    Ok(())
}

/// Runs a plain instruction of group 12.
#[verifier::rlimit(50)]
fn exec_plain_12<F: FloatOps>(instr: &InstructionType, stack: &mut Stack, store: &mut Store, floats: &F) -> (r:
    RResult<()>)
    requires
        plain_group(*instr) == 12,
    ensures
        plain_post(*instr, old(stack)@, final(stack)@, *old(store), *final(store), r),
{
    match instr {
        InstructionType::I32x4ShrU => {
            let op = make_shape_shr_u(32);
            shiftop_32x4(stack, |x: u32, s: u32| -> (z: u32) ensures z as nat == lane_shift_spec(op, x as nat, s) { shift_lane_32(&op, x, s) })?
        },
        InstructionType::I64x2ShrU => {
            let op = make_shape_shr_u(64);
            shiftop_64x2(stack, |x: u64, s: u32| -> (z: u64) ensures z as nat == lane_shift_spec(op, x as nat, s) { shift_lane_64(&op, x, s) })?
        },
        InstructionType::I8x16ShrS => {
            let op = make_shape_shr_s(8);
            shiftop_8x16(stack, |x: u8, s: u32| -> (z: u8) ensures z as nat == lane_shift_spec(op, x as nat, s) { shift_lane_8(&op, x, s) })?
        },
        InstructionType::I16x8ShrS => {
            let op = make_shape_shr_s(16);
            shiftop_16x8(stack, |x: u16, s: u32| -> (z: u16) ensures z as nat == lane_shift_spec(op, x as nat, s) { shift_lane_16(&op, x, s) })?
        },
        InstructionType::I32x4ShrS => {
            let op = make_shape_shr_s(32);
            shiftop_32x4(stack, |x: u32, s: u32| -> (z: u32) ensures z as nat == lane_shift_spec(op, x as nat, s) { shift_lane_32(&op, x, s) })?
        },
        InstructionType::I64x2ShrS => {
            let op = make_shape_shr_s(64);
            shiftop_64x2(stack, |x: u64, s: u32| -> (z: u64) ensures z as nat == lane_shift_spec(op, x as nat, s) { shift_lane_64(&op, x, s) })?
        },
        InstructionType::I8x16AllTrue => all_true_8x16(stack)?,
        InstructionType::I16x8AllTrue => all_true_16x8(stack)?,
        InstructionType::I32x4AllTrue => all_true_32x4(stack)?,
        InstructionType::I64x2AllTrue => all_true_64x2(stack)?,
        InstructionType::I8x16Bitmask => bitmask_8x16(stack)?,
        InstructionType::I16x8Bitmask => bitmask_16x8(stack)?,
        InstructionType::I32x4Bitmask => bitmask_32x4(stack)?,
        InstructionType::I64x2Bitmask => bitmask_64x2(stack)?,
        InstructionType::I8x16NarrowI16x8U => shape_8x16_narrow_16x8_u(stack)?,
        InstructionType::I8x16NarrowI16x8S => shape_8x16_narrow_16x8_s(stack)?,
        InstructionType::I16x8NarrowI32x4U => shape_16x8_narrow_32x4_u(stack)?,
        InstructionType::I16x8NarrowI32x4S => shape_16x8_narrow_32x4_s(stack)?,
        InstructionType::I32x4TruncSatF32x4S => f32x4_vcvtop_i32x4(stack, |x: u32| (floats.lane_convert(LaneConvert::I32TruncSatF32S, x as u64) % 0x1_0000_0000) as u32)?,
        InstructionType::I32x4TruncSatF32x4U => f32x4_vcvtop_i32x4(stack, |x: u32| (floats.lane_convert(LaneConvert::I32TruncSatF32U, x as u64) % 0x1_0000_0000) as u32)?,
        InstructionType::F32x4ConvertI32x4S => f32x4_vcvtop_i32x4(stack, |x: u32| (floats.lane_convert(LaneConvert::F32ConvertI32S, x as u64) % 0x1_0000_0000) as u32)?,
        InstructionType::F32x4ConvertI32x4U => f32x4_vcvtop_i32x4(stack, |x: u32| (floats.lane_convert(LaneConvert::F32ConvertI32U, x as u64) % 0x1_0000_0000) as u32)?,
        InstructionType::I16x8ExtendLowI8x16U => i16x8_vcvtop_half_i8x16(stack, i8_extend_i16_u, Half::Low)?,
        InstructionType::I16x8ExtendLowI8x16S => i16x8_vcvtop_half_i8x16(stack, i8_extend_i16_s, Half::Low)?,
        InstructionType::I16x8ExtendHighI8x16U => i16x8_vcvtop_half_i8x16(stack, i8_extend_i16_u, Half::High)?,
        _ => return Err(Trap),
    }
    Ok(())
}

/// Runs a plain instruction of group 13.
#[verifier::rlimit(50)]
fn exec_plain_13<F: FloatOps>(instr: &InstructionType, stack: &mut Stack, store: &mut Store, floats: &F) -> (r:
    RResult<()>)
    requires
        plain_group(*instr) == 13,
    ensures
        plain_post(*instr, old(stack)@, final(stack)@, *old(store), *final(store), r),
{
    match instr {
        InstructionType::I16x8ExtendHighI8x16S => i16x8_vcvtop_half_i8x16(stack, i8_extend_i16_s, Half::High)?,
        InstructionType::I32x4ExtendLowI16x8U => i32x4_vcvtop_half_i16x8(stack, i16_extend_i32_u, Half::Low)?,
        InstructionType::I32x4ExtendLowI16x8S => i32x4_vcvtop_half_i16x8(stack, i16_extend_i32_s, Half::Low)?,
        InstructionType::I32x4ExtendHighI16x8U => i32x4_vcvtop_half_i16x8(stack, i16_extend_i32_u, Half::High)?,
        InstructionType::I32x4ExtendHighI16x8S => i32x4_vcvtop_half_i16x8(stack, i16_extend_i32_s, Half::High)?,
        _ => return Err(Trap),
    }
    Ok(())
}

/// Runs a plain instruction of group 14.
#[verifier::rlimit(50)]
fn exec_plain_14<F: FloatOps>(instr: &InstructionType, stack: &mut Stack, store: &mut Store, floats: &F) -> (r:
    RResult<()>)
    requires
        plain_group(*instr) == 14,
    ensures
        plain_post(*instr, old(stack)@, final(stack)@, *old(store), *final(store), r),
{
    match instr {
        InstructionType::I64x2ExtendLowI32x4U => i64x2_vcvtop_half_i32x4(stack, i32_extend_i64_u, Half::Low)?,
        InstructionType::I64x2ExtendLowI32x4S => i64x2_vcvtop_half_i32x4(stack, i32_extend_i64_s, Half::Low)?,
        InstructionType::I64x2ExtendHighI32x4U => i64x2_vcvtop_half_i32x4(stack, i32_extend_i64_u, Half::High)?,
        InstructionType::I64x2ExtendHighI32x4S => i64x2_vcvtop_half_i32x4(stack, i32_extend_i64_s, Half::High)?,
        InstructionType::F64x2ConvertLowI32x4U => i64x2_vcvtop_half_i32x4(stack, |x: u32| floats.lane_convert(LaneConvert::F64ConvertI32U, x as u64), Half::Low)?,
        _ => return Err(Trap),
    }
    Ok(())
}

/// Runs a plain instruction of group 15.
#[verifier::rlimit(50)]
fn exec_plain_15<F: FloatOps>(instr: &InstructionType, stack: &mut Stack, store: &mut Store, floats: &F) -> (r:
    RResult<()>)
    requires
        plain_group(*instr) == 15,
    ensures
        plain_post(*instr, old(stack)@, final(stack)@, *old(store), *final(store), r),
{
    match instr {
        InstructionType::F64x2ConvertLowI32x4S => i64x2_vcvtop_half_i32x4(stack, |x: u32| floats.lane_convert(LaneConvert::F64ConvertI32S, x as u64), Half::Low)?,
        InstructionType::F64x2PromoteLowF32x4 => i64x2_vcvtop_half_i32x4(stack, |x: u32| floats.lane_convert(LaneConvert::F64PromoteF32, x as u64), Half::Low)?,
        InstructionType::I32x4TruncSatF64x2UZero => shape_32x4_vcvtop_64x2_zero(stack, |x: u64| (floats.lane_convert(LaneConvert::I32TruncSatF64U, x) % 0x1_0000_0000) as u32)?,
        InstructionType::I32x4TruncSatF64x2SZero => shape_32x4_vcvtop_64x2_zero(stack, |x: u64| (floats.lane_convert(LaneConvert::I32TruncSatF64S, x) % 0x1_0000_0000) as u32)?,
        InstructionType::F32x4DemoteF64x2Zero => shape_32x4_vcvtop_64x2_zero(stack, |x: u64| (floats.lane_convert(LaneConvert::F32DemoteF64, x) % 0x1_0000_0000) as u32)?,
        _ => return Err(Trap),
    }
    Ok(())
}

/// Runs a plain instruction of group 16.
#[verifier::rlimit(50)]
fn exec_plain_16<F: FloatOps>(instr: &InstructionType, stack: &mut Stack, store: &mut Store, floats: &F) -> (r:
    RResult<()>)
    requires
        plain_group(*instr) == 16,
    ensures
        plain_post(*instr, old(stack)@, final(stack)@, *old(store), *final(store), r),
{
    match instr {
        InstructionType::I32x4DotI16x8S => i32x4_dot_i16x8s(stack)?,
        InstructionType::I16x8ExtmulLowI8x16U => i16x8_extmul_half_i8x16(stack, Half::Low, false)?,
        InstructionType::I16x8ExtmulLowI8x16S => i16x8_extmul_half_i8x16(stack, Half::Low, true)?,
        InstructionType::I16x8ExtmulHighI8x16U => i16x8_extmul_half_i8x16(stack, Half::High, false)?,
        InstructionType::I16x8ExtmulHighI8x16S => i16x8_extmul_half_i8x16(stack, Half::High, true)?,
        _ => return Err(Trap),
    }
    Ok(())
}

/// Runs a plain instruction of group 17.
#[verifier::rlimit(50)]
fn exec_plain_17<F: FloatOps>(instr: &InstructionType, stack: &mut Stack, store: &mut Store, floats: &F) -> (r:
    RResult<()>)
    requires
        plain_group(*instr) == 17,
    ensures
        plain_post(*instr, old(stack)@, final(stack)@, *old(store), *final(store), r),
{
    match instr {
        InstructionType::I32x4ExtmulLowI16x8U => i32x4_extmul_half_i16x8(stack, Half::Low, false)?,
        InstructionType::I32x4ExtmulLowI16x8S => i32x4_extmul_half_i16x8(stack, Half::Low, true)?,
        InstructionType::I32x4ExtmulHighI16x8U => i32x4_extmul_half_i16x8(stack, Half::High, false)?,
        InstructionType::I32x4ExtmulHighI16x8S => i32x4_extmul_half_i16x8(stack, Half::High, true)?,
        InstructionType::I64x2ExtmulLowI32x4U => i64x2_extmul_half_i32x4(stack, Half::Low, false)?,
        _ => return Err(Trap),
    }
    Ok(())
}

/// Runs a plain instruction of group 18.
#[verifier::rlimit(50)]
fn exec_plain_18<F: FloatOps>(instr: &InstructionType, stack: &mut Stack, store: &mut Store, floats: &F) -> (r:
    RResult<()>)
    requires
        plain_group(*instr) == 18,
    ensures
        plain_post(*instr, old(stack)@, final(stack)@, *old(store), *final(store), r),
{
    match instr {
        InstructionType::I64x2ExtmulLowI32x4S => i64x2_extmul_half_i32x4(stack, Half::Low, true)?,
        InstructionType::I64x2ExtmulHighI32x4U => i64x2_extmul_half_i32x4(stack, Half::High, false)?,
        InstructionType::I64x2ExtmulHighI32x4S => i64x2_extmul_half_i32x4(stack, Half::High, true)?,
        InstructionType::I16x8ExtaddPairwiseI8x16U => i16x8_extadd_pairwise_i8x16(stack, false)?,
        InstructionType::I16x8ExtaddPairwiseI8x16S => i16x8_extadd_pairwise_i8x16(stack, true)?,
        InstructionType::I32x4ExtaddPairwiseI16x8U => i32x4_extadd_pairwise_i16x8(stack, false)?,
        InstructionType::I32x4ExtaddPairwiseI16x8S => i32x4_extadd_pairwise_i16x8(stack, true)?,
        InstructionType::Drop => exec_drop(stack)?,
        InstructionType::Select => exec_select(stack)?,
        InstructionType::SelectVec(vector) => exec_select_vec(stack, vector)?,
        InstructionType::LocalGet(local_idx) => local_get(stack, local_idx)?,
        InstructionType::LocalSet(local_idx) => local_set(stack, local_idx)?,
        InstructionType::LocalTee(local_idx) => local_tee(stack, local_idx)?,
        InstructionType::GlobalGet(global_idx) => global_get(stack, store, global_idx)?,
        InstructionType::GlobalSet(global_idx) => global_set(stack, store, global_idx)?,
        InstructionType::TableGet(table_idx) => table_get(stack, store, table_idx)?,
        InstructionType::TableSet(table_idx) => table_set(stack, store, table_idx)?,
        InstructionType::TableSize(table_idx) => table_size(stack, store, table_idx)?,
        InstructionType::TableGrow(table_idx) => table_grow(stack, store, table_idx)?,
        InstructionType::TableFill(table_idx) => table_fill(stack, store, table_idx)?,
        InstructionType::TableCopy(table_idxes) => table_copy(stack, store, table_idxes)?,
        InstructionType::TableInit(table_idxes) => table_init(stack, store, table_idxes)?,
        InstructionType::ElemDrop(elem_idx) => elem_drop(stack, store, elem_idx)?,
        InstructionType::I32Load(mem_arg) => i32_load(stack, store, mem_arg)?,
        InstructionType::I64Load(mem_arg) => i64_load(stack, store, mem_arg)?,
        _ => return Err(Trap),
    }
    Ok(())
}

/// Runs a plain instruction of group 19.
#[verifier::rlimit(50)]
fn exec_plain_19<F: FloatOps>(instr: &InstructionType, stack: &mut Stack, store: &mut Store, floats: &F) -> (r:
    RResult<()>)
    requires
        plain_group(*instr) == 19,
    ensures
        plain_post(*instr, old(stack)@, final(stack)@, *old(store), *final(store), r),
{
    match instr {
        InstructionType::F32Load(mem_arg) => f32_load(stack, store, mem_arg)?,
        InstructionType::F64Load(mem_arg) => f64_load(stack, store, mem_arg)?,
        InstructionType::V128Load(mem_arg) => v128_load(stack, store, mem_arg)?,
        InstructionType::I32Load8U(mem_arg) => i32_load_8(stack, store, mem_arg, Sign::Unsigned)?,
        InstructionType::I32Load8S(mem_arg) => i32_load_8(stack, store, mem_arg, Sign::Signed)?,
        InstructionType::I32Load16U(mem_arg) => i32_load_16(stack, store, mem_arg, Sign::Unsigned)?,
        InstructionType::I32Load16S(mem_arg) => i32_load_16(stack, store, mem_arg, Sign::Signed)?,
        InstructionType::I64Load8U(mem_arg) => i64_load_8(stack, store, mem_arg, Sign::Unsigned)?,
        InstructionType::I64Load8S(mem_arg) => i64_load_8(stack, store, mem_arg, Sign::Signed)?,
        InstructionType::I64Load16U(mem_arg) => i64_load_16(stack, store, mem_arg, Sign::Unsigned)?,
        InstructionType::I64Load16S(mem_arg) => i64_load_16(stack, store, mem_arg, Sign::Signed)?,
        InstructionType::I64Load32U(mem_arg) => i64_load_32(stack, store, mem_arg, Sign::Unsigned)?,
        InstructionType::I64Load32S(mem_arg) => i64_load_32(stack, store, mem_arg, Sign::Signed)?,
        InstructionType::V128Load8x8U(mem_arg) => v128_load_8x8(stack, store, mem_arg, Sign::Unsigned)?,
        InstructionType::V128Load8x8S(mem_arg) => v128_load_8x8(stack, store, mem_arg, Sign::Signed)?,
        InstructionType::V128Load16x4U(mem_arg) => v128_load_16x4(stack, store, mem_arg, Sign::Unsigned)?,
        InstructionType::V128Load16x4S(mem_arg) => v128_load_16x4(stack, store, mem_arg, Sign::Signed)?,
        InstructionType::V128Load32x2U(mem_arg) => v128_load_32x2(stack, store, mem_arg, Sign::Unsigned)?,
        InstructionType::V128Load32x2S(mem_arg) => v128_load_32x2(stack, store, mem_arg, Sign::Signed)?,
        InstructionType::V128Load8Splat(mem_arg) => v128_load8_splat(stack, store, mem_arg)?,
        InstructionType::V128Load16Splat(mem_arg) => v128_load16_splat(stack, store, mem_arg)?,
        InstructionType::V128Load32Splat(mem_arg) => v128_load32_splat(stack, store, mem_arg)?,
        InstructionType::V128Load64Splat(mem_arg) => v128_load64_splat(stack, store, mem_arg)?,
        InstructionType::V128Load32Zero(mem_arg) => v128_load32_zero(stack, store, mem_arg)?,
        InstructionType::V128Load64Zero(mem_arg) => v128_load64_zero(stack, store, mem_arg)?,
        _ => return Err(Trap),
    }
    Ok(())
}

/// Runs a plain instruction of group 20.
#[verifier::rlimit(50)]
fn exec_plain_20<F: FloatOps>(instr: &InstructionType, stack: &mut Stack, store: &mut Store, floats: &F) -> (r:
    RResult<()>)
    requires
        plain_group(*instr) == 20,
    ensures
        plain_post(*instr, old(stack)@, final(stack)@, *old(store), *final(store), r),
{
    match instr {
        InstructionType::V128Load8Lane(MemArgLane(mem_arg, lane_idx)) => v128_load8_lane(stack, store, mem_arg, lane_idx)?,
        InstructionType::V128Load16Lane(MemArgLane(mem_arg, lane_idx)) => v128_load16_lane(stack, store, mem_arg, lane_idx)?,
        InstructionType::V128Load32Lane(MemArgLane(mem_arg, lane_idx)) => v128_load32_lane(stack, store, mem_arg, lane_idx)?,
        InstructionType::V128Load64Lane(MemArgLane(mem_arg, lane_idx)) => v128_load64_lane(stack, store, mem_arg, lane_idx)?,
        InstructionType::V128Store(mem_arg) => v128_store(stack, store, mem_arg)?,
        InstructionType::I32Store(mem_arg) => i32_store(stack, store, mem_arg)?,
        InstructionType::I64Store(mem_arg) => i64_store(stack, store, mem_arg)?,
        InstructionType::F32Store(mem_arg) => f32_store(stack, store, mem_arg)?,
        InstructionType::F64Store(mem_arg) => f64_store(stack, store, mem_arg)?,
        InstructionType::I32Store8(mem_arg) => i32_store8(stack, store, mem_arg)?,
        InstructionType::I64Store8(mem_arg) => i64_store8(stack, store, mem_arg)?,
        InstructionType::I32Store16(mem_arg) => i32_store16(stack, store, mem_arg)?,
        InstructionType::I64Store16(mem_arg) => i64_store16(stack, store, mem_arg)?,
        InstructionType::I64Store32(mem_arg) => i64_store32(stack, store, mem_arg)?,
        InstructionType::V128Store8Lane(arg) => v128_store8_lane(stack, store, arg)?,
        InstructionType::V128Store16Lane(arg) => v128_store16_lane(stack, store, arg)?,
        InstructionType::V128Store32Lane(arg) => v128_store32_lane(stack, store, arg)?,
        InstructionType::V128Store64Lane(arg) => v128_store64_lane(stack, store, arg)?,
        InstructionType::MemorySize => memory_size(stack, store)?,
        InstructionType::MemoryGrow => memory_grow(stack, store)?,
        InstructionType::MemoryFill => memory_fill(stack, store)?,
        InstructionType::MemoryCopy => memory_copy(stack, store)?,
        InstructionType::MemoryInit(data_idx) => memory_init(stack, store, data_idx)?,
        InstructionType::DataDrop(data_idx) => data_drop(stack, store, data_idx)?,
        _ => return Err(Trap),
    }
    Ok(())
}

/// Runs an instruction that is not a control instruction.
fn exec_plain<F: FloatOps>(instr: &InstructionType, stack: &mut Stack, store: &mut Store, floats: &F) -> (r:
    RResult<()>)
    ensures
        plain_post(*instr, old(stack)@, final(stack)@, *old(store), *final(store), r),
{
    let g = plain_group_of(instr);
    if g == 0 {
        exec_plain_0(instr, stack, store, floats)
    } else if g == 1 {
        exec_plain_1(instr, stack, store, floats)
    } else if g == 2 {
        exec_plain_2(instr, stack, store, floats)
    } else if g == 3 {
        exec_plain_3(instr, stack, store, floats)
    } else if g == 4 {
        exec_plain_4(instr, stack, store, floats)
    } else if g == 5 {
        exec_plain_5(instr, stack, store, floats)
    } else if g == 6 {
        exec_plain_6(instr, stack, store, floats)
    } else if g == 7 {
        exec_plain_7(instr, stack, store, floats)
    } else if g == 8 {
        exec_plain_8(instr, stack, store, floats)
    } else if g == 9 {
        exec_plain_9(instr, stack, store, floats)
    } else if g == 10 {
        exec_plain_10(instr, stack, store, floats)
    } else if g == 11 {
        exec_plain_11(instr, stack, store, floats)
    } else if g == 12 {
        exec_plain_12(instr, stack, store, floats)
    } else if g == 13 {
        exec_plain_13(instr, stack, store, floats)
    } else if g == 14 {
        exec_plain_14(instr, stack, store, floats)
    } else if g == 15 {
        exec_plain_15(instr, stack, store, floats)
    } else if g == 16 {
        exec_plain_16(instr, stack, store, floats)
    } else if g == 17 {
        exec_plain_17(instr, stack, store, floats)
    } else if g == 18 {
        exec_plain_18(instr, stack, store, floats)
    } else if g == 19 {
        exec_plain_19(instr, stack, store, floats)
    } else {
        exec_plain_20(instr, stack, store, floats)
    }
}

/// Runs one instruction; nested instructions run with `fuel - 1`, and a call that
/// nests deeper than the fuel allows traps.
pub fn execute_instruction_fuel<F: FloatOps>(
    instr: &InstructionType,
    stack: &mut Stack,
    store: &mut Store,
    floats: &F,
    fuel: u64,
) -> (r: RResult<ExitType>)
    ensures
        instruction_run(*instr, old(stack)@, final(stack)@, *old(store), *final(store), fuel as nat, r),
    decreases fuel, 5nat,
{
    match instr {
        InstructionType::Nop => Ok(ExitType::Completed),
        InstructionType::Unreachable => {
            exec_unreachable()?;
            Ok(ExitType::Completed)
        },
        InstructionType::Block(block_instruction) => block(stack, store, block_instruction, floats, fuel),
        InstructionType::Loop(loop_instruction) => exec_loop(stack, store, loop_instruction, floats, fuel),
        InstructionType::IfElse(ifelse_instruction) => exec_ifelse(stack, store, ifelse_instruction, floats, fuel),
        InstructionType::Br(label_idx) => exec_br(stack, store, label_idx, floats, fuel),
        InstructionType::BrIf(label_idx) => exec_brif(stack, store, label_idx, floats, fuel),
        InstructionType::BrTable(brtable_arg) => exec_brtable(stack, store, brtable_arg, floats, fuel),
        InstructionType::Return => exec_return(stack),
        InstructionType::Call(func_idx) => exec_call(stack, store, func_idx, floats, fuel),
        InstructionType::CallIndirect(arg) => exec_call_indirect(stack, store, arg, floats, fuel),
        _ => {
            exec_plain(instr, stack, store, floats)?;
            Ok(ExitType::Completed)
        },
    }
}

/// Runs one instruction, with the float operations that `floats` computes.
pub fn execute_instruction<F: FloatOps>(
    instr: &InstructionType,
    stack: &mut Stack,
    store: &mut Store,
    floats: &F,
) -> (r: RResult<ExitType>)
    ensures
        instruction_post(*instr, old(stack)@, final(stack)@, *old(store), *final(store), r),
{
    execute_instruction_fuel(instr, stack, store, floats, u64::MAX)
}

/// `instr` ran from `(s, st)` to `(s2, st2)` and ended normally, completing or
/// returning.
pub open spec fn step_ran(instr: InstructionType, s: Seq<StackEntry>, s2: Seq<StackEntry>, st: Store, st2: Store) -> bool {
    instruction_post(instr, s, s2, st, st2, Ok::<ExitType, Trap>(ExitType::Completed))
        || instruction_post(instr, s, s2, st, st2, Ok::<ExitType, Trap>(ExitType::Returned))
}

/// `t` records a run of `instrs`, one after another, that ended with `r`: `t[k]` is
/// the stack and the store before instruction `k`, `t[k + 1]` after it. With `r`
/// `Ok` every instruction ran and ended normally; with `r` an error, those before the
/// last one recorded ended normally and the last one trapped with that error.
pub open spec fn sequence_trace(instrs: Seq<InstructionType>, t: Seq<(Seq<StackEntry>, Store)>, r: RResult<()>) -> bool {
    &&& 1 <= t.len() <= instrs.len() + 1
    &&& forall|k: int| 0 <= k < t.len() - 1 && !(r is Err && k == t.len() - 2) ==> #[trigger] step_ran(
        instrs[k],
        t[k].0,
        t[k + 1].0,
        t[k].1,
        t[k + 1].1,
    )
    &&& match r {
        Ok(_) => t.len() == instrs.len() + 1,
        Err(e) => t.len() >= 2 && instruction_post(
            instrs[t.len() - 2],
            t[t.len() - 2].0,
            t.last().0,
            t[t.len() - 2].1,
            t.last().1,
            Err::<ExitType, Trap>(e),
        ),
    }
}

/// Running `instrs` one after another from `(s, st)`, stopping at the first trap,
/// ended in `(s2, st2)` with `r`.
pub open spec fn sequence_run(
    instrs: Seq<InstructionType>,
    s: Seq<StackEntry>,
    st: Store,
    s2: Seq<StackEntry>,
    st2: Store,
    r: RResult<()>,
) -> bool {
    exists|t: Seq<(Seq<StackEntry>, Store)>| #[trigger] sequence_trace(instrs, t, r) && t[0] == (s, st) && t.last() == (s2, st2)
}

/// Evaluating the expression `instrs` from `(s, st)` ended in `(s2, st2)` with `r`:
/// its instructions ran (`sequence_run`); a trap is the result, and otherwise the
/// value on top is popped and is the result, where there is one.
pub open spec fn expression_post(
    instrs: Seq<InstructionType>,
    s: Seq<StackEntry>,
    st: Store,
    s2: Seq<StackEntry>,
    st2: Store,
    r: RResult<Val>,
) -> bool {
    exists|s1: Seq<StackEntry>, rr: RResult<()>| {
        &&& #[trigger] sequence_run(instrs, s, st, s1, st2, rr)
        &&& match rr {
            Err(e) => r == Err::<Val, Trap>(e) && s2 == s1,
            Ok(_) => match top_value(s1) {
                Some(v) => r == Ok::<Val, Trap>(v) && s2 == s1.drop_last(),
                None => r is Err && s2 == s1,
            },
        }
    }
}

/// Runs `instrs` one after another, stopping at the first trap.
pub fn run_sequence<F: FloatOps>(
    instrs: &Vec<InstructionType>,
    stack: &mut Stack,
    store: &mut Store,
    floats: &F,
) -> (r: RResult<()>)
    ensures
        sequence_run(instrs@, old(stack)@, *old(store), final(stack)@, *final(store), r),
        instrs@.len() == 0 ==> r is Ok && final(stack)@ == old(stack)@ && *final(store) == *old(store),
{
    let ghost mut t: Seq<(Seq<StackEntry>, Store)> = seq![(stack@, *store)];
    let mut i: usize = 0;
    while i < instrs.len()
        invariant
            i <= instrs@.len(),
            t.len() == i + 1,
            t[0] == (old(stack)@, *old(store)),
            t.last() == (stack@, *store),
            forall|k: int| 0 <= k < i ==> #[trigger] step_ran(instrs@[k], t[k].0, t[k + 1].0, t[k].1, t[k + 1].1),
        decreases instrs@.len() - i,
    {
        let ghost before = t;
        let res = execute_instruction(&instrs[i], stack, store, floats);
        proof {
            t = before.push((stack@, *store));
            assert forall|k: int| 0 <= k < i implies #[trigger] step_ran(instrs@[k], t[k].0, t[k + 1].0, t[k].1, t[k + 1].1) by {
                assert(t[k] == before[k] && t[k + 1] == before[k + 1]);
            }
        }
        match res {
            Err(e) => {
                proof {
                    assert(sequence_trace(instrs@, t, Err::<(), Trap>(e)));
                }
                return Err(e);
            },
            Ok(x) => {
                proof {
                    assert(step_ran(instrs@[i as int], t[i as int].0, t[i + 1].0, t[i as int].1, t[i + 1].1)) by {
                        match x {
                            ExitType::Completed => {},
                            ExitType::Returned => {},
                        }
                    }
                }
            },
        }
        i = i + 1;
    }
    proof {
        assert(sequence_trace(instrs@, t, Ok::<(), Trap>(())));
    }
    Ok(())
}

/// Runs the instructions of a constant expression and pops its value.
pub fn execute_expression<F: FloatOps>(
    expr: &ExpressionType,
    stack: &mut Stack,
    store: &mut Store,
    floats: &F,
) -> (r: RResult<Val>)
    ensures
        expr.instructions@.len() == 0 ==> r == match top_value(old(stack)@) {
            Some(v) => Ok::<Val, Trap>(v),
            None => Err::<Val, Trap>(Trap),
        } && final(stack)@ == crate::instances::stack::pop_value_spec(old(stack)@),
        expression_post(expr.instructions@, old(stack)@, *old(store), final(stack)@, *final(store), r),
{
    let res = run_sequence(&expr.instructions, stack, store, floats);
    let ghost s1 = stack@;
    proof {
        assert(sequence_run(expr.instructions@, old(stack)@, *old(store), s1, *store, res));
    }
    res?;
    match stack.pop_value() {
        Some(v) => Ok(v),
        None => Err(Trap),
    }
}


/// `br_table` with the index `i` on top of the stack does what `br` does, on the stack
/// without the index, with the label that the table picks for `i`: entry `i` of the
/// table, or its default where `i` lies past its end.
pub proof fn law_br_table_is_br_on_its_label(
    s: Seq<StackEntry>,
    i: u32,
    arg: BrTableArg,
    s2: Seq<StackEntry>,
    st: Store,
    st2: Store,
    r: RResult<ExitType>,
)
    ensures
        instruction_post(InstructionType::BrTable(arg), s.push(StackEntry::Value(Val::I32(i))), s2, st, st2, r)
            == instruction_post(
            InstructionType::Br(
                LabelIdx(
                    U32Type(
                        if (i as int) < arg.labels@.len() {
                            arg.labels@[i as int].0.0
                        } else {
                            arg.default.0.0
                        },
                    ),
                ),
            ),
            s,
            s2,
            st,
            st2,
            r,
        ),
{
    let t = s.push(StackEntry::Value(Val::I32(i)));
    assert(t.drop_last() =~= s);
    assert(top_value(t) == Some(Val::I32(i)));
}

} // verus!
