use vstd::prelude::*;

use crate::entities::instructions::{InstructionType, MemArg};
use crate::entities::types::LaneIdx;
use crate::execute::bytes::{le_bytes, lemma_pow256_values, pow256};
use crate::execute::exec_memory::access::{frame_mem, frame_mem_data, load_bytes, load_ea};
use crate::execute::exec_memory::t_load::{
    bytes2, bytes4, law_widen_lanes, lemma_le_value_small, widen_lane_16, widen_lane_32, widen_lane_64,
};
use crate::sign::Sign;
use crate::execute::exec_vec::{lane16, lane32, lane64, lane8};
use crate::execute::executor::plain_post;
use crate::instances::stack::StackEntry;
use crate::instances::store::Store;
use crate::instances::value::Val;
use crate::result::RResult;

verus! {

/// The 32-bit integer instructions on two operands, `a` below `b` on top of the
/// stack: both go and the result comes on top. Addition, subtraction and
/// multiplication wrap around; the bitwise operations work on the bits; the unsigned
/// division and remainder trap on a zero divisor; a comparison gives 1 where it holds
/// and 0 where it does not, the signed ones putting every value with the top bit set
/// below every value without it.
pub proof fn law_i32_binary_instructions(
    s: Seq<StackEntry>,
    s2: Seq<StackEntry>,
    st: Store,
    st2: Store,
    r: RResult<()>,
    a: u32,
    b: u32,
)
    requires
        s.len() >= 2,
        s.last() == StackEntry::Value(Val::I32(b)),
        s[s.len() - 2] == StackEntry::Value(Val::I32(a)),
    ensures
        plain_post(InstructionType::I32Add, s, s2, st, st2, r) ==> r is Ok && s2 == s.drop_last().drop_last().push(StackEntry::Value(Val::I32(((a + b) % 0x1_0000_0000) as u32))),
        plain_post(InstructionType::I32Sub, s, s2, st, st2, r) ==> r is Ok && s2 == s.drop_last().drop_last().push(StackEntry::Value(Val::I32(((a + 0x1_0000_0000 - b) % 0x1_0000_0000) as u32))),
        plain_post(InstructionType::I32Mul, s, s2, st, st2, r) ==> r is Ok && s2 == s.drop_last().drop_last().push(StackEntry::Value(Val::I32(((a * b) % 0x1_0000_0000) as u32))),
        plain_post(InstructionType::I32And, s, s2, st, st2, r) ==> r is Ok && s2 == s.drop_last().drop_last().push(StackEntry::Value(Val::I32(a & b))),
        plain_post(InstructionType::I32Or, s, s2, st, st2, r) ==> r is Ok && s2 == s.drop_last().drop_last().push(StackEntry::Value(Val::I32(a | b))),
        plain_post(InstructionType::I32Xor, s, s2, st, st2, r) ==> r is Ok && s2 == s.drop_last().drop_last().push(StackEntry::Value(Val::I32(a ^ b))),
        plain_post(InstructionType::I32Eq, s, s2, st, st2, r) ==> r is Ok && s2 == s.drop_last().drop_last().push(StackEntry::Value(Val::I32(if a == b { 1u32 } else { 0u32 }))),
        plain_post(InstructionType::I32Ne, s, s2, st, st2, r) ==> r is Ok && s2 == s.drop_last().drop_last().push(StackEntry::Value(Val::I32(if a != b { 1u32 } else { 0u32 }))),
        plain_post(InstructionType::I32LtU, s, s2, st, st2, r) ==> r is Ok && s2 == s.drop_last().drop_last().push(StackEntry::Value(Val::I32(if a < b { 1u32 } else { 0u32 }))),
        plain_post(InstructionType::I32GtU, s, s2, st, st2, r) ==> r is Ok && s2 == s.drop_last().drop_last().push(StackEntry::Value(Val::I32(if a > b { 1u32 } else { 0u32 }))),
        plain_post(InstructionType::I32LeU, s, s2, st, st2, r) ==> r is Ok && s2 == s.drop_last().drop_last().push(StackEntry::Value(Val::I32(if a <= b { 1u32 } else { 0u32 }))),
        plain_post(InstructionType::I32GeU, s, s2, st, st2, r) ==> r is Ok && s2 == s.drop_last().drop_last().push(StackEntry::Value(Val::I32(if a >= b { 1u32 } else { 0u32 }))),
        plain_post(InstructionType::I32LtS, s, s2, st, st2, r) ==> r is Ok && s2 == s.drop_last().drop_last().push(StackEntry::Value(Val::I32(if ((a >= 0x8000_0000u32) && !(b >= 0x8000_0000u32)) || ((a >= 0x8000_0000u32) == (b >= 0x8000_0000u32) && a < b) { 1u32 } else { 0u32 }))),
        plain_post(InstructionType::I32GtS, s, s2, st, st2, r) ==> r is Ok && s2 == s.drop_last().drop_last().push(StackEntry::Value(Val::I32(if (!(a >= 0x8000_0000u32) && (b >= 0x8000_0000u32)) || ((a >= 0x8000_0000u32) == (b >= 0x8000_0000u32) && a > b) { 1u32 } else { 0u32 }))),
        plain_post(InstructionType::I32LeS, s, s2, st, st2, r) ==> r is Ok && s2 == s.drop_last().drop_last().push(StackEntry::Value(Val::I32(if ((a >= 0x8000_0000u32) && !(b >= 0x8000_0000u32)) || ((a >= 0x8000_0000u32) == (b >= 0x8000_0000u32) && a <= b) { 1u32 } else { 0u32 }))),
        plain_post(InstructionType::I32GeS, s, s2, st, st2, r) ==> r is Ok && s2 == s.drop_last().drop_last().push(StackEntry::Value(Val::I32(if (!(a >= 0x8000_0000u32) && (b >= 0x8000_0000u32)) || ((a >= 0x8000_0000u32) == (b >= 0x8000_0000u32) && a >= b) { 1u32 } else { 0u32 }))),
        plain_post(InstructionType::I32DivU, s, s2, st, st2, r) ==> if b == 0 { r is Err } else { r is Ok && s2 == s.drop_last().drop_last().push(StackEntry::Value(Val::I32(a / b))) },
        plain_post(InstructionType::I32RemU, s, s2, st, st2, r) ==> if b == 0 { r is Err } else { r is Ok && s2 == s.drop_last().drop_last().push(StackEntry::Value(Val::I32(a % b))) },
{
    assert(s.drop_last().last() == s[s.len() - 2]);
}

/// The 64-bit integer instructions on two operands, `a` below `b` on top of the
/// stack: both go and the result comes on top. Addition, subtraction and
/// multiplication wrap around; the bitwise operations work on the bits; the unsigned
/// division and remainder trap on a zero divisor; a comparison gives 1 where it holds
/// and 0 where it does not, the signed ones putting every value with the top bit set
/// below every value without it.
pub proof fn law_i64_binary_instructions(
    s: Seq<StackEntry>,
    s2: Seq<StackEntry>,
    st: Store,
    st2: Store,
    r: RResult<()>,
    a: u64,
    b: u64,
)
    requires
        s.len() >= 2,
        s.last() == StackEntry::Value(Val::I64(b)),
        s[s.len() - 2] == StackEntry::Value(Val::I64(a)),
    ensures
        plain_post(InstructionType::I64Add, s, s2, st, st2, r) ==> r is Ok && s2 == s.drop_last().drop_last().push(StackEntry::Value(Val::I64(((a + b) % 0x1_0000_0000_0000_0000) as u64))),
        plain_post(InstructionType::I64Sub, s, s2, st, st2, r) ==> r is Ok && s2 == s.drop_last().drop_last().push(StackEntry::Value(Val::I64(((a + 0x1_0000_0000_0000_0000 - b) % 0x1_0000_0000_0000_0000) as u64))),
        plain_post(InstructionType::I64Mul, s, s2, st, st2, r) ==> r is Ok && s2 == s.drop_last().drop_last().push(StackEntry::Value(Val::I64(((a * b) % 0x1_0000_0000_0000_0000) as u64))),
        plain_post(InstructionType::I64And, s, s2, st, st2, r) ==> r is Ok && s2 == s.drop_last().drop_last().push(StackEntry::Value(Val::I64(a & b))),
        plain_post(InstructionType::I64Or, s, s2, st, st2, r) ==> r is Ok && s2 == s.drop_last().drop_last().push(StackEntry::Value(Val::I64(a | b))),
        plain_post(InstructionType::I64Xor, s, s2, st, st2, r) ==> r is Ok && s2 == s.drop_last().drop_last().push(StackEntry::Value(Val::I64(a ^ b))),
        plain_post(InstructionType::I64Eq, s, s2, st, st2, r) ==> r is Ok && s2 == s.drop_last().drop_last().push(StackEntry::Value(Val::I32(if a == b { 1u32 } else { 0u32 }))),
        plain_post(InstructionType::I64Ne, s, s2, st, st2, r) ==> r is Ok && s2 == s.drop_last().drop_last().push(StackEntry::Value(Val::I32(if a != b { 1u32 } else { 0u32 }))),
        plain_post(InstructionType::I64LtU, s, s2, st, st2, r) ==> r is Ok && s2 == s.drop_last().drop_last().push(StackEntry::Value(Val::I32(if a < b { 1u32 } else { 0u32 }))),
        plain_post(InstructionType::I64GtU, s, s2, st, st2, r) ==> r is Ok && s2 == s.drop_last().drop_last().push(StackEntry::Value(Val::I32(if a > b { 1u32 } else { 0u32 }))),
        plain_post(InstructionType::I64LeU, s, s2, st, st2, r) ==> r is Ok && s2 == s.drop_last().drop_last().push(StackEntry::Value(Val::I32(if a <= b { 1u32 } else { 0u32 }))),
        plain_post(InstructionType::I64GeU, s, s2, st, st2, r) ==> r is Ok && s2 == s.drop_last().drop_last().push(StackEntry::Value(Val::I32(if a >= b { 1u32 } else { 0u32 }))),
        plain_post(InstructionType::I64LtS, s, s2, st, st2, r) ==> r is Ok && s2 == s.drop_last().drop_last().push(StackEntry::Value(Val::I32(if ((a >= 0x8000_0000_0000_0000u64) && !(b >= 0x8000_0000_0000_0000u64)) || ((a >= 0x8000_0000_0000_0000u64) == (b >= 0x8000_0000_0000_0000u64) && a < b) { 1u32 } else { 0u32 }))),
        plain_post(InstructionType::I64GtS, s, s2, st, st2, r) ==> r is Ok && s2 == s.drop_last().drop_last().push(StackEntry::Value(Val::I32(if (!(a >= 0x8000_0000_0000_0000u64) && (b >= 0x8000_0000_0000_0000u64)) || ((a >= 0x8000_0000_0000_0000u64) == (b >= 0x8000_0000_0000_0000u64) && a > b) { 1u32 } else { 0u32 }))),
        plain_post(InstructionType::I64LeS, s, s2, st, st2, r) ==> r is Ok && s2 == s.drop_last().drop_last().push(StackEntry::Value(Val::I32(if ((a >= 0x8000_0000_0000_0000u64) && !(b >= 0x8000_0000_0000_0000u64)) || ((a >= 0x8000_0000_0000_0000u64) == (b >= 0x8000_0000_0000_0000u64) && a <= b) { 1u32 } else { 0u32 }))),
        plain_post(InstructionType::I64GeS, s, s2, st, st2, r) ==> r is Ok && s2 == s.drop_last().drop_last().push(StackEntry::Value(Val::I32(if (!(a >= 0x8000_0000_0000_0000u64) && (b >= 0x8000_0000_0000_0000u64)) || ((a >= 0x8000_0000_0000_0000u64) == (b >= 0x8000_0000_0000_0000u64) && a >= b) { 1u32 } else { 0u32 }))),
        plain_post(InstructionType::I64DivU, s, s2, st, st2, r) ==> if b == 0 { r is Err } else { r is Ok && s2 == s.drop_last().drop_last().push(StackEntry::Value(Val::I64(a / b))) },
        plain_post(InstructionType::I64RemU, s, s2, st, st2, r) ==> if b == 0 { r is Err } else { r is Ok && s2 == s.drop_last().drop_last().push(StackEntry::Value(Val::I64(a % b))) },
{
    assert(s.drop_last().last() == s[s.len() - 2]);
}

/// The lane-wise vector additions and multiplications, `a` below `b` on top of the
/// stack: both go, and each lane of the result is the sum or product of the same lanes
/// of `a` and `b`, wrapped to the lane's width.
pub proof fn law_vector_lanewise_instructions(
    s: Seq<StackEntry>,
    s2: Seq<StackEntry>,
    st: Store,
    st2: Store,
    r: RResult<()>,
    a: u128,
    b: u128,
)
    requires
        s.len() >= 2,
        s.last() == StackEntry::Value(Val::Vec(b)),
        s[s.len() - 2] == StackEntry::Value(Val::Vec(a)),
    ensures
        plain_post(InstructionType::I8x16Add, s, s2, st, st2, r) ==> r is Ok && s2.len() == s.len() - 1 && s2.drop_last()
            == s.drop_last().drop_last() && (s2.last() matches StackEntry::Value(Val::Vec(z)) && forall|i: int|
            0 <= i < 16 ==> #[trigger] lane8(z, i) == ((lane8(a, i) + lane8(b, i)) % 0x100) as u8),
        plain_post(InstructionType::I16x8Add, s, s2, st, st2, r) ==> r is Ok && s2.len() == s.len() - 1 && s2.drop_last()
            == s.drop_last().drop_last() && (s2.last() matches StackEntry::Value(Val::Vec(z)) && forall|i: int|
            0 <= i < 8 ==> #[trigger] lane16(z, i) == ((lane16(a, i) + lane16(b, i)) % 0x1_0000) as u16),
        plain_post(InstructionType::I32x4Add, s, s2, st, st2, r) ==> r is Ok && s2.len() == s.len() - 1 && s2.drop_last()
            == s.drop_last().drop_last() && (s2.last() matches StackEntry::Value(Val::Vec(z)) && forall|i: int|
            0 <= i < 4 ==> #[trigger] lane32(z, i) == ((lane32(a, i) + lane32(b, i)) % 0x1_0000_0000) as u32),
        plain_post(InstructionType::I64x2Add, s, s2, st, st2, r) ==> r is Ok && s2.len() == s.len() - 1 && s2.drop_last()
            == s.drop_last().drop_last() && (s2.last() matches StackEntry::Value(Val::Vec(z)) && forall|i: int|
            0 <= i < 2 ==> #[trigger] lane64(z, i) == ((lane64(a, i) + lane64(b, i)) % 0x1_0000_0000_0000_0000) as u64),
        plain_post(InstructionType::I16x8Mul, s, s2, st, st2, r) ==> r is Ok && s2.len() == s.len() - 1 && s2.drop_last()
            == s.drop_last().drop_last() && (s2.last() matches StackEntry::Value(Val::Vec(z)) && forall|i: int|
            0 <= i < 8 ==> #[trigger] lane16(z, i) == ((lane16(a, i) * lane16(b, i)) % 0x1_0000) as u16),
        plain_post(InstructionType::I32x4Mul, s, s2, st, st2, r) ==> r is Ok && s2.len() == s.len() - 1 && s2.drop_last()
            == s.drop_last().drop_last() && (s2.last() matches StackEntry::Value(Val::Vec(z)) && forall|i: int|
            0 <= i < 4 ==> #[trigger] lane32(z, i) == ((lane32(a, i) * lane32(b, i)) % 0x1_0000_0000) as u32),
        plain_post(InstructionType::I64x2Mul, s, s2, st, st2, r) ==> r is Ok && s2.len() == s.len() - 1 && s2.drop_last()
            == s.drop_last().drop_last() && (s2.last() matches StackEntry::Value(Val::Vec(z)) && forall|i: int|
            0 <= i < 2 ==> #[trigger] lane64(z, i) == ((lane64(a, i) * lane64(b, i)) % 0x1_0000_0000_0000_0000) as u64),
{
    assert(s.drop_last().last() == s[s.len() - 2]);
    assert forall|x: int, y: int| #[trigger] (x * y) == y * x by {
        vstd::arithmetic::mul::lemma_mul_is_commutative(x, y);
    }
}


/// The loads that succeed, from the memory argument `m`: the address goes and the value
/// read comes on top. The bytes at the address read little-endian; a narrow unsigned
/// load keeps them as they are, a narrow signed one sets all the bits above them where
/// their top bit is set. A widening vector load does the same for each lane, lane `k`
/// from the `k`-th group of bytes.
pub proof fn law_load_instructions(
    s: Seq<StackEntry>,
    s2: Seq<StackEntry>,
    st: Store,
    st2: Store,
    r: RResult<()>,
    m: MemArg,
)
    requires
        r is Ok,
    ensures
        plain_post(InstructionType::I32Load8U(m), s, s2, st, st2, r) ==> s2 == s.drop_last().push(StackEntry::Value(Val::I32(load_bytes(s, st, m.0.0, 1)[0] as u32))),
        plain_post(InstructionType::I32Load8S(m), s, s2, st, st2, r) ==> s2 == s.drop_last().push(StackEntry::Value(Val::I32(if load_bytes(s, st, m.0.0, 1)[0] < 0x80 { load_bytes(s, st, m.0.0, 1)[0] as u32 } else { (load_bytes(s, st, m.0.0, 1)[0] + 0xFFFF_FF00) as u32 }))),
        plain_post(InstructionType::I32Load16U(m), s, s2, st, st2, r) ==> s2 == s.drop_last().push(StackEntry::Value(Val::I32(bytes2(load_bytes(s, st, m.0.0, 2), 0) as u32))),
        plain_post(InstructionType::I32Load16S(m), s, s2, st, st2, r) ==> s2 == s.drop_last().push(StackEntry::Value(Val::I32(if load_bytes(s, st, m.0.0, 2)[1] < 0x80 { bytes2(load_bytes(s, st, m.0.0, 2), 0) as u32 } else { (bytes2(load_bytes(s, st, m.0.0, 2), 0) + 0xFFFF_0000) as u32 }))),
        plain_post(InstructionType::I32Load(m), s, s2, st, st2, r) ==> s2 == s.drop_last().push(StackEntry::Value(Val::I32(bytes4(load_bytes(s, st, m.0.0, 4), 0) as u32))),
        plain_post(InstructionType::I64Load8U(m), s, s2, st, st2, r) ==> s2 == s.drop_last().push(StackEntry::Value(Val::I64(load_bytes(s, st, m.0.0, 1)[0] as u64))),
        plain_post(InstructionType::I64Load8S(m), s, s2, st, st2, r) ==> s2 == s.drop_last().push(StackEntry::Value(Val::I64(if load_bytes(s, st, m.0.0, 1)[0] < 0x80 { load_bytes(s, st, m.0.0, 1)[0] as u64 } else { (load_bytes(s, st, m.0.0, 1)[0] + 0xFFFF_FFFF_FFFF_FF00) as u64 }))),
        plain_post(InstructionType::I64Load16U(m), s, s2, st, st2, r) ==> s2 == s.drop_last().push(StackEntry::Value(Val::I64(bytes2(load_bytes(s, st, m.0.0, 2), 0) as u64))),
        plain_post(InstructionType::I64Load16S(m), s, s2, st, st2, r) ==> s2 == s.drop_last().push(StackEntry::Value(Val::I64(if load_bytes(s, st, m.0.0, 2)[1] < 0x80 { bytes2(load_bytes(s, st, m.0.0, 2), 0) as u64 } else { (bytes2(load_bytes(s, st, m.0.0, 2), 0) + 0xFFFF_FFFF_FFFF_0000) as u64 }))),
        plain_post(InstructionType::I64Load32U(m), s, s2, st, st2, r) ==> s2 == s.drop_last().push(StackEntry::Value(Val::I64(bytes4(load_bytes(s, st, m.0.0, 4), 0) as u64))),
        plain_post(InstructionType::I64Load32S(m), s, s2, st, st2, r) ==> s2 == s.drop_last().push(StackEntry::Value(Val::I64(if load_bytes(s, st, m.0.0, 4)[3] < 0x80 { bytes4(load_bytes(s, st, m.0.0, 4), 0) as u64 } else { (bytes4(load_bytes(s, st, m.0.0, 4), 0) + 0xFFFF_FFFF_0000_0000) as u64 }))),
        plain_post(InstructionType::V128Load8x8U(m), s, s2, st, st2, r) ==> s2.drop_last() == s.drop_last() && (s2.last() matches StackEntry::Value(
            Val::Vec(z),
        ) && forall|k: int| 0 <= k < 8 ==> #[trigger] lane16(z, k) == load_bytes(s, st, m.0.0, 8)[k] as u16),
        plain_post(InstructionType::V128Load8x8S(m), s, s2, st, st2, r) ==> s2.drop_last() == s.drop_last() && (s2.last() matches StackEntry::Value(
            Val::Vec(z),
        ) && forall|k: int| 0 <= k < 8 ==> #[trigger] lane16(z, k) == if load_bytes(s, st, m.0.0, 8)[k] < 0x80 { load_bytes(s, st, m.0.0, 8)[k] as u16 } else { (load_bytes(s, st, m.0.0, 8)[k] + 0xFF00) as u16 }),
        plain_post(InstructionType::V128Load16x4U(m), s, s2, st, st2, r) ==> s2.drop_last() == s.drop_last() && (s2.last() matches StackEntry::Value(
            Val::Vec(z),
        ) && forall|k: int| 0 <= k < 4 ==> #[trigger] lane32(z, k) == bytes2(load_bytes(s, st, m.0.0, 8), 2 * k) as u32),
        plain_post(InstructionType::V128Load16x4S(m), s, s2, st, st2, r) ==> s2.drop_last() == s.drop_last() && (s2.last() matches StackEntry::Value(
            Val::Vec(z),
        ) && forall|k: int| 0 <= k < 4 ==> #[trigger] lane32(z, k) == if load_bytes(s, st, m.0.0, 8)[2 * k + 1] < 0x80 { bytes2(load_bytes(s, st, m.0.0, 8), 2 * k) as u32 } else { (bytes2(load_bytes(s, st, m.0.0, 8), 2 * k) + 0xFFFF_0000) as u32 }),
        plain_post(InstructionType::V128Load32x2U(m), s, s2, st, st2, r) ==> s2.drop_last() == s.drop_last() && (s2.last() matches StackEntry::Value(
            Val::Vec(z),
        ) && forall|k: int| 0 <= k < 2 ==> #[trigger] lane64(z, k) == bytes4(load_bytes(s, st, m.0.0, 8), 4 * k) as u64),
        plain_post(InstructionType::V128Load32x2S(m), s, s2, st, st2, r) ==> s2.drop_last() == s.drop_last() && (s2.last() matches StackEntry::Value(
            Val::Vec(z),
        ) && forall|k: int| 0 <= k < 2 ==> #[trigger] lane64(z, k) == if load_bytes(s, st, m.0.0, 8)[4 * k + 3] < 0x80 { bytes4(load_bytes(s, st, m.0.0, 8), 4 * k) as u64 } else { (bytes4(load_bytes(s, st, m.0.0, 8), 4 * k) + 0xFFFF_FFFF_0000_0000) as u64 }),
{
    let d = frame_mem_data(s, st);
    let ea = load_ea(s, m.0.0);
    if 0 <= ea && ea + 1 <= d.len() {
        lemma_le_value_small(load_bytes(s, st, m.0.0, 1), 0);
        assert(load_bytes(s, st, m.0.0, 1).subrange(0, 1) =~= load_bytes(s, st, m.0.0, 1));
    }
    if 0 <= ea && ea + 2 <= d.len() {
        lemma_le_value_small(load_bytes(s, st, m.0.0, 2), 0);
        assert(load_bytes(s, st, m.0.0, 2).subrange(0, 2) =~= load_bytes(s, st, m.0.0, 2));
    }
    if 0 <= ea && ea + 4 <= d.len() {
        lemma_le_value_small(load_bytes(s, st, m.0.0, 4), 0);
        assert(load_bytes(s, st, m.0.0, 4).subrange(0, 4) =~= load_bytes(s, st, m.0.0, 4));
    }
    if 0 <= ea && ea + 8 <= d.len() {
        assert forall|k: int| 0 <= k < 8 implies widen_lane_16(load_bytes(s, st, m.0.0, 8), k, Sign::Signed) == (if load_bytes(s, st, m.0.0, 8)[k] < 0x80 {
            load_bytes(s, st, m.0.0, 8)[k] as u16
        } else {
            (load_bytes(s, st, m.0.0, 8)[k] + 0xFF00) as u16
        }) && widen_lane_16(load_bytes(s, st, m.0.0, 8), k, Sign::Unsigned) == load_bytes(s, st, m.0.0, 8)[k] as u16 by {
            law_widen_lanes(load_bytes(s, st, m.0.0, 8), k);
        }
        assert forall|k: int| 0 <= k < 4 implies widen_lane_32(load_bytes(s, st, m.0.0, 8), k, Sign::Signed) == (if load_bytes(s, st, m.0.0, 8)[2 * k + 1] < 0x80 {
            bytes2(load_bytes(s, st, m.0.0, 8), 2 * k) as u32
        } else {
            (bytes2(load_bytes(s, st, m.0.0, 8), 2 * k) + 0xFFFF_0000) as u32
        }) && widen_lane_32(load_bytes(s, st, m.0.0, 8), k, Sign::Unsigned) == bytes2(load_bytes(s, st, m.0.0, 8), 2 * k) as u32 by {
            law_widen_lanes(load_bytes(s, st, m.0.0, 8), k);
        }
        assert forall|k: int| 0 <= k < 2 implies widen_lane_64(load_bytes(s, st, m.0.0, 8), k, Sign::Signed) == (if load_bytes(s, st, m.0.0, 8)[4 * k + 3] < 0x80 {
            bytes4(load_bytes(s, st, m.0.0, 8), 4 * k) as u64
        } else {
            (bytes4(load_bytes(s, st, m.0.0, 8), 4 * k) + 0xFFFF_FFFF_0000_0000) as u64
        }) && widen_lane_64(load_bytes(s, st, m.0.0, 8), k, Sign::Unsigned) == bytes4(load_bytes(s, st, m.0.0, 8), 4 * k) as u64 by {
            law_widen_lanes(load_bytes(s, st, m.0.0, 8), k);
        }
    }
}


/// The integer instructions on one i32 operand `a` on top of the stack: it goes and the
/// result comes on top. `eqz` gives 1 for zero and 0 otherwise; the sign extensions
/// keep the low 8 or 16 bits and set all the bits above them where the top one of them
/// is set; the extensions to i64 keep the value, or, signed, set the upper 32 bits
/// where the top bit is set.
pub proof fn law_i32_unary_instructions(s: Seq<StackEntry>, s2: Seq<StackEntry>, st: Store, st2: Store, r: RResult<()>, a: u32)
    requires
        s.len() >= 1,
        s.last() == StackEntry::Value(Val::I32(a)),
    ensures
        plain_post(InstructionType::I32Eqz, s, s2, st, st2, r) ==> r is Ok && s2 == s.drop_last().push(StackEntry::Value(Val::I32(if a == 0 { 1u32 } else { 0u32 }))),
        plain_post(InstructionType::I32Extend8S, s, s2, st, st2, r) ==> r is Ok && s2 == s.drop_last().push(StackEntry::Value(Val::I32(if a % 0x100 < 0x80 { (a % 0x100) as u32 } else { (a % 0x100 + 0xFFFF_FF00) as u32 }))),
        plain_post(InstructionType::I32Extend16S, s, s2, st, st2, r) ==> r is Ok && s2 == s.drop_last().push(StackEntry::Value(Val::I32(if a % 0x1_0000 < 0x8000 { (a % 0x1_0000) as u32 } else { (a % 0x1_0000 + 0xFFFF_0000) as u32 }))),
        plain_post(InstructionType::I64ExtendI32U, s, s2, st, st2, r) ==> r is Ok && s2 == s.drop_last().push(StackEntry::Value(Val::I64(a as u64))),
        plain_post(InstructionType::I64ExtendI32S, s, s2, st, st2, r) ==> r is Ok && s2 == s.drop_last().push(StackEntry::Value(Val::I64(if a < 0x8000_0000 { a as u64 } else { (a + 0xFFFF_FFFF_0000_0000) as u64 }))),
{
    vstd::arithmetic::power2::lemma2_to64();
    assert((a as int) % 0x1_0000_0000 == a as int);
    if a >= 0x8000_0000 {
        assert(((a as int - 0x1_0000_0000) % 0x1_0000_0000_0000_0000) == a as int + 0xFFFF_FFFF_0000_0000);
    }
}

/// The integer instructions on one i64 operand `a` on top of the stack: it goes and the
/// result comes on top. `eqz` gives the i32 1 for zero and 0 otherwise; the sign
/// extensions keep the low 8, 16 or 32 bits and set all the bits above them where the
/// top one of them is set; `i32.wrap_i64` keeps the low 32 bits.
pub proof fn law_i64_unary_instructions(s: Seq<StackEntry>, s2: Seq<StackEntry>, st: Store, st2: Store, r: RResult<()>, a: u64)
    requires
        s.len() >= 1,
        s.last() == StackEntry::Value(Val::I64(a)),
    ensures
        plain_post(InstructionType::I64Eqz, s, s2, st, st2, r) ==> r is Ok && s2 == s.drop_last().push(StackEntry::Value(Val::I32(if a == 0 { 1u32 } else { 0u32 }))),
        plain_post(InstructionType::I64Extend8S, s, s2, st, st2, r) ==> r is Ok && s2 == s.drop_last().push(StackEntry::Value(Val::I64(if a % 0x100 < 0x80 { (a % 0x100) as u64 } else { (a % 0x100 + 0xFFFF_FFFF_FFFF_FF00) as u64 }))),
        plain_post(InstructionType::I64Extend16S, s, s2, st, st2, r) ==> r is Ok && s2 == s.drop_last().push(StackEntry::Value(Val::I64(if a % 0x1_0000 < 0x8000 { (a % 0x1_0000) as u64 } else { (a % 0x1_0000 + 0xFFFF_FFFF_FFFF_0000) as u64 }))),
        plain_post(InstructionType::I64Extend32S, s, s2, st, st2, r) ==> r is Ok && s2 == s.drop_last().push(StackEntry::Value(Val::I64(if a % 0x1_0000_0000 < 0x8000_0000 { (a % 0x1_0000_0000) as u64 } else { (a % 0x1_0000_0000 + 0xFFFF_FFFF_0000_0000) as u64 }))),
        plain_post(InstructionType::I32WrapI64, s, s2, st, st2, r) ==> r is Ok && s2 == s.drop_last().push(StackEntry::Value(Val::I32((a % 0x1_0000_0000) as u32))),
{
    vstd::arithmetic::power2::lemma2_to64();
}

/// The bitwise vector instructions and the lane-wise unsigned minimum, maximum and
/// equality, `a` below `b` on top of the stack: both go, and the result has the bits
/// of `a` and `b` combined, each lane the smaller or larger of the same lanes of `a`
/// and `b`, or each lane all ones where the same lanes of `a` and `b` are equal and
/// zero where they are not.
pub proof fn law_vector_bitwise_instructions(
    s: Seq<StackEntry>,
    s2: Seq<StackEntry>,
    st: Store,
    st2: Store,
    r: RResult<()>,
    a: u128,
    b: u128,
)
    requires
        s.len() >= 2,
        s.last() == StackEntry::Value(Val::Vec(b)),
        s[s.len() - 2] == StackEntry::Value(Val::Vec(a)),
    ensures
        plain_post(InstructionType::V128And, s, s2, st, st2, r) ==> r is Ok && s2.len() == s.len() - 1 && s2.drop_last()
            == s.drop_last().drop_last() && (s2.last() matches StackEntry::Value(Val::Vec(z)) && z == a & b),
        plain_post(InstructionType::V128Or, s, s2, st, st2, r) ==> r is Ok && s2.len() == s.len() - 1 && s2.drop_last()
            == s.drop_last().drop_last() && (s2.last() matches StackEntry::Value(Val::Vec(z)) && z == a | b),
        plain_post(InstructionType::V128Xor, s, s2, st, st2, r) ==> r is Ok && s2.len() == s.len() - 1 && s2.drop_last()
            == s.drop_last().drop_last() && (s2.last() matches StackEntry::Value(Val::Vec(z)) && z == a ^ b),
        plain_post(InstructionType::I8x16MinU, s, s2, st, st2, r) ==> r is Ok && s2.len() == s.len() - 1 && s2.drop_last()
            == s.drop_last().drop_last() && (s2.last() matches StackEntry::Value(Val::Vec(z)) && forall|i: int| 0 <= i < 16 ==> #[trigger] lane8(z, i) == if lane8(a, i) <= lane8(b, i) { lane8(a, i) } else { lane8(b, i) }),
        plain_post(InstructionType::I8x16MaxU, s, s2, st, st2, r) ==> r is Ok && s2.len() == s.len() - 1 && s2.drop_last()
            == s.drop_last().drop_last() && (s2.last() matches StackEntry::Value(Val::Vec(z)) && forall|i: int| 0 <= i < 16 ==> #[trigger] lane8(z, i) == if lane8(a, i) >= lane8(b, i) { lane8(a, i) } else { lane8(b, i) }),
        plain_post(InstructionType::I8x16Eq, s, s2, st, st2, r) ==> r is Ok && s2.len() == s.len() - 1 && s2.drop_last()
            == s.drop_last().drop_last() && (s2.last() matches StackEntry::Value(Val::Vec(z)) && forall|i: int| 0 <= i < 16 ==> #[trigger] lane8(z, i) == if lane8(a, i) == lane8(b, i) { 0xFFu8 } else { 0u8 }),
        plain_post(InstructionType::I16x8Eq, s, s2, st, st2, r) ==> r is Ok && s2.len() == s.len() - 1 && s2.drop_last()
            == s.drop_last().drop_last() && (s2.last() matches StackEntry::Value(Val::Vec(z)) && forall|i: int| 0 <= i < 8 ==> #[trigger] lane16(z, i) == if lane16(a, i) == lane16(b, i) { 0xFFFFu16 } else { 0u16 }),
        plain_post(InstructionType::I32x4Eq, s, s2, st, st2, r) ==> r is Ok && s2.len() == s.len() - 1 && s2.drop_last()
            == s.drop_last().drop_last() && (s2.last() matches StackEntry::Value(Val::Vec(z)) && forall|i: int| 0 <= i < 4 ==> #[trigger] lane32(z, i) == if lane32(a, i) == lane32(b, i) { 0xFFFF_FFFFu32 } else { 0u32 }),
{
    assert(s.drop_last().last() == s[s.len() - 2]);
    assert(b & a == a & b) by (bit_vector);
    assert(b | a == a | b) by (bit_vector);
    assert(b ^ a == a ^ b) by (bit_vector);
}


/// The splats, with the i32 `a` on top of the stack: it goes, and every lane of the
/// vector that comes is the low bits of `a` that fit the lane.
pub proof fn law_splat_instructions(s: Seq<StackEntry>, s2: Seq<StackEntry>, st: Store, st2: Store, r: RResult<()>, a: u32)
    requires
        s.len() >= 1,
        s.last() == StackEntry::Value(Val::I32(a)),
    ensures
        plain_post(InstructionType::I8x16Splat, s, s2, st, st2, r) ==> r is Ok && s2.len() == s.len() && s2.drop_last() == s.drop_last()
            && (s2.last() matches StackEntry::Value(Val::Vec(z)) && forall|i: int| 0 <= i < 16 ==> #[trigger] lane8(z, i) == (a % 0x100) as u8),
        plain_post(InstructionType::I16x8Splat, s, s2, st, st2, r) ==> r is Ok && s2.len() == s.len() && s2.drop_last() == s.drop_last()
            && (s2.last() matches StackEntry::Value(Val::Vec(z)) && forall|i: int| 0 <= i < 8 ==> #[trigger] lane16(z, i) == (a % 0x1_0000) as u16),
        plain_post(InstructionType::I32x4Splat, s, s2, st, st2, r) ==> r is Ok && s2.len() == s.len() && s2.drop_last() == s.drop_last()
            && (s2.last() matches StackEntry::Value(Val::Vec(z)) && forall|i: int| 0 <= i < 4 ==> #[trigger] lane32(z, i) == a),
{
}

/// The lane extractions to an i32, with the vector `v` on top of the stack and a lane
/// index in range: the vector goes and lane `l` comes, as it is for the unsigned
/// ones and the 32-bit lanes, and, for the signed ones, with all the bits above it set
/// where its top bit is set.
pub proof fn law_extract_lane_instructions(
    s: Seq<StackEntry>,
    s2: Seq<StackEntry>,
    st: Store,
    st2: Store,
    r: RResult<()>,
    v: u128,
    l: u8,
)
    requires
        s.len() >= 1,
        s.last() == StackEntry::Value(Val::Vec(v)),
    ensures
        l < 16 ==> (plain_post(InstructionType::I8x16ExtractLaneU(LaneIdx(l)), s, s2, st, st2, r) ==> r is Ok && s2 == s.drop_last().push(StackEntry::Value(Val::I32(lane8(v, l as int) as u32)))),
        l < 16 ==> (plain_post(InstructionType::I8x16ExtractLaneS(LaneIdx(l)), s, s2, st, st2, r) ==> r is Ok && s2 == s.drop_last().push(StackEntry::Value(Val::I32(if lane8(v, l as int) < 0x80 { lane8(v, l as int) as u32 } else { (lane8(v, l as int) + 0xFFFF_FF00) as u32 })))),
        l < 8 ==> (plain_post(InstructionType::I16x8ExtractLaneU(LaneIdx(l)), s, s2, st, st2, r) ==> r is Ok && s2 == s.drop_last().push(StackEntry::Value(Val::I32(lane16(v, l as int) as u32)))),
        l < 8 ==> (plain_post(InstructionType::I16x8ExtractLaneS(LaneIdx(l)), s, s2, st, st2, r) ==> r is Ok && s2 == s.drop_last().push(StackEntry::Value(Val::I32(if lane16(v, l as int) < 0x8000 { lane16(v, l as int) as u32 } else { (lane16(v, l as int) + 0xFFFF_0000) as u32 })))),
        l < 4 ==> (plain_post(InstructionType::I32x4ExtractLane(LaneIdx(l)), s, s2, st, st2, r) ==> r is Ok && s2 == s.drop_last().push(StackEntry::Value(Val::I32(lane32(v, l as int))))),
{
}


/// The bit counts on one i32 operand `a` on top of the stack: it goes and the count comes.
/// `clz` counts the zero bits above the highest one bit, `ctz` those below the lowest
/// one bit; both give 32 for zero, and less than 32 otherwise, where the bit counted to
/// is set and the bits counted are clear.
pub proof fn law_i32_bit_count_instructions(
    s: Seq<StackEntry>,
    s2: Seq<StackEntry>,
    st: Store,
    st2: Store,
    r: RResult<()>,
    a: u32,
)
    requires
        s.len() >= 1,
        s.last() == StackEntry::Value(Val::I32(a)),
    ensures
        plain_post(InstructionType::I32Clz, s, s2, st, st2, r) ==> r is Ok && s2.drop_last() == s.drop_last() && (s2.last() matches StackEntry::Value(
            Val::I32(c),
        ) && c <= 32 && (a == 0 <==> c == 32) && (c < 32 ==> (a >> ((31 - c) as u32)) & 1 != 0) && a >> ((32 - c) as u32) == 0),
        plain_post(InstructionType::I32Ctz, s, s2, st, st2, r) ==> r is Ok && s2.drop_last() == s.drop_last() && (s2.last() matches StackEntry::Value(
            Val::I32(c),
        ) && c <= 32 && (a == 0 <==> c == 32) && (c < 32 ==> (a >> c) & 1 == 1) && forall|j: u32| 0 <= j < c ==> #[trigger] (a >> j) & 1 == 0),
{
    vstd::std_specs::bits::axiom_u32_leading_zeros(a);
    vstd::std_specs::bits::axiom_u32_trailing_zeros(a);
}

/// The bit counts on one i64 operand `a` on top of the stack: it goes and the count comes.
/// `clz` counts the zero bits above the highest one bit, `ctz` those below the lowest
/// one bit; both give 64 for zero, and less than 64 otherwise, where the bit counted to
/// is set and the bits counted are clear.
pub proof fn law_i64_bit_count_instructions(
    s: Seq<StackEntry>,
    s2: Seq<StackEntry>,
    st: Store,
    st2: Store,
    r: RResult<()>,
    a: u64,
)
    requires
        s.len() >= 1,
        s.last() == StackEntry::Value(Val::I64(a)),
    ensures
        plain_post(InstructionType::I64Clz, s, s2, st, st2, r) ==> r is Ok && s2.drop_last() == s.drop_last() && (s2.last() matches StackEntry::Value(
            Val::I64(c),
        ) && c <= 64 && (a == 0 <==> c == 64) && (c < 64 ==> (a >> ((63 - c) as u64)) & 1 != 0) && a >> ((64 - c) as u64) == 0),
        plain_post(InstructionType::I64Ctz, s, s2, st, st2, r) ==> r is Ok && s2.drop_last() == s.drop_last() && (s2.last() matches StackEntry::Value(
            Val::I64(c),
        ) && c <= 64 && (a == 0 <==> c == 64) && (c < 64 ==> (a >> c) & 1 == 1) && forall|j: u64| 0 <= j < c ==> #[trigger] (a >> j) & 1 == 0),
{
    vstd::std_specs::bits::axiom_u64_leading_zeros(a);
    vstd::std_specs::bits::axiom_u64_trailing_zeros(a);
}


/// The 32-bit stores that succeed, from the memory argument `m`, with the value `t` on
/// top of the stack: the memory gets, at the address, the low 1, 2 or 4 bytes of `t`,
/// the lowest first, and keeps the rest of its bytes.
pub proof fn law_i32_store_instructions(
    s: Seq<StackEntry>,
    s2: Seq<StackEntry>,
    st: Store,
    st2: Store,
    r: RResult<()>,
    m: MemArg,
    t: u32,
)
    requires
        s.len() >= 1,
        s.last() == StackEntry::Value(Val::I32(t)),
    ensures
        plain_post(InstructionType::I32Store8(m), s, s2, st, st2, r) && r is Ok ==> st2.mems@[frame_mem(s)->0 as int].data@
            == frame_mem_data(s.drop_last(), st).subrange(0, load_ea(s.drop_last(), m.0.0)) + seq![(t % 0x100) as u8] + frame_mem_data(
            s.drop_last(),
            st,
        ).subrange(load_ea(s.drop_last(), m.0.0) + 1, frame_mem_data(s.drop_last(), st).len() as int),
        plain_post(InstructionType::I32Store16(m), s, s2, st, st2, r) && r is Ok ==> st2.mems@[frame_mem(s)->0 as int].data@
            == frame_mem_data(s.drop_last(), st).subrange(0, load_ea(s.drop_last(), m.0.0)) + seq![(t % 0x100) as u8, ((t / 0x100) % 0x100) as u8] + frame_mem_data(
            s.drop_last(),
            st,
        ).subrange(load_ea(s.drop_last(), m.0.0) + 2, frame_mem_data(s.drop_last(), st).len() as int),
        plain_post(InstructionType::I32Store(m), s, s2, st, st2, r) && r is Ok ==> st2.mems@[frame_mem(s)->0 as int].data@
            == frame_mem_data(s.drop_last(), st).subrange(0, load_ea(s.drop_last(), m.0.0)) + seq![(t % 0x100) as u8, ((t / 0x100) % 0x100) as u8, ((t / 0x1_0000) % 0x100) as u8, ((t / 0x100_0000) % 0x100) as u8] + frame_mem_data(
            s.drop_last(),
            st,
        ).subrange(load_ea(s.drop_last(), m.0.0) + 4, frame_mem_data(s.drop_last(), st).len() as int),
{
    reveal_with_fuel(le_bytes, 5);
    reveal_with_fuel(pow256, 4);
    lemma_pow256_values();
    assert(pow256(0) == 1);
    assert(le_bytes(t as nat, 0) =~= Seq::<u8>::empty());
    assert((t as nat) / 1 == t as nat);
    assert(le_bytes(t as nat, 1) =~= seq![(t % 0x100) as u8]);
    assert(le_bytes(t as nat, 2) =~= seq![(t % 0x100) as u8, ((t / 0x100) % 0x100) as u8]);
    assert(le_bytes(t as nat, 4) =~= seq![(t % 0x100) as u8, ((t / 0x100) % 0x100) as u8, ((t / 0x1_0000) % 0x100) as u8, ((t / 0x100_0000) % 0x100) as u8]);
}

/// The 64-bit stores that succeed, from the memory argument `m`, with the value `t` on
/// top of the stack: the memory gets, at the address, the low 1, 2 or 4 bytes of `t`,
/// the lowest first, and keeps the rest of its bytes.
pub proof fn law_i64_store_instructions(
    s: Seq<StackEntry>,
    s2: Seq<StackEntry>,
    st: Store,
    st2: Store,
    r: RResult<()>,
    m: MemArg,
    t: u64,
)
    requires
        s.len() >= 1,
        s.last() == StackEntry::Value(Val::I64(t)),
    ensures
        plain_post(InstructionType::I64Store8(m), s, s2, st, st2, r) && r is Ok ==> st2.mems@[frame_mem(s)->0 as int].data@
            == frame_mem_data(s.drop_last(), st).subrange(0, load_ea(s.drop_last(), m.0.0)) + seq![(t % 0x100) as u8] + frame_mem_data(
            s.drop_last(),
            st,
        ).subrange(load_ea(s.drop_last(), m.0.0) + 1, frame_mem_data(s.drop_last(), st).len() as int),
        plain_post(InstructionType::I64Store16(m), s, s2, st, st2, r) && r is Ok ==> st2.mems@[frame_mem(s)->0 as int].data@
            == frame_mem_data(s.drop_last(), st).subrange(0, load_ea(s.drop_last(), m.0.0)) + seq![(t % 0x100) as u8, ((t / 0x100) % 0x100) as u8] + frame_mem_data(
            s.drop_last(),
            st,
        ).subrange(load_ea(s.drop_last(), m.0.0) + 2, frame_mem_data(s.drop_last(), st).len() as int),
        plain_post(InstructionType::I64Store32(m), s, s2, st, st2, r) && r is Ok ==> st2.mems@[frame_mem(s)->0 as int].data@
            == frame_mem_data(s.drop_last(), st).subrange(0, load_ea(s.drop_last(), m.0.0)) + seq![(t % 0x100) as u8, ((t / 0x100) % 0x100) as u8, ((t / 0x1_0000) % 0x100) as u8, ((t / 0x100_0000) % 0x100) as u8] + frame_mem_data(
            s.drop_last(),
            st,
        ).subrange(load_ea(s.drop_last(), m.0.0) + 4, frame_mem_data(s.drop_last(), st).len() as int),
{
    reveal_with_fuel(le_bytes, 5);
    reveal_with_fuel(pow256, 4);
    lemma_pow256_values();
    assert(pow256(0) == 1);
    assert(le_bytes(t as nat, 0) =~= Seq::<u8>::empty());
    assert((t as nat) / 1 == t as nat);
    assert(le_bytes(t as nat, 1) =~= seq![(t % 0x100) as u8]);
    assert(le_bytes(t as nat, 2) =~= seq![(t % 0x100) as u8, ((t / 0x100) % 0x100) as u8]);
    assert(le_bytes(t as nat, 4) =~= seq![(t % 0x100) as u8, ((t / 0x100) % 0x100) as u8, ((t / 0x1_0000) % 0x100) as u8, ((t / 0x100_0000) % 0x100) as u8]);
}

} // verus!
