use vstd::prelude::*;

use crate::execute::float::{FloatBinop, FloatOps};
use crate::execute::operands::{
    binop_f32_f32_any_post, binop_f32_f32_post, binop_f64_f64_any_post, binop_f64_f64_post, binop_i32_i32_post, binop_i64_i64_post, pop_f32_pair,
    pop_f64_pair, pop_i32_pair, pop_i64_pair,
};
use crate::instances::stack::{push_val, Stack, StackEntry};
use crate::instances::value::Val;
use crate::result::{RResult, Trap};

verus! {

/// `x` reduced modulo 2^32.
pub open spec fn wrap32(x: int) -> u32 {
    (x % 0x1_0000_0000) as u32
}

/// `x` reduced modulo 2^64.
pub open spec fn wrap64(x: int) -> u64 {
    (x % 0x1_0000_0000_0000_0000) as u64
}

/// A 32-bit pattern read as two's complement.
pub open spec fn signed32(a: u32) -> int {
    if a < 0x8000_0000 {
        a as int
    } else {
        a as int - 0x1_0000_0000
    }
}

/// A 64-bit pattern read as two's complement.
pub open spec fn signed64(a: u64) -> int {
    if a < 0x8000_0000_0000_0000 {
        a as int
    } else {
        a as int - 0x1_0000_0000_0000_0000
    }
}

pub open spec fn abs_int(x: int) -> int {
    if x < 0 {
        -x
    } else {
        x
    }
}

/// Division rounding toward zero.
pub open spec fn trunc_div(a: int, b: int) -> int {
    let q = abs_int(a) / abs_int(b);
    if (a < 0) == (b < 0) {
        q
    } else {
        -q
    }
}

/// The remainder of `trunc_div`; it has the sign of `a`.
pub open spec fn trunc_rem(a: int, b: int) -> int {
    a - b * trunc_div(a, b)
}

pub open spec fn spec_idiv_32_u(a: u32, b: u32) -> RResult<u32> {
    if b == 0 {
        Err(Trap)
    } else {
        Ok((a / b) as u32)
    }
}

pub open spec fn spec_idiv_64_u(a: u64, b: u64) -> RResult<u64> {
    if b == 0 {
        Err(Trap)
    } else {
        Ok((a / b) as u64)
    }
}

/// Signed 32-bit division by the Euclidean rule (the remainder is never negative);
/// a quotient of -2^31, or one that does not fit, traps.
pub open spec fn spec_idiv_32_s(a: u32, b: u32) -> RResult<u32> {
    if signed32(b) == 0 {
        Err(Trap)
    } else {
        let q = signed32(a) / signed32(b);
        if q == -0x8000_0000 || q == 0x8000_0000 {
            Err(Trap)
        } else {
            Ok(wrap32(q))
        }
    }
}

/// Signed 64-bit division rounding toward zero; a quotient of -2^63, or one that
/// does not fit, traps.
pub open spec fn spec_idiv_64_s(a: u64, b: u64) -> RResult<u64> {
    if signed64(b) == 0 {
        Err(Trap)
    } else {
        let q = trunc_div(signed64(a), signed64(b));
        if q == -0x8000_0000_0000_0000 || q == 0x8000_0000_0000_0000 {
            Err(Trap)
        } else {
            Ok(wrap64(q))
        }
    }
}

pub open spec fn spec_irem_32_u(a: u32, b: u32) -> RResult<u32> {
    if b == 0 {
        Err(Trap)
    } else {
        Ok((a % b) as u32)
    }
}

pub open spec fn spec_irem_64_u(a: u64, b: u64) -> RResult<u64> {
    if b == 0 {
        Err(Trap)
    } else {
        Ok((a % b) as u64)
    }
}

/// Signed 32-bit remainder with the sign of the dividend; the one quotient that
/// does not fit (-2^31 / -1) traps.
pub open spec fn spec_irem_32_s(a: u32, b: u32) -> RResult<u32> {
    if signed32(b) == 0 || (signed32(a) == -0x8000_0000 && signed32(b) == -1) {
        Err(Trap)
    } else {
        Ok(wrap32(trunc_rem(signed32(a), signed32(b))))
    }
}

/// Signed 64-bit remainder with the sign of the dividend; the one quotient that
/// does not fit (-2^63 / -1) traps.
pub open spec fn spec_irem_64_s(a: u64, b: u64) -> RResult<u64> {
    if signed64(b) == 0 || (signed64(a) == -0x8000_0000_0000_0000 && signed64(b) == -1) {
        Err(Trap)
    } else {
        Ok(wrap64(trunc_rem(signed64(a), signed64(b))))
    }
}

/// Rotation to the left by `k` bits, `k < 32`.
pub open spec fn rotl32(x: u32, k: u32) -> u32 {
    if k == 0 {
        x
    } else {
        (x << k) | (x >> (32 - k) as u32)
    }
}

/// Rotation to the left by `k` bits, `k < 64`.
pub open spec fn rotl64(x: u64, k: u64) -> u64 {
    if k == 0 {
        x
    } else {
        (x << k) | (x >> (64 - k) as u64)
    }
}

/// Rotation to the right by `k` bits, `k < 32`.
pub open spec fn rotr32(x: u32, k: u32) -> u32 {
    if k == 0 {
        x
    } else {
        (x >> k) | (x << (32 - k) as u32)
    }
}

/// Rotation to the right by `k` bits, `k < 64`.
pub open spec fn rotr64(x: u64, k: u64) -> u64 {
    if k == 0 {
        x
    } else {
        (x >> k) | (x << (64 - k) as u64)
    }
}

/// Subtracting what was added gives back the first operand, modulo 2^32.
pub proof fn law_sub_undoes_add_32(a: u32, b: u32)
    ensures
        wrap32(wrap32(a + b) - b) == a,
{
    if a + b >= 0x1_0000_0000 {
        assert(wrap32(a + b) == a + b - 0x1_0000_0000);
    } else {
        assert(wrap32(a + b) == a + b);
    }
}

/// Subtracting what was added gives back the first operand, modulo 2^64.
pub proof fn law_sub_undoes_add_64(a: u64, b: u64)
    ensures
        wrap64(wrap64(a + b) - b) == a,
{
    if a + b >= 0x1_0000_0000_0000_0000 {
        assert(wrap64(a + b) == a + b - 0x1_0000_0000_0000_0000);
    } else {
        assert(wrap64(a + b) == a + b);
    }
}

/// Rotating right by the count of a left rotation gives back the value.
pub proof fn law_rotr_undoes_rotl_32(x: u32, k: u32)
    requires
        k < 32,
    ensures
        rotr32(rotl32(x, k), k) == x,
{
    if k > 0 {
        let y = (x << k) | (x >> (32 - k) as u32);
        assert((y >> k) | (y << (32 - k) as u32) == x) by (bit_vector)
            requires
                0 < k < 32,
                y == (x << k) | (x >> (32 - k) as u32),
        ;
    }
}

/// Rotating right by the count of a left rotation gives back the value.
pub proof fn law_rotr_undoes_rotl_64(x: u64, k: u64)
    requires
        k < 64,
    ensures
        rotr64(rotl64(x, k), k) == x,
{
    if k > 0 {
        let y = (x << k) | (x >> (64 - k) as u64);
        assert((y >> k) | (y << (64 - k) as u64) == x) by (bit_vector)
            requires
                0 < k < 64,
                y == (x << k) | (x >> (64 - k) as u64),
        ;
    }
}

pub fn iadd_16(a: u16, b: u16) -> (r: RResult<u16>)
    ensures
        r == Ok::<u16, Trap>(((a + b) % 0x10000) as u16),
{
    Ok(((a as u32 + b as u32) % 0x10000) as u16)
}

pub fn iadd_32(a: u32, b: u32) -> (r: RResult<u32>)
    ensures
        r == Ok::<u32, Trap>(wrap32(a + b)),
{
    Ok(((a as u64 + b as u64) % 0x1_0000_0000) as u32)
}

pub fn iadd_64(a: u64, b: u64) -> (r: RResult<u64>)
    ensures
        r == Ok::<u64, Trap>(wrap64(a + b)),
{
    Ok(((a as u128 + b as u128) % 0x1_0000_0000_0000_0000) as u64)
}

pub fn isub_32(a: u32, b: u32) -> (r: RResult<u32>)
    ensures
        r == Ok::<u32, Trap>(wrap32(a - b)),
{
    Ok(((a as u64 + 0x1_0000_0000 - b as u64) % 0x1_0000_0000) as u32)
}

pub fn isub_64(a: u64, b: u64) -> (r: RResult<u64>)
    ensures
        r == Ok::<u64, Trap>(wrap64(a - b)),
{
    Ok(((a as u128 + 0x1_0000_0000_0000_0000 - b as u128) % 0x1_0000_0000_0000_0000) as u64)
}

pub fn imul_16(a: u16, b: u16) -> (r: u16)
    ensures
        r == ((a * b) % 0x10000) as u16,
{
    assert(a * b <= 0xFFFF * 0xFFFF) by (nonlinear_arith)
        requires
            a <= 0xFFFF,
            b <= 0xFFFF,
    ;
    ((a as u64 * b as u64) % 0x10000) as u16
}

pub fn imul_32(a: u32, b: u32) -> (r: RResult<u32>)
    ensures
        r == Ok::<u32, Trap>(wrap32(a * b)),
{
    assert(a * b <= 0xFFFF_FFFF * 0xFFFF_FFFF) by (nonlinear_arith)
        requires
            a <= 0xFFFF_FFFF,
            b <= 0xFFFF_FFFF,
    ;
    Ok(((a as u64 * b as u64) % 0x1_0000_0000) as u32)
}

pub fn imul_64(a: u64, b: u64) -> (r: RResult<u64>)
    ensures
        r == Ok::<u64, Trap>(wrap64(a * b)),
{
    assert(a * b <= 0xFFFF_FFFF_FFFF_FFFF * 0xFFFF_FFFF_FFFF_FFFF) by (nonlinear_arith)
        requires
            a <= 0xFFFF_FFFF_FFFF_FFFF,
            b <= 0xFFFF_FFFF_FFFF_FFFF,
    ;
    Ok(((a as u128 * b as u128) % 0x1_0000_0000_0000_0000) as u64)
}

pub fn idiv_32_u(a: u32, b: u32) -> (r: RResult<u32>)
    ensures
        r == spec_idiv_32_u(a, b),
{
    if b == 0 {
        return Err(Trap);
    }
    Ok(a / b)
}

pub fn idiv_64_u(a: u64, b: u64) -> (r: RResult<u64>)
    ensures
        r == spec_idiv_64_u(a, b),
{
    if b == 0 {
        return Err(Trap);
    }
    Ok(a / b)
}

/// The magnitude of a two's complement 32-bit pattern.
fn magnitude32(a: u32) -> (r: u64)
    ensures
        r as int == abs_int(signed32(a)),
{
    if a < 0x8000_0000 {
        a as u64
    } else {
        0x1_0000_0000u64 - a as u64
    }
}

/// The magnitude of a two's complement 64-bit pattern.
fn magnitude64(a: u64) -> (r: u128)
    ensures
        r as int == abs_int(signed64(a)),
{
    if a < 0x8000_0000_0000_0000 {
        a as u128
    } else {
        0x1_0000_0000_0000_0000u128 - a as u128
    }
}

/// The Euclidean quotient from the one that rounds toward zero.
proof fn lemma_euclid_from_trunc(a: int, b: int)
    requires
        b != 0,
    ensures
        trunc_rem(a, b) == (if a < 0 {
            -(abs_int(a) % abs_int(b))
        } else {
            abs_int(a) % abs_int(b)
        }),
        trunc_rem(a, b) >= 0 ==> a / b == trunc_div(a, b),
        trunc_rem(a, b) < 0 && b > 0 ==> a / b == trunc_div(a, b) - 1,
        trunc_rem(a, b) < 0 && b < 0 ==> a / b == trunc_div(a, b) + 1,
{
    let q = abs_int(a) / abs_int(b);
    let m = abs_int(a) % abs_int(b);
    assert(abs_int(a) == abs_int(b) * q + m && 0 <= m < abs_int(b)) by (nonlinear_arith)
        requires
            abs_int(b) > 0,
            q == abs_int(a) / abs_int(b),
            m == abs_int(a) % abs_int(b),
            abs_int(a) >= 0,
    ;
    let t = trunc_div(a, b);
    let r = trunc_rem(a, b);
    assert(r == if a < 0 { -m } else { m }) by (nonlinear_arith)
        requires
            abs_int(a) == abs_int(b) * q + m,
            t == (if (a < 0) == (b < 0) { q } else { -q }),
            r == a - b * t,
            abs_int(a) == (if a < 0 { -a } else { a }),
            abs_int(b) == (if b < 0 { -b } else { b }),
    ;
    assert(b * (t - 1) == b * t - b) by (nonlinear_arith);
    assert(b * (t + 1) == b * t + b) by (nonlinear_arith);
    if r >= 0 {
        assert(a / b == t) by (nonlinear_arith)
            requires
                a == b * t + r,
                0 <= r < abs_int(b),
                abs_int(b) == (if b < 0 { -b } else { b }),
                b != 0,
        ;
    } else if b > 0 {
        assert(a / b == t - 1) by (nonlinear_arith)
            requires
                a == b * (t - 1) + (r + b),
                0 <= r + b < b,
        ;
    } else {
        assert(a / b == t + 1) by (nonlinear_arith)
            requires
                a == b * (t + 1) + (r - b),
                0 <= r - b < -b,
                b < 0,
        ;
    }
}

pub fn idiv_32_s(a: u32, b: u32) -> (r: RResult<u32>)
    ensures
        r == spec_idiv_32_s(a, b),
{
    if b == 0 {
        return Err(Trap);
    }
    let ma = magnitude32(a);
    let mb = magnitude32(b);
    let q = ma / mb;
    let m = ma % mb;
    let negative = (a >= 0x8000_0000) != (b >= 0x8000_0000);
    // The quotient rounded toward zero, as a magnitude and a sign.
    let (mag, neg): (u64, bool) = if a >= 0x8000_0000 && m != 0 {
        // The remainder rounded toward zero is negative: move one step away from it.
        if b < 0x8000_0000 {
            // b > 0: the quotient decreases by one.
            (q + 1, true)
        } else {
            // b < 0: the quotient increases by one.
            (q + 1, false)
        }
    } else {
        (q, negative && q != 0)
    };
    proof {
        lemma_euclid_from_trunc(signed32(a), signed32(b));
        assert(q <= ma) by (nonlinear_arith)
            requires
                mb >= 1,
                q == ma / mb,
        ;
        if m != 0 {
            assert(mb >= 2);
            assert(q <= 0x4000_0000) by (nonlinear_arith)
                requires
                    mb >= 2,
                    q == ma / mb,
                    ma <= 0x8000_0000,
            ;
        }
    }
    if mag >= 0x8000_0000 {
        return Err(Trap);
    }
    let res: u32 = if neg {
        (0x1_0000_0000u64 - mag) as u32
    } else {
        mag as u32
    };
    Ok(res)
}

/// Division of magnitudes with the sign rule of division toward zero.
proof fn lemma_trunc_parts(a: int, b: int)
    requires
        b != 0,
    ensures
        abs_int(trunc_div(a, b)) == abs_int(a) / abs_int(b),
        trunc_rem(a, b) == (if a < 0 {
            -(abs_int(a) % abs_int(b))
        } else {
            abs_int(a) % abs_int(b)
        }),
{
    lemma_euclid_from_trunc(a, b);
}

pub fn idiv_64_s(a: u64, b: u64) -> (r: RResult<u64>)
    ensures
        r == spec_idiv_64_s(a, b),
{
    if b == 0 {
        return Err(Trap);
    }
    let ma = magnitude64(a);
    let mb = magnitude64(b);
    let q = ma / mb;
    proof {
        lemma_trunc_parts(signed64(a), signed64(b));
        assert(q <= ma) by (nonlinear_arith)
            requires
                mb >= 1,
                q == ma / mb,
        ;
    }
    if q >= 0x8000_0000_0000_0000 {
        return Err(Trap);
    }
    let negative = (a >= 0x8000_0000_0000_0000) != (b >= 0x8000_0000_0000_0000);
    if negative && q != 0 {
        Ok((0x1_0000_0000_0000_0000u128 - q) as u64)
    } else {
        Ok(q as u64)
    }
}

pub fn irem_32_u(a: u32, b: u32) -> (r: RResult<u32>)
    ensures
        r == spec_irem_32_u(a, b),
{
    if b == 0 {
        return Err(Trap);
    }
    Ok(a % b)
}

pub fn irem_64_u(a: u64, b: u64) -> (r: RResult<u64>)
    ensures
        r == spec_irem_64_u(a, b),
{
    if b == 0 {
        return Err(Trap);
    }
    Ok(a % b)
}

pub fn irem_32_s(a: u32, b: u32) -> (r: RResult<u32>)
    ensures
        r == spec_irem_32_s(a, b),
{
    if b == 0 || (a == 0x8000_0000 && b == 0xFFFF_FFFF) {
        return Err(Trap);
    }
    let ma = magnitude32(a);
    let mb = magnitude32(b);
    let m = ma % mb;
    proof {
        lemma_trunc_parts(signed32(a), signed32(b));
    }
    if a >= 0x8000_0000 && m != 0 {
        Ok((0x1_0000_0000u64 - m) as u32)
    } else {
        Ok(m as u32)
    }
}

pub fn irem_64_s(a: u64, b: u64) -> (r: RResult<u64>)
    ensures
        r == spec_irem_64_s(a, b),
{
    if b == 0 || (a == 0x8000_0000_0000_0000 && b == 0xFFFF_FFFF_FFFF_FFFF) {
        return Err(Trap);
    }
    let ma = magnitude64(a);
    let mb = magnitude64(b);
    let m = ma % mb;
    proof {
        lemma_trunc_parts(signed64(a), signed64(b));
    }
    if a >= 0x8000_0000_0000_0000 && m != 0 {
        Ok((0x1_0000_0000_0000_0000u128 - m) as u64)
    } else {
        Ok(m as u64)
    }
}

pub fn iand(lhs: u128, rhs: u128) -> (r: RResult<u128>)
    ensures
        r == Ok::<u128, Trap>(lhs & rhs),
{
    Ok(lhs & rhs)
}

pub fn iandnot(lhs: u128, rhs: u128) -> (r: RResult<u128>)
    ensures
        r == Ok::<u128, Trap>(lhs & !rhs),
{
    Ok(lhs & !rhs)
}

pub fn ior(lhs: u128, rhs: u128) -> (r: RResult<u128>)
    ensures
        r == Ok::<u128, Trap>(lhs | rhs),
{
    Ok(lhs | rhs)
}

pub fn ixor(lhs: u128, rhs: u128) -> (r: RResult<u128>)
    ensures
        r == Ok::<u128, Trap>(lhs ^ rhs),
{
    Ok(lhs ^ rhs)
}

pub fn ishl_32(lhs: u32, rhs: u32) -> (r: RResult<u32>)
    ensures
        r == Ok::<u32, Trap>(lhs << (rhs % 32)),
{
    Ok(lhs << (rhs % 32))
}

pub fn ishl_64(lhs: u64, rhs: u64) -> (r: RResult<u64>)
    ensures
        r == Ok::<u64, Trap>(lhs << (rhs % 64)),
{
    Ok(lhs << (rhs % 64))
}

pub fn ishr_u_32(lhs: u32, rhs: u32) -> (r: RResult<u32>)
    ensures
        r == Ok::<u32, Trap>(lhs >> (rhs % 32)),
{
    Ok(lhs >> (rhs % 32))
}

pub fn ishr_u_64(lhs: u64, rhs: u64) -> (r: RResult<u64>)
    ensures
        r == Ok::<u64, Trap>(lhs >> (rhs % 64)),
{
    Ok(lhs >> (rhs % 64))
}

/// Shift to the right that copies the sign bit into the vacated positions.
pub fn ishr_s_32(lhs: u32, rhs: u32) -> (r: RResult<u32>)
    ensures
        r == Ok::<u32, Trap>(((lhs as i32) >> (rhs % 32)) as u32),
{
    Ok(((lhs as i32) >> (rhs % 32)) as u32)
}

/// Shift to the right that copies the sign bit into the vacated positions.
pub fn ishr_s_64(lhs: u64, rhs: u64) -> (r: RResult<u64>)
    ensures
        r == Ok::<u64, Trap>(((lhs as i64) >> (rhs % 64)) as u64),
{
    Ok(((lhs as i64) >> (rhs % 64)) as u64)
}

pub fn irotl_32(lhs: u32, rhs: u32) -> (r: RResult<u32>)
    ensures
        r == Ok::<u32, Trap>(rotl32(lhs, rhs % 32)),
{
    let k = rhs % 32;
    if k == 0 {
        Ok(lhs)
    } else {
        Ok((lhs << k) | (lhs >> (32 - k)))
    }
}

pub fn irotl_64(lhs: u64, rhs: u64) -> (r: RResult<u64>)
    ensures
        r == Ok::<u64, Trap>(rotl64(lhs, rhs % 64)),
{
    let k = rhs % 64;
    if k == 0 {
        Ok(lhs)
    } else {
        Ok((lhs << k) | (lhs >> (64 - k)))
    }
}

pub fn irotr_32(lhs: u32, rhs: u32) -> (r: RResult<u32>)
    ensures
        r == Ok::<u32, Trap>(rotr32(lhs, rhs % 32)),
{
    let k = rhs % 32;
    if k == 0 {
        Ok(lhs)
    } else {
        Ok((lhs >> k) | (lhs << (32 - k)))
    }
}

pub fn irotr_64(lhs: u64, rhs: u64) -> (r: RResult<u64>)
    ensures
        r == Ok::<u64, Trap>(rotr64(lhs, rhs % 64)),
{
    let k = rhs % 64;
    if k == 0 {
        Ok(lhs)
    } else {
        Ok((lhs >> k) | (lhs << (64 - k)))
    }
}

/// The sign bit of a 32-bit float pattern.
pub open spec fn f32_sign_bit() -> u32 {
    0x8000_0000
}

/// The sign bit of a 64-bit float pattern.
pub open spec fn f64_sign_bit() -> u64 {
    0x8000_0000_0000_0000
}

/// `lhs` with the sign of `rhs`, on 32-bit float patterns.
pub fn fcopysign_32(lhs: u32, rhs: u32) -> (r: RResult<u32>)
    ensures
        r == Ok::<u32, Trap>((lhs & !f32_sign_bit()) | (rhs & f32_sign_bit())),
{
    Ok((lhs & !0x8000_0000u32) | (rhs & 0x8000_0000u32))
}

/// `lhs` with the sign of `rhs`, on 64-bit float patterns.
pub fn fcopysign_64(lhs: u64, rhs: u64) -> (r: RResult<u64>)
    ensures
        r == Ok::<u64, Trap>((lhs & !f64_sign_bit()) | (rhs & f64_sign_bit())),
{
    Ok((lhs & !0x8000_0000_0000_0000u64) | (rhs & 0x8000_0000_0000_0000u64))
}

pub fn i32_add(stack: &mut Stack) -> (r: RResult<()>)
    ensures
        binop_i32_i32_post(old(stack)@, final(stack)@, r, |a: u32, b: u32| Ok::<u32, Trap>(wrap32(a + b))),
{
    let (a, b) = pop_i32_pair(stack)?;
    let v = iadd_32(a, b)?;
    stack.push_value(Val::I32(v));
    Ok(())
}

pub fn i64_add(stack: &mut Stack) -> (r: RResult<()>)
    ensures
        binop_i64_i64_post(old(stack)@, final(stack)@, r, |a: u64, b: u64| Ok::<u64, Trap>(wrap64(a + b))),
{
    let (a, b) = pop_i64_pair(stack)?;
    let v = iadd_64(a, b)?;
    stack.push_value(Val::I64(v));
    Ok(())
}

pub fn i32_sub(stack: &mut Stack) -> (r: RResult<()>)
    ensures
        binop_i32_i32_post(old(stack)@, final(stack)@, r, |a: u32, b: u32| Ok::<u32, Trap>(wrap32(a - b))),
{
    let (a, b) = pop_i32_pair(stack)?;
    let v = isub_32(a, b)?;
    stack.push_value(Val::I32(v));
    Ok(())
}

pub fn i64_sub(stack: &mut Stack) -> (r: RResult<()>)
    ensures
        binop_i64_i64_post(old(stack)@, final(stack)@, r, |a: u64, b: u64| Ok::<u64, Trap>(wrap64(a - b))),
{
    let (a, b) = pop_i64_pair(stack)?;
    let v = isub_64(a, b)?;
    stack.push_value(Val::I64(v));
    Ok(())
}

pub fn i32_mul(stack: &mut Stack) -> (r: RResult<()>)
    ensures
        binop_i32_i32_post(old(stack)@, final(stack)@, r, |a: u32, b: u32| Ok::<u32, Trap>(wrap32(a * b))),
{
    let (a, b) = pop_i32_pair(stack)?;
    let v = imul_32(a, b)?;
    stack.push_value(Val::I32(v));
    Ok(())
}

pub fn i64_mul(stack: &mut Stack) -> (r: RResult<()>)
    ensures
        binop_i64_i64_post(old(stack)@, final(stack)@, r, |a: u64, b: u64| Ok::<u64, Trap>(wrap64(a * b))),
{
    let (a, b) = pop_i64_pair(stack)?;
    let v = imul_64(a, b)?;
    stack.push_value(Val::I64(v));
    Ok(())
}

pub fn i32_div_u(stack: &mut Stack) -> (r: RResult<()>)
    ensures
        binop_i32_i32_post(old(stack)@, final(stack)@, r, |a: u32, b: u32| spec_idiv_32_u(a, b)),
{
    let (a, b) = pop_i32_pair(stack)?;
    let v = idiv_32_u(a, b)?;
    stack.push_value(Val::I32(v));
    Ok(())
}

pub fn i64_div_u(stack: &mut Stack) -> (r: RResult<()>)
    ensures
        binop_i64_i64_post(old(stack)@, final(stack)@, r, |a: u64, b: u64| spec_idiv_64_u(a, b)),
{
    let (a, b) = pop_i64_pair(stack)?;
    let v = idiv_64_u(a, b)?;
    stack.push_value(Val::I64(v));
    Ok(())
}

pub fn i32_div_s(stack: &mut Stack) -> (r: RResult<()>)
    ensures
        binop_i32_i32_post(old(stack)@, final(stack)@, r, |a: u32, b: u32| spec_idiv_32_s(a, b)),
{
    let (a, b) = pop_i32_pair(stack)?;
    let v = idiv_32_s(a, b)?;
    stack.push_value(Val::I32(v));
    Ok(())
}

pub fn i64_div_s(stack: &mut Stack) -> (r: RResult<()>)
    ensures
        binop_i64_i64_post(old(stack)@, final(stack)@, r, |a: u64, b: u64| spec_idiv_64_s(a, b)),
{
    let (a, b) = pop_i64_pair(stack)?;
    let v = idiv_64_s(a, b)?;
    stack.push_value(Val::I64(v));
    Ok(())
}

pub fn i32_rem_u(stack: &mut Stack) -> (r: RResult<()>)
    ensures
        binop_i32_i32_post(old(stack)@, final(stack)@, r, |a: u32, b: u32| spec_irem_32_u(a, b)),
{
    let (a, b) = pop_i32_pair(stack)?;
    let v = irem_32_u(a, b)?;
    stack.push_value(Val::I32(v));
    Ok(())
}

pub fn i64_rem_u(stack: &mut Stack) -> (r: RResult<()>)
    ensures
        binop_i64_i64_post(old(stack)@, final(stack)@, r, |a: u64, b: u64| spec_irem_64_u(a, b)),
{
    let (a, b) = pop_i64_pair(stack)?;
    let v = irem_64_u(a, b)?;
    stack.push_value(Val::I64(v));
    Ok(())
}

pub fn i32_rem_s(stack: &mut Stack) -> (r: RResult<()>)
    ensures
        binop_i32_i32_post(old(stack)@, final(stack)@, r, |a: u32, b: u32| spec_irem_32_s(a, b)),
{
    let (a, b) = pop_i32_pair(stack)?;
    let v = irem_32_s(a, b)?;
    stack.push_value(Val::I32(v));
    Ok(())
}

pub fn i64_rem_s(stack: &mut Stack) -> (r: RResult<()>)
    ensures
        binop_i64_i64_post(old(stack)@, final(stack)@, r, |a: u64, b: u64| spec_irem_64_s(a, b)),
{
    let (a, b) = pop_i64_pair(stack)?;
    let v = irem_64_s(a, b)?;
    stack.push_value(Val::I64(v));
    Ok(())
}

pub fn i32_and(stack: &mut Stack) -> (r: RResult<()>)
    ensures
        binop_i32_i32_post(old(stack)@, final(stack)@, r, |a: u32, b: u32| Ok::<u32, Trap>(a & b)),
{
    let (a, b) = pop_i32_pair(stack)?;
    let v = a & b;
    stack.push_value(Val::I32(v));
    Ok(())
}

pub fn i64_and(stack: &mut Stack) -> (r: RResult<()>)
    ensures
        binop_i64_i64_post(old(stack)@, final(stack)@, r, |a: u64, b: u64| Ok::<u64, Trap>(a & b)),
{
    let (a, b) = pop_i64_pair(stack)?;
    let v = a & b;
    stack.push_value(Val::I64(v));
    Ok(())
}

pub fn i32_or(stack: &mut Stack) -> (r: RResult<()>)
    ensures
        binop_i32_i32_post(old(stack)@, final(stack)@, r, |a: u32, b: u32| Ok::<u32, Trap>(a | b)),
{
    let (a, b) = pop_i32_pair(stack)?;
    let v = a | b;
    stack.push_value(Val::I32(v));
    Ok(())
}

pub fn i64_or(stack: &mut Stack) -> (r: RResult<()>)
    ensures
        binop_i64_i64_post(old(stack)@, final(stack)@, r, |a: u64, b: u64| Ok::<u64, Trap>(a | b)),
{
    let (a, b) = pop_i64_pair(stack)?;
    let v = a | b;
    stack.push_value(Val::I64(v));
    Ok(())
}

pub fn i32_xor(stack: &mut Stack) -> (r: RResult<()>)
    ensures
        binop_i32_i32_post(old(stack)@, final(stack)@, r, |a: u32, b: u32| Ok::<u32, Trap>(a ^ b)),
{
    let (a, b) = pop_i32_pair(stack)?;
    let v = a ^ b;
    stack.push_value(Val::I32(v));
    Ok(())
}

pub fn i64_xor(stack: &mut Stack) -> (r: RResult<()>)
    ensures
        binop_i64_i64_post(old(stack)@, final(stack)@, r, |a: u64, b: u64| Ok::<u64, Trap>(a ^ b)),
{
    let (a, b) = pop_i64_pair(stack)?;
    let v = a ^ b;
    stack.push_value(Val::I64(v));
    Ok(())
}

pub fn i32_shl(stack: &mut Stack) -> (r: RResult<()>)
    ensures
        binop_i32_i32_post(old(stack)@, final(stack)@, r, |a: u32, b: u32| Ok::<u32, Trap>(a << (b % 32))),
{
    let (a, b) = pop_i32_pair(stack)?;
    let v = ishl_32(a, b)?;
    stack.push_value(Val::I32(v));
    Ok(())
}

pub fn i64_shl(stack: &mut Stack) -> (r: RResult<()>)
    ensures
        binop_i64_i64_post(old(stack)@, final(stack)@, r, |a: u64, b: u64| Ok::<u64, Trap>(a << (b % 64))),
{
    let (a, b) = pop_i64_pair(stack)?;
    let v = ishl_64(a, b)?;
    stack.push_value(Val::I64(v));
    Ok(())
}

pub fn i32_shr_u(stack: &mut Stack) -> (r: RResult<()>)
    ensures
        binop_i32_i32_post(old(stack)@, final(stack)@, r, |a: u32, b: u32| Ok::<u32, Trap>(a >> (b % 32))),
{
    let (a, b) = pop_i32_pair(stack)?;
    let v = ishr_u_32(a, b)?;
    stack.push_value(Val::I32(v));
    Ok(())
}

pub fn i64_shr_u(stack: &mut Stack) -> (r: RResult<()>)
    ensures
        binop_i64_i64_post(old(stack)@, final(stack)@, r, |a: u64, b: u64| Ok::<u64, Trap>(a >> (b % 64))),
{
    let (a, b) = pop_i64_pair(stack)?;
    let v = ishr_u_64(a, b)?;
    stack.push_value(Val::I64(v));
    Ok(())
}

pub fn i32_shr_s(stack: &mut Stack) -> (r: RResult<()>)
    ensures
        binop_i32_i32_post(old(stack)@, final(stack)@, r, |a: u32, b: u32| Ok::<u32, Trap>(((a as i32) >> (b % 32)) as u32)),
{
    let (a, b) = pop_i32_pair(stack)?;
    let v = ishr_s_32(a, b)?;
    stack.push_value(Val::I32(v));
    Ok(())
}

pub fn i64_shr_s(stack: &mut Stack) -> (r: RResult<()>)
    ensures
        binop_i64_i64_post(old(stack)@, final(stack)@, r, |a: u64, b: u64| Ok::<u64, Trap>(((a as i64) >> (b % 64)) as u64)),
{
    let (a, b) = pop_i64_pair(stack)?;
    let v = ishr_s_64(a, b)?;
    stack.push_value(Val::I64(v));
    Ok(())
}

pub fn i32_rotl(stack: &mut Stack) -> (r: RResult<()>)
    ensures
        binop_i32_i32_post(old(stack)@, final(stack)@, r, |a: u32, b: u32| Ok::<u32, Trap>(rotl32(a, b % 32))),
{
    let (a, b) = pop_i32_pair(stack)?;
    let v = irotl_32(a, b)?;
    stack.push_value(Val::I32(v));
    Ok(())
}

pub fn i64_rotl(stack: &mut Stack) -> (r: RResult<()>)
    ensures
        binop_i64_i64_post(old(stack)@, final(stack)@, r, |a: u64, b: u64| Ok::<u64, Trap>(rotl64(a, b % 64))),
{
    let (a, b) = pop_i64_pair(stack)?;
    let v = irotl_64(a, b)?;
    stack.push_value(Val::I64(v));
    Ok(())
}

pub fn i32_rotr(stack: &mut Stack) -> (r: RResult<()>)
    ensures
        binop_i32_i32_post(old(stack)@, final(stack)@, r, |a: u32, b: u32| Ok::<u32, Trap>(rotr32(a, b % 32))),
{
    let (a, b) = pop_i32_pair(stack)?;
    let v = irotr_32(a, b)?;
    stack.push_value(Val::I32(v));
    Ok(())
}

pub fn i64_rotr(stack: &mut Stack) -> (r: RResult<()>)
    ensures
        binop_i64_i64_post(old(stack)@, final(stack)@, r, |a: u64, b: u64| Ok::<u64, Trap>(rotr64(a, b % 64))),
{
    let (a, b) = pop_i64_pair(stack)?;
    let v = irotr_64(a, b)?;
    stack.push_value(Val::I64(v));
    Ok(())
}

/// Pops two f32 operands and pushes what `floats` computes for them.
pub fn f32_add<F: FloatOps>(stack: &mut Stack, floats: &F) -> (r: RResult<()>)
    ensures
        binop_f32_f32_any_post(old(stack)@, final(stack)@, r),
{
    let (a, b) = pop_f32_pair(stack)?;
    let v = floats.binop_f32(FloatBinop::Add, a, b);
    stack.push_value(Val::F32(v));
    proof {
        assert(stack@.drop_last() =~= old(stack)@.drop_last().drop_last());
    }
    Ok(())
}

/// Pops two f64 operands and pushes what `floats` computes for them.
pub fn f64_add<F: FloatOps>(stack: &mut Stack, floats: &F) -> (r: RResult<()>)
    ensures
        binop_f64_f64_any_post(old(stack)@, final(stack)@, r),
{
    let (a, b) = pop_f64_pair(stack)?;
    let v = floats.binop_f64(FloatBinop::Add, a, b);
    stack.push_value(Val::F64(v));
    proof {
        assert(stack@.drop_last() =~= old(stack)@.drop_last().drop_last());
    }
    Ok(())
}

/// Pops two f32 operands and pushes what `floats` computes for them.
pub fn f32_sub<F: FloatOps>(stack: &mut Stack, floats: &F) -> (r: RResult<()>)
    ensures
        binop_f32_f32_any_post(old(stack)@, final(stack)@, r),
{
    let (a, b) = pop_f32_pair(stack)?;
    let v = floats.binop_f32(FloatBinop::Sub, a, b);
    stack.push_value(Val::F32(v));
    proof {
        assert(stack@.drop_last() =~= old(stack)@.drop_last().drop_last());
    }
    Ok(())
}

/// Pops two f64 operands and pushes what `floats` computes for them.
pub fn f64_sub<F: FloatOps>(stack: &mut Stack, floats: &F) -> (r: RResult<()>)
    ensures
        binop_f64_f64_any_post(old(stack)@, final(stack)@, r),
{
    let (a, b) = pop_f64_pair(stack)?;
    let v = floats.binop_f64(FloatBinop::Sub, a, b);
    stack.push_value(Val::F64(v));
    proof {
        assert(stack@.drop_last() =~= old(stack)@.drop_last().drop_last());
    }
    Ok(())
}

/// Pops two f32 operands and pushes what `floats` computes for them.
pub fn f32_mul<F: FloatOps>(stack: &mut Stack, floats: &F) -> (r: RResult<()>)
    ensures
        binop_f32_f32_any_post(old(stack)@, final(stack)@, r),
{
    let (a, b) = pop_f32_pair(stack)?;
    let v = floats.binop_f32(FloatBinop::Mul, a, b);
    stack.push_value(Val::F32(v));
    proof {
        assert(stack@.drop_last() =~= old(stack)@.drop_last().drop_last());
    }
    Ok(())
}

/// Pops two f64 operands and pushes what `floats` computes for them.
pub fn f64_mul<F: FloatOps>(stack: &mut Stack, floats: &F) -> (r: RResult<()>)
    ensures
        binop_f64_f64_any_post(old(stack)@, final(stack)@, r),
{
    let (a, b) = pop_f64_pair(stack)?;
    let v = floats.binop_f64(FloatBinop::Mul, a, b);
    stack.push_value(Val::F64(v));
    proof {
        assert(stack@.drop_last() =~= old(stack)@.drop_last().drop_last());
    }
    Ok(())
}

/// Pops two f32 operands and pushes what `floats` computes for them.
pub fn f32_div<F: FloatOps>(stack: &mut Stack, floats: &F) -> (r: RResult<()>)
    ensures
        binop_f32_f32_any_post(old(stack)@, final(stack)@, r),
{
    let (a, b) = pop_f32_pair(stack)?;
    let v = floats.binop_f32(FloatBinop::Div, a, b);
    stack.push_value(Val::F32(v));
    proof {
        assert(stack@.drop_last() =~= old(stack)@.drop_last().drop_last());
    }
    Ok(())
}

/// Pops two f64 operands and pushes what `floats` computes for them.
pub fn f64_div<F: FloatOps>(stack: &mut Stack, floats: &F) -> (r: RResult<()>)
    ensures
        binop_f64_f64_any_post(old(stack)@, final(stack)@, r),
{
    let (a, b) = pop_f64_pair(stack)?;
    let v = floats.binop_f64(FloatBinop::Div, a, b);
    stack.push_value(Val::F64(v));
    proof {
        assert(stack@.drop_last() =~= old(stack)@.drop_last().drop_last());
    }
    Ok(())
}

/// Pops two f32 operands and pushes what `floats` computes for them.
pub fn f32_min<F: FloatOps>(stack: &mut Stack, floats: &F) -> (r: RResult<()>)
    ensures
        binop_f32_f32_any_post(old(stack)@, final(stack)@, r),
{
    let (a, b) = pop_f32_pair(stack)?;
    let v = floats.binop_f32(FloatBinop::Min, a, b);
    stack.push_value(Val::F32(v));
    proof {
        assert(stack@.drop_last() =~= old(stack)@.drop_last().drop_last());
    }
    Ok(())
}

/// Pops two f64 operands and pushes what `floats` computes for them.
pub fn f64_min<F: FloatOps>(stack: &mut Stack, floats: &F) -> (r: RResult<()>)
    ensures
        binop_f64_f64_any_post(old(stack)@, final(stack)@, r),
{
    let (a, b) = pop_f64_pair(stack)?;
    let v = floats.binop_f64(FloatBinop::Min, a, b);
    stack.push_value(Val::F64(v));
    proof {
        assert(stack@.drop_last() =~= old(stack)@.drop_last().drop_last());
    }
    Ok(())
}

/// Pops two f32 operands and pushes what `floats` computes for them.
pub fn f32_max<F: FloatOps>(stack: &mut Stack, floats: &F) -> (r: RResult<()>)
    ensures
        binop_f32_f32_any_post(old(stack)@, final(stack)@, r),
{
    let (a, b) = pop_f32_pair(stack)?;
    let v = floats.binop_f32(FloatBinop::Max, a, b);
    stack.push_value(Val::F32(v));
    proof {
        assert(stack@.drop_last() =~= old(stack)@.drop_last().drop_last());
    }
    Ok(())
}

/// Pops two f64 operands and pushes what `floats` computes for them.
pub fn f64_max<F: FloatOps>(stack: &mut Stack, floats: &F) -> (r: RResult<()>)
    ensures
        binop_f64_f64_any_post(old(stack)@, final(stack)@, r),
{
    let (a, b) = pop_f64_pair(stack)?;
    let v = floats.binop_f64(FloatBinop::Max, a, b);
    stack.push_value(Val::F64(v));
    proof {
        assert(stack@.drop_last() =~= old(stack)@.drop_last().drop_last());
    }
    Ok(())
}

pub fn f32_copysign(stack: &mut Stack) -> (r: RResult<()>)
    ensures
        binop_f32_f32_post(old(stack)@, final(stack)@, r, |a: u32, b: u32| Ok::<u32, Trap>((a & !f32_sign_bit()) | (b & f32_sign_bit()))),
{
    let (a, b) = pop_f32_pair(stack)?;
    let v = fcopysign_32(a, b)?;
    stack.push_value(Val::F32(v));
    Ok(())
}

pub fn f64_copysign(stack: &mut Stack) -> (r: RResult<()>)
    ensures
        binop_f64_f64_post(old(stack)@, final(stack)@, r, |a: u64, b: u64| Ok::<u64, Trap>((a & !f64_sign_bit()) | (b & f64_sign_bit()))),
{
    let (a, b) = pop_f64_pair(stack)?;
    let v = fcopysign_64(a, b)?;
    stack.push_value(Val::F64(v));
    Ok(())
}

} // verus!
