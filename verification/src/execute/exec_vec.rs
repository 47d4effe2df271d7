use vstd::prelude::*;

use crate::entities::types::LaneIdx;
use crate::execute::exec_binop::{iadd_32, iand, iandnot, imul_16, imul_32, imul_64, ior, ixor, wrap32, wrap64};
use crate::execute::exec_unop::{popcount, popcount_u64};
use crate::execute::exec_vector::lanes::{
    from_lanes, lane_of, lane_values, lanes_fit, lanes_of, lemma_lanes_of_from_lanes,
    lemma_from_lanes_bound, lemma_pow_values, signed_of, to_lanes_16x8, to_lanes_32x4, to_lanes_64x2,
    to_lanes_8x16, vec_from_lanes, Lane,
};
use crate::execute::float::{FloatBinop, FloatOps, FloatRelop, FloatUnop};
use crate::execute::operands::{as_v128, pop_i32_operand, pop_v128_operand};
use crate::instances::stack::{pop_value_spec, push_val, top_value, Stack, StackEntry};
use crate::instances::value::Val;
use crate::result::{RResult, Trap};

verus! {

// Lane-wise vector instructions. Their operands are taken with `Stack::pop_v128`,
// which leaves an entry of another kind in place, and the first operand given to a
// lane operation is the lane of the vector that was on top of the stack.

/// Lane `i` of the 16 lanes of `v`, the first lane most significant.
pub open spec fn lane8(v: u128, i: int) -> u8 {
    lane_of(v as nat, 0x100, 16, i) as u8
}

/// Lane `i` of the 8 lanes of `v`, the first lane most significant.
pub open spec fn lane16(v: u128, i: int) -> u16 {
    lane_of(v as nat, 0x1_0000, 8, i) as u16
}

/// Lane `i` of the 4 lanes of `v`, the first lane most significant.
pub open spec fn lane32(v: u128, i: int) -> u32 {
    lane_of(v as nat, 0x1_0000_0000, 4, i) as u32
}

/// Lane `i` of the 2 lanes of `v`, the first lane most significant.
pub open spec fn lane64(v: u128, i: int) -> u64 {
    lane_of(v as nat, 0x1_0000_0000_0000_0000, 2, i) as u64
}

/// The two vectors on top of the stack: the upper one first.
fn pop_v128_two(stack: &mut Stack) -> (r: RResult<(u128, u128)>)
    ensures
        match as_v128(top_value(old(stack)@)) {
            Some(x) => match as_v128(top_value(old(stack)@.drop_last())) {
                Some(y) => r == Ok::<(u128, u128), Trap>((x, y)) && final(stack)@ == old(stack)@.drop_last().drop_last(),
                None => r is Err && final(stack)@ == old(stack)@.drop_last(),
            },
            None => r is Err && final(stack)@ == old(stack)@,
        },
{
    let first = match stack.pop_v128() {
        Some(v) => v,
        None => return Err(Trap),
    };
    let second = match stack.pop_v128() {
        Some(v) => v,
        None => return Err(Trap),
    };
    Ok((first, second))
}

/// The effect of an instruction that pops two vectors `x` (the upper) and `y`
/// and pushes a vector `z` with `p(x, y, z)`.
pub open spec fn vec2_post(before: Seq<StackEntry>, after: Seq<StackEntry>, r: RResult<()>, p: spec_fn(u128, u128, u128) -> bool) -> bool {
    match as_v128(top_value(before)) {
        Some(x) => match as_v128(top_value(before.drop_last())) {
            Some(y) => r is Ok && after.len() == before.len() - 1 && after.drop_last()
                == before.drop_last().drop_last() && match after.last() {
                StackEntry::Value(Val::Vec(z)) => p(x, y, z),
                _ => false,
            },
            None => r is Err && after == before.drop_last(),
        },
        None => r is Err && after == before,
    }
}

/// The effect of an instruction that pops one vector `x` and pushes a vector `z`
/// with `p(x, z)`.
pub open spec fn vec1_post(before: Seq<StackEntry>, after: Seq<StackEntry>, r: RResult<()>, p: spec_fn(u128, u128) -> bool) -> bool {
    match as_v128(top_value(before)) {
        Some(x) => r is Ok && after.len() == before.len() && after.drop_last() == before.drop_last()
            && match after.last() {
            StackEntry::Value(Val::Vec(z)) => p(x, z),
            _ => false,
        },
        None => r is Err && after == before,
    }
}

/// Applies `f` to each lane.
fn map_lanes<T: Lane, F: Fn(&T) -> T>(lanes: &Vec<T>, f: &F) -> (r: Vec<T>)
    requires
        forall|x: &T| f.requires((x,)),
    ensures
        r@.len() == lanes@.len(),
        forall|i: int| 0 <= i < lanes@.len() ==> f.ensures((&lanes@[i],), #[trigger] r@[i]),
{
    let mut r: Vec<T> = Vec::new();
    let mut i: usize = 0;
    while i < lanes.len()
        invariant
            i <= lanes@.len(),
            r@.len() == i,
            forall|x: &T| f.requires((x,)),
            forall|j: int| 0 <= j < i ==> f.ensures((&lanes@[j],), #[trigger] r@[j]),
        decreases lanes@.len() - i,
    {
        let y = f(&lanes[i]);
        r.push(y);
        i = i + 1;
    }
    r
}

/// Applies `f` to each pair of lanes.
fn zip_lanes<T: Lane, U, F: Fn((&T, &T)) -> U>(a: &Vec<T>, b: &Vec<T>, f: &F) -> (r: Vec<U>)
    requires
        a@.len() == b@.len(),
        forall|x: &T, y: &T| f.requires(((x, y),)),
    ensures
        r@.len() == a@.len(),
        forall|i: int| 0 <= i < a@.len() ==> f.ensures(((&a@[i], &b@[i]),), #[trigger] r@[i]),
{
    let mut r: Vec<U> = Vec::new();
    let mut i: usize = 0;
    while i < a.len()
        invariant
            i <= a@.len(),
            a@.len() == b@.len(),
            r@.len() == i,
            forall|x: &T, y: &T| f.requires(((x, y),)),
            forall|j: int| 0 <= j < i ==> f.ensures(((&a@[j], &b@[j]),), #[trigger] r@[j]),
        decreases a@.len() - i,
    {
        let y = f((&a[i], &b[i]));
        r.push(y);
        i = i + 1;
    }
    r
}

/// The vector built from lanes given as `u8` values, and what its lanes read back as.
pub fn vec_from_lanes_of_8(lanes: Vec<u8>) -> (r: u128)
    requires
        lanes@.len() == 16,
    ensures
        forall|i: int| 0 <= i < 16 ==> #[trigger] lane8(r, i) == lanes@[i],
{
    vec_from_lanes_8(lanes)
}

/// The vector built from lanes given as `u8` values, and what its lanes read back as.
fn vec_from_lanes_8(lanes: Vec<u8>) -> (r: u128)
    requires
        lanes@.len() == 16,
    ensures
        forall|i: int| 0 <= i < 16 ==> #[trigger] lane8(r, i) == lanes@[i],
{
    let ghost s = lane_values(lanes@);
    let r = vec_from_lanes(lanes);
    proof {
        assert(lanes_fit(s, 0x100)) by {
            assert forall|i: int| 0 <= i < s.len() implies #[trigger] s[i] < 0x100 by {
                assert(s[i] == lanes@[i] as nat);
            }
        }
        lemma_lanes_of_from_lanes(s, 0x100);
        assert forall|i: int| 0 <= i < 16 implies #[trigger] lane8(r, i) == lanes@[i] by {
            assert(lanes_of(r as nat, 0x100, 16)[i] == s[i]);
        }
    }
    r
}

/// The lanes of `v` as `u8` values.
pub fn lanes_of_8(v: u128) -> (r: Vec<u8>)
    ensures
        r@.len() == 16,
        forall|i: int| 0 <= i < 16 ==> #[trigger] r@[i] == lane8(v, i),
{
    lanes_8(v)
}

/// The lanes of `v` as `u8` values.
fn lanes_8(v: u128) -> (r: Vec<u8>)
    ensures
        r@.len() == 16,
        forall|i: int| 0 <= i < 16 ==> #[trigger] r@[i] == lane8(v, i),
{
    let r = to_lanes_8x16(v);
    proof {
        assert forall|i: int| 0 <= i < 16 implies #[trigger] r@[i] == lane8(v, i) by {
            assert(lane_values(r@)[i] == lanes_of(v as nat, 0x100, 16)[i]);
        }
    }
    r
}

/// Pops a vector and pushes the one whose lanes `func` gives for its lanes.
pub fn unop_8x16<F: Fn(&u8) -> u8>(stack: &mut Stack, func: F) -> (r: RResult<()>)
    requires
        forall|x: &u8| func.requires((x,)),
    ensures
        vec1_post(old(stack)@, final(stack)@, r, |x: u128, z: u128| forall|i: int| 0 <= i < 16 ==> func.ensures((&lane8(x, i),), #[trigger] lane8(z, i))),
{
    let v = match stack.pop_v128() {
        Some(v) => v,
        None => return Err(Trap),
    };
    let lanes = lanes_8(v);
    let mapped = map_lanes(&lanes, &func);
    let z = vec_from_lanes_8(mapped);
    stack.push_value(Val::Vec(z));
    proof {
        assert(stack@.drop_last() =~= old(stack)@.drop_last());
    }
    Ok(())
}

/// Pops two vectors and pushes the one whose lanes `func` gives for their lanes,
/// the upper vector's lane first.
pub fn binop_8x16<F: Fn((&u8, &u8)) -> u8>(stack: &mut Stack, func: F) -> (r: RResult<()>)
    requires
        forall|x: &u8, y: &u8| func.requires(((x, y),)),
    ensures
        vec2_post(old(stack)@, final(stack)@, r, |x: u128, y: u128, z: u128| forall|i: int| 0 <= i < 16 ==> func.ensures(((&lane8(x, i), &lane8(y, i)),), #[trigger] lane8(z, i))),
{
    let (left, right) = pop_v128_two(stack)?;
    let lanes_left = lanes_8(left);
    let lanes_right = lanes_8(right);
    let zipped = zip_lanes(&lanes_left, &lanes_right, &func);
    let z = vec_from_lanes_8(zipped);
    stack.push_value(Val::Vec(z));
    proof {
        assert(stack@.drop_last() =~= old(stack)@.drop_last().drop_last());
    }
    Ok(())
}

/// A lane of all ones for true, of zeros for false.
pub open spec fn mask8(b: bool) -> u8 {
    if b {
        u8::MAX
    } else {
        0
    }
}

fn relop_8(b: bool) -> (r: u8)
    ensures
        r == mask8(b),
{
    if b {
        u8::MAX
    } else {
        0
    }
}

/// Pops two vectors and pushes the lane-wise masks of `func` on their lanes, the
/// upper vector's lane first.
pub fn relop_8x16<F: Fn((&u8, &u8)) -> bool>(stack: &mut Stack, func: F) -> (r: RResult<()>)
    requires
        forall|x: &u8, y: &u8| func.requires(((x, y),)),
    ensures
        vec2_post(old(stack)@, final(stack)@, r, |x: u128, y: u128, z: u128| forall|i: int| 0 <= i < 16 ==> (#[trigger] lane8(z, i) == 0 || lane8(z, i) == u8::MAX) && func.ensures(((&lane8(x, i), &lane8(y, i)),), lane8(z, i) == u8::MAX)),
{
    let (left, right) = pop_v128_two(stack)?;
    let lanes_left = lanes_8(left);
    let lanes_right = lanes_8(right);
    let bools = zip_lanes(&lanes_left, &lanes_right, &func);
    let mut masks: Vec<u8> = Vec::new();
    let mut i: usize = 0;
    while i < bools.len()
        invariant
            i <= bools@.len(),
            bools@.len() == 16,
            masks@.len() == i,
            forall|j: int| 0 <= j < i ==> #[trigger] masks@[j] == mask8(bools@[j]),
        decreases bools@.len() - i,
    {
        masks.push(relop_8(bools[i]));
        i = i + 1;
    }
    let z = vec_from_lanes_8(masks);
    stack.push_value(Val::Vec(z));
    proof {
        assert(stack@.drop_last() =~= old(stack)@.drop_last().drop_last());
        assert forall|k: int| 0 <= k < 16 implies (#[trigger] lane8(z, k) == 0 || lane8(z, k) == u8::MAX) && func.ensures(((&lane8(left, k), &lane8(right, k)),), lane8(z, k) == u8::MAX) by {
            assert(func.ensures(((&lanes_left@[k], &lanes_right@[k]),), bools@[k]));
            assert(lane8(z, k) == masks@[k]);
            assert(bools@[k] == (lane8(z, k) == u8::MAX));
        }
    }
    Ok(())
}

/// The vector built from lanes given as `u16` values, and what its lanes read back as.
pub fn vec_from_lanes_of_16(lanes: Vec<u16>) -> (r: u128)
    requires
        lanes@.len() == 8,
    ensures
        forall|i: int| 0 <= i < 8 ==> #[trigger] lane16(r, i) == lanes@[i],
{
    vec_from_lanes_16(lanes)
}

/// The vector built from lanes given as `u16` values, and what its lanes read back as.
fn vec_from_lanes_16(lanes: Vec<u16>) -> (r: u128)
    requires
        lanes@.len() == 8,
    ensures
        forall|i: int| 0 <= i < 8 ==> #[trigger] lane16(r, i) == lanes@[i],
{
    let ghost s = lane_values(lanes@);
    let r = vec_from_lanes(lanes);
    proof {
        assert(lanes_fit(s, 0x1_0000)) by {
            assert forall|i: int| 0 <= i < s.len() implies #[trigger] s[i] < 0x1_0000 by {
                assert(s[i] == lanes@[i] as nat);
            }
        }
        lemma_lanes_of_from_lanes(s, 0x1_0000);
        assert forall|i: int| 0 <= i < 8 implies #[trigger] lane16(r, i) == lanes@[i] by {
            assert(lanes_of(r as nat, 0x1_0000, 8)[i] == s[i]);
        }
    }
    r
}

/// The lanes of `v` as `u16` values.
pub fn lanes_of_16(v: u128) -> (r: Vec<u16>)
    ensures
        r@.len() == 8,
        forall|i: int| 0 <= i < 8 ==> #[trigger] r@[i] == lane16(v, i),
{
    lanes_16(v)
}

/// The lanes of `v` as `u16` values.
fn lanes_16(v: u128) -> (r: Vec<u16>)
    ensures
        r@.len() == 8,
        forall|i: int| 0 <= i < 8 ==> #[trigger] r@[i] == lane16(v, i),
{
    let r = to_lanes_16x8(v);
    proof {
        assert forall|i: int| 0 <= i < 8 implies #[trigger] r@[i] == lane16(v, i) by {
            assert(lane_values(r@)[i] == lanes_of(v as nat, 0x1_0000, 8)[i]);
        }
    }
    r
}

/// Pops a vector and pushes the one whose lanes `func` gives for its lanes.
pub fn unop_16x8<F: Fn(&u16) -> u16>(stack: &mut Stack, func: F) -> (r: RResult<()>)
    requires
        forall|x: &u16| func.requires((x,)),
    ensures
        vec1_post(old(stack)@, final(stack)@, r, |x: u128, z: u128| forall|i: int| 0 <= i < 8 ==> func.ensures((&lane16(x, i),), #[trigger] lane16(z, i))),
{
    let v = match stack.pop_v128() {
        Some(v) => v,
        None => return Err(Trap),
    };
    let lanes = lanes_16(v);
    let mapped = map_lanes(&lanes, &func);
    let z = vec_from_lanes_16(mapped);
    stack.push_value(Val::Vec(z));
    proof {
        assert(stack@.drop_last() =~= old(stack)@.drop_last());
    }
    Ok(())
}

/// Pops two vectors and pushes the one whose lanes `func` gives for their lanes,
/// the upper vector's lane first.
pub fn binop_16x8<F: Fn((&u16, &u16)) -> u16>(stack: &mut Stack, func: F) -> (r: RResult<()>)
    requires
        forall|x: &u16, y: &u16| func.requires(((x, y),)),
    ensures
        vec2_post(old(stack)@, final(stack)@, r, |x: u128, y: u128, z: u128| forall|i: int| 0 <= i < 8 ==> func.ensures(((&lane16(x, i), &lane16(y, i)),), #[trigger] lane16(z, i))),
{
    let (left, right) = pop_v128_two(stack)?;
    let lanes_left = lanes_16(left);
    let lanes_right = lanes_16(right);
    let zipped = zip_lanes(&lanes_left, &lanes_right, &func);
    let z = vec_from_lanes_16(zipped);
    stack.push_value(Val::Vec(z));
    proof {
        assert(stack@.drop_last() =~= old(stack)@.drop_last().drop_last());
    }
    Ok(())
}

/// A lane of all ones for true, of zeros for false.
pub open spec fn mask16(b: bool) -> u16 {
    if b {
        u16::MAX
    } else {
        0
    }
}

fn relop_16(b: bool) -> (r: u16)
    ensures
        r == mask16(b),
{
    if b {
        u16::MAX
    } else {
        0
    }
}

/// Pops two vectors and pushes the lane-wise masks of `func` on their lanes, the
/// upper vector's lane first.
pub fn relop_16x8<F: Fn((&u16, &u16)) -> bool>(stack: &mut Stack, func: F) -> (r: RResult<()>)
    requires
        forall|x: &u16, y: &u16| func.requires(((x, y),)),
    ensures
        vec2_post(old(stack)@, final(stack)@, r, |x: u128, y: u128, z: u128| forall|i: int| 0 <= i < 8 ==> (#[trigger] lane16(z, i) == 0 || lane16(z, i) == u16::MAX) && func.ensures(((&lane16(x, i), &lane16(y, i)),), lane16(z, i) == u16::MAX)),
{
    let (left, right) = pop_v128_two(stack)?;
    let lanes_left = lanes_16(left);
    let lanes_right = lanes_16(right);
    let bools = zip_lanes(&lanes_left, &lanes_right, &func);
    let mut masks: Vec<u16> = Vec::new();
    let mut i: usize = 0;
    while i < bools.len()
        invariant
            i <= bools@.len(),
            bools@.len() == 8,
            masks@.len() == i,
            forall|j: int| 0 <= j < i ==> #[trigger] masks@[j] == mask16(bools@[j]),
        decreases bools@.len() - i,
    {
        masks.push(relop_16(bools[i]));
        i = i + 1;
    }
    let z = vec_from_lanes_16(masks);
    stack.push_value(Val::Vec(z));
    proof {
        assert(stack@.drop_last() =~= old(stack)@.drop_last().drop_last());
        assert forall|k: int| 0 <= k < 8 implies (#[trigger] lane16(z, k) == 0 || lane16(z, k) == u16::MAX) && func.ensures(((&lane16(left, k), &lane16(right, k)),), lane16(z, k) == u16::MAX) by {
            assert(func.ensures(((&lanes_left@[k], &lanes_right@[k]),), bools@[k]));
            assert(lane16(z, k) == masks@[k]);
            assert(bools@[k] == (lane16(z, k) == u16::MAX));
        }
    }
    Ok(())
}

/// The vector built from lanes given as `u32` values, and what its lanes read back as.
pub fn vec_from_lanes_of_32(lanes: Vec<u32>) -> (r: u128)
    requires
        lanes@.len() == 4,
    ensures
        forall|i: int| 0 <= i < 4 ==> #[trigger] lane32(r, i) == lanes@[i],
{
    vec_from_lanes_32(lanes)
}

/// The vector built from lanes given as `u32` values, and what its lanes read back as.
fn vec_from_lanes_32(lanes: Vec<u32>) -> (r: u128)
    requires
        lanes@.len() == 4,
    ensures
        forall|i: int| 0 <= i < 4 ==> #[trigger] lane32(r, i) == lanes@[i],
{
    let ghost s = lane_values(lanes@);
    let r = vec_from_lanes(lanes);
    proof {
        assert(lanes_fit(s, 0x1_0000_0000)) by {
            assert forall|i: int| 0 <= i < s.len() implies #[trigger] s[i] < 0x1_0000_0000 by {
                assert(s[i] == lanes@[i] as nat);
            }
        }
        lemma_lanes_of_from_lanes(s, 0x1_0000_0000);
        assert forall|i: int| 0 <= i < 4 implies #[trigger] lane32(r, i) == lanes@[i] by {
            assert(lanes_of(r as nat, 0x1_0000_0000, 4)[i] == s[i]);
        }
    }
    r
}

/// The lanes of `v` as `u32` values.
pub fn lanes_of_32(v: u128) -> (r: Vec<u32>)
    ensures
        r@.len() == 4,
        forall|i: int| 0 <= i < 4 ==> #[trigger] r@[i] == lane32(v, i),
{
    lanes_32(v)
}

/// The lanes of `v` as `u32` values.
fn lanes_32(v: u128) -> (r: Vec<u32>)
    ensures
        r@.len() == 4,
        forall|i: int| 0 <= i < 4 ==> #[trigger] r@[i] == lane32(v, i),
{
    let r = to_lanes_32x4(v);
    proof {
        assert forall|i: int| 0 <= i < 4 implies #[trigger] r@[i] == lane32(v, i) by {
            assert(lane_values(r@)[i] == lanes_of(v as nat, 0x1_0000_0000, 4)[i]);
        }
    }
    r
}

/// Pops a vector and pushes the one whose lanes `func` gives for its lanes.
pub fn unop_32x4<F: Fn(&u32) -> u32>(stack: &mut Stack, func: F) -> (r: RResult<()>)
    requires
        forall|x: &u32| func.requires((x,)),
    ensures
        vec1_post(old(stack)@, final(stack)@, r, |x: u128, z: u128| forall|i: int| 0 <= i < 4 ==> func.ensures((&lane32(x, i),), #[trigger] lane32(z, i))),
{
    let v = match stack.pop_v128() {
        Some(v) => v,
        None => return Err(Trap),
    };
    let lanes = lanes_32(v);
    let mapped = map_lanes(&lanes, &func);
    let z = vec_from_lanes_32(mapped);
    stack.push_value(Val::Vec(z));
    proof {
        assert(stack@.drop_last() =~= old(stack)@.drop_last());
    }
    Ok(())
}

/// Pops two vectors and pushes the one whose lanes `func` gives for their lanes,
/// the upper vector's lane first.
pub fn binop_32x4<F: Fn((&u32, &u32)) -> u32>(stack: &mut Stack, func: F) -> (r: RResult<()>)
    requires
        forall|x: &u32, y: &u32| func.requires(((x, y),)),
    ensures
        vec2_post(old(stack)@, final(stack)@, r, |x: u128, y: u128, z: u128| forall|i: int| 0 <= i < 4 ==> func.ensures(((&lane32(x, i), &lane32(y, i)),), #[trigger] lane32(z, i))),
{
    let (left, right) = pop_v128_two(stack)?;
    let lanes_left = lanes_32(left);
    let lanes_right = lanes_32(right);
    let zipped = zip_lanes(&lanes_left, &lanes_right, &func);
    let z = vec_from_lanes_32(zipped);
    stack.push_value(Val::Vec(z));
    proof {
        assert(stack@.drop_last() =~= old(stack)@.drop_last().drop_last());
    }
    Ok(())
}

/// A lane of all ones for true, of zeros for false.
pub open spec fn mask32(b: bool) -> u32 {
    if b {
        u32::MAX
    } else {
        0
    }
}

fn relop_32(b: bool) -> (r: u32)
    ensures
        r == mask32(b),
{
    if b {
        u32::MAX
    } else {
        0
    }
}

/// Pops two vectors and pushes the lane-wise masks of `func` on their lanes, the
/// upper vector's lane first.
pub fn relop_32x4<F: Fn((&u32, &u32)) -> bool>(stack: &mut Stack, func: F) -> (r: RResult<()>)
    requires
        forall|x: &u32, y: &u32| func.requires(((x, y),)),
    ensures
        vec2_post(old(stack)@, final(stack)@, r, |x: u128, y: u128, z: u128| forall|i: int| 0 <= i < 4 ==> (#[trigger] lane32(z, i) == 0 || lane32(z, i) == u32::MAX) && func.ensures(((&lane32(x, i), &lane32(y, i)),), lane32(z, i) == u32::MAX)),
{
    let (left, right) = pop_v128_two(stack)?;
    let lanes_left = lanes_32(left);
    let lanes_right = lanes_32(right);
    let bools = zip_lanes(&lanes_left, &lanes_right, &func);
    let mut masks: Vec<u32> = Vec::new();
    let mut i: usize = 0;
    while i < bools.len()
        invariant
            i <= bools@.len(),
            bools@.len() == 4,
            masks@.len() == i,
            forall|j: int| 0 <= j < i ==> #[trigger] masks@[j] == mask32(bools@[j]),
        decreases bools@.len() - i,
    {
        masks.push(relop_32(bools[i]));
        i = i + 1;
    }
    let z = vec_from_lanes_32(masks);
    stack.push_value(Val::Vec(z));
    proof {
        assert(stack@.drop_last() =~= old(stack)@.drop_last().drop_last());
        assert forall|k: int| 0 <= k < 4 implies (#[trigger] lane32(z, k) == 0 || lane32(z, k) == u32::MAX) && func.ensures(((&lane32(left, k), &lane32(right, k)),), lane32(z, k) == u32::MAX) by {
            assert(func.ensures(((&lanes_left@[k], &lanes_right@[k]),), bools@[k]));
            assert(lane32(z, k) == masks@[k]);
            assert(bools@[k] == (lane32(z, k) == u32::MAX));
        }
    }
    Ok(())
}

/// The vector built from lanes given as `u64` values, and what its lanes read back as.
pub fn vec_from_lanes_of_64(lanes: Vec<u64>) -> (r: u128)
    requires
        lanes@.len() == 2,
    ensures
        forall|i: int| 0 <= i < 2 ==> #[trigger] lane64(r, i) == lanes@[i],
{
    vec_from_lanes_64(lanes)
}

/// The vector built from lanes given as `u64` values, and what its lanes read back as.
fn vec_from_lanes_64(lanes: Vec<u64>) -> (r: u128)
    requires
        lanes@.len() == 2,
    ensures
        forall|i: int| 0 <= i < 2 ==> #[trigger] lane64(r, i) == lanes@[i],
{
    let ghost s = lane_values(lanes@);
    let r = vec_from_lanes(lanes);
    proof {
        assert(lanes_fit(s, 0x1_0000_0000_0000_0000)) by {
            assert forall|i: int| 0 <= i < s.len() implies #[trigger] s[i] < 0x1_0000_0000_0000_0000 by {
                assert(s[i] == lanes@[i] as nat);
            }
        }
        lemma_lanes_of_from_lanes(s, 0x1_0000_0000_0000_0000);
        assert forall|i: int| 0 <= i < 2 implies #[trigger] lane64(r, i) == lanes@[i] by {
            assert(lanes_of(r as nat, 0x1_0000_0000_0000_0000, 2)[i] == s[i]);
        }
    }
    r
}

/// The lanes of `v` as `u64` values.
pub fn lanes_of_64(v: u128) -> (r: Vec<u64>)
    ensures
        r@.len() == 2,
        forall|i: int| 0 <= i < 2 ==> #[trigger] r@[i] == lane64(v, i),
{
    lanes_64(v)
}

/// The lanes of `v` as `u64` values.
fn lanes_64(v: u128) -> (r: Vec<u64>)
    ensures
        r@.len() == 2,
        forall|i: int| 0 <= i < 2 ==> #[trigger] r@[i] == lane64(v, i),
{
    let r = to_lanes_64x2(v);
    proof {
        assert forall|i: int| 0 <= i < 2 implies #[trigger] r@[i] == lane64(v, i) by {
            assert(lane_values(r@)[i] == lanes_of(v as nat, 0x1_0000_0000_0000_0000, 2)[i]);
        }
    }
    r
}

/// Pops a vector and pushes the one whose lanes `func` gives for its lanes.
pub fn unop_64x2<F: Fn(&u64) -> u64>(stack: &mut Stack, func: F) -> (r: RResult<()>)
    requires
        forall|x: &u64| func.requires((x,)),
    ensures
        vec1_post(old(stack)@, final(stack)@, r, |x: u128, z: u128| forall|i: int| 0 <= i < 2 ==> func.ensures((&lane64(x, i),), #[trigger] lane64(z, i))),
{
    let v = match stack.pop_v128() {
        Some(v) => v,
        None => return Err(Trap),
    };
    let lanes = lanes_64(v);
    let mapped = map_lanes(&lanes, &func);
    let z = vec_from_lanes_64(mapped);
    stack.push_value(Val::Vec(z));
    proof {
        assert(stack@.drop_last() =~= old(stack)@.drop_last());
    }
    Ok(())
}

/// Pops two vectors and pushes the one whose lanes `func` gives for their lanes,
/// the upper vector's lane first.
pub fn binop_64x2<F: Fn((&u64, &u64)) -> u64>(stack: &mut Stack, func: F) -> (r: RResult<()>)
    requires
        forall|x: &u64, y: &u64| func.requires(((x, y),)),
    ensures
        vec2_post(old(stack)@, final(stack)@, r, |x: u128, y: u128, z: u128| forall|i: int| 0 <= i < 2 ==> func.ensures(((&lane64(x, i), &lane64(y, i)),), #[trigger] lane64(z, i))),
{
    let (left, right) = pop_v128_two(stack)?;
    let lanes_left = lanes_64(left);
    let lanes_right = lanes_64(right);
    let zipped = zip_lanes(&lanes_left, &lanes_right, &func);
    let z = vec_from_lanes_64(zipped);
    stack.push_value(Val::Vec(z));
    proof {
        assert(stack@.drop_last() =~= old(stack)@.drop_last().drop_last());
    }
    Ok(())
}

/// A lane of all ones for true, of zeros for false.
pub open spec fn mask64(b: bool) -> u64 {
    if b {
        u64::MAX
    } else {
        0
    }
}

fn relop_64(b: bool) -> (r: u64)
    ensures
        r == mask64(b),
{
    if b {
        u64::MAX
    } else {
        0
    }
}

/// Pops two vectors and pushes the lane-wise masks of `func` on their lanes, the
/// upper vector's lane first.
pub fn relop_64x2<F: Fn((&u64, &u64)) -> bool>(stack: &mut Stack, func: F) -> (r: RResult<()>)
    requires
        forall|x: &u64, y: &u64| func.requires(((x, y),)),
    ensures
        vec2_post(old(stack)@, final(stack)@, r, |x: u128, y: u128, z: u128| forall|i: int| 0 <= i < 2 ==> (#[trigger] lane64(z, i) == 0 || lane64(z, i) == u64::MAX) && func.ensures(((&lane64(x, i), &lane64(y, i)),), lane64(z, i) == u64::MAX)),
{
    let (left, right) = pop_v128_two(stack)?;
    let lanes_left = lanes_64(left);
    let lanes_right = lanes_64(right);
    let bools = zip_lanes(&lanes_left, &lanes_right, &func);
    let mut masks: Vec<u64> = Vec::new();
    let mut i: usize = 0;
    while i < bools.len()
        invariant
            i <= bools@.len(),
            bools@.len() == 2,
            masks@.len() == i,
            forall|j: int| 0 <= j < i ==> #[trigger] masks@[j] == mask64(bools@[j]),
        decreases bools@.len() - i,
    {
        masks.push(relop_64(bools[i]));
        i = i + 1;
    }
    let z = vec_from_lanes_64(masks);
    stack.push_value(Val::Vec(z));
    proof {
        assert(stack@.drop_last() =~= old(stack)@.drop_last().drop_last());
        assert forall|k: int| 0 <= k < 2 implies (#[trigger] lane64(z, k) == 0 || lane64(z, k) == u64::MAX) && func.ensures(((&lane64(left, k), &lane64(right, k)),), lane64(z, k) == u64::MAX) by {
            assert(func.ensures(((&lanes_left@[k], &lanes_right@[k]),), bools@[k]));
            assert(lane64(z, k) == masks@[k]);
            assert(bools@[k] == (lane64(z, k) == u64::MAX));
        }
    }
    Ok(())
}

/// The wrapping absolute value of a lane read as two's complement: the most
/// negative value stays as it is.

pub fn shape_i8_abs(v: &u8) -> (r: u8)
    ensures
        r == (if *v < 0x80 {
            *v as int
        } else {
            (0x100 - *v) % 0x100
        }) as u8,
{
    if *v < 0x80 {
        *v
    } else {
        ((0x100 as u16 - *v as u16) % 0x100) as u8
    }
}

/// The wrapping negation of a lane.
pub fn shape_i8_neg(v: &u8) -> (r: u8)
    ensures
        r == ((0x100 - *v) % 0x100) as u8,
{
    ((0x100 as u16 - *v as u16) % 0x100) as u8
}

pub fn shape_i8_add(args: (&u8, &u8)) -> (r: u8)
    ensures
        r == ((*args.0 + *args.1) % 0x100) as u8,
{
    let (left, right) = args;
    ((*left as u16 + *right as u16) % 0x100) as u8
}

pub fn shape_i8_sub(args: (&u8, &u8)) -> (r: u8)
    ensures
        r == ((*args.0 + 0x100 - *args.1) % 0x100) as u8,
{
    let (left, right) = args;
    ((*left as u16 + 0x100 - *right as u16) % 0x100) as u8
}

pub fn shape_i16_abs(v: &u16) -> (r: u16)
    ensures
        r == (if *v < 0x8000 {
            *v as int
        } else {
            (0x1_0000 - *v) % 0x1_0000
        }) as u16,
{
    if *v < 0x8000 {
        *v
    } else {
        ((0x1_0000 as u32 - *v as u32) % 0x1_0000) as u16
    }
}

/// The wrapping negation of a lane.
pub fn shape_i16_neg(v: &u16) -> (r: u16)
    ensures
        r == ((0x1_0000 - *v) % 0x1_0000) as u16,
{
    ((0x1_0000 as u32 - *v as u32) % 0x1_0000) as u16
}

pub fn shape_i16_add(args: (&u16, &u16)) -> (r: u16)
    ensures
        r == ((*args.0 + *args.1) % 0x1_0000) as u16,
{
    let (left, right) = args;
    ((*left as u32 + *right as u32) % 0x1_0000) as u16
}

pub fn shape_i16_sub(args: (&u16, &u16)) -> (r: u16)
    ensures
        r == ((*args.0 + 0x1_0000 - *args.1) % 0x1_0000) as u16,
{
    let (left, right) = args;
    ((*left as u32 + 0x1_0000 - *right as u32) % 0x1_0000) as u16
}

pub fn shape_i32_abs(v: &u32) -> (r: u32)
    ensures
        r == (if *v < 0x8000_0000 {
            *v as int
        } else {
            (0x1_0000_0000 - *v) % 0x1_0000_0000
        }) as u32,
{
    if *v < 0x8000_0000 {
        *v
    } else {
        ((0x1_0000_0000 as u64 - *v as u64) % 0x1_0000_0000) as u32
    }
}

/// The wrapping negation of a lane.
pub fn shape_i32_neg(v: &u32) -> (r: u32)
    ensures
        r == ((0x1_0000_0000 - *v) % 0x1_0000_0000) as u32,
{
    ((0x1_0000_0000 as u64 - *v as u64) % 0x1_0000_0000) as u32
}

pub fn shape_i32_add(args: (&u32, &u32)) -> (r: u32)
    ensures
        r == ((*args.0 + *args.1) % 0x1_0000_0000) as u32,
{
    let (left, right) = args;
    ((*left as u64 + *right as u64) % 0x1_0000_0000) as u32
}

pub fn shape_i32_sub(args: (&u32, &u32)) -> (r: u32)
    ensures
        r == ((*args.0 + 0x1_0000_0000 - *args.1) % 0x1_0000_0000) as u32,
{
    let (left, right) = args;
    ((*left as u64 + 0x1_0000_0000 - *right as u64) % 0x1_0000_0000) as u32
}

pub fn shape_i64_abs(v: &u64) -> (r: u64)
    ensures
        r == (if *v < 0x8000_0000_0000_0000 {
            *v as int
        } else {
            (0x1_0000_0000_0000_0000 - *v) % 0x1_0000_0000_0000_0000
        }) as u64,
{
    if *v < 0x8000_0000_0000_0000 {
        *v
    } else {
        ((0x1_0000_0000_0000_0000 as u128 - *v as u128) % 0x1_0000_0000_0000_0000) as u64
    }
}

/// The wrapping negation of a lane.
pub fn shape_i64_neg(v: &u64) -> (r: u64)
    ensures
        r == ((0x1_0000_0000_0000_0000 - *v) % 0x1_0000_0000_0000_0000) as u64,
{
    ((0x1_0000_0000_0000_0000 as u128 - *v as u128) % 0x1_0000_0000_0000_0000) as u64
}

pub fn shape_i64_add(args: (&u64, &u64)) -> (r: u64)
    ensures
        r == ((*args.0 + *args.1) % 0x1_0000_0000_0000_0000) as u64,
{
    let (left, right) = args;
    ((*left as u128 + *right as u128) % 0x1_0000_0000_0000_0000) as u64
}

pub fn shape_i64_sub(args: (&u64, &u64)) -> (r: u64)
    ensures
        r == ((*args.0 + 0x1_0000_0000_0000_0000 - *args.1) % 0x1_0000_0000_0000_0000) as u64,
{
    let (left, right) = args;
    ((*left as u128 + 0x1_0000_0000_0000_0000 - *right as u128) % 0x1_0000_0000_0000_0000) as u64
}

pub fn shape_i16_mul(args: (&u16, &u16)) -> (r: u16)
    ensures
        r == ((*args.0 * *args.1) % 0x1_0000) as u16,
{
    let (left, right) = args;
    imul_16(*left, *right)
}

pub fn shape_i32_mul(args: (&u32, &u32)) -> (r: u32)
    ensures
        r == ((*args.0 * *args.1) % 0x1_0000_0000) as u32,
{
    let (left, right) = args;
    match imul_32(*left, *right) { Ok(x) => x, Err(_) => 0 }
}

pub fn shape_i64_mul(args: (&u64, &u64)) -> (r: u64)
    ensures
        r == ((*args.0 * *args.1) % 0x1_0000_0000_0000_0000) as u64,
{
    let (left, right) = args;
    match imul_64(*left, *right) { Ok(x) => x, Err(_) => 0 }
}

pub fn shape_i8_min_u(args: (&u8, &u8)) -> (r: u8)
    ensures
        r == if *args.0 <= *args.1 { *args.0 } else { *args.1 },
{
    let (left, right) = args;
    if *left <= *right { *left } else { *right }
}

pub fn shape_i8_max_u(args: (&u8, &u8)) -> (r: u8)
    ensures
        r == if *args.0 >= *args.1 { *args.0 } else { *args.1 },
{
    let (left, right) = args;
    if *left >= *right { *left } else { *right }
}

pub fn shape_i8_min_s(args: (&u8, &u8)) -> (r: u8)
    ensures
        r == if signed_of(*args.0 as nat, 0x100) <= signed_of(*args.1 as nat, 0x100) { *args.0 } else { *args.1 },
{
    let (left, right) = args;
    if left.to_signed() <= right.to_signed() { *left } else { *right }
}

pub fn shape_i8_max_s(args: (&u8, &u8)) -> (r: u8)
    ensures
        r == if signed_of(*args.0 as nat, 0x100) >= signed_of(*args.1 as nat, 0x100) { *args.0 } else { *args.1 },
{
    let (left, right) = args;
    if left.to_signed() >= right.to_signed() { *left } else { *right }
}

pub fn shape_i16_min_u(args: (&u16, &u16)) -> (r: u16)
    ensures
        r == if *args.0 <= *args.1 { *args.0 } else { *args.1 },
{
    let (left, right) = args;
    if *left <= *right { *left } else { *right }
}

pub fn shape_i16_max_u(args: (&u16, &u16)) -> (r: u16)
    ensures
        r == if *args.0 >= *args.1 { *args.0 } else { *args.1 },
{
    let (left, right) = args;
    if *left >= *right { *left } else { *right }
}

pub fn shape_i16_min_s(args: (&u16, &u16)) -> (r: u16)
    ensures
        r == if signed_of(*args.0 as nat, 0x1_0000) <= signed_of(*args.1 as nat, 0x1_0000) { *args.0 } else { *args.1 },
{
    let (left, right) = args;
    if left.to_signed() <= right.to_signed() { *left } else { *right }
}

pub fn shape_i16_max_s(args: (&u16, &u16)) -> (r: u16)
    ensures
        r == if signed_of(*args.0 as nat, 0x1_0000) >= signed_of(*args.1 as nat, 0x1_0000) { *args.0 } else { *args.1 },
{
    let (left, right) = args;
    if left.to_signed() >= right.to_signed() { *left } else { *right }
}

pub fn shape_i32_min_u(args: (&u32, &u32)) -> (r: u32)
    ensures
        r == if *args.0 <= *args.1 { *args.0 } else { *args.1 },
{
    let (left, right) = args;
    if *left <= *right { *left } else { *right }
}

pub fn shape_i32_max_u(args: (&u32, &u32)) -> (r: u32)
    ensures
        r == if *args.0 >= *args.1 { *args.0 } else { *args.1 },
{
    let (left, right) = args;
    if *left >= *right { *left } else { *right }
}

pub fn shape_i32_min_s(args: (&u32, &u32)) -> (r: u32)
    ensures
        r == if signed_of(*args.0 as nat, 0x1_0000_0000) <= signed_of(*args.1 as nat, 0x1_0000_0000) { *args.0 } else { *args.1 },
{
    let (left, right) = args;
    if left.to_signed() <= right.to_signed() { *left } else { *right }
}

pub fn shape_i32_max_s(args: (&u32, &u32)) -> (r: u32)
    ensures
        r == if signed_of(*args.0 as nat, 0x1_0000_0000) >= signed_of(*args.1 as nat, 0x1_0000_0000) { *args.0 } else { *args.1 },
{
    let (left, right) = args;
    if left.to_signed() >= right.to_signed() { *left } else { *right }
}

/// Unsigned addition that saturates at the largest lane value.
pub fn shape_i8_sat_add_u(args: (&u8, &u8)) -> (r: u8)
    ensures
        r == if *args.0 + *args.1 < 0x100 { (*args.0 + *args.1) as u8 } else { u8::MAX },
{
    let (left, right) = args;
    let s = *left as u16 + *right as u16;
    if s < 0x100 { s as u8 } else { u8::MAX }
}

/// Signed addition that saturates at the smallest and largest lane values.
pub fn shape_i8_sat_add_s(args: (&u8, &u8)) -> (r: u8)
    ensures
        r == sat_signed(signed_of(*args.0 as nat, 0x100) + signed_of(*args.1 as nat, 0x100), 0x100) as u8,
{
    let (left, right) = args;
    let s = left.to_signed() + right.to_signed();
    saturate_signed_8(s)
}

/// Unsigned subtraction; a negative difference gives the largest lane value.
pub fn shape_i8_sat_sub_u(args: (&u8, &u8)) -> (r: u8)
    ensures
        r == if *args.0 >= *args.1 { (*args.0 - *args.1) as u8 } else { u8::MAX },
{
    let (left, right) = args;
    if *left >= *right { *left - *right } else { u8::MAX }
}

/// Signed subtraction. A difference out of range gives the largest lane value when
/// the minuend is positive and the subtrahend negative, the smallest otherwise.
pub fn shape_i8_sat_sub_s(args: (&u8, &u8)) -> (r: u8)
    ensures
        r == sat_sub_signed(signed_of(*args.0 as nat, 0x100), signed_of(*args.1 as nat, 0x100), 0x100) as u8,
{
    let (left, right) = args;
    let a = left.to_signed();
    let b = right.to_signed();
    let d = a - b;
    if -(0x100 / 2) <= d && d < 0x100 / 2 {
        saturate_signed_8(d)
    } else if a > 0 && b < 0 {
        saturate_signed_8(0x100 / 2 - 1)
    } else {
        saturate_signed_8(-(0x100 / 2))
    }
}

/// Half of the wrapping sum, rounded down.
pub fn shape_i8_avgr_u(args: (&u8, &u8)) -> (r: u8)
    ensures
        r == (((*args.0 + *args.1) % 0x100) / 2) as u8,
{
    shape_i8_add(args) / 2
}

/// `x` clamped to the signed range of `m` values, as an unsigned pattern.
fn saturate_signed_8(x: i128) -> (r: u8)
    requires
        -0x1_0000_0000_0000_0000 <= x <= 0x1_0000_0000_0000_0000,
    ensures
        r == sat_signed(x as int, 0x100) as u8,
{
    if x < -(0x100 / 2) {
        0x80
    } else if x >= 0x100 / 2 {
        0x80 - 1
    } else if x < 0 {
        (x + 0x100) as u8
    } else {
        x as u8
    }
}

/// Unsigned addition that saturates at the largest lane value.
pub fn shape_i16_sat_add_u(args: (&u16, &u16)) -> (r: u16)
    ensures
        r == if *args.0 + *args.1 < 0x1_0000 { (*args.0 + *args.1) as u16 } else { u16::MAX },
{
    let (left, right) = args;
    let s = *left as u32 + *right as u32;
    if s < 0x1_0000 { s as u16 } else { u16::MAX }
}

/// Signed addition that saturates at the smallest and largest lane values.
pub fn shape_i16_sat_add_s(args: (&u16, &u16)) -> (r: u16)
    ensures
        r == sat_signed(signed_of(*args.0 as nat, 0x1_0000) + signed_of(*args.1 as nat, 0x1_0000), 0x1_0000) as u16,
{
    let (left, right) = args;
    let s = left.to_signed() + right.to_signed();
    saturate_signed_16(s)
}

/// Unsigned subtraction; a negative difference gives the largest lane value.
pub fn shape_i16_sat_sub_u(args: (&u16, &u16)) -> (r: u16)
    ensures
        r == if *args.0 >= *args.1 { (*args.0 - *args.1) as u16 } else { u16::MAX },
{
    let (left, right) = args;
    if *left >= *right { *left - *right } else { u16::MAX }
}

/// Signed subtraction. A difference out of range gives the largest lane value when
/// the minuend is positive and the subtrahend negative, the smallest otherwise.
pub fn shape_i16_sat_sub_s(args: (&u16, &u16)) -> (r: u16)
    ensures
        r == sat_sub_signed(signed_of(*args.0 as nat, 0x1_0000), signed_of(*args.1 as nat, 0x1_0000), 0x1_0000) as u16,
{
    let (left, right) = args;
    let a = left.to_signed();
    let b = right.to_signed();
    let d = a - b;
    if -(0x1_0000 / 2) <= d && d < 0x1_0000 / 2 {
        saturate_signed_16(d)
    } else if a > 0 && b < 0 {
        saturate_signed_16(0x1_0000 / 2 - 1)
    } else {
        saturate_signed_16(-(0x1_0000 / 2))
    }
}

/// Half of the wrapping sum, rounded down.
pub fn shape_i16_avgr_u(args: (&u16, &u16)) -> (r: u16)
    ensures
        r == (((*args.0 + *args.1) % 0x1_0000) / 2) as u16,
{
    shape_i16_add(args) / 2
}

/// `x` clamped to the signed range of `m` values, as an unsigned pattern.
fn saturate_signed_16(x: i128) -> (r: u16)
    requires
        -0x1_0000_0000_0000_0000 <= x <= 0x1_0000_0000_0000_0000,
    ensures
        r == sat_signed(x as int, 0x1_0000) as u16,
{
    if x < -(0x1_0000 / 2) {
        0x8000
    } else if x >= 0x1_0000 / 2 {
        0x8000 - 1
    } else if x < 0 {
        (x + 0x1_0000) as u16
    } else {
        x as u16
    }
}

/// `x` clamped to the signed range of `m` values, as an unsigned pattern below `m`.
pub open spec fn sat_signed(x: int, m: int) -> int {
    let c = if x < -(m / 2) {
        -(m / 2)
    } else if x >= m / 2 {
        m / 2 - 1
    } else {
        x
    };
    if c < 0 {
        c + m
    } else {
        c
    }
}

/// Signed difference as the saturating subtraction of lanes computes it.
pub open spec fn sat_sub_signed(a: int, b: int, m: int) -> int {
    let d = a - b;
    if -(m / 2) <= d < m / 2 {
        sat_signed(d, m)
    } else if a > 0 && b < 0 {
        sat_signed(m / 2 - 1, m)
    } else {
        sat_signed(-(m / 2), m)
    }
}

/// The number of one bits of a lane.
pub fn shape_i8_popcnt(v: &u8) -> (r: u8)
    ensures
        r == popcount(*v as nat) as u8,
{
    popcount_u64(*v as u64) as u8
}

/// Rounding multiplication of Q15 lanes, saturating. The lanes are zero-extended
/// before they are multiplied.
pub fn shape_i16_mulr_sat_s(args: (&u16, &u16)) -> (r: u16)
    ensures
        r == q15_mulr(*args.0, *args.1),
{
    let (left, right) = args;
    let l = *left as u32;
    let rr = *right as u32;
    assert(l * rr <= 0xFFFF * 0xFFFF) by (nonlinear_arith)
        requires
            l <= 0xFFFF,
            rr <= 0xFFFF,
    ;
    let mulr = ((l * rr + 0x4000) as i32) >> 15u32;
    if mulr > 0x7FFF {
        0x7FFF
    } else if mulr < -0x8000 {
        0x8000
    } else {
        mulr as u16
    }
}

/// The result of `shape_i16_mulr_sat_s`.
pub open spec fn q15_mulr(a: u16, b: u16) -> u16 {
    let mulr = (((a as u32) * (b as u32) + 0x4000) as i32) >> 15u32;
    if mulr > 0x7FFF {
        0x7FFF
    } else if mulr < -0x8000 {
        0x8000
    } else {
        mulr as u16
    }
}

pub fn shape_eq<T: Lane>(args: (&T, &T)) -> (r: bool)
    ensures
        r == (args.0.value() == args.1.value()),
{
    args.0.to_u128() == args.1.to_u128()
}

pub fn shape_ne<T: Lane>(args: (&T, &T)) -> (r: bool)
    ensures
        r == (args.0.value() != args.1.value()),
{
    args.0.to_u128() != args.1.to_u128()
}

pub fn shape_lt_u<T: Lane>(args: (&T, &T)) -> (r: bool)
    ensures
        r == (args.0.value() < args.1.value()),
{
    args.0.to_u128() < args.1.to_u128()
}

pub fn shape_gt_u<T: Lane>(args: (&T, &T)) -> (r: bool)
    ensures
        r == (args.0.value() > args.1.value()),
{
    args.0.to_u128() > args.1.to_u128()
}

pub fn shape_le_u<T: Lane>(args: (&T, &T)) -> (r: bool)
    ensures
        r == (args.0.value() <= args.1.value()),
{
    args.0.to_u128() <= args.1.to_u128()
}

pub fn shape_ge_u<T: Lane>(args: (&T, &T)) -> (r: bool)
    ensures
        r == (args.0.value() >= args.1.value()),
{
    args.0.to_u128() >= args.1.to_u128()
}

pub fn shape_lt_s<T: Lane>(args: (&T, &T)) -> (r: bool)
    ensures
        r == (args.0.signed_value() < args.1.signed_value()),
{
    args.0.to_signed() < args.1.to_signed()
}

pub fn shape_gt_s<T: Lane>(args: (&T, &T)) -> (r: bool)
    ensures
        r == (args.0.signed_value() > args.1.signed_value()),
{
    args.0.to_signed() > args.1.to_signed()
}

pub fn shape_le_s<T: Lane>(args: (&T, &T)) -> (r: bool)
    ensures
        r == (args.0.signed_value() <= args.1.signed_value()),
{
    args.0.to_signed() <= args.1.to_signed()
}

pub fn shape_ge_s<T: Lane>(args: (&T, &T)) -> (r: bool)
    ensures
        r == (args.0.signed_value() >= args.1.signed_value()),
{
    args.0.to_signed() >= args.1.to_signed()
}

/// Clears the sign bit of an f32 lane.
pub fn shape_f32_abs(v: &u32) -> (r: u32)
    ensures
        r == *v & 0x7FFF_FFFF,
{
    *v & 0x7FFF_FFFF
}

/// Clears the sign bit of an f64 lane.
pub fn shape_f64_abs(v: &u64) -> (r: u64)
    ensures
        r == *v & 0x7FFF_FFFF_FFFF_FFFF,
{
    *v & 0x7FFF_FFFF_FFFF_FFFF
}

/// Flips the sign bit of an f32 lane.
pub fn shape_f32_neg(v: &u32) -> (r: u32)
    ensures
        r == *v ^ 0x8000_0000,
{
    *v ^ 0x8000_0000
}

/// Flips the sign bit of an f64 lane.
pub fn shape_f64_neg(v: &u64) -> (r: u64)
    ensures
        r == *v ^ 0x8000_0000_0000_0000,
{
    *v ^ 0x8000_0000_0000_0000
}

/// Pops two vectors `x` (the upper) and `y` and pushes what `operation(x, y)` gives;
/// an error from `operation` traps.
pub fn vbinop<Op: Fn(u128, u128) -> RResult<u128>>(stack: &mut Stack, operation: Op) -> (r: RResult<()>)
    requires
        forall|a: u128, b: u128| operation.requires((a, b)),
    ensures
        match as_v128(top_value(old(stack)@)) {
            Some(x) => match as_v128(top_value(old(stack)@.drop_last())) {
                Some(y) => exists|res: RResult<u128>| #[trigger] operation.ensures((x, y), res) && match res {
                    Ok(z) => r is Ok && final(stack)@ == push_val(old(stack)@.drop_last().drop_last(), Val::Vec(z)),
                    Err(_) => r is Err && final(stack)@ == old(stack)@.drop_last().drop_last(),
                },
                None => r is Err && final(stack)@ == old(stack)@.drop_last(),
            },
            None => r is Err && final(stack)@ == old(stack)@,
        },
{
    let (first, second) = pop_v128_two(stack)?;
    let res = operation(first, second);
    let z = res?;
    stack.push_value(Val::Vec(z));
    Ok(())
}

/// `vbinop` with one more argument handed to `operation`.
pub fn vbinop_with_value<Op: Fn(u128, u128, V) -> RResult<u128>, V: Copy>(stack: &mut Stack, operation: Op, value: V) -> (r: RResult<()>)
    requires
        forall|a: u128, b: u128| operation.requires((a, b, value)),
    ensures
        match as_v128(top_value(old(stack)@)) {
            Some(x) => match as_v128(top_value(old(stack)@.drop_last())) {
                Some(y) => exists|res: RResult<u128>| #[trigger] operation.ensures((x, y, value), res) && match res {
                    Ok(z) => r is Ok && final(stack)@ == push_val(old(stack)@.drop_last().drop_last(), Val::Vec(z)),
                    Err(_) => r is Err && final(stack)@ == old(stack)@.drop_last().drop_last(),
                },
                None => r is Err && final(stack)@ == old(stack)@.drop_last(),
            },
            None => r is Err && final(stack)@ == old(stack)@,
        },
{
    let (first, second) = pop_v128_two(stack)?;
    let res = operation(first, second, value);
    let z = res?;
    stack.push_value(Val::Vec(z));
    Ok(())
}

/// Pops a vector and pushes what `operation` gives for it.
pub fn vvunop<Op: Fn(u128) -> u128>(stack: &mut Stack, operation: Op) -> (r: RResult<()>)
    requires
        forall|a: u128| operation.requires((a,)),
    ensures
        match as_v128(top_value(old(stack)@)) {
            Some(x) => exists|z: u128| #[trigger] operation.ensures((x,), z) && r is Ok && final(stack)@ == push_val(old(stack)@.drop_last(), Val::Vec(z)),
            None => r is Err && final(stack)@ == old(stack)@,
        },
{
    let v = match stack.pop_v128() {
        Some(v) => v,
        None => return Err(Trap),
    };
    let z = operation(v);
    stack.push_value(Val::Vec(z));
    Ok(())
}

/// Pops three vectors `x` (the upper), `y` and `w` and pushes what
/// `operation(x, y, w)` gives; an error from `operation` traps.
pub fn vternop<Op: Fn(u128, u128, u128) -> RResult<u128>>(stack: &mut Stack, operation: Op) -> (r: RResult<()>)
    requires
        forall|a: u128, b: u128, c: u128| operation.requires((a, b, c)),
    ensures
        match as_v128(top_value(old(stack)@)) {
            Some(x) => match as_v128(top_value(old(stack)@.drop_last())) {
                Some(y) => match as_v128(top_value(old(stack)@.drop_last().drop_last())) {
                    Some(w) => exists|res: RResult<u128>| #[trigger] operation.ensures((x, y, w), res) && match res {
                        Ok(z) => r is Ok && final(stack)@ == push_val(old(stack)@.drop_last().drop_last().drop_last(), Val::Vec(z)),
                        Err(_) => r is Err && final(stack)@ == old(stack)@.drop_last().drop_last().drop_last(),
                    },
                    None => r is Err && final(stack)@ == old(stack)@.drop_last().drop_last(),
                },
                None => r is Err && final(stack)@ == old(stack)@.drop_last(),
            },
            None => r is Err && final(stack)@ == old(stack)@,
        },
{
    let (first, second) = pop_v128_two(stack)?;
    let third = match stack.pop_v128() {
        Some(v) => v,
        None => return Err(Trap),
    };
    let res = operation(first, second, third);
    let z = res?;
    stack.push_value(Val::Vec(z));
    Ok(())
}

pub fn v128_and(stack: &mut Stack) -> (r: RResult<()>)
    ensures
        vec2_post(old(stack)@, final(stack)@, r, |x: u128, y: u128, z: u128| z == x & y),
{
    let (first, second) = pop_v128_two(stack)?;
    let z = iand(first, second)?;
    stack.push_value(Val::Vec(z));
    proof {
        assert(stack@.drop_last() =~= old(stack)@.drop_last().drop_last());
    }
    Ok(())
}

pub fn v128_andnot(stack: &mut Stack) -> (r: RResult<()>)
    ensures
        vec2_post(old(stack)@, final(stack)@, r, |x: u128, y: u128, z: u128| z == x & !y),
{
    let (first, second) = pop_v128_two(stack)?;
    let z = iandnot(first, second)?;
    stack.push_value(Val::Vec(z));
    proof {
        assert(stack@.drop_last() =~= old(stack)@.drop_last().drop_last());
    }
    Ok(())
}

pub fn v128_or(stack: &mut Stack) -> (r: RResult<()>)
    ensures
        vec2_post(old(stack)@, final(stack)@, r, |x: u128, y: u128, z: u128| z == x | y),
{
    let (first, second) = pop_v128_two(stack)?;
    let z = ior(first, second)?;
    stack.push_value(Val::Vec(z));
    proof {
        assert(stack@.drop_last() =~= old(stack)@.drop_last().drop_last());
    }
    Ok(())
}

pub fn v128_xor(stack: &mut Stack) -> (r: RResult<()>)
    ensures
        vec2_post(old(stack)@, final(stack)@, r, |x: u128, y: u128, z: u128| z == x ^ y),
{
    let (first, second) = pop_v128_two(stack)?;
    let z = ixor(first, second)?;
    stack.push_value(Val::Vec(z));
    proof {
        assert(stack@.drop_last() =~= old(stack)@.drop_last().drop_last());
    }
    Ok(())
}

/// Pops a vector and pushes 1 if any of its bits is set, 0 otherwise.
pub fn v128_anytrue(stack: &mut Stack) -> (r: RResult<()>)
    ensures
        match as_v128(top_value(old(stack)@)) {
            Some(x) => r is Ok && final(stack)@ == push_val(old(stack)@.drop_last(), Val::I32(if x != 0 { 1 } else { 0 })),
            None => r is Err && final(stack)@ == pop_value_spec(old(stack)@),
        },
{
    match stack.pop_value() {
        Some(Val::Vec(vector)) => {
            let res: u32 = if vector != 0 { 1 } else { 0 };
            stack.push_value(Val::I32(res));
            Ok(())
        },
        _ => Err(Trap),
    }
}

/// Lane `i` of the result picks the lane of `left` that lane `i` of `right` names,
/// or is 0 when that index is 16 or more.
pub open spec fn swizzle_lane(left: u128, right: u128, i: int) -> u8 {
    if (lane8(right, i) as int) < 16 {
        lane8(left, lane8(right, i) as int)
    } else {
        0
    }
}

fn inner_swizzle_i8x16(left: u128, right: u128) -> (r: RResult<u128>)
    ensures
        r matches Ok(z) && forall|i: int| 0 <= i < 16 ==> #[trigger] lane8(z, i) == swizzle_lane(left, right, i),
{
    let left_lanes = lanes_8(left);
    let right_lanes = lanes_8(right);
    let mut new_lanes: Vec<u8> = Vec::new();
    let mut i: usize = 0;
    while i < 16
        invariant
            i <= 16,
            left_lanes@.len() == 16,
            right_lanes@.len() == 16,
            forall|j: int| 0 <= j < 16 ==> #[trigger] left_lanes@[j] == lane8(left, j),
            forall|j: int| 0 <= j < 16 ==> #[trigger] right_lanes@[j] == lane8(right, j),
            new_lanes@.len() == i,
            forall|j: int| 0 <= j < i ==> #[trigger] new_lanes@[j] == swizzle_lane(left, right, j),
        decreases 16 - i,
    {
        let select_index = right_lanes[i] as usize;
        let lane = if select_index < 16 { left_lanes[select_index] } else { 0 };
        new_lanes.push(lane);
        i = i + 1;
    }
    Ok(vec_from_lanes_8(new_lanes))
}

/// Each lane of the result picks a lane of the upper vector by the lanes of the
/// lower one.
pub fn i8x16_swizzle(stack: &mut Stack) -> (r: RResult<()>)
    ensures
        vec2_post(old(stack)@, final(stack)@, r, |x: u128, y: u128, z: u128| forall|i: int| 0 <= i < 16 ==> #[trigger] lane8(z, i) == swizzle_lane(x, y, i)),
{
    let (left, right) = pop_v128_two(stack)?;
    let z = match inner_swizzle_i8x16(left, right) {
        Ok(z) => z,
        Err(_) => return Err(Trap),
    };
    stack.push_value(Val::Vec(z));
    proof {
        assert(stack@.drop_last() =~= old(stack)@.drop_last().drop_last());
    }
    Ok(())
}

/// Lane `i` of the shuffle of `left` and `right` by `idx`: lanes 0 to 15 are those
/// of `left`, 16 to 31 those of `right`.
pub open spec fn shuffle_lane(left: u128, right: u128, idx: Seq<LaneIdx>, i: int) -> u8 {
    let k = idx[i].0 as int;
    if k < 16 {
        lane8(left, k)
    } else {
        lane8(right, k - 16)
    }
}

/// The shuffle is defined when there are at least 16 indices, each below 32.
pub open spec fn shuffle_ok(idx: Seq<LaneIdx>) -> bool {
    idx.len() >= 16 && forall|i: int| 0 <= i < idx.len() ==> #[trigger] idx[i].0 < 32
}

fn inner_shuffle_i8x16(left: u128, right: u128, lane_idx: &Vec<LaneIdx>) -> (r: RResult<u128>)
    ensures
        shuffle_ok(lane_idx@) ==> (r matches Ok(z) && forall|i: int| 0 <= i < 16 ==> #[trigger] lane8(z, i) == shuffle_lane(left, right, lane_idx@, i)),
        !shuffle_ok(lane_idx@) ==> r is Err,
{
    let mut k: usize = 0;
    while k < lane_idx.len()
        invariant
            k <= lane_idx@.len(),
            forall|i: int| 0 <= i < k ==> #[trigger] lane_idx@[i].0 < 32,
        decreases lane_idx@.len() - k,
    {
        if lane_idx[k].0 >= 32 {
            return Err(Trap);
        }
        k = k + 1;
    }
    if lane_idx.len() < 16 {
        return Err(Trap);
    }
    let left_lanes = lanes_8(left);
    let right_lanes = lanes_8(right);
    let mut new_lanes: Vec<u8> = Vec::new();
    let mut i: usize = 0;
    while i < 16
        invariant
            i <= 16,
            lane_idx@.len() >= 16,
            forall|j: int| 0 <= j < lane_idx@.len() ==> #[trigger] lane_idx@[j].0 < 32,
            left_lanes@.len() == 16,
            right_lanes@.len() == 16,
            forall|j: int| 0 <= j < 16 ==> #[trigger] left_lanes@[j] == lane8(left, j),
            forall|j: int| 0 <= j < 16 ==> #[trigger] right_lanes@[j] == lane8(right, j),
            new_lanes@.len() == i,
            forall|j: int| 0 <= j < i ==> #[trigger] new_lanes@[j] == shuffle_lane(left, right, lane_idx@, j),
        decreases 16 - i,
    {
        let idx = lane_idx[i].0 as usize;
        let lane = if idx < 16 { left_lanes[idx] } else { right_lanes[idx - 16] };
        new_lanes.push(lane);
        i = i + 1;
    }
    Ok(vec_from_lanes_8(new_lanes))
}

/// Shuffles the lanes of the upper vector and the lower one by `value`.
pub fn i8x16_shuffle(stack: &mut Stack, value: &Vec<LaneIdx>) -> (r: RResult<()>)
    ensures
        match as_v128(top_value(old(stack)@)) {
            Some(x) => match as_v128(top_value(old(stack)@.drop_last())) {
                Some(y) => if shuffle_ok(value@) {
                    r is Ok && final(stack)@.len() == old(stack)@.len() - 1
                        && final(stack)@.drop_last() == old(stack)@.drop_last().drop_last()
                        && match final(stack)@.last() {
                            StackEntry::Value(Val::Vec(z)) => forall|i: int| 0 <= i < 16 ==> #[trigger] lane8(z, i) == shuffle_lane(x, y, value@, i),
                            _ => false,
                        }
                } else {
                    r is Err && final(stack)@ == old(stack)@.drop_last().drop_last()
                },
                None => r is Err && final(stack)@ == old(stack)@.drop_last(),
            },
            None => r is Err && final(stack)@ == old(stack)@,
        },
{
    let (left, right) = pop_v128_two(stack)?;
    let z = inner_shuffle_i8x16(left, right, value)?;
    stack.push_value(Val::Vec(z));
    proof {
        assert(stack@.drop_last() =~= old(stack)@.drop_last().drop_last());
    }
    Ok(())
}

/// Pops an i32 and pushes the vector with every lane equal to its low bits.
pub fn i8x16_splat(stack: &mut Stack) -> (r: RResult<()>)
    ensures
        match top_value(old(stack)@) {
            Some(Val::I32(x)) => r is Ok && final(stack)@.len() == old(stack)@.len()
                && final(stack)@.drop_last() == old(stack)@.drop_last() && match final(stack)@.last() {
                StackEntry::Value(Val::Vec(z)) => forall|i: int| 0 <= i < 16 ==> #[trigger] lane8(z, i) == (x % 0x100) as u8,
                _ => false,
            },
            _ => r is Err && final(stack)@ == old(stack)@,
        },
{
    let x = match stack.pop_i32() {
        Some(x) => x,
        None => return Err(Trap),
    };
    let base: u8 = (x % 0x100) as u8;
    let mut lanes: Vec<u8> = Vec::new();
    let mut i: usize = 0;
    while i < 16
        invariant
            i <= 16,
            lanes@.len() == i,
            forall|j: int| 0 <= j < i ==> #[trigger] lanes@[j] == base,
        decreases 16 - i,
    {
        lanes.push(base);
        i = i + 1;
    }
    let z = vec_from_lanes_8(lanes);
    stack.push_value(Val::Vec(z));
    proof {
        assert(stack@.drop_last() =~= old(stack)@.drop_last());
    }
    Ok(())
}

/// Pops an i32 and pushes the vector with every lane equal to its low bits.
pub fn i16x8_splat(stack: &mut Stack) -> (r: RResult<()>)
    ensures
        match top_value(old(stack)@) {
            Some(Val::I32(x)) => r is Ok && final(stack)@.len() == old(stack)@.len()
                && final(stack)@.drop_last() == old(stack)@.drop_last() && match final(stack)@.last() {
                StackEntry::Value(Val::Vec(z)) => forall|i: int| 0 <= i < 8 ==> #[trigger] lane16(z, i) == (x % 0x1_0000) as u16,
                _ => false,
            },
            _ => r is Err && final(stack)@ == old(stack)@,
        },
{
    let x = match stack.pop_i32() {
        Some(x) => x,
        None => return Err(Trap),
    };
    let base: u16 = (x % 0x1_0000) as u16;
    let mut lanes: Vec<u16> = Vec::new();
    let mut i: usize = 0;
    while i < 8
        invariant
            i <= 8,
            lanes@.len() == i,
            forall|j: int| 0 <= j < i ==> #[trigger] lanes@[j] == base,
        decreases 8 - i,
    {
        lanes.push(base);
        i = i + 1;
    }
    let z = vec_from_lanes_16(lanes);
    stack.push_value(Val::Vec(z));
    proof {
        assert(stack@.drop_last() =~= old(stack)@.drop_last());
    }
    Ok(())
}

/// Pops an i32 and pushes the vector with every lane equal to its low bits.
pub fn i32x4_splat(stack: &mut Stack) -> (r: RResult<()>)
    ensures
        match top_value(old(stack)@) {
            Some(Val::I32(x)) => r is Ok && final(stack)@.len() == old(stack)@.len()
                && final(stack)@.drop_last() == old(stack)@.drop_last() && match final(stack)@.last() {
                StackEntry::Value(Val::Vec(z)) => forall|i: int| 0 <= i < 4 ==> #[trigger] lane32(z, i) == x,
                _ => false,
            },
            _ => r is Err && final(stack)@ == old(stack)@,
        },
{
    let x = match stack.pop_i32() {
        Some(x) => x,
        None => return Err(Trap),
    };
    let base: u32 = x;
    let mut lanes: Vec<u32> = Vec::new();
    let mut i: usize = 0;
    while i < 4
        invariant
            i <= 4,
            lanes@.len() == i,
            forall|j: int| 0 <= j < i ==> #[trigger] lanes@[j] == base,
        decreases 4 - i,
    {
        lanes.push(base);
        i = i + 1;
    }
    let z = vec_from_lanes_32(lanes);
    stack.push_value(Val::Vec(z));
    proof {
        assert(stack@.drop_last() =~= old(stack)@.drop_last());
    }
    Ok(())
}

/// Pops an i64 and pushes the vector with every lane equal to its low bits.
pub fn i64x2_splat(stack: &mut Stack) -> (r: RResult<()>)
    ensures
        match top_value(old(stack)@) {
            Some(Val::I64(x)) => r is Ok && final(stack)@.len() == old(stack)@.len()
                && final(stack)@.drop_last() == old(stack)@.drop_last() && match final(stack)@.last() {
                StackEntry::Value(Val::Vec(z)) => forall|i: int| 0 <= i < 2 ==> #[trigger] lane64(z, i) == x,
                _ => false,
            },
            _ => r is Err && final(stack)@ == old(stack)@,
        },
{
    let x = match stack.pop_i64() {
        Some(x) => x,
        None => return Err(Trap),
    };
    let base: u64 = x;
    let mut lanes: Vec<u64> = Vec::new();
    let mut i: usize = 0;
    while i < 2
        invariant
            i <= 2,
            lanes@.len() == i,
            forall|j: int| 0 <= j < i ==> #[trigger] lanes@[j] == base,
        decreases 2 - i,
    {
        lanes.push(base);
        i = i + 1;
    }
    let z = vec_from_lanes_64(lanes);
    stack.push_value(Val::Vec(z));
    proof {
        assert(stack@.drop_last() =~= old(stack)@.drop_last());
    }
    Ok(())
}

/// Pops an i32 and pushes the vector with every lane equal to its low bits.
pub fn f32x4_splat(stack: &mut Stack) -> (r: RResult<()>)
    ensures
        match top_value(old(stack)@) {
            Some(Val::I32(x)) => r is Ok && final(stack)@.len() == old(stack)@.len()
                && final(stack)@.drop_last() == old(stack)@.drop_last() && match final(stack)@.last() {
                StackEntry::Value(Val::Vec(z)) => forall|i: int| 0 <= i < 4 ==> #[trigger] lane32(z, i) == x,
                _ => false,
            },
            _ => r is Err && final(stack)@ == old(stack)@,
        },
{
    let x = match stack.pop_i32() {
        Some(x) => x,
        None => return Err(Trap),
    };
    let base: u32 = x;
    let mut lanes: Vec<u32> = Vec::new();
    let mut i: usize = 0;
    while i < 4
        invariant
            i <= 4,
            lanes@.len() == i,
            forall|j: int| 0 <= j < i ==> #[trigger] lanes@[j] == base,
        decreases 4 - i,
    {
        lanes.push(base);
        i = i + 1;
    }
    let z = vec_from_lanes_32(lanes);
    stack.push_value(Val::Vec(z));
    proof {
        assert(stack@.drop_last() =~= old(stack)@.drop_last());
    }
    Ok(())
}

/// Pops an i64 and pushes the vector with every lane equal to its low bits.
pub fn f64x2_splat(stack: &mut Stack) -> (r: RResult<()>)
    ensures
        match top_value(old(stack)@) {
            Some(Val::I64(x)) => r is Ok && final(stack)@.len() == old(stack)@.len()
                && final(stack)@.drop_last() == old(stack)@.drop_last() && match final(stack)@.last() {
                StackEntry::Value(Val::Vec(z)) => forall|i: int| 0 <= i < 2 ==> #[trigger] lane64(z, i) == x,
                _ => false,
            },
            _ => r is Err && final(stack)@ == old(stack)@,
        },
{
    let x = match stack.pop_i64() {
        Some(x) => x,
        None => return Err(Trap),
    };
    let base: u64 = x;
    let mut lanes: Vec<u64> = Vec::new();
    let mut i: usize = 0;
    while i < 2
        invariant
            i <= 2,
            lanes@.len() == i,
            forall|j: int| 0 <= j < i ==> #[trigger] lanes@[j] == base,
        decreases 2 - i,
    {
        lanes.push(base);
        i = i + 1;
    }
    let z = vec_from_lanes_64(lanes);
    stack.push_value(Val::Vec(z));
    proof {
        assert(stack@.drop_last() =~= old(stack)@.drop_last());
    }
    Ok(())
}

pub fn i8x16_extract_lane_s(stack: &mut Stack, lane_idx: u8) -> (r: RResult<()>)
    ensures
        lane_idx >= 16 ==> r is Err && final(stack)@ == old(stack)@,
        lane_idx < 16 ==> match as_v128(top_value(old(stack)@)) {
            Some(x) => r is Ok && final(stack)@ == push_val(old(stack)@.drop_last(), Val::I32(wrap32(signed_of(lane8(x, lane_idx as int) as nat, 0x100)))),
            None => r is Err && final(stack)@ == old(stack)@,
        },
{
    if lane_idx >= 16 {
        return Err(Trap);
    }
    let vector = match stack.pop_v128() {
        Some(v) => v,
        None => return Err(Trap),
    };
    let lanes = lanes_8(vector);
    let l = lanes[lane_idx as usize];
    let w: u32 = if (l as u32) < 0x100 / 2 {
        l as u32
    } else {
        ((l as u64) + 0x1_0000_0000u64 - 0x100) as u32
    };
    stack.push_value(Val::I32(w));
    Ok(())
}

pub fn i8x16_extract_lane_u(stack: &mut Stack, lane_idx: u8) -> (r: RResult<()>)
    ensures
        lane_idx >= 16 ==> r is Err && final(stack)@ == old(stack)@,
        lane_idx < 16 ==> match as_v128(top_value(old(stack)@)) {
            Some(x) => r is Ok && final(stack)@ == push_val(old(stack)@.drop_last(), Val::I32(lane8(x, lane_idx as int) as u32)),
            None => r is Err && final(stack)@ == old(stack)@,
        },
{
    if lane_idx >= 16 {
        return Err(Trap);
    }
    let vector = match stack.pop_v128() {
        Some(v) => v,
        None => return Err(Trap),
    };
    let lanes = lanes_8(vector);
    let w: u32 = lanes[lane_idx as usize] as u32;
    stack.push_value(Val::I32(w));
    Ok(())
}

pub fn i16x8_extract_lane_s(stack: &mut Stack, lane_idx: u8) -> (r: RResult<()>)
    ensures
        lane_idx >= 8 ==> r is Err && final(stack)@ == old(stack)@,
        lane_idx < 8 ==> match as_v128(top_value(old(stack)@)) {
            Some(x) => r is Ok && final(stack)@ == push_val(old(stack)@.drop_last(), Val::I32(wrap32(signed_of(lane16(x, lane_idx as int) as nat, 0x1_0000)))),
            None => r is Err && final(stack)@ == old(stack)@,
        },
{
    if lane_idx >= 8 {
        return Err(Trap);
    }
    let vector = match stack.pop_v128() {
        Some(v) => v,
        None => return Err(Trap),
    };
    let lanes = lanes_16(vector);
    let l = lanes[lane_idx as usize];
    let w: u32 = if (l as u32) < 0x1_0000 / 2 {
        l as u32
    } else {
        ((l as u64) + 0x1_0000_0000u64 - 0x1_0000) as u32
    };
    stack.push_value(Val::I32(w));
    Ok(())
}

pub fn i16x8_extract_lane_u(stack: &mut Stack, lane_idx: u8) -> (r: RResult<()>)
    ensures
        lane_idx >= 8 ==> r is Err && final(stack)@ == old(stack)@,
        lane_idx < 8 ==> match as_v128(top_value(old(stack)@)) {
            Some(x) => r is Ok && final(stack)@ == push_val(old(stack)@.drop_last(), Val::I32(lane16(x, lane_idx as int) as u32)),
            None => r is Err && final(stack)@ == old(stack)@,
        },
{
    if lane_idx >= 8 {
        return Err(Trap);
    }
    let vector = match stack.pop_v128() {
        Some(v) => v,
        None => return Err(Trap),
    };
    let lanes = lanes_16(vector);
    let w: u32 = lanes[lane_idx as usize] as u32;
    stack.push_value(Val::I32(w));
    Ok(())
}

pub fn i32x4_extract_lane(stack: &mut Stack, lane_idx: u8) -> (r: RResult<()>)
    ensures
        lane_idx >= 4 ==> r is Err && final(stack)@ == old(stack)@,
        lane_idx < 4 ==> match as_v128(top_value(old(stack)@)) {
            Some(x) => r is Ok && final(stack)@ == push_val(old(stack)@.drop_last(), Val::I32(lane32(x, lane_idx as int))),
            None => r is Err && final(stack)@ == old(stack)@,
        },
{
    if lane_idx >= 4 {
        return Err(Trap);
    }
    let vector = match stack.pop_v128() {
        Some(v) => v,
        None => return Err(Trap),
    };
    let lanes = lanes_32(vector);
    let w = lanes[lane_idx as usize];
    stack.push_value(Val::I32(w));
    Ok(())
}

pub fn i64x2_extract_lane(stack: &mut Stack, lane_idx: u8) -> (r: RResult<()>)
    ensures
        lane_idx >= 2 ==> r is Err && final(stack)@ == old(stack)@,
        lane_idx < 2 ==> match as_v128(top_value(old(stack)@)) {
            Some(x) => r is Ok && final(stack)@ == push_val(old(stack)@.drop_last(), Val::I64(lane64(x, lane_idx as int))),
            None => r is Err && final(stack)@ == old(stack)@,
        },
{
    if lane_idx >= 2 {
        return Err(Trap);
    }
    let vector = match stack.pop_v128() {
        Some(v) => v,
        None => return Err(Trap),
    };
    let lanes = lanes_64(vector);
    let w = lanes[lane_idx as usize];
    stack.push_value(Val::I64(w));
    Ok(())
}

pub fn f32x4_extract_lane(stack: &mut Stack, lane_idx: u8) -> (r: RResult<()>)
    ensures
        lane_idx >= 4 ==> r is Err && final(stack)@ == old(stack)@,
        lane_idx < 4 ==> match as_v128(top_value(old(stack)@)) {
            Some(x) => r is Ok && final(stack)@ == push_val(old(stack)@.drop_last(), Val::F32(lane32(x, lane_idx as int))),
            None => r is Err && final(stack)@ == old(stack)@,
        },
{
    if lane_idx >= 4 {
        return Err(Trap);
    }
    let vector = match stack.pop_v128() {
        Some(v) => v,
        None => return Err(Trap),
    };
    let lanes = lanes_32(vector);
    let w = lanes[lane_idx as usize];
    stack.push_value(Val::F32(w));
    Ok(())
}

pub fn f64x2_extract_lane(stack: &mut Stack, lane_idx: u8) -> (r: RResult<()>)
    ensures
        lane_idx >= 2 ==> r is Err && final(stack)@ == old(stack)@,
        lane_idx < 2 ==> match as_v128(top_value(old(stack)@)) {
            Some(x) => r is Ok && final(stack)@ == push_val(old(stack)@.drop_last(), Val::F64(lane64(x, lane_idx as int))),
            None => r is Err && final(stack)@ == old(stack)@,
        },
{
    if lane_idx >= 2 {
        return Err(Trap);
    }
    let vector = match stack.pop_v128() {
        Some(v) => v,
        None => return Err(Trap),
    };
    let lanes = lanes_64(vector);
    let w = lanes[lane_idx as usize];
    stack.push_value(Val::F64(w));
    Ok(())
}

/// Pops a scalar and a vector and pushes the vector with lane `lane_idx` replaced by
/// the scalar's low bits.
pub fn i8x16_replace_lane(stack: &mut Stack, lane_idx: u8) -> (r: RResult<()>)
    ensures
        lane_idx >= 16 ==> r is Err && final(stack)@ == old(stack)@,
        lane_idx < 16 ==> match top_value(old(stack)@) {
            Some(Val::I32(x)) => match as_v128(top_value(old(stack)@.drop_last())) {
                Some(v) => r is Ok && final(stack)@.len() == old(stack)@.len() - 1
                    && final(stack)@.drop_last() == old(stack)@.drop_last().drop_last() && match final(stack)@.last() {
                    StackEntry::Value(Val::Vec(z)) => forall|i: int| 0 <= i < 16 ==> #[trigger] lane8(z, i) == if i == lane_idx {
                        (x % 0x100) as u8
                    } else {
                        lane8(v, i)
                    },
                    _ => false,
                },
                None => r is Err && final(stack)@ == old(stack)@.drop_last(),
            },
            _ => r is Err && final(stack)@ == old(stack)@,
        },
{
    if lane_idx >= 16 {
        return Err(Trap);
    }
    let x = match stack.pop_i32() {
        Some(x) => x,
        None => return Err(Trap),
    };
    let new_lane: u8 = (x % 0x100) as u8;
    let vector = match stack.pop_v128() {
        Some(v) => v,
        None => return Err(Trap),
    };
    let mut lanes = lanes_8(vector);
    lanes.set(lane_idx as usize, new_lane);
    let z = vec_from_lanes_8(lanes);
    stack.push_value(Val::Vec(z));
    proof {
        assert(stack@.drop_last() =~= old(stack)@.drop_last().drop_last());
    }
    Ok(())
}

/// Pops a scalar and a vector and pushes the vector with lane `lane_idx` replaced by
/// the scalar's low bits.
pub fn i16x8_replace_lane(stack: &mut Stack, lane_idx: u8) -> (r: RResult<()>)
    ensures
        lane_idx >= 8 ==> r is Err && final(stack)@ == old(stack)@,
        lane_idx < 8 ==> match top_value(old(stack)@) {
            Some(Val::I32(x)) => match as_v128(top_value(old(stack)@.drop_last())) {
                Some(v) => r is Ok && final(stack)@.len() == old(stack)@.len() - 1
                    && final(stack)@.drop_last() == old(stack)@.drop_last().drop_last() && match final(stack)@.last() {
                    StackEntry::Value(Val::Vec(z)) => forall|i: int| 0 <= i < 8 ==> #[trigger] lane16(z, i) == if i == lane_idx {
                        (x % 0x1_0000) as u16
                    } else {
                        lane16(v, i)
                    },
                    _ => false,
                },
                None => r is Err && final(stack)@ == old(stack)@.drop_last(),
            },
            _ => r is Err && final(stack)@ == old(stack)@,
        },
{
    if lane_idx >= 8 {
        return Err(Trap);
    }
    let x = match stack.pop_i32() {
        Some(x) => x,
        None => return Err(Trap),
    };
    let new_lane: u16 = (x % 0x1_0000) as u16;
    let vector = match stack.pop_v128() {
        Some(v) => v,
        None => return Err(Trap),
    };
    let mut lanes = lanes_16(vector);
    lanes.set(lane_idx as usize, new_lane);
    let z = vec_from_lanes_16(lanes);
    stack.push_value(Val::Vec(z));
    proof {
        assert(stack@.drop_last() =~= old(stack)@.drop_last().drop_last());
    }
    Ok(())
}

/// Pops a scalar and a vector and pushes the vector with lane `lane_idx` replaced by
/// the scalar's low bits.
pub fn i32x4_replace_lane(stack: &mut Stack, lane_idx: u8) -> (r: RResult<()>)
    ensures
        lane_idx >= 4 ==> r is Err && final(stack)@ == old(stack)@,
        lane_idx < 4 ==> match top_value(old(stack)@) {
            Some(Val::I32(x)) => match as_v128(top_value(old(stack)@.drop_last())) {
                Some(v) => r is Ok && final(stack)@.len() == old(stack)@.len() - 1
                    && final(stack)@.drop_last() == old(stack)@.drop_last().drop_last() && match final(stack)@.last() {
                    StackEntry::Value(Val::Vec(z)) => forall|i: int| 0 <= i < 4 ==> #[trigger] lane32(z, i) == if i == lane_idx {
                        x
                    } else {
                        lane32(v, i)
                    },
                    _ => false,
                },
                None => r is Err && final(stack)@ == old(stack)@.drop_last(),
            },
            _ => r is Err && final(stack)@ == old(stack)@,
        },
{
    if lane_idx >= 4 {
        return Err(Trap);
    }
    let x = match stack.pop_i32() {
        Some(x) => x,
        None => return Err(Trap),
    };
    let new_lane: u32 = x;
    let vector = match stack.pop_v128() {
        Some(v) => v,
        None => return Err(Trap),
    };
    let mut lanes = lanes_32(vector);
    lanes.set(lane_idx as usize, new_lane);
    let z = vec_from_lanes_32(lanes);
    stack.push_value(Val::Vec(z));
    proof {
        assert(stack@.drop_last() =~= old(stack)@.drop_last().drop_last());
    }
    Ok(())
}

/// Pops a scalar and a vector and pushes the vector with lane `lane_idx` replaced by
/// the scalar's low bits.
pub fn i64x2_replace_lane(stack: &mut Stack, lane_idx: u8) -> (r: RResult<()>)
    ensures
        lane_idx >= 2 ==> r is Err && final(stack)@ == old(stack)@,
        lane_idx < 2 ==> match top_value(old(stack)@) {
            Some(Val::I64(x)) => match as_v128(top_value(old(stack)@.drop_last())) {
                Some(v) => r is Ok && final(stack)@.len() == old(stack)@.len() - 1
                    && final(stack)@.drop_last() == old(stack)@.drop_last().drop_last() && match final(stack)@.last() {
                    StackEntry::Value(Val::Vec(z)) => forall|i: int| 0 <= i < 2 ==> #[trigger] lane64(z, i) == if i == lane_idx {
                        x
                    } else {
                        lane64(v, i)
                    },
                    _ => false,
                },
                None => r is Err && final(stack)@ == old(stack)@.drop_last(),
            },
            _ => r is Err && final(stack)@ == old(stack)@,
        },
{
    if lane_idx >= 2 {
        return Err(Trap);
    }
    let x = match stack.pop_i64() {
        Some(x) => x,
        None => return Err(Trap),
    };
    let new_lane: u64 = x;
    let vector = match stack.pop_v128() {
        Some(v) => v,
        None => return Err(Trap),
    };
    let mut lanes = lanes_64(vector);
    lanes.set(lane_idx as usize, new_lane);
    let z = vec_from_lanes_64(lanes);
    stack.push_value(Val::Vec(z));
    proof {
        assert(stack@.drop_last() =~= old(stack)@.drop_last().drop_last());
    }
    Ok(())
}

/// Pops a scalar and a vector and pushes the vector with lane `lane_idx` replaced by
/// the scalar's low bits.
pub fn f32x4_replace_lane(stack: &mut Stack, lane_idx: u8) -> (r: RResult<()>)
    ensures
        lane_idx >= 4 ==> r is Err && final(stack)@ == old(stack)@,
        lane_idx < 4 ==> match top_value(old(stack)@) {
            Some(Val::F32(x)) => match as_v128(top_value(old(stack)@.drop_last())) {
                Some(v) => r is Ok && final(stack)@.len() == old(stack)@.len() - 1
                    && final(stack)@.drop_last() == old(stack)@.drop_last().drop_last() && match final(stack)@.last() {
                    StackEntry::Value(Val::Vec(z)) => forall|i: int| 0 <= i < 4 ==> #[trigger] lane32(z, i) == if i == lane_idx {
                        x
                    } else {
                        lane32(v, i)
                    },
                    _ => false,
                },
                None => r is Err && final(stack)@ == old(stack)@.drop_last(),
            },
            _ => r is Err && final(stack)@ == old(stack)@,
        },
{
    if lane_idx >= 4 {
        return Err(Trap);
    }
    let x = match stack.pop_f32() {
        Some(x) => x,
        None => return Err(Trap),
    };
    let new_lane: u32 = x;
    let vector = match stack.pop_v128() {
        Some(v) => v,
        None => return Err(Trap),
    };
    let mut lanes = lanes_32(vector);
    lanes.set(lane_idx as usize, new_lane);
    let z = vec_from_lanes_32(lanes);
    stack.push_value(Val::Vec(z));
    proof {
        assert(stack@.drop_last() =~= old(stack)@.drop_last().drop_last());
    }
    Ok(())
}

/// Pops a scalar and a vector and pushes the vector with lane `lane_idx` replaced by
/// the scalar's low bits.
pub fn f64x2_replace_lane(stack: &mut Stack, lane_idx: u8) -> (r: RResult<()>)
    ensures
        lane_idx >= 2 ==> r is Err && final(stack)@ == old(stack)@,
        lane_idx < 2 ==> match top_value(old(stack)@) {
            Some(Val::F64(x)) => match as_v128(top_value(old(stack)@.drop_last())) {
                Some(v) => r is Ok && final(stack)@.len() == old(stack)@.len() - 1
                    && final(stack)@.drop_last() == old(stack)@.drop_last().drop_last() && match final(stack)@.last() {
                    StackEntry::Value(Val::Vec(z)) => forall|i: int| 0 <= i < 2 ==> #[trigger] lane64(z, i) == if i == lane_idx {
                        x
                    } else {
                        lane64(v, i)
                    },
                    _ => false,
                },
                None => r is Err && final(stack)@ == old(stack)@.drop_last(),
            },
            _ => r is Err && final(stack)@ == old(stack)@,
        },
{
    if lane_idx >= 2 {
        return Err(Trap);
    }
    let x = match stack.pop_f64() {
        Some(x) => x,
        None => return Err(Trap),
    };
    let new_lane: u64 = x;
    let vector = match stack.pop_v128() {
        Some(v) => v,
        None => return Err(Trap),
    };
    let mut lanes = lanes_64(vector);
    lanes.set(lane_idx as usize, new_lane);
    let z = vec_from_lanes_64(lanes);
    stack.push_value(Val::Vec(z));
    proof {
        assert(stack@.drop_last() =~= old(stack)@.drop_last().drop_last());
    }
    Ok(())
}

/// Which half of the lanes a widening operation reads.
#[derive(Debug, Clone, Copy, PartialEq, Eq, Structural)]
pub enum Half {
    Low,
    High,
}

/// The first lane of the half.
pub open spec fn half_start(half: Half, n: int) -> int {
    match half {
        Half::Low => 0,
        Half::High => n,
    }
}

/// `x`, a lane of `m` values, sign-extended to a lane of `big` values.
pub open spec fn sext(x: nat, m: nat, big: nat) -> nat {
    if x < m / 2 {
        x
    } else {
        (x + big - m) as nat
    }
}

pub fn i8_extend_i16_u(v: u8) -> (r: u16)
    ensures
        r == v as u16,
{
    v as u16
}

pub fn i8_extend_i16_s(v: u8) -> (r: u16)
    ensures
        r == sext(v as nat, 0x100, 0x1_0000) as u16,
{
    if (v as u128) < 0x100 / 2 {
        v as u16
    } else {
        (v as u128 + 0x1_0000 - 0x100) as u16
    }
}

pub fn i16_extend_i32_u(v: u16) -> (r: u32)
    ensures
        r == v as u32,
{
    v as u32
}

pub fn i16_extend_i32_s(v: u16) -> (r: u32)
    ensures
        r == sext(v as nat, 0x1_0000, 0x1_0000_0000) as u32,
{
    if (v as u128) < 0x1_0000 / 2 {
        v as u32
    } else {
        (v as u128 + 0x1_0000_0000 - 0x1_0000) as u32
    }
}

pub fn i32_extend_i64_u(v: u32) -> (r: u64)
    ensures
        r == v as u64,
{
    v as u64
}

pub fn i32_extend_i64_s(v: u32) -> (r: u64)
    ensures
        r == sext(v as nat, 0x1_0000_0000, 0x1_0000_0000_0000_0000) as u64,
{
    if (v as u128) < 0x1_0000_0000 / 2 {
        v as u64
    } else {
        (v as u128 + 0x1_0000_0000_0000_0000 - 0x1_0000_0000) as u64
    }
}

/// Pops a vector and pushes the one whose lanes `func` gives for the lanes of the
/// chosen half.
pub fn i16x8_vcvtop_half_i8x16<F: Fn(u8) -> u16>(stack: &mut Stack, func: F, half: Half) -> (r: RResult<()>)
    requires
        forall|x: u8| func.requires((x,)),
    ensures
        vec1_post(old(stack)@, final(stack)@, r, |x: u128, z: u128| forall|i: int| 0 <= i < 8 ==> func.ensures((lane8(x, half_start(half, 8) + i),), #[trigger] lane16(z, i))),
{
    let v = match stack.pop_v128() {
        Some(v) => v,
        None => return Err(Trap),
    };
    let lanes = lanes_8(v);
    let start: usize = match half {
        Half::Low => 0,
        Half::High => 8,
    };
    let mut new_lanes: Vec<u16> = Vec::new();
    let mut i: usize = 0;
    while i < 8
        invariant
            i <= 8,
            start == half_start(half, 8),
            lanes@.len() == 2 * 8,
            forall|j: int| 0 <= j < 2 * 8 ==> #[trigger] lanes@[j] == lane8(v, j),
            forall|x: u8| func.requires((x,)),
            new_lanes@.len() == i,
            forall|j: int| 0 <= j < i ==> func.ensures((lane8(v, start + j),), #[trigger] new_lanes@[j]),
        decreases 8 - i,
    {
        let y = func(lanes[start + i]);
        new_lanes.push(y);
        i = i + 1;
    }
    let z = vec_from_lanes_16(new_lanes);
    stack.push_value(Val::Vec(z));
    proof {
        assert(stack@.drop_last() =~= old(stack)@.drop_last());
    }
    Ok(())
}

/// Pops a vector and pushes the one whose lanes `func` gives for the lanes of the
/// chosen half.
pub fn i32x4_vcvtop_half_i16x8<F: Fn(u16) -> u32>(stack: &mut Stack, func: F, half: Half) -> (r: RResult<()>)
    requires
        forall|x: u16| func.requires((x,)),
    ensures
        vec1_post(old(stack)@, final(stack)@, r, |x: u128, z: u128| forall|i: int| 0 <= i < 4 ==> func.ensures((lane16(x, half_start(half, 4) + i),), #[trigger] lane32(z, i))),
{
    let v = match stack.pop_v128() {
        Some(v) => v,
        None => return Err(Trap),
    };
    let lanes = lanes_16(v);
    let start: usize = match half {
        Half::Low => 0,
        Half::High => 4,
    };
    let mut new_lanes: Vec<u32> = Vec::new();
    let mut i: usize = 0;
    while i < 4
        invariant
            i <= 4,
            start == half_start(half, 4),
            lanes@.len() == 2 * 4,
            forall|j: int| 0 <= j < 2 * 4 ==> #[trigger] lanes@[j] == lane16(v, j),
            forall|x: u16| func.requires((x,)),
            new_lanes@.len() == i,
            forall|j: int| 0 <= j < i ==> func.ensures((lane16(v, start + j),), #[trigger] new_lanes@[j]),
        decreases 4 - i,
    {
        let y = func(lanes[start + i]);
        new_lanes.push(y);
        i = i + 1;
    }
    let z = vec_from_lanes_32(new_lanes);
    stack.push_value(Val::Vec(z));
    proof {
        assert(stack@.drop_last() =~= old(stack)@.drop_last());
    }
    Ok(())
}

/// Pops a vector and pushes the one whose lanes `func` gives for the lanes of the
/// chosen half.
pub fn i64x2_vcvtop_half_i32x4<F: Fn(u32) -> u64>(stack: &mut Stack, func: F, half: Half) -> (r: RResult<()>)
    requires
        forall|x: u32| func.requires((x,)),
    ensures
        vec1_post(old(stack)@, final(stack)@, r, |x: u128, z: u128| forall|i: int| 0 <= i < 2 ==> func.ensures((lane32(x, half_start(half, 2) + i),), #[trigger] lane64(z, i))),
{
    let v = match stack.pop_v128() {
        Some(v) => v,
        None => return Err(Trap),
    };
    let lanes = lanes_32(v);
    let start: usize = match half {
        Half::Low => 0,
        Half::High => 2,
    };
    let mut new_lanes: Vec<u64> = Vec::new();
    let mut i: usize = 0;
    while i < 2
        invariant
            i <= 2,
            start == half_start(half, 2),
            lanes@.len() == 2 * 2,
            forall|j: int| 0 <= j < 2 * 2 ==> #[trigger] lanes@[j] == lane32(v, j),
            forall|x: u32| func.requires((x,)),
            new_lanes@.len() == i,
            forall|j: int| 0 <= j < i ==> func.ensures((lane32(v, start + j),), #[trigger] new_lanes@[j]),
        decreases 2 - i,
    {
        let y = func(lanes[start + i]);
        new_lanes.push(y);
        i = i + 1;
    }
    let z = vec_from_lanes_64(new_lanes);
    stack.push_value(Val::Vec(z));
    proof {
        assert(stack@.drop_last() =~= old(stack)@.drop_last());
    }
    Ok(())
}

/// Pops a vector and pushes the one whose lanes `func` gives for its lanes.
pub fn f32x4_vcvtop_i32x4<F: Fn(u32) -> u32>(stack: &mut Stack, func: F) -> (r: RResult<()>)
    requires
        forall|x: u32| func.requires((x,)),
    ensures
        vec1_post(old(stack)@, final(stack)@, r, |x: u128, z: u128| forall|i: int| 0 <= i < 4 ==> func.ensures((lane32(x, i),), #[trigger] lane32(z, i))),
{
    let v = match stack.pop_v128() {
        Some(v) => v,
        None => return Err(Trap),
    };
    let lanes = lanes_32(v);
    let mut new_lanes: Vec<u32> = Vec::new();
    let mut i: usize = 0;
    while i < 4
        invariant
            i <= 4,
            lanes@.len() == 4,
            forall|j: int| 0 <= j < 4 ==> #[trigger] lanes@[j] == lane32(v, j),
            forall|x: u32| func.requires((x,)),
            new_lanes@.len() == i,
            forall|j: int| 0 <= j < i ==> func.ensures((lane32(v, j),), #[trigger] new_lanes@[j]),
        decreases 4 - i,
    {
        let y = func(lanes[i]);
        new_lanes.push(y);
        i = i + 1;
    }
    let z = vec_from_lanes_32(new_lanes);
    stack.push_value(Val::Vec(z));
    proof {
        assert(stack@.drop_last() =~= old(stack)@.drop_last());
    }
    Ok(())
}

/// Pops a vector of two 64-bit lanes and pushes the vector whose first lanes are
/// `func` of the second and the first lane, and whose last two lanes are zero.
pub fn shape_32x4_vcvtop_64x2_zero<F: Fn(u64) -> u32>(stack: &mut Stack, func: F) -> (r: RResult<()>)
    requires
        forall|x: u64| func.requires((x,)),
    ensures
        vec1_post(old(stack)@, final(stack)@, r, |x: u128, z: u128| func.ensures((lane64(x, 1),), lane32(z, 0)) && func.ensures((lane64(x, 0),), lane32(z, 1)) && lane32(z, 2) == 0 && lane32(z, 3) == 0),
{
    let v = match stack.pop_v128() {
        Some(v) => v,
        None => return Err(Trap),
    };
    let lanes = lanes_64(v);
    let a = func(lanes[1]);
    let b = func(lanes[0]);
    let z = vec_from_lanes_32(vec![a, b, 0, 0]);
    stack.push_value(Val::Vec(z));
    proof {
        assert(stack@.drop_last() =~= old(stack)@.drop_last());
    }
    Ok(())
}

/// Lane `i` of the pairwise sum: lanes `2i` and `2i+1`, extended, added modulo the
/// lane size.
pub open spec fn extadd_lane_16(x: u128, i: int, is_signed: bool) -> u16 {
    let a = lane8(x, 2 * i) as nat;
    let b = lane8(x, 2 * i + 1) as nat;
    if is_signed {
        ((sext(a, 0x100, 0x1_0000) + sext(b, 0x100, 0x1_0000)) % 0x1_0000) as u16
    } else {
        ((a + b) % 0x1_0000) as u16
    }
}

pub fn i16x8_extadd_pairwise_i8x16(stack: &mut Stack, is_singed: bool) -> (r: RResult<()>)
    ensures
        vec1_post(old(stack)@, final(stack)@, r, |x: u128, z: u128| forall|i: int| 0 <= i < 8 ==> #[trigger] lane16(z, i) == extadd_lane_16(x, i, is_singed)),
{
    let v = match stack.pop_v128() {
        Some(v) => v,
        None => return Err(Trap),
    };
    let lanes = lanes_8(v);
    let mut new_lanes: Vec<u16> = Vec::new();
    let mut i: usize = 0;
    while i < 8
        invariant
            i <= 8,
            lanes@.len() == 2 * 8,
            forall|j: int| 0 <= j < 2 * 8 ==> #[trigger] lanes@[j] == lane8(v, j),
            new_lanes@.len() == i,
            forall|j: int| 0 <= j < i ==> #[trigger] new_lanes@[j] == extadd_lane_16(v, j, is_singed),
        decreases 8 - i,
    {
        let (a, b) = if is_singed {
            (i8_extend_i16_s(lanes[2 * i]), i8_extend_i16_s(lanes[2 * i + 1]))
        } else {
            (i8_extend_i16_u(lanes[2 * i]), i8_extend_i16_u(lanes[2 * i + 1]))
        };
        let s = ((a as u64 + b as u64) % 0x1_0000) as u16;
        new_lanes.push(s);
        i = i + 1;
    }
    let z = vec_from_lanes_16(new_lanes);
    stack.push_value(Val::Vec(z));
    proof {
        assert(stack@.drop_last() =~= old(stack)@.drop_last());
    }
    Ok(())
}

/// Lane `i` of the pairwise sum: lanes `2i` and `2i+1`, extended, added modulo the
/// lane size.
pub open spec fn extadd_lane_32(x: u128, i: int, is_signed: bool) -> u32 {
    let a = lane16(x, 2 * i) as nat;
    let b = lane16(x, 2 * i + 1) as nat;
    if is_signed {
        ((sext(a, 0x1_0000, 0x1_0000_0000) + sext(b, 0x1_0000, 0x1_0000_0000)) % 0x1_0000_0000) as u32
    } else {
        ((a + b) % 0x1_0000_0000) as u32
    }
}

pub fn i32x4_extadd_pairwise_i16x8(stack: &mut Stack, is_singed: bool) -> (r: RResult<()>)
    ensures
        vec1_post(old(stack)@, final(stack)@, r, |x: u128, z: u128| forall|i: int| 0 <= i < 4 ==> #[trigger] lane32(z, i) == extadd_lane_32(x, i, is_singed)),
{
    let v = match stack.pop_v128() {
        Some(v) => v,
        None => return Err(Trap),
    };
    let lanes = lanes_16(v);
    let mut new_lanes: Vec<u32> = Vec::new();
    let mut i: usize = 0;
    while i < 4
        invariant
            i <= 4,
            lanes@.len() == 2 * 4,
            forall|j: int| 0 <= j < 2 * 4 ==> #[trigger] lanes@[j] == lane16(v, j),
            new_lanes@.len() == i,
            forall|j: int| 0 <= j < i ==> #[trigger] new_lanes@[j] == extadd_lane_32(v, j, is_singed),
        decreases 4 - i,
    {
        let (a, b) = if is_singed {
            (i16_extend_i32_s(lanes[2 * i]), i16_extend_i32_s(lanes[2 * i + 1]))
        } else {
            (i16_extend_i32_u(lanes[2 * i]), i16_extend_i32_u(lanes[2 * i + 1]))
        };
        let s = ((a as u64 + b as u64) % 0x1_0000_0000) as u32;
        new_lanes.push(s);
        i = i + 1;
    }
    let z = vec_from_lanes_32(new_lanes);
    stack.push_value(Val::Vec(z));
    proof {
        assert(stack@.drop_last() =~= old(stack)@.drop_last());
    }
    Ok(())
}

/// Lane `i` of the extended product of the chosen halves of `x` and `y`, modulo the
/// lane size.
pub open spec fn extmul_lane_16(x: u128, y: u128, half: Half, i: int, is_signed: bool) -> u16 {
    let a = lane8(x, half_start(half, 8) + i) as nat;
    let b = lane8(y, half_start(half, 8) + i) as nat;
    if is_signed {
        ((sext(a, 0x100, 0x1_0000) * sext(b, 0x100, 0x1_0000)) % 0x1_0000) as u16
    } else {
        ((a * b) % 0x1_0000) as u16
    }
}

pub fn i16x8_extmul_half_i8x16(stack: &mut Stack, half: Half, is_signed: bool) -> (r: RResult<()>)
    ensures
        vec2_post(old(stack)@, final(stack)@, r, |x: u128, y: u128, z: u128| forall|i: int| 0 <= i < 8 ==> #[trigger] lane16(z, i) == extmul_lane_16(x, y, half, i, is_signed)),
{
    let (first, second) = pop_v128_two(stack)?;
    let lanes_1 = lanes_8(first);
    let lanes_2 = lanes_8(second);
    let start: usize = match half {
        Half::Low => 0,
        Half::High => 8,
    };
    let mut new_lanes: Vec<u16> = Vec::new();
    let mut i: usize = 0;
    while i < 8
        invariant
            i <= 8,
            start == half_start(half, 8),
            lanes_1@.len() == 2 * 8,
            lanes_2@.len() == 2 * 8,
            forall|j: int| 0 <= j < 2 * 8 ==> #[trigger] lanes_1@[j] == lane8(first, j),
            forall|j: int| 0 <= j < 2 * 8 ==> #[trigger] lanes_2@[j] == lane8(second, j),
            new_lanes@.len() == i,
            forall|j: int| 0 <= j < i ==> #[trigger] new_lanes@[j] == extmul_lane_16(first, second, half, j, is_signed),
        decreases 8 - i,
    {
        let (a, b) = if is_signed {
            (i8_extend_i16_s(lanes_1[start + i]), i8_extend_i16_s(lanes_2[start + i]))
        } else {
            (i8_extend_i16_u(lanes_1[start + i]), i8_extend_i16_u(lanes_2[start + i]))
        };
        assert((a as u64) * (b as u64) <= (0x1_0000 - 1) * (0x1_0000 - 1)) by (nonlinear_arith)
            requires
                a < 0x1_0000,
                b < 0x1_0000,
        ;
        let p = (((a as u64) * (b as u64)) % 0x1_0000) as u16;
        new_lanes.push(p);
        i = i + 1;
    }
    let z = vec_from_lanes_16(new_lanes);
    stack.push_value(Val::Vec(z));
    proof {
        assert(stack@.drop_last() =~= old(stack)@.drop_last().drop_last());
    }
    Ok(())
}

/// Lane `i` of the extended product of the chosen halves of `x` and `y`, modulo the
/// lane size.
pub open spec fn extmul_lane_32(x: u128, y: u128, half: Half, i: int, is_signed: bool) -> u32 {
    let a = lane16(x, half_start(half, 4) + i) as nat;
    let b = lane16(y, half_start(half, 4) + i) as nat;
    if is_signed {
        ((sext(a, 0x1_0000, 0x1_0000_0000) * sext(b, 0x1_0000, 0x1_0000_0000)) % 0x1_0000_0000) as u32
    } else {
        ((a * b) % 0x1_0000_0000) as u32
    }
}

pub fn i32x4_extmul_half_i16x8(stack: &mut Stack, half: Half, is_signed: bool) -> (r: RResult<()>)
    ensures
        vec2_post(old(stack)@, final(stack)@, r, |x: u128, y: u128, z: u128| forall|i: int| 0 <= i < 4 ==> #[trigger] lane32(z, i) == extmul_lane_32(x, y, half, i, is_signed)),
{
    let (first, second) = pop_v128_two(stack)?;
    let lanes_1 = lanes_16(first);
    let lanes_2 = lanes_16(second);
    let start: usize = match half {
        Half::Low => 0,
        Half::High => 4,
    };
    let mut new_lanes: Vec<u32> = Vec::new();
    let mut i: usize = 0;
    while i < 4
        invariant
            i <= 4,
            start == half_start(half, 4),
            lanes_1@.len() == 2 * 4,
            lanes_2@.len() == 2 * 4,
            forall|j: int| 0 <= j < 2 * 4 ==> #[trigger] lanes_1@[j] == lane16(first, j),
            forall|j: int| 0 <= j < 2 * 4 ==> #[trigger] lanes_2@[j] == lane16(second, j),
            new_lanes@.len() == i,
            forall|j: int| 0 <= j < i ==> #[trigger] new_lanes@[j] == extmul_lane_32(first, second, half, j, is_signed),
        decreases 4 - i,
    {
        let (a, b) = if is_signed {
            (i16_extend_i32_s(lanes_1[start + i]), i16_extend_i32_s(lanes_2[start + i]))
        } else {
            (i16_extend_i32_u(lanes_1[start + i]), i16_extend_i32_u(lanes_2[start + i]))
        };
        assert((a as u64) * (b as u64) <= (0x1_0000_0000 - 1) * (0x1_0000_0000 - 1)) by (nonlinear_arith)
            requires
                a < 0x1_0000_0000,
                b < 0x1_0000_0000,
        ;
        let p = (((a as u64) * (b as u64)) % 0x1_0000_0000) as u32;
        new_lanes.push(p);
        i = i + 1;
    }
    let z = vec_from_lanes_32(new_lanes);
    stack.push_value(Val::Vec(z));
    proof {
        assert(stack@.drop_last() =~= old(stack)@.drop_last().drop_last());
    }
    Ok(())
}

/// Lane `i` of the extended product of the chosen halves of `x` and `y`, modulo the
/// lane size.
pub open spec fn extmul_lane_64(x: u128, y: u128, half: Half, i: int, is_signed: bool) -> u64 {
    let a = lane32(x, half_start(half, 2) + i) as nat;
    let b = lane32(y, half_start(half, 2) + i) as nat;
    if is_signed {
        ((sext(a, 0x1_0000_0000, 0x1_0000_0000_0000_0000) * sext(b, 0x1_0000_0000, 0x1_0000_0000_0000_0000)) % 0x1_0000_0000_0000_0000) as u64
    } else {
        ((a * b) % 0x1_0000_0000_0000_0000) as u64
    }
}

pub fn i64x2_extmul_half_i32x4(stack: &mut Stack, half: Half, is_signed: bool) -> (r: RResult<()>)
    ensures
        vec2_post(old(stack)@, final(stack)@, r, |x: u128, y: u128, z: u128| forall|i: int| 0 <= i < 2 ==> #[trigger] lane64(z, i) == extmul_lane_64(x, y, half, i, is_signed)),
{
    let (first, second) = pop_v128_two(stack)?;
    let lanes_1 = lanes_32(first);
    let lanes_2 = lanes_32(second);
    let start: usize = match half {
        Half::Low => 0,
        Half::High => 2,
    };
    let mut new_lanes: Vec<u64> = Vec::new();
    let mut i: usize = 0;
    while i < 2
        invariant
            i <= 2,
            start == half_start(half, 2),
            lanes_1@.len() == 2 * 2,
            lanes_2@.len() == 2 * 2,
            forall|j: int| 0 <= j < 2 * 2 ==> #[trigger] lanes_1@[j] == lane32(first, j),
            forall|j: int| 0 <= j < 2 * 2 ==> #[trigger] lanes_2@[j] == lane32(second, j),
            new_lanes@.len() == i,
            forall|j: int| 0 <= j < i ==> #[trigger] new_lanes@[j] == extmul_lane_64(first, second, half, j, is_signed),
        decreases 2 - i,
    {
        let (a, b) = if is_signed {
            (i32_extend_i64_s(lanes_1[start + i]), i32_extend_i64_s(lanes_2[start + i]))
        } else {
            (i32_extend_i64_u(lanes_1[start + i]), i32_extend_i64_u(lanes_2[start + i]))
        };
        assert((a as u128) * (b as u128) <= (0x1_0000_0000_0000_0000 - 1) * (0x1_0000_0000_0000_0000 - 1)) by (nonlinear_arith)
            requires
                a < 0x1_0000_0000_0000_0000,
                b < 0x1_0000_0000_0000_0000,
        ;
        let p = (((a as u128) * (b as u128)) % 0x1_0000_0000_0000_0000) as u64;
        new_lanes.push(p);
        i = i + 1;
    }
    let z = vec_from_lanes_64(new_lanes);
    stack.push_value(Val::Vec(z));
    proof {
        assert(stack@.drop_last() =~= old(stack)@.drop_last().drop_last());
    }
    Ok(())
}

/// Lane `i` of the dot product: the sum of the products of lanes `2i` and `2i+1`
/// of `x` and `y` read as signed 16-bit numbers, modulo 2^32.
pub open spec fn dot_lane(x: u128, y: u128, i: int) -> u32 {
    let p0 = (sext(lane16(x, 2 * i) as nat, 0x1_0000, 0x1_0000_0000) * sext(lane16(y, 2 * i) as nat, 0x1_0000, 0x1_0000_0000)) % 0x1_0000_0000;
    let p1 = (sext(lane16(x, 2 * i + 1) as nat, 0x1_0000, 0x1_0000_0000) * sext(lane16(y, 2 * i + 1) as nat, 0x1_0000, 0x1_0000_0000)) % 0x1_0000_0000;
    ((p0 + p1) % 0x1_0000_0000) as u32
}

pub fn i32x4_dot_i16x8s(stack: &mut Stack) -> (r: RResult<()>)
    ensures
        vec2_post(old(stack)@, final(stack)@, r, |x: u128, y: u128, z: u128| forall|i: int| 0 <= i < 4 ==> #[trigger] lane32(z, i) == dot_lane(x, y, i)),
{
    let (first, second) = pop_v128_two(stack)?;
    let i_lanes = lanes_16(first);
    let j_lanes = lanes_16(second);
    let mut k: Vec<u32> = Vec::new();
    let mut m: usize = 0;
    while m < 8
        invariant
            m <= 8,
            i_lanes@.len() == 8,
            j_lanes@.len() == 8,
            forall|j: int| 0 <= j < 8 ==> #[trigger] i_lanes@[j] == lane16(first, j),
            forall|j: int| 0 <= j < 8 ==> #[trigger] j_lanes@[j] == lane16(second, j),
            k@.len() == m,
            forall|j: int| 0 <= j < m ==> #[trigger] k@[j] == ((sext(lane16(first, j) as nat, 0x1_0000, 0x1_0000_0000) * sext(lane16(second, j) as nat, 0x1_0000, 0x1_0000_0000)) % 0x1_0000_0000) as u32,
        decreases 8 - m,
    {
        let a = i16_extend_i32_s(i_lanes[m]);
        let b = i16_extend_i32_s(j_lanes[m]);
        let p = match imul_32(a, b) {
            Ok(p) => p,
            Err(_) => 0,
        };
        k.push(p);
        m = m + 1;
    }
    let mut added: Vec<u32> = Vec::new();
    let mut i: usize = 0;
    while i < 4
        invariant
            i <= 4,
            k@.len() == 8,
            forall|j: int| 0 <= j < 8 ==> #[trigger] k@[j] == ((sext(lane16(first, j) as nat, 0x1_0000, 0x1_0000_0000) * sext(lane16(second, j) as nat, 0x1_0000, 0x1_0000_0000)) % 0x1_0000_0000) as u32,
            added@.len() == i,
            forall|j: int| 0 <= j < i ==> #[trigger] added@[j] == dot_lane(first, second, j),
        decreases 4 - i,
    {
        let s = match iadd_32(k[2 * i], k[2 * i + 1]) {
            Ok(s) => s,
            Err(_) => 0,
        };
        added.push(s);
        i = i + 1;
    }
    let z = vec_from_lanes_32(added);
    stack.push_value(Val::Vec(z));
    proof {
        assert(stack@.drop_last() =~= old(stack)@.drop_last().drop_last());
    }
    Ok(())
}

/// Lane `x` of 16 bits read as signed and clamped to the unsigned range of 8 bits.
pub open spec fn narrow_16_u(x: u16) -> u8 {
    let s = signed_of(x as nat, 0x1_0000);
    let c: int = if s < 0 {
        0int
    } else if s > 0xFF {
        0xFF
    } else {
        (s + 0x100) % 0x100
    };
    c as u8
}

fn narrow_lane_16_u(x: u16) -> (r: u8)
    ensures
        r == narrow_16_u(x),
{
    let s = x.to_signed();
    if s < 0 {
        ((0i128 + 0x100) % 0x100) as u8
    } else if s > 0xFF {
        0xFF
    } else {
        ((s + 0x100) % 0x100) as u8
    }
}

/// Pops two vectors and narrows their lanes, the lower vector's lanes first.
pub fn shape_8x16_narrow_16x8_u(stack: &mut Stack) -> (r: RResult<()>)
    ensures
        vec2_post(old(stack)@, final(stack)@, r, |x: u128, y: u128, z: u128| forall|i: int| 0 <= i < 2 * 8 ==> #[trigger] lane8(z, i) == if i < 8 {
            narrow_16_u(lane16(y, i))
        } else {
            narrow_16_u(lane16(x, i - 8))
        }),
{
    let (c2, c1) = pop_v128_two(stack)?;
    let l2 = lanes_16(c2);
    let l1 = lanes_16(c1);
    let mut narrowed: Vec<u8> = Vec::new();
    let mut i: usize = 0;
    while i < 2 * 8
        invariant
            i <= 2 * 8,
            l1@.len() == 8,
            l2@.len() == 8,
            forall|j: int| 0 <= j < 8 ==> #[trigger] l1@[j] == lane16(c1, j),
            forall|j: int| 0 <= j < 8 ==> #[trigger] l2@[j] == lane16(c2, j),
            narrowed@.len() == i,
            forall|j: int| 0 <= j < i ==> #[trigger] narrowed@[j] == if j < 8 {
                narrow_16_u(lane16(c1, j))
            } else {
                narrow_16_u(lane16(c2, j - 8))
            },
        decreases 2 * 8 - i,
    {
        let lane = if i < 8 { l1[i] } else { l2[i - 8] };
        narrowed.push(narrow_lane_16_u(lane));
        i = i + 1;
    }
    let z = vec_from_lanes_8(narrowed);
    stack.push_value(Val::Vec(z));
    proof {
        assert(stack@.drop_last() =~= old(stack)@.drop_last().drop_last());
    }
    Ok(())
}

/// Lane `x` of 16 bits read as signed and clamped to the signed range of 8 bits.
pub open spec fn narrow_16_s(x: u16) -> u8 {
    let s = signed_of(x as nat, 0x1_0000);
    let c: int = if s < -0x80 {
        (-0x80 + 0x100) % 0x100
    } else if s > 0x7F {
        0x7F
    } else {
        (s + 0x100) % 0x100
    };
    c as u8
}

fn narrow_lane_16_s(x: u16) -> (r: u8)
    ensures
        r == narrow_16_s(x),
{
    let s = x.to_signed();
    if s < -0x80 {
        ((-0x80i128 + 0x100) % 0x100) as u8
    } else if s > 0x7F {
        0x7F
    } else {
        ((s + 0x100) % 0x100) as u8
    }
}

/// Pops two vectors and narrows their lanes, the lower vector's lanes first.
pub fn shape_8x16_narrow_16x8_s(stack: &mut Stack) -> (r: RResult<()>)
    ensures
        vec2_post(old(stack)@, final(stack)@, r, |x: u128, y: u128, z: u128| forall|i: int| 0 <= i < 2 * 8 ==> #[trigger] lane8(z, i) == if i < 8 {
            narrow_16_s(lane16(y, i))
        } else {
            narrow_16_s(lane16(x, i - 8))
        }),
{
    let (c2, c1) = pop_v128_two(stack)?;
    let l2 = lanes_16(c2);
    let l1 = lanes_16(c1);
    let mut narrowed: Vec<u8> = Vec::new();
    let mut i: usize = 0;
    while i < 2 * 8
        invariant
            i <= 2 * 8,
            l1@.len() == 8,
            l2@.len() == 8,
            forall|j: int| 0 <= j < 8 ==> #[trigger] l1@[j] == lane16(c1, j),
            forall|j: int| 0 <= j < 8 ==> #[trigger] l2@[j] == lane16(c2, j),
            narrowed@.len() == i,
            forall|j: int| 0 <= j < i ==> #[trigger] narrowed@[j] == if j < 8 {
                narrow_16_s(lane16(c1, j))
            } else {
                narrow_16_s(lane16(c2, j - 8))
            },
        decreases 2 * 8 - i,
    {
        let lane = if i < 8 { l1[i] } else { l2[i - 8] };
        narrowed.push(narrow_lane_16_s(lane));
        i = i + 1;
    }
    let z = vec_from_lanes_8(narrowed);
    stack.push_value(Val::Vec(z));
    proof {
        assert(stack@.drop_last() =~= old(stack)@.drop_last().drop_last());
    }
    Ok(())
}

/// Lane `x` of 32 bits read as signed and clamped to the unsigned range of 16 bits.
pub open spec fn narrow_32_u(x: u32) -> u16 {
    let s = signed_of(x as nat, 0x1_0000_0000);
    let c: int = if s < 0 {
        0int
    } else if s > 0xFFFF {
        0xFFFF
    } else {
        (s + 0x1_0000) % 0x1_0000
    };
    c as u16
}

fn narrow_lane_32_u(x: u32) -> (r: u16)
    ensures
        r == narrow_32_u(x),
{
    let s = x.to_signed();
    if s < 0 {
        ((0i128 + 0x1_0000) % 0x1_0000) as u16
    } else if s > 0xFFFF {
        0xFFFF
    } else {
        ((s + 0x1_0000) % 0x1_0000) as u16
    }
}

/// Pops two vectors and narrows their lanes, the lower vector's lanes first.
pub fn shape_16x8_narrow_32x4_u(stack: &mut Stack) -> (r: RResult<()>)
    ensures
        vec2_post(old(stack)@, final(stack)@, r, |x: u128, y: u128, z: u128| forall|i: int| 0 <= i < 2 * 4 ==> #[trigger] lane16(z, i) == if i < 4 {
            narrow_32_u(lane32(y, i))
        } else {
            narrow_32_u(lane32(x, i - 4))
        }),
{
    let (c2, c1) = pop_v128_two(stack)?;
    let l2 = lanes_32(c2);
    let l1 = lanes_32(c1);
    let mut narrowed: Vec<u16> = Vec::new();
    let mut i: usize = 0;
    while i < 2 * 4
        invariant
            i <= 2 * 4,
            l1@.len() == 4,
            l2@.len() == 4,
            forall|j: int| 0 <= j < 4 ==> #[trigger] l1@[j] == lane32(c1, j),
            forall|j: int| 0 <= j < 4 ==> #[trigger] l2@[j] == lane32(c2, j),
            narrowed@.len() == i,
            forall|j: int| 0 <= j < i ==> #[trigger] narrowed@[j] == if j < 4 {
                narrow_32_u(lane32(c1, j))
            } else {
                narrow_32_u(lane32(c2, j - 4))
            },
        decreases 2 * 4 - i,
    {
        let lane = if i < 4 { l1[i] } else { l2[i - 4] };
        narrowed.push(narrow_lane_32_u(lane));
        i = i + 1;
    }
    let z = vec_from_lanes_16(narrowed);
    stack.push_value(Val::Vec(z));
    proof {
        assert(stack@.drop_last() =~= old(stack)@.drop_last().drop_last());
    }
    Ok(())
}

/// Lane `x` of 32 bits read as signed and clamped to the signed range of 16 bits.
pub open spec fn narrow_32_s(x: u32) -> u16 {
    let s = signed_of(x as nat, 0x1_0000_0000);
    let c: int = if s < -0x8000 {
        (-0x8000 + 0x1_0000) % 0x1_0000
    } else if s > 0x7FFF {
        0x7FFF
    } else {
        (s + 0x1_0000) % 0x1_0000
    };
    c as u16
}

fn narrow_lane_32_s(x: u32) -> (r: u16)
    ensures
        r == narrow_32_s(x),
{
    let s = x.to_signed();
    if s < -0x8000 {
        ((-0x8000i128 + 0x1_0000) % 0x1_0000) as u16
    } else if s > 0x7FFF {
        0x7FFF
    } else {
        ((s + 0x1_0000) % 0x1_0000) as u16
    }
}

/// Pops two vectors and narrows their lanes, the lower vector's lanes first.
pub fn shape_16x8_narrow_32x4_s(stack: &mut Stack) -> (r: RResult<()>)
    ensures
        vec2_post(old(stack)@, final(stack)@, r, |x: u128, y: u128, z: u128| forall|i: int| 0 <= i < 2 * 4 ==> #[trigger] lane16(z, i) == if i < 4 {
            narrow_32_s(lane32(y, i))
        } else {
            narrow_32_s(lane32(x, i - 4))
        }),
{
    let (c2, c1) = pop_v128_two(stack)?;
    let l2 = lanes_32(c2);
    let l1 = lanes_32(c1);
    let mut narrowed: Vec<u16> = Vec::new();
    let mut i: usize = 0;
    while i < 2 * 4
        invariant
            i <= 2 * 4,
            l1@.len() == 4,
            l2@.len() == 4,
            forall|j: int| 0 <= j < 4 ==> #[trigger] l1@[j] == lane32(c1, j),
            forall|j: int| 0 <= j < 4 ==> #[trigger] l2@[j] == lane32(c2, j),
            narrowed@.len() == i,
            forall|j: int| 0 <= j < i ==> #[trigger] narrowed@[j] == if j < 4 {
                narrow_32_s(lane32(c1, j))
            } else {
                narrow_32_s(lane32(c2, j - 4))
            },
        decreases 2 * 4 - i,
    {
        let lane = if i < 4 { l1[i] } else { l2[i - 4] };
        narrowed.push(narrow_lane_32_s(lane));
        i = i + 1;
    }
    let z = vec_from_lanes_16(narrowed);
    stack.push_value(Val::Vec(z));
    proof {
        assert(stack@.drop_last() =~= old(stack)@.drop_last().drop_last());
    }
    Ok(())
}

/// 2 to the power `k`.
fn pow2_u128(k: u32) -> (r: u128)
    requires
        k <= 64,
    ensures
        r as nat == vstd::arithmetic::power2::pow2(k as nat),
        r <= 0x1_0000_0000_0000_0000,
{
    let mut r: u128 = 1;
    let mut i: u32 = 0;
    proof {
        vstd::arithmetic::power2::lemma2_to64();
    }
    while i < k
        invariant
            i <= k,
            k <= 64,
            r as nat == vstd::arithmetic::power2::pow2(i as nat),
            r <= vstd::arithmetic::power2::pow2(i as nat),
            vstd::arithmetic::power2::pow2(64) == 0x1_0000_0000_0000_0000,
        decreases k - i,
    {
        proof {
            vstd::arithmetic::power2::lemma_pow2_unfold((i + 1) as nat);
            if i + 1 < 64 {
                vstd::arithmetic::power2::lemma_pow2_strictly_increases((i + 1) as nat, 64);
            }
        }
        r = r * 2;
        i = i + 1;
    }
    proof {
        if k < 64 {
            vstd::arithmetic::power2::lemma_pow2_strictly_increases(k as nat, 64);
        }
    }
    r
}

/// The shifts of vector lanes.
#[derive(Debug, Clone, Copy, PartialEq, Eq, Structural)]
pub enum ShiftKind {
    Shl,
    ShrU,
    ShrS,
}

/// A lane shift for lanes of `size` bits.
#[derive(Debug, Clone, Copy, PartialEq, Eq, Structural)]
pub struct LaneShift {
    pub kind: ShiftKind,
    pub size: u32,
}

/// A lane size a shift supports.
pub open spec fn valid_lane_size(size: u32) -> bool {
    size == 8 || size == 16 || size == 32 || size == 64
}

/// The shift of `lane` by `shift` bits modulo the lane size. The signed shift fills
/// the vacated high bits with copies of the lowest bit of the lane.
pub open spec fn lane_shift_spec(op: LaneShift, lane: nat, shift: u32) -> nat {
    let size = op.size as nat;
    let k = (shift % op.size) as nat;
    let p = vstd::arithmetic::power2::pow2(k);
    match op.kind {
        ShiftKind::Shl => (lane * p) % vstd::arithmetic::power2::pow2(size),
        ShiftKind::ShrU => lane / p,
        ShiftKind::ShrS => if lane % 2 == 1 {
            (lane / p + (vstd::arithmetic::power2::pow2(size) - vstd::arithmetic::power2::pow2((size - k) as nat))) as nat
        } else {
            lane / p
        },
    }
}

impl LaneShift {
    pub fn apply(&self, lane: u64, shift: u32) -> (r: u64)
        requires
            valid_lane_size(self.size),
            lane < vstd::arithmetic::power2::pow2(self.size as nat),
        ensures
            r as nat == lane_shift_spec(*self, lane as nat, shift),
    {
        let k = shift % self.size;
        let p = pow2_u128(k);
        let m = pow2_u128(self.size);
        proof {
            vstd::arithmetic::power2::lemma_pow2_pos(k as nat);
            vstd::arithmetic::power2::lemma2_to64();
            if 0 < k {
                vstd::arithmetic::power2::lemma_pow2_strictly_increases((self.size - k) as nat, self.size as nat);
            }
            vstd::arithmetic::power2::lemma_pow2_pos((self.size - k) as nat);
        }
        match self.kind {
            ShiftKind::Shl => {
                assert((lane as u128) * p <= 0xFFFF_FFFF_FFFF_FFFF * 0x1_0000_0000_0000_0000) by (nonlinear_arith)
                    requires
                        lane <= 0xFFFF_FFFF_FFFF_FFFF,
                        p <= 0x1_0000_0000_0000_0000,
                ;
                (((lane as u128) * p) % m) as u64
            },
            ShiftKind::ShrU => ((lane as u128) / p) as u64,
            ShiftKind::ShrS => {
                let shifted = (lane as u128) / p;
                if lane % 2 == 1 {
                    let fill = m - pow2_u128(self.size - k);
                    assert(shifted <= lane) by (nonlinear_arith)
                        requires
                            shifted == (lane as u128) / p,
                            p >= 1,
                    ;
                    proof {
                        lemma_shr_fill_fits(lane as nat, p as nat, k as nat, self.size as nat);
                    }
                    (shifted + fill) as u64
                } else {
                    shifted as u64
                }
            },
        }
    }
}

/// A logical right shift by `k` leaves room for `k` high bits.
proof fn lemma_shr_fill_fits(lane: nat, p: nat, k: nat, size: nat)
    requires
        size <= 64,
        k < size,
        p == vstd::arithmetic::power2::pow2(k),
        lane < vstd::arithmetic::power2::pow2(size),
    ensures
        lane / p + (vstd::arithmetic::power2::pow2(size) - vstd::arithmetic::power2::pow2((size - k) as nat)) < vstd::arithmetic::power2::pow2(size),
{
    vstd::arithmetic::power2::lemma_pow2_adds((size - k) as nat, k);
    vstd::arithmetic::power2::lemma_pow2_pos(k);
    let q = vstd::arithmetic::power2::pow2((size - k) as nat);
    assert(lane / p < q) by (nonlinear_arith)
        requires
            lane < q * p,
            p > 0,
    ;
}

/// A lane shift stays within the lane.
proof fn lemma_lane_shift_bound(op: LaneShift, lane: nat, shift: u32)
    requires
        valid_lane_size(op.size),
        lane < vstd::arithmetic::power2::pow2(op.size as nat),
    ensures
        lane_shift_spec(op, lane, shift) < vstd::arithmetic::power2::pow2(op.size as nat),
{
    let size = op.size as nat;
    let k = (shift % op.size) as nat;
    let p = vstd::arithmetic::power2::pow2(k);
    let m = vstd::arithmetic::power2::pow2(size);
    vstd::arithmetic::power2::lemma_pow2_pos(k);
    vstd::arithmetic::power2::lemma_pow2_pos(size);
    match op.kind {
        ShiftKind::Shl => {
            let prod: nat = lane * p;
            vstd::arithmetic::div_mod::lemma_mod_bound(prod as int, m as int);
        },
        ShiftKind::ShrU => {
            assert(lane / p <= lane) by (nonlinear_arith)
                requires
                    p >= 1,
            ;
        },
        ShiftKind::ShrS => {
            if lane % 2 == 1 {
                lemma_shr_fill_fits(lane, p, k, size);
                if 0 < k {
                    vstd::arithmetic::power2::lemma_pow2_strictly_increases((size - k) as nat, size);
                }
            } else {
                assert(lane / p <= lane) by (nonlinear_arith)
                    requires
                        p >= 1,
                ;
            }
        },
    }
}

/// Shifts an 8-bit lane.
pub fn shift_lane_8(op: &LaneShift, x: u8, s: u32) -> (r: u8)
    requires
        op.size == 8,
    ensures
        r as nat == lane_shift_spec(*op, x as nat, s),
{
    proof {
        vstd::arithmetic::power2::lemma2_to64();
        lemma_lane_shift_bound(*op, x as nat, s);
    }
    op.apply(x as u64, s) as u8
}

/// Shifts a 16-bit lane.
pub fn shift_lane_16(op: &LaneShift, x: u16, s: u32) -> (r: u16)
    requires
        op.size == 16,
    ensures
        r as nat == lane_shift_spec(*op, x as nat, s),
{
    proof {
        vstd::arithmetic::power2::lemma2_to64();
        lemma_lane_shift_bound(*op, x as nat, s);
    }
    op.apply(x as u64, s) as u16
}

/// Shifts a 32-bit lane.
pub fn shift_lane_32(op: &LaneShift, x: u32, s: u32) -> (r: u32)
    requires
        op.size == 32,
    ensures
        r as nat == lane_shift_spec(*op, x as nat, s),
{
    proof {
        vstd::arithmetic::power2::lemma2_to64();
        lemma_lane_shift_bound(*op, x as nat, s);
    }
    op.apply(x as u64, s) as u32
}

/// Shifts a 64-bit lane.
pub fn shift_lane_64(op: &LaneShift, x: u64, s: u32) -> (r: u64)
    requires
        op.size == 64,
    ensures
        r as nat == lane_shift_spec(*op, x as nat, s),
{
    proof {
        vstd::arithmetic::power2::lemma2_to64();
        vstd::arithmetic::power2::lemma2_to64_rest();
    }
    op.apply(x, s)
}

pub fn make_shape_shl(size: u32) -> (r: LaneShift)
    ensures
        r == (LaneShift { kind: ShiftKind::Shl, size }),
{
    LaneShift { kind: ShiftKind::Shl, size }
}

pub fn make_shape_shr_u(size: u32) -> (r: LaneShift)
    ensures
        r == (LaneShift { kind: ShiftKind::ShrU, size }),
{
    LaneShift { kind: ShiftKind::ShrU, size }
}

pub fn make_shape_shr_s(size: u32) -> (r: LaneShift)
    ensures
        r == (LaneShift { kind: ShiftKind::ShrS, size }),
{
    LaneShift { kind: ShiftKind::ShrS, size }
}

/// Pops an i32 shift amount and a vector, and pushes the vector whose lanes `func`
/// gives for each lane and the amount.
pub fn shiftop_8x16<F: Fn(u8, u32) -> u8>(stack: &mut Stack, func: F) -> (r: RResult<()>)
    requires
        forall|x: u8, s: u32| func.requires((x, s)),
    ensures
        match top_value(old(stack)@) {
            Some(Val::I32(s)) => match as_v128(top_value(old(stack)@.drop_last())) {
                Some(x) => r is Ok && final(stack)@.len() == old(stack)@.len() - 1
                    && final(stack)@.drop_last() == old(stack)@.drop_last().drop_last() && match final(stack)@.last() {
                    StackEntry::Value(Val::Vec(z)) => forall|i: int| 0 <= i < 16 ==> func.ensures((lane8(x, i), s), #[trigger] lane8(z, i)),
                    _ => false,
                },
                None => r is Err && final(stack)@ == old(stack)@.drop_last(),
            },
            _ => r is Err && final(stack)@ == old(stack)@,
        },
{
    let shift = match stack.pop_i32() {
        Some(s) => s,
        None => return Err(Trap),
    };
    let vector = match stack.pop_v128() {
        Some(v) => v,
        None => return Err(Trap),
    };
    let lanes = lanes_8(vector);
    let mut new_lanes: Vec<u8> = Vec::new();
    let mut i: usize = 0;
    while i < 16
        invariant
            i <= 16,
            lanes@.len() == 16,
            forall|j: int| 0 <= j < 16 ==> #[trigger] lanes@[j] == lane8(vector, j),
            forall|x: u8, s: u32| func.requires((x, s)),
            new_lanes@.len() == i,
            forall|j: int| 0 <= j < i ==> func.ensures((lane8(vector, j), shift), #[trigger] new_lanes@[j]),
        decreases 16 - i,
    {
        let y = func(lanes[i], shift);
        new_lanes.push(y);
        i = i + 1;
    }
    let z = vec_from_lanes_8(new_lanes);
    stack.push_value(Val::Vec(z));
    proof {
        assert(stack@.drop_last() =~= old(stack)@.drop_last().drop_last());
    }
    Ok(())
}

/// Pops a vector and pushes 1 if none of its lanes is zero, 0 otherwise.
pub fn all_true_8x16(stack: &mut Stack) -> (r: RResult<()>)
    ensures
        match as_v128(top_value(old(stack)@)) {
            Some(x) => r is Ok && final(stack)@ == push_val(old(stack)@.drop_last(), Val::I32(
                if forall|i: int| 0 <= i < 16 ==> #[trigger] lane8(x, i) != 0 { 1 } else { 0 },
            )),
            None => r is Err && final(stack)@ == old(stack)@,
        },
{
    let v = match stack.pop_v128() {
        Some(v) => v,
        None => return Err(Trap),
    };
    let lanes = lanes_8(v);
    let mut all = true;
    let mut i: usize = 0;
    while i < 16
        invariant
            i <= 16,
            lanes@.len() == 16,
            forall|j: int| 0 <= j < 16 ==> #[trigger] lanes@[j] == lane8(v, j),
            all == forall|j: int| 0 <= j < i ==> #[trigger] lane8(v, j) != 0,
        decreases 16 - i,
    {
        if lanes[i] == 0 {
            all = false;
        }
        i = i + 1;
    }
    let res: u32 = if all { 1 } else { 0 };
    stack.push_value(Val::I32(res));
    Ok(())
}

/// Pops an i32 shift amount and a vector, and pushes the vector whose lanes `func`
/// gives for each lane and the amount.
pub fn shiftop_16x8<F: Fn(u16, u32) -> u16>(stack: &mut Stack, func: F) -> (r: RResult<()>)
    requires
        forall|x: u16, s: u32| func.requires((x, s)),
    ensures
        match top_value(old(stack)@) {
            Some(Val::I32(s)) => match as_v128(top_value(old(stack)@.drop_last())) {
                Some(x) => r is Ok && final(stack)@.len() == old(stack)@.len() - 1
                    && final(stack)@.drop_last() == old(stack)@.drop_last().drop_last() && match final(stack)@.last() {
                    StackEntry::Value(Val::Vec(z)) => forall|i: int| 0 <= i < 8 ==> func.ensures((lane16(x, i), s), #[trigger] lane16(z, i)),
                    _ => false,
                },
                None => r is Err && final(stack)@ == old(stack)@.drop_last(),
            },
            _ => r is Err && final(stack)@ == old(stack)@,
        },
{
    let shift = match stack.pop_i32() {
        Some(s) => s,
        None => return Err(Trap),
    };
    let vector = match stack.pop_v128() {
        Some(v) => v,
        None => return Err(Trap),
    };
    let lanes = lanes_16(vector);
    let mut new_lanes: Vec<u16> = Vec::new();
    let mut i: usize = 0;
    while i < 8
        invariant
            i <= 8,
            lanes@.len() == 8,
            forall|j: int| 0 <= j < 8 ==> #[trigger] lanes@[j] == lane16(vector, j),
            forall|x: u16, s: u32| func.requires((x, s)),
            new_lanes@.len() == i,
            forall|j: int| 0 <= j < i ==> func.ensures((lane16(vector, j), shift), #[trigger] new_lanes@[j]),
        decreases 8 - i,
    {
        let y = func(lanes[i], shift);
        new_lanes.push(y);
        i = i + 1;
    }
    let z = vec_from_lanes_16(new_lanes);
    stack.push_value(Val::Vec(z));
    proof {
        assert(stack@.drop_last() =~= old(stack)@.drop_last().drop_last());
    }
    Ok(())
}

/// Pops a vector and pushes 1 if none of its lanes is zero, 0 otherwise.
pub fn all_true_16x8(stack: &mut Stack) -> (r: RResult<()>)
    ensures
        match as_v128(top_value(old(stack)@)) {
            Some(x) => r is Ok && final(stack)@ == push_val(old(stack)@.drop_last(), Val::I32(
                if forall|i: int| 0 <= i < 8 ==> #[trigger] lane16(x, i) != 0 { 1 } else { 0 },
            )),
            None => r is Err && final(stack)@ == old(stack)@,
        },
{
    let v = match stack.pop_v128() {
        Some(v) => v,
        None => return Err(Trap),
    };
    let lanes = lanes_16(v);
    let mut all = true;
    let mut i: usize = 0;
    while i < 8
        invariant
            i <= 8,
            lanes@.len() == 8,
            forall|j: int| 0 <= j < 8 ==> #[trigger] lanes@[j] == lane16(v, j),
            all == forall|j: int| 0 <= j < i ==> #[trigger] lane16(v, j) != 0,
        decreases 8 - i,
    {
        if lanes[i] == 0 {
            all = false;
        }
        i = i + 1;
    }
    let res: u32 = if all { 1 } else { 0 };
    stack.push_value(Val::I32(res));
    Ok(())
}

/// Pops an i32 shift amount and a vector, and pushes the vector whose lanes `func`
/// gives for each lane and the amount.
pub fn shiftop_32x4<F: Fn(u32, u32) -> u32>(stack: &mut Stack, func: F) -> (r: RResult<()>)
    requires
        forall|x: u32, s: u32| func.requires((x, s)),
    ensures
        match top_value(old(stack)@) {
            Some(Val::I32(s)) => match as_v128(top_value(old(stack)@.drop_last())) {
                Some(x) => r is Ok && final(stack)@.len() == old(stack)@.len() - 1
                    && final(stack)@.drop_last() == old(stack)@.drop_last().drop_last() && match final(stack)@.last() {
                    StackEntry::Value(Val::Vec(z)) => forall|i: int| 0 <= i < 4 ==> func.ensures((lane32(x, i), s), #[trigger] lane32(z, i)),
                    _ => false,
                },
                None => r is Err && final(stack)@ == old(stack)@.drop_last(),
            },
            _ => r is Err && final(stack)@ == old(stack)@,
        },
{
    let shift = match stack.pop_i32() {
        Some(s) => s,
        None => return Err(Trap),
    };
    let vector = match stack.pop_v128() {
        Some(v) => v,
        None => return Err(Trap),
    };
    let lanes = lanes_32(vector);
    let mut new_lanes: Vec<u32> = Vec::new();
    let mut i: usize = 0;
    while i < 4
        invariant
            i <= 4,
            lanes@.len() == 4,
            forall|j: int| 0 <= j < 4 ==> #[trigger] lanes@[j] == lane32(vector, j),
            forall|x: u32, s: u32| func.requires((x, s)),
            new_lanes@.len() == i,
            forall|j: int| 0 <= j < i ==> func.ensures((lane32(vector, j), shift), #[trigger] new_lanes@[j]),
        decreases 4 - i,
    {
        let y = func(lanes[i], shift);
        new_lanes.push(y);
        i = i + 1;
    }
    let z = vec_from_lanes_32(new_lanes);
    stack.push_value(Val::Vec(z));
    proof {
        assert(stack@.drop_last() =~= old(stack)@.drop_last().drop_last());
    }
    Ok(())
}

/// Pops a vector and pushes 1 if none of its lanes is zero, 0 otherwise.
pub fn all_true_32x4(stack: &mut Stack) -> (r: RResult<()>)
    ensures
        match as_v128(top_value(old(stack)@)) {
            Some(x) => r is Ok && final(stack)@ == push_val(old(stack)@.drop_last(), Val::I32(
                if forall|i: int| 0 <= i < 4 ==> #[trigger] lane32(x, i) != 0 { 1 } else { 0 },
            )),
            None => r is Err && final(stack)@ == old(stack)@,
        },
{
    let v = match stack.pop_v128() {
        Some(v) => v,
        None => return Err(Trap),
    };
    let lanes = lanes_32(v);
    let mut all = true;
    let mut i: usize = 0;
    while i < 4
        invariant
            i <= 4,
            lanes@.len() == 4,
            forall|j: int| 0 <= j < 4 ==> #[trigger] lanes@[j] == lane32(v, j),
            all == forall|j: int| 0 <= j < i ==> #[trigger] lane32(v, j) != 0,
        decreases 4 - i,
    {
        if lanes[i] == 0 {
            all = false;
        }
        i = i + 1;
    }
    let res: u32 = if all { 1 } else { 0 };
    stack.push_value(Val::I32(res));
    Ok(())
}

/// Pops an i32 shift amount and a vector, and pushes the vector whose lanes `func`
/// gives for each lane and the amount.
pub fn shiftop_64x2<F: Fn(u64, u32) -> u64>(stack: &mut Stack, func: F) -> (r: RResult<()>)
    requires
        forall|x: u64, s: u32| func.requires((x, s)),
    ensures
        match top_value(old(stack)@) {
            Some(Val::I32(s)) => match as_v128(top_value(old(stack)@.drop_last())) {
                Some(x) => r is Ok && final(stack)@.len() == old(stack)@.len() - 1
                    && final(stack)@.drop_last() == old(stack)@.drop_last().drop_last() && match final(stack)@.last() {
                    StackEntry::Value(Val::Vec(z)) => forall|i: int| 0 <= i < 2 ==> func.ensures((lane64(x, i), s), #[trigger] lane64(z, i)),
                    _ => false,
                },
                None => r is Err && final(stack)@ == old(stack)@.drop_last(),
            },
            _ => r is Err && final(stack)@ == old(stack)@,
        },
{
    let shift = match stack.pop_i32() {
        Some(s) => s,
        None => return Err(Trap),
    };
    let vector = match stack.pop_v128() {
        Some(v) => v,
        None => return Err(Trap),
    };
    let lanes = lanes_64(vector);
    let mut new_lanes: Vec<u64> = Vec::new();
    let mut i: usize = 0;
    while i < 2
        invariant
            i <= 2,
            lanes@.len() == 2,
            forall|j: int| 0 <= j < 2 ==> #[trigger] lanes@[j] == lane64(vector, j),
            forall|x: u64, s: u32| func.requires((x, s)),
            new_lanes@.len() == i,
            forall|j: int| 0 <= j < i ==> func.ensures((lane64(vector, j), shift), #[trigger] new_lanes@[j]),
        decreases 2 - i,
    {
        let y = func(lanes[i], shift);
        new_lanes.push(y);
        i = i + 1;
    }
    let z = vec_from_lanes_64(new_lanes);
    stack.push_value(Val::Vec(z));
    proof {
        assert(stack@.drop_last() =~= old(stack)@.drop_last().drop_last());
    }
    Ok(())
}

/// Pops a vector and pushes 1 if none of its lanes is zero, 0 otherwise.
pub fn all_true_64x2(stack: &mut Stack) -> (r: RResult<()>)
    ensures
        match as_v128(top_value(old(stack)@)) {
            Some(x) => r is Ok && final(stack)@ == push_val(old(stack)@.drop_last(), Val::I32(
                if forall|i: int| 0 <= i < 2 ==> #[trigger] lane64(x, i) != 0 { 1 } else { 0 },
            )),
            None => r is Err && final(stack)@ == old(stack)@,
        },
{
    let v = match stack.pop_v128() {
        Some(v) => v,
        None => return Err(Trap),
    };
    let lanes = lanes_64(v);
    let mut all = true;
    let mut i: usize = 0;
    while i < 2
        invariant
            i <= 2,
            lanes@.len() == 2,
            forall|j: int| 0 <= j < 2 ==> #[trigger] lanes@[j] == lane64(v, j),
            all == forall|j: int| 0 <= j < i ==> #[trigger] lane64(v, j) != 0,
        decreases 2 - i,
    {
        if lanes[i] == 0 {
            all = false;
        }
        i = i + 1;
    }
    let res: u32 = if all { 1 } else { 0 };
    stack.push_value(Val::I32(res));
    Ok(())
}

/// The sum, over the first `count` lanes taken from the last one backward, of
/// 2^(k + 0) for the `k`-th such lane when it is negative.
pub open spec fn bitmask_sum_8(x: u128, count: nat) -> nat
    decreases count,
{
    if count == 0 {
        0
    } else {
        let k = (count - 1) as nat;
        bitmask_sum_8(x, k) + if (lane8(x, 16 - 1 - k) as nat) >= 0x100nat / 2 {
            vstd::arithmetic::power2::pow2(k + 0)
        } else {
            0
        }
    }
}

/// Pops a vector and pushes a mask of its negative lanes: bit `k + 0` is set when
/// lane `15 - k` is negative.
pub fn bitmask_8x16(stack: &mut Stack) -> (r: RResult<()>)
    ensures
        match as_v128(top_value(old(stack)@)) {
            Some(x) => r is Ok && final(stack)@ == push_val(old(stack)@.drop_last(), Val::I32(bitmask_sum_8(x, 16) as u32)),
            None => r is Err && final(stack)@ == old(stack)@,
        },
{
    let v = match stack.pop_v128() {
        Some(v) => v,
        None => return Err(Trap),
    };
    let lanes = lanes_8(v);
    let mut bits: u128 = 0;
    let mut k: u32 = 0;
    proof {
        vstd::arithmetic::power2::lemma2_to64();
    }
    while k < 16
        invariant
            k <= 16,
            lanes@.len() == 16,
            forall|j: int| 0 <= j < 16 ==> #[trigger] lanes@[j] == lane8(v, j),
            bits as nat == bitmask_sum_8(v, k as nat),
            bits < vstd::arithmetic::power2::pow2((k + 0) as nat),
        decreases 16 - k,
    {
        let p = pow2_u128(k + 0);
        proof {
            vstd::arithmetic::power2::lemma_pow2_unfold((k + 0 + 1) as nat);
        }
        if (lanes[(16 - 1 - k) as usize] as u128) >= 0x100 / 2 {
            bits = bits + p;
        }
        k = k + 1;
    }
    proof {
        vstd::arithmetic::power2::lemma2_to64();
        if 16 + 0 < 32 {
            vstd::arithmetic::power2::lemma_pow2_strictly_increases((16 + 0) as nat, 32);
        }
    }
    stack.push_value(Val::I32(bits as u32));
    Ok(())
}

/// The sum, over the first `count` lanes taken from the last one backward, of
/// 2^(k + 16) for the `k`-th such lane when it is negative.
pub open spec fn bitmask_sum_16(x: u128, count: nat) -> nat
    decreases count,
{
    if count == 0 {
        0
    } else {
        let k = (count - 1) as nat;
        bitmask_sum_16(x, k) + if (lane16(x, 8 - 1 - k) as nat) >= 0x1_0000nat / 2 {
            vstd::arithmetic::power2::pow2(k + 16)
        } else {
            0
        }
    }
}

/// Pops a vector and pushes a mask of its negative lanes: bit `k + 16` is set when
/// lane `7 - k` is negative.
pub fn bitmask_16x8(stack: &mut Stack) -> (r: RResult<()>)
    ensures
        match as_v128(top_value(old(stack)@)) {
            Some(x) => r is Ok && final(stack)@ == push_val(old(stack)@.drop_last(), Val::I32(bitmask_sum_16(x, 8) as u32)),
            None => r is Err && final(stack)@ == old(stack)@,
        },
{
    let v = match stack.pop_v128() {
        Some(v) => v,
        None => return Err(Trap),
    };
    let lanes = lanes_16(v);
    let mut bits: u128 = 0;
    let mut k: u32 = 0;
    proof {
        vstd::arithmetic::power2::lemma2_to64();
    }
    while k < 8
        invariant
            k <= 8,
            lanes@.len() == 8,
            forall|j: int| 0 <= j < 8 ==> #[trigger] lanes@[j] == lane16(v, j),
            bits as nat == bitmask_sum_16(v, k as nat),
            bits < vstd::arithmetic::power2::pow2((k + 16) as nat),
        decreases 8 - k,
    {
        let p = pow2_u128(k + 16);
        proof {
            vstd::arithmetic::power2::lemma_pow2_unfold((k + 16 + 1) as nat);
        }
        if (lanes[(8 - 1 - k) as usize] as u128) >= 0x1_0000 / 2 {
            bits = bits + p;
        }
        k = k + 1;
    }
    proof {
        vstd::arithmetic::power2::lemma2_to64();
        if 8 + 16 < 32 {
            vstd::arithmetic::power2::lemma_pow2_strictly_increases((8 + 16) as nat, 32);
        }
    }
    stack.push_value(Val::I32(bits as u32));
    Ok(())
}

/// The sum, over the first `count` lanes taken from the last one backward, of
/// 2^(k + 24) for the `k`-th such lane when it is negative.
pub open spec fn bitmask_sum_32(x: u128, count: nat) -> nat
    decreases count,
{
    if count == 0 {
        0
    } else {
        let k = (count - 1) as nat;
        bitmask_sum_32(x, k) + if (lane32(x, 4 - 1 - k) as nat) >= 0x1_0000_0000nat / 2 {
            vstd::arithmetic::power2::pow2(k + 24)
        } else {
            0
        }
    }
}

/// Pops a vector and pushes a mask of its negative lanes: bit `k + 24` is set when
/// lane `3 - k` is negative.
pub fn bitmask_32x4(stack: &mut Stack) -> (r: RResult<()>)
    ensures
        match as_v128(top_value(old(stack)@)) {
            Some(x) => r is Ok && final(stack)@ == push_val(old(stack)@.drop_last(), Val::I32(bitmask_sum_32(x, 4) as u32)),
            None => r is Err && final(stack)@ == old(stack)@,
        },
{
    let v = match stack.pop_v128() {
        Some(v) => v,
        None => return Err(Trap),
    };
    let lanes = lanes_32(v);
    let mut bits: u128 = 0;
    let mut k: u32 = 0;
    proof {
        vstd::arithmetic::power2::lemma2_to64();
    }
    while k < 4
        invariant
            k <= 4,
            lanes@.len() == 4,
            forall|j: int| 0 <= j < 4 ==> #[trigger] lanes@[j] == lane32(v, j),
            bits as nat == bitmask_sum_32(v, k as nat),
            bits < vstd::arithmetic::power2::pow2((k + 24) as nat),
        decreases 4 - k,
    {
        let p = pow2_u128(k + 24);
        proof {
            vstd::arithmetic::power2::lemma_pow2_unfold((k + 24 + 1) as nat);
        }
        if (lanes[(4 - 1 - k) as usize] as u128) >= 0x1_0000_0000 / 2 {
            bits = bits + p;
        }
        k = k + 1;
    }
    proof {
        vstd::arithmetic::power2::lemma2_to64();
        if 4 + 24 < 32 {
            vstd::arithmetic::power2::lemma_pow2_strictly_increases((4 + 24) as nat, 32);
        }
    }
    stack.push_value(Val::I32(bits as u32));
    Ok(())
}

/// The sum, over the first `count` lanes taken from the last one backward, of
/// 2^(k + 26) for the `k`-th such lane when it is negative.
pub open spec fn bitmask_sum_64(x: u128, count: nat) -> nat
    decreases count,
{
    if count == 0 {
        0
    } else {
        let k = (count - 1) as nat;
        bitmask_sum_64(x, k) + if (lane64(x, 2 - 1 - k) as nat) >= 0x1_0000_0000_0000_0000nat / 2 {
            vstd::arithmetic::power2::pow2(k + 26)
        } else {
            0
        }
    }
}

/// Pops a vector and pushes a mask of its negative lanes: bit `k + 26` is set when
/// lane `1 - k` is negative.
pub fn bitmask_64x2(stack: &mut Stack) -> (r: RResult<()>)
    ensures
        match as_v128(top_value(old(stack)@)) {
            Some(x) => r is Ok && final(stack)@ == push_val(old(stack)@.drop_last(), Val::I32(bitmask_sum_64(x, 2) as u32)),
            None => r is Err && final(stack)@ == old(stack)@,
        },
{
    let v = match stack.pop_v128() {
        Some(v) => v,
        None => return Err(Trap),
    };
    let lanes = lanes_64(v);
    let mut bits: u128 = 0;
    let mut k: u32 = 0;
    proof {
        vstd::arithmetic::power2::lemma2_to64();
    }
    while k < 2
        invariant
            k <= 2,
            lanes@.len() == 2,
            forall|j: int| 0 <= j < 2 ==> #[trigger] lanes@[j] == lane64(v, j),
            bits as nat == bitmask_sum_64(v, k as nat),
            bits < vstd::arithmetic::power2::pow2((k + 26) as nat),
        decreases 2 - k,
    {
        let p = pow2_u128(k + 26);
        proof {
            vstd::arithmetic::power2::lemma_pow2_unfold((k + 26 + 1) as nat);
        }
        if (lanes[(2 - 1 - k) as usize] as u128) >= 0x1_0000_0000_0000_0000 / 2 {
            bits = bits + p;
        }
        k = k + 1;
    }
    proof {
        vstd::arithmetic::power2::lemma2_to64();
        if 2 + 26 < 32 {
            vstd::arithmetic::power2::lemma_pow2_strictly_increases((2 + 26) as nat, 32);
        }
    }
    stack.push_value(Val::I32(bits as u32));
    Ok(())
}

} // verus!
