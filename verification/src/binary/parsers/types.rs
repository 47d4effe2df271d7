use vstd::prelude::*;

use crate::binary::parser_helpers::{
    law_leb_reads_encoding, leb_encode, leb_u, lemma_leb_encode_len, pow128, read_s33_leb128, read_u32_leb128, read_u64_leb128, s33_value, PResult,
};
use crate::entities::types::{
    Byte, DataIdx, ElemIdx, F32Type, F64Type, FuncIdx, GlobalIdx, GlobalType, I32Type, I64Type,
    LabelIdx, LaneIdx, LimitsType, LocalIdx, MemIdx, MemType, MutType, NameType, NumType, RefType,
    ResultType, S33Type, TableIdx, TableType, TypeIdx, U32Type, ValType, VecType,
};
use crate::execute::bytes::le_value;

verus! {

/// The error of the item parsers; the module parser maps it to a syntax error of the
/// section it occurs in.
#[derive(Debug, Clone, Copy, PartialEq, Eq, Structural)]
pub struct NomError;

pub const ENCODE_BYTE_I32: Byte = 0x7F;
pub const ENCODE_BYTE_I64: Byte = 0x7E;
pub const ENCODE_BYTE_F32: Byte = 0x7D;
pub const ENCODE_BYTE_F64: Byte = 0x7C;
pub const ENCODE_BYTE_FUNC_REF: Byte = 0x70;
pub const ENCODE_BYTE_EXTERN_REF: Byte = 0x6F;
pub const ENCODE_BYTE_V128: Byte = 0x7B;
pub const ENCODE_BYTE_LIMITS_MAX_NOT_PRESENT: Byte = 0x00;
pub const ENCODE_BYTE_LIMITS_MAX_PRESENT: Byte = 0x01;
pub const ENCODE_BYTE_CONST: Byte = 0x00;
pub const ENCODE_BYTE_VAR: Byte = 0x01;

/// The value type that a byte encodes.
pub open spec fn val_type_of(byte: u8) -> Option<ValType> {
    if byte == ENCODE_BYTE_I32 {
        Some(ValType::NumType(NumType::I32))
    } else if byte == ENCODE_BYTE_I64 {
        Some(ValType::NumType(NumType::I64))
    } else if byte == ENCODE_BYTE_F32 {
        Some(ValType::NumType(NumType::F32))
    } else if byte == ENCODE_BYTE_F64 {
        Some(ValType::NumType(NumType::F64))
    } else if byte == ENCODE_BYTE_V128 {
        Some(ValType::VecType(VecType::V128))
    } else if byte == ENCODE_BYTE_FUNC_REF {
        Some(ValType::RefType(RefType::FuncRef))
    } else if byte == ENCODE_BYTE_EXTERN_REF {
        Some(ValType::RefType(RefType::ExternRef))
    } else {
        None
    }
}

/// The value type that a byte encodes.
pub fn recognize_type(byte: Byte) -> (r: Option<ValType>)
    ensures
        r == val_type_of(byte),
{
    if byte == ENCODE_BYTE_I32 {
        Some(ValType::NumType(NumType::I32))
    } else if byte == ENCODE_BYTE_I64 {
        Some(ValType::NumType(NumType::I64))
    } else if byte == ENCODE_BYTE_F32 {
        Some(ValType::NumType(NumType::F32))
    } else if byte == ENCODE_BYTE_F64 {
        Some(ValType::NumType(NumType::F64))
    } else if byte == ENCODE_BYTE_V128 {
        Some(ValType::VecType(VecType::V128))
    } else if byte == ENCODE_BYTE_FUNC_REF {
        Some(ValType::RefType(RefType::FuncRef))
    } else if byte == ENCODE_BYTE_EXTERN_REF {
        Some(ValType::RefType(RefType::ExternRef))
    } else {
        None
    }
}

/// The byte at `pos`.
pub fn parse_byte(bytes: &[u8], pos: usize) -> (r: PResult<u8>)
    ensures
        pos < bytes@.len() ==> (r matches Ok((rp, rv)) && rp == pos + 1 && rv == bytes@[pos as int]),
        pos >= bytes@.len() ==> r is Err,
        r matches Ok((rp, _)) ==> pos < rp <= bytes@.len(),
{
    if pos < bytes.len() {
        Ok((pos + 1, bytes[pos]))
    } else {
        Err(NomError)
    }
}

/// Whether the bytes at `pos` are `tag`; the position after them if so.
pub fn parse_tag(bytes: &[u8], pos: usize, tag: &[u8]) -> (r: PResult<()>)
    ensures
        match r {
            Ok((p, _)) => pos + tag@.len() <= bytes@.len() && p == pos + tag@.len() && bytes@.subrange(
                pos as int,
                p as int,
            ) == tag@,
            Err(_) => !(pos + tag@.len() <= bytes@.len() && bytes@.subrange(
                pos as int,
                pos + tag@.len(),
            ) == tag@),
        },
{
    if pos > bytes.len() || tag.len() > bytes.len() - pos {
        return Err(NomError);
    }
    let end = pos + tag.len();
    let mut i: usize = 0;
    while i < tag.len()
        invariant
            end == pos + tag@.len(),
            end <= bytes@.len(),
            i <= tag@.len(),
            forall|j: int| 0 <= j < i ==> bytes@[pos + j] == tag@[j],
        decreases tag@.len() - i,
    {
        let j = end - tag.len() + i;
        if bytes[j] != tag[i] {
            proof {
                assert(bytes@.subrange(pos as int, pos + tag@.len())[i as int] != tag@[i as int]);
            }
            return Err(NomError);
        }
        i = i + 1;
    }
    proof {
        assert(bytes@.subrange(pos as int, pos + tag@.len()) =~= tag@);
    }
    Ok((pos + tag.len(), ()))
}

/// The unsigned 32-bit LEB128 number at `pos`: its length and value.
pub open spec fn u32_at(s: Seq<u8>, pos: int) -> Option<(nat, u32)> {
    match leb_u(s, pos, 5) {
        Some((n, v)) => Some((n, (v % 0x1_0000_0000) as u32)),
        None => None,
    }
}

/// The unsigned 64-bit LEB128 number at `pos`: its length and value.
pub open spec fn u64_at(s: Seq<u8>, pos: int) -> Option<(nat, u64)> {
    match leb_u(s, pos, 10) {
        Some((n, v)) => Some((n, (v % 0x1_0000_0000_0000_0000) as u64)),
        None => None,
    }
}

/// A 32-bit value written in LEB128 reads back: `u32_at`, which `parse_u32` and the
/// index parsers follow, gives the value and the length of its encoding.
pub proof fn law_u32_reads_encoding(v: u32)
    ensures
        u32_at(leb_encode(v as nat), 0) == Some((leb_encode(v as nat).len(), v)),
{
    reveal_with_fuel(pow128, 6);
    lemma_leb_encode_len(v as nat, 5);
    let e = leb_encode(v as nat);
    assert(e.subrange(0, e.len() as int) =~= e);
    law_leb_reads_encoding(v as nat, e, 0, 5);
}

/// Parses an unsigned 32-bit LEB128 number.
pub fn parse_u32(bytes: &[u8], pos: usize) -> (r: PResult<U32Type>)
    ensures
        match u32_at(bytes@, pos as int) {
            Some((n, v)) => (r matches Ok((rp, rv)) && rp == pos + n && rv == U32Type(v)),
            None => r is Err,
        },
        r matches Ok((rp, _)) ==> pos < rp <= bytes@.len(),
{
    proof {
        crate::binary::parser_helpers::lemma_leb_u_bound(bytes@, pos as int, 5);
    }
    let mut p = pos;
    let v = read_u32_leb128(bytes, &mut p)?;
    Ok((p, U32Type(v)))
}

/// Parses a signed 33-bit LEB128 number.
pub fn parse_s33(bytes: &[u8], pos: usize) -> (r: PResult<S33Type>)
    ensures
        match leb_u(bytes@, pos as int, 10) {
            Some((n, v)) => (r matches Ok((rp, rv)) && rp == pos + n && rv == S33Type(s33_value(n, v, bytes@[pos + n - 1]) as i64)),
            None => r is Err,
        },
        r matches Ok((rp, _)) ==> pos < rp <= bytes@.len(),
{
    proof {
        crate::binary::parser_helpers::lemma_leb_u_bound(bytes@, pos as int, 10);
    }
    let mut p = pos;
    let v = read_s33_leb128(bytes, &mut p)?;
    Ok((p, S33Type(v)))
}

/// Parses the operand of `i32.const`, read as an unsigned LEB128 number.
pub fn parse_i32(bytes: &[u8], pos: usize) -> (r: PResult<I32Type>)
    ensures
        match u32_at(bytes@, pos as int) {
            Some((n, v)) => (r matches Ok((rp, rv)) && rp == pos + n && rv == I32Type(v)),
            None => r is Err,
        },
        r matches Ok((rp, _)) ==> pos < rp <= bytes@.len(),
{
    proof {
        crate::binary::parser_helpers::lemma_leb_u_bound(bytes@, pos as int, 5);
    }
    let mut p = pos;
    let v = read_u32_leb128(bytes, &mut p)?;
    Ok((p, I32Type(v)))
}

/// Parses the operand of `i64.const`, read as an unsigned LEB128 number.
pub fn parse_i64(bytes: &[u8], pos: usize) -> (r: PResult<I64Type>)
    ensures
        match u64_at(bytes@, pos as int) {
            Some((n, v)) => (r matches Ok((rp, rv)) && rp == pos + n && rv == I64Type(v)),
            None => r is Err,
        },
        r matches Ok((rp, _)) ==> pos < rp <= bytes@.len(),
{
    proof {
        crate::binary::parser_helpers::lemma_leb_u_bound(bytes@, pos as int, 10);
    }
    let mut p = pos;
    let v = read_u64_leb128(bytes, &mut p)?;
    Ok((p, I64Type(v)))
}

/// Reads `n` bytes at `pos` as a little-endian number.
fn read_le_bytes(bytes: &[u8], pos: usize, n: usize) -> (r: PResult<u64>)
    requires
        n <= 8,
    ensures
        pos + n <= bytes@.len() ==> (r matches Ok((rp, rv)) && rp == pos + n && rv == le_value(bytes@.subrange(pos as int, pos + n)) as u64),
        pos + n > bytes@.len() ==> r is Err,
{
    if pos > bytes.len() || n > bytes.len() - pos {
        return Err(NomError);
    }
    let v = crate::execute::bytes::read_le(bytes, pos, n);
    proof {
        crate::execute::bytes::lemma_le_value_bound(bytes@.subrange(pos as int, pos + n));
        crate::execute::bytes::lemma_pow256_values();
        crate::execute::bytes::lemma_pow256_mono(n as nat, 8);
    }
    Ok((pos + n, v as u64))
}

/// Parses the operand of `f32.const`: four bytes, little-endian.
pub fn parse_f32(bytes: &[u8], pos: usize) -> (r: PResult<F32Type>)
    ensures
        pos + 4 <= bytes@.len() ==> (r matches Ok((rp, rv)) && rp == pos + 4 && rv == F32Type(le_value(bytes@.subrange(pos as int, pos + 4)) as u32)),
        pos + 4 > bytes@.len() ==> r is Err,
        r matches Ok((rp, _)) ==> pos < rp <= bytes@.len(),
{
    let (p, v) = read_le_bytes(bytes, pos, 4)?;
    proof {
        crate::execute::bytes::lemma_le_value_bound(bytes@.subrange(pos as int, pos + 4));
        crate::execute::bytes::lemma_pow256_values();
    }
    Ok((p, F32Type(v as u32)))
}

/// Parses the operand of `f64.const`: eight bytes, little-endian.
pub fn parse_f64(bytes: &[u8], pos: usize) -> (r: PResult<F64Type>)
    ensures
        pos + 8 <= bytes@.len() ==> (r matches Ok((rp, rv)) && rp == pos + 8 && rv == F64Type(le_value(bytes@.subrange(pos as int, pos + 8)) as u64)),
        pos + 8 > bytes@.len() ==> r is Err,
        r matches Ok((rp, _)) ==> pos < rp <= bytes@.len(),
{
    let (p, v) = read_le_bytes(bytes, pos, 8)?;
    Ok((p, F64Type(v)))
}

/// Parses a value type.
pub fn parse_val_type(bytes: &[u8], pos: usize) -> (r: PResult<ValType>)
    ensures
        pos < bytes@.len() && val_type_of(bytes@[pos as int]) is Some ==> (r matches Ok((rp, rv)) && rp == pos + 1 && rv == val_type_of(bytes@[pos as int])->0),
        !(pos < bytes@.len() && val_type_of(bytes@[pos as int]) is Some) ==> r is Err,
        r matches Ok((rp, _)) ==> pos < rp <= bytes@.len(),
{
    let (p, b) = parse_byte(bytes, pos)?;
    match recognize_type(b) {
        Some(t) => Ok((p, t)),
        None => Err(NomError),
    }
}

/// The reference type that a byte encodes.
pub open spec fn ref_type_of(byte: u8) -> Option<RefType> {
    if byte == ENCODE_BYTE_EXTERN_REF {
        Some(RefType::ExternRef)
    } else if byte == ENCODE_BYTE_FUNC_REF {
        Some(RefType::FuncRef)
    } else {
        None
    }
}

/// Parses a reference type.
pub fn parse_ref_type(bytes: &[u8], pos: usize) -> (r: PResult<RefType>)
    ensures
        pos < bytes@.len() && ref_type_of(bytes@[pos as int]) is Some ==> (r matches Ok((rp, rv)) && rp == pos + 1 && rv == ref_type_of(bytes@[pos as int])->0),
        !(pos < bytes@.len() && ref_type_of(bytes@[pos as int]) is Some) ==> r is Err,
        r matches Ok((rp, _)) ==> pos < rp <= bytes@.len(),
{
    let (p, b) = parse_byte(bytes, pos)?;
    if b == ENCODE_BYTE_EXTERN_REF {
        Ok((p, RefType::ExternRef))
    } else if b == ENCODE_BYTE_FUNC_REF {
        Ok((p, RefType::FuncRef))
    } else {
        Err(NomError)
    }
}

/// The limits at `pos`: a flag byte, the minimum, and the maximum where the flag is 1.
pub open spec fn limits_at(s: Seq<u8>, pos: int) -> Option<(nat, LimitsType)> {
    if 0 <= pos < s.len() && s[pos] == ENCODE_BYTE_LIMITS_MAX_NOT_PRESENT {
        match u32_at(s, pos + 1) {
            Some((n, min)) => Some((n + 1, LimitsType { min: U32Type(min), max: None })),
            None => None,
        }
    } else if 0 <= pos < s.len() && s[pos] == ENCODE_BYTE_LIMITS_MAX_PRESENT {
        match u32_at(s, pos + 1) {
            Some((n, min)) => match u32_at(s, pos + 1 + n) {
                Some((m, max)) => Some((n + m + 1, LimitsType { min: U32Type(min), max: Some(U32Type(max)) })),
                None => None,
            },
            None => None,
        }
    } else {
        None
    }
}

/// Parses limits.
pub fn parse_limits(bytes: &[u8], pos: usize) -> (r: PResult<LimitsType>)
    ensures
        match limits_at(bytes@, pos as int) {
            Some((n, l)) => (r matches Ok((rp, rv)) && rp == pos + n && rv == l),
            None => r is Err,
        },
        r matches Ok((rp, _)) ==> pos < rp <= bytes@.len(),
{
    let (p, flag) = parse_byte(bytes, pos)?;
    if flag == ENCODE_BYTE_LIMITS_MAX_NOT_PRESENT {
        let (p, min) = parse_u32(bytes, p)?;
        Ok((p, LimitsType { min, max: None }))
    } else if flag == ENCODE_BYTE_LIMITS_MAX_PRESENT {
        let (p, min) = parse_u32(bytes, p)?;
        let (p, max) = parse_u32(bytes, p)?;
        Ok((p, LimitsType { min, max: Some(max) }))
    } else {
        Err(NomError)
    }
}

/// Parses a table type: the element reference type, then the limits.
pub fn parse_table_type(bytes: &[u8], pos: usize) -> (r: PResult<TableType>)
    ensures
        match ref_type_of(if pos < bytes@.len() { bytes@[pos as int] } else { 0 }) {
            Some(t) => pos < bytes@.len() && match limits_at(bytes@, pos + 1) {
                Some((n, l)) => (r matches Ok((rp, rv)) && rp == pos + 1 + n && rv == TableType { limits: l, element_ref_type: t }),
                None => r is Err,
            } || pos >= bytes@.len() && r is Err,
            None => r is Err,
        },
        r matches Ok((rp, _)) ==> pos < rp <= bytes@.len(),
{
    let (p, element_ref_type) = parse_ref_type(bytes, pos)?;
    let (p, limits) = parse_limits(bytes, p)?;
    Ok((p, TableType { limits, element_ref_type }))
}

/// Parses a memory type: its limits.
pub fn parse_mem_type(bytes: &[u8], pos: usize) -> (r: PResult<MemType>)
    ensures
        match limits_at(bytes@, pos as int) {
            Some((n, l)) => (r matches Ok((rp, rv)) && rp == pos + n && rv == MemType { limits: l }),
            None => r is Err,
        },
        r matches Ok((rp, _)) ==> pos < rp <= bytes@.len(),
{
    let (p, limits) = parse_limits(bytes, pos)?;
    Ok((p, MemType { limits }))
}

/// The mutability that a byte encodes.
pub open spec fn mut_type_of(byte: u8) -> Option<MutType> {
    if byte == ENCODE_BYTE_CONST {
        Some(MutType::Const)
    } else if byte == ENCODE_BYTE_VAR {
        Some(MutType::Var)
    } else {
        None
    }
}

/// Parses a mutability flag.
pub fn parse_mut_type(bytes: &[u8], pos: usize) -> (r: PResult<MutType>)
    ensures
        pos < bytes@.len() && mut_type_of(bytes@[pos as int]) is Some ==> (r matches Ok((rp, rv)) && rp == pos + 1 && rv == mut_type_of(bytes@[pos as int])->0),
        !(pos < bytes@.len() && mut_type_of(bytes@[pos as int]) is Some) ==> r is Err,
        r matches Ok((rp, _)) ==> pos < rp <= bytes@.len(),
{
    let (p, b) = parse_byte(bytes, pos)?;
    if b == ENCODE_BYTE_CONST {
        Ok((p, MutType::Const))
    } else if b == ENCODE_BYTE_VAR {
        Ok((p, MutType::Var))
    } else {
        Err(NomError)
    }
}

/// Parses a global type: the value type, then the mutability.
pub fn parse_global_type(bytes: &[u8], pos: usize) -> (r: PResult<GlobalType>)
    ensures
        pos + 1 < bytes@.len() && val_type_of(bytes@[pos as int]) is Some && mut_type_of(bytes@[pos + 1]) is Some
            ==> (r matches Ok((rp, rv)) && rp == pos + 2 && rv == GlobalType { mut_type: mut_type_of(bytes@[pos + 1])->0, val_type: val_type_of(bytes@[pos as int])->0, }),
        !(pos + 1 < bytes@.len() && val_type_of(bytes@[pos as int]) is Some && mut_type_of(bytes@[pos + 1]) is Some)
            ==> r is Err,
        r matches Ok((rp, _)) ==> pos < rp <= bytes@.len(),
{
    let (p, val_type) = parse_val_type(bytes, pos)?;
    let (p, mut_type) = parse_mut_type(bytes, p)?;
    Ok((p, GlobalType { mut_type, val_type }))
}

/// Parses a type index.
pub fn parse_type_idx(bytes: &[u8], pos: usize) -> (r: PResult<TypeIdx>)
    ensures
        match u32_at(bytes@, pos as int) {
            Some((n, v)) => (r matches Ok((rp, rv)) && rp == pos + n && rv == TypeIdx(U32Type(v))),
            None => r is Err,
        },
        r matches Ok((rp, _)) ==> pos < rp <= bytes@.len(),
{
    let (p, v) = parse_u32(bytes, pos)?;
    Ok((p, TypeIdx(v)))
}

/// Parses a function index.
pub fn parse_func_idx(bytes: &[u8], pos: usize) -> (r: PResult<FuncIdx>)
    ensures
        match u32_at(bytes@, pos as int) {
            Some((n, v)) => (r matches Ok((rp, rv)) && rp == pos + n && rv == FuncIdx(U32Type(v))),
            None => r is Err,
        },
        r matches Ok((rp, _)) ==> pos < rp <= bytes@.len(),
{
    let (p, v) = parse_u32(bytes, pos)?;
    Ok((p, FuncIdx(v)))
}

/// Parses a table index.
pub fn parse_table_idx(bytes: &[u8], pos: usize) -> (r: PResult<TableIdx>)
    ensures
        match u32_at(bytes@, pos as int) {
            Some((n, v)) => (r matches Ok((rp, rv)) && rp == pos + n && rv == TableIdx(U32Type(v))),
            None => r is Err,
        },
        r matches Ok((rp, _)) ==> pos < rp <= bytes@.len(),
{
    let (p, v) = parse_u32(bytes, pos)?;
    Ok((p, TableIdx(v)))
}

/// Parses a memory index.
pub fn parse_mem_idx(bytes: &[u8], pos: usize) -> (r: PResult<MemIdx>)
    ensures
        match u32_at(bytes@, pos as int) {
            Some((n, v)) => (r matches Ok((rp, rv)) && rp == pos + n && rv == MemIdx(U32Type(v))),
            None => r is Err,
        },
        r matches Ok((rp, _)) ==> pos < rp <= bytes@.len(),
{
    let (p, v) = parse_u32(bytes, pos)?;
    Ok((p, MemIdx(v)))
}

/// Parses a global index.
pub fn parse_global_idx(bytes: &[u8], pos: usize) -> (r: PResult<GlobalIdx>)
    ensures
        match u32_at(bytes@, pos as int) {
            Some((n, v)) => (r matches Ok((rp, rv)) && rp == pos + n && rv == GlobalIdx(U32Type(v))),
            None => r is Err,
        },
        r matches Ok((rp, _)) ==> pos < rp <= bytes@.len(),
{
    let (p, v) = parse_u32(bytes, pos)?;
    Ok((p, GlobalIdx(v)))
}

/// Parses an element segment index.
pub fn parse_elem_idx(bytes: &[u8], pos: usize) -> (r: PResult<ElemIdx>)
    ensures
        match u32_at(bytes@, pos as int) {
            Some((n, v)) => (r matches Ok((rp, rv)) && rp == pos + n && rv == ElemIdx(U32Type(v))),
            None => r is Err,
        },
        r matches Ok((rp, _)) ==> pos < rp <= bytes@.len(),
{
    let (p, v) = parse_u32(bytes, pos)?;
    Ok((p, ElemIdx(v)))
}

/// Parses a data segment index.
pub fn parse_data_idx(bytes: &[u8], pos: usize) -> (r: PResult<DataIdx>)
    ensures
        match u32_at(bytes@, pos as int) {
            Some((n, v)) => (r matches Ok((rp, rv)) && rp == pos + n && rv == DataIdx(U32Type(v))),
            None => r is Err,
        },
        r matches Ok((rp, _)) ==> pos < rp <= bytes@.len(),
{
    let (p, v) = parse_u32(bytes, pos)?;
    Ok((p, DataIdx(v)))
}

/// Parses a local index.
pub fn parse_local_idx(bytes: &[u8], pos: usize) -> (r: PResult<LocalIdx>)
    ensures
        match u32_at(bytes@, pos as int) {
            Some((n, v)) => (r matches Ok((rp, rv)) && rp == pos + n && rv == LocalIdx(U32Type(v))),
            None => r is Err,
        },
        r matches Ok((rp, _)) ==> pos < rp <= bytes@.len(),
{
    let (p, v) = parse_u32(bytes, pos)?;
    Ok((p, LocalIdx(v)))
}

/// Parses a label index.
pub fn parse_label_idx(bytes: &[u8], pos: usize) -> (r: PResult<LabelIdx>)
    ensures
        match u32_at(bytes@, pos as int) {
            Some((n, v)) => (r matches Ok((rp, rv)) && rp == pos + n && rv == LabelIdx(U32Type(v))),
            None => r is Err,
        },
        r matches Ok((rp, _)) ==> pos < rp <= bytes@.len(),
{
    let (p, v) = parse_u32(bytes, pos)?;
    Ok((p, LabelIdx(v)))
}

/// Parses a lane index: one byte.
pub fn parse_lane_idx(bytes: &[u8], pos: usize) -> (r: PResult<LaneIdx>)
    ensures
        pos < bytes@.len() ==> (r matches Ok((rp, rv)) && rp == pos + 1 && rv == LaneIdx(bytes@[pos as int])),
        pos >= bytes@.len() ==> r is Err,
        r matches Ok((rp, _)) ==> pos < rp <= bytes@.len(),
{
    let (p, b) = parse_byte(bytes, pos)?;
    Ok((p, LaneIdx(b)))
}

/// The value types of a vector of `count` value types at `pos`, one byte each.
pub open spec fn val_types_at(s: Seq<u8>, pos: int, count: nat) -> Option<Seq<ValType>>
    decreases count,
{
    if count == 0 {
        Some(Seq::empty())
    } else {
        match val_types_at(s, pos, (count - 1) as nat) {
            Some(ts) => if 0 <= pos + count - 1 < s.len() && val_type_of(s[pos + count - 1]) is Some {
                Some(ts.push(val_type_of(s[pos + count - 1])->0))
            } else {
                None
            },
            None => None,
        }
    }
}

/// Parses a vector of value types: the count, then one byte per type.
pub fn parse_val_types(bytes: &[u8], pos: usize) -> (r: PResult<Vec<ValType>>)
    ensures
        match u32_at(bytes@, pos as int) {
            Some((n, count)) => match val_types_at(bytes@, pos + n, count as nat) {
                Some(ts) => r matches Ok((p, v)) && p == pos + n + count && v@ == ts,
                None => r is Err,
            },
            None => r is Err,
        },
        r matches Ok((rp, _)) ==> pos < rp <= bytes@.len(),
{
    let (start, count) = parse_u32(bytes, pos)?;
    let mut types: Vec<ValType> = Vec::new();
    let mut i: u32 = 0;
    let mut p = start;
    while i < count.0
        invariant
            i <= count.0,
            p == start + i,
            start >= pos,
            u32_at(bytes@, pos as int) == Some(((start - pos) as nat, count.0)),
            val_types_at(bytes@, start as int, i as nat) == Some(types@),
        decreases count.0 - i,
    {
        let (q, t) = match parse_val_type(bytes, p) {
            Ok(x) => x,
            Err(e) => {
                proof {
                    lemma_val_types_prefix(bytes@, start as int, (i + 1) as nat, count.0 as nat);
                }
                return Err(e);
            },
        };
        types.push(t);
        p = q;
        i = i + 1;
    }
    Ok((p, types))
}

/// A vector of value types that fails at some length fails at every greater one.
proof fn lemma_val_types_prefix(s: Seq<u8>, pos: int, k: nat, count: nat)
    requires
        k <= count,
        val_types_at(s, pos, k) is None,
    ensures
        val_types_at(s, pos, count) is None,
    decreases count - k,
{
    if k < count {
        lemma_val_types_prefix(s, pos, k + 1, count);
    }
}

/// Parses a result type: a vector of value types.
pub fn parse_result_type(bytes: &[u8], pos: usize) -> (r: PResult<ResultType>)
    ensures
        match u32_at(bytes@, pos as int) {
            Some((n, count)) => match val_types_at(bytes@, pos + n, count as nat) {
                Some(ts) => r matches Ok((p, v)) && p == pos + n + count && v.0@ == ts,
                None => r is Err,
            },
            None => r is Err,
        },
        r matches Ok((rp, _)) ==> pos < rp <= bytes@.len(),
{
    let (p, v) = parse_val_types(bytes, pos)?;
    Ok((p, ResultType(v)))
}

/// Parses a vector of bytes: the count, then the bytes.
pub fn parse_byte_vec(bytes: &[u8], pos: usize) -> (r: PResult<Vec<u8>>)
    ensures
        match u32_at(bytes@, pos as int) {
            Some((n, count)) => if pos + n + count <= bytes@.len() {
                r matches Ok((p, v)) && p == pos + n + count && v@ == bytes@.subrange(pos + n, pos + n + count)
            } else {
                r is Err
            },
            None => r is Err,
        },
        r matches Ok((rp, _)) ==> pos < rp <= bytes@.len(),
{
    let (start, count) = parse_u32(bytes, pos)?;
    let n = count.0 as usize;
    if start > bytes.len() || n > bytes.len() - start {
        return Err(NomError);
    }
    let len = bytes.len();
    let mut v: Vec<u8> = Vec::new();
    let mut i: usize = 0;
    while i < n
        invariant
            len == bytes@.len(),
            start + n <= bytes@.len(),
            i <= n,
            v@ == bytes@.subrange(start as int, start + i),
        decreases n - i,
    {
        v.push(bytes[start + i]);
        proof {
            assert(v@ =~= bytes@.subrange(start as int, start + i + 1));
        }
        i = i + 1;
    }
    Ok((start + n, v))
}

/// The text that UTF-8 bytes decode to; `None` where the bytes are not UTF-8.
pub uninterp spec fn utf8_decode(bytes: Seq<u8>) -> Option<Seq<char>>;

/// Decodes UTF-8 bytes with `String::from_utf8` (std): the decoded text, or `None`
/// where the bytes are not UTF-8.
#[verifier::external_body]
fn string_from_utf8(bytes: Vec<u8>) -> (r: Option<String>)
    ensures
        match utf8_decode(bytes@) {
            Some(text) => r matches Some(s) && s@ == text,
            None => r is None,
        },
{
    match String::from_utf8(bytes) {
        Ok(s) => Some(s),
        Err(_) => None,
    }
}

/// Parses a name: a vector of bytes holding UTF-8 text.
pub fn parse_name(bytes: &[u8], pos: usize) -> (r: PResult<NameType>)
    ensures
        match u32_at(bytes@, pos as int) {
            Some((n, count)) => if pos + n + count <= bytes@.len() {
                match utf8_decode(bytes@.subrange(pos + n, pos + n + count)) {
                    Some(text) => r matches Ok((p, name)) && p == pos + n + count && name.0@ == text,
                    None => r is Err,
                }
            } else {
                r is Err
            },
            None => r is Err,
        },
        r matches Ok((rp, _)) ==> pos < rp <= bytes@.len(),
{
    let (p, raw) = parse_byte_vec(bytes, pos)?;
    match string_from_utf8(raw) {
        Some(s) => Ok((p, NameType(s))),
        None => Err(NomError),
    }
}


/// The type bytes as the WebAssembly binary format gives them: `0x7F` i32, `0x7E` i64,
/// `0x7D` f32, `0x7C` f64, `0x7B` v128, `0x70` funcref, `0x6F` externref as value
/// types, the last two also as reference types; `0x00` for a constant and `0x01` for a
/// variable global; no other byte is any of these.
pub proof fn law_type_byte_tables(b: u8)
    ensures
        val_type_of(b) == if b == 0x7F {
            Some(ValType::NumType(NumType::I32))
        } else if b == 0x7E {
            Some(ValType::NumType(NumType::I64))
        } else if b == 0x7D {
            Some(ValType::NumType(NumType::F32))
        } else if b == 0x7C {
            Some(ValType::NumType(NumType::F64))
        } else if b == 0x7B {
            Some(ValType::VecType(VecType::V128))
        } else if b == 0x70 {
            Some(ValType::RefType(RefType::FuncRef))
        } else if b == 0x6F {
            Some(ValType::RefType(RefType::ExternRef))
        } else {
            None
        },
        ref_type_of(b) == if b == 0x70 {
            Some(RefType::FuncRef)
        } else if b == 0x6F {
            Some(RefType::ExternRef)
        } else {
            None
        },
        mut_type_of(b) == if b == 0x00 {
            Some(MutType::Const)
        } else if b == 0x01 {
            Some(MutType::Var)
        } else {
            None
        },
{
}

} // verus!
