use vstd::prelude::*;

use crate::result::RResult;

verus! {

/// Float operations of one operand.
#[derive(Debug, Clone, Copy, PartialEq, Eq, Structural)]
pub enum FloatUnop {
    Sqrt,
    Ceil,
    Floor,
    Trunc,
    Nearest,
}

/// Float operations of two operands.
#[derive(Debug, Clone, Copy, PartialEq, Eq, Structural)]
pub enum FloatBinop {
    Add,
    Sub,
    Mul,
    Div,
    Min,
    Max,
    Pmin,
    Pmax,
}

/// Float comparisons.
#[derive(Debug, Clone, Copy, PartialEq, Eq, Structural)]
pub enum FloatRelop {
    Eq,
    Ne,
    Lt,
    Gt,
    Le,
    Ge,
}

/// Conversions between floats and integers, and between float widths.
#[derive(Debug, Clone, Copy, PartialEq, Eq, Structural)]
pub enum FloatConvert {
    I32TruncF32S,
    I32TruncF32U,
    I32TruncF64S,
    I32TruncF64U,
    I64TruncF32S,
    I64TruncF32U,
    I64TruncF64S,
    I64TruncF64U,
    I32TruncSatF32S,
    I32TruncSatF32U,
    I32TruncSatF64S,
    I32TruncSatF64U,
    I64TruncSatF32S,
    I64TruncSatF32U,
    I64TruncSatF64S,
    I64TruncSatF64U,
    F32ConvertI32S,
    F32ConvertI32U,
    F32ConvertI64S,
    F32ConvertI64U,
    F64ConvertI32S,
    F64ConvertI32U,
    F64ConvertI64S,
    F64ConvertI64U,
    F32DemoteF64,
    F64PromoteF32,
}

/// Float conversions of a vector lane.
#[derive(Debug, Clone, Copy, PartialEq, Eq, Structural)]
pub enum LaneConvert {
    I32TruncSatF32S,
    I32TruncSatF32U,
    F32ConvertI32S,
    F32ConvertI32U,
    F64ConvertI32S,
    F64ConvertI32U,
    F64PromoteF32,
    I32TruncSatF64S,
    I32TruncSatF64U,
    F32DemoteF64,
}

/// IEEE 754 arithmetic on bit patterns. The interpreter decides which operands an
/// instruction takes and where its result goes; an implementation of this trait
/// computes the float results. `convert` returns the converted value, or a trap
/// where the conversion traps. The `lane_` methods are those of the vector
/// instructions, which the embedder may define apart from the scalar ones.
pub trait FloatOps {
    fn unop_f32(&self, op: FloatUnop, v: u32) -> u32;

    fn unop_f64(&self, op: FloatUnop, v: u64) -> u64;

    fn binop_f32(&self, op: FloatBinop, a: u32, b: u32) -> u32;

    fn binop_f64(&self, op: FloatBinop, a: u64, b: u64) -> u64;

    fn relop_f32(&self, op: FloatRelop, a: u32, b: u32) -> bool;

    fn relop_f64(&self, op: FloatRelop, a: u64, b: u64) -> bool;

    /// A scalar conversion: the operand's bits come in the low bits of `v`, the
    /// result's bits go out the same way.
    fn convert(&self, op: FloatConvert, v: u64) -> RResult<u64>;

    fn lane_unop_f32(&self, op: FloatUnop, v: u32) -> u32;

    fn lane_unop_f64(&self, op: FloatUnop, v: u64) -> u64;

    fn lane_binop_f32(&self, op: FloatBinop, a: u32, b: u32) -> u32;

    fn lane_binop_f64(&self, op: FloatBinop, a: u64, b: u64) -> u64;

    fn lane_relop_f32(&self, op: FloatRelop, a: u32, b: u32) -> bool;

    fn lane_relop_f64(&self, op: FloatRelop, a: u64, b: u64) -> bool;

    /// A lane conversion: the operand's and the result's bits in the low bits.
    fn lane_convert(&self, op: LaneConvert, v: u64) -> u64;
}

} // verus!
