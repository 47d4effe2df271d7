use vstd::prelude::*;

use std::rc::Rc;

use crate::entities::types::{
    Byte, DataIdx, ElemIdx, F32Type, F64Type, FuncIdx, GlobalIdx, I32Type, I64Type, LabelIdx,
    LaneIdx, LocalIdx, RefType, S33Type, TableIdx, TypeIdx, U32Type, ValType,
};

verus! {

/// The type of a structured block: no result, one value type, or a type index.
#[derive(Debug, Clone, Copy, PartialEq, Eq, Structural)]
pub enum BlockType {
    Empty,
    ValType(ValType),
    TypeIndex(S33Type),
}

#[derive(Debug, Clone, PartialEq)]
pub struct BlockInstructionType {
    pub blocktype: BlockType,
    pub instructions: Rc<Vec<InstructionType>>,
}

#[derive(Debug, Clone, PartialEq)]
pub struct LoopInstructionType {
    pub blocktype: BlockType,
    pub instructions: Rc<Vec<InstructionType>>,
}

#[derive(Debug, Clone, PartialEq)]
pub struct IfElseInstructionType {
    pub blocktype: BlockType,
    pub if_instructions: Rc<Vec<InstructionType>>,
    pub else_instructions: Rc<Vec<InstructionType>>,
}

#[derive(Debug, Clone, PartialEq)]
pub struct IfInstructionType {
    pub blocktype: BlockType,
    pub if_instructions: Rc<Vec<InstructionType>>,
}

/// A sequence of instructions terminated by `end` in the binary format.
#[derive(Debug, Clone, PartialEq)]
pub struct ExpressionType {
    pub instructions: Vec<InstructionType>,
}

impl ExpressionType {
    pub fn new(instructions: Vec<InstructionType>) -> (r: Self)
        ensures
            r.instructions == instructions,
    {
        ExpressionType { instructions }
    }
}

/// The operand of `br_table`: the label table and the default label.
#[derive(Debug, Clone, PartialEq)]
pub struct BrTableArg {
    pub labels: Vec<LabelIdx>,
    pub default: LabelIdx,
}

/// Memory argument of a load or store: offset and alignment.
#[derive(Debug, Clone, Copy, PartialEq, Eq, Structural)]
pub struct MemArg(pub U32Type, pub U32Type);

/// Memory argument and lane index of a lane load or store.
#[derive(Debug, Clone, Copy, PartialEq, Eq, Structural)]
pub struct MemArgLane(pub MemArg, pub LaneIdx);

/// Operand of `call_indirect`: the table and the expected function type.
#[derive(Debug, Clone, Copy, PartialEq, Eq, Structural)]
pub struct CallIndirectArg(pub TableIdx, pub TypeIdx);

/// Operand of `table.copy`: destination and source tables.
#[derive(Debug, Clone, Copy, PartialEq, Eq, Structural)]
pub struct TableCopyArg(pub TableIdx, pub TableIdx);

/// Operand of `table.init`: the table and the element segment.
#[derive(Debug, Clone, Copy, PartialEq, Eq, Structural)]
pub struct TableInitArg(pub TableIdx, pub ElemIdx);

#[derive(Debug, Clone, PartialEq)]
pub enum InstructionType {
    Block(BlockInstructionType),
    Br(LabelIdx),
    BrIf(LabelIdx),
    BrTable(BrTableArg),
    Call(FuncIdx),
    CallIndirect(CallIndirectArg),
    DataDrop(DataIdx),
    Drop,
    ElemDrop(ElemIdx),
    F32Abs,
    F32Add,
    F32Ceil,
    F32Const(F32Type),
    F32ConvertI32S,
    F32ConvertI32U,
    F32ConvertI64S,
    F32ConvertI64U,
    F32Copysign,
    F32DemoteF64,
    F32Div,
    F32Eq,
    F32Floor,
    F32Ge,
    F32Gt,
    F32Le,
    F32Load(MemArg),
    F32Lt,
    F32Max,
    F32Min,
    F32Mul,
    F32Ne,
    F32Nearest,
    F32Neg,
    F32ReinterpretI32,
    F32Sqrt,
    F32Store(MemArg),
    F32Sub,
    F32Trunc,
    F32x4Abs,
    F32x4Add,
    F32x4Ceil,
    F32x4ConvertI32x4S,
    F32x4ConvertI32x4U,
    F32x4DemoteF64x2Zero,
    F32x4Div,
    F32x4Eq,
    F32x4ExtractLane(LaneIdx),
    F32x4Floor,
    F32x4Ge,
    F32x4Gt,
    F32x4Le,
    F32x4Lt,
    F32x4Max,
    F32x4Min,
    F32x4Mul,
    F32x4Ne,
    F32x4Nearest,
    F32x4Neg,
    F32x4Pmax,
    F32x4Pmin,
    F32x4ReplaceLane(LaneIdx),
    F32x4Splat,
    F32x4Sqrt,
    F32x4Sub,
    F32x4Trunc,
    F64Abs,
    F64Add,
    F64Ceil,
    F64Const(F64Type),
    F64ConvertI32S,
    F64ConvertI32U,
    F64ConvertI64S,
    F64ConvertI64U,
    F64Copysign,
    F64Div,
    F64Eq,
    F64Floor,
    F64Ge,
    F64Gt,
    F64Le,
    F64Load(MemArg),
    F64Lt,
    F64Max,
    F64Min,
    F64Mul,
    F64Ne,
    F64Nearest,
    F64Neg,
    F64PromoteF32,
    F64ReinterpretI64,
    F64Sqrt,
    F64Store(MemArg),
    F64Sub,
    F64Trunc,
    F64x2Abs,
    F64x2Add,
    F64x2Ceil,
    F64x2ConvertLowI32x4S,
    F64x2ConvertLowI32x4U,
    F64x2Div,
    F64x2Eq,
    F64x2ExtractLane(LaneIdx),
    F64x2Floor,
    F64x2Ge,
    F64x2Gt,
    F64x2Le,
    F64x2Lt,
    F64x2Max,
    F64x2Min,
    F64x2Mul,
    F64x2Ne,
    F64x2Nearest,
    F64x2Neg,
    F64x2Pmax,
    F64x2Pmin,
    F64x2PromoteLowF32x4,
    F64x2ReplaceLane(LaneIdx),
    F64x2Splat,
    F64x2Sqrt,
    F64x2Sub,
    F64x2Trunc,
    GlobalGet(GlobalIdx),
    GlobalSet(GlobalIdx),
    I16x8Abs,
    I16x8Add,
    I16x8AddSatS,
    I16x8AddSatU,
    I16x8AllTrue,
    I16x8AvgrU,
    I16x8Bitmask,
    I16x8Eq,
    I16x8ExtaddPairwiseI8x16S,
    I16x8ExtaddPairwiseI8x16U,
    I16x8ExtendHighI8x16S,
    I16x8ExtendHighI8x16U,
    I16x8ExtendLowI8x16S,
    I16x8ExtendLowI8x16U,
    I16x8ExtmulHighI8x16S,
    I16x8ExtmulHighI8x16U,
    I16x8ExtmulLowI8x16S,
    I16x8ExtmulLowI8x16U,
    I16x8ExtractLaneS(LaneIdx),
    I16x8ExtractLaneU(LaneIdx),
    I16x8GeS,
    I16x8GeU,
    I16x8GtS,
    I16x8GtU,
    I16x8LeS,
    I16x8LeU,
    I16x8LtS,
    I16x8LtU,
    I16x8MaxS,
    I16x8MaxU,
    I16x8MinS,
    I16x8MinU,
    I16x8Mul,
    I16x8NarrowI32x4S,
    I16x8NarrowI32x4U,
    I16x8Ne,
    I16x8Neg,
    I16x8Q15MulrSatS,
    I16x8ReplaceLane(LaneIdx),
    I16x8Shl,
    I16x8ShrS,
    I16x8ShrU,
    I16x8Splat,
    I16x8Sub,
    I16x8SubSatS,
    I16x8SubSatU,
    I32Add,
    I32And,
    I32Clz,
    I32Const(I32Type),
    I32Ctz,
    I32DivS,
    I32DivU,
    I32Eq,
    I32Eqz,
    I32Extend16S,
    I32Extend8S,
    I32GeS,
    I32GeU,
    I32GtS,
    I32GtU,
    I32LeS,
    I32LeU,
    I32Load(MemArg),
    I32Load16S(MemArg),
    I32Load16U(MemArg),
    I32Load8S(MemArg),
    I32Load8U(MemArg),
    I32LtS,
    I32LtU,
    I32Mul,
    I32Ne,
    I32Or,
    I32Popcnt,
    I32ReinterpretF32,
    I32RemS,
    I32RemU,
    I32Rotl,
    I32Rotr,
    I32Shl,
    I32ShrS,
    I32ShrU,
    I32Store(MemArg),
    I32Store16(MemArg),
    I32Store8(MemArg),
    I32Sub,
    I32TruncF32S,
    I32TruncF32U,
    I32TruncF64S,
    I32TruncF64U,
    I32TruncSatF32S,
    I32TruncSatF32U,
    I32TruncSatF64S,
    I32TruncSatF64U,
    I32WrapI64,
    I32Xor,
    I32x4Abs,
    I32x4Add,
    I32x4AllTrue,
    I32x4Bitmask,
    I32x4DotI16x8S,
    I32x4Eq,
    I32x4ExtaddPairwiseI16x8S,
    I32x4ExtaddPairwiseI16x8U,
    I32x4ExtendHighI16x8S,
    I32x4ExtendHighI16x8U,
    I32x4ExtendLowI16x8S,
    I32x4ExtendLowI16x8U,
    I32x4ExtmulHighI16x8S,
    I32x4ExtmulHighI16x8U,
    I32x4ExtmulLowI16x8S,
    I32x4ExtmulLowI16x8U,
    I32x4ExtractLane(LaneIdx),
    I32x4GeS,
    I32x4GeU,
    I32x4GtS,
    I32x4GtU,
    I32x4LeS,
    I32x4LeU,
    I32x4LtS,
    I32x4LtU,
    I32x4MaxS,
    I32x4MaxU,
    I32x4MinS,
    I32x4MinU,
    I32x4Mul,
    I32x4Ne,
    I32x4Neg,
    I32x4ReplaceLane(LaneIdx),
    I32x4Shl,
    I32x4ShrS,
    I32x4ShrU,
    I32x4Splat,
    I32x4Sub,
    I32x4TruncSatF32x4S,
    I32x4TruncSatF32x4U,
    I32x4TruncSatF64x2SZero,
    I32x4TruncSatF64x2UZero,
    I64Add,
    I64And,
    I64Clz,
    I64Const(I64Type),
    I64Ctz,
    I64DivS,
    I64DivU,
    I64Eq,
    I64Eqz,
    I64Extend16S,
    I64Extend32S,
    I64Extend8S,
    I64ExtendI32S,
    I64ExtendI32U,
    I64GeS,
    I64GeU,
    I64GtS,
    I64GtU,
    I64LeS,
    I64LeU,
    I64Load(MemArg),
    I64Load16S(MemArg),
    I64Load16U(MemArg),
    I64Load32S(MemArg),
    I64Load32U(MemArg),
    I64Load8S(MemArg),
    I64Load8U(MemArg),
    I64LtS,
    I64LtU,
    I64Mul,
    I64Ne,
    I64Or,
    I64Popcnt,
    I64ReinterpretF64,
    I64RemS,
    I64RemU,
    I64Rotl,
    I64Rotr,
    I64Shl,
    I64ShrS,
    I64ShrU,
    I64Store(MemArg),
    I64Store16(MemArg),
    I64Store32(MemArg),
    I64Store8(MemArg),
    I64Sub,
    I64TruncF32S,
    I64TruncF32U,
    I64TruncF64S,
    I64TruncF64U,
    I64TruncSatF32S,
    I64TruncSatF32U,
    I64TruncSatF64S,
    I64TruncSatF64U,
    I64Xor,
    I64x2Abs,
    I64x2Add,
    I64x2AllTrue,
    I64x2Bitmask,
    I64x2Eq,
    I64x2ExtendHighI32x4S,
    I64x2ExtendHighI32x4U,
    I64x2ExtendLowI32x4S,
    I64x2ExtendLowI32x4U,
    I64x2ExtmulHighI32x4S,
    I64x2ExtmulHighI32x4U,
    I64x2ExtmulLowI32x4S,
    I64x2ExtmulLowI32x4U,
    I64x2ExtractLane(LaneIdx),
    I64x2GeS,
    I64x2GtS,
    I64x2LeS,
    I64x2LtS,
    I64x2Mul,
    I64x2Ne,
    I64x2Neg,
    I64x2ReplaceLane(LaneIdx),
    I64x2Shl,
    I64x2ShrS,
    I64x2ShrU,
    I64x2Splat,
    I64x2Sub,
    I8x16Abs,
    I8x16Add,
    I8x16AddSatS,
    I8x16AddSatU,
    I8x16AllTrue,
    I8x16AvgrU,
    I8x16Bitmask,
    I8x16Eq,
    I8x16ExtractLaneS(LaneIdx),
    I8x16ExtractLaneU(LaneIdx),
    I8x16GeS,
    I8x16GeU,
    I8x16GtS,
    I8x16GtU,
    I8x16LeS,
    I8x16LeU,
    I8x16LtS,
    I8x16LtU,
    I8x16MaxS,
    I8x16MaxU,
    I8x16MinS,
    I8x16MinU,
    I8x16NarrowI16x8S,
    I8x16NarrowI16x8U,
    I8x16Ne,
    I8x16Neg,
    I8x16Popcnt,
    I8x16ReplaceLane(LaneIdx),
    I8x16Shl,
    I8x16ShrS,
    I8x16ShrU,
    I8x16Shuffle(Vec<LaneIdx>),
    I8x16Splat,
    I8x16Sub,
    I8x16SubSatS,
    I8x16SubSatU,
    I8x16Swizzle,
    IfElse(IfElseInstructionType),
    LocalGet(LocalIdx),
    LocalSet(LocalIdx),
    LocalTee(LocalIdx),
    Loop(LoopInstructionType),
    MemoryCopy,
    MemoryFill,
    MemoryGrow,
    MemoryInit(DataIdx),
    MemorySize,
    Nop,
    RefFunc(FuncIdx),
    RefIsNull,
    RefNull(RefType),
    Return,
    Select,
    SelectVec(Vec<ValType>),
    TableCopy(TableCopyArg),
    TableFill(TableIdx),
    TableGet(TableIdx),
    TableGrow(TableIdx),
    TableInit(TableInitArg),
    TableSet(TableIdx),
    TableSize(TableIdx),
    Unreachable,
    V128And,
    V128AndNot,
    V128AnyTrue,
    V128Bitselect,
    V128Const(Vec<Byte>),
    V128Load(MemArg),
    V128Load16Lane(MemArgLane),
    V128Load16Splat(MemArg),
    V128Load16x4S(MemArg),
    V128Load16x4U(MemArg),
    V128Load32Lane(MemArgLane),
    V128Load32Splat(MemArg),
    V128Load32Zero(MemArg),
    V128Load32x2S(MemArg),
    V128Load32x2U(MemArg),
    V128Load64Lane(MemArgLane),
    V128Load64Splat(MemArg),
    V128Load64Zero(MemArg),
    V128Load8Lane(MemArgLane),
    V128Load8Splat(MemArg),
    V128Load8x8S(MemArg),
    V128Load8x8U(MemArg),
    V128Not,
    V128Or,
    V128Store(MemArg),
    V128Store16Lane(MemArgLane),
    V128Store32Lane(MemArgLane),
    V128Store64Lane(MemArgLane),
    V128Store8Lane(MemArgLane),
    V128Xor,
}

/// Whether `b` is the same instruction as `a`: equal, where an operand held in a
/// vector counts as the same when its contents are.
pub open spec fn same_instr(a: InstructionType, b: InstructionType) -> bool {
    match a {
        InstructionType::BrTable(x) => b matches InstructionType::BrTable(y) && x.labels@ == y.labels@
            && x.default == y.default,
        InstructionType::SelectVec(x) => b matches InstructionType::SelectVec(y) && x@ == y@,
        InstructionType::V128Const(x) => b matches InstructionType::V128Const(y) && x@ == y@,
        InstructionType::I8x16Shuffle(x) => b matches InstructionType::I8x16Shuffle(y) && x@ == y@,
        _ => a == b,
    }
}

/// Whether `b` holds the same instructions as `a`, in the same order.
pub open spec fn same_instrs(a: Seq<InstructionType>, b: Seq<InstructionType>) -> bool {
    a.len() == b.len() && forall|k: int| 0 <= k < a.len() ==> same_instr(a[k], #[trigger] b[k])
}

/// A copy of a vector of plain values.
fn copy_vec<T: Copy>(v: &Vec<T>) -> (r: Vec<T>)
    ensures
        r@ == v@,
{
    let mut r: Vec<T> = Vec::new();
    let mut i: usize = 0;
    while i < v.len()
        invariant
            i <= v@.len(),
            r@ == v@.take(i as int),
        decreases v@.len() - i,
    {
        r.push(v[i]);
        i = i + 1;
        proof {
            assert(r@ =~= v@.take(i as int));
        }
    }
    proof {
        assert(v@.take(i as int) =~= v@);
    }
    r
}

impl InstructionType {
    /// A copy of the instruction. The bodies of structured instructions are shared.
    pub fn copy_instr(&self) -> (r: InstructionType)
        ensures
            same_instr(*self, r),
    {
        match self {
            InstructionType::Block(b) => InstructionType::Block(BlockInstructionType { blocktype: b.blocktype, instructions: b.instructions.clone() }),
            InstructionType::Br(x) => InstructionType::Br(*x),
            InstructionType::BrIf(x) => InstructionType::BrIf(*x),
            InstructionType::BrTable(x) => InstructionType::BrTable(BrTableArg { labels: copy_vec(&x.labels), default: x.default }),
            InstructionType::Call(x) => InstructionType::Call(*x),
            InstructionType::CallIndirect(x) => InstructionType::CallIndirect(*x),
            InstructionType::DataDrop(x) => InstructionType::DataDrop(*x),
            InstructionType::Drop => InstructionType::Drop,
            InstructionType::ElemDrop(x) => InstructionType::ElemDrop(*x),
            InstructionType::F32Abs => InstructionType::F32Abs,
            InstructionType::F32Add => InstructionType::F32Add,
            InstructionType::F32Ceil => InstructionType::F32Ceil,
            InstructionType::F32Const(x) => InstructionType::F32Const(*x),
            InstructionType::F32ConvertI32S => InstructionType::F32ConvertI32S,
            InstructionType::F32ConvertI32U => InstructionType::F32ConvertI32U,
            InstructionType::F32ConvertI64S => InstructionType::F32ConvertI64S,
            InstructionType::F32ConvertI64U => InstructionType::F32ConvertI64U,
            InstructionType::F32Copysign => InstructionType::F32Copysign,
            InstructionType::F32DemoteF64 => InstructionType::F32DemoteF64,
            InstructionType::F32Div => InstructionType::F32Div,
            InstructionType::F32Eq => InstructionType::F32Eq,
            InstructionType::F32Floor => InstructionType::F32Floor,
            InstructionType::F32Ge => InstructionType::F32Ge,
            InstructionType::F32Gt => InstructionType::F32Gt,
            InstructionType::F32Le => InstructionType::F32Le,
            InstructionType::F32Load(x) => InstructionType::F32Load(*x),
            InstructionType::F32Lt => InstructionType::F32Lt,
            InstructionType::F32Max => InstructionType::F32Max,
            InstructionType::F32Min => InstructionType::F32Min,
            InstructionType::F32Mul => InstructionType::F32Mul,
            InstructionType::F32Ne => InstructionType::F32Ne,
            InstructionType::F32Nearest => InstructionType::F32Nearest,
            InstructionType::F32Neg => InstructionType::F32Neg,
            InstructionType::F32ReinterpretI32 => InstructionType::F32ReinterpretI32,
            InstructionType::F32Sqrt => InstructionType::F32Sqrt,
            InstructionType::F32Store(x) => InstructionType::F32Store(*x),
            InstructionType::F32Sub => InstructionType::F32Sub,
            InstructionType::F32Trunc => InstructionType::F32Trunc,
            InstructionType::F32x4Abs => InstructionType::F32x4Abs,
            InstructionType::F32x4Add => InstructionType::F32x4Add,
            InstructionType::F32x4Ceil => InstructionType::F32x4Ceil,
            InstructionType::F32x4ConvertI32x4S => InstructionType::F32x4ConvertI32x4S,
            InstructionType::F32x4ConvertI32x4U => InstructionType::F32x4ConvertI32x4U,
            InstructionType::F32x4DemoteF64x2Zero => InstructionType::F32x4DemoteF64x2Zero,
            InstructionType::F32x4Div => InstructionType::F32x4Div,
            InstructionType::F32x4Eq => InstructionType::F32x4Eq,
            InstructionType::F32x4ExtractLane(x) => InstructionType::F32x4ExtractLane(*x),
            InstructionType::F32x4Floor => InstructionType::F32x4Floor,
            InstructionType::F32x4Ge => InstructionType::F32x4Ge,
            InstructionType::F32x4Gt => InstructionType::F32x4Gt,
            InstructionType::F32x4Le => InstructionType::F32x4Le,
            InstructionType::F32x4Lt => InstructionType::F32x4Lt,
            InstructionType::F32x4Max => InstructionType::F32x4Max,
            InstructionType::F32x4Min => InstructionType::F32x4Min,
            InstructionType::F32x4Mul => InstructionType::F32x4Mul,
            InstructionType::F32x4Ne => InstructionType::F32x4Ne,
            InstructionType::F32x4Nearest => InstructionType::F32x4Nearest,
            InstructionType::F32x4Neg => InstructionType::F32x4Neg,
            InstructionType::F32x4Pmax => InstructionType::F32x4Pmax,
            InstructionType::F32x4Pmin => InstructionType::F32x4Pmin,
            InstructionType::F32x4ReplaceLane(x) => InstructionType::F32x4ReplaceLane(*x),
            InstructionType::F32x4Splat => InstructionType::F32x4Splat,
            InstructionType::F32x4Sqrt => InstructionType::F32x4Sqrt,
            InstructionType::F32x4Sub => InstructionType::F32x4Sub,
            InstructionType::F32x4Trunc => InstructionType::F32x4Trunc,
            InstructionType::F64Abs => InstructionType::F64Abs,
            InstructionType::F64Add => InstructionType::F64Add,
            InstructionType::F64Ceil => InstructionType::F64Ceil,
            InstructionType::F64Const(x) => InstructionType::F64Const(*x),
            InstructionType::F64ConvertI32S => InstructionType::F64ConvertI32S,
            InstructionType::F64ConvertI32U => InstructionType::F64ConvertI32U,
            InstructionType::F64ConvertI64S => InstructionType::F64ConvertI64S,
            InstructionType::F64ConvertI64U => InstructionType::F64ConvertI64U,
            InstructionType::F64Copysign => InstructionType::F64Copysign,
            InstructionType::F64Div => InstructionType::F64Div,
            InstructionType::F64Eq => InstructionType::F64Eq,
            InstructionType::F64Floor => InstructionType::F64Floor,
            InstructionType::F64Ge => InstructionType::F64Ge,
            InstructionType::F64Gt => InstructionType::F64Gt,
            InstructionType::F64Le => InstructionType::F64Le,
            InstructionType::F64Load(x) => InstructionType::F64Load(*x),
            InstructionType::F64Lt => InstructionType::F64Lt,
            InstructionType::F64Max => InstructionType::F64Max,
            InstructionType::F64Min => InstructionType::F64Min,
            InstructionType::F64Mul => InstructionType::F64Mul,
            InstructionType::F64Ne => InstructionType::F64Ne,
            InstructionType::F64Nearest => InstructionType::F64Nearest,
            InstructionType::F64Neg => InstructionType::F64Neg,
            InstructionType::F64PromoteF32 => InstructionType::F64PromoteF32,
            InstructionType::F64ReinterpretI64 => InstructionType::F64ReinterpretI64,
            InstructionType::F64Sqrt => InstructionType::F64Sqrt,
            InstructionType::F64Store(x) => InstructionType::F64Store(*x),
            InstructionType::F64Sub => InstructionType::F64Sub,
            InstructionType::F64Trunc => InstructionType::F64Trunc,
            InstructionType::F64x2Abs => InstructionType::F64x2Abs,
            InstructionType::F64x2Add => InstructionType::F64x2Add,
            InstructionType::F64x2Ceil => InstructionType::F64x2Ceil,
            InstructionType::F64x2ConvertLowI32x4S => InstructionType::F64x2ConvertLowI32x4S,
            InstructionType::F64x2ConvertLowI32x4U => InstructionType::F64x2ConvertLowI32x4U,
            InstructionType::F64x2Div => InstructionType::F64x2Div,
            InstructionType::F64x2Eq => InstructionType::F64x2Eq,
            InstructionType::F64x2ExtractLane(x) => InstructionType::F64x2ExtractLane(*x),
            InstructionType::F64x2Floor => InstructionType::F64x2Floor,
            InstructionType::F64x2Ge => InstructionType::F64x2Ge,
            InstructionType::F64x2Gt => InstructionType::F64x2Gt,
            InstructionType::F64x2Le => InstructionType::F64x2Le,
            InstructionType::F64x2Lt => InstructionType::F64x2Lt,
            InstructionType::F64x2Max => InstructionType::F64x2Max,
            InstructionType::F64x2Min => InstructionType::F64x2Min,
            InstructionType::F64x2Mul => InstructionType::F64x2Mul,
            InstructionType::F64x2Ne => InstructionType::F64x2Ne,
            InstructionType::F64x2Nearest => InstructionType::F64x2Nearest,
            InstructionType::F64x2Neg => InstructionType::F64x2Neg,
            InstructionType::F64x2Pmax => InstructionType::F64x2Pmax,
            InstructionType::F64x2Pmin => InstructionType::F64x2Pmin,
            InstructionType::F64x2PromoteLowF32x4 => InstructionType::F64x2PromoteLowF32x4,
            InstructionType::F64x2ReplaceLane(x) => InstructionType::F64x2ReplaceLane(*x),
            InstructionType::F64x2Splat => InstructionType::F64x2Splat,
            InstructionType::F64x2Sqrt => InstructionType::F64x2Sqrt,
            InstructionType::F64x2Sub => InstructionType::F64x2Sub,
            InstructionType::F64x2Trunc => InstructionType::F64x2Trunc,
            InstructionType::GlobalGet(x) => InstructionType::GlobalGet(*x),
            InstructionType::GlobalSet(x) => InstructionType::GlobalSet(*x),
            InstructionType::I16x8Abs => InstructionType::I16x8Abs,
            InstructionType::I16x8Add => InstructionType::I16x8Add,
            InstructionType::I16x8AddSatS => InstructionType::I16x8AddSatS,
            InstructionType::I16x8AddSatU => InstructionType::I16x8AddSatU,
            InstructionType::I16x8AllTrue => InstructionType::I16x8AllTrue,
            InstructionType::I16x8AvgrU => InstructionType::I16x8AvgrU,
            InstructionType::I16x8Bitmask => InstructionType::I16x8Bitmask,
            InstructionType::I16x8Eq => InstructionType::I16x8Eq,
            InstructionType::I16x8ExtaddPairwiseI8x16S => InstructionType::I16x8ExtaddPairwiseI8x16S,
            InstructionType::I16x8ExtaddPairwiseI8x16U => InstructionType::I16x8ExtaddPairwiseI8x16U,
            InstructionType::I16x8ExtendHighI8x16S => InstructionType::I16x8ExtendHighI8x16S,
            InstructionType::I16x8ExtendHighI8x16U => InstructionType::I16x8ExtendHighI8x16U,
            InstructionType::I16x8ExtendLowI8x16S => InstructionType::I16x8ExtendLowI8x16S,
            InstructionType::I16x8ExtendLowI8x16U => InstructionType::I16x8ExtendLowI8x16U,
            InstructionType::I16x8ExtmulHighI8x16S => InstructionType::I16x8ExtmulHighI8x16S,
            InstructionType::I16x8ExtmulHighI8x16U => InstructionType::I16x8ExtmulHighI8x16U,
            InstructionType::I16x8ExtmulLowI8x16S => InstructionType::I16x8ExtmulLowI8x16S,
            InstructionType::I16x8ExtmulLowI8x16U => InstructionType::I16x8ExtmulLowI8x16U,
            InstructionType::I16x8ExtractLaneS(x) => InstructionType::I16x8ExtractLaneS(*x),
            InstructionType::I16x8ExtractLaneU(x) => InstructionType::I16x8ExtractLaneU(*x),
            InstructionType::I16x8GeS => InstructionType::I16x8GeS,
            InstructionType::I16x8GeU => InstructionType::I16x8GeU,
            InstructionType::I16x8GtS => InstructionType::I16x8GtS,
            InstructionType::I16x8GtU => InstructionType::I16x8GtU,
            InstructionType::I16x8LeS => InstructionType::I16x8LeS,
            InstructionType::I16x8LeU => InstructionType::I16x8LeU,
            InstructionType::I16x8LtS => InstructionType::I16x8LtS,
            InstructionType::I16x8LtU => InstructionType::I16x8LtU,
            InstructionType::I16x8MaxS => InstructionType::I16x8MaxS,
            InstructionType::I16x8MaxU => InstructionType::I16x8MaxU,
            InstructionType::I16x8MinS => InstructionType::I16x8MinS,
            InstructionType::I16x8MinU => InstructionType::I16x8MinU,
            InstructionType::I16x8Mul => InstructionType::I16x8Mul,
            InstructionType::I16x8NarrowI32x4S => InstructionType::I16x8NarrowI32x4S,
            InstructionType::I16x8NarrowI32x4U => InstructionType::I16x8NarrowI32x4U,
            InstructionType::I16x8Ne => InstructionType::I16x8Ne,
            InstructionType::I16x8Neg => InstructionType::I16x8Neg,
            InstructionType::I16x8Q15MulrSatS => InstructionType::I16x8Q15MulrSatS,
            InstructionType::I16x8ReplaceLane(x) => InstructionType::I16x8ReplaceLane(*x),
            InstructionType::I16x8Shl => InstructionType::I16x8Shl,
            InstructionType::I16x8ShrS => InstructionType::I16x8ShrS,
            InstructionType::I16x8ShrU => InstructionType::I16x8ShrU,
            InstructionType::I16x8Splat => InstructionType::I16x8Splat,
            InstructionType::I16x8Sub => InstructionType::I16x8Sub,
            InstructionType::I16x8SubSatS => InstructionType::I16x8SubSatS,
            InstructionType::I16x8SubSatU => InstructionType::I16x8SubSatU,
            InstructionType::I32Add => InstructionType::I32Add,
            InstructionType::I32And => InstructionType::I32And,
            InstructionType::I32Clz => InstructionType::I32Clz,
            InstructionType::I32Const(x) => InstructionType::I32Const(*x),
            InstructionType::I32Ctz => InstructionType::I32Ctz,
            InstructionType::I32DivS => InstructionType::I32DivS,
            InstructionType::I32DivU => InstructionType::I32DivU,
            InstructionType::I32Eq => InstructionType::I32Eq,
            InstructionType::I32Eqz => InstructionType::I32Eqz,
            InstructionType::I32Extend16S => InstructionType::I32Extend16S,
            InstructionType::I32Extend8S => InstructionType::I32Extend8S,
            InstructionType::I32GeS => InstructionType::I32GeS,
            InstructionType::I32GeU => InstructionType::I32GeU,
            InstructionType::I32GtS => InstructionType::I32GtS,
            InstructionType::I32GtU => InstructionType::I32GtU,
            InstructionType::I32LeS => InstructionType::I32LeS,
            InstructionType::I32LeU => InstructionType::I32LeU,
            InstructionType::I32Load(x) => InstructionType::I32Load(*x),
            InstructionType::I32Load16S(x) => InstructionType::I32Load16S(*x),
            InstructionType::I32Load16U(x) => InstructionType::I32Load16U(*x),
            InstructionType::I32Load8S(x) => InstructionType::I32Load8S(*x),
            InstructionType::I32Load8U(x) => InstructionType::I32Load8U(*x),
            InstructionType::I32LtS => InstructionType::I32LtS,
            InstructionType::I32LtU => InstructionType::I32LtU,
            InstructionType::I32Mul => InstructionType::I32Mul,
            InstructionType::I32Ne => InstructionType::I32Ne,
            InstructionType::I32Or => InstructionType::I32Or,
            InstructionType::I32Popcnt => InstructionType::I32Popcnt,
            InstructionType::I32ReinterpretF32 => InstructionType::I32ReinterpretF32,
            InstructionType::I32RemS => InstructionType::I32RemS,
            InstructionType::I32RemU => InstructionType::I32RemU,
            InstructionType::I32Rotl => InstructionType::I32Rotl,
            InstructionType::I32Rotr => InstructionType::I32Rotr,
            InstructionType::I32Shl => InstructionType::I32Shl,
            InstructionType::I32ShrS => InstructionType::I32ShrS,
            InstructionType::I32ShrU => InstructionType::I32ShrU,
            InstructionType::I32Store(x) => InstructionType::I32Store(*x),
            InstructionType::I32Store16(x) => InstructionType::I32Store16(*x),
            InstructionType::I32Store8(x) => InstructionType::I32Store8(*x),
            InstructionType::I32Sub => InstructionType::I32Sub,
            InstructionType::I32TruncF32S => InstructionType::I32TruncF32S,
            InstructionType::I32TruncF32U => InstructionType::I32TruncF32U,
            InstructionType::I32TruncF64S => InstructionType::I32TruncF64S,
            InstructionType::I32TruncF64U => InstructionType::I32TruncF64U,
            InstructionType::I32TruncSatF32S => InstructionType::I32TruncSatF32S,
            InstructionType::I32TruncSatF32U => InstructionType::I32TruncSatF32U,
            InstructionType::I32TruncSatF64S => InstructionType::I32TruncSatF64S,
            InstructionType::I32TruncSatF64U => InstructionType::I32TruncSatF64U,
            InstructionType::I32WrapI64 => InstructionType::I32WrapI64,
            InstructionType::I32Xor => InstructionType::I32Xor,
            InstructionType::I32x4Abs => InstructionType::I32x4Abs,
            InstructionType::I32x4Add => InstructionType::I32x4Add,
            InstructionType::I32x4AllTrue => InstructionType::I32x4AllTrue,
            InstructionType::I32x4Bitmask => InstructionType::I32x4Bitmask,
            InstructionType::I32x4DotI16x8S => InstructionType::I32x4DotI16x8S,
            InstructionType::I32x4Eq => InstructionType::I32x4Eq,
            InstructionType::I32x4ExtaddPairwiseI16x8S => InstructionType::I32x4ExtaddPairwiseI16x8S,
            InstructionType::I32x4ExtaddPairwiseI16x8U => InstructionType::I32x4ExtaddPairwiseI16x8U,
            InstructionType::I32x4ExtendHighI16x8S => InstructionType::I32x4ExtendHighI16x8S,
            InstructionType::I32x4ExtendHighI16x8U => InstructionType::I32x4ExtendHighI16x8U,
            InstructionType::I32x4ExtendLowI16x8S => InstructionType::I32x4ExtendLowI16x8S,
            InstructionType::I32x4ExtendLowI16x8U => InstructionType::I32x4ExtendLowI16x8U,
            InstructionType::I32x4ExtmulHighI16x8S => InstructionType::I32x4ExtmulHighI16x8S,
            InstructionType::I32x4ExtmulHighI16x8U => InstructionType::I32x4ExtmulHighI16x8U,
            InstructionType::I32x4ExtmulLowI16x8S => InstructionType::I32x4ExtmulLowI16x8S,
            InstructionType::I32x4ExtmulLowI16x8U => InstructionType::I32x4ExtmulLowI16x8U,
            InstructionType::I32x4ExtractLane(x) => InstructionType::I32x4ExtractLane(*x),
            InstructionType::I32x4GeS => InstructionType::I32x4GeS,
            InstructionType::I32x4GeU => InstructionType::I32x4GeU,
            InstructionType::I32x4GtS => InstructionType::I32x4GtS,
            InstructionType::I32x4GtU => InstructionType::I32x4GtU,
            InstructionType::I32x4LeS => InstructionType::I32x4LeS,
            InstructionType::I32x4LeU => InstructionType::I32x4LeU,
            InstructionType::I32x4LtS => InstructionType::I32x4LtS,
            InstructionType::I32x4LtU => InstructionType::I32x4LtU,
            InstructionType::I32x4MaxS => InstructionType::I32x4MaxS,
            InstructionType::I32x4MaxU => InstructionType::I32x4MaxU,
            InstructionType::I32x4MinS => InstructionType::I32x4MinS,
            InstructionType::I32x4MinU => InstructionType::I32x4MinU,
            InstructionType::I32x4Mul => InstructionType::I32x4Mul,
            InstructionType::I32x4Ne => InstructionType::I32x4Ne,
            InstructionType::I32x4Neg => InstructionType::I32x4Neg,
            InstructionType::I32x4ReplaceLane(x) => InstructionType::I32x4ReplaceLane(*x),
            InstructionType::I32x4Shl => InstructionType::I32x4Shl,
            InstructionType::I32x4ShrS => InstructionType::I32x4ShrS,
            InstructionType::I32x4ShrU => InstructionType::I32x4ShrU,
            InstructionType::I32x4Splat => InstructionType::I32x4Splat,
            InstructionType::I32x4Sub => InstructionType::I32x4Sub,
            InstructionType::I32x4TruncSatF32x4S => InstructionType::I32x4TruncSatF32x4S,
            InstructionType::I32x4TruncSatF32x4U => InstructionType::I32x4TruncSatF32x4U,
            InstructionType::I32x4TruncSatF64x2SZero => InstructionType::I32x4TruncSatF64x2SZero,
            InstructionType::I32x4TruncSatF64x2UZero => InstructionType::I32x4TruncSatF64x2UZero,
            InstructionType::I64Add => InstructionType::I64Add,
            InstructionType::I64And => InstructionType::I64And,
            InstructionType::I64Clz => InstructionType::I64Clz,
            InstructionType::I64Const(x) => InstructionType::I64Const(*x),
            InstructionType::I64Ctz => InstructionType::I64Ctz,
            InstructionType::I64DivS => InstructionType::I64DivS,
            InstructionType::I64DivU => InstructionType::I64DivU,
            InstructionType::I64Eq => InstructionType::I64Eq,
            InstructionType::I64Eqz => InstructionType::I64Eqz,
            InstructionType::I64Extend16S => InstructionType::I64Extend16S,
            InstructionType::I64Extend32S => InstructionType::I64Extend32S,
            InstructionType::I64Extend8S => InstructionType::I64Extend8S,
            InstructionType::I64ExtendI32S => InstructionType::I64ExtendI32S,
            InstructionType::I64ExtendI32U => InstructionType::I64ExtendI32U,
            InstructionType::I64GeS => InstructionType::I64GeS,
            InstructionType::I64GeU => InstructionType::I64GeU,
            InstructionType::I64GtS => InstructionType::I64GtS,
            InstructionType::I64GtU => InstructionType::I64GtU,
            InstructionType::I64LeS => InstructionType::I64LeS,
            InstructionType::I64LeU => InstructionType::I64LeU,
            InstructionType::I64Load(x) => InstructionType::I64Load(*x),
            InstructionType::I64Load16S(x) => InstructionType::I64Load16S(*x),
            InstructionType::I64Load16U(x) => InstructionType::I64Load16U(*x),
            InstructionType::I64Load32S(x) => InstructionType::I64Load32S(*x),
            InstructionType::I64Load32U(x) => InstructionType::I64Load32U(*x),
            InstructionType::I64Load8S(x) => InstructionType::I64Load8S(*x),
            InstructionType::I64Load8U(x) => InstructionType::I64Load8U(*x),
            InstructionType::I64LtS => InstructionType::I64LtS,
            InstructionType::I64LtU => InstructionType::I64LtU,
            InstructionType::I64Mul => InstructionType::I64Mul,
            InstructionType::I64Ne => InstructionType::I64Ne,
            InstructionType::I64Or => InstructionType::I64Or,
            InstructionType::I64Popcnt => InstructionType::I64Popcnt,
            InstructionType::I64ReinterpretF64 => InstructionType::I64ReinterpretF64,
            InstructionType::I64RemS => InstructionType::I64RemS,
            InstructionType::I64RemU => InstructionType::I64RemU,
            InstructionType::I64Rotl => InstructionType::I64Rotl,
            InstructionType::I64Rotr => InstructionType::I64Rotr,
            InstructionType::I64Shl => InstructionType::I64Shl,
            InstructionType::I64ShrS => InstructionType::I64ShrS,
            InstructionType::I64ShrU => InstructionType::I64ShrU,
            InstructionType::I64Store(x) => InstructionType::I64Store(*x),
            InstructionType::I64Store16(x) => InstructionType::I64Store16(*x),
            InstructionType::I64Store32(x) => InstructionType::I64Store32(*x),
            InstructionType::I64Store8(x) => InstructionType::I64Store8(*x),
            InstructionType::I64Sub => InstructionType::I64Sub,
            InstructionType::I64TruncF32S => InstructionType::I64TruncF32S,
            InstructionType::I64TruncF32U => InstructionType::I64TruncF32U,
            InstructionType::I64TruncF64S => InstructionType::I64TruncF64S,
            InstructionType::I64TruncF64U => InstructionType::I64TruncF64U,
            InstructionType::I64TruncSatF32S => InstructionType::I64TruncSatF32S,
            InstructionType::I64TruncSatF32U => InstructionType::I64TruncSatF32U,
            InstructionType::I64TruncSatF64S => InstructionType::I64TruncSatF64S,
            InstructionType::I64TruncSatF64U => InstructionType::I64TruncSatF64U,
            InstructionType::I64Xor => InstructionType::I64Xor,
            InstructionType::I64x2Abs => InstructionType::I64x2Abs,
            InstructionType::I64x2Add => InstructionType::I64x2Add,
            InstructionType::I64x2AllTrue => InstructionType::I64x2AllTrue,
            InstructionType::I64x2Bitmask => InstructionType::I64x2Bitmask,
            InstructionType::I64x2Eq => InstructionType::I64x2Eq,
            InstructionType::I64x2ExtendHighI32x4S => InstructionType::I64x2ExtendHighI32x4S,
            InstructionType::I64x2ExtendHighI32x4U => InstructionType::I64x2ExtendHighI32x4U,
            InstructionType::I64x2ExtendLowI32x4S => InstructionType::I64x2ExtendLowI32x4S,
            InstructionType::I64x2ExtendLowI32x4U => InstructionType::I64x2ExtendLowI32x4U,
            InstructionType::I64x2ExtmulHighI32x4S => InstructionType::I64x2ExtmulHighI32x4S,
            InstructionType::I64x2ExtmulHighI32x4U => InstructionType::I64x2ExtmulHighI32x4U,
            InstructionType::I64x2ExtmulLowI32x4S => InstructionType::I64x2ExtmulLowI32x4S,
            InstructionType::I64x2ExtmulLowI32x4U => InstructionType::I64x2ExtmulLowI32x4U,
            InstructionType::I64x2ExtractLane(x) => InstructionType::I64x2ExtractLane(*x),
            InstructionType::I64x2GeS => InstructionType::I64x2GeS,
            InstructionType::I64x2GtS => InstructionType::I64x2GtS,
            InstructionType::I64x2LeS => InstructionType::I64x2LeS,
            InstructionType::I64x2LtS => InstructionType::I64x2LtS,
            InstructionType::I64x2Mul => InstructionType::I64x2Mul,
            InstructionType::I64x2Ne => InstructionType::I64x2Ne,
            InstructionType::I64x2Neg => InstructionType::I64x2Neg,
            InstructionType::I64x2ReplaceLane(x) => InstructionType::I64x2ReplaceLane(*x),
            InstructionType::I64x2Shl => InstructionType::I64x2Shl,
            InstructionType::I64x2ShrS => InstructionType::I64x2ShrS,
            InstructionType::I64x2ShrU => InstructionType::I64x2ShrU,
            InstructionType::I64x2Splat => InstructionType::I64x2Splat,
            InstructionType::I64x2Sub => InstructionType::I64x2Sub,
            InstructionType::I8x16Abs => InstructionType::I8x16Abs,
            InstructionType::I8x16Add => InstructionType::I8x16Add,
            InstructionType::I8x16AddSatS => InstructionType::I8x16AddSatS,
            InstructionType::I8x16AddSatU => InstructionType::I8x16AddSatU,
            InstructionType::I8x16AllTrue => InstructionType::I8x16AllTrue,
            InstructionType::I8x16AvgrU => InstructionType::I8x16AvgrU,
            InstructionType::I8x16Bitmask => InstructionType::I8x16Bitmask,
            InstructionType::I8x16Eq => InstructionType::I8x16Eq,
            InstructionType::I8x16ExtractLaneS(x) => InstructionType::I8x16ExtractLaneS(*x),
            InstructionType::I8x16ExtractLaneU(x) => InstructionType::I8x16ExtractLaneU(*x),
            InstructionType::I8x16GeS => InstructionType::I8x16GeS,
            InstructionType::I8x16GeU => InstructionType::I8x16GeU,
            InstructionType::I8x16GtS => InstructionType::I8x16GtS,
            InstructionType::I8x16GtU => InstructionType::I8x16GtU,
            InstructionType::I8x16LeS => InstructionType::I8x16LeS,
            InstructionType::I8x16LeU => InstructionType::I8x16LeU,
            InstructionType::I8x16LtS => InstructionType::I8x16LtS,
            InstructionType::I8x16LtU => InstructionType::I8x16LtU,
            InstructionType::I8x16MaxS => InstructionType::I8x16MaxS,
            InstructionType::I8x16MaxU => InstructionType::I8x16MaxU,
            InstructionType::I8x16MinS => InstructionType::I8x16MinS,
            InstructionType::I8x16MinU => InstructionType::I8x16MinU,
            InstructionType::I8x16NarrowI16x8S => InstructionType::I8x16NarrowI16x8S,
            InstructionType::I8x16NarrowI16x8U => InstructionType::I8x16NarrowI16x8U,
            InstructionType::I8x16Ne => InstructionType::I8x16Ne,
            InstructionType::I8x16Neg => InstructionType::I8x16Neg,
            InstructionType::I8x16Popcnt => InstructionType::I8x16Popcnt,
            InstructionType::I8x16ReplaceLane(x) => InstructionType::I8x16ReplaceLane(*x),
            InstructionType::I8x16Shl => InstructionType::I8x16Shl,
            InstructionType::I8x16ShrS => InstructionType::I8x16ShrS,
            InstructionType::I8x16ShrU => InstructionType::I8x16ShrU,
            InstructionType::I8x16Shuffle(x) => InstructionType::I8x16Shuffle(copy_vec(x)),
            InstructionType::I8x16Splat => InstructionType::I8x16Splat,
            InstructionType::I8x16Sub => InstructionType::I8x16Sub,
            InstructionType::I8x16SubSatS => InstructionType::I8x16SubSatS,
            InstructionType::I8x16SubSatU => InstructionType::I8x16SubSatU,
            InstructionType::I8x16Swizzle => InstructionType::I8x16Swizzle,
            InstructionType::IfElse(b) => InstructionType::IfElse(IfElseInstructionType { blocktype: b.blocktype, if_instructions: b.if_instructions.clone(), else_instructions: b.else_instructions.clone() }),
            InstructionType::LocalGet(x) => InstructionType::LocalGet(*x),
            InstructionType::LocalSet(x) => InstructionType::LocalSet(*x),
            InstructionType::LocalTee(x) => InstructionType::LocalTee(*x),
            InstructionType::Loop(b) => InstructionType::Loop(LoopInstructionType { blocktype: b.blocktype, instructions: b.instructions.clone() }),
            InstructionType::MemoryCopy => InstructionType::MemoryCopy,
            InstructionType::MemoryFill => InstructionType::MemoryFill,
            InstructionType::MemoryGrow => InstructionType::MemoryGrow,
            InstructionType::MemoryInit(x) => InstructionType::MemoryInit(*x),
            InstructionType::MemorySize => InstructionType::MemorySize,
            InstructionType::Nop => InstructionType::Nop,
            InstructionType::RefFunc(x) => InstructionType::RefFunc(*x),
            InstructionType::RefIsNull => InstructionType::RefIsNull,
            InstructionType::RefNull(x) => InstructionType::RefNull(*x),
            InstructionType::Return => InstructionType::Return,
            InstructionType::Select => InstructionType::Select,
            InstructionType::SelectVec(x) => InstructionType::SelectVec(copy_vec(x)),
            InstructionType::TableCopy(x) => InstructionType::TableCopy(*x),
            InstructionType::TableFill(x) => InstructionType::TableFill(*x),
            InstructionType::TableGet(x) => InstructionType::TableGet(*x),
            InstructionType::TableGrow(x) => InstructionType::TableGrow(*x),
            InstructionType::TableInit(x) => InstructionType::TableInit(*x),
            InstructionType::TableSet(x) => InstructionType::TableSet(*x),
            InstructionType::TableSize(x) => InstructionType::TableSize(*x),
            InstructionType::Unreachable => InstructionType::Unreachable,
            InstructionType::V128And => InstructionType::V128And,
            InstructionType::V128AndNot => InstructionType::V128AndNot,
            InstructionType::V128AnyTrue => InstructionType::V128AnyTrue,
            InstructionType::V128Bitselect => InstructionType::V128Bitselect,
            InstructionType::V128Const(x) => InstructionType::V128Const(copy_vec(x)),
            InstructionType::V128Load(x) => InstructionType::V128Load(*x),
            InstructionType::V128Load16Lane(x) => InstructionType::V128Load16Lane(*x),
            InstructionType::V128Load16Splat(x) => InstructionType::V128Load16Splat(*x),
            InstructionType::V128Load16x4S(x) => InstructionType::V128Load16x4S(*x),
            InstructionType::V128Load16x4U(x) => InstructionType::V128Load16x4U(*x),
            InstructionType::V128Load32Lane(x) => InstructionType::V128Load32Lane(*x),
            InstructionType::V128Load32Splat(x) => InstructionType::V128Load32Splat(*x),
            InstructionType::V128Load32Zero(x) => InstructionType::V128Load32Zero(*x),
            InstructionType::V128Load32x2S(x) => InstructionType::V128Load32x2S(*x),
            InstructionType::V128Load32x2U(x) => InstructionType::V128Load32x2U(*x),
            InstructionType::V128Load64Lane(x) => InstructionType::V128Load64Lane(*x),
            InstructionType::V128Load64Splat(x) => InstructionType::V128Load64Splat(*x),
            InstructionType::V128Load64Zero(x) => InstructionType::V128Load64Zero(*x),
            InstructionType::V128Load8Lane(x) => InstructionType::V128Load8Lane(*x),
            InstructionType::V128Load8Splat(x) => InstructionType::V128Load8Splat(*x),
            InstructionType::V128Load8x8S(x) => InstructionType::V128Load8x8S(*x),
            InstructionType::V128Load8x8U(x) => InstructionType::V128Load8x8U(*x),
            InstructionType::V128Not => InstructionType::V128Not,
            InstructionType::V128Or => InstructionType::V128Or,
            InstructionType::V128Store(x) => InstructionType::V128Store(*x),
            InstructionType::V128Store16Lane(x) => InstructionType::V128Store16Lane(*x),
            InstructionType::V128Store32Lane(x) => InstructionType::V128Store32Lane(*x),
            InstructionType::V128Store64Lane(x) => InstructionType::V128Store64Lane(*x),
            InstructionType::V128Store8Lane(x) => InstructionType::V128Store8Lane(*x),
            InstructionType::V128Xor => InstructionType::V128Xor,
        }
    }
}

/// A copy of a sequence of instructions.
pub fn copy_instructions(v: &Vec<InstructionType>) -> (r: Vec<InstructionType>)
    ensures
        same_instrs(v@, r@),
{
    let mut r: Vec<InstructionType> = Vec::new();
    let mut i: usize = 0;
    while i < v.len()
        invariant
            i <= v@.len(),
            r@.len() == i,
            forall|k: int| 0 <= k < i ==> same_instr(v@[k], #[trigger] r@[k]),
        decreases v@.len() - i,
    {
        r.push(v[i].copy_instr());
        i = i + 1;
    }
    r
}

} // verus!
