use vstd::prelude::*;

use std::rc::Rc;

use crate::binary::parser_helpers::PResult;
use crate::binary::parsers::types::{
    val_types_at,
    parse_byte, parse_byte_vec, parse_data_idx, parse_elem_idx, parse_f32, parse_f64,
    parse_func_idx, parse_global_idx, parse_i32, parse_i64, parse_label_idx, parse_lane_idx,
    parse_local_idx, parse_ref_type, parse_s33, parse_table_idx, parse_tag, parse_u32,
    parse_val_types, recognize_type, ref_type_of, u32_at, u64_at, val_type_of, NomError,
};
use crate::execute::bytes::le_value;
use crate::entities::instructions::{
    BlockInstructionType, BlockType, BrTableArg, CallIndirectArg, ExpressionType,
    IfElseInstructionType, IfInstructionType, InstructionType, LoopInstructionType, MemArg,
    MemArgLane, TableCopyArg, TableInitArg, same_instr,
};
use crate::entities::types::{
    DataIdx, ElemIdx, F32Type, F64Type, FuncIdx, GlobalIdx, I32Type, I64Type, LabelIdx, LaneIdx, LocalIdx, TableIdx,
    TypeIdx, U32Type,
};

verus! {

/// The byte that ends an expression or a block.
pub const OPCODE_END: u8 = 0x0B;

/// The byte that separates the arms of an `if`.
pub const OPCODE_ELSE: u8 = 0x05;

/// The block type byte of a block without results.
pub const OPCODE_EMPTY: u8 = 0x40;

/// The instruction that a one-byte opcode without immediates encodes.
pub open spec fn opcode_instr(op: u8) -> Option<InstructionType> {
    match op {
        0x00 => Some(InstructionType::Unreachable),
        0x01 => Some(InstructionType::Nop),
        0x0f => Some(InstructionType::Return),
        0xd1 => Some(InstructionType::RefIsNull),
        0x1a => Some(InstructionType::Drop),
        0x1b => Some(InstructionType::Select),
        0x45 => Some(InstructionType::I32Eqz),
        0x46 => Some(InstructionType::I32Eq),
        0x47 => Some(InstructionType::I32Ne),
        0x48 => Some(InstructionType::I32LtS),
        0x49 => Some(InstructionType::I32LtU),
        0x4a => Some(InstructionType::I32GtS),
        0x4b => Some(InstructionType::I32GtU),
        0x4c => Some(InstructionType::I32LeS),
        0x4d => Some(InstructionType::I32LeU),
        0x4e => Some(InstructionType::I32GeS),
        0x4f => Some(InstructionType::I32GeU),
        0x50 => Some(InstructionType::I64Eqz),
        0x51 => Some(InstructionType::I64Eq),
        0x52 => Some(InstructionType::I64Ne),
        0x53 => Some(InstructionType::I64LtS),
        0x54 => Some(InstructionType::I64LtU),
        0x55 => Some(InstructionType::I64GtS),
        0x56 => Some(InstructionType::I64GtU),
        0x57 => Some(InstructionType::I64LeS),
        0x58 => Some(InstructionType::I64LeU),
        0x59 => Some(InstructionType::I64GeS),
        0x5a => Some(InstructionType::I64GeU),
        0x5b => Some(InstructionType::F32Eq),
        0x5c => Some(InstructionType::F32Ne),
        0x5d => Some(InstructionType::F32Lt),
        0x5e => Some(InstructionType::F32Gt),
        0x5f => Some(InstructionType::F32Le),
        0x60 => Some(InstructionType::F32Ge),
        0x61 => Some(InstructionType::F64Eq),
        0x62 => Some(InstructionType::F64Ne),
        0x63 => Some(InstructionType::F64Lt),
        0x64 => Some(InstructionType::F64Gt),
        0x65 => Some(InstructionType::F64Le),
        0x66 => Some(InstructionType::F64Ge),
        0x67 => Some(InstructionType::I32Clz),
        0x68 => Some(InstructionType::I32Ctz),
        0x69 => Some(InstructionType::I32Popcnt),
        0x6a => Some(InstructionType::I32Add),
        0x6b => Some(InstructionType::I32Sub),
        0x6c => Some(InstructionType::I32Mul),
        0x6d => Some(InstructionType::I32DivS),
        0x6e => Some(InstructionType::I32DivU),
        0x6f => Some(InstructionType::I32RemS),
        0x70 => Some(InstructionType::I32RemU),
        0x71 => Some(InstructionType::I32And),
        0x72 => Some(InstructionType::I32Or),
        0x73 => Some(InstructionType::I32Xor),
        0x74 => Some(InstructionType::I32Shl),
        0x75 => Some(InstructionType::I32ShrS),
        0x76 => Some(InstructionType::I32ShrU),
        0x77 => Some(InstructionType::I32Rotl),
        0x78 => Some(InstructionType::I32Rotr),
        0x79 => Some(InstructionType::I64Clz),
        0x7a => Some(InstructionType::I64Ctz),
        0x7b => Some(InstructionType::I64Popcnt),
        0x7c => Some(InstructionType::I64Add),
        0x7d => Some(InstructionType::I64Sub),
        0x7e => Some(InstructionType::I64Mul),
        0x7f => Some(InstructionType::I64DivS),
        0x80 => Some(InstructionType::I64DivU),
        0x81 => Some(InstructionType::I64RemS),
        0x82 => Some(InstructionType::I64RemU),
        0x83 => Some(InstructionType::I64And),
        0x84 => Some(InstructionType::I64Or),
        0x85 => Some(InstructionType::I64Xor),
        0x86 => Some(InstructionType::I64Shl),
        0x87 => Some(InstructionType::I64ShrS),
        0x88 => Some(InstructionType::I64ShrU),
        0x89 => Some(InstructionType::I64Rotl),
        0x8a => Some(InstructionType::I64Rotr),
        0x8b => Some(InstructionType::F32Abs),
        0x8c => Some(InstructionType::F32Neg),
        0x8d => Some(InstructionType::F32Ceil),
        0x8e => Some(InstructionType::F32Floor),
        0x8f => Some(InstructionType::F32Trunc),
        0x90 => Some(InstructionType::F32Nearest),
        0x91 => Some(InstructionType::F32Sqrt),
        0x92 => Some(InstructionType::F32Add),
        0x93 => Some(InstructionType::F32Sub),
        0x94 => Some(InstructionType::F32Mul),
        0x95 => Some(InstructionType::F32Div),
        0x96 => Some(InstructionType::F32Min),
        0x97 => Some(InstructionType::F32Max),
        0x98 => Some(InstructionType::F32Copysign),
        0x99 => Some(InstructionType::F64Abs),
        0x9a => Some(InstructionType::F64Neg),
        0x9b => Some(InstructionType::F64Ceil),
        0x9c => Some(InstructionType::F64Floor),
        0x9d => Some(InstructionType::F64Trunc),
        0x9e => Some(InstructionType::F64Nearest),
        0x9f => Some(InstructionType::F64Sqrt),
        0xa0 => Some(InstructionType::F64Add),
        0xa1 => Some(InstructionType::F64Sub),
        0xa2 => Some(InstructionType::F64Mul),
        0xa3 => Some(InstructionType::F64Div),
        0xa4 => Some(InstructionType::F64Min),
        0xa5 => Some(InstructionType::F64Max),
        0xa6 => Some(InstructionType::F64Copysign),
        0xa7 => Some(InstructionType::I32WrapI64),
        0xa8 => Some(InstructionType::I32TruncF32S),
        0xa9 => Some(InstructionType::I32TruncF32U),
        0xaa => Some(InstructionType::I32TruncF64S),
        0xab => Some(InstructionType::I32TruncF64U),
        0xac => Some(InstructionType::I64ExtendI32S),
        0xad => Some(InstructionType::I64ExtendI32U),
        0xae => Some(InstructionType::I64TruncF32S),
        0xaf => Some(InstructionType::I64TruncF32U),
        0xb0 => Some(InstructionType::I64TruncF64S),
        0xb1 => Some(InstructionType::I64TruncF64U),
        0xb2 => Some(InstructionType::F32ConvertI32S),
        0xb3 => Some(InstructionType::F32ConvertI32U),
        0xb4 => Some(InstructionType::F32ConvertI64S),
        0xb5 => Some(InstructionType::F32ConvertI64U),
        0xb6 => Some(InstructionType::F32DemoteF64),
        0xb7 => Some(InstructionType::F64ConvertI32S),
        0xb8 => Some(InstructionType::F64ConvertI32U),
        0xb9 => Some(InstructionType::F64ConvertI64S),
        0xba => Some(InstructionType::F64ConvertI64U),
        0xbb => Some(InstructionType::F64PromoteF32),
        0xbc => Some(InstructionType::I32ReinterpretF32),
        0xbd => Some(InstructionType::I64ReinterpretF64),
        0xbe => Some(InstructionType::F32ReinterpretI32),
        0xbf => Some(InstructionType::F64ReinterpretI64),
        0xc0 => Some(InstructionType::I32Extend8S),
        0xc1 => Some(InstructionType::I32Extend16S),
        0xc2 => Some(InstructionType::I64Extend8S),
        0xc3 => Some(InstructionType::I64Extend16S),
        0xc4 => Some(InstructionType::I64Extend32S),
        _ => None,
    }
}

/// The instruction that an opcode with one 32-bit LEB128 immediate `v` encodes.
pub open spec fn opcode_u32_instr(op: u8, v: u32) -> Option<InstructionType> {
    match op {
        0x0c => Some(InstructionType::Br(LabelIdx(U32Type(v)))),
        0x0d => Some(InstructionType::BrIf(LabelIdx(U32Type(v)))),
        0x10 => Some(InstructionType::Call(FuncIdx(U32Type(v)))),
        0xd2 => Some(InstructionType::RefFunc(FuncIdx(U32Type(v)))),
        0x20 => Some(InstructionType::LocalGet(LocalIdx(U32Type(v)))),
        0x21 => Some(InstructionType::LocalSet(LocalIdx(U32Type(v)))),
        0x22 => Some(InstructionType::LocalTee(LocalIdx(U32Type(v)))),
        0x23 => Some(InstructionType::GlobalGet(GlobalIdx(U32Type(v)))),
        0x24 => Some(InstructionType::GlobalSet(GlobalIdx(U32Type(v)))),
        0x25 => Some(InstructionType::TableGet(TableIdx(U32Type(v)))),
        0x26 => Some(InstructionType::TableSet(TableIdx(U32Type(v)))),
        0x41 => Some(InstructionType::I32Const(I32Type(v))),
        _ => None,
    }
}

/// The instruction that an opcode with two 32-bit LEB128 immediates `a`, `b` encodes.
pub open spec fn opcode_two_u32_instr(op: u8, a: u32, b: u32) -> Option<InstructionType> {
    match op {
        0x11 => Some(InstructionType::CallIndirect(CallIndirectArg(TableIdx(U32Type(a)), TypeIdx(U32Type(b))))),
        0x28 => Some(InstructionType::I32Load(MemArg(U32Type(a), U32Type(b)))),
        0x29 => Some(InstructionType::I64Load(MemArg(U32Type(a), U32Type(b)))),
        0x2a => Some(InstructionType::F32Load(MemArg(U32Type(a), U32Type(b)))),
        0x2b => Some(InstructionType::F64Load(MemArg(U32Type(a), U32Type(b)))),
        0x2c => Some(InstructionType::I32Load8S(MemArg(U32Type(a), U32Type(b)))),
        0x2d => Some(InstructionType::I32Load8U(MemArg(U32Type(a), U32Type(b)))),
        0x2e => Some(InstructionType::I32Load16S(MemArg(U32Type(a), U32Type(b)))),
        0x2f => Some(InstructionType::I32Load16U(MemArg(U32Type(a), U32Type(b)))),
        0x30 => Some(InstructionType::I64Load8S(MemArg(U32Type(a), U32Type(b)))),
        0x31 => Some(InstructionType::I64Load8U(MemArg(U32Type(a), U32Type(b)))),
        0x32 => Some(InstructionType::I64Load16S(MemArg(U32Type(a), U32Type(b)))),
        0x33 => Some(InstructionType::I64Load16U(MemArg(U32Type(a), U32Type(b)))),
        0x34 => Some(InstructionType::I64Load32S(MemArg(U32Type(a), U32Type(b)))),
        0x35 => Some(InstructionType::I64Load32U(MemArg(U32Type(a), U32Type(b)))),
        0x36 => Some(InstructionType::I32Store(MemArg(U32Type(a), U32Type(b)))),
        0x37 => Some(InstructionType::I64Store(MemArg(U32Type(a), U32Type(b)))),
        0x38 => Some(InstructionType::F32Store(MemArg(U32Type(a), U32Type(b)))),
        0x39 => Some(InstructionType::F64Store(MemArg(U32Type(a), U32Type(b)))),
        0x3a => Some(InstructionType::I32Store8(MemArg(U32Type(a), U32Type(b)))),
        0x3b => Some(InstructionType::I32Store16(MemArg(U32Type(a), U32Type(b)))),
        0x3c => Some(InstructionType::I64Store8(MemArg(U32Type(a), U32Type(b)))),
        0x3d => Some(InstructionType::I64Store16(MemArg(U32Type(a), U32Type(b)))),
        0x3e => Some(InstructionType::I64Store32(MemArg(U32Type(a), U32Type(b)))),
        _ => None,
    }
}

/// The instruction that a code after the prefix 0xFC encodes, where it has no immediates.
pub open spec fn other_instr(code: u32) -> Option<InstructionType> {
    match code {
        0 => Some(InstructionType::I32TruncSatF32S),
        1 => Some(InstructionType::I32TruncSatF32U),
        2 => Some(InstructionType::I32TruncSatF64S),
        3 => Some(InstructionType::I32TruncSatF64U),
        4 => Some(InstructionType::I64TruncSatF32S),
        5 => Some(InstructionType::I64TruncSatF32U),
        6 => Some(InstructionType::I64TruncSatF64S),
        7 => Some(InstructionType::I64TruncSatF64U),
        _ => None,
    }
}

/// The instruction that a code after the prefix 0xFC with one immediate `v` encodes.
pub open spec fn other_u32_instr(code: u32, v: u32) -> Option<InstructionType> {
    match code {
        8 => Some(InstructionType::MemoryInit(DataIdx(U32Type(v)))),
        9 => Some(InstructionType::DataDrop(DataIdx(U32Type(v)))),
        13 => Some(InstructionType::ElemDrop(ElemIdx(U32Type(v)))),
        15 => Some(InstructionType::TableGrow(TableIdx(U32Type(v)))),
        16 => Some(InstructionType::TableSize(TableIdx(U32Type(v)))),
        17 => Some(InstructionType::TableFill(TableIdx(U32Type(v)))),
        _ => None,
    }
}

/// The instruction that a code after the prefix 0xFC with two immediates encodes.
pub open spec fn other_two_u32_instr(code: u32, a: u32, b: u32) -> Option<InstructionType> {
    match code {
        12 => Some(InstructionType::TableInit(TableInitArg(TableIdx(U32Type(a)), ElemIdx(U32Type(b))))),
        14 => Some(InstructionType::TableCopy(TableCopyArg(TableIdx(U32Type(a)), TableIdx(U32Type(b))))),
        _ => None,
    }
}

/// The vector instruction that a code after the prefix 0xFD encodes, where it has no immediates.
pub open spec fn vector_instr(code: u32) -> Option<InstructionType> {
    match code {
        14 => Some(InstructionType::I8x16Swizzle),
        15 => Some(InstructionType::I8x16Splat),
        16 => Some(InstructionType::I16x8Splat),
        17 => Some(InstructionType::I32x4Splat),
        18 => Some(InstructionType::I64x2Splat),
        19 => Some(InstructionType::F32x4Splat),
        20 => Some(InstructionType::F64x2Splat),
        35 => Some(InstructionType::I8x16Eq),
        36 => Some(InstructionType::I8x16Ne),
        37 => Some(InstructionType::I8x16LtS),
        38 => Some(InstructionType::I8x16LtU),
        39 => Some(InstructionType::I8x16GtS),
        40 => Some(InstructionType::I8x16GtU),
        41 => Some(InstructionType::I8x16LeS),
        42 => Some(InstructionType::I8x16LeU),
        43 => Some(InstructionType::I8x16GeS),
        44 => Some(InstructionType::I8x16GeU),
        45 => Some(InstructionType::I16x8Eq),
        46 => Some(InstructionType::I16x8Ne),
        47 => Some(InstructionType::I16x8LtS),
        48 => Some(InstructionType::I16x8LtU),
        49 => Some(InstructionType::I16x8GtS),
        50 => Some(InstructionType::I16x8GtU),
        51 => Some(InstructionType::I16x8LeS),
        52 => Some(InstructionType::I16x8LeU),
        53 => Some(InstructionType::I16x8GeS),
        54 => Some(InstructionType::I16x8GeU),
        55 => Some(InstructionType::I32x4Eq),
        56 => Some(InstructionType::I32x4Ne),
        57 => Some(InstructionType::I32x4LtS),
        58 => Some(InstructionType::I32x4LtU),
        59 => Some(InstructionType::I32x4GtS),
        60 => Some(InstructionType::I32x4GtU),
        61 => Some(InstructionType::I32x4LeS),
        62 => Some(InstructionType::I32x4LeU),
        63 => Some(InstructionType::I32x4GeS),
        64 => Some(InstructionType::I32x4GeU),
        214 => Some(InstructionType::I64x2Eq),
        215 => Some(InstructionType::I64x2Ne),
        216 => Some(InstructionType::I64x2LtS),
        217 => Some(InstructionType::I64x2GtS),
        218 => Some(InstructionType::I64x2LeS),
        219 => Some(InstructionType::I64x2GeS),
        65 => Some(InstructionType::F32x4Eq),
        66 => Some(InstructionType::F32x4Ne),
        67 => Some(InstructionType::F32x4Lt),
        68 => Some(InstructionType::F32x4Gt),
        69 => Some(InstructionType::F32x4Le),
        70 => Some(InstructionType::F32x4Ge),
        71 => Some(InstructionType::F64x2Eq),
        72 => Some(InstructionType::F64x2Ne),
        73 => Some(InstructionType::F64x2Lt),
        74 => Some(InstructionType::F64x2Gt),
        75 => Some(InstructionType::F64x2Le),
        76 => Some(InstructionType::F64x2Ge),
        77 => Some(InstructionType::V128Not),
        78 => Some(InstructionType::V128And),
        79 => Some(InstructionType::V128AndNot),
        80 => Some(InstructionType::V128Or),
        81 => Some(InstructionType::V128Xor),
        82 => Some(InstructionType::V128Bitselect),
        83 => Some(InstructionType::V128AnyTrue),
        96 => Some(InstructionType::I8x16Abs),
        97 => Some(InstructionType::I8x16Neg),
        98 => Some(InstructionType::I8x16Popcnt),
        99 => Some(InstructionType::I8x16AllTrue),
        100 => Some(InstructionType::I8x16Bitmask),
        101 => Some(InstructionType::I8x16NarrowI16x8S),
        102 => Some(InstructionType::I8x16NarrowI16x8U),
        107 => Some(InstructionType::I8x16Shl),
        108 => Some(InstructionType::I8x16ShrS),
        109 => Some(InstructionType::I8x16ShrU),
        110 => Some(InstructionType::I8x16Add),
        111 => Some(InstructionType::I8x16AddSatS),
        112 => Some(InstructionType::I8x16AddSatU),
        113 => Some(InstructionType::I8x16Sub),
        114 => Some(InstructionType::I8x16SubSatS),
        115 => Some(InstructionType::I8x16SubSatU),
        118 => Some(InstructionType::I8x16MinS),
        119 => Some(InstructionType::I8x16MinU),
        120 => Some(InstructionType::I8x16MaxS),
        121 => Some(InstructionType::I8x16MaxU),
        123 => Some(InstructionType::I8x16AvgrU),
        124 => Some(InstructionType::I16x8ExtaddPairwiseI8x16S),
        125 => Some(InstructionType::I16x8ExtaddPairwiseI8x16U),
        128 => Some(InstructionType::I16x8Abs),
        129 => Some(InstructionType::I16x8Neg),
        130 => Some(InstructionType::I16x8Q15MulrSatS),
        131 => Some(InstructionType::I16x8AllTrue),
        132 => Some(InstructionType::I16x8Bitmask),
        133 => Some(InstructionType::I16x8NarrowI32x4S),
        134 => Some(InstructionType::I16x8NarrowI32x4U),
        135 => Some(InstructionType::I16x8ExtendLowI8x16S),
        136 => Some(InstructionType::I16x8ExtendHighI8x16S),
        137 => Some(InstructionType::I16x8ExtendLowI8x16U),
        138 => Some(InstructionType::I16x8ExtendHighI8x16U),
        139 => Some(InstructionType::I16x8Shl),
        140 => Some(InstructionType::I16x8ShrS),
        141 => Some(InstructionType::I16x8ShrU),
        142 => Some(InstructionType::I16x8Add),
        143 => Some(InstructionType::I16x8AddSatS),
        144 => Some(InstructionType::I16x8AddSatU),
        145 => Some(InstructionType::I16x8Sub),
        146 => Some(InstructionType::I16x8SubSatS),
        147 => Some(InstructionType::I16x8SubSatU),
        149 => Some(InstructionType::I16x8Mul),
        150 => Some(InstructionType::I16x8MinS),
        151 => Some(InstructionType::I16x8MinU),
        152 => Some(InstructionType::I16x8MaxS),
        153 => Some(InstructionType::I16x8MaxU),
        155 => Some(InstructionType::I16x8AvgrU),
        156 => Some(InstructionType::I16x8ExtmulLowI8x16S),
        157 => Some(InstructionType::I16x8ExtmulHighI8x16S),
        158 => Some(InstructionType::I16x8ExtmulLowI8x16U),
        159 => Some(InstructionType::I16x8ExtmulHighI8x16U),
        126 => Some(InstructionType::I32x4ExtaddPairwiseI16x8S),
        127 => Some(InstructionType::I32x4ExtaddPairwiseI16x8U),
        160 => Some(InstructionType::I32x4Abs),
        161 => Some(InstructionType::I32x4Neg),
        163 => Some(InstructionType::I32x4AllTrue),
        164 => Some(InstructionType::I32x4Bitmask),
        167 => Some(InstructionType::I32x4ExtendLowI16x8S),
        168 => Some(InstructionType::I32x4ExtendHighI16x8S),
        169 => Some(InstructionType::I32x4ExtendLowI16x8U),
        170 => Some(InstructionType::I32x4ExtendHighI16x8U),
        171 => Some(InstructionType::I32x4Shl),
        172 => Some(InstructionType::I32x4ShrS),
        173 => Some(InstructionType::I32x4ShrU),
        174 => Some(InstructionType::I32x4Add),
        177 => Some(InstructionType::I32x4Sub),
        181 => Some(InstructionType::I32x4Mul),
        182 => Some(InstructionType::I32x4MinS),
        183 => Some(InstructionType::I32x4MinU),
        184 => Some(InstructionType::I32x4MaxS),
        185 => Some(InstructionType::I32x4MaxU),
        186 => Some(InstructionType::I32x4DotI16x8S),
        188 => Some(InstructionType::I32x4ExtmulLowI16x8S),
        189 => Some(InstructionType::I32x4ExtmulHighI16x8S),
        190 => Some(InstructionType::I32x4ExtmulLowI16x8U),
        191 => Some(InstructionType::I32x4ExtmulHighI16x8U),
        192 => Some(InstructionType::I64x2Abs),
        193 => Some(InstructionType::I64x2Neg),
        195 => Some(InstructionType::I64x2AllTrue),
        196 => Some(InstructionType::I64x2Bitmask),
        199 => Some(InstructionType::I64x2ExtendLowI32x4S),
        200 => Some(InstructionType::I64x2ExtendHighI32x4S),
        201 => Some(InstructionType::I64x2ExtendLowI32x4U),
        202 => Some(InstructionType::I64x2ExtendHighI32x4U),
        203 => Some(InstructionType::I64x2Shl),
        204 => Some(InstructionType::I64x2ShrS),
        205 => Some(InstructionType::I64x2ShrU),
        206 => Some(InstructionType::I64x2Add),
        209 => Some(InstructionType::I64x2Sub),
        213 => Some(InstructionType::I64x2Mul),
        220 => Some(InstructionType::I64x2ExtmulLowI32x4S),
        221 => Some(InstructionType::I64x2ExtmulHighI32x4S),
        222 => Some(InstructionType::I64x2ExtmulLowI32x4U),
        223 => Some(InstructionType::I64x2ExtmulHighI32x4U),
        103 => Some(InstructionType::F32x4Ceil),
        104 => Some(InstructionType::F32x4Floor),
        105 => Some(InstructionType::F32x4Trunc),
        106 => Some(InstructionType::F32x4Nearest),
        224 => Some(InstructionType::F32x4Abs),
        225 => Some(InstructionType::F32x4Neg),
        227 => Some(InstructionType::F32x4Sqrt),
        228 => Some(InstructionType::F32x4Add),
        229 => Some(InstructionType::F32x4Sub),
        230 => Some(InstructionType::F32x4Mul),
        231 => Some(InstructionType::F32x4Div),
        232 => Some(InstructionType::F32x4Min),
        233 => Some(InstructionType::F32x4Max),
        234 => Some(InstructionType::F32x4Pmin),
        235 => Some(InstructionType::F32x4Pmax),
        116 => Some(InstructionType::F64x2Ceil),
        117 => Some(InstructionType::F64x2Floor),
        122 => Some(InstructionType::F64x2Trunc),
        148 => Some(InstructionType::F64x2Nearest),
        236 => Some(InstructionType::F64x2Abs),
        237 => Some(InstructionType::F64x2Neg),
        239 => Some(InstructionType::F64x2Sqrt),
        240 => Some(InstructionType::F64x2Add),
        241 => Some(InstructionType::F64x2Sub),
        242 => Some(InstructionType::F64x2Mul),
        243 => Some(InstructionType::F64x2Div),
        244 => Some(InstructionType::F64x2Min),
        245 => Some(InstructionType::F64x2Max),
        246 => Some(InstructionType::F64x2Pmin),
        247 => Some(InstructionType::F64x2Pmax),
        248 => Some(InstructionType::I32x4TruncSatF32x4S),
        249 => Some(InstructionType::I32x4TruncSatF32x4U),
        250 => Some(InstructionType::F32x4ConvertI32x4S),
        251 => Some(InstructionType::F32x4ConvertI32x4U),
        252 => Some(InstructionType::I32x4TruncSatF64x2SZero),
        253 => Some(InstructionType::I32x4TruncSatF64x2UZero),
        254 => Some(InstructionType::F64x2ConvertLowI32x4S),
        255 => Some(InstructionType::F64x2ConvertLowI32x4U),
        94 => Some(InstructionType::F32x4DemoteF64x2Zero),
        95 => Some(InstructionType::F64x2PromoteLowF32x4),
        _ => None,
    }
}

/// The vector instruction with a memory argument `a`, `b` that a code after 0xFD encodes.
pub open spec fn vector_memarg_instr(code: u32, a: u32, b: u32) -> Option<InstructionType> {
    match code {
        0 => Some(InstructionType::V128Load(MemArg(U32Type(a), U32Type(b)))),
        1 => Some(InstructionType::V128Load8x8S(MemArg(U32Type(a), U32Type(b)))),
        2 => Some(InstructionType::V128Load8x8U(MemArg(U32Type(a), U32Type(b)))),
        3 => Some(InstructionType::V128Load16x4S(MemArg(U32Type(a), U32Type(b)))),
        4 => Some(InstructionType::V128Load16x4U(MemArg(U32Type(a), U32Type(b)))),
        5 => Some(InstructionType::V128Load32x2S(MemArg(U32Type(a), U32Type(b)))),
        6 => Some(InstructionType::V128Load32x2U(MemArg(U32Type(a), U32Type(b)))),
        7 => Some(InstructionType::V128Load8Splat(MemArg(U32Type(a), U32Type(b)))),
        8 => Some(InstructionType::V128Load16Splat(MemArg(U32Type(a), U32Type(b)))),
        9 => Some(InstructionType::V128Load32Splat(MemArg(U32Type(a), U32Type(b)))),
        10 => Some(InstructionType::V128Load64Splat(MemArg(U32Type(a), U32Type(b)))),
        92 => Some(InstructionType::V128Load32Zero(MemArg(U32Type(a), U32Type(b)))),
        93 => Some(InstructionType::V128Load64Zero(MemArg(U32Type(a), U32Type(b)))),
        11 => Some(InstructionType::V128Store(MemArg(U32Type(a), U32Type(b)))),
        _ => None,
    }
}

/// The vector instruction with a memory argument and a lane index that a code after 0xFD encodes.
pub open spec fn vector_memarg_lane_instr(code: u32, a: u32, b: u32, l: u8) -> Option<InstructionType> {
    match code {
        84 => Some(InstructionType::V128Load8Lane(MemArgLane(MemArg(U32Type(a), U32Type(b)), LaneIdx(l)))),
        85 => Some(InstructionType::V128Load16Lane(MemArgLane(MemArg(U32Type(a), U32Type(b)), LaneIdx(l)))),
        86 => Some(InstructionType::V128Load32Lane(MemArgLane(MemArg(U32Type(a), U32Type(b)), LaneIdx(l)))),
        87 => Some(InstructionType::V128Load64Lane(MemArgLane(MemArg(U32Type(a), U32Type(b)), LaneIdx(l)))),
        88 => Some(InstructionType::V128Store8Lane(MemArgLane(MemArg(U32Type(a), U32Type(b)), LaneIdx(l)))),
        89 => Some(InstructionType::V128Store16Lane(MemArgLane(MemArg(U32Type(a), U32Type(b)), LaneIdx(l)))),
        90 => Some(InstructionType::V128Store32Lane(MemArgLane(MemArg(U32Type(a), U32Type(b)), LaneIdx(l)))),
        91 => Some(InstructionType::V128Store64Lane(MemArgLane(MemArg(U32Type(a), U32Type(b)), LaneIdx(l)))),
        _ => None,
    }
}

/// The vector instruction with a lane index that a code after 0xFD encodes.
pub open spec fn vector_lane_instr(code: u32, l: u8) -> Option<InstructionType> {
    match code {
        21 => Some(InstructionType::I8x16ExtractLaneS(LaneIdx(l))),
        22 => Some(InstructionType::I8x16ExtractLaneU(LaneIdx(l))),
        23 => Some(InstructionType::I8x16ReplaceLane(LaneIdx(l))),
        24 => Some(InstructionType::I16x8ExtractLaneS(LaneIdx(l))),
        25 => Some(InstructionType::I16x8ExtractLaneU(LaneIdx(l))),
        26 => Some(InstructionType::I16x8ReplaceLane(LaneIdx(l))),
        27 => Some(InstructionType::I32x4ExtractLane(LaneIdx(l))),
        28 => Some(InstructionType::I32x4ReplaceLane(LaneIdx(l))),
        29 => Some(InstructionType::I64x2ExtractLane(LaneIdx(l))),
        30 => Some(InstructionType::I64x2ReplaceLane(LaneIdx(l))),
        31 => Some(InstructionType::F32x4ExtractLane(LaneIdx(l))),
        32 => Some(InstructionType::F32x4ReplaceLane(LaneIdx(l))),
        33 => Some(InstructionType::F64x2ExtractLane(LaneIdx(l))),
        34 => Some(InstructionType::F64x2ReplaceLane(LaneIdx(l))),
        _ => None,
    }
}

/// Two unsigned 32-bit LEB128 numbers one after the other: their total length and
/// values.
pub open spec fn two_u32_at(s: Seq<u8>, pos: int) -> Option<(nat, u32, u32)> {
    match u32_at(s, pos) {
        Some((n, a)) => match u32_at(s, pos + n) {
            Some((m, b)) => Some((n + m, a, b)),
            None => None,
        },
        None => None,
    }
}

/// Parses two unsigned 32-bit LEB128 numbers.
fn parse_two_u32(bytes: &[u8], pos: usize) -> (r: PResult<(u32, u32)>)
    ensures
        match two_u32_at(bytes@, pos as int) {
            Some((n, a, b)) => r matches Ok((rp, rv)) && rp == pos + n && rv == (a, b),
            None => r is Err,
        },
        r matches Ok((rp, _)) ==> pos < rp <= bytes@.len(),
{
    let (p, a) = parse_u32(bytes, pos)?;
    let (q, b) = parse_u32(bytes, p)?;
    Ok((q, (a.0, b.0)))
}

/// Parses a memory argument: alignment and offset.
pub fn parse_memarg(bytes: &[u8], pos: usize) -> (r: PResult<MemArg>)
    ensures
        match two_u32_at(bytes@, pos as int) {
            Some((n, a, b)) => r matches Ok((rp, rv)) && rp == pos + n && rv == MemArg(U32Type(a), U32Type(b)),
            None => r is Err,
        },
        r matches Ok((rp, _)) ==> pos < rp <= bytes@.len(),
{
    let (p, (a, b)) = parse_two_u32(bytes, pos)?;
    Ok((p, MemArg(U32Type(a), U32Type(b))))
}

/// Parses the operand of `call_indirect`: the table index, then the type index.
fn parse_call_indirect_arg(bytes: &[u8], pos: usize) -> (r: PResult<CallIndirectArg>)
    ensures
        match two_u32_at(bytes@, pos as int) {
            Some((n, a, b)) => r matches Ok((rp, rv)) && rp == pos + n && rv == CallIndirectArg(TableIdx(U32Type(a)), TypeIdx(U32Type(b))),
            None => r is Err,
        },
        r matches Ok((rp, _)) ==> pos < rp <= bytes@.len(),
{
    let (p, (a, b)) = parse_two_u32(bytes, pos)?;
    Ok((p, CallIndirectArg(TableIdx(U32Type(a)), TypeIdx(U32Type(b)))))
}

/// Parses the operand of `table.copy`: two table indices.
fn parse_table_copy_arg(bytes: &[u8], pos: usize) -> (r: PResult<TableCopyArg>)
    ensures
        match two_u32_at(bytes@, pos as int) {
            Some((n, a, b)) => r matches Ok((rp, rv)) && rp == pos + n && rv == TableCopyArg(TableIdx(U32Type(a)), TableIdx(U32Type(b))),
            None => r is Err,
        },
        r matches Ok((rp, _)) ==> pos < rp <= bytes@.len(),
{
    let (p, (a, b)) = parse_two_u32(bytes, pos)?;
    Ok((p, TableCopyArg(TableIdx(U32Type(a)), TableIdx(U32Type(b)))))
}

/// Parses the operand of `table.init`: the table index, then the element index.
fn parse_table_init_arg(bytes: &[u8], pos: usize) -> (r: PResult<TableInitArg>)
    ensures
        match two_u32_at(bytes@, pos as int) {
            Some((n, a, b)) => r matches Ok((rp, rv)) && rp == pos + n && rv == TableInitArg(TableIdx(U32Type(a)), ElemIdx(U32Type(b))),
            None => r is Err,
        },
        r matches Ok((rp, _)) ==> pos < rp <= bytes@.len(),
{
    let (p, (a, b)) = parse_two_u32(bytes, pos)?;
    Ok((p, TableInitArg(TableIdx(U32Type(a)), ElemIdx(U32Type(b)))))
}

/// Parses a memory argument followed by a lane index.
fn parse_memarg_lane(bytes: &[u8], pos: usize) -> (r: PResult<MemArgLane>)
    ensures
        match two_u32_at(bytes@, pos as int) {
            Some((n, a, b)) => if pos + n < bytes@.len() {
                r matches Ok((rp, rv)) && rp == pos + n + 1 && rv == MemArgLane(MemArg(U32Type(a), U32Type(b)), LaneIdx(bytes@[pos + n]))
            } else {
                r is Err
            },
            None => r is Err,
        },
        r matches Ok((rp, _)) ==> pos < rp <= bytes@.len(),
{
    let (p, m) = parse_memarg(bytes, pos)?;
    let (q, l) = parse_lane_idx(bytes, p)?;
    Ok((q, MemArgLane(m, l)))
}

/// Parses a vector of lane indices: the count, then one byte each.
fn parse_lane_idxs(bytes: &[u8], pos: usize) -> (r: PResult<Vec<LaneIdx>>)
    ensures
        match u32_at(bytes@, pos as int) {
            Some((n, count)) => if pos + n + count <= bytes@.len() {
                r matches Ok((rp, rv)) && rp == pos + n + count && rv@.len() == count && forall|i: int|
                    0 <= i < count ==> (#[trigger] rv@[i]).0 == bytes@[pos + n + i]
            } else {
                r is Err
            },
            None => r is Err,
        },
        r matches Ok((rp, _)) ==> pos < rp <= bytes@.len(),
{
    let (p, raw) = parse_byte_vec(bytes, pos)?;
    let mut lanes: Vec<LaneIdx> = Vec::new();
    let mut i: usize = 0;
    while i < raw.len()
        invariant
            i <= raw@.len(),
            lanes@.len() == i,
            forall|j: int| 0 <= j < i ==> (#[trigger] lanes@[j]).0 == raw@[j],
        decreases raw@.len() - i,
    {
        lanes.push(LaneIdx(raw[i]));
        i = i + 1;
    }
    Ok((p, lanes))
}

/// The end position and the values of `count` unsigned 32-bit integers in a row at `pos`.
pub open spec fn u32s_at(s: Seq<u8>, pos: int, count: nat) -> Option<(int, Seq<u32>)>
    decreases count,
{
    if count == 0 {
        Some((pos, Seq::empty()))
    } else {
        match u32s_at(s, pos, (count - 1) as nat) {
            Some((p, vs)) => match u32_at(s, p) {
                Some((n, v)) => Some((p + n, vs.push(v))),
                None => None,
            },
            None => None,
        }
    }
}

pub proof fn lemma_u32s_at_none(s: Seq<u8>, pos: int, k: nat, count: nat)
    requires
        k <= count,
        u32s_at(s, pos, k) is None,
    ensures
        u32s_at(s, pos, count) is None,
    decreases count - k,
{
    if k < count {
        lemma_u32s_at_none(s, pos, (k + 1) as nat, count);
    }
}

/// The operand of `br_table` at `pos`: the end position, the label indices and the
/// default label.
pub open spec fn brtable_at(s: Seq<u8>, pos: int) -> Option<(int, Seq<u32>, u32)> {
    match u32_at(s, pos) {
        Some((n, count)) => match u32s_at(s, pos + n, count as nat) {
            Some((p, labels)) => match u32_at(s, p) {
                Some((m, d)) => Some((p + m, labels, d)),
                None => None,
            },
            None => None,
        },
        None => None,
    }
}

/// The numbers of a sequence of label indices.
pub open spec fn label_values(ls: Seq<LabelIdx>) -> Seq<u32> {
    ls.map_values(|l: LabelIdx| l.0.0)
}

/// Parses the operand of `br_table`: a vector of label indices, then the default.
fn parse_brtable_arg(bytes: &[u8], pos: usize) -> (r: PResult<BrTableArg>)
    ensures
        r matches Ok((rp, _)) ==> pos < rp <= bytes@.len(),
        match brtable_at(bytes@, pos as int) {
            Some((e, labels, d)) => r matches Ok((rp, rv)) && rp == e && label_values(rv.labels@) == labels
                && rv.default == LabelIdx(U32Type(d)),
            None => r is Err,
        },
{
    let (start, count) = parse_u32(bytes, pos)?;
    let mut labels: Vec<LabelIdx> = Vec::new();
    let mut p = start;
    let mut i: u32 = 0;
    assert(label_values(labels@) =~= Seq::<u32>::empty());
    while i < count.0
        invariant
            pos < p <= bytes@.len(),
            pos < start,
            i <= count.0,
            u32_at(bytes@, pos as int) == Some(((start - pos) as nat, count.0)),
            u32s_at(bytes@, start as int, i as nat) == Some((p as int, label_values(labels@))),
        decreases count.0 - i,
    {
        let ghost before = labels@;
        let res = parse_label_idx(bytes, p);
        match res {
            Ok((q, l)) => {
                labels.push(l);
                assert(label_values(labels@) =~= label_values(before).push(l.0.0));
                p = q;
                i = i + 1;
            },
            Err(e) => {
                proof {
                    assert(u32_at(bytes@, p as int) is None);
                    assert(u32s_at(bytes@, start as int, (i + 1) as nat) is None);
                    lemma_u32s_at_none(bytes@, start as int, (i + 1) as nat, count.0 as nat);
                    assert(brtable_at(bytes@, pos as int) is None);
                }
                return Err(e);
            },
        }
    }
    let (q, default) = parse_label_idx(bytes, p)?;
    Ok((q, BrTableArg { labels, default }))
}

/// What the parser of one instruction gives at `pos` for every opcode but those of
/// the structured instructions (`block`, `loop`, `if`).
pub open spec fn flat_instr_post(s: Seq<u8>, pos: int, r: PResult<InstructionType>) -> bool {
    &&& !opcode_known(s[pos]) ==> r is Err
    &&& opcode_instr(s[pos]) is Some ==> (r matches Ok((rp, rv))
            && rp == pos + 1 && rv == opcode_instr(s[pos])->0)
    &&& opcode_u32_instr(s[pos], 0) is Some ==> match u32_at(s, pos + 1) {
            Some((n, v)) => r matches Ok((rp, rv)) && rp == pos + 1 + n && rv == opcode_u32_instr(s[pos], v)->0,
            None => r is Err,
        }
    &&& opcode_two_u32_instr(s[pos], 0, 0) is Some ==> match two_u32_at(s, pos + 1) {
            Some((n, a, b)) => r matches Ok((rp, rv)) && rp == pos + 1 + n && rv == opcode_two_u32_instr(s[pos], a, b)->0,
            None => r is Err,
        }
    &&& s[pos] == 0xfc ==> other_instr_post(s, pos + 1, r)
    &&& s[pos] == 0xfd ==> vector_instr_post(s, pos + 1, r)
    &&& s[pos] == 0x42 ==> match u64_at(s, pos + 1) {
            Some((n, v)) => r matches Ok((rp, rv)) && rp == pos + 1 + n && rv == InstructionType::I64Const(I64Type(v)),
            None => r is Err,
        }
    &&& s[pos] == 0x43 ==> if pos + 5 <= s.len() {
            r matches Ok((rp, rv)) && rp == pos + 5 && rv == InstructionType::F32Const(F32Type(le_value(s.subrange(pos + 1, pos + 5)) as u32))
        } else {
            r is Err
        }
    &&& s[pos] == 0x44 ==> if pos + 9 <= s.len() {
            r matches Ok((rp, rv)) && rp == pos + 9 && rv == InstructionType::F64Const(F64Type(le_value(s.subrange(pos + 1, pos + 9)) as u64))
        } else {
            r is Err
        }
    &&& s[pos] == 0xd0 ==> if pos + 1 < s.len() && ref_type_of(s[pos + 1]) is Some {
            r matches Ok((rp, rv)) && rp == pos + 2 && rv == InstructionType::RefNull(ref_type_of(s[pos + 1])->0)
        } else {
            r is Err
        }
    &&& s[pos] == 0x0e ==> match brtable_at(s, pos + 1) {
            Some((e, labels, d)) => r matches Ok((rp, InstructionType::BrTable(arg))) && rp == e
                && label_values(arg.labels@) == labels && arg.default == LabelIdx(U32Type(d)),
            None => r is Err,
        }
    &&& s[pos] == 0x1c ==> match u32_at(s, pos + 1) {
            Some((n, count)) => match val_types_at(s, pos + 1 + n, count as nat) {
                Some(ts) => r matches Ok((rp, InstructionType::SelectVec(v))) && rp == pos + 1 + n + count && v@ == ts,
                None => r is Err,
            },
            None => r is Err,
        }
    &&& (s[pos] == 0x3f || s[pos] == 0x40) ==> if pos + 1 < s.len() && s[pos + 1] == 0 {
            r matches Ok((rp, rv)) && rp == pos + 2
                && rv == if s[pos] == 0x3f { InstructionType::MemorySize } else { InstructionType::MemoryGrow }
        } else {
            r is Err
        }
}

/// The position after the instruction that follows the prefix 0xFC at `pos`, if it
/// parses.
pub open spec fn other_end(s: Seq<u8>, pos: int) -> Option<int> {
    match u32_at(s, pos) {
        Some((n, code)) => if other_instr(code) is Some {
            Some(pos + n)
        } else if other_u32_instr(code, 0) is Some {
            match u32_at(s, pos + n) {
                Some((m, _)) => Some(pos + n + m),
                None => None,
            }
        } else if other_two_u32_instr(code, 0, 0) is Some {
            match two_u32_at(s, pos + n) {
                Some((m, _, _)) => Some(pos + n + m),
                None => None,
            }
        } else if code == 10 && pos + n + 2 <= s.len() && s[pos + n] == 0 && s[pos + n + 1] == 0 {
            Some(pos + n + 2)
        } else if code == 11 && pos + n < s.len() && s[pos + n] == 0 {
            Some(pos + n + 1)
        } else {
            None
        },
        None => None,
    }
}

/// The position after the vector instruction that follows the prefix 0xFD at `pos`,
/// if it parses.
pub open spec fn vector_end(s: Seq<u8>, pos: int) -> Option<int> {
    match u32_at(s, pos) {
        Some((n, code)) => if vector_instr(code) is Some {
            Some(pos + n)
        } else if vector_memarg_instr(code, 0, 0) is Some {
            match two_u32_at(s, pos + n) {
                Some((m, _, _)) => Some(pos + n + m),
                None => None,
            }
        } else if vector_lane_instr(code, 0) is Some {
            if pos + n < s.len() { Some(pos + n + 1) } else { None }
        } else if vector_memarg_lane_instr(code, 0, 0, 0) is Some {
            match two_u32_at(s, pos + n) {
                Some((m, _, _)) => if pos + n + m < s.len() { Some(pos + n + m + 1) } else { None },
                None => None,
            }
        } else if code == 12 || code == 13 {
            match u32_at(s, pos + n) {
                Some((m, count)) => if pos + n + m + count <= s.len() { Some(pos + n + m + count) } else { None },
                None => None,
            }
        } else {
            None
        },
        None => None,
    }
}

/// Whether the `else` opcode byte occurs in `s` from `from` on: the parser of `if`
/// splits its arms on that.
pub open spec fn has_else_from(s: Seq<u8>, from: int) -> bool {
    exists|i: int| from <= i < s.len() && s[i] == OPCODE_ELSE
}

/// The position after the instruction at `pos`, if it parses.
pub open spec fn instr_end(s: Seq<u8>, pos: int) -> Option<int>
    decreases s.len() - pos, 0nat,
{
    if !(0 <= pos < s.len()) {
        None
    } else {
        let op = s[pos];
        if op == 0x02 || op == 0x03 {
            match block_type_at(s, pos + 1) {
                Some((n, _)) => if pos + 1 + n <= s.len() { list_end(s, pos + 1 + n, OPCODE_END) } else { None },
                None => None,
            }
        } else if op == 0x04 {
            match block_type_at(s, pos + 1) {
                Some((n, _)) => if pos + 1 + n > s.len() {
                    None
                } else if has_else_from(s, pos + 1 + n) {
                    match list_end(s, pos + 1 + n, OPCODE_ELSE) {
                        Some(q) => if pos + 1 + n < q <= s.len() { list_end(s, q, OPCODE_END) } else { None },
                        None => None,
                    }
                } else {
                    list_end(s, pos + 1 + n, OPCODE_END)
                },
                None => None,
            }
        } else if opcode_instr(op) is Some {
            Some(pos + 1)
        } else if opcode_u32_instr(op, 0) is Some {
            match u32_at(s, pos + 1) {
                Some((n, _)) => Some(pos + 1 + n),
                None => None,
            }
        } else if opcode_two_u32_instr(op, 0, 0) is Some {
            match two_u32_at(s, pos + 1) {
                Some((n, _, _)) => Some(pos + 1 + n),
                None => None,
            }
        } else if op == 0xfc {
            other_end(s, pos + 1)
        } else if op == 0xfd {
            vector_end(s, pos + 1)
        } else if op == 0x42 {
            match u64_at(s, pos + 1) {
                Some((n, _)) => Some(pos + 1 + n),
                None => None,
            }
        } else if op == 0x43 {
            if pos + 5 <= s.len() { Some(pos + 5) } else { None }
        } else if op == 0x44 {
            if pos + 9 <= s.len() { Some(pos + 9) } else { None }
        } else if op == 0xd0 || op == 0x3f || op == 0x40 {
            if pos + 1 < s.len() && (if op == 0xd0 { ref_type_of(s[pos + 1]) is Some } else { s[pos + 1] == 0 }) {
                Some(pos + 2)
            } else {
                None
            }
        } else if op == 0x0e {
            match brtable_at(s, pos + 1) {
                Some((e, _, _)) => Some(e),
                None => None,
            }
        } else if op == 0x1c {
            match u32_at(s, pos + 1) {
                Some((n, count)) => if val_types_at(s, pos + 1 + n, count as nat) is Some {
                    Some(pos + 1 + n + count)
                } else {
                    None
                },
                None => None,
            }
        } else {
            None
        }
    }
}

/// The position after a run of instructions at `pos` and the byte `till` that ends
/// it, if it parses.
pub open spec fn list_end(s: Seq<u8>, pos: int, till: u8) -> Option<int>
    decreases s.len() - pos, 1nat,
{
    if !(0 <= pos < s.len()) {
        None
    } else if s[pos] == till {
        Some(pos + 1)
    } else {
        match instr_end(s, pos) {
            Some(q) => if pos < q <= s.len() { list_end(s, q, till) } else { None },
            None => None,
        }
    }
}

/// Whether `rv` is the instruction that parses at `pos`, its nested bodies included.
pub open spec fn instr_value(s: Seq<u8>, pos: int, rv: InstructionType) -> bool
    decreases s.len() - pos, 0nat,
{
    if !(0 <= pos < s.len()) {
        false
    } else {
        let op = s[pos];
        if op == 0x02 {
            rv matches InstructionType::Block(b) && match block_type_at(s, pos + 1) {
                Some((n, bt)) => b.blocktype == bt && pos + 1 + n <= s.len() && list_values(s, pos + 1 + n, OPCODE_END, b.instructions@),
                None => false,
            }
        } else if op == 0x03 {
            rv matches InstructionType::Loop(b) && match block_type_at(s, pos + 1) {
                Some((n, bt)) => b.blocktype == bt && pos + 1 + n <= s.len() && list_values(s, pos + 1 + n, OPCODE_END, b.instructions@),
                None => false,
            }
        } else if op == 0x04 {
            rv matches InstructionType::IfElse(b) && match block_type_at(s, pos + 1) {
                Some((n, bt)) => b.blocktype == bt && pos + 1 + n <= s.len() && if has_else_from(s, pos + 1 + n) {
                    list_values(s, pos + 1 + n, OPCODE_ELSE, b.if_instructions@) && match list_end(s, pos + 1 + n, OPCODE_ELSE) {
                        Some(q) => pos + 1 + n < q <= s.len() && list_values(s, q, OPCODE_END, b.else_instructions@),
                        None => false,
                    }
                } else {
                    list_values(s, pos + 1 + n, OPCODE_END, b.if_instructions@) && b.else_instructions@.len() == 0
                },
                None => false,
            }
        } else {
            instr_end(s, pos) is Some && flat_instr_post(s, pos, Ok(((instr_end(s, pos)->0) as usize, rv)))
        }
    }
}

/// Whether `instrs` are the instructions that parse one after another from `pos` up
/// to the byte `till`.
pub open spec fn list_values(s: Seq<u8>, pos: int, till: u8, instrs: Seq<InstructionType>) -> bool
    decreases s.len() - pos, 1nat,
{
    if !(0 <= pos < s.len()) {
        false
    } else if s[pos] == till {
        instrs.len() == 0
    } else {
        instrs.len() > 0 && match instr_end(s, pos) {
            Some(q) => pos < q <= s.len() && instr_value(s, pos, instrs[0]) && list_values(s, q, till, instrs.drop_first()),
            None => false,
        }
    }
}

/// What the parser of one instruction gives at `pos`.
pub open spec fn instr_parse_post(s: Seq<u8>, pos: int, r: PResult<InstructionType>) -> bool {
    &&& pos >= s.len() ==> r is Err
    &&& r matches Ok((rp, _)) ==> pos < rp <= s.len()
    &&& pos < s.len() ==> flat_instr_post(s, pos, r)
    &&& pos < s.len() && (s[pos] == 0x02 || s[pos] == 0x03 || s[pos] == 0x04) && block_type_at(s, pos + 1) is None ==> r is Err
    &&& (r is Ok) == (instr_end(s, pos) is Some)
    &&& r matches Ok((rp, rv)) ==> rp == instr_end(s, pos)->0 && instr_value(s, pos, rv)
}

/// An instruction with the prefix 0xFD parses as the vector parser parses the bytes
/// after the prefix: both succeed or both fail, and on success they end at the same
/// place with the same instruction.
pub proof fn law_vector_prefix_agrees(
    s: Seq<u8>,
    pos: int,
    r1: PResult<InstructionType>,
    r2: PResult<InstructionType>,
)
    requires
        0 <= pos < s.len(),
        s[pos] == 0xfd,
        instr_parse_post(s, pos, r1),
        vector_instr_post(s, pos + 1, r2),
    ensures
        (r1 is Ok) == (r2 is Ok),
        r1 matches Ok((p1, v1)) ==> (r2 matches Ok((p2, v2)) && p1 == p2 && same_instr(v2, v1)),
{
    assert(vector_instr_post(s, pos + 1, r1));
    if let Ok((p1, v1)) = r1 {
        if let Ok((p2, v2)) = r2 {
            if let Some((n, code)) = u32_at(s, pos + 1) {
                if code == 13 {
                    if let InstructionType::I8x16Shuffle(a) = v1 {
                        if let InstructionType::I8x16Shuffle(b) = v2 {
                            assert(a@ =~= b@);
                        }
                    }
                }
            }
        }
    }
}

/// Whether an opcode begins an instruction that the parser knows.
pub open spec fn opcode_known(op: u8) -> bool {
    ||| opcode_instr(op) is Some
    ||| opcode_u32_instr(op, 0) is Some
    ||| opcode_two_u32_instr(op, 0, 0) is Some
    ||| op == 0x02 || op == 0x03 || op == 0x04 || op == 0x0e || op == 0x1c || op == 0x3f || op == 0x40
    ||| op == 0x42 || op == 0x43 || op == 0x44 || op == 0xd0 || op == 0xfc || op == 0xfd
}

impl InstructionType {
    /// Parses one instruction.
    #[verifier::rlimit(100)]
    pub fn parse(bytes: &[u8], pos: usize) -> (r: PResult<InstructionType>)
        ensures
            instr_parse_post(bytes@, pos as int, r),
        decreases bytes@.len() - pos, 0nat,
    {
        let (p, op) = parse_byte(bytes, pos)?;
        match op {
            0x00 => Ok((p, InstructionType::Unreachable)),
            0x01 => Ok((p, InstructionType::Nop)),
            0x02 => {
                let (q, v) = BlockInstructionType::parse(bytes, p)?;
                Ok((q, InstructionType::Block(v)))
            },
            0x03 => {
                let (q, v) = LoopInstructionType::parse(bytes, p)?;
                Ok((q, InstructionType::Loop(v)))
            },
            0x04 => {
                let (q, v) = IfElseInstructionType::parse(bytes, p)?;
                Ok((q, InstructionType::IfElse(v)))
            },
            0x0c => {
                let (q, v) = parse_label_idx(bytes, p)?;
                Ok((q, InstructionType::Br(v)))
            },
            0x0d => {
                let (q, v) = parse_label_idx(bytes, p)?;
                Ok((q, InstructionType::BrIf(v)))
            },
            0x0e => {
                let (q, v) = parse_brtable_arg(bytes, p)?;
                Ok((q, InstructionType::BrTable(v)))
            },
            0x0f => Ok((p, InstructionType::Return)),
            0x10 => {
                let (q, v) = parse_func_idx(bytes, p)?;
                Ok((q, InstructionType::Call(v)))
            },
            0x11 => {
                let (q, v) = parse_call_indirect_arg(bytes, p)?;
                Ok((q, InstructionType::CallIndirect(v)))
            },
            0xd0 => {
                let (q, v) = parse_ref_type(bytes, p)?;
                Ok((q, InstructionType::RefNull(v)))
            },
            0xd1 => Ok((p, InstructionType::RefIsNull)),
            0xd2 => {
                let (q, v) = parse_func_idx(bytes, p)?;
                Ok((q, InstructionType::RefFunc(v)))
            },
            0x1a => Ok((p, InstructionType::Drop)),
            0x1b => Ok((p, InstructionType::Select)),
            0x1c => {
                let (q, v) = parse_val_types(bytes, p)?;
                Ok((q, InstructionType::SelectVec(v)))
            },
            0x20 => {
                let (q, v) = parse_local_idx(bytes, p)?;
                Ok((q, InstructionType::LocalGet(v)))
            },
            0x21 => {
                let (q, v) = parse_local_idx(bytes, p)?;
                Ok((q, InstructionType::LocalSet(v)))
            },
            0x22 => {
                let (q, v) = parse_local_idx(bytes, p)?;
                Ok((q, InstructionType::LocalTee(v)))
            },
            0x23 => {
                let (q, v) = parse_global_idx(bytes, p)?;
                Ok((q, InstructionType::GlobalGet(v)))
            },
            0x24 => {
                let (q, v) = parse_global_idx(bytes, p)?;
                Ok((q, InstructionType::GlobalSet(v)))
            },
            0x25 => {
                let (q, v) = parse_table_idx(bytes, p)?;
                Ok((q, InstructionType::TableGet(v)))
            },
            0x26 => {
                let (q, v) = parse_table_idx(bytes, p)?;
                Ok((q, InstructionType::TableSet(v)))
            },
            0xfc => parse_other(bytes, p),
            0x28 => {
                let (q, v) = parse_memarg(bytes, p)?;
                Ok((q, InstructionType::I32Load(v)))
            },
            0x29 => {
                let (q, v) = parse_memarg(bytes, p)?;
                Ok((q, InstructionType::I64Load(v)))
            },
            0x2a => {
                let (q, v) = parse_memarg(bytes, p)?;
                Ok((q, InstructionType::F32Load(v)))
            },
            0x2b => {
                let (q, v) = parse_memarg(bytes, p)?;
                Ok((q, InstructionType::F64Load(v)))
            },
            0x2c => {
                let (q, v) = parse_memarg(bytes, p)?;
                Ok((q, InstructionType::I32Load8S(v)))
            },
            0x2d => {
                let (q, v) = parse_memarg(bytes, p)?;
                Ok((q, InstructionType::I32Load8U(v)))
            },
            0x2e => {
                let (q, v) = parse_memarg(bytes, p)?;
                Ok((q, InstructionType::I32Load16S(v)))
            },
            0x2f => {
                let (q, v) = parse_memarg(bytes, p)?;
                Ok((q, InstructionType::I32Load16U(v)))
            },
            0x30 => {
                let (q, v) = parse_memarg(bytes, p)?;
                Ok((q, InstructionType::I64Load8S(v)))
            },
            0x31 => {
                let (q, v) = parse_memarg(bytes, p)?;
                Ok((q, InstructionType::I64Load8U(v)))
            },
            0x32 => {
                let (q, v) = parse_memarg(bytes, p)?;
                Ok((q, InstructionType::I64Load16S(v)))
            },
            0x33 => {
                let (q, v) = parse_memarg(bytes, p)?;
                Ok((q, InstructionType::I64Load16U(v)))
            },
            0x34 => {
                let (q, v) = parse_memarg(bytes, p)?;
                Ok((q, InstructionType::I64Load32S(v)))
            },
            0x35 => {
                let (q, v) = parse_memarg(bytes, p)?;
                Ok((q, InstructionType::I64Load32U(v)))
            },
            0x36 => {
                let (q, v) = parse_memarg(bytes, p)?;
                Ok((q, InstructionType::I32Store(v)))
            },
            0x37 => {
                let (q, v) = parse_memarg(bytes, p)?;
                Ok((q, InstructionType::I64Store(v)))
            },
            0x38 => {
                let (q, v) = parse_memarg(bytes, p)?;
                Ok((q, InstructionType::F32Store(v)))
            },
            0x39 => {
                let (q, v) = parse_memarg(bytes, p)?;
                Ok((q, InstructionType::F64Store(v)))
            },
            0x3a => {
                let (q, v) = parse_memarg(bytes, p)?;
                Ok((q, InstructionType::I32Store8(v)))
            },
            0x3b => {
                let (q, v) = parse_memarg(bytes, p)?;
                Ok((q, InstructionType::I32Store16(v)))
            },
            0x3c => {
                let (q, v) = parse_memarg(bytes, p)?;
                Ok((q, InstructionType::I64Store8(v)))
            },
            0x3d => {
                let (q, v) = parse_memarg(bytes, p)?;
                Ok((q, InstructionType::I64Store16(v)))
            },
            0x3e => {
                let (q, v) = parse_memarg(bytes, p)?;
                Ok((q, InstructionType::I64Store32(v)))
            },
            0x3f => {
                let tag: [u8; 1] = [0x00];
                assert(tag@ =~= seq![0u8]);
                proof {
                    if p + 1 <= bytes@.len() && bytes@[p as int] == 0 {
                        assert(bytes@.subrange(p as int, p + 1) =~= tag@);
                    }
                }
                let (q, _) = parse_tag(bytes, p, &tag)?;
                assert(bytes@[p as int] == bytes@.subrange(p as int, q as int)[0]);
                Ok((q, InstructionType::MemorySize))
            },
            0x40 => {
                let tag: [u8; 1] = [0x00];
                assert(tag@ =~= seq![0u8]);
                proof {
                    if p + 1 <= bytes@.len() && bytes@[p as int] == 0 {
                        assert(bytes@.subrange(p as int, p + 1) =~= tag@);
                    }
                }
                let (q, _) = parse_tag(bytes, p, &tag)?;
                assert(bytes@[p as int] == bytes@.subrange(p as int, q as int)[0]);
                Ok((q, InstructionType::MemoryGrow))
            },
            0x41 => {
                let (q, v) = parse_i32(bytes, p)?;
                Ok((q, InstructionType::I32Const(v)))
            },
            0x42 => {
                let (q, v) = parse_i64(bytes, p)?;
                Ok((q, InstructionType::I64Const(v)))
            },
            0x43 => {
                let (q, v) = parse_f32(bytes, p)?;
                Ok((q, InstructionType::F32Const(v)))
            },
            0x44 => {
                let (q, v) = parse_f64(bytes, p)?;
                Ok((q, InstructionType::F64Const(v)))
            },
            0x45 => Ok((p, InstructionType::I32Eqz)),
            0x46 => Ok((p, InstructionType::I32Eq)),
            0x47 => Ok((p, InstructionType::I32Ne)),
            0x48 => Ok((p, InstructionType::I32LtS)),
            0x49 => Ok((p, InstructionType::I32LtU)),
            0x4a => Ok((p, InstructionType::I32GtS)),
            0x4b => Ok((p, InstructionType::I32GtU)),
            0x4c => Ok((p, InstructionType::I32LeS)),
            0x4d => Ok((p, InstructionType::I32LeU)),
            0x4e => Ok((p, InstructionType::I32GeS)),
            0x4f => Ok((p, InstructionType::I32GeU)),
            0x50 => Ok((p, InstructionType::I64Eqz)),
            0x51 => Ok((p, InstructionType::I64Eq)),
            0x52 => Ok((p, InstructionType::I64Ne)),
            0x53 => Ok((p, InstructionType::I64LtS)),
            0x54 => Ok((p, InstructionType::I64LtU)),
            0x55 => Ok((p, InstructionType::I64GtS)),
            0x56 => Ok((p, InstructionType::I64GtU)),
            0x57 => Ok((p, InstructionType::I64LeS)),
            0x58 => Ok((p, InstructionType::I64LeU)),
            0x59 => Ok((p, InstructionType::I64GeS)),
            0x5a => Ok((p, InstructionType::I64GeU)),
            0x5b => Ok((p, InstructionType::F32Eq)),
            0x5c => Ok((p, InstructionType::F32Ne)),
            0x5d => Ok((p, InstructionType::F32Lt)),
            0x5e => Ok((p, InstructionType::F32Gt)),
            0x5f => Ok((p, InstructionType::F32Le)),
            0x60 => Ok((p, InstructionType::F32Ge)),
            0x61 => Ok((p, InstructionType::F64Eq)),
            0x62 => Ok((p, InstructionType::F64Ne)),
            0x63 => Ok((p, InstructionType::F64Lt)),
            0x64 => Ok((p, InstructionType::F64Gt)),
            0x65 => Ok((p, InstructionType::F64Le)),
            0x66 => Ok((p, InstructionType::F64Ge)),
            0x67 => Ok((p, InstructionType::I32Clz)),
            0x68 => Ok((p, InstructionType::I32Ctz)),
            0x69 => Ok((p, InstructionType::I32Popcnt)),
            0x6a => Ok((p, InstructionType::I32Add)),
            0x6b => Ok((p, InstructionType::I32Sub)),
            0x6c => Ok((p, InstructionType::I32Mul)),
            0x6d => Ok((p, InstructionType::I32DivS)),
            0x6e => Ok((p, InstructionType::I32DivU)),
            0x6f => Ok((p, InstructionType::I32RemS)),
            0x70 => Ok((p, InstructionType::I32RemU)),
            0x71 => Ok((p, InstructionType::I32And)),
            0x72 => Ok((p, InstructionType::I32Or)),
            0x73 => Ok((p, InstructionType::I32Xor)),
            0x74 => Ok((p, InstructionType::I32Shl)),
            0x75 => Ok((p, InstructionType::I32ShrS)),
            0x76 => Ok((p, InstructionType::I32ShrU)),
            0x77 => Ok((p, InstructionType::I32Rotl)),
            0x78 => Ok((p, InstructionType::I32Rotr)),
            0x79 => Ok((p, InstructionType::I64Clz)),
            0x7a => Ok((p, InstructionType::I64Ctz)),
            0x7b => Ok((p, InstructionType::I64Popcnt)),
            0x7c => Ok((p, InstructionType::I64Add)),
            0x7d => Ok((p, InstructionType::I64Sub)),
            0x7e => Ok((p, InstructionType::I64Mul)),
            0x7f => Ok((p, InstructionType::I64DivS)),
            0x80 => Ok((p, InstructionType::I64DivU)),
            0x81 => Ok((p, InstructionType::I64RemS)),
            0x82 => Ok((p, InstructionType::I64RemU)),
            0x83 => Ok((p, InstructionType::I64And)),
            0x84 => Ok((p, InstructionType::I64Or)),
            0x85 => Ok((p, InstructionType::I64Xor)),
            0x86 => Ok((p, InstructionType::I64Shl)),
            0x87 => Ok((p, InstructionType::I64ShrS)),
            0x88 => Ok((p, InstructionType::I64ShrU)),
            0x89 => Ok((p, InstructionType::I64Rotl)),
            0x8a => Ok((p, InstructionType::I64Rotr)),
            0x8b => Ok((p, InstructionType::F32Abs)),
            0x8c => Ok((p, InstructionType::F32Neg)),
            0x8d => Ok((p, InstructionType::F32Ceil)),
            0x8e => Ok((p, InstructionType::F32Floor)),
            0x8f => Ok((p, InstructionType::F32Trunc)),
            0x90 => Ok((p, InstructionType::F32Nearest)),
            0x91 => Ok((p, InstructionType::F32Sqrt)),
            0x92 => Ok((p, InstructionType::F32Add)),
            0x93 => Ok((p, InstructionType::F32Sub)),
            0x94 => Ok((p, InstructionType::F32Mul)),
            0x95 => Ok((p, InstructionType::F32Div)),
            0x96 => Ok((p, InstructionType::F32Min)),
            0x97 => Ok((p, InstructionType::F32Max)),
            0x98 => Ok((p, InstructionType::F32Copysign)),
            0x99 => Ok((p, InstructionType::F64Abs)),
            0x9a => Ok((p, InstructionType::F64Neg)),
            0x9b => Ok((p, InstructionType::F64Ceil)),
            0x9c => Ok((p, InstructionType::F64Floor)),
            0x9d => Ok((p, InstructionType::F64Trunc)),
            0x9e => Ok((p, InstructionType::F64Nearest)),
            0x9f => Ok((p, InstructionType::F64Sqrt)),
            0xa0 => Ok((p, InstructionType::F64Add)),
            0xa1 => Ok((p, InstructionType::F64Sub)),
            0xa2 => Ok((p, InstructionType::F64Mul)),
            0xa3 => Ok((p, InstructionType::F64Div)),
            0xa4 => Ok((p, InstructionType::F64Min)),
            0xa5 => Ok((p, InstructionType::F64Max)),
            0xa6 => Ok((p, InstructionType::F64Copysign)),
            0xa7 => Ok((p, InstructionType::I32WrapI64)),
            0xa8 => Ok((p, InstructionType::I32TruncF32S)),
            0xa9 => Ok((p, InstructionType::I32TruncF32U)),
            0xaa => Ok((p, InstructionType::I32TruncF64S)),
            0xab => Ok((p, InstructionType::I32TruncF64U)),
            0xac => Ok((p, InstructionType::I64ExtendI32S)),
            0xad => Ok((p, InstructionType::I64ExtendI32U)),
            0xae => Ok((p, InstructionType::I64TruncF32S)),
            0xaf => Ok((p, InstructionType::I64TruncF32U)),
            0xb0 => Ok((p, InstructionType::I64TruncF64S)),
            0xb1 => Ok((p, InstructionType::I64TruncF64U)),
            0xb2 => Ok((p, InstructionType::F32ConvertI32S)),
            0xb3 => Ok((p, InstructionType::F32ConvertI32U)),
            0xb4 => Ok((p, InstructionType::F32ConvertI64S)),
            0xb5 => Ok((p, InstructionType::F32ConvertI64U)),
            0xb6 => Ok((p, InstructionType::F32DemoteF64)),
            0xb7 => Ok((p, InstructionType::F64ConvertI32S)),
            0xb8 => Ok((p, InstructionType::F64ConvertI32U)),
            0xb9 => Ok((p, InstructionType::F64ConvertI64S)),
            0xba => Ok((p, InstructionType::F64ConvertI64U)),
            0xbb => Ok((p, InstructionType::F64PromoteF32)),
            0xbc => Ok((p, InstructionType::I32ReinterpretF32)),
            0xbd => Ok((p, InstructionType::I64ReinterpretF64)),
            0xbe => Ok((p, InstructionType::F32ReinterpretI32)),
            0xbf => Ok((p, InstructionType::F64ReinterpretI64)),
            0xc0 => Ok((p, InstructionType::I32Extend8S)),
            0xc1 => Ok((p, InstructionType::I32Extend16S)),
            0xc2 => Ok((p, InstructionType::I64Extend8S)),
            0xc3 => Ok((p, InstructionType::I64Extend16S)),
            0xc4 => Ok((p, InstructionType::I64Extend32S)),
            0xfd => parse_vector_instruction(bytes, p),
            _ => Err(NomError),
        }
    }
}

/// What the parser of the instructions after the prefix 0xFC gives for the bytes from
/// `pos` on.
pub open spec fn other_instr_post(s: Seq<u8>, pos: int, r: PResult<InstructionType>) -> bool {
    &&& r matches Ok((rp, _)) ==> pos < rp <= s.len()
    &&& match u32_at(s, pos) {
        Some((n, code)) => {
            &&& other_instr(code) is Some ==> (r matches Ok((rp, rv)) && rp == pos + n && rv == other_instr(code)->0)
            &&& other_u32_instr(code, 0) is Some ==> match u32_at(s, pos + n) {
                Some((m, v)) => r matches Ok((rp, rv)) && rp == pos + n + m && rv == other_u32_instr(code, v)->0,
                None => r is Err,
            }
            &&& other_two_u32_instr(code, 0, 0) is Some ==> match two_u32_at(s, pos + n) {
                Some((m, a, b)) => r matches Ok((rp, rv)) && rp == pos + n + m && rv == other_two_u32_instr(code, a, b)->0,
                None => r is Err,
            }
            &&& code == 10 ==> if pos + n + 2 <= s.len() && s[pos + n] == 0 && s[pos + n + 1] == 0 {
                r matches Ok((rp, rv)) && rp == pos + n + 2 && rv == InstructionType::MemoryCopy
            } else {
                r is Err
            }
            &&& code == 11 ==> if pos + n < s.len() && s[pos + n] == 0 {
                r matches Ok((rp, rv)) && rp == pos + n + 1 && rv == InstructionType::MemoryFill
            } else {
                r is Err
            }
            &&& !(other_instr(code) is Some || other_u32_instr(code, 0) is Some || other_two_u32_instr(code, 0, 0) is Some
                || code == 10 || code == 11) ==> r is Err
        },
        None => r is Err,
    }
}

/// Parses an instruction after the prefix 0xFC.
fn parse_other(bytes: &[u8], pos: usize) -> (r: PResult<InstructionType>)
    ensures
        other_instr_post(bytes@, pos as int, r),
{
    let (p, code) = parse_u32(bytes, pos)?;
    match code.0 {
        0 => Ok((p, InstructionType::I32TruncSatF32S)),
        1 => Ok((p, InstructionType::I32TruncSatF32U)),
        2 => Ok((p, InstructionType::I32TruncSatF64S)),
        3 => Ok((p, InstructionType::I32TruncSatF64U)),
        4 => Ok((p, InstructionType::I64TruncSatF32S)),
        5 => Ok((p, InstructionType::I64TruncSatF32U)),
        6 => Ok((p, InstructionType::I64TruncSatF64S)),
        7 => Ok((p, InstructionType::I64TruncSatF64U)),
        8 => {
            let (q, v) = parse_data_idx(bytes, p)?;
            Ok((q, InstructionType::MemoryInit(v)))
        },
        9 => {
            let (q, v) = parse_data_idx(bytes, p)?;
            Ok((q, InstructionType::DataDrop(v)))
        },
        10 => {
            let tag: [u8; 2] = [0x00, 0x00];
            assert(tag@ =~= seq![0u8, 0u8]);
            proof {
                if p + 2 <= bytes@.len() && bytes@[p as int] == 0 && bytes@[p + 1] == 0 {
                    assert(bytes@.subrange(p as int, p + 2) =~= tag@);
                }
            }
            let (q, _) = parse_tag(bytes, p, &tag)?;
            assert(bytes@[p as int] == bytes@.subrange(p as int, q as int)[0]);
            assert(bytes@[p + 1] == bytes@.subrange(p as int, q as int)[1]);
            Ok((q, InstructionType::MemoryCopy))
        },
        11 => {
            let tag: [u8; 1] = [0x00];
            assert(tag@ =~= seq![0u8]);
            proof {
                if p + 1 <= bytes@.len() && bytes@[p as int] == 0 {
                    assert(bytes@.subrange(p as int, p + 1) =~= tag@);
                }
            }
            let (q, _) = parse_tag(bytes, p, &tag)?;
            assert(bytes@[p as int] == bytes@.subrange(p as int, q as int)[0]);
            Ok((q, InstructionType::MemoryFill))
        },
        12 => {
            let (q, v) = parse_table_init_arg(bytes, p)?;
            Ok((q, InstructionType::TableInit(v)))
        },
        13 => {
            let (q, v) = parse_elem_idx(bytes, p)?;
            Ok((q, InstructionType::ElemDrop(v)))
        },
        14 => {
            let (q, v) = parse_table_copy_arg(bytes, p)?;
            Ok((q, InstructionType::TableCopy(v)))
        },
        15 => {
            let (q, v) = parse_table_idx(bytes, p)?;
            Ok((q, InstructionType::TableGrow(v)))
        },
        16 => {
            let (q, v) = parse_table_idx(bytes, p)?;
            Ok((q, InstructionType::TableSize(v)))
        },
        17 => {
            let (q, v) = parse_table_idx(bytes, p)?;
            Ok((q, InstructionType::TableFill(v)))
        },
        _ => Err(NomError),
    }
}

/// What the parser of the vector instructions, after the prefix 0xFD, gives for the
/// bytes from `pos` on.
pub open spec fn vector_instr_post(s: Seq<u8>, pos: int, r: PResult<InstructionType>) -> bool {
    &&& r matches Ok((rp, _)) ==> pos < rp <= s.len()
    &&& match u32_at(s, pos) {
        Some((n, code)) => {
            &&& vector_instr(code) is Some ==> (r matches Ok((rp, rv)) && rp == pos + n && rv == vector_instr(code)->0)
            &&& vector_memarg_instr(code, 0, 0) is Some ==> match two_u32_at(s, pos + n) {
                Some((m, a, b)) => r matches Ok((rp, rv)) && rp == pos + n + m && rv == vector_memarg_instr(code, a, b)->0,
                None => r is Err,
            }
            &&& vector_lane_instr(code, 0) is Some ==> if pos + n < s.len() {
                r matches Ok((rp, rv)) && rp == pos + n + 1 && rv == vector_lane_instr(code, s[pos + n])->0
            } else {
                r is Err
            }
            &&& vector_memarg_lane_instr(code, 0, 0, 0) is Some ==> match two_u32_at(s, pos + n) {
                Some((m, a, b)) => if pos + n + m < s.len() {
                    r matches Ok((rp, rv)) && rp == pos + n + m + 1 && rv == vector_memarg_lane_instr(code, a, b, s[pos + n + m])->0
                } else {
                    r is Err
                },
                None => r is Err,
            }
            &&& code == 12 ==> match u32_at(s, pos + n) {
                Some((m, count)) => if pos + n + m + count <= s.len() {
                    r matches Ok((rp, InstructionType::V128Const(v))) && rp == pos + n + m + count
                        && v@ == s.subrange(pos + n + m, pos + n + m + count)
                } else {
                    r is Err
                },
                None => r is Err,
            }
            &&& code == 13 ==> match u32_at(s, pos + n) {
                Some((m, count)) => if pos + n + m + count <= s.len() {
                    r matches Ok((rp, InstructionType::I8x16Shuffle(v))) && rp == pos + n + m + count && v@.len() == count
                        && forall|i: int| 0 <= i < count ==> (#[trigger] v@[i]).0 == s[pos + n + m + i]
                } else {
                    r is Err
                },
                None => r is Err,
            }
            &&& !(vector_instr(code) is Some || vector_memarg_instr(code, 0, 0) is Some || vector_lane_instr(code, 0) is Some
                || vector_memarg_lane_instr(code, 0, 0, 0) is Some || code == 12 || code == 13) ==> r is Err
        },
        None => r is Err,
    }
}

/// Parses a vector instruction after the prefix 0xFD.
fn parse_vector_instruction(bytes: &[u8], pos: usize) -> (r: PResult<InstructionType>)
    ensures
        vector_instr_post(bytes@, pos as int, r),
{
    let (p, code) = parse_u32(bytes, pos)?;
    match code.0 {
        0 => {
            let (q, v) = parse_memarg(bytes, p)?;
            Ok((q, InstructionType::V128Load(v)))
        },
        1 => {
            let (q, v) = parse_memarg(bytes, p)?;
            Ok((q, InstructionType::V128Load8x8S(v)))
        },
        2 => {
            let (q, v) = parse_memarg(bytes, p)?;
            Ok((q, InstructionType::V128Load8x8U(v)))
        },
        3 => {
            let (q, v) = parse_memarg(bytes, p)?;
            Ok((q, InstructionType::V128Load16x4S(v)))
        },
        4 => {
            let (q, v) = parse_memarg(bytes, p)?;
            Ok((q, InstructionType::V128Load16x4U(v)))
        },
        5 => {
            let (q, v) = parse_memarg(bytes, p)?;
            Ok((q, InstructionType::V128Load32x2S(v)))
        },
        6 => {
            let (q, v) = parse_memarg(bytes, p)?;
            Ok((q, InstructionType::V128Load32x2U(v)))
        },
        7 => {
            let (q, v) = parse_memarg(bytes, p)?;
            Ok((q, InstructionType::V128Load8Splat(v)))
        },
        8 => {
            let (q, v) = parse_memarg(bytes, p)?;
            Ok((q, InstructionType::V128Load16Splat(v)))
        },
        9 => {
            let (q, v) = parse_memarg(bytes, p)?;
            Ok((q, InstructionType::V128Load32Splat(v)))
        },
        10 => {
            let (q, v) = parse_memarg(bytes, p)?;
            Ok((q, InstructionType::V128Load64Splat(v)))
        },
        92 => {
            let (q, v) = parse_memarg(bytes, p)?;
            Ok((q, InstructionType::V128Load32Zero(v)))
        },
        93 => {
            let (q, v) = parse_memarg(bytes, p)?;
            Ok((q, InstructionType::V128Load64Zero(v)))
        },
        11 => {
            let (q, v) = parse_memarg(bytes, p)?;
            Ok((q, InstructionType::V128Store(v)))
        },
        84 => {
            let (q, v) = parse_memarg_lane(bytes, p)?;
            Ok((q, InstructionType::V128Load8Lane(v)))
        },
        85 => {
            let (q, v) = parse_memarg_lane(bytes, p)?;
            Ok((q, InstructionType::V128Load16Lane(v)))
        },
        86 => {
            let (q, v) = parse_memarg_lane(bytes, p)?;
            Ok((q, InstructionType::V128Load32Lane(v)))
        },
        87 => {
            let (q, v) = parse_memarg_lane(bytes, p)?;
            Ok((q, InstructionType::V128Load64Lane(v)))
        },
        88 => {
            let (q, v) = parse_memarg_lane(bytes, p)?;
            Ok((q, InstructionType::V128Store8Lane(v)))
        },
        89 => {
            let (q, v) = parse_memarg_lane(bytes, p)?;
            Ok((q, InstructionType::V128Store16Lane(v)))
        },
        90 => {
            let (q, v) = parse_memarg_lane(bytes, p)?;
            Ok((q, InstructionType::V128Store32Lane(v)))
        },
        91 => {
            let (q, v) = parse_memarg_lane(bytes, p)?;
            Ok((q, InstructionType::V128Store64Lane(v)))
        },
        12 => {
            let (q, v) = parse_byte_vec(bytes, p)?;
            Ok((q, InstructionType::V128Const(v)))
        },
        13 => {
            let (q, v) = parse_lane_idxs(bytes, p)?;
            Ok((q, InstructionType::I8x16Shuffle(v)))
        },
        21 => {
            let (q, v) = parse_lane_idx(bytes, p)?;
            Ok((q, InstructionType::I8x16ExtractLaneS(v)))
        },
        22 => {
            let (q, v) = parse_lane_idx(bytes, p)?;
            Ok((q, InstructionType::I8x16ExtractLaneU(v)))
        },
        23 => {
            let (q, v) = parse_lane_idx(bytes, p)?;
            Ok((q, InstructionType::I8x16ReplaceLane(v)))
        },
        24 => {
            let (q, v) = parse_lane_idx(bytes, p)?;
            Ok((q, InstructionType::I16x8ExtractLaneS(v)))
        },
        25 => {
            let (q, v) = parse_lane_idx(bytes, p)?;
            Ok((q, InstructionType::I16x8ExtractLaneU(v)))
        },
        26 => {
            let (q, v) = parse_lane_idx(bytes, p)?;
            Ok((q, InstructionType::I16x8ReplaceLane(v)))
        },
        27 => {
            let (q, v) = parse_lane_idx(bytes, p)?;
            Ok((q, InstructionType::I32x4ExtractLane(v)))
        },
        28 => {
            let (q, v) = parse_lane_idx(bytes, p)?;
            Ok((q, InstructionType::I32x4ReplaceLane(v)))
        },
        29 => {
            let (q, v) = parse_lane_idx(bytes, p)?;
            Ok((q, InstructionType::I64x2ExtractLane(v)))
        },
        30 => {
            let (q, v) = parse_lane_idx(bytes, p)?;
            Ok((q, InstructionType::I64x2ReplaceLane(v)))
        },
        31 => {
            let (q, v) = parse_lane_idx(bytes, p)?;
            Ok((q, InstructionType::F32x4ExtractLane(v)))
        },
        32 => {
            let (q, v) = parse_lane_idx(bytes, p)?;
            Ok((q, InstructionType::F32x4ReplaceLane(v)))
        },
        33 => {
            let (q, v) = parse_lane_idx(bytes, p)?;
            Ok((q, InstructionType::F64x2ExtractLane(v)))
        },
        34 => {
            let (q, v) = parse_lane_idx(bytes, p)?;
            Ok((q, InstructionType::F64x2ReplaceLane(v)))
        },
        14 => Ok((p, InstructionType::I8x16Swizzle)),
        15 => Ok((p, InstructionType::I8x16Splat)),
        16 => Ok((p, InstructionType::I16x8Splat)),
        17 => Ok((p, InstructionType::I32x4Splat)),
        18 => Ok((p, InstructionType::I64x2Splat)),
        19 => Ok((p, InstructionType::F32x4Splat)),
        20 => Ok((p, InstructionType::F64x2Splat)),
        35 => Ok((p, InstructionType::I8x16Eq)),
        36 => Ok((p, InstructionType::I8x16Ne)),
        37 => Ok((p, InstructionType::I8x16LtS)),
        38 => Ok((p, InstructionType::I8x16LtU)),
        39 => Ok((p, InstructionType::I8x16GtS)),
        40 => Ok((p, InstructionType::I8x16GtU)),
        41 => Ok((p, InstructionType::I8x16LeS)),
        42 => Ok((p, InstructionType::I8x16LeU)),
        43 => Ok((p, InstructionType::I8x16GeS)),
        44 => Ok((p, InstructionType::I8x16GeU)),
        45 => Ok((p, InstructionType::I16x8Eq)),
        46 => Ok((p, InstructionType::I16x8Ne)),
        47 => Ok((p, InstructionType::I16x8LtS)),
        48 => Ok((p, InstructionType::I16x8LtU)),
        49 => Ok((p, InstructionType::I16x8GtS)),
        50 => Ok((p, InstructionType::I16x8GtU)),
        51 => Ok((p, InstructionType::I16x8LeS)),
        52 => Ok((p, InstructionType::I16x8LeU)),
        53 => Ok((p, InstructionType::I16x8GeS)),
        54 => Ok((p, InstructionType::I16x8GeU)),
        55 => Ok((p, InstructionType::I32x4Eq)),
        56 => Ok((p, InstructionType::I32x4Ne)),
        57 => Ok((p, InstructionType::I32x4LtS)),
        58 => Ok((p, InstructionType::I32x4LtU)),
        59 => Ok((p, InstructionType::I32x4GtS)),
        60 => Ok((p, InstructionType::I32x4GtU)),
        61 => Ok((p, InstructionType::I32x4LeS)),
        62 => Ok((p, InstructionType::I32x4LeU)),
        63 => Ok((p, InstructionType::I32x4GeS)),
        64 => Ok((p, InstructionType::I32x4GeU)),
        214 => Ok((p, InstructionType::I64x2Eq)),
        215 => Ok((p, InstructionType::I64x2Ne)),
        216 => Ok((p, InstructionType::I64x2LtS)),
        217 => Ok((p, InstructionType::I64x2GtS)),
        218 => Ok((p, InstructionType::I64x2LeS)),
        219 => Ok((p, InstructionType::I64x2GeS)),
        65 => Ok((p, InstructionType::F32x4Eq)),
        66 => Ok((p, InstructionType::F32x4Ne)),
        67 => Ok((p, InstructionType::F32x4Lt)),
        68 => Ok((p, InstructionType::F32x4Gt)),
        69 => Ok((p, InstructionType::F32x4Le)),
        70 => Ok((p, InstructionType::F32x4Ge)),
        71 => Ok((p, InstructionType::F64x2Eq)),
        72 => Ok((p, InstructionType::F64x2Ne)),
        73 => Ok((p, InstructionType::F64x2Lt)),
        74 => Ok((p, InstructionType::F64x2Gt)),
        75 => Ok((p, InstructionType::F64x2Le)),
        76 => Ok((p, InstructionType::F64x2Ge)),
        77 => Ok((p, InstructionType::V128Not)),
        78 => Ok((p, InstructionType::V128And)),
        79 => Ok((p, InstructionType::V128AndNot)),
        80 => Ok((p, InstructionType::V128Or)),
        81 => Ok((p, InstructionType::V128Xor)),
        82 => Ok((p, InstructionType::V128Bitselect)),
        83 => Ok((p, InstructionType::V128AnyTrue)),
        96 => Ok((p, InstructionType::I8x16Abs)),
        97 => Ok((p, InstructionType::I8x16Neg)),
        98 => Ok((p, InstructionType::I8x16Popcnt)),
        99 => Ok((p, InstructionType::I8x16AllTrue)),
        100 => Ok((p, InstructionType::I8x16Bitmask)),
        101 => Ok((p, InstructionType::I8x16NarrowI16x8S)),
        102 => Ok((p, InstructionType::I8x16NarrowI16x8U)),
        107 => Ok((p, InstructionType::I8x16Shl)),
        108 => Ok((p, InstructionType::I8x16ShrS)),
        109 => Ok((p, InstructionType::I8x16ShrU)),
        110 => Ok((p, InstructionType::I8x16Add)),
        111 => Ok((p, InstructionType::I8x16AddSatS)),
        112 => Ok((p, InstructionType::I8x16AddSatU)),
        113 => Ok((p, InstructionType::I8x16Sub)),
        114 => Ok((p, InstructionType::I8x16SubSatS)),
        115 => Ok((p, InstructionType::I8x16SubSatU)),
        118 => Ok((p, InstructionType::I8x16MinS)),
        119 => Ok((p, InstructionType::I8x16MinU)),
        120 => Ok((p, InstructionType::I8x16MaxS)),
        121 => Ok((p, InstructionType::I8x16MaxU)),
        123 => Ok((p, InstructionType::I8x16AvgrU)),
        124 => Ok((p, InstructionType::I16x8ExtaddPairwiseI8x16S)),
        125 => Ok((p, InstructionType::I16x8ExtaddPairwiseI8x16U)),
        128 => Ok((p, InstructionType::I16x8Abs)),
        129 => Ok((p, InstructionType::I16x8Neg)),
        130 => Ok((p, InstructionType::I16x8Q15MulrSatS)),
        131 => Ok((p, InstructionType::I16x8AllTrue)),
        132 => Ok((p, InstructionType::I16x8Bitmask)),
        133 => Ok((p, InstructionType::I16x8NarrowI32x4S)),
        134 => Ok((p, InstructionType::I16x8NarrowI32x4U)),
        135 => Ok((p, InstructionType::I16x8ExtendLowI8x16S)),
        136 => Ok((p, InstructionType::I16x8ExtendHighI8x16S)),
        137 => Ok((p, InstructionType::I16x8ExtendLowI8x16U)),
        138 => Ok((p, InstructionType::I16x8ExtendHighI8x16U)),
        139 => Ok((p, InstructionType::I16x8Shl)),
        140 => Ok((p, InstructionType::I16x8ShrS)),
        141 => Ok((p, InstructionType::I16x8ShrU)),
        142 => Ok((p, InstructionType::I16x8Add)),
        143 => Ok((p, InstructionType::I16x8AddSatS)),
        144 => Ok((p, InstructionType::I16x8AddSatU)),
        145 => Ok((p, InstructionType::I16x8Sub)),
        146 => Ok((p, InstructionType::I16x8SubSatS)),
        147 => Ok((p, InstructionType::I16x8SubSatU)),
        149 => Ok((p, InstructionType::I16x8Mul)),
        150 => Ok((p, InstructionType::I16x8MinS)),
        151 => Ok((p, InstructionType::I16x8MinU)),
        152 => Ok((p, InstructionType::I16x8MaxS)),
        153 => Ok((p, InstructionType::I16x8MaxU)),
        155 => Ok((p, InstructionType::I16x8AvgrU)),
        156 => Ok((p, InstructionType::I16x8ExtmulLowI8x16S)),
        157 => Ok((p, InstructionType::I16x8ExtmulHighI8x16S)),
        158 => Ok((p, InstructionType::I16x8ExtmulLowI8x16U)),
        159 => Ok((p, InstructionType::I16x8ExtmulHighI8x16U)),
        126 => Ok((p, InstructionType::I32x4ExtaddPairwiseI16x8S)),
        127 => Ok((p, InstructionType::I32x4ExtaddPairwiseI16x8U)),
        160 => Ok((p, InstructionType::I32x4Abs)),
        161 => Ok((p, InstructionType::I32x4Neg)),
        163 => Ok((p, InstructionType::I32x4AllTrue)),
        164 => Ok((p, InstructionType::I32x4Bitmask)),
        167 => Ok((p, InstructionType::I32x4ExtendLowI16x8S)),
        168 => Ok((p, InstructionType::I32x4ExtendHighI16x8S)),
        169 => Ok((p, InstructionType::I32x4ExtendLowI16x8U)),
        170 => Ok((p, InstructionType::I32x4ExtendHighI16x8U)),
        171 => Ok((p, InstructionType::I32x4Shl)),
        172 => Ok((p, InstructionType::I32x4ShrS)),
        173 => Ok((p, InstructionType::I32x4ShrU)),
        174 => Ok((p, InstructionType::I32x4Add)),
        177 => Ok((p, InstructionType::I32x4Sub)),
        181 => Ok((p, InstructionType::I32x4Mul)),
        182 => Ok((p, InstructionType::I32x4MinS)),
        183 => Ok((p, InstructionType::I32x4MinU)),
        184 => Ok((p, InstructionType::I32x4MaxS)),
        185 => Ok((p, InstructionType::I32x4MaxU)),
        186 => Ok((p, InstructionType::I32x4DotI16x8S)),
        188 => Ok((p, InstructionType::I32x4ExtmulLowI16x8S)),
        189 => Ok((p, InstructionType::I32x4ExtmulHighI16x8S)),
        190 => Ok((p, InstructionType::I32x4ExtmulLowI16x8U)),
        191 => Ok((p, InstructionType::I32x4ExtmulHighI16x8U)),
        192 => Ok((p, InstructionType::I64x2Abs)),
        193 => Ok((p, InstructionType::I64x2Neg)),
        195 => Ok((p, InstructionType::I64x2AllTrue)),
        196 => Ok((p, InstructionType::I64x2Bitmask)),
        199 => Ok((p, InstructionType::I64x2ExtendLowI32x4S)),
        200 => Ok((p, InstructionType::I64x2ExtendHighI32x4S)),
        201 => Ok((p, InstructionType::I64x2ExtendLowI32x4U)),
        202 => Ok((p, InstructionType::I64x2ExtendHighI32x4U)),
        203 => Ok((p, InstructionType::I64x2Shl)),
        204 => Ok((p, InstructionType::I64x2ShrS)),
        205 => Ok((p, InstructionType::I64x2ShrU)),
        206 => Ok((p, InstructionType::I64x2Add)),
        209 => Ok((p, InstructionType::I64x2Sub)),
        213 => Ok((p, InstructionType::I64x2Mul)),
        220 => Ok((p, InstructionType::I64x2ExtmulLowI32x4S)),
        221 => Ok((p, InstructionType::I64x2ExtmulHighI32x4S)),
        222 => Ok((p, InstructionType::I64x2ExtmulLowI32x4U)),
        223 => Ok((p, InstructionType::I64x2ExtmulHighI32x4U)),
        103 => Ok((p, InstructionType::F32x4Ceil)),
        104 => Ok((p, InstructionType::F32x4Floor)),
        105 => Ok((p, InstructionType::F32x4Trunc)),
        106 => Ok((p, InstructionType::F32x4Nearest)),
        224 => Ok((p, InstructionType::F32x4Abs)),
        225 => Ok((p, InstructionType::F32x4Neg)),
        227 => Ok((p, InstructionType::F32x4Sqrt)),
        228 => Ok((p, InstructionType::F32x4Add)),
        229 => Ok((p, InstructionType::F32x4Sub)),
        230 => Ok((p, InstructionType::F32x4Mul)),
        231 => Ok((p, InstructionType::F32x4Div)),
        232 => Ok((p, InstructionType::F32x4Min)),
        233 => Ok((p, InstructionType::F32x4Max)),
        234 => Ok((p, InstructionType::F32x4Pmin)),
        235 => Ok((p, InstructionType::F32x4Pmax)),
        116 => Ok((p, InstructionType::F64x2Ceil)),
        117 => Ok((p, InstructionType::F64x2Floor)),
        122 => Ok((p, InstructionType::F64x2Trunc)),
        148 => Ok((p, InstructionType::F64x2Nearest)),
        236 => Ok((p, InstructionType::F64x2Abs)),
        237 => Ok((p, InstructionType::F64x2Neg)),
        239 => Ok((p, InstructionType::F64x2Sqrt)),
        240 => Ok((p, InstructionType::F64x2Add)),
        241 => Ok((p, InstructionType::F64x2Sub)),
        242 => Ok((p, InstructionType::F64x2Mul)),
        243 => Ok((p, InstructionType::F64x2Div)),
        244 => Ok((p, InstructionType::F64x2Min)),
        245 => Ok((p, InstructionType::F64x2Max)),
        246 => Ok((p, InstructionType::F64x2Pmin)),
        247 => Ok((p, InstructionType::F64x2Pmax)),
        248 => Ok((p, InstructionType::I32x4TruncSatF32x4S)),
        249 => Ok((p, InstructionType::I32x4TruncSatF32x4U)),
        250 => Ok((p, InstructionType::F32x4ConvertI32x4S)),
        251 => Ok((p, InstructionType::F32x4ConvertI32x4U)),
        252 => Ok((p, InstructionType::I32x4TruncSatF64x2SZero)),
        253 => Ok((p, InstructionType::I32x4TruncSatF64x2UZero)),
        254 => Ok((p, InstructionType::F64x2ConvertLowI32x4S)),
        255 => Ok((p, InstructionType::F64x2ConvertLowI32x4U)),
        94 => Ok((p, InstructionType::F32x4DemoteF64x2Zero)),
        95 => Ok((p, InstructionType::F64x2PromoteLowF32x4)),
        _ => Err(NomError),
    }
}

/// The block type at `pos`: 0x40 for none, a value type byte, or a signed LEB128 type
/// index.
pub open spec fn block_type_at(s: Seq<u8>, pos: int) -> Option<(nat, BlockType)> {
    if !(0 <= pos < s.len()) {
        None
    } else if s[pos] == OPCODE_EMPTY {
        Some((1, BlockType::Empty))
    } else if val_type_of(s[pos]) is Some {
        Some((1, BlockType::ValType(val_type_of(s[pos])->0)))
    } else {
        match crate::binary::parser_helpers::leb_u(s, pos, 10) {
            Some((n, v)) => Some(
                (
                    n,
                    BlockType::TypeIndex(
                        crate::entities::types::S33Type(crate::binary::parser_helpers::s33_value(n, v, s[pos + n - 1]) as i64),
                    ),
                ),
            ),
            None => None,
        }
    }
}

impl BlockType {
    /// Parses a block type.
    pub fn parse(bytes: &[u8], pos: usize) -> (r: PResult<BlockType>)
        ensures
            match block_type_at(bytes@, pos as int) {
                Some((n, t)) => r matches Ok((rp, rv)) && rp == pos + n && rv == t,
                None => r is Err,
            },
            r matches Ok((rp, _)) ==> pos < rp <= bytes@.len(),
    {
        if pos >= bytes.len() {
            return Err(NomError);
        }
        let first_byte = bytes[pos];
        if first_byte == OPCODE_EMPTY {
            return Ok((pos + 1, BlockType::Empty));
        }
        if let Some(val_type) = recognize_type(first_byte) {
            return Ok((pos + 1, BlockType::ValType(val_type)));
        }
        let (p, v) = parse_s33(bytes, pos)?;
        Ok((p, BlockType::TypeIndex(v)))
    }
}

/// Parses instructions up to the byte `till`, which is consumed. The sequence may be
/// empty.
pub fn parse_all_to_vec(bytes: &[u8], pos: usize, till: u8) -> (r: PResult<Vec<InstructionType>>)
    ensures
        r matches Ok((rp, _)) ==> pos < rp <= bytes@.len() && bytes@[rp - 1] == till,
        pos < bytes@.len() && bytes@[pos as int] == till ==> (r matches Ok((rp, rv)) && rp == pos + 1
            && rv@.len() == 0),
        pos >= bytes@.len() ==> r is Err,
        (r is Ok) == (list_end(bytes@, pos as int, till) is Some),
        r matches Ok((rp, rv)) ==> rp == list_end(bytes@, pos as int, till)->0 && list_values(bytes@, pos as int, till, rv@),
    decreases bytes@.len() - pos, 1nat,
{
    if pos >= bytes.len() {
        return Err(NomError);
    }
    let mut accumulator: Vec<InstructionType> = Vec::new();
    let mut p = pos;
    proof {
        assert forall|l: Seq<InstructionType>| list_values(bytes@, p as int, till, l) implies list_values(
            bytes@,
            pos as int,
            till,
            accumulator@ + l,
        ) by {
            assert(accumulator@ + l =~= l);
        }
    }
    loop
        invariant
            pos < bytes@.len(),
            pos <= p <= bytes@.len(),
            p == pos ==> accumulator@.len() == 0,
            p > pos ==> bytes@[pos as int] != till,
            list_end(bytes@, pos as int, till) == list_end(bytes@, p as int, till),
            forall|l: Seq<InstructionType>| #[trigger] list_values(bytes@, p as int, till, l) ==> list_values(
                bytes@,
                pos as int,
                till,
                accumulator@ + l,
            ),
        decreases bytes@.len() - p,
    {
        if p >= bytes.len() {
            return Err(NomError);
        }
        if bytes[p] == till {
            proof {
                assert(list_values(bytes@, p as int, till, Seq::empty()));
                assert(accumulator@ + Seq::empty() =~= accumulator@);
            }
            return Ok((p + 1, accumulator));
        }
        let (q, instruction) = InstructionType::parse(bytes, p)?;
        let ghost before = accumulator@;
        accumulator.push(instruction);
        proof {
            assert forall|l: Seq<InstructionType>| list_values(bytes@, q as int, till, l) implies list_values(
                bytes@,
                pos as int,
                till,
                accumulator@ + l,
            ) by {
                let m = seq![instruction] + l;
                assert(m[0] == instruction);
                assert(m.drop_first() =~= l);
                assert(list_values(bytes@, p as int, till, m));
                assert(before + m =~= accumulator@ + l);
            }
        }
        p = q;
    }
}

impl ExpressionType {
    /// Parses an expression: instructions up to `end`.
    pub fn parse(bytes: &[u8], pos: usize) -> (r: PResult<ExpressionType>)
        ensures
            r matches Ok((rp, _)) ==> pos < rp <= bytes@.len() && bytes@[rp - 1] == OPCODE_END,
            pos < bytes@.len() && bytes@[pos as int] == OPCODE_END ==> (r matches Ok((rp, rv)) && rp == pos + 1
                && rv.instructions@.len() == 0),
            pos >= bytes@.len() ==> r is Err,
            (r is Ok) == (list_end(bytes@, pos as int, OPCODE_END) is Some),
            r matches Ok((rp, rv)) ==> rp == list_end(bytes@, pos as int, OPCODE_END)->0 && list_values(
                bytes@,
                pos as int,
                OPCODE_END,
                rv.instructions@,
            ),
    {
        let (p, instructions) = parse_all_to_vec(bytes, pos, OPCODE_END)?;
        Ok((p, ExpressionType { instructions }))
    }
}

impl BlockInstructionType {
    /// Parses the block type and the body of a `block`, up to its `end`.
    pub fn parse(bytes: &[u8], pos: usize) -> (r: PResult<BlockInstructionType>)
        ensures
            r matches Ok((rp, _)) ==> pos < rp <= bytes@.len(),
            match block_type_at(bytes@, pos as int) {
                Some((n, bt)) => {
                    &&& (r is Ok) == (pos + n <= bytes@.len() && list_end(bytes@, pos + n, OPCODE_END) is Some)
                    &&& r matches Ok((rp, rv)) ==> rp == list_end(bytes@, pos + n, OPCODE_END)->0 && rv.blocktype == bt
                        && list_values(bytes@, pos + n, OPCODE_END, rv.instructions@)
                },
                None => r is Err,
            },
        decreases bytes@.len() - pos, 0nat,
    {
        let (p, blocktype) = BlockType::parse(bytes, pos)?;
        let (q, instructions) = parse_all_to_vec(bytes, p, OPCODE_END)?;
        Ok((q, BlockInstructionType { blocktype, instructions: Rc::new(instructions) }))
    }
}

impl LoopInstructionType {
    /// Parses the block type and the body of a `loop`, up to its `end`.
    pub fn parse(bytes: &[u8], pos: usize) -> (r: PResult<LoopInstructionType>)
        ensures
            r matches Ok((rp, _)) ==> pos < rp <= bytes@.len(),
            match block_type_at(bytes@, pos as int) {
                Some((n, bt)) => {
                    &&& (r is Ok) == (pos + n <= bytes@.len() && list_end(bytes@, pos + n, OPCODE_END) is Some)
                    &&& r matches Ok((rp, rv)) ==> rp == list_end(bytes@, pos + n, OPCODE_END)->0 && rv.blocktype == bt
                        && list_values(bytes@, pos + n, OPCODE_END, rv.instructions@)
                },
                None => r is Err,
            },
        decreases bytes@.len() - pos, 0nat,
    {
        let (p, blocktype) = BlockType::parse(bytes, pos)?;
        let (q, instructions) = parse_all_to_vec(bytes, p, OPCODE_END)?;
        Ok((q, LoopInstructionType { blocktype, instructions: Rc::new(instructions) }))
    }
}

/// Whether `b` occurs in `bytes` from `from` on.
fn contains_byte(bytes: &[u8], from: usize, b: u8) -> (r: bool)
    ensures
        r == exists|i: int| from <= i < bytes@.len() && bytes@[i] == b,
{
    let mut i = from;
    while i < bytes.len()
        invariant
            from <= i,
            forall|j: int| from <= j < i && j < bytes@.len() ==> bytes@[j] != b,
        decreases bytes@.len() - i,
    {
        if bytes[i] == b {
            return true;
        }
        i = i + 1;
    }
    false
}

impl IfElseInstructionType {
    /// Parses the block type and the arms of an `if`. Where the byte 0x05 occurs
    /// anywhere in the rest of the input, the first arm runs up to an `else` and the
    /// second up to `end`; otherwise the only arm runs up to `end` and the second is
    /// empty.
    pub fn parse(bytes: &[u8], pos: usize) -> (r: PResult<IfElseInstructionType>)
        ensures
            r matches Ok((rp, _)) ==> pos < rp <= bytes@.len(),
            match block_type_at(bytes@, pos as int) {
                Some((n, bt)) => if pos + n > bytes@.len() {
                    r is Err
                } else if has_else_from(bytes@, pos + n) {
                    match list_end(bytes@, pos + n, OPCODE_ELSE) {
                        Some(q) => {
                            &&& (r is Ok) == (pos + n < q <= bytes@.len() && list_end(bytes@, q, OPCODE_END) is Some)
                            &&& r matches Ok((rp, rv)) ==> rp == list_end(bytes@, q, OPCODE_END)->0 && rv.blocktype == bt
                                && list_values(bytes@, pos + n, OPCODE_ELSE, rv.if_instructions@)
                                && list_values(bytes@, q, OPCODE_END, rv.else_instructions@)
                        },
                        None => r is Err,
                    }
                } else {
                    &&& (r is Ok) == (list_end(bytes@, pos + n, OPCODE_END) is Some)
                    &&& r matches Ok((rp, rv)) ==> rp == list_end(bytes@, pos + n, OPCODE_END)->0 && rv.blocktype == bt
                        && list_values(bytes@, pos + n, OPCODE_END, rv.if_instructions@) && rv.else_instructions@.len() == 0
                },
                None => r is Err,
            },
        decreases bytes@.len() - pos, 0nat,
    {
        let (p, blocktype) = BlockType::parse(bytes, pos)?;
        if contains_byte(bytes, p, OPCODE_ELSE) {
            let (q, if_instructions) = parse_all_to_vec(bytes, p, OPCODE_ELSE)?;
            let (t, else_instructions) = parse_all_to_vec(bytes, q, OPCODE_END)?;
            Ok((
                t,
                IfElseInstructionType {
                    blocktype,
                    if_instructions: Rc::new(if_instructions),
                    else_instructions: Rc::new(else_instructions),
                },
            ))
        } else {
            let (q, if_instructions) = parse_all_to_vec(bytes, p, OPCODE_END)?;
            Ok((
                q,
                IfElseInstructionType {
                    blocktype,
                    if_instructions: Rc::new(if_instructions),
                    else_instructions: Rc::new(Vec::new()),
                },
            ))
        }
    }
}

impl IfInstructionType {
    /// Parses the block type and the first arm of an `if`, up to its `else`.
    pub fn parse(bytes: &[u8], pos: usize) -> (r: PResult<IfInstructionType>)
        ensures
            r matches Ok((rp, _)) ==> pos < rp <= bytes@.len(),
            match block_type_at(bytes@, pos as int) {
                Some((n, bt)) => {
                    &&& (r is Ok) == (pos + n <= bytes@.len() && list_end(bytes@, pos + n, OPCODE_ELSE) is Some)
                    &&& r matches Ok((rp, rv)) ==> rp == list_end(bytes@, pos + n, OPCODE_ELSE)->0 && rv.blocktype == bt
                        && list_values(bytes@, pos + n, OPCODE_ELSE, rv.if_instructions@)
                },
                None => r is Err,
            },
    {
        let (p, blocktype) = BlockType::parse(bytes, pos)?;
        let (q, if_instructions) = parse_all_to_vec(bytes, p, OPCODE_ELSE)?;
        Ok((q, IfInstructionType { blocktype, if_instructions: Rc::new(if_instructions) }))
    }
}


/// The instructions of a single opcode byte parse as the WebAssembly opcode table gives
/// them: the opcode byte alone, and the instruction that the table names for it.
#[verifier::rlimit(80)]
pub proof fn law_opcode_table(s: Seq<u8>, pos: int, r: PResult<InstructionType>)
    requires
        0 <= pos < s.len(),
        instr_parse_post(s, pos, r),
    ensures
        s[pos] == 0x00 ==> r == Ok::<(usize, InstructionType), NomError>(((pos + 1) as usize, InstructionType::Unreachable)),
        s[pos] == 0x01 ==> r == Ok::<(usize, InstructionType), NomError>(((pos + 1) as usize, InstructionType::Nop)),
        s[pos] == 0x0f ==> r == Ok::<(usize, InstructionType), NomError>(((pos + 1) as usize, InstructionType::Return)),
        s[pos] == 0x1a ==> r == Ok::<(usize, InstructionType), NomError>(((pos + 1) as usize, InstructionType::Drop)),
        s[pos] == 0x1b ==> r == Ok::<(usize, InstructionType), NomError>(((pos + 1) as usize, InstructionType::Select)),
        s[pos] == 0x45 ==> r == Ok::<(usize, InstructionType), NomError>(((pos + 1) as usize, InstructionType::I32Eqz)),
        s[pos] == 0x46 ==> r == Ok::<(usize, InstructionType), NomError>(((pos + 1) as usize, InstructionType::I32Eq)),
        s[pos] == 0x47 ==> r == Ok::<(usize, InstructionType), NomError>(((pos + 1) as usize, InstructionType::I32Ne)),
        s[pos] == 0x48 ==> r == Ok::<(usize, InstructionType), NomError>(((pos + 1) as usize, InstructionType::I32LtS)),
        s[pos] == 0x49 ==> r == Ok::<(usize, InstructionType), NomError>(((pos + 1) as usize, InstructionType::I32LtU)),
        s[pos] == 0x4a ==> r == Ok::<(usize, InstructionType), NomError>(((pos + 1) as usize, InstructionType::I32GtS)),
        s[pos] == 0x4b ==> r == Ok::<(usize, InstructionType), NomError>(((pos + 1) as usize, InstructionType::I32GtU)),
        s[pos] == 0x4c ==> r == Ok::<(usize, InstructionType), NomError>(((pos + 1) as usize, InstructionType::I32LeS)),
        s[pos] == 0x4d ==> r == Ok::<(usize, InstructionType), NomError>(((pos + 1) as usize, InstructionType::I32LeU)),
        s[pos] == 0x4e ==> r == Ok::<(usize, InstructionType), NomError>(((pos + 1) as usize, InstructionType::I32GeS)),
        s[pos] == 0x4f ==> r == Ok::<(usize, InstructionType), NomError>(((pos + 1) as usize, InstructionType::I32GeU)),
        s[pos] == 0x50 ==> r == Ok::<(usize, InstructionType), NomError>(((pos + 1) as usize, InstructionType::I64Eqz)),
        s[pos] == 0x51 ==> r == Ok::<(usize, InstructionType), NomError>(((pos + 1) as usize, InstructionType::I64Eq)),
        s[pos] == 0x52 ==> r == Ok::<(usize, InstructionType), NomError>(((pos + 1) as usize, InstructionType::I64Ne)),
        s[pos] == 0x53 ==> r == Ok::<(usize, InstructionType), NomError>(((pos + 1) as usize, InstructionType::I64LtS)),
        s[pos] == 0x54 ==> r == Ok::<(usize, InstructionType), NomError>(((pos + 1) as usize, InstructionType::I64LtU)),
        s[pos] == 0x55 ==> r == Ok::<(usize, InstructionType), NomError>(((pos + 1) as usize, InstructionType::I64GtS)),
        s[pos] == 0x56 ==> r == Ok::<(usize, InstructionType), NomError>(((pos + 1) as usize, InstructionType::I64GtU)),
        s[pos] == 0x57 ==> r == Ok::<(usize, InstructionType), NomError>(((pos + 1) as usize, InstructionType::I64LeS)),
        s[pos] == 0x58 ==> r == Ok::<(usize, InstructionType), NomError>(((pos + 1) as usize, InstructionType::I64LeU)),
        s[pos] == 0x59 ==> r == Ok::<(usize, InstructionType), NomError>(((pos + 1) as usize, InstructionType::I64GeS)),
        s[pos] == 0x5a ==> r == Ok::<(usize, InstructionType), NomError>(((pos + 1) as usize, InstructionType::I64GeU)),
        s[pos] == 0x5b ==> r == Ok::<(usize, InstructionType), NomError>(((pos + 1) as usize, InstructionType::F32Eq)),
        s[pos] == 0x5c ==> r == Ok::<(usize, InstructionType), NomError>(((pos + 1) as usize, InstructionType::F32Ne)),
        s[pos] == 0x5d ==> r == Ok::<(usize, InstructionType), NomError>(((pos + 1) as usize, InstructionType::F32Lt)),
        s[pos] == 0x5e ==> r == Ok::<(usize, InstructionType), NomError>(((pos + 1) as usize, InstructionType::F32Gt)),
        s[pos] == 0x5f ==> r == Ok::<(usize, InstructionType), NomError>(((pos + 1) as usize, InstructionType::F32Le)),
        s[pos] == 0x60 ==> r == Ok::<(usize, InstructionType), NomError>(((pos + 1) as usize, InstructionType::F32Ge)),
        s[pos] == 0x61 ==> r == Ok::<(usize, InstructionType), NomError>(((pos + 1) as usize, InstructionType::F64Eq)),
        s[pos] == 0x62 ==> r == Ok::<(usize, InstructionType), NomError>(((pos + 1) as usize, InstructionType::F64Ne)),
        s[pos] == 0x63 ==> r == Ok::<(usize, InstructionType), NomError>(((pos + 1) as usize, InstructionType::F64Lt)),
        s[pos] == 0x64 ==> r == Ok::<(usize, InstructionType), NomError>(((pos + 1) as usize, InstructionType::F64Gt)),
        s[pos] == 0x65 ==> r == Ok::<(usize, InstructionType), NomError>(((pos + 1) as usize, InstructionType::F64Le)),
        s[pos] == 0x66 ==> r == Ok::<(usize, InstructionType), NomError>(((pos + 1) as usize, InstructionType::F64Ge)),
        s[pos] == 0x67 ==> r == Ok::<(usize, InstructionType), NomError>(((pos + 1) as usize, InstructionType::I32Clz)),
        s[pos] == 0x68 ==> r == Ok::<(usize, InstructionType), NomError>(((pos + 1) as usize, InstructionType::I32Ctz)),
        s[pos] == 0x69 ==> r == Ok::<(usize, InstructionType), NomError>(((pos + 1) as usize, InstructionType::I32Popcnt)),
        s[pos] == 0x6a ==> r == Ok::<(usize, InstructionType), NomError>(((pos + 1) as usize, InstructionType::I32Add)),
        s[pos] == 0x6b ==> r == Ok::<(usize, InstructionType), NomError>(((pos + 1) as usize, InstructionType::I32Sub)),
        s[pos] == 0x6c ==> r == Ok::<(usize, InstructionType), NomError>(((pos + 1) as usize, InstructionType::I32Mul)),
        s[pos] == 0x6d ==> r == Ok::<(usize, InstructionType), NomError>(((pos + 1) as usize, InstructionType::I32DivS)),
        s[pos] == 0x6e ==> r == Ok::<(usize, InstructionType), NomError>(((pos + 1) as usize, InstructionType::I32DivU)),
        s[pos] == 0x6f ==> r == Ok::<(usize, InstructionType), NomError>(((pos + 1) as usize, InstructionType::I32RemS)),
        s[pos] == 0x70 ==> r == Ok::<(usize, InstructionType), NomError>(((pos + 1) as usize, InstructionType::I32RemU)),
        s[pos] == 0x71 ==> r == Ok::<(usize, InstructionType), NomError>(((pos + 1) as usize, InstructionType::I32And)),
        s[pos] == 0x72 ==> r == Ok::<(usize, InstructionType), NomError>(((pos + 1) as usize, InstructionType::I32Or)),
        s[pos] == 0x73 ==> r == Ok::<(usize, InstructionType), NomError>(((pos + 1) as usize, InstructionType::I32Xor)),
        s[pos] == 0x74 ==> r == Ok::<(usize, InstructionType), NomError>(((pos + 1) as usize, InstructionType::I32Shl)),
        s[pos] == 0x75 ==> r == Ok::<(usize, InstructionType), NomError>(((pos + 1) as usize, InstructionType::I32ShrS)),
        s[pos] == 0x76 ==> r == Ok::<(usize, InstructionType), NomError>(((pos + 1) as usize, InstructionType::I32ShrU)),
        s[pos] == 0x77 ==> r == Ok::<(usize, InstructionType), NomError>(((pos + 1) as usize, InstructionType::I32Rotl)),
        s[pos] == 0x78 ==> r == Ok::<(usize, InstructionType), NomError>(((pos + 1) as usize, InstructionType::I32Rotr)),
        s[pos] == 0x79 ==> r == Ok::<(usize, InstructionType), NomError>(((pos + 1) as usize, InstructionType::I64Clz)),
        s[pos] == 0x7a ==> r == Ok::<(usize, InstructionType), NomError>(((pos + 1) as usize, InstructionType::I64Ctz)),
        s[pos] == 0x7b ==> r == Ok::<(usize, InstructionType), NomError>(((pos + 1) as usize, InstructionType::I64Popcnt)),
        s[pos] == 0x7c ==> r == Ok::<(usize, InstructionType), NomError>(((pos + 1) as usize, InstructionType::I64Add)),
        s[pos] == 0x7d ==> r == Ok::<(usize, InstructionType), NomError>(((pos + 1) as usize, InstructionType::I64Sub)),
        s[pos] == 0x7e ==> r == Ok::<(usize, InstructionType), NomError>(((pos + 1) as usize, InstructionType::I64Mul)),
        s[pos] == 0x7f ==> r == Ok::<(usize, InstructionType), NomError>(((pos + 1) as usize, InstructionType::I64DivS)),
        s[pos] == 0x80 ==> r == Ok::<(usize, InstructionType), NomError>(((pos + 1) as usize, InstructionType::I64DivU)),
        s[pos] == 0x81 ==> r == Ok::<(usize, InstructionType), NomError>(((pos + 1) as usize, InstructionType::I64RemS)),
        s[pos] == 0x82 ==> r == Ok::<(usize, InstructionType), NomError>(((pos + 1) as usize, InstructionType::I64RemU)),
        s[pos] == 0x83 ==> r == Ok::<(usize, InstructionType), NomError>(((pos + 1) as usize, InstructionType::I64And)),
        s[pos] == 0x84 ==> r == Ok::<(usize, InstructionType), NomError>(((pos + 1) as usize, InstructionType::I64Or)),
        s[pos] == 0x85 ==> r == Ok::<(usize, InstructionType), NomError>(((pos + 1) as usize, InstructionType::I64Xor)),
        s[pos] == 0x86 ==> r == Ok::<(usize, InstructionType), NomError>(((pos + 1) as usize, InstructionType::I64Shl)),
        s[pos] == 0x87 ==> r == Ok::<(usize, InstructionType), NomError>(((pos + 1) as usize, InstructionType::I64ShrS)),
        s[pos] == 0x88 ==> r == Ok::<(usize, InstructionType), NomError>(((pos + 1) as usize, InstructionType::I64ShrU)),
        s[pos] == 0x89 ==> r == Ok::<(usize, InstructionType), NomError>(((pos + 1) as usize, InstructionType::I64Rotl)),
        s[pos] == 0x8a ==> r == Ok::<(usize, InstructionType), NomError>(((pos + 1) as usize, InstructionType::I64Rotr)),
        s[pos] == 0x8b ==> r == Ok::<(usize, InstructionType), NomError>(((pos + 1) as usize, InstructionType::F32Abs)),
        s[pos] == 0x8c ==> r == Ok::<(usize, InstructionType), NomError>(((pos + 1) as usize, InstructionType::F32Neg)),
        s[pos] == 0x8d ==> r == Ok::<(usize, InstructionType), NomError>(((pos + 1) as usize, InstructionType::F32Ceil)),
        s[pos] == 0x8e ==> r == Ok::<(usize, InstructionType), NomError>(((pos + 1) as usize, InstructionType::F32Floor)),
        s[pos] == 0x8f ==> r == Ok::<(usize, InstructionType), NomError>(((pos + 1) as usize, InstructionType::F32Trunc)),
        s[pos] == 0x90 ==> r == Ok::<(usize, InstructionType), NomError>(((pos + 1) as usize, InstructionType::F32Nearest)),
        s[pos] == 0x91 ==> r == Ok::<(usize, InstructionType), NomError>(((pos + 1) as usize, InstructionType::F32Sqrt)),
        s[pos] == 0x92 ==> r == Ok::<(usize, InstructionType), NomError>(((pos + 1) as usize, InstructionType::F32Add)),
        s[pos] == 0x93 ==> r == Ok::<(usize, InstructionType), NomError>(((pos + 1) as usize, InstructionType::F32Sub)),
        s[pos] == 0x94 ==> r == Ok::<(usize, InstructionType), NomError>(((pos + 1) as usize, InstructionType::F32Mul)),
        s[pos] == 0x95 ==> r == Ok::<(usize, InstructionType), NomError>(((pos + 1) as usize, InstructionType::F32Div)),
        s[pos] == 0x96 ==> r == Ok::<(usize, InstructionType), NomError>(((pos + 1) as usize, InstructionType::F32Min)),
        s[pos] == 0x97 ==> r == Ok::<(usize, InstructionType), NomError>(((pos + 1) as usize, InstructionType::F32Max)),
        s[pos] == 0x98 ==> r == Ok::<(usize, InstructionType), NomError>(((pos + 1) as usize, InstructionType::F32Copysign)),
        s[pos] == 0x99 ==> r == Ok::<(usize, InstructionType), NomError>(((pos + 1) as usize, InstructionType::F64Abs)),
        s[pos] == 0x9a ==> r == Ok::<(usize, InstructionType), NomError>(((pos + 1) as usize, InstructionType::F64Neg)),
        s[pos] == 0x9b ==> r == Ok::<(usize, InstructionType), NomError>(((pos + 1) as usize, InstructionType::F64Ceil)),
        s[pos] == 0x9c ==> r == Ok::<(usize, InstructionType), NomError>(((pos + 1) as usize, InstructionType::F64Floor)),
        s[pos] == 0x9d ==> r == Ok::<(usize, InstructionType), NomError>(((pos + 1) as usize, InstructionType::F64Trunc)),
        s[pos] == 0x9e ==> r == Ok::<(usize, InstructionType), NomError>(((pos + 1) as usize, InstructionType::F64Nearest)),
        s[pos] == 0x9f ==> r == Ok::<(usize, InstructionType), NomError>(((pos + 1) as usize, InstructionType::F64Sqrt)),
        s[pos] == 0xa0 ==> r == Ok::<(usize, InstructionType), NomError>(((pos + 1) as usize, InstructionType::F64Add)),
        s[pos] == 0xa1 ==> r == Ok::<(usize, InstructionType), NomError>(((pos + 1) as usize, InstructionType::F64Sub)),
        s[pos] == 0xa2 ==> r == Ok::<(usize, InstructionType), NomError>(((pos + 1) as usize, InstructionType::F64Mul)),
        s[pos] == 0xa3 ==> r == Ok::<(usize, InstructionType), NomError>(((pos + 1) as usize, InstructionType::F64Div)),
        s[pos] == 0xa4 ==> r == Ok::<(usize, InstructionType), NomError>(((pos + 1) as usize, InstructionType::F64Min)),
        s[pos] == 0xa5 ==> r == Ok::<(usize, InstructionType), NomError>(((pos + 1) as usize, InstructionType::F64Max)),
        s[pos] == 0xa6 ==> r == Ok::<(usize, InstructionType), NomError>(((pos + 1) as usize, InstructionType::F64Copysign)),
        s[pos] == 0xa7 ==> r == Ok::<(usize, InstructionType), NomError>(((pos + 1) as usize, InstructionType::I32WrapI64)),
        s[pos] == 0xa8 ==> r == Ok::<(usize, InstructionType), NomError>(((pos + 1) as usize, InstructionType::I32TruncF32S)),
        s[pos] == 0xa9 ==> r == Ok::<(usize, InstructionType), NomError>(((pos + 1) as usize, InstructionType::I32TruncF32U)),
        s[pos] == 0xaa ==> r == Ok::<(usize, InstructionType), NomError>(((pos + 1) as usize, InstructionType::I32TruncF64S)),
        s[pos] == 0xab ==> r == Ok::<(usize, InstructionType), NomError>(((pos + 1) as usize, InstructionType::I32TruncF64U)),
        s[pos] == 0xac ==> r == Ok::<(usize, InstructionType), NomError>(((pos + 1) as usize, InstructionType::I64ExtendI32S)),
        s[pos] == 0xad ==> r == Ok::<(usize, InstructionType), NomError>(((pos + 1) as usize, InstructionType::I64ExtendI32U)),
        s[pos] == 0xae ==> r == Ok::<(usize, InstructionType), NomError>(((pos + 1) as usize, InstructionType::I64TruncF32S)),
        s[pos] == 0xaf ==> r == Ok::<(usize, InstructionType), NomError>(((pos + 1) as usize, InstructionType::I64TruncF32U)),
        s[pos] == 0xb0 ==> r == Ok::<(usize, InstructionType), NomError>(((pos + 1) as usize, InstructionType::I64TruncF64S)),
        s[pos] == 0xb1 ==> r == Ok::<(usize, InstructionType), NomError>(((pos + 1) as usize, InstructionType::I64TruncF64U)),
        s[pos] == 0xb2 ==> r == Ok::<(usize, InstructionType), NomError>(((pos + 1) as usize, InstructionType::F32ConvertI32S)),
        s[pos] == 0xb3 ==> r == Ok::<(usize, InstructionType), NomError>(((pos + 1) as usize, InstructionType::F32ConvertI32U)),
        s[pos] == 0xb4 ==> r == Ok::<(usize, InstructionType), NomError>(((pos + 1) as usize, InstructionType::F32ConvertI64S)),
        s[pos] == 0xb5 ==> r == Ok::<(usize, InstructionType), NomError>(((pos + 1) as usize, InstructionType::F32ConvertI64U)),
        s[pos] == 0xb6 ==> r == Ok::<(usize, InstructionType), NomError>(((pos + 1) as usize, InstructionType::F32DemoteF64)),
        s[pos] == 0xb7 ==> r == Ok::<(usize, InstructionType), NomError>(((pos + 1) as usize, InstructionType::F64ConvertI32S)),
        s[pos] == 0xb8 ==> r == Ok::<(usize, InstructionType), NomError>(((pos + 1) as usize, InstructionType::F64ConvertI32U)),
        s[pos] == 0xb9 ==> r == Ok::<(usize, InstructionType), NomError>(((pos + 1) as usize, InstructionType::F64ConvertI64S)),
        s[pos] == 0xba ==> r == Ok::<(usize, InstructionType), NomError>(((pos + 1) as usize, InstructionType::F64ConvertI64U)),
        s[pos] == 0xbb ==> r == Ok::<(usize, InstructionType), NomError>(((pos + 1) as usize, InstructionType::F64PromoteF32)),
        s[pos] == 0xbc ==> r == Ok::<(usize, InstructionType), NomError>(((pos + 1) as usize, InstructionType::I32ReinterpretF32)),
        s[pos] == 0xbd ==> r == Ok::<(usize, InstructionType), NomError>(((pos + 1) as usize, InstructionType::I64ReinterpretF64)),
        s[pos] == 0xbe ==> r == Ok::<(usize, InstructionType), NomError>(((pos + 1) as usize, InstructionType::F32ReinterpretI32)),
        s[pos] == 0xbf ==> r == Ok::<(usize, InstructionType), NomError>(((pos + 1) as usize, InstructionType::F64ReinterpretI64)),
        s[pos] == 0xc0 ==> r == Ok::<(usize, InstructionType), NomError>(((pos + 1) as usize, InstructionType::I32Extend8S)),
        s[pos] == 0xc1 ==> r == Ok::<(usize, InstructionType), NomError>(((pos + 1) as usize, InstructionType::I32Extend16S)),
        s[pos] == 0xc2 ==> r == Ok::<(usize, InstructionType), NomError>(((pos + 1) as usize, InstructionType::I64Extend8S)),
        s[pos] == 0xc3 ==> r == Ok::<(usize, InstructionType), NomError>(((pos + 1) as usize, InstructionType::I64Extend16S)),
        s[pos] == 0xc4 ==> r == Ok::<(usize, InstructionType), NomError>(((pos + 1) as usize, InstructionType::I64Extend32S)),
        s[pos] == 0xd1 ==> r == Ok::<(usize, InstructionType), NomError>(((pos + 1) as usize, InstructionType::RefIsNull)),
{
}

/// The instructions after the prefix 0xFC without operands parse as the WebAssembly
/// opcode table gives them: the prefix, the sub-opcode, and the instruction that the
/// table names for it.
pub proof fn law_other_opcode_table(s: Seq<u8>, pos: int, r: PResult<InstructionType>, n: nat, code: u32)
    requires
        0 <= pos < s.len(),
        s[pos] == 0xfc,
        u32_at(s, pos + 1) == Some((n, code)),
        instr_parse_post(s, pos, r),
    ensures
        code == 0 ==> r == Ok::<(usize, InstructionType), NomError>(((pos + 1 + n) as usize, InstructionType::I32TruncSatF32S)),
        code == 1 ==> r == Ok::<(usize, InstructionType), NomError>(((pos + 1 + n) as usize, InstructionType::I32TruncSatF32U)),
        code == 2 ==> r == Ok::<(usize, InstructionType), NomError>(((pos + 1 + n) as usize, InstructionType::I32TruncSatF64S)),
        code == 3 ==> r == Ok::<(usize, InstructionType), NomError>(((pos + 1 + n) as usize, InstructionType::I32TruncSatF64U)),
        code == 4 ==> r == Ok::<(usize, InstructionType), NomError>(((pos + 1 + n) as usize, InstructionType::I64TruncSatF32S)),
        code == 5 ==> r == Ok::<(usize, InstructionType), NomError>(((pos + 1 + n) as usize, InstructionType::I64TruncSatF32U)),
        code == 6 ==> r == Ok::<(usize, InstructionType), NomError>(((pos + 1 + n) as usize, InstructionType::I64TruncSatF64S)),
        code == 7 ==> r == Ok::<(usize, InstructionType), NomError>(((pos + 1 + n) as usize, InstructionType::I64TruncSatF64U)),
{
}

/// The vector instructions after the prefix 0xFD with sub-opcodes 14 to 72
/// and no operands parse as the WebAssembly opcode table gives them: the prefix, the
/// sub-opcode, and the instruction that the table names for it.
#[verifier::rlimit(80)]
pub proof fn law_vector_opcode_table_1(s: Seq<u8>, pos: int, r: PResult<InstructionType>, n: nat, code: u32)
    requires
        0 <= pos < s.len(),
        s[pos] == 0xfd,
        u32_at(s, pos + 1) == Some((n, code)),
        instr_parse_post(s, pos, r),
    ensures
        code == 14 ==> r == Ok::<(usize, InstructionType), NomError>(((pos + 1 + n) as usize, InstructionType::I8x16Swizzle)),
        code == 15 ==> r == Ok::<(usize, InstructionType), NomError>(((pos + 1 + n) as usize, InstructionType::I8x16Splat)),
        code == 16 ==> r == Ok::<(usize, InstructionType), NomError>(((pos + 1 + n) as usize, InstructionType::I16x8Splat)),
        code == 17 ==> r == Ok::<(usize, InstructionType), NomError>(((pos + 1 + n) as usize, InstructionType::I32x4Splat)),
        code == 18 ==> r == Ok::<(usize, InstructionType), NomError>(((pos + 1 + n) as usize, InstructionType::I64x2Splat)),
        code == 19 ==> r == Ok::<(usize, InstructionType), NomError>(((pos + 1 + n) as usize, InstructionType::F32x4Splat)),
        code == 20 ==> r == Ok::<(usize, InstructionType), NomError>(((pos + 1 + n) as usize, InstructionType::F64x2Splat)),
        code == 35 ==> r == Ok::<(usize, InstructionType), NomError>(((pos + 1 + n) as usize, InstructionType::I8x16Eq)),
        code == 36 ==> r == Ok::<(usize, InstructionType), NomError>(((pos + 1 + n) as usize, InstructionType::I8x16Ne)),
        code == 37 ==> r == Ok::<(usize, InstructionType), NomError>(((pos + 1 + n) as usize, InstructionType::I8x16LtS)),
        code == 38 ==> r == Ok::<(usize, InstructionType), NomError>(((pos + 1 + n) as usize, InstructionType::I8x16LtU)),
        code == 39 ==> r == Ok::<(usize, InstructionType), NomError>(((pos + 1 + n) as usize, InstructionType::I8x16GtS)),
        code == 40 ==> r == Ok::<(usize, InstructionType), NomError>(((pos + 1 + n) as usize, InstructionType::I8x16GtU)),
        code == 41 ==> r == Ok::<(usize, InstructionType), NomError>(((pos + 1 + n) as usize, InstructionType::I8x16LeS)),
        code == 42 ==> r == Ok::<(usize, InstructionType), NomError>(((pos + 1 + n) as usize, InstructionType::I8x16LeU)),
        code == 43 ==> r == Ok::<(usize, InstructionType), NomError>(((pos + 1 + n) as usize, InstructionType::I8x16GeS)),
        code == 44 ==> r == Ok::<(usize, InstructionType), NomError>(((pos + 1 + n) as usize, InstructionType::I8x16GeU)),
        code == 45 ==> r == Ok::<(usize, InstructionType), NomError>(((pos + 1 + n) as usize, InstructionType::I16x8Eq)),
        code == 46 ==> r == Ok::<(usize, InstructionType), NomError>(((pos + 1 + n) as usize, InstructionType::I16x8Ne)),
        code == 47 ==> r == Ok::<(usize, InstructionType), NomError>(((pos + 1 + n) as usize, InstructionType::I16x8LtS)),
        code == 48 ==> r == Ok::<(usize, InstructionType), NomError>(((pos + 1 + n) as usize, InstructionType::I16x8LtU)),
        code == 49 ==> r == Ok::<(usize, InstructionType), NomError>(((pos + 1 + n) as usize, InstructionType::I16x8GtS)),
        code == 50 ==> r == Ok::<(usize, InstructionType), NomError>(((pos + 1 + n) as usize, InstructionType::I16x8GtU)),
        code == 51 ==> r == Ok::<(usize, InstructionType), NomError>(((pos + 1 + n) as usize, InstructionType::I16x8LeS)),
        code == 52 ==> r == Ok::<(usize, InstructionType), NomError>(((pos + 1 + n) as usize, InstructionType::I16x8LeU)),
        code == 53 ==> r == Ok::<(usize, InstructionType), NomError>(((pos + 1 + n) as usize, InstructionType::I16x8GeS)),
        code == 54 ==> r == Ok::<(usize, InstructionType), NomError>(((pos + 1 + n) as usize, InstructionType::I16x8GeU)),
        code == 55 ==> r == Ok::<(usize, InstructionType), NomError>(((pos + 1 + n) as usize, InstructionType::I32x4Eq)),
        code == 56 ==> r == Ok::<(usize, InstructionType), NomError>(((pos + 1 + n) as usize, InstructionType::I32x4Ne)),
        code == 57 ==> r == Ok::<(usize, InstructionType), NomError>(((pos + 1 + n) as usize, InstructionType::I32x4LtS)),
        code == 58 ==> r == Ok::<(usize, InstructionType), NomError>(((pos + 1 + n) as usize, InstructionType::I32x4LtU)),
        code == 59 ==> r == Ok::<(usize, InstructionType), NomError>(((pos + 1 + n) as usize, InstructionType::I32x4GtS)),
        code == 60 ==> r == Ok::<(usize, InstructionType), NomError>(((pos + 1 + n) as usize, InstructionType::I32x4GtU)),
        code == 61 ==> r == Ok::<(usize, InstructionType), NomError>(((pos + 1 + n) as usize, InstructionType::I32x4LeS)),
        code == 62 ==> r == Ok::<(usize, InstructionType), NomError>(((pos + 1 + n) as usize, InstructionType::I32x4LeU)),
        code == 63 ==> r == Ok::<(usize, InstructionType), NomError>(((pos + 1 + n) as usize, InstructionType::I32x4GeS)),
        code == 64 ==> r == Ok::<(usize, InstructionType), NomError>(((pos + 1 + n) as usize, InstructionType::I32x4GeU)),
        code == 65 ==> r == Ok::<(usize, InstructionType), NomError>(((pos + 1 + n) as usize, InstructionType::F32x4Eq)),
        code == 66 ==> r == Ok::<(usize, InstructionType), NomError>(((pos + 1 + n) as usize, InstructionType::F32x4Ne)),
        code == 67 ==> r == Ok::<(usize, InstructionType), NomError>(((pos + 1 + n) as usize, InstructionType::F32x4Lt)),
        code == 68 ==> r == Ok::<(usize, InstructionType), NomError>(((pos + 1 + n) as usize, InstructionType::F32x4Gt)),
        code == 69 ==> r == Ok::<(usize, InstructionType), NomError>(((pos + 1 + n) as usize, InstructionType::F32x4Le)),
        code == 70 ==> r == Ok::<(usize, InstructionType), NomError>(((pos + 1 + n) as usize, InstructionType::F32x4Ge)),
        code == 71 ==> r == Ok::<(usize, InstructionType), NomError>(((pos + 1 + n) as usize, InstructionType::F64x2Eq)),
        code == 72 ==> r == Ok::<(usize, InstructionType), NomError>(((pos + 1 + n) as usize, InstructionType::F64x2Ne)),
{
}

/// The vector instructions after the prefix 0xFD with sub-opcodes 73 to 131
/// and no operands parse as the WebAssembly opcode table gives them: the prefix, the
/// sub-opcode, and the instruction that the table names for it.
#[verifier::rlimit(80)]
pub proof fn law_vector_opcode_table_2(s: Seq<u8>, pos: int, r: PResult<InstructionType>, n: nat, code: u32)
    requires
        0 <= pos < s.len(),
        s[pos] == 0xfd,
        u32_at(s, pos + 1) == Some((n, code)),
        instr_parse_post(s, pos, r),
    ensures
        code == 73 ==> r == Ok::<(usize, InstructionType), NomError>(((pos + 1 + n) as usize, InstructionType::F64x2Lt)),
        code == 74 ==> r == Ok::<(usize, InstructionType), NomError>(((pos + 1 + n) as usize, InstructionType::F64x2Gt)),
        code == 75 ==> r == Ok::<(usize, InstructionType), NomError>(((pos + 1 + n) as usize, InstructionType::F64x2Le)),
        code == 76 ==> r == Ok::<(usize, InstructionType), NomError>(((pos + 1 + n) as usize, InstructionType::F64x2Ge)),
        code == 77 ==> r == Ok::<(usize, InstructionType), NomError>(((pos + 1 + n) as usize, InstructionType::V128Not)),
        code == 78 ==> r == Ok::<(usize, InstructionType), NomError>(((pos + 1 + n) as usize, InstructionType::V128And)),
        code == 79 ==> r == Ok::<(usize, InstructionType), NomError>(((pos + 1 + n) as usize, InstructionType::V128AndNot)),
        code == 80 ==> r == Ok::<(usize, InstructionType), NomError>(((pos + 1 + n) as usize, InstructionType::V128Or)),
        code == 81 ==> r == Ok::<(usize, InstructionType), NomError>(((pos + 1 + n) as usize, InstructionType::V128Xor)),
        code == 82 ==> r == Ok::<(usize, InstructionType), NomError>(((pos + 1 + n) as usize, InstructionType::V128Bitselect)),
        code == 83 ==> r == Ok::<(usize, InstructionType), NomError>(((pos + 1 + n) as usize, InstructionType::V128AnyTrue)),
        code == 94 ==> r == Ok::<(usize, InstructionType), NomError>(((pos + 1 + n) as usize, InstructionType::F32x4DemoteF64x2Zero)),
        code == 95 ==> r == Ok::<(usize, InstructionType), NomError>(((pos + 1 + n) as usize, InstructionType::F64x2PromoteLowF32x4)),
        code == 96 ==> r == Ok::<(usize, InstructionType), NomError>(((pos + 1 + n) as usize, InstructionType::I8x16Abs)),
        code == 97 ==> r == Ok::<(usize, InstructionType), NomError>(((pos + 1 + n) as usize, InstructionType::I8x16Neg)),
        code == 98 ==> r == Ok::<(usize, InstructionType), NomError>(((pos + 1 + n) as usize, InstructionType::I8x16Popcnt)),
        code == 99 ==> r == Ok::<(usize, InstructionType), NomError>(((pos + 1 + n) as usize, InstructionType::I8x16AllTrue)),
        code == 100 ==> r == Ok::<(usize, InstructionType), NomError>(((pos + 1 + n) as usize, InstructionType::I8x16Bitmask)),
        code == 101 ==> r == Ok::<(usize, InstructionType), NomError>(((pos + 1 + n) as usize, InstructionType::I8x16NarrowI16x8S)),
        code == 102 ==> r == Ok::<(usize, InstructionType), NomError>(((pos + 1 + n) as usize, InstructionType::I8x16NarrowI16x8U)),
        code == 103 ==> r == Ok::<(usize, InstructionType), NomError>(((pos + 1 + n) as usize, InstructionType::F32x4Ceil)),
        code == 104 ==> r == Ok::<(usize, InstructionType), NomError>(((pos + 1 + n) as usize, InstructionType::F32x4Floor)),
        code == 105 ==> r == Ok::<(usize, InstructionType), NomError>(((pos + 1 + n) as usize, InstructionType::F32x4Trunc)),
        code == 106 ==> r == Ok::<(usize, InstructionType), NomError>(((pos + 1 + n) as usize, InstructionType::F32x4Nearest)),
        code == 107 ==> r == Ok::<(usize, InstructionType), NomError>(((pos + 1 + n) as usize, InstructionType::I8x16Shl)),
        code == 108 ==> r == Ok::<(usize, InstructionType), NomError>(((pos + 1 + n) as usize, InstructionType::I8x16ShrS)),
        code == 109 ==> r == Ok::<(usize, InstructionType), NomError>(((pos + 1 + n) as usize, InstructionType::I8x16ShrU)),
        code == 110 ==> r == Ok::<(usize, InstructionType), NomError>(((pos + 1 + n) as usize, InstructionType::I8x16Add)),
        code == 111 ==> r == Ok::<(usize, InstructionType), NomError>(((pos + 1 + n) as usize, InstructionType::I8x16AddSatS)),
        code == 112 ==> r == Ok::<(usize, InstructionType), NomError>(((pos + 1 + n) as usize, InstructionType::I8x16AddSatU)),
        code == 113 ==> r == Ok::<(usize, InstructionType), NomError>(((pos + 1 + n) as usize, InstructionType::I8x16Sub)),
        code == 114 ==> r == Ok::<(usize, InstructionType), NomError>(((pos + 1 + n) as usize, InstructionType::I8x16SubSatS)),
        code == 115 ==> r == Ok::<(usize, InstructionType), NomError>(((pos + 1 + n) as usize, InstructionType::I8x16SubSatU)),
        code == 116 ==> r == Ok::<(usize, InstructionType), NomError>(((pos + 1 + n) as usize, InstructionType::F64x2Ceil)),
        code == 117 ==> r == Ok::<(usize, InstructionType), NomError>(((pos + 1 + n) as usize, InstructionType::F64x2Floor)),
        code == 118 ==> r == Ok::<(usize, InstructionType), NomError>(((pos + 1 + n) as usize, InstructionType::I8x16MinS)),
        code == 119 ==> r == Ok::<(usize, InstructionType), NomError>(((pos + 1 + n) as usize, InstructionType::I8x16MinU)),
        code == 120 ==> r == Ok::<(usize, InstructionType), NomError>(((pos + 1 + n) as usize, InstructionType::I8x16MaxS)),
        code == 121 ==> r == Ok::<(usize, InstructionType), NomError>(((pos + 1 + n) as usize, InstructionType::I8x16MaxU)),
        code == 122 ==> r == Ok::<(usize, InstructionType), NomError>(((pos + 1 + n) as usize, InstructionType::F64x2Trunc)),
        code == 123 ==> r == Ok::<(usize, InstructionType), NomError>(((pos + 1 + n) as usize, InstructionType::I8x16AvgrU)),
        code == 128 ==> r == Ok::<(usize, InstructionType), NomError>(((pos + 1 + n) as usize, InstructionType::I16x8Abs)),
        code == 129 ==> r == Ok::<(usize, InstructionType), NomError>(((pos + 1 + n) as usize, InstructionType::I16x8Neg)),
        code == 130 ==> r == Ok::<(usize, InstructionType), NomError>(((pos + 1 + n) as usize, InstructionType::I16x8Q15MulrSatS)),
        code == 131 ==> r == Ok::<(usize, InstructionType), NomError>(((pos + 1 + n) as usize, InstructionType::I16x8AllTrue)),
{
}

/// The vector instructions after the prefix 0xFD with sub-opcodes 132 to 195
/// and no operands parse as the WebAssembly opcode table gives them: the prefix, the
/// sub-opcode, and the instruction that the table names for it.
#[verifier::rlimit(80)]
pub proof fn law_vector_opcode_table_3(s: Seq<u8>, pos: int, r: PResult<InstructionType>, n: nat, code: u32)
    requires
        0 <= pos < s.len(),
        s[pos] == 0xfd,
        u32_at(s, pos + 1) == Some((n, code)),
        instr_parse_post(s, pos, r),
    ensures
        code == 132 ==> r == Ok::<(usize, InstructionType), NomError>(((pos + 1 + n) as usize, InstructionType::I16x8Bitmask)),
        code == 133 ==> r == Ok::<(usize, InstructionType), NomError>(((pos + 1 + n) as usize, InstructionType::I16x8NarrowI32x4S)),
        code == 134 ==> r == Ok::<(usize, InstructionType), NomError>(((pos + 1 + n) as usize, InstructionType::I16x8NarrowI32x4U)),
        code == 135 ==> r == Ok::<(usize, InstructionType), NomError>(((pos + 1 + n) as usize, InstructionType::I16x8ExtendLowI8x16S)),
        code == 137 ==> r == Ok::<(usize, InstructionType), NomError>(((pos + 1 + n) as usize, InstructionType::I16x8ExtendLowI8x16U)),
        code == 139 ==> r == Ok::<(usize, InstructionType), NomError>(((pos + 1 + n) as usize, InstructionType::I16x8Shl)),
        code == 140 ==> r == Ok::<(usize, InstructionType), NomError>(((pos + 1 + n) as usize, InstructionType::I16x8ShrS)),
        code == 141 ==> r == Ok::<(usize, InstructionType), NomError>(((pos + 1 + n) as usize, InstructionType::I16x8ShrU)),
        code == 142 ==> r == Ok::<(usize, InstructionType), NomError>(((pos + 1 + n) as usize, InstructionType::I16x8Add)),
        code == 143 ==> r == Ok::<(usize, InstructionType), NomError>(((pos + 1 + n) as usize, InstructionType::I16x8AddSatS)),
        code == 144 ==> r == Ok::<(usize, InstructionType), NomError>(((pos + 1 + n) as usize, InstructionType::I16x8AddSatU)),
        code == 145 ==> r == Ok::<(usize, InstructionType), NomError>(((pos + 1 + n) as usize, InstructionType::I16x8Sub)),
        code == 146 ==> r == Ok::<(usize, InstructionType), NomError>(((pos + 1 + n) as usize, InstructionType::I16x8SubSatS)),
        code == 147 ==> r == Ok::<(usize, InstructionType), NomError>(((pos + 1 + n) as usize, InstructionType::I16x8SubSatU)),
        code == 148 ==> r == Ok::<(usize, InstructionType), NomError>(((pos + 1 + n) as usize, InstructionType::F64x2Nearest)),
        code == 149 ==> r == Ok::<(usize, InstructionType), NomError>(((pos + 1 + n) as usize, InstructionType::I16x8Mul)),
        code == 150 ==> r == Ok::<(usize, InstructionType), NomError>(((pos + 1 + n) as usize, InstructionType::I16x8MinS)),
        code == 151 ==> r == Ok::<(usize, InstructionType), NomError>(((pos + 1 + n) as usize, InstructionType::I16x8MinU)),
        code == 152 ==> r == Ok::<(usize, InstructionType), NomError>(((pos + 1 + n) as usize, InstructionType::I16x8MaxS)),
        code == 153 ==> r == Ok::<(usize, InstructionType), NomError>(((pos + 1 + n) as usize, InstructionType::I16x8MaxU)),
        code == 155 ==> r == Ok::<(usize, InstructionType), NomError>(((pos + 1 + n) as usize, InstructionType::I16x8AvgrU)),
        code == 156 ==> r == Ok::<(usize, InstructionType), NomError>(((pos + 1 + n) as usize, InstructionType::I16x8ExtmulLowI8x16S)),
        code == 158 ==> r == Ok::<(usize, InstructionType), NomError>(((pos + 1 + n) as usize, InstructionType::I16x8ExtmulLowI8x16U)),
        code == 160 ==> r == Ok::<(usize, InstructionType), NomError>(((pos + 1 + n) as usize, InstructionType::I32x4Abs)),
        code == 161 ==> r == Ok::<(usize, InstructionType), NomError>(((pos + 1 + n) as usize, InstructionType::I32x4Neg)),
        code == 163 ==> r == Ok::<(usize, InstructionType), NomError>(((pos + 1 + n) as usize, InstructionType::I32x4AllTrue)),
        code == 164 ==> r == Ok::<(usize, InstructionType), NomError>(((pos + 1 + n) as usize, InstructionType::I32x4Bitmask)),
        code == 167 ==> r == Ok::<(usize, InstructionType), NomError>(((pos + 1 + n) as usize, InstructionType::I32x4ExtendLowI16x8S)),
        code == 169 ==> r == Ok::<(usize, InstructionType), NomError>(((pos + 1 + n) as usize, InstructionType::I32x4ExtendLowI16x8U)),
        code == 171 ==> r == Ok::<(usize, InstructionType), NomError>(((pos + 1 + n) as usize, InstructionType::I32x4Shl)),
        code == 172 ==> r == Ok::<(usize, InstructionType), NomError>(((pos + 1 + n) as usize, InstructionType::I32x4ShrS)),
        code == 173 ==> r == Ok::<(usize, InstructionType), NomError>(((pos + 1 + n) as usize, InstructionType::I32x4ShrU)),
        code == 174 ==> r == Ok::<(usize, InstructionType), NomError>(((pos + 1 + n) as usize, InstructionType::I32x4Add)),
        code == 177 ==> r == Ok::<(usize, InstructionType), NomError>(((pos + 1 + n) as usize, InstructionType::I32x4Sub)),
        code == 181 ==> r == Ok::<(usize, InstructionType), NomError>(((pos + 1 + n) as usize, InstructionType::I32x4Mul)),
        code == 182 ==> r == Ok::<(usize, InstructionType), NomError>(((pos + 1 + n) as usize, InstructionType::I32x4MinS)),
        code == 183 ==> r == Ok::<(usize, InstructionType), NomError>(((pos + 1 + n) as usize, InstructionType::I32x4MinU)),
        code == 184 ==> r == Ok::<(usize, InstructionType), NomError>(((pos + 1 + n) as usize, InstructionType::I32x4MaxS)),
        code == 185 ==> r == Ok::<(usize, InstructionType), NomError>(((pos + 1 + n) as usize, InstructionType::I32x4MaxU)),
        code == 186 ==> r == Ok::<(usize, InstructionType), NomError>(((pos + 1 + n) as usize, InstructionType::I32x4DotI16x8S)),
        code == 188 ==> r == Ok::<(usize, InstructionType), NomError>(((pos + 1 + n) as usize, InstructionType::I32x4ExtmulLowI16x8S)),
        code == 190 ==> r == Ok::<(usize, InstructionType), NomError>(((pos + 1 + n) as usize, InstructionType::I32x4ExtmulLowI16x8U)),
        code == 192 ==> r == Ok::<(usize, InstructionType), NomError>(((pos + 1 + n) as usize, InstructionType::I64x2Abs)),
        code == 193 ==> r == Ok::<(usize, InstructionType), NomError>(((pos + 1 + n) as usize, InstructionType::I64x2Neg)),
        code == 195 ==> r == Ok::<(usize, InstructionType), NomError>(((pos + 1 + n) as usize, InstructionType::I64x2AllTrue)),
{
}

/// The vector instructions after the prefix 0xFD with sub-opcodes 196 to 251
/// and no operands parse as the WebAssembly opcode table gives them: the prefix, the
/// sub-opcode, and the instruction that the table names for it.
#[verifier::rlimit(80)]
pub proof fn law_vector_opcode_table_4(s: Seq<u8>, pos: int, r: PResult<InstructionType>, n: nat, code: u32)
    requires
        0 <= pos < s.len(),
        s[pos] == 0xfd,
        u32_at(s, pos + 1) == Some((n, code)),
        instr_parse_post(s, pos, r),
    ensures
        code == 196 ==> r == Ok::<(usize, InstructionType), NomError>(((pos + 1 + n) as usize, InstructionType::I64x2Bitmask)),
        code == 199 ==> r == Ok::<(usize, InstructionType), NomError>(((pos + 1 + n) as usize, InstructionType::I64x2ExtendLowI32x4S)),
        code == 201 ==> r == Ok::<(usize, InstructionType), NomError>(((pos + 1 + n) as usize, InstructionType::I64x2ExtendLowI32x4U)),
        code == 203 ==> r == Ok::<(usize, InstructionType), NomError>(((pos + 1 + n) as usize, InstructionType::I64x2Shl)),
        code == 204 ==> r == Ok::<(usize, InstructionType), NomError>(((pos + 1 + n) as usize, InstructionType::I64x2ShrS)),
        code == 205 ==> r == Ok::<(usize, InstructionType), NomError>(((pos + 1 + n) as usize, InstructionType::I64x2ShrU)),
        code == 206 ==> r == Ok::<(usize, InstructionType), NomError>(((pos + 1 + n) as usize, InstructionType::I64x2Add)),
        code == 209 ==> r == Ok::<(usize, InstructionType), NomError>(((pos + 1 + n) as usize, InstructionType::I64x2Sub)),
        code == 213 ==> r == Ok::<(usize, InstructionType), NomError>(((pos + 1 + n) as usize, InstructionType::I64x2Mul)),
        code == 214 ==> r == Ok::<(usize, InstructionType), NomError>(((pos + 1 + n) as usize, InstructionType::I64x2Eq)),
        code == 215 ==> r == Ok::<(usize, InstructionType), NomError>(((pos + 1 + n) as usize, InstructionType::I64x2Ne)),
        code == 216 ==> r == Ok::<(usize, InstructionType), NomError>(((pos + 1 + n) as usize, InstructionType::I64x2LtS)),
        code == 217 ==> r == Ok::<(usize, InstructionType), NomError>(((pos + 1 + n) as usize, InstructionType::I64x2GtS)),
        code == 218 ==> r == Ok::<(usize, InstructionType), NomError>(((pos + 1 + n) as usize, InstructionType::I64x2LeS)),
        code == 219 ==> r == Ok::<(usize, InstructionType), NomError>(((pos + 1 + n) as usize, InstructionType::I64x2GeS)),
        code == 220 ==> r == Ok::<(usize, InstructionType), NomError>(((pos + 1 + n) as usize, InstructionType::I64x2ExtmulLowI32x4S)),
        code == 222 ==> r == Ok::<(usize, InstructionType), NomError>(((pos + 1 + n) as usize, InstructionType::I64x2ExtmulLowI32x4U)),
        code == 224 ==> r == Ok::<(usize, InstructionType), NomError>(((pos + 1 + n) as usize, InstructionType::F32x4Abs)),
        code == 225 ==> r == Ok::<(usize, InstructionType), NomError>(((pos + 1 + n) as usize, InstructionType::F32x4Neg)),
        code == 227 ==> r == Ok::<(usize, InstructionType), NomError>(((pos + 1 + n) as usize, InstructionType::F32x4Sqrt)),
        code == 228 ==> r == Ok::<(usize, InstructionType), NomError>(((pos + 1 + n) as usize, InstructionType::F32x4Add)),
        code == 229 ==> r == Ok::<(usize, InstructionType), NomError>(((pos + 1 + n) as usize, InstructionType::F32x4Sub)),
        code == 230 ==> r == Ok::<(usize, InstructionType), NomError>(((pos + 1 + n) as usize, InstructionType::F32x4Mul)),
        code == 231 ==> r == Ok::<(usize, InstructionType), NomError>(((pos + 1 + n) as usize, InstructionType::F32x4Div)),
        code == 232 ==> r == Ok::<(usize, InstructionType), NomError>(((pos + 1 + n) as usize, InstructionType::F32x4Min)),
        code == 233 ==> r == Ok::<(usize, InstructionType), NomError>(((pos + 1 + n) as usize, InstructionType::F32x4Max)),
        code == 234 ==> r == Ok::<(usize, InstructionType), NomError>(((pos + 1 + n) as usize, InstructionType::F32x4Pmin)),
        code == 235 ==> r == Ok::<(usize, InstructionType), NomError>(((pos + 1 + n) as usize, InstructionType::F32x4Pmax)),
        code == 236 ==> r == Ok::<(usize, InstructionType), NomError>(((pos + 1 + n) as usize, InstructionType::F64x2Abs)),
        code == 237 ==> r == Ok::<(usize, InstructionType), NomError>(((pos + 1 + n) as usize, InstructionType::F64x2Neg)),
        code == 239 ==> r == Ok::<(usize, InstructionType), NomError>(((pos + 1 + n) as usize, InstructionType::F64x2Sqrt)),
        code == 240 ==> r == Ok::<(usize, InstructionType), NomError>(((pos + 1 + n) as usize, InstructionType::F64x2Add)),
        code == 241 ==> r == Ok::<(usize, InstructionType), NomError>(((pos + 1 + n) as usize, InstructionType::F64x2Sub)),
        code == 242 ==> r == Ok::<(usize, InstructionType), NomError>(((pos + 1 + n) as usize, InstructionType::F64x2Mul)),
        code == 243 ==> r == Ok::<(usize, InstructionType), NomError>(((pos + 1 + n) as usize, InstructionType::F64x2Div)),
        code == 244 ==> r == Ok::<(usize, InstructionType), NomError>(((pos + 1 + n) as usize, InstructionType::F64x2Min)),
        code == 245 ==> r == Ok::<(usize, InstructionType), NomError>(((pos + 1 + n) as usize, InstructionType::F64x2Max)),
        code == 246 ==> r == Ok::<(usize, InstructionType), NomError>(((pos + 1 + n) as usize, InstructionType::F64x2Pmin)),
        code == 247 ==> r == Ok::<(usize, InstructionType), NomError>(((pos + 1 + n) as usize, InstructionType::F64x2Pmax)),
        code == 248 ==> r == Ok::<(usize, InstructionType), NomError>(((pos + 1 + n) as usize, InstructionType::I32x4TruncSatF32x4S)),
        code == 249 ==> r == Ok::<(usize, InstructionType), NomError>(((pos + 1 + n) as usize, InstructionType::I32x4TruncSatF32x4U)),
        code == 250 ==> r == Ok::<(usize, InstructionType), NomError>(((pos + 1 + n) as usize, InstructionType::F32x4ConvertI32x4S)),
        code == 251 ==> r == Ok::<(usize, InstructionType), NomError>(((pos + 1 + n) as usize, InstructionType::F32x4ConvertI32x4U)),
{
}


/// The instructions with one index as operand parse as the WebAssembly opcode table
/// gives them: the opcode byte, the index as an unsigned LEB128 number, and the
/// instruction that the table names for the opcode, holding that index.
pub proof fn law_index_opcode_table(s: Seq<u8>, pos: int, r: PResult<InstructionType>, m: nat, v: u32)
    requires
        0 <= pos < s.len(),
        u32_at(s, pos + 1) == Some((m, v)),
        instr_parse_post(s, pos, r),
    ensures
        s[pos] == 0x0c ==> r == Ok::<(usize, InstructionType), NomError>(((pos + 1 + m) as usize, InstructionType::Br(LabelIdx(U32Type(v))))),
        s[pos] == 0x0d ==> r == Ok::<(usize, InstructionType), NomError>(((pos + 1 + m) as usize, InstructionType::BrIf(LabelIdx(U32Type(v))))),
        s[pos] == 0x10 ==> r == Ok::<(usize, InstructionType), NomError>(((pos + 1 + m) as usize, InstructionType::Call(FuncIdx(U32Type(v))))),
        s[pos] == 0x20 ==> r == Ok::<(usize, InstructionType), NomError>(((pos + 1 + m) as usize, InstructionType::LocalGet(LocalIdx(U32Type(v))))),
        s[pos] == 0x21 ==> r == Ok::<(usize, InstructionType), NomError>(((pos + 1 + m) as usize, InstructionType::LocalSet(LocalIdx(U32Type(v))))),
        s[pos] == 0x22 ==> r == Ok::<(usize, InstructionType), NomError>(((pos + 1 + m) as usize, InstructionType::LocalTee(LocalIdx(U32Type(v))))),
        s[pos] == 0x23 ==> r == Ok::<(usize, InstructionType), NomError>(((pos + 1 + m) as usize, InstructionType::GlobalGet(GlobalIdx(U32Type(v))))),
        s[pos] == 0x24 ==> r == Ok::<(usize, InstructionType), NomError>(((pos + 1 + m) as usize, InstructionType::GlobalSet(GlobalIdx(U32Type(v))))),
        s[pos] == 0x25 ==> r == Ok::<(usize, InstructionType), NomError>(((pos + 1 + m) as usize, InstructionType::TableGet(TableIdx(U32Type(v))))),
        s[pos] == 0x26 ==> r == Ok::<(usize, InstructionType), NomError>(((pos + 1 + m) as usize, InstructionType::TableSet(TableIdx(U32Type(v))))),
        s[pos] == 0xd2 ==> r == Ok::<(usize, InstructionType), NomError>(((pos + 1 + m) as usize, InstructionType::RefFunc(FuncIdx(U32Type(v))))),
{
}

/// The loads and stores parse as the WebAssembly opcode table gives them: the opcode
/// byte, then two unsigned LEB128 numbers that make the memory argument in the order
/// read, and the instruction that the table names for the opcode.
pub proof fn law_memory_opcode_table(s: Seq<u8>, pos: int, r: PResult<InstructionType>, m: nat, a: u32, b: u32)
    requires
        0 <= pos < s.len(),
        two_u32_at(s, pos + 1) == Some((m, a, b)),
        instr_parse_post(s, pos, r),
    ensures
        s[pos] == 0x28 ==> r == Ok::<(usize, InstructionType), NomError>(((pos + 1 + m) as usize, InstructionType::I32Load(MemArg(U32Type(a), U32Type(b))))),
        s[pos] == 0x29 ==> r == Ok::<(usize, InstructionType), NomError>(((pos + 1 + m) as usize, InstructionType::I64Load(MemArg(U32Type(a), U32Type(b))))),
        s[pos] == 0x2a ==> r == Ok::<(usize, InstructionType), NomError>(((pos + 1 + m) as usize, InstructionType::F32Load(MemArg(U32Type(a), U32Type(b))))),
        s[pos] == 0x2b ==> r == Ok::<(usize, InstructionType), NomError>(((pos + 1 + m) as usize, InstructionType::F64Load(MemArg(U32Type(a), U32Type(b))))),
        s[pos] == 0x2c ==> r == Ok::<(usize, InstructionType), NomError>(((pos + 1 + m) as usize, InstructionType::I32Load8S(MemArg(U32Type(a), U32Type(b))))),
        s[pos] == 0x2d ==> r == Ok::<(usize, InstructionType), NomError>(((pos + 1 + m) as usize, InstructionType::I32Load8U(MemArg(U32Type(a), U32Type(b))))),
        s[pos] == 0x2e ==> r == Ok::<(usize, InstructionType), NomError>(((pos + 1 + m) as usize, InstructionType::I32Load16S(MemArg(U32Type(a), U32Type(b))))),
        s[pos] == 0x2f ==> r == Ok::<(usize, InstructionType), NomError>(((pos + 1 + m) as usize, InstructionType::I32Load16U(MemArg(U32Type(a), U32Type(b))))),
        s[pos] == 0x30 ==> r == Ok::<(usize, InstructionType), NomError>(((pos + 1 + m) as usize, InstructionType::I64Load8S(MemArg(U32Type(a), U32Type(b))))),
        s[pos] == 0x31 ==> r == Ok::<(usize, InstructionType), NomError>(((pos + 1 + m) as usize, InstructionType::I64Load8U(MemArg(U32Type(a), U32Type(b))))),
        s[pos] == 0x32 ==> r == Ok::<(usize, InstructionType), NomError>(((pos + 1 + m) as usize, InstructionType::I64Load16S(MemArg(U32Type(a), U32Type(b))))),
        s[pos] == 0x33 ==> r == Ok::<(usize, InstructionType), NomError>(((pos + 1 + m) as usize, InstructionType::I64Load16U(MemArg(U32Type(a), U32Type(b))))),
        s[pos] == 0x34 ==> r == Ok::<(usize, InstructionType), NomError>(((pos + 1 + m) as usize, InstructionType::I64Load32S(MemArg(U32Type(a), U32Type(b))))),
        s[pos] == 0x35 ==> r == Ok::<(usize, InstructionType), NomError>(((pos + 1 + m) as usize, InstructionType::I64Load32U(MemArg(U32Type(a), U32Type(b))))),
        s[pos] == 0x36 ==> r == Ok::<(usize, InstructionType), NomError>(((pos + 1 + m) as usize, InstructionType::I32Store(MemArg(U32Type(a), U32Type(b))))),
        s[pos] == 0x37 ==> r == Ok::<(usize, InstructionType), NomError>(((pos + 1 + m) as usize, InstructionType::I64Store(MemArg(U32Type(a), U32Type(b))))),
        s[pos] == 0x38 ==> r == Ok::<(usize, InstructionType), NomError>(((pos + 1 + m) as usize, InstructionType::F32Store(MemArg(U32Type(a), U32Type(b))))),
        s[pos] == 0x39 ==> r == Ok::<(usize, InstructionType), NomError>(((pos + 1 + m) as usize, InstructionType::F64Store(MemArg(U32Type(a), U32Type(b))))),
        s[pos] == 0x3a ==> r == Ok::<(usize, InstructionType), NomError>(((pos + 1 + m) as usize, InstructionType::I32Store8(MemArg(U32Type(a), U32Type(b))))),
        s[pos] == 0x3b ==> r == Ok::<(usize, InstructionType), NomError>(((pos + 1 + m) as usize, InstructionType::I32Store16(MemArg(U32Type(a), U32Type(b))))),
        s[pos] == 0x3c ==> r == Ok::<(usize, InstructionType), NomError>(((pos + 1 + m) as usize, InstructionType::I64Store8(MemArg(U32Type(a), U32Type(b))))),
        s[pos] == 0x3d ==> r == Ok::<(usize, InstructionType), NomError>(((pos + 1 + m) as usize, InstructionType::I64Store16(MemArg(U32Type(a), U32Type(b))))),
        s[pos] == 0x3e ==> r == Ok::<(usize, InstructionType), NomError>(((pos + 1 + m) as usize, InstructionType::I64Store32(MemArg(U32Type(a), U32Type(b))))),
{
}


/// The instructions after the prefix 0xFC with index operands parse as the WebAssembly
/// opcode table gives them: the prefix, the sub-opcode, then one index, or two for
/// `table.init` and `table.copy` in the order read, and the instruction that the table
/// names for the sub-opcode, holding them.
pub proof fn law_other_index_opcode_table(
    s: Seq<u8>,
    pos: int,
    r: PResult<InstructionType>,
    n: nat,
    code: u32,
    m: nat,
    x: u32,
    y: u32,
)
    requires
        0 <= pos < s.len(),
        s[pos] == 0xfc,
        u32_at(s, pos + 1) == Some((n, code)),
        instr_parse_post(s, pos, r),
    ensures
        code == 8 && u32_at(s, pos + 1 + n) == Some((m, x)) ==> r == Ok::<(usize, InstructionType), NomError>(((pos + 1 + n + m) as usize, InstructionType::MemoryInit(DataIdx(U32Type(x))))),
        code == 9 && u32_at(s, pos + 1 + n) == Some((m, x)) ==> r == Ok::<(usize, InstructionType), NomError>(((pos + 1 + n + m) as usize, InstructionType::DataDrop(DataIdx(U32Type(x))))),
        code == 12 && two_u32_at(s, pos + 1 + n) == Some((m, x, y)) ==> r == Ok::<(usize, InstructionType), NomError>(((pos + 1 + n + m) as usize, InstructionType::TableInit(TableInitArg(TableIdx(U32Type(x)), ElemIdx(U32Type(y)))))),
        code == 13 && u32_at(s, pos + 1 + n) == Some((m, x)) ==> r == Ok::<(usize, InstructionType), NomError>(((pos + 1 + n + m) as usize, InstructionType::ElemDrop(ElemIdx(U32Type(x))))),
        code == 14 && two_u32_at(s, pos + 1 + n) == Some((m, x, y)) ==> r == Ok::<(usize, InstructionType), NomError>(((pos + 1 + n + m) as usize, InstructionType::TableCopy(TableCopyArg(TableIdx(U32Type(x)), TableIdx(U32Type(y)))))),
        code == 15 && u32_at(s, pos + 1 + n) == Some((m, x)) ==> r == Ok::<(usize, InstructionType), NomError>(((pos + 1 + n + m) as usize, InstructionType::TableGrow(TableIdx(U32Type(x))))),
        code == 16 && u32_at(s, pos + 1 + n) == Some((m, x)) ==> r == Ok::<(usize, InstructionType), NomError>(((pos + 1 + n + m) as usize, InstructionType::TableSize(TableIdx(U32Type(x))))),
        code == 17 && u32_at(s, pos + 1 + n) == Some((m, x)) ==> r == Ok::<(usize, InstructionType), NomError>(((pos + 1 + n + m) as usize, InstructionType::TableFill(TableIdx(U32Type(x))))),
{
}

/// The vector instructions after the prefix 0xFD with a memory argument, a lane index,
/// or both parse as the WebAssembly opcode table gives them: the prefix, the
/// sub-opcode, then the memory argument as two numbers in the order read and the lane
/// index as one byte, and the instruction that the table names for the sub-opcode,
/// holding them.
pub proof fn law_vector_operand_opcode_table(
    s: Seq<u8>,
    pos: int,
    r: PResult<InstructionType>,
    n: nat,
    code: u32,
    m: nat,
    x: u32,
    y: u32,
)
    requires
        0 <= pos < s.len(),
        s[pos] == 0xfd,
        u32_at(s, pos + 1) == Some((n, code)),
        instr_parse_post(s, pos, r),
    ensures
        code == 0 && two_u32_at(s, pos + 1 + n) == Some((m, x, y)) ==> r == Ok::<(usize, InstructionType), NomError>(((pos + 1 + n + m) as usize, InstructionType::V128Load(MemArg(U32Type(x), U32Type(y))))),
        code == 1 && two_u32_at(s, pos + 1 + n) == Some((m, x, y)) ==> r == Ok::<(usize, InstructionType), NomError>(((pos + 1 + n + m) as usize, InstructionType::V128Load8x8S(MemArg(U32Type(x), U32Type(y))))),
        code == 2 && two_u32_at(s, pos + 1 + n) == Some((m, x, y)) ==> r == Ok::<(usize, InstructionType), NomError>(((pos + 1 + n + m) as usize, InstructionType::V128Load8x8U(MemArg(U32Type(x), U32Type(y))))),
        code == 3 && two_u32_at(s, pos + 1 + n) == Some((m, x, y)) ==> r == Ok::<(usize, InstructionType), NomError>(((pos + 1 + n + m) as usize, InstructionType::V128Load16x4S(MemArg(U32Type(x), U32Type(y))))),
        code == 4 && two_u32_at(s, pos + 1 + n) == Some((m, x, y)) ==> r == Ok::<(usize, InstructionType), NomError>(((pos + 1 + n + m) as usize, InstructionType::V128Load16x4U(MemArg(U32Type(x), U32Type(y))))),
        code == 5 && two_u32_at(s, pos + 1 + n) == Some((m, x, y)) ==> r == Ok::<(usize, InstructionType), NomError>(((pos + 1 + n + m) as usize, InstructionType::V128Load32x2S(MemArg(U32Type(x), U32Type(y))))),
        code == 6 && two_u32_at(s, pos + 1 + n) == Some((m, x, y)) ==> r == Ok::<(usize, InstructionType), NomError>(((pos + 1 + n + m) as usize, InstructionType::V128Load32x2U(MemArg(U32Type(x), U32Type(y))))),
        code == 7 && two_u32_at(s, pos + 1 + n) == Some((m, x, y)) ==> r == Ok::<(usize, InstructionType), NomError>(((pos + 1 + n + m) as usize, InstructionType::V128Load8Splat(MemArg(U32Type(x), U32Type(y))))),
        code == 8 && two_u32_at(s, pos + 1 + n) == Some((m, x, y)) ==> r == Ok::<(usize, InstructionType), NomError>(((pos + 1 + n + m) as usize, InstructionType::V128Load16Splat(MemArg(U32Type(x), U32Type(y))))),
        code == 9 && two_u32_at(s, pos + 1 + n) == Some((m, x, y)) ==> r == Ok::<(usize, InstructionType), NomError>(((pos + 1 + n + m) as usize, InstructionType::V128Load32Splat(MemArg(U32Type(x), U32Type(y))))),
        code == 10 && two_u32_at(s, pos + 1 + n) == Some((m, x, y)) ==> r == Ok::<(usize, InstructionType), NomError>(((pos + 1 + n + m) as usize, InstructionType::V128Load64Splat(MemArg(U32Type(x), U32Type(y))))),
        code == 11 && two_u32_at(s, pos + 1 + n) == Some((m, x, y)) ==> r == Ok::<(usize, InstructionType), NomError>(((pos + 1 + n + m) as usize, InstructionType::V128Store(MemArg(U32Type(x), U32Type(y))))),
        code == 92 && two_u32_at(s, pos + 1 + n) == Some((m, x, y)) ==> r == Ok::<(usize, InstructionType), NomError>(((pos + 1 + n + m) as usize, InstructionType::V128Load32Zero(MemArg(U32Type(x), U32Type(y))))),
        code == 93 && two_u32_at(s, pos + 1 + n) == Some((m, x, y)) ==> r == Ok::<(usize, InstructionType), NomError>(((pos + 1 + n + m) as usize, InstructionType::V128Load64Zero(MemArg(U32Type(x), U32Type(y))))),
        code == 84 && two_u32_at(s, pos + 1 + n) == Some((m, x, y)) && pos + 1 + n + m < s.len() ==> r == Ok::<(usize, InstructionType), NomError>(((pos + 2 + n + m) as usize, InstructionType::V128Load8Lane(MemArgLane(MemArg(U32Type(x), U32Type(y)), LaneIdx(s[pos + 1 + n + m]))))),
        code == 85 && two_u32_at(s, pos + 1 + n) == Some((m, x, y)) && pos + 1 + n + m < s.len() ==> r == Ok::<(usize, InstructionType), NomError>(((pos + 2 + n + m) as usize, InstructionType::V128Load16Lane(MemArgLane(MemArg(U32Type(x), U32Type(y)), LaneIdx(s[pos + 1 + n + m]))))),
        code == 86 && two_u32_at(s, pos + 1 + n) == Some((m, x, y)) && pos + 1 + n + m < s.len() ==> r == Ok::<(usize, InstructionType), NomError>(((pos + 2 + n + m) as usize, InstructionType::V128Load32Lane(MemArgLane(MemArg(U32Type(x), U32Type(y)), LaneIdx(s[pos + 1 + n + m]))))),
        code == 87 && two_u32_at(s, pos + 1 + n) == Some((m, x, y)) && pos + 1 + n + m < s.len() ==> r == Ok::<(usize, InstructionType), NomError>(((pos + 2 + n + m) as usize, InstructionType::V128Load64Lane(MemArgLane(MemArg(U32Type(x), U32Type(y)), LaneIdx(s[pos + 1 + n + m]))))),
        code == 88 && two_u32_at(s, pos + 1 + n) == Some((m, x, y)) && pos + 1 + n + m < s.len() ==> r == Ok::<(usize, InstructionType), NomError>(((pos + 2 + n + m) as usize, InstructionType::V128Store8Lane(MemArgLane(MemArg(U32Type(x), U32Type(y)), LaneIdx(s[pos + 1 + n + m]))))),
        code == 89 && two_u32_at(s, pos + 1 + n) == Some((m, x, y)) && pos + 1 + n + m < s.len() ==> r == Ok::<(usize, InstructionType), NomError>(((pos + 2 + n + m) as usize, InstructionType::V128Store16Lane(MemArgLane(MemArg(U32Type(x), U32Type(y)), LaneIdx(s[pos + 1 + n + m]))))),
        code == 90 && two_u32_at(s, pos + 1 + n) == Some((m, x, y)) && pos + 1 + n + m < s.len() ==> r == Ok::<(usize, InstructionType), NomError>(((pos + 2 + n + m) as usize, InstructionType::V128Store32Lane(MemArgLane(MemArg(U32Type(x), U32Type(y)), LaneIdx(s[pos + 1 + n + m]))))),
        code == 91 && two_u32_at(s, pos + 1 + n) == Some((m, x, y)) && pos + 1 + n + m < s.len() ==> r == Ok::<(usize, InstructionType), NomError>(((pos + 2 + n + m) as usize, InstructionType::V128Store64Lane(MemArgLane(MemArg(U32Type(x), U32Type(y)), LaneIdx(s[pos + 1 + n + m]))))),
        code == 21 && pos + 1 + n < s.len() ==> r == Ok::<(usize, InstructionType), NomError>(((pos + 2 + n) as usize, InstructionType::I8x16ExtractLaneS(LaneIdx(s[pos + 1 + n])))),
        code == 22 && pos + 1 + n < s.len() ==> r == Ok::<(usize, InstructionType), NomError>(((pos + 2 + n) as usize, InstructionType::I8x16ExtractLaneU(LaneIdx(s[pos + 1 + n])))),
        code == 23 && pos + 1 + n < s.len() ==> r == Ok::<(usize, InstructionType), NomError>(((pos + 2 + n) as usize, InstructionType::I8x16ReplaceLane(LaneIdx(s[pos + 1 + n])))),
        code == 24 && pos + 1 + n < s.len() ==> r == Ok::<(usize, InstructionType), NomError>(((pos + 2 + n) as usize, InstructionType::I16x8ExtractLaneS(LaneIdx(s[pos + 1 + n])))),
        code == 25 && pos + 1 + n < s.len() ==> r == Ok::<(usize, InstructionType), NomError>(((pos + 2 + n) as usize, InstructionType::I16x8ExtractLaneU(LaneIdx(s[pos + 1 + n])))),
        code == 26 && pos + 1 + n < s.len() ==> r == Ok::<(usize, InstructionType), NomError>(((pos + 2 + n) as usize, InstructionType::I16x8ReplaceLane(LaneIdx(s[pos + 1 + n])))),
        code == 27 && pos + 1 + n < s.len() ==> r == Ok::<(usize, InstructionType), NomError>(((pos + 2 + n) as usize, InstructionType::I32x4ExtractLane(LaneIdx(s[pos + 1 + n])))),
        code == 28 && pos + 1 + n < s.len() ==> r == Ok::<(usize, InstructionType), NomError>(((pos + 2 + n) as usize, InstructionType::I32x4ReplaceLane(LaneIdx(s[pos + 1 + n])))),
        code == 29 && pos + 1 + n < s.len() ==> r == Ok::<(usize, InstructionType), NomError>(((pos + 2 + n) as usize, InstructionType::I64x2ExtractLane(LaneIdx(s[pos + 1 + n])))),
        code == 30 && pos + 1 + n < s.len() ==> r == Ok::<(usize, InstructionType), NomError>(((pos + 2 + n) as usize, InstructionType::I64x2ReplaceLane(LaneIdx(s[pos + 1 + n])))),
        code == 31 && pos + 1 + n < s.len() ==> r == Ok::<(usize, InstructionType), NomError>(((pos + 2 + n) as usize, InstructionType::F32x4ExtractLane(LaneIdx(s[pos + 1 + n])))),
        code == 32 && pos + 1 + n < s.len() ==> r == Ok::<(usize, InstructionType), NomError>(((pos + 2 + n) as usize, InstructionType::F32x4ReplaceLane(LaneIdx(s[pos + 1 + n])))),
        code == 33 && pos + 1 + n < s.len() ==> r == Ok::<(usize, InstructionType), NomError>(((pos + 2 + n) as usize, InstructionType::F64x2ExtractLane(LaneIdx(s[pos + 1 + n])))),
        code == 34 && pos + 1 + n < s.len() ==> r == Ok::<(usize, InstructionType), NomError>(((pos + 2 + n) as usize, InstructionType::F64x2ReplaceLane(LaneIdx(s[pos + 1 + n])))),
{
}

} // verus!
