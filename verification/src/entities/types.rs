use vstd::prelude::*;

use crate::entities::instructions::ExpressionType;

verus! {

pub type Byte = u8;

#[derive(Debug, Clone, Copy, PartialEq, Eq, Structural)]
pub enum ValType {
    NumType(NumType),
    VecType(VecType),
    RefType(RefType),
}

#[derive(Debug, Clone, PartialEq)]
pub struct ResultType(pub Vec<ValType>);

#[derive(Debug, Clone, Copy, PartialEq, Eq, Structural)]
pub enum VecType {
    V128,
}

#[derive(Debug, Clone, Copy, PartialEq, Eq, Structural)]
pub enum NumType {
    I32,
    I64,
    F32,
    F64,
}

#[derive(Debug, Clone, Copy, PartialEq, Eq, Structural)]
pub enum RefType {
    FuncRef,
    ExternRef,
}

impl RefType {
    /// Every reference type, function references first.
    pub fn get_all() -> (r: Vec<Self>)
        ensures
            r@ == seq![RefType::FuncRef, RefType::ExternRef],
    {
        vec![RefType::FuncRef, RefType::ExternRef]
    }
}

#[derive(Debug, Clone, PartialEq)]
pub struct FuncType {
    pub parameters: Vec<ValType>,
    pub results: Vec<ValType>,
}

impl FuncType {
    /// A copy of the function type.
    pub fn copy_type(&self) -> (r: FuncType)
        ensures
            r.parameters@ == self.parameters@,
            r.results@ == self.results@,
    {
        FuncType { parameters: self.parameters.clone(), results: self.results.clone() }
    }
}

/// The byte that introduces a function type in the type section.
pub const ENCODE_BYTE_FUNC: Byte = 0x60;

#[derive(Debug)]
pub struct Vector<T> {
    pub length: U32Type,
    pub elements: Vec<T>,
}

#[derive(Debug, Clone, PartialEq)]
pub struct NameType(pub String);

#[derive(Debug, Clone, Copy, PartialEq, Eq, Structural)]
pub struct TableType {
    pub limits: LimitsType,
    pub element_ref_type: RefType,
}

#[derive(Debug, Clone, Copy, PartialEq, Eq, Structural)]
pub struct LimitsType {
    pub min: U32Type,
    pub max: Option<U32Type>,
}

#[derive(Debug, Clone, Copy, PartialEq, Eq, Structural)]
pub struct MemType {
    pub limits: LimitsType,
}

#[derive(Debug, Clone, Copy, PartialEq, Eq, Structural)]
pub struct GlobalType {
    pub mut_type: MutType,
    pub val_type: ValType,
}

#[derive(Debug, Clone, Copy, PartialEq, Eq, Structural)]
pub enum MutType {
    Const,
    Var,
}

#[derive(Debug, Clone, Copy, PartialEq, Eq, Structural)]
pub struct TypeIdx(pub U32Type);

#[derive(Debug, Clone, Copy, PartialEq, Eq, Structural)]
pub struct FuncIdx(pub U32Type);

#[derive(Debug, Clone, Copy, PartialEq, Eq, Structural)]
pub struct TableIdx(pub U32Type);

#[derive(Debug, Clone, Copy, PartialEq, Eq, Structural)]
pub struct MemIdx(pub U32Type);

#[derive(Debug, Clone, Copy, PartialEq, Eq, Structural)]
pub struct GlobalIdx(pub U32Type);

#[derive(Debug, Clone, Copy, PartialEq, Eq, Structural)]
pub struct ElemIdx(pub U32Type);

#[derive(Debug, Clone, Copy, PartialEq, Eq, Structural)]
pub struct DataIdx(pub U32Type);

#[derive(Debug, Clone, Copy, PartialEq, Eq, Structural)]
pub struct LocalIdx(pub U32Type);

#[derive(Debug, Clone, Copy, PartialEq, Eq, Structural)]
pub struct LabelIdx(pub U32Type);

#[derive(Debug, Clone, Copy, PartialEq, Eq, Structural)]
pub struct LaneIdx(pub Byte);

#[derive(Debug, Clone, Copy, PartialEq, Eq, Structural)]
pub struct U32Type(pub u32);

#[derive(Debug, Clone, Copy, PartialEq, Eq, Structural)]
pub struct S33Type(pub i64);

#[derive(Debug, Clone, Copy, PartialEq, Eq, Structural)]
pub struct I32Type(pub u32);

#[derive(Debug, Clone, Copy, PartialEq, Eq, Structural)]
pub struct I64Type(pub u64);

/// A 32-bit float constant, held as its IEEE 754 bit pattern.
#[derive(Debug, Clone, Copy, PartialEq, Eq, Structural)]
pub struct F32Type(pub u32);

/// A 64-bit float constant, held as its IEEE 754 bit pattern.
#[derive(Debug, Clone, Copy, PartialEq, Eq, Structural)]
pub struct F64Type(pub u64);

#[derive(Debug, Clone, PartialEq)]
pub struct Func {
    pub func_type: TypeIdx,
    pub locals: Vec<ValType>,
    pub body: ExpressionType,
}

} // verus!
