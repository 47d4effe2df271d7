use vstd::prelude::*;

use crate::entities::instructions::{copy_instructions, same_instrs, ExpressionType, InstructionType};
use crate::entities::types::{
    Byte, DataIdx, Func, FuncIdx, FuncType, GlobalIdx, GlobalType, MemIdx, MemType, NameType,
    RefType, TableIdx, TableType, TypeIdx, U32Type, ValType,
};

verus! {

/// The magic number that opens every binary module.
pub const MAGIC: [u8; 4] = [0x00, 0x61, 0x73, 0x6D];

/// The binary format version this crate reads.
pub const VERSION: [u8; 4] = [0x01, 0x00, 0x00, 0x00];

#[derive(Debug, Clone)]
pub struct Module {
    pub types: Vec<FuncType>,
    pub imports: Vec<ImportType>,
    pub funcs: Vec<TypeIdx>,
    pub tables: Vec<TableType>,
    pub mems: Vec<MemType>,
    pub globals: Vec<Global>,
    pub exports: Vec<ExportType>,
    pub start: Option<StartType>,
    pub elems: Vec<ElementSegmentType>,
    pub code: Vec<CodeType>,
    pub datas: Vec<DataType>,
}

impl Default for Module {
    fn default() -> (r: Self)
        ensures
            r.types@.len() == 0,
            r.imports@.len() == 0,
            r.funcs@.len() == 0,
            r.tables@.len() == 0,
            r.mems@.len() == 0,
            r.globals@.len() == 0,
            r.exports@.len() == 0,
            r.start is None,
            r.elems@.len() == 0,
            r.code@.len() == 0,
            r.datas@.len() == 0,
    {
        Module {
            types: Vec::new(),
            imports: Vec::new(),
            funcs: Vec::new(),
            tables: Vec::new(),
            mems: Vec::new(),
            globals: Vec::new(),
            exports: Vec::new(),
            start: None,
            elems: Vec::new(),
            code: Vec::new(),
            datas: Vec::new(),
        }
    }
}

/// The locals that a list of local declarations introduces, in order: each
/// declaration contributes `n` copies of its type.
pub open spec fn expand_locals(ls: Seq<LocalsType>) -> Seq<ValType>
    decreases ls.len(),
{
    if ls.len() == 0 {
        Seq::empty()
    } else {
        expand_locals(ls.drop_last()) + Seq::new(ls.last().n.0 as nat, |k: int| ls.last().val_type)
    }
}

/// `f` is the function that the `i`-th function declaration and code entry describe.
pub open spec fn func_of_module(m: Module, i: int, f: Func) -> bool {
    &&& f.func_type == m.funcs@[i]
    &&& f.locals@ == expand_locals(m.code@[i].code.locals@)
    &&& same_instrs(m.code@[i].code.expression.instructions@, f.body.instructions@)
}

impl Module {
    /// Pairs each function declaration with its code entry. `None` when the code
    /// section has fewer entries than the function section.
    pub fn get_funcs(&self) -> (r: Option<Vec<Func>>)
        ensures
            r is Some <==> self.funcs@.len() <= self.code@.len(),
            r matches Some(v) ==> v@.len() == self.funcs@.len() && forall|i: int|
                0 <= i < v@.len() ==> func_of_module(*self, i, #[trigger] v@[i]),
    {
        let num = self.funcs.len();
        let mut funcs: Vec<Func> = Vec::new();
        let mut i: usize = 0;
        while i < num
            invariant
                num == self.funcs@.len(),
                i <= num,
                i <= self.code@.len(),
                funcs@.len() == i,
                forall|j: int| 0 <= j < i ==> func_of_module(*self, j, #[trigger] funcs@[j]),
            decreases num - i,
        {
            if i >= self.code.len() {
                return None;
            }
            let type_idx = self.funcs[i];
            let code = &self.code[i];
            let locals = expand_locals_vec(&code.code.locals);
            let body = ExpressionType { instructions: copy_instructions(&code.code.expression.instructions) };
            funcs.push(Func { func_type: type_idx, locals, body });
            i = i + 1;
        }
        Some(funcs)
    }
}

fn expand_locals_vec(ls: &Vec<LocalsType>) -> (r: Vec<ValType>)
    ensures
        r@ == expand_locals(ls@),
{
    let mut r: Vec<ValType> = Vec::new();
    let mut i: usize = 0;
    while i < ls.len()
        invariant
            i <= ls@.len(),
            r@ == expand_locals(ls@.take(i as int)),
        decreases ls@.len() - i,
    {
        let n = ls[i].n.0;
        let vt = ls[i].val_type;
        let ghost before = r@;
        let mut j: u32 = 0;
        while j < n
            invariant
                j <= n,
                r@ == before + Seq::new(j as nat, |k: int| vt),
            decreases n - j,
        {
            r.push(vt);
            j = j + 1;
            proof {
                assert(r@ =~= before + Seq::new(j as nat, |k: int| vt));
            }
        }
        proof {
            assert(ls@.take(i + 1).drop_last() =~= ls@.take(i as int));
        }
        i = i + 1;
    }
    proof {
        assert(ls@.take(i as int) =~= ls@);
    }
    r
}

pub type SectionIdValue = Byte;

#[derive(Debug, Clone, Copy, PartialEq, Eq, Structural)]
pub enum SectionId {
    Custom,
    Type,
    Import,
    Function,
    Table,
    Memory,
    Global,
    Export,
    Start,
    Element,
    Code,
    Data,
    DataCount,
}

#[derive(Debug, Clone, PartialEq)]
pub struct CustomSection {
    pub name: String,
    pub bytes: Vec<Byte>,
}

#[derive(Debug, Clone, PartialEq)]
pub struct ImportType {
    pub module: NameType,
    pub name: NameType,
    pub desc: ImportDescription,
}

#[derive(Debug, Clone, Copy, PartialEq, Eq, Structural)]
pub enum ImportDescription {
    Func(TypeIdx),
    Table(TableType),
    Mem(MemType),
    Global(GlobalType),
}

#[derive(Debug, Clone, PartialEq)]
pub struct ExportType {
    pub name: NameType,
    pub desc: ExportDescription,
}

#[derive(Debug, Clone, Copy, PartialEq, Eq, Structural)]
pub enum ExportDescription {
    Func(FuncIdx),
    Table(TableIdx),
    Mem(MemIdx),
    Global(GlobalIdx),
}

#[derive(Debug, Clone, Copy, PartialEq, Eq, Structural)]
pub struct StartType {
    pub func: FuncIdx,
}

#[derive(Debug, Clone, PartialEq)]
pub struct Global {
    pub global_type: GlobalType,
    pub init: ExpressionType,
}

#[derive(Debug, Clone, PartialEq)]
pub enum ElementSegmentType {
    Active0Functions(Active0FunctionsElementSegmentType),
    ElemKindPassiveFunctions(ElemKindPassiveFunctionsElementSegmentType),
    ElemKindActiveFunctions(ElemKindActiveFunctionsElementSegmentType),
    ElemKindDeclarativeFunctions(ElemKindDeclarativeFunctionsElementSegmentType),
    Active0Expr(Active0ExprElementSegmentType),
    PassiveRef(PassiveRefElementSegmentType),
    ActiveRef(ActiveRefElementSegmentType),
    DeclarativeRef(DeclarativeRefElementSegmentType),
}

/// The reference type of the elements of a segment.
pub open spec fn segment_ref_type(e: ElementSegmentType) -> RefType {
    match e {
        ElementSegmentType::PassiveRef(t) => t.ref_type,
        ElementSegmentType::ActiveRef(t) => t.ref_type,
        ElementSegmentType::DeclarativeRef(t) => t.ref_type,
        _ => RefType::FuncRef,
    }
}

/// The function indices of a segment given by function indices.
pub open spec fn segment_func_indices(e: ElementSegmentType) -> Option<Seq<FuncIdx>> {
    match e {
        ElementSegmentType::Active0Functions(t) => Some(t.init@),
        ElementSegmentType::ElemKindPassiveFunctions(t) => Some(t.init@),
        ElementSegmentType::ElemKindActiveFunctions(t) => Some(t.init@),
        ElementSegmentType::ElemKindDeclarativeFunctions(t) => Some(t.init@),
        _ => None,
    }
}

/// The initialiser expressions of a segment given by expressions.
pub open spec fn segment_exprs(e: ElementSegmentType) -> Option<Seq<ExpressionType>> {
    match e {
        ElementSegmentType::Active0Expr(t) => Some(t.init@),
        ElementSegmentType::PassiveRef(t) => Some(t.init@),
        ElementSegmentType::ActiveRef(t) => Some(t.init@),
        ElementSegmentType::DeclarativeRef(t) => Some(t.init@),
        _ => None,
    }
}

/// `exprs` are the initialiser expressions of segment `e`: a function index `f`
/// stands for the expression `ref.func f`.
pub open spec fn segment_init_exprs(e: ElementSegmentType, exprs: Seq<ExpressionType>) -> bool {
    match segment_func_indices(e) {
        Some(fs) => exprs.len() == fs.len() && forall|k: int|
            0 <= k < fs.len() ==> (#[trigger] exprs[k]).instructions@ == seq![
                InstructionType::RefFunc(fs[k]),
            ],
        None => {
            let es = segment_exprs(e)->0;
            exprs.len() == es.len() && forall|k: int|
                0 <= k < es.len() ==> same_instrs(es[k].instructions@, (#[trigger] exprs[k]).instructions@)
        },
    }
}

/// A copy of a sequence of expressions.
fn copy_exprs(v: &Vec<ExpressionType>) -> (r: Vec<ExpressionType>)
    ensures
        r@.len() == v@.len(),
        forall|k: int| 0 <= k < v@.len() ==> same_instrs(v@[k].instructions@, (#[trigger] r@[k]).instructions@),
{
    let mut r: Vec<ExpressionType> = Vec::new();
    let mut i: usize = 0;
    while i < v.len()
        invariant
            i <= v@.len(),
            r@.len() == i,
            forall|k: int| 0 <= k < i ==> same_instrs(v@[k].instructions@, (#[trigger] r@[k]).instructions@),
        decreases v@.len() - i,
    {
        r.push(ExpressionType { instructions: copy_instructions(&v[i].instructions) });
        i = i + 1;
    }
    r
}

fn func_refs_to_exprs(init: &Vec<FuncIdx>) -> (r: Vec<ExpressionType>)
    ensures
        r@.len() == init@.len(),
        forall|k: int|
            0 <= k < init@.len() ==> (#[trigger] r@[k]).instructions@ == seq![
                InstructionType::RefFunc(init@[k]),
            ],
{
    let mut r: Vec<ExpressionType> = Vec::new();
    let mut i: usize = 0;
    while i < init.len()
        invariant
            i <= init@.len(),
            r@.len() == i,
            forall|k: int|
                0 <= k < i ==> (#[trigger] r@[k]).instructions@ == seq![
                    InstructionType::RefFunc(init@[k]),
                ],
        decreases init@.len() - i,
    {
        r.push(ExpressionType { instructions: vec![InstructionType::RefFunc(init[i])] });
        i = i + 1;
    }
    r
}

impl ElementSegmentType {
    pub fn get_type(&self) -> (r: RefType)
        ensures
            r == segment_ref_type(*self),
    {
        match self {
            Self::Active0Functions(_) => RefType::FuncRef,
            Self::ElemKindPassiveFunctions(t) => t.elem_kind.to_ref_type(),
            Self::ElemKindActiveFunctions(t) => t.elem_kind.to_ref_type(),
            Self::ElemKindDeclarativeFunctions(t) => t.elem_kind.to_ref_type(),
            Self::Active0Expr(_) => RefType::FuncRef,
            Self::PassiveRef(t) => t.ref_type,
            Self::ActiveRef(t) => t.ref_type,
            Self::DeclarativeRef(t) => t.ref_type,
        }
    }

    /// The initialiser expressions of the segment.
    pub fn get_init(&self) -> (r: Vec<ExpressionType>)
        ensures
            segment_init_exprs(*self, r@),
    {
        match self {
            Self::Active0Functions(t) => func_refs_to_exprs(&t.init),
            Self::ElemKindPassiveFunctions(t) => func_refs_to_exprs(&t.init),
            Self::ElemKindActiveFunctions(t) => func_refs_to_exprs(&t.init),
            Self::ElemKindDeclarativeFunctions(t) => func_refs_to_exprs(&t.init),
            Self::Active0Expr(t) => copy_exprs(&t.init),
            Self::PassiveRef(t) => copy_exprs(&t.init),
            Self::ActiveRef(t) => copy_exprs(&t.init),
            Self::DeclarativeRef(t) => copy_exprs(&t.init),
        }
    }
}

#[derive(Debug, Clone, PartialEq)]
pub struct Active0FunctionsElementSegmentType {
    pub mode: ElemModeActive0,
    pub init: Vec<FuncIdx>,
}

#[derive(Debug, Clone, PartialEq)]
pub struct ElemKindPassiveFunctionsElementSegmentType {
    pub elem_kind: ElemKind,
    pub init: Vec<FuncIdx>,
    pub mode: ElemModePassive,
}

#[derive(Debug, Clone, PartialEq)]
pub struct ElemKindActiveFunctionsElementSegmentType {
    pub elem_kind: ElemKind,
    pub init: Vec<FuncIdx>,
    pub mode: ElemModeActive,
}

#[derive(Debug, Clone, PartialEq)]
pub struct ElemKindDeclarativeFunctionsElementSegmentType {
    pub elem_kind: ElemKind,
    pub init: Vec<FuncIdx>,
    pub mode: ElemModeDeclarative,
}

#[derive(Debug, Clone, PartialEq)]
pub struct Active0ExprElementSegmentType {
    pub init: Vec<ExpressionType>,
    pub mode: ElemModeActive0,
}

#[derive(Debug, Clone, PartialEq)]
pub struct PassiveRefElementSegmentType {
    pub ref_type: RefType,
    pub init: Vec<ExpressionType>,
    pub mode: ElemModePassive,
}

#[derive(Debug, Clone, PartialEq)]
pub struct ActiveRefElementSegmentType {
    pub ref_type: RefType,
    pub init: Vec<ExpressionType>,
    pub mode: ElemModeActive,
}

#[derive(Debug, Clone, PartialEq)]
pub struct DeclarativeRefElementSegmentType {
    pub ref_type: RefType,
    pub init: Vec<ExpressionType>,
    pub mode: ElemModeDeclarative,
}

#[derive(Debug, Clone, PartialEq)]
pub struct ElemModeActive {
    pub table_idx: TableIdx,
    pub offset: ExpressionType,
}

#[derive(Debug, Clone, PartialEq)]
pub struct ElemModeActive0 {
    pub offset: ExpressionType,
}

#[derive(Debug, Clone, Copy, PartialEq, Eq, Structural)]
pub struct ElemModePassive;

#[derive(Debug, Clone, Copy, PartialEq, Eq, Structural)]
pub struct ElemModeDeclarative;

#[derive(Debug, Clone, Copy, PartialEq, Eq, Structural)]
pub enum ElemKind {
    FuncRef,
}

impl ElemKind {
    /// The reference type of an element kind.
    pub fn to_ref_type(&self) -> (r: RefType)
        ensures
            r == RefType::FuncRef,
    {
        RefType::FuncRef
    }
}

#[derive(Debug, Clone, PartialEq)]
pub struct CodeType {
    pub size: U32Type,
    pub code: FuncCodeType,
}

#[derive(Debug, Clone, PartialEq)]
pub struct FuncCodeType {
    pub locals: Vec<LocalsType>,
    pub expression: ExpressionType,
}

#[derive(Debug, Clone, Copy, PartialEq, Eq, Structural)]
pub struct LocalsType {
    pub n: U32Type,
    pub val_type: ValType,
}

#[derive(Debug, Clone, PartialEq)]
pub enum DataType {
    Active0(Active0DataType),
    Active(ActiveDataType),
    Passive(PassiveDataType),
}

/// The bytes of a data segment.
pub open spec fn data_init(d: DataType) -> Seq<Byte> {
    match d {
        DataType::Active0(t) => t.init@,
        DataType::Active(t) => t.init@,
        DataType::Passive(t) => t.init@,
    }
}

impl DataType {
    pub fn clone_data(&self) -> (r: Vec<Byte>)
        ensures
            r@ == data_init(*self),
    {
        match self {
            Self::Active0(t) => t.init.clone(),
            Self::Active(t) => t.init.clone(),
            Self::Passive(t) => t.init.clone(),
        }
    }
}

pub type Active0DataType = GenericDataType<DataModeActive0>;

pub type ActiveDataType = GenericDataType<DataModeActive>;

pub type PassiveDataType = GenericDataType<DataModePassive>;

#[derive(Debug, Clone, PartialEq)]
pub struct DataModeActive0 {
    pub offset: ExpressionType,
}

#[derive(Debug, Clone, PartialEq)]
pub struct DataModeActive {
    pub memory: MemIdx,
    pub offset: ExpressionType,
}

#[derive(Debug, Clone, Copy, PartialEq, Eq, Structural)]
pub struct DataModePassive;

#[derive(Debug, Clone, PartialEq)]
pub struct GenericDataType<Mode> {
    pub mode: Mode,
    pub init: Vec<Byte>,
}

} // verus!
