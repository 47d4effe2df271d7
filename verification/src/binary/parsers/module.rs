use vstd::prelude::*;

use crate::binary::parser_helpers::PResult;
use crate::binary::parsers::instructions::{list_end, list_values, u32s_at, OPCODE_END};
use crate::binary::parsers::types::{
    limits_at, mut_type_of, parse_byte, parse_byte_vec, parse_func_idx, parse_global_type, parse_mem_idx,
    parse_mem_type, parse_ref_type, parse_table_idx, parse_table_type, parse_u32, parse_val_type,
    ref_type_of, u32_at, val_type_of, NomError,
};
use crate::binary::syntax_error::{ParseResult, SyntaxError};
use crate::entities::instructions::ExpressionType;
use crate::entities::module::{
    Active0DataType, Active0ExprElementSegmentType, Active0FunctionsElementSegmentType,
    ActiveDataType, ActiveRefElementSegmentType, DataModeActive, DataModeActive0,
    DataModePassive, DataType, DeclarativeRefElementSegmentType, ElemKind,
    ElemKindActiveFunctionsElementSegmentType, ElemKindDeclarativeFunctionsElementSegmentType,
    ElemKindPassiveFunctionsElementSegmentType, ElemModeActive, ElemModeActive0,
    ElemModeDeclarative, ElemModePassive, ElementSegmentType, ExportDescription,
    GenericDataType, Global, ImportDescription, LocalsType, PassiveDataType,
    PassiveRefElementSegmentType, SectionId, SectionIdValue, StartType,
};
use crate::entities::types::{
    FuncIdx, GlobalIdx, GlobalType, MemIdx, MemType, TableIdx, TableType, TypeIdx, U32Type,
};

verus! {

pub const ENCODE_BYTE_IMPORT_BYTE_FUNC: u8 = 0x00;
pub const ENCODE_BYTE_IMPORT_TABLE: u8 = 0x01;
pub const ENCODE_BYTE_IMPORT_MEM: u8 = 0x02;
pub const ENCODE_BYTE_IMPORT_GLOBAL: u8 = 0x03;
pub const ENCODE_BYTE_EXPORT_FUNC: u8 = 0x00;
pub const ENCODE_BYTE_EXPORT_TABLE: u8 = 0x01;
pub const ENCODE_BYTE_EXPORT_MEM: u8 = 0x02;
pub const ENCODE_BYTE_EXPORT_GLOBAL: u8 = 0x03;

/// The export description at `pos`: a kind byte and an index.
pub open spec fn export_desc_at(s: Seq<u8>, pos: int) -> Option<(nat, ExportDescription)> {
    if 0 <= pos < s.len() && s[pos] <= 3 {
        match u32_at(s, pos + 1) {
            Some((n, v)) => Some(
                (
                    n + 1,
                    if s[pos] == ENCODE_BYTE_EXPORT_FUNC {
                        ExportDescription::Func(FuncIdx(U32Type(v)))
                    } else if s[pos] == ENCODE_BYTE_EXPORT_TABLE {
                        ExportDescription::Table(TableIdx(U32Type(v)))
                    } else if s[pos] == ENCODE_BYTE_EXPORT_MEM {
                        ExportDescription::Mem(MemIdx(U32Type(v)))
                    } else {
                        ExportDescription::Global(GlobalIdx(U32Type(v)))
                    },
                ),
            ),
            None => None,
        }
    } else {
        None
    }
}

impl ExportDescription {
    /// Parses an export description.
    pub fn parse(bytes: &[u8], pos: usize) -> (r: PResult<ExportDescription>)
        ensures
            match export_desc_at(bytes@, pos as int) {
                Some((n, d)) => r matches Ok((rp, rv)) && rp == pos + n && rv == d,
                None => r is Err,
            },
            r matches Ok((rp, _)) ==> pos < rp <= bytes@.len(),
    {
        let (p, encode_byte) = parse_byte(bytes, pos)?;
        if encode_byte == ENCODE_BYTE_EXPORT_FUNC {
            let (q, v) = parse_u32(bytes, p)?;
            Ok((q, ExportDescription::Func(FuncIdx(v))))
        } else if encode_byte == ENCODE_BYTE_EXPORT_TABLE {
            let (q, v) = parse_u32(bytes, p)?;
            Ok((q, ExportDescription::Table(TableIdx(v))))
        } else if encode_byte == ENCODE_BYTE_EXPORT_MEM {
            let (q, v) = parse_u32(bytes, p)?;
            Ok((q, ExportDescription::Mem(MemIdx(v))))
        } else if encode_byte == ENCODE_BYTE_EXPORT_GLOBAL {
            let (q, v) = parse_u32(bytes, p)?;
            Ok((q, ExportDescription::Global(GlobalIdx(v))))
        } else {
            Err(NomError)
        }
    }
}

/// What the parser of an import description gives at `pos`: a kind byte, then a type
/// index, table type, memory type or global type.
pub open spec fn import_desc_post(s: Seq<u8>, pos: int, r: PResult<ImportDescription>) -> bool {
    &&& pos >= s.len() || s[pos] > 3 ==> r is Err
    &&& pos < s.len() && s[pos] == ENCODE_BYTE_IMPORT_BYTE_FUNC ==> match u32_at(s, pos + 1) {
            Some((n, v)) => r matches Ok((rp, rv)) && rp == pos + 1 + n && rv == ImportDescription::Func(TypeIdx(U32Type(v))),
            None => r is Err,
        }
    &&& pos < s.len() && s[pos] == ENCODE_BYTE_IMPORT_TABLE ==> if pos + 1 < s.len()
            && ref_type_of(s[pos + 1]) is Some {
            match limits_at(s, pos + 2) {
                Some((n, l)) => r matches Ok((rp, rv)) && rp == pos + 2 + n && rv == ImportDescription::Table(
                    TableType { limits: l, element_ref_type: ref_type_of(s[pos + 1])->0 },
                ),
                None => r is Err,
            }
        } else {
            r is Err
        }
    &&& pos < s.len() && s[pos] == ENCODE_BYTE_IMPORT_MEM ==> match limits_at(s, pos + 1) {
            Some((n, l)) => r matches Ok((rp, rv)) && rp == pos + 1 + n && rv == ImportDescription::Mem(MemType { limits: l }),
            None => r is Err,
        }
    &&& pos < s.len() && s[pos] == ENCODE_BYTE_IMPORT_GLOBAL ==> if pos + 2 < s.len()
            && val_type_of(s[pos + 1]) is Some && mut_type_of(s[pos + 2]) is Some {
            r matches Ok((rp, rv)) && rp == pos + 3 && rv == ImportDescription::Global(
                GlobalType { mut_type: mut_type_of(s[pos + 2])->0, val_type: val_type_of(s[pos + 1])->0 },
            )
        } else {
            r is Err
        }
}

impl ImportDescription {
    /// Parses an import description: a kind byte, then a type index, table type,
    /// memory type or global type.
    pub fn parse(bytes: &[u8], pos: usize) -> (r: PResult<ImportDescription>)
        ensures
            r matches Ok((rp, _)) ==> pos < rp <= bytes@.len(),
            import_desc_post(bytes@, pos as int, r),
    {
        let (p, encode_byte) = parse_byte(bytes, pos)?;
        if encode_byte == ENCODE_BYTE_IMPORT_BYTE_FUNC {
            let (q, v) = parse_u32(bytes, p)?;
            Ok((q, ImportDescription::Func(TypeIdx(v))))
        } else if encode_byte == ENCODE_BYTE_IMPORT_TABLE {
            let (q, v) = parse_table_type(bytes, p)?;
            Ok((q, ImportDescription::Table(v)))
        } else if encode_byte == ENCODE_BYTE_IMPORT_MEM {
            let (q, v) = parse_mem_type(bytes, p)?;
            Ok((q, ImportDescription::Mem(v)))
        } else if encode_byte == ENCODE_BYTE_IMPORT_GLOBAL {
            let (q, v) = parse_global_type(bytes, p)?;
            Ok((q, ImportDescription::Global(v)))
        } else {
            Err(NomError)
        }
    }
}

/// The section that an id byte names.
pub open spec fn section_id_of(byte: u8) -> Option<SectionId> {
    if byte == 0 {
        Some(SectionId::Custom)
    } else if byte == 1 {
        Some(SectionId::Type)
    } else if byte == 2 {
        Some(SectionId::Import)
    } else if byte == 3 {
        Some(SectionId::Function)
    } else if byte == 4 {
        Some(SectionId::Table)
    } else if byte == 5 {
        Some(SectionId::Memory)
    } else if byte == 6 {
        Some(SectionId::Global)
    } else if byte == 7 {
        Some(SectionId::Export)
    } else if byte == 8 {
        Some(SectionId::Start)
    } else if byte == 9 {
        Some(SectionId::Element)
    } else if byte == 10 {
        Some(SectionId::Code)
    } else if byte == 11 {
        Some(SectionId::Data)
    } else if byte == 12 {
        Some(SectionId::DataCount)
    } else {
        None
    }
}

impl SectionId {
    /// The section that an id byte names; an unknown id is a syntax error.
    pub fn try_from(byte: SectionIdValue) -> (r: ParseResult<SectionId>)
        ensures
            match section_id_of(byte) {
                Some(id) => r == Ok::<SectionId, SyntaxError>(id),
                None => r == Err::<SectionId, SyntaxError>(SyntaxError::UnexpectedSectionIdValue),
            },
    {
        if byte == 0 {
            Ok(SectionId::Custom)
        } else if byte == 1 {
            Ok(SectionId::Type)
        } else if byte == 2 {
            Ok(SectionId::Import)
        } else if byte == 3 {
            Ok(SectionId::Function)
        } else if byte == 4 {
            Ok(SectionId::Table)
        } else if byte == 5 {
            Ok(SectionId::Memory)
        } else if byte == 6 {
            Ok(SectionId::Global)
        } else if byte == 7 {
            Ok(SectionId::Export)
        } else if byte == 8 {
            Ok(SectionId::Start)
        } else if byte == 9 {
            Ok(SectionId::Element)
        } else if byte == 10 {
            Ok(SectionId::Code)
        } else if byte == 11 {
            Ok(SectionId::Data)
        } else if byte == 12 {
            Ok(SectionId::DataCount)
        } else {
            Err(SyntaxError::UnexpectedSectionIdValue)
        }
    }
}

impl StartType {
    /// Parses the start function's index.
    pub fn parse(bytes: &[u8], pos: usize) -> (r: PResult<StartType>)
        ensures
            match u32_at(bytes@, pos as int) {
                Some((n, v)) => r matches Ok((rp, rv)) && rp == pos + n && rv == StartType { func: FuncIdx(U32Type(v)) },
                None => r is Err,
            },
            r matches Ok((rp, _)) ==> pos < rp <= bytes@.len(),
    {
        let (p, v) = parse_u32(bytes, pos)?;
        Ok((p, StartType { func: FuncIdx(v) }))
    }
}

/// What the parser of a global gives at `pos`: its type, then its initialiser.
pub open spec fn global_parse_post(s: Seq<u8>, pos: int, r: PResult<Global>) -> bool {
    if 0 <= pos && pos + 1 < s.len() && val_type_of(s[pos]) is Some && mut_type_of(s[pos + 1]) is Some {
        &&& (r is Ok) == (list_end(s, pos + 2, OPCODE_END) is Some)
        &&& r matches Ok((rp, rv)) ==> rp == list_end(s, pos + 2, OPCODE_END)->0 && rv.global_type == (GlobalType {
            mut_type: mut_type_of(s[pos + 1])->0,
            val_type: val_type_of(s[pos])->0,
        }) && expr_value(s, pos + 2, rv.init)
    } else {
        r is Err
    }
}

impl Global {
    /// Parses a global: its type, then its initialiser expression.
    pub fn parse(bytes: &[u8], pos: usize) -> (r: PResult<Global>)
        ensures
            r matches Ok((rp, _)) ==> pos < rp <= bytes@.len(),
            global_parse_post(bytes@, pos as int, r),
    {
        let (p, global_type) = parse_global_type(bytes, pos)?;
        let (q, init) = ExpressionType::parse(bytes, p)?;
        Ok((q, Global { global_type, init }))
    }
}

impl ElemKind {
    /// Parses an element kind: the byte 0x00 for function references.
    pub fn parse(bytes: &[u8], pos: usize) -> (r: PResult<ElemKind>)
        ensures
            pos < bytes@.len() && bytes@[pos as int] == 0 ==> (r matches Ok((rp, rv)) && rp == pos + 1 && rv == ElemKind::FuncRef),
            !(pos < bytes@.len() && bytes@[pos as int] == 0) ==> r is Err,
            r matches Ok((rp, _)) ==> pos < rp <= bytes@.len(),
    {
        let (p, b) = parse_byte(bytes, pos)?;
        if b == 0 {
            Ok((p, ElemKind::FuncRef))
        } else {
            Err(NomError)
        }
    }
}

/// What the parser of a local declaration gives at `pos`: a count, then a value type.
pub open spec fn locals_post(s: Seq<u8>, pos: int, r: PResult<LocalsType>) -> bool {
    match u32_at(s, pos) {
        Some((n, v)) => if pos + n < s.len() && val_type_of(s[pos + n]) is Some {
            r matches Ok((rp, rv)) && rp == pos + n + 1 && rv == (LocalsType {
                n: U32Type(v),
                val_type: val_type_of(s[pos + n])->0,
            })
        } else {
            r is Err
        },
        None => r is Err,
    }
}

impl LocalsType {
    /// Parses a local declaration: a count, then a value type.
    pub fn parse(bytes: &[u8], pos: usize) -> (r: PResult<LocalsType>)
        ensures
            locals_post(bytes@, pos as int, r),
            r matches Ok((rp, _)) ==> pos < rp <= bytes@.len(),
    {
        let (p, n) = parse_u32(bytes, pos)?;
        let (q, val_type) = parse_val_type(bytes, p)?;
        Ok((q, LocalsType { n, val_type }))
    }
}

/// Whether `e` is the expression that parses at `pos`.
pub open spec fn expr_value(s: Seq<u8>, pos: int, e: ExpressionType) -> bool {
    list_values(s, pos, OPCODE_END, e.instructions@)
}

/// A vector of function indices at `pos`: the position after it and the indices.
pub open spec fn func_idxs_at(s: Seq<u8>, pos: int) -> Option<(int, Seq<u32>)> {
    match u32_at(s, pos) {
        Some((n, count)) => u32s_at(s, pos + n, count as nat),
        None => None,
    }
}

/// The numbers of a sequence of function indices.
pub open spec fn func_values(fs: Seq<FuncIdx>) -> Seq<u32> {
    fs.map_values(|f: FuncIdx| f.0.0)
}

/// The position after `count` expressions in a row at `pos`, if they parse.
pub open spec fn exprs_end(s: Seq<u8>, pos: int, count: nat) -> Option<int>
    decreases count,
{
    if count == 0 {
        Some(pos)
    } else {
        match exprs_end(s, pos, (count - 1) as nat) {
            Some(q) => list_end(s, q, OPCODE_END),
            None => None,
        }
    }
}

proof fn lemma_exprs_end_none(s: Seq<u8>, pos: int, k: nat, count: nat)
    requires
        k <= count,
        exprs_end(s, pos, k) is None,
    ensures
        exprs_end(s, pos, count) is None,
    decreases count - k,
{
    if k < count {
        lemma_exprs_end_none(s, pos, (k + 1) as nat, count);
    }
}

/// A vector of expressions at `pos`: the position after it, if it parses.
pub open spec fn exprs_at(s: Seq<u8>, pos: int) -> Option<int> {
    match u32_at(s, pos) {
        Some((n, count)) => exprs_end(s, pos + n, count as nat),
        None => None,
    }
}

/// Whether `es` are the expressions of the vector at `pos`.
pub open spec fn exprs_values(s: Seq<u8>, pos: int, es: Seq<ExpressionType>) -> bool {
    match u32_at(s, pos) {
        Some((n, count)) => es.len() == count && forall|i: int|
            0 <= i < count ==> expr_value(s, exprs_end(s, pos + n, i as nat)->0, #[trigger] es[i]),
        None => false,
    }
}

/// Parses a vector of function indices.
fn parse_func_idxs(bytes: &[u8], pos: usize) -> (r: PResult<Vec<FuncIdx>>)
    ensures
        r matches Ok((rp, _)) ==> pos < rp <= bytes@.len(),
        match func_idxs_at(bytes@, pos as int) {
            Some((e, fs)) => r matches Ok((rp, rv)) && rp == e && func_values(rv@) == fs,
            None => r is Err,
        },
{
    let (start, count) = parse_u32(bytes, pos)?;
    let mut init: Vec<FuncIdx> = Vec::new();
    let mut p = start;
    let mut i: u32 = 0;
    assert(func_values(init@) =~= Seq::<u32>::empty());
    while i < count.0
        invariant
            pos < p <= bytes@.len(),
            pos < start,
            i <= count.0,
            u32_at(bytes@, pos as int) == Some(((start - pos) as nat, count.0)),
            u32s_at(bytes@, start as int, i as nat) == Some((p as int, func_values(init@))),
        decreases count.0 - i,
    {
        let ghost before = init@;
        let res = parse_func_idx(bytes, p);
        match res {
            Ok((q, f)) => {
                init.push(f);
                assert(func_values(init@) =~= func_values(before).push(f.0.0));
                p = q;
                i = i + 1;
            },
            Err(e) => {
                proof {
                    assert(u32s_at(bytes@, start as int, (i + 1) as nat) is None);
                    crate::binary::parsers::instructions::lemma_u32s_at_none(
                        bytes@,
                        start as int,
                        (i + 1) as nat,
                        count.0 as nat,
                    );
                }
                return Err(e);
            },
        }
    }
    Ok((p, init))
}

/// Parses a vector of expressions.
fn parse_exprs(bytes: &[u8], pos: usize) -> (r: PResult<Vec<ExpressionType>>)
    ensures
        r matches Ok((rp, _)) ==> pos < rp <= bytes@.len(),
        (r is Ok) == (exprs_at(bytes@, pos as int) is Some),
        r matches Ok((rp, rv)) ==> rp == exprs_at(bytes@, pos as int)->0 && exprs_values(bytes@, pos as int, rv@),
{
    let (start, count) = parse_u32(bytes, pos)?;
    let mut init: Vec<ExpressionType> = Vec::new();
    let mut p = start;
    let mut i: u32 = 0;
    while i < count.0
        invariant
            pos < p <= bytes@.len(),
            pos < start,
            i <= count.0,
            init@.len() == i,
            u32_at(bytes@, pos as int) == Some(((start - pos) as nat, count.0)),
            exprs_end(bytes@, start as int, i as nat) == Some(p as int),
            forall|j: int| 0 <= j < i ==> expr_value(bytes@, exprs_end(bytes@, start as int, j as nat)->0, #[trigger] init@[j]),
        decreases count.0 - i,
    {
        let res = ExpressionType::parse(bytes, p);
        match res {
            Ok((q, e)) => {
                init.push(e);
                p = q;
                i = i + 1;
            },
            Err(e) => {
                proof {
                    assert(exprs_end(bytes@, start as int, (i + 1) as nat) is None);
                    lemma_exprs_end_none(bytes@, start as int, (i + 1) as nat, count.0 as nat);
                }
                return Err(e);
            },
        }
    }
    Ok((p, init))
}

/// What the parser of an element segment gives for the bytes from `pos` on: a flag
/// field from 0 to 7 selects the fields that follow and the form of the segment.
pub open spec fn element_parse_post(s: Seq<u8>, pos: int, r: PResult<ElementSegmentType>) -> bool {
    match u32_at(s, pos) {
        Some((n, flags)) => {
            let p = pos + n;
            if flags == 0 {
                match list_end(s, p, OPCODE_END) {
                    Some(q) => match func_idxs_at(s, q) {
                        Some((e, fs)) => r matches Ok((rp, ElementSegmentType::Active0Functions(seg))) && rp == e
                            && expr_value(s, p, seg.mode.offset) && func_values(seg.init@) == fs,
                        None => r is Err,
                    },
                    None => r is Err,
                }
            } else if flags == 1 || flags == 3 {
                if p < s.len() && s[p] == 0 {
                    match func_idxs_at(s, p + 1) {
                        Some((e, fs)) => if flags == 1 {
                            r matches Ok((rp, ElementSegmentType::ElemKindPassiveFunctions(seg))) && rp == e
                                && seg.elem_kind == ElemKind::FuncRef && func_values(seg.init@) == fs
                        } else {
                            r matches Ok((rp, ElementSegmentType::ElemKindDeclarativeFunctions(seg))) && rp == e
                                && seg.elem_kind == ElemKind::FuncRef && func_values(seg.init@) == fs
                        },
                        None => r is Err,
                    }
                } else {
                    r is Err
                }
            } else if flags == 2 {
                match u32_at(s, p) {
                    Some((m, t)) => match list_end(s, p + m, OPCODE_END) {
                        Some(q) => if q < s.len() && s[q] == 0 {
                            match func_idxs_at(s, q + 1) {
                                Some((e, fs)) => r matches Ok((rp, ElementSegmentType::ElemKindActiveFunctions(seg)))
                                    && rp == e && seg.elem_kind == ElemKind::FuncRef && seg.mode.table_idx == TableIdx(U32Type(t))
                                    && expr_value(s, p + m, seg.mode.offset) && func_values(seg.init@) == fs,
                                None => r is Err,
                            }
                        } else {
                            r is Err
                        },
                        None => r is Err,
                    },
                    None => r is Err,
                }
            } else if flags == 4 {
                match list_end(s, p, OPCODE_END) {
                    Some(q) => match exprs_at(s, q) {
                        Some(e) => r matches Ok((rp, ElementSegmentType::Active0Expr(seg))) && rp == e
                            && expr_value(s, p, seg.mode.offset) && exprs_values(s, q, seg.init@),
                        None => r is Err,
                    },
                    None => r is Err,
                }
            } else if flags == 5 || flags == 7 {
                if p < s.len() && ref_type_of(s[p]) is Some {
                    match exprs_at(s, p + 1) {
                        Some(e) => if flags == 5 {
                            r matches Ok((rp, ElementSegmentType::PassiveRef(seg))) && rp == e
                                && seg.ref_type == ref_type_of(s[p])->0 && exprs_values(s, p + 1, seg.init@)
                        } else {
                            r matches Ok((rp, ElementSegmentType::DeclarativeRef(seg))) && rp == e
                                && seg.ref_type == ref_type_of(s[p])->0 && exprs_values(s, p + 1, seg.init@)
                        },
                        None => r is Err,
                    }
                } else {
                    r is Err
                }
            } else if flags == 6 {
                match u32_at(s, p) {
                    Some((m, t)) => match list_end(s, p + m, OPCODE_END) {
                        Some(q) => if q < s.len() && ref_type_of(s[q]) is Some {
                            match exprs_at(s, q + 1) {
                                Some(e) => r matches Ok((rp, ElementSegmentType::ActiveRef(seg))) && rp == e
                                    && seg.ref_type == ref_type_of(s[q])->0 && seg.mode.table_idx == TableIdx(U32Type(t))
                                    && expr_value(s, p + m, seg.mode.offset) && exprs_values(s, q + 1, seg.init@),
                                None => r is Err,
                            }
                        } else {
                            r is Err
                        },
                        None => r is Err,
                    },
                    None => r is Err,
                }
            } else {
                r is Err
            }
        },
        None => r is Err,
    }
}

impl ElementSegmentType {
    /// Parses an element segment: a flag field from 0 to 7, then the fields of the
    /// form it selects.
    pub fn parse(bytes: &[u8], pos: usize) -> (r: PResult<ElementSegmentType>)
        ensures
            r matches Ok((rp, _)) ==> pos < rp <= bytes@.len(),
            element_parse_post(bytes@, pos as int, r),
    {
        let (p, bitfield) = parse_u32(bytes, pos)?;
        if bitfield.0 == 0 {
            let (q, offset) = ExpressionType::parse(bytes, p)?;
            let (t, init) = parse_func_idxs(bytes, q)?;
            Ok((t, ElementSegmentType::Active0Functions(Active0FunctionsElementSegmentType { mode: ElemModeActive0 { offset }, init })))
        } else if bitfield.0 == 1 {
            let (q, elem_kind) = ElemKind::parse(bytes, p)?;
            let (t, init) = parse_func_idxs(bytes, q)?;
            Ok((t, ElementSegmentType::ElemKindPassiveFunctions(ElemKindPassiveFunctionsElementSegmentType { elem_kind, init, mode: ElemModePassive })))
        } else if bitfield.0 == 2 {
            let (q, table_idx) = parse_table_idx(bytes, p)?;
            let (t, offset) = ExpressionType::parse(bytes, q)?;
            let (u, elem_kind) = ElemKind::parse(bytes, t)?;
            let (w, init) = parse_func_idxs(bytes, u)?;
            Ok((w, ElementSegmentType::ElemKindActiveFunctions(ElemKindActiveFunctionsElementSegmentType { elem_kind, init, mode: ElemModeActive { table_idx, offset } })))
        } else if bitfield.0 == 3 {
            let (q, elem_kind) = ElemKind::parse(bytes, p)?;
            let (t, init) = parse_func_idxs(bytes, q)?;
            Ok((t, ElementSegmentType::ElemKindDeclarativeFunctions(ElemKindDeclarativeFunctionsElementSegmentType { elem_kind, init, mode: ElemModeDeclarative })))
        } else if bitfield.0 == 4 {
            let (q, offset) = ExpressionType::parse(bytes, p)?;
            let (t, init) = parse_exprs(bytes, q)?;
            Ok((t, ElementSegmentType::Active0Expr(Active0ExprElementSegmentType { init, mode: ElemModeActive0 { offset } })))
        } else if bitfield.0 == 5 {
            let (q, ref_type) = parse_ref_type(bytes, p)?;
            let (t, init) = parse_exprs(bytes, q)?;
            Ok((t, ElementSegmentType::PassiveRef(PassiveRefElementSegmentType { ref_type, init, mode: ElemModePassive })))
        } else if bitfield.0 == 6 {
            let (q, table_idx) = parse_table_idx(bytes, p)?;
            let (t, offset) = ExpressionType::parse(bytes, q)?;
            let (u, ref_type) = parse_ref_type(bytes, t)?;
            let (w, init) = parse_exprs(bytes, u)?;
            Ok((w, ElementSegmentType::ActiveRef(ActiveRefElementSegmentType { ref_type, init, mode: ElemModeActive { table_idx, offset } })))
        } else if bitfield.0 == 7 {
            let (q, ref_type) = parse_ref_type(bytes, p)?;
            let (t, init) = parse_exprs(bytes, q)?;
            Ok((t, ElementSegmentType::DeclarativeRef(DeclarativeRefElementSegmentType { ref_type, init, mode: ElemModeDeclarative })))
        } else {
            Err(NomError)
        }
    }
}

/// The bytes of a byte vector at `pos`: the position after it and its contents.
pub open spec fn byte_vec_at(s: Seq<u8>, pos: int) -> Option<(int, Seq<u8>)> {
    match u32_at(s, pos) {
        Some((n, count)) => if pos + n + count <= s.len() {
            Some((pos + n + count, s.subrange(pos + n, pos + n + count)))
        } else {
            None
        },
        None => None,
    }
}

/// What the parser of a data segment gives for the bytes from `pos` on: a flag field
/// (0 active in memory 0, 1 passive, 2 active with a memory index), the fields of that
/// form, then the bytes.
pub open spec fn data_parse_post(s: Seq<u8>, pos: int, r: PResult<DataType>) -> bool {
    match u32_at(s, pos) {
        Some((n, flags)) => {
            let p = pos + n;
            if flags == 0 {
                match list_end(s, p, OPCODE_END) {
                    Some(q) => match byte_vec_at(s, q) {
                        Some((e, bs)) => r matches Ok((rp, DataType::Active0(d))) && rp == e
                            && expr_value(s, p, d.mode.offset) && d.init@ == bs,
                        None => r is Err,
                    },
                    None => r is Err,
                }
            } else if flags == 1 {
                match byte_vec_at(s, p) {
                    Some((e, bs)) => r matches Ok((rp, DataType::Passive(d))) && rp == e && d.init@ == bs,
                    None => r is Err,
                }
            } else if flags == 2 {
                match u32_at(s, p) {
                    Some((m, x)) => match list_end(s, p + m, OPCODE_END) {
                        Some(q) => match byte_vec_at(s, q) {
                            Some((e, bs)) => r matches Ok((rp, DataType::Active(d))) && rp == e
                                && d.mode.memory == MemIdx(U32Type(x)) && expr_value(s, p + m, d.mode.offset) && d.init@ == bs,
                            None => r is Err,
                        },
                        None => r is Err,
                    },
                    None => r is Err,
                }
            } else {
                r is Err
            }
        },
        None => r is Err,
    }
}

impl DataType {
    /// Parses a data segment: a flag field (0 active in memory 0, 1 passive, 2 active
    /// with a memory index), the fields of that form, then the bytes.
    pub fn parse(bytes: &[u8], pos: usize) -> (r: PResult<DataType>)
        ensures
            r matches Ok((rp, _)) ==> pos < rp <= bytes@.len(),
            data_parse_post(bytes@, pos as int, r),
    {
        let (p, bitfield) = parse_u32(bytes, pos)?;
        if bitfield.0 == 0 {
            let (q, offset) = ExpressionType::parse(bytes, p)?;
            let (t, init) = parse_byte_vec(bytes, q)?;
            Ok((t, DataType::Active0(GenericDataType { mode: DataModeActive0 { offset }, init })))
        } else if bitfield.0 == 2 {
            let (q, memory) = parse_mem_idx(bytes, p)?;
            let (t, offset) = ExpressionType::parse(bytes, q)?;
            let (u, init) = parse_byte_vec(bytes, t)?;
            Ok((u, DataType::Active(GenericDataType { mode: DataModeActive { memory, offset }, init })))
        } else if bitfield.0 == 1 {
            let (q, init) = parse_byte_vec(bytes, p)?;
            Ok((q, DataType::Passive(GenericDataType { mode: DataModePassive, init })))
        } else {
            Err(NomError)
        }
    }
}


/// The section ids as the WebAssembly binary format gives them: 0 custom, 1 type,
/// 2 import, 3 function, 4 table, 5 memory, 6 global, 7 export, 8 start, 9 element,
/// 10 code, 11 data, 12 data count; no other byte is a section id.
pub proof fn law_section_id_table(b: u8)
    ensures
        section_id_of(b) == if b == 0 {
            Some(SectionId::Custom)
        } else if b == 1 {
            Some(SectionId::Type)
        } else if b == 2 {
            Some(SectionId::Import)
        } else if b == 3 {
            Some(SectionId::Function)
        } else if b == 4 {
            Some(SectionId::Table)
        } else if b == 5 {
            Some(SectionId::Memory)
        } else if b == 6 {
            Some(SectionId::Global)
        } else if b == 7 {
            Some(SectionId::Export)
        } else if b == 8 {
            Some(SectionId::Start)
        } else if b == 9 {
            Some(SectionId::Element)
        } else if b == 10 {
            Some(SectionId::Code)
        } else if b == 11 {
            Some(SectionId::Data)
        } else if b == 12 {
            Some(SectionId::DataCount)
        } else {
            None
        },
{
}

/// The export descriptions as the WebAssembly binary format gives them: a kind byte,
/// 0 for a function, 1 a table, 2 a memory, 3 a global, then the index; no other kind.
pub proof fn law_export_kind_table(s: Seq<u8>, pos: int, n: nat, v: u32)
    requires
        0 <= pos < s.len(),
        u32_at(s, pos + 1) == Some((n, v)),
    ensures
        s[pos] == 0 ==> export_desc_at(s, pos) == Some(((n + 1) as nat, ExportDescription::Func(FuncIdx(U32Type(v))))),
        s[pos] == 1 ==> export_desc_at(s, pos) == Some(((n + 1) as nat, ExportDescription::Table(TableIdx(U32Type(v))))),
        s[pos] == 2 ==> export_desc_at(s, pos) == Some(((n + 1) as nat, ExportDescription::Mem(MemIdx(U32Type(v))))),
        s[pos] == 3 ==> export_desc_at(s, pos) == Some(((n + 1) as nat, ExportDescription::Global(GlobalIdx(U32Type(v))))),
        s[pos] > 3 ==> export_desc_at(s, pos) is None,
{
}

} // verus!
