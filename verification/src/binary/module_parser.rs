use vstd::prelude::*;

use crate::binary::parse_trait::ParseBin;
use crate::binary::parser_helpers::PResult;
use crate::binary::parsers::types::{
    limits_at, parse_byte, parse_name, parse_table_type, parse_mem_type, parse_tag, parse_type_idx,
    parse_u32, parse_val_types, ref_type_of, u32_at, val_types_at, NomError,
};
use crate::binary::syntax_error::{ParseResult, SyntaxError};
use crate::entities::instructions::ExpressionType;
use crate::entities::module::{
    CodeType, DataType, ElementSegmentType, ExportDescription, ExportType, FuncCodeType, Global,
    ImportDescription, ImportType, LocalsType, Module, SectionId, StartType, MAGIC, VERSION,
};
use crate::binary::parsers::module::{
    data_parse_post, element_parse_post, export_desc_at, global_parse_post, import_desc_post, locals_post, section_id_of,
};
use crate::binary::parsers::instructions::{list_end, list_values, OPCODE_END};
use crate::binary::parsers::types::utf8_decode;
use crate::entities::types::{Byte, FuncIdx, FuncType, MemType, TableType, TypeIdx, U32Type, ENCODE_BYTE_FUNC};

verus! {

/// The parser of binary modules.
pub struct ModuleParser;

/// A module without any section.
pub open spec fn is_empty_module(m: Module) -> bool {
    &&& m.types@.len() == 0
    &&& m.imports@.len() == 0
    &&& m.funcs@.len() == 0
    &&& m.tables@.len() == 0
    &&& m.mems@.len() == 0
    &&& m.globals@.len() == 0
    &&& m.exports@.len() == 0
    &&& m.start is None
    &&& m.elems@.len() == 0
    &&& m.code@.len() == 0
    &&& m.datas@.len() == 0
}

/// The header of the section at `pos`: its id and the range of its content, where
/// the size can be read and the content lies within the bytes.
pub open spec fn section_header_at(s: Seq<u8>, pos: int) -> Option<(u8, int, int)> {
    if 0 <= pos < s.len() {
        match u32_at(s, pos + 1) {
            Some((n, size)) => if pos + 1 + n + size <= s.len() {
                Some((s[pos], pos + 1 + n, pos + 1 + n + size))
            } else {
                None
            },
            None => None,
        }
    } else {
        None
    }
}

/// The sections from `pos` to the end of the bytes, each as its id and the range of
/// its content; `None` where they do not follow each other up to the end.
pub open spec fn sections_at(s: Seq<u8>, pos: int) -> Option<Seq<(u8, int, int)>>
    decreases s.len() - pos,
{
    if pos >= s.len() {
        Some(Seq::empty())
    } else {
        match section_header_at(s, pos) {
            Some((id, a, b)) => if pos < b <= s.len() {
                match sections_at(s, b) {
                    Some(rest) => Some(seq![(id, a, b)] + rest),
                    None => None,
                }
            } else {
                None
            },
            None => None,
        }
    }
}

/// Some section of `secs` has the id `id`.
pub open spec fn has_section(secs: Seq<(u8, int, int)>, id: u8) -> bool {
    exists|i: int| 0 <= i < secs.len() && (#[trigger] secs[i]).0 == id
}

/// The start function that the last start section of `secs` names.
pub open spec fn start_of(s: Seq<u8>, secs: Seq<(u8, int, int)>) -> Option<StartType>
    decreases secs.len(),
{
    if secs.len() == 0 {
        None
    } else if secs.last().0 == 8 {
        match u32_at(s.subrange(secs.last().1, secs.last().2), 0) {
            Some((_, v)) => Some(StartType { func: FuncIdx(U32Type(v)) }),
            None => None,
        }
    } else {
        start_of(s, secs.drop_last())
    }
}

/// The parts of `m` whose section does not occur in `secs` are empty.
pub open spec fn absent_sections_empty(m: Module, secs: Seq<(u8, int, int)>) -> bool {
    &&& !has_section(secs, 1) ==> m.types@.len() == 0
    &&& !has_section(secs, 2) ==> m.imports@.len() == 0
    &&& !has_section(secs, 3) ==> m.funcs@.len() == 0
    &&& !has_section(secs, 4) ==> m.tables@.len() == 0
    &&& !has_section(secs, 5) ==> m.mems@.len() == 0
    &&& !has_section(secs, 6) ==> m.globals@.len() == 0
    &&& !has_section(secs, 7) ==> m.exports@.len() == 0
    &&& !has_section(secs, 9) ==> m.elems@.len() == 0
    &&& !has_section(secs, 10) ==> m.code@.len() == 0
    &&& !has_section(secs, 11) ==> m.datas@.len() == 0
}

proof fn lemma_has_section_push(secs: Seq<(u8, int, int)>, x: (u8, int, int), id: u8)
    ensures
        has_section(secs.push(x), id) == (has_section(secs, id) || x.0 == id),
{
    let t = secs.push(x);
    if has_section(secs, id) {
        let i = choose|i: int| 0 <= i < secs.len() && (#[trigger] secs[i]).0 == id;
        assert(t[i] == secs[i]);
    }
    if x.0 == id {
        assert(t[secs.len() as int] == x);
    }
    if has_section(t, id) {
        let i = choose|i: int| 0 <= i < t.len() && (#[trigger] t[i]).0 == id;
        if i < secs.len() {
            assert(t[i] == secs[i]);
        }
    }
}


/// The position after the item that `post` describes at `p`, where one parses there.
/// `post(p, r)` says what a parser of the item at `p` returns.
pub open spec fn item_end<T>(post: spec_fn(int, PResult<T>) -> bool, p: int) -> Option<int> {
    if exists|qt: (usize, T)| #[trigger] post(p, Ok(qt)) {
        Some((choose|qt: (usize, T)| #[trigger] post(p, Ok(qt))).0 as int)
    } else {
        None
    }
}

/// `post` fixes at each position whether the item parses and where it ends.
pub open spec fn positions_unique<T>(post: spec_fn(int, PResult<T>) -> bool) -> bool {
    forall|p: int, q: usize, t: T, r: PResult<T>|
        #[trigger] post(p, Ok((q, t))) && #[trigger] post(p, r) ==> (r matches Ok((q2, _)) && q2 == q)
}

/// The position after `count` items in a row from `start`, where they parse.
pub open spec fn items_end<T>(post: spec_fn(int, PResult<T>) -> bool, start: int, count: nat) -> Option<int>
    decreases count,
{
    if count == 0 {
        Some(start)
    } else {
        match items_end(post, start, (count - 1) as nat) {
            Some(p) => item_end(post, p),
            None => None,
        }
    }
}

/// Each of `items` is what parses at its place in the row from `start`.
pub open spec fn items_ok<T>(post: spec_fn(int, PResult<T>) -> bool, start: int, items: Seq<T>) -> bool {
    forall|j: int|
        0 <= j < items.len() ==> post(
            items_end(post, start, j as nat)->0,
            Ok((items_end(post, start, (j + 1) as nat)->0 as usize, #[trigger] items[j])),
        )
}

/// The position after a vector of items at `pos`: a count, then the items.
pub open spec fn vec_end<T>(s: Seq<u8>, pos: int, post: spec_fn(int, PResult<T>) -> bool) -> Option<int> {
    match u32_at(s, pos) {
        Some((n, count)) => items_end(post, pos + n, count as nat),
        None => None,
    }
}

/// `items` are the items of the vector at `pos`.
pub open spec fn vec_items<T>(s: Seq<u8>, pos: int, post: spec_fn(int, PResult<T>) -> bool, items: Seq<T>) -> bool {
    match u32_at(s, pos) {
        Some((n, count)) => items.len() == count && items_ok(post, pos + n, items),
        None => false,
    }
}

proof fn lemma_item_step<T>(post: spec_fn(int, PResult<T>) -> bool, p: int, r: PResult<T>)
    requires
        positions_unique(post),
        post(p, r),
    ensures
        r matches Ok((q, _)) ==> item_end(post, p) == Some(q as int),
        r is Err ==> item_end(post, p) is None,
{
    if let Ok((q, t)) = r {
        assert(post(p, Ok((q, t))));
        let qt = choose|qt: (usize, T)| #[trigger] post(p, Ok(qt));
        assert(post(p, Ok((qt.0, qt.1))));
    } else {
        if exists|qt: (usize, T)| #[trigger] post(p, Ok(qt)) {
            let qt = choose|qt: (usize, T)| #[trigger] post(p, Ok(qt));
            assert(post(p, Ok((qt.0, qt.1))));
        }
    }
}

proof fn lemma_items_end_none<T>(post: spec_fn(int, PResult<T>) -> bool, start: int, k: nat, count: nat)
    requires
        k <= count,
        items_end(post, start, k) is None,
    ensures
        items_end(post, start, count) is None,
    decreases count - k,
{
    if k < count {
        lemma_items_end_none(post, start, (k + 1) as nat, count);
    }
}

proof fn lemma_items_push<T>(post: spec_fn(int, PResult<T>) -> bool, start: int, items: Seq<T>, q: usize, t: T)
    requires
        items_ok(post, start, items),
        items_end(post, start, (items.len() + 1) as nat) == Some(q as int),
        post(items_end(post, start, items.len())->0, Ok((q, t))),
    ensures
        items_ok(post, start, items.push(t)),
{
    let n = items.push(t);
    assert forall|j: int| 0 <= j < n.len() implies post(
        items_end(post, start, j as nat)->0,
        Ok((items_end(post, start, (j + 1) as nat)->0 as usize, #[trigger] n[j])),
    ) by {
        if j < items.len() {
            assert(n[j] == items[j]);
        }
    }
}

/// What the parser of a function type gives at `p`: the byte 0x60, the parameter types
/// and the result types.
pub open spec fn func_type_post(s: Seq<u8>, p: int, r: PResult<FuncType>) -> bool {
    if 0 <= p < s.len() && s[p] == ENCODE_BYTE_FUNC {
        match u32_at(s, p + 1) {
            Some((n, c1)) => match val_types_at(s, p + 1 + n, c1 as nat) {
                Some(ps) => match u32_at(s, p + 1 + n + c1) {
                    Some((m, c2)) => match val_types_at(s, p + 1 + n + c1 + m, c2 as nat) {
                        Some(rs) => r matches Ok((rp, ft)) && rp == p + 1 + n + c1 + m + c2 && ft.parameters@ == ps
                            && ft.results@ == rs,
                        None => r is Err,
                    },
                    None => r is Err,
                },
                None => r is Err,
            },
            None => r is Err,
        }
    } else {
        r is Err
    }
}

/// `func_type_post` on the bytes `s`.
pub open spec fn func_types_in(s: Seq<u8>) -> spec_fn(int, PResult<FuncType>) -> bool {
    |p: int, r: PResult<FuncType>| func_type_post(s, p, r)
}

/// What the parser of a type index gives at `p`.
pub open spec fn type_idx_post(s: Seq<u8>, p: int, r: PResult<TypeIdx>) -> bool {
    match u32_at(s, p) {
        Some((n, v)) => r matches Ok((rp, t)) && rp == p + n && t == TypeIdx(U32Type(v)),
        None => r is Err,
    }
}

/// `type_idx_post` on the bytes `s`.
pub open spec fn type_idxs_in(s: Seq<u8>) -> spec_fn(int, PResult<TypeIdx>) -> bool {
    |p: int, r: PResult<TypeIdx>| type_idx_post(s, p, r)
}

/// What the parser of a table type gives at `p`: a reference type, then limits.
pub open spec fn table_type_post(s: Seq<u8>, p: int, r: PResult<TableType>) -> bool {
    if 0 <= p < s.len() && ref_type_of(s[p]) is Some {
        match limits_at(s, p + 1) {
            Some((n, l)) => r matches Ok((rp, t)) && rp == p + 1 + n && t == (TableType {
                limits: l,
                element_ref_type: ref_type_of(s[p])->0,
            }),
            None => r is Err,
        }
    } else {
        r is Err
    }
}

/// `table_type_post` on the bytes `s`.
pub open spec fn table_types_in(s: Seq<u8>) -> spec_fn(int, PResult<TableType>) -> bool {
    |p: int, r: PResult<TableType>| table_type_post(s, p, r)
}

/// What the parser of a memory type gives at `p`: limits.
pub open spec fn mem_type_post(s: Seq<u8>, p: int, r: PResult<MemType>) -> bool {
    match limits_at(s, p) {
        Some((n, l)) => r matches Ok((rp, t)) && rp == p + n && t == (MemType { limits: l }),
        None => r is Err,
    }
}

/// `mem_type_post` on the bytes `s`.
pub open spec fn mem_types_in(s: Seq<u8>) -> spec_fn(int, PResult<MemType>) -> bool {
    |p: int, r: PResult<MemType>| mem_type_post(s, p, r)
}

/// `global_parse_post` on the bytes `s`.
pub open spec fn globals_in(s: Seq<u8>) -> spec_fn(int, PResult<Global>) -> bool {
    |p: int, r: PResult<Global>| global_parse_post(s, p, r)
}

/// `element_parse_post` on the bytes `s`.
pub open spec fn elems_in(s: Seq<u8>) -> spec_fn(int, PResult<ElementSegmentType>) -> bool {
    |p: int, r: PResult<ElementSegmentType>| element_parse_post(s, p, r)
}

/// `data_parse_post` on the bytes `s`.
pub open spec fn datas_in(s: Seq<u8>) -> spec_fn(int, PResult<DataType>) -> bool {
    |p: int, r: PResult<DataType>| data_parse_post(s, p, r)
}

/// The name at `p`: a byte count, then that many bytes of UTF-8. The position after it
/// and its text.
pub open spec fn name_at(s: Seq<u8>, p: int) -> Option<(int, Seq<char>)> {
    match u32_at(s, p) {
        Some((n, count)) => if p + n + count <= s.len() {
            match utf8_decode(s.subrange(p + n, p + n + count)) {
                Some(text) => Some((p + n + count, text)),
                None => None,
            }
        } else {
            None
        },
        None => None,
    }
}

/// What parsing an export gives at `p`: its name, then its description.
pub open spec fn export_post(s: Seq<u8>, p: int, r: PResult<ExportType>) -> bool {
    match name_at(s, p) {
        Some((q, name)) => match export_desc_at(s, q) {
            Some((n, d)) => r matches Ok((rp, e)) && rp == q + n && e.name.0@ == name && e.desc == d,
            None => r is Err,
        },
        None => r is Err,
    }
}

/// `export_post` on the bytes `s`.
pub open spec fn exports_in(s: Seq<u8>) -> spec_fn(int, PResult<ExportType>) -> bool {
    |p: int, r: PResult<ExportType>| export_post(s, p, r)
}

/// What parsing an import gives at `p`: the module name, the name, then the
/// description.
pub open spec fn import_post(s: Seq<u8>, p: int, r: PResult<ImportType>) -> bool {
    match name_at(s, p) {
        Some((q1, m)) => match name_at(s, q1) {
            Some((q2, name)) => match r {
                Ok((rp, it)) => it.module.0@ == m && it.name.0@ == name && import_desc_post(s, q2, Ok((rp, it.desc))),
                Err(_) => import_desc_post(s, q2, Err(NomError)),
            },
            None => r is Err,
        },
        None => r is Err,
    }
}

/// `import_post` on the bytes `s`.
pub open spec fn imports_in(s: Seq<u8>) -> spec_fn(int, PResult<ImportType>) -> bool {
    |p: int, r: PResult<ImportType>| import_post(s, p, r)
}

/// `locals_post` on the bytes `s`.
pub open spec fn locals_in(s: Seq<u8>) -> spec_fn(int, PResult<LocalsType>) -> bool {
    |p: int, r: PResult<LocalsType>| locals_post(s, p, r)
}

/// What the parser of a code entry gives at `p`: its size, then within that many bytes
/// the vector of local declarations and the body up to its `end`. The body may end
/// before the entry does.
pub open spec fn code_post(s: Seq<u8>, p: int, r: PResult<CodeType>) -> bool {
    match u32_at(s, p) {
        Some((n, size)) => if p + n + size <= s.len() {
            let c = s.subrange(p + n, p + n + size);
            match vec_end(c, 0, locals_in(c)) {
                Some(q) => if list_end(c, q, OPCODE_END) is Some {
                    r matches Ok((rp, ct)) && rp == p + n + size && ct.size == U32Type(size) && vec_items(
                        c,
                        0,
                        locals_in(c),
                        ct.code.locals@,
                    ) && list_values(c, q, OPCODE_END, ct.code.expression.instructions@)
                } else {
                    r is Err
                },
                None => r is Err,
            }
        } else {
            r is Err
        },
        None => r is Err,
    }
}

/// `code_post` on the bytes `s`.
pub open spec fn codes_in(s: Seq<u8>) -> spec_fn(int, PResult<CodeType>) -> bool {
    |p: int, r: PResult<CodeType>| code_post(s, p, r)
}


proof fn lemma_exports_in_unique(s: Seq<u8>)
    ensures
        positions_unique(exports_in(s)),
{
    assert forall|p: int, q: usize, t: ExportType, r: PResult<ExportType>|
        #[trigger] exports_in(s)(p, Ok((q, t))) && #[trigger] exports_in(s)(p, r) implies (r matches Ok((q2, _)) && q2 == q) by {
    }
}

proof fn lemma_imports_in_unique(s: Seq<u8>)
    ensures
        positions_unique(imports_in(s)),
{
    assert forall|p: int, q: usize, t: ImportType, r: PResult<ImportType>|
        #[trigger] imports_in(s)(p, Ok((q, t))) && #[trigger] imports_in(s)(p, r) implies (r matches Ok((q2, _)) && q2 == q) by {
    }
}

proof fn lemma_locals_in_unique(s: Seq<u8>)
    ensures
        positions_unique(locals_in(s)),
{
    assert forall|p: int, q: usize, t: LocalsType, r: PResult<LocalsType>|
        #[trigger] locals_in(s)(p, Ok((q, t))) && #[trigger] locals_in(s)(p, r) implies (r matches Ok((q2, _)) && q2 == q) by {
    }
}

proof fn lemma_codes_in_unique(s: Seq<u8>)
    ensures
        positions_unique(codes_in(s)),
{
    assert forall|p: int, q: usize, t: CodeType, r: PResult<CodeType>|
        #[trigger] codes_in(s)(p, Ok((q, t))) && #[trigger] codes_in(s)(p, r) implies (r matches Ok((q2, _)) && q2 == q) by {
    }
}

/// Reads the byte `b` at `pos`.
fn parse_byte_tag(bytes: &[u8], pos: usize, b: u8) -> (r: PResult<()>)
    ensures
        pos < bytes@.len() && bytes@[pos as int] == b ==> (r matches Ok((q, _)) && q == pos + 1),
        !(pos < bytes@.len() && bytes@[pos as int] == b) ==> r is Err,
{
    let tag: [u8; 1] = [b];
    assert(tag@ =~= seq![b]);
    proof {
        if pos < bytes@.len() && bytes@[pos as int] == b {
            assert(bytes@.subrange(pos as int, pos + 1) =~= tag@);
        }
    }
    let (q, _) = parse_tag(bytes, pos, &tag)?;
    assert(bytes@[pos as int] == bytes@.subrange(pos as int, q as int)[0]);
    Ok((q, ()))
}

proof fn lemma_func_types_in_unique(s: Seq<u8>)
    ensures
        positions_unique(func_types_in(s)),
{
    assert forall|p: int, q: usize, t: FuncType, r: PResult<FuncType>|
        #[trigger] func_types_in(s)(p, Ok((q, t))) && #[trigger] func_types_in(s)(p, r) implies (r matches Ok((q2, _)) && q2 == q) by {
    }
}

proof fn lemma_type_idxs_in_unique(s: Seq<u8>)
    ensures
        positions_unique(type_idxs_in(s)),
{
    assert forall|p: int, q: usize, t: TypeIdx, r: PResult<TypeIdx>|
        #[trigger] type_idxs_in(s)(p, Ok((q, t))) && #[trigger] type_idxs_in(s)(p, r) implies (r matches Ok((q2, _)) && q2 == q) by {
    }
}

proof fn lemma_table_types_in_unique(s: Seq<u8>)
    ensures
        positions_unique(table_types_in(s)),
{
    assert forall|p: int, q: usize, t: TableType, r: PResult<TableType>|
        #[trigger] table_types_in(s)(p, Ok((q, t))) && #[trigger] table_types_in(s)(p, r) implies (r matches Ok((q2, _)) && q2 == q) by {
    }
}

proof fn lemma_mem_types_in_unique(s: Seq<u8>)
    ensures
        positions_unique(mem_types_in(s)),
{
    assert forall|p: int, q: usize, t: MemType, r: PResult<MemType>|
        #[trigger] mem_types_in(s)(p, Ok((q, t))) && #[trigger] mem_types_in(s)(p, r) implies (r matches Ok((q2, _)) && q2 == q) by {
    }
}

proof fn lemma_globals_in_unique(s: Seq<u8>)
    ensures
        positions_unique(globals_in(s)),
{
    assert forall|p: int, q: usize, t: Global, r: PResult<Global>|
        #[trigger] globals_in(s)(p, Ok((q, t))) && #[trigger] globals_in(s)(p, r) implies (r matches Ok((q2, _)) && q2 == q) by {
    }
}

proof fn lemma_elems_in_unique(s: Seq<u8>)
    ensures
        positions_unique(elems_in(s)),
{
    assert forall|p: int, q: usize, t: ElementSegmentType, r: PResult<ElementSegmentType>|
        #[trigger] elems_in(s)(p, Ok((q, t))) && #[trigger] elems_in(s)(p, r) implies (r matches Ok((q2, _)) && q2 == q) by {
    }
}

proof fn lemma_datas_in_unique(s: Seq<u8>)
    ensures
        positions_unique(datas_in(s)),
{
    assert forall|p: int, q: usize, t: DataType, r: PResult<DataType>|
        #[trigger] datas_in(s)(p, Ok((q, t))) && #[trigger] datas_in(s)(p, r) implies (r matches Ok((q2, _)) && q2 == q) by {
    }
}

impl ModuleParser {
    /// Skips the magic number.
    fn take_magic(bytes: &[u8]) -> (r: PResult<()>)
        ensures
            match r {
                Ok((p, _)) => p == 4 && bytes@.len() >= 4 && bytes@.subrange(0, 4) == MAGIC@,
                Err(_) => !(bytes@.len() >= 4 && bytes@.subrange(0, 4) == MAGIC@),
            },
    {
        parse_tag(bytes, 0, &MAGIC)
    }

    /// Skips the version after the magic number.
    fn take_version(bytes: &[u8], pos: usize) -> (r: PResult<()>)
        ensures
            match r {
                Ok((p, _)) => p == pos + 4 && pos + 4 <= bytes@.len() && bytes@.subrange(pos as int, pos + 4) == VERSION@,
                Err(_) => !(pos + 4 <= bytes@.len() && bytes@.subrange(pos as int, pos + 4) == VERSION@),
            },
    {
        parse_tag(bytes, pos, &VERSION)
    }

    /// Reads a section header: the id byte and the size, and the range of the
    /// section's content, which must lie within the bytes.
    fn take_section(bytes: &[u8], pos: usize) -> (r: PResult<(u8, usize, usize)>)
        ensures
            match section_header_at(bytes@, pos as int) {
                Some((id, a, b)) => r matches Ok((p, (id2, start, end))) && id2 == id && start == a && end == b && p == b,
                None => r is Err,
            },
    {
        let (p, id) = parse_byte(bytes, pos)?;
        let (start, size) = parse_u32(bytes, p)?;
        if start > bytes.len() || size.0 as usize > bytes.len() - start {
            return Err(NomError);
        }
        let end = start + size.0 as usize;
        Ok((end, (id, start, end)))
    }

    /// Parses a function type: the byte 0x60, the parameter types and the result
    /// types.
    fn parse_func_type(bytes: &[u8], pos: usize) -> (r: PResult<FuncType>)
        ensures
            r matches Ok((rp, _)) ==> pos < rp <= bytes@.len(),
            func_type_post(bytes@, pos as int, r),
    {
        let (p, _) = parse_byte_tag(bytes, pos, ENCODE_BYTE_FUNC)?;
        let (q, parameters) = parse_val_types(bytes, p)?;
        let (t, results) = parse_val_types(bytes, q)?;
        Ok((t, FuncType { parameters, results }))
    }

    /// Parses the type section.
    fn parse_types_section(bytes: &[u8]) -> (r: ParseResult<Vec<FuncType>>)
        ensures
            r matches Err(e) ==> e == SyntaxError::InvalidTypesModuleSection,
            (r is Ok) == (vec_end(bytes@, 0, func_types_in(bytes@)) is Some),
            r matches Ok(v) ==> vec_items(bytes@, 0, func_types_in(bytes@), v@),
    {
        let ghost post = func_types_in(bytes@);
        proof {
            lemma_func_types_in_unique(bytes@);
        }
        let (start, count) = match parse_u32(bytes, 0) {
            Ok(x) => x,
            Err(_) => return Err(SyntaxError::InvalidTypesModuleSection),
        };
        let mut types: Vec<FuncType> = Vec::new();
        let mut p = start;
        let mut i: u32 = 0;
        while i < count.0
            invariant
                p <= bytes@.len(),
                i <= count.0,
                post == func_types_in(bytes@),
                positions_unique(post),
                u32_at(bytes@, 0) == Some((start as nat, count.0)),
                items_end(post, start as int, i as nat) == Some(p as int),
                types@.len() == i,
                items_ok(post, start as int, types@),
            decreases count.0 - i,
        {
            let res = Self::parse_func_type(bytes, p);
            proof {
                lemma_item_step(post, p as int, res);
            }
            match res {
                Ok((q, x)) => {
                    proof {
                        lemma_items_push(post, start as int, types@, q, x);
                    }
                    types.push(x);
                    p = q;
                    i = i + 1;
                },
                Err(_) => {
                    proof {
                        lemma_items_end_none(post, start as int, (i + 1) as nat, count.0 as nat);
                    }
                    return Err(SyntaxError::InvalidTypesModuleSection);
                },
            }
        }
        Ok(types)
    }

    /// Parses the code section.
    fn parse_code_section(bytes: &[u8]) -> (r: ParseResult<Vec<CodeType>>)
        ensures
            r matches Err(e) ==> e == SyntaxError::InvalidCodeModuleSection,
            (r is Ok) == (vec_end(bytes@, 0, codes_in(bytes@)) is Some),
            r matches Ok(v) ==> vec_items(bytes@, 0, codes_in(bytes@), v@),
    {
        let ghost post = codes_in(bytes@);
        proof {
            lemma_codes_in_unique(bytes@);
        }
        let (start, count) = match parse_u32(bytes, 0) {
            Ok(x) => x,
            Err(_) => return Err(SyntaxError::InvalidCodeModuleSection),
        };
        let mut codes: Vec<CodeType> = Vec::new();
        let mut p = start;
        let mut i: u32 = 0;
        while i < count.0
            invariant
                p <= bytes@.len(),
                i <= count.0,
                post == codes_in(bytes@),
                positions_unique(post),
                u32_at(bytes@, 0) == Some((start as nat, count.0)),
                items_end(post, start as int, i as nat) == Some(p as int),
                codes@.len() == i,
                items_ok(post, start as int, codes@),
            decreases count.0 - i,
        {
            let res = Self::parse_code_type(bytes, p);
            proof {
                lemma_item_step(post, p as int, res);
            }
            match res {
                Ok((q, x)) => {
                    proof {
                        lemma_items_push(post, start as int, codes@, q, x);
                    }
                    codes.push(x);
                    p = q;
                    i = i + 1;
                },
                Err(_) => {
                    proof {
                        lemma_items_end_none(post, start as int, (i + 1) as nat, count.0 as nat);
                    }
                    return Err(SyntaxError::InvalidCodeModuleSection);
                },
            }
        }
        Ok(codes)
    }

    /// Parses a code entry: its size, then within that many bytes the local
    /// declarations and the body. The body may end before the entry does.
    fn parse_code_type(bytes: &[u8], pos: usize) -> (r: PResult<CodeType>)
        ensures
            r matches Ok((rp, _)) ==> pos < rp <= bytes@.len(),
            code_post(bytes@, pos as int, r),
    {
        let (start, code_len) = parse_u32(bytes, pos)?;
        if start > bytes.len() || code_len.0 as usize > bytes.len() - start {
            return Err(NomError);
        }
        let end = start + code_len.0 as usize;
        let code_bytes = &bytes[start..end];
        let ghost c = code_bytes@;
        assert(c == bytes@.subrange(start as int, end as int));
        let ghost post = locals_in(c);
        proof {
            lemma_locals_in_unique(c);
        }
        let (p, locals_len) = parse_u32(code_bytes, 0)?;
        let mut locals: Vec<LocalsType> = Vec::new();
        let mut q = p;
        let mut i: u32 = 0;
        while i < locals_len.0
            invariant
                q <= code_bytes@.len(),
                i <= locals_len.0,
                c == code_bytes@,
                c == bytes@.subrange(start as int, end as int),
                end == start + code_len.0,
                pos < start,
                u32_at(bytes@, pos as int) == Some(((start - pos) as nat, code_len.0)),
                post == locals_in(c),
                positions_unique(post),
                u32_at(c, 0) == Some((p as nat, locals_len.0)),
                items_end(post, p as int, i as nat) == Some(q as int),
                locals@.len() == i,
                items_ok(post, p as int, locals@),
            decreases locals_len.0 - i,
        {
            let res = LocalsType::parse(code_bytes, q);
            proof {
                lemma_item_step(post, q as int, res);
            }
            match res {
                Ok((t, l)) => {
                    proof {
                        lemma_items_push(post, p as int, locals@, t, l);
                    }
                    locals.push(l);
                    q = t;
                    i = i + 1;
                },
                Err(e) => {
                    proof {
                        lemma_items_end_none(post, p as int, (i + 1) as nat, locals_len.0 as nat);
                        assert(vec_end(c, 0, locals_in(c)) is None);
                    }
                    return Err(e);
                },
            }
        }
        let (_, expression) = ExpressionType::parse(code_bytes, q)?;
        Ok((end, CodeType { size: code_len, code: FuncCodeType { locals, expression } }))
    }

    /// Parses the function section: the type index of each function.
    fn parse_funcs_section(bytes: &[u8]) -> (r: ParseResult<Vec<TypeIdx>>)
        ensures
            r matches Err(e) ==> e == SyntaxError::InvalidFuncsModuleSection,
            (r is Ok) == (vec_end(bytes@, 0, type_idxs_in(bytes@)) is Some),
            r matches Ok(v) ==> vec_items(bytes@, 0, type_idxs_in(bytes@), v@),
    {
        let ghost post = type_idxs_in(bytes@);
        proof {
            lemma_type_idxs_in_unique(bytes@);
        }
        let (start, count) = match parse_u32(bytes, 0) {
            Ok(x) => x,
            Err(_) => return Err(SyntaxError::InvalidFuncsModuleSection),
        };
        let mut funcs: Vec<TypeIdx> = Vec::new();
        let mut p = start;
        let mut i: u32 = 0;
        while i < count.0
            invariant
                p <= bytes@.len(),
                i <= count.0,
                post == type_idxs_in(bytes@),
                positions_unique(post),
                u32_at(bytes@, 0) == Some((start as nat, count.0)),
                items_end(post, start as int, i as nat) == Some(p as int),
                funcs@.len() == i,
                items_ok(post, start as int, funcs@),
            decreases count.0 - i,
        {
            let res = parse_type_idx(bytes, p);
            proof {
                lemma_item_step(post, p as int, res);
            }
            match res {
                Ok((q, x)) => {
                    proof {
                        lemma_items_push(post, start as int, funcs@, q, x);
                    }
                    funcs.push(x);
                    p = q;
                    i = i + 1;
                },
                Err(_) => {
                    proof {
                        lemma_items_end_none(post, start as int, (i + 1) as nat, count.0 as nat);
                    }
                    return Err(SyntaxError::InvalidFuncsModuleSection);
                },
            }
        }
        Ok(funcs)
    }

    /// Parses the import section: module name, name and description of each import.
    fn parse_import_section(bytes: &[u8]) -> (r: ParseResult<Vec<ImportType>>)
        ensures
            r matches Err(e) ==> e == SyntaxError::InvalidImportsModuleSection,
            (r is Ok) == (vec_end(bytes@, 0, imports_in(bytes@)) is Some),
            r matches Ok(v) ==> vec_items(bytes@, 0, imports_in(bytes@), v@),
    {
        let ghost post = imports_in(bytes@);
        proof {
            lemma_imports_in_unique(bytes@);
        }
        let (start, count) = match parse_u32(bytes, 0) {
            Ok(x) => x,
            Err(_) => return Err(SyntaxError::InvalidImportsModuleSection),
        };
        let mut imports: Vec<ImportType> = Vec::new();
        let mut p = start;
        let mut i: u32 = 0;
        while i < count.0
            invariant
                p <= bytes@.len(),
                i <= count.0,
                post == imports_in(bytes@),
                positions_unique(post),
                u32_at(bytes@, 0) == Some((start as nat, count.0)),
                items_end(post, start as int, i as nat) == Some(p as int),
                imports@.len() == i,
                items_ok(post, start as int, imports@),
            decreases count.0 - i,
        {
            let res: PResult<ImportType> = match parse_name(bytes, p) {
                Ok((q, module)) => match parse_name(bytes, q) {
                    Ok((t, name)) => match ImportDescription::parse(bytes, t) {
                        Ok((u, desc)) => Ok((u, ImportType { module, name, desc })),
                        Err(e) => Err(e),
                    },
                    Err(e) => Err(e),
                },
                Err(e) => Err(e),
            };
            proof {
                lemma_item_step(post, p as int, res);
            }
            match res {
                Ok((q, x)) => {
                    proof {
                        lemma_items_push(post, start as int, imports@, q, x);
                    }
                    imports.push(x);
                    p = q;
                    i = i + 1;
                },
                Err(_) => {
                    proof {
                        lemma_items_end_none(post, start as int, (i + 1) as nat, count.0 as nat);
                    }
                    return Err(SyntaxError::InvalidImportsModuleSection);
                },
            }
        }
        Ok(imports)
    }

    /// Parses the table section.
    fn parse_table_section(bytes: &[u8]) -> (r: ParseResult<Vec<TableType>>)
        ensures
            r matches Err(e) ==> e == SyntaxError::InvalidTablesModuleSection,
            (r is Ok) == (vec_end(bytes@, 0, table_types_in(bytes@)) is Some),
            r matches Ok(v) ==> vec_items(bytes@, 0, table_types_in(bytes@), v@),
    {
        let ghost post = table_types_in(bytes@);
        proof {
            lemma_table_types_in_unique(bytes@);
        }
        let (start, count) = match parse_u32(bytes, 0) {
            Ok(x) => x,
            Err(_) => return Err(SyntaxError::InvalidTablesModuleSection),
        };
        let mut tables: Vec<TableType> = Vec::new();
        let mut p = start;
        let mut i: u32 = 0;
        while i < count.0
            invariant
                p <= bytes@.len(),
                i <= count.0,
                post == table_types_in(bytes@),
                positions_unique(post),
                u32_at(bytes@, 0) == Some((start as nat, count.0)),
                items_end(post, start as int, i as nat) == Some(p as int),
                tables@.len() == i,
                items_ok(post, start as int, tables@),
            decreases count.0 - i,
        {
            let res = parse_table_type(bytes, p);
            proof {
                lemma_item_step(post, p as int, res);
            }
            match res {
                Ok((q, x)) => {
                    proof {
                        lemma_items_push(post, start as int, tables@, q, x);
                    }
                    tables.push(x);
                    p = q;
                    i = i + 1;
                },
                Err(_) => {
                    proof {
                        lemma_items_end_none(post, start as int, (i + 1) as nat, count.0 as nat);
                    }
                    return Err(SyntaxError::InvalidTablesModuleSection);
                },
            }
        }
        Ok(tables)
    }

    /// Parses the memory section.
    fn parse_memory_section(bytes: &[u8]) -> (r: ParseResult<Vec<MemType>>)
        ensures
            r matches Err(e) ==> e == SyntaxError::InvalidMemsModuleSection,
            (r is Ok) == (vec_end(bytes@, 0, mem_types_in(bytes@)) is Some),
            r matches Ok(v) ==> vec_items(bytes@, 0, mem_types_in(bytes@), v@),
    {
        let ghost post = mem_types_in(bytes@);
        proof {
            lemma_mem_types_in_unique(bytes@);
        }
        let (start, count) = match parse_u32(bytes, 0) {
            Ok(x) => x,
            Err(_) => return Err(SyntaxError::InvalidMemsModuleSection),
        };
        let mut mems: Vec<MemType> = Vec::new();
        let mut p = start;
        let mut i: u32 = 0;
        while i < count.0
            invariant
                p <= bytes@.len(),
                i <= count.0,
                post == mem_types_in(bytes@),
                positions_unique(post),
                u32_at(bytes@, 0) == Some((start as nat, count.0)),
                items_end(post, start as int, i as nat) == Some(p as int),
                mems@.len() == i,
                items_ok(post, start as int, mems@),
            decreases count.0 - i,
        {
            let res = parse_mem_type(bytes, p);
            proof {
                lemma_item_step(post, p as int, res);
            }
            match res {
                Ok((q, x)) => {
                    proof {
                        lemma_items_push(post, start as int, mems@, q, x);
                    }
                    mems.push(x);
                    p = q;
                    i = i + 1;
                },
                Err(_) => {
                    proof {
                        lemma_items_end_none(post, start as int, (i + 1) as nat, count.0 as nat);
                    }
                    return Err(SyntaxError::InvalidMemsModuleSection);
                },
            }
        }
        Ok(mems)
    }

    /// Parses the global section.
    fn parse_globals_section(bytes: &[u8]) -> (r: ParseResult<Vec<Global>>)
        ensures
            r matches Err(e) ==> e == SyntaxError::InvalidGlobalsModuleSection,
            (r is Ok) == (vec_end(bytes@, 0, globals_in(bytes@)) is Some),
            r matches Ok(v) ==> vec_items(bytes@, 0, globals_in(bytes@), v@),
    {
        let ghost post = globals_in(bytes@);
        proof {
            lemma_globals_in_unique(bytes@);
        }
        let (start, count) = match parse_u32(bytes, 0) {
            Ok(x) => x,
            Err(_) => return Err(SyntaxError::InvalidGlobalsModuleSection),
        };
        let mut globals: Vec<Global> = Vec::new();
        let mut p = start;
        let mut i: u32 = 0;
        while i < count.0
            invariant
                p <= bytes@.len(),
                i <= count.0,
                post == globals_in(bytes@),
                positions_unique(post),
                u32_at(bytes@, 0) == Some((start as nat, count.0)),
                items_end(post, start as int, i as nat) == Some(p as int),
                globals@.len() == i,
                items_ok(post, start as int, globals@),
            decreases count.0 - i,
        {
            let res = Global::parse(bytes, p);
            proof {
                lemma_item_step(post, p as int, res);
            }
            match res {
                Ok((q, x)) => {
                    proof {
                        lemma_items_push(post, start as int, globals@, q, x);
                    }
                    globals.push(x);
                    p = q;
                    i = i + 1;
                },
                Err(_) => {
                    proof {
                        lemma_items_end_none(post, start as int, (i + 1) as nat, count.0 as nat);
                    }
                    return Err(SyntaxError::InvalidGlobalsModuleSection);
                },
            }
        }
        Ok(globals)
    }

    /// Parses the export section: name and description of each export. Its errors
    /// are reported as errors of the import section.
    fn parse_exports_section(bytes: &[u8]) -> (r: ParseResult<Vec<ExportType>>)
        ensures
            r matches Err(e) ==> e == SyntaxError::InvalidImportsModuleSection,
            (r is Ok) == (vec_end(bytes@, 0, exports_in(bytes@)) is Some),
            r matches Ok(v) ==> vec_items(bytes@, 0, exports_in(bytes@), v@),
    {
        let ghost post = exports_in(bytes@);
        proof {
            lemma_exports_in_unique(bytes@);
        }
        let (start, count) = match parse_u32(bytes, 0) {
            Ok(x) => x,
            Err(_) => return Err(SyntaxError::InvalidImportsModuleSection),
        };
        let mut exports: Vec<ExportType> = Vec::new();
        let mut p = start;
        let mut i: u32 = 0;
        while i < count.0
            invariant
                p <= bytes@.len(),
                i <= count.0,
                post == exports_in(bytes@),
                positions_unique(post),
                u32_at(bytes@, 0) == Some((start as nat, count.0)),
                items_end(post, start as int, i as nat) == Some(p as int),
                exports@.len() == i,
                items_ok(post, start as int, exports@),
            decreases count.0 - i,
        {
            let res: PResult<ExportType> = match parse_name(bytes, p) {
                Ok((q, name)) => match ExportDescription::parse(bytes, q) {
                    Ok((t, desc)) => Ok((t, ExportType { name, desc })),
                    Err(e) => Err(e),
                },
                Err(e) => Err(e),
            };
            proof {
                lemma_item_step(post, p as int, res);
            }
            match res {
                Ok((q, x)) => {
                    proof {
                        lemma_items_push(post, start as int, exports@, q, x);
                    }
                    exports.push(x);
                    p = q;
                    i = i + 1;
                },
                Err(_) => {
                    proof {
                        lemma_items_end_none(post, start as int, (i + 1) as nat, count.0 as nat);
                    }
                    return Err(SyntaxError::InvalidImportsModuleSection);
                },
            }
        }
        Ok(exports)
    }

    /// Parses the start section.
    fn parse_start_section(bytes: &[u8]) -> (r: ParseResult<StartType>)
        ensures
            match u32_at(bytes@, 0) {
                Some((_, v)) => r == Ok::<StartType, SyntaxError>(
                    StartType { func: crate::entities::types::FuncIdx(crate::entities::types::U32Type(v)) },
                ),
                None => r == Err::<StartType, SyntaxError>(SyntaxError::InvalidStartModuleSection),
            },
    {
        match StartType::parse(bytes, 0) {
            Ok((_, s)) => Ok(s),
            Err(_) => Err(SyntaxError::InvalidStartModuleSection),
        }
    }

    /// Parses the element section. A bad count is reported as an error of the import
    /// section, a bad segment as an error of the element section.
    fn parse_elems_section(bytes: &[u8]) -> (r: ParseResult<Vec<ElementSegmentType>>)
        ensures
            r matches Err(e) ==> e == if u32_at(bytes@, 0) is None {
                SyntaxError::InvalidImportsModuleSection
            } else {
                SyntaxError::InvalidElementSegmentModuleSection
            },
            u32_at(bytes@, 0) is None ==> r == Err::<Vec<ElementSegmentType>, SyntaxError>(SyntaxError::InvalidImportsModuleSection),
            (r is Ok) == (vec_end(bytes@, 0, elems_in(bytes@)) is Some),
            r matches Ok(v) ==> vec_items(bytes@, 0, elems_in(bytes@), v@),
    {
        let ghost post = elems_in(bytes@);
        proof {
            lemma_elems_in_unique(bytes@);
        }
        let (start, count) = match parse_u32(bytes, 0) {
            Ok(x) => x,
            Err(_) => return Err(SyntaxError::InvalidImportsModuleSection),
        };
        let mut elems: Vec<ElementSegmentType> = Vec::new();
        let mut p = start;
        let mut i: u32 = 0;
        while i < count.0
            invariant
                p <= bytes@.len(),
                i <= count.0,
                post == elems_in(bytes@),
                positions_unique(post),
                u32_at(bytes@, 0) == Some((start as nat, count.0)),
                items_end(post, start as int, i as nat) == Some(p as int),
                elems@.len() == i,
                items_ok(post, start as int, elems@),
            decreases count.0 - i,
        {
            let res = ElementSegmentType::parse(bytes, p);
            proof {
                lemma_item_step(post, p as int, res);
            }
            match res {
                Ok((q, x)) => {
                    proof {
                        lemma_items_push(post, start as int, elems@, q, x);
                    }
                    elems.push(x);
                    p = q;
                    i = i + 1;
                },
                Err(_) => {
                    proof {
                        lemma_items_end_none(post, start as int, (i + 1) as nat, count.0 as nat);
                    }
                    return Err(SyntaxError::InvalidElementSegmentModuleSection);
                },
            }
        }
        Ok(elems)
    }

    /// Parses the data section. A bad count is reported as an error of the import
    /// section, a bad segment as an error of the data section.
    fn parse_data_section(bytes: &[u8]) -> (r: ParseResult<Vec<DataType>>)
        ensures
            r matches Err(e) ==> e == if u32_at(bytes@, 0) is None {
                SyntaxError::InvalidImportsModuleSection
            } else {
                SyntaxError::InvalidDatasModuleSection
            },
            u32_at(bytes@, 0) is None ==> r == Err::<Vec<DataType>, SyntaxError>(SyntaxError::InvalidImportsModuleSection),
            (r is Ok) == (vec_end(bytes@, 0, datas_in(bytes@)) is Some),
            r matches Ok(v) ==> vec_items(bytes@, 0, datas_in(bytes@), v@),
    {
        let ghost post = datas_in(bytes@);
        proof {
            lemma_datas_in_unique(bytes@);
        }
        let (start, count) = match parse_u32(bytes, 0) {
            Ok(x) => x,
            Err(_) => return Err(SyntaxError::InvalidImportsModuleSection),
        };
        let mut datas: Vec<DataType> = Vec::new();
        let mut p = start;
        let mut i: u32 = 0;
        while i < count.0
            invariant
                p <= bytes@.len(),
                i <= count.0,
                post == datas_in(bytes@),
                positions_unique(post),
                u32_at(bytes@, 0) == Some((start as nat, count.0)),
                items_end(post, start as int, i as nat) == Some(p as int),
                datas@.len() == i,
                items_ok(post, start as int, datas@),
            decreases count.0 - i,
        {
            let res = DataType::parse(bytes, p);
            proof {
                lemma_item_step(post, p as int, res);
            }
            match res {
                Ok((q, x)) => {
                    proof {
                        lemma_items_push(post, start as int, datas@, q, x);
                    }
                    datas.push(x);
                    p = q;
                    i = i + 1;
                },
                Err(_) => {
                    proof {
                        lemma_items_end_none(post, start as int, (i + 1) as nat, count.0 as nat);
                    }
                    return Err(SyntaxError::InvalidDatasModuleSection);
                },
            }
        }
        Ok(datas)
    }
}

/// The content range of the last section of `secs` with the id `id`.
pub open spec fn last_section(secs: Seq<(u8, int, int)>, id: u8) -> Option<(int, int)>
    decreases secs.len(),
{
    if secs.len() == 0 {
        None
    } else if secs.last().0 == id {
        Some((secs.last().1, secs.last().2))
    } else {
        last_section(secs.drop_last(), id)
    }
}

/// `items` are what the last section of id 1 in `secs` holds, or empty where there is none.
pub open spec fn section_types(s: Seq<u8>, secs: Seq<(u8, int, int)>, items: Seq<FuncType>) -> bool {
    match last_section(secs, 1) {
        Some((a, b)) => vec_items(s.subrange(a, b), 0, func_types_in(s.subrange(a, b)), items),
        None => items.len() == 0,
    }
}

/// `items` are what the last section of id 3 in `secs` holds, or empty where there is none.
pub open spec fn section_funcs(s: Seq<u8>, secs: Seq<(u8, int, int)>, items: Seq<TypeIdx>) -> bool {
    match last_section(secs, 3) {
        Some((a, b)) => vec_items(s.subrange(a, b), 0, type_idxs_in(s.subrange(a, b)), items),
        None => items.len() == 0,
    }
}

/// `items` are what the last section of id 4 in `secs` holds, or empty where there is none.
pub open spec fn section_tables(s: Seq<u8>, secs: Seq<(u8, int, int)>, items: Seq<TableType>) -> bool {
    match last_section(secs, 4) {
        Some((a, b)) => vec_items(s.subrange(a, b), 0, table_types_in(s.subrange(a, b)), items),
        None => items.len() == 0,
    }
}

/// `items` are what the last section of id 5 in `secs` holds, or empty where there is none.
pub open spec fn section_mems(s: Seq<u8>, secs: Seq<(u8, int, int)>, items: Seq<MemType>) -> bool {
    match last_section(secs, 5) {
        Some((a, b)) => vec_items(s.subrange(a, b), 0, mem_types_in(s.subrange(a, b)), items),
        None => items.len() == 0,
    }
}

/// `items` are what the last section of id 6 in `secs` holds, or empty where there is none.
pub open spec fn section_globals(s: Seq<u8>, secs: Seq<(u8, int, int)>, items: Seq<Global>) -> bool {
    match last_section(secs, 6) {
        Some((a, b)) => vec_items(s.subrange(a, b), 0, globals_in(s.subrange(a, b)), items),
        None => items.len() == 0,
    }
}

/// `items` are what the last section of id 9 in `secs` holds, or empty where there is none.
pub open spec fn section_elems(s: Seq<u8>, secs: Seq<(u8, int, int)>, items: Seq<ElementSegmentType>) -> bool {
    match last_section(secs, 9) {
        Some((a, b)) => vec_items(s.subrange(a, b), 0, elems_in(s.subrange(a, b)), items),
        None => items.len() == 0,
    }
}

/// `items` are what the last section of id 11 in `secs` holds, or empty where there is none.
pub open spec fn section_datas(s: Seq<u8>, secs: Seq<(u8, int, int)>, items: Seq<DataType>) -> bool {
    match last_section(secs, 11) {
        Some((a, b)) => vec_items(s.subrange(a, b), 0, datas_in(s.subrange(a, b)), items),
        None => items.len() == 0,
    }
}

/// `items` are what the last section of id 2 in `secs` holds, or empty where there is none.
pub open spec fn section_imports(s: Seq<u8>, secs: Seq<(u8, int, int)>, items: Seq<ImportType>) -> bool {
    match last_section(secs, 2) {
        Some((a, b)) => vec_items(s.subrange(a, b), 0, imports_in(s.subrange(a, b)), items),
        None => items.len() == 0,
    }
}

/// `items` are what the last section of id 7 in `secs` holds, or empty where there is none.
pub open spec fn section_exports(s: Seq<u8>, secs: Seq<(u8, int, int)>, items: Seq<ExportType>) -> bool {
    match last_section(secs, 7) {
        Some((a, b)) => vec_items(s.subrange(a, b), 0, exports_in(s.subrange(a, b)), items),
        None => items.len() == 0,
    }
}

/// `items` are what the last section of id 10 in `secs` holds, or empty where there is none.
pub open spec fn section_code(s: Seq<u8>, secs: Seq<(u8, int, int)>, items: Seq<CodeType>) -> bool {
    match last_section(secs, 10) {
        Some((a, b)) => vec_items(s.subrange(a, b), 0, codes_in(s.subrange(a, b)), items),
        None => items.len() == 0,
    }
}

/// What a section with the id byte `id` and the content `c` does to the parse of a
/// module: an error, or the number of data segments known after it, `nd` before.
pub open spec fn section_outcome(id: u8, c: Seq<u8>, nd: nat) -> Result<nat, SyntaxError> {
    match section_id_of(id) {
        None => Err(SyntaxError::UnexpectedSectionIdValue),
        Some(SectionId::Custom) => Ok(nd),
        Some(SectionId::Type) => if vec_end(c, 0, func_types_in(c)) is Some { Ok(nd) } else { Err(SyntaxError::InvalidTypesModuleSection) },
        Some(SectionId::Import) => if vec_end(c, 0, imports_in(c)) is Some { Ok(nd) } else { Err(SyntaxError::InvalidImportsModuleSection) },
        Some(SectionId::Function) => if vec_end(c, 0, type_idxs_in(c)) is Some { Ok(nd) } else { Err(SyntaxError::InvalidFuncsModuleSection) },
        Some(SectionId::Table) => if vec_end(c, 0, table_types_in(c)) is Some { Ok(nd) } else { Err(SyntaxError::InvalidTablesModuleSection) },
        Some(SectionId::Memory) => if vec_end(c, 0, mem_types_in(c)) is Some { Ok(nd) } else { Err(SyntaxError::InvalidMemsModuleSection) },
        Some(SectionId::Global) => if vec_end(c, 0, globals_in(c)) is Some { Ok(nd) } else { Err(SyntaxError::InvalidGlobalsModuleSection) },
        Some(SectionId::Export) => if vec_end(c, 0, exports_in(c)) is Some { Ok(nd) } else { Err(SyntaxError::InvalidImportsModuleSection) },
        Some(SectionId::Code) => if vec_end(c, 0, codes_in(c)) is Some { Ok(nd) } else { Err(SyntaxError::InvalidCodeModuleSection) },
        Some(SectionId::Start) => if u32_at(c, 0) is Some { Ok(nd) } else { Err(SyntaxError::InvalidStartModuleSection) },
        Some(SectionId::Element) => if u32_at(c, 0) is None {
            Err(SyntaxError::InvalidImportsModuleSection)
        } else {
            if vec_end(c, 0, elems_in(c)) is Some { Ok(nd) } else { Err(SyntaxError::InvalidElementSegmentModuleSection) }
        },
        Some(SectionId::Data) => match u32_at(c, 0) {
            None => Err(SyntaxError::InvalidImportsModuleSection),
            Some((_, n)) => if vec_end(c, 0, datas_in(c)) is Some { Ok(n as nat) } else { Err(SyntaxError::InvalidDatasModuleSection) },
        },
        Some(SectionId::DataCount) => match u32_at(c, 0) {
            None => Err(SyntaxError::InvalidDataCountModuleSection),
            Some((_, n)) => if nd == n { Ok(nd) } else { Err(SyntaxError::DataCountDoesntMatchDataLen) },
        },
    }
}

/// The outcome of parsing the sections from `pos` to the end of the bytes, with `nd`
/// data segments known so far: the first error in order, where there is one. A
/// section whose header cannot be read, or whose content runs past the end, is an
/// `InvalidModuleSection`.
pub open spec fn sections_outcome(s: Seq<u8>, pos: int, nd: nat) -> Result<(), SyntaxError>
    decreases s.len() - pos,
{
    if pos >= s.len() {
        Ok(())
    } else {
        match section_header_at(s, pos) {
            Some((id, a, b)) => if pos < b {
                match section_outcome(id, s.subrange(a, b), nd) {
                    Ok(n2) => sections_outcome(s, b, n2),
                    Err(e) => Err(e),
                }
            } else {
                Err(SyntaxError::InvalidModuleSection)
            },
            None => Err(SyntaxError::InvalidModuleSection),
        }
    }
}

impl ParseBin<Module> for ModuleParser {
    /// Parses a binary module: the magic number, the version, and then sections to
    /// the end of the bytes. A later section of a kind replaces an earlier one; a data
    /// count section must match the data segments parsed before it.
    fn parse(bytes: &[u8]) -> (r: ParseResult<(Vec<Byte>, Module)>)
        ensures
            !(bytes@.len() >= 4 && bytes@.subrange(0, 4) == MAGIC@) ==> r == Err::<(Vec<Byte>, Module), SyntaxError>(
                SyntaxError::ModuleMagicNotFound,
            ),
            bytes@.len() >= 4 && bytes@.subrange(0, 4) == MAGIC@ && !(bytes@.len() >= 8 && bytes@.subrange(4, 8)
                == VERSION@) ==> r == Err::<(Vec<Byte>, Module), SyntaxError>(SyntaxError::ModuleVersionNotFound),
            bytes@.len() == 8 && bytes@.subrange(0, 4) == MAGIC@ && bytes@.subrange(4, 8) == VERSION@ ==> (r matches Ok((
                rest,
                m,
            )) && rest@.len() == 0 && is_empty_module(m)),
            bytes@.len() >= 8 && bytes@.subrange(0, 4) == MAGIC@ && bytes@.subrange(4, 8) == VERSION@ ==> match sections_outcome(
                bytes@,
                8,
                0,
            ) {
                Ok(_) => r is Ok,
                Err(e) => r == Err::<(Vec<Byte>, Module), SyntaxError>(e),
            },
            r matches Ok((rest, _)) ==> rest@.len() == 0,
            r matches Ok((_, m)) ==> sections_at(bytes@, 8) matches Some(secs) && (forall|i: int|
                0 <= i < secs.len() ==> section_id_of((#[trigger] secs[i]).0) is Some) && absent_sections_empty(m, secs)
                && m.start == start_of(bytes@, secs),
            r matches Ok((_, m)) ==> sections_at(bytes@, 8) matches Some(secs) && section_imports(bytes@, secs, m.imports@) && section_exports(bytes@, secs, m.exports@) && section_code(bytes@, secs, m.code@),
            r matches Ok((_, m)) ==> sections_at(bytes@, 8) matches Some(secs) && section_types(bytes@, secs, m.types@) && section_funcs(bytes@, secs, m.funcs@) && section_tables(bytes@, secs, m.tables@) && section_mems(bytes@, secs, m.mems@) && section_globals(bytes@, secs, m.globals@) && section_elems(bytes@, secs, m.elems@) && section_datas(bytes@, secs, m.datas@),
    {
        let p = match Self::take_magic(bytes) {
            Ok((p, _)) => p,
            Err(_) => return Err(SyntaxError::ModuleMagicNotFound),
        };
        let mut pos = match Self::take_version(bytes, p) {
            Ok((q, _)) => q,
            Err(_) => return Err(SyntaxError::ModuleVersionNotFound),
        };
        let mut module = Module::default();
        let ghost mut done: Seq<(u8, int, int)> = Seq::empty();
        proof {
            match sections_at(bytes@, 8) {
                Some(rest) => {
                    assert(done + rest =~= rest);
                },
                None => {},
            }
        }
        while pos < bytes.len()
            invariant
                8 <= pos <= bytes@.len(),
                bytes@.subrange(0, 4) == MAGIC@,
                bytes@.subrange(4, 8) == VERSION@,
                pos == 8 ==> is_empty_module(module),
                match sections_at(bytes@, pos as int) {
                    Some(rest) => sections_at(bytes@, 8) == Some(done + rest),
                    None => sections_at(bytes@, 8) is None,
                },
                forall|i: int| 0 <= i < done.len() ==> section_id_of((#[trigger] done[i]).0) is Some,
                absent_sections_empty(module, done),
                module.start == start_of(bytes@, done),
                sections_outcome(bytes@, 8, 0) == sections_outcome(bytes@, pos as int, module.datas@.len()),
                section_imports(bytes@, done, module.imports@),
                section_exports(bytes@, done, module.exports@),
                section_code(bytes@, done, module.code@),
                section_types(bytes@, done, module.types@),
                section_funcs(bytes@, done, module.funcs@),
                section_tables(bytes@, done, module.tables@),
                section_mems(bytes@, done, module.mems@),
                section_globals(bytes@, done, module.globals@),
                section_elems(bytes@, done, module.elems@),
                section_datas(bytes@, done, module.datas@),
            decreases bytes@.len() - pos,
        {
            let (next, (section_id_byte, start, end)) = match Self::take_section(bytes, pos) {
                Ok(x) => x,
                Err(_) => return Err(SyntaxError::InvalidModuleSection),
            };
            let section_id = SectionId::try_from(section_id_byte)?;
            let section_content = &bytes[start..end];
            match section_id {
                SectionId::Custom => {},
                SectionId::Type => module.types = Self::parse_types_section(section_content)?,
                SectionId::Code => module.code = Self::parse_code_section(section_content)?,
                SectionId::Function => module.funcs = Self::parse_funcs_section(section_content)?,
                SectionId::Import => module.imports = Self::parse_import_section(section_content)?,
                SectionId::Table => module.tables = Self::parse_table_section(section_content)?,
                SectionId::Memory => module.mems = Self::parse_memory_section(section_content)?,
                SectionId::Global => module.globals = Self::parse_globals_section(section_content)?,
                SectionId::Export => module.exports = Self::parse_exports_section(section_content)?,
                SectionId::Start => module.start = Some(Self::parse_start_section(section_content)?),
                SectionId::Element => module.elems = Self::parse_elems_section(section_content)?,
                SectionId::Data => module.datas = Self::parse_data_section(section_content)?,
                SectionId::DataCount => {
                    let data_count = match parse_u32(section_content, 0) {
                        Ok((_, c)) => c,
                        Err(_) => return Err(SyntaxError::InvalidDataCountModuleSection),
                    };
                    if module.datas.len() as u64 != data_count.0 as u64 {
                        return Err(SyntaxError::DataCountDoesntMatchDataLen);
                    }
                },
            }
            proof {
                let x = (section_id_byte, start as int, end as int);
                match sections_at(bytes@, end as int) {
                    Some(rest) => {
                        assert(done + (seq![x] + rest) =~= done.push(x) + rest);
                    },
                    None => {},
                }
                assert forall|id: u8| #[trigger] has_section(done.push(x), id) == (has_section(done, id) || x.0 == id) by {
                    lemma_has_section_push(done, x, id);
                }
                assert(done.push(x).drop_last() =~= done);
                done = done.push(x);
            }
            pos = next;
        }
        proof {
            assert(done + Seq::<(u8, int, int)>::empty() =~= done);
        }
        Ok((Vec::new(), module))
    }
}

} // verus!
