use rasmus::binary::syntax_error::SyntaxError;
use rasmus::binary::module_parser::ModuleParser;
use rasmus::binary::parse_trait::ParseBin;
use rasmus::binary::parsers::instructions::parse_all_to_vec;
use rasmus::entities::instructions::{BlockType, BrTableArg, ExpressionType, InstructionType};
use rasmus::entities::module::{DataType, ElemKind, ElementSegmentType, Global};
use rasmus::entities::types::{
    FuncIdx, GlobalType, I32Type, LabelIdx, LaneIdx, LimitsType, MemIdx, MemType, MutType, NumType,
    TableIdx, U32Type, ValType,
};
use rasmus::execute::exec_memory::memory::memory_copy;
use rasmus::instances::frame::Frame;
use rasmus::instances::memory::MemInst;
use rasmus::instances::module::ModuleInst;
use rasmus::instances::stack::Stack;
use rasmus::instances::store::Store;
use rasmus::instances::value::Val;
use std::rc::Rc;

/// A stack with one frame whose module has the memory at address 0, and a store whose
/// memory holds `data`.
fn memory_machine(data: Vec<u8>) -> (Stack, Store) {
    let mut store = Store::new();
    store.mems.push(MemInst { mem_type: MemType { limits: LimitsType { min: U32Type(1), max: None } }, data });
    let mut module = ModuleInst::default();
    module.memaddrs.push(0);
    let mut stack = Stack::new();
    stack.push_frame(Frame { module: Rc::new(module), locals: vec![], arity: None });
    (stack, store)
}

fn copy(stack: &mut Stack, store: &mut Store, d: u32, s: u32, n: u32) -> bool {
    stack.push_value(Val::I32(d));
    stack.push_value(Val::I32(s));
    stack.push_value(Val::I32(n));
    memory_copy(stack, store).is_ok()
}

#[test]
fn memory_copy_to_a_higher_address_moves_the_bytes() {
    let (mut stack, mut store) = memory_machine((10u8..26).collect());
    assert!(copy(&mut stack, &mut store, 2, 0, 3));
    assert_eq!(&store.mems[0].data[0..6], &[10, 11, 10, 11, 12, 15]);
    assert_eq!(stack.len(), 1);
}

#[test]
fn memory_copy_to_a_lower_address_writes_from_the_count_down() {
    let (mut stack, mut store) = memory_machine((10u8..26).collect());
    assert!(copy(&mut stack, &mut store, 1, 4, 2));
    assert_eq!(&store.mems[0].data[0..6], &[10, 15, 14, 13, 14, 15]);
    assert_eq!(stack.len(), 1);
}

#[test]
fn memory_copy_of_the_whole_memory_to_itself_traps() {
    let (mut stack, mut store) = memory_machine(vec![7u8; 16]);
    assert!(!copy(&mut stack, &mut store, 0, 0, 16));
    assert_eq!(store.mems[0].data, vec![7u8; 16]);
}

#[test]
fn memory_copy_past_the_end_traps() {
    let (mut stack, mut store) = memory_machine(vec![7u8; 16]);
    assert!(!copy(&mut stack, &mut store, 10, 0, 8));
    assert_eq!(store.mems[0].data, vec![7u8; 16]);
}

#[test]
fn parses_memory_copy_and_fill_with_their_reserved_bytes() {
    assert_eq!(InstructionType::parse(&[0xFC, 0x0A, 0x00, 0x00, 0x0B], 0), Ok((4, InstructionType::MemoryCopy)));
    assert!(InstructionType::parse(&[0xFC, 0x0A, 0x00, 0x01], 0).is_err());
    assert_eq!(InstructionType::parse(&[0xFC, 0x0B, 0x00], 0), Ok((3, InstructionType::MemoryFill)));
    assert!(InstructionType::parse(&[0xFC, 0x0B], 0).is_err());
}

#[test]
fn parses_vector_constants_and_shuffles() {
    assert_eq!(
        InstructionType::parse(&[0xFD, 0x0C, 0x02, 0xAA, 0xBB, 0x0B], 0),
        Ok((5, InstructionType::V128Const(vec![0xAA, 0xBB])))
    );
    assert!(InstructionType::parse(&[0xFD, 0x0C, 0x03, 0xAA], 0).is_err());
    assert_eq!(
        InstructionType::parse(&[0xFD, 0x0D, 0x02, 0x01, 0x00], 0),
        Ok((5, InstructionType::I8x16Shuffle(vec![LaneIdx(1), LaneIdx(0)])))
    );
}

#[test]
fn parses_branch_tables_typed_selects_and_memory_size() {
    assert_eq!(
        InstructionType::parse(&[0x0E, 0x02, 0x00, 0x01, 0x02], 0),
        Ok((
            5,
            InstructionType::BrTable(BrTableArg {
                labels: vec![LabelIdx(U32Type(0)), LabelIdx(U32Type(1))],
                default: LabelIdx(U32Type(2)),
            })
        ))
    );
    assert!(InstructionType::parse(&[0x0E, 0x02, 0x00, 0x01], 0).is_err());
    assert_eq!(
        InstructionType::parse(&[0x1C, 0x01, 0x7F], 0),
        Ok((3, InstructionType::SelectVec(vec![ValType::NumType(NumType::I32)])))
    );
    assert_eq!(InstructionType::parse(&[0x3F, 0x00], 0), Ok((2, InstructionType::MemorySize)));
    assert_eq!(InstructionType::parse(&[0x40, 0x00], 0), Ok((2, InstructionType::MemoryGrow)));
    assert!(InstructionType::parse(&[0x40, 0x01], 0).is_err());
}

#[test]
fn parses_a_block_with_its_body() {
    let (p, instr) = InstructionType::parse(&[0x02, 0x40, 0x01, 0x1A, 0x0B, 0x0B], 0).unwrap();
    assert_eq!(p, 5);
    match instr {
        InstructionType::Block(b) => {
            assert_eq!(b.blocktype, BlockType::Empty);
            assert_eq!(*b.instructions, vec![InstructionType::Nop, InstructionType::Drop]);
        },
        other => panic!("not a block: {:?}", other),
    }
    assert!(InstructionType::parse(&[0x02, 0x40, 0x01], 0).is_err());
}

#[test]
fn parse_all_to_vec_collects_up_to_the_terminator() {
    assert_eq!(
        parse_all_to_vec(&[0x01, 0x1A, 0x0B, 0xAA], 0, 0x0B),
        Ok((3, vec![InstructionType::Nop, InstructionType::Drop]))
    );
    assert!(parse_all_to_vec(&[0x01, 0x1A], 0, 0x0B).is_err());
}

#[test]
fn parses_a_global_with_its_initialiser() {
    assert_eq!(
        Global::parse(&[0x7F, 0x01, 0x41, 0x05, 0x0B], 0),
        Ok((
            5,
            Global {
                global_type: GlobalType { mut_type: MutType::Var, val_type: ValType::NumType(NumType::I32) },
                init: ExpressionType { instructions: vec![InstructionType::I32Const(I32Type(5))] },
            }
        ))
    );
    assert!(Global::parse(&[0x7F, 0x01, 0x41, 0x05], 0).is_err());
}

#[test]
fn parses_data_segments_of_each_form() {
    match DataType::parse(&[0x00, 0x41, 0x02, 0x0B, 0x02, 0xAA, 0xBB], 0).unwrap() {
        (7, DataType::Active0(d)) => {
            assert_eq!(d.init, vec![0xAA, 0xBB]);
            assert_eq!(d.mode.offset.instructions, vec![InstructionType::I32Const(I32Type(2))]);
        },
        other => panic!("unexpected: {:?}", other),
    }
    match DataType::parse(&[0x01, 0x01, 0xCC], 0).unwrap() {
        (3, DataType::Passive(d)) => assert_eq!(d.init, vec![0xCC]),
        other => panic!("unexpected: {:?}", other),
    }
    match DataType::parse(&[0x02, 0x00, 0x41, 0x00, 0x0B, 0x00], 0).unwrap() {
        (6, DataType::Active(d)) => {
            assert_eq!(d.mode.memory, MemIdx(U32Type(0)));
            assert!(d.init.is_empty());
        },
        other => panic!("unexpected: {:?}", other),
    }
    assert!(DataType::parse(&[0x03], 0).is_err());
}

#[test]
fn parses_element_segments_with_function_indices() {
    match ElementSegmentType::parse(&[0x00, 0x41, 0x00, 0x0B, 0x02, 0x03, 0x04], 0).unwrap() {
        (7, ElementSegmentType::Active0Functions(seg)) => {
            assert_eq!(seg.init, vec![FuncIdx(U32Type(3)), FuncIdx(U32Type(4))]);
        },
        other => panic!("unexpected: {:?}", other),
    }
    match ElementSegmentType::parse(&[0x02, 0x01, 0x41, 0x00, 0x0B, 0x00, 0x01, 0x05], 0).unwrap() {
        (8, ElementSegmentType::ElemKindActiveFunctions(seg)) => {
            assert_eq!(seg.mode.table_idx, TableIdx(U32Type(1)));
            assert_eq!(seg.elem_kind, ElemKind::FuncRef);
            assert_eq!(seg.init, vec![FuncIdx(U32Type(5))]);
        },
        other => panic!("unexpected: {:?}", other),
    }
    assert!(ElementSegmentType::parse(&[0x08], 0).is_err());
}

#[test]
fn module_sections_hold_what_their_parsers_read() {
    let mut bytes: Vec<u8> = vec![0x00, 0x61, 0x73, 0x6D, 0x01, 0x00, 0x00, 0x00];
    bytes.extend_from_slice(&[0x01, 0x08, 0x02, 0x60, 0x01, 0x7D, 0x00, 0x60, 0x00, 0x00]);
    bytes.extend_from_slice(&[
        0x02, 0x18, 0x02, 0x03, 0x66, 0x6F, 0x6F, 0x03, 0x62, 0x61, 0x72, 0x00, 0x00, 0x02, 0x6A, 0x73, 0x06, 0x67,
        0x6C, 0x6F, 0x62, 0x61, 0x6C, 0x03, 0x7F, 0x01,
    ]);
    bytes.extend_from_slice(&[0x03, 0x02, 0x01, 0x01]);
    bytes.extend_from_slice(&[0x04, 0x05, 0x01, 0x70, 0x01, 0x00, 0x01]);
    bytes.extend_from_slice(&[0x07, 0x05, 0x01, 0x01, 0x65, 0x00, 0x01]);
    bytes.extend_from_slice(&[0x0A, 0x08, 0x01, 0x06, 0x01, 0x01, 0x7F, 0x41, 0x2A, 0x0B]);
    let (_, m) = ModuleParser::parse(&bytes).unwrap();
    assert_eq!(m.types.len(), 2);
    assert_eq!(m.types[0].parameters, vec![ValType::NumType(NumType::F32)]);
    assert!(m.types[1].parameters.is_empty() && m.types[1].results.is_empty());
    assert_eq!(m.imports.len(), 2);
    assert_eq!(m.imports[0].module.0, "foo");
    assert_eq!(m.imports[0].name.0, "bar");
    assert_eq!(m.imports[1].name.0, "global");
    assert_eq!(
        m.imports[1].desc,
        rasmus::entities::module::ImportDescription::Global(GlobalType {
            mut_type: MutType::Var,
            val_type: ValType::NumType(NumType::I32),
        })
    );
    assert_eq!(m.funcs, vec![rasmus::entities::types::TypeIdx(U32Type(1))]);
    assert_eq!(m.tables[0].limits, LimitsType { min: U32Type(0), max: Some(U32Type(1)) });
    assert_eq!(m.exports[0].name.0, "e");
    assert_eq!(m.exports[0].desc, rasmus::entities::module::ExportDescription::Func(FuncIdx(U32Type(1))));
    assert_eq!(m.code[0].size, U32Type(6));
    assert_eq!(
        m.code[0].code.locals,
        vec![rasmus::entities::module::LocalsType { n: U32Type(1), val_type: ValType::NumType(NumType::I32) }]
    );
    assert_eq!(m.code[0].code.expression.instructions, vec![InstructionType::I32Const(I32Type(42))]);
}

#[test]
fn imports_resolve_to_the_exports_of_their_name() {
    let global_type = GlobalType { mut_type: MutType::Const, val_type: ValType::NumType(NumType::I64) };
    let mut module = rasmus::entities::module::Module::default();
    module.imports.push(rasmus::entities::module::ImportType {
        module: rasmus::entities::types::NameType("lib".to_string()),
        name: rasmus::entities::types::NameType("g".to_string()),
        desc: rasmus::entities::module::ImportDescription::Global(global_type),
    });
    let mut lib = ModuleInst::default();
    lib.exports.push(rasmus::instances::export::ExportInst {
        name: rasmus::entities::types::NameType("f".to_string()),
        value: rasmus::instances::export::ExternVal::Func(0),
    });
    lib.exports.push(rasmus::instances::export::ExportInst {
        name: rasmus::entities::types::NameType("g".to_string()),
        value: rasmus::instances::export::ExternVal::Global(3),
    });
    let store = Store::new();
    assert_eq!(
        rasmus::controller::resolve_imports(&module, &"lib".to_string(), &lib, &store),
        Some(vec![rasmus::instances::module::ExternalDependency::Global { global_addr: 3, global_type }])
    );
    assert_eq!(rasmus::controller::resolve_imports(&module, &"other".to_string(), &lib, &store), None);
    lib.exports[1].value = rasmus::instances::export::ExternVal::Mem(3);
    assert_eq!(rasmus::controller::resolve_imports(&module, &"lib".to_string(), &lib, &store), None);
}

#[test]
fn test_complete_module() {
    let mut bytes: Vec<u8> = vec![0x00, 0x61, 0x73, 0x6D, 0x01, 0x00, 0x00, 0x00];
    bytes.extend_from_slice(&[0x01, 0x08, 0x02, 0x60, 0x01, 0x7D, 0x00, 0x60, 0x00, 0x00]);
    bytes.extend_from_slice(&[
        0x02, 0x18, 0x02, 0x03, 0x66, 0x6F, 0x6F, 0x03, 0x62, 0x61, 0x72, 0x00, 0x00, 0x02, 0x6A, 0x73, 0x06, 0x67,
        0x6C, 0x6F, 0x62, 0x61, 0x6C, 0x03, 0x7F, 0x01,
    ]);
    bytes.extend_from_slice(&[0x03, 0x03, 0x02, 0x01, 0x01]);
    bytes.extend_from_slice(&[0x04, 0x05, 0x01, 0x70, 0x01, 0x00, 0x01]);
    bytes.extend_from_slice(&[0x05, 0x04, 0x01, 0x01, 0x01, 0x01]);
    bytes.extend_from_slice(&[0x06, 0x06, 0x01, 0x7F, 0x01, 0x41, 0x00, 0x0B]);
    bytes.extend_from_slice(&[0x07, 0x05, 0x01, 0x01, 0x65, 0x00, 0x01]);
    bytes.extend_from_slice(&[0x08, 0x01, 0x01]);
    bytes.extend_from_slice(&[0x09, 0x01, 0x00]);
    bytes.extend_from_slice(&[0x0A, 0x0A, 0x02, 0x02, 0x00, 0x0B, 0x05, 0x00, 0x41, 0x2A, 0x1A, 0x0B]);
    let (rest, m) = ModuleParser::parse(&bytes).unwrap();
    assert!(rest.is_empty());
    assert_eq!(
        m.types,
        vec![
            rasmus::entities::types::FuncType { parameters: vec![ValType::NumType(NumType::F32)], results: vec![] },
            rasmus::entities::types::FuncType { parameters: vec![], results: vec![] },
        ]
    );
    assert_eq!(
        m.imports,
        vec![
            rasmus::entities::module::ImportType {
                module: rasmus::entities::types::NameType("foo".into()),
                name: rasmus::entities::types::NameType("bar".into()),
                desc: rasmus::entities::module::ImportDescription::Func(rasmus::entities::types::TypeIdx(U32Type(0))),
            },
            rasmus::entities::module::ImportType {
                module: rasmus::entities::types::NameType("js".into()),
                name: rasmus::entities::types::NameType("global".into()),
                desc: rasmus::entities::module::ImportDescription::Global(GlobalType {
                    mut_type: MutType::Var,
                    val_type: ValType::NumType(NumType::I32),
                }),
            },
        ]
    );
    assert_eq!(
        m.funcs,
        vec![rasmus::entities::types::TypeIdx(U32Type(1)), rasmus::entities::types::TypeIdx(U32Type(1))]
    );
    assert_eq!(
        m.tables,
        vec![rasmus::entities::types::TableType {
            element_ref_type: rasmus::entities::types::RefType::FuncRef,
            limits: LimitsType { max: Some(U32Type(1)), min: U32Type(0) },
        }]
    );
    assert_eq!(m.mems, vec![MemType { limits: LimitsType { min: U32Type(1), max: Some(U32Type(1)) } }]);
    assert_eq!(m.globals.len(), 1);
    assert_eq!(m.globals[0].init.instructions, vec![InstructionType::I32Const(I32Type(0))]);
    assert_eq!(
        m.exports,
        vec![rasmus::entities::module::ExportType {
            name: rasmus::entities::types::NameType("e".into()),
            desc: rasmus::entities::module::ExportDescription::Func(FuncIdx(U32Type(1))),
        }]
    );
    assert_eq!(m.start, Some(rasmus::entities::module::StartType { func: FuncIdx(U32Type(1)) }));
    assert!(m.elems.is_empty());
    assert_eq!(m.code.len(), 2);
    assert_eq!(m.code[0].size, U32Type(2));
    assert!(m.code[0].code.locals.is_empty() && m.code[0].code.expression.instructions.is_empty());
    assert_eq!(m.code[1].size, U32Type(5));
    assert_eq!(
        m.code[1].code.expression.instructions,
        vec![InstructionType::I32Const(I32Type(42)), InstructionType::Drop]
    );
}

#[test]
fn module_section_errors_come_from_the_first_bad_section() {
    let header: Vec<u8> = vec![0x00, 0x61, 0x73, 0x6D, 0x01, 0x00, 0x00, 0x00];
    let with = |rest: &[u8]| {
        let mut b = header.clone();
        b.extend_from_slice(rest);
        ModuleParser::parse(&b).map(|(_, m)| m.types.len())
    };
    assert_eq!(with(&[0x0D, 0x00]), Err(SyntaxError::UnexpectedSectionIdValue));
    assert_eq!(with(&[0x01, 0x05, 0x00]), Err(SyntaxError::InvalidModuleSection));
    assert_eq!(with(&[0x0C, 0x01, 0x01]), Err(SyntaxError::DataCountDoesntMatchDataLen));
    assert_eq!(with(&[0x0C, 0x00]), Err(SyntaxError::InvalidDataCountModuleSection));
    assert_eq!(with(&[0x0B, 0x01, 0x00, 0x0C, 0x01, 0x00]), Ok(0));
    assert_eq!(with(&[0x01, 0x02, 0x01, 0x61]), Err(SyntaxError::InvalidTypesModuleSection));
    assert_eq!(with(&[0x01, 0x01, 0x00, 0x0D, 0x00]), Err(SyntaxError::UnexpectedSectionIdValue));
}
