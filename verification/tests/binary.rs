use rasmus::binary::module_parser::ModuleParser;
use rasmus::binary::parse_trait::ParseBin;
use rasmus::binary::parser_helpers::{read_s33_leb128, read_u32_leb128, read_u64_leb128};
use rasmus::binary::parsers::types::{parse_name, recognize_type};
use rasmus::binary::syntax_error::SyntaxError;
use rasmus::entities::instructions::{BlockType, ExpressionType, InstructionType, MemArg};
use rasmus::entities::module::ExportDescription;
use rasmus::entities::types::{FuncIdx, I32Type, LabelIdx, NumType, U32Type, ValType};

const SMALL_MODULE: [u8; 37] = [
    0x00, 0x61, 0x73, 0x6D, 0x01, 0x00, 0x00, 0x00, // header
    0x01, 0x05, 0x01, 0x60, 0x00, 0x01, 0x7F, // type section: () -> i32
    0x03, 0x02, 0x01, 0x00, // function section
    0x07, 0x05, 0x01, 0x01, 0x66, 0x00, 0x00, // export "f" = func 0
    0x0A, 0x06, 0x01, 0x04, 0x00, 0x41, 0x2A, 0x0B, // code: i32.const 42
    0x00, 0x01, 0x00, // custom section
];

#[test]
fn reads_unsigned_leb128() {
    let mut pos = 0usize;
    assert_eq!(read_u32_leb128(&[0xE5, 0x8E, 0x26], &mut pos), Ok(624485));
    assert_eq!(pos, 3);
    let mut pos = 0usize;
    assert_eq!(read_u64_leb128(&[0x7F], &mut pos), Ok(127));
    assert_eq!(pos, 1);
}

#[test]
fn unsigned_leb128_rejects_truncated_and_overlong_input() {
    let mut pos = 0usize;
    assert!(read_u32_leb128(&[0x80, 0x80], &mut pos).is_err());
    let mut pos = 0usize;
    assert!(read_u32_leb128(&[0x80, 0x80, 0x80, 0x80, 0x80, 0x01], &mut pos).is_err());
}

#[test]
fn reads_signed_33_bit_leb128() {
    let mut pos = 0usize;
    assert_eq!(read_s33_leb128(&[0x7F], &mut pos), Ok(-1));
    let mut pos = 0usize;
    assert_eq!(read_s33_leb128(&[0x80, 0x7F], &mut pos), Ok(-128));
    let mut pos = 0usize;
    assert_eq!(read_s33_leb128(&[0x3F], &mut pos), Ok(63));
}

#[test]
fn recognizes_value_types() {
    assert_eq!(recognize_type(0x7F), Some(ValType::NumType(NumType::I32)));
    assert_eq!(recognize_type(0x7C), Some(ValType::NumType(NumType::F64)));
    assert_eq!(recognize_type(0x00), None);
}

#[test]
fn parses_instructions() {
    assert_eq!(InstructionType::parse(&[0x41, 0x2A], 0), Ok((2, InstructionType::I32Const(I32Type(42)))));
    assert_eq!(InstructionType::parse(&[0x6A], 0), Ok((1, InstructionType::I32Add)));
    assert_eq!(InstructionType::parse(&[0x0C, 0x01], 0), Ok((2, InstructionType::Br(LabelIdx(U32Type(1))))));
    assert_eq!(
        InstructionType::parse(&[0x28, 0x02, 0x10], 0),
        Ok((3, InstructionType::I32Load(MemArg(U32Type(2), U32Type(16)))))
    );
    assert_eq!(InstructionType::parse(&[0xFD, 0x0E], 0), Ok((2, InstructionType::I8x16Swizzle)));
    assert_eq!(InstructionType::parse(&[0xFC, 0x00], 0), Ok((2, InstructionType::I32TruncSatF32S)));
    assert!(InstructionType::parse(&[0x06], 0).is_err());
    assert!(InstructionType::parse(&[], 0).is_err());
}

#[test]
fn parses_block_types() {
    assert_eq!(BlockType::parse(&[0x40], 0), Ok((1, BlockType::Empty)));
    assert_eq!(BlockType::parse(&[0x7E], 0), Ok((1, BlockType::ValType(ValType::NumType(NumType::I64)))));
}

#[test]
fn parses_expressions_up_to_end() {
    assert_eq!(
        ExpressionType::parse(&[0x41, 0x01, 0x1A, 0x0B], 0),
        Ok((4, ExpressionType { instructions: vec![InstructionType::I32Const(I32Type(1)), InstructionType::Drop] }))
    );
    assert_eq!(ExpressionType::parse(&[0x0B], 0), Ok((1, ExpressionType { instructions: vec![] })));
}

#[test]
fn parses_a_small_module() {
    let (rest, module) = ModuleParser::parse(&SMALL_MODULE).unwrap();
    assert!(rest.is_empty());
    assert_eq!(module.types.len(), 1);
    assert_eq!(module.types[0].results, vec![ValType::NumType(NumType::I32)]);
    assert_eq!(module.funcs.len(), 1);
    assert_eq!(module.exports[0].name.0, "f");
    assert_eq!(module.exports[0].desc, ExportDescription::Func(FuncIdx(U32Type(0))));
    assert_eq!(module.code[0].code.expression.instructions, vec![InstructionType::I32Const(I32Type(42))]);
}

#[test]
fn parses_a_header_only_module() {
    let (rest, module) = ModuleParser::parse(&SMALL_MODULE[..8]).unwrap();
    assert!(rest.is_empty());
    assert!(module.types.is_empty() && module.code.is_empty() && module.exports.is_empty());
}

#[test]
fn rejects_a_missing_magic_number() {
    assert_eq!(ModuleParser::parse(&[0x00, 0x61, 0x73]).map(|r| r.0), Err(SyntaxError::ModuleMagicNotFound));
}

#[test]
fn rejects_a_wrong_version() {
    assert_eq!(
        ModuleParser::parse(&[0x00, 0x61, 0x73, 0x6D, 0x02, 0x00, 0x00, 0x00]).map(|r| r.0),
        Err(SyntaxError::ModuleVersionNotFound)
    );
}

#[test]
fn rejects_an_unknown_section() {
    assert_eq!(
        ModuleParser::parse(&[0x00, 0x61, 0x73, 0x6D, 0x01, 0x00, 0x00, 0x00, 0x0D, 0x00]).map(|r| r.0),
        Err(SyntaxError::UnexpectedSectionIdValue)
    );
}

#[test]
fn parses_utf8_names() {
    let bytes = [0x03, 0x61, 0xC3, 0xA9, 0xFF];
    let (p, name) = parse_name(&bytes, 0).unwrap();
    assert_eq!(p, 4);
    assert_eq!(name.0, "aé");
}

#[test]
fn refuses_names_that_are_not_utf8() {
    let bytes = [0x02, 0xC3, 0x28];
    assert!(parse_name(&bytes, 0).is_err());
    let short = [0x05, 0x61];
    assert!(parse_name(&short, 0).is_err());
}

#[test]
fn rejects_a_section_that_runs_past_the_end() {
    let bytes = [0x00, 0x61, 0x73, 0x6D, 0x01, 0x00, 0x00, 0x00, 0x00, 0x05, 0x01];
    assert_eq!(ModuleParser::parse(&bytes).map(|r| r.0), Err(SyntaxError::InvalidModuleSection));
}

#[test]
fn a_later_start_section_replaces_an_earlier_one() {
    let bytes = [
        0x00, 0x61, 0x73, 0x6D, 0x01, 0x00, 0x00, 0x00, // header
        0x08, 0x01, 0x03, // start 3
        0x00, 0x00, // empty custom section
        0x08, 0x01, 0x05, // start 5
    ];
    let (_, module) = ModuleParser::parse(&bytes).unwrap();
    assert_eq!(module.start.map(|s| s.func), Some(FuncIdx(U32Type(5))));
    assert!(module.types.is_empty());
    assert!(module.code.is_empty());
}

fn leb128(mut v: u32) -> Vec<u8> {
    let mut out = Vec::new();
    loop {
        let byte = (v % 128) as u8;
        v /= 128;
        if v == 0 {
            out.push(byte);
            return out;
        }
        out.push(byte | 0x80);
    }
}

#[test]
fn reads_back_the_leb128_encoding_of_a_value() {
    for v in [0u32, 1, 127, 128, 300, 624485, 0x0FFF_FFFF, 0x1000_0000, u32::MAX] {
        let e = leb128(v);
        let mut pos = 0usize;
        assert_eq!(read_u32_leb128(&e, &mut pos), Ok(v));
        assert_eq!(pos, e.len());
    }
}
