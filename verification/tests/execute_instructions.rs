use rasmus::entities::instructions::{BlockInstructionType, BlockType, InstructionType, LoopInstructionType};
use rasmus::entities::types::{F32Type, F64Type, I32Type, I64Type, LabelIdx, U32Type};
use rasmus::execute::exec_const::v128_from_vec;
use rasmus::execute::exec_vector::lanes::vec_from_lanes;
use rasmus::execute::executor::{execute_instruction, ExitType};
use rasmus::execute::float::{FloatBinop, FloatConvert, FloatOps, FloatRelop, FloatUnop, LaneConvert};
use rasmus::instances::stack::Stack;
use rasmus::instances::store::Store;
use rasmus::instances::value::Val;
use rasmus::result::RResult;
use std::rc::Rc;

struct TestFloats;

fn unop32(op: FloatUnop, v: f32) -> f32 {
    match op {
        FloatUnop::Sqrt => v.sqrt(),
        FloatUnop::Ceil => v.ceil(),
        FloatUnop::Floor => v.floor(),
        FloatUnop::Trunc => v.trunc(),
        FloatUnop::Nearest => v.round(),
    }
}

fn unop64(op: FloatUnop, v: f64) -> f64 {
    match op {
        FloatUnop::Sqrt => v.sqrt(),
        FloatUnop::Ceil => v.ceil(),
        FloatUnop::Floor => v.floor(),
        FloatUnop::Trunc => v.trunc(),
        FloatUnop::Nearest => v.round(),
    }
}

fn binop32(op: FloatBinop, a: f32, b: f32) -> f32 {
    match op {
        FloatBinop::Add => a + b,
        FloatBinop::Sub => a - b,
        FloatBinop::Mul => a * b,
        FloatBinop::Div => a / b,
        FloatBinop::Min | FloatBinop::Pmin => a.min(b),
        FloatBinop::Max | FloatBinop::Pmax => a.max(b),
    }
}

fn binop64(op: FloatBinop, a: f64, b: f64) -> f64 {
    match op {
        FloatBinop::Add => a + b,
        FloatBinop::Sub => a - b,
        FloatBinop::Mul => a * b,
        FloatBinop::Div => a / b,
        FloatBinop::Min | FloatBinop::Pmin => a.min(b),
        FloatBinop::Max | FloatBinop::Pmax => a.max(b),
    }
}

fn relop<T: PartialOrd>(op: FloatRelop, a: T, b: T) -> bool {
    match op {
        FloatRelop::Eq => a == b,
        FloatRelop::Ne => a != b,
        FloatRelop::Lt => a < b,
        FloatRelop::Gt => a > b,
        FloatRelop::Le => a <= b,
        FloatRelop::Ge => a >= b,
    }
}

impl FloatOps for TestFloats {
    fn unop_f32(&self, op: FloatUnop, v: u32) -> u32 {
        unop32(op, f32::from_bits(v)).to_bits()
    }
    fn unop_f64(&self, op: FloatUnop, v: u64) -> u64 {
        unop64(op, f64::from_bits(v)).to_bits()
    }
    fn binop_f32(&self, op: FloatBinop, a: u32, b: u32) -> u32 {
        binop32(op, f32::from_bits(a), f32::from_bits(b)).to_bits()
    }
    fn binop_f64(&self, op: FloatBinop, a: u64, b: u64) -> u64 {
        binop64(op, f64::from_bits(a), f64::from_bits(b)).to_bits()
    }
    fn relop_f32(&self, op: FloatRelop, a: u32, b: u32) -> bool {
        relop(op, f32::from_bits(a), f32::from_bits(b))
    }
    fn relop_f64(&self, op: FloatRelop, a: u64, b: u64) -> bool {
        relop(op, f64::from_bits(a), f64::from_bits(b))
    }
    fn convert(&self, op: FloatConvert, v: u64) -> RResult<u64> {
        Ok(match op {
            FloatConvert::F32ConvertI32U => ((v as u32) as f32).to_bits() as u64,
            FloatConvert::F32ConvertI32S => ((v as u32 as i32) as f32).to_bits() as u64,
            FloatConvert::F64ConvertI32U => ((v as u32) as f64).to_bits(),
            FloatConvert::F64PromoteF32 => (f32::from_bits(v as u32) as f64).to_bits(),
            FloatConvert::F32DemoteF64 => (f64::from_bits(v) as f32).to_bits() as u64,
            FloatConvert::I32TruncF32S => (f32::from_bits(v as u32) as i32) as u32 as u64,
            _ => 0,
        })
    }
    fn lane_unop_f32(&self, op: FloatUnop, v: u32) -> u32 {
        self.unop_f32(op, v)
    }
    fn lane_unop_f64(&self, op: FloatUnop, v: u64) -> u64 {
        self.unop_f64(op, v)
    }
    fn lane_binop_f32(&self, op: FloatBinop, a: u32, b: u32) -> u32 {
        self.binop_f32(op, a, b)
    }
    fn lane_binop_f64(&self, op: FloatBinop, a: u64, b: u64) -> u64 {
        self.binop_f64(op, a, b)
    }
    fn lane_relop_f32(&self, op: FloatRelop, a: u32, b: u32) -> bool {
        self.relop_f32(op, a, b)
    }
    fn lane_relop_f64(&self, op: FloatRelop, a: u64, b: u64) -> bool {
        self.relop_f64(op, a, b)
    }
    fn lane_convert(&self, _op: LaneConvert, v: u64) -> u64 {
        v
    }
}

fn test_instruction(setup: Vec<InstructionType>, instr: InstructionType, expected: Val) {
    let mut stack = Stack::new();
    let mut store = Store::new();
    for i in setup.iter() {
        execute_instruction(i, &mut stack, &mut store, &TestFloats).unwrap();
    }
    execute_instruction(&instr, &mut stack, &mut store, &TestFloats).unwrap();
    assert_eq!(stack.pop_value(), Some(expected));
}

fn run_all(instrs: Vec<InstructionType>) -> (Stack, RResult<ExitType>) {
    let mut stack = Stack::new();
    let mut store = Store::new();
    let mut last = Ok(ExitType::Completed);
    for i in instrs.iter() {
        last = execute_instruction(i, &mut stack, &mut store, &TestFloats);
        if last.is_err() {
            break;
        }
    }
    (stack, last)
}

#[test]
fn i32_const() {
    test_instruction(vec![], InstructionType::I32Const(I32Type(1)), Val::I32(1));
}

#[test]
fn i64_const() {
    test_instruction(vec![], InstructionType::I64Const(I64Type(1)), Val::I64(1));
}

#[test]
fn f32_const() {
    test_instruction(
        vec![],
        InstructionType::F32Const(F32Type(1.0f32.to_bits())),
        Val::F32(1.0f32.to_bits()),
    );
}

#[test]
fn f64_const() {
    test_instruction(
        vec![],
        InstructionType::F64Const(F64Type(1.0f64.to_bits())),
        Val::F64(1.0f64.to_bits()),
    );
}

#[test]
fn v128_const() {
    test_instruction(
        vec![],
        InstructionType::V128Const(vec![1, 1, 1, 1, 1, 1, 1, 1, 1, 1, 1, 1, 1, 1, 1, 1]),
        Val::Vec(v128_from_vec(&vec![1, 1, 1, 1, 1, 1, 1, 1, 1, 1, 1, 1, 1, 1, 1, 1]).unwrap()),
    );
}

#[test]
fn i32_clz_no_zeros() {
    test_instruction(
        vec![InstructionType::I32Const(I32Type(u32::MAX))],
        InstructionType::I32Clz,
        Val::I32(0),
    );
}

#[test]
fn i32_clz_except_first() {
    test_instruction(
        vec![InstructionType::I32Const(I32Type(1))],
        InstructionType::I32Clz,
        Val::I32(u32::BITS - 1),
    );
}

#[test]
fn i64_clz_no_zeros() {
    test_instruction(
        vec![InstructionType::I64Const(I64Type(u64::MAX))],
        InstructionType::I64Clz,
        Val::I64(0),
    );
}

#[test]
fn i64_clz_except_first() {
    test_instruction(
        vec![InstructionType::I64Const(I64Type(1))],
        InstructionType::I64Clz,
        Val::I64((u64::BITS - 1) as u64),
    );
}

#[test]
fn bitmask_8x16() {
    test_instruction(
        vec![InstructionType::V128Const(
            vec_from_lanes(vec![0u8, -1i8 as u8, 1, 0, 0, 0, 0, 0, 0, 0, 0, 0, 0, 0, 0, 0])
                .to_be_bytes()
                .to_vec(),
        )],
        InstructionType::I8x16Bitmask,
        Val::I32(2i32 as u32),
    );

    test_instruction(
        vec![InstructionType::V128Const(
            vec_from_lanes(vec![0u8, -1i8 as u8, 1, 0, 0, -1i8 as u8, 0, 0, 0, 0, 0, 0, 0, 0, 0, 0])
                .to_be_bytes()
                .to_vec(),
        )],
        InstructionType::I8x16Bitmask,
        Val::I32(34i32 as u32),
    );
}

#[test]
fn i32_add_wraps() {
    test_instruction(
        vec![InstructionType::I32Const(I32Type(u32::MAX)), InstructionType::I32Const(I32Type(2))],
        InstructionType::I32Add,
        Val::I32(1),
    );
}

#[test]
fn i32_div_s_divides_euclidean() {
    test_instruction(
        vec![InstructionType::I32Const(I32Type((-7i32) as u32)), InstructionType::I32Const(I32Type(2))],
        InstructionType::I32DivS,
        Val::I32((-4i32) as u32),
    );
}

#[test]
fn i64_div_s_rounds_toward_zero() {
    test_instruction(
        vec![InstructionType::I64Const(I64Type((-7i64) as u64)), InstructionType::I64Const(I64Type(2))],
        InstructionType::I64DivS,
        Val::I64((-3i64) as u64),
    );
}

#[test]
fn i32_div_by_zero_traps() {
    let (_, r) = run_all(vec![
        InstructionType::I32Const(I32Type(7)),
        InstructionType::I32Const(I32Type(0)),
        InstructionType::I32DivU,
    ]);
    assert!(r.is_err());
}

#[test]
fn i64_lt_s_compares_signed() {
    test_instruction(
        vec![InstructionType::I64Const(I64Type(u64::MAX)), InstructionType::I64Const(I64Type(1))],
        InstructionType::I64LtS,
        Val::I32(1),
    );
}

#[test]
fn i64_extend_i32_s_extends_sign() {
    test_instruction(
        vec![InstructionType::I32Const(I32Type(0x8000_0000))],
        InstructionType::I64ExtendI32S,
        Val::I64(0xFFFF_FFFF_8000_0000),
    );
}

#[test]
fn i32_wrap_i64_keeps_low_bits() {
    test_instruction(
        vec![InstructionType::I64Const(I64Type(0x1_2345_6789))],
        InstructionType::I32WrapI64,
        Val::I32(0x2345_6789),
    );
}

#[test]
fn f32_add_through_float_ops() {
    test_instruction(
        vec![
            InstructionType::F32Const(F32Type(1.5f32.to_bits())),
            InstructionType::F32Const(F32Type(2.0f32.to_bits())),
        ],
        InstructionType::F32Add,
        Val::F32(3.5f32.to_bits()),
    );
}

#[test]
fn nop_changes_nothing() {
    let (mut stack, r) = run_all(vec![InstructionType::I32Const(I32Type(5)), InstructionType::Nop]);
    assert_eq!(r, Ok(ExitType::Completed));
    assert_eq!(stack.pop_value(), Some(Val::I32(5)));
    assert_eq!(stack.pop_value(), None);
}

#[test]
fn unreachable_traps() {
    let (_, r) = run_all(vec![InstructionType::Unreachable]);
    assert!(r.is_err());
}

#[test]
fn block_keeps_its_result() {
    let body = vec![InstructionType::I32Const(I32Type(7))];
    let (mut stack, r) = run_all(vec![InstructionType::Block(BlockInstructionType {
        blocktype: BlockType::ValType(rasmus::entities::types::ValType::NumType(
            rasmus::entities::types::NumType::I32,
        )),
        instructions: Rc::new(body),
    })]);
    assert_eq!(r, Ok(ExitType::Completed));
    assert_eq!(stack.pop_value(), Some(Val::I32(7)));
    assert_eq!(stack.len(), 0);
}

#[test]
fn br_leaves_block_with_its_value() {
    let body = vec![
        InstructionType::I32Const(I32Type(1)),
        InstructionType::I32Const(I32Type(9)),
        InstructionType::Br(LabelIdx(U32Type(0))),
        InstructionType::Unreachable,
    ];
    let (mut stack, r) = run_all(vec![InstructionType::Block(BlockInstructionType {
        blocktype: BlockType::ValType(rasmus::entities::types::ValType::NumType(
            rasmus::entities::types::NumType::I32,
        )),
        instructions: Rc::new(body),
    })]);
    assert_eq!(r, Ok(ExitType::Completed));
    assert_eq!(stack.pop_value(), Some(Val::I32(9)));
    assert_eq!(stack.len(), 0);
}

#[test]
fn br_without_label_traps() {
    let (_, r) = run_all(vec![InstructionType::Br(LabelIdx(U32Type(0)))]);
    assert!(r.is_err());
}

#[test]
fn br_if_zero_falls_through() {
    let body = vec![
        InstructionType::I32Const(I32Type(0)),
        InstructionType::BrIf(LabelIdx(U32Type(0))),
        InstructionType::I32Const(I32Type(3)),
    ];
    let (mut stack, r) = run_all(vec![InstructionType::Block(BlockInstructionType {
        blocktype: BlockType::ValType(rasmus::entities::types::ValType::NumType(
            rasmus::entities::types::NumType::I32,
        )),
        instructions: Rc::new(body),
    })]);
    assert_eq!(r, Ok(ExitType::Completed));
    assert_eq!(stack.pop_value(), Some(Val::I32(3)));
}

#[test]
fn loop_with_br_if_counts_down() {
    // A loop that runs while a value it keeps on the stack is not zero: the loop takes
    // that value as its parameter through a type without results, so here the count
    // lives in the operand of br_if only and the loop ends after one pass.
    let body = vec![InstructionType::I32Const(I32Type(0)), InstructionType::BrIf(LabelIdx(U32Type(0)))];
    let (stack, r) = run_all(vec![InstructionType::Loop(LoopInstructionType {
        blocktype: BlockType::Empty,
        instructions: Rc::new(body),
    })]);
    assert_eq!(r, Ok(ExitType::Completed));
    assert_eq!(stack.len(), 0);
}

#[test]
fn return_without_frame_traps() {
    let (_, r) = run_all(vec![InstructionType::Return]);
    assert!(r.is_err());
}

#[test]
fn call_indirect_through_a_null_entry_traps_after_popping_the_index() {
    let mut store = Store::new();
    store.tables.push(rasmus::instances::table::TableInst {
        table_type: rasmus::entities::types::TableType { limits: rasmus::entities::types::LimitsType { min: U32Type(2), max: None }, element_ref_type: rasmus::entities::types::RefType::FuncRef },
        elem: vec![rasmus::instances::ref_inst::RefInst::Null(rasmus::entities::types::RefType::FuncRef); 2],
    });
    let mut module = rasmus::instances::module::ModuleInst::default();
    module.types.push(rasmus::entities::types::FuncType { parameters: vec![], results: vec![] });
    module.tableaddrs.push(0);
    let mut stack = Stack::new();
    stack.push_frame(rasmus::instances::frame::Frame { module: Rc::new(module), locals: vec![], arity: None });
    stack.push_value(Val::I32(9));
    stack.push_value(Val::I32(1));
    let instr = InstructionType::CallIndirect(rasmus::entities::instructions::CallIndirectArg(rasmus::entities::types::TableIdx(U32Type(0)), rasmus::entities::types::TypeIdx(U32Type(0))));
    assert!(execute_instruction(&instr, &mut stack, &mut store, &TestFloats).is_err());
    assert_eq!(stack.len(), 2);
    assert_eq!(stack.pop_value(), Some(Val::I32(9)));
    assert_eq!(store.tables[0].elem, vec![rasmus::instances::ref_inst::RefInst::Null(rasmus::entities::types::RefType::FuncRef); 2]);
    assert!(store.funcs.is_empty());
}

#[test]
fn nested_blocks_pass_their_results_out() {
    let inner = vec![InstructionType::I32Const(I32Type(4)), InstructionType::I32Const(I32Type(5)), InstructionType::I32Add];
    let i32_result = BlockType::ValType(rasmus::entities::types::ValType::NumType(rasmus::entities::types::NumType::I32));
    let outer = vec![
        InstructionType::Block(BlockInstructionType { blocktype: i32_result, instructions: Rc::new(inner) }),
        InstructionType::I32Const(I32Type(1)),
        InstructionType::I32Add,
    ];
    let (mut stack, r) = run_all(vec![InstructionType::Block(BlockInstructionType {
        blocktype: i32_result,
        instructions: Rc::new(outer),
    })]);
    assert_eq!(r, Ok(ExitType::Completed));
    assert_eq!(stack.pop_value(), Some(Val::I32(10)));
    assert_eq!(stack.len(), 0);
}

#[test]
fn a_trap_in_a_nested_block_stops_the_run_where_it_happened() {
    let inner = vec![InstructionType::I32Const(I32Type(4)), InstructionType::Unreachable];
    let outer = vec![
        InstructionType::I32Const(I32Type(1)),
        InstructionType::Block(BlockInstructionType { blocktype: BlockType::Empty, instructions: Rc::new(inner) }),
        InstructionType::I32Const(I32Type(2)),
    ];
    let (mut stack, r) = run_all(vec![InstructionType::Block(BlockInstructionType {
        blocktype: BlockType::Empty,
        instructions: Rc::new(outer),
    })]);
    assert!(r.is_err());
    assert_eq!(stack.pop_value(), Some(Val::I32(4)));
    assert!(stack.pop_value().is_none());
}

#[test]
fn f32x4_replace_lane_past_the_fourth_lane_traps_and_keeps_the_stack() {
    let mut stack = Stack::new();
    let mut store = Store::new();
    stack.push_value(Val::Vec(0));
    stack.push_value(Val::F32(7));
    let r = execute_instruction(
        &InstructionType::F32x4ReplaceLane(rasmus::entities::types::LaneIdx(5)),
        &mut stack,
        &mut store,
        &TestFloats,
    );
    assert!(r.is_err());
    assert_eq!(stack.len(), 2);
    assert_eq!(stack.pop_value(), Some(Val::F32(7)));
}
