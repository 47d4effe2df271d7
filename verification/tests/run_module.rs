use rasmus::binary::module_parser::ModuleParser;
use rasmus::binary::parse_trait::ParseBin;
use rasmus::controller::run_func;
use rasmus::execute::float::{FloatBinop, FloatConvert, FloatOps, FloatRelop, FloatUnop, LaneConvert};
use rasmus::instances::module::ModuleInst;
use rasmus::instances::stack::Stack;
use rasmus::instances::store::Store;
use rasmus::instances::value::Val;
use rasmus::result::{RResult, Trap};

struct NoFloats;

impl FloatOps for NoFloats {
    fn unop_f32(&self, _op: FloatUnop, v: u32) -> u32 {
        v
    }
    fn unop_f64(&self, _op: FloatUnop, v: u64) -> u64 {
        v
    }
    fn binop_f32(&self, _op: FloatBinop, a: u32, _b: u32) -> u32 {
        a
    }
    fn binop_f64(&self, _op: FloatBinop, a: u64, _b: u64) -> u64 {
        a
    }
    fn relop_f32(&self, _op: FloatRelop, _a: u32, _b: u32) -> bool {
        false
    }
    fn relop_f64(&self, _op: FloatRelop, _a: u64, _b: u64) -> bool {
        false
    }
    fn convert(&self, _op: FloatConvert, _v: u64) -> RResult<u64> {
        Err(Trap)
    }
    fn lane_unop_f32(&self, _op: FloatUnop, v: u32) -> u32 {
        v
    }
    fn lane_unop_f64(&self, _op: FloatUnop, v: u64) -> u64 {
        v
    }
    fn lane_binop_f32(&self, _op: FloatBinop, a: u32, _b: u32) -> u32 {
        a
    }
    fn lane_binop_f64(&self, _op: FloatBinop, a: u64, _b: u64) -> u64 {
        a
    }
    fn lane_relop_f32(&self, _op: FloatRelop, _a: u32, _b: u32) -> bool {
        false
    }
    fn lane_relop_f64(&self, _op: FloatRelop, _a: u64, _b: u64) -> bool {
        false
    }
    fn lane_convert(&self, _op: LaneConvert, v: u64) -> u64 {
        v
    }
}

// (func (export "add") (param i32 i32) (result i32) local.get 0 local.get 1 i32.add)
const ADD_MODULE: [u8; 41] = [
    0x00, 0x61, 0x73, 0x6D, 0x01, 0x00, 0x00, 0x00, // header
    0x01, 0x07, 0x01, 0x60, 0x02, 0x7F, 0x7F, 0x01, 0x7F, // type section
    0x03, 0x02, 0x01, 0x00, // function section
    0x07, 0x07, 0x01, 0x03, 0x61, 0x64, 0x64, 0x00, 0x00, // export "add"
    0x0A, 0x09, 0x01, 0x07, 0x00, 0x20, 0x00, 0x20, 0x01, 0x6A, 0x0B, // code
];

#[test]
fn instantiates_and_runs_an_exported_function() {
    let (_, module) = ModuleParser::parse(&ADD_MODULE).unwrap();
    let mut store = Store::new();
    let mut stack = Stack::new();
    let inst = ModuleInst::instantiate(&mut store, &mut stack, &module, vec![], &NoFloats).unwrap();
    let result = run_func(inst, &module, "add", vec![Val::I32(2), Val::I32(40)], &mut stack, &mut store, &NoFloats);
    assert_eq!(result, Ok(vec![Val::I32(42)]));
}

#[test]
fn running_a_missing_export_traps() {
    let (_, module) = ModuleParser::parse(&ADD_MODULE).unwrap();
    let mut store = Store::new();
    let mut stack = Stack::new();
    let inst = ModuleInst::instantiate(&mut store, &mut stack, &module, vec![], &NoFloats).unwrap();
    let result = run_func(inst, &module, "sub", vec![], &mut stack, &mut store, &NoFloats);
    assert_eq!(result, Err(Trap));
}

// A memory, a global initialised to 7, and a start function that sets the global to 9.
const START_MODULE: [u8; 44] = [
    0x00, 0x61, 0x73, 0x6D, 0x01, 0x00, 0x00, 0x00, // header
    0x01, 0x04, 0x01, 0x60, 0x00, 0x00, // type section
    0x03, 0x02, 0x01, 0x00, // function section
    0x05, 0x03, 0x01, 0x00, 0x01, // memory section
    0x06, 0x06, 0x01, 0x7F, 0x01, 0x41, 0x07, 0x0B, // global section
    0x08, 0x01, 0x00, // start section
    0x0A, 0x08, 0x01, 0x06, 0x00, 0x41, 0x09, 0x24, 0x00, 0x0B, // code
];

// An active data segment writing 0xAA 0xBB at address 2.
const DATA_SECTION: [u8; 10] = [0x0B, 0x08, 0x01, 0x00, 0x41, 0x02, 0x0B, 0x02, 0xAA, 0xBB];

#[test]
fn instantiation_initialises_globals_and_memory_and_runs_the_start_function() {
    let (_, module) = ModuleParser::parse(&START_MODULE).unwrap();
    let mut store = Store::new();
    let mut stack = Stack::new();
    let inst = ModuleInst::instantiate(&mut store, &mut stack, &module, vec![], &NoFloats).unwrap();
    assert_eq!(stack.len(), 0);
    assert_eq!(store.globals[inst.globaladdrs[0]].value, Val::I32(9));
    assert_eq!(store.mems[inst.memaddrs[0]].data.len(), 0x1_0000);
    assert!(store.mems[inst.memaddrs[0]].data.iter().all(|b| *b == 0));
}

#[test]
fn instantiation_with_an_active_data_segment_traps_as_the_instance_has_no_data_addresses() {
    let mut bytes = START_MODULE.to_vec();
    bytes.extend_from_slice(&DATA_SECTION);
    let (_, module) = ModuleParser::parse(&bytes).unwrap();
    assert_eq!(module.datas.len(), 1);
    let mut store = Store::new();
    let mut stack = Stack::new();
    assert!(ModuleInst::instantiate(&mut store, &mut stack, &module, vec![], &NoFloats).is_err());
}
