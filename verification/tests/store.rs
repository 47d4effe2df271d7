use rasmus::entities::instructions::ExpressionType;
use rasmus::entities::module::{ExportDescription, ExportType, Module};
use rasmus::entities::types::{
    FuncIdx, FuncType, LimitsType, MemType, NameType, RefType, TableType, TypeIdx, U32Type,
};
use rasmus::instances::export::ExternVal;
use rasmus::instances::func::{FuncInst, FuncInstLocal, HostCode, HostFunc};
use rasmus::instances::module::ModuleInst;
use rasmus::instances::store::Store;
use std::rc::Rc;

#[test]
fn allocate_local_func() {
    let mut store = Store::new();

    let module_inst = Rc::new(ModuleInst {
        types: vec![FuncType { parameters: vec![], results: vec![] }],
        funcaddrs: vec![],
        ..Default::default()
    });

    let func = rasmus::entities::types::Func {
        func_type: TypeIdx(U32Type(0)),
        locals: vec![],
        body: ExpressionType { instructions: vec![] },
    };

    let module_func_type = module_inst.types[func.func_type.0 .0 as usize].clone();
    let expected_code = func.clone();
    let func_addr = store.allocate_local_func(func, module_inst);

    assert_eq!(func_addr, 0);

    if let Some(FuncInst::FuncInst(FuncInstLocal { func_type, code, .. })) = store.funcs.get(0) {
        assert_eq!(func_type, &module_func_type, "allocated local function type should match");
        assert_eq!(code, &expected_code, "allocated local function code should match");
    } else {
        panic!("local function should be allocated");
    }
}

#[test]
fn allocate_host_func() {
    let mut store = Store::new();

    let func_type = FuncType { parameters: vec![], results: vec![] };
    let expected_func_type = func_type.clone();

    let host_hode = HostCode;
    let expected_host_code = host_hode.clone();

    let func_addr = store.allocate_host_func(func_type, host_hode);

    assert_eq!(func_addr, 0);

    if let Some(FuncInst::HostFunc(HostFunc { func_type, host_code })) = store.funcs.get(0) {
        assert_eq!(func_type, &expected_func_type, "allocated host function type should match");
        assert_eq!(host_code, &expected_host_code, "allocated host function code should match");
    } else {
        panic!("host function should be allocated");
    }
}

#[test]
fn allocate_module() {}

#[test]
fn allocate_module_lays_out_addresses() {
    let mut store = Store::new();
    store.allocate_host_func(FuncType { parameters: vec![], results: vec![] }, HostCode);
    let mut module = Module::default();
    module.tables = vec![TableType {
        limits: LimitsType { min: U32Type(2), max: None },
        element_ref_type: RefType::FuncRef,
    }];
    module.mems = vec![MemType { limits: LimitsType { min: U32Type(1), max: Some(U32Type(1)) } }];
    module.exports = vec![ExportType {
        name: NameType("mem".into()),
        desc: ExportDescription::Mem(rasmus::entities::types::MemIdx(U32Type(0))),
    }];
    let inst = store.allocate_module(&module, &vec![], vec![], vec![]).unwrap();
    assert_eq!(inst.tableaddrs, vec![0]);
    assert_eq!(inst.memaddrs, vec![0]);
    assert_eq!(store.tables[0].elem.len(), 2);
    assert_eq!(store.mems[0].data.len(), 0x1_0000);
    assert_eq!(inst.exports.len(), 1);
    assert_eq!(inst.exports[0].value, ExternVal::Mem(0));
}

#[test]
fn allocate_module_refuses_an_export_out_of_range() {
    let mut store = Store::new();
    let mut module = Module::default();
    module.exports = vec![ExportType {
        name: NameType("f".into()),
        desc: ExportDescription::Func(FuncIdx(U32Type(3))),
    }];
    assert!(store.allocate_module(&module, &vec![], vec![], vec![]).is_err());
}

#[test]
fn allocate_module_refuses_an_invalid_memory() {
    let mut store = Store::new();
    let mut module = Module::default();
    module.mems = vec![MemType { limits: LimitsType { min: U32Type(0x1_0001), max: None } }];
    assert!(store.allocate_module(&module, &vec![], vec![], vec![]).is_err());
}
