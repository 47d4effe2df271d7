use rasmus::entities::instructions::{MemArg, TableInitArg};
use rasmus::entities::types::{
    DataIdx, ElemIdx, GlobalIdx, GlobalType, LimitsType, LocalIdx, MemType, MutType, NumType,
    RefType, TableIdx, TableType, U32Type, ValType,
};
use rasmus::execute::exec_binop::{iadd_32, iadd_64, irotl_32, irotl_64, irotr_32, irotr_64, isub_32, isub_64};
use rasmus::execute::exec_control::utils::{pop_values_original_order, push_values};
use rasmus::execute::exec_memory::memory::{data_drop, memory_init};
use rasmus::execute::exec_memory::t_load::{i32_load, i64_load_8};
use rasmus::execute::exec_memory::t_store::{i32_store, i64_store8};
use rasmus::execute::exec_table::{elem_drop, table_get, table_init, table_set};
use rasmus::execute::exec_variable::{global_get, global_set, local_get, local_set};
use rasmus::instances::data::DataInst;
use rasmus::instances::elem::ElemInst;
use rasmus::instances::frame::Frame;
use rasmus::instances::global::GlobalInst;
use rasmus::instances::memory::MemInst;
use rasmus::instances::module::ModuleInst;
use rasmus::instances::ref_inst::RefInst;
use rasmus::instances::stack::Stack;
use rasmus::instances::store::Store;
use rasmus::instances::table::TableInst;
use rasmus::instances::value::Val;
use rasmus::sign::Sign;
use std::rc::Rc;

fn limits(min: u32) -> LimitsType {
    LimitsType { min: U32Type(min), max: None }
}

/// A store with one of each kind of instance, and a stack holding one frame whose
/// module refers to them at address 0.
fn machine(locals: Vec<Val>) -> (Stack, Store) {
    let mut store = Store::new();
    store.globals.push(GlobalInst {
        global_type: GlobalType { mut_type: MutType::Var, val_type: ValType::NumType(NumType::I32) },
        value: Val::I32(0),
    });
    store.tables.push(TableInst {
        table_type: TableType { limits: limits(4), element_ref_type: RefType::FuncRef },
        elem: vec![RefInst::Null(RefType::FuncRef); 4],
    });
    store.mems.push(MemInst { mem_type: MemType { limits: limits(1) }, data: vec![0u8; 64] });
    store.elems.push(Some(ElemInst { elem_type: RefType::FuncRef, elem: vec![RefInst::Func(7), RefInst::Func(8)] }));
    store.datas.push(Some(DataInst { data: vec![0xaa, 0xbb, 0xcc] }));
    let mut module = ModuleInst::default();
    module.globaladdrs.push(0);
    module.tableaddrs.push(0);
    module.memaddrs.push(0);
    module.elemaddrs.push(0);
    module.dataaddrs.push(0);
    let mut stack = Stack::new();
    stack.push_frame(Frame { module: Rc::new(module), locals, arity: None });
    (stack, store)
}

#[test]
fn local_get_reads_what_local_set_wrote() {
    let (mut stack, _store) = machine(vec![Val::I32(1), Val::I64(2)]);
    stack.push_value(Val::I32(99));
    local_set(&mut stack, &LocalIdx(U32Type(0))).unwrap();
    local_get(&mut stack, &LocalIdx(U32Type(0))).unwrap();
    assert_eq!(stack.pop_value(), Some(Val::I32(99)));
    local_get(&mut stack, &LocalIdx(U32Type(1))).unwrap();
    assert_eq!(stack.pop_value(), Some(Val::I64(2)));
    assert_eq!(stack.pop_value(), None);
}

#[test]
fn global_get_reads_what_global_set_wrote() {
    let (mut stack, mut store) = machine(vec![]);
    stack.push_value(Val::I32(0x1234));
    global_set(&mut stack, &mut store, &GlobalIdx(U32Type(0))).unwrap();
    global_get(&mut stack, &store, &GlobalIdx(U32Type(0))).unwrap();
    assert_eq!(stack.pop_value(), Some(Val::I32(0x1234)));
}

#[test]
fn table_get_reads_what_table_set_wrote() {
    let (mut stack, mut store) = machine(vec![]);
    stack.push_value(Val::I32(2));
    stack.push_value(Val::Ref(RefInst::Func(5)));
    table_set(&mut stack, &mut store, &TableIdx(U32Type(0))).unwrap();
    stack.push_value(Val::I32(2));
    table_get(&mut stack, &mut store, &TableIdx(U32Type(0))).unwrap();
    assert_eq!(stack.pop_value(), Some(Val::Ref(RefInst::Func(5))));
    stack.push_value(Val::I32(1));
    table_get(&mut stack, &mut store, &TableIdx(U32Type(0))).unwrap();
    assert_eq!(stack.pop_value(), Some(Val::Ref(RefInst::Null(RefType::FuncRef))));
}

#[test]
fn load_reads_what_store_wrote() {
    let (mut stack, mut store) = machine(vec![]);
    let memarg = MemArg(U32Type(4), U32Type(2));
    stack.push_value(Val::I32(8));
    stack.push_value(Val::I32(0xdead_beef));
    i32_store(&mut stack, &mut store, &memarg).unwrap();
    assert_eq!(&store.mems[0].data[12..16], &[0xef, 0xbe, 0xad, 0xde]);
    stack.push_value(Val::I32(8));
    i32_load(&mut stack, &mut store, &memarg).unwrap();
    assert_eq!(stack.pop_value(), Some(Val::I32(0xdead_beef)));
}

#[test]
fn narrow_load_reads_the_low_byte_of_a_narrow_store() {
    let (mut stack, mut store) = machine(vec![]);
    let memarg = MemArg(U32Type(0), U32Type(0));
    stack.push_value(Val::I32(3));
    stack.push_value(Val::I64(0x1_2345_6781));
    i64_store8(&mut stack, &mut store, &memarg).unwrap();
    stack.push_value(Val::I32(3));
    i64_load_8(&mut stack, &mut store, &memarg, Sign::Unsigned).unwrap();
    assert_eq!(stack.pop_value(), Some(Val::I64(0x81)));
}

#[test]
fn store_past_the_end_traps_and_writes_nothing() {
    let (mut stack, mut store) = machine(vec![]);
    let memarg = MemArg(U32Type(2), U32Type(0));
    stack.push_value(Val::I32(62));
    stack.push_value(Val::I32(0xffff_ffff));
    assert!(i32_store(&mut stack, &mut store, &memarg).is_err());
    assert!(store.mems[0].data.iter().all(|b| *b == 0));
}

#[test]
fn pop_values_gives_back_pushed_values_in_order() {
    let (mut stack, _store) = machine(vec![]);
    stack.push_value(Val::I32(1));
    let vs = vec![Val::I32(10), Val::I64(20), Val::I32(30)];
    push_values(&mut stack, vs.clone());
    let back = pop_values_original_order(&mut stack, 3).unwrap();
    assert_eq!(back, vs);
    assert_eq!(stack.pop_value(), Some(Val::I32(1)));
    assert_eq!(stack.pop_value(), None);
}

#[test]
fn pop_values_stops_at_a_frame() {
    let (mut stack, _store) = machine(vec![]);
    stack.push_value(Val::I32(1));
    assert!(pop_values_original_order(&mut stack, 2).is_err());
}

#[test]
fn sub_undoes_add() {
    let s = iadd_32(0xffff_fff0, 0x20).unwrap();
    assert_eq!(s, 0x10);
    assert_eq!(isub_32(s, 0x20).unwrap(), 0xffff_fff0);
    let t = iadd_64(u64::MAX, 2).unwrap();
    assert_eq!(t, 1);
    assert_eq!(isub_64(t, 2).unwrap(), u64::MAX);
}

#[test]
fn rotr_undoes_rotl() {
    let r = irotl_32(0x8000_0001, 4).unwrap();
    assert_eq!(r, 0x0000_0018);
    assert_eq!(irotr_32(r, 4).unwrap(), 0x8000_0001);
    assert_eq!(irotl_32(0x1234_5678, 36).unwrap(), irotl_32(0x1234_5678, 4).unwrap());
    let q = irotl_64(0x8000_0000_0000_0001, 1).unwrap();
    assert_eq!(q, 3);
    assert_eq!(irotr_64(q, 1).unwrap(), 0x8000_0000_0000_0001);
}

#[test]
fn dropped_data_cannot_be_dropped_or_used_again() {
    let (mut stack, mut store) = machine(vec![]);
    data_drop(&mut stack, &mut store, &DataIdx(U32Type(0))).unwrap();
    assert!(data_drop(&mut stack, &mut store, &DataIdx(U32Type(0))).is_err());
    stack.push_value(Val::I32(0));
    stack.push_value(Val::I32(0));
    stack.push_value(Val::I32(1));
    assert!(memory_init(&mut stack, &mut store, &DataIdx(U32Type(0))).is_err());
}

#[test]
fn memory_init_copies_data_bytes() {
    let (mut stack, mut store) = machine(vec![]);
    stack.push_value(Val::I32(10));
    stack.push_value(Val::I32(1));
    stack.push_value(Val::I32(2));
    memory_init(&mut stack, &mut store, &DataIdx(U32Type(0))).unwrap();
    assert_eq!(&store.mems[0].data[9..13], &[0, 0xbb, 0xcc, 0]);
}

#[test]
fn dropped_elems_cannot_be_dropped_or_used_again() {
    let (mut stack, mut store) = machine(vec![]);
    stack.push_value(Val::I32(0));
    stack.push_value(Val::I32(0));
    stack.push_value(Val::I32(2));
    let arg = TableInitArg(TableIdx(U32Type(0)), ElemIdx(U32Type(0)));
    table_init(&mut stack, &mut store, &arg).unwrap();
    assert_eq!(store.tables[0].elem[0], RefInst::Func(7));
    assert_eq!(store.tables[0].elem[1], RefInst::Func(8));
    elem_drop(&mut stack, &mut store, &ElemIdx(U32Type(0))).unwrap();
    assert!(elem_drop(&mut stack, &mut store, &ElemIdx(U32Type(0))).is_err());
    stack.push_value(Val::I32(0));
    stack.push_value(Val::I32(0));
    stack.push_value(Val::I32(1));
    assert!(table_init(&mut stack, &mut store, &arg).is_err());
}
