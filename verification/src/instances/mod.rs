pub mod data;
pub mod elem;
pub mod export;
pub mod frame;
pub mod func;
pub mod global;
pub mod instruction;
pub mod label;
pub mod memory;
pub mod module;
pub mod ref_inst;
pub mod stack;
pub mod table;
pub mod value;
pub mod store;
pub mod instantiation;
