pub mod instructions;
pub mod module;
pub mod types;
