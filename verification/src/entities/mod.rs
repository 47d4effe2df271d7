pub mod instructions;
pub mod module;
pub mod traits;
pub mod types;
