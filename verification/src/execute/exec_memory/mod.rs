pub mod access;
pub mod t_load;
pub mod t_store;
pub mod memory_bytes;
pub mod memory;
