pub mod exec_binop;
pub mod float;
pub mod operands;
pub mod exec_unop;
pub mod bytes;
pub mod exec_const;
pub mod exec_parametric;
pub mod exec_ref;
pub mod exec_vector;
pub mod exec_vec;
pub mod exec_memory;
pub mod exec_table;
pub mod exec_variable;
pub mod exec_control;
pub mod exec_cvtop;
pub mod exec_relop;
pub mod executor;
pub mod instruction_laws;
