pub mod block;
pub mod exec_br;
pub mod exec_brif;
pub mod exec_brtable;
pub mod exec_call;
pub mod exec_call_indirect;
pub mod exec_ifelse;
pub mod exec_return;
pub mod exec_unreachable;
pub mod utils;
