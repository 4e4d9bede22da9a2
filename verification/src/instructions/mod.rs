//! The program's instructions.
pub mod common;
pub mod deposit;
pub mod initialize_amm;
pub mod initialize_pool;
pub mod set_paused;
pub mod swap;
pub mod transfer_admin;
pub mod update_fee;
pub mod withdraw;
