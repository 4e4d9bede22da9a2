//! A constant-product automated market maker for two tokens: the
//! instruction decoding, account validation, state layout and pool
//! arithmetic of the program, with their contracts.
pub mod account;
pub mod address;
pub mod bytes;
pub mod entrypoint;
pub mod error;
pub mod instructions;
pub mod laws;
pub mod math;
pub mod pda;
pub mod state;
