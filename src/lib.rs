//! Verified core of a pooled-custody fund: instruction encoding, program-derived
//! address checks, oracle valuation, fee and mint arithmetic, and the deposit,
//! withdrawal and custody state machine.

pub mod action;
pub mod admin;
pub mod address;
pub mod authority;
pub mod custody;
pub mod deposit;
pub mod error;
pub mod instruction;
pub mod laws;
pub mod limits;
pub mod math;
pub mod oracle;
pub mod state;
pub mod validate;
pub mod withdrawal;
