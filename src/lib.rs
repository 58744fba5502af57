//! A hash time-locked swap engine: escrowed funds that a receiver can claim by
//! revealing a secret before a deadline, and that return to the sender after it.

pub mod contract;
pub mod error;
pub mod hash;
pub mod laws;
pub mod msg;
pub mod state;
