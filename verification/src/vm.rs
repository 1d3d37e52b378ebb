//! A deterministic, gas-metered stack machine.
//!
//! `bytecode` holds the instruction set, `gas` the cost table and the meter,
//! `interpreter` the fetch-charge-execute loop and its mathematical model.

pub mod bytecode;
pub mod gas;
pub mod interpreter;
