//! A verified marshaling shim for the RISC-V SBI debug console extension.
//!
//! Each console operation is a single firmware call: a fixed extension
//! identifier, a function selector, and up to three argument words go in;
//! a (status, value) pair comes back.  This crate builds those argument
//! words and translates the returned pair into a count or a typed error.
//! The trap instruction itself is left to the surrounding program.

pub mod debug_console;
pub mod ecall;
