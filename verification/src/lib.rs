//! A verified emulator of a minimal 8-bit stored-program computer in the
//! SAP-1 style: a shared data bus, a 16-cell memory, general and special
//! purpose registers, a two-input arithmetic/flag unit, and a
//! microcode-driven fetch-decode-execute engine.

pub mod arithmetic_logic_unit;
pub mod databus;
pub mod microcode;
pub mod program_counter;
pub mod processing_unit;
pub mod register;
