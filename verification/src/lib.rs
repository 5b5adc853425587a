//! Guarded memory bus and state lifecycle of an emulated 32-bit CPU.
//!
//! The instruction engine is a collaborator outside this crate. This crate
//! owns the emulated address space, answers the engine's byte accesses with a
//! bounds check, keeps the architectural state that the engine retires, and
//! hands out copies of it.

pub mod bus;
pub mod rv;
