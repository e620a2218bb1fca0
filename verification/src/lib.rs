//! Instrumentation layer for an EVM-style bytecode interpreter.
//!
//! An external observer can intercept every instruction, every nested
//! call/create sub-execution, every log emission and every account
//! self-destruct, without changing the base interpreter's dispatch or
//! opcode semantics. The layer wraps each entry of the 256-slot
//! instruction table with a pre/post observation protocol, overrides the
//! four frame-lifecycle hooks, and carries a completed sub-call's result
//! back to the caller in a [`call_outcome::CallOutcome`].

pub mod call_outcome;
pub mod handler_register;
pub mod host;
pub mod inspector;
pub mod laws;
pub mod lifecycle;
pub mod instruction;
pub mod machine;
pub mod types;
