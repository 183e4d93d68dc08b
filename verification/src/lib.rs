//! Native code generator core for a statically typed, linear IR.
//!
//! The crate lowers a typed IR program (types, libfuncs, statements,
//! functions) into a platform-independent compiler IR ("MIR"): it computes
//! authoritative memory layouts for every source type, emits one small block
//! graph per libfunc invocation, wires the statement blocks of each function,
//! and exposes an executor that runs the emitted MIR with gas metering,
//! builtin accounting and a syscall handler interface.

pub mod compiler;
pub mod error;
pub mod executor;
pub mod felt252;
pub mod ffi;
pub mod libfuncs;
pub mod mir;
pub mod program;
pub mod runner;
pub mod runtime;
pub mod starknet;
pub mod types;
pub mod utils;
pub mod values;
