//! Error surfaces of the compiler and the executor.

use vstd::prelude::*;

verus! {

/// Errors surfaced by `compile` and the type builder.
#[derive(Debug, Clone, Copy, PartialEq, Eq)]
pub enum CompileError {
    /// A type, libfunc, function or variable reference misses the registry.
    UnknownId,
    /// A type declaration refers to a type declared at or after itself.
    CyclicType,
    /// Layout arithmetic would overflow the address space.
    LayoutOverflow,
    /// No emitter exists for this libfunc variant; the name says which.
    UnsupportedLibfunc(&'static str),
    /// No lowering exists for this type variant; the name says which.
    UnsupportedType(&'static str),
    /// An emitter broke the lowering contract (a block left unterminated, a
    /// result slot left empty, a branch of the wrong arity): a compiler bug.
    InvariantViolation,
}

/// Errors surfaced by the executor before or while running a function.
#[derive(Debug, Clone, Copy, PartialEq, Eq)]
pub enum RunError {
    /// The entry point does not exist.
    UnknownFunction,
    /// The argument count does not match the entry point's parameters.
    ArityMismatch,
    /// An argument's type does not match the parameter's type.
    TypeMismatch,
    /// The step budget ran out before the function returned.
    OutOfFuel,
    /// The emitted code read an undefined value or branched out of range: a
    /// compiler bug.
    InvariantViolation,
}

} // verus!
