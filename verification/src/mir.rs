//! The platform-independent compiler IR ("MIR") that lowering emits.
//!
//! A MIR function is a graph of blocks in SSA form: every block declares
//! parameters, holds a list of operations, and ends in exactly one
//! terminator.  Values are numbered function-wide; an operation writes fresh
//! value ids and reads earlier ones.  [`wf_function`] is the structural
//! contract every emitted function meets: all blocks terminated, all branch
//! targets in range, and every branch passing exactly as many arguments as
//! its target declares parameters.

use crate::error::CompileError;
use crate::felt252::Felt252;
use crate::program::{FeltBinaryOperator, IntOperator, IntTy, SyscallKind};
use vstd::prelude::*;

verus! {

/// A physical MIR type.
#[derive(Debug, PartialEq)]
pub enum MirType {
    /// An integer of the given bit width (`i1`, `i8`, ..., `i252`, `i504`).
    Int { bits: u32 },
    /// A pointer-sized opaque value.
    Ptr,
    /// A C-style struct of the given field types.
    Struct(Vec<MirType>),
    /// A raw byte region, used for enum payloads.
    Bytes { len: usize },
}

/// An operation's kind.  Operands are value ids.
#[derive(Debug, Clone, PartialEq)]
pub enum OpKind {
    /// A field-element constant.
    ConstFelt { value: Felt252 },
    /// A machine-integer constant.
    ConstInt { ty: IntTy, value: i128 },
    /// Field arithmetic modulo the prime (`Div` is never emitted).
    FeltBinary { op: FeltBinaryOperator, lhs: usize, rhs: usize },
    /// Zero test on a felt, yielding an `i1`.
    FeltIsZero { arg: usize },
    /// Magnitude order on two felts, yielding an `i1`.
    FeltLt { lhs: usize, rhs: usize },
    /// Two-way select on an `i1`.
    Select { cond: usize, if_true: usize, if_false: usize },
    /// Overflow-checked integer arithmetic; writes `(value, overflow_bit)`.
    IntOp { ty: IntTy, op: IntOperator, lhs: usize, rhs: usize },
    /// Integer equality, yielding an `i1`.
    IntEq { ty: IntTy, lhs: usize, rhs: usize },
    /// Strict integer order (signed for signed types), yielding an `i1`.
    IntLt { ty: IntTy, lhs: usize, rhs: usize },
    /// Adds a constant to a 64-bit builtin counter, wrapping.
    IncCounter { arg: usize, amount: u64 },
    /// Widening multiplication into the double-width type.
    IntWideMul { ty: IntTy, lhs: usize, rhs: usize },
    /// Zero-extension of an integer into a felt.
    IntToFelt252 { ty: IntTy, arg: usize },
    /// Truncation of a felt into an integer; the emitter guards the range.
    FeltToInt { ty: IntTy, arg: usize },
    /// Struct construction from field values.
    StructMake { fields: Vec<usize> },
    /// Extraction of one struct field.
    StructExtract { arg: usize, index: usize },
    /// Construction of an enum value with the given tag.
    EnumMake { tag: usize, arg: usize },
    /// The tag of an enum value, as a 64-bit integer.
    EnumTag { arg: usize },
    /// The payload of an enum value.
    EnumPayload { arg: usize },
    /// A fresh empty array.
    ArrayNew,
    /// An array with one value appended.
    ArrayAppend { arr: usize, item: usize },
    /// The length of an array, as a 32-bit integer.
    ArrayLen { arr: usize },
    /// One element of an array, by an in-range 32-bit index.
    ArrayRead { arr: usize, index: usize },
    /// A non-empty array split into its first element and the rest; writes
    /// `(rest, head)`.
    ArrayPop { arr: usize },
    /// A fresh empty dictionary, through the runtime allocator.
    DictNew,
    /// A dictionary lookup, through the runtime; writes
    /// `(entry, prior_value)`, the entry borrowing the dictionary.
    DictGet { dict: usize, key: usize },
    /// Commits an entry with a new value, through the runtime; writes the
    /// dictionary that owns the binding again.
    DictFinalize { entry: usize, value: usize },
    /// The Pedersen hash of two felts, through the runtime library.
    Pedersen { lhs: usize, rhs: usize },
    /// The Hades permutation of three felts, through the runtime library;
    /// writes the three permuted state felts.
    Hades { s0: usize, s1: usize, s2: usize },
    /// A syscall through the handler vtable at `slot`, its result read back
    /// from a stack slot of `result_layout`; writes
    /// `(remaining_gas, system, result_enum)`.
    Syscall {
        kind: SyscallKind,
        slot: u32,
        result_layout: crate::utils::Layout,
        gas: usize,
        system: usize,
        args: Vec<usize>,
    },
    /// A call to another function of the module; `sret` records whether the
    /// callee's physical convention returns through an out-pointer.
    Call { function: usize, sret: bool, args: Vec<usize> },
}

/// An operation: a kind and the value ids it writes.
#[derive(Debug, Clone, PartialEq)]
pub struct Operation {
    pub kind: OpKind,
    pub dests: Vec<usize>,
}

/// One case of a switch terminator.
#[derive(Debug, Clone, PartialEq)]
pub struct SwitchCase {
    pub value: u64,
    pub target: usize,
    pub args: Vec<usize>,
}

/// A block terminator.
#[derive(Debug, Clone, PartialEq)]
pub enum Terminator {
    Br { target: usize, args: Vec<usize> },
    CondBr {
        cond: usize,
        true_target: usize,
        true_args: Vec<usize>,
        false_target: usize,
        false_args: Vec<usize>,
    },
    Switch { flag: usize, default_target: usize, default_args: Vec<usize>, cases: Vec<SwitchCase> },
    Return { args: Vec<usize> },
}

/// A basic block: parameter value ids, operations, and at most one
/// terminator (exactly one once the function is finished).
#[derive(Debug, Clone, PartialEq)]
pub struct Block {
    pub params: Vec<usize>,
    pub ops: Vec<Operation>,
    pub term: Option<Terminator>,
}

/// A MIR function.  Block 0 is the entry.
#[derive(Debug, Clone, PartialEq)]
pub struct MirFunction {
    pub id: u64,
    pub n_values: usize,
    pub blocks: Vec<Block>,
}

/// A lowered module: one MIR function per IR function, in order.
#[derive(Debug, Clone, PartialEq)]
pub struct MirModule {
    pub functions: Vec<MirFunction>,
}

/// Whether a branch edge is well formed: target in range and exactly one
/// argument per target parameter.
pub open spec fn wf_edge(blocks: Seq<Block>, target: usize, args: Seq<usize>) -> bool {
    &&& (target as int) < blocks.len()
    &&& args.len() == blocks[target as int].params.len()
}

/// Whether a terminator is well formed with respect to the function's blocks.
pub open spec fn wf_terminator(blocks: Seq<Block>, t: Terminator) -> bool {
    match t {
        Terminator::Br { target, args } => wf_edge(blocks, target, args@),
        Terminator::CondBr { cond, true_target, true_args, false_target, false_args } => {
            &&& wf_edge(blocks, true_target, true_args@)
            &&& wf_edge(blocks, false_target, false_args@)
        },
        Terminator::Switch { flag, default_target, default_args, cases } => {
            &&& wf_edge(blocks, default_target, default_args@)
            &&& forall|i: int|
                0 <= i < cases@.len() ==> wf_edge(
                    blocks,
                    #[trigger] cases@[i].target,
                    cases@[i].args@,
                )
        },
        Terminator::Return { args } => true,
    }
}

/// The structural contract of an emitted function: every block ends in
/// exactly one terminator and every branch matches its target's arity.
pub open spec fn wf_function(f: MirFunction) -> bool {
    forall|b: int|
        0 <= b < f.blocks@.len() ==> match #[trigger] f.blocks@[b].term {
            Some(t) => wf_terminator(f.blocks@, t),
            None => false,
        }
}

/// Every function of the module is well formed.
pub open spec fn wf_module(m: MirModule) -> bool {
    forall|i: int| 0 <= i < m.functions@.len() ==> wf_function(#[trigger] m.functions@[i])
}

/// Checks one branch edge at run time.
fn check_edge(blocks: &Vec<Block>, target: usize, args: &Vec<usize>) -> (r: bool)
    ensures
        r == wf_edge(blocks@, target, args@),
{
    target < blocks.len() && args.len() == blocks[target].params.len()
}

/// Checks a terminator at run time.
fn check_terminator(blocks: &Vec<Block>, t: &Terminator) -> (r: bool)
    ensures
        r == wf_terminator(blocks@, *t),
{
    match t {
        Terminator::Br { target, args } => check_edge(blocks, *target, args),
        Terminator::CondBr { cond, true_target, true_args, false_target, false_args } => {
            check_edge(blocks, *true_target, true_args) && check_edge(
                blocks,
                *false_target,
                false_args,
            )
        },
        Terminator::Switch { flag, default_target, default_args, cases } => {
            if !check_edge(blocks, *default_target, default_args) {
                false
            } else {
                let mut i: usize = 0;
                let mut ok = true;
                while i < cases.len()
                    invariant
                        i <= cases@.len(),
                        ok == forall|k: int|
                            0 <= k < i ==> wf_edge(
                                blocks@,
                                #[trigger] cases@[k].target,
                                cases@[k].args@,
                            ),
                    decreases cases@.len() - i,
                {
                    if !check_edge(blocks, cases[i].target, &cases[i].args) {
                        ok = false;
                    }
                    i = i + 1;
                }
                ok
            }
        },
        Terminator::Return { args } => true,
    }
}

/// Checks the whole structural contract of a function at run time; `compile`
/// refuses to hand out a function for which this does not hold.
pub fn check_function(f: &MirFunction) -> (r: bool)
    ensures
        r == wf_function(*f),
{
    let mut b: usize = 0;
    while b < f.blocks.len()
        invariant
            b <= f.blocks@.len(),
            forall|k: int|
                0 <= k < b ==> match #[trigger] f.blocks@[k].term {
                    Some(t) => wf_terminator(f.blocks@, t),
                    None => false,
                },
        decreases f.blocks@.len() - b,
    {
        let ok = match &f.blocks[b].term {
            Some(t) => check_terminator(&f.blocks, t),
            None => false,
        };
        if !ok {
            return false;
        }
        b = b + 1;
    }
    true
}

/// An in-progress MIR function with a fresh-value counter.
#[derive(Debug)]
pub struct FunctionBuilder {
    pub f: MirFunction,
}

impl FunctionBuilder {
    /// Starts a function with a single empty entry block of `n_params`
    /// parameters; returns the builder and the parameter value ids.
    pub fn new(id: u64, n_params: usize) -> (r: (FunctionBuilder, Vec<usize>))
        requires
            n_params < usize::MAX,
        ensures
            r.0.f.blocks@.len() == 1,
            r.0.f.blocks@[0].params@ == r.1@,
            r.0.f.blocks@[0].ops@.len() == 0,
            r.0.f.blocks@[0].term is None,
            r.1@.len() == n_params,
            r.0.f.id == id,
    {
        let params = fresh_ids(0, n_params);
        let block = Block { params, ops: Vec::new(), term: None };
        let mut blocks = Vec::new();
        let mut param_copy = fresh_ids(0, n_params);
        blocks.push(block);
        let b = FunctionBuilder { f: MirFunction { id, n_values: n_params, blocks } };
        proof {
            assert(b.f.blocks@[0].params@ =~= param_copy@);
        }
        (b, param_copy)
    }

    /// Appends a fresh block with `n_params` parameters; returns the block id
    /// and the parameter value ids.
    pub fn append_block(&mut self, n_params: usize) -> (r: (usize, Vec<usize>))
        requires
            old(self).f.n_values + n_params < usize::MAX,
            old(self).f.blocks@.len() < usize::MAX,
        ensures
            final(self).f.blocks@.len() == old(self).f.blocks@.len() + 1,
            r.0 == old(self).f.blocks@.len(),
            final(self).f.blocks@[r.0 as int].params@ == r.1@,
            final(self).f.blocks@[r.0 as int].ops@.len() == 0,
            final(self).f.blocks@[r.0 as int].term is None,
            r.1@.len() == n_params,
            forall|i: int| 0 <= i < n_params ==> r.1@[i] == old(self).f.n_values + i,
            forall|k: int|
                0 <= k < old(self).f.blocks@.len() ==> final(self).f.blocks@[k]
                    == old(self).f.blocks@[k],
            final(self).f.id == old(self).f.id,
            final(self).f.n_values == old(self).f.n_values + n_params,
    {
        let start = self.f.n_values;
        let params = fresh_ids(start, n_params);
        let params_copy = fresh_ids(start, n_params);
        let block_id = self.f.blocks.len();
        self.f.blocks.push(Block { params, ops: Vec::new(), term: None });
        self.f.n_values = start + n_params;
        proof {
            assert(self.f.blocks@[block_id as int].params@ =~= params_copy@);
        }
        (block_id, params_copy)
    }

    /// Appends an operation to a block, allocating `n_dests` fresh result
    /// ids; returns them.
    pub fn push_op(&mut self, block: usize, kind: OpKind, n_dests: usize) -> (r: Vec<usize>)
        requires
            block < old(self).f.blocks@.len(),
            old(self).f.n_values + n_dests < usize::MAX,
        ensures
            r@.len() == n_dests,
            forall|i: int| 0 <= i < n_dests ==> r@[i] == old(self).f.n_values + i,
            final(self).f.blocks@.len() == old(self).f.blocks@.len(),
            final(self).f.blocks@[block as int].ops@.len() == old(self).f.blocks@[block as
                int].ops@.len() + 1,
            final(self).f.blocks@[block as int].ops@.last().kind == kind,
            final(self).f.blocks@[block as int].ops@.last().dests@ == r@,
            forall|i: int|
                0 <= i < old(self).f.blocks@[block as int].ops@.len()
                    ==> final(self).f.blocks@[block as int].ops@[i] == old(self).f.blocks@[block
                    as int].ops@[i],
            final(self).f.blocks@[block as int].params == old(self).f.blocks@[block as int].params,
            final(self).f.blocks@[block as int].term == old(self).f.blocks@[block as int].term,
            forall|k: int|
                0 <= k < old(self).f.blocks@.len() && k != block ==> final(self).f.blocks@[k]
                    == old(self).f.blocks@[k],
            final(self).f.id == old(self).f.id,
            final(self).f.n_values == old(self).f.n_values + n_dests,
    {
        let start = self.f.n_values;
        let dests = fresh_ids(start, n_dests);
        let dests_copy = fresh_ids(start, n_dests);
        proof {
            assert(dests@ =~= dests_copy@);
        }
        let blk = &mut self.f.blocks[block];
        blk.ops.push(Operation { kind, dests });
        self.f.n_values = start + n_dests;
        dests_copy
    }

    /// Sets a block's terminator; each block is terminated exactly once.
    pub fn terminate(&mut self, block: usize, term: Terminator) -> (r: Result<(), CompileError>)
        requires
            block < old(self).f.blocks@.len(),
        ensures
            match r {
                Ok(_) => {
                    &&& old(self).f.blocks@[block as int].term is None
                    &&& final(self).f.blocks@[block as int].term == Some(term)
                    &&& final(self).f.blocks@[block as int].ops == old(self).f.blocks@[block as
                        int].ops
                    &&& final(self).f.blocks@[block as int].params == old(self).f.blocks@[block as
                        int].params
                    &&& final(self).f.blocks@.len() == old(self).f.blocks@.len()
                    &&& forall|k: int|
                        0 <= k < old(self).f.blocks@.len() && k != block
                            ==> final(self).f.blocks@[k] == old(self).f.blocks@[k]
                    &&& final(self).f.id == old(self).f.id
                    &&& final(self).f.n_values == old(self).f.n_values
                },
                Err(e) => {
                    &&& e == CompileError::InvariantViolation
                    &&& old(self).f.blocks@[block as int].term is Some
                    &&& *final(self) == *old(self)
                },
            },
    {
        if self.f.blocks[block].term.is_some() {
            return Err(CompileError::InvariantViolation);
        }
        let blk = &mut self.f.blocks[block];
        blk.term = Some(term);
        Ok(())
    }

    /// Finishes the function after checking the structural contract.
    pub fn finish(self) -> (r: Result<MirFunction, CompileError>)
        ensures
            match r {
                Ok(f) => wf_function(f) && f == self.f,
                Err(e) => e == CompileError::InvariantViolation && !wf_function(self.f),
            },
    {
        if check_function(&self.f) {
            Ok(self.f)
        } else {
            Err(CompileError::InvariantViolation)
        }
    }
}

/// The ids `start, start + 1, ..., start + n - 1`.
fn fresh_ids(start: usize, n: usize) -> (r: Vec<usize>)
    requires
        start + n < usize::MAX,
    ensures
        r@.len() == n,
        forall|i: int| 0 <= i < n ==> r@[i] == start + i,
{
    let mut out: Vec<usize> = Vec::new();
    let mut i: usize = 0;
    while i < n
        invariant
            i <= n,
            start + n < usize::MAX,
            out@.len() == i,
            forall|k: int| 0 <= k < i ==> out@[k] == start + k,
        decreases n - i,
    {
        out.push(start + i);
        i = i + 1;
    }
    out
}

} // verus!
