//! The source IR: types, libfuncs, statements, functions, and the registry.
//!
//! A program is an ordered list of concrete type declarations (each may only
//! refer to earlier ones), an ordered list of concrete libfunc declarations,
//! a flat list of statements, and a set of functions.  Variables are local to
//! a function and linear: each one is written once per statement arm and
//! consumed exactly once.

use crate::error::CompileError;
use num_bigint::BigUint;
use vstd::prelude::*;

verus! {

/// A machine-integer type of the IR.
#[derive(Debug, Clone, Copy, PartialEq, Eq, Structural)]
pub enum IntTy {
    U8,
    U16,
    U32,
    U64,
    U128,
    I8,
    I16,
    I32,
    I64,
    I128,
}

impl IntTy {
    /// The bit width.
    pub open spec fn spec_bits(self) -> u32 {
        match self {
            IntTy::U8 | IntTy::I8 => 8,
            IntTy::U16 | IntTy::I16 => 16,
            IntTy::U32 | IntTy::I32 => 32,
            IntTy::U64 | IntTy::I64 => 64,
            IntTy::U128 | IntTy::I128 => 128,
        }
    }

    /// The bit width.
    #[verifier::when_used_as_spec(spec_bits)]
    pub fn bits(self) -> (r: u32)
        ensures
            r == self.spec_bits(),
    {
        match self {
            IntTy::U8 | IntTy::I8 => 8,
            IntTy::U16 | IntTy::I16 => 16,
            IntTy::U32 | IntTy::I32 => 32,
            IntTy::U64 | IntTy::I64 => 64,
            IntTy::U128 | IntTy::I128 => 128,
        }
    }

    /// Whether the type is signed.
    pub open spec fn spec_signed(self) -> bool {
        match self {
            IntTy::I8 | IntTy::I16 | IntTy::I32 | IntTy::I64 | IntTy::I128 => true,
            _ => false,
        }
    }

    /// Whether the type is signed.
    #[verifier::when_used_as_spec(spec_signed)]
    pub fn signed(self) -> (r: bool)
        ensures
            r == self.spec_signed(),
    {
        match self {
            IntTy::I8 | IntTy::I16 | IntTy::I32 | IntTy::I64 | IntTy::I128 => true,
            _ => false,
        }
    }
}

/// A signed arbitrary-precision constant embedded in a libfunc declaration.
#[derive(Debug)]
pub struct BigIntConst {
    pub negative: bool,
    pub magnitude: BigUint,
}

/// The circuit types, each carrying the counts its layout depends on.
#[derive(Debug, Clone, Copy, PartialEq, Eq, Structural)]
pub enum CircuitTypeInfo {
    AddMod,
    MulMod,
    CircuitModulus,
    U96Guarantee,
    AddModGate,
    SubModGate,
    MulModGate,
    CircuitInput,
    InverseGate,
    U96LimbsLessThanGuarantee,
    Circuit { n_inputs: usize, n_gates: usize },
    CircuitDescriptor,
    CircuitFailureGuarantee,
    CircuitInputAccumulator { n_inputs: usize },
    CircuitPartialOutputs,
    CircuitData { n_inputs: usize },
    CircuitOutputs { n_gates: usize },
}

/// A concrete type declaration.  Aggregates refer to other declarations by
/// index; a valid program only refers to earlier indices.
#[derive(Debug)]
pub enum ConcreteType {
    Felt252,
    Int(IntTy),
    Bytes31,
    RangeCheck,
    Bitwise,
    Pedersen,
    Poseidon,
    EcOp,
    SegmentArena,
    GasBuiltin,
    System,
    ClassHash,
    ContractAddress,
    StorageAddress,
    StorageBaseAddress,
    Struct(Vec<usize>),
    Enum(Vec<usize>),
    Array(usize),
    NonZero(usize),
    Nullable(usize),
    Snapshot(usize),
    Box(usize),
    Felt252Dict(usize),
    Felt252DictEntry(usize),
    Uninitialized(usize),
    Circuit(CircuitTypeInfo),
}

impl ConcreteType {
    /// The type declarations this one refers to.
    pub open spec fn children(&self) -> Seq<usize> {
        match self {
            ConcreteType::Struct(members) => members@,
            ConcreteType::Enum(variants) => variants@,
            ConcreteType::Array(t) => seq![*t],
            ConcreteType::NonZero(t) => seq![*t],
            ConcreteType::Nullable(t) => seq![*t],
            ConcreteType::Snapshot(t) => seq![*t],
            ConcreteType::Box(t) => seq![*t],
            ConcreteType::Felt252Dict(t) => seq![*t],
            ConcreteType::Felt252DictEntry(t) => seq![*t],
            ConcreteType::Uninitialized(t) => seq![*t],
            _ => Seq::empty(),
        }
    }
}

/// The field-arithmetic operators.
#[derive(Debug, Clone, Copy, PartialEq, Eq, Structural)]
pub enum FeltBinaryOperator {
    Add,
    Sub,
    Mul,
    Div,
}

/// The checked integer operators.
#[derive(Debug, Clone, Copy, PartialEq, Eq, Structural)]
pub enum IntOperator {
    OverflowingAdd,
    OverflowingSub,
}

/// The syscalls dispatched through the handler vtable.
#[derive(Debug, Clone, Copy, PartialEq, Eq, Structural)]
pub enum SyscallKind {
    GetBlockHash,
    GetExecutionInfo,
    GetExecutionInfoV2,
    Deploy,
    ReplaceClass,
    LibraryCall,
    CallContract,
    StorageRead,
    StorageWrite,
    EmitEvent,
    SendMessageToL1,
    Keccak,
    Sha256ProcessBlock,
}

/// A concrete libfunc declaration: the instruction set of the IR.
#[derive(Debug)]
pub enum Libfunc {
    Felt252Const(BigIntConst),
    Felt252BinaryOp(FeltBinaryOperator),
    Felt252IsZero,
    IntConst { ty: IntTy, value: i128 },
    IntOperation { ty: IntTy, operator: IntOperator },
    IntEqual(IntTy),
    IntIsZero(IntTy),
    IntWideMul(IntTy),
    IntToFelt252(IntTy),
    IntFromFelt252(IntTy),
    FunctionCall { function: usize },
    StoreTemp(usize),
    Rename(usize),
    Dup(usize),
    Drop(usize),
    SnapshotTake(usize),
    BranchAlign,
    UnconditionalJump,
    UnwrapNonZero(usize),
    StructConstruct(usize),
    StructDeconstruct(usize),
    EnumInit { ty: usize, variant: usize },
    EnumMatch(usize),
    ArrayNew(usize),
    ArrayAppend(usize),
    ArrayLen(usize),
    ArrayGet(usize),
    ArrayPopFront(usize),
    PedersenHash,
    HadesPermutation,
    Felt252DictNew(usize),
    Felt252DictEntryGet(usize),
    Felt252DictEntryFinalize(usize),
    Felt252DictSquash(usize),
    WithdrawGas,
    ClassHashConst(BigIntConst),
    ClassHashTryFromFelt252,
    ContractAddressConst(BigIntConst),
    ContractAddressTryFromFelt252,
    StorageBaseAddressConst(BigIntConst),
    StorageBaseAddressFromFelt252,
    StorageAddressFromBase,
    StorageAddressFromBaseAndOffset,
    StorageAddressToFelt252,
    StorageAddressTryFromFelt252,
    Syscall { kind: SyscallKind, ok_ty: usize, err_ty: usize },
    Bool,
    Bitwise,
    Cast,
    Ec,
    BoxOps,
    NullableOps,
    Uint256,
    Uint512,
    Secp256k1,
    Secp256r1,
    Sha256,
    Debug,
}

/// One branch of an invocation: the statement it jumps to and the variables
/// it writes the branch's results into.
#[derive(Debug)]
pub struct BranchInfo {
    pub target: usize,
    pub results: Vec<u64>,
}

/// A libfunc invocation: the libfunc, its argument variables, its branches.
#[derive(Debug)]
pub struct Invocation {
    pub libfunc: usize,
    pub args: Vec<u64>,
    pub branches: Vec<BranchInfo>,
}

/// A statement: invoke a libfunc or return from the function.
#[derive(Debug)]
pub enum Statement {
    Invocation(Invocation),
    Return(Vec<u64>),
}

/// A function: an entry statement and typed parameter and return lists.
/// `param_vars[i]` is the IR variable holding the `i`-th parameter at entry.
#[derive(Debug)]
pub struct Function {
    pub id: u64,
    pub debug_name: Option<String>,
    pub entry_point: usize,
    pub param_vars: Vec<u64>,
    pub param_types: Vec<usize>,
    pub ret_types: Vec<usize>,
}

/// A whole program.
#[derive(Debug)]
pub struct Program {
    pub types: Vec<ConcreteType>,
    pub libfuncs: Vec<Libfunc>,
    pub statements: Vec<Statement>,
    pub funcs: Vec<Function>,
}

/// Every type declaration refers only to earlier declarations, so the type
/// graph is acyclic.
pub open spec fn types_acyclic(types: Seq<ConcreteType>) -> bool {
    forall|i: int, j: int|
        0 <= i < types.len() && 0 <= j < types[i].children().len() ==> (
        types[i].children()[j] as int) < i
}

/// The read-only index over a program: types, libfuncs and functions by id.
pub struct ProgramRegistry<'a> {
    pub program: &'a Program,
}

impl<'a> ProgramRegistry<'a> {
    /// Wraps a program for constant-time lookup.
    pub fn new(program: &'a Program) -> (r: ProgramRegistry<'a>)
        ensures
            r.program == program,
    {
        ProgramRegistry { program }
    }

    /// The type declared under `id`, or `UnknownId`.
    pub fn get_type(&self, id: usize) -> (r: Result<&'a ConcreteType, CompileError>)
        ensures
            match r {
                Ok(t) => id < self.program.types@.len() && *t == self.program.types@[id as int],
                Err(e) => id >= self.program.types@.len() && e == CompileError::UnknownId,
            },
    {
        if id < self.program.types.len() {
            Ok(&self.program.types[id])
        } else {
            Err(CompileError::UnknownId)
        }
    }

    /// The libfunc declared under `id`, or `UnknownId`.
    pub fn get_libfunc(&self, id: usize) -> (r: Result<&'a Libfunc, CompileError>)
        ensures
            match r {
                Ok(l) => id < self.program.libfuncs@.len() && *l
                    == self.program.libfuncs@[id as int],
                Err(e) => id >= self.program.libfuncs@.len() && e == CompileError::UnknownId,
            },
    {
        if id < self.program.libfuncs.len() {
            Ok(&self.program.libfuncs[id])
        } else {
            Err(CompileError::UnknownId)
        }
    }

    /// The function declared under `id`, or `UnknownId`.
    pub fn get_function(&self, id: usize) -> (r: Result<&'a Function, CompileError>)
        ensures
            match r {
                Ok(f) => id < self.program.funcs@.len() && *f == self.program.funcs@[id as int],
                Err(e) => id >= self.program.funcs@.len() && e == CompileError::UnknownId,
            },
    {
        if id < self.program.funcs.len() {
            Ok(&self.program.funcs[id])
        } else {
            Err(CompileError::UnknownId)
        }
    }

    /// Checks that every type declaration refers only to earlier ones.
    pub fn check_types_acyclic(&self) -> (r: bool)
        ensures
            r == types_acyclic(self.program.types@),
    {
        let types = &self.program.types;
        let mut i: usize = 0;
        while i < types.len()
            invariant
                i <= types@.len(),
                types@ == self.program.types@,
                forall|k: int, j: int|
                    0 <= k < i && 0 <= j < types@[k].children().len() ==> (
                    types@[k].children()[j] as int) < k,
            decreases types@.len() - i,
        {
            let ok = children_below(&types[i], i);
            if !ok {
                proof {
                    let ti = self.program.types@[i as int];
                    let j0 = choose|j: int|
                        0 <= j < ti.children().len() && !((ti.children()[j] as int) < i as int);
                    assert(!((ti.children()[j0] as int) < i as int));
                }
                return false;
            }
            i = i + 1;
        }
        true
    }
}

/// Whether every type a declaration refers to lies below `bound`.
fn children_below(t: &ConcreteType, bound: usize) -> (r: bool)
    ensures
        r == (forall|j: int|
            0 <= j < t.children().len() ==> (t.children()[j] as int) < bound),
{
    match t {
        ConcreteType::Struct(members) => {
            let r = all_below(members, bound);
            proof {
                assert(t.children() =~= members@);
            }
            r
        },
        ConcreteType::Enum(variants) => {
            let r = all_below(variants, bound);
            proof {
                assert(t.children() =~= variants@);
            }
            r
        },
        ConcreteType::Array(ch) => {
            proof {
                assert(t.children() =~= seq![*ch]);
                assert(t.children()[0] == *ch);
            }
            *ch < bound
        },
        ConcreteType::NonZero(ch) => {
            proof {
                assert(t.children() =~= seq![*ch]);
                assert(t.children()[0] == *ch);
            }
            *ch < bound
        },
        ConcreteType::Nullable(ch) => {
            proof {
                assert(t.children() =~= seq![*ch]);
                assert(t.children()[0] == *ch);
            }
            *ch < bound
        },
        ConcreteType::Snapshot(ch) => {
            proof {
                assert(t.children() =~= seq![*ch]);
                assert(t.children()[0] == *ch);
            }
            *ch < bound
        },
        ConcreteType::Box(ch) => {
            proof {
                assert(t.children() =~= seq![*ch]);
                assert(t.children()[0] == *ch);
            }
            *ch < bound
        },
        ConcreteType::Felt252Dict(ch) => {
            proof {
                assert(t.children() =~= seq![*ch]);
                assert(t.children()[0] == *ch);
            }
            *ch < bound
        },
        ConcreteType::Felt252DictEntry(ch) => {
            proof {
                assert(t.children() =~= seq![*ch]);
                assert(t.children()[0] == *ch);
            }
            *ch < bound
        },
        ConcreteType::Uninitialized(ch) => {
            proof {
                assert(t.children() =~= seq![*ch]);
                assert(t.children()[0] == *ch);
            }
            *ch < bound
        },
        _ => {
            proof {
                assert(t.children().len() == 0);
            }
            true
        },
    }
}

/// Whether every index in the list lies below `bound`.
fn all_below(ids: &Vec<usize>, bound: usize) -> (r: bool)
    ensures
        r == (forall|j: int| 0 <= j < ids@.len() ==> (ids@[j] as int) < bound),
{
    let mut j: usize = 0;
    while j < ids.len()
        invariant
            j <= ids@.len(),
            forall|k: int| 0 <= k < j ==> (ids@[k] as int) < bound,
        decreases ids@.len() - j,
    {
        if ids[j] >= bound {
            return false;
        }
        j = j + 1;
    }
    true
}

} // verus!
