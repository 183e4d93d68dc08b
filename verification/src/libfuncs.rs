//! Libfunc lowering: one emitter per libfunc variant.
//!
//! Every statement is lowered into a small block graph.  The
//! [`LibfuncHelper`] encodes the statement's branching contract: for each IR
//! branch it knows the target block and how to assemble that block's
//! arguments from values that pre-exist the libfunc (`External`) and values
//! the emitter publishes (`Returned`).  An emitter appends operations to the
//! entry block (and any blocks it creates) and must leave every control path
//! it opened with exactly one terminator into the helper's branch table.

use crate::error::CompileError;
use crate::mir::{FunctionBuilder, OpKind, SwitchCase, Terminator};
use crate::program::{Libfunc, ProgramRegistry, SyscallKind};
use vstd::prelude::*;

pub mod felt252;
pub mod function_call;
pub mod integer;
pub mod starknet;

verus! {

/// One argument of a branch edge: a value that pre-exists the libfunc, or
/// the `k`-th result the emitter publishes for that branch.
#[derive(Debug, Clone, Copy, PartialEq, Eq, Structural)]
pub enum BranchArg {
    External(usize),
    Returned(usize),
}

/// One branch of the statement: the MIR block lowered for the target
/// statement and the argument recipe for its parameters.
#[derive(Debug)]
pub struct BranchDest {
    pub block: usize,
    pub mapping: Vec<BranchArg>,
}

/// A branch target for `switch`: a libfunc-internal block or one of the
/// statement's branches.
#[derive(Debug, Clone, Copy, PartialEq, Eq, Structural)]
pub enum BranchTarget {
    Jump(usize),
    Return(usize),
}

/// The lowering frame of one statement.
#[derive(Debug)]
pub struct LibfuncHelper {
    pub branches: Vec<BranchDest>,
}

/// The arguments a branch edge passes, assembled from the recipe: external
/// values stay, `Returned(k)` picks the `k`-th published result.
pub open spec fn spec_branch_args(mapping: Seq<BranchArg>, results: Seq<usize>) -> Seq<usize> {
    mapping.map_values(
        |a: BranchArg|
            match a {
                BranchArg::External(v) => v,
                BranchArg::Returned(k) => results[k as int],
            },
    )
}

/// Whether every `Returned(k)` in the recipe is in range of the published
/// results.
pub open spec fn branch_args_ok(mapping: Seq<BranchArg>, n_results: nat) -> bool {
    forall|i: int|
        0 <= i < mapping.len() ==> match #[trigger] mapping[i] {
            BranchArg::External(_) => true,
            BranchArg::Returned(k) => (k as nat) < n_results,
        }
}

/// Whether each of the first `n` statement branches exists and accepts
/// `n_results` published results.
pub open spec fn branches_accept(branches: Seq<BranchDest>, n: nat, n_results: nat) -> bool
    decreases n,
{
    if n == 0 {
        true
    } else {
        branches_accept(branches, (n - 1) as nat, n_results) && (n - 1) < branches.len()
            && branch_args_ok(branches[n - 1].mapping@, n_results)
    }
}

/// Each index below `n` of an accepting prefix is itself available.
pub proof fn lemma_accept_at(branches: Seq<BranchDest>, n: nat, n_results: nat, i: int)
    requires
        branches_accept(branches, n, n_results),
        0 <= i < n,
    ensures
        i < branches.len() && branch_args_ok(branches[i].mapping@, n_results),
    decreases n,
{
    if i < n - 1 {
        lemma_accept_at(branches, (n - 1) as nat, n_results, i);
    }
}

/// Assembles the arguments for one branch edge; an out-of-range `Returned`
/// index means the emitter published too few results.
fn resolve_branch_args(mapping: &Vec<BranchArg>, results: &Vec<usize>) -> (r: Result<
    Vec<usize>,
    CompileError,
>)
    ensures
        match r {
            Ok(args) => branch_args_ok(mapping@, results@.len()) && args@ == spec_branch_args(
                mapping@,
                results@,
            ),
            Err(e) => e == CompileError::InvariantViolation && !branch_args_ok(
                mapping@,
                results@.len(),
            ),
        },
{
    let mut out: Vec<usize> = Vec::new();
    let mut i: usize = 0;
    while i < mapping.len()
        invariant
            i <= mapping@.len(),
            out@.len() == i,
            forall|j: int|
                0 <= j < i ==> match #[trigger] mapping@[j] {
                    BranchArg::External(v) => out@[j] == v,
                    BranchArg::Returned(k) => (k as nat) < results@.len() && out@[j]
                        == results@[k as int],
                },
        decreases mapping@.len() - i,
    {
        match mapping[i] {
            BranchArg::External(v) => out.push(v),
            BranchArg::Returned(k) => {
                if k < results.len() {
                    out.push(results[k]);
                } else {
                    proof {
                        assert(mapping@[i as int] matches BranchArg::Returned(kk) && (kk as nat)
                            >= results@.len());
                    }
                    return Err(CompileError::InvariantViolation);
                }
            },
        }
        i = i + 1;
    }
    proof {
        assert(out@ =~= spec_branch_args(mapping@, results@));
    }
    Ok(out)
}

/// Whether a branch edge can be taken from `block`: the block is still
/// unterminated, the branch exists, and the recipe stays within the
/// published results.
pub open spec fn spec_can_branch(
    helper: LibfuncHelper,
    f: crate::mir::MirFunction,
    block: usize,
    branch: usize,
    n_results: nat,
) -> bool {
    &&& f.blocks@[block as int].term is None
    &&& (branch as int) < helper.branches@.len()
    &&& branch_args_ok(helper.branches@[branch as int].mapping@, n_results)
}

/// Whether a switch target resolves: an internal block always does, a
/// statement branch under the same conditions as a direct jump.
pub open spec fn spec_target_ok(
    branches: Seq<BranchDest>,
    target: BranchTarget,
    n_results: nat,
) -> bool {
    match target {
        BranchTarget::Jump(_) => true,
        BranchTarget::Return(i) => (i as int) < branches.len() && branch_args_ok(
            branches[i as int].mapping@,
            n_results,
        ),
    }
}

/// The block a switch target resolves to.
pub open spec fn spec_target_block(branches: Seq<BranchDest>, target: BranchTarget) -> usize {
    match target {
        BranchTarget::Jump(b) => b,
        BranchTarget::Return(i) => branches[i as int].block,
    }
}

/// The arguments a switch target receives: an internal block takes the
/// results as they are, a statement branch takes its assembled recipe.
pub open spec fn spec_target_args(
    branches: Seq<BranchDest>,
    target: BranchTarget,
    results: Seq<usize>,
) -> Seq<usize> {
    match target {
        BranchTarget::Jump(_) => results,
        BranchTarget::Return(i) => spec_branch_args(branches[i as int].mapping@, results),
    }
}

impl LibfuncHelper {
    /// Terminates `block` with an unconditional jump to statement branch
    /// `branch`, publishing `results` for that branch.  Succeeds exactly
    /// when the edge is available.
    pub fn br(
        &self,
        b: &mut FunctionBuilder,
        block: usize,
        branch: usize,
        results: &Vec<usize>,
    ) -> (r: Result<(), CompileError>)
        requires
            block < old(b).f.blocks@.len(),
        ensures
            final(b).f.blocks@.len() == old(b).f.blocks@.len(),
            final(b).f.n_values == old(b).f.n_values,
            forall|k: int|
                0 <= k < old(b).f.blocks@.len() ==> final(b).f.blocks@[k].ops == old(b).f.blocks@[k].ops && final(b).f.blocks@[k].params == old(b).f.blocks@[k].params,
            forall|k: int|
                0 <= k < old(b).f.blocks@.len() && k != block ==> final(b).f.blocks@[k].term
                    == old(b).f.blocks@[k].term,
            r is Ok <==> spec_can_branch(*self, old(b).f, block, branch, results@.len()),
            r is Ok ==> (final(b).f.blocks@[block as int].term
                matches Some(Terminator::Br { target, args }) && target == self.branches@[branch
                as int].block && args@ == spec_branch_args(
                self.branches@[branch as int].mapping@,
                results@,
            )),
            r is Err ==> r->Err_0 == CompileError::InvariantViolation && final(b).f == old(b).f,
    {
        if branch >= self.branches.len() {
            return Err(CompileError::InvariantViolation);
        }
        let dest = &self.branches[branch];
        let args = match resolve_branch_args(&dest.mapping, results) {
            Ok(a) => a,
            Err(e) => {
                return Err(e);
            },
        };
        b.terminate(block, Terminator::Br { target: dest.block, args })
    }

    /// Terminates `block` with a two-way branch on `cond`: the first branch
    /// on true, the second on false, each with its own published results.
    /// Succeeds exactly when both edges are available.
    pub fn cond_br(
        &self,
        b: &mut FunctionBuilder,
        block: usize,
        cond: usize,
        branches: (usize, usize),
        results_true: &Vec<usize>,
        results_false: &Vec<usize>,
    ) -> (r: Result<(), CompileError>)
        requires
            block < old(b).f.blocks@.len(),
        ensures
            final(b).f.blocks@.len() == old(b).f.blocks@.len(),
            final(b).f.n_values == old(b).f.n_values,
            forall|k: int|
                0 <= k < old(b).f.blocks@.len() ==> final(b).f.blocks@[k].ops == old(b).f.blocks@[k].ops && final(b).f.blocks@[k].params == old(b).f.blocks@[k].params,
            forall|k: int|
                0 <= k < old(b).f.blocks@.len() && k != block ==> final(b).f.blocks@[k].term
                    == old(b).f.blocks@[k].term,
            r is Ok <==> spec_can_branch(*self, old(b).f, block, branches.0, results_true@.len())
                && spec_can_branch(*self, old(b).f, block, branches.1, results_false@.len()),
            r is Ok ==> (final(b).f.blocks@[block as int].term matches Some(
                Terminator::CondBr {
                    cond: c,
                    true_target,
                    true_args,
                    false_target,
                    false_args,
                },
            ) && c == cond && true_target == self.branches@[branches.0 as int].block && true_args@
                == spec_branch_args(self.branches@[branches.0 as int].mapping@, results_true@)
                && false_target == self.branches@[branches.1 as int].block && false_args@
                == spec_branch_args(self.branches@[branches.1 as int].mapping@, results_false@)),
            r is Err ==> r->Err_0 == CompileError::InvariantViolation && final(b).f == old(b).f,
    {
        if branches.0 >= self.branches.len() || branches.1 >= self.branches.len() {
            return Err(CompileError::InvariantViolation);
        }
        let dest_t = &self.branches[branches.0];
        let dest_f = &self.branches[branches.1];
        let args_t = match resolve_branch_args(&dest_t.mapping, results_true) {
            Ok(a) => a,
            Err(e) => {
                return Err(e);
            },
        };
        let args_f = match resolve_branch_args(&dest_f.mapping, results_false) {
            Ok(a) => a,
            Err(e) => {
                return Err(e);
            },
        };
        b.terminate(
            block,
            Terminator::CondBr {
                cond,
                true_target: dest_t.block,
                true_args: args_t,
                false_target: dest_f.block,
                false_args: args_f,
            },
        )
    }

    /// Terminates `block` with a switch on `flag`.  Each case (and the
    /// default) jumps either to a libfunc-internal block or to one of the
    /// statement's branches with its own published results.  Succeeds
    /// exactly when the block is unterminated and every target resolves.
    pub fn switch(
        &self,
        b: &mut FunctionBuilder,
        block: usize,
        flag: usize,
        default: (BranchTarget, &Vec<usize>),
        cases: &Vec<(u64, BranchTarget, Vec<usize>)>,
    ) -> (r: Result<(), CompileError>)
        requires
            block < old(b).f.blocks@.len(),
        ensures
            final(b).f.blocks@.len() == old(b).f.blocks@.len(),
            final(b).f.n_values == old(b).f.n_values,
            forall|k: int|
                0 <= k < old(b).f.blocks@.len() ==> final(b).f.blocks@[k].ops == old(b).f.blocks@[k].ops && final(b).f.blocks@[k].params == old(b).f.blocks@[k].params,
            forall|k: int|
                0 <= k < old(b).f.blocks@.len() && k != block ==> final(b).f.blocks@[k].term
                    == old(b).f.blocks@[k].term,
            r is Ok <==> old(b).f.blocks@[block as int].term is None && spec_target_ok(
                self.branches@,
                default.0,
                default.1@.len(),
            ) && (forall|i: int|
                0 <= i < cases@.len() ==> spec_target_ok(
                    self.branches@,
                    #[trigger] cases@[i].1,
                    cases@[i].2@.len(),
                )),
            r is Ok ==> (final(b).f.blocks@[block as int].term matches Some(
                Terminator::Switch { flag: fl, default_target, default_args, cases: cs },
            ) && fl == flag && default_target == spec_target_block(self.branches@, default.0)
                && default_args@ == spec_target_args(self.branches@, default.0, default.1@)
                && cs@.len() == cases@.len() && (forall|i: int|
                0 <= i < cases@.len() ==> (#[trigger] cs@[i]).value == cases@[i].0 && cs@[i].target
                    == spec_target_block(self.branches@, cases@[i].1) && cs@[i].args@
                    == spec_target_args(self.branches@, cases@[i].1, cases@[i].2@))),
            r is Err ==> r->Err_0 == CompileError::InvariantViolation && final(b).f == old(b).f,
    {
        let (default_target, default_args) = match self.resolve_target(default.0, default.1) {
            Ok(p) => p,
            Err(e) => {
                return Err(e);
            },
        };
        let mut switch_cases: Vec<SwitchCase> = Vec::new();
        let mut i: usize = 0;
        while i < cases.len()
            invariant
                i <= cases@.len(),
                switch_cases@.len() == i,
                forall|j: int|
                    0 <= j < i ==> spec_target_ok(
                        self.branches@,
                        #[trigger] cases@[j].1,
                        cases@[j].2@.len(),
                    ),
                forall|j: int|
                    0 <= j < i ==> (#[trigger] switch_cases@[j]).value == cases@[j].0
                        && switch_cases@[j].target == spec_target_block(
                        self.branches@,
                        cases@[j].1,
                    ) && switch_cases@[j].args@ == spec_target_args(
                        self.branches@,
                        cases@[j].1,
                        cases@[j].2@,
                    ),
            decreases cases@.len() - i,
        {
            let (value, target, results) = (cases[i].0, cases[i].1, &cases[i].2);
            let (t, args) = match self.resolve_target(target, results) {
                Ok(p) => p,
                Err(e) => {
                    proof {
                        assert(!spec_target_ok(self.branches@, cases@[i as int].1, cases@[i as
                            int].2@.len()));
                    }
                    return Err(e);
                },
            };
            switch_cases.push(SwitchCase { value, target: t, args });
            i = i + 1;
        }
        b.terminate(
            block,
            Terminator::Switch {
                flag,
                default_target,
                default_args,
                cases: switch_cases,
            },
        )
    }

    /// Resolves a branch target to its concrete block and argument list.
    fn resolve_target(&self, target: BranchTarget, results: &Vec<usize>) -> (r: Result<
        (usize, Vec<usize>),
        CompileError,
    >)
        ensures
            r is Ok <==> spec_target_ok(self.branches@, target, results@.len()),
            r is Ok ==> r->Ok_0.0 == spec_target_block(self.branches@, target) && r->Ok_0.1@
                == spec_target_args(self.branches@, target, results@),
            r is Err ==> r->Err_0 == CompileError::InvariantViolation,
    {
        match target {
            BranchTarget::Jump(block) => {
                let mut args: Vec<usize> = Vec::new();
                let mut i: usize = 0;
                while i < results.len()
                    invariant
                        i <= results@.len(),
                        args@ == results@.take(i as int),
                    decreases results@.len() - i,
                {
                    args.push(results[i]);
                    proof {
                        assert(args@ =~= results@.take(i + 1));
                    }
                    i = i + 1;
                }
                proof {
                    assert(results@.take(results@.len() as int) =~= results@);
                }
                Ok((block, args))
            },
            BranchTarget::Return(branch) => {
                if branch >= self.branches.len() {
                    return Err(CompileError::InvariantViolation);
                }
                let dest = &self.branches[branch];
                match resolve_branch_args(&dest.mapping, results) {
                    Ok(args) => Ok((dest.block, args)),
                    Err(e) => Err(e),
                }
            },
        }
    }
}

/// An owned copy of a list of variable ids.
pub fn copy_ids_u64(v: &Vec<u64>) -> (r: Vec<u64>)
    ensures
        r@ == v@,
{
    let mut out: Vec<u64> = Vec::new();
    let mut i: usize = 0;
    while i < v.len()
        invariant
            i <= v@.len(),
            out@.len() == i,
            forall|j: int| 0 <= j < i ==> out@[j] == v@[j],
        decreases v@.len() - i,
    {
        out.push(v[i]);
        i = i + 1;
    }
    proof {
        assert(out@ =~= v@);
    }
    out
}

/// An owned copy of a list of value ids.
pub fn copy_ids(v: &Vec<usize>) -> (r: Vec<usize>)
    ensures
        r@ == v@,
{
    let mut out: Vec<usize> = Vec::new();
    let mut i: usize = 0;
    while i < v.len()
        invariant
            i <= v@.len(),
            out@.len() == i,
            forall|j: int| 0 <= j < i ==> out@[j] == v@[j],
        decreases v@.len() - i,
    {
        out.push(v[i]);
        i = i + 1;
    }
    proof {
        assert(out@ =~= v@);
    }
    out
}

/// Emits `dup`: publishes the value twice on branch 0.
pub fn build_dup(
    b: &mut FunctionBuilder,
    entry: usize,
    helper: &LibfuncHelper,
    args: &Vec<usize>,
) -> (r: Result<(), CompileError>)
    requires
        entry < old(b).f.blocks@.len(),
    ensures
        final(b).f.blocks@.len() == old(b).f.blocks@.len(),
        r is Ok <==> args@.len() >= 1 && spec_can_branch(*helper, old(b).f, entry, 0, 2),
        r is Ok ==> final(b).f.blocks@[entry as int].ops == old(b).f.blocks@[entry as int].ops
            && (final(b).f.blocks@[entry as int].term
            matches Some(Terminator::Br { target, args: ta }) && target
            == helper.branches@[0].block && ta@ == spec_branch_args(
            helper.branches@[0].mapping@,
            seq![args@[0], args@[0]],
        )),
    {
    if args.len() < 1 {
        return Err(CompileError::InvariantViolation);
    }
    let mut results: Vec<usize> = Vec::new();
    results.push(args[0]);
    results.push(args[0]);
    proof {
        assert(results@ =~= seq![args@[0], args@[0]]);
    }
    helper.br(b, entry, 0, &results)
}

/// Emits `drop`: the value is consumed and nothing is published.
pub fn build_drop(
    b: &mut FunctionBuilder,
    entry: usize,
    helper: &LibfuncHelper,
) -> (r: Result<(), CompileError>)
    requires
        entry < old(b).f.blocks@.len(),
    ensures
        final(b).f.blocks@.len() == old(b).f.blocks@.len(),
        r is Ok <==> spec_can_branch(*helper, old(b).f, entry, 0, 0),
        r is Ok ==> final(b).f.blocks@[entry as int].ops == old(b).f.blocks@[entry as int].ops
            && (final(b).f.blocks@[entry as int].term
            matches Some(Terminator::Br { target, args: ta }) && target
            == helper.branches@[0].block && ta@ == spec_branch_args(
            helper.branches@[0].mapping@,
            Seq::empty(),
        )),
{
    let empty: Vec<usize> = Vec::new();
    proof {
        assert(empty@ =~= Seq::<usize>::empty());
    }
    helper.br(b, entry, 0, &empty)
}

/// Emits the pass-through libfuncs (`store_temp`, `rename`,
/// `unwrap_non_zero`): the value is republished unchanged on branch 0.
pub fn build_forward(
    b: &mut FunctionBuilder,
    entry: usize,
    helper: &LibfuncHelper,
    args: &Vec<usize>,
) -> (r: Result<(), CompileError>)
    requires
        entry < old(b).f.blocks@.len(),
    ensures
        final(b).f.blocks@.len() == old(b).f.blocks@.len(),
        r is Ok <==> args@.len() >= 1 && spec_can_branch(*helper, old(b).f, entry, 0, 1),
        r is Ok ==> final(b).f.blocks@[entry as int].ops == old(b).f.blocks@[entry as int].ops
            && (final(b).f.blocks@[entry as int].term
            matches Some(Terminator::Br { target, args: ta }) && target
            == helper.branches@[0].block && ta@ == spec_branch_args(
            helper.branches@[0].mapping@,
            seq![args@[0]],
        )),
    {
    if args.len() < 1 {
        return Err(CompileError::InvariantViolation);
    }
    let mut results: Vec<usize> = Vec::new();
    results.push(args[0]);
    proof {
        assert(results@ =~= seq![args@[0]]);
    }
    helper.br(b, entry, 0, &results)
}

/// Emits `snapshot_take`: two views of the same storage, published on
/// branch 0; the borrowed original must not be mutated further.
pub fn build_snapshot_take(
    b: &mut FunctionBuilder,
    entry: usize,
    helper: &LibfuncHelper,
    args: &Vec<usize>,
) -> (r: Result<(), CompileError>)
    requires
        entry < old(b).f.blocks@.len(),
    ensures
        final(b).f.blocks@.len() == old(b).f.blocks@.len(),
        r is Ok <==> args@.len() >= 1 && spec_can_branch(*helper, old(b).f, entry, 0, 2),
        r is Ok ==> final(b).f.blocks@[entry as int].ops == old(b).f.blocks@[entry as int].ops
            && (final(b).f.blocks@[entry as int].term
            matches Some(Terminator::Br { target, args: ta }) && target
            == helper.branches@[0].block && ta@ == spec_branch_args(
            helper.branches@[0].mapping@,
            seq![args@[0], args@[0]],
        )),
    {
    if args.len() < 1 {
        return Err(CompileError::InvariantViolation);
    }
    let mut results: Vec<usize> = Vec::new();
    results.push(args[0]);
    results.push(args[0]);
    proof {
        assert(results@ =~= seq![args@[0], args@[0]]);
    }
    helper.br(b, entry, 0, &results)
}

/// Emits the no-value control libfuncs (`branch_align`, `jump`, the
/// ap-tracking family): an empty jump to branch 0.
pub fn build_nop(
    b: &mut FunctionBuilder,
    entry: usize,
    helper: &LibfuncHelper,
) -> (r: Result<(), CompileError>)
    requires
        entry < old(b).f.blocks@.len(),
    ensures
        final(b).f.blocks@.len() == old(b).f.blocks@.len(),
        r is Ok <==> spec_can_branch(*helper, old(b).f, entry, 0, 0),
        r is Ok ==> final(b).f.blocks@[entry as int].ops == old(b).f.blocks@[entry as int].ops
            && (final(b).f.blocks@[entry as int].term
            matches Some(Terminator::Br { target, args: ta }) && target
            == helper.branches@[0].block && ta@ == spec_branch_args(
            helper.branches@[0].mapping@,
            Seq::empty(),
        )),
{
    let empty: Vec<usize> = Vec::new();
    proof {
        assert(empty@ =~= Seq::<usize>::empty());
    }
    helper.br(b, entry, 0, &empty)
}

/// Emits `struct_construct`: one aggregate from the field values,
/// published on branch 0.
pub fn build_struct_construct(
    b: &mut FunctionBuilder,
    entry: usize,
    helper: &LibfuncHelper,
    args: &Vec<usize>,
) -> (r: Result<(), CompileError>)
    requires
        entry < old(b).f.blocks@.len(),
        old(b).f.n_values + 1 < usize::MAX,
    ensures
        final(b).f.blocks@.len() == old(b).f.blocks@.len(),
        r is Ok <==> spec_can_branch(*helper, old(b).f, entry, 0, 1),
        r is Ok ==> final(b).f.blocks@[entry as int].ops@.len() == old(b).f.blocks@[entry as
            int].ops@.len() + 1 && (final(b).f.blocks@[entry as int].ops@.last().kind
            matches OpKind::StructMake { fields } && fields@ == args@)
            && final(b).f.blocks@[entry as int].ops@.last().dests@ == seq![old(b).f.n_values]
            && (final(b).f.blocks@[entry as int].term
            matches Some(Terminator::Br { target, args: ta }) && target
            == helper.branches@[0].block && ta@ == spec_branch_args(
            helper.branches@[0].mapping@,
            seq![old(b).f.n_values],
        )),
{
    let fields = copy_ids(args);
    let dests = b.push_op(entry, OpKind::StructMake { fields }, 1);
    proof {
        assert(dests@ =~= seq![old(b).f.n_values]);
    }
    helper.br(b, entry, 0, &dests)
}

/// Emits `struct_deconstruct`: one extraction per declared member, all
/// published in order on branch 0.
#[verifier::loop_isolation(false)]
pub fn build_struct_deconstruct(
    b: &mut FunctionBuilder,
    entry: usize,
    helper: &LibfuncHelper,
    registry: &ProgramRegistry,
    args: &Vec<usize>,
    ty: usize,
) -> (r: Result<(), CompileError>)
    requires
        entry < old(b).f.blocks@.len(),
    ensures
        final(b).f.blocks@.len() == old(b).f.blocks@.len(),
        r is Ok <==> args@.len() >= 1 && (ty as int) < registry.program.types@.len() && (
        registry.program.types@[ty as int] matches crate::program::ConcreteType::Struct(ms)
            && ms@.len() < usize::MAX - 1 && old(b).f.n_values < usize::MAX - ms@.len() - 1
            && spec_can_branch(*helper, old(b).f, entry, 0, ms@.len())),
        r is Ok ==> (registry.program.types@[ty as int]
            matches crate::program::ConcreteType::Struct(ms) && final(b).f.blocks@[entry as
            int].ops@.len() == old(b).f.blocks@[entry as int].ops@.len() + ms@.len() && (forall|
            j: int,
        |
            0 <= j < ms@.len() ==> (#[trigger] final(b).f.blocks@[entry as int].ops@[old(b).f.blocks@[entry as int].ops@.len() + j].kind matches OpKind::StructExtract {
                arg,
                index,
            } && arg == args@[0] && index == j)) && (final(b).f.blocks@[entry as int].term
            matches Some(Terminator::Br { target, args: ta }) && target
            == helper.branches@[0].block && ta@ == spec_branch_args(
            helper.branches@[0].mapping@,
            Seq::new(ms@.len(), |j: int| (old(b).f.n_values + j) as usize),
        ))),
{
    if args.len() < 1 {
        return Err(CompileError::InvariantViolation);
    }
    let arg = args[0];
    let t = match registry.get_type(ty) {
        Ok(t) => t,
        Err(e) => {
            return Err(e);
        },
    };
    let n = match t {
        crate::program::ConcreteType::Struct(members) => members.len(),
        _ => {
            return Err(CompileError::InvariantViolation);
        },
    };
    if n >= usize::MAX - 1 {
        return Err(CompileError::LayoutOverflow);
    }
    if b.f.n_values >= usize::MAX - n - 1 {
        return Err(CompileError::LayoutOverflow);
    }
    let ghost base_ops = b.f.blocks@[entry as int].ops@.len();
    let ghost base_vals = b.f.n_values;
    let mut results: Vec<usize> = Vec::new();
    let mut i: usize = 0;
    while i < n
        invariant
            i <= n,
            b.f.blocks@.len() == old(b).f.blocks@.len(),
            b.f.n_values == base_vals + i,
            b.f.blocks@[entry as int].ops@.len() == base_ops + i,
            b.f.blocks@[entry as int].term == old(b).f.blocks@[entry as int].term,
            results@.len() == i,
            forall|j: int| 0 <= j < i ==> results@[j] == (base_vals + j) as usize,
            forall|j: int|
                0 <= j < i ==> (#[trigger] b.f.blocks@[entry as int].ops@[base_ops + j].kind
                    matches OpKind::StructExtract { arg: a, index } && a == arg && index == j),
        decreases n - i,
    {
        let d = b.push_op(entry, OpKind::StructExtract { arg, index: i }, 1);
        results.push(d[0]);
        i = i + 1;
    }
    proof {
        assert(results@ =~= Seq::new(n as nat, |j: int| (base_vals + j) as usize));
    }
    helper.br(b, entry, 0, &results)
}

/// Emits `enum_init`: wraps the payload under the declared variant's tag,
/// published on branch 0.
pub fn build_enum_init(
    b: &mut FunctionBuilder,
    entry: usize,
    helper: &LibfuncHelper,
    args: &Vec<usize>,
    variant: usize,
) -> (r: Result<(), CompileError>)
    requires
        entry < old(b).f.blocks@.len(),
        old(b).f.n_values + 1 < usize::MAX,
    ensures
        final(b).f.blocks@.len() == old(b).f.blocks@.len(),
        r is Ok <==> args@.len() >= 1 && spec_can_branch(*helper, old(b).f, entry, 0, 1),
        r is Ok ==> final(b).f.blocks@[entry as int].ops@.len() == old(b).f.blocks@[entry as
            int].ops@.len() + 1 && (final(b).f.blocks@[entry as int].ops@.last().kind
            matches OpKind::EnumMake { tag, arg } && tag == variant && arg == args@[0])
            && final(b).f.blocks@[entry as int].ops@.last().dests@ == seq![old(b).f.n_values]
            && (final(b).f.blocks@[entry as int].term
            matches Some(Terminator::Br { target, args: ta }) && target
            == helper.branches@[0].block && ta@ == spec_branch_args(
            helper.branches@[0].mapping@,
            seq![old(b).f.n_values],
        )),
{
    if args.len() < 1 {
        return Err(CompileError::InvariantViolation);
    }
    let dests = b.push_op(entry, OpKind::EnumMake { tag: variant, arg: args[0] }, 1);
    proof {
        assert(dests@ =~= seq![old(b).f.n_values]);
    }
    helper.br(b, entry, 0, &dests)
}

/// Emits `enum_match`: reads the tag and payload, then a switch on the tag
/// dispatching variant `i` to statement branch `i` with the payload (the
/// default edge serves variant 0).
#[verifier::loop_isolation(false)]
pub fn build_enum_match(
    b: &mut FunctionBuilder,
    entry: usize,
    helper: &LibfuncHelper,
    registry: &ProgramRegistry,
    args: &Vec<usize>,
    ty: usize,
) -> (r: Result<(), CompileError>)
    requires
        entry < old(b).f.blocks@.len(),
        old(b).f.n_values + 4 < usize::MAX,
    ensures
        final(b).f.blocks@.len() == old(b).f.blocks@.len(),
        r is Ok <==> args@.len() >= 1 && (ty as int) < registry.program.types@.len() && (
        registry.program.types@[ty as int] matches crate::program::ConcreteType::Enum(vs)
            && vs@.len() > 0 && old(b).f.blocks@[entry as int].term is None && branches_accept(
            helper.branches@,
            vs@.len(),
            1,
        )),
        r is Ok ==> (registry.program.types@[ty as int]
            matches crate::program::ConcreteType::Enum(vs) && final(b).f.blocks@[entry as
            int].ops@.len() == old(b).f.blocks@[entry as int].ops@.len() + 2 && (final(b).f.blocks@[entry as int].term matches Some(
            Terminator::Switch { flag, default_target, default_args, cases: cs },
        ) && flag == old(b).f.n_values && default_target == helper.branches@[0].block
            && default_args@ == spec_branch_args(
            helper.branches@[0].mapping@,
            seq![(old(b).f.n_values + 1) as usize],
        ) && cs@.len() == vs@.len() - 1 && (forall|j: int|
            0 <= j < cs@.len() ==> (#[trigger] cs@[j]).value == j + 1 && cs@[j].target
                == helper.branches@[j + 1].block && cs@[j].args@ == spec_branch_args(
                helper.branches@[j + 1].mapping@,
                seq![(old(b).f.n_values + 1) as usize],
            )))),
{
    if args.len() < 1 {
        return Err(CompileError::InvariantViolation);
    }
    let t = match registry.get_type(ty) {
        Ok(t) => t,
        Err(e) => {
            return Err(e);
        },
    };
    let n = match t {
        crate::program::ConcreteType::Enum(variants) => variants.len(),
        _ => {
            return Err(CompileError::InvariantViolation);
        },
    };
    if n == 0 {
        return Err(CompileError::InvariantViolation);
    }
    let tag = b.push_op(entry, OpKind::EnumTag { arg: args[0] }, 1);
    let payload = b.push_op(entry, OpKind::EnumPayload { arg: args[0] }, 1);
    let payload_id = payload[0];
    let mut default_results: Vec<usize> = Vec::new();
    default_results.push(payload_id);
    proof {
        assert(default_results@ =~= seq![(old(b).f.n_values + 1) as usize]);
    }
    let mut cases: Vec<(u64, BranchTarget, Vec<usize>)> = Vec::new();
    let mut i: usize = 1;
    while i < n
        invariant
            1 <= i <= n,
            cases@.len() == i - 1,
            forall|j: int|
                0 <= j < i - 1 ==> (#[trigger] cases@[j]).0 == j + 1 && cases@[j].1
                    == BranchTarget::Return((j + 1) as usize) && cases@[j].2@ == seq![payload_id],
        decreases n - i,
    {
        let mut case_results: Vec<usize> = Vec::new();
        case_results.push(payload_id);
        proof {
            assert(case_results@ =~= seq![payload_id]);
        }
        cases.push((i as u64, BranchTarget::Return(i), case_results));
        i = i + 1;
    }
    let r = helper.switch(
        b,
        entry,
        tag[0],
        (BranchTarget::Return(0), &default_results),
        &cases,
    );
    proof {
        // Bridge the switch's per-target success condition to the
        // per-variant acceptance of this emitter's contract.
        if r is Ok {
            lemma_accept_from_switch(helper.branches@, cases@, n as nat);
        } else {
            if old(b).f.blocks@[entry as int].term is None && branches_accept(
                helper.branches@,
                n as nat,
                1,
            ) {
                lemma_switch_ok_of_accept(helper.branches@, cases@, n as nat);
                assert(false);
            }
        }
    }
    r
}

/// From a successful switch over the variant cases, every variant branch
/// accepts its single payload result.
proof fn lemma_accept_from_switch(
    branches: Seq<BranchDest>,
    cases: Seq<(u64, BranchTarget, Vec<usize>)>,
    k: nat,
)
    requires
        spec_target_ok(branches, BranchTarget::Return(0usize), 1),
        forall|j: int|
            0 <= j < cases.len() ==> spec_target_ok(
                branches,
                (#[trigger] cases[j]).1,
                cases[j].2@.len(),
            ),
        forall|j: int|
            0 <= j < cases.len() ==> (#[trigger] cases[j]).1 == BranchTarget::Return(
                ((j + 1) as usize),
            ) && cases[j].2@.len() == 1,
        k <= cases.len() + 1,
        cases.len() < usize::MAX,
    ensures
        branches_accept(branches, k, 1),
    decreases k,
{
    if k > 0 {
        lemma_accept_from_switch(branches, cases, (k - 1) as nat);
        if k == 1 {
            assert(spec_target_ok(branches, BranchTarget::Return(0usize), 1));
        } else {
            assert(spec_target_ok(branches, cases[k - 2].1, cases[k - 2].2@.len()));
            assert(cases[k - 2].1 == BranchTarget::Return(((k - 1) as usize)));
            assert(cases[k - 2].2@.len() == 1);
            assert(((k - 1) as usize) as int == k - 1);
        }
    }
}

/// From per-variant acceptance, every target of the emitted switch
/// resolves.
proof fn lemma_switch_ok_of_accept(
    branches: Seq<BranchDest>,
    cases: Seq<(u64, BranchTarget, Vec<usize>)>,
    n: nat,
)
    requires
        branches_accept(branches, n, 1),
        n > 0,
        cases.len() == n - 1,
        cases.len() < usize::MAX,
        forall|j: int|
            0 <= j < cases.len() ==> (#[trigger] cases[j]).1 == BranchTarget::Return(
                ((j + 1) as usize),
            ) && cases[j].2@.len() == 1,
    ensures
        spec_target_ok(branches, BranchTarget::Return(0usize), 1),
        forall|j: int|
            0 <= j < cases.len() ==> spec_target_ok(
                branches,
                (#[trigger] cases[j]).1,
                cases[j].2@.len(),
            ),
{
    lemma_accept_at(branches, n, 1, 0);
    assert forall|j: int|
        0 <= j < cases.len() implies spec_target_ok(
            branches,
            (#[trigger] cases[j]).1,
            cases[j].2@.len(),
        ) by {
        lemma_accept_at(branches, n, 1, j + 1);
        assert(cases[j].1 == BranchTarget::Return(((j + 1) as usize)));
        assert(cases[j].2@.len() == 1);
        assert(((j + 1) as usize) as int == j + 1);
    }
}

/// Emits `array_new`: a fresh empty array on branch 0.
pub fn build_array_new(
    b: &mut FunctionBuilder,
    entry: usize,
    helper: &LibfuncHelper,
) -> (r: Result<(), CompileError>)
    requires
        entry < old(b).f.blocks@.len(),
        old(b).f.n_values + 1 < usize::MAX,
    ensures
        final(b).f.blocks@.len() == old(b).f.blocks@.len(),
        r is Ok <==> spec_can_branch(*helper, old(b).f, entry, 0, 1),
        r is Ok ==> final(b).f.blocks@[entry as int].ops@.len() == old(b).f.blocks@[entry as
            int].ops@.len() + 1 && final(b).f.blocks@[entry as int].ops@.last().kind
            == OpKind::ArrayNew && final(b).f.blocks@[entry as int].ops@.last().dests@
            == seq![old(b).f.n_values] && (final(b).f.blocks@[entry as int].term
            matches Some(Terminator::Br { target, args: ta }) && target
            == helper.branches@[0].block && ta@ == spec_branch_args(
            helper.branches@[0].mapping@,
            seq![old(b).f.n_values],
        )),
{
    let dests = b.push_op(entry, OpKind::ArrayNew, 1);
    proof {
        assert(dests@ =~= seq![old(b).f.n_values]);
    }
    helper.br(b, entry, 0, &dests)
}

/// Emits `array_append`: the array with one value appended, on branch 0.
pub fn build_array_append(
    b: &mut FunctionBuilder,
    entry: usize,
    helper: &LibfuncHelper,
    args: &Vec<usize>,
) -> (r: Result<(), CompileError>)
    requires
        entry < old(b).f.blocks@.len(),
        old(b).f.n_values + 1 < usize::MAX,
    ensures
        final(b).f.blocks@.len() == old(b).f.blocks@.len(),
        r is Ok <==> args@.len() >= 2 && spec_can_branch(*helper, old(b).f, entry, 0, 1),
        r is Ok ==> final(b).f.blocks@[entry as int].ops@.len() == old(b).f.blocks@[entry as
            int].ops@.len() + 1 && (final(b).f.blocks@[entry as int].ops@.last().kind matches OpKind::ArrayAppend { arr, item } && arr == args@[0] && item == args@[1]) && (final(b).f.blocks@[entry as
            int].term matches Some(Terminator::Br { target, args: ta }) && target
            == helper.branches@[0].block && ta@ == spec_branch_args(
            helper.branches@[0].mapping@,
            seq![old(b).f.n_values],
        )),
    {
    if args.len() < 2 {
        return Err(CompileError::InvariantViolation);
    }
    let dests = b.push_op(entry, OpKind::ArrayAppend { arr: args[0], item: args[1] }, 1);
    let mut results: Vec<usize> = Vec::new();
    results.push(dests[0]);
    proof {
        assert(results@ =~= seq![old(b).f.n_values]);
    }
    helper.br(b, entry, 0, &results)
}

/// Emits `array_len`: the live length of the array's descriptor, on
/// branch 0.
pub fn build_array_len(
    b: &mut FunctionBuilder,
    entry: usize,
    helper: &LibfuncHelper,
    args: &Vec<usize>,
) -> (r: Result<(), CompileError>)
    requires
        entry < old(b).f.blocks@.len(),
        old(b).f.n_values + 1 < usize::MAX,
    ensures
        final(b).f.blocks@.len() == old(b).f.blocks@.len(),
        r is Ok <==> args@.len() >= 1 && spec_can_branch(*helper, old(b).f, entry, 0, 1),
        r is Ok ==> final(b).f.blocks@[entry as int].ops@.len() == old(b).f.blocks@[entry as
            int].ops@.len() + 1 && (final(b).f.blocks@[entry as int].ops@.last().kind matches OpKind::ArrayLen { arr } && arr == args@[0]) && (final(b).f.blocks@[entry as
            int].term matches Some(Terminator::Br { target, args: ta }) && target
            == helper.branches@[0].block && ta@ == spec_branch_args(
            helper.branches@[0].mapping@,
            seq![old(b).f.n_values],
        )),
    {
    if args.len() < 1 {
        return Err(CompileError::InvariantViolation);
    }
    let dests = b.push_op(entry, OpKind::ArrayLen { arr: args[0] }, 1);
    let mut results: Vec<usize> = Vec::new();
    results.push(dests[0]);
    proof {
        assert(results@ =~= seq![old(b).f.n_values]);
    }
    helper.br(b, entry, 0, &results)
}

/// Emits `array_get`: the range-check builtin is bumped and the index
/// compared against the live length; the entry forks into two fresh blocks:
/// in range the element is published on branch 0 with the builtin, out of
/// bounds branch 1 gets the builtin alone.
pub fn build_array_get(
    b: &mut FunctionBuilder,
    entry: usize,
    helper: &LibfuncHelper,
    args: &Vec<usize>,
) -> (r: Result<(), CompileError>)
    requires
        entry < old(b).f.blocks@.len(),
        old(b).f.n_values + 8 < usize::MAX,
        old(b).f.blocks@.len() + 2 < usize::MAX,
    ensures
        r is Ok <==> args@.len() >= 3 && old(b).f.blocks@[entry as int].term is None && 0
            < helper.branches@.len() && branch_args_ok(helper.branches@[0].mapping@, 2) && 1
            < helper.branches@.len() && branch_args_ok(helper.branches@[1].mapping@, 1),
        r is Ok ==> final(b).f.blocks@.len() == old(b).f.blocks@.len() + 2 && final(
            b).f.blocks@[entry as int].ops@.len() == old(b).f.blocks@[entry as int].ops@.len() + 3
            && (final(b).f.blocks@[entry as int].ops@[old(b).f.blocks@[entry as int].ops@.len()
            as int].kind matches OpKind::IncCounter { arg, amount } && arg == args@[0] && amount
            == 1) && (final(b).f.blocks@[entry as int].ops@[old(b).f.blocks@[entry as
            int].ops@.len() as int + 1].kind matches OpKind::ArrayLen { arr } && arr == args@[1])
            && (final(b).f.blocks@[entry as int].ops@.last().kind
            matches OpKind::IntLt { ty, lhs, rhs } && ty == crate::program::IntTy::U32 && lhs
            == args@[2] && rhs == old(b).f.n_values + 1) && (final(b).f.blocks@[entry as
            int].term matches Some(Terminator::CondBr { cond, true_target, false_target, .. })
            && cond == old(b).f.n_values + 2 && true_target == old(b).f.blocks@.len()
            && false_target == old(b).f.blocks@.len() as int + 1) && (final(b).f.blocks@[old(
            b).f.blocks@.len() as int].ops@.len() == 1 && (final(b).f.blocks@[old(
            b).f.blocks@.len() as int].ops@.last().kind matches OpKind::ArrayRead { arr, index }
            && arr == args@[1] && index == args@[2])) && (final(b).f.blocks@[old(
            b).f.blocks@.len() as int].term matches Some(Terminator::Br { target, args: ok_args })
            && target == helper.branches@[0].block && ok_args@ == spec_branch_args(
            helper.branches@[0].mapping@,
            seq![(old(b).f.n_values as usize), (old(b).f.n_values + 3) as usize],
        )) && (final(b).f.blocks@[old(b).f.blocks@.len() as int + 1].term matches Some(
            Terminator::Br { target: et, args: err_args },
        ) && et == helper.branches@[1].block && err_args@ == spec_branch_args(
            helper.branches@[1].mapping@,
            seq![(old(b).f.n_values as usize)],
        )),
{
    if args.len() < 3 {
        return Err(CompileError::InvariantViolation);
    }
    let range_check = args[0];
    let arr = args[1];
    let index = args[2];
    let rc2 = b.push_op(entry, OpKind::IncCounter { arg: range_check, amount: 1 }, 1);
    let len = b.push_op(entry, OpKind::ArrayLen { arr }, 1);
    let in_range = b.push_op(
        entry,
        OpKind::IntLt { ty: crate::program::IntTy::U32, lhs: index, rhs: len[0] },
        1,
    );
    let (ok_block, _p1) = b.append_block(0);
    let (err_block, _p2) = b.append_block(0);
    match b.terminate(
        entry,
        Terminator::CondBr {
            cond: in_range[0],
            true_target: ok_block,
            true_args: Vec::new(),
            false_target: err_block,
            false_args: Vec::new(),
        },
    ) {
        Ok(_) => {},
        Err(e) => {
            return Err(e);
        },
    }
    let elem = b.push_op(ok_block, OpKind::ArrayRead { arr, index }, 1);
    let mut ok_results: Vec<usize> = Vec::new();
    ok_results.push(rc2[0]);
    ok_results.push(elem[0]);
    proof {
        assert(ok_results@ =~= seq![(old(b).f.n_values as usize), (old(b).f.n_values + 3) as usize]);
    }
    match helper.br(b, ok_block, 0, &ok_results) {
        Ok(_) => {},
        Err(e) => {
            return Err(e);
        },
    }
    let mut err_results: Vec<usize> = Vec::new();
    err_results.push(rc2[0]);
    proof {
        assert(err_results@ =~= seq![(old(b).f.n_values as usize)]);
    }
    helper.br(b, err_block, 1, &err_results)
}

/// Emits `array_pop_front`: the length is tested against zero and the
/// entry forks into two fresh blocks: a non-empty array yields its first
/// element and the rest on branch 0, an empty one passes through on
/// branch 1.
pub fn build_array_pop_front(
    b: &mut FunctionBuilder,
    entry: usize,
    helper: &LibfuncHelper,
    args: &Vec<usize>,
) -> (r: Result<(), CompileError>)
    requires
        entry < old(b).f.blocks@.len(),
        old(b).f.n_values + 8 < usize::MAX,
        old(b).f.blocks@.len() + 2 < usize::MAX,
    ensures
        r is Ok <==> args@.len() >= 1 && old(b).f.blocks@[entry as int].term is None && 0
            < helper.branches@.len() && branch_args_ok(helper.branches@[0].mapping@, 2) && 1
            < helper.branches@.len() && branch_args_ok(helper.branches@[1].mapping@, 1),
        r is Ok ==> final(b).f.blocks@.len() == old(b).f.blocks@.len() + 2 && final(
            b).f.blocks@[entry as int].ops@.len() == old(b).f.blocks@[entry as int].ops@.len() + 3
            && (final(b).f.blocks@[entry as int].ops@[old(b).f.blocks@[entry as int].ops@.len()
            as int].kind matches OpKind::ArrayLen { arr } && arr == args@[0]) && (final(
            b).f.blocks@[entry as int].ops@[old(b).f.blocks@[entry as int].ops@.len() as int
            + 1].kind matches OpKind::ConstInt { ty: zt, value } && zt
            == crate::program::IntTy::U32 && value == 0) && (final(b).f.blocks@[entry as
            int].ops@.last().kind matches OpKind::IntLt { ty, lhs, rhs } && ty
            == crate::program::IntTy::U32 && lhs == old(b).f.n_values + 1 && rhs == old(
            b).f.n_values) && (final(b).f.blocks@[entry as int].term matches Some(
            Terminator::CondBr { cond, true_target, false_target, .. },
        ) && cond == old(b).f.n_values + 2 && true_target == old(b).f.blocks@.len()
            && false_target == old(b).f.blocks@.len() as int + 1) && (final(b).f.blocks@[old(
            b).f.blocks@.len() as int].ops@.len() == 1 && (final(b).f.blocks@[old(
            b).f.blocks@.len() as int].ops@.last().kind matches OpKind::ArrayPop { arr } && arr
            == args@[0])) && (final(b).f.blocks@[old(b).f.blocks@.len() as int].term matches Some(Terminator::Br { target, args: some_args })
            && target == helper.branches@[0].block && some_args@ == spec_branch_args(
            helper.branches@[0].mapping@,
            seq![(old(b).f.n_values + 3) as usize, (old(b).f.n_values + 4) as usize],
        )) && (final(b).f.blocks@[old(b).f.blocks@.len() as int + 1].term matches Some(
            Terminator::Br { target: nt, args: none_args },
        ) && nt == helper.branches@[1].block && none_args@ == spec_branch_args(
            helper.branches@[1].mapping@,
            seq![args@[0]],
        )),
{
    if args.len() < 1 {
        return Err(CompileError::InvariantViolation);
    }
    let arr = args[0];
    let len = b.push_op(entry, OpKind::ArrayLen { arr }, 1);
    let zero = b.push_op(
        entry,
        OpKind::ConstInt { ty: crate::program::IntTy::U32, value: 0 },
        1,
    );
    let non_empty = b.push_op(
        entry,
        OpKind::IntLt { ty: crate::program::IntTy::U32, lhs: zero[0], rhs: len[0] },
        1,
    );
    let (some_block, _p1) = b.append_block(0);
    let (none_block, _p2) = b.append_block(0);
    match b.terminate(
        entry,
        Terminator::CondBr {
            cond: non_empty[0],
            true_target: some_block,
            true_args: Vec::new(),
            false_target: none_block,
            false_args: Vec::new(),
        },
    ) {
        Ok(_) => {},
        Err(e) => {
            return Err(e);
        },
    }
    let split = b.push_op(some_block, OpKind::ArrayPop { arr }, 2);
    let mut some_results: Vec<usize> = Vec::new();
    some_results.push(split[0]);
    some_results.push(split[1]);
    proof {
        assert(some_results@ =~= seq![(old(b).f.n_values + 3) as usize, (old(b).f.n_values + 4) as usize]);
    }
    match helper.br(b, some_block, 0, &some_results) {
        Ok(_) => {},
        Err(e) => {
            return Err(e);
        },
    }
    let mut none_results: Vec<usize> = Vec::new();
    none_results.push(arr);
    proof {
        assert(none_results@ =~= seq![args@[0]]);
    }
    helper.br(b, none_block, 1, &none_results)
}

/// Emits the `hades_permutation` libfunc: increments the poseidon builtin
/// counter and calls the runtime permutation; branch 0 gets the counter and
/// the three permuted felts.
pub fn build_hades_permutation(
    b: &mut FunctionBuilder,
    entry: usize,
    helper: &LibfuncHelper,
    args: &Vec<usize>,
) -> (r: Result<(), CompileError>)
    requires
        entry < old(b).f.blocks@.len(),
        old(b).f.n_values + 4 < usize::MAX,
    ensures
        final(b).f.blocks@.len() == old(b).f.blocks@.len(),
        r is Ok <==> args@.len() >= 4 && spec_can_branch(*helper, old(b).f, entry, 0, 4),
        r is Ok ==> final(b).f.blocks@[entry as int].ops@.len() == old(b).f.blocks@[entry as
            int].ops@.len() + 2 && (final(b).f.blocks@[entry as int].ops@.last().kind
            matches OpKind::Hades { s0, s1, s2 } && s0 == args@[1] && s1 == args@[2] && s2
            == args@[3]) && (final(b).f.blocks@[entry as int].term matches Some(
            Terminator::Br { target, args: ta },
        ) && target == helper.branches@[0].block && ta@ == spec_branch_args(
            helper.branches@[0].mapping@,
            seq![(old(b).f.n_values as usize), (old(b).f.n_values + 1) as usize, (old(b).f.n_values + 2) as usize, (old(b).f.n_values + 3) as usize],
        )),
{
    if args.len() < 4 {
        return Err(CompileError::InvariantViolation);
    }
    let counter = b.push_op(entry, OpKind::IncCounter { arg: args[0], amount: 1 }, 1);
    let state = b.push_op(entry, OpKind::Hades { s0: args[1], s1: args[2], s2: args[3] }, 3);
    let mut results: Vec<usize> = Vec::new();
    results.push(counter[0]);
    results.push(state[0]);
    results.push(state[1]);
    results.push(state[2]);
    proof {
        assert(results@ =~= seq![(old(b).f.n_values as usize), (old(b).f.n_values + 1) as usize, (
        old(b).f.n_values + 2) as usize, (old(b).f.n_values + 3) as usize]);
    }
    helper.br(b, entry, 0, &results)
}

/// Emits `felt252_dict_new`: bumps the segment-arena counter and allocates
/// a fresh dictionary through the runtime; branch 0 gets both.
pub fn build_dict_new(
    b: &mut FunctionBuilder,
    entry: usize,
    helper: &LibfuncHelper,
    args: &Vec<usize>,
) -> (r: Result<(), CompileError>)
    requires
        entry < old(b).f.blocks@.len(),
        old(b).f.n_values + 2 < usize::MAX,
    ensures
        final(b).f.blocks@.len() == old(b).f.blocks@.len(),
        r is Ok <==> args@.len() >= 1 && spec_can_branch(*helper, old(b).f, entry, 0, 2),
        r is Ok ==> final(b).f.blocks@[entry as int].ops@.len() == old(b).f.blocks@[entry as
            int].ops@.len() + 2 && final(b).f.blocks@[entry as int].ops@.last().kind
            == OpKind::DictNew && (final(b).f.blocks@[entry as int].term matches Some(
            Terminator::Br { target, args: ta },
        ) && target == helper.branches@[0].block && ta@ == spec_branch_args(
            helper.branches@[0].mapping@,
            seq![(old(b).f.n_values as usize), (old(b).f.n_values + 1) as usize],
        )),
{
    if args.len() < 1 {
        return Err(CompileError::InvariantViolation);
    }
    let arena = b.push_op(entry, OpKind::IncCounter { arg: args[0], amount: 1 }, 1);
    let dict = b.push_op(entry, OpKind::DictNew, 1);
    let mut results: Vec<usize> = Vec::new();
    results.push(arena[0]);
    results.push(dict[0]);
    proof {
        assert(results@ =~= seq![(old(b).f.n_values as usize), (old(b).f.n_values + 1) as usize]);
    }
    helper.br(b, entry, 0, &results)
}

/// Emits `felt252_dict_entry_get`: the runtime lookup yields the borrow
/// token and the prior value; branch 0 gets both.
pub fn build_dict_entry_get(
    b: &mut FunctionBuilder,
    entry: usize,
    helper: &LibfuncHelper,
    args: &Vec<usize>,
) -> (r: Result<(), CompileError>)
    requires
        entry < old(b).f.blocks@.len(),
        old(b).f.n_values + 2 < usize::MAX,
    ensures
        final(b).f.blocks@.len() == old(b).f.blocks@.len(),
        r is Ok <==> args@.len() >= 2 && spec_can_branch(*helper, old(b).f, entry, 0, 2),
        r is Ok ==> final(b).f.blocks@[entry as int].ops@.len() == old(b).f.blocks@[entry as
            int].ops@.len() + 1 && (final(b).f.blocks@[entry as int].ops@.last().kind
            matches OpKind::DictGet { dict, key } && dict == args@[0] && key == args@[1]) && (
        final(b).f.blocks@[entry as int].term matches Some(Terminator::Br { target, args: ta })
            && target == helper.branches@[0].block && ta@ == spec_branch_args(
            helper.branches@[0].mapping@,
            seq![(old(b).f.n_values as usize), (old(b).f.n_values + 1) as usize],
        )),
{
    if args.len() < 2 {
        return Err(CompileError::InvariantViolation);
    }
    let dests = b.push_op(entry, OpKind::DictGet { dict: args[0], key: args[1] }, 2);
    let mut results: Vec<usize> = Vec::new();
    results.push(dests[0]);
    results.push(dests[1]);
    proof {
        assert(results@ =~= seq![(old(b).f.n_values as usize), (old(b).f.n_values + 1) as usize]);
    }
    helper.br(b, entry, 0, &results)
}

/// Emits `felt252_dict_entry_finalize`: commits the borrow token with the
/// new value; branch 0 gets the dictionary back.
pub fn build_dict_entry_finalize(
    b: &mut FunctionBuilder,
    entry: usize,
    helper: &LibfuncHelper,
    args: &Vec<usize>,
) -> (r: Result<(), CompileError>)
    requires
        entry < old(b).f.blocks@.len(),
        old(b).f.n_values + 1 < usize::MAX,
    ensures
        final(b).f.blocks@.len() == old(b).f.blocks@.len(),
        r is Ok <==> args@.len() >= 2 && spec_can_branch(*helper, old(b).f, entry, 0, 1),
        r is Ok ==> final(b).f.blocks@[entry as int].ops@.len() == old(b).f.blocks@[entry as
            int].ops@.len() + 1 && (final(b).f.blocks@[entry as int].ops@.last().kind
            matches OpKind::DictFinalize { entry: e, value } && e == args@[0] && value == args@[1])
            && (final(b).f.blocks@[entry as int].term matches Some(
            Terminator::Br { target, args: ta },
        ) && target == helper.branches@[0].block && ta@ == spec_branch_args(
            helper.branches@[0].mapping@,
            seq![old(b).f.n_values],
        )),
{
    if args.len() < 2 {
        return Err(CompileError::InvariantViolation);
    }
    let dests = b.push_op(entry, OpKind::DictFinalize { entry: args[0], value: args[1] }, 1);
    proof {
        assert(dests@ =~= seq![old(b).f.n_values]);
    }
    helper.br(b, entry, 0, &dests)
}

/// Emits `felt252_dict_squash`: the range-check builtin is bumped and
/// ownership of the squashed dictionary returns to the caller on branch 0.
pub fn build_dict_squash(
    b: &mut FunctionBuilder,
    entry: usize,
    helper: &LibfuncHelper,
    args: &Vec<usize>,
) -> (r: Result<(), CompileError>)
    requires
        entry < old(b).f.blocks@.len(),
        old(b).f.n_values + 1 < usize::MAX,
    ensures
        final(b).f.blocks@.len() == old(b).f.blocks@.len(),
        r is Ok <==> args@.len() >= 2 && spec_can_branch(*helper, old(b).f, entry, 0, 2),
        r is Ok ==> final(b).f.blocks@[entry as int].ops@.len() == old(b).f.blocks@[entry as
            int].ops@.len() + 1 && (final(b).f.blocks@[entry as int].ops@.last().kind
            matches OpKind::IncCounter { arg, amount } && arg == args@[0] && amount == 1) && (
        final(b).f.blocks@[entry as int].term matches Some(Terminator::Br { target, args: ta })
            && target == helper.branches@[0].block && ta@ == spec_branch_args(
            helper.branches@[0].mapping@,
            seq![(old(b).f.n_values as usize), args@[1]],
        )),
{
    if args.len() < 2 {
        return Err(CompileError::InvariantViolation);
    }
    let rc2 = b.push_op(entry, OpKind::IncCounter { arg: args[0], amount: 1 }, 1);
    let mut results: Vec<usize> = Vec::new();
    results.push(rc2[0]);
    results.push(args[1]);
    proof {
        assert(results@ =~= seq![(old(b).f.n_values as usize), args@[1]]);
    }
    helper.br(b, entry, 0, &results)
}

/// Emits the `pedersen` hash libfunc: increments the builtin counter and
/// calls the runtime hash; branch 0 gets the counter and the digest.
pub fn build_pedersen(
    b: &mut FunctionBuilder,
    entry: usize,
    helper: &LibfuncHelper,
    args: &Vec<usize>,
) -> (r: Result<(), CompileError>)
    requires
        entry < old(b).f.blocks@.len(),
        old(b).f.n_values + 2 < usize::MAX,
    ensures
        final(b).f.blocks@.len() == old(b).f.blocks@.len(),
        r is Ok <==> args@.len() >= 3 && spec_can_branch(*helper, old(b).f, entry, 0, 2),
        r is Ok ==> final(b).f.blocks@[entry as int].ops@.len() == old(b).f.blocks@[entry as
            int].ops@.len() + 2 && (final(b).f.blocks@[entry as int].ops@.last().kind
            matches OpKind::Pedersen { lhs, rhs } && lhs == args@[1] && rhs == args@[2]) && (
        final(b).f.blocks@[entry as int].term matches Some(Terminator::Br { target, args: ta })
            && target == helper.branches@[0].block && ta@ == spec_branch_args(
            helper.branches@[0].mapping@,
            seq![(old(b).f.n_values as usize), (old(b).f.n_values + 1) as usize],
        )),
{
    if args.len() < 3 {
        return Err(CompileError::InvariantViolation);
    }
    let counter = b.push_op(entry, OpKind::IncCounter { arg: args[0], amount: 1 }, 1);
    let digest = b.push_op(entry, OpKind::Pedersen { lhs: args[1], rhs: args[2] }, 1);
    let mut results: Vec<usize> = Vec::new();
    results.push(counter[0]);
    results.push(digest[0]);
    proof {
        assert(results@ =~= seq![(old(b).f.n_values as usize), (old(b).f.n_values + 1) as usize]);
    }
    helper.br(b, entry, 0, &results)
}

/// Emits `withdraw_gas`: subtracts the statement's static cost from the
/// gas counter; branch 0 on success with the reduced gas, branch 1 out of
/// gas with the gas unchanged; the range-check builtin threads through
/// both.
pub fn build_withdraw_gas(
    b: &mut FunctionBuilder,
    entry: usize,
    helper: &LibfuncHelper,
    args: &Vec<usize>,
    cost: u64,
) -> (r: Result<(), CompileError>)
    requires
        entry < old(b).f.blocks@.len(),
        old(b).f.n_values + 8 < usize::MAX,
    ensures
        final(b).f.blocks@.len() == old(b).f.blocks@.len(),
        r is Ok <==> args@.len() >= 2 && spec_can_branch(*helper, old(b).f, entry, 0, 2)
            && spec_can_branch(*helper, old(b).f, entry, 1, 2),
        r is Ok ==> final(b).f.blocks@[entry as int].ops@.len() == old(b).f.blocks@[entry as
            int].ops@.len() + 3 && (final(b).f.blocks@[entry as int].ops@.last().kind
            matches OpKind::IntOp { ty, op, lhs, rhs } && ty == crate::program::IntTy::U128 && op
            == crate::program::IntOperator::OverflowingSub && lhs == args@[1] && rhs == old(b).f.n_values + 1) && (final(b).f.blocks@[entry as int].term matches Some(
            Terminator::CondBr { cond, true_target, true_args, false_target, false_args },
        ) && cond == old(b).f.n_values + 3 && true_target == helper.branches@[1].block
            && true_args@ == spec_branch_args(
            helper.branches@[1].mapping@,
            seq![(old(b).f.n_values as usize), args@[1]],
        ) && false_target == helper.branches@[0].block && false_args@ == spec_branch_args(
            helper.branches@[0].mapping@,
            seq![(old(b).f.n_values as usize), (old(b).f.n_values + 2) as usize],
        )),
{
    if args.len() < 2 {
        return Err(CompileError::InvariantViolation);
    }
    let range_check = args[0];
    let gas = args[1];
    let rc2 = b.push_op(entry, OpKind::IncCounter { arg: range_check, amount: 1 }, 1);
    let cost_const = b.push_op(
        entry,
        OpKind::ConstInt { ty: crate::program::IntTy::U128, value: cost as i128 },
        1,
    );
    let sub = b.push_op(
        entry,
        OpKind::IntOp {
            ty: crate::program::IntTy::U128,
            op: crate::program::IntOperator::OverflowingSub,
            lhs: gas,
            rhs: cost_const[0],
        },
        2,
    );
    let mut ok_results: Vec<usize> = Vec::new();
    ok_results.push(rc2[0]);
    ok_results.push(sub[0]);
    let mut oom_results: Vec<usize> = Vec::new();
    oom_results.push(rc2[0]);
    oom_results.push(gas);
    proof {
        assert(ok_results@ =~= seq![(old(b).f.n_values as usize), (old(b).f.n_values + 2) as usize]);
        assert(oom_results@ =~= seq![(old(b).f.n_values as usize), args@[1]]);
    }
    helper.cond_br(b, entry, sub[1], (1, 0), &oom_results, &ok_results)
}

/// Routes a statement's libfunc to its emitter; a variant without an
/// emitter refuses the whole compilation with `UnsupportedLibfunc`.  The
/// per-variant contracts (success conditions and the exact emission) live
/// at the emitters this match forwards to.
pub fn build(
    b: &mut FunctionBuilder,
    entry: usize,
    helper: &LibfuncHelper,
    registry: &ProgramRegistry,
    args: &Vec<usize>,
    libfunc: &Libfunc,
    gas_cost: u64,
) -> (r: Result<(), CompileError>)
    requires
        entry < old(b).f.blocks@.len(),
        old(b).f.n_values + 64 < usize::MAX,
        old(b).f.blocks@.len() + 2 < usize::MAX,
        crate::program::types_acyclic(registry.program.types@),
    ensures
        r is Ok ==> final(b).f.blocks@[entry as int].term is Some,
        *libfunc matches Libfunc::Bool ==> (r matches Err(e) && e
            == CompileError::UnsupportedLibfunc("bool")),
        *libfunc matches Libfunc::Bitwise ==> (r matches Err(e) && e
            == CompileError::UnsupportedLibfunc("bitwise")),
        *libfunc matches Libfunc::Cast ==> (r matches Err(e) && e
            == CompileError::UnsupportedLibfunc("cast")),
        *libfunc matches Libfunc::Ec ==> (r matches Err(e) && e
            == CompileError::UnsupportedLibfunc("ec")),
        *libfunc matches Libfunc::BoxOps ==> (r matches Err(e) && e
            == CompileError::UnsupportedLibfunc("box")),
        *libfunc matches Libfunc::NullableOps ==> (r matches Err(e) && e
            == CompileError::UnsupportedLibfunc("nullable")),
        *libfunc matches Libfunc::Uint256 ==> (r matches Err(e) && e
            == CompileError::UnsupportedLibfunc("u256")),
        *libfunc matches Libfunc::Uint512 ==> (r matches Err(e) && e
            == CompileError::UnsupportedLibfunc("u512")),
        *libfunc matches Libfunc::Secp256k1 ==> (r matches Err(e) && e
            == CompileError::UnsupportedLibfunc("secp256k1")),
        *libfunc matches Libfunc::Secp256r1 ==> (r matches Err(e) && e
            == CompileError::UnsupportedLibfunc("secp256r1")),
        *libfunc matches Libfunc::Sha256 ==> (r matches Err(e) && e
            == CompileError::UnsupportedLibfunc("sha256")),
        *libfunc matches Libfunc::Debug ==> (r matches Err(e) && e
            == CompileError::UnsupportedLibfunc("debug")),
{
    match libfunc {
        Libfunc::Felt252Const(c) => crate::libfuncs::felt252::build_const(b, entry, helper, c),
        Libfunc::Felt252BinaryOp(op) => crate::libfuncs::felt252::build_binary_operation(
            b,
            entry,
            helper,
            args,
            *op,
        ),
        Libfunc::Felt252IsZero => crate::libfuncs::felt252::build_is_zero(b, entry, helper, args),
        Libfunc::IntConst { ty, value } => crate::libfuncs::integer::build_const(
            b,
            entry,
            helper,
            *ty,
            *value,
        ),
        Libfunc::IntOperation { ty, operator } => crate::libfuncs::integer::build_operation(
            b,
            entry,
            helper,
            args,
            *ty,
            *operator,
        ),
        Libfunc::IntEqual(ty) => crate::libfuncs::integer::build_equal(b, entry, helper, args, *ty),
        Libfunc::IntIsZero(ty) => crate::libfuncs::integer::build_is_zero(
            b,
            entry,
            helper,
            args,
            *ty,
        ),
        Libfunc::IntWideMul(ty) => crate::libfuncs::integer::build_widemul(
            b,
            entry,
            helper,
            args,
            *ty,
        ),
        Libfunc::IntToFelt252(ty) => crate::libfuncs::integer::build_to_felt252(
            b,
            entry,
            helper,
            args,
            *ty,
        ),
        Libfunc::IntFromFelt252(ty) => crate::libfuncs::integer::build_from_felt252(
            b,
            entry,
            helper,
            args,
            *ty,
        ),
        Libfunc::FunctionCall { function } => crate::libfuncs::function_call::build(
            b,
            entry,
            helper,
            registry,
            args,
            *function,
        ),
        Libfunc::StoreTemp(_) => build_forward(b, entry, helper, args),
        Libfunc::Rename(_) => build_forward(b, entry, helper, args),
        Libfunc::Dup(_) => build_dup(b, entry, helper, args),
        Libfunc::Drop(_) => build_drop(b, entry, helper),
        Libfunc::SnapshotTake(_) => build_snapshot_take(b, entry, helper, args),
        Libfunc::BranchAlign => build_nop(b, entry, helper),
        Libfunc::UnconditionalJump => build_nop(b, entry, helper),
        Libfunc::UnwrapNonZero(_) => build_forward(b, entry, helper, args),
        Libfunc::StructConstruct(_) => build_struct_construct(b, entry, helper, args),
        Libfunc::StructDeconstruct(ty) => build_struct_deconstruct(
            b,
            entry,
            helper,
            registry,
            args,
            *ty,
        ),
        Libfunc::EnumInit { ty: _, variant } => build_enum_init(b, entry, helper, args, *variant),
        Libfunc::EnumMatch(ty) => build_enum_match(b, entry, helper, registry, args, *ty),
        Libfunc::ArrayNew(_) => build_array_new(b, entry, helper),
        Libfunc::ArrayAppend(_) => build_array_append(b, entry, helper, args),
        Libfunc::ArrayLen(_) => build_array_len(b, entry, helper, args),
        Libfunc::ArrayGet(_) => build_array_get(b, entry, helper, args),
        Libfunc::ArrayPopFront(_) => build_array_pop_front(b, entry, helper, args),
        Libfunc::PedersenHash => build_pedersen(b, entry, helper, args),
        Libfunc::HadesPermutation => build_hades_permutation(b, entry, helper, args),
        Libfunc::Felt252DictNew(_) => build_dict_new(b, entry, helper, args),
        Libfunc::Felt252DictEntryGet(_) => build_dict_entry_get(b, entry, helper, args),
        Libfunc::Felt252DictEntryFinalize(_) => build_dict_entry_finalize(b, entry, helper, args),
        Libfunc::Felt252DictSquash(_) => build_dict_squash(b, entry, helper, args),
        Libfunc::WithdrawGas => build_withdraw_gas(b, entry, helper, args, gas_cost),
        Libfunc::ClassHashConst(c) => crate::libfuncs::starknet::build_class_hash_const(
            b,
            entry,
            helper,
            c,
        ),
        Libfunc::ClassHashTryFromFelt252 => crate::libfuncs::starknet::build_class_hash_try_from_felt252(
            b,
            entry,
            helper,
            args,
        ),
        Libfunc::ContractAddressConst(c) => crate::libfuncs::starknet::build_contract_address_const(
            b,
            entry,
            helper,
            c,
        ),
        Libfunc::ContractAddressTryFromFelt252 => crate::libfuncs::starknet::build_contract_address_try_from_felt252(
            b,
            entry,
            helper,
            args,
        ),
        Libfunc::StorageBaseAddressConst(c) => crate::libfuncs::starknet::build_storage_base_address_const(
            b,
            entry,
            helper,
            c,
        ),
        Libfunc::StorageBaseAddressFromFelt252 => crate::libfuncs::starknet::build_storage_base_address_from_felt252(
            b,
            entry,
            helper,
            args,
        ),
        Libfunc::StorageAddressFromBase => crate::libfuncs::starknet::build_storage_address_from_base(
            b,
            entry,
            helper,
            args,
        ),
        Libfunc::StorageAddressFromBaseAndOffset => crate::libfuncs::starknet::build_storage_address_from_base_and_offset(
            b,
            entry,
            helper,
            args,
        ),
        Libfunc::StorageAddressToFelt252 => crate::libfuncs::starknet::build_storage_address_to_felt252(
            b,
            entry,
            helper,
            args,
        ),
        Libfunc::StorageAddressTryFromFelt252 => crate::libfuncs::starknet::build_storage_address_try_from_felt252(
            b,
            entry,
            helper,
            args,
        ),
        // The libfunc families below have no emitter yet: any program
        // holding one refuses to compile, naming the variant.
        Libfunc::Bool => Err(CompileError::UnsupportedLibfunc("bool")),
        Libfunc::Bitwise => Err(CompileError::UnsupportedLibfunc("bitwise")),
        Libfunc::Cast => Err(CompileError::UnsupportedLibfunc("cast")),
        Libfunc::Ec => Err(CompileError::UnsupportedLibfunc("ec")),
        Libfunc::BoxOps => Err(CompileError::UnsupportedLibfunc("box")),
        Libfunc::NullableOps => Err(CompileError::UnsupportedLibfunc("nullable")),
        Libfunc::Uint256 => Err(CompileError::UnsupportedLibfunc("u256")),
        Libfunc::Uint512 => Err(CompileError::UnsupportedLibfunc("u512")),
        Libfunc::Secp256k1 => Err(CompileError::UnsupportedLibfunc("secp256k1")),
        Libfunc::Secp256r1 => Err(CompileError::UnsupportedLibfunc("secp256r1")),
        Libfunc::Sha256 => Err(CompileError::UnsupportedLibfunc("sha256")),
        Libfunc::Debug => Err(CompileError::UnsupportedLibfunc("debug")),
        Libfunc::Syscall { kind, ok_ty, err_ty } => match kind {
            SyscallKind::GetBlockHash => crate::libfuncs::starknet::build_get_block_hash(
                b, entry, helper, registry, args, *ok_ty, *err_ty,
            ),
            SyscallKind::GetExecutionInfo => crate::libfuncs::starknet::build_get_execution_info(
                b, entry, helper, registry, args, *ok_ty, *err_ty,
            ),
            SyscallKind::GetExecutionInfoV2 => crate::libfuncs::starknet::build_get_execution_info_v2(
                b, entry, helper, registry, args, *ok_ty, *err_ty,
            ),
            SyscallKind::Deploy => crate::libfuncs::starknet::build_deploy(
                b, entry, helper, registry, args, *ok_ty, *err_ty,
            ),
            SyscallKind::ReplaceClass => crate::libfuncs::starknet::build_replace_class(
                b, entry, helper, registry, args, *ok_ty, *err_ty,
            ),
            SyscallKind::LibraryCall => crate::libfuncs::starknet::build_library_call(
                b, entry, helper, registry, args, *ok_ty, *err_ty,
            ),
            SyscallKind::CallContract => crate::libfuncs::starknet::build_call_contract(
                b, entry, helper, registry, args, *ok_ty, *err_ty,
            ),
            SyscallKind::StorageRead => crate::libfuncs::starknet::build_storage_read(
                b, entry, helper, registry, args, *ok_ty, *err_ty,
            ),
            SyscallKind::StorageWrite => crate::libfuncs::starknet::build_storage_write(
                b, entry, helper, registry, args, *ok_ty, *err_ty,
            ),
            SyscallKind::EmitEvent => crate::libfuncs::starknet::build_emit_event(
                b, entry, helper, registry, args, *ok_ty, *err_ty,
            ),
            SyscallKind::SendMessageToL1 => crate::libfuncs::starknet::build_send_message_to_l1(
                b, entry, helper, registry, args, *ok_ty, *err_ty,
            ),
            SyscallKind::Keccak => crate::libfuncs::starknet::build_keccak(
                b, entry, helper, registry, args, *ok_ty, *err_ty,
            ),
            SyscallKind::Sha256ProcessBlock => crate::libfuncs::starknet::build_sha256_process_block_syscall(
                b, entry, helper, registry, args, *ok_ty, *err_ty,
            ),
        },
    }
}

} // verus!
