//! The function lowerer: wires one MIR block per reachable IR statement,
//! threads values through the IR's linear variables, and invokes the right
//! emitter per statement.
//!
//! Variables are linear: a statement consumes its arguments from the live
//! environment and each branch writes its results into fresh variables.
//! Re-defining a live variable or consuming a missing one aborts the
//! compilation, so a compiled function touches every variable exactly once
//! along every path (allowing for the explicit `dup` and `drop` libfuncs).

use crate::error::CompileError;
use crate::libfuncs::{BranchArg, BranchDest, LibfuncHelper};
use crate::mir::{FunctionBuilder, MirFunction, MirModule, Terminator};
use crate::program::{Program, ProgramRegistry, Statement};
use vstd::prelude::*;

verus! {

/// A live variable: its IR id and the MIR value currently holding it.
struct LiveVar {
    var: u64,
    value: usize,
}

/// Removes a variable's binding from the environment, returning its value:
/// consuming is destructive, so a second consume of the same variable
/// fails.
#[verifier::loop_isolation(false)]
fn consume_var(env: &mut Vec<LiveVar>, var: u64) -> (r: Result<usize, CompileError>)
    ensures
        r matches Ok(v) ==> exists|i: int|
            0 <= i < old(env)@.len() && (#[trigger] old(env)@[i]).var == var && old(env)@[i].value
                == v && final(env)@ == old(env)@.remove(i),
        r is Err ==> final(env)@ == old(env)@ && (forall|i: int|
            0 <= i < old(env)@.len() ==> (#[trigger] old(env)@[i]).var != var),
{
    let mut i: usize = 0;
    while i < env.len()
        invariant
            env@ == old(env)@,
            i <= env@.len(),
            forall|j: int| 0 <= j < i ==> (#[trigger] env@[j]).var != var,
        decreases env@.len() - i,
    {
        if env[i].var == var {
            let ghost at = i as int;
            let lv = env.remove(i);
            proof {
                assert(old(env)@[at].var == var && old(env)@[at].value == lv.value && env@
                    == old(env)@.remove(at));
            }
            return Ok(lv.value);
        }
        i = i + 1;
    }
    Err(CompileError::UnknownId)
}

/// Inserts a variable into the environment keeping it sorted by id: each
/// variable is defined once, so a variable that is still live cannot be
/// redefined.
#[verifier::loop_isolation(false)]
fn define_var(env: &mut Vec<LiveVar>, var: u64, value: usize) -> (r: Result<(), CompileError>)
    ensures
        r is Ok ==> (forall|i: int|
            0 <= i < old(env)@.len() ==> (#[trigger] old(env)@[i]).var != var) && (exists|i: int|
            0 <= i <= old(env)@.len() && final(env)@ == old(env)@.insert(
                i,
                LiveVar { var, value },
            )),
        r is Err ==> final(env)@ == old(env)@ && (exists|i: int|
            0 <= i < old(env)@.len() && (#[trigger] old(env)@[i]).var == var),
{
    let mut i: usize = 0;
    while i < env.len()
        invariant
            env@ == old(env)@,
            i <= env@.len(),
            forall|j: int| 0 <= j < i ==> (#[trigger] env@[j]).var != var,
        decreases env@.len() - i,
    {
        if env[i].var == var {
            return Err(CompileError::InvariantViolation);
        }
        i = i + 1;
    }
    let mut pos: usize = 0;
    while pos < env.len() && env[pos].var < var
        invariant
            env@ == old(env)@,
            pos <= env@.len(),
        decreases env@.len() - pos,
    {
        pos = pos + 1;
    }
    let ghost at = pos as int;
    env.insert(pos, LiveVar { var, value });
    proof {
        assert(env@ =~= old(env)@.insert(at, LiveVar { var, value }));
    }
    Ok(())
}

/// The shape compilation gives every function: the prologue block first,
/// with one parameter per declared parameter, jumping into block 1, the
/// block lowered for the entry statement.
pub open spec fn compiled_shape(f: crate::mir::MirFunction, decl: crate::program::Function) -> bool {
    &&& f.id == decl.id
    &&& f.blocks@.len() >= 2
    &&& f.blocks@[0].params@.len() == decl.param_types@.len()
    &&& (f.blocks@[0].term matches Some(Terminator::Br { target, .. }) && target == 1)
}

/// Compiles a whole program: one well-formed MIR function per IR function.
/// A cyclic type list is refused as such; every other failure comes out of
/// a function's lowering.
pub fn compile(program: &Program) -> (r: Result<MirModule, CompileError>)
    ensures
        r matches Ok(m) ==> crate::mir::wf_module(m) && m.functions@.len()
            == program.funcs@.len() && (forall|i: int|
            0 <= i < m.functions@.len() ==> compiled_shape(
                #[trigger] m.functions@[i],
                program.funcs@[i],
            )),
        (r matches Err(e) && e == CompileError::CyclicType) <==> !crate::program::types_acyclic(
            program.types@,
        ),
{
    compile_with_costs(program, &None)
}

/// Compiles a whole program, charging `gas_costs[s]` at each `withdraw_gas`
/// statement `s` when a cost table is given.
#[verifier::loop_isolation(false)]
pub fn compile_with_costs(program: &Program, gas_costs: &Option<Vec<u64>>) -> (r: Result<
    MirModule,
    CompileError,
>)
    ensures
        r matches Ok(m) ==> crate::mir::wf_module(m) && m.functions@.len()
            == program.funcs@.len() && (forall|i: int|
            0 <= i < m.functions@.len() ==> compiled_shape(
                #[trigger] m.functions@[i],
                program.funcs@[i],
            )),
        (r matches Err(e) && e == CompileError::CyclicType) <==> !crate::program::types_acyclic(
            program.types@,
        ),
{
    let registry = ProgramRegistry::new(program);
    if !registry.check_types_acyclic() {
        return Err(CompileError::CyclicType);
    }
    let mut functions: Vec<MirFunction> = Vec::new();
    let mut i: usize = 0;
    while i < program.funcs.len()
        invariant
            i <= program.funcs@.len(),
            functions@.len() == i,
            crate::program::types_acyclic(program.types@),
            forall|k: int|
                0 <= k < i ==> crate::mir::wf_function(#[trigger] functions@[k]),
            forall|k: int|
                0 <= k < i ==> compiled_shape(#[trigger] functions@[k], program.funcs@[k]),
        decreases program.funcs@.len() - i,
    {
        let registry = ProgramRegistry::new(program);
        let f = match compile_function(&registry, i, gas_costs) {
            Ok(f) => f,
            Err(e) => {
                // A cyclic type list was already refused above; a nested
                // claim of one would be a compiler bug.
                return match e {
                    CompileError::CyclicType => Err(CompileError::InvariantViolation),
                    _ => Err(e),
                };
            },
        };
        functions.push(f);
        i = i + 1;
    }
    Ok(MirModule { functions })
}

/// Compiles one function into a well-formed MIR function.
#[verifier::loop_isolation(false)]
fn compile_function(registry: &ProgramRegistry, func_idx: usize, gas_costs: &Option<Vec<u64>>) -> (
    r: Result<MirFunction, CompileError>)
    requires
        crate::program::types_acyclic(registry.program.types@),
    ensures
        r matches Ok(f) ==> crate::mir::wf_function(f) && func_idx
            < registry.program.funcs@.len() && compiled_shape(
            f,
            registry.program.funcs@[func_idx as int],
        ),
{
    let func = match registry.get_function(func_idx) {
        Ok(f) => f,
        Err(e) => {
            return Err(e);
        },
    };
    let n_statements = registry.program.statements.len();
    let n_params = func.param_types.len();
    if func.param_vars.len() != n_params || n_params >= usize::MAX - 2 {
        return Err(CompileError::InvariantViolation);
    }
    let (mut b, param_ids) = FunctionBuilder::new(func.id, n_params);
    // The entry environment: the function's parameter variables.
    let mut env: Vec<LiveVar> = Vec::new();
    let mut i: usize = 0;
    while i < n_params
        invariant
            env@.len() <= i,
            i <= n_params,
            param_ids@.len() == n_params,
        decreases n_params - i,
    {
        match define_var(&mut env, func.param_vars[i], param_ids[i]) {
            Ok(_) => {},
            Err(e) => {
                return Err(e);
            },
        }
        i = i + 1;
    }
    // One block per reachable statement, created on first use.
    let mut stmt_blocks: Vec<Option<usize>> = Vec::new();
    let mut stmt_envs: Vec<Vec<u64>> = Vec::new();
    let mut j: usize = 0;
    while j < n_statements
        invariant
            stmt_blocks@.len() == j,
            stmt_envs@.len() == j,
            j <= n_statements,
        decreases n_statements - j,
    {
        stmt_blocks.push(None);
        stmt_envs.push(Vec::new());
        j = j + 1;
    }
    let mut order: Vec<usize> = Vec::new();
    // The prologue jumps to the entry statement's block with the sorted
    // environment.
    let entry_vars = env_vars(&env);
    let entry_args = env_values(&env);
    let entry_block = match ensure_statement_block(
        &mut b,
        &mut stmt_blocks,
        &mut stmt_envs,
        &mut order,
        func.entry_point,
        &entry_vars,
    ) {
        Ok(bl) => bl,
        Err(e) => {
            return Err(e);
        },
    };
    match b.terminate(0, Terminator::Br { target: entry_block, args: entry_args }) {
        Ok(_) => {},
        Err(e) => {
            return Err(e);
        },
    }
    // Process every reachable statement exactly once.
    let mut p: usize = 0;
    while p < order.len()
        invariant
            p <= order@.len(),
            p <= n_statements,
            stmt_blocks@.len() == n_statements,
            stmt_envs@.len() == n_statements,
        decreases n_statements + 1 - p,
    {
        if p >= n_statements {
            return Err(CompileError::InvariantViolation);
        }
        let stmt_idx = order[p];
        if stmt_idx >= n_statements {
            return Err(CompileError::InvariantViolation);
        }
        let block = match &stmt_blocks[stmt_idx] {
            Some(bl) => *bl,
            None => {
                return Err(CompileError::InvariantViolation);
            },
        };
        if block >= b.f.blocks.len() {
            return Err(CompileError::InvariantViolation);
        }
        // Rebuild the environment from the block's parameters.
        let vars = crate::libfuncs::copy_ids_u64(&stmt_envs[stmt_idx]);
        let params = crate::libfuncs::copy_ids(&b.f.blocks[block].params);
        if vars.len() != params.len() {
            return Err(CompileError::InvariantViolation);
        }
        let mut env: Vec<LiveVar> = Vec::new();
        let mut q: usize = 0;
        while q < vars.len()
            invariant
                q <= vars@.len(),
                vars@.len() == params@.len(),
            decreases vars@.len() - q,
        {
            env.push(LiveVar { var: vars[q], value: params[q] });
            q = q + 1;
        }
        match lower_statement(
            registry,
            &mut b,
            &mut stmt_blocks,
            &mut stmt_envs,
            &mut order,
            stmt_idx,
            block,
            env,
            gas_costs,
        ) {
            Ok(_) => {},
            Err(e) => {
                return Err(e);
            },
        }
        p = p + 1;
    }
    match b.finish() {
        Ok(f) => {
            // The function keeps the id it was declared under, and the
            // prologue's shape is part of the module's contract.
            let mut f = f;
            f.id = func.id;
            proof {
                assert(crate::mir::wf_function(f));
            }
            if f.blocks.len() < 2 {
                return Err(CompileError::InvariantViolation);
            }
            if f.blocks[0].params.len() != func.param_types.len() {
                return Err(CompileError::InvariantViolation);
            }
            let prologue_ok = match &f.blocks[0].term {
                Some(Terminator::Br { target, .. }) => *target == 1,
                _ => false,
            };
            if !prologue_ok {
                return Err(CompileError::InvariantViolation);
            }
            Ok(f)
        },
        Err(e) => Err(e),
    }
}

/// The variable ids of an environment, in order.
#[verifier::loop_isolation(false)]
fn env_vars(env: &Vec<LiveVar>) -> (r: Vec<u64>)
    ensures
        r@.len() == env@.len(),
{
    let mut out: Vec<u64> = Vec::new();
    let mut i: usize = 0;
    while i < env.len()
        invariant
            i <= env@.len(),
            out@.len() == i,
        decreases env@.len() - i,
    {
        out.push(env[i].var);
        i = i + 1;
    }
    out
}

/// The value ids of an environment, in order.
#[verifier::loop_isolation(false)]
fn env_values(env: &Vec<LiveVar>) -> (r: Vec<usize>)
    ensures
        r@.len() == env@.len(),
{
    let mut out: Vec<usize> = Vec::new();
    let mut i: usize = 0;
    while i < env.len()
        invariant
            i <= env@.len(),
            out@.len() == i,
        decreases env@.len() - i,
    {
        out.push(env[i].value);
        i = i + 1;
    }
    out
}

/// Returns the block lowered for `stmt`, creating it (with one parameter
/// per live variable) on first use; a later edge must arrive with the same
/// variable set.
#[verifier::loop_isolation(false)]
fn ensure_statement_block(
    b: &mut FunctionBuilder,
    stmt_blocks: &mut Vec<Option<usize>>,
    stmt_envs: &mut Vec<Vec<u64>>,
    order: &mut Vec<usize>,
    stmt: usize,
    vars: &Vec<u64>,
) -> (r: Result<usize, CompileError>)
    ensures
        final(stmt_blocks)@.len() == old(stmt_blocks)@.len(),
        final(stmt_envs)@.len() == old(stmt_envs)@.len(),
        final(order)@.len() >= old(order)@.len(),
        r matches Ok(bl) ==> bl < final(b).f.blocks@.len(),
        final(b).f.blocks@.len() >= old(b).f.blocks@.len(),
        forall|k: int|
            0 <= k < old(b).f.blocks@.len() ==> final(b).f.blocks@[k] == old(b).f.blocks@[k],
{
    if stmt >= stmt_blocks.len() || stmt >= stmt_envs.len() {
        return Err(CompileError::UnknownId);
    }
    match &stmt_blocks[stmt] {
        Some(bl) => {
            let block = *bl;
            // A join: the incoming environments must agree.
            let recorded = &stmt_envs[stmt];
            if recorded.len() != vars.len() {
                return Err(CompileError::InvariantViolation);
            }
            let mut i: usize = 0;
            while i < vars.len()
                invariant
                    i <= vars@.len(),
                    vars@.len() == recorded@.len(),
                decreases vars@.len() - i,
            {
                if recorded[i] != vars[i] {
                    return Err(CompileError::InvariantViolation);
                }
                i = i + 1;
            }
            if block >= b.f.blocks.len() {
                return Err(CompileError::InvariantViolation);
            }
            Ok(block)
        },
        None => {
            if vars.len() >= usize::MAX - 2 || b.f.blocks.len() >= usize::MAX - 2 {
                return Err(CompileError::LayoutOverflow);
            }
            if b.f.n_values >= usize::MAX - vars.len() - 2 {
                return Err(CompileError::LayoutOverflow);
            }
            let (block, _params) = b.append_block(vars.len());
            stmt_blocks.set(stmt, Some(block));
            stmt_envs.set(stmt, crate::libfuncs::copy_ids_u64(vars));
            order.push(stmt);
            Ok(block)
        },
    }
}

/// Lowers one statement into its block: a return consumes the listed
/// variables and terminates; an invocation consumes its arguments, plans
/// each branch's target environment, and hands the block to the libfunc's
/// emitter.
#[verifier::loop_isolation(false)]
fn lower_statement(
    registry: &ProgramRegistry,
    b: &mut FunctionBuilder,
    stmt_blocks: &mut Vec<Option<usize>>,
    stmt_envs: &mut Vec<Vec<u64>>,
    order: &mut Vec<usize>,
    stmt_idx: usize,
    block: usize,
    env: Vec<LiveVar>,
    gas_costs: &Option<Vec<u64>>,
) -> (r: Result<(), CompileError>)
    requires
        block < old(b).f.blocks@.len(),
        crate::program::types_acyclic(registry.program.types@),
    ensures
        final(stmt_blocks)@.len() == old(stmt_blocks)@.len(),
        final(stmt_envs)@.len() == old(stmt_envs)@.len(),
        final(order)@.len() >= old(order)@.len(),
{
    let mut env = env;
    if stmt_idx >= registry.program.statements.len() {
        return Err(CompileError::UnknownId);
    }
    match &registry.program.statements[stmt_idx] {
        Statement::Return(ret_vars) => {
            let mut args: Vec<usize> = Vec::new();
            let mut i: usize = 0;
            while i < ret_vars.len()
                invariant
                    i <= ret_vars@.len(),
                decreases ret_vars@.len() - i,
            {
                let v = match consume_var(&mut env, ret_vars[i]) {
                    Ok(v) => v,
                    Err(e) => {
                        return Err(e);
                    },
                };
                args.push(v);
                i = i + 1;
            }
            // Linearity: a return must consume every live variable.
            if env.len() != 0 {
                return Err(CompileError::InvariantViolation);
            }
            match b.terminate(block, Terminator::Return { args }) {
                Ok(_) => Ok(()),
                Err(e) => Err(e),
            }
        },
        Statement::Invocation(inv) => {
            let libfunc = match registry.get_libfunc(inv.libfunc) {
                Ok(l) => l,
                Err(e) => {
                    return Err(e);
                },
            };
            let mut args: Vec<usize> = Vec::new();
            let mut i: usize = 0;
            while i < inv.args.len()
                invariant
                    i <= inv.args@.len(),
                decreases inv.args@.len() - i,
            {
                let v = match consume_var(&mut env, inv.args[i]) {
                    Ok(v) => v,
                    Err(e) => {
                        return Err(e);
                    },
                };
                args.push(v);
                i = i + 1;
            }
            // Plan each branch: the target's environment is the surviving
            // variables plus the branch's results, kept sorted by id.
            let mut branches: Vec<BranchDest> = Vec::new();
            let mut bi: usize = 0;
            while bi < inv.branches.len()
                invariant
                    bi <= inv.branches@.len(),
                    block < b.f.blocks@.len(),
                    stmt_blocks@.len() == old(stmt_blocks)@.len(),
                    stmt_envs@.len() == old(stmt_envs)@.len(),
                    order@.len() >= old(order)@.len(),
                decreases inv.branches@.len() - bi,
            {
                let info = &registry.program.statements[stmt_idx];
                let branch = match info {
                    Statement::Invocation(inv2) => {
                        if bi >= inv2.branches.len() {
                            return Err(CompileError::InvariantViolation);
                        }
                        &inv2.branches[bi]
                    },
                    _ => {
                        return Err(CompileError::InvariantViolation);
                    },
                };
                // Merge the surviving environment with the branch results.
                let mut target_vars: Vec<u64> = Vec::new();
                let mut mapping: Vec<BranchArg> = Vec::new();
                let mut ei: usize = 0;
                let mut ordered: Vec<(u64, BranchArg)> = Vec::new();
                while ei < env.len()
                    invariant
                        ei <= env@.len(),
                    decreases env@.len() - ei,
                {
                    ordered.push((env[ei].var, BranchArg::External(env[ei].value)));
                    ei = ei + 1;
                }
                let mut ri: usize = 0;
                while ri < branch.results.len()
                    invariant
                        ri <= branch.results@.len(),
                    decreases branch.results@.len() - ri,
                {
                    match insert_sorted(&mut ordered, branch.results[ri], BranchArg::Returned(ri)) {
                        Ok(_) => {},
                        Err(e) => {
                            return Err(e);
                        },
                    }
                    ri = ri + 1;
                }
                let mut oi: usize = 0;
                while oi < ordered.len()
                    invariant
                        oi <= ordered@.len(),
                        target_vars@.len() == oi,
                        mapping@.len() == oi,
                    decreases ordered@.len() - oi,
                {
                    target_vars.push(ordered[oi].0);
                    mapping.push(ordered[oi].1);
                    oi = oi + 1;
                }
                let target_block = match ensure_statement_block(
                    b,
                    stmt_blocks,
                    stmt_envs,
                    order,
                    branch.target,
                    &target_vars,
                ) {
                    Ok(bl) => bl,
                    Err(e) => {
                        return Err(e);
                    },
                };
                branches.push(BranchDest { block: target_block, mapping });
                bi = bi + 1;
            }
            let helper = LibfuncHelper { branches };
            let cost: u64 = match gas_costs {
                Some(costs) => {
                    if stmt_idx < costs.len() {
                        costs[stmt_idx]
                    } else {
                        0
                    }
                },
                None => 0,
            };
            if b.f.n_values >= usize::MAX - 64 || b.f.blocks.len() >= usize::MAX - 2 {
                return Err(CompileError::LayoutOverflow);
            }
            crate::libfuncs::build(b, block, &helper, registry, &args, libfunc, cost)
        },
    }
}

/// Inserts a variable (with its branch-argument recipe) into a list sorted
/// by variable id; a duplicate definition is a linearity violation.
#[verifier::loop_isolation(false)]
fn insert_sorted(ordered: &mut Vec<(u64, BranchArg)>, var: u64, arg: BranchArg) -> (r: Result<
    (),
    CompileError,
>) {
    let mut i: usize = 0;
    while i < ordered.len()
        invariant
            ordered@ == old(ordered)@,
            i <= ordered@.len(),
        decreases ordered@.len() - i,
    {
        if ordered[i].0 == var {
            return Err(CompileError::InvariantViolation);
        }
        if ordered[i].0 > var {
            ordered.insert(i, (var, arg));
            return Ok(());
        }
        i = i + 1;
    }
    ordered.push((var, arg));
    Ok(())
}

} // verus!
