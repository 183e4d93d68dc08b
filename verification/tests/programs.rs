//! End-to-end programs through compile and execute: recursion, loops and
//! field arithmetic.

use cairo_native::compiler::compile;
use cairo_native::error::{CompileError, RunError};
use cairo_native::executor::{execute, ExecutionResult};
use cairo_native::felt252::Felt252;
use cairo_native::program::{
    BigIntConst, BranchInfo, ConcreteType, FeltBinaryOperator, Invocation, Libfunc, Program,
    Statement,
};
use cairo_native::starknet::TestSyscallHandler;
use cairo_native::values::Value;
use num_bigint::BigUint;

fn inv(libfunc: usize, args: Vec<u64>, branches: Vec<(usize, Vec<u64>)>) -> Statement {
    Statement::Invocation(Invocation {
        libfunc,
        args,
        branches: branches
            .into_iter()
            .map(|(target, results)| BranchInfo { target, results })
            .collect(),
    })
}

fn ret(args: Vec<u64>) -> Statement {
    Statement::Return(args)
}

fn fconst(v: u128) -> Libfunc {
    Libfunc::Felt252Const(BigIntConst {
        negative: false,
        magnitude: BigUint::from(v),
    })
}

fn fconst_big(digits: &str) -> Libfunc {
    Libfunc::Felt252Const(BigIntConst {
        negative: false,
        magnitude: BigUint::parse_bytes(digits.as_bytes(), 10).unwrap(),
    })
}

fn func(
    id: u64,
    name: &str,
    entry_point: usize,
    param_vars: Vec<u64>,
    param_types: Vec<usize>,
    ret_types: Vec<usize>,
) -> cairo_native::program::Function {
    cairo_native::program::Function {
        id,
        debug_name: Some(name.to_string()),
        entry_point,
        param_vars,
        param_types,
        ret_types,
    }
}

fn felt(v: u128) -> Value {
    Value::Felt252(Felt252::from_u128(v))
}

fn run(program: &Program, id: u64, args: Vec<Value>) -> ExecutionResult {
    let module = compile(program).unwrap();
    let mut handler = TestSyscallHandler;
    execute(&module, program, id, &args, None, &mut handler).unwrap()
}

/// fib(a, b, n): n == 0 yields a, otherwise fib(b, a + b, n - 1);
/// run_test(n) = fib(0, 1, n).
fn fib_program() -> Program {
    Program {
        types: vec![
            ConcreteType::Felt252,       // 0
            ConcreteType::NonZero(0),    // 1
        ],
        libfuncs: vec![
            Libfunc::Felt252IsZero,                          // 0
            Libfunc::Drop(0),                                // 1
            Libfunc::UnwrapNonZero(0),                       // 2
            Libfunc::Dup(0),                                 // 3
            Libfunc::Felt252BinaryOp(FeltBinaryOperator::Add), // 4
            fconst(1),                                       // 5
            Libfunc::Felt252BinaryOp(FeltBinaryOperator::Sub), // 6
            Libfunc::FunctionCall { function: 0 },           // 7
            fconst(0),                                       // 8
        ],
        statements: vec![
            // fib(v0 = a, v1 = b, v2 = n), entry 0
            inv(0, vec![2], vec![(1, vec![]), (3, vec![3])]),
            inv(1, vec![1], vec![(2, vec![])]),
            ret(vec![0]),
            inv(2, vec![3], vec![(4, vec![4])]),
            inv(3, vec![1], vec![(5, vec![5, 6])]),
            inv(4, vec![0, 5], vec![(6, vec![7])]),
            inv(5, vec![], vec![(7, vec![8])]),
            inv(6, vec![4, 8], vec![(8, vec![9])]),
            inv(7, vec![6, 7, 9], vec![(9, vec![10])]),
            ret(vec![10]),
            // run_test(v0 = n), entry 10
            inv(8, vec![], vec![(11, vec![1])]),
            inv(5, vec![], vec![(12, vec![2])]),
            inv(7, vec![1, 2, 0], vec![(13, vec![3])]),
            ret(vec![3]),
        ],
        funcs: vec![
            func(0, "fib", 0, vec![0, 1, 2], vec![0, 0, 0], vec![0]),
            func(1, "run_test", 10, vec![0], vec![0], vec![0]),
        ],
    }
}

#[test]
fn fib() {
    let program = fib_program();
    let result = run(&program, 1, vec![felt(10)]);
    assert_eq!(result.return_value, felt(55));
}

/// factorial(value, n): n == 1 yields value, otherwise
/// factorial(value * n, n - 1); run_test(n) = factorial(1, n).
fn factorial_program() -> Program {
    Program {
        types: vec![
            ConcreteType::Felt252,    // 0
            ConcreteType::NonZero(0), // 1
        ],
        libfuncs: vec![
            Libfunc::Dup(0),                                   // 0
            fconst(1),                                         // 1
            Libfunc::Felt252BinaryOp(FeltBinaryOperator::Sub), // 2
            Libfunc::Felt252IsZero,                            // 3
            Libfunc::Drop(0),                                  // 4
            Libfunc::UnwrapNonZero(0),                         // 5
            Libfunc::Felt252BinaryOp(FeltBinaryOperator::Mul), // 6
            Libfunc::FunctionCall { function: 0 },             // 7
        ],
        statements: vec![
            // factorial(v0 = value, v1 = n), entry 0
            inv(0, vec![1], vec![(1, vec![2, 3])]),
            inv(1, vec![], vec![(2, vec![4])]),
            inv(2, vec![2, 4], vec![(3, vec![5])]),
            inv(3, vec![5], vec![(4, vec![]), (6, vec![6])]),
            inv(4, vec![3], vec![(5, vec![])]),
            ret(vec![0]),
            inv(5, vec![6], vec![(7, vec![7])]),
            inv(6, vec![0, 3], vec![(8, vec![8])]),
            inv(7, vec![8, 7], vec![(9, vec![9])]),
            ret(vec![9]),
            // run_test(v0 = n), entry 10
            inv(1, vec![], vec![(11, vec![1])]),
            inv(7, vec![1, 0], vec![(12, vec![2])]),
            ret(vec![2]),
        ],
        funcs: vec![
            func(0, "factorial", 0, vec![0, 1], vec![0, 0], vec![0]),
            func(1, "run_test", 10, vec![0], vec![0], vec![0]),
        ],
    }
}

#[test]
fn factorial() {
    let program = factorial_program();
    let result = run(&program, 1, vec![felt(13)]);
    assert_eq!(result.return_value, felt(6227020800));
}

const LOGISTIC_X0: &str = "1234567890123456789012345678901234567890";

/// run_test(i): x starts at a fixed seed; loop { x = 4 * x * (-x); if i == 0
/// { break x; } i = i - 1; }.
fn logistic_map_program() -> Program {
    Program {
        types: vec![
            ConcreteType::Felt252,    // 0
            ConcreteType::NonZero(0), // 1
        ],
        libfuncs: vec![
            fconst_big(LOGISTIC_X0),                           // 0
            Libfunc::Dup(0),                                   // 1
            fconst(0),                                         // 2
            Libfunc::Felt252BinaryOp(FeltBinaryOperator::Sub), // 3
            Libfunc::Felt252BinaryOp(FeltBinaryOperator::Mul), // 4
            fconst(4),                                         // 5
            Libfunc::Felt252IsZero,                            // 6
            Libfunc::Drop(0),                                  // 7
            Libfunc::Drop(1),                                  // 8
            fconst(1),                                         // 9
            Libfunc::StoreTemp(0),                             // 10
        ],
        statements: vec![
            // run_test(v0 = i), entry 0
            inv(0, vec![], vec![(1, vec![1])]),
            // loop head: live vars {0 = i, 1 = x}
            inv(1, vec![1], vec![(2, vec![2, 3])]),
            inv(2, vec![], vec![(3, vec![4])]),
            inv(3, vec![4, 2], vec![(4, vec![5])]),
            inv(4, vec![3, 5], vec![(5, vec![6])]),
            inv(5, vec![], vec![(6, vec![7])]),
            inv(4, vec![7, 6], vec![(7, vec![8])]),
            inv(1, vec![0], vec![(8, vec![9, 10])]),
            inv(6, vec![9], vec![(9, vec![]), (12, vec![11])]),
            inv(7, vec![10], vec![(10, vec![])]),
            ret(vec![8]),
            ret(vec![]),
            inv(8, vec![11], vec![(13, vec![])]),
            inv(9, vec![], vec![(14, vec![12])]),
            inv(3, vec![10, 12], vec![(15, vec![13])]),
            inv(10, vec![8], vec![(16, vec![1])]),
            inv(10, vec![13], vec![(1, vec![0])]),
        ],
        funcs: vec![func(0, "run_test", 0, vec![0], vec![0], vec![0])],
    }
}

#[test]
fn logistic_map() {
    let program = logistic_map_program();
    let result = run(&program, 0, vec![felt(1000)]);

    // The reference value: iterate x <- 4 * x * (P - x) mod P, 1001 times
    // (the loop applies the map once before each index check).
    let p = (BigUint::from(1u8) << 251) + BigUint::from(17u8) * (BigUint::from(1u8) << 192)
        + BigUint::from(1u8);
    let mut x = BigUint::parse_bytes(LOGISTIC_X0.as_bytes(), 10).unwrap();
    for _ in 0..1001 {
        let neg = (&p - (&x % &p)) % &p;
        x = (BigUint::from(4u8) * &x % &p) * neg % &p;
    }
    let expected = Value::Felt252(Felt252::from_biguint(x));
    assert_eq!(result.return_value, expected);
}

/// run_test(a, b) = pedersen(a, b), threading the pedersen builtin.
fn pedersen_program() -> Program {
    Program {
        types: vec![
            ConcreteType::Felt252,  // 0
            ConcreteType::Pedersen, // 1
        ],
        libfuncs: vec![Libfunc::PedersenHash],
        statements: vec![
            inv(0, vec![0, 1, 2], vec![(1, vec![3, 4])]),
            ret(vec![3, 4]),
        ],
        funcs: vec![func(0, "run_test", 0, vec![0, 1, 2], vec![1, 0, 0], vec![1, 0])],
    }
}

#[test]
fn pedersen() {
    let program = pedersen_program();
    let a = "2163739901324492107409690946633517860331020929182861814098856895601180685";
    let b = "2392090257937917229310563411601744459500735555884672871108624696010915493156";
    let result = run(
        &program,
        0,
        vec![
            Value::Felt252(Felt252::from_biguint(
                BigUint::parse_bytes(a.as_bytes(), 10).unwrap(),
            )),
            Value::Felt252(Felt252::from_biguint(
                BigUint::parse_bytes(b.as_bytes(), 10).unwrap(),
            )),
        ],
    );

    let fa = starknet_crypto::FieldElement::from_dec_str(a).unwrap();
    let fb = starknet_crypto::FieldElement::from_dec_str(b).unwrap();
    let h = starknet_crypto::pedersen_hash(&fa, &fb);
    let expected = Value::Felt252(Felt252::from_biguint(BigUint::from_bytes_be(
        &h.to_bytes_be(),
    )));
    assert_eq!(result.return_value, expected);
    assert_eq!(result.builtin_stats.pedersen, 1);
}

#[test]
fn compile_is_deterministic() {
    // Compiling the same program twice yields byte-identical MIR.
    let program = fib_program();
    let first = compile(&program).unwrap();
    let second = compile(&program).unwrap();
    assert_eq!(first, second);

    let program = logistic_map_program();
    assert_eq!(compile(&program).unwrap(), compile(&program).unwrap());
}

#[test]
fn wrong_arity_is_refused() {
    let program = fib_program();
    let module = compile(&program).unwrap();
    let mut handler = TestSyscallHandler;
    let r = execute(&module, &program, 1, &vec![felt(1), felt(2)], None, &mut handler);
    assert_eq!(r.unwrap_err(), RunError::ArityMismatch);
}

#[test]
fn wrong_type_is_refused() {
    let program = fib_program();
    let module = compile(&program).unwrap();
    let mut handler = TestSyscallHandler;
    let r = execute(&module, &program, 1, &vec![Value::Uint8(10)], None, &mut handler);
    assert_eq!(r.unwrap_err(), RunError::TypeMismatch);
}

#[test]
fn signature_reports_declared_types() {
    let program = fib_program();
    let (params, rets) = cairo_native::executor::signature(&program, 0).unwrap();
    assert_eq!(params, vec![0, 0, 0]);
    assert_eq!(rets, vec![0]);
    assert!(cairo_native::executor::signature(&program, 77).is_none());
}

#[test]
fn unknown_function_is_refused() {
    let program = fib_program();
    let module = compile(&program).unwrap();
    let mut handler = TestSyscallHandler;
    let r = execute(&module, &program, 77, &vec![felt(1)], None, &mut handler);
    assert_eq!(r.unwrap_err(), RunError::UnknownFunction);
}

#[test]
fn unsupported_libfunc_refuses_compilation() {
    // Field division has no emitter: the compilation is refused, not
    // miscompiled.
    let program = Program {
        types: vec![ConcreteType::Felt252],
        libfuncs: vec![Libfunc::Felt252BinaryOp(FeltBinaryOperator::Div)],
        statements: vec![inv(0, vec![0, 1], vec![(1, vec![2])]), ret(vec![2])],
        funcs: vec![func(0, "run_test", 0, vec![0, 1], vec![0, 0], vec![0])],
    };
    let err = compile(&program).unwrap_err();
    assert_eq!(err, CompileError::UnsupportedLibfunc("felt252_div"));

    // A libfunc family without any emitter refuses the same way, naming it.
    let program = Program {
        types: vec![ConcreteType::Felt252],
        libfuncs: vec![Libfunc::Ec],
        statements: vec![inv(0, vec![0], vec![(1, vec![1])]), ret(vec![1])],
        funcs: vec![func(0, "run_test", 0, vec![0], vec![0], vec![0])],
    };
    assert_eq!(
        compile(&program).unwrap_err(),
        CompileError::UnsupportedLibfunc("ec")
    );
}

#[test]
fn consuming_a_variable_twice_is_refused() {
    // Each IR variable is consumed exactly once: a statement reusing an
    // already consumed variable cannot compile.
    let program = Program {
        types: vec![ConcreteType::Felt252],
        libfuncs: vec![Libfunc::Felt252BinaryOp(FeltBinaryOperator::Add)],
        statements: vec![
            inv(0, vec![0, 0], vec![(1, vec![1])]),
            ret(vec![1]),
        ],
        funcs: vec![func(0, "run_test", 0, vec![0], vec![0], vec![0])],
    };
    assert!(compile(&program).is_err());
}

#[test]
fn leaving_a_variable_live_at_return_is_refused() {
    // A return must consume every live variable; an implicit discard is a
    // linearity violation.
    let program = Program {
        types: vec![ConcreteType::Felt252],
        libfuncs: vec![],
        statements: vec![ret(vec![0])],
        funcs: vec![func(0, "run_test", 0, vec![0, 1], vec![0, 0], vec![0])],
    };
    assert_eq!(compile(&program).unwrap_err(), CompileError::InvariantViolation);
}

#[test]
fn redefining_a_live_variable_is_refused() {
    // Each variable is written once per path: a branch pushing into a
    // variable that is still live cannot compile.
    let program = Program {
        types: vec![ConcreteType::Felt252],
        libfuncs: vec![Libfunc::Dup(0)],
        statements: vec![
            // The dup writes its second copy back into the still-live v0.
            inv(0, vec![0], vec![(1, vec![0, 0])]),
            ret(vec![0]),
        ],
        funcs: vec![func(0, "run_test", 0, vec![0], vec![0], vec![0])],
    };
    assert!(compile(&program).is_err());
}

#[test]
fn cyclic_type_is_refused() {
    let program = Program {
        types: vec![ConcreteType::Struct(vec![0])],
        libfuncs: vec![],
        statements: vec![ret(vec![0])],
        funcs: vec![func(0, "run_test", 0, vec![0], vec![0], vec![0])],
    };
    let err = compile(&program).unwrap_err();
    assert_eq!(err, CompileError::CyclicType);
}
