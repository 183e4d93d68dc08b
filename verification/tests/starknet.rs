//! The starknet libfuncs: address constants and conversions, and the
//! syscall dispatch template against the test handler.

use cairo_native::compiler::compile;
use cairo_native::executor::{execute, ExecutionResult};
use cairo_native::felt252::{felt252_short_str, Felt252};
use cairo_native::program::{
    BigIntConst, BranchInfo, ConcreteType, Invocation, Libfunc, Program, Statement, SyscallKind,
};
use cairo_native::starknet::TestSyscallHandler;
use cairo_native::values::Value;
use num_bigint::BigUint;

const BASE_MINUS_ONE: &str = "106710729501573572985208420194530329073740042555888586719488";
const K_LIMIT: &str = "3618502788666131106986593281521497120414687020801267626233049500247285300992";
const PRIME_MINUS_ONE: &str =
    "3618502788666131213697322783095070105623107215331596699973092056135872020480";

fn inv(libfunc: usize, args: Vec<u64>, branches: Vec<(usize, Vec<u64>)>) -> Statement {
    Statement::Invocation(Invocation {
        libfunc,
        args,
        branches: branches
            .into_iter()
            .map(|(target, results)| BranchInfo { target, results })
            .collect(),
    })
}

fn ret(args: Vec<u64>) -> Statement {
    Statement::Return(args)
}

fn func(
    id: u64,
    name: &str,
    entry_point: usize,
    param_vars: Vec<u64>,
    param_types: Vec<usize>,
    ret_types: Vec<usize>,
) -> cairo_native::program::Function {
    cairo_native::program::Function {
        id,
        debug_name: Some(name.to_string()),
        entry_point,
        param_vars,
        param_types,
        ret_types,
    }
}

fn felt_dec(s: &str) -> Felt252 {
    Felt252::from_biguint(BigUint::parse_bytes(s.as_bytes(), 10).unwrap())
}

fn run(program: &Program, args: Vec<Value>) -> ExecutionResult {
    let module = compile(program).unwrap();
    let mut handler = TestSyscallHandler;
    execute(&module, program, 0, &args, None, &mut handler).unwrap()
}

/// run_program() -> ClassHash { class_hash_const::<4>() }
#[test]
fn class_hash_const() {
    let program = Program {
        types: vec![ConcreteType::ClassHash],
        libfuncs: vec![Libfunc::ClassHashConst(BigIntConst {
            negative: false,
            magnitude: BigUint::from(4u8),
        })],
        statements: vec![inv(0, vec![], vec![(1, vec![0])]), ret(vec![0])],
        funcs: vec![func(0, "run_program", 0, vec![], vec![], vec![0])],
    };
    let result = run(&program, vec![]);
    assert_eq!(result.return_value, Value::Felt252(Felt252::from_u128(4)));
}

/// run_program(value) -> StorageBaseAddress, through the range check.
fn base_from_felt_program() -> Program {
    Program {
        types: vec![
            ConcreteType::Felt252,            // 0
            ConcreteType::RangeCheck,         // 1
            ConcreteType::StorageBaseAddress, // 2
        ],
        libfuncs: vec![Libfunc::StorageBaseAddressFromFelt252],
        statements: vec![inv(0, vec![0, 1], vec![(1, vec![2, 3])]), ret(vec![2, 3])],
        funcs: vec![func(0, "run_program", 0, vec![0, 1], vec![1, 0], vec![1, 2])],
    }
}

#[test]
fn storage_base_address_from_felt252() {
    let program = base_from_felt_program();
    // -1 mod P wraps into the base-address domain by one subtraction of the
    // domain bound 2^251 - 256.
    let r = run(&program, vec![Value::Felt252(felt_dec(PRIME_MINUS_ONE))]);
    assert_eq!(r.return_value, Value::Felt252(felt_dec(BASE_MINUS_ONE)));
    // Values below the bound stay as they are.
    let r = run(&program, vec![Value::Felt252(Felt252::from_u128(1))]);
    assert_eq!(r.return_value, Value::Felt252(Felt252::from_u128(1)));
    // The bound itself wraps to zero.
    let r = run(&program, vec![Value::Felt252(felt_dec(K_LIMIT))]);
    assert_eq!(r.return_value, Value::Felt252(Felt252::from_u128(0)));
    assert_eq!(r.builtin_stats.range_check, 1);
}

/// run_program(base) -> StorageAddress { storage_address_from_base(base) }
#[test]
fn storage_address_from_base() {
    let program = Program {
        types: vec![
            ConcreteType::StorageBaseAddress, // 0
            ConcreteType::StorageAddress,     // 1
        ],
        libfuncs: vec![Libfunc::StorageAddressFromBase],
        statements: vec![inv(0, vec![0], vec![(1, vec![1])]), ret(vec![1])],
        funcs: vec![func(0, "run_program", 0, vec![0], vec![0], vec![1])],
    };
    let r = run(&program, vec![Value::Felt252(felt_dec(BASE_MINUS_ONE))]);
    assert_eq!(r.return_value, Value::Felt252(felt_dec(BASE_MINUS_ONE)));
}

/// run_program(base, offset) with an 8-bit offset.
#[test]
fn storage_address_from_base_and_offset() {
    let program = Program {
        types: vec![
            ConcreteType::StorageBaseAddress,          // 0
            ConcreteType::Int(cairo_native::program::IntTy::U8), // 1
            ConcreteType::StorageAddress,              // 2
        ],
        libfuncs: vec![Libfunc::StorageAddressFromBaseAndOffset],
        statements: vec![inv(0, vec![0, 1], vec![(1, vec![2])]), ret(vec![2])],
        funcs: vec![func(0, "run_program", 0, vec![0, 1], vec![0, 1], vec![2])],
    };
    let base = felt_dec(BASE_MINUS_ONE);
    let cases: [(u8, &str); 3] = [
        (0, "106710729501573572985208420194530329073740042555888586719488"),
        (1, "106710729501573572985208420194530329073740042555888586719489"),
        (255, "106710729501573572985208420194530329073740042555888586719743"),
    ];
    for (offset, expected) in cases {
        let r = run(
            &program,
            vec![Value::Felt252(base.clone()), Value::Uint8(offset)],
        );
        assert_eq!(r.return_value, Value::Felt252(felt_dec(expected)));
    }
}

/// run_program(addr) -> felt252 { storage_address_to_felt252(addr) }
#[test]
fn storage_address_to_felt252() {
    let program = Program {
        types: vec![
            ConcreteType::StorageAddress, // 0
            ConcreteType::Felt252,        // 1
        ],
        libfuncs: vec![Libfunc::StorageAddressToFelt252],
        statements: vec![inv(0, vec![0], vec![(1, vec![1])]), ret(vec![1])],
        funcs: vec![func(0, "run_program", 0, vec![0], vec![0], vec![1])],
    };
    let r = run(&program, vec![Value::Felt252(felt_dec(BASE_MINUS_ONE))]);
    assert_eq!(r.return_value, Value::Felt252(felt_dec(BASE_MINUS_ONE)));
}

/// run_program(value) -> Option<StorageAddress>, range checked at 2^251.
fn address_try_from_program() -> Program {
    Program {
        types: vec![
            ConcreteType::Felt252,          // 0
            ConcreteType::RangeCheck,       // 1
            ConcreteType::StorageAddress,   // 2
            ConcreteType::Struct(vec![]),   // 3
            ConcreteType::Enum(vec![2, 3]), // 4
        ],
        libfuncs: vec![
            Libfunc::StorageAddressTryFromFelt252,   // 0
            Libfunc::EnumInit { ty: 4, variant: 0 }, // 1
            Libfunc::StructConstruct(3),             // 2
            Libfunc::EnumInit { ty: 4, variant: 1 }, // 3
        ],
        statements: vec![
            inv(0, vec![0, 1], vec![(1, vec![2, 3]), (3, vec![2])]),
            inv(1, vec![3], vec![(2, vec![4])]),
            ret(vec![2, 4]),
            inv(2, vec![], vec![(4, vec![5])]),
            inv(3, vec![5], vec![(5, vec![6])]),
            ret(vec![2, 6]),
        ],
        funcs: vec![func(0, "run_program", 0, vec![0, 1], vec![1, 0], vec![1, 4])],
    }
}

#[test]
fn storage_address_try_from_felt252() {
    let program = address_try_from_program();
    let r = run(&program, vec![Value::Felt252(felt_dec(BASE_MINUS_ONE))]);
    assert_eq!(
        r.return_value,
        Value::Enum {
            tag: 0,
            value: Box::new(Value::Felt252(felt_dec(BASE_MINUS_ONE))),
            debug_name: None,
        },
    );
    // -1 mod P lies above 2^251 and is refused.
    let r = run(&program, vec![Value::Felt252(felt_dec(PRIME_MINUS_ONE))]);
    assert_eq!(
        r.return_value,
        Value::Enum {
            tag: 1,
            value: Box::new(Value::Struct { fields: vec![], debug_name: None }),
            debug_name: None,
        },
    );
}

/// run_program(addr) -> felt252, through the storage_read syscall; the test
/// handler reports `addr * 3`.
fn storage_read_program() -> Program {
    Program {
        types: vec![
            ConcreteType::GasBuiltin,                        // 0
            ConcreteType::System,                            // 1
            ConcreteType::StorageAddress,                    // 2
            ConcreteType::Felt252,                           // 3
            ConcreteType::Int(cairo_native::program::IntTy::U32), // 4
            ConcreteType::Struct(vec![]),                    // 5
            ConcreteType::Array(3),                          // 6
        ],
        libfuncs: vec![
            Libfunc::IntConst { ty: cairo_native::program::IntTy::U32, value: 0 }, // 0
            Libfunc::Syscall { kind: SyscallKind::StorageRead, ok_ty: 3, err_ty: 6 }, // 1
            Libfunc::Drop(6),                                                      // 2
            Libfunc::Felt252Const(BigIntConst {
                negative: false,
                magnitude: BigUint::from(0u8),
            }),  // 3
        ],
        statements: vec![
            // v0 = gas, v1 = system, v2 = address
            inv(0, vec![], vec![(1, vec![3])]),
            inv(1, vec![0, 1, 3, 2], vec![(2, vec![4, 5, 6]), (3, vec![4, 5, 7])]),
            ret(vec![4, 5, 6]),
            // error branch: drop the payload, return zero
            inv(2, vec![7], vec![(4, vec![])]),
            inv(3, vec![], vec![(5, vec![8])]),
            ret(vec![4, 5, 8]),
        ],
        funcs: vec![func(0, "run_program", 0, vec![0, 1, 2], vec![0, 1, 2], vec![0, 1, 3])],
    }
}

#[test]
fn storage_read_syscall() {
    let program = storage_read_program();
    let r = run(&program, vec![Value::Felt252(Felt252::from_u128(111))]);
    assert_eq!(r.return_value, Value::Felt252(Felt252::from_u128(333)));
    // The gas counter comes back through the syscall.
    assert_eq!(r.remaining_gas, Some(u128::MAX));
}

/// run_program() -> felt252, through get_block_hash; the test handler
/// reports a fixed shortstring marker.
#[test]
fn get_block_hash_syscall() {
    let program = Program {
        types: vec![
            ConcreteType::GasBuiltin,                        // 0
            ConcreteType::System,                            // 1
            ConcreteType::Felt252,                           // 2
            ConcreteType::Int(cairo_native::program::IntTy::U64), // 3
            ConcreteType::Array(2),                          // 4
        ],
        libfuncs: vec![
            Libfunc::IntConst { ty: cairo_native::program::IntTy::U64, value: 10 },
            Libfunc::Syscall { kind: SyscallKind::GetBlockHash, ok_ty: 2, err_ty: 4 },
            Libfunc::Drop(4),
            Libfunc::Felt252Const(BigIntConst {
                negative: false,
                magnitude: BigUint::from(0u8),
            }),
        ],
        statements: vec![
            inv(0, vec![], vec![(1, vec![2])]),
            inv(1, vec![0, 1, 2], vec![(2, vec![3, 4, 5]), (3, vec![3, 4, 6])]),
            ret(vec![3, 4, 5]),
            inv(2, vec![6], vec![(4, vec![])]),
            inv(3, vec![], vec![(5, vec![7])]),
            ret(vec![3, 4, 7]),
        ],
        funcs: vec![func(0, "run_program", 0, vec![0, 1], vec![0, 1], vec![0, 1, 2])],
    };
    let r = run(&program, vec![]);
    let expected = felt252_short_str(&"get_block_hash ok".as_bytes().to_vec());
    assert_eq!(r.return_value, Value::Felt252(expected));
}

/// run_program() through the keccak syscall: the test handler charges a
/// fixed fee and reports a fixed digest.
#[test]
fn keccak_syscall() {
    let program = Program {
        types: vec![
            ConcreteType::GasBuiltin,                             // 0
            ConcreteType::System,                                 // 1
            ConcreteType::Felt252,                                // 2
            ConcreteType::Int(cairo_native::program::IntTy::U64), // 3
            ConcreteType::Array(3),                               // 4
            ConcreteType::Int(cairo_native::program::IntTy::U128), // 5
            ConcreteType::Struct(vec![5, 5]),                     // 6 (u256)
            ConcreteType::Array(2),                               // 7
        ],
        libfuncs: vec![
            Libfunc::ArrayNew(3),                                              // 0
            Libfunc::Syscall { kind: SyscallKind::Keccak, ok_ty: 6, err_ty: 7 }, // 1
            Libfunc::Drop(7),                                                  // 2
            Libfunc::Drop(0),                                                  // 3
            Libfunc::Drop(1),                                                  // 4
        ],
        statements: vec![
            inv(0, vec![], vec![(1, vec![2])]),
            inv(1, vec![0, 1, 2], vec![(2, vec![3, 4, 5]), (3, vec![3, 4, 6])]),
            ret(vec![3, 4, 5]),
            // The error branch cannot happen under the test handler; consume
            // everything and stop.
            inv(2, vec![6], vec![(4, vec![])]),
            inv(3, vec![3], vec![(5, vec![])]),
            inv(4, vec![4], vec![(6, vec![])]),
            ret(vec![]),
        ],
        funcs: vec![func(0, "run_program", 0, vec![0, 1], vec![0, 1], vec![0, 1, 6])],
    };
    let module = compile(&program).unwrap();
    let mut handler = TestSyscallHandler;
    let r = execute(&module, &program, 0, &vec![], Some(5000), &mut handler).unwrap();
    // The fixed digest sits in the low 128-bit half.
    assert_eq!(
        r.return_value,
        Value::Struct {
            fields: vec![Value::Uint128(1234567890), Value::Uint128(0)],
            debug_name: None,
        },
    );
    // The handler charged its fixed fee.
    assert_eq!(r.remaining_gas, Some(4000));
}

/// Deploy splits its Ok payload into the address and the constructor
/// output; the test handler returns `class_hash + salt` and bumps each
/// calldata felt by one.
#[test]
fn deploy_syscall() {
    let program = Program {
        types: vec![
            ConcreteType::GasBuiltin,     // 0
            ConcreteType::System,         // 1
            ConcreteType::Felt252,        // 2
            ConcreteType::Array(2),       // 3
            ConcreteType::Struct(vec![2, 3]), // 4
        ],
        libfuncs: vec![
            Libfunc::ArrayNew(2),         // 0
            Libfunc::Felt252Const(BigIntConst {
                negative: false,
                magnitude: BigUint::from(7u8),
            }),  // 1
            Libfunc::ArrayAppend(2),      // 2
            Libfunc::Syscall { kind: SyscallKind::Deploy, ok_ty: 4, err_ty: 3 }, // 3
            Libfunc::Drop(3),             // 4
            Libfunc::Felt252Const(BigIntConst {
                negative: false,
                magnitude: BigUint::from(0u8),
            }),  // 5
        ],
        statements: vec![
            // v0 = gas, v1 = system, v2 = class hash, v3 = salt
            inv(0, vec![], vec![(1, vec![4])]),
            inv(1, vec![], vec![(2, vec![5])]),
            inv(2, vec![4, 5], vec![(3, vec![6])]),
            inv(3, vec![0, 1, 2, 3, 6], vec![(4, vec![7, 8, 9, 10]), (7, vec![7, 8, 11])]),
            // ok: address (9) and constructor output (10)
            inv(4, vec![10], vec![(5, vec![])]),
            ret(vec![7, 8, 9]),
            ret(vec![]),
            // err: drop payload, return zero
            inv(4, vec![11], vec![(8, vec![])]),
            inv(5, vec![], vec![(9, vec![12])]),
            ret(vec![7, 8, 12]),
        ],
        funcs: vec![func(0, "run_program", 0, vec![0, 1, 2, 3], vec![0, 1, 2, 2], vec![0, 1, 2])],
    };
    let r = run(
        &program,
        vec![
            Value::Felt252(Felt252::from_u128(100)),
            Value::Felt252(Felt252::from_u128(23)),
        ],
    );
    assert_eq!(r.return_value, Value::Felt252(Felt252::from_u128(123)));
}
