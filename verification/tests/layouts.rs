//! Layout arithmetic: integer layouts, padding, repetition and extension.

use cairo_native::libfuncs::function_call::{plan_function_abi, PassKind};
use cairo_native::program::{ConcreteType, IntTy, Program, ProgramRegistry};
use cairo_native::types::{build_type, is_builtin, is_memory_allocated, is_zst, tag_bits};
use cairo_native::utils::{
    get_integer_layout, layout_extend, layout_pad_to_align, layout_repeat, next_multiple_of_u32,
    next_multiple_of_usize, padding_needed_for, Layout,
};

#[test]
fn test_alignment_compatibility_u8() {
    assert_eq!(get_integer_layout(8).align(), 1);
}

#[test]
fn test_alignment_compatibility_u16() {
    assert_eq!(get_integer_layout(16).align(), 2);
}

#[test]
fn test_alignment_compatibility_u32() {
    assert_eq!(get_integer_layout(32).align(), 4);
}

#[test]
fn test_alignment_compatibility_u64() {
    assert_eq!(get_integer_layout(64).align(), 8);
}

#[test]
fn test_alignment_compatibility_u256() {
    assert_eq!(get_integer_layout(256).align(), 8);
}

#[test]
fn test_alignment_compatibility_u512() {
    assert_eq!(get_integer_layout(512).align(), 8);
}

#[test]
fn integer_layout_sizes() {
    assert_eq!(get_integer_layout(0).size(), 0);
    assert_eq!(get_integer_layout(8).size(), 1);
    assert_eq!(get_integer_layout(64).size(), 8);
    // The 128-bit deviation: 16 bytes, 8-byte aligned.
    assert_eq!(get_integer_layout(128).size(), 16);
    assert_eq!(get_integer_layout(128).align(), 8);
    // The field element: padded to 32 bytes.
    assert_eq!(get_integer_layout(252).size(), 32);
    assert_eq!(get_integer_layout(252).align(), 8);
    // Wide integers become 64-bit limb arrays.
    assert_eq!(get_integer_layout(384).size(), 48);
    assert_eq!(get_integer_layout(512).size(), 64);
}

#[test]
fn tag_width_follows_the_variant_count() {
    // max(1, ceil(log2 n)): one bit up to two variants, then the logarithm.
    assert_eq!(tag_bits(0), 1);
    assert_eq!(tag_bits(1), 1);
    assert_eq!(tag_bits(2), 1);
    assert_eq!(tag_bits(3), 2);
    assert_eq!(tag_bits(4), 2);
    assert_eq!(tag_bits(5), 3);
    assert_eq!(tag_bits(256), 8);
    assert_eq!(tag_bits(257), 9);
}

fn type_program(types: Vec<ConcreteType>) -> Program {
    Program { types, libfuncs: vec![], statements: vec![], funcs: vec![] }
}

#[test]
fn struct_layout_packs_c_style() {
    // struct { u8, u32 }: field offsets 0 and 4, size rounded to 8.
    let program = type_program(vec![
        ConcreteType::Int(IntTy::U8),
        ConcreteType::Int(IntTy::U32),
        ConcreteType::Struct(vec![0, 1]),
    ]);
    let registry = ProgramRegistry::new(&program);
    assert!(registry.check_types_acyclic());
    let (_, layout) = build_type(&registry, 2).unwrap();
    assert_eq!(layout.size(), 8);
    assert_eq!(layout.align(), 4);
}

#[test]
fn enum_layout_holds_the_largest_variant() {
    // enum { unit, u64 }: a one-bit tag in one byte, then the payload at an
    // 8-byte offset.
    let program = type_program(vec![
        ConcreteType::Struct(vec![]),
        ConcreteType::Int(IntTy::U64),
        ConcreteType::Enum(vec![0, 1]),
    ]);
    let registry = ProgramRegistry::new(&program);
    assert!(registry.check_types_acyclic());
    let (_, layout) = build_type(&registry, 2).unwrap();
    assert_eq!(layout.size(), 16);
    assert_eq!(layout.align(), 8);
}

#[test]
fn array_descriptor_layout() {
    // {ptr, since: u32, until: u32, capacity: u32}, padded to 24 bytes.
    let program = type_program(vec![
        ConcreteType::Felt252,
        ConcreteType::Array(0),
    ]);
    let registry = ProgramRegistry::new(&program);
    assert!(registry.check_types_acyclic());
    let (_, layout) = build_type(&registry, 1).unwrap();
    assert_eq!(layout.size(), 24);
    assert_eq!(layout.align(), 8);
}

#[test]
fn type_queries() {
    let program = type_program(vec![
        ConcreteType::RangeCheck,
        ConcreteType::GasBuiltin,
        ConcreteType::Felt252,
        ConcreteType::Felt252Dict(2),
        ConcreteType::Struct(vec![]),
    ]);
    let registry = ProgramRegistry::new(&program);
    assert!(registry.check_types_acyclic());
    // Zero-sized builtins are elided at call boundaries; the gas counter is
    // a builtin with storage.
    assert!(is_builtin(&program.types[0]));
    assert!(is_zst(&registry, 0).unwrap());
    assert!(is_builtin(&program.types[1]));
    assert!(!is_zst(&registry, 1).unwrap());
    // Dicts travel through memory; scalars and empty structs do not.
    assert!(is_memory_allocated(&registry, 3).unwrap());
    assert!(!is_memory_allocated(&registry, 2).unwrap());
    assert!(is_zst(&registry, 4).unwrap());
}

#[test]
fn calling_convention_plan() {
    // f(range_check, felt, array) -> (range_check, array): the zero-sized
    // builtin is elided, the scalar travels directly, the array by pointer;
    // the single memory-allocated return goes through an out-pointer.
    let program = type_program(vec![
        ConcreteType::RangeCheck,
        ConcreteType::Felt252,
        ConcreteType::Array(1),
    ]);
    let registry = ProgramRegistry::new(&program);
    assert!(registry.check_types_acyclic());
    let func = cairo_native::program::Function {
        id: 0,
        debug_name: None,
        entry_point: 0,
        param_vars: vec![0, 1, 2],
        param_types: vec![0, 1, 2],
        ret_types: vec![0, 2],
    };
    let plan = plan_function_abi(&registry, &func).unwrap();
    assert_eq!(
        plan.param_passing,
        vec![PassKind::Elided, PassKind::Direct, PassKind::ByPointer]
    );
    assert_eq!(plan.has_return_ptr, Some(true));
    // The one real return sits at offset zero of the return buffer.
    assert_eq!(plan.ret_offsets, vec![0]);

    // Two real returns instead travel in a returned struct.
    let func = cairo_native::program::Function {
        id: 1,
        debug_name: None,
        entry_point: 0,
        param_vars: vec![0],
        param_types: vec![1],
        ret_types: vec![1, 1],
    };
    let plan = plan_function_abi(&registry, &func).unwrap();
    assert_eq!(plan.has_return_ptr, Some(false));
    assert_eq!(plan.ret_offsets, vec![0, 32]);

    // A single scalar return comes back by value.
    let func = cairo_native::program::Function {
        id: 2,
        debug_name: None,
        entry_point: 0,
        param_vars: vec![0],
        param_types: vec![1],
        ret_types: vec![1],
    };
    let plan = plan_function_abi(&registry, &func).unwrap();
    assert_eq!(plan.has_return_ptr, None);
}

#[test]
fn next_multiple_behaviour() {
    assert_eq!(next_multiple_of_usize(0, 4), 0);
    assert_eq!(next_multiple_of_usize(9, 4), 12);
    assert_eq!(next_multiple_of_usize(12, 4), 12);
    assert_eq!(next_multiple_of_u32(252, 64), 256);
}

#[test]
fn padding_behaviour() {
    let l = Layout { size: 9, align: 1 };
    assert_eq!(padding_needed_for(&l, 4), 3);
    let l = Layout { size: 8, align: 8 };
    assert_eq!(padding_needed_for(&l, 8), 0);
}

#[test]
fn repeat_behaviour() {
    let l = Layout { size: 9, align: 4 };
    let (whole, stride) = layout_repeat(&l, 3).unwrap();
    assert_eq!(stride, 12);
    assert_eq!(whole.size(), 36);
    assert_eq!(whole.align(), 4);
    // Overflow is an error, not a wrap.
    let l = Layout { size: usize::MAX - 16, align: 8 };
    assert!(layout_repeat(&l, 2).is_err());
}

#[test]
fn extend_behaviour() {
    // A C-style struct { u8, u32 }: the second field lands at offset 4.
    let a = Layout { size: 1, align: 1 };
    let b = Layout { size: 4, align: 4 };
    let (combined, offset) = layout_extend(&a, &b).unwrap();
    assert_eq!(offset, 4);
    assert_eq!(combined.size(), 8);
    assert_eq!(combined.align(), 4);
    let padded = layout_pad_to_align(&combined);
    assert_eq!(padded.size(), 8);
}
