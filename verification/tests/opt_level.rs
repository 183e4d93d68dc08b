//! The optimization-level knob and its numeric conversions.

use cairo_native::ffi::OptLevel;

#[test]
fn test_opt_level_default() {
    // The default implementation yields the default preset (O2).
    assert_eq!(OptLevel::default(), OptLevel::Default);

    // Converting from usize value 2 yields the default preset.
    assert_eq!(OptLevel::from(2usize), OptLevel::Default);

    // Converting from u8 value 2 yields the default preset.
    assert_eq!(OptLevel::from(2u8), OptLevel::Default);
}

#[test]
fn test_opt_level_conversion() {
    // From usize to OptLevel.
    assert_eq!(OptLevel::from(0usize), OptLevel::Off);
    assert_eq!(OptLevel::from(1usize), OptLevel::Less);
    assert_eq!(OptLevel::from(2usize), OptLevel::Default);
    assert_eq!(OptLevel::from(3usize), OptLevel::Aggressive);
    assert_eq!(OptLevel::from(30usize), OptLevel::Aggressive);

    // From OptLevel to usize.
    assert_eq!(usize::from(OptLevel::Off), 0usize);
    assert_eq!(usize::from(OptLevel::Less), 1usize);
    assert_eq!(usize::from(OptLevel::Default), 2usize);
    assert_eq!(usize::from(OptLevel::Aggressive), 3usize);

    // From u8 to OptLevel.
    assert_eq!(OptLevel::from(0u8), OptLevel::Off);
    assert_eq!(OptLevel::from(1u8), OptLevel::Less);
    assert_eq!(OptLevel::from(2u8), OptLevel::Default);
    assert_eq!(OptLevel::from(3u8), OptLevel::Aggressive);
    assert_eq!(OptLevel::from(30u8), OptLevel::Aggressive);
}
