//! The field element: modular arithmetic, conversions and encodings.

use cairo_native::felt252::{felt252_short_str, felt252_str, felt252_try_into_u, u_to_felt252,
    Felt252};
use num_bigint::BigUint;

fn prime() -> BigUint {
    (BigUint::from(1u8) << 251) + BigUint::from(17u8) * (BigUint::from(1u8) << 192)
        + BigUint::from(1u8)
}

#[test]
fn felt_add_wraps_modulo_prime() {
    let p = prime();
    let a = Felt252::from_biguint(&p - BigUint::from(1u8));
    let b = Felt252::from_u128(5);
    let sum = a.add(&b);
    // (P - 1 + 5) mod P == 4
    assert_eq!(sum, Felt252::from_u128(4));
}

#[test]
fn felt_sub_wraps_modulo_prime() {
    let a = Felt252::from_u128(3);
    let b = Felt252::from_u128(5);
    let diff = a.sub(&b);
    let p = prime();
    assert_eq!(diff, Felt252::from_biguint(&p - BigUint::from(2u8)));
}

#[test]
fn felt_mul_wraps_modulo_prime() {
    let p = prime();
    // (P - 1) * (P - 1) mod P == 1
    let a = Felt252::from_biguint(&p - BigUint::from(1u8));
    let product = a.mul(&a.clone());
    assert_eq!(product, Felt252::from_u128(1));
    // An exact value: 2^130 mod P computed independently.
    let big: BigUint = BigUint::from(1u8) << 130;
    let x = Felt252::from_biguint(big.clone());
    let y = Felt252::from_biguint(big.clone());
    let expected = Felt252::from_biguint((&big * &big) % &p);
    assert_eq!(x.mul(&y), expected);
}

#[test]
fn felt_is_zero_agrees_with_value() {
    assert!(Felt252::zero().is_zero());
    assert!(!Felt252::from_u128(1).is_zero());
    let p = prime();
    // P reduces to zero.
    assert!(Felt252::from_biguint(p).is_zero());
}

#[test]
fn felt_from_i128_wraps_negatives() {
    let p = prime();
    let minus_one = Felt252::from_i128(-1);
    assert_eq!(minus_one, Felt252::from_biguint(&p - BigUint::from(1u8)));
    assert_eq!(Felt252::from_i128(42), Felt252::from_u128(42));
}

#[test]
fn unsigned_felt_round_trip() {
    // u_to_felt252 then felt252_try_into_u yields the value back, for every
    // width's bound.
    for x in [0u128, 1, 254, 255, 65535, u64::MAX as u128, u128::MAX] {
        let f = u_to_felt252(x);
        assert_eq!(felt252_try_into_u(&f, u128::MAX), Some(x));
    }
    // Above the requested bound the conversion refuses.
    let f = u_to_felt252(256);
    assert_eq!(felt252_try_into_u(&f, 255), None);
    let f = u_to_felt252(255);
    assert_eq!(felt252_try_into_u(&f, 255), Some(255));
}

#[test]
fn shortstring_encoding() {
    let marker: Vec<u8> = "ab".as_bytes().to_vec();
    // 'a' = 0x61, 'b' = 0x62, big endian.
    assert_eq!(felt252_short_str(&marker), Felt252::from_u128(0x6162));
    let empty: Vec<u8> = Vec::new();
    assert_eq!(felt252_short_str(&empty), Felt252::zero());
}

#[test]
fn felt_to_u128_bounds() {
    assert_eq!(Felt252::from_u128(u128::MAX).to_u128(), Some(u128::MAX));
    let p = prime();
    let big = Felt252::from_biguint(&p - BigUint::from(1u8));
    assert_eq!(big.to_u128(), None);
}

#[test]
fn decimal_parsing() {
    let digits: Vec<u8> = "12345".as_bytes().to_vec();
    assert_eq!(felt252_str(&digits), Some(Felt252::from_u128(12345)));
    // A leading minus wraps around the field order.
    let negative: Vec<u8> = "-1".as_bytes().to_vec();
    let p = prime();
    assert_eq!(
        felt252_str(&negative),
        Some(Felt252::from_biguint(&p - BigUint::from(1u8)))
    );
    // Junk is refused, not guessed at.
    let junk: Vec<u8> = "12x4".as_bytes().to_vec();
    assert_eq!(felt252_str(&junk), None);
    let empty: Vec<u8> = Vec::new();
    assert_eq!(felt252_str(&empty), None);
    let bare_minus: Vec<u8> = "-".as_bytes().to_vec();
    assert_eq!(felt252_str(&bare_minus), None);
}

#[test]
fn pedersen_hash_matches_reference() {
    let a = Felt252::from_u128(1);
    let b = Felt252::from_u128(2);
    let h = cairo_native::runtime::pedersen(&a, &b);
    let fa = starknet_crypto::FieldElement::from_dec_str("1").unwrap();
    let fb = starknet_crypto::FieldElement::from_dec_str("2").unwrap();
    let expected = starknet_crypto::pedersen_hash(&fa, &fb);
    let expected = Felt252::from_biguint(BigUint::from_bytes_be(&expected.to_bytes_be()));
    assert_eq!(h, expected);
}
