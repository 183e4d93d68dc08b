//! Runtime symbols backing the emitted code.
//!
//! The compiled program calls a small set of fixed entry points for the
//! cryptographic primitives; the executor resolves them to these functions.

use crate::felt252::{big_value, felt_prime, Felt252};
use num_bigint::BigUint;
use starknet_crypto::FieldElement;
use vstd::prelude::*;

verus! {

/// The Pedersen hash of two field elements, itself a field element.  The
/// result depends on the operands alone.
pub uninterp spec fn pedersen_of(x: nat, y: nat) -> nat;

/// Relies on `starknet_crypto::pedersen_hash`: a pure function of its two
/// field-element operands, returning a field element (so below the order).
#[verifier::external_body]
fn pedersen_hash_raw(a: &BigUint, b: &BigUint) -> (r: BigUint)
    requires
        big_value(*a) < felt_prime(),
        big_value(*b) < felt_prime(),
    ensures
        big_value(r) == pedersen_of(big_value(*a), big_value(*b)),
        big_value(r) < felt_prime(),
{
    let x = FieldElement::from_byte_slice_be(&a.to_bytes_be()).unwrap();
    let y = FieldElement::from_byte_slice_be(&b.to_bytes_be()).unwrap();
    BigUint::from_bytes_be(&starknet_crypto::pedersen_hash(&x, &y).to_bytes_be())
}

/// Computes the Pedersen hash of two field elements.
pub fn pedersen(lhs: &Felt252, rhs: &Felt252) -> (r: Felt252)
    ensures
        r@ == pedersen_of(lhs@, rhs@),
{
    let a = lhs.to_biguint();
    let b = rhs.to_biguint();
    let h = pedersen_hash_raw(&a, &b);
    Felt252::from_field_magnitude(h)
}

/// The Hades permutation of a three-felt state; each output is a field
/// element determined by the three inputs alone.
pub uninterp spec fn hades_of(s0: nat, s1: nat, s2: nat) -> (nat, nat, nat);

/// Relies on `starknet_crypto::poseidon_permute_comp`: a pure permutation
/// of the three field elements.
#[verifier::external_body]
fn hades_permutation_raw(s0: &BigUint, s1: &BigUint, s2: &BigUint) -> (r: (
    BigUint,
    BigUint,
    BigUint,
))
    requires
        big_value(*s0) < felt_prime(),
        big_value(*s1) < felt_prime(),
        big_value(*s2) < felt_prime(),
    ensures
        (big_value(r.0), big_value(r.1), big_value(r.2)) == hades_of(
            big_value(*s0),
            big_value(*s1),
            big_value(*s2),
        ),
        big_value(r.0) < felt_prime(),
        big_value(r.1) < felt_prime(),
        big_value(r.2) < felt_prime(),
{
    let mut state = [
        FieldElement::from_byte_slice_be(&s0.to_bytes_be()).unwrap(),
        FieldElement::from_byte_slice_be(&s1.to_bytes_be()).unwrap(),
        FieldElement::from_byte_slice_be(&s2.to_bytes_be()).unwrap(),
    ];
    starknet_crypto::poseidon_permute_comp(&mut state);
    (
        BigUint::from_bytes_be(&state[0].to_bytes_be()),
        BigUint::from_bytes_be(&state[1].to_bytes_be()),
        BigUint::from_bytes_be(&state[2].to_bytes_be()),
    )
}

/// Computes the Hades permutation of a three-felt state.
pub fn hades_permutation(s0: &Felt252, s1: &Felt252, s2: &Felt252) -> (r: (
    Felt252,
    Felt252,
    Felt252,
))
    ensures
        (r.0@, r.1@, r.2@) == hades_of(s0@, s1@, s2@),
{
    let a = s0.to_biguint();
    let b = s1.to_biguint();
    let c = s2.to_biguint();
    let (x, y, z) = hades_permutation_raw(&a, &b, &c);
    (
        Felt252::from_field_magnitude(x),
        Felt252::from_field_magnitude(y),
        Felt252::from_field_magnitude(z),
    )
}

} // verus!
