//! The 252-bit prime-field scalar and its arithmetic.
//!
//! A `Felt252` is an element of the field of order
//! `P = 2^251 + 17 * 2^192 + 1`.  The magnitude is held in a heap big
//! integer; every operation reduces modulo `P`, so the type invariant keeps
//! each value below the prime.

use num_bigint::BigUint;
use num_traits::ToPrimitive;
use vstd::prelude::*;

verus! {

use vstd::arithmetic::power2::pow2;

#[verifier::external_type_specification]
#[verifier::external_body]
pub struct ExBigUint(BigUint);

/// The natural number a big unsigned integer holds (its digits read as one
/// arbitrary-precision value).
pub uninterp spec fn big_value(b: BigUint) -> nat;

/// The value of a big-endian base-256 digit sequence.
pub open spec fn bytes_be_value(bytes: Seq<u8>) -> nat
    decreases bytes.len(),
{
    if bytes.len() == 0 {
        0
    } else {
        bytes_be_value(bytes.drop_last()) * 256 + bytes.last() as nat
    }
}

/// Relies on `BigUint: From<u128>`: the big integer holds exactly the given
/// value.
#[verifier::external_body]
fn big_from_u128(x: u128) -> (r: BigUint)
    ensures
        big_value(r) == x,
{
    BigUint::from(x)
}

/// Relies on `num_traits::ToPrimitive::to_u128` for `BigUint`: returns the
/// value when it fits in 128 bits and `None` otherwise.
#[verifier::external_body]
fn big_to_u128(b: &BigUint) -> (r: Option<u128>)
    ensures
        r == if big_value(*b) <= u128::MAX {
            Some(big_value(*b) as u128)
        } else {
            None::<u128>
        },
{
    b.to_u128()
}

/// Relies on `Add for &BigUint`: arbitrary-precision addition.
#[verifier::external_body]
fn big_add(a: &BigUint, b: &BigUint) -> (r: BigUint)
    ensures
        big_value(r) == big_value(*a) + big_value(*b),
{
    a + b
}

/// Relies on `Sub for &BigUint`, which panics on underflow; the precondition
/// rules underflow out.
#[verifier::external_body]
fn big_sub(a: &BigUint, b: &BigUint) -> (r: BigUint)
    requires
        big_value(*b) <= big_value(*a),
    ensures
        big_value(r) == big_value(*a) - big_value(*b),
{
    a - b
}

/// Relies on `Mul for &BigUint`: arbitrary-precision multiplication.
#[verifier::external_body]
fn big_mul(a: &BigUint, b: &BigUint) -> (r: BigUint)
    ensures
        big_value(r) == big_value(*a) * big_value(*b),
{
    a * b
}

/// Relies on `Rem for &BigUint`, which panics on a zero divisor; the
/// precondition rules that out.
#[verifier::external_body]
fn big_rem(a: &BigUint, b: &BigUint) -> (r: BigUint)
    requires
        big_value(*b) > 0,
    ensures
        big_value(r) == big_value(*a) % big_value(*b),
{
    a % b
}

/// Relies on `Shl<u32> for &BigUint`: a left shift multiplies by a power of
/// two.
#[verifier::external_body]
fn big_shl(a: &BigUint, k: u32) -> (r: BigUint)
    ensures
        big_value(r) == big_value(*a) * pow2(k as nat),
{
    a << k
}

/// Relies on `PartialOrd for BigUint`: the order of big integers is the order
/// of the values they hold.
#[verifier::external_body]
fn big_lt(a: &BigUint, b: &BigUint) -> (r: bool)
    ensures
        r <==> big_value(*a) < big_value(*b),
{
    a < b
}

/// Relies on `PartialEq for BigUint`: big integers compare equal exactly when
/// they hold the same value.
#[verifier::external_body]
fn big_eq(a: &BigUint, b: &BigUint) -> (r: bool)
    ensures
        r <==> big_value(*a) == big_value(*b),
{
    a == b
}

/// Relies on `Clone for BigUint`: the clone holds the same value.
#[verifier::external_body]
fn big_clone(a: &BigUint) -> (r: BigUint)
    ensures
        big_value(r) == big_value(*a),
{
    a.clone()
}

/// Relies on `BigUint::from_bytes_be`: the bytes are read as big-endian
/// base-256 digits.
#[verifier::external_body]
fn big_from_bytes_be(bytes: &Vec<u8>) -> (r: BigUint)
    ensures
        big_value(r) == bytes_be_value(bytes@),
{
    BigUint::from_bytes_be(bytes)
}

/// An owned copy of a big integer, for callers outside this module.
pub(crate) fn big_to_owned(b: &BigUint) -> (r: BigUint)
    ensures
        big_value(r) == big_value(*b),
{
    big_clone(b)
}

/// Negation commutes with reduction: `(-(a mod m)) mod m == (-a) mod m`.
pub proof fn lemma_neg_mod_noop(a: int, m: int)
    requires
        m > 0,
    ensures
        (0 - (a % m)) % m == (0 - a) % m,
{
    vstd::arithmetic::div_mod::lemma_fundamental_div_mod(a, m);
    assert(m * (0 - a / m) + (0 - a % m) == 0 - a) by (nonlinear_arith)
        requires
            a == m * (a / m) + a % m,
    ;
    vstd::arithmetic::div_mod::lemma_mod_multiples_vanish(0 - a / m, 0 - (a % m), m);
}

/// The field order: `2^251 + 17 * 2^192 + 1`.
pub open spec fn felt_prime() -> nat {
    pow2(251) + 17 * pow2(192) + 1
}

/// An element of the prime field of order [`felt_prime`].
#[derive(Debug)]
pub struct Felt252 {
    value: BigUint,
}

impl PartialEq for Felt252 {
    fn eq(&self, other: &Self) -> (r: bool) {
        big_eq(&self.value, &other.value)
    }
}

impl vstd::std_specs::cmp::PartialEqSpecImpl for Felt252 {
    open spec fn obeys_eq_spec() -> bool {
        true
    }

    open spec fn eq_spec(&self, other: &Self) -> bool {
        self@ == other@
    }
}

impl View for Felt252 {
    type V = nat;

    closed spec fn view(&self) -> nat {
        big_value(self.value)
    }
}

/// Builds the field order as a big integer.
fn prime_big() -> (r: BigUint)
    ensures
        big_value(r) == felt_prime(),
{
    let one = big_from_u128(1);
    let p251 = big_shl(&one, 251);
    let p192 = big_shl(&one, 192);
    let seventeen = big_from_u128(17);
    let t = big_mul(&seventeen, &p192);
    let s = big_add(&p251, &t);
    big_add(&s, &one)
}

impl Felt252 {
    #[verifier::type_invariant]
    spec fn inv(self) -> bool {
        big_value(self.value) < felt_prime()
    }

    /// The zero element.
    pub fn zero() -> (r: Felt252)
        ensures
            r@ == 0,
            r@ < felt_prime(),
    {
        proof {
            lemma_prime_bounds();
        }
        Felt252 { value: big_from_u128(0) }
    }

    /// Reduces an arbitrary big integer into the field.
    pub fn from_biguint(value: BigUint) -> (r: Felt252)
        ensures
            r@ == big_value(value) % felt_prime(),
            r@ < felt_prime(),
    {
        proof {
            lemma_prime_bounds();
        }
        let p = prime_big();
        let m = big_rem(&value, &p);
        proof {
            lemma_mod_below(big_value(value) as int, felt_prime() as int);
        }
        Felt252 { value: m }
    }

    /// Embeds an unsigned machine integer; every 128-bit value is already
    /// below the field order.
    pub fn from_u128(x: u128) -> (r: Felt252)
        ensures
            r@ == x,
            r@ < felt_prime(),
    {
        proof {
            lemma_prime_bounds();
        }
        Felt252 { value: big_from_u128(x) }
    }

    /// Embeds a signed machine integer, wrapping negatives around the field
    /// order: `-x` becomes `P - x`.
    pub fn from_i128(x: i128) -> (r: Felt252)
        ensures
            r@ == (x as int) % (felt_prime() as int),
            r@ < felt_prime(),
    {
        proof {
            lemma_prime_bounds();
        }
        if x >= 0 {
            let r = Felt252::from_u128(x as u128);
            proof {
                lemma_small_mod(x as nat, felt_prime());
            }
            r
        } else {
            let mag = big_from_u128((-(x + 1)) as u128 + 1);
            let p = prime_big();
            let v = big_sub(&p, &mag);
            proof {
                lemma_neg_mod(x as int, felt_prime() as int);
            }
            Felt252 { value: v }
        }
    }

    /// Field addition: `(a + b) mod P`.
    pub fn add(&self, other: &Felt252) -> (r: Felt252)
        ensures
            r@ == (self@ + other@) % felt_prime(),
            r@ < felt_prime(),
            self@ < felt_prime(),
            other@ < felt_prime(),
    {
        proof {
            use_type_invariant(self);
            use_type_invariant(other);
            lemma_prime_bounds();
        }
        let s = big_add(&self.value, &other.value);
        let p = prime_big();
        let m = big_rem(&s, &p);
        proof {
            lemma_mod_below((self@ + other@) as int, felt_prime() as int);
        }
        Felt252 { value: m }
    }

    /// Field subtraction: `(a - b) mod P`.
    pub fn sub(&self, other: &Felt252) -> (r: Felt252)
        ensures
            r@ == (self@ - other@) % (felt_prime() as int),
            r@ < felt_prime(),
    {
        proof {
            use_type_invariant(self);
            use_type_invariant(other);
            lemma_prime_bounds();
        }
        let p = prime_big();
        let s = big_add(&self.value, &p);
        let d = big_sub(&s, &other.value);
        let m = big_rem(&d, &p);
        proof {
            lemma_mod_below((self@ + felt_prime() - other@) as int, felt_prime() as int);
            vstd::arithmetic::div_mod::lemma_mod_add_multiples_vanish(
                self@ - other@,
                felt_prime() as int,
            );
        }
        Felt252 { value: m }
    }

    /// Field multiplication: `(a * b) mod P`.
    pub fn mul(&self, other: &Felt252) -> (r: Felt252)
        ensures
            r@ == (self@ * other@) % felt_prime(),
            r@ < felt_prime(),
    {
        proof {
            use_type_invariant(self);
            use_type_invariant(other);
            lemma_prime_bounds();
        }
        let s = big_mul(&self.value, &other.value);
        let p = prime_big();
        let m = big_rem(&s, &p);
        proof {
            lemma_mod_below((self@ * other@) as int, felt_prime() as int);
        }
        Felt252 { value: m }
    }

    /// Tests for the zero element.
    pub fn is_zero(&self) -> (r: bool)
        ensures
            r <==> self@ == 0,
    {
        let z = big_from_u128(0);
        big_eq(&self.value, &z)
    }

    /// Value equality in the field.
    pub fn eq_felt(&self, other: &Felt252) -> (r: bool)
        ensures
            r <==> self@ == other@,
    {
        big_eq(&self.value, &other.value)
    }

    /// Strict order on the underlying magnitudes.
    pub fn lt_felt(&self, other: &Felt252) -> (r: bool)
        ensures
            r <==> self@ < other@,
    {
        big_lt(&self.value, &other.value)
    }

    /// The magnitude as a big integer, always below the field order.
    pub fn to_biguint(&self) -> (r: BigUint)
        ensures
            big_value(r) == self@,
            big_value(r) < felt_prime(),
    {
        proof {
            use_type_invariant(self);
        }
        big_clone(&self.value)
    }

    /// The power of two `2^k` as a field element, for `k` below the felt
    /// width.
    pub fn pow2_felt(k: u32) -> (r: Felt252)
        requires
            k < 252,
        ensures
            r@ == pow2(k as nat),
    {
        proof {
            lemma_prime_bounds();
            if k < 251 {
                vstd::arithmetic::power2::lemma_pow2_strictly_increases(k as nat, 251);
            }
        }
        let one = big_from_u128(1);
        let b = big_shl(&one, k);
        Felt252 { value: b }
    }

    /// Wraps a magnitude already known to lie in the field.
    pub fn from_field_magnitude(value: BigUint) -> (r: Felt252)
        requires
            big_value(value) < felt_prime(),
        ensures
            r@ == big_value(value),
    {
        Felt252 { value }
    }

    /// The value as an unsigned 128-bit integer, when it fits.
    pub fn to_u128(&self) -> (r: Option<u128>)
        ensures
            r == if self@ <= u128::MAX {
                Some(self@ as u128)
            } else {
                None::<u128>
            },
    {
        big_to_u128(&self.value)
    }
}

impl Clone for Felt252 {
    /// The clone holds the same field element.
    fn clone(&self) -> (r: Self)
        ensures
            r@ == self@,
            r@ < felt_prime(),
    {
        proof {
            use_type_invariant(self);
        }
        Felt252 { value: big_clone(&self.value) }
    }
}

/// The value of a big-endian base-10 digit sequence.
pub open spec fn decimal_value(bytes: Seq<u8>) -> nat
    decreases bytes.len(),
{
    if bytes.len() == 0 {
        0
    } else {
        decimal_value(bytes.drop_last()) * 10 + (bytes.last() - 0x30) as nat
    }
}

/// Whether every byte is an ASCII decimal digit.
pub open spec fn all_decimal_digits(bytes: Seq<u8>) -> bool {
    forall|i: int| 0 <= i < bytes.len() ==> 0x30 <= #[trigger] bytes[i] <= 0x39
}

/// Relies on `BigUint::parse_bytes` with radix 10: a non-empty sequence of
/// ASCII decimal digits parses to its decimal value.  (The parser also
/// tolerates a sign and separators, so the caller checks the digits first
/// and nothing is claimed of other inputs.)
#[verifier::external_body]
fn big_parse_decimal(bytes: &Vec<u8>) -> (r: Option<BigUint>)
    ensures
        match r {
            Some(b) => bytes@.len() > 0 && all_decimal_digits(bytes@) ==> big_value(b)
                == decimal_value(bytes@),
            None => !(bytes@.len() > 0 && all_decimal_digits(bytes@)),
        },
{
    BigUint::parse_bytes(bytes, 10)
}

/// Whether the bytes are one or more ASCII decimal digits.
fn check_decimal_digits(bytes: &Vec<u8>) -> (r: bool)
    ensures
        r == (bytes@.len() > 0 && all_decimal_digits(bytes@)),
{
    if bytes.len() == 0 {
        return false;
    }
    let mut i: usize = 0;
    while i < bytes.len()
        invariant
            i <= bytes@.len(),
            forall|j: int| 0 <= j < i ==> 0x30 <= #[trigger] bytes@[j] <= 0x39,
        decreases bytes@.len() - i,
    {
        if bytes[i] < 0x30 || bytes[i] > 0x39 {
            return false;
        }
        i = i + 1;
    }
    true
}

/// Parses a decimal numeral into a felt, wrapping a leading minus sign
/// around the field order; anything but an optional sign followed by digits
/// is refused.
pub fn felt252_str(value: &Vec<u8>) -> (r: Option<Felt252>)
    ensures
        match r {
            Some(f) => {
                &&& value@.len() > 0
                &&& if value@[0] == 0x2d {
                    value@.len() > 1 && all_decimal_digits(value@.skip(1)) && f@ == (0
                        - decimal_value(value@.skip(1)) as int) % (felt_prime() as int)
                } else {
                    all_decimal_digits(value@) && f@ == decimal_value(value@) % felt_prime()
                }
            },
            None => value@.len() == 0 || if value@[0] == 0x2d {
                value@.len() <= 1 || !all_decimal_digits(value@.skip(1))
            } else {
                !all_decimal_digits(value@)
            },
        },
{
    if value.len() == 0 {
        return None;
    }
    if value[0] == 0x2d {
        let mut digits: Vec<u8> = Vec::new();
        let mut i: usize = 1;
        while i < value.len()
            invariant
                1 <= i <= value@.len(),
                digits@ =~= value@.subrange(1, i as int),
            decreases value@.len() - i,
        {
            digits.push(value[i]);
            i = i + 1;
        }
        proof {
            assert(digits@ =~= value@.skip(1));
        }
        if !check_decimal_digits(&digits) {
            return None;
        }
        match big_parse_decimal(&digits) {
            Some(b) => {
                let magnitude = Felt252::from_biguint(b);
                let z = Felt252::zero();
                let r = z.sub(&magnitude);
                proof {
                    lemma_prime_bounds();
                    lemma_neg_mod_noop(
                        decimal_value(value@.skip(1)) as int,
                        felt_prime() as int,
                    );
                }
                Some(r)
            },
            None => {
                // Unreachable: checked digits always parse.
                proof {
                    assert(false);
                }
                None
            },
        }
    } else {
        if !check_decimal_digits(value) {
            return None;
        }
        match big_parse_decimal(value) {
            Some(b) => Some(Felt252::from_biguint(b)),
            None => {
                // Unreachable: checked digits always parse.
                proof {
                    assert(false);
                }
                None
            },
        }
    }
}

/// Reads a short ASCII string (at most 31 bytes) as a big-endian felt, the
/// IR's "shortstring" encoding.
pub fn felt252_short_str(bytes: &Vec<u8>) -> (r: Felt252)
    requires
        bytes@.len() <= 31,
    ensures
        r@ == bytes_be_value(bytes@),
        r@ < felt_prime(),
{
    let b = big_from_bytes_be(bytes);
    proof {
        lemma_bytes_be_value_bound(bytes@);
        lemma_prime_bounds();
        if bytes@.len() < 31 {
            vstd::arithmetic::power2::lemma_pow2_strictly_increases(8 * bytes@.len(), 248);
        }
    }
    Felt252 { value: b }
}

/// A byte string of `n` bytes holds a value below `2^(8 n)`.
proof fn lemma_bytes_be_value_bound(bytes: Seq<u8>)
    ensures
        bytes_be_value(bytes) < pow2(8 * bytes.len()),
    decreases bytes.len(),
{
    if bytes.len() == 0 {
        vstd::arithmetic::power2::lemma_pow2_pos(0);
        assert(pow2(0) == 1) by {
            vstd::arithmetic::power2::lemma2_to64();
        }
    } else {
        let prefix = bytes.drop_last();
        lemma_bytes_be_value_bound(prefix);
        let k = 8 * prefix.len();
        assert(pow2(k + 8) == pow2(k) * 256) by {
            vstd::arithmetic::power2::lemma_pow2_adds(k, 8);
            vstd::arithmetic::power2::lemma2_to64();
        }
        assert(bytes_be_value(prefix) * 256 + bytes.last() < pow2(k) * 256) by (nonlinear_arith)
            requires
                bytes_be_value(prefix) < pow2(k),
                bytes.last() < 256,
        ;
    }
}

/// Bounds on the field order used throughout: `P` exceeds every 128-bit and
/// every 248-bit value and is positive.
pub proof fn lemma_prime_bounds()
    ensures
        felt_prime() > u128::MAX,
        felt_prime() > pow2(248),
        felt_prime() > 0,
{
    vstd::arithmetic::power2::lemma_pow2_strictly_increases(128, 251);
    vstd::arithmetic::power2::lemma_pow2_strictly_increases(248, 251);
    vstd::arithmetic::power2::lemma_pow2_pos(251);
    vstd::arithmetic::power2::lemma_pow2_pos(192);
    assert(pow2(128) == 0x1_0000_0000_0000_0000_0000_0000_0000_0000) by {
        vstd::arithmetic::power2::lemma_pow2_adds(64, 64);
        vstd::arithmetic::power2::lemma2_to64();
    }
}

/// A nonnegative value taken modulo a positive modulus lies below it.
proof fn lemma_mod_below(x: int, m: int)
    requires
        x >= 0,
        m > 0,
    ensures
        0 <= x % m < m,
        (x % m) as nat == x as nat % m as nat,
{
    vstd::arithmetic::div_mod::lemma_mod_bound(x, m);
}

/// A small nonnegative value is its own remainder.
proof fn lemma_small_mod(x: nat, m: nat)
    requires
        x < m,
    ensures
        x as int % m as int == x,
{
    vstd::arithmetic::div_mod::lemma_small_mod(x, m);
}

/// Embedding of an unsigned machine integer into the field.
pub open spec fn spec_uint_to_felt252(x: nat) -> nat {
    x % felt_prime()
}

/// Range-checked conversion out of the field: the value when it is at most
/// `max`, and nothing otherwise.
pub open spec fn spec_felt252_try_into_uint(v: nat, max: nat) -> Option<nat> {
    if v <= max {
        Some(v)
    } else {
        None
    }
}

/// Widens an unsigned machine integer to a felt (always below the order).
pub fn u_to_felt252(x: u128) -> (r: Felt252)
    ensures
        r@ == spec_uint_to_felt252(x as nat),
        r@ == x,
{
    proof {
        lemma_prime_bounds();
        lemma_small_mod(x as nat, felt_prime());
    }
    Felt252::from_u128(x)
}

/// Narrows a felt to an unsigned integer no larger than `max`, the
/// range-checked direction of the conversion pair.
pub fn felt252_try_into_u(f: &Felt252, max: u128) -> (r: Option<u128>)
    ensures
        r == match spec_felt252_try_into_uint(f@, max as nat) {
            Some(v) => Some(v as u128),
            None => None::<u128>,
        },
        r is Some <==> f@ <= max,
{
    match f.to_u128() {
        Some(v) => if v <= max {
            Some(v)
        } else {
            None
        },
        None => None,
    }
}

/// Round trip: widening any unsigned integer `x` at most `max < P` to a felt
/// and narrowing it back yields `x` again.
pub proof fn lemma_uint_felt_round_trip(x: nat, max: nat)
    requires
        x <= max,
        max < felt_prime(),
    ensures
        spec_felt252_try_into_uint(spec_uint_to_felt252(x), max) == Some(x),
{
    lemma_prime_bounds();
    lemma_small_mod(x, felt_prime());
}

/// Euclidean remainder of a small negative value: `x % m == m + x`.
proof fn lemma_neg_mod(x: int, m: int)
    requires
        -m < x < 0,
        m > 0,
    ensures
        x % m == m + x,
{
    vstd::arithmetic::div_mod::lemma_mod_add_multiples_vanish(x, m);
    vstd::arithmetic::div_mod::lemma_small_mod((m + x) as nat, m as nat);
}

} // verus!
