//! What this crate takes from the arbitrary-precision integers of
//! `num_bigint`.

use num_bigint::{BigInt, BigUint};
use vstd::prelude::*;

use crate::util::bits::bit_length;

verus! {

#[verifier::external_type_specification]
#[verifier::external_body]
pub struct ExBigUint(num_bigint::BigUint);

#[verifier::external_type_specification]
#[verifier::external_body]
pub struct ExBigInt(num_bigint::BigInt);

/// The natural number that a `BigUint` holds.
pub uninterp spec fn biguint_value(value: BigUint) -> nat;

/// The integer that a `BigInt` holds.
pub uninterp spec fn bigint_value(value: BigInt) -> int;

/// The distance of `value` from zero.
pub open spec fn magnitude(value: int) -> nat {
    if value < 0 {
        (-value) as nat
    } else {
        value as nat
    }
}

/// `BigUint::bits`: the fewest bits necessary to express the number, which
/// is taken here to be the bit length of the value it holds.
#[verifier::external_body]
pub(crate) fn biguint_bits(value: &BigUint) -> (bits: u64)
    ensures
        bits == bit_length(biguint_value(*value)),
{
    value.bits()
}

/// `BigInt::bits`: the fewest bits necessary to express the number, not
/// counting the sign, which is taken here to be the bit length of the
/// magnitude of the value it holds.
#[verifier::external_body]
pub(crate) fn bigint_bits(value: &BigInt) -> (bits: u64)
    ensures
        bits == bit_length(magnitude(bigint_value(*value))),
{
    value.bits()
}

} // verus!
