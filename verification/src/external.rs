//! The Soroban types that events carry, declared to Verus, and what their
//! `clone` gives back.

use vstd::prelude::*;
use soroban_sdk::{Address, BytesN};

verus! {

#[verifier::external_type_specification]
#[verifier::external_body]
/// `soroban_sdk::Address`, carried through events as an opaque value.
pub struct ExAddress(Address);

#[verifier::external_type_specification]
#[verifier::external_body]
/// `soroban_sdk::BytesN`, carried through events as an opaque value.
pub struct ExBytesN<const N: usize>(BytesN<N>);

/// `Address::clone` (derived: it clones the environment handle and copies the
/// object handle) gives back the same address.
pub assume_specification [<soroban_sdk::Address as Clone>::clone](a: &soroban_sdk::Address) -> (r: soroban_sdk::Address)
    ensures
        r == *a,
;

/// `BytesN::clone` (derived: it clones the underlying `Bytes`, which holds
/// the environment handle and the object handle) gives back the same bytes.
pub assume_specification<const N: usize> [<soroban_sdk::BytesN<N> as Clone>::clone](b: &soroban_sdk::BytesN<N>) -> (r: soroban_sdk::BytesN<N>)
    ensures
        r == *b,
;

} // verus!
