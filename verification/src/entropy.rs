//! The session's entropy source: uniformly random bits and bases.
//!
//! All randomness the protocol consumes is drawn here, so that every other
//! module is deterministic in its inputs and fully specified.

use vstd::prelude::*;

use crate::states::MeasurementBasis;

verus! {

/// Relies on rand::random: draws one value from the thread-local generator.
/// Nothing can be promised of a random value, so there is no `ensures`.
pub assume_specification<T>[ rand::random::<T> ]() -> (r: T)
    where
        rand::distributions::Standard: rand::distributions::Distribution<T>,
;

/// Draw one uniformly random bit.
pub fn random_bit() -> bool {
    rand::random::<bool>()
}

/// Draw one uniformly random measurement basis.
pub fn random_basis() -> MeasurementBasis {
    if rand::random::<bool>() {
        MeasurementBasis::Basis1
    } else {
        MeasurementBasis::Basis2
    }
}

/// Draw `n` independent uniform bits, in order.
pub fn random_bit_vec(n: usize) -> (bits: Vec<bool>)
    ensures
        bits@.len() == n,
{
    let mut bits: Vec<bool> = Vec::new();
    for _i in 0..n
        invariant
            bits@.len() == _i,
    {
        bits.push(random_bit());
    }
    bits
}

/// Draw `n` independent uniform bases, in order.
pub fn random_basis_vec(n: usize) -> (bases: Vec<MeasurementBasis>)
    ensures
        bases@.len() == n,
{
    let mut bases: Vec<MeasurementBasis> = Vec::new();
    for _i in 0..n
        invariant
            bases@.len() == _i,
    {
        bases.push(random_basis());
    }
    bases
}

} // verus!
