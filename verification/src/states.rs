//! The BB84 state model: the bijection between (bit, basis) pairs and the four
//! polarization states, and the measurement semantics.

use vstd::prelude::*;

use crate::entropy::random_bit;

verus! {

/// One of the two mutually exclusive measurement bases (rectilinear / diagonal).
#[derive(Clone, Copy, Debug, PartialEq, Eq, Structural)]
pub enum MeasurementBasis {
    Basis1,
    Basis2,
}

/// One of the four polarization states; each is the unique encoding of a
/// (bit, basis) pair.
#[derive(Clone, Copy, Debug, PartialEq, Eq, Structural)]
pub enum BB84State {
    QubitZero,
    QubitOne,
    QubitPlus,
    QubitMinus,
}

/// The encoding map from (bit, basis) onto the four states.
pub open spec fn spec_encode(bit: bool, basis: MeasurementBasis) -> BB84State {
    match (bit, basis) {
        (false, MeasurementBasis::Basis1) => BB84State::QubitZero,
        (true, MeasurementBasis::Basis1) => BB84State::QubitOne,
        (false, MeasurementBasis::Basis2) => BB84State::QubitMinus,
        (true, MeasurementBasis::Basis2) => BB84State::QubitPlus,
    }
}

/// The bit a state encodes.
pub open spec fn bit_of(state: BB84State) -> bool {
    match state {
        BB84State::QubitZero => false,
        BB84State::QubitOne => true,
        BB84State::QubitMinus => false,
        BB84State::QubitPlus => true,
    }
}

/// The basis a state was encoded in.
pub open spec fn basis_of(state: BB84State) -> MeasurementBasis {
    match state {
        BB84State::QubitZero => MeasurementBasis::Basis1,
        BB84State::QubitOne => MeasurementBasis::Basis1,
        BB84State::QubitMinus => MeasurementBasis::Basis2,
        BB84State::QubitPlus => MeasurementBasis::Basis2,
    }
}

/// Round trip: measuring a state in the basis it was encoded in recovers the
/// encoded bit, always and deterministically.
pub proof fn lemma_encode_measure_roundtrip(bit: bool, basis: MeasurementBasis)
    ensures
        bit_of(spec_encode(bit, basis)) == bit,
        basis_of(spec_encode(bit, basis)) == basis,
{
}

/// The encoding is a bijection: no state is reachable from two different
/// (bit, basis) pairs.
pub proof fn lemma_encode_injective(
    bit1: bool,
    basis1: MeasurementBasis,
    bit2: bool,
    basis2: MeasurementBasis,
)
    ensures
        spec_encode(bit1, basis1) == spec_encode(bit2, basis2) ==> bit1 == bit2 && basis1
            == basis2,
{
}

/// Encode a bit in a basis as one of the four states.
pub fn generate_bb84_state(bit: bool, basis: MeasurementBasis) -> (state: BB84State)
    ensures
        state == spec_encode(bit, basis),
{
    match (bit, basis) {
        (false, MeasurementBasis::Basis1) => BB84State::QubitZero,
        (true, MeasurementBasis::Basis1) => BB84State::QubitOne,
        (false, MeasurementBasis::Basis2) => BB84State::QubitMinus,
        (true, MeasurementBasis::Basis2) => BB84State::QubitPlus,
    }
}

/// Measure a state in the given basis. When the basis matches the encoding
/// basis the original bit comes back deterministically; otherwise the outcome
/// is an independent fair coin flip (superposition collapse under an
/// incompatible measurement). Every (state, basis) pair is valid: there is no
/// error path here.
pub fn measure_bb84_state(state: BB84State, basis: MeasurementBasis) -> (bit: bool)
    ensures
        basis == basis_of(state) ==> bit == bit_of(state),
{
    match (state, basis) {
        (BB84State::QubitZero, MeasurementBasis::Basis1) => false,
        (BB84State::QubitOne, MeasurementBasis::Basis1) => true,
        (BB84State::QubitMinus, MeasurementBasis::Basis2) => false,
        (BB84State::QubitPlus, MeasurementBasis::Basis2) => true,
        _ => random_bit(),
    }
}

/// Intercept-resend with a fixed choice of basis: measure the state in
/// `eve_basis`, re-encode the outcome in the same basis and forward it. When
/// the chosen basis matches the encoding basis, the state passes through
/// untouched; otherwise the forwarded state carries a coin flip encoded in
/// `eve_basis`, the disturbance that makes the attack detectable.
pub fn intercept_resend(state: BB84State, eve_basis: MeasurementBasis) -> (forwarded: BB84State)
    ensures
        basis_of(forwarded) == eve_basis,
        eve_basis == basis_of(state) ==> forwarded == state,
{
    let intercepted_bit = measure_bb84_state(state, eve_basis);
    generate_bb84_state(intercepted_bit, eve_basis)
}

/// The intercept-resend attack: measure in a uniformly random basis and
/// forward the re-encoded outcome. Each call is independent; no state
/// persists. Whatever basis was drawn, the forwarded value is a valid encoded
/// state, and had the drawn basis matched the encoding basis, the state went
/// through unchanged.
pub fn simulate_eve_attack(state: BB84State) -> (forwarded: BB84State)
    ensures
        exists|bit: bool, basis: MeasurementBasis|
            forwarded == spec_encode(bit, basis) && (basis == basis_of(state) ==> forwarded
                == state),
{
    let eve_basis = crate::entropy::random_basis();
    let forwarded = intercept_resend(state, eve_basis);
    proof {
        let bit = bit_of(forwarded);
        assert(forwarded == spec_encode(bit, eve_basis) && (eve_basis == basis_of(state)
            ==> forwarded == state));
    }
    forwarded
}

} // verus!
