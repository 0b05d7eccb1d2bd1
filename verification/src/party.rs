//! The two party roles. Alice draws random bits and bases and is immutable
//! once constructed; Bob commits to random bases before any qubit arrives and
//! records measurement outcomes one by one, in transmission order.

use vstd::prelude::*;

use crate::entropy::{random_basis_vec, random_bit_vec};
use crate::states::MeasurementBasis;

verus! {

/// Alice's role: the sender's bits and encoding bases, one of each per qubit.
#[derive(Clone, Debug)]
pub struct Alice {
    num_qubits: usize,
    bits: Vec<bool>,
    bases: Vec<MeasurementBasis>,
}

impl Alice {
    /// The bits Alice encodes, in transmission order.
    pub closed spec fn spec_bits(&self) -> Seq<bool> {
        self.bits@
    }

    /// The bases Alice encodes in, in transmission order.
    pub closed spec fn spec_bases(&self) -> Seq<MeasurementBasis> {
        self.bases@
    }

    /// The number of qubits of the run.
    pub closed spec fn spec_num_qubits(&self) -> int {
        self.num_qubits as int
    }

    /// Well-formed: exactly one bit and one basis per qubit.
    pub open spec fn wf(&self) -> bool {
        &&& self.spec_bits().len() == self.spec_num_qubits()
        &&& self.spec_bases().len() == self.spec_num_qubits()
    }

    /// A fresh Alice with `num_qubits` independent uniform bits and bases.
    /// A run of zero qubits is rejected before any randomness is drawn.
    pub fn new(num_qubits: usize) -> (alice: Self)
        requires
            num_qubits >= 1,
        ensures
            alice.wf(),
            alice.spec_num_qubits() == num_qubits,
    {
        let bits = random_bit_vec(num_qubits);
        let bases = random_basis_vec(num_qubits);
        Alice { num_qubits, bits, bases }
    }

    /// An Alice with explicitly chosen bits and bases: the entropy source made
    /// an injectable parameter, for deterministic runs.
    pub fn from_choices(bits: Vec<bool>, bases: Vec<MeasurementBasis>) -> (alice: Self)
        requires
            bits@.len() == bases@.len(),
            bits@.len() >= 1,
        ensures
            alice.wf(),
            alice.spec_num_qubits() == bits@.len(),
            alice.spec_bits() == bits@,
            alice.spec_bases() == bases@,
    {
        let num_qubits = bits.len();
        Alice { num_qubits, bits, bases }
    }

    pub fn num_qubits(&self) -> (n: usize)
        ensures
            n == self.spec_num_qubits(),
    {
        self.num_qubits
    }

    pub fn bits(&self) -> (bits: &[bool])
        ensures
            bits@ == self.spec_bits(),
    {
        self.bits.as_slice()
    }

    pub fn bases(&self) -> (bases: &[MeasurementBasis])
        ensures
            bases@ == self.spec_bases(),
    {
        self.bases.as_slice()
    }
}

/// Bob's role: the receiver's bases, chosen independently of Alice's, and the
/// append-only record of measurement outcomes.
#[derive(Clone, Debug)]
pub struct Bob {
    bases: Vec<MeasurementBasis>,
    measurements: Vec<bool>,
}

impl Bob {
    /// The bases Bob measures in, in transmission order.
    pub closed spec fn spec_bases(&self) -> Seq<MeasurementBasis> {
        self.bases@
    }

    /// The outcomes Bob has recorded so far, in transmission order.
    pub closed spec fn spec_measurements(&self) -> Seq<bool> {
        self.measurements@
    }

    /// A Bob with no bases committed and nothing measured yet.
    pub fn new() -> (bob: Self)
        ensures
            bob.spec_bases() == Seq::<MeasurementBasis>::empty(),
            bob.spec_measurements() == Seq::<bool>::empty(),
    {
        Bob { bases: Vec::new(), measurements: Vec::new() }
    }

    /// A Bob committed to `num_qubits` independent uniform bases, drawn before
    /// any qubit arrives and without knowledge of Alice's choices.
    pub fn generate_bases(num_qubits: usize) -> (bob: Self)
        ensures
            bob.spec_bases().len() == num_qubits,
            bob.spec_measurements() == Seq::<bool>::empty(),
    {
        let bases = random_basis_vec(num_qubits);
        Bob { bases, measurements: Vec::new() }
    }

    /// A Bob committed to explicitly chosen bases: the entropy source made an
    /// injectable parameter, for deterministic runs.
    pub fn with_bases(bases: Vec<MeasurementBasis>) -> (bob: Self)
        ensures
            bob.spec_bases() == bases@,
            bob.spec_measurements() == Seq::<bool>::empty(),
    {
        Bob { bases, measurements: Vec::new() }
    }

    pub fn bases(&self) -> (bases: &[MeasurementBasis])
        ensures
            bases@ == self.spec_bases(),
    {
        self.bases.as_slice()
    }

    pub fn measurements(&self) -> (measurements: &[bool])
        ensures
            measurements@ == self.spec_measurements(),
    {
        self.measurements.as_slice()
    }

    /// Append one measurement outcome; the bases are untouched.
    pub fn add_measurement(&mut self, bit: bool)
        ensures
            final(self).spec_measurements() == old(self).spec_measurements().push(bit),
            final(self).spec_bases() == old(self).spec_bases(),
    {
        self.measurements.push(bit);
    }
}

} // verus!
