//! One protocol run end to end: transmission (with an optional intercept-resend
//! eavesdropper), measurement, sifting, QBER estimation and the security
//! decision.

use vstd::prelude::*;

use crate::party::{Alice, Bob};
use crate::sifting::{
    count_errors, count_matched, count_matches_and_errors, estimate_qber, QberEstimate,
};
use crate::states::{
    basis_of, bit_of, generate_bb84_state, measure_bb84_state, simulate_eve_attack,
};

verus! {

/// The decision a session ends with.
#[derive(Clone, Copy, Debug, PartialEq, Eq, Structural)]
pub enum SessionOutcome {
    /// QBER within the threshold: proceed to reconciliation.
    SecureProceed,
    /// QBER above the threshold: the channel is compromised and the key is
    /// deliberately discarded — the correct response to a detected threat.
    HeavyEavesdroppingDetected,
    /// No basis-matched positions: QBER is undefined and no key can be drawn.
    Inconclusive,
}

/// The session was rejected before any randomness was drawn: zero qubits or a
/// zero security threshold.
#[derive(Clone, Copy, Debug, PartialEq, Eq, Structural)]
pub struct InvalidConfiguration;

/// What a session reports: the trial count, the sifting statistics, the
/// estimated error rate and the decision.
#[derive(Clone, Copy, Debug, PartialEq, Eq, Structural)]
pub struct SessionReport {
    pub total_qubits: usize,
    pub matched_count: usize,
    pub error_count: usize,
    pub qber: QberEstimate,
    pub outcome: SessionOutcome,
}

/// The decision policy: the channel is declared compromised exactly when the
/// error rate exceeds the threshold, i.e. 100 * errors > threshold * matched,
/// compared exactly; zero matched positions are a distinct outcome.
pub open spec fn spec_outcome(matched: nat, errors: nat, threshold_percent: nat) -> SessionOutcome {
    if matched == 0 {
        SessionOutcome::Inconclusive
    } else if 100 * errors > threshold_percent * matched {
        SessionOutcome::HeavyEavesdroppingDetected
    } else {
        SessionOutcome::SecureProceed
    }
}

/// Apply the decision policy to the sifting statistics.
pub fn decide_outcome(matched: usize, errors: usize, threshold_percent: u64) -> (outcome:
    SessionOutcome)
    ensures
        outcome == spec_outcome(matched as nat, errors as nat, threshold_percent as nat),
{
    if matched == 0 {
        SessionOutcome::Inconclusive
    } else {
        let e = errors as u128;
        let m = matched as u128;
        let t = threshold_percent as u128;
        proof {
            assert(t * m <= 0xffffffffffffffffu128 * 0xffffffffffffffffu128) by (nonlinear_arith)
                requires
                    t <= 0xffffffffffffffffu128,
                    m <= 0xffffffffffffffffu128,
            ;
        }
        if 100u128 * e > t * m {
            SessionOutcome::HeavyEavesdroppingDetected
        } else {
            SessionOutcome::SecureProceed
        }
    }
}

/// Send each of Alice's qubits through the channel — through the eavesdropper
/// when one is present — and let Bob measure it in his own basis, recording
/// outcomes in transmission order. On a noiseless channel with no
/// eavesdropper, every basis-matched position records Alice's bit exactly.
pub fn transmit(alice: &Alice, bob: &mut Bob, eavesdropper_present: bool)
    requires
        alice.wf(),
        old(bob).spec_bases().len() == alice.spec_num_qubits(),
        old(bob).spec_measurements().len() == 0,
    ensures
        final(bob).spec_bases() == old(bob).spec_bases(),
        final(bob).spec_measurements().len() == alice.spec_num_qubits(),
        !eavesdropper_present ==> forall|i: int|
            0 <= i < alice.spec_num_qubits() && alice.spec_bases()[i] == final(bob).spec_bases()[i]
                ==> final(bob).spec_measurements()[i] == alice.spec_bits()[i],
{
    let n = alice.num_qubits();
    for i in 0..n
        invariant
            alice.wf(),
            n == alice.spec_num_qubits(),
            bob.spec_bases() == old(bob).spec_bases(),
            bob.spec_bases().len() == n,
            bob.spec_measurements().len() == i,
            !eavesdropper_present ==> forall|j: int|
                0 <= j < i && alice.spec_bases()[j] == bob.spec_bases()[j]
                    ==> bob.spec_measurements()[j] == alice.spec_bits()[j],
    {
        let bit = alice.bits()[i];
        let basis = alice.bases()[i];
        let encoded = generate_bb84_state(bit, basis);
        let arriving = if eavesdropper_present {
            simulate_eve_attack(encoded)
        } else {
            encoded
        };
        let bob_basis = bob.bases()[i];
        let outcome = measure_bb84_state(arriving, bob_basis);
        proof {
            if !eavesdropper_present && basis == bob_basis {
                assert(basis_of(arriving) == bob_basis);
                assert(bit_of(arriving) == bit);
            }
        }
        bob.add_measurement(outcome);
    }
}

/// Sift and judge one completed exchange: count the basis-matched positions
/// and the disagreements among them, estimate the QBER, and decide.
pub fn analyze_exchange(alice: &Alice, bob: &Bob, threshold_percent: u64) -> (report:
    SessionReport)
    requires
        alice.wf(),
        bob.spec_bases().len() == alice.spec_num_qubits(),
        bob.spec_measurements().len() == alice.spec_num_qubits(),
        threshold_percent >= 1,
    ensures
        report.total_qubits == alice.spec_num_qubits(),
        report.matched_count == count_matched(alice.spec_bases(), bob.spec_bases()),
        report.error_count == count_errors(
            alice.spec_bits(),
            bob.spec_measurements(),
            alice.spec_bases(),
            bob.spec_bases(),
        ),
        report.error_count <= report.matched_count,
        report.matched_count <= report.total_qubits,
        report.qber == QberEstimate::Inconclusive <==> report.matched_count == 0,
        report.matched_count > 0 ==> report.qber == QberEstimate::CentiPercent(
            (10000 * report.error_count as int / report.matched_count as int) as u64,
        ),
        report.outcome == spec_outcome(
            report.matched_count as nat,
            report.error_count as nat,
            threshold_percent as nat,
        ),
{
    let (matched, errors) = count_matches_and_errors(
        alice.bits(),
        alice.bases(),
        bob.bases(),
        bob.measurements(),
    );
    proof {
        crate::sifting::lemma_counts_bounded(
            alice.spec_bits(),
            bob.spec_measurements(),
            alice.spec_bases(),
            bob.spec_bases(),
        );
    }
    let qber = estimate_qber(matched, errors);
    let outcome = decide_outcome(matched, errors, threshold_percent);
    SessionReport {
        total_qubits: alice.num_qubits(),
        matched_count: matched,
        error_count: errors,
        qber,
        outcome,
    }
}

/// Run one full session: draw Alice's bits and bases and Bob's bases, transmit
/// every qubit (through the eavesdropper when requested), sift, estimate the
/// QBER and decide. A configuration of zero qubits or a zero threshold is
/// rejected before any randomness is drawn. Without an eavesdropper the
/// channel is noiseless, so no errors are ever detected and eavesdropping is
/// never reported.
pub fn run_session(
    num_qubits: usize,
    eavesdropper_present: bool,
    threshold_percent: u64,
) -> (result: Result<SessionReport, InvalidConfiguration>)
    ensures
        result matches Err(_) <==> (num_qubits == 0 || threshold_percent == 0),
        result matches Ok(report) ==> {
            &&& report.total_qubits == num_qubits
            &&& report.matched_count <= num_qubits
            &&& report.error_count <= report.matched_count
            &&& report.qber == QberEstimate::Inconclusive <==> report.matched_count == 0
            &&& report.matched_count > 0 ==> report.qber == QberEstimate::CentiPercent(
                (10000 * report.error_count as int / report.matched_count as int) as u64,
            )
            &&& report.outcome == spec_outcome(
                report.matched_count as nat,
                report.error_count as nat,
                threshold_percent as nat,
            )
        },
        !eavesdropper_present ==> (result matches Ok(report) ==> report.error_count == 0
            && report.outcome != SessionOutcome::HeavyEavesdroppingDetected),
{
    if num_qubits == 0 || threshold_percent == 0 {
        return Err(InvalidConfiguration);
    }
    let alice = Alice::new(num_qubits);
    let mut bob = Bob::generate_bases(num_qubits);
    transmit(&alice, &mut bob, eavesdropper_present);
    proof {
        if !eavesdropper_present {
            lemma_agreeing_records_have_no_errors(
                alice.spec_bits(),
                bob.spec_measurements(),
                alice.spec_bases(),
                bob.spec_bases(),
            );
        }
    }
    Ok(analyze_exchange(&alice, &bob, threshold_percent))
}

/// When every basis-matched position records the sender's bit exactly — a
/// noiseless channel with no eavesdropper — the error count is zero.
pub proof fn lemma_agreeing_records_have_no_errors(
    abits: Seq<bool>,
    bmeas: Seq<bool>,
    ab: Seq<crate::states::MeasurementBasis>,
    bb: Seq<crate::states::MeasurementBasis>,
)
    requires
        abits.len() == ab.len(),
        bmeas.len() == ab.len(),
        bb.len() == ab.len(),
        forall|i: int| 0 <= i < ab.len() && ab[i] == bb[i] ==> bmeas[i] == abits[i],
    ensures
        count_errors(abits, bmeas, ab, bb) == 0,
    decreases ab.len(),
{
    if ab.len() > 0 {
        lemma_agreeing_records_have_no_errors(
            abits.drop_last(),
            bmeas.drop_last(),
            ab.drop_last(),
            bb.drop_last(),
        );
    }
}


} // verus!
