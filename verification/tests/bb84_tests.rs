use bb84::correction::{finalize_key, ErrorCorrection, IdentityCorrection, Uncorrectable};
use bb84::party::{Alice, Bob};
use bb84::privacy_amplification::{
    apply_privacy_amplification, apply_privacy_amplification_with_len, generate_toeplitz_matrix,
    toeplitz_hash, ToeplitzMatrix,
};
use bb84::session::{analyze_exchange, decide_outcome, run_session, transmit, SessionOutcome};
use bb84::sifting::{count_matches_and_errors, estimate_qber, sift_keys, QberEstimate};
use bb84::states::{
    generate_bb84_state, intercept_resend, measure_bb84_state, simulate_eve_attack, BB84State,
    MeasurementBasis,
};
use rand::Rng;

#[test]
fn test_apply_privacy_amplification() {
    let shared_key = vec![true, false, true, false, true, false, true, false];
    let amplified_key = apply_privacy_amplification(shared_key);
    assert!(!amplified_key.is_empty());
}

#[test]
fn test_random_key_input() {
    let mut rng = rand::thread_rng();
    let shared_key: Vec<bool> = (0..100).map(|_| rng.gen()).collect();
    let amplified_key = apply_privacy_amplification(shared_key.clone());

    assert_ne!(amplified_key, shared_key);
}

#[test]
fn test_roundtrip_all_states() {
    for &bit in &[false, true] {
        for &basis in &[MeasurementBasis::Basis1, MeasurementBasis::Basis2] {
            let state = generate_bb84_state(bit, basis);
            assert_eq!(measure_bb84_state(state, basis), bit);
        }
    }
}

#[test]
fn test_encoding_is_the_four_labels() {
    assert_eq!(
        generate_bb84_state(false, MeasurementBasis::Basis1),
        BB84State::QubitZero
    );
    assert_eq!(
        generate_bb84_state(true, MeasurementBasis::Basis1),
        BB84State::QubitOne
    );
    assert_eq!(
        generate_bb84_state(false, MeasurementBasis::Basis2),
        BB84State::QubitMinus
    );
    assert_eq!(
        generate_bb84_state(true, MeasurementBasis::Basis2),
        BB84State::QubitPlus
    );
}

#[test]
fn test_basis_mismatch_randomness() {
    // Measuring in the wrong basis is a fair coin flip: over 10000 trials the
    // fraction of ones must lie within 5% of 50%.
    let state = generate_bb84_state(false, MeasurementBasis::Basis1);
    let trials = 10000;
    let mut ones = 0;
    for _ in 0..trials {
        if measure_bb84_state(state, MeasurementBasis::Basis2) {
            ones += 1;
        }
    }
    assert!(ones >= 4500 && ones <= 5500, "ones = {}", ones);
}

#[test]
fn test_no_eavesdropper_baseline() {
    let report = run_session(1000, false, 20).unwrap();
    assert_eq!(report.total_qubits, 1000);
    assert_eq!(report.error_count, 0);
    assert_eq!(report.qber, QberEstimate::CentiPercent(0));
    assert_eq!(report.outcome, SessionOutcome::SecureProceed);
}

#[test]
fn test_full_intercept_resend_attack() {
    // With every qubit intercepted, QBER converges to about 25% among the
    // basis-matched positions, well over a 20% threshold.
    let report = run_session(10000, true, 20).unwrap();
    assert_eq!(report.outcome, SessionOutcome::HeavyEavesdroppingDetected);
    match report.qber {
        QberEstimate::CentiPercent(q) => {
            assert!(q >= 2200 && q <= 2800, "qber = {} centi-percent", q)
        }
        QberEstimate::Inconclusive => panic!("no matched positions over 10000 qubits"),
    }
}

#[test]
fn test_eve_passthrough_on_matching_basis() {
    for &state in &[
        BB84State::QubitZero,
        BB84State::QubitOne,
        BB84State::QubitPlus,
        BB84State::QubitMinus,
    ] {
        let matching = match state {
            BB84State::QubitZero | BB84State::QubitOne => MeasurementBasis::Basis1,
            _ => MeasurementBasis::Basis2,
        };
        assert_eq!(intercept_resend(state, matching), state);
    }
}

#[test]
fn test_eve_mismatch_reencodes_in_own_basis() {
    let forwarded = intercept_resend(BB84State::QubitZero, MeasurementBasis::Basis2);
    assert!(matches!(
        forwarded,
        BB84State::QubitPlus | BB84State::QubitMinus
    ));
    let forwarded = simulate_eve_attack(BB84State::QubitOne);
    assert!(matches!(
        forwarded,
        BB84State::QubitZero | BB84State::QubitOne | BB84State::QubitPlus | BB84State::QubitMinus
    ));
}

#[test]
fn test_sifting_partition() {
    let b1 = MeasurementBasis::Basis1;
    let b2 = MeasurementBasis::Basis2;
    let alice_bits = vec![true, false, true, false];
    let alice_bases = vec![b1, b1, b2, b2];
    let bob_bases = vec![b1, b2, b2, b1];
    let bob_meas = vec![true, true, false, false];

    let (matched, errors) = count_matches_and_errors(
        &alice_bits,
        &alice_bases,
        &bob_bases,
        &bob_meas,
    );
    // Positions 0 and 2 are basis-matched, 1 and 3 are not.
    assert_eq!(matched, 2);
    assert_eq!(matched + 2, alice_bits.len());
    // At position 2 Alice sent 1 and Bob recorded 0.
    assert_eq!(errors, 1);

    let (key_a, key_b) = sift_keys(&alice_bits, &alice_bases, &bob_bases, &bob_meas);
    assert_eq!(key_a, vec![true, true]);
    assert_eq!(key_b, vec![true, false]);
}

#[test]
fn test_zero_matched_is_inconclusive() {
    // Alice and Bob choose disjoint bases everywhere: no usable bits, and the
    // outcome is Inconclusive, not a numeric error rate.
    let n = 16;
    let alice = Alice::from_choices(vec![true; n], vec![MeasurementBasis::Basis1; n]);
    let mut bob = Bob::with_bases(vec![MeasurementBasis::Basis2; n]);
    transmit(&alice, &mut bob, false);
    let report = analyze_exchange(&alice, &bob, 20);
    assert_eq!(report.matched_count, 0);
    assert_eq!(report.qber, QberEstimate::Inconclusive);
    assert_eq!(report.outcome, SessionOutcome::Inconclusive);
    assert_eq!(estimate_qber(0, 0), QberEstimate::Inconclusive);
}

#[test]
fn test_transmit_noiseless_matches_alice() {
    let b1 = MeasurementBasis::Basis1;
    let b2 = MeasurementBasis::Basis2;
    let alice = Alice::from_choices(vec![true, false, true], vec![b1, b2, b2]);
    let mut bob = Bob::with_bases(vec![b1, b2, b1]);
    transmit(&alice, &mut bob, false);
    assert_eq!(bob.measurements().len(), 3);
    // Positions 0 and 1 are basis-matched: Bob must hold Alice's bits there.
    assert_eq!(bob.measurements()[0], true);
    assert_eq!(bob.measurements()[1], false);
}

#[test]
fn test_qber_exact_values() {
    assert_eq!(estimate_qber(8, 2), QberEstimate::CentiPercent(2500));
    assert_eq!(estimate_qber(3, 1), QberEstimate::CentiPercent(3333));
    assert_eq!(estimate_qber(5, 0), QberEstimate::CentiPercent(0));
}

#[test]
fn test_decision_threshold_is_strict() {
    // Exactly at the threshold the channel still counts as secure; only an
    // exceeding rate is flagged.
    assert_eq!(decide_outcome(5, 1, 20), SessionOutcome::SecureProceed);
    assert_eq!(
        decide_outcome(4, 1, 20),
        SessionOutcome::HeavyEavesdroppingDetected
    );
    assert_eq!(decide_outcome(0, 0, 20), SessionOutcome::Inconclusive);
}

#[test]
fn test_invalid_configuration() {
    assert!(run_session(0, false, 20).is_err());
    assert!(run_session(100, false, 0).is_err());
    assert!(run_session(100, false, 20).is_ok());
}

#[test]
fn test_toeplitz_hash_exact() {
    // first row [1,0,1], first column [1,1]: the matrix is
    //   [1 0 1]
    //   [1 1 0]
    // and the key [1,1,0] hashes to [1, 0].
    let matrix = ToeplitzMatrix::from_row_col(vec![true, false, true], vec![true, true]);
    let hashed = toeplitz_hash(&[true, true, false], &matrix);
    assert_eq!(hashed, vec![true, false]);
}

#[test]
fn test_amplification_deterministic() {
    let matrix = ToeplitzMatrix::from_row_col(
        vec![true, false, true, true, false, true, false, false],
        vec![true, true, false, true],
    );
    let key = [true, false, false, true, true, false, true, true];
    let first = toeplitz_hash(&key, &matrix);
    let second = toeplitz_hash(&key, &matrix);
    assert_eq!(first, second);
}

#[test]
fn test_amplification_avalanche() {
    // Flipping one input bit flips each output bit with probability 1/2 over a
    // random matrix: averaged over 1000 matrices the flipped fraction must lie
    // within 5% of 50%.
    let input_len = 32;
    let output_len = 16;
    let key: Vec<bool> = (0..input_len).map(|i| i % 3 == 0).collect();
    let mut flipped_key = key.clone();
    flipped_key[7] = !flipped_key[7];
    let trials = 1000;
    let mut flipped_bits = 0usize;
    for _ in 0..trials {
        let matrix = generate_toeplitz_matrix(output_len, input_len);
        let a = toeplitz_hash(&key, &matrix);
        let b = toeplitz_hash(&flipped_key, &matrix);
        flipped_bits += a.iter().zip(b.iter()).filter(|(x, y)| x != y).count();
    }
    let total = trials * output_len;
    assert!(
        flipped_bits * 100 >= total * 45 && flipped_bits * 100 <= total * 55,
        "flipped {} of {}",
        flipped_bits,
        total
    );
}

#[test]
fn test_matrix_dimensions() {
    let matrix = generate_toeplitz_matrix(6, 24);
    assert_eq!(matrix.output_len(), 6);
    assert_eq!(matrix.input_len(), 24);
    let hashed = toeplitz_hash(&vec![true; 24], &matrix);
    assert_eq!(hashed.len(), 6);
}

#[test]
fn test_parties_construction() {
    let alice = Alice::new(50);
    assert_eq!(alice.num_qubits(), 50);
    assert_eq!(alice.bits().len(), 50);
    assert_eq!(alice.bases().len(), 50);

    let bob = Bob::new();
    assert!(bob.bases().is_empty());
    assert!(bob.measurements().is_empty());

    let mut bob = Bob::generate_bases(50);
    assert_eq!(bob.bases().len(), 50);
    assert!(bob.measurements().is_empty());
    bob.add_measurement(true);
    bob.add_measurement(false);
    assert_eq!(bob.measurements(), &[true, false]);
}

struct FailingCorrection;

impl ErrorCorrection for FailingCorrection {
    fn correct(&self, _raw_key: Vec<bool>) -> Result<Vec<bool>, Uncorrectable> {
        Err(Uncorrectable)
    }
}

#[test]
fn test_finalize_key() {
    // An 8-bit raw key is clamped: the final key never exceeds its input.
    let raw_key = vec![true, false, true, true, false, false, true, false];
    let final_key = finalize_key(raw_key.clone(), &IdentityCorrection).unwrap();
    assert_eq!(final_key.len(), 8);
    // A long raw key compresses to the default final-key length.
    let long_raw: Vec<bool> = (0..64).map(|i| i % 5 == 0).collect();
    let final_key = finalize_key(long_raw, &IdentityCorrection).unwrap();
    assert_eq!(final_key.len(), 10);
    assert_eq!(finalize_key(raw_key, &FailingCorrection), Err(Uncorrectable));
}

#[test]
fn test_final_key_never_longer_than_input() {
    let short = apply_privacy_amplification(vec![true, false, true, false]);
    assert_eq!(short.len(), 4);
    let long = apply_privacy_amplification(vec![false; 100]);
    assert_eq!(long.len(), 10);
    // An all-zero key hashes to all zeroes whatever the random matrix was.
    assert!(long.iter().all(|&bit| !bit));
}

#[test]
fn test_amplification_output_length_parameter() {
    let key: Vec<bool> = (0..20).map(|i| i % 2 == 0).collect();
    let final_key = apply_privacy_amplification_with_len(key, 5);
    assert_eq!(final_key.len(), 5);
}
