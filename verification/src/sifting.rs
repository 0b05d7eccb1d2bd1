//! Basis sifting and QBER estimation: keep only the positions where both
//! parties used the same basis, count disagreements among them, and report the
//! empirical error rate as a tagged value so that a zero-match run is never
//! confused with a zero-error run.

use vstd::prelude::*;

use crate::states::MeasurementBasis;

verus! {

/// The number of positions where the two basis sequences agree.
pub open spec fn count_matched(ab: Seq<MeasurementBasis>, bb: Seq<MeasurementBasis>) -> nat
    recommends
        ab.len() == bb.len(),
    decreases ab.len(),
{
    if ab.len() == 0 || bb.len() == 0 {
        0
    } else {
        count_matched(ab.drop_last(), bb.drop_last()) + if ab.last() == bb.last() {
            1nat
        } else {
            0nat
        }
    }
}

/// The number of positions where the two basis sequences differ.
pub open spec fn count_unmatched(ab: Seq<MeasurementBasis>, bb: Seq<MeasurementBasis>) -> nat
    recommends
        ab.len() == bb.len(),
    decreases ab.len(),
{
    if ab.len() == 0 || bb.len() == 0 {
        0
    } else {
        count_unmatched(ab.drop_last(), bb.drop_last()) + if ab.last() != bb.last() {
            1nat
        } else {
            0nat
        }
    }
}

/// The number of basis-matched positions where the parties' bits disagree.
pub open spec fn count_errors(
    abits: Seq<bool>,
    bmeas: Seq<bool>,
    ab: Seq<MeasurementBasis>,
    bb: Seq<MeasurementBasis>,
) -> nat
    recommends
        abits.len() == ab.len(),
        bmeas.len() == ab.len(),
        bb.len() == ab.len(),
    decreases ab.len(),
{
    if ab.len() == 0 || bb.len() == 0 || abits.len() == 0 || bmeas.len() == 0 {
        0
    } else {
        count_errors(abits.drop_last(), bmeas.drop_last(), ab.drop_last(), bb.drop_last())
            + if ab.last() == bb.last() && abits.last() != bmeas.last() {
            1nat
        } else {
            0nat
        }
    }
}

/// The subsequence of `vals` at the positions where the two basis sequences
/// agree, in order.
pub open spec fn spec_sift(
    vals: Seq<bool>,
    ab: Seq<MeasurementBasis>,
    bb: Seq<MeasurementBasis>,
) -> Seq<bool>
    recommends
        vals.len() == ab.len(),
        bb.len() == ab.len(),
    decreases ab.len(),
{
    if ab.len() == 0 || bb.len() == 0 || vals.len() == 0 {
        Seq::empty()
    } else {
        spec_sift(vals.drop_last(), ab.drop_last(), bb.drop_last()) + if ab.last() == bb.last() {
            seq![vals.last()]
        } else {
            Seq::empty()
        }
    }
}

/// Sifting partition: every position is either basis-matched or not, so the
/// matched and unmatched counts always add up to the number of qubits.
pub proof fn lemma_sifting_partition(ab: Seq<MeasurementBasis>, bb: Seq<MeasurementBasis>)
    requires
        ab.len() == bb.len(),
    ensures
        count_matched(ab, bb) + count_unmatched(ab, bb) == ab.len(),
    decreases ab.len(),
{
    if ab.len() > 0 {
        lemma_sifting_partition(ab.drop_last(), bb.drop_last());
    }
}

/// The matched count never exceeds the number of positions, and the error
/// count never exceeds the matched count.
pub proof fn lemma_counts_bounded(
    abits: Seq<bool>,
    bmeas: Seq<bool>,
    ab: Seq<MeasurementBasis>,
    bb: Seq<MeasurementBasis>,
)
    requires
        abits.len() == ab.len(),
        bmeas.len() == ab.len(),
        bb.len() == ab.len(),
    ensures
        count_matched(ab, bb) <= ab.len(),
        count_errors(abits, bmeas, ab, bb) <= count_matched(ab, bb),
    decreases ab.len(),
{
    if ab.len() > 0 {
        lemma_counts_bounded(abits.drop_last(), bmeas.drop_last(), ab.drop_last(), bb.drop_last());
    }
}

/// A sifted key has exactly one entry per basis-matched position.
pub proof fn lemma_sift_len(vals: Seq<bool>, ab: Seq<MeasurementBasis>, bb: Seq<MeasurementBasis>)
    requires
        vals.len() == ab.len(),
        bb.len() == ab.len(),
    ensures
        spec_sift(vals, ab, bb).len() == count_matched(ab, bb),
    decreases ab.len(),
{
    if ab.len() > 0 {
        lemma_sift_len(vals.drop_last(), ab.drop_last(), bb.drop_last());
    }
}

/// The number of positions where two equal-length bit sequences disagree.
pub open spec fn count_diff(x: Seq<bool>, y: Seq<bool>) -> nat
    recommends
        x.len() == y.len(),
    decreases x.len(),
{
    if x.len() == 0 || y.len() == 0 {
        0
    } else {
        count_diff(x.drop_last(), y.drop_last()) + if x.last() != y.last() {
            1nat
        } else {
            0nat
        }
    }
}

/// The error count is exactly the number of positions where the two sifted
/// keys disagree: QBER measures disagreement of the sifted keys.
pub proof fn lemma_errors_are_sifted_disagreements(
    abits: Seq<bool>,
    bmeas: Seq<bool>,
    ab: Seq<MeasurementBasis>,
    bb: Seq<MeasurementBasis>,
)
    requires
        abits.len() == ab.len(),
        bmeas.len() == ab.len(),
        bb.len() == ab.len(),
    ensures
        count_diff(spec_sift(abits, ab, bb), spec_sift(bmeas, ab, bb)) == count_errors(
            abits,
            bmeas,
            ab,
            bb,
        ),
    decreases ab.len(),
{
    if ab.len() > 0 {
        lemma_errors_are_sifted_disagreements(
            abits.drop_last(),
            bmeas.drop_last(),
            ab.drop_last(),
            bb.drop_last(),
        );
        let sa = spec_sift(abits, ab, bb);
        let sb = spec_sift(bmeas, ab, bb);
        let sa0 = spec_sift(abits.drop_last(), ab.drop_last(), bb.drop_last());
        let sb0 = spec_sift(bmeas.drop_last(), ab.drop_last(), bb.drop_last());
        lemma_sift_len(abits.drop_last(), ab.drop_last(), bb.drop_last());
        lemma_sift_len(bmeas.drop_last(), ab.drop_last(), bb.drop_last());
        if ab.last() == bb.last() {
            assert(sa =~= sa0.push(abits.last()));
            assert(sb =~= sb0.push(bmeas.last()));
            assert(sa.drop_last() =~= sa0);
            assert(sb.drop_last() =~= sb0);
        } else {
            assert(sa =~= sa0);
            assert(sb =~= sb0);
        }
    }
}

/// Keep only the positions where the two parties used the same basis,
/// returning Alice's and Bob's sifted bits, in transmission order.
pub fn sift_keys(
    alice_bits: &[bool],
    alice_bases: &[MeasurementBasis],
    bob_bases: &[MeasurementBasis],
    bob_measurements: &[bool],
) -> (sifted: (Vec<bool>, Vec<bool>))
    requires
        alice_bits@.len() == alice_bases@.len(),
        bob_bases@.len() == alice_bases@.len(),
        bob_measurements@.len() == alice_bases@.len(),
    ensures
        sifted.0@ == spec_sift(alice_bits@, alice_bases@, bob_bases@),
        sifted.1@ == spec_sift(bob_measurements@, alice_bases@, bob_bases@),
{
    let n = alice_bases.len();
    let mut key_a: Vec<bool> = Vec::new();
    let mut key_b: Vec<bool> = Vec::new();
    for i in 0..n
        invariant
            n == alice_bases@.len(),
            alice_bits@.len() == n,
            bob_bases@.len() == n,
            bob_measurements@.len() == n,
            key_a@ == spec_sift(
                alice_bits@.take(i as int),
                alice_bases@.take(i as int),
                bob_bases@.take(i as int),
            ),
            key_b@ == spec_sift(
                bob_measurements@.take(i as int),
                alice_bases@.take(i as int),
                bob_bases@.take(i as int),
            ),
    {
        if alice_bases[i] == bob_bases[i] {
            key_a.push(alice_bits[i]);
            key_b.push(bob_measurements[i]);
        }
        proof {
            let j = i as int;
            assert(alice_bits@.take(j + 1).drop_last() =~= alice_bits@.take(j));
            assert(bob_measurements@.take(j + 1).drop_last() =~= bob_measurements@.take(j));
            assert(alice_bases@.take(j + 1).drop_last() =~= alice_bases@.take(j));
            assert(bob_bases@.take(j + 1).drop_last() =~= bob_bases@.take(j));
            if alice_bases@[j] == bob_bases@[j] {
                assert(key_a@ =~= spec_sift(
                    alice_bits@.take(j + 1),
                    alice_bases@.take(j + 1),
                    bob_bases@.take(j + 1),
                ));
                assert(key_b@ =~= spec_sift(
                    bob_measurements@.take(j + 1),
                    alice_bases@.take(j + 1),
                    bob_bases@.take(j + 1),
                ));
            }
        }
    }
    proof {
        assert(alice_bits@.take(n as int) =~= alice_bits@);
        assert(bob_measurements@.take(n as int) =~= bob_measurements@);
        assert(alice_bases@.take(n as int) =~= alice_bases@);
        assert(bob_bases@.take(n as int) =~= bob_bases@);
    }
    (key_a, key_b)
}

/// Count the basis-matched positions and, among them, the positions where the
/// parties' bits disagree.
pub fn count_matches_and_errors(
    alice_bits: &[bool],
    alice_bases: &[MeasurementBasis],
    bob_bases: &[MeasurementBasis],
    bob_measurements: &[bool],
) -> (counts: (usize, usize))
    requires
        alice_bits@.len() == alice_bases@.len(),
        bob_bases@.len() == alice_bases@.len(),
        bob_measurements@.len() == alice_bases@.len(),
    ensures
        counts.0 == count_matched(alice_bases@, bob_bases@),
        counts.1 == count_errors(alice_bits@, bob_measurements@, alice_bases@, bob_bases@),
{
    let n = alice_bases.len();
    let mut matched: usize = 0;
    let mut errors: usize = 0;
    for i in 0..n
        invariant
            n == alice_bases@.len(),
            alice_bits@.len() == n,
            bob_bases@.len() == n,
            bob_measurements@.len() == n,
            matched <= i,
            errors <= matched,
            matched == count_matched(alice_bases@.take(i as int), bob_bases@.take(i as int)),
            errors == count_errors(
                alice_bits@.take(i as int),
                bob_measurements@.take(i as int),
                alice_bases@.take(i as int),
                bob_bases@.take(i as int),
            ),
    {
        proof {
            let j = i as int;
            assert(alice_bits@.take(j + 1).drop_last() =~= alice_bits@.take(j));
            assert(bob_measurements@.take(j + 1).drop_last() =~= bob_measurements@.take(j));
            assert(alice_bases@.take(j + 1).drop_last() =~= alice_bases@.take(j));
            assert(bob_bases@.take(j + 1).drop_last() =~= bob_bases@.take(j));
        }
        if alice_bases[i] == bob_bases[i] {
            matched = matched + 1;
            if alice_bits[i] != bob_measurements[i] {
                errors = errors + 1;
            }
        }
    }
    proof {
        assert(alice_bits@.take(n as int) =~= alice_bits@);
        assert(bob_measurements@.take(n as int) =~= bob_measurements@);
        assert(alice_bases@.take(n as int) =~= alice_bases@);
        assert(bob_bases@.take(n as int) =~= bob_bases@);
    }
    (matched, errors)
}

/// The empirical error rate, as a tagged value: a run with no basis-matched
/// positions has an undefined rate, distinct from a zero rate.
#[derive(Clone, Copy, Debug, PartialEq, Eq, Structural)]
pub enum QberEstimate {
    /// No basis-matched positions: QBER is undefined, not zero.
    Inconclusive,
    /// QBER as a percentage in hundredths (two-decimal precision), rounded
    /// down: 10000 * errors / matched.
    CentiPercent(u64),
}

/// QBER = 100 * errors / matched, as a percentage reported in hundredths.
pub fn estimate_qber(matched: usize, errors: usize) -> (q: QberEstimate)
    requires
        errors <= matched,
    ensures
        matched == 0 <==> q == QberEstimate::Inconclusive,
        matched > 0 ==> q == QberEstimate::CentiPercent(
            (10000 * errors as int / matched as int) as u64,
        ),
{
    if matched == 0 {
        QberEstimate::Inconclusive
    } else {
        let e = errors as u128;
        let m = matched as u128;
        let centi = (10000 * e) / m;
        proof {
            assert((10000 * e as int) / m as int <= 10000) by (nonlinear_arith)
                requires
                    e <= m,
                    m >= 1,
            ;
        }
        QberEstimate::CentiPercent(centi as u64)
    }
}

} // verus!
