//! The error-correction collaborator slot. Cascade and LDPC are not
//! implemented here: reconciliation is a pluggable capability behind a single
//! `correct` operation, so either algorithm, or a test stub, can be
//! substituted without touching the pipeline.

use vstd::prelude::*;

use crate::privacy_amplification::{
    apply_privacy_amplification, spec_toeplitz_hash, DEFAULT_FINAL_KEY_LEN,
};

verus! {

/// The collaborator could not reconcile the two parties' keys within its
/// error-correcting capacity; the session aborts and discards all key
/// material.
#[derive(Clone, Copy, Debug, PartialEq, Eq, Structural)]
pub struct Uncorrectable;

/// The pluggable error-correction collaborator. An implementation reconciles
/// the raw sifted key into a corrected key no longer than its input (a few
/// bits may be discarded for parity-check leakage, which the caller accounts
/// for before sizing the amplification matrix).
pub trait ErrorCorrection {
    fn correct(&self, raw_key: Vec<bool>) -> (corrected: Result<Vec<bool>, Uncorrectable>)
        ensures
            corrected matches Ok(key) ==> key@.len() <= raw_key@.len(),
    ;
}

/// The collaborator for a noiseless channel: the two keys already agree, so
/// the raw key is returned unchanged.
#[derive(Clone, Copy, Debug)]
pub struct IdentityCorrection;

impl ErrorCorrection for IdentityCorrection {
    fn correct(&self, raw_key: Vec<bool>) -> (corrected: Result<Vec<bool>, Uncorrectable>)
        ensures
            corrected matches Ok(key) && key@ == raw_key@,
    {
        Ok(raw_key)
    }
}

/// Finish a key that passed the QBER decision: hand the raw sifted key to the
/// collaborator unchanged, then compress the corrected key through a fresh
/// single-use random Toeplitz matrix under the default sizing policy. A final
/// key is the Toeplitz hash of a corrected key no longer than the raw key,
/// and is itself never longer than that corrected key. When the collaborator
/// fails, no key material comes back.
pub fn finalize_key<C: ErrorCorrection>(raw_key: Vec<bool>, corrector: &C) -> (final_key: Result<
    Vec<bool>,
    Uncorrectable,
>)
    ensures
        final_key matches Ok(key) ==> key@.len() <= raw_key@.len(),
        final_key matches Ok(key) ==> exists|corrected: Seq<bool>, row: Seq<bool>, col: Seq<bool>|
            corrected.len() <= raw_key@.len() && row.len() == corrected.len() && col.len()
                == key@.len() && key@.len() == vstd::math::min(
                DEFAULT_FINAL_KEY_LEN as int,
                corrected.len() as int,
            ) && key@ == spec_toeplitz_hash(corrected, row, col),
{
    let ghost raw_seq = raw_key@;
    match corrector.correct(raw_key) {
        Ok(corrected_key) => {
            let ghost corrected_seq = corrected_key@;
            let key = apply_privacy_amplification(corrected_key);
            proof {
                let (row, col) = choose|row: Seq<bool>, col: Seq<bool>|
                    row.len() == corrected_seq.len() && col.len() == key@.len() && key@
                        == spec_toeplitz_hash(corrected_seq, row, col);
                assert(corrected_seq.len() <= raw_seq.len() && row.len() == corrected_seq.len()
                    && col.len() == key@.len() && key@.len() == vstd::math::min(
                    DEFAULT_FINAL_KEY_LEN as int,
                    corrected_seq.len() as int,
                ) && key@ == spec_toeplitz_hash(corrected_seq, row, col));
            }
            Ok(key)
        },
        Err(e) => Err(e),
    }
}

} // verus!
