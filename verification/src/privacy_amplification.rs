//! Privacy amplification: a universal linear hash over GF(2) given by a
//! Toeplitz matrix, applied to the corrected key to compress out an
//! eavesdropper's potential information.

use vstd::prelude::*;

use crate::entropy::random_bit_vec;

verus! {

/// A boolean Toeplitz matrix: constant along each diagonal, so it is fully
/// determined by its first row (one entry per input column) and its first
/// column (one entry per output row). Generated fresh per session from the
/// random source and discarded after one use; reuse across sessions leaks
/// linear relations about prior keys.
#[derive(Clone, Debug)]
pub struct ToeplitzMatrix {
    first_row: Vec<bool>,
    first_col: Vec<bool>,
}

/// The matrix entry at row `r`, column `c`: the first row above the main
/// diagonal and on it, the first column below it.
pub open spec fn spec_entry(row: Seq<bool>, col: Seq<bool>, r: int, c: int) -> bool
    recommends
        0 <= r < col.len(),
        0 <= c < row.len(),
{
    if c >= r {
        row[c - r]
    } else {
        col[r - c]
    }
}

/// The XOR over the first `n` columns of (key bit AND matrix entry) in row `r`.
pub open spec fn spec_hash_bit(key: Seq<bool>, row: Seq<bool>, col: Seq<bool>, r: int, n: int) -> bool
    decreases n,
{
    if n <= 0 {
        false
    } else {
        spec_hash_bit(key, row, col, r, n - 1) ^ (key[n - 1] && spec_entry(row, col, r, n - 1))
    }
}

/// The Toeplitz hash of `key`: one output bit per row, each the GF(2) inner
/// product of the key with that row, over the columns both sides have.
pub open spec fn spec_toeplitz_hash(key: Seq<bool>, row: Seq<bool>, col: Seq<bool>) -> Seq<bool> {
    Seq::new(
        col.len(),
        |r: int| spec_hash_bit(key, row, col, r, vstd::math::min(key.len() as int, row.len() as int)),
    )
}

impl ToeplitzMatrix {
    /// The first row, in column order.
    pub closed spec fn spec_first_row(&self) -> Seq<bool> {
        self.first_row@
    }

    /// The first column, in row order.
    pub closed spec fn spec_first_col(&self) -> Seq<bool> {
        self.first_col@
    }

    /// Well-formed: the first row and the first column agree on the shared
    /// corner entry.
    pub open spec fn wf(&self) -> bool {
        self.spec_first_row().len() > 0 && self.spec_first_col().len() > 0
            ==> self.spec_first_col()[0] == self.spec_first_row()[0]
    }

    /// A matrix from an explicitly chosen first row and first column: the
    /// random source made an injectable parameter, for deterministic runs.
    pub fn from_row_col(first_row: Vec<bool>, first_col: Vec<bool>) -> (matrix: Self)
        requires
            first_row@.len() > 0 && first_col@.len() > 0 ==> first_col@[0] == first_row@[0],
        ensures
            matrix.wf(),
            matrix.spec_first_row() == first_row@,
            matrix.spec_first_col() == first_col@,
    {
        ToeplitzMatrix { first_row, first_col }
    }

    /// The number of output rows.
    pub fn output_len(&self) -> (n: usize)
        ensures
            n == self.spec_first_col().len(),
    {
        self.first_col.len()
    }

    /// The number of input columns.
    pub fn input_len(&self) -> (n: usize)
        ensures
            n == self.spec_first_row().len(),
    {
        self.first_row.len()
    }

    /// The entry at row `r`, column `c`.
    pub fn entry(&self, r: usize, c: usize) -> (b: bool)
        requires
            r < self.spec_first_col().len(),
            c < self.spec_first_row().len(),
        ensures
            b == spec_entry(self.spec_first_row(), self.spec_first_col(), r as int, c as int),
    {
        if c >= r {
            self.first_row[c - r]
        } else {
            self.first_col[r - c]
        }
    }
}

/// A fresh random Toeplitz matrix with `output_len` rows and `input_len`
/// columns, drawn from the session's random source immediately before hashing.
/// The output/input ratio is the caller's compression parameter, chosen from
/// its estimate of the eavesdropper's information leakage.
pub fn generate_toeplitz_matrix(output_len: usize, input_len: usize) -> (matrix: ToeplitzMatrix)
    ensures
        matrix.wf(),
        matrix.spec_first_row().len() == input_len,
        matrix.spec_first_col().len() == output_len,
{
    let first_row = random_bit_vec(input_len);
    let mut first_col = random_bit_vec(output_len);
    if input_len > 0 && output_len > 0 {
        let corner = first_row[0];
        first_col[0] = corner;
    }
    ToeplitzMatrix { first_row, first_col }
}

/// Hash the shared key through the matrix: one output bit per matrix row, each
/// the XOR over the columns of (key bit AND entry).
pub fn toeplitz_hash(shared_key: &[bool], matrix: &ToeplitzMatrix) -> (hashed: Vec<bool>)
    ensures
        hashed@ == spec_toeplitz_hash(
            shared_key@,
            matrix.spec_first_row(),
            matrix.spec_first_col(),
        ),
        hashed@.len() == matrix.spec_first_col().len(),
{
    let rows = matrix.output_len();
    let klen = shared_key.len();
    let ilen = matrix.input_len();
    let n = if klen <= ilen {
        klen
    } else {
        ilen
    };
    let mut hashed: Vec<bool> = Vec::new();
    for r in 0..rows
        invariant
            rows == matrix.spec_first_col().len(),
            klen == shared_key@.len(),
            ilen == matrix.spec_first_row().len(),
            n == vstd::math::min(klen as int, ilen as int),
            hashed@.len() == r,
            forall|k: int|
                0 <= k < r ==> hashed@[k] == spec_hash_bit(
                    shared_key@,
                    matrix.spec_first_row(),
                    matrix.spec_first_col(),
                    k,
                    n as int,
                ),
    {
        let mut bit = false;
        for c in 0..n
            invariant
                rows == matrix.spec_first_col().len(),
                klen == shared_key@.len(),
                ilen == matrix.spec_first_row().len(),
                n <= klen,
                n <= ilen,
                r < rows,
                bit == spec_hash_bit(
                    shared_key@,
                    matrix.spec_first_row(),
                    matrix.spec_first_col(),
                    r as int,
                    c as int,
                ),
        {
            bit = bit ^ (shared_key[c] && matrix.entry(r, c));
        }
        hashed.push(bit);
    }
    proof {
        assert(hashed@ =~= spec_toeplitz_hash(
            shared_key@,
            matrix.spec_first_row(),
            matrix.spec_first_col(),
        ));
    }
    hashed
}

/// Privacy amplification is deterministic: a fixed matrix and a fixed key give
/// exactly the same final key, call after call.
pub proof fn lemma_toeplitz_deterministic(
    key1: Seq<bool>,
    row1: Seq<bool>,
    col1: Seq<bool>,
    key2: Seq<bool>,
    row2: Seq<bool>,
    col2: Seq<bool>,
)
    requires
        key1 == key2,
        row1 == row2,
        col1 == col2,
    ensures
        spec_toeplitz_hash(key1, row1, col1) == spec_toeplitz_hash(key2, row2, col2),
{
}

/// The default final-key length of `apply_privacy_amplification`, clamped to
/// the key being compressed.
pub const DEFAULT_FINAL_KEY_LEN: usize = 10;

/// Compress the shared key to exactly `output_len` bits through a fresh,
/// single-use random Toeplitz matrix with one column per key bit. The output
/// length is the caller's compression parameter, chosen from its estimate of
/// the eavesdropper's information leakage; a final key is never longer than
/// the key it compresses. The matrix is discarded on return; whatever it was,
/// the final key is its Toeplitz hash of the shared key.
pub fn apply_privacy_amplification_with_len(shared_key: Vec<bool>, output_len: usize) -> (final_key:
    Vec<bool>)
    requires
        output_len <= shared_key@.len(),
    ensures
        final_key@.len() == output_len,
        exists|row: Seq<bool>, col: Seq<bool>|
            row.len() == shared_key@.len() && col.len() == output_len && final_key@
                == spec_toeplitz_hash(shared_key@, row, col),
{
    let matrix = generate_toeplitz_matrix(output_len, shared_key.len());
    let final_key = toeplitz_hash(shared_key.as_slice(), &matrix);
    proof {
        let row = matrix.spec_first_row();
        let col = matrix.spec_first_col();
        assert(row.len() == shared_key@.len() && col.len() == output_len && final_key@
            == spec_toeplitz_hash(shared_key@, row, col));
    }
    final_key
}

/// Compress the shared key under the default sizing policy: the final key has
/// `DEFAULT_FINAL_KEY_LEN` bits, clamped to the shared key's length, so it is
/// never longer than the key it compresses.
pub fn apply_privacy_amplification(shared_key: Vec<bool>) -> (final_key: Vec<bool>)
    ensures
        final_key@.len() == vstd::math::min(
            DEFAULT_FINAL_KEY_LEN as int,
            shared_key@.len() as int,
        ),
        final_key@.len() <= shared_key@.len(),
        exists|row: Seq<bool>, col: Seq<bool>|
            row.len() == shared_key@.len() && col.len() == final_key@.len() && final_key@
                == spec_toeplitz_hash(shared_key@, row, col),
{
    let output_len = if shared_key.len() < DEFAULT_FINAL_KEY_LEN {
        shared_key.len()
    } else {
        DEFAULT_FINAL_KEY_LEN
    };
    apply_privacy_amplification_with_len(shared_key, output_len)
}

} // verus!
