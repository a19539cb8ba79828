//! Consistency check: two datasets agree, shown by comparing their hashes.

use vstd::prelude::*;
use crate::digest::{digests_equal, sha256, sha256_bytes};

verus! {

broadcast use vstd::string::to_string_from_display_ensures_for_str;

/// Input to the consistency check.
pub struct ConsistencyInput {
    /// Hash of dataset A (e.g. borrower-submitted financials).
    pub dataset_a_hash: [u8; 32],
    /// Hash of dataset B (e.g. filed returns).
    pub dataset_b_hash: [u8; 32],
    /// Tolerance in basis points. Hashes are compared for an exact match
    /// only, so the check does not read this field; inputs carry 0.
    pub tolerance_bps: u32,
    /// What is being compared.
    pub label: String,
}

/// Public result of the consistency check.
pub struct ConsistencyOutput {
    /// True when the two datasets are consistent.
    pub is_consistent: bool,
    /// Hash of dataset A (public reference).
    pub dataset_a_hash: [u8; 32],
    /// Hash of dataset B (public reference).
    pub dataset_b_hash: [u8; 32],
    /// What was compared.
    pub label: String,
}

/// Builds the input of a consistency check: both datasets are hashed with
/// SHA-256 and the tolerance is 0 (exact match).
pub fn build_consistency_input(label: &str, data_a: &[u8], data_b: &[u8]) -> (input: ConsistencyInput)
    ensures
        input.dataset_a_hash@ == sha256(data_a@),
        input.dataset_b_hash@ == sha256(data_b@),
        input.tolerance_bps == 0,
        input.label@ == label@,
{
    ConsistencyInput {
        dataset_a_hash: sha256_bytes(data_a),
        dataset_b_hash: sha256_bytes(data_b),
        tolerance_bps: 0,
        label: label.to_string(),
    }
}

/// Runs the consistency check: neither dataset is revealed, only whether
/// their hashes agree.
pub fn evaluate_consistency(input: ConsistencyInput) -> (output: ConsistencyOutput)
    ensures
        output.is_consistent == (input.dataset_a_hash == input.dataset_b_hash),
        output.dataset_a_hash == input.dataset_a_hash,
        output.dataset_b_hash == input.dataset_b_hash,
        output.label@ == input.label@,
{
    let is_consistent = digests_equal(&input.dataset_a_hash, &input.dataset_b_hash);
    ConsistencyOutput {
        is_consistent,
        dataset_a_hash: input.dataset_a_hash,
        dataset_b_hash: input.dataset_b_hash,
        label: input.label,
    }
}

impl ConsistencyOutput {
    /// The verdict line shown for this result.
    pub fn verdict(&self) -> (text: &'static str)
        ensures
            text@ == (if self.is_consistent {
                "✓ PASS — datasets are consistent"@
            } else {
                "✗ FAIL — datasets do not match"@
            }),
    {
        if self.is_consistent {
            "✓ PASS — datasets are consistent"
        } else {
            "✗ FAIL — datasets do not match"
        }
    }
}

/// Two identical datasets, hashed into a consistency input, are reported
/// consistent.
pub proof fn lemma_identical_data_is_consistent(
    data_a: Seq<u8>,
    data_b: Seq<u8>,
    input: ConsistencyInput,
    output: ConsistencyOutput,
)
    requires
        data_a == data_b,
        input.dataset_a_hash@ == sha256(data_a),
        input.dataset_b_hash@ == sha256(data_b),
        output.is_consistent == (input.dataset_a_hash == input.dataset_b_hash),
    ensures
        output.is_consistent,
{
    assert(input.dataset_a_hash =~= input.dataset_b_hash) by {
        assert forall|k: int| 0 <= k < 32 implies input.dataset_a_hash[k] == input.dataset_b_hash[k] by {
            assert(input.dataset_a_hash@[k] == input.dataset_b_hash@[k]);
        }
    }
}

/// The verdict does not depend on which dataset is called A: two inputs
/// whose hashes are swapped get the same verdict.
pub proof fn lemma_consistency_is_symmetric(
    first: ConsistencyInput,
    first_output: ConsistencyOutput,
    swapped: ConsistencyInput,
    swapped_output: ConsistencyOutput,
)
    requires
        swapped.dataset_a_hash == first.dataset_b_hash,
        swapped.dataset_b_hash == first.dataset_a_hash,
        first_output.is_consistent == (first.dataset_a_hash == first.dataset_b_hash),
        swapped_output.is_consistent == (swapped.dataset_a_hash == swapped.dataset_b_hash),
    ensures
        first_output.is_consistent == swapped_output.is_consistent,
{
}

} // verus!
