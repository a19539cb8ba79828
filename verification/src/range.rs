//! Range check: a private value lies within public inclusive bounds.

use vstd::prelude::*;

verus! {

broadcast use vstd::string::to_string_from_display_ensures_for_str;

/// Input to the range check.
pub struct RangeInput {
    /// The private value being checked: a credit rating score, an amount in
    /// cents, a loan-to-value ratio in basis points, an income in cents.
    pub value: u64,
    /// Minimum allowed value (inclusive). Public.
    pub min: u64,
    /// Maximum allowed value (inclusive). Public.
    pub max: u64,
    /// What is being checked, e.g. "anchor_credit_rating", "ltv_ratio".
    pub label: String,
}

/// Public result of the range check.
pub struct RangeOutput {
    /// True when the value lies within `[min, max]`.
    pub in_range: bool,
    /// The lower bound that was checked.
    pub min: u64,
    /// The upper bound that was checked.
    pub max: u64,
    /// What was checked.
    pub label: String,
}

/// Whether `value` lies in the inclusive interval `[min, max]`.
pub open spec fn within(value: int, min: int, max: int) -> bool {
    min <= value && value <= max
}

/// Builds the input of a range check from its label, value and bounds.
pub fn build_range_input(label: &str, value: u64, min: u64, max: u64) -> (input: RangeInput)
    ensures
        input.value == value,
        input.min == min,
        input.max == max,
        input.label@ == label@,
{
    RangeInput { value, min, max, label: label.to_string() }
}

/// Runs the range check: the value stays private, the verdict and the
/// bounds are public.
pub fn evaluate_range(input: RangeInput) -> (output: RangeOutput)
    ensures
        output.in_range == within(input.value as int, input.min as int, input.max as int),
        output.min == input.min,
        output.max == input.max,
        output.label@ == input.label@,
{
    let in_range = input.value >= input.min && input.value <= input.max;
    RangeOutput { in_range, min: input.min, max: input.max, label: input.label }
}

impl RangeOutput {
    /// The verdict line shown for this result.
    pub fn verdict(&self) -> (text: &'static str)
        ensures
            text@ == (if self.in_range { "✓ PASS"@ } else { "✗ FAIL"@ }),
    {
        if self.in_range {
            "✓ PASS"
        } else {
            "✗ FAIL"
        }
    }
}

/// The bounds themselves pass the check whenever the range is not inverted.
pub proof fn lemma_bounds_pass(min: u64, max: u64)
    requires
        min <= max,
    ensures
        within(min as int, min as int, max as int),
        within(max as int, min as int, max as int),
{
}

} // verus!
