//! OverwriteGate: the decision whether an existing output file may be
//! replaced, given the overwrite policy and the two file sizes.

use vstd::prelude::*;
use crate::options::OverwritePolicy;

verus! {

/// Outcome of the overwrite gate.
#[derive(Copy, Clone, PartialEq, Eq, Structural, Debug)]
pub enum OverwriteDecision {
    Proceed,
    Skip,
}

/// Skipping requires an existing output file. `Never` then always skips,
/// `Bigger` skips when the candidate is not smaller, and `All` never
/// skips.
pub open spec fn spec_should_skip(
    policy: OverwritePolicy,
    output_exists: bool,
    original_size: u64,
    candidate_size: u64,
) -> bool {
    output_exists && match policy {
        OverwritePolicy::All => false,
        OverwritePolicy::Never => true,
        OverwritePolicy::Bigger => candidate_size >= original_size,
    }
}

/// Decide whether to write over the output location.
pub fn decide_overwrite(
    policy: OverwritePolicy,
    output_exists: bool,
    original_size: u64,
    candidate_size: u64,
) -> (r: OverwriteDecision)
    ensures
        r is Skip <==> spec_should_skip(policy, output_exists, original_size, candidate_size),
        policy is All ==> r is Proceed,
        output_exists && policy is Never ==> r is Skip,
        output_exists && policy is Bigger && candidate_size >= original_size ==> r is Skip,
        output_exists && policy is Bigger && candidate_size < original_size ==> r is Proceed,
        !output_exists ==> r is Proceed,
{
    if !output_exists {
        return OverwriteDecision::Proceed;
    }
    match policy {
        OverwritePolicy::All => OverwriteDecision::Proceed,
        OverwritePolicy::Never => OverwriteDecision::Skip,
        OverwritePolicy::Bigger => {
            if candidate_size >= original_size {
                OverwriteDecision::Skip
            } else {
                OverwriteDecision::Proceed
            }
        },
    }
}

} // verus!
