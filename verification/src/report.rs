//! ResultAggregator/Reporter core: fold the per-job results into totals,
//! and the pure decisions behind the recap output. Aggregation saturates
//! instead of overflowing; the percentage helpers guard their divisions.

use vstd::prelude::*;
use crate::compressor::{CompressionResult, CompressionStatus};

verus! {

/// Totals over one run's results.
#[derive(Copy, Clone, Debug)]
pub struct RecapStats {
    pub total_original_size: u64,
    pub total_compressed_size: u64,
    pub success_count: usize,
    pub skipped_count: usize,
    pub error_count: usize,
}

/// Mathematical sum of the original sizes.
pub open spec fn spec_total_original(s: Seq<CompressionResult>) -> int
    decreases s.len(),
{
    if s.len() == 0 {
        0
    } else {
        spec_total_original(s.drop_last()) + s.last().original_size
    }
}

/// Mathematical sum of the compressed sizes.
pub open spec fn spec_total_compressed(s: Seq<CompressionResult>) -> int
    decreases s.len(),
{
    if s.len() == 0 {
        0
    } else {
        spec_total_compressed(s.drop_last()) + s.last().compressed_size
    }
}

/// How many results carry the given status.
pub open spec fn spec_count_status(s: Seq<CompressionResult>, st: CompressionStatus) -> int
    decreases s.len(),
{
    if s.len() == 0 {
        0
    } else {
        spec_count_status(s.drop_last(), st) + (if s.last().status == st {
            1int
        } else {
            0int
        })
    }
}

/// A total capped at the largest representable size.
pub open spec fn spec_saturated(x: int) -> int {
    if x <= u64::MAX {
        x
    } else {
        u64::MAX as int
    }
}

proof fn lemma_totals_nonneg(s: Seq<CompressionResult>)
    ensures
        spec_total_original(s) >= 0,
        spec_total_compressed(s) >= 0,
    decreases s.len(),
{
    if s.len() > 0 {
        lemma_totals_nonneg(s.drop_last());
    }
}

/// The sum, capped at the largest representable size.
fn sat_add_u64(a: u64, b: u64) -> (r: u64)
    ensures
        r == spec_saturated(a + b),
{
    if a <= u64::MAX - b {
        a + b
    } else {
        u64::MAX
    }
}

/// Fold the results into totals: byte sums (saturating) and a count per
/// status. Every result contributes to exactly one count.
pub fn aggregate_results(results: &Vec<CompressionResult>) -> (r: RecapStats)
    ensures
        r.total_original_size == spec_saturated(spec_total_original(results@)),
        r.total_compressed_size == spec_saturated(spec_total_compressed(results@)),
        r.success_count == spec_count_status(results@, CompressionStatus::Success),
        r.skipped_count == spec_count_status(results@, CompressionStatus::Skipped),
        r.error_count == spec_count_status(results@, CompressionStatus::Error),
{
    let n = results.len();
    let mut total_original: u64 = 0;
    let mut total_compressed: u64 = 0;
    let mut success_count: usize = 0;
    let mut skipped_count: usize = 0;
    let mut error_count: usize = 0;
    let mut i: usize = 0;
    proof {
        assert(results@.take(0) =~= Seq::<CompressionResult>::empty());
    }
    while i < n
        invariant
            i <= n,
            n == results@.len(),
            total_original == spec_saturated(spec_total_original(results@.take(i as int))),
            total_compressed == spec_saturated(spec_total_compressed(results@.take(i as int))),
            success_count == spec_count_status(results@.take(i as int), CompressionStatus::Success),
            skipped_count == spec_count_status(results@.take(i as int), CompressionStatus::Skipped),
            error_count == spec_count_status(results@.take(i as int), CompressionStatus::Error),
            success_count <= i,
            skipped_count <= i,
            error_count <= i,
        decreases n - i,
    {
        let res = &results[i];
        proof {
            assert(results@.take(i as int + 1).drop_last() =~= results@.take(i as int));
            assert(results@.take(i as int + 1).last() == results@[i as int]);
            lemma_totals_nonneg(results@.take(i as int));
        }
        total_original = sat_add_u64(total_original, res.original_size);
        total_compressed = sat_add_u64(total_compressed, res.compressed_size);
        match res.status {
            CompressionStatus::Success => {
                success_count = success_count + 1;
            },
            CompressionStatus::Skipped => {
                skipped_count = skipped_count + 1;
            },
            CompressionStatus::Error => {
                error_count = error_count + 1;
            },
        }
        i = i + 1;
    }
    proof {
        assert(results@.take(n as int) =~= results@);
    }
    RecapStats {
        total_original_size: total_original,
        total_compressed_size: total_compressed,
        success_count,
        skipped_count,
        error_count,
    }
}

/// Bytes saved over the whole run; a run that grew counts as zero saved.
pub fn total_saved(total_original: u64, total_compressed: u64) -> (r: u64)
    ensures
        r == (if total_original >= total_compressed {
            total_original - total_compressed
        } else {
            0int
        }),
{
    if total_original >= total_compressed {
        total_original - total_compressed
    } else {
        0
    }
}

/// Overall percent saved, in hundredths of a percent; a run with nothing
/// to compress reports 0 rather than dividing by zero.
pub fn saved_percent_hundredths(total_original: u64, total_compressed: u64) -> (r: u64)
    ensures
        total_original == 0 ==> r == 0,
        total_original > 0 ==> r == (if total_original >= total_compressed {
            total_original - total_compressed
        } else {
            0int
        }) * 10000 / total_original as int,
{
    if total_original == 0 {
        return 0;
    }
    let saved = total_saved(total_original, total_compressed);
    proof {
        assert((saved as int) * 10000 / (total_original as int) <= 10000) by (nonlinear_arith)
            requires
                0 <= saved <= total_original,
                total_original > 0,
        ;
    }
    let permyriad = ((saved as u128) * 10000) / (total_original as u128);
    permyriad as u64
}

/// Per-file size change in hundredths of a percent, negative when the
/// output shrank; an empty original reports 0 rather than dividing by
/// zero.
pub fn size_change_percent_hundredths(original_size: u64, compressed_size: u64) -> (r: i128)
    ensures
        original_size == 0 ==> r == 0,
        original_size > 0 && compressed_size >= original_size ==> r == (compressed_size
            - original_size) * 10000 / original_size as int,
        original_size > 0 && compressed_size < original_size ==> r == -((original_size
            - compressed_size) * 10000 / original_size as int),
{
    if original_size == 0 {
        return 0;
    }
    if compressed_size >= original_size {
        let diff = compressed_size - original_size;
        proof {
            assert((diff as int) * 10000 / (original_size as int) <= (diff as int) * 10000)
                by (nonlinear_arith)
                requires
                    diff >= 0,
                    original_size > 0,
            ;
        }
        let v = ((diff as u128) * 10000) / (original_size as u128);
        v as i128
    } else {
        let diff = original_size - compressed_size;
        proof {
            assert((diff as int) * 10000 / (original_size as int) <= (diff as int) * 10000)
                by (nonlinear_arith)
                requires
                    diff >= 0,
                    original_size > 0,
            ;
        }
        let v = ((diff as u128) * 10000) / (original_size as u128);
        let signed = v as i128;
        -signed
    }
}

/// Which results get their own recap line: none below the warnings tier,
/// skips and errors from it, successes only at the full tier.
pub fn should_report_result(status: CompressionStatus, verbose: u8) -> (r: bool)
    ensures
        r <==> (verbose > 1 && (verbose >= 3 || !(status is Success))),
{
    let success = match status {
        CompressionStatus::Success => true,
        _ => false,
    };
    verbose > 1 && (verbose >= 3 || !success)
}

/// The recap prints something exactly when there are results and the run
/// is not quiet; in particular an empty run prints nothing.
pub fn recap_emits_output(results_len: usize, verbose: u8) -> (r: bool)
    ensures
        r <==> (results_len > 0 && verbose > 0),
{
    results_len > 0 && verbose > 0
}

proof fn lemma_totals_remove(s: Seq<CompressionResult>, i: int)
    requires
        0 <= i < s.len(),
    ensures
        spec_total_original(s.remove(i)) == spec_total_original(s) - s[i].original_size,
        spec_total_compressed(s.remove(i)) == spec_total_compressed(s) - s[i].compressed_size,
    decreases s.len(),
{
    if i == s.len() - 1 {
        assert(s.remove(i) =~= s.drop_last());
    } else {
        assert(s.remove(i).drop_last() =~= s.drop_last().remove(i));
        assert(s.remove(i).last() == s.last());
        lemma_totals_remove(s.drop_last(), i);
    }
}

proof fn lemma_count_remove(s: Seq<CompressionResult>, st: CompressionStatus, i: int)
    requires
        0 <= i < s.len(),
    ensures
        spec_count_status(s.remove(i), st) == spec_count_status(s, st) - (if s[i].status == st {
            1int
        } else {
            0int
        }),
    decreases s.len(),
{
    if i == s.len() - 1 {
        assert(s.remove(i) =~= s.drop_last());
    } else {
        assert(s.remove(i).drop_last() =~= s.drop_last().remove(i));
        assert(s.remove(i).last() == s.last());
        lemma_count_remove(s.drop_last(), st, i);
    }
}

proof fn lemma_totals_permutation(s1: Seq<CompressionResult>, s2: Seq<CompressionResult>)
    requires
        s1.to_multiset() == s2.to_multiset(),
    ensures
        spec_total_original(s1) == spec_total_original(s2),
        spec_total_compressed(s1) == spec_total_compressed(s2),
    decreases s1.len(),
{
    broadcast use vstd::seq_lib::group_to_multiset_ensures;
    broadcast use vstd::multiset::group_multiset_axioms;

    if s1.len() == 0 {
        assert(s2.len() == s2.to_multiset().len());
    } else {
        let a = s1.last();
        assert(s1 =~= s1.drop_last().push(a));
        assert(s1.drop_last().push(a).to_multiset() =~= s1.drop_last().to_multiset().insert(a));
        assert(s2.to_multiset().count(a) > 0);
        assert(s2.contains(a));
        let i = choose|i: int| 0 <= i < s2.len() && s2[i] == a;
        assert(s2.remove(i).to_multiset() =~= s2.to_multiset().remove(s2[i]));
        assert(s1.drop_last().to_multiset() =~= s1.to_multiset().remove(a));
        lemma_totals_permutation(s1.drop_last(), s2.remove(i));
        lemma_totals_remove(s2, i);
    }
}

proof fn lemma_count_permutation(
    s1: Seq<CompressionResult>,
    s2: Seq<CompressionResult>,
    st: CompressionStatus,
)
    requires
        s1.to_multiset() == s2.to_multiset(),
    ensures
        spec_count_status(s1, st) == spec_count_status(s2, st),
    decreases s1.len(),
{
    broadcast use vstd::seq_lib::group_to_multiset_ensures;
    broadcast use vstd::multiset::group_multiset_axioms;

    if s1.len() == 0 {
        assert(s2.len() == s2.to_multiset().len());
    } else {
        let a = s1.last();
        assert(s1 =~= s1.drop_last().push(a));
        assert(s1.drop_last().push(a).to_multiset() =~= s1.drop_last().to_multiset().insert(a));
        assert(s2.to_multiset().count(a) > 0);
        assert(s2.contains(a));
        let i = choose|i: int| 0 <= i < s2.len() && s2[i] == a;
        assert(s2.remove(i).to_multiset() =~= s2.to_multiset().remove(s2[i]));
        assert(s1.drop_last().to_multiset() =~= s1.to_multiset().remove(a));
        lemma_count_permutation(s1.drop_last(), s2.remove(i), st);
        lemma_count_remove(s2, st, i);
    }
}

/// A dry run's results, however many: when every job reported Success with
/// the compressed size left at its default 0, the recap totals no
/// compressed bytes, counts every job as a success, and counts no skips
/// and no errors.
pub proof fn lemma_dry_run_totals(s: Seq<CompressionResult>)
    requires
        forall|i: int|
            0 <= i < s.len() ==> (#[trigger] s[i].status is Success && s[i].compressed_size == 0),
    ensures
        spec_total_compressed(s) == 0,
        spec_count_status(s, CompressionStatus::Success) == s.len(),
        spec_count_status(s, CompressionStatus::Skipped) == 0,
        spec_count_status(s, CompressionStatus::Error) == 0,
    decreases s.len(),
{
    if s.len() > 0 {
        assert(s[s.len() - 1].status is Success && s[s.len() - 1].compressed_size == 0);
        assert(s.last() == s[s.len() - 1]);
        assert forall|i: int| 0 <= i < s.drop_last().len() implies (#[trigger] s.drop_last()[i].status
            is Success && s.drop_last()[i].compressed_size == 0) by {
            assert(s.drop_last()[i] == s[i]);
        }
        lemma_dry_run_totals(s.drop_last());
    }
}

/// Aggregation is a commutative fold: the result sequence's order is
/// unspecified, and any two orderings of the same results give the same
/// byte totals and the same count for every status.
pub proof fn lemma_aggregation_order_independent(
    s1: Seq<CompressionResult>,
    s2: Seq<CompressionResult>,
)
    requires
        s1.to_multiset() == s2.to_multiset(),
    ensures
        spec_total_original(s1) == spec_total_original(s2),
        spec_total_compressed(s1) == spec_total_compressed(s2),
        forall|st: CompressionStatus| spec_count_status(s1, st) == spec_count_status(s2, st),
{
    lemma_totals_permutation(s1, s2);
    assert forall|st: CompressionStatus|
        spec_count_status(s1, st) == spec_count_status(s2, st) by {
        lemma_count_permutation(s1, s2, st);
    }
}

} // verus!
