//! Aggregation of a pass's per-source results into the structured summary
//! the scheduler logs and the on-demand refresh endpoint returns.
use vstd::prelude::*;

verus! {

use crate::service::SyncResult;

/// The structured outcome of one pass: total, success and error tallies,
/// plus the per-source results.
pub struct SyncSummary {
    pub total: usize,
    pub success: usize,
    pub errors: usize,
    pub results: Vec<SyncResult>,
}

/// How many results report success (no error).
pub open spec fn spec_success_count(rs: Seq<SyncResult>) -> int
    decreases rs.len(),
{
    if rs.len() == 0 {
        0
    } else {
        spec_success_count(rs.drop_last()) + if rs.last().error is None {
            1int
        } else {
            0int
        }
    }
}

/// The sum of the new-chapter counts over all results.
pub open spec fn spec_new_chapter_sum(rs: Seq<SyncResult>) -> int
    decreases rs.len(),
{
    if rs.len() == 0 {
        0
    } else {
        spec_new_chapter_sum(rs.drop_last()) + rs.last().new_chapters
    }
}

proof fn lemma_success_count_bounds(rs: Seq<SyncResult>)
    ensures
        0 <= spec_success_count(rs) <= rs.len(),
    decreases rs.len(),
{
    if rs.len() > 0 {
        lemma_success_count_bounds(rs.drop_last());
    }
}

/// Folds a pass's results into its summary: the total is the number of
/// results, and the success and error tallies partition it.
pub fn summarize(results: Vec<SyncResult>) -> (s: SyncSummary)
    ensures
        s.results@ == results@,
        s.total == results@.len(),
        s.success == spec_success_count(results@),
        s.errors == results@.len() - spec_success_count(results@),
        s.success + s.errors == s.total,
{
    let total = results.len();
    let mut success: usize = 0;
    let mut i: usize = 0;
    while i < total
        invariant
            i <= total,
            total == results@.len(),
            success == spec_success_count(results@.subrange(0, i as int)),
            success <= i,
        decreases total - i,
    {
        proof {
            assert(results@.subrange(0, i + 1).drop_last() =~= results@.subrange(0, i as int));
            assert(results@.subrange(0, i + 1).last() == results@[i as int]);
        }
        if results[i].error.is_none() {
            success = success + 1;
        }
        i = i + 1;
    }
    proof {
        assert(results@.subrange(0, total as int) =~= results@);
        lemma_success_count_bounds(results@);
    }
    SyncSummary { total, success, errors: total - success, results }
}

/// The sum of new-chapter counts across all results, saturating at the
/// integer limit; the scheduler logs it after each pass.
pub fn total_new_chapters(results: &Vec<SyncResult>) -> (n: u64)
    ensures
        spec_new_chapter_sum(results@) <= u64::MAX ==> n == spec_new_chapter_sum(results@),
        spec_new_chapter_sum(results@) > u64::MAX ==> n == u64::MAX,
{
    let total = results.len();
    let mut acc: u64 = 0;
    let mut i: usize = 0;
    while i < total
        invariant
            i <= total,
            total == results@.len(),
            spec_new_chapter_sum(results@.subrange(0, i as int)) <= u64::MAX ==> acc
                == spec_new_chapter_sum(results@.subrange(0, i as int)),
            spec_new_chapter_sum(results@.subrange(0, i as int)) > u64::MAX ==> acc == u64::MAX,
            acc <= spec_new_chapter_sum(results@.subrange(0, i as int)),
        decreases total - i,
    {
        proof {
            assert(results@.subrange(0, i + 1).drop_last() =~= results@.subrange(0, i as int));
            assert(results@.subrange(0, i + 1).last() == results@[i as int]);
            lemma_new_chapter_sum_nonneg(results@.subrange(0, i as int));
        }
        let v = results[i].new_chapters as u64;
        if u64::MAX - acc < v {
            acc = u64::MAX;
        } else {
            acc = acc + v;
        }
        i = i + 1;
    }
    proof {
        assert(results@.subrange(0, total as int) =~= results@);
    }
    acc
}

proof fn lemma_new_chapter_sum_nonneg(rs: Seq<SyncResult>)
    ensures
        spec_new_chapter_sum(rs) >= 0,
    decreases rs.len(),
{
    if rs.len() > 0 {
        lemma_new_chapter_sum_nonneg(rs.drop_last());
    }
}

} // verus!
