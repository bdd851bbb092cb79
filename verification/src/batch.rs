//! Batch aggregation: what a run over many items reports.
//!
//! Each item ends as either a result or a failure.  Aggregation keeps
//! the outcome order, so a sequential run reports results in input
//! order; a parallel run hands outcomes over in completion order, and
//! the sets of succeeded and failed identities are the same whichever
//! order the scheduler produced.  A single bad item never voids the
//! batch: it lands in the failure list and every other item's outcome
//! is kept.

use vstd::prelude::*;
use vstd::seq_lib::to_multiset_contains;

use crate::error::Stage;

verus! {

/// What one successfully processed item reports back.
#[derive(Debug)]
pub struct ProcessResult {
    pub input_path: String,
    pub output_path: String,
    pub input_dims: (u32, u32),
    pub output_dims: (u32, u32),
    pub duration_ms: u64,
}

/// Why one item failed, tagged with the stage that failed, so the
/// report explains itself without log correlation.
#[derive(Debug)]
pub struct PipelineFailure {
    pub input_path: String,
    pub stage: Stage,
    pub message: String,
}

/// How one item ended.
pub enum ItemOutcome {
    Done(ProcessResult),
    Failed(PipelineFailure),
}

/// Everything a batch reports: the results of the items that
/// succeeded and the failures of those that did not.
pub struct BatchReport {
    pub results: Vec<ProcessResult>,
    pub failures: Vec<PipelineFailure>,
}

/// The results of the succeeded items, in outcome order.
pub open spec fn spec_successes(s: Seq<ItemOutcome>) -> Seq<ProcessResult>
    decreases s.len(),
{
    if s.len() == 0 {
        Seq::empty()
    } else {
        let rest = spec_successes(s.drop_last());
        match s.last() {
            ItemOutcome::Done(r) => rest.push(r),
            ItemOutcome::Failed(_) => rest,
        }
    }
}

/// The failures of the failed items, in outcome order.
pub open spec fn spec_failures(s: Seq<ItemOutcome>) -> Seq<PipelineFailure>
    decreases s.len(),
{
    if s.len() == 0 {
        Seq::empty()
    } else {
        let rest = spec_failures(s.drop_last());
        match s.last() {
            ItemOutcome::Done(_) => rest,
            ItemOutcome::Failed(f) => rest.push(f),
        }
    }
}

/// Fold a batch's outcomes into its report: every success and every
/// failure is kept, in outcome order, and nothing else appears.
#[verifier::loop_isolation(false)]
pub fn collect_batch(outcomes: Vec<ItemOutcome>) -> (r: BatchReport)
    ensures
        r.results@ == spec_successes(outcomes@),
        r.failures@ == spec_failures(outcomes@),
{
    let ghost all = outcomes@;
    let mut remaining = outcomes;
    let mut results: Vec<ProcessResult> = Vec::new();
    let mut failures: Vec<PipelineFailure> = Vec::new();
    let ghost mut i: int = 0;
    while remaining.len() > 0
        invariant
            0 <= i <= all.len(),
            remaining@ == all.skip(i),
            results@ == spec_successes(all.take(i)),
            failures@ == spec_failures(all.take(i)),
        decreases remaining@.len(),
    {
        let o = remaining.remove(0);
        proof {
            assert(o == all[i]);
            assert(remaining@ =~= all.skip(i + 1));
            assert(all.take(i + 1).drop_last() =~= all.take(i));
            assert(all.take(i + 1).last() == all[i]);
        }
        match o {
            ItemOutcome::Done(res) => results.push(res),
            ItemOutcome::Failed(f) => failures.push(f),
        }
        proof {
            i = i + 1;
        }
    }
    proof {
        assert(all.take(i) =~= all);
    }
    BatchReport { results, failures }
}

/// Every item is accounted for: a batch reports exactly one entry —
/// a result or a failure — per outcome, so no item is dropped and
/// none is counted twice.
pub proof fn lemma_batch_accounts_for_every_item(s: Seq<ItemOutcome>)
    ensures
        spec_successes(s).len() + spec_failures(s).len() == s.len(),
    decreases s.len(),
{
    if s.len() > 0 {
        lemma_batch_accounts_for_every_item(s.drop_last());
    }
}

/// The identities of the items that succeeded: each success's source
/// path with its output dimensions.
pub open spec fn succeeded_set(s: Seq<ItemOutcome>) -> Set<(Seq<char>, (u32, u32))> {
    Set::new(
        |p: (Seq<char>, (u32, u32))|
            exists|i: int|
                0 <= i < s.len() && ((#[trigger] s[i]) matches ItemOutcome::Done(r)
                    && r.input_path@ == p.0 && r.output_dims == p.1),
    )
}

/// The identities of the items that failed: each failure's source
/// path.
pub open spec fn failed_set(s: Seq<ItemOutcome>) -> Set<Seq<char>> {
    Set::new(
        |p: Seq<char>|
            exists|i: int|
                0 <= i < s.len() && ((#[trigger] s[i]) matches ItemOutcome::Failed(f)
                    && f.input_path@ == p),
    )
}

/// Scheduling order does not matter: two runs whose outcomes are the
/// same multiset — a sequential and a parallel pass over the same
/// items — report the same set of succeeded identities with the same
/// output dimensions, and the same set of failed identities.
pub proof fn lemma_schedule_order_irrelevant(a: Seq<ItemOutcome>, b: Seq<ItemOutcome>)
    requires
        a.to_multiset() == b.to_multiset(),
    ensures
        succeeded_set(a) == succeeded_set(b),
        failed_set(a) == failed_set(b),
{
    assert forall|p: (Seq<char>, (u32, u32))|
        succeeded_set(a).contains(p) implies succeeded_set(b).contains(p) by {
        lemma_success_transfers(a, b, p);
    }
    assert forall|p: (Seq<char>, (u32, u32))|
        succeeded_set(b).contains(p) implies succeeded_set(a).contains(p) by {
        lemma_success_transfers(b, a, p);
    }
    assert(succeeded_set(a) =~= succeeded_set(b));
    assert forall|p: Seq<char>| failed_set(a).contains(p) implies failed_set(b).contains(p) by {
        lemma_failure_transfers(a, b, p);
    }
    assert forall|p: Seq<char>| failed_set(b).contains(p) implies failed_set(a).contains(p) by {
        lemma_failure_transfers(b, a, p);
    }
    assert(failed_set(a) =~= failed_set(b));
}

/// A succeeded identity of one outcome sequence appears in any other
/// with the same multiset of outcomes.
proof fn lemma_success_transfers(a: Seq<ItemOutcome>, b: Seq<ItemOutcome>, p: (Seq<char>, (u32, u32)))
    requires
        a.to_multiset() == b.to_multiset(),
        succeeded_set(a).contains(p),
    ensures
        succeeded_set(b).contains(p),
{
    let i = choose|i: int|
        0 <= i < a.len() && ((#[trigger] a[i]) matches ItemOutcome::Done(r) && r.input_path@
            == p.0 && r.output_dims == p.1);
    to_multiset_contains(a, a[i]);
    to_multiset_contains(b, a[i]);
    assert(b.contains(a[i]));
    let j = choose|j: int| 0 <= j < b.len() && b[j] == a[i];
    assert((#[trigger] b[j]) matches ItemOutcome::Done(r) && r.input_path@ == p.0 && r.output_dims
        == p.1);
}

/// A failed identity of one outcome sequence appears in any other
/// with the same multiset of outcomes.
proof fn lemma_failure_transfers(a: Seq<ItemOutcome>, b: Seq<ItemOutcome>, p: Seq<char>)
    requires
        a.to_multiset() == b.to_multiset(),
        failed_set(a).contains(p),
    ensures
        failed_set(b).contains(p),
{
    let i = choose|i: int|
        0 <= i < a.len() && ((#[trigger] a[i]) matches ItemOutcome::Failed(f) && f.input_path@
            == p);
    to_multiset_contains(a, a[i]);
    to_multiset_contains(b, a[i]);
    assert(b.contains(a[i]));
    let j = choose|j: int| 0 <= j < b.len() && b[j] == a[i];
    assert((#[trigger] b[j]) matches ItemOutcome::Failed(f) && f.input_path@ == p);
}

/// The worker count for parallel frame processing: half the logical
/// CPUs, clamped to at least 2 and at most 8 to bound accelerator
/// contention.
pub open spec fn spec_worker_count(cpus: int) -> int {
    let half = cpus / 2;
    if half < 2 {
        2
    } else if half > 8 {
        8
    } else {
        half
    }
}

/// Clamp a CPU count into the worker band.
pub fn worker_count_for(cpus: usize) -> (n: usize)
    ensures
        n == spec_worker_count(cpus as int),
        2 <= n <= 8,
{
    let half = cpus / 2;
    if half < 2 {
        2
    } else if half > 8 {
        8
    } else {
        half
    }
}

/// Relies on num_cpus::get: the number of logical CPUs available to
/// this process, documented to be at least 1.
#[verifier::external_body]
fn logical_cpu_count() -> (n: usize)
    ensures
        n >= 1,
{
    num_cpus::get()
}

/// The worker count to use for this machine.
pub fn video_worker_count() -> (n: usize)
    ensures
        2 <= n <= 8,
{
    let cpus = logical_cpu_count();
    worker_count_for(cpus)
}

} // verus!
