//! What holds of the catalog, of plans and of runs, whatever the inputs.

use crate::catalog::{
    distinct_versions, first_repeat, is_max_version, repeats_at, MigrateError, Migration,
};
use crate::engine::{
    advanced, counter_after, follows, next_counter, next_script, step_error, unfinished, Report,
    StepOutcome,
};
use crate::plan::{covers, first_with, in_order, is_plan, pending, step_version};
use vstd::prelude::*;

verus! {

/// A catalog has at most one highest version.
pub proof fn lemma_max_version_unique(catalog: Seq<Migration>, a: int, b: int)
    requires
        is_max_version(catalog, a),
        is_max_version(catalog, b),
    ensures
        a == b,
{
}

/// A catalog has at most one first repeated entry.
pub proof fn lemma_first_repeat_unique(catalog: Seq<Migration>, j: int, k: int)
    requires
        first_repeat(catalog, j),
        first_repeat(catalog, k),
    ensures
        j == k,
{
    if j < k {
    } else if k < j {
    }
}

/// Two plans between the same versions apply the same versions at their
/// first `n` steps.
proof fn lemma_plans_agree_until(
    catalog: Seq<Migration>,
    current: int,
    target: int,
    p: Seq<usize>,
    q: Seq<usize>,
    n: int,
)
    requires
        is_plan(catalog, current, target, p),
        is_plan(catalog, current, target, q),
        0 <= n <= p.len(),
        n <= q.len(),
    ensures
        forall|k: int|
            0 <= k < n ==> #[trigger] step_version(catalog, p, k) == step_version(catalog, q, k),
    decreases n,
{
    if n > 0 {
        let last = n - 1;
        lemma_plans_agree_until(catalog, current, target, p, q, last);
        // The version of step `last` of either plan is applied by a step of
        // the other. That step stands neither before `last`, where the plans
        // agree, nor after it in both plans, or each of the two versions
        // would come before the other.
        let v = step_version(catalog, p, last);
        let w = step_version(catalog, q, last);
        let m = choose|m: int| 0 <= m < q.len() && step_version(catalog, q, m) == v;
        let l = choose|l: int| 0 <= l < p.len() && step_version(catalog, p, l) == w;
        if m < last {
            assert(in_order(current, target, step_version(catalog, p, m), v));
        }
        if l < last {
            assert(in_order(current, target, step_version(catalog, q, l), w));
        }
        assert(v == w);
    }
}

/// A plan that is no longer than another between the same versions is as
/// long as it.
proof fn lemma_plans_same_length(
    catalog: Seq<Migration>,
    current: int,
    target: int,
    p: Seq<usize>,
    q: Seq<usize>,
)
    requires
        is_plan(catalog, current, target, p),
        is_plan(catalog, current, target, q),
        p.len() <= q.len(),
    ensures
        p.len() == q.len(),
{
    if p.len() < q.len() {
        // The version of the step of `q` that `p` has no more is applied by
        // a step of `p`, hence by an earlier step of `q` as well.
        let n = p.len() as int;
        lemma_plans_agree_until(catalog, current, target, p, q, n);
        let w = step_version(catalog, q, n);
        let l = choose|l: int| 0 <= l < p.len() && step_version(catalog, p, l) == w;
        assert(in_order(current, target, step_version(catalog, q, l), w));
    }
}

/// The plan between two versions is unique: the pending versions and their
/// order leave no choice.
pub proof fn lemma_plan_unique(
    catalog: Seq<Migration>,
    current: int,
    target: int,
    p: Seq<usize>,
    q: Seq<usize>,
)
    requires
        is_plan(catalog, current, target, p),
        is_plan(catalog, current, target, q),
    ensures
        p == q,
{
    if p.len() <= q.len() {
        lemma_plans_same_length(catalog, current, target, p, q);
    } else {
        lemma_plans_same_length(catalog, current, target, q, p);
    }
    lemma_plans_agree_until(catalog, current, target, p, q, p.len() as int);
    // Equal versions stand at one position: each step is the first entry of
    // its version.
    assert forall|k: int| 0 <= k < p.len() implies p[k] == q[k] by {
        assert(step_version(catalog, p, k) == step_version(catalog, q, k));
    }
}

/// Where the stored version is the target, the plan is empty, and a run
/// over it applies nothing, reports no error and leaves the counter as it
/// was.
pub proof fn lemma_up_to_date(catalog: Seq<Migration>, report: Report)
    requires
        report.start == report.target,
        is_plan(catalog, report.start as int, report.target as int, report.steps@),
        follows(catalog, report),
    ensures
        report.steps@.len() == 0,
        report.done == 0,
        report.error.is_none(),
        report.version == report.start,
        !unfinished(report),
{
    if report.steps@.len() > 0 {
        assert(pending(
            report.start as int,
            report.target as int,
            step_version(catalog, report.steps@, 0),
        ));
    }
}

/// Every step of a plan applies a pending version, and the counter it
/// records lies between the two versions: an upgrade never passes the
/// target, and a downgrade never goes below it.
pub proof fn lemma_counter_stays_in_bounds(
    catalog: Seq<Migration>,
    start: int,
    target: int,
    steps: Seq<usize>,
    done: int,
)
    requires
        is_plan(catalog, start, target, steps),
        0 <= done <= steps.len(),
    ensures
        start <= target ==> start <= counter_after(catalog, start, target, steps, done) <= target,
        start >= target ==> target <= counter_after(catalog, start, target, steps, done) <= start,
{
}

/// A run that finished without an error stands at its target, where the
/// catalog holds the migration that ends there: for an upgrade the one of
/// the target version, for a downgrade the one of the version above it.
pub proof fn lemma_finished_run_reaches_target(catalog: Seq<Migration>, report: Report, i: int)
    requires
        is_plan(catalog, report.start as int, report.target as int, report.steps@),
        follows(catalog, report),
        !unfinished(report),
        report.error.is_none(),
        0 <= i < catalog.len(),
        report.start < report.target ==> catalog[i].version == report.target,
        report.start > report.target ==> catalog[i].version == report.target + 1,
    ensures
        report.version == report.target,
{
    let start = report.start as int;
    let target = report.target as int;
    let steps = report.steps@;
    let last = steps.len() - 1;
    if start == target {
        lemma_up_to_date(catalog, report);
    } else {
        let v = catalog[i].version as int;
        let k = choose|k: int| 0 <= k < steps.len() && step_version(catalog, steps, k) == v;
        if k < last {
            assert(in_order(
                start,
                target,
                step_version(catalog, steps, k),
                step_version(catalog, steps, last),
            ));
        }
    }
}

/// A step that the database did not apply ends the run where it stood: the
/// applied steps and the counter stay, the error names the migration of
/// that step, and no step is left to take.
pub proof fn lemma_failure_ends_run(catalog: Seq<Migration>, report: Report, outcome: StepOutcome)
    requires
        unfinished(report),
        !(outcome is Applied),
    ensures
        !unfinished(advanced(catalog, report, outcome)),
        advanced(catalog, report, outcome).done == report.done,
        advanced(catalog, report, outcome).version == report.version,
        advanced(catalog, report, outcome).steps == report.steps,
        advanced(catalog, report, outcome).error == step_error(
            catalog[report.steps@[report.done as int] as int].version,
            outcome,
        ),
        outcome matches StepOutcome::ScriptFailed(cause) ==> advanced(
            catalog,
            report,
            outcome,
        ).error == Some(
            MigrateError::MigrationFailed {
                version: catalog[report.steps@[report.done as int] as int].version,
                cause,
            },
        ),
{
}

/// A step that the database applied moves the run on by one: the counter is
/// the one that step records, and no error is set.
pub proof fn lemma_applied_moves_on(catalog: Seq<Migration>, report: Report)
    requires
        unfinished(report),
        report.done < usize::MAX,
    ensures
        advanced(catalog, report, StepOutcome::Applied).done == report.done + 1,
        advanced(catalog, report, StepOutcome::Applied).version == next_counter(
            catalog,
            report,
        ) as i16,
        advanced(catalog, report, StepOutcome::Applied).error.is_none(),
{
}

/// The step up to a version and the step back down from it are made of the
/// same migration. In a catalog of distinct versions, the plan from the
/// version before `v` to `v` is the entry of `v` alone, run with its `up`
/// script and recorded as `v`; the plan from `v` back is the same entry
/// alone, run with its `down` script and recorded as the version before.
pub proof fn lemma_round_trip(catalog: Seq<Migration>, i: int, up: Report, down: Report)
    requires
        distinct_versions(catalog),
        0 <= i < catalog.len(),
        i <= usize::MAX,
        catalog[i].version > i16::MIN,
        up.start == catalog[i].version - 1,
        up.target == catalog[i].version,
        up.done == 0,
        is_plan(catalog, up.start as int, up.target as int, up.steps@),
        down.start == catalog[i].version,
        down.target == catalog[i].version - 1,
        down.done == 0,
        is_plan(catalog, down.start as int, down.target as int, down.steps@),
    ensures
        up.steps@ == seq![i as usize],
        down.steps@ == seq![i as usize],
        next_script(catalog, up) == catalog[i].up@,
        next_counter(catalog, up) == catalog[i].version,
        next_script(catalog, down) == catalog[i].down@,
        next_counter(catalog, down) == catalog[i].version - 1,
{
    let v = catalog[i].version as int;
    let single = seq![i as usize];
    assert(step_version(catalog, single, 0) == v);
    lemma_plan_unique(catalog, v - 1, v, up.steps@, single);
    lemma_plan_unique(catalog, v, v - 1, down.steps@, single);
}

} // verus!
