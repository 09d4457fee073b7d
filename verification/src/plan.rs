//! Which migrations a run applies, and in what order.

use crate::catalog::Migration;
use vstd::prelude::*;

verus! {

/// What a run does, decided once from the stored and the target version.
#[derive(Debug, Clone, Copy, PartialEq, Eq, Structural)]
pub enum Direction {
    /// The stored version is the target: nothing is applied.
    UpToDate,
    /// The stored version is below the target: `up` scripts, ascending.
    Upgrading,
    /// The stored version is above the target: `down` scripts, descending.
    Downgrading,
}

pub open spec fn direction_of(current: int, target: int) -> Direction {
    if current == target {
        Direction::UpToDate
    } else if current < target {
        Direction::Upgrading
    } else {
        Direction::Downgrading
    }
}

/// The direction of a run from `current` to `target`.
pub fn direction(current: i16, target: i16) -> (d: Direction)
    ensures
        d == direction_of(current as int, target as int),
{
    if current == target {
        Direction::UpToDate
    } else if current < target {
        Direction::Upgrading
    } else {
        Direction::Downgrading
    }
}

/// A migration of version `v` lies between the two versions: above the lower
/// one and not above the higher one.
pub open spec fn pending(current: int, target: int, v: int) -> bool {
    (current < v && v <= target) || (target < v && v <= current)
}

/// `j` is the first position of the catalog that holds its version.
pub open spec fn first_with(catalog: Seq<Migration>, j: int) -> bool {
    &&& 0 <= j < catalog.len()
    &&& forall|k: int| 0 <= k < j ==> catalog[k].version != catalog[j].version
}

/// The version of the migration that step `k` applies.
pub open spec fn step_version(catalog: Seq<Migration>, steps: Seq<usize>, k: int) -> int {
    catalog[steps[k] as int].version as int
}

/// Some step applies a migration of version `v`.
pub open spec fn covers(catalog: Seq<Migration>, steps: Seq<usize>, v: int) -> bool {
    exists|k: int| 0 <= k < steps.len() && #[trigger] step_version(catalog, steps, k) == v
}

/// Version `a` is applied before version `b`: ascending when upgrading,
/// descending when downgrading.
pub open spec fn in_order(current: int, target: int, a: int, b: int) -> bool {
    if current < target {
        a < b
    } else {
        a > b
    }
}

/// `steps` are the positions in the catalog of the migrations that a run
/// from `current` to `target` applies, in the order of application: every
/// pending version once, nothing else, ascending for an upgrade and
/// descending for a downgrade.
pub open spec fn is_plan(catalog: Seq<Migration>, current: int, target: int, steps: Seq<usize>) -> bool {
    &&& forall|k: int|
        0 <= k < steps.len() ==> first_with(catalog, #[trigger] steps[k] as int) && pending(
            current,
            target,
            step_version(catalog, steps, k),
        )
    &&& forall|a: int, b: int|
        0 <= a < b < steps.len() ==> in_order(
            current,
            target,
            #[trigger] step_version(catalog, steps, a),
            #[trigger] step_version(catalog, steps, b),
        )
    &&& forall|i: int|
        0 <= i < catalog.len() && pending(current, target, #[trigger] catalog[i].version as int)
            ==> covers(catalog, steps, catalog[i].version as int)
}

/// `r` is the first position of the lowest version in `(low, high]`, or
/// nothing where the catalog has no version there.
pub open spec fn is_lowest_in(catalog: Seq<Migration>, low: int, high: int, r: Option<usize>) -> bool {
    match r {
        None => forall|i: int|
            0 <= i < catalog.len() ==> !(low < #[trigger] catalog[i].version <= high),
        Some(j) => {
            &&& first_with(catalog, j as int)
            &&& low < catalog[j as int].version <= high
            &&& forall|i: int|
                0 <= i < catalog.len() && low < #[trigger] catalog[i].version <= high
                    ==> catalog[j as int].version <= catalog[i].version
        },
    }
}

/// `r` is the first position of the highest version in `(low, high]`, or
/// nothing where the catalog has no version there.
pub open spec fn is_highest_in(catalog: Seq<Migration>, low: int, high: int, r: Option<usize>) -> bool {
    match r {
        None => forall|i: int|
            0 <= i < catalog.len() ==> !(low < #[trigger] catalog[i].version <= high),
        Some(j) => {
            &&& first_with(catalog, j as int)
            &&& low < catalog[j as int].version <= high
            &&& forall|i: int|
                0 <= i < catalog.len() && low < #[trigger] catalog[i].version <= high
                    ==> catalog[j as int].version >= catalog[i].version
        },
    }
}

/// The next migration of an upgrade that stands at `low` and ends at `high`.
pub fn lowest_in(catalog: &Vec<Migration>, low: i16, high: i16) -> (r: Option<usize>)
    ensures
        is_lowest_in(catalog@, low as int, high as int, r),
{
    let mut best: Option<usize> = None;
    let mut i: usize = 0;
    while i < catalog.len()
        invariant
            i <= catalog.len(),
            best matches Some(j) ==> j < i,
            is_lowest_in(catalog@.take(i as int), low as int, high as int, best),
        decreases catalog.len() - i,
    {
        let v: i16 = catalog[i].version;
        if low < v && v <= high {
            let better = match best {
                None => true,
                Some(j) => v < catalog[j].version,
            };
            if better {
                best = Some(i);
            }
        }
        i += 1;
    }
    assert(catalog@.take(i as int) == catalog@);
    best
}

/// The next migration of a downgrade that stands at `high` and ends at `low`.
pub fn highest_in(catalog: &Vec<Migration>, low: i16, high: i16) -> (r: Option<usize>)
    ensures
        is_highest_in(catalog@, low as int, high as int, r),
{
    let mut best: Option<usize> = None;
    let mut i: usize = 0;
    while i < catalog.len()
        invariant
            i <= catalog.len(),
            best matches Some(j) ==> j < i,
            is_highest_in(catalog@.take(i as int), low as int, high as int, best),
        decreases catalog.len() - i,
    {
        let v: i16 = catalog[i].version;
        if low < v && v <= high {
            let better = match best {
                None => true,
                Some(j) => v > catalog[j].version,
            };
            if better {
                best = Some(i);
            }
        }
        i += 1;
    }
    assert(catalog@.take(i as int) == catalog@);
    best
}

/// The steps of a run from `current` to `target`, as positions in the
/// catalog.
///
/// An upgrade applies every version in `(current, target]`, ascending; a
/// downgrade every version in `(target, current]`, descending. Where a
/// version occurs more than once its first entry is taken. Nothing is
/// applied where the two versions are equal.
pub fn plan(catalog: &Vec<Migration>, current: i16, target: i16) -> (steps: Vec<usize>)
    ensures
        is_plan(catalog@, current as int, target as int, steps@),
        current == target ==> steps@.len() == 0,
{
    let mut steps: Vec<usize> = Vec::new();
    if current < target {
        let mut low: i16 = current;
        let mut next: Option<usize> = lowest_in(catalog, low, target);
        while next.is_some()
            invariant
                current <= low <= target,
                is_lowest_in(catalog@, low as int, target as int, next),
                is_plan(catalog@, current as int, low as int, steps@),
            decreases target - low,
        {
            let j: usize = next.unwrap();
            let ghost old_steps = steps@;
            let ghost old_low = low;
            steps.push(j);
            low = catalog[j].version;
            next = lowest_in(catalog, low, target);
            proof {
                let last = old_steps.len() as int;
                assert forall|k: int| 0 <= k < last implies step_version(catalog@, steps@, k)
                    == step_version(catalog@, old_steps, k) by {}
                assert forall|i: int|
                    0 <= i < catalog@.len() && pending(
                        current as int,
                        low as int,
                        #[trigger] catalog@[i].version as int,
                    ) implies covers(catalog@, steps@, catalog@[i].version as int) by {
                    let v = catalog@[i].version as int;
                    if v <= old_low {
                        // An earlier step applies it, and that step is kept.
                        let k = choose|k: int|
                            0 <= k < old_steps.len() && step_version(catalog@, old_steps, k) == v;
                        assert(step_version(catalog@, steps@, k) == v);
                    } else {
                        // No version lies between the old bound and the new step.
                        assert(step_version(catalog@, steps@, last) == v);
                    }
                }
            }
        }
    } else if current > target {
        let mut high: i16 = current;
        let mut next: Option<usize> = highest_in(catalog, target, high);
        while next.is_some()
            invariant
                target <= high <= current,
                target < current,
                is_highest_in(catalog@, target as int, high as int, next),
                forall|k: int|
                    0 <= k < steps@.len() ==> first_with(catalog@, #[trigger] steps@[k] as int)
                        && high < step_version(catalog@, steps@, k) <= current,
                forall|a: int, b: int|
                    0 <= a < b < steps@.len() ==> #[trigger] step_version(catalog@, steps@, a)
                        > #[trigger] step_version(catalog@, steps@, b),
                forall|i: int|
                    0 <= i < catalog@.len() && high < #[trigger] catalog@[i].version <= current
                        ==> covers(catalog@, steps@, catalog@[i].version as int),
            decreases high - target,
        {
            let j: usize = next.unwrap();
            let ghost old_steps = steps@;
            let ghost old_high = high;
            steps.push(j);
            high = catalog[j].version - 1;
            next = highest_in(catalog, target, high);
            proof {
                let last = old_steps.len() as int;
                assert forall|k: int| 0 <= k < last implies step_version(catalog@, steps@, k)
                    == step_version(catalog@, old_steps, k) by {}
                assert forall|i: int|
                    0 <= i < catalog@.len() && high < #[trigger] catalog@[i].version
                        <= current implies covers(catalog@, steps@, catalog@[i].version as int) by {
                    let v = catalog@[i].version as int;
                    if v > old_high {
                        // An earlier step applies it, and that step is kept.
                        let k = choose|k: int|
                            0 <= k < old_steps.len() && step_version(catalog@, old_steps, k) == v;
                        assert(step_version(catalog@, steps@, k) == v);
                    } else {
                        // No version lies between the new step and the old bound.
                        assert(step_version(catalog@, steps@, last) == v);
                    }
                }
            }
        }
    }
    steps
}

} // verus!
