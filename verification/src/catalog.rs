//! The migration catalog: its entries, the requested target and the errors
//! of the engine.

use vstd::prelude::*;

verus! {

/// The version a caller asks the schema to be brought to.
#[derive(Debug, Clone, Copy)]
pub enum DbVersion {
    /// Exactly this version, whether or not the catalog holds it.
    Specific(i16),
    /// The highest version that the catalog holds.
    Latest,
}

/// One step of the schema lineage.
#[derive(Debug, Clone, PartialEq, Eq)]
pub struct Migration {
    /// The version the schema has once `up` has run.
    pub version: i16,
    /// The script that takes the schema to `version`.
    pub up: String,
    /// The script that takes the schema from `version` back to `version - 1`.
    pub down: String,
}

/// Why a migration run did not take place or did not finish.
#[derive(Debug, Clone, PartialEq, Eq)]
pub enum MigrateError {
    /// The catalog holds `version` more than once.
    Config { version: i16 },
    /// The latest version was asked for and the catalog is empty.
    EmptyCatalog,
    /// The version counter could not be read.
    Storage { cause: String },
    /// The script of the migration `version` did not run through; the
    /// counter was not touched by this step.
    MigrationFailed { version: i16, cause: String },
    /// The script of the migration `version` ran, and the counter could not
    /// be recorded after it: the schema and the counter may disagree.
    PartialMigration { version: i16, cause: String },
}

/// No two entries of the catalog have the same version.
pub open spec fn distinct_versions(catalog: Seq<Migration>) -> bool {
    forall|i: int, j: int|
        0 <= i < j < catalog.len() ==> catalog[i].version != catalog[j].version
}

/// The entry at `j` has the version of an entry before it.
pub open spec fn repeats_at(catalog: Seq<Migration>, j: int) -> bool {
    exists|i: int| 0 <= i < j && catalog[i].version == catalog[j].version
}

/// `j` is the position of the first entry that repeats an earlier version.
pub open spec fn first_repeat(catalog: Seq<Migration>, j: int) -> bool {
    &&& 0 <= j < catalog.len()
    &&& repeats_at(catalog, j)
    &&& forall|k: int| 0 <= k < j ==> !repeats_at(catalog, k)
}

/// `v` is a version of the catalog and no entry has a higher one.
pub open spec fn is_max_version(catalog: Seq<Migration>, v: int) -> bool {
    &&& exists|i: int| 0 <= i < catalog.len() && catalog[i].version == v
    &&& forall|i: int| 0 <= i < catalog.len() ==> catalog[i].version <= v
}

impl Migration {
    /// A migration from its three parts.
    pub fn new(version: i16, up: String, down: String) -> (m: Migration)
        ensures
            m == (Migration { version, up, down }),
    {
        Migration { version, up, down }
    }
}

/// Accepts the records of a configuration as a catalog.
///
/// The records come back unchanged, in their order, when no version occurs
/// twice. Otherwise the error names the version of the first entry that
/// repeats an earlier one.
pub fn load(records: Vec<Migration>) -> (r: Result<Vec<Migration>, MigrateError>)
    ensures
        distinct_versions(records@) ==> r == Ok::<Vec<Migration>, MigrateError>(records),
        !distinct_versions(records@) ==> exists|j: int|
            first_repeat(records@, j) && r == Err::<Vec<Migration>, MigrateError>(
                MigrateError::Config { version: #[trigger] records@[j].version },
            ),
{
    match duplicate(&records) {
        Some(version) => Err(MigrateError::Config { version }),
        None => Ok(records),
    }
}

/// The version of the first entry that repeats an earlier one, if any.
pub fn duplicate(catalog: &Vec<Migration>) -> (r: Option<i16>)
    ensures
        distinct_versions(catalog@) <==> r.is_none(),
        r matches Some(v) ==> exists|j: int|
            first_repeat(catalog@, j) && v == #[trigger] catalog@[j].version,
{
    let mut j: usize = 0;
    while j < catalog.len()
        invariant
            j <= catalog.len(),
            forall|k: int| 0 <= k < j ==> !repeats_at(catalog@, k),
        decreases catalog.len() - j,
    {
        let mut i: usize = 0;
        while i < j
            invariant
                i <= j,
                j < catalog.len(),
                forall|k: int| 0 <= k < j ==> !repeats_at(catalog@, k),
                forall|k: int| 0 <= k < i ==> catalog@[k].version != catalog@[j as int].version,
            decreases j - i,
        {
            if catalog[i].version == catalog[j].version {
                return Some(catalog[j].version);
            }
            i += 1;
        }
        j += 1;
    }
    assert(distinct_versions(catalog@)) by {
        assert forall|a: int, b: int| 0 <= a < b < catalog@.len() implies catalog@[a].version
            != catalog@[b].version by {
            assert(!repeats_at(catalog@, b));
        }
    }
    None
}

/// The version that a requested target stands for.
///
/// A specific version is returned as it is; the catalog is not asked whether
/// it holds it. The latest version is the highest of the catalog, and an
/// error where the catalog is empty.
pub fn resolve(target: &DbVersion, catalog: &Vec<Migration>) -> (r: Result<i16, MigrateError>)
    ensures
        match *target {
            DbVersion::Specific(v) => r == Ok::<i16, MigrateError>(v),
            DbVersion::Latest => if catalog@.len() == 0 {
                r == Err::<i16, MigrateError>(MigrateError::EmptyCatalog)
            } else {
                r matches Ok(v) && is_max_version(catalog@, v as int)
            },
        },
{
    match *target {
        DbVersion::Specific(v) => Ok(v),
        DbVersion::Latest => {
            if catalog.len() == 0 {
                return Err(MigrateError::EmptyCatalog);
            }
            let mut best: i16 = catalog[0].version;
            let mut i: usize = 1;
            while i < catalog.len()
                invariant
                    1 <= i <= catalog.len(),
                    exists|k: int| 0 <= k < i && catalog@[k].version == best,
                    forall|k: int| 0 <= k < i ==> catalog@[k].version <= best,
                decreases catalog.len() - i,
            {
                if catalog[i].version > best {
                    best = catalog[i].version;
                }
                i += 1;
            }
            Ok(best)
        },
    }
}

} // verus!
