//! The engine: applies the steps of a plan one by one and records the
//! version counter after each.

use crate::catalog::{duplicate, resolve, DbVersion, MigrateError, Migration};
use crate::catalog::{distinct_versions, first_repeat, is_max_version};
use crate::plan::{direction, is_plan, plan, step_version, Direction};
use crate::store::{error_text, execute_script, read_version, set_schema_version};
use rusqlite::Connection;
use vstd::prelude::*;

verus! {

/// How the database answered one step.
#[derive(Debug, Clone, PartialEq, Eq)]
pub enum StepOutcome {
    /// The script ran and the counter was recorded.
    Applied,
    /// The script did not run through; the counter was not written.
    ScriptFailed(String),
    /// The script ran; the counter could not be recorded.
    CounterFailed(String),
}

/// What a run did.
#[derive(Debug, Clone, PartialEq, Eq)]
pub struct Report {
    /// The version counter when the run began.
    pub start: i16,
    /// The version the run was to reach.
    pub target: i16,
    /// The steps of the run, as positions in the catalog.
    pub steps: Vec<usize>,
    /// How many of the steps were applied and recorded, from the first on.
    pub done: usize,
    /// The counter that the last applied step recorded, or `start` where
    /// none was applied.
    pub version: i16,
    /// Why the step after the last applied one failed, if one did.
    pub error: Option<MigrateError>,
}

/// The value a step writes to the counter: the migration's version after
/// `up`, the version before it after `down`.
pub open spec fn recorded(start: int, target: int, version: int) -> int {
    if start < target {
        version
    } else {
        version - 1
    }
}

/// The version counter after the first `done` steps.
pub open spec fn counter_after(
    catalog: Seq<Migration>,
    start: int,
    target: int,
    steps: Seq<usize>,
    done: int,
) -> int {
    if done == 0 {
        start
    } else {
        recorded(start, target, step_version(catalog, steps, done - 1))
    }
}

/// The error of a step on the migration `version`, given how the database
/// answered.
pub open spec fn step_error(version: i16, outcome: StepOutcome) -> Option<MigrateError> {
    match outcome {
        StepOutcome::Applied => None,
        StepOutcome::ScriptFailed(cause) => Some(MigrateError::MigrationFailed { version, cause }),
        StepOutcome::CounterFailed(cause) => Some(
            MigrateError::PartialMigration { version, cause },
        ),
    }
}

/// `error` is a failure of the step on the migration `version`.
pub open spec fn fails_at(error: MigrateError, version: int) -> bool {
    match error {
        MigrateError::MigrationFailed { version: v, .. } => v == version,
        MigrateError::PartialMigration { version: v, .. } => v == version,
        _ => false,
    }
}

/// The report is that of a run over its steps: the applied steps are a
/// prefix of them, the counter is what the last of these recorded, and an
/// error is that of the step that follows the prefix.
pub open spec fn follows(catalog: Seq<Migration>, report: Report) -> bool {
    &&& report.done <= report.steps@.len()
    &&& report.version == counter_after(
        catalog,
        report.start as int,
        report.target as int,
        report.steps@,
        report.done as int,
    )
    &&& report.error matches Some(error) ==> report.done < report.steps@.len() && fails_at(
        error,
        step_version(catalog, report.steps@, report.done as int),
    )
}

/// What a step on the migration `version` amounts to: nothing where it was
/// applied, else the error that names the migration and carries the
/// database's message.
pub fn settle(version: i16, outcome: StepOutcome) -> (r: Option<MigrateError>)
    ensures
        r == step_error(version, outcome),
{
    match outcome {
        StepOutcome::Applied => None,
        StepOutcome::ScriptFailed(cause) => Some(MigrateError::MigrationFailed { version, cause }),
        StepOutcome::CounterFailed(cause) => Some(
            MigrateError::PartialMigration { version, cause },
        ),
    }
}

/// The script of the step that a run takes next: the migration's `up` when
/// upgrading, its `down` when downgrading.
pub open spec fn next_script(catalog: Seq<Migration>, report: Report) -> Seq<char> {
    let migration = catalog[report.steps@[report.done as int] as int];
    if report.start < report.target {
        migration.up@
    } else {
        migration.down@
    }
}

/// The value that the step a run takes next writes to the counter.
pub open spec fn next_counter(catalog: Seq<Migration>, report: Report) -> int {
    recorded(
        report.start as int,
        report.target as int,
        step_version(catalog, report.steps@, report.done as int),
    )
}

/// The run has a step left to take.
pub open spec fn unfinished(report: Report) -> bool {
    report.error.is_none() && report.done < report.steps@.len()
}

/// The report after the step that follows the applied ones, given how the
/// database answered it: one more step applied and its counter recorded, or
/// the error of that step and nothing else changed.
pub open spec fn advanced(catalog: Seq<Migration>, report: Report, outcome: StepOutcome) -> Report {
    match step_error(catalog[report.steps@[report.done as int] as int].version, outcome) {
        None => Report {
            start: report.start,
            target: report.target,
            steps: report.steps,
            done: (report.done + 1) as usize,
            version: next_counter(catalog, report) as i16,
            error: None,
        },
        Some(error) => Report {
            start: report.start,
            target: report.target,
            steps: report.steps,
            done: report.done,
            version: report.version,
            error: Some(error),
        },
    }
}

impl Report {
    /// The report of a run that has not taken a step yet.
    pub fn begin(start: i16, target: i16, steps: Vec<usize>) -> (report: Report)
        ensures
            report == (Report { start, target, steps, done: 0, version: start, error: None }),
    {
        Report { start, target, steps, done: 0, version: start, error: None }
    }

    /// Whether a step is left to take: none has failed and the plan is not
    /// exhausted.
    pub fn has_step_left(&self) -> (r: bool)
        ensures
            r == unfinished(*self),
    {
        self.error.is_none() && self.done < self.steps.len()
    }

    /// What the next step hands to the database: the script to run and the
    /// counter to record after it.
    pub fn instruction<'a>(&self, catalog: &'a Vec<Migration>) -> (r: (&'a str, i16))
        requires
            is_plan(catalog@, self.start as int, self.target as int, self.steps@),
            unfinished(*self),
        ensures
            r.0@ == next_script(catalog@, *self),
            r.1 == next_counter(catalog@, *self),
    {
        let j: usize = self.steps[self.done];
        let migration = &catalog[j];
        match direction(self.start, self.target) {
            Direction::Upgrading => (migration.up.as_str(), migration.version),
            _ => (migration.down.as_str(), migration.version - 1),
        }
    }

    /// The run as a result: the version it reached where no step failed,
    /// else the error of the step that did.
    pub fn outcome(self) -> (r: Result<i16, MigrateError>)
        ensures
            r == match self.error {
                None => Ok::<i16, MigrateError>(self.version),
                Some(error) => Err::<i16, MigrateError>(error),
            },
    {
        match self.error {
            None => Ok(self.version),
            Some(error) => Err(error),
        }
    }

    /// Takes in how the database answered the next step.
    pub fn advance(self, catalog: &Vec<Migration>, outcome: StepOutcome) -> (next: Report)
        requires
            is_plan(catalog@, self.start as int, self.target as int, self.steps@),
            follows(catalog@, self),
            unfinished(self),
        ensures
            next == advanced(catalog@, self, outcome),
            follows(catalog@, next),
    {
        let j: usize = self.steps[self.done];
        let version: i16 = catalog[j].version;
        assert(self.done < self.steps.len());
        match settle(version, outcome) {
            None => {
                let counter: i16 = match direction(self.start, self.target) {
                    Direction::Upgrading => version,
                    _ => version - 1,
                };
                Report {
                    start: self.start,
                    target: self.target,
                    steps: self.steps,
                    done: self.done + 1,
                    version: counter,
                    error: None,
                }
            },
            Some(error) => Report {
                start: self.start,
                target: self.target,
                steps: self.steps,
                done: self.done,
                version: self.version,
                error: Some(error),
            },
        }
    }
}

/// One step against the database, as one transaction: the script first,
/// then the counter, then the commit. Whatever fails, the transaction is
/// rolled back, so that the script and the counter stand together or not at
/// all. A failure before the script has run through counts as the script's,
/// one after it as the counter's.
fn apply(conn: &mut Connection, script: &str, counter: i16) -> (outcome: StepOutcome) {
    match execute_script(conn, "BEGIN") {
        Err(e) => {
            return abandon(conn, Stage::Begin, &e);
        },
        Ok(_) => {},
    }
    match execute_script(conn, script) {
        Err(e) => {
            return abandon(conn, Stage::Script, &e);
        },
        Ok(_) => {},
    }
    match set_schema_version(conn, counter) {
        Err(e) => {
            return abandon(conn, Stage::Counter, &e);
        },
        Ok(_) => {},
    }
    match execute_script(conn, "COMMIT") {
        Err(e) => abandon(conn, Stage::Commit, &e),
        Ok(_) => StepOutcome::Applied,
    }
}

/// The calls that make up one step, in the order in which they are made.
#[derive(Debug, Clone, Copy, PartialEq, Eq, Structural)]
pub enum Stage {
    /// Opening the transaction.
    Begin,
    /// Running the migration's script.
    Script,
    /// Writing the version counter.
    Counter,
    /// Committing the transaction.
    Commit,
}

/// How a step ends where the call of `stage` fails with the message
/// `cause`: as a failure of the script as long as the script has not run
/// through, as a failure of the counter after that.
pub open spec fn failure_of(stage: Stage, cause: String) -> StepOutcome {
    match stage {
        Stage::Begin => StepOutcome::ScriptFailed(cause),
        Stage::Script => StepOutcome::ScriptFailed(cause),
        Stage::Counter => StepOutcome::CounterFailed(cause),
        Stage::Commit => StepOutcome::CounterFailed(cause),
    }
}

/// A transaction is open when the call of `stage` is made: at every call
/// but the one that opens it.
pub open spec fn in_transaction(stage: Stage) -> bool {
    !(stage is Begin)
}

/// The outcome of a step whose call of `stage` failed with the message
/// `cause`.
pub fn failure(stage: Stage, cause: String) -> (outcome: StepOutcome)
    ensures
        outcome == failure_of(stage, cause),
{
    match stage {
        Stage::Begin => StepOutcome::ScriptFailed(cause),
        Stage::Script => StepOutcome::ScriptFailed(cause),
        Stage::Counter => StepOutcome::CounterFailed(cause),
        Stage::Commit => StepOutcome::CounterFailed(cause),
    }
}

/// Whether a failure of the call of `stage` leaves a transaction to roll
/// back.
pub fn rolls_back(stage: Stage) -> (r: bool)
    ensures
        r == in_transaction(stage),
{
    match stage {
        Stage::Begin => false,
        _ => true,
    }
}

/// Ends a step at the call that failed: rolls the transaction back where
/// one is open, and gives the outcome that belongs to the call, with the
/// database's message.
fn abandon(conn: &mut Connection, stage: Stage, error: &rusqlite::Error) -> (outcome: StepOutcome)
    ensures
        exists|cause: String| outcome == failure_of(stage, cause),
{
    if rolls_back(stage) {
        let _undone = execute_script(conn, "ROLLBACK");
    }
    failure(stage, error_text(error))
}

/// Applies the steps of a plan in order and stops at the first that fails.
///
/// A step runs the migration's `up` script and records its version when
/// upgrading, its `down` script and the version before it when downgrading.
/// The steps before a failing one stay applied; none after it is tried.
pub fn run(
    conn: &mut Connection,
    catalog: &Vec<Migration>,
    start: i16,
    target: i16,
    steps: Vec<usize>,
) -> (report: Report)
    requires
        is_plan(catalog@, start as int, target as int, steps@),
    ensures
        report.start == start,
        report.target == target,
        report.steps == steps,
        follows(catalog@, report),
        !unfinished(report),
{
    let mut report = Report::begin(start, target, steps);
    while report.has_step_left()
        invariant
            report.start == start,
            report.target == target,
            report.steps == steps,
            is_plan(catalog@, start as int, target as int, steps@),
            follows(catalog@, report),
        decreases report.steps@.len() - report.done + (if report.error.is_none() {
            1int
        } else {
            0int
        }),
    {
        let (script, counter) = report.instruction(catalog);
        let outcome = apply(conn, script, counter);
        report = report.advance(catalog, outcome);
    }
    report
}

/// Brings the schema from the version the database holds to the target.
///
/// The catalog is checked first, then the target is resolved, then the
/// counter is read; a failure of any of these ends the call before any
/// script has run. Otherwise the plan from the stored version to the target
/// is run, and the report says how far it came.
pub fn migrate(catalog: &Vec<Migration>, conn: &mut Connection, target_version: DbVersion) -> (r:
    Result<Report, MigrateError>)
    ensures
        !distinct_versions(catalog@) ==> exists|j: int|
            first_repeat(catalog@, j) && r == Err::<Report, MigrateError>(
                MigrateError::Config { version: #[trigger] catalog@[j].version },
            ),
        distinct_versions(catalog@) && target_version is Latest && catalog@.len() == 0 ==> r
            == Err::<Report, MigrateError>(MigrateError::EmptyCatalog),
        distinct_versions(catalog@) && !(target_version is Latest && catalog@.len() == 0)
            ==> match r {
            Ok(report) => {
                &&& match target_version {
                    DbVersion::Specific(v) => report.target == v,
                    DbVersion::Latest => is_max_version(catalog@, report.target as int),
                }
                &&& is_plan(catalog@, report.start as int, report.target as int, report.steps@)
                &&& follows(catalog@, report)
                &&& !unfinished(report)
                &&& report.start == report.target ==> report.done == 0 && report.version
                    == report.start && report.error.is_none()
            },
            Err(e) => e is Storage,
        },
{
    match duplicate(catalog) {
        Some(version) => {
            return Err(MigrateError::Config { version });
        },
        None => {},
    }
    let target: i16 = match resolve(&target_version, catalog) {
        Ok(v) => v,
        Err(e) => {
            return Err(e);
        },
    };
    let start: i16 = match read_version(conn) {
        Ok(v) => v,
        Err(e) => {
            return Err(e);
        },
    };
    let steps = plan(catalog, start, target);
    Ok(run(conn, catalog, start, target, steps))
}

} // verus!
