use schema_migration::plan::{highest_in, lowest_in};
use schema_migration::{
    failure, plan, rolls_back, stored, MigrateError, Migration, Report, Stage, StepOutcome,
};

fn scripted(version: i16) -> Migration {
    Migration::new(version, format!("up {}", version), format!("down {}", version))
}

fn scripted_catalog(versions: &[i16]) -> Vec<Migration> {
    versions.iter().map(|v| scripted(*v)).collect()
}

#[test]
fn lowest_in_finds_the_next_version_up() {
    let all = scripted_catalog(&[4, 2, 9, 2, 7]);
    assert_eq!(lowest_in(&all, 0, 9), Some(1));
    assert_eq!(lowest_in(&all, 2, 9), Some(0));
    assert_eq!(lowest_in(&all, 4, 9), Some(4));
    assert_eq!(lowest_in(&all, 4, 6), None);
    assert_eq!(lowest_in(&all, 9, 20), None);
    assert_eq!(lowest_in(&Vec::new(), 0, 9), None);
}

#[test]
fn highest_in_finds_the_next_version_down() {
    let all = scripted_catalog(&[4, 2, 9, 9, 7]);
    assert_eq!(highest_in(&all, 0, 9), Some(2));
    assert_eq!(highest_in(&all, 0, 8), Some(4));
    assert_eq!(highest_in(&all, 2, 4), Some(0));
    assert_eq!(highest_in(&all, 4, 6), None);
    assert_eq!(highest_in(&all, 9, 20), None);
}

#[test]
fn begin_has_taken_no_step() {
    let report = Report::begin(3, 5, vec![1, 0]);
    assert_eq!(report.start, 3);
    assert_eq!(report.target, 5);
    assert_eq!(report.steps, vec![1, 0]);
    assert_eq!(report.done, 0);
    assert_eq!(report.version, 3);
    assert_eq!(report.error, None);
    assert!(report.has_step_left());
    assert!(!Report::begin(3, 3, Vec::new()).has_step_left());
}

#[test]
fn instruction_of_an_upgrade_is_the_up_script() {
    let all = scripted_catalog(&[1, 2, 3, 4]);
    let report = Report::begin(0, 2, plan(&all, 0, 2));
    assert_eq!(report.instruction(&all), ("up 1", 1));
    let report = report.advance(&all, StepOutcome::Applied);
    assert_eq!(report.done, 1);
    assert_eq!(report.version, 1);
    assert_eq!(report.instruction(&all), ("up 2", 2));
    let report = report.advance(&all, StepOutcome::Applied);
    assert_eq!(report.done, 2);
    assert_eq!(report.version, 2);
    assert_eq!(report.error, None);
    assert!(!report.has_step_left());
    assert_eq!(report.outcome(), Ok(2));
}

#[test]
fn instruction_of_a_downgrade_is_the_down_script() {
    let all = scripted_catalog(&[1, 2, 3, 4]);
    let report = Report::begin(3, 1, plan(&all, 3, 1));
    assert_eq!(report.instruction(&all), ("down 3", 2));
    let report = report.advance(&all, StepOutcome::Applied);
    assert_eq!(report.version, 2);
    assert_eq!(report.instruction(&all), ("down 2", 1));
    let report = report.advance(&all, StepOutcome::Applied);
    assert_eq!(report.done, 2);
    assert_eq!(report.version, 1);
    assert!(!report.has_step_left());
}

#[test]
fn failed_script_ends_the_run_where_it_stood() {
    let all = scripted_catalog(&[1, 2, 3, 4]);
    let report = Report::begin(0, 4, plan(&all, 0, 4));
    let report = report.advance(&all, StepOutcome::Applied);
    let report = report.advance(&all, StepOutcome::ScriptFailed("syntax".to_string()));
    assert_eq!(report.steps, vec![0, 1, 2, 3]);
    assert_eq!(report.done, 1);
    assert_eq!(report.version, 1);
    assert_eq!(
        report.error,
        Some(MigrateError::MigrationFailed { version: 2, cause: "syntax".to_string() })
    );
    assert!(!report.has_step_left());
    assert_eq!(
        report.outcome(),
        Err(MigrateError::MigrationFailed { version: 2, cause: "syntax".to_string() })
    );
}

#[test]
fn unrecorded_counter_ends_the_run_where_it_stood() {
    let all = scripted_catalog(&[1, 2, 3]);
    let report = Report::begin(3, 0, plan(&all, 3, 0));
    let report = report.advance(&all, StepOutcome::Applied);
    let report = report.advance(&all, StepOutcome::CounterFailed("locked".to_string()));
    assert_eq!(report.done, 1);
    assert_eq!(report.version, 2);
    assert_eq!(
        report.error,
        Some(MigrateError::PartialMigration { version: 2, cause: "locked".to_string() })
    );
    assert!(!report.has_step_left());
}

#[test]
fn round_trip_pairs_the_scripts_of_one_migration() {
    let all = scripted_catalog(&[1, 2, 3]);
    let up = Report::begin(1, 2, plan(&all, 1, 2));
    assert_eq!(up.steps, vec![1]);
    assert_eq!(up.instruction(&all), ("up 2", 2));
    let down = Report::begin(2, 1, plan(&all, 2, 1));
    assert_eq!(down.steps, vec![1]);
    assert_eq!(down.instruction(&all), ("down 2", 1));
}

#[test]
fn failure_before_the_script_has_run_is_the_scripts() {
    assert_eq!(
        failure(Stage::Begin, "busy".to_string()),
        StepOutcome::ScriptFailed("busy".to_string())
    );
    assert_eq!(
        failure(Stage::Script, "syntax".to_string()),
        StepOutcome::ScriptFailed("syntax".to_string())
    );
}

#[test]
fn failure_after_the_script_has_run_is_the_counters() {
    assert_eq!(
        failure(Stage::Counter, "read-only".to_string()),
        StepOutcome::CounterFailed("read-only".to_string())
    );
    assert_eq!(
        failure(Stage::Commit, "full".to_string()),
        StepOutcome::CounterFailed("full".to_string())
    );
}

#[test]
fn only_an_open_transaction_is_rolled_back() {
    assert!(!rolls_back(Stage::Begin));
    assert!(rolls_back(Stage::Script));
    assert!(rolls_back(Stage::Counter));
    assert!(rolls_back(Stage::Commit));
}

#[test]
fn stored_passes_the_value_on() {
    assert_eq!(stored(Ok::<i16, String>(7)), Ok(7));
    assert_eq!(stored(Ok::<i16, String>(-1)), Ok(-1));
    assert_eq!(stored(Ok::<(), String>(())), Ok(()));
}

#[test]
fn stored_turns_a_message_into_a_storage_error() {
    assert_eq!(
        stored(Err::<i16, String>("locked".to_string())),
        Err(MigrateError::Storage { cause: "locked".to_string() })
    );
    assert_eq!(
        stored(Err::<(), String>("full".to_string())),
        Err(MigrateError::Storage { cause: "full".to_string() })
    );
}
