use schema_migration::{
    direction, duplicate, load, plan, resolve, settle, DbVersion, Direction, MigrateError,
    Migration, StepOutcome,
};

fn bare(version: i16) -> Migration {
    Migration::new(version, String::new(), String::new())
}

fn bare_catalog(versions: &[i16]) -> Vec<Migration> {
    versions.iter().map(|v| bare(*v)).collect()
}

#[test]
fn new_keeps_its_parts() {
    let m = Migration::new(7, "up".to_string(), "down".to_string());
    assert_eq!(m.version, 7);
    assert_eq!(m.up, "up");
    assert_eq!(m.down, "down");
}

#[test]
fn load_keeps_distinct_records() {
    let records = bare_catalog(&[3, 1, 2]);
    assert_eq!(load(records.clone()), Ok(records));
    assert_eq!(load(Vec::new()), Ok(Vec::new()));
}

#[test]
fn load_rejects_a_repeated_version() {
    let result = load(bare_catalog(&[1, 2, 3, 2]));
    assert_eq!(result, Err(MigrateError::Config { version: 2 }));
}

#[test]
fn load_names_the_first_repeat() {
    let result = load(bare_catalog(&[5, 4, 4, 5]));
    assert_eq!(result, Err(MigrateError::Config { version: 4 }));
}

#[test]
fn duplicate_finds_none_in_distinct_versions() {
    assert_eq!(duplicate(&bare_catalog(&[1, 2, 3, 4])), None);
    assert_eq!(duplicate(&bare_catalog(&[9, 9])), Some(9));
}

#[test]
fn resolve_keeps_a_specific_version() {
    let all = bare_catalog(&[1, 2, 3, 4]);
    assert_eq!(resolve(&DbVersion::Specific(2), &all), Ok(2));
    assert_eq!(resolve(&DbVersion::Specific(9), &all), Ok(9));
    assert_eq!(resolve(&DbVersion::Specific(-3), &Vec::new()), Ok(-3));
}

#[test]
fn resolve_latest_is_the_maximum() {
    assert_eq!(resolve(&DbVersion::Latest, &bare_catalog(&[1, 2, 3, 4])), Ok(4));
    assert_eq!(resolve(&DbVersion::Latest, &bare_catalog(&[2, 7, 5])), Ok(7));
    assert_eq!(resolve(&DbVersion::Latest, &bare_catalog(&[-4, -9])), Ok(-4));
}

#[test]
fn resolve_latest_fails_on_an_empty_catalog() {
    assert_eq!(resolve(&DbVersion::Latest, &Vec::new()), Err(MigrateError::EmptyCatalog));
}

#[test]
fn direction_compares_the_versions() {
    assert_eq!(direction(2, 2), Direction::UpToDate);
    assert_eq!(direction(0, 4), Direction::Upgrading);
    assert_eq!(direction(3, 1), Direction::Downgrading);
}

#[test]
fn plan_of_an_upgrade_is_bounded_by_the_target() {
    let all = bare_catalog(&[1, 2, 3, 4]);
    assert_eq!(plan(&all, 0, 2), vec![0, 1]);
    assert_eq!(plan(&all, 1, 3), vec![1, 2]);
    assert_eq!(plan(&all, 0, 4), vec![0, 1, 2, 3]);
}

#[test]
fn plan_of_a_downgrade_is_bounded_by_the_target() {
    let all = bare_catalog(&[1, 2, 3, 4]);
    assert_eq!(plan(&all, 3, 1), vec![2, 1]);
    assert_eq!(plan(&all, 4, 0), vec![3, 2, 1, 0]);
    assert_eq!(plan(&all, 4, 3), vec![3]);
}

#[test]
fn plan_is_empty_between_equal_versions() {
    let all = bare_catalog(&[1, 2, 3, 4]);
    assert_eq!(plan(&all, 2, 2), Vec::<usize>::new());
    assert_eq!(plan(&Vec::new(), 0, 5), Vec::<usize>::new());
}

#[test]
fn plan_orders_by_version_and_skips_gaps() {
    let all = bare_catalog(&[30, 10, 20, 50]);
    assert_eq!(plan(&all, 0, 40), vec![1, 2, 0]);
    assert_eq!(plan(&all, 50, 10), vec![3, 0, 2]);
    assert_eq!(plan(&all, 10, 19), Vec::<usize>::new());
}

#[test]
fn plan_reaches_the_limits_of_the_version_range() {
    let all = bare_catalog(&[i16::MIN, 0, i16::MAX]);
    assert_eq!(plan(&all, i16::MIN, i16::MAX), vec![1, 2]);
    assert_eq!(plan(&all, i16::MAX, i16::MIN), vec![2, 1]);
}

#[test]
fn settle_passes_an_applied_step() {
    assert_eq!(settle(3, StepOutcome::Applied), None);
}

#[test]
fn settle_names_the_failed_script() {
    assert_eq!(
        settle(3, StepOutcome::ScriptFailed("syntax".to_string())),
        Some(MigrateError::MigrationFailed { version: 3, cause: "syntax".to_string() })
    );
}

#[test]
fn settle_names_the_unrecorded_step() {
    assert_eq!(
        settle(3, StepOutcome::CounterFailed("locked".to_string())),
        Some(MigrateError::PartialMigration { version: 3, cause: "locked".to_string() })
    );
}
