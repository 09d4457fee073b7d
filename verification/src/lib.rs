//! A schema migration engine for SQLite databases.
//!
//! A catalog of versioned migrations, each with a forward and a backward
//! script, is held against the version counter that the database keeps in
//! its header. The engine selects the migrations that lie between the
//! stored version and a requested target and applies them one by one,
//! recording the counter after every step.

pub mod catalog;
pub mod engine;
pub mod laws;
pub mod plan;
pub mod store;

pub use catalog::{duplicate, load, resolve, DbVersion, MigrateError, Migration};
pub use engine::{failure, migrate, rolls_back, run, settle, Report, Stage, StepOutcome};
pub use plan::{direction, plan, Direction};
pub use store::{read_version, stored, write_version};
