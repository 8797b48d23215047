use api_server::bootstrap::{
    bootstrap_start, bootstrap_step, classify_failure, BootstrapEvent, BootstrapFailure,
    BootstrapPhase,
};
use api_server::errors::DatabaseError;

#[test]
fn starts_at_existence_check() {
    assert_eq!(bootstrap_start(), BootstrapPhase::CheckExistence);
}

#[test]
fn fresh_database_trace_reaches_ready() {
    let mut phase = bootstrap_start();
    phase = bootstrap_step(&phase, &BootstrapEvent::ExistenceChecked(false));
    assert_eq!(phase, BootstrapPhase::CreateDatabase);
    phase = bootstrap_step(&phase, &BootstrapEvent::DatabaseCreated);
    assert_eq!(phase, BootstrapPhase::Connect);
    phase = bootstrap_step(&phase, &BootstrapEvent::Connected);
    assert_eq!(phase, BootstrapPhase::ResolveMigrationsDir);
    phase = bootstrap_step(&phase, &BootstrapEvent::MigrationsDirResolved);
    assert_eq!(phase, BootstrapPhase::LoadMigrations);
    phase = bootstrap_step(&phase, &BootstrapEvent::MigratorLoaded);
    assert_eq!(phase, BootstrapPhase::ApplyMigrations);
    phase = bootstrap_step(&phase, &BootstrapEvent::MigrationsApplied);
    assert_eq!(phase, BootstrapPhase::Ready);
}

#[test]
fn existing_database_skips_creation() {
    let phase = bootstrap_step(
        &BootstrapPhase::CheckExistence,
        &BootstrapEvent::ExistenceChecked(true),
    );
    assert_eq!(phase, BootstrapPhase::Connect);
}

#[test]
fn existence_check_error_is_fatal() {
    let phase = bootstrap_step(
        &BootstrapPhase::CheckExistence,
        &BootstrapEvent::ExistenceCheckFailed,
    );
    assert_eq!(
        phase,
        BootstrapPhase::Failed(BootstrapFailure::ExistenceCheck)
    );
}

#[test]
fn creation_error_is_fatal() {
    let phase = bootstrap_step(
        &BootstrapPhase::CreateDatabase,
        &BootstrapEvent::DatabaseCreationFailed,
    );
    assert_eq!(phase, BootstrapPhase::Failed(BootstrapFailure::Creation));
}

#[test]
fn connection_error_is_fatal() {
    let phase = bootstrap_step(&BootstrapPhase::Connect, &BootstrapEvent::ConnectionFailed);
    assert_eq!(phase, BootstrapPhase::Failed(BootstrapFailure::Connection));
}

#[test]
fn missing_environment_is_fatal() {
    let phase = bootstrap_step(
        &BootstrapPhase::ResolveMigrationsDir,
        &BootstrapEvent::MigrationsDirMissing,
    );
    assert_eq!(phase, BootstrapPhase::Failed(BootstrapFailure::Environment));
}

#[test]
fn migrator_load_error_is_fatal() {
    let phase = bootstrap_step(
        &BootstrapPhase::LoadMigrations,
        &BootstrapEvent::MigratorLoadFailed,
    );
    assert_eq!(
        phase,
        BootstrapPhase::Failed(BootstrapFailure::MigrationLoad)
    );
}

#[test]
fn migration_run_error_is_fatal() {
    let phase = bootstrap_step(
        &BootstrapPhase::ApplyMigrations,
        &BootstrapEvent::MigrationApplicationFailed,
    );
    assert_eq!(phase, BootstrapPhase::Failed(BootstrapFailure::MigrationRun));
}

#[test]
fn failure_classification_matches_original_reporting() {
    assert_eq!(
        classify_failure(&BootstrapFailure::Environment),
        Some(DatabaseError::Environment)
    );
    assert_eq!(
        classify_failure(&BootstrapFailure::MigrationLoad),
        Some(DatabaseError::Migration)
    );
    assert_eq!(
        classify_failure(&BootstrapFailure::MigrationRun),
        Some(DatabaseError::Migration)
    );
    assert_eq!(classify_failure(&BootstrapFailure::ExistenceCheck), None);
    assert_eq!(classify_failure(&BootstrapFailure::Creation), None);
    assert_eq!(classify_failure(&BootstrapFailure::Connection), None);
}

#[test]
fn error_messages_name_the_failure_class() {
    assert_eq!(
        DatabaseError::Environment.message(),
        "Failed to load environment error"
    );
    assert_eq!(
        DatabaseError::Migration.message(),
        "Failed to migrate database"
    );
    assert_eq!(
        DatabaseError::DummyData.message(),
        "Failed to create dummy data"
    );
}
