use db_tester::lifecycle::Action;
use db_tester::lifecycle::Event;
use db_tester::lifecycle::Phase;
use db_tester::lifecycle::ProvisionError;
use db_tester::lifecycle::TestDatabase;
use db_tester::migration::plan;
use db_tester::migration::Migration;
use db_tester::migration::MigrationSource;
use db_tester::store::BackingMode;

fn unit(version: u64, name: &str, sql: &str) -> Migration {
    Migration { version, name: name.to_string(), sql: sql.to_string() }
}

fn memory(token: u64) -> BackingMode {
    BackingMode::InMemory { token }
}

/// Drives one instance from construction to ready, taking the success
/// outcome for every decided action.
fn provision_ok(mode: BackingMode, source: MigrationSource) -> TestDatabase {
    let mut db = TestDatabase::new(mode, source);
    while let Some(action) = db.next_action() {
        let event = match action {
            Action::ClearStale => Event::Cleared,
            Action::CreateStore => Event::StoreCreated,
            Action::ApplyMigration { .. } => Event::Applied,
        };
        db.on_event(event);
    }
    db
}

#[test]
fn empty_source_in_memory_is_ready_with_nothing_pending() {
    let source = MigrationSource::empty();
    let db = provision_ok(memory(1), source);
    assert_eq!(db.phase, Phase::Ready);
    let handle = db.get_pool().expect("a ready instance must yield a handle");
    assert_eq!(handle.schema, Vec::<u64>::new());
    let source_again = MigrationSource::empty();
    assert_eq!(plan(&source_again, &handle.schema), Vec::<usize>::new());
}

#[test]
fn one_script_is_applied_then_the_handle_carries_its_version() {
    let mut source = MigrationSource::empty();
    assert!(source.push(unit(1, "todos", "CREATE TABLE todos(id INTEGER PRIMARY KEY, title TEXT)")));
    let mut db = TestDatabase::new(memory(2), source);
    assert_eq!(db.next_action(), Some(Action::CreateStore));
    db.on_event(Event::StoreCreated);
    assert_eq!(db.phase, Phase::Migrating);
    assert_eq!(db.next_action(), Some(Action::ApplyMigration { index: 0 }));
    assert_eq!(db.source.get(0).sql, "CREATE TABLE todos(id INTEGER PRIMARY KEY, title TEXT)");
    db.on_event(Event::Applied);
    assert_eq!(db.phase, Phase::Ready);
    assert_eq!(db.applied, vec![1]);
    let handle = db.get_pool().expect("a ready instance must yield a handle");
    assert_eq!(handle.schema, vec![1]);
}

#[test]
fn two_instances_with_distinct_tokens_use_distinct_stores() {
    let a = provision_ok(memory(1), MigrationSource::empty());
    let b = provision_ok(memory(2), MigrationSource::empty());
    assert_eq!(a.phase, Phase::Ready);
    assert_eq!(b.phase, Phase::Ready);
    let ha = a.get_pool().unwrap();
    let hb = b.get_pool().unwrap();
    assert_ne!(ha.mode, hb.mode);
}

#[test]
fn a_failing_second_script_is_named_and_only_the_first_is_recorded() {
    let mut source = MigrationSource::empty();
    assert!(source.push(unit(1, "todos", "CREATE TABLE todos(id INTEGER PRIMARY KEY, title TEXT)")));
    assert!(source.push(unit(2, "broken", "CREATE TABLE !!! not sql")));
    let mut db = TestDatabase::new(memory(3), source);
    db.on_event(Event::StoreCreated);
    db.on_event(Event::Applied);
    assert_eq!(db.phase, Phase::Migrating);
    db.on_event(Event::ApplyFailed);
    assert_eq!(db.phase, Phase::Failed(ProvisionError::Migration { version: 2 }));
    assert_eq!(db.applied, vec![1]);
    assert!(db.get_pool().is_none());
}

#[test]
fn fixed_path_clears_the_stale_artifact_before_creating_the_store() {
    let source = MigrationSource::empty();
    let mode = BackingMode::FixedPath { path: "/tmp/db-tester.db".to_string() };
    let mut db = TestDatabase::new(mode, source);
    assert_eq!(db.next_action(), Some(Action::ClearStale));
    db.on_event(Event::Cleared);
    assert_eq!(db.next_action(), Some(Action::CreateStore));
    db.on_event(Event::StoreCreated);
    assert_eq!(db.phase, Phase::Ready);
}

#[test]
fn a_failing_cleanup_is_terminal() {
    let source = MigrationSource::empty();
    let mode = BackingMode::FixedPath { path: "/tmp/db-tester.db".to_string() };
    let mut db = TestDatabase::new(mode, source);
    db.on_event(Event::CleanupFailed);
    assert_eq!(db.phase, Phase::Failed(ProvisionError::Cleanup));
    assert_eq!(db.next_action(), None);
    assert!(db.get_pool().is_none());
}

#[test]
fn a_failing_store_creation_is_terminal() {
    let source = MigrationSource::empty();
    let mut db = TestDatabase::new(memory(4), source);
    db.on_event(Event::StoreFailed);
    assert_eq!(db.phase, Phase::Failed(ProvisionError::StoreCreation));
    assert_eq!(db.next_action(), None);
    assert!(db.get_pool().is_none());
}

#[test]
fn no_handle_exists_before_migrations_complete() {
    let mut source = MigrationSource::empty();
    assert!(source.push(unit(1, "a", "CREATE TABLE a(x INTEGER)")));
    assert!(source.push(unit(2, "b", "CREATE TABLE b(x INTEGER)")));
    let mut db = TestDatabase::new(memory(5), source);
    assert!(!db.is_ready());
    assert!(db.clone().get_pool().is_none());
    db.on_event(Event::StoreCreated);
    assert!(!db.is_ready());
    assert!(db.clone().get_pool().is_none());
    db.on_event(Event::Applied);
    assert!(!db.is_ready());
    assert!(db.clone().get_pool().is_none());
    db.on_event(Event::Applied);
    assert!(db.is_ready());
    assert!(db.get_pool().is_some());
}

#[test]
fn close_is_terminal_and_asks_for_nothing() {
    let mut db = provision_ok(memory(6), MigrationSource::empty());
    db.close();
    assert_eq!(db.phase, Phase::Closed);
    assert_eq!(db.next_action(), None);
    assert!(db.get_pool().is_none());
}

#[test]
fn an_event_the_phase_is_not_waiting_for_changes_nothing() {
    let mut db = TestDatabase::new(memory(7), MigrationSource::empty());
    db.on_event(Event::Applied);
    assert_eq!(db.phase, Phase::Provisioning);
    assert_eq!(db.applied, Vec::<u64>::new());
}
