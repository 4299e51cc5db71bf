use db_tester::migration::contains_version;
use db_tester::migration::plan;
use db_tester::migration::Migration;
use db_tester::migration::MigrationSource;

fn unit(version: u64, name: &str, sql: &str) -> Migration {
    Migration { version, name: name.to_string(), sql: sql.to_string() }
}

fn source_of(versions: &[u64]) -> MigrationSource {
    let mut src = MigrationSource::empty();
    for &v in versions {
        assert!(src.push(unit(v, "m", "SELECT 1")));
    }
    src
}

#[test]
fn push_accepts_strictly_increasing_versions() {
    let mut src = MigrationSource::empty();
    assert!(src.push(unit(1, "first", "CREATE TABLE a(x INTEGER)")));
    assert!(src.push(unit(2, "second", "CREATE TABLE b(x INTEGER)")));
    assert!(src.push(unit(10, "third", "CREATE TABLE c(x INTEGER)")));
    assert_eq!(src.len(), 3);
    assert_eq!(src.get(2).version, 10);
    assert_eq!(src.get(2).name, "third");
}

#[test]
fn push_rejects_equal_or_lower_versions() {
    let mut src = MigrationSource::empty();
    assert!(src.push(unit(5, "first", "SELECT 1")));
    assert!(!src.push(unit(5, "same key", "SELECT 1")));
    assert!(!src.push(unit(4, "lower key", "SELECT 1")));
    assert_eq!(src.len(), 1);
}

#[test]
fn contains_version_reports_membership() {
    let applied = vec![1u64, 3, 8];
    assert!(contains_version(&applied, 1));
    assert!(contains_version(&applied, 8));
    assert!(!contains_version(&applied, 2));
    assert!(!contains_version(&Vec::new(), 1));
}

#[test]
fn plan_lists_exactly_the_unapplied_positions_in_order() {
    let src = source_of(&[1, 2, 3]);
    assert_eq!(plan(&src, &Vec::new()), vec![0, 1, 2]);
    assert_eq!(plan(&src, &vec![1]), vec![1, 2]);
    assert_eq!(plan(&src, &vec![1, 2]), vec![2]);
    assert_eq!(plan(&src, &vec![1, 2, 3]), Vec::<usize>::new());
}

#[test]
fn plan_ignores_recorded_versions_absent_from_the_source() {
    let src = source_of(&[1, 3]);
    assert_eq!(plan(&src, &vec![2]), vec![0, 1]);
}

#[test]
fn plan_on_an_empty_source_is_empty() {
    let src = MigrationSource::empty();
    assert_eq!(plan(&src, &Vec::new()), Vec::<usize>::new());
    assert_eq!(plan(&src, &vec![1, 2]), Vec::<usize>::new());
}
