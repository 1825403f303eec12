use migration_engine::checksum::sha512_checksum;
use migration_engine::history::{
    bytes_equal, diagnose_migrations_history, imperative_migration_from_row,
    next_applied_migration, HistoryDiagnostic, ImperativeMigration,
};
use migration_engine::migrations_folder::MigrationFolder;

fn folder(name: &str, script: &str) -> MigrationFolder {
    MigrationFolder::new(name.to_string(), script.to_string())
}

fn applied_row(name: &str, script: &str) -> ImperativeMigration {
    ImperativeMigration {
        name: name.to_string(),
        script: script.to_string(),
        checksum: sha512_checksum(script),
        started_at: Some(1),
        finished_at: Some(2),
        rolled_back_at: None,
    }
}

fn rolled_back_row(name: &str, script: &str) -> ImperativeMigration {
    ImperativeMigration {
        rolled_back_at: Some(3),
        ..applied_row(name, script)
    }
}

#[test]
fn up_to_date_when_folder_matches_applied() {
    // S1: one folder entry, one matching applied row.
    let fs = vec![folder("20240101000000_a", "CREATE TABLE a(id int);")];
    let applied = vec![applied_row("20240101000000_a", "CREATE TABLE a(id int);")];
    assert_eq!(
        diagnose_migrations_history(&fs, &applied),
        HistoryDiagnostic::UpToDate
    );
}

#[test]
fn database_is_behind_when_applied_is_strict_prefix() {
    // S2: two folder entries, only the first applied.
    let fs = vec![
        folder("20240101000000_a", "CREATE TABLE a(id int);"),
        folder("20240102000000_b", "CREATE TABLE b(id int);"),
    ];
    let applied = vec![applied_row("20240101000000_a", "CREATE TABLE a(id int);")];
    assert_eq!(
        diagnose_migrations_history(&fs, &applied),
        HistoryDiagnostic::DatabaseIsBehind { unapplied_from: 1 }
    );
}

#[test]
fn filesystem_is_behind_when_applied_has_extra_rows() {
    // S3: one folder entry, two applied rows.
    let fs = vec![folder("20240101000000_a", "CREATE TABLE a(id int);")];
    let applied = vec![
        applied_row("20240101000000_a", "CREATE TABLE a(id int);"),
        applied_row("20240102000000_b", "CREATE TABLE b(id int);"),
    ];
    assert_eq!(
        diagnose_migrations_history(&fs, &applied),
        HistoryDiagnostic::FilesystemIsBehind {
            unpersisted_from: 1
        }
    );
}

#[test]
fn histories_diverge_on_edited_tail() {
    // S4: folder [A, B'], applied [A, B], same names, different scripts.
    let fs = vec![
        folder("20240101000000_a", "CREATE TABLE a(id int);"),
        folder("20240102000000_b", "CREATE TABLE b(id int, x int);"),
    ];
    let applied = vec![
        applied_row("20240101000000_a", "CREATE TABLE a(id int);"),
        applied_row("20240102000000_b", "CREATE TABLE b(id int);"),
    ];
    assert_eq!(
        diagnose_migrations_history(&fs, &applied),
        HistoryDiagnostic::HistoriesDiverge {
            last_applied_filesystem_migration: 0
        }
    );
}

#[test]
fn mismatch_without_any_match_is_filesystem_is_behind() {
    let fs = vec![folder("20240101000000_a", "CREATE TABLE a(id int);")];
    let applied = vec![applied_row("20240101000000_z", "CREATE TABLE z(id int);")];
    assert_eq!(
        diagnose_migrations_history(&fs, &applied),
        HistoryDiagnostic::FilesystemIsBehind {
            unpersisted_from: 0
        }
    );
}

#[test]
fn empty_histories_are_up_to_date() {
    let fs: Vec<MigrationFolder> = Vec::new();
    let applied: Vec<ImperativeMigration> = Vec::new();
    assert_eq!(
        diagnose_migrations_history(&fs, &applied),
        HistoryDiagnostic::UpToDate
    );
}

#[test]
fn rolled_back_rows_are_skipped_when_matching() {
    // A rolled back attempt sits between two applied rows; the folder
    // still counts as fully applied.
    let fs = vec![
        folder("20240101000000_a", "CREATE TABLE a(id int);"),
        folder("20240102000000_b", "CREATE TABLE b(id int);"),
    ];
    let applied = vec![
        applied_row("20240101000000_a", "CREATE TABLE a(id int);"),
        rolled_back_row("20240102000000_b", "CREATE TABLE broken;"),
        applied_row("20240102000000_b", "CREATE TABLE b(id int);"),
    ];
    assert_eq!(
        diagnose_migrations_history(&fs, &applied),
        HistoryDiagnostic::UpToDate
    );
}

#[test]
fn next_applied_migration_skips_rolled_back_rows() {
    let applied = vec![
        rolled_back_row("20240101000000_a", "CREATE TABLE a(id int);"),
        applied_row("20240102000000_b", "CREATE TABLE b(id int);"),
    ];
    assert_eq!(next_applied_migration(&applied, 0), Some(1));
    assert_eq!(next_applied_migration(&applied, 2), None);
}

#[test]
fn history_diagnostic_labels() {
    assert_eq!(HistoryDiagnostic::UpToDate.short(), "UpToDate");
    assert_eq!(
        HistoryDiagnostic::DatabaseIsBehind { unapplied_from: 0 }.short(),
        "DatabaseIsBehind"
    );
    assert_eq!(
        HistoryDiagnostic::FilesystemIsBehind {
            unpersisted_from: 0
        }
        .short(),
        "FilesystemIsBehind"
    );
    assert_eq!(
        HistoryDiagnostic::HistoriesDiverge {
            last_applied_filesystem_migration: 0
        }
        .short(),
        "HistoriesDiverge"
    );
}

#[test]
fn checksum_is_a_64_byte_digest_of_the_content() {
    // P3: identical scripts give identical checksums; the digest is not
    // the script itself.
    let a = folder("20240101000000_a", "CREATE TABLE a(id int);");
    let b = folder("20240999999999_b", "CREATE TABLE a(id int);");
    let mut buf_a = Vec::new();
    let mut buf_b = Vec::new();
    a.checksum(&mut buf_a);
    b.checksum(&mut buf_b);
    assert_eq!(buf_a, buf_b);
    assert_eq!(buf_a.len(), 64);
    assert_ne!(buf_a, "CREATE TABLE a(id int);".as_bytes().to_vec());

    let c = folder("20240101000000_c", "CREATE TABLE c(id int);");
    let mut buf_c = Vec::new();
    c.checksum(&mut buf_c);
    assert_ne!(buf_a, buf_c);
}

#[test]
fn matches_applied_migration_compares_by_checksum() {
    let f = folder("20240101000000_a", "CREATE TABLE a(id int);");
    let same = applied_row("other_name", "CREATE TABLE a(id int);");
    let other = applied_row("20240101000000_a", "CREATE TABLE b(id int);");
    assert!(f.matches_applied_migration(&same));
    assert!(!f.matches_applied_migration(&other));
}

#[test]
fn bytes_equal_compares_contents() {
    assert!(bytes_equal(&vec![1, 2, 3], &vec![1, 2, 3]));
    assert!(!bytes_equal(&vec![1, 2, 3], &vec![1, 2, 4]));
    assert!(!bytes_equal(&vec![1, 2], &vec![1, 2, 3]));
    assert!(bytes_equal(&Vec::new(), &Vec::new()));
}

#[test]
fn row_decoding_requires_script_name_and_checksum() {
    let decoded = imperative_migration_from_row(
        Some("script".to_string()),
        Some("name".to_string()),
        Some(vec![1, 2]),
        Some(10),
        None,
        None,
    )
    .unwrap();
    assert_eq!(decoded.script, "script");
    assert_eq!(decoded.name, "name");
    assert_eq!(decoded.checksum, vec![1, 2]);
    assert_eq!(decoded.started_at, Some(10));
    assert_eq!(decoded.finished_at, None);
    assert_eq!(decoded.rolled_back_at, None);

    assert!(imperative_migration_from_row(
        None,
        Some("name".to_string()),
        Some(vec![1]),
        None,
        None,
        None
    )
    .is_none());
    assert!(imperative_migration_from_row(
        Some("script".to_string()),
        Some("name".to_string()),
        None,
        None,
        None,
        None
    )
    .is_none());
}

#[test]
fn the_applied_migrations_table_has_its_canonical_name() {
    assert_eq!(
        migration_engine::history::MIGRATION_TABLE_NAME,
        "_prisma_imperative_migrations"
    );
}

#[test]
fn trailing_rolled_back_rows_do_not_count_as_unpersisted() {
    // A fully matched folder with one trailing rolled-back row is up to
    // date: the leftover check skips rows that were rolled back.
    let fs = vec![folder("20240101000000_a", "CREATE TABLE a(id int);")];
    let applied = vec![
        applied_row("20240101000000_a", "CREATE TABLE a(id int);"),
        rolled_back_row("20240102000000_b", "CREATE TABLE b(id int);"),
    ];
    assert_eq!(
        diagnose_migrations_history(&fs, &applied),
        HistoryDiagnostic::UpToDate
    );
}

#[test]
fn leftover_rows_report_from_the_first_applied_one() {
    // Past the folder's end, a rolled-back row is skipped and the
    // unpersisted tail starts at the next applied row.
    let fs = vec![folder("20240101000000_a", "CREATE TABLE a(id int);")];
    let applied = vec![
        applied_row("20240101000000_a", "CREATE TABLE a(id int);"),
        rolled_back_row("20240102000000_b", "CREATE TABLE b(id int);"),
        applied_row("20240103000000_c", "CREATE TABLE c(id int);"),
    ];
    assert_eq!(
        diagnose_migrations_history(&fs, &applied),
        HistoryDiagnostic::FilesystemIsBehind {
            unpersisted_from: 2
        }
    );
}
