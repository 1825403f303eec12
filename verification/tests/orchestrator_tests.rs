use migration_engine::applier::{
    migration_is_empty, render_migration_script, render_steps_pretty,
};
use migration_engine::checksum::sha512_checksum;
use migration_engine::destructive::pure_check;
use migration_engine::differ::diff;
use migration_engine::history::{
    diagnose_migrations_history, HistoryDiagnostic, ImperativeMigration,
};
use migration_engine::migrations_folder::{
    format_folder_name, is_timestamp, sort_migrations, MigrationFolder,
};
use migration_engine::mssql::MssqlFlavour;
use migration_engine::schema::{
    Column, ColumnArity, ColumnType, ColumnTypeFamily, SqlSchema, Table,
};
use migration_engine::schema_push::{
    catch_up_decision, drift_decision, output_from_diagnostics, output_no_changes,
    output_with_radical_measure, CatchUpAction, DriftAction,
};

fn folder(name: &str, script: &str) -> MigrationFolder {
    MigrationFolder::new(name.to_string(), script.to_string())
}

fn applied_row(name: &str, script: &str) -> ImperativeMigration {
    ImperativeMigration {
        name: name.to_string(),
        script: script.to_string(),
        checksum: sha512_checksum(script),
        started_at: Some(1),
        finished_at: Some(2),
        rolled_back_at: None,
    }
}

fn column(name: &str, family: ColumnTypeFamily) -> Column {
    Column {
        name: name.to_string(),
        tpe: ColumnType {
            family,
            arity: ColumnArity::Required,
            native_type: None,
        },
        default: None,
        auto_increment: false,
    }
}

fn table(name: &str, columns: Vec<Column>) -> Table {
    Table {
        name: name.to_string(),
        columns,
        indices: Vec::new(),
        foreign_keys: Vec::new(),
        primary_key: None,
    }
}

fn schema(tables: Vec<Table>) -> SqlSchema {
    SqlSchema {
        tables,
        enums: Vec::new(),
    }
}

#[test]
fn up_to_date_without_drift_proceeds_with_nothing_to_do() {
    // S1: matching histories, no drift, nothing executed.
    let fs = vec![folder("20240101000000_a", "CREATE TABLE a(id int);")];
    let applied = vec![applied_row("20240101000000_a", "CREATE TABLE a(id int);")];
    let diagnostic = diagnose_migrations_history(&fs, &applied);
    assert_eq!(diagnostic, HistoryDiagnostic::UpToDate);
    let action = catch_up_decision(&diagnostic, &fs, &applied, false);
    assert!(matches!(action, CatchUpAction::CheckDrift));
    assert!(matches!(drift_decision(false, false), DriftAction::Proceed));
    let output = output_no_changes();
    assert_eq!(output.executed_steps, 0);
    assert!(output.radical_measure.is_none());
    assert!(output.had_no_changes_to_push());
}

#[test]
fn database_behind_applies_the_unapplied_tail() {
    // S2: the second folder entry is unapplied; the decision is to apply
    // from there on.
    let fs = vec![
        folder("20240101000000_a", "CREATE TABLE a(id int);"),
        folder("20240102000000_b", "CREATE TABLE b(id int);"),
    ];
    let applied = vec![applied_row("20240101000000_a", "CREATE TABLE a(id int);")];
    let diagnostic = diagnose_migrations_history(&fs, &applied);
    let action = catch_up_decision(&diagnostic, &fs, &applied, false);
    match action {
        CatchUpAction::ApplyUnapplied { from } => assert_eq!(from, 1),
        other => panic!("unexpected action: {:?}", other),
    }
}

#[test]
fn filesystem_behind_without_force_is_a_radical_measure() {
    // S3: the folder is behind; without force the orchestrator stops and
    // asks, and the database is untouched.
    let fs = vec![folder("20240101000000_a", "CREATE TABLE a(id int);")];
    let applied = vec![
        applied_row("20240101000000_a", "CREATE TABLE a(id int);"),
        applied_row("20240102000000_b", "CREATE TABLE b(id int);"),
    ];
    let diagnostic = diagnose_migrations_history(&fs, &applied);
    let action = catch_up_decision(&diagnostic, &fs, &applied, false);
    match action {
        CatchUpAction::RadicalMeasure { message } => {
            assert!(message.starts_with("The migrations folder is behind the database."));
            let output = output_with_radical_measure(message);
            assert_eq!(output.executed_steps, 0);
            assert!(output.radical_measure.is_some());
        }
        other => panic!("unexpected action: {:?}", other),
    }
}

#[test]
fn filesystem_behind_with_force_reverts() {
    let fs = vec![folder("20240101000000_a", "CREATE TABLE a(id int);")];
    let applied = vec![
        applied_row("20240101000000_a", "CREATE TABLE a(id int);"),
        applied_row("20240102000000_b", "CREATE TABLE b(id int);"),
    ];
    let diagnostic = diagnose_migrations_history(&fs, &applied);
    let action = catch_up_decision(&diagnostic, &fs, &applied, true);
    match action {
        CatchUpAction::RevertAll { unpersisted_from } => assert_eq!(unpersisted_from, 1),
        other => panic!("unexpected action: {:?}", other),
    }
}

#[test]
fn edited_tail_divergence_has_its_own_message() {
    // S4: folder [A, B'], applied [A, B], same tail name, different
    // checksum.
    let fs = vec![
        folder("20240101000000_a", "CREATE TABLE a(id int);"),
        folder("20240102000000_b", "CREATE TABLE b(id int, x int);"),
    ];
    let applied = vec![
        applied_row("20240101000000_a", "CREATE TABLE a(id int);"),
        applied_row("20240102000000_b", "CREATE TABLE b(id int);"),
    ];
    let diagnostic = diagnose_migrations_history(&fs, &applied);
    assert_eq!(
        diagnostic,
        HistoryDiagnostic::HistoriesDiverge {
            last_applied_filesystem_migration: 0
        }
    );
    let action = catch_up_decision(&diagnostic, &fs, &applied, false);
    match action {
        CatchUpAction::RadicalMeasure { message } => {
            assert_eq!(
                message,
                "The last migration was edited. It will be reverted and applied again. All data in the local database will be lost."
            );
        }
        other => panic!("unexpected action: {:?}", other),
    }
}

#[test]
fn generic_divergence_names_the_last_matched_migration() {
    let fs = vec![
        folder("20240101000000_a", "CREATE TABLE a(id int);"),
        folder("20240102000000_b", "CREATE TABLE b(id int, x int);"),
        folder("20240103000000_c", "CREATE TABLE c(id int);"),
    ];
    let applied = vec![
        applied_row("20240101000000_a", "CREATE TABLE a(id int);"),
        applied_row("20240102000000_b", "CREATE TABLE b(id int);"),
        applied_row("20240103000000_c", "CREATE TABLE c(id int);"),
    ];
    let diagnostic = diagnose_migrations_history(&fs, &applied);
    let action = catch_up_decision(&diagnostic, &fs, &applied, false);
    match action {
        CatchUpAction::RadicalMeasure { message } => {
            assert!(message.contains("`20240101000000_a` migration"));
        }
        other => panic!("unexpected action: {:?}", other),
    }
}

#[test]
fn no_branch_is_destructive_without_force() {
    // P7 on every diagnostic variant.
    let fs = vec![
        folder("20240101000000_a", "CREATE TABLE a(id int);"),
        folder("20240102000000_b", "CREATE TABLE b(id int);"),
    ];
    let applied = vec![
        applied_row("20240101000000_a", "CREATE TABLE a(id int);"),
        applied_row("20240102000000_b", "CREATE TABLE b(id int);"),
    ];
    let diagnostics = vec![
        HistoryDiagnostic::UpToDate,
        HistoryDiagnostic::DatabaseIsBehind { unapplied_from: 1 },
        HistoryDiagnostic::FilesystemIsBehind {
            unpersisted_from: 1,
        },
        HistoryDiagnostic::HistoriesDiverge {
            last_applied_filesystem_migration: 0,
        },
    ];
    for diagnostic in &diagnostics {
        let action = catch_up_decision(diagnostic, &fs, &applied, false);
        assert!(!matches!(
            action,
            CatchUpAction::RevertAll { .. } | CatchUpAction::RevertToAndReplay { .. }
        ));
    }
    assert!(!matches!(
        drift_decision(true, false),
        DriftAction::ApplyDrift
    ));
}

#[test]
fn drift_with_force_is_applied() {
    // S5's gate: with force, drift is applied rather than asked about.
    assert!(matches!(
        drift_decision(true, true),
        DriftAction::ApplyDrift
    ));
    match drift_decision(true, false) {
        DriftAction::Stop { message } => {
            assert_eq!(
                message,
                "Detected drift between dev database and migrations history. Bring them back into sync? (this may imply data loss)"
            );
        }
        other => panic!("unexpected action: {:?}", other),
    }
}

#[test]
fn rendering_a_migration_script() {
    let before = schema(vec![table("old", vec![column("a", ColumnTypeFamily::Int)])]);
    let after = schema(vec![table(
        "users",
        vec![
            column("id", ColumnTypeFamily::Int),
            column("name", ColumnTypeFamily::Text),
        ],
    )]);
    let migration = diff(before, after, &MssqlFlavour);
    let checks = pure_check(&migration);
    let (extension, script) = render_migration_script(&migration, &checks);
    assert_eq!(extension, "sql");
    assert_eq!(
        script,
        "-- You are about to drop the table old, which holds data.\n\
         CREATE TABLE users (id, name);\n\
         DROP TABLE old;\n"
    );
}

#[test]
fn rendering_steps_pretty() {
    let before = schema(Vec::new());
    let after = schema(vec![table("users", vec![column("id", ColumnTypeFamily::Int)])]);
    let migration = diff(before, after, &MssqlFlavour);
    assert!(!migration_is_empty(&migration));
    let pretty = render_steps_pretty(&migration);
    assert_eq!(pretty.len(), 1);
    assert_eq!(pretty[0].step, "CreateTable");
    assert_eq!(pretty[0].raw, "CREATE TABLE users (id);");
}

#[test]
fn empty_migration_renders_an_empty_script() {
    let migration = diff(schema(Vec::new()), schema(Vec::new()), &MssqlFlavour);
    assert!(migration_is_empty(&migration));
    let checks = pure_check(&migration);
    let (extension, script) = render_migration_script(&migration, &checks);
    assert_eq!(extension, "sql");
    assert_eq!(script, "");
}

#[test]
fn output_from_diagnostics_renders_findings() {
    let before = schema(vec![table("old", vec![column("a", ColumnTypeFamily::Int)])]);
    let after = schema(Vec::new());
    let migration = diff(before, after, &MssqlFlavour);
    let checks = pure_check(&migration);
    let output = output_from_diagnostics(1, &migration, &checks);
    assert_eq!(output.executed_steps, 1);
    assert_eq!(
        output.warnings,
        vec!["You are about to drop the table old, which holds data.".to_string()]
    );
    assert!(output.unexecutable.is_empty());
    assert!(output.radical_measure.is_none());
    assert!(!output.had_no_changes_to_push());
}

#[test]
fn sorting_folders_by_id() {
    let entries = vec![
        folder("20240103000000_c", "c"),
        folder("20240101000000_a", "a"),
        folder("20240102000000_b", "b"),
    ];
    let sorted = sort_migrations(entries);
    let ids: Vec<&str> = sorted.iter().map(|f| f.migration_id().as_str()).collect();
    assert_eq!(
        ids,
        vec![
            "20240101000000_a",
            "20240102000000_b",
            "20240103000000_c"
        ]
    );
}

#[test]
fn folder_names_join_timestamp_and_name() {
    assert_eq!(
        format_folder_name("20240101000000", "init"),
        "20240101000000_init"
    );
}

#[test]
fn new_folder_names_carry_the_migration_name() {
    let name = migration_engine::migrations_folder::new_migration_folder_name("draft").unwrap();
    assert!(name.ends_with("_draft"));
    assert_eq!(name.len(), 12 + "_draft".len());
    assert!(name[..12].bytes().all(|b| b.is_ascii_digit()));
}

#[test]
fn timestamp_shape_is_twelve_digits() {
    assert!(is_timestamp("202401010000"));
    assert!(!is_timestamp("2024010100"));
    assert!(!is_timestamp("20240101000a"));
    assert!(!is_timestamp("2024010100000"));
}
