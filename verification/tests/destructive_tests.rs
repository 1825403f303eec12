use migration_engine::destructive::{check, column_change_risk, pure_check, UnexecutableKind, WarningKind};
use migration_engine::differ::diff;
use migration_engine::mssql::{ColumnTypeChange, MssqlFlavour};
use migration_engine::schema::{
    Column, ColumnArity, ColumnType, ColumnTypeFamily, SqlSchema, Table,
};
use migration_engine::schema_push::{should_apply, SchemaPushInput};

fn column(name: &str, family: ColumnTypeFamily, arity: ColumnArity) -> Column {
    Column {
        name: name.to_string(),
        tpe: ColumnType {
            family,
            arity,
            native_type: None,
        },
        default: None,
        auto_increment: false,
    }
}

fn table(name: &str, columns: Vec<Column>) -> Table {
    Table {
        name: name.to_string(),
        columns,
        indices: Vec::new(),
        foreign_keys: Vec::new(),
        primary_key: None,
    }
}

fn schema(tables: Vec<Table>) -> SqlSchema {
    SqlSchema {
        tables,
        enums: Vec::new(),
    }
}

fn input(force: bool, accept_data_loss: bool) -> SchemaPushInput {
    SchemaPushInput {
        schema: String::new(),
        force,
        accept_data_loss,
        draft: false,
        migrations_folder_path: None,
    }
}

#[test]
fn not_castable_type_change_is_unexecutable_on_a_non_empty_table() {
    // S6: column c goes from the string family to the int family on a
    // non-empty table.
    let before = schema(vec![table(
        "t",
        vec![column("c", ColumnTypeFamily::Text, ColumnArity::Required)],
    )]);
    let after = schema(vec![table(
        "t",
        vec![column("c", ColumnTypeFamily::Int, ColumnArity::Required)],
    )]);
    let migration = diff(before, after, &MssqlFlavour);
    let checks = check(&migration, &vec![true]);
    assert_eq!(checks.unexecutable_migrations.len(), 1);
    assert_eq!(
        checks.unexecutable_migrations[0].kind,
        UnexecutableKind::NotCastableTypeChange
    );
    // should_apply is false regardless of accept_data_loss.
    assert!(!should_apply(&checks, &input(false, false)));
    assert!(!should_apply(&checks, &input(false, true)));
    assert!(!should_apply(&checks, &input(true, true)));
}

#[test]
fn not_castable_type_change_on_an_empty_table_is_not_blocked() {
    let before = schema(vec![table(
        "t",
        vec![column("c", ColumnTypeFamily::Text, ColumnArity::Required)],
    )]);
    let after = schema(vec![table(
        "t",
        vec![column("c", ColumnTypeFamily::Int, ColumnArity::Required)],
    )]);
    let migration = diff(before, after, &MssqlFlavour);
    let checks = check(&migration, &vec![false]);
    assert!(checks.unexecutable_migrations.is_empty());
}

#[test]
fn dropping_a_table_with_data_warns() {
    let before = schema(vec![table(
        "t",
        vec![column("c", ColumnTypeFamily::Int, ColumnArity::Required)],
    )]);
    let after = schema(Vec::new());
    let migration = diff(before, after, &MssqlFlavour);
    let checks = pure_check(&migration);
    assert_eq!(checks.warnings.len(), 1);
    assert_eq!(checks.warnings[0].kind, WarningKind::DropTable);
}

#[test]
fn dropping_a_column_with_data_warns() {
    let before = schema(vec![table(
        "t",
        vec![
            column("a", ColumnTypeFamily::Int, ColumnArity::Required),
            column("b", ColumnTypeFamily::Int, ColumnArity::Required),
        ],
    )]);
    let after = schema(vec![table(
        "t",
        vec![column("a", ColumnTypeFamily::Int, ColumnArity::Required)],
    )]);
    let migration = diff(before, after, &MssqlFlavour);
    let checks = pure_check(&migration);
    assert_eq!(checks.warnings.len(), 1);
    assert_eq!(checks.warnings[0].kind, WarningKind::DropColumn);
}

#[test]
fn adding_a_required_column_without_default_is_unexecutable() {
    let before = schema(vec![table(
        "t",
        vec![column("a", ColumnTypeFamily::Int, ColumnArity::Required)],
    )]);
    let after = schema(vec![table(
        "t",
        vec![
            column("a", ColumnTypeFamily::Int, ColumnArity::Required),
            column("b", ColumnTypeFamily::Int, ColumnArity::Required),
        ],
    )]);
    let migration = diff(before, after, &MssqlFlavour);
    let checks = pure_check(&migration);
    assert_eq!(checks.unexecutable_migrations.len(), 1);
    assert_eq!(
        checks.unexecutable_migrations[0].kind,
        UnexecutableKind::AddRequiredColumnWithoutDefault
    );
}

#[test]
fn nullable_to_required_is_never_a_safe_cast() {
    // P6 on concrete columns: same family, tightened arity.
    let p = column("c", ColumnTypeFamily::Int, ColumnArity::Nullable);
    let n = column("c", ColumnTypeFamily::Int, ColumnArity::Required);
    assert_ne!(column_change_risk(&p, &n), ColumnTypeChange::SafeCast);

    // Even with a family change that would be safe on its own.
    let p2 = column("c", ColumnTypeFamily::Int, ColumnArity::Nullable);
    let n2 = column("c", ColumnTypeFamily::Text, ColumnArity::Required);
    assert_ne!(column_change_risk(&p2, &n2), ColumnTypeChange::SafeCast);
}

#[test]
fn tightened_nullability_warns_on_a_non_empty_table() {
    let before = schema(vec![table(
        "t",
        vec![column("c", ColumnTypeFamily::Int, ColumnArity::Nullable)],
    )]);
    let after = schema(vec![table(
        "t",
        vec![column("c", ColumnTypeFamily::Int, ColumnArity::Required)],
    )]);
    let migration = diff(before, after, &MssqlFlavour);
    let checks = pure_check(&migration);
    assert_eq!(checks.warnings.len(), 1);
    assert_eq!(checks.warnings[0].kind, WarningKind::RiskyAlterColumn);
}

#[test]
fn warnings_alone_block_only_without_accept_data_loss() {
    let before = schema(vec![table(
        "t",
        vec![column("c", ColumnTypeFamily::Int, ColumnArity::Required)],
    )]);
    let after = schema(Vec::new());
    let migration = diff(before, after, &MssqlFlavour);
    let checks = pure_check(&migration);
    assert!(!checks.warnings.is_empty());
    assert!(checks.unexecutable_migrations.is_empty());
    assert!(!should_apply(&checks, &input(false, false)));
    assert!(should_apply(&checks, &input(false, true)));
}

#[test]
fn a_clean_migration_may_be_applied() {
    let before = schema(Vec::new());
    let after = schema(vec![table(
        "t",
        vec![column("c", ColumnTypeFamily::Int, ColumnArity::Required)],
    )]);
    let migration = diff(before, after, &MssqlFlavour);
    let checks = pure_check(&migration);
    assert!(checks.warnings.is_empty());
    assert!(checks.unexecutable_migrations.is_empty());
    assert!(should_apply(&checks, &input(false, false)));
}
