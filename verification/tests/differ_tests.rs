use migration_engine::differ::{detect_drift, diff, SqlMigrationStep, TablePair};
use migration_engine::mssql::{
    native_type_change_riskyness, type_change_riskyness, ColumnTypeChange, DecimalParams,
    MsSqlType, MsSqlTypeParameter, MssqlFlavour,
};
use migration_engine::schema::{
    Column, ColumnArity, ColumnType, ColumnTypeFamily, Enum, ForeignKey, ForeignKeyAction, Index,
    IndexType, SqlSchema, Table,
};

fn column(name: &str, family: ColumnTypeFamily) -> Column {
    Column {
        name: name.to_string(),
        tpe: ColumnType {
            family,
            arity: ColumnArity::Required,
            native_type: None,
        },
        default: None,
        auto_increment: false,
    }
}

fn table(name: &str, columns: Vec<Column>) -> Table {
    Table {
        name: name.to_string(),
        columns,
        indices: Vec::new(),
        foreign_keys: Vec::new(),
        primary_key: None,
    }
}

fn schema(tables: Vec<Table>) -> SqlSchema {
    SqlSchema {
        tables,
        enums: Vec::new(),
    }
}

fn users_schema() -> SqlSchema {
    schema(vec![table(
        "users",
        vec![
            column("id", ColumnTypeFamily::Int),
            column("name", ColumnTypeFamily::Text),
        ],
    )])
}

#[test]
fn diff_of_a_schema_with_itself_is_empty() {
    // P1 on a concrete schema.
    let migration = diff(users_schema(), users_schema(), &MssqlFlavour);
    assert!(migration.steps.is_empty());
    assert!(migration.redefined_tables.is_empty());
}

#[test]
fn diff_from_empty_creates_every_table_and_enum() {
    // P2's creation half on a concrete schema.
    let empty = schema(Vec::new());
    let mut target = users_schema();
    target.enums.push(Enum {
        name: "color".to_string(),
        values: vec!["red".to_string(), "blue".to_string()],
    });
    let migration = diff(empty, target, &MssqlFlavour);
    assert_eq!(
        migration.steps,
        vec![
            SqlMigrationStep::CreateEnum { enum_index: 0 },
            SqlMigrationStep::CreateTable { table_index: 0 },
        ]
    );
}

#[test]
fn drift_between_live_and_shadow_drops_the_extra_column() {
    // S5's diff: live has t(x int, y text), the folder's end state has
    // t(x int); the drift migration drops y.
    let live = schema(vec![table(
        "t",
        vec![
            column("x", ColumnTypeFamily::Int),
            column("y", ColumnTypeFamily::Text),
        ],
    )]);
    let shadow = schema(vec![table("t", vec![column("x", ColumnTypeFamily::Int)])]);
    let drift = detect_drift(live, shadow, &MssqlFlavour).unwrap();
    assert_eq!(
        drift.steps,
        vec![SqlMigrationStep::DropColumn {
            pair: TablePair {
                previous: 0,
                next: 0
            },
            column_index: 1,
        }]
    );
}

#[test]
fn no_drift_between_equal_schemas() {
    assert!(detect_drift(users_schema(), users_schema(), &MssqlFlavour).is_none());
}

#[test]
fn changed_column_yields_alter_column_step() {
    let mut next = users_schema();
    next.tables[0].columns[1].tpe.family = ColumnTypeFamily::Int;
    let migration = diff(users_schema(), next, &MssqlFlavour);
    assert_eq!(
        migration.steps,
        vec![SqlMigrationStep::AlterColumn {
            pair: TablePair {
                previous: 0,
                next: 0
            },
            previous_column: 1,
            next_column: 1,
        }]
    );
}

#[test]
fn autoincrement_change_redefines_the_table() {
    let mut next = users_schema();
    next.tables[0].columns[0].auto_increment = true;
    let migration = diff(users_schema(), next, &MssqlFlavour);
    assert_eq!(
        migration.redefined_tables,
        vec![TablePair {
            previous: 0,
            next: 0
        }]
    );
    assert_eq!(migration.steps, vec![SqlMigrationStep::RedefineTables]);
}

#[test]
fn dropped_table_yields_drop_table_step() {
    let migration = diff(users_schema(), schema(Vec::new()), &MssqlFlavour);
    assert_eq!(
        migration.steps,
        vec![SqlMigrationStep::DropTable { table_index: 0 }]
    );
}

#[test]
fn family_level_risk_table() {
    // Anything to the string family is safe; string to int, string to
    // float and date-time to float cannot be cast; the rest is risky.
    assert_eq!(
        type_change_riskyness(&ColumnTypeFamily::Int, &ColumnTypeFamily::Text),
        ColumnTypeChange::SafeCast
    );
    assert_eq!(
        type_change_riskyness(&ColumnTypeFamily::Text, &ColumnTypeFamily::Int),
        ColumnTypeChange::NotCastable
    );
    assert_eq!(
        type_change_riskyness(&ColumnTypeFamily::DateTime, &ColumnTypeFamily::Float),
        ColumnTypeChange::NotCastable
    );
    assert_eq!(
        type_change_riskyness(&ColumnTypeFamily::Text, &ColumnTypeFamily::Float),
        ColumnTypeChange::NotCastable
    );
    assert_eq!(
        type_change_riskyness(&ColumnTypeFamily::Int, &ColumnTypeFamily::Boolean),
        ColumnTypeChange::RiskyCast
    );
}

#[test]
fn native_matrix_bit_row() {
    let int_family = ColumnTypeFamily::Int;
    assert_eq!(
        native_type_change_riskyness(
            Some(MsSqlType::Bit),
            Some(MsSqlType::TinyInt),
            &int_family,
            &int_family
        ),
        ColumnTypeChange::SafeCast
    );
    assert_eq!(
        native_type_change_riskyness(
            Some(MsSqlType::Bit),
            Some(MsSqlType::Text),
            &int_family,
            &int_family
        ),
        ColumnTypeChange::NotCastable
    );
    assert_eq!(
        native_type_change_riskyness(
            Some(MsSqlType::Bit),
            Some(MsSqlType::Bit),
            &int_family,
            &int_family
        ),
        ColumnTypeChange::SafeCast
    );
}

#[test]
fn native_matrix_decimal_parameters() {
    let int_family = ColumnTypeFamily::Int;
    // SmallInt needs five integral digits: p - s < 5 is risky.
    assert_eq!(
        native_type_change_riskyness(
            Some(MsSqlType::SmallInt),
            Some(MsSqlType::Decimal(Some(DecimalParams {
                precision: 6,
                scale: 2
            }))),
            &int_family,
            &int_family
        ),
        ColumnTypeChange::RiskyCast
    );
    assert_eq!(
        native_type_change_riskyness(
            Some(MsSqlType::SmallInt),
            Some(MsSqlType::Decimal(Some(DecimalParams {
                precision: 7,
                scale: 2
            }))),
            &int_family,
            &int_family
        ),
        ColumnTypeChange::SafeCast
    );
}

#[test]
fn native_matrix_int_to_binary() {
    let int_family = ColumnTypeFamily::Int;
    // An int needs four bytes: n < 4 is risky.
    assert_eq!(
        native_type_change_riskyness(
            Some(MsSqlType::Int),
            Some(MsSqlType::Binary(Some(3))),
            &int_family,
            &int_family
        ),
        ColumnTypeChange::RiskyCast
    );
    assert_eq!(
        native_type_change_riskyness(
            Some(MsSqlType::Int),
            Some(MsSqlType::Binary(Some(4))),
            &int_family,
            &int_family
        ),
        ColumnTypeChange::SafeCast
    );
}

#[test]
fn native_matrix_text_to_varchar_max() {
    let text_family = ColumnTypeFamily::Text;
    assert_eq!(
        native_type_change_riskyness(
            Some(MsSqlType::Text),
            Some(MsSqlType::VarChar(Some(MsSqlTypeParameter::Max))),
            &text_family,
            &text_family
        ),
        ColumnTypeChange::SafeCast
    );
    assert_eq!(
        native_type_change_riskyness(
            Some(MsSqlType::NText),
            Some(MsSqlType::VarChar(Some(MsSqlTypeParameter::Max))),
            &text_family,
            &text_family
        ),
        ColumnTypeChange::RiskyCast
    );
}

#[test]
fn missing_native_type_falls_back_to_the_family_table() {
    assert_eq!(
        native_type_change_riskyness(
            None,
            Some(MsSqlType::Int),
            &ColumnTypeFamily::Text,
            &ColumnTypeFamily::Int
        ),
        ColumnTypeChange::NotCastable
    );
}

#[test]
fn added_foreign_key_yields_add_foreign_key_step() {
    let prev = schema(vec![
        table("users", vec![column("id", ColumnTypeFamily::Int)]),
        table(
            "posts",
            vec![
                column("id", ColumnTypeFamily::Int),
                column("author", ColumnTypeFamily::Int),
            ],
        ),
    ]);
    let mut next_schema = schema(vec![
        table("users", vec![column("id", ColumnTypeFamily::Int)]),
        table(
            "posts",
            vec![
                column("id", ColumnTypeFamily::Int),
                column("author", ColumnTypeFamily::Int),
            ],
        ),
    ]);
    next_schema.tables[1].foreign_keys.push(ForeignKey {
        constraint_name: Some("posts_author_fkey".to_string()),
        columns: vec!["author".to_string()],
        referenced_table: "users".to_string(),
        referenced_columns: vec!["id".to_string()],
        on_delete_action: ForeignKeyAction::NoAction,
        on_update_action: ForeignKeyAction::NoAction,
    });
    let migration = diff(prev, next_schema, &MssqlFlavour);
    assert_eq!(
        migration.steps,
        vec![SqlMigrationStep::AddForeignKey {
            table_index: 1,
            foreign_key_index: 0,
        }]
    );
}

#[test]
fn dropped_index_yields_drop_index_step() {
    let mut prev = users_schema();
    prev.tables[0].indices.push(Index {
        name: "users_name_idx".to_string(),
        columns: vec!["name".to_string()],
        tpe: IndexType::Normal,
    });
    let migration = diff(prev, users_schema(), &MssqlFlavour);
    assert_eq!(
        migration.steps,
        vec![SqlMigrationStep::DropIndex {
            table_index: 0,
            index_index: 0,
        }]
    );
}

#[test]
fn changed_enum_values_yield_alter_enum_step() {
    let mut prev = users_schema();
    prev.enums.push(Enum {
        name: "color".to_string(),
        values: vec!["red".to_string()],
    });
    let mut next_schema = users_schema();
    next_schema.enums.push(Enum {
        name: "color".to_string(),
        values: vec!["red".to_string(), "blue".to_string()],
    });
    let migration = diff(prev, next_schema, &MssqlFlavour);
    assert_eq!(
        migration.steps,
        vec![SqlMigrationStep::AlterEnum {
            previous_index: 0,
            next_index: 0,
        }]
    );
}

#[test]
fn a_fully_renamed_table_is_redefined() {
    // A paired table with no common column name has no column pairs, so
    // the all-pairs condition of the redefinition rule holds vacuously.
    let prev = schema(vec![table("t", vec![column("a", ColumnTypeFamily::Int)])]);
    let next = schema(vec![table("t", vec![column("b", ColumnTypeFamily::Int)])]);
    let migration = diff(prev, next, &MssqlFlavour);
    assert_eq!(
        migration.redefined_tables,
        vec![TablePair {
            previous: 0,
            next: 0
        }]
    );
    assert_eq!(migration.steps, vec![SqlMigrationStep::RedefineTables]);
}
