use migration_engine::schema::{
    Column, ColumnArity, ColumnType, ColumnTypeFamily, Enum, ForeignKey, ForeignKeyAction, Index,
    IndexType, PrimaryKey, SqlSchema, Table,
};
use migration_engine::walkers::{walk_columns, SqlSchemaExt};

fn column(name: &str, family: ColumnTypeFamily) -> Column {
    Column {
        name: name.to_string(),
        tpe: ColumnType {
            family,
            arity: ColumnArity::Required,
            native_type: None,
        },
        default: None,
        auto_increment: false,
    }
}

fn sample_schema() -> SqlSchema {
    let users = Table {
        name: "users".to_string(),
        columns: vec![
            column("id", ColumnTypeFamily::Int),
            column("name", ColumnTypeFamily::Text),
            column("color", ColumnTypeFamily::Enum("color".to_string())),
        ],
        indices: vec![Index {
            name: "users_name_idx".to_string(),
            columns: vec!["name".to_string()],
            tpe: IndexType::Unique,
        }],
        foreign_keys: Vec::new(),
        primary_key: Some(PrimaryKey {
            columns: vec!["id".to_string()],
            sequence: None,
        }),
    };
    let posts = Table {
        name: "posts".to_string(),
        columns: vec![
            column("id", ColumnTypeFamily::Int),
            column("author", ColumnTypeFamily::Int),
        ],
        indices: Vec::new(),
        foreign_keys: vec![ForeignKey {
            constraint_name: Some("posts_author_fkey".to_string()),
            columns: vec!["author".to_string()],
            referenced_table: "users".to_string(),
            referenced_columns: vec!["id".to_string()],
            on_delete_action: ForeignKeyAction::Cascade,
            on_update_action: ForeignKeyAction::NoAction,
        }],
        primary_key: None,
    };
    SqlSchema {
        tables: vec![users, posts],
        enums: vec![Enum {
            name: "color".to_string(),
            values: vec!["red".to_string(), "blue".to_string()],
        }],
    }
}

#[test]
fn the_sample_schema_is_well_formed() {
    assert!(sample_schema().is_wf());
    let mut broken = sample_schema();
    broken.tables.push(Table {
        name: "users".to_string(),
        columns: Vec::new(),
        indices: Vec::new(),
        foreign_keys: Vec::new(),
        primary_key: None,
    });
    assert!(!broken.is_wf());
}

#[test]
fn a_dangling_foreign_key_is_not_well_formed() {
    let mut broken = sample_schema();
    broken.tables[1].foreign_keys[0].referenced_table = "missing".to_string();
    assert!(!broken.is_wf());
}

#[test]
fn walking_all_columns_visits_every_table() {
    let schema = sample_schema();
    let columns = walk_columns(&schema);
    assert_eq!(columns.len(), 5);
    let names: Vec<String> = columns.iter().map(|c| c.name().clone()).collect();
    assert_eq!(names, vec!["id", "name", "color", "id", "author"]);
}

#[test]
fn table_lookup_by_name_and_by_index() {
    let schema = sample_schema();
    let users = schema.table_walker(&"users".to_string()).unwrap();
    assert_eq!(users.name(), "users");
    assert_eq!(users.table_index(), 0);
    assert!(schema.table_walker(&"missing".to_string()).is_none());
    let posts = schema.table_walker_at(1);
    assert_eq!(posts.name(), "posts");
}

#[test]
fn column_walkers_expose_the_column() {
    let schema = sample_schema();
    let users = schema.table_walker(&"users".to_string()).unwrap();
    let id = users.column(&"id".to_string()).unwrap();
    assert_eq!(id.name(), "id");
    assert!(id.is_part_of_primary_key());
    assert!(id.is_single_primary_key());
    assert!(!id.is_part_of_foreign_key());
    assert!(!id.is_autoincrement());
    assert_eq!(*id.arity(), ColumnArity::Required);
    assert!(users.column(&"missing".to_string()).is_none());

    let name = users.column_at(1);
    assert_eq!(name.name(), "name");
    assert!(!name.is_part_of_primary_key());
    assert!(id.is_same_column(&users.column_at(0)));
    assert!(!id.is_same_column(&name));
}

#[test]
fn enum_family_columns_resolve_their_enum() {
    let schema = sample_schema();
    let users = schema.table_walker(&"users".to_string()).unwrap();
    let color = users.column(&"color".to_string()).unwrap();
    let resolved = color.column_type_family_as_enum().unwrap();
    assert_eq!(resolved.name, "color");
    assert!(users
        .column(&"id".to_string())
        .unwrap()
        .column_type_family_as_enum()
        .is_none());
}

#[test]
fn foreign_key_walkers_resolve_the_referenced_table() {
    let schema = sample_schema();
    let posts = schema.table_walker(&"posts".to_string()).unwrap();
    assert_eq!(posts.foreign_key_count(), 1);
    let fks = posts.foreign_keys();
    assert_eq!(fks.len(), 1);
    let fk = &fks[0];
    assert_eq!(fk.constraint_name().unwrap(), "posts_author_fkey");
    assert_eq!(fk.constrained_column_names(), &vec!["author".to_string()]);
    assert_eq!(fk.referenced_table().name(), "users");
    assert_eq!(fk.referenced_columns_count(), 1);
    assert!(!fk.is_self_relation());
    assert_eq!(*fk.on_delete_action(), ForeignKeyAction::Cascade);
    let constrained = fk.constrained_columns();
    assert_eq!(constrained.len(), 1);
    assert_eq!(constrained[0].name(), "author");

    let author_column = posts.column(&"author".to_string()).unwrap();
    assert!(author_column.is_part_of_foreign_key());
    let by_column = posts.foreign_key_for_column(&"author".to_string()).unwrap();
    assert_eq!(by_column.referenced_table, "users");
}

#[test]
fn referencing_foreign_keys_finds_inbound_relations() {
    let schema = sample_schema();
    let users = schema.table_walker(&"users".to_string()).unwrap();
    let inbound = users.referencing_foreign_keys();
    assert_eq!(inbound.len(), 1);
    assert_eq!(inbound[0].table().name(), "posts");
}

#[test]
fn index_walkers_expose_columns_and_type() {
    let schema = sample_schema();
    let users = schema.table_walker(&"users".to_string()).unwrap();
    let indexes = users.indexes();
    assert_eq!(indexes.len(), 1);
    let idx = &indexes[0];
    assert_eq!(idx.name(), "users_name_idx");
    assert!(idx.index_type().is_unique());
    assert!(idx.contains_column(&"name".to_string()));
    assert!(!idx.contains_column(&"id".to_string()));
    let idx_columns = idx.columns();
    assert_eq!(idx_columns.len(), 1);
    assert_eq!(idx_columns[0].name(), "name");
}

#[test]
fn enum_walkers_expose_values() {
    let schema = sample_schema();
    let e = schema.enum_walker_at(0);
    assert_eq!(e.name(), "color");
    assert_eq!(e.values(), &vec!["red".to_string(), "blue".to_string()]);
    assert_eq!(e.enum_index(), 0);
}
