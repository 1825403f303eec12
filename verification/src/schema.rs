//! In-memory representation of a relational schema: tables, columns,
//! indexes, foreign keys and enums, with structural, order-sensitive
//! equality expressed by spec predicates.

use vstd::prelude::*;
use crate::mssql::MsSqlType;

verus! {

/// The nullability and arity of a column.
#[derive(Clone, Copy, PartialEq, Eq, Structural, Debug)]
pub enum ColumnArity {
    Required,
    Nullable,
    List,
}

/// The abstract family of a column type. `Text` is the string family.
#[derive(Debug)]
pub enum ColumnTypeFamily {
    Int,
    Float,
    Text,
    Boolean,
    DateTime,
    Bytes,
    Decimal,
    Json,
    Uuid,
    Enum(String),
}

/// Structural equality of two type families; enum families match on the
/// referenced enum name.
pub open spec fn family_eq(a: ColumnTypeFamily, b: ColumnTypeFamily) -> bool {
    match (a, b) {
        (ColumnTypeFamily::Int, ColumnTypeFamily::Int) => true,
        (ColumnTypeFamily::Float, ColumnTypeFamily::Float) => true,
        (ColumnTypeFamily::Text, ColumnTypeFamily::Text) => true,
        (ColumnTypeFamily::Boolean, ColumnTypeFamily::Boolean) => true,
        (ColumnTypeFamily::DateTime, ColumnTypeFamily::DateTime) => true,
        (ColumnTypeFamily::Bytes, ColumnTypeFamily::Bytes) => true,
        (ColumnTypeFamily::Decimal, ColumnTypeFamily::Decimal) => true,
        (ColumnTypeFamily::Json, ColumnTypeFamily::Json) => true,
        (ColumnTypeFamily::Uuid, ColumnTypeFamily::Uuid) => true,
        (ColumnTypeFamily::Enum(x), ColumnTypeFamily::Enum(y)) => x@ == y@,
        _ => false,
    }
}

/// Decide `family_eq` on two families.
pub fn family_matches(a: &ColumnTypeFamily, b: &ColumnTypeFamily) -> (r: bool)
    ensures
        r == family_eq(*a, *b),
{
    match (a, b) {
        (ColumnTypeFamily::Int, ColumnTypeFamily::Int) => true,
        (ColumnTypeFamily::Float, ColumnTypeFamily::Float) => true,
        (ColumnTypeFamily::Text, ColumnTypeFamily::Text) => true,
        (ColumnTypeFamily::Boolean, ColumnTypeFamily::Boolean) => true,
        (ColumnTypeFamily::DateTime, ColumnTypeFamily::DateTime) => true,
        (ColumnTypeFamily::Bytes, ColumnTypeFamily::Bytes) => true,
        (ColumnTypeFamily::Decimal, ColumnTypeFamily::Decimal) => true,
        (ColumnTypeFamily::Json, ColumnTypeFamily::Json) => true,
        (ColumnTypeFamily::Uuid, ColumnTypeFamily::Uuid) => true,
        (ColumnTypeFamily::Enum(x), ColumnTypeFamily::Enum(y)) => String::eq(x, y),
        _ => false,
    }
}

impl ColumnTypeFamily {
    /// The enum name, if this is an enum family.
    pub fn as_enum(&self) -> (r: Option<&String>)
        ensures
            match r {
                Some(name) => self matches ColumnTypeFamily::Enum(n) && n@ == name@,
                None => !(self matches ColumnTypeFamily::Enum(_)),
            },
    {
        match self {
            ColumnTypeFamily::Enum(name) => Some(name),
            _ => None,
        }
    }
}

/// The full type of a column: family, arity and the optional
/// dialect-specific native type.
#[derive(Debug)]
pub struct ColumnType {
    pub family: ColumnTypeFamily,
    pub arity: ColumnArity,
    pub native_type: Option<MsSqlType>,
}

pub open spec fn column_type_eq(a: ColumnType, b: ColumnType) -> bool {
    &&& family_eq(a.family, b.family)
    &&& a.arity == b.arity
    &&& a.native_type == b.native_type
}

/// The default value of a column.
#[derive(Debug)]
pub enum DefaultValue {
    Value(String),
    Now,
    DbGenerated(String),
    Sequence(String),
}

pub open spec fn default_value_eq(a: DefaultValue, b: DefaultValue) -> bool {
    match (a, b) {
        (DefaultValue::Value(x), DefaultValue::Value(y)) => x@ == y@,
        (DefaultValue::Now, DefaultValue::Now) => true,
        (DefaultValue::DbGenerated(x), DefaultValue::DbGenerated(y)) => x@ == y@,
        (DefaultValue::Sequence(x), DefaultValue::Sequence(y)) => x@ == y@,
        _ => false,
    }
}

pub open spec fn default_eq(a: Option<DefaultValue>, b: Option<DefaultValue>) -> bool {
    match (a, b) {
        (Some(x), Some(y)) => default_value_eq(x, y),
        (None, None) => true,
        _ => false,
    }
}

/// A table column.
#[derive(Debug)]
pub struct Column {
    pub name: String,
    pub tpe: ColumnType,
    pub default: Option<DefaultValue>,
    pub auto_increment: bool,
}

pub open spec fn column_eq(a: Column, b: Column) -> bool {
    &&& a.name@ == b.name@
    &&& column_type_eq(a.tpe, b.tpe)
    &&& default_eq(a.default, b.default)
    &&& a.auto_increment == b.auto_increment
}

pub open spec fn columns_eq(a: Seq<Column>, b: Seq<Column>) -> bool {
    &&& a.len() == b.len()
    &&& forall|i: int| 0 <= i < a.len() ==> column_eq(#[trigger] a[i], b[i])
}

/// Ordered equality of two name lists.
pub open spec fn names_eq(a: Seq<String>, b: Seq<String>) -> bool {
    &&& a.len() == b.len()
    &&& forall|i: int| 0 <= i < a.len() ==> (#[trigger] a[i])@ == b[i]@
}

/// The referential action of a foreign key.
#[derive(Clone, Copy, PartialEq, Eq, Structural, Debug)]
pub enum ForeignKeyAction {
    NoAction,
    Restrict,
    Cascade,
    SetNull,
    SetDefault,
}

/// A foreign key constraint.
#[derive(Debug)]
pub struct ForeignKey {
    pub constraint_name: Option<String>,
    pub columns: Vec<String>,
    pub referenced_table: String,
    pub referenced_columns: Vec<String>,
    pub on_delete_action: ForeignKeyAction,
    pub on_update_action: ForeignKeyAction,
}

pub open spec fn opt_name_eq(a: Option<String>, b: Option<String>) -> bool {
    match (a, b) {
        (Some(x), Some(y)) => x@ == y@,
        (None, None) => true,
        _ => false,
    }
}

pub open spec fn foreign_key_eq(a: ForeignKey, b: ForeignKey) -> bool {
    &&& opt_name_eq(a.constraint_name, b.constraint_name)
    &&& names_eq(a.columns@, b.columns@)
    &&& a.referenced_table@ == b.referenced_table@
    &&& names_eq(a.referenced_columns@, b.referenced_columns@)
    &&& a.on_delete_action == b.on_delete_action
    &&& a.on_update_action == b.on_update_action
}

pub open spec fn foreign_keys_eq(a: Seq<ForeignKey>, b: Seq<ForeignKey>) -> bool {
    &&& a.len() == b.len()
    &&& forall|i: int| 0 <= i < a.len() ==> foreign_key_eq(#[trigger] a[i], b[i])
}

/// Whether an index enforces uniqueness.
#[derive(Clone, Copy, PartialEq, Eq, Structural, Debug)]
pub enum IndexType {
    Unique,
    Normal,
}

impl IndexType {
    /// True iff this is a unique index.
    pub fn is_unique(&self) -> (r: bool)
        ensures
            r == (*self matches IndexType::Unique),
    {
        match self {
            IndexType::Unique => true,
            IndexType::Normal => false,
        }
    }
}

/// A database index.
#[derive(Debug)]
pub struct Index {
    pub name: String,
    pub columns: Vec<String>,
    pub tpe: IndexType,
}

pub open spec fn index_eq(a: Index, b: Index) -> bool {
    &&& a.name@ == b.name@
    &&& names_eq(a.columns@, b.columns@)
    &&& a.tpe == b.tpe
}

pub open spec fn indices_eq(a: Seq<Index>, b: Seq<Index>) -> bool {
    &&& a.len() == b.len()
    &&& forall|i: int| 0 <= i < a.len() ==> index_eq(#[trigger] a[i], b[i])
}

/// The primary key of a table.
#[derive(Debug)]
pub struct PrimaryKey {
    pub columns: Vec<String>,
    pub sequence: Option<String>,
}

pub open spec fn primary_key_eq(a: PrimaryKey, b: PrimaryKey) -> bool {
    &&& names_eq(a.columns@, b.columns@)
    &&& opt_name_eq(a.sequence, b.sequence)
}

pub open spec fn opt_primary_key_eq(a: Option<PrimaryKey>, b: Option<PrimaryKey>) -> bool {
    match (a, b) {
        (Some(x), Some(y)) => primary_key_eq(x, y),
        (None, None) => true,
        _ => false,
    }
}

/// A table: ordered columns, indexes, foreign keys and an optional
/// primary key.
#[derive(Debug)]
pub struct Table {
    pub name: String,
    pub columns: Vec<Column>,
    pub indices: Vec<Index>,
    pub foreign_keys: Vec<ForeignKey>,
    pub primary_key: Option<PrimaryKey>,
}

pub open spec fn table_eq(a: Table, b: Table) -> bool {
    &&& a.name@ == b.name@
    &&& columns_eq(a.columns@, b.columns@)
    &&& indices_eq(a.indices@, b.indices@)
    &&& foreign_keys_eq(a.foreign_keys@, b.foreign_keys@)
    &&& opt_primary_key_eq(a.primary_key, b.primary_key)
}

pub open spec fn tables_eq(a: Seq<Table>, b: Seq<Table>) -> bool {
    &&& a.len() == b.len()
    &&& forall|i: int| 0 <= i < a.len() ==> table_eq(#[trigger] a[i], b[i])
}

/// A database enum: a name and its ordered values.
#[derive(Debug)]
pub struct Enum {
    pub name: String,
    pub values: Vec<String>,
}

pub open spec fn enum_eq(a: Enum, b: Enum) -> bool {
    &&& a.name@ == b.name@
    &&& names_eq(a.values@, b.values@)
}

pub open spec fn enums_eq(a: Seq<Enum>, b: Seq<Enum>) -> bool {
    &&& a.len() == b.len()
    &&& forall|i: int| 0 <= i < a.len() ==> enum_eq(#[trigger] a[i], b[i])
}

/// A whole schema: ordered tables and enums.
#[derive(Debug)]
pub struct SqlSchema {
    pub tables: Vec<Table>,
    pub enums: Vec<Enum>,
}

/// Structural, order-sensitive equality of two schemas.
pub open spec fn schema_eq(a: SqlSchema, b: SqlSchema) -> bool {
    &&& tables_eq(a.tables@, b.tables@)
    &&& enums_eq(a.enums@, b.enums@)
}

/// There is a table of this name in the sequence.
pub open spec fn has_table_named(tables: Seq<Table>, name: Seq<char>) -> bool {
    exists|i: int| 0 <= i < tables.len() && (#[trigger] tables[i]).name@ == name
}

/// There is an enum of this name in the sequence.
pub open spec fn has_enum_named(enums: Seq<Enum>, name: Seq<char>) -> bool {
    exists|i: int| 0 <= i < enums.len() && (#[trigger] enums[i]).name@ == name
}

/// There is a column of this name in the sequence.
pub open spec fn has_column_named(columns: Seq<Column>, name: Seq<char>) -> bool {
    exists|i: int| 0 <= i < columns.len() && (#[trigger] columns[i]).name@ == name
}

pub open spec fn table_names_unique(tables: Seq<Table>) -> bool {
    forall|i: int, j: int|
        0 <= i < j < tables.len() ==> (#[trigger] tables[i]).name@ != (#[trigger] tables[j]).name@
}

pub open spec fn enum_names_unique(enums: Seq<Enum>) -> bool {
    forall|i: int, j: int|
        0 <= i < j < enums.len() ==> (#[trigger] enums[i]).name@ != (#[trigger] enums[j]).name@
}

pub open spec fn column_names_unique(columns: Seq<Column>) -> bool {
    forall|i: int, j: int|
        0 <= i < j < columns.len() ==> (#[trigger] columns[i]).name@ != (#[trigger] columns[j]).name@
}

pub open spec fn table_wf(t: Table) -> bool {
    column_names_unique(t.columns@)
}

impl Table {
    /// True iff a column of this name is part of the primary key.
    pub open spec fn spec_is_part_of_primary_key(&self, column_name: Seq<char>) -> bool {
        match self.primary_key {
            Some(pk) => exists|i: int|
                0 <= i < pk.columns@.len() && (#[trigger] pk.columns@[i])@ == column_name,
            None => false,
        }
    }

    /// True iff a column of this name is constrained by some foreign key.
    pub open spec fn spec_is_part_of_foreign_key(&self, column_name: Seq<char>) -> bool {
        exists|i: int, j: int|
            0 <= i < self.foreign_keys@.len() && 0 <= j
                < (#[trigger] self.foreign_keys@[i]).columns@.len()
                && (#[trigger] self.foreign_keys@[i].columns@[j])@ == column_name
    }
}

/// If the column belongs to an enum family, the enum exists.
pub open spec fn column_family_resolves(c: Column, enums: Seq<Enum>) -> bool {
    match c.tpe.family {
        ColumnTypeFamily::Enum(n) => has_enum_named(enums, n@),
        _ => true,
    }
}

/// A schema is well formed when its names are unique and every reference
/// (foreign keys, enum families, index and primary-key columns) resolves.
pub open spec fn schema_wf(s: SqlSchema) -> bool {
    &&& table_names_unique(s.tables@)
    &&& enum_names_unique(s.enums@)
    &&& forall|i: int| 0 <= i < s.tables@.len() ==> table_wf(#[trigger] s.tables@[i])
    &&& forall|i: int, k: int|
        0 <= i < s.tables@.len() && 0 <= k < (#[trigger] s.tables@[i]).foreign_keys@.len()
            ==> has_table_named(s.tables@, (#[trigger] s.tables@[i].foreign_keys@[k]).referenced_table@)
    &&& forall|i: int, c: int|
        0 <= i < s.tables@.len() && 0 <= c < (#[trigger] s.tables@[i]).columns@.len()
            ==> column_family_resolves(#[trigger] s.tables@[i].columns@[c], s.enums@)
}

impl Table {
    /// Index of the first column of this name, if any.
    pub fn find_column_index(&self, name: &String) -> (r: Option<usize>)
        ensures
            match r {
                Some(ci) => ci < self.columns@.len() && (#[trigger] self.columns@[ci as int]).name@
                    == name@ && (forall|j: int|
                    0 <= j < ci ==> (#[trigger] self.columns@[j]).name@ != name@),
                None => !has_column_named(self.columns@, name@),
            },
    {
        let n = self.columns.len();
        for i in 0..n
            invariant
                n == self.columns@.len(),
                forall|j: int| 0 <= j < i ==> (#[trigger] self.columns@[j]).name@ != name@,
        {
            if String::eq(&self.columns[i].name, name) {
                return Some(i);
            }
        }
        None
    }

    /// Index of the first index of this name, if any.
    pub fn find_index_index(&self, name: &String) -> (r: Option<usize>)
        ensures
            match r {
                Some(xi) => xi < self.indices@.len() && (#[trigger] self.indices@[xi as int]).name@
                    == name@ && (forall|j: int|
                    0 <= j < xi ==> (#[trigger] self.indices@[j]).name@ != name@),
                None => forall|j: int|
                    0 <= j < self.indices@.len() ==> (#[trigger] self.indices@[j]).name@ != name@,
            },
    {
        let n = self.indices.len();
        for i in 0..n
            invariant
                n == self.indices@.len(),
                forall|j: int| 0 <= j < i ==> (#[trigger] self.indices@[j]).name@ != name@,
        {
            if String::eq(&self.indices[i].name, name) {
                return Some(i);
            }
        }
        None
    }
}

impl SqlSchema {
    /// Index of the first table of this name, if any.
    pub fn find_table_index(&self, name: &String) -> (r: Option<usize>)
        ensures
            match r {
                Some(ti) => ti < self.tables@.len() && (#[trigger] self.tables@[ti as int]).name@
                    == name@ && (forall|j: int|
                    0 <= j < ti ==> (#[trigger] self.tables@[j]).name@ != name@),
                None => !has_table_named(self.tables@, name@),
            },
    {
        let n = self.tables.len();
        for i in 0..n
            invariant
                n == self.tables@.len(),
                forall|j: int| 0 <= j < i ==> (#[trigger] self.tables@[j]).name@ != name@,
        {
            if String::eq(&self.tables[i].name, name) {
                return Some(i);
            }
        }
        None
    }

    /// Index of the first enum of this name, if any.
    pub fn find_enum_index(&self, name: &String) -> (r: Option<usize>)
        ensures
            match r {
                Some(ei) => ei < self.enums@.len() && (#[trigger] self.enums@[ei as int]).name@
                    == name@ && (forall|j: int|
                    0 <= j < ei ==> (#[trigger] self.enums@[j]).name@ != name@),
                None => !has_enum_named(self.enums@, name@),
            },
    {
        let n = self.enums.len();
        for i in 0..n
            invariant
                n == self.enums@.len(),
                forall|j: int| 0 <= j < i ==> (#[trigger] self.enums@[j]).name@ != name@,
        {
            if String::eq(&self.enums[i].name, name) {
                return Some(i);
            }
        }
        None
    }
}

/// Some name occurs in a name list.
pub open spec fn spec_names_contain(names: Seq<String>, name: Seq<char>) -> bool {
    exists|i: int| 0 <= i < names.len() && (#[trigger] names[i])@ == name
}

/// Whether some name occurs in a name list.
pub fn names_contain(names: &Vec<String>, name: &String) -> (r: bool)
    ensures
        r == spec_names_contain(names@, name@),
{
    let n = names.len();
    for i in 0..n
        invariant
            n == names@.len(),
            forall|j: int| 0 <= j < i ==> (#[trigger] names@[j])@ != name@,
    {
        if String::eq(&names[i], name) {
            return true;
        }
    }
    false
}

/// Every table of the schema has at least one column.
pub open spec fn spec_tables_have_columns(s: SqlSchema) -> bool {
    forall|t: int| 0 <= t < s.tables@.len() ==> (#[trigger] s.tables@[t]).columns@.len() > 0
}

/// Structural equality is reflexive: every schema equals itself.
pub proof fn lemma_schema_eq_reflexive(s: SqlSchema)
    ensures
        schema_eq(s, s),
{
    assert forall|i: int| 0 <= i < s.tables@.len() implies table_eq(#[trigger] s.tables@[i], s.tables@[i]) by {
        lemma_table_eq_reflexive(s.tables@[i]);
    }
    assert forall|i: int| 0 <= i < s.enums@.len() implies enum_eq(#[trigger] s.enums@[i], s.enums@[i]) by {
    }
}

/// Structural equality of tables is reflexive.
pub proof fn lemma_table_eq_reflexive(t: Table)
    ensures
        table_eq(t, t),
{
    assert forall|i: int| 0 <= i < t.columns@.len() implies column_eq(#[trigger] t.columns@[i], t.columns@[i]) by {
    }
}

} // verus!

verus! {

/// Whether a name list has no duplicates, checked pairwise.
fn strings_unique(names: &Vec<String>) -> (r: bool)
    ensures
        r == forall|i: int, j: int|
            0 <= i < j < names@.len() ==> (#[trigger] names@[i])@ != (#[trigger] names@[j])@,
{
    let n = names.len();
    for i in 0..n
        invariant
            n == names@.len(),
            forall|a: int, b: int|
                0 <= a < b < i ==> (#[trigger] names@[a])@ != (#[trigger] names@[b])@,
    {
        for j in 0..i
            invariant
                i < n,
                n == names@.len(),
                forall|a: int, b: int|
                    0 <= a < b < i ==> (#[trigger] names@[a])@ != (#[trigger] names@[b])@,
                forall|b: int| 0 <= b < j ==> (#[trigger] names@[b])@ != names@[i as int]@,
        {
            if String::eq(&names[j], &names[i]) {
                return false;
            }
        }
    }
    true
}

impl SqlSchema {
    /// Decide whether the schema is well formed: unique table, enum and
    /// per-table column names, and resolving foreign keys and enum
    /// families.
    pub fn is_wf(&self) -> (r: bool)
        ensures
            r == schema_wf(*self),
    {
        let nt = self.tables.len();
        let mut table_names: Vec<String> = Vec::new();
        for i in 0..nt
            invariant
                nt == self.tables@.len(),
                table_names@.len() == i,
                forall|j: int| 0 <= j < i ==> (#[trigger] table_names@[j])@ == self.tables@[j].name@,
        {
            table_names.push(self.tables[i].name.clone());
        }
        if !strings_unique(&table_names) {
            proof {
                let (a, b) = choose|a: int, b: int|
                    0 <= a < b < table_names@.len() && (#[trigger] table_names@[a])@ == (
                    #[trigger] table_names@[b])@;
                assert(self.tables@[a].name@ == self.tables@[b].name@);
            }
            return false;
        }
        proof {
            assert forall|a: int, b: int| 0 <= a < b < self.tables@.len() implies (
            #[trigger] self.tables@[a]).name@ != (#[trigger] self.tables@[b]).name@ by {
                assert(table_names@[a]@ == self.tables@[a].name@);
                assert(table_names@[b]@ == self.tables@[b].name@);
            }
        }
        let ne = self.enums.len();
        let mut enum_names: Vec<String> = Vec::new();
        for i in 0..ne
            invariant
                ne == self.enums@.len(),
                enum_names@.len() == i,
                forall|j: int| 0 <= j < i ==> (#[trigger] enum_names@[j])@ == self.enums@[j].name@,
        {
            enum_names.push(self.enums[i].name.clone());
        }
        if !strings_unique(&enum_names) {
            proof {
                let (a, b) = choose|a: int, b: int|
                    0 <= a < b < enum_names@.len() && (#[trigger] enum_names@[a])@ == (
                    #[trigger] enum_names@[b])@;
                assert(self.enums@[a].name@ == self.enums@[b].name@);
            }
            return false;
        }
        proof {
            assert forall|a: int, b: int| 0 <= a < b < self.enums@.len() implies (
            #[trigger] self.enums@[a]).name@ != (#[trigger] self.enums@[b]).name@ by {
                assert(enum_names@[a]@ == self.enums@[a].name@);
                assert(enum_names@[b]@ == self.enums@[b].name@);
            }
        }
        for i in 0..nt
            invariant
                nt == self.tables@.len(),
                table_names_unique(self.tables@),
                enum_names_unique(self.enums@),
                forall|j: int| 0 <= j < i ==> table_wf(#[trigger] self.tables@[j]),
                forall|j: int, k: int|
                    0 <= j < i && 0 <= k < (#[trigger] self.tables@[j]).foreign_keys@.len()
                        ==> has_table_named(
                        self.tables@,
                        (#[trigger] self.tables@[j].foreign_keys@[k]).referenced_table@,
                    ),
                forall|j: int, c: int|
                    0 <= j < i && 0 <= c < (#[trigger] self.tables@[j]).columns@.len()
                        ==> column_family_resolves(
                        #[trigger] self.tables@[j].columns@[c],
                        self.enums@,
                    ),
        {
            let nc = self.tables[i].columns.len();
            let mut column_names: Vec<String> = Vec::new();
            for c in 0..nc
                invariant
                    i < nt,
                    nt == self.tables@.len(),
                    nc == self.tables@[i as int].columns@.len(),
                    column_names@.len() == c,
                    forall|j: int|
                        0 <= j < c ==> (#[trigger] column_names@[j])@
                            == self.tables@[i as int].columns@[j].name@,
            {
                column_names.push(self.tables[i].columns[c].name.clone());
            }
            if !strings_unique(&column_names) {
                proof {
                    let (a, b) = choose|a: int, b: int|
                        0 <= a < b < column_names@.len() && (#[trigger] column_names@[a])@ == (
                        #[trigger] column_names@[b])@;
                    assert(self.tables@[i as int].columns@[a].name@
                        == self.tables@[i as int].columns@[b].name@);
                    assert(!table_wf(self.tables@[i as int]));
                }
                return false;
            }
            proof {
                assert forall|a: int, b: int|
                    0 <= a < b < self.tables@[i as int].columns@.len() implies (
                #[trigger] self.tables@[i as int].columns@[a]).name@ != (
                #[trigger] self.tables@[i as int].columns@[b]).name@ by {
                    assert(column_names@[a]@ == self.tables@[i as int].columns@[a].name@);
                    assert(column_names@[b]@ == self.tables@[i as int].columns@[b].name@);
                }
                assert(table_wf(self.tables@[i as int]));
            }
            let nk = self.tables[i].foreign_keys.len();
            for k in 0..nk
                invariant
                    i < nt,
                    nt == self.tables@.len(),
                    nk == self.tables@[i as int].foreign_keys@.len(),
                    forall|k2: int|
                        0 <= k2 < k ==> has_table_named(
                            self.tables@,
                            (#[trigger] self.tables@[i as int].foreign_keys@[k2]).referenced_table@,
                        ),
            {
                if self.find_table_index(&self.tables[i].foreign_keys[k].referenced_table).is_none()
                {
                    return false;
                }
            }
            for c in 0..nc
                invariant
                    i < nt,
                    nt == self.tables@.len(),
                    nc == self.tables@[i as int].columns@.len(),
                    forall|c2: int|
                        0 <= c2 < c ==> column_family_resolves(
                            #[trigger] self.tables@[i as int].columns@[c2],
                            self.enums@,
                        ),
            {
                match self.tables[i].columns[c].tpe.family.as_enum() {
                    Some(enum_name) => {
                        if self.find_enum_index(enum_name).is_none() {
                            return false;
                        }
                    },
                    None => {},
                }
            }
        }
        true
    }
}

} // verus!
