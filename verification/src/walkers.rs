//! Non-owning views for traversing and querying a schema.
//!
//! A walker holds a reference to the schema and integer indices; entities
//! are resolved by index, so walkers are cheap to copy and stay stable
//! across traversals. Lookups by name return an optional result; lookups
//! by index require that the caller owns a valid index.

use vstd::prelude::*;
use crate::schema::{
    has_column_named, has_enum_named, has_table_named, Column, ColumnArity, ColumnType,
    ColumnTypeFamily, DefaultValue, Enum, ForeignKey, ForeignKeyAction, Index, IndexType,
    PrimaryKey, SqlSchema, Table,
};
use crate::mssql::MsSqlType;

verus! {

/// A view of one column of one table of a schema.
#[derive(Clone, Copy, Debug)]
pub struct ColumnWalker<'a> {
    pub schema: &'a SqlSchema,
    pub column_index: usize,
    pub table_index: usize,
}

/// A view of one table of a schema.
#[derive(Clone, Copy, Debug)]
pub struct TableWalker<'a> {
    pub schema: &'a SqlSchema,
    pub table_index: usize,
}

/// A view of one foreign key of one table of a schema.
#[derive(Clone, Copy, Debug)]
pub struct ForeignKeyWalker<'a> {
    pub foreign_key_index: usize,
    pub table_index: usize,
    pub schema: &'a SqlSchema,
}

/// A view of one index of one table of a schema.
#[derive(Clone, Copy, Debug)]
pub struct IndexWalker<'a> {
    pub schema: &'a SqlSchema,
    pub table_index: usize,
    pub index_index: usize,
}

/// A view of one enum of a schema.
#[derive(Clone, Copy, Debug)]
pub struct EnumWalker<'a> {
    pub schema: &'a SqlSchema,
    pub enum_index: usize,
}

impl<'a> TableWalker<'a> {
    /// The indices point at a table of the schema.
    pub open spec fn valid(self) -> bool {
        self.table_index < self.schema.tables@.len()
    }

    /// The table this walker points at.
    pub open spec fn spec_table(self) -> Table {
        self.schema.tables@[self.table_index as int]
    }

    /// Make a walker from a schema and the index of one of its tables.
    pub fn new(schema: &'a SqlSchema, table_index: usize) -> (r: Self)
        requires
            table_index < schema.tables@.len(),
        ensures
            r == (TableWalker { schema, table_index }),
    {
        Self { schema, table_index }
    }

    /// Get the first column of this name in the table, in physical order.
    pub fn column(&self, column_name: &String) -> (r: Option<ColumnWalker<'a>>)
        requires
            self.valid(),
        ensures
            match r {
                Some(w) => {
                    &&& w.schema == self.schema
                    &&& w.table_index == self.table_index
                    &&& w.valid()
                    &&& w.spec_column().name@ == column_name@
                    &&& forall|j: int|
                        0 <= j < w.column_index ==> (
                        #[trigger] self.spec_table().columns@[j]).name@ != column_name@
                },
                None => !has_column_named(self.spec_table().columns@, column_name@),
            },
    {
        match self.table().find_column_index(column_name) {
            Some(ci) => Some(
                ColumnWalker { schema: self.schema, column_index: ci, table_index: self.table_index },
            ),
            None => None,
        }
    }

    /// Get a column of the table by index.
    pub fn column_at(&self, idx: usize) -> (r: ColumnWalker<'a>)
        requires
            self.valid(),
            idx < self.spec_table().columns@.len(),
        ensures
            r == (ColumnWalker {
                schema: self.schema,
                column_index: idx,
                table_index: self.table_index,
            }),
    {
        ColumnWalker { schema: self.schema, column_index: idx, table_index: self.table_index }
    }

    /// The table's columns, in order.
    pub fn columns(&self) -> (r: Vec<ColumnWalker<'a>>)
        requires
            self.valid(),
        ensures
            r@.len() == self.spec_table().columns@.len(),
            forall|i: int|
                0 <= i < r@.len() ==> #[trigger] r@[i] == (ColumnWalker {
                    schema: self.schema,
                    column_index: i as usize,
                    table_index: self.table_index,
                }),
    {
        let n = self.table().columns.len();
        let mut out: Vec<ColumnWalker<'a>> = Vec::new();
        for i in 0..n
            invariant
                self.valid(),
                n == self.spec_table().columns@.len(),
                out@.len() == i,
                forall|j: int|
                    0 <= j < i ==> #[trigger] out@[j] == (ColumnWalker {
                        schema: self.schema,
                        column_index: j as usize,
                        table_index: self.table_index,
                    }),
        {
            out.push(ColumnWalker {
                schema: self.schema,
                column_index: i,
                table_index: self.table_index,
            });
        }
        out
    }

    /// The number of foreign key constraints on the table.
    pub fn foreign_key_count(&self) -> (r: usize)
        requires
            self.valid(),
        ensures
            r == self.spec_table().foreign_keys@.len(),
    {
        self.table().foreign_keys.len()
    }

    /// Get an index of the table by index.
    pub fn index_at(&self, index_index: usize) -> (r: IndexWalker<'a>)
        requires
            self.valid(),
            index_index < self.spec_table().indices@.len(),
        ensures
            r == (IndexWalker { schema: self.schema, table_index: self.table_index, index_index }),
    {
        IndexWalker { schema: self.schema, table_index: self.table_index, index_index }
    }

    /// The table's indexes, in order.
    pub fn indexes(&self) -> (r: Vec<IndexWalker<'a>>)
        requires
            self.valid(),
        ensures
            r@.len() == self.spec_table().indices@.len(),
            forall|i: int|
                0 <= i < r@.len() ==> #[trigger] r@[i] == (IndexWalker {
                    schema: self.schema,
                    table_index: self.table_index,
                    index_index: i as usize,
                }),
    {
        let n = self.table().indices.len();
        let mut out: Vec<IndexWalker<'a>> = Vec::new();
        for i in 0..n
            invariant
                self.valid(),
                n == self.spec_table().indices@.len(),
                out@.len() == i,
                forall|j: int|
                    0 <= j < i ==> #[trigger] out@[j] == (IndexWalker {
                        schema: self.schema,
                        table_index: self.table_index,
                        index_index: j as usize,
                    }),
        {
            out.push(IndexWalker {
                schema: self.schema,
                table_index: self.table_index,
                index_index: i,
            });
        }
        out
    }

    /// The table's foreign keys, in order.
    pub fn foreign_keys(&self) -> (r: Vec<ForeignKeyWalker<'a>>)
        requires
            self.valid(),
        ensures
            r@.len() == self.spec_table().foreign_keys@.len(),
            forall|i: int|
                0 <= i < r@.len() ==> #[trigger] r@[i] == (ForeignKeyWalker {
                    foreign_key_index: i as usize,
                    table_index: self.table_index,
                    schema: self.schema,
                }),
    {
        let n = self.table().foreign_keys.len();
        let mut out: Vec<ForeignKeyWalker<'a>> = Vec::new();
        for i in 0..n
            invariant
                self.valid(),
                n == self.spec_table().foreign_keys@.len(),
                out@.len() == i,
                forall|j: int|
                    0 <= j < i ==> #[trigger] out@[j] == (ForeignKeyWalker {
                        foreign_key_index: j as usize,
                        table_index: self.table_index,
                        schema: self.schema,
                    }),
        {
            out.push(ForeignKeyWalker {
                foreign_key_index: i,
                table_index: self.table_index,
                schema: self.schema,
            });
        }
        out
    }

    /// Foreign keys of other tables that reference this table.
    pub fn referencing_foreign_keys(&self) -> (r: Vec<ForeignKeyWalker<'a>>)
        requires
            self.valid(),
        ensures
            forall|i: int|
                0 <= i < r@.len() ==> {
                    &&& (#[trigger] r@[i]).schema == self.schema
                    &&& r@[i].valid()
                    &&& r@[i].table_index != self.table_index
                    &&& r@[i].spec_foreign_key().referenced_table@ == self.spec_table().name@
                },
            forall|t: int, k: int|
                0 <= t < self.schema.tables@.len() && t != self.table_index && 0 <= k
                    < schema_fk_count(self.schema, t) && spec_foreign_key_walker(
                    self.schema,
                    t,
                    k,
                ).spec_foreign_key().referenced_table@ == self.spec_table().name@ ==> r@.contains(
                    #[trigger] spec_foreign_key_walker(self.schema, t, k),
                ),
    {
        broadcast use vstd::seq_lib::lemma_seq_contains_after_push;

        let nt = self.schema.tables.len();
        let mut out: Vec<ForeignKeyWalker<'a>> = Vec::new();
        for t in 0..nt
            invariant
                self.valid(),
                nt == self.schema.tables@.len(),
                forall|i: int|
                    0 <= i < out@.len() ==> {
                        &&& (#[trigger] out@[i]).schema == self.schema
                        &&& out@[i].valid()
                        &&& out@[i].table_index != self.table_index
                        &&& out@[i].spec_foreign_key().referenced_table@ == self.spec_table().name@
                    },
                forall|t2: int, k: int|
                    0 <= t2 < t && t2 != self.table_index && 0 <= k < schema_fk_count(
                        self.schema,
                        t2,
                    ) && spec_foreign_key_walker(self.schema, t2, k).spec_foreign_key().referenced_table@
                        == self.spec_table().name@ ==> out@.contains(
                        #[trigger] spec_foreign_key_walker(self.schema, t2, k),
                    ),
        {
            if t != self.table_index {
                let nk = self.schema.tables[t].foreign_keys.len();
                for k in 0..nk
                    invariant
                        self.valid(),
                        t < self.schema.tables@.len(),
                        t != self.table_index,
                        nk == schema_fk_count(self.schema, t as int),
                        forall|i: int|
                            0 <= i < out@.len() ==> {
                                &&& (#[trigger] out@[i]).schema == self.schema
                                &&& out@[i].valid()
                                &&& out@[i].table_index != self.table_index
                                &&& out@[i].spec_foreign_key().referenced_table@
                                    == self.spec_table().name@
                            },
                        forall|t2: int, k2: int|
                            0 <= t2 < t && t2 != self.table_index && 0 <= k2 < schema_fk_count(
                                self.schema,
                                t2,
                            ) && spec_foreign_key_walker(self.schema, t2, k2).spec_foreign_key().referenced_table@
                                == self.spec_table().name@ ==> out@.contains(
                                #[trigger] spec_foreign_key_walker(self.schema, t2, k2),
                            ),
                        forall|k2: int|
                            0 <= k2 < k && spec_foreign_key_walker(
                                self.schema,
                                t as int,
                                k2,
                            ).spec_foreign_key().referenced_table@ == self.spec_table().name@
                                ==> out@.contains(
                                #[trigger] spec_foreign_key_walker(self.schema, t as int, k2),
                            ),
                {
                    if String::eq(
                        &self.schema.tables[t].foreign_keys[k].referenced_table,
                        &self.schema.tables[self.table_index].name,
                    ) {
                        let fw = ForeignKeyWalker {
                            foreign_key_index: k,
                            table_index: t,
                            schema: self.schema,
                        };
                        let ghost prev = out@;
                        out.push(fw);
                        proof {
                            assert forall|w: ForeignKeyWalker<'a>| #[trigger] prev.contains(w)
                                implies out@.contains(w) by {
                                vstd::seq_lib::lemma_seq_contains_after_push(prev, fw, w);
                            }
                            vstd::seq_lib::lemma_seq_contains_after_push(prev, fw, fw);
                            assert(out@.contains(
                                spec_foreign_key_walker(self.schema, t as int, k as int),
                            ));
                        }
                    }
                }
            }
        }
        out
    }

    /// Get a foreign key of the table by index.
    pub fn foreign_key_at(&self, index: usize) -> (r: ForeignKeyWalker<'a>)
        requires
            self.valid(),
            index < self.spec_table().foreign_keys@.len(),
        ensures
            r == (ForeignKeyWalker {
                foreign_key_index: index,
                table_index: self.table_index,
                schema: self.schema,
            }),
    {
        ForeignKeyWalker { foreign_key_index: index, table_index: self.table_index, schema: self.schema }
    }

    /// The table name.
    pub fn name(&self) -> (r: &'a String)
        requires
            self.valid(),
        ensures
            r == self.spec_table().name,
    {
        &self.table().name
    }

    /// The first foreign key constraining exactly this one column, if any.
    pub fn foreign_key_for_column(&self, column: &String) -> (r: Option<&'a ForeignKey>)
        requires
            self.valid(),
        ensures
            match r {
                Some(fk) => exists|k: int|
                    0 <= k < self.spec_table().foreign_keys@.len()
                        && #[trigger] self.spec_table().foreign_keys@[k] == *fk
                        && fk.columns@.len() == 1 && fk.columns@[0]@ == column@,
                None => forall|k: int|
                    0 <= k < self.spec_table().foreign_keys@.len()
                        ==> !((#[trigger] self.spec_table().foreign_keys@[k]).columns@.len() == 1
                        && self.spec_table().foreign_keys@[k].columns@[0]@ == column@),
            },
    {
        let fks = &self.table().foreign_keys;
        let n = fks.len();
        for k in 0..n
            invariant
                self.valid(),
                n == self.spec_table().foreign_keys@.len(),
                fks == self.spec_table().foreign_keys,
                forall|j: int|
                    0 <= j < k ==> !((#[trigger] self.spec_table().foreign_keys@[j]).columns@.len()
                        == 1 && self.spec_table().foreign_keys@[j].columns@[0]@ == column@),
        {
            if fks[k].columns.len() == 1 && String::eq(&fks[k].columns[0], column) {
                return Some(&fks[k]);
            }
        }
        None
    }

    /// The primary key of the table, if any.
    pub fn primary_key(&self) -> (r: Option<&'a PrimaryKey>)
        requires
            self.valid(),
        ensures
            match r {
                Some(pk) => self.spec_table().primary_key == Some(*pk),
                None => self.spec_table().primary_key is None,
            },
    {
        self.table().primary_key.as_ref()
    }

    /// The names of the primary key columns; `None` means the table has no
    /// primary key.
    pub fn primary_key_column_names(&self) -> (r: Option<&'a Vec<String>>)
        requires
            self.valid(),
        ensures
            match r {
                Some(names) => self.spec_table().primary_key matches Some(pk) && pk.columns
                    == *names,
                None => self.spec_table().primary_key is None,
            },
    {
        match &self.table().primary_key {
            Some(pk) => Some(&pk.columns),
            None => None,
        }
    }

    /// A reference to the underlying table.
    pub fn table(&self) -> (r: &'a Table)
        requires
            self.valid(),
        ensures
            *r == self.spec_table(),
    {
        &self.schema.tables[self.table_index]
    }

    /// The index of the table in the schema.
    pub fn table_index(&self) -> (r: usize)
        ensures
            r == self.table_index,
    {
        self.table_index
    }
}

impl<'a> ColumnWalker<'a> {
    /// The indices point at a column of a table of the schema.
    pub open spec fn valid(self) -> bool {
        &&& self.table_index < self.schema.tables@.len()
        &&& self.column_index < self.schema.tables@[self.table_index as int].columns@.len()
    }

    /// The column this walker points at.
    pub open spec fn spec_column(self) -> Column {
        self.schema.tables@[self.table_index as int].columns@[self.column_index as int]
    }

    /// The table the column belongs to.
    pub open spec fn spec_table(self) -> Table {
        self.schema.tables@[self.table_index as int]
    }

    /// The nullability and arity of the column.
    pub fn arity(&self) -> (r: &'a ColumnArity)
        requires
            self.valid(),
        ensures
            *r == self.spec_column().tpe.arity,
    {
        &self.column().tpe.arity
    }

    /// A reference to the underlying column.
    pub fn column(&self) -> (r: &'a Column)
        requires
            self.valid(),
        ensures
            *r == self.spec_column(),
    {
        &self.schema.tables[self.table_index].columns[self.column_index]
    }

    /// The index of the column in its table.
    pub fn column_index(&self) -> (r: usize)
        ensures
            r == self.column_index,
    {
        self.column_index
    }

    /// The type family of the column.
    pub fn column_type_family(&self) -> (r: &'a ColumnTypeFamily)
        requires
            self.valid(),
        ensures
            *r == self.spec_column().tpe.family,
    {
        &self.column().tpe.family
    }

    /// The enum behind an enum-family column, or `None` for another family.
    pub fn column_type_family_as_enum(&self) -> (r: Option<&'a Enum>)
        requires
            self.valid(),
            crate::schema::column_family_resolves(self.spec_column(), self.schema.enums@),
        ensures
            match r {
                Some(e) => self.spec_column().tpe.family matches ColumnTypeFamily::Enum(n)
                    && has_enum_named(self.schema.enums@, n@) && e.name@ == n@,
                None => !(self.spec_column().tpe.family matches ColumnTypeFamily::Enum(_)),
            },
    {
        match self.column().tpe.family.as_enum() {
            Some(enum_name) => {
                match self.schema.find_enum_index(enum_name) {
                    Some(ei) => Some(&self.schema.enums[ei]),
                    None => None,
                }
            },
            None => None,
        }
    }

    /// The column name.
    pub fn name(&self) -> (r: &'a String)
        requires
            self.valid(),
        ensures
            r == self.spec_column().name,
    {
        &self.column().name
    }

    /// The default value of the column, if any.
    pub fn default(&self) -> (r: Option<&'a DefaultValue>)
        requires
            self.valid(),
        ensures
            match r {
                Some(d) => self.spec_column().default == Some(*d),
                None => self.spec_column().default is None,
            },
    {
        self.column().default.as_ref()
    }

    /// The full column type.
    pub fn column_type(&self) -> (r: &'a ColumnType)
        requires
            self.valid(),
        ensures
            *r == self.spec_column().tpe,
    {
        &self.column().tpe
    }

    /// The native type of the column, if one is attached.
    pub fn column_native_type(&self) -> (r: Option<MsSqlType>)
        requires
            self.valid(),
        ensures
            r == self.spec_column().tpe.native_type,
    {
        self.column().tpe.native_type
    }

    /// Is this column an auto-incrementing integer?
    pub fn is_autoincrement(&self) -> (r: bool)
        requires
            self.valid(),
        ensures
            r == self.spec_column().auto_increment,
    {
        self.column().auto_increment
    }

    /// Is this column a part of the table's primary key?
    pub fn is_part_of_primary_key(&self) -> (r: bool)
        requires
            self.valid(),
        ensures
            r == self.spec_table().spec_is_part_of_primary_key(self.spec_column().name@),
    {
        let t = self.table().table();
        match &t.primary_key {
            Some(pk) => crate::schema::names_contain(&pk.columns, self.name()),
            None => false,
        }
    }

    /// Is this column constrained by some foreign key of its table?
    pub fn is_part_of_foreign_key(&self) -> (r: bool)
        requires
            self.valid(),
        ensures
            r == self.spec_table().spec_is_part_of_foreign_key(self.spec_column().name@),
    {
        let t = self.table().table();
        let n = t.foreign_keys.len();
        let name = self.name();
        for k in 0..n
            invariant
                self.valid(),
                *t == self.spec_table(),
                n == t.foreign_keys@.len(),
                name == self.spec_column().name,
                forall|j: int, c: int|
                    0 <= j < k && 0 <= c < (#[trigger] t.foreign_keys@[j]).columns@.len()
                        ==> (#[trigger] t.foreign_keys@[j].columns@[c])@ != name@,
        {
            if crate::schema::names_contain(&t.foreign_keys[k].columns, name) {
                return true;
            }
        }
        false
    }

    /// Two walkers name the same column: same column name, same table name.
    pub fn is_same_column(&self, other: &ColumnWalker<'_>) -> (r: bool)
        requires
            self.valid(),
            other.valid(),
        ensures
            r == (self.spec_column().name@ == other.spec_column().name@
                && self.spec_table().name@ == other.spec_table().name@),
    {
        String::eq(self.name(), other.name()) && String::eq(self.table().name(), other.table().name())
    }

    /// Is this column on its own the whole primary key of the table?
    pub fn is_single_primary_key(&self) -> (r: bool)
        requires
            self.valid(),
        ensures
            r == match self.spec_table().primary_key {
                Some(pk) => pk.columns@.len() == 1 && pk.columns@[0]@ == self.spec_column().name@,
                None => false,
            },
    {
        match self.table().primary_key() {
            Some(pk) => pk.columns.len() == 1 && String::eq(&pk.columns[0], self.name()),
            None => false,
        }
    }

    /// The walker of the column's table.
    pub fn table(&self) -> (r: TableWalker<'a>)
        ensures
            r == (TableWalker { schema: self.schema, table_index: self.table_index }),
    {
        TableWalker { schema: self.schema, table_index: self.table_index }
    }

    /// The schema the column is part of.
    pub fn schema(&self) -> (r: &'a SqlSchema)
        ensures
            r == self.schema,
    {
        self.schema
    }
}

/// The column walker for a table index and a column index.
pub open spec fn spec_column_walker<'a>(schema: &'a SqlSchema, t: int, c: int) -> ColumnWalker<'a> {
    ColumnWalker { schema, column_index: c as usize, table_index: t as usize }
}

/// The foreign key walker for a table index and a key index.
pub open spec fn spec_foreign_key_walker<'a>(schema: &'a SqlSchema, t: int, k: int) -> ForeignKeyWalker<'a> {
    ForeignKeyWalker { foreign_key_index: k as usize, table_index: t as usize, schema }
}

/// The number of foreign keys of the table at this index.
pub open spec fn schema_fk_count(schema: &SqlSchema, t: int) -> int {
    schema.tables@[t].foreign_keys@.len() as int
}

/// The number of columns of the first `t` tables of the schema.
pub open spec fn spec_column_count(schema: &SqlSchema, t: int) -> int
    decreases t,
{
    if t <= 0 {
        0
    } else {
        spec_column_count(schema, t - 1) + schema.tables@[t - 1].columns@.len()
    }
}

/// The column count grows with the table prefix.
pub proof fn lemma_column_count_monotone(schema: &SqlSchema, a: int, b: int)
    requires
        0 <= a <= b,
    ensures
        spec_column_count(schema, a) <= spec_column_count(schema, b),
    decreases b - a,
{
    if a < b {
        lemma_column_count_monotone(schema, a, b - 1);
    }
}

/// The walker for table `t` and column `c` stands in the sequence at the
/// position of `c` after all the columns of the earlier tables.
pub open spec fn spec_walker_at_position<'a>(
    schema: &'a SqlSchema,
    s: Seq<ColumnWalker<'a>>,
    t: int,
    c: int,
) -> bool {
    &&& 0 <= spec_column_count(schema, t) + c < s.len()
    &&& s[spec_column_count(schema, t) + c] == spec_column_walker(schema, t, c)
}

/// All the columns of all the tables of the schema, table by table: the
/// walker for table `t` and column `c` stands at the position of `c` after
/// all the columns of the earlier tables.
pub fn walk_columns<'a>(schema: &'a SqlSchema) -> (r: Vec<ColumnWalker<'a>>)
    ensures
        r@.len() == spec_column_count(schema, schema.tables@.len() as int),
        forall|i: int|
            0 <= i < r@.len() ==> (#[trigger] r@[i]).schema == schema && r@[i].valid(),
        forall|t: int, c: int|
            0 <= t < schema.tables@.len() && 0 <= c < schema.tables@[t].columns@.len()
                ==> #[trigger] spec_walker_at_position(schema, r@, t, c),
        forall|t: int, c: int|
            0 <= t < schema.tables@.len() && 0 <= c < schema.tables@[t].columns@.len()
                ==> r@.contains(#[trigger] spec_column_walker(schema, t, c)),
{
    broadcast use vstd::seq_lib::lemma_seq_contains_after_push;

    let nt = schema.tables.len();
    let mut out: Vec<ColumnWalker<'a>> = Vec::new();
    for t in 0..nt
        invariant
            nt == schema.tables@.len(),
            out@.len() == spec_column_count(schema, t as int),
            forall|i: int|
                0 <= i < out@.len() ==> (#[trigger] out@[i]).schema == schema && out@[i].valid(),
            forall|t2: int, c2: int|
                0 <= t2 < t && 0 <= c2 < schema.tables@[t2].columns@.len()
                    ==> #[trigger] spec_walker_at_position(schema, out@, t2, c2),
            forall|t2: int, c2: int|
                0 <= t2 < t && 0 <= c2 < schema.tables@[t2].columns@.len() ==> out@.contains(
                    #[trigger] spec_column_walker(schema, t2, c2),
                ),
    {
        let nc = schema.tables[t].columns.len();
        for c in 0..nc
            invariant
                t < schema.tables@.len(),
                nc == schema.tables@[t as int].columns@.len(),
                out@.len() == spec_column_count(schema, t as int) + c,
                forall|i: int|
                    0 <= i < out@.len() ==> (#[trigger] out@[i]).schema == schema
                        && out@[i].valid(),
                forall|t2: int, c2: int|
                    0 <= t2 < t && 0 <= c2 < schema.tables@[t2].columns@.len()
                        ==> #[trigger] spec_walker_at_position(schema, out@, t2, c2),
                forall|c2: int|
                    0 <= c2 < c ==> #[trigger] spec_walker_at_position(
                        schema,
                        out@,
                        t as int,
                        c2,
                    ),
                forall|t2: int, c2: int|
                    0 <= t2 < t && 0 <= c2 < schema.tables@[t2].columns@.len() ==> out@.contains(
                        #[trigger] spec_column_walker(schema, t2, c2),
                    ),
                forall|c2: int|
                    0 <= c2 < c ==> out@.contains(#[trigger] spec_column_walker(schema, t as int, c2)),
        {
            let cw = ColumnWalker { schema, column_index: c, table_index: t };
            let ghost prev = out@;
            out.push(cw);
            proof {
                assert forall|w: ColumnWalker<'a>| #[trigger] prev.contains(w) implies out@.contains(
                    w,
                ) by {
                    vstd::seq_lib::lemma_seq_contains_after_push(prev, cw, w);
                }
                vstd::seq_lib::lemma_seq_contains_after_push(prev, cw, cw);
                assert(out@.contains(spec_column_walker(schema, t as int, c as int)));
                assert(forall|p: int| 0 <= p < prev.len() ==> out@[p] == #[trigger] prev[p]);
                assert(out@[prev.len() as int] == spec_column_walker(schema, t as int, c as int));
                assert(spec_walker_at_position(schema, out@, t as int, c as int));
                assert forall|t2: int, c2: int|
                    0 <= t2 < t && 0 <= c2 < schema.tables@[t2].columns@.len()
                    implies #[trigger] spec_walker_at_position(schema, out@, t2, c2) by {
                    lemma_column_count_monotone(schema, t2 + 1, t as int);
                    assert(spec_walker_at_position(schema, prev, t2, c2));
                }
                assert forall|c2: int| 0 <= c2 <= c implies #[trigger] spec_walker_at_position(
                    schema,
                    out@,
                    t as int,
                    c2,
                ) by {
                    if c2 < c {
                        assert(spec_walker_at_position(schema, prev, t as int, c2));
                    }
                }
            }
        }
    }
    out
}

impl<'a> ForeignKeyWalker<'a> {
    /// The indices point at a foreign key of a table of the schema.
    pub open spec fn valid(self) -> bool {
        &&& self.table_index < self.schema.tables@.len()
        &&& self.foreign_key_index
            < self.schema.tables@[self.table_index as int].foreign_keys@.len()
    }

    /// The foreign key this walker points at.
    pub open spec fn spec_foreign_key(self) -> ForeignKey {
        self.schema.tables@[self.table_index as int].foreign_keys@[self.foreign_key_index as int]
    }

    /// The referencing table.
    pub open spec fn spec_table(self) -> Table {
        self.schema.tables@[self.table_index as int]
    }

    /// The constrained column names on the referencing table.
    pub fn constrained_column_names(&self) -> (r: &'a Vec<String>)
        requires
            self.valid(),
        ensures
            *r == self.spec_foreign_key().columns,
    {
        &self.foreign_key().columns
    }

    /// The constrained columns of the referencing table, in table order:
    /// exactly the table columns whose name is among the foreign key's
    /// column names, with their column indices strictly increasing.
    pub fn constrained_columns(&self) -> (r: Vec<ColumnWalker<'a>>)
        requires
            self.valid(),
        ensures
            forall|i: int|
                0 <= i < r@.len() ==> {
                    &&& (#[trigger] r@[i]).schema == self.schema
                    &&& r@[i].table_index == self.table_index
                    &&& r@[i].valid()
                    &&& crate::schema::spec_names_contain(
                        self.spec_foreign_key().columns@,
                        r@[i].spec_column().name@,
                    )
                },
            forall|i: int, j: int|
                0 <= i < j < r@.len() ==> (#[trigger] r@[i]).column_index < (
                #[trigger] r@[j]).column_index,
            forall|c: int|
                0 <= c < self.spec_table().columns@.len() && crate::schema::spec_names_contain(
                    self.spec_foreign_key().columns@,
                    spec_column_walker(self.schema, self.table_index as int, c).spec_column().name@,
                ) ==> r@.contains(
                    #[trigger] spec_column_walker(self.schema, self.table_index as int, c),
                ),
    {
        broadcast use vstd::seq_lib::lemma_seq_contains_after_push;

        let mut out: Vec<ColumnWalker<'a>> = Vec::new();
        let n = self.table().table().columns.len();
        for c in 0..n
            invariant
                self.valid(),
                n == self.spec_table().columns@.len(),
                forall|i: int|
                    0 <= i < out@.len() ==> {
                        &&& (#[trigger] out@[i]).schema == self.schema
                        &&& out@[i].table_index == self.table_index
                        &&& out@[i].valid()
                        &&& crate::schema::spec_names_contain(
                            self.spec_foreign_key().columns@,
                            out@[i].spec_column().name@,
                        )
                    },
                forall|i: int| 0 <= i < out@.len() ==> (#[trigger] out@[i]).column_index < c,
                forall|i: int, j: int|
                    0 <= i < j < out@.len() ==> (#[trigger] out@[i]).column_index < (
                    #[trigger] out@[j]).column_index,
                forall|c2: int|
                    0 <= c2 < c && crate::schema::spec_names_contain(
                        self.spec_foreign_key().columns@,
                        spec_column_walker(
                            self.schema,
                            self.table_index as int,
                            c2,
                        ).spec_column().name@,
                    ) ==> out@.contains(
                        #[trigger] spec_column_walker(self.schema, self.table_index as int, c2),
                    ),
        {
            let cw = ColumnWalker {
                schema: self.schema,
                column_index: c,
                table_index: self.table_index,
            };
            if crate::schema::names_contain(&self.foreign_key().columns, cw.name()) {
                let ghost prev = out@;
                out.push(cw);
                proof {
                    assert forall|w: ColumnWalker<'a>| #[trigger] prev.contains(w)
                        implies out@.contains(w) by {
                        vstd::seq_lib::lemma_seq_contains_after_push(prev, cw, w);
                    }
                    vstd::seq_lib::lemma_seq_contains_after_push(prev, cw, cw);
                    assert(out@.contains(
                        spec_column_walker(self.schema, self.table_index as int, c as int),
                    ));
                }
            }
        }
        out
    }

    /// The name of the constraint, if it has one.
    pub fn constraint_name(&self) -> (r: Option<&'a String>)
        requires
            self.valid(),
        ensures
            match r {
                Some(n) => self.spec_foreign_key().constraint_name == Some(*n),
                None => self.spec_foreign_key().constraint_name is None,
            },
    {
        self.foreign_key().constraint_name.as_ref()
    }

    /// A reference to the underlying foreign key.
    pub fn foreign_key(&self) -> (r: &'a ForeignKey)
        requires
            self.valid(),
        ensures
            *r == self.spec_foreign_key(),
    {
        &self.schema.tables[self.table_index].foreign_keys[self.foreign_key_index]
    }

    /// The index of the foreign key in its table.
    pub fn foreign_key_index(&self) -> (r: usize)
        ensures
            r == self.foreign_key_index,
    {
        self.foreign_key_index
    }

    /// A reference to the underlying foreign key.
    pub fn inner(&self) -> (r: &'a ForeignKey)
        requires
            self.valid(),
        ensures
            *r == self.spec_foreign_key(),
    {
        self.foreign_key()
    }

    /// The `ON DELETE` behaviour of the foreign key.
    pub fn on_delete_action(&self) -> (r: &'a ForeignKeyAction)
        requires
            self.valid(),
        ensures
            *r == self.spec_foreign_key().on_delete_action,
    {
        &self.foreign_key().on_delete_action
    }

    /// The `ON UPDATE` behaviour of the foreign key.
    pub fn on_update_action(&self) -> (r: &'a ForeignKeyAction)
        requires
            self.valid(),
        ensures
            *r == self.spec_foreign_key().on_update_action,
    {
        &self.foreign_key().on_update_action
    }

    /// The referenced column names on the referenced table.
    pub fn referenced_column_names(&self) -> (r: &'a Vec<String>)
        requires
            self.valid(),
        ensures
            *r == self.spec_foreign_key().referenced_columns,
    {
        &self.foreign_key().referenced_columns
    }

    /// The number of columns referenced by the constraint.
    pub fn referenced_columns_count(&self) -> (r: usize)
        requires
            self.valid(),
        ensures
            r == self.spec_foreign_key().referenced_columns@.len(),
    {
        self.foreign_key().referenced_columns.len()
    }

    /// The table the foreign key points to.
    pub fn referenced_table(&self) -> (r: TableWalker<'a>)
        requires
            self.valid(),
            has_table_named(self.schema.tables@, self.spec_foreign_key().referenced_table@),
        ensures
            r.schema == self.schema,
            r.valid(),
            r.spec_table().name@ == self.spec_foreign_key().referenced_table@,
    {
        match self.schema.find_table_index(&self.foreign_key().referenced_table) {
            Some(ti) => TableWalker { schema: self.schema, table_index: ti },
            None => {
                proof {
                    assert(false);
                }
                TableWalker { schema: self.schema, table_index: 0 }
            },
        }
    }

    /// The walker of the referencing table.
    pub fn table(&self) -> (r: TableWalker<'a>)
        ensures
            r == (TableWalker { schema: self.schema, table_index: self.table_index }),
    {
        TableWalker { schema: self.schema, table_index: self.table_index }
    }

    /// True if the relation points back to its own table.
    pub fn is_self_relation(&self) -> (r: bool)
        requires
            self.valid(),
        ensures
            r == (self.spec_table().name@ == self.spec_foreign_key().referenced_table@),
    {
        String::eq(self.table().name(), &self.foreign_key().referenced_table)
    }
}

impl<'a> IndexWalker<'a> {
    /// The indices point at an index of a table of the schema.
    pub open spec fn valid(self) -> bool {
        &&& self.table_index < self.schema.tables@.len()
        &&& self.index_index < self.schema.tables@[self.table_index as int].indices@.len()
    }

    /// The index this walker points at.
    pub open spec fn spec_index(self) -> Index {
        self.schema.tables@[self.table_index as int].indices@[self.index_index as int]
    }

    /// The names of the indexed columns.
    pub fn column_names(&self) -> (r: &'a Vec<String>)
        requires
            self.valid(),
        ensures
            *r == self.spec_index().columns,
    {
        &self.get().columns
    }

    /// The indexed columns, in index-column order.
    pub fn columns(&self) -> (r: Vec<ColumnWalker<'a>>)
        requires
            self.valid(),
            forall|j: int|
                0 <= j < self.spec_index().columns@.len() ==> has_column_named(
                    self.schema.tables@[self.table_index as int].columns@,
                    (#[trigger] self.spec_index().columns@[j])@,
                ),
        ensures
            r@.len() == self.spec_index().columns@.len(),
            forall|j: int|
                0 <= j < r@.len() ==> {
                    &&& (#[trigger] r@[j]).schema == self.schema
                    &&& r@[j].table_index == self.table_index
                    &&& r@[j].valid()
                    &&& r@[j].spec_column().name@ == self.spec_index().columns@[j]@
                },
    {
        let table = self.table();
        let names = &self.get().columns;
        let n = names.len();
        let mut out: Vec<ColumnWalker<'a>> = Vec::new();
        for j in 0..n
            invariant
                self.valid(),
                table == (TableWalker { schema: self.schema, table_index: self.table_index }),
                names == self.spec_index().columns,
                n == names@.len(),
                forall|j2: int|
                    0 <= j2 < n ==> has_column_named(
                        self.schema.tables@[self.table_index as int].columns@,
                        (#[trigger] names@[j2])@,
                    ),
                out@.len() == j,
                forall|j2: int|
                    0 <= j2 < j ==> {
                        &&& (#[trigger] out@[j2]).schema == self.schema
                        &&& out@[j2].table_index == self.table_index
                        &&& out@[j2].valid()
                        &&& out@[j2].spec_column().name@ == self.spec_index().columns@[j2]@
                    },
        {
            match table.column(&names[j]) {
                Some(cw) => out.push(cw),
                None => {
                    proof {
                        assert(false);
                    }
                },
            }
        }
        out
    }

    /// True if the index covers the given column name.
    pub fn contains_column(&self, column_name: &String) -> (r: bool)
        requires
            self.valid(),
        ensures
            r == exists|j: int|
                0 <= j < self.spec_index().columns@.len()
                    && (#[trigger] self.spec_index().columns@[j])@ == column_name@,
    {
        crate::schema::names_contain(&self.get().columns, column_name)
    }

    fn get(&self) -> (r: &'a Index)
        requires
            self.valid(),
        ensures
            *r == self.spec_index(),
    {
        &self.schema.tables[self.table_index].indices[self.index_index]
    }

    /// The index of the index in its table.
    pub fn index(&self) -> (r: usize)
        ensures
            r == self.index_index,
    {
        self.index_index
    }

    /// Whether the index is unique or normal.
    pub fn index_type(&self) -> (r: &'a IndexType)
        requires
            self.valid(),
        ensures
            *r == self.spec_index().tpe,
    {
        &self.get().tpe
    }

    /// The name of the index.
    pub fn name(&self) -> (r: &'a String)
        requires
            self.valid(),
        ensures
            r == self.spec_index().name,
    {
        &self.get().name
    }

    /// The walker of the index's table.
    pub fn table(&self) -> (r: TableWalker<'a>)
        ensures
            r == (TableWalker { schema: self.schema, table_index: self.table_index }),
    {
        TableWalker { schema: self.schema, table_index: self.table_index }
    }
}

impl<'a> EnumWalker<'a> {
    /// The index points at an enum of the schema.
    pub open spec fn valid(self) -> bool {
        self.enum_index < self.schema.enums@.len()
    }

    /// The enum this walker points at.
    pub open spec fn spec_enum(self) -> Enum {
        self.schema.enums@[self.enum_index as int]
    }

    /// The index of the enum in the schema.
    pub fn enum_index(&self) -> (r: usize)
        ensures
            r == self.enum_index,
    {
        self.enum_index
    }

    fn get(&self) -> (r: &'a Enum)
        requires
            self.valid(),
        ensures
            *r == self.spec_enum(),
    {
        &self.schema.enums[self.enum_index]
    }

    /// The name of the enum.
    pub fn name(&self) -> (r: &'a String)
        requires
            self.valid(),
        ensures
            r == self.spec_enum().name,
    {
        &self.get().name
    }

    /// The values of the enum, in order.
    pub fn values(&self) -> (r: &'a Vec<String>)
        requires
            self.valid(),
        ensures
            *r == self.spec_enum().values,
    {
        &self.get().values
    }
}

/// Walker-building lookups on a schema.
pub trait SqlSchemaExt {
    /// Find an enum by index.
    fn enum_walker_at<'a>(&'a self, index: usize) -> (r: EnumWalker<'a>)
        requires
            index < self.spec_enums().len(),
        ensures
            r.valid(),
            r.enum_index == index,
            r.spec_enum() == self.spec_enums()[index as int],
    ;

    /// Find a table by name.
    fn table_walker<'a>(&'a self, name: &String) -> (r: Option<TableWalker<'a>>)
        ensures
            match r {
                Some(w) => w.valid() && w.spec_table() == self.spec_tables()[w.table_index as int]
                    && w.spec_table().name@ == name@,
                None => !has_table_named(self.spec_tables(), name@),
            },
    ;

    /// Find a table by index.
    fn table_walker_at<'a>(&'a self, index: usize) -> (r: TableWalker<'a>)
        requires
            index < self.spec_tables().len(),
        ensures
            r.valid(),
            r.table_index == index,
            r.spec_table() == self.spec_tables()[index as int],
    ;

    /// The schema's enums.
    spec fn spec_enums(&self) -> Seq<Enum>;

    /// The schema's tables.
    spec fn spec_tables(&self) -> Seq<Table>;
}

impl SqlSchemaExt for SqlSchema {
    open spec fn spec_enums(&self) -> Seq<Enum> {
        self.enums@
    }

    open spec fn spec_tables(&self) -> Seq<Table> {
        self.tables@
    }

    fn enum_walker_at<'a>(&'a self, index: usize) -> (r: EnumWalker<'a>) {
        EnumWalker { schema: self, enum_index: index }
    }

    fn table_walker<'a>(&'a self, name: &String) -> (r: Option<TableWalker<'a>>) {
        match self.find_table_index(name) {
            Some(ti) => Some(TableWalker { schema: self, table_index: ti }),
            None => None,
        }
    }

    fn table_walker_at<'a>(&'a self, index: usize) -> (r: TableWalker<'a>) {
        TableWalker { schema: self, table_index: index }
    }
}

} // verus!
