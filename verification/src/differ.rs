//! The schema differ: compute the ordered list of migration steps that
//! brings one schema to another.
//!
//! Tables, enums and columns are paired by name; indexes and foreign keys
//! are matched structurally (a foreign key without a constraint name is
//! matched by its columns and its referenced table). Steps are emitted in
//! phases: create enums, alter enums, create tables, redefine tables,
//! alter paired tables, add foreign keys, drop foreign keys, drop tables,
//! drop enums; within a phase, input order is preserved.

use vstd::prelude::*;
use crate::mssql::{spec_family_change, ColumnTypeChange, MsSqlType};
use crate::schema::{
    column_eq, family_eq, has_column_named, has_enum_named, has_table_named, index_eq, names_eq,
    schema_eq, schema_wf, Column, Enum, ForeignKey, Index, SqlSchema, Table,
};
use crate::walkers::ColumnWalker;

verus! {

/// A pair of table indices: a table of the previous schema and the table
/// of the same name in the next schema.
#[derive(Clone, Copy, PartialEq, Eq, Structural, Debug)]
pub struct TablePair {
    pub previous: usize,
    pub next: usize,
}

/// One typed migration step. Indices point into the schemas the migration
/// was computed from: creation steps into the next schema, drop steps into
/// the previous one.
#[derive(Clone, Copy, PartialEq, Eq, Structural, Debug)]
pub enum SqlMigrationStep {
    CreateEnum { enum_index: usize },
    AlterEnum { previous_index: usize, next_index: usize },
    CreateTable { table_index: usize },
    RedefineTables,
    AddColumn { pair: TablePair, column_index: usize },
    DropColumn { pair: TablePair, column_index: usize },
    AlterColumn { pair: TablePair, previous_column: usize, next_column: usize },
    CreateIndex { table_index: usize, index_index: usize },
    DropIndex { table_index: usize, index_index: usize },
    AddForeignKey { table_index: usize, foreign_key_index: usize },
    DropForeignKey { table_index: usize, foreign_key_index: usize },
    DropTable { table_index: usize },
    DropEnum { enum_index: usize },
}

/// A database migration: the two schemas it was computed from, the tables
/// to be redefined wholesale, and the ordered steps.
#[derive(Debug)]
pub struct SqlMigration {
    pub before: SqlSchema,
    pub after: SqlSchema,
    pub redefined_tables: Vec<TablePair>,
    pub steps: Vec<SqlMigrationStep>,
}

/// Two foreign keys match when both carry the same constraint name, or,
/// where a name is missing, when they constrain the same columns and
/// reference the same table and columns.
pub open spec fn spec_fk_matches(a: ForeignKey, b: ForeignKey) -> bool {
    match (a.constraint_name, b.constraint_name) {
        (Some(x), Some(y)) => x@ == y@,
        _ => names_eq(a.columns@, b.columns@) && a.referenced_table@ == b.referenced_table@
            && names_eq(a.referenced_columns@, b.referenced_columns@),
    }
}

/// Some foreign key in the list matches the given one.
pub open spec fn spec_has_matching_fk(fks: Seq<ForeignKey>, fk: ForeignKey) -> bool {
    exists|k: int| 0 <= k < fks.len() && spec_fk_matches(#[trigger] fks[k], fk)
}

/// Some index in the list equals the given one.
pub open spec fn spec_has_matching_index(idxs: Seq<Index>, idx: Index) -> bool {
    exists|k: int| 0 <= k < idxs.len() && index_eq(#[trigger] idxs[k], idx)
}

/// The index of the table of this name; meaningful where such a table
/// exists and names are unique.
pub open spec fn spec_table_partner(tables: Seq<Table>, name: Seq<char>) -> int {
    choose|j: int| 0 <= j < tables.len() && (#[trigger] tables[j]).name@ == name
}

/// The index of the column of this name; meaningful where such a column
/// exists and names are unique.
pub open spec fn spec_column_partner(columns: Seq<Column>, name: Seq<char>) -> int {
    choose|j: int| 0 <= j < columns.len() && (#[trigger] columns[j]).name@ == name
}

/// The index of the enum of this name; meaningful where such an enum
/// exists and names are unique.
pub open spec fn spec_enum_partner(enums: Seq<Enum>, name: Seq<char>) -> int {
    choose|j: int| 0 <= j < enums.len() && (#[trigger] enums[j]).name@ == name
}

/// Some column pair of the two tables changes its auto-increment flag.
pub open spec fn spec_auto_changed_pair(pt: Table, nt: Table) -> bool {
    exists|c: int|
        0 <= c < nt.columns@.len() && has_column_named(
            pt.columns@,
            (#[trigger] nt.columns@[c]).name@,
        ) && pt.columns@[spec_column_partner(pt.columns@, nt.columns@[c].name@)].auto_increment
            != nt.columns@[c].auto_increment
}

/// Every column pair of the two tables changes its family, and the change
/// cannot be cast; a pair of tables without any column pair satisfies this
/// vacuously.
pub open spec fn spec_all_pairs_not_castable(pt: Table, nt: Table) -> bool {
    forall|c: int|
        0 <= c < nt.columns@.len() && has_column_named(
            pt.columns@,
            (#[trigger] nt.columns@[c]).name@,
        ) ==> {
            let p = pt.columns@[spec_column_partner(pt.columns@, nt.columns@[c].name@)];
            &&& !family_eq(p.tpe.family, nt.columns@[c].tpe.family)
            &&& spec_family_change(p.tpe.family, nt.columns@[c].tpe.family)
                == ColumnTypeChange::NotCastable
        }
}

/// A paired table is redefined wholesale when a column pair changes its
/// auto-increment flag, or when every column pair changes family without a
/// possible cast (vacuously so for a pair with no common column name).
pub open spec fn spec_redefine_pair(pt: Table, nt: Table) -> bool {
    spec_auto_changed_pair(pt, nt) || spec_all_pairs_not_castable(pt, nt)
}

/// The pairs of tables to redefine, walking the next schema from
/// position `i`.
pub open spec fn spec_redefined_tables(prev: SqlSchema, next: SqlSchema, i: int) -> Seq<TablePair>
    decreases next.tables@.len() - i,
{
    if i < 0 || i >= next.tables@.len() {
        Seq::empty()
    } else {
        let rest = spec_redefined_tables(prev, next, i + 1);
        let name = next.tables@[i].name@;
        if has_table_named(prev.tables@, name) && spec_redefine_pair(
            prev.tables@[spec_table_partner(prev.tables@, name)],
            next.tables@[i],
        ) {
            seq![
                TablePair {
                    previous: spec_table_partner(prev.tables@, name) as usize,
                    next: i as usize,
                },
            ] + rest
        } else {
            rest
        }
    }
}

/// Decide `spec_fk_matches` on two foreign keys.
pub fn fk_matches(a: &ForeignKey, b: &ForeignKey) -> (r: bool)
    ensures
        r == spec_fk_matches(*a, *b),
{
    match (&a.constraint_name, &b.constraint_name) {
        (Some(x), Some(y)) => String::eq(x, y),
        _ => names_vecs_eq(&a.columns, &b.columns) && String::eq(
            &a.referenced_table,
            &b.referenced_table,
        ) && names_vecs_eq(&a.referenced_columns, &b.referenced_columns),
    }
}

/// Decide ordered equality of two name lists.
pub fn names_vecs_eq(a: &Vec<String>, b: &Vec<String>) -> (r: bool)
    ensures
        r == names_eq(a@, b@),
{
    if a.len() != b.len() {
        return false;
    }
    let n = a.len();
    for i in 0..n
        invariant
            n == a@.len(),
            a@.len() == b@.len(),
            forall|j: int| 0 <= j < i ==> (#[trigger] a@[j])@ == b@[j]@,
    {
        if !String::eq(&a[i], &b[i]) {
            return false;
        }
    }
    true
}

/// Whether some foreign key of the list matches the given one.
pub fn has_matching_fk(fks: &Vec<ForeignKey>, fk: &ForeignKey) -> (r: bool)
    ensures
        r == spec_has_matching_fk(fks@, *fk),
{
    let n = fks.len();
    for k in 0..n
        invariant
            n == fks@.len(),
            forall|j: int| 0 <= j < k ==> !spec_fk_matches(#[trigger] fks@[j], *fk),
    {
        if fk_matches(&fks[k], fk) {
            return true;
        }
    }
    false
}

/// Decide `index_eq` on two indexes.
pub fn index_matches(a: &Index, b: &Index) -> (r: bool)
    ensures
        r == index_eq(*a, *b),
{
    String::eq(&a.name, &b.name) && names_vecs_eq(&a.columns, &b.columns) && a.tpe == b.tpe
}

/// Whether some index of the list equals the given one.
pub fn has_matching_index(idxs: &Vec<Index>, idx: &Index) -> (r: bool)
    ensures
        r == spec_has_matching_index(idxs@, *idx),
{
    let n = idxs.len();
    for k in 0..n
        invariant
            n == idxs@.len(),
            forall|j: int| 0 <= j < k ==> !index_eq(#[trigger] idxs@[j], *idx),
    {
        if index_matches(&idxs[k], idx) {
            return true;
        }
    }
    false
}

/// Decide equality of two optional native types.
pub fn native_types_match(a: &Option<MsSqlType>, b: &Option<MsSqlType>) -> (r: bool)
    ensures
        r == (*a == *b),
{
    match (a, b) {
        (Some(x), Some(y)) => *x == *y,
        (None, None) => true,
        _ => false,
    }
}

/// Decide equality of two optional defaults.
pub fn defaults_match(
    a: &Option<crate::schema::DefaultValue>,
    b: &Option<crate::schema::DefaultValue>,
) -> (r: bool)
    ensures
        r == crate::schema::default_eq(*a, *b),
{
    match (a, b) {
        (Some(x), Some(y)) => match (x, y) {
            (crate::schema::DefaultValue::Value(u), crate::schema::DefaultValue::Value(v)) => String::eq(u, v),
            (crate::schema::DefaultValue::Now, crate::schema::DefaultValue::Now) => true,
            (
                crate::schema::DefaultValue::DbGenerated(u),
                crate::schema::DefaultValue::DbGenerated(v),
            ) => String::eq(u, v),
            (
                crate::schema::DefaultValue::Sequence(u),
                crate::schema::DefaultValue::Sequence(v),
            ) => String::eq(u, v),
            _ => false,
        },
        (None, None) => true,
        _ => false,
    }
}

/// Decide `column_eq` on two columns.
pub fn column_matches(a: &Column, b: &Column) -> (r: bool)
    ensures
        r == column_eq(*a, *b),
{
    String::eq(&a.name, &b.name) && crate::schema::family_matches(&a.tpe.family, &b.tpe.family)
        && a.tpe.arity == b.tpe.arity && native_types_match(&a.tpe.native_type, &b.tpe.native_type)
        && defaults_match(&a.default, &b.default) && a.auto_increment == b.auto_increment
}

} // verus!

verus! {

/// Concatenation helper: emitting one element keeps the phase equation.
proof fn lemma_emit_step<A>(pre: Seq<A>, e: A, rest: Seq<A>)
    ensures
        pre + (seq![e] + rest) == pre.push(e) + rest,
{
    assert(pre + (seq![e] + rest) =~= pre.push(e) + rest);
}

/// With unique column names, any column of the given name is the partner.
pub proof fn lemma_column_partner_unique(cols: Seq<Column>, name: Seq<char>, j: int)
    requires
        crate::schema::column_names_unique(cols),
        0 <= j < cols.len(),
        cols[j].name@ == name,
    ensures
        spec_column_partner(cols, name) == j,
{
    assert(exists|x: int| 0 <= x < cols.len() && (#[trigger] cols[x]).name@ == name);
    let jj = spec_column_partner(cols, name);
    assert(0 <= jj < cols.len() && cols[jj].name@ == name);
}

/// With unique table names, any table of the given name is the partner.
pub proof fn lemma_table_partner_unique(tables: Seq<Table>, name: Seq<char>, j: int)
    requires
        crate::schema::table_names_unique(tables),
        0 <= j < tables.len(),
        tables[j].name@ == name,
    ensures
        spec_table_partner(tables, name) == j,
{
    assert(exists|x: int| 0 <= x < tables.len() && (#[trigger] tables[x]).name@ == name);
    let jj = spec_table_partner(tables, name);
    assert(0 <= jj < tables.len() && tables[jj].name@ == name);
}

/// With unique enum names, any enum of the given name is the partner.
pub proof fn lemma_enum_partner_unique(enums: Seq<Enum>, name: Seq<char>, j: int)
    requires
        crate::schema::enum_names_unique(enums),
        0 <= j < enums.len(),
        enums[j].name@ == name,
    ensures
        spec_enum_partner(enums, name) == j,
{
    assert(exists|x: int| 0 <= x < enums.len() && (#[trigger] enums[x]).name@ == name);
    let jj = spec_enum_partner(enums, name);
    assert(0 <= jj < enums.len() && enums[jj].name@ == name);
}

/// Decide `spec_redefine_pair` for a pair of tables with unique column
/// names.
pub fn redefine_pair(pt: &Table, nt: &Table) -> (r: bool)
    requires
        crate::schema::table_wf(*pt),
    ensures
        r == spec_redefine_pair(*pt, *nt),
{
    let mut auto_changed = false;
    let mut all_not_castable = true;
    let nc = nt.columns.len();
    for c in 0..nc
        invariant
            crate::schema::table_wf(*pt),
            nc == nt.columns@.len(),
            auto_changed == exists|c2: int|
                0 <= c2 < c && has_column_named(pt.columns@, (#[trigger] nt.columns@[c2]).name@)
                    && pt.columns@[spec_column_partner(
                    pt.columns@,
                    nt.columns@[c2].name@,
                )].auto_increment != nt.columns@[c2].auto_increment,
            all_not_castable == forall|c2: int|
                0 <= c2 < c && has_column_named(pt.columns@, (#[trigger] nt.columns@[c2]).name@)
                    ==> {
                    let p = pt.columns@[spec_column_partner(pt.columns@, nt.columns@[c2].name@)];
                    &&& !family_eq(p.tpe.family, nt.columns@[c2].tpe.family)
                    &&& spec_family_change(p.tpe.family, nt.columns@[c2].tpe.family)
                        == ColumnTypeChange::NotCastable
                },
    {
        match pt.find_column_index(&nt.columns[c].name) {
            Some(j) => {
                proof {
                    lemma_column_partner_unique(pt.columns@, nt.columns@[c as int].name@, j as int);
                }
                if pt.columns[j].auto_increment != nt.columns[c].auto_increment {
                    auto_changed = true;
                }
                let family_changed = !crate::schema::family_matches(
                    &pt.columns[j].tpe.family,
                    &nt.columns[c].tpe.family,
                );
                let riskiness = crate::mssql::type_change_riskyness(
                    &pt.columns[j].tpe.family,
                    &nt.columns[c].tpe.family,
                );
                if !(family_changed && riskiness == ColumnTypeChange::NotCastable) {
                    all_not_castable = false;
                }
            },
            None => {},
        }
    }
    auto_changed || all_not_castable
}

/// The tables to redefine: the paired tables that fall under the
/// redefinition rule, in the next schema's order.
pub fn tables_to_redefine(previous: &SqlSchema, next: &SqlSchema) -> (r: Vec<TablePair>)
    requires
        schema_wf(*previous),
        schema_wf(*next),
    ensures
        r@ == spec_redefined_tables(*previous, *next, 0),
{
    let mut out: Vec<TablePair> = Vec::new();
    let n = next.tables.len();
    for i in 0..n
        invariant
            schema_wf(*previous),
            schema_wf(*next),
            n == next.tables@.len(),
            spec_redefined_tables(*previous, *next, 0) == out@ + spec_redefined_tables(
                *previous,
                *next,
                i as int,
            ),
    {
        match previous.find_table_index(&next.tables[i].name) {
            Some(pi) => {
                proof {
                    lemma_table_partner_unique(
                        previous.tables@,
                        next.tables@[i as int].name@,
                        pi as int,
                    );
                }
                if redefine_pair(&previous.tables[pi], &next.tables[i]) {
                    let ghost pre = out@;
                    let pair = TablePair { previous: pi, next: i };
                    out.push(pair);
                    proof {
                        lemma_emit_step(
                            pre,
                            pair,
                            spec_redefined_tables(*previous, *next, i + 1),
                        );
                    }
                }
            },
            None => {},
        }
    }
    proof {
        assert(spec_redefined_tables(*previous, *next, n as int) =~= Seq::<TablePair>::empty());
        assert(out@ + Seq::<TablePair>::empty() =~= out@);
    }
    out
}

} // verus!


verus! {

/// The create-enum steps: enums of the next schema with no enum of the
/// same name in the previous one, walking from position `i`.
pub open spec fn spec_create_enum_steps(prev: SqlSchema, next: SqlSchema, i: int) -> Seq<
    SqlMigrationStep,
>
    decreases next.enums@.len() - i,
{
    if i < 0 || i >= next.enums@.len() {
        Seq::empty()
    } else {
        let rest = spec_create_enum_steps(prev, next, i + 1);
        if !has_enum_named(prev.enums@, next.enums@[i].name@) {
            seq![SqlMigrationStep::CreateEnum { enum_index: i as usize }] + rest
        } else {
            rest
        }
    }
}

/// The alter-enum steps: paired enums whose value lists differ.
pub open spec fn spec_alter_enum_steps(prev: SqlSchema, next: SqlSchema, i: int) -> Seq<
    SqlMigrationStep,
>
    decreases next.enums@.len() - i,
{
    if i < 0 || i >= next.enums@.len() {
        Seq::empty()
    } else {
        let rest = spec_alter_enum_steps(prev, next, i + 1);
        let name = next.enums@[i].name@;
        if has_enum_named(prev.enums@, name) && !names_eq(
            prev.enums@[spec_enum_partner(prev.enums@, name)].values@,
            next.enums@[i].values@,
        ) {
            seq![
                SqlMigrationStep::AlterEnum {
                    previous_index: spec_enum_partner(prev.enums@, name) as usize,
                    next_index: i as usize,
                },
            ] + rest
        } else {
            rest
        }
    }
}

/// The create-table steps: tables of the next schema with no table of the
/// same name in the previous one.
pub open spec fn spec_create_table_steps(prev: SqlSchema, next: SqlSchema, i: int) -> Seq<
    SqlMigrationStep,
>
    decreases next.tables@.len() - i,
{
    if i < 0 || i >= next.tables@.len() {
        Seq::empty()
    } else {
        let rest = spec_create_table_steps(prev, next, i + 1);
        if !has_table_named(prev.tables@, next.tables@[i].name@) {
            seq![SqlMigrationStep::CreateTable { table_index: i as usize }] + rest
        } else {
            rest
        }
    }
}

/// The add-column steps of one table pair.
pub open spec fn spec_add_column_steps(pt: Table, nt: Table, pair: TablePair, c: int) -> Seq<
    SqlMigrationStep,
>
    decreases nt.columns@.len() - c,
{
    if c < 0 || c >= nt.columns@.len() {
        Seq::empty()
    } else {
        let rest = spec_add_column_steps(pt, nt, pair, c + 1);
        if !has_column_named(pt.columns@, nt.columns@[c].name@) {
            seq![SqlMigrationStep::AddColumn { pair, column_index: c as usize }] + rest
        } else {
            rest
        }
    }
}

/// The drop-column steps of one table pair.
pub open spec fn spec_drop_column_steps(pt: Table, nt: Table, pair: TablePair, c: int) -> Seq<
    SqlMigrationStep,
>
    decreases pt.columns@.len() - c,
{
    if c < 0 || c >= pt.columns@.len() {
        Seq::empty()
    } else {
        let rest = spec_drop_column_steps(pt, nt, pair, c + 1);
        if !has_column_named(nt.columns@, pt.columns@[c].name@) {
            seq![SqlMigrationStep::DropColumn { pair, column_index: c as usize }] + rest
        } else {
            rest
        }
    }
}

/// The alter-column steps of one table pair: paired columns that changed
/// in family, arity, native type, default or auto-increment.
pub open spec fn spec_alter_column_steps(pt: Table, nt: Table, pair: TablePair, c: int) -> Seq<
    SqlMigrationStep,
>
    decreases nt.columns@.len() - c,
{
    if c < 0 || c >= nt.columns@.len() {
        Seq::empty()
    } else {
        let rest = spec_alter_column_steps(pt, nt, pair, c + 1);
        let name = nt.columns@[c].name@;
        if has_column_named(pt.columns@, name) && !column_eq(
            pt.columns@[spec_column_partner(pt.columns@, name)],
            nt.columns@[c],
        ) {
            seq![
                SqlMigrationStep::AlterColumn {
                    pair,
                    previous_column: spec_column_partner(pt.columns@, name) as usize,
                    next_column: c as usize,
                },
            ] + rest
        } else {
            rest
        }
    }
}

/// The create-index steps of one table pair.
pub open spec fn spec_create_index_steps(pt: Table, nt: Table, next_table: int, x: int) -> Seq<
    SqlMigrationStep,
>
    decreases nt.indices@.len() - x,
{
    if x < 0 || x >= nt.indices@.len() {
        Seq::empty()
    } else {
        let rest = spec_create_index_steps(pt, nt, next_table, x + 1);
        if !spec_has_matching_index(pt.indices@, nt.indices@[x]) {
            seq![
                SqlMigrationStep::CreateIndex {
                    table_index: next_table as usize,
                    index_index: x as usize,
                },
            ] + rest
        } else {
            rest
        }
    }
}

/// The drop-index steps of one table pair.
pub open spec fn spec_drop_index_steps(pt: Table, nt: Table, prev_table: int, x: int) -> Seq<
    SqlMigrationStep,
>
    decreases pt.indices@.len() - x,
{
    if x < 0 || x >= pt.indices@.len() {
        Seq::empty()
    } else {
        let rest = spec_drop_index_steps(pt, nt, prev_table, x + 1);
        if !spec_has_matching_index(nt.indices@, pt.indices@[x]) {
            seq![
                SqlMigrationStep::DropIndex {
                    table_index: prev_table as usize,
                    index_index: x as usize,
                },
            ] + rest
        } else {
            rest
        }
    }
}

/// All the column and index steps of one table pair.
pub open spec fn spec_pair_steps(pt: Table, nt: Table, pair: TablePair) -> Seq<SqlMigrationStep> {
    spec_add_column_steps(pt, nt, pair, 0) + spec_drop_column_steps(pt, nt, pair, 0)
        + spec_alter_column_steps(pt, nt, pair, 0) + spec_create_index_steps(
        pt,
        nt,
        pair.next as int,
        0,
    ) + spec_drop_index_steps(pt, nt, pair.previous as int, 0)
}

/// Whether the next schema's table at `i` is paired and falls under the
/// redefinition rule.
pub open spec fn spec_pair_is_redefined(prev: SqlSchema, next: SqlSchema, i: int) -> bool {
    has_table_named(prev.tables@, next.tables@[i].name@) && spec_redefine_pair(
        prev.tables@[spec_table_partner(prev.tables@, next.tables@[i].name@)],
        next.tables@[i],
    )
}

/// The alter-table phase: column and index steps of every paired table
/// that is not redefined.
pub open spec fn spec_alter_table_steps(prev: SqlSchema, next: SqlSchema, i: int) -> Seq<
    SqlMigrationStep,
>
    decreases next.tables@.len() - i,
{
    if i < 0 || i >= next.tables@.len() {
        Seq::empty()
    } else {
        let rest = spec_alter_table_steps(prev, next, i + 1);
        let name = next.tables@[i].name@;
        if has_table_named(prev.tables@, name) && !spec_pair_is_redefined(prev, next, i) {
            let pi = spec_table_partner(prev.tables@, name);
            spec_pair_steps(
                prev.tables@[pi],
                next.tables@[i],
                TablePair { previous: pi as usize, next: i as usize },
            ) + rest
        } else {
            rest
        }
    }
}

/// The add-foreign-key steps of one table pair.
pub open spec fn spec_add_fk_table_steps(pt: Table, nt: Table, next_table: int, k: int) -> Seq<
    SqlMigrationStep,
>
    decreases nt.foreign_keys@.len() - k,
{
    if k < 0 || k >= nt.foreign_keys@.len() {
        Seq::empty()
    } else {
        let rest = spec_add_fk_table_steps(pt, nt, next_table, k + 1);
        if !spec_has_matching_fk(pt.foreign_keys@, nt.foreign_keys@[k]) {
            seq![
                SqlMigrationStep::AddForeignKey {
                    table_index: next_table as usize,
                    foreign_key_index: k as usize,
                },
            ] + rest
        } else {
            rest
        }
    }
}

/// The add-foreign-key phase, over the paired tables of the next schema.
pub open spec fn spec_add_fk_steps(prev: SqlSchema, next: SqlSchema, i: int) -> Seq<
    SqlMigrationStep,
>
    decreases next.tables@.len() - i,
{
    if i < 0 || i >= next.tables@.len() {
        Seq::empty()
    } else {
        let rest = spec_add_fk_steps(prev, next, i + 1);
        let name = next.tables@[i].name@;
        if has_table_named(prev.tables@, name) {
            spec_add_fk_table_steps(
                prev.tables@[spec_table_partner(prev.tables@, name)],
                next.tables@[i],
                i,
                0,
            ) + rest
        } else {
            rest
        }
    }
}

/// The drop-foreign-key steps of one table pair.
pub open spec fn spec_drop_fk_table_steps(pt: Table, nt: Table, prev_table: int, k: int) -> Seq<
    SqlMigrationStep,
>
    decreases pt.foreign_keys@.len() - k,
{
    if k < 0 || k >= pt.foreign_keys@.len() {
        Seq::empty()
    } else {
        let rest = spec_drop_fk_table_steps(pt, nt, prev_table, k + 1);
        if !spec_has_matching_fk(nt.foreign_keys@, pt.foreign_keys@[k]) {
            seq![
                SqlMigrationStep::DropForeignKey {
                    table_index: prev_table as usize,
                    foreign_key_index: k as usize,
                },
            ] + rest
        } else {
            rest
        }
    }
}

/// The drop-foreign-key phase, over the paired tables of the previous
/// schema.
pub open spec fn spec_drop_fk_steps(prev: SqlSchema, next: SqlSchema, i: int) -> Seq<
    SqlMigrationStep,
>
    decreases prev.tables@.len() - i,
{
    if i < 0 || i >= prev.tables@.len() {
        Seq::empty()
    } else {
        let rest = spec_drop_fk_steps(prev, next, i + 1);
        let name = prev.tables@[i].name@;
        if has_table_named(next.tables@, name) {
            spec_drop_fk_table_steps(
                prev.tables@[i],
                next.tables@[spec_table_partner(next.tables@, name)],
                i,
                0,
            ) + rest
        } else {
            rest
        }
    }
}

/// The drop-table steps: tables of the previous schema with no table of
/// the same name in the next one.
pub open spec fn spec_drop_table_steps(prev: SqlSchema, next: SqlSchema, i: int) -> Seq<
    SqlMigrationStep,
>
    decreases prev.tables@.len() - i,
{
    if i < 0 || i >= prev.tables@.len() {
        Seq::empty()
    } else {
        let rest = spec_drop_table_steps(prev, next, i + 1);
        if !has_table_named(next.tables@, prev.tables@[i].name@) {
            seq![SqlMigrationStep::DropTable { table_index: i as usize }] + rest
        } else {
            rest
        }
    }
}

/// The drop-enum steps: enums of the previous schema with no enum of the
/// same name in the next one.
pub open spec fn spec_drop_enum_steps(prev: SqlSchema, next: SqlSchema, i: int) -> Seq<
    SqlMigrationStep,
>
    decreases prev.enums@.len() - i,
{
    if i < 0 || i >= prev.enums@.len() {
        Seq::empty()
    } else {
        let rest = spec_drop_enum_steps(prev, next, i + 1);
        if !has_enum_named(next.enums@, prev.enums@[i].name@) {
            seq![SqlMigrationStep::DropEnum { enum_index: i as usize }] + rest
        } else {
            rest
        }
    }
}

/// The redefine marker: one step when some table is to be redefined.
pub open spec fn spec_redefine_marker(prev: SqlSchema, next: SqlSchema) -> Seq<SqlMigrationStep> {
    if spec_redefined_tables(prev, next, 0).len() > 0 {
        seq![SqlMigrationStep::RedefineTables]
    } else {
        Seq::empty()
    }
}

/// The whole diff: the phases in order.
pub open spec fn spec_diff_steps(prev: SqlSchema, next: SqlSchema) -> Seq<SqlMigrationStep> {
    spec_create_enum_steps(prev, next, 0) + spec_alter_enum_steps(prev, next, 0)
        + spec_create_table_steps(prev, next, 0) + spec_redefine_marker(prev, next)
        + spec_alter_table_steps(prev, next, 0) + spec_add_fk_steps(prev, next, 0)
        + spec_drop_fk_steps(prev, next, 0) + spec_drop_table_steps(prev, next, 0)
        + spec_drop_enum_steps(prev, next, 0)
}

} // verus!

verus! {

fn emit_create_enum_steps(steps: &mut Vec<SqlMigrationStep>, prev: &SqlSchema, next: &SqlSchema)
    ensures
        final(steps)@ == old(steps)@ + spec_create_enum_steps(*prev, *next, 0),
{
    let ghost base = steps@;
    let n = next.enums.len();
    for i in 0..n
        invariant
            n == next.enums@.len(),
            base + spec_create_enum_steps(*prev, *next, 0) == steps@ + spec_create_enum_steps(
                *prev,
                *next,
                i as int,
            ),
    {
        if prev.find_enum_index(&next.enums[i].name).is_none() {
            let ghost pre = steps@;
            let e = SqlMigrationStep::CreateEnum { enum_index: i };
            steps.push(e);
            proof {
                lemma_emit_step(pre, e, spec_create_enum_steps(*prev, *next, i + 1));
            }
        }
    }
    proof {
        assert(spec_create_enum_steps(*prev, *next, n as int) =~= Seq::<SqlMigrationStep>::empty());
        assert(steps@ + Seq::<SqlMigrationStep>::empty() =~= steps@);
    }
}

fn emit_alter_enum_steps(steps: &mut Vec<SqlMigrationStep>, prev: &SqlSchema, next: &SqlSchema)
    requires
        crate::schema::enum_names_unique(prev.enums@),
    ensures
        final(steps)@ == old(steps)@ + spec_alter_enum_steps(*prev, *next, 0),
{
    let ghost base = steps@;
    let n = next.enums.len();
    for i in 0..n
        invariant
            crate::schema::enum_names_unique(prev.enums@),
            n == next.enums@.len(),
            base + spec_alter_enum_steps(*prev, *next, 0) == steps@ + spec_alter_enum_steps(
                *prev,
                *next,
                i as int,
            ),
    {
        match prev.find_enum_index(&next.enums[i].name) {
            Some(pi) => {
                proof {
                    lemma_enum_partner_unique(prev.enums@, next.enums@[i as int].name@, pi as int);
                }
                if !names_vecs_eq(&prev.enums[pi].values, &next.enums[i].values) {
                    let ghost pre = steps@;
                    let e = SqlMigrationStep::AlterEnum { previous_index: pi, next_index: i };
                    steps.push(e);
                    proof {
                        lemma_emit_step(pre, e, spec_alter_enum_steps(*prev, *next, i + 1));
                    }
                }
            },
            None => {},
        }
    }
    proof {
        assert(spec_alter_enum_steps(*prev, *next, n as int) =~= Seq::<SqlMigrationStep>::empty());
        assert(steps@ + Seq::<SqlMigrationStep>::empty() =~= steps@);
    }
}

fn emit_create_table_steps(steps: &mut Vec<SqlMigrationStep>, prev: &SqlSchema, next: &SqlSchema)
    ensures
        final(steps)@ == old(steps)@ + spec_create_table_steps(*prev, *next, 0),
{
    let ghost base = steps@;
    let n = next.tables.len();
    for i in 0..n
        invariant
            n == next.tables@.len(),
            base + spec_create_table_steps(*prev, *next, 0) == steps@ + spec_create_table_steps(
                *prev,
                *next,
                i as int,
            ),
    {
        if prev.find_table_index(&next.tables[i].name).is_none() {
            let ghost pre = steps@;
            let e = SqlMigrationStep::CreateTable { table_index: i };
            steps.push(e);
            proof {
                lemma_emit_step(pre, e, spec_create_table_steps(*prev, *next, i + 1));
            }
        }
    }
    proof {
        assert(spec_create_table_steps(*prev, *next, n as int) =~= Seq::<SqlMigrationStep>::empty());
        assert(steps@ + Seq::<SqlMigrationStep>::empty() =~= steps@);
    }
}

fn emit_pair_steps(steps: &mut Vec<SqlMigrationStep>, pt: &Table, nt: &Table, pair: TablePair)
    requires
        crate::schema::table_wf(*pt),
    ensures
        final(steps)@ == old(steps)@ + spec_pair_steps(*pt, *nt, pair),
{
    let ghost base = steps@;
    let nc = nt.columns.len();
    for c in 0..nc
        invariant
            crate::schema::table_wf(*pt),
            nc == nt.columns@.len(),
            base + spec_add_column_steps(*pt, *nt, pair, 0) == steps@ + spec_add_column_steps(
                *pt,
                *nt,
                pair,
                c as int,
            ),
    {
        if pt.find_column_index(&nt.columns[c].name).is_none() {
            let ghost pre = steps@;
            let e = SqlMigrationStep::AddColumn { pair, column_index: c };
            steps.push(e);
            proof {
                lemma_emit_step(pre, e, spec_add_column_steps(*pt, *nt, pair, c + 1));
            }
        }
    }
    proof {
        assert(spec_add_column_steps(*pt, *nt, pair, nc as int) =~= Seq::<SqlMigrationStep>::empty());
        assert(steps@ + Seq::<SqlMigrationStep>::empty() =~= steps@);
        assert(steps@ == base + spec_add_column_steps(*pt, *nt, pair, 0));
    }
    let pc = pt.columns.len();
    for c in 0..pc
        invariant
            crate::schema::table_wf(*pt),
            pc == pt.columns@.len(),
            base + spec_add_column_steps(*pt, *nt, pair, 0) + spec_drop_column_steps(
                *pt,
                *nt,
                pair,
                0,
            ) == steps@ + spec_drop_column_steps(*pt, *nt, pair, c as int),
    {
        if nt.find_column_index(&pt.columns[c].name).is_none() {
            let ghost pre = steps@;
            let e = SqlMigrationStep::DropColumn { pair, column_index: c };
            steps.push(e);
            proof {
                lemma_emit_step(pre, e, spec_drop_column_steps(*pt, *nt, pair, c + 1));
            }
        }
    }
    proof {
        assert(spec_drop_column_steps(*pt, *nt, pair, pc as int) =~= Seq::<SqlMigrationStep>::empty());
        assert(steps@ + Seq::<SqlMigrationStep>::empty() =~= steps@);
    }
    for c in 0..nc
        invariant
            crate::schema::table_wf(*pt),
            nc == nt.columns@.len(),
            base + spec_add_column_steps(*pt, *nt, pair, 0) + spec_drop_column_steps(
                *pt,
                *nt,
                pair,
                0,
            ) + spec_alter_column_steps(*pt, *nt, pair, 0) == steps@ + spec_alter_column_steps(
                *pt,
                *nt,
                pair,
                c as int,
            ),
    {
        match pt.find_column_index(&nt.columns[c].name) {
            Some(j) => {
                proof {
                    lemma_column_partner_unique(pt.columns@, nt.columns@[c as int].name@, j as int);
                }
                if !column_matches(&pt.columns[j], &nt.columns[c]) {
                    let ghost pre = steps@;
                    let e = SqlMigrationStep::AlterColumn {
                        pair,
                        previous_column: j,
                        next_column: c,
                    };
                    steps.push(e);
                    proof {
                        lemma_emit_step(pre, e, spec_alter_column_steps(*pt, *nt, pair, c + 1));
                    }
                }
            },
            None => {},
        }
    }
    proof {
        assert(spec_alter_column_steps(*pt, *nt, pair, nc as int) =~= Seq::<SqlMigrationStep>::empty());
        assert(steps@ + Seq::<SqlMigrationStep>::empty() =~= steps@);
    }
    let ni = nt.indices.len();
    for x in 0..ni
        invariant
            crate::schema::table_wf(*pt),
            ni == nt.indices@.len(),
            base + spec_add_column_steps(*pt, *nt, pair, 0) + spec_drop_column_steps(
                *pt,
                *nt,
                pair,
                0,
            ) + spec_alter_column_steps(*pt, *nt, pair, 0) + spec_create_index_steps(
                *pt,
                *nt,
                pair.next as int,
                0,
            ) == steps@ + spec_create_index_steps(*pt, *nt, pair.next as int, x as int),
    {
        if !has_matching_index(&pt.indices, &nt.indices[x]) {
            let ghost pre = steps@;
            let e = SqlMigrationStep::CreateIndex { table_index: pair.next, index_index: x };
            steps.push(e);
            proof {
                lemma_emit_step(pre, e, spec_create_index_steps(*pt, *nt, pair.next as int, x + 1));
            }
        }
    }
    proof {
        assert(spec_create_index_steps(*pt, *nt, pair.next as int, ni as int)
            =~= Seq::<SqlMigrationStep>::empty());
        assert(steps@ + Seq::<SqlMigrationStep>::empty() =~= steps@);
    }
    let pi = pt.indices.len();
    for x in 0..pi
        invariant
            crate::schema::table_wf(*pt),
            pi == pt.indices@.len(),
            base + spec_add_column_steps(*pt, *nt, pair, 0) + spec_drop_column_steps(
                *pt,
                *nt,
                pair,
                0,
            ) + spec_alter_column_steps(*pt, *nt, pair, 0) + spec_create_index_steps(
                *pt,
                *nt,
                pair.next as int,
                0,
            ) + spec_drop_index_steps(*pt, *nt, pair.previous as int, 0) == steps@
                + spec_drop_index_steps(*pt, *nt, pair.previous as int, x as int),
    {
        if !has_matching_index(&nt.indices, &pt.indices[x]) {
            let ghost pre = steps@;
            let e = SqlMigrationStep::DropIndex { table_index: pair.previous, index_index: x };
            steps.push(e);
            proof {
                lemma_emit_step(pre, e, spec_drop_index_steps(*pt, *nt, pair.previous as int, x + 1));
            }
        }
    }
    proof {
        assert(spec_drop_index_steps(*pt, *nt, pair.previous as int, pi as int)
            =~= Seq::<SqlMigrationStep>::empty());
        assert(steps@ + Seq::<SqlMigrationStep>::empty() =~= steps@);
        assert(steps@ =~= base + spec_pair_steps(*pt, *nt, pair));
    }
}

} // verus!

verus! {

fn emit_alter_table_steps(steps: &mut Vec<SqlMigrationStep>, prev: &SqlSchema, next: &SqlSchema)
    requires
        schema_wf(*prev),
    ensures
        final(steps)@ == old(steps)@ + spec_alter_table_steps(*prev, *next, 0),
{
    let ghost base = steps@;
    let n = next.tables.len();
    for i in 0..n
        invariant
            schema_wf(*prev),
            n == next.tables@.len(),
            base + spec_alter_table_steps(*prev, *next, 0) == steps@ + spec_alter_table_steps(
                *prev,
                *next,
                i as int,
            ),
    {
        match prev.find_table_index(&next.tables[i].name) {
            Some(pi) => {
                proof {
                    lemma_table_partner_unique(prev.tables@, next.tables@[i as int].name@, pi as int);
                }
                if !redefine_pair(&prev.tables[pi], &next.tables[i]) {
                    let ghost pre = steps@;
                    let pair = TablePair { previous: pi, next: i };
                    emit_pair_steps(steps, &prev.tables[pi], &next.tables[i], pair);
                    proof {
                        assert(spec_alter_table_steps(*prev, *next, i as int) == spec_pair_steps(
                            prev.tables@[pi as int],
                            next.tables@[i as int],
                            pair,
                        ) + spec_alter_table_steps(*prev, *next, i + 1));
                        assert(pre + (spec_pair_steps(
                            prev.tables@[pi as int],
                            next.tables@[i as int],
                            pair,
                        ) + spec_alter_table_steps(*prev, *next, i + 1)) =~= steps@
                            + spec_alter_table_steps(*prev, *next, i + 1));
                    }
                }
            },
            None => {},
        }
    }
    proof {
        assert(spec_alter_table_steps(*prev, *next, n as int) =~= Seq::<SqlMigrationStep>::empty());
        assert(steps@ + Seq::<SqlMigrationStep>::empty() =~= steps@);
    }
}

fn emit_add_fk_table_steps(
    steps: &mut Vec<SqlMigrationStep>,
    pt: &Table,
    nt: &Table,
    next_table: usize,
)
    ensures
        final(steps)@ == old(steps)@ + spec_add_fk_table_steps(*pt, *nt, next_table as int, 0),
{
    let ghost base = steps@;
    let nk = nt.foreign_keys.len();
    for k in 0..nk
        invariant
            nk == nt.foreign_keys@.len(),
            base + spec_add_fk_table_steps(*pt, *nt, next_table as int, 0) == steps@
                + spec_add_fk_table_steps(*pt, *nt, next_table as int, k as int),
    {
        if !has_matching_fk(&pt.foreign_keys, &nt.foreign_keys[k]) {
            let ghost pre = steps@;
            let e = SqlMigrationStep::AddForeignKey { table_index: next_table, foreign_key_index: k };
            steps.push(e);
            proof {
                lemma_emit_step(pre, e, spec_add_fk_table_steps(*pt, *nt, next_table as int, k + 1));
            }
        }
    }
    proof {
        assert(spec_add_fk_table_steps(*pt, *nt, next_table as int, nk as int)
            =~= Seq::<SqlMigrationStep>::empty());
        assert(steps@ + Seq::<SqlMigrationStep>::empty() =~= steps@);
    }
}

fn emit_add_fk_steps(steps: &mut Vec<SqlMigrationStep>, prev: &SqlSchema, next: &SqlSchema)
    requires
        schema_wf(*prev),
    ensures
        final(steps)@ == old(steps)@ + spec_add_fk_steps(*prev, *next, 0),
{
    let ghost base = steps@;
    let n = next.tables.len();
    for i in 0..n
        invariant
            schema_wf(*prev),
            n == next.tables@.len(),
            base + spec_add_fk_steps(*prev, *next, 0) == steps@ + spec_add_fk_steps(
                *prev,
                *next,
                i as int,
            ),
    {
        match prev.find_table_index(&next.tables[i].name) {
            Some(pi) => {
                proof {
                    lemma_table_partner_unique(prev.tables@, next.tables@[i as int].name@, pi as int);
                }
                let ghost pre = steps@;
                emit_add_fk_table_steps(steps, &prev.tables[pi], &next.tables[i], i);
                proof {
                    assert(pre + (spec_add_fk_table_steps(
                        prev.tables@[pi as int],
                        next.tables@[i as int],
                        i as int,
                        0,
                    ) + spec_add_fk_steps(*prev, *next, i + 1)) =~= steps@ + spec_add_fk_steps(
                        *prev,
                        *next,
                        i + 1,
                    ));
                }
            },
            None => {},
        }
    }
    proof {
        assert(spec_add_fk_steps(*prev, *next, n as int) =~= Seq::<SqlMigrationStep>::empty());
        assert(steps@ + Seq::<SqlMigrationStep>::empty() =~= steps@);
    }
}

fn emit_drop_fk_table_steps(
    steps: &mut Vec<SqlMigrationStep>,
    pt: &Table,
    nt: &Table,
    prev_table: usize,
)
    ensures
        final(steps)@ == old(steps)@ + spec_drop_fk_table_steps(*pt, *nt, prev_table as int, 0),
{
    let ghost base = steps@;
    let nk = pt.foreign_keys.len();
    for k in 0..nk
        invariant
            nk == pt.foreign_keys@.len(),
            base + spec_drop_fk_table_steps(*pt, *nt, prev_table as int, 0) == steps@
                + spec_drop_fk_table_steps(*pt, *nt, prev_table as int, k as int),
    {
        if !has_matching_fk(&nt.foreign_keys, &pt.foreign_keys[k]) {
            let ghost pre = steps@;
            let e = SqlMigrationStep::DropForeignKey {
                table_index: prev_table,
                foreign_key_index: k,
            };
            steps.push(e);
            proof {
                lemma_emit_step(pre, e, spec_drop_fk_table_steps(*pt, *nt, prev_table as int, k + 1));
            }
        }
    }
    proof {
        assert(spec_drop_fk_table_steps(*pt, *nt, prev_table as int, nk as int)
            =~= Seq::<SqlMigrationStep>::empty());
        assert(steps@ + Seq::<SqlMigrationStep>::empty() =~= steps@);
    }
}

fn emit_drop_fk_steps(steps: &mut Vec<SqlMigrationStep>, prev: &SqlSchema, next: &SqlSchema)
    requires
        schema_wf(*next),
    ensures
        final(steps)@ == old(steps)@ + spec_drop_fk_steps(*prev, *next, 0),
{
    let ghost base = steps@;
    let n = prev.tables.len();
    for i in 0..n
        invariant
            schema_wf(*next),
            n == prev.tables@.len(),
            base + spec_drop_fk_steps(*prev, *next, 0) == steps@ + spec_drop_fk_steps(
                *prev,
                *next,
                i as int,
            ),
    {
        match next.find_table_index(&prev.tables[i].name) {
            Some(ni) => {
                proof {
                    lemma_table_partner_unique(next.tables@, prev.tables@[i as int].name@, ni as int);
                }
                let ghost pre = steps@;
                emit_drop_fk_table_steps(steps, &prev.tables[i], &next.tables[ni], i);
                proof {
                    assert(pre + (spec_drop_fk_table_steps(
                        prev.tables@[i as int],
                        next.tables@[ni as int],
                        i as int,
                        0,
                    ) + spec_drop_fk_steps(*prev, *next, i + 1)) =~= steps@ + spec_drop_fk_steps(
                        *prev,
                        *next,
                        i + 1,
                    ));
                }
            },
            None => {},
        }
    }
    proof {
        assert(spec_drop_fk_steps(*prev, *next, n as int) =~= Seq::<SqlMigrationStep>::empty());
        assert(steps@ + Seq::<SqlMigrationStep>::empty() =~= steps@);
    }
}

fn emit_drop_table_steps(steps: &mut Vec<SqlMigrationStep>, prev: &SqlSchema, next: &SqlSchema)
    ensures
        final(steps)@ == old(steps)@ + spec_drop_table_steps(*prev, *next, 0),
{
    let ghost base = steps@;
    let n = prev.tables.len();
    for i in 0..n
        invariant
            n == prev.tables@.len(),
            base + spec_drop_table_steps(*prev, *next, 0) == steps@ + spec_drop_table_steps(
                *prev,
                *next,
                i as int,
            ),
    {
        if next.find_table_index(&prev.tables[i].name).is_none() {
            let ghost pre = steps@;
            let e = SqlMigrationStep::DropTable { table_index: i };
            steps.push(e);
            proof {
                lemma_emit_step(pre, e, spec_drop_table_steps(*prev, *next, i + 1));
            }
        }
    }
    proof {
        assert(spec_drop_table_steps(*prev, *next, n as int) =~= Seq::<SqlMigrationStep>::empty());
        assert(steps@ + Seq::<SqlMigrationStep>::empty() =~= steps@);
    }
}

fn emit_drop_enum_steps(steps: &mut Vec<SqlMigrationStep>, prev: &SqlSchema, next: &SqlSchema)
    ensures
        final(steps)@ == old(steps)@ + spec_drop_enum_steps(*prev, *next, 0),
{
    let ghost base = steps@;
    let n = prev.enums.len();
    for i in 0..n
        invariant
            n == prev.enums@.len(),
            base + spec_drop_enum_steps(*prev, *next, 0) == steps@ + spec_drop_enum_steps(
                *prev,
                *next,
                i as int,
            ),
    {
        if next.find_enum_index(&prev.enums[i].name).is_none() {
            let ghost pre = steps@;
            let e = SqlMigrationStep::DropEnum { enum_index: i };
            steps.push(e);
            proof {
                lemma_emit_step(pre, e, spec_drop_enum_steps(*prev, *next, i + 1));
            }
        }
    }
    proof {
        assert(spec_drop_enum_steps(*prev, *next, n as int) =~= Seq::<SqlMigrationStep>::empty());
        assert(steps@ + Seq::<SqlMigrationStep>::empty() =~= steps@);
    }
}

} // verus!

verus! {

/// The pair of schemas being compared.
pub struct SqlSchemaDiffer<'a> {
    pub previous: &'a SqlSchema,
    pub next: &'a SqlSchema,
}

/// A pair of columns of the same name in two compared tables.
pub struct ColumnDiffer<'a> {
    pub previous: ColumnWalker<'a>,
    pub next: ColumnWalker<'a>,
}

impl<'a> ColumnDiffer<'a> {
    /// Whether the column's auto-increment flag changes.
    pub fn autoincrement_changed(&self) -> (r: bool)
        requires
            self.previous.valid(),
            self.next.valid(),
        ensures
            r == (self.previous.spec_column().auto_increment
                != self.next.spec_column().auto_increment),
    {
        self.previous.is_autoincrement() != self.next.is_autoincrement()
    }
}

impl crate::mssql::MssqlFlavour {
    /// The dialect's redefinition rule over a whole schema pair.
    pub fn tables_to_redefine(&self, differ: &SqlSchemaDiffer<'_>) -> (r: Vec<TablePair>)
        requires
            schema_wf(*differ.previous),
            schema_wf(*differ.next),
        ensures
            r@ == spec_redefined_tables(*differ.previous, *differ.next, 0),
    {
        tables_to_redefine(differ.previous, differ.next)
    }

    /// The dialect's column type change classification: nothing when the
    /// family is unchanged, the family table's riskiness otherwise.
    pub fn column_type_change(&self, differ: &ColumnDiffer<'_>) -> (r: Option<ColumnTypeChange>)
        requires
            differ.previous.valid(),
            differ.next.valid(),
        ensures
            r == if family_eq(
                differ.previous.spec_column().tpe.family,
                differ.next.spec_column().tpe.family,
            ) {
                None::<ColumnTypeChange>
            } else {
                Some(
                    spec_family_change(
                        differ.previous.spec_column().tpe.family,
                        differ.next.spec_column().tpe.family,
                    ),
                )
            },
    {
        if crate::schema::family_matches(
            differ.previous.column_type_family(),
            differ.next.column_type_family(),
        ) {
            None
        } else {
            Some(
                crate::mssql::type_change_riskyness(
                    differ.previous.column_type_family(),
                    differ.next.column_type_family(),
                ),
            )
        }
    }
}

/// Compute the migration from one schema to another: the ordered steps of
/// every phase, and the tables the dialect redefines wholesale. On two
/// structurally equal schemas the migration is empty.
pub fn diff(
    previous: SqlSchema,
    next: SqlSchema,
    flavour: &crate::mssql::MssqlFlavour,
) -> (m: SqlMigration)
    requires
        schema_wf(previous),
        schema_wf(next),
    ensures
        m.before == previous,
        m.after == next,
        m.redefined_tables@ == spec_redefined_tables(previous, next, 0),
        m.steps@ == spec_diff_steps(previous, next),
        (schema_eq(previous, next) && crate::schema::spec_tables_have_columns(previous))
            ==> m.steps@.len() == 0,
        (schema_eq(previous, next) && crate::schema::spec_tables_have_columns(previous))
            ==> m.redefined_tables@.len() == 0,
{
    let differ = SqlSchemaDiffer { previous: &previous, next: &next };
    let redefined_tables = flavour.tables_to_redefine(&differ);
    let mut steps: Vec<SqlMigrationStep> = Vec::new();
    emit_create_enum_steps(&mut steps, &previous, &next);
    emit_alter_enum_steps(&mut steps, &previous, &next);
    emit_create_table_steps(&mut steps, &previous, &next);
    if redefined_tables.len() > 0 {
        steps.push(SqlMigrationStep::RedefineTables);
    }
    emit_alter_table_steps(&mut steps, &previous, &next);
    emit_add_fk_steps(&mut steps, &previous, &next);
    emit_drop_fk_steps(&mut steps, &previous, &next);
    emit_drop_table_steps(&mut steps, &previous, &next);
    emit_drop_enum_steps(&mut steps, &previous, &next);
    proof {
        assert(steps@ =~= spec_diff_steps(previous, next));
        if schema_eq(previous, next) && crate::schema::spec_tables_have_columns(previous) {
            lemma_diff_idempotent(previous, next);
        }
    }
    SqlMigration { before: previous, after: next, redefined_tables, steps }
}

/// Ordered name equality is symmetric.
proof fn lemma_names_eq_sym(a: Seq<String>, b: Seq<String>)
    requires
        names_eq(a, b),
    ensures
        names_eq(b, a),
{
    assert forall|i: int| 0 <= i < b.len() implies (#[trigger] b[i])@ == a[i]@ by {
        assert(a[i]@ == b[i]@);
    }
}

proof fn lemma_create_enum_steps_empty(prev: SqlSchema, next: SqlSchema, i: int)
    requires
        crate::schema::enums_eq(prev.enums@, next.enums@),
        0 <= i,
    ensures
        spec_create_enum_steps(prev, next, i).len() == 0,
    decreases next.enums@.len() - i,
{
    if i < next.enums@.len() {
        assert(crate::schema::enum_eq(prev.enums@[i], next.enums@[i]));
        assert(prev.enums@[i].name@ == next.enums@[i].name@);
        assert(has_enum_named(prev.enums@, next.enums@[i].name@));
        lemma_create_enum_steps_empty(prev, next, i + 1);
    }
}

proof fn lemma_alter_enum_steps_empty(prev: SqlSchema, next: SqlSchema, i: int)
    requires
        crate::schema::enums_eq(prev.enums@, next.enums@),
        crate::schema::enum_names_unique(prev.enums@),
        0 <= i,
    ensures
        spec_alter_enum_steps(prev, next, i).len() == 0,
    decreases next.enums@.len() - i,
{
    if i < next.enums@.len() {
        assert(crate::schema::enum_eq(prev.enums@[i], next.enums@[i]));
        assert(has_enum_named(prev.enums@, next.enums@[i].name@));
        lemma_enum_partner_unique(prev.enums@, next.enums@[i].name@, i);
        lemma_alter_enum_steps_empty(prev, next, i + 1);
    }
}

proof fn lemma_create_table_steps_empty(prev: SqlSchema, next: SqlSchema, i: int)
    requires
        crate::schema::tables_eq(prev.tables@, next.tables@),
        0 <= i,
    ensures
        spec_create_table_steps(prev, next, i).len() == 0,
    decreases next.tables@.len() - i,
{
    if i < next.tables@.len() {
        assert(crate::schema::table_eq(prev.tables@[i], next.tables@[i]));
        assert(has_table_named(prev.tables@, next.tables@[i].name@));
        lemma_create_table_steps_empty(prev, next, i + 1);
    }
}

/// An unchanged table pair with at least one column is never redefined.
proof fn lemma_equal_pair_not_redefined(pt: Table, nt: Table)
    requires
        crate::schema::table_eq(pt, nt),
        crate::schema::table_wf(pt),
        pt.columns@.len() > 0,
    ensures
        !spec_redefine_pair(pt, nt),
{
    assert(crate::schema::columns_eq(pt.columns@, nt.columns@));
    assert forall|c: int|
        0 <= c < nt.columns@.len() && has_column_named(
            pt.columns@,
            (#[trigger] nt.columns@[c]).name@,
        ) implies {
        &&& spec_column_partner(pt.columns@, nt.columns@[c].name@) == c
        &&& pt.columns@[spec_column_partner(pt.columns@, nt.columns@[c].name@)].auto_increment
            == nt.columns@[c].auto_increment
        &&& family_eq(
            pt.columns@[spec_column_partner(pt.columns@, nt.columns@[c].name@)].tpe.family,
            nt.columns@[c].tpe.family,
        )
    } by {
        assert(column_eq(pt.columns@[c], nt.columns@[c]));
        lemma_column_partner_unique(pt.columns@, nt.columns@[c].name@, c);
    }
    assert(!spec_auto_changed_pair(pt, nt));
    assert(column_eq(pt.columns@[0], nt.columns@[0]));
    assert(has_column_named(pt.columns@, nt.columns@[0].name@));
    assert(family_eq(
        pt.columns@[spec_column_partner(pt.columns@, nt.columns@[0].name@)].tpe.family,
        nt.columns@[0].tpe.family,
    ));
    assert(!spec_all_pairs_not_castable(pt, nt));
}

proof fn lemma_redefined_tables_empty(prev: SqlSchema, next: SqlSchema, i: int)
    requires
        crate::schema::tables_eq(prev.tables@, next.tables@),
        crate::schema::table_names_unique(prev.tables@),
        forall|t: int|
            0 <= t < prev.tables@.len() ==> crate::schema::table_wf(#[trigger] prev.tables@[t]),
        crate::schema::spec_tables_have_columns(prev),
        0 <= i,
    ensures
        spec_redefined_tables(prev, next, i).len() == 0,
    decreases next.tables@.len() - i,
{
    if i < next.tables@.len() {
        assert(crate::schema::table_eq(prev.tables@[i], next.tables@[i]));
        if has_table_named(prev.tables@, next.tables@[i].name@) {
            lemma_table_partner_unique(prev.tables@, next.tables@[i].name@, i);
            lemma_equal_pair_not_redefined(prev.tables@[i], next.tables@[i]);
        }
        lemma_redefined_tables_empty(prev, next, i + 1);
    }
}

/// An unchanged table pair produces no column or index steps.
proof fn lemma_equal_pair_steps_empty(pt: Table, nt: Table, pair: TablePair)
    requires
        crate::schema::table_eq(pt, nt),
        crate::schema::table_wf(pt),
    ensures
        spec_pair_steps(pt, nt, pair).len() == 0,
{
    lemma_add_column_steps_empty(pt, nt, pair, 0);
    lemma_drop_column_steps_empty(pt, nt, pair, 0);
    lemma_alter_column_steps_empty(pt, nt, pair, 0);
    lemma_create_index_steps_empty(pt, nt, pair.next as int, 0);
    lemma_drop_index_steps_empty(pt, nt, pair.previous as int, 0);
}

proof fn lemma_add_column_steps_empty(pt: Table, nt: Table, pair: TablePair, c: int)
    requires
        crate::schema::columns_eq(pt.columns@, nt.columns@),
        0 <= c,
    ensures
        spec_add_column_steps(pt, nt, pair, c).len() == 0,
    decreases nt.columns@.len() - c,
{
    if c < nt.columns@.len() {
        assert(column_eq(pt.columns@[c], nt.columns@[c]));
        assert(has_column_named(pt.columns@, nt.columns@[c].name@));
        lemma_add_column_steps_empty(pt, nt, pair, c + 1);
    }
}

proof fn lemma_drop_column_steps_empty(pt: Table, nt: Table, pair: TablePair, c: int)
    requires
        crate::schema::columns_eq(pt.columns@, nt.columns@),
        0 <= c,
    ensures
        spec_drop_column_steps(pt, nt, pair, c).len() == 0,
    decreases pt.columns@.len() - c,
{
    if c < pt.columns@.len() {
        assert(column_eq(pt.columns@[c], nt.columns@[c]));
        assert(has_column_named(nt.columns@, pt.columns@[c].name@));
        lemma_drop_column_steps_empty(pt, nt, pair, c + 1);
    }
}

proof fn lemma_alter_column_steps_empty(pt: Table, nt: Table, pair: TablePair, c: int)
    requires
        crate::schema::columns_eq(pt.columns@, nt.columns@),
        crate::schema::column_names_unique(pt.columns@),
        0 <= c,
    ensures
        spec_alter_column_steps(pt, nt, pair, c).len() == 0,
    decreases nt.columns@.len() - c,
{
    if c < nt.columns@.len() {
        assert(column_eq(pt.columns@[c], nt.columns@[c]));
        if has_column_named(pt.columns@, nt.columns@[c].name@) {
            lemma_column_partner_unique(pt.columns@, nt.columns@[c].name@, c);
        }
        lemma_alter_column_steps_empty(pt, nt, pair, c + 1);
    }
}

proof fn lemma_create_index_steps_empty(pt: Table, nt: Table, next_table: int, x: int)
    requires
        crate::schema::indices_eq(pt.indices@, nt.indices@),
        0 <= x,
    ensures
        spec_create_index_steps(pt, nt, next_table, x).len() == 0,
    decreases nt.indices@.len() - x,
{
    if x < nt.indices@.len() {
        assert(index_eq(pt.indices@[x], nt.indices@[x]));
        assert(spec_has_matching_index(pt.indices@, nt.indices@[x]));
        lemma_create_index_steps_empty(pt, nt, next_table, x + 1);
    }
}

proof fn lemma_drop_index_steps_empty(pt: Table, nt: Table, prev_table: int, x: int)
    requires
        crate::schema::indices_eq(pt.indices@, nt.indices@),
        0 <= x,
    ensures
        spec_drop_index_steps(pt, nt, prev_table, x).len() == 0,
    decreases pt.indices@.len() - x,
{
    if x < pt.indices@.len() {
        assert(index_eq(pt.indices@[x], nt.indices@[x]));
        lemma_names_eq_sym(pt.indices@[x].columns@, nt.indices@[x].columns@);
        assert(index_eq(nt.indices@[x], pt.indices@[x]));
        assert(spec_has_matching_index(nt.indices@, pt.indices@[x]));
        lemma_drop_index_steps_empty(pt, nt, prev_table, x + 1);
    }
}

proof fn lemma_alter_table_steps_empty(prev: SqlSchema, next: SqlSchema, i: int)
    requires
        crate::schema::tables_eq(prev.tables@, next.tables@),
        crate::schema::table_names_unique(prev.tables@),
        forall|t: int|
            0 <= t < prev.tables@.len() ==> crate::schema::table_wf(#[trigger] prev.tables@[t]),
        0 <= i,
    ensures
        spec_alter_table_steps(prev, next, i).len() == 0,
    decreases next.tables@.len() - i,
{
    if i < next.tables@.len() {
        assert(crate::schema::table_eq(prev.tables@[i], next.tables@[i]));
        if has_table_named(prev.tables@, next.tables@[i].name@) {
            lemma_table_partner_unique(prev.tables@, next.tables@[i].name@, i);
            if !spec_pair_is_redefined(prev, next, i) {
                lemma_equal_pair_steps_empty(
                    prev.tables@[i],
                    next.tables@[i],
                    TablePair { previous: i as usize, next: i as usize },
                );
            }
        }
        lemma_alter_table_steps_empty(prev, next, i + 1);
    }
}

proof fn lemma_add_fk_table_steps_empty(pt: Table, nt: Table, next_table: int, k: int)
    requires
        crate::schema::foreign_keys_eq(pt.foreign_keys@, nt.foreign_keys@),
        0 <= k,
    ensures
        spec_add_fk_table_steps(pt, nt, next_table, k).len() == 0,
    decreases nt.foreign_keys@.len() - k,
{
    if k < nt.foreign_keys@.len() {
        assert(crate::schema::foreign_key_eq(pt.foreign_keys@[k], nt.foreign_keys@[k]));
        assert(spec_fk_matches(pt.foreign_keys@[k], nt.foreign_keys@[k]));
        assert(spec_has_matching_fk(pt.foreign_keys@, nt.foreign_keys@[k]));
        lemma_add_fk_table_steps_empty(pt, nt, next_table, k + 1);
    }
}

proof fn lemma_drop_fk_table_steps_empty(pt: Table, nt: Table, prev_table: int, k: int)
    requires
        crate::schema::foreign_keys_eq(pt.foreign_keys@, nt.foreign_keys@),
        0 <= k,
    ensures
        spec_drop_fk_table_steps(pt, nt, prev_table, k).len() == 0,
    decreases pt.foreign_keys@.len() - k,
{
    if k < pt.foreign_keys@.len() {
        assert(crate::schema::foreign_key_eq(pt.foreign_keys@[k], nt.foreign_keys@[k]));
        lemma_names_eq_sym(pt.foreign_keys@[k].columns@, nt.foreign_keys@[k].columns@);
        lemma_names_eq_sym(
            pt.foreign_keys@[k].referenced_columns@,
            nt.foreign_keys@[k].referenced_columns@,
        );
        assert(spec_fk_matches(nt.foreign_keys@[k], pt.foreign_keys@[k]));
        assert(spec_has_matching_fk(nt.foreign_keys@, pt.foreign_keys@[k]));
        lemma_drop_fk_table_steps_empty(pt, nt, prev_table, k + 1);
    }
}

proof fn lemma_add_fk_steps_empty(prev: SqlSchema, next: SqlSchema, i: int)
    requires
        crate::schema::tables_eq(prev.tables@, next.tables@),
        crate::schema::table_names_unique(prev.tables@),
        0 <= i,
    ensures
        spec_add_fk_steps(prev, next, i).len() == 0,
    decreases next.tables@.len() - i,
{
    if i < next.tables@.len() {
        assert(crate::schema::table_eq(prev.tables@[i], next.tables@[i]));
        if has_table_named(prev.tables@, next.tables@[i].name@) {
            lemma_table_partner_unique(prev.tables@, next.tables@[i].name@, i);
            lemma_add_fk_table_steps_empty(prev.tables@[i], next.tables@[i], i, 0);
        }
        lemma_add_fk_steps_empty(prev, next, i + 1);
    }
}

proof fn lemma_drop_fk_steps_empty(prev: SqlSchema, next: SqlSchema, i: int)
    requires
        crate::schema::tables_eq(prev.tables@, next.tables@),
        crate::schema::table_names_unique(next.tables@),
        0 <= i,
    ensures
        spec_drop_fk_steps(prev, next, i).len() == 0,
    decreases prev.tables@.len() - i,
{
    if i < prev.tables@.len() {
        assert(crate::schema::table_eq(prev.tables@[i], next.tables@[i]));
        if has_table_named(next.tables@, prev.tables@[i].name@) {
            lemma_table_partner_unique(next.tables@, prev.tables@[i].name@, i);
            lemma_drop_fk_table_steps_empty(prev.tables@[i], next.tables@[i], i, 0);
        }
        lemma_drop_fk_steps_empty(prev, next, i + 1);
    }
}

proof fn lemma_drop_table_steps_empty(prev: SqlSchema, next: SqlSchema, i: int)
    requires
        crate::schema::tables_eq(prev.tables@, next.tables@),
        0 <= i,
    ensures
        spec_drop_table_steps(prev, next, i).len() == 0,
    decreases prev.tables@.len() - i,
{
    if i < prev.tables@.len() {
        assert(crate::schema::table_eq(prev.tables@[i], next.tables@[i]));
        assert(has_table_named(next.tables@, prev.tables@[i].name@));
        lemma_drop_table_steps_empty(prev, next, i + 1);
    }
}

proof fn lemma_drop_enum_steps_empty(prev: SqlSchema, next: SqlSchema, i: int)
    requires
        crate::schema::enums_eq(prev.enums@, next.enums@),
        0 <= i,
    ensures
        spec_drop_enum_steps(prev, next, i).len() == 0,
    decreases prev.enums@.len() - i,
{
    if i < prev.enums@.len() {
        assert(crate::schema::enum_eq(prev.enums@[i], next.enums@[i]));
        assert(has_enum_named(next.enums@, prev.enums@[i].name@));
        lemma_drop_enum_steps_empty(prev, next, i + 1);
    }
}

/// The diff of two structurally equal well-formed schemas has no steps:
/// the diff is idempotent. A table without any column is left out: its
/// pair has no column pairs, so the redefinition rule holds of it
/// vacuously and a redefine step is emitted even for an unchanged schema.
pub proof fn lemma_diff_idempotent(prev: SqlSchema, next: SqlSchema)
    requires
        schema_wf(prev),
        schema_wf(next),
        schema_eq(prev, next),
        crate::schema::spec_tables_have_columns(prev),
    ensures
        spec_diff_steps(prev, next).len() == 0,
        spec_redefined_tables(prev, next, 0).len() == 0,
{
    lemma_create_enum_steps_empty(prev, next, 0);
    lemma_alter_enum_steps_empty(prev, next, 0);
    lemma_create_table_steps_empty(prev, next, 0);
    lemma_redefined_tables_empty(prev, next, 0);
    lemma_alter_table_steps_empty(prev, next, 0);
    lemma_add_fk_steps_empty(prev, next, 0);
    lemma_drop_fk_steps_empty(prev, next, 0);
    lemma_drop_table_steps_empty(prev, next, 0);
    lemma_drop_enum_steps_empty(prev, next, 0);
}

} // verus!

verus! {

/// A schema as the mathematical model the migration steps act on.
pub struct SchemaModel {
    pub tables: Seq<Table>,
    pub enums: Seq<Enum>,
}

/// One step applied to the model. The model interprets the
/// schema-creating steps, which are the only steps a migration computed
/// from an empty schema contains; any other step leaves it unchanged.
pub open spec fn spec_apply_step(
    after: SqlSchema,
    step: SqlMigrationStep,
    m: SchemaModel,
) -> SchemaModel {
    match step {
        SqlMigrationStep::CreateEnum { enum_index } => SchemaModel {
            tables: m.tables,
            enums: m.enums.push(after.enums@[enum_index as int]),
        },
        SqlMigrationStep::CreateTable { table_index } => SchemaModel {
            tables: m.tables.push(after.tables@[table_index as int]),
            enums: m.enums,
        },
        _ => m,
    }
}

/// A list of steps applied to the model, first to last.
pub open spec fn spec_apply_steps(
    after: SqlSchema,
    steps: Seq<SqlMigrationStep>,
    m: SchemaModel,
) -> SchemaModel
    decreases steps.len(),
{
    if steps.len() == 0 {
        m
    } else {
        spec_apply_steps(after, steps.drop_first(), spec_apply_step(after, steps.first(), m))
    }
}

proof fn lemma_alter_enum_steps_empty_prev(prev: SqlSchema, next: SqlSchema, i: int)
    requires
        prev.enums@.len() == 0,
        0 <= i,
    ensures
        spec_alter_enum_steps(prev, next, i).len() == 0,
    decreases next.enums@.len() - i,
{
    if i < next.enums@.len() {
        assert(!has_enum_named(prev.enums@, next.enums@[i].name@));
        lemma_alter_enum_steps_empty_prev(prev, next, i + 1);
    }
}

proof fn lemma_redefined_tables_empty_prev(prev: SqlSchema, next: SqlSchema, i: int)
    requires
        prev.tables@.len() == 0,
        0 <= i,
    ensures
        spec_redefined_tables(prev, next, i).len() == 0,
    decreases next.tables@.len() - i,
{
    if i < next.tables@.len() {
        assert(!has_table_named(prev.tables@, next.tables@[i].name@));
        lemma_redefined_tables_empty_prev(prev, next, i + 1);
    }
}

proof fn lemma_alter_table_steps_empty_prev(prev: SqlSchema, next: SqlSchema, i: int)
    requires
        prev.tables@.len() == 0,
        0 <= i,
    ensures
        spec_alter_table_steps(prev, next, i).len() == 0,
    decreases next.tables@.len() - i,
{
    if i < next.tables@.len() {
        assert(!has_table_named(prev.tables@, next.tables@[i].name@));
        lemma_alter_table_steps_empty_prev(prev, next, i + 1);
    }
}

proof fn lemma_add_fk_steps_empty_prev(prev: SqlSchema, next: SqlSchema, i: int)
    requires
        prev.tables@.len() == 0,
        0 <= i,
    ensures
        spec_add_fk_steps(prev, next, i).len() == 0,
    decreases next.tables@.len() - i,
{
    if i < next.tables@.len() {
        assert(!has_table_named(prev.tables@, next.tables@[i].name@));
        lemma_add_fk_steps_empty_prev(prev, next, i + 1);
    }
}

/// A migration computed from an empty schema holds only creation steps:
/// its step list is the create-enum phase followed by the create-table
/// phase.
pub proof fn lemma_diff_from_empty_is_creates(empty: SqlSchema, s: SqlSchema)
    requires
        empty.tables@.len() == 0,
        empty.enums@.len() == 0,
    ensures
        spec_diff_steps(empty, s) == spec_create_enum_steps(empty, s, 0) + spec_create_table_steps(
            empty,
            s,
            0,
        ),
{
    lemma_alter_enum_steps_empty_prev(empty, s, 0);
    lemma_redefined_tables_empty_prev(empty, s, 0);
    lemma_alter_table_steps_empty_prev(empty, s, 0);
    lemma_add_fk_steps_empty_prev(empty, s, 0);
    assert(spec_drop_fk_steps(empty, s, 0).len() == 0);
    assert(spec_drop_table_steps(empty, s, 0).len() == 0);
    assert(spec_drop_enum_steps(empty, s, 0).len() == 0);
    assert(spec_diff_steps(empty, s) =~= spec_create_enum_steps(empty, s, 0)
        + spec_create_table_steps(empty, s, 0));
}

/// Applying a concatenation applies the two lists in order.
proof fn lemma_apply_steps_concat(
    after: SqlSchema,
    a: Seq<SqlMigrationStep>,
    b: Seq<SqlMigrationStep>,
    m: SchemaModel,
)
    ensures
        spec_apply_steps(after, a + b, m) == spec_apply_steps(after, b, spec_apply_steps(after, a, m)),
    decreases a.len(),
{
    if a.len() == 0 {
        assert(a + b =~= b);
    } else {
        assert((a + b).first() == a.first());
        assert((a + b).drop_first() =~= a.drop_first() + b);
        lemma_apply_steps_concat(after, a.drop_first(), b, spec_apply_step(after, a.first(), m));
    }
}

proof fn lemma_apply_create_enums(empty: SqlSchema, s: SqlSchema, i: int, m: SchemaModel)
    requires
        empty.enums@.len() == 0,
        s.enums@.len() <= usize::MAX,
        0 <= i <= s.enums@.len(),
        m.enums =~= s.enums@.take(i),
    ensures
        ({
            let r = spec_apply_steps(s, spec_create_enum_steps(empty, s, i), m);
            r.enums =~= s.enums@ && r.tables =~= m.tables
        }),
    decreases s.enums@.len() - i,
{
    if i == s.enums@.len() {
        assert(m.enums =~= s.enums@);
    } else {
        assert(!has_enum_named(empty.enums@, s.enums@[i].name@));
        let e = SqlMigrationStep::CreateEnum { enum_index: i as usize };
        let rest = spec_create_enum_steps(empty, s, i + 1);
        assert(spec_create_enum_steps(empty, s, i) == seq![e] + rest);
        assert((seq![e] + rest).first() == e);
        assert((seq![e] + rest).drop_first() =~= rest);
        let m2 = spec_apply_step(s, e, m);
        assert(m2.enums =~= s.enums@.take(i + 1));
        lemma_apply_create_enums(empty, s, i + 1, m2);
    }
}

proof fn lemma_apply_create_tables(empty: SqlSchema, s: SqlSchema, i: int, m: SchemaModel)
    requires
        empty.tables@.len() == 0,
        s.tables@.len() <= usize::MAX,
        0 <= i <= s.tables@.len(),
        m.tables =~= s.tables@.take(i),
    ensures
        ({
            let r = spec_apply_steps(s, spec_create_table_steps(empty, s, i), m);
            r.tables =~= s.tables@ && r.enums =~= m.enums
        }),
    decreases s.tables@.len() - i,
{
    if i == s.tables@.len() {
        assert(m.tables =~= s.tables@);
    } else {
        assert(!has_table_named(empty.tables@, s.tables@[i].name@));
        let e = SqlMigrationStep::CreateTable { table_index: i as usize };
        let rest = spec_create_table_steps(empty, s, i + 1);
        assert(spec_create_table_steps(empty, s, i) == seq![e] + rest);
        assert((seq![e] + rest).first() == e);
        assert((seq![e] + rest).drop_first() =~= rest);
        let m2 = spec_apply_step(s, e, m);
        assert(m2.tables =~= s.tables@.take(i + 1));
        lemma_apply_create_tables(empty, s, i + 1, m2);
    }
}

/// The round trip: applying the migration computed from an empty schema
/// to the empty model rebuilds the target schema, tables and enums alike.
pub proof fn lemma_round_trip(empty: SqlSchema, s: SqlSchema)
    requires
        empty.tables@.len() == 0,
        empty.enums@.len() == 0,
        s.tables@.len() <= usize::MAX,
        s.enums@.len() <= usize::MAX,
    ensures
        ({
            let m0 = SchemaModel { tables: Seq::empty(), enums: Seq::empty() };
            let m = spec_apply_steps(s, spec_diff_steps(empty, s), m0);
            m.tables == s.tables@ && m.enums == s.enums@
        }),
{
    let m0 = SchemaModel { tables: Seq::<Table>::empty(), enums: Seq::<Enum>::empty() };
    lemma_diff_from_empty_is_creates(empty, s);
    lemma_apply_steps_concat(
        s,
        spec_create_enum_steps(empty, s, 0),
        spec_create_table_steps(empty, s, 0),
        m0,
    );
    assert(m0.enums =~= s.enums@.take(0));
    lemma_apply_create_enums(empty, s, 0, m0);
    let m1 = spec_apply_steps(s, spec_create_enum_steps(empty, s, 0), m0);
    assert(m1.tables =~= s.tables@.take(0));
    lemma_apply_create_tables(empty, s, 0, m1);
}

} // verus!

verus! {

/// The drift between the live schema and the folder's end state: the
/// migration from the live schema to the shadow schema, or nothing when
/// they agree. Some drift migration is returned iff the diff has steps.
pub fn detect_drift(
    live: SqlSchema,
    shadow: SqlSchema,
    flavour: &crate::mssql::MssqlFlavour,
) -> (r: Option<SqlMigration>)
    requires
        schema_wf(live),
        schema_wf(shadow),
    ensures
        match r {
            Some(m) => {
                &&& m.before == live
                &&& m.after == shadow
                &&& m.steps@ == spec_diff_steps(live, shadow)
                &&& m.redefined_tables@ == spec_redefined_tables(live, shadow, 0)
                &&& m.steps@.len() > 0
            },
            None => spec_diff_steps(live, shadow).len() == 0,
        },
{
    let migration = diff(live, shadow, flavour);
    if migration.steps.len() == 0 {
        None
    } else {
        Some(migration)
    }
}

} // verus!
