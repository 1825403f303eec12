//! The destructive-change checker: classify each step of a migration as
//! safe, as a warning, or as unexecutable.
//!
//! Emptiness information about the live tables comes in as one flag per
//! table of the previous schema; the pure check assumes every table holds
//! data, which is the conservative reading used at render time.

use vstd::prelude::*;
use crate::differ::{SqlMigration, SqlMigrationStep, TablePair};
use crate::mssql::{spec_family_change, ColumnTypeChange};
use crate::schema::{family_eq, ColumnArity, SqlSchema};

verus! {

/// Why a step is reported as a warning.
#[derive(Clone, Copy, PartialEq, Eq, Structural, Debug)]
pub enum WarningKind {
    DropTable,
    DropColumn,
    RiskyAlterColumn,
}

/// Why a step is reported as unexecutable.
#[derive(Clone, Copy, PartialEq, Eq, Structural, Debug)]
pub enum UnexecutableKind {
    AddRequiredColumnWithoutDefault,
    NotCastableTypeChange,
}

/// A warning about one step. Indices point into the migration's schemas:
/// the table into the previous schema for drops, the next schema for
/// additions.
#[derive(Clone, Copy, PartialEq, Eq, Structural, Debug)]
pub struct MigrationWarning {
    pub step_index: usize,
    pub kind: WarningKind,
    pub table_index: usize,
    pub column_index: Option<usize>,
}

/// An unexecutable step.
#[derive(Clone, Copy, PartialEq, Eq, Structural, Debug)]
pub struct UnexecutableMigration {
    pub step_index: usize,
    pub kind: UnexecutableKind,
    pub table_index: usize,
    pub column_index: usize,
}

/// The outcome of checking a migration.
#[derive(Debug)]
pub struct DestructiveChangeDiagnostics {
    pub warnings: Vec<MigrationWarning>,
    pub unexecutable_migrations: Vec<UnexecutableMigration>,
}

/// The risk of changing one column into another: the family table where
/// the family changes; otherwise a risky cast when the column goes from
/// nullable to required, and a safe cast when nothing risky changes.
/// A change out of a nullable column into a required one is never safe.
pub open spec fn spec_column_change_risk(
    p: crate::schema::Column,
    n: crate::schema::Column,
) -> ColumnTypeChange {
    let base = if family_eq(p.tpe.family, n.tpe.family) {
        ColumnTypeChange::SafeCast
    } else {
        spec_family_change(p.tpe.family, n.tpe.family)
    };
    if (p.tpe.arity matches ColumnArity::Nullable) && (n.tpe.arity matches ColumnArity::Required)
        && (base matches ColumnTypeChange::SafeCast) {
        ColumnTypeChange::RiskyCast
    } else {
        base
    }
}

/// Classification monotonicity: promoting a column from nullable to
/// required never classifies as a safe cast.
pub proof fn lemma_nullable_to_required_never_safe(
    p: crate::schema::Column,
    n: crate::schema::Column,
)
    requires
        p.tpe.arity matches ColumnArity::Nullable,
        n.tpe.arity matches ColumnArity::Required,
    ensures
        !(spec_column_change_risk(p, n) matches ColumnTypeChange::SafeCast),
{
}

/// Decide `spec_column_change_risk`.
pub fn column_change_risk(
    p: &crate::schema::Column,
    n: &crate::schema::Column,
) -> (r: ColumnTypeChange)
    ensures
        r == spec_column_change_risk(*p, *n),
{
    let base = if crate::schema::family_matches(&p.tpe.family, &n.tpe.family) {
        ColumnTypeChange::SafeCast
    } else {
        crate::mssql::type_change_riskyness(&p.tpe.family, &n.tpe.family)
    };
    if matches!(p.tpe.arity, ColumnArity::Nullable) && matches!(n.tpe.arity, ColumnArity::Required)
        && matches!(base, ColumnTypeChange::SafeCast) {
        ColumnTypeChange::RiskyCast
    } else {
        base
    }
}

/// The warnings one step contributes. `nonempty` has one flag per table
/// of the previous schema; a step whose indices fall outside the schemas
/// contributes nothing.
pub open spec fn spec_step_warnings(
    before: SqlSchema,
    after: SqlSchema,
    nonempty: Seq<bool>,
    step: SqlMigrationStep,
    k: int,
) -> Seq<MigrationWarning> {
    match step {
        SqlMigrationStep::DropTable { table_index } => {
            if table_index < nonempty.len() && nonempty[table_index as int] {
                seq![
                    MigrationWarning {
                        step_index: k as usize,
                        kind: WarningKind::DropTable,
                        table_index,
                        column_index: None,
                    },
                ]
            } else {
                Seq::empty()
            }
        },
        SqlMigrationStep::DropColumn { pair, column_index } => {
            if pair.previous < nonempty.len() && nonempty[pair.previous as int] {
                seq![
                    MigrationWarning {
                        step_index: k as usize,
                        kind: WarningKind::DropColumn,
                        table_index: pair.previous,
                        column_index: Some(column_index),
                    },
                ]
            } else {
                Seq::empty()
            }
        },
        SqlMigrationStep::AlterColumn { pair, previous_column, next_column } => {
            if pair.previous < before.tables@.len() && pair.next < after.tables@.len()
                && previous_column < before.tables@[pair.previous as int].columns@.len()
                && next_column < after.tables@[pair.next as int].columns@.len()
                && (spec_column_change_risk(
                before.tables@[pair.previous as int].columns@[previous_column as int],
                after.tables@[pair.next as int].columns@[next_column as int],
            ) matches ColumnTypeChange::RiskyCast) {
                seq![
                    MigrationWarning {
                        step_index: k as usize,
                        kind: WarningKind::RiskyAlterColumn,
                        table_index: pair.previous,
                        column_index: Some(previous_column),
                    },
                ]
            } else {
                Seq::empty()
            }
        },
        _ => Seq::empty(),
    }
}

/// Whether redefining the pair cannot preserve this column of the next
/// table: some column of the same name in the previous table has a type
/// change that cannot be cast.
pub open spec fn spec_redefined_column_not_castable(
    before: SqlSchema,
    after: SqlSchema,
    pair: TablePair,
    c: int,
) -> bool {
    &&& pair.previous < before.tables@.len()
    &&& pair.next < after.tables@.len()
    &&& 0 <= c < after.tables@[pair.next as int].columns@.len()
    &&& exists|j: int|
        0 <= j < before.tables@[pair.previous as int].columns@.len() && (
        #[trigger] before.tables@[pair.previous as int].columns@[j]).name@
            == after.tables@[pair.next as int].columns@[c].name@ && spec_column_change_risk(
            before.tables@[pair.previous as int].columns@[j],
            after.tables@[pair.next as int].columns@[c],
        ) matches ColumnTypeChange::NotCastable
}

/// The unexecutable entries of one redefined pair, walking the next
/// table's columns from position `c`.
pub open spec fn spec_redefine_pair_unexecutables(
    before: SqlSchema,
    after: SqlSchema,
    nonempty: Seq<bool>,
    pair: TablePair,
    k: int,
    c: int,
) -> Seq<UnexecutableMigration>
    decreases (if pair.next < after.tables@.len() {
        after.tables@[pair.next as int].columns@.len() as int
    } else {
        0
    }) - c,
{
    if pair.next >= after.tables@.len() || c < 0 || c
        >= after.tables@[pair.next as int].columns@.len() {
        Seq::empty()
    } else {
        let rest = spec_redefine_pair_unexecutables(before, after, nonempty, pair, k, c + 1);
        if spec_redefined_column_not_castable(before, after, pair, c) && pair.previous
            < nonempty.len() && nonempty[pair.previous as int] {
            seq![
                UnexecutableMigration {
                    step_index: k as usize,
                    kind: UnexecutableKind::NotCastableTypeChange,
                    table_index: pair.next,
                    column_index: c as usize,
                },
            ] + rest
        } else {
            rest
        }
    }
}

/// The unexecutable entries of the redefined pairs from position `p`.
pub open spec fn spec_redefine_unexecutables(
    before: SqlSchema,
    after: SqlSchema,
    nonempty: Seq<bool>,
    pairs: Seq<TablePair>,
    k: int,
    p: int,
) -> Seq<UnexecutableMigration>
    decreases pairs.len() - p,
{
    if p < 0 || p >= pairs.len() {
        Seq::empty()
    } else {
        spec_redefine_pair_unexecutables(before, after, nonempty, pairs[p], k, 0)
            + spec_redefine_unexecutables(before, after, nonempty, pairs, k, p + 1)
    }
}

/// The unexecutable entries one step contributes.
pub open spec fn spec_step_unexecutables(
    before: SqlSchema,
    after: SqlSchema,
    nonempty: Seq<bool>,
    pairs: Seq<TablePair>,
    step: SqlMigrationStep,
    k: int,
) -> Seq<UnexecutableMigration> {
    match step {
        SqlMigrationStep::RedefineTables => spec_redefine_unexecutables(
            before,
            after,
            nonempty,
            pairs,
            k,
            0,
        ),
        SqlMigrationStep::AddColumn { pair, column_index } => {
            if pair.next < after.tables@.len() && column_index
                < after.tables@[pair.next as int].columns@.len() && pair.previous < nonempty.len()
                && nonempty[pair.previous as int] && (after.tables@[pair.next as int].columns@[column_index as int].tpe.arity
                matches ColumnArity::Required) && after.tables@[pair.next as int].columns@[column_index as int].default
                is None {
                seq![
                    UnexecutableMigration {
                        step_index: k as usize,
                        kind: UnexecutableKind::AddRequiredColumnWithoutDefault,
                        table_index: pair.next,
                        column_index,
                    },
                ]
            } else {
                Seq::empty()
            }
        },
        SqlMigrationStep::AlterColumn { pair, previous_column, next_column } => {
            if pair.previous < before.tables@.len() && pair.next < after.tables@.len()
                && previous_column < before.tables@[pair.previous as int].columns@.len()
                && next_column < after.tables@[pair.next as int].columns@.len() && pair.previous
                < nonempty.len() && nonempty[pair.previous as int] && (spec_column_change_risk(
                before.tables@[pair.previous as int].columns@[previous_column as int],
                after.tables@[pair.next as int].columns@[next_column as int],
            ) matches ColumnTypeChange::NotCastable) {
                seq![
                    UnexecutableMigration {
                        step_index: k as usize,
                        kind: UnexecutableKind::NotCastableTypeChange,
                        table_index: pair.previous,
                        column_index: previous_column,
                    },
                ]
            } else {
                Seq::empty()
            }
        },
        _ => Seq::empty(),
    }
}

/// All warnings of the steps from position `k` on.
pub open spec fn spec_warnings(
    before: SqlSchema,
    after: SqlSchema,
    nonempty: Seq<bool>,
    steps: Seq<SqlMigrationStep>,
    k: int,
) -> Seq<MigrationWarning>
    decreases steps.len() - k,
{
    if k < 0 || k >= steps.len() {
        Seq::empty()
    } else {
        spec_step_warnings(before, after, nonempty, steps[k], k) + spec_warnings(
            before,
            after,
            nonempty,
            steps,
            k + 1,
        )
    }
}

/// All unexecutable entries of the steps from position `k` on.
pub open spec fn spec_unexecutables(
    before: SqlSchema,
    after: SqlSchema,
    nonempty: Seq<bool>,
    pairs: Seq<TablePair>,
    steps: Seq<SqlMigrationStep>,
    k: int,
) -> Seq<UnexecutableMigration>
    decreases steps.len() - k,
{
    if k < 0 || k >= steps.len() {
        Seq::empty()
    } else {
        spec_step_unexecutables(before, after, nonempty, pairs, steps[k], k) + spec_unexecutables(
            before,
            after,
            nonempty,
            pairs,
            steps,
            k + 1,
        )
    }
}

/// Append the unexecutable entries of one redefined pair.
fn check_redefined_pair(
    migration: &SqlMigration,
    table_nonempty: &Vec<bool>,
    pair: TablePair,
    k: usize,
    out: &mut Vec<UnexecutableMigration>,
)
    ensures
        final(out)@ == old(out)@ + spec_redefine_pair_unexecutables(
            migration.before,
            migration.after,
            table_nonempty@,
            pair,
            k as int,
            0,
        ),
{
    if pair.next >= migration.after.tables.len() {
        proof {
            assert(old(out)@ + spec_redefine_pair_unexecutables(
                migration.before,
                migration.after,
                table_nonempty@,
                pair,
                k as int,
                0,
            ) =~= old(out)@);
        }
        return ;
    }
    let nc = migration.after.tables[pair.next].columns.len();
    for c in 0..nc
        invariant
            pair.next < migration.after.tables@.len(),
            nc == migration.after.tables@[pair.next as int].columns@.len(),
            old(out)@ + spec_redefine_pair_unexecutables(
                migration.before,
                migration.after,
                table_nonempty@,
                pair,
                k as int,
                0,
            ) == out@ + spec_redefine_pair_unexecutables(
                migration.before,
                migration.after,
                table_nonempty@,
                pair,
                k as int,
                c as int,
            ),
    {
        let mut found = false;
        if pair.previous < migration.before.tables.len() {
            let pc = migration.before.tables[pair.previous].columns.len();
            for j in 0..pc
                invariant
                    pair.previous < migration.before.tables@.len(),
                    pair.next < migration.after.tables@.len(),
                    c < migration.after.tables@[pair.next as int].columns@.len(),
                    pc == migration.before.tables@[pair.previous as int].columns@.len(),
                    found == exists|j2: int|
                        0 <= j2 < j && (
                        #[trigger] migration.before.tables@[pair.previous as int].columns@[j2]).name@
                            == migration.after.tables@[pair.next as int].columns@[c as int].name@
                            && (spec_column_change_risk(
                            migration.before.tables@[pair.previous as int].columns@[j2],
                            migration.after.tables@[pair.next as int].columns@[c as int],
                        ) matches ColumnTypeChange::NotCastable),
            {
                if String::eq(
                    &migration.before.tables[pair.previous].columns[j].name,
                    &migration.after.tables[pair.next].columns[c].name,
                ) {
                    let risk = column_change_risk(
                        &migration.before.tables[pair.previous].columns[j],
                        &migration.after.tables[pair.next].columns[c],
                    );
                    if matches!(risk, ColumnTypeChange::NotCastable) {
                        found = true;
                    }
                }
            }
        }
        let ghost pre = out@;
        if found && pair.previous < table_nonempty.len() && table_nonempty[pair.previous] {
            out.push(UnexecutableMigration {
                step_index: k,
                kind: UnexecutableKind::NotCastableTypeChange,
                table_index: pair.next,
                column_index: c,
            });
        }
        proof {
            assert(pre + spec_redefine_pair_unexecutables(
                migration.before,
                migration.after,
                table_nonempty@,
                pair,
                k as int,
                c as int,
            ) =~= out@ + spec_redefine_pair_unexecutables(
                migration.before,
                migration.after,
                table_nonempty@,
                pair,
                k as int,
                c + 1,
            ));
        }
    }
    proof {
        assert(spec_redefine_pair_unexecutables(
            migration.before,
            migration.after,
            table_nonempty@,
            pair,
            k as int,
            nc as int,
        ) =~= Seq::<UnexecutableMigration>::empty());
        assert(out@ + Seq::<UnexecutableMigration>::empty() =~= out@);
    }
}

/// Check a migration against emptiness information: one flag per table of
/// the previous schema, true where the table holds data (an emptiness
/// oracle may conservatively report every table as non-empty).
pub fn check(migration: &SqlMigration, table_nonempty: &Vec<bool>) -> (d:
    DestructiveChangeDiagnostics)
    ensures
        d.warnings@ == spec_warnings(
            migration.before,
            migration.after,
            table_nonempty@,
            migration.steps@,
            0,
        ),
        d.unexecutable_migrations@ == spec_unexecutables(
            migration.before,
            migration.after,
            table_nonempty@,
            migration.redefined_tables@,
            migration.steps@,
            0,
        ),
{
    let mut warnings: Vec<MigrationWarning> = Vec::new();
    let mut unexecutable_migrations: Vec<UnexecutableMigration> = Vec::new();
    let n = migration.steps.len();
    for k in 0..n
        invariant
            n == migration.steps@.len(),
            spec_warnings(
                migration.before,
                migration.after,
                table_nonempty@,
                migration.steps@,
                0,
            ) == warnings@ + spec_warnings(
                migration.before,
                migration.after,
                table_nonempty@,
                migration.steps@,
                k as int,
            ),
            spec_unexecutables(
                migration.before,
                migration.after,
                table_nonempty@,
                migration.redefined_tables@,
                migration.steps@,
                0,
            ) == unexecutable_migrations@ + spec_unexecutables(
                migration.before,
                migration.after,
                table_nonempty@,
                migration.redefined_tables@,
                migration.steps@,
                k as int,
            ),
    {
        let ghost pre_w = warnings@;
        let ghost pre_u = unexecutable_migrations@;
        match migration.steps[k] {
            SqlMigrationStep::DropTable { table_index } => {
                if table_index < table_nonempty.len() && table_nonempty[table_index] {
                    warnings.push(MigrationWarning {
                        step_index: k,
                        kind: WarningKind::DropTable,
                        table_index,
                        column_index: None,
                    });
                }
            },
            SqlMigrationStep::DropColumn { pair, column_index } => {
                if pair.previous < table_nonempty.len() && table_nonempty[pair.previous] {
                    warnings.push(MigrationWarning {
                        step_index: k,
                        kind: WarningKind::DropColumn,
                        table_index: pair.previous,
                        column_index: Some(column_index),
                    });
                }
            },
            SqlMigrationStep::AddColumn { pair, column_index } => {
                if pair.next < migration.after.tables.len() && column_index
                    < migration.after.tables[pair.next].columns.len() && pair.previous
                    < table_nonempty.len() && table_nonempty[pair.previous] {
                    let col = &migration.after.tables[pair.next].columns[column_index];
                    if matches!(col.tpe.arity, ColumnArity::Required) && col.default.is_none() {
                        unexecutable_migrations.push(UnexecutableMigration {
                            step_index: k,
                            kind: UnexecutableKind::AddRequiredColumnWithoutDefault,
                            table_index: pair.next,
                            column_index,
                        });
                    }
                }
            },
            SqlMigrationStep::AlterColumn { pair, previous_column, next_column } => {
                if pair.previous < migration.before.tables.len() && pair.next
                    < migration.after.tables.len() && previous_column
                    < migration.before.tables[pair.previous].columns.len() && next_column
                    < migration.after.tables[pair.next].columns.len() {
                    let p = &migration.before.tables[pair.previous].columns[previous_column];
                    let nc = &migration.after.tables[pair.next].columns[next_column];
                    let risk = column_change_risk(p, nc);
                    if matches!(risk, ColumnTypeChange::RiskyCast) {
                        warnings.push(MigrationWarning {
                            step_index: k,
                            kind: WarningKind::RiskyAlterColumn,
                            table_index: pair.previous,
                            column_index: Some(previous_column),
                        });
                    }
                    if matches!(risk, ColumnTypeChange::NotCastable) && pair.previous
                        < table_nonempty.len() && table_nonempty[pair.previous] {
                        unexecutable_migrations.push(UnexecutableMigration {
                            step_index: k,
                            kind: UnexecutableKind::NotCastableTypeChange,
                            table_index: pair.previous,
                            column_index: previous_column,
                        });
                    }
                }
            },
            SqlMigrationStep::RedefineTables => {
                let np = migration.redefined_tables.len();
                for p in 0..np
                    invariant
                        np == migration.redefined_tables@.len(),
                        warnings@ == pre_w,
                        pre_u + spec_redefine_unexecutables(
                            migration.before,
                            migration.after,
                            table_nonempty@,
                            migration.redefined_tables@,
                            k as int,
                            0,
                        ) == unexecutable_migrations@ + spec_redefine_unexecutables(
                            migration.before,
                            migration.after,
                            table_nonempty@,
                            migration.redefined_tables@,
                            k as int,
                            p as int,
                        ),
                {
                    let ghost pre_pair = unexecutable_migrations@;
                    check_redefined_pair(
                        migration,
                        table_nonempty,
                        migration.redefined_tables[p],
                        k,
                        &mut unexecutable_migrations,
                    );
                    proof {
                        assert(pre_pair + (spec_redefine_pair_unexecutables(
                            migration.before,
                            migration.after,
                            table_nonempty@,
                            migration.redefined_tables@[p as int],
                            k as int,
                            0,
                        ) + spec_redefine_unexecutables(
                            migration.before,
                            migration.after,
                            table_nonempty@,
                            migration.redefined_tables@,
                            k as int,
                            p + 1,
                        )) =~= unexecutable_migrations@ + spec_redefine_unexecutables(
                            migration.before,
                            migration.after,
                            table_nonempty@,
                            migration.redefined_tables@,
                            k as int,
                            p + 1,
                        ));
                    }
                }
                proof {
                    assert(spec_redefine_unexecutables(
                        migration.before,
                        migration.after,
                        table_nonempty@,
                        migration.redefined_tables@,
                        k as int,
                        np as int,
                    ) =~= Seq::<UnexecutableMigration>::empty());
                    assert(unexecutable_migrations@ + Seq::<UnexecutableMigration>::empty()
                        =~= unexecutable_migrations@);
                }
            },
            _ => {},
        }
        proof {
            assert(pre_w + spec_warnings(
                migration.before,
                migration.after,
                table_nonempty@,
                migration.steps@,
                k as int,
            ) =~= warnings@ + spec_warnings(
                migration.before,
                migration.after,
                table_nonempty@,
                migration.steps@,
                k + 1,
            ));
            assert(pre_u + spec_unexecutables(
                migration.before,
                migration.after,
                table_nonempty@,
                migration.redefined_tables@,
                migration.steps@,
                k as int,
            ) =~= unexecutable_migrations@ + spec_unexecutables(
                migration.before,
                migration.after,
                table_nonempty@,
                migration.redefined_tables@,
                migration.steps@,
                k + 1,
            ));
        }
    }
    proof {
        assert(spec_warnings(
            migration.before,
            migration.after,
            table_nonempty@,
            migration.steps@,
            n as int,
        ) =~= Seq::<MigrationWarning>::empty());
        assert(warnings@ + Seq::<MigrationWarning>::empty() =~= warnings@);
        assert(spec_unexecutables(
            migration.before,
            migration.after,
            table_nonempty@,
            migration.redefined_tables@,
            migration.steps@,
            n as int,
        ) =~= Seq::<UnexecutableMigration>::empty());
        assert(unexecutable_migrations@ + Seq::<UnexecutableMigration>::empty()
            =~= unexecutable_migrations@);
    }
    DestructiveChangeDiagnostics { warnings, unexecutable_migrations }
}

/// Every table assumed non-empty.
pub open spec fn spec_all_nonempty(n: nat) -> Seq<bool> {
    Seq::new(n, |i: int| true)
}

/// Check a migration from its metadata alone: every table of the previous
/// schema is conservatively treated as non-empty. No database round-trip
/// is involved.
pub fn pure_check(migration: &SqlMigration) -> (d: DestructiveChangeDiagnostics)
    ensures
        d.warnings@ == spec_warnings(
            migration.before,
            migration.after,
            spec_all_nonempty(migration.before.tables@.len()),
            migration.steps@,
            0,
        ),
        d.unexecutable_migrations@ == spec_unexecutables(
            migration.before,
            migration.after,
            spec_all_nonempty(migration.before.tables@.len()),
            migration.redefined_tables@,
            migration.steps@,
            0,
        ),
{
    let n = migration.before.tables.len();
    let mut table_nonempty: Vec<bool> = Vec::new();
    for i in 0..n
        invariant
            table_nonempty@.len() == i,
            forall|j: int| 0 <= j < i ==> table_nonempty@[j],
    {
        table_nonempty.push(true);
    }
    proof {
        assert(table_nonempty@ =~= spec_all_nonempty(migration.before.tables@.len()));
    }
    check(migration, &table_nonempty)
}

} // verus!
