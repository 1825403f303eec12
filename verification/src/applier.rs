//! The step applier's pure side: render a migration into deterministic
//! statement text, line by line, with the destructive-change warnings as
//! leading comments. Executing the statements against a database is the
//! caller's part.

use vstd::prelude::*;
use crate::destructive::{
    DestructiveChangeDiagnostics, MigrationWarning, UnexecutableMigration, UnexecutableKind,
    WarningKind,
};
use crate::differ::{SqlMigration, SqlMigrationStep};
use crate::migrations_folder::push_str;
use crate::schema::SqlSchema;

verus! {

/// A rendered step beside its short label.
#[derive(Debug)]
pub struct PrettyDatabaseMigrationStep {
    pub step: String,
    pub raw: String,
}

/// Whether a migration has no steps.
pub fn migration_is_empty(migration: &SqlMigration) -> (r: bool)
    ensures
        r == (migration.steps@.len() == 0),
{
    migration.steps.len() == 0
}

/// Whether a step index still points at a step of the migration.
pub fn has_step(migration: &SqlMigration, step: usize) -> (r: bool)
    ensures
        r == (step < migration.steps@.len()),
{
    step < migration.steps.len()
}

/// The name of a table of the schema, or nothing for a stray index.
pub open spec fn spec_table_name(s: SqlSchema, i: int) -> Seq<char> {
    if 0 <= i < s.tables@.len() {
        s.tables@[i].name@
    } else {
        Seq::empty()
    }
}

/// The name of a column of a table of the schema, or nothing.
pub open spec fn spec_column_name(s: SqlSchema, t: int, c: int) -> Seq<char> {
    if 0 <= t < s.tables@.len() && 0 <= c < s.tables@[t].columns@.len() {
        s.tables@[t].columns@[c].name@
    } else {
        Seq::empty()
    }
}

/// The name of an enum of the schema, or nothing.
pub open spec fn spec_enum_name(s: SqlSchema, i: int) -> Seq<char> {
    if 0 <= i < s.enums@.len() {
        s.enums@[i].name@
    } else {
        Seq::empty()
    }
}

/// The name of an index of a table of the schema, or nothing.
pub open spec fn spec_index_name(s: SqlSchema, t: int, x: int) -> Seq<char> {
    if 0 <= t < s.tables@.len() && 0 <= x < s.tables@[t].indices@.len() {
        s.tables@[t].indices@[x].name@
    } else {
        Seq::empty()
    }
}

fn push_table_name(out: &mut String, s: &SqlSchema, i: usize)
    ensures
        final(out)@ == old(out)@ + spec_table_name(*s, i as int),
{
    if i < s.tables.len() {
        push_str(out, s.tables[i].name.as_str());
    } else {
        proof {
            assert(old(out)@ + spec_table_name(*s, i as int) =~= old(out)@);
        }
    }
}

fn push_column_name(out: &mut String, s: &SqlSchema, t: usize, c: usize)
    ensures
        final(out)@ == old(out)@ + spec_column_name(*s, t as int, c as int),
{
    if t < s.tables.len() && c < s.tables[t].columns.len() {
        push_str(out, s.tables[t].columns[c].name.as_str());
    } else {
        proof {
            assert(old(out)@ + spec_column_name(*s, t as int, c as int) =~= old(out)@);
        }
    }
}

fn push_enum_name(out: &mut String, s: &SqlSchema, i: usize)
    ensures
        final(out)@ == old(out)@ + spec_enum_name(*s, i as int),
{
    if i < s.enums.len() {
        push_str(out, s.enums[i].name.as_str());
    } else {
        proof {
            assert(old(out)@ + spec_enum_name(*s, i as int) =~= old(out)@);
        }
    }
}

fn push_index_name(out: &mut String, s: &SqlSchema, t: usize, x: usize)
    ensures
        final(out)@ == old(out)@ + spec_index_name(*s, t as int, x as int),
{
    if t < s.tables.len() && x < s.tables[t].indices.len() {
        push_str(out, s.tables[t].indices[x].name.as_str());
    } else {
        proof {
            assert(old(out)@ + spec_index_name(*s, t as int, x as int) =~= old(out)@);
        }
    }
}

/// The column names of a table joined with commas, from position `c`.
pub open spec fn spec_column_list(s: SqlSchema, t: int, c: int) -> Seq<char>
    decreases (if 0 <= t < s.tables@.len() {
        s.tables@[t].columns@.len() as int
    } else {
        0
    }) - c,
{
    if 0 <= t < s.tables@.len() && 0 <= c < s.tables@[t].columns@.len() {
        let rest = if c + 1 < s.tables@[t].columns@.len() {
            ", "@ + spec_column_list(s, t, c + 1)
        } else {
            Seq::empty()
        };
        s.tables@[t].columns@[c].name@ + rest
    } else {
        Seq::empty()
    }
}

fn push_column_list(out: &mut String, s: &SqlSchema, t: usize)
    ensures
        final(out)@ == old(out)@ + spec_column_list(*s, t as int, 0),
{
    if t >= s.tables.len() {
        proof {
            assert(old(out)@ + spec_column_list(*s, t as int, 0) =~= old(out)@);
        }
        return ;
    }
    let n = s.tables[t].columns.len();
    if n == 0 {
        proof {
            assert(old(out)@ + spec_column_list(*s, t as int, 0) =~= old(out)@);
        }
        return ;
    }
    let mut c: usize = 0;
    while c < n
        invariant
            t < s.tables@.len(),
            n == s.tables@[t as int].columns@.len(),
            0 <= c <= n,
            old(out)@ + spec_column_list(*s, t as int, 0) == out@ + spec_column_list(
                *s,
                t as int,
                c as int,
            ),
        decreases n - c,
    {
        push_str(out, s.tables[t].columns[c].name.as_str());
        if c + 1 < n {
            push_str(out, ", ");
            proof {
                assert(spec_column_list(*s, t as int, c as int)
                    == s.tables@[t as int].columns@[c as int].name@ + (", "@ + spec_column_list(
                    *s,
                    t as int,
                    c + 1,
                )));
                assert(out@ + spec_column_list(*s, t as int, c + 1) =~= old(out)@
                    + spec_column_list(*s, t as int, 0));
            }
        } else {
            proof {
                assert(spec_column_list(*s, t as int, c as int)
                    =~= s.tables@[t as int].columns@[c as int].name@);
                assert(out@ + spec_column_list(*s, t as int, c + 1) =~= old(out)@
                    + spec_column_list(*s, t as int, 0));
            }
        }
        c = c + 1;
    }
    proof {
        assert(spec_column_list(*s, t as int, n as int) =~= Seq::<char>::empty());
        assert(out@ + Seq::<char>::empty() =~= out@);
    }
}

/// The deterministic statement text of one step.
pub open spec fn spec_render_step(before: SqlSchema, after: SqlSchema, step: SqlMigrationStep) -> Seq<
    char,
> {
    match step {
        SqlMigrationStep::CreateEnum { enum_index } => "CREATE TYPE "@ + spec_enum_name(
            after,
            enum_index as int,
        ) + ";"@,
        SqlMigrationStep::AlterEnum { previous_index, next_index } => "ALTER TYPE "@
            + spec_enum_name(after, next_index as int) + ";"@,
        SqlMigrationStep::CreateTable { table_index } => "CREATE TABLE "@ + spec_table_name(
            after,
            table_index as int,
        ) + " ("@ + spec_column_list(after, table_index as int, 0) + ");"@,
        SqlMigrationStep::RedefineTables => "-- redefine tables"@,
        SqlMigrationStep::AddColumn { pair, column_index } => "ALTER TABLE "@ + spec_table_name(
            after,
            pair.next as int,
        ) + " ADD COLUMN "@ + spec_column_name(after, pair.next as int, column_index as int)
            + ";"@,
        SqlMigrationStep::DropColumn { pair, column_index } => "ALTER TABLE "@ + spec_table_name(
            before,
            pair.previous as int,
        ) + " DROP COLUMN "@ + spec_column_name(before, pair.previous as int, column_index as int)
            + ";"@,
        SqlMigrationStep::AlterColumn { pair, previous_column, next_column } => "ALTER TABLE "@
            + spec_table_name(before, pair.previous as int) + " ALTER COLUMN "@ + spec_column_name(
            before,
            pair.previous as int,
            previous_column as int,
        ) + ";"@,
        SqlMigrationStep::CreateIndex { table_index, index_index } => "CREATE INDEX "@
            + spec_index_name(after, table_index as int, index_index as int) + " ON "@
            + spec_table_name(after, table_index as int) + ";"@,
        SqlMigrationStep::DropIndex { table_index, index_index } => "DROP INDEX "@
            + spec_index_name(before, table_index as int, index_index as int) + ";"@,
        SqlMigrationStep::AddForeignKey { table_index, foreign_key_index } => "ALTER TABLE "@
            + spec_table_name(after, table_index as int) + " ADD FOREIGN KEY;"@,
        SqlMigrationStep::DropForeignKey { table_index, foreign_key_index } => "ALTER TABLE "@
            + spec_table_name(before, table_index as int) + " DROP CONSTRAINT;"@,
        SqlMigrationStep::DropTable { table_index } => "DROP TABLE "@ + spec_table_name(
            before,
            table_index as int,
        ) + ";"@,
        SqlMigrationStep::DropEnum { enum_index } => "DROP TYPE "@ + spec_enum_name(
            before,
            enum_index as int,
        ) + ";"@,
    }
}

/// Render the statement text of one step.
pub fn render_step(migration: &SqlMigration, step: &SqlMigrationStep) -> (r: String)
    ensures
        r@ == spec_render_step(migration.before, migration.after, *step),
{
    let mut out = String::new();
    match *step {
        SqlMigrationStep::CreateEnum { enum_index } => {
            push_str(&mut out, "CREATE TYPE ");
            push_enum_name(&mut out, &migration.after, enum_index);
            push_str(&mut out, ";");
        },
        SqlMigrationStep::AlterEnum { previous_index, next_index } => {
            push_str(&mut out, "ALTER TYPE ");
            push_enum_name(&mut out, &migration.after, next_index);
            push_str(&mut out, ";");
        },
        SqlMigrationStep::CreateTable { table_index } => {
            push_str(&mut out, "CREATE TABLE ");
            push_table_name(&mut out, &migration.after, table_index);
            push_str(&mut out, " (");
            push_column_list(&mut out, &migration.after, table_index);
            push_str(&mut out, ");");
        },
        SqlMigrationStep::RedefineTables => {
            push_str(&mut out, "-- redefine tables");
        },
        SqlMigrationStep::AddColumn { pair, column_index } => {
            push_str(&mut out, "ALTER TABLE ");
            push_table_name(&mut out, &migration.after, pair.next);
            push_str(&mut out, " ADD COLUMN ");
            push_column_name(&mut out, &migration.after, pair.next, column_index);
            push_str(&mut out, ";");
        },
        SqlMigrationStep::DropColumn { pair, column_index } => {
            push_str(&mut out, "ALTER TABLE ");
            push_table_name(&mut out, &migration.before, pair.previous);
            push_str(&mut out, " DROP COLUMN ");
            push_column_name(&mut out, &migration.before, pair.previous, column_index);
            push_str(&mut out, ";");
        },
        SqlMigrationStep::AlterColumn { pair, previous_column, next_column } => {
            push_str(&mut out, "ALTER TABLE ");
            push_table_name(&mut out, &migration.before, pair.previous);
            push_str(&mut out, " ALTER COLUMN ");
            push_column_name(&mut out, &migration.before, pair.previous, previous_column);
            push_str(&mut out, ";");
        },
        SqlMigrationStep::CreateIndex { table_index, index_index } => {
            push_str(&mut out, "CREATE INDEX ");
            push_index_name(&mut out, &migration.after, table_index, index_index);
            push_str(&mut out, " ON ");
            push_table_name(&mut out, &migration.after, table_index);
            push_str(&mut out, ";");
        },
        SqlMigrationStep::DropIndex { table_index, index_index } => {
            push_str(&mut out, "DROP INDEX ");
            push_index_name(&mut out, &migration.before, table_index, index_index);
            push_str(&mut out, ";");
        },
        SqlMigrationStep::AddForeignKey { table_index, foreign_key_index } => {
            push_str(&mut out, "ALTER TABLE ");
            push_table_name(&mut out, &migration.after, table_index);
            push_str(&mut out, " ADD FOREIGN KEY;");
        },
        SqlMigrationStep::DropForeignKey { table_index, foreign_key_index } => {
            push_str(&mut out, "ALTER TABLE ");
            push_table_name(&mut out, &migration.before, table_index);
            push_str(&mut out, " DROP CONSTRAINT;");
        },
        SqlMigrationStep::DropTable { table_index } => {
            push_str(&mut out, "DROP TABLE ");
            push_table_name(&mut out, &migration.before, table_index);
            push_str(&mut out, ";");
        },
        SqlMigrationStep::DropEnum { enum_index } => {
            push_str(&mut out, "DROP TYPE ");
            push_enum_name(&mut out, &migration.before, enum_index);
            push_str(&mut out, ";");
        },
    }
    out
}

/// The short label of a step.
pub open spec fn spec_step_label(step: SqlMigrationStep) -> Seq<char> {
    match step {
        SqlMigrationStep::CreateEnum { .. } => "CreateEnum"@,
        SqlMigrationStep::AlterEnum { .. } => "AlterEnum"@,
        SqlMigrationStep::CreateTable { .. } => "CreateTable"@,
        SqlMigrationStep::RedefineTables => "RedefineTables"@,
        SqlMigrationStep::AddColumn { .. } => "AddColumn"@,
        SqlMigrationStep::DropColumn { .. } => "DropColumn"@,
        SqlMigrationStep::AlterColumn { .. } => "AlterColumn"@,
        SqlMigrationStep::CreateIndex { .. } => "CreateIndex"@,
        SqlMigrationStep::DropIndex { .. } => "DropIndex"@,
        SqlMigrationStep::AddForeignKey { .. } => "AddForeignKey"@,
        SqlMigrationStep::DropForeignKey { .. } => "DropForeignKey"@,
        SqlMigrationStep::DropTable { .. } => "DropTable"@,
        SqlMigrationStep::DropEnum { .. } => "DropEnum"@,
    }
}

/// The short label of a step.
pub fn step_label(step: &SqlMigrationStep) -> (r: &'static str)
    ensures
        r@ == spec_step_label(*step),
        match step {
            SqlMigrationStep::CreateEnum { .. } => r@ == "CreateEnum"@,
            SqlMigrationStep::AlterEnum { .. } => r@ == "AlterEnum"@,
            SqlMigrationStep::CreateTable { .. } => r@ == "CreateTable"@,
            SqlMigrationStep::RedefineTables => r@ == "RedefineTables"@,
            SqlMigrationStep::AddColumn { .. } => r@ == "AddColumn"@,
            SqlMigrationStep::DropColumn { .. } => r@ == "DropColumn"@,
            SqlMigrationStep::AlterColumn { .. } => r@ == "AlterColumn"@,
            SqlMigrationStep::CreateIndex { .. } => r@ == "CreateIndex"@,
            SqlMigrationStep::DropIndex { .. } => r@ == "DropIndex"@,
            SqlMigrationStep::AddForeignKey { .. } => r@ == "AddForeignKey"@,
            SqlMigrationStep::DropForeignKey { .. } => r@ == "DropForeignKey"@,
            SqlMigrationStep::DropTable { .. } => r@ == "DropTable"@,
            SqlMigrationStep::DropEnum { .. } => r@ == "DropEnum"@,
        },
{
    match step {
        SqlMigrationStep::CreateEnum { .. } => "CreateEnum",
        SqlMigrationStep::AlterEnum { .. } => "AlterEnum",
        SqlMigrationStep::CreateTable { .. } => "CreateTable",
        SqlMigrationStep::RedefineTables => "RedefineTables",
        SqlMigrationStep::AddColumn { .. } => "AddColumn",
        SqlMigrationStep::DropColumn { .. } => "DropColumn",
        SqlMigrationStep::AlterColumn { .. } => "AlterColumn",
        SqlMigrationStep::CreateIndex { .. } => "CreateIndex",
        SqlMigrationStep::DropIndex { .. } => "DropIndex",
        SqlMigrationStep::AddForeignKey { .. } => "AddForeignKey",
        SqlMigrationStep::DropForeignKey { .. } => "DropForeignKey",
        SqlMigrationStep::DropTable { .. } => "DropTable",
        SqlMigrationStep::DropEnum { .. } => "DropEnum",
    }
}

/// Render every step beside its label.
pub fn render_steps_pretty(migration: &SqlMigration) -> (r: Vec<PrettyDatabaseMigrationStep>)
    ensures
        r@.len() == migration.steps@.len(),
        forall|i: int|
            0 <= i < r@.len() ==> (#[trigger] r@[i]).raw@ == spec_render_step(
                migration.before,
                migration.after,
                migration.steps@[i],
            ) && r@[i].step@ == spec_step_label(migration.steps@[i]),
{
    let mut out: Vec<PrettyDatabaseMigrationStep> = Vec::new();
    let n = migration.steps.len();
    for k in 0..n
        invariant
            n == migration.steps@.len(),
            out@.len() == k,
            forall|i: int|
                0 <= i < k ==> (#[trigger] out@[i]).raw@ == spec_render_step(
                    migration.before,
                    migration.after,
                    migration.steps@[i],
                ) && out@[i].step@ == spec_step_label(migration.steps@[i]),
    {
        let raw = render_step(migration, &migration.steps[k]);
        let label = step_label(&migration.steps[k]);
        out.push(PrettyDatabaseMigrationStep { step: label.to_owned(), raw });
    }
    out
}

/// The text of one warning.
pub open spec fn spec_warning_text(
    before: SqlSchema,
    after: SqlSchema,
    w: MigrationWarning,
) -> Seq<char> {
    match w.kind {
        WarningKind::DropTable => "You are about to drop the table "@ + spec_table_name(
            before,
            w.table_index as int,
        ) + ", which holds data."@,
        WarningKind::DropColumn => "You are about to drop the column "@ + (match w.column_index {
            Some(c) => spec_column_name(before, w.table_index as int, c as int),
            None => Seq::empty(),
        }) + " on the table "@ + spec_table_name(before, w.table_index as int)
            + ", which holds data."@,
        WarningKind::RiskyAlterColumn => "Changing the type of the column "@ + (match w
            .column_index {
            Some(c) => spec_column_name(before, w.table_index as int, c as int),
            None => Seq::empty(),
        }) + " on the table "@ + spec_table_name(before, w.table_index as int)
            + " may destroy data."@,
    }
}

/// Render the text of one warning.
pub fn describe_warning(migration: &SqlMigration, w: &MigrationWarning) -> (r: String)
    ensures
        r@ == spec_warning_text(migration.before, migration.after, *w),
{
    let mut out = String::new();
    match w.kind {
        WarningKind::DropTable => {
            push_str(&mut out, "You are about to drop the table ");
            push_table_name(&mut out, &migration.before, w.table_index);
            push_str(&mut out, ", which holds data.");
        },
        WarningKind::DropColumn => {
            push_str(&mut out, "You are about to drop the column ");
            match w.column_index {
                Some(c) => push_column_name(&mut out, &migration.before, w.table_index, c),
                None => {
                    proof {
                        assert(out@ + Seq::<char>::empty() =~= out@);
                    }
                },
            }
            push_str(&mut out, " on the table ");
            push_table_name(&mut out, &migration.before, w.table_index);
            push_str(&mut out, ", which holds data.");
        },
        WarningKind::RiskyAlterColumn => {
            push_str(&mut out, "Changing the type of the column ");
            match w.column_index {
                Some(c) => push_column_name(&mut out, &migration.before, w.table_index, c),
                None => {
                    proof {
                        assert(out@ + Seq::<char>::empty() =~= out@);
                    }
                },
            }
            push_str(&mut out, " on the table ");
            push_table_name(&mut out, &migration.before, w.table_index);
            push_str(&mut out, " may destroy data.");
        },
    }
    out
}

/// The text of one unexecutable entry.
pub open spec fn spec_unexecutable_text(
    before: SqlSchema,
    after: SqlSchema,
    u: UnexecutableMigration,
) -> Seq<char> {
    match u.kind {
        UnexecutableKind::AddRequiredColumnWithoutDefault => "Added the required column "@
            + spec_column_name(after, u.table_index as int, u.column_index as int)
            + " to the table "@ + spec_table_name(after, u.table_index as int)
            + " without a default value, but the table holds data."@,
        UnexecutableKind::NotCastableTypeChange => "The type change on the column "@
            + spec_column_name(before, u.table_index as int, u.column_index as int)
            + " of the table "@ + spec_table_name(before, u.table_index as int)
            + " cannot be cast, and the table holds data."@,
    }
}

/// Render the text of one unexecutable entry.
pub fn describe_unexecutable(migration: &SqlMigration, u: &UnexecutableMigration) -> (r: String)
    ensures
        r@ == spec_unexecutable_text(migration.before, migration.after, *u),
{
    let mut out = String::new();
    match u.kind {
        UnexecutableKind::AddRequiredColumnWithoutDefault => {
            push_str(&mut out, "Added the required column ");
            push_column_name(&mut out, &migration.after, u.table_index, u.column_index);
            push_str(&mut out, " to the table ");
            push_table_name(&mut out, &migration.after, u.table_index);
            push_str(&mut out, " without a default value, but the table holds data.");
        },
        UnexecutableKind::NotCastableTypeChange => {
            push_str(&mut out, "The type change on the column ");
            push_column_name(&mut out, &migration.before, u.table_index, u.column_index);
            push_str(&mut out, " of the table ");
            push_table_name(&mut out, &migration.before, u.table_index);
            push_str(&mut out, " cannot be cast, and the table holds data.");
        },
    }
    out
}

/// The warning comment lines of the script, from position `k`.
pub open spec fn spec_warning_comments(
    before: SqlSchema,
    after: SqlSchema,
    warnings: Seq<MigrationWarning>,
    k: int,
) -> Seq<char>
    decreases warnings.len() - k,
{
    if k < 0 || k >= warnings.len() {
        Seq::empty()
    } else {
        "-- "@ + spec_warning_text(before, after, warnings[k]) + "\n"@ + spec_warning_comments(
            before,
            after,
            warnings,
            k + 1,
        )
    }
}

/// The statement lines of the script, from position `k`.
pub open spec fn spec_step_lines(
    before: SqlSchema,
    after: SqlSchema,
    steps: Seq<SqlMigrationStep>,
    k: int,
) -> Seq<char>
    decreases steps.len() - k,
{
    if k < 0 || k >= steps.len() {
        Seq::empty()
    } else {
        spec_render_step(before, after, steps[k]) + "\n"@ + spec_step_lines(
            before,
            after,
            steps,
            k + 1,
        )
    }
}

/// The whole script: warning comments first, then one statement per step.
pub open spec fn spec_migration_script(
    before: SqlSchema,
    after: SqlSchema,
    warnings: Seq<MigrationWarning>,
    steps: Seq<SqlMigrationStep>,
) -> Seq<char> {
    spec_warning_comments(before, after, warnings, 0) + spec_step_lines(before, after, steps, 0)
}

/// Render a migration as a full script: the extension and the script
/// text, with the diagnostics' warnings as leading comments. Rendering is
/// deterministic and never fails.
pub fn render_migration_script(
    migration: &SqlMigration,
    diagnostics: &DestructiveChangeDiagnostics,
) -> (r: (&'static str, String))
    ensures
        r.0@ == "sql"@,
        r.1@ == spec_migration_script(
            migration.before,
            migration.after,
            diagnostics.warnings@,
            migration.steps@,
        ),
{
    let mut out = String::new();
    proof {
        assert(out@ + spec_warning_comments(
            migration.before,
            migration.after,
            diagnostics.warnings@,
            0,
        ) =~= spec_warning_comments(migration.before, migration.after, diagnostics.warnings@, 0));
    }
    let nw = diagnostics.warnings.len();
    for k in 0..nw
        invariant
            nw == diagnostics.warnings@.len(),
            spec_warning_comments(migration.before, migration.after, diagnostics.warnings@, 0)
                == out@ + spec_warning_comments(
                migration.before,
                migration.after,
                diagnostics.warnings@,
                k as int,
            ),
    {
        let ghost pre = out@;
        push_str(&mut out, "-- ");
        let text = describe_warning(migration, &diagnostics.warnings[k]);
        push_str(&mut out, text.as_str());
        push_str(&mut out, "\n");
        proof {
            assert(pre + spec_warning_comments(
                migration.before,
                migration.after,
                diagnostics.warnings@,
                k as int,
            ) =~= out@ + spec_warning_comments(
                migration.before,
                migration.after,
                diagnostics.warnings@,
                k + 1,
            ));
        }
    }
    proof {
        assert(spec_warning_comments(
            migration.before,
            migration.after,
            diagnostics.warnings@,
            nw as int,
        ) =~= Seq::<char>::empty());
        assert(out@ + Seq::<char>::empty() =~= out@);
    }
    let ghost comments = out@;
    proof {
        assert(comments + spec_step_lines(migration.before, migration.after, migration.steps@, 0)
            =~= out@ + spec_step_lines(migration.before, migration.after, migration.steps@, 0));
    }
    let ns = migration.steps.len();
    for k in 0..ns
        invariant
            ns == migration.steps@.len(),
            comments + spec_step_lines(migration.before, migration.after, migration.steps@, 0)
                == out@ + spec_step_lines(
                migration.before,
                migration.after,
                migration.steps@,
                k as int,
            ),
    {
        let ghost pre = out@;
        let line = render_step(migration, &migration.steps[k]);
        push_str(&mut out, line.as_str());
        push_str(&mut out, "\n");
        proof {
            assert(pre + spec_step_lines(
                migration.before,
                migration.after,
                migration.steps@,
                k as int,
            ) =~= out@ + spec_step_lines(
                migration.before,
                migration.after,
                migration.steps@,
                k + 1,
            ));
        }
    }
    proof {
        assert(spec_step_lines(migration.before, migration.after, migration.steps@, ns as int)
            =~= Seq::<char>::empty());
        assert(out@ + Seq::<char>::empty() =~= out@);
    }
    ("sql", out)
}

} // verus!
