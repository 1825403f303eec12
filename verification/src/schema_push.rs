//! The schema-push command's decision core: catching the database up with
//! the migrations history, gating on destructive changes, and shaping the
//! command's output. The caller performs the database and filesystem work
//! each decision calls for.

use vstd::prelude::*;
use crate::applier::{spec_unexecutable_text, spec_warning_text};
use crate::destructive::DestructiveChangeDiagnostics;
use crate::differ::SqlMigration;
use crate::history::{HistoryDiagnostic, ImperativeMigration};
use crate::migrations_folder::{push_str, MigrationFolder};

verus! {

/// The input of the schema-push command.
#[derive(Debug)]
pub struct SchemaPushInput {
    /// The declarative schema text.
    pub schema: String,
    /// Permission to revert migrations and drop data in the process.
    pub force: bool,
    /// Push the schema ignoring destructive change warnings.
    pub accept_data_loss: bool,
    /// Generate the next migration without applying it.
    pub draft: bool,
    /// The migrations folder, if the project uses migrations.
    pub migrations_folder_path: Option<String>,
}

/// The schema-push command over its input.
pub struct SchemaPushCommand<'a> {
    pub input: &'a SchemaPushInput,
}

/// The output of the schema-push command.
#[derive(Debug)]
pub struct SchemaPushOutput {
    pub executed_steps: u32,
    pub warnings: Vec<String>,
    pub unexecutable: Vec<String>,
    pub radical_measure: Option<String>,
}

impl SchemaPushOutput {
    /// Whether the push found nothing to do: no steps, no findings, no
    /// confirmation request.
    pub fn had_no_changes_to_push(&self) -> (r: bool)
        ensures
            r == (self.warnings@.len() == 0 && self.unexecutable@.len() == 0
                && self.executed_steps == 0 && self.radical_measure is None),
    {
        self.warnings.is_empty() && self.unexecutable.is_empty() && self.executed_steps == 0
            && self.radical_measure.is_none()
    }
}

/// The create-migration command.
pub struct CreateMigrationCommand;

/// The input of the create-migration command.
#[derive(Debug)]
pub struct CreateMigrationInput {
    pub name: String,
}

/// Whether a checked migration may be applied: never with an unexecutable
/// step, and with warnings only when data loss was accepted.
pub fn should_apply(checks: &DestructiveChangeDiagnostics, input: &SchemaPushInput) -> (r: bool)
    ensures
        r == (checks.unexecutable_migrations@.len() == 0 && (checks.warnings@.len() == 0
            || input.accept_data_loss)),
{
    if checks.unexecutable_migrations.len() > 0 {
        false
    } else if checks.warnings.len() == 0 || input.accept_data_loss {
        true
    } else {
        false
    }
}

/// What the orchestrator does next after the history diagnostic.
#[derive(Debug)]
pub enum CatchUpAction {
    /// The histories agree; check the live database for drift.
    CheckDrift,
    /// Apply the folder's migrations from this position on, recording
    /// each before running it.
    ApplyUnapplied { from: usize },
    /// Stop and ask the user to confirm a data-losing measure.
    RadicalMeasure { message: String },
    /// Reset the database, replay the folder's scripts, and mark the
    /// applied rows from this position on as rolled back.
    RevertAll { unpersisted_from: usize },
    /// Revert to the last matched folder entry, then replay the folder's
    /// tail.
    RevertToAndReplay { last_applied_filesystem_migration: usize },
}

/// The actions that drop data or revert applied migrations.
pub open spec fn action_is_destructive(a: CatchUpAction) -> bool {
    match a {
        CatchUpAction::RevertAll { .. } => true,
        CatchUpAction::RevertToAndReplay { .. } => true,
        _ => false,
    }
}

/// The folder id at a position, or nothing past the end.
pub open spec fn spec_folder_id(fs: Seq<MigrationFolder>, i: int) -> Seq<char> {
    if 0 <= i < fs.len() {
        fs[i].folder_name@
    } else {
        Seq::empty()
    }
}

/// The diverging histories are exactly one edited tail entry: the
/// divergence sits on the last entry of both lists, and the names still
/// agree there.
pub open spec fn spec_last_migration_edited(
    fs: Seq<MigrationFolder>,
    applied: Seq<ImperativeMigration>,
    last: int,
) -> bool {
    &&& last + 2 == applied.len()
    &&& last + 2 == fs.len()
    &&& applied[last + 1].name@ == fs[last + 1].folder_name@
}

/// The message asking to confirm a divergence revert.
pub open spec fn spec_divergence_message(id: Seq<char>) -> Seq<char> {
    "The history of the migrations from the migrations table and the migrations folder diverge, after the `"@
        + id
        + "` migration. The database will be returned to a clean history. This will drop all the data in the local database."@
}

/// Decide what to do for a history diagnostic. With `force` unset, no
/// destructive action is ever chosen: reverts are replaced by a
/// confirmation request.
pub fn catch_up_decision(
    diagnostic: &HistoryDiagnostic,
    filesystem_migrations: &Vec<MigrationFolder>,
    applied_migrations: &Vec<ImperativeMigration>,
    force: bool,
) -> (r: CatchUpAction)
    ensures
        !force ==> !action_is_destructive(r),
        match *diagnostic {
            HistoryDiagnostic::UpToDate => r is CheckDrift,
            HistoryDiagnostic::DatabaseIsBehind { unapplied_from } => r matches
                CatchUpAction::ApplyUnapplied { from } && from == unapplied_from,
            HistoryDiagnostic::FilesystemIsBehind { unpersisted_from } => if force {
                r matches CatchUpAction::RevertAll { unpersisted_from: u } && u
                    == unpersisted_from
            } else {
                r matches CatchUpAction::RadicalMeasure { message } && message@
                    == "The migrations folder is behind the database. The migrations that are not in the folder will be reverted. This will drop all the data in the local database."@
            },
            HistoryDiagnostic::HistoriesDiverge { last_applied_filesystem_migration } => if force {
                r matches CatchUpAction::RevertToAndReplay { last_applied_filesystem_migration: l }
                    && l == last_applied_filesystem_migration
            } else {
                r matches CatchUpAction::RadicalMeasure { message } && message@
                    == if spec_last_migration_edited(
                    filesystem_migrations@,
                    applied_migrations@,
                    last_applied_filesystem_migration as int,
                ) {
                    "The last migration was edited. It will be reverted and applied again. All data in the local database will be lost."@
                } else {
                    spec_divergence_message(
                        spec_folder_id(
                            filesystem_migrations@,
                            last_applied_filesystem_migration as int,
                        ),
                    )
                }
            },
        },
{
    match *diagnostic {
        HistoryDiagnostic::UpToDate => CatchUpAction::CheckDrift,
        HistoryDiagnostic::DatabaseIsBehind { unapplied_from } => CatchUpAction::ApplyUnapplied {
            from: unapplied_from,
        },
        HistoryDiagnostic::FilesystemIsBehind { unpersisted_from } => {
            if force {
                CatchUpAction::RevertAll { unpersisted_from }
            } else {
                CatchUpAction::RadicalMeasure {
                    message:
                        "The migrations folder is behind the database. The migrations that are not in the folder will be reverted. This will drop all the data in the local database.".to_owned(),
                }
            }
        },
        HistoryDiagnostic::HistoriesDiverge { last_applied_filesystem_migration: last } => {
            if force {
                CatchUpAction::RevertToAndReplay { last_applied_filesystem_migration: last }
            } else {
                let edited = applied_migrations.len() >= 2 && last == applied_migrations.len() - 2
                    && filesystem_migrations.len() >= 2 && last == filesystem_migrations.len() - 2
                    && String::eq(
                    &applied_migrations[last + 1].name,
                    &filesystem_migrations[last + 1].folder_name,
                );
                if edited {
                    CatchUpAction::RadicalMeasure {
                        message:
                            "The last migration was edited. It will be reverted and applied again. All data in the local database will be lost.".to_owned(),
                    }
                } else {
                    let mut message =
                        "The history of the migrations from the migrations table and the migrations folder diverge, after the `".to_owned();
                    if last < filesystem_migrations.len() {
                        push_str(&mut message, filesystem_migrations[last].folder_name.as_str());
                    } else {
                        proof {
                            assert(message@ + Seq::<char>::empty() =~= message@);
                        }
                    }
                    push_str(
                        &mut message,
                        "` migration. The database will be returned to a clean history. This will drop all the data in the local database.",
                    );
                    CatchUpAction::RadicalMeasure { message }
                }
            }
        },
    }
}

/// What the orchestrator does about drift.
#[derive(Debug)]
pub enum DriftAction {
    /// No drift: go on.
    Proceed,
    /// Drift, with permission: apply the drift migration step by step.
    ApplyDrift,
    /// Drift without permission: stop and ask.
    Stop { message: String },
}

/// Decide what to do about detected drift. With `force` unset, the drift
/// migration is never applied.
pub fn drift_decision(has_drift: bool, force: bool) -> (r: DriftAction)
    ensures
        !has_drift ==> r is Proceed,
        (has_drift && force) ==> r is ApplyDrift,
        (has_drift && !force) ==> (r matches DriftAction::Stop { message } && message@
            == "Detected drift between dev database and migrations history. Bring them back into sync? (this may imply data loss)"@),
        !force ==> !(r is ApplyDrift),
{
    if !has_drift {
        DriftAction::Proceed
    } else if force {
        DriftAction::ApplyDrift
    } else {
        DriftAction::Stop {
            message:
                "Detected drift between dev database and migrations history. Bring them back into sync? (this may imply data loss)".to_owned(),
        }
    }
}

/// The output of a push that did nothing.
pub fn output_no_changes() -> (r: SchemaPushOutput)
    ensures
        r.executed_steps == 0,
        r.warnings@.len() == 0,
        r.unexecutable@.len() == 0,
        r.radical_measure is None,
{
    SchemaPushOutput {
        executed_steps: 0,
        warnings: Vec::new(),
        unexecutable: Vec::new(),
        radical_measure: None,
    }
}

/// The output of a push stopped by a measure awaiting confirmation.
pub fn output_with_radical_measure(message: String) -> (r: SchemaPushOutput)
    ensures
        r.executed_steps == 0,
        r.warnings@.len() == 0,
        r.unexecutable@.len() == 0,
        r.radical_measure == Some(message),
{
    SchemaPushOutput {
        executed_steps: 0,
        warnings: Vec::new(),
        unexecutable: Vec::new(),
        radical_measure: Some(message),
    }
}

/// The output of a push from its step count and its diagnostics, with
/// every finding rendered as text.
pub fn output_from_diagnostics(
    executed_steps: u32,
    migration: &SqlMigration,
    checks: &DestructiveChangeDiagnostics,
) -> (r: SchemaPushOutput)
    ensures
        r.executed_steps == executed_steps,
        r.radical_measure is None,
        r.warnings@.len() == checks.warnings@.len(),
        forall|i: int|
            0 <= i < r.warnings@.len() ==> (#[trigger] r.warnings@[i])@ == spec_warning_text(
                migration.before,
                migration.after,
                checks.warnings@[i],
            ),
        r.unexecutable@.len() == checks.unexecutable_migrations@.len(),
        forall|i: int|
            0 <= i < r.unexecutable@.len() ==> (#[trigger] r.unexecutable@[i])@
                == spec_unexecutable_text(
                migration.before,
                migration.after,
                checks.unexecutable_migrations@[i],
            ),
{
    let mut warnings: Vec<String> = Vec::new();
    let nw = checks.warnings.len();
    for i in 0..nw
        invariant
            nw == checks.warnings@.len(),
            warnings@.len() == i,
            forall|j: int|
                0 <= j < i ==> (#[trigger] warnings@[j])@ == spec_warning_text(
                    migration.before,
                    migration.after,
                    checks.warnings@[j],
                ),
    {
        warnings.push(crate::applier::describe_warning(migration, &checks.warnings[i]));
    }
    let mut unexecutable: Vec<String> = Vec::new();
    let nu = checks.unexecutable_migrations.len();
    for i in 0..nu
        invariant
            nu == checks.unexecutable_migrations@.len(),
            unexecutable@.len() == i,
            forall|j: int|
                0 <= j < i ==> (#[trigger] unexecutable@[j])@ == spec_unexecutable_text(
                    migration.before,
                    migration.after,
                    checks.unexecutable_migrations@[j],
                ),
    {
        unexecutable.push(
            crate::applier::describe_unexecutable(migration, &checks.unexecutable_migrations[i]),
        );
    }
    SchemaPushOutput { executed_steps, warnings, unexecutable, radical_measure: None }
}

} // verus!
