//! The history diagnostic: match the ordered migrations folder against the
//! ordered applied-migrations table, pairwise by content checksum, and
//! classify the outcome.

use vstd::prelude::*;
use crate::checksum::{sha512_checksum, sha512_of};
use crate::migrations_folder::MigrationFolder;

verus! {

/// The canonical name of the applied-migrations table.
pub const MIGRATION_TABLE_NAME: &'static str = "_prisma_imperative_migrations";

/// One row of the applied-migrations table. A row counts as applied while
/// its `rolled_back_at` timestamp is null; a row with a null `finished_at`
/// records a partial run and still matches by checksum rather than being
/// filtered out.
#[derive(Debug)]
pub struct ImperativeMigration {
    pub name: String,
    pub script: String,
    pub checksum: Vec<u8>,
    pub started_at: Option<i64>,
    pub finished_at: Option<i64>,
    pub rolled_back_at: Option<i64>,
}

impl ImperativeMigration {
    /// Whether the migration counts as applied.
    pub fn is_applied(&self) -> (r: bool)
        ensures
            r == (self.rolled_back_at is None),
    {
        self.rolled_back_at.is_none()
    }
}

/// Build an applied-migrations row from the plain values of one table row;
/// a row without a script, name or checksum is rejected.
pub fn imperative_migration_from_row(
    script: Option<String>,
    name: Option<String>,
    checksum: Option<Vec<u8>>,
    started_at: Option<i64>,
    finished_at: Option<i64>,
    rolled_back_at: Option<i64>,
) -> (r: Option<ImperativeMigration>)
    ensures
        match r {
            Some(m) => {
                &&& script matches Some(s) && m.script == s
                &&& name matches Some(n) && m.name == n
                &&& checksum matches Some(c) && m.checksum == c
                &&& m.started_at == started_at
                &&& m.finished_at == finished_at
                &&& m.rolled_back_at == rolled_back_at
            },
            None => script is None || name is None || checksum is None,
        },
{
    match (script, name, checksum) {
        (Some(script), Some(name), Some(checksum)) => Some(ImperativeMigration {
            name,
            script,
            checksum,
            started_at,
            finished_at,
            rolled_back_at,
        }),
        _ => None,
    }
}

/// Whether two byte vectors hold the same bytes.
pub fn bytes_equal(a: &Vec<u8>, b: &Vec<u8>) -> (r: bool)
    ensures
        r == (a@ == b@),
{
    if a.len() != b.len() {
        return false;
    }
    let n = a.len();
    for i in 0..n
        invariant
            n == a@.len(),
            a@.len() == b@.len(),
            forall|j: int| 0 <= j < i ==> a@[j] == b@[j],
    {
        if a[i] != b[i] {
            return false;
        }
    }
    proof {
        assert(a@ =~= b@);
    }
    true
}

/// The classification of a folder/table comparison. Index payloads point
/// into the sequences the diagnostic was computed from: `unapplied_from`
/// into the folder list, `unpersisted_from` into the applied list.
#[derive(Clone, Copy, PartialEq, Eq, Structural, Debug)]
pub enum HistoryDiagnostic {
    UpToDate,
    DatabaseIsBehind { unapplied_from: usize },
    FilesystemIsBehind { unpersisted_from: usize },
    HistoriesDiverge { last_applied_filesystem_migration: usize },
}

impl HistoryDiagnostic {
    /// A short label for the variant.
    pub fn short(&self) -> (r: &'static str)
        ensures
            match self {
                HistoryDiagnostic::UpToDate => r@ == "UpToDate"@,
                HistoryDiagnostic::DatabaseIsBehind { .. } => r@ == "DatabaseIsBehind"@,
                HistoryDiagnostic::FilesystemIsBehind { .. } => r@ == "FilesystemIsBehind"@,
                HistoryDiagnostic::HistoriesDiverge { .. } => r@ == "HistoriesDiverge"@,
            },
    {
        match self {
            HistoryDiagnostic::UpToDate => "UpToDate",
            HistoryDiagnostic::DatabaseIsBehind { .. } => "DatabaseIsBehind",
            HistoryDiagnostic::FilesystemIsBehind { .. } => "FilesystemIsBehind",
            HistoryDiagnostic::HistoriesDiverge { .. } => "HistoriesDiverge",
        }
    }
}

/// The least index at or after `from` whose row counts as applied.
pub open spec fn spec_next_applied(applied: Seq<ImperativeMigration>, from: int) -> Option<int>
    decreases applied.len() - from,
{
    if from < 0 || from >= applied.len() {
        None
    } else if applied[from].rolled_back_at is None {
        Some(from)
    } else {
        spec_next_applied(applied, from + 1)
    }
}

/// The diagnostic for the remaining folder entries from position `f` and
/// the remaining applied rows from position `a`, with `last` the position
/// of the last folder entry already matched. Rolled-back rows are skipped
/// throughout: past the last folder entry, leftover rows count only when
/// one of them is still applied.
pub open spec fn spec_diagnose_from(
    fs: Seq<MigrationFolder>,
    applied: Seq<ImperativeMigration>,
    f: int,
    a: int,
    last: Option<int>,
) -> HistoryDiagnostic
    decreases fs.len() - f,
{
    if f < 0 || f >= fs.len() {
        match spec_next_applied(applied, a) {
            Some(j) => HistoryDiagnostic::FilesystemIsBehind { unpersisted_from: j as usize },
            None => HistoryDiagnostic::UpToDate,
        }
    } else {
        match spec_next_applied(applied, a) {
            None => HistoryDiagnostic::DatabaseIsBehind { unapplied_from: f as usize },
            Some(j) => if applied[j].checksum@ == sha512_of(fs[f].script@) {
                spec_diagnose_from(fs, applied, f + 1, j + 1, Some(f))
            } else {
                match last {
                    Some(l) => HistoryDiagnostic::HistoriesDiverge {
                        last_applied_filesystem_migration: l as usize,
                    },
                    None => HistoryDiagnostic::FilesystemIsBehind { unpersisted_from: 0 },
                }
            },
        }
    }
}

/// The diagnostic for a folder list and an applied list, matched from the
/// start.
pub open spec fn spec_diagnose(
    fs: Seq<MigrationFolder>,
    applied: Seq<ImperativeMigration>,
) -> HistoryDiagnostic {
    spec_diagnose_from(fs, applied, 0, 0, None)
}

/// The index of the next applied row at or after `from`, skipping rows
/// that were rolled back.
pub fn next_applied_migration(
    applied_migrations: &Vec<ImperativeMigration>,
    from: usize,
) -> (r: Option<usize>)
    ensures
        match r {
            Some(j) => spec_next_applied(applied_migrations@, from as int) == Some(j as int)
                && from <= j < applied_migrations@.len(),
            None => spec_next_applied(applied_migrations@, from as int) is None,
        },
{
    let n = applied_migrations.len();
    let mut j = from;
    while j < n
        invariant
            n == applied_migrations@.len(),
            from <= j,
            spec_next_applied(applied_migrations@, from as int) == spec_next_applied(
                applied_migrations@,
                j as int,
            ),
        decreases n - j,
    {
        if applied_migrations[j].is_applied() {
            return Some(j);
        }
        j = j + 1;
    }
    None
}

/// Compare the folder list with the applied list, pairwise by checksum in
/// the order given by `next_applied_migration`, and classify the outcome.
/// Exactly one variant is returned for every input pair.
pub fn diagnose_migrations_history(
    filesystem_migrations: &Vec<MigrationFolder>,
    applied_migrations: &Vec<ImperativeMigration>,
) -> (d: HistoryDiagnostic)
    ensures
        d == spec_diagnose(filesystem_migrations@, applied_migrations@),
{
    let nf = filesystem_migrations.len();
    let na = applied_migrations.len();
    let mut f: usize = 0;
    let mut a: usize = 0;
    let mut last: Option<usize> = None;
    loop
        invariant
            nf == filesystem_migrations@.len(),
            na == applied_migrations@.len(),
            f <= nf,
            a <= na,
            spec_diagnose(filesystem_migrations@, applied_migrations@) == spec_diagnose_from(
                filesystem_migrations@,
                applied_migrations@,
                f as int,
                a as int,
                spec_opt_int(last),
            ),
        decreases nf - f,
    {
        if f == nf {
            match next_applied_migration(applied_migrations, a) {
                Some(j) => {
                    return HistoryDiagnostic::FilesystemIsBehind { unpersisted_from: j };
                },
                None => {
                    return HistoryDiagnostic::UpToDate;
                },
            }
        }
        let digest = sha512_checksum(filesystem_migrations[f].script.as_str());
        match next_applied_migration(applied_migrations, a) {
            None => {
                return HistoryDiagnostic::DatabaseIsBehind { unapplied_from: f };
            },
            Some(j) => {
                if bytes_equal(&applied_migrations[j].checksum, &digest) {
                    last = Some(f);
                    f = f + 1;
                    a = j + 1;
                } else {
                    match last {
                        Some(l) => {
                            return HistoryDiagnostic::HistoriesDiverge {
                                last_applied_filesystem_migration: l,
                            };
                        },
                        None => {
                            return HistoryDiagnostic::FilesystemIsBehind { unpersisted_from: 0 };
                        },
                    }
                }
            },
        }
    }
}

/// An index option as a mathematical-integer option.
pub open spec fn spec_opt_int(o: Option<usize>) -> Option<int> {
    match o {
        Some(v) => Some(v as int),
        None => None,
    }
}

/// Every applied row counts as applied and carries the checksum of the
/// folder entry at the same position.
pub open spec fn matches_prefix(
    fs: Seq<MigrationFolder>,
    applied: Seq<ImperativeMigration>,
) -> bool {
    forall|i: int|
        0 <= i < applied.len() ==> (#[trigger] applied[i]).rolled_back_at is None
            && applied[i].checksum@ == sha512_of(fs[i].script@)
}

/// The applied rows from position `a` that are not rolled back match the
/// folder entries from position `f` pairwise by checksum, and both run
/// out together. Rolled-back rows may sit anywhere.
pub open spec fn matches_applied_suffix(
    fs: Seq<MigrationFolder>,
    applied: Seq<ImperativeMigration>,
    f: int,
    a: int,
) -> bool
    decreases fs.len() - f,
{
    match spec_next_applied(applied, a) {
        None => f == fs.len(),
        Some(j) => if f < fs.len() {
            applied[j].checksum@ == sha512_of(fs[f].script@) && matches_applied_suffix(
                fs,
                applied,
                f + 1,
                j + 1,
            )
        } else {
            false
        },
    }
}

proof fn lemma_diagnose_matched_filtered(
    fs: Seq<MigrationFolder>,
    applied: Seq<ImperativeMigration>,
    f: int,
    a: int,
    last: Option<int>,
)
    requires
        0 <= f <= fs.len(),
        fs.len() <= usize::MAX,
        matches_applied_suffix(fs, applied, f, a),
    ensures
        spec_diagnose_from(fs, applied, f, a, last) == HistoryDiagnostic::UpToDate,
    decreases fs.len() - f,
{
    match spec_next_applied(applied, a) {
        None => {},
        Some(j) => {
            lemma_diagnose_matched_filtered(fs, applied, f + 1, j + 1, Some(f));
        },
    }
}

proof fn lemma_diagnose_matched(
    fs: Seq<MigrationFolder>,
    applied: Seq<ImperativeMigration>,
    k: int,
    last: Option<int>,
)
    requires
        0 <= k <= applied.len(),
        applied.len() <= fs.len(),
        matches_prefix(fs, applied),
    ensures
        spec_diagnose_from(fs, applied, k, k, last) == if applied.len() == fs.len() {
            HistoryDiagnostic::UpToDate
        } else {
            HistoryDiagnostic::DatabaseIsBehind { unapplied_from: applied.len() as usize }
        },
    decreases applied.len() - k,
{
    if k == applied.len() {
        if k == fs.len() {
        } else {
            assert(spec_next_applied(applied, k) is None);
        }
    } else {
        assert(spec_next_applied(applied, k) == Some(k));
        lemma_diagnose_matched(fs, applied, k + 1, Some(k));
    }
}

/// Totality on matching histories: when the applied rows that are not
/// rolled back match the folder pairwise by checksum in order, with none
/// left over, the diagnostic is `UpToDate` — wherever rolled-back rows
/// sit in the list.
pub proof fn lemma_diagnose_up_to_date(fs: Seq<MigrationFolder>, applied: Seq<ImperativeMigration>)
    requires
        fs.len() <= usize::MAX,
        matches_applied_suffix(fs, applied, 0, 0),
    ensures
        spec_diagnose(fs, applied) == HistoryDiagnostic::UpToDate,
{
    lemma_diagnose_matched_filtered(fs, applied, 0, 0, None);
}

/// The prefix law: when the applied table is a strict checksum-prefix of
/// the folder, the diagnostic is `DatabaseIsBehind` and the unapplied
/// entries start right after the prefix.
pub proof fn lemma_diagnose_database_is_behind(
    fs: Seq<MigrationFolder>,
    applied: Seq<ImperativeMigration>,
)
    requires
        applied.len() < fs.len(),
        matches_prefix(fs, applied),
    ensures
        spec_diagnose(fs, applied) == (HistoryDiagnostic::DatabaseIsBehind {
            unapplied_from: applied.len() as usize,
        }),
{
    lemma_diagnose_matched(fs, applied, 0, None);
}

} // verus!
