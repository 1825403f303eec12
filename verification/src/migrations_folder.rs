//! The contents of the migrations folder.
//!
//! A migration folder is a directory named `{timestamp}_{name}` holding one
//! migration script; it is created once and never mutated. Here a folder is
//! the pair of its name and its script text; listing directories and
//! reading files is left to the caller.

use vstd::prelude::*;
use crate::checksum::{sha512_checksum, sha512_of};
use crate::history::ImperativeMigration;

verus! {

/// One migration folder: its `{timestamp}_{name}` id and the script text
/// it holds.
#[derive(Debug)]
pub struct MigrationFolder {
    pub folder_name: String,
    pub script: String,
}

impl MigrationFolder {
    /// Make a folder value from its name and its script.
    pub fn new(folder_name: String, script: String) -> (r: MigrationFolder)
        ensures
            r.folder_name == folder_name,
            r.script == script,
    {
        MigrationFolder { folder_name, script }
    }

    /// The `{timestamp}_{name}` formatted migration id.
    pub fn migration_id(&self) -> (r: &String)
        ensures
            r == self.folder_name,
    {
        &self.folder_name
    }

    /// Fill `buf` with the SHA-512 checksum of the migration script.
    pub fn checksum(&self, buf: &mut Vec<u8>)
        ensures
            final(buf)@ == sha512_of(self.script@),
            final(buf)@.len() == 64,
    {
        let digest = sha512_checksum(self.script.as_str());
        *buf = digest;
    }

    /// Whether an applied-migrations row carries the checksum of this
    /// folder's script.
    pub fn matches_applied_migration(&self, applied_migration: &ImperativeMigration) -> (r: bool)
        ensures
            r == (applied_migration.checksum@ == sha512_of(self.script@)),
    {
        let digest = sha512_checksum(self.script.as_str());
        crate::history::bytes_equal(&applied_migration.checksum, &digest)
    }
}

/// A checksum depends on the script's characters alone: two folders with
/// the same script content have the same checksum.
pub proof fn lemma_checksum_stability(a: MigrationFolder, b: MigrationFolder)
    requires
        a.script@ == b.script@,
    ensures
        sha512_of(a.script@) == sha512_of(b.script@),
{
}

/// Append a string slice to a string. Relies on String::push_str: it
/// appends the characters of `s` to the end of the string.
#[verifier::external_body]
pub(crate) fn push_str(out: &mut String, s: &str)
    ensures
        final(out)@ == old(out)@ + s@,
{
    out.push_str(s);
}

/// The folder name for a new migration: the timestamp, an underscore, and
/// the migration name.
pub fn format_folder_name(timestamp: &str, migration_name: &str) -> (r: String)
    ensures
        r@ == timestamp@ + "_"@ + migration_name@,
{
    let mut out = timestamp.to_owned();
    push_str(&mut out, "_");
    push_str(&mut out, migration_name);
    out
}

/// The current UTC time rendered as a folder-name timestamp. Relies on
/// chrono's Utc::now and its formatter; the value depends on the clock, so
/// nothing is promised of it.
#[verifier::external_body]
fn current_timestamp() -> String {
    chrono::Utc::now().format("%Y%m%d%M%S").to_string()
}

/// A folder-name timestamp prefix: exactly twelve ASCII digits.
pub open spec fn spec_is_timestamp(ts: Seq<char>) -> bool {
    &&& ts.len() == 12
    &&& forall|i: int| 0 <= i < ts.len() ==> '0' <= #[trigger] ts[i] <= '9'
}

/// Whether a string has the folder-name timestamp shape.
pub fn is_timestamp(s: &str) -> (r: bool)
    ensures
        r == spec_is_timestamp(s@),
{
    broadcast use vstd::utf8::is_ascii_chars_encode_utf8;

    if !s.is_ascii() {
        proof {
            let i = choose|i: int|
                0 <= i < s@.len() && !('\0' <= (#[trigger] s@[i]) <= '\u{7f}');
            assert(!('0' <= s@[i] <= '9'));
        }
        return false;
    }
    let b = s.as_bytes();
    if b.len() != 12 {
        return false;
    }
    for i in 0..12usize
        invariant
            vstd::utf8::is_ascii_chars(s@),
            s@.len() == 12,
            b@.len() == 12,
            b@ == vstd::utf8::encode_utf8(s@),
            forall|j: int| 0 <= j < i ==> '0' <= #[trigger] s@[j] <= '9',
    {
        proof {
            vstd::utf8::is_ascii_chars_encode_utf8(s@);
            assert(s@[i as int] as u8 == b@[i as int]);
        }
        if b[i] < 48 || b[i] > 57 {
            proof {
                assert(!('0' <= s@[i as int] <= '9'));
            }
            return false;
        }
        proof {
            assert('0' <= s@[i as int] <= '9');
        }
    }
    true
}

/// The folder name for a new migration at the current UTC time: a
/// twelve-digit timestamp, an underscore, and the migration name. Nothing
/// is returned when the clock renders outside that shape.
pub fn new_migration_folder_name(migration_name: &str) -> (r: Option<String>)
    ensures
        match r {
            Some(name) => exists|ts: Seq<char>|
                #[trigger] spec_is_timestamp(ts) && name@ == ts + "_"@ + migration_name@,
            None => true,
        },
{
    let timestamp = current_timestamp();
    if !is_timestamp(timestamp.as_str()) {
        return None;
    }
    let r = format_folder_name(timestamp.as_str(), migration_name);
    proof {
        assert(spec_is_timestamp(timestamp@) && r@ == timestamp@ + "_"@ + migration_name@);
    }
    Some(r)
}

} // verus!

verus! {

/// Byte-wise lexicographic order: the order of folder ids, which sorts by
/// the timestamp prefix.
pub open spec fn lex_le(a: Seq<u8>, b: Seq<u8>) -> bool
    decreases a.len(),
{
    if a.len() == 0 {
        true
    } else if b.len() == 0 {
        false
    } else if a[0] < b[0] {
        true
    } else if a[0] > b[0] {
        false
    } else {
        lex_le(a.drop_first(), b.drop_first())
    }
}

/// The order is total.
pub proof fn lemma_lex_le_total(a: Seq<u8>, b: Seq<u8>)
    ensures
        lex_le(a, b) || lex_le(b, a),
    decreases a.len(),
{
    if a.len() > 0 && b.len() > 0 && a[0] == b[0] {
        lemma_lex_le_total(a.drop_first(), b.drop_first());
    }
}

/// The order is transitive.
pub proof fn lemma_lex_le_trans(a: Seq<u8>, b: Seq<u8>, c: Seq<u8>)
    requires
        lex_le(a, b),
        lex_le(b, c),
    ensures
        lex_le(a, c),
    decreases a.len(),
{
    if a.len() > 0 && b.len() > 0 && c.len() > 0 && a[0] == b[0] && b[0] == c[0] {
        lemma_lex_le_trans(a.drop_first(), b.drop_first(), c.drop_first());
    }
}

/// Decide the byte-wise lexicographic order on two slices.
pub fn bytes_le(a: &[u8], b: &[u8]) -> (r: bool)
    ensures
        r == lex_le(a@, b@),
{
    let na = a.len();
    let nb = b.len();
    let mut i: usize = 0;
    proof {
        assert(a@.skip(0) =~= a@);
        assert(b@.skip(0) =~= b@);
    }
    loop
        invariant
            na == a@.len(),
            nb == b@.len(),
            i <= na,
            i <= nb,
            lex_le(a@, b@) == lex_le(a@.skip(i as int), b@.skip(i as int)),
        decreases na - i,
    {
        if i == na {
            return true;
        }
        if i == nb {
            return false;
        }
        if a[i] < b[i] {
            return true;
        }
        if a[i] > b[i] {
            return false;
        }
        proof {
            assert(a@.skip(i as int).drop_first() =~= a@.skip(i + 1));
            assert(b@.skip(i as int).drop_first() =~= b@.skip(i + 1));
        }
        i = i + 1;
    }
}

/// The sort key of a folder: the UTF-8 bytes of its id.
pub open spec fn folder_key(f: MigrationFolder) -> Seq<u8> {
    vstd::utf8::encode_utf8(f.folder_name@)
}

/// The folders stand in increasing id order.
pub open spec fn sorted_by_id(s: Seq<MigrationFolder>) -> bool {
    forall|i: int, j: int|
        0 <= i < j < s.len() ==> lex_le(folder_key(#[trigger] s[i]), folder_key(#[trigger] s[j]))
}

/// Decide the id order on two folders.
pub fn folder_le(a: &MigrationFolder, b: &MigrationFolder) -> (r: bool)
    ensures
        r == lex_le(folder_key(*a), folder_key(*b)),
{
    bytes_le(a.folder_name.as_str().as_bytes(), b.folder_name.as_str().as_bytes())
}

/// Order the migrations of a folder listing by increasing id: the result
/// holds the same folders, sorted by the timestamp-prefixed folder name.
pub fn sort_migrations(entries: Vec<MigrationFolder>) -> (r: Vec<MigrationFolder>)
    ensures
        sorted_by_id(r@),
        r@.to_multiset() == entries@.to_multiset(),
{
    broadcast use vstd::seq_lib::group_to_multiset_ensures;
    broadcast use vstd::multiset::group_multiset_axioms;

    let mut rest = entries;
    let mut out: Vec<MigrationFolder> = Vec::new();
    proof {
        assert(out@.to_multiset().add(rest@.to_multiset()) =~= rest@.to_multiset());
    }
    while rest.len() > 0
        invariant
            out@.to_multiset().add(rest@.to_multiset()) == entries@.to_multiset(),
            sorted_by_id(out@),
            forall|i: int, j: int|
                0 <= i < out@.len() && 0 <= j < rest@.len() ==> lex_le(
                    folder_key(#[trigger] out@[i]),
                    folder_key(#[trigger] rest@[j]),
                ),
        decreases rest@.len(),
    {
        let n = rest.len();
        let mut m: usize = 0;
        proof {
            lemma_lex_le_total(folder_key(rest@[0]), folder_key(rest@[0]));
        }
        for k in 1..n
            invariant
                n == rest@.len(),
                m < n,
                forall|j: int|
                    0 <= j < k ==> lex_le(
                        folder_key(rest@[m as int]),
                        folder_key(#[trigger] rest@[j]),
                    ),
        {
            if folder_le(&rest[k], &rest[m]) {
                proof {
                    assert forall|j: int| 0 <= j < k implies lex_le(
                        folder_key(rest@[k as int]),
                        folder_key(#[trigger] rest@[j]),
                    ) by {
                        lemma_lex_le_trans(
                            folder_key(rest@[k as int]),
                            folder_key(rest@[m as int]),
                            folder_key(rest@[j]),
                        );
                    }
                    lemma_lex_le_total(folder_key(rest@[k as int]), folder_key(rest@[k as int]));
                }
                m = k;
            } else {
                proof {
                    lemma_lex_le_total(folder_key(rest@[k as int]), folder_key(rest@[m as int]));
                }
            }
        }
        let ghost old_rest = rest@;
        let ghost old_out = out@;
        let x = rest.remove(m);
        out.push(x);
        proof {
            vstd::seq_lib::to_multiset_remove(old_rest, m as int);
            vstd::seq_lib::to_multiset_build(old_out, x);
            assert(old_rest.contains(x)) by {
                assert(old_rest[m as int] == x);
            }
            vstd::seq_lib::to_multiset_contains(old_rest, x);
            assert(old_rest.to_multiset().count(x) > 0);
            assert(out@.to_multiset().add(rest@.to_multiset()) =~= entries@.to_multiset()) by {
                assert(out@.to_multiset() =~= old_out.to_multiset().insert(x));
                assert(rest@.to_multiset() =~= old_rest.to_multiset().remove(x));
                assert(old_out.to_multiset().insert(x).add(old_rest.to_multiset().remove(x))
                    =~= old_out.to_multiset().add(old_rest.to_multiset()));
            }
            assert forall|i: int, j: int|
                0 <= i < out@.len() && 0 <= j < rest@.len() implies lex_le(
                folder_key(#[trigger] out@[i]),
                folder_key(#[trigger] rest@[j]),
            ) by {
                assert(rest@[j] == if j < m { old_rest[j] } else { old_rest[j + 1] });
                if i < old_out.len() {
                    assert(out@[i] == old_out[i]);
                } else {
                    assert(out@[i] == x);
                }
            }
            assert(sorted_by_id(out@)) by {
                assert forall|i: int, j: int| 0 <= i < j < out@.len() implies lex_le(
                    folder_key(#[trigger] out@[i]),
                    folder_key(#[trigger] out@[j]),
                ) by {
                    if j < old_out.len() {
                        assert(out@[i] == old_out[i] && out@[j] == old_out[j]);
                    } else {
                        assert(out@[j] == x);
                        assert(out@[i] == old_out[i]);
                        assert(lex_le(folder_key(old_out[i]), folder_key(old_rest[m as int])));
                    }
                }
            }
        }
    }
    proof {
        assert forall|y: MigrationFolder|
            rest@.to_multiset().count(y)
                == vstd::multiset::Multiset::<MigrationFolder>::empty().count(y) by {
            vstd::seq_lib::to_multiset_contains(rest@, y);
            assert(!rest@.contains(y));
        }
        assert(rest@.to_multiset() =~= vstd::multiset::Multiset::<MigrationFolder>::empty());
        assert(out@.to_multiset().add(vstd::multiset::Multiset::<MigrationFolder>::empty())
            =~= out@.to_multiset());
    }
    out
}

} // verus!
