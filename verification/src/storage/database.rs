//! Opening the database: when it is created, and when it is copied before its schema changes.
use vstd::prelude::*;

use crate::paths;
use crate::text;

verus! {

/// What opening a database takes.
#[derive(Debug, Clone, Copy, PartialEq, Eq, Structural)]
pub struct PoolPlan {
    pub is_memory: bool,
    /// Whether the parent directory has to be made.
    pub create_parent: bool,
    /// Whether the database has to be created.
    pub create_database: bool,
}

/// What opening a database takes: one on the disk that does not exist is created, with its parent
/// directory where that does not exist either.
pub fn create_db_pool_with_url(db_url: &str, exists: bool, parent_exists: bool) -> (r: PoolPlan)
    ensures
        r.is_memory == (db_url@ == ":memory:"@),
        r.create_database == (!r.is_memory && !exists),
        r.create_parent == (r.create_database && paths::parent_of(db_url@) is Some
            && !parent_exists),
{
    let is_memory = text::same_text(db_url, ":memory:");
    let create_database = !is_memory && !exists;
    let create_parent = create_database && paths::parent(db_url).is_some() && !parent_exists;
    PoolPlan { is_memory, create_parent, create_database }
}

/// Whether a migration has not been applied.
pub open spec fn pending(migrations: Seq<i64>, applied: Seq<i64>) -> bool {
    exists|i: int| 0 <= i < migrations.len() && !applied.contains(#[trigger] migrations[i])
}

/// Tests whether migrations are pending. Without a record of migrations all of them are.
pub fn has_pending_migrations(migrations: &Vec<i64>, record: Option<&Vec<i64>>) -> (r: bool)
    ensures
        r == match record {
            None => migrations@.len() > 0,
            Some(applied) => pending(migrations@, applied@),
        },
{
    let applied = match record {
        None => return migrations.len() > 0,
        Some(applied) => applied,
    };
    let mut i: usize = 0;
    while i < migrations.len()
        invariant
            i <= migrations@.len(),
            record == Some(applied),
            forall|j: int| 0 <= j < i ==> applied@.contains(#[trigger] migrations@[j]),
        decreases migrations@.len() - i,
    {
        let mut found = false;
        let mut k: usize = 0;
        while k < applied.len() && !found
            invariant
                k <= applied@.len(),
                i < migrations@.len(),
                found ==> applied@.contains(migrations@[i as int]),
                !found ==> forall|j: int|
                    0 <= j < k ==> #[trigger] applied@[j] != migrations@[i as int],
            decreases applied@.len() - k,
        {
            if applied[k] == migrations[i] {
                found = true;
            }
            k = k + 1;
        }
        if !found {
            assert(!applied@.contains(migrations@[i as int]));
            return true;
        }
        i = i + 1;
    }
    false
}

/// Whether the database is copied before migrations run: only one on the disk that existed before
/// and whose schema will change.
pub fn needs_backup(plan: PoolPlan, migrations_pending: bool) -> (r: bool)
    ensures
        r == (!plan.is_memory && !plan.create_database && migrations_pending),
{
    !plan.is_memory && !plan.create_database && migrations_pending
}

/// The part of a file name before its extension.
pub open spec fn stem_of(path: Seq<char>) -> Option<Seq<char>> {
    match paths::file_name_of(path) {
        Some(name) => match paths::last_dot(name) {
            Some(at) => if at > 0 {
                Some(name.subrange(0, at))
            } else {
                Some(name)
            },
            None => Some(name),
        },
        None => None,
    }
}

proof fn lemma_last_dot(name: Seq<char>, at: int)
    requires
        0 <= at < name.len(),
        name[at] == '.',
        forall|j: int| at < j < name.len() ==> #[trigger] name[j] != '.',
    ensures
        paths::last_dot(name) == Some(at),
    decreases name.len(),
{
    if at < name.len() - 1 {
        assert(name.last() == name[name.len() - 1]);
        lemma_last_dot(name.drop_last(), at);
    }
}

proof fn lemma_no_dot(name: Seq<char>)
    requires
        forall|j: int| 0 <= j < name.len() ==> #[trigger] name[j] != '.',
    ensures
        paths::last_dot(name) is None,
    decreases name.len(),
{
    if name.len() > 0 {
        assert(name.last() == name[name.len() - 1]);
        lemma_no_dot(name.drop_last());
    }
}

fn stem(path: &str) -> (r: Option<String>)
    ensures
        text::opt_view(r) == stem_of(path@),
{
    let name = match paths::file_name(path) {
        Some(name) => name,
        None => return None,
    };
    let v = text::chars_of(name.as_str());
    let mut i: usize = v.len();
    while i > 0
        invariant
            i <= v@.len(),
            v@ == name@,
            paths::file_name_of(path@) == Some(name@),
            forall|j: int| i <= j < v@.len() ==> #[trigger] v@[j] != '.',
        decreases i,
    {
        i = i - 1;
        if v[i] == '.' {
            proof {
                lemma_last_dot(name@, i as int);
            }
            if i == 0 {
                return Some(name);
            }
            return Some(text::slice_text(&v, 0, i));
        }
    }
    proof {
        lemma_no_dot(name@);
    }
    Some(name)
}

/// The file name of a copy: the name of the database, the time, and a number where the name is
/// taken.
pub open spec fn backup_name(db_path: Seq<char>, timestamp: Seq<char>, n: u64) -> Seq<char> {
    let stem = match stem_of(db_path) {
        Some(stem) => stem,
        None => "weiback"@,
    };
    if n == 0 {
        stem + "-migrate-backup-"@ + timestamp + ".db"@
    } else {
        stem + "-migrate-backup-"@ + timestamp + "-"@ + text::decimal(n as nat) + ".db"@
    }
}

/// The directory that a file beside a path lies in: that of the path, or the path itself where it
/// does not end in a name.
pub open spec fn beside(path: Seq<char>) -> Seq<char> {
    match paths::file_name_of(path) {
        Some(_) => match paths::parent_of(path) {
            Some(parent) => parent,
            None => Seq::empty(),
        },
        None => path,
    }
}

/// Where the copy goes that is made before migrations, after so many names were taken: beside the
/// database.
pub fn backup_before_migration(db_path: &str, timestamp: &str, taken: u64) -> (r: String)
    ensures
        r@ == paths::joined(beside(db_path@), backup_name(db_path@, timestamp@, taken)),
{
    let mut name = match stem(db_path) {
        Some(stem) => stem,
        None => "weiback".to_owned(),
    };
    name.append("-migrate-backup-");
    name.append(timestamp);
    if taken > 0 {
        name.append("-");
        name.append(text::u64_text(taken).as_str());
    }
    name.append(".db");
    if paths::file_name(db_path).is_none() {
        return paths::join(db_path, name.as_str());
    }
    match paths::parent(db_path) {
        Some(parent) => paths::join(parent.as_str(), name.as_str()),
        None => {
            let none = String::new();
            assert(none@ =~= Seq::<char>::empty());
            paths::join(none.as_str(), name.as_str())
        },
    }
}

} // verus!
