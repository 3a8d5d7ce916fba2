//! Immediate write transactions: when a busy database is tried again.
use vstd::prelude::*;

use crate::text;

verus! {

/// How often a busy database is tried again.
pub const BUSY_RETRIES: u64 = 8;

/// Whether a database error says that the database is busy: by its code, or by its message.
pub open spec fn says_busy(code: Option<Seq<char>>, message: Seq<char>) -> bool {
    code == Some("5"@) || code == Some("6"@) || text::has_part(message, "database is locked"@)
        || text::has_part(message, "database table is locked"@)
}

/// Tests whether a database error says that the database is busy.
pub fn is_busy(code: Option<&str>, message: &str) -> (r: bool)
    ensures
        r == says_busy(
            match code {
                Some(c) => Some(c@),
                None => None,
            },
            message@,
        ),
{
    let by_code = match code {
        Some(c) => text::same_text(c, "5") || text::same_text(c, "6"),
        None => false,
    };
    by_code || text::contains_text(message, "database is locked") || text::contains_text(
        message,
        "database table is locked",
    )
}

/// How long to wait, in milliseconds, before the transaction is begun again after attempt number
/// `attempt`, counted from zero. Only a busy database is tried again, longer each time and not more
/// often than allowed.
pub fn begin_immediate(attempt: u64, busy: bool) -> (r: Option<u64>)
    ensures
        r == if busy && attempt < BUSY_RETRIES {
            Some((5 * (attempt + 1)) as u64)
        } else {
            None
        },
{
    if busy && attempt < BUSY_RETRIES {
        Some(5 * (attempt + 1))
    } else {
        None
    }
}

/// What to do at the end of a transaction.
#[derive(Debug, Clone, Copy, PartialEq, Eq, Structural)]
pub enum TransactionEnd {
    /// Commit it.
    Commit,
    /// Roll it back and report the error of its operation.
    RollBack,
    /// Give its connection back to the pool.
    Release,
    /// Close its connection, so that no half-done transaction returns to the pool.
    Close,
}

/// What to do after the operation of a transaction: commit its success, roll back its failure.
pub fn with_immediate_transaction(operation_succeeded: bool) -> (r: TransactionEnd)
    ensures
        r == if operation_succeeded {
            TransactionEnd::Commit
        } else {
            TransactionEnd::RollBack
        },
{
    if operation_succeeded {
        TransactionEnd::Commit
    } else {
        TransactionEnd::RollBack
    }
}

/// What to do after a commit, or after a rollback where there was one: a connection whose
/// transaction has ended goes back to the pool, a failed commit is rolled back, and a connection
/// that cannot be rolled back is closed.
pub fn after_commit(committed: bool, rolled_back: Option<bool>) -> (r: TransactionEnd)
    ensures
        r == if committed || rolled_back == Some(true) {
            TransactionEnd::Release
        } else if rolled_back is None {
            TransactionEnd::RollBack
        } else {
            TransactionEnd::Close
        },
{
    if committed {
        return TransactionEnd::Release;
    }
    match rolled_back {
        None => TransactionEnd::RollBack,
        Some(done) => if done {
            TransactionEnd::Release
        } else {
            TransactionEnd::Close
        },
    }
}

/// A text with every quote doubled.
pub open spec fn quoted(s: Seq<char>) -> Seq<char>
    decreases s.len(),
{
    if s.len() == 0 {
        Seq::empty()
    } else if s.last() == '\'' {
        quoted(s.drop_last()).push('\'').push('\'')
    } else {
        quoted(s.drop_last()).push(s.last())
    }
}

/// The statement that copies the database to a file.
pub fn vacuum_into(target: &str) -> (r: String)
    ensures
        r@ == "VACUUM INTO '"@ + quoted(target@) + "'"@,
{
    let v = text::chars_of(target);
    let mut inner = String::new();
    let mut i: usize = 0;
    while i < v.len()
        invariant
            i <= v@.len(),
            v@ == target@,
            inner@ == quoted(v@.subrange(0, i as int)),
        decreases v@.len() - i,
    {
        assert(v@.subrange(0, i + 1).drop_last() == v@.subrange(0, i as int));
        let c = v[i];
        inner.push(c);
        if c == '\'' {
            inner.push(c);
        }
        i = i + 1;
    }
    assert(v@.subrange(0, i as int) == v@);
    text::join3("VACUUM INTO '", inner.as_str(), "'")
}

} // verus!
