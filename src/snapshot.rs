//! Safety snapshots: before a destructive operation, a new reference under
//! `refs/safety/<label>/<unix-timestamp>` records the commit HEAD points at.
//! Snapshot references are only ever added, never overwritten.

use vstd::prelude::*;
use vstd::string::*;
use crate::backend::{find_commit, head_ref, is_unborn_error, unix_now, write_reference};
use crate::error::AppError;
use crate::text::{concat2, concat3, decimal, decimal_text};

verus! {

/// How many names a snapshot tries before it gives up: the timestamp alone,
/// then the timestamp with a `-1`, `-2`, ... suffix.
pub const SNAPSHOT_ATTEMPTS: u64 = 16;

/// The name of the snapshot reference for `label` taken at `timestamp`,
/// with the disambiguating `attempt` suffix when `attempt` is not zero.
pub open spec fn safety_ref_name(label: Seq<char>, timestamp: nat, attempt: nat) -> Seq<char> {
    "refs/safety/"@ + label + "/"@ + decimal(timestamp) + if attempt == 0 {
        seq![]
    } else {
        "-"@ + decimal(attempt)
    }
}

/// The text of `safety_ref_name`.
pub fn safety_ref_text(label: &str, timestamp: u64, attempt: u64) -> (r: String)
    ensures
        r@ == safety_ref_name(label@, timestamp as nat, attempt as nat),
{
    let base = concat3("refs/safety/", label, "/");
    let stamp = decimal_text(timestamp);
    let named = base.concat(stamp.as_str());
    if attempt == 0 {
        proof {
            assert(named@ =~= named@ + seq![]);
        }
        named
    } else {
        let suffix = concat2("-", decimal_text(attempt).as_str());
        let r = named.concat(suffix.as_str());
        proof {
            assert(r@ =~= safety_ref_name(label@, timestamp as nat, attempt as nat));
        }
        r
    }
}

/// What a snapshot did.
#[derive(PartialEq, Eq, Structural, Clone, Copy, Debug)]
pub enum SnapshotOutcome {
    /// A reference to the current HEAD commit was written.
    Written,
    /// There is no commit yet, so there is nothing to protect.
    NothingToProtect,
    /// HEAD could not be read down to a commit; the operation goes on and
    /// the caller warns the user.
    HeadUnreadable,
}

/// What reading HEAD for a snapshot found.
#[derive(PartialEq, Eq, Structural, Clone, Copy, Debug)]
pub enum HeadRead {
    /// HEAD names a branch that has no commit yet.
    Unborn,
    /// HEAD could not be read down to a commit for another reason.
    Unreadable,
    /// HEAD points at a commit.
    Commit,
}

/// The outcome of a snapshot, given what reading HEAD found and, when HEAD
/// points at a commit, which attempt wrote the reference (none: every
/// candidate name failed). Nothing is written for an unborn HEAD, and an
/// unreadable one only warns.
pub open spec fn snapshot_result(head: HeadRead, written: Option<u64>) -> Result<SnapshotOutcome, ()> {
    match head {
        HeadRead::Unborn => Ok(SnapshotOutcome::NothingToProtect),
        HeadRead::Unreadable => Ok(SnapshotOutcome::HeadUnreadable),
        HeadRead::Commit => match written {
            Some(_) => Ok(SnapshotOutcome::Written),
            None => Err(()),
        },
    }
}

/// The outcome of a snapshot (see `snapshot_result`); the failure is a `Git` error.
pub fn decide_snapshot(head: HeadRead, written: Option<u64>) -> (r: Result<SnapshotOutcome, AppError>)
    ensures
        snapshot_result(head, written) matches Ok(o) ==> r == Ok::<SnapshotOutcome, AppError>(o),
        snapshot_result(head, written) is Err ==> (r matches Err(e) && e is Git),
{
    match head {
        HeadRead::Unborn => Ok(SnapshotOutcome::NothingToProtect),
        HeadRead::Unreadable => Ok(SnapshotOutcome::HeadUnreadable),
        HeadRead::Commit => match written {
            Some(_) => Ok(SnapshotOutcome::Written),
            None => Err(
                AppError::Git(String::from_str("Failed to create safety ref: every name was taken")),
            ),
        },
    }
}

/// What HEAD is for a snapshot: a commit (with its id), an unborn branch,
/// or unreadable.
fn read_head_for_snapshot(repo: &git2::Repository) -> (r: (HeadRead, Option<git2::Oid>))
    ensures
        r.0 == HeadRead::Commit <==> r.1 is Some,
{
    let head = match head_ref(repo) {
        Ok(h) => h,
        Err(e) => {
            let kind = if is_unborn_error(&e) {
                HeadRead::Unborn
            } else {
                HeadRead::Unreadable
            };
            return (kind, None);
        },
    };
    match head.target {
        Some(t) => if find_commit(repo, t).is_ok() {
            (HeadRead::Commit, Some(t))
        } else {
            (HeadRead::Unreadable, None)
        },
        None => (HeadRead::Unreadable, None),
    }
}

/// Writes a new reference to `target` under the first free name of
/// `safety_ref_name(label, timestamp, k)` for `k` below `SNAPSHOT_ATTEMPTS`,
/// never overwriting one; returns the `k` whose write succeeded.
fn write_snapshot_ref(repo: &git2::Repository, label: &str, timestamp: u64, target: git2::Oid) -> (r:
    Option<u64>)
    ensures
        r matches Some(k) ==> k < SNAPSHOT_ATTEMPTS,
{
    let log = concat2("safety snapshot before ", label);
    let mut attempt: u64 = 0;
    while attempt < SNAPSHOT_ATTEMPTS
        invariant
            attempt <= SNAPSHOT_ATTEMPTS,
        decreases SNAPSHOT_ATTEMPTS - attempt,
    {
        let name = safety_ref_text(label, timestamp, attempt);
        if let Ok(()) = write_reference(repo, name.as_str(), target, false, log.as_str()) {
            return Some(attempt);
        }
        attempt = attempt + 1;
    }
    None
}

/// Records the commit HEAD points at under a new safety reference named for
/// `label` and the current time (see `write_snapshot_ref`), deciding the
/// outcome through `decide_snapshot`: with no commit yet it does nothing; when
/// HEAD cannot be read down to a commit it writes nothing and says so; only a
/// reference that cannot be written is an error.
pub fn take_snapshot(repo: &git2::Repository, label: &str) -> (r: Result<
    SnapshotOutcome,
    AppError,
>)
    ensures
        r matches Err(e) ==> e is Git,
{
    let (head, target) = read_head_for_snapshot(repo);
    let written = match target {
        Some(t) => {
            let timestamp = match unix_now() {
                Some(ts) => ts,
                None => 0,
            };
            write_snapshot_ref(repo, label, timestamp, t)
        },
        None => None,
    };
    decide_snapshot(head, written)
}

/// Records a safety snapshot of HEAD for `action_name` (see `take_snapshot`).
pub fn create_safety_ref(repo: &git2::Repository, action_name: &str) -> (r: Result<(), AppError>) {
    match take_snapshot(repo, action_name) {
        Ok(_) => Ok(()),
        Err(e) => Err(e),
    }
}

} // verus!
