//! Per-file status classification of one unified scan of index and working tree.

use vstd::prelude::*;
use vstd::string::*;
use crate::backend::{status_entries, status_flags, StatusEntry, StatusFlags};
use crate::error::AppError;
use crate::models::FileStatus;
use crate::text::backend_error;

verus! {

/// Whether the change is recorded in the index relative to HEAD.
pub open spec fn is_staged(f: StatusFlags) -> bool {
    f.index_new || f.index_modified || f.index_deleted
}

/// The classification of a set of flags, by the precedence
/// index-new, index-modified, index-deleted, wt-new, wt-modified, wt-deleted.
pub open spec fn status_label(f: StatusFlags) -> Seq<char> {
    if f.index_new {
        "added"@
    } else if f.index_modified {
        "modified"@
    } else if f.index_deleted {
        "deleted"@
    } else if f.wt_new {
        "untracked"@
    } else if f.wt_modified {
        "modified"@
    } else if f.wt_deleted {
        "deleted"@
    } else {
        "unknown"@
    }
}

/// The path shown for an entry; `unknown` when the backend gave none.
pub open spec fn entry_path(e: StatusEntry) -> Seq<char> {
    match e.path {
        Some(p) => p@,
        None => "unknown"@,
    }
}

/// The status record of one scan entry.
pub open spec fn describes(s: FileStatus, e: StatusEntry) -> bool {
    &&& s.path@ == entry_path(e)
    &&& s.status@ == status_label(e.flags)
    &&& s.staged == is_staged(e.flags)
}

/// The label of a set of flags.
pub fn classify(f: StatusFlags) -> (r: (&'static str, bool))
    ensures
        r.0@ == status_label(f),
        r.1 == is_staged(f),
{
    let label = if f.index_new {
        "added"
    } else if f.index_modified {
        "modified"
    } else if f.index_deleted {
        "deleted"
    } else if f.wt_new {
        "untracked"
    } else if f.wt_modified {
        "modified"
    } else if f.wt_deleted {
        "deleted"
    } else {
        "unknown"
    };
    (label, f.index_new || f.index_modified || f.index_deleted)
}

/// One status record per scan entry, in scan order.
pub fn classify_entries(entries: &Vec<StatusEntry>) -> (r: Vec<FileStatus>)
    ensures
        r@.len() == entries@.len(),
        forall|i: int| 0 <= i < r@.len() ==> describes(#[trigger] r@[i], entries@[i]),
{
    let mut out: Vec<FileStatus> = Vec::new();
    let mut i: usize = 0;
    while i < entries.len()
        invariant
            i <= entries@.len(),
            out@.len() == i,
            forall|j: int| 0 <= j < i ==> describes(#[trigger] out@[j], entries@[j]),
        decreases entries@.len() - i,
    {
        let e = &entries[i];
        let (label, staged) = classify(e.flags);
        let path = match &e.path {
            Some(p) => p.clone(),
            None => String::from_str("unknown"),
        };
        out.push(FileStatus { path, status: String::from_str(label), staged });
        i = i + 1;
    }
    out
}

/// The scan entries with their flags read.
fn entry_list(raw: &Vec<(Option<String>, git2::Status)>) -> (r: Vec<StatusEntry>)
    ensures
        r@.len() == raw@.len(),
        forall|i: int| 0 <= i < r@.len() ==> (#[trigger] r@[i]).path == raw@[i].0,
{
    let mut out: Vec<StatusEntry> = Vec::new();
    let mut i: usize = 0;
    while i < raw.len()
        invariant
            i <= raw@.len(),
            out@.len() == i,
            forall|j: int| 0 <= j < i ==> (#[trigger] out@[j]).path == raw@[j].0,
        decreases raw@.len() - i,
    {
        let (path, status) = &raw[i];
        let path = match path {
            Some(p) => Some(p.clone()),
            None => None,
        };
        out.push(StatusEntry { path, flags: status_flags(status) });
        i = i + 1;
    }
    out
}

/// The status of every changed path, untracked files included and untracked
/// directories walked.
pub fn get_status(repo: &git2::Repository) -> (r: Result<Vec<FileStatus>, AppError>)
    ensures
        r matches Ok(v) ==> forall|i: int|
            0 <= i < v@.len() ==> (#[trigger] v@[i]).staged ==> v@[i].status@ != "untracked"@,
{
    match status_entries(repo, true, true) {
        Ok(raw) => {
            let entries = entry_list(&raw);
            let v = classify_entries(&entries);
            proof {
                reveal_strlit("untracked");
                reveal_strlit("added");
                reveal_strlit("modified");
                reveal_strlit("deleted");
                assert forall|i: int| 0 <= i < v@.len() && (#[trigger] v@[i]).staged implies v@[
                    i
                ].status@ != "untracked"@ by {
                    assert(describes(v@[i], entries@[i]));
                    assert("untracked"@[0] != "added"@[0]);
                    assert("untracked"@[0] != "modified"@[0]);
                    assert("untracked"@[0] != "deleted"@[0]);
                }
            }
            Ok(v)
        },
        Err(e) => Err(backend_error("Failed to get status", &e)),
    }
}

} // verus!
