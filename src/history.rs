//! Commit history from HEAD, with each commit marked pushed when the upstream
//! tip is that commit or descends from it.

use vstd::prelude::*;
use vstd::string::*;
use crate::backend::{
    commit_facts, descendant_of, find_commit, head_ref, new_revwalk, oid_text, revwalk_next,
    revwalk_push_head, revwalk_sort, is_object_id, CommitFacts,
};
use crate::error::AppError;
use crate::info::upstream_tip;
use crate::models::CommitInfo;
use crate::text::backend_error;

verus! {

/// A commit is pushed when there is an upstream tip and it equals the commit or
/// strictly descends from it.
pub open spec fn pushed(upstream: Option<Seq<char>>, sha: Seq<char>, upstream_descends: bool) -> bool {
    match upstream {
        Some(u) => u == sha || upstream_descends,
        None => false,
    }
}

/// Whether a commit counts as pushed, given the upstream tip (if any) and
/// whether that tip strictly descends from the commit.
pub fn commit_is_pushed(upstream: &Option<String>, sha: &String, upstream_descends: bool) -> (r:
    bool)
    ensures
        r == pushed(
            match upstream {
                Some(u) => Some(u@),
                None => None,
            },
            sha@,
            upstream_descends,
        ),
{
    match upstream {
        Some(u) => *u == *sha || upstream_descends,
        None => false,
    }
}

/// Pushed-marking against a commit graph. Given a strict-descent relation
/// that is asymmetric (as in any acyclic history), with `upstream_descends`
/// read from it: the upstream tip itself is pushed, a commit strictly behind
/// the tip is pushed, and a commit strictly ahead of the tip is not.
pub proof fn lemma_pushed_against_graph(
    strictly_descends: spec_fn(Seq<char>, Seq<char>) -> bool,
    tip: Seq<char>,
    sha: Seq<char>,
)
    requires
        forall|a: Seq<char>, b: Seq<char>|
            #[trigger] strictly_descends(a, b) ==> !strictly_descends(b, a) && a != b,
    ensures
        sha == tip ==> pushed(Some(tip), sha, strictly_descends(tip, sha)),
        strictly_descends(tip, sha) ==> pushed(Some(tip), sha, strictly_descends(tip, sha)),
        strictly_descends(sha, tip) ==> !pushed(Some(tip), sha, strictly_descends(tip, sha)),
        !pushed(None, sha, strictly_descends(tip, sha)),
{
}

/// Whether `r` is the history record of a commit with these facts and
/// pushed mark; a missing message or email reads as empty, a missing author
/// name as `Unknown`.
pub open spec fn record_of(r: CommitInfo, facts: CommitFacts, is_pushed: bool) -> bool {
    &&& r.sha == facts.sha
    &&& r.message@ == (match facts.message {
        Some(m) => m@,
        None => Seq::<char>::empty(),
    })
    &&& r.author@ == (match facts.author {
        Some(a) => a@,
        None => "Unknown"@,
    })
    &&& r.email@ == (match facts.email {
        Some(e) => e@,
        None => Seq::<char>::empty(),
    })
    &&& r.timestamp == facts.time
    &&& r.is_pushed == is_pushed
    &&& r.parents == facts.parents
}

/// One commit of the walk: its facts (with its id as the sha) and whether the
/// upstream tip strictly descends from it.
pub struct WalkedCommit {
    pub facts: CommitFacts,
    pub upstream_descends: bool,
}

/// The view of an optional string.
pub open spec fn opt_view(o: Option<String>) -> Option<Seq<char>> {
    match o {
        Some(s) => Some(s@),
        None => None,
    }
}

/// Whether `v` is the history of the walked commits: one record per commit,
/// in walk order, each marked pushed against `upstream`.
pub open spec fn history_of(v: Seq<CommitInfo>, walked: Seq<WalkedCommit>, upstream: Option<Seq<char>>) -> bool {
    &&& v.len() == walked.len()
    &&& forall|i: int|
        0 <= i < v.len() ==> record_of(
            #[trigger] v[i],
            walked[i].facts,
            pushed(upstream, walked[i].facts.sha@, walked[i].upstream_descends),
        )
}

/// The history records of the walked commits (see `history_of`).
pub fn history_records(walked: Vec<WalkedCommit>, upstream: &Option<String>) -> (r: Vec<CommitInfo>)
    ensures
        history_of(r@, walked@, opt_view(*upstream)),
{
    let ghost all = walked@;
    let mut rest = walked;
    let mut out: Vec<CommitInfo> = Vec::new();
    while rest.len() > 0
        invariant
            out@.len() + rest@.len() == all.len(),
            rest@ == all.subrange(out@.len() as int, all.len() as int),
            forall|i: int|
                0 <= i < out@.len() ==> record_of(
                    #[trigger] out@[i],
                    all[i].facts,
                    pushed(opt_view(*upstream), all[i].facts.sha@, all[i].upstream_descends),
                ),
        decreases rest@.len(),
    {
        let w = rest.remove(0);
        assert(w == all[out@.len() as int]);
        let is_pushed = commit_is_pushed(upstream, &w.facts.sha, w.upstream_descends);
        out.push(commit_info_from(w.facts, is_pushed));
        assert(rest@ =~= all.subrange(out@.len() as int, all.len() as int));
    }
    out
}

/// Whether `v` is the history of some walk of at most `limit` commits whose
/// shas are object ids, against some upstream tip.
pub open spec fn walked_history(v: Seq<CommitInfo>, limit: usize) -> bool {
    exists|walked: Seq<WalkedCommit>, upstream: Option<Seq<char>>|
        #[trigger] history_of(v, walked, upstream) && walked.len() <= limit && forall|i: int|
            0 <= i < walked.len() ==> is_object_id((#[trigger] walked[i]).facts.sha@)
}

/// The history record of a commit (see `record_of`).
pub fn commit_info_from(facts: CommitFacts, is_pushed: bool) -> (r: CommitInfo)
    ensures
        record_of(r, facts, is_pushed),
        r.sha == facts.sha,
        r.message@ == (match facts.message {
            Some(m) => m@,
            None => ""@,
        }),
        r.author@ == (match facts.author {
            Some(a) => a@,
            None => "Unknown"@,
        }),
        r.email@ == (match facts.email {
            Some(e) => e@,
            None => ""@,
        }),
        r.timestamp == facts.time,
        r.is_pushed == is_pushed,
        r.parents == facts.parents,
{
    proof {
        reveal_strlit("");
    }
    let r = CommitInfo {
        sha: facts.sha,
        message: match facts.message {
            Some(m) => m,
            None => String::new(),
        },
        author: match facts.author {
            Some(a) => a,
            None => String::from_str("Unknown"),
        },
        email: match facts.email {
            Some(e) => e,
            None => String::new(),
        },
        timestamp: facts.time,
        is_pushed,
        parents: facts.parents,
    };
    assert(record_of(r, facts, is_pushed));
    r
}

/// Up to `limit` commits reachable from HEAD, newest first in topological order,
/// each marked pushed or not against the upstream of the current branch. The
/// upstream is resolved once per call.
pub fn get_commit_history(repo: &git2::Repository, limit: usize) -> (r: Result<
    Vec<CommitInfo>,
    AppError,
>)
    ensures
        r matches Ok(v) ==> v@.len() <= limit,
        r matches Ok(v) ==> forall|i: int| 0 <= i < v@.len() ==> is_object_id((#[trigger] v@[i]).sha@),
        r matches Ok(v) ==> walked_history(v@, limit),
{
    let upstream = match head_ref(repo) {
        Ok(h) => if h.is_branch {
            match &h.name {
                Some(name) => upstream_tip(repo, name.as_str()),
                None => None,
            }
        } else {
            None
        },
        Err(_) => None,
    };
    let upstream_sha = match &upstream {
        Some(u) => Some(oid_text(u)),
        None => None,
    };
    let mut walk = match new_revwalk(repo) {
        Ok(w) => w,
        Err(e) => return Err(backend_error("Failed to create revwalk", &e)),
    };
    if let Err(e) = revwalk_sort(&mut walk, true, true) {
        return Err(backend_error("Failed to order the walk", &e));
    }
    if let Err(e) = revwalk_push_head(&mut walk) {
        return Err(backend_error("Failed to push HEAD", &e));
    }
    let mut walked: Vec<WalkedCommit> = Vec::new();
    let mut done = false;
    while !done && walked.len() < limit
        invariant
            walked@.len() <= limit,
            forall|i: int| 0 <= i < walked@.len() ==> is_object_id((#[trigger] walked@[i]).facts.sha@),
        decreases limit - walked@.len() + if done { 0int } else { 1int },
    {
        match revwalk_next(&mut walk) {
            None => {
                done = true;
            },
            Some(Err(e)) => return Err(backend_error("Failed to get OID", &e)),
            Some(Ok(oid)) => {
                let commit = match find_commit(repo, oid) {
                    Ok(c) => c,
                    Err(e) => return Err(backend_error("Failed to find commit", &e)),
                };
                let mut facts = commit_facts(&commit);
                let upstream_descends = match upstream {
                    Some(u) => match descendant_of(repo, u, oid) {
                        Ok(b) => b,
                        Err(_) => false,
                    },
                    None => false,
                };
                facts.sha = oid_text(&oid);
                walked.push(WalkedCommit { facts, upstream_descends });
            },
        }
    }
    let ghost w = walked@;
    let commits = history_records(walked, &upstream_sha);
    proof {
        assert(history_of(commits@, w, opt_view(upstream_sha)));
        assert forall|i: int| 0 <= i < commits@.len() implies is_object_id((#[trigger] commits@[i]).sha@) by {
            assert(record_of(commits@[i], w[i].facts, pushed(opt_view(upstream_sha), w[i].facts.sha@, w[i].upstream_descends)));
        }
        assert(walked_history(commits@, limit));
    }
    Ok(commits)
}

} // verus!
