//! Per-file patches: a printed diff, line by line, gathered into one record per
//! file in the order the files first appear.

use vstd::prelude::*;
use vstd::string::*;
use crate::backend::{
    commit_parent, commit_tree, diff_index_to_workdir, diff_tree_to_workdir, diff_trees,
    find_commit, head_ref, no_nul, parent_count, parse_oid, patch_lines, PatchLine,
};
use crate::error::AppError;
use crate::models::DiffInfo;
use crate::ops::has_nul;
use crate::text::{backend_error, precondition};

verus! {

/// A file's tally: path, additions, deletions and patch text.
pub type Tally = (Seq<char>, int, int, Seq<char>);

/// The file a printed line belongs to; `unknown` when the backend gave no path.
pub open spec fn line_path(l: PatchLine) -> Seq<char> {
    match l.path {
        Some(p) => p@,
        None => "unknown"@,
    }
}

/// The marker kept in front of a line: its origin when that is `+`, `-` or a space.
pub open spec fn origin_prefix(c: char) -> Seq<char> {
    if c == '+' || c == '-' || c == ' ' {
        seq![c]
    } else {
        seq![]
    }
}

/// The text a line adds to its file's patch.
pub open spec fn line_text(l: PatchLine) -> Seq<char> {
    origin_prefix(l.origin) + l.content@
}

/// Index of the first tally of `path`, or -1.
pub open spec fn tally_index(acc: Seq<Tally>, path: Seq<char>) -> int
    decreases acc.len(),
{
    if acc.len() == 0 {
        -1
    } else {
        let k = tally_index(acc.drop_last(), path);
        if k >= 0 {
            k
        } else if acc.last().0 == path {
            acc.len() - 1
        } else {
            -1
        }
    }
}

/// The tallies of a printed diff: one per file, in order of first appearance,
/// counting `+` lines as additions and `-` lines as deletions.
pub open spec fn tally(lines: Seq<PatchLine>) -> Seq<Tally>
    decreases lines.len(),
{
    if lines.len() == 0 {
        seq![]
    } else {
        let acc = tally(lines.drop_last());
        let l = lines.last();
        let add: int = if l.origin == '+' { 1 } else { 0 };
        let del: int = if l.origin == '-' { 1 } else { 0 };
        let k = tally_index(acc, line_path(l));
        if k >= 0 {
            acc.update(k, (acc[k].0, acc[k].1 + add, acc[k].2 + del, acc[k].3 + line_text(l)))
        } else {
            acc.push((line_path(l), add, del, line_text(l)))
        }
    }
}

/// The tally a record stands for.
pub open spec fn tally_of(d: DiffInfo) -> Tally {
    (d.path@, d.additions as int, d.deletions as int, d.diff_text@)
}

pub open spec fn tallies_of(v: Seq<DiffInfo>) -> Seq<Tally> {
    v.map_values(|d: DiffInfo| tally_of(d))
}

proof fn lemma_tally_index(acc: Seq<Tally>, path: Seq<char>)
    ensures
        -1 <= tally_index(acc, path) < acc.len(),
        tally_index(acc, path) >= 0 ==> acc[tally_index(acc, path)].0 == path,
        tally_index(acc, path) >= 0 ==> forall|j: int|
            0 <= j < tally_index(acc, path) ==> acc[j].0 != path,
        tally_index(acc, path) < 0 ==> forall|j: int| 0 <= j < acc.len() ==> acc[j].0 != path,
    decreases acc.len(),
{
    if acc.len() > 0 {
        let init = acc.drop_last();
        lemma_tally_index(init, path);
        assert(forall|j: int| 0 <= j < init.len() ==> init[j] == acc[j]);
    }
}

/// Whether no two records share a path.
pub open spec fn distinct_paths(v: Seq<DiffInfo>) -> bool {
    forall|i: int, j: int|
        0 <= i < v.len() && 0 <= j < v.len() && i != j ==> (#[trigger] v[i]).path@ != (#[trigger] v[j]).path@
}

/// No two tallies of a printed diff share a path: each file has one record.
pub proof fn lemma_tally_one_per_file(lines: Seq<PatchLine>)
    ensures
        forall|i: int, j: int|
            0 <= i < tally(lines).len() && 0 <= j < tally(lines).len() && i != j ==> (#[trigger] tally(
                lines,
            )[i]).0 != (#[trigger] tally(lines)[j]).0,
    decreases lines.len(),
{
    if lines.len() > 0 {
        let acc = tally(lines.drop_last());
        lemma_tally_one_per_file(lines.drop_last());
        lemma_tally_index(acc, line_path(lines.last()));
        let t = tally(lines);
        assert forall|i: int, j: int|
            0 <= i < t.len() && 0 <= j < t.len() && i != j implies (#[trigger] t[i]).0 != (#[trigger] t[j]).0 by {
            if i < acc.len() && j < acc.len() {
                assert(t[i].0 == acc[i].0);
                assert(t[j].0 == acc[j].0);
            } else if i < acc.len() {
                assert(t[i].0 == acc[i].0);
            } else if j < acc.len() {
                assert(t[j].0 == acc[j].0);
            }
        }
    }
}

/// Records whose tallies have distinct paths have distinct paths.
proof fn lemma_distinct_records(v: Seq<DiffInfo>, lines: Seq<PatchLine>)
    requires
        tallies_of(v) == tally(lines),
    ensures
        distinct_paths(v),
{
    lemma_tally_one_per_file(lines);
    assert forall|i: int, j: int|
        0 <= i < v.len() && 0 <= j < v.len() && i != j implies (#[trigger] v[i]).path@ != (#[trigger] v[j]).path@ by {
        assert(tallies_of(v)[i] == tally_of(v[i]));
        assert(tallies_of(v)[j] == tally_of(v[j]));
    }
}

proof fn lemma_tally_bounds(lines: Seq<PatchLine>)
    ensures
        tally(lines).len() <= lines.len(),
        forall|j: int|
            0 <= j < tally(lines).len() ==> 0 <= (#[trigger] tally(lines)[j]).1 && 0 <= tally(
                lines,
            )[j].2 && tally(lines)[j].1 + tally(lines)[j].2 <= lines.len(),
    decreases lines.len(),
{
    if lines.len() > 0 {
        let acc = tally(lines.drop_last());
        lemma_tally_bounds(lines.drop_last());
        lemma_tally_index(acc, line_path(lines.last()));
    }
}

fn prefix_of(c: char) -> (r: &'static str)
    ensures
        r@ == origin_prefix(c),
{
    proof {
        reveal_strlit("+");
        reveal_strlit("-");
        reveal_strlit(" ");
        reveal_strlit("");
    }
    if c == '+' {
        "+"
    } else if c == '-' {
        "-"
    } else if c == ' ' {
        " "
    } else {
        ""
    }
}

/// Gathers printed patch lines into one record per file.
pub fn summarize_patch(lines: &Vec<PatchLine>) -> (r: Vec<DiffInfo>)
    ensures
        tallies_of(r@) == tally(lines@),
{
    let mut out: Vec<DiffInfo> = Vec::new();
    let mut i: usize = 0;
    while i < lines.len()
        invariant
            i <= lines@.len(),
            tallies_of(out@) == tally(lines@.subrange(0, i as int)),
        decreases lines@.len() - i,
    {
        let ghost prev = lines@.subrange(0, i as int);
        let ghost cur = lines@.subrange(0, i + 1);
        proof {
            assert(cur.drop_last() =~= prev);
            lemma_tally_bounds(prev);
            lemma_tally_index(tally(prev), line_path(lines@[i as int]));
        }
        let l = &lines[i];
        let path = match &l.path {
            Some(p) => p.clone(),
            None => String::from_str("unknown"),
        };
        assert(line_path(lines@[i as int]) == path@);
        let add: usize = if l.origin == '+' { 1 } else { 0 };
        let del: usize = if l.origin == '-' { 1 } else { 0 };
        let text = String::from_str(prefix_of(l.origin)).concat(l.content.as_str());
        let mut k: usize = 0;
        let mut found = false;
        while k < out.len() && !found
            invariant
                k <= out@.len(),
                tallies_of(out@) == tally(prev),
                found ==> k < out@.len() && out@[k as int].path@ == path@,
                forall|j: int| 0 <= j < k ==> (#[trigger] out@[j]).path@ != path@,
                !found ==> forall|j: int| 0 <= j < k ==> (#[trigger] out@[j]).path@ != path@,
            decreases out@.len() - k + if found { 0int } else { 1int },
        {
            if out[k].path == path {
                found = true;
            } else {
                k = k + 1;
            }
        }
        proof {
            assert forall|j: int| 0 <= j < out@.len() implies (#[trigger] tally(prev)[j]).0
                == out@[j].path@ by {
                assert(tallies_of(out@)[j] == tally_of(out@[j]));
            }
        }
        if found {
            proof {
                let t = tally_index(tally(prev), path@);
                assert(tally(prev)[k as int].0 == path@);
                if t >= 0 && t < k {
                    assert(out@[t].path@ != path@);
                    assert(tally(prev)[t].0 == out@[t].path@);
                }
            }
            assert(tally_index(tally(prev), path@) == k);
            let old_info = &out[k];
            assert(tally(prev)[k as int] == tally_of(out@[k as int]));
            let updated = DiffInfo {
                path: old_info.path.clone(),
                additions: old_info.additions + add,
                deletions: old_info.deletions + del,
                diff_text: old_info.diff_text.clone().concat(text.as_str()),
            };
            out[k] = updated;
        } else {
            assert(tally_index(tally(prev), path@) < 0);
            out.push(DiffInfo { path, additions: add, deletions: del, diff_text: text });
        }
        proof {
            assert(tallies_of(out@) =~= tally(cur));
        }
        i = i + 1;
    }
    assert(lines@.subrange(0, lines@.len() as int) =~= lines@);
    out
}

/// The patch of one commit against its first parent (or against nothing, for a
/// root commit), one record per file.
pub fn get_commit_diff(repo: &git2::Repository, sha: &str) -> (r: Result<Vec<DiffInfo>, AppError>)
    ensures
        r matches Ok(v) ==> distinct_paths(v@),
{
    let oid = match parse_oid(sha) {
        Ok(o) => o,
        Err(e) => return Err(backend_error("Invalid commit id", &e)),
    };
    let commit = match find_commit(repo, oid) {
        Ok(c) => c,
        Err(e) => return Err(backend_error("Commit not found", &e)),
    };
    let tree = match commit_tree(&commit) {
        Ok(t) => t,
        Err(e) => return Err(backend_error("Failed to get tree", &e)),
    };
    let parent_tree = if parent_count(&commit) > 0 {
        let parent = match commit_parent(&commit, 0) {
            Ok(p) => p,
            Err(e) => return Err(backend_error("Failed to get parent", &e)),
        };
        match commit_tree(&parent) {
            Ok(t) => Some(t),
            Err(e) => return Err(backend_error("Failed to get parent tree", &e)),
        }
    } else {
        None
    };
    let diff = match diff_trees(repo, parent_tree.as_ref(), &tree) {
        Ok(d) => d,
        Err(e) => return Err(backend_error("Failed to generate diff", &e)),
    };
    match patch_lines(&diff) {
        Ok(lines) => {
            let v = summarize_patch(&lines);
            proof {
                lemma_distinct_records(v@, lines@);
            }
            Ok(v)
        },
        Err(e) => Err(backend_error("Failed to parse diff", &e)),
    }
}

/// The uncommitted changes (HEAD against index and working tree; the index
/// against the working tree while there is no commit), limited to `path` when
/// given, one record per file. A path holding a NUL is refused.
pub fn get_diff(repo: &git2::Repository, path: Option<&str>) -> (r: Result<Vec<DiffInfo>, AppError>)
    ensures
        path matches Some(p) && !no_nul(p@) ==> r matches Err(AppError::Precondition(_)),
        r matches Ok(v) ==> distinct_paths(v@),
{
    if let Some(p) = path {
        if has_nul(p) {
            return Err(precondition("Path holds a NUL character"));
        }
    }
    let head_tree = match head_ref(repo) {
        Ok(h) => match h.target {
            Some(oid) => match find_commit(repo, oid) {
                Ok(c) => match commit_tree(&c) {
                    Ok(t) => Some(t),
                    Err(_) => None,
                },
                Err(_) => None,
            },
            None => None,
        },
        Err(_) => None,
    };
    let diff = match head_tree {
        Some(tree) => match diff_tree_to_workdir(repo, &tree, path) {
            Ok(d) => d,
            Err(e) => return Err(backend_error("Failed to get diff (tree to workdir)", &e)),
        },
        None => match diff_index_to_workdir(repo, path) {
            Ok(d) => d,
            Err(e) => return Err(backend_error("Failed to get diff (index to workdir)", &e)),
        },
    };
    match patch_lines(&diff) {
        Ok(lines) => {
            let v = summarize_patch(&lines);
            proof {
                lemma_distinct_records(v@, lines@);
            }
            Ok(v)
        },
        Err(e) => Err(backend_error("Failed to parse diff", &e)),
    }
}

} // verus!
