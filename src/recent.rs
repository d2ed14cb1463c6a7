//! The recent-repository list of the settings: most recent first, without
//! duplicates, at most `RECENT_LIMIT` entries.

use vstd::prelude::*;
use vstd::string::*;
use crate::models::Settings;
use crate::text::views;

verus! {

/// The most entries the recent-repository list keeps.
pub const RECENT_LIMIT: usize = 10;

/// `s` with every repeated entry after its first occurrence removed.
pub open spec fn dedup(s: Seq<Seq<char>>) -> Seq<Seq<char>>
    decreases s.len(),
{
    if s.len() == 0 {
        seq![]
    } else {
        let d = dedup(s.drop_last());
        if d.contains(s.last()) {
            d
        } else {
            d.push(s.last())
        }
    }
}

/// At most the first `RECENT_LIMIT` entries of `s`.
pub open spec fn capped(s: Seq<Seq<char>>) -> Seq<Seq<char>> {
    if s.len() > RECENT_LIMIT {
        s.take(RECENT_LIMIT as int)
    } else {
        s
    }
}

/// The list after `path` is opened: `path` first, then the earlier entries
/// without it and without repeats, cut to `RECENT_LIMIT`.
pub open spec fn after_open(list: Seq<Seq<char>>, path: Seq<char>) -> Seq<Seq<char>> {
    capped(dedup(seq![path] + list))
}

/// `s` without the entries that `gone` lists, order kept.
pub open spec fn without(s: Seq<Seq<char>>, gone: Seq<Seq<char>>) -> Seq<Seq<char>>
    decreases s.len(),
{
    if s.len() == 0 {
        seq![]
    } else if gone.contains(s.last()) {
        without(s.drop_last(), gone)
    } else {
        without(s.drop_last(), gone).push(s.last())
    }
}

proof fn lemma_dedup_single(x: Seq<char>)
    ensures
        dedup(seq![x]) == seq![x],
{
    assert(seq![x].drop_last() =~= Seq::<Seq<char>>::empty());
    assert(dedup(Seq::<Seq<char>>::empty()) == Seq::<Seq<char>>::empty());
    assert(!Seq::<Seq<char>>::empty().contains(x));
    assert(Seq::<Seq<char>>::empty().push(x) =~= seq![x]);
}

proof fn lemma_contains_last(s: Seq<Seq<char>>, x: Seq<char>)
    requires
        s.len() > 0,
    ensures
        s.contains(x) <==> (s.drop_last().contains(x) || s.last() == x),
{
    let init = s.drop_last();
    if s.contains(x) {
        let i = choose|i: int| 0 <= i < s.len() && s[i] == x;
        if i < s.len() - 1 {
            assert(init[i] == x);
        }
    }
    if init.contains(x) {
        let i = choose|i: int| 0 <= i < init.len() && init[i] == x;
        assert(s[i] == x);
    }
}

proof fn lemma_dedup_facts(s: Seq<Seq<char>>)
    ensures
        dedup(s).no_duplicates(),
        dedup(s).len() <= s.len(),
        s.len() > 0 ==> dedup(s).len() > 0 && dedup(s)[0] == s[0],
        forall|x: Seq<char>| dedup(s).contains(x) <==> s.contains(x),
    decreases s.len(),
{
    if s.len() > 0 {
        let init = s.drop_last();
        lemma_dedup_facts(init);
        let d = dedup(init);
        assert forall|x: Seq<char>| dedup(s).contains(x) <==> s.contains(x) by {
            lemma_contains_last(s, x);
            if !d.contains(s.last()) {
                let p = d.push(s.last());
                assert(p.drop_last() =~= d);
                lemma_contains_last(p, x);
            }
        }
        if init.len() == 0 {
            assert(d.len() == 0);
            assert(!d.contains(s.last()));
        }
    }
}

/// Opening a path leaves the recent list with that path first, no entry twice
/// and no more than `RECENT_LIMIT` entries, whatever the list held before; so
/// opening the same path again and again never grows a duplicate.
pub proof fn lemma_recent_list_bounded(list: Seq<Seq<char>>, path: Seq<char>)
    ensures
        after_open(list, path).len() <= RECENT_LIMIT,
        after_open(list, path).no_duplicates(),
        after_open(list, path).len() > 0 && after_open(list, path)[0] == path,
        after_open(after_open(list, path), path) == after_open(list, path),
{
    let s = seq![path] + list;
    lemma_dedup_facts(s);
    assert(s[0] == path);
    let a = after_open(list, path);
    let s2 = seq![path] + a;
    lemma_dedup_facts(s2);
    lemma_dedup_of_leading_repeat(a, path);
}

/// Opening the first entry of a duplicate-free list keeps the list as it is.
proof fn lemma_dedup_of_leading_repeat(a: Seq<Seq<char>>, path: Seq<char>)
    requires
        a.no_duplicates(),
        a.len() > 0,
        a[0] == path,
        a.len() <= RECENT_LIMIT,
    ensures
        capped(dedup(seq![path] + a)) == a,
{
    lemma_dedup_distinct_after_head(a);
    assert(dedup(seq![path] + a) == a);
}

/// For a duplicate-free `a`, prefixing its own first entry changes nothing after dedup.
proof fn lemma_dedup_distinct_after_head(a: Seq<Seq<char>>)
    requires
        a.no_duplicates(),
        a.len() > 0,
    ensures
        dedup(seq![a[0]] + a) == a,
    decreases a.len(),
{
    let s = seq![a[0]] + a;
    if a.len() == 1 {
        assert(s.drop_last() =~= seq![a[0]]);
        lemma_dedup_single(a[0]);
        assert(seq![a[0]].contains(a[0]));
        assert(dedup(s) =~= a);
    } else {
        let init = a.drop_last();
        assert(init.no_duplicates());
        lemma_dedup_distinct_after_head(init);
        assert(s.drop_last() =~= seq![init[0]] + init);
        assert(!init.contains(a.last())) by {
            if init.contains(a.last()) {
                let i = choose|i: int| 0 <= i < init.len() && init[i] == a.last();
                assert(a[i] == a[a.len() - 1]);
            }
        }
        assert(dedup(s) =~= a);
    }
}

fn contains_text(v: &Vec<String>, x: &String) -> (r: bool)
    ensures
        r == views(v@).contains(x@),
{
    let mut i: usize = 0;
    while i < v.len()
        invariant
            i <= v@.len(),
            forall|j: int| 0 <= j < i ==> v@[j]@ != x@,
        decreases v@.len() - i,
    {
        if v[i] == *x {
            assert(views(v@)[i as int] == x@);
            return true;
        }
        i = i + 1;
    }
    proof {
        if views(v@).contains(x@) {
            let j = choose|j: int| 0 <= j < views(v@).len() && views(v@)[j] == x@;
            assert(v@[j]@ == x@);
        }
    }
    false
}

/// The recent list after `path` is opened.
pub fn recent_after_open(list: &Vec<String>, path: &str) -> (r: Vec<String>)
    ensures
        views(r@) == after_open(views(list@), path@),
{
    let ghost all = seq![path@] + views(list@);
    let mut out: Vec<String> = Vec::new();
    let first = String::from_str(path);
    out.push(first);
    proof {
        assert(all.subrange(0, 1) =~= seq![path@]);
        lemma_dedup_single(path@);
        assert(views(out@) =~= seq![path@]);
    }
    let mut i: usize = 0;
    while i < list.len()
        invariant
            i <= list@.len(),
            all == seq![path@] + views(list@),
            views(out@) == dedup(all.subrange(0, i + 1)),
        decreases list@.len() - i,
    {
        let item = &list[i];
        proof {
            assert(all.subrange(0, i + 2).drop_last() =~= all.subrange(0, i + 1));
            assert(all[i + 1] == item@);
        }
        if !contains_text(&out, item) {
            out.push(item.clone());
            assert(views(out@) =~= dedup(all.subrange(0, i + 2)));
        }
        i = i + 1;
    }
    assert(all.subrange(0, list@.len() + 1 as int) =~= all);
    if out.len() > RECENT_LIMIT {
        out.truncate(RECENT_LIMIT);
        assert(views(out@) =~= dedup(all).take(RECENT_LIMIT as int));
    }
    out
}

/// `list` without the entries that `gone` lists.
pub fn recent_without(list: &Vec<String>, gone: &Vec<String>) -> (r: Vec<String>)
    ensures
        views(r@) == without(views(list@), views(gone@)),
{
    let mut out: Vec<String> = Vec::new();
    let mut i: usize = 0;
    while i < list.len()
        invariant
            i <= list@.len(),
            views(out@) == without(views(list@).subrange(0, i as int), views(gone@)),
        decreases list@.len() - i,
    {
        proof {
            assert(views(list@).subrange(0, i + 1).drop_last() =~= views(list@).subrange(
                0,
                i as int,
            ));
        }
        if !contains_text(gone, &list[i]) {
            out.push(list[i].clone());
            assert(views(out@) =~= without(views(list@).subrange(0, i + 1), views(gone@)));
        }
        i = i + 1;
    }
    assert(views(list@).subrange(0, list@.len() as int) =~= views(list@));
    out
}

impl Settings {
    /// Records that `path` was opened: it leads the recent list and becomes
    /// the last opened repository.
    pub fn remember_opened(&mut self, path: &str)
        ensures
            views(final(self).recent_repositories@) == after_open(
                views(old(self).recent_repositories@),
                path@,
            ),
            final(self).last_opened_repository matches Some(p) && p@ == path@,
            final(self).ssh_key_path == old(self).ssh_key_path,
            final(self).ssh_passphrase == old(self).ssh_passphrase,
    {
        self.recent_repositories = recent_after_open(&self.recent_repositories, path);
        self.last_opened_repository = Some(String::from_str(path));
    }

    /// Forgets the repositories in `paths`: they leave the recent list, and the
    /// last opened repository is cleared when it is one of them.
    pub fn forget_repositories(&mut self, paths: &Vec<String>)
        ensures
            views(final(self).recent_repositories@) == without(
                views(old(self).recent_repositories@),
                views(paths@),
            ),
            final(self).last_opened_repository == (match old(self).last_opened_repository {
                Some(p) => if views(paths@).contains(p@) {
                    None
                } else {
                    Some(p)
                },
                None => None,
            }),
            final(self).ssh_key_path == old(self).ssh_key_path,
            final(self).ssh_passphrase == old(self).ssh_passphrase,
    {
        self.recent_repositories = recent_without(&self.recent_repositories, paths);
        let forget = match &self.last_opened_repository {
            Some(p) => contains_text(paths, p),
            None => false,
        };
        if forget {
            self.last_opened_repository = None;
        }
    }
}

} // verus!
