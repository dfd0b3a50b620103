//! The recent-files list: most recent first, one entry per path, bounded.

use vstd::prelude::*;

verus! {

/// A file the editor opened.
#[derive(Debug)]
pub struct RecentFile {
    pub path: String,
    pub name: String,
    pub accessed_at: String,
}

/// How many entries the list keeps.
pub const MAX_RECENT: usize = 10;

/// Whether an entry is for another path than `path`.
pub open spec fn other_path(path: Seq<char>) -> spec_fn(RecentFile) -> bool {
    |f: RecentFile| f.path@ != path
}

/// The list after opening `e`: `e` first, then the older entries for other
/// paths in their order, cut to `MAX_RECENT` entries.
pub open spec fn recent_after(files: Seq<RecentFile>, e: RecentFile) -> Seq<RecentFile> {
    let all = seq![e] + files.filter(other_path(e.path@));
    if all.len() > MAX_RECENT {
        all.take(MAX_RECENT as int)
    } else {
        all
    }
}

/// A list as the editor keeps it: bounded, with no path twice.
pub open spec fn recent_wf(files: Seq<RecentFile>) -> bool {
    &&& files.len() <= MAX_RECENT
    &&& distinct_paths(files)
}

/// No two entries of `files` have the same path.
pub open spec fn distinct_paths(files: Seq<RecentFile>) -> bool {
    forall|i: int, j: int|
        0 <= i < j < files.len() ==> (#[trigger] files[i]).path@ != (#[trigger] files[j]).path@
}

proof fn lemma_filter_keeps_all(s: Seq<RecentFile>, path: Seq<char>)
    requires
        forall|i: int| 0 <= i < s.len() ==> (#[trigger] s[i]).path@ != path,
    ensures
        s.filter(other_path(path)) == s,
    decreases s.len(),
{
    reveal(Seq::filter);
    if s.len() > 0 {
        lemma_filter_keeps_all(s.drop_last(), path);
        assert(s.drop_last().push(s.last()) =~= s);
    }
}

proof fn lemma_filter_drops_one(s: Seq<RecentFile>, path: Seq<char>, k: int)
    requires
        distinct_paths(s),
        0 <= k < s.len(),
        s[k].path@ == path,
    ensures
        s.filter(other_path(path)).len() == s.len() - 1,
    decreases s.len(),
{
    reveal(Seq::filter);
    let init = s.drop_last();
    if k == s.len() - 1 {
        assert forall|i: int| 0 <= i < init.len() implies (#[trigger] init[i]).path@ != path by {
            assert(s[i].path@ != s[k].path@);
        }
        lemma_filter_keeps_all(init, path);
    } else {
        assert(s[k].path@ != s.last().path@);
        lemma_filter_drops_one(init, path, k);
    }
}

proof fn lemma_filter_distinct(s: Seq<RecentFile>, path: Seq<char>)
    requires
        distinct_paths(s),
    ensures
        distinct_paths(s.filter(other_path(path))),
        forall|i: int| 0 <= i < s.filter(other_path(path)).len()
            ==> (#[trigger] s.filter(other_path(path))[i]).path@ != path,
        s.filter(other_path(path)).len() <= s.len(),
    decreases s.len(),
{
    reveal(Seq::filter);
    let p = other_path(path);
    if s.len() > 0 {
        let init = s.drop_last();
        lemma_filter_distinct(init, path);
        broadcast use vstd::seq_lib::group_filter_ensures;
        let f = init.filter(p);
        assert forall|i: int| 0 <= i < f.len() implies (#[trigger] f[i]).path@ != s.last().path@ by {
            assert(f.contains(f[i]));
            init.lemma_filter_contains_rev(p, f[i]);
            let j = choose|j: int| 0 <= j < init.len() && init[j] == f[i];
            assert(s[j] == init[j]);
        }
    }
}

/// Opening a file again keeps the list well formed.
pub proof fn recent_stays_wf(files: Seq<RecentFile>, e: RecentFile)
    requires
        recent_wf(files),
    ensures
        recent_wf(recent_after(files, e)),
{
    let f = files.filter(other_path(e.path@));
    lemma_filter_distinct(files, e.path@);
    let all = seq![e] + f;
    assert(distinct_paths(all)) by {
        assert forall|i: int, j: int| 0 <= i < j < all.len() implies (#[trigger] all[i]).path@
            != (#[trigger] all[j]).path@ by {
            if i == 0 {
                assert(all[j] == f[j - 1]);
            } else {
                assert(all[i] == f[i - 1]);
                assert(all[j] == f[j - 1]);
            }
        }
    }
}

/// Opening a file that the list already holds moves its entry to the front
/// and keeps the number of entries.
pub proof fn reopening_moves_to_front(files: Seq<RecentFile>, e: RecentFile)
    requires
        recent_wf(files),
        exists|k: int| 0 <= k < files.len() && (#[trigger] files[k]).path@ == e.path@,
    ensures
        recent_after(files, e)[0] == e,
        recent_after(files, e).len() == files.len(),
{
    let k = choose|k: int| 0 <= k < files.len() && (#[trigger] files[k]).path@ == e.path@;
    lemma_filter_drops_one(files, e.path@, k);
}

/// Opening a new file when the list is full puts it first and drops the
/// oldest entry.
pub proof fn new_file_drops_oldest(files: Seq<RecentFile>, e: RecentFile)
    requires
        recent_wf(files),
        files.len() == MAX_RECENT,
        forall|k: int| 0 <= k < files.len() ==> (#[trigger] files[k]).path@ != e.path@,
    ensures
        recent_after(files, e) == seq![e] + files.take(MAX_RECENT - 1),
{
    lemma_filter_keeps_all(files, e.path@);
    assert(recent_after(files, e) =~= seq![e] + files.take(MAX_RECENT - 1));
}

/// A field-by-field copy of `f`.
fn copy_entry(f: &RecentFile) -> (r: RecentFile)
    ensures
        r == *f,
{
    RecentFile { path: f.path.clone(), name: f.name.clone(), accessed_at: f.accessed_at.clone() }
}

/// The list `files` after opening the file at `path`, named `name`, at the
/// time `accessed_at`.
pub fn push_recent(files: &Vec<RecentFile>, path: String, name: String, accessed_at: String) -> (r: Vec<RecentFile>)
    ensures
        r@ == recent_after(files@, RecentFile { path, name, accessed_at }),
{
    let key = path.clone();
    let ghost e = RecentFile { path, name, accessed_at };
    let mut out: Vec<RecentFile> = Vec::new();
    out.push(RecentFile { path, name, accessed_at });
    let mut i: usize = 0;
    while i < files.len()
        invariant
            i <= files.len(),
            key@ == e.path@,
            out@ == seq![e] + files@.take(i as int).filter(other_path(e.path@)),
        decreases files.len() - i,
    {
        let ghost p = other_path(e.path@);
        let ghost s = files@.take(i + 1);
        proof {
            assert(s.drop_last() =~= files@.take(i as int));
            assert(s.last() == files@[i as int]);
            reveal(Seq::filter);
            assert(s.filter(p) == if p(s.last()) {
                s.drop_last().filter(p).push(s.last())
            } else {
                s.drop_last().filter(p)
            });
        }
        if !(files[i].path == key) {
            out.push(copy_entry(&files[i]));
            proof {
                assert(out@ =~= seq![e] + s.filter(p));
            }
        }
        i = i + 1;
    }
    proof {
        assert(files@.take(files.len() as int) =~= files@);
    }
    out.truncate(MAX_RECENT);
    proof {
        assert(out@ =~= recent_after(files@, e));
    }
    out
}

} // verus!
