//! Retention planning for the clip output directory: list, sort, prune.
//! Given the directory's entries, the plan selects the oldest matching
//! entries beyond the configured cap for deletion. The embedding layer
//! performs the listing and the deletions; failures there are logged and
//! never surface to the requester.
use vstd::prelude::*;

use crate::strutil::str_ends_with;

verus! {

/// One entry of the clip directory: a path and its last-modified time,
/// as an opaque monotone stamp (for instance seconds or microseconds
/// since some epoch).
pub struct ClipEntry {
    pub path: String,
    pub modified: u64,
}

/// Whether a path carries the dot-separated extension `ext`.
pub open spec fn spec_has_extension(path: Seq<char>, ext: Seq<char>) -> bool {
    ("."@ + ext).is_suffix_of(path)
}

/// Whether an entry matches the retention filter.
pub open spec fn spec_matches_ext(c: ClipEntry, ext: Seq<char>) -> bool {
    spec_has_extension(c.path@, ext)
}

/// Ascending order of last-modified stamps.
pub open spec fn sorted_by_modified(s: Seq<ClipEntry>) -> bool {
    forall|i: int, j: int| 0 <= i < j < s.len() ==> s[i].modified <= s[j].modified
}

/// Inserts `e` into `s` before the first strictly newer entry, so that
/// entries with equal stamps keep their existing order.
pub open spec fn spec_insert_by_modified(e: ClipEntry, s: Seq<ClipEntry>) -> Seq<ClipEntry>
    decreases s.len(),
{
    if s.len() == 0 {
        seq![e]
    } else if e.modified < s.first().modified {
        seq![e] + s
    } else {
        seq![s.first()] + spec_insert_by_modified(e, s.drop_first())
    }
}

/// Stable insertion sort by last-modified stamp, oldest first.
pub open spec fn spec_sort_by_modified(s: Seq<ClipEntry>) -> Seq<ClipEntry>
    decreases s.len(),
{
    if s.len() == 0 {
        Seq::empty()
    } else {
        spec_insert_by_modified(s.last(), spec_sort_by_modified(s.drop_last()))
    }
}

proof fn lemma_insert_len(e: ClipEntry, s: Seq<ClipEntry>)
    ensures
        spec_insert_by_modified(e, s).len() == s.len() + 1,
    decreases s.len(),
{
    if s.len() == 0 {
    } else if e.modified < s.first().modified {
    } else {
        lemma_insert_len(e, s.drop_first());
    }
}

/// Inserting at the position found by a linear scan coincides with the
/// recursive insertion.
proof fn lemma_insert_at_pos(e: ClipEntry, s: Seq<ClipEntry>, j: int)
    requires
        0 <= j <= s.len(),
        forall|k: int| 0 <= k < j ==> s[k].modified <= e.modified,
        j < s.len() ==> e.modified < s[j].modified,
    ensures
        spec_insert_by_modified(e, s) == s.insert(j, e),
    decreases s.len(),
{
    if s.len() == 0 {
        assert(spec_insert_by_modified(e, s) =~= s.insert(0, e));
    } else if j == 0 {
        assert(spec_insert_by_modified(e, s) =~= s.insert(0, e));
    } else {
        lemma_insert_at_pos(e, s.drop_first(), j - 1);
        s.insert_ensures(j, e);
        s.drop_first().insert_ensures(j - 1, e);
        assert(seq![s.first()] + s.drop_first().insert(j - 1, e) =~= s.insert(j, e));
    }
}

proof fn lemma_insert_lower_bound(e: ClipEntry, s: Seq<ClipEntry>, b: u64)
    requires
        b <= e.modified,
        forall|i: int| 0 <= i < s.len() ==> b <= #[trigger] s[i].modified,
    ensures
        forall|i: int|
            0 <= i < spec_insert_by_modified(e, s).len() ==> b <= #[trigger] spec_insert_by_modified(
                e,
                s,
            )[i].modified,
    decreases s.len(),
{
    if s.len() == 0 {
    } else if e.modified < s.first().modified {
    } else {
        assert(forall|i: int|
            0 <= i < s.drop_first().len() ==> b <= #[trigger] s.drop_first()[i].modified);
        lemma_insert_lower_bound(e, s.drop_first(), b);
        let t = spec_insert_by_modified(e, s.drop_first());
        let r = seq![s.first()] + t;
        assert forall|i: int| 0 <= i < r.len() implies b <= #[trigger] r[i].modified by {
            if i > 0 {
                assert(r[i] == t[i - 1]);
            }
        }
    }
}

proof fn lemma_insert_sorted(e: ClipEntry, s: Seq<ClipEntry>)
    requires
        sorted_by_modified(s),
    ensures
        sorted_by_modified(spec_insert_by_modified(e, s)),
    decreases s.len(),
{
    if s.len() == 0 {
    } else if e.modified < s.first().modified {
    } else {
        assert(sorted_by_modified(s.drop_first()));
        lemma_insert_sorted(e, s.drop_first());
        lemma_insert_lower_bound(e, s.drop_first(), s.first().modified);
        let r = seq![s.first()] + spec_insert_by_modified(e, s.drop_first());
        assert forall|i: int, j: int| 0 <= i < j < r.len() implies r[i].modified
            <= r[j].modified by {
            if i > 0 {
                assert(r[i] == spec_insert_by_modified(e, s.drop_first())[i - 1]);
                assert(r[j] == spec_insert_by_modified(e, s.drop_first())[j - 1]);
            }
        }
    }
}

proof fn lemma_insert_multiset(e: ClipEntry, s: Seq<ClipEntry>)
    ensures
        spec_insert_by_modified(e, s).to_multiset() == s.to_multiset().insert(e),
    decreases s.len(),
{
    broadcast use vstd::seq_lib::group_to_multiset_ensures;

    if s.len() == 0 {
        assert(spec_insert_by_modified(e, s) =~= Seq::<ClipEntry>::empty().push(e));
    } else if e.modified < s.first().modified {
        assert(spec_insert_by_modified(e, s) =~= s.insert(0, e));
    } else {
        lemma_insert_multiset(e, s.drop_first());
        let t = spec_insert_by_modified(e, s.drop_first());
        assert(seq![s.first()] + t =~= t.insert(0, s.first()));
        assert((seq![s.first()] + t).to_multiset() =~= t.to_multiset().insert(s.first()));
        assert(s =~= s.drop_first().insert(0, s.first()));
        assert(s.to_multiset() =~= s.drop_first().to_multiset().insert(s.first()));
        assert(s.drop_first().to_multiset().insert(e).insert(s.first())
            =~= s.drop_first().to_multiset().insert(s.first()).insert(e));
    }
}

/// The sort keeps the length.
pub proof fn lemma_sort_len(s: Seq<ClipEntry>)
    ensures
        spec_sort_by_modified(s).len() == s.len(),
    decreases s.len(),
{
    if s.len() > 0 {
        lemma_sort_len(s.drop_last());
        lemma_insert_len(s.last(), spec_sort_by_modified(s.drop_last()));
    }
}

/// The sort orders entries by ascending last-modified stamp.
pub proof fn lemma_sort_sorted(s: Seq<ClipEntry>)
    ensures
        sorted_by_modified(spec_sort_by_modified(s)),
    decreases s.len(),
{
    if s.len() > 0 {
        lemma_sort_sorted(s.drop_last());
        lemma_insert_sorted(s.last(), spec_sort_by_modified(s.drop_last()));
    }
}

/// The sort is a permutation: no entry appears or disappears.
pub proof fn lemma_sort_multiset(s: Seq<ClipEntry>)
    ensures
        spec_sort_by_modified(s).to_multiset() == s.to_multiset(),
    decreases s.len(),
{
    broadcast use vstd::seq_lib::group_to_multiset_ensures;

    if s.len() > 0 {
        lemma_sort_multiset(s.drop_last());
        lemma_insert_multiset(s.last(), spec_sort_by_modified(s.drop_last()));
        assert(s =~= s.drop_last().push(s.last()));
        assert(s.to_multiset() =~= s.drop_last().to_multiset().insert(s.last()));
    }
}

/// Copies one directory entry.
fn clone_entry(e: &ClipEntry) -> (r: ClipEntry)
    ensures
        r == *e,
{
    ClipEntry { path: e.path.clone(), modified: e.modified }
}

/// Keeps the entries whose path carries the dot-separated extension
/// `ext`, in their original order.
pub fn filter_by_extension(entries: &Vec<ClipEntry>, ext: &str) -> (r: Vec<ClipEntry>)
    ensures
        r@ == entries@.filter(|c: ClipEntry| spec_matches_ext(c, ext@)),
{
    let dotted = String::from_str(".").concat(ext);
    let mut out: Vec<ClipEntry> = Vec::new();
    let mut i: usize = 0;
    while i < entries.len()
        invariant
            i <= entries@.len(),
            dotted@ == "."@ + ext@,
            out@ == entries@.subrange(0, i as int).filter(
                |c: ClipEntry| spec_matches_ext(c, ext@),
            ),
        decreases entries@.len() - i,
    {
        let keep = str_ends_with(entries[i].path.as_str(), dotted.as_str());
        if keep {
            out.push(clone_entry(&entries[i]));
        }
        proof {
            reveal(Seq::filter);
            assert(entries@.subrange(0, i + 1 as int).drop_last() =~= entries@.subrange(
                0,
                i as int,
            ));
            assert(entries@.subrange(0, i + 1 as int).last() == entries@[i as int]);
        }
        i = i + 1;
    }
    proof {
        assert(entries@.subrange(0, entries@.len() as int) =~= entries@);
    }
    out
}

/// Sorts directory entries by ascending last-modified stamp; entries with
/// equal stamps keep the order the listing gave them.
pub fn sort_entries_by_modified(entries: &Vec<ClipEntry>) -> (r: Vec<ClipEntry>)
    ensures
        r@ == spec_sort_by_modified(entries@),
{
    let mut out: Vec<ClipEntry> = Vec::new();
    let mut i: usize = 0;
    while i < entries.len()
        invariant
            i <= entries@.len(),
            out@ == spec_sort_by_modified(entries@.subrange(0, i as int)),
        decreases entries@.len() - i,
    {
        let e = clone_entry(&entries[i]);
        let mut j: usize = 0;
        while j < out.len() && out[j].modified <= e.modified
            invariant
                j <= out@.len(),
                forall|k: int| 0 <= k < j ==> out@[k].modified <= e.modified,
            decreases out@.len() - j,
        {
            j = j + 1;
        }
        proof {
            lemma_insert_at_pos(e, out@, j as int);
        }
        out.insert(j, e);
        proof {
            assert(entries@.subrange(0, i + 1 as int).drop_last() =~= entries@.subrange(
                0,
                i as int,
            ));
            assert(entries@.subrange(0, i + 1 as int).last() == entries@[i as int]);
        }
        i = i + 1;
    }
    proof {
        assert(entries@.subrange(0, entries@.len() as int) =~= entries@);
    }
    out
}

/// The deletion plan of one prune pass: among the entries that match the
/// extension filter, the `count - max_files` oldest ones (by last-modified
/// stamp, ties broken by listing order), or none when the cap is not
/// exceeded.
pub fn plan_retention(entries: &Vec<ClipEntry>, ext: &str, max_files: usize) -> (r: Vec<ClipEntry>)
    ensures
        ({
            let matching = entries@.filter(|c: ClipEntry| spec_matches_ext(c, ext@));
            &&& matching.len() <= max_files ==> r@ == Seq::<ClipEntry>::empty()
            &&& matching.len() > max_files ==> r@ == spec_sort_by_modified(matching).subrange(
                0,
                matching.len() - max_files,
            )
        }),
{
    let matching = filter_by_extension(entries, ext);
    if matching.len() <= max_files {
        Vec::new()
    } else {
        let excess = matching.len() - max_files;
        let mut sorted = sort_entries_by_modified(&matching);
        proof {
            lemma_sort_len(matching@);
        }
        sorted.truncate(excess);
        sorted
    }
}

/// The retention law: when the matching entries exceed the cap, one prune
/// pass deletes exactly the excess-many oldest of them and keeps exactly
/// the cap-many newest; deleted and kept entries partition the matching
/// ones, and every deleted entry is no newer than every kept one.
pub proof fn lemma_retention_removes_oldest(matching: Seq<ClipEntry>, max_files: usize)
    requires
        matching.len() > max_files,
    ensures
        ({
            let sorted = spec_sort_by_modified(matching);
            let deleted = sorted.subrange(0, matching.len() - max_files);
            let kept = sorted.subrange(matching.len() - max_files, sorted.len() as int);
            &&& deleted.len() == matching.len() - max_files
            &&& kept.len() == max_files
            &&& deleted + kept == sorted
            &&& sorted.to_multiset() == matching.to_multiset()
            &&& forall|i: int, j: int|
                0 <= i < deleted.len() && 0 <= j < kept.len() ==> #[trigger] deleted[i].modified
                    <= #[trigger] kept[j].modified
        }),
{
    lemma_sort_len(matching);
    lemma_sort_sorted(matching);
    lemma_sort_multiset(matching);
    let sorted = spec_sort_by_modified(matching);
    let deleted = sorted.subrange(0, matching.len() - max_files);
    let kept = sorted.subrange(matching.len() - max_files, sorted.len() as int);
    assert(deleted + kept =~= sorted);
}

} // verus!
