//! Dictionary word entries and the pure edits behind the JSON-file
//! repository.
//!
//! The dictionary maps a surface form to its replacement. Reading and
//! writing the JSON file is I/O of the unverified shell; the edits on the
//! loaded entry list — replace-or-append and removal by surface — are
//! verified here, keyed by the surface characters.

use vstd::prelude::*;
use vstd::pervasive::VecAdditionalExecFns;

verus! {

/// Whether an entry takes part in replacement.
#[derive(Clone, Copy, Debug, PartialEq, Eq, Structural)]
pub enum EntryStatus {
    Active,
    Inactive,
}

/// One dictionary entry: a surface form, its replacement, a hit counter
/// and its status.
pub struct WordEntry {
    pub surface: String,
    pub replacement: String,
    pub hit: u32,
    pub status: EntryStatus,
}

/// The dictionary repository backed by one JSON file; it holds the file's
/// path, while the shell does the reading and writing.
pub struct JsonFileDictRepo {
    path: String,
}

impl JsonFileDictRepo {
    /// The path of the backing file.
    pub closed spec fn spec_path(&self) -> Seq<char> {
        self.path@
    }

    /// A repository over the file at `path`.
    pub fn with_path(path: String) -> (r: Self)
        ensures
            r.spec_path() == path@,
    {
        JsonFileDictRepo { path }
    }

    /// The path of the backing file.
    pub fn path(&self) -> (r: &str)
        ensures
            r@ == self.spec_path(),
    {
        self.path.as_str()
    }
}

/// The list after a replace-or-append of `e`: the first entry with the
/// same surface is replaced, everything else keeps its place; without a
/// match `e` is appended.
pub open spec fn spec_upsert(s: Seq<WordEntry>, e: WordEntry) -> Seq<WordEntry>
    decreases s.len(),
{
    if s.len() == 0 {
        seq![e]
    } else if s[0].surface@ == e.surface@ {
        seq![e] + s.skip(1)
    } else {
        seq![s[0]] + spec_upsert(s.skip(1), e)
    }
}

/// The list after removing every entry with the given surface.
pub open spec fn spec_delete(s: Seq<WordEntry>, surface: Seq<char>) -> Seq<WordEntry>
    decreases s.len(),
{
    if s.len() == 0 {
        Seq::empty()
    } else if s[0].surface@ == surface {
        spec_delete(s.skip(1), surface)
    } else {
        seq![s[0]] + spec_delete(s.skip(1), surface)
    }
}

/// When the first matching surface stands at `i`, the upsert is an update
/// at `i`.
proof fn lemma_upsert_found(s: Seq<WordEntry>, e: WordEntry, i: int)
    requires
        0 <= i < s.len(),
        s[i].surface@ == e.surface@,
        forall|j: int| 0 <= j < i ==> s[j].surface@ != e.surface@,
    ensures
        spec_upsert(s, e) == s.update(i, e),
    decreases i,
{
    if i == 0 {
        assert(seq![e] + s.skip(1) =~= s.update(0, e));
    } else {
        lemma_upsert_found(s.skip(1), e, i - 1);
        assert(s.skip(1)[i - 1] == s[i]);
        assert(seq![s[0]] + s.skip(1).update(i - 1, e) =~= s.update(i, e));
    }
}

/// When no surface matches, the upsert is an append.
proof fn lemma_upsert_missing(s: Seq<WordEntry>, e: WordEntry)
    requires
        forall|j: int| 0 <= j < s.len() ==> s[j].surface@ != e.surface@,
    ensures
        spec_upsert(s, e) == s.push(e),
    decreases s.len(),
{
    if s.len() == 0 {
        assert(seq![e] =~= s.push(e));
    } else {
        lemma_upsert_missing(s.skip(1), e);
        assert(seq![s[0]] + s.skip(1).push(e) =~= s.push(e));
    }
}

/// Extending the scanned prefix by one entry extends the deletion result
/// by that entry or by nothing.
proof fn lemma_delete_snoc(s: Seq<WordEntry>, surface: Seq<char>, i: int)
    requires
        0 <= i < s.len(),
    ensures
        spec_delete(s.subrange(0, i + 1), surface) == if s[i].surface@ == surface {
            spec_delete(s.subrange(0, i), surface)
        } else {
            spec_delete(s.subrange(0, i), surface).push(s[i])
        },
    decreases i,
{
    let a = s.subrange(0, i + 1);
    let b = s.subrange(0, i);
    if i == 0 {
        assert(a =~= seq![s[0]]);
        assert(a.skip(1) =~= Seq::<WordEntry>::empty());
        assert(b =~= Seq::<WordEntry>::empty());
        if s[0].surface@ != surface {
            assert(seq![s[0]] + spec_delete(a.skip(1), surface) =~= spec_delete(
                b,
                surface,
            ).push(s[0]));
        }
    } else {
        let tail = s.skip(1);
        lemma_delete_snoc(tail, surface, i - 1);
        assert(a[0] == s[0]);
        assert(b[0] == s[0]);
        assert(a.skip(1) =~= tail.subrange(0, i));
        assert(b.skip(1) =~= tail.subrange(0, i - 1));
        assert(tail[i - 1] == s[i]);
        if s[0].surface@ == surface {
        } else {
            if s[i].surface@ == surface {
            } else {
                assert(seq![s[0]] + spec_delete(tail.subrange(0, i - 1), surface).push(
                    s[i],
                ) =~= (seq![s[0]] + spec_delete(tail.subrange(0, i - 1), surface)).push(s[i]));
            }
        }
    }
}

/// Registers or replaces the entry for its surface: the first entry with
/// the same surface is replaced in place, otherwise the entry is appended.
pub fn upsert_entry(entries: &mut Vec<WordEntry>, entry: WordEntry)
    ensures
        final(entries)@ == spec_upsert(old(entries)@, entry),
{
    let n = entries.len();
    let mut i: usize = 0;
    while i < n
        invariant
            n == entries@.len(),
            i <= n,
            entries@ == old(entries)@,
            forall|j: int| 0 <= j < i ==> entries@[j].surface@ != entry.surface@,
        decreases n - i,
    {
        if entries[i].surface == entry.surface {
            proof {
                lemma_upsert_found(entries@, entry, i as int);
            }
            entries.set(i, entry);
            return ;
        }
        i = i + 1;
    }
    proof {
        lemma_upsert_missing(entries@, entry);
    }
    entries.push(entry);
}

/// Removes every entry with the given surface; reports whether any entry
/// was removed.
pub fn delete_entry(entries: &mut Vec<WordEntry>, surface: &String) -> (removed: bool)
    ensures
        final(entries)@ == spec_delete(old(entries)@, surface@),
        removed == exists|j: int|
            0 <= j < old(entries)@.len() && old(entries)@[j].surface@ == surface@,
{
    let ghost orig = entries@;
    let mut src: Vec<WordEntry> = Vec::new();
    core::mem::swap(&mut src, entries);
    let mut found = false;
    let mut i: usize = 0;
    let n = src.len();
    while i < n
        invariant
            n == orig.len(),
            i <= n,
            src@ == orig.skip(i as int),
            entries@ == spec_delete(orig.subrange(0, i as int), surface@),
            found == exists|j: int| 0 <= j < i && orig[j].surface@ == surface@,
        decreases n - i,
    {
        let e = src.remove(0);
        proof {
            assert(e == orig[i as int]);
            assert(orig.skip(i as int).remove(0) =~= orig.skip(i as int + 1));
            lemma_delete_snoc(orig, surface@, i as int);
        }
        if e.surface == *surface {
            found = true;
        } else {
            entries.push(e);
        }
        i = i + 1;
    }
    proof {
        assert(orig.subrange(0, n as int) =~= orig);
    }
    found
}

} // verus!
