//! The static file table: an immutable mapping from normalized path
//! strings to byte contents, built once when a bundle is loaded and
//! read-only for the worker's entire lifetime.

use vstd::prelude::*;

use crate::strutil::str_eq;

verus! {

/// One bundled file: a normalized path and its byte content.
struct StaticFile {
    path: String,
    bytes: Vec<u8>,
}

/// Mapping from normalized path string to byte content. Lookup is by
/// the exact path string; the table is never listed or stat-ed.
pub struct StaticFileTable {
    entries: Vec<StaticFile>,
}

impl StaticFileTable {
    /// No two entries name the same path.
    pub closed spec fn wf(self) -> bool {
        forall|i: int, j: int|
            0 <= i < j < self.entries@.len() ==> self.entries@[i].path@ != self.entries@[j].path@
    }

    pub closed spec fn contains_path(self, p: Seq<char>) -> bool {
        exists|i: int| 0 <= i < self.entries@.len() && self.entries@[i].path@ == p
    }

    pub closed spec fn file_at(self, p: Seq<char>) -> Seq<u8> {
        let i = choose|i: int| 0 <= i < self.entries@.len() && self.entries@[i].path@ == p;
        self.entries@[i].bytes@
    }

    /// The table as a mathematical map from path to content.
    pub open spec fn as_map(self) -> Map<Seq<char>, Seq<u8>> {
        Map::new(|p: Seq<char>| self.contains_path(p), |p: Seq<char>| self.file_at(p))
    }

    proof fn lemma_entry(self, i: int)
        requires
            self.wf(),
            0 <= i < self.entries@.len(),
        ensures
            self.contains_path(self.entries@[i].path@),
            self.file_at(self.entries@[i].path@) == self.entries@[i].bytes@,
    {
        let p = self.entries@[i].path@;
        assert(self.contains_path(p));
        let j = choose|j: int| 0 <= j < self.entries@.len() && self.entries@[j].path@ == p;
        if i < j {
            assert(self.entries@[i].path@ != self.entries@[j].path@);
        } else if j < i {
            assert(self.entries@[j].path@ != self.entries@[i].path@);
        }
    }

    /// An empty table.
    pub fn new() -> (t: StaticFileTable)
        ensures
            t.wf(),
            t.as_map() == Map::<Seq<char>, Seq<u8>>::empty(),
    {
        let t = StaticFileTable { entries: Vec::new() };
        proof {
            assert(t.as_map() =~= Map::<Seq<char>, Seq<u8>>::empty());
        }
        t
    }

    /// Adds one file under a path not yet in the table.
    pub fn insert(&mut self, path: String, bytes: Vec<u8>)
        requires
            old(self).wf(),
            !old(self).as_map().dom().contains(path@),
        ensures
            final(self).wf(),
            final(self).as_map() == old(self).as_map().insert(path@, bytes@),
    {
        let ghost prev = *self;
        let ghost p = path@;
        let ghost b = bytes@;
        self.entries.push(StaticFile { path, bytes });
        proof {
            let n = prev.entries@.len();
            assert(self.entries@[n as int].path@ == p);
            assert(self.entries@[n as int].bytes@ == b);
            assert forall|q: Seq<char>| #[trigger]
                self.contains_path(q) implies q == p || prev.contains_path(q) by {
                let i = choose|i: int|
                    0 <= i < self.entries@.len() && self.entries@[i].path@ == q;
                if i < n {
                    assert(prev.entries@[i].path@ == q);
                }
            };
            assert forall|q: Seq<char>| #[trigger]
                prev.contains_path(q) implies self.contains_path(q) by {
                let i = choose|i: int|
                    0 <= i < prev.entries@.len() && prev.entries@[i].path@ == q;
                assert(self.entries@[i].path@ == q);
            };
            assert(self.wf());
            self.lemma_entry(n as int);
            assert forall|q: Seq<char>|
                q != p && #[trigger] prev.contains_path(q) implies self.file_at(q)
                == prev.file_at(q) by {
                let i = choose|i: int|
                    0 <= i < prev.entries@.len() && prev.entries@[i].path@ == q;
                prev.lemma_entry(i);
                self.lemma_entry(i);
            };
            assert(self.as_map() =~= prev.as_map().insert(p, b));
        }
    }

    /// Whether the table holds a file under exactly this path.
    pub fn contains(&self, path: &str) -> (r: bool)
        ensures
            r == self.as_map().dom().contains(path@),
    {
        let mut i: usize = 0;
        while i < self.entries.len()
            invariant
                i <= self.entries@.len(),
                forall|k: int| 0 <= k < i ==> self.entries@[k].path@ != path@,
            decreases self.entries@.len() - i,
        {
            if str_eq(self.entries[i].path.as_str(), path) {
                return true;
            }
            i += 1;
        }
        false
    }

    /// Looks a path up verbatim and hands back a copy of its bytes.
    pub fn read(&self, path: &str) -> (r: Option<Vec<u8>>)
        requires
            self.wf(),
        ensures
            self.as_map().dom().contains(path@) ==> (r matches Some(b) && b@
                == self.as_map().index(path@)),
            !self.as_map().dom().contains(path@) ==> r is None,
    {
        let mut i: usize = 0;
        while i < self.entries.len()
            invariant
                i <= self.entries@.len(),
                self.wf(),
                forall|k: int| 0 <= k < i ==> self.entries@[k].path@ != path@,
            decreases self.entries@.len() - i,
        {
            if str_eq(self.entries[i].path.as_str(), path) {
                proof {
                    self.lemma_entry(i as int);
                }
                return Some(copy_bytes(&self.entries[i].bytes));
            }
            i += 1;
        }
        None
    }
}

/// A fresh copy of a byte vector.
fn copy_bytes(src: &Vec<u8>) -> (r: Vec<u8>)
    ensures
        r@ == src@,
{
    let mut r: Vec<u8> = Vec::new();
    let mut i: usize = 0;
    while i < src.len()
        invariant
            i <= src@.len(),
            r@ == src@.subrange(0, i as int),
        decreases src@.len() - i,
    {
        r.push(src[i]);
        proof {
            assert(r@ =~= src@.subrange(0, i + 1));
        }
        i += 1;
    }
    proof {
        assert(src@.subrange(0, src@.len() as int) =~= src@);
    }
    r
}

} // verus!
